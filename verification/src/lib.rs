//! A store of todo records.
//!
//! The crate holds the rules of a small record-management service: what a
//! record is, what each of the five store operations (insert, list, get,
//! update, toggle) does to the set of records, how the answers of a durable
//! storage engine are read, and which response each request of the service
//! gets. Every function carries a contract over the mathematical value of the
//! data it touches, and the laws that relate the operations to each other are
//! proved in [`laws`].

pub mod durable;
pub mod error;
pub mod laws;
pub mod memory;
pub mod records;
pub mod service;
pub mod todo;

pub use error::StoreError;
pub use memory::MemoryStore;
pub use service::{answer, handle, Payload, Request, Response, Status};
pub use todo::{Todo, TodoView};
