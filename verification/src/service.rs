//! The service's boundary: each request as a plain value, and the response
//! that it gets.
//!
//! | request                 | success                  | failure |
//! |-------------------------|--------------------------|---------|
//! | `Index`                 | 200, empty               |         |
//! | `List`                  | 200, every record        |         |
//! | `Create(record)`        | 201, empty               | 400     |
//! | `Update(record)`        | 200, empty               | 400     |
//! | `Get(id)`               | 200, the record          | 400     |
//! | `Toggle(id)`            | 200, empty               | 400     |
//!
//! Decoding a request from the wire and encoding a response are left to
//! the transport.

use vstd::prelude::*;
use crate::error::StoreError;
use crate::memory::MemoryStore;
use crate::records::{change_result, get_result, insert_result, inserted, toggled, updated, views};
use crate::todo::{Todo, TodoView};

verus! {

/// The status of a response.
#[derive(Debug, Clone, Copy, PartialEq, Eq, Structural)]
pub enum Status {
    Okay,
    Created,
    BadRequest,
}

impl Status {
    /// The status as a number.
    pub open spec fn code_of(self) -> u16 {
        match self {
            Status::Okay => 200,
            Status::Created => 201,
            Status::BadRequest => 400,
        }
    }

    /// The status as a number.
    pub fn code(self) -> (code: u16)
        ensures
            code == self.code_of(),
    {
        match self {
            Status::Okay => 200,
            Status::Created => 201,
            Status::BadRequest => 400,
        }
    }

    /// Whether the status reports success, that is, lies in 200..=299.
    pub fn is_success(self) -> (success: bool)
        ensures
            success == (200 <= self.code_of() <= 299),
    {
        match self {
            Status::Okay => true,
            Status::Created => true,
            Status::BadRequest => false,
        }
    }
}

/// What a response carries.
#[derive(Debug, PartialEq, Eq)]
pub enum Payload {
    Empty,
    Record(Todo),
    Records(Vec<Todo>),
}

/// The mathematical value of a [`Payload`].
pub enum PayloadView {
    Empty,
    Record(TodoView),
    Records(Seq<TodoView>),
}

impl View for Payload {
    type V = PayloadView;

    open spec fn view(&self) -> PayloadView {
        match *self {
            Payload::Empty => PayloadView::Empty,
            Payload::Record(todo) => PayloadView::Record(todo@),
            Payload::Records(todos) => PayloadView::Records(views(todos@)),
        }
    }
}

/// The answer to a request.
#[derive(Debug, PartialEq, Eq)]
pub struct Response {
    pub status: Status,
    pub body: Payload,
}

/// The mathematical value of a [`Response`].
pub struct ResponseView {
    pub status: Status,
    pub body: PayloadView,
}

impl View for Response {
    type V = ResponseView;

    open spec fn view(&self) -> ResponseView {
        ResponseView { status: self.status, body: self.body@ }
    }
}

/// A request, decoded.
#[derive(Debug, PartialEq, Eq)]
pub enum Request {
    /// The root of the service; answers that the service is up.
    Index,
    /// Every record.
    List,
    /// Store a new record.
    Create(Todo),
    /// Replace the record that has the same identifier.
    Update(Todo),
    /// The record with this identifier.
    Get(u32),
    /// Flip the completion flag of the record with this identifier.
    Toggle(u32),
}

/// The mathematical value of a [`Request`].
pub enum RequestView {
    Index,
    List,
    Create(TodoView),
    Update(TodoView),
    Get(u32),
    Toggle(u32),
}

impl View for Request {
    type V = RequestView;

    open spec fn view(&self) -> RequestView {
        match *self {
            Request::Index => RequestView::Index,
            Request::List => RequestView::List,
            Request::Create(todo) => RequestView::Create(todo@),
            Request::Update(todo) => RequestView::Update(todo@),
            Request::Get(id) => RequestView::Get(id),
            Request::Toggle(id) => RequestView::Toggle(id),
        }
    }
}

impl RequestView {
    /// Whether the request only reads the store. Such requests may be
    /// served side by side; every other request needs the store for itself
    /// from its first read to its last write.
    pub open spec fn reads_only(self) -> bool {
        match self {
            RequestView::Index => true,
            RequestView::List => true,
            RequestView::Get(_) => true,
            RequestView::Create(_) => false,
            RequestView::Update(_) => false,
            RequestView::Toggle(_) => false,
        }
    }
}

impl Request {
    /// Whether the request only reads the store, so that shared access is
    /// enough to serve it with [`answer`].
    pub fn reads_only(&self) -> (reads: bool)
        ensures
            reads == self@.reads_only(),
    {
        match self {
            Request::Index => true,
            Request::List => true,
            Request::Get(_) => true,
            Request::Create(_) => false,
            Request::Update(_) => false,
            Request::Toggle(_) => false,
        }
    }
}

/// A response without a body.
pub open spec fn bare(status: Status) -> ResponseView {
    ResponseView { status, body: PayloadView::Empty }
}

/// The response to a `Create` whose insert ended with `result`.
pub open spec fn created_of(result: Result<(), StoreError>) -> ResponseView {
    match result {
        Ok(_) => bare(Status::Created),
        Err(_) => bare(Status::BadRequest),
    }
}

/// The response to an `Update` or a `Toggle` that ended with `result`.
pub open spec fn changed_of(result: Result<(), StoreError>) -> ResponseView {
    match result {
        Ok(_) => bare(Status::Okay),
        Err(_) => bare(Status::BadRequest),
    }
}

/// The response to a `Get` that ended with `result`.
pub open spec fn fetched_of(result: Result<TodoView, StoreError>) -> ResponseView {
    match result {
        Ok(record) => ResponseView { status: Status::Okay, body: PayloadView::Record(record) },
        Err(_) => bare(Status::BadRequest),
    }
}

/// The response to a `List` over the records `records`.
pub open spec fn listed_of(records: Seq<TodoView>) -> ResponseView {
    ResponseView { status: Status::Okay, body: PayloadView::Records(records) }
}

/// The response that a store holding `s` gives to `request`.
pub open spec fn response_to(s: Seq<TodoView>, request: RequestView) -> ResponseView {
    match request {
        RequestView::Index => bare(Status::Okay),
        RequestView::List => listed_of(s),
        RequestView::Create(record) => created_of(insert_result(s, record)),
        RequestView::Update(record) => changed_of(change_result(s, record.id)),
        RequestView::Get(id) => fetched_of(get_result(s, id)),
        RequestView::Toggle(id) => changed_of(change_result(s, id)),
    }
}

/// What a store that held `s` holds once it has served `request`.
pub open spec fn store_after(s: Seq<TodoView>, request: RequestView) -> Seq<TodoView> {
    match request {
        RequestView::Index => s,
        RequestView::List => s,
        RequestView::Create(record) => inserted(s, record),
        RequestView::Update(record) => updated(s, record),
        RequestView::Get(_) => s,
        RequestView::Toggle(id) => toggled(s, id),
    }
}

/// The response to `Index`: 200 with no body.
pub fn index() -> (response: Response)
    ensures
        response@ == bare(Status::Okay),
{
    Response { status: Status::Okay, body: Payload::Empty }
}

/// The response to `List`: 200 with the records, in the order given.
pub fn listed(todos: Vec<Todo>) -> (response: Response)
    ensures
        response@ == listed_of(views(todos@)),
{
    Response { status: Status::Okay, body: Payload::Records(todos) }
}

/// The response to `Create`: 201 where the record was stored, 400 where the
/// store refused it.
pub fn created(result: Result<(), StoreError>) -> (response: Response)
    ensures
        response@ == created_of(result),
{
    match result {
        Ok(_) => Response { status: Status::Created, body: Payload::Empty },
        Err(_) => Response { status: Status::BadRequest, body: Payload::Empty },
    }
}

/// The response to `Update` and to `Toggle`: 200 where the record was
/// changed, 400 where the store has no such record.
pub fn changed(result: Result<(), StoreError>) -> (response: Response)
    ensures
        response@ == changed_of(result),
{
    match result {
        Ok(_) => Response { status: Status::Okay, body: Payload::Empty },
        Err(_) => Response { status: Status::BadRequest, body: Payload::Empty },
    }
}

/// The response to `Get`: 200 with the record, or 400 where the store has
/// no such record.
pub fn fetched(result: Result<Todo, StoreError>) -> (response: Response)
    ensures
        response@ == fetched_of(
            match result {
                Ok(todo) => Ok(todo@),
                Err(e) => Err(e),
            },
        ),
{
    match result {
        Ok(todo) => Response { status: Status::Okay, body: Payload::Record(todo) },
        Err(_) => Response { status: Status::BadRequest, body: Payload::Empty },
    }
}

/// Serves a request that only reads, on shared access to the in-memory
/// store: gives the response of the table above.
pub fn answer(store: &MemoryStore, request: Request) -> (response: Response)
    requires
        request@.reads_only(),
    ensures
        response@ == response_to(store@, request@),
{
    match request {
        Request::List => listed(store.list()),
        Request::Get(id) => fetched(store.get(id)),
        _ => index(),
    }
}

/// Serves one request on the in-memory store, with exclusive access:
/// performs the operation that the request names and gives the response of
/// the table above.
pub fn handle(store: &mut MemoryStore, request: Request) -> (response: Response)
    ensures
        final(store)@ == store_after(old(store)@, request@),
        response@ == response_to(old(store)@, request@),
{
    match request {
        Request::Create(todo) => created(store.insert(todo)),
        Request::Update(todo) => changed(store.update(todo)),
        Request::Toggle(id) => changed(store.toggle(id)),
        reading => answer(store, reading),
    }
}

/// A request that only reads leaves every store as it was.
pub proof fn law_reads_change_nothing(s: Seq<TodoView>, request: RequestView)
    requires
        request.reads_only(),
    ensures
        store_after(s, request) == s,
{
}

} // verus!
