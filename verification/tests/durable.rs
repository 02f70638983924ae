use todo_server_workshop::durable::{
    get_outcome, insert_outcome, schema_outcome, toggle_step, update_outcome, ReadReply,
    ToggleStep, WriteReply,
};
use todo_server_workshop::{StoreError, Todo};

fn sample() -> Todo {
    Todo {
        id: 7,
        name: "seven".into(),
        completed: false,
    }
}

#[test]
fn schema_is_ready_when_the_statement_ran() {
    assert_eq!(schema_outcome(WriteReply::Changed(0)), Ok(()));
    assert_eq!(schema_outcome(WriteReply::Changed(1)), Ok(()));
}

#[test]
fn schema_failure_makes_storage_unavailable() {
    assert_eq!(schema_outcome(WriteReply::Failed), Err(StoreError::StorageUnavailable));
    assert_eq!(schema_outcome(WriteReply::Conflict), Err(StoreError::StorageUnavailable));
}

#[test]
fn insert_answers() {
    assert_eq!(insert_outcome(WriteReply::Changed(1)), Ok(()));
    assert_eq!(insert_outcome(WriteReply::Conflict), Err(StoreError::DuplicateIdentifier));
    assert_eq!(insert_outcome(WriteReply::Failed), Err(StoreError::StorageUnavailable));
}

#[test]
fn update_answers() {
    assert_eq!(update_outcome(WriteReply::Changed(0)), Err(StoreError::NotFound));
    assert_eq!(update_outcome(WriteReply::Changed(1)), Ok(()));
    assert_eq!(update_outcome(WriteReply::Changed(usize::MAX)), Ok(()));
    assert_eq!(update_outcome(WriteReply::Conflict), Err(StoreError::StorageUnavailable));
    assert_eq!(update_outcome(WriteReply::Failed), Err(StoreError::StorageUnavailable));
}

#[test]
fn get_answers() {
    assert_eq!(get_outcome(ReadReply::Row(sample())), Ok(sample()));
    assert_eq!(get_outcome(ReadReply::NoRow), Err(StoreError::NotFound));
    assert_eq!(get_outcome(ReadReply::Failed), Err(StoreError::StorageUnavailable));
}

#[test]
fn toggle_writes_back_the_flipped_record() {
    assert_eq!(
        toggle_step(ReadReply::Row(sample())),
        ToggleStep::Write(Todo {
            completed: true,
            ..sample()
        })
    );
    assert_eq!(
        toggle_step(ReadReply::Row(Todo {
            completed: true,
            ..sample()
        })),
        ToggleStep::Write(sample())
    );
}

#[test]
fn toggle_ends_without_a_row() {
    assert_eq!(toggle_step(ReadReply::NoRow), ToggleStep::Finish(Err(StoreError::NotFound)));
    assert_eq!(
        toggle_step(ReadReply::Failed),
        ToggleStep::Finish(Err(StoreError::StorageUnavailable))
    );
}
