use todo_server_workshop::{
    answer, handle, MemoryStore, Payload, Request, Response, Status, Todo,
};

fn default_todo() -> Todo {
    Todo {
        id: 1,
        name: "Remember to store the todo".into(),
        completed: false,
    }
}

fn send(store: &mut MemoryStore, request: Request) -> Response {
    handle(store, request)
}

#[test]
fn returns_empty_200_at_index() {
    let mut store = MemoryStore::new();

    let response = send(&mut store, Request::Index);

    assert_eq!(response.status.code(), 200);
    assert_eq!(response.status, Status::Okay);
    assert_eq!(response.body, Payload::Empty);
}

#[test]
fn returns_empty_list_of_todos() {
    let mut store = MemoryStore::new();

    let response = send(&mut store, Request::List);

    assert!(response.status.is_success());
    assert_eq!(response.status.code(), 200);
    assert_eq!(response.body, Payload::Records(vec![]));
}

#[test]
fn returns_201_created_on_new_todo() {
    let mut store = MemoryStore::new();

    let todo = default_todo();

    let response = send(&mut store, Request::Create(todo));

    assert_eq!(response.status.code(), 201);
    assert_eq!(response.status, Status::Created);
    assert_eq!(response.body, Payload::Empty);
}

#[test]
fn persists_a_todo() {
    let mut store = MemoryStore::new();

    let todo = default_todo();

    let response = send(&mut store, Request::Create(todo.clone()));

    assert!(response.status.is_success());

    let response = send(&mut store, Request::List);

    assert!(response.status.is_success());

    assert_eq!(response.body, Payload::Records(vec![todo]));
}

#[test]
fn can_get_specific_todo() {
    let mut store = MemoryStore::new();

    let todo = default_todo();

    // Create todo
    let response = send(&mut store, Request::Create(todo.clone()));

    assert!(response.status.is_success());

    // Fetch specific todo
    let response = send(&mut store, Request::Get(1));

    assert!(response.status.is_success());

    assert_eq!(response.body, Payload::Record(todo));
}

#[test]
fn fetching_nonexisting_todo_returns_400() {
    let mut store = MemoryStore::new();

    let response = send(&mut store, Request::Get(123));

    assert_eq!(response.status.code(), 400);
    assert_eq!(response.status, Status::BadRequest);
    assert_eq!(response.body, Payload::Empty);
}

#[test]
fn can_toggle_todo() {
    let mut store = MemoryStore::new();

    let todo = default_todo();

    // Create todo
    let response = send(&mut store, Request::Create(todo.clone()));

    assert!(response.status.is_success());

    // Toggle the todo
    let response = send(&mut store, Request::Toggle(1));

    assert!(response.status.is_success());

    // Fetch the todo and assert its completion status
    let response = send(&mut store, Request::Get(1));

    assert!(response.status.is_success());

    assert_eq!(
        response.body,
        Payload::Record(Todo {
            completed: true,
            ..todo
        })
    );
}

#[test]
fn toggling_nonexisting_todo_returns_400() {
    let mut store = MemoryStore::new();

    let response = send(&mut store, Request::Toggle(1));

    assert_eq!(response.status.code(), 400);
    assert_eq!(response.status, Status::BadRequest);
}

#[test]
fn created_record_is_fetched_exactly() {
    let mut store = MemoryStore::new();
    let todo = Todo {
        id: 1,
        name: "x".into(),
        completed: false,
    };

    let response = send(&mut store, Request::Create(todo.clone()));
    assert_eq!(response.status.code(), 201);

    let response = send(&mut store, Request::Get(1));
    assert_eq!(response.status.code(), 200);
    assert_eq!(response.body, Payload::Record(todo));
}

#[test]
fn creating_a_taken_identifier_returns_400() {
    let mut store = MemoryStore::new();
    let first = default_todo();
    let second = Todo {
        id: 1,
        name: "another title".into(),
        completed: true,
    };

    assert_eq!(send(&mut store, Request::Create(first.clone())).status.code(), 201);
    let response = send(&mut store, Request::Create(second));
    assert_eq!(response.status.code(), 400);
    assert_eq!(response.body, Payload::Empty);

    assert_eq!(send(&mut store, Request::List).body, Payload::Records(vec![first]));
}

#[test]
fn put_replaces_a_stored_record() {
    let mut store = MemoryStore::new();
    let todo = default_todo();
    let replacement = Todo {
        id: 1,
        name: "Store it twice".into(),
        completed: true,
    };

    assert!(send(&mut store, Request::Create(todo)).status.is_success());
    let response = send(&mut store, Request::Update(replacement.clone()));
    assert_eq!(response.status.code(), 200);
    assert_eq!(response.body, Payload::Empty);

    assert_eq!(send(&mut store, Request::Get(1)).body, Payload::Record(replacement));
}

#[test]
fn put_of_an_absent_identifier_returns_400() {
    let mut store = MemoryStore::new();
    assert!(send(&mut store, Request::Create(default_todo())).status.is_success());

    let response = send(
        &mut store,
        Request::Update(Todo {
            id: 2,
            name: "nobody has this".into(),
            completed: true,
        }),
    );

    assert_eq!(response.status.code(), 400);
    assert_eq!(send(&mut store, Request::List).body, Payload::Records(vec![default_todo()]));
}

#[test]
fn reading_requests_leave_the_store_alone() {
    let mut store = MemoryStore::new();
    assert!(send(&mut store, Request::Create(default_todo())).status.is_success());

    send(&mut store, Request::Index);
    send(&mut store, Request::List);
    send(&mut store, Request::Get(1));
    send(&mut store, Request::Get(7));

    assert_eq!(store.list(), vec![default_todo()]);
}

#[test]
fn status_codes_and_success() {
    assert_eq!(Status::Okay.code(), 200);
    assert_eq!(Status::Created.code(), 201);
    assert_eq!(Status::BadRequest.code(), 400);
    assert!(Status::Okay.is_success());
    assert!(Status::Created.is_success());
    assert!(!Status::BadRequest.is_success());
}

#[test]
fn only_index_list_and_get_read() {
    assert!(Request::Index.reads_only());
    assert!(Request::List.reads_only());
    assert!(Request::Get(1).reads_only());
    assert!(!Request::Create(default_todo()).reads_only());
    assert!(!Request::Update(default_todo()).reads_only());
    assert!(!Request::Toggle(1).reads_only());
}

#[test]
fn shared_access_answers_reading_requests() {
    let mut store = MemoryStore::new();
    assert!(send(&mut store, Request::Create(default_todo())).status.is_success());

    let response = answer(&store, Request::Index);
    assert_eq!(response.status.code(), 200);
    assert_eq!(response.body, Payload::Empty);

    let response = answer(&store, Request::List);
    assert_eq!(response.status.code(), 200);
    assert_eq!(response.body, Payload::Records(vec![default_todo()]));

    let response = answer(&store, Request::Get(1));
    assert_eq!(response.status.code(), 200);
    assert_eq!(response.body, Payload::Record(default_todo()));

    let response = answer(&store, Request::Get(2));
    assert_eq!(response.status.code(), 400);
    assert_eq!(response.body, Payload::Empty);
}

#[test]
fn toggling_twice_over_the_service_restores_the_record() {
    let mut store = MemoryStore::new();
    assert!(send(&mut store, Request::Create(default_todo())).status.is_success());

    assert_eq!(send(&mut store, Request::Toggle(1)).status.code(), 200);
    assert_eq!(send(&mut store, Request::Toggle(1)).status.code(), 200);

    assert_eq!(send(&mut store, Request::Get(1)).body, Payload::Record(default_todo()));
}
