use todo_service::handlers::{
    all_todo, create_todo, created_response, delete_todo, deleted_response, error_status,
    find_todo, found_response, listed_response, root, update_todo, updated_response, Body,
    Response, CREATED, INTERNAL_SERVER_ERROR, NOT_FOUND, NO_CONTENT, OK,
};
use todo_service::repositories::{
    CreateTodo, RepositoryError, Todo, TodoRepository, TodoRepositoryForMemory, UpdateTodo,
};

/// A backend that is out of order: it stores nothing and fails where it may.
#[derive(Clone)]
struct Broken;

impl TodoRepository for Broken {
    fn create(&self, payload: CreateTodo) -> Todo {
        Todo::new(0, payload.text)
    }

    fn find(&self, _id: i32) -> Option<Todo> {
        None
    }

    fn all(&self) -> Vec<Todo> {
        Vec::new()
    }

    fn update(&self, _id: i32, _payload: UpdateTodo) -> Result<Todo, RepositoryError> {
        Err(RepositoryError::Internal)
    }

    fn delete(&self, _id: i32) -> Result<(), RepositoryError> {
        Err(RepositoryError::Internal)
    }
}

fn todo(id: i32, text: &str, completed: bool) -> Todo {
    Todo { id, text: text.to_string(), completed }
}

fn seeded() -> TodoRepositoryForMemory {
    let repository = TodoRepositoryForMemory::new();
    repository.create(CreateTodo::new("should_created_todo".to_string()));
    repository
}

#[test]
fn statuses_are_the_http_numbers() {
    assert_eq!(OK, 200);
    assert_eq!(CREATED, 201);
    assert_eq!(NO_CONTENT, 204);
    assert_eq!(NOT_FOUND, 404);
    assert_eq!(INTERNAL_SERVER_ERROR, 500);
}

#[test]
fn root_greets() {
    assert_eq!(root(), "heeeeeeee");
}

#[test]
fn error_status_tells_not_found_from_the_rest() {
    assert_eq!(error_status(RepositoryError::NotFound(9)), 404);
    assert_eq!(error_status(RepositoryError::Internal), 500);
}

#[test]
fn responses_for_each_result() {
    assert_eq!(
        created_response(todo(1, "a", false)),
        Response { status: 201, body: Body::Item(todo(1, "a", false)) }
    );
    assert_eq!(
        listed_response(vec![todo(1, "a", false), todo(2, "b", true)]),
        Response { status: 200, body: Body::List(vec![todo(1, "a", false), todo(2, "b", true)]) }
    );
    assert_eq!(listed_response(Vec::new()), Response { status: 200, body: Body::List(Vec::new()) });
    assert_eq!(
        found_response(Some(todo(3, "c", true))),
        Response { status: 200, body: Body::Item(todo(3, "c", true)) }
    );
    assert_eq!(found_response(None), Response { status: 404, body: Body::Empty });
    assert_eq!(
        updated_response(Ok(todo(4, "d", false))),
        Response { status: 200, body: Body::Item(todo(4, "d", false)) }
    );
    assert_eq!(
        updated_response(Err(RepositoryError::NotFound(4))),
        Response { status: 404, body: Body::Empty }
    );
    assert_eq!(
        updated_response(Err(RepositoryError::Internal)),
        Response { status: 500, body: Body::Empty }
    );
    assert_eq!(deleted_response(Ok(())), Response { status: 204, body: Body::Empty });
    assert_eq!(
        deleted_response(Err(RepositoryError::NotFound(5))),
        Response { status: 404, body: Body::Empty }
    );
    assert_eq!(
        deleted_response(Err(RepositoryError::Internal)),
        Response { status: 500, body: Body::Empty }
    );
}

#[test]
fn create_answers_created_with_the_item() {
    let repository = TodoRepositoryForMemory::new();
    let response = create_todo(&repository, CreateTodo::new("should_created_todo".to_string()));
    assert_eq!(
        response,
        Response { status: 201, body: Body::Item(todo(1, "should_created_todo", false)) }
    );
    assert_eq!(repository.find(1), Some(todo(1, "should_created_todo", false)));
}

#[test]
fn find_answers_with_the_item_or_not_found() {
    let repository = seeded();
    assert_eq!(
        find_todo(&repository, 1),
        Response { status: 200, body: Body::Item(todo(1, "should_created_todo", false)) }
    );
    assert_eq!(find_todo(&repository, 2), Response { status: 404, body: Body::Empty });
}

#[test]
fn all_answers_with_every_item() {
    let repository = TodoRepositoryForMemory::new();
    assert_eq!(all_todo(&repository), Response { status: 200, body: Body::List(Vec::new()) });
    let repository = seeded();
    assert_eq!(
        all_todo(&repository),
        Response { status: 200, body: Body::List(vec![todo(1, "should_created_todo", false)]) }
    );
}

#[test]
fn update_answers_with_the_new_item_or_not_found() {
    let repository = TodoRepositoryForMemory::new();
    repository.create(CreateTodo::new("before_update_todo".to_string()));
    let patch = UpdateTodo { text: Some("should_update_todo".to_string()), completed: Some(false) };
    assert_eq!(
        update_todo(&repository, 1, patch.clone()),
        Response { status: 200, body: Body::Item(todo(1, "should_update_todo", false)) }
    );
    assert_eq!(update_todo(&repository, 2, patch), Response { status: 404, body: Body::Empty });
    assert_eq!(repository.all(), vec![todo(1, "should_update_todo", false)]);
}

#[test]
fn delete_answers_no_content_or_not_found() {
    let repository = TodoRepositoryForMemory::new();
    repository.create(CreateTodo::new("should_delete_todo".to_string()));
    assert_eq!(delete_todo(&repository, 1), Response { status: 204, body: Body::Empty });
    assert_eq!(delete_todo(&repository, 1), Response { status: 404, body: Body::Empty });
    assert_eq!(repository.all(), Vec::<Todo>::new());
}

#[test]
fn a_failing_backend_answers_with_a_server_error() {
    let patch = UpdateTodo { text: None, completed: Some(true) };
    assert_eq!(update_todo(&Broken, 1, patch), Response { status: 500, body: Body::Empty });
    assert_eq!(delete_todo(&Broken, 1), Response { status: 500, body: Body::Empty });
    assert_eq!(find_todo(&Broken, 1), Response { status: 404, body: Body::Empty });
    assert_eq!(all_todo(&Broken), Response { status: 200, body: Body::List(Vec::new()) });
    assert_eq!(
        create_todo(&Broken, CreateTodo::new("x".to_string())),
        Response { status: 201, body: Body::Item(todo(0, "x", false)) }
    );
}
