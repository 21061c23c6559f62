//! Between a request and the repository: each handler makes one call on the
//! repository and turns what comes back into a status and a body. Reading
//! the request and encoding the body are the caller's.

use crate::repositories::{CreateTodo, RepositoryError, Todo, TodoRepository, UpdateTodo};
use vstd::prelude::*;

verus! {

pub const OK: u16 = 200;

pub const CREATED: u16 = 201;

pub const NO_CONTENT: u16 = 204;

pub const NOT_FOUND: u16 = 404;

pub const INTERNAL_SERVER_ERROR: u16 = 500;

/// What a response carries besides its status.
#[derive(Debug, PartialEq, Eq)]
pub enum Body {
    Empty,
    Item(Todo),
    List(Vec<Todo>),
}

/// The answer to one request: an HTTP status number and a body.
#[derive(Debug, PartialEq, Eq)]
pub struct Response {
    pub status: u16,
    pub body: Body,
}

/// The status that reports `error` to the client: "not found" for a missing
/// id, "internal server error" for anything else.
pub open spec fn status_for(error: RepositoryError) -> u16 {
    match error {
        RepositoryError::NotFound(_) => NOT_FOUND,
        RepositoryError::Internal => INTERNAL_SERVER_ERROR,
    }
}

/// The answer to a creation that stored `todo`: "created", with the item.
pub open spec fn reply_created(todo: Todo) -> Response {
    Response { status: CREATED, body: Body::Item(todo) }
}

/// The answer to a listing that gave `todos`: "ok", with the items.
pub open spec fn reply_listed(todos: Vec<Todo>) -> Response {
    Response { status: OK, body: Body::List(todos) }
}

/// The answer to a lookup: "ok" with the item, or "not found" without a
/// body.
pub open spec fn reply_found(found: Option<Todo>) -> Response {
    match found {
        Some(todo) => Response { status: OK, body: Body::Item(todo) },
        None => Response { status: NOT_FOUND, body: Body::Empty },
    }
}

/// The answer to an update: "ok" with the new item, or the error's status
/// without a body.
pub open spec fn reply_updated(result: Result<Todo, RepositoryError>) -> Response {
    match result {
        Ok(todo) => Response { status: OK, body: Body::Item(todo) },
        Err(error) => Response { status: status_for(error), body: Body::Empty },
    }
}

/// The answer to a deletion: "no content", or the error's status. Never a
/// body.
pub open spec fn reply_deleted(result: Result<(), RepositoryError>) -> Response {
    match result {
        Ok(()) => Response { status: NO_CONTENT, body: Body::Empty },
        Err(error) => Response { status: status_for(error), body: Body::Empty },
    }
}

/// The greeting served at the root path.
pub fn root() -> (greeting: &'static str)
    ensures
        greeting@ == "heeeeeeee"@,
{
    "heeeeeeee"
}

pub fn error_status(error: RepositoryError) -> (status: u16)
    ensures
        status == status_for(error),
{
    match error {
        RepositoryError::NotFound(_) => NOT_FOUND,
        RepositoryError::Internal => INTERNAL_SERVER_ERROR,
    }
}

pub fn created_response(todo: Todo) -> (response: Response)
    ensures
        response == reply_created(todo),
{
    Response { status: CREATED, body: Body::Item(todo) }
}

pub fn listed_response(todos: Vec<Todo>) -> (response: Response)
    ensures
        response == reply_listed(todos),
{
    Response { status: OK, body: Body::List(todos) }
}

pub fn found_response(found: Option<Todo>) -> (response: Response)
    ensures
        response == reply_found(found),
{
    match found {
        Some(todo) => Response { status: OK, body: Body::Item(todo) },
        None => Response { status: NOT_FOUND, body: Body::Empty },
    }
}

pub fn updated_response(result: Result<Todo, RepositoryError>) -> (response: Response)
    ensures
        response == reply_updated(result),
{
    match result {
        Ok(todo) => Response { status: OK, body: Body::Item(todo) },
        Err(error) => Response { status: error_status(error), body: Body::Empty },
    }
}

pub fn deleted_response(result: Result<(), RepositoryError>) -> (response: Response)
    ensures
        response == reply_deleted(result),
{
    match result {
        Ok(()) => Response { status: NO_CONTENT, body: Body::Empty },
        Err(error) => Response { status: error_status(error), body: Body::Empty },
    }
}

/// Creates an item from `payload`: the answer is [`reply_created`] of what
/// the repository's `create` returned for `payload`.
pub fn create_todo<T: TodoRepository>(repository: &T, payload: CreateTodo) -> (response: Response)
    ensures
        exists|todo: Todo| #[trigger]
            call_ensures(T::create, (repository, payload), todo) && response == reply_created(todo),
{
    created_response(repository.create(payload))
}

/// Lists the items: the answer is [`reply_listed`] of what the repository's
/// `all` returned.
pub fn all_todo<T: TodoRepository>(repository: &T) -> (response: Response)
    ensures
        exists|todos: Vec<Todo>| #[trigger]
            call_ensures(T::all, (repository,), todos) && response == reply_listed(todos),
{
    listed_response(repository.all())
}

/// Looks `id` up: the answer is [`reply_found`] of what the repository's
/// `find` returned for `id`.
pub fn find_todo<T: TodoRepository>(repository: &T, id: i32) -> (response: Response)
    ensures
        exists|found: Option<Todo>| #[trigger]
            call_ensures(T::find, (repository, id), found) && response == reply_found(found),
{
    found_response(repository.find(id))
}

/// Applies `payload` to the item under `id`: the answer is
/// [`reply_updated`] of what the repository's `update` returned for them.
pub fn update_todo<T: TodoRepository>(repository: &T, id: i32, payload: UpdateTodo) -> (response:
    Response)
    ensures
        exists|result: Result<Todo, RepositoryError>| #[trigger]
            call_ensures(T::update, (repository, id, payload), result) && response == reply_updated(
                result,
            ),
{
    updated_response(repository.update(id, payload))
}

/// Deletes the item under `id`: the answer is [`reply_deleted`] of what the
/// repository's `delete` returned for `id`.
pub fn delete_todo<T: TodoRepository>(repository: &T, id: i32) -> (response: Response)
    ensures
        exists|result: Result<(), RepositoryError>| #[trigger]
            call_ensures(T::delete, (repository, id), result) && response == reply_deleted(result),
{
    deleted_response(repository.delete(id))
}

} // verus!
