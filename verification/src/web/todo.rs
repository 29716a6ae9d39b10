//! Todo items, the request and response bodies that carry them, the errors
//! the service answers with, and the service's decisions around the store.

use vstd::prelude::*;
use vstd::string::*;
use crate::orm::error::OrmError;
use crate::text::{all_white_space, is_blank};

verus! {

/// A todo item. The identifier is the UUID's 128-bit value and the creation
/// time is Unix time in microseconds (UTC).
#[derive(Debug, Clone, PartialEq, Eq)]
pub struct Todo {
    pub id: u128,
    pub title: String,
    pub done: bool,
    pub created_at: i64,
}

/// Payload for creating a todo.
#[derive(Debug, Clone)]
pub struct CreateTodo {
    pub title: String,
}

/// Payload for updating a todo; absent fields stay as they are.
#[derive(Debug, Clone)]
pub struct UpdateTodo {
    pub title: Option<String>,
    pub done: Option<bool>,
}

/// Request body for creating a todo.
#[derive(Debug, Clone)]
pub struct CreateTodoRequest {
    pub title: String,
}

/// Request body for updating a todo.
#[derive(Debug, Clone)]
pub struct UpdateTodoRequest {
    pub title: Option<String>,
    pub done: Option<bool>,
}

/// Response body for one todo.
#[derive(Debug, Clone)]
pub struct TodoResponse {
    pub id: u128,
    pub title: String,
    pub done: bool,
    pub created_at: i64,
}

impl From<CreateTodoRequest> for CreateTodo {
    fn from(r: CreateTodoRequest) -> (c: CreateTodo) {
        CreateTodo { title: r.title }
    }
}

impl vstd::std_specs::convert::FromSpecImpl<CreateTodoRequest> for CreateTodo {
    open spec fn obeys_from_spec() -> bool {
        true
    }

    open spec fn from_spec(r: CreateTodoRequest) -> CreateTodo {
        CreateTodo { title: r.title }
    }
}

impl From<UpdateTodoRequest> for UpdateTodo {
    fn from(r: UpdateTodoRequest) -> (u: UpdateTodo) {
        UpdateTodo { title: r.title, done: r.done }
    }
}

impl vstd::std_specs::convert::FromSpecImpl<UpdateTodoRequest> for UpdateTodo {
    open spec fn obeys_from_spec() -> bool {
        true
    }

    open spec fn from_spec(r: UpdateTodoRequest) -> UpdateTodo {
        UpdateTodo { title: r.title, done: r.done }
    }
}

impl From<Todo> for TodoResponse {
    fn from(t: Todo) -> (r: TodoResponse) {
        TodoResponse { id: t.id, title: t.title, done: t.done, created_at: t.created_at }
    }
}

impl vstd::std_specs::convert::FromSpecImpl<Todo> for TodoResponse {
    open spec fn obeys_from_spec() -> bool {
        true
    }

    open spec fn from_spec(t: Todo) -> TodoResponse {
        TodoResponse { id: t.id, title: t.title, done: t.done, created_at: t.created_at }
    }
}

/// The kind of an error answer, which decides its HTTP status.
#[derive(Debug, Clone, Copy, PartialEq, Eq)]
pub enum ErrorKind {
    BadRequest,
    Unauthorized,
    NotFound,
    Internal,
}

/// An error answer of the service.
#[derive(Debug)]
pub struct AppError {
    pub kind: ErrorKind,
    pub message: String,
}

pub open spec fn status_of(kind: ErrorKind) -> u16 {
    match kind {
        ErrorKind::BadRequest => 400,
        ErrorKind::Unauthorized => 401,
        ErrorKind::NotFound => 404,
        ErrorKind::Internal => 500,
    }
}

impl AppError {
    pub fn bad_request(message: &str) -> (e: AppError)
        ensures
            e.kind == ErrorKind::BadRequest,
            e.message@ == message@,
    {
        AppError { kind: ErrorKind::BadRequest, message: message.to_owned() }
    }

    pub fn unauthorized(message: &str) -> (e: AppError)
        ensures
            e.kind == ErrorKind::Unauthorized,
            e.message@ == message@,
    {
        AppError { kind: ErrorKind::Unauthorized, message: message.to_owned() }
    }

    pub fn not_found(message: &str) -> (e: AppError)
        ensures
            e.kind == ErrorKind::NotFound,
            e.message@ == message@,
    {
        AppError { kind: ErrorKind::NotFound, message: message.to_owned() }
    }

    pub fn internal(message: &str) -> (e: AppError)
        ensures
            e.kind == ErrorKind::Internal,
            e.message@ == message@,
    {
        AppError { kind: ErrorKind::Internal, message: message.to_owned() }
    }

    /// The HTTP status of this answer.
    pub fn status_code(&self) -> (s: u16)
        ensures
            s == status_of(self.kind),
    {
        match self.kind {
            ErrorKind::BadRequest => 400,
            ErrorKind::Unauthorized => 401,
            ErrorKind::NotFound => 404,
            ErrorKind::Internal => 500,
        }
    }
}

/// A new todo needs a title that is not blank.
pub fn validate_new_todo(input: &CreateTodo) -> (r: Result<(), AppError>)
    ensures
        match r {
            Ok(()) => !all_white_space(input.title@),
            Err(e) => all_white_space(input.title@) && e.kind == ErrorKind::BadRequest
                && e.message@ == "title must not be empty"@,
        },
{
    if is_blank(input.title.as_str()) {
        return Err(AppError::bad_request("title must not be empty"));
    }
    Ok(())
}

/// The todo after an update: each field given replaces the stored one.
pub open spec fn updated(todo: Todo, input: UpdateTodo) -> Todo {
    Todo {
        id: todo.id,
        title: match input.title {
            Some(t) => t,
            None => todo.title,
        },
        done: match input.done {
            Some(d) => d,
            None => todo.done,
        },
        created_at: todo.created_at,
    }
}

pub fn apply_todo_update(todo: Todo, input: UpdateTodo) -> (t: Todo)
    ensures
        t == updated(todo, input),
{
    let mut t = todo;
    match input.title {
        Some(title) => {
            t.title = title;
        },
        None => {},
    }
    match input.done {
        Some(done) => {
            t.done = done;
        },
        None => {},
    }
    t
}

/// A store failure while locating a todo: a missing record is "todo not
/// found" (404); anything else is an internal error with `internal_message`.
pub fn locate_failure(err: &OrmError, internal_message: &str) -> (e: AppError)
    ensures
        err is NotFound ==> e.kind == ErrorKind::NotFound && e.message@ == "todo not found"@,
        !(err is NotFound) ==> e.kind == ErrorKind::Internal && e.message@ == internal_message@,
{
    match err {
        OrmError::NotFound => AppError::not_found("todo not found"),
        _ => AppError::internal(internal_message),
    }
}


/// An update with no fields changes nothing, and applying the same update
/// twice is the same as applying it once.
pub proof fn law_update_idempotent(todo: Todo, input: UpdateTodo)
    ensures
        updated(todo, UpdateTodo { title: None, done: None }) == todo,
        updated(updated(todo, input), input) == updated(todo, input),
{
}


/// An update sets each given field to the given value and keeps each absent
/// one; the id and the creation time never change.
pub proof fn law_update_sets_given_fields(todo: Todo, input: UpdateTodo)
    ensures
        updated(todo, input).id == todo.id,
        updated(todo, input).created_at == todo.created_at,
        match input.title {
            Some(t) => updated(todo, input).title == t,
            None => updated(todo, input).title == todo.title,
        },
        match input.done {
            Some(d) => updated(todo, input).done == d,
            None => updated(todo, input).done == todo.done,
        },
{
}

} // verus!
