use rust_starter::orm::error::OrmError;
use rust_starter::web::todo::{
    apply_todo_update, locate_failure, validate_new_todo, AppError, CreateTodo, CreateTodoRequest,
    ErrorKind, Todo, TodoResponse, UpdateTodo, UpdateTodoRequest,
};

fn todo() -> Todo {
    Todo { id: 7, title: "buy milk".into(), done: false, created_at: 1_700_000_000_000_000 }
}

#[test]
fn new_todos_need_a_title() {
    assert!(validate_new_todo(&CreateTodo { title: "write tests".into() }).is_ok());
    let err = validate_new_todo(&CreateTodo { title: " \t ".into() }).unwrap_err();
    assert_eq!(err.kind, ErrorKind::BadRequest);
    assert_eq!(err.message, "title must not be empty");
    assert_eq!(err.status_code(), 400);
    assert!(validate_new_todo(&CreateTodo { title: String::new() }).is_err());
}

#[test]
fn updates_replace_only_the_given_fields() {
    let t = apply_todo_update(todo(), UpdateTodo { title: None, done: Some(true) });
    assert_eq!(t.title, "buy milk");
    assert!(t.done);
    assert_eq!(t.id, 7);
    let t = apply_todo_update(t, UpdateTodo { title: Some("buy oat milk".into()), done: None });
    assert_eq!(t.title, "buy oat milk");
    assert!(t.done);
    let same = apply_todo_update(todo(), UpdateTodo { title: None, done: None });
    assert_eq!(same, todo());
}

#[test]
fn missing_records_are_not_found_and_the_rest_internal() {
    let e = locate_failure(&OrmError::NotFound, "failed to retrieve todo");
    assert_eq!(e.kind, ErrorKind::NotFound);
    assert_eq!(e.message, "todo not found");
    assert_eq!(e.status_code(), 404);
    let e = locate_failure(&OrmError::Database("boom".into()), "failed to delete todo");
    assert_eq!(e.kind, ErrorKind::Internal);
    assert_eq!(e.message, "failed to delete todo");
    assert_eq!(e.status_code(), 500);
}

#[test]
fn error_constructors_set_kind_and_status() {
    assert_eq!(AppError::unauthorized("missing session cookie").status_code(), 401);
    assert_eq!(AppError::bad_request("x").kind, ErrorKind::BadRequest);
    assert_eq!(AppError::not_found("x").kind, ErrorKind::NotFound);
    assert_eq!(AppError::internal("failed to create todo").message, "failed to create todo");
}

#[test]
fn bodies_convert_field_by_field() {
    let c: CreateTodo = CreateTodoRequest { title: "t".into() }.into();
    assert_eq!(c.title, "t");
    let u: UpdateTodo = UpdateTodoRequest { title: None, done: Some(false) }.into();
    assert_eq!(u.done, Some(false));
    assert!(u.title.is_none());
    let r: TodoResponse = todo().into();
    assert_eq!(r.id, 7);
    assert_eq!(r.title, "buy milk");
    assert!(!r.done);
    assert_eq!(r.created_at, 1_700_000_000_000_000);
}
