use crate::domain::entity::todo::TodoView;
use crate::presentation::error::PresentationalError;
use crate::use_case::dto::todo::{CreateTodoDto, TodoDto};
use vstd::prelude::*;
use vstd::std_specs::convert::FromSpecImpl;

verus! {

/// A todo as the REST interface shows it.
#[derive(Debug, PartialEq, Eq)]
pub struct Todo {
    pub id: i64,
    pub title: Option<String>,
}

impl View for Todo {
    type V = TodoView;

    open spec fn view(&self) -> TodoView {
        TodoView { id: self.id, title: self.title.deep_view() }
    }
}

impl DeepView for Todo {
    type V = TodoView;

    open spec fn deep_view(&self) -> TodoView {
        self.view()
    }
}

impl Clone for Todo {
    fn clone(&self) -> (copy: Self)
        ensures
            copy == *self,
    {
        Todo { id: self.id, title: self.title.clone() }
    }
}

impl From<TodoDto> for Todo {
    fn from(todo_dto: TodoDto) -> (todo: Self) {
        Todo { id: todo_dto.id, title: todo_dto.title }
    }
}

impl FromSpecImpl<TodoDto> for Todo {
    open spec fn obeys_from_spec() -> bool {
        true
    }

    open spec fn from_spec(todo_dto: TodoDto) -> Self {
        Todo { id: todo_dto.id, title: todo_dto.title }
    }
}

/// The answer to `GET /todos`.
#[derive(Debug, PartialEq, Eq)]
pub struct TodosResponse {
    pub todos: Option<Vec<Todo>>,
    pub error: Option<PresentationalError>,
}

/// The answer to `GET /todos/:id`.
#[derive(Debug, PartialEq, Eq)]
pub struct TodoResponse {
    pub todo: Option<Todo>,
    pub error: Option<PresentationalError>,
}

/// The body of `POST /todos`.
#[derive(Debug, PartialEq, Eq)]
pub struct CreateTodoPayload {
    pub title: String,
}

impl From<CreateTodoPayload> for CreateTodoDto {
    fn from(create_todo_payload: CreateTodoPayload) -> (dto: Self) {
        CreateTodoDto { title: create_todo_payload.title }
    }
}

impl FromSpecImpl<CreateTodoPayload> for CreateTodoDto {
    open spec fn obeys_from_spec() -> bool {
        true
    }

    open spec fn from_spec(create_todo_payload: CreateTodoPayload) -> Self {
        CreateTodoDto { title: create_todo_payload.title }
    }
}

/// The body of `PUT /todos`.
#[derive(Debug, PartialEq, Eq)]
pub struct UpdateTodoPayload {
    pub id: i64,
    pub title: String,
}

impl From<UpdateTodoPayload> for TodoDto {
    fn from(update_todo_payload: UpdateTodoPayload) -> (dto: Self) {
        TodoDto { id: update_todo_payload.id, title: Some(update_todo_payload.title) }
    }
}

impl FromSpecImpl<UpdateTodoPayload> for TodoDto {
    open spec fn obeys_from_spec() -> bool {
        true
    }

    open spec fn from_spec(update_todo_payload: UpdateTodoPayload) -> Self {
        TodoDto { id: update_todo_payload.id, title: Some(update_todo_payload.title) }
    }
}

/// The body of `DELETE /todos`.
#[derive(Debug, Clone, Copy, PartialEq, Eq)]
pub struct DeleteTodoPayload {
    pub id: i64,
}

/// The answer to `POST /todos`.
#[derive(Debug, PartialEq, Eq)]
pub struct CreateTodoResponse {
    pub todo: Option<Todo>,
    pub error: Option<PresentationalError>,
}

/// The answer to `PUT /todos`.
#[derive(Debug, PartialEq, Eq)]
pub struct UpdateTodoResponse {
    pub todo: Option<Todo>,
    pub error: Option<PresentationalError>,
}

/// The answer to `DELETE /todos`.
#[derive(Debug, PartialEq, Eq)]
pub struct DeleteTodoResponse {
    pub todo: Option<Todo>,
    pub error: Option<PresentationalError>,
}

} // verus!
