use crate::domain::entity::todo::{Todo, TodoView};
use crate::use_case::error::UseCaseError;
use vstd::prelude::*;
use vstd::std_specs::convert::{FromSpecImpl, TryFromSpecImpl};

verus! {

/// A todo as the use cases hand it to the presentation layer.
#[derive(Debug, PartialEq, Eq)]
pub struct TodoDto {
    pub id: i64,
    pub title: Option<String>,
}

/// What is needed to create a todo.
#[derive(Debug, PartialEq, Eq)]
pub struct CreateTodoDto {
    pub title: String,
}

impl View for TodoDto {
    type V = TodoView;

    open spec fn view(&self) -> TodoView {
        TodoView { id: self.id, title: self.title.deep_view() }
    }
}

impl DeepView for TodoDto {
    type V = TodoView;

    open spec fn deep_view(&self) -> TodoView {
        self.view()
    }
}

impl Clone for TodoDto {
    fn clone(&self) -> (copy: Self)
        ensures
            copy == *self,
    {
        TodoDto { id: self.id, title: self.title.clone() }
    }
}

impl Clone for CreateTodoDto {
    fn clone(&self) -> (copy: Self)
        ensures
            copy == *self,
    {
        CreateTodoDto { title: self.title.clone() }
    }
}

impl From<Todo> for TodoDto {
    fn from(todo: Todo) -> (dto: Self) {
        TodoDto { id: todo.id, title: todo.title }
    }
}

impl FromSpecImpl<Todo> for TodoDto {
    open spec fn obeys_from_spec() -> bool {
        true
    }

    open spec fn from_spec(todo: Todo) -> Self {
        TodoDto { id: todo.id, title: todo.title }
    }
}

impl TryFrom<CreateTodoDto> for Todo {
    type Error = UseCaseError;

    /// A todo that is not yet persisted: id 0 and the given title. No title
    /// is refused.
    fn try_from(todo_data: CreateTodoDto) -> (todo: Result<Self, Self::Error>) {
        Ok(Todo { id: 0, title: Some(todo_data.title) })
    }
}

impl TryFromSpecImpl<CreateTodoDto> for Todo {
    open spec fn obeys_try_from_spec() -> bool {
        true
    }

    open spec fn try_from_spec(todo_data: CreateTodoDto) -> Result<Self, Self::Error> {
        Ok(Todo { id: 0, title: Some(todo_data.title) })
    }
}

impl TryFrom<TodoDto> for Todo {
    type Error = UseCaseError;

    /// The todo with the id and the title of the transfer object. None is
    /// refused.
    fn try_from(todo_data: TodoDto) -> (todo: Result<Self, Self::Error>) {
        Ok(Todo { id: todo_data.id, title: todo_data.title })
    }
}

impl TryFromSpecImpl<TodoDto> for Todo {
    open spec fn obeys_try_from_spec() -> bool {
        true
    }

    open spec fn try_from_spec(todo_data: TodoDto) -> Result<Self, Self::Error> {
        Ok(Todo { id: todo_data.id, title: todo_data.title })
    }
}

} // verus!
