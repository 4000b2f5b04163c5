use crate::domain::repository::table::{
    deleted, is_insertion, is_table, listing, lookup, updated,
};
use crate::presentation::error::PresentationalError;
use crate::presentation::rest::object::{
    CreateTodoPayload, CreateTodoResponse, DeleteTodoPayload, DeleteTodoResponse, Todo,
    TodoResponse, TodosResponse, UpdateTodoPayload, UpdateTodoResponse,
};
use crate::use_case::dto::todo::{CreateTodoDto, TodoDto};
use crate::use_case::error::UseCaseError;
use crate::use_case::traits::todo::TodoUseCase;
use vstd::prelude::*;
use vstd::std_specs::convert::FromSpec;

verus! {

/// The three statuses that the REST interface answers with.
#[derive(Debug, Clone, Copy, PartialEq, Eq, Structural)]
pub enum StatusCode {
    /// 200
    Success,
    /// 404
    NotFound,
    /// 500
    InternalServerError,
}

impl StatusCode {
    /// The number of the status.
    pub open spec fn code(self) -> u16 {
        match self {
            StatusCode::Success => 200,
            StatusCode::NotFound => 404,
            StatusCode::InternalServerError => 500,
        }
    }

    /// The number of the status: 200, 404 or 500.
    pub fn as_u16(self) -> (code: u16)
        ensures
            code == self.code(),
    {
        match self {
            StatusCode::Success => 200,
            StatusCode::NotFound => 404,
            StatusCode::InternalServerError => 500,
        }
    }

    /// The status that goes with a failed read: 404 for `NotFound`, 500 for
    /// every other error.
    pub open spec fn of_error(error: UseCaseError) -> StatusCode {
        if error is NotFound {
            StatusCode::NotFound
        } else {
            StatusCode::InternalServerError
        }
    }
}

/// The answer to `GET /todos` for what the use case returned: 200 with the
/// todos, in the same order; 404 with the `NotFound` marker for a
/// `NotFound` error; 500 with the generic marker for any other error.
pub fn todos_response(result: Result<Vec<TodoDto>, UseCaseError>) -> (response: (
    StatusCode,
    TodosResponse,
))
    ensures
        match result {
            Ok(todos) => {
                &&& response.0 == StatusCode::Success
                &&& response.1.error is None
                &&& response.1.todos matches Some(shown)
                &&& shown@ == todos@.map_values(|todo: TodoDto| Todo::from_spec(todo))
            },
            Err(error) => {
                &&& response.0 == StatusCode::of_error(error)
                &&& response.1 == TodosResponse {
                    todos: None,
                    error: Some(PresentationalError::from_spec(error)),
                }
            },
        },
{
    match result {
        Ok(todos) => {
            let mut shown: Vec<Todo> = Vec::new();
            let mut i: usize = 0;
            while i < todos.len()
                invariant
                    i <= todos.len(),
                    shown.len() == i,
                    forall|k: int| 0 <= k < i ==> shown[k] == Todo::from_spec(todos[k]),
                decreases todos.len() - i,
            {
                shown.push(Todo::from(todos[i].clone()));
                i = i + 1;
            }
            assert(shown@ =~= todos@.map_values(|todo: TodoDto| Todo::from_spec(todo)));
            (StatusCode::Success, TodosResponse { todos: Some(shown), error: None })
        },
        Err(error) => match error {
            UseCaseError::NotFound { entity_type: _, entity_id: _ } => (
                StatusCode::NotFound,
                TodosResponse { todos: None, error: Some(PresentationalError::NotFound) },
            ),
            _ => (
                StatusCode::InternalServerError,
                TodosResponse { todos: None, error: Some(PresentationalError::InternalServerError) },
            ),
        },
    }
}

/// `GET /todos`: every todo, in ascending order of id. An empty table is
/// answered with 200 and an empty list.
pub fn get_todos<TU: TodoUseCase>(tu: &TU) -> (response: (StatusCode, TodosResponse))
    ensures
        is_table(tu.rows()),
        match response.0 {
            StatusCode::Success => {
                &&& response.1.error is None
                &&& response.1.todos.deep_view() == Some(listing(tu.rows()))
            },
            StatusCode::NotFound => response.1 == TodosResponse {
                todos: None,
                error: Some(PresentationalError::NotFound),
            },
            StatusCode::InternalServerError => response.1 == TodosResponse {
                todos: None,
                error: Some(PresentationalError::InternalServerError),
            },
        },
{
    let todos = tu.find_all();
    let ghost found = todos;
    let response = todos_response(todos);
    let ghost answer = response.1.todos;
    proof {
        if let (Ok(dtos), Some(shown)) = (found, answer) {
            assert(shown.deep_view() =~= dtos.deep_view());
        }
    }
    response
}

/// The answer to `GET /todos/:id` for what the use case returned: 200 with
/// the todo; 404 with the `NotFound` marker where there is none, or for a
/// `NotFound` error; 500 with the generic marker for any other error.
pub fn todo_response(result: Result<Option<TodoDto>, UseCaseError>) -> (response: (
    StatusCode,
    TodoResponse,
))
    ensures
        response == match result {
            Ok(Some(todo)) => (
                StatusCode::Success,
                TodoResponse { todo: Some(Todo::from_spec(todo)), error: None },
            ),
            Ok(None) => (
                StatusCode::NotFound,
                TodoResponse { todo: None, error: Some(PresentationalError::NotFound) },
            ),
            Err(error) => (
                StatusCode::of_error(error),
                TodoResponse { todo: None, error: Some(PresentationalError::from_spec(error)) },
            ),
        },
{
    match result {
        Ok(Some(todo)) => (
            StatusCode::Success,
            TodoResponse { todo: Some(Todo::from(todo)), error: None },
        ),
        Ok(None) => (
            StatusCode::NotFound,
            TodoResponse { todo: None, error: Some(PresentationalError::NotFound) },
        ),
        Err(error) => match error {
            UseCaseError::NotFound { entity_type: _, entity_id: _ } => (
                StatusCode::NotFound,
                TodoResponse { todo: None, error: Some(PresentationalError::NotFound) },
            ),
            _ => (
                StatusCode::InternalServerError,
                TodoResponse { todo: None, error: Some(PresentationalError::InternalServerError) },
            ),
        },
    }
}

/// `GET /todos/:id`: the todo with this id.
pub fn get_todo<TU: TodoUseCase>(tu: &TU, id: i64) -> (response: (StatusCode, TodoResponse))
    ensures
        is_table(tu.rows()),
        match response.0 {
            StatusCode::Success => {
                &&& response.1.error is None
                &&& response.1.todo is Some
                &&& response.1.todo.deep_view() == lookup(tu.rows(), id)
            },
            StatusCode::NotFound => response.1 == TodoResponse {
                todo: None,
                error: Some(PresentationalError::NotFound),
            },
            StatusCode::InternalServerError => response.1 == TodoResponse {
                todo: None,
                error: Some(PresentationalError::InternalServerError),
            },
        },
{
    let todo = tu.find_by_id(id);
    todo_response(todo)
}

/// The answer to `POST /todos` for what the use case returned: 200 with the
/// todo, or 500 with the generic marker for any error.
pub fn create_todo_response(result: Result<TodoDto, UseCaseError>) -> (response: (
    StatusCode,
    CreateTodoResponse,
))
    ensures
        response == match result {
            Ok(todo) => (
                StatusCode::Success,
                CreateTodoResponse { todo: Some(Todo::from_spec(todo)), error: None },
            ),
            Err(_) => (
                StatusCode::InternalServerError,
                CreateTodoResponse {
                    todo: None,
                    error: Some(PresentationalError::InternalServerError),
                },
            ),
        },
{
    match result {
        Ok(todo) => (
            StatusCode::Success,
            CreateTodoResponse { todo: Some(Todo::from(todo)), error: None },
        ),
        Err(_) => (
            StatusCode::InternalServerError,
            CreateTodoResponse { todo: None, error: Some(PresentationalError::InternalServerError) },
        ),
    }
}

/// `POST /todos`: persists a todo with the title of the payload and answers
/// with it, under the id that the store assigned. Where the answer is 500,
/// nothing was persisted.
pub fn create_todo<TU: TodoUseCase>(tu: &mut TU, payload: CreateTodoPayload) -> (response: (
    StatusCode,
    CreateTodoResponse,
))
    ensures
        is_table(old(tu).rows()),
        is_table(final(tu).rows()),
        response.0 != StatusCode::NotFound,
        response.0 == StatusCode::Success ==> {
            &&& response.1.error is None
            &&& response.1.todo matches Some(todo)
            &&& todo.title == Some(payload.title)
            &&& todo.id == final(tu).rows().last().id
            &&& is_insertion(old(tu).rows(), final(tu).rows(), payload.title@)
        },
        response.0 == StatusCode::InternalServerError ==> {
            &&& response.1 == CreateTodoResponse {
                todo: None,
                error: Some(PresentationalError::InternalServerError),
            }
            &&& final(tu).rows() == old(tu).rows()
        },
{
    let todo = tu.create(CreateTodoDto::from(payload));
    create_todo_response(todo)
}

/// The answer to `PUT /todos` for what the use case returned: 200 with the
/// todo, or 500 with the generic marker for any error.
pub fn update_todo_response(result: Result<TodoDto, UseCaseError>) -> (response: (
    StatusCode,
    UpdateTodoResponse,
))
    ensures
        response == match result {
            Ok(todo) => (
                StatusCode::Success,
                UpdateTodoResponse { todo: Some(Todo::from_spec(todo)), error: None },
            ),
            Err(_) => (
                StatusCode::InternalServerError,
                UpdateTodoResponse {
                    todo: None,
                    error: Some(PresentationalError::InternalServerError),
                },
            ),
        },
{
    match result {
        Ok(todo) => (
            StatusCode::Success,
            UpdateTodoResponse { todo: Some(Todo::from(todo)), error: None },
        ),
        Err(_) => (
            StatusCode::InternalServerError,
            UpdateTodoResponse { todo: None, error: Some(PresentationalError::InternalServerError) },
        ),
    }
}

/// `PUT /todos`: replaces the title of the todo with the id of the payload.
/// An id that no todo has is answered like any other: 200, with the payload
/// handed back and nothing changed. Where the answer is 500, nothing was
/// changed either.
pub fn update_todo<TU: TodoUseCase>(tu: &mut TU, payload: UpdateTodoPayload) -> (response: (
    StatusCode,
    UpdateTodoResponse,
))
    ensures
        is_table(old(tu).rows()),
        is_table(final(tu).rows()),
        response.0 != StatusCode::NotFound,
        response.0 == StatusCode::Success ==> {
            &&& response.1 == UpdateTodoResponse {
                todo: Some(Todo { id: payload.id, title: Some(payload.title) }),
                error: None,
            }
            &&& final(tu).rows() == updated(old(tu).rows(), payload.id, payload.title@)
        },
        response.0 == StatusCode::InternalServerError ==> {
            &&& response.1 == UpdateTodoResponse {
                todo: None,
                error: Some(PresentationalError::InternalServerError),
            }
            &&& final(tu).rows() == old(tu).rows()
        },
{
    let todo = tu.update(TodoDto::from(payload));
    update_todo_response(todo)
}

/// What the search settles of `DELETE /todos`: the todo that is to be
/// removed, or the answer where none is. Nothing found is answered with 404
/// and the `NotFound` marker; a search that failed is answered by its
/// error, 404 for `NotFound` and 500 with the generic marker for any other.
pub fn todo_to_delete(found: Result<Option<TodoDto>, UseCaseError>) -> (settled: Result<
    TodoDto,
    (StatusCode, DeleteTodoResponse),
>)
    ensures
        settled == match found {
            Ok(Some(todo)) => Ok::<TodoDto, (StatusCode, DeleteTodoResponse)>(todo),
            Ok(None) => Err(
                (
                    StatusCode::NotFound,
                    DeleteTodoResponse { todo: None, error: Some(PresentationalError::NotFound) },
                ),
            ),
            Err(error) => Err(
                (
                    StatusCode::of_error(error),
                    DeleteTodoResponse {
                        todo: None,
                        error: Some(PresentationalError::from_spec(error)),
                    },
                ),
            ),
        },
{
    match found {
        Ok(Some(todo)) => Ok(todo),
        Ok(None) => Err(
            (
                StatusCode::NotFound,
                DeleteTodoResponse { todo: None, error: Some(PresentationalError::NotFound) },
            ),
        ),
        Err(error) => match error {
            UseCaseError::NotFound { entity_type: _, entity_id: _ } => Err(
                (
                    StatusCode::NotFound,
                    DeleteTodoResponse { todo: None, error: Some(PresentationalError::NotFound) },
                ),
            ),
            _ => Err(
                (
                    StatusCode::InternalServerError,
                    DeleteTodoResponse {
                        todo: None,
                        error: Some(PresentationalError::InternalServerError),
                    },
                ),
            ),
        },
    }
}

/// The answer to `DELETE /todos` for the todo that was found and what the
/// removal returned: 200 with that todo, or 500 with the generic marker for
/// any error.
pub fn delete_todo_response(todo: TodoDto, result: Result<i64, UseCaseError>) -> (response: (
    StatusCode,
    DeleteTodoResponse,
))
    ensures
        response == match result {
            Ok(_) => (
                StatusCode::Success,
                DeleteTodoResponse { todo: Some(Todo::from_spec(todo)), error: None },
            ),
            Err(_) => (
                StatusCode::InternalServerError,
                DeleteTodoResponse {
                    todo: None,
                    error: Some(PresentationalError::InternalServerError),
                },
            ),
        },
{
    match result {
        Ok(_) => (
            StatusCode::Success,
            DeleteTodoResponse { todo: Some(Todo::from(todo)), error: None },
        ),
        Err(_) => (
            StatusCode::InternalServerError,
            DeleteTodoResponse { todo: None, error: Some(PresentationalError::InternalServerError) },
        ),
    }
}

/// `DELETE /todos`: looks the todo up, then removes it. An id that no todo
/// has is never answered with 200; the removal is asked for only where the
/// todo was found, and nothing is removed where the answer is not 200. The
/// search and the removal are two calls.
pub fn delete_todo<TU: TodoUseCase>(tu: &mut TU, payload: DeleteTodoPayload) -> (response: (
    StatusCode,
    DeleteTodoResponse,
))
    ensures
        is_table(old(tu).rows()),
        is_table(final(tu).rows()),
        lookup(old(tu).rows(), payload.id) is None ==> response.0 != StatusCode::Success,
        match response.0 {
            StatusCode::Success => {
                &&& response.1.error is None
                &&& response.1.todo is Some
                &&& response.1.todo.deep_view() == lookup(old(tu).rows(), payload.id)
                &&& final(tu).rows() == deleted(old(tu).rows(), payload.id)
            },
            StatusCode::NotFound => {
                &&& response.1 == DeleteTodoResponse {
                    todo: None,
                    error: Some(PresentationalError::NotFound),
                }
                &&& final(tu).rows() == old(tu).rows()
            },
            StatusCode::InternalServerError => {
                &&& response.1 == DeleteTodoResponse {
                    todo: None,
                    error: Some(PresentationalError::InternalServerError),
                }
                &&& final(tu).rows() == old(tu).rows()
            },
        },
{
    let todo_id = payload.id;
    let find_todo_result = tu.find_by_id(todo_id);
    match todo_to_delete(find_todo_result) {
        Err(response) => response,
        Ok(todo) => {
            let delete_todo_result = tu.delete(payload.id);
            delete_todo_response(todo, delete_todo_result)
        },
    }
}

} // verus!
