use crate::domain::repository::table::{
    deleted, is_insertion, is_table, lookup, stored_title, updated, Row,
};
use crate::presentation::error::PresentationalError;
use crate::use_case::dto::todo::{CreateTodoDto, TodoDto};
use crate::use_case::error::UseCaseError;
use crate::use_case::traits::todo::TodoUseCase;
use vstd::prelude::*;
use vstd::std_specs::convert::FromSpec;

verus! {

/// The message `Todo`: an id and a title; a todo without a title is sent
/// with the empty string.
#[derive(Debug, PartialEq, Eq)]
pub struct Todo {
    pub id: i64,
    pub title: String,
}

impl View for Todo {
    type V = Row;

    open spec fn view(&self) -> Row {
        Row { id: self.id, title: self.title@ }
    }
}

impl DeepView for Todo {
    type V = Row;

    open spec fn deep_view(&self) -> Row {
        self.view()
    }
}

#[derive(Debug, PartialEq, Eq)]
pub struct GetTodosRequest {}

#[derive(Debug, PartialEq, Eq)]
pub struct GetTodosResponse {
    pub todos: Vec<Todo>,
}

#[derive(Debug, PartialEq, Eq)]
pub struct FindTodoByIdRequest {
    pub id: i64,
}

#[derive(Debug, PartialEq, Eq)]
pub struct FindTodoByIdResponse {
    pub todo: Option<Todo>,
}

#[derive(Debug, PartialEq, Eq)]
pub struct CreateTodoRequest {
    pub title: String,
}

#[derive(Debug, PartialEq, Eq)]
pub struct CreateTodoResponse {
    pub todo: Option<Todo>,
}

#[derive(Debug, PartialEq, Eq)]
pub struct UpdateTodoRequest {
    pub id: i64,
    pub title: String,
}

#[derive(Debug, PartialEq, Eq)]
pub struct UpdateTodoResponse {
    pub todo: Option<Todo>,
}

#[derive(Debug, PartialEq, Eq)]
pub struct DeleteTodoRequest {
    pub id: i64,
}

#[derive(Debug, PartialEq, Eq)]
pub struct DeleteTodoResponse {
    pub todo: Option<Todo>,
}

/// The one status code that the service fails with.
#[derive(Debug, Clone, Copy, PartialEq, Eq, Structural)]
pub enum Code {
    /// 13
    Internal,
}

impl Code {
    /// The number of the code.
    pub open spec fn number(self) -> i32 {
        13
    }

    /// The number of the code: 13.
    pub fn as_i32(self) -> (number: i32)
        ensures
            number == self.number(),
    {
        13
    }
}

/// The status of a call that failed.
#[derive(Debug, PartialEq, Eq)]
pub struct Status {
    pub code: Code,
    pub message: String,
}

impl Status {
    /// Whether the status has the code `Internal` and the text of `error`.
    pub open spec fn tells(self, error: PresentationalError) -> bool {
        self.code == Code::Internal && self.message@ == error.text()
    }

    /// The status with the code `Internal` and the text of `error`.
    pub fn internal(error: PresentationalError) -> (status: Self)
        ensures
            status.tells(error),
    {
        Status { code: Code::Internal, message: error.to_string() }
    }
}

/// A todo as a message.
pub fn message(todo: TodoDto) -> (sent: Todo)
    ensures
        sent@ == (Row { id: todo.id, title: stored_title(todo@.title) }),
{
    let title = match todo.title {
        Some(title) => title,
        None => String::new(),
    };
    Todo { id: todo.id, title }
}

/// The reply to `GetTodos` for what the use case returned: every todo as a
/// message, in the same order, or `Internal` with "Internal Server Error"
/// for any error.
pub fn get_todos_reply(result: Result<Vec<TodoDto>, UseCaseError>) -> (reply: Result<
    GetTodosResponse,
    Status,
>)
    ensures
        match result {
            Ok(todos) => reply matches Ok(response) && response.todos.deep_view()
                == todos.deep_view().map_values(
                |todo: crate::domain::entity::todo::TodoView|
                    Row { id: todo.id, title: stored_title(todo.title) },
            ),
            Err(_) => reply matches Err(status) && status.tells(
                PresentationalError::InternalServerError,
            ),
        },
{
    match result {
        Ok(todos) => {
            let mut sent: Vec<Todo> = Vec::new();
            let mut i: usize = 0;
            while i < todos.len()
                invariant
                    i <= todos.len(),
                    sent.len() == i,
                    forall|k: int|
                        0 <= k < i ==> (#[trigger] sent[k])@ == (Row {
                            id: todos[k].id,
                            title: stored_title(todos[k]@.title),
                        }),
                decreases todos.len() - i,
            {
                sent.push(message(todos[i].clone()));
                i = i + 1;
            }
            assert(sent.deep_view() =~= todos.deep_view().map_values(
                |todo: crate::domain::entity::todo::TodoView|
                    Row { id: todo.id, title: stored_title(todo.title) },
            ));
            Ok(GetTodosResponse { todos: sent })
        },
        Err(_) => Err(Status::internal(PresentationalError::InternalServerError)),
    }
}

/// The reply to `FindTodoById` for what the use case returned: the todo as
/// a message, no message where there is none, or `Internal` with "Internal
/// Server Error" for any error.
pub fn find_todo_by_id_reply(result: Result<Option<TodoDto>, UseCaseError>) -> (reply: Result<
    FindTodoByIdResponse,
    Status,
>)
    ensures
        match result {
            Ok(Some(todo)) => reply matches Ok(response) && response.todo matches Some(sent)
                && sent@ == (Row { id: todo.id, title: stored_title(todo@.title) }),
            Ok(None) => reply == Ok::<FindTodoByIdResponse, Status>(
                FindTodoByIdResponse { todo: None },
            ),
            Err(_) => reply matches Err(status) && status.tells(
                PresentationalError::InternalServerError,
            ),
        },
{
    match result {
        Ok(Some(todo)) => Ok(FindTodoByIdResponse { todo: Some(message(todo)) }),
        Ok(None) => Ok(FindTodoByIdResponse { todo: None }),
        Err(_) => Err(Status::internal(PresentationalError::InternalServerError)),
    }
}

/// The reply to `CreateTodo` for what the use case returned: the todo as a
/// message, or `Internal` with "Internal Server Error" for any error.
pub fn create_todo_reply(result: Result<TodoDto, UseCaseError>) -> (reply: Result<
    CreateTodoResponse,
    Status,
>)
    ensures
        match result {
            Ok(todo) => reply matches Ok(response) && response.todo matches Some(sent) && sent@
                == (Row { id: todo.id, title: stored_title(todo@.title) }),
            Err(_) => reply matches Err(status) && status.tells(
                PresentationalError::InternalServerError,
            ),
        },
{
    match result {
        Ok(todo) => Ok(CreateTodoResponse { todo: Some(message(todo)) }),
        Err(_) => Err(Status::internal(PresentationalError::InternalServerError)),
    }
}

/// The reply to `UpdateTodo` for what the use case returned: the todo as a
/// message, or `Internal` with "Internal Server Error" for any error.
pub fn update_todo_reply(result: Result<TodoDto, UseCaseError>) -> (reply: Result<
    UpdateTodoResponse,
    Status,
>)
    ensures
        match result {
            Ok(todo) => reply matches Ok(response) && response.todo matches Some(sent) && sent@
                == (Row { id: todo.id, title: stored_title(todo@.title) }),
            Err(_) => reply matches Err(status) && status.tells(
                PresentationalError::InternalServerError,
            ),
        },
{
    match result {
        Ok(todo) => Ok(UpdateTodoResponse { todo: Some(message(todo)) }),
        Err(_) => Err(Status::internal(PresentationalError::InternalServerError)),
    }
}

/// What the search settles of `DeleteTodo`: the todo that is to be
/// removed, or the status where none is. Nothing found is answered with
/// "Not Found"; a search that failed is answered by its error, "Not Found"
/// for `NotFound` and "Internal Server Error" for any other.
pub fn todo_to_delete(found: Result<Option<TodoDto>, UseCaseError>) -> (settled: Result<
    TodoDto,
    Status,
>)
    ensures
        match found {
            Ok(Some(todo)) => settled == Ok::<TodoDto, Status>(todo),
            Ok(None) => settled matches Err(status) && status.tells(PresentationalError::NotFound),
            Err(error) => settled matches Err(status) && status.tells(
                PresentationalError::from_spec(error),
            ),
        },
{
    match found {
        Ok(Some(todo)) => Ok(todo),
        Ok(None) => Err(Status::internal(PresentationalError::NotFound)),
        Err(error) => Err(Status::internal(PresentationalError::from(error))),
    }
}

/// The reply to `DeleteTodo` for the todo that was found and what the
/// removal returned: that todo as a message, or `Internal` with "Internal
/// Server Error" for any error.
pub fn delete_todo_reply(todo: TodoDto, result: Result<i64, UseCaseError>) -> (reply: Result<
    DeleteTodoResponse,
    Status,
>)
    ensures
        match result {
            Ok(_) => reply matches Ok(response) && response.todo matches Some(sent) && sent@ == (
                Row { id: todo.id, title: stored_title(todo@.title) }),
            Err(_) => reply matches Err(status) && status.tells(
                PresentationalError::InternalServerError,
            ),
        },
{
    match result {
        Ok(_) => Ok(DeleteTodoResponse { todo: Some(message(todo)) }),
        Err(_) => Err(Status::internal(PresentationalError::InternalServerError)),
    }
}

/// The service `TodoService` over the use cases.
pub struct TodoServiceImpl<TU: TodoUseCase> {
    pub tu: TU,
}

impl<TU: TodoUseCase> TodoServiceImpl<TU> {
    /// `GetTodos`: every row as a message, in ascending order of id.
    pub fn get_todos(&self, _request: GetTodosRequest) -> (reply: Result<GetTodosResponse, Status>)
        ensures
            is_table(self.tu.rows()),
            match reply {
                Ok(response) => response.todos.deep_view() == self.tu.rows(),
                Err(status) => status.tells(PresentationalError::InternalServerError),
            },
    {
        let todos = self.tu.find_all();
        let reply = get_todos_reply(todos);
        let ghost answered = reply;
        proof {
            if let Ok(response) = answered {
                assert(response.todos.deep_view() =~= self.tu.rows());
            }
        }
        reply
    }

    /// `FindTodoById`: the row with the id of the request as a message, or
    /// no message where there is none.
    pub fn find_todo_by_id(&self, request: FindTodoByIdRequest) -> (reply: Result<
        FindTodoByIdResponse,
        Status,
    >)
        ensures
            is_table(self.tu.rows()),
            match reply {
                Ok(response) => match response.todo {
                    Some(sent) => lookup(self.tu.rows(), request.id) == Some(sent@.todo()),
                    None => lookup(self.tu.rows(), request.id) is None,
                },
                Err(status) => status.tells(PresentationalError::InternalServerError),
            },
    {
        let target_id = request.id;
        let todo = self.tu.find_by_id(target_id);
        find_todo_by_id_reply(todo)
    }

    /// `CreateTodo`: persists a todo with the title of the request and
    /// replies with it, under the id that the store assigned.
    pub fn create_todo(&mut self, request: CreateTodoRequest) -> (reply: Result<
        CreateTodoResponse,
        Status,
    >)
        ensures
            is_table(old(self).tu.rows()),
            is_table(final(self).tu.rows()),
            match reply {
                Ok(response) => {
                    &&& response.todo matches Some(sent)
                    &&& sent.title@ == request.title@
                    &&& sent.id == final(self).tu.rows().last().id
                    &&& is_insertion(old(self).tu.rows(), final(self).tu.rows(), request.title@)
                },
                Err(status) => {
                    &&& status.tells(PresentationalError::InternalServerError)
                    &&& final(self).tu.rows() == old(self).tu.rows()
                },
            },
    {
        let title = request.title;
        let todo = self.tu.create(CreateTodoDto { title });
        create_todo_reply(todo)
    }

    /// `UpdateTodo`: replaces the title of the todo with the id of the
    /// request.
    pub fn update_todo(&mut self, request: UpdateTodoRequest) -> (reply: Result<
        UpdateTodoResponse,
        Status,
    >)
        ensures
            is_table(old(self).tu.rows()),
            is_table(final(self).tu.rows()),
            match reply {
                Ok(response) => {
                    &&& response.todo matches Some(sent)
                    &&& sent@ == (Row { id: request.id, title: request.title@ })
                    &&& final(self).tu.rows() == updated(
                        old(self).tu.rows(),
                        request.id,
                        request.title@,
                    )
                },
                Err(status) => {
                    &&& status.tells(PresentationalError::InternalServerError)
                    &&& final(self).tu.rows() == old(self).tu.rows()
                },
            },
    {
        let id = request.id;
        let title = request.title;
        let todo = self.tu.update(TodoDto { id, title: Some(title) });
        update_todo_reply(todo)
    }

    /// `DeleteTodo`: looks the todo up, then removes it. An id that no todo
    /// has is never answered with a todo; the removal is asked for only
    /// where the todo was found, and nothing is removed where the call
    /// fails.
    pub fn delete_todo(&mut self, request: DeleteTodoRequest) -> (reply: Result<
        DeleteTodoResponse,
        Status,
    >)
        ensures
            is_table(old(self).tu.rows()),
            is_table(final(self).tu.rows()),
            lookup(old(self).tu.rows(), request.id) is None ==> reply is Err,
            match reply {
                Ok(response) => {
                    &&& response.todo matches Some(sent)
                    &&& lookup(old(self).tu.rows(), request.id) == Some(sent@.todo())
                    &&& final(self).tu.rows() == deleted(old(self).tu.rows(), request.id)
                },
                Err(status) => {
                    &&& final(self).tu.rows() == old(self).tu.rows()
                    &&& {
                        ||| status.tells(PresentationalError::NotFound)
                        ||| status.tells(PresentationalError::InternalServerError)
                    }
                },
            },
    {
        let id = request.id;
        let find_todo_result = self.tu.find_by_id(id);
        match todo_to_delete(find_todo_result) {
            Err(status) => Err(status),
            Ok(todo) => {
                let todo_id = self.tu.delete(id);
                delete_todo_reply(todo, todo_id)
            },
        }
    }
}

} // verus!
