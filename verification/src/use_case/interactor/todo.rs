use crate::domain::entity::todo::Todo;
use crate::domain::error::DomainError;
use crate::domain::repository::table::Row;
use crate::domain::repository::todo_repository::TodoRepository;
use crate::use_case::dto::todo::{CreateTodoDto, TodoDto};
use crate::use_case::error::UseCaseError;
use crate::use_case::traits::todo::{MutationUseCase, QueryUseCase, TodoUseCase};
use vstd::prelude::*;
use vstd::std_specs::convert::FromSpec;

verus! {

/// What `create` answers once the repository has answered: the todo as a
/// transfer object, under the id that the repository assigned, or the
/// repository's error, mapped.
pub fn created(todo: Todo, result: Result<i64, DomainError>) -> (answer: Result<
    TodoDto,
    UseCaseError,
>)
    ensures
        answer == match result {
            Ok(id) => Ok::<TodoDto, UseCaseError>(TodoDto { id, title: todo.title }),
            Err(error) => Err(UseCaseError::from_spec(error)),
        },
{
    match result {
        Ok(id) => Ok(TodoDto::from(Todo { id, title: todo.title })),
        Err(error) => Err(UseCaseError::from(error)),
    }
}

/// What `update` answers once the repository has answered: the todo as a
/// transfer object, or the repository's error, mapped.
pub fn persisted(todo: Todo, result: Result<(), DomainError>) -> (answer: Result<
    TodoDto,
    UseCaseError,
>)
    ensures
        answer == match result {
            Ok(_) => Ok::<TodoDto, UseCaseError>(TodoDto::from_spec(todo)),
            Err(error) => Err(UseCaseError::from_spec(error)),
        },
{
    match result {
        Ok(_) => Ok(TodoDto::from(todo)),
        Err(error) => Err(UseCaseError::from(error)),
    }
}

/// What `delete` answers once the repository has answered: the id it was
/// asked to remove, or the repository's error, mapped.
pub fn removed(todo_id: i64, result: Result<(), DomainError>) -> (answer: Result<i64, UseCaseError>)
    ensures
        answer == match result {
            Ok(_) => Ok::<i64, UseCaseError>(todo_id),
            Err(error) => Err(UseCaseError::from_spec(error)),
        },
{
    match result {
        Ok(_) => Ok(todo_id),
        Err(error) => Err(UseCaseError::from(error)),
    }
}

/// What `find_all` answers once the repository has answered: each todo as
/// a transfer object, in the same order, or the repository's error, mapped.
pub fn listed(result: Result<Vec<Todo>, DomainError>) -> (answer: Result<
    Vec<TodoDto>,
    UseCaseError,
>)
    ensures
        match result {
            Ok(todos) => answer matches Ok(dtos) && dtos@ == todos@.map_values(
                |todo: Todo| TodoDto::from_spec(todo),
            ),
            Err(error) => answer == Err::<Vec<TodoDto>, UseCaseError>(
                UseCaseError::from_spec(error),
            ),
        },
{
    match result {
        Ok(todos) => {
            let mut dtos: Vec<TodoDto> = Vec::new();
            let mut i: usize = 0;
            while i < todos.len()
                invariant
                    i <= todos.len(),
                    dtos.len() == i,
                    forall|k: int| 0 <= k < i ==> dtos[k] == TodoDto::from_spec(todos[k]),
                decreases todos.len() - i,
            {
                dtos.push(TodoDto::from(todos[i].clone()));
                i = i + 1;
            }
            assert(dtos@ =~= todos@.map_values(|todo: Todo| TodoDto::from_spec(todo)));
            Ok(dtos)
        },
        Err(error) => Err(UseCaseError::from(error)),
    }
}

/// What `find_by_id` answers once the repository has answered: the todo as
/// a transfer object, `None` for `None`, or the repository's error, mapped.
pub fn looked_up(result: Result<Option<Todo>, DomainError>) -> (answer: Result<
    Option<TodoDto>,
    UseCaseError,
>)
    ensures
        answer == match result {
            Ok(Some(todo)) => Ok::<Option<TodoDto>, UseCaseError>(Some(TodoDto::from_spec(todo))),
            Ok(None) => Ok(None),
            Err(error) => Err(UseCaseError::from_spec(error)),
        },
{
    match result {
        Ok(todo) => match todo {
            Some(todo) => Ok(Some(TodoDto::from(todo))),
            None => Ok(None),
        },
        Err(error) => Err(UseCaseError::from(error)),
    }
}

/// The mutating use cases over one repository.
pub struct MutationInteractor<TR> {
    todo_repository: TR,
}

impl<TR> MutationInteractor<TR> {
    /// The repository that the interactor works on.
    pub closed spec fn repository(&self) -> TR {
        self.todo_repository
    }

    pub fn new(todo_repository: TR) -> (interactor: Self)
        ensures
            interactor.repository() == todo_repository,
    {
        Self { todo_repository }
    }

    /// Hands the repository back.
    pub fn into_repository(self) -> (todo_repository: TR)
        ensures
            todo_repository == self.repository(),
    {
        self.todo_repository
    }
}

impl<TR: TodoRepository> MutationUseCase for MutationInteractor<TR> {
    open spec fn rows(&self) -> Seq<Row> {
        self.repository().rows()
    }

    fn create(&mut self, todo_data: CreateTodoDto) -> (result: Result<TodoDto, UseCaseError>) {
        let todo = match Todo::try_from(todo_data) {
            Ok(todo) => todo,
            Err(error) => {
                return Err(error);
            },
        };
        let result = self.todo_repository.create(&todo);
        created(todo, result)
    }

    fn update(&mut self, todo_data: TodoDto) -> (result: Result<TodoDto, UseCaseError>) {
        let todo = match Todo::try_from(todo_data) {
            Ok(todo) => todo,
            Err(error) => {
                return Err(error);
            },
        };
        let result = self.todo_repository.update(&todo);
        persisted(todo, result)
    }

    fn delete(&mut self, todo_id: i64) -> (result: Result<i64, UseCaseError>) {
        let result = self.todo_repository.delete(todo_id);
        removed(todo_id, result)
    }
}

/// The reading use cases over one repository.
#[derive(Debug)]
pub struct QueryInteractor<TR> {
    todo_repository: TR,
}

impl<TR: Clone> Clone for QueryInteractor<TR> {
    /// An interactor over a copy of the repository.
    fn clone(&self) -> (copy: Self)
        ensures
            cloned(self.repository(), copy.repository()),
    {
        Self { todo_repository: self.todo_repository.clone() }
    }
}

impl<TR> QueryInteractor<TR> {
    /// The repository that the interactor works on.
    pub closed spec fn repository(&self) -> TR {
        self.todo_repository
    }

    pub fn new(todo_repository: TR) -> (interactor: Self)
        ensures
            interactor.repository() == todo_repository,
    {
        Self { todo_repository }
    }

    /// Hands the repository back.
    pub fn into_repository(self) -> (todo_repository: TR)
        ensures
            todo_repository == self.repository(),
    {
        self.todo_repository
    }
}

impl<TR: TodoRepository> QueryUseCase for QueryInteractor<TR> {
    open spec fn rows(&self) -> Seq<Row> {
        self.repository().rows()
    }

    fn find_all(&self) -> (result: Result<Vec<TodoDto>, UseCaseError>) {
        let result = self.todo_repository.find_all();
        let ghost found = result;
        let answer = listed(result);
        let ghost mapped = answer;
        proof {
            if let (Ok(todos), Ok(dtos)) = (found, mapped) {
                lemma_same_views(todos, dtos);
            }
        }
        answer
    }

    fn find_by_id(&self, todo_id: i64) -> (result: Result<Option<TodoDto>, UseCaseError>) {
        let result = self.todo_repository.find_by_id(todo_id);
        looked_up(result)
    }
}

/// All five use cases over one repository.
#[derive(Debug)]
pub struct TodoInteractor<TR> {
    todo_repository: TR,
}

impl<TR: Clone> Clone for TodoInteractor<TR> {
    /// An interactor over a copy of the repository.
    fn clone(&self) -> (copy: Self)
        ensures
            cloned(self.repository(), copy.repository()),
    {
        Self { todo_repository: self.todo_repository.clone() }
    }
}

impl<TR> TodoInteractor<TR> {
    /// The repository that the interactor works on.
    pub closed spec fn repository(&self) -> TR {
        self.todo_repository
    }

    pub fn new(todo_repository: TR) -> (interactor: Self)
        ensures
            interactor.repository() == todo_repository,
    {
        Self { todo_repository }
    }

    /// Hands the repository back.
    pub fn into_repository(self) -> (todo_repository: TR)
        ensures
            todo_repository == self.repository(),
    {
        self.todo_repository
    }
}

impl<TR: TodoRepository> TodoUseCase for TodoInteractor<TR> {
    open spec fn rows(&self) -> Seq<Row> {
        self.repository().rows()
    }

    fn create(&mut self, todo_data: CreateTodoDto) -> (result: Result<TodoDto, UseCaseError>) {
        let todo = match Todo::try_from(todo_data) {
            Ok(todo) => todo,
            Err(error) => {
                return Err(error);
            },
        };
        let result = self.todo_repository.create(&todo);
        created(todo, result)
    }

    fn update(&mut self, todo_data: TodoDto) -> (result: Result<TodoDto, UseCaseError>) {
        let todo = match Todo::try_from(todo_data) {
            Ok(todo) => todo,
            Err(error) => {
                return Err(error);
            },
        };
        let result = self.todo_repository.update(&todo);
        persisted(todo, result)
    }

    fn delete(&mut self, todo_id: i64) -> (result: Result<i64, UseCaseError>) {
        let result = self.todo_repository.delete(todo_id);
        removed(todo_id, result)
    }

    fn find_all(&self) -> (result: Result<Vec<TodoDto>, UseCaseError>) {
        let result = self.todo_repository.find_all();
        let ghost found = result;
        let answer = listed(result);
        let ghost mapped = answer;
        proof {
            if let (Ok(todos), Ok(dtos)) = (found, mapped) {
                lemma_same_views(todos, dtos);
            }
        }
        answer
    }

    fn find_by_id(&self, todo_id: i64) -> (result: Result<Option<TodoDto>, UseCaseError>) {
        let result = self.todo_repository.find_by_id(todo_id);
        looked_up(result)
    }
}

/// Mapping todos to transfer objects keeps what each is as plain data.
proof fn lemma_same_views(todos: Vec<Todo>, dtos: Vec<TodoDto>)
    requires
        dtos@ == todos@.map_values(|todo: Todo| TodoDto::from_spec(todo)),
    ensures
        dtos.deep_view() == todos.deep_view(),
{
    assert(dtos.deep_view() =~= todos.deep_view());
}

} // verus!
