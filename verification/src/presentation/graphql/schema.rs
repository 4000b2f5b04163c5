use crate::domain::repository::table::{
    deleted, is_insertion, is_table, listing, lookup, updated,
};
use crate::presentation::error::PresentationalError;
use crate::presentation::graphql::object::Todo;
use crate::use_case::dto::todo::{CreateTodoDto, TodoDto};
use crate::use_case::error::UseCaseError;
use crate::use_case::traits::todo::{MutationUseCase, QueryUseCase};
use vstd::prelude::*;
use vstd::std_specs::convert::FromSpec;

verus! {

/// What a resolver that yields one todo answers for what the use case
/// returned: the todo as a GraphQL object, or the error as the client is to
/// see it.
pub fn shown_todo(result: Result<TodoDto, UseCaseError>) -> (answer: Result<
    Todo,
    PresentationalError,
>)
    ensures
        match result {
            Ok(todo) => answer matches Ok(shown) && shown@ == todo@,
            Err(error) => answer == Err::<Todo, PresentationalError>(
                PresentationalError::from_spec(error),
            ),
        },
{
    match result {
        Ok(todo) => Ok(Todo::new(todo.id, todo.title)),
        Err(error) => Err(PresentationalError::from(error)),
    }
}

/// What `todo` answers for what the use case returned: the todo as a
/// GraphQL object, `None` for `None`, or the error as the client is to see
/// it.
pub fn shown_optional_todo(result: Result<Option<TodoDto>, UseCaseError>) -> (answer: Result<
    Option<Todo>,
    PresentationalError,
>)
    ensures
        match result {
            Ok(found) => answer matches Ok(shown) && shown.deep_view() == found.deep_view(),
            Err(error) => answer == Err::<Option<Todo>, PresentationalError>(
                PresentationalError::from_spec(error),
            ),
        },
{
    match result {
        Ok(Some(todo)) => Ok(Some(Todo::new(todo.id, todo.title))),
        Ok(None) => Ok(None),
        Err(error) => Err(PresentationalError::from(error)),
    }
}

/// What `todos` answers for what the use case returned: each todo as a
/// GraphQL object, in the same order, or the error as the client is to see
/// it.
pub fn shown_todos(result: Result<Vec<TodoDto>, UseCaseError>) -> (answer: Result<
    Vec<Todo>,
    PresentationalError,
>)
    ensures
        match result {
            Ok(todos) => answer matches Ok(shown) && shown.deep_view() == todos.deep_view(),
            Err(error) => answer == Err::<Vec<Todo>, PresentationalError>(
                PresentationalError::from_spec(error),
            ),
        },
{
    match result {
        Ok(todos) => {
            let mut shown: Vec<Todo> = Vec::new();
            let mut i: usize = 0;
            while i < todos.len()
                invariant
                    i <= todos.len(),
                    shown.len() == i,
                    forall|k: int| 0 <= k < i ==> shown[k]@ == todos[k]@,
                decreases todos.len() - i,
            {
                let todo = todos[i].clone();
                shown.push(Todo::new(todo.id, todo.title));
                i = i + 1;
            }
            assert(shown.deep_view() =~= todos.deep_view());
            Ok(shown)
        },
        Err(error) => Err(PresentationalError::from(error)),
    }
}

/// What `deleteTodo` answers for what the use case returned: the id it was
/// asked to remove, or the error as the client is to see it.
pub fn shown_id(id: i64, result: Result<i64, UseCaseError>) -> (answer: Result<
    i64,
    PresentationalError,
>)
    ensures
        answer == match result {
            Ok(_) => Ok::<i64, PresentationalError>(id),
            Err(error) => Err(PresentationalError::from_spec(error)),
        },
{
    match result {
        Ok(_) => Ok(id),
        Err(error) => Err(PresentationalError::from(error)),
    }
}

/// The query root: `todos` and `todo(id)`.
pub struct Query<QUC> {
    query_use_case: QUC,
}

impl<QUC: QueryUseCase> Query<QUC> {
    /// The use case that the resolvers call.
    pub closed spec fn use_case(&self) -> QUC {
        self.query_use_case
    }

    pub fn new(query_use_case: QUC) -> (query: Self)
        ensures
            query.use_case() == query_use_case,
    {
        Self { query_use_case }
    }

    /// Hands the use case back.
    pub fn into_use_case(self) -> (query_use_case: QUC)
        ensures
            query_use_case == self.use_case(),
    {
        self.query_use_case
    }

    /// `todos`: every todo, in ascending order of id.
    pub fn todos(&self) -> (result: Result<Vec<Todo>, PresentationalError>)
        ensures
            is_table(self.use_case().rows()),
            result matches Ok(todos) ==> todos.deep_view() == listing(self.use_case().rows()),
    {
        let todos = self.query_use_case.find_all();
        shown_todos(todos)
    }

    /// `todo(id)`: the todo with this id, or nothing.
    pub fn todo(&self, id: i64) -> (result: Result<Option<Todo>, PresentationalError>)
        ensures
            is_table(self.use_case().rows()),
            result matches Ok(found) ==> found.deep_view() == lookup(self.use_case().rows(), id),
    {
        let todo = self.query_use_case.find_by_id(id);
        shown_optional_todo(todo)
    }
}

/// The mutation root: `createTodo`, `updateTodo` and `deleteTodo`.
pub struct Mutation<MUC> {
    mutation_use_case: MUC,
}

impl<MUC: MutationUseCase> Mutation<MUC> {
    /// The use case that the resolvers call.
    pub closed spec fn use_case(&self) -> MUC {
        self.mutation_use_case
    }

    pub fn new(mutation_use_case: MUC) -> (mutation: Self)
        ensures
            mutation.use_case() == mutation_use_case,
    {
        Self { mutation_use_case }
    }

    /// Hands the use case back.
    pub fn into_use_case(self) -> (mutation_use_case: MUC)
        ensures
            mutation_use_case == self.use_case(),
    {
        self.mutation_use_case
    }

    /// `createTodo(title)`: persists a todo with this title and answers with
    /// it, under the id that the store assigned.
    pub fn create_todo(&mut self, title: String) -> (result: Result<Todo, PresentationalError>)
        ensures
            is_table(old(self).use_case().rows()),
            is_table(final(self).use_case().rows()),
            result matches Ok(todo) ==> {
                &&& todo@.title == Some(title@)
                &&& todo@.id == final(self).use_case().rows().last().id
                &&& is_insertion(
                    old(self).use_case().rows(),
                    final(self).use_case().rows(),
                    title@,
                )
            },
            result is Err ==> final(self).use_case().rows() == old(self).use_case().rows(),
    {
        let todo = self.mutation_use_case.create(CreateTodoDto { title });
        shown_todo(todo)
    }

    /// `updateTodo(id, title)`: replaces the title of the todo with this id.
    pub fn update_todo(&mut self, id: i64, title: String) -> (result: Result<
        Todo,
        PresentationalError,
    >)
        ensures
            is_table(old(self).use_case().rows()),
            is_table(final(self).use_case().rows()),
            result matches Ok(todo) ==> {
                &&& todo@.id == id
                &&& todo@.title == Some(title@)
                &&& final(self).use_case().rows() == updated(
                    old(self).use_case().rows(),
                    id,
                    title@,
                )
            },
            result is Err ==> final(self).use_case().rows() == old(self).use_case().rows(),
    {
        let todo = self.mutation_use_case.update(TodoDto { id, title: Some(title) });
        shown_todo(todo)
    }

    /// `deleteTodo(id)`: removes the todo with this id and answers with the
    /// id, whether or not such a todo existed.
    pub fn delete_todo(&mut self, id: i64) -> (result: Result<i64, PresentationalError>)
        ensures
            is_table(old(self).use_case().rows()),
            is_table(final(self).use_case().rows()),
            result matches Ok(removed) ==> {
                &&& removed == id
                &&& final(self).use_case().rows() == deleted(old(self).use_case().rows(), id)
            },
            result is Err ==> final(self).use_case().rows() == old(self).use_case().rows(),
    {
        let removed = self.mutation_use_case.delete(id);
        shown_id(id, removed)
    }
}

} // verus!
