use crate::domain::repository::table::{
    deleted, is_insertion, is_table, listing, lookup, stored_title, updated, Row,
};
use crate::use_case::dto::todo::{CreateTodoDto, TodoDto};
use crate::use_case::error::UseCaseError;
use vstd::prelude::*;

verus! {

/// The use cases that change the store.
///
/// `rows()` is the table that the use case works on. Whether a call succeeds
/// is the store's to decide; each contract says what a success means, and a
/// call that fails leaves the table as it was.
pub trait MutationUseCase {
    /// The table as it stands.
    spec fn rows(&self) -> Seq<Row>;

    /// Persists a new todo with this title and hands the todo back, under
    /// the id that the store assigned to it.
    fn create(&mut self, todo_data: CreateTodoDto) -> (result: Result<TodoDto, UseCaseError>)
        ensures
            is_table(old(self).rows()),
            is_table(final(self).rows()),
            result matches Ok(todo) ==> {
                &&& todo.title == Some(todo_data.title)
                &&& todo.id == final(self).rows().last().id
                &&& is_insertion(old(self).rows(), final(self).rows(), todo_data.title@)
            },
            result is Err ==> final(self).rows() == old(self).rows(),
    ;

    /// Replaces the title of the todo with this id and hands the same
    /// object back; a todo that does not exist changes nothing.
    fn update(&mut self, todo_data: TodoDto) -> (result: Result<TodoDto, UseCaseError>)
        ensures
            is_table(old(self).rows()),
            is_table(final(self).rows()),
            result matches Ok(todo) ==> {
                &&& todo == todo_data
                &&& final(self).rows() == updated(
                    old(self).rows(),
                    todo_data.id,
                    stored_title(todo_data@.title),
                )
            },
            result is Err ==> final(self).rows() == old(self).rows(),
    ;

    /// Removes the todo with this id and hands the id back, whether or not
    /// such a todo existed.
    fn delete(&mut self, todo_id: i64) -> (result: Result<i64, UseCaseError>)
        ensures
            is_table(old(self).rows()),
            is_table(final(self).rows()),
            result matches Ok(id) ==> {
                &&& id == todo_id
                &&& final(self).rows() == deleted(old(self).rows(), todo_id)
            },
            result is Err ==> final(self).rows() == old(self).rows(),
    ;
}

/// The use cases that only read.
pub trait QueryUseCase {
    /// The table as it stands.
    spec fn rows(&self) -> Seq<Row>;

    /// Every todo, in ascending order of id.
    fn find_all(&self) -> (result: Result<Vec<TodoDto>, UseCaseError>)
        ensures
            is_table(self.rows()),
            result matches Ok(todos) ==> todos.deep_view() == listing(self.rows()),
    ;

    /// The todo with this id, or `None` where there is none.
    fn find_by_id(&self, todo_id: i64) -> (result: Result<Option<TodoDto>, UseCaseError>)
        ensures
            is_table(self.rows()),
            result matches Ok(found) ==> found.deep_view() == lookup(self.rows(), todo_id),
    ;
}

/// All five use cases on one object, for a transport that needs them
/// together.
pub trait TodoUseCase {
    /// The table as it stands.
    spec fn rows(&self) -> Seq<Row>;

    /// As `MutationUseCase::create`.
    fn create(&mut self, todo_data: CreateTodoDto) -> (result: Result<TodoDto, UseCaseError>)
        ensures
            is_table(old(self).rows()),
            is_table(final(self).rows()),
            result matches Ok(todo) ==> {
                &&& todo.title == Some(todo_data.title)
                &&& todo.id == final(self).rows().last().id
                &&& is_insertion(old(self).rows(), final(self).rows(), todo_data.title@)
            },
            result is Err ==> final(self).rows() == old(self).rows(),
    ;

    /// As `MutationUseCase::update`.
    fn update(&mut self, todo_data: TodoDto) -> (result: Result<TodoDto, UseCaseError>)
        ensures
            is_table(old(self).rows()),
            is_table(final(self).rows()),
            result matches Ok(todo) ==> {
                &&& todo == todo_data
                &&& final(self).rows() == updated(
                    old(self).rows(),
                    todo_data.id,
                    stored_title(todo_data@.title),
                )
            },
            result is Err ==> final(self).rows() == old(self).rows(),
    ;

    /// As `MutationUseCase::delete`.
    fn delete(&mut self, todo_id: i64) -> (result: Result<i64, UseCaseError>)
        ensures
            is_table(old(self).rows()),
            is_table(final(self).rows()),
            result matches Ok(id) ==> {
                &&& id == todo_id
                &&& final(self).rows() == deleted(old(self).rows(), todo_id)
            },
            result is Err ==> final(self).rows() == old(self).rows(),
    ;

    /// As `QueryUseCase::find_all`.
    fn find_all(&self) -> (result: Result<Vec<TodoDto>, UseCaseError>)
        ensures
            is_table(self.rows()),
            result matches Ok(todos) ==> todos.deep_view() == listing(self.rows()),
    ;

    /// As `QueryUseCase::find_by_id`.
    fn find_by_id(&self, todo_id: i64) -> (result: Result<Option<TodoDto>, UseCaseError>)
        ensures
            is_table(self.rows()),
            result matches Ok(found) ==> found.deep_view() == lookup(self.rows(), todo_id),
    ;
}

} // verus!
