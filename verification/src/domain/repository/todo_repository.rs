use crate::domain::entity::todo::Todo;
use crate::domain::error::DomainError;
use crate::domain::repository::table::{
    deleted, is_insertion, is_table, listing, lookup, stored_title, updated, Row,
};
use vstd::prelude::*;

verus! {

/// The capabilities of a store of todos.
///
/// A repository stands for one table, `rows()`. Whether a call succeeds is
/// the store's to decide, so each contract says what a success means for
/// the table and what holds either way; a call that fails leaves the table
/// as it was. No call has a precondition.
pub trait TodoRepository {
    /// The table as it stands.
    spec fn rows(&self) -> Seq<Row>;

    /// Inserts a row with the title of `todo` (the empty string where it has
    /// none) under an id that the store assigns, and hands that id back; the
    /// id of `todo` is not looked at.
    fn create(&mut self, todo: &Todo) -> (result: Result<i64, DomainError>)
        ensures
            is_table(old(self).rows()),
            is_table(final(self).rows()),
            result matches Ok(id) ==> {
                &&& is_insertion(old(self).rows(), final(self).rows(), stored_title(todo@.title))
                &&& id == final(self).rows().last().id
            },
            result is Err ==> final(self).rows() == old(self).rows(),
    ;

    /// Every row, in ascending order of id.
    fn find_all(&self) -> (result: Result<Vec<Todo>, DomainError>)
        ensures
            is_table(self.rows()),
            result matches Ok(todos) ==> todos.deep_view() == listing(self.rows()),
    ;

    /// The row with this id, or `None` where there is none.
    fn find_by_id(&self, id: i64) -> (result: Result<Option<Todo>, DomainError>)
        ensures
            is_table(self.rows()),
            result matches Ok(found) ==> found.deep_view() == lookup(self.rows(), id),
    ;

    /// Replaces the title of the row with the id of `todo`; where there is
    /// no such row, nothing changes and the call still succeeds.
    fn update(&mut self, todo: &Todo) -> (result: Result<(), DomainError>)
        ensures
            is_table(old(self).rows()),
            is_table(final(self).rows()),
            result is Ok ==> final(self).rows() == updated(
                old(self).rows(),
                todo.id,
                stored_title(todo@.title),
            ),
            result is Err ==> final(self).rows() == old(self).rows(),
    ;

    /// Removes the row with this id; where there is no such row, nothing
    /// changes and the call still succeeds.
    fn delete(&mut self, todo_id: i64) -> (result: Result<(), DomainError>)
        ensures
            is_table(old(self).rows()),
            is_table(final(self).rows()),
            result is Ok ==> final(self).rows() == deleted(old(self).rows(), todo_id),
            result is Err ==> final(self).rows() == old(self).rows(),
    ;
}

} // verus!
