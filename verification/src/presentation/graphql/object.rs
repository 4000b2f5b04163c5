use crate::domain::entity::todo::TodoView;
use vstd::prelude::*;

verus! {

/// A todo as the GraphQL interface shows it, with the fields `id` and
/// `title`.
#[derive(Debug, PartialEq, Eq)]
pub struct Todo {
    id: i64,
    title: Option<String>,
}

impl View for Todo {
    type V = TodoView;

    closed spec fn view(&self) -> TodoView {
        TodoView { id: self.id, title: self.title.deep_view() }
    }
}

impl DeepView for Todo {
    type V = TodoView;

    open spec fn deep_view(&self) -> TodoView {
        self.view()
    }
}

impl Todo {
    pub fn new(id: i64, title: Option<String>) -> (todo: Self)
        ensures
            todo@ == (TodoView { id, title: title.deep_view() }),
    {
        Self { id, title }
    }

    /// The field `id`.
    pub fn id(&self) -> (id: i64)
        ensures
            id == self@.id,
    {
        self.id
    }

    /// The field `title`.
    pub fn title(&self) -> (title: &Option<String>)
        ensures
            title.deep_view() == self@.title,
    {
        &self.title
    }
}

} // verus!
