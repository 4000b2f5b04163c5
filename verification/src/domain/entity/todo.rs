use vstd::prelude::*;

verus! {

/// A todo as plain data: its id and, if it has one, its title.
///
/// Every todo-shaped value of the library (entity, transfer object, REST and
/// GraphQL object) is viewed as one of these.
pub struct TodoView {
    pub id: i64,
    pub title: Option<Seq<char>>,
}

/// The one persisted entity.
///
/// An `id` of 0 stands for "not yet persisted": the store assigns the real
/// id on creation.
#[derive(Debug, PartialEq, Eq)]
pub struct Todo {
    pub id: i64,
    pub title: Option<String>,
}

impl View for Todo {
    type V = TodoView;

    open spec fn view(&self) -> TodoView {
        TodoView { id: self.id, title: self.title.deep_view() }
    }
}

impl DeepView for Todo {
    type V = TodoView;

    open spec fn deep_view(&self) -> TodoView {
        self.view()
    }
}

impl Clone for Todo {
    fn clone(&self) -> (copy: Self)
        ensures
            copy == *self,
    {
        Todo { id: self.id, title: self.title.clone() }
    }
}

} // verus!
