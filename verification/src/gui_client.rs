//! What the desktop window shows.

use crate::domain::repository::table::{stored_title, Row};
use crate::presentation::rest::object::TodosResponse;
use vstd::prelude::*;
use vstd::string::StringExecFns;

verus! {

/// A todo as the window lists it; a todo without a title is listed with
/// the empty string.
#[derive(Debug, PartialEq, Eq)]
pub struct Todo {
    pub id: i64,
    pub title: String,
}

impl View for Todo {
    type V = Row;

    open spec fn view(&self) -> Row {
        Row { id: self.id, title: self.title@ }
    }
}

impl DeepView for Todo {
    type V = Row;

    open spec fn deep_view(&self) -> Row {
        self.view()
    }
}

/// The list for the window, for what the REST client came back with: the
/// todos of the response, in the same order, and none where the response
/// holds none; where the call failed, the text of its error.
pub fn get_todos(todos_response: Result<TodosResponse, String>) -> (listed: Result<
    Vec<Todo>,
    String,
>)
    ensures
        match todos_response {
            Ok(res) => listed matches Ok(todos) && todos.deep_view() == match res.todos {
                Some(shown) => shown.deep_view().map_values(
                    |todo: crate::domain::entity::todo::TodoView|
                        Row { id: todo.id, title: stored_title(todo.title) },
                ),
                None => Seq::<Row>::empty(),
            },
            Err(err) => listed == Err::<Vec<Todo>, String>(err),
        },
{
    match todos_response {
        Ok(res) => match res.todos {
            Some(todos) => {
                let mut todos_vec: Vec<Todo> = Vec::new();
                let mut i: usize = 0;
                while i < todos.len()
                    invariant
                        i <= todos.len(),
                        todos_vec.len() == i,
                        forall|k: int|
                            0 <= k < i ==> (#[trigger] todos_vec[k])@ == (Row {
                                id: todos[k].id,
                                title: stored_title(todos[k]@.title),
                            }),
                    decreases todos.len() - i,
                {
                    let title = match &todos[i].title {
                        Some(title) => title.clone(),
                        None => String::new(),
                    };
                    todos_vec.push(Todo { id: todos[i].id, title });
                    i = i + 1;
                }
                assert(todos_vec.deep_view() =~= todos.deep_view().map_values(
                    |todo: crate::domain::entity::todo::TodoView|
                        Row { id: todo.id, title: stored_title(todo.title) },
                ));
                Ok(todos_vec)
            },
            None => {
                let todos_vec: Vec<Todo> = Vec::new();
                assert(todos_vec.deep_view() =~= Seq::<Row>::empty());
                Ok(todos_vec)
            },
        },
        Err(err) => Err(err),
    }
}

/// The greeting for `name`.
pub fn greet(name: &str) -> (greeting: String)
    ensures
        greeting@ == "Hello, "@ + name@ + "! You've been greeted from Rust!"@,
{
    let mut greeting = String::from_str("Hello, ");
    greeting.append(name);
    greeting.append("! You've been greeted from Rust!");
    greeting
}

} // verus!
