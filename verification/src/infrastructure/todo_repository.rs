use crate::domain::entity::todo::{Todo, TodoView};
use crate::domain::repository::table::stored_title;
use vstd::prelude::*;
use vstd::string::StringExecFns;

verus! {

/// `INSERT`: one parameter, the title.
pub const INSERT: &'static str = "INSERT INTO todos (title) VALUES ($1) RETURNING id, title";

/// `SELECT` of every row, in ascending order of id: no parameter.
pub const SELECT_ALL: &'static str = "SELECT id, title FROM todos ORDER BY id";

/// `SELECT` of one row: one parameter, the id.
pub const SELECT_BY_ID: &'static str = "SELECT id, title FROM todos WHERE id = $1";

/// `UPDATE`: two parameters, the title and the id.
pub const UPDATE: &'static str = "UPDATE todos SET title = $1 WHERE id = $2";

/// `DELETE`: one parameter, the id.
pub const DELETE: &'static str = "DELETE FROM todos WHERE id = $1";

/// A value bound to a parameter, as plain data.
pub enum SqlValueView {
    Text(Seq<char>),
    Integer(i64),
}

/// A value bound to a parameter of a statement.
#[derive(Debug, PartialEq, Eq)]
pub enum SqlValue {
    Text(String),
    Integer(i64),
}

impl View for SqlValue {
    type V = SqlValueView;

    open spec fn view(&self) -> SqlValueView {
        match *self {
            SqlValue::Text(text) => SqlValueView::Text(text@),
            SqlValue::Integer(number) => SqlValueView::Integer(number),
        }
    }
}

impl DeepView for SqlValue {
    type V = SqlValueView;

    open spec fn deep_view(&self) -> SqlValueView {
        self.view()
    }
}

/// A statement as plain data.
pub struct StatementView {
    pub sql: Seq<char>,
    pub params: Seq<SqlValueView>,
}

/// One SQL statement with the values of its parameters, `$1` first.
#[derive(Debug, PartialEq, Eq)]
pub struct Statement {
    pub sql: String,
    pub params: Vec<SqlValue>,
}

impl View for Statement {
    type V = StatementView;

    open spec fn view(&self) -> StatementView {
        StatementView { sql: self.sql@, params: self.params.deep_view() }
    }
}

/// The statement that each operation on the table `todos` runs.
pub struct InternalSqliteTodoRepository {}

impl InternalSqliteTodoRepository {
    /// The statement of `create`.
    pub open spec fn create_statement(todo: TodoView) -> StatementView {
        StatementView {
            sql: INSERT@,
            params: seq![SqlValueView::Text(stored_title(todo.title))],
        }
    }

    /// The statement of `find_all`.
    pub open spec fn find_all_statement() -> StatementView {
        StatementView { sql: SELECT_ALL@, params: seq![] }
    }

    /// The statement of `find_by_id`.
    pub open spec fn find_by_id_statement(id: i64) -> StatementView {
        StatementView { sql: SELECT_BY_ID@, params: seq![SqlValueView::Integer(id)] }
    }

    /// The statement of `update`.
    pub open spec fn update_statement(todo: TodoView) -> StatementView {
        StatementView {
            sql: UPDATE@,
            params: seq![
                SqlValueView::Text(stored_title(todo.title)),
                SqlValueView::Integer(todo.id),
            ],
        }
    }

    /// The statement of `delete`.
    pub open spec fn delete_statement(todo_id: i64) -> StatementView {
        StatementView { sql: DELETE@, params: seq![SqlValueView::Integer(todo_id)] }
    }

    /// The title that is bound for a todo: its own, or the empty string
    /// where it has none.
    fn bound_title(todo: &Todo) -> (value: SqlValue)
        ensures
            value@ == SqlValueView::Text(stored_title(todo@.title)),
    {
        match &todo.title {
            Some(title) => SqlValue::Text(title.clone()),
            None => SqlValue::Text(String::new()),
        }
    }

    /// Inserts a row with the title of `todo`, or with the empty string
    /// where it has none; the id of `todo` is not bound.
    pub fn create(todo: &Todo) -> (statement: Statement)
        ensures
            statement@ == Self::create_statement(todo@),
    {
        let mut params: Vec<SqlValue> = Vec::new();
        params.push(Self::bound_title(todo));
        let statement = Statement { sql: String::from_str(INSERT), params };
        assert(statement@.params =~= Self::create_statement(todo@).params);
        statement
    }

    /// Selects every row, in ascending order of id.
    pub fn find_all() -> (statement: Statement)
        ensures
            statement@ == Self::find_all_statement(),
    {
        let statement = Statement { sql: String::from_str(SELECT_ALL), params: Vec::new() };
        assert(statement@.params =~= Self::find_all_statement().params);
        statement
    }

    /// Selects the row with this id.
    pub fn find_by_id(id: i64) -> (statement: Statement)
        ensures
            statement@ == Self::find_by_id_statement(id),
    {
        let mut params: Vec<SqlValue> = Vec::new();
        params.push(SqlValue::Integer(id));
        let statement = Statement { sql: String::from_str(SELECT_BY_ID), params };
        assert(statement@.params =~= Self::find_by_id_statement(id).params);
        statement
    }

    /// Sets the title of the row with the id of `todo` to the title of
    /// `todo`, or to the empty string where it has none.
    pub fn update(todo: &Todo) -> (statement: Statement)
        ensures
            statement@ == Self::update_statement(todo@),
    {
        let mut params: Vec<SqlValue> = Vec::new();
        params.push(Self::bound_title(todo));
        params.push(SqlValue::Integer(todo.id));
        let statement = Statement { sql: String::from_str(UPDATE), params };
        assert(statement@.params =~= Self::update_statement(todo@).params);
        statement
    }

    /// Deletes the row with this id.
    pub fn delete(todo_id: i64) -> (statement: Statement)
        ensures
            statement@ == Self::delete_statement(todo_id),
    {
        let mut params: Vec<SqlValue> = Vec::new();
        params.push(SqlValue::Integer(todo_id));
        let statement = Statement { sql: String::from_str(DELETE), params };
        assert(statement@.params =~= Self::delete_statement(todo_id).params);
        statement
    }
}

} // verus!
