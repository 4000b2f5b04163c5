use crate::domain::entity::todo::{Todo, TodoView};
use crate::domain::error::{DomainError, DomainErrorView};
use crate::infrastructure::todo_repository::{
    InternalSqliteTodoRepository, Statement, StatementView,
};
use vstd::prelude::*;
use vstd::string::StringExecFns;

verus! {

/// The text of the error for an event that the session did not wait for.
pub const OUT_OF_TURN: &'static str = "the store answered out of turn";

/// The text of the error for a reply of another kind than was asked for.
pub const WRONG_REPLY: &'static str = "the store gave a reply of another kind";

/// How the one statement of a session is run.
#[derive(Debug, Clone, Copy, PartialEq, Eq, Structural)]
pub enum Kind {
    /// Inside a transaction, which is committed afterwards, for the row that
    /// the statement inserts and returns.
    Insert,
    /// Inside a transaction, which is committed afterwards.
    Write,
    /// On a plain connection, for all rows.
    FetchAll,
    /// On a plain connection, for the first row if any.
    FetchOptional,
}

/// What a finished session hands to the repository, as plain data.
pub enum ReplyView {
    Created(i64),
    Done,
    Todos(Seq<TodoView>),
    Found(Option<TodoView>),
}

/// What a finished session hands to the repository.
#[derive(Debug, PartialEq, Eq)]
pub enum Reply {
    /// An insert went through; the id is the one that the store assigned.
    Created(i64),
    /// A write went through.
    Done,
    /// The rows that were fetched.
    Todos(Vec<Todo>),
    /// The row that was fetched, if there was one.
    Found(Option<Todo>),
}

impl View for Reply {
    type V = ReplyView;

    open spec fn view(&self) -> ReplyView {
        match *self {
            Reply::Created(id) => ReplyView::Created(id),
            Reply::Done => ReplyView::Done,
            Reply::Todos(todos) => ReplyView::Todos(todos.deep_view()),
            Reply::Found(todo) => ReplyView::Found(todo.deep_view()),
        }
    }
}

/// What the store reported, as plain data.
pub enum EventView {
    Opened,
    Inserted(TodoView),
    Executed,
    Fetched(Seq<TodoView>),
    FetchedOptional(Option<TodoView>),
    Committed,
    Failed(Seq<char>),
}

/// What the store reported of the command it was last given.
#[derive(Debug, PartialEq, Eq)]
pub enum Event {
    /// The transaction was begun, or the connection acquired.
    Opened,
    /// The statement was executed; this is the row that it inserted and
    /// returned.
    Inserted(Todo),
    /// The statement was executed.
    Executed,
    /// The rows that the statement selected.
    Fetched(Vec<Todo>),
    /// The first row that the statement selected, if any.
    FetchedOptional(Option<Todo>),
    /// The transaction was committed.
    Committed,
    /// The command failed; the text is the driver's own.
    Failed(String),
}

impl View for Event {
    type V = EventView;

    open spec fn view(&self) -> EventView {
        match *self {
            Event::Opened => EventView::Opened,
            Event::Inserted(todo) => EventView::Inserted(todo@),
            Event::Executed => EventView::Executed,
            Event::Fetched(todos) => EventView::Fetched(todos.deep_view()),
            Event::FetchedOptional(todo) => EventView::FetchedOptional(todo.deep_view()),
            Event::Committed => EventView::Committed,
            Event::Failed(message) => EventView::Failed(message@),
        }
    }
}

/// What is to be done next, as plain data.
pub enum CommandView {
    Begin,
    Acquire,
    Insert(StatementView),
    Execute(StatementView),
    FetchAll(StatementView),
    FetchOptional(StatementView),
    Commit,
    Finish(Result<ReplyView, DomainErrorView>),
}

/// What is to be done next with the store.
#[derive(Debug, PartialEq, Eq)]
pub enum Command {
    /// Begin a transaction on the pool.
    Begin,
    /// Acquire a connection from the pool.
    Acquire,
    /// Execute the statement inside the transaction and fetch the row that
    /// it returns.
    Insert(Statement),
    /// Execute the statement inside the transaction.
    Execute(Statement),
    /// Run the statement on the connection and fetch all rows.
    FetchAll(Statement),
    /// Run the statement on the connection and fetch the first row, if any.
    FetchOptional(Statement),
    /// Commit the transaction.
    Commit,
    /// Let go of the connection or the transaction and return this.
    Finish(Result<Reply, DomainError>),
}

impl View for Command {
    type V = CommandView;

    open spec fn view(&self) -> CommandView {
        match *self {
            Command::Begin => CommandView::Begin,
            Command::Acquire => CommandView::Acquire,
            Command::Insert(statement) => CommandView::Insert(statement@),
            Command::Execute(statement) => CommandView::Execute(statement@),
            Command::FetchAll(statement) => CommandView::FetchAll(statement@),
            Command::FetchOptional(statement) => CommandView::FetchOptional(statement@),
            Command::Commit => CommandView::Commit,
            Command::Finish(Ok(reply)) => CommandView::Finish(Ok(reply@)),
            Command::Finish(Err(error)) => CommandView::Finish(Err(error@)),
        }
    }
}

/// Where a session stands, as plain data.
pub enum SessionView {
    Opening { kind: Kind, statement: StatementView },
    Running { kind: Kind },
    Committing { created: Option<i64> },
    Finished,
}

/// One operation of the repository on the store: one statement, run in a
/// transaction of its own if it writes, on a pooled connection if it reads.
///
/// The session decides; the caller acts. A session starts with a first
/// command; the caller carries each command out, reports what happened with
/// `step` and gets the next command, until the command is `Finish`.
#[derive(Debug, PartialEq, Eq)]
pub enum Session {
    /// Waiting for the transaction or the connection.
    Opening { kind: Kind, statement: Statement },
    /// Waiting for the statement.
    Running { kind: Kind },
    /// Waiting for the commit; `created` is the id of the row that was
    /// inserted, if the statement was an insert.
    Committing { created: Option<i64> },
    /// Nothing is waited for.
    Finished,
}

impl View for Session {
    type V = SessionView;

    open spec fn view(&self) -> SessionView {
        match *self {
            Session::Opening { kind, statement } => SessionView::Opening {
                kind,
                statement: statement@,
            },
            Session::Running { kind } => SessionView::Running { kind },
            Session::Committing { created } => SessionView::Committing { created },
            Session::Finished => SessionView::Finished,
        }
    }
}

impl Session {
    /// The command that runs the statement in the way of its kind.
    pub open spec fn run(kind: Kind, statement: StatementView) -> CommandView {
        match kind {
            Kind::Insert => CommandView::Insert(statement),
            Kind::Write => CommandView::Execute(statement),
            Kind::FetchAll => CommandView::FetchAll(statement),
            Kind::FetchOptional => CommandView::FetchOptional(statement),
        }
    }

    /// Where the session goes on an event, and what is to be done then.
    ///
    /// A failure ends the session with `Infrastructure` and the driver's
    /// text, wherever it stands. Otherwise one event is waited for in each
    /// state: once opened, the statement is run; an insert or another write
    /// that was executed is committed, and is done only when the commit went
    /// through, an insert with the id of the row that it returned; rows that
    /// were fetched end the session with those rows. Any other event ends
    /// the session with `Unexpected`.
    pub open spec fn next(session: SessionView, event: EventView) -> (SessionView, CommandView) {
        match (session, event) {
            (_, EventView::Failed(message)) => (
                SessionView::Finished,
                CommandView::Finish(Err(DomainErrorView::Infrastructure(message))),
            ),
            (SessionView::Opening { kind, statement }, EventView::Opened) => (
                SessionView::Running { kind },
                Self::run(kind, statement),
            ),
            (SessionView::Running { kind: Kind::Insert }, EventView::Inserted(todo)) => (
                SessionView::Committing { created: Some(todo.id) },
                CommandView::Commit,
            ),
            (SessionView::Running { kind: Kind::Write }, EventView::Executed) => (
                SessionView::Committing { created: None },
                CommandView::Commit,
            ),
            (SessionView::Running { kind: Kind::FetchAll }, EventView::Fetched(todos)) => (
                SessionView::Finished,
                CommandView::Finish(Ok(ReplyView::Todos(todos))),
            ),
            (
                SessionView::Running { kind: Kind::FetchOptional },
                EventView::FetchedOptional(todo),
            ) => (SessionView::Finished, CommandView::Finish(Ok(ReplyView::Found(todo)))),
            (SessionView::Committing { created: Some(id) }, EventView::Committed) => (
                SessionView::Finished,
                CommandView::Finish(Ok(ReplyView::Created(id))),
            ),
            (SessionView::Committing { created: None }, EventView::Committed) => (
                SessionView::Finished,
                CommandView::Finish(Ok(ReplyView::Done)),
            ),
            _ => (
                SessionView::Finished,
                CommandView::Finish(Err(DomainErrorView::Unexpected(OUT_OF_TURN@))),
            ),
        }
    }

    /// `create`: a transaction is begun for the insert.
    pub fn create(todo: &Todo) -> (start: (Session, Command))
        ensures
            start.0@ == (SessionView::Opening {
                kind: Kind::Insert,
                statement: InternalSqliteTodoRepository::create_statement(todo@),
            }),
            start.1@ == CommandView::Begin,
    {
        (
            Session::Opening {
                kind: Kind::Insert,
                statement: InternalSqliteTodoRepository::create(todo),
            },
            Command::Begin,
        )
    }

    /// `find_all`: a connection is acquired for the select.
    pub fn find_all() -> (start: (Session, Command))
        ensures
            start.0@ == (SessionView::Opening {
                kind: Kind::FetchAll,
                statement: InternalSqliteTodoRepository::find_all_statement(),
            }),
            start.1@ == CommandView::Acquire,
    {
        (
            Session::Opening {
                kind: Kind::FetchAll,
                statement: InternalSqliteTodoRepository::find_all(),
            },
            Command::Acquire,
        )
    }

    /// `find_by_id`: a connection is acquired for the select.
    pub fn find_by_id(id: i64) -> (start: (Session, Command))
        ensures
            start.0@ == (SessionView::Opening {
                kind: Kind::FetchOptional,
                statement: InternalSqliteTodoRepository::find_by_id_statement(id),
            }),
            start.1@ == CommandView::Acquire,
    {
        (
            Session::Opening {
                kind: Kind::FetchOptional,
                statement: InternalSqliteTodoRepository::find_by_id(id),
            },
            Command::Acquire,
        )
    }

    /// `update`: a transaction is begun for the update.
    pub fn update(todo: &Todo) -> (start: (Session, Command))
        ensures
            start.0@ == (SessionView::Opening {
                kind: Kind::Write,
                statement: InternalSqliteTodoRepository::update_statement(todo@),
            }),
            start.1@ == CommandView::Begin,
    {
        (
            Session::Opening {
                kind: Kind::Write,
                statement: InternalSqliteTodoRepository::update(todo),
            },
            Command::Begin,
        )
    }

    /// `delete`: a transaction is begun for the delete.
    pub fn delete(todo_id: i64) -> (start: (Session, Command))
        ensures
            start.0@ == (SessionView::Opening {
                kind: Kind::Write,
                statement: InternalSqliteTodoRepository::delete_statement(todo_id),
            }),
            start.1@ == CommandView::Begin,
    {
        (
            Session::Opening {
                kind: Kind::Write,
                statement: InternalSqliteTodoRepository::delete(todo_id),
            },
            Command::Begin,
        )
    }

    /// Takes what the store reported of the last command and says where the
    /// session stands now and what is to be done next.
    pub fn step(self, event: Event) -> (then: (Session, Command))
        ensures
            (then.0@, then.1@) == Self::next(self@, event@),
    {
        match (self, event) {
            (_, Event::Failed(message)) => (
                Session::Finished,
                Command::Finish(Err(DomainError::Infrastructure(message))),
            ),
            (Session::Opening { kind, statement }, Event::Opened) => {
                let command = match kind {
                    Kind::Insert => Command::Insert(statement),
                    Kind::Write => Command::Execute(statement),
                    Kind::FetchAll => Command::FetchAll(statement),
                    Kind::FetchOptional => Command::FetchOptional(statement),
                };
                (Session::Running { kind }, command)
            },
            (Session::Running { kind: Kind::Insert }, Event::Inserted(todo)) => (
                Session::Committing { created: Some(todo.id) },
                Command::Commit,
            ),
            (Session::Running { kind: Kind::Write }, Event::Executed) => (
                Session::Committing { created: None },
                Command::Commit,
            ),
            (Session::Running { kind: Kind::FetchAll }, Event::Fetched(todos)) => (
                Session::Finished,
                Command::Finish(Ok(Reply::Todos(todos))),
            ),
            (Session::Running { kind: Kind::FetchOptional }, Event::FetchedOptional(todo)) => (
                Session::Finished,
                Command::Finish(Ok(Reply::Found(todo))),
            ),
            (Session::Committing { created: Some(id) }, Event::Committed) => (
                Session::Finished,
                Command::Finish(Ok(Reply::Created(id))),
            ),
            (Session::Committing { created: None }, Event::Committed) => (
                Session::Finished,
                Command::Finish(Ok(Reply::Done)),
            ),
            _ => (
                Session::Finished,
                Command::Finish(Err(DomainError::Unexpected(String::from_str(OUT_OF_TURN)))),
            ),
        }
    }
}

impl Reply {
    /// What `create` returns for what its session finished with: the id
    /// that the store assigned, where the reply is `Created`; the error,
    /// unchanged, where it failed; `Unexpected` for a reply of another kind.
    pub fn created(result: Result<Reply, DomainError>) -> (answer: Result<i64, DomainError>)
        ensures
            match result {
                Ok(Reply::Created(id)) => answer == Ok::<i64, DomainError>(id),
                Ok(_) => answer matches Err(DomainError::Unexpected(message)) && message@
                    == WRONG_REPLY@,
                Err(error) => answer == Err::<i64, DomainError>(error),
            },
    {
        match result {
            Ok(Reply::Created(id)) => Ok(id),
            Ok(_) => Err(DomainError::Unexpected(String::from_str(WRONG_REPLY))),
            Err(error) => Err(error),
        }
    }

    /// What a write returns for what its session finished with: nothing,
    /// where the reply is `Done`; the error, unchanged, where it failed;
    /// `Unexpected` for a reply of another kind.
    pub fn done(result: Result<Reply, DomainError>) -> (answer: Result<(), DomainError>)
        ensures
            match result {
                Ok(Reply::Done) => answer is Ok,
                Ok(_) => answer matches Err(DomainError::Unexpected(message)) && message@
                    == WRONG_REPLY@,
                Err(error) => answer == Err::<(), DomainError>(error),
            },
    {
        match result {
            Ok(Reply::Done) => Ok(()),
            Ok(_) => Err(DomainError::Unexpected(String::from_str(WRONG_REPLY))),
            Err(error) => Err(error),
        }
    }

    /// What `find_all` returns for what its session finished with: the
    /// rows, where the reply is `Todos`; the error, unchanged, where it
    /// failed; `Unexpected` for a reply of another kind.
    pub fn todos(result: Result<Reply, DomainError>) -> (answer: Result<Vec<Todo>, DomainError>)
        ensures
            match result {
                Ok(Reply::Todos(todos)) => answer == Ok::<Vec<Todo>, DomainError>(todos),
                Ok(_) => answer matches Err(DomainError::Unexpected(message)) && message@
                    == WRONG_REPLY@,
                Err(error) => answer == Err::<Vec<Todo>, DomainError>(error),
            },
    {
        match result {
            Ok(Reply::Todos(todos)) => Ok(todos),
            Ok(_) => Err(DomainError::Unexpected(String::from_str(WRONG_REPLY))),
            Err(error) => Err(error),
        }
    }

    /// What `find_by_id` returns for what its session finished with: the
    /// row or `None`, where the reply is `Found`; the error, unchanged,
    /// where it failed; `Unexpected` for a reply of another kind.
    pub fn found(result: Result<Reply, DomainError>) -> (answer: Result<
        Option<Todo>,
        DomainError,
    >)
        ensures
            match result {
                Ok(Reply::Found(todo)) => answer == Ok::<Option<Todo>, DomainError>(todo),
                Ok(_) => answer matches Err(DomainError::Unexpected(message)) && message@
                    == WRONG_REPLY@,
                Err(error) => answer == Err::<Option<Todo>, DomainError>(error),
            },
    {
        match result {
            Ok(Reply::Found(todo)) => Ok(todo),
            Ok(_) => Err(DomainError::Unexpected(String::from_str(WRONG_REPLY))),
            Err(error) => Err(error),
        }
    }
}

/// An insert or another write is executed only in answer to the
/// transaction that was begun for it, committed only once its statement was
/// executed, and reported done only once the commit went through, an insert
/// with the id of the row that its statement returned; a failure always
/// ends the session with the driver's text as an `Infrastructure` error.
pub proof fn lemma_write_in_transaction(session: SessionView, event: EventView)
    ensures
        Session::next(session, event).1 is Insert ==> {
            &&& session matches SessionView::Opening { kind, .. }
            &&& kind == Kind::Insert
            &&& event is Opened
        },
        Session::next(session, event).1 is Execute ==> {
            &&& session matches SessionView::Opening { kind, .. }
            &&& kind == Kind::Write
            &&& event is Opened
        },
        Session::next(session, event).1 is Commit ==> {
            ||| {
                &&& session == (SessionView::Running { kind: Kind::Insert })
                &&& event matches EventView::Inserted(todo)
                &&& Session::next(session, event).0 == (SessionView::Committing {
                    created: Some(todo.id),
                })
            }
            ||| {
                &&& session == (SessionView::Running { kind: Kind::Write })
                &&& event is Executed
            }
        },
        Session::next(session, event).1 matches CommandView::Finish(Ok(ReplyView::Created(id)))
            ==> {
            &&& session == (SessionView::Committing { created: Some(id) })
            &&& event is Committed
        },
        Session::next(session, event).1 == CommandView::Finish(Ok(ReplyView::Done)) ==> {
            &&& session == (SessionView::Committing { created: None })
            &&& event is Committed
        },
        event matches EventView::Failed(message) ==> Session::next(session, event) == (
            SessionView::Finished,
            CommandView::Finish(Err(DomainErrorView::Infrastructure(message))),
        ),
{
}

} // verus!
