use std::future::Future;

use sqlx::sqlite::{SqliteArguments, SqlitePoolOptions, SqliteRow};
use sqlx::{Pool, Row, Sqlite, SqliteConnection};

use todo_service::domain::entity::todo::Todo;
use todo_service::domain::error::DomainError;
use todo_service::domain::repository::todo_repository::TodoRepository;
use todo_service::infrastructure::memory::InMemoryTodoRepository;
use todo_service::infrastructure::session::{Command, Event, Reply, Session};
use todo_service::infrastructure::todo_repository::{
    InternalSqliteTodoRepository, SqlValue, Statement,
};
use todo_service::presentation::error::PresentationalError;
use todo_service::presentation::rest::handler::{
    create_todo_response, delete_todo_response, todo_response, todo_to_delete, todos_response,
    StatusCode,
};
use todo_service::presentation::rest::object::{
    CreateTodoResponse, DeleteTodoResponse, Todo as RestTodo, TodoResponse, TodosResponse,
};
use todo_service::use_case::dto::todo::CreateTodoDto;
use todo_service::use_case::interactor::todo::{created, listed, looked_up, removed};

/// Runs a future to its end on a runtime of its own.
fn block_on<F: Future>(future: F) -> F::Output {
    tokio::runtime::Builder::new_current_thread()
        .enable_all()
        .build()
        .unwrap()
        .block_on(future)
}

/// The statement as a query with its parameters bound.
fn bound(statement: &Statement) -> sqlx::query::Query<'_, Sqlite, SqliteArguments<'_>> {
    let mut query = sqlx::query(&statement.sql);
    for value in statement.params.iter() {
        query = match value {
            SqlValue::Text(text) => query.bind(text.as_str()),
            SqlValue::Integer(number) => query.bind(*number),
        };
    }
    query
}

/// A fetched row as a todo.
fn todo_of(row: &SqliteRow) -> Result<Todo, sqlx::Error> {
    let id: i64 = row.try_get("id")?;
    let title: String = row.try_get("title")?;
    Ok(Todo {
        id,
        title: Some(title),
    })
}

async fn insert(statement: &Statement, conn: &mut SqliteConnection) -> Event {
    match bound(statement).fetch_one(&mut *conn).await {
        Ok(row) => match todo_of(&row) {
            Ok(todo) => Event::Inserted(todo),
            Err(e) => Event::Failed(e.to_string()),
        },
        Err(e) => Event::Failed(e.to_string()),
    }
}

async fn execute(statement: &Statement, conn: &mut SqliteConnection) -> Event {
    match bound(statement).execute(&mut *conn).await {
        Ok(_) => Event::Executed,
        Err(e) => Event::Failed(e.to_string()),
    }
}

async fn fetch_all(statement: &Statement, conn: &mut SqliteConnection) -> Event {
    let rows = match bound(statement).fetch_all(&mut *conn).await {
        Ok(rows) => rows,
        Err(e) => return Event::Failed(e.to_string()),
    };
    let mut todos = Vec::new();
    for row in rows.iter() {
        match todo_of(row) {
            Ok(todo) => todos.push(todo),
            Err(e) => return Event::Failed(e.to_string()),
        }
    }
    Event::Fetched(todos)
}

async fn fetch_optional(statement: &Statement, conn: &mut SqliteConnection) -> Event {
    match bound(statement).fetch_optional(&mut *conn).await {
        Ok(Some(row)) => match todo_of(&row) {
            Ok(todo) => Event::FetchedOptional(Some(todo)),
            Err(e) => Event::Failed(e.to_string()),
        },
        Ok(None) => Event::FetchedOptional(None),
        Err(e) => Event::Failed(e.to_string()),
    }
}

/// Carries out the commands of a session on the pool until it finishes.
async fn perform(pool: &Pool<Sqlite>, start: (Session, Command)) -> Result<Reply, DomainError> {
    let (mut session, mut command) = start;
    let mut transaction = None;
    let mut connection = None;
    loop {
        let event = match command {
            Command::Begin => match pool.begin().await {
                Ok(tx) => {
                    transaction = Some(tx);
                    Event::Opened
                }
                Err(e) => Event::Failed(e.to_string()),
            },
            Command::Acquire => match pool.acquire().await {
                Ok(conn) => {
                    connection = Some(conn);
                    Event::Opened
                }
                Err(e) => Event::Failed(e.to_string()),
            },
            Command::Insert(statement) => match transaction.as_mut() {
                Some(tx) => insert(&statement, &mut **tx).await,
                None => Event::Failed("no transaction was begun".to_string()),
            },
            Command::Execute(statement) => match transaction.as_mut() {
                Some(tx) => execute(&statement, &mut **tx).await,
                None => Event::Failed("no transaction was begun".to_string()),
            },
            Command::FetchAll(statement) => match connection.as_mut() {
                Some(conn) => fetch_all(&statement, &mut **conn).await,
                None => Event::Failed("no connection was acquired".to_string()),
            },
            Command::FetchOptional(statement) => match connection.as_mut() {
                Some(conn) => fetch_optional(&statement, &mut **conn).await,
                None => Event::Failed("no connection was acquired".to_string()),
            },
            Command::Commit => match transaction.take() {
                Some(tx) => match tx.commit().await {
                    Ok(_) => Event::Committed,
                    Err(e) => Event::Failed(e.to_string()),
                },
                None => Event::Failed("no transaction was begun".to_string()),
            },
            Command::Finish(result) => return result,
        };
        (session, command) = session.step(event);
    }
}

/// The repository over a pool: each operation is one session.
struct SqliteTodoRepository {
    pool: Pool<Sqlite>,
}

impl SqliteTodoRepository {
    fn new(pool: Pool<Sqlite>) -> Self {
        Self { pool }
    }

    async fn create(&self, todo: &Todo) -> Result<i64, DomainError> {
        Reply::created(perform(&self.pool, Session::create(todo)).await)
    }

    async fn find_all(&self) -> Result<Vec<Todo>, DomainError> {
        Reply::todos(perform(&self.pool, Session::find_all()).await)
    }

    async fn find_by_id(&self, id: i64) -> Result<Option<Todo>, DomainError> {
        Reply::found(perform(&self.pool, Session::find_by_id(id)).await)
    }

    async fn update(&self, todo: &Todo) -> Result<(), DomainError> {
        Reply::done(perform(&self.pool, Session::update(todo)).await)
    }

    async fn delete(&self, todo_id: i64) -> Result<(), DomainError> {
        Reply::done(perform(&self.pool, Session::delete(todo_id)).await)
    }
}

/// The statements of the library, run on one connection outside any
/// transaction.
async fn internal_create(todo: &Todo, conn: &mut SqliteConnection) -> Result<(), String> {
    match insert(&InternalSqliteTodoRepository::create(todo), conn).await {
        Event::Inserted(_) => Ok(()),
        other => Err(format!("{:?}", other)),
    }
}

async fn internal_find_all(conn: &mut SqliteConnection) -> Result<Vec<Todo>, String> {
    match fetch_all(&InternalSqliteTodoRepository::find_all(), conn).await {
        Event::Fetched(todos) => Ok(todos),
        other => Err(format!("{:?}", other)),
    }
}

async fn internal_find_by_id(id: i64, conn: &mut SqliteConnection) -> Result<Option<Todo>, String> {
    match fetch_optional(&InternalSqliteTodoRepository::find_by_id(id), conn).await {
        Event::FetchedOptional(todo) => Ok(todo),
        other => Err(format!("{:?}", other)),
    }
}

async fn internal_update(todo: &Todo, conn: &mut SqliteConnection) -> Result<(), String> {
    match execute(&InternalSqliteTodoRepository::update(todo), conn).await {
        Event::Executed => Ok(()),
        other => Err(format!("{:?}", other)),
    }
}

async fn internal_delete(todo_id: i64, conn: &mut SqliteConnection) -> Result<(), String> {
    match execute(&InternalSqliteTodoRepository::delete(todo_id), conn).await {
        Event::Executed => Ok(()),
        other => Err(format!("{:?}", other)),
    }
}

async fn prepare_table(conn: &mut SqliteConnection) {
    sqlx::query(
        r#"
        CREATE TABLE todos (
            id INTEGER PRIMARY KEY AUTOINCREMENT,
            title TEXT NOT NULL
        )
        "#,
    )
    .execute(&mut *conn)
    .await
    .unwrap();
}

#[test]
fn test_internal() {
    block_on(async {
        let pool = SqlitePoolOptions::new()
            .connect("sqlite::memory:")
            .await
            .unwrap();
        let mut conn = pool.acquire().await.unwrap();

        prepare_table(&mut conn).await;

        let todos = internal_find_all(&mut conn).await;
        match todos {
            Ok(todos) => {
                assert_eq!(todos.len(), 0);
            }
            Err(_) => panic!("failed to fetch todos"),
        };

        let todo = Todo {
            id: 0,
            title: Some("task1".to_string()),
        };
        let result = internal_create(&todo, &mut conn).await;
        let todo = match result {
            Ok(_) => {
                let todos = internal_find_all(&mut conn).await;
                match todos {
                    Ok(todos) => {
                        assert_eq!(todos.len(), 1);
                        let todo = todos[0].clone();
                        assert_eq!(todo.title, Some("task1".to_string()));
                        todo
                    }
                    Err(_) => panic!("failed to fetch todos"),
                }
            }
            Err(_) => panic!("failed to create todo"),
        };

        let result = internal_find_by_id(todo.id, &mut conn).await;
        match result {
            Ok(todo) => match todo {
                Some(todo) => {
                    assert_eq!(todo.title, Some("task1".to_string()));
                }
                None => panic!("failed to fetch todo"),
            },
            Err(_) => panic!("failed to fetch todo"),
        };

        let result = internal_update(&todo, &mut conn).await;
        match result {
            Ok(_) => {
                let todos = internal_find_all(&mut conn).await;
                match todos {
                    Ok(todos) => {
                        assert_eq!(todos.len(), 1);
                        let todo = todos[0].clone();
                        assert_eq!(todo.title, Some("task1".to_string()));
                    }
                    Err(_) => panic!("failed to fetch todos"),
                }
            }
            Err(_) => panic!("failed to update todo"),
        };

        let result = internal_delete(todo.id, &mut conn).await;
        match result {
            Ok(_) => {
                let todos = internal_find_all(&mut conn).await;
                match todos {
                    Ok(todos) => {
                        assert_eq!(todos.len(), 0);
                    }
                    Err(_) => panic!("failed to fetch todos"),
                }
            }
            Err(_) => panic!("failed to delete todo"),
        };
    });
}

#[test]
fn todo_repository_test_create() {
    block_on(async {
        let pool = SqlitePoolOptions::new()
            .connect("sqlite::memory:")
            .await
            .unwrap();
        let mut conn = pool.acquire().await.unwrap();

        prepare_table(&mut conn).await;

        let repository = SqliteTodoRepository::new(pool);
        let todo = Todo {
            id: 0,
            title: Some("task1".to_string()),
        };
        let result = repository.create(&todo).await;
        match result {
            Ok(_) => {
                let todos = internal_find_all(&mut conn).await;
                match todos {
                    Ok(todos) => {
                        assert_eq!(todos.len(), 1);
                        let todo = todos[0].clone();
                        assert_eq!(todo.title, Some("task1".to_string()));
                    }
                    Err(_) => panic!("failed to fetch todos"),
                }
            }
            Err(_) => panic!("failed to create todo"),
        };
    });
}

#[test]
fn test_update() {
    block_on(async {
        let pool = SqlitePoolOptions::new()
            .connect("sqlite::memory:")
            .await
            .unwrap();
        let mut conn = pool.acquire().await.unwrap();

        prepare_table(&mut conn).await;

        let repository = SqliteTodoRepository::new(pool);
        let todo = Todo {
            id: 0,
            title: Some("task1".to_string()),
        };
        let result = repository.create(&todo).await;
        let todo = match result {
            Ok(_) => {
                let todos = internal_find_all(&mut conn).await;
                match todos {
                    Ok(todos) => {
                        assert_eq!(todos.len(), 1);
                        let todo = todos[0].clone();
                        assert_eq!(todo.title, Some("task1".to_string()));
                        todo
                    }
                    Err(_) => panic!("failed to fetch todos"),
                }
            }
            Err(_) => panic!("failed to create todo"),
        };

        let todo = Todo {
            id: todo.id,
            title: Some("task2".to_string()),
        };
        let result = repository.update(&todo).await;
        match result {
            Ok(_) => {
                let todos = internal_find_all(&mut conn).await;
                match todos {
                    Ok(todos) => {
                        assert_eq!(todos.len(), 1);
                        let todo = todos[0].clone();
                        assert_eq!(todo.title, Some("task2".to_string()));
                    }
                    Err(_) => panic!("failed to fetch todos"),
                }
            }
            Err(_) => panic!("failed to update todo"),
        };
    });
}

#[test]
fn todo_repository_test_delete() {
    block_on(async {
        let pool = SqlitePoolOptions::new()
            .connect("sqlite::memory:")
            .await
            .unwrap();
        let mut conn = pool.acquire().await.unwrap();

        prepare_table(&mut conn).await;

        let repository = SqliteTodoRepository::new(pool);
        let todo = Todo {
            id: 0,
            title: Some("task1".to_string()),
        };
        let result = repository.create(&todo).await;
        let todo = match result {
            Ok(_) => {
                let todos = internal_find_all(&mut conn).await;
                match todos {
                    Ok(todos) => {
                        assert_eq!(todos.len(), 1);
                        let todo = todos[0].clone();
                        assert_eq!(todo.title, Some("task1".to_string()));
                        todo
                    }
                    Err(_) => panic!("failed to fetch todos"),
                }
            }
            Err(_) => panic!("failed to create todo"),
        };

        let result = repository.delete(todo.id).await;
        match result {
            Ok(_) => {
                let todos = internal_find_all(&mut conn).await;
                match todos {
                    Ok(todos) => {
                        assert_eq!(todos.len(), 0);
                    }
                    Err(_) => panic!("failed to fetch todos"),
                }
            }
            Err(_) => panic!("failed to delete todo"),
        };
    });
}

#[test]
fn todo_repository_test_find_all() {
    block_on(async {
        let pool = SqlitePoolOptions::new()
            .connect("sqlite::memory:")
            .await
            .unwrap();
        let mut conn = pool.acquire().await.unwrap();

        prepare_table(&mut conn).await;

        let repository = SqliteTodoRepository::new(pool);

        let todos = repository.find_all().await;
        match todos {
            Ok(todos) => {
                assert_eq!(todos.len(), 0);
            }
            Err(_) => panic!("failed to fetch todos"),
        };

        let todo = Todo {
            id: 0,
            title: Some("task1".to_string()),
        };
        let result = internal_create(&todo, &mut conn).await;
        match result {
            Ok(_) => {
                let todos = repository.find_all().await;
                match todos {
                    Ok(todos) => {
                        assert_eq!(todos.len(), 1);
                        let todo = todos[0].clone();
                        assert_eq!(todo.title, Some("task1".to_string()));
                        todo
                    }
                    Err(_) => panic!("failed to fetch todos"),
                }
            }
            Err(_) => panic!("failed to create todo"),
        };
    });
}

#[test]
fn test_find_by_id() {
    block_on(async {
        let pool = SqlitePoolOptions::new()
            .connect("sqlite::memory:")
            .await
            .unwrap();
        let mut conn = pool.acquire().await.unwrap();

        prepare_table(&mut conn).await;

        let repository = SqliteTodoRepository::new(pool);

        let todo = repository.find_by_id(1).await;
        match todo {
            Ok(todo) => {
                if todo.is_some() {
                    panic!("todo should not be found");
                }
            }
            Err(_) => panic!("failed to fetch todo"),
        };

        let todo = Todo {
            id: 0,
            title: Some("task1".to_string()),
        };
        let result = internal_create(&todo, &mut conn).await;
        match result {
            Ok(_) => {
                let todo = repository.find_by_id(1).await;
                match todo {
                    Ok(todo) => match todo {
                        Some(todo) => {
                            assert_eq!(todo.title, Some("task1".to_string()));
                            todo
                        }
                        None => panic!("todo should be found"),
                    },
                    Err(_) => panic!("failed to fetch todo"),
                }
            }
            Err(_) => panic!("failed to create todo"),
        };
    });
}

fn titled(id: i64, title: &str) -> Todo {
    Todo {
        id,
        title: Some(title.to_string()),
    }
}

async fn prepared_repository() -> SqliteTodoRepository {
    let pool = SqlitePoolOptions::new()
        .connect("sqlite::memory:")
        .await
        .unwrap();
    let mut conn = pool.acquire().await.unwrap();
    prepare_table(&mut conn).await;
    drop(conn);
    SqliteTodoRepository::new(pool)
}

#[test]
fn sqlite_insert_update_delete_scenario() {
    block_on(async {
        let repository = prepared_repository().await;

        repository.create(&titled(0, "task1")).await.unwrap();
        assert_eq!(repository.find_all().await, Ok(vec![titled(1, "task1")]));

        repository.update(&titled(1, "task2")).await.unwrap();
        assert_eq!(repository.find_all().await, Ok(vec![titled(1, "task2")]));
        assert_eq!(repository.find_by_id(1).await, Ok(Some(titled(1, "task2"))));

        repository.delete(1).await.unwrap();
        assert_eq!(repository.find_all().await, Ok(vec![]));
        assert_eq!(repository.find_by_id(1).await, Ok(None));
    });
}

#[test]
fn sqlite_stores_the_empty_string_for_no_title() {
    block_on(async {
        let repository = prepared_repository().await;
        repository
            .create(&Todo { id: 9, title: None })
            .await
            .unwrap();
        assert_eq!(repository.find_all().await, Ok(vec![titled(1, "")]));
        repository.update(&titled(1, "named")).await.unwrap();
        repository
            .update(&Todo { id: 1, title: None })
            .await
            .unwrap();
        assert_eq!(repository.find_all().await, Ok(vec![titled(1, "")]));
    });
}

#[test]
fn sqlite_succeeds_silently_where_no_row_has_the_id() {
    block_on(async {
        let repository = prepared_repository().await;
        repository.create(&titled(0, "task1")).await.unwrap();
        assert_eq!(repository.update(&titled(5, "other")).await, Ok(()));
        assert_eq!(repository.delete(5).await, Ok(()));
        assert_eq!(repository.delete(5).await, Ok(()));
        assert_eq!(repository.find_all().await, Ok(vec![titled(1, "task1")]));
    });
}

#[test]
fn sqlite_lists_in_ascending_order_of_id_and_gives_no_id_out_again() {
    block_on(async {
        let repository = prepared_repository().await;
        repository.create(&titled(0, "first")).await.unwrap();
        repository.create(&titled(0, "second")).await.unwrap();
        repository.create(&titled(0, "third")).await.unwrap();
        repository.delete(3).await.unwrap();
        repository.create(&titled(0, "fourth")).await.unwrap();
        repository.delete(1).await.unwrap();
        assert_eq!(
            repository.find_all().await,
            Ok(vec![titled(2, "second"), titled(4, "fourth")])
        );
    });
}

#[test]
fn sqlite_failures_are_infrastructure_errors() {
    block_on(async {
        let pool = SqlitePoolOptions::new()
            .connect("sqlite::memory:")
            .await
            .unwrap();
        // no table was prepared
        let repository = SqliteTodoRepository::new(pool);
        for result in [
            repository.create(&titled(0, "task1")).await.map(|_| ()),
            repository.update(&titled(1, "task1")).await,
            repository.delete(1).await,
        ] {
            match result {
                Err(DomainError::Infrastructure(message)) => {
                    assert!(message.contains("no such table"), "{}", message)
                }
                other => panic!("{:?}", other),
            }
        }
        assert!(matches!(
            repository.find_all().await,
            Err(DomainError::Infrastructure(_))
        ));
        assert!(matches!(
            repository.find_by_id(1).await,
            Err(DomainError::Infrastructure(_))
        ));
    });
}

#[test]
fn the_store_in_memory_and_sqlite_agree() {
    block_on(async {
        let sqlite = prepared_repository().await;
        let mut memory = InMemoryTodoRepository::new();

        let first = titled(0, "first");
        let second = Todo { id: 0, title: None };
        let third = titled(0, "third");
        for todo in [&first, &second, &third] {
            assert_eq!(sqlite.create(todo).await, memory.create(todo));
        }
        assert_eq!(sqlite.find_all().await, memory.find_all());

        let change = titled(2, "second");
        assert_eq!(sqlite.update(&change).await, memory.update(&change));
        let stray = titled(7, "stray");
        assert_eq!(sqlite.update(&stray).await, memory.update(&stray));
        assert_eq!(sqlite.find_all().await, memory.find_all());

        assert_eq!(sqlite.delete(3).await, memory.delete(3));
        assert_eq!(sqlite.delete(3).await, memory.delete(3));
        assert_eq!(sqlite.create(&third).await, memory.create(&third));
        assert_eq!(sqlite.find_all().await, memory.find_all());

        for id in [-1, 0, 1, 2, 3, 4, 5] {
            assert_eq!(sqlite.find_by_id(id).await, memory.find_by_id(id));
        }
    });
}

#[test]
fn rest_answers_over_sqlite() {
    block_on(async {
        let repository = prepared_repository().await;

        let listing = todos_response(listed(repository.find_all().await));
        assert_eq!(
            listing,
            (
                StatusCode::Success,
                TodosResponse {
                    todos: Some(vec![]),
                    error: None
                }
            )
        );

        let todo = Todo::try_from(CreateTodoDto {
            title: "task1".to_string(),
        })
        .unwrap();
        let stored = repository.create(&todo).await;
        assert_eq!(stored, Ok(1));
        assert_eq!(
            create_todo_response(created(todo, stored)),
            (
                StatusCode::Success,
                CreateTodoResponse {
                    todo: Some(RestTodo {
                        id: 1,
                        title: Some("task1".to_string())
                    }),
                    error: None
                }
            )
        );

        assert_eq!(
            todo_response(looked_up(repository.find_by_id(1).await)),
            (
                StatusCode::Success,
                TodoResponse {
                    todo: Some(RestTodo {
                        id: 1,
                        title: Some("task1".to_string())
                    }),
                    error: None
                }
            )
        );
        assert_eq!(
            todo_response(looked_up(repository.find_by_id(2).await)),
            (
                StatusCode::NotFound,
                TodoResponse {
                    todo: None,
                    error: Some(PresentationalError::NotFound)
                }
            )
        );

        let absent = todo_to_delete(looked_up(repository.find_by_id(2).await));
        assert_eq!(
            absent,
            Err((
                StatusCode::NotFound,
                DeleteTodoResponse {
                    todo: None,
                    error: Some(PresentationalError::NotFound)
                }
            ))
        );

        let found = todo_to_delete(looked_up(repository.find_by_id(1).await)).unwrap();
        let gone = removed(1, repository.delete(1).await);
        assert_eq!(
            delete_todo_response(found, gone),
            (
                StatusCode::Success,
                DeleteTodoResponse {
                    todo: Some(RestTodo {
                        id: 1,
                        title: Some("task1".to_string())
                    }),
                    error: None
                }
            )
        );
        assert_eq!(repository.find_all().await, Ok(vec![]));
    });
}

#[test]
fn rest_answers_500_where_sqlite_fails() {
    block_on(async {
        let pool = SqlitePoolOptions::new()
            .connect("sqlite::memory:")
            .await
            .unwrap();
        let repository = SqliteTodoRepository::new(pool);
        let search = todo_to_delete(looked_up(repository.find_by_id(1).await));
        assert_eq!(
            search,
            Err((
                StatusCode::InternalServerError,
                DeleteTodoResponse {
                    todo: None,
                    error: Some(PresentationalError::InternalServerError)
                }
            ))
        );
        let (status, body) = todos_response(listed(repository.find_all().await));
        assert_eq!(status, StatusCode::InternalServerError);
        assert_eq!(
            body,
            TodosResponse {
                todos: None,
                error: Some(PresentationalError::InternalServerError)
            }
        );
    });
}

#[test]
fn sqlite_hands_back_the_id_that_it_assigned() {
    block_on(async {
        let repository = prepared_repository().await;
        assert_eq!(repository.create(&titled(0, "first")).await, Ok(1));
        assert_eq!(repository.create(&titled(17, "second")).await, Ok(2));
        repository.delete(2).await.unwrap();
        assert_eq!(repository.create(&titled(0, "third")).await, Ok(3));
        assert_eq!(
            repository.find_by_id(3).await,
            Ok(Some(titled(3, "third")))
        );
        assert_eq!(
            repository.find_all().await,
            Ok(vec![titled(1, "first"), titled(3, "third")])
        );
    });
}
