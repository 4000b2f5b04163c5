use todo_service::domain::entity::todo::Todo;
use todo_service::domain::error::DomainError;
use todo_service::presentation::error::PresentationalError;
use todo_service::use_case::dto::todo::{CreateTodoDto, TodoDto};
use todo_service::use_case::error::UseCaseError;
use todo_service::use_case::interactor::todo::{
    created, listed, looked_up, persisted, removed,
};

#[test]
fn domain_errors_become_use_case_errors() {
    assert_eq!(
        UseCaseError::from(DomainError::Validation("bad title".to_string())),
        UseCaseError::Validation("bad title".to_string())
    );
    assert_eq!(
        UseCaseError::from(DomainError::NotFound {
            entity_type: "todo".to_string(),
            entity_id: 7
        }),
        UseCaseError::NotFound {
            entity_type: "todo".to_string(),
            entity_id: 7
        }
    );
    assert_eq!(
        UseCaseError::from(DomainError::Infrastructure("pool closed".to_string())),
        UseCaseError::Other("pool closed".to_string())
    );
    assert_eq!(
        UseCaseError::from(DomainError::Unexpected("odd".to_string())),
        UseCaseError::Unexpected("odd".to_string())
    );
}

#[test]
fn use_case_errors_become_presentational_errors() {
    assert_eq!(
        PresentationalError::from(UseCaseError::NotFound {
            entity_type: "todo".to_string(),
            entity_id: 7
        }),
        PresentationalError::NotFound
    );
    assert_eq!(
        PresentationalError::from(UseCaseError::Validation("bad".to_string())),
        PresentationalError::InternalServerError
    );
    assert_eq!(
        PresentationalError::from(UseCaseError::Other("gone".to_string())),
        PresentationalError::InternalServerError
    );
    assert_eq!(
        PresentationalError::from(UseCaseError::Unexpected("odd".to_string())),
        PresentationalError::InternalServerError
    );
}

#[test]
fn presentational_errors_are_shown_by_their_text() {
    assert_eq!(PresentationalError::NotFound.to_string(), "Not Found");
    assert_eq!(
        PresentationalError::InternalServerError.to_string(),
        "Internal Server Error"
    );
}

#[test]
fn a_todo_to_create_is_not_yet_persisted() {
    let todo = Todo::try_from(CreateTodoDto {
        title: "task1".to_string(),
    });
    assert_eq!(
        todo,
        Ok(Todo {
            id: 0,
            title: Some("task1".to_string())
        })
    );
    let empty = Todo::try_from(CreateTodoDto {
        title: String::new(),
    });
    assert_eq!(
        empty,
        Ok(Todo {
            id: 0,
            title: Some(String::new())
        })
    );
}

#[test]
fn transfer_objects_and_todos_carry_the_same() {
    let todo = Todo::try_from(TodoDto {
        id: 5,
        title: Some("task5".to_string()),
    });
    assert_eq!(
        todo,
        Ok(Todo {
            id: 5,
            title: Some("task5".to_string())
        })
    );
    assert_eq!(
        TodoDto::from(Todo { id: 6, title: None }),
        TodoDto { id: 6, title: None }
    );
    let dto = TodoDto {
        id: 5,
        title: Some("task5".to_string()),
    };
    assert_eq!(dto.clone(), dto);
    let create = CreateTodoDto {
        title: "task".to_string(),
    };
    assert_eq!(create.clone(), create);
}

#[test]
fn use_cases_answer_for_each_outcome_of_the_repository() {
    let todo = || Todo {
        id: 2,
        title: Some("task2".to_string()),
    };
    let dto = || TodoDto {
        id: 2,
        title: Some("task2".to_string()),
    };
    let gone = || DomainError::Infrastructure("gone".to_string());
    let other = || UseCaseError::Other("gone".to_string());

    let unsaved = || Todo {
        id: 0,
        title: Some("task2".to_string()),
    };
    assert_eq!(created(unsaved(), Ok(2)), Ok(dto()));
    assert_eq!(
        created(unsaved(), Ok(7)),
        Ok(TodoDto {
            id: 7,
            title: Some("task2".to_string())
        })
    );
    assert_eq!(created(unsaved(), Err(gone())), Err(other()));

    assert_eq!(persisted(todo(), Ok(())), Ok(dto()));
    assert_eq!(persisted(todo(), Err(gone())), Err(other()));

    assert_eq!(removed(2, Ok(())), Ok(2));
    assert_eq!(removed(2, Err(gone())), Err(other()));

    assert_eq!(
        listed(Ok(vec![todo(), Todo { id: 3, title: None }])),
        Ok(vec![dto(), TodoDto { id: 3, title: None }])
    );
    assert_eq!(listed(Ok(vec![])), Ok(vec![]));
    assert_eq!(listed(Err(gone())), Err(other()));

    assert_eq!(looked_up(Ok(Some(todo()))), Ok(Some(dto())));
    assert_eq!(looked_up(Ok(None)), Ok(None));
    assert_eq!(looked_up(Err(gone())), Err(other()));
}
