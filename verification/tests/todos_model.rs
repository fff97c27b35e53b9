use rust_web_starter::error::AppError;
use rust_web_starter::todos::model::{
    default_limit, default_offset, validate_title, NewTodo, Pagination, UpdateTodo, MAX_TITLE_LEN,
};
use rust_web_starter::todos::repo;

fn validation_message(r: Result<(), AppError>) -> String {
    match r {
        Err(AppError::Validation(m)) => m,
        other => panic!("expected a validation error, got {:?}", other),
    }
}

#[test]
fn empty_title_is_refused_with_422() {
    let todo = NewTodo { title: "".to_string(), description: None };
    let err = todo.validate().unwrap_err();
    assert_eq!(err.response().status, 422);
    assert_eq!(validation_message(Err(err)), "title must not be empty");
}

#[test]
fn blank_title_is_refused() {
    assert_eq!(validation_message(validate_title(" \t\n\u{3000} ")), "title must not be empty");
}

#[test]
fn title_over_200_chars_is_refused_with_422() {
    let todo = NewTodo { title: "a".repeat(201), description: None };
    let err = todo.validate().unwrap_err();
    assert_eq!(err.response().status, 422);
    assert_eq!(validation_message(Err(err)), "title must be at most 200 characters");
}

#[test]
fn title_of_exactly_200_chars_is_accepted() {
    assert_eq!(MAX_TITLE_LEN, 200);
    assert!(validate_title(&"a".repeat(200)).is_ok());
    assert!(validate_title(&" a ".repeat(66)).is_ok());
}

#[test]
fn title_length_counts_characters() {
    // two bytes of UTF-8 each, one character each
    assert!(validate_title(&"é".repeat(101)).is_ok());
    assert!(validate_title(&"é".repeat(150)).is_ok());
    assert!(validate_title(&"é".repeat(200)).is_ok());
    assert_eq!(
        validation_message(validate_title(&"é".repeat(201))),
        "title must be at most 200 characters"
    );
}

#[test]
fn update_checks_titles_like_create() {
    let update = UpdateTodo { title: "  ".to_string(), description: None, done: true };
    assert_eq!(validation_message(update.validate()), "title must not be empty");
    let update = UpdateTodo { title: "write tests".to_string(), description: None, done: true };
    assert!(update.validate().is_ok());
}

#[test]
fn default_window_is_accepted() {
    assert_eq!(default_limit(), 20);
    assert_eq!(default_offset(), 0);
    let p = Pagination { limit: default_limit(), offset: default_offset() };
    assert!(p.validate().is_ok());
}

#[test]
fn limit_over_100_is_refused_with_422() {
    let r = Pagination::from_query(Ok(Pagination { limit: 500, offset: 0 }));
    let err = r.unwrap_err();
    assert_eq!(err.response().status, 422);
    match err {
        AppError::Validation(m) => {
            assert_eq!(m, "limit must be between 0 and 100, offset must be >= 0")
        }
        other => panic!("unexpected {:?}", other),
    }
}

#[test]
fn negative_offset_is_refused_with_422() {
    let r = Pagination::from_query(Ok(Pagination { limit: 20, offset: -1 }));
    assert_eq!(r.unwrap_err().response().status, 422);
}

#[test]
fn negative_limit_is_refused() {
    assert!(Pagination { limit: -1, offset: 0 }.validate().is_err());
}

#[test]
fn window_bounds_are_inclusive() {
    assert!(Pagination { limit: 0, offset: 0 }.validate().is_ok());
    assert!(Pagination { limit: 100, offset: 0 }.validate().is_ok());
    assert!(Pagination { limit: 1, offset: 0 }.validate().is_ok());
    assert!(Pagination { limit: 101, offset: 0 }.validate().is_err());
}

#[test]
fn unreadable_query_is_refused_with_the_readers_message() {
    let r = Pagination::from_query(Err("invalid digit found in string".to_string()));
    match r {
        Err(AppError::Validation(m)) => assert_eq!(m, "invalid digit found in string"),
        other => panic!("unexpected {:?}", other),
    }
}

#[test]
fn accepted_query_is_passed_through() {
    let p = Pagination { limit: 100, offset: 0 };
    assert_eq!(Pagination::from_query(Ok(p)).unwrap(), p);
}

#[test]
fn create_passes_a_valid_todo_on_unchanged() {
    let todo = NewTodo {
        title: "write tests".to_string(),
        description: Some("cover the api".to_string()),
    };
    let row = repo::create(todo).unwrap();
    assert_eq!(row.title, "write tests");
    assert_eq!(row.description.as_deref(), Some("cover the api"));
}

#[test]
fn create_refuses_before_the_database() {
    let todo = NewTodo { title: "".to_string(), description: None };
    assert!(matches!(repo::create(todo), Err(AppError::Validation(_))));
}

#[test]
fn update_writes_the_clients_fields() {
    let payload = UpdateTodo {
        title: "write more tests".to_string(),
        description: None,
        done: true,
    };
    let accepted = repo::update(payload).unwrap();
    assert_eq!(accepted.title, "write more tests");
    let changes = repo::changes_now(accepted).unwrap();
    assert_eq!(changes.title, "write more tests");
    assert_eq!(changes.description, None);
    assert!(changes.done);
}

#[test]
fn clock_before_1970_is_an_internal_error() {
    match repo::time_from_reading(None) {
        Err(AppError::Internal(m)) => assert_eq!(m, "system time before Unix epoch"),
        other => panic!("unexpected {:?}", other),
    }
    let err = repo::time_from_reading(None).unwrap_err();
    assert_eq!(err.response().status, 500);
}

#[test]
fn clock_beyond_any_timestamp_is_an_internal_error() {
    match repo::time_from_reading(Some((u64::MAX, 0))) {
        Err(AppError::Internal(m)) => assert_eq!(m, "system time out of range"),
        other => panic!("unexpected {:?}", other),
    }
    match repo::time_from_reading(Some((i64::MAX as u64, 0))) {
        Err(AppError::Internal(m)) => assert_eq!(m, "system time out of range"),
        other => panic!("unexpected {:?}", other),
    }
}

#[test]
fn usable_clock_readings_give_that_time() {
    let epoch = repo::time_from_reading(Some((0, 0))).unwrap();
    assert_eq!(epoch.to_string(), "1970-01-01 00:00:00");
    let later = repo::time_from_reading(Some((1_700_000_000, 5))).unwrap();
    assert_eq!(later.to_string(), "2023-11-14 22:13:20.000000005");
    assert!(repo::utc_now().unwrap() > later);
}

#[test]
fn update_refuses_a_long_title() {
    let payload = UpdateTodo { title: "x".repeat(201), description: None, done: false };
    assert!(matches!(repo::update(payload), Err(AppError::Validation(_))));
}

#[test]
fn deleting_nothing_is_not_found() {
    assert!(repo::delete(1).is_ok());
    let err = repo::delete(0).unwrap_err();
    assert!(matches!(err, AppError::NotFound));
    assert_eq!(err.response().status, 404);
}

#[test]
fn changes_carry_the_time_of_the_reading() {
    let payload = UpdateTodo { title: "t".to_string(), description: Some("d".to_string()), done: false };
    let c = repo::changes_at(payload, Some((86_400, 0))).unwrap();
    assert_eq!(c.updated_at.to_string(), "1970-01-02 00:00:00");
    assert_eq!(c.title, "t");
    assert_eq!(c.description.as_deref(), Some("d"));
    assert!(!c.done);
    let payload = UpdateTodo { title: "t".to_string(), description: None, done: true };
    match repo::changes_at(payload, None) {
        Err(AppError::Internal(m)) => assert_eq!(m, "system time before Unix epoch"),
        other => panic!("unexpected {:?}", other),
    }
}
