use rust_web_starter::error::{AppError, DbError, LogField, LogLevel};
use rust_web_starter::health::{healthz, readyz};
use rust_web_starter::telemetry::{panic_details, panic_event, panic_response};

#[test]
fn missing_todo_answers_404_with_error_body() {
    let response = AppError::Database(DbError::NotFound).response();
    assert_eq!(response.status, 404);
    assert_eq!(response.body.error, "not_found");
    assert!(!response.body.message.is_empty());
    assert_eq!(response.body.message, "The requested resource was not found.");
}

#[test]
fn route_not_found_answers_like_missing_row() {
    let a = AppError::NotFound.response();
    let b = AppError::Database(DbError::NotFound).response();
    assert_eq!(a.status, b.status);
    assert_eq!(a.body.error, b.body.error);
    assert_eq!(a.body.message, b.body.message);
}

#[test]
fn validation_error_answers_422_with_its_message() {
    let response = AppError::Validation("title must not be empty".to_string()).response();
    assert_eq!(response.status, 422);
    assert_eq!(response.body.error, "validation_error");
    assert_eq!(response.body.message, "title must not be empty");
}

#[test]
fn conflict_answers_409_with_its_message() {
    let response = AppError::Conflict("already exists".to_string()).response();
    assert_eq!(response.status, 409);
    assert_eq!(response.body.error, "conflict");
    assert_eq!(response.body.message, "already exists");
}

#[test]
fn internal_failures_never_leak_their_cause() {
    let causes = [
        AppError::Database(DbError::Other("no such table: todos".to_string())),
        AppError::Pool("timed out".to_string()),
        AppError::Internal("disk full".to_string()),
    ];
    for cause in causes.iter() {
        let response = cause.response();
        assert_eq!(response.status, 500);
        assert_eq!(response.body.error, "internal_error");
        assert_eq!(response.body.message, "An internal error occurred.");
    }
}

#[test]
fn log_events_follow_the_error_kind() {
    assert!(AppError::NotFound.log_event().is_none());
    assert!(AppError::Database(DbError::NotFound).log_event().is_none());

    let ev = AppError::Validation("bad".to_string()).log_event().unwrap();
    assert_eq!(ev.level, LogLevel::Info);
    assert_eq!(ev.text, "validation error");
    assert_eq!(ev.field, LogField::Reason);
    assert_eq!(ev.detail, "bad");

    let ev = AppError::Conflict("clash".to_string()).log_event().unwrap();
    assert_eq!(ev.level, LogLevel::Warn);
    assert_eq!(ev.text, "conflict");
    assert_eq!(ev.field, LogField::Reason);

    let ev = AppError::Database(DbError::Other("locked".to_string())).log_event().unwrap();
    assert_eq!(ev.level, LogLevel::Error);
    assert_eq!(ev.text, "database error");
    assert_eq!(ev.field, LogField::Error);
    assert_eq!(ev.detail, "locked");

    let ev = AppError::Pool("timed out".to_string()).log_event().unwrap();
    assert_eq!(ev.text, "pool error");
    assert_eq!(ev.detail, "timed out");

    let ev = AppError::Internal("boom".to_string()).log_event().unwrap();
    assert_eq!(ev.text, "internal error");
    assert_eq!(ev.detail, "boom");
}

#[test]
fn error_texts_match_their_display() {
    assert_eq!(AppError::NotFound.describe(), "not found");
    assert_eq!(AppError::Validation("x".to_string()).describe(), "validation error: x");
    assert_eq!(AppError::Conflict("y".to_string()).describe(), "conflict: y");
    assert_eq!(AppError::Database(DbError::NotFound).describe(), "Record not found");
    assert_eq!(AppError::Database(DbError::Other("z".to_string())).describe(), "z");
    assert_eq!(AppError::Pool("p".to_string()).describe(), "pool error: p");
    assert_eq!(AppError::Internal("i".to_string()).describe(), "i");
}

#[test]
fn healthz_answers_ok_without_the_database() {
    let response = healthz();
    assert_eq!(response.status, 200);
    assert_eq!(response.body.status(), "ok");
    assert!(response.warning.is_none());
}

#[test]
fn readyz_answers_ready_when_the_database_answers() {
    let response = readyz(Ok(()));
    assert_eq!(response.status, 200);
    assert_eq!(response.body.status(), "ready");
    assert!(response.warning.is_none());
}

#[test]
fn readyz_answers_degraded_when_the_database_fails() {
    let response = readyz(Err(AppError::Pool("connection refused".to_string())));
    assert_eq!(response.status, 503);
    assert_eq!(response.body.status(), "degraded");
    let warning = response.warning.unwrap();
    assert_eq!(warning.level, LogLevel::Warn);
    assert_eq!(warning.text, "readyz check failed");
    assert_eq!(warning.field, LogField::Error);
    assert_eq!(warning.detail, "pool error: connection refused");
}

#[test]
fn panicking_handler_answers_the_standard_500() {
    let response = panic_response();
    assert_eq!(response.status, 500);
    assert_eq!(response.body.error, "internal_error");
    assert_eq!(response.body.message, "An internal error occurred.");
}

#[test]
fn panic_details_prefer_str_then_string() {
    let owned = "from string".to_string();
    assert_eq!(panic_details(Some("handler exploded"), Some(&owned)), "handler exploded");
    assert_eq!(panic_details(None, Some(&owned)), "from string");
    assert_eq!(panic_details(None, None), "unknown panic");
}

#[test]
fn panic_is_logged_at_error_level() {
    let ev = panic_event("handler exploded".to_string());
    assert_eq!(ev.level, LogLevel::Error);
    assert_eq!(ev.text, "handler panicked");
    assert_eq!(ev.field, LogField::Panic);
    assert_eq!(ev.detail, "handler exploded");
}
