//! The service's errors, and what a client and the log see of each.

use vstd::prelude::*;

verus! {

/// What the service reads of a failed database query: whether it found no
/// row, and otherwise the error's text, which only the log sees.
#[derive(Debug)]
pub enum DbError {
    NotFound,
    Other(String),
}

/// An error that a request can end in.
#[derive(Debug)]
pub enum AppError {
    NotFound,
    Validation(String),
    Conflict(String),
    Database(DbError),
    Pool(String),
    Internal(String),
}

/// The JSON body of an error response.
#[derive(Debug)]
pub struct ErrorBody {
    pub error: String,
    pub message: String,
}

/// An HTTP status and the body that goes with it.
#[derive(Debug)]
pub struct ErrorResponse {
    pub status: u16,
    pub body: ErrorBody,
}

/// The level a log event is written at.
#[derive(Debug, Clone, Copy, PartialEq, Eq, Structural)]
pub enum LogLevel {
    Info,
    Warn,
    Error,
}

/// The name of the field that carries an event's detail. There is no
/// `message`: the log reserves that name for the event's own text.
#[derive(Debug, Clone, Copy, PartialEq, Eq, Structural)]
pub enum LogField {
    Reason,
    Error,
    Panic,
}

/// One log event: its level, its text, and one named detail.
#[derive(Debug)]
pub struct LogEvent {
    pub level: LogLevel,
    pub text: String,
    pub field: LogField,
    pub detail: String,
}

/// The kinds of response an error can give.
#[derive(Debug, Clone, Copy, PartialEq, Eq, Structural)]
pub enum ErrorClass {
    /// 404: the resource is not there.
    NotFound,
    /// 422: the request was refused as it stands.
    Validation,
    /// 409: the request clashes with the resource's state.
    Conflict,
    /// 500: something failed inside; the client learns nothing more.
    Internal,
}

pub open spec fn not_found_message() -> Seq<char> {
    "The requested resource was not found."@
}

pub open spec fn internal_message() -> Seq<char> {
    "An internal error occurred."@
}

impl DbError {
    /// The error's text, as the database library words it.
    pub open spec fn text_of(self) -> Seq<char> {
        match self {
            DbError::NotFound => "Record not found"@,
            DbError::Other(t) => t@,
        }
    }
}

impl AppError {
    /// The error's text, as the log and the operator see it.
    pub open spec fn text_of(self) -> Seq<char> {
        match self {
            AppError::NotFound => "not found"@,
            AppError::Validation(m) => "validation error: "@ + m@,
            AppError::Conflict(m) => "conflict: "@ + m@,
            AppError::Database(e) => e.text_of(),
            AppError::Pool(t) => "pool error: "@ + t@,
            AppError::Internal(t) => t@,
        }
    }

    /// The error's text (what its `Display` shows).
    pub fn describe(&self) -> (r: String)
        ensures
            r@ == self.text_of(),
    {
        match self {
            AppError::NotFound => "not found".to_owned(),
            AppError::Validation(m) => "validation error: ".to_owned().concat(m.as_str()),
            AppError::Conflict(m) => "conflict: ".to_owned().concat(m.as_str()),
            AppError::Database(DbError::NotFound) => "Record not found".to_owned(),
            AppError::Database(DbError::Other(t)) => t.clone(),
            AppError::Pool(t) => "pool error: ".to_owned().concat(t.as_str()),
            AppError::Internal(t) => t.clone(),
        }
    }

    /// Which kind of response `self` gives.
    pub open spec fn class(self) -> ErrorClass {
        match self {
            AppError::NotFound => ErrorClass::NotFound,
            AppError::Database(DbError::NotFound) => ErrorClass::NotFound,
            AppError::Validation(_) => ErrorClass::Validation,
            AppError::Conflict(_) => ErrorClass::Conflict,
            AppError::Database(DbError::Other(_)) => ErrorClass::Internal,
            AppError::Pool(_) => ErrorClass::Internal,
            AppError::Internal(_) => ErrorClass::Internal,
        }
    }

    /// The status code of the response.
    pub open spec fn status_of(self) -> u16 {
        match self.class() {
            ErrorClass::NotFound => 404,
            ErrorClass::Validation => 422,
            ErrorClass::Conflict => 409,
            ErrorClass::Internal => 500,
        }
    }

    /// The `error` field of the response body.
    pub open spec fn code_of(self) -> Seq<char> {
        match self.class() {
            ErrorClass::NotFound => "not_found"@,
            ErrorClass::Validation => "validation_error"@,
            ErrorClass::Conflict => "conflict"@,
            ErrorClass::Internal => "internal_error"@,
        }
    }

    /// The `message` field of the response body: the error's own message
    /// for a refused or conflicting request, a fixed text otherwise.
    pub open spec fn message_of(self) -> Seq<char> {
        match self {
            AppError::Validation(m) => m@,
            AppError::Conflict(m) => m@,
            _ => if self.class() == ErrorClass::NotFound {
                not_found_message()
            } else {
                internal_message()
            },
        }
    }

    /// The status and body that the client receives for `self`.
    pub fn response(&self) -> (r: ErrorResponse)
        ensures
            r.status == self.status_of(),
            r.body.error@ == self.code_of(),
            r.body.message@ == self.message_of(),
    {
        match self {
            AppError::NotFound | AppError::Database(DbError::NotFound) => ErrorResponse {
                status: 404,
                body: ErrorBody {
                    error: "not_found".to_owned(),
                    message: "The requested resource was not found.".to_owned(),
                },
            },
            AppError::Validation(message) => ErrorResponse {
                status: 422,
                body: ErrorBody { error: "validation_error".to_owned(), message: message.clone() },
            },
            AppError::Conflict(message) => ErrorResponse {
                status: 409,
                body: ErrorBody { error: "conflict".to_owned(), message: message.clone() },
            },
            AppError::Database(DbError::Other(_)) | AppError::Pool(_) | AppError::Internal(_) => {
                internal_error_response()
            },
        }
    }

    /// The log event that `self` is recorded by, if any: a refused request
    /// at info, a conflict at warn, an internal failure at error with its
    /// cause; a missing resource is not logged.
    pub fn log_event(&self) -> (r: Option<LogEvent>)
        ensures
            self.class() == ErrorClass::NotFound <==> r is None,
            r matches Some(ev) ==> match self {
                AppError::Validation(m) => ev.level == LogLevel::Info && ev.text@
                    == "validation error"@ && ev.field == LogField::Reason && ev.detail@ == m@,
                AppError::Conflict(m) => ev.level == LogLevel::Warn && ev.text@ == "conflict"@
                    && ev.field == LogField::Reason && ev.detail@ == m@,
                AppError::Database(DbError::Other(t)) => ev.level == LogLevel::Error && ev.text@
                    == "database error"@ && ev.field == LogField::Error && ev.detail@ == t@,
                AppError::Pool(t) => ev.level == LogLevel::Error && ev.text@ == "pool error"@
                    && ev.field == LogField::Error && ev.detail@ == t@,
                AppError::Internal(t) => ev.level == LogLevel::Error && ev.text@
                    == "internal error"@ && ev.field == LogField::Error && ev.detail@ == t@,
                _ => false,
            },
    {
        match self {
            AppError::NotFound | AppError::Database(DbError::NotFound) => None,
            AppError::Validation(m) => Some(
                LogEvent {
                    level: LogLevel::Info,
                    text: "validation error".to_owned(),
                    field: LogField::Reason,
                    detail: m.clone(),
                },
            ),
            AppError::Conflict(m) => Some(
                LogEvent {
                    level: LogLevel::Warn,
                    text: "conflict".to_owned(),
                    field: LogField::Reason,
                    detail: m.clone(),
                },
            ),
            AppError::Database(DbError::Other(t)) => Some(
                LogEvent {
                    level: LogLevel::Error,
                    text: "database error".to_owned(),
                    field: LogField::Error,
                    detail: t.clone(),
                },
            ),
            AppError::Pool(t) => Some(
                LogEvent {
                    level: LogLevel::Error,
                    text: "pool error".to_owned(),
                    field: LogField::Error,
                    detail: t.clone(),
                },
            ),
            AppError::Internal(t) => Some(
                LogEvent {
                    level: LogLevel::Error,
                    text: "internal error".to_owned(),
                    field: LogField::Error,
                    detail: t.clone(),
                },
            ),
        }
    }
}

/// Internal failures all look alike to a client: whatever the cause (a
/// database error, an unavailable pool, any other failure) and whatever its
/// text, the response is 500, `internal_error`, and the same fixed message.
pub proof fn lemma_internal_failures_look_alike(a: AppError, b: AppError)
    requires
        a.class() == ErrorClass::Internal,
        b.class() == ErrorClass::Internal,
    ensures
        a.status_of() == b.status_of() == 500,
        a.code_of() == b.code_of(),
        a.message_of() == b.message_of(),
        a.message_of() == internal_message(),
{
}

/// A missing todo answers alike whether a route found it missing or the
/// database query found no row: 404, `not_found`, a fixed message.
pub proof fn lemma_missing_resources_look_alike(a: AppError, b: AppError)
    requires
        a.class() == ErrorClass::NotFound,
        b.class() == ErrorClass::NotFound,
    ensures
        a.status_of() == b.status_of() == 404,
        a.code_of() == b.code_of(),
        a.message_of() == b.message_of(),
        a.message_of() == not_found_message(),
{
}

/// The status alone tells which kind of error a response reports, and each
/// kind has its own `error` code.
pub proof fn lemma_status_determines_class(a: AppError, b: AppError)
    ensures
        a.status_of() == b.status_of() <==> a.class() == b.class(),
        a.code_of() == b.code_of() <==> a.class() == b.class(),
{
    reveal_strlit("not_found");
    reveal_strlit("validation_error");
    reveal_strlit("conflict");
    reveal_strlit("internal_error");
    assert("not_found"@.len() == 9);
    assert("validation_error"@.len() == 16);
    assert("conflict"@.len() == 8);
    assert("internal_error"@.len() == 14);
}

/// The response for a failure inside the service: 500, `internal_error`,
/// and a fixed message that tells the client nothing of the cause.
pub fn internal_error_response() -> (r: ErrorResponse)
    ensures
        r.status == 500,
        r.body.error@ == "internal_error"@,
        r.body.message@ == internal_message(),
{
    ErrorResponse {
        status: 500,
        body: ErrorBody {
            error: "internal_error".to_owned(),
            message: "An internal error occurred.".to_owned(),
        },
    }
}

} // verus!
