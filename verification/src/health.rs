//! Liveness and readiness answers.

use vstd::prelude::*;

use crate::error::{AppError, LogEvent, LogField, LogLevel};

verus! {

/// The JSON body of a health answer.
#[derive(Debug)]
pub struct HealthBody {
    status: &'static str,
}

impl HealthBody {
    /// The status that the body reports.
    pub closed spec fn status_text(&self) -> Seq<char> {
        self.status@
    }

    pub fn status(&self) -> (r: &'static str)
        ensures
            r@ == self.status_text(),
    {
        self.status
    }
}

/// A health answer: the HTTP status, the body, and the event to log with
/// it, if any.
#[derive(Debug)]
pub struct HealthResponse {
    pub status: u16,
    pub body: HealthBody,
    pub warning: Option<LogEvent>,
}

/// The liveness answer: always 200 and `ok`, whatever the database's state.
pub fn healthz() -> (r: HealthResponse)
    ensures
        r.status == 200,
        r.body.status_text() == "ok"@,
        r.warning is None,
{
    HealthResponse { status: 200, body: HealthBody { status: "ok" }, warning: None }
}

/// The readiness answer, from the outcome of pinging the database: 200 and
/// `ready` when it answered; otherwise 503 and `degraded`, with the cause
/// logged at warn level (the service is asking to be taken out of rotation,
/// which must show at the default level).
pub fn readyz(ping: Result<(), AppError>) -> (r: HealthResponse)
    ensures
        ping is Ok ==> r.status == 200 && r.body.status_text() == "ready"@ && r.warning is None,
        ping matches Err(e) ==> (r.status == 503 && r.body.status_text() == "degraded"@
            && (r.warning matches Some(w) && w.level == LogLevel::Warn && w.text@
            == "readyz check failed"@ && w.field == LogField::Error && w.detail@
            == e.text_of())),
{
    match ping {
        Ok(()) => HealthResponse { status: 200, body: HealthBody { status: "ready" }, warning: None },
        Err(err) => HealthResponse {
            status: 503,
            body: HealthBody { status: "degraded" },
            warning: Some(
                LogEvent {
                    level: LogLevel::Warn,
                    text: "readyz check failed".to_owned(),
                    field: LogField::Error,
                    detail: err.describe(),
                },
            ),
        },
    }
}

} // verus!
