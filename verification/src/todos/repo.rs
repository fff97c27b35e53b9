//! What each todo operation decides around its database query.

use vstd::prelude::*;

use crate::error::AppError;
use crate::todos::model::{outcome, title_checked, NewTodo, TodoChanges, UpdateTodo};

verus! {

/// `std::time::SystemTime`, a reading of the system clock, carried through
/// as it is.
#[verifier::external_type_specification]
#[verifier::external_body]
pub struct ExSystemTime(std::time::SystemTime);

/// `std::time::SystemTime::now()`: the system clock's reading. Nothing is
/// claimed of the value.
#[verifier::external_body]
fn system_now() -> (r: std::time::SystemTime) {
    std::time::SystemTime::now()
}

/// `SystemTime::duration_since(UNIX_EPOCH)`: how long after 1970-01-01
/// `t` lies, as whole seconds and the nanoseconds past them; `None` when
/// `t` lies before. Claimed: the nanoseconds are below one billion, as
/// `Duration::subsec_nanos` documents.
#[verifier::external_body]
fn since_unix_epoch(t: &std::time::SystemTime) -> (r: Option<(u64, u32)>)
    ensures
        r matches Some(d) ==> d.1 < 1_000_000_000,
{
    match t.duration_since(std::time::UNIX_EPOCH) {
        Ok(d) => Some((d.as_secs(), d.subsec_nanos())),
        Err(_) => None,
    }
}

/// What `chrono::DateTime::<Utc>::from_timestamp(secs, nanos)` gives,
/// taken as a `NaiveDateTime`: the UTC date and time `secs` seconds and
/// `nanos` nanoseconds after 1970-01-01, or `None` where chrono cannot hold
/// it.
pub uninterp spec fn utc_timestamp(secs: i64, nanos: u32) -> Option<chrono::NaiveDateTime>;

/// `chrono::DateTime::<Utc>::from_timestamp(secs, nanos)`, taken as a
/// `NaiveDateTime` by `naive_utc`. Claimed: the result is
/// `utc_timestamp(secs, nanos)`, which depends on the two arguments alone.
#[verifier::external_body]
fn utc_from_timestamp(secs: i64, nanos: u32) -> (r: Option<chrono::NaiveDateTime>)
    ensures
        r == utc_timestamp(secs, nanos),
{
    match chrono::DateTime::from_timestamp(secs, nanos) {
        Some(t) => Some(t.naive_utc()),
        None => None,
    }
}

/// Whether a clock reading, as seconds and nanoseconds after 1970-01-01
/// (`None` for a reading before it), gives a usable time.
pub open spec fn reading_usable(reading: Option<(u64, u32)>) -> bool {
    match reading {
        None => false,
        Some((secs, nanos)) => secs <= i64::MAX && utc_timestamp(secs as i64, nanos) is Some,
    }
}

/// Whether `t` is the UTC time of some reading of a clock: whole seconds
/// since 1970 and fewer than a billion nanoseconds past them.
pub open spec fn clock_time(t: chrono::NaiveDateTime) -> bool {
    exists|s: i64, n: u32|
        0 <= s && n < 1_000_000_000 && #[trigger] utc_timestamp(s, n) == Some(t)
}

/// The time that a clock reading gives: the UTC time that many seconds and
/// nanoseconds after 1970; an internal error when the clock read before
/// 1970, or later than a timestamp can hold.
pub fn time_from_reading(reading: Option<(u64, u32)>) -> (r: Result<
    chrono::NaiveDateTime,
    AppError,
>)
    ensures
        r is Ok <==> reading_usable(reading),
        r matches Ok(t) ==> (reading matches Some(d) && d.0 <= i64::MAX && Some(t)
            == utc_timestamp(d.0 as i64, d.1)),
        reading is None ==> (r matches Err(AppError::Internal(m)) && m@
            == "system time before Unix epoch"@),
        reading is Some && !reading_usable(reading) ==> (r matches Err(AppError::Internal(m))
            && m@ == "system time out of range"@),
{
    match reading {
        None => Err(AppError::Internal("system time before Unix epoch".to_owned())),
        Some((secs, nanos)) => {
            if secs > i64::MAX as u64 {
                return Err(AppError::Internal("system time out of range".to_owned()));
            }
            match utc_from_timestamp(secs as i64, nanos) {
                Some(now) => Ok(now),
                None => Err(AppError::Internal("system time out of range".to_owned())),
            }
        },
    }
}

/// The current time in UTC, from the system clock; an internal error when
/// the reading is not usable.
pub fn utc_now() -> (r: Result<chrono::NaiveDateTime, AppError>)
    ensures
        r matches Ok(t) ==> clock_time(t),
        r matches Err(e) ==> e is Internal,
{
    let reading = since_unix_epoch(&system_now());
    let r = time_from_reading(reading);
    proof {
        if let Ok(t) = r {
            let d = reading.unwrap();
            assert(utc_timestamp(d.0 as i64, d.1) == Some(t));
        }
    }
    r
}

/// The row to insert for a create request: the request itself, once its
/// title passes; a refused title ends the request before the database.
pub fn create(new_todo: NewTodo) -> (r: Result<NewTodo, AppError>)
    ensures
        title_checked(new_todo.title@, outcome(r)),
        r matches Ok(t) ==> t == new_todo,
{
    match new_todo.validate() {
        Ok(()) => Ok(new_todo),
        Err(e) => Err(e),
    }
}

/// The update request to carry out: the request itself, once its title
/// passes; a refused title ends the request before the database.
pub fn update(payload: UpdateTodo) -> (r: Result<UpdateTodo, AppError>)
    ensures
        title_checked(payload.title@, outcome(r)),
        r matches Ok(p) ==> p == payload,
{
    match payload.validate() {
        Ok(()) => Ok(payload),
        Err(e) => Err(e),
    }
}

/// The columns that an accepted update writes for a given clock reading:
/// the client's fields and the UTC time of that reading; the internal error
/// of `time_from_reading` when the reading gives no usable time.
pub fn changes_at(payload: UpdateTodo, reading: Option<(u64, u32)>) -> (r: Result<
    TodoChanges,
    AppError,
>)
    ensures
        r is Ok <==> reading_usable(reading),
        r matches Ok(c) ==> {
            &&& c.title == payload.title
            &&& c.description == payload.description
            &&& c.done == payload.done
            &&& reading matches Some(d) && d.0 <= i64::MAX && Some(c.updated_at) == utc_timestamp(
                d.0 as i64,
                d.1,
            )
        },
        reading is None ==> (r matches Err(AppError::Internal(m)) && m@
            == "system time before Unix epoch"@),
        reading is Some && !reading_usable(reading) ==> (r matches Err(AppError::Internal(m))
            && m@ == "system time out of range"@),
{
    match time_from_reading(reading) {
        Ok(now) => Ok(payload.into_changes(now)),
        Err(e) => Err(e),
    }
}

/// The columns that an accepted update writes: the client's fields and the
/// current time, read from the system clock. When the clock gives no usable
/// time the update fails with an internal error (a 500 for the client).
pub fn changes_now(payload: UpdateTodo) -> (r: Result<TodoChanges, AppError>)
    ensures
        r matches Ok(c) ==> c.title == payload.title && c.description == payload.description
            && c.done == payload.done && clock_time(c.updated_at),
        r matches Err(e) ==> e is Internal,
{
    let reading = since_unix_epoch(&system_now());
    let r = changes_at(payload, reading);
    proof {
        if r is Ok {
            let d = reading.unwrap();
            assert(utc_timestamp(d.0 as i64, d.1) == Some(r->Ok_0.updated_at));
        }
    }
    r
}

/// The outcome of a delete from the number of rows it removed: none means
/// that there was no such todo.
pub fn delete(affected: usize) -> (r: Result<(), AppError>)
    ensures
        affected == 0 <==> r is Err,
        r matches Err(e) ==> e is NotFound,
{
    if affected == 0 {
        return Err(AppError::NotFound);
    }
    Ok(())
}

} // verus!
