//! The todo records and the checks on what a client sends.

use vstd::prelude::*;

use crate::error::AppError;
use crate::text::{is_white_space, lemma_trimmed_empty_iff_blank, trim, trimmed};

verus! {

/// `chrono::NaiveDateTime`, a date and time without a time zone, carried
/// through as it is: nothing here reads inside it.
#[verifier::external_type_specification]
#[verifier::external_body]
pub struct ExNaiveDateTime(chrono::NaiveDateTime);

/// The longest title accepted, in characters.
pub const MAX_TITLE_LEN: usize = 200;

/// A stored todo.
#[derive(Debug)]
pub struct Todo {
    pub id: i32,
    pub title: String,
    pub description: Option<String>,
    pub done: bool,
    pub created_at: chrono::NaiveDateTime,
    pub updated_at: chrono::NaiveDateTime,
}

/// What a client sends to create a todo.
#[derive(Debug)]
pub struct NewTodo {
    pub title: String,
    pub description: Option<String>,
}

/// What a client sends to replace a todo's fields.
#[derive(Debug)]
pub struct UpdateTodo {
    pub title: String,
    pub description: Option<String>,
    pub done: bool,
}

/// The window of the todo list that a client asks for.
#[derive(Debug, Clone, Copy, PartialEq, Eq, Structural)]
pub struct Pagination {
    pub limit: i64,
    pub offset: i64,
}

/// The columns that an update writes: the client's three fields and the
/// time of the update.
#[derive(Debug)]
pub struct TodoChanges {
    pub title: String,
    pub description: Option<String>,
    pub done: bool,
    pub updated_at: chrono::NaiveDateTime,
}

pub open spec fn empty_title_message() -> Seq<char> {
    "title must not be empty"@
}

pub open spec fn long_title_message() -> Seq<char> {
    "title must be at most 200 characters"@
}

pub open spec fn pagination_message() -> Seq<char> {
    "limit must be between 0 and 100, offset must be >= 0"@
}

/// Why a title is refused, if it is: it is blank (nothing but white space),
/// or it is longer than `MAX_TITLE_LEN` characters.
pub open spec fn title_problem(title: Seq<char>) -> Option<Seq<char>> {
    if trimmed(title).len() == 0 {
        Some(empty_title_message())
    } else if title.len() > MAX_TITLE_LEN {
        Some(long_title_message())
    } else {
        None
    }
}

/// `r` is the outcome of checking a title.
pub open spec fn title_checked(title: Seq<char>, r: Result<(), AppError>) -> bool {
    match title_problem(title) {
        None => r is Ok,
        Some(m) => r matches Err(AppError::Validation(v)) && v@ == m,
    }
}

/// `r` with its success value dropped.
pub open spec fn outcome<T>(r: Result<T, AppError>) -> Result<(), AppError> {
    match r {
        Ok(_) => Ok(()),
        Err(e) => Err(e),
    }
}

/// Whether a pagination window is accepted: a limit from 0 to 100 and an
/// offset that is not negative.
pub open spec fn pagination_ok(limit: i64, offset: i64) -> bool {
    0 <= limit <= 100 && offset >= 0
}

/// The title rule in plain terms: a title of nothing but white space is
/// refused as empty; any other title is refused as too long exactly when it
/// has more than 200 characters (white space counted), else accepted.
pub proof fn lemma_title_rule(title: Seq<char>)
    ensures
        (forall|i: int| 0 <= i < title.len() ==> is_white_space(#[trigger] title[i]))
            ==> title_problem(title) == Some(empty_title_message()),
        (exists|i: int| 0 <= i < title.len() && !is_white_space(#[trigger] title[i]))
            && title.len() > 200 ==> title_problem(title) == Some(long_title_message()),
        (exists|i: int| 0 <= i < title.len() && !is_white_space(#[trigger] title[i]))
            && title.len() <= 200 ==> title_problem(title) is None,
{
    lemma_trimmed_empty_iff_blank(title);
}

pub fn validate_title(title: &str) -> (r: Result<(), AppError>)
    ensures
        title_checked(title@, r),
        r is Ok <==> (title@.len() <= 200 && exists|i: int|
            0 <= i < title@.len() && !is_white_space(#[trigger] title@[i])),
        title@.len() > 200 ==> (r matches Err(AppError::Validation(m)) && (m@
            == long_title_message() || m@ == empty_title_message())),
{
    proof {
        lemma_title_rule(title@);
    }
    let stripped = trim(title);
    if stripped.as_str().is_empty() {
        return Err(AppError::Validation("title must not be empty".to_owned()));
    }
    if title.unicode_len() > MAX_TITLE_LEN {
        return Err(AppError::Validation("title must be at most 200 characters".to_owned()));
    }
    Ok(())
}

impl NewTodo {
    pub fn validate(&self) -> (r: Result<(), AppError>)
        ensures
            title_checked(self.title@, r),
    {
        validate_title(self.title.as_str())
    }
}

impl UpdateTodo {
    pub fn validate(&self) -> (r: Result<(), AppError>)
        ensures
            title_checked(self.title@, r),
    {
        validate_title(self.title.as_str())
    }

    /// The columns that this update writes, stamped with `now`.
    pub fn into_changes(self, now: chrono::NaiveDateTime) -> (r: TodoChanges)
        ensures
            r.title == self.title,
            r.description == self.description,
            r.done == self.done,
            r.updated_at == now,
    {
        TodoChanges {
            title: self.title,
            description: self.description,
            done: self.done,
            updated_at: now,
        }
    }
}

/// Which windows are accepted: every limit from 0 to 100 with every offset
/// from 0 on, and nothing else. Whether a window is accepted does not depend
/// on how far its offset goes: any page of an accepted size may be asked for.
pub proof fn lemma_window_rule(limit: i64, offset: i64, other_offset: i64)
    ensures
        pagination_ok(limit, offset) <==> (0 <= limit && limit <= 100 && 0 <= offset),
        0 <= offset && 0 <= other_offset ==> (pagination_ok(limit, offset) == pagination_ok(
            limit,
            other_offset,
        )),
{
}

/// The limit when a client gives none.
pub fn default_limit() -> (r: i64)
    ensures
        r == 20,
{
    20
}

/// The offset when a client gives none.
pub fn default_offset() -> (r: i64)
    ensures
        r == 0,
{
    0
}

impl Pagination {
    pub fn validate(&self) -> (r: Result<(), AppError>)
        ensures
            pagination_ok(self.limit, self.offset) <==> r is Ok,
            r is Ok <==> (0 <= self.limit && self.limit <= 100 && 0 <= self.offset),
            r matches Err(e) ==> e matches AppError::Validation(m) && m@ == pagination_message(),
    {
        if self.limit < 0 || self.limit > 100 || self.offset < 0 {
            return Err(
                AppError::Validation(
                    "limit must be between 0 and 100, offset must be >= 0".to_owned(),
                ),
            );
        }
        Ok(())
    }

    /// The pagination of a request, from what reading its query string gave:
    /// a query that could not be read is refused with the reader's message,
    /// a window out of bounds is refused as `validate` says.
    pub fn from_query(parsed: Result<Pagination, String>) -> (r: Result<Pagination, AppError>)
        ensures
            parsed matches Ok(p) ==> (r is Ok <==> (0 <= p.limit && p.limit <= 100 && 0
                <= p.offset)),
            match parsed {
                Err(msg) => r matches Err(AppError::Validation(m)) && m@ == msg@,
                Ok(p) => if pagination_ok(p.limit, p.offset) {
                    r == Ok::<Pagination, AppError>(p)
                } else {
                    r matches Err(AppError::Validation(m)) && m@ == pagination_message()
                },
            },
    {
        match parsed {
            Err(msg) => Err(AppError::Validation(msg)),
            Ok(pagination) => {
                match pagination.validate() {
                    Ok(()) => Ok(pagination),
                    Err(e) => Err(e),
                }
            },
        }
    }
}

} // verus!
