//! What can go wrong, in the terms of the application.

use crate::text::{join2, same_text};
use vstd::prelude::*;

verus! {

#[derive(Clone, Debug)]
pub enum DomainError {
    Validation(String),
    NotFound(String),
    AlreadyExists(String),
    Internal(String),
    Unauthorized(String),
    BadRequest(String),
    Conflict(String),
}

pub type DomainResult<T> = Result<T, DomainError>;

/// What the database layer reports, as far as it matters here.
pub enum DatabaseError {
    RowNotFound,
    /// The database refused a statement, with its SQLSTATE code if it gave one.
    Database(Option<String>),
    PoolTimedOut,
    /// Any other failure.
    Other,
}

/// An error whose type is only known at run time.
pub enum BoxedError {
    Database(DatabaseError),
    Other,
}

/// The kinds of [`DomainError`].
#[derive(Clone, Copy, Debug, PartialEq, Eq, Structural)]
pub enum ErrorKind {
    Validation,
    NotFound,
    AlreadyExists,
    Internal,
    Unauthorized,
    BadRequest,
    Conflict,
}

/// The kind of an error and its detail.
pub struct DomainErrorView {
    pub kind: ErrorKind,
    pub detail: Seq<char>,
}

impl View for DomainError {
    type V = DomainErrorView;

    open spec fn view(&self) -> DomainErrorView {
        match self {
            DomainError::Validation(s) => DomainErrorView { kind: ErrorKind::Validation, detail: s@ },
            DomainError::NotFound(s) => DomainErrorView { kind: ErrorKind::NotFound, detail: s@ },
            DomainError::AlreadyExists(s) => DomainErrorView {
                kind: ErrorKind::AlreadyExists,
                detail: s@,
            },
            DomainError::Internal(s) => DomainErrorView { kind: ErrorKind::Internal, detail: s@ },
            DomainError::Unauthorized(s) => DomainErrorView {
                kind: ErrorKind::Unauthorized,
                detail: s@,
            },
            DomainError::BadRequest(s) => DomainErrorView { kind: ErrorKind::BadRequest, detail: s@ },
            DomainError::Conflict(s) => DomainErrorView { kind: ErrorKind::Conflict, detail: s@ },
        }
    }
}

/// An error of some kind with some detail.
pub open spec fn domain_error(kind: ErrorKind, detail: Seq<char>) -> DomainErrorView {
    DomainErrorView { kind, detail }
}

/// What a failure of the database means to the application: a missing row, a duplicate, a broken
/// reference or check, a busy pool, or something that is not told to the client.
pub open spec fn meaning_of(e: DatabaseError) -> DomainErrorView {
    match e {
        DatabaseError::RowNotFound => domain_error(ErrorKind::NotFound, "Resource not found"@),
        DatabaseError::Database(code) => if code is Some && code->0@ == "23505"@ {
            domain_error(ErrorKind::AlreadyExists, "Resource already exists"@)
        } else if code is Some && code->0@ == "23503"@ {
            domain_error(ErrorKind::Validation, "Referenced resource not found"@)
        } else if code is Some && code->0@ == "23514"@ {
            domain_error(ErrorKind::Validation, "Validation constraint failed"@)
        } else {
            domain_error(ErrorKind::Internal, "Database operation failed"@)
        },
        DatabaseError::PoolTimedOut => domain_error(
            ErrorKind::Internal,
            "Service temporarily unavailable"@,
        ),
        DatabaseError::Other => domain_error(ErrorKind::Internal, "An unexpected error occurred"@),
    }
}

/// What stands before the detail when an error of some kind is printed.
pub open spec fn error_label(kind: ErrorKind) -> Seq<char> {
    match kind {
        ErrorKind::Validation => "Validation error: "@,
        ErrorKind::NotFound => "Not found: "@,
        ErrorKind::AlreadyExists => "Already exists: "@,
        ErrorKind::Internal => "Internal error: "@,
        ErrorKind::Unauthorized => "Unauthorized: "@,
        ErrorKind::BadRequest => "Bad request: "@,
        ErrorKind::Conflict => "Conflict: "@,
    }
}

/// An error as one line of text.
pub open spec fn error_message(e: DomainErrorView) -> Seq<char> {
    error_label(e.kind) + e.detail
}

impl DomainError {
    /// Puts a failure of the database into the terms of the application.
    pub fn from_sqlx(e: DatabaseError) -> (r: DomainError)
        ensures
            r@ == meaning_of(e),
    {
        match e {
            DatabaseError::RowNotFound => DomainError::NotFound("Resource not found".to_owned()),
            DatabaseError::Database(Some(code)) => if same_text(code.as_str(), "23505") {
                DomainError::AlreadyExists("Resource already exists".to_owned())
            } else if same_text(code.as_str(), "23503") {
                DomainError::Validation("Referenced resource not found".to_owned())
            } else if same_text(code.as_str(), "23514") {
                DomainError::Validation("Validation constraint failed".to_owned())
            } else {
                DomainError::Internal("Database operation failed".to_owned())
            },
            DatabaseError::Database(None) => DomainError::Internal(
                "Database operation failed".to_owned(),
            ),
            DatabaseError::PoolTimedOut => DomainError::Internal(
                "Service temporarily unavailable".to_owned(),
            ),
            DatabaseError::Other => DomainError::Internal("An unexpected error occurred".to_owned()),
        }
    }

    /// Puts an error of unknown type into the terms of the application.
    pub fn from_boxed_err(e: BoxedError) -> (r: DomainError)
        ensures
            r@ == (match e {
                BoxedError::Database(inner) => meaning_of(inner),
                BoxedError::Other => domain_error(
                    ErrorKind::Internal,
                    "An unexpected error occurred"@,
                ),
            }),
    {
        match e {
            BoxedError::Database(inner) => Self::from_sqlx(inner),
            BoxedError::Other => DomainError::Internal("An unexpected error occurred".to_owned()),
        }
    }

    /// The error as one line of text.
    pub fn message(&self) -> (s: String)
        ensures
            s@ == error_label(self@.kind) + self@.detail,
            s@ == error_message(self@),
    {
        match self {
            DomainError::Validation(d) => join2("Validation error: ", d.as_str()),
            DomainError::NotFound(d) => join2("Not found: ", d.as_str()),
            DomainError::AlreadyExists(d) => join2("Already exists: ", d.as_str()),
            DomainError::Internal(d) => join2("Internal error: ", d.as_str()),
            DomainError::Unauthorized(d) => join2("Unauthorized: ", d.as_str()),
            DomainError::BadRequest(d) => join2("Bad request: ", d.as_str()),
            DomainError::Conflict(d) => join2("Conflict: ", d.as_str()),
        }
    }
}

/// What the database refused is told apart only where it is a duplicate, a broken reference or a
/// failed check: any other code means the same as none.
pub proof fn other_codes_are_not_told(code: String)
    requires
        code@ != "23505"@,
        code@ != "23503"@,
        code@ != "23514"@,
    ensures
        meaning_of(DatabaseError::Database(Some(code))) == meaning_of(
            DatabaseError::Database(None),
        ),
{
}

/// The text of an error ends with its whole detail, and what stands before depends on its kind
/// alone, which it tells.
pub proof fn messages_end_with_the_detail(kind: ErrorKind, a: Seq<char>, b: Seq<char>)
    ensures
        ({
            let m = error_message(domain_error(kind, a));
            let n = error_message(domain_error(kind, b));
            &&& m.len() >= a.len() && m.skip(m.len() - a.len()) == a
            &&& m.take(m.len() - a.len()) == n.take(n.len() - b.len())
        }),
{
    let m = error_message(domain_error(kind, a));
    let n = error_message(domain_error(kind, b));
    assert(m.skip(m.len() - a.len()) =~= a);
    assert(m.take(m.len() - a.len()) =~= error_label(kind));
    assert(n.take(n.len() - b.len()) =~= error_label(kind));
}

/// Errors of different kinds never read the same.
pub proof fn kinds_are_told_apart(a: DomainErrorView, b: DomainErrorView)
    requires
        error_message(a) == error_message(b),
    ensures
        a.kind == b.kind,
        a.detail == b.detail,
{
    reveal_strlit("Validation error: ");
    reveal_strlit("Not found: ");
    reveal_strlit("Already exists: ");
    reveal_strlit("Internal error: ");
    reveal_strlit("Unauthorized: ");
    reveal_strlit("Bad request: ");
    reveal_strlit("Conflict: ");
    assert(error_message(a)[0] == error_label(a.kind)[0]);
    assert(error_message(b)[0] == error_label(b.kind)[0]);
    let n = error_label(a.kind).len() as int;
    assert(error_message(a).skip(n) =~= a.detail);
    assert(error_message(b).skip(n) =~= b.detail);
}

/// An error keeps the whole detail that it was made with, and its kind.
pub proof fn errors_keep_their_detail(s: String)
    ensures
        (DomainError::Validation(s))@ == domain_error(ErrorKind::Validation, s@),
        (DomainError::NotFound(s))@ == domain_error(ErrorKind::NotFound, s@),
        (DomainError::AlreadyExists(s))@ == domain_error(ErrorKind::AlreadyExists, s@),
        (DomainError::Internal(s))@ == domain_error(ErrorKind::Internal, s@),
        (DomainError::Unauthorized(s))@ == domain_error(ErrorKind::Unauthorized, s@),
        (DomainError::BadRequest(s))@ == domain_error(ErrorKind::BadRequest, s@),
        (DomainError::Conflict(s))@ == domain_error(ErrorKind::Conflict, s@),
{
}

} // verus!
