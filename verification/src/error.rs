//! The service error model: an HTTP status code with an optional message
//! and optional details, the builders that fill it, and the status
//! decisions made over it.
//!
//! What wraps this record at the edge — backtraces, response bodies,
//! conversions into the web frameworks' own types — handles opaque values
//! of outside crates and stays there. The record they all read, and the
//! rules that fill it, are here.

use vstd::prelude::*;

verus! {

/// A service error: its HTTP status code, an optional message shown to
/// the caller, and optional internal details.
#[derive(Debug)]
pub struct Error {
    pub status_code: u16,
    pub msg: Option<String>,
    pub details: Option<String>,
}

impl Error {
    /// The status code is one HTTP allows.
    pub open spec fn wf(self) -> bool {
        100 <= self.status_code <= 999
    }

    /// Builds an error from its three parts.
    pub fn init(status_code: u16, msg: Option<String>, details: Option<String>) -> (r: Error)
        requires
            100 <= status_code <= 999,
        ensures
            r == (Error { status_code, msg, details }),
            r.wf(),
    {
        Error { status_code, msg, details }
    }

    /// An error carrying a status code alone.
    pub fn new(status_code: u16) -> (r: Error)
        requires
            100 <= status_code <= 999,
        ensures
            r == (Error { status_code, msg: None::<String>, details: None::<String> }),
    {
        Error::init(status_code, None, None)
    }

    /// An error with a status code and a message for the caller.
    pub fn msg(status_code: u16, err: String) -> (r: Error)
        requires
            100 <= status_code <= 999,
        ensures
            r == (Error { status_code, msg: Some(err), details: None::<String> }),
    {
        Error::init(status_code, Some(err), None)
    }

    /// A bare Bad Request.
    pub fn bad_request() -> (r: Error)
        ensures
            r == (Error { status_code: 400u16, msg: None::<String>, details: None::<String> }),
    {
        Error::init(400, None, None)
    }

    /// An Internal Server Error with a message for the caller.
    pub fn default_msg(err: String) -> (r: Error)
        ensures
            r == (Error { status_code: 500u16, msg: Some(err), details: None::<String> }),
    {
        Error::init(500, Some(err), None)
    }

    /// A Bad Request with a message for the caller.
    pub fn bad_request_msg(err: String) -> (r: Error)
        ensures
            r == (Error { status_code: 400u16, msg: Some(err), details: None::<String> }),
    {
        Error::init(400, Some(err), None)
    }

    /// An error with a status code and internal details.
    pub fn details(status_code: u16, err: String) -> (r: Error)
        requires
            100 <= status_code <= 999,
        ensures
            r == (Error { status_code, msg: None::<String>, details: Some(err) }),
    {
        Error::init(status_code, None, Some(err))
    }

    /// An Internal Server Error with internal details.
    pub fn default_details(err: String) -> (r: Error)
        ensures
            r == (Error { status_code: 500u16, msg: None::<String>, details: Some(err) }),
    {
        Error::init(500, None, Some(err))
    }

    /// An Internal Server Error with both a message and details.
    pub fn default_msg_and_details(msg: String, details: String) -> (r: Error)
        ensures
            r == (Error { status_code: 500u16, msg: Some(msg), details: Some(details) }),
    {
        Error::init(500, Some(msg), Some(details))
    }

    /// A Bad Request with internal details.
    pub fn bad_request_details(err: String) -> (r: Error)
        ensures
            r == (Error { status_code: 400u16, msg: None::<String>, details: Some(err) }),
    {
        Error::init(400, None, Some(err))
    }

    /// The displayed form of the error: the status's canonical reason when
    /// there is one, with the message after a colon if both are present,
    /// the message alone otherwise, and nothing when neither exists. The
    /// reason text for a status code is the edge's to supply.
    pub fn display_message(&self, canonical_reason: Option<&str>) -> (r: String)
        ensures
            r@ == match (canonical_reason, self.msg) {
                (Some(cr), Some(m)) => cr@ + ": "@ + m@,
                (Some(cr), None) => cr@,
                (None, Some(m)) => m@,
                (None, None) => Seq::<char>::empty(),
            },
    {
        match (canonical_reason, &self.msg) {
            (Some(cr), Some(m)) => {
                let mut s = String::from_str(cr);
                s.append(": ");
                s.append(m.as_str());
                s
            },
            (Some(cr), None) => String::from_str(cr),
            (None, Some(m)) => m.clone(),
            (None, None) => String::new(),
        }
    }
}

impl Default for Error {
    /// A bare Internal Server Error.
    fn default() -> (r: Error)
        ensures
            r == (Error { status_code: 500u16, msg: None::<String>, details: None::<String> }),
    {
        Error::init(500, None, None)
    }
}

/// The failure kinds a database layer reports, as the status mapping
/// distinguishes them. `OtherDatabase` stands for any further database
/// error kind; `Other` for any further failure.
#[derive(Clone, Copy, Debug, PartialEq, Eq, Structural)]
pub enum DbErrorKind {
    InvalidCString,
    UniqueViolation,
    ForeignKeyViolation,
    UnableToSendCommand,
    ReadOnlyTransaction,
    NotNullViolation,
    CheckViolation,
    ClosedConnection,
    OtherDatabase,
    NotFound,
    QueryBuilder,
    Deserialization,
    Serialization,
    AlreadyInTransaction,
    NotInTransaction,
    Other,
}

/// The failures that are the caller's fault: bad input the database
/// rejected, or a lookup that found nothing.
pub open spec fn is_caller_fault(kind: DbErrorKind) -> bool {
    ||| kind == DbErrorKind::InvalidCString
    ||| kind == DbErrorKind::UniqueViolation
    ||| kind == DbErrorKind::ForeignKeyViolation
    ||| kind == DbErrorKind::UnableToSendCommand
    ||| kind == DbErrorKind::NotNullViolation
    ||| kind == DbErrorKind::CheckViolation
    ||| kind == DbErrorKind::NotFound
}

/// The HTTP status for a database failure: Bad Request exactly when the
/// failure is the caller's fault, Internal Server Error for everything
/// else.
pub fn db_error_status(kind: DbErrorKind) -> (r: u16)
    ensures
        is_caller_fault(kind) ==> r == 400,
        !is_caller_fault(kind) ==> r == 500,
{
    match kind {
        DbErrorKind::InvalidCString => 400,
        DbErrorKind::UniqueViolation => 400,
        DbErrorKind::ForeignKeyViolation => 400,
        DbErrorKind::UnableToSendCommand => 400,
        DbErrorKind::NotNullViolation => 400,
        DbErrorKind::CheckViolation => 400,
        DbErrorKind::NotFound => 400,
        DbErrorKind::ReadOnlyTransaction => 500,
        DbErrorKind::ClosedConnection => 500,
        DbErrorKind::OtherDatabase => 500,
        DbErrorKind::QueryBuilder => 500,
        DbErrorKind::Deserialization => 500,
        DbErrorKind::Serialization => 500,
        DbErrorKind::AlreadyInTransaction => 500,
        DbErrorKind::NotInTransaction => 500,
        DbErrorKind::Other => 500,
    }
}

} // verus!
