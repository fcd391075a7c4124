//! The error record's builders, its displayed form, and the database
//! status mapping.

use service_util::error::{db_error_status, DbErrorKind, Error};

#[test]
fn builders_fill_the_record() {
    let e = Error::new(404);
    assert_eq!(e.status_code, 404);
    assert_eq!(e.msg, None);
    assert_eq!(e.details, None);

    let e = Error::msg(429, "slow down".to_owned());
    assert_eq!(e.status_code, 429);
    assert_eq!(e.msg.as_deref(), Some("slow down"));
    assert_eq!(e.details, None);

    let e = Error::bad_request();
    assert_eq!(e.status_code, 400);
    assert_eq!(e.msg, None);

    let e = Error::default_msg("boom".to_owned());
    assert_eq!(e.status_code, 500);
    assert_eq!(e.msg.as_deref(), Some("boom"));

    let e = Error::bad_request_msg("no".to_owned());
    assert_eq!(e.status_code, 400);
    assert_eq!(e.msg.as_deref(), Some("no"));

    let e = Error::details(502, "upstream".to_owned());
    assert_eq!(e.status_code, 502);
    assert_eq!(e.msg, None);
    assert_eq!(e.details.as_deref(), Some("upstream"));

    let e = Error::default_details("d".to_owned());
    assert_eq!(e.status_code, 500);
    assert_eq!(e.details.as_deref(), Some("d"));

    let e = Error::default_msg_and_details("m".to_owned(), "d".to_owned());
    assert_eq!(e.status_code, 500);
    assert_eq!(e.msg.as_deref(), Some("m"));
    assert_eq!(e.details.as_deref(), Some("d"));

    let e = Error::bad_request_details("d".to_owned());
    assert_eq!(e.status_code, 400);
    assert_eq!(e.details.as_deref(), Some("d"));

    let e = Error::default();
    assert_eq!(e.status_code, 500);
    assert_eq!(e.msg, None);
    assert_eq!(e.details, None);
}

#[test]
fn display_prefers_reason_then_message() {
    let e = Error::msg(400, "bad id".to_owned());
    assert_eq!(e.display_message(Some("Bad Request")), "Bad Request: bad id");

    let e = Error::new(400);
    assert_eq!(e.display_message(Some("Bad Request")), "Bad Request");

    let e = Error::msg(400, "bad id".to_owned());
    assert_eq!(e.display_message(None), "bad id");

    let e = Error::new(400);
    assert_eq!(e.display_message(None), "");
}

#[test]
fn database_failures_map_to_statuses() {
    assert_eq!(db_error_status(DbErrorKind::InvalidCString), 400);
    assert_eq!(db_error_status(DbErrorKind::UniqueViolation), 400);
    assert_eq!(db_error_status(DbErrorKind::ForeignKeyViolation), 400);
    assert_eq!(db_error_status(DbErrorKind::UnableToSendCommand), 400);
    assert_eq!(db_error_status(DbErrorKind::NotNullViolation), 400);
    assert_eq!(db_error_status(DbErrorKind::CheckViolation), 400);
    assert_eq!(db_error_status(DbErrorKind::NotFound), 400);
    assert_eq!(db_error_status(DbErrorKind::ReadOnlyTransaction), 500);
    assert_eq!(db_error_status(DbErrorKind::ClosedConnection), 500);
    assert_eq!(db_error_status(DbErrorKind::OtherDatabase), 500);
    assert_eq!(db_error_status(DbErrorKind::QueryBuilder), 500);
    assert_eq!(db_error_status(DbErrorKind::Deserialization), 500);
    assert_eq!(db_error_status(DbErrorKind::Serialization), 500);
    assert_eq!(db_error_status(DbErrorKind::AlreadyInTransaction), 500);
    assert_eq!(db_error_status(DbErrorKind::NotInTransaction), 500);
    assert_eq!(db_error_status(DbErrorKind::Other), 500);
}
