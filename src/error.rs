use vstd::prelude::*;

use crate::conflict::{conflict_info_of, ConflictView, ReservationConflictInfo, WindowView};
use crate::text::{int_text, push_int, text_eq};
use crate::time::timestamp_text;

verus! {

/// The failures of the reservation engine.
#[derive(Debug, Clone)]
pub enum Error {
    /// An opaque failure of the database, with the driver's message.
    DbError(String),
    ConfigReadError,
    ConfigParseError,
    InvalidTime,
    InvalidUserId(String),
    InvalidReservationId(i64),
    NotFound,
    ConflictReservation(ReservationConflictInfo),
    InvalidResourceId(String),
    Unknown,
}

/// Two errors are the same when they are of one kind and carry the same
/// payload; database errors are all the same.
pub open spec fn same_error(a: Error, b: Error) -> bool {
    match (a, b) {
        (Error::DbError(_), Error::DbError(_)) => true,
        (Error::ConfigReadError, Error::ConfigReadError) => true,
        (Error::ConfigParseError, Error::ConfigParseError) => true,
        (Error::InvalidTime, Error::InvalidTime) => true,
        (Error::InvalidUserId(x), Error::InvalidUserId(y)) => x@ == y@,
        (Error::InvalidReservationId(x), Error::InvalidReservationId(y)) => x == y,
        (Error::NotFound, Error::NotFound) => true,
        (Error::ConflictReservation(x), Error::ConflictReservation(y)) => x.view() == y.view(),
        (Error::InvalidResourceId(x), Error::InvalidResourceId(y)) => x@ == y@,
        (Error::Unknown, Error::Unknown) => true,
        _ => false,
    }
}

impl PartialEq for Error {
    fn eq(&self, other: &Error) -> (r: bool)
        ensures
            r == same_error(*self, *other),
    {
        match (self, other) {
            (Error::DbError(_), Error::DbError(_)) => true,
            (Error::ConfigReadError, Error::ConfigReadError) => true,
            (Error::ConfigParseError, Error::ConfigParseError) => true,
            (Error::InvalidTime, Error::InvalidTime) => true,
            (Error::InvalidUserId(x), Error::InvalidUserId(y)) => *x == *y,
            (Error::InvalidReservationId(x), Error::InvalidReservationId(y)) => *x == *y,
            (Error::NotFound, Error::NotFound) => true,
            (Error::ConflictReservation(x), Error::ConflictReservation(y)) => x.eq(y),
            (Error::InvalidResourceId(x), Error::InvalidResourceId(y)) => *x == *y,
            (Error::Unknown, Error::Unknown) => true,
            _ => false,
        }
    }
}

impl vstd::std_specs::cmp::PartialEqSpecImpl for Error {
    open spec fn obeys_eq_spec() -> bool {
        true
    }

    open spec fn eq_spec(&self, other: &Error) -> bool {
        same_error(*self, *other)
    }
}

/// A failure that the database driver reports.
#[derive(Debug, Clone)]
pub enum DbFailure {
    /// An error raised by the database server, with its SQLSTATE code, the
    /// schema and table it concerns, its detail and its message.
    Database {
        code: String,
        schema: Option<String>,
        table: Option<String>,
        detail: Option<String>,
        message: String,
    },
    /// A statement that was to return one row returned none.
    RowNotFound,
    /// Any other failure of the driver, with its message.
    Other(String),
}

/// An optional text is present and equal to `t`.
pub open spec fn opt_text_is(o: Option<String>, t: Seq<char>) -> bool {
    o is Some && o->Some_0@ == t
}

/// The exclusion constraint of `rsvp.reservations` was hit.
pub open spec fn is_exclusion_violation(code: String, schema: Option<String>, table: Option<String>) -> bool {
    code@ == "23P01"@ && opt_text_is(schema, "rsvp"@) && opt_text_is(table, "reservations"@)
}

/// The detail of a failure, or the empty text.
pub open spec fn detail_or_empty(detail: Option<String>) -> Seq<char> {
    match detail {
        Some(d) => d@,
        None => Seq::empty(),
    }
}

fn opt_text_eq(o: &Option<String>, t: &str) -> (r: bool)
    ensures
        r == opt_text_is(*o, t@),
{
    match o {
        Some(v) => text_eq(v.as_str(), t),
        None => false,
    }
}

/// `e` is the error for the driver failure `f`: a hit of the exclusion
/// constraint is a conflict carrying its detail read, a missing row is
/// `NotFound`, anything else an opaque database error with its message.
pub open spec fn failure_error(f: DbFailure, e: Error) -> bool {
    match f {
        DbFailure::Database { code, schema, table, detail, message } => if is_exclusion_violation(
            code,
            schema,
            table,
        ) {
            e is ConflictReservation && e->ConflictReservation_0@ == conflict_info_of(detail_or_empty(detail))
        } else {
            e is DbError && e->DbError_0@ == message@
        },
        DbFailure::RowNotFound => e is NotFound,
        DbFailure::Other(m) => e is DbError && e->DbError_0@ == m@,
    }
}

/// The gRPC status codes that the engine's errors map to.
#[derive(Clone, Copy, Debug, PartialEq, Eq, Structural)]
pub enum RpcCode {
    Internal,
    InvalidArgument,
    FailedPrecondition,
    NotFound,
    Unknown,
}

/// A status to answer a remote call with: a code and a message.
#[derive(Debug, Clone)]
pub struct RpcStatus {
    pub code: RpcCode,
    pub message: String,
}

/// Text of a window: `<rid> [<start>, <end>)`.
pub open spec fn window_view_text(w: WindowView) -> Seq<char> {
    w.rid + " ["@ + timestamp_text(w.start) + ", "@ + timestamp_text(w.end) + ")"@
}

/// Text of conflict information: both windows, or the unread detail.
pub open spec fn conflict_text(c: ConflictView) -> Seq<char> {
    match c {
        ConflictView::Parsed(n, o) => "new "@ + window_view_text(n) + " overlaps existing "@
            + window_view_text(o),
        ConflictView::Unparsed(s) => s,
    }
}

/// The status code and message that answer an error.
pub open spec fn status_of(e: Error) -> (RpcCode, Seq<char>) {
    match e {
        Error::DbError(_) => (RpcCode::Internal, "Database error"@),
        Error::ConfigReadError => (RpcCode::Internal, "Failed to read configuration file"@),
        Error::ConfigParseError => (RpcCode::Internal, "Failed to parse configuration file"@),
        Error::InvalidTime => (RpcCode::InvalidArgument, "Invalid start or end time for the reservation"@),
        Error::ConflictReservation(info) => (
            RpcCode::FailedPrecondition,
            "Conflict reservation: "@ + conflict_text(info@),
        ),
        Error::NotFound => (RpcCode::NotFound, "No reservation found by given condition"@),
        Error::InvalidReservationId(id) => (
            RpcCode::InvalidArgument,
            "Invalid reservation id: "@ + int_text(id as int),
        ),
        Error::InvalidUserId(u) => (RpcCode::InvalidArgument, "Invalid user id: "@ + u@),
        Error::InvalidResourceId(r) => (RpcCode::InvalidArgument, "Invalid resource id: "@ + r@),
        Error::Unknown => (RpcCode::Unknown, "unknown error"@),
    }
}

fn push_window(out: &mut String, w: &crate::conflict::ReservationWindow)
    ensures
        final(out)@ == old(out)@ + window_view_text(w@),
{
    out.append(w.rid.as_str());
    out.append(" [");
    let start = w.start.to_text();
    out.append(start.as_str());
    out.append(", ");
    let end = w.end.to_text();
    out.append(end.as_str());
    out.append(")");
    assert(final(out)@ =~= old(out)@ + window_view_text(w@));
}

impl ReservationConflictInfo {
    /// Human-readable text: the new window and the existing one it
    /// overlaps, or the database's detail when it could not be read.
    pub fn describe(&self) -> (r: String)
        ensures
            r@ == conflict_text(self@),
    {
        match self {
            ReservationConflictInfo::Parsed(c) => {
                let mut out = String::new();
                out.append("new ");
                push_window(&mut out, &c.new);
                out.append(" overlaps existing ");
                push_window(&mut out, &c.old);
                assert(out@ =~= conflict_text(self@));
                out
            },
            ReservationConflictInfo::Unparsed(s) => s.clone(),
        }
    }
}

impl Error {
    /// The error for a failure of the database driver: a hit of the
    /// exclusion constraint is a conflict, with its detail read; a missing
    /// row is `NotFound`; anything else is an opaque database error.
    pub fn from_db(failure: DbFailure) -> (r: Error)
        ensures
            failure_error(failure, r),
    {
        match failure {
            DbFailure::Database { code, schema, table, detail, message } => {
                if text_eq(code.as_str(), "23P01") && opt_text_eq(&schema, "rsvp") && opt_text_eq(
                    &table,
                    "reservations",
                ) {
                    let info = match &detail {
                        Some(d) => ReservationConflictInfo::parse(d.as_str()),
                        None => {
                            proof {
                                reveal_strlit("");
                            }
                            assert(""@ =~= detail_or_empty(detail));
                            ReservationConflictInfo::parse("")
                        },
                    };
                    Error::ConflictReservation(info)
                } else {
                    Error::DbError(message)
                }
            },
            DbFailure::RowNotFound => Error::NotFound,
            DbFailure::Other(m) => Error::DbError(m),
        }
    }

    /// The status that answers this error on a remote call: internal for
    /// database and configuration errors, failed-precondition for a
    /// conflict, not-found, invalid-argument echoing the offending value,
    /// and unknown.
    pub fn to_status(&self) -> (r: RpcStatus)
        ensures
            (r.code, r.message@) == status_of(*self),
    {
        proof {
            reveal_strlit("Database error");
            reveal_strlit("Failed to read configuration file");
            reveal_strlit("Failed to parse configuration file");
            reveal_strlit("Invalid start or end time for the reservation");
            reveal_strlit("No reservation found by given condition");
            reveal_strlit("unknown error");
        }
        match self {
            Error::DbError(_) => RpcStatus { code: RpcCode::Internal, message: "Database error".to_string() },
            Error::ConfigReadError => RpcStatus {
                code: RpcCode::Internal,
                message: "Failed to read configuration file".to_string(),
            },
            Error::ConfigParseError => RpcStatus {
                code: RpcCode::Internal,
                message: "Failed to parse configuration file".to_string(),
            },
            Error::InvalidTime => RpcStatus {
                code: RpcCode::InvalidArgument,
                message: "Invalid start or end time for the reservation".to_string(),
            },
            Error::ConflictReservation(info) => {
                let mut message = "Conflict reservation: ".to_string();
                let text = info.describe();
                message.append(text.as_str());
                RpcStatus { code: RpcCode::FailedPrecondition, message }
            },
            Error::NotFound => RpcStatus {
                code: RpcCode::NotFound,
                message: "No reservation found by given condition".to_string(),
            },
            Error::InvalidReservationId(id) => {
                let mut message = "Invalid reservation id: ".to_string();
                push_int(&mut message, *id);
                RpcStatus { code: RpcCode::InvalidArgument, message }
            },
            Error::InvalidUserId(user_id) => {
                let mut message = "Invalid user id: ".to_string();
                message.append(user_id.as_str());
                RpcStatus { code: RpcCode::InvalidArgument, message }
            },
            Error::InvalidResourceId(resource_id) => {
                let mut message = "Invalid resource id: ".to_string();
                message.append(resource_id.as_str());
                RpcStatus { code: RpcCode::InvalidArgument, message }
            },
            Error::Unknown => RpcStatus { code: RpcCode::Unknown, message: "unknown error".to_string() },
        }
    }
}

} // verus!
