use vstd::prelude::*;

use crate::error::Error;
use crate::model::{ReservationFilter, ReservationQuery};
use crate::status::{status_name, status_of_code, ReservationStatus};
use crate::text::{int_text, optional_literal, push_int, push_optional, push_quoted, quoted};
use crate::time::{rfc3339_text, utc_text, Timestamp};

verus! {

/// Renders a request as a call of the database's stored functions.
pub trait ToSql {
    /// The SQL text, or the error that stops it.
    spec fn sql(&self) -> Result<Seq<char>, Error>;

    fn to_sql(&self) -> (r: Result<String, Error>)
        ensures
            match r {
                Ok(s) => self.sql() == Ok::<Seq<char>, Error>(s@),
                Err(e) => self.sql() == Err::<Seq<char>, Error>(e),
            },
    ;
}

/// The status a filter or query asks for; a number that names none means
/// any status.
pub open spec fn requested_status(code: i32) -> ReservationStatus {
    match status_of_code(code) {
        Some(s) => s,
        None => ReservationStatus::Unknown,
    }
}

pub open spec fn bool_text(b: bool) -> Seq<char> {
    if b {
        "TRUE"@
    } else {
        "FALSE"@
    }
}

/// RFC 3339 text of an instant, where chrono can represent it.
pub open spec fn instant_sql(t: Timestamp) -> Option<Seq<char>> {
    if t.nanos >= 0 {
        utc_text(t.seconds, t.nanos as u32)
    } else {
        None
    }
}

/// The range argument of a query: inclusive of both ends when the window
/// is given, unbounded when it is not.
pub open spec fn window_sql(start: Option<Timestamp>, end: Option<Timestamp>) -> Result<Seq<char>, Error> {
    match (start, end) {
        (Some(s), Some(e)) => match (instant_sql(s), instant_sql(e)) {
            (Some(a), Some(b)) => Ok("tstzrange("@ + quoted(a) + ", "@ + quoted(b) + ", '[]')"@),
            _ => Err(Error::InvalidTime),
        },
        _ => Ok("tstzrange(NULL, NULL)"@),
    }
}

/// `'<status>'::rsvp.reservation_status`
pub open spec fn status_sql(code: i32) -> Seq<char> {
    "'"@ + status_name(requested_status(code)) + "'::rsvp.reservation_status"@
}

/// Rows a filter fetches: its page, one row past it to tell whether a next
/// page exists, and the cursor's own row when a cursor is given.
pub open spec fn fetch_limit(f: ReservationFilter) -> int {
    let n = f.page_size + 1 + if f.cursor is Some {
        1int
    } else {
        0int
    };
    if n > i64::MAX {
        i64::MAX as int
    } else {
        n
    }
}

fn push_bool(out: &mut String, b: bool)
    ensures
        final(out)@ == old(out)@ + bool_text(b),
{
    if b {
        out.append("TRUE");
    } else {
        out.append("FALSE");
    }
}

fn push_status(out: &mut String, code: i32)
    ensures
        final(out)@ == old(out)@ + status_sql(code),
{
    let status = match ReservationStatus::from_i32(code) {
        Some(s) => s,
        None => ReservationStatus::Unknown,
    };
    out.append("'");
    out.append(status.name());
    out.append("'::rsvp.reservation_status");
    assert(final(out)@ =~= old(out)@ + status_sql(code));
}

fn instant_text(t: &Timestamp) -> (r: Option<String>)
    ensures
        match r {
            Some(s) => instant_sql(*t) == Some(s@),
            None => instant_sql(*t) is None,
        },
{
    if t.nanos >= 0 {
        rfc3339_text(t.seconds, t.nanos as u32)
    } else {
        None
    }
}

fn push_window(out: &mut String, start: &Option<Timestamp>, end: &Option<Timestamp>) -> (r: Result<(), Error>)
    ensures
        match window_sql(*start, *end) {
            Ok(w) => r is Ok && final(out)@ == old(out)@ + w,
            Err(e) => r == Err::<(), Error>(e),
        },
{
    match (start, end) {
        (Some(s), Some(e)) => {
            let a = match instant_text(s) {
                Some(a) => a,
                None => return Err(Error::InvalidTime),
            };
            let b = match instant_text(e) {
                Some(b) => b,
                None => return Err(Error::InvalidTime),
            };
            out.append("tstzrange(");
            push_quoted(out, a.as_str());
            out.append(", ");
            push_quoted(out, b.as_str());
            out.append(", '[]')");
            assert(final(out)@ =~= old(out)@ + window_sql(*start, *end)->Ok_0);
            Ok(())
        },
        _ => {
            out.append("tstzrange(NULL, NULL)");
            Ok(())
        },
    }
}

impl ToSql for ReservationQuery {
    /// `SELECT * FROM rsvp.query(user, resource, range, status, page, desc, page_size)`
    open spec fn sql(&self) -> Result<Seq<char>, Error> {
        match window_sql(self.start, self.end) {
            Err(e) => Err(e),
            Ok(w) => Ok(
                "SELECT * FROM rsvp.query("@ + optional_literal(self.user_id@) + ", "@
                    + optional_literal(self.resource_id@) + ", "@ + w + ", "@ + status_sql(self.status)
                    + ", "@ + int_text(self.page as int) + ", "@ + bool_text(self.desc) + ", "@
                    + int_text(self.page_size as int) + ")"@,
            ),
        }
    }

    fn to_sql(&self) -> (r: Result<String, Error>) {
        let mut out = String::new();
        out.append("SELECT * FROM rsvp.query(");
        push_optional(&mut out, self.user_id.as_str());
        out.append(", ");
        push_optional(&mut out, self.resource_id.as_str());
        out.append(", ");
        match push_window(&mut out, &self.start, &self.end) {
            Ok(()) => {},
            Err(e) => return Err(e),
        }
        out.append(", ");
        push_status(&mut out, self.status);
        out.append(", ");
        push_int(&mut out, self.page as i64);
        out.append(", ");
        push_bool(&mut out, self.desc);
        out.append(", ");
        push_int(&mut out, self.page_size);
        out.append(")");
        assert(out@ =~= self.sql()->Ok_0);
        Ok(out)
    }
}

impl ToSql for ReservationFilter {
    /// `SELECT * FROM rsvp.filter(user, resource, status, cursor, desc, limit)`
    open spec fn sql(&self) -> Result<Seq<char>, Error> {
        Ok(
            "SELECT * FROM rsvp.filter("@ + optional_literal(self.user_id@) + ", "@
                + optional_literal(self.resource_id@) + ", "@ + status_sql(self.status) + ", "@
                + match self.cursor {
                Some(c) => int_text(c as int),
                None => "null"@,
            } + ", "@ + bool_text(self.desc) + ", "@ + int_text(fetch_limit(*self)) + ")"@,
        )
    }

    fn to_sql(&self) -> (r: Result<String, Error>) {
        let mut out = String::new();
        out.append("SELECT * FROM rsvp.filter(");
        push_optional(&mut out, self.user_id.as_str());
        out.append(", ");
        push_optional(&mut out, self.resource_id.as_str());
        out.append(", ");
        push_status(&mut out, self.status);
        out.append(", ");
        let extra: i64 = match self.cursor {
            Some(c) => {
                push_int(&mut out, c);
                2
            },
            None => {
                out.append("null");
                1
            },
        };
        out.append(", ");
        push_bool(&mut out, self.desc);
        out.append(", ");
        let limit: i64 = if self.page_size > i64::MAX - extra {
            i64::MAX
        } else {
            self.page_size + extra
        };
        push_int(&mut out, limit);
        out.append(")");
        assert(out@ =~= self.sql()->Ok_0);
        Ok(out)
    }
}

} // verus!
