use vstd::prelude::*;

use crate::error::Error;
use crate::status::{status_code, status_of_code, ReservationStatus};
use crate::time::{deref_opt, get_timespan, range_ok, validate_range, TimeSpan, Timestamp};

verus! {

/// Id of a reservation, assigned by the store; positive once persisted.
pub type ReservationId = i64;

/// A user's hold on a resource over the window `[start, end)`.
#[derive(Debug, Clone, PartialEq)]
pub struct Reservation {
    pub id: i64,
    pub user_id: String,
    /// Wire number of a `ReservationStatus`.
    pub status: i32,
    pub resource_id: String,
    pub start: Option<Timestamp>,
    pub end: Option<Timestamp>,
    pub note: String,
}

/// Mathematical value of a reservation.
pub struct ReservationView {
    pub id: i64,
    pub user_id: Seq<char>,
    pub status: i32,
    pub resource_id: Seq<char>,
    pub start: Option<Timestamp>,
    pub end: Option<Timestamp>,
    pub note: Seq<char>,
}

impl View for Reservation {
    type V = ReservationView;

    open spec fn view(&self) -> ReservationView {
        ReservationView {
            id: self.id,
            user_id: self.user_id@,
            status: self.status,
            resource_id: self.resource_id@,
            start: self.start,
            end: self.end,
            note: self.note@,
        }
    }
}

/// A time-window query: optional user and resource (empty means any),
/// status (unknown means any), window, page and sort order.
#[derive(Debug, Clone, PartialEq)]
pub struct ReservationQuery {
    pub user_id: String,
    pub resource_id: String,
    pub status: i32,
    pub start: Option<Timestamp>,
    pub end: Option<Timestamp>,
    pub page: i32,
    pub page_size: i64,
    pub desc: bool,
}

/// A cursor-paged filter: optional user and resource (empty means any),
/// status, the id to start from and the page size.
#[derive(Debug, Clone, PartialEq)]
pub struct ReservationFilter {
    pub user_id: String,
    pub resource_id: String,
    pub status: i32,
    pub cursor: Option<i64>,
    pub page_size: i64,
    pub desc: bool,
}

/// Where a page of a filter stands: the ids at its edges, when there is
/// a page before or after it.
#[derive(Clone, Copy, Debug, PartialEq, Eq, Structural)]
pub struct FilterPager {
    pub prev: Option<i64>,
    pub next: Option<i64>,
    pub total: Option<i64>,
}

/// Checks that a value is well formed.
pub trait Validator {
    /// The outcome of the check.
    spec fn validation(&self) -> Result<(), Error>;

    fn validate(&self) -> (r: Result<(), Error>)
        ensures
            r == self.validation(),
    ;
}

/// Makes a valid value ready for use.
pub trait Normalizer: Validator + Sized {
    /// The value once normalized.
    spec fn normalized(&self) -> Self;

    /// Every impl shows that a normalized valid value is still valid and
    /// that normalizing it again leaves it as it is.
    proof fn lemma_normalized_stable(&self)
        requires
            self.validation() is Ok,
        ensures
            self.normalized().validation() is Ok,
            self.normalized().normalized() == self.normalized(),
    ;

    fn do_normalize(&mut self)
        ensures
            *final(self) == old(self).normalized(),
    ;

    /// Validates, then normalizes a valid value; an invalid one is left
    /// as it was.
    fn normalize(&mut self) -> (r: Result<(), Error>)
        ensures
            r == old(self).validation(),
            r is Ok ==> *final(self) == old(self).normalized(),
            r is Err ==> *final(self) == *old(self),
            r is Ok ==> final(self).validation() is Ok && final(self).normalized() == *final(self),
    {
        let v = self.validate();
        proof {
            if v is Ok {
                self.lemma_normalized_stable();
            }
        }
        if v.is_ok() {
            self.do_normalize();
        }
        v
    }
}

impl Validator for ReservationId {
    open spec fn validation(&self) -> Result<(), Error> {
        if *self <= 0 {
            Err(Error::InvalidReservationId(*self))
        } else {
            Ok(())
        }
    }

    fn validate(&self) -> (r: Result<(), Error>) {
        if *self <= 0 {
            Err(Error::InvalidReservationId(*self))
        } else {
            Ok(())
        }
    }
}

impl Validator for Reservation {
    open spec fn validation(&self) -> Result<(), Error> {
        if self.user_id@.len() == 0 {
            Err(Error::InvalidUserId(self.user_id))
        } else if self.resource_id@.len() == 0 {
            Err(Error::InvalidResourceId(self.resource_id))
        } else if !range_ok(self.start, self.end) {
            Err(Error::InvalidTime)
        } else {
            Ok(())
        }
    }

    fn validate(&self) -> (r: Result<(), Error>) {
        if self.user_id.as_str().unicode_len() == 0 {
            return Err(Error::InvalidUserId(self.user_id.clone()));
        }
        if self.resource_id.as_str().unicode_len() == 0 {
            return Err(Error::InvalidResourceId(self.resource_id.clone()));
        }
        let start = self.start.as_ref();
        let end = self.end.as_ref();
        assert(deref_opt(start) == self.start);
        assert(deref_opt(end) == self.end);
        validate_range(start, end)
    }
}

/// A query's window is valid when it is absent or well ordered.
pub open spec fn window_ok(start: Option<Timestamp>, end: Option<Timestamp>) -> bool {
    (start is None && end is None) || range_ok(start, end)
}

impl Validator for ReservationQuery {
    open spec fn validation(&self) -> Result<(), Error> {
        if window_ok(self.start, self.end) {
            Ok(())
        } else {
            Err(Error::InvalidTime)
        }
    }

    fn validate(&self) -> (r: Result<(), Error>) {
        if self.start.is_none() && self.end.is_none() {
            return Ok(());
        }
        let start = self.start.as_ref();
        let end = self.end.as_ref();
        assert(deref_opt(start) == self.start);
        assert(deref_opt(end) == self.end);
        validate_range(start, end)
    }
}

impl ReservationQuery {
    /// The query's window `[start, end)`.
    pub fn get_timespan(&self) -> (r: TimeSpan)
        requires
            self.start is Some,
            self.end is Some,
        ensures
            r == (TimeSpan { start: self.start->Some_0, end: self.end->Some_0 }),
    {
        get_timespan(self.start.as_ref(), self.end.as_ref())
    }
}

impl Normalizer for ReservationQuery {
    open spec fn normalized(&self) -> ReservationQuery {
        *self
    }

    proof fn lemma_normalized_stable(&self) {
    }

    fn do_normalize(&mut self) {
    }
}

/// Smallest page of a filter.
pub const MIN_PAGE_SIZE: i64 = 10;

/// Largest page of a filter.
pub const MAX_PAGE_SIZE: i64 = 100;

/// `n` brought into `[MIN_PAGE_SIZE, MAX_PAGE_SIZE]`.
pub open spec fn clamp_page_size(n: i64) -> i64 {
    if n < MIN_PAGE_SIZE {
        MIN_PAGE_SIZE
    } else if n > MAX_PAGE_SIZE {
        MAX_PAGE_SIZE
    } else {
        n
    }
}

impl Validator for ReservationFilter {
    /// A cursor, when given, is a reservation id.
    open spec fn validation(&self) -> Result<(), Error> {
        match self.cursor {
            Some(c) => if c <= 0 {
                Err(Error::InvalidReservationId(c))
            } else {
                Ok(())
            },
            None => Ok(()),
        }
    }

    fn validate(&self) -> (r: Result<(), Error>) {
        match self.cursor {
            Some(c) => c.validate(),
            None => Ok(()),
        }
    }
}

impl Normalizer for ReservationFilter {
    /// The page size brought into `[MIN_PAGE_SIZE, MAX_PAGE_SIZE]`.
    open spec fn normalized(&self) -> ReservationFilter {
        ReservationFilter { page_size: clamp_page_size(self.page_size), ..*self }
    }

    proof fn lemma_normalized_stable(&self) {
    }

    fn do_normalize(&mut self) {
        if self.page_size < MIN_PAGE_SIZE {
            self.page_size = MIN_PAGE_SIZE;
        } else if self.page_size > MAX_PAGE_SIZE {
            self.page_size = MAX_PAGE_SIZE;
        }
    }
}

/// For every normalizer: normalizing a valid value twice is normalizing it
/// once, and the result is still valid.
pub proof fn lemma_normalize_idempotent<T: Normalizer>(x: T)
    requires
        x.validation() is Ok,
    ensures
        x.normalized().validation() is Ok,
        x.normalized().normalized() == x.normalized(),
{
    x.lemma_normalized_stable();
}

} // verus!
