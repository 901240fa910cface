use vstd::prelude::*;

use crate::error::{failure_error, status_of, DbFailure, Error, RpcStatus};
use crate::model::{FilterPager, Normalizer, Reservation, ReservationFilter, ReservationQuery, ReservationView, Validator, MAX_PAGE_SIZE, MIN_PAGE_SIZE};
use crate::pager::{page_end, page_start, pager_of};
use crate::sql::ToSql;
use crate::status::{rsvp_status, status_code, ReservationStatus, RsvpStatus};
use crate::time::{get_timespan, TimeSpan, Timestamp};

verus! {

/// The values of a new row of `rsvp.reservations`.
#[derive(Debug, Clone)]
pub struct NewReservation {
    pub user_id: String,
    pub resource_id: String,
    pub timespan: TimeSpan,
    pub note: String,
    pub status: ReservationStatus,
}

/// A reservation as a reserve stores it under `id`: pending, whatever
/// status it was submitted with.
pub open spec fn stored_view(r: ReservationView, id: i64) -> ReservationView {
    ReservationView { id, status: status_code(ReservationStatus::Pending), ..r }
}

/// A reservation as a row of `rsvp.reservations` holds it.
pub open spec fn row_view(
    id: i64,
    user_id: Seq<char>,
    resource_id: Seq<char>,
    timespan: TimeSpan,
    status: RsvpStatus,
    note: Seq<char>,
) -> ReservationView {
    ReservationView {
        id,
        user_id,
        status: status_code(rsvp_status(status)),
        resource_id,
        start: Some(timespan.start),
        end: Some(timespan.end),
        note,
    }
}

/// A valid reservation, inserted with the values of `to_insert` (status
/// pending) and read back under the id the store gave it, is the
/// reservation that `reserved` returned for that id.
pub proof fn lemma_insert_round_trip(r: Reservation, id: i64)
    requires
        r.validation() is Ok,
    ensures
        row_view(
            id,
            r.user_id@,
            r.resource_id@,
            TimeSpan { start: r.start->Some_0, end: r.end->Some_0 },
            RsvpStatus::Pending,
            r.note@,
        ) == stored_view(r@, id),
{
}

/// An instant in nanoseconds since the Unix epoch.
pub open spec fn instant_ns(t: Timestamp) -> int {
    t.seconds as int * 1_000_000_000 + t.nanos as int
}

/// Two reservations hold the same resource over windows that share an instant.
pub open spec fn windows_overlap(a: ReservationView, b: ReservationView) -> bool {
    &&& a.resource_id == b.resource_id
    &&& a.start is Some && a.end is Some && b.start is Some && b.end is Some
    &&& instant_ns(a.start->Some_0) < instant_ns(b.end->Some_0)
    &&& instant_ns(b.start->Some_0) < instant_ns(a.end->Some_0)
}

/// No two of the reservations overlap.
pub open spec fn overlap_free(rows: Seq<ReservationView>) -> bool {
    forall|i: int, j: int| 0 <= i < j < rows.len() ==> !windows_overlap(#[trigger] rows[i], #[trigger] rows[j])
}

/// The exclusion constraint lets `r` join `rows`: it overlaps none of them.
pub open spec fn admits(rows: Seq<ReservationView>, r: ReservationView) -> bool {
    forall|i: int| 0 <= i < rows.len() ==> !windows_overlap(#[trigger] rows[i], r)
}

/// Every reservation of the sequence was admitted by the ones before it.
pub open spec fn all_admitted(rows: Seq<ReservationView>) -> bool {
    forall|k: int| 0 <= k < rows.len() ==> admits(rows.subrange(0, k), #[trigger] rows[k])
}

/// The reservations that successive successful reserves stored, each one
/// admitted by the exclusion constraint over those before it, never overlap.
pub proof fn lemma_reserves_overlap_free(rows: Seq<ReservationView>)
    requires
        all_admitted(rows),
    ensures
        overlap_free(rows),
{
    assert forall|i: int, j: int| 0 <= i < j < rows.len() implies !windows_overlap(#[trigger] rows[i], #[trigger] rows[j]) by {
        assert(admits(rows.subrange(0, j), rows[j]));
        assert(rows.subrange(0, j)[i] == rows[i]);
    }
}

/// Invariant I1 of the store: no two active (not unknown) reservations of
/// one resource overlap.
pub open spec fn active_overlap_free(db: Seq<ReservationView>) -> bool {
    forall|i: int, j: int|
        0 <= i < j < db.len() && db[i].status != status_code(ReservationStatus::Unknown) && db[j].status
            != status_code(ReservationStatus::Unknown) ==> !windows_overlap(#[trigger] db[i], #[trigger] db[j])
}

/// What the store does with a reserve of `r` that it numbers `id`: the
/// exclusion constraint lets the row in only when it overlaps no stored
/// row of its resource, and otherwise reports a conflict (`None`).
pub open spec fn store_reserve(db: Seq<ReservationView>, r: ReservationView, id: i64) -> Option<Seq<ReservationView>> {
    if admits(db, stored_view(r, id)) {
        Some(db.push(stored_view(r, id)))
    } else {
        None
    }
}

/// A successful reserve keeps invariant I1: the row it adds, which is the
/// reservation `reserved` returns, overlaps no stored reservation of its
/// resource.
pub proof fn lemma_reserve_keeps_overlap_free(db: Seq<ReservationView>, r: ReservationView, id: i64)
    requires
        active_overlap_free(db),
        store_reserve(db, r, id) is Some,
    ensures
        active_overlap_free(store_reserve(db, r, id)->Some_0),
        store_reserve(db, r, id)->Some_0.last() == stored_view(r, id),
{
    let db2 = store_reserve(db, r, id)->Some_0;
    assert forall|i: int, j: int|
        0 <= i < j < db2.len() && db2[i].status != status_code(ReservationStatus::Unknown) && db2[j].status
            != status_code(ReservationStatus::Unknown) implies !windows_overlap(#[trigger] db2[i], #[trigger] db2[j]) by {
        if j == db.len() {
            assert(db2[i] == db[i]);
        } else {
            assert(db2[i] == db[i] && db2[j] == db[j]);
        }
    }
}

impl Reservation {
    /// A pending reservation, not yet saved.
    pub fn new_pending(user_id: &str, resource_id: &str, start: Timestamp, end: Timestamp, note: &str) -> (r: Reservation)
        ensures
            r@ == (ReservationView {
                id: 0,
                user_id: user_id@,
                status: 1,
                resource_id: resource_id@,
                start: Some(start),
                end: Some(end),
                note: note@,
            }),
    {
        Reservation {
            id: 0,
            user_id: user_id.to_string(),
            status: 1,
            resource_id: resource_id.to_string(),
            start: Some(start),
            end: Some(end),
            note: note.to_string(),
        }
    }

    /// The row to insert to make this reservation, once it is valid: a
    /// reservation always starts pending.
    pub fn to_insert(&self) -> (r: Result<NewReservation, Error>)
        ensures
            match self.validation() {
                Err(e) => r is Err && r->Err_0 == e,
                Ok(()) => r is Ok && r->Ok_0.user_id@ == self.user_id@ && r->Ok_0.resource_id@
                    == self.resource_id@ && r->Ok_0.note@ == self.note@ && r->Ok_0.timespan
                    == (TimeSpan { start: self.start->Some_0, end: self.end->Some_0 }) && r->Ok_0.status
                    == ReservationStatus::Pending,
            },
    {
        match self.validate() {
            Err(e) => return Err(e),
            Ok(()) => {},
        }
        Ok(
            NewReservation {
                user_id: self.user_id.clone(),
                resource_id: self.resource_id.clone(),
                timespan: get_timespan(self.start.as_ref(), self.end.as_ref()),
                note: self.note.clone(),
                status: ReservationStatus::Pending,
            },
        )
    }

    /// The reservation once its insert has run: on success it carries the
    /// id the store assigned and is pending.
    pub fn reserved(self, outcome: Result<i64, DbFailure>) -> (r: Result<Reservation, Error>)
        ensures
            match outcome {
                Ok(id) => r is Ok && r->Ok_0@ == stored_view(self@, id),
                Err(f) => r is Err && failure_error(f, r->Err_0),
            },
    {
        match outcome {
            Ok(id) => {
                let mut rsvp = self;
                rsvp.id = id;
                rsvp.status = ReservationStatus::Pending.code();
                Ok(rsvp)
            },
            Err(f) => Err(Error::from_db(f)),
        }
    }

    /// A reservation read from a row of `rsvp.reservations`.
    pub fn from_row(id: i64, user_id: String, resource_id: String, timespan: TimeSpan, status: RsvpStatus, note: String) -> (r: Reservation)
        ensures
            r@ == row_view(id, user_id@, resource_id@, timespan, status, note@),
    {
        let s = ReservationStatus::from(status);
        Reservation {
            id,
            user_id,
            status: s.code(),
            resource_id,
            start: Some(timespan.start),
            end: Some(timespan.end),
            note,
        }
    }
}

/// The answer to a statement on one reservation by id (confirm, update,
/// delete, get): the row it returned, or the error for its failure.
pub fn row_result(outcome: Result<Reservation, DbFailure>) -> (r: Result<Reservation, Error>)
    ensures
        match outcome {
            Ok(x) => r == Ok::<Reservation, Error>(x),
            Err(f) => r is Err && failure_error(f, r->Err_0),
        },
{
    match outcome {
        Ok(x) => Ok(x),
        Err(f) => Err(Error::from_db(f)),
    }
}

/// Inserts a reservation and returns its id; the exclusion constraint of
/// the table refuses a window that overlaps another on the same resource.
pub const INSERT_SQL: &'static str = "INSERT INTO rsvp.reservations (user_id, resource_id, timespan, note, status) VALUES ($1, $2, $3, $4, $5::rsvp.reservation_status) RETURNING id";

/// Confirms a pending reservation; a reservation in any other status is
/// left as it is and no row comes back.
pub const CONFIRM_SQL: &'static str = "UPDATE rsvp.reservations SET status = 'confirmed' WHERE id = $1 AND status = 'pending' RETURNING *";

/// Replaces the note of a reservation.
pub const UPDATE_NOTE_SQL: &'static str = "UPDATE rsvp.reservations SET note = $1 WHERE id = $2 RETURNING *";

/// Deletes a reservation and returns it.
pub const DELETE_SQL: &'static str = "DELETE FROM rsvp.reservations WHERE id = $1 RETURNING *";

/// Reads a reservation by id.
pub const GET_SQL: &'static str = "SELECT * FROM rsvp.reservations WHERE id = $1";

/// The answer to a confirmation of reservation `id`: the confirmed row, or
/// the error for the failure. A reservation that is not pending gives no
/// row, hence `NotFound`; a row that is not `id` confirmed is refused as
/// `Unknown`.
pub fn confirm_result(id: i64, outcome: Result<Reservation, DbFailure>) -> (r: Result<Reservation, Error>)
    ensures
        match outcome {
            Ok(x) => if x.id == id && x.status == status_code(ReservationStatus::Confirmed) {
                r == Ok::<Reservation, Error>(x)
            } else {
                r == Err::<Reservation, Error>(Error::Unknown)
            },
            Err(f) => r is Err && failure_error(f, r->Err_0),
        },
        r is Ok ==> r->Ok_0.id == id && r->Ok_0.status == status_code(ReservationStatus::Confirmed),
{
    match outcome {
        Ok(x) => if x.id == id && x.status == ReservationStatus::Confirmed.code() {
            Ok(x)
        } else {
            Err(Error::Unknown)
        },
        Err(f) => Err(Error::from_db(f)),
    }
}

/// What `CONFIRM_SQL` does to a stored reservation when asked to confirm
/// `id`: a pending reservation with that id comes back confirmed, any other
/// row is not matched and stays as it was.
pub open spec fn confirm_statement(row: ReservationView, id: i64) -> Option<ReservationView> {
    if row.id == id && row.status == status_code(ReservationStatus::Pending) {
        Some(ReservationView { status: status_code(ReservationStatus::Confirmed), ..row })
    } else {
        None
    }
}

/// Confirming a reservation that is already confirmed matches no row, so
/// the reservation stays as it was; the store then reports a missing row,
/// which `confirm_result` answers with `NotFound`.
pub proof fn lemma_confirm_twice(row: ReservationView)
    requires
        row.status == status_code(ReservationStatus::Confirmed),
    ensures
        confirm_statement(row, row.id) is None,
{
}

/// A confirmation that matches a row leaves it confirmed under the same id.
pub proof fn lemma_confirm_advances(row: ReservationView, id: i64)
    requires
        confirm_statement(row, id) is Some,
    ensures
        confirm_statement(row, id)->Some_0.status == status_code(ReservationStatus::Confirmed),
        confirm_statement(row, id)->Some_0.id == row.id,
        row.id == id,
{
}

/// The SQL of a query, once it is valid.
pub fn query_sql(query: &ReservationQuery) -> (r: Result<String, Error>)
    ensures
        match query.validation() {
            Err(e) => r == Err::<String, Error>(e),
            Ok(()) => match query.sql() {
                Ok(s) => r is Ok && r->Ok_0@ == s,
                Err(e) => r == Err::<String, Error>(e),
            },
        },
{
    match query.validate() {
        Err(e) => Err(e),
        Ok(()) => query.to_sql(),
    }
}

/// Validates and normalizes a filter, then gives its SQL.
pub fn filter_sql(filter: &mut ReservationFilter) -> (r: Result<String, Error>)
    ensures
        match old(filter).validation() {
            Err(e) => r == Err::<String, Error>(e) && *final(filter) == *old(filter),
            Ok(()) => *final(filter) == old(filter).normalized() && r is Ok && Ok::<Seq<char>, Error>(
                r->Ok_0@,
            ) == old(filter).normalized().sql(),
        },
{
    match filter.normalize() {
        Err(e) => Err(e),
        Ok(()) => filter.to_sql(),
    }
}

/// The answer to a filter from the rows its SQL fetched: the page and its
/// pager, or the error for the failure.
pub fn filter_result(filter: &ReservationFilter, outcome: Result<Vec<Reservation>, DbFailure>) -> (r: Result<(FilterPager, Vec<Reservation>), Error>)
    requires
        MIN_PAGE_SIZE <= filter.page_size <= MAX_PAGE_SIZE,
    ensures
        match outcome {
            Ok(rows) => r is Ok && r->Ok_0.0 == pager_of(*filter, rows@) && r->Ok_0.1@ == rows@.subrange(
                page_start(*filter, rows@),
                page_end(*filter, rows@),
            ),
            Err(f) => r is Err && failure_error(f, r->Err_0),
        },
{
    match outcome {
        Ok(rows) => Ok(filter.get_pager(rows)),
        Err(f) => Err(Error::from_db(f)),
    }
}

/// What the database cursor of a query hands over next.
#[derive(Debug)]
pub enum FetchEvent {
    /// A matching row.
    Row(Reservation),
    /// A summary of a finished statement, which carries no row.
    Summary,
    /// The cursor failed.
    Failure(DbFailure),
}

/// The producer that moves a query's rows from the database cursor into a
/// bounded channel. It finishes when the cursor ends, after it has sent an
/// error, or as soon as a send finds the receiver gone.
#[derive(Debug)]
pub struct QueryProducer {
    pub finished: bool,
    /// An error was handed out: the producer finishes after sending it.
    pub closing: bool,
}

impl QueryProducer {
    pub fn new() -> (r: QueryProducer)
        ensures
            !r.finished,
            !r.closing,
    {
        QueryProducer { finished: false, closing: false }
    }

    pub fn is_finished(&self) -> (r: bool)
        ensures
            r == self.finished,
    {
        self.finished
    }

    /// The item to send for the cursor's next event, if any; `None` as the
    /// event means the cursor has ended.
    pub fn on_event(&mut self, event: Option<FetchEvent>) -> (r: Option<Result<Reservation, Error>>)
        requires
            !old(self).finished,
            !old(self).closing,
        ensures
            match event {
                None => r is None && final(self).finished,
                Some(FetchEvent::Summary) => r is None && *final(self) == *old(self),
                Some(FetchEvent::Row(x)) => r == Some(Ok::<Reservation, Error>(x)) && *final(self)
                    == *old(self),
                Some(FetchEvent::Failure(f)) => r is Some && r->Some_0 is Err && failure_error(
                    f,
                    r->Some_0->Err_0,
                ) && final(self).closing && !final(self).finished,
            },
    {
        match event {
            None => {
                self.finished = true;
                None
            },
            Some(FetchEvent::Summary) => None,
            Some(FetchEvent::Row(x)) => Some(Ok(x)),
            Some(FetchEvent::Failure(f)) => {
                self.closing = true;
                Some(Err(Error::from_db(f)))
            },
        }
    }

    /// Records the outcome of a send: `delivered` is false when the
    /// receiving stream was dropped, and then the producer finishes.
    pub fn on_sent(&mut self, delivered: bool)
        requires
            !old(self).finished,
        ensures
            final(self).finished == (!delivered || old(self).closing),
            final(self).closing == old(self).closing,
            !delivered ==> final(self).finished,
    {
        if !delivered || self.closing {
            self.finished = true;
        }
    }
}

/// One item of a query stream as the remote caller sees it: rows pass as
/// they are, an error becomes its status, the channel's end ends the stream.
pub fn stream_item<T>(item: Option<Result<T, Error>>) -> (r: Option<Result<T, RpcStatus>>)
    ensures
        match item {
            None => r is None,
            Some(Ok(x)) => r is Some && r->Some_0 is Ok && r->Some_0->Ok_0 == x,
            Some(Err(e)) => r is Some && r->Some_0 is Err && (r->Some_0->Err_0.code, r->Some_0->Err_0.message@)
                == status_of(e),
        },
{
    match item {
        None => None,
        Some(Ok(x)) => Some(Ok(x)),
        Some(Err(e)) => Some(Err(e.to_status())),
    }
}

} // verus!
