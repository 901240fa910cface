use vstd::prelude::*;

use crate::error::Error;
use crate::model::{Normalizer, ReservationFilter, ReservationQuery, Validator};
use crate::status::{status_code, ReservationStatus};
use crate::time::Timestamp;

verus! {

/// Page size of a query or filter that names none.
pub const DEFAULT_PAGE_SIZE: i64 = 10;

/// Builds a `ReservationQuery` field by field.
#[derive(Debug, Clone)]
pub struct ReservationQueryBuilder {
    pub user_id: String,
    pub resource_id: String,
    pub status: i32,
    pub start: Option<Timestamp>,
    pub end: Option<Timestamp>,
    pub page: i32,
    pub page_size: i64,
    pub desc: bool,
}

impl Default for ReservationQueryBuilder {
    fn default() -> (r: ReservationQueryBuilder)
        ensures
            r.user_id@.len() == 0,
            r.resource_id@.len() == 0,
            r.status == 0,
            r.start is None,
            r.end is None,
            r.page == 0,
            r.page_size == DEFAULT_PAGE_SIZE,
            !r.desc,
    {
        ReservationQueryBuilder {
            user_id: String::new(),
            resource_id: String::new(),
            status: 0,
            start: None,
            end: None,
            page: 0,
            page_size: DEFAULT_PAGE_SIZE,
            desc: false,
        }
    }
}

impl ReservationQueryBuilder {
    pub fn user_id(self, user_id: &str) -> (r: ReservationQueryBuilder)
        ensures
            r.user_id@ == user_id@,
            r.resource_id@ == self.resource_id@,
            r.status == self.status && r.start == self.start && r.end == self.end,
            r.page == self.page && r.page_size == self.page_size && r.desc == self.desc,
    {
        ReservationQueryBuilder { user_id: user_id.to_string(), ..self }
    }

    pub fn resource_id(self, resource_id: &str) -> (r: ReservationQueryBuilder)
        ensures
            r.resource_id@ == resource_id@,
            r.user_id@ == self.user_id@,
            r.status == self.status && r.start == self.start && r.end == self.end,
            r.page == self.page && r.page_size == self.page_size && r.desc == self.desc,
    {
        ReservationQueryBuilder { resource_id: resource_id.to_string(), ..self }
    }

    pub fn status(self, status: ReservationStatus) -> (r: ReservationQueryBuilder)
        ensures
            r == (ReservationQueryBuilder { status: status_code(status), ..self }),
    {
        ReservationQueryBuilder { status: status.code(), ..self }
    }

    pub fn start(self, start: Timestamp) -> (r: ReservationQueryBuilder)
        ensures
            r == (ReservationQueryBuilder { start: Some(start), ..self }),
    {
        ReservationQueryBuilder { start: Some(start), ..self }
    }

    pub fn end(self, end: Timestamp) -> (r: ReservationQueryBuilder)
        ensures
            r == (ReservationQueryBuilder { end: Some(end), ..self }),
    {
        ReservationQueryBuilder { end: Some(end), ..self }
    }

    pub fn page(self, page: i32) -> (r: ReservationQueryBuilder)
        ensures
            r == (ReservationQueryBuilder { page, ..self }),
    {
        ReservationQueryBuilder { page, ..self }
    }

    pub fn page_size(self, page_size: i64) -> (r: ReservationQueryBuilder)
        ensures
            r == (ReservationQueryBuilder { page_size, ..self }),
    {
        ReservationQueryBuilder { page_size, ..self }
    }

    pub fn desc(self, desc: bool) -> (r: ReservationQueryBuilder)
        ensures
            r == (ReservationQueryBuilder { desc, ..self }),
    {
        ReservationQueryBuilder { desc, ..self }
    }

    /// The query, validated and normalized.
    pub fn build(&self) -> (r: Result<ReservationQuery, Error>)
        ensures
            ({
                let q = ReservationQuery {
                    user_id: self.user_id,
                    resource_id: self.resource_id,
                    status: self.status,
                    start: self.start,
                    end: self.end,
                    page: self.page,
                    page_size: self.page_size,
                    desc: self.desc,
                };
                match q.validation() {
                    Ok(()) => r is Ok && r->Ok_0 == q.normalized(),
                    Err(e) => r == Err::<ReservationQuery, Error>(e),
                }
            }),
    {
        let mut query = ReservationQuery {
            user_id: self.user_id.clone(),
            resource_id: self.resource_id.clone(),
            status: self.status,
            start: self.start,
            end: self.end,
            page: self.page,
            page_size: self.page_size,
            desc: self.desc,
        };
        match query.normalize() {
            Ok(()) => Ok(query),
            Err(e) => Err(e),
        }
    }
}

/// Builds a `ReservationFilter` field by field.
#[derive(Debug, Clone)]
pub struct ReservationFilterBuilder {
    pub user_id: String,
    pub resource_id: String,
    pub status: i32,
    pub cursor: Option<i64>,
    pub page_size: i64,
    pub desc: bool,
}

impl Default for ReservationFilterBuilder {
    fn default() -> (r: ReservationFilterBuilder)
        ensures
            r.user_id@.len() == 0,
            r.resource_id@.len() == 0,
            r.status == 0,
            r.cursor is None,
            r.page_size == DEFAULT_PAGE_SIZE,
            !r.desc,
    {
        ReservationFilterBuilder {
            user_id: String::new(),
            resource_id: String::new(),
            status: 0,
            cursor: None,
            page_size: DEFAULT_PAGE_SIZE,
            desc: false,
        }
    }
}

impl ReservationFilterBuilder {
    pub fn user_id(self, user_id: &str) -> (r: ReservationFilterBuilder)
        ensures
            r.user_id@ == user_id@,
            r.resource_id@ == self.resource_id@,
            r.status == self.status && r.cursor == self.cursor,
            r.page_size == self.page_size && r.desc == self.desc,
    {
        ReservationFilterBuilder { user_id: user_id.to_string(), ..self }
    }

    pub fn resource_id(self, resource_id: &str) -> (r: ReservationFilterBuilder)
        ensures
            r.resource_id@ == resource_id@,
            r.user_id@ == self.user_id@,
            r.status == self.status && r.cursor == self.cursor,
            r.page_size == self.page_size && r.desc == self.desc,
    {
        ReservationFilterBuilder { resource_id: resource_id.to_string(), ..self }
    }

    pub fn status(self, status: ReservationStatus) -> (r: ReservationFilterBuilder)
        ensures
            r == (ReservationFilterBuilder { status: status_code(status), ..self }),
    {
        ReservationFilterBuilder { status: status.code(), ..self }
    }

    pub fn cursor(self, cursor: i64) -> (r: ReservationFilterBuilder)
        ensures
            r == (ReservationFilterBuilder { cursor: Some(cursor), ..self }),
    {
        ReservationFilterBuilder { cursor: Some(cursor), ..self }
    }

    pub fn page_size(self, page_size: i64) -> (r: ReservationFilterBuilder)
        ensures
            r == (ReservationFilterBuilder { page_size, ..self }),
    {
        ReservationFilterBuilder { page_size, ..self }
    }

    pub fn desc(self, desc: bool) -> (r: ReservationFilterBuilder)
        ensures
            r == (ReservationFilterBuilder { desc, ..self }),
    {
        ReservationFilterBuilder { desc, ..self }
    }

    /// The filter, validated and normalized.
    pub fn build(&self) -> (r: Result<ReservationFilter, Error>)
        ensures
            ({
                let f = ReservationFilter {
                    user_id: self.user_id,
                    resource_id: self.resource_id,
                    status: self.status,
                    cursor: self.cursor,
                    page_size: self.page_size,
                    desc: self.desc,
                };
                match f.validation() {
                    Ok(()) => r is Ok && r->Ok_0 == f.normalized(),
                    Err(e) => r == Err::<ReservationFilter, Error>(e),
                }
            }),
    {
        let mut filter = ReservationFilter {
            user_id: self.user_id.clone(),
            resource_id: self.resource_id.clone(),
            status: self.status,
            cursor: self.cursor,
            page_size: self.page_size,
            desc: self.desc,
        };
        match filter.normalize() {
            Ok(()) => Ok(filter),
            Err(e) => Err(e),
        }
    }
}

} // verus!
