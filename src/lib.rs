//! Reservation engine: conflict-free reservations of named resources over
//! half-open time windows, with the request model, validation, the SQL
//! compiler, the cursor pager and the decisions of the manager, the stream
//! adapter and the change listener.
mod builder;
mod config;
mod conflict;
mod error;
mod listener;
mod manager;
mod model;
mod pager;
mod sql;
mod status;
mod text;
mod time;

pub use builder::{ReservationFilterBuilder, ReservationQueryBuilder, DEFAULT_PAGE_SIZE};
pub use config::{default_pool_size, Config, DbConfig, ServerConfig};
pub use conflict::{ConflictView, ReservationConflict, ReservationConflictInfo, ReservationWindow, WindowView};
pub use error::{DbFailure, Error, RpcCode, RpcStatus};
pub use listener::{reconnect_delay_ms, Reconnect, BACKOFF_BASE_MS, BACKOFF_CAP_MS, CHANGE_CHANNEL};
pub use manager::{
    confirm_result, filter_result, filter_sql, lemma_confirm_advances, lemma_confirm_twice, lemma_insert_round_trip, lemma_reserve_keeps_overlap_free, lemma_reserves_overlap_free, query_sql,
    row_result, stream_item, FetchEvent, NewReservation, QueryProducer, CONFIRM_SQL, DELETE_SQL, GET_SQL,
    INSERT_SQL, UPDATE_NOTE_SQL,
};
pub use model::{
    lemma_normalize_idempotent, FilterPager, Normalizer, Reservation, ReservationFilter, ReservationId, ReservationQuery, Validator,
    MAX_PAGE_SIZE, MIN_PAGE_SIZE,
};
pub use pager::{lemma_filter_page, lemma_pager_shape, lemma_pages_cover};
pub use sql::ToSql;
pub use status::{ReservationStatus, ReservationUpdateType, RsvpStatus};
pub use text::{decimal, quote_literal, sql_literal};
pub use time::{get_timespan, validate_range, TimeSpan, Timestamp};
