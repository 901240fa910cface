use reservation::{
    decimal, quote_literal, sql_literal, validate_range, Error, Normalizer, Reservation, ReservationFilter,
    ReservationFilterBuilder, ReservationQueryBuilder, ReservationStatus, ReservationUpdateType, RsvpStatus, Timestamp, ToSql, Validator,
};

fn ts(seconds: i64) -> Timestamp {
    Timestamp { seconds, nanos: 0 }
}

#[test]
fn range_needs_both_ends_in_order() {
    assert_eq!(validate_range(Some(&ts(1)), Some(&ts(2))), Ok(()));
    assert_eq!(validate_range(Some(&ts(2)), Some(&ts(2))), Err(Error::InvalidTime));
    assert_eq!(validate_range(Some(&ts(3)), Some(&ts(2))), Err(Error::InvalidTime));
    assert_eq!(validate_range(None, Some(&ts(2))), Err(Error::InvalidTime));
    assert_eq!(validate_range(Some(&ts(1)), None), Err(Error::InvalidTime));
    // second precision: nanoseconds do not order the ends
    let a = Timestamp { seconds: 5, nanos: 1 };
    let b = Timestamp { seconds: 5, nanos: 2 };
    assert_eq!(validate_range(Some(&a), Some(&b)), Err(Error::InvalidTime));
}

#[test]
fn reservation_validation_names_the_fault() {
    let ok = Reservation::new_pending("u", "r", ts(1), ts(2), "");
    assert_eq!(ok.validate(), Ok(()));
    let r = Reservation::new_pending("", "r", ts(1), ts(2), "");
    assert_eq!(r.validate(), Err(Error::InvalidUserId("".to_string())));
    let r = Reservation::new_pending("u", "", ts(1), ts(2), "");
    assert_eq!(r.validate(), Err(Error::InvalidResourceId("".to_string())));
    let r = Reservation::new_pending("u", "r", ts(2), ts(1), "");
    assert_eq!(r.validate(), Err(Error::InvalidTime));
}

#[test]
fn reservation_id_must_be_positive() {
    assert_eq!(1i64.validate(), Ok(()));
    assert_eq!(0i64.validate(), Err(Error::InvalidReservationId(0)));
    assert_eq!((-7i64).validate(), Err(Error::InvalidReservationId(-7)));
}

#[test]
fn filter_page_size_is_clamped() {
    let f = ReservationFilterBuilder::default().page_size(3).build().unwrap();
    assert_eq!(f.page_size, 10);
    let f = ReservationFilterBuilder::default().page_size(1000).build().unwrap();
    assert_eq!(f.page_size, 100);
    let f = ReservationFilterBuilder::default().page_size(42).build().unwrap();
    assert_eq!(f.page_size, 42);
    let err = ReservationFilterBuilder::default().cursor(0).build().unwrap_err();
    assert_eq!(err, Error::InvalidReservationId(0));
}

#[test]
fn normalize_twice_is_normalize_once() {
    let mut f = ReservationFilter {
        user_id: "u".to_string(),
        resource_id: String::new(),
        status: 1,
        cursor: Some(4),
        page_size: 500,
        desc: true,
    };
    f.normalize().unwrap();
    let once = f.clone();
    f.normalize().unwrap();
    assert_eq!(f, once);
    assert_eq!(f.page_size, 100);
}

#[test]
fn query_builder_checks_window() {
    let q = ReservationQueryBuilder::default().user_id("user").build().unwrap();
    assert_eq!(q.user_id, "user");
    assert_eq!(q.page_size, 10);
    let q = ReservationQueryBuilder::default().start(ts(5)).end(ts(9)).build().unwrap();
    assert_eq!(q.get_timespan(), reservation::TimeSpan { start: ts(5), end: ts(9) });
    let err = ReservationQueryBuilder::default().start(ts(5)).build().unwrap_err();
    assert_eq!(err, Error::InvalidTime);
    let err = ReservationQueryBuilder::default().start(ts(5)).end(ts(5)).build().unwrap_err();
    assert_eq!(err, Error::InvalidTime);
}

#[test]
fn literals_are_escaped() {
    assert_eq!(quote_literal("o'neil"), "'o''neil'");
    assert_eq!(quote_literal(""), "''");
    assert_eq!(sql_literal(""), "null");
    assert_eq!(sql_literal("a'b"), "'a''b'");
    assert_eq!(decimal(0), "0");
    assert_eq!(decimal(1234567890), "1234567890");
    assert_eq!(decimal(-42), "-42");
    assert_eq!(decimal(i64::MIN), "-9223372036854775808");
}

#[test]
fn query_compiles_to_stored_function_call() {
    let q = ReservationQueryBuilder::default()
        .user_id("user_id_1")
        .resource_id("ocean-view-room-713")
        .start(Timestamp::parse("2022-12-25T15:00:00-0700").unwrap())
        .end(Timestamp::parse("2022-12-28T12:00:00-0700").unwrap())
        .status(ReservationStatus::Pending)
        .build()
        .unwrap();
    assert_eq!(
        q.to_sql().unwrap(),
        "SELECT * FROM rsvp.query('user_id_1', 'ocean-view-room-713', tstzrange('2022-12-25T22:00:00+00:00', '2022-12-28T19:00:00+00:00', '[]'), 'pending'::rsvp.reservation_status, 0, FALSE, 10)"
    );
    let q = ReservationQueryBuilder::default().user_id("o'neil").desc(true).page(2).build().unwrap();
    assert_eq!(
        q.to_sql().unwrap(),
        "SELECT * FROM rsvp.query('o''neil', null, tstzrange(NULL, NULL), 'unknown'::rsvp.reservation_status, 2, TRUE, 10)"
    );
}

#[test]
fn query_with_unrepresentable_time_is_refused() {
    let q = ReservationQueryBuilder::default()
        .start(Timestamp { seconds: i64::MAX - 1, nanos: 0 })
        .end(Timestamp { seconds: i64::MAX, nanos: 0 })
        .build()
        .unwrap();
    assert_eq!(q.to_sql(), Err(Error::InvalidTime));
}

#[test]
fn filter_compiles_with_lookahead() {
    let f = ReservationFilterBuilder::default()
        .user_id("filter_user_id")
        .status(ReservationStatus::Pending)
        .build()
        .unwrap();
    assert_eq!(
        f.to_sql().unwrap(),
        "SELECT * FROM rsvp.filter('filter_user_id', null, 'pending'::rsvp.reservation_status, null, FALSE, 11)"
    );
    let f = ReservationFilterBuilder::default()
        .resource_id("room")
        .status(ReservationStatus::Confirmed)
        .cursor(10)
        .desc(true)
        .build()
        .unwrap();
    assert_eq!(
        f.to_sql().unwrap(),
        "SELECT * FROM rsvp.filter(null, 'room', 'confirmed'::rsvp.reservation_status, 10, TRUE, 12)"
    );
}

#[test]
fn status_numbers_and_names() {
    assert_eq!(ReservationStatus::from_i32(2), Some(ReservationStatus::Confirmed));
    assert_eq!(ReservationStatus::from_i32(9), None);
    assert_eq!(ReservationStatus::Blocked.code(), 3);
    assert_eq!(ReservationStatus::Confirmed as i32, 2);
    assert_eq!(ReservationStatus::Pending.name(), "pending");
    assert_eq!(ReservationStatus::Unknown.as_str_name(), "RESERVATION_STATUS_UNKNOWN");
    assert_eq!(RsvpStatus::from_name("confirmed"), Some(RsvpStatus::Confirmed));
    assert_eq!(RsvpStatus::from_name("Confirmed"), None);
    assert_eq!(ReservationStatus::from(RsvpStatus::Blocked), ReservationStatus::Blocked);
    assert_eq!(ReservationUpdateType::from_i32(3), Some(ReservationUpdateType::Delete));
    assert_eq!(ReservationUpdateType::Create.as_str_name(), "RESERVATION_UPDATE_TYPE_CREATE");
}
