use reservation::{
    DbFailure, Error, ReservationConflict, ReservationConflictInfo, ReservationWindow, RpcCode, Timestamp,
};

const DETAIL: &str = "Key (resource_id, timespan)=(ocean-view-room-713, [\"2022-12-26 22:00:00+00\",\"2022-12-30 19:00:00+00\")) conflicts with existing key (resource_id, timespan)=(ocean-view-room-713, [\"2022-12-25 22:00:00+00\",\"2022-12-28 19:00:00+00\")).";

fn ts(seconds: i64) -> Timestamp {
    Timestamp { seconds, nanos: 0 }
}

fn expected_conflict() -> ReservationConflictInfo {
    ReservationConflictInfo::Parsed(ReservationConflict {
        new: ReservationWindow {
            rid: "ocean-view-room-713".to_string(),
            start: Timestamp::parse("2022-12-26T15:00:00-0700").unwrap(),
            end: Timestamp::parse("2022-12-30T12:00:00-0700").unwrap(),
        },
        old: ReservationWindow {
            rid: "ocean-view-room-713".to_string(),
            start: Timestamp::parse("2022-12-25T15:00:00-0700").unwrap(),
            end: Timestamp::parse("2022-12-28T12:00:00-0700").unwrap(),
        },
    })
}

#[test]
fn timestamp_parse_converts_to_utc() {
    assert_eq!(Timestamp::parse("2022-12-25T15:00:00-0700"), Some(ts(1672005600)));
    assert_eq!(Timestamp::parse("2022-12-28T12:00:00-0700"), Some(ts(1672254000)));
    assert_eq!(Timestamp::parse("not a time"), None);
}

#[test]
fn conflict_detail_is_parsed() {
    let info = ReservationConflictInfo::parse(DETAIL);
    assert_eq!(info, expected_conflict());
    match info {
        ReservationConflictInfo::Parsed(c) => {
            assert_eq!(c.new.start, ts(1672092000));
            assert_eq!(c.new.end, ts(1672426800));
            assert_eq!(c.old.start, ts(1672005600));
            assert_eq!(c.old.end, ts(1672254000));
        }
        ReservationConflictInfo::Unparsed(_) => panic!("detail should parse"),
    }
}

#[test]
fn conflict_detail_without_period_is_parsed() {
    let detail = DETAIL.strip_suffix('.').unwrap();
    assert_eq!(ReservationConflictInfo::parse(detail), expected_conflict());
}

#[test]
fn conflict_detail_with_comma_in_resource_is_parsed() {
    let detail = DETAIL.replace("ocean-view-room-713", "room,1");
    match ReservationConflictInfo::parse(&detail) {
        ReservationConflictInfo::Parsed(c) => {
            assert_eq!(c.new.rid, "room,1");
            assert_eq!(c.old.rid, "room,1");
            assert_eq!(c.new.start, ts(1672092000));
            assert_eq!(c.old.end, ts(1672254000));
        }
        ReservationConflictInfo::Unparsed(_) => panic!("detail should parse"),
    }
}

#[test]
fn malformed_conflict_detail_is_kept() {
    let detail = "Key (resource_id)=(room) conflicts";
    assert_eq!(
        ReservationConflictInfo::parse(detail),
        ReservationConflictInfo::Unparsed(detail.to_string())
    );
    let trailing = format!("{}x", DETAIL);
    assert_eq!(
        ReservationConflictInfo::parse(&trailing),
        ReservationConflictInfo::Unparsed(trailing.clone())
    );
}

#[test]
fn conflict_detail_with_unreadable_time_is_kept() {
    let detail = DETAIL.replace("2022-12-26 22:00:00+00", "yesterday");
    assert_eq!(
        ReservationConflictInfo::parse(&detail),
        ReservationConflictInfo::Unparsed(detail.clone())
    );
}

fn database_failure(code: &str, schema: Option<&str>, table: Option<&str>, detail: Option<&str>) -> DbFailure {
    DbFailure::Database {
        code: code.to_string(),
        schema: schema.map(|s| s.to_string()),
        table: table.map(|s| s.to_string()),
        detail: detail.map(|s| s.to_string()),
        message: "conflicting key value violates exclusion constraint".to_string(),
    }
}

#[test]
fn exclusion_violation_becomes_conflict() {
    let err = Error::from_db(database_failure("23P01", Some("rsvp"), Some("reservations"), Some(DETAIL)));
    assert_eq!(err, Error::ConflictReservation(expected_conflict()));
}

#[test]
fn other_database_errors_are_opaque() {
    let err = Error::from_db(database_failure("23505", Some("rsvp"), Some("reservations"), Some(DETAIL)));
    assert!(matches!(err, Error::DbError(ref m) if m == "conflicting key value violates exclusion constraint"));
    let err = Error::from_db(database_failure("23P01", Some("public"), Some("reservations"), Some(DETAIL)));
    assert!(matches!(err, Error::DbError(_)));
    assert_eq!(Error::from_db(DbFailure::Other("pool timed out".to_string())), Error::DbError("x".to_string()));
}

#[test]
fn missing_row_is_not_found() {
    assert_eq!(Error::from_db(DbFailure::RowNotFound), Error::NotFound);
}

#[test]
fn errors_compare_on_payload() {
    assert_eq!(Error::DbError("a".to_string()), Error::DbError("b".to_string()));
    assert_eq!(Error::InvalidUserId("u".to_string()), Error::InvalidUserId("u".to_string()));
    assert_ne!(Error::InvalidUserId("u".to_string()), Error::InvalidUserId("v".to_string()));
    assert_ne!(Error::InvalidReservationId(1), Error::InvalidReservationId(2));
    assert_ne!(Error::NotFound, Error::Unknown);
    assert_ne!(Error::InvalidUserId("u".to_string()), Error::InvalidResourceId("u".to_string()));
}

#[test]
fn errors_map_to_statuses() {
    let s = Error::DbError("relation rsvp.reservations".to_string()).to_status();
    assert_eq!(s.code, RpcCode::Internal);
    assert_eq!(s.message, "Database error");
    let s = Error::InvalidReservationId(-3).to_status();
    assert_eq!(s.code, RpcCode::InvalidArgument);
    assert_eq!(s.message, "Invalid reservation id: -3");
    let s = Error::InvalidUserId("".to_string()).to_status();
    assert_eq!(s.message, "Invalid user id: ");
    let s = Error::InvalidResourceId("r1".to_string()).to_status();
    assert_eq!(s.message, "Invalid resource id: r1");
    assert_eq!(Error::InvalidTime.to_status().code, RpcCode::InvalidArgument);
    assert_eq!(Error::NotFound.to_status().code, RpcCode::NotFound);
    assert_eq!(Error::Unknown.to_status().code, RpcCode::Unknown);
    assert_eq!(Error::ConfigReadError.to_status().code, RpcCode::Internal);
    assert_eq!(Error::ConfigParseError.to_status().message, "Failed to parse configuration file");
}

#[test]
fn conflict_status_names_both_windows() {
    let s = Error::ConflictReservation(expected_conflict()).to_status();
    assert_eq!(s.code, RpcCode::FailedPrecondition);
    assert_eq!(
        s.message,
        "Conflict reservation: new ocean-view-room-713 [2022-12-26T22:00:00+00:00, 2022-12-30T19:00:00+00:00) overlaps existing ocean-view-room-713 [2022-12-25T22:00:00+00:00, 2022-12-28T19:00:00+00:00)"
    );
    let s = Error::ConflictReservation(ReservationConflictInfo::Unparsed("raw".to_string())).to_status();
    assert_eq!(s.message, "Conflict reservation: raw");
}
