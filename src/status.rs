use vstd::prelude::*;

use crate::text::text_eq;

verus! {

/// Status of a reservation, numbered as on the wire: unknown 0, pending 1,
/// confirmed 2, blocked 3.
#[derive(Clone, Copy, Debug, PartialEq, Eq, Hash, PartialOrd, Ord, Structural)]
pub enum ReservationStatus {
    Unknown,
    Pending,
    Confirmed,
    Blocked,
}

/// Wire number of a status.
pub open spec fn status_code(s: ReservationStatus) -> i32 {
    match s {
        ReservationStatus::Unknown => 0,
        ReservationStatus::Pending => 1,
        ReservationStatus::Confirmed => 2,
        ReservationStatus::Blocked => 3,
    }
}

/// The status with a wire number, if any.
pub open spec fn status_of_code(code: i32) -> Option<ReservationStatus> {
    if code == 0 {
        Some(ReservationStatus::Unknown)
    } else if code == 1 {
        Some(ReservationStatus::Pending)
    } else if code == 2 {
        Some(ReservationStatus::Confirmed)
    } else if code == 3 {
        Some(ReservationStatus::Blocked)
    } else {
        None
    }
}

/// Lower-case name of a status, as the database enum spells it.
pub open spec fn status_name(s: ReservationStatus) -> Seq<char> {
    match s {
        ReservationStatus::Unknown => "unknown"@,
        ReservationStatus::Pending => "pending"@,
        ReservationStatus::Confirmed => "confirmed"@,
        ReservationStatus::Blocked => "blocked"@,
    }
}

impl ReservationStatus {
    /// The status with the given wire number.
    pub fn from_i32(code: i32) -> (r: Option<ReservationStatus>)
        ensures
            r == status_of_code(code),
    {
        match code {
            0 => Some(ReservationStatus::Unknown),
            1 => Some(ReservationStatus::Pending),
            2 => Some(ReservationStatus::Confirmed),
            3 => Some(ReservationStatus::Blocked),
            _ => None,
        }
    }

    /// The wire number of this status.
    pub fn code(&self) -> (r: i32)
        ensures
            r == status_code(*self),
            status_of_code(r) == Some(*self),
    {
        match self {
            ReservationStatus::Unknown => 0,
            ReservationStatus::Pending => 1,
            ReservationStatus::Confirmed => 2,
            ReservationStatus::Blocked => 3,
        }
    }

    /// Lower-case name, as the database enum `rsvp.reservation_status` has it.
    pub fn name(&self) -> (r: &'static str)
        ensures
            r@ == status_name(*self),
    {
        match self {
            ReservationStatus::Unknown => "unknown",
            ReservationStatus::Pending => "pending",
            ReservationStatus::Confirmed => "confirmed",
            ReservationStatus::Blocked => "blocked",
        }
    }

    /// Name of the value in the protocol definition.
    pub fn as_str_name(&self) -> (r: &'static str)
        ensures
            r@ == match *self {
                ReservationStatus::Unknown => "RESERVATION_STATUS_UNKNOWN"@,
                ReservationStatus::Pending => "RESERVATION_STATUS_PENDING"@,
                ReservationStatus::Confirmed => "RESERVATION_STATUS_CONFIRMED"@,
                ReservationStatus::Blocked => "RESERVATION_STATUS_BLOCKED"@,
            },
    {
        match self {
            ReservationStatus::Unknown => "RESERVATION_STATUS_UNKNOWN",
            ReservationStatus::Pending => "RESERVATION_STATUS_PENDING",
            ReservationStatus::Confirmed => "RESERVATION_STATUS_CONFIRMED",
            ReservationStatus::Blocked => "RESERVATION_STATUS_BLOCKED",
        }
    }
}

/// Kind of change that the listener reports: unknown 0, create 1,
/// update 2, delete 3.
#[derive(Clone, Copy, Debug, PartialEq, Eq, Hash, PartialOrd, Ord, Structural)]
pub enum ReservationUpdateType {
    Unknown,
    Create,
    Update,
    Delete,
}

impl ReservationUpdateType {
    /// The update kind with the given wire number.
    pub fn from_i32(code: i32) -> (r: Option<ReservationUpdateType>)
        ensures
            r == (if code == 0 {
                Some(ReservationUpdateType::Unknown)
            } else if code == 1 {
                Some(ReservationUpdateType::Create)
            } else if code == 2 {
                Some(ReservationUpdateType::Update)
            } else if code == 3 {
                Some(ReservationUpdateType::Delete)
            } else {
                None
            }),
    {
        match code {
            0 => Some(ReservationUpdateType::Unknown),
            1 => Some(ReservationUpdateType::Create),
            2 => Some(ReservationUpdateType::Update),
            3 => Some(ReservationUpdateType::Delete),
            _ => None,
        }
    }

    /// Name of the value in the protocol definition.
    pub fn as_str_name(&self) -> (r: &'static str)
        ensures
            r@ == match *self {
                ReservationUpdateType::Unknown => "RESERVATION_UPDATE_TYPE_UNKNOWN"@,
                ReservationUpdateType::Create => "RESERVATION_UPDATE_TYPE_CREATE"@,
                ReservationUpdateType::Update => "RESERVATION_UPDATE_TYPE_UPDATE"@,
                ReservationUpdateType::Delete => "RESERVATION_UPDATE_TYPE_DELETE"@,
            },
    {
        match self {
            ReservationUpdateType::Unknown => "RESERVATION_UPDATE_TYPE_UNKNOWN",
            ReservationUpdateType::Create => "RESERVATION_UPDATE_TYPE_CREATE",
            ReservationUpdateType::Update => "RESERVATION_UPDATE_TYPE_UPDATE",
            ReservationUpdateType::Delete => "RESERVATION_UPDATE_TYPE_DELETE",
        }
    }
}

/// The database's `reservation_status` enum, as rows carry it.
#[derive(Clone, Copy, Debug, PartialEq, Eq, Structural)]
pub enum RsvpStatus {
    Unknown,
    Confirmed,
    Pending,
    Blocked,
}

/// The reservation status that a database status stands for.
pub open spec fn rsvp_status(s: RsvpStatus) -> ReservationStatus {
    match s {
        RsvpStatus::Unknown => ReservationStatus::Unknown,
        RsvpStatus::Confirmed => ReservationStatus::Confirmed,
        RsvpStatus::Pending => ReservationStatus::Pending,
        RsvpStatus::Blocked => ReservationStatus::Blocked,
    }
}

impl From<RsvpStatus> for ReservationStatus {
    fn from(status: RsvpStatus) -> (r: ReservationStatus)
        ensures
            r == rsvp_status(status),
    {
        match status {
            RsvpStatus::Pending => ReservationStatus::Pending,
            RsvpStatus::Blocked => ReservationStatus::Blocked,
            RsvpStatus::Confirmed => ReservationStatus::Confirmed,
            RsvpStatus::Unknown => ReservationStatus::Unknown,
        }
    }
}

impl RsvpStatus {
    /// The database status with the given name.
    pub fn from_name(name: &str) -> (r: Option<RsvpStatus>)
        ensures
            r == (if name@ == "unknown"@ {
                Some(RsvpStatus::Unknown)
            } else if name@ == "confirmed"@ {
                Some(RsvpStatus::Confirmed)
            } else if name@ == "pending"@ {
                Some(RsvpStatus::Pending)
            } else if name@ == "blocked"@ {
                Some(RsvpStatus::Blocked)
            } else {
                None
            }),
    {
        if text_eq(name, "unknown") {
            Some(RsvpStatus::Unknown)
        } else if text_eq(name, "confirmed") {
            Some(RsvpStatus::Confirmed)
        } else if text_eq(name, "pending") {
            Some(RsvpStatus::Pending)
        } else if text_eq(name, "blocked") {
            Some(RsvpStatus::Blocked)
        } else {
            None
        }
    }
}

impl vstd::std_specs::convert::FromSpecImpl<RsvpStatus> for ReservationStatus {
    open spec fn obeys_from_spec() -> bool {
        true
    }

    open spec fn from_spec(v: RsvpStatus) -> ReservationStatus {
        rsvp_status(v)
    }
}

} // verus!
