//! The states of a reservation, by number, by word and as the store holds
//! them.

use vstd::prelude::*;

verus! {

/// The state of a reservation as requests and replies carry it.
#[derive(Debug, Clone, Copy, PartialEq, Eq, Structural)]
pub enum ReservationStatus {
    Unknown,
    Pending,
    Confirmed,
    Blocked,
}

/// The state of a reservation as the store's `reservation_status` type holds it.
#[derive(Debug, Clone, Copy, PartialEq, Eq, Structural)]
pub enum RsvpStatus {
    Unknown,
    Pending,
    Confirmed,
    Blocked,
}

impl ReservationStatus {
    /// The status that an integer names: 0 to 3 in the order of the variants.
    pub open spec fn named_by(value: i32) -> Option<ReservationStatus> {
        if value == 0 {
            Some(ReservationStatus::Unknown)
        } else if value == 1 {
            Some(ReservationStatus::Pending)
        } else if value == 2 {
            Some(ReservationStatus::Confirmed)
        } else if value == 3 {
            Some(ReservationStatus::Blocked)
        } else {
            None
        }
    }

    /// The integer that names a status.
    pub open spec fn number(self) -> i32 {
        match self {
            ReservationStatus::Unknown => 0,
            ReservationStatus::Pending => 1,
            ReservationStatus::Confirmed => 2,
            ReservationStatus::Blocked => 3,
        }
    }

    /// The word by which the store knows a status.
    pub open spec fn word(self) -> Seq<char> {
        match self {
            ReservationStatus::Unknown => "unknown"@,
            ReservationStatus::Pending => "pending"@,
            ReservationStatus::Confirmed => "confirmed"@,
            ReservationStatus::Blocked => "blocked"@,
        }
    }

    /// The status to work with where `value` arrived as the status: the one it
    /// names, and `Pending` where it names none or names `Unknown`.
    pub open spec fn settled(value: i32) -> ReservationStatus {
        match Self::named_by(value) {
            Some(ReservationStatus::Confirmed) => ReservationStatus::Confirmed,
            Some(ReservationStatus::Blocked) => ReservationStatus::Blocked,
            _ => ReservationStatus::Pending,
        }
    }

    /// The status that an integer stands for where one is needed: the one it
    /// names, and `Pending` where it names none.
    pub open spec fn of_number(value: i32) -> ReservationStatus {
        match Self::named_by(value) {
            Some(status) => status,
            None => ReservationStatus::Pending,
        }
    }

    /// Reads a status from its integer; `None` for an integer that names none.
    pub fn from_i32(value: i32) -> (r: Option<ReservationStatus>)
        ensures
            r == Self::named_by(value),
    {
        if value == 0 {
            Some(ReservationStatus::Unknown)
        } else if value == 1 {
            Some(ReservationStatus::Pending)
        } else if value == 2 {
            Some(ReservationStatus::Confirmed)
        } else if value == 3 {
            Some(ReservationStatus::Blocked)
        } else {
            None
        }
    }

    /// The integer of a status.
    pub fn to_i32(&self) -> (r: i32)
        ensures
            r == self.number(),
            Self::named_by(r) == Some(*self),
    {
        match self {
            ReservationStatus::Unknown => 0,
            ReservationStatus::Pending => 1,
            ReservationStatus::Confirmed => 2,
            ReservationStatus::Blocked => 3,
        }
    }

    /// The lower-case word of a status, as the store spells it.
    pub fn as_str(&self) -> (r: &'static str)
        ensures
            r@ == self.word(),
    {
        match self {
            ReservationStatus::Unknown => "unknown",
            ReservationStatus::Pending => "pending",
            ReservationStatus::Confirmed => "confirmed",
            ReservationStatus::Blocked => "blocked",
        }
    }

    /// The word of a status as an owned string.
    pub fn to_string(&self) -> (r: String)
        ensures
            r@ == self.word(),
    {
        self.as_str().to_owned()
    }
}

impl RsvpStatus {
    /// The status of a request that stands for a stored status.
    pub open spec fn shown(self) -> ReservationStatus {
        match self {
            RsvpStatus::Unknown => ReservationStatus::Unknown,
            RsvpStatus::Pending => ReservationStatus::Pending,
            RsvpStatus::Confirmed => ReservationStatus::Confirmed,
            RsvpStatus::Blocked => ReservationStatus::Blocked,
        }
    }
}

impl From<RsvpStatus> for ReservationStatus {
    fn from(status: RsvpStatus) -> (r: ReservationStatus) {
        match status {
            RsvpStatus::Unknown => ReservationStatus::Unknown,
            RsvpStatus::Pending => ReservationStatus::Pending,
            RsvpStatus::Confirmed => ReservationStatus::Confirmed,
            RsvpStatus::Blocked => ReservationStatus::Blocked,
        }
    }
}

impl vstd::std_specs::convert::FromSpecImpl<RsvpStatus> for ReservationStatus {
    open spec fn obeys_from_spec() -> bool {
        true
    }

    open spec fn from_spec(status: RsvpStatus) -> ReservationStatus {
        status.shown()
    }
}

} // verus!
