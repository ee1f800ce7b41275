//! The reservation and the rules that it must meet.

use vstd::prelude::*;
use vstd::string::StringExecFns;
use crate::error::{outcome, Error, ErrorView};
use crate::pager::Id;
use crate::status::{ReservationStatus, RsvpStatus};
use crate::time::{get_timestamp, half_open, window_valid, NaiveRange, TimeRange, Timestamp};
use crate::traits::Validator;

verus! {

/// A resource held by a user for a window of time.
#[derive(Debug, Clone, PartialEq, Eq)]
pub struct Reservation {
    /// The number that the store gave; 0 until it gave one.
    pub id: i64,
    pub user_id: String,
    pub resource_id: String,
    pub start: Option<Timestamp>,
    pub end: Option<Timestamp>,
    pub note: String,
    /// The status by its integer.
    pub status: i32,
}

/// A reservation with its texts as sequences of characters.
pub struct ReservationView {
    pub id: i64,
    pub user_id: Seq<char>,
    pub resource_id: Seq<char>,
    pub start: Option<Timestamp>,
    pub end: Option<Timestamp>,
    pub note: Seq<char>,
    pub status: i32,
}

impl View for Reservation {
    type V = ReservationView;

    open spec fn view(&self) -> ReservationView {
        ReservationView {
            id: self.id,
            user_id: self.user_id@,
            resource_id: self.resource_id@,
            start: self.start,
            end: self.end,
            note: self.note@,
            status: self.status,
        }
    }
}

/// Checks the two ends of a reservation's window: both are there, and the
/// start lies strictly before the end.
pub fn validate_range(start: Option<&Timestamp>, end: Option<&Timestamp>) -> (r: Result<
    (),
    Error,
>)
    ensures
        outcome(r) == if window_valid(
            match start { Some(t) => Some(*t), None => None },
            match end { Some(t) => Some(*t), None => None },
        ) {
            Ok::<(), ErrorView>(())
        } else {
            Err(ErrorView::InvalidTime)
        },
{
    match start {
        Some(s) => match end {
            Some(e) => if s.before(e) {
                Ok(())
            } else {
                Err(Error::InvalidTime)
            },
            None => Err(Error::InvalidTime),
        },
        None => Err(Error::InvalidTime),
    }
}

impl ReservationView {
    /// What is wrong with a reservation, if anything: a user without a name
    /// first, then a resource without one, then the window.
    pub open spec fn validated(self) -> Result<(), ErrorView> {
        if self.user_id.len() == 0 {
            Err(ErrorView::InvalidUserId(self.user_id))
        } else if self.resource_id.len() == 0 {
            Err(ErrorView::InvalidResourceId(self.resource_id))
        } else if !window_valid(self.start, self.end) {
            Err(ErrorView::InvalidTime)
        } else {
            Ok(())
        }
    }
}

impl Reservation {
    /// A reservation that waits to be confirmed, not yet known to the store.
    pub fn new_pending(uid: &str, rid: &str, start: Timestamp, end: Timestamp, note: &str) -> (r:
        Reservation)
        ensures
            r@ == (ReservationView {
                id: 0,
                user_id: uid@,
                resource_id: rid@,
                start: Some(start),
                end: Some(end),
                note: note@,
                status: ReservationStatus::Pending.number(),
            }),
    {
        Reservation {
            id: 0,
            user_id: String::from_str(uid),
            resource_id: String::from_str(rid),
            start: Some(start),
            end: Some(end),
            note: String::from_str(note),
            status: ReservationStatus::Pending.to_i32(),
        }
    }

    /// The window as the half-open range `[start, end)` that the store keeps.
    pub fn get_timespan(&self) -> (range: TimeRange)
        ensures
            range == half_open(self.start, self.end),
    {
        get_timestamp(self.start.as_ref(), self.end.as_ref())
    }

    /// The reservation that a row of the store holds. An end of the window
    /// that the row leaves open is absent from the reservation.
    pub fn from_stored(
        id: i64,
        user_id: String,
        resource_id: String,
        timespan: TimeRange,
        note: String,
        status: RsvpStatus,
    ) -> (r: Reservation)
        ensures
            r@ == (ReservationView {
                id: id,
                user_id: user_id@,
                resource_id: resource_id@,
                start: NaiveRange::of(timespan).start,
                end: NaiveRange::of(timespan).end,
                note: note@,
                status: status.shown().number(),
            }),
    {
        let range = NaiveRange::from(timespan);
        Reservation {
            id,
            user_id,
            resource_id,
            start: range.start,
            end: range.end,
            note,
            status: ReservationStatus::from(status).to_i32(),
        }
    }
}

impl Id for Reservation {
    open spec fn id_value(&self) -> i64 {
        self.id
    }

    fn id(&self) -> (r: i64) {
        self.id
    }
}

impl Validator for Reservation {
    open spec fn validated(&self) -> Result<(), ErrorView> {
        self@.validated()
    }

    fn validate(&self) -> (r: Result<(), Error>) {
        if self.user_id.as_str().is_empty() {
            return Err(Error::InvalidUserId(self.user_id.clone()));
        }
        if self.resource_id.as_str().is_empty() {
            return Err(Error::InvalidResourceId(self.resource_id.clone()));
        }
        validate_range(self.start.as_ref(), self.end.as_ref())
    }
}

/// What is wrong with the number of a reservation, if anything: the store
/// gives only numbers above zero.
pub open spec fn id_validated(id: i64) -> Result<(), ErrorView> {
    if id <= 0 {
        Err(ErrorView::InvalidReservationId(id))
    } else {
        Ok(())
    }
}

impl Validator for i64 {
    open spec fn validated(&self) -> Result<(), ErrorView> {
        id_validated(*self)
    }

    fn validate(&self) -> (r: Result<(), Error>) {
        if *self <= 0 {
            return Err(Error::InvalidReservationId(*self));
        }
        Ok(())
    }
}

/// For every reservation that names its user and its resource, the check
/// passes exactly when the window has both ends and starts before it ends,
/// and fails with `InvalidTime` in every other case.
pub proof fn lemma_window_decides(r: Reservation)
    requires
        r.user_id@.len() > 0,
        r.resource_id@.len() > 0,
    ensures
        window_valid(r.start, r.end) ==> r.validated() == Ok::<(), ErrorView>(()),
        !window_valid(r.start, r.end) ==> r.validated() == Err::<(), ErrorView>(
            ErrorView::InvalidTime,
        ),
        r.start is None || r.end is None ==> r.validated() == Err::<(), ErrorView>(
            ErrorView::InvalidTime,
        ),
        r.start is Some && r.end is Some && r.start->0.instant() >= r.end->0.instant()
            ==> r.validated() == Err::<(), ErrorView>(ErrorView::InvalidTime),
{
}

} // verus!
