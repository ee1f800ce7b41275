//! Instants and ranges of instants.

use vstd::prelude::*;

verus! {

/// An instant on the UTC time line: whole seconds since the Unix epoch and
/// the nanoseconds that follow them.
#[derive(Debug, Clone, Copy, PartialEq, Eq, Structural)]
pub struct Timestamp {
    pub seconds: i64,
    pub nanos: i32,
}

impl Timestamp {
    /// The instant as one number of nanoseconds since the epoch.
    pub open spec fn instant(self) -> int {
        self.seconds * 1_000_000_000 + self.nanos
    }

    /// Whether this instant lies strictly before `other`.
    pub fn before(&self, other: &Timestamp) -> (r: bool)
        ensures
            r == (self.instant() < other.instant()),
    {
        let a: i128 = (self.seconds as i128) * 1_000_000_000 + (self.nanos as i128);
        let b: i128 = (other.seconds as i128) * 1_000_000_000 + (other.nanos as i128);
        a < b
    }
}

/// One end of a time range.
#[derive(Debug, Clone, Copy, PartialEq, Eq, Structural)]
pub enum RangeBound {
    /// The range reaches the instant and holds it.
    Included(Timestamp),
    /// The range reaches the instant and stops short of it.
    Excluded(Timestamp),
    /// The range has no end on this side.
    Unbounded,
}

/// A range of instants as the store's range type holds it.
#[derive(Debug, Clone, Copy, PartialEq, Eq, Structural)]
pub struct TimeRange {
    pub start: RangeBound,
    pub end: RangeBound,
}

/// The two ends of a range without their kind: the instant of a bounded end,
/// nothing for an open one.
#[derive(Debug, Clone, Copy, PartialEq, Eq, Structural)]
pub struct NaiveRange {
    pub start: Option<Timestamp>,
    pub end: Option<Timestamp>,
}

impl RangeBound {
    /// The instant that a bounded end names.
    pub open spec fn instant(self) -> Option<Timestamp> {
        match self {
            RangeBound::Included(t) => Some(t),
            RangeBound::Excluded(t) => Some(t),
            RangeBound::Unbounded => None,
        }
    }

    /// The lower end of a half-open window: the instant itself where there is
    /// one, no bound where there is none.
    pub open spec fn lower(start: Option<Timestamp>) -> RangeBound {
        match start {
            Some(t) => RangeBound::Included(t),
            None => RangeBound::Unbounded,
        }
    }

    /// The upper end of a half-open window: just short of the instant where
    /// there is one, no bound where there is none.
    pub open spec fn upper(end: Option<Timestamp>) -> RangeBound {
        match end {
            Some(t) => RangeBound::Excluded(t),
            None => RangeBound::Unbounded,
        }
    }
}

impl NaiveRange {
    /// What `from` makes of a range.
    pub open spec fn of(range: TimeRange) -> NaiveRange {
        NaiveRange { start: range.start.instant(), end: range.end.instant() }
    }
}

impl From<TimeRange> for NaiveRange {
    fn from(range: TimeRange) -> (r: NaiveRange) {
        let start = match range.start {
            RangeBound::Included(t) => Some(t),
            RangeBound::Excluded(t) => Some(t),
            RangeBound::Unbounded => None,
        };
        let end = match range.end {
            RangeBound::Included(t) => Some(t),
            RangeBound::Excluded(t) => Some(t),
            RangeBound::Unbounded => None,
        };
        NaiveRange { start, end }
    }
}

impl vstd::std_specs::convert::FromSpecImpl<TimeRange> for NaiveRange {
    open spec fn obeys_from_spec() -> bool {
        true
    }

    open spec fn from_spec(range: TimeRange) -> NaiveRange {
        NaiveRange::of(range)
    }
}

/// Whether a window with these ends is one that a reservation may hold: both
/// ends are there and the start lies strictly before the end.
pub open spec fn window_valid(start: Option<Timestamp>, end: Option<Timestamp>) -> bool {
    &&& start is Some
    &&& end is Some
    &&& start->0.instant() < end->0.instant()
}

/// The half-open range `[start, end)`; an end that is absent is open.
pub open spec fn half_open(start: Option<Timestamp>, end: Option<Timestamp>) -> TimeRange {
    TimeRange { start: RangeBound::lower(start), end: RangeBound::upper(end) }
}

/// Builds the half-open range `[start, end)` that the store keeps for a
/// window. An absent end leaves the range open on that side.
pub fn get_timestamp(start: Option<&Timestamp>, end: Option<&Timestamp>) -> (range: TimeRange)
    ensures
        range == half_open(
            match start { Some(t) => Some(*t), None => None },
            match end { Some(t) => Some(*t), None => None },
        ),
{
    let lower = match start {
        Some(t) => RangeBound::Included(*t),
        None => RangeBound::Unbounded,
    };
    let upper = match end {
        Some(t) => RangeBound::Excluded(*t),
        None => RangeBound::Unbounded,
    };
    TimeRange { start: lower, end: upper }
}

} // verus!
