//! The question that is answered in one piece, and its statement.

use vstd::prelude::*;
use vstd::string::StringExecFns;
use crate::error::{Error, ErrorView};
use crate::sql::{SqlValue, SqlValueView, Statement, StatementView};
use crate::status::ReservationStatus;
use crate::time::{get_timestamp, half_open, TimeRange, Timestamp};
use crate::traits::{Normalizer, ToSql, Validator};

verus! {

/// A question to the store, answered in one piece: the reservations of a
/// status whose windows lie inside a range of time, of one user or one
/// resource or both or neither.
#[derive(Debug, Clone, PartialEq, Eq)]
pub struct ReservationQuery {
    /// The resource to ask about; empty for any.
    pub resource_id: String,
    /// The user to ask about; empty for any.
    pub user_id: String,
    /// The status by its integer.
    pub status: i32,
    /// Where the range begins; absent for all of the past.
    pub start: Option<Timestamp>,
    /// Where the range ends; absent for all of the future.
    pub end: Option<Timestamp>,
    /// Whether the latest window comes first.
    pub desc: bool,
}

/// Collects the parts of a `ReservationQuery`. What is not set stays empty,
/// absent, 0 or false.
#[derive(Debug, Clone, PartialEq, Eq)]
pub struct ReservationQueryBuilder {
    resource_id: String,
    user_id: String,
    status: i32,
    start: Option<Timestamp>,
    end: Option<Timestamp>,
    desc: bool,
}

/// Whether a range with these ends can be asked about: where both ends are
/// given, the start lies strictly before the end.
pub open spec fn range_valid(start: Option<Timestamp>, end: Option<Timestamp>) -> bool {
    start is Some && end is Some ==> start->0.instant() < end->0.instant()
}

impl ReservationQuery {
    /// The status that the query asks for.
    pub fn get_status(&self) -> (r: ReservationStatus)
        ensures
            r == ReservationStatus::of_number(self.status),
    {
        match ReservationStatus::from_i32(self.status) {
            Some(status) => status,
            None => ReservationStatus::Pending,
        }
    }

    /// The range of time that the query asks about, half-open, and open on a
    /// side where no end is given.
    pub fn get_timespan(&self) -> (range: TimeRange)
        ensures
            range == half_open(self.start, self.end),
    {
        get_timestamp(self.start.as_ref(), self.end.as_ref())
    }
}

impl Validator for ReservationQuery {
    /// A status that no integer names is wrong; then a range that does not
    /// start before it ends.
    open spec fn validated(&self) -> Result<(), ErrorView> {
        if ReservationStatus::named_by(self.status) is None {
            Err(ErrorView::InvalidStatus(self.status))
        } else if !range_valid(self.start, self.end) {
            Err(ErrorView::InvalidTime)
        } else {
            Ok(())
        }
    }

    fn validate(&self) -> (r: Result<(), Error>) {
        if ReservationStatus::from_i32(self.status).is_none() {
            return Err(Error::InvalidStatus(self.status));
        }
        match self.start {
            Some(start) => match self.end {
                Some(end) => if start.before(&end) {
                    Ok(())
                } else {
                    Err(Error::InvalidTime)
                },
                None => Ok(()),
            },
            None => Ok(()),
        }
    }
}

impl Normalizer for ReservationQuery {
    /// A query for the status `Unknown` asks for `Pending`.
    open spec fn normalized(&self) -> ReservationQuery {
        ReservationQuery {
            status: if self.status == ReservationStatus::Unknown.number() {
                ReservationStatus::Pending.number()
            } else {
                self.status
            },
            ..*self
        }
    }

    fn do_normalize(&mut self) {
        if self.status == ReservationStatus::Unknown.to_i32() {
            self.status = ReservationStatus::Pending.to_i32();
        }
    }
}

impl ToSql for ReservationQuery {
    /// Selects the rows whose window lies inside the range asked about, of
    /// the status asked for and of the user and resource named, by the start
    /// of their windows. The range, the word of the status and the names are
    /// bound, in that order.
    open spec fn sql(&self) -> StatementView {
        StatementView::begin("SELECT * FROM rsvp.reservations WHERE "@).bind(
            SqlValueView::Range(half_open(self.start, self.end)),
        ).push_text(" @> timespan AND status = "@).bind(
            SqlValueView::Text(ReservationStatus::of_number(self.status).word()),
        ).push_text("::rsvp.reservation_status AND "@).push_identity(
            self.user_id@,
            self.resource_id@,
        ).push_text(" ORDER BY lower(timespan) "@).push_direction(self.desc)
    }

    fn to_sql(&self) -> (s: Statement) {
        let mut s = Statement::begin("SELECT * FROM rsvp.reservations WHERE ");
        s.bind(SqlValue::Range(self.get_timespan()));
        s.push_text(" @> timespan AND status = ");
        s.bind(SqlValue::Text(self.get_status().to_string()));
        s.push_text("::rsvp.reservation_status AND ");
        s.push_identity(self.user_id.as_str(), self.resource_id.as_str());
        s.push_text(" ORDER BY lower(timespan) ");
        s.push_direction(self.desc);
        s
    }
}

impl ReservationQueryBuilder {
    /// The query that the parts collected so far make, before it is checked.
    pub closed spec fn assembled(&self) -> ReservationQuery {
        ReservationQuery {
            resource_id: self.resource_id,
            user_id: self.user_id,
            status: self.status,
            start: self.start,
            end: self.end,
            desc: self.desc,
        }
    }

    /// Names the resource to ask about.
    pub fn resource_id(self, value: &str) -> (r: Self)
        ensures
            r.assembled().resource_id@ == value@,
            r.assembled() == (ReservationQuery {
                resource_id: r.assembled().resource_id,
                ..self.assembled()
            }),
    {
        ReservationQueryBuilder { resource_id: String::from_str(value), ..self }
    }

    /// Names the user to ask about.
    pub fn user_id(self, value: &str) -> (r: Self)
        ensures
            r.assembled().user_id@ == value@,
            r.assembled() == (ReservationQuery {
                user_id: r.assembled().user_id,
                ..self.assembled()
            }),
    {
        ReservationQueryBuilder { user_id: String::from_str(value), ..self }
    }

    /// Sets the status to ask for, by its integer.
    pub fn status(self, value: i32) -> (r: Self)
        ensures
            r.assembled() == (ReservationQuery { status: value, ..self.assembled() }),
    {
        ReservationQueryBuilder { status: value, ..self }
    }

    /// Sets where the range begins.
    pub fn start(self, value: Timestamp) -> (r: Self)
        ensures
            r.assembled() == (ReservationQuery { start: Some(value), ..self.assembled() }),
    {
        ReservationQueryBuilder { start: Some(value), ..self }
    }

    /// Sets where the range ends.
    pub fn end(self, value: Timestamp) -> (r: Self)
        ensures
            r.assembled() == (ReservationQuery { end: Some(value), ..self.assembled() }),
    {
        ReservationQueryBuilder { end: Some(value), ..self }
    }

    /// Sets whether the latest window comes first.
    pub fn desc(self, value: bool) -> (r: Self)
        ensures
            r.assembled() == (ReservationQuery { desc: value, ..self.assembled() }),
    {
        ReservationQueryBuilder { desc: value, ..self }
    }

    /// Makes the query of the parts collected, checked and in its working
    /// form; the first thing that is wrong with it where it fails the check.
    pub fn build(&self) -> (r: Result<ReservationQuery, Error>)
        ensures
            match self.assembled().validated() {
                Ok(_) => r == Ok::<ReservationQuery, Error>(self.assembled().normalized()),
                Err(e) => r matches Err(x) && x@ == e,
            },
    {
        let mut query = ReservationQuery {
            resource_id: self.resource_id.clone(),
            user_id: self.user_id.clone(),
            status: self.status,
            start: self.start,
            end: self.end,
            desc: self.desc,
        };
        match query.normalize() {
            Ok(()) => Ok(query),
            Err(e) => Err(e),
        }
    }
}

impl Default for ReservationQueryBuilder {
    fn default() -> (r: Self)
        ensures
            r.assembled().resource_id@.len() == 0,
            r.assembled().user_id@.len() == 0,
            r.assembled().status == 0,
            r.assembled().start is None,
            r.assembled().end is None,
            !r.assembled().desc,
    {
        ReservationQueryBuilder {
            resource_id: String::new(),
            user_id: String::new(),
            status: 0,
            start: None,
            end: None,
            desc: false,
        }
    }
}

/// To bring a checked query into its working form twice is to do it once,
/// and the working form passes the check that the query passed.
pub proof fn lemma_query_normalize_idempotent(q: ReservationQuery)
    ensures
        q.normalized().normalized() == q.normalized(),
        q.validated() is Ok ==> q.normalized().validated() is Ok,
{
}

/// The text of a query's statement does not depend on the values asked
/// about, only on which names are given and on the direction: the values are
/// bound beside the text.
pub proof fn lemma_query_text_holds_no_value(a: ReservationQuery, b: ReservationQuery)
    requires
        (a.user_id@.len() == 0) == (b.user_id@.len() == 0),
        (a.resource_id@.len() == 0) == (b.resource_id@.len() == 0),
        a.desc == b.desc,
    ensures
        a.sql().text == b.sql().text,
{
}

} // verus!
