//! The question that is answered page by page, and its statement.

use vstd::prelude::*;
use vstd::string::StringExecFns;
use crate::error::{Error, ErrorView};
use crate::pager::{
    has_more, is_backward, next_cursor, page_rows, paginate, prev_cursor, FilterPager, Id,
};
use crate::sql::{SqlValue, SqlValueView, Statement, StatementView};
use crate::status::ReservationStatus;
use crate::traits::{Normalizer, ToSql, Validator};

verus! {

/// The page size of a filter that names none.
pub const DEFAULT_PAGE_SIZE: u32 = 10;

/// The smallest page that is served.
pub const MIN_PAGE_SIZE: u32 = 10;

/// The largest page that is served.
pub const MAX_PAGE_SIZE: u32 = 100;

/// A question to the store, answered page by page: the reservations of a
/// status, of one user or one resource or both or neither, in the order of
/// their numbers.
#[derive(Debug, Clone, PartialEq, Eq)]
pub struct ReservationFilter {
    /// The resource to ask about; empty for any.
    pub resource_id: String,
    /// The user to ask about; empty for any.
    pub user_id: String,
    /// The status by its integer.
    pub status: i32,
    /// Where to go on from: a cursor that an earlier page gave; absent for
    /// the first page.
    pub cursor: Option<i64>,
    /// How many rows a page holds; 0 for the usual size.
    pub page_size: u32,
    /// Whether the highest number comes first.
    pub desc: bool,
}

/// Collects the parts of a `ReservationFilter`. What is not set stays empty,
/// absent, 0 or false; the page size is the usual one.
#[derive(Debug, Clone, PartialEq, Eq)]
pub struct ReservationFilterBuilder {
    resource_id: String,
    user_id: String,
    status: i32,
    cursor: Option<i64>,
    page_size: u32,
    desc: bool,
}

/// Whether a cursor can be followed: it names a row, by a number above zero
/// or by the negative of one.
pub open spec fn cursor_valid(cursor: Option<i64>) -> bool {
    cursor matches Some(c) ==> c != 0 && c != i64::MIN
}

/// The number of the row that a cursor names: its absolute value, and the
/// largest number for the one cursor whose absolute value is too large.
pub open spec fn cursor_row(c: i64) -> i64 {
    if c == i64::MIN {
        i64::MAX
    } else if c < 0 {
        (-c) as i64
    } else {
        c
    }
}

/// Whether rows are fetched from the highest number down: the order of the
/// filter on the way forward, the other order on the way back.
pub open spec fn fetch_desc(cursor: Option<i64>, desc: bool) -> bool {
    desc != is_backward(cursor)
}

/// The page size that is served for the one that was asked for: the usual
/// size where none was asked for, and otherwise the nearest size that is
/// neither too small nor too large.
pub open spec fn served_page_size(asked: u32) -> u32 {
    if asked == 0 {
        DEFAULT_PAGE_SIZE
    } else if asked < MIN_PAGE_SIZE {
        MIN_PAGE_SIZE
    } else if asked > MAX_PAGE_SIZE {
        MAX_PAGE_SIZE
    } else {
        asked
    }
}

impl StatementView {
    /// The statement with the clause behind it that tells where the page
    /// begins. Without a cursor every row may be on it. With one, only rows
    /// beyond the row that the cursor names: rows of a lower number where
    /// rows are fetched from the highest down, of a higher number where they
    /// are fetched from the lowest up. The number of the row is bound.
    pub open spec fn push_cursor(self, cursor: Option<i64>, desc: bool) -> StatementView {
        match cursor {
            None => self.push_text("TRUE"@),
            Some(c) => self.push_text(
                if fetch_desc(cursor, desc) {
                    "id < "@
                } else {
                    "id > "@
                },
            ).bind(SqlValueView::Int(cursor_row(c))),
        }
    }
}

impl Statement {
    /// Writes the clause that tells where the page begins, and binds the
    /// number of the row that the cursor names.
    pub fn push_cursor(&mut self, cursor: Option<i64>, desc: bool)
        ensures
            final(self)@ == old(self)@.push_cursor(cursor, desc),
    {
        match cursor {
            None => {
                self.push_text("TRUE");
            },
            Some(c) => {
                let backward: bool = c < 0;
                if desc != backward {
                    self.push_text("id < ");
                } else {
                    self.push_text("id > ");
                }
                let row: i64 = if c == i64::MIN {
                    i64::MAX
                } else if c < 0 {
                    -c
                } else {
                    c
                };
                self.bind(SqlValue::Int(row));
            },
        }
    }
}

impl ReservationFilter {
    /// The status that the filter asks for.
    pub fn get_status(&self) -> (r: ReservationStatus)
        ensures
            r == ReservationStatus::of_number(self.status),
    {
        match ReservationStatus::from_i32(self.status) {
            Some(status) => status,
            None => ReservationStatus::Pending,
        }
    }

    /// Makes a page of the rows that the store gave for the statement of
    /// this filter: leaves in `rows` the rows of the page in the order of
    /// the filter, and gives the cursors that lead away from it.
    pub fn get_pager<T: Id>(&self, rows: &mut Vec<T>) -> (pager: FilterPager)
        ensures
            final(rows)@ == page_rows(old(rows)@, self.page_size, is_backward(self.cursor)),
            pager.next == next_cursor(old(rows)@, self.cursor, self.page_size),
            pager.prev == prev_cursor(old(rows)@, self.cursor, self.page_size),
    {
        paginate(rows, self.cursor, self.page_size)
    }
}

impl Validator for ReservationFilter {
    /// A cursor that names no row is wrong; then a status that no integer
    /// names.
    open spec fn validated(&self) -> Result<(), ErrorView> {
        if !cursor_valid(self.cursor) {
            Err(ErrorView::InvalidCursor(self.cursor->0))
        } else if ReservationStatus::named_by(self.status) is None {
            Err(ErrorView::InvalidStatus(self.status))
        } else {
            Ok(())
        }
    }

    fn validate(&self) -> (r: Result<(), Error>) {
        match self.cursor {
            Some(c) => {
                if c == 0 || c == i64::MIN {
                    return Err(Error::InvalidCursor(c));
                }
            },
            None => {},
        }
        if ReservationStatus::from_i32(self.status).is_none() {
            return Err(Error::InvalidStatus(self.status));
        }
        Ok(())
    }
}

impl Normalizer for ReservationFilter {
    /// A filter for the status `Unknown` asks for `Pending`, and its page is
    /// of a size that is served.
    open spec fn normalized(&self) -> ReservationFilter {
        ReservationFilter {
            status: if self.status == ReservationStatus::Unknown.number() {
                ReservationStatus::Pending.number()
            } else {
                self.status
            },
            page_size: served_page_size(self.page_size),
            ..*self
        }
    }

    fn do_normalize(&mut self) {
        if self.status == ReservationStatus::Unknown.to_i32() {
            self.status = ReservationStatus::Pending.to_i32();
        }
        if self.page_size == 0 {
            self.page_size = DEFAULT_PAGE_SIZE;
        } else if self.page_size < MIN_PAGE_SIZE {
            self.page_size = MIN_PAGE_SIZE;
        } else if self.page_size > MAX_PAGE_SIZE {
            self.page_size = MAX_PAGE_SIZE;
        }
    }
}

impl ToSql for ReservationFilter {
    /// Selects the rows of the status asked for and of the user and resource
    /// named that lie beyond the cursor, by their numbers in the order of
    /// the fetch, and one row more than the page holds. The word of the
    /// status, the names, the row of the cursor and the number of rows are
    /// bound, in that order.
    open spec fn sql(&self) -> StatementView {
        StatementView::begin("SELECT * FROM rsvp.reservations WHERE status = "@).bind(
            SqlValueView::Text(ReservationStatus::of_number(self.status).word()),
        ).push_text("::rsvp.reservation_status AND "@).push_identity(
            self.user_id@,
            self.resource_id@,
        ).push_text(" AND "@).push_cursor(self.cursor, self.desc).push_text(
            " ORDER BY id "@,
        ).push_direction(fetch_desc(self.cursor, self.desc)).push_text(" LIMIT "@).bind(
            SqlValueView::Int((self.page_size + 1) as i64),
        )
    }

    fn to_sql(&self) -> (s: Statement) {
        let mut s = Statement::begin("SELECT * FROM rsvp.reservations WHERE status = ");
        s.bind(SqlValue::Text(self.get_status().to_string()));
        s.push_text("::rsvp.reservation_status AND ");
        s.push_identity(self.user_id.as_str(), self.resource_id.as_str());
        s.push_text(" AND ");
        s.push_cursor(self.cursor, self.desc);
        s.push_text(" ORDER BY id ");
        let backward: bool = match self.cursor {
            Some(c) => c < 0,
            None => false,
        };
        s.push_direction(self.desc != backward);
        s.push_text(" LIMIT ");
        let limit: i64 = (self.page_size as i64) + 1;
        s.bind(SqlValue::Int(limit));
        s
    }
}

impl ReservationFilterBuilder {
    /// The filter that the parts collected so far make, before it is checked.
    pub closed spec fn assembled(&self) -> ReservationFilter {
        ReservationFilter {
            resource_id: self.resource_id,
            user_id: self.user_id,
            status: self.status,
            cursor: self.cursor,
            page_size: self.page_size,
            desc: self.desc,
        }
    }

    /// Names the resource to ask about.
    pub fn resource_id(self, value: &str) -> (r: Self)
        ensures
            r.assembled().resource_id@ == value@,
            r.assembled() == (ReservationFilter {
                resource_id: r.assembled().resource_id,
                ..self.assembled()
            }),
    {
        ReservationFilterBuilder { resource_id: String::from_str(value), ..self }
    }

    /// Names the user to ask about.
    pub fn user_id(self, value: &str) -> (r: Self)
        ensures
            r.assembled().user_id@ == value@,
            r.assembled() == (ReservationFilter {
                user_id: r.assembled().user_id,
                ..self.assembled()
            }),
    {
        ReservationFilterBuilder { user_id: String::from_str(value), ..self }
    }

    /// Sets the status to ask for, by its integer.
    pub fn status(self, value: i32) -> (r: Self)
        ensures
            r.assembled() == (ReservationFilter { status: value, ..self.assembled() }),
    {
        ReservationFilterBuilder { status: value, ..self }
    }

    /// Sets the cursor to go on from.
    pub fn cursor(self, value: i64) -> (r: Self)
        ensures
            r.assembled() == (ReservationFilter { cursor: Some(value), ..self.assembled() }),
    {
        ReservationFilterBuilder { cursor: Some(value), ..self }
    }

    /// Sets how many rows a page holds.
    pub fn page_size(self, value: u32) -> (r: Self)
        ensures
            r.assembled() == (ReservationFilter { page_size: value, ..self.assembled() }),
    {
        ReservationFilterBuilder { page_size: value, ..self }
    }

    /// Sets whether the highest number comes first.
    pub fn desc(self, value: bool) -> (r: Self)
        ensures
            r.assembled() == (ReservationFilter { desc: value, ..self.assembled() }),
    {
        ReservationFilterBuilder { desc: value, ..self }
    }

    /// Makes the filter of the parts collected, checked and in its working
    /// form; the first thing that is wrong with it where it fails the check.
    pub fn build(&self) -> (r: Result<ReservationFilter, Error>)
        ensures
            match self.assembled().validated() {
                Ok(_) => r == Ok::<ReservationFilter, Error>(self.assembled().normalized()),
                Err(e) => r matches Err(x) && x@ == e,
            },
    {
        let mut filter = ReservationFilter {
            resource_id: self.resource_id.clone(),
            user_id: self.user_id.clone(),
            status: self.status,
            cursor: self.cursor,
            page_size: self.page_size,
            desc: self.desc,
        };
        match filter.normalize() {
            Ok(()) => Ok(filter),
            Err(e) => Err(e),
        }
    }
}

impl Default for ReservationFilterBuilder {
    fn default() -> (r: Self)
        ensures
            r.assembled().resource_id@.len() == 0,
            r.assembled().user_id@.len() == 0,
            r.assembled().status == 0,
            r.assembled().cursor is None,
            r.assembled().page_size == DEFAULT_PAGE_SIZE,
            !r.assembled().desc,
    {
        ReservationFilterBuilder {
            resource_id: String::new(),
            user_id: String::new(),
            status: 0,
            cursor: None,
            page_size: DEFAULT_PAGE_SIZE,
            desc: false,
        }
    }
}

/// To bring a checked filter into its working form twice is to do it once;
/// the working form passes the check that the filter passed; and its page
/// is of a size that is served.
pub proof fn lemma_filter_normalize_idempotent(f: ReservationFilter)
    ensures
        f.normalized().normalized() == f.normalized(),
        f.validated() is Ok ==> f.normalized().validated() is Ok,
        MIN_PAGE_SIZE <= f.normalized().page_size <= MAX_PAGE_SIZE,
{
}

/// The text of a filter's statement does not depend on the values asked
/// about, only on which names are given, on whether there is a cursor and
/// which way it leads, and on the direction: the values are bound beside
/// the text.
pub proof fn lemma_filter_text_holds_no_value(a: ReservationFilter, b: ReservationFilter)
    requires
        (a.user_id@.len() == 0) == (b.user_id@.len() == 0),
        (a.resource_id@.len() == 0) == (b.resource_id@.len() == 0),
        a.cursor is Some == b.cursor is Some,
        is_backward(a.cursor) == is_backward(b.cursor),
        a.desc == b.desc,
    ensures
        a.sql().text == b.sql().text,
{
}

/// The cursors that a page gives out can be handed back. Where every row is
/// known by a number above zero, as the rows of the store are, the cursor to
/// the next page is above zero and names the last row shown, the cursor to
/// the previous page is below zero and names the first row shown, and both
/// pass the check of a filter.
pub proof fn lemma_cursors_given_out_can_be_followed<T: Id>(
    rows: Seq<T>,
    cursor: Option<i64>,
    page_size: u32,
)
    requires
        forall|i: int| 0 <= i < rows.len() ==> rows[i].id_value() > 0,
    ensures
        match next_cursor(rows, cursor, page_size) {
            Some(c) => c > 0 && cursor_valid(Some(c)) && !is_backward(Some(c)) && cursor_row(c)
                == page_rows(rows, page_size, is_backward(cursor)).last().id_value(),
            None => true,
        },
        match prev_cursor(rows, cursor, page_size) {
            Some(c) => c < 0 && cursor_valid(Some(c)) && is_backward(Some(c)) && cursor_row(c)
                == page_rows(rows, page_size, is_backward(cursor))[0].id_value(),
            None => true,
        },
{
    let shown = page_rows(rows, page_size, is_backward(cursor));
    assert forall|i: int| 0 <= i < shown.len() implies shown[i].id_value() > 0 by {
        let kept = if has_more(rows, page_size) {
            rows.drop_last()
        } else {
            rows
        };
        if is_backward(cursor) {
            assert(shown[i] == kept[kept.len() - 1 - i]);
        }
    }
}

} // verus!
