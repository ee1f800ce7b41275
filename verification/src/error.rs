//! The errors of the library, the failures of the store in plain values,
//! and what the one becomes as the other.

use vstd::prelude::*;
use vstd::std_specs::cmp::PartialEqSpecImpl;
use vstd::std_specs::convert::FromSpecImpl;
use crate::conflict::{conflict_info, ReservationConflictInfo, ReservationConflictInfoView};
use crate::text::same_text;

verus! {

/// What the store reported when a statement failed, in plain values.
#[derive(Debug, Clone)]
pub enum StoreFailure {
    /// An error of the database itself, with the fields of its report.
    Database {
        code: Option<String>,
        schema: Option<String>,
        table: Option<String>,
        detail: Option<String>,
        message: String,
    },
    /// The statement was to yield a row and yielded none.
    RowNotFound,
    /// Any other failure: connection, protocol, decoding.
    Other(String),
}

/// A failure of the store with its texts as sequences of characters.
pub enum StoreFailureView {
    Database {
        code: Option<Seq<char>>,
        schema: Option<Seq<char>>,
        table: Option<Seq<char>>,
        detail: Option<Seq<char>>,
        message: Seq<char>,
    },
    RowNotFound,
    Other(Seq<char>),
}

/// The characters of an optional string.
pub open spec fn text_of(s: Option<String>) -> Option<Seq<char>> {
    match s {
        Some(t) => Some(t@),
        None => None,
    }
}

impl View for StoreFailure {
    type V = StoreFailureView;

    open spec fn view(&self) -> StoreFailureView {
        match self {
            StoreFailure::Database { code, schema, table, detail, message } => {
                StoreFailureView::Database {
                    code: text_of(*code),
                    schema: text_of(*schema),
                    table: text_of(*table),
                    detail: text_of(*detail),
                    message: message@,
                }
            },
            StoreFailure::RowNotFound => StoreFailureView::RowNotFound,
            StoreFailure::Other(s) => StoreFailureView::Other(s@),
        }
    }
}

impl StoreFailureView {
    /// Whether the store refused a write because a window on the resource
    /// overlaps it: the failure bears the code by which the store marks a
    /// broken exclusion rule, and names the schema and the table of the
    /// reservations.
    pub open spec fn is_overlap(self) -> bool {
        self matches StoreFailureView::Database { code, schema, table, .. } && code == Some(
            "23P01"@,
        ) && schema == Some("rsvp"@) && table == Some("reservations"@)
    }

    /// The detail that came with the failure; nothing where none came.
    pub open spec fn detail_text(self) -> Seq<char> {
        match self {
            StoreFailureView::Database { detail: Some(d), .. } => d,
            _ => Seq::empty(),
        }
    }

    /// The error that a failure of the store becomes. An overlap becomes a
    /// conflict, with what its detail says; a missing row becomes
    /// `RowNotFound`; everything else stays a failure of the store, and its
    /// detail is not read.
    pub open spec fn as_error(self) -> ErrorView {
        if self.is_overlap() {
            ErrorView::ConflictReservation(conflict_info(self.detail_text()))
        } else if self is RowNotFound {
            ErrorView::RowNotFound
        } else {
            ErrorView::DbError(self)
        }
    }
}

/// Tells whether a field of a report is there and is `word`.
fn field_is(field: &Option<String>, word: &str) -> (r: bool)
    ensures
        r == (text_of(*field) == Some(word@)),
{
    match field {
        Some(s) => same_text(s.as_str(), word),
        None => false,
    }
}

/// Every way in which an operation of this library fails.
#[derive(Debug)]
pub enum Error {
    /// The store failed in a way that this library does not interpret.
    DbError(StoreFailure),
    /// No reservation matches the condition.
    RowNotFound,
    /// A start or end is missing, or the start is not before the end.
    InvalidTime,
    /// The store refused a window that overlaps one it holds.
    ConflictReservation(ReservationConflictInfo),
    /// The user has no name; the name as it came.
    InvalidUserId(String),
    /// The resource has no name; the name as it came.
    InvalidResourceId(String),
    /// The number is not one that the store gives.
    InvalidReservationId(i64),
    /// The integer names no status.
    InvalidStatus(i32),
    /// The page size cannot be served.
    InvalidPageSize(i64),
    /// The cursor names no row.
    InvalidCursor(i64),
    /// A failure of the data store of which nothing is known.
    Unknown,
}

/// An error with its texts as sequences of characters.
pub enum ErrorView {
    DbError(StoreFailureView),
    RowNotFound,
    InvalidTime,
    ConflictReservation(ReservationConflictInfoView),
    InvalidUserId(Seq<char>),
    InvalidResourceId(Seq<char>),
    InvalidReservationId(i64),
    InvalidStatus(i32),
    InvalidPageSize(i64),
    InvalidCursor(i64),
    Unknown,
}

impl View for Error {
    type V = ErrorView;

    open spec fn view(&self) -> ErrorView {
        match self {
            Error::DbError(f) => ErrorView::DbError(f@),
            Error::RowNotFound => ErrorView::RowNotFound,
            Error::InvalidTime => ErrorView::InvalidTime,
            Error::ConflictReservation(info) => ErrorView::ConflictReservation(info@),
            Error::InvalidUserId(s) => ErrorView::InvalidUserId(s@),
            Error::InvalidResourceId(s) => ErrorView::InvalidResourceId(s@),
            Error::InvalidReservationId(id) => ErrorView::InvalidReservationId(*id),
            Error::InvalidStatus(s) => ErrorView::InvalidStatus(*s),
            Error::InvalidPageSize(n) => ErrorView::InvalidPageSize(*n),
            Error::InvalidCursor(c) => ErrorView::InvalidCursor(*c),
            Error::Unknown => ErrorView::Unknown,
        }
    }
}

/// A result with its error seen through its view.
pub open spec fn outcome<T>(r: Result<T, Error>) -> Result<T, ErrorView> {
    match r {
        Ok(t) => Ok(t),
        Err(e) => Err(e@),
    }
}

/// The kind of answer that an error becomes at the boundary.
#[derive(Debug, Clone, Copy, PartialEq, Eq, Structural)]
pub enum ErrorClass {
    /// The request itself was wrong.
    BadRequest,
    /// Nothing matches the request.
    NotFound,
    /// The request cannot be met as things stand.
    PreconditionFailed,
    /// The failure lies with the service or its store.
    Internal,
}

impl ErrorView {
    /// Whether two errors count as the same. Two store failures always do,
    /// whatever they report; any other two do when they are the same variant
    /// with the same content.
    pub open spec fn same(self, other: ErrorView) -> bool {
        match (self, other) {
            (ErrorView::DbError(_), ErrorView::DbError(_)) => true,
            (ErrorView::DbError(_), _) => false,
            (_, ErrorView::DbError(_)) => false,
            _ => self == other,
        }
    }

    /// The class of an error: wrong input is a bad request, a missing row is
    /// not found, a conflict is a failed precondition, all else is internal.
    pub open spec fn class(self) -> ErrorClass {
        match self {
            ErrorView::InvalidTime => ErrorClass::BadRequest,
            ErrorView::InvalidUserId(_) => ErrorClass::BadRequest,
            ErrorView::InvalidResourceId(_) => ErrorClass::BadRequest,
            ErrorView::InvalidReservationId(_) => ErrorClass::BadRequest,
            ErrorView::InvalidStatus(_) => ErrorClass::BadRequest,
            ErrorView::InvalidPageSize(_) => ErrorClass::BadRequest,
            ErrorView::InvalidCursor(_) => ErrorClass::BadRequest,
            ErrorView::RowNotFound => ErrorClass::NotFound,
            ErrorView::ConflictReservation(_) => ErrorClass::PreconditionFailed,
            ErrorView::DbError(_) => ErrorClass::Internal,
            ErrorView::Unknown => ErrorClass::Internal,
        }
    }
}

impl Error {
    /// The class under which the error is shown to a caller.
    pub fn class(&self) -> (r: ErrorClass)
        ensures
            r == self@.class(),
    {
        match self {
            Error::InvalidTime => ErrorClass::BadRequest,
            Error::InvalidUserId(_) => ErrorClass::BadRequest,
            Error::InvalidResourceId(_) => ErrorClass::BadRequest,
            Error::InvalidReservationId(_) => ErrorClass::BadRequest,
            Error::InvalidStatus(_) => ErrorClass::BadRequest,
            Error::InvalidPageSize(_) => ErrorClass::BadRequest,
            Error::InvalidCursor(_) => ErrorClass::BadRequest,
            Error::RowNotFound => ErrorClass::NotFound,
            Error::ConflictReservation(_) => ErrorClass::PreconditionFailed,
            Error::DbError(_) => ErrorClass::Internal,
            Error::Unknown => ErrorClass::Internal,
        }
    }
}

impl PartialEq for Error {
    fn eq(&self, other: &Self) -> (r: bool) {
        match self {
            Error::DbError(_) => match other {
                Error::DbError(_) => true,
                _ => false,
            },
            Error::RowNotFound => match other {
                Error::RowNotFound => true,
                _ => false,
            },
            Error::InvalidTime => match other {
                Error::InvalidTime => true,
                _ => false,
            },
            Error::ConflictReservation(a) => match other {
                Error::ConflictReservation(b) => a.eq(b),
                _ => false,
            },
            Error::InvalidUserId(a) => match other {
                Error::InvalidUserId(b) => a.eq(b),
                _ => false,
            },
            Error::InvalidResourceId(a) => match other {
                Error::InvalidResourceId(b) => a.eq(b),
                _ => false,
            },
            Error::InvalidReservationId(a) => match other {
                Error::InvalidReservationId(b) => *a == *b,
                _ => false,
            },
            Error::InvalidStatus(a) => match other {
                Error::InvalidStatus(b) => *a == *b,
                _ => false,
            },
            Error::InvalidPageSize(a) => match other {
                Error::InvalidPageSize(b) => *a == *b,
                _ => false,
            },
            Error::InvalidCursor(a) => match other {
                Error::InvalidCursor(b) => *a == *b,
                _ => false,
            },
            Error::Unknown => match other {
                Error::Unknown => true,
                _ => false,
            },
        }
    }
}

impl PartialEqSpecImpl for Error {
    open spec fn obeys_eq_spec() -> bool {
        true
    }

    open spec fn eq_spec(&self, other: &Self) -> bool {
        self@.same(other@)
    }
}

impl From<StoreFailure> for Error {
    /// Makes the error of a failure of the store.
    fn from(failure: StoreFailure) -> (e: Error)
        ensures
            e@ == failure@.as_error(),
    {
        match failure {
            StoreFailure::Database { code, schema, table, detail, message } => {
                if field_is(&code, "23P01") && field_is(&schema, "rsvp") && field_is(
                    &table,
                    "reservations",
                ) {
                    let info = match &detail {
                        Some(d) => ReservationConflictInfo::parse(d.as_str()),
                        None => {
                            proof {
                                reveal_strlit("");
                            }
                            assert(""@ =~= Seq::<char>::empty());
                            ReservationConflictInfo::parse("")
                        },
                    };
                    Error::ConflictReservation(info)
                } else {
                    Error::DbError(StoreFailure::Database { code, schema, table, detail, message })
                }
            },
            StoreFailure::RowNotFound => Error::RowNotFound,
            StoreFailure::Other(text) => Error::DbError(StoreFailure::Other(text)),
        }
    }
}

/// What `from` returns is stated by `from` itself, over views: the strings
/// that it builds have no name that a spec function could give.
impl FromSpecImpl<StoreFailure> for Error {
    open spec fn obeys_from_spec() -> bool {
        false
    }

    open spec fn from_spec(failure: StoreFailure) -> Error {
        Error::DbError(failure)
    }
}

/// To count as the same is an equivalence: every error is the same as
/// itself, and the relation can be turned round and chained.
pub proof fn lemma_same_is_equivalence(a: ErrorView, b: ErrorView, c: ErrorView)
    ensures
        a.same(a),
        a.same(b) ==> b.same(a),
        a.same(b) && b.same(c) ==> a.same(c),
{
}

/// The detail of a failure is read only where the store marks an overlap:
/// a missing row is `RowNotFound`, and any other failure is handed on as it
/// came.
pub proof fn lemma_only_overlap_is_read(failure: StoreFailureView)
    ensures
        failure.as_error() is ConflictReservation <==> failure.is_overlap(),
        failure is RowNotFound ==> failure.as_error() == ErrorView::RowNotFound,
        !failure.is_overlap() && !(failure is RowNotFound) ==> failure.as_error()
            == ErrorView::DbError(failure),
{
}

} // verus!
