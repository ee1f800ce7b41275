//! Reservations of named resources for half-open windows of time.
//!
//! The store, a relational engine with a range type, guarantees that no two
//! windows on one resource overlap. This library holds what surrounds it:
//! the rules that a request must meet, the statements that are put to the
//! store with every value bound beside the text, the reading of the detail
//! that the store gives when it refuses an overlapping window, and the
//! cursors that lead from one page of a listing to the next.
//!
//! Nothing here talks to the store. For each operation `manager` gives the
//! statement to run and says what the store's answer comes to.

pub mod conflict;
pub mod detail;
pub mod error;
pub mod filter;
pub mod manager;
pub mod pager;
pub mod query;
pub mod reservation;
pub mod sql;
pub mod status;
pub mod text;
pub mod time;
pub mod traits;
pub mod utils;

pub use conflict::{ReservationConflict, ReservationConflictInfo, ReservationWindow};
pub use error::{Error, ErrorClass, StoreFailure};
pub use filter::{
    ReservationFilter, ReservationFilterBuilder, DEFAULT_PAGE_SIZE, MAX_PAGE_SIZE, MIN_PAGE_SIZE,
};
pub use pager::{paginate, FilterPager, Id};
pub use query::{ReservationQuery, ReservationQueryBuilder};
pub use reservation::{validate_range, Reservation};
pub use sql::{SqlValue, Statement};
pub use status::{ReservationStatus, RsvpStatus};
pub use time::{get_timestamp, NaiveRange, RangeBound, TimeRange, Timestamp};
pub use traits::{Normalizer, ToSql, Validator};
pub use utils::str_to_option;

use vstd::prelude::*;

verus! {

/// The number by which the store knows a reservation.
pub type ReservationId = i64;

/// The name of a user.
pub type UserId = String;

/// The name of a resource.
pub type ResourceId = String;

} // verus!
