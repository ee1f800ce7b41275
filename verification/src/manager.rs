//! Every operation in two steps: before the store is asked, the check of the
//! request and the statement to run; after it has answered, what the answer
//! comes to. The caller runs the statement between the two.

use vstd::prelude::*;
use crate::error::{Error, ErrorView, StoreFailure};
use crate::filter::ReservationFilter;
use crate::pager::{is_backward, next_cursor, page_rows, prev_cursor, FilterPager};
use crate::query::ReservationQuery;
use crate::reservation::{id_validated, Reservation, ReservationView};
use crate::sql::{SqlValue, SqlValueView, Statement, StatementView};
use crate::status::ReservationStatus;
use crate::time::half_open;
use crate::traits::{Normalizer, ToSql, Validator};

verus! {

/// The statement that enters a reservation and asks for the number it gets.
/// The user, the resource, the window, the note and the word of the status
/// are bound, in that order. A reservation whose status is `Unknown`, or no
/// status at all, enters as `Pending`.
pub open spec fn reserve_sql(r: ReservationView) -> StatementView {
    StatementView::begin(
        "INSERT INTO rsvp.reservations (user_id, resource_id, timespan, note, status) VALUES ("@,
    ).bind(SqlValueView::Text(r.user_id)).push_text(", "@).bind(
        SqlValueView::Text(r.resource_id),
    ).push_text(", "@).bind(SqlValueView::Range(half_open(r.start, r.end))).push_text(
        ", "@,
    ).bind(SqlValueView::Text(r.note)).push_text(", "@).bind(
        SqlValueView::Text(ReservationStatus::settled(r.status).word()),
    ).push_text("::rsvp.reservation_status) RETURNING id"@)
}

/// The statement that confirms the reservation of a number, if it is
/// pending, and asks for the row.
pub open spec fn change_status_sql(id: i64) -> StatementView {
    StatementView::begin("UPDATE rsvp.reservations SET status = 'confirmed' WHERE id = "@).bind(
        SqlValueView::Int(id),
    ).push_text(" AND status = 'pending' RETURNING *"@)
}

/// The statement that puts a note on the reservation of a number and asks
/// for the row.
pub open spec fn update_note_sql(id: i64, note: Seq<char>) -> StatementView {
    StatementView::begin("UPDATE rsvp.reservations SET note = "@).bind(
        SqlValueView::Text(note),
    ).push_text(" WHERE id = "@).bind(SqlValueView::Int(id)).push_text(" RETURNING *"@)
}

/// The statement that removes the reservation of a number.
pub open spec fn delete_sql(id: i64) -> StatementView {
    StatementView::begin("DELETE FROM rsvp.reservations WHERE id = "@).bind(
        SqlValueView::Int(id),
    )
}

/// The statement that asks for the reservation of a number.
pub open spec fn get_sql(id: i64) -> StatementView {
    StatementView::begin("SELECT * FROM rsvp.reservations WHERE id = "@).bind(
        SqlValueView::Int(id),
    )
}

/// What a request comes to before the store is asked: the statement to put
/// to it where the request passes its check, the error where it does not.
pub open spec fn planned(
    r: Result<Statement, Error>,
    checked: Result<(), ErrorView>,
    sql: StatementView,
) -> bool {
    match checked {
        Ok(_) => r matches Ok(s) && s@ == sql,
        Err(e) => r matches Err(x) && x@ == e,
    }
}

/// Checks a reservation and builds the statement that enters it.
pub fn reserve_statement(rsvp: &Reservation) -> (r: Result<Statement, Error>)
    ensures
        planned(r, rsvp.validated(), reserve_sql(rsvp@)),
{
    match rsvp.validate() {
        Ok(()) => {},
        Err(e) => { return Err(e); },
    }
    let status = match ReservationStatus::from_i32(rsvp.status) {
        Some(ReservationStatus::Confirmed) => ReservationStatus::Confirmed,
        Some(ReservationStatus::Blocked) => ReservationStatus::Blocked,
        _ => ReservationStatus::Pending,
    };
    let mut s = Statement::begin(
        "INSERT INTO rsvp.reservations (user_id, resource_id, timespan, note, status) VALUES (",
    );
    s.bind(SqlValue::Text(rsvp.user_id.clone()));
    s.push_text(", ");
    s.bind(SqlValue::Text(rsvp.resource_id.clone()));
    s.push_text(", ");
    s.bind(SqlValue::Range(rsvp.get_timespan()));
    s.push_text(", ");
    s.bind(SqlValue::Text(rsvp.note.clone()));
    s.push_text(", ");
    s.bind(SqlValue::Text(status.to_string()));
    s.push_text("::rsvp.reservation_status) RETURNING id");
    Ok(s)
}

/// What a reserve comes to once the store has answered: the reservation
/// with the number that the store gave, or the error that the store's
/// failure becomes, a conflict where a window on the resource overlaps.
pub fn reserve_outcome(rsvp: Reservation, reply: Result<i64, StoreFailure>) -> (r: Result<
    Reservation,
    Error,
>)
    ensures
        match reply {
            Ok(id) => r == Ok::<Reservation, Error>(Reservation { id: id, ..rsvp }),
            Err(f) => r matches Err(e) && e@ == f@.as_error(),
        },
{
    match reply {
        Ok(id) => {
            let mut rsvp = rsvp;
            rsvp.id = id;
            Ok(rsvp)
        },
        Err(f) => Err(Error::from(f)),
    }
}

/// Checks the number and builds the statement that confirms its
/// reservation. The statement touches a row only while it is pending.
pub fn change_status_statement(id: i64) -> (r: Result<Statement, Error>)
    ensures
        planned(r, id_validated(id), change_status_sql(id)),
{
    match id.validate() {
        Ok(()) => {},
        Err(e) => { return Err(e); },
    }
    let mut s = Statement::begin("UPDATE rsvp.reservations SET status = 'confirmed' WHERE id = ");
    s.bind(SqlValue::Int(id));
    s.push_text(" AND status = 'pending' RETURNING *");
    Ok(s)
}

/// Checks the number and builds the statement that puts the note on its
/// reservation.
pub fn update_note_statement(id: i64, note: String) -> (r: Result<Statement, Error>)
    ensures
        planned(r, id_validated(id), update_note_sql(id, note@)),
{
    match id.validate() {
        Ok(()) => {},
        Err(e) => { return Err(e); },
    }
    let mut s = Statement::begin("UPDATE rsvp.reservations SET note = ");
    s.bind(SqlValue::Text(note));
    s.push_text(" WHERE id = ");
    s.bind(SqlValue::Int(id));
    s.push_text(" RETURNING *");
    Ok(s)
}

/// Checks the number and builds the statement that removes its reservation.
pub fn delete_statement(id: i64) -> (r: Result<Statement, Error>)
    ensures
        planned(r, id_validated(id), delete_sql(id)),
{
    match id.validate() {
        Ok(()) => {},
        Err(e) => { return Err(e); },
    }
    let mut s = Statement::begin("DELETE FROM rsvp.reservations WHERE id = ");
    s.bind(SqlValue::Int(id));
    Ok(s)
}

/// Checks the number and builds the statement that asks for its reservation.
pub fn get_statement(id: i64) -> (r: Result<Statement, Error>)
    ensures
        planned(r, id_validated(id), get_sql(id)),
{
    match id.validate() {
        Ok(()) => {},
        Err(e) => { return Err(e); },
    }
    let mut s = Statement::begin("SELECT * FROM rsvp.reservations WHERE id = ");
    s.bind(SqlValue::Int(id));
    Ok(s)
}

/// What a statement that asks for one row comes to: the row, `RowNotFound`
/// where the store had none to give, or the error that the store's failure
/// becomes. Confirming a reservation that is not pending touches no row and
/// so comes to `RowNotFound`, also for the slower of two callers who confirm
/// the same one.
pub fn row_outcome(reply: Result<Option<Reservation>, StoreFailure>) -> (r: Result<
    Reservation,
    Error,
>)
    ensures
        match reply {
            Ok(Some(row)) => r == Ok::<Reservation, Error>(row),
            Ok(None) => r matches Err(e) && e@ == ErrorView::RowNotFound,
            Err(f) => r matches Err(e) && e@ == f@.as_error(),
        },
{
    match reply {
        Ok(Some(row)) => Ok(row),
        Ok(None) => Err(Error::RowNotFound),
        Err(f) => Err(Error::from(f)),
    }
}

/// What a delete comes to, by the number of rows that the store removed:
/// done where it removed one, `RowNotFound` where it removed none.
pub fn delete_outcome(reply: Result<u64, StoreFailure>) -> (r: Result<(), Error>)
    ensures
        match reply {
            Ok(n) => if n == 0 {
                r matches Err(e) && e@ == ErrorView::RowNotFound
            } else {
                r is Ok
            },
            Err(f) => r matches Err(e) && e@ == f@.as_error(),
        },
{
    match reply {
        Ok(n) => if n == 0 {
            Err(Error::RowNotFound)
        } else {
            Ok(())
        },
        Err(f) => Err(Error::from(f)),
    }
}

/// Checks a query, brings it into its working form and builds its
/// statement.
pub fn query_statement(query: ReservationQuery) -> (r: Result<Statement, Error>)
    ensures
        planned(r, query.validated(), query.normalized().sql()),
{
    let mut query = query;
    match query.normalize() {
        Ok(()) => Ok(query.to_sql()),
        Err(e) => Err(e),
    }
}

/// What a query comes to: the rows as the store gave them, or the error
/// that the store's failure becomes.
pub fn query_outcome(reply: Result<Vec<Reservation>, StoreFailure>) -> (r: Result<
    Vec<Reservation>,
    Error,
>)
    ensures
        match reply {
            Ok(rows) => r == Ok::<Vec<Reservation>, Error>(rows),
            Err(f) => r matches Err(e) && e@ == f@.as_error(),
        },
{
    match reply {
        Ok(rows) => Ok(rows),
        Err(f) => Err(Error::from(f)),
    }
}

/// Checks a filter, brings it into its working form and builds its
/// statement. The filter is left in its working form, in which the page is
/// made of the store's answer; a filter that fails the check is left as it
/// was.
pub fn filter_statement(filter: &mut ReservationFilter) -> (r: Result<Statement, Error>)
    ensures
        planned(r, old(filter).validated(), old(filter).normalized().sql()),
        r is Ok ==> *final(filter) == old(filter).normalized(),
        r is Err ==> *final(filter) == *old(filter),
{
    match filter.normalize() {
        Ok(()) => Ok(filter.to_sql()),
        Err(e) => Err(e),
    }
}

/// What a filter comes to: the rows of the page in the order of the filter,
/// with the cursors that lead away from it, or the error that the store's
/// failure becomes.
pub fn filter_outcome(filter: &ReservationFilter, reply: Result<Vec<Reservation>, StoreFailure>) -> (r:
    Result<(FilterPager, Vec<Reservation>), Error>)
    ensures
        match reply {
            Ok(rows) => r matches Ok((pager, page)) && page@ == page_rows(
                rows@,
                filter.page_size,
                is_backward(filter.cursor),
            ) && pager.next == next_cursor(rows@, filter.cursor, filter.page_size) && pager.prev
                == prev_cursor(rows@, filter.cursor, filter.page_size),
            Err(f) => r matches Err(e) && e@ == f@.as_error(),
        },
{
    match reply {
        Ok(rows) => {
            let mut rows = rows;
            let pager = filter.get_pager(&mut rows);
            Ok((pager, rows))
        },
        Err(f) => Err(Error::from(f)),
    }
}

} // verus!
