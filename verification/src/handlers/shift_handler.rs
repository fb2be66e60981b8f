//! Shifts: listing with filters, fetching, creating, updating, deleting.

use vstd::prelude::*;
use crate::filters::{ShiftFilters, ShiftPredicate};
use crate::models::{CreateShiftRequest, Shift, ShiftFields, UpdateShiftRequest};
use crate::response::{
    create_response, delete_response, get_response, list_response, update_response,
    Response, StatusCode,
};
use crate::store::{Bind, BindView, Fetch, Statement, StatementView, StoreError};

verus! {

/// The statement of a listing that applies `predicate`. It names no order:
/// the rows come as the store gives them.
pub open spec fn shift_listing(predicate: ShiftPredicate) -> StatementView {
    match predicate {
        ShiftPredicate::Client(client_id) => StatementView {
            sql: "SELECT * FROM shift WHERE client_id = $1"@,
            binds: seq![BindView::Integer(client_id)],
            fetch: Fetch::All,
        },
        ShiftPredicate::Service(service_id) => StatementView {
            sql: "SELECT * FROM shift WHERE service_id = $1"@,
            binds: seq![BindView::Integer(service_id)],
            fetch: Fetch::All,
        },
        ShiftPredicate::Zipcode(zipcode) => StatementView {
            sql: "SELECT * FROM shift WHERE zipcode = $1"@,
            binds: seq![BindView::Integer(zipcode)],
            fetch: Fetch::All,
        },
        ShiftPredicate::Available => StatementView {
            sql: "SELECT * FROM shift WHERE available = true"@,
            binds: seq![],
            fetch: Fetch::All,
        },
        ShiftPredicate::Hours { min, max } => StatementView {
            sql: "SELECT * FROM shift WHERE total_hours BETWEEN $1 AND $2"@,
            binds: seq![BindView::SmallInt(min), BindView::SmallInt(max)],
            fetch: Fetch::All,
        },
        ShiftPredicate::All => StatementView {
            sql: "SELECT * FROM shift"@,
            binds: seq![],
            fetch: Fetch::All,
        },
    }
}

/// The statement that fetches the shift `id`.
pub open spec fn shift_by_id(id: i32) -> StatementView {
    StatementView {
        sql: "SELECT * FROM shift WHERE shift_id = $1"@,
        binds: seq![BindView::Integer(id)],
        fetch: Fetch::One,
    }
}

/// The values of `fields` in the order of the columns.
pub open spec fn shift_binds(fields: ShiftFields) -> Seq<BindView> {
    seq![
        BindView::Integer(fields.client_id),
        BindView::Integer(fields.service_id),
        BindView::SmallInt(fields.total_hours),
        BindView::Integer(fields.zipcode),
        BindView::Boolean(fields.available),
    ]
}

/// The statement that stores a new shift with `fields` and gives it back.
/// Whether the client and the service of the shift exist is for the constraints
/// of the store to say; where they refuse, the statement fails.
pub open spec fn shift_insert(fields: ShiftFields) -> StatementView {
    StatementView {
        sql: "INSERT INTO shift (client_id, service_id, total_hours, zipcode, available) VALUES ($1, $2, $3, $4, $5) RETURNING *"@,
        binds: shift_binds(fields),
        fetch: Fetch::One,
    }
}

/// The statement that replaces every field of the shift `id` by `fields` and
/// gives the new row back.
pub open spec fn shift_update(id: i32, fields: ShiftFields) -> StatementView {
    StatementView {
        sql: "UPDATE shift SET client_id = $1, service_id = $2, total_hours = $3, zipcode = $4, available = $5 WHERE shift_id = $6 RETURNING *"@,
        binds: shift_binds(fields).push(BindView::Integer(id)),
        fetch: Fetch::One,
    }
}

/// The statement that deletes the shift `id`: that one row, for good.
pub open spec fn shift_delete(id: i32) -> StatementView {
    StatementView {
        sql: "DELETE FROM shift WHERE shift_id = $1"@,
        binds: seq![BindView::Integer(id)],
        fetch: Fetch::Execute,
    }
}

/// `GET /shifts`: the listing under the one predicate that `filters` select.
pub fn get_shifts(filters: ShiftFilters) -> (statement: Statement)
    ensures
        statement@ == shift_listing(filters.predicate()),
{
    let statement = match filters.resolve() {
        ShiftPredicate::Client(client_id) => Statement {
            sql: "SELECT * FROM shift WHERE client_id = $1",
            binds: vec![Bind::Integer(client_id)],
            fetch: Fetch::All,
        },
        ShiftPredicate::Service(service_id) => Statement {
            sql: "SELECT * FROM shift WHERE service_id = $1",
            binds: vec![Bind::Integer(service_id)],
            fetch: Fetch::All,
        },
        ShiftPredicate::Zipcode(zipcode) => Statement {
            sql: "SELECT * FROM shift WHERE zipcode = $1",
            binds: vec![Bind::Integer(zipcode)],
            fetch: Fetch::All,
        },
        ShiftPredicate::Available => Statement {
            sql: "SELECT * FROM shift WHERE available = true",
            binds: Vec::new(),
            fetch: Fetch::All,
        },
        ShiftPredicate::Hours { min, max } => Statement {
            sql: "SELECT * FROM shift WHERE total_hours BETWEEN $1 AND $2",
            binds: vec![Bind::SmallInt(min), Bind::SmallInt(max)],
            fetch: Fetch::All,
        },
        ShiftPredicate::All => Statement {
            sql: "SELECT * FROM shift",
            binds: Vec::new(),
            fetch: Fetch::All,
        },
    };
    assert(statement@.binds =~= shift_listing(filters.predicate()).binds);
    statement
}

/// Answers `GET /shifts`: 200 with the rows in the order in which the store
/// gave them, or 500.
pub fn get_shifts_response(outcome: Result<Vec<Shift>, StoreError>) -> (response: Response<
    Vec<Shift>,
>)
    ensures
        response == Response::of_list(outcome),
{
    list_response(outcome)
}

/// `GET /shifts/:id`.
pub fn get_shift_by_id(id: i32) -> (statement: Statement)
    ensures
        statement@ == shift_by_id(id),
{
    let statement = Statement {
        sql: "SELECT * FROM shift WHERE shift_id = $1",
        binds: vec![Bind::Integer(id)],
        fetch: Fetch::One,
    };
    assert(statement@.binds =~= shift_by_id(id).binds);
    statement
}

/// Answers `GET /shifts/:id`: 200 with the shift, 404 where there is none, or
/// 500.
pub fn get_shift_by_id_response(outcome: Result<Shift, StoreError>) -> (response: Response<Shift>)
    ensures
        response == Response::of_get(outcome),
{
    get_response(outcome)
}

/// `POST /shifts`.
pub fn create_shift(payload: CreateShiftRequest) -> (statement: Statement)
    ensures
        statement@ == shift_insert(payload@),
{
    let statement = Statement {
        sql: "INSERT INTO shift (client_id, service_id, total_hours, zipcode, available) VALUES ($1, $2, $3, $4, $5) RETURNING *",
        binds: vec![
            Bind::Integer(payload.client_id),
            Bind::Integer(payload.service_id),
            Bind::SmallInt(payload.total_hours),
            Bind::Integer(payload.zipcode),
            Bind::Boolean(payload.available),
        ],
        fetch: Fetch::One,
    };
    assert(statement@.binds =~= shift_insert(payload@).binds);
    statement
}

/// Answers `POST /shifts`: 201 with the shift as the store holds it, or 500.
pub fn create_shift_response(outcome: Result<Shift, StoreError>) -> (response: Response<Shift>)
    ensures
        response == Response::of_create(outcome),
{
    create_response(outcome)
}

/// `PUT /shifts/:id`.
pub fn update_shift(id: i32, payload: UpdateShiftRequest) -> (statement: Statement)
    ensures
        statement@ == shift_update(id, payload@),
{
    let statement = Statement {
        sql: "UPDATE shift SET client_id = $1, service_id = $2, total_hours = $3, zipcode = $4, available = $5 WHERE shift_id = $6 RETURNING *",
        binds: vec![
            Bind::Integer(payload.client_id),
            Bind::Integer(payload.service_id),
            Bind::SmallInt(payload.total_hours),
            Bind::Integer(payload.zipcode),
            Bind::Boolean(payload.available),
            Bind::Integer(id),
        ],
        fetch: Fetch::One,
    };
    assert(statement@.binds =~= shift_update(id, payload@).binds);
    statement
}

/// Answers `PUT /shifts/:id`: 200 with the shift as the store holds it now,
/// else 404.
pub fn update_shift_response(outcome: Result<Shift, StoreError>) -> (response: Response<Shift>)
    ensures
        response == Response::of_update(outcome),
{
    update_response(outcome)
}

/// `DELETE /shifts/:id`.
pub fn delete_shift(id: i32) -> (statement: Statement)
    ensures
        statement@ == shift_delete(id),
{
    let statement = Statement {
        sql: "DELETE FROM shift WHERE shift_id = $1",
        binds: vec![Bind::Integer(id)],
        fetch: Fetch::Execute,
    };
    assert(statement@.binds =~= shift_delete(id).binds);
    statement
}

/// Answers `DELETE /shifts/:id`: 204 whether or not a row went, or 500.
pub fn delete_shift_response(outcome: Result<u64, StoreError>) -> (status: StatusCode)
    ensures
        status == StatusCode::of_delete(outcome),
{
    delete_response(outcome)
}

/// Where the range of hours decides, the listing sends both bounds to the
/// store, the lower one first, in a statement that asks for the hours between
/// them.
pub proof fn hours_listing_binds_both_bounds(filters: ShiftFilters)
    requires
        filters.client_id is None,
        filters.service_id is None,
        filters.zipcode is None,
        filters.available != Some(true),
        filters.min_hours is Some,
        filters.max_hours is Some,
    ensures
        shift_listing(filters.predicate()).sql
            == "SELECT * FROM shift WHERE total_hours BETWEEN $1 AND $2"@,
        shift_listing(filters.predicate()).binds == seq![
            BindView::SmallInt(filters.min_hours->0),
            BindView::SmallInt(filters.max_hours->0),
        ],
{
}

/// The values of a row of shifts determine its fields: the statements bind
/// each field once.
pub proof fn shift_binds_tell_fields(one: ShiftFields, other: ShiftFields)
    requires
        shift_binds(one) == shift_binds(other),
    ensures
        one == other,
{
    let a = shift_binds(one);
    let b = shift_binds(other);
    assert(a[0] == b[0] && a[1] == b[1] && a[2] == b[2] && a[3] == b[3] && a[4] == b[4]);
}

/// The reply to a creation shows what the store kept. Where the store kept,
/// column by column, the values that the insert statement bound, under a
/// positive identifier of its own, the reply is 201 and its body holds every
/// field of the request and that identifier.
pub proof fn created_shift_carries_request(payload: CreateShiftRequest, row: Shift)
    requires
        shift_binds(row.fields()) == shift_insert(payload@).binds,
        row.shift_id > 0,
    ensures
        Response::of_create(Ok::<Shift, StoreError>(row)).status == StatusCode::CREATED,
        Response::of_create(Ok::<Shift, StoreError>(row)).body matches Some(body) && body.fields()
            == payload@ && body.shift_id == row.shift_id && body.shift_id > 0,
{
    shift_binds_tell_fields(row.fields(), payload@);
}

/// An update replaces every field. Where the store kept, column by column, the
/// values that the update statement bound, in the row of the identifier that
/// the statement bound, the reply is 200 and its body holds every field of the
/// request under the identifier of the request.
pub proof fn updated_shift_carries_request(id: i32, payload: UpdateShiftRequest, row: Shift)
    requires
        shift_binds(row.fields()).push(BindView::Integer(row.shift_id)) == shift_update(
            id,
            payload@,
        ).binds,
    ensures
        Response::of_update(Ok::<Shift, StoreError>(row)).status == StatusCode::OK,
        Response::of_update(Ok::<Shift, StoreError>(row)).body matches Some(body) && body.fields()
            == payload@ && body.shift_id == id,
{
    let stored = shift_binds(row.fields()).push(BindView::Integer(row.shift_id));
    let bound = shift_binds(payload@).push(BindView::Integer(id));
    assert(stored[5] == bound[5]);
    assert(shift_binds(row.fields()) =~= stored.drop_last());
    assert(shift_binds(payload@) =~= bound.drop_last());
    shift_binds_tell_fields(row.fields(), payload@);
}

/// The statement that fetches a shift by the identifier of a created row binds
/// that identifier. Where the store gives to it the row that it gave to the
/// creation, the reply shows the shift field for field as the reply to the
/// creation did; and so does the reply to an update of the row that the update
/// gave.
pub proof fn fetched_shift_equals_created(row: Shift)
    ensures
        shift_by_id(row.shift_id).binds == seq![BindView::Integer(row.shift_id)],
        Response::of_get(Ok::<Shift, StoreError>(row)).body == Response::of_create(
            Ok::<Shift, StoreError>(row),
        ).body,
        Response::of_get(Ok::<Shift, StoreError>(row)).body == Response::of_update(
            Ok::<Shift, StoreError>(row),
        ).body,
        Response::of_get(Ok::<Shift, StoreError>(row)).body == Some(row),
{
}

} // verus!
