//! Clients: listing with filters, fetching, creating, updating, deleting.

use vstd::prelude::*;
use crate::filters::{ClientFilters, ClientFiltersView, ClientPredicate, ClientPredicateView};
use crate::models::{Client, ClientFields, CreateClientRequest, UpdateClientRequest};
use crate::response::{
    create_response, delete_response, get_response, list_response, update_response,
    Response, StatusCode,
};
use crate::store::{Bind, BindView, Fetch, Statement, StatementView, StoreError};

verus! {

/// The statement of a listing that applies `predicate`. It names no order:
/// the rows come as the store gives them.
pub open spec fn client_listing(predicate: ClientPredicateView) -> StatementView {
    match predicate {
        ClientPredicateView::Name { first_name, last_name } => StatementView {
            sql: "SELECT * FROM client WHERE first_name = $1 AND last_name = $2"@,
            binds: seq![BindView::Text(first_name), BindView::Text(last_name)],
            fetch: Fetch::All,
        },
        ClientPredicateView::Zipcode(zipcode) => StatementView {
            sql: "SELECT * FROM client WHERE zipcode = $1"@,
            binds: seq![BindView::Text(zipcode)],
            fetch: Fetch::All,
        },
        ClientPredicateView::All => StatementView {
            sql: "SELECT * FROM client"@,
            binds: seq![],
            fetch: Fetch::All,
        },
    }
}

/// The statement that fetches the client `id`.
pub open spec fn client_by_id(id: i32) -> StatementView {
    StatementView {
        sql: "SELECT * FROM client WHERE client_id = $1"@,
        binds: seq![BindView::Integer(id)],
        fetch: Fetch::One,
    }
}

/// The values of `fields` in the order of the columns.
pub open spec fn client_binds(fields: ClientFields) -> Seq<BindView> {
    seq![
        BindView::Text(fields.first_name),
        BindView::Text(fields.last_name),
        BindView::Boolean(fields.has_personal_care),
        BindView::Boolean(fields.has_lifting),
        BindView::Text(fields.address_1),
        BindView::NullableText(fields.address_2),
        BindView::Text(fields.zipcode),
        BindView::Text(fields.phone_number),
    ]
}

/// The statement that stores a new client with `fields` and gives it back.
pub open spec fn client_insert(fields: ClientFields) -> StatementView {
    StatementView {
        sql: "INSERT INTO client (first_name, last_name, has_personal_care, has_lifting, address_1, address_2, zipcode, phone_number) VALUES ($1, $2, $3, $4, $5, $6, $7, $8) RETURNING *"@,
        binds: client_binds(fields),
        fetch: Fetch::One,
    }
}

/// The statement that replaces every field of the client `id` by `fields` and
/// gives the new row back.
pub open spec fn client_update(id: i32, fields: ClientFields) -> StatementView {
    StatementView {
        sql: "UPDATE client SET first_name = $1, last_name = $2, has_personal_care = $3, has_lifting = $4, address_1 = $5, address_2 = $6, zipcode = $7, phone_number = $8 WHERE client_id = $9 RETURNING *"@,
        binds: client_binds(fields).push(BindView::Integer(id)),
        fetch: Fetch::One,
    }
}

/// The statement that deletes the client `id`: that one row, for good, and
/// nothing with it. Whether a client may go while shifts refer to it is for the
/// constraints of the store to say; where they refuse, the statement fails.
pub open spec fn client_delete(id: i32) -> StatementView {
    StatementView {
        sql: "DELETE FROM client WHERE client_id = $1"@,
        binds: seq![BindView::Integer(id)],
        fetch: Fetch::Execute,
    }
}

/// `GET /clients`: the listing under the one predicate that `filters` select.
pub fn get_clients(filters: ClientFilters) -> (statement: Statement)
    ensures
        statement@ == client_listing(filters@.predicate()),
{
    let statement = match filters.resolve() {
        ClientPredicate::Name { first_name, last_name } => Statement {
            sql: "SELECT * FROM client WHERE first_name = $1 AND last_name = $2",
            binds: vec![Bind::Text(first_name), Bind::Text(last_name)],
            fetch: Fetch::All,
        },
        ClientPredicate::Zipcode(zipcode) => Statement {
            sql: "SELECT * FROM client WHERE zipcode = $1",
            binds: vec![Bind::Text(zipcode)],
            fetch: Fetch::All,
        },
        ClientPredicate::All => Statement {
            sql: "SELECT * FROM client",
            binds: Vec::new(),
            fetch: Fetch::All,
        },
    };
    assert(statement@.binds =~= client_listing(filters@.predicate()).binds);
    statement
}

/// Answers `GET /clients`: 200 with the rows in the order in which the store
/// gave them, or 500.
pub fn get_clients_response(outcome: Result<Vec<Client>, StoreError>) -> (response: Response<
    Vec<Client>,
>)
    ensures
        response == Response::of_list(outcome),
{
    list_response(outcome)
}

/// `GET /clients/:id`.
pub fn get_client_by_id(id: i32) -> (statement: Statement)
    ensures
        statement@ == client_by_id(id),
{
    let statement = Statement {
        sql: "SELECT * FROM client WHERE client_id = $1",
        binds: vec![Bind::Integer(id)],
        fetch: Fetch::One,
    };
    assert(statement@.binds =~= client_by_id(id).binds);
    statement
}

/// Answers `GET /clients/:id`: 200 with the client, 404 where there is none,
/// or 500.
pub fn get_client_by_id_response(outcome: Result<Client, StoreError>) -> (response: Response<
    Client,
>)
    ensures
        response == Response::of_get(outcome),
{
    get_response(outcome)
}

/// `POST /clients`.
pub fn create_client(payload: CreateClientRequest) -> (statement: Statement)
    ensures
        statement@ == client_insert(payload@),
{
    let statement = Statement {
        sql: "INSERT INTO client (first_name, last_name, has_personal_care, has_lifting, address_1, address_2, zipcode, phone_number) VALUES ($1, $2, $3, $4, $5, $6, $7, $8) RETURNING *",
        binds: vec![
            Bind::Text(payload.first_name),
            Bind::Text(payload.last_name),
            Bind::Boolean(payload.has_personal_care),
            Bind::Boolean(payload.has_lifting),
            Bind::Text(payload.address_1),
            Bind::NullableText(payload.address_2),
            Bind::Text(payload.zipcode),
            Bind::Text(payload.phone_number),
        ],
        fetch: Fetch::One,
    };
    assert(statement@.binds =~= client_insert(payload@).binds);
    statement
}

/// Answers `POST /clients`: 201 with the client as the store holds it, or 500.
pub fn create_client_response(outcome: Result<Client, StoreError>) -> (response: Response<Client>)
    ensures
        response == Response::of_create(outcome),
{
    create_response(outcome)
}

/// `PUT /clients/:id`.
pub fn update_client(id: i32, payload: UpdateClientRequest) -> (statement: Statement)
    ensures
        statement@ == client_update(id, payload@),
{
    let statement = Statement {
        sql: "UPDATE client SET first_name = $1, last_name = $2, has_personal_care = $3, has_lifting = $4, address_1 = $5, address_2 = $6, zipcode = $7, phone_number = $8 WHERE client_id = $9 RETURNING *",
        binds: vec![
            Bind::Text(payload.first_name),
            Bind::Text(payload.last_name),
            Bind::Boolean(payload.has_personal_care),
            Bind::Boolean(payload.has_lifting),
            Bind::Text(payload.address_1),
            Bind::NullableText(payload.address_2),
            Bind::Text(payload.zipcode),
            Bind::Text(payload.phone_number),
            Bind::Integer(id),
        ],
        fetch: Fetch::One,
    };
    assert(statement@.binds =~= client_update(id, payload@).binds);
    statement
}

/// Answers `PUT /clients/:id`: 200 with the client as the store holds it now,
/// else 404.
pub fn update_client_response(outcome: Result<Client, StoreError>) -> (response: Response<Client>)
    ensures
        response == Response::of_update(outcome),
{
    update_response(outcome)
}

/// `DELETE /clients/:id`.
pub fn delete_client(id: i32) -> (statement: Statement)
    ensures
        statement@ == client_delete(id),
{
    let statement = Statement {
        sql: "DELETE FROM client WHERE client_id = $1",
        binds: vec![Bind::Integer(id)],
        fetch: Fetch::Execute,
    };
    assert(statement@.binds =~= client_delete(id).binds);
    statement
}

/// Answers `DELETE /clients/:id`: 204 whether or not a row went, or 500.
pub fn delete_client_response(outcome: Result<u64, StoreError>) -> (status: StatusCode)
    ensures
        status == StatusCode::of_delete(outcome),
{
    delete_response(outcome)
}

/// A listing under both names sends the names to the store and nothing of the
/// zipcode: whatever zipcode came with the request, the statement is the same.
pub proof fn name_listing_ignores_zipcode(filters: ClientFilters, zipcode: Option<Seq<char>>)
    requires
        filters.first_name is Some,
        filters.last_name is Some,
    ensures
        client_listing(filters@.predicate()) == client_listing(
            (ClientFiltersView { zipcode, ..filters@ }).predicate(),
        ),
        client_listing(filters@.predicate()).sql
            == "SELECT * FROM client WHERE first_name = $1 AND last_name = $2"@,
        client_listing(filters@.predicate()).binds == seq![
            BindView::Text(filters@.first_name->0),
            BindView::Text(filters@.last_name->0),
        ],
{
}

/// The values of a row of clients determine its fields: the statements bind
/// each field once.
pub proof fn client_binds_tell_fields(one: ClientFields, other: ClientFields)
    requires
        client_binds(one) == client_binds(other),
    ensures
        one == other,
{
    let a = client_binds(one);
    let b = client_binds(other);
    assert(a[0] == b[0] && a[1] == b[1] && a[2] == b[2] && a[3] == b[3] && a[4] == b[4] && a[5]
        == b[5] && a[6] == b[6] && a[7] == b[7]);
}

/// The reply to a creation shows what the store kept. Where the store kept,
/// column by column, the values that the insert statement bound, under a
/// positive identifier of its own, the reply is 201 and its body holds every
/// field of the request and that identifier.
pub proof fn created_client_carries_request(payload: CreateClientRequest, row: Client)
    requires
        client_binds(row@.fields()) == client_insert(payload@).binds,
        row.client_id > 0,
    ensures
        Response::of_create(Ok::<Client, StoreError>(row)).status == StatusCode::CREATED,
        Response::of_create(Ok::<Client, StoreError>(row)).body matches Some(body)
            && body@.fields() == payload@ && body.client_id == row.client_id && body.client_id > 0,
{
    client_binds_tell_fields(row@.fields(), payload@);
}

/// An update replaces every field. Where the store kept, column by column, the
/// values that the update statement bound, in the row of the identifier that
/// the statement bound, the reply is 200 and its body holds every field of the
/// request under the identifier of the request.
pub proof fn updated_client_carries_request(id: i32, payload: UpdateClientRequest, row: Client)
    requires
        client_binds(row@.fields()).push(BindView::Integer(row.client_id)) == client_update(
            id,
            payload@,
        ).binds,
    ensures
        Response::of_update(Ok::<Client, StoreError>(row)).status == StatusCode::OK,
        Response::of_update(Ok::<Client, StoreError>(row)).body matches Some(body)
            && body@.fields() == payload@ && body.client_id == id,
{
    let stored = client_binds(row@.fields()).push(BindView::Integer(row.client_id));
    let bound = client_binds(payload@).push(BindView::Integer(id));
    assert(stored[8] == bound[8]);
    assert(client_binds(row@.fields()) =~= stored.drop_last());
    assert(client_binds(payload@) =~= bound.drop_last());
    client_binds_tell_fields(row@.fields(), payload@);
}

/// The statement that fetches a client by the identifier of a created row binds
/// that identifier. Where the store gives to it the row that it gave to the
/// creation, the reply shows the client field for field as the reply to the
/// creation did; and so does the reply to an update of the row that the update
/// gave.
pub proof fn fetched_client_equals_created(row: Client)
    ensures
        client_by_id(row.client_id).binds == seq![BindView::Integer(row.client_id)],
        Response::of_get(Ok::<Client, StoreError>(row)).body == Response::of_create(
            Ok::<Client, StoreError>(row),
        ).body,
        Response::of_get(Ok::<Client, StoreError>(row)).body == Response::of_update(
            Ok::<Client, StoreError>(row),
        ).body,
        Response::of_get(Ok::<Client, StoreError>(row)).body == Some(row),
{
}

} // verus!
