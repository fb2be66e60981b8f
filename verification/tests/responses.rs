use care_api::handlers::client_handler::{
    create_client_response, delete_client_response, get_client_by_id_response,
    get_clients_response, update_client_response,
};
use care_api::handlers::shift_handler::{
    create_shift_response, delete_shift_response, get_shift_by_id_response, get_shifts_response,
    update_shift_response,
};
use care_api::handlers::user_handler::{
    create_user_response, get_all_users_response, get_user_by_id_response,
};
use care_api::models::{Client, PublicUser, Shift, User};
use care_api::response::{
    create_response, delete_response, get_response, list_response, update_response, Response,
    StatusCode,
};
use care_api::store::StoreError;

fn client(id: i32, first: &str) -> Client {
    Client {
        client_id: id,
        first_name: first.to_string(),
        last_name: "Byron".to_string(),
        has_personal_care: true,
        has_lifting: false,
        address_1: "1 Main St".to_string(),
        address_2: Some("Apt 2".to_string()),
        zipcode: "02139".to_string(),
        phone_number: "555-0100".to_string(),
    }
}

fn shift(id: i32, hours: i8) -> Shift {
    Shift { shift_id: id, client_id: 10, service_id: 100, total_hours: hours, zipcode: 2139, available: true }
}

fn user(id: i32, name: &str, hash: &str) -> User {
    User {
        user_id: id,
        username: name.to_string(),
        password_hash: hash.to_string(),
        role: "caregiver".to_string(),
        display_name: Some("Nurse".to_string()),
        img_url: None,
        short_bio: Some("Ten years of care".to_string()),
    }
}

fn public(id: i32, name: &str) -> PublicUser {
    PublicUser {
        user_id: id,
        username: name.to_string(),
        role: "caregiver".to_string(),
        display_name: Some("Nurse".to_string()),
        img_url: None,
        short_bio: Some("Ten years of care".to_string()),
    }
}

fn bare<B>(status: StatusCode) -> Response<B> {
    Response { status, body: None }
}

#[test]
fn status_codes_have_their_numbers() {
    assert_eq!(StatusCode::OK.as_u16(), 200);
    assert_eq!(StatusCode::CREATED.as_u16(), 201);
    assert_eq!(StatusCode::NO_CONTENT.as_u16(), 204);
    assert_eq!(StatusCode::NOT_FOUND.as_u16(), 404);
    assert_eq!(StatusCode::INTERNAL_SERVER_ERROR.as_u16(), 500);
}

#[test]
fn list_response_table() {
    assert_eq!(
        list_response(Ok(vec![1, 2, 3])),
        Response { status: StatusCode::OK, body: Some(vec![1, 2, 3]) }
    );
    assert_eq!(
        list_response(Ok(Vec::<i32>::new())),
        Response { status: StatusCode::OK, body: Some(vec![]) }
    );
    assert_eq!(
        list_response::<Vec<i32>>(Err(StoreError::Failure)),
        bare(StatusCode::INTERNAL_SERVER_ERROR)
    );
    assert_eq!(
        list_response::<Vec<i32>>(Err(StoreError::RowNotFound)),
        bare(StatusCode::INTERNAL_SERVER_ERROR)
    );
}

#[test]
fn get_response_table() {
    assert_eq!(get_response(Ok(7)), Response { status: StatusCode::OK, body: Some(7) });
    assert_eq!(get_response::<i32>(Err(StoreError::RowNotFound)), bare(StatusCode::NOT_FOUND));
    assert_eq!(
        get_response::<i32>(Err(StoreError::Failure)),
        bare(StatusCode::INTERNAL_SERVER_ERROR)
    );
}

#[test]
fn create_response_table() {
    assert_eq!(create_response(Ok(7)), Response { status: StatusCode::CREATED, body: Some(7) });
    assert_eq!(
        create_response::<i32>(Err(StoreError::Failure)),
        bare(StatusCode::INTERNAL_SERVER_ERROR)
    );
    assert_eq!(
        create_response::<i32>(Err(StoreError::RowNotFound)),
        bare(StatusCode::INTERNAL_SERVER_ERROR)
    );
}

#[test]
fn update_response_table() {
    assert_eq!(update_response(Ok(7)), Response { status: StatusCode::OK, body: Some(7) });
    assert_eq!(update_response::<i32>(Err(StoreError::RowNotFound)), bare(StatusCode::NOT_FOUND));
    assert_eq!(update_response::<i32>(Err(StoreError::Failure)), bare(StatusCode::NOT_FOUND));
}

#[test]
fn delete_response_table() {
    assert_eq!(delete_response(Ok(1)), StatusCode::NO_CONTENT);
    assert_eq!(delete_response(Ok(0)), StatusCode::NO_CONTENT);
    assert_eq!(delete_response(Ok(u64::MAX)), StatusCode::NO_CONTENT);
    assert_eq!(delete_response(Err(StoreError::Failure)), StatusCode::INTERNAL_SERVER_ERROR);
    assert_eq!(delete_response(Err(StoreError::RowNotFound)), StatusCode::INTERNAL_SERVER_ERROR);
}

#[test]
fn get_by_id_of_missing_row_is_404_for_every_resource() {
    let missing_user = get_user_by_id_response(Err(StoreError::RowNotFound));
    assert_eq!(missing_user, bare(StatusCode::NOT_FOUND));
    assert_eq!(missing_user.status.as_u16(), 404);
    let missing_client = get_client_by_id_response(Err(StoreError::RowNotFound));
    assert_eq!(missing_client, bare(StatusCode::NOT_FOUND));
    assert_eq!(missing_client.status.as_u16(), 404);
    let missing_shift = get_shift_by_id_response(Err(StoreError::RowNotFound));
    assert_eq!(missing_shift, bare(StatusCode::NOT_FOUND));
    assert_eq!(missing_shift.status.as_u16(), 404);
}

#[test]
fn get_by_id_of_failed_store_is_500_for_every_resource() {
    assert_eq!(
        get_user_by_id_response(Err(StoreError::Failure)),
        bare(StatusCode::INTERNAL_SERVER_ERROR)
    );
    assert_eq!(
        get_client_by_id_response(Err(StoreError::Failure)),
        bare(StatusCode::INTERNAL_SERVER_ERROR)
    );
    assert_eq!(
        get_shift_by_id_response(Err(StoreError::Failure)),
        bare(StatusCode::INTERNAL_SERVER_ERROR)
    );
}

#[test]
fn update_of_missing_row_is_404_not_500() {
    let missing_client = update_client_response(Err(StoreError::RowNotFound));
    assert_eq!(missing_client, bare(StatusCode::NOT_FOUND));
    assert_eq!(missing_client.status.as_u16(), 404);
    let missing_shift = update_shift_response(Err(StoreError::RowNotFound));
    assert_eq!(missing_shift, bare(StatusCode::NOT_FOUND));
    assert_eq!(missing_shift.status.as_u16(), 404);
    assert_eq!(update_client_response(Err(StoreError::Failure)), bare(StatusCode::NOT_FOUND));
    assert_eq!(update_shift_response(Err(StoreError::Failure)), bare(StatusCode::NOT_FOUND));
}

#[test]
fn update_shows_the_stored_row() {
    assert_eq!(
        update_client_response(Ok(client(7, "Ada"))),
        Response { status: StatusCode::OK, body: Some(client(7, "Ada")) }
    );
    assert_eq!(
        update_shift_response(Ok(shift(9, 4))),
        Response { status: StatusCode::OK, body: Some(shift(9, 4)) }
    );
}

#[test]
fn second_delete_is_204_again() {
    let first = delete_client_response(Ok(1));
    let second = delete_client_response(Ok(0));
    assert_eq!(first, StatusCode::NO_CONTENT);
    assert_eq!(second, StatusCode::NO_CONTENT);
    assert_eq!(second.as_u16(), 204);
    assert_eq!(delete_shift_response(Ok(1)), StatusCode::NO_CONTENT);
    assert_eq!(delete_shift_response(Ok(0)), StatusCode::NO_CONTENT);
}

#[test]
fn delete_of_failed_store_is_500() {
    assert_eq!(
        delete_client_response(Err(StoreError::Failure)),
        StatusCode::INTERNAL_SERVER_ERROR
    );
    assert_eq!(delete_shift_response(Err(StoreError::Failure)), StatusCode::INTERNAL_SERVER_ERROR);
}

#[test]
fn listing_keeps_the_order_of_the_store() {
    let rows = vec![client(3, "Grace"), client(1, "Ada"), client(2, "Edsger")];
    let response = get_clients_response(Ok(rows.clone()));
    assert_eq!(response, Response { status: StatusCode::OK, body: Some(rows) });
    let shifts = vec![shift(5, 6), shift(2, 2)];
    assert_eq!(
        get_shifts_response(Ok(shifts.clone())),
        Response { status: StatusCode::OK, body: Some(shifts) }
    );
}

#[test]
fn empty_listing_is_200_with_no_rows() {
    assert_eq!(
        get_clients_response(Ok(vec![])),
        Response { status: StatusCode::OK, body: Some(vec![]) }
    );
    assert_eq!(
        get_shifts_response(Ok(vec![])),
        Response { status: StatusCode::OK, body: Some(vec![]) }
    );
    assert_eq!(
        get_all_users_response(Ok(vec![])),
        Response { status: StatusCode::OK, body: Some(vec![]) }
    );
}

#[test]
fn failed_listing_is_500() {
    assert_eq!(
        get_clients_response(Err(StoreError::Failure)),
        bare(StatusCode::INTERNAL_SERVER_ERROR)
    );
    assert_eq!(
        get_shifts_response(Err(StoreError::Failure)),
        bare(StatusCode::INTERNAL_SERVER_ERROR)
    );
    assert_eq!(
        get_all_users_response(Err(StoreError::Failure)),
        bare(StatusCode::INTERNAL_SERVER_ERROR)
    );
}

#[test]
fn created_rows_are_answered_with_201() {
    assert_eq!(
        create_client_response(Ok(client(7, "Ada"))),
        Response { status: StatusCode::CREATED, body: Some(client(7, "Ada")) }
    );
    assert_eq!(
        create_shift_response(Ok(shift(9, 4))),
        Response { status: StatusCode::CREATED, body: Some(shift(9, 4)) }
    );
    assert_eq!(
        create_user_response(Ok(user(5, "nurse1", "hashed-credential"))),
        Response { status: StatusCode::CREATED, body: Some(public(5, "nurse1")) }
    );
}

#[test]
fn failed_creation_is_500() {
    assert_eq!(
        create_client_response(Err(StoreError::Failure)),
        bare(StatusCode::INTERNAL_SERVER_ERROR)
    );
    assert_eq!(
        create_shift_response(Err(StoreError::Failure)),
        bare(StatusCode::INTERNAL_SERVER_ERROR)
    );
    assert_eq!(
        create_user_response(Err(StoreError::Failure)),
        bare(StatusCode::INTERNAL_SERVER_ERROR)
    );
}

#[test]
fn user_is_shown_without_credential() {
    let stored = user(5, "nurse1", "hashed-credential");
    assert_eq!(stored.clone().into_public(), public(5, "nurse1"));
    let fetched = get_user_by_id_response(Ok(stored.clone()));
    assert_eq!(fetched, Response { status: StatusCode::OK, body: Some(public(5, "nurse1")) });
    let shown = format!("{:?}", fetched);
    assert!(!shown.contains("hashed-credential"));
    assert!(!shown.contains("password_hash"));
    let created = format!("{:?}", create_user_response(Ok(stored)));
    assert!(!created.contains("hashed-credential"));
}

#[test]
fn users_that_differ_in_credential_are_shown_alike() {
    let one = get_user_by_id_response(Ok(user(5, "nurse1", "first-credential")));
    let other = get_user_by_id_response(Ok(user(5, "nurse1", "second-credential")));
    assert_eq!(one, other);
}

#[test]
fn user_listing_keeps_order_and_hides_credentials() {
    let rows = vec![
        user(3, "carol", "credential-c"),
        user(1, "alice", "credential-a"),
        user(2, "bob", "credential-b"),
    ];
    let response = get_all_users_response(Ok(rows));
    assert_eq!(
        response,
        Response {
            status: StatusCode::OK,
            body: Some(vec![public(3, "carol"), public(1, "alice"), public(2, "bob")]),
        }
    );
    assert!(!format!("{:?}", response).contains("credential-"));
}
