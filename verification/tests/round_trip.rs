use care_api::handlers::client_handler::{
    create_client, create_client_response, delete_client, delete_client_response,
    get_client_by_id, get_client_by_id_response, update_client, update_client_response,
};
use care_api::handlers::shift_handler::{
    create_shift, create_shift_response, get_shift_by_id, get_shift_by_id_response,
};
use care_api::handlers::user_handler::{
    create_user, create_user_response, get_user_by_id, get_user_by_id_response,
};
use care_api::models::{
    Client, CreateClientRequest, CreateShiftRequest, CreateUserRequest, Shift,
    UpdateClientRequest, User,
};
use care_api::response::StatusCode;
use care_api::store::{Bind, Fetch, Statement, StoreError};

fn text_at(statement: &Statement, i: usize) -> String {
    match &statement.binds[i] {
        Bind::Text(s) => s.clone(),
        other => panic!("bind {} is {:?}", i, other),
    }
}

fn nullable_text_at(statement: &Statement, i: usize) -> Option<String> {
    match &statement.binds[i] {
        Bind::NullableText(s) => s.clone(),
        other => panic!("bind {} is {:?}", i, other),
    }
}

fn boolean_at(statement: &Statement, i: usize) -> bool {
    match &statement.binds[i] {
        Bind::Boolean(b) => *b,
        other => panic!("bind {} is {:?}", i, other),
    }
}

fn integer_at(statement: &Statement, i: usize) -> i32 {
    match &statement.binds[i] {
        Bind::Integer(n) => *n,
        other => panic!("bind {} is {:?}", i, other),
    }
}

fn small_int_at(statement: &Statement, i: usize) -> i8 {
    match &statement.binds[i] {
        Bind::SmallInt(n) => *n,
        other => panic!("bind {} is {:?}", i, other),
    }
}

/// The row that a table of clients holds after it ran `statement`, an insert
/// or an update, under the identifier `id`.
fn client_row(id: i32, statement: &Statement) -> Client {
    Client {
        client_id: id,
        first_name: text_at(statement, 0),
        last_name: text_at(statement, 1),
        has_personal_care: boolean_at(statement, 2),
        has_lifting: boolean_at(statement, 3),
        address_1: text_at(statement, 4),
        address_2: nullable_text_at(statement, 5),
        zipcode: text_at(statement, 6),
        phone_number: text_at(statement, 7),
    }
}

/// A table of clients that runs the statements of the client operations.
struct ClientTable {
    rows: Vec<Client>,
    next_id: i32,
}

impl ClientTable {
    fn new() -> Self {
        ClientTable { rows: Vec::new(), next_id: 1 }
    }

    fn fetch_one(&mut self, statement: &Statement) -> Result<Client, StoreError> {
        assert_eq!(statement.fetch, Fetch::One);
        if statement.sql.starts_with("INSERT INTO client ") {
            let row = client_row(self.next_id, statement);
            self.next_id += 1;
            self.rows.push(row.clone());
            Ok(row)
        } else if statement.sql.starts_with("UPDATE client ") {
            let id = integer_at(statement, 8);
            match self.rows.iter_mut().find(|r| r.client_id == id) {
                Some(slot) => {
                    *slot = client_row(id, statement);
                    Ok(slot.clone())
                }
                None => Err(StoreError::RowNotFound),
            }
        } else if statement.sql == "SELECT * FROM client WHERE client_id = $1" {
            let id = integer_at(statement, 0);
            self.rows.iter().find(|r| r.client_id == id).cloned().ok_or(StoreError::RowNotFound)
        } else {
            Err(StoreError::Failure)
        }
    }

    fn execute(&mut self, statement: &Statement) -> Result<u64, StoreError> {
        assert_eq!(statement.fetch, Fetch::Execute);
        if statement.sql == "DELETE FROM client WHERE client_id = $1" {
            let id = integer_at(statement, 0);
            let before = self.rows.len();
            self.rows.retain(|r| r.client_id != id);
            Ok((before - self.rows.len()) as u64)
        } else {
            Err(StoreError::Failure)
        }
    }
}

fn ada() -> CreateClientRequest {
    CreateClientRequest {
        first_name: "Ada".to_string(),
        last_name: "Byron".to_string(),
        has_personal_care: true,
        has_lifting: false,
        address_1: "1 Main St".to_string(),
        address_2: Some("Apt 2".to_string()),
        zipcode: "02139".to_string(),
        phone_number: "555-0100".to_string(),
    }
}

#[test]
fn created_client_has_the_fields_of_the_request() {
    let mut table = ClientTable::new();
    let payload = ada();
    let response = create_client_response(table.fetch_one(&create_client(payload.clone())));
    assert_eq!(response.status, StatusCode::CREATED);
    let body = response.body.expect("a created client has a body");
    assert!(body.client_id > 0);
    assert_eq!(body.first_name, payload.first_name);
    assert_eq!(body.last_name, payload.last_name);
    assert_eq!(body.has_personal_care, payload.has_personal_care);
    assert_eq!(body.has_lifting, payload.has_lifting);
    assert_eq!(body.address_1, payload.address_1);
    assert_eq!(body.address_2, payload.address_2);
    assert_eq!(body.zipcode, payload.zipcode);
    assert_eq!(body.phone_number, payload.phone_number);
}

#[test]
fn client_round_trip() {
    let mut table = ClientTable::new();
    let created = create_client_response(table.fetch_one(&create_client(ada())));
    let created = created.body.expect("a created client has a body");
    let fetched = get_client_by_id_response(table.fetch_one(&get_client_by_id(created.client_id)));
    assert_eq!(fetched.status, StatusCode::OK);
    assert_eq!(fetched.body, Some(created));
}

#[test]
fn client_update_replaces_every_field() {
    let mut table = ClientTable::new();
    let created = create_client_response(table.fetch_one(&create_client(ada())));
    let id = created.body.expect("a created client has a body").client_id;
    let payload = UpdateClientRequest {
        first_name: "Augusta".to_string(),
        last_name: "King".to_string(),
        has_personal_care: false,
        has_lifting: true,
        address_1: "2 Side St".to_string(),
        address_2: None,
        zipcode: "00501".to_string(),
        phone_number: "555-0199".to_string(),
    };
    let updated = update_client_response(table.fetch_one(&update_client(id, payload)));
    assert_eq!(updated.status, StatusCode::OK);
    let expected = Client {
        client_id: id,
        first_name: "Augusta".to_string(),
        last_name: "King".to_string(),
        has_personal_care: false,
        has_lifting: true,
        address_1: "2 Side St".to_string(),
        address_2: None,
        zipcode: "00501".to_string(),
        phone_number: "555-0199".to_string(),
    };
    assert_eq!(updated.body, Some(expected.clone()));
    let fetched = get_client_by_id_response(table.fetch_one(&get_client_by_id(id)));
    assert_eq!(fetched.body, Some(expected));
}

#[test]
fn client_update_of_unknown_id_is_404() {
    let mut table = ClientTable::new();
    let payload = UpdateClientRequest {
        first_name: "Augusta".to_string(),
        last_name: "King".to_string(),
        has_personal_care: false,
        has_lifting: true,
        address_1: "2 Side St".to_string(),
        address_2: None,
        zipcode: "00501".to_string(),
        phone_number: "555-0199".to_string(),
    };
    let response = update_client_response(table.fetch_one(&update_client(41, payload)));
    assert_eq!(response.status, StatusCode::NOT_FOUND);
    assert_eq!(response.status.as_u16(), 404);
    assert_eq!(response.body, None);
}

#[test]
fn client_get_of_unknown_id_is_404() {
    let mut table = ClientTable::new();
    let response = get_client_by_id_response(table.fetch_one(&get_client_by_id(41)));
    assert_eq!(response.status, StatusCode::NOT_FOUND);
    assert_eq!(response.body, None);
}

#[test]
fn client_delete_twice_is_204_twice() {
    let mut table = ClientTable::new();
    let created = create_client_response(table.fetch_one(&create_client(ada())));
    let id = created.body.expect("a created client has a body").client_id;
    let first = table.execute(&delete_client(id));
    assert_eq!(first, Ok(1));
    assert_eq!(delete_client_response(first), StatusCode::NO_CONTENT);
    let second = table.execute(&delete_client(id));
    assert_eq!(second, Ok(0));
    assert_eq!(delete_client_response(second), StatusCode::NO_CONTENT);
    let gone = get_client_by_id_response(table.fetch_one(&get_client_by_id(id)));
    assert_eq!(gone.status, StatusCode::NOT_FOUND);
}

#[test]
fn shift_round_trip() {
    let payload = CreateShiftRequest {
        client_id: 10,
        service_id: 100,
        total_hours: 4,
        zipcode: 2139,
        available: true,
    };
    let insert = create_shift(payload);
    let stored = Shift {
        shift_id: 1,
        client_id: integer_at(&insert, 0),
        service_id: integer_at(&insert, 1),
        total_hours: small_int_at(&insert, 2),
        zipcode: integer_at(&insert, 3),
        available: boolean_at(&insert, 4),
    };
    let created = create_shift_response(Ok(stored));
    assert_eq!(created.status, StatusCode::CREATED);
    let body = created.body.expect("a created shift has a body");
    assert!(body.shift_id > 0);
    assert_eq!(body.client_id, payload.client_id);
    assert_eq!(body.service_id, payload.service_id);
    assert_eq!(body.total_hours, payload.total_hours);
    assert_eq!(body.zipcode, payload.zipcode);
    assert_eq!(body.available, payload.available);
    let select = get_shift_by_id(body.shift_id);
    assert_eq!(integer_at(&select, 0), stored.shift_id);
    let fetched = get_shift_by_id_response(Ok(stored));
    assert_eq!(fetched.status, StatusCode::OK);
    assert_eq!(fetched.body, Some(body));
}

#[test]
fn user_round_trip() {
    let payload = CreateUserRequest {
        username: "nurse1".to_string(),
        password_hash: "hashed-credential".to_string(),
        role: "caregiver".to_string(),
        display_name: Some("Nurse One".to_string()),
    };
    let insert = create_user(payload.clone());
    let stored = User {
        user_id: 1,
        username: text_at(&insert, 0),
        password_hash: text_at(&insert, 1),
        role: text_at(&insert, 2),
        display_name: nullable_text_at(&insert, 3),
        img_url: None,
        short_bio: None,
    };
    assert_eq!(stored.password_hash, payload.password_hash);
    let created = create_user_response(Ok(stored.clone()));
    assert_eq!(created.status, StatusCode::CREATED);
    let body = created.body.expect("a created user has a body");
    assert!(body.user_id > 0);
    assert_eq!(body.username, payload.username);
    assert_eq!(body.role, payload.role);
    assert_eq!(body.display_name, payload.display_name);
    assert_eq!(body.img_url, None);
    assert_eq!(body.short_bio, None);
    let select = get_user_by_id(body.user_id);
    assert_eq!(integer_at(&select, 0), stored.user_id);
    let fetched = get_user_by_id_response(Ok(stored));
    assert_eq!(fetched.status, StatusCode::OK);
    assert_eq!(fetched.body, Some(body));
}
