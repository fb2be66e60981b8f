//! Users: listing, fetching, creating. A user is never shown with its
//! credential: every body is made of [`PublicUser`].

use vstd::prelude::*;
use crate::models::{
    CreateUserRequest, CreateUserRequestView, PublicUser, PublicUserView, User, UserView,
};
use crate::response::{create_response, get_response, list_response, Response, StatusCode};
use crate::store::{Bind, BindView, Fetch, Statement, StatementView, StoreError};

verus! {

/// The statement that lists every user.
pub open spec fn user_listing() -> StatementView {
    StatementView { sql: "SELECT * FROM app_user"@, binds: seq![], fetch: Fetch::All }
}

/// The statement that fetches the user `id`.
pub open spec fn user_by_id(id: i32) -> StatementView {
    StatementView {
        sql: "SELECT * FROM app_user WHERE user_id = $1"@,
        binds: seq![BindView::Integer(id)],
        fetch: Fetch::One,
    }
}

/// The values of `fields` in the order of the columns that a creation fills.
pub open spec fn user_binds(fields: CreateUserRequestView) -> Seq<BindView> {
    seq![
        BindView::Text(fields.username),
        BindView::Text(fields.password_hash),
        BindView::Text(fields.role),
        BindView::NullableText(fields.display_name),
    ]
}

/// The statement that stores a new user and gives it back.
pub open spec fn user_insert(request: CreateUserRequestView) -> StatementView {
    StatementView {
        sql: "INSERT INTO app_user (username, password_hash, role, display_name) VALUES ($1, $2, $3, $4) RETURNING *"@,
        binds: user_binds(request),
        fetch: Fetch::One,
    }
}

/// A store outcome as the service shows it: the credential is gone from the
/// user that the statement gave.
pub open spec fn public_outcome(outcome: Result<User, StoreError>) -> Result<
    PublicUserView,
    StoreError,
> {
    match outcome {
        Ok(user) => Ok(user@.public()),
        Err(error) => Err(error),
    }
}

/// A store outcome as the service shows it: the credential is gone from each
/// user that the statement gave, and their order is kept.
pub open spec fn public_outcomes(outcome: Result<Vec<User>, StoreError>) -> Result<
    Seq<PublicUserView>,
    StoreError,
> {
    match outcome {
        Ok(users) => Ok(users@.map_values(|user: User| user@.public())),
        Err(error) => Err(error),
    }
}

impl View for Response<PublicUser> {
    type V = Response<PublicUserView>;

    open spec fn view(&self) -> Response<PublicUserView> {
        Response {
            status: self.status,
            body: match self.body {
                Some(user) => Some(user@),
                None => None,
            },
        }
    }
}

impl View for Response<Vec<PublicUser>> {
    type V = Response<Seq<PublicUserView>>;

    open spec fn view(&self) -> Response<Seq<PublicUserView>> {
        Response {
            status: self.status,
            body: match self.body {
                Some(users) => Some(users@.map_values(|user: PublicUser| user@)),
                None => None,
            },
        }
    }
}

/// `GET /users`. The listing of users takes no filter.
pub fn get_all_users() -> (statement: Statement)
    ensures
        statement@ == user_listing(),
{
    let statement = Statement { sql: "SELECT * FROM app_user", binds: Vec::new(), fetch: Fetch::All };
    assert(statement@.binds =~= user_listing().binds);
    statement
}

/// Answers `GET /users`: 200 with what is shown of each user, in the order in
/// which the store gave them, or 500.
pub fn get_all_users_response(outcome: Result<Vec<User>, StoreError>) -> (response: Response<
    Vec<PublicUser>,
>)
    ensures
        response@ == Response::of_list(public_outcomes(outcome)),
{
    match outcome {
        Ok(users) => {
            let ghost all = users@;
            let mut body: Vec<PublicUser> = Vec::new();
            for user in it: users
                invariant
                    it.seq() == all,
                    body@.len() == it.index(),
                    forall|j: int| 0 <= j < body@.len() ==> body@[j]@ == all[j]@.public(),
            {
                body.push(user.into_public());
            }
            assert(body@.map_values(|user: PublicUser| user@) =~= all.map_values(
                |user: User| user@.public(),
            ));
            Response { status: StatusCode::OK, body: Some(body) }
        },
        Err(_) => Response { status: StatusCode::INTERNAL_SERVER_ERROR, body: None },
    }
}

/// `GET /users/:id`.
pub fn get_user_by_id(id: i32) -> (statement: Statement)
    ensures
        statement@ == user_by_id(id),
{
    let statement = Statement {
        sql: "SELECT * FROM app_user WHERE user_id = $1",
        binds: vec![Bind::Integer(id)],
        fetch: Fetch::One,
    };
    assert(statement@.binds =~= user_by_id(id).binds);
    statement
}

/// Turns the user of a successful outcome into what is shown of it.
fn hide_credential(outcome: Result<User, StoreError>) -> (hidden: Result<PublicUser, StoreError>)
    ensures
        match outcome {
            Ok(user) => hidden matches Ok(public) && public@ == user@.public(),
            Err(error) => hidden == Err::<PublicUser, StoreError>(error),
        },
{
    match outcome {
        Ok(user) => Ok(user.into_public()),
        Err(error) => Err(error),
    }
}

/// Answers `GET /users/:id`: 200 with what is shown of the user, 404 where
/// there is none, or 500.
pub fn get_user_by_id_response(outcome: Result<User, StoreError>) -> (response: Response<
    PublicUser,
>)
    ensures
        response@ == Response::of_get(public_outcome(outcome)),
{
    get_response(hide_credential(outcome))
}

/// `POST /users`. The credential of the request is bound to the statement and
/// goes nowhere else.
pub fn create_user(payload: CreateUserRequest) -> (statement: Statement)
    ensures
        statement@ == user_insert(payload@),
{
    let statement = Statement {
        sql: "INSERT INTO app_user (username, password_hash, role, display_name) VALUES ($1, $2, $3, $4) RETURNING *",
        binds: vec![
            Bind::Text(payload.username),
            Bind::Text(payload.password_hash),
            Bind::Text(payload.role),
            Bind::NullableText(payload.display_name),
        ],
        fetch: Fetch::One,
    };
    assert(statement@.binds =~= user_insert(payload@).binds);
    statement
}

/// Answers `POST /users`: 201 with what is shown of the user as the store
/// holds it, or 500.
pub fn create_user_response(outcome: Result<User, StoreError>) -> (response: Response<PublicUser>)
    ensures
        response@ == Response::of_create(public_outcome(outcome)),
{
    create_response(hide_credential(outcome))
}

/// The reply to a creation shows what the store kept, without the credential.
/// Where the store kept, column by column, the values that the insert
/// statement bound, under a positive identifier of its own, the reply is 201
/// and its body holds the name, the role and the display name of the request
/// and that identifier.
pub proof fn created_user_carries_request(payload: CreateUserRequest, row: User)
    requires
        user_binds(row@.created_fields()) == user_insert(payload@).binds,
        row.user_id > 0,
    ensures
        row@.created_fields() == payload@,
        Response::of_create(public_outcome(Ok(row))).status == StatusCode::CREATED,
        Response::of_create(public_outcome(Ok(row))).body matches Some(body) && body.username
            == payload@.username && body.role == payload@.role && body.display_name
            == payload@.display_name && body.user_id == row.user_id && body.user_id > 0,
{
    let stored = user_binds(row@.created_fields());
    let bound = user_binds(payload@);
    assert(stored[0] == bound[0] && stored[1] == bound[1] && stored[2] == bound[2] && stored[3]
        == bound[3]);
}

/// The statement that fetches a user by the identifier of a created row binds
/// that identifier. Where the store gives to it the row that it gave to the
/// creation, the reply shows the user field for field as the reply to the
/// creation did.
pub proof fn fetched_user_equals_created(row: User)
    ensures
        user_by_id(row.user_id).binds == seq![BindView::Integer(row.user_id)],
        Response::of_get(public_outcome(Ok(row))).body == Response::of_create(
            public_outcome(Ok(row)),
        ).body,
        Response::of_get(public_outcome(Ok(row))).body == Some(row@.public()),
{
}

/// Two users that differ in nothing but the credential.
pub open spec fn same_but_credential(one: UserView, other: UserView) -> bool {
    one == (UserView { password_hash: one.password_hash, ..other })
}

/// No reply depends on a credential: two users that differ in nothing but the
/// credential are shown alike.
pub proof fn credential_is_never_shown(one: User, other: User)
    requires
        same_but_credential(one@, other@),
    ensures
        public_outcome(Ok(one)) == public_outcome(Ok(other)),
{
}

/// No listing depends on a credential: two runs of users that differ in
/// nothing but the credentials are listed alike.
pub proof fn credentials_are_never_listed(users: Vec<User>, others: Vec<User>)
    requires
        users@.len() == others@.len(),
        forall|i: int| 0 <= i < users@.len() ==> same_but_credential(users@[i]@, others@[i]@),
    ensures
        public_outcomes(Ok(users)) == public_outcomes(Ok(others)),
{
    assert(users@.map_values(|user: User| user@.public()) =~= others@.map_values(
        |user: User| user@.public(),
    ));
}

} // verus!
