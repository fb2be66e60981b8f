//! The surface of the service: which operation answers which method and path.

use vstd::prelude::*;

verus! {

/// The methods that the service answers.
#[derive(Debug, Clone, Copy, PartialEq, Eq, Structural)]
pub enum Method {
    Get,
    Post,
    Put,
    Delete,
}

/// The operations of the service.
#[derive(Debug, Clone, Copy, PartialEq, Eq, Structural)]
pub enum Endpoint {
    Hello,
    Health,
    ListUsers,
    GetUser,
    CreateUser,
    ListClients,
    CreateClient,
    GetClient,
    UpdateClient,
    DeleteClient,
    ListShifts,
    GetShift,
    CreateShift,
    UpdateShift,
    DeleteShift,
}

impl Endpoint {
    /// The method that the operation answers.
    pub open spec fn method(self) -> Method {
        match self {
            Endpoint::Hello => Method::Get,
            Endpoint::Health => Method::Get,
            Endpoint::ListUsers => Method::Get,
            Endpoint::GetUser => Method::Get,
            Endpoint::CreateUser => Method::Post,
            Endpoint::ListClients => Method::Get,
            Endpoint::CreateClient => Method::Post,
            Endpoint::GetClient => Method::Get,
            Endpoint::UpdateClient => Method::Put,
            Endpoint::DeleteClient => Method::Delete,
            Endpoint::ListShifts => Method::Get,
            Endpoint::GetShift => Method::Get,
            Endpoint::CreateShift => Method::Post,
            Endpoint::UpdateShift => Method::Put,
            Endpoint::DeleteShift => Method::Delete,
        }
    }

    /// The path that the operation answers. In it `:id` stands for the
    /// identifier of a record.
    pub open spec fn path(self) -> Seq<char> {
        match self {
            Endpoint::Hello => "/"@,
            Endpoint::Health => "/health"@,
            Endpoint::ListUsers => "/users"@,
            Endpoint::GetUser => "/users/:id"@,
            Endpoint::CreateUser => "/users"@,
            Endpoint::ListClients => "/clients"@,
            Endpoint::CreateClient => "/clients"@,
            Endpoint::GetClient => "/clients/:id"@,
            Endpoint::UpdateClient => "/clients/:id"@,
            Endpoint::DeleteClient => "/clients/:id"@,
            Endpoint::ListShifts => "/shifts"@,
            Endpoint::GetShift => "/shifts/:id"@,
            Endpoint::CreateShift => "/shifts"@,
            Endpoint::UpdateShift => "/shifts/:id"@,
            Endpoint::DeleteShift => "/shifts/:id"@,
        }
    }

    /// The method and the path that the operation answers.
    pub fn route(&self) -> (route: (Method, &'static str))
        ensures
            route.0 == self.method(),
            route.1@ == self.path(),
    {
        match self {
            Endpoint::Hello => (Method::Get, "/"),
            Endpoint::Health => (Method::Get, "/health"),
            Endpoint::ListUsers => (Method::Get, "/users"),
            Endpoint::GetUser => (Method::Get, "/users/:id"),
            Endpoint::CreateUser => (Method::Post, "/users"),
            Endpoint::ListClients => (Method::Get, "/clients"),
            Endpoint::CreateClient => (Method::Post, "/clients"),
            Endpoint::GetClient => (Method::Get, "/clients/:id"),
            Endpoint::UpdateClient => (Method::Put, "/clients/:id"),
            Endpoint::DeleteClient => (Method::Delete, "/clients/:id"),
            Endpoint::ListShifts => (Method::Get, "/shifts"),
            Endpoint::GetShift => (Method::Get, "/shifts/:id"),
            Endpoint::CreateShift => (Method::Post, "/shifts"),
            Endpoint::UpdateShift => (Method::Put, "/shifts/:id"),
            Endpoint::DeleteShift => (Method::Delete, "/shifts/:id"),
        }
    }

    /// Every operation, once.
    pub open spec fn every() -> Seq<Endpoint> {
        seq![
            Endpoint::Hello,
            Endpoint::Health,
            Endpoint::ListUsers,
            Endpoint::GetUser,
            Endpoint::CreateUser,
            Endpoint::ListClients,
            Endpoint::CreateClient,
            Endpoint::GetClient,
            Endpoint::UpdateClient,
            Endpoint::DeleteClient,
            Endpoint::ListShifts,
            Endpoint::GetShift,
            Endpoint::CreateShift,
            Endpoint::UpdateShift,
            Endpoint::DeleteShift,
        ]
    }

    /// Every operation, once.
    pub fn all() -> (endpoints: Vec<Endpoint>)
        ensures
            endpoints@ == Endpoint::every(),
    {
        let endpoints = vec![
            Endpoint::Hello,
            Endpoint::Health,
            Endpoint::ListUsers,
            Endpoint::GetUser,
            Endpoint::CreateUser,
            Endpoint::ListClients,
            Endpoint::CreateClient,
            Endpoint::GetClient,
            Endpoint::UpdateClient,
            Endpoint::DeleteClient,
            Endpoint::ListShifts,
            Endpoint::GetShift,
            Endpoint::CreateShift,
            Endpoint::UpdateShift,
            Endpoint::DeleteShift,
        ];
        assert(endpoints@ =~= Endpoint::every());
        endpoints
    }
}

/// The table of routes lacks no operation and names none twice.
pub proof fn every_endpoint_is_listed_once(endpoint: Endpoint)
    ensures
        Endpoint::every().contains(endpoint),
        Endpoint::every().no_duplicates(),
{
    let every = Endpoint::every();
    assert(every[0] == Endpoint::Hello && every[1] == Endpoint::Health && every[2]
        == Endpoint::ListUsers && every[3] == Endpoint::GetUser && every[4]
        == Endpoint::CreateUser && every[5] == Endpoint::ListClients && every[6]
        == Endpoint::CreateClient && every[7] == Endpoint::GetClient && every[8]
        == Endpoint::UpdateClient && every[9] == Endpoint::DeleteClient && every[10]
        == Endpoint::ListShifts && every[11] == Endpoint::GetShift && every[12]
        == Endpoint::CreateShift && every[13] == Endpoint::UpdateShift && every[14]
        == Endpoint::DeleteShift);
}

/// No two operations answer the same method on the same path: a request is
/// routed to one operation at most.
pub proof fn routes_are_distinct(one: Endpoint, other: Endpoint)
    requires
        one.method() == other.method(),
        one.path() == other.path(),
    ensures
        one == other,
{
    reveal_strlit("/");
    reveal_strlit("/health");
    reveal_strlit("/users");
    reveal_strlit("/users/:id");
    reveal_strlit("/clients");
    reveal_strlit("/clients/:id");
    reveal_strlit("/shifts");
    reveal_strlit("/shifts/:id");
    assert("/"@.len() == 1);
    assert("/health"@.len() == 7 && "/health"@[1] == 'h');
    assert("/users"@.len() == 6);
    assert("/users/:id"@.len() == 10);
    assert("/clients"@.len() == 8);
    assert("/clients/:id"@.len() == 12);
    assert("/shifts"@.len() == 7 && "/shifts"@[1] == 's');
    assert("/shifts/:id"@.len() == 11);
}

/// The text that `GET /` answers with.
pub fn hello_world() -> (greeting: &'static str)
    ensures
        greeting@ == "Welcome to Care Rust "@,
{
    "Welcome to Care Rust "
}

/// The body that `GET /health` answers with.
#[derive(Debug, Clone, PartialEq, Eq)]
pub struct Status {
    pub status: String,
    pub db_connected: bool,
}

/// What `GET /health` answers with: that the service is up. The answer is a
/// constant. The store is not asked, and `db_connected` is `false` whether or
/// not the store can be reached.
pub fn health_check() -> (health: Status)
    ensures
        health.status@ == "Up"@,
        !health.db_connected,
{
    Status { status: "Up".to_owned(), db_connected: false }
}

} // verus!
