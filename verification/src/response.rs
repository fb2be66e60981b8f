//! The reply that a store outcome is answered with.
//!
//! Each kind of operation has one table from the outcome of its statement to
//! the reply. A reply carries a body exactly when the statement gave one; a
//! failure is answered with the bare status and tells nothing of its cause.

use vstd::prelude::*;
use crate::store::StoreError;

verus! {

/// The statuses that the service answers with.
#[allow(non_camel_case_types)]
#[derive(Debug, Clone, Copy, PartialEq, Eq, Structural)]
pub enum StatusCode {
    OK,
    CREATED,
    NO_CONTENT,
    NOT_FOUND,
    INTERNAL_SERVER_ERROR,
}

impl StatusCode {
    /// The number of the status on the wire.
    pub open spec fn code(self) -> u16 {
        match self {
            StatusCode::OK => 200,
            StatusCode::CREATED => 201,
            StatusCode::NO_CONTENT => 204,
            StatusCode::NOT_FOUND => 404,
            StatusCode::INTERNAL_SERVER_ERROR => 500,
        }
    }

    /// The number of the status on the wire.
    pub fn as_u16(&self) -> (code: u16)
        ensures
            code == self.code(),
    {
        match self {
            StatusCode::OK => 200,
            StatusCode::CREATED => 201,
            StatusCode::NO_CONTENT => 204,
            StatusCode::NOT_FOUND => 404,
            StatusCode::INTERNAL_SERVER_ERROR => 500,
        }
    }

    /// The answer to a deletion: 204 whatever the number of rows that went, 500
    /// when the store failed. Deleting what is not there is no error.
    pub open spec fn of_delete(outcome: Result<u64, StoreError>) -> StatusCode {
        match outcome {
            Ok(_) => StatusCode::NO_CONTENT,
            Err(_) => StatusCode::INTERNAL_SERVER_ERROR,
        }
    }
}

/// A reply: its status, and its body where it has one.
#[derive(Debug, Clone, PartialEq, Eq)]
pub struct Response<B> {
    pub status: StatusCode,
    pub body: Option<B>,
}

impl<B> Response<B> {
    /// A reply has a body exactly when its status is 200 or 201.
    pub open spec fn well_formed(self) -> bool {
        self.body is Some <==> self.status == StatusCode::OK || self.status == StatusCode::CREATED
    }

    /// The reply that is a bare status.
    pub open spec fn bare(status: StatusCode) -> Response<B> {
        Response { status, body: None }
    }

    /// The answer to a listing: 200 with the rows, 500 when the store failed.
    pub open spec fn of_list(outcome: Result<B, StoreError>) -> Response<B> {
        match outcome {
            Ok(rows) => Response { status: StatusCode::OK, body: Some(rows) },
            Err(_) => Response::bare(StatusCode::INTERNAL_SERVER_ERROR),
        }
    }

    /// The answer to a fetch by identifier: 200 with the row, 404 when there is
    /// no such row, 500 when the store failed.
    pub open spec fn of_get(outcome: Result<B, StoreError>) -> Response<B> {
        match outcome {
            Ok(row) => Response { status: StatusCode::OK, body: Some(row) },
            Err(StoreError::RowNotFound) => Response::bare(StatusCode::NOT_FOUND),
            Err(StoreError::Failure) => Response::bare(StatusCode::INTERNAL_SERVER_ERROR),
        }
    }

    /// The answer to a creation: 201 with the new row, 500 when the store
    /// failed.
    pub open spec fn of_create(outcome: Result<B, StoreError>) -> Response<B> {
        match outcome {
            Ok(row) => Response { status: StatusCode::CREATED, body: Some(row) },
            Err(_) => Response::bare(StatusCode::INTERNAL_SERVER_ERROR),
        }
    }

    /// The answer to an update: 200 with the new row, 404 for every error. An
    /// update of a row that is not there changes nothing and gives no row back;
    /// that and every other failure of the statement are answered alike.
    pub open spec fn of_update(outcome: Result<B, StoreError>) -> Response<B> {
        match outcome {
            Ok(row) => Response { status: StatusCode::OK, body: Some(row) },
            Err(_) => Response::bare(StatusCode::NOT_FOUND),
        }
    }
}

/// Answers a listing.
pub fn list_response<B>(outcome: Result<B, StoreError>) -> (response: Response<B>)
    ensures
        response == Response::of_list(outcome),
{
    match outcome {
        Ok(rows) => Response { status: StatusCode::OK, body: Some(rows) },
        Err(_) => Response { status: StatusCode::INTERNAL_SERVER_ERROR, body: None },
    }
}

/// Answers a fetch by identifier.
pub fn get_response<B>(outcome: Result<B, StoreError>) -> (response: Response<B>)
    ensures
        response == Response::of_get(outcome),
{
    match outcome {
        Ok(row) => Response { status: StatusCode::OK, body: Some(row) },
        Err(StoreError::RowNotFound) => Response { status: StatusCode::NOT_FOUND, body: None },
        Err(StoreError::Failure) => Response {
            status: StatusCode::INTERNAL_SERVER_ERROR,
            body: None,
        },
    }
}

/// Answers a creation.
pub fn create_response<B>(outcome: Result<B, StoreError>) -> (response: Response<B>)
    ensures
        response == Response::of_create(outcome),
{
    match outcome {
        Ok(row) => Response { status: StatusCode::CREATED, body: Some(row) },
        Err(_) => Response { status: StatusCode::INTERNAL_SERVER_ERROR, body: None },
    }
}

/// Answers an update.
pub fn update_response<B>(outcome: Result<B, StoreError>) -> (response: Response<B>)
    ensures
        response == Response::of_update(outcome),
{
    match outcome {
        Ok(row) => Response { status: StatusCode::OK, body: Some(row) },
        Err(_) => Response { status: StatusCode::NOT_FOUND, body: None },
    }
}

/// Answers a deletion. `outcome` holds the number of rows that went.
pub fn delete_response(outcome: Result<u64, StoreError>) -> (status: StatusCode)
    ensures
        status == StatusCode::of_delete(outcome),
{
    match outcome {
        Ok(_) => StatusCode::NO_CONTENT,
        Err(_) => StatusCode::INTERNAL_SERVER_ERROR,
    }
}

/// Whatever the operation and the outcome, the reply is well formed, and it
/// has a body exactly when the statement gave one.
pub proof fn replies_are_well_formed<B>(outcome: Result<B, StoreError>)
    ensures
        Response::of_list(outcome).well_formed(),
        Response::of_get(outcome).well_formed(),
        Response::of_create(outcome).well_formed(),
        Response::of_update(outcome).well_formed(),
        Response::of_list(outcome).body is Some <==> outcome is Ok,
        Response::of_get(outcome).body is Some <==> outcome is Ok,
        Response::of_create(outcome).body is Some <==> outcome is Ok,
        Response::of_update(outcome).body is Some <==> outcome is Ok,
{
}

/// Fetching what the store does not hold is answered with 404 and no body.
pub proof fn missing_row_is_not_found<B>()
    ensures
        Response::<B>::of_get(Err(StoreError::RowNotFound)) == Response::<B>::bare(
            StatusCode::NOT_FOUND,
        ),
        StatusCode::NOT_FOUND.code() == 404,
{
}

/// An update that gave no row is answered with 404, never with 500, whatever
/// the store reported: an update of a row that is not there is no failure of
/// the store, and no other failure is told apart from it.
pub proof fn failed_update_is_not_found<B>(error: StoreError)
    ensures
        Response::<B>::of_update(Err(error)) == Response::<B>::bare(StatusCode::NOT_FOUND),
        Response::<B>::of_update(Err(error)).status.code() == 404,
{
}

/// Deleting again what a first deletion took away is answered as the first
/// was. The store reports of each how many rows went, one and then none, and
/// every such report is answered with 204; only a store that failed is
/// answered with 500.
pub proof fn delete_is_idempotent(first: u64, second: u64)
    ensures
        StatusCode::of_delete(Ok(first)) == StatusCode::NO_CONTENT,
        StatusCode::of_delete(Ok(second)) == StatusCode::of_delete(Ok(first)),
        StatusCode::of_delete(Ok(second)).code() == 204,
{
}

} // verus!
