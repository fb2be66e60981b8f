//! One pair of functions for each operation of the service.
//!
//! The first of a pair turns the request into the statement that the store is
//! to run. The second, whose name ends in `_response`, turns what the store
//! reports of that statement into the reply. Between the two the program
//! around this crate runs the statement, once.

use vstd::prelude::*;
use crate::handlers::user_handler::public_outcome;
use crate::models::{Client, PublicUserView, Shift};
use crate::response::{missing_row_is_not_found, Response, StatusCode};
use crate::store::StoreError;

pub mod client_handler;
pub mod shift_handler;
pub mod user_handler;

verus! {

/// Fetching a user, a client or a shift under an identifier that the store
/// does not hold is answered alike: with 404 and no body.
pub proof fn missing_record_is_not_found()
    ensures
        Response::of_get(public_outcome(Err(StoreError::RowNotFound))) == Response::<
            PublicUserView,
        >::bare(StatusCode::NOT_FOUND),
        Response::of_get(Err::<Client, StoreError>(StoreError::RowNotFound)) == Response::<
            Client,
        >::bare(StatusCode::NOT_FOUND),
        Response::of_get(Err::<Shift, StoreError>(StoreError::RowNotFound)) == Response::<
            Shift,
        >::bare(StatusCode::NOT_FOUND),
{
    missing_row_is_not_found::<PublicUserView>();
    missing_row_is_not_found::<Client>();
    missing_row_is_not_found::<Shift>();
}

} // verus!
