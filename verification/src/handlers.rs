use vstd::prelude::*;

use crate::error::{db_error_body, not_found_body, AppError};
use crate::json::{encode_user, encode_users, user_json, user_json_of, users_json};
use crate::response::HttpResponse;
use crate::user::{CreateUser, User};

verus! {

/// The greeting served at the root route.
pub fn root() -> (r: String)
    ensures
        r@ == "Hello, users!"@,
{
    String::from_str("Hello, users!")
}

/// Shapes the listing response from what the store returned: 200 with
/// the JSON array of all rows, or 500 with the uniform error body when
/// the store failed.
pub fn get_users(fetched: Result<Vec<User>, String>) -> (r: HttpResponse)
    ensures
        fetched matches Ok(users) ==> r.status == 200 && r.body@ == users_json(users@),
        fetched is Err ==> r.status == 500 && r.body@ == db_error_body(),
{
    match fetched {
        Ok(users) => HttpResponse { status: 200, body: encode_users(&users) },
        Err(cause) => AppError::from(cause).into_response(),
    }
}

/// Shapes the fetch-by-id response from what the store returned: 200
/// with the matching user's JSON, 404 when no row matched, or 500 when
/// the store failed.
pub fn get_user_by_id(fetched: Result<Option<User>, String>) -> (r: HttpResponse)
    ensures
        fetched matches Ok(Some(u)) ==> r.status == 200 && r.body@ == user_json_of(u),
        fetched matches Ok(None) ==> r.status == 404 && r.body@ == not_found_body(),
        fetched is Err ==> r.status == 500 && r.body@ == db_error_body(),
{
    match fetched {
        Ok(Some(u)) => HttpResponse { status: 200, body: encode_user(&u) },
        Ok(None) => AppError::NotFound.into_response(),
        Err(cause) => AppError::from(cause).into_response(),
    }
}

/// Shapes the create response from the request payload and the id the
/// store assigned: 200 with the fully populated user's JSON, or 500
/// when the insert failed.
pub fn create_user(payload: CreateUser, executed: Result<i64, String>) -> (r: HttpResponse)
    ensures
        executed matches Ok(id) ==> r.status == 200 && r.body@ == user_json(
            id as int,
            payload.name@,
            payload.email@,
        ),
        executed is Err ==> r.status == 500 && r.body@ == db_error_body(),
{
    match executed {
        Ok(id) => {
            let new_user = User { id, name: payload.name, email: payload.email };
            HttpResponse { status: 200, body: encode_user(&new_user) }
        },
        Err(cause) => AppError::from(cause).into_response(),
    }
}

/// Shapes the delete response from the affected-row count the store
/// returned: 204 with an empty body when a row was deleted, 404 when
/// none matched, or 500 when the store failed.
pub fn delete_user(executed: Result<u64, String>) -> (r: HttpResponse)
    ensures
        executed matches Ok(n) ==> ({
            &&& n > 0 ==> r.status == 204 && r.body@ == Seq::<char>::empty()
            &&& n == 0 ==> r.status == 404 && r.body@ == not_found_body()
        }),
        executed is Err ==> r.status == 500 && r.body@ == db_error_body(),
{
    match executed {
        Ok(n) => {
            if n == 0 {
                AppError::NotFound.into_response()
            } else {
                HttpResponse { status: 204, body: String::new() }
            }
        },
        Err(cause) => AppError::from(cause).into_response(),
    }
}

} // verus!
