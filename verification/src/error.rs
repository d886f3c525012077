use vstd::prelude::*;

use crate::response::HttpResponse;

verus! {

/// The uniform error body for a lookup or delete that matched no row.
pub open spec fn not_found_body() -> Seq<char> {
    "{\"Error\":\"User not found\"}"@
}

/// The uniform error body for any store-layer failure. The cause is
/// for the operator's log and never reaches the caller.
pub open spec fn db_error_body() -> Seq<char> {
    "{\"Error\":\"Database error\"}"@
}

/// The closed failure taxonomy: an id that matched no row, or any
/// store-layer failure carrying its cause for logging.
pub enum AppError {
    NotFound,
    DatabaseError(String),
}

impl AppError {
    /// The cause kept for the operator's log: the store failure's text,
    /// or nothing for a plain not-found outcome.
    pub fn cause(&self) -> (r: Option<&String>)
        ensures
            (*self) matches AppError::DatabaseError(c) ==> (r matches Some(rc) && *rc == c),
            (*self) is NotFound ==> r is None,
    {
        match self {
            AppError::NotFound => None,
            AppError::DatabaseError(c) => Some(c),
        }
    }

    /// Translates a failure to its HTTP shape: 404 with the uniform
    /// not-found body, or 500 with the uniform database-error body.
    /// The carried cause is never exposed to the caller.
    pub fn into_response(self) -> (r: HttpResponse)
        ensures
            self is NotFound ==> r.status == 404 && r.body@ == not_found_body(),
            self is DatabaseError ==> r.status == 500 && r.body@ == db_error_body(),
    {
        match self {
            AppError::NotFound => HttpResponse {
                status: 404,
                body: String::from_str("{\"Error\":\"User not found\"}"),
            },
            AppError::DatabaseError(_) => HttpResponse {
                status: 500,
                body: String::from_str("{\"Error\":\"Database error\"}"),
            },
        }
    }
}

impl From<String> for AppError {
    /// Any store-layer failure becomes a database error, its text kept
    /// as the cause.
    fn from(cause: String) -> Self {
        AppError::DatabaseError(cause)
    }
}

impl vstd::std_specs::convert::FromSpecImpl<String> for AppError {
    open spec fn obeys_from_spec() -> bool {
        true
    }

    open spec fn from_spec(cause: String) -> Self {
        AppError::DatabaseError(cause)
    }
}

} // verus!
