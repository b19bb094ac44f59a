//! The typed errors surfaced by the repository, the conversions from each
//! lower layer's error type, and the mapping to an HTTP status code.

use vstd::prelude::*;
use vstd::string::StringExecFns;

verus! {

/// The infrastructure layer on which an operation failed. The text retains
/// the underlying error's description; callers are not expected to act on it.
#[derive(Debug)]
pub enum Cause {
    /// No pooled connection could be acquired.
    Pool(String),
    /// The query itself failed.
    Query(String),
    /// The offloaded blocking task could not complete.
    Task(String),
}

/// The closed set of errors surfaced to callers: a missing entity is
/// distinguished, and every infrastructure failure collapses into `Other`.
#[derive(Debug)]
pub enum ApiError {
    NotFound,
    Other(Cause),
}

#[verifier::external_type_specification]
#[verifier::external_body]
pub struct ExPoolError(diesel::r2d2::PoolError);

#[verifier::external_type_specification]
#[verifier::external_body]
pub struct ExManagerError(diesel::r2d2::Error);

#[verifier::external_type_specification]
#[verifier::external_body]
pub struct ExQueryError(diesel::result::Error);

#[verifier::external_type_specification]
#[verifier::external_body]
pub struct ExBlockingError(actix_web::error::BlockingError);

/// Relies on the `Display` impl of `r2d2::Error` (the pool's acquisition
/// error): renders the error to text.
#[verifier::external_body]
fn describe_pool_error(e: &diesel::r2d2::PoolError) -> String {
    format!("{}", e)
}

/// Relies on the `Display` impl of `diesel::r2d2::Error` (the connection
/// manager's error): renders the error to text.
#[verifier::external_body]
fn describe_manager_error(e: &diesel::r2d2::Error) -> String {
    format!("{}", e)
}

/// Relies on the `Display` impl of `diesel::result::Error` (the query
/// layer's error): renders the error to text.
#[verifier::external_body]
fn describe_query_error(e: &diesel::result::Error) -> String {
    format!("{}", e)
}

/// Relies on the `Display` impl of `actix_web::error::BlockingError` (the
/// blocking-task offload's error): renders the error to text.
#[verifier::external_body]
fn describe_blocking_error(e: &actix_web::error::BlockingError) -> String {
    format!("{}", e)
}

impl ApiError {
    /// Translate a pool-acquisition failure; the cause is retained as text.
    pub fn from_pool_error(e: diesel::r2d2::PoolError) -> (r: ApiError)
        ensures
            r matches ApiError::Other(Cause::Pool(_)),
    {
        ApiError::Other(Cause::Pool(describe_pool_error(&e)))
    }

    /// Translate a connection-manager failure; it belongs to the pool layer.
    pub fn from_manager_error(e: diesel::r2d2::Error) -> (r: ApiError)
        ensures
            r matches ApiError::Other(Cause::Pool(_)),
    {
        ApiError::Other(Cause::Pool(describe_manager_error(&e)))
    }

    /// Translate a query-execution failure; the cause is retained as text.
    pub fn from_query_error(e: diesel::result::Error) -> (r: ApiError)
        ensures
            r matches ApiError::Other(Cause::Query(_)),
    {
        ApiError::Other(Cause::Query(describe_query_error(&e)))
    }

    /// Translate a blocking-task failure; the cause is retained as text.
    pub fn from_blocking_error(e: actix_web::error::BlockingError) -> (r: ApiError)
        ensures
            r matches ApiError::Other(Cause::Task(_)),
    {
        ApiError::Other(Cause::Task(describe_blocking_error(&e)))
    }

    /// The error returned when the pool has no free connection: the
    /// operation fails at once instead of waiting.
    pub fn pool_exhausted() -> (r: ApiError)
        ensures
            r matches ApiError::Other(Cause::Pool(_)),
    {
        ApiError::Other(Cause::Pool(String::from_str("no pooled connection is available")))
    }

    /// The HTTP status that each error kind maps to: a missing entity is a
    /// client-visible not-found, everything else is service-unavailable.
    pub fn status_code(&self) -> (code: u16)
        ensures
            code == self.spec_status_code(),
    {
        match self {
            ApiError::NotFound => 404,
            ApiError::Other(_) => 503,
        }
    }

    /// The status mapping: 404 for `NotFound`, 503 for `Other`.
    pub open spec fn spec_status_code(&self) -> u16 {
        match self {
            ApiError::NotFound => 404u16,
            ApiError::Other(_) => 503u16,
        }
    }
}

/// Collapse the result of a query that ran on the blocking-task offload:
/// the task layer's failure and the query layer's failure both become
/// `Other`, and a value that came through is returned unchanged.
pub fn flatten_blocking<T>(
    r: Result<Result<T, diesel::result::Error>, actix_web::error::BlockingError>,
) -> (out: Result<T, ApiError>)
    ensures
        r matches Ok(Ok(v)) ==> out matches Ok(w) && w == v,
        r matches Ok(Err(_)) ==> out matches Err(ApiError::Other(Cause::Query(_))),
        r matches Err(_) ==> out matches Err(ApiError::Other(Cause::Task(_))),
{
    match r {
        Ok(Ok(v)) => Ok(v),
        Ok(Err(e)) => Err(ApiError::from_query_error(e)),
        Err(e) => Err(ApiError::from_blocking_error(e)),
    }
}

} // verus!
