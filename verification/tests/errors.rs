use blog_repo::error::flatten_blocking;
use blog_repo::ApiError;
use blog_repo::Cause;

#[test]
fn not_found_maps_to_404() {
    assert_eq!(ApiError::NotFound.status_code(), 404);
}

#[test]
fn every_other_error_maps_to_503() {
    assert_eq!(ApiError::pool_exhausted().status_code(), 503);
    let query = ApiError::from_query_error(diesel::result::Error::NotFound);
    assert_eq!(query.status_code(), 503);
}

#[test]
fn pool_exhaustion_is_a_pool_cause() {
    let err = ApiError::pool_exhausted();
    assert!(matches!(err, ApiError::Other(Cause::Pool(_))));
}

#[test]
fn query_errors_become_other_with_query_cause() {
    let err = ApiError::from_query_error(diesel::result::Error::NotFound);
    match err {
        ApiError::Other(Cause::Query(text)) => {
            // The underlying error's description is retained.
            assert!(!text.is_empty());
        }
        other => panic!("expected a query cause, got {:?}", other.status_code()),
    }
}

#[test]
fn manager_errors_become_other_with_pool_cause() {
    let inner = diesel::r2d2::Error::QueryError(diesel::result::Error::NotFound);
    let err = ApiError::from_manager_error(inner);
    assert!(matches!(err, ApiError::Other(Cause::Pool(_))));
}

#[test]
fn flatten_blocking_passes_a_value_through() {
    let r: Result<Result<u32, diesel::result::Error>, actix_web::error::BlockingError> =
        Ok(Ok(7));
    assert_eq!(flatten_blocking(r).unwrap(), 7);
}

#[test]
fn flatten_blocking_translates_a_query_failure() {
    let r: Result<Result<u32, diesel::result::Error>, actix_web::error::BlockingError> =
        Ok(Err(diesel::result::Error::NotFound));
    let err = flatten_blocking(r).unwrap_err();
    assert!(matches!(err, ApiError::Other(Cause::Query(_))));
}
