use kv_service::db::InMemoryDatabase;
use kv_service::db::KVDatabase;
use kv_service::error::ApiError;
use kv_service::handler::read_by_key;
use kv_service::handler::root_message;
use kv_service::handler::upsert_by_key;

#[test]
fn root_route_serves_liveness_marker() {
    assert_eq!(root_message(), "Root dir");
}

#[test]
fn end_to_end_upsert_read_missing_and_empty() {
    let mut db = InMemoryDatabase::new();
    let foo = String::from("foo");
    let missing = String::from("missing");

    // POST /api/foo {"value":"bar"} -> 200 with a confirmation.
    let posted = upsert_by_key(&mut db, &foo, String::from("bar")).unwrap();
    assert_eq!(posted, String::from("Value written for key: foo"));

    // GET /api/foo -> 200 "bar".
    assert_eq!(read_by_key(&db, &foo), Ok(String::from("bar")));

    // GET /api/missing -> 404.
    let not_found = read_by_key(&db, &missing).unwrap_err();
    assert_eq!(not_found, ApiError::NotFound);
    assert_eq!(not_found.status_code(), 404);

    // POST /api/foo {"value":""} -> 400, and the stored value is untouched.
    let rejected = upsert_by_key(&mut db, &foo, String::new()).unwrap_err();
    assert_eq!(rejected, ApiError::InvalidInput);
    assert_eq!(rejected.status_code(), 400);
    assert_eq!(read_by_key(&db, &foo), Ok(String::from("bar")));
}

#[test]
fn empty_value_is_rejected_and_never_reaches_the_store() {
    let mut db = InMemoryDatabase::new();
    let key = String::from("k");
    let r = upsert_by_key(&mut db, &key, String::new());
    assert_eq!(r, Err(ApiError::InvalidInput));
    assert_eq!(db.read(&key), None);
}

#[test]
fn error_variants_map_to_distinct_status_codes() {
    assert_eq!(ApiError::NotFound.status_code(), 404);
    assert_eq!(ApiError::InvalidInput.status_code(), 400);
    assert_eq!(ApiError::Overloaded.status_code(), 503);
    assert_eq!(ApiError::TimedOut.status_code(), 408);
    assert_eq!(ApiError::Internal.status_code(), 500);
}

#[test]
fn error_messages_match_the_classification() {
    assert_eq!(ApiError::TimedOut.message(), "Request timed out.");
    assert_eq!(
        ApiError::Overloaded.message(),
        "Service is overloaded, try again later."
    );
    assert_eq!(ApiError::Internal.message(), "Internal server error.");
    assert_eq!(ApiError::NotFound.message(), "Not found.");
    assert_eq!(ApiError::InvalidInput.message(), "Value must not be empty.");
}
