use vstd::prelude::*;
use vstd::string::*;
use crate::db::KVDatabase;
use crate::error::ApiError;

verus! {

/// The static liveness marker served at the root route.
pub fn root_message() -> (s: &'static str)
    ensures
        s@ == "Root dir"@,
{
    "Root dir"
}

/// Handler for reading a value by key: the current value when the key is
/// present, the not-found classification when it is absent.
pub fn read_by_key<D: KVDatabase>(db: &D, key: &String) -> (r: Result<String, ApiError>)
    ensures
        db.contents().contains_key(key@) ==> (r matches Ok(v) && v@ == db.contents()[key@]),
        !db.contents().contains_key(key@) ==> r == Err::<String, ApiError>(ApiError::NotFound),
{
    match db.read(key) {
        Some(value) => Ok(value),
        None => Err(ApiError::NotFound),
    }
}

/// Handler for upserting a value by key. An empty value is rejected before it
/// ever reaches the store — an explicit validation rule — and any non-empty
/// value is written unconditionally, with a confirmation naming the key.
pub fn upsert_by_key<D: KVDatabase>(db: &mut D, key: &String, value: String) -> (r: Result<
    String,
    ApiError,
>)
    ensures
        value@.len() == 0 ==> r == Err::<String, ApiError>(ApiError::InvalidInput)
            && final(db).contents() == old(db).contents(),
        value@.len() > 0 ==> (r matches Ok(msg) && msg@ == "Value written for key: "@ + key@
            && final(db).contents() == old(db).contents().insert(key@, value@)),
{
    if value.as_str().is_empty() {
        Err(ApiError::InvalidInput)
    } else {
        db.upsert(key, value);
        let mut msg = String::from_str("Value written for key: ");
        msg.append(key.as_str());
        Ok(msg)
    }
}

} // verus!
