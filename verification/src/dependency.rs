use vstd::prelude::*;
use std::sync::Arc;
use crate::db::InMemoryDatabase;
use crate::db::KVDatabase;

verus! {

/// Application state holding the app's dependency singletons: the store,
/// created once at startup and shared (not copied) across all concurrent
/// request handlers.
pub struct ApplicationState {
    pub db: InMemoryDatabase,
}

impl Default for ApplicationState {
    /// A fresh state around an empty store.
    fn default() -> (state: Self)
        ensures
            state.db.contents() == Map::<Seq<char>, Seq<char>>::empty(),
    {
        ApplicationState { db: InMemoryDatabase::new() }
    }
}

impl ApplicationState {
    /// A fresh state behind a shared handle, as the request handlers hold it.
    pub fn build() -> (state: Arc<Self>)
        ensures
            state.db.contents() == Map::<Seq<char>, Seq<char>>::empty(),
    {
        Arc::new(Self::default())
    }
}

} // verus!
