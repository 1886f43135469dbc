use vstd::prelude::*;
use vstd::hash_map::StringHashMap;

verus! {

/// The mathematical effect of `update`: overwrite the key's value when the
/// key is present, leave the map unchanged otherwise.
pub open spec fn updated(
    m: Map<Seq<char>, Seq<char>>,
    k: Seq<char>,
    v: Seq<char>,
) -> Map<Seq<char>, Seq<char>> {
    if m.contains_key(k) {
        m.insert(k, v)
    } else {
        m
    }
}

/// Capability set of a key-value store backend. Any backend that implements
/// these four operations, with these contracts over its abstract contents,
/// may replace the in-memory one without changing callers.
pub trait KVDatabase: Sized {
    /// The store's contents as a mathematical map from key to value.
    spec fn contents(&self) -> Map<Seq<char>, Seq<char>>;

    /// Insert a key-value pair, or overwrite the value of an existing key.
    /// Always succeeds: subsequent reads of `key` observe `value`.
    fn upsert(&mut self, key: &String, value: String)
        ensures
            final(self).contents() == old(self).contents().insert(key@, value@),
    ;

    /// Read the current value of a key, or `None` when the key is absent.
    fn read(&self, key: &String) -> (value: Option<String>)
        ensures
            (match value {
                Some(v) => self.contents().contains_key(key@) && v@ == self.contents()[key@],
                None => !self.contents().contains_key(key@),
            }),
    ;

    /// Delete the entry of a key; a no-op when the key is absent.
    fn remove(&mut self, key: &String)
        ensures
            final(self).contents() == old(self).contents().remove(key@),
    ;

    /// Overwrite the value of an existing key; a no-op when the key is
    /// absent. Unlike `upsert`, `update` never creates an entry.
    fn update(&mut self, key: &String, new_value: String)
        ensures
            final(self).contents() == updated(old(self).contents(), key@, new_value@),
    ;
}

/// In-memory key-value store: a hash map from string key to string value.
pub struct InMemoryDatabase {
    map: StringHashMap<String>,
}

impl InMemoryDatabase {
    /// Creates a new empty instance of `InMemoryDatabase`.
    pub fn new() -> (db: Self)
        ensures
            db.contents() == Map::<Seq<char>, Seq<char>>::empty(),
    {
        let db = InMemoryDatabase { map: StringHashMap::new() };
        proof {
            assert(db.contents() =~= Map::<Seq<char>, Seq<char>>::empty());
        }
        db
    }
}

impl KVDatabase for InMemoryDatabase {
    closed spec fn contents(&self) -> Map<Seq<char>, Seq<char>> {
        self.map@.map_values(|v: String| v@)
    }

    fn upsert(&mut self, key: &String, value: String) {
        self.map.insert(key.clone(), value);
        proof {
            assert(self.contents() =~= old(self).contents().insert(key@, value@));
        }
    }

    fn read(&self, key: &String) -> (value: Option<String>) {
        match self.map.get(key.as_str()) {
            Some(v) => Some(v.clone()),
            None => None,
        }
    }

    fn remove(&mut self, key: &String) {
        self.map.remove(key.as_str());
        proof {
            assert(self.contents() =~= old(self).contents().remove(key@));
        }
    }

    fn update(&mut self, key: &String, new_value: String) {
        if self.map.contains_key(key.as_str()) {
            self.map.insert(key.clone(), new_value);
            proof {
                assert(old(self).contents().contains_key(key@));
                assert(self.contents() =~= old(self).contents().insert(key@, new_value@));
            }
        } else {
            proof {
                assert(!old(self).contents().contains_key(key@));
            }
        }
    }
}

/// Law: upserting a key and then reading it returns the value just written.
pub proof fn lemma_upsert_then_read(m: Map<Seq<char>, Seq<char>>, k: Seq<char>, v: Seq<char>)
    requires
        v.len() > 0,
    ensures
        m.insert(k, v).contains_key(k),
        m.insert(k, v)[k] == v,
{
}

/// Law: updating a key that was never inserted leaves the store unchanged,
/// and a subsequent read still reports the key absent.
pub proof fn lemma_update_absent_is_noop(m: Map<Seq<char>, Seq<char>>, k: Seq<char>, v: Seq<char>)
    requires
        !m.contains_key(k),
    ensures
        updated(m, k, v) == m,
        !updated(m, k, v).contains_key(k),
{
}

/// Law: removing a key and then reading it reports the key absent, whatever
/// the key's prior state.
pub proof fn lemma_remove_then_read(m: Map<Seq<char>, Seq<char>>, k: Seq<char>)
    ensures
        !m.remove(k).contains_key(k),
{
}

/// The store's contents after a run of upserts of one key, applied in the
/// order in which the writers acquired the store's write lock.
pub open spec fn apply_upserts(
    m: Map<Seq<char>, Seq<char>>,
    k: Seq<char>,
    vs: Seq<Seq<char>>,
) -> Map<Seq<char>, Seq<char>>
    decreases vs.len(),
{
    if vs.len() == 0 {
        m
    } else {
        apply_upserts(m.insert(k, vs[0]), k, vs.drop_first())
    }
}

/// Law: serialized upserts of one key leave the store holding exactly one of
/// the written values for that key — the last writer's — and leave every
/// other key untouched; no torn or foreign value is ever observable.
pub proof fn lemma_last_writer_wins(m: Map<Seq<char>, Seq<char>>, k: Seq<char>, vs: Seq<Seq<char>>)
    requires
        vs.len() > 0,
    ensures
        apply_upserts(m, k, vs).contains_key(k),
        apply_upserts(m, k, vs)[k] == vs.last(),
        exists|i: int| 0 <= i < vs.len() && apply_upserts(m, k, vs)[k] == vs[i],
        forall|k2: Seq<char>|
            k2 != k ==> apply_upserts(m, k, vs).contains_key(k2) == m.contains_key(k2),
        forall|k2: Seq<char>|
            k2 != k && m.contains_key(k2) ==> apply_upserts(m, k, vs)[k2] == m[k2],
    decreases vs.len(),
{
    if vs.len() == 1 {
        assert(vs.drop_first().len() == 0);
        assert(apply_upserts(m.insert(k, vs[0]), k, vs.drop_first()) == m.insert(k, vs[0]));
        assert(apply_upserts(m, k, vs) == m.insert(k, vs[0]));
        assert(apply_upserts(m, k, vs)[k] == vs[0]);
    } else {
        lemma_last_writer_wins(m.insert(k, vs[0]), k, vs.drop_first());
        assert(apply_upserts(m, k, vs) == apply_upserts(m.insert(k, vs[0]), k, vs.drop_first()));
        assert(vs.drop_first().last() == vs.last());
        assert(forall|i: int|
            0 <= i < vs.drop_first().len() ==> vs.drop_first()[i] == vs[i + 1]);
        assert forall|k2: Seq<char>| k2 != k implies apply_upserts(m, k, vs).contains_key(k2)
            == m.contains_key(k2) by {
            assert(m.insert(k, vs[0]).contains_key(k2) == m.contains_key(k2));
        }
        assert forall|k2: Seq<char>| k2 != k && m.contains_key(k2) implies apply_upserts(
            m,
            k,
            vs,
        )[k2] == m[k2] by {
            assert(m.insert(k, vs[0])[k2] == m[k2]);
        }
    }
}

} // verus!
