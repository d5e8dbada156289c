//! A table of values by thread. Each thread has at most one value.
use crate::ids::ThreadId;
use std::collections::HashMap;
use vstd::prelude::*;
use vstd::std_specs::hash::group_hash_axioms;
use vstd::std_specs::iter::IteratorSpec;

verus! {

pub struct ThreadTable<V> {
    /// The values by the numbers of their threads.
    entries: HashMap<u128, V>,
}

impl<V> ThreadTable<V> {
    /// The values by their threads.
    pub closed spec fn map(self) -> Map<ThreadId, V> {
        Map::new(
            |key: ThreadId| self.entries@.dom().contains(key.value),
            |key: ThreadId| self.entries@[key.value],
        )
    }

    pub fn new() -> (res: Self)
        ensures
            res.map() == Map::<ThreadId, V>::empty(),
    {
        broadcast use group_hash_axioms;

        let res = ThreadTable { entries: HashMap::new() };
        assert(res.map() =~= Map::<ThreadId, V>::empty());
        res
    }

    pub fn get(&self, key: ThreadId) -> (res: Option<&V>)
        ensures
            res is Some <==> self.map().dom().contains(key),
            res matches Some(value) ==> *value == self.map()[key],
    {
        broadcast use group_hash_axioms;

        self.entries.get(&key.value)
    }

    pub fn remove(&mut self, key: ThreadId) -> (res: Option<V>)
        ensures
            final(self).map() == old(self).map().remove(key),
            res is Some <==> old(self).map().dom().contains(key),
            res matches Some(value) ==> value == old(self).map()[key],
    {
        broadcast use group_hash_axioms;

        let ghost before = *self;
        let removed = self.entries.remove(&key.value);
        assert(self.map() =~= before.map().remove(key));
        removed
    }

    /// Gives the thread this value in place of the one it had, if any.
    pub fn insert(&mut self, key: ThreadId, value: V)
        ensures
            final(self).map() == old(self).map().insert(key, value),
    {
        broadcast use group_hash_axioms;

        let ghost before = *self;
        let _ = self.entries.insert(key.value, value);
        assert(self.map() =~= before.map().insert(key, value));
    }

    /// Whether these are the threads, each once.
    pub open spec fn threads(self, threads: Seq<ThreadId>) -> bool {
        &&& forall|i: int| 0 <= i < threads.len() ==> self.map().dom().contains(#[trigger] threads[i])
        &&& forall|key: ThreadId| #[trigger]
            self.map().dom().contains(key) ==> exists|i: int|
                0 <= i < threads.len() && #[trigger] threads[i] == key
        &&& forall|i: int, j: int|
            0 <= i < threads.len() && 0 <= j < threads.len() && #[trigger] threads[i]
                == #[trigger] threads[j] ==> i == j
    }

    pub fn keys(&self) -> (res: Vec<ThreadId>)
        ensures
            self.threads(res@),
    {
        broadcast use group_hash_axioms;

        let mut res: Vec<ThreadId> = Vec::new();
        let keys = self.entries.keys();
        let ghost listed = keys.remaining().unref();
        assert(listed.to_set() == self.entries@.dom());
        assert(keys.remaining().no_duplicates());
        for key in walk: keys
            invariant
                walk.seq().unref() == listed,
                res@.len() == walk.index(),
                forall|j: int| 0 <= j < res@.len() ==> (#[trigger] res@[j]).value == listed[j],
        {
            res.push(ThreadId { value: *key });
        }
        proof {
            assert forall|i: int| 0 <= i < res@.len() implies self.map().dom().contains(
                #[trigger] res@[i],
            ) by {
                assert(listed.to_set().contains(listed[i]));
            }
            assert forall|key: ThreadId| #[trigger]
                self.map().dom().contains(key) implies exists|i: int|
                0 <= i < res@.len() && #[trigger] res@[i] == key by {
                assert(listed.to_set().contains(key.value));
                let i = choose|i: int| 0 <= i < listed.len() && listed[i] == key.value;
                assert(res@[i] == key);
            }
            assert forall|i: int, j: int|
                0 <= i < res@.len() && 0 <= j < res@.len() && #[trigger] res@[i]
                    == #[trigger] res@[j] implies i == j by {
                assert(keys.remaining()[i] == keys.remaining()[j]);
            }
        }
        res
    }
}

} // verus!
