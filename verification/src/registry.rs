//! A table of values by name. Each name has at most one value.
use crate::text::same;
use vstd::prelude::*;

verus! {

pub struct Registry<V> {
    entries: Vec<(String, V)>,
}

impl<V> Registry<V> {
    /// Whether the entry at a position is the name's.
    spec fn at(self, key: Seq<char>, i: int) -> bool {
        0 <= i < self.entries@.len() && self.entries@[i].0@ == key
    }

    pub closed spec fn has(self, key: Seq<char>) -> bool {
        exists|i: int| self.at(key, i)
    }

    closed spec fn value(self, key: Seq<char>) -> V {
        self.entries@[choose|i: int| self.at(key, i)].1
    }

    /// No name occurs twice.
    pub closed spec fn well_formed(self) -> bool {
        forall|i: int, j: int|
            0 <= i < self.entries@.len() && 0 <= j < self.entries@.len() && (
            #[trigger] self.entries@[i]).0@ == (#[trigger] self.entries@[j]).0@ ==> i == j
    }

    /// How many entries there are.
    pub closed spec fn size(self) -> nat {
        self.entries@.len()
    }

    /// The values by their names.
    pub closed spec fn map(self) -> Map<Seq<char>, V> {
        Map::new(|key: Seq<char>| self.has(key), |key: Seq<char>| self.value(key))
    }

    proof fn value_at(self, i: int)
        requires
            self.well_formed(),
            0 <= i < self.entries@.len(),
        ensures
            self.map().dom().contains(self.entries@[i].0@),
            self.map()[self.entries@[i].0@] == self.entries@[i].1,
    {
        assert(self.at(self.entries@[i].0@, i));
    }

    pub fn new() -> (res: Self)
        ensures
            res.well_formed(),
            res.map() == Map::<Seq<char>, V>::empty(),
            res.size() == 0,
    {
        let res = Registry { entries: Vec::new() };
        assert(res.map() =~= Map::<Seq<char>, V>::empty());
        res
    }

    fn find(&self, key: &str) -> (res: Option<usize>)
        requires
            self.well_formed(),
        ensures
            res is Some <==> self.map().dom().contains(key@),
            res matches Some(i) ==> i < self.entries@.len() && self.entries@[i as int].0@ == key@
                && self.entries@[i as int].1 == self.map()[key@],
    {
        let mut i: usize = 0;
        while i < self.entries.len()
            invariant
                self.well_formed(),
                i <= self.entries@.len(),
                forall|j: int| 0 <= j < i ==> (#[trigger] self.entries@[j]).0@ != key@,
            decreases self.entries@.len() - i,
        {
            if same(self.entries[i].0.as_str(), key) {
                proof {
                    self.value_at(i as int);
                }
                return Some(i);
            }
            i = i + 1;
        }
        None
    }

    pub fn contains(&self, key: &str) -> (res: bool)
        requires
            self.well_formed(),
        ensures
            res == self.map().dom().contains(key@),
    {
        self.find(key).is_some()
    }

    pub fn get(&self, key: &str) -> (res: Option<&V>)
        requires
            self.well_formed(),
        ensures
            res is Some <==> self.map().dom().contains(key@),
            res matches Some(value) ==> *value == self.map()[key@],
    {
        match self.find(key) {
            Some(i) => Some(&self.entries[i].1),
            None => None,
        }
    }

    pub fn remove(&mut self, key: &str) -> (res: Option<V>)
        requires
            old(self).well_formed(),
        ensures
            final(self).well_formed(),
            final(self).map() == old(self).map().remove(key@),
            final(self).size() == old(self).size() - (if old(self).map().dom().contains(key@) {
                1int
            } else {
                0
            }),
            res is Some <==> old(self).map().dom().contains(key@),
            res matches Some(value) ==> value == old(self).map()[key@],
    {
        let ghost before = *self;
        match self.find(key) {
            Some(i) => {
                let entry = self.entries.remove(i);
                proof {
                    let n = i as int;
                    assert forall|a: int| 0 <= a < self.entries@.len() implies self.entries@[a]
                        == before.entries@[if a < n { a } else { a + 1 }] by {}
                    assert(self.well_formed());
                    assert forall|k: Seq<char>| #[trigger]
                        self.map().dom().contains(k) <==> before.map().remove(
                            key@,
                        ).dom().contains(k) by {
                        if self.has(k) {
                            let a = choose|a: int| self.at(k, a);
                            let b = if a < n { a } else { a + 1 };
                            assert(before.at(k, b));
                        }
                        if before.has(k) && k != key@ {
                            let b = choose|b: int| before.at(k, b);
                            let a = if b < n { b } else { b - 1 };
                            assert(self.at(k, a));
                        }
                    }
                    assert forall|k: Seq<char>| self.map().dom().contains(k) implies self.map()[k]
                        == before.map()[k] by {
                        let a = choose|a: int| self.at(k, a);
                        self.value_at(a);
                        before.value_at(if a < n { a } else { a + 1 });
                    }
                    assert(self.map() =~= before.map().remove(key@));
                }
                Some(entry.1)
            },
            None => {
                assert(self.map() =~= before.map().remove(key@));
                None
            },
        }
    }

    /// Gives the name this value in place of the one it had, if any.
    pub fn insert(&mut self, key: String, value: V)
        requires
            old(self).well_formed(),
        ensures
            final(self).well_formed(),
            final(self).map() == old(self).map().insert(key@, value),
            final(self).size() == old(self).size() + (if old(self).map().dom().contains(key@) {
                0int
            } else {
                1
            }),
    {
        let ghost start = *self;
        let _ = self.remove(key.as_str());
        let ghost before = *self;
        let ghost name = key@;
        self.entries.push((key, value));
        proof {
            let last = before.entries@.len() as int;
            assert(!before.map().dom().contains(name));
            assert forall|a: int| 0 <= a < last implies #[trigger] self.entries@[a]
                == before.entries@[a] && self.entries@[a].0@ != name by {
                before.value_at(a);
            }
            assert(self.well_formed());
            self.value_at(last);
            assert forall|k: Seq<char>| #[trigger]
                self.map().dom().contains(k) <==> start.map().insert(name, value).dom().contains(
                    k,
                ) by {
                if self.has(k) && k != name {
                    let a = choose|a: int| self.at(k, a);
                    assert(before.at(k, a));
                    assert(before.map().dom().contains(k));
                }
                if start.map().dom().contains(k) && k != name {
                    assert(before.map().dom().contains(k));
                    let a = choose|a: int| before.at(k, a);
                    assert(self.at(k, a));
                }
            }
            assert forall|k: Seq<char>| self.map().dom().contains(k) implies self.map()[k]
                == start.map().insert(name, value)[k] by {
                if k != name {
                    let a = choose|a: int| self.at(k, a);
                    self.value_at(a);
                    before.value_at(a);
                }
            }
            assert(self.map() =~= start.map().insert(name, value));
        }
    }

    /// Whether these are the names, each once.
    pub open spec fn names(self, names: Seq<String>) -> bool {
        &&& forall|i: int| 0 <= i < names.len() ==> self.map().dom().contains(#[trigger] names[i]@)
        &&& forall|key: Seq<char>| #[trigger]
            self.map().dom().contains(key) ==> exists|i: int|
                0 <= i < names.len() && #[trigger] names[i]@ == key
        &&& forall|i: int, j: int|
            0 <= i < names.len() && 0 <= j < names.len() && #[trigger] names[i]@
                == #[trigger] names[j]@ ==> i == j
    }

    pub fn keys(&self) -> (res: Vec<String>)
        requires
            self.well_formed(),
        ensures
            self.names(res@),
    {
        let mut res: Vec<String> = Vec::new();
        let mut i: usize = 0;
        while i < self.entries.len()
            invariant
                self.well_formed(),
                i <= self.entries@.len(),
                res@.len() == i,
                forall|j: int| 0 <= j < i ==> (#[trigger] res@[j]) == self.entries@[j].0,
            decreases self.entries@.len() - i,
        {
            res.push(self.entries[i].0.clone());
            i = i + 1;
        }
        proof {
            assert forall|j: int| 0 <= j < res@.len() implies self.map().dom().contains(
                #[trigger] res@[j]@,
            ) by {
                self.value_at(j);
            }
            assert forall|key: Seq<char>| #[trigger]
                self.map().dom().contains(key) implies exists|j: int|
                0 <= j < res@.len() && #[trigger] res@[j]@ == key by {
                let a = choose|a: int| self.at(key, a);
                assert(res@[a]@ == key);
            }
            assert forall|a: int, b: int|
                0 <= a < res@.len() && 0 <= b < res@.len() && #[trigger] res@[a]@
                    == #[trigger] res@[b]@ implies a == b by {
                assert(self.entries@[a].0@ == self.entries@[b].0@);
            }
        }
        res
    }

    /// There is one entry for each key.
    pub proof fn size_counts_keys(self)
        requires
            self.well_formed(),
        ensures
            self.map().dom().finite(),
            self.map().dom().len() == self.size(),
    {
        let keys = self.entries@.map_values(|entry: (String, V)| entry.0@);
        assert(keys.no_duplicates()) by {
            assert forall|i: int, j: int| 0 <= i < keys.len() && 0 <= j < keys.len() && i != j implies keys[i]
                != keys[j] by {
                assert(self.entries@[i].0@ != self.entries@[j].0@);
            }
        }
        keys.unique_seq_to_set();
        assert forall|key: Seq<char>| #[trigger] keys.to_set().contains(key) <==> self.map().dom().contains(key) by {
            if keys.to_set().contains(key) {
                let i = choose|i: int| 0 <= i < keys.len() && keys[i] == key;
                self.value_at(i);
            }
            if self.map().dom().contains(key) {
                let i = choose|i: int| self.at(key, i);
                assert(keys[i] == key);
            }
        }
        assert(keys.to_set() =~= self.map().dom());
    }

    pub fn len(&self) -> (res: usize)
        ensures
            res == self.size(),
    {
        self.entries.len()
    }

    pub fn is_empty(&self) -> (res: bool)
        requires
            self.well_formed(),
        ensures
            res == (self.map() == Map::<Seq<char>, V>::empty()),
    {
        if self.entries.len() == 0 {
            assert(self.map() =~= Map::<Seq<char>, V>::empty());
            true
        } else {
            proof {
                self.value_at(0);
            }
            false
        }
    }
}

} // verus!
