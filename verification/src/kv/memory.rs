//! The in-memory storage: a hash map from key strings to value strings.
//! Every operation succeeds, so each method strengthens the trait contract
//! with `r is Ok`.

use vstd::prelude::*;

use vstd::hash_map::StringHashMap;

use crate::kv::domain::KV;
use crate::kv::error::KvError;
use crate::kv::storage::{insert_all, kv_views, lookup_present, remove_all, views_of, Storage};

verus! {

/// A storage backed by a hash map held entirely in memory.
pub struct Memory {
    map: StringHashMap<String>,
}

impl Memory {
    /// An empty store.
    pub fn new() -> (r: Memory)
        ensures
            r.model() == Map::<Seq<char>, Seq<char>>::empty(),
    {
        Memory { map: StringHashMap::new() }
    }
}

impl Default for Memory {
    /// An empty store.
    fn default() -> (r: Memory)
        ensures
            r.model() == Map::<Seq<char>, Seq<char>>::empty(),
    {
        Memory::new()
    }
}

impl Storage for Memory {
    closed spec fn model(&self) -> Map<Seq<char>, Seq<char>> {
        self.map@.map_values(|v: String| v@)
    }

    fn get(&self, key: &str) -> (r: Result<Vec<String>, KvError>)
        ensures
            r is Ok,
    {
        let mut values: Vec<String> = Vec::new();
        match self.map.get(key) {
            Some(v) => {
                values.push(v.clone());
            },
            None => {},
        }
        Ok(values)
    }

    fn mget(&self, keys: &[String]) -> (r: Result<Vec<String>, KvError>)
        ensures
            r is Ok,
    {
        let mut values: Vec<String> = Vec::new();
        let n = keys.len();
        for i in 0..n
            invariant
                n == keys@.len(),
                views_of(values@) == lookup_present(self.model(), views_of(keys@.take(i as int))),
        {
            let ghost before = values@;
            match self.map.get(keys[i].as_str()) {
                Some(v) => {
                    values.push(v.clone());
                },
                None => {},
            }
            proof {
                assert(views_of(keys@.take(i + 1)).drop_last() =~= views_of(keys@.take(i as int)));
                assert(views_of(keys@.take(i + 1)).last() == keys@[i as int]@);
                if self.model().contains_key(keys@[i as int]@) {
                    assert(views_of(values@) =~= views_of(before).push(
                        self.model()[keys@[i as int]@],
                    ));
                }
            }
        }
        proof {
            assert(keys@.take(n as int) =~= keys@);
        }
        Ok(values)
    }

    fn set(&mut self, key: String, value: String) -> (r: Result<Vec<String>, KvError>)
        ensures
            r is Ok,
    {
        self.map.insert(key, value);
        proof {
            assert(self.model() =~= old(self).model().insert(key@, value@));
        }
        Ok(Vec::new())
    }

    fn mset(&mut self, kvs: Vec<KV>) -> (r: Result<Vec<String>, KvError>)
        ensures
            r is Ok,
    {
        let n = kvs.len();
        for i in 0..n
            invariant
                n == kvs@.len(),
                self.model() == insert_all(old(self).model(), kv_views(kvs@.take(i as int))),
        {
            let ghost mid = self.model();
            let kv = &kvs[i];
            self.map.insert(kv.key.clone(), kv.value.clone());
            proof {
                assert(kv_views(kvs@.take(i + 1)).drop_last() =~= kv_views(kvs@.take(i as int)));
                let ghost entry = kvs@[i as int];
                assert(kv_views(kvs@.take(i + 1)).last() == (entry.key@, entry.value@));
                assert(self.model() =~= mid.insert(kvs@[i as int].key@, kvs@[i as int].value@));
            }
        }
        proof {
            assert(kvs@.take(n as int) =~= kvs@);
        }
        Ok(Vec::new())
    }

    fn del(&mut self, keys: &[String]) -> (r: Result<Vec<String>, KvError>)
        ensures
            r is Ok,
    {
        let n = keys.len();
        for i in 0..n
            invariant
                n == keys@.len(),
                self.model() == remove_all(old(self).model(), views_of(keys@.take(i as int))),
        {
            let ghost mid = self.model();
            self.map.remove(keys[i].as_str());
            proof {
                assert(views_of(keys@.take(i + 1)).drop_last() =~= views_of(keys@.take(i as int)));
                assert(views_of(keys@.take(i + 1)).last() == keys@[i as int]@);
                assert(self.model() =~= mid.remove(keys@[i as int]@));
            }
        }
        proof {
            assert(keys@.take(n as int) =~= keys@);
        }
        Ok(Vec::new())
    }
}

} // verus!
