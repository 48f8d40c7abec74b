//! The storage abstraction: a mutable map from keys to values, specified
//! through the `model` each implementation exposes.

use vstd::prelude::*;

use crate::kv::domain::KV;
use crate::kv::error::KvError;

verus! {

/// The character sequences of a sequence of strings.
pub open spec fn views_of(s: Seq<String>) -> Seq<Seq<char>> {
    s.map_values(|v: String| v@)
}

/// The key/value character sequences of a sequence of pairs.
pub open spec fn kv_views(s: Seq<KV>) -> Seq<(Seq<char>, Seq<char>)> {
    s.map_values(|kv: KV| (kv.key@, kv.value@))
}

/// The values stored under the present keys of `keys`, in key order;
/// absent keys contribute nothing.
pub open spec fn lookup_present(
    m: Map<Seq<char>, Seq<char>>,
    keys: Seq<Seq<char>>,
) -> Seq<Seq<char>>
    decreases keys.len(),
{
    if keys.len() == 0 {
        Seq::empty()
    } else {
        let rest = lookup_present(m, keys.drop_last());
        if m.contains_key(keys.last()) {
            rest.push(m[keys.last()])
        } else {
            rest
        }
    }
}

/// The map after storing every pair of `kvs` in order; a later pair wins
/// over an earlier one with the same key.
pub open spec fn insert_all(
    m: Map<Seq<char>, Seq<char>>,
    kvs: Seq<(Seq<char>, Seq<char>)>,
) -> Map<Seq<char>, Seq<char>>
    decreases kvs.len(),
{
    if kvs.len() == 0 {
        m
    } else {
        insert_all(m, kvs.drop_last()).insert(kvs.last().0, kvs.last().1)
    }
}

/// The map after removing every key of `keys`.
pub open spec fn remove_all(m: Map<Seq<char>, Seq<char>>, keys: Seq<Seq<char>>) -> Map<
    Seq<char>,
    Seq<char>,
>
    decreases keys.len(),
{
    if keys.len() == 0 {
        m
    } else {
        remove_all(m, keys.drop_last()).remove(keys.last())
    }
}

/// A mutable key-value store.  `model` is the map it currently holds; an
/// implementation free of failures strengthens each method to always
/// return `Ok`.
pub trait Storage: Sized {
    /// The key-value map this store currently holds.
    spec fn model(&self) -> Map<Seq<char>, Seq<char>>;

    /// The value under `key` as a one-element sequence, or an empty one
    /// when the key is absent.
    fn get(&self, key: &str) -> (r: Result<Vec<String>, KvError>)
        ensures
            r matches Ok(vs) ==> {
                &&& self.model().contains_key(key@) ==> vs@.len() == 1 && vs@[0]@
                    == self.model()[key@]
                &&& !self.model().contains_key(key@) ==> vs@.len() == 0
            },
    ;

    /// The values under the present keys of `keys`, in key order.
    fn mget(&self, keys: &[String]) -> (r: Result<Vec<String>, KvError>)
        ensures
            r matches Ok(vs) ==> views_of(vs@) == lookup_present(self.model(), views_of(keys@)),
    ;

    /// Stores `value` under `key`, overwriting any previous value.
    fn set(&mut self, key: String, value: String) -> (r: Result<Vec<String>, KvError>)
        ensures
            r matches Ok(vs) ==> vs@.len() == 0 && final(self).model() == old(self).model().insert(
                key@,
                value@,
            ),
    ;

    /// Stores every pair of `kvs`, in order.
    fn mset(&mut self, kvs: Vec<KV>) -> (r: Result<Vec<String>, KvError>)
        ensures
            r matches Ok(vs) ==> vs@.len() == 0 && final(self).model() == insert_all(
                old(self).model(),
                kv_views(kvs@),
            ),
    ;

    /// Removes every key of `keys`; absent keys are ignored.
    fn del(&mut self, keys: &[String]) -> (r: Result<Vec<String>, KvError>)
        ensures
            r matches Ok(vs) ==> vs@.len() == 0 && final(self).model() == remove_all(
                old(self).model(),
                views_of(keys@),
            ),
    ;
}

} // verus!
