//! Dispatching one request to the storage and shaping the response.

use vstd::prelude::*;

use crate::kv::domain::{Request, Response, KV};
use crate::kv::storage::{insert_all, kv_views, lookup_present, remove_all, views_of, Storage};

verus! {

/// Executes `request` against `storage` and reports the outcome: code 0
/// with the values read on success, the error's code otherwise.
pub fn handle<S: Storage>(request: Request, storage: &mut S) -> (r: Response)
    ensures
        request matches Request::Get { key } ==> ({
            &&& *final(storage) == *old(storage)
            &&& r.code == 0 ==> {
                &&& old(storage).model().contains_key(key@) ==> r.values@.len() == 1
                    && r.values@[0]@ == old(storage).model()[key@]
                &&& !old(storage).model().contains_key(key@) ==> r.values@.len() == 0
            }
        }),
        request matches Request::MGet { keys } ==> ({
            &&& *final(storage) == *old(storage)
            &&& r.code == 0 ==> views_of(r.values@) == lookup_present(
                old(storage).model(),
                views_of(keys@),
            )
        }),
        request matches Request::Put { kv } ==> (r.code == 0 ==> final(storage).model() == old(
            storage,
        ).model().insert(kv.key@, kv.value@) && r.values@.len() == 0),
        request matches Request::MSet { kvs } ==> (r.code == 0 ==> final(storage).model()
            == insert_all(old(storage).model(), kv_views(kvs@)) && r.values@.len() == 0),
        request matches Request::Del { keys } ==> (r.code == 0 ==> final(storage).model()
            == remove_all(old(storage).model(), views_of(keys@)) && r.values@.len() == 0),
{
    let result = match request {
        Request::Get { key } => storage.get(key.as_str()),
        Request::MGet { keys } => storage.mget(keys.as_slice()),
        Request::Put { kv: KV { key, value } } => storage.set(key, value),
        Request::MSet { kvs } => storage.mset(kvs),
        Request::Del { keys } => storage.del(keys.as_slice()),
    };
    Response::from_result(result)
}

} // verus!
