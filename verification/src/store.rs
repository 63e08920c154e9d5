//! The object store as this library sees it: a map from keys to entries,
//! each written once and never changed.

use crate::body::{Payload, ResponseBody, StoredObject};
use crate::key::cache_key;
use vstd::prelude::*;

verus! {

/// What the store holds under one key: a body and the URL it came from. The
/// URL is kept for the record; nothing is looked up by it.
pub struct Entry<S> {
    pub value: Payload<S>,
    pub url: Seq<char>,
}

/// Whether the store holds an entry under `key`.
pub open spec fn holds<S>(store: Map<Seq<char>, Entry<S>>, key: Seq<char>) -> bool {
    store.contains_key(key)
}

/// The entry under `key`, if there is one. A missing entry is no error.
pub open spec fn get<S>(store: Map<Seq<char>, Entry<S>>, key: Seq<char>) -> Option<Entry<S>> {
    if store.contains_key(key) {
        Some(store[key])
    } else {
        None
    }
}

/// The store after a write under `key`.
pub open spec fn put<S>(
    store: Map<Seq<char>, Entry<S>>,
    key: Seq<char>,
    value: Payload<S>,
    url: Seq<char>,
) -> Map<Seq<char>, Entry<S>> {
    store.insert(key, Entry { value, url })
}

/// Whether a write is due once the store has said whether the key exists.
pub open spec fn writes(present: bool) -> bool {
    !present
}

/// The store after a write-if-absent: unchanged where it holds the key
/// already, else with the new entry.
pub open spec fn put_if_absent<S>(
    store: Map<Seq<char>, Entry<S>>,
    key: Seq<char>,
    value: Payload<S>,
    url: Seq<char>,
) -> Map<Seq<char>, Entry<S>> {
    if writes(holds(store, key)) {
        put(store, key, value, url)
    } else {
        store
    }
}

/// The store after the answer for `url` was stored under its key.
pub open spec fn remember<S>(
    store: Map<Seq<char>, Entry<S>>,
    url: Seq<char>,
    value: Payload<S>,
) -> Map<Seq<char>, Entry<S>> {
    put_if_absent(store, cache_key(url), value, url)
}

/// The body that a stored object offers for a reply: none where the store
/// has no object, and none where the object came without its body.
pub open spec fn cached_payload<S>(object: Option<Option<Payload<S>>>) -> Option<Payload<S>> {
    match object {
        Some(Some(body)) => Some(body),
        _ => None,
    }
}

/// What a store's answer to a read holds.
pub open spec fn object_view<S>(object: Option<StoredObject<S>>) -> Option<Option<Payload<S>>> {
    match object {
        Some(obj) => Some(obj@),
        None => None,
    }
}

/// What a body holds, if there is one.
pub open spec fn body_view<S>(body: Option<ResponseBody<S>>) -> Option<Payload<S>> {
    match body {
        Some(b) => Some(b@),
        None => None,
    }
}

/// The body to serve from the store's answer to a read, if it gave one.
pub fn cached_body<S>(object: Option<StoredObject<S>>) -> (body: Option<ResponseBody<S>>)
    ensures
        body_view(body) == cached_payload(object_view(object)),
{
    match object {
        Some(obj) => obj.body,
        None => None,
    }
}

/// A second write-if-absent under a key changes nothing and writes nothing:
/// the store keeps the value of the first.
pub proof fn lemma_put_if_absent_is_idempotent<S>(
    store: Map<Seq<char>, Entry<S>>,
    key: Seq<char>,
    value1: Payload<S>,
    url1: Seq<char>,
    value2: Payload<S>,
    url2: Seq<char>,
)
    ensures
        !writes(holds(put_if_absent(store, key, value1, url1), key)),
        put_if_absent(put_if_absent(store, key, value1, url1), key, value2, url2) == put_if_absent(
            store,
            key,
            value1,
            url1,
        ),
        !holds(store, key) ==> get(
            put_if_absent(put_if_absent(store, key, value1, url1), key, value2, url2),
            key,
        ) == Some(Entry { value: value1, url: url1 }),
{
}

/// A write-if-absent under a key that the store does not hold, then a read
/// of that key, gives back the body that was written.
pub proof fn lemma_put_then_get<S>(
    store: Map<Seq<char>, Entry<S>>,
    key: Seq<char>,
    value: Payload<S>,
    url: Seq<char>,
)
    requires
        !holds(store, key),
    ensures
        get(put_if_absent(store, key, value, url), key) == Some(Entry { value, url }),
{
}

/// A write-if-absent never changes or removes an entry that the store holds,
/// and touches no other key.
pub proof fn lemma_put_if_absent_keeps_entries<S>(
    store: Map<Seq<char>, Entry<S>>,
    key: Seq<char>,
    value: Payload<S>,
    url: Seq<char>,
    other: Seq<char>,
)
    ensures
        holds(store, other) ==> get(put_if_absent(store, key, value, url), other) == get(
            store,
            other,
        ),
        other != key ==> get(put_if_absent(store, key, value, url), other) == get(store, other),
        holds(put_if_absent(store, key, value, url), key),
{
}

} // verus!
