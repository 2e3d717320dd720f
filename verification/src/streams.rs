//! Hash maps that are keyed by player stream.
use rustc_hash::{FxBuildHasher, FxHashMap};
use vstd::prelude::*;

verus! {

/// `rustc_hash::FxBuildHasher`, the hasher of an `FxHashMap`. It is carried through as it is.
#[verifier::external_type_specification]
#[verifier::external_body]
pub struct ExFxBuildHasher(FxBuildHasher);

/// `FxHashMap::default`: the new map has no entry.
#[verifier::external_body]
pub(crate) fn new_streams<V>() -> (fresh: FxHashMap<u64, V>)
    ensures
        (fresh@ == Map::<u64, V>::empty()),
{
    FxHashMap::default()
}

/// `FxHashMap::insert`: the key now has the value, every other entry stays, and what the
/// key had before is handed back.
#[verifier::external_body]
pub(crate) fn insert_stream<V>(map: &mut FxHashMap<u64, V>, stream: u64, value: V) -> (previous:
    Option<V>)
    ensures
        final(map)@ == old(map)@.insert(stream, value),
        previous == (if old(map)@.dom().contains(stream) {
            Some(old(map)@[stream])
        } else {
            None
        }),
{
    map.insert(stream, value)
}

/// `FxHashMap::remove`: the key has no value any more, every other entry stays, and what
/// the key had is handed back.
#[verifier::external_body]
pub(crate) fn remove_stream<V>(map: &mut FxHashMap<u64, V>, stream: u64) -> (previous: Option<V>)
    ensures
        final(map)@ == old(map)@.remove(stream),
        previous == (if old(map)@.dom().contains(stream) {
            Some(old(map)@[stream])
        } else {
            None
        }),
{
    map.remove(&stream)
}

/// `FxHashMap::get_mut`: access to the value of the key, if it has one. Writing through it
/// changes that value and nothing else.
#[verifier::external_body]
pub(crate) fn stream_mut<V>(map: &mut FxHashMap<u64, V>, stream: u64) -> (found: Option<&mut V>)
    ensures
        match found {
            Some(value) => {
                &&& old(map)@.dom().contains(stream)
                &&& *value == old(map)@[stream]
                &&& final(map)@ == old(map)@.insert(stream, *final(value))
            },
            None => {
                &&& !old(map)@.dom().contains(stream)
                &&& final(map)@ == old(map)@
            },
        },
{
    map.get_mut(&stream)
}

} // verus!
