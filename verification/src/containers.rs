//! The two outside collections the reply scheduler keeps.
//!
//! Replies live in a `slotmap::SlotMap` under versioned keys, and woken
//! replies wait in a `crossbeam_queue::SegQueue`. Keys travel as the `u64`
//! that `KeyData::as_ffi` produces, so every contract here speaks of plain
//! integers. Nothing in this file is proved: each item states what the
//! outside source shows, and the verified scheduler rests on those claims.
use vstd::prelude::*;

use crossbeam_queue::SegQueue;
use slotmap::{DefaultKey, Key, KeyData, SlotMap};

verus! {

/// A `slotmap::SlotMap` from reply keys to ready flags.
///
/// The map is held opaque; the functions below are its only operations.
#[verifier::external_body]
pub struct ReplySlots {
    map: SlotMap<DefaultKey, bool>,
}

/// `crossbeam_queue::SegQueue`, held opaque.
#[verifier::external_type_specification]
#[verifier::external_body]
#[verifier::reject_recursive_types(T)]
pub struct ExSegQueue<T>(SegQueue<T>);

/// What a slot map of ready flags holds: each occupied key, as its
/// `as_ffi` integer, mapped to its flag.
pub uninterp spec fn slot_entries(m: ReplySlots) -> Map<u64, bool>;

/// What a queue of keys holds, front first.
pub uninterp spec fn queued_keys(q: SegQueue<u64>) -> Seq<u64>;

/// The contents of a map that holds nothing.
pub open spec fn no_entries() -> Map<u64, bool> {
    Map::empty()
}

/// Whether `k` has the shape of an occupied slot key.
///
/// `KeyData::as_ffi` puts the slot version in the high 32 bits, and an
/// occupied slot always has an odd version, so every live key has this
/// shape; `KeyData::from_ffi` maps such an integer back to the same key.
pub open spec fn is_slot_key(k: u64) -> bool {
    (k / 0x1_0000_0000) % 2 == 1
}

/// Calls `SlotMap::new`: the new map holds nothing.
#[verifier::external_body]
pub(crate) fn slots_new() -> (m: ReplySlots)
    ensures
        slot_entries(m) == no_entries(),
{
    ReplySlots { map: SlotMap::new() }
}

/// Calls `SlotMap::len`: the number of occupied keys.
#[verifier::external_body]
pub(crate) fn slots_len(m: &ReplySlots) -> (n: usize)
    ensures
        n == slot_entries(*m).len(),
{
    m.map.len()
}

/// Calls `SlotMap::insert`.
///
/// The returned key was not occupied before, has the shape of a slot key,
/// and now maps to `flag`. The map panics when it would exceed `u32::MAX`
/// slots, which the bound on its length rules out.
#[verifier::external_body]
pub(crate) fn slots_insert(m: &mut ReplySlots, flag: bool) -> (k: u64)
    requires
        slot_entries(*old(m)).len() < 0xffff_fffe,
    ensures
        is_slot_key(k),
        !slot_entries(*old(m)).dom().contains(k),
        slot_entries(*final(m)) == slot_entries(*old(m)).insert(k, flag),
{
    m.map.insert(flag).data().as_ffi()
}

/// Calls `SlotMap::get` on the key that `KeyData::from_ffi(k)` rebuilds.
#[verifier::external_body]
pub(crate) fn slots_get(m: &ReplySlots, k: u64) -> (r: Option<bool>)
    requires
        is_slot_key(k),
    ensures
        r == (if slot_entries(*m).dom().contains(k) {
            Some(slot_entries(*m)[k])
        } else {
            None
        }),
{
    m.map.get(DefaultKey::from(KeyData::from_ffi(k))).copied()
}

/// Calls `SlotMap::get_mut` and stores `flag` when the key is occupied.
#[verifier::external_body]
pub(crate) fn slots_set(m: &mut ReplySlots, k: u64, flag: bool) -> (found: bool)
    requires
        is_slot_key(k),
    ensures
        found == slot_entries(*old(m)).dom().contains(k),
        slot_entries(*final(m)) == (if found {
            slot_entries(*old(m)).insert(k, flag)
        } else {
            slot_entries(*old(m))
        }),
{
    match m.map.get_mut(DefaultKey::from(KeyData::from_ffi(k))) {
        Some(slot) => {
            *slot = flag;
            true
        },
        None => false,
    }
}

/// Calls `SlotMap::remove`: the key's flag if it was occupied.
#[verifier::external_body]
pub(crate) fn slots_remove(m: &mut ReplySlots, k: u64) -> (r: Option<bool>)
    requires
        is_slot_key(k),
    ensures
        r == (if slot_entries(*old(m)).dom().contains(k) {
            Some(slot_entries(*old(m))[k])
        } else {
            None
        }),
        slot_entries(*final(m)) == slot_entries(*old(m)).remove(k),
{
    m.map.remove(DefaultKey::from(KeyData::from_ffi(k)))
}

/// Calls `SlotMap::drain` and keeps each removed key.
///
/// Every occupied key comes out exactly once, in an order the source
/// leaves unspecified, and the map is empty afterwards.
#[verifier::external_body]
pub(crate) fn slots_drain(m: &mut ReplySlots) -> (keys: Vec<u64>)
    ensures
        keys@.to_set() == slot_entries(*old(m)).dom(),
        keys@.no_duplicates(),
        slot_entries(*final(m)) == no_entries(),
{
    m.map.drain().map(|(key, _)| key.data().as_ffi()).collect()
}

/// Calls `SegQueue::new`: the new queue is empty.
#[verifier::external_body]
pub(crate) fn keys_new() -> (q: SegQueue<u64>)
    ensures
        queued_keys(q) == Seq::<u64>::empty(),
{
    SegQueue::new()
}

/// Calls `SegQueue::push_mut`: the key joins the back.
#[verifier::external_body]
pub(crate) fn keys_push(q: &mut SegQueue<u64>, k: u64)
    ensures
        queued_keys(*final(q)) == queued_keys(*old(q)).push(k),
{
    q.push_mut(k)
}

/// Calls `SegQueue::pop_mut`: the front key, if any, leaves the queue.
#[verifier::external_body]
pub(crate) fn keys_pop(q: &mut SegQueue<u64>) -> (r: Option<u64>)
    ensures
        queued_keys(*old(q)).len() == 0 ==> r is None && queued_keys(*final(q)) == queued_keys(
            *old(q),
        ),
        queued_keys(*old(q)).len() > 0 ==> r == Some(queued_keys(*old(q))[0]) && queued_keys(
            *final(q),
        ) == queued_keys(*old(q)).drop_first(),
{
    q.pop_mut()
}

/// Calls `SegQueue::len`: the number of queued keys.
#[verifier::external_body]
pub(crate) fn keys_len(q: &SegQueue<u64>) -> (n: usize)
    ensures
        n == queued_keys(*q).len(),
{
    q.len()
}

} // verus!
