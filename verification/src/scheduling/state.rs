//! Reply limits, lanes, and the per-actor reply state.
use vstd::prelude::*;

use crate::scheduling::queue::{Queue, MAX_REPLIES};

verus! {

/// Decides whether one more reply may start.
pub trait LimitPolicy {
    /// Whether a profile with `active` live replies admits another.
    spec fn admits(&self, active: nat) -> bool;

    /// Whether a profile with `active` live replies admits another.
    fn has_capacity(&self, active: usize) -> (r: bool)
        ensures
            r == self.admits(active as nat),
    ;
}

/// A compile-time limit of `N` active replies.
pub struct FixedLimit<const N: usize>;

/// A limit resolved once per spawn; never zero.
pub struct DynamicLimit(usize);

/// No finite limit.
pub struct UnboundedLimit;

impl<const N: usize> LimitPolicy for FixedLimit<N> {
    open spec fn admits(&self, active: nat) -> bool {
        active < N
    }

    fn has_capacity(&self, active: usize) -> (r: bool) {
        active < N
    }
}

impl DynamicLimit {
    #[verifier::type_invariant]
    spec fn nonzero(self) -> bool {
        self.0 > 0
    }

    /// The resolved limit.
    pub closed spec fn value(self) -> usize {
        self.0
    }

    /// Wraps a resolved, nonzero limit.
    pub fn new(limit: usize) -> (r: Self)
        requires
            limit > 0,
        ensures
            r.value() == limit,
    {
        DynamicLimit(limit)
    }
}

impl LimitPolicy for DynamicLimit {
    open spec fn admits(&self, active: nat) -> bool {
        active < self.value()
    }

    fn has_capacity(&self, active: usize) -> (r: bool) {
        active < self.0
    }
}

impl LimitPolicy for UnboundedLimit {
    open spec fn admits(&self, active: nat) -> bool {
        true
    }

    fn has_capacity(&self, active: usize) -> (r: bool) {
        true
    }
}

/// One source of actor work, visited in rotation by each turn.
#[derive(Clone, Copy, Debug, PartialEq, Eq, Structural)]
pub enum ReplyLane {
    /// The mailbox: dispatches queued messages.
    Mailbox,
    /// The reply queue: polls woken handler futures.
    Reply,
    /// Direct-child exits.
    ChildExit,
}

impl ReplyLane {
    /// The lane after this one in the rotation.
    pub open spec fn following(self) -> ReplyLane {
        match self {
            ReplyLane::Mailbox => ReplyLane::Reply,
            ReplyLane::Reply => ReplyLane::ChildExit,
            ReplyLane::ChildExit => ReplyLane::Mailbox,
        }
    }

    /// The lane after this one in the rotation.
    pub fn next(self) -> (r: Self)
        ensures
            r == self.following(),
    {
        match self {
            ReplyLane::Mailbox => ReplyLane::Reply,
            ReplyLane::Reply => ReplyLane::ChildExit,
            ReplyLane::ChildExit => ReplyLane::Mailbox,
        }
    }
}

/// The lane `k` steps after `lane` in the rotation of three lanes.
pub open spec fn advance(lane: ReplyLane, k: nat) -> ReplyLane {
    if k % 3 == 0 {
        lane
    } else if k % 3 == 1 {
        lane.following()
    } else {
        lane.following().following()
    }
}

/// Reply scheduling state of one actor.
pub struct ReplyState<L> {
    /// The ready-key queue of dispatched replies.
    pub queue: Queue,
    /// The active-reply limit.
    pub limit: L,
    /// The lane that the next turn visits first.
    pub cursor: ReplyLane,
}

impl<L: LimitPolicy> ReplyState<L> {
    /// Whether another message may be dispatched: no lease is held and the
    /// limit admits one more active reply.
    pub open spec fn dispatch_open(&self) -> bool {
        self.queue.holder() is None && self.limit.admits(self.queue.entries().len())
    }

    /// Whether any dispatched reply is still live.
    pub open spec fn replies_live(&self) -> bool {
        self.queue.entries().len() > 0
    }

    /// An empty state under `limit`; the first turn starts at the mailbox.
    pub fn with_limit(limit: L) -> (r: Self)
        ensures
            r.queue.wf(),
            r.queue.entries() == crate::containers::no_entries(),
            r.queue.ready_keys().len() == 0,
            r.queue.holder() is None,
            r.limit == limit,
            r.cursor == ReplyLane::Mailbox,
    {
        ReplyState { queue: Queue::new(), limit, cursor: ReplyLane::Mailbox }
    }

    /// Whether another message may be dispatched now.
    pub fn has_dispatch_capacity(&self) -> (r: bool)
        ensures
            r == self.dispatch_open(),
    {
        !self.queue.is_leased() && self.limit.has_capacity(self.queue.len())
    }

    /// Whether any dispatched reply is still live.
    pub fn has_replies(&self) -> (r: bool)
        ensures
            r == self.replies_live(),
    {
        !self.queue.is_empty()
    }

    /// Admits one dispatched reply and marks its first poll ready.
    pub fn push(&mut self) -> (key: u64)
        requires
            old(self).queue.wf(),
            old(self).dispatch_open(),
            old(self).queue.entries().len() < MAX_REPLIES,
        ensures
            final(self).queue.wf(),
            crate::containers::is_slot_key(key),
            !old(self).queue.entries().dom().contains(key),
            final(self).queue.entries() == old(self).queue.entries().insert(key, true),
            final(self).queue.ready_keys() == old(self).queue.ready_keys().push(key),
            final(self).queue.holder() == old(self).queue.holder(),
            final(self).limit == old(self).limit,
            final(self).cursor == old(self).cursor,
    {
        self.queue.schedule()
    }
}

} // verus!
