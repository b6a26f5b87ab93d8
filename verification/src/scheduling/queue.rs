//! Ready-key queue for one actor scheduler.
//!
//! Replies live in a slot map under stable versioned keys.
//! A wake pushes one key per ready episode.
//! A collection pass polls exactly the pushed keys, at most
//! [`ACTIVE_POLL_BUDGET`] of them.
//! The lease slot pauses every other reply while held.
//!
//! The queue owns only keys and ready flags. The caller owns the reply
//! futures: a pass hands out one key at a time ([`PassStep::Poll`]), the
//! caller polls that reply and reports the outcome back.
use vstd::prelude::*;

use crossbeam_queue::SegQueue;

use crate::containers::{
    is_slot_key, keys_len, keys_new, keys_pop, keys_push, no_entries, queued_keys, slot_entries,
    slots_drain, slots_get, slots_insert, slots_len, slots_new, slots_remove, slots_set, ReplySlots,
};
use crate::scheduling::wake::Lease;

verus! {

/// The largest number of replies that one collection pass polls.
pub const ACTIVE_POLL_BUDGET: usize = 16;

/// The largest number of replies a queue can hold.
pub const MAX_REPLIES: usize = 0xffff_fffe;

/// Outcome of one reply collection pass.
#[derive(Clone, Copy, Debug, PartialEq, Eq, Structural)]
pub enum ReplyPoll {
    /// No reply was ready.
    Pending,
    /// A reply completed or lifecycle changed.
    Progress,
    /// One reply holds the scheduler lease.
    Leased,
    /// The budget ended with ready keys remaining.
    ///
    /// The caller must wake its task and stop polling for this turn.
    BudgetExhausted,
}

/// What a collection pass asks of its caller next.
#[derive(Clone, Copy, Debug, PartialEq, Eq, Structural)]
pub enum PassStep {
    /// Poll the reply under this key once, then report the outcome.
    Poll(u64),
    /// The pass is over with this outcome.
    Finish(ReplyPoll),
}

/// Whether `k` is a live reply whose ready flag is set.
pub open spec fn is_ready_entry(entries: Map<u64, bool>, k: u64) -> bool {
    entries.dom().contains(k) && entries[k]
}

/// How many keys at the front of `keys` a pass discards before it meets a
/// live, ready reply: stale keys and keys of replies not marked ready.
pub open spec fn skipped_prefix(entries: Map<u64, bool>, keys: Seq<u64>) -> nat
    decreases keys.len(),
{
    if keys.len() == 0 {
        0
    } else if is_ready_entry(entries, keys[0]) {
        0
    } else {
        1 + skipped_prefix(entries, keys.drop_first())
    }
}

/// The outcome of a pass over ready keys that stops without polling again.
pub open spec fn drained_outcome(mode_ok: bool, keys_left: nat, completed: bool) -> ReplyPoll {
    if !mode_ok {
        ReplyPoll::Progress
    } else if keys_left > 0 {
        ReplyPoll::BudgetExhausted
    } else if completed {
        ReplyPoll::Progress
    } else {
        ReplyPoll::Pending
    }
}

/// How a pass that stops without polling again ends: a lifecycle change
/// ends it with progress whatever keys remain and whatever completed; with
/// the mode unchanged it reports the budget exhausted exactly when ready
/// keys remain, and pending only when none remain and nothing completed.
pub proof fn law_pass_outcome(keys_left: nat, completed: bool)
    ensures
        drained_outcome(false, keys_left, completed) == ReplyPoll::Progress,
        (drained_outcome(true, keys_left, completed) == ReplyPoll::BudgetExhausted) == (keys_left
            > 0),
        (drained_outcome(true, keys_left, completed) == ReplyPoll::Pending) == (keys_left == 0
            && !completed),
        (drained_outcome(true, keys_left, completed) == ReplyPoll::Progress) == (keys_left == 0
            && completed),
{
}

/// The first live, ready reply sits right after a discarded prefix.
proof fn lemma_skipped_prefix(entries: Map<u64, bool>, keys: Seq<u64>, i: int)
    requires
        0 <= i <= keys.len(),
        forall|j: int| 0 <= j < i ==> !is_ready_entry(entries, #[trigger] keys[j]),
        i == keys.len() || is_ready_entry(entries, keys[i]),
    ensures
        skipped_prefix(entries, keys) == i,
    decreases keys.len(),
{
    if keys.len() > 0 && i > 0 {
        let rest = keys.drop_first();
        assert forall|j: int| 0 <= j < i - 1 implies !is_ready_entry(entries, #[trigger] rest[j]) by {
            assert(rest[j] == keys[j + 1]);
        }
        if i < keys.len() {
            assert(rest[i - 1] == keys[i]);
        }
        lemma_skipped_prefix(entries, rest, i - 1);
    }
}

/// Marking `key` ready and queueing it keeps every ready reply queued and
/// every queued key in slot shape.
proof fn lemma_marked_ready(entries: Map<u64, bool>, keys: Seq<u64>, key: u64)
    requires
        is_slot_key(key),
        forall|k: u64| #[trigger] is_ready_entry(entries, k) ==> keys.contains(k),
        forall|i: int| 0 <= i < keys.len() ==> is_slot_key(#[trigger] keys[i]),
    ensures
        forall|k: u64| #[trigger]
            is_ready_entry(entries.insert(key, true), k) ==> keys.push(key).contains(k),
        forall|i: int| 0 <= i < keys.len() + 1 ==> is_slot_key(#[trigger] keys.push(key)[i]),
{
    let r = keys.push(key);
    assert(r[r.len() - 1] == key);
    assert forall|k: u64| #[trigger] is_ready_entry(entries.insert(key, true), k) implies r.contains(k) by {
        if k != key {
            assert(is_ready_entry(entries, k));
            let i = choose|i: int| 0 <= i < keys.len() && keys[i] == k;
            assert(r[i] == k);
        }
    }
    assert forall|i: int| 0 <= i < keys.len() + 1 implies is_slot_key(#[trigger] r[i]) by {
        if i < keys.len() {
            assert(r[i] == keys[i]);
        }
    }
}

/// The effect of waking `key`: a live reply that is not yet ready becomes
/// ready and its key joins the back of the ready queue; any other wake
/// changes nothing.
pub open spec fn woken(before: Queue, key: u64, pushed: bool, after: Queue) -> bool {
    &&& pushed == (is_slot_key(key) && before.entries().dom().contains(key)
        && !before.entries()[key])
    &&& pushed ==> after.entries() == before.entries().insert(key, true) && after.ready_keys()
        == before.ready_keys().push(key)
    &&& !pushed ==> after.entries() == before.entries() && after.ready_keys()
        == before.ready_keys()
    &&& after.holder() == before.holder()
}

/// A wake queues one key per ready episode: waking a reply again before a
/// pass polls it queues nothing more.
pub proof fn law_one_key_per_ready_episode(
    q0: Queue,
    q1: Queue,
    q2: Queue,
    key: u64,
    first: bool,
    second: bool,
)
    requires
        woken(q0, key, first, q1),
        woken(q1, key, second, q2),
    ensures
        !second,
        q2.ready_keys() == q1.ready_keys(),
        q2.ready_keys().len() <= q0.ready_keys().len() + 1,
{
}

/// A late wake is a no-op: waking a reply that left the queue changes
/// nothing.
pub proof fn law_late_wake_is_no_op(q0: Queue, q1: Queue, key: u64, pushed: bool)
    requires
        !q0.entries().dom().contains(key),
        woken(q0, key, pushed, q1),
    ensures
        !pushed,
        q1.entries() == q0.entries(),
        q1.ready_keys() == q0.ready_keys(),
        q1.holder() == q0.holder(),
{
}

/// State of one collection pass over a [`Queue`].
pub struct PollPass {
    leased: Option<u64>,
    polled: usize,
    completed: bool,
    awaiting: Option<u64>,
    finished: bool,
}

impl PollPass {
    /// The lease holder when the pass began; a leased pass polls only it.
    pub closed spec fn leased_key(&self) -> Option<u64> {
        self.leased
    }

    /// How many replies this pass has polled and recorded.
    pub closed spec fn polled_count(&self) -> nat {
        self.polled as nat
    }

    /// Whether a reply completed during this pass.
    pub closed spec fn any_completed(&self) -> bool {
        self.completed
    }

    /// The reply handed out and not yet recorded.
    pub closed spec fn awaiting_key(&self) -> Option<u64> {
        self.awaiting
    }

    /// Whether the pass has produced its outcome.
    pub closed spec fn is_finished(&self) -> bool {
        self.finished
    }

    /// Internal consistency of a pass.
    pub closed spec fn wf(&self) -> bool {
        &&& self.polled <= ACTIVE_POLL_BUDGET
        &&& self.leased matches Some(h) ==> is_slot_key(h) && self.polled == 0 && !self.completed
        &&& self.awaiting matches Some(k) ==> is_slot_key(k) && !self.finished
            && self.polled < ACTIVE_POLL_BUDGET
    }

    /// Whether the caller may ask for the next step.
    pub open spec fn can_step(&self) -> bool {
        &&& self.wf()
        &&& self.awaiting_key() is None
        &&& !self.is_finished()
    }
}

/// One collection pass polls at most [`ACTIVE_POLL_BUDGET`] replies.
pub proof fn law_pass_within_budget(pass: PollPass)
    requires
        pass.wf(),
    ensures
        pass.polled_count() <= ACTIVE_POLL_BUDGET,
        pass.awaiting_key() is Some ==> pass.polled_count() < ACTIVE_POLL_BUDGET,
{
}

/// Ready-key queue for one actor scheduler.
pub struct Queue {
    items: ReplySlots,
    ready: SegQueue<u64>,
    lease: Lease,
}

impl Queue {
    /// Each live reply key mapped to its ready flag.
    pub closed spec fn entries(&self) -> Map<u64, bool> {
        slot_entries(self.items)
    }

    /// The queued ready keys, front first. Stale keys may remain here.
    pub closed spec fn ready_keys(&self) -> Seq<u64> {
        queued_keys(self.ready)
    }

    /// The reply that holds the exclusive lease, if any.
    pub closed spec fn holder(&self) -> Option<u64> {
        self.lease.held_key()
    }

    /// Internal consistency: keys have slot shape, and every live reply
    /// marked ready has its key queued.
    pub closed spec fn wf(&self) -> bool {
        &&& self.entries().dom().finite()
        &&& forall|k: u64| #[trigger] self.entries().dom().contains(k) ==> is_slot_key(k)
        &&& forall|i: int|
            0 <= i < self.ready_keys().len() ==> is_slot_key(#[trigger] self.ready_keys()[i])
        &&& forall|k: u64| #[trigger]
            is_ready_entry(self.entries(), k) ==> self.ready_keys().contains(k)
        &&& self.holder() matches Some(h) ==> is_slot_key(h)
    }

    /// Creates an empty queue with a free lease.
    pub fn new() -> (q: Self)
        ensures
            q.wf(),
            q.entries() == no_entries(),
            q.ready_keys().len() == 0,
            q.holder() is None,
    {
        let q = Queue { items: slots_new(), ready: keys_new(), lease: Lease::new() };
        q
    }

    /// The number of live replies.
    pub fn len(&self) -> (n: usize)
        ensures
            n == self.entries().len(),
    {
        slots_len(&self.items)
    }

    /// Whether no reply is live.
    pub fn is_empty(&self) -> (r: bool)
        ensures
            r == (self.entries().len() == 0),
    {
        slots_len(&self.items) == 0
    }

    /// Whether one reply holds the exclusive lease.
    pub fn is_leased(&self) -> (r: bool)
        ensures
            r == self.holder() is Some,
    {
        self.lease.held().is_some()
    }

    /// The reply that holds the exclusive lease, if any.
    pub fn lease_holder(&self) -> (key: Option<u64>)
        ensures
            key == self.holder(),
    {
        self.lease.held()
    }

    /// The number of queued ready keys, stale ones included.
    pub fn ready_len(&self) -> (n: usize)
        ensures
            n == self.ready_keys().len(),
    {
        keys_len(&self.ready)
    }

    /// Adds one reply and marks its first poll ready.
    pub fn schedule(&mut self) -> (key: u64)
        requires
            old(self).wf(),
            old(self).entries().len() < MAX_REPLIES,
        ensures
            final(self).wf(),
            is_slot_key(key),
            !old(self).entries().dom().contains(key),
            final(self).entries() == old(self).entries().insert(key, true),
            final(self).ready_keys() == old(self).ready_keys().push(key),
            final(self).holder() == old(self).holder(),
    {
        let key = slots_insert(&mut self.items, false);
        keys_push(&mut self.ready, key);
        let _ = slots_set(&mut self.items, key, true);
        proof {
            assert(self.entries() =~= old(self).entries().insert(key, true));
            lemma_marked_ready(old(self).entries(), old(self).ready_keys(), key);
        }
        key
    }

    /// Marks one reply ready: the wake of a reply's waker.
    ///
    /// A key is queued once per ready episode. Waking a reply that is
    /// already ready, or one that has left the queue, changes nothing.
    pub fn wake(&mut self, key: u64) -> (pushed: bool)
        requires
            old(self).wf(),
        ensures
            final(self).wf(),
            woken(*old(self), key, pushed, *final(self)),
    {
        if key / 0x1_0000_0000 % 2 != 1 {
            return false;
        }
        match slots_get(&self.items, key) {
            Some(false) => {
                keys_push(&mut self.ready, key);
                let _ = slots_set(&mut self.items, key, true);
                proof {
                    lemma_marked_ready(old(self).entries(), old(self).ready_keys(), key);
                }
                true
            },
            _ => false,
        }
    }

    /// Records `key` as the exclusive holder.
    pub fn acquire_lease(&mut self, key: u64)
        requires
            old(self).wf(),
            is_slot_key(key),
            old(self).holder() is None,
        ensures
            final(self).wf(),
            final(self).holder() == Some(key),
            final(self).entries() == old(self).entries(),
            final(self).ready_keys() == old(self).ready_keys(),
    {
        self.lease.acquire(key);
        assert(self.ready_keys() == old(self).ready_keys());
    }

    /// Releases the lease when `key` still holds it; a free lease stays
    /// free and another holder keeps it.
    pub fn release_lease(&mut self, key: u64)
        requires
            old(self).wf(),
            is_slot_key(key),
        ensures
            final(self).wf(),
            final(self).holder() == (if old(self).holder() == Some(key) {
                None
            } else {
                old(self).holder()
            }),
            final(self).entries() == old(self).entries(),
            final(self).ready_keys() == old(self).ready_keys(),
    {
        self.lease.release(key);
        assert(self.ready_keys() == old(self).ready_keys());
    }

    /// Removes one reply and releases any lease it still holds.
    ///
    /// The lease normally clears when its guard drops.
    /// A leaked guard would otherwise pause the actor forever.
    pub fn complete(&mut self, key: u64) -> (removed: bool)
        requires
            old(self).wf(),
            is_slot_key(key),
        ensures
            final(self).wf(),
            removed == old(self).entries().dom().contains(key),
            final(self).entries() == old(self).entries().remove(key),
            final(self).ready_keys() == old(self).ready_keys(),
            final(self).holder() == (if old(self).holder() == Some(key) {
                None
            } else {
                old(self).holder()
            }),
    {
        let removed = slots_remove(&mut self.items, key);
        if self.lease.held() == Some(key) {
            self.lease.force_release();
        }
        proof {
            assert(self.ready_keys() == old(self).ready_keys());
            assert forall|k: u64| #[trigger] is_ready_entry(self.entries(), k) implies self.ready_keys().contains(k) by {
                assert(is_ready_entry(old(self).entries(), k));
            }
        }
        removed.is_some()
    }

    /// Removes every reply and releases the lease.
    ///
    /// Returns the removed keys so the caller can drop their futures.
    pub fn clear(&mut self) -> (keys: Vec<u64>)
        requires
            old(self).wf(),
        ensures
            final(self).wf(),
            keys@.to_set() == old(self).entries().dom(),
            keys@.no_duplicates(),
            final(self).entries() == no_entries(),
            final(self).ready_keys() == old(self).ready_keys(),
            final(self).holder() is None,
    {
        let keys = slots_drain(&mut self.items);
        self.lease.force_release();
        assert(self.ready_keys() == old(self).ready_keys());
        keys
    }

    /// Starts one collection pass.
    ///
    /// While a reply holds the lease, the pass polls that reply alone.
    pub fn begin_poll(&self) -> (pass: PollPass)
        requires
            self.wf(),
        ensures
            pass.can_step(),
            pass.leased_key() == self.holder(),
            pass.polled_count() == 0,
            !pass.any_completed(),
    {
        PollPass {
            leased: self.lease.held(),
            polled: 0,
            completed: false,
            awaiting: None,
            finished: false,
        }
    }

    /// Chooses the next reply to poll, or ends the pass.
    ///
    /// `mode_ok` reports whether the lifecycle mode still matches the one
    /// the caller expects.
    pub fn next_poll(&mut self, pass: &mut PollPass, mode_ok: bool) -> (step: PassStep)
        requires
            old(self).wf(),
            old(pass).can_step(),
        ensures
            final(self).wf(),
            final(pass).wf(),
            final(pass).leased_key() == old(pass).leased_key(),
            final(pass).polled_count() == old(pass).polled_count(),
            final(pass).any_completed() == old(pass).any_completed(),
            step matches PassStep::Poll(k) ==> {
                &&& final(pass).awaiting_key() == Some(k)
                &&& !final(pass).is_finished()
                &&& is_ready_entry(old(self).entries(), k)
                &&& final(self).entries() == old(self).entries().insert(k, false)
                &&& old(pass).polled_count() < ACTIVE_POLL_BUDGET
            },
            step is Finish ==> final(pass).is_finished() && final(pass).awaiting_key() is None,
            // An ordinary pass that ends pending leaves no live reply ready.
            old(pass).leased_key() is None && step == PassStep::Finish(ReplyPoll::Pending) ==> forall|
                k: u64,
            | !is_ready_entry(final(self).entries(), k),
            // A leased pass polls the holder alone.
            old(pass).leased_key() matches Some(h) ==> {
                &&& final(self).ready_keys() == old(self).ready_keys()
                &&& !old(self).entries().dom().contains(h) ==> step == PassStep::Finish(
                    ReplyPoll::Progress,
                ) && final(self).holder() is None && final(self).entries() == old(self).entries()
                &&& old(self).entries().dom().contains(h) && !old(self).entries()[h] ==> step
                    == PassStep::Finish(ReplyPoll::Pending) && final(self).holder() == old(self).holder() && final(self).entries() == old(self).entries()
                &&& is_ready_entry(old(self).entries(), h) ==> step == PassStep::Poll(h)
                    && final(self).holder() == old(self).holder()
            },
            // An ordinary pass discards stale and unready keys in order.
            old(pass).leased_key() is None ==> {
                let keys = old(self).ready_keys();
                let n = skipped_prefix(old(self).entries(), keys) as int;
                &&& final(self).holder() == old(self).holder()
                &&& (!mode_ok || old(pass).polled_count() >= ACTIVE_POLL_BUDGET) ==> step
                    == PassStep::Finish(
                    drained_outcome(mode_ok, keys.len(), old(pass).any_completed()),
                ) && final(self).entries() == old(self).entries() && final(self).ready_keys()
                    == keys
                &&& (mode_ok && old(pass).polled_count() < ACTIVE_POLL_BUDGET && n
                    == keys.len()) ==> step == PassStep::Finish(
                    drained_outcome(true, 0, old(pass).any_completed()),
                ) && final(self).entries() == old(self).entries() && final(self).ready_keys().len()
                    == 0
                &&& (mode_ok && old(pass).polled_count() < ACTIVE_POLL_BUDGET && n
                    < keys.len()) ==> step == PassStep::Poll(keys[n]) && final(self).ready_keys()
                    == keys.subrange(n + 1, keys.len() as int)
            },
    {
        match pass.leased {
            Some(h) => {
                match slots_get(&self.items, h) {
                    None => {
                        self.lease.force_release();
                        pass.finished = true;
                        PassStep::Finish(ReplyPoll::Progress)
                    },
                    Some(false) => {
                        pass.finished = true;
                        PassStep::Finish(ReplyPoll::Pending)
                    },
                    Some(true) => {
                        let _ = slots_set(&mut self.items, h, false);
                        pass.awaiting = Some(h);
                        proof {
                            assert forall|k: u64| #[trigger]
                                is_ready_entry(self.entries(), k) implies self.ready_keys().contains(
                                k,
                            ) by {
                                assert(is_ready_entry(old(self).entries(), k));
                            }
                        }
                        PassStep::Poll(h)
                    },
                }
            },
            None => self.next_ready(pass, mode_ok),
        }
    }

    /// The ordinary pass: pops ready keys until a live, ready reply appears.
    fn next_ready(&mut self, pass: &mut PollPass, mode_ok: bool) -> (step: PassStep)
        requires
            old(self).wf(),
            old(pass).can_step(),
            old(pass).leased_key() is None,
        ensures
            final(self).wf(),
            final(pass).wf(),
            final(pass).leased_key() == old(pass).leased_key(),
            final(pass).polled_count() == old(pass).polled_count(),
            final(pass).any_completed() == old(pass).any_completed(),
            step matches PassStep::Poll(k) ==> {
                &&& final(pass).awaiting_key() == Some(k)
                &&& !final(pass).is_finished()
                &&& is_ready_entry(old(self).entries(), k)
                &&& final(self).entries() == old(self).entries().insert(k, false)
                &&& old(pass).polled_count() < ACTIVE_POLL_BUDGET
            },
            step is Finish ==> final(pass).is_finished() && final(pass).awaiting_key() is None,
            step == PassStep::Finish(ReplyPoll::Pending) ==> forall|k: u64|
                !is_ready_entry(final(self).entries(), k),
            ({
                let keys = old(self).ready_keys();
                let n = skipped_prefix(old(self).entries(), keys) as int;
                &&& final(self).holder() == old(self).holder()
                &&& (!mode_ok || old(pass).polled_count() >= ACTIVE_POLL_BUDGET) ==> step
                    == PassStep::Finish(
                    drained_outcome(mode_ok, keys.len(), old(pass).any_completed()),
                ) && final(self).entries() == old(self).entries() && final(self).ready_keys()
                    == keys
                &&& (mode_ok && old(pass).polled_count() < ACTIVE_POLL_BUDGET && n
                    == keys.len()) ==> step == PassStep::Finish(
                    drained_outcome(true, 0, old(pass).any_completed()),
                ) && final(self).entries() == old(self).entries() && final(self).ready_keys().len()
                    == 0
                &&& (mode_ok && old(pass).polled_count() < ACTIVE_POLL_BUDGET && n
                    < keys.len()) ==> step == PassStep::Poll(keys[n]) && final(self).ready_keys()
                    == keys.subrange(n + 1, keys.len() as int)
            }),
    {
        let ghost keys = self.ready_keys();
        let ghost entries = self.entries();
        if !mode_ok || pass.polled >= ACTIVE_POLL_BUDGET {
            pass.finished = true;
            let left = keys_len(&self.ready);
            return PassStep::Finish(
                if !mode_ok {
                    ReplyPoll::Progress
                } else if left > 0 {
                    ReplyPoll::BudgetExhausted
                } else if pass.completed {
                    ReplyPoll::Progress
                } else {
                    ReplyPoll::Pending
                },
            );
        }
        let ghost mut popped: int = 0;
        loop
            invariant
                self.wf(),
                self.entries() == entries,
                self.holder() == old(self).holder(),
                *pass == *old(pass),
                pass.can_step(),
                pass.leased_key() is None,
                pass.polled < ACTIVE_POLL_BUDGET,
                mode_ok,
                0 <= popped <= keys.len(),
                self.ready_keys() == keys.subrange(popped, keys.len() as int),
                forall|j: int| 0 <= j < popped ==> !is_ready_entry(entries, #[trigger] keys[j]),
                entries == old(self).entries(),
                keys == old(self).ready_keys(),
            decreases keys.len() - popped,
        {
            let ghost before = self.ready_keys();
            match keys_pop(&mut self.ready) {
                None => {
                    proof {
                        lemma_skipped_prefix(entries, keys, popped);
                    }
                    pass.finished = true;
                    return PassStep::Finish(
                        if pass.completed {
                            ReplyPoll::Progress
                        } else {
                            ReplyPoll::Pending
                        },
                    );
                },
                Some(key) => {
                    assert(key == keys[popped]);
                    assert(self.ready_keys() =~= keys.subrange(popped + 1, keys.len() as int));
                    let slot = slots_get(&self.items, key);
                    if slot == Some(true) {
                        let _ = slots_set(&mut self.items, key, false);
                        proof {
                            lemma_skipped_prefix(entries, keys, popped);
                            let r = self.ready_keys();
                            assert forall|k: u64| #[trigger]
                                is_ready_entry(self.entries(), k) implies r.contains(k) by {
                                assert(is_ready_entry(entries, k));
                                let i = choose|i: int| 0 <= i < before.len() && before[i] == k;
                                assert(i != 0);
                                assert(r[i - 1] == k);
                            }
                            assert forall|i: int| 0 <= i < r.len() implies is_slot_key(#[trigger] r[i]) by {
                                assert(r[i] == before[i + 1]);
                            }
                        }
                        pass.awaiting = Some(key);
                        return PassStep::Poll(key);
                    }
                    proof {
                        let r = self.ready_keys();
                        assert forall|k: u64| #[trigger]
                            is_ready_entry(self.entries(), k) implies r.contains(k) by {
                            let i = choose|i: int| 0 <= i < before.len() && before[i] == k;
                            assert(i != 0);
                            assert(r[i - 1] == k);
                        }
                        assert forall|i: int| 0 <= i < r.len() implies is_slot_key(#[trigger] r[i]) by {
                            assert(r[i] == before[i + 1]);
                        }
                        popped = popped + 1;
                    }
                },
            }
        }
    }

    /// Records the outcome of polling the reply that the pass handed out.
    ///
    /// `completed` reports that the reply's future finished; `mode_ok`
    /// reports whether the lifecycle mode still matches. A `Some` result
    /// ends the pass; `None` asks the caller for the next step.
    pub fn record_poll(&mut self, pass: &mut PollPass, key: u64, completed: bool, mode_ok: bool) -> (outcome: Option<ReplyPoll>)
        requires
            old(self).wf(),
            old(pass).wf(),
            old(pass).awaiting_key() == Some(key),
        ensures
            final(self).wf(),
            final(pass).wf(),
            final(pass).awaiting_key() is None,
            final(pass).leased_key() == old(pass).leased_key(),
            final(pass).is_finished() == outcome is Some,
            final(self).ready_keys() == old(self).ready_keys(),
            // A completed reply leaves the queue, and so does its lease.
            ({
                let removes = completed && (old(pass).leased_key() is None || mode_ok);
                &&& removes ==> final(self).entries() == old(self).entries().remove(key)
                    && final(self).holder() == (if old(self).holder() == Some(key) {
                    None
                } else {
                    old(self).holder()
                })
                &&& !removes ==> final(self).entries() == old(self).entries() && final(self).holder() == old(self).holder()
            }),
            // A leased pass ends after its single poll.
            old(pass).leased_key() is Some ==> outcome == Some(
                if mode_ok && !completed && old(self).holder() == Some(key) {
                    ReplyPoll::Leased
                } else {
                    ReplyPoll::Progress
                },
            ),
            // An ordinary pass stops when a pending reply took the lease.
            old(pass).leased_key() is None ==> {
                &&& outcome == (if !completed && old(self).holder() is Some {
                    Some(ReplyPoll::Leased)
                } else {
                    None
                })
                &&& outcome is None ==> final(pass).polled_count() == old(pass).polled_count() + 1
                    && final(pass).any_completed() == (old(pass).any_completed() || completed)
            },
    {
        pass.awaiting = None;
        match pass.leased {
            Some(_) => {
                let held = self.lease.held() == Some(key);
                pass.finished = true;
                if !mode_ok {
                    return Some(ReplyPoll::Progress);
                }
                if completed {
                    let _ = self.complete(key);
                    return Some(ReplyPoll::Progress);
                }
                if held {
                    return Some(ReplyPoll::Leased);
                }
                Some(ReplyPoll::Progress)
            },
            None => {
                let leased = self.lease.held().is_some();
                if completed {
                    let _ = self.complete(key);
                    pass.completed = true;
                } else if leased {
                    pass.finished = true;
                    return Some(ReplyPoll::Leased);
                }
                pass.polled = pass.polled + 1;
                None
            },
        }
    }
}

} // verus!
