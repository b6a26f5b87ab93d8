//! Built-in reply concurrency profiles.
use vstd::prelude::*;

use core::marker::PhantomData;

use crate::scheduling::runtime::{DisabledRuntime, MailboxRuntime};
use crate::scheduling::state::{DynamicLimit, FixedLimit, ReplyLane, ReplyState, UnboundedLimit};

verus! {

/// A runtime scheduling profile for one actor.
///
/// `Runtime` names the turn logic that serves the profile.
pub trait SchedulerProfile: Sized {
    /// The runtime selected by this profile.
    type Runtime;
}

/// The scheduler for actors without a mailbox.
///
/// This profile is zero-sized and schedules nothing.
#[derive(Clone, Copy, Debug, Default, PartialEq, Eq)]
pub struct Disabled;

impl Disabled {
    /// Creates a disabled profile.
    pub fn new() -> (r: Self)
        ensures
            r == Disabled,
    {
        Disabled
    }
}

/// Schedules one active reply at a time.
#[verifier::reject_recursive_types(A)]
pub struct Serial<A> {
    /// The reply state under a limit of one.
    state: ReplyState<FixedLimit<1>>,
    actor: PhantomData<A>,
}

/// Schedules at most `N` active handler futures.
#[verifier::reject_recursive_types(A)]
pub struct Fixed<A, const N: usize> {
    /// The reply state under a limit of `N`.
    state: ReplyState<FixedLimit<N>>,
    actor: PhantomData<A>,
}

/// Schedules handler futures with a per-spawn limit.
#[verifier::reject_recursive_types(A)]
pub struct Dynamic<A> {
    /// The reply state under the resolved limit.
    state: ReplyState<DynamicLimit>,
    actor: PhantomData<A>,
}

/// Schedules handler futures without a finite limit.
#[verifier::reject_recursive_types(A)]
pub struct Unbounded<A> {
    /// The reply state without a limit.
    state: ReplyState<UnboundedLimit>,
    actor: PhantomData<A>,
}

/// A fresh reply state: no reply, no ready key, a free lease, and the
/// mailbox first in the rotation.
pub open spec fn fresh_state<L>(state: ReplyState<L>) -> bool {
    &&& state.queue.wf()
    &&& state.queue.entries() == crate::containers::no_entries()
    &&& state.queue.ready_keys().len() == 0
    &&& state.queue.holder() is None
    &&& state.cursor == ReplyLane::Mailbox
}

impl<A> Serial<A> {
    /// The reply state of this profile.
    pub closed spec fn replies(self) -> ReplyState<FixedLimit<1>> {
        self.state
    }

    /// Lends the reply state of this profile.
    pub fn state(&mut self) -> (state: &mut ReplyState<FixedLimit<1>>)
        ensures
            *state == old(self).replies(),
            final(self).replies() == *final(state),
    {
        &mut self.state
    }
}

impl<A> Serial<A> {
    /// Creates an empty serial profile.
    pub fn new() -> (r: Self)
        ensures
            fresh_state(r.replies()),
    {
        Serial { state: ReplyState::with_limit(FixedLimit), actor: PhantomData }
    }
}

impl<A, const N: usize> Fixed<A, N> {
    /// The reply state of this profile.
    pub closed spec fn replies(self) -> ReplyState<FixedLimit<N>> {
        self.state
    }

    /// Lends the reply state of this profile.
    pub fn state(&mut self) -> (state: &mut ReplyState<FixedLimit<N>>)
        ensures
            *state == old(self).replies(),
            final(self).replies() == *final(state),
    {
        &mut self.state
    }
}

impl<A, const N: usize> Fixed<A, N> {
    /// Creates an empty fixed profile; `N` must be nonzero.
    pub fn new() -> (r: Self)
        requires
            N > 0,
        ensures
            fresh_state(r.replies()),
    {
        Fixed { state: ReplyState::with_limit(FixedLimit), actor: PhantomData }
    }
}

impl<A> Dynamic<A> {
    /// The reply state of this profile.
    pub closed spec fn replies(self) -> ReplyState<DynamicLimit> {
        self.state
    }

    /// Lends the reply state of this profile.
    pub fn state(&mut self) -> (state: &mut ReplyState<DynamicLimit>)
        ensures
            *state == old(self).replies(),
            final(self).replies() == *final(state),
    {
        &mut self.state
    }
}

impl<A> Dynamic<A> {
    /// Creates an empty profile with one resolved limit.
    pub fn new(limit: usize) -> (r: Self)
        requires
            limit > 0,
        ensures
            fresh_state(r.replies()),
            r.replies().limit.value() == limit,
    {
        Dynamic { state: ReplyState::with_limit(DynamicLimit::new(limit)), actor: PhantomData }
    }
}

impl<A> Unbounded<A> {
    /// The reply state of this profile.
    pub closed spec fn replies(self) -> ReplyState<UnboundedLimit> {
        self.state
    }

    /// Lends the reply state of this profile.
    pub fn state(&mut self) -> (state: &mut ReplyState<UnboundedLimit>)
        ensures
            *state == old(self).replies(),
            final(self).replies() == *final(state),
    {
        &mut self.state
    }
}

impl<A> Unbounded<A> {
    /// Creates an empty unbounded profile.
    pub fn new() -> (r: Self)
        ensures
            fresh_state(r.replies()),
    {
        Unbounded { state: ReplyState::with_limit(UnboundedLimit), actor: PhantomData }
    }
}

impl<A> Default for Serial<A> {
    fn default() -> (r: Self)
        ensures
            fresh_state(r.replies()),
    {
        Self::new()
    }
}

impl<A> Default for Unbounded<A> {
    fn default() -> (r: Self)
        ensures
            fresh_state(r.replies()),
    {
        Self::new()
    }
}

impl SchedulerProfile for Disabled {
    type Runtime = DisabledRuntime;
}

impl<A> SchedulerProfile for Serial<A> {
    type Runtime = MailboxRuntime;
}

impl<A, const N: usize> SchedulerProfile for Fixed<A, N> {
    type Runtime = MailboxRuntime;
}

impl<A> SchedulerProfile for Dynamic<A> {
    type Runtime = MailboxRuntime;
}

impl<A> SchedulerProfile for Unbounded<A> {
    type Runtime = MailboxRuntime;
}

} // verus!
