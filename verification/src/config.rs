//! Per-spawn options of built-in actor configurations.
use vstd::prelude::*;

use core::marker::PhantomData;
use vstd::std_specs::cmp::PartialEqSpec;
use vstd::std_specs::cmp::PartialEqSpecImpl;

verus! {

/// Default capacity used by built-in mailbox configurations.
pub const DEFAULT_MAILBOX_CAPACITY: usize = 32;

/// Default limit used by built-in concurrency configurations.
pub const DEFAULT_MAX_IN_FLIGHT: usize = 32;

/// Default limit used by built-in child configurations.
pub const DEFAULT_MAX_CHILDREN: usize = 32;

/// Spawn configuration selected by one actor type.
///
/// `Options` carries every per-spawn runtime choice.
pub trait ActorConfig {
    /// Values resolved synchronously before the actor task starts.
    type Options: Default;
}

/// Configures one actor's direct-child supervision.
pub trait SupervisionConfig: ActorConfig {
    /// The direct-child supervision profile.
    type Children;

    /// Opens this actor's direct-child supervision profile.
    fn open_children(options: &Self::Options) -> Self::Children;
}

/// Spawn state for an actor without a mailbox.
#[derive(Clone, Copy, Debug, Default, PartialEq, Eq)]
pub struct NoMailbox;

/// Spawn state for an actor with a fixed mailbox.
#[derive(Clone, Copy, Debug, Default, PartialEq, Eq)]
pub struct FixedMailboxCapacity;

/// Spawn state for an actor with an unbounded mailbox.
#[derive(Clone, Copy, Debug, Default, PartialEq, Eq)]
pub struct UnboundedMailboxCapacity;

/// Spawn state without a handler scheduler.
#[derive(Clone, Copy, Debug, Default, PartialEq, Eq)]
pub struct NoMaxInFlight;

/// Spawn state with a fixed handler-concurrency limit.
#[derive(Clone, Copy, Debug, Default, PartialEq, Eq)]
pub struct FixedMaxInFlight;

/// Spawn state with unbounded handler concurrency.
#[derive(Clone, Copy, Debug, Default, PartialEq, Eq)]
pub struct UnboundedMaxInFlight;

/// Spawn state for an actor without direct children.
#[derive(Clone, Copy, Debug, Default, PartialEq, Eq)]
pub struct NoChildren;

/// Spawn state for an actor with a fixed child limit.
#[derive(Clone, Copy, Debug, Default, PartialEq, Eq)]
pub struct FixedMaxChildren;

/// Spawn state for an actor with unbounded direct children.
#[derive(Clone, Copy, Debug, Default, PartialEq, Eq)]
pub struct UnboundedMaxChildren;

/// Spawn state for an actor with a dynamic mailbox.
///
/// An override, when present, is never zero.
#[derive(Clone, Copy, Debug, PartialEq, Eq)]
pub struct DynamicMailboxCapacity<const DEFAULT: usize> {
    capacity: Option<usize>,
}

/// Spawn state with dynamic handler concurrency.
///
/// An override, when present, is never zero.
#[derive(Clone, Copy, Debug, PartialEq, Eq)]
pub struct DynamicMaxInFlight<const DEFAULT: usize> {
    value: Option<usize>,
}

/// Spawn state for an actor with a dynamic child limit.
///
/// An override, when present, is never zero.
#[derive(Clone, Copy, Debug, PartialEq, Eq)]
pub struct DynamicMaxChildren<const DEFAULT: usize> {
    max_children: Option<usize>,
}

/// The limit a dynamic setting resolves to: its override, else its default.
pub open spec fn resolve_limit(overridden: Option<usize>, default: usize) -> usize {
    match overridden {
        Some(value) => value,
        None => default,
    }
}

impl<const DEFAULT: usize> DynamicMailboxCapacity<DEFAULT> {
    #[verifier::type_invariant]
    spec fn nonzero(self) -> bool {
        self.capacity matches Some(v) ==> v > 0
    }

    /// The per-spawn override, if one was set.
    pub closed spec fn overridden(self) -> Option<usize> {
        self.capacity
    }
}

impl<const DEFAULT: usize> DynamicMaxInFlight<DEFAULT> {
    #[verifier::type_invariant]
    spec fn nonzero(self) -> bool {
        self.value matches Some(v) ==> v > 0
    }

    /// The per-spawn override, if one was set.
    pub closed spec fn overridden(self) -> Option<usize> {
        self.value
    }
}

impl<const DEFAULT: usize> DynamicMaxChildren<DEFAULT> {
    #[verifier::type_invariant]
    spec fn nonzero(self) -> bool {
        self.max_children matches Some(v) ==> v > 0
    }

    /// The per-spawn override, if one was set.
    pub closed spec fn overridden(self) -> Option<usize> {
        self.max_children
    }
}

impl<const DEFAULT: usize> Default for DynamicMailboxCapacity<DEFAULT> {
    fn default() -> (r: Self)
        ensures
            r.overridden() is None,
    {
        Self { capacity: None }
    }
}

impl<const DEFAULT: usize> Default for DynamicMaxInFlight<DEFAULT> {
    fn default() -> (r: Self)
        ensures
            r.overridden() is None,
    {
        Self { value: None }
    }
}

impl<const DEFAULT: usize> Default for DynamicMaxChildren<DEFAULT> {
    fn default() -> (r: Self)
        ensures
            r.overridden() is None,
    {
        Self { max_children: None }
    }
}


/// An override replaces the default; without one the default applies.
pub proof fn law_override_wins(value: usize, default: usize)
    ensures
        resolve_limit(Some(value), default) == value,
        resolve_limit(None, default) == default,
{
}

/// Built-in spawn options for one actor.
///
/// `M` retains only mailbox values which may vary per spawn.
/// `F` retains only handler limits which may vary per spawn.
/// `C` retains only child limits which may vary per spawn.
/// The actor marker prevents options from crossing actor types.
#[verifier::reject_recursive_types(A)]
pub struct ActorOptions<A, M, F, C> {
    mailbox: M,
    max_in_flight: F,
    children: C,
    actor: PhantomData<A>,
}

impl<A, M, F, C> ActorOptions<A, M, F, C> {
    /// The mailbox part of these options.
    pub closed spec fn mailbox_setting(self) -> M {
        self.mailbox
    }

    /// The handler-concurrency part of these options.
    pub closed spec fn max_in_flight_setting(self) -> F {
        self.max_in_flight
    }

    /// The direct-child part of these options.
    pub closed spec fn children_setting(self) -> C {
        self.children
    }
}

impl<A, M, C, const DEFAULT: usize> ActorOptions<A, M, DynamicMaxInFlight<DEFAULT>, C> {
    /// Sets the maximum number of active handler futures.
    pub fn with_max_in_flight(self, max_in_flight: usize) -> (r: Self)
        requires
            max_in_flight > 0,
        ensures
            r.max_in_flight_setting().overridden() == Some(max_in_flight),
            r.mailbox_setting() == self.mailbox_setting(),
            r.children_setting() == self.children_setting(),
    {
        ActorOptions {
            mailbox: self.mailbox,
            max_in_flight: DynamicMaxInFlight { value: Some(max_in_flight) },
            children: self.children,
            actor: PhantomData,
        }
    }

    /// Resolves this spawn's dynamic handler limit.
    pub fn max_in_flight(&self) -> (r: usize)
        requires
            DEFAULT > 0,
        ensures
            r == resolve_limit(self.max_in_flight_setting().overridden(), DEFAULT),
            r > 0,
    {
        proof {
            use_type_invariant(&self.max_in_flight);
        }
        match self.max_in_flight.value {
            Some(max_in_flight) => max_in_flight,
            None => DEFAULT,
        }
    }
}

impl<A, F, C, const DEFAULT: usize> ActorOptions<A, DynamicMailboxCapacity<DEFAULT>, F, C> {
    /// Overrides this actor's dynamic mailbox capacity.
    pub fn with_mailbox_capacity(self, capacity: usize) -> (r: Self)
        requires
            capacity > 0,
        ensures
            r.mailbox_setting().overridden() == Some(capacity),
            r.max_in_flight_setting() == self.max_in_flight_setting(),
            r.children_setting() == self.children_setting(),
    {
        ActorOptions {
            mailbox: DynamicMailboxCapacity { capacity: Some(capacity) },
            max_in_flight: self.max_in_flight,
            children: self.children,
            actor: PhantomData,
        }
    }

    /// Resolves this spawn's dynamic mailbox capacity.
    pub fn mailbox_capacity(&self) -> (r: usize)
        requires
            DEFAULT > 0,
        ensures
            r == resolve_limit(self.mailbox_setting().overridden(), DEFAULT),
            r > 0,
    {
        proof {
            use_type_invariant(&self.mailbox);
        }
        match self.mailbox.capacity {
            Some(capacity) => capacity,
            None => DEFAULT,
        }
    }
}

impl<A, M, F, const DEFAULT: usize> ActorOptions<A, M, F, DynamicMaxChildren<DEFAULT>> {
    /// Overrides this actor's direct-child limit.
    pub fn with_max_children(self, max_children: usize) -> (r: Self)
        requires
            max_children > 0,
        ensures
            r.children_setting().overridden() == Some(max_children),
            r.mailbox_setting() == self.mailbox_setting(),
            r.max_in_flight_setting() == self.max_in_flight_setting(),
    {
        ActorOptions {
            mailbox: self.mailbox,
            max_in_flight: self.max_in_flight,
            children: DynamicMaxChildren { max_children: Some(max_children) },
            actor: PhantomData,
        }
    }

    /// Resolves this spawn's direct-child limit.
    pub fn max_children(&self) -> (r: usize)
        requires
            DEFAULT > 0,
        ensures
            r == resolve_limit(self.children_setting().overridden(), DEFAULT),
            r > 0,
    {
        proof {
            use_type_invariant(&self.children);
        }
        match self.children.max_children {
            Some(max_children) => max_children,
            None => DEFAULT,
        }
    }
}

impl<A, M: Default, F: Default, C: Default> Default for ActorOptions<A, M, F, C> {
    fn default() -> (r: Self)
        ensures
            call_ensures(M::default, (), r.mailbox_setting()),
            call_ensures(F::default, (), r.max_in_flight_setting()),
            call_ensures(C::default, (), r.children_setting()),
    {
        ActorOptions {
            mailbox: M::default(),
            max_in_flight: F::default(),
            children: C::default(),
            actor: PhantomData,
        }
    }
}

impl<A, M: Copy, F: Copy, C: Copy> Copy for ActorOptions<A, M, F, C> {

}

impl<A, M: PartialEq, F: PartialEq, C: PartialEq> PartialEq for ActorOptions<A, M, F, C> {
    fn eq(&self, other: &Self) -> (r: bool) {
        self.mailbox == other.mailbox && self.max_in_flight == other.max_in_flight
            && self.children == other.children
    }
}

impl<A, M: PartialEq, F: PartialEq, C: PartialEq> PartialEqSpecImpl for ActorOptions<A, M, F, C> {
    open spec fn obeys_eq_spec() -> bool {
        M::obeys_eq_spec() && F::obeys_eq_spec() && C::obeys_eq_spec()
    }

    open spec fn eq_spec(&self, other: &Self) -> bool {
        self.mailbox_setting().eq_spec(&other.mailbox_setting())
            && self.max_in_flight_setting().eq_spec(&other.max_in_flight_setting())
            && self.children_setting().eq_spec(&other.children_setting())
    }
}

impl<A, M: Eq, F: Eq, C: Eq> Eq for ActorOptions<A, M, F, C> {

}

impl<A, M: Clone, F: Clone, C: Clone> Clone for ActorOptions<A, M, F, C> {
    fn clone(&self) -> (r: Self)
        ensures
            cloned::<M>(self.mailbox_setting(), r.mailbox_setting()),
            cloned::<F>(self.max_in_flight_setting(), r.max_in_flight_setting()),
            cloned::<C>(self.children_setting(), r.children_setting()),
    {
        ActorOptions {
            mailbox: self.mailbox.clone(),
            max_in_flight: self.max_in_flight.clone(),
            children: self.children.clone(),
            actor: PhantomData,
        }
    }
}


/// Options whose mailbox capacity may change per spawn.
pub trait DynamicMailboxCapacityOptions: Sized {
    /// The mailbox capacity these options resolve to.
    spec fn resolved_mailbox_capacity(&self) -> usize;

    /// Overrides the mailbox capacity for one spawn.
    fn with_mailbox_capacity(self, capacity: usize) -> (r: Self)
        requires
            capacity > 0,
        ensures
            r.resolved_mailbox_capacity() == capacity,
    ;
}

impl<A, F, C, const DEFAULT: usize> DynamicMailboxCapacityOptions for ActorOptions<
    A,
    DynamicMailboxCapacity<DEFAULT>,
    F,
    C,
> {
    open spec fn resolved_mailbox_capacity(&self) -> usize {
        resolve_limit(self.mailbox_setting().overridden(), DEFAULT)
    }

    fn with_mailbox_capacity(self, capacity: usize) -> (r: Self) {
        ActorOptions::with_mailbox_capacity(self, capacity)
    }
}

/// Options whose handler-concurrency limit may change per spawn.
pub trait DynamicMaxInFlightOptions: Sized {
    /// The handler limit these options resolve to.
    spec fn resolved_max_in_flight(&self) -> usize;

    /// Overrides the active handler limit for one spawn.
    fn with_max_in_flight(self, max_in_flight: usize) -> (r: Self)
        requires
            max_in_flight > 0,
        ensures
            r.resolved_max_in_flight() == max_in_flight,
    ;
}

impl<A, M, C, const DEFAULT: usize> DynamicMaxInFlightOptions for ActorOptions<
    A,
    M,
    DynamicMaxInFlight<DEFAULT>,
    C,
> {
    open spec fn resolved_max_in_flight(&self) -> usize {
        resolve_limit(self.max_in_flight_setting().overridden(), DEFAULT)
    }

    fn with_max_in_flight(self, max_in_flight: usize) -> (r: Self) {
        ActorOptions::with_max_in_flight(self, max_in_flight)
    }
}

/// Options whose direct-child limit may change per spawn.
pub trait DynamicMaxChildrenOptions: Sized {
    /// The direct-child limit these options resolve to.
    spec fn resolved_max_children(&self) -> usize;

    /// Overrides the direct-child limit for one spawn.
    fn with_max_children(self, max_children: usize) -> (r: Self)
        requires
            max_children > 0,
        ensures
            r.resolved_max_children() == max_children,
    ;
}

impl<A, M, F, const DEFAULT: usize> DynamicMaxChildrenOptions for ActorOptions<
    A,
    M,
    F,
    DynamicMaxChildren<DEFAULT>,
> {
    open spec fn resolved_max_children(&self) -> usize {
        resolve_limit(self.children_setting().overridden(), DEFAULT)
    }

    fn with_max_children(self, max_children: usize) -> (r: Self) {
        ActorOptions::with_max_children(self, max_children)
    }
}

} // verus!
