//! Scope capabilities lent to actor work, and direct-child registrations.
use vstd::prelude::*;

use core::marker::PhantomData;

use crate::lifecycle::{requested, Control, ExitStatus, Shutdown, ShutdownStatus};

verus! {

/// A non-owning, typed address of one actor.
///
/// Keeping an address does not keep its actor alive.
#[verifier::reject_recursive_types(A)]
pub struct ActorRef<A> {
    id: u64,
    actor: PhantomData<A>,
}

impl<A> ActorRef<A> {
    /// The identity of the addressed actor.
    pub closed spec fn id_of(&self) -> u64 {
        self.id
    }

    /// The address of the actor with identity `id`.
    pub fn new(id: u64) -> (r: Self)
        ensures
            r.id_of() == id,
    {
        ActorRef { id, actor: PhantomData }
    }

    /// The identity of the addressed actor.
    pub fn id(&self) -> (id: u64)
        ensures
            id == self.id_of(),
    {
        self.id
    }

    /// Requests shutdown through the addressed actor's lifecycle gate.
    ///
    /// The first graceful request wins and Kill upgrades it; see
    /// [`requested`].
    pub fn request_shutdown(&self, control: &mut Control, shutdown: Shutdown) -> (status:
        ShutdownStatus)
        ensures
            (final(control).current(), status) == requested(old(control).current(), shutdown),
    {
        control.request(shutdown)
    }
}

/// A finite child profile rejected a spawn at capacity.
///
/// The error retains the spawn input.
pub struct Full<T>(T);

impl<T> Full<T> {
    /// The retained spawn input.
    pub closed spec fn input(&self) -> T {
        self.0
    }

    /// Returns the retained spawn input.
    pub fn into_inner(self) -> (t: T)
        ensures
            t == self.input(),
    {
        self.0
    }
}

/// A typed, non-owning handle to one direct child.
pub struct Child {
    id: u64,
}

impl Child {
    /// The child's registration identity.
    pub closed spec fn id_of(&self) -> u64 {
        self.id
    }

    /// The child's registration identity.
    pub fn id(&self) -> (id: u64)
        ensures
            id == self.id_of(),
    {
        self.id
    }
}

/// The terminal event of one direct child.
#[derive(Clone, Copy, Debug, PartialEq, Eq, Structural)]
pub struct ChildExit {
    id: u64,
    status: ExitStatus,
}

impl ChildExit {
    /// The exited child's registration identity.
    pub closed spec fn id_of(&self) -> u64 {
        self.id
    }

    /// The exited child's final status.
    pub closed spec fn status_of(&self) -> ExitStatus {
        self.status
    }

    /// The exit of child `id` with `status`.
    pub fn new(id: u64, status: ExitStatus) -> (e: Self)
        ensures
            e.id_of() == id,
            e.status_of() == status,
    {
        ChildExit { id, status }
    }

    /// The exited child's registration identity.
    pub fn id(&self) -> (id: u64)
        ensures
            id == self.id_of(),
    {
        self.id
    }

    /// The exited child's final status.
    pub fn status(&self) -> (status: ExitStatus)
        ensures
            status == self.status_of(),
    {
        self.status
    }
}

/// The direct-child registrations of one actor.
///
/// Capacity counts retained registrations. A dequeued exit still retains
/// its registration; reaping releases it.
pub struct ChildRegistry {
    registered: Vec<u64>,
    exits: Vec<ChildExit>,
    limit: Option<usize>,
    next_id: u64,
}

impl ChildRegistry {
    /// The retained registrations, oldest first.
    pub closed spec fn ids(&self) -> Seq<u64> {
        self.registered@
    }

    /// Published exits not yet dequeued, oldest first.
    pub closed spec fn queued_exits(&self) -> Seq<ChildExit> {
        self.exits@
    }

    /// The finite limit, if the profile has one.
    pub closed spec fn max(&self) -> Option<usize> {
        self.limit
    }

    /// The identity the next registration receives.
    pub closed spec fn fresh_id(&self) -> u64 {
        self.next_id
    }

    /// Internal consistency: identities are distinct and already issued,
    /// and a limit is nonzero.
    pub closed spec fn wf(&self) -> bool {
        &&& self.registered@.no_duplicates()
        &&& forall|i: int|
            0 <= i < self.registered@.len() ==> #[trigger] self.registered@[i] < self.next_id
        &&& self.limit matches Some(n) ==> n > 0 && self.registered@.len() <= n
    }

    /// Retained identities are distinct: no two registrations share one.
    pub proof fn lemma_ids_distinct(&self)
        requires
            self.wf(),
        ensures
            self.ids().no_duplicates(),
    {
    }

    /// Whether the profile admits another registration.
    pub open spec fn room(&self) -> bool {
        self.max() matches Some(n) ==> self.ids().len() < n
    }

    /// An empty registry under `limit`; `None` is unbounded.
    pub fn new(limit: Option<usize>) -> (r: Self)
        requires
            limit matches Some(n) ==> n > 0,
        ensures
            r.wf(),
            r.ids().len() == 0,
            r.queued_exits().len() == 0,
            r.max() == limit,
            r.fresh_id() == 0,
    {
        ChildRegistry { registered: Vec::new(), exits: Vec::new(), limit, next_id: 0 }
    }

    /// Publishes the terminal event of one child; exits are dequeued in
    /// publication order.
    pub fn publish(&mut self, exit: ChildExit)
        requires
            old(self).wf(),
        ensures
            final(self).wf(),
            final(self).queued_exits() == old(self).queued_exits().push(exit),
            final(self).ids() == old(self).ids(),
            final(self).max() == old(self).max(),
            final(self).fresh_id() == old(self).fresh_id(),
    {
        self.exits.push(exit);
    }

    /// Dequeues the oldest published exit, if any.
    ///
    /// A dequeued exit still retains its registration until it is reaped.
    pub fn poll_exit(&mut self) -> (exit: Option<ChildExit>)
        requires
            old(self).wf(),
        ensures
            final(self).wf(),
            old(self).queued_exits().len() == 0 ==> exit is None && final(self).queued_exits()
                == old(self).queued_exits(),
            old(self).queued_exits().len() > 0 ==> exit == Some(old(self).queued_exits()[0])
                && final(self).queued_exits() == old(self).queued_exits().drop_first(),
            final(self).ids() == old(self).ids(),
            final(self).max() == old(self).max(),
            final(self).fresh_id() == old(self).fresh_id(),
    {
        if self.exits.len() == 0 {
            return None;
        }
        let exit = self.exits.remove(0);
        Some(exit)
    }

    /// The number of retained registrations.
    pub fn len(&self) -> (n: usize)
        ensures
            n == self.ids().len(),
    {
        self.registered.len()
    }

    /// Whether the profile admits another registration.
    pub fn has_room(&self) -> (r: bool)
        ensures
            r == self.room(),
    {
        match self.limit {
            Some(n) => self.registered.len() < n,
            None => true,
        }
    }

    /// Accepts a spawn input, or rejects it at capacity.
    pub fn accept<T>(&self, args: T) -> (r: Result<T, Full<T>>)
        ensures
            self.room() ==> r == Ok::<T, Full<T>>(args),
            !self.room() ==> (r matches Err(full) && full.input() == args),
    {
        if self.has_room() {
            Ok(args)
        } else {
            Err(Full(args))
        }
    }

    /// Registers one admitted child and returns its identity.
    pub fn register(&mut self) -> (id: u64)
        requires
            old(self).wf(),
            old(self).room(),
            old(self).fresh_id() < u64::MAX,
        ensures
            final(self).wf(),
            id == old(self).fresh_id(),
            !old(self).ids().contains(id),
            final(self).ids() == old(self).ids().push(id),
            final(self).queued_exits() == old(self).queued_exits(),
            final(self).max() == old(self).max(),
            final(self).fresh_id() == id + 1,
    {
        let id = self.next_id;
        self.registered.push(id);
        self.next_id = id + 1;
        proof {
            assert forall|i: int| 0 <= i < old(self).ids().len() implies old(self).ids()[i] != id by {
                assert(old(self).registered@[i] < id);
            }
            let s = self.registered@;
            assert forall|i: int, j: int| 0 <= i < s.len() && 0 <= j < s.len() && i != j implies s[i]
                != s[j] by {
                if i < s.len() - 1 && j < s.len() - 1 {
                    assert(s[i] == old(self).registered@[i]);
                    assert(s[j] == old(self).registered@[j]);
                } else if i == s.len() - 1 {
                    assert(s[j] == old(self).registered@[j]);
                } else {
                    assert(s[i] == old(self).registered@[i]);
                }
            }
            assert forall|i: int| 0 <= i < s.len() implies #[trigger] s[i] < self.next_id by {
                if i < s.len() - 1 {
                    assert(s[i] == old(self).registered@[i]);
                }
            }
        }
        id
    }

    /// Releases the registration of an exited child.
    ///
    /// Returns whether this registry still held it.
    pub fn reap(&mut self, id: u64) -> (reaped: bool)
        requires
            old(self).wf(),
        ensures
            final(self).wf(),
            reaped == old(self).ids().contains(id),
            reaped ==> exists|i: int|
                0 <= i < old(self).ids().len() && old(self).ids()[i] == id && final(self).ids()
                    == old(self).ids().remove(i),
            !reaped ==> final(self).ids() == old(self).ids(),
            final(self).ids().to_set() == old(self).ids().to_set().remove(id),
            final(self).ids().len() == (if reaped {
                old(self).ids().len() - 1
            } else {
                old(self).ids().len() as int
            }),
            final(self).queued_exits() == old(self).queued_exits(),
            final(self).max() == old(self).max(),
            final(self).fresh_id() == old(self).fresh_id(),
    {
        let mut i: usize = 0;
        while i < self.registered.len()
            invariant
                old(self).wf(),
                self.registered@ == old(self).registered@,
                self.limit == old(self).limit,
                self.next_id == old(self).next_id,
                self.exits@ == old(self).exits@,
                0 <= i <= self.registered@.len(),
                forall|j: int| 0 <= j < i ==> self.registered@[j] != id,
            decreases self.registered.len() - i,
        {
            if self.registered[i] == id {
                let ghost before = self.registered@;
                self.registered.remove(i);
                proof {
                    let s = self.registered@;
                    assert(s =~= before.remove(i as int));
                    assert(before.contains(id));
                    assert forall|a: int, b: int|
                        0 <= a < s.len() && 0 <= b < s.len() && a != b implies s[a] != s[b] by {
                        let a0 = if a < i { a } else { a + 1 };
                        let b0 = if b < i { b } else { b + 1 };
                        assert(s[a] == before[a0]);
                        assert(s[b] == before[b0]);
                    }
                    assert forall|a: int| 0 <= a < s.len() implies #[trigger] s[a] < self.next_id by {
                        let a0 = if a < i { a } else { a + 1 };
                        assert(s[a] == before[a0]);
                    }
                    assert forall|x: u64| s.to_set().contains(x) == before.to_set().remove(
                        id,
                    ).contains(x) by {
                        if s.contains(x) {
                            let a = choose|a: int| 0 <= a < s.len() && s[a] == x;
                            let a0 = if a < i { a } else { a + 1 };
                            assert(s[a] == before[a0]);
                            assert(a0 != i);
                        }
                        if x != id && before.contains(x) {
                            let a0 = choose|a0: int| 0 <= a0 < before.len() && before[a0] == x;
                            assert(a0 != i);
                            let a = if a0 < i { a0 } else { a0 - 1 };
                            assert(s[a] == x);
                        }
                    }
                    assert(s.to_set() =~= before.to_set().remove(id));
                }
                return true;
            }
            i = i + 1;
        }
        proof {
            assert(!self.registered@.contains(id));
            assert(self.registered@.to_set() =~= self.registered@.to_set().remove(id));
        }
        false
    }
}

/// Reaping a retained registration releases capacity: a full finite
/// profile has room again after one of its children is reaped.
pub proof fn law_reap_frees_room(before: ChildRegistry, after: ChildRegistry, id: u64)
    requires
        before.wf(),
        before.max() is Some,
        !before.room(),
        before.ids().contains(id),
        after.ids().len() == before.ids().len() - 1,
        after.max() == before.max(),
    ensures
        after.room(),
{
}

/// The registration effect of one spawn attempt: with room, the next
/// identity is registered and returned, distinct from every retained one;
/// at capacity nothing changes. Queued exits and the limit stay either way.
pub open spec fn spawn_registered(
    before: ChildRegistry,
    after: ChildRegistry,
    id: Option<u64>,
) -> bool {
    &&& before.room() ==> id == Some(before.fresh_id()) && after.ids() == before.ids().push(
        before.fresh_id(),
    ) && after.fresh_id() == before.fresh_id() + 1
    &&& id matches Some(new_id) ==> !before.ids().contains(new_id)
    &&& !before.room() ==> id is None && after.ids() == before.ids() && after.fresh_id()
        == before.fresh_id()
    &&& after.queued_exits() == before.queued_exits()
    &&& after.max() == before.max()
}

/// Spawning without options registers exactly as spawning with them: the
/// admission decision, the identity, and the registry that results agree.
pub proof fn law_spawn_without_options_matches(
    before: ChildRegistry,
    plain: ChildRegistry,
    with_options: ChildRegistry,
    plain_id: Option<u64>,
    options_id: Option<u64>,
)
    requires
        spawn_registered(before, plain, plain_id),
        spawn_registered(before, with_options, options_id),
    ensures
        plain_id == options_id,
        plain.ids() == with_options.ids(),
        plain.queued_exits() == with_options.queued_exits(),
        plain.fresh_id() == with_options.fresh_id(),
        plain.max() == with_options.max(),
{
}

/// The effect of polling child exits: the oldest published exit leaves
/// the queue and is returned; registrations stay.
pub open spec fn exit_polled(before: ChildRegistry, after: ChildRegistry, exit: Option<
    ChildExit,
>) -> bool {
    &&& before.queued_exits().len() == 0 ==> exit is None && after.queued_exits()
        == before.queued_exits()
    &&& before.queued_exits().len() > 0 ==> exit == Some(before.queued_exits()[0])
        && after.queued_exits() == before.queued_exits().drop_first()
    &&& after.ids() == before.ids()
    &&& after.max() == before.max()
    &&& after.fresh_id() == before.fresh_id()
}

/// Runtime-owned scope state of one actor.
pub struct ScopeState {
    /// The actor's direct-child registrations.
    pub children: ChildRegistry,
}

impl ScopeState {
    /// Lends the direct-child registrations.
    pub fn children(&mut self) -> (children: &mut ChildRegistry)
        ensures
            *children == old(self).children,
            final(self).children == *final(children),
    {
        &mut self.children
    }

    /// Dequeues the oldest published child exit, if any.
    pub fn poll_child_exit(&mut self) -> (exit: Option<ChildExit>)
        requires
            old(self).children.wf(),
        ensures
            final(self).children.wf(),
            exit_polled(old(self).children, final(self).children, exit),
    {
        self.children.poll_exit()
    }

    /// Lends the capabilities valid before child cleanup.
    pub fn actor_scope<'a, A>(&'a mut self, actor_ref: &'a ActorRef<A>) -> (scope: ActorScope<
        'a,
        A,
    >)
        ensures
            scope.myself_spec() == *actor_ref,
            scope.children_of() == old(self).children,
    {
        ActorScope { actor_ref, state: self }
    }

    /// Lends the restricted cleanup capabilities.
    pub fn stop_scope<'a, A>(&'a mut self, actor_ref: &'a ActorRef<A>) -> (scope: StopScope<'a, A>)
        ensures
            scope.myself_spec() == *actor_ref,
    {
        StopScope { actor_ref }
    }
}

/// Runtime capabilities available during the actor's stop hook.
///
/// Child cleanup finishes before this capability is issued.
/// It cannot change the actor's child topology.
#[verifier::reject_recursive_types(A)]
pub struct StopScope<'a, A> {
    actor_ref: &'a ActorRef<A>,
}

impl<'a, A> StopScope<'a, A> {
    /// This actor's address.
    pub closed spec fn myself_spec(&self) -> ActorRef<A> {
        *self.actor_ref
    }

    /// Returns this actor's non-owning address.
    pub fn myself(&self) -> (r: &ActorRef<A>)
        ensures
            *r == self.myself_spec(),
    {
        self.actor_ref
    }

    /// Requests shutdown while graceful cleanup is running.
    ///
    /// Stop or Drain has already committed at this stage; Kill may still
    /// upgrade either mode.
    pub fn request_shutdown(&self, control: &mut Control, shutdown: Shutdown) -> (status:
        ShutdownStatus)
        ensures
            (final(control).current(), status) == requested(old(control).current(), shutdown),
    {
        self.actor_ref.request_shutdown(control, shutdown)
    }
}

/// Runtime capabilities available before child cleanup begins.
///
/// The parent runtime owns every child actor; a returned [`Child`] does
/// not own the child.
#[verifier::reject_recursive_types(A)]
pub struct ActorScope<'a, A> {
    actor_ref: &'a ActorRef<A>,
    state: &'a mut ScopeState,
}

impl<'a, A> ActorScope<'a, A> {
    /// The actor's direct-child registrations.
    pub closed spec fn children_of(&self) -> ChildRegistry {
        self.state.children
    }

    /// This actor's address.
    pub closed spec fn myself_spec(&self) -> ActorRef<A> {
        *self.actor_ref
    }

    /// Returns this actor's non-owning address.
    pub fn myself(&self) -> (r: &ActorRef<A>)
        ensures
            *r == self.myself_spec(),
    {
        self.actor_ref
    }

    /// Requests shutdown of this actor and, eventually, its subtree.
    ///
    /// First-wins with Kill upgrade; see [`requested`].
    pub fn request_shutdown(&self, control: &mut Control, shutdown: Shutdown) -> (status:
        ShutdownStatus)
        ensures
            (final(control).current(), status) == requested(old(control).current(), shutdown),
    {
        self.actor_ref.request_shutdown(control, shutdown)
    }

    /// Registers one direct child, or returns the spawn input at capacity.
    ///
    /// Registration commits synchronously. On success the input comes back
    /// with the child handle, and the caller starts the child task from it.
    pub fn spawn_child<T>(&mut self, args: T) -> (r: Result<(Child, T), Full<T>>)
        requires
            old(self).children_of().wf(),
            old(self).children_of().fresh_id() < u64::MAX,
        ensures
            final(self).children_of().wf(),
            final(self).myself_spec() == old(self).myself_spec(),
            spawn_registered(
                old(self).children_of(),
                final(self).children_of(),
                match r {
                    Ok((child, _)) => Some(child.id_of()),
                    Err(_) => None,
                },
            ),
            r matches Ok((_, back)) ==> back == args,
            r matches Err(full) ==> full.input() == args,
    {
        match self.state.children.accept(args) {
            Ok(args) => {
                let id = self.state.children.register();
                Ok((Child { id }, args))
            },
            Err(full) => Err(full),
        }
    }

    /// Registers one direct child with explicit options, or returns both
    /// spawn inputs at capacity.
    ///
    /// On success both inputs come back with the child handle, and the
    /// caller starts the child task from them.
    pub fn spawn_child_with<T, O>(&mut self, args: T, options: O) -> (r: Result<
        (Child, T, O),
        Full<(T, O)>,
    >)
        requires
            old(self).children_of().wf(),
            old(self).children_of().fresh_id() < u64::MAX,
        ensures
            final(self).children_of().wf(),
            final(self).myself_spec() == old(self).myself_spec(),
            spawn_registered(
                old(self).children_of(),
                final(self).children_of(),
                match r {
                    Ok((child, _, _)) => Some(child.id_of()),
                    Err(_) => None,
                },
            ),
            r matches Ok((_, back_args, back_options)) ==> back_args == args && back_options
                == options,
            r matches Err(full) ==> full.input() == (args, options),
    {
        match self.state.children.accept((args, options)) {
            Ok((args, options)) => {
                let id = self.state.children.register();
                Ok((Child { id }, args, options))
            },
            Err(full) => Err(full),
        }
    }
}

} // verus!
