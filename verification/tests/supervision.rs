use loac::lifecycle::{ExitReason, ExitStatus, SubtreeStatus};
use loac::runtime::scope::{ActorRef, ChildExit, ChildRegistry, ScopeState};
use loac::scheduling::runtime::poll_child;

#[test]
fn a_finite_profile_rejects_at_capacity_and_keeps_the_input() {
    let actor_ref = ActorRef::<u8>::new(1);
    let mut state = ScopeState { children: ChildRegistry::new(Some(2)) };
    let mut scope = state.actor_scope(&actor_ref);
    let (first, first_args) = scope.spawn_child("a").ok().expect("room for the first child");
    let (second, second_args) = scope.spawn_child("b").ok().expect("room for the second child");
    assert_ne!(first.id(), second.id());
    assert_eq!(first_args, "a");
    assert_eq!(second_args, "b");
    let rejected = scope.spawn_child("c").err().expect("the profile is full");
    assert_eq!(rejected.into_inner(), "c");
    let rejected = scope.spawn_child_with(7u32, 'o').err().expect("the profile is full");
    assert_eq!(rejected.into_inner(), (7u32, 'o'));
}

#[test]
fn reaping_releases_capacity() {
    let mut children = ChildRegistry::new(Some(1));
    assert!(children.has_room());
    let id = children.register();
    assert!(!children.has_room());
    assert!(!children.reap(id + 1));
    assert!(children.reap(id));
    assert!(!children.reap(id));
    assert!(children.has_room());
    assert_eq!(children.len(), 0);
}

#[test]
fn an_unbounded_profile_always_has_room() {
    let actor_ref = ActorRef::<u8>::new(1);
    let mut state = ScopeState { children: ChildRegistry::new(None) };
    let mut scope = state.actor_scope(&actor_ref);
    for _ in 0..100 {
        assert!(scope.spawn_child(()).is_ok());
    }
    assert_eq!(state.children.len(), 100);
}

#[test]
fn registrations_get_fresh_identities() {
    let mut children = ChildRegistry::new(None);
    let a = children.register();
    let b = children.register();
    assert!(children.reap(a));
    let c = children.register();
    assert_ne!(a, b);
    assert_ne!(c, a);
    assert_ne!(c, b);
    assert_eq!(children.len(), 2);
}

#[test]
fn spawning_with_options_hands_both_inputs_back() {
    let actor_ref = ActorRef::<u8>::new(1);
    let mut state = ScopeState { children: ChildRegistry::new(Some(1)) };
    let mut scope = state.actor_scope(&actor_ref);
    let (child, args, options) =
        scope.spawn_child_with("worker", 32usize).ok().expect("room for the child");
    assert_eq!(args, "worker");
    assert_eq!(options, 32usize);
    assert_eq!(state.children.len(), 1);
    assert!(!state.children.has_room());
    assert!(state.children.reap(child.id()));
}

#[test]
fn a_polled_exit_leaves_the_queue_in_order() {
    let mut state = ScopeState { children: ChildRegistry::new(None) };
    let a = state.children.register();
    let b = state.children.register();
    let stopped = ExitStatus::new(ExitReason::Stopped, SubtreeStatus::Terminated);
    let killed = ExitStatus::new(ExitReason::Killed, SubtreeStatus::Unconfirmed);
    state.children.publish(ChildExit::new(a, stopped));
    state.children.publish(ChildExit::new(b, killed));
    let first = poll_child(&mut state).expect("the first exit");
    assert_eq!(first.id(), a);
    assert_eq!(first.status(), stopped);
    let second = poll_child(&mut state).expect("the second exit");
    assert_eq!(second.id(), b);
    assert_eq!(second.status(), killed);
    assert!(poll_child(&mut state).is_none());
    assert_eq!(state.children.len(), 2);
}
