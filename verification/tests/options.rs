use loac::config::{
    ActorOptions, DynamicMailboxCapacity, DynamicMailboxCapacityOptions, DynamicMaxChildren,
    DynamicMaxChildrenOptions, DynamicMaxInFlight, DynamicMaxInFlightOptions, NoChildren,
    NoMailbox, DEFAULT_MAILBOX_CAPACITY, DEFAULT_MAX_CHILDREN, DEFAULT_MAX_IN_FLIGHT,
};
use loac::scheduling::profile::{Disabled, Dynamic, Fixed, Serial, Unbounded};

struct Actor;

type Dyn = ActorOptions<
    Actor,
    DynamicMailboxCapacity<DEFAULT_MAILBOX_CAPACITY>,
    DynamicMaxInFlight<DEFAULT_MAX_IN_FLIGHT>,
    DynamicMaxChildren<DEFAULT_MAX_CHILDREN>,
>;

#[test]
fn dynamic_settings_resolve_to_their_defaults() {
    let options = Dyn::default();
    assert_eq!(options.mailbox_capacity(), 32);
    assert_eq!(options.max_in_flight(), 32);
    assert_eq!(options.max_children(), 32);
}

#[test]
fn overrides_replace_only_their_own_setting() {
    let options = Dyn::default().with_max_in_flight(3);
    assert_eq!(options.max_in_flight(), 3);
    assert_eq!(options.mailbox_capacity(), 32);
    assert_eq!(options.max_children(), 32);

    let options = options.with_mailbox_capacity(7).with_max_children(1);
    assert_eq!(options.max_in_flight(), 3);
    assert_eq!(options.mailbox_capacity(), 7);
    assert_eq!(options.max_children(), 1);
}

#[test]
fn a_later_override_wins() {
    let options = Dyn::default().with_max_in_flight(3).with_max_in_flight(9);
    assert_eq!(options.max_in_flight(), 9);
}

#[test]
fn trait_setters_match_the_inherent_ones() {
    let options = DynamicMailboxCapacityOptions::with_mailbox_capacity(Dyn::default(), 5);
    let options = DynamicMaxInFlightOptions::with_max_in_flight(options, 6);
    let options = DynamicMaxChildrenOptions::with_max_children(options, 2);
    assert_eq!(options.mailbox_capacity(), 5);
    assert_eq!(options.max_in_flight(), 6);
    assert_eq!(options.max_children(), 2);
}

#[test]
fn custom_defaults_resolve() {
    let options: ActorOptions<Actor, DynamicMailboxCapacity<4>, NoMailbox, NoChildren> =
        ActorOptions::default();
    assert_eq!(options.mailbox_capacity(), 4);
    let copy = options.clone();
    assert_eq!(copy.mailbox_capacity(), 4);
}

#[test]
fn profiles_start_empty() {
    assert_eq!(Disabled::new(), Disabled);
    let mut serial = Serial::<Actor>::new();
    assert!(!serial.state().has_replies());
    assert!(serial.state().has_dispatch_capacity());
    let mut fixed = Fixed::<Actor, 3>::new();
    assert!(fixed.state().has_dispatch_capacity());
    let mut dynamic = Dynamic::<Actor>::new(2);
    assert!(dynamic.state().has_dispatch_capacity());
    let mut unbounded = Unbounded::<Actor>::new();
    assert!(unbounded.state().has_dispatch_capacity());
}

#[test]
fn a_serial_profile_admits_one_reply() {
    let mut serial = Serial::<Actor>::new();
    let state = serial.state();
    let _ = state.push();
    assert!(state.has_replies());
    assert!(!state.has_dispatch_capacity());
}

#[test]
fn a_dynamic_profile_admits_its_limit() {
    let mut dynamic = Dynamic::<Actor>::new(2);
    let state = dynamic.state();
    let _ = state.push();
    assert!(state.has_dispatch_capacity());
    let _ = state.push();
    assert!(!state.has_dispatch_capacity());
}

#[test]
fn options_are_copied_and_compared_by_their_settings() {
    let options = Dyn::default().with_mailbox_capacity(4);
    let copy = options;
    assert!(copy == options);
    assert!(options == Dyn::default().with_mailbox_capacity(4));
    assert!(options != Dyn::default());
    assert!(Dyn::default() == Dyn::default());
    assert!(Dyn::default().with_max_children(2) != Dyn::default().with_max_in_flight(2));
}
