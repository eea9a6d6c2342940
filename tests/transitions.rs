use traffic_light::{
    ActorId, IdentityError, IdentityGate, IoTrafficLightState, LightColor, TrafficLightEvent,
    TrafficLightService, TrafficLightState, Transition,
};

fn actor(n: u8) -> ActorId {
    ActorId::new([n; 32])
}

fn alias(s: &str) -> String {
    s.to_string()
}

fn service_with(aliases: &[(&str, u8)]) -> TrafficLightService {
    let mut svc = TrafficLightService::new();
    for (name, n) in aliases {
        svc.register(alias(name), actor(*n));
    }
    svc
}

#[test]
fn fresh_state_is_empty() {
    let svc = TrafficLightService::new();
    let st = svc.state_ref();
    assert_eq!(st.current_light, None);
    assert_eq!(st.balance, 0);
    assert!(st.publications.is_empty());
    assert_eq!(st.user_light(&actor(1)), None);
    let snap = svc.traffic_light();
    assert!(snap.all_users.is_empty());
}

#[test]
fn orange_then_red_by_alice() {
    let mut svc = service_with(&[("alice", 1)]);
    let a = actor(1);
    let r = svc.orange(a, &alias("alice"), alias("hello"));
    assert_eq!(r, TrafficLightEvent::Orange);
    assert_eq!(svc.state_ref().publications, vec![alias("hello")]);
    assert_eq!(svc.state_ref().user_light(&a), Some(LightColor::Orange));
    assert_eq!(svc.state_ref().current_light, Some(LightColor::Orange));
    let r = svc.red(a, &alias("alice"), 0);
    assert_eq!(r, TrafficLightEvent::Red);
    assert!(svc.state_ref().publications.is_empty());
    assert_eq!(svc.state_ref().user_light(&a), Some(LightColor::Red));
}

#[test]
fn unknown_alias_is_refused() {
    let mut svc = service_with(&[("alice", 1)]);
    svc.green(actor(1), &alias("alice"));
    let r = svc.green(actor(2), &alias("bob"));
    assert_eq!(r, TrafficLightEvent::Error(IdentityError::UnknownAlias));
    assert_eq!(svc.state_ref().balance, 100);
    assert_eq!(svc.state_ref().user_light(&actor(2)), None);
    assert_eq!(svc.traffic_light().all_users, vec![(actor(1), LightColor::Green)]);
}

#[test]
fn address_mismatch_changes_nothing() {
    let mut svc = service_with(&[("alice", 1)]);
    svc.orange(actor(1), &alias("alice"), alias("first"));
    let before_light = svc.state_ref().current_light;
    for r in [
        svc.green(actor(2), &alias("alice")),
        svc.yellow(actor(2), &alias("alice")),
        svc.red(actor(2), &alias("alice"), 0),
        svc.orange(actor(2), &alias("alice"), alias("second")),
    ] {
        assert_eq!(r, TrafficLightEvent::Error(IdentityError::AddressMismatch));
    }
    let st = svc.state_ref();
    assert_eq!(st.current_light, before_light);
    assert_eq!(st.balance, 0);
    assert_eq!(st.publications, vec![alias("first")]);
    assert_eq!(st.user_light(&actor(2)), None);
    assert_eq!(st.user_light(&actor(1)), Some(LightColor::Orange));
}

#[test]
fn last_writer_sets_the_light() {
    let mut svc = service_with(&[("alice", 1), ("bob", 2)]);
    svc.green(actor(1), &alias("alice"));
    assert_eq!(svc.state_ref().current_light, Some(LightColor::Green));
    svc.yellow(actor(2), &alias("bob"));
    assert_eq!(svc.state_ref().current_light, Some(LightColor::Yellow));
    svc.red(actor(1), &alias("alice"), 5);
    assert_eq!(svc.state_ref().current_light, Some(LightColor::Red));
    assert_eq!(svc.state_ref().user_light(&actor(1)), Some(LightColor::Red));
    assert_eq!(svc.state_ref().user_light(&actor(2)), Some(LightColor::Yellow));
}

#[test]
fn yellow_on_zero_balance_stays_zero() {
    let mut svc = service_with(&[("alice", 1)]);
    let r = svc.yellow(actor(1), &alias("alice"));
    assert_eq!(r, TrafficLightEvent::Yellow);
    assert_eq!(svc.state_ref().balance, 0);
}

#[test]
fn yellow_takes_a_tenth_rounding_down() {
    let mut svc = service_with(&[("alice", 1)]);
    svc.green(actor(1), &alias("alice"));
    svc.yellow(actor(1), &alias("alice"));
    assert_eq!(svc.state_ref().balance, 90);
    svc.yellow(actor(1), &alias("alice"));
    assert_eq!(svc.state_ref().balance, 81);
    svc.yellow(actor(1), &alias("alice"));
    assert_eq!(svc.state_ref().balance, 72);
    svc.green(actor(1), &alias("alice"));
    svc.yellow(actor(1), &alias("alice"));
    assert_eq!(svc.state_ref().balance, 154);
}

#[test]
fn yellow_on_largest_balance() {
    let mut st = TrafficLightState::new();
    st.register(alias("alice"), actor(1));
    st.balance = u64::MAX;
    st.process_event(actor(1), &alias("alice"), Transition::Yellow);
    assert_eq!(st.balance, 16602069666338596453);
}

#[test]
fn two_greens_add_two_hundred() {
    let mut svc = service_with(&[("alice", 1)]);
    svc.green(actor(1), &alias("alice"));
    svc.yellow(actor(1), &alias("alice"));
    let before = svc.state_ref().balance;
    assert_eq!(svc.green(actor(1), &alias("alice")), TrafficLightEvent::Green);
    assert_eq!(svc.green(actor(1), &alias("alice")), TrafficLightEvent::Green);
    assert_eq!(svc.state_ref().balance, before + 200);
    assert_eq!(svc.state_ref().user_light(&actor(1)), Some(LightColor::Green));
}

#[test]
fn red_one_past_the_end_removes_nothing() {
    let mut svc = service_with(&[("alice", 1)]);
    svc.orange(actor(1), &alias("alice"), alias("a"));
    svc.orange(actor(1), &alias("alice"), alias("b"));
    let r = svc.red(actor(1), &alias("alice"), 2);
    assert_eq!(r, TrafficLightEvent::Red);
    assert_eq!(svc.state_ref().publications, vec![alias("a"), alias("b")]);
    assert_eq!(svc.state_ref().current_light, Some(LightColor::Red));
}

#[test]
fn red_on_empty_publications() {
    let mut svc = service_with(&[("alice", 1)]);
    let r = svc.red(actor(1), &alias("alice"), 0);
    assert_eq!(r, TrafficLightEvent::Red);
    assert!(svc.state_ref().publications.is_empty());
}

#[test]
fn red_removes_by_position() {
    let mut svc = service_with(&[("alice", 1)]);
    for p in ["a", "b", "c"] {
        svc.orange(actor(1), &alias("alice"), alias(p));
    }
    svc.red(actor(1), &alias("alice"), 1);
    assert_eq!(svc.state_ref().publications, vec![alias("a"), alias("c")]);
    svc.red(actor(1), &alias("alice"), 1);
    assert_eq!(svc.state_ref().publications, vec![alias("a")]);
}

#[test]
fn later_registration_replaces_earlier() {
    let mut gate = IdentityGate::new();
    gate.register(alias("alice"), actor(1));
    assert_eq!(gate.check(&actor(1), &alias("alice")), Ok(()));
    gate.register(alias("alice"), actor(2));
    assert_eq!(gate.lookup(&alias("alice")), Some(actor(2)));
    assert_eq!(
        gate.check(&actor(1), &alias("alice")),
        Err(IdentityError::AddressMismatch)
    );
    assert_eq!(gate.check(&actor(2), &alias("alice")), Ok(()));
    assert_eq!(
        gate.check(&actor(2), &alias("carol")),
        Err(IdentityError::UnknownAlias)
    );
}

#[test]
fn actor_ids_compare_by_every_byte() {
    let a = actor(7);
    let mut bytes = [7u8; 32];
    bytes[31] = 8;
    let b = ActorId::new(bytes);
    assert!(a.same_as(&actor(7)));
    assert!(!a.same_as(&b));
    assert!(a != b);
}

#[test]
fn snapshot_lists_each_caller_once() {
    let mut svc = service_with(&[("alice", 1), ("bob", 2)]);
    svc.green(actor(1), &alias("alice"));
    svc.orange(actor(2), &alias("bob"), alias("x"));
    svc.yellow(actor(1), &alias("alice"));
    let snap: IoTrafficLightState = svc.traffic_light();
    assert_eq!(snap.current_light, Some(LightColor::Yellow));
    assert_eq!(snap.balance, 90);
    let mut users = snap.all_users.clone();
    users.sort_by_key(|(a, _)| a.bytes);
    assert_eq!(
        users,
        vec![(actor(1), LightColor::Yellow), (actor(2), LightColor::Orange)]
    );
}

#[test]
fn seed_resets_everything() {
    let mut svc = service_with(&[("alice", 1)]);
    svc.green(actor(1), &alias("alice"));
    svc.orange(actor(1), &alias("alice"), alias("x"));
    svc.seed();
    let st = svc.state_ref();
    assert_eq!(st.current_light, None);
    assert_eq!(st.balance, 0);
    assert!(st.publications.is_empty());
    assert_eq!(st.user_light(&actor(1)), None);
    assert_eq!(
        svc.traffic_light().all_users,
        Vec::<(ActorId, LightColor)>::new()
    );
    let mut svc = svc;
    assert_eq!(
        svc.green(actor(1), &alias("alice")),
        TrafficLightEvent::Error(IdentityError::UnknownAlias)
    );
}

#[test]
fn transition_colors() {
    assert_eq!(Transition::Green.color(), LightColor::Green);
    assert_eq!(Transition::Yellow.color(), LightColor::Yellow);
    assert_eq!(Transition::Red(3).color(), LightColor::Red);
    assert_eq!(Transition::Orange(alias("p")).color(), LightColor::Orange);
    assert_eq!(TrafficLightEvent::of_color(LightColor::Red), TrafficLightEvent::Red);
}
