use state_governor::state::{State, NAME_LEN, UNKNOWN_ID};
use state_governor::{Governor, GovernorError};

fn text(s: &State) -> String {
    s.name().iter().collect::<String>().trim().to_string()
}

#[test]
fn it_works() {
    assert_eq!(2 + 2, 4);
}

#[test]
fn new_state_keeps_id_and_name() {
    let s = State::new(0x1, "NEW");
    assert_eq!(s.id(), 0x1);
    assert_eq!(text(&s), "NEW");
    assert_eq!(s.name()[3], ' ');
    assert_eq!(s.name()[31], ' ');
}

#[test]
fn long_name_is_truncated() {
    let long = "ABCDEFGHIJKLMNOPQRSTUVWXYZ0123456789";
    let s = State::new(7, long);
    let full: String = s.name().iter().collect();
    assert_eq!(full, &long[..NAME_LEN]);
}

#[test]
fn empty_name_is_all_spaces() {
    let s = State::new(3, "");
    assert!(s.name().iter().all(|c| *c == ' '));
    assert_eq!(text(&s), "");
}

#[test]
fn unknown_state_is_sentinel() {
    let s = State::unknown();
    assert_eq!(s.id(), 0xFF);
    assert_eq!(s.id(), UNKNOWN_ID);
    assert_eq!(text(&s), "UNKNOWN");
    assert!(s == State::new(0xFF, "UNKNOWN"));
}

#[test]
fn state_equality_needs_id_and_name() {
    let s1 = State::new(0, "RUN");
    let s2 = State::new(0, "RUN");
    let s3 = State::new(0, "TEST");
    let s4 = State::new(1, "RUN");
    assert!(s1 == s2);
    assert!(s1 != s3);
    assert!(s1 != s4);
    assert_eq!(s1.name(), s2.name());
}

#[test]
fn register_then_transition_makes_current() {
    let mut g = Governor::<3>::new();
    assert!(g.add_state(State::new(0x1, "NEW")));
    assert!(g.change_state_to(0x1));
    assert_eq!(g.get_current_state().id(), 0x1);
    assert_eq!(text(&g.get_current_state()), "NEW");
}

#[test]
fn register_duplicate_id_fails() {
    let mut g = Governor::<3>::new();
    assert!(g.add_state(State::new(4, "A")));
    assert!(!g.add_state(State::new(4, "B")));
    assert_eq!(g.register(State::new(4, "C")), Err(GovernorError::DuplicateId));
    assert_eq!(g.get_current_state().id(), UNKNOWN_ID);
    assert_eq!(g.get_previous_state().id(), UNKNOWN_ID);
    assert!(g.change_state_to(4));
    assert_eq!(text(&g.get_current_state()), "A");
}

#[test]
fn register_beyond_capacity_fails() {
    let mut g = Governor::<2>::new();
    assert!(g.add_state(State::new(0, "A")));
    assert_eq!(g.register(State::new(1, "B")), Ok(()));
    assert_eq!(g.register(State::new(2, "C")), Err(GovernorError::CapacityExceeded));
    assert!(!g.add_state(State::new(3, "D")));
    assert_eq!(g.register(State::new(1, "E")), Err(GovernorError::DuplicateId));
    assert!(!g.change_state_to(2));
    assert!(g.change_state_to(1));
}

#[test]
fn zero_capacity_holds_nothing() {
    let mut g = Governor::<0>::new();
    assert_eq!(g.register(State::new(0, "A")), Err(GovernorError::CapacityExceeded));
    assert!(!g.change_state_to(0));
}

#[test]
fn transition_to_unknown_id_fails() {
    let mut g = Governor::<3>::new();
    g.add_state(State::new(0x1, "NEW"));
    assert!(!g.change_state_to(0x2));
    assert_eq!(g.try_change_state_to(0x2), Err(GovernorError::UnknownId));
    assert!(g.get_current_state() == State::unknown());
    assert!(g.get_previous_state() == State::unknown());
}

#[test]
fn sentinel_before_any_transition() {
    let mut g = Governor::<3>::new();
    assert_eq!(g.get_current_state().id(), 255);
    assert_eq!(text(&g.get_current_state()), "UNKNOWN");
    g.add_state(State::new(0, "IDLE"));
    g.change_state_to(5);
    assert_eq!(g.get_current_state().id(), 255);
    assert_eq!(text(&g.get_current_state()), "UNKNOWN");
    let d = Governor::<3>::default();
    assert!(d.get_previous_state() == State::unknown());
}

#[test]
fn vetoing_guard_blocks_every_transition() {
    let mut g = Governor::<3>::new();
    g.add_state(State::new(0, "IDLE"));
    g.add_state(State::new(1, "RUN"));
    assert!(g.change_state_to(0));
    g.set_state_transition_func(|_, _| false);
    assert!(!g.change_state_to(1));
    assert!(!g.change_state_to(0));
    assert!(!g.change_state_to(9));
    assert_eq!(g.try_change_state_to(1), Err(GovernorError::TransitionRejected));
    assert_eq!(g.try_change_state_to(9), Err(GovernorError::UnknownId));
    assert_eq!(g.get_current_state().id(), 0);
    assert_eq!(g.get_previous_state().id(), UNKNOWN_ID);
}

#[test]
fn distinct_guard_rejects_self_transition() {
    let mut g = Governor::<3>::new();
    g.add_state(State::new(1, "NEW"));
    g.add_state(State::new(2, "OLD"));
    assert!(g.change_state_to(1));
    g.set_state_transition_func(|current, candidate| candidate.id() != current.id());
    assert!(!g.change_state_to(1));
    assert_eq!(g.get_current_state().id(), 1);
    assert_eq!(g.get_previous_state().id(), UNKNOWN_ID);
    assert!(g.change_state_to(2));
    assert_eq!(g.get_current_state().id(), 2);
    assert_eq!(g.get_previous_state().id(), 1);
}

#[test]
fn guard_sees_current_and_candidate() {
    fn on_transition(current: State, candidate: State) -> bool {
        current.id() == 0x1 && candidate.id() == 0x2
    }
    let mut g = Governor::<3>::new();
    g.add_state(State::new(0x1, "NEW"));
    g.add_state(State::new(0x2, "OLD"));
    assert!(g.change_state_to(0x1));
    g.set_state_transition_func(on_transition);
    assert!(g.change_state_to(0x2));
    assert!(!g.change_state_to(0x1));
}

#[test]
fn self_transition_without_guard_updates_previous() {
    let mut g = Governor::<3>::new();
    g.add_state(State::new(0, "IDLE"));
    assert!(g.change_state_to(0));
    assert!(g.change_state_to(0));
    assert!(g.get_previous_state() == State::new(0, "IDLE"));
    assert!(g.get_current_state() == State::new(0, "IDLE"));
}

#[test]
fn idle_run_finish_scenario() {
    let mut g = Governor::<3>::new();
    assert!(g.add_state(State::new(0, "IDLE")));
    assert!(g.add_state(State::new(1, "RUN")));
    assert!(g.add_state(State::new(2, "FINISH")));
    assert!(g.change_state_to(1));
    assert!(g.get_current_state() == State::new(1, "RUN"));
    assert!(g.get_previous_state() == State::unknown());
    assert!(g.change_state_to(2));
    assert!(g.get_current_state() == State::new(2, "FINISH"));
    assert!(g.get_previous_state() == State::new(1, "RUN"));
    assert!(!g.change_state_to(9));
    assert!(g.get_current_state() == State::new(2, "FINISH"));
}
