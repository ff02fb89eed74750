use qos_core::controllers::display::{DisplayMachine, DisplayMode, DisplayState, DisplayTunables};

fn machine(now: u64) -> DisplayMachine {
    DisplayMachine::new(DisplayTunables::default(), now)
}

#[test]
fn display_tunables_default() {
    let t = DisplayTunables::default();
    assert_eq!(t.touch_idle_timeout_ms, 3000);
    assert_eq!(t.activity_throttle_ms, 200);
}

#[test]
fn display_mode_codes() {
    assert_eq!(DisplayMode::Low60Hz.code(), 0);
    assert_eq!(DisplayMode::High90Hz.code(), 1);
}

#[test]
fn touch_raises_refresh_rate() {
    let mut m = machine(0);
    assert_eq!(m.get_timeout_ms(), -1);
    assert_eq!(m.on_touch(1000, true), Some(DisplayMode::High90Hz));
    assert_eq!(m.state, DisplayState::Active);
    assert_eq!(m.current_mode, DisplayMode::High90Hz);
    assert_eq!(m.get_timeout_ms(), 3000);
    assert_eq!(m.on_touch(1500, true), None);
    assert_eq!(m.last_activity_ms, 1500);
}

#[test]
fn touch_is_throttled_after_a_switch() {
    let mut m = machine(1000);
    assert_eq!(m.on_touch(1100, true), None);
    assert_eq!(m.state, DisplayState::Idle);
    assert_eq!(m.on_touch(1200, true), Some(DisplayMode::High90Hz));
}

#[test]
fn touch_ignored_when_disabled() {
    let mut m = machine(0);
    assert_eq!(m.on_touch(5000, false), None);
    assert_eq!(m.state, DisplayState::Idle);
    assert_eq!(m.last_activity_ms, 5000);
}

#[test]
fn idle_timeout_lowers_refresh_rate() {
    let mut m = machine(0);
    m.on_touch(1000, true);
    assert_eq!(m.on_timeout(2000, true), None);
    assert_eq!(m.next_wake_ms, 2000);
    assert_eq!(m.get_timeout_ms(), 2000);
    assert_eq!(m.on_timeout(4000, true), Some(DisplayMode::Low60Hz));
    assert_eq!(m.state, DisplayState::Idle);
    assert_eq!(m.get_timeout_ms(), -1);
}

#[test]
fn timeout_does_nothing_when_idle_or_disabled() {
    let mut m = machine(0);
    assert_eq!(m.on_timeout(100_000, true), None);
    m.on_touch(1000, true);
    let before = m;
    assert_eq!(m.on_timeout(100_000, false), None);
    assert_eq!(m, before);
}

#[test]
fn transition_to_same_state_is_noop() {
    let mut m = machine(0);
    assert_eq!(m.transition_to(DisplayState::Idle, 10_000), None);
    assert_eq!(m.last_transition_ms, 0);
}
