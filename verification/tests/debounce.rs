use evdebounce::codec::{RawEvent, Timestamp};
use evdebounce::debounce::{
    ButtonState, DebounceConfig, Debouncer, LogicalEvent, RawTransition, BTN_SIDE, DEBOUNCE_MS,
};

fn press(time_ms: i64) -> RawTransition {
    RawTransition { press_like: true, time_ms }
}

fn release(time_ms: i64) -> RawTransition {
    RawTransition { press_like: false, time_ms }
}

fn engine() -> Debouncer {
    Debouncer::new(DebounceConfig::default())
}

fn raw(code: u16, value: i32) -> RawEvent {
    RawEvent { time: Timestamp { seconds: 0, microseconds: 0 }, event_type: 1, code, value }
}

#[test]
fn new_state_is_released_with_nothing_pending() {
    let s = ButtonState::new();
    assert!(s.last_is_released);
    assert_eq!(s.last_time_ms, 0);
    assert!(!s.sent_press);
    assert!(s.sent_release);
}

#[test]
fn default_config_watches_the_side_button_for_fifty_ms() {
    assert_eq!(DEBOUNCE_MS, 50);
    assert_eq!(BTN_SIDE, 0x113);
    let config = DebounceConfig::default();
    assert_eq!(config.debounce_ms, 50);
    assert_eq!(config.watched_code, 0x113);
}

#[test]
fn new_engine_starts_from_the_initial_state() {
    let config = DebounceConfig { debounce_ms: 20, watched_code: 0x110 };
    let d = Debouncer::new(config);
    assert_eq!(d.config, config);
    assert_eq!(d.state, ButtonState::new());
}

#[test]
fn from_value_classifies_zero_as_release() {
    assert_eq!(RawTransition::from_value(0, 5), release(5));
    assert_eq!(RawTransition::from_value(1, 5), press(5));
    assert_eq!(RawTransition::from_value(2, -5), press(-5));
    assert_eq!(RawTransition::from_value(-1, 0), press(0));
    assert_eq!(RawTransition::from_value(i32::MIN, i64::MAX), press(i64::MAX));
}

#[test]
fn scenario_press_noise_noise_release() {
    let mut d = engine();
    assert_eq!(d.handle_transition(press(0)), Some(LogicalEvent::Press));
    assert_eq!(
        d.state,
        ButtonState { last_is_released: false, last_time_ms: 0, sent_press: true, sent_release: false }
    );
    assert_eq!(d.handle_transition(press(10)), None);
    assert_eq!(d.state.last_time_ms, 0);
    assert_eq!(d.handle_transition(press(40)), None);
    assert_eq!(d.state.last_time_ms, 0);
    assert_eq!(d.handle_transition(release(60)), Some(LogicalEvent::Release));
    assert_eq!(
        d.state,
        ButtonState { last_is_released: true, last_time_ms: 60, sent_press: false, sent_release: true }
    );
}

#[test]
fn scenario_release_while_released_is_no_event() {
    let mut d = engine();
    assert!(d.state.sent_release);
    assert_eq!(d.handle_transition(release(0)), None);
    assert_eq!(d.state, ButtonState::new());
}

#[test]
fn first_press_passes_whatever_its_time() {
    for t in [0, 1, 49, 50, 51, -1, -1_000_000, i64::MIN, i64::MAX, 1_700_000_000_000] {
        for window in [0, 1, 50, -50, i64::MIN, i64::MAX] {
            let mut s = ButtonState::new();
            assert_eq!(s.apply(press(t), window), Some(LogicalEvent::Press));
            assert_eq!(
                s,
                ButtonState {
                    last_is_released: false,
                    last_time_ms: t,
                    sent_press: true,
                    sent_release: false
                }
            );
        }
    }
}

#[test]
fn first_release_surfaces_nothing_whatever_its_time() {
    for t in [0, 49, 50, 1_000, -1, i64::MIN, i64::MAX] {
        let mut s = ButtonState::new();
        assert_eq!(s.apply(release(t), 50), None);
        assert!(!s.sent_press);
        assert!(s.sent_release);
    }
}

#[test]
fn press_burst_within_window_emits_once_and_keeps_the_state() {
    let mut d = engine();
    assert_eq!(d.handle_transition(press(1_000)), Some(LogicalEvent::Press));
    let after_first = d.state;
    for t in 1_001..1_050 {
        assert_eq!(d.handle_transition(press(t)), None);
        assert_eq!(d.state, after_first);
    }
}

#[test]
fn press_burst_on_an_open_press_emits_nothing() {
    let mut s =
        ButtonState { last_is_released: false, last_time_ms: 500, sent_press: true, sent_release: false };
    let before = s;
    for t in [500, 510, 549] {
        assert_eq!(s.apply(press(t), 50), None);
        assert_eq!(s, before);
    }
}

#[test]
fn accepted_repeat_extends_the_window_without_an_event() {
    let mut d = engine();
    assert_eq!(d.handle_transition(press(0)), Some(LogicalEvent::Press));
    assert_eq!(d.handle_transition(press(50)), None);
    assert_eq!(d.state.last_time_ms, 50);
    assert_eq!(d.handle_transition(press(99)), None);
    assert_eq!(d.state.last_time_ms, 50);
    assert_eq!(d.handle_transition(press(100)), None);
    assert_eq!(d.state.last_time_ms, 100);
    assert!(d.state.sent_press);
    assert!(!d.state.sent_release);
    assert!(!d.state.last_is_released);
}

#[test]
fn accepted_release_repeat_updates_only_the_time() {
    let mut d = engine();
    assert_eq!(d.handle_transition(release(49)), None);
    assert_eq!(d.state.last_time_ms, 0);
    assert_eq!(d.handle_transition(release(50)), None);
    assert_eq!(
        d.state,
        ButtonState { last_is_released: true, last_time_ms: 50, sent_press: false, sent_release: true }
    );
}

#[test]
fn state_change_within_the_window_is_surfaced() {
    let mut d = engine();
    assert_eq!(d.handle_transition(press(0)), Some(LogicalEvent::Press));
    assert_eq!(d.handle_transition(release(5)), Some(LogicalEvent::Release));
    assert_eq!(d.state.last_time_ms, 5);
    assert_eq!(d.handle_transition(press(6)), Some(LogicalEvent::Press));
    assert_eq!(d.state.last_time_ms, 6);
}

#[test]
fn flags_never_agree_along_a_long_run() {
    let mut d = engine();
    let mut seed: u32 = 12345;
    let mut t: i64 = 0;
    let mut open = false;
    for _ in 0..2_000 {
        seed = seed.wrapping_mul(1_664_525).wrapping_add(1_013_904_223);
        let is_press = (seed >> 16) & 1 == 1;
        t += ((seed >> 20) % 90) as i64;
        let emitted = d.handle_transition(RawTransition { press_like: is_press, time_ms: t });
        assert_ne!(d.state.sent_press, d.state.sent_release);
        assert_eq!(d.state.last_is_released, d.state.sent_release);
        let expected = if is_press && !open {
            Some(LogicalEvent::Press)
        } else if !is_press && open {
            Some(LogicalEvent::Release)
        } else {
            None
        };
        assert_eq!(emitted, expected);
        open = is_press;
    }
}

#[test]
fn extreme_times_do_not_overflow() {
    let mut s = ButtonState::new();
    assert_eq!(s.apply(press(i64::MIN), 50), Some(LogicalEvent::Press));
    assert_eq!(s.apply(press(i64::MAX), 50), None);
    assert_eq!(s.last_time_ms, i64::MAX);
    assert_eq!(s.apply(press(i64::MIN), 50), None);
    assert_eq!(s.last_time_ms, i64::MAX);
    assert_eq!(s.apply(press(i64::MIN), i64::MIN), None);
    assert_eq!(s.last_time_ms, i64::MAX);
    assert_eq!(s.apply(press(0), i64::MIN), None);
    assert_eq!(s.last_time_ms, 0);
    assert!(s.is_silent(i64::MAX, i64::MAX - 1));
    assert!(!s.is_silent(i64::MAX, i64::MAX));
    assert!(!s.is_silent(i64::MIN, i64::MIN));
    s.last_time_ms = i64::MIN;
    assert!(s.is_silent(i64::MAX, i64::MAX));
}

#[test]
fn time_running_backwards_counts_as_within_the_window() {
    let mut d = engine();
    assert_eq!(d.handle_transition(press(1_000)), Some(LogicalEvent::Press));
    assert_eq!(d.handle_transition(press(10)), None);
    assert_eq!(d.state.last_time_ms, 1_000);
}

#[test]
fn silence_timeout_needs_an_open_press_and_more_than_the_window() {
    let mut d = engine();
    assert!(!d.silence_timeout(1_000_000));
    assert_eq!(d.handle_transition(press(100)), Some(LogicalEvent::Press));
    assert!(!d.silence_timeout(100));
    assert!(!d.silence_timeout(149));
    assert!(!d.silence_timeout(150));
    assert!(d.silence_timeout(151));
    assert!(d.silence_timeout(1_000_000));
    assert_eq!(d.handle_transition(release(200)), Some(LogicalEvent::Release));
    assert!(!d.silence_timeout(1_000_000));
}

#[test]
fn is_silent_formula() {
    let s = ButtonState { last_is_released: false, last_time_ms: 7, sent_press: true, sent_release: false };
    assert!(!s.is_silent(17, 10));
    assert!(s.is_silent(18, 10));
    assert!(s.is_silent(7, -1));
    assert!(!s.is_silent(7, 0));
}

#[test]
fn events_for_other_controls_are_ignored() {
    let mut d = engine();
    assert_eq!(d.handle_event(&raw(0x110, 1), 0), None);
    assert_eq!(d.state, ButtonState::new());
    assert_eq!(d.handle_event(&raw(0x114, 1), 1_000), None);
    assert_eq!(d.state, ButtonState::new());
    assert_eq!(d.handle_event(&raw(0x113, 1), 2_000), Some(LogicalEvent::Press));
    assert_eq!(d.handle_event(&raw(0, 0), 3_000), None);
    assert!(d.state.sent_press);
    assert_eq!(d.state.last_time_ms, 2_000);
    assert_eq!(d.handle_event(&raw(0x113, 0), 3_000), Some(LogicalEvent::Release));
}

#[test]
fn handle_event_routes_by_the_configured_code() {
    let mut d = Debouncer::new(DebounceConfig { debounce_ms: 10, watched_code: 0x110 });
    assert_eq!(d.handle_event(&raw(0x113, 1), 0), None);
    assert_eq!(d.handle_event(&raw(0x110, 2), 0), Some(LogicalEvent::Press));
    assert_eq!(d.handle_event(&raw(0x110, 2), 9), None);
    assert_eq!(d.state.last_time_ms, 0);
    assert_eq!(d.handle_event(&raw(0x110, 2), 10), None);
    assert_eq!(d.state.last_time_ms, 10);
    assert_eq!(d.config, DebounceConfig { debounce_ms: 10, watched_code: 0x110 });
}
