//! Tests of whole sessions: the tick state machine driven through full
//! start-to-stop scenarios.

use clickr::action::ClickAction;
use clickr::config::{
    ClickMode, ColorGate, ConstantInterval, IntervalMode, LimitMode, MouseButton, RandomBounds,
    Rgb, SessionConfig,
};
use clickr::session::{
    initial_state, request_stop, start_session, tick, toggle_enabled, SessionState, TickInput,
    TickOutcome,
};

fn constant_config(milliseconds: u32) -> SessionConfig {
    SessionConfig {
        interval_mode: IntervalMode::Constant,
        constant_interval: ConstantInterval { hours: 0, minutes: 0, seconds: 0, milliseconds },
        random_interval: RandomBounds { min_ms: 0, max_ms: 0 },
        button: MouseButton::Left,
        click_mode: ClickMode::Single,
        limit_mode: LimitMode::Unlimited,
        color_gate: ColorGate { enabled: false, target: Rgb { r: 0, g: 0, b: 0 }, threshold: 0 },
    }
}

fn plain_input(elapsed_ms: u64) -> TickInput {
    TickInput { elapsed_ms, sampled_color: Rgb { r: 0, g: 0, b: 0 }, hold: false }
}

#[test]
fn initial_state_is_idle() {
    let s = initial_state();
    assert!(!s.enabled);
    assert_eq!(s.session_id, 0);
    assert!(!s.button_pressed);
    assert_eq!(s.total_clicks, 0);
}

#[test]
fn toggle_flips_only_enabled() {
    let mut s = initial_state();
    toggle_enabled(&mut s);
    assert!(s.enabled);
    assert_eq!(s.session_id, 0);
    toggle_enabled(&mut s);
    assert!(!s.enabled);
}

#[test]
fn start_session_resets_counters_and_bumps_id() {
    let mut s = SessionState { enabled: true, session_id: 7, button_pressed: true, total_clicks: 42 };
    let captured = start_session(&mut s);
    assert_eq!(captured, 8);
    assert_eq!(s.session_id, 8);
    assert_eq!(s.total_clicks, 0);
    assert!(!s.button_pressed);
    assert!(s.enabled);
}

#[test]
fn five_clicks_at_fifty_millis_then_stop() {
    // Constant 50 ms interval, a limit of five clicks, single click mode:
    // exactly five firings 50 ms apart, then the limit disables the
    // session with the counter at five.
    let mut config = constant_config(50);
    config.limit_mode = LimitMode::ClickCount(5);

    let mut s = initial_state();
    toggle_enabled(&mut s);
    let captured = start_session(&mut s);

    let mut fired = 0u32;
    let mut elapsed: u64 = 0;
    loop {
        let outcome = tick(&config, captured, &mut s, &plain_input(elapsed));
        match outcome {
            TickOutcome::Fire { action, wait_ms } => {
                assert_eq!(action, ClickAction::Click(MouseButton::Left));
                assert_eq!(wait_ms, 50);
                fired += 1;
                elapsed += wait_ms;
            }
            TickOutcome::LimitReached { release } => {
                // The press parity flips on every firing, whatever the
                // click mode, so five single clicks leave it set and the
                // stop asks for a release.
                assert!(release);
                break;
            }
            other => panic!("unexpected outcome {:?}", other),
        }
        assert!(fired <= 5);
    }
    assert_eq!(fired, 5);
    assert_eq!(s.total_clicks, 5);
    assert!(!s.enabled);
}

#[test]
fn toggle_mode_alternates_and_forced_release_is_uncounted() {
    // Zero constant interval, toggle mode: three firings leave the button
    // held; the stop path then force-releases without counting a click.
    let mut config = constant_config(0);
    config.click_mode = ClickMode::Toggle;

    let mut s = initial_state();
    toggle_enabled(&mut s);
    let captured = start_session(&mut s);

    let expected = [
        ClickAction::Press(MouseButton::Left),
        ClickAction::Release(MouseButton::Left),
        ClickAction::Press(MouseButton::Left),
    ];
    for (i, want) in expected.iter().enumerate() {
        let outcome = tick(&config, captured, &mut s, &plain_input(0));
        match outcome {
            TickOutcome::Fire { action, wait_ms } => {
                assert_eq!(action, *want);
                assert_eq!(wait_ms, 0);
            }
            other => panic!("unexpected outcome {:?}", other),
        }
        assert_eq!(s.button_pressed, i % 2 == 0);
    }
    assert!(s.button_pressed);
    assert_eq!(s.total_clicks, 3);

    toggle_enabled(&mut s);
    let release = request_stop(&mut s);
    assert!(release);
    assert!(!s.button_pressed);
    assert!(!s.enabled);
    assert_eq!(s.total_clicks, 3);
}

#[test]
fn near_black_pixel_fails_exact_gate() {
    // Gate on, target black, zero tolerance, sampled colour one blue step
    // away: the normalized distance is small but positive, so no firing —
    // the iteration only waits.
    let mut config = constant_config(10);
    config.color_gate =
        ColorGate { enabled: true, target: Rgb { r: 0, g: 0, b: 0 }, threshold: 0 };

    let mut s = initial_state();
    toggle_enabled(&mut s);
    let captured = start_session(&mut s);

    let inp = TickInput {
        elapsed_ms: 0,
        sampled_color: Rgb { r: 0, g: 0, b: 1 },
        hold: false,
    };
    let outcome = tick(&config, captured, &mut s, &inp);
    assert_eq!(outcome, TickOutcome::Skip { wait_ms: 10 });
    assert_eq!(s.total_clicks, 0);
    assert!(s.enabled);
}

#[test]
fn held_iteration_skips_but_keeps_ticking() {
    let config = constant_config(25);
    let mut s = initial_state();
    toggle_enabled(&mut s);
    let captured = start_session(&mut s);

    let inp = TickInput { elapsed_ms: 0, sampled_color: Rgb { r: 0, g: 0, b: 0 }, hold: true };
    assert_eq!(tick(&config, captured, &mut s, &inp), TickOutcome::Skip { wait_ms: 25 });
    assert_eq!(s.total_clicks, 0);
    assert_eq!(tick(&config, captured, &mut s, &plain_input(0)), TickOutcome::Fire {
        action: ClickAction::Click(MouseButton::Left),
        wait_ms: 25,
    });
    assert_eq!(s.total_clicks, 1);
}

#[test]
fn time_limit_blocks_actions_once_elapsed() {
    let mut config = constant_config(10);
    config.limit_mode = LimitMode::ElapsedMillis(1000);

    let mut s = initial_state();
    toggle_enabled(&mut s);
    let captured = start_session(&mut s);

    match tick(&config, captured, &mut s, &plain_input(999)) {
        TickOutcome::Fire { .. } => {}
        other => panic!("unexpected outcome {:?}", other),
    }
    assert_eq!(
        tick(&config, captured, &mut s, &plain_input(1000)),
        TickOutcome::LimitReached { release: true }
    );
    assert!(!s.enabled);
    assert!(!s.button_pressed);
    assert_eq!(s.total_clicks, 1);
}

#[test]
fn superseded_instance_does_nothing_after_waking() {
    // An old loop instance wakes mid-session after a newer session has
    // started: its captured id no longer matches, so it exits without
    // firing or touching the state.
    let config = constant_config(0);
    let mut s = initial_state();
    toggle_enabled(&mut s);
    let old_captured = start_session(&mut s);
    let new_captured = start_session(&mut s);
    assert_ne!(old_captured, new_captured);

    let before = s;
    assert_eq!(tick(&config, old_captured, &mut s, &plain_input(0)), TickOutcome::Stale);
    assert_eq!(s, before);

    match tick(&config, new_captured, &mut s, &plain_input(0)) {
        TickOutcome::Fire { .. } => {}
        other => panic!("unexpected outcome {:?}", other),
    }
    assert_eq!(s.total_clicks, 1);
}

#[test]
fn disabled_instance_is_stale() {
    let config = constant_config(0);
    let mut s = initial_state();
    toggle_enabled(&mut s);
    let captured = start_session(&mut s);
    toggle_enabled(&mut s);

    let before = s;
    assert_eq!(tick(&config, captured, &mut s, &plain_input(0)), TickOutcome::Stale);
    assert_eq!(s, before);
}

#[test]
fn random_interval_session_waits_within_bounds() {
    let mut config = constant_config(0);
    config.interval_mode = IntervalMode::Random;
    config.random_interval = RandomBounds { min_ms: 3, max_ms: 8 };

    let mut s = initial_state();
    toggle_enabled(&mut s);
    let captured = start_session(&mut s);

    for _ in 0..100 {
        match tick(&config, captured, &mut s, &plain_input(0)) {
            TickOutcome::Fire { wait_ms, .. } => assert!(3 <= wait_ms && wait_ms <= 8),
            other => panic!("unexpected outcome {:?}", other),
        }
    }
    assert_eq!(s.total_clicks, 100);
}
