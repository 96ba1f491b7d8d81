//! The session state machine: shared state, session start and stop, and
//! the decision one loop iteration makes.
//!
//! A session is one run of the automation loop, from enable to disable or
//! self-termination. The loop itself lives with the collaborator, because
//! each iteration ends in a blocking sleep and may inject pointer input;
//! the decisions are all made here, in [`tick`]. The collaborator holds
//! the state behind one mutual-exclusion lock, acquires it for single
//! accesses only, calls [`tick`] under the lock, and then performs the
//! returned action, sleeps the returned wait, or exits the loop, outside
//! the lock.
//!
//! Cancellation is cooperative. Disabling, or starting a newer session
//! (which bumps `session_id`), is observed by a running loop instance at
//! the top of its next iteration, never mid-sleep; a superseded instance
//! exits silently without touching the state again.

use vstd::prelude::*;

use crate::action::ClickAction;
use crate::action::action_for;
use crate::action::select_action;
use crate::config::SessionConfig;
use crate::config::Rgb;
use crate::gate::gate_allows;
use crate::gate::gate_decision;
use crate::interval::next_wait_ms;
use crate::interval::wait_lower_ms;
use crate::interval::wait_upper_ms;
use crate::limit::limit_reached;
use crate::limit::limit_says_stop;

verus! {

/// The mutable record shared between the control surface, the hotkey
/// listener and the automation loop. The clock (`start_time` in wall
/// time) stays with the collaborator; the loop receives elapsed time as
/// an observation.
#[derive(Clone, Copy, Debug, PartialEq, Eq, Structural)]
pub struct SessionState {
    /// Requested run state: set by the control surface and the hotkey,
    /// cleared by either of them or by the loop on self-termination.
    pub enabled: bool,
    /// Bumped on every session start; a loop instance that observes a
    /// different value than the one it captured is superseded and exits.
    pub session_id: u32,
    /// Press parity, meaningful in toggle click mode: `true` exactly
    /// between a press firing and the next release, forced or not.
    pub button_pressed: bool,
    /// Clicks performed by the current session; reset exactly once, at
    /// session start, and never decreasing within the session.
    pub total_clicks: u32,
}

/// What the collaborator observed for one iteration: the clock and the
/// gate inputs.
#[derive(Clone, Copy, Debug, PartialEq, Eq, Structural)]
pub struct TickInput {
    /// Milliseconds elapsed since the session started.
    pub elapsed_ms: u64,
    /// The last successfully sampled pixel colour under the pointer. When
    /// a sample fails, the collaborator passes the previous successful
    /// one unchanged; sampling failure is never fatal.
    pub sampled_color: Rgb,
    /// The configurable hold predicate, already evaluated: `true` means
    /// this iteration must not fire (a typical predicate holds while the
    /// application window is focused).
    pub hold: bool,
}

/// What one iteration decided.
#[derive(Clone, Copy, Debug, PartialEq, Eq, Structural)]
pub enum TickOutcome {
    /// The session was disabled or superseded: exit the loop, touch
    /// nothing — in particular do not release the button, a newer session
    /// owns it.
    Stale,
    /// The limit policy ended the session: the state is disabled, and the
    /// loop exits after releasing the button if `release` says it was
    /// held.
    LimitReached { release: bool },
    /// Gated out: no action this iteration, but still wait `wait_ms`
    /// before the next one, preserving the tick rate.
    Skip { wait_ms: u64 },
    /// Perform `action`, then wait `wait_ms` before the next iteration.
    Fire { action: ClickAction, wait_ms: u64 },
}

/// A loop instance holding `captured_id` is stale when the session was
/// disabled or a newer session has taken over.
pub open spec fn is_stale(captured_id: u32, s: SessionState) -> bool {
    !s.enabled || captured_id != s.session_id
}

/// Whether an iteration fires: the instance is current, the limit is not
/// reached — checked strictly first, so an exhausted session never
/// performs one extra action — and the firing condition holds.
pub open spec fn fires(config: SessionConfig, captured_id: u32, s: SessionState, inp: TickInput) -> bool {
    &&& !is_stale(captured_id, s)
    &&& !limit_reached(config.limit_mode, s.total_clicks, inp.elapsed_ms)
    &&& gate_allows(config.color_gate, inp.sampled_color, inp.hold)
}

/// The state after one iteration: unchanged for a stale instance and for
/// a gated-out iteration; disabled with the button released when the
/// limit ends the session; press parity flipped and the click counted on
/// a firing.
pub open spec fn step_state(config: SessionConfig, captured_id: u32, s: SessionState, inp: TickInput) -> SessionState {
    if is_stale(captured_id, s) {
        s
    } else if limit_reached(config.limit_mode, s.total_clicks, inp.elapsed_ms) {
        SessionState { enabled: false, button_pressed: false, ..s }
    } else if !gate_allows(config.color_gate, inp.sampled_color, inp.hold) {
        s
    } else {
        SessionState {
            button_pressed: !s.button_pressed,
            total_clicks: (s.total_clicks + 1) as u32,
            ..s
        }
    }
}

/// The state the application starts in: idle, fresh counters.
pub fn initial_state() -> (s: SessionState)
    ensures
        s == (SessionState {
            enabled: false,
            session_id: 0,
            button_pressed: false,
            total_clicks: 0,
        }),
{
    SessionState { enabled: false, session_id: 0, button_pressed: false, total_clicks: 0 }
}

/// Flip the requested run state, as the control-surface toggle and the
/// global hotkey do. Everything else is left to the loop and supervisor.
pub fn toggle_enabled(s: &mut SessionState)
    ensures
        final(s).enabled == !old(s).enabled,
        final(s).session_id == old(s).session_id,
        final(s).button_pressed == old(s).button_pressed,
        final(s).total_clicks == old(s).total_clicks,
{
    s.enabled = !s.enabled;
}

/// Enter a session: reset the click counter and press parity, bump the
/// session id — superseding any loop instance still holding the old id —
/// and return the new id for the starting instance to capture. The
/// collaborator records the session's wall-clock start time alongside.
pub fn start_session(s: &mut SessionState) -> (captured_id: u32)
    requires
        old(s).session_id < u32::MAX,
    ensures
        final(s).enabled == old(s).enabled,
        final(s).session_id == old(s).session_id + 1,
        final(s).button_pressed == false,
        final(s).total_clicks == 0,
        captured_id == final(s).session_id,
{
    s.total_clicks = 0;
    s.button_pressed = false;
    s.session_id = s.session_id + 1;
    s.session_id
}

/// Stop the session from outside the loop, as the control surface does
/// when it observes the disable: clear the run state and the press
/// parity, and report whether the button was held and must now be
/// force-released. The forced release is not a counted click.
pub fn request_stop(s: &mut SessionState) -> (release: bool)
    ensures
        final(s).enabled == false,
        final(s).session_id == old(s).session_id,
        final(s).button_pressed == false,
        final(s).total_clicks == old(s).total_clicks,
        release == old(s).button_pressed,
{
    let release = s.button_pressed;
    s.enabled = false;
    s.button_pressed = false;
    release
}

/// One iteration of the automation loop, for the instance that captured
/// `captured_id` at session start. In order: exit if stale; exit,
/// disabling and asking for a release, if the limit is reached; skip
/// when the firing condition does not hold; otherwise flip the press
/// parity, count the
/// click and fire. Skipping and firing both return the wait before the
/// next iteration, drawn by the interval policy.
pub fn tick(config: &SessionConfig, captured_id: u32, s: &mut SessionState, inp: &TickInput) -> (outcome: TickOutcome)
    requires
        config.wf(),
        old(s).total_clicks < u32::MAX,
    ensures
        *final(s) == step_state(*config, captured_id, *old(s), *inp),
        (outcome is Stale) == is_stale(captured_id, *old(s)),
        (outcome is LimitReached) == (!is_stale(captured_id, *old(s)) && limit_reached(
            config.limit_mode,
            old(s).total_clicks,
            inp.elapsed_ms,
        )),
        (outcome is Fire) == fires(*config, captured_id, *old(s), *inp),
        outcome matches TickOutcome::LimitReached { release } ==> release == old(
            s,
        ).button_pressed,
        outcome matches TickOutcome::Fire { action, wait_ms } ==> {
            &&& action == action_for(config.click_mode, config.button, !old(s).button_pressed)
            &&& wait_lower_ms(*config) <= wait_ms <= wait_upper_ms(*config)
        },
        outcome matches TickOutcome::Skip { wait_ms } ==> wait_lower_ms(*config) <= wait_ms
            <= wait_upper_ms(*config),
{
    if !s.enabled || captured_id != s.session_id {
        return TickOutcome::Stale;
    }
    if limit_says_stop(&config.limit_mode, s.total_clicks, inp.elapsed_ms) {
        let release = s.button_pressed;
        s.enabled = false;
        s.button_pressed = false;
        return TickOutcome::LimitReached { release };
    }
    if !gate_decision(&config.color_gate, inp.sampled_color, inp.hold) {
        let wait_ms = next_wait_ms(config);
        return TickOutcome::Skip { wait_ms };
    }
    s.button_pressed = !s.button_pressed;
    let action = select_action(&config.click_mode, config.button, s.button_pressed);
    s.total_clicks = s.total_clicks + 1;
    let wait_ms = next_wait_ms(config);
    TickOutcome::Fire { action, wait_ms }
}

} // verus!
