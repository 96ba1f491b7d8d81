//! Laws of the session state machine, stated over whole runs.
//!
//! A run is the fold of [`step_state`] over a sequence of per-iteration
//! observations: exactly the states a loop instance passes through, one
//! [`tick`](crate::session::tick) per element. The proofs here state what
//! holds of every such run — click-count exactness, time-limit bounds,
//! toggle parity, and the inertness of superseded instances.

use vstd::prelude::*;

use crate::config::LimitMode;
use crate::config::SessionConfig;
use crate::limit::limit_reached;
use crate::session::SessionState;
use crate::session::TickInput;
use crate::session::fires;
use crate::session::is_stale;
use crate::session::step_state;

verus! {

/// The state after a loop instance holding `captured_id` has gone through
/// the iterations observed in `inputs`, one [`step_state`] per element.
pub open spec fn run_state(
    config: SessionConfig,
    captured_id: u32,
    s: SessionState,
    inputs: Seq<TickInput>,
) -> SessionState
    decreases inputs.len(),
{
    if inputs.len() == 0 {
        s
    } else {
        run_state(
            config,
            captured_id,
            step_state(config, captured_id, s, inputs[0]),
            inputs.subrange(1, inputs.len() as int),
        )
    }
}

/// How many of the iterations observed in `inputs` fire an action.
pub open spec fn fire_count(
    config: SessionConfig,
    captured_id: u32,
    s: SessionState,
    inputs: Seq<TickInput>,
) -> nat
    decreases inputs.len(),
{
    if inputs.len() == 0 {
        0
    } else {
        (if fires(config, captured_id, s, inputs[0]) {
            1nat
        } else {
            0nat
        }) + fire_count(
            config,
            captured_id,
            step_state(config, captured_id, s, inputs[0]),
            inputs.subrange(1, inputs.len() as int),
        )
    }
}

/// Whether the limit policy ends the session at some iteration of the
/// run.
pub open spec fn stops_during(
    config: SessionConfig,
    captured_id: u32,
    s: SessionState,
    inputs: Seq<TickInput>,
) -> bool
    decreases inputs.len(),
{
    if inputs.len() == 0 {
        false
    } else {
        (!is_stale(captured_id, s) && limit_reached(
            config.limit_mode,
            s.total_clicks,
            inputs[0].elapsed_ms,
        )) || stops_during(
            config,
            captured_id,
            step_state(config, captured_id, s, inputs[0]),
            inputs.subrange(1, inputs.len() as int),
        )
    }
}

/// `b`, flipped once per counted firing.
pub open spec fn flipped(b: bool, n: nat) -> bool {
    if n % 2 == 0 {
        b
    } else {
        !b
    }
}

/// A run is one iteration longer: the new state is one step from the
/// run's former end state.
pub proof fn lemma_run_snoc(
    config: SessionConfig,
    captured_id: u32,
    s: SessionState,
    inputs: Seq<TickInput>,
    x: TickInput,
)
    ensures
        run_state(config, captured_id, s, inputs.push(x)) == step_state(
            config,
            captured_id,
            run_state(config, captured_id, s, inputs),
            x,
        ),
    decreases inputs.len(),
{
    reveal_with_fuel(run_state, 2);
    if inputs.len() == 0 {
        assert(inputs.push(x)[0] == x);
        assert(inputs.push(x).subrange(1, 1) =~= Seq::<TickInput>::empty());
    } else {
        assert(inputs.push(x)[0] == inputs[0]);
        assert(inputs.push(x).subrange(1, inputs.push(x).len() as int) =~= inputs.subrange(
            1,
            inputs.len() as int,
        ).push(x));
        lemma_run_snoc(
            config,
            captured_id,
            step_state(config, captured_id, s, inputs[0]),
            inputs.subrange(1, inputs.len() as int),
            x,
        );
    }
}

/// A stale loop instance is inert: one whose session was disabled or
/// superseded leaves the state exactly as it found it and fires no
/// action, however many more iterations it wakes for.
pub proof fn lemma_stale_instance_inert(
    config: SessionConfig,
    captured_id: u32,
    s: SessionState,
    inputs: Seq<TickInput>,
)
    requires
        is_stale(captured_id, s),
    ensures
        run_state(config, captured_id, s, inputs) == s,
        fire_count(config, captured_id, s, inputs) == 0,
    decreases inputs.len(),
{
    if inputs.len() > 0 {
        lemma_stale_instance_inert(
            config,
            captured_id,
            s,
            inputs.subrange(1, inputs.len() as int),
        );
    }
}

/// Session supersession: once a newer session has started — so the id a
/// loop instance captured no longer matches — the old instance performs
/// zero further actions and never mutates the state again.
pub proof fn lemma_superseded_instance_inert(
    config: SessionConfig,
    captured_id: u32,
    s: SessionState,
    inputs: Seq<TickInput>,
)
    requires
        captured_id != s.session_id,
    ensures
        run_state(config, captured_id, s, inputs) == s,
        fire_count(config, captured_id, s, inputs) == 0,
{
    lemma_stale_instance_inert(config, captured_id, s, inputs);
}

/// A step never decreases the click counter (short of the counter cap,
/// which [`tick`](crate::session::tick) requires its callers to stay
/// under).
pub proof fn lemma_clicks_monotone_step(
    config: SessionConfig,
    captured_id: u32,
    s: SessionState,
    inp: TickInput,
)
    requires
        s.total_clicks < u32::MAX,
    ensures
        step_state(config, captured_id, s, inp).total_clicks >= s.total_clicks,
        step_state(config, captured_id, s, inp).session_id == s.session_id,
{
}

/// Under a click-count limit of `n`, no run ever pushes the counter past
/// `n`: the limit is checked strictly before each firing.
pub proof fn lemma_click_limit_never_exceeded(
    config: SessionConfig,
    captured_id: u32,
    s: SessionState,
    inputs: Seq<TickInput>,
    n: u32,
)
    requires
        config.limit_mode == LimitMode::ClickCount(n),
        s.total_clicks <= n,
    ensures
        run_state(config, captured_id, s, inputs).total_clicks <= n,
    decreases inputs.len(),
{
    if inputs.len() > 0 {
        lemma_click_limit_never_exceeded(
            config,
            captured_id,
            step_state(config, captured_id, s, inputs[0]),
            inputs.subrange(1, inputs.len() as int),
            n,
        );
    }
}

/// Under a click-count limit of `n`, a session that completes — the limit
/// policy ends it at iteration `k` of its run — has performed exactly `n`
/// clicks: the counter stands at `n` when the limit fires, and the step
/// that stops the session disables it, releases the button and leaves the
/// counter at `n`.
pub proof fn lemma_click_limit_exact_on_stop(
    config: SessionConfig,
    captured_id: u32,
    s: SessionState,
    inputs: Seq<TickInput>,
    n: u32,
    k: int,
)
    requires
        config.limit_mode == LimitMode::ClickCount(n),
        s.total_clicks <= n,
        0 <= k < inputs.len(),
        !is_stale(captured_id, run_state(config, captured_id, s, inputs.subrange(0, k))),
        limit_reached(
            config.limit_mode,
            run_state(config, captured_id, s, inputs.subrange(0, k)).total_clicks,
            inputs[k].elapsed_ms,
        ),
    ensures
        run_state(config, captured_id, s, inputs.subrange(0, k)).total_clicks == n,
        run_state(config, captured_id, s, inputs.subrange(0, k + 1)) == (SessionState {
            enabled: false,
            button_pressed: false,
            ..run_state(config, captured_id, s, inputs.subrange(0, k))
        }),
{
    lemma_click_limit_never_exceeded(config, captured_id, s, inputs.subrange(0, k), n);
    assert(inputs.subrange(0, k + 1) =~= inputs.subrange(0, k).push(inputs[k]));
    lemma_run_snoc(config, captured_id, s, inputs.subrange(0, k), inputs[k]);
}

/// Under a time limit of `t` milliseconds, no action fires at or after
/// `t` elapsed, and the session only ends through the limit policy at or
/// after `t` elapsed — so a completed session's duration is at least `t`.
/// The claim holds at every state, hence at every iteration of every run.
pub proof fn lemma_time_limit_bounds(
    config: SessionConfig,
    captured_id: u32,
    s: SessionState,
    inp: TickInput,
    t: u64,
)
    requires
        config.limit_mode == LimitMode::ElapsedMillis(t),
    ensures
        fires(config, captured_id, s, inp) ==> inp.elapsed_ms < t,
        !is_stale(captured_id, s) && limit_reached(
            config.limit_mode,
            s.total_clicks,
            inp.elapsed_ms,
        ) ==> inp.elapsed_ms >= t,
{
}

/// Toggle parity: the press parity flips on exactly the fired iterations,
/// so it ends at its starting value flipped once per firing — unless the
/// limit policy stopped the session, after which it is always false
/// (the stopping step force-releases, and the disabled instance is
/// inert from then on).
pub proof fn lemma_toggle_parity(
    config: SessionConfig,
    captured_id: u32,
    s: SessionState,
    inputs: Seq<TickInput>,
)
    ensures
        run_state(config, captured_id, s, inputs).button_pressed == (if stops_during(
            config,
            captured_id,
            s,
            inputs,
        ) {
            false
        } else {
            flipped(s.button_pressed, fire_count(config, captured_id, s, inputs))
        }),
    decreases inputs.len(),
{
    if inputs.len() > 0 {
        let s1 = step_state(config, captured_id, s, inputs[0]);
        let rest = inputs.subrange(1, inputs.len() as int);
        lemma_toggle_parity(config, captured_id, s1, rest);
        if !is_stale(captured_id, s) && limit_reached(
            config.limit_mode,
            s.total_clicks,
            inputs[0].elapsed_ms,
        ) {
            lemma_stale_instance_inert(config, captured_id, s1, rest);
        }
    }
}

} // verus!
