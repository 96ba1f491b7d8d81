//! Session configuration: which button to press, how, how often, for how
//! long, and under what colour condition.
//!
//! All durations are whole milliseconds, so every policy is exact integer
//! arithmetic.

use vstd::prelude::*;

verus! {

/// The pointer button the automation presses.
#[derive(Clone, Copy, Debug, PartialEq, Eq, Structural)]
pub enum MouseButton {
    Left,
    Right,
    Middle,
}

/// How one firing of the automation acts on the button.
#[derive(Clone, Copy, Debug, PartialEq, Eq, Structural)]
pub enum ClickMode {
    /// Press and release once.
    Single,
    /// Two consecutive single clicks.
    Double,
    /// Alternate between press-and-hold and release on successive firings.
    Toggle,
}

/// When the session must stop on its own.
#[derive(Clone, Copy, Debug, PartialEq, Eq, Structural)]
pub enum LimitMode {
    /// Never stops on its own.
    Unlimited,
    /// Stop once this many clicks have been performed.
    ClickCount(u32),
    /// Stop once this many milliseconds have elapsed since session start.
    ElapsedMillis(u64),
}

/// How the wait between two iterations is chosen.
#[derive(Clone, Copy, Debug, PartialEq, Eq, Structural)]
pub enum IntervalMode {
    /// Always the configured constant duration.
    Constant,
    /// Drawn uniformly from the configured bounds, anew each iteration.
    Random,
}

/// A colour as red, green and blue bytes.
#[derive(Clone, Copy, Debug, PartialEq, Eq, Structural)]
pub struct Rgb {
    pub r: u8,
    pub g: u8,
    pub b: u8,
}

/// The constant inter-click interval, split into the fields the control
/// surface edits. The effective duration is their sum in milliseconds.
#[derive(Clone, Copy, Debug, PartialEq, Eq, Structural)]
pub struct ConstantInterval {
    pub hours: u32,
    pub minutes: u32,
    pub seconds: u32,
    pub milliseconds: u32,
}

/// Inclusive bounds for the random inter-click interval, in milliseconds.
#[derive(Clone, Copy, Debug, PartialEq, Eq, Structural)]
pub struct RandomBounds {
    pub min_ms: u32,
    pub max_ms: u32,
}

/// The colour-proximity gate: when enabled, an iteration fires only if
/// the pixel under the pointer is close enough to the target colour.
#[derive(Clone, Copy, Debug, PartialEq, Eq, Structural)]
pub struct ColorGate {
    pub enabled: bool,
    pub target: Rgb,
    /// Tolerance on a 0..=255 scale: 0 demands the exact target colour,
    /// 255 accepts any colour.
    pub threshold: u8,
}

/// Everything the automation loop reads to make its decisions. Owned by
/// the control surface and mutated only while no session runs.
#[derive(Clone, Copy, Debug, PartialEq, Eq, Structural)]
pub struct SessionConfig {
    pub interval_mode: IntervalMode,
    pub constant_interval: ConstantInterval,
    pub random_interval: RandomBounds,
    pub button: MouseButton,
    pub click_mode: ClickMode,
    pub limit_mode: LimitMode,
    pub color_gate: ColorGate,
}

/// Largest legal random-interval bound: one hour, in milliseconds.
pub const RANDOM_BOUND_CAP_MS: u32 = 3_600_000;

impl RandomBounds {
    /// The bounds are ordered and capped at one hour.
    pub open spec fn wf(self) -> bool {
        self.min_ms <= self.max_ms <= RANDOM_BOUND_CAP_MS
    }
}

impl SessionConfig {
    /// A configuration is well formed when its random-interval bounds are.
    pub open spec fn wf(self) -> bool {
        self.random_interval.wf()
    }

    /// The configuration the application starts with: a constant interval
    /// of 100 ms, left button, single clicks, no limit, gate disabled.
    pub fn initial() -> (c: SessionConfig)
        ensures
            c.wf(),
            c.interval_mode == IntervalMode::Constant,
            c.constant_interval == (ConstantInterval {
                hours: 0,
                minutes: 0,
                seconds: 0,
                milliseconds: 100,
            }),
            c.random_interval == (RandomBounds { min_ms: 1_000, max_ms: 2_000 }),
            c.button == MouseButton::Left,
            c.click_mode == ClickMode::Single,
            c.limit_mode == LimitMode::Unlimited,
            c.color_gate == (ColorGate {
                enabled: false,
                target: Rgb { r: 0, g: 0, b: 0 },
                threshold: 0,
            }),
    {
        SessionConfig {
            interval_mode: IntervalMode::Constant,
            constant_interval: ConstantInterval {
                hours: 0,
                minutes: 0,
                seconds: 0,
                milliseconds: 100,
            },
            random_interval: RandomBounds { min_ms: 1_000, max_ms: 2_000 },
            button: MouseButton::Left,
            click_mode: ClickMode::Single,
            limit_mode: LimitMode::Unlimited,
            color_gate: ColorGate {
                enabled: false,
                target: Rgb { r: 0, g: 0, b: 0 },
                threshold: 0,
            },
        }
    }
}

/// Clamp requested random-interval bounds to well-formed ones, the way the
/// control surface does while the fields are edited: the upper bound is
/// capped at one hour, then the lower bound is capped at the upper bound.
pub fn clamp_random_bounds(min_ms: u32, max_ms: u32) -> (rb: RandomBounds)
    ensures
        rb.wf(),
        rb.max_ms == if max_ms <= RANDOM_BOUND_CAP_MS { max_ms } else { RANDOM_BOUND_CAP_MS },
        rb.min_ms == if min_ms <= rb.max_ms { min_ms } else { rb.max_ms },
{
    let capped_max: u32 = if max_ms <= RANDOM_BOUND_CAP_MS {
        max_ms
    } else {
        RANDOM_BOUND_CAP_MS
    };
    let capped_min: u32 = if min_ms <= capped_max {
        min_ms
    } else {
        capped_max
    };
    RandomBounds { min_ms: capped_min, max_ms: capped_max }
}

} // verus!
