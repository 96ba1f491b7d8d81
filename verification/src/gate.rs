//! Gate policy: decides whether an iteration of the automation loop may
//! fire its pointer action.
//!
//! Two conditions gate a firing. A configurable hold predicate, evaluated
//! by the collaborator (a typical one holds while the application window
//! is focused), and an optional colour-proximity
//! condition: the pixel under the pointer must be close enough to the
//! configured target colour.
//!
//! Closeness is the Euclidean distance between the two colours,
//! normalized by the largest possible distance `sqrt(3 * 255^2)`, held
//! against `threshold / 255`. Squaring both sides of
//! `sqrt(dr^2 + dg^2 + db^2) / (255 * sqrt(3)) <= t / 255`
//! gives the exactly equivalent integer condition
//! `dr^2 + dg^2 + db^2 <= 3 * t^2`, which is what is computed here.

use vstd::prelude::*;

use crate::config::ColorGate;
use crate::config::Rgb;

verus! {

/// The squared Euclidean distance between two colours, at most
/// `3 * 255^2 == 195_075`.
pub open spec fn color_dist_sq(a: Rgb, b: Rgb) -> int {
    (a.r - b.r) * (a.r - b.r) + (a.g - b.g) * (a.g - b.g) + (a.b - b.b) * (a.b - b.b)
}

/// Whether `sampled` lies within the tolerance `threshold` of `target`:
/// normalized Euclidean distance at most `threshold / 255`, stated as the
/// equivalent integer comparison of squares.
pub open spec fn color_within_threshold(sampled: Rgb, target: Rgb, threshold: u8) -> bool {
    color_dist_sq(sampled, target) <= 3 * threshold * threshold
}

/// Whether this iteration may fire: the hold predicate must not hold,
/// and, with colour gating switched on, the sampled colour must lie
/// within the tolerance of the target.
pub open spec fn gate_allows(gate: ColorGate, sampled: Rgb, hold: bool) -> bool {
    !hold && (!gate.enabled || color_within_threshold(sampled, gate.target, gate.threshold))
}

/// The absolute difference of two channel values.
fn channel_diff(a: u8, b: u8) -> (d: u32)
    ensures
        a >= b ==> d == a - b,
        a < b ==> d == b - a,
{
    if a >= b {
        (a - b) as u32
    } else {
        (b - a) as u32
    }
}

/// Decide the colour condition: whether `sampled` is within the tolerance
/// `threshold` of `target`. A pure function of its inputs, so repeated
/// evaluation on the same pair and tolerance always agrees.
pub fn color_close_enough(sampled: Rgb, target: Rgb, threshold: u8) -> (close: bool)
    ensures
        close == color_within_threshold(sampled, target, threshold),
{
    let dr: u32 = channel_diff(sampled.r, target.r);
    let dg: u32 = channel_diff(sampled.g, target.g);
    let db: u32 = channel_diff(sampled.b, target.b);
    assert(dr * dr <= 255 * 255 && dg * dg <= 255 * 255 && db * db <= 255 * 255)
        by (nonlinear_arith)
        requires
            dr <= 255,
            dg <= 255,
            db <= 255,
    ;
    let dist_sq: u32 = dr * dr + dg * dg + db * db;
    let t: u32 = threshold as u32;
    assert(t * t <= 255 * 255) by (nonlinear_arith)
        requires
            t <= 255,
    ;
    let allowed: u32 = 3 * (t * t);
    assert(allowed == 3 * threshold * threshold) by (nonlinear_arith)
        requires
            t == threshold,
            allowed == 3 * (t * t),
    ;
    assert(dist_sq == color_dist_sq(sampled, target)) by (nonlinear_arith)
        requires
            (sampled.r >= target.r ==> dr == sampled.r - target.r),
            (sampled.r < target.r ==> dr == target.r - sampled.r),
            (sampled.g >= target.g ==> dg == sampled.g - target.g),
            (sampled.g < target.g ==> dg == target.g - sampled.g),
            (sampled.b >= target.b ==> db == sampled.b - target.b),
            (sampled.b < target.b ==> db == target.b - sampled.b),
            dist_sq == dr * dr + dg * dg + db * db,
    ;
    dist_sq <= allowed
}

/// Decide the whole gate for one iteration, from the configured gate, the
/// last successfully sampled pixel colour and the evaluated hold
/// predicate.
pub fn gate_decision(gate: &ColorGate, sampled: Rgb, hold: bool) -> (fire: bool)
    ensures
        fire == gate_allows(*gate, sampled, hold),
{
    if hold {
        false
    } else if !gate.enabled {
        true
    } else {
        color_close_enough(sampled, gate.target, gate.threshold)
    }
}

} // verus!
