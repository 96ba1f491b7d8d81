//! Limit policy: decides whether the session must stop before this
//! iteration acts.
//!
//! The decision is made strictly before the firing condition and the
//! action, so a click-count limit of `n` allows at most `n` clicks
//! and a time limit of `t` lets no action start once `t` has elapsed.

use vstd::prelude::*;

use crate::config::LimitMode;

verus! {

/// Whether the session's stop condition has been reached, given the
/// clicks performed so far and the milliseconds elapsed since session
/// start.
pub open spec fn limit_reached(limit: LimitMode, total_clicks: u32, elapsed_ms: u64) -> bool {
    match limit {
        LimitMode::Unlimited => false,
        LimitMode::ClickCount(n) => total_clicks >= n,
        LimitMode::ElapsedMillis(t) => elapsed_ms >= t,
    }
}

/// Decide the limit policy for one iteration.
pub fn limit_says_stop(limit: &LimitMode, total_clicks: u32, elapsed_ms: u64) -> (stop: bool)
    ensures
        stop == limit_reached(*limit, total_clicks, elapsed_ms),
{
    match limit {
        LimitMode::Unlimited => false,
        LimitMode::ClickCount(n) => total_clicks >= *n,
        LimitMode::ElapsedMillis(t) => elapsed_ms >= *t,
    }
}

} // verus!
