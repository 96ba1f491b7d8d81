//! Interval policy: the wait, in milliseconds, before the next iteration
//! of the automation loop.
//!
//! Constant mode sums the configured hour, minute, second and millisecond
//! fields; zero is legal and means no delay. Random mode draws the wait
//! anew on every iteration, uniformly from the configured inclusive
//! bounds. No suspension happens here — the caller sleeps.

use vstd::prelude::*;

use rand::Rng;

use crate::config::IntervalMode;
use crate::config::RandomBounds;
use crate::config::ConstantInterval;
use crate::config::SessionConfig;

verus! {

/// The constant interval as a single duration in milliseconds.
pub open spec fn constant_total_ms(c: ConstantInterval) -> int {
    c.hours * 3_600_000 + c.minutes * 60_000 + c.seconds * 1000 + c.milliseconds
}

/// The least wait the configuration can produce.
pub open spec fn wait_lower_ms(config: SessionConfig) -> int {
    match config.interval_mode {
        IntervalMode::Constant => constant_total_ms(config.constant_interval),
        IntervalMode::Random => config.random_interval.min_ms as int,
    }
}

/// The greatest wait the configuration can produce.
pub open spec fn wait_upper_ms(config: SessionConfig) -> int {
    match config.interval_mode {
        IntervalMode::Constant => constant_total_ms(config.constant_interval),
        IntervalMode::Random => config.random_interval.max_ms as int,
    }
}

/// Relies on rand's `Rng::gen_range` over the inclusive range
/// `min..=max`: it panics only on an empty range, which `min <= max`
/// rules out, and returns a value drawn uniformly from within the range.
/// Nothing beyond membership in the range can be promised of a random
/// draw.
#[verifier::external_body]
fn sample_uniform_ms(min: u32, max: u32) -> (r: u32)
    requires
        min <= max,
    ensures
        min <= r <= max,
{
    rand::thread_rng().gen_range(min..=max)
}

/// The constant interval's duration in milliseconds.
pub fn constant_wait_ms(c: &ConstantInterval) -> (ms: u64)
    ensures
        ms == constant_total_ms(*c),
{
    (c.hours as u64) * 3_600_000 + (c.minutes as u64) * 60_000 + (c.seconds as u64) * 1000
        + (c.milliseconds as u64)
}

/// Draw the wait for one iteration from the random-interval bounds. The
/// draw always lies within the bounds; equal bounds force the draw, so
/// the behaviour degenerates to a constant interval of that value.
pub fn random_wait_ms(rb: &RandomBounds) -> (ms: u64)
    requires
        rb.wf(),
    ensures
        rb.min_ms <= ms <= rb.max_ms,
        rb.min_ms == rb.max_ms ==> ms == rb.min_ms,
{
    sample_uniform_ms(rb.min_ms, rb.max_ms) as u64
}

/// The wait before the next iteration, for the configured interval mode.
/// In constant mode it is exactly the configured duration; in random
/// mode it lies within the configured bounds, and equal bounds behave
/// like a constant interval of that value.
pub fn next_wait_ms(config: &SessionConfig) -> (ms: u64)
    requires
        config.wf(),
    ensures
        wait_lower_ms(*config) <= ms <= wait_upper_ms(*config),
        config.interval_mode == IntervalMode::Constant ==> ms == constant_total_ms(
            config.constant_interval,
        ),
        config.interval_mode == IntervalMode::Random
            && config.random_interval.min_ms == config.random_interval.max_ms ==> ms
            == config.random_interval.min_ms,
{
    match config.interval_mode {
        IntervalMode::Constant => constant_wait_ms(&config.constant_interval),
        IntervalMode::Random => random_wait_ms(&config.random_interval),
    }
}

} // verus!
