//! Click-automation engine: the policies and state machine behind a
//! desktop auto-clicker.
//!
//! The engine is pure decision logic. Each iteration of the automation
//! loop is one call of [`session::tick`]: it checks the stop conditions,
//! decides the firing condition, picks the pointer action, updates the counters and
//! computes the wait before the next iteration. The surrounding process
//! owns the clock, the sleep, the pointer-injection and pixel-sampling
//! capabilities, and drives the loop with the decisions made here.

pub mod action;
pub mod config;
pub mod gate;
pub mod interval;
pub mod laws;
pub mod limit;
pub mod session;
