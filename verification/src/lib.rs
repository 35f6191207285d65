//! Core engine of an embedded environmental-hazard monitor.
//!
//! The library holds the verified state-and-risk engine: fixed-capacity
//! sample history rings, the delta/hysteresis risk classifier, the wire
//! codecs for samples and configuration, and the single-slot mailbox state
//! used to hand values between independently clocked tasks. Temperatures
//! are carried as centidegrees Celsius (hundredths of a degree), the same
//! fixed-point unit the wire format uses, so every computation is exact
//! integer arithmetic.
//!
//! Peripheral drivers, transports and the HTTP layer are collaborators at
//! the boundary; they live outside this crate and exchange plain values
//! with it.

use vstd::prelude::*;

pub mod config;
pub mod delta;
pub mod evaluator;
pub mod history;
pub mod loadgen;
pub mod mailbox;
pub mod risk;
pub mod samples;

verus! {

/// Process-wide bookkeeping for the remote query layer.
pub struct AppState {
    pub counter: u32,
}

} // verus!
