//! Power-control orchestration for a small heterogeneous compute cluster.
//!
//! A controller host (slot 1) has direct GPIO wiring to every compute slot.
//! This library holds the decision logic: per-model control protocols that
//! translate boot and shutdown intents into concrete action plans, the
//! graceful-shutdown sequencing, reachability-based status determination,
//! and the idempotent bulk-vs-single dispatch policy. Executing the plans
//! (ssh sessions, reachability probes, timed waits) is left to the caller.

pub mod cli;
pub mod config;
pub mod dispatch;
pub mod power;
pub mod protocol;
pub mod sequencer;

use vstd::prelude::*;

verus! {

/// Slot number of the controller node: always on, the relay for every GPIO
/// command, never itself a target of a power operation.
pub const CONTROLLER_SLOT: i32 = 1;

} // verus!
