//! Power state as derived from a reachability probe.

use vstd::prelude::*;

verus! {

/// Power state of a node. Never stored: recomputed on demand from a
/// reachability probe.
#[derive(Clone, Copy, Debug, PartialEq, Eq, Structural)]
pub enum PowerState {
    On,
    Off,
}

/// What a probe outcome means: success reads as powered on, any failure
/// (timeout, unreachable, malformed address) reads as powered off.
pub open spec fn spec_power_state(probe_ok: bool) -> PowerState {
    if probe_ok {
        PowerState::On
    } else {
        PowerState::Off
    }
}

/// Derive a node's power state from the outcome of one reachability probe.
/// A liveness heuristic, not a guarantee: probe failure degrades to `Off`,
/// never to an error.
pub fn power_state_from_probe(probe_ok: bool) -> (r: PowerState)
    ensures
        r == spec_power_state(probe_ok),
{
    if probe_ok {
        PowerState::On
    } else {
        PowerState::Off
    }
}

/// The error kinds of a power operation.
#[derive(Clone, Copy, Debug, PartialEq, Eq, Structural)]
pub enum PowerError {
    /// A remote session could not be established (unreachable host, auth
    /// failure, transport error).
    Connection,
    /// The remote process started but exited abnormally.
    Command,
    /// The node's model has no control protocol.
    UnsupportedModel,
    /// No node with the requested slot number exists in the topology.
    NodeNotFound,
    /// The operation targeted the controller node, which is never
    /// power-cycled by this system.
    ControllerProtected,
}

impl PowerState {
    /// The display label of a power state.
    pub fn label(&self) -> (r: String)
        ensures
            *self == PowerState::On ==> r@ == "ON"@,
            *self == PowerState::Off ==> r@ == "OFF"@,
    {
        match self {
            PowerState::On => "ON".to_owned(),
            PowerState::Off => "OFF".to_owned(),
        }
    }
}

/// Power state is a pure function of the probe outcome alone — nothing is
/// persisted. Two consecutive probes with the same outcome (no intervening
/// power change) yield the same state.
pub proof fn lemma_power_state_pure(probe_a: bool, probe_b: bool)
    requires
        probe_a == probe_b,
    ensures
        spec_power_state(probe_a) == spec_power_state(probe_b),
{
}

} // verus!
