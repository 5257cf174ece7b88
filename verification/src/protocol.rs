//! Model control protocol: translates abstract "assert power line" /
//! "pulse power line" intents into plans of concrete actions, one protocol
//! variant per hardware model.
//!
//! GPIO line number equals slot number by construction in this fleet, so a
//! plan is addressed by slot alone. A plan is data: the caller executes each
//! action in order (GPIO commands relayed through the controller host, a
//! graceful shutdown command on the target itself, timed waits).

use vstd::prelude::*;

use crate::power::PowerError;

verus! {

/// Hardware model of a node. Determines which control protocol applies;
/// fixed per node, never changes.
///
/// - `CM4`: level-driven GPIO — a persistent line level powers it on or off.
/// - `CM5`: edge-driven GPIO — a momentary low-then-high pulse toggles it.
/// - `LPI3H`: the controller-class board — self-hosted, not independently
///   power-controllable.
#[derive(Clone, Copy, Debug, PartialEq, Eq, Structural)]
pub enum Model {
    CM5,
    CM4,
    LPI3H,
}

impl Model {
    /// The display name of a model.
    pub fn label(&self) -> (r: String)
        ensures
            *self == Model::CM5 ==> r@ == "CM5"@,
            *self == Model::CM4 ==> r@ == "CM4"@,
            *self == Model::LPI3H ==> r@ == "LPI3H"@,
    {
        match self {
            Model::CM5 => "CM5".to_owned(),
            Model::CM4 => "CM4".to_owned(),
            Model::LPI3H => "LPI3H".to_owned(),
        }
    }
}

/// Hold the line low for this long when pulsing, emulating a momentary
/// button press.
pub const PULSE_GAP_MILLIS: u64 = 1000;

/// Wait between requesting a graceful OS shutdown on the target and relaying
/// the physical power-off through the controller, so the OS can begin its
/// shutdown sequence.
pub const SETTLE_DELAY_MILLIS: u64 = 2000;

/// One concrete step of a power plan, executed by the caller in plan order.
#[derive(Clone, Copy, Debug, PartialEq, Eq, Structural)]
pub enum Action {
    /// Set the controller GPIO line addressed by `slot` to a persistent
    /// `level` (0 or 1), via a remote command on the controller host.
    SetLine { slot: i32, level: u8 },
    /// Suspend for `millis` milliseconds before the next step.
    Wait { millis: u64 },
    /// Run a graceful OS shutdown command directly on the node at `slot`.
    TargetShutdown { slot: i32 },
}

/// A pulse: line low, hold for the fixed gap, line high — a momentary
/// button press. A single pulse serves both power-on and power-off for
/// edge-driven hardware, which toggles on each press.
pub open spec fn pulse_plan(slot: i32) -> Seq<Action> {
    seq![
        Action::SetLine { slot, level: 0 },
        Action::Wait { millis: PULSE_GAP_MILLIS },
        Action::SetLine { slot, level: 1 },
    ]
}

/// The controller-relayed actions that power a node of the given model on,
/// or `None` where the model has no control protocol.
pub open spec fn boot_relay(model: Model, slot: i32) -> Option<Seq<Action>> {
    match model {
        Model::CM4 => Some(seq![Action::SetLine { slot, level: 1 }]),
        Model::CM5 => Some(pulse_plan(slot)),
        Model::LPI3H => None,
    }
}

/// The controller-relayed actions that finish powering a node of the given
/// model off (after the graceful OS shutdown has already been requested),
/// or `None` where the model has no control protocol.
pub open spec fn shutdown_relay(model: Model, slot: i32) -> Option<Seq<Action>> {
    match model {
        Model::CM4 => Some(seq![Action::SetLine { slot, level: 0 }]),
        Model::CM5 => Some(pulse_plan(slot)),
        Model::LPI3H => None,
    }
}

/// The full boot plan: the relay actions alone — boot needs no work on the
/// target itself.
pub open spec fn boot_plan(model: Model, slot: i32) -> Option<Seq<Action>> {
    boot_relay(model, slot)
}

/// What precedes every shutdown relay: the graceful OS shutdown on the
/// target, then the settle delay.
pub open spec fn shutdown_preamble(slot: i32) -> Seq<Action> {
    seq![
        Action::TargetShutdown { slot },
        Action::Wait { millis: SETTLE_DELAY_MILLIS },
    ]
}

/// The full shutdown plan: graceful OS shutdown on the target, the settle
/// delay, then the model-specific relay through the controller.
pub open spec fn shutdown_plan(model: Model, slot: i32) -> Option<Seq<Action>> {
    match shutdown_relay(model, slot) {
        Some(relay) => Some(shutdown_preamble(slot) + relay),
        None => None,
    }
}

/// Build the action that sets the GPIO line addressed by `slot` to `level`.
pub fn assert_line(slot: i32, level: u8) -> (r: Action)
    ensures
        r == (Action::SetLine { slot, level }),
{
    Action::SetLine { slot, level }
}

/// Build the pulse plan for `slot`: line low, hold, line high.
pub fn pulse_line(slot: i32) -> (r: Vec<Action>)
    ensures
        r@ == pulse_plan(slot),
{
    let mut v: Vec<Action> = Vec::new();
    v.push(Action::SetLine { slot, level: 0 });
    v.push(Action::Wait { millis: PULSE_GAP_MILLIS });
    v.push(Action::SetLine { slot, level: 1 });
    proof {
        assert(v@ =~= pulse_plan(slot));
    }
    v
}

/// Build the boot plan for a node of the given model at `slot`; fails with
/// `UnsupportedModel` exactly where the model has no control protocol.
pub fn boot_actions(model: Model, slot: i32) -> (r: Result<Vec<Action>, PowerError>)
    ensures
        match r {
            Ok(v) => boot_plan(model, slot) == Some(v@),
            Err(e) => boot_plan(model, slot) is None && e == PowerError::UnsupportedModel,
        },
{
    match model {
        Model::CM4 => {
            let mut v: Vec<Action> = Vec::new();
            v.push(Action::SetLine { slot, level: 1 });
            proof {
                assert(v@ =~= boot_plan(Model::CM4, slot)->Some_0);
            }
            Ok(v)
        },
        Model::CM5 => Ok(pulse_line(slot)),
        Model::LPI3H => Err(PowerError::UnsupportedModel),
    }
}

/// Build the shutdown plan for a node of the given model at `slot`; fails
/// with `UnsupportedModel` exactly where the model has no control protocol.
pub fn shutdown_actions(model: Model, slot: i32) -> (r: Result<Vec<Action>, PowerError>)
    ensures
        match r {
            Ok(v) => shutdown_plan(model, slot) == Some(v@),
            Err(e) => shutdown_plan(model, slot) is None && e == PowerError::UnsupportedModel,
        },
{
    match model {
        Model::CM4 => {
            let mut v: Vec<Action> = Vec::new();
            v.push(Action::TargetShutdown { slot });
            v.push(Action::Wait { millis: SETTLE_DELAY_MILLIS });
            v.push(Action::SetLine { slot, level: 0 });
            proof {
                assert(v@ =~= shutdown_preamble(slot) + shutdown_relay(Model::CM4, slot)->Some_0);
            }
            Ok(v)
        },
        Model::CM5 => {
            let mut v: Vec<Action> = Vec::new();
            v.push(Action::TargetShutdown { slot });
            v.push(Action::Wait { millis: SETTLE_DELAY_MILLIS });
            v.push(Action::SetLine { slot, level: 0 });
            v.push(Action::Wait { millis: PULSE_GAP_MILLIS });
            v.push(Action::SetLine { slot, level: 1 });
            proof {
                assert(v@ =~= shutdown_preamble(slot) + pulse_plan(slot));
            }
            Ok(v)
        },
        Model::LPI3H => Err(PowerError::UnsupportedModel),
    }
}

/// Level-driven protocol law: for the level-driven model the asserted line
/// level is 1 for boot and 0 for shutdown, one line-set each, on the line
/// addressed by the node's own slot.
pub proof fn lemma_level_driven_levels(slot: i32)
    ensures
        boot_plan(Model::CM4, slot) == Some(seq![Action::SetLine { slot, level: 1 }]),
        shutdown_plan(Model::CM4, slot) matches Some(p) && p.len() == 3 && p[2] == (
        Action::SetLine { slot, level: 0 }),
{
    assert(shutdown_plan(Model::CM4, slot)->Some_0 =~= seq![
        Action::TargetShutdown { slot },
        Action::Wait { millis: SETTLE_DELAY_MILLIS },
        Action::SetLine { slot, level: 0 },
    ]);
}

/// Pulse-driven protocol law: the exact same single pulse serves boot and
/// shutdown of a given slot — one pulse per invocation, low before high,
/// with a gap of at least one second between the two edges.
pub proof fn lemma_pulse_driven_same_pulse(slot: i32)
    ensures
        boot_plan(Model::CM5, slot) == Some(pulse_plan(slot)),
        shutdown_plan(Model::CM5, slot) matches Some(p) && p.skip(2) == pulse_plan(slot),
        pulse_plan(slot).len() == 3,
        pulse_plan(slot)[0] == (Action::SetLine { slot, level: 0 }),
        pulse_plan(slot)[1] == (Action::Wait { millis: PULSE_GAP_MILLIS }),
        pulse_plan(slot)[2] == (Action::SetLine { slot, level: 1 }),
        PULSE_GAP_MILLIS >= 1000,
{
    assert(shutdown_plan(Model::CM5, slot)->Some_0.skip(2) =~= pulse_plan(slot));
}

/// Shutdown sequencing law: for every model with a control protocol, the
/// target-host shutdown command comes first, the settle delay second, and
/// only then the controller relay; the relay itself never touches the
/// target host again.
pub proof fn lemma_shutdown_order(model: Model, slot: i32)
    requires
        shutdown_plan(model, slot) is Some,
    ensures
        shutdown_plan(model, slot) matches Some(p) && {
            &&& p.len() >= 3
            &&& p[0] == (Action::TargetShutdown { slot })
            &&& p[1] == (Action::Wait { millis: SETTLE_DELAY_MILLIS })
            &&& p.skip(2) == shutdown_relay(model, slot)->Some_0
            &&& forall|i: int|
                2 <= i < p.len() ==> !(#[trigger] p[i] matches Action::TargetShutdown { .. })
        },
{
    let p = shutdown_plan(model, slot)->Some_0;
    let relay = shutdown_relay(model, slot)->Some_0;
    assert(p.skip(2) =~= relay);
    match model {
        Model::CM4 => {
            assert forall|i: int| 2 <= i < p.len() implies !(#[trigger] p[i]
                matches Action::TargetShutdown { .. }) by {
                assert(p[i] == relay[i - 2]);
            }
        },
        Model::CM5 => {
            assert forall|i: int| 2 <= i < p.len() implies !(#[trigger] p[i]
                matches Action::TargetShutdown { .. }) by {
                assert(p[i] == relay[i - 2]);
            }
        },
        Model::LPI3H => {},
    }
}

} // verus!
