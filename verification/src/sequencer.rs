//! Node power sequencer: the per-node decision combining a reachability
//! probe result with the model control protocol. An operation on a node
//! already in the desired state is skipped with no control action at all;
//! otherwise the sequencer hands back the model's full action plan for the
//! caller to execute in order.

use vstd::prelude::*;

use crate::power::{PowerError, PowerState, spec_power_state};
use crate::protocol::{boot_plan, shutdown_plan, Action, Model};

verus! {

/// The requested power operation.
#[derive(Clone, Copy, Debug, PartialEq, Eq, Structural)]
pub enum PowerOp {
    Boot,
    Shutdown,
}

/// Why an operation was skipped: the node already was in the desired state.
#[derive(Clone, Copy, Debug, PartialEq, Eq, Structural)]
pub enum SkipReason {
    AlreadyOn,
    AlreadyOff,
}

/// The sequencer's decision for one node: skip, or run a plan of actions.
#[derive(Clone, Debug, PartialEq, Eq)]
pub enum NodePlan {
    /// The node is already in the desired state: nothing to execute.
    Skip(SkipReason),
    /// Execute these actions, in this order.
    Run(Vec<Action>),
}

impl NodePlan {
    /// The control actions a plan carries: none at all for a skip.
    pub open spec fn actions(self) -> Seq<Action> {
        match self {
            NodePlan::Skip(_) => Seq::empty(),
            NodePlan::Run(v) => v@,
        }
    }
}

/// Whether the operation has work to do, given the probed power state:
/// boot acts only on a node read as off, shutdown only on one read as on.
pub open spec fn spec_skip_reason(op: PowerOp, powered_on: bool) -> Option<SkipReason> {
    match op {
        PowerOp::Boot => if powered_on {
            Some(SkipReason::AlreadyOn)
        } else {
            None
        },
        PowerOp::Shutdown => if !powered_on {
            Some(SkipReason::AlreadyOff)
        } else {
            None
        },
    }
}

/// The plan the protocol owes when the operation does act, or `None` where
/// the model has no control protocol.
pub open spec fn spec_op_plan(op: PowerOp, model: Model, slot: i32) -> Option<Seq<Action>> {
    match op {
        PowerOp::Boot => boot_plan(model, slot),
        PowerOp::Shutdown => shutdown_plan(model, slot),
    }
}

/// Decide one power operation for one node, from the node's model, its slot
/// and the probed power state. Idempotence: a node already in the desired
/// state is skipped and the control protocol receives zero calls. Otherwise
/// the model's plan is returned whole, or `UnsupportedModel` where the model
/// has none. Callers reject the controller node before reaching the
/// sequencer.
pub fn plan_node_op(op: PowerOp, model: Model, slot: i32, powered_on: bool) -> (r: Result<
    NodePlan,
    PowerError,
>)
    requires
        slot != crate::CONTROLLER_SLOT,
    ensures
        match spec_skip_reason(op, powered_on) {
            Some(reason) => r == Ok::<NodePlan, PowerError>(NodePlan::Skip(reason)),
            None => match spec_op_plan(op, model, slot) {
                Some(p) => r matches Ok(plan) && plan matches NodePlan::Run(v) && v@ == p,
                None => r == Err::<NodePlan, PowerError>(PowerError::UnsupportedModel),
            },
        },
        match r {
            Ok(plan) => match plan {
                NodePlan::Skip(reason) => plan.actions() == Seq::<Action>::empty()
                    && spec_skip_reason(op, powered_on) == Some(reason),
                NodePlan::Run(_) => spec_skip_reason(op, powered_on) is None,
            },
            Err(_) => spec_skip_reason(op, powered_on) is None,
        },
{
    match op {
        PowerOp::Boot => {
            if powered_on {
                Ok(NodePlan::Skip(SkipReason::AlreadyOn))
            } else {
                match crate::protocol::boot_actions(model, slot) {
                    Ok(v) => Ok(NodePlan::Run(v)),
                    Err(e) => Err(e),
                }
            }
        },
        PowerOp::Shutdown => {
            if !powered_on {
                Ok(NodePlan::Skip(SkipReason::AlreadyOff))
            } else {
                match crate::protocol::shutdown_actions(model, slot) {
                    Ok(v) => Ok(NodePlan::Run(v)),
                    Err(e) => Err(e),
                }
            }
        },
    }
}

/// The ephemeral result of one sequencer run, consumed immediately by
/// logging, never stored.
#[derive(Clone, Copy, Debug, PartialEq, Eq, Structural)]
pub enum OperationOutcome {
    /// The node already was in the desired state; nothing ran.
    Skipped(SkipReason),
    /// Every action of the plan ran to completion.
    Succeeded,
    /// The decision itself failed, or an action did; the sequencer does not
    /// retry or roll back partial progress.
    Failed(PowerError),
}

/// Conclude one sequencer run: combine the decision with the result the
/// caller observed while executing the plan's actions. A skip never ran
/// anything and never fails; a decision error is the run's failure; an
/// executed plan succeeds or fails with the first action that did.
pub fn operation_outcome(
    decision: &Result<NodePlan, PowerError>,
    exec_result: &Result<(), PowerError>,
) -> (r: OperationOutcome)
    ensures
        match decision {
            Ok(plan) => match plan {
                NodePlan::Skip(reason) => r == OperationOutcome::Skipped(*reason),
                NodePlan::Run(_) => match exec_result {
                    Ok(_) => r == OperationOutcome::Succeeded,
                    Err(e) => r == OperationOutcome::Failed(*e),
                },
            },
            Err(e) => r == OperationOutcome::Failed(*e),
        },
{
    match decision {
        Ok(NodePlan::Skip(reason)) => OperationOutcome::Skipped(*reason),
        Ok(NodePlan::Run(_)) => match exec_result {
            Ok(_) => OperationOutcome::Succeeded,
            Err(e) => OperationOutcome::Failed(*e),
        },
        Err(e) => OperationOutcome::Failed(*e),
    }
}

/// Idempotence law: booting a node whose probe reads it as on, and shutting
/// down one whose probe reads it as off, is decided as a skip — and a skip
/// carries no control action whatsoever.
pub proof fn lemma_already_in_state_is_noop(probe_ok: bool)
    ensures
        spec_power_state(probe_ok) == PowerState::On ==> spec_skip_reason(PowerOp::Boot, probe_ok)
            == Some(SkipReason::AlreadyOn),
        spec_power_state(probe_ok) == PowerState::Off ==> spec_skip_reason(
            PowerOp::Shutdown,
            probe_ok,
        ) == Some(SkipReason::AlreadyOff),
        forall|reason: SkipReason| (#[trigger] NodePlan::Skip(reason).actions()) == Seq::<
            Action,
        >::empty(),
{
}

} // verus!
