//! Cluster dispatcher: validates a single-node target or selects the batch
//! target list, guarding the controller node in both paths. Which nodes a
//! batch attempts is a function of the topology alone, so no node's failure
//! can change which others are tried.

use vstd::prelude::*;

use crate::config::{Cluster, Node};
use crate::power::PowerError;
use crate::CONTROLLER_SLOT;

verus! {

/// A node a batch operation targets: any node of the topology but the
/// controller.
pub open spec fn is_batch_target(nodes: Seq<Node>, i: int) -> bool {
    0 <= i < nodes.len() && nodes[i].slot_number != CONTROLLER_SLOT
}

/// Validate a single-node power request before any I/O is performed.
/// The controller node is rejected outright; a slot absent from the
/// topology is an error; otherwise the requested node's index comes back
/// for the caller to probe and sequence.
pub fn check_single_target(cluster: &Cluster, slot_number: i32) -> (r: Result<usize, PowerError>)
    ensures
        slot_number == CONTROLLER_SLOT ==> r == Err::<usize, PowerError>(
            PowerError::ControllerProtected,
        ),
        slot_number != CONTROLLER_SLOT ==> match r {
            Ok(i) => i < cluster.nodes@.len() && cluster.nodes@[i as int].slot_number
                == slot_number && (forall|j: int|
                0 <= j < i ==> cluster.nodes@[j].slot_number != slot_number),
            Err(e) => e == PowerError::NodeNotFound && !cluster.has_slot(slot_number),
        },
{
    if slot_number == CONTROLLER_SLOT {
        return Err(PowerError::ControllerProtected);
    }
    match cluster.find_node(slot_number) {
        Some(i) => Ok(i),
        None => Err(PowerError::NodeNotFound),
    }
}

/// The batch target list: the index of every non-controller node, in
/// topology order. Complete — a batch attempts every one of them, so no
/// node's failure can drop another from the list — and the controller is
/// never among them.
pub fn batch_targets(cluster: &Cluster) -> (r: Vec<usize>)
    ensures
        forall|k: int| 0 <= k < r@.len() ==> is_batch_target(cluster.nodes@, r@[k] as int),
        forall|i: int|
            is_batch_target(cluster.nodes@, i) ==> exists|k: int|
                0 <= k < r@.len() && #[trigger] r@[k] as int == i,
        forall|k1: int, k2: int| 0 <= k1 < k2 < r@.len() ==> r@[k1] < r@[k2],
{
    let mut r: Vec<usize> = Vec::new();
    let n = cluster.nodes.len();
    let mut i: usize = 0;
    while i < n
        invariant
            i <= n,
            n == cluster.nodes@.len(),
            forall|k: int|
                0 <= k < r@.len() ==> is_batch_target(cluster.nodes@, r@[k] as int) && r@[k] < i,
            forall|j: int|
                0 <= j < i && is_batch_target(cluster.nodes@, j) ==> exists|k: int|
                    0 <= k < r@.len() && #[trigger] r@[k] as int == j,
            forall|k1: int, k2: int| 0 <= k1 < k2 < r@.len() ==> r@[k1] < r@[k2],
        decreases n - i,
    {
        if cluster.nodes[i].slot_number != CONTROLLER_SLOT {
            let ghost prev = r@;
            r.push(i);
            proof {
                assert(forall|k: int| 0 <= k < prev.len() ==> r@[k] == prev[k]);
                assert(r@[prev.len() as int] as int == i as int);
            }
        }
        i = i + 1;
    }
    r
}

} // verus!
