//! Cluster topology: the read-only configuration every component shares.
//! Loaded once at process start by an external collaborator; the
//! orchestration core never mutates it.

use vstd::prelude::*;

use crate::protocol::Model;
use crate::CONTROLLER_SLOT;

verus! {

/// One compute slot of the cluster. Immutable for the process lifetime;
/// the slot number is the stable identity used for all lookups, and by
/// wiring convention it is also the GPIO line number on the controller.
#[derive(Clone, Debug)]
pub struct Node {
    pub ip_address: String,
    pub hostname: String,
    pub model: Model,
    pub slot_number: i32,
}

/// The ordered collection of nodes plus the cluster's management address.
#[derive(Clone, Debug)]
pub struct Cluster {
    pub ip_address: String,
    pub nodes: Vec<Node>,
}

/// Everything an operation needs: the user remote sessions run as, and the
/// topology.
#[derive(Clone, Debug)]
pub struct Config {
    pub ssh_username: String,
    pub cluster: Cluster,
}

impl Cluster {
    /// Some node carries this slot number.
    pub open spec fn has_slot(self, slot: i32) -> bool {
        exists|i: int| 0 <= i < self.nodes@.len() && self.nodes@[i].slot_number == slot
    }

    /// Slot numbers are unique within the cluster.
    pub open spec fn slots_unique(self) -> bool {
        forall|i: int, j: int|
            0 <= i < j < self.nodes@.len() ==> self.nodes@[i].slot_number != self.nodes@[
                j
            ].slot_number
    }

    /// Well-formed topology: unique slot numbers, and exactly one node —
    /// the controller — carries slot number 1.
    pub open spec fn wf(self) -> bool {
        self.slots_unique() && self.has_slot(CONTROLLER_SLOT)
    }

    /// Look a node up by slot number: the index of the first node carrying
    /// it, or `None` when the topology has no such slot.
    pub fn find_node(&self, slot: i32) -> (r: Option<usize>)
        ensures
            match r {
                Some(i) => i < self.nodes@.len() && self.nodes@[i as int].slot_number == slot
                    && (forall|j: int| 0 <= j < i ==> self.nodes@[j].slot_number != slot),
                None => !self.has_slot(slot),
            },
    {
        let n = self.nodes.len();
        let mut i: usize = 0;
        while i < n
            invariant
                i <= n,
                n == self.nodes@.len(),
                forall|j: int| 0 <= j < i ==> self.nodes@[j].slot_number != slot,
            decreases n - i,
        {
            if self.nodes[i].slot_number == slot {
                return Some(i);
            }
            i = i + 1;
        }
        None
    }
}

/// The slot number is a stable identity: in a cluster with unique slot
/// numbers, a slot resolves to at most one node.
pub proof fn lemma_slot_resolves_uniquely(c: Cluster, i: int, j: int)
    requires
        c.slots_unique(),
        0 <= i < c.nodes@.len(),
        0 <= j < c.nodes@.len(),
        c.nodes@[i].slot_number == c.nodes@[j].slot_number,
    ensures
        i == j,
{
}

/// A node of the built-in default topology: the given slot and model, with
/// the hostname and address left for the operator to fill in.
pub open spec fn default_node(n: Node, slot: i32, model: Model) -> bool {
    n.slot_number == slot && n.model == model && n.hostname@ == Seq::<char>::empty()
        && n.ip_address@ == Seq::<char>::empty()
}

impl Default for Config {
    /// The built-in topology written on first start: the controller in
    /// slot 1, two level-driven nodes in slots 2 and 3, three pulse-driven
    /// nodes in slots 5 to 7, every hostname and address blank.
    fn default() -> (r: Self)
        ensures
            r.ssh_username@ == Seq::<char>::empty(),
            r.cluster.ip_address@ == Seq::<char>::empty(),
            r.cluster.nodes@.len() == 6,
            default_node(r.cluster.nodes@[0], 1, Model::LPI3H),
            default_node(r.cluster.nodes@[1], 2, Model::CM4),
            default_node(r.cluster.nodes@[2], 3, Model::CM4),
            default_node(r.cluster.nodes@[3], 5, Model::CM5),
            default_node(r.cluster.nodes@[4], 6, Model::CM5),
            default_node(r.cluster.nodes@[5], 7, Model::CM5),
            r.cluster.wf(),
    {
        let mut nodes: Vec<Node> = Vec::new();
        nodes.push(Node {
            ip_address: String::new(),
            hostname: String::new(),
            model: Model::LPI3H,
            slot_number: 1,
        });
        nodes.push(Node {
            ip_address: String::new(),
            hostname: String::new(),
            model: Model::CM4,
            slot_number: 2,
        });
        nodes.push(Node {
            ip_address: String::new(),
            hostname: String::new(),
            model: Model::CM4,
            slot_number: 3,
        });
        nodes.push(Node {
            ip_address: String::new(),
            hostname: String::new(),
            model: Model::CM5,
            slot_number: 5,
        });
        nodes.push(Node {
            ip_address: String::new(),
            hostname: String::new(),
            model: Model::CM5,
            slot_number: 6,
        });
        nodes.push(Node {
            ip_address: String::new(),
            hostname: String::new(),
            model: Model::CM5,
            slot_number: 7,
        });
        let cluster = Cluster { ip_address: String::new(), nodes };
        proof {
            assert(cluster.has_slot(CONTROLLER_SLOT)) by {
                assert(cluster.nodes@[0].slot_number == CONTROLLER_SLOT);
            }
        }
        Config { ssh_username: String::new(), cluster }
    }
}

} // verus!
