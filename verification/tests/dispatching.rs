use nanocluster_control::config::{Cluster, Config, Node};
use nanocluster_control::dispatch::{batch_targets, check_single_target};
use nanocluster_control::power::PowerError;
use nanocluster_control::protocol::{Action, Model};
use nanocluster_control::sequencer::{plan_node_op, NodePlan, PowerOp, SkipReason};

fn node(slot: i32, model: Model, hostname: &str) -> Node {
    Node {
        ip_address: String::new(),
        hostname: hostname.to_owned(),
        model,
        slot_number: slot,
    }
}

/// Three nodes: the controller in slot 1, a level-driven node in slot 2,
/// a pulse-driven node in slot 3.
fn three_node_cluster() -> Cluster {
    Cluster {
        ip_address: String::new(),
        nodes: vec![
            node(1, Model::LPI3H, "controller"),
            node(2, Model::CM4, "node2"),
            node(3, Model::CM5, "node3"),
        ],
    }
}

#[test]
fn the_controller_is_rejected_as_a_single_target() {
    let cluster = three_node_cluster();
    assert_eq!(
        check_single_target(&cluster, 1),
        Err(PowerError::ControllerProtected)
    );
}

#[test]
fn a_missing_slot_is_rejected_as_a_single_target() {
    let cluster = three_node_cluster();
    assert_eq!(check_single_target(&cluster, 9), Err(PowerError::NodeNotFound));
}

#[test]
fn a_present_slot_resolves_to_its_node() {
    let cluster = three_node_cluster();
    assert_eq!(check_single_target(&cluster, 2), Ok(1));
    assert_eq!(check_single_target(&cluster, 3), Ok(2));
}

#[test]
fn the_batch_excludes_the_controller_and_covers_everyone_else() {
    let cluster = three_node_cluster();
    let targets = batch_targets(&cluster);
    assert_eq!(targets, vec![1, 2]);
    for &i in &targets {
        assert_ne!(cluster.nodes[i].slot_number, 1);
    }
}

#[test]
fn batch_boot_scenario_over_three_nodes() {
    // Slot 2 (level-driven) reads off, slot 3 (pulse-driven) reads on:
    // boot-all issues one line assert for slot 2, zero calls for slot 3,
    // and never targets slot 1.
    let cluster = three_node_cluster();
    let probed_on = |slot: i32| slot == 3;
    let mut all_actions: Vec<Action> = Vec::new();
    let mut skips = 0;
    for i in batch_targets(&cluster) {
        let n = &cluster.nodes[i];
        let plan = plan_node_op(PowerOp::Boot, n.model, n.slot_number, probed_on(n.slot_number));
        match plan.unwrap() {
            NodePlan::Skip(reason) => {
                assert_eq!(reason, SkipReason::AlreadyOn);
                assert_eq!(n.slot_number, 3);
                skips += 1;
            }
            NodePlan::Run(actions) => all_actions.extend(actions),
        }
    }
    assert_eq!(skips, 1);
    assert_eq!(all_actions, vec![Action::SetLine { slot: 2, level: 1 }]);
}

#[test]
fn batch_keeps_going_past_a_failing_node() {
    // Four nodes; the one in slot 4 has no control protocol and fails.
    // Every other non-controller node is still attempted and planned.
    let cluster = Cluster {
        ip_address: String::new(),
        nodes: vec![
            node(1, Model::LPI3H, "controller"),
            node(2, Model::CM4, "node2"),
            node(4, Model::LPI3H, "node4"),
            node(5, Model::CM5, "node5"),
        ],
    };
    let targets = batch_targets(&cluster);
    assert_eq!(targets.len(), 3);
    let mut attempted = Vec::new();
    let mut failures = Vec::new();
    for i in targets {
        let n = &cluster.nodes[i];
        attempted.push(n.slot_number);
        // Every node reads off, so boot acts on each.
        if let Err(e) = plan_node_op(PowerOp::Boot, n.model, n.slot_number, false) {
            failures.push((n.slot_number, e));
            continue;
        }
    }
    assert_eq!(attempted, vec![2, 4, 5]);
    assert_eq!(failures, vec![(4, PowerError::UnsupportedModel)]);
}

#[test]
fn the_default_topology_is_the_six_slot_fleet() {
    let config = Config::default();
    assert_eq!(config.ssh_username, "");
    assert_eq!(config.cluster.ip_address, "");
    let slots: Vec<i32> = config.cluster.nodes.iter().map(|n| n.slot_number).collect();
    assert_eq!(slots, vec![1, 2, 3, 5, 6, 7]);
    let models: Vec<Model> = config.cluster.nodes.iter().map(|n| n.model).collect();
    assert_eq!(
        models,
        vec![
            Model::LPI3H,
            Model::CM4,
            Model::CM4,
            Model::CM5,
            Model::CM5,
            Model::CM5,
        ]
    );
    for n in &config.cluster.nodes {
        assert_eq!(n.hostname, "");
        assert_eq!(n.ip_address, "");
    }
}

#[test]
fn find_node_returns_the_first_match_or_nothing() {
    let cluster = three_node_cluster();
    assert_eq!(cluster.find_node(1), Some(0));
    assert_eq!(cluster.find_node(3), Some(2));
    assert_eq!(cluster.find_node(8), None);
}
