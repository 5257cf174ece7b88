use nanocluster_control::cli::FanMode;
use nanocluster_control::power::{power_state_from_probe, PowerError, PowerState};
use nanocluster_control::protocol::{
    assert_line, boot_actions, pulse_line, shutdown_actions, Action, Model,
};

#[test]
fn probe_success_reads_on_probe_failure_reads_off() {
    assert_eq!(power_state_from_probe(true), PowerState::On);
    assert_eq!(power_state_from_probe(false), PowerState::Off);
}

#[test]
fn power_state_has_no_persisted_state() {
    // Two consecutive derivations from the same probe outcome agree.
    let first = power_state_from_probe(true);
    let second = power_state_from_probe(true);
    assert_eq!(first, second);
    let first = power_state_from_probe(false);
    let second = power_state_from_probe(false);
    assert_eq!(first, second);
}

#[test]
fn state_labels() {
    assert_eq!(PowerState::On.label(), "ON");
    assert_eq!(PowerState::Off.label(), "OFF");
}

#[test]
fn model_labels() {
    assert_eq!(Model::CM5.label(), "CM5");
    assert_eq!(Model::CM4.label(), "CM4");
    assert_eq!(Model::LPI3H.label(), "LPI3H");
}

#[test]
fn fan_mode_labels() {
    assert_eq!(FanMode::Disabled.label(), "disabled");
    assert_eq!(FanMode::Enabled.label(), "enabled");
}

#[test]
fn assert_line_builds_the_addressed_action() {
    assert_eq!(assert_line(2, 1), Action::SetLine { slot: 2, level: 1 });
    assert_eq!(assert_line(5, 0), Action::SetLine { slot: 5, level: 0 });
}

#[test]
fn pulse_is_low_then_gap_then_high() {
    let pulse = pulse_line(3);
    assert_eq!(
        pulse,
        vec![
            Action::SetLine { slot: 3, level: 0 },
            Action::Wait { millis: 1000 },
            Action::SetLine { slot: 3, level: 1 },
        ]
    );
}

#[test]
fn level_driven_boot_asserts_level_one() {
    let plan = boot_actions(Model::CM4, 2).unwrap();
    assert_eq!(plan, vec![Action::SetLine { slot: 2, level: 1 }]);
}

#[test]
fn level_driven_shutdown_asserts_level_zero_after_the_settle_delay() {
    let plan = shutdown_actions(Model::CM4, 2).unwrap();
    assert_eq!(
        plan,
        vec![
            Action::TargetShutdown { slot: 2 },
            Action::Wait { millis: 2000 },
            Action::SetLine { slot: 2, level: 0 },
        ]
    );
}

#[test]
fn pulse_driven_boot_and_shutdown_use_the_same_single_pulse() {
    let boot = boot_actions(Model::CM5, 3).unwrap();
    let shutdown = shutdown_actions(Model::CM5, 3).unwrap();
    assert_eq!(boot, pulse_line(3));
    // The shutdown relay, after the target shutdown and the settle delay,
    // is exactly the boot pulse.
    assert_eq!(shutdown[2..].to_vec(), boot);
    // One pulse per invocation: exactly one low edge and one high edge.
    let lows = boot
        .iter()
        .filter(|a| matches!(a, Action::SetLine { level: 0, .. }))
        .count();
    let highs = boot
        .iter()
        .filter(|a| matches!(a, Action::SetLine { level: 1, .. }))
        .count();
    assert_eq!(lows, 1);
    assert_eq!(highs, 1);
}

#[test]
fn shutdown_order_is_target_then_settle_then_relay() {
    for model in [Model::CM4, Model::CM5] {
        let plan = shutdown_actions(model, 6).unwrap();
        assert_eq!(plan[0], Action::TargetShutdown { slot: 6 });
        assert_eq!(plan[1], Action::Wait { millis: 2000 });
        // The relay never touches the target host again.
        for action in &plan[2..] {
            assert!(!matches!(action, Action::TargetShutdown { .. }));
        }
    }
}

#[test]
fn controller_class_model_has_no_protocol() {
    assert_eq!(boot_actions(Model::LPI3H, 4), Err(PowerError::UnsupportedModel));
    assert_eq!(
        shutdown_actions(Model::LPI3H, 4),
        Err(PowerError::UnsupportedModel)
    );
}
