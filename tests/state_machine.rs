use gdnd::detection::Finding;
use gdnd::device::DeviceId;
use gdnd::health_manager::GpuHealthManager;
use gdnd::state_machine::{HealthEvent, HealthState, IsolationAction};

fn test_device(index: u32) -> DeviceId {
    DeviceId { index, uuid: Some(format!("GPU-TEST-{}", index)), name: "Test GPU".to_string() }
}

#[test]
fn test_healthy_to_suspected() {
    let mut manager = GpuHealthManager::new(3, vec![31, 43, 48, 79]);
    let device = test_device(0);

    let findings = vec![Finding::high_temperature(90, 85)];
    let transition = manager.transition(&device, HealthEvent::CheckFailed { findings: findings.clone() });

    assert!(transition.changed);
    assert_eq!(transition.from, HealthState::Healthy);
    assert_eq!(transition.to, HealthState::Suspected);
    assert!(transition.actions.is_empty());

    let health = manager.get(&device).unwrap();
    assert_eq!(health.state, HealthState::Suspected);
    assert_eq!(health.failure_count, 1);
}

#[test]
fn test_suspected_to_healthy() {
    let mut manager = GpuHealthManager::new(3, vec![31, 43, 48, 79]);
    let device = test_device(0);

    manager.transition(&device, HealthEvent::CheckFailed { findings: vec![Finding::high_temperature(90, 85)] });
    let transition = manager.transition(&device, HealthEvent::CheckPassed);

    assert!(transition.changed);
    assert_eq!(transition.from, HealthState::Suspected);
    assert_eq!(transition.to, HealthState::Healthy);

    let health = manager.get(&device).unwrap();
    assert_eq!(health.state, HealthState::Healthy);
    assert_eq!(health.failure_count, 0);
    assert!(health.last_findings.is_empty());
}

#[test]
fn test_suspected_to_unhealthy_threshold() {
    let mut manager = GpuHealthManager::new(3, vec![31, 43, 48, 79]);
    let device = test_device(0);
    let findings = vec![Finding::high_temperature(90, 85)];

    for _ in 0..2 {
        manager.transition(&device, HealthEvent::CheckFailed { findings: findings.clone() });
        assert!(
            manager.get(&device).unwrap().state == HealthState::Healthy
                || manager.get(&device).unwrap().state == HealthState::Suspected
        );
    }

    let transition = manager.transition(&device, HealthEvent::CheckFailed { findings: findings.clone() });

    assert!(transition.changed);
    assert_eq!(transition.to, HealthState::Unhealthy);
    assert!(!transition.actions.is_empty());

    let health = manager.get(&device).unwrap();
    assert_eq!(health.state, HealthState::Unhealthy);
}

#[test]
fn test_fatal_error_immediate_unhealthy() {
    let mut manager = GpuHealthManager::new(3, vec![31, 43, 48, 79]);
    let device = test_device(0);

    let findings = vec![Finding::fatal_xid(31, "GPU memory page fault")];
    let transition = manager.transition(&device, HealthEvent::FatalError { findings: findings.clone() });

    assert!(transition.changed);
    assert_eq!(transition.from, HealthState::Healthy);
    assert_eq!(transition.to, HealthState::Unhealthy);
    assert!(!transition.actions.is_empty());
}

#[test]
fn test_unhealthy_to_isolated() {
    let mut manager = GpuHealthManager::new(3, vec![31, 43, 48, 79]);
    let device = test_device(0);

    manager.transition(&device, HealthEvent::FatalError { findings: vec![Finding::fatal_xid(79, "GPU fallen off the bus")] });
    let transition = manager.transition(&device, HealthEvent::IsolationCompleted);

    assert!(transition.changed);
    assert_eq!(transition.from, HealthState::Unhealthy);
    assert_eq!(transition.to, HealthState::Isolated);
}

#[test]
fn test_isolated_no_transition() {
    let mut manager = GpuHealthManager::new(3, vec![31, 43, 48, 79]);
    let device = test_device(0);

    manager.transition(&device, HealthEvent::FatalError { findings: vec![Finding::fatal_xid(79, "GPU fallen off the bus")] });
    manager.transition(&device, HealthEvent::IsolationCompleted);

    let transition = manager.transition(&device, HealthEvent::CheckPassed);
    assert!(!transition.changed);
    assert_eq!(transition.to, HealthState::Isolated);

    let transition =
        manager.transition(&device, HealthEvent::CheckFailed { findings: vec![Finding::high_temperature(90, 85)] });
    assert!(!transition.changed);
    assert_eq!(transition.to, HealthState::Isolated);
}

#[test]
fn test_isolated_recovery_enabled() {
    let mut manager = GpuHealthManager::with_recovery(3, 3, vec![31, 43, 48, 79]);
    let device = test_device(0);

    manager.transition(&device, HealthEvent::FatalError { findings: vec![Finding::fatal_xid(79, "GPU fallen off the bus")] });
    manager.transition(&device, HealthEvent::IsolationCompleted);
    assert_eq!(manager.get(&device).unwrap().state, HealthState::Isolated);

    for i in 0..2 {
        let transition = manager.transition(&device, HealthEvent::CheckPassed);
        assert!(!transition.changed);
        assert_eq!(transition.to, HealthState::Isolated);
        assert_eq!(manager.get(&device).unwrap().recovery_count, i + 1);
    }

    let transition = manager.transition(&device, HealthEvent::CheckPassed);
    assert!(transition.changed);
    assert_eq!(transition.from, HealthState::Isolated);
    assert_eq!(transition.to, HealthState::Healthy);
    assert!(!transition.actions.is_empty());

    let has_uncordon = transition.actions.iter().any(|a| matches!(a, IsolationAction::Uncordon));
    let has_remove_taint = transition.actions.iter().any(|a| matches!(a, IsolationAction::RemoveTaint { .. }));
    assert!(has_uncordon, "Recovery should include Uncordon action");
    assert!(has_remove_taint, "Recovery should include RemoveTaint action");

    let health = manager.get(&device).unwrap();
    assert_eq!(health.state, HealthState::Healthy);
    assert_eq!(health.failure_count, 0);
    assert_eq!(health.recovery_count, 0);
}

#[test]
fn test_isolated_recovery_reset_on_failure() {
    let mut manager = GpuHealthManager::with_recovery(3, 3, vec![31, 43, 48, 79]);
    let device = test_device(0);

    manager.transition(&device, HealthEvent::FatalError { findings: vec![Finding::fatal_xid(79, "GPU fallen off the bus")] });
    manager.transition(&device, HealthEvent::IsolationCompleted);

    manager.transition(&device, HealthEvent::CheckPassed);
    manager.transition(&device, HealthEvent::CheckPassed);
    assert_eq!(manager.get(&device).unwrap().recovery_count, 2);

    manager.transition(&device, HealthEvent::CheckFailed { findings: vec![Finding::high_temperature(90, 85)] });
    assert_eq!(manager.get(&device).unwrap().recovery_count, 0);
    assert_eq!(manager.get(&device).unwrap().state, HealthState::Isolated);
}

#[test]
fn threshold_one_skips_suspected() {
    let mut manager = GpuHealthManager::new(1, vec![]);
    let device = test_device(5);
    let t = manager.transition(&device, HealthEvent::CheckFailed { findings: vec![Finding::high_temperature(90, 85)] });
    assert_eq!(t.from, HealthState::Healthy);
    assert_eq!(t.to, HealthState::Unhealthy);
    assert_eq!(t.actions.len(), 3);
}

#[test]
fn repeated_pass_on_healthy_is_noop() {
    let mut manager = GpuHealthManager::new(3, vec![]);
    let device = test_device(0);
    for _ in 0..3 {
        let t = manager.transition(&device, HealthEvent::CheckPassed);
        assert!(!t.changed);
        assert!(t.actions.is_empty());
        assert_eq!(manager.get(&device).unwrap().state, HealthState::Healthy);
        assert_eq!(manager.get(&device).unwrap().failure_count, 0);
    }
}

#[test]
fn repeated_isolation_completed_is_noop() {
    let mut manager = GpuHealthManager::new(3, vec![]);
    let device = test_device(0);
    manager.transition(&device, HealthEvent::FatalError { findings: vec![Finding::fatal_xid(48, "Double Bit ECC Error")] });
    manager.transition(&device, HealthEvent::IsolationCompleted);
    let t = manager.transition(&device, HealthEvent::IsolationCompleted);
    assert!(!t.changed);
    assert!(t.actions.is_empty());
    assert_eq!(t.to, HealthState::Isolated);
}

#[test]
fn unhealthy_does_not_reemit_actions() {
    let mut manager = GpuHealthManager::new(3, vec![]);
    let device = test_device(0);
    let first = manager.transition(&device, HealthEvent::FatalError { findings: vec![Finding::fatal_xid(31, "a")] });
    assert_eq!(first.actions.len(), 3);
    let second = manager.transition(&device, HealthEvent::FatalError { findings: vec![Finding::fatal_xid(31, "b")] });
    assert!(!second.changed);
    assert!(second.actions.is_empty());
    let third = manager.transition(&device, HealthEvent::CheckFailed { findings: vec![] });
    assert!(third.actions.is_empty());
    assert_eq!(manager.get(&device).unwrap().state, HealthState::Unhealthy);
}

#[test]
fn isolation_actions_in_order_with_joined_alert() {
    let mut manager = GpuHealthManager::new(3, vec![]);
    let device = DeviceId { index: 2, uuid: None, name: String::new() };
    let t = manager.transition(
        &device,
        HealthEvent::FatalError {
            findings: vec![Finding::fatal_xid(31, "page fault"), Finding::high_temperature(90, 85)],
        },
    );
    assert_eq!(
        t.actions,
        vec![
            IsolationAction::Cordon,
            IsolationAction::Taint {
                key: "nvidia.com/gpu-health".to_string(),
                value: "failed".to_string(),
                effect: "NoSchedule".to_string()
            },
            IsolationAction::Alert {
                message: "GPU2 marked unhealthy: page fault, Temperature 90C exceeds threshold 85C".to_string(),
                severity: "critical".to_string()
            },
        ]
    );
    assert!(manager.has_unhealthy());
    let ids = manager.unhealthy_gpus();
    assert_eq!(ids.len(), 1);
    assert_eq!(ids[0].index, 2);
}

#[test]
fn records_are_keyed_by_uuid_then_index() {
    let mut manager = GpuHealthManager::new(3, vec![]);
    let a = DeviceId { index: 0, uuid: None, name: "a".to_string() };
    let same_index = DeviceId { index: 0, uuid: None, name: "renamed".to_string() };
    let with_uuid = DeviceId { index: 0, uuid: Some("U".to_string()), name: "a".to_string() };
    manager.transition(&a, HealthEvent::CheckFailed { findings: vec![] });
    assert_eq!(manager.get(&same_index).unwrap().state, HealthState::Suspected);
    assert!(manager.get(&with_uuid).is_none());
    manager.transition(&with_uuid, HealthEvent::CheckPassed);
    assert_eq!(manager.all().len(), 2);
    assert!(!manager.has_unhealthy());
    assert_eq!(HealthState::Isolated.status_code(), 3);
    assert_eq!(HealthState::Suspected.name(), "SUSPECTED");
}
