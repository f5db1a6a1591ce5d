use gdnd::config::Config;
use gdnd::detection::FindingType;
use gdnd::detectors::{L1PassiveDetector, L2ActiveDetector};
use gdnd::device::{CheckResult, DeviceId};
use gdnd::health_manager::GpuHealthManager;
use gdnd::healing::{HealingAction, HealingConfig, HealingStrategy, SelfHealer};
use gdnd::device::DeviceType;
use gdnd::mock::MockDevice;
use gdnd::node_ops::{should_skip_pod, IsolationConfig, PodInfo};
use gdnd::scheduler::{DetectionScheduler, IsolationRequest};
use gdnd::state_machine::{HealthState, IsolationAction};

const FATAL: [u32; 4] = [31, 43, 48, 79];

fn scheduler(recovery: Option<u32>) -> DetectionScheduler {
    let manager = match recovery {
        Some(r) => GpuHealthManager::with_recovery(3, r, FATAL.to_vec()),
        None => GpuHealthManager::new(3, FATAL.to_vec()),
    };
    DetectionScheduler::new(manager, 30_000, 300_000)
}

fn l1_tick(s: &mut DetectionScheduler, mock: &MockDevice) -> Vec<IsolationRequest> {
    let detector = L1PassiveDetector::new(85, FATAL.to_vec());
    let mut out = Vec::new();
    for d in mock.list_devices().unwrap() {
        let r = detector.detect(&d, mock.get_metrics(&d), mock.get_xid_errors(&d), mock.check_zombie_processes(&d));
        if let Some(req) = s.process_result(&r) {
            out.push(req);
        }
    }
    out
}

fn l2_tick_with(s: &mut DetectionScheduler, device: &DeviceId, probe: CheckResult) -> Option<IsolationRequest> {
    let detector = L2ActiveDetector::new("/usr/local/bin/gpu-check".to_string(), 5000);
    let r = detector.detect(device, Ok(probe)).unwrap();
    s.process_result(&r)
}

fn first(mock: &MockDevice) -> DeviceId {
    mock.list_devices().unwrap()[0].clone()
}

#[test]
fn test_scheduler_run_once() {
    let mock = MockDevice::new();
    let mut s = scheduler(None);
    assert!(l1_tick(&mut s, &mock).is_empty());
    for d in mock.list_devices().unwrap() {
        assert!(l2_tick_with(&mut s, &d, mock.run_active_check(&d, 5000).unwrap()).is_none());
    }
    assert_eq!(s.health().all().len(), 2);
}

#[test]
fn healthy_steady_state() {
    let mock = MockDevice::new();
    let mut s = scheduler(None);
    let d = first(&mock);
    for _ in 0..5 {
        assert!(l1_tick(&mut s, &mock).is_empty());
        assert!(l2_tick_with(&mut s, &d, mock.run_active_check(&d, 5000).unwrap()).is_none());
    }
    let h = s.health().get(&d).unwrap();
    assert_eq!(h.state, HealthState::Healthy);
    assert_eq!(h.failure_count, 0);
}

#[test]
fn thermal_suspicion_then_recovery() {
    let mut mock = MockDevice::with_device_count(1);
    let mut s = scheduler(None);
    let d = first(&mock);
    mock.set_temperature(90);
    l1_tick(&mut s, &mock);
    let h = s.health().get(&d).unwrap();
    assert_eq!(h.state, HealthState::Suspected);
    assert_eq!(h.failure_count, 1);
    assert_eq!(h.last_findings.len(), 1);
    assert_eq!(h.last_findings[0].finding_type, FindingType::HighTemperature);

    mock.set_temperature(70);
    l1_tick(&mut s, &mock);
    let h = s.health().get(&d).unwrap();
    assert_eq!(h.state, HealthState::Healthy);
    assert_eq!(h.failure_count, 0);
}

#[test]
fn fatal_fault_isolates_after_executor_success() {
    let mut mock = MockDevice::with_device_count(1);
    let mut s = scheduler(None);
    let d = first(&mock);
    mock.add_xid_error(31, 0);
    let reqs = l1_tick(&mut s, &mock);
    assert_eq!(reqs.len(), 1);
    let t = &reqs[0].transition;
    assert_eq!(t.from, HealthState::Healthy);
    assert_eq!(t.to, HealthState::Unhealthy);
    assert_eq!(t.actions.len(), 3);
    assert_eq!(t.actions[0], IsolationAction::Cordon);
    match &t.actions[1] {
        IsolationAction::Taint { effect, .. } => assert_eq!(effect, "NoSchedule"),
        other => panic!("expected a taint, got {:?}", other),
    }
    match &t.actions[2] {
        IsolationAction::Alert { severity, .. } => assert_eq!(severity, "critical"),
        other => panic!("expected an alert, got {:?}", other),
    }
    assert!(reqs[0].heal_steps.is_empty());

    let done = s.complete_isolation(&d, true).unwrap();
    assert_eq!(done.to, HealthState::Isolated);
    assert_eq!(s.health().get(&d).unwrap().state, HealthState::Isolated);
}

#[test]
fn executor_failure_defers_isolation() {
    let mut mock = MockDevice::with_device_count(1);
    let mut s = scheduler(None);
    let d = first(&mock);
    mock.add_xid_error(79, 0);
    assert_eq!(l1_tick(&mut s, &mock).len(), 1);
    assert!(s.complete_isolation(&d, false).is_none());
    assert_eq!(s.health().get(&d).unwrap().state, HealthState::Unhealthy);
    assert!(l1_tick(&mut s, &mock).is_empty());
    assert!(s.complete_isolation(&d, true).is_some());
    assert_eq!(s.health().get(&d).unwrap().state, HealthState::Isolated);
}

#[test]
fn consecutive_non_fatal_failures() {
    let mut mock = MockDevice::with_device_count(1);
    let mut s = scheduler(None);
    let d = first(&mock);
    mock.set_temperature(90);
    assert!(l1_tick(&mut s, &mock).is_empty());
    assert!(l1_tick(&mut s, &mock).is_empty());
    assert_eq!(s.health().get(&d).unwrap().failure_count, 2);
    let reqs = l1_tick(&mut s, &mock);
    assert_eq!(reqs.len(), 1);
    assert_eq!(reqs[0].transition.actions.len(), 3);
    assert_eq!(s.health().get(&d).unwrap().state, HealthState::Unhealthy);
}

#[test]
fn active_probe_timeout() {
    let mut s = scheduler(None);
    let d = DeviceId { index: 0, uuid: Some("GPU-X".to_string()), name: "x".to_string() };
    let probe = || CheckResult {
        passed: false,
        duration_ms: 5000,
        error: Some("gpu-check timed out".to_string()),
        exit_code: None,
    };
    assert!(l2_tick_with(&mut s, &d, probe()).is_none());
    let h = s.health().get(&d).unwrap();
    assert_eq!(h.state, HealthState::Suspected);
    assert_eq!(h.last_findings.len(), 1);
    assert_eq!(h.last_findings[0].finding_type, FindingType::ActiveCheckTimeout);
    assert!(l2_tick_with(&mut s, &d, probe()).is_none());
    let req = l2_tick_with(&mut s, &d, probe()).unwrap();
    assert_eq!(req.transition.to, HealthState::Unhealthy);
}

#[test]
fn isolation_with_recovery() {
    let mut mock = MockDevice::with_device_count(1);
    let mut s = scheduler(Some(3));
    let d = first(&mock);
    mock.add_xid_error(43, 0);
    l1_tick(&mut s, &mock);
    s.complete_isolation(&d, true);
    mock.clear_xid_errors();

    assert!(l1_tick(&mut s, &mock).is_empty());
    assert!(l1_tick(&mut s, &mock).is_empty());
    assert_eq!(s.health().get(&d).unwrap().recovery_count, 2);
    mock.set_temperature(95);
    l1_tick(&mut s, &mock);
    assert_eq!(s.health().get(&d).unwrap().recovery_count, 0);
    assert_eq!(s.health().get(&d).unwrap().state, HealthState::Isolated);
    mock.set_temperature(45);

    let detector = L1PassiveDetector::new(85, FATAL.to_vec());
    for _ in 0..3 {
        let r = detector.detect(&d, mock.get_metrics(&d), mock.get_xid_errors(&d), mock.check_zombie_processes(&d));
        assert!(r.passed);
        assert!(s.process_result(&r).is_none());
    }
    let h = s.health().get(&d).unwrap();
    assert_eq!(h.state, HealthState::Healthy);
    assert_eq!(h.recovery_count, 0);
}

#[test]
fn recovery_transition_emits_recovery_actions() {
    let mut m = GpuHealthManager::with_recovery(3, 3, FATAL.to_vec());
    let d = DeviceId { index: 1, uuid: None, name: String::new() };
    let fatal = gdnd::state_machine::HealthEvent::FatalError {
        findings: vec![gdnd::detection::Finding::fatal_xid(79, "GPU has fallen off the bus")],
    };
    m.transition(&d, fatal);
    m.transition(&d, gdnd::state_machine::HealthEvent::IsolationCompleted);
    m.transition(&d, gdnd::state_machine::HealthEvent::CheckPassed);
    m.transition(&d, gdnd::state_machine::HealthEvent::CheckPassed);
    let t = m.transition(&d, gdnd::state_machine::HealthEvent::CheckPassed);
    assert_eq!(
        t.actions,
        vec![
            IsolationAction::RemoveTaint { key: "nvidia.com/gpu-health".to_string() },
            IsolationAction::Uncordon,
            IsolationAction::Alert {
                message: "GPU1 recovered and restored to service".to_string(),
                severity: "info".to_string()
            },
        ]
    );
}

#[test]
fn healer_steps_come_with_isolation() {
    let mut mock = MockDevice::with_device_count(1);
    let config = HealingConfig { enabled: true, strategy: HealingStrategy::Moderate, ..Default::default() };
    let mut s = scheduler(None).with_healer(SelfHealer::new(config, DeviceType::Nvidia)).with_l3(86_400_000);
    assert_eq!(s.l3_interval_ms(), Some(86_400_000));
    assert_eq!(s.l1_interval_ms(), 30_000);
    mock.add_xid_error(48, 0);
    let reqs = l1_tick(&mut s, &mock);
    assert_eq!(
        reqs[0].heal_steps,
        vec![HealingAction::KillZombieProcesses, HealingAction::GpuSoftReset { device_index: 0 }]
    );
}

#[test]
fn config_drives_defaults_end_to_end() {
    let c = Config::default();
    assert!(c.validate().is_ok());
    let m = c.health_manager();
    assert!(!m.is_recovery_enabled());
    let healer = c.healer();
    assert!(!healer.is_enabled());
}

#[test]
fn isolation_config_gates_actions() {
    let mut c = IsolationConfig::default();
    assert!(c.applies(&IsolationAction::Cordon));
    assert!(!c.applies(&IsolationAction::EvictPods));
    assert!(!c.applies(&IsolationAction::Alert { message: String::new(), severity: "info".to_string() }));
    assert!(c.applies(&IsolationAction::RemoveTaint { key: "k".to_string() }));
    c.cordon = false;
    c.evict_pods = true;
    assert!(!c.applies(&IsolationAction::Cordon));
    assert!(c.applies(&IsolationAction::EvictPods));
}

#[test]
fn eviction_skips_system_pods() {
    let pod = |ns: &str, name: &str, ann: Vec<&str>, owners: Vec<&str>| PodInfo {
        namespace: Some(ns.to_string()),
        name: Some(name.to_string()),
        annotation_keys: ann.into_iter().map(String::from).collect(),
        owner_kinds: owners.into_iter().map(String::from).collect(),
    };
    assert!(should_skip_pod(&pod("default", "web", vec!["kubernetes.io/config.mirror"], vec![])));
    assert!(should_skip_pod(&pod("default", "agent", vec![], vec!["ReplicaSet", "DaemonSet"])));
    assert!(should_skip_pod(&pod("kube-system", "kube-proxy-abc", vec![], vec![])));
    assert!(should_skip_pod(&pod("kube-system", "calico-node-1", vec![], vec![])));
    assert!(!should_skip_pod(&pod("kube-system", "coredns-1", vec![], vec![])));
    assert!(!should_skip_pod(&pod("default", "kube-proxy-abc", vec![], vec![])));
    assert!(!should_skip_pod(&pod("default", "train", vec!["note"], vec!["Job"])));
}
