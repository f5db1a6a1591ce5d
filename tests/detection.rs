use gdnd::detection::{DetectionLevel, DetectionResult, Finding, FindingType};
use gdnd::detectors::{L1PassiveDetector, L2ActiveDetector, L3PcieConfig, L3PcieDetector};
use gdnd::device::{CheckResult, DeviceError, DeviceId, DeviceMetrics, EccErrors, XidError};
use gdnd::mock::MockDevice;

fn l1_on(detector: &L1PassiveDetector, mock: &MockDevice, device: &DeviceId) -> DetectionResult {
    detector.detect(
        device,
        mock.get_metrics(device),
        mock.get_xid_errors(device),
        mock.check_zombie_processes(device),
    )
}

#[test]
fn test_l1_detect_healthy() {
    let mock = MockDevice::new();
    let detector = L1PassiveDetector::new(85, vec![31, 43, 48, 79]);
    let devices = mock.list_devices().unwrap();
    let result = l1_on(&detector, &mock, &devices[0]);
    assert!(result.passed);
    assert!(result.findings.is_empty());
}

#[test]
fn test_l1_detect_high_temp() {
    let mut mock = MockDevice::new();
    mock.set_temperature(90);
    let detector = L1PassiveDetector::new(85, vec![31, 43, 48, 79]);
    let devices = mock.list_devices().unwrap();
    let result = l1_on(&detector, &mock, &devices[0]);
    assert!(!result.passed);
    assert!(result.findings.iter().any(|f| matches!(f.finding_type, FindingType::HighTemperature)));
}

#[test]
fn test_l1_detect_fatal_xid() {
    let mut mock = MockDevice::new();
    mock.add_xid_error(31, 0);
    let detector = L1PassiveDetector::new(85, vec![31, 43, 48, 79]);
    let devices = mock.list_devices().unwrap();
    let result = l1_on(&detector, &mock, &devices[0]);
    assert!(!result.passed);
    assert!(result.has_fatal_finding());
}

#[test]
fn test_l1_detect_zombie() {
    let mut mock = MockDevice::new();
    mock.add_zombie_pid(12345);
    let detector = L1PassiveDetector::new(85, vec![31, 43, 48, 79]);
    let devices = mock.list_devices().unwrap();
    let result = l1_on(&detector, &mock, &devices[0]);
    assert!(!result.passed);
    assert!(result.findings.iter().any(|f| matches!(f.finding_type, FindingType::ZombieProcess)));
}

fn metrics(temp: u32, double_bit: u64) -> DeviceMetrics {
    DeviceMetrics {
        temperature: temp,
        gpu_utilization: 0,
        memory_utilization: 0,
        power_usage: 0,
        power_limit: 0,
        memory_total: 0,
        memory_used: 0,
        memory_free: 0,
        pcie_tx: None,
        pcie_rx: None,
        ecc_errors: EccErrors { single_bit: 0, double_bit },
        timestamp_ms: 0,
    }
}

#[test]
fn l1_unions_sub_checks_in_order() {
    let detector = L1PassiveDetector::new(85, vec![31, 43, 48, 79]);
    let device = DeviceId { index: 1, uuid: None, name: String::new() };
    let xids = vec![
        XidError { code: 13, message: "Graphics Engine Exception".to_string(), timestamp_ms: 0, device_index: 1 },
        XidError { code: 79, message: "GPU has fallen off the bus".to_string(), timestamp_ms: 0, device_index: 1 },
    ];
    let r = detector.detect(&device, Ok(metrics(86, 2)), Ok(xids), Ok(vec![7]));
    assert_eq!(r.level, DetectionLevel::L1Passive);
    assert!(!r.passed);
    let kinds: Vec<FindingType> = r.findings.iter().map(|f| f.finding_type).collect();
    assert_eq!(
        kinds,
        vec![
            FindingType::HighTemperature,
            FindingType::DoubleBitEcc,
            FindingType::NonFatalXid(13),
            FindingType::FatalXid(79),
            FindingType::ZombieProcess
        ]
    );
    assert_eq!(r.findings[0].message, "Temperature 86C exceeds threshold 85C");
    assert_eq!(r.findings[1].message, "Double-bit ECC errors detected: 2");
    assert!(r.findings[1].is_fatal);
    assert!(!r.findings[2].is_fatal);
    assert_eq!(r.findings[4].message, "Zombie GPU process detected: PID 7");
    assert!(r.has_fatal_finding());
}

#[test]
fn l1_query_errors_degrade_silently() {
    let detector = L1PassiveDetector::new(85, vec![31]);
    let device = DeviceId { index: 0, uuid: None, name: String::new() };
    let err = || DeviceError::QueryError("unavailable".to_string());
    let r = detector.detect(&device, Err(err()), Err(err()), Err(err()));
    assert!(r.passed);
    assert!(r.findings.is_empty());
    let at_threshold = detector.detect(&device, Ok(metrics(85, 0)), Ok(vec![]), Ok(vec![]));
    assert!(at_threshold.passed);
}

#[test]
fn test_l2_detect_pass() {
    let mock = MockDevice::new();
    let detector = L2ActiveDetector::new("/usr/local/bin/gpu-check".to_string(), 5000);
    let devices = mock.list_devices().unwrap();
    let result = detector.detect(&devices[0], mock.run_active_check(&devices[0], 5000)).unwrap();
    assert!(result.passed);
    assert!(result.findings.is_empty());
}

#[test]
fn test_l2_detect_fail() {
    let mut mock = MockDevice::new();
    mock.set_fail_active_check(true);
    let detector = L2ActiveDetector::new("/usr/local/bin/gpu-check".to_string(), 5000);
    let devices = mock.list_devices().unwrap();
    let result = detector.detect(&devices[0], mock.run_active_check(&devices[0], 5000)).unwrap();
    assert!(!result.passed);
    assert!(result.findings.iter().any(|f| matches!(f.finding_type, FindingType::ActiveCheckFailure)));
    assert_eq!(result.findings[0].message, "Mock active check failure");
}

#[test]
fn l2_timeout_iff_message_says_timed_out() {
    let detector = L2ActiveDetector::new("/usr/local/bin/gpu-check".to_string(), 5000);
    let device = DeviceId { index: 0, uuid: None, name: String::new() };
    let timed = detector.detect(&device, Ok(CheckResult::timeout(5000))).unwrap();
    assert_eq!(timed.findings.len(), 1);
    assert_eq!(timed.findings[0].finding_type, FindingType::ActiveCheckTimeout);
    assert_eq!(timed.findings[0].message, "Active check timed out after 5000ms");

    let other = detector.detect(&device, Ok(CheckResult::failure(3, "timeout".to_string(), None))).unwrap();
    assert_eq!(other.findings[0].finding_type, FindingType::ActiveCheckFailure);
    assert_eq!(other.findings[0].message, "timeout");

    let silent = CheckResult { passed: false, duration_ms: 1, error: None, exit_code: Some(2) };
    let r = detector.detect(&device, Ok(silent)).unwrap();
    assert_eq!(r.findings[0].message, "Unknown error");

    let e = detector.detect(&device, Err(DeviceError::CheckError("spawn".to_string())));
    assert_eq!(e, Err(DeviceError::CheckError("spawn".to_string())));
}

#[test]
fn test_l3_pcie_supported() {
    let mock = MockDevice::new();
    let detector = L3PcieDetector::new(mock.supports_pcie_test());
    assert!(detector.is_supported());
}

#[test]
fn test_l3_pcie_detect_pass() {
    let mock = MockDevice::new();
    let detector = L3PcieDetector::new(mock.supports_pcie_test());
    let devices = mock.list_devices().unwrap();
    let result = detector.detect(&devices[0], Some(mock.run_pcie_test(&devices[0]))).unwrap();
    assert!(result.passed);
    assert!(result.findings.is_empty());
    assert_eq!(result.level, DetectionLevel::L3Pcie);
}

#[test]
fn test_l3_pcie_detect_all() {
    let mock = MockDevice::new();
    let detector = L3PcieDetector::new(mock.supports_pcie_test());
    assert!(!detector.skips_all());
    let results: Vec<DetectionResult> = mock
        .list_devices()
        .unwrap()
        .iter()
        .map(|d| detector.detect(d, Some(mock.run_pcie_test(d))).unwrap())
        .collect();
    assert_eq!(results.len(), 2);
    assert!(results.iter().all(|r| r.passed));
}

#[test]
fn test_l3_pcie_config() {
    let mock = MockDevice::new();
    let config = L3PcieConfig { min_bandwidth_mbps: 12_000, skip_if_unsupported: false };
    let detector = L3PcieDetector::with_config(mock.supports_pcie_test(), config);
    assert!(detector.is_supported());
}

#[test]
fn test_l3_pcie_detect_fail() {
    let mut mock = MockDevice::new();
    mock.set_fail_pcie_test(true);
    let detector = L3PcieDetector::new(mock.supports_pcie_test());
    let devices = mock.list_devices().unwrap();
    let result = detector.detect(&devices[0], Some(mock.run_pcie_test(&devices[0]))).unwrap();
    assert!(!result.passed);
    assert!(result.findings.iter().any(|f| matches!(f.finding_type, FindingType::PcieDegradation)));
    assert!(!result.has_fatal_finding());
}

#[test]
fn l3_unsupported_skips_or_reports() {
    let device = DeviceId { index: 0, uuid: None, name: String::new() };
    let skipping = L3PcieDetector::new(false);
    assert!(skipping.skips_all());
    let r = skipping.detect(&device, None).unwrap();
    assert!(r.passed);
    assert!(r.findings.is_empty());

    let strict = L3PcieDetector::with_config(false, L3PcieConfig { min_bandwidth_mbps: 8000, skip_if_unsupported: false });
    assert!(!strict.skips_all());
    let r = strict.detect(&device, None).unwrap();
    assert!(!r.passed);
    assert_eq!(r.findings[0].message, "PCIe bandwidth test not supported on this device");
    assert!(!r.findings[0].is_fatal);
}

#[test]
fn finding_constructors() {
    let f = Finding::high_temperature(90, 85);
    assert_eq!(f.message, "Temperature 90C exceeds threshold 85C");
    assert!(!f.is_fatal);
    let f = Finding::fatal_xid(31, "GPU memory page fault");
    assert_eq!(f.finding_type, FindingType::FatalXid(31));
    assert!(f.is_fatal);
    let f = Finding::double_bit_ecc(18446744073709551615);
    assert_eq!(f.message, "Double-bit ECC errors detected: 18446744073709551615");
    let f = Finding::zombie_process(0);
    assert_eq!(f.message, "Zombie GPU process detected: PID 0");
    let f = Finding::active_check_failure("boom");
    assert_eq!(f.message, "boom");
    let r = DetectionResult::pass(DeviceId { index: 0, uuid: None, name: String::new() }, DetectionLevel::L2Active);
    assert!(r.passed && !r.has_fatal_finding());
    assert_eq!(DetectionLevel::L3Pcie.name(), "L3");
}
