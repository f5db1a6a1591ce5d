use gdnd::ascend::{AscendDevice, AscendErrorCode};
use gdnd::device::{CheckResult, DeviceError, DeviceId, XidError};
use gdnd::mock::MockDevice;
use gdnd::xid::get_xid_description;

fn ascend() -> AscendDevice {
    AscendDevice {
        npu_smi_path: "/usr/local/bin/npu-smi".to_string(),
        npu_check_path: "/usr/local/bin/npu-check".to_string(),
        log_dir: "/var/log/npu/slog".to_string(),
        fatal_error_codes: vec![1001, 1002, 1007, 1008],
    }
}

#[test]
fn test_ascend_error_codes() {
    assert_eq!(AscendErrorCode::from_code(1001), AscendErrorCode::HbmError);
    assert_eq!(AscendErrorCode::from_code(1002), AscendErrorCode::AiCoreHang);
    assert_eq!(AscendErrorCode::from_code(1007), AscendErrorCode::DeviceLost);
    assert_eq!(AscendErrorCode::from_code(9999), AscendErrorCode::Unknown);

    assert!(AscendErrorCode::HbmError.is_fatal());
    assert!(AscendErrorCode::DeviceLost.is_fatal());
    assert!(!AscendErrorCode::OverTemperature.is_fatal());
}

#[test]
fn test_health_status_mapping() {
    let device = ascend();
    assert!(device.health_to_error("OK").is_none());
    assert_eq!(device.health_to_error("WARNING"), Some(AscendErrorCode::OverTemperature));
    assert_eq!(device.health_to_error("ERROR"), Some(AscendErrorCode::DeviceLost));
    assert_eq!(device.health_to_error("FAULT"), Some(AscendErrorCode::DeviceLost));
}

#[test]
fn health_mapping_ignores_case() {
    let device = ascend();
    assert_eq!(device.health_to_error("warning"), Some(AscendErrorCode::OverTemperature));
    assert_eq!(device.health_to_error("Fault"), Some(AscendErrorCode::DeviceLost));
    assert!(device.health_to_error("ok").is_none());
    assert!(device.health_to_error("degraded").is_none());
}

#[test]
fn ascend_codes_round_trip() {
    for c in [1001u32, 1002, 1003, 1005, 1007, 1008] {
        assert_eq!(AscendErrorCode::from_code(c).code(), c);
    }
    assert_eq!(AscendErrorCode::from_code(1004), AscendErrorCode::Unknown);
    assert_eq!(AscendErrorCode::Unknown.code(), 9999);
    assert_eq!(AscendErrorCode::PcieLinkError.description(), "PCIe link error");
}

#[test]
fn ascend_requires_npu_smi() {
    let missing = AscendDevice::new(false);
    assert_eq!(
        missing,
        Err(DeviceError::Other("npu-smi not found at /usr/local/bin/npu-smi".to_string()))
    );
    let found = AscendDevice::new(true).unwrap();
    assert_eq!(found.fatal_error_codes, vec![1001, 1002, 1005, 1007, 1008]);
    assert_eq!(found.log_dir, "/var/log/npu/slog");
}

#[test]
fn test_device_id_display() {
    let id = DeviceId { index: 0, uuid: Some("GPU-12345".to_string()), name: "Tesla V100".to_string() };
    assert_eq!(id.to_display_string(), "GPU0");
}

#[test]
fn device_key_prefers_uuid() {
    let with_uuid = DeviceId { index: 3, uuid: Some("GPU-abc".to_string()), name: "x".to_string() };
    assert_eq!(with_uuid.key(), "GPU-abc");
    let without = DeviceId { index: 12, uuid: None, name: "x".to_string() };
    assert_eq!(without.key(), "gpu-12");
    let big = DeviceId { index: 4000000000, uuid: None, name: String::new() };
    assert_eq!(big.to_display_string(), "GPU4000000000");
}

#[test]
fn test_xid_is_fatal() {
    let fatal_xids = vec![31, 43, 48, 79];
    let xid = XidError { code: 31, message: "MMU Fault".to_string(), timestamp_ms: 0, device_index: 0 };
    assert!(xid.is_fatal(&fatal_xids));

    let non_fatal = XidError { code: 13, message: "Some warning".to_string(), timestamp_ms: 0, device_index: 0 };
    assert!(!non_fatal.is_fatal(&fatal_xids));
}

#[test]
fn test_check_result() {
    let success = CheckResult::success(100);
    assert!(success.passed);
    assert!(success.error.is_none());

    let failure = CheckResult::failure(50, "GPU hung".to_string(), Some(1));
    assert!(!failure.passed);
    assert!(failure.error.is_some());

    let timeout = CheckResult::timeout(5000);
    assert!(!timeout.passed);
    assert!(timeout.error.as_ref().unwrap().contains("timed out"));
}

#[test]
fn test_xid_descriptions() {
    assert!(get_xid_description(31).contains("page fault"));
    assert!(get_xid_description(43).contains("stopped"));
    assert!(get_xid_description(48).contains("ECC"));
    assert!(get_xid_description(79).contains("fallen off"));
    assert!(get_xid_description(9999).contains("Unknown"));
}

#[test]
fn unknown_xid_names_its_code() {
    assert_eq!(get_xid_description(9999), "Unknown XID error (code: 9999)");
    assert_eq!(get_xid_description(0), "Unknown XID error (code: 0)");
    assert_eq!(get_xid_description(95), "Uncontained ECC error");
}

#[test]
fn test_mock_device_list() {
    let mock = MockDevice::with_device_count(4);
    let devices = mock.list_devices().unwrap();
    assert_eq!(devices.len(), 4);
}

#[test]
fn mock_device_identities() {
    let mock = MockDevice::with_device_count(12);
    let devices = mock.list_devices().unwrap();
    assert_eq!(devices[0].uuid.as_deref(), Some("GPU-MOCK-0000"));
    assert_eq!(devices[11].uuid.as_deref(), Some("GPU-MOCK-0011"));
    assert_eq!(devices[11].name, "Mock GPU 11");
}

#[test]
fn test_mock_device_metrics() {
    let mut mock = MockDevice::new();
    mock.set_temperature(75);
    let devices = mock.list_devices().unwrap();
    let metrics = mock.get_metrics(&devices[0]).unwrap();
    assert_eq!(metrics.temperature, 75);
}

#[test]
fn mock_metrics_of_unknown_device() {
    let mock = MockDevice::new();
    let unknown = DeviceId { index: 2, uuid: None, name: String::new() };
    assert_eq!(
        mock.get_metrics(&unknown),
        Err(DeviceError::DeviceNotFound("Device 2 not found".to_string()))
    );
}

#[test]
fn test_mock_xid_errors() {
    let mut mock = MockDevice::new();
    mock.add_xid_error(31, 0);
    mock.add_xid_error(43, 0);
    mock.add_xid_error(31, 1);

    let devices = mock.list_devices().unwrap();
    let errors = mock.get_xid_errors(&devices[0]).unwrap();
    assert_eq!(errors.len(), 2);
    assert_eq!(errors[1].message, "Mock XID error 43");
}

#[test]
fn test_mock_active_check_pass() {
    let mock = MockDevice::new();
    let devices = mock.list_devices().unwrap();
    let result = mock.run_active_check(&devices[0], 5000).unwrap();
    assert!(result.passed);
}

#[test]
fn test_mock_active_check_fail() {
    let mut mock = MockDevice::new();
    mock.set_fail_active_check(true);
    let devices = mock.list_devices().unwrap();
    let result = mock.run_active_check(&devices[0], 5000).unwrap();
    assert!(!result.passed);
}
