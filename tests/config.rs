use gdnd::config::{Config, ConfigError};
use gdnd::device::DeviceType;
use gdnd::state_machine::HealthState;

#[test]
fn test_default_config() {
    let config = Config::default();
    assert!(config.validate().is_ok());
}

#[test]
fn test_fatal_xids() {
    let config = Config::default();
    assert!(config.health.fatal_xids.contains(&31));
    assert!(config.health.fatal_xids.contains(&43));
    assert!(config.health.fatal_xids.contains(&48));
    assert!(config.health.fatal_xids.contains(&79));
}

#[test]
fn default_values() {
    let c = Config::default();
    assert_eq!(c.device_type, DeviceType::Auto);
    assert_eq!(c.l1_interval_ms, 30_000);
    assert_eq!(c.l2_interval_ms, 300_000);
    assert_eq!(c.l3_interval_ms, 86_400_000);
    assert_eq!(c.health.failure_threshold, 3);
    assert_eq!(c.health.temperature_threshold, 85);
    assert_eq!(c.health.active_check_timeout_ms, 5_000);
    assert_eq!(c.isolation.taint_effect, "NoSchedule");
    assert_eq!(c.metrics.port, 9100);
    assert_eq!(c.metrics.path, "/metrics");
    assert_eq!(c.recovery.threshold, 5);
    assert!(!c.recovery.enabled);
    assert_eq!(c.gpu_check_path, "/usr/local/bin/gpu-check");
}

#[test]
fn validation_rejections() {
    let mut c = Config::default();
    c.health.failure_threshold = 0;
    assert_eq!(c.validate(), Err(ConfigError::FailureThresholdZero));

    let mut c = Config::default();
    c.health.temperature_threshold = 0;
    assert_eq!(c.validate(), Err(ConfigError::TemperatureThresholdOutOfRange));
    c.health.temperature_threshold = 151;
    assert_eq!(c.validate(), Err(ConfigError::TemperatureThresholdOutOfRange));
    c.health.temperature_threshold = 150;
    assert!(c.validate().is_ok());
    c.health.temperature_threshold = 1;
    assert!(c.validate().is_ok());

    let mut c = Config::default();
    c.l1_interval_ms = 0;
    assert_eq!(c.validate(), Err(ConfigError::L1IntervalZero));
    let mut c = Config::default();
    c.l2_interval_ms = 0;
    assert_eq!(c.validate(), Err(ConfigError::L2IntervalZero));
    let mut c = Config::default();
    c.l3_interval_ms = 0;
    assert_eq!(c.validate(), Err(ConfigError::L3IntervalZero));

    let mut c = Config::default();
    c.metrics.port = 0;
    assert_eq!(c.validate(), Err(ConfigError::MetricsPortZero));
    assert_eq!(ConfigError::MetricsPortZero.message(), "metrics.port must be > 0 when metrics are enabled");
    c.metrics.enabled = false;
    assert!(c.validate().is_ok());
}

#[test]
fn node_name_sources() {
    let c = Config::default().with_node_name_from(Some("env-node".to_string()));
    assert_eq!(c.node_name.as_deref(), Some("env-node"));
    let c = c.with_node_name_from(Some("other".to_string()));
    assert_eq!(c.node_name.as_deref(), Some("env-node"));
    let c = c.with_cli_overrides(true, Some("cli-node".to_string()));
    assert_eq!(c.node_name.as_deref(), Some("cli-node"));
    assert!(c.dry_run);
    let c = c.with_cli_overrides(false, None);
    assert!(c.dry_run);
    assert_eq!(c.node_name.as_deref(), Some("cli-node"));
}

#[test]
fn config_builds_health_manager_with_taint() {
    let mut c = Config::default();
    c.isolation.taint_key = "example.com/accel".to_string();
    c.isolation.taint_value = "bad".to_string();
    c.isolation.taint_effect = "NoExecute".to_string();
    c.recovery.enabled = true;
    c.recovery.threshold = 2;
    let mut m = c.health_manager();
    assert!(m.is_recovery_enabled());
    let d = gdnd::device::DeviceId { index: 0, uuid: None, name: String::new() };
    let t = m.transition(
        &d,
        gdnd::state_machine::HealthEvent::FatalError {
            findings: vec![gdnd::detection::Finding::fatal_xid(31, "page fault")],
        },
    );
    assert_eq!(t.to, HealthState::Unhealthy);
    assert_eq!(
        t.actions[1],
        gdnd::state_machine::IsolationAction::Taint {
            key: "example.com/accel".to_string(),
            value: "bad".to_string(),
            effect: "NoExecute".to_string()
        }
    );
}
