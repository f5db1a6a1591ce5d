//! Agent configuration: defaults, validation and what it builds.
use vstd::prelude::*;
use crate::device::DeviceType;
use crate::health_manager::GpuHealthManager;
use crate::healing::{HealingConfig, HealingStrategy, SelfHealer};
use crate::node_ops::IsolationConfig;
use crate::state_machine::MachineParams;
use crate::text::owned;

verus! {

fn default_failure_threshold() -> (r: u32)
    ensures
        r == 3,
{
    3
}

fn default_fatal_xids() -> (r: Vec<u32>)
    ensures
        r@ == seq![31u32, 43u32, 48u32, 79u32],
{
    let mut v: Vec<u32> = Vec::new();
    v.push(31);
    v.push(43);
    v.push(48);
    v.push(79);
    assert(v@ =~= seq![31u32, 43u32, 48u32, 79u32]);
    v
}

fn default_temperature_threshold() -> (r: u32)
    ensures
        r == 85,
{
    85
}

fn default_active_check_timeout() -> (r: u64)
    ensures
        r == 5_000,
{
    5_000
}

fn default_l1_interval() -> (r: u64)
    ensures
        r == 30_000,
{
    30_000
}

fn default_l2_interval() -> (r: u64)
    ensures
        r == 300_000,
{
    300_000
}

fn default_l3_interval() -> (r: u64)
    ensures
        r == 86_400_000,
{
    86_400_000
}

fn default_gpu_check_path() -> (r: String)
    ensures
        r@ == "/usr/local/bin/gpu-check"@,
{
    owned("/usr/local/bin/gpu-check")
}

fn default_metrics_port() -> (r: u16)
    ensures
        r == 9100,
{
    9100
}

fn default_metrics_path() -> (r: String)
    ensures
        r@ == "/metrics"@,
{
    owned("/metrics")
}

fn default_recovery_threshold() -> (r: u32)
    ensures
        r == 5,
{
    5
}

fn default_recovery_interval() -> (r: u64)
    ensures
        r == 300_000,
{
    300_000
}

/// Detection thresholds.
#[derive(Debug, Clone, PartialEq, Eq)]
pub struct HealthConfig {
    /// Consecutive non-fatal failures before `Unhealthy`.
    pub failure_threshold: u32,
    /// Fault codes that isolate at once.
    pub fatal_xids: Vec<u32>,
    /// Temperature threshold, degrees Celsius.
    pub temperature_threshold: u32,
    /// Deadline of the active probe, milliseconds.
    pub active_check_timeout_ms: u64,
}

impl Default for HealthConfig {
    /// Threshold 3, fatal codes 31, 43, 48, 79, 85 °C, 5 s.
    fn default() -> (r: HealthConfig)
        ensures
            r.failure_threshold == 3,
            r.fatal_xids@ == seq![31u32, 43u32, 48u32, 79u32],
            r.temperature_threshold == 85,
            r.active_check_timeout_ms == 5_000,
    {
        HealthConfig {
            failure_threshold: default_failure_threshold(),
            fatal_xids: default_fatal_xids(),
            temperature_threshold: default_temperature_threshold(),
            active_check_timeout_ms: default_active_check_timeout(),
        }
    }
}

/// Metrics endpoint settings.
#[derive(Debug, Clone, PartialEq, Eq)]
pub struct MetricsConfig {
    /// Whether the endpoint is served.
    pub enabled: bool,
    /// Port of the endpoint.
    pub port: u16,
    /// Path of the endpoint.
    pub path: String,
}

impl Default for MetricsConfig {
    /// Enabled on port 9100 at `/metrics`.
    fn default() -> (r: MetricsConfig)
        ensures
            r.enabled,
            r.port == 9100,
            r.path@ == "/metrics"@,
    {
        MetricsConfig { enabled: true, port: default_metrics_port(), path: default_metrics_path() }
    }
}

/// Recovery of isolated devices.
#[derive(Debug, Clone, PartialEq, Eq)]
pub struct RecoveryConfig {
    /// Whether isolated devices may recover.
    pub enabled: bool,
    /// Consecutive passes needed to recover.
    pub threshold: u32,
    /// Interval between recovery checks, milliseconds.
    pub interval_ms: u64,
}

impl Default for RecoveryConfig {
    /// Off, threshold 5, 5 min.
    fn default() -> (r: RecoveryConfig)
        ensures
            !r.enabled,
            r.threshold == 5,
            r.interval_ms == 300_000,
    {
        RecoveryConfig {
            enabled: false,
            threshold: default_recovery_threshold(),
            interval_ms: default_recovery_interval(),
        }
    }
}

/// Why a configuration is refused.
#[derive(Debug, Clone, Copy, PartialEq, Eq, Structural)]
pub enum ConfigError {
    /// `health.failure_threshold` is zero.
    FailureThresholdZero,
    /// `health.temperature_threshold` is outside 1..=150.
    TemperatureThresholdOutOfRange,
    /// `l1_interval` is zero.
    L1IntervalZero,
    /// `l2_interval` is zero.
    L2IntervalZero,
    /// `l3_interval` is zero.
    L3IntervalZero,
    /// Metrics are on with port zero.
    MetricsPortZero,
}

impl ConfigError {
    /// A one-line description.
    pub fn message(&self) -> (r: &'static str)
        ensures
            r@ == match *self {
                ConfigError::FailureThresholdZero => "failure_threshold must be > 0"@,
                ConfigError::TemperatureThresholdOutOfRange => "temperature_threshold must be between 1 and 150"@,
                ConfigError::L1IntervalZero => "l1_interval must be > 0"@,
                ConfigError::L2IntervalZero => "l2_interval must be > 0"@,
                ConfigError::L3IntervalZero => "l3_interval must be > 0"@,
                ConfigError::MetricsPortZero => "metrics.port must be > 0 when metrics are enabled"@,
            },
    {
        match self {
            ConfigError::FailureThresholdZero => "failure_threshold must be > 0",
            ConfigError::TemperatureThresholdOutOfRange => "temperature_threshold must be between 1 and 150",
            ConfigError::L1IntervalZero => "l1_interval must be > 0",
            ConfigError::L2IntervalZero => "l2_interval must be > 0",
            ConfigError::L3IntervalZero => "l3_interval must be > 0",
            ConfigError::MetricsPortZero => "metrics.port must be > 0 when metrics are enabled",
        }
    }
}

/// The agent's configuration.
#[derive(Debug, Clone, PartialEq, Eq)]
pub struct Config {
    /// Device backend.
    pub device_type: DeviceType,
    /// Name of this node.
    pub node_name: Option<String>,
    /// Period of the passive tier, milliseconds.
    pub l1_interval_ms: u64,
    /// Period of the active tier, milliseconds.
    pub l2_interval_ms: u64,
    /// Period of the link tier, milliseconds.
    pub l3_interval_ms: u64,
    /// Whether the link tier runs.
    pub l3_enabled: bool,
    /// Path of the active-probe program.
    pub gpu_check_path: String,
    /// Detection thresholds.
    pub health: HealthConfig,
    /// Isolation settings.
    pub isolation: IsolationConfig,
    /// Metrics endpoint.
    pub metrics: MetricsConfig,
    /// Healer settings.
    pub healing: HealingConfig,
    /// Recovery settings.
    pub recovery: RecoveryConfig,
    /// Log actions instead of applying them.
    pub dry_run: bool,
}

/// The error `validate` reports for a configuration, checked in order:
/// failure threshold, temperature threshold, the three periods, metrics port.
pub open spec fn config_error(c: Config) -> Option<ConfigError> {
    if c.health.failure_threshold == 0 {
        Some(ConfigError::FailureThresholdZero)
    } else if c.health.temperature_threshold == 0 || c.health.temperature_threshold > 150 {
        Some(ConfigError::TemperatureThresholdOutOfRange)
    } else if c.l1_interval_ms == 0 {
        Some(ConfigError::L1IntervalZero)
    } else if c.l2_interval_ms == 0 {
        Some(ConfigError::L2IntervalZero)
    } else if c.l3_interval_ms == 0 {
        Some(ConfigError::L3IntervalZero)
    } else if c.metrics.enabled && c.metrics.port == 0 {
        Some(ConfigError::MetricsPortZero)
    } else {
        None
    }
}

impl Default for Config {
    /// Every key at its default.
    fn default() -> (r: Config)
        ensures
            r.device_type == DeviceType::Auto,
            r.node_name.is_none(),
            r.l1_interval_ms == 30_000,
            r.l2_interval_ms == 300_000,
            r.l3_interval_ms == 86_400_000,
            !r.l3_enabled,
            r.gpu_check_path@ == "/usr/local/bin/gpu-check"@,
            r.health.failure_threshold == 3,
            r.health.fatal_xids@ == seq![31u32, 43u32, 48u32, 79u32],
            r.health.temperature_threshold == 85,
            r.health.active_check_timeout_ms == 5_000,
            r.isolation.cordon,
            !r.isolation.evict_pods,
            r.isolation.taint_key@ == "nvidia.com/gpu-health"@,
            r.isolation.taint_value@ == "failed"@,
            r.isolation.taint_effect@ == "NoSchedule"@,
            r.metrics.enabled,
            r.metrics.port == 9100,
            r.metrics.path@ == "/metrics"@,
            !r.healing.enabled,
            r.healing.strategy == HealingStrategy::Conservative,
            r.healing.timeout_ms == 30_000,
            !r.healing.dry_run,
            !r.recovery.enabled,
            r.recovery.threshold == 5,
            r.recovery.interval_ms == 300_000,
            !r.dry_run,
    {
        Config {
            device_type: DeviceType::Auto,
            node_name: None,
            l1_interval_ms: default_l1_interval(),
            l2_interval_ms: default_l2_interval(),
            l3_interval_ms: default_l3_interval(),
            l3_enabled: false,
            gpu_check_path: default_gpu_check_path(),
            health: HealthConfig::default(),
            isolation: IsolationConfig::default(),
            metrics: MetricsConfig::default(),
            healing: HealingConfig::default(),
            recovery: RecoveryConfig::default(),
            dry_run: false,
        }
    }
}

impl Config {
    /// Accepts the configuration or names the first rule it breaks.
    pub fn validate(&self) -> (r: Result<(), ConfigError>)
        ensures
            match config_error(*self) {
                Some(e) => r == Err::<(), ConfigError>(e),
                None => r is Ok,
            },
    {
        if self.health.failure_threshold == 0 {
            return Err(ConfigError::FailureThresholdZero);
        }
        if self.health.temperature_threshold == 0 || self.health.temperature_threshold > 150 {
            return Err(ConfigError::TemperatureThresholdOutOfRange);
        }
        if self.l1_interval_ms == 0 {
            return Err(ConfigError::L1IntervalZero);
        }
        if self.l2_interval_ms == 0 {
            return Err(ConfigError::L2IntervalZero);
        }
        if self.l3_interval_ms == 0 {
            return Err(ConfigError::L3IntervalZero);
        }
        if self.metrics.enabled && self.metrics.port == 0 {
            return Err(ConfigError::MetricsPortZero);
        }
        Ok(())
    }

    /// Takes the node name from `from_env` (the `NODE_NAME` variable) when
    /// none is configured.
    pub fn with_node_name_from(self, from_env: Option<String>) -> (r: Config)
        ensures
            r == (if self.node_name.is_none() { Config { node_name: from_env, ..self } } else { self }),
    {
        if self.node_name.is_none() {
            Config { node_name: from_env, ..self }
        } else {
            self
        }
    }

    /// Applies the command-line overrides: `--dry-run` turns dry run on,
    /// `--node-name` replaces the node name.
    pub fn with_cli_overrides(self, dry_run: bool, node_name: Option<String>) -> (r: Config)
        ensures
            r.dry_run == (self.dry_run || dry_run),
            r.node_name == (if node_name.is_some() { node_name } else { self.node_name }),
            r == (Config { dry_run: r.dry_run, node_name: r.node_name, ..self }),
    {
        let d = self.dry_run || dry_run;
        match node_name {
            Some(n) => Config { dry_run: d, node_name: Some(n), ..self },
            None => Config { dry_run: d, ..self },
        }
    }

    /// The health table this configuration asks for: failure threshold,
    /// recovery when enabled, fatal codes and the isolation taint.
    pub fn health_manager(&self) -> (r: GpuHealthManager)
        ensures
            r.wf(),
            r@ == Map::<Seq<char>, crate::state_machine::GpuHealth>::empty(),
            r.params() == (MachineParams {
                failure_threshold: self.health.failure_threshold,
                recovery_threshold: if self.recovery.enabled { self.recovery.threshold } else { 0 },
                recovery_enabled: self.recovery.enabled && self.recovery.threshold > 0,
            }),
            r.taint() == (self.isolation.taint_key@, self.isolation.taint_value@, self.isolation.taint_effect@),
            r.fatal_codes() == self.health.fatal_xids@,
    {
        let xids = copy_codes(&self.health.fatal_xids);
        let mut m = if self.recovery.enabled {
            GpuHealthManager::with_recovery(self.health.failure_threshold, self.recovery.threshold, xids)
        } else {
            GpuHealthManager::new(self.health.failure_threshold, xids)
        };
        m.set_taint(
            self.isolation.taint_key.clone(),
            self.isolation.taint_value.clone(),
            self.isolation.taint_effect.clone(),
        );
        m
    }

    /// The healer this configuration asks for.
    pub fn healer(&self) -> (r: SelfHealer)
        ensures
            r.config == self.healing,
            r.device_type == self.device_type,
    {
        let h = HealingConfig {
            enabled: self.healing.enabled,
            strategy: self.healing.strategy,
            timeout_ms: self.healing.timeout_ms,
            dry_run: self.healing.dry_run,
        };
        SelfHealer::new(h, self.device_type)
    }
}

/// A copy of a list of codes.
fn copy_codes(v: &Vec<u32>) -> (r: Vec<u32>)
    ensures
        r@ == v@,
{
    let mut r: Vec<u32> = Vec::new();
    let mut i: usize = 0;
    while i < v.len()
        invariant
            i <= v@.len(),
            r@ == v@.subrange(0, i as int),
        decreases v@.len() - i,
    {
        r.push(v[i]);
        i = i + 1;
    }
    assert(v@.subrange(0, v@.len() as int) =~= v@);
    r
}

} // verus!
