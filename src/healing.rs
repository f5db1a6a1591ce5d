//! Pre-isolation remediation: which steps a strategy allows, and which of
//! them are answered without running anything.
use vstd::prelude::*;
use crate::device::{DeviceId, DeviceType};
use crate::text::owned;

verus! {

/// How far remediation may go.
#[derive(Debug, Clone, Copy, PartialEq, Eq, Default, Structural)]
pub enum HealingStrategy {
    /// Kill stuck processes only.
    #[default]
    Conservative,
    /// Also reset the device (vendor-gated).
    Moderate,
    /// Also reload the driver, affecting every device of the node (vendor-gated).
    Aggressive,
}

/// One remediation step.
#[derive(Debug, Clone, Copy, PartialEq, Eq, Structural)]
pub enum HealingAction {
    /// Kill one process.
    KillProcess { pid: u32 },
    /// Kill the processes stuck on accelerators.
    KillZombieProcesses,
    /// Soft-reset one device.
    GpuSoftReset { device_index: u32 },
    /// Reload the driver module.
    DriverReload,
}

/// Outcome of one remediation step.
#[derive(Debug, Clone, PartialEq, Eq)]
pub struct HealingResult {
    /// The step attempted.
    pub action: HealingAction,
    /// Whether it succeeded.
    pub success: bool,
    /// Details, if any.
    pub message: Option<String>,
}

impl HealingResult {
    /// A successful step without details.
    pub fn success(action: HealingAction) -> (r: HealingResult)
        ensures
            r.action == action,
            r.success,
            r.message.is_none(),
    {
        HealingResult { action, success: true, message: None }
    }

    /// A successful step with details.
    pub fn success_with_message(action: HealingAction, message: String) -> (r: HealingResult)
        ensures
            r.action == action,
            r.success,
            r.message == Some(message),
    {
        HealingResult { action, success: true, message: Some(message) }
    }

    /// A failed step with details.
    pub fn failure(action: HealingAction, message: String) -> (r: HealingResult)
        ensures
            r.action == action,
            !r.success,
            r.message == Some(message),
    {
        HealingResult { action, success: false, message: Some(message) }
    }
}

/// Why remediation did not run.
#[derive(Debug, Clone, PartialEq, Eq)]
pub enum HealingError {
    /// Remediation is turned off.
    Disabled,
    /// The step needs a vendor tool this device type lacks.
    UnsupportedDevice(DeviceType),
    /// A command failed to run.
    CommandError(String),
    /// An I/O failure, as text.
    IoError(String),
}

/// Settings of the healer.
#[derive(Debug, Clone, PartialEq, Eq)]
pub struct HealingConfig {
    /// Whether remediation runs at all.
    pub enabled: bool,
    /// How far it may go.
    pub strategy: HealingStrategy,
    /// Deadline of each step, in milliseconds.
    pub timeout_ms: u64,
    /// Report success without executing anything.
    pub dry_run: bool,
}

impl Default for HealingConfig {
    /// Off, conservative, 30 s, not a dry run.
    fn default() -> (r: HealingConfig)
        ensures
            !r.enabled,
            r.strategy == HealingStrategy::Conservative,
            r.timeout_ms == 30_000,
            !r.dry_run,
    {
        HealingConfig { enabled: false, strategy: HealingStrategy::Conservative, timeout_ms: 30_000, dry_run: false }
    }
}

/// The steps a strategy allows on a device type, in order. Reset and
/// reload need the NVIDIA tools.
pub open spec fn allowed_steps(strategy: HealingStrategy, device_type: DeviceType, device_index: u32) -> Seq<HealingAction> {
    let vendor = device_type == DeviceType::Nvidia;
    seq![HealingAction::KillZombieProcesses]
        + (if strategy != HealingStrategy::Conservative && vendor {
            seq![HealingAction::GpuSoftReset { device_index }]
        } else {
            Seq::empty()
        })
        + (if strategy == HealingStrategy::Aggressive && vendor {
            seq![HealingAction::DriverReload]
        } else {
            Seq::empty()
        })
}

/// The text of a step answered by a dry run.
pub open spec fn dry_run_message(action: HealingAction) -> Seq<char> {
    match action {
        HealingAction::KillProcess { .. } => "Dry run - process not killed"@,
        HealingAction::KillZombieProcesses => "Dry run - no processes killed"@,
        HealingAction::GpuSoftReset { .. } => "Dry run - no reset performed"@,
        HealingAction::DriverReload => "Dry run - no driver reload performed"@,
    }
}

/// Best-effort remediation before isolation.
#[derive(Debug, Clone)]
pub struct SelfHealer {
    /// Settings.
    pub config: HealingConfig,
    /// Device type of this node.
    pub device_type: DeviceType,
}

impl SelfHealer {
    /// A healer with the given settings for a device type.
    pub fn new(config: HealingConfig, device_type: DeviceType) -> (r: SelfHealer)
        ensures
            r.config == config,
            r.device_type == device_type,
    {
        SelfHealer { config, device_type }
    }

    /// Whether remediation is on.
    pub fn is_enabled(&self) -> (r: bool)
        ensures
            r == self.config.enabled,
    {
        self.config.enabled
    }

    /// The configured strategy.
    pub fn strategy(&self) -> (r: HealingStrategy)
        ensures
            r == self.config.strategy,
    {
        self.config.strategy
    }

    /// The steps available, none when disabled; the reset is listed for
    /// device 0.
    pub fn available_actions(&self) -> (r: Vec<HealingAction>)
        ensures
            r@ == if self.config.enabled {
                allowed_steps(self.config.strategy, self.device_type, 0)
            } else {
                Seq::empty()
            },
    {
        if !self.config.enabled {
            return Vec::new();
        }
        self.steps_for(0)
    }

    fn steps_for(&self, device_index: u32) -> (r: Vec<HealingAction>)
        ensures
            r@ == allowed_steps(self.config.strategy, self.device_type, device_index),
    {
        let mut actions: Vec<HealingAction> = Vec::new();
        actions.push(HealingAction::KillZombieProcesses);
        let vendor = self.device_type == DeviceType::Nvidia;
        if self.config.strategy != HealingStrategy::Conservative && vendor {
            actions.push(HealingAction::GpuSoftReset { device_index });
        }
        if self.config.strategy == HealingStrategy::Aggressive && vendor {
            actions.push(HealingAction::DriverReload);
        }
        assert(actions@ =~= allowed_steps(self.config.strategy, self.device_type, device_index));
        actions
    }

    /// The steps to run, in order, to heal `device`; an error when disabled.
    pub fn heal(&self, device: &DeviceId) -> (r: Result<Vec<HealingAction>, HealingError>)
        ensures
            !self.config.enabled ==> r == Err::<Vec<HealingAction>, HealingError>(HealingError::Disabled),
            self.config.enabled ==> r.is_ok() && r.unwrap()@ == allowed_steps(
                self.config.strategy,
                self.device_type,
                device.index,
            ),
    {
        if !self.config.enabled {
            return Err(HealingError::Disabled);
        }
        Ok(self.steps_for(device.index))
    }

    /// What a step comes to before anything is executed: reset and reload
    /// are refused off NVIDIA devices; in a dry run every other step
    /// succeeds with its dry-run text; otherwise `None`, and the step must be
    /// executed.
    pub fn prepare(&self, action: HealingAction) -> (r: Result<Option<HealingResult>, HealingError>)
        ensures
            (action is GpuSoftReset || action is DriverReload) && self.device_type != DeviceType::Nvidia ==> r
                == Err::<Option<HealingResult>, HealingError>(HealingError::UnsupportedDevice(self.device_type)),
            !((action is GpuSoftReset || action is DriverReload) && self.device_type != DeviceType::Nvidia) ==> r.is_ok()
                && match r.unwrap() {
                    Some(h) => self.config.dry_run && h.action == action && h.success && h.message.is_some()
                        && h.message.unwrap()@ == dry_run_message(action),
                    None => !self.config.dry_run,
                },
    {
        let vendor_step = match action {
            HealingAction::GpuSoftReset { .. } => true,
            HealingAction::DriverReload => true,
            _ => false,
        };
        if vendor_step && self.device_type != DeviceType::Nvidia {
            return Err(HealingError::UnsupportedDevice(self.device_type));
        }
        if !self.config.dry_run {
            return Ok(None);
        }
        let text = match action {
            HealingAction::KillProcess { .. } => owned("Dry run - process not killed"),
            HealingAction::KillZombieProcesses => owned("Dry run - no processes killed"),
            HealingAction::GpuSoftReset { .. } => owned("Dry run - no reset performed"),
            HealingAction::DriverReload => owned("Dry run - no driver reload performed"),
        };
        Ok(Some(HealingResult::success_with_message(action, text)))
    }
}

} // verus!
