//! Device identities and the values that device queries return.
use vstd::prelude::*;
use crate::text::{decimal, decimal_text, join2};

verus! {

/// Kind of accelerator backend.
#[derive(Debug, Clone, Copy, PartialEq, Eq, Default, Structural)]
pub enum DeviceType {
    /// Probe the backends in a fixed order and fall back to a stub.
    #[default]
    Auto,
    /// NVIDIA GPU.
    Nvidia,
    /// Huawei Ascend NPU.
    Ascend,
}

impl DeviceType {
    /// The lower-case name of the backend kind.
    pub fn name(&self) -> (r: &'static str)
        ensures
            r@ == match *self {
                DeviceType::Auto => "auto"@,
                DeviceType::Nvidia => "nvidia"@,
                DeviceType::Ascend => "ascend"@,
            },
    {
        match self {
            DeviceType::Auto => "auto",
            DeviceType::Nvidia => "nvidia",
            DeviceType::Ascend => "ascend",
        }
    }
}

/// Stable identity of one accelerator on this node.
#[derive(Debug, Clone, PartialEq, Eq, Hash)]
pub struct DeviceId {
    /// Device index (0-based).
    pub index: u32,
    /// Vendor UUID, when the backend reports one.
    pub uuid: Option<String>,
    /// Device name or model.
    pub name: String,
}

/// The key under which a device's health is tracked: its UUID when present,
/// else `gpu-` followed by its index.
pub open spec fn device_key_spec(d: DeviceId) -> Seq<char> {
    match d.uuid {
        Some(u) => u@,
        None => "gpu-"@ + decimal(d.index as nat),
    }
}

/// The short display form of a device: `GPU` followed by its index.
pub open spec fn device_label(d: DeviceId) -> Seq<char> {
    "GPU"@ + decimal(d.index as nat)
}

/// A copy of an optional string.
pub fn copy_opt_string(s: &Option<String>) -> (r: Option<String>)
    ensures
        r == *s,
{
    match s {
        Some(v) => Some(v.clone()),
        None => None,
    }
}

impl DeviceId {
    /// A field-for-field copy of this identity.
    pub fn duplicate(&self) -> (r: DeviceId)
        ensures
            r == *self,
    {
        DeviceId { index: self.index, uuid: copy_opt_string(&self.uuid), name: self.name.clone() }
    }

    /// The tracking key of this device (see [`device_key_spec`]).
    pub fn key(&self) -> (r: String)
        ensures
            r@ == device_key_spec(*self),
    {
        device_key(self)
    }

    /// The display form `GPU<index>`.
    pub fn to_display_string(&self) -> (r: String)
        ensures
            r@ == device_label(*self),
    {
        let n = decimal_text(self.index as u64);
        join2("GPU", n.as_str())
    }
}

/// The tracking key of a device: UUID first, else `gpu-<index>`.
pub fn device_key(device: &DeviceId) -> (r: String)
    ensures
        r@ == device_key_spec(*device),
{
    match &device.uuid {
        Some(u) => u.clone(),
        None => {
            let n = decimal_text(device.index as u64);
            join2("gpu-", n.as_str())
        },
    }
}

/// Error counters of the device memory.
#[derive(Debug, Clone, Copy, Default, PartialEq, Eq, Structural)]
pub struct EccErrors {
    /// Correctable (single-bit) errors.
    pub single_bit: u64,
    /// Uncorrectable (double-bit) errors.
    pub double_bit: u64,
}

/// A sampled snapshot of a device's telemetry.
#[derive(Debug, Clone, PartialEq, Eq)]
pub struct DeviceMetrics {
    /// Temperature in degrees Celsius.
    pub temperature: u32,
    /// Compute utilization, percent.
    pub gpu_utilization: u32,
    /// Memory utilization, percent.
    pub memory_utilization: u32,
    /// Power draw in watts.
    pub power_usage: u32,
    /// Power limit in watts.
    pub power_limit: u32,
    /// Total memory in bytes.
    pub memory_total: u64,
    /// Used memory in bytes.
    pub memory_used: u64,
    /// Free memory in bytes.
    pub memory_free: u64,
    /// Link throughput, transmit, KB/s.
    pub pcie_tx: Option<u32>,
    /// Link throughput, receive, KB/s.
    pub pcie_rx: Option<u32>,
    /// Memory error counters.
    pub ecc_errors: EccErrors,
    /// Sample instant, milliseconds since the Unix epoch.
    pub timestamp_ms: i64,
}

/// A fault record reported by a device backend.
#[derive(Debug, Clone, PartialEq, Eq)]
pub struct XidError {
    /// Numeric fault code.
    pub code: u32,
    /// Description of the fault.
    pub message: String,
    /// When the fault was seen, milliseconds since the Unix epoch.
    pub timestamp_ms: i64,
    /// Index of the device that reported it.
    pub device_index: u32,
}

impl XidError {
    /// Whether this fault's code is one of `fatal_xids`.
    pub fn is_fatal(&self, fatal_xids: &[u32]) -> (r: bool)
        ensures
            r == fatal_xids@.contains(self.code),
    {
        code_in(self.code, fatal_xids)
    }

    /// A field-for-field copy of this record.
    pub fn duplicate(&self) -> (r: XidError)
        ensures
            r == *self,
    {
        XidError {
            code: self.code,
            message: self.message.clone(),
            timestamp_ms: self.timestamp_ms,
            device_index: self.device_index,
        }
    }
}

/// Whether `code` is one of `codes`.
pub fn code_in(code: u32, codes: &[u32]) -> (r: bool)
    ensures
        r == codes@.contains(code),
{
    let mut i: usize = 0;
    while i < codes.len()
        invariant
            i <= codes@.len(),
            forall|j: int| 0 <= j < i ==> codes@[j] != code,
        decreases codes@.len() - i,
    {
        if codes[i] == code {
            assert(codes@[i as int] == code);
            return true;
        }
        i = i + 1;
    }
    false
}

/// Outcome of an active or link probe.
#[derive(Debug, Clone, PartialEq, Eq)]
pub struct CheckResult {
    /// Whether the probe passed.
    pub passed: bool,
    /// How long the probe ran, in milliseconds.
    pub duration_ms: u64,
    /// Error text when the probe failed.
    pub error: Option<String>,
    /// Exit code of the probe program, when one ran.
    pub exit_code: Option<i32>,
}

impl CheckResult {
    /// A passing probe.
    pub fn success(duration_ms: u64) -> (r: CheckResult)
        ensures
            r.passed,
            r.duration_ms == duration_ms,
            r.error.is_none(),
            r.exit_code == Some(0i32),
    {
        CheckResult { passed: true, duration_ms, error: None, exit_code: Some(0) }
    }

    /// A failed probe with its error text.
    pub fn failure(duration_ms: u64, error: String, exit_code: Option<i32>) -> (r: CheckResult)
        ensures
            !r.passed,
            r.duration_ms == duration_ms,
            r.error == Some(error),
            r.exit_code == exit_code,
    {
        CheckResult { passed: false, duration_ms, error: Some(error), exit_code }
    }

    /// A probe that ran past its deadline: failed, with `timed out` in its text.
    pub fn timeout(timeout_ms: u64) -> (r: CheckResult)
        ensures
            !r.passed,
            r.duration_ms == timeout_ms,
            r.error.is_some(),
            r.error.unwrap()@ == "Check timed out"@,
            r.exit_code.is_none(),
    {
        CheckResult { passed: false, duration_ms: timeout_ms, error: Some(String::from_str("Check timed out")), exit_code: None }
    }
}

/// Failures of device queries.
#[derive(Debug, Clone, PartialEq, Eq)]
pub enum DeviceError {
    /// The vendor management library could not be initialised.
    NvmlInitError(String),
    /// No such device.
    DeviceNotFound(String),
    /// A query failed.
    QueryError(String),
    /// The active probe could not be run.
    CheckError(String),
    /// An operation ran past its deadline (milliseconds).
    Timeout(u64),
    /// An I/O failure, as text.
    IoError(String),
    /// Anything else.
    Other(String),
}

} // verus!
