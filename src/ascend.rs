//! Huawei Ascend NPU: fault codes and health-status classification.
use vstd::prelude::*;
use crate::device::DeviceError;
use crate::text::{join2, owned, upper_of, uppercase};

verus! {

/// Fault codes of Ascend NPUs.
#[derive(Debug, Clone, Copy, PartialEq, Eq, Structural)]
pub enum AscendErrorCode {
    /// HBM memory error (1001).
    HbmError,
    /// AI Core hang (1002).
    AiCoreHang,
    /// Over temperature (1003).
    OverTemperature,
    /// PCIe link error (1005).
    PcieLinkError,
    /// Device lost (1007).
    DeviceLost,
    /// Uncorrectable ECC error (1008).
    EccUncorrectable,
    /// Any other code (9999).
    Unknown,
}

/// The numeric value of a fault code.
pub open spec fn code_value(c: AscendErrorCode) -> u32 {
    match c {
        AscendErrorCode::HbmError => 1001,
        AscendErrorCode::AiCoreHang => 1002,
        AscendErrorCode::OverTemperature => 1003,
        AscendErrorCode::PcieLinkError => 1005,
        AscendErrorCode::DeviceLost => 1007,
        AscendErrorCode::EccUncorrectable => 1008,
        AscendErrorCode::Unknown => 9999,
    }
}

impl AscendErrorCode {
    /// The numeric value of the code.
    pub fn code(&self) -> (r: u32)
        ensures
            r == code_value(*self),
    {
        match self {
            AscendErrorCode::HbmError => 1001,
            AscendErrorCode::AiCoreHang => 1002,
            AscendErrorCode::OverTemperature => 1003,
            AscendErrorCode::PcieLinkError => 1005,
            AscendErrorCode::DeviceLost => 1007,
            AscendErrorCode::EccUncorrectable => 1008,
            AscendErrorCode::Unknown => 9999,
        }
    }

    /// Every code but over-temperature and unknown is fatal.
    pub fn is_fatal(&self) -> (r: bool)
        ensures
            r == !(*self == AscendErrorCode::OverTemperature || *self == AscendErrorCode::Unknown),
    {
        match self {
            AscendErrorCode::OverTemperature => false,
            AscendErrorCode::Unknown => false,
            _ => true,
        }
    }

    /// Human-readable description.
    pub fn description(&self) -> (r: &'static str)
        ensures
            r@ == match *self {
                AscendErrorCode::HbmError => "HBM memory error"@,
                AscendErrorCode::AiCoreHang => "AI Core hang"@,
                AscendErrorCode::OverTemperature => "Over temperature"@,
                AscendErrorCode::PcieLinkError => "PCIe link error"@,
                AscendErrorCode::DeviceLost => "Device lost"@,
                AscendErrorCode::EccUncorrectable => "ECC uncorrectable error"@,
                AscendErrorCode::Unknown => "Unknown error"@,
            },
    {
        match self {
            AscendErrorCode::HbmError => "HBM memory error",
            AscendErrorCode::AiCoreHang => "AI Core hang",
            AscendErrorCode::OverTemperature => "Over temperature",
            AscendErrorCode::PcieLinkError => "PCIe link error",
            AscendErrorCode::DeviceLost => "Device lost",
            AscendErrorCode::EccUncorrectable => "ECC uncorrectable error",
            AscendErrorCode::Unknown => "Unknown error",
        }
    }

    /// The code with this numeric value; `Unknown` for values not listed.
    pub fn from_code(code: u32) -> (r: AscendErrorCode)
        ensures
            r == AscendErrorCode::Unknown || code_value(r) == code,
            (r == AscendErrorCode::Unknown) == !(code == 1001 || code == 1002 || code == 1003 || code == 1005
                || code == 1007 || code == 1008),
    {
        match code {
            1001 => AscendErrorCode::HbmError,
            1002 => AscendErrorCode::AiCoreHang,
            1003 => AscendErrorCode::OverTemperature,
            1005 => AscendErrorCode::PcieLinkError,
            1007 => AscendErrorCode::DeviceLost,
            1008 => AscendErrorCode::EccUncorrectable,
            _ => AscendErrorCode::Unknown,
        }
    }
}

/// The fault a health column stands for, given its upper-case form: none
/// for `OK`, over-temperature for `WARNING`, device lost for `ERROR` and
/// `FAULT`, none for anything else.
pub open spec fn health_fault(upper: Seq<char>) -> Option<AscendErrorCode> {
    if upper == "WARNING"@ {
        Some(AscendErrorCode::OverTemperature)
    } else if upper == "ERROR"@ || upper == "FAULT"@ {
        Some(AscendErrorCode::DeviceLost)
    } else {
        None
    }
}

/// Where the Ascend tools and logs are.
#[derive(Debug, Clone, PartialEq, Eq)]
pub struct AscendDevice {
    /// Path of `npu-smi`.
    pub npu_smi_path: String,
    /// Path of the active-probe program.
    pub npu_check_path: String,
    /// Directory of the device logs.
    pub log_dir: String,
    /// Fault codes classified as fatal.
    pub fatal_error_codes: Vec<u32>,
}

impl AscendDevice {
    /// The standard install: tools under `/usr/local/bin`, logs under
    /// `/var/log/npu/slog`, fatal codes 1001, 1002, 1005, 1007, 1008.
    /// `npu_smi_present` says whether `npu-smi` exists there.
    pub fn new(npu_smi_present: bool) -> (r: Result<AscendDevice, DeviceError>)
        ensures
            r is Ok <==> npu_smi_present,
            r is Ok ==> r.unwrap().npu_smi_path@ == "/usr/local/bin/npu-smi"@
                && r.unwrap().fatal_error_codes@ == seq![1001u32, 1002u32, 1005u32, 1007u32, 1008u32],
    {
        let mut codes: Vec<u32> = Vec::new();
        codes.push(1001);
        codes.push(1002);
        codes.push(1005);
        codes.push(1007);
        codes.push(1008);
        assert(codes@ =~= seq![1001u32, 1002u32, 1005u32, 1007u32, 1008u32]);
        AscendDevice::with_config(
            owned("/usr/local/bin/npu-smi"),
            owned("/usr/local/bin/npu-check"),
            owned("/var/log/npu/slog"),
            codes,
            npu_smi_present,
        )
    }

    /// A backend with the given paths and fatal codes; refused when
    /// `npu-smi` is not present at its path.
    pub fn with_config(
        npu_smi_path: String,
        npu_check_path: String,
        log_dir: String,
        fatal_error_codes: Vec<u32>,
        npu_smi_present: bool,
    ) -> (r: Result<AscendDevice, DeviceError>)
        ensures
            r is Ok <==> npu_smi_present,
            r is Ok ==> r.unwrap() == (AscendDevice { npu_smi_path, npu_check_path, log_dir, fatal_error_codes }),
            r is Err ==> r.unwrap_err() is Other && r.unwrap_err()->Other_0@ == "npu-smi not found at "@ + npu_smi_path@,
    {
        if !npu_smi_present {
            return Err(DeviceError::Other(join2("npu-smi not found at ", npu_smi_path.as_str())));
        }
        Ok(AscendDevice { npu_smi_path, npu_check_path, log_dir, fatal_error_codes })
    }

    /// The fault a health column reports, compared without regard to case.
    pub fn health_to_error(&self, health: &str) -> (r: Option<AscendErrorCode>)
        ensures
            r == health_fault(upper_of(health@)),
    {
        let u = uppercase(health);
        let warning = owned("WARNING");
        let error = owned("ERROR");
        let fault = owned("FAULT");
        if u == warning {
            Some(AscendErrorCode::OverTemperature)
        } else if u == error || u == fault {
            Some(AscendErrorCode::DeviceLost)
        } else {
            None
        }
    }
}

} // verus!
