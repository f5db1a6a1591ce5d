//! Findings, detection results and the three detection tiers.
//!
//! Each detector is a pure function from what the device queries returned to
//! one detection result; the queries themselves are made by the caller.
use vstd::prelude::*;
use crate::device::{DeviceId, XidError};
use crate::text::{decimal, decimal_text, join2, owned};

verus! {

/// Detection tier.
#[derive(Debug, Clone, Copy, PartialEq, Eq, Structural)]
pub enum DetectionLevel {
    /// Passive telemetry scan.
    L1Passive,
    /// Active compute probe.
    L2Active,
    /// Link bandwidth probe.
    L3Pcie,
}

impl DetectionLevel {
    /// Short tier name: `L1`, `L2` or `L3`.
    pub fn name(&self) -> (r: &'static str)
        ensures
            r@ == match *self {
                DetectionLevel::L1Passive => "L1"@,
                DetectionLevel::L2Active => "L2"@,
                DetectionLevel::L3Pcie => "L3"@,
            },
    {
        match self {
            DetectionLevel::L1Passive => "L1",
            DetectionLevel::L2Active => "L2",
            DetectionLevel::L3Pcie => "L3",
        }
    }
}

/// Kind of a failed check.
#[derive(Debug, Clone, Copy, PartialEq, Eq, Structural)]
pub enum FindingType {
    /// A fault-log entry whose code is fatal.
    FatalXid(u32),
    /// A fault-log entry whose code is not fatal.
    NonFatalXid(u32),
    /// Temperature above the threshold.
    HighTemperature,
    /// A process stuck in uninterruptible wait on the device.
    ZombieProcess,
    /// The active probe failed.
    ActiveCheckFailure,
    /// The active probe ran past its deadline.
    ActiveCheckTimeout,
    /// Uncorrectable memory errors.
    DoubleBitEcc,
    /// The link probe failed.
    PcieDegradation,
}

/// Whether findings of this kind are fatal.
pub open spec fn kind_is_fatal(t: FindingType) -> bool {
    match t {
        FindingType::FatalXid(_) => true,
        FindingType::DoubleBitEcc => true,
        _ => false,
    }
}

/// An observation that a check failed.
#[derive(Debug, Clone, PartialEq, Eq)]
pub struct Finding {
    /// Kind of the finding.
    pub finding_type: FindingType,
    /// Human-readable message.
    pub message: String,
    /// Whether the finding asks for immediate isolation.
    pub is_fatal: bool,
}

/// The mathematical value of a finding.
pub struct FindingView {
    pub finding_type: FindingType,
    pub message: Seq<char>,
    pub is_fatal: bool,
}

impl View for Finding {
    type V = FindingView;

    open spec fn view(&self) -> FindingView {
        FindingView { finding_type: self.finding_type, message: self.message@, is_fatal: self.is_fatal }
    }
}

/// The views of a sequence of findings.
pub open spec fn views(fs: Seq<Finding>) -> Seq<FindingView> {
    fs.map_values(|f: Finding| f@)
}

/// Whether any finding of the sequence is fatal.
pub open spec fn any_fatal(fs: Seq<Finding>) -> bool {
    exists|i: int| 0 <= i < fs.len() && (#[trigger] fs[i]).is_fatal
}

pub open spec fn high_temperature_view(temp: u32, threshold: u32) -> FindingView {
    FindingView {
        finding_type: FindingType::HighTemperature,
        message: "Temperature "@ + decimal(temp as nat) + "C exceeds threshold "@ + decimal(threshold as nat) + "C"@,
        is_fatal: false,
    }
}

pub open spec fn zombie_view(pid: u32) -> FindingView {
    FindingView {
        finding_type: FindingType::ZombieProcess,
        message: "Zombie GPU process detected: PID "@ + decimal(pid as nat),
        is_fatal: false,
    }
}

pub open spec fn double_bit_ecc_view(count: u64) -> FindingView {
    FindingView {
        finding_type: FindingType::DoubleBitEcc,
        message: "Double-bit ECC errors detected: "@ + decimal(count as nat),
        is_fatal: true,
    }
}

/// The finding for one fault-log entry under a set of fatal codes.
pub open spec fn xid_view(x: XidError, fatal_xids: Seq<u32>) -> FindingView {
    if fatal_xids.contains(x.code) {
        FindingView { finding_type: FindingType::FatalXid(x.code), message: x.message@, is_fatal: true }
    } else {
        FindingView { finding_type: FindingType::NonFatalXid(x.code), message: x.message@, is_fatal: false }
    }
}

impl Finding {
    /// A copy of this finding.
    pub fn duplicate(&self) -> (r: Finding)
        ensures
            r == *self,
    {
        Finding { finding_type: self.finding_type, message: self.message.clone(), is_fatal: self.is_fatal }
    }

    /// A finding with the given parts.
    pub fn new(finding_type: FindingType, message: String, is_fatal: bool) -> (r: Finding)
        ensures
            r.finding_type == finding_type,
            r.message == message,
            r.is_fatal == is_fatal,
    {
        Finding { finding_type, message, is_fatal }
    }

    /// A fatal fault-log finding.
    pub fn fatal_xid(code: u32, message: &str) -> (r: Finding)
        ensures
            r@ == (FindingView { finding_type: FindingType::FatalXid(code), message: message@, is_fatal: true }),
    {
        Finding { finding_type: FindingType::FatalXid(code), message: owned(message), is_fatal: true }
    }

    /// A temperature finding.
    pub fn high_temperature(temp: u32, threshold: u32) -> (r: Finding)
        ensures
            r@ == high_temperature_view(temp, threshold),
    {
        let t = decimal_text(temp as u64);
        let th = decimal_text(threshold as u64);
        let a = join2("Temperature ", t.as_str());
        let b = join2(a.as_str(), "C exceeds threshold ");
        let c = join2(b.as_str(), th.as_str());
        let m = join2(c.as_str(), "C");
        Finding { finding_type: FindingType::HighTemperature, message: m, is_fatal: false }
    }

    /// A stuck-process finding.
    pub fn zombie_process(pid: u32) -> (r: Finding)
        ensures
            r@ == zombie_view(pid),
    {
        let p = decimal_text(pid as u64);
        let m = join2("Zombie GPU process detected: PID ", p.as_str());
        Finding { finding_type: FindingType::ZombieProcess, message: m, is_fatal: false }
    }

    /// A failed active probe, carrying the probe's error text.
    pub fn active_check_failure(error: &str) -> (r: Finding)
        ensures
            r@ == (FindingView { finding_type: FindingType::ActiveCheckFailure, message: error@, is_fatal: false }),
    {
        Finding { finding_type: FindingType::ActiveCheckFailure, message: owned(error), is_fatal: false }
    }

    /// An uncorrectable memory error finding.
    pub fn double_bit_ecc(count: u64) -> (r: Finding)
        ensures
            r@ == double_bit_ecc_view(count),
    {
        let c = decimal_text(count);
        let m = join2("Double-bit ECC errors detected: ", c.as_str());
        Finding { finding_type: FindingType::DoubleBitEcc, message: m, is_fatal: true }
    }
}

/// A copy of a vector of findings.
pub fn copy_findings(fs: &Vec<Finding>) -> (r: Vec<Finding>)
    ensures
        r@ == fs@,
{
    let mut r: Vec<Finding> = Vec::new();
    let mut i: usize = 0;
    while i < fs.len()
        invariant
            i <= fs@.len(),
            r@ == fs@.subrange(0, i as int),
        decreases fs@.len() - i,
    {
        r.push(fs[i].duplicate());
        i = i + 1;
    }
    assert(fs@.subrange(0, fs@.len() as int) == fs@);
    r
}

/// The result of one detection tier on one device.
#[derive(Debug, Clone, PartialEq, Eq)]
pub struct DetectionResult {
    /// The device checked.
    pub device: DeviceId,
    /// The tier that ran.
    pub level: DetectionLevel,
    /// Whether the check passed.
    pub passed: bool,
    /// What failed.
    pub findings: Vec<Finding>,
}

impl DetectionResult {
    /// A result passes exactly when it has no findings.
    pub open spec fn wf(&self) -> bool {
        self.passed <==> self.findings@.len() == 0
    }

    /// A passing result.
    pub fn pass(device: DeviceId, level: DetectionLevel) -> (r: DetectionResult)
        ensures
            r.device == device,
            r.level == level,
            r.passed,
            r.findings@.len() == 0,
            r.wf(),
    {
        DetectionResult { device, level, passed: true, findings: Vec::new() }
    }

    /// A failing result with its findings.
    pub fn fail(device: DeviceId, level: DetectionLevel, findings: Vec<Finding>) -> (r: DetectionResult)
        requires
            findings@.len() > 0,
        ensures
            r.device == device,
            r.level == level,
            !r.passed,
            r.findings == findings,
            r.wf(),
    {
        DetectionResult { device, level, passed: false, findings }
    }

    /// Whether any finding is fatal.
    pub fn has_fatal_finding(&self) -> (r: bool)
        ensures
            r == any_fatal(self.findings@),
    {
        let mut i: usize = 0;
        while i < self.findings.len()
            invariant
                i <= self.findings@.len(),
                forall|j: int| 0 <= j < i ==> !(#[trigger] self.findings@[j]).is_fatal,
            decreases self.findings@.len() - i,
        {
            if self.findings[i].is_fatal {
                return true;
            }
            i = i + 1;
        }
        false
    }
}

} // verus!
