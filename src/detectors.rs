//! The three detection tiers.
//!
//! Each detector turns what the device queries returned into one detection
//! result. Query failures of the passive tier degrade to "no findings" for
//! that sub-check; the caller makes the queries.
use vstd::prelude::*;
use crate::detection::{
    DetectionLevel, DetectionResult, Finding, FindingType, FindingView, views, xid_view,
    high_temperature_view, double_bit_ecc_view, zombie_view,
};
use crate::device::{CheckResult, DeviceError, DeviceId, DeviceMetrics, XidError};
use crate::text::{contains_text, decimal, decimal_text, has_substring, join2, owned};

verus! {

/// Findings of the metrics sub-check.
pub open spec fn metric_views(m: Result<DeviceMetrics, DeviceError>, threshold: u32) -> Seq<FindingView> {
    match m {
        Ok(m) => {
            (if m.temperature > threshold {
                seq![high_temperature_view(m.temperature, threshold)]
            } else {
                Seq::empty()
            }) + (if m.ecc_errors.double_bit > 0 {
                seq![double_bit_ecc_view(m.ecc_errors.double_bit)]
            } else {
                Seq::empty()
            })
        },
        Err(_) => Seq::empty(),
    }
}

/// Findings of the fault-log sub-check: one per entry, in order.
pub open spec fn xid_views(xs: Result<Vec<XidError>, DeviceError>, fatal_xids: Seq<u32>) -> Seq<FindingView> {
    match xs {
        Ok(v) => v@.map_values(|x: XidError| xid_view(x, fatal_xids)),
        Err(_) => Seq::empty(),
    }
}

/// Findings of the stuck-process sub-check: one per pid, in order.
pub open spec fn zombie_views(ps: Result<Vec<u32>, DeviceError>) -> Seq<FindingView> {
    match ps {
        Ok(v) => v@.map_values(|p: u32| zombie_view(p)),
        Err(_) => Seq::empty(),
    }
}

/// Passive detector: temperature and memory-error thresholds, fault-log
/// classification and stuck processes.
#[derive(Debug, Clone)]
pub struct L1PassiveDetector {
    /// Temperatures above this many degrees Celsius are findings.
    pub temperature_threshold: u32,
    /// Fault codes classified as fatal.
    pub fatal_xids: Vec<u32>,
}

impl L1PassiveDetector {
    /// A passive detector with the given threshold and fatal codes.
    pub fn new(temperature_threshold: u32, fatal_xids: Vec<u32>) -> (r: L1PassiveDetector)
        ensures
            r.temperature_threshold == temperature_threshold,
            r.fatal_xids == fatal_xids,
    {
        L1PassiveDetector { temperature_threshold, fatal_xids }
    }

    /// The findings of the three sub-checks, in order: metrics, fault log,
    /// stuck processes.
    pub open spec fn findings_for(
        &self,
        metrics: Result<DeviceMetrics, DeviceError>,
        xids: Result<Vec<XidError>, DeviceError>,
        zombie_pids: Result<Vec<u32>, DeviceError>,
    ) -> Seq<FindingView> {
        metric_views(metrics, self.temperature_threshold) + xid_views(xids, self.fatal_xids@)
            + zombie_views(zombie_pids)
    }

    /// Passive detection of one device from the results of its metrics,
    /// fault-log and stuck-process queries. A failed query contributes no
    /// findings; the result passes iff no finding accumulated.
    pub fn detect(
        &self,
        device: &DeviceId,
        metrics: Result<DeviceMetrics, DeviceError>,
        xids: Result<Vec<XidError>, DeviceError>,
        zombie_pids: Result<Vec<u32>, DeviceError>,
    ) -> (r: DetectionResult)
        ensures
            r.device == *device,
            r.level == DetectionLevel::L1Passive,
            r.wf(),
            views(r.findings@) == self.findings_for(metrics, xids, zombie_pids),
    {
        let mut findings: Vec<Finding> = Vec::new();
        let th = self.temperature_threshold;
        match &metrics {
            Ok(m) => {
                if m.temperature > th {
                    findings.push(Finding::high_temperature(m.temperature, th));
                }
                if m.ecc_errors.double_bit > 0 {
                    findings.push(Finding::double_bit_ecc(m.ecc_errors.double_bit));
                }
            },
            Err(_) => {},
        }
        assert(views(findings@) =~= metric_views(metrics, th));
        let ghost base = views(findings@);
        match &xids {
            Ok(xs) => {
                let mut i: usize = 0;
                while i < xs.len()
                    invariant
                        i <= xs@.len(),
                        views(findings@) == base + xs@.subrange(0, i as int).map_values(
                            |x: XidError| xid_view(x, self.fatal_xids@),
                        ),
                    decreases xs@.len() - i,
                {
                    let x = &xs[i];
                    let f = if x.is_fatal(self.fatal_xids.as_slice()) {
                        Finding::fatal_xid(x.code, x.message.as_str())
                    } else {
                        Finding::new(FindingType::NonFatalXid(x.code), x.message.clone(), false)
                    };
                    assert(f@ == xid_view(xs@[i as int], self.fatal_xids@));
                    let ghost before = findings@;
                    findings.push(f);
                    assert(views(findings@) =~= views(before).push(f@));
                    assert(xs@.subrange(0, i + 1).map_values(|x: XidError| xid_view(x, self.fatal_xids@))
                        =~= xs@.subrange(0, i as int).map_values(|x: XidError| xid_view(x, self.fatal_xids@)).push(
                        xid_view(xs@[i as int], self.fatal_xids@)));
                    i = i + 1;
                }
                assert(xs@.subrange(0, xs@.len() as int) == xs@);
            },
            Err(_) => {},
        }
        assert(views(findings@) =~= metric_views(metrics, th) + xid_views(xids, self.fatal_xids@));
        let ghost base2 = views(findings@);
        match &zombie_pids {
            Ok(ps) => {
                let mut i: usize = 0;
                while i < ps.len()
                    invariant
                        i <= ps@.len(),
                        views(findings@) == base2 + ps@.subrange(0, i as int).map_values(
                            |p: u32| zombie_view(p),
                        ),
                    decreases ps@.len() - i,
                {
                    let f = Finding::zombie_process(ps[i]);
                    let ghost before = findings@;
                    findings.push(f);
                    assert(views(findings@) =~= views(before).push(f@));
                    assert(ps@.subrange(0, i + 1).map_values(|p: u32| zombie_view(p))
                        =~= ps@.subrange(0, i as int).map_values(|p: u32| zombie_view(p)).push(zombie_view(ps@[i as int])));
                    i = i + 1;
                }
                assert(ps@.subrange(0, ps@.len() as int) == ps@);
            },
            Err(_) => {},
        }
        assert(views(findings@) =~= self.findings_for(metrics, xids, zombie_pids));
        if findings.len() == 0 {
            DetectionResult::pass(device.duplicate(), DetectionLevel::L1Passive)
        } else {
            DetectionResult::fail(device.duplicate(), DetectionLevel::L1Passive, findings)
        }
    }
}

/// The message of a timed-out active probe.
pub open spec fn timeout_message(timeout_ms: u64) -> Seq<char> {
    "Active check timed out after "@ + decimal(timeout_ms as nat) + "ms"@
}

/// Whether a probe's error text reports a timeout.
pub open spec fn reports_timeout(error: Option<String>) -> bool {
    match error {
        Some(e) => has_substring(e@, "timed out"@),
        None => false,
    }
}

/// The single finding of a failed active probe.
pub open spec fn probe_failure_view(probe: CheckResult, timeout_ms: u64) -> FindingView {
    if reports_timeout(probe.error) {
        FindingView {
            finding_type: FindingType::ActiveCheckTimeout,
            message: timeout_message(timeout_ms),
            is_fatal: false,
        }
    } else {
        FindingView {
            finding_type: FindingType::ActiveCheckFailure,
            message: match probe.error {
                Some(e) => e@,
                None => "Unknown error"@,
            },
            is_fatal: false,
        }
    }
}

/// Active detector: judges the outcome of a bounded compute probe.
#[derive(Debug, Clone)]
pub struct L2ActiveDetector {
    /// Path of the probe program.
    pub gpu_check_path: String,
    /// Deadline handed to the probe, in milliseconds.
    pub timeout_ms: u64,
}

impl L2ActiveDetector {
    /// An active detector with the given probe program and deadline.
    pub fn new(gpu_check_path: String, timeout_ms: u64) -> (r: L2ActiveDetector)
        ensures
            r.gpu_check_path == gpu_check_path,
            r.timeout_ms == timeout_ms,
    {
        L2ActiveDetector { gpu_check_path, timeout_ms }
    }

    /// Active detection of one device from the probe's outcome. A probe that
    /// could not be run is passed on as the error; a failed probe gives
    /// exactly one finding, a timeout exactly when its text says `timed out`.
    pub fn detect(&self, device: &DeviceId, probe: Result<CheckResult, DeviceError>) -> (r: Result<DetectionResult, DeviceError>)
        ensures
            match probe {
                Err(e) => r == Err::<DetectionResult, DeviceError>(e),
                Ok(p) => r.is_ok() && {
                    let d = r.unwrap();
                    &&& d.device == *device
                    &&& d.level == DetectionLevel::L2Active
                    &&& d.wf()
                    &&& d.passed == p.passed
                    &&& !p.passed ==> views(d.findings@) == seq![probe_failure_view(p, self.timeout_ms)]
                },
            },
    {
        match probe {
            Err(e) => Err(e),
            Ok(p) => {
                if p.passed {
                    return Ok(DetectionResult::pass(device.duplicate(), DetectionLevel::L2Active));
                }
                let timed_out = match &p.error {
                    Some(e) => contains_text(e.as_str(), "timed out"),
                    None => false,
                };
                let finding = if timed_out {
                    let n = decimal_text(self.timeout_ms);
                    let a = join2("Active check timed out after ", n.as_str());
                    let m = join2(a.as_str(), "ms");
                    Finding::new(FindingType::ActiveCheckTimeout, m, false)
                } else {
                    match &p.error {
                        Some(e) => Finding::active_check_failure(e.as_str()),
                        None => Finding::active_check_failure("Unknown error"),
                    }
                };
                let mut findings: Vec<Finding> = Vec::new();
                findings.push(finding);
                assert(views(findings@) =~= seq![probe_failure_view(p, self.timeout_ms)]);
                Ok(DetectionResult::fail(device.duplicate(), DetectionLevel::L2Active, findings))
            },
        }
    }
}

/// Settings of the link detector.
#[derive(Debug, Clone, PartialEq, Eq)]
pub struct L3PcieConfig {
    /// Minimum expected bandwidth in MB/s.
    pub min_bandwidth_mbps: u32,
    /// Pass without probing when the backend has no link probe.
    pub skip_if_unsupported: bool,
}

impl Default for L3PcieConfig {
    /// The defaults: 8000 MB/s, and skip when unsupported.
    fn default() -> (r: L3PcieConfig)
        ensures
            r.min_bandwidth_mbps == 8000,
            r.skip_if_unsupported,
    {
        L3PcieConfig { min_bandwidth_mbps: 8000, skip_if_unsupported: true }
    }
}

/// The message of a link finding when the backend has no link probe.
pub open spec fn unsupported_message() -> Seq<char> {
    "PCIe bandwidth test not supported on this device"@
}

/// The message of a failed link probe.
pub open spec fn link_failure_message(probe: CheckResult) -> Seq<char> {
    match probe.error {
        Some(e) => e@,
        None => "PCIe bandwidth test failed"@,
    }
}

/// Link detector: judges the outcome of an optional bandwidth probe.
#[derive(Debug, Clone)]
pub struct L3PcieDetector {
    /// Whether the device backend offers a link probe.
    pub supported: bool,
    /// Detector settings.
    pub config: L3PcieConfig,
}

impl L3PcieDetector {
    /// A link detector with the default settings.
    pub fn new(supported: bool) -> (r: L3PcieDetector)
        ensures
            r.supported == supported,
            r.config.skip_if_unsupported,
    {
        L3PcieDetector { supported, config: L3PcieConfig::default() }
    }

    /// A link detector with the given settings.
    pub fn with_config(supported: bool, config: L3PcieConfig) -> (r: L3PcieDetector)
        ensures
            r.supported == supported,
            r.config == config,
    {
        L3PcieDetector { supported, config }
    }

    /// Whether the backend offers a link probe.
    pub fn is_supported(&self) -> (r: bool)
        ensures
            r == self.supported,
    {
        self.supported
    }

    /// Whether a whole tick is skipped: no probe and told to skip.
    pub fn skips_all(&self) -> (r: bool)
        ensures
            r == (!self.supported && self.config.skip_if_unsupported),
    {
        !self.supported && self.config.skip_if_unsupported
    }

    /// Link detection of one device. `probe` is the outcome of the link
    /// probe, run only when the backend supports it. Without support the
    /// result passes when told to skip and otherwise carries one non-fatal
    /// link finding; with support a failed probe gives one non-fatal link
    /// finding and an error of the probe is passed on.
    pub fn detect(&self, device: &DeviceId, probe: Option<Result<CheckResult, DeviceError>>) -> (r: Result<DetectionResult, DeviceError>)
        requires
            self.supported ==> probe.is_some(),
        ensures
            !self.supported ==> r.is_ok() && {
                let d = r.unwrap();
                &&& d.device == *device
                &&& d.level == DetectionLevel::L3Pcie
                &&& d.wf()
                &&& d.passed == self.config.skip_if_unsupported
                &&& !d.passed ==> views(d.findings@) == seq![FindingView {
                    finding_type: FindingType::PcieDegradation,
                    message: unsupported_message(),
                    is_fatal: false,
                }]
            },
            self.supported ==> match probe.unwrap() {
                Err(e) => r == Err::<DetectionResult, DeviceError>(e),
                Ok(p) => r.is_ok() && {
                    let d = r.unwrap();
                    &&& d.device == *device
                    &&& d.level == DetectionLevel::L3Pcie
                    &&& d.wf()
                    &&& d.passed == p.passed
                    &&& !p.passed ==> views(d.findings@) == seq![FindingView {
                        finding_type: FindingType::PcieDegradation,
                        message: link_failure_message(p),
                        is_fatal: false,
                    }]
                },
            },
    {
        if !self.supported {
            if self.config.skip_if_unsupported {
                return Ok(DetectionResult::pass(device.duplicate(), DetectionLevel::L3Pcie));
            }
            let mut findings: Vec<Finding> = Vec::new();
            findings.push(Finding::new(
                FindingType::PcieDegradation,
                owned("PCIe bandwidth test not supported on this device"),
                false,
            ));
            assert(views(findings@) =~= seq![FindingView {
                finding_type: FindingType::PcieDegradation,
                message: unsupported_message(),
                is_fatal: false,
            }]);
            return Ok(DetectionResult::fail(device.duplicate(), DetectionLevel::L3Pcie, findings));
        }
        match probe {
            None => Err(DeviceError::Other(owned("PCIe test not supported"))),
            Some(Err(e)) => Err(e),
            Some(Ok(p)) => {
                if p.passed {
                    return Ok(DetectionResult::pass(device.duplicate(), DetectionLevel::L3Pcie));
                }
                let m = match &p.error {
                    Some(e) => e.clone(),
                    None => owned("PCIe bandwidth test failed"),
                };
                let mut findings: Vec<Finding> = Vec::new();
                findings.push(Finding::new(FindingType::PcieDegradation, m, false));
                assert(views(findings@) =~= seq![FindingView {
                    finding_type: FindingType::PcieDegradation,
                    message: link_failure_message(p),
                    is_fatal: false,
                }]);
                Ok(DetectionResult::fail(device.duplicate(), DetectionLevel::L3Pcie, findings))
            },
        }
    }
}

} // verus!
