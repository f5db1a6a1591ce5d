//! An in-memory device backend whose readings are set by hand.
use vstd::prelude::*;
use vstd::string::StrSliceExecFns;
use crate::clock::now_millis;
use crate::device::{CheckResult, DeviceError, DeviceId, DeviceMetrics, DeviceType, EccErrors, XidError};
use crate::text::{decimal, decimal_text, join2, owned};

verus! {

/// `s` left-padded with zeros to four characters.
pub open spec fn pad4(s: Seq<char>) -> Seq<char> {
    if s.len() >= 4 {
        s
    } else {
        Seq::new((4 - s.len()) as nat, |_i: int| '0') + s
    }
}

/// The identity of mock device `i`.
pub open spec fn mock_id_ok(d: DeviceId, i: u32) -> bool {
    &&& d.index == i
    &&& d.uuid.is_some()
    &&& d.uuid.unwrap()@ == "GPU-MOCK-"@ + pad4(decimal(i as nat))
    &&& d.name@ == "Mock GPU "@ + decimal(i as nat)
}

/// A device backend for tests and demonstrations.
#[derive(Debug, Clone)]
pub struct MockDevice {
    /// The devices it reports.
    pub devices: Vec<DeviceId>,
    /// Whether the active probe fails.
    pub fail_active_check: bool,
    /// Whether the link probe fails.
    pub fail_pcie_test: bool,
    /// Fault-log entries it reports.
    pub xid_errors: Vec<XidError>,
    /// Temperature it reports, degrees Celsius.
    pub temperature: u32,
    /// Stuck processes it reports.
    pub zombie_pids: Vec<u32>,
}

fn mock_id(i: u32) -> (r: DeviceId)
    ensures
        mock_id_ok(r, i),
{
    let d = decimal_text(i as u64);
    let len = d.as_str().unicode_len();
    let mut zeros = String::new();
    let mut k: usize = len;
    while k < 4
        invariant
            len as nat == decimal(i as nat).len(),
            len <= k <= 4 || (len > 4 && k == len),
            zeros@ == Seq::new((k - len) as nat, |_i: int| '0'),
        decreases 4 - k,
    {
        zeros.append("0");
        proof {
            reveal_strlit("0");
            assert("0"@ =~= seq!['0']);
        }
        k = k + 1;
        assert(zeros@ =~= Seq::new((k - len) as nat, |_i: int| '0'));
    }
    let a = join2("GPU-MOCK-", zeros.as_str());
    let uuid = join2(a.as_str(), d.as_str());
    let name = join2("Mock GPU ", d.as_str());
    proof {
        if len >= 4 {
            assert(zeros@ =~= Seq::<char>::empty());
        }
        assert(uuid@ =~= "GPU-MOCK-"@ + pad4(decimal(i as nat)));
    }
    DeviceId { index: i, uuid: Some(uuid), name }
}

impl MockDevice {
    /// A mock with two devices.
    pub fn new() -> (r: MockDevice)
        ensures
            r.devices@.len() == 2,
            forall|i: int| 0 <= i < 2 ==> mock_id_ok(#[trigger] r.devices@[i], i as u32),
            !r.fail_active_check,
            !r.fail_pcie_test,
            r.xid_errors@.len() == 0,
            r.temperature == 45,
            r.zombie_pids@.len() == 0,
    {
        MockDevice::with_device_count(2)
    }

    /// A mock with `count` devices, indexed from zero, at 45 °C and fault-free.
    pub fn with_device_count(count: u32) -> (r: MockDevice)
        ensures
            r.devices@.len() == count,
            forall|i: int| 0 <= i < count ==> mock_id_ok(#[trigger] r.devices@[i], i as u32),
            !r.fail_active_check,
            !r.fail_pcie_test,
            r.xid_errors@.len() == 0,
            r.temperature == 45,
            r.zombie_pids@.len() == 0,
    {
        let mut devices: Vec<DeviceId> = Vec::new();
        let mut i: u32 = 0;
        while i < count
            invariant
                i <= count,
                devices@.len() == i,
                forall|j: int| 0 <= j < i ==> mock_id_ok(#[trigger] devices@[j], j as u32),
            decreases count - i,
        {
            devices.push(mock_id(i));
            i = i + 1;
        }
        MockDevice {
            devices,
            fail_active_check: false,
            fail_pcie_test: false,
            xid_errors: Vec::new(),
            temperature: 45,
            zombie_pids: Vec::new(),
        }
    }

    /// Makes the active probe fail or pass.
    pub fn set_fail_active_check(&mut self, fail: bool)
        ensures
            *final(self) == (MockDevice { fail_active_check: fail, ..*old(self) }),
    {
        self.fail_active_check = fail;
    }

    /// Makes the link probe fail or pass.
    pub fn set_fail_pcie_test(&mut self, fail: bool)
        ensures
            *final(self) == (MockDevice { fail_pcie_test: fail, ..*old(self) }),
    {
        self.fail_pcie_test = fail;
    }

    /// Adds a fault-log entry with code `code` for device `device_index`.
    pub fn add_xid_error(&mut self, code: u32, device_index: u32)
        ensures
            final(self).xid_errors@.len() == old(self).xid_errors@.len() + 1,
            final(self).xid_errors@.drop_last() == old(self).xid_errors@,
            final(self).xid_errors@.last().code == code,
            final(self).xid_errors@.last().device_index == device_index,
            final(self).xid_errors@.last().message@ == "Mock XID error "@ + decimal(code as nat),
            final(self).devices == old(self).devices,
            final(self).temperature == old(self).temperature,
            final(self).zombie_pids == old(self).zombie_pids,
            final(self).fail_active_check == old(self).fail_active_check,
            final(self).fail_pcie_test == old(self).fail_pcie_test,
    {
        let c = decimal_text(code as u64);
        let message = join2("Mock XID error ", c.as_str());
        self.xid_errors.push(XidError { code, message, timestamp_ms: now_millis(), device_index });
        assert(self.xid_errors@.drop_last() =~= old(self).xid_errors@);
    }

    /// Removes every fault-log entry.
    pub fn clear_xid_errors(&mut self)
        ensures
            final(self).xid_errors@.len() == 0,
            final(self).devices == old(self).devices,
            final(self).temperature == old(self).temperature,
            final(self).zombie_pids == old(self).zombie_pids,
            final(self).fail_active_check == old(self).fail_active_check,
            final(self).fail_pcie_test == old(self).fail_pcie_test,
    {
        self.xid_errors.clear();
    }

    /// Sets the reported temperature.
    pub fn set_temperature(&mut self, temp: u32)
        ensures
            *final(self) == (MockDevice { temperature: temp, ..*old(self) }),
    {
        self.temperature = temp;
    }

    /// Adds a stuck process.
    pub fn add_zombie_pid(&mut self, pid: u32)
        ensures
            final(self).zombie_pids@ == old(self).zombie_pids@.push(pid),
            final(self).devices == old(self).devices,
            final(self).temperature == old(self).temperature,
            final(self).xid_errors == old(self).xid_errors,
            final(self).fail_active_check == old(self).fail_active_check,
            final(self).fail_pcie_test == old(self).fail_pcie_test,
    {
        self.zombie_pids.push(pid);
    }

    /// Removes every stuck process.
    pub fn clear_zombie_pids(&mut self)
        ensures
            final(self).zombie_pids@.len() == 0,
            final(self).devices == old(self).devices,
            final(self).temperature == old(self).temperature,
            final(self).xid_errors == old(self).xid_errors,
            final(self).fail_active_check == old(self).fail_active_check,
            final(self).fail_pcie_test == old(self).fail_pcie_test,
    {
        self.zombie_pids.clear();
    }

    /// The devices.
    pub fn list_devices(&self) -> (r: Result<Vec<DeviceId>, DeviceError>)
        ensures
            r.is_ok() && r.unwrap()@ == self.devices@,
    {
        let mut out: Vec<DeviceId> = Vec::new();
        let mut i: usize = 0;
        while i < self.devices.len()
            invariant
                i <= self.devices@.len(),
                out@ == self.devices@.subrange(0, i as int),
            decreases self.devices@.len() - i,
        {
            out.push(self.devices[i].duplicate());
            i = i + 1;
        }
        assert(self.devices@.subrange(0, self.devices@.len() as int) =~= self.devices@);
        Ok(out)
    }

    /// Metrics of a device: the set temperature and fixed other readings;
    /// an unknown index is an error.
    pub fn get_metrics(&self, device: &DeviceId) -> (r: Result<DeviceMetrics, DeviceError>)
        ensures
            device.index >= self.devices@.len() <==> r is Err,
            r is Err ==> r.unwrap_err() is DeviceNotFound,
            r is Ok ==> r.unwrap() == (DeviceMetrics {
                temperature: self.temperature,
                gpu_utilization: 25,
                memory_utilization: 30,
                power_usage: 150,
                power_limit: 300,
                memory_total: 17_179_869_184,
                memory_used: 4_294_967_296,
                memory_free: 12_884_901_888,
                pcie_tx: Some(1000u32),
                pcie_rx: Some(1000u32),
                ecc_errors: EccErrors { single_bit: 0, double_bit: 0 },
                timestamp_ms: r.unwrap().timestamp_ms,
            }),
            r is Err ==> r.unwrap_err()->DeviceNotFound_0@ == "Device "@ + decimal(device.index as nat) + " not found"@,
    {
        if device.index as usize >= self.devices.len() {
            let n = decimal_text(device.index as u64);
            let a = join2("Device ", n.as_str());
            return Err(DeviceError::DeviceNotFound(join2(a.as_str(), " not found")));
        }
        Ok(DeviceMetrics {
            temperature: self.temperature,
            gpu_utilization: 25,
            memory_utilization: 30,
            power_usage: 150,
            power_limit: 300,
            memory_total: 17_179_869_184,
            memory_used: 4_294_967_296,
            memory_free: 12_884_901_888,
            pcie_tx: Some(1000),
            pcie_rx: Some(1000),
            ecc_errors: EccErrors { single_bit: 0, double_bit: 0 },
            timestamp_ms: now_millis(),
        })
    }

    /// The fault-log entries of a device, in order of addition.
    pub fn get_xid_errors(&self, device: &DeviceId) -> (r: Result<Vec<XidError>, DeviceError>)
        ensures
            r.is_ok() && r.unwrap()@ == self.xid_errors@.filter(|x: XidError| x.device_index == device.index),
    {
        let mut out: Vec<XidError> = Vec::new();
        let mut i: usize = 0;
        while i < self.xid_errors.len()
            invariant
                i <= self.xid_errors@.len(),
                out@ == self.xid_errors@.subrange(0, i as int).filter(|x: XidError| x.device_index == device.index),
            decreases self.xid_errors@.len() - i,
        {
            let ghost s = self.xid_errors@.subrange(0, i as int);
            assert(self.xid_errors@.subrange(0, i + 1) =~= s.push(self.xid_errors@[i as int]));
            reveal(Seq::filter);
            assert(s.push(self.xid_errors@[i as int]).drop_last() =~= s);
            if self.xid_errors[i].device_index == device.index {
                out.push(self.xid_errors[i].duplicate());
            }
            i = i + 1;
            assert(out@ =~= self.xid_errors@.subrange(0, i as int).filter(|x: XidError| x.device_index == device.index));
        }
        assert(self.xid_errors@.subrange(0, self.xid_errors@.len() as int) =~= self.xid_errors@);
        Ok(out)
    }

    /// The stuck processes (the same for every device).
    pub fn check_zombie_processes(&self, device: &DeviceId) -> (r: Result<Vec<u32>, DeviceError>)
        ensures
            r.is_ok() && r.unwrap()@ == self.zombie_pids@,
    {
        let mut out: Vec<u32> = Vec::new();
        let mut i: usize = 0;
        while i < self.zombie_pids.len()
            invariant
                i <= self.zombie_pids@.len(),
                out@ == self.zombie_pids@.subrange(0, i as int),
            decreases self.zombie_pids@.len() - i,
        {
            out.push(self.zombie_pids[i]);
            i = i + 1;
        }
        assert(self.zombie_pids@.subrange(0, self.zombie_pids@.len() as int) =~= self.zombie_pids@);
        Ok(out)
    }

    /// The active probe: fails with `Mock active check failure` when told to.
    pub fn run_active_check(&self, device: &DeviceId, timeout_ms: u64) -> (r: Result<CheckResult, DeviceError>)
        ensures
            r.is_ok(),
            r.unwrap().passed == !self.fail_active_check,
            self.fail_active_check ==> r.unwrap().error.is_some() && r.unwrap().error.unwrap()@ == "Mock active check failure"@,
            r.unwrap().duration_ms == 10,
    {
        if self.fail_active_check {
            Ok(CheckResult::failure(10, owned("Mock active check failure"), Some(1)))
        } else {
            Ok(CheckResult::success(10))
        }
    }

    /// Reports itself as an NVIDIA backend.
    pub fn device_type(&self) -> (r: DeviceType)
        ensures
            r == DeviceType::Nvidia,
    {
        DeviceType::Nvidia
    }

    /// The mock has a link probe.
    pub fn supports_pcie_test(&self) -> (r: bool)
        ensures
            r,
    {
        true
    }

    /// The link probe: fails with a degradation message when told to.
    pub fn run_pcie_test(&self, device: &DeviceId) -> (r: Result<CheckResult, DeviceError>)
        ensures
            r.is_ok(),
            r.unwrap().passed == !self.fail_pcie_test,
            self.fail_pcie_test ==> r.unwrap().error.is_some() && r.unwrap().error.unwrap()@
                == "PCIe bandwidth degradation detected: 4.5 GB/s (expected 12+ GB/s)"@,
            r.unwrap().duration_ms == 100,
    {
        if self.fail_pcie_test {
            Ok(CheckResult::failure(
                100,
                owned("PCIe bandwidth degradation detected: 4.5 GB/s (expected 12+ GB/s)"),
                Some(1),
            ))
        } else {
            Ok(CheckResult::success(100))
        }
    }
}

} // verus!
