//! The device table printed by `npu-smi info`.
//!
//! A device row reads `| <index> <name> | <health> |` and is followed by a
//! chip row `| <index> | <bus id> |` carrying the PCI bus identifier. The
//! device row continues with power (possibly with a fraction) and
//! temperature; the chip row with AI-core utilization, memory usage and HBM
//! usage as `used / total` in MB. Fields are separated by blanks; a row is
//! recognised at the first `|` from which it parses.
use vstd::prelude::*;
use crate::scan::{
    CharClass, char_vec, lemma_run_class, digits_u64, digits_value, is_digit, lines_from, run_end, skip_run, split_lines,
    string_of,
};

verus! {

/// A number field as a `u32`, or `dflt` when it does not fit.
pub open spec fn field_u32(l: Seq<char>, a: int, b: int, dflt: u32) -> u32 {
    let v = digits_value(l.subrange(a, b));
    if v <= u32::MAX { v as u32 } else { dflt }
}

fn field_u32_exec(l: &Vec<char>, a: usize, b: usize, dflt: u32) -> (r: u32)
    requires
        a <= b <= l@.len(),
        b == run_end(l@, a as int, CharClass::Digit),
    ensures
        r == field_u32(l@, a as int, b as int, dflt),
{
    proof {
        assert forall|i: int| a <= i < b implies is_digit(#[trigger] l@[i]) by {
            lemma_run_class(l@, a as int, i, CharClass::Digit);
        }
    }
    match digits_u64(l, a, b) {
        Some(v) => if v <= u32::MAX as u64 { v as u32 } else { dflt },
        None => dflt,
    }
}

/// The device row starting at `p`: index, name and health.
pub open spec fn device_row_at(l: Seq<char>, p: int) -> Option<(u32, Seq<char>, Seq<char>)> {
    let a = run_end(l, p + 1, CharClass::Space);
    let d = run_end(l, a, CharClass::Digit);
    let b = run_end(l, d, CharClass::Space);
    let n = run_end(l, b, CharClass::NonSpace);
    let c = run_end(l, n, CharClass::Space);
    let e = run_end(l, c + 1, CharClass::Space);
    let w = run_end(l, e, CharClass::Word);
    let f = run_end(l, w, CharClass::Space);
    if 0 <= p < l.len() && l[p] == '|' && d > a && b > d && n > b && c > n && c < l.len() && l[c] == '|'
        && w > e && f > w && f < l.len() && l[f] == '|' {
        Some((field_u32(l, a, d, 0), l.subrange(b, n), l.subrange(e, w)))
    } else {
        None
    }
}

/// The first device row of a line at or after `p`.
pub open spec fn device_row_from(l: Seq<char>, p: int) -> Option<(u32, Seq<char>, Seq<char>)>
    decreases l.len() - p,
{
    if p < 0 || p >= l.len() {
        None
    } else {
        match device_row_at(l, p) {
            Some(x) => Some(x),
            None => device_row_from(l, p + 1),
        }
    }
}

/// The bus identifier of the chip row starting at `p`.
pub open spec fn bus_row_at(l: Seq<char>, p: int) -> Option<Seq<char>> {
    let a = run_end(l, p + 1, CharClass::Space);
    let d = run_end(l, a, CharClass::Digit);
    let b = run_end(l, d, CharClass::Space);
    let e = run_end(l, b + 1, CharClass::Space);
    let h = run_end(l, e, CharClass::BusId);
    let f = run_end(l, h, CharClass::Space);
    if 0 <= p < l.len() && l[p] == '|' && d > a && b > d && b < l.len() && l[b] == '|' && h > e && f > h
        && f < l.len() && l[f] == '|' {
        Some(l.subrange(e, h))
    } else {
        None
    }
}

/// The bus identifier of the first chip row of a line at or after `p`.
pub open spec fn bus_row_from(l: Seq<char>, p: int) -> Option<Seq<char>>
    decreases l.len() - p,
{
    if p < 0 || p >= l.len() {
        None
    } else {
        match bus_row_at(l, p) {
            Some(x) => Some(x),
            None => bus_row_from(l, p + 1),
        }
    }
}

/// One device of the table.
#[derive(Debug, Clone, PartialEq, Eq)]
pub struct NpuDeviceInfo {
    /// NPU index.
    pub index: u32,
    /// Model name, e.g. `910B3`.
    pub name: String,
    /// Health column, e.g. `OK`.
    pub health: String,
    /// PCI bus identifier from the chip row, if it parsed.
    pub bus_id: Option<String>,
}

/// The mathematical value of a device entry.
pub struct NpuDeviceView {
    pub index: u32,
    pub name: Seq<char>,
    pub health: Seq<char>,
    pub bus_id: Option<Seq<char>>,
}

impl View for NpuDeviceInfo {
    type V = NpuDeviceView;

    open spec fn view(&self) -> NpuDeviceView {
        NpuDeviceView {
            index: self.index,
            name: self.name@,
            health: self.health@,
            bus_id: match self.bus_id {
                Some(b) => Some(b@),
                None => None,
            },
        }
    }
}

/// The devices of the table from line `i` on: a device row takes the next
/// line as its chip row.
pub open spec fn device_rows(lines: Seq<Seq<char>>, i: int) -> Seq<NpuDeviceView>
    decreases lines.len() + 2 - i,
{
    if i < 0 || i >= lines.len() {
        Seq::empty()
    } else {
        match device_row_from(lines[i], 0) {
            Some((index, name, health)) => seq![NpuDeviceView {
                index,
                name,
                health,
                bus_id: if i + 1 < lines.len() { bus_row_from(lines[i + 1], 0) } else { None },
            }] + device_rows(lines, i + 2),
            None => device_rows(lines, i + 1),
        }
    }
}

fn device_row_exec(l: &Vec<char>, p: usize) -> (r: Option<(u32, usize, usize, usize, usize)>)
    requires
        p < l@.len(),
    ensures
        match r {
            Some((idx, b, n, e, w)) => b <= n <= l@.len() && e <= w <= l@.len() && device_row_at(l@, p as int)
                == Some((idx, l@.subrange(b as int, n as int), l@.subrange(e as int, w as int))),
            None => device_row_at(l@, p as int).is_none(),
        },
{
    let len = l.len();
    if l[p] != '|' {
        return None;
    }
    let a = skip_run(l, p + 1, CharClass::Space);
    let d = skip_run(l, a, CharClass::Digit);
    let b = skip_run(l, d, CharClass::Space);
    let n = skip_run(l, b, CharClass::NonSpace);
    let c = skip_run(l, n, CharClass::Space);
    if !(d > a && b > d && n > b && c > n && c < len && l[c] == '|') {
        return None;
    }
    let e = skip_run(l, c + 1, CharClass::Space);
    let w = skip_run(l, e, CharClass::Word);
    let f = skip_run(l, w, CharClass::Space);
    if !(w > e && f > w && f < len && l[f] == '|') {
        return None;
    }
    let idx = field_u32_exec(l, a, d, 0);
    Some((idx, b, n, e, w))
}

fn bus_row_exec(l: &Vec<char>, p: usize) -> (r: Option<(usize, usize)>)
    requires
        p < l@.len(),
    ensures
        match r {
            Some((e, h)) => e <= h <= l@.len() && bus_row_at(l@, p as int) == Some(l@.subrange(e as int, h as int)),
            None => bus_row_at(l@, p as int).is_none(),
        },
{
    let len = l.len();
    if l[p] != '|' {
        return None;
    }
    let a = skip_run(l, p + 1, CharClass::Space);
    let d = skip_run(l, a, CharClass::Digit);
    let b = skip_run(l, d, CharClass::Space);
    if !(d > a && b > d && b < len && l[b] == '|') {
        return None;
    }
    let e = skip_run(l, b + 1, CharClass::Space);
    let h = skip_run(l, e, CharClass::BusId);
    let f = skip_run(l, h, CharClass::Space);
    if !(h > e && f > h && f < len && l[f] == '|') {
        return None;
    }
    Some((e, h))
}

fn first_device_row(l: &Vec<char>) -> (r: Option<(u32, usize, usize, usize, usize)>)
    ensures
        match r {
            Some((idx, b, n, e, w)) => b <= n <= l@.len() && e <= w <= l@.len() && device_row_from(l@, 0)
                == Some((idx, l@.subrange(b as int, n as int), l@.subrange(e as int, w as int))),
            None => device_row_from(l@, 0).is_none(),
        },
{
    let mut p: usize = 0;
    while p < l.len()
        invariant
            p <= l@.len(),
            device_row_from(l@, 0) == device_row_from(l@, p as int),
        decreases l@.len() - p,
    {
        let r = device_row_exec(l, p);
        if r.is_some() {
            return r;
        }
        p = p + 1;
    }
    None
}

fn first_bus_row(l: &Vec<char>) -> (r: Option<String>)
    ensures
        match r {
            Some(s) => bus_row_from(l@, 0) == Some(s@),
            None => bus_row_from(l@, 0).is_none(),
        },
{
    let mut p: usize = 0;
    while p < l.len()
        invariant
            p <= l@.len(),
            bus_row_from(l@, 0) == bus_row_from(l@, p as int),
        decreases l@.len() - p,
    {
        match bus_row_exec(l, p) {
            Some((e, h)) => {
                let v = crate::scan::slice_vec(l, e, h);
                return Some(string_of(v.as_slice()));
            },
            None => {},
        }
        p = p + 1;
    }
    None
}

/// The devices listed by `npu-smi info`, in order.
pub fn parse_device_list(output: &str) -> (r: Vec<NpuDeviceInfo>)
    ensures
        r@.map_values(|d: NpuDeviceInfo| d@) == device_rows(lines_from(output@, 0), 0),
{
    let s = char_vec(output);
    let lines = split_lines(&s);
    let ghost ls = lines@.map_values(|l: Vec<char>| l@);
    let mut out: Vec<NpuDeviceInfo> = Vec::new();
    let mut i: usize = 0;
    while i < lines.len()
        invariant
            i <= lines@.len(),
            ls == lines@.map_values(|l: Vec<char>| l@),
            ls == lines_from(output@, 0),
            out@.map_values(|d: NpuDeviceInfo| d@) + device_rows(ls, i as int) == device_rows(ls, 0),
        decreases lines@.len() - i,
    {
        let line = &lines[i];
        assert(line@ == ls[i as int]);
        match first_device_row(line) {
            Some((index, b, n, e, w)) => {
                let name = string_of(crate::scan::slice_vec(line, b, n).as_slice());
                let health = string_of(crate::scan::slice_vec(line, e, w).as_slice());
                let bus_id = if i + 1 < lines.len() {
                    assert(lines@[i + 1]@ == ls[i + 1]);
                    first_bus_row(&lines[i + 1])
                } else {
                    None
                };
                let info = NpuDeviceInfo { index, name, health, bus_id };
                assert(device_rows(ls, i as int) == seq![info@] + device_rows(ls, i + 2));
                assert(device_rows(ls, lines@.len() as int) == Seq::<NpuDeviceView>::empty());
                assert(device_rows(ls, lines@.len() as int + 1) == Seq::<NpuDeviceView>::empty());
                let ghost prev = out@;
                out.push(info);
                assert(out@.map_values(|d: NpuDeviceInfo| d@) =~= prev.map_values(|d: NpuDeviceInfo| d@).push(info@));
                if i + 1 < lines.len() {
                    i = i + 2;
                } else {
                    i = lines.len();
                }
            },
            None => {
                i = i + 1;
            },
        }
    }
    assert(device_rows(ls, i as int) =~= Seq::<NpuDeviceView>::empty());
    assert(out@.map_values(|d: NpuDeviceInfo| d@) =~= out@.map_values(|d: NpuDeviceInfo| d@) + Seq::<NpuDeviceView>::empty());
    out
}

/// A number field as a `u64`, or zero when it does not fit.
pub open spec fn field_u64(l: Seq<char>, a: int, b: int) -> u64 {
    let v = digits_value(l.subrange(a, b));
    if v <= u64::MAX { v as u64 } else { 0 }
}

/// Megabytes as bytes, saturating.
pub open spec fn mb_to_bytes(v: u64) -> u64 {
    if v as int * 1048576 <= u64::MAX { (v as int * 1048576) as u64 } else { u64::MAX }
}

fn field_u64_exec(l: &Vec<char>, a: usize, b: usize) -> (r: u64)
    requires
        a <= b <= l@.len(),
        b == run_end(l@, a as int, CharClass::Digit),
    ensures
        r == field_u64(l@, a as int, b as int),
{
    proof {
        assert forall|i: int| a <= i < b implies is_digit(#[trigger] l@[i]) by {
            lemma_run_class(l@, a as int, i, CharClass::Digit);
        }
    }
    match digits_u64(l, a, b) {
        Some(v) => v,
        None => 0,
    }
}

fn mb_to_bytes_exec(v: u64) -> (r: u64)
    ensures
        r == mb_to_bytes(v),
{
    if v > u64::MAX / 1048576 {
        assert(v as int * 1048576 > u64::MAX) by (nonlinear_arith)
            requires
                v > u64::MAX / 1048576,
        ;
        u64::MAX
    } else {
        assert(v as int * 1048576 <= u64::MAX) by (nonlinear_arith)
            requires
                v <= u64::MAX / 1048576,
        ;
        v * 1048576
    }
}

/// The readings of the device row starting at `p`: index, power in whole
/// watts and temperature. A fraction of the power is dropped.
pub open spec fn power_row_at(l: Seq<char>, p: int) -> Option<(u32, u32, u32)> {
    let a = run_end(l, p + 1, CharClass::Space);
    let d = run_end(l, a, CharClass::Digit);
    let b = run_end(l, d, CharClass::Space);
    let n = run_end(l, b, CharClass::NonSpace);
    let c = run_end(l, n, CharClass::Space);
    let e = run_end(l, c + 1, CharClass::Space);
    let w = run_end(l, e, CharClass::Word);
    let f = run_end(l, w, CharClass::Space);
    let g = run_end(l, f + 1, CharClass::Space);
    let i1 = run_end(l, g, CharClass::Digit);
    let j = if 0 <= i1 < l.len() && l[i1] == '.' { run_end(l, i1 + 1, CharClass::Digit) } else { i1 };
    let h = run_end(l, j, CharClass::Space);
    let t = run_end(l, h, CharClass::Digit);
    let u = run_end(l, t, CharClass::Space);
    if 0 <= p < l.len() && l[p] == '|' && d > a && b > d && n > b && c > n && c < l.len() && l[c] == '|'
        && w > e && f > w && f < l.len() && l[f] == '|' && i1 > g && h > j && t > h && u > t {
        Some((field_u32(l, a, d, u32::MAX), field_u32(l, g, i1, u32::MAX), field_u32(l, h, t, 0)))
    } else {
        None
    }
}

/// The first device-row readings of a line at or after `p`.
pub open spec fn power_row_from(l: Seq<char>, p: int) -> Option<(u32, u32, u32)>
    decreases l.len() - p,
{
    if p < 0 || p >= l.len() {
        None
    } else {
        match power_row_at(l, p) {
            Some(x) => Some(x),
            None => power_row_from(l, p + 1),
        }
    }
}

/// The readings of the chip row starting at `p`: index, AI-core percent,
/// HBM used and HBM total in bytes.
pub open spec fn usage_row_at(l: Seq<char>, p: int) -> Option<(u32, u32, u64, u64)> {
    let a = run_end(l, p + 1, CharClass::Space);
    let d = run_end(l, a, CharClass::Digit);
    let b = run_end(l, d, CharClass::Space);
    let e = run_end(l, b + 1, CharClass::Space);
    let h = run_end(l, e, CharClass::BusId);
    let f = run_end(l, h, CharClass::Space);
    let g = run_end(l, f + 1, CharClass::Space);
    let k2 = run_end(l, g, CharClass::Digit);
    let s1 = run_end(l, k2, CharClass::Space);
    let k3 = run_end(l, s1, CharClass::Digit);
    let s2 = run_end(l, k3, CharClass::Space);
    let s3 = run_end(l, s2 + 1, CharClass::Space);
    let k4 = run_end(l, s3, CharClass::Digit);
    let s4 = run_end(l, k4, CharClass::Space);
    let k5 = run_end(l, s4, CharClass::Digit);
    let s5 = run_end(l, k5, CharClass::Space);
    let s6 = run_end(l, s5 + 1, CharClass::Space);
    let k6 = run_end(l, s6, CharClass::Digit);
    if 0 <= p < l.len() && l[p] == '|' && d > a && b > d && b < l.len() && l[b] == '|' && h > e && f > h
        && f < l.len() && l[f] == '|' && k2 > g && s1 > k2 && k3 > s1 && s2 < l.len() && l[s2] == '/'
        && k4 > s3 && s4 > k4 && k5 > s4 && s5 < l.len() && l[s5] == '/' && k6 > s6 {
        Some((
            field_u32(l, a, d, u32::MAX),
            field_u32(l, g, k2, 0),
            mb_to_bytes(field_u64(l, s4, k5)),
            mb_to_bytes(field_u64(l, s6, k6)),
        ))
    } else {
        None
    }
}

/// The first chip-row readings of a line at or after `p`.
pub open spec fn usage_row_from(l: Seq<char>, p: int) -> Option<(u32, u32, u64, u64)>
    decreases l.len() - p,
{
    if p < 0 || p >= l.len() {
        None
    } else {
        match usage_row_at(l, p) {
            Some(x) => Some(x),
            None => usage_row_from(l, p + 1),
        }
    }
}

/// Readings of one NPU.
#[derive(Debug, Clone, Copy, Default, PartialEq, Eq, Structural)]
pub struct NpuMetricsInfo {
    /// Temperature, degrees Celsius.
    pub temperature: u32,
    /// Power, whole watts.
    pub power: u32,
    /// AI-core utilization, percent.
    pub aicore_util: u32,
    /// HBM used, bytes.
    pub hbm_used: u64,
    /// HBM total, bytes.
    pub hbm_total: u64,
}

/// The readings after one more line: a device row of the device sets power
/// and temperature, a chip row of the device sets utilization and HBM.
pub open spec fn apply_metrics_line(m: NpuMetricsInfo, l: Seq<char>, device: u32) -> NpuMetricsInfo {
    let m1 = match power_row_from(l, 0) {
        Some((i, pw, t)) => if i == device { NpuMetricsInfo { power: pw, temperature: t, ..m } } else { m },
        None => m,
    };
    match usage_row_from(l, 0) {
        Some((i, ai, used, total)) => if i == device {
            NpuMetricsInfo { aicore_util: ai, hbm_used: used, hbm_total: total, ..m1 }
        } else {
            m1
        },
        None => m1,
    }
}

/// The readings of a device after the given lines, starting from zeros.
pub open spec fn metrics_over(lines: Seq<Seq<char>>, device: u32) -> NpuMetricsInfo
    decreases lines.len(),
{
    if lines.len() == 0 {
        NpuMetricsInfo { temperature: 0, power: 0, aicore_util: 0, hbm_used: 0, hbm_total: 0 }
    } else {
        apply_metrics_line(metrics_over(lines.drop_last(), device), lines.last(), device)
    }
}

fn power_row_exec(l: &Vec<char>, p: usize) -> (r: Option<(u32, u32, u32)>)
    requires
        p < l@.len(),
    ensures
        r == power_row_at(l@, p as int),
{
    let len = l.len();
    if l[p] != '|' {
        return None;
    }
    let a = skip_run(l, p + 1, CharClass::Space);
    let d = skip_run(l, a, CharClass::Digit);
    let b = skip_run(l, d, CharClass::Space);
    let n = skip_run(l, b, CharClass::NonSpace);
    let c = skip_run(l, n, CharClass::Space);
    if !(d > a && b > d && n > b && c > n && c < len && l[c] == '|') {
        return None;
    }
    let e = skip_run(l, c + 1, CharClass::Space);
    let w = skip_run(l, e, CharClass::Word);
    let f = skip_run(l, w, CharClass::Space);
    if !(w > e && f > w && f < len && l[f] == '|') {
        return None;
    }
    let g = skip_run(l, f + 1, CharClass::Space);
    let i1 = skip_run(l, g, CharClass::Digit);
    let j = if i1 < len && l[i1] == '.' { skip_run(l, i1 + 1, CharClass::Digit) } else { i1 };
    let h = skip_run(l, j, CharClass::Space);
    let t = skip_run(l, h, CharClass::Digit);
    let u = skip_run(l, t, CharClass::Space);
    if !(i1 > g && h > j && t > h && u > t) {
        return None;
    }
    Some((field_u32_exec(l, a, d, u32::MAX), field_u32_exec(l, g, i1, u32::MAX), field_u32_exec(l, h, t, 0)))
}

fn usage_row_exec(l: &Vec<char>, p: usize) -> (r: Option<(u32, u32, u64, u64)>)
    requires
        p < l@.len(),
    ensures
        r == usage_row_at(l@, p as int),
{
    let len = l.len();
    if l[p] != '|' {
        return None;
    }
    let a = skip_run(l, p + 1, CharClass::Space);
    let d = skip_run(l, a, CharClass::Digit);
    let b = skip_run(l, d, CharClass::Space);
    if !(d > a && b > d && b < len && l[b] == '|') {
        return None;
    }
    let e = skip_run(l, b + 1, CharClass::Space);
    let h = skip_run(l, e, CharClass::BusId);
    let f = skip_run(l, h, CharClass::Space);
    if !(h > e && f > h && f < len && l[f] == '|') {
        return None;
    }
    let g = skip_run(l, f + 1, CharClass::Space);
    let k2 = skip_run(l, g, CharClass::Digit);
    let s1 = skip_run(l, k2, CharClass::Space);
    let k3 = skip_run(l, s1, CharClass::Digit);
    let s2 = skip_run(l, k3, CharClass::Space);
    if !(k2 > g && s1 > k2 && k3 > s1 && s2 < len && l[s2] == '/') {
        return None;
    }
    let s3 = skip_run(l, s2 + 1, CharClass::Space);
    let k4 = skip_run(l, s3, CharClass::Digit);
    let s4 = skip_run(l, k4, CharClass::Space);
    let k5 = skip_run(l, s4, CharClass::Digit);
    let s5 = skip_run(l, k5, CharClass::Space);
    if !(k4 > s3 && s4 > k4 && k5 > s4 && s5 < len && l[s5] == '/') {
        return None;
    }
    let s6 = skip_run(l, s5 + 1, CharClass::Space);
    let k6 = skip_run(l, s6, CharClass::Digit);
    if !(k6 > s6) {
        return None;
    }
    Some((
        field_u32_exec(l, a, d, u32::MAX),
        field_u32_exec(l, g, k2, 0),
        mb_to_bytes_exec(field_u64_exec(l, s4, k5)),
        mb_to_bytes_exec(field_u64_exec(l, s6, k6)),
    ))
}

fn first_power_row(l: &Vec<char>) -> (r: Option<(u32, u32, u32)>)
    ensures
        r == power_row_from(l@, 0),
{
    let mut p: usize = 0;
    while p < l.len()
        invariant
            p <= l@.len(),
            power_row_from(l@, 0) == power_row_from(l@, p as int),
        decreases l@.len() - p,
    {
        let r = power_row_exec(l, p);
        if r.is_some() {
            return r;
        }
        p = p + 1;
    }
    None
}

fn first_usage_row(l: &Vec<char>) -> (r: Option<(u32, u32, u64, u64)>)
    ensures
        r == usage_row_from(l@, 0),
{
    let mut p: usize = 0;
    while p < l.len()
        invariant
            p <= l@.len(),
            usage_row_from(l@, 0) == usage_row_from(l@, p as int),
        decreases l@.len() - p,
    {
        let r = usage_row_exec(l, p);
        if r.is_some() {
            return r;
        }
        p = p + 1;
    }
    None
}

/// The readings of one device in the output of `npu-smi info`; fields of
/// rows that do not parse stay zero, and a later row of the device wins.
pub fn parse_device_metrics(output: &str, device_index: u32) -> (r: NpuMetricsInfo)
    ensures
        r == metrics_over(lines_from(output@, 0), device_index),
{
    let s = char_vec(output);
    let lines = split_lines(&s);
    let ghost ls = lines@.map_values(|l: Vec<char>| l@);
    let mut m = NpuMetricsInfo { temperature: 0, power: 0, aicore_util: 0, hbm_used: 0, hbm_total: 0 };
    let mut i: usize = 0;
    while i < lines.len()
        invariant
            i <= lines@.len(),
            ls == lines@.map_values(|l: Vec<char>| l@),
            ls == lines_from(output@, 0),
            m == metrics_over(ls.take(i as int), device_index),
        decreases lines@.len() - i,
    {
        let line = &lines[i];
        assert(ls.take(i + 1).drop_last() =~= ls.take(i as int));
        assert(ls.take(i + 1).last() == line@);
        match first_power_row(line) {
            Some((idx, pw, t)) => if idx == device_index {
                m = NpuMetricsInfo { power: pw, temperature: t, ..m };
            },
            None => {},
        }
        match first_usage_row(line) {
            Some((idx, ai, used, total)) => if idx == device_index {
                m = NpuMetricsInfo { aicore_util: ai, hbm_used: used, hbm_total: total, ..m };
            },
            None => {},
        }
        i = i + 1;
    }
    assert(ls.take(lines@.len() as int) =~= ls);
    m
}

} // verus!
