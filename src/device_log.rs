//! Fault codes in the device-OS logs of Ascend NPUs.
//!
//! A line reports a fault when `[ERROR]` is followed, later on the same
//! line, by the fault's key words in order (`HBM` then `error` for 1001,
//! `AICore` then `hang` for 1002, `temperature` for 1003, `PCIe` then `link`
//! for 1005, `device` then `lost` for 1007, `ECC` then `uncorrectable` for
//! 1008). Anywhere in a log, `ErrCode=<digits>` reports that code (9999 when
//! it does not fit in 32 bits). The codes of several logs are merged, sorted
//! and listed once each.
use vstd::prelude::*;
use crate::ascend::AscendErrorCode;
use crate::clock::now_millis;
use crate::device::XidError;
use crate::npu_smi::field_u32;
use crate::scan::{lemma_run_class, at, char_vec, digits_u64, is_digit, lines_from, matches_at, run_end, skip_run, split_lines, CharClass};

verus! {

broadcast use vstd::string::group_string_axioms;

/// Whether `a`, then `b` no earlier than its end, occur in `l`.
pub open spec fn in_order2(l: Seq<char>, a: Seq<char>, b: Seq<char>) -> bool {
    exists|i: int, j: int| #![trigger at(l, i, a), at(l, j, b)] at(l, i, a) && i + a.len() <= j && at(l, j, b)
}

/// Whether `a`, `b` and `c` occur in `l` in that order without overlapping.
pub open spec fn in_order3(l: Seq<char>, a: Seq<char>, b: Seq<char>, c: Seq<char>) -> bool {
    exists|i: int, j: int, k: int|
        #![trigger at(l, i, a), at(l, j, b), at(l, k, c)]
        at(l, i, a) && i + a.len() <= j && at(l, j, b) && j + b.len() <= k && at(l, k, c)
}

/// Whether a line reports fault `code` by its key words.
pub open spec fn line_reports(l: Seq<char>, code: u32) -> bool {
    let e = "[ERROR]"@;
    ||| code == 1001 && in_order3(l, e, "HBM"@, "error"@)
    ||| code == 1002 && in_order3(l, e, "AICore"@, "hang"@)
    ||| code == 1003 && in_order2(l, e, "temperature"@)
    ||| code == 1005 && in_order3(l, e, "PCIe"@, "link"@)
    ||| code == 1007 && in_order3(l, e, "device"@, "lost"@)
    ||| code == 1008 && in_order3(l, e, "ECC"@, "uncorrectable"@)
}

/// Whether a log reports fault `code` through `ErrCode=`.
pub open spec fn errcode_reports(s: Seq<char>, code: u32) -> bool {
    exists|p: int|
        #![trigger at(s, p, "ErrCode="@)]
        at(s, p, "ErrCode="@) && run_end(s, p + "ErrCode="@.len(), CharClass::Digit) > p + "ErrCode="@.len()
            && field_u32(s, p + "ErrCode="@.len(), run_end(s, p + "ErrCode="@.len(), CharClass::Digit), 9999)
            == code
}

/// Whether a log reports fault `code`.
pub open spec fn log_reports(s: Seq<char>, code: u32) -> bool {
    (exists|i: int| 0 <= i < lines_from(s, 0).len() && line_reports(#[trigger] lines_from(s, 0)[i], code))
        || errcode_reports(s, code)
}

/// The codes of a sequence of fault records.
pub open spec fn codes_of(v: Seq<XidError>) -> Seq<u32> {
    v.map_values(|x: XidError| x.code)
}

/// Strictly increasing.
pub open spec fn increasing(v: Seq<u32>) -> bool {
    forall|i: int, j: int| 0 <= i < j < v.len() ==> v[i] < v[j]
}

/// The first occurrence of `lit` in `s` at or after `p`.
fn find_from(s: &Vec<char>, p: usize, lit: &Vec<char>) -> (r: Option<usize>)
    requires
        lit@.len() > 0,
    ensures
        match r {
            Some(q) => p <= q && at(s@, q as int, lit@) && forall|x: int| p <= x < q ==> !at(s@, x, lit@),
            None => forall|x: int| p <= x ==> !at(s@, x, lit@),
        },
{
    let mut q = p;
    while q < s.len()
        invariant
            p <= q,
            forall|x: int| p <= x < q ==> !at(s@, x, lit@),
        decreases s@.len() - q,
    {
        if matches_at(s, q, lit) {
            return Some(q);
        }
        q = q + 1;
    }
    None
}

/// Whether `a` then `b` occur in order in `l`.
fn has_in_order2(l: &Vec<char>, a: &Vec<char>, b: &Vec<char>) -> (r: bool)
    requires
        a@.len() > 0,
        b@.len() > 0,
    ensures
        r == in_order2(l@, a@, b@),
{
    let n = l.len();
    match find_from(l, 0, a) {
        None => false,
        Some(i) => {
            assert(i + a@.len() <= n);
            match find_from(l, i + a.len(), b) {
                Some(j) => {
                    assert(at(l@, i as int, a@) && at(l@, j as int, b@));
                    true
                },
                None => {
                    assert forall|x: int, y: int| at(l@, x, a@) && x + a@.len() <= y implies !at(l@, y, b@) by {
                        assert(i <= x);
                    }
                    false
                },
            }
        },
    }
}

/// Whether `a`, `b` then `c` occur in order in `l`.
fn has_in_order3(l: &Vec<char>, a: &Vec<char>, b: &Vec<char>, c: &Vec<char>) -> (r: bool)
    requires
        a@.len() > 0,
        b@.len() > 0,
        c@.len() > 0,
    ensures
        r == in_order3(l@, a@, b@, c@),
{
    let n = l.len();
    match find_from(l, 0, a) {
        None => false,
        Some(i) => {
            assert(i + a@.len() <= n);
            match find_from(l, i + a.len(), b) {
                None => {
                    assert forall|x: int, y: int, z: int|
                        at(l@, x, a@) && x + a@.len() <= y && at(l@, y, b@) && y + b@.len() <= z implies !at(
                        l@,
                        z,
                        c@,
                    ) by {
                        assert(i <= x);
                    }
                    false
                },
                Some(j) => {
                    assert(j + b@.len() <= n);
                    match find_from(l, j + b.len(), c) {
                        Some(k) => {
                            assert(at(l@, i as int, a@) && at(l@, j as int, b@) && at(l@, k as int, c@));
                            true
                        },
                        None => {
                            assert forall|x: int, y: int, z: int|
                                at(l@, x, a@) && x + a@.len() <= y && at(l@, y, b@) && y + b@.len() <= z implies !at(
                                l@,
                                z,
                                c@,
                            ) by {
                                assert(i <= x);
                                assert(j <= y);
                            }
                            false
                        },
                    }
                },
            }
        },
    }
}

/// Adds `c` to a strictly increasing list, keeping it so.
fn insert_sorted(v: &mut Vec<u32>, c: u32)
    requires
        increasing(old(v)@),
    ensures
        increasing(final(v)@),
        forall|x: u32| final(v)@.contains(x) <==> (old(v)@.contains(x) || x == c),
{
    let mut i: usize = 0;
    while i < v.len() && v[i] < c
        invariant
            i <= v@.len(),
            v@ == old(v)@,
            forall|j: int| 0 <= j < i ==> v@[j] < c,
        decreases v@.len() - i,
    {
        i = i + 1;
    }
    if i < v.len() && v[i] == c {
        return;
    }
    v.insert(i, c);
    assert forall|x: u32| v@.contains(x) <==> (old(v)@.contains(x) || x == c) by {
        if v@.contains(x) {
            let k = choose|k: int| 0 <= k < v@.len() && v@[k] == x;
            if k < i {
                assert(old(v)@[k] == x);
            } else if k > i {
                assert(old(v)@[k - 1] == x);
            }
        }
        if old(v)@.contains(x) {
            let k = choose|k: int| 0 <= k < old(v)@.len() && old(v)@[k] == x;
            if k < i {
                assert(v@[k] == x);
            } else {
                assert(v@[k + 1] == x);
            }
        }
        if x == c {
            assert(v@[i as int] == x);
        }
    }
}

/// The codes a log reports through `ErrCode=`, added to `acc`.
fn scan_errcodes(s: &Vec<char>, acc: &mut Vec<u32>)
    requires
        increasing(old(acc)@),
    ensures
        increasing(final(acc)@),
        forall|x: u32| #[trigger] final(acc)@.contains(x) <==> (old(acc)@.contains(x) || errcode_reports(s@, x)),
{
    let key = char_vec("ErrCode=");
    let n = s.len();
    let mut p: usize = 0;
    while p < s.len()
        invariant
            key@ == "ErrCode="@,
            n == s@.len(),
            increasing(acc@),
            forall|x: u32| acc@.contains(x) <==> (old(acc)@.contains(x) || exists|q: int|
                #![trigger at(s@, q, "ErrCode="@)]
                0 <= q < p && at(s@, q, "ErrCode="@) && run_end(s@, q + "ErrCode="@.len(), CharClass::Digit) > q
                    + "ErrCode="@.len() && field_u32(
                    s@,
                    q + "ErrCode="@.len(),
                    run_end(s@, q + "ErrCode="@.len(), CharClass::Digit),
                    9999,
                ) == x),
        decreases s@.len() - p,
    {
        if matches_at(s, p, &key) {
            assert(p + key@.len() <= n);
            let d0 = p + key.len();
            let d1 = skip_run(s, d0, CharClass::Digit);
            if d1 > d0 {
                proof {
                    assert forall|i: int| d0 <= i < d1 implies is_digit(#[trigger] s@[i]) by {
                        lemma_run_class(s@, d0 as int, i, CharClass::Digit);
                    }
                }
                let code = match digits_u64(s, d0, d1) {
                    Some(v) => if v <= u32::MAX as u64 { v as u32 } else { 9999 },
                    None => 9999,
                };
                insert_sorted(acc, code);
            }
        }
        p = p + 1;
    }
}

/// The codes a log reports by key words, added to `acc`.
fn scan_lines(s: &Vec<char>, acc: &mut Vec<u32>)
    requires
        increasing(old(acc)@),
    ensures
        increasing(final(acc)@),
        forall|x: u32|
            #[trigger] final(acc)@.contains(x) <==> (old(acc)@.contains(x) || exists|i: int|
                0 <= i < lines_from(s@, 0).len() && line_reports(#[trigger] lines_from(s@, 0)[i], x)),
{
    let lines = split_lines(s);
    let ghost ls = lines@.map_values(|l: Vec<char>| l@);
    let err = char_vec("[ERROR]");
    let hbm = char_vec("HBM");
    let error = char_vec("error");
    let aicore = char_vec("AICore");
    let hang = char_vec("hang");
    let temperature = char_vec("temperature");
    let pcie = char_vec("PCIe");
    let link = char_vec("link");
    let device = char_vec("device");
    let lost = char_vec("lost");
    let ecc = char_vec("ECC");
    let uncorrectable = char_vec("uncorrectable");
    let mut i: usize = 0;
    while i < lines.len()
        invariant
            i <= lines@.len(),
            ls == lines@.map_values(|l: Vec<char>| l@),
            ls == lines_from(s@, 0),
            err@ == "[ERROR]"@,
            hbm@ == "HBM"@,
            error@ == "error"@,
            aicore@ == "AICore"@,
            hang@ == "hang"@,
            temperature@ == "temperature"@,
            pcie@ == "PCIe"@,
            link@ == "link"@,
            device@ == "device"@,
            lost@ == "lost"@,
            ecc@ == "ECC"@,
            uncorrectable@ == "uncorrectable"@,
            increasing(acc@),
            forall|x: u32|
                acc@.contains(x) <==> (old(acc)@.contains(x) || exists|j: int| 0 <= j < i && line_reports(#[trigger] ls[j], x)),
        decreases lines@.len() - i,
    {
        let l = &lines[i];
        assert(l@ == ls[i as int]);
        let ghost before = acc@;
        proof {
            reveal_strlit("[ERROR]");
            reveal_strlit("HBM");
            reveal_strlit("error");
            reveal_strlit("AICore");
            reveal_strlit("hang");
            reveal_strlit("temperature");
            reveal_strlit("PCIe");
            reveal_strlit("link");
            reveal_strlit("device");
            reveal_strlit("lost");
            reveal_strlit("ECC");
            reveal_strlit("uncorrectable");
        }
        if has_in_order3(l, &err, &hbm, &error) {
            insert_sorted(acc, 1001);
        }
        if has_in_order3(l, &err, &aicore, &hang) {
            insert_sorted(acc, 1002);
        }
        if has_in_order2(l, &err, &temperature) {
            insert_sorted(acc, 1003);
        }
        if has_in_order3(l, &err, &pcie, &link) {
            insert_sorted(acc, 1005);
        }
        if has_in_order3(l, &err, &device, &lost) {
            insert_sorted(acc, 1007);
        }
        if has_in_order3(l, &err, &ecc, &uncorrectable) {
            insert_sorted(acc, 1008);
        }
        proof {
            assert forall|x: u32| acc@.contains(x) <==> (before.contains(x) || line_reports(ls[i as int], x)) by {}
            assert forall|x: u32|
                acc@.contains(x) <==> (old(acc)@.contains(x) || exists|j: int| 0 <= j < i + 1 && line_reports(#[trigger] ls[j], x)) by {
                if line_reports(ls[i as int], x) {
                    assert(0 <= i < i + 1);
                }
                if exists|j: int| 0 <= j < i + 1 && line_reports(#[trigger] ls[j], x) {
                    let j = choose|j: int| 0 <= j < i + 1 && line_reports(#[trigger] ls[j], x);
                    if j < i {
                    }
                }
            }
        }
        i = i + 1;
    }
}

/// The fault codes the given logs report, sorted and listed once each.
pub fn log_fault_codes(logs: &Vec<String>) -> (r: Vec<u32>)
    ensures
        increasing(r@),
        forall|x: u32| r@.contains(x) <==> exists|i: int| 0 <= i < logs@.len() && log_reports(#[trigger] logs@[i]@, x),
{
    let mut acc: Vec<u32> = Vec::new();
    let mut i: usize = 0;
    while i < logs.len()
        invariant
            i <= logs@.len(),
            increasing(acc@),
            forall|x: u32| acc@.contains(x) <==> exists|j: int| 0 <= j < i && log_reports(#[trigger] logs@[j]@, x),
        decreases logs@.len() - i,
    {
        let s = char_vec(logs[i].as_str());
        let ghost before = acc@;
        scan_lines(&s, &mut acc);
        let ghost mid = acc@;
        scan_errcodes(&s, &mut acc);
        proof {
            assert(s@ == logs@[i as int]@);
            assert forall|x: u32| acc@.contains(x) <==> (before.contains(x) || log_reports(logs@[i as int]@, x)) by {
                assert(acc@.contains(x) <==> (mid.contains(x) || errcode_reports(s@, x)));
            }
            assert forall|x: u32| acc@.contains(x) <==> exists|j: int| 0 <= j < i + 1 && log_reports(#[trigger] logs@[j]@, x) by {
                if log_reports(logs@[i as int]@, x) {
                    assert(0 <= i < i + 1);
                }
                if exists|j: int| 0 <= j < i + 1 && log_reports(#[trigger] logs@[j]@, x) {
                    let j = choose|j: int| 0 <= j < i + 1 && log_reports(#[trigger] logs@[j]@, x);
                    if j < i {
                    }
                }
            }
        }
        i = i + 1;
    }
    acc
}

/// The fault records of a device from its recent logs: one per reported
/// code, in increasing order, described by the Ascend code table.
pub fn device_log_errors(logs: &Vec<String>, device_index: u32) -> (r: Vec<XidError>)
    ensures
        increasing(codes_of(r@)),
        forall|x: u32| #[trigger] codes_of(r@).contains(x) <==> exists|i: int|
            0 <= i < logs@.len() && log_reports(#[trigger] logs@[i]@, x),
        forall|i: int| 0 <= i < r@.len() ==> (#[trigger] r@[i]).device_index == device_index,
{
    let codes = log_fault_codes(logs);
    let now = now_millis();
    let mut out: Vec<XidError> = Vec::new();
    let mut i: usize = 0;
    while i < codes.len()
        invariant
            i <= codes@.len(),
            codes_of(out@) == codes@.subrange(0, i as int),
            forall|j: int| 0 <= j < out@.len() ==> (#[trigger] out@[j]).device_index == device_index,
        decreases codes@.len() - i,
    {
        let code = codes[i];
        let message = crate::text::owned(AscendErrorCode::from_code(code).description());
        let ghost prev = out@;
        out.push(XidError { code, message, timestamp_ms: now, device_index });
        assert(codes_of(out@) =~= codes_of(prev).push(code));
        assert(codes_of(out@) =~= codes@.subrange(0, i + 1));
        i = i + 1;
    }
    assert(codes@.subrange(0, codes@.len() as int) =~= codes@);
    assert(codes_of(out@) == codes@);
    out
}

} // verus!
