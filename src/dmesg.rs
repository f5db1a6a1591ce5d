//! XID records in the kernel log of NVIDIA hosts.
//!
//! A record reads `NVRM: Xid (PCI:<bus>): <code>,`: the bus is any non-empty
//! text up to the first `)`, the code a run of decimal digits followed by a
//! comma. Records are found left to right without overlapping; a code that
//! does not fit in 32 bits is skipped.
use vstd::prelude::*;
use crate::clock::now_millis;
use crate::device::XidError;
use crate::scan::{CharClass, lemma_run_class, at, char_vec, digits_u64, digits_value, is_digit, matches_at, run_end, skip_run};
use crate::xid::{get_xid_description, known_xid};
use crate::text::decimal;

verus! {

/// The record that starts at `p`, if any: where it ends and its code.
pub open spec fn xid_record_at(s: Seq<char>, p: int) -> Option<(int, Option<u32>)> {
    let b = p + "NVRM: Xid (PCI:"@.len();
    let q = run_end(s, b, CharClass::NotCloseParen);
    let d0 = q + "): "@.len();
    let d1 = run_end(s, d0, CharClass::Digit);
    if at(s, p, "NVRM: Xid (PCI:"@) && q > b && at(s, q, "): "@) && d1 > d0 && at(s, d1, ","@) {
        let v = digits_value(s.subrange(d0, d1));
        Some((d1 + ","@.len(), if v <= u32::MAX { Some(v as u32) } else { None }))
    } else {
        None
    }
}

/// The codes of the records found from position `p` on.
pub open spec fn xid_codes_from(s: Seq<char>, p: int) -> Seq<u32>
    decreases s.len() - p,
{
    if p < 0 || p >= s.len() {
        Seq::empty()
    } else {
        match xid_record_at(s, p) {
            Some((e, c)) => if p < e <= s.len() {
                (match c {
                    Some(v) => seq![v],
                    None => Seq::empty(),
                }) + xid_codes_from(s, e)
            } else {
                Seq::empty()
            },
            None => xid_codes_from(s, p + 1),
        }
    }
}

fn record_at(s: &Vec<char>, p: usize, head: &Vec<char>, close: &Vec<char>, comma: &Vec<char>) -> (r: Option<(usize, Option<u32>)>)
    requires
        p <= s@.len(),
        head@ == "NVRM: Xid (PCI:"@,
        close@ == "): "@,
        comma@ == ","@,
    ensures
        match r {
            Some((e, c)) => xid_record_at(s@, p as int) == Some((e as int, c)) && p < e <= s@.len(),
            None => xid_record_at(s@, p as int).is_none(),
        },
{
    let n = s.len();
    if !matches_at(s, p, head) {
        return None;
    }
    assert(p + head@.len() <= n);
    let b = p + head.len();
    let q = skip_run(s, b, CharClass::NotCloseParen);
    if q == b || !matches_at(s, q, close) {
        return None;
    }
    assert(q + close@.len() <= n);
    let d0 = q + close.len();
    let d1 = skip_run(s, d0, CharClass::Digit);
    if d1 == d0 || !matches_at(s, d1, comma) {
        return None;
    }
    assert(d1 + comma@.len() <= n);
    proof {
        assert forall|i: int| d0 <= i < d1 implies is_digit(#[trigger] s@[i]) by {
            lemma_run_class(s@, d0 as int, i, CharClass::Digit);
        }
    }
    let v = digits_u64(s, d0, d1);
    let code = match v {
        Some(x) => if x <= u32::MAX as u64 { Some(x as u32) } else { None },
        None => None,
    };
    Some((d1 + comma.len(), code))
}

/// The XID codes recorded in a kernel log, in order.
pub fn parse_xid_codes(log: &str) -> (r: Vec<u32>)
    ensures
        r@ == xid_codes_from(log@, 0),
{
    let s = char_vec(log);
    let head = char_vec("NVRM: Xid (PCI:");
    let close = char_vec("): ");
    let comma = char_vec(",");
    let mut out: Vec<u32> = Vec::new();
    let mut p: usize = 0;
    while p < s.len()
        invariant
            p <= s@.len(),
            s@ == log@,
            head@ == "NVRM: Xid (PCI:"@,
            close@ == "): "@,
            comma@ == ","@,
            out@ + xid_codes_from(s@, p as int) == xid_codes_from(s@, 0),
        decreases s@.len() - p,
    {
        match record_at(&s, p, &head, &close, &comma) {
            Some((e, c)) => {
                match c {
                    Some(v) => {
                        out.push(v);
                    },
                    None => {},
                }
                assert(out@ + xid_codes_from(s@, e as int) =~= xid_codes_from(s@, 0));
                p = e;
            },
            None => {
                p = p + 1;
            },
        }
    }
    assert(out@ =~= out@ + xid_codes_from(s@, p as int));
    out
}

/// The fault records of a kernel log for one device: one per recorded code,
/// in order, with the code's description.
pub fn dmesg_xid_errors(log: &str, device_index: u32) -> (r: Vec<XidError>)
    ensures
        r@.len() == xid_codes_from(log@, 0).len(),
        forall|i: int| 0 <= i < r@.len() ==> {
            let x = #[trigger] r@[i];
            &&& x.code == xid_codes_from(log@, 0)[i]
            &&& x.device_index == device_index
            &&& x.message@ == match known_xid(x.code) {
                Some(d) => d,
                None => "Unknown XID error (code: "@ + decimal(x.code as nat) + ")"@,
            }
        },
{
    let codes = parse_xid_codes(log);
    let now = now_millis();
    let mut out: Vec<XidError> = Vec::new();
    let mut i: usize = 0;
    while i < codes.len()
        invariant
            i <= codes@.len(),
            codes@ == xid_codes_from(log@, 0),
            out@.len() == i,
            forall|j: int| 0 <= j < i ==> {
                let x = #[trigger] out@[j];
                &&& x.code == codes@[j]
                &&& x.device_index == device_index
                &&& x.message@ == match known_xid(x.code) {
                    Some(d) => d,
                    None => "Unknown XID error (code: "@ + decimal(x.code as nat) + ")"@,
                }
            },
        decreases codes@.len() - i,
    {
        let code = codes[i];
        out.push(XidError { code, message: get_xid_description(code), timestamp_ms: now, device_index });
        i = i + 1;
    }
    out
}

} // verus!
