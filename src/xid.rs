//! Descriptions of NVIDIA XID fault codes.
use vstd::prelude::*;
use crate::text::{decimal, decimal_text, join2, owned};

verus! {

/// The description of a listed XID code.
pub open spec fn known_xid(code: u32) -> Option<Seq<char>> {
    if code == 13 { Some("Graphics Engine Exception"@) }
    else if code == 31 { Some("GPU memory page fault"@) }
    else if code == 32 { Some("Invalid or corrupted push buffer stream"@) }
    else if code == 38 { Some("Driver firmware error"@) }
    else if code == 43 { Some("GPU stopped processing"@) }
    else if code == 45 { Some("Preemptive cleanup, due to previous errors"@) }
    else if code == 48 { Some("Double Bit ECC Error"@) }
    else if code == 61 { Some("Internal micro-controller breakpoint/warning"@) }
    else if code == 62 { Some("Internal micro-controller halt"@) }
    else if code == 63 { Some("ECC page retirement or row remapping recording event"@) }
    else if code == 64 { Some("ECC page retirement or row remapper recording failure"@) }
    else if code == 68 { Some("NVDEC0 Exception"@) }
    else if code == 69 { Some("Graphics Engine class error"@) }
    else if code == 74 { Some("NVLINK Error"@) }
    else if code == 79 { Some("GPU has fallen off the bus"@) }
    else if code == 92 { Some("High single-bit ECC error rate"@) }
    else if code == 94 { Some("Contained ECC error"@) }
    else if code == 95 { Some("Uncontained ECC error"@) }
    else { None }
}

/// The description of an XID code; unlisted codes are reported as unknown
/// with their number.
pub fn get_xid_description(code: u32) -> (r: String)
    ensures
        r@ == match known_xid(code) {
            Some(d) => d,
            None => "Unknown XID error (code: "@ + decimal(code as nat) + ")"@,
        },
{
    match code {
        13 => owned("Graphics Engine Exception"),
        31 => owned("GPU memory page fault"),
        32 => owned("Invalid or corrupted push buffer stream"),
        38 => owned("Driver firmware error"),
        43 => owned("GPU stopped processing"),
        45 => owned("Preemptive cleanup, due to previous errors"),
        48 => owned("Double Bit ECC Error"),
        61 => owned("Internal micro-controller breakpoint/warning"),
        62 => owned("Internal micro-controller halt"),
        63 => owned("ECC page retirement or row remapping recording event"),
        64 => owned("ECC page retirement or row remapper recording failure"),
        68 => owned("NVDEC0 Exception"),
        69 => owned("Graphics Engine class error"),
        74 => owned("NVLINK Error"),
        79 => owned("GPU has fallen off the bus"),
        92 => owned("High single-bit ECC error rate"),
        94 => owned("Contained ECC error"),
        95 => owned("Uncontained ECC error"),
        _ => {
            let n = decimal_text(code as u64);
            let a = join2("Unknown XID error (code: ", n.as_str());
            join2(a.as_str(), ")")
        },
    }
}

} // verus!
