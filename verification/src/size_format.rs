//! Human-readable rendering of byte counts: `0 B`, `1.5 KB`, `1.0 GB`.
//!
//! A count below 1024 is printed in bytes with no fraction; otherwise it is
//! scaled by the largest of KB, MB and GB that fits (GB at most) and printed
//! with one decimal digit, rounded to the nearest tenth, half away from zero.

use vstd::prelude::*;
use vstd::string::*;

use crate::strutil::{digit_str, spec_digit, spec_u64_string, u64_to_string};

verus! {

pub const KIB: u64 = 1024;

pub const MIB: u64 = 1048576;

pub const GIB: u64 = 1073741824;

/// `bytes` scaled by `unit` and rendered with one decimal digit: the whole
/// part in decimal, a dot, and the tenths rounded to nearest (a tenths value
/// that rounds up to a whole carries into the whole part).
pub open spec fn spec_scaled_string(bytes: nat, unit: nat) -> Seq<char> {
    let whole = bytes / unit;
    let frac = bytes % unit;
    let tenths = (frac * 10 + unit / 2) / unit;
    if tenths == 10 {
        spec_u64_string(whole + 1) + "."@ + seq![spec_digit(0)]
    } else {
        spec_u64_string(whole) + "."@ + seq![spec_digit(tenths as int)]
    }
}

/// The rendering of a byte count, unit suffix included.
pub open spec fn spec_format_file_size(bytes: nat) -> Seq<char> {
    if bytes < KIB {
        spec_u64_string(bytes) + " B"@
    } else if bytes < MIB {
        spec_scaled_string(bytes, KIB as nat) + " KB"@
    } else if bytes < GIB {
        spec_scaled_string(bytes, MIB as nat) + " MB"@
    } else {
        spec_scaled_string(bytes, GIB as nat) + " GB"@
    }
}

/// Renders `bytes / unit` with one rounded decimal digit.
fn scaled_string(bytes: u64, unit: u64) -> (r: String)
    requires
        1024 <= unit,
        unit <= GIB,
    ensures
        r@ == spec_scaled_string(bytes as nat, unit as nat),
{
    let whole = bytes / unit;
    let frac = bytes % unit;
    assert(frac < unit);
    assert(frac as int * 10 + unit as int / 2 < 11 * unit as int) by (nonlinear_arith)
        requires
            frac < unit,
            2 <= unit,
    ;
    assert((frac as int * 10 + unit as int / 2) / (unit as int) < 11) by (nonlinear_arith)
        requires
            frac as int * 10 + unit as int / 2 < 11 * unit as int,
            2 <= unit,
    ;
    let tenths = (frac * 10 + unit / 2) / unit;
    proof {
        vstd::arithmetic::div_mod::lemma_div_is_ordered_by_denominator(
            bytes as int,
            1024,
            unit as int,
        );
        vstd::arithmetic::div_mod::lemma_div_is_ordered(bytes as int, u64::MAX as int, 1024);
    }
    if tenths == 10 {
        let mut r = u64_to_string(whole + 1);
        r.append(".");
        r.append(digit_str(0));
        r
    } else {
        let mut r = u64_to_string(whole);
        r.append(".");
        r.append(digit_str(tenths));
        r
    }
}

/// Renders a byte count for humans.
pub fn format_file_size(bytes: u64) -> (r: String)
    ensures
        r@ == spec_format_file_size(bytes as nat),
{
    if bytes < KIB {
        let mut r = u64_to_string(bytes);
        r.append(" B");
        r
    } else if bytes < MIB {
        let mut r = scaled_string(bytes, KIB);
        r.append(" KB");
        r
    } else if bytes < GIB {
        let mut r = scaled_string(bytes, MIB);
        r.append(" MB");
        r
    } else {
        let mut r = scaled_string(bytes, GIB);
        r.append(" GB");
        r
    }
}

} // verus!
