//! Rendering of integers and fixed-point values as decimal text.
//!
//! Coordinates are held in thousandths of a unit and printed with exactly
//! three digits after the decimal point; machine settings (tool number,
//! spindle speed) are printed as plain decimal integers.

use vstd::prelude::*;
use vstd::string::StringExecFns;

verus! {

/// The single decimal digit character for `d` (meaningful for `0 <= d <= 9`).
pub open spec fn digit_text(d: int) -> Seq<char> {
    if d == 0 {
        "0"@
    } else if d == 1 {
        "1"@
    } else if d == 2 {
        "2"@
    } else if d == 3 {
        "3"@
    } else if d == 4 {
        "4"@
    } else if d == 5 {
        "5"@
    } else if d == 6 {
        "6"@
    } else if d == 7 {
        "7"@
    } else if d == 8 {
        "8"@
    } else {
        "9"@
    }
}

/// Decimal text of a non-negative integer, without sign or padding.
pub open spec fn udec_text(n: int) -> Seq<char>
    recommends
        n >= 0,
    decreases n,
{
    if n < 10 {
        digit_text(n)
    } else {
        udec_text(n / 10) + digit_text(n % 10)
    }
}

/// Decimal text of an integer, with a leading `-` when negative.
pub open spec fn idec_text(n: int) -> Seq<char> {
    if n < 0 {
        "-"@ + udec_text(-n)
    } else {
        udec_text(n)
    }
}

/// Text of a non-negative count of thousandths with exactly three digits
/// after the decimal point.
pub open spec fn ufixed3_text(n: int) -> Seq<char>
    recommends
        n >= 0,
{
    let frac = n % 1000;
    udec_text(n / 1000) + "."@ + digit_text(frac / 100) + digit_text(frac / 10 % 10) + digit_text(
        frac % 10,
    )
}

/// Text of a count of thousandths with exactly three digits after the
/// decimal point and a leading `-` when negative.
pub open spec fn fixed3_text(n: int) -> Seq<char> {
    if n < 0 {
        "-"@ + ufixed3_text(-n)
    } else {
        ufixed3_text(n)
    }
}

fn digit_str(d: u64) -> (r: &'static str)
    requires
        d < 10,
    ensures
        r@ == digit_text(d as int),
{
    if d == 0 {
        "0"
    } else if d == 1 {
        "1"
    } else if d == 2 {
        "2"
    } else if d == 3 {
        "3"
    } else if d == 4 {
        "4"
    } else if d == 5 {
        "5"
    } else if d == 6 {
        "6"
    } else if d == 7 {
        "7"
    } else if d == 8 {
        "8"
    } else {
        "9"
    }
}

/// Renders `n` in decimal.
pub fn fmt_u64(n: u64) -> (r: String)
    ensures
        r@ == udec_text(n as int),
    decreases n,
{
    if n < 10 {
        String::from_str(digit_str(n))
    } else {
        let mut s = fmt_u64(n / 10);
        s.append(digit_str(n % 10));
        s
    }
}

/// Renders `n` in decimal, with a leading `-` when negative.
pub fn fmt_i32(n: i32) -> (r: String)
    ensures
        r@ == idec_text(n as int),
{
    if n < 0 {
        let mag: u64 = (-(n as i64)) as u64;
        let mut s = String::from_str("-");
        s.append(fmt_u64(mag).as_str());
        s
    } else {
        fmt_u64(n as u64)
    }
}

fn fmt_ufixed3(n: u64) -> (r: String)
    ensures
        r@ == ufixed3_text(n as int),
{
    let mut s = fmt_u64(n / 1000);
    s.append(".");
    let frac = n % 1000;
    s.append(digit_str(frac / 100));
    s.append(digit_str(frac / 10 % 10));
    s.append(digit_str(frac % 10));
    s
}

/// Renders a count of thousandths with exactly three digits after the
/// decimal point, as in `10.200` or `-0.500`.
pub fn fmt_fixed3(n: i64) -> (r: String)
    requires
        n != i64::MIN,
    ensures
        r@ == fixed3_text(n as int),
{
    if n < 0 {
        let mut s = String::from_str("-");
        s.append(fmt_ufixed3((-n) as u64).as_str());
        s
    } else {
        fmt_ufixed3(n as u64)
    }
}

} // verus!
