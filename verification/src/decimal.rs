//! Decimal rendering of percentages and load averages.
//!
//! Every number an alert reports is shown with exactly two digits after
//! the decimal point, so the library works in hundredths throughout: a
//! value `v` in hundredths is rendered `"{v / 100}.{v % 100:02}"`.

use vstd::prelude::*;

verus! {

/// The decimal digit character for `d` (meaningful for `0 <= d < 10`).
pub open spec fn digit_char(d: int) -> char
    recommends
        0 <= d < 10,
{
    ((d + 48) as u8) as char
}

/// The usual base-10 rendering of `n >= 0`, most significant digit
/// first, with no leading zeros (and `0` itself rendered `"0"`).
pub open spec fn dec_rep(n: int) -> Seq<char>
    recommends
        n >= 0,
    decreases n,
{
    if n < 10 {
        seq![digit_char(n)]
    } else {
        dec_rep(n / 10).push(digit_char(n % 10))
    }
}

/// A value in hundredths rendered with two digits after the point:
/// `7013` is `"70.13"`, `800` is `"8.00"`.
pub open spec fn hundredths_rep(v: int) -> Seq<char>
    recommends
        v >= 0,
{
    dec_rep(v / 100) + seq!['.', digit_char((v / 10) % 10), digit_char(v % 10)]
}

/// `part / whole * 100`, expressed in hundredths of a percent and
/// rounded half-up to the nearest hundredth.
pub open spec fn percent_hundredths(part: int, whole: int) -> int
    recommends
        whole > 0,
{
    (part * 20000 + whole) / (2 * whole)
}

/// The single-character string for the decimal digit `d`.
fn digit_str(d: u64) -> (r: &'static str)
    requires
        d < 10,
    ensures
        r@ == seq![digit_char(d as int)],
{
    let r = if d == 0 {
        "0"
    } else if d == 1 {
        "1"
    } else if d == 2 {
        "2"
    } else if d == 3 {
        "3"
    } else if d == 4 {
        "4"
    } else if d == 5 {
        "5"
    } else if d == 6 {
        "6"
    } else if d == 7 {
        "7"
    } else if d == 8 {
        "8"
    } else {
        "9"
    };
    proof {
        reveal_strlit("0");
        reveal_strlit("1");
        reveal_strlit("2");
        reveal_strlit("3");
        reveal_strlit("4");
        reveal_strlit("5");
        reveal_strlit("6");
        reveal_strlit("7");
        reveal_strlit("8");
        reveal_strlit("9");
        assert(r@ =~= seq![digit_char(d as int)]);
    }
    r
}

/// Renders `n` in base 10, matching `dec_rep`.
pub fn format_u128(n: u128) -> (r: String)
    ensures
        r@ == dec_rep(n as int),
    decreases n,
{
    if n < 10 {
        digit_str(n as u64).to_owned()
    } else {
        let mut s = format_u128(n / 10);
        s.append(digit_str((n % 10) as u64));
        proof {
            assert(s@ =~= dec_rep(n as int));
        }
        s
    }
}

/// Renders a value in hundredths with two digits after the decimal
/// point, matching `hundredths_rep`.
pub fn format_hundredths(v: u128) -> (r: String)
    ensures
        r@ == hundredths_rep(v as int),
{
    let mut s = format_u128(v / 100);
    s.append(".");
    s.append(digit_str(((v / 10) % 10) as u64));
    s.append(digit_str((v % 10) as u64));
    proof {
        reveal_strlit(".");
        assert(s@ =~= hundredths_rep(v as int));
    }
    s
}

/// Computes `percent_hundredths` exactly; the result of the division
/// always fits far below `u128::MAX`.
pub fn percent_in_hundredths(part: u64, whole: u64) -> (r: u128)
    requires
        whole > 0,
    ensures
        r == percent_hundredths(part as int, whole as int),
{
    ((part as u128) * 20000 + (whole as u128)) / (2 * (whole as u128))
}

} // verus!
