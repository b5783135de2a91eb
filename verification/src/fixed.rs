//! Fixed-point numeric values and their fixed-precision rendering.
//!
//! Every numeric wire value is held as a signed count of millionths of a
//! unit (six decimal digits of precision), which keeps all arithmetic and
//! comparisons exact. Rendering reduces a value to one or two decimals,
//! rounding halves away from zero.

use vstd::prelude::*;
use vstd::string::StrSliceExecFns;
use vstd::string::StringExecFns;

verus! {

/// The largest magnitude a wire number may have, in millionths: twelve
/// integer digits and six fractional digits.
pub const MAX_ABS: i64 = 999_999_999_999_999_999;

/// The decimal digit character for `d`.
pub open spec fn spec_digit_char(d: int) -> char {
    if d == 0 {
        '0'
    } else if d == 1 {
        '1'
    } else if d == 2 {
        '2'
    } else if d == 3 {
        '3'
    } else if d == 4 {
        '4'
    } else if d == 5 {
        '5'
    } else if d == 6 {
        '6'
    } else if d == 7 {
        '7'
    } else if d == 8 {
        '8'
    } else {
        '9'
    }
}

/// The decimal digits of `n`, most significant first, no leading zeros
/// (a single zero for `n == 0`).
pub open spec fn spec_dec_digits(n: nat) -> Seq<char>
    decreases n,
{
    if n < 10 {
        seq![spec_digit_char(n as int)]
    } else {
        spec_dec_digits(n / 10) + seq![spec_digit_char((n % 10) as int)]
    }
}

/// The last `width` decimal digits of `n`, zero-padded on the left.
pub open spec fn spec_padded_digits(n: nat, width: nat) -> Seq<char>
    decreases width,
{
    if width == 0 {
        Seq::<char>::empty()
    } else {
        spec_padded_digits(n / 10, (width - 1) as nat) + seq![spec_digit_char((n % 10) as int)]
    }
}

/// A value in millionths rendered with `d` decimals (`d` is 1 or 2):
/// optional minus sign, integer digits, a point, and `d` fraction digits,
/// with halves rounded away from zero.
pub open spec fn spec_render_scaled(v: int, d: int) -> Seq<char> {
    let unit = if d == 1 { 100_000int } else { 10_000int };
    let p = if d == 1 { 10int } else { 100int };
    let n = if v < 0 { -v } else { v };
    let q = (n + unit / 2) / unit;
    let sign = if v < 0 { seq!['-'] } else { Seq::<char>::empty() };
    sign + spec_dec_digits((q / p) as nat) + seq!['.'] + spec_padded_digits((q % p) as nat, d as nat)
}

/// The one-character string of a decimal digit.
fn digit_str(d: u64) -> (r: &'static str)
    requires
        d < 10,
    ensures
        r@ == seq![spec_digit_char(d as int)],
{
    proof {
        reveal_strlit("0");
        reveal_strlit("1");
        reveal_strlit("2");
        reveal_strlit("3");
        reveal_strlit("4");
        reveal_strlit("5");
        reveal_strlit("6");
        reveal_strlit("7");
        reveal_strlit("8");
        reveal_strlit("9");
    }
    if d == 0 {
        "0"
    } else if d == 1 {
        "1"
    } else if d == 2 {
        "2"
    } else if d == 3 {
        "3"
    } else if d == 4 {
        "4"
    } else if d == 5 {
        "5"
    } else if d == 6 {
        "6"
    } else if d == 7 {
        "7"
    } else if d == 8 {
        "8"
    } else {
        "9"
    }
}

/// The decimal digits of `n`, most significant first.
pub fn dec_digits(n: u64) -> (s: String)
    ensures
        s@ == spec_dec_digits(n as nat),
    decreases n,
{
    if n < 10 {
        String::from_str(digit_str(n))
    } else {
        let mut s = dec_digits(n / 10);
        s.append(digit_str(n % 10));
        s
    }
}

/// A value in millionths rendered with one or two decimals, halves rounded
/// away from zero.
pub fn render_scaled(v: i64, d: u32) -> (s: String)
    requires
        1 <= d <= 2,
        -MAX_ABS <= v <= MAX_ABS,
    ensures
        s@ == spec_render_scaled(v as int, d as int),
{
    proof {
        reveal_strlit("-");
        reveal_strlit(".");
    }
    let unit: u64 = if d == 1 { 100_000 } else { 10_000 };
    let p: u64 = if d == 1 { 10 } else { 100 };
    let n: u64 = if v < 0 { (-v) as u64 } else { v as u64 };
    let q: u64 = (n + unit / 2) / unit;
    let mut s = String::from_str(if v < 0 { "-" } else { "" });
    proof {
        reveal_strlit("");
        assert(s@ =~= (if v < 0 { seq!['-'] } else { Seq::<char>::empty() }));
    }
    let whole = dec_digits(q / p);
    s.append(whole.as_str());
    s.append(".");
    if d == 1 {
        s.append(digit_str(q % p));
        proof {
            reveal_with_fuel(spec_padded_digits, 2);
            assert(spec_padded_digits((q % p) as nat, 1) =~= seq![
                spec_digit_char(((q % p) % 10) as int),
            ]);
            assert(s@ =~= spec_render_scaled(v as int, d as int));
        }
    } else {
        s.append(digit_str((q % p) / 10));
        s.append(digit_str((q % p) % 10));
        proof {
            reveal_with_fuel(spec_padded_digits, 3);
            assert(spec_padded_digits((q % p) as nat, 2) =~= seq![
                spec_digit_char((((q % p) / 10) % 10) as int),
            ] + seq![spec_digit_char(((q % p) % 10) as int)]);
            assert(s@ =~= spec_render_scaled(v as int, d as int));
        }
    }
    s
}

} // verus!
