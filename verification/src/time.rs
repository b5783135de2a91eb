//! Absolute UTC instants, held as calendar fields.
//!
//! The wire format carries instants as ISO-8601 UTC strings of the shape
//! `YYYY-MM-DDTHH:MM:SS[.fffffffff]Z`: an optional fraction of one to nine
//! digits, and the literal `Z` zone. The fraction is kept to millisecond
//! precision; digits beyond the third are discarded. Anything else — an
//! offset zone, a missing separator, an out-of-range field — is a schema
//! mismatch. Conversion to a local time zone is display-only and is left to
//! the callers that render.

use vstd::prelude::*;
use vstd::string::StrSliceExecFns;
use crate::strutil::{spec_is_digit, spec_digit_val, spec_all_digits, spec_num, spec_digit_run,
    lemma_digit_run_len, read_digit, expect_char};

verus! {

/// An absolute UTC instant, millisecond precision.
#[derive(Clone, Copy, Debug, PartialEq, Eq, Structural)]
pub struct TimeLike {
    pub year: u16,
    pub month: u8,
    pub day: u8,
    pub hour: u8,
    pub minute: u8,
    pub second: u8,
    pub milli: u16,
}

/// Whether a year is a leap year in the proleptic Gregorian calendar.
pub open spec fn spec_is_leap(y: int) -> bool {
    y % 4 == 0 && (y % 100 != 0 || y % 400 == 0)
}

/// Days in a month of a given year.
pub open spec fn spec_days_in_month(y: int, m: int) -> int {
    if m == 2 {
        if spec_is_leap(y) {
            29
        } else {
            28
        }
    } else if m == 4 || m == 6 || m == 9 || m == 11 {
        30
    } else {
        31
    }
}

impl TimeLike {
    /// All fields in calendar range.
    pub open spec fn wf(&self) -> bool {
        &&& self.year <= 9999
        &&& 1 <= self.month <= 12
        &&& 1 <= self.day <= spec_days_in_month(self.year as int, self.month as int)
        &&& self.hour < 24
        &&& self.minute < 60
        &&& self.second < 60
        &&& self.milli <= 999
    }
}

/// The millisecond count carried by a fraction of `k` digits starting at
/// position 20: the first three digits, right-padded with zeros.
pub open spec fn spec_frac_milli(s: Seq<char>, k: int) -> int {
    if k >= 3 {
        spec_num(s, 20, 23)
    } else if k == 2 {
        spec_num(s, 20, 22) * 10
    } else {
        spec_num(s, 20, 21) * 100
    }
}

/// Whether the fixed-position part `YYYY-MM-DDTHH:MM:SS` is well shaped.
pub open spec fn spec_head_shaped(s: Seq<char>) -> bool {
    &&& s.len() >= 20
    &&& spec_all_digits(s, 0, 4)
    &&& s[4] == '-'
    &&& spec_all_digits(s, 5, 7)
    &&& s[7] == '-'
    &&& spec_all_digits(s, 8, 10)
    &&& s[10] == 'T'
    &&& spec_all_digits(s, 11, 13)
    &&& s[13] == ':'
    &&& spec_all_digits(s, 14, 16)
    &&& s[16] == ':'
    &&& spec_all_digits(s, 17, 19)
}

/// The instant a wire timestamp denotes, if it is well shaped and in range.
pub open spec fn spec_time_from_wire(s: Seq<char>) -> Option<TimeLike> {
    if !spec_head_shaped(s) {
        None
    } else {
        let milli = if s[19] == 'Z' && s.len() == 20 {
            Some(0int)
        } else if s[19] == '.' {
            let k = spec_digit_run(s, 20);
            if 1 <= k <= 9 && s.len() == 21 + k && s[20 + k] == 'Z' {
                Some(spec_frac_milli(s, k))
            } else {
                None
            }
        } else {
            None
        };
        match milli {
            Option::None => None,
            Option::Some(ms) => {
                let t = TimeLike {
                    year: spec_num(s, 0, 4) as u16,
                    month: spec_num(s, 5, 7) as u8,
                    day: spec_num(s, 8, 10) as u8,
                    hour: spec_num(s, 11, 13) as u8,
                    minute: spec_num(s, 14, 16) as u8,
                    second: spec_num(s, 17, 19) as u8,
                    milli: ms as u16,
                };
                if t.wf() {
                    Some(t)
                } else {
                    None
                }
            },
        }
    }
}

/// Reads the two-digit number at `[i, i + 2)`.
fn read_two(s: &str, i: usize) -> (r: Option<u16>)
    requires
        i + 2 <= s@.len(),
        i + 2 <= usize::MAX,
    ensures
        match r {
            Option::Some(n) => spec_all_digits(s@, i as int, i + 2) && n == spec_num(
                s@,
                i as int,
                i + 2,
            ) && n <= 99,
            Option::None => !spec_all_digits(s@, i as int, i + 2),
        },
{
    let d0 = read_digit(s, i);
    let d1 = read_digit(s, i + 1);
    match (d0, d1) {
        (Some(a), Some(b)) => {
            proof {
                reveal_with_fuel(spec_num, 3);
            }
            Some(a * 10 + b)
        },
        _ => None,
    }
}

impl TimeLike {
    /// The sentinel instant used where the wire carries no time:
    /// the start of 1970.
    pub open spec fn spec_default() -> TimeLike {
        TimeLike { year: 1970, month: 1, day: 1, hour: 0, minute: 0, second: 0, milli: 0 }
    }

    /// Parses a wire timestamp; `None` exactly when the string is not a
    /// well-shaped, in-range UTC instant.
    pub fn from_wire(s: &str) -> (r: Option<TimeLike>)
        ensures
            r == spec_time_from_wire(s@),
            r matches Option::Some(t) ==> t.wf(),
    {
        let len = s.unicode_len();
        if len < 20 {
            return None;
        }
        let y0 = read_digit(s, 0);
        let y1 = read_digit(s, 1);
        let y2 = read_digit(s, 2);
        let y3 = read_digit(s, 3);
        let (ya, yb, yc, yd) = match (y0, y1, y2, y3) {
            (Some(a), Some(b), Some(c), Some(d)) => (a, b, c, d),
            _ => {
                return None;
            },
        };
        if !expect_char(s, 4, '-') {
            return None;
        }
        let month = match read_two(s, 5) {
            Some(n) => n,
            Option::None => {
                return None;
            },
        };
        if !expect_char(s, 7, '-') {
            return None;
        }
        let day = match read_two(s, 8) {
            Some(n) => n,
            Option::None => {
                return None;
            },
        };
        if !expect_char(s, 10, 'T') {
            return None;
        }
        let hour = match read_two(s, 11) {
            Some(n) => n,
            Option::None => {
                return None;
            },
        };
        if !expect_char(s, 13, ':') {
            return None;
        }
        let minute = match read_two(s, 14) {
            Some(n) => n,
            Option::None => {
                return None;
            },
        };
        if !expect_char(s, 16, ':') {
            return None;
        }
        let second = match read_two(s, 17) {
            Some(n) => n,
            Option::None => {
                return None;
            },
        };
        let year = ya * 1000 + yb * 100 + yc * 10 + yd;
        proof {
            reveal_with_fuel(spec_num, 5);
            assert(year == spec_num(s@, 0, 4));
        }
        let milli: u16;
        if expect_char(s, 19, 'Z') && len == 20 {
            milli = 0;
        } else if expect_char(s, 19, '.') {
            // measure the digit run of the fraction
            let mut i: usize = 20;
            while i < len && read_digit(s, i).is_some()
                invariant
                    20 <= i <= len,
                    len == s@.len(),
                    spec_all_digits(s@, 20, i as int),
                decreases len - i,
            {
                i += 1;
            }
            proof {
                lemma_digit_run_len(s@, 20, i as int);
            }
            let k = i - 20;
            if !(1 <= k && k <= 9 && len == 21 + k && expect_char(s, 20 + k, 'Z')) {
                return None;
            }
            if k >= 3 {
                let m0 = match read_two(s, 20) {
                    Some(n) => n,
                    Option::None => {
                        return None;
                    },
                };
                let m2 = match read_digit(s, 22) {
                    Some(d) => d,
                    Option::None => {
                        return None;
                    },
                };
                milli = m0 * 10 + m2;
                proof {
                    reveal_with_fuel(spec_num, 4);
                    assert(milli == spec_frac_milli(s@, k as int));
                }
            } else if k == 2 {
                let m0 = match read_two(s, 20) {
                    Some(n) => n,
                    Option::None => {
                        return None;
                    },
                };
                milli = m0 * 10;
            } else {
                let m0 = match read_digit(s, 20) {
                    Some(d) => d,
                    Option::None => {
                        return None;
                    },
                };
                milli = m0 * 100;
                proof {
                    reveal_with_fuel(spec_num, 2);
                }
            }
        } else {
            return None;
        }
        let t = TimeLike {
            year,
            month: month as u8,
            day: day as u8,
            hour: hour as u8,
            minute: minute as u8,
            second: second as u8,
            milli,
        };
        let leap = year % 4 == 0 && (year % 100 != 0 || year % 400 == 0);
        let dim: u16 = if month == 2 {
            if leap {
                29
            } else {
                28
            }
        } else if month == 4 || month == 6 || month == 9 || month == 11 {
            30
        } else {
            31
        };
        if !(1 <= month && month <= 12 && 1 <= day && day <= dim && hour < 24 && minute < 60
            && second < 60) {
            return None;
        }
        Some(t)
    }
}

impl Default for TimeLike {
    /// The sentinel instant.
    fn default() -> (r: TimeLike)
        ensures
            r == TimeLike::spec_default(),
    {
        TimeLike { year: 1970, month: 1, day: 1, hour: 0, minute: 0, second: 0, milli: 0 }
    }
}

} // verus!
