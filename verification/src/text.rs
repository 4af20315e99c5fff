//! Verified text rendering for the attribute display format.
//!
//! An attribute renders as its current value followed, in parentheses, by
//! the percentage of the current value within its bounds, to two decimal
//! places: `"100 (100.00%)"` for a full attribute. The decimal digits are
//! produced by a verified renderer rather than by an opaque formatter.

use vstd::prelude::*;

use crate::integer_attribute::IntegerAttribute;
use vstd::arithmetic::div_mod::lemma_multiply_divide_lt;

verus! {

/// The decimal digit character of `n`, for `0 <= n <= 9`.
pub open spec fn spec_digit(n: int) -> char {
    if n == 0 {
        '0'
    } else if n == 1 {
        '1'
    } else if n == 2 {
        '2'
    } else if n == 3 {
        '3'
    } else if n == 4 {
        '4'
    } else if n == 5 {
        '5'
    } else if n == 6 {
        '6'
    } else if n == 7 {
        '7'
    } else if n == 8 {
        '8'
    } else {
        '9'
    }
}

/// The decimal rendering of a non-negative number, most significant digit
/// first, with no leading zeroes (a lone zero renders as "0").
pub open spec fn spec_udec(n: nat) -> Seq<char>
    decreases n,
{
    if n < 10 {
        seq![spec_digit(n as int)]
    } else {
        spec_udec(n / 10) + seq![spec_digit((n % 10) as int)]
    }
}

/// The decimal rendering of a signed number: a minus sign before the digits
/// of the magnitude when negative.
pub open spec fn spec_idec(x: int) -> Seq<char> {
    if x < 0 {
        seq!['-'] + spec_udec((-x) as nat)
    } else {
        spec_udec(x as nat)
    }
}

/// The two-digit rendering of `n`, for `0 <= n <= 99`, with a leading zero.
pub open spec fn spec_two_digits(n: int) -> Seq<char> {
    seq![spec_digit(n / 10), spec_digit(n % 10)]
}

/// The single-character string of the decimal digit `d`.
fn digit_str(d: u64) -> (s: &'static str)
    requires
        d < 10,
    ensures
        s@ == seq![spec_digit(d as int)],
{
    let s = if d == 0 {
        "0"
    } else if d == 1 {
        "1"
    } else if d == 2 {
        "2"
    } else if d == 3 {
        "3"
    } else if d == 4 {
        "4"
    } else if d == 5 {
        "5"
    } else if d == 6 {
        "6"
    } else if d == 7 {
        "7"
    } else if d == 8 {
        "8"
    } else {
        "9"
    };
    proof {
        reveal_strlit("0");
        reveal_strlit("1");
        reveal_strlit("2");
        reveal_strlit("3");
        reveal_strlit("4");
        reveal_strlit("5");
        reveal_strlit("6");
        reveal_strlit("7");
        reveal_strlit("8");
        reveal_strlit("9");
        assert(s@ =~= seq![spec_digit(d as int)]);
    }
    s
}

/// Render a non-negative number in decimal, most significant digit first.
pub fn u64_to_string(n: u64) -> (s: String)
    ensures
        s@ == spec_udec(n as nat),
    decreases n,
{
    if n < 10 {
        String::from_str(digit_str(n))
    } else {
        let mut s = u64_to_string(n / 10);
        s.append(digit_str(n % 10));
        s
    }
}

/// Render a signed number in decimal, with a minus sign when negative.
pub fn i32_to_string(x: i32) -> (s: String)
    ensures
        s@ == spec_idec(x as int),
{
    if x < 0 {
        let m: u64 = (-(x as i64)) as u64;
        let mut s = String::from_str("-");
        let digits = u64_to_string(m);
        s.append(digits.as_str());
        proof {
            reveal_strlit("-");
            assert(s@ =~= spec_idec(x as int));
        }
        s
    } else {
        u64_to_string(x as u64)
    }
}

impl IntegerAttribute {
    /// The percentage of the current value within the bounds, in hundredths
    /// of a percent: `10000 * (current - min) / (max - min)` rounded to the
    /// nearest whole hundredth of a percent (halves round up), or 0 when
    /// the bounds coincide.
    pub open spec fn spec_percentage_hundredths(self) -> int {
        if self.max == self.min {
            0
        } else {
            (20000 * (self.current - self.min) + (self.max - self.min)) / (2 * (self.max
                - self.min))
        }
    }

    /// The percentage of the current value between the minimum and maximum
    /// values, in hundredths of a percent; the result lies between 0 and
    /// 10000. When the bounds coincide the percentage is 0, avoiding a
    /// division by zero.
    pub fn current_percentage_hundredths(&self) -> (r: u64)
        requires
            self.wf(),
        ensures
            r == self.spec_percentage_hundredths(),
            r <= 10000,
    {
        let num: u64 = ((self.current as i64) - (self.min as i64)) as u64;
        let den: u64 = ((self.max as i64) - (self.min as i64)) as u64;
        if den == 0 {
            0
        } else {
            let r = (20000 * num + den) / (2 * den);
            proof {
                assert(20000 * num + den < (2 * den) * 10001);
                lemma_multiply_divide_lt(
                    (20000 * num + den) as int,
                    (2 * den) as int,
                    10001,
                );
            }
            r
        }
    }

    /// The display rendering of the attribute: the current value, then the
    /// in-bounds percentage to two decimal places in parentheses.
    pub open spec fn spec_display(self) -> Seq<char> {
        spec_idec(self.current as int) + " ("@ + spec_udec(
            (self.spec_percentage_hundredths() / 100) as nat,
        ) + "."@ + spec_two_digits(self.spec_percentage_hundredths() % 100) + "%)"@
    }

    /// Render the attribute for display, e.g. `"100 (100.00%)"` for a full
    /// attribute with bounds 0 and 100.
    pub fn display_string(&self) -> (s: String)
        requires
            self.wf(),
        ensures
            s@ == self.spec_display(),
    {
        let pct = self.current_percentage_hundredths();
        let frac = pct % 100;
        let mut s = i32_to_string(self.current);
        s.append(" (");
        let whole = u64_to_string(pct / 100);
        s.append(whole.as_str());
        s.append(".");
        s.append(digit_str(frac / 10));
        s.append(digit_str(frac % 10));
        s.append("%)");
        proof {
            assert(s@ =~= self.spec_display());
        }
        s
    }
}

} // verus!
