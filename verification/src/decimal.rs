//! Fixed-point decimal numbers with millesimal precision.
//!
//! Coordinates, scales and chances are decimal literals in the wire formats.
//! A [`Decimal`] stores such a value exactly as a count of thousandths, so
//! that "is exactly zero" and "is exactly one" tests — which drive the
//! elision rules of the encoders — are plain integer comparisons.

use vstd::prelude::*;

use crate::text::{dec_chars, digit_char, push_u64};

verus! {

/// A decimal number, stored as `millis / 1000`.
#[derive(PartialEq, Eq, Structural, Clone, Copy, Debug)]
pub struct Decimal {
    /// The value in thousandths.
    pub millis: i64,
}

/// The fractional part of a magnitude, `f` thousandths with `0 <= f < 1000`:
/// a point and one to three digits, trailing zeros elided.  A whole value has
/// no fractional text in display style and the fixed text `.0` in JSON style,
/// where a number always carries a decimal point.
pub open spec fn frac_chars(f: int, json: bool) -> Seq<char> {
    if f == 0 {
        if json {
            ".0"@
        } else {
            Seq::empty()
        }
    } else {
        let d1 = f / 100;
        let d2 = (f / 10) % 10;
        let d3 = f % 10;
        if d3 == 0 && d2 == 0 {
            seq!['.', digit_char(d1)]
        } else if d3 == 0 {
            seq!['.', digit_char(d1), digit_char(d2)]
        } else {
            seq!['.', digit_char(d1), digit_char(d2), digit_char(d3)]
        }
    }
}

/// The text of a non-negative count of thousandths.
pub open spec fn magnitude_chars(m: int, json: bool) -> Seq<char> {
    dec_chars((m / 1000) as nat) + frac_chars(m % 1000, json)
}

/// The text of a decimal value given as thousandths, sign included.
pub open spec fn decimal_chars(millis: int, json: bool) -> Seq<char> {
    if millis < 0 {
        seq!['-'] + magnitude_chars(-millis, json)
    } else {
        magnitude_chars(millis, json)
    }
}

fn push_frac(out: &mut String, f: u64, json: bool)
    requires
        f < 1000,
    ensures
        final(out)@ == old(out)@ + frac_chars(f as int, json),
{
    if f == 0 {
        if json {
            out.append(".0");
        }
    } else {
        let d1 = f / 100;
        let d2 = (f / 10) % 10;
        let d3 = f % 10;
        out.append(".");
        out.append(crate::text::digit_str(d1));
        if d2 != 0 || d3 != 0 {
            out.append(crate::text::digit_str(d2));
        }
        if d3 != 0 {
            out.append(crate::text::digit_str(d3));
        }
        proof {
            reveal_strlit(".");
            assert(final(out)@ =~= old(out)@ + frac_chars(f as int, json));
        }
    }
}

impl Decimal {
    /// True when the value is exactly zero.
    pub open spec fn is_zero(self) -> bool {
        self.millis == 0
    }

    /// True when the value is exactly one.
    pub open spec fn is_one(self) -> bool {
        self.millis == 1000
    }

    /// Display text, as a command argument renders it: no decimal point for
    /// whole values.
    pub open spec fn display_chars(self) -> Seq<char> {
        decimal_chars(self.millis as int, false)
    }

    /// JSON text: a whole value renders with a trailing `.0`.
    pub open spec fn json_chars(self) -> Seq<char> {
        decimal_chars(self.millis as int, true)
    }

    /// True when the value is exactly zero.
    pub fn eq_zero(&self) -> (r: bool)
        ensures
            r == self.is_zero(),
    {
        self.millis == 0
    }

    /// True when the value is exactly one.
    pub fn eq_one(&self) -> (r: bool)
        ensures
            r == self.is_one(),
    {
        self.millis == 1000
    }

    /// The whole number `n`.
    pub fn whole(n: i64) -> (r: Decimal)
        requires
            -9_223_372_036_854_775 <= n <= 9_223_372_036_854_775,
        ensures
            r.millis == n * 1000,
    {
        Decimal { millis: n * 1000 }
    }

    /// The value `m / 1000`.
    pub fn from_millis(m: i64) -> (r: Decimal)
        ensures
            r.millis == m,
    {
        Decimal { millis: m }
    }

    /// Appends the display or JSON text of the value to `out`.
    pub fn push_number(&self, out: &mut String, json: bool)
        ensures
            final(out)@ == old(out)@ + decimal_chars(self.millis as int, json),
    {
        let neg = self.millis < 0;
        let wide: i128 = self.millis as i128;
        let m: u64 = if neg {
            (-wide) as u64
        } else {
            self.millis as u64
        };
        if neg {
            out.append("-");
        }
        push_u64(out, m / 1000);
        push_frac(out, m % 1000, json);
        proof {
            reveal_strlit("-");
            assert("-"@ =~= seq!['-']);
            assert(final(out)@ =~= old(out)@ + decimal_chars(self.millis as int, json));
        }
    }

    /// The display text of the value as a fresh string.
    pub fn display_string(&self) -> (r: String)
        ensures
            r@ == self.display_chars(),
    {
        let mut out = String::new();
        self.push_number(&mut out, false);
        proof {
            assert(out@ =~= self.display_chars());
        }
        out
    }
}

} // verus!
