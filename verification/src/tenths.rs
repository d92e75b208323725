//! Quantities that are shown with one decimal place: a percentage, a
//! temperature in degrees Celsius.

use crate::text::{digit_char, digit_str, number_text, push_number};
use vstd::prelude::*;
use vstd::string::*;

verus! {

/// `num / den` rounded to the nearest whole number, a half going upward;
/// zero where `den` is zero.
pub open spec fn rounded_quotient(num: nat, den: nat) -> nat {
    if den == 0 {
        0
    } else if 2 * (num % den) >= den {
        num / den + 1
    } else {
        num / den
    }
}

/// The notation of `raw` tenths with one decimal place: `12.3`, `0.0`,
/// `-4.5`.
pub open spec fn tenths_text(raw: int) -> Seq<char> {
    let magnitude = if raw < 0 {
        -raw
    } else {
        raw
    };
    (if raw < 0 {
        seq!['-']
    } else {
        Seq::empty()
    }) + number_text((magnitude / 10) as nat) + seq!['.', digit_char(magnitude % 10)]
}

/// Rounding to the nearest whole number is never off by more than a half:
/// twice the result lies within `den` of twice the exact quotient.
pub proof fn lemma_rounded_quotient_is_nearest(num: nat, den: nat)
    requires
        den > 0,
    ensures
        2 * num - den < 2 * den * rounded_quotient(num, den) <= 2 * num + den,
{
    let q = num / den;
    let r = num % den;
    assert(num == q * den + r && 0 <= r < den) by (nonlinear_arith)
        requires
            q == num / den,
            r == num % den,
            den > 0,
    ;
    assert(2 * den * (q + 1) == 2 * (q * den) + 2 * den) by (nonlinear_arith);
    assert(2 * den * q == 2 * (q * den)) by (nonlinear_arith);
}

/// A part of a whole, in thousandths, is at most a thousand.
pub proof fn lemma_rounded_share_is_bounded(part: nat, whole: nat)
    requires
        part <= whole,
    ensures
        rounded_quotient(1000 * part, whole) <= 1000,
        part == 0 ==> rounded_quotient(1000 * part, whole) == 0,
        part == whole && whole > 0 ==> rounded_quotient(1000 * part, whole) == 1000,
{
    if whole > 0 {
        let num = 1000 * part;
        let q = num / whole;
        let r = num % whole;
        assert(num == q * whole + r && 0 <= r < whole) by (nonlinear_arith)
            requires
                q == num / whole,
                r == num % whole,
                whole > 0,
        ;
        if q >= 1000 {
            assert(q * whole >= 1000 * whole) by (nonlinear_arith)
                requires
                    q >= 1000,
                    whole > 0,
            ;
            assert(q * whole == 1000 * whole && r == 0);
            assert(q == 1000) by (nonlinear_arith)
                requires
                    q * whole == 1000 * whole,
                    whole > 0,
            ;
        }
        if part == 0 {
            assert(q == 0 && r == 0) by (nonlinear_arith)
                requires
                    0 == q * whole + r,
                    0 <= r,
                    q >= 0,
                    whole > 0,
            ;
        }
        if part == whole {
            assert(q == 1000) by (nonlinear_arith)
                requires
                    1000 * whole == q * whole + r,
                    0 <= r < whole,
                    whole > 0,
            ;
        }
    }
}

/// Divides and rounds to the nearest whole number, a half going upward.
pub fn round_div(num: u128, den: u128) -> (q: u128)
    ensures
        q == rounded_quotient(num as nat, den as nat),
{
    if den == 0 {
        return 0;
    }
    let q = num / den;
    let r = num % den;
    if r >= den - r {
        assert(q < num || r == 0) by (nonlinear_arith)
            requires
                q == num / den,
                r == num % den,
                den > 0,
                num >= 0,
        ;
        q + 1
    } else {
        q
    }
}

/// A quantity counted in tenths of its unit.
#[derive(Debug, Clone, Copy, PartialEq, Eq, Structural)]
pub struct Tenths {
    /// The quantity, times ten.
    pub raw: i128,
}

impl Tenths {
    /// Renders the quantity with one decimal place.
    pub fn to_text(&self) -> (text: String)
        ensures
            text@ == tenths_text(self.raw as int),
    {
        proof {
            reveal_strlit("-");
            reveal_strlit(".");
        }
        let mut text = String::new();
        let magnitude: u128 = if self.raw < 0 {
            text.append("-");
            (-(self.raw + 1)) as u128 + 1
        } else {
            self.raw as u128
        };
        push_number(&mut text, magnitude / 10);
        text.append(".");
        text.append(digit_str((magnitude % 10) as u8));
        assert(text@ =~= tenths_text(self.raw as int));
        text
    }
}

} // verus!
