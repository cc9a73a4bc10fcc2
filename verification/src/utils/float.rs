//! Floating-point literals, held exactly as ratios of integers.

use vstd::prelude::*;
use vstd::string::*;
use crate::utils::text::{decimal, digit_char, digit_to_char, push_char, push_decimal};

verus! {

/// The number of digits written after the decimal point.
pub const FRACTION_DIGITS: u8 = 15;

/// A floating-point literal: the ratio `numer / denom`, which the engine
/// that reads the literal rounds to a double.
#[derive(Clone, Copy, Debug, PartialEq, Eq, Structural)]
pub struct FloatLiteral {
    pub numer: i128,
    pub denom: u64,
}

/// The magnitude of an integer.
pub open spec fn magnitude(n: int) -> nat {
    if n < 0 {
        (-n) as nat
    } else {
        n as nat
    }
}

/// The first `count` decimal digits of `rem / denom` after the point, for
/// `rem < denom`.
pub open spec fn fraction_digits(rem: nat, denom: nat, count: nat) -> Seq<char>
    decreases count,
{
    if count == 0 {
        Seq::empty()
    } else {
        seq![digit_char((rem * 10 / denom) as int)] + fraction_digits(
            rem * 10 % denom,
            denom,
            (count - 1) as nat,
        )
    }
}

impl FloatLiteral {
    /// The denominator is not zero.
    pub open spec fn wf(self) -> bool {
        self.denom > 0
    }

    /// The literal as JavaScript text: a minus sign where the ratio is
    /// negative, the integer part, a point, and the first fifteen digits of
    /// the fraction.
    pub open spec fn text(self) -> Seq<char> {
        let m = magnitude(self.numer as int);
        let d = self.denom as nat;
        (if self.numer < 0 {
            seq!['-']
        } else {
            Seq::<char>::empty()
        }) + decimal(m / d) + seq!['.'] + fraction_digits(m % d, d, FRACTION_DIGITS as nat)
    }

    /// Appends the literal's text to `s`.
    pub fn push_text(&self, s: &mut String)
        requires
            self.wf(),
        ensures
            final(s)@ == old(s)@ + self.text(),
    {
        let m: u128 = if self.numer == i128::MIN {
            0x8000_0000_0000_0000_0000_0000_0000_0000u128
        } else if self.numer < 0 {
            (-self.numer) as u128
        } else {
            self.numer as u128
        };
        let d: u128 = self.denom as u128;
        if self.numer < 0 {
            push_char(s, '-');
        }
        let ghost sign = s@;
        push_decimal(s, m / d);
        push_char(s, '.');
        let ghost head = s@;
        let mut rem: u128 = m % d;
        let mut i: u8 = 0;
        while i < FRACTION_DIGITS
            invariant
                i <= FRACTION_DIGITS,
                0 < d <= u64::MAX,
                rem < d,
                s@ + fraction_digits(rem as nat, d as nat, (FRACTION_DIGITS - i) as nat) == head
                    + fraction_digits((m % d) as nat, d as nat, FRACTION_DIGITS as nat),
            decreases FRACTION_DIGITS - i,
        {
            let ghost before = s@;
            let scaled: u128 = rem * 10;
            let digit: u128 = scaled / d;
            assert(digit < 10) by (nonlinear_arith)
                requires
                    scaled == rem * 10,
                    rem < d,
                    digit == scaled / d,
                    d > 0,
            ;
            push_char(s, digit_to_char(digit as u8));
            assert(before.push(digit_char(digit as int)) + fraction_digits(
                (scaled % d) as nat,
                d as nat,
                (FRACTION_DIGITS - i - 1) as nat,
            ) =~= before + fraction_digits(rem as nat, d as nat, (FRACTION_DIGITS - i) as nat));
            rem = scaled % d;
            i = i + 1;
        }
        assert(fraction_digits(rem as nat, d as nat, 0) =~= Seq::<char>::empty());
        assert(s@ =~= s@ + Seq::<char>::empty());
        assert(head =~= sign + decimal((m / d) as nat) + seq!['.']);
        assert(s@ =~= old(s)@ + self.text());
    }
}

} // verus!
