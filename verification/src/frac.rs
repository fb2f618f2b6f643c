//! Exact rational arithmetic used to state and compute viewport transforms.
//!
//! A transform entry such as `2 * (dw / ww) / rw` is a rational number, so the
//! library represents entries exactly as a numerator over a denominator. A
//! denominator of zero stands for the non-finite values that floating-point
//! division by zero would otherwise produce: degenerate geometry flows through
//! silently, exactly as a float pipeline would let it.

use vstd::prelude::*;

verus! {

/// Mathematical model of a fraction: an integer numerator over an integer
/// denominator. A value with `den == 0` models a non-finite result.
pub ghost struct Rat {
    pub num: int,
    pub den: int,
}

/// The rational with the value of the integer `n`.
pub open spec fn rat_int(n: int) -> Rat {
    Rat { num: n, den: 1 }
}

/// A fraction denotes a real number exactly when its denominator is non-zero.
pub open spec fn rat_is_finite(a: Rat) -> bool {
    a.den != 0
}

/// Equality by cross-multiplication: for finite fractions this is equality of
/// the real numbers `a.num / a.den` and `b.num / b.den`.
pub open spec fn rat_eqv(a: Rat, b: Rat) -> bool {
    a.num * b.den == b.num * a.den
}

/// The product of two fractions.
pub open spec fn rat_mul(a: Rat, b: Rat) -> Rat {
    Rat { num: a.num * b.num, den: a.den * b.den }
}

/// The sum of two fractions, over the product of the denominators.
pub open spec fn rat_add(a: Rat, b: Rat) -> Rat {
    Rat { num: a.num * b.den + b.num * a.den, den: a.den * b.den }
}

/// The reciprocal of a fraction. The reciprocal of zero has a zero
/// denominator, that is, it is non-finite.
pub open spec fn rat_recip(a: Rat) -> Rat {
    Rat { num: a.den, den: a.num }
}

/// An exact fraction over machine integers; its view is the `Rat` it denotes.
#[derive(Copy, Clone)]
pub struct Frac {
    pub num: i64,
    pub den: i64,
}

impl View for Frac {
    type V = Rat;

    open spec fn view(&self) -> Rat {
        Rat { num: self.num as int, den: self.den as int }
    }
}

impl Frac {
    /// The fraction with the value of the integer `n`.
    pub fn from_int(n: i64) -> (r: Frac)
        ensures
            r@ == rat_int(n as int),
    {
        Frac { num: n, den: 1 }
    }

    /// Whether this fraction denotes a real number (non-zero denominator).
    pub fn is_finite(&self) -> (r: bool)
        ensures
            r == rat_is_finite(self@),
    {
        self.den != 0
    }

    /// Whether two fractions denote the same value, by cross-multiplication.
    pub fn eqv(&self, other: &Frac) -> (r: bool)
        ensures
            r == rat_eqv(self@, other@),
    {
        proof {
            assert(i128::MIN <= (self.num as int) * (other.den as int) <= i128::MAX
                && i128::MIN <= (other.num as int) * (self.den as int) <= i128::MAX)
                by (nonlinear_arith)
                requires
                    -0x8000_0000_0000_0000 <= self.num as int <= 0x7fff_ffff_ffff_ffff,
                    -0x8000_0000_0000_0000 <= self.den as int <= 0x7fff_ffff_ffff_ffff,
                    -0x8000_0000_0000_0000 <= other.num as int <= 0x7fff_ffff_ffff_ffff,
                    -0x8000_0000_0000_0000 <= other.den as int <= 0x7fff_ffff_ffff_ffff,
            ;
        }
        let a: i128 = (self.num as i128) * (other.den as i128);
        let b: i128 = (other.num as i128) * (self.den as i128);
        a == b
    }
}

} // verus!
