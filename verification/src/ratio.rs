//! Exact fractions of unsigned integers.
//!
//! Frame rates, averages and unit conversions are quotients. They are kept
//! as a numerator and a denominator, never rounded: whoever displays one
//! divides at the last moment.

use vstd::prelude::*;

verus! {

/// The fraction `num / den`. It is well formed when `den` is positive.
#[derive(Clone, Copy, Debug, PartialEq, Eq, Structural)]
pub struct Ratio {
    pub num: u128,
    pub den: u128,
}

impl Ratio {
    /// A fraction has a value when its denominator is not zero.
    pub open spec fn wf(self) -> bool {
        self.den > 0
    }

    /// The canonical zero, `0 / 1`.
    pub open spec fn spec_zero() -> Ratio {
        Ratio { num: 0, den: 1 }
    }

    /// `self <= other` as fractions, by cross multiplication.
    pub open spec fn le(self, other: Ratio) -> bool {
        self.num * other.den <= other.num * self.den
    }

    /// `self` and `other` denote the same number.
    pub open spec fn same_value(self, other: Ratio) -> bool {
        self.num * other.den == other.num * self.den
    }

    /// The largest integer not above `scale * num / den`.
    pub open spec fn spec_scaled_floor(self, scale: u64) -> int {
        (self.num * scale) / (self.den as int)
    }

    #[verifier::when_used_as_spec(spec_zero)]
    pub fn zero() -> (r: Ratio)
        ensures
            r == Ratio::spec_zero(),
            r.wf(),
    {
        Ratio { num: 0, den: 1 }
    }

    pub fn new(num: u128, den: u128) -> (r: Ratio)
        requires
            den > 0,
        ensures
            r == (Ratio { num, den }),
            r.wf(),
    {
        Ratio { num, den }
    }

    /// Compares two fractions whose parts fit in 64 bits.
    pub fn at_most(&self, other: &Ratio) -> (below: bool)
        requires
            self.num <= u64::MAX,
            self.den <= u64::MAX,
            other.num <= u64::MAX,
            other.den <= u64::MAX,
        ensures
            below == self.le(*other),
    {
        assert(self.num * other.den <= 0xffff_ffff_ffff_ffff * 0xffff_ffff_ffff_ffff)
            by (nonlinear_arith)
            requires
                self.num <= 0xffff_ffff_ffff_ffff,
                other.den <= 0xffff_ffff_ffff_ffff,
        ;
        assert(other.num * self.den <= 0xffff_ffff_ffff_ffff * 0xffff_ffff_ffff_ffff)
            by (nonlinear_arith)
            requires
                other.num <= 0xffff_ffff_ffff_ffff,
                self.den <= 0xffff_ffff_ffff_ffff,
        ;
        self.num * other.den <= other.num * self.den
    }

    pub fn is_zero(&self) -> (z: bool)
        ensures
            z == (self.num == 0),
    {
        self.num == 0
    }

    /// `scale * num / den` rounded down, or `None` where the product
    /// `scale * num` does not fit in 128 bits. With `scale` 1000 a rate in
    /// frames per second comes out in thousandths.
    pub fn scaled_floor(&self, scale: u64) -> (r: Option<u128>)
        requires
            self.wf(),
        ensures
            r.is_some() <==> self.num * scale <= u128::MAX,
            r matches Some(q) ==> q == self.spec_scaled_floor(scale),
    {
        match self.num.checked_mul(scale as u128) {
            Some(p) => Some(p / self.den),
            None => None,
        }
    }
}

} // verus!
