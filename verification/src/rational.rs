//! Fractions, as containers give them for time bases and frame rates.
use vstd::prelude::*;

verus! {

/// The fraction `num / den`. Nothing is said of either part: a container that does not know a
/// frame rate gives `0 / 0` or `0 / 1`.
#[derive(Debug, Clone, Copy, PartialEq, Eq, Structural, Hash)]
pub struct Rational {
    pub num: i32,
    pub den: i32,
}

/// `units`, each of them `fraction` seconds long, last more than one second. With a
/// denominator of zero a unit is endless, in the direction of its sign.
pub open spec fn lasts_over_a_second(fraction: Rational, units: i64) -> bool {
    let product = fraction.num * units;
    if fraction.den > 0 {
        product > fraction.den
    } else if fraction.den < 0 {
        product < fraction.den
    } else {
        product > 0
    }
}

impl Rational {
    /// The fraction of these parts.
    pub fn new(num: i32, den: i32) -> (fraction: Rational)
        ensures
            fraction == (Rational { num, den }),
    {
        Rational { num, den }
    }

    /// The fraction upside down.
    pub fn invert(&self) -> (fraction: Rational)
        ensures
            fraction == (Rational { num: self.den, den: self.num }),
    {
        Rational { num: self.den, den: self.num }
    }

    /// Both parts are positive: only such a frame rate says anything about frame lengths.
    pub fn is_positive(&self) -> (positive: bool)
        ensures
            positive == (self.num > 0 && self.den > 0),
    {
        self.num > 0 && self.den > 0
    }

    /// Whether `units` of this length last more than one second.
    pub fn over_a_second(&self, units: i64) -> (over: bool)
        ensures
            over == lasts_over_a_second(*self, units),
    {
        let num: i128 = self.num as i128;
        let den: i128 = self.den as i128;
        let length: i128 = units as i128;
        assert(-0x4000_0000_0000_0000_0000_0000 <= num * length
            <= 0x4000_0000_0000_0000_0000_0000) by (nonlinear_arith)
            requires
                -0x8000_0000 <= num <= 0x7fff_ffff,
                -0x8000_0000_0000_0000 <= length <= 0x7fff_ffff_ffff_ffff,
        ;
        let product: i128 = num * length;
        if den > 0 {
            product > den
        } else if den < 0 {
            product < den
        } else {
            product > 0
        }
    }
}

/// With a positive denominator, units last over a second exactly where their number times the
/// numerator exceeds the denominator. Both signs may be turned around, and with a denominator of
/// zero any number of units in the direction of the numerator lasts for ever.
pub proof fn law_length_is_units_times_fraction(fraction: Rational, units: i64)
    ensures
        fraction.den > 0 ==> (lasts_over_a_second(fraction, units) <==> units * fraction.num
            > fraction.den),
        fraction.den < 0 ==> (lasts_over_a_second(fraction, units) <==> units * (-fraction.num)
            > -fraction.den),
        fraction.den == 0 ==> (lasts_over_a_second(fraction, units) <==> units > 0 && fraction.num
            > 0 || units < 0 && fraction.num < 0),
        units == 0 ==> !lasts_over_a_second(fraction, units),
{
    let num = fraction.num;
    assert(num * units == units * num) by (nonlinear_arith);
    assert(units * (-num) == -(units * num)) by (nonlinear_arith);
    assert(num * units > 0 <==> units > 0 && num > 0 || units < 0 && num < 0) by (nonlinear_arith);
    assert(units == 0 ==> num * units == 0) by (nonlinear_arith);
}

} // verus!
