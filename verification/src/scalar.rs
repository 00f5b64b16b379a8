//! Single-precision IEEE-754 numbers as bit patterns, with the order that the
//! standard gives them.

use vstd::arithmetic::div_mod::lemma_fundamental_div_mod;
use vstd::arithmetic::div_mod::lemma_fundamental_div_mod_converse;
use vstd::arithmetic::power2::lemma2_to64;
use vstd::arithmetic::power2::lemma_pow2_adds;
use vstd::arithmetic::power2::lemma_pow2_pos;
use vstd::arithmetic::power2::lemma_pow2_strictly_increases;
use vstd::arithmetic::power2::lemma_pow2_unfold;
use vstd::arithmetic::power2::pow2;
use vstd::prelude::*;

verus! {

/// The sign bit of a pattern.
pub const SIGN_BIT: u32 = 0x8000_0000;

/// The magnitude bits of positive infinity; every larger magnitude is a NaN.
pub const INFINITY_MAGNITUDE: u32 = 0x7f80_0000;

/// The weight of the lowest exponent bit: two to the power 23.
pub const EXPONENT_UNIT: u32 = 0x80_0000;

/// A single-precision IEEE-754 number, held as its 32-bit pattern.
///
/// Two scalars are `==` when their patterns are equal, so `0.0` and `-0.0`
/// are different scalars although neither is below the other.
#[derive(Clone, Copy, Debug, PartialEq, Eq, Hash, Structural)]
pub struct Scalar {
    pub bits: u32,
}

impl Scalar {
    /// Whether the sign bit is set.
    pub open spec fn is_negative(self) -> bool {
        self.bits >= SIGN_BIT
    }

    /// The pattern without its sign bit.
    pub open spec fn magnitude(self) -> int {
        if self.bits >= SIGN_BIT {
            self.bits - SIGN_BIT
        } else {
            self.bits as int
        }
    }

    /// Whether the pattern is one of the NaNs.
    pub open spec fn spec_is_nan(self) -> bool {
        self.magnitude() > INFINITY_MAGNITUDE
    }

    /// Whether the pattern is an infinity.
    pub open spec fn is_infinite(self) -> bool {
        self.magnitude() == INFINITY_MAGNITUDE
    }

    /// Whether the pattern is a number and no infinity.
    pub open spec fn is_finite(self) -> bool {
        self.magnitude() < INFINITY_MAGNITUDE
    }

    /// The eight exponent bits, as a number from 0 to 255.
    pub open spec fn exponent(self) -> int {
        self.magnitude() / (EXPONENT_UNIT as int)
    }

    /// The twenty-three fraction bits.
    pub open spec fn fraction(self) -> int {
        self.magnitude() % (EXPONENT_UNIT as int)
    }

    /// The size of a finite number, counted in the smallest step that the
    /// format has, two to the power -149: the number is its sign times this
    /// many steps.
    pub open spec fn units(self) -> nat {
        if self.exponent() == 0 {
            self.fraction() as nat
        } else {
            ((EXPONENT_UNIT + self.fraction()) * pow2((self.exponent() - 1) as nat)) as nat
        }
    }

    /// The finite number itself, counted in the same steps: its size with
    /// its sign.
    pub open spec fn signed_units(self) -> int {
        if self.is_negative() {
            -(self.units() as int)
        } else {
            self.units() as int
        }
    }

    /// Whether `self` is what IEEE-754 gives for `x` times 128: the sign of
    /// `x`, and 128 times its size where that is finite, an infinity where
    /// it is too large or `x` is one, a NaN where `x` is one.
    pub open spec fn is_times_128_of(self, x: Scalar) -> bool {
        &&& self.is_negative() == x.is_negative()
        &&& x.spec_is_nan() ==> self.spec_is_nan()
        &&& x.is_infinite() ==> self == x
        &&& x.is_finite() && x.exponent() < 248 ==> self.is_finite() && self.units() == 128
            * x.units()
        &&& x.is_finite() && x.exponent() >= 248 ==> self.is_infinite()
    }

    /// The place of a number that is no NaN on the line of integers: numbers
    /// compare as their ranks do. Both zeros have rank 0.
    pub open spec fn rank(self) -> int {
        if self.is_negative() {
            -self.magnitude()
        } else {
            self.magnitude()
        }
    }

    /// `self < other` as IEEE-754 defines it: false when either is a NaN.
    pub open spec fn spec_lt(self, other: Scalar) -> bool {
        !self.spec_is_nan() && !other.spec_is_nan() && self.rank() < other.rank()
    }

    /// `self > other` as IEEE-754 defines it: false when either is a NaN.
    pub open spec fn spec_gt(self, other: Scalar) -> bool {
        other.spec_lt(self)
    }

    /// The number with the opposite sign.
    pub open spec fn spec_neg(self) -> Scalar {
        if self.bits >= SIGN_BIT {
            Scalar { bits: (self.bits - SIGN_BIT) as u32 }
        } else {
            Scalar { bits: (self.bits + SIGN_BIT) as u32 }
        }
    }

    /// The number without its sign.
    pub open spec fn spec_abs(self) -> Scalar {
        Scalar { bits: self.magnitude() as u32 }
    }

    /// `self` brought into `[low, high]`: `low` when `self` is below it,
    /// else `high` when `self` is above it, else `self` (a NaN stays).
    pub open spec fn spec_clamp(self, low: Scalar, high: Scalar) -> Scalar {
        if self.spec_lt(low) {
            low
        } else if self.spec_gt(high) {
            high
        } else {
            self
        }
    }

    /// The scalar with the given pattern.
    pub fn from_bits(bits: u32) -> (r: Scalar)
        ensures
            r.bits == bits,
    {
        Scalar { bits }
    }

    /// The pattern of this scalar.
    pub fn to_bits(self) -> (r: u32)
        ensures
            r == self.bits,
    {
        self.bits
    }

    /// Positive zero.
    pub fn zero() -> (r: Scalar)
        ensures
            r.bits == 0,
    {
        Scalar { bits: 0 }
    }

    /// The number one.
    pub fn one() -> (r: Scalar)
        ensures
            r.bits == 0x3f80_0000,
    {
        Scalar { bits: 0x3f80_0000 }
    }

    fn magnitude_bits(self) -> (r: u32)
        ensures
            r == self.magnitude(),
    {
        if self.bits >= SIGN_BIT {
            self.bits - SIGN_BIT
        } else {
            self.bits
        }
    }

    #[verifier::when_used_as_spec(spec_is_nan)]
    pub fn is_nan(self) -> (r: bool)
        ensures
            r == self.spec_is_nan(),
    {
        self.magnitude_bits() > INFINITY_MAGNITUDE
    }

    /// Whether `self < other`.
    #[verifier::when_used_as_spec(spec_lt)]
    pub fn lt(self, other: Scalar) -> (r: bool)
        ensures
            r == self.spec_lt(other),
    {
        if self.is_nan() || other.is_nan() {
            return false;
        }
        let a: u32 = self.magnitude_bits();
        let b: u32 = other.magnitude_bits();
        if self.bits >= SIGN_BIT {
            if other.bits >= SIGN_BIT {
                b < a
            } else {
                a > 0 || b > 0
            }
        } else {
            if other.bits >= SIGN_BIT {
                false
            } else {
                a < b
            }
        }
    }

    /// Whether `self > other`.
    #[verifier::when_used_as_spec(spec_gt)]
    pub fn gt(self, other: Scalar) -> (r: bool)
        ensures
            r == self.spec_gt(other),
    {
        other.lt(self)
    }

    /// The number with the opposite sign; a NaN stays a NaN.
    #[verifier::when_used_as_spec(spec_neg)]
    pub fn neg(self) -> (r: Scalar)
        ensures
            r == self.spec_neg(),
            r.magnitude() == self.magnitude(),
            r.is_negative() != self.is_negative(),
    {
        if self.bits >= SIGN_BIT {
            Scalar { bits: self.bits - SIGN_BIT }
        } else {
            Scalar { bits: self.bits + SIGN_BIT }
        }
    }

    /// The number without its sign; a NaN stays a NaN.
    #[verifier::when_used_as_spec(spec_abs)]
    pub fn abs(self) -> (r: Scalar)
        ensures
            r == self.spec_abs(),
            r.magnitude() == self.magnitude(),
            !r.is_negative(),
    {
        Scalar { bits: self.magnitude_bits() }
    }

    /// The number times 128, as IEEE-754 multiplies: exact where the product
    /// is finite, an infinity where it is too large, a NaN for a NaN.
    pub fn times_128(self) -> (r: Scalar)
        ensures
            r.is_times_128_of(self),
    {
        let magnitude: u32 = self.magnitude_bits();
        let sign: u32 = self.bits - magnitude;
        let exponent: u32 = magnitude / EXPONENT_UNIT;
        let fraction: u32 = magnitude % EXPONENT_UNIT;
        proof {
            lemma2_to64();
        }
        if magnitude > INFINITY_MAGNITUDE {
            if fraction < 0x40_0000 {
                Scalar { bits: self.bits + 0x40_0000 }
            } else {
                self
            }
        } else if magnitude == INFINITY_MAGNITUDE {
            self
        } else if exponent >= 248 {
            Scalar { bits: sign + INFINITY_MAGNITUDE }
        } else if exponent >= 1 {
            let r = Scalar { bits: self.bits + 7 * EXPONENT_UNIT };
            proof {
                let e = self.exponent();
                assert(r.magnitude() == magnitude + 7 * EXPONENT_UNIT);
                assert(r.exponent() == e + 7);
                assert(r.fraction() == self.fraction());
                lemma_pow2_adds(7, (e - 1) as nat);
                lemma_scale(EXPONENT_UNIT + self.fraction(), pow2((e - 1) as nat) as int);
            }
            r
        } else {
            let product: u32 = fraction * 128;
            if product < 0x100_0000 {
                let r = Scalar { bits: sign + product };
                proof {
                    assert(r.magnitude() == product);
                    if product >= EXPONENT_UNIT {
                        assert(r.exponent() == 1);
                        assert(r.fraction() == product - EXPONENT_UNIT);
                        let one = pow2(0) as int;
                        assert(product * one == product) by (nonlinear_arith)
                            requires
                                one == 1,
                        ;
                    } else {
                        assert(r.exponent() == 0);
                    }
                }
                r
            } else {
                let shift: u32 = if product < 0x200_0000 {
                    1
                } else if product < 0x400_0000 {
                    2
                } else if product < 0x800_0000 {
                    3
                } else if product < 0x1000_0000 {
                    4
                } else if product < 0x2000_0000 {
                    5
                } else {
                    6
                };
                let step: u32 = if shift == 1 {
                    2
                } else if shift == 2 {
                    4
                } else if shift == 3 {
                    8
                } else if shift == 4 {
                    16
                } else if shift == 5 {
                    32
                } else {
                    64
                };
                let base: u32 = if shift == 1 {
                    0x80_0000
                } else if shift == 2 {
                    0x100_0000
                } else if shift == 3 {
                    0x180_0000
                } else if shift == 4 {
                    0x200_0000
                } else if shift == 5 {
                    0x280_0000
                } else {
                    0x300_0000
                };
                let leading: u32 = product / step;
                let r = Scalar { bits: sign + base + leading };
                proof {
                    assert(pow2(shift as nat) == step);
                    assert(leading * step == product);
                    assert(r.magnitude() == base + leading);
                    assert(base == shift * 0x80_0000);
                    lemma_fundamental_div_mod_converse(
                        r.magnitude(),
                        0x80_0000,
                        shift + 1,
                        leading - 0x80_0000,
                    );
                    assert(r.exponent() == shift + 1);
                    assert(r.fraction() == leading - 0x80_0000);
                    let weight = pow2(shift as nat) as int;
                    assert(leading * weight == product) by (nonlinear_arith)
                        requires
                            weight == step,
                            leading * step == product,
                    ;
                }
                r
            }
        }
    }

    /// `self` brought into `[low, high]`.
    #[verifier::when_used_as_spec(spec_clamp)]
    pub fn clamp(self, low: Scalar, high: Scalar) -> (r: Scalar)
        ensures
            r == self.spec_clamp(low, high),
    {
        if self.lt(low) {
            low
        } else if self.gt(high) {
            high
        } else {
            self
        }
    }
}

proof fn lemma_scale(a: int, b: int)
    ensures
        a * (128 * b) == 128 * (a * b),
{
    assert(a * (128 * b) == 128 * (a * b)) by (nonlinear_arith);
}

/// No number is below itself, and of two numbers at most one is below the
/// other.
pub proof fn lemma_lt_is_strict(a: Scalar, b: Scalar)
    ensures
        !a.spec_lt(a),
        a.spec_lt(b) ==> !b.spec_lt(a),
{
}

/// Being below is transitive.
pub proof fn lemma_lt_is_transitive(a: Scalar, b: Scalar, c: Scalar)
    requires
        a.spec_lt(b),
        b.spec_lt(c),
    ensures
        a.spec_lt(c),
{
}

/// Of two different numbers that are no NaNs and not both zero, one is
/// below the other.
pub proof fn lemma_lt_is_total(a: Scalar, b: Scalar)
    requires
        !a.spec_is_nan(),
        !b.spec_is_nan(),
    ensures
        a.spec_lt(b) || b.spec_lt(a) || a.rank() == b.rank(),
        a.rank() == b.rank() ==> a == b || a.magnitude() == 0,
{
}

/// Negation mirrors the order.
pub proof fn lemma_neg_mirrors(a: Scalar, b: Scalar)
    ensures
        a.spec_neg().spec_neg() == a,
        a.spec_neg().rank() == -a.rank(),
        a.spec_lt(b) <==> b.spec_neg().spec_lt(a.spec_neg()),
{
}

/// A clamped number lies within the bounds, whenever the bounds are in order
/// and nothing is a NaN.
pub proof fn lemma_clamp_within(x: Scalar, low: Scalar, high: Scalar)
    requires
        !x.spec_is_nan(),
        !low.spec_is_nan(),
        !high.spec_is_nan(),
        !high.spec_lt(low),
    ensures
        !x.spec_clamp(low, high).spec_lt(low),
        !x.spec_clamp(low, high).spec_gt(high),
        x.spec_gt(high) ==> x.spec_clamp(low, high) == high,
        x.spec_lt(low) ==> x.spec_clamp(low, high) == low,
{
}

/// Clamping a second time changes nothing, whenever the bounds are in order.
pub proof fn lemma_clamp_idempotent(x: Scalar, low: Scalar, high: Scalar)
    requires
        !high.spec_lt(low),
    ensures
        x.spec_clamp(low, high).spec_clamp(low, high) == x.spec_clamp(low, high),
{
}

proof fn lemma_sizes_rise(a: Scalar, b: Scalar)
    requires
        a.is_finite(),
        b.is_finite(),
        a.magnitude() < b.magnitude(),
    ensures
        a.units() < b.units(),
{
    let unit = EXPONENT_UNIT as int;
    let (ea, fa) = (a.exponent(), a.fraction());
    let (eb, fb) = (b.exponent(), b.fraction());
    assert(a.magnitude() == ea * unit + fa && 0 <= fa < unit) by {
        lemma_fundamental_div_mod(a.magnitude(), unit);
    }
    assert(b.magnitude() == eb * unit + fb && 0 <= fb < unit) by {
        lemma_fundamental_div_mod(b.magnitude(), unit);
    }
    assert(0 <= ea <= eb) by (nonlinear_arith)
        requires
            a.magnitude() == ea * unit + fa,
            b.magnitude() == eb * unit + fb,
            0 <= a.magnitude() < b.magnitude(),
            0 <= fa < unit,
            0 <= fb < unit,
            unit > 0,
    ;
    if ea == eb {
        if ea > 0 {
            let p = pow2((ea - 1) as nat) as int;
            lemma_pow2_pos((ea - 1) as nat);
            assert((unit + fa) * p < (unit + fb) * p) by (nonlinear_arith)
                requires
                    fa < fb,
                    p > 0,
            ;
        }
    } else {
        let q = pow2((eb - 1) as nat) as int;
        lemma_pow2_pos((eb - 1) as nat);
        assert(unit * q <= (unit + fb) * q) by (nonlinear_arith)
            requires
                fb >= 0,
                q > 0,
        ;
        if ea == 0 {
            assert(unit <= unit * q) by (nonlinear_arith)
                requires
                    q >= 1,
                    unit > 0,
            ;
        } else {
            let p = pow2((ea - 1) as nat) as int;
            lemma_pow2_pos((ea - 1) as nat);
            lemma_pow2_unfold(ea as nat);
            if ea < eb - 1 {
                lemma_pow2_strictly_increases(ea as nat, (eb - 1) as nat);
            }
            assert(2 * p <= q);
            assert((unit + fa) * p < unit * q) by (nonlinear_arith)
                requires
                    fa < unit,
                    2 * p <= q,
                    p > 0,
                    unit > 0,
            ;
        }
    }
}

/// A finite number is known by its sign and its size: two patterns with the
/// same sign and the same size are one pattern. So there is one pattern
/// that is a given number times 128.
pub proof fn lemma_size_names_the_number(a: Scalar, b: Scalar)
    requires
        a.is_finite(),
        b.is_finite(),
        a.is_negative() == b.is_negative(),
        a.units() == b.units(),
    ensures
        a == b,
{
    if a.magnitude() < b.magnitude() {
        lemma_sizes_rise(a, b);
    } else if b.magnitude() < a.magnitude() {
        lemma_sizes_rise(b, a);
    }
}

/// The order of the patterns is the order of the numbers they stand for:
/// of two finite numbers, one is below the other exactly when its sign
/// times its size is the smaller.
pub proof fn lemma_order_is_that_of_sizes(a: Scalar, b: Scalar)
    requires
        a.is_finite(),
        b.is_finite(),
    ensures
        a.spec_lt(b) <==> a.signed_units() < b.signed_units(),
{
    if a.magnitude() < b.magnitude() {
        lemma_sizes_rise(a, b);
    } else if b.magnitude() < a.magnitude() {
        lemma_sizes_rise(b, a);
    }
    lemma_zero_size(a);
    lemma_zero_size(b);
}

proof fn lemma_zero_size(a: Scalar)
    requires
        a.is_finite(),
    ensures
        a.units() == 0 <==> a.magnitude() == 0,
{
    let unit = EXPONENT_UNIT as int;
    lemma_fundamental_div_mod(a.magnitude(), unit);
    if a.exponent() > 0 {
        let p = pow2((a.exponent() - 1) as nat) as int;
        lemma_pow2_pos((a.exponent() - 1) as nat);
        assert((unit + a.fraction()) * p > 0) by (nonlinear_arith)
            requires
                a.fraction() >= 0,
                unit > 0,
                p > 0,
        ;
        assert(a.magnitude() >= unit) by (nonlinear_arith)
            requires
                a.magnitude() == unit * a.exponent() + a.fraction(),
                a.exponent() >= 1,
                a.fraction() >= 0,
                unit > 0,
        ;
    }
}

} // verus!
