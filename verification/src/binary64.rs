//! IEEE-754 binary64 numbers, carried by their bit patterns.
//!
//! A pattern is read as sign (bit 63), biased exponent (bits 62..52) and
//! fraction (bits 51..0). Every finite number is an integer multiple of
//! 2^-1074, so the value of a pattern is modelled by that integer: its
//! *scaled value*. Order on scaled values is order on the numbers.

use vstd::arithmetic::power2::*;
use vstd::prelude::*;

verus! {

/// The sign bit, 2^63.
pub const SIGN_BIT: u64 = 0x8000_0000_0000_0000;

/// The implicit leading bit of a normal significand, 2^52.
pub const HIDDEN_BIT: u64 = 0x0010_0000_0000_0000;

/// The pattern of positive infinity; larger magnitudes are NaNs.
pub const INFINITY_BITS: u64 = 0x7FF0_0000_0000_0000;

/// The pattern of 1.0.
pub const ONE_BITS: u64 = 0x3FF0_0000_0000_0000;

/// A binary64 number given by its 64 bits.
#[derive(Clone, Copy, Debug, PartialEq, Eq, Structural)]
pub struct Binary64 {
    pub bits: u64,
}

impl Binary64 {
    /// The sign bit is set (also true of -0.0 and of NaNs with the bit set).
    pub open spec fn negative(self) -> bool {
        self.bits >= SIGN_BIT
    }

    /// The pattern with the sign bit cleared.
    pub open spec fn magnitude(self) -> nat {
        if self.bits >= SIGN_BIT {
            (self.bits - SIGN_BIT) as nat
        } else {
            self.bits as nat
        }
    }

    /// Not a number: exponent field all ones, fraction not zero.
    pub open spec fn nan(self) -> bool {
        self.magnitude() > INFINITY_BITS
    }

    /// Zero, subnormal or normal: neither infinite nor NaN.
    pub open spec fn finite(self) -> bool {
        self.magnitude() < INFINITY_BITS
    }

    /// The biased exponent field, 0..=2047.
    pub open spec fn exponent(self) -> nat {
        self.magnitude() / (HIDDEN_BIT as nat)
    }

    /// The fraction field, below 2^52.
    pub open spec fn fraction(self) -> nat {
        self.magnitude() % (HIDDEN_BIT as nat)
    }

    /// The absolute value in units of 2^-1074.
    ///
    /// Exponent field 0 is the subnormal range, where the value is the
    /// fraction itself; above it the hidden bit joins the fraction and each
    /// exponent step doubles. The infinities get the number that the same
    /// formula gives them, 2^2098, which lies above every finite value.
    pub open spec fn scaled_magnitude(self) -> nat {
        if self.exponent() == 0 {
            self.fraction()
        } else {
            (HIDDEN_BIT + self.fraction()) as nat * pow2((self.exponent() - 1) as nat)
        }
    }

    /// The value in units of 2^-1074; meaningful where the pattern is no NaN.
    pub open spec fn scaled(self) -> int {
        if self.negative() {
            -(self.scaled_magnitude() as int)
        } else {
            self.scaled_magnitude() as int
        }
    }

    /// IEEE `>=`: false when either side is a NaN, else order of the values.
    pub open spec fn spec_ge(self, other: Binary64) -> bool {
        !self.nan() && !other.nan() && self.scaled() >= other.scaled()
    }

    /// IEEE `>`: false when either side is a NaN, else order of the values.
    pub open spec fn spec_gt(self, other: Binary64) -> bool {
        !self.nan() && !other.nan() && self.scaled() > other.scaled()
    }

    /// The number lies in the closed interval from 0 to 1.
    pub open spec fn in_unit_interval(self) -> bool {
        !self.nan() && 0 <= self.scaled() <= pow2(1074)
    }

    /// What `clamp_unit` returns: a NaN as it is, a number below 0 as 0.0, one
    /// above 1 as 1.0, and any other unchanged (-0.0 stays -0.0).
    pub open spec fn spec_clamp_unit(self) -> Binary64 {
        if self.nan() {
            self
        } else if self.scaled() < 0 {
            Binary64 { bits: 0 }
        } else if self.scaled() > pow2(1074) {
            Binary64 { bits: ONE_BITS }
        } else {
            self
        }
    }

    /// One unit in the last place of the number, in units of 2^-1074.
    pub open spec fn ulp(self) -> nat {
        if self.exponent() == 0 {
            1
        } else {
            pow2((self.exponent() - 1) as nat)
        }
    }

    /// The number is finite and is exactly the fraction `num / den`.
    pub open spec fn denotes(self, num: int, den: int) -> bool {
        &&& self.finite()
        &&& den > 0
        &&& self.scaled() * den == num * pow2(1074)
    }

    /// The number is finite and lies within half a unit in its last place of
    /// the fraction `num / den`: among the numbers of its exponent none is
    /// nearer to the fraction.
    pub open spec fn within_half_ulp(self, num: int, den: int) -> bool {
        &&& self.finite()
        &&& den > 0
        &&& 2 * (self.scaled() * den - num * pow2(1074)) <= den * self.ulp()
        &&& 2 * (num * pow2(1074) - self.scaled() * den) <= den * self.ulp()
    }

    /// The number with the given bits.
    pub fn from_bits(bits: u64) -> (r: Binary64)
        ensures
            r.bits == bits,
    {
        Binary64 { bits }
    }

    /// The bits of the number.
    pub fn to_bits(self) -> (bits: u64)
        ensures
            bits == self.bits,
    {
        self.bits
    }

    /// Whether the sign bit is set.
    pub fn is_sign_negative(self) -> (r: bool)
        ensures
            r == self.negative(),
    {
        self.bits >= SIGN_BIT
    }

    /// The pattern with the sign bit cleared.
    pub fn abs_bits(self) -> (m: u64)
        ensures
            m == self.magnitude(),
            m < SIGN_BIT,
    {
        if self.bits >= SIGN_BIT {
            self.bits - SIGN_BIT
        } else {
            self.bits
        }
    }

    /// Whether the pattern is a NaN.
    pub fn is_nan(self) -> (r: bool)
        ensures
            r == self.nan(),
    {
        self.abs_bits() > INFINITY_BITS
    }

    /// Whether the number is neither infinite nor a NaN.
    pub fn is_finite(self) -> (r: bool)
        ensures
            r == self.finite(),
    {
        self.abs_bits() < INFINITY_BITS
    }

    /// IEEE `>=` on the two numbers.
    #[verifier::when_used_as_spec(spec_ge)]
    pub fn ge(self, other: Binary64) -> (r: bool)
        ensures
            r == self.spec_ge(other),
    {
        if self.is_nan() || other.is_nan() {
            return false;
        }
        let a: u64 = self.abs_bits();
        let b: u64 = other.abs_bits();
        proof {
            lemma_magnitude_order(other, self);
            lemma_scaled_magnitude_zero(other);
        }
        if self.is_sign_negative() {
            if other.is_sign_negative() {
                a <= b
            } else {
                a == 0 && b == 0
            }
        } else {
            if other.is_sign_negative() {
                true
            } else {
                a >= b
            }
        }
    }

    /// IEEE `>` on the two numbers.
    #[verifier::when_used_as_spec(spec_gt)]
    pub fn gt(self, other: Binary64) -> (r: bool)
        ensures
            r == self.spec_gt(other),
    {
        if self.is_nan() || other.is_nan() {
            return false;
        }
        let a: u64 = self.abs_bits();
        let b: u64 = other.abs_bits();
        proof {
            lemma_magnitude_order(other, self);
            lemma_scaled_magnitude_zero(other);
        }
        if self.is_sign_negative() {
            if other.is_sign_negative() {
                a < b
            } else {
                false
            }
        } else {
            if other.is_sign_negative() {
                a != 0 || b != 0
            } else {
                a > b
            }
        }
    }

    /// The number limited to the interval from 0 to 1, as the IEEE `clamp`
    /// does it: whatever is no NaN comes out inside the interval.
    #[verifier::when_used_as_spec(spec_clamp_unit)]
    pub fn clamp_unit(self) -> (r: Binary64)
        ensures
            r == self.spec_clamp_unit(),
            !self.nan() ==> r.in_unit_interval(),
            self.in_unit_interval() ==> r == self,
            self.nan() ==> r == self,
    {
        let zero = Binary64 { bits: 0 };
        let one = Binary64 { bits: ONE_BITS };
        proof {
            lemma_one_scaled();
        }
        if zero.gt(self) {
            zero
        } else if self.gt(one) {
            one
        } else {
            self
        }
    }
}

/// The scaled magnitudes of one exponent field `e` lie under 2^52 * 2^e,
/// and from `e = 1` on at or above 2^52 * 2^(e - 1): the ranges of two
/// exponent fields do not overlap.
proof fn lemma_scaled_magnitude_bounds(a: Binary64)
    ensures
        a.scaled_magnitude() < HIDDEN_BIT * pow2(a.exponent()),
        a.exponent() >= 1 ==> a.scaled_magnitude() >= HIDDEN_BIT * pow2(
            (a.exponent() - 1) as nat,
        ),
{
    let e = a.exponent();
    let m = a.fraction();
    let h = HIDDEN_BIT as int;
    if e == 0 {
        lemma2_to64();
    } else {
        let p = pow2((e - 1) as nat) as int;
        lemma_pow2_pos((e - 1) as nat);
        lemma_pow2_unfold(e);
        assert((h + m) * p < (2 * h) * p) by (nonlinear_arith)
            requires
                0 <= m < h,
                p > 0,
        ;
        assert((2 * h) * p == h * (2 * p)) by (nonlinear_arith);
        assert((h + m) * p >= h * p) by (nonlinear_arith)
            requires
                0 <= m,
                p > 0,
        ;
    }
}

/// The order of two magnitudes as bit patterns is the order of the absolute
/// values that they denote.
pub proof fn lemma_scaled_magnitude_increasing(a: Binary64, b: Binary64)
    requires
        a.magnitude() < b.magnitude(),
    ensures
        a.scaled_magnitude() < b.scaled_magnitude(),
{
    let h = HIDDEN_BIT as int;
    let (ea, ma) = (a.exponent(), a.fraction());
    let (eb, mb) = (b.exponent(), b.fraction());
    if ea == eb {
        if ea != 0 {
            let p = pow2((ea - 1) as nat) as int;
            lemma_pow2_pos((ea - 1) as nat);
            assert((h + ma) * p < (h + mb) * p) by (nonlinear_arith)
                requires
                    0 <= ma < mb,
                    p > 0,
            ;
        }
    } else {
        lemma_scaled_magnitude_bounds(a);
        lemma_scaled_magnitude_bounds(b);
        if ea < eb - 1 {
            lemma_pow2_strictly_increases(ea, (eb - 1) as nat);
        }
    }
}

/// Only the two zeros have the scaled value 0.
pub proof fn lemma_scaled_magnitude_zero(a: Binary64)
    ensures
        a.scaled_magnitude() == 0 <==> a.magnitude() == 0,
{
    let zero = Binary64 { bits: 0 };
    if a.magnitude() != 0 {
        lemma_scaled_magnitude_increasing(zero, a);
    }
}

/// Bit order and value order agree on magnitudes, in both directions.
pub proof fn lemma_magnitude_order(a: Binary64, b: Binary64)
    ensures
        a.magnitude() <= b.magnitude() <==> a.scaled_magnitude() <= b.scaled_magnitude(),
        a.magnitude() == b.magnitude() <==> a.scaled_magnitude() == b.scaled_magnitude(),
{
    if a.magnitude() < b.magnitude() {
        lemma_scaled_magnitude_increasing(a, b);
    } else if b.magnitude() < a.magnitude() {
        lemma_scaled_magnitude_increasing(b, a);
    }
}

/// 1.0 is 2^1074 units of 2^-1074.
pub proof fn lemma_one_scaled()
    ensures
        (Binary64 { bits: ONE_BITS }).scaled() == pow2(1074),
        (Binary64 { bits: 0 }).scaled() == 0,
{
    lemma2_to64_rest();
    lemma_pow2_adds(52, 1022);
}

/// A way to show `within_half_ulp` for a positive normal number without
/// touching 2^1074: with `k` the distance of its exponent from 1075, the
/// significand times `den` is compared with `num * 2^k`.
pub proof fn lemma_within_half_ulp(x: Binary64, num: int, den: int, k: nat)
    requires
        !x.negative(),
        x.finite(),
        x.exponent() >= 1,
        k + x.exponent() == 1075,
        den > 0,
        2 * ((HIDDEN_BIT + x.fraction()) * den - num * pow2(k)) <= den,
        2 * (num * pow2(k) - (HIDDEN_BIT + x.fraction()) * den) <= den,
    ensures
        x.within_half_ulp(num, den),
{
    let e = x.exponent();
    let p = pow2((e - 1) as nat) as int;
    let q = pow2(k) as int;
    let sig = (HIDDEN_BIT + x.fraction()) as int;
    lemma_pow2_pos((e - 1) as nat);
    lemma_pow2_adds(k, (e - 1) as nat);
    let gap = sig * den - num * q;
    assert((sig * p) * den - num * (q * p) == gap * p) by (nonlinear_arith)
        requires
            gap == sig * den - num * q,
    ;
    assert(2 * (gap * p) <= den * p && 2 * (-(gap * p)) <= den * p) by (nonlinear_arith)
        requires
            2 * gap <= den,
            2 * (-gap) <= den,
            p > 0,
    ;
}

/// Numbers without the sign bit compare as their bit patterns do.
pub proof fn lemma_order_of_nonnegative(a: Binary64, b: Binary64)
    requires
        !a.negative() && !a.nan(),
        !b.negative() && !b.nan(),
    ensures
        a.ge(b) <==> a.bits >= b.bits,
        a.gt(b) <==> a.bits > b.bits,
{
    lemma_magnitude_order(b, a);
}

} // verus!
