//! Binary32 numbers held by their encoding.
//!
//! Every quantity of the tracer (a coordinate, a distance along a ray, a
//! colour channel) is a `Scalar`: the thirty-two bits of an IEEE 754
//! single-precision number. Arithmetic on such numbers is rounded and is left
//! to the caller's hardware; what is decided here is exact. Order, sign
//! and negation depend on the encoding alone, and this module proves that the
//! tests it runs on encodings agree with the numbers that the encodings denote.
use vstd::arithmetic::div_mod::{lemma_basic_div, lemma_div_is_ordered, lemma_div_multiples_vanish_quotient, lemma_fundamental_div_mod_converse};
use vstd::arithmetic::power2::{lemma2_to64, lemma_pow2_adds, lemma_pow2_pos, lemma_pow2_strictly_increases, lemma_pow2_unfold, pow2};
use vstd::bits::lemma_u32_shr_is_div;
use vstd::prelude::*;

verus! {

/// A binary32 number: sign in bit 31, biased exponent in bits 30 to 23,
/// fraction in bits 22 to 0.
#[derive(Clone, Copy, Debug, PartialEq, Eq, Structural)]
pub struct Scalar {
    pub bits: u32,
}

impl Scalar {
    /// The biased exponent field.
    pub open spec fn exponent(self) -> nat {
        ((self.bits >> 23) & 0xff) as nat
    }

    /// The fraction field.
    pub open spec fn fraction(self) -> nat {
        (self.bits & 0x7f_ffff) as nat
    }

    /// The encoding without its sign bit.
    pub open spec fn code(self) -> nat {
        (self.bits & 0x7fff_ffff) as nat
    }

    /// Whether the sign bit is set.
    pub open spec fn negative(self) -> bool {
        self.bits >> 31 == 1
    }

    /// Whether the encoding denotes no number.
    pub open spec fn is_nan_spec(self) -> bool {
        self.exponent() == 255 && self.fraction() != 0
    }

    /// Whether the encoding denotes a number that is neither infinite nor
    /// missing.
    pub open spec fn is_finite_spec(self) -> bool {
        self.exponent() < 255
    }

    /// The absolute value, counted in units of 2^-149, the spacing of the
    /// smallest subnormals. Every finite binary32 number is a whole multiple
    /// of that unit. The two infinities come out as 2^277, above every finite
    /// magnitude.
    pub open spec fn magnitude(self) -> nat {
        if self.exponent() == 0 {
            self.fraction()
        } else {
            (0x80_0000 + self.fraction()) * pow2((self.exponent() - 1) as nat)
        }
    }

    /// The number denoted, in units of 2^-149. Meaningful unless `is_nan_spec`.
    pub open spec fn value(self) -> int {
        if self.negative() {
            -(self.magnitude() as int)
        } else {
            self.magnitude() as int
        }
    }

    /// The signed code by which the executable tests order two encodings.
    pub open spec fn rank(self) -> int {
        if self.negative() {
            -(self.code() as int)
        } else {
            self.code() as int
        }
    }

    /// `self < other` as numbers; false when either is missing.
    pub open spec fn lt_spec(self, other: Scalar) -> bool {
        !self.is_nan_spec() && !other.is_nan_spec() && self.value() < other.value()
    }

    /// `self <= other` as numbers; false when either is missing.
    pub open spec fn le_spec(self, other: Scalar) -> bool {
        !self.is_nan_spec() && !other.is_nan_spec() && self.value() <= other.value()
    }

    /// The encoding of zero.
    pub open spec fn zero_spec() -> Scalar {
        Scalar { bits: 0 }
    }

    /// The encoding of one.
    pub open spec fn one_spec() -> Scalar {
        Scalar { bits: 0x3f80_0000 }
    }

    /// The encoding of positive infinity.
    pub open spec fn infinity_spec() -> Scalar {
        Scalar { bits: 0x7f80_0000 }
    }

    /// The encoding with the sign bit flipped.
    pub open spec fn neg_spec(self) -> Scalar {
        Scalar { bits: self.bits ^ 0x8000_0000 }
    }

    /// The encoding with the sign bit cleared.
    pub open spec fn abs_spec(self) -> Scalar {
        Scalar { bits: self.bits & 0x7fff_ffff }
    }

    /// The smaller of two numbers: `other` where `self` is missing or
    /// `other` is smaller, else `self`.
    pub open spec fn min_spec(self, other: Scalar) -> Scalar {
        if self.is_nan_spec() || other.lt_spec(self) {
            other
        } else {
            self
        }
    }

    /// The larger of two numbers: `other` where `self` is missing or `other`
    /// is larger, else `self`.
    pub open spec fn max_spec(self, other: Scalar) -> Scalar {
        if self.is_nan_spec() || self.lt_spec(other) {
            other
        } else {
            self
        }
    }

    /// The whole part of the number, held to the range of a byte: nought
    /// for a missing number and for what is not positive, 255 for what is
    /// 255 or more.
    pub open spec fn byte_spec(self) -> int {
        let whole = self.value() / (pow2(149) as int);
        if self.is_nan_spec() || self.value() <= 0 {
            0
        } else if whole >= 255 {
            255
        } else {
            whole
        }
    }

    /// The code splits into exponent and fraction, each within its field.
    pub proof fn lemma_fields(self)
        ensures
            self.code() == self.exponent() * 0x80_0000 + self.fraction(),
            self.exponent() <= 255,
            self.fraction() < 0x80_0000,
            self.negative() || self.bits >> 31 == 0,
            !self.negative() ==> self.bits == self.code(),
            self.negative() ==> self.bits == self.code() + 0x8000_0000,
    {
        let b = self.bits;
        assert((b & 0x7fff_ffff) == ((b >> 23) & 0xff) * 0x80_0000 + (b & 0x7f_ffff)) by (bit_vector);
        assert(((b >> 23) & 0xff) <= 255) by (bit_vector);
        assert((b & 0x7f_ffff) < 0x80_0000) by (bit_vector);
        assert(b >> 31 == 1 || b >> 31 == 0) by (bit_vector);
        assert(b >> 31 == 0 ==> b == (b & 0x7fff_ffff)) by (bit_vector);
        assert(b >> 31 == 1 ==> b == (b & 0x7fff_ffff) + 0x8000_0000) by (bit_vector);
    }

    /// A larger code denotes a larger magnitude.
    pub proof fn lemma_magnitude_increases(self, other: Scalar)
        requires
            self.code() < other.code(),
        ensures
            self.magnitude() < other.magnitude(),
    {
        self.lemma_fields();
        other.lemma_fields();
        let (e1, f1) = (self.exponent(), self.fraction());
        let (e2, f2) = (other.exponent(), other.fraction());
        if e1 == e2 {
            if e1 != 0 {
                let p = pow2((e1 - 1) as nat);
                lemma_pow2_pos((e1 - 1) as nat);
                assert((0x80_0000 + f1) * p < (0x80_0000 + f2) * p) by (nonlinear_arith)
                    requires
                        f1 < f2,
                        p > 0,
                ;
            }
        } else {
            assert(e1 < e2);
            let q = pow2((e2 - 1) as nat);
            lemma_pow2_pos((e2 - 1) as nat);
            assert(0x80_0000 * q <= (0x80_0000 + f2) * q) by (nonlinear_arith)
                requires
                    f2 >= 0,
                    q > 0,
            ;
            if e1 == 0 {
                assert(0x80_0000 * 1 <= 0x80_0000 * q) by (nonlinear_arith)
                    requires
                        q >= 1,
                ;
            } else {
                let p = pow2((e1 - 1) as nat);
                lemma_pow2_pos((e1 - 1) as nat);
                lemma_pow2_unfold(e1);
                if e1 < e2 - 1 {
                    lemma_pow2_strictly_increases(e1, (e2 - 1) as nat);
                }
                assert(pow2(e1) <= q);
                assert((0x80_0000 + f1) * p < 0x80_0000 * (2 * p)) by (nonlinear_arith)
                    requires
                        f1 < 0x80_0000,
                        p > 0,
                ;
                assert(0x80_0000 * (2 * p) <= 0x80_0000 * q) by (nonlinear_arith)
                    requires
                        2 * p <= q,
                ;
            }
        }
    }

    /// Equal codes denote equal magnitudes.
    pub proof fn lemma_magnitude_of_code(self, other: Scalar)
        requires
            self.code() == other.code(),
        ensures
            self.magnitude() == other.magnitude(),
            self.is_nan_spec() == other.is_nan_spec(),
    {
        let a = self.bits;
        let b = other.bits;
        assert((a & 0x7fff_ffff) == (b & 0x7fff_ffff) ==> ((a >> 23) & 0xff) == ((b >> 23) & 0xff)
            && (a & 0x7f_ffff) == (b & 0x7f_ffff)) by (bit_vector);
    }

    /// The order of the ranks is the order of the numbers denoted.
    pub proof fn lemma_rank_orders(self, other: Scalar)
        ensures
            self.rank() < other.rank() <==> self.value() < other.value(),
            self.rank() == other.rank() <==> self.value() == other.value(),
    {
        let nought = Self::zero_spec();
        Self::lemma_zero();
        if self.code() > 0 {
            nought.lemma_magnitude_increases(self);
        } else {
            self.lemma_magnitude_of_code(nought);
        }
        if other.code() > 0 {
            nought.lemma_magnitude_increases(other);
        } else {
            other.lemma_magnitude_of_code(nought);
        }
        if self.code() < other.code() {
            self.lemma_magnitude_increases(other);
        } else if other.code() < self.code() {
            other.lemma_magnitude_increases(self);
        } else {
            self.lemma_magnitude_of_code(other);
        }
    }

    /// Flipping the sign bit gives the opposite number.
    pub proof fn lemma_neg(self)
        ensures
            self.neg_spec().exponent() == self.exponent(),
            self.neg_spec().fraction() == self.fraction(),
            self.neg_spec().code() == self.code(),
            self.neg_spec().negative() == !self.negative(),
            self.neg_spec().is_nan_spec() == self.is_nan_spec(),
            self.neg_spec().magnitude() == self.magnitude(),
            self.neg_spec().value() == -self.value(),
            self.neg_spec().neg_spec() == self,
    {
        let b = self.bits;
        assert((((b ^ 0x8000_0000) >> 23) & 0xff) == ((b >> 23) & 0xff) && ((b ^ 0x8000_0000) & 0x7f_ffff) == (b
            & 0x7f_ffff) && ((b ^ 0x8000_0000) & 0x7fff_ffff) == (b & 0x7fff_ffff) && (((b ^ 0x8000_0000) >> 31
            == 1) <==> !(b >> 31 == 1)) && ((b ^ 0x8000_0000) ^ 0x8000_0000) == b) by (bit_vector);
    }

    /// Clearing the sign bit gives the absolute value.
    pub proof fn lemma_abs(self)
        ensures
            self.abs_spec().exponent() == self.exponent(),
            self.abs_spec().fraction() == self.fraction(),
            self.abs_spec().code() == self.code(),
            !self.abs_spec().negative(),
            self.abs_spec().is_nan_spec() == self.is_nan_spec(),
            self.abs_spec().value() == self.magnitude(),
            self.abs_spec().value() >= 0,
    {
        let b = self.bits;
        assert((((b & 0x7fff_ffff) >> 23) & 0xff) == ((b >> 23) & 0xff) && ((b & 0x7fff_ffff) & 0x7f_ffff) == (b
            & 0x7f_ffff) && ((b & 0x7fff_ffff) & 0x7fff_ffff) == (b & 0x7fff_ffff) && (b & 0x7fff_ffff) >> 31
            == 0) by (bit_vector);
    }

    /// Zero is the number nought.
    pub proof fn lemma_zero()
        ensures
            Self::zero_spec().exponent() == 0,
            Self::zero_spec().fraction() == 0,
            Self::zero_spec().code() == 0,
            !Self::zero_spec().negative(),
            !Self::zero_spec().is_nan_spec(),
            Self::zero_spec().value() == 0,
    {
        assert(((0u32 >> 23) & 0xff) == 0 && (0u32 & 0x7f_ffff) == 0 && (0u32 & 0x7fff_ffff) == 0 && 0u32 >> 31
            == 0) by (bit_vector);
    }

    /// One is the number one: 2^149 units.
    pub proof fn lemma_one()
        ensures
            Self::one_spec().exponent() == 127,
            Self::one_spec().fraction() == 0,
            !Self::one_spec().negative(),
            !Self::one_spec().is_nan_spec(),
            Self::one_spec().value() == pow2(149),
    {
        assert(((0x3f80_0000u32 >> 23) & 0xff) == 127 && (0x3f80_0000u32 & 0x7f_ffff) == 0 && 0x3f80_0000u32
            >> 31 == 0) by (bit_vector);
        lemma2_to64();
        lemma_pow2_adds(23, 126);
    }

    /// Infinity is positive, not finite, and no missing number.
    pub proof fn lemma_infinity()
        ensures
            Self::infinity_spec().exponent() == 255,
            Self::infinity_spec().fraction() == 0,
            Self::infinity_spec().code() == 0x7f80_0000,
            !Self::infinity_spec().negative(),
            !Self::infinity_spec().is_nan_spec(),
            !Self::infinity_spec().is_finite_spec(),
    {
        assert(((0x7f80_0000u32 >> 23) & 0xff) == 255 && (0x7f80_0000u32 & 0x7f_ffff) == 0 && (0x7f80_0000u32
            & 0x7fff_ffff) == 0x7f80_0000 && 0x7f80_0000u32 >> 31 == 0) by (bit_vector);
    }

    /// The whole part of a positive number: none under one, the leading
    /// bits of the significand from one to 256, and 256 or more beyond.
    pub proof fn lemma_whole_part(self)
        requires
            !self.negative(),
        ensures
            self.exponent() < 127 ==> self.value() / (pow2(149) as int) == 0,
            127 <= self.exponent() <= 134 ==> self.value() / (pow2(149) as int) == (0x80_0000
                + self.fraction()) as int / (pow2((150 - self.exponent()) as nat) as int),
            self.exponent() >= 135 ==> self.value() / (pow2(149) as int) >= 256,
            self.exponent() >= 1 ==> self.value() > 0,
    {
        self.lemma_fields();
        let e = self.exponent();
        let m = 0x80_0000 + self.fraction();
        let unit = pow2(149) as int;
        lemma_pow2_pos(149);
        lemma2_to64();
        if e == 0 {
            lemma_pow2_strictly_increases(23, 149);
            lemma_basic_div(self.value(), unit);
        } else {
            let p = pow2((e - 1) as nat) as int;
            lemma_pow2_pos((e - 1) as nat);
            assert(m * p > 0) by (nonlinear_arith)
                requires
                    m > 0,
                    p > 0,
            ;
            if e < 127 {
                lemma_pow2_adds(24, (e - 1) as nat);
                if e + 23 < 149 {
                    lemma_pow2_strictly_increases((e + 23) as nat, 149);
                }
                assert(m * p < 0x100_0000 * p) by (nonlinear_arith)
                    requires
                        m < 0x100_0000,
                        p > 0,
                ;
                lemma_basic_div(self.value(), unit);
            } else if e <= 134 {
                let d = pow2((150 - e) as nat) as int;
                lemma_pow2_pos((150 - e) as nat);
                lemma_pow2_adds((e - 1) as nat, (150 - e) as nat);
                lemma_div_multiples_vanish_quotient(p, m as int, d);
                assert(m * p == p * m) by (nonlinear_arith);
            } else {
                lemma_pow2_adds(8, 149);
                lemma_pow2_adds(23, 134);
                if e > 135 {
                    lemma_pow2_strictly_increases(134, (e - 1) as nat);
                }
                assert(0x80_0000 * pow2(134) <= m * p) by (nonlinear_arith)
                    requires
                        0x80_0000 <= m,
                        pow2(134) <= p,
                ;
                lemma_fundamental_div_mod_converse(256 * unit, unit, 256, 0);
                lemma_div_is_ordered(256 * unit, self.value(), unit);
            }
        }
    }

    /// Every number lies between the two infinities.
    pub proof fn lemma_within_infinities(self)
        requires
            !self.is_nan_spec(),
        ensures
            Self::infinity_spec().neg_spec().le_spec(self),
            self.le_spec(Self::infinity_spec()),
    {
        let top = Self::infinity_spec();
        let b = self.bits;
        assert(!(((b >> 23) & 0xff) == 255 && (b & 0x7f_ffff) != 0) ==> (b & 0x7fff_ffff) <= 0x7f80_0000)
            by (bit_vector);
        Self::lemma_infinity();
        top.lemma_neg();
        self.lemma_rank_orders(top);
        top.neg_spec().lemma_rank_orders(self);
    }

    /// Builds the number with the given encoding.
    pub fn from_bits(bits: u32) -> (r: Scalar)
        ensures
            r.bits == bits,
    {
        Scalar { bits }
    }

    /// The encoding.
    pub fn to_bits(self) -> (r: u32)
        ensures
            r == self.bits,
    {
        self.bits
    }

    /// Zero, with a clear sign bit.
    pub fn zero() -> (r: Scalar)
        ensures
            r == Self::zero_spec(),
            !r.is_nan_spec(),
            r.value() == 0,
    {
        proof {
            Self::lemma_zero();
        }
        Scalar { bits: 0 }
    }

    /// One.
    pub fn one() -> (r: Scalar)
        ensures
            r == Self::one_spec(),
            !r.is_nan_spec(),
            r.value() == pow2(149),
    {
        proof {
            Self::lemma_one();
        }
        Scalar { bits: 0x3f80_0000 }
    }

    /// Positive infinity: above every finite number.
    pub fn infinity() -> (r: Scalar)
        ensures
            r == Self::infinity_spec(),
            !r.is_nan_spec(),
            !r.is_finite_spec(),
            !r.negative(),
    {
        proof {
            Self::lemma_infinity();
        }
        Scalar { bits: 0x7f80_0000 }
    }

    /// Whether the encoding denotes no number.
    pub fn is_nan(self) -> (r: bool)
        ensures
            r == self.is_nan_spec(),
    {
        (self.bits >> 23) & 0xff == 255 && self.bits & 0x7f_ffff != 0
    }

    /// Whether the number is neither infinite nor missing.
    pub fn is_finite(self) -> (r: bool)
        ensures
            r == self.is_finite_spec(),
    {
        (self.bits >> 23) & 0xff < 255
    }

    /// Whether the sign bit is set.
    pub fn is_sign_negative(self) -> (r: bool)
        ensures
            r == self.negative(),
    {
        self.bits >> 31 == 1
    }

    fn signed_code(self) -> (r: i64)
        ensures
            r == self.rank(),
    {
        let b: u32 = self.bits;
        let code: u32 = b & 0x7fff_ffff;
        assert((b & 0x7fff_ffff) <= 0x7fff_ffff) by (bit_vector);
        if self.bits >> 31 == 1 {
            -(code as i64)
        } else {
            code as i64
        }
    }

    /// `self < other`.
    pub fn lt(self, other: Scalar) -> (r: bool)
        ensures
            r == self.lt_spec(other),
    {
        proof {
            self.lemma_rank_orders(other);
        }
        !self.is_nan() && !other.is_nan() && self.signed_code() < other.signed_code()
    }

    /// `self <= other`.
    pub fn le(self, other: Scalar) -> (r: bool)
        ensures
            r == self.le_spec(other),
    {
        proof {
            self.lemma_rank_orders(other);
        }
        !self.is_nan() && !other.is_nan() && self.signed_code() <= other.signed_code()
    }

    /// `self > other`.
    pub fn gt(self, other: Scalar) -> (r: bool)
        ensures
            r == other.lt_spec(self),
    {
        other.lt(self)
    }

    /// The number with the opposite sign. Exact for every encoding: only the
    /// sign bit changes.
    pub fn neg(self) -> (r: Scalar)
        ensures
            r == self.neg_spec(),
            r.is_nan_spec() == self.is_nan_spec(),
            r.magnitude() == self.magnitude(),
            r.negative() == !self.negative(),
            r.value() == -self.value(),
    {
        proof {
            self.lemma_neg();
        }
        Scalar { bits: self.bits ^ 0x8000_0000 }
    }

    /// The absolute value. Exact for every encoding: the sign bit is cleared.
    pub fn abs(self) -> (r: Scalar)
        ensures
            r == self.abs_spec(),
            r.is_nan_spec() == self.is_nan_spec(),
            !r.negative(),
            r.value() == self.magnitude(),
    {
        proof {
            self.lemma_abs();
        }
        Scalar { bits: self.bits & 0x7fff_ffff }
    }

    /// The smaller of two numbers. Where one is missing the other is
    /// returned; where neither is smaller, `self`.
    pub fn min(self, other: Scalar) -> (r: Scalar)
        ensures
            r == self.min_spec(other),
    {
        if self.is_nan() || other.lt(self) {
            other
        } else {
            self
        }
    }

    /// The larger of two numbers. Where one is missing the other is returned;
    /// where neither is larger, `self`.
    pub fn max(self, other: Scalar) -> (r: Scalar)
        ensures
            r == self.max_spec(other),
    {
        if self.is_nan() || self.lt(other) {
            other
        } else {
            self
        }
    }

    /// The number as a byte: its whole part, held to the range from 0 to
    /// 255. A missing number gives 0.
    pub fn to_byte(self) -> (r: u8)
        ensures
            r == self.byte_spec(),
    {
        let b: u32 = self.bits;
        let e: u32 = (b >> 23) & 0xff;
        let f: u32 = b & 0x7f_ffff;
        proof {
            self.lemma_fields();
            if !self.negative() {
                self.lemma_whole_part();
            }
        }
        if self.is_nan() || b >> 31 == 1 || e < 127 {
            0
        } else if e >= 135 {
            255
        } else {
            let m: u32 = 0x80_0000 + f;
            let shift: u32 = 150 - e;
            proof {
                lemma_u32_shr_is_div(m, shift);
                lemma2_to64();
                lemma_pow2_pos(shift as nat);
                if shift > 16 {
                    lemma_pow2_strictly_increases(16, shift as nat);
                }
                lemma_div_is_ordered(m as int, 0xff_ffff, pow2(shift as nat) as int);
                vstd::arithmetic::div_mod::lemma_div_is_ordered_by_denominator(0xff_ffff, 0x1_0000, pow2(shift as nat) as int);
            }
            let whole: u32 = m >> shift;
            whole as u8
        }
    }
}

} // verus!
