//! Real-valued quantities as exact bit patterns.

use vstd::prelude::*;
use vstd::arithmetic::power2::{
    lemma2_to64, lemma2_to64_rest, lemma_pow2_adds, lemma_pow2_pos, lemma_pow2_strictly_increases, lemma_pow2_unfold, pow2,
};

verus! {

/// The binary64 sign bit; alone, the encoding of negative zero.
pub const SIGN_MASK: u64 = 0x8000_0000_0000_0000;

/// Encoding of positive infinity: a clear sign, every exponent bit set, a
/// zero fraction.
pub const INFINITY: u64 = 0x7FF0_0000_0000_0000;

/// Encoding of 100.
pub const HUNDRED: u64 = 0x4059_0000_0000_0000;

/// Two to the power 52: the number of fractions, and the weight of the
/// exponent field's lowest bit.
pub const FRACTION_SPAN: u64 = 0x0010_0000_0000_0000;

/// The exponent field at which the significand counts units of one.
pub const EXPONENT_UNIT: u64 = 1075;

/// The exponent field of infinities and NaNs.
pub const EXPONENT_MAX: u64 = 2047;

/// A real-valued quantity, carried as the 64 bits of its IEEE 754 binary64
/// encoding: from the top, one sign bit, eleven exponent bits and fifty-two
/// fraction bits.
///
/// Two scalars are equal when their bits are equal. No arithmetic is defined
/// here: a caller decodes the bits, computes, and encodes the result again.
#[derive(Clone, Copy, Debug, PartialEq, Eq, Structural, Hash)]
pub struct Scalar {
    pub bits: u64,
}

impl Scalar {
    /// Whether the sign bit is set.
    pub open spec fn is_sign_negative(self) -> bool {
        self.bits >= SIGN_MASK
    }

    /// The exponent field.
    pub open spec fn exponent_field(self) -> nat {
        ((self.bits % SIGN_MASK) / FRACTION_SPAN) as nat
    }

    /// The fraction field.
    pub open spec fn fraction_field(self) -> nat {
        (self.bits % FRACTION_SPAN) as nat
    }

    /// Whether the encoding denotes no number.
    pub open spec fn is_nan(self) -> bool {
        self.exponent_field() == EXPONENT_MAX && self.fraction_field() != 0
    }

    /// Whether the encoding denotes an infinity.
    pub open spec fn is_infinite(self) -> bool {
        self.exponent_field() == EXPONENT_MAX && self.fraction_field() == 0
    }

    /// Whether the encoding denotes a finite number.
    pub open spec fn is_finite(self) -> bool {
        self.exponent_field() < EXPONENT_MAX
    }

    /// The absolute value of a finite scalar in units of two to the power
    /// -1074, the smallest positive value; every finite value is a whole
    /// number of them. With exponent field zero the fraction counts the
    /// units; above, the fraction gets a leading one and doubles with each
    /// step of the exponent.
    pub open spec fn magnitude(self) -> nat {
        if self.exponent_field() == 0 {
            self.fraction_field()
        } else {
            ((FRACTION_SPAN + self.fraction_field()) * pow2((self.exponent_field() - 1) as nat)) as nat
        }
    }

    /// Whether the scalar is a positive normal number no further than half
    /// a unit in its last place from the fraction `p / q`: the value that
    /// rounding `p / q` to the nearest binary64 gives.
    ///
    /// With exponent field `e` the value is the significand times two to the
    /// power `e - 1075`, and a unit in the last place is that power.
    pub open spec fn is_nearest_to(self, p: nat, q: nat) -> bool {
        let e = self.exponent_field();
        let significand = FRACTION_SPAN + self.fraction_field();
        let up = if e >= EXPONENT_UNIT {
            pow2((e - EXPONENT_UNIT) as nat)
        } else {
            1
        };
        let down = if e < EXPONENT_UNIT {
            pow2((EXPONENT_UNIT - e) as nat)
        } else {
            1
        };
        &&& !self.is_sign_negative()
        &&& 0 < e < EXPONENT_MAX
        &&& q > 0
        &&& -(up * q) <= 2 * (significand * up * q - p * down) <= up * q
    }

    /// Whether the value is zero, of either sign.
    pub open spec fn is_zero(self) -> bool {
        self.is_finite() && self.magnitude() == 0
    }

    /// Whether the encoding denotes a number that is zero or above, infinity
    /// included. Negative zero is zero.
    pub open spec fn spec_is_non_negative(self) -> bool {
        !self.is_nan() && (self.is_sign_negative() ==> self.is_zero())
    }

    /// Whether the value lies between zero and that of `max`, both
    /// included. No value does where `max` is negative or a NaN.
    pub open spec fn spec_is_within(self, max: Scalar) -> bool {
        &&& self.spec_is_non_negative()
        &&& max.spec_is_non_negative()
        &&& max.is_infinite() || (self.is_finite() && self.magnitude() <= max.magnitude())
    }

    /// Wraps a bit pattern.
    pub fn from_bits(bits: u64) -> (s: Scalar)
        ensures
            s.bits == bits,
    {
        Scalar { bits }
    }

    /// The bit pattern.
    pub fn to_bits(self) -> (bits: u64)
        ensures
            bits == self.bits,
    {
        self.bits
    }

    /// Positive zero.
    pub fn zero() -> (s: Scalar)
        ensures
            s.bits == 0,
    {
        Scalar { bits: 0 }
    }

    /// Whether the value lies between zero and that of `max`, both included.
    #[verifier::when_used_as_spec(spec_is_within)]
    pub fn is_within(self, max: Scalar) -> (r: bool)
        ensures
            r == self.spec_is_within(max),
    {
        if max.bits == SIGN_MASK {
            proof {
                lemma_fields(max);
                lemma_range_by_bits(self, Scalar { bits: 0 });
            }
            self.bits == 0 || self.bits == SIGN_MASK
        } else if max.bits <= INFINITY {
            proof {
                lemma_range_by_bits(self, max);
            }
            self.bits <= max.bits || self.bits == SIGN_MASK
        } else {
            proof {
                lemma_fields(max);
            }
            false
        }
    }

    /// Whether the value is zero or above, infinity included, and no NaN.
    #[verifier::when_used_as_spec(spec_is_non_negative)]
    pub fn is_non_negative(self) -> (r: bool)
        ensures
            r == self.spec_is_non_negative(),
    {
        proof {
            lemma_range_by_bits(self, Scalar { bits: INFINITY });
        }
        self.bits <= INFINITY || self.bits == SIGN_MASK
    }
}

/// How the bits decide sign, kind and magnitude: the bits below the sign bit
/// are the exponent field times two to the power 52 plus the fraction field;
/// up to [`INFINITY`] they denote the numbers and above it the NaNs; and only
/// a zero exponent with a zero fraction gives magnitude zero.
pub proof fn lemma_fields(s: Scalar)
    ensures
        s.bits % SIGN_MASK == s.exponent_field() * FRACTION_SPAN + s.fraction_field(),
        s.fraction_field() < FRACTION_SPAN,
        s.exponent_field() <= EXPONENT_MAX,
        s.is_finite() <==> s.bits % SIGN_MASK < INFINITY,
        s.is_infinite() <==> s.bits % SIGN_MASK == INFINITY,
        s.is_nan() <==> s.bits % SIGN_MASK > INFINITY,
        s.is_zero() <==> s.bits % SIGN_MASK == 0,
{
    let e = s.exponent_field();
    let f = s.fraction_field();
    if e > 0 {
        lemma_pow2_pos((e - 1) as nat);
        assert((FRACTION_SPAN + f) * pow2((e - 1) as nat) > 0) by (nonlinear_arith)
            requires
                pow2((e - 1) as nat) > 0,
                FRACTION_SPAN + f > 0,
        ;
    }
}

/// Among the encodings of finite numbers that are zero or above, the order
/// of the bit patterns is the order of the values.
pub proof fn lemma_order_of_encodings(a: Scalar, b: Scalar)
    requires
        a.bits < INFINITY,
        b.bits < INFINITY,
    ensures
        a.bits <= b.bits <==> a.magnitude() <= b.magnitude(),
        a.bits == b.bits <==> a.magnitude() == b.magnitude(),
{
    if a.bits < b.bits {
        lemma_magnitude_increases(a, b);
    } else if b.bits < a.bits {
        lemma_magnitude_increases(b, a);
    }
}

/// A scalar nearest to a whole number `n`, and not so large that its last
/// place weighs more than one, is `n` exactly: its magnitude is `n` times two
/// to the power 1074, the number of units in one.
pub proof fn lemma_whole_number(x: Scalar, n: nat)
    requires
        x.is_nearest_to(n, 1),
        x.exponent_field() <= EXPONENT_UNIT,
    ensures
        x.is_finite(),
        x.magnitude() == n * pow2(1074),
{
    let e = x.exponent_field();
    let significand = FRACTION_SPAN + x.fraction_field();
    let down = pow2((EXPONENT_UNIT - e) as nat);
    let below = pow2((e - 1) as nat);
    assert(pow2(0) == 1) by {
        lemma2_to64();
    }
    if e == EXPONENT_UNIT {
        assert(significand * 1 * 1 == significand);
        assert(-(1 * 1) <= 2 * (significand * 1 * 1 - n * 1) <= 1 * 1);
        assert(n * 1 == n * down);
    } else {
        assert(-(1 * 1) <= 2 * (significand * 1 * 1 - n * down) <= 1 * 1);
    }
    assert(significand == n * down);
    lemma_pow2_adds((EXPONENT_UNIT - e) as nat, (e - 1) as nat);
    assert(down * below == pow2(1074));
    assert(n * down * below == n * (down * below)) by (nonlinear_arith);
}

/// [`HUNDRED`] is one hundred exactly.
pub proof fn lemma_hundred()
    ensures
        (Scalar { bits: HUNDRED }).is_nearest_to(100, 1),
        (Scalar { bits: HUNDRED }).is_finite(),
        (Scalar { bits: HUNDRED }).magnitude() == 100 * pow2(1074),
{
    let hundred = Scalar { bits: HUNDRED };
    lemma2_to64();
    lemma2_to64_rest();
    assert(hundred.exponent_field() == 1029);
    assert(hundred.fraction_field() == 0x9_0000_0000_0000);
    lemma_whole_number(hundred, 100);
}

/// Membership in a range from zero, read off the bits: a value is zero or
/// above when its encoding does not exceed that of infinity or is that of
/// negative zero, and it is moreover at most `max` when its encoding does not
/// exceed that of `max`.
pub proof fn lemma_range_by_bits(x: Scalar, max: Scalar)
    requires
        max.bits <= INFINITY,
    ensures
        x.spec_is_non_negative() <==> (x.bits <= INFINITY || x.bits == SIGN_MASK),
        x.spec_is_within(max) <==> (x.bits <= max.bits || x.bits == SIGN_MASK),
{
    lemma_fields(x);
    lemma_fields(max);
    if x.bits < INFINITY && max.bits < INFINITY {
        lemma_order_of_encodings(x, max);
    }
}

/// A larger encoding of a finite number that is zero or above denotes a
/// larger value.
proof fn lemma_magnitude_increases(a: Scalar, b: Scalar)
    requires
        a.bits < b.bits < INFINITY,
    ensures
        a.magnitude() < b.magnitude(),
{
    lemma_fields(a);
    lemma_fields(b);
    let ea = a.exponent_field();
    let fa = a.fraction_field();
    let eb = b.exponent_field();
    let fb = b.fraction_field();
    let span = FRACTION_SPAN as nat;
    assert(ea <= eb);
    if ea == eb {
        assert(fa < fb);
        if ea > 0 {
            let p = pow2((ea - 1) as nat);
            lemma_pow2_pos((ea - 1) as nat);
            assert((span + fa) * p < (span + fb) * p) by (nonlinear_arith)
                requires
                    p > 0,
                    fa < fb,
            ;
        }
    } else {
        let q = pow2((eb - 1) as nat);
        lemma_pow2_pos((eb - 1) as nat);
        assert(span * q <= (span + fb) * q) by (nonlinear_arith)
            requires
                q > 0,
        ;
        if ea == 0 {
            assert(span * 1 <= span * q) by (nonlinear_arith)
                requires
                    q >= 1,
            ;
        } else {
            let p = pow2((ea - 1) as nat);
            lemma_pow2_pos((ea - 1) as nat);
            lemma_pow2_unfold(ea);
            assert(pow2(ea) == 2 * p);
            if ea < eb - 1 {
                lemma_pow2_strictly_increases(ea, (eb - 1) as nat);
            }
            assert(pow2(ea) <= q);
            assert((span + fa) * p < span * (2 * p)) by (nonlinear_arith)
                requires
                    p > 0,
                    fa < span,
            ;
            assert(span * (2 * p) <= span * q) by (nonlinear_arith)
                requires
                    2 * p <= q,
            ;
        }
    }
}

} // verus!
