use vstd::prelude::*;

verus! {

/// The bit that holds the sign of a binary32 encoding.
pub const SIGN_MASK: u32 = 0x8000_0000;

/// The eight bits that hold the biased exponent of a binary32 encoding.
pub const EXPONENT_MASK: u32 = 0x7f80_0000;

/// The twenty-three bits that hold the fraction of a binary32 encoding.
pub const FRACTION_MASK: u32 = 0x007f_ffff;

/// The encoding of positive one.
pub const ONE_BITS: u32 = 0x3f80_0000;

/// A binary32 number, held as its IEEE 754 encoding.
///
/// Two scalars are equal when their encodings are equal: the two zeros differ,
/// and a NaN equals itself.
#[derive(Clone, Copy, Debug, PartialEq, Eq, Structural, Hash)]
pub struct Scalar {
    pub bits: u32,
}

impl Scalar {
    /// The sign bit is set.
    pub open spec fn sign(self) -> bool {
        self.bits & SIGN_MASK != 0
    }

    /// The biased exponent, between 0 and 255.
    pub open spec fn exponent(self) -> u32 {
        (self.bits & EXPONENT_MASK) >> 23
    }

    /// The fraction field, below 2^23.
    pub open spec fn fraction(self) -> u32 {
        self.bits & FRACTION_MASK
    }

    /// Not a number: the exponent is all ones and the fraction is not zero.
    pub open spec fn spec_is_nan(self) -> bool {
        self.exponent() == 255 && self.fraction() != 0
    }

    /// Neither an infinity nor a NaN: the exponent is not all ones.
    pub open spec fn spec_is_finite(self) -> bool {
        self.exponent() != 255
    }

    /// Positive or negative zero: exponent and fraction are both zero.
    pub open spec fn spec_is_zero(self) -> bool {
        self.exponent() == 0 && self.fraction() == 0
    }

    /// Greater than zero: a number other than a zero or a NaN, with the sign
    /// bit clear.
    pub open spec fn spec_is_positive(self) -> bool {
        !self.sign() && !self.spec_is_zero() && !self.spec_is_nan()
    }

    /// The same number with the sign bit flipped.
    pub open spec fn spec_neg(self) -> Scalar {
        Scalar { bits: self.bits ^ SIGN_MASK }
    }

    /// The scalar itself if it is finite, and positive zero in place of an
    /// infinity or a NaN.
    pub open spec fn spec_finite_or_zero(self) -> Scalar {
        if self.spec_is_finite() {
            self
        } else {
            Scalar::spec_zero()
        }
    }

    /// Positive zero, the all-zero encoding.
    pub open spec fn spec_zero() -> Scalar {
        Scalar { bits: 0 }
    }

    /// Positive one.
    pub open spec fn spec_one() -> Scalar {
        Scalar { bits: ONE_BITS }
    }

    #[verifier::when_used_as_spec(spec_zero)]
    pub fn zero() -> (r: Scalar)
        ensures
            r == Scalar::spec_zero(),
    {
        Scalar { bits: 0 }
    }

    #[verifier::when_used_as_spec(spec_one)]
    pub fn one() -> (r: Scalar)
        ensures
            r == Scalar::spec_one(),
    {
        Scalar { bits: ONE_BITS }
    }

    /// The scalar with the given encoding.
    pub fn from_bits(bits: u32) -> (r: Scalar)
        ensures
            r.bits == bits,
    {
        Scalar { bits }
    }

    /// The encoding of this scalar.
    pub fn to_bits(self) -> (r: u32)
        ensures
            r == self.bits,
    {
        self.bits
    }

    #[verifier::when_used_as_spec(spec_is_nan)]
    pub fn is_nan(self) -> (r: bool)
        ensures
            r == self.spec_is_nan(),
    {
        let exponent: u32 = (self.bits & EXPONENT_MASK) >> 23;
        let fraction: u32 = self.bits & FRACTION_MASK;
        exponent == 255 && fraction != 0
    }

    #[verifier::when_used_as_spec(spec_is_finite)]
    pub fn is_finite(self) -> (r: bool)
        ensures
            r == self.spec_is_finite(),
    {
        let exponent: u32 = (self.bits & EXPONENT_MASK) >> 23;
        exponent != 255
    }

    #[verifier::when_used_as_spec(spec_is_zero)]
    pub fn is_zero(self) -> (r: bool)
        ensures
            r == self.spec_is_zero(),
    {
        let exponent: u32 = (self.bits & EXPONENT_MASK) >> 23;
        let fraction: u32 = self.bits & FRACTION_MASK;
        exponent == 0 && fraction == 0
    }

    #[verifier::when_used_as_spec(spec_is_positive)]
    pub fn is_positive(self) -> (r: bool)
        ensures
            r == self.spec_is_positive(),
    {
        (self.bits & SIGN_MASK) == 0 && !self.is_zero() && !self.is_nan()
    }

    #[verifier::when_used_as_spec(spec_finite_or_zero)]
    pub fn finite_or_zero(self) -> (r: Scalar)
        ensures
            r == self.spec_finite_or_zero(),
    {
        if self.is_finite() {
            self
        } else {
            Scalar::zero()
        }
    }

    #[verifier::when_used_as_spec(spec_neg)]
    pub fn neg(self) -> (r: Scalar)
        ensures
            r == self.spec_neg(),
    {
        Scalar { bits: self.bits ^ SIGN_MASK }
    }
}

/// Flipping the sign twice gives the scalar back, and flipping it once changes
/// neither the exponent nor the fraction: a negated scalar is a NaN, finite
/// or a zero exactly when the scalar is.
pub proof fn lemma_neg_keeps_class(a: Scalar)
    ensures
        a.spec_neg().spec_neg() == a,
        a.spec_neg().sign() == !a.sign(),
        a.spec_neg().exponent() == a.exponent(),
        a.spec_neg().fraction() == a.fraction(),
        a.spec_neg().spec_is_nan() == a.spec_is_nan(),
        a.spec_neg().spec_is_finite() == a.spec_is_finite(),
        a.spec_neg().spec_is_zero() == a.spec_is_zero(),
{
    let b = a.bits;
    assert((b ^ SIGN_MASK) ^ SIGN_MASK == b) by (bit_vector);
    assert(((b ^ SIGN_MASK) & SIGN_MASK != 0) == !(b & SIGN_MASK != 0)) by (bit_vector);
    assert((b ^ SIGN_MASK) & EXPONENT_MASK == b & EXPONENT_MASK) by (bit_vector);
    assert((b ^ SIGN_MASK) & FRACTION_MASK == b & FRACTION_MASK) by (bit_vector);
}

/// Zero and one are finite numbers; zero is a zero and one is positive.
pub proof fn lemma_zero_and_one()
    ensures
        Scalar::spec_zero().spec_is_finite(),
        Scalar::spec_zero().spec_is_zero(),
        !Scalar::spec_zero().spec_is_nan(),
        !Scalar::spec_zero().spec_is_positive(),
        Scalar::spec_one().spec_is_finite(),
        Scalar::spec_one().spec_is_positive(),
{
    assert((0u32 & EXPONENT_MASK) >> 23 == 0) by (bit_vector);
    assert(0u32 & FRACTION_MASK == 0) by (bit_vector);
    assert((ONE_BITS & EXPONENT_MASK) >> 23 == 127) by (bit_vector);
    assert(ONE_BITS & FRACTION_MASK == 0) by (bit_vector);
    assert(ONE_BITS & SIGN_MASK == 0) by (bit_vector);
}

} // verus!
