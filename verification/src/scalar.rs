//! Real numbers as the library carries them: by their IEEE-754 binary64
//! encoding. The library never does arithmetic on them; it stores them, hands
//! them on, and puts them in order.
use vstd::prelude::*;

verus! {

/// The encoding whose sign bit alone is set; encodings at or above it are
/// negative.
pub const SIGN_BIT: u64 = 0x8000_0000_0000_0000;

/// The encoding of positive infinity; a larger magnitude is not a number.
pub const INFINITY_BITS: u64 = 0x7FF0_0000_0000_0000;

/// The encoding of negative infinity.
pub const NEG_INFINITY_BITS: u64 = 0xFFF0_0000_0000_0000;

/// The encoding of the difference between one and the next larger number.
pub const EPSILON_BITS: u64 = 0x3CB0_0000_0000_0000;

/// The encoding without its sign bit.
pub open spec fn magnitude_of(bits: u64) -> int {
    if bits >= SIGN_BIT {
        bits - SIGN_BIT
    } else {
        bits as int
    }
}

/// Whether the encoding stands for no number at all.
pub open spec fn is_nan_bits(bits: u64) -> bool {
    magnitude_of(bits) > INFINITY_BITS
}

/// An integer that orders encodings as the numbers they stand for are ordered:
/// among encodings of numbers, one number is below another exactly when its
/// key is, and the two zeros share the key 0.
pub open spec fn order_key(bits: u64) -> int {
    if bits >= SIGN_BIT {
        -magnitude_of(bits)
    } else {
        magnitude_of(bits)
    }
}

/// `a > b` as the encoded numbers compare: false when either is not a number.
pub open spec fn bits_gt(a: u64, b: u64) -> bool {
    !is_nan_bits(a) && !is_nan_bits(b) && order_key(a) > order_key(b)
}

/// `a >= b` as the encoded numbers compare: false when either is not a number.
pub open spec fn bits_ge(a: u64, b: u64) -> bool {
    !is_nan_bits(a) && !is_nan_bits(b) && order_key(a) >= order_key(b)
}

/// A binary64 value, held by its encoding.
#[derive(Clone, Copy, Debug, PartialEq, Eq)]
pub struct Scalar {
    pub bits: u64,
}

impl Scalar {
    /// The value with this encoding.
    pub fn from_bits(bits: u64) -> (value: Scalar)
        ensures
            value.bits == bits,
    {
        Scalar { bits }
    }

    /// The encoding of this value.
    pub fn to_bits(&self) -> (bits: u64)
        ensures
            bits == self.bits,
    {
        self.bits
    }

    /// Negative infinity.
    pub fn negative_infinity() -> (value: Scalar)
        ensures
            value.bits == NEG_INFINITY_BITS,
    {
        Scalar { bits: NEG_INFINITY_BITS }
    }

    /// The difference between one and the next larger number.
    pub fn epsilon() -> (value: Scalar)
        ensures
            value.bits == EPSILON_BITS,
    {
        Scalar { bits: EPSILON_BITS }
    }

    /// Whether this value is no number.
    pub open spec fn spec_is_nan(&self) -> bool {
        is_nan_bits(self.bits)
    }

    /// The integer by which this value is ordered.
    pub open spec fn key(&self) -> int {
        order_key(self.bits)
    }

    /// Whether this number is strictly above `other`.
    pub open spec fn spec_gt(&self, other: &Scalar) -> bool {
        bits_gt(self.bits, other.bits)
    }

    /// Whether this number is at or above `other`.
    pub open spec fn spec_ge(&self, other: &Scalar) -> bool {
        bits_ge(self.bits, other.bits)
    }

    fn magnitude(&self) -> (m: u64)
        ensures
            m == magnitude_of(self.bits),
    {
        if self.bits >= SIGN_BIT {
            self.bits - SIGN_BIT
        } else {
            self.bits
        }
    }

    fn negative(&self) -> (n: bool)
        ensures
            n == (self.bits >= SIGN_BIT),
    {
        self.bits >= SIGN_BIT
    }

    /// Whether this value is no number.
    #[verifier::when_used_as_spec(spec_is_nan)]
    pub fn is_nan(&self) -> (nan: bool)
        ensures
            nan == self.spec_is_nan(),
    {
        self.magnitude() > INFINITY_BITS
    }

    /// Whether this number is strictly above `other`.
    #[verifier::when_used_as_spec(spec_gt)]
    pub fn gt(&self, other: &Scalar) -> (above: bool)
        ensures
            above == self.spec_gt(other),
    {
        if self.is_nan() || other.is_nan() {
            return false;
        }
        let a = self.magnitude();
        let b = other.magnitude();
        match (self.negative(), other.negative()) {
            (false, false) => a > b,
            (false, true) => a > 0 || b > 0,
            (true, false) => false,
            (true, true) => a < b,
        }
    }

    /// Whether this number is at or above `other`.
    #[verifier::when_used_as_spec(spec_ge)]
    pub fn ge(&self, other: &Scalar) -> (at_least: bool)
        ensures
            at_least == self.spec_ge(other),
    {
        if self.is_nan() || other.is_nan() {
            return false;
        }
        let a = self.magnitude();
        let b = other.magnitude();
        match (self.negative(), other.negative()) {
            (false, false) => a >= b,
            (false, true) => true,
            (true, false) => a == 0 && b == 0,
            (true, true) => a <= b,
        }
    }

    /// Whether this number is at or below `other`.
    pub fn le(&self, other: &Scalar) -> (at_most: bool)
        ensures
            at_most == other.spec_ge(self),
    {
        other.ge(self)
    }
}

/// No number is strictly above itself, and what is not a number is above
/// nothing and below nothing.
pub proof fn lemma_gt_irreflexive(a: Scalar)
    ensures
        !a.spec_gt(&a),
{
}

/// Among numbers, the strict order is transitive and total up to equal keys.
pub proof fn lemma_order_is_total(a: Scalar, b: Scalar, c: Scalar)
    requires
        !a.spec_is_nan(),
        !b.spec_is_nan(),
        !c.spec_is_nan(),
    ensures
        a.spec_ge(&b) <==> !b.spec_gt(&a),
        a.spec_gt(&b) ==> a.spec_ge(&b),
        a.spec_gt(&b) && b.spec_ge(&c) ==> a.spec_gt(&c),
        a.spec_ge(&b) && b.spec_ge(&c) ==> a.spec_ge(&c),
{
}

/// Negative infinity is below every other number and above none.
pub proof fn lemma_negative_infinity_is_least(a: Scalar)
    requires
        !a.spec_is_nan(),
    ensures
        a.spec_ge(&Scalar { bits: NEG_INFINITY_BITS }),
        !(Scalar { bits: NEG_INFINITY_BITS }).spec_gt(&a),
{
}

} // verus!
