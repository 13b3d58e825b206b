//! Zeros and NaNs among IEEE 754 bit patterns.
//!
//! A floating-point operand reaches this crate as the integer that holds its
//! bits: the sign in the top bit, then the exponent, then the fraction. The
//! only question the guest asks of an operand is whether a divisor compares
//! equal to zero. Both zeros do, the positive and the negative one, and no
//! other value does; a NaN in particular compares equal to nothing.
use vstd::prelude::*;

verus! {

/// The sign bit of a single-precision pattern, which is also the pattern of
/// the negative zero.
pub const SIGN_32: u32 = 0x8000_0000;

/// The sign bit of a double-precision pattern, which is also the pattern of
/// the negative zero.
pub const SIGN_64: u64 = 0x8000_0000_0000_0000;

/// The single-precision pattern of positive infinity: every bit of the
/// exponent set, and an empty fraction.
pub const INFINITY_32: u32 = 0x7f80_0000;

/// The double-precision pattern of positive infinity: every bit of the
/// exponent set, and an empty fraction.
pub const INFINITY_64: u64 = 0x7ff0_0000_0000_0000;

/// The bits of a floating-point value, in single or in double precision.
#[derive(Clone, Copy, PartialEq, Eq, Structural, Debug)]
pub enum FloatBits {
    Single(u32),
    Double(u64),
}

impl FloatBits {
    /// The pattern with its sign bit cleared, as a number.
    pub open spec fn magnitude(self) -> int {
        match self {
            FloatBits::Single(bits) => if bits >= SIGN_32 {
                bits - SIGN_32
            } else {
                bits as int
            },
            FloatBits::Double(bits) => if bits >= SIGN_64 {
                bits - SIGN_64
            } else {
                bits as int
            },
        }
    }

    /// Whether the value is a zero, of either sign: nothing is set but,
    /// perhaps, the sign bit.
    pub open spec fn spec_is_zero(self) -> bool {
        self.magnitude() == 0
    }

    /// Whether the value is a NaN: a full exponent and a fraction that is
    /// not empty.
    pub open spec fn is_nan(self) -> bool {
        match self {
            FloatBits::Single(_) => self.magnitude() > INFINITY_32,
            FloatBits::Double(_) => self.magnitude() > INFINITY_64,
        }
    }

    /// Tells whether the value compares equal to zero.
    #[verifier::when_used_as_spec(spec_is_zero)]
    pub fn is_zero(self) -> (zero: bool)
        ensures
            zero == self.spec_is_zero(),
    {
        match self {
            FloatBits::Single(bits) => {
                let rest: u32 = bits & 0x7fff_ffff;
                assert(rest == 0 <==> (bits == 0 || bits == 0x8000_0000)) by (bit_vector)
                    requires
                        rest == bits & 0x7fff_ffff,
                ;
                rest == 0
            },
            FloatBits::Double(bits) => {
                let rest: u64 = bits & 0x7fff_ffff_ffff_ffff;
                assert(rest == 0 <==> (bits == 0 || bits == 0x8000_0000_0000_0000))
                    by (bit_vector)
                    requires
                        rest == bits & 0x7fff_ffff_ffff_ffff,
                ;
                rest == 0
            },
        }
    }
}

/// Each precision has exactly two zeros: the pattern with no bit set and the
/// pattern with only the sign bit set.
pub proof fn lemma_two_zeros(value: FloatBits)
    ensures
        value.is_zero() <==> {
            ||| value == FloatBits::Single(0)
            ||| value == FloatBits::Single(SIGN_32)
            ||| value == FloatBits::Double(0)
            ||| value == FloatBits::Double(SIGN_64)
        },
{
}

/// A NaN is not a zero.
pub proof fn lemma_nan_is_not_zero(value: FloatBits)
    requires
        value.is_nan(),
    ensures
        !value.is_zero(),
{
}

} // verus!
