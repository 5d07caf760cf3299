//! Single-precision numbers as bit patterns.
//!
//! Coordinates, depths and colours travel through this crate as the 32-bit
//! patterns of IEEE 754 binary32 numbers. Ordering them needs no arithmetic
//! and is decided here, on the bits. Arithmetic is the caller's: the functions
//! that need it take it as an [`Operation`]-indexed function argument.

use vstd::prelude::*;

verus! {

/// The bit pattern of the sign bit.
pub const SIGN_BIT: u32 = 0x8000_0000;

/// The bit pattern of positive infinity; every larger magnitude is a NaN.
pub const INFINITY_BITS: u32 = 0x7f80_0000;

/// An IEEE 754 binary32 number, held as its bit pattern.
///
/// `==` on two scalars compares bit patterns: it tells `0.0` from `-0.0` and
/// finds a NaN equal to itself.
#[derive(Clone, Copy, Debug, PartialEq, Eq, Structural)]
pub struct Scalar {
    pub bits: u32,
}

/// The four arithmetic operations that encoding a glyph needs.
#[derive(Clone, Copy, Debug, PartialEq, Eq, Structural)]
pub enum Operation {
    Add,
    Sub,
    Mul,
    Div,
}

impl Scalar {
    /// The pattern without its sign bit.
    pub open spec fn magnitude(self) -> u32 {
        if self.bits >= SIGN_BIT {
            (self.bits - SIGN_BIT) as u32
        } else {
            self.bits
        }
    }

    /// Whether the sign bit is set.
    pub open spec fn is_negative(self) -> bool {
        self.bits >= SIGN_BIT
    }

    /// Whether the pattern is a NaN: its magnitude lies above infinity's.
    pub open spec fn is_nan(self) -> bool {
        self.magnitude() > INFINITY_BITS
    }

    /// Where a number that is no NaN stands on the number line, as an integer
    /// that grows with the number. Both zeros stand at 0.
    pub open spec fn rank(self) -> int {
        if self.is_negative() {
            -(self.magnitude() as int)
        } else {
            self.magnitude() as int
        }
    }

    /// IEEE 754 `>`: false when either side is a NaN.
    pub open spec fn spec_gt(self, other: Scalar) -> bool {
        !self.is_nan() && !other.is_nan() && self.rank() > other.rank()
    }

    /// IEEE 754 `<`: false when either side is a NaN.
    pub open spec fn spec_lt(self, other: Scalar) -> bool {
        !self.is_nan() && !other.is_nan() && self.rank() < other.rank()
    }

    /// IEEE 754 `<=`: false when either side is a NaN.
    pub open spec fn spec_le(self, other: Scalar) -> bool {
        !self.is_nan() && !other.is_nan() && self.rank() <= other.rank()
    }

    /// The number with this bit pattern.
    pub fn from_bits(bits: u32) -> (scalar: Scalar)
        ensures
            scalar.bits == bits,
    {
        Scalar { bits }
    }

    /// The number's bit pattern.
    pub fn to_bits(self) -> (bits: u32)
        ensures
            bits == self.bits,
    {
        self.bits
    }

    /// Whether the number is a NaN.
    pub fn is_nan_value(self) -> (nan: bool)
        ensures
            nan == self.is_nan(),
    {
        let magnitude: u32 = if self.bits >= SIGN_BIT {
            self.bits - SIGN_BIT
        } else {
            self.bits
        };
        magnitude > INFINITY_BITS
    }

    fn rank_value(self) -> (rank: i64)
        ensures
            rank == self.rank(),
    {
        if self.bits >= SIGN_BIT {
            -((self.bits - SIGN_BIT) as i64)
        } else {
            self.bits as i64
        }
    }

    /// Whether this number is greater than `other`, as IEEE 754 orders them.
    #[verifier::when_used_as_spec(spec_gt)]
    pub fn gt(self, other: Scalar) -> (greater: bool)
        ensures
            greater == self.spec_gt(other),
    {
        !self.is_nan_value() && !other.is_nan_value() && self.rank_value() > other.rank_value()
    }

    /// Whether this number is less than `other`, as IEEE 754 orders them.
    #[verifier::when_used_as_spec(spec_lt)]
    pub fn lt(self, other: Scalar) -> (less: bool)
        ensures
            less == self.spec_lt(other),
    {
        !self.is_nan_value() && !other.is_nan_value() && self.rank_value() < other.rank_value()
    }

    /// Whether this number is at most `other`, as IEEE 754 orders them.
    #[verifier::when_used_as_spec(spec_le)]
    pub fn le(self, other: Scalar) -> (at_most: bool)
        ensures
            at_most == self.spec_le(other),
    {
        !self.is_nan_value() && !other.is_nan_value() && self.rank_value() <= other.rank_value()
    }
}

/// Whether `arithmetic` accepts every operation on every pair of operands.
pub open spec fn total<A: Fn(Operation, Scalar, Scalar) -> Scalar>(arithmetic: A) -> bool {
    forall|op: Operation, a: Scalar, b: Scalar| #[trigger] arithmetic.requires((op, a, b))
}

/// Whether `arithmetic` can give `result` for `a op b`.
pub open spec fn gives<A: Fn(Operation, Scalar, Scalar) -> Scalar>(
    arithmetic: A,
    op: Operation,
    a: Scalar,
    b: Scalar,
    result: Scalar,
) -> bool {
    arithmetic.ensures((op, a, b), result)
}

/// Whether `arithmetic` is a function: the operands decide the result.
pub open spec fn deterministic<A: Fn(Operation, Scalar, Scalar) -> Scalar>(arithmetic: A) -> bool {
    forall|op: Operation, a: Scalar, b: Scalar, r1: Scalar, r2: Scalar|
        #[trigger] gives(arithmetic, op, a, b, r1) && #[trigger] gives(arithmetic, op, a, b, r2)
            ==> r1 == r2
}

} // verus!
