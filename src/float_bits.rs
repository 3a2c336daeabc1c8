use vstd::prelude::*;

verus! {

/// A single-precision IEEE-754 value carried by its bit pattern.
///
/// The library never does floating-point arithmetic; it only needs to know
/// whether a value is finite, and how two finite values compare.
#[derive(Clone, Copy, Debug, PartialEq, Eq, Structural)]
pub struct F32Bits(pub u32);

pub const SIGN_MASK: u32 = 0x8000_0000;

pub const MAGNITUDE_MASK: u32 = 0x7fff_ffff;

pub const EXPONENT_MASK: u32 = 0x7f80_0000;

/// Finite means the exponent field is not all ones (neither an infinity nor a NaN).
pub open spec fn spec_is_finite(v: F32Bits) -> bool {
    v.0 & EXPONENT_MASK != EXPONENT_MASK
}

/// The position of a finite value on the real line, as an integer: positive
/// values order by their bit pattern, negative ones by their magnitude reversed,
/// and both zeros share the key 0. For finite `a` and `b`, `a < b` as floats
/// exactly when `order_key(a) < order_key(b)`, and `a == b` exactly when the
/// keys are equal.
pub open spec fn spec_order_key(v: F32Bits) -> int {
    let magnitude = (v.0 & MAGNITUDE_MASK) as int;
    if v.0 & SIGN_MASK != 0 {
        -magnitude
    } else {
        magnitude
    }
}

/// `a < b` between finite values.
pub open spec fn spec_less(a: F32Bits, b: F32Bits) -> bool {
    spec_order_key(a) < spec_order_key(b)
}

/// `a == b` between finite values (so `0.0 == -0.0`).
pub open spec fn spec_same(a: F32Bits, b: F32Bits) -> bool {
    spec_order_key(a) == spec_order_key(b)
}

impl F32Bits {
    /// Whether the value is neither infinite nor NaN.
    pub fn is_finite(self) -> (r: bool)
        ensures
            r == spec_is_finite(self),
    {
        self.0 & EXPONENT_MASK != EXPONENT_MASK
    }

    /// The integer key that orders finite values as the reals do.
    pub fn order_key(self) -> (r: i64)
        ensures
            r as int == spec_order_key(self),
    {
        let magnitude: i64 = (self.0 & MAGNITUDE_MASK) as i64;
        if self.0 & SIGN_MASK != 0 {
            -magnitude
        } else {
            magnitude
        }
    }

    /// `self < other`, for finite values.
    pub fn less_than(self, other: F32Bits) -> (r: bool)
        ensures
            r == spec_less(self, other),
    {
        self.order_key() < other.order_key()
    }

    /// `self == other` as numbers, for finite values.
    pub fn same_value(self, other: F32Bits) -> (r: bool)
        ensures
            r == spec_same(self, other),
    {
        self.order_key() == other.order_key()
    }
}

} // verus!
