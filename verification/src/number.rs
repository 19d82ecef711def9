//! Double-precision measurements held by their bit pattern.
//!
//! The daemon stores speeds and balances as IEEE-754 binary64 values. This
//! module keeps such a value as its 64 bits and orders two of them exactly as
//! the hardware comparison does, with integer arithmetic only.

use vstd::prelude::*;

verus! {

/// The bit that carries the sign.
pub const SIGN_BIT: u64 = 0x8000_0000_0000_0000;

/// The magnitude of positive infinity; every larger magnitude is a NaN.
pub const INFINITY_MAGNITUDE: u64 = 0x7ff0_0000_0000_0000;

/// A binary64 value, identified by its bits.
#[derive(Clone, Copy, Debug, PartialEq, Eq, Structural)]
pub struct Number {
    pub bits: u64,
}

impl Number {
    /// Whether the sign bit is set.
    pub open spec fn is_negative(self) -> bool {
        self.bits >= SIGN_BIT
    }

    /// The bits without the sign.
    pub open spec fn magnitude(self) -> int {
        if self.bits >= SIGN_BIT {
            self.bits - SIGN_BIT
        } else {
            self.bits as int
        }
    }

    /// Whether the value is not a number.
    pub open spec fn is_nan(self) -> bool {
        self.magnitude() > INFINITY_MAGNITUDE
    }

    /// An integer that grows with the value: for two values that are numbers,
    /// the smaller value has the smaller key, and both zeros share key 0.
    pub open spec fn order_key(self) -> int {
        if self.is_negative() {
            -self.magnitude()
        } else {
            self.magnitude()
        }
    }

    /// The comparison `self < other` of binary64: false if either is a NaN.
    pub open spec fn less_than(self, other: Number) -> bool {
        !self.is_nan() && !other.is_nan() && self.order_key() < other.order_key()
    }

    pub fn from_bits(bits: u64) -> (n: Number)
        ensures
            n.bits == bits,
    {
        Number { bits }
    }

    pub fn to_bits(&self) -> (bits: u64)
        ensures
            bits == self.bits,
    {
        self.bits
    }

    fn exec_magnitude(&self) -> (m: u64)
        ensures
            m == self.magnitude(),
    {
        if self.bits >= SIGN_BIT {
            self.bits - SIGN_BIT
        } else {
            self.bits
        }
    }

    fn exec_order_key(&self) -> (k: i128)
        ensures
            k == self.order_key(),
    {
        let m: i128 = self.exec_magnitude() as i128;
        if self.bits >= SIGN_BIT {
            -m
        } else {
            m
        }
    }

    pub fn nan(&self) -> (b: bool)
        ensures
            b == self.is_nan(),
    {
        self.exec_magnitude() > INFINITY_MAGNITUDE
    }

    /// `self < other`, as binary64 compares.
    pub fn lt(&self, other: &Number) -> (b: bool)
        ensures
            b == self.less_than(*other),
    {
        !self.nan() && !other.nan() && self.exec_order_key() < other.exec_order_key()
    }

    /// `self > other`, as binary64 compares.
    pub fn gt(&self, other: &Number) -> (b: bool)
        ensures
            b == other.less_than(*self),
    {
        other.lt(self)
    }
}

} // verus!
