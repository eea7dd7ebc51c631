//! A 256-bit unsigned integer with checked arithmetic.
//!
//! The value is held as four 64-bit limbs, least significant first, so that
//! its mathematical value is a plain spec-level expression over the limbs.
//! The arithmetic itself is delegated to the `primitive-types` crate; the
//! contract of each operation states its exact effect on the mathematical
//! value, and everything built on top of these operations is verified
//! against those contracts.

use vstd::prelude::*;

verus! {

/// 2^256, the first value that does not fit in a [`U256`].
pub open spec fn u256_bound() -> nat {
    0x1_0000_0000_0000_0000_0000_0000_0000_0000_0000_0000_0000_0000_0000_0000_0000_0000nat
}

/// A fixed-width 256-bit unsigned integer, stored as four 64-bit limbs,
/// least significant limb first.
#[derive(Clone, Copy, Debug, PartialEq, Eq, Structural)]
pub struct U256 {
    /// Bits 0 to 63.
    pub w0: u64,
    /// Bits 64 to 127.
    pub w1: u64,
    /// Bits 128 to 191.
    pub w2: u64,
    /// Bits 192 to 255.
    pub w3: u64,
}

impl View for U256 {
    type V = nat;

    /// The mathematical value held by the limbs.
    open spec fn view(&self) -> nat {
        self.w0 as nat + self.w1 as nat * 0x1_0000_0000_0000_0000
            + self.w2 as nat * 0x1_0000_0000_0000_0000_0000_0000_0000_0000
            + self.w3 as nat
                * 0x1_0000_0000_0000_0000_0000_0000_0000_0000_0000_0000_0000_0000nat
    }
}

/// The mathematical value of an optional [`U256`].
pub open spec fn opt_value(r: Option<U256>) -> Option<nat> {
    match r {
        Some(x) => Some(x@),
        None => None,
    }
}

/// The checked sum of two naturals under 2^256: the exact sum where it fits
/// in 256 bits, absent otherwise.
pub open spec fn nat_checked_add(a: nat, b: nat) -> Option<nat> {
    if a + b < u256_bound() {
        Some(a + b)
    } else {
        None
    }
}

/// The checked difference: the exact difference where it is non-negative,
/// absent otherwise.
pub open spec fn nat_checked_sub(a: nat, b: nat) -> Option<nat> {
    if a >= b {
        Some((a - b) as nat)
    } else {
        None
    }
}

/// The checked product: the exact product where it fits in 256 bits, absent
/// otherwise.
pub open spec fn nat_checked_mul(a: nat, b: nat) -> Option<nat> {
    if a * b < u256_bound() {
        Some(a * b)
    } else {
        None
    }
}

/// The checked quotient: the floor of `a / b`, absent when `b` is zero.
pub open spec fn nat_checked_div(a: nat, b: nat) -> Option<nat> {
    if b == 0 {
        None
    } else {
        Some(a / b)
    }
}

impl U256 {
    /// The value of a 64-bit unsigned integer, widened losslessly.
    pub fn from_u64(v: u64) -> (r: U256)
        ensures
            r@ == v as nat,
    {
        U256 { w0: v, w1: 0, w2: 0, w3: 0 }
    }

    /// The largest representable value, 2^256 - 1.
    pub fn max_value() -> (r: U256)
        ensures
            r@ == u256_bound() - 1,
    {
        U256 { w0: u64::MAX, w1: u64::MAX, w2: u64::MAX, w3: u64::MAX }
    }

    /// Whether the value is zero.
    pub fn is_zero(&self) -> (r: bool)
        ensures
            r == (self@ == 0),
    {
        self.w0 == 0 && self.w1 == 0 && self.w2 == 0 && self.w3 == 0
    }

    /// Whether the value is at most one; the solvers use this as their
    /// one-unit convergence tolerance.
    pub fn at_most_one(&self) -> (r: bool)
        ensures
            r == (self@ <= 1),
    {
        self.w0 <= 1 && self.w1 == 0 && self.w2 == 0 && self.w3 == 0
    }

    /// The value as a 64-bit integer, absent where it does not fit.
    pub fn try_to_u64(&self) -> (r: Option<u64>)
        ensures
            match r {
                Some(v) => v as nat == self@,
                None => self@ > u64::MAX as nat,
            },
    {
        if self.w1 == 0 && self.w2 == 0 && self.w3 == 0 {
            Some(self.w0)
        } else {
            None
        }
    }

    /// Relies on `primitive_types::U256::checked_add`: the exact 256-bit sum,
    /// or `None` when the sum does not fit in 256 bits.
    #[verifier::external_body]
    pub(crate) fn checked_add(self, other: U256) -> (r: Option<U256>)
        ensures
            opt_value(r) == nat_checked_add(self@, other@),
    {
        let a = primitive_types::U256([self.w0, self.w1, self.w2, self.w3]);
        let b = primitive_types::U256([other.w0, other.w1, other.w2, other.w3]);
        match a.checked_add(b) {
            Some(c) => Some(U256 { w0: c.0[0], w1: c.0[1], w2: c.0[2], w3: c.0[3] }),
            None => None,
        }
    }

    /// Relies on `primitive_types::U256::checked_sub`: the exact difference,
    /// or `None` when the subtrahend is larger than the minuend.
    #[verifier::external_body]
    pub(crate) fn checked_sub(self, other: U256) -> (r: Option<U256>)
        ensures
            opt_value(r) == nat_checked_sub(self@, other@),
    {
        let a = primitive_types::U256([self.w0, self.w1, self.w2, self.w3]);
        let b = primitive_types::U256([other.w0, other.w1, other.w2, other.w3]);
        match a.checked_sub(b) {
            Some(c) => Some(U256 { w0: c.0[0], w1: c.0[1], w2: c.0[2], w3: c.0[3] }),
            None => None,
        }
    }

    /// Relies on `primitive_types::U256::checked_mul`: the exact 256-bit
    /// product, or `None` when the product does not fit in 256 bits.
    #[verifier::external_body]
    pub(crate) fn checked_mul(self, other: U256) -> (r: Option<U256>)
        ensures
            opt_value(r) == nat_checked_mul(self@, other@),
    {
        let a = primitive_types::U256([self.w0, self.w1, self.w2, self.w3]);
        let b = primitive_types::U256([other.w0, other.w1, other.w2, other.w3]);
        match a.checked_mul(b) {
            Some(c) => Some(U256 { w0: c.0[0], w1: c.0[1], w2: c.0[2], w3: c.0[3] }),
            None => None,
        }
    }

    /// Relies on `primitive_types::U256::checked_div`: the quotient rounded
    /// towards zero, or `None` when the divisor is zero.
    #[verifier::external_body]
    pub(crate) fn checked_div(self, other: U256) -> (r: Option<U256>)
        ensures
            opt_value(r) == nat_checked_div(self@, other@),
    {
        let a = primitive_types::U256([self.w0, self.w1, self.w2, self.w3]);
        let b = primitive_types::U256([other.w0, other.w1, other.w2, other.w3]);
        match a.checked_div(b) {
            Some(c) => Some(U256 { w0: c.0[0], w1: c.0[1], w2: c.0[2], w3: c.0[3] }),
            None => None,
        }
    }
}

} // verus!
