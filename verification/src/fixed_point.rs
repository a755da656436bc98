//! The 256-bit unsigned fixed-point number at the heart of the core.
//!
//! A [`FixedPoint`] is an unsigned 256-bit integer held as four 64-bit limbs,
//! little-endian. By convention a value `v` represents the real number
//! `v / 10^18`; plain integers (timestamps, iteration counts) use the same
//! type unscaled. The view of a value is the mathematical integer it holds,
//! so every contract in the crate speaks of exact `nat` arithmetic.

use vstd::prelude::*;

verus! {

/// The limb radix `2^64` as an exec constant (used for `u128` carry math).
pub const LIMB: u128 = 0x1_0000_0000_0000_0000;

/// `2^64`, the weight of the second limb.
pub open spec fn b1() -> nat {
    0x1_0000_0000_0000_0000nat
}

/// `2^128`, the weight of the third limb.
pub open spec fn b2() -> nat {
    0x1_0000_0000_0000_0000_0000_0000_0000_0000nat
}

/// `2^192`, the weight of the fourth limb.
pub open spec fn b3() -> nat {
    0x1_0000_0000_0000_0000_0000_0000_0000_0000_0000_0000_0000_0000nat
}

/// `2^256`, one past the largest representable value.
pub open spec fn p256() -> nat {
    0x1_0000_0000_0000_0000_0000_0000_0000_0000_0000_0000_0000_0000_0000_0000_0000_0000nat
}

/// The fixed-point scaling factor `10^18`.
pub open spec fn scale() -> nat {
    1000000000000000000nat
}

/// The fixed-point scaling factor `10^18` as an exec limb.
pub const SCALE_LIMB: u64 = 1000000000000000000;

/// An unsigned 256-bit integer, by convention scaled by `10^18`.
#[derive(Clone, Copy, Debug, PartialEq, Eq, Structural)]
pub struct FixedPoint {
    pub l0: u64,
    pub l1: u64,
    pub l2: u64,
    pub l3: u64,
}

impl View for FixedPoint {
    type V = nat;

    open spec fn view(&self) -> nat {
        (self.l0 + self.l1 * b1() + self.l2 * b2() + self.l3 * b3()) as nat
    }
}

impl FixedPoint {
    /// The value zero.
    pub fn zero() -> (r: FixedPoint)
        ensures
            r@ == 0,
    {
        FixedPoint { l0: 0, l1: 0, l2: 0, l3: 0 }
    }

    /// The fixed-point value one, that is `10^18`.
    pub fn one() -> (r: FixedPoint)
        ensures
            r@ == scale(),
    {
        FixedPoint { l0: SCALE_LIMB, l1: 0, l2: 0, l3: 0 }
    }

    /// The largest representable value, `2^256 - 1`.
    pub fn max_value() -> (r: FixedPoint)
        ensures
            r@ == p256() - 1,
    {
        FixedPoint {
            l0: 0xffff_ffff_ffff_ffff,
            l1: 0xffff_ffff_ffff_ffff,
            l2: 0xffff_ffff_ffff_ffff,
            l3: 0xffff_ffff_ffff_ffff,
        }
    }

    /// Embeds a `u64`.
    pub fn from_u64(x: u64) -> (r: FixedPoint)
        ensures
            r@ == x,
    {
        FixedPoint { l0: x, l1: 0, l2: 0, l3: 0 }
    }

    /// Embeds a `u128`.
    pub fn from_u128(x: u128) -> (r: FixedPoint)
        ensures
            r@ == x,
    {
        let lo: u64 = (x % LIMB) as u64;
        let hi: u64 = (x / LIMB) as u64;
        FixedPoint { l0: lo, l1: hi, l2: 0, l3: 0 }
    }

    /// True exactly when the value is zero.
    pub fn is_zero(&self) -> (r: bool)
        ensures
            r <==> self@ == 0,
    {
        self.l0 == 0 && self.l1 == 0 && self.l2 == 0 && self.l3 == 0
    }

    /// Every value fits below `2^256`.
    pub proof fn lemma_bound(&self)
        ensures
            self@ < p256(),
    {
    }

    /// A value below `2^64` lives entirely in its lowest limb.
    pub proof fn lemma_small(&self)
        requires
            self@ < b1(),
        ensures
            self.l0 == self@,
            self.l1 == 0 && self.l2 == 0 && self.l3 == 0,
    {
    }

    /// Addition with a carry-out flag; the pair encodes the exact sum.
    pub fn overflowing_add(&self, other: &FixedPoint) -> (r: (FixedPoint, bool))
        ensures
            r.0@ + (if r.1 { p256() } else { 0nat }) == self@ + other@,
            r.1 <==> self@ + other@ >= p256(),
    {
        let s0: u128 = self.l0 as u128 + other.l0 as u128;
        let o0: u64 = (s0 % LIMB) as u64;
        let c0: u64 = (s0 / LIMB) as u64;
        let s1: u128 = self.l1 as u128 + other.l1 as u128 + c0 as u128;
        let o1: u64 = (s1 % LIMB) as u64;
        let c1: u64 = (s1 / LIMB) as u64;
        let s2: u128 = self.l2 as u128 + other.l2 as u128 + c1 as u128;
        let o2: u64 = (s2 % LIMB) as u64;
        let c2: u64 = (s2 / LIMB) as u64;
        let s3: u128 = self.l3 as u128 + other.l3 as u128 + c2 as u128;
        let o3: u64 = (s3 % LIMB) as u64;
        let c3: u64 = (s3 / LIMB) as u64;
        let out = FixedPoint { l0: o0, l1: o1, l2: o2, l3: o3 };
        (out, c3 == 1)
    }

    /// Checked addition: `Ok` exactly when the sum fits in 256 bits.
    pub fn checked_add(&self, other: &FixedPoint) -> (r: Result<
        FixedPoint,
        crate::errors::HyperdriveError,
    >)
        ensures
            self@ + other@ < p256() ==> r.is_ok() && r.unwrap()@ == self@ + other@,
            self@ + other@ >= p256() ==> r == Err::<FixedPoint, crate::errors::HyperdriveError>(
                crate::errors::HyperdriveError::Arithmetic,
            ),
    {
        let (out, carry) = self.overflowing_add(other);
        if carry {
            Err(crate::errors::HyperdriveError::Arithmetic)
        } else {
            Ok(out)
        }
    }

    /// Subtraction with a borrow-out flag; the pair encodes the exact
    /// difference modulo `2^256`, and the flag is set exactly when the
    /// subtrahend is larger.
    pub fn overflowing_sub(&self, other: &FixedPoint) -> (r: (FixedPoint, bool))
        ensures
            r.0@ == self@ - other@ + (if r.1 { p256() } else { 0nat }),
            r.1 <==> self@ < other@,
    {
        let t0: u128 = LIMB + self.l0 as u128 - other.l0 as u128;
        let o0: u64 = (t0 % LIMB) as u64;
        let bo0: u64 = 1 - (t0 / LIMB) as u64;
        let t1: u128 = LIMB + self.l1 as u128 - other.l1 as u128 - bo0 as u128;
        let o1: u64 = (t1 % LIMB) as u64;
        let bo1: u64 = 1 - (t1 / LIMB) as u64;
        let t2: u128 = LIMB + self.l2 as u128 - other.l2 as u128 - bo1 as u128;
        let o2: u64 = (t2 % LIMB) as u64;
        let bo2: u64 = 1 - (t2 / LIMB) as u64;
        let t3: u128 = LIMB + self.l3 as u128 - other.l3 as u128 - bo2 as u128;
        let o3: u64 = (t3 % LIMB) as u64;
        let bo3: u64 = 1 - (t3 / LIMB) as u64;
        let out = FixedPoint { l0: o0, l1: o1, l2: o2, l3: o3 };
        (out, bo3 == 1)
    }

    /// Checked subtraction: `Ok` exactly when no underflow occurs.
    pub fn checked_sub(&self, other: &FixedPoint) -> (r: Result<
        FixedPoint,
        crate::errors::HyperdriveError,
    >)
        ensures
            other@ <= self@ ==> r.is_ok() && r.unwrap()@ == self@ - other@,
            other@ > self@ ==> r == Err::<FixedPoint, crate::errors::HyperdriveError>(
                crate::errors::HyperdriveError::Arithmetic,
            ),
    {
        let (out, borrow) = self.overflowing_sub(other);
        if borrow {
            Err(crate::errors::HyperdriveError::Arithmetic)
        } else {
            Ok(out)
        }
    }

    /// Strict comparison.
    pub fn lt(&self, other: &FixedPoint) -> (r: bool)
        ensures
            r <==> self@ < other@,
    {
        let (_, borrow) = self.overflowing_sub(other);
        borrow
    }

    /// Non-strict comparison.
    pub fn le(&self, other: &FixedPoint) -> (r: bool)
        ensures
            r <==> self@ <= other@,
    {
        !other.lt(self)
    }

    /// Strict comparison, flipped.
    pub fn gt(&self, other: &FixedPoint) -> (r: bool)
        ensures
            r <==> self@ > other@,
    {
        other.lt(self)
    }

    /// Non-strict comparison, flipped.
    pub fn ge(&self, other: &FixedPoint) -> (r: bool)
        ensures
            r <==> self@ >= other@,
    {
        !self.lt(other)
    }

    /// Floor division by two.
    pub fn half(&self) -> (r: FixedPoint)
        ensures
            r@ == self@ / 2,
    {
        let o3: u64 = self.l3 / 2;
        let o2: u64 = self.l2 / 2 + (self.l3 % 2) * 0x8000_0000_0000_0000;
        let o1: u64 = self.l1 / 2 + (self.l2 % 2) * 0x8000_0000_0000_0000;
        let o0: u64 = self.l0 / 2 + (self.l1 % 2) * 0x8000_0000_0000_0000;
        let out = FixedPoint { l0: o0, l1: o1, l2: o2, l3: o3 };
        proof {
            assert(out@ * 2 + (self.l0 % 2) == self@);
            vstd::arithmetic::div_mod::lemma_fundamental_div_mod_converse(
                self@ as int,
                2,
                out@ as int,
                (self.l0 % 2) as int,
            );
        }
        out
    }

    /// The smaller of two values.
    pub fn min(&self, other: &FixedPoint) -> (r: FixedPoint)
        ensures
            r@ == if self@ <= other@ { self@ } else { other@ },
    {
        if self.le(other) {
            *self
        } else {
            *other
        }
    }

    /// The larger of two values.
    pub fn max(&self, other: &FixedPoint) -> (r: FixedPoint)
        ensures
            r@ == if self@ >= other@ { self@ } else { other@ },
    {
        if self.ge(other) {
            *self
        } else {
            *other
        }
    }
}

} // verus!
