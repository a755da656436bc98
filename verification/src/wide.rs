//! Exact 512-bit helpers behind the fixed-point operations.
//!
//! A 256x256-bit multiplication never loses information here: it lands in a
//! [`U512`]. Division and integer square root then recover exact quotients,
//! remainders and roots by bracketed binary search, so every public
//! fixed-point operation can state floor/ceiling semantics over `nat`.

use vstd::prelude::*;

use crate::fixed_point::{b1, b2, b3, p256, FixedPoint, LIMB};

verus! {

/// `2^320`.
pub open spec fn b5() -> nat {
    0x1_0000_0000_0000_0000_0000_0000_0000_0000_0000_0000_0000_0000_0000_0000_0000_0000_0000_0000_0000_0000nat
}

/// `2^384`.
pub open spec fn b6() -> nat {
    0x1_0000_0000_0000_0000_0000_0000_0000_0000_0000_0000_0000_0000_0000_0000_0000_0000_0000_0000_0000_0000_0000_0000_0000_0000nat
}

/// `2^448`.
pub open spec fn b7() -> nat {
    0x1_0000_0000_0000_0000_0000_0000_0000_0000_0000_0000_0000_0000_0000_0000_0000_0000_0000_0000_0000_0000_0000_0000_0000_0000_0000_0000_0000_0000nat
}

/// `2^512`.
pub open spec fn p512() -> nat {
    0x1_0000_0000_0000_0000_0000_0000_0000_0000_0000_0000_0000_0000_0000_0000_0000_0000_0000_0000_0000_0000_0000_0000_0000_0000_0000_0000_0000_0000_0000_0000_0000_0000nat
}

/// An unsigned 512-bit integer held as eight 64-bit limbs, little-endian.
#[derive(Clone, Copy, Debug, PartialEq, Eq, Structural)]
pub struct U512 {
    pub w0: u64,
    pub w1: u64,
    pub w2: u64,
    pub w3: u64,
    pub w4: u64,
    pub w5: u64,
    pub w6: u64,
    pub w7: u64,
}

impl View for U512 {
    type V = nat;

    open spec fn view(&self) -> nat {
        (self.w0 + self.w1 * b1() + self.w2 * b2() + self.w3 * b3() + self.w4 * p256() + self.w5
            * b5() + self.w6 * b6() + self.w7 * b7()) as nat
    }
}

impl U512 {
    /// Every value fits below `2^512`.
    pub proof fn lemma_bound(&self)
        ensures
            self@ < p512(),
    {
    }

    /// Zero-extends a 256-bit value.
    pub fn from_fixed(x: &FixedPoint) -> (r: U512)
        ensures
            r@ == x@,
    {
        U512 { w0: x.l0, w1: x.l1, w2: x.l2, w3: x.l3, w4: 0, w5: 0, w6: 0, w7: 0 }
    }

    /// The low and high 256-bit halves: `self == low + high * 2^256`.
    pub fn split(&self) -> (r: (FixedPoint, FixedPoint))
        ensures
            r.0@ + r.1@ * p256() == self@,
    {
        (
            FixedPoint { l0: self.w0, l1: self.w1, l2: self.w2, l3: self.w3 },
            FixedPoint { l0: self.w4, l1: self.w5, l2: self.w6, l3: self.w7 },
        )
    }

    /// A value below `2^256` lives entirely in its low half.
    pub fn truncate(&self) -> (r: FixedPoint)
        requires
            self@ < p256(),
        ensures
            r@ == self@,
    {
        FixedPoint { l0: self.w0, l1: self.w1, l2: self.w2, l3: self.w3 }
    }
}

/// Multiply-accumulate step: returns `(lo, hi)` with
/// `acc + x * y + c == lo + hi * 2^64`.
fn mac(acc: u64, x: u64, y: u64, c: u64) -> (r: (u64, u64))
    ensures
        acc + x * y + c == r.0 + r.1 * b1(),
{
    proof {
        vstd::arithmetic::mul::lemma_mul_upper_bound(
            x as int,
            0xffff_ffff_ffff_ffffint,
            y as int,
            0xffff_ffff_ffff_ffffint,
        );
    }
    let t: u128 = acc as u128 + (x as u128) * (y as u128) + c as u128;
    ((t % LIMB) as u64, (t / LIMB) as u64)
}

/// One limb times a full 256-bit value distributes over the limbs.
proof fn lemma_limb_row(a: u64, b0: u64, b1v: u64, b2v: u64, b3v: u64) by (nonlinear_arith)
    ensures
        a * ((b0 + b1v * b1() + b2v * b2() + b3v * b3()) as nat) == a * b0 + (a * b1v) * b1() + (a
            * b2v) * b2() + (a * b3v) * b3(),
{
}

/// A 256-bit value times anything distributes over its limbs.
proof fn lemma_acc_rows(a0: u64, a1: u64, a2: u64, a3: u64, bv: nat) by (nonlinear_arith)
    ensures
        ((a0 + a1 * b1() + a2 * b2() + a3 * b3()) as nat) * bv == a0 * bv + (a1 * bv) * b1() + (a2
            * bv) * b2() + (a3 * bv) * b3(),
{
}

/// Exact widening multiplication: the 512-bit product of two 256-bit values.
pub fn mul_wide(a: &FixedPoint, b: &FixedPoint) -> (r: U512)
    ensures
        r@ == a@ * b@,
{
    let (w0, c) = mac(0, a.l0, b.l0, 0);
    let (w1a, c) = mac(0, a.l0, b.l1, c);
    let (w2a, c) = mac(0, a.l0, b.l2, c);
    let (w3a, c) = mac(0, a.l0, b.l3, c);
    let w4a = c;
    proof {
        lemma_limb_row(a.l0, b.l0, b.l1, b.l2, b.l3);
        assert(w0 + w1a * b1() + w2a * b2() + w3a * b3() + w4a * p256() == a.l0 * b@);
    }
    let (w1, c) = mac(w1a, a.l1, b.l0, 0);
    let (w2b, c) = mac(w2a, a.l1, b.l1, c);
    let (w3b, c) = mac(w3a, a.l1, b.l2, c);
    let (w4b, c) = mac(w4a, a.l1, b.l3, c);
    let w5a = c;
    proof {
        lemma_limb_row(a.l1, b.l0, b.l1, b.l2, b.l3);
        assert(w0 + w1 * b1() + w2b * b2() + w3b * b3() + w4b * p256() + w5a * b5() == a.l0 * b@ + (
        a.l1 * b@) * b1());
    }
    let (w2, c) = mac(w2b, a.l2, b.l0, 0);
    let (w3c, c) = mac(w3b, a.l2, b.l1, c);
    let (w4c, c) = mac(w4b, a.l2, b.l2, c);
    let (w5b, c) = mac(w5a, a.l2, b.l3, c);
    let w6a = c;
    proof {
        lemma_limb_row(a.l2, b.l0, b.l1, b.l2, b.l3);
        assert(w0 + w1 * b1() + w2 * b2() + w3c * b3() + w4c * p256() + w5b * b5() + w6a * b6()
            == a.l0 * b@ + (a.l1 * b@) * b1() + (a.l2 * b@) * b2());
    }
    let (w3, c) = mac(w3c, a.l3, b.l0, 0);
    let (w4, c) = mac(w4c, a.l3, b.l1, c);
    let (w5, c) = mac(w5b, a.l3, b.l2, c);
    let (w6, c) = mac(w6a, a.l3, b.l3, c);
    let w7 = c;
    let out = U512 { w0, w1, w2, w3, w4, w5, w6, w7 };
    proof {
        lemma_limb_row(a.l3, b.l0, b.l1, b.l2, b.l3);
        assert(out@ == a.l0 * b@ + (a.l1 * b@) * b1() + (a.l2 * b@) * b2() + (a.l3 * b@) * b3());
        lemma_acc_rows(a.l0, a.l1, a.l2, a.l3, b@);
    }
    out
}

/// Subtraction with a borrow-out flag; the pair encodes the exact
/// difference modulo `2^512`.
pub fn sub_wide(a: &U512, b: &U512) -> (r: (U512, bool))
    ensures
        r.0@ == a@ - b@ + (if r.1 { p512() } else { 0nat }),
        r.1 <==> a@ < b@,
{
    let t0: u128 = LIMB + a.w0 as u128 - b.w0 as u128;
    let o0: u64 = (t0 % LIMB) as u64;
    let bo0: u64 = 1 - (t0 / LIMB) as u64;
    let t1: u128 = LIMB + a.w1 as u128 - b.w1 as u128 - bo0 as u128;
    let o1: u64 = (t1 % LIMB) as u64;
    let bo1: u64 = 1 - (t1 / LIMB) as u64;
    let t2: u128 = LIMB + a.w2 as u128 - b.w2 as u128 - bo1 as u128;
    let o2: u64 = (t2 % LIMB) as u64;
    let bo2: u64 = 1 - (t2 / LIMB) as u64;
    let t3: u128 = LIMB + a.w3 as u128 - b.w3 as u128 - bo2 as u128;
    let o3: u64 = (t3 % LIMB) as u64;
    let bo3: u64 = 1 - (t3 / LIMB) as u64;
    let t4: u128 = LIMB + a.w4 as u128 - b.w4 as u128 - bo3 as u128;
    let o4: u64 = (t4 % LIMB) as u64;
    let bo4: u64 = 1 - (t4 / LIMB) as u64;
    let t5: u128 = LIMB + a.w5 as u128 - b.w5 as u128 - bo4 as u128;
    let o5: u64 = (t5 % LIMB) as u64;
    let bo5: u64 = 1 - (t5 / LIMB) as u64;
    let t6: u128 = LIMB + a.w6 as u128 - b.w6 as u128 - bo5 as u128;
    let o6: u64 = (t6 % LIMB) as u64;
    let bo6: u64 = 1 - (t6 / LIMB) as u64;
    let t7: u128 = LIMB + a.w7 as u128 - b.w7 as u128 - bo6 as u128;
    let o7: u64 = (t7 % LIMB) as u64;
    let bo7: u64 = 1 - (t7 / LIMB) as u64;
    let out = U512 { w0: o0, w1: o1, w2: o2, w3: o3, w4: o4, w5: o5, w6: o6, w7: o7 };
    (out, bo7 == 1)
}

/// Non-strict 512-bit comparison.
pub fn le_wide(a: &U512, b: &U512) -> (r: bool)
    ensures
        r <==> a@ <= b@,
{
    let (_, borrow) = sub_wide(b, a);
    !borrow
}

/// Exact division of a 512-bit dividend by a 256-bit divisor, by bracketed
/// binary search on the quotient. The quotient must fit in 256 bits.
pub fn div_rem_wide(n: &U512, d: &FixedPoint) -> (r: (FixedPoint, FixedPoint))
    requires
        d@ > 0,
        n@ < d@ * p256(),
    ensures
        r.0@ == n@ / d@,
        r.1@ == n@ % d@,
        r.0@ * d@ + r.1@ == n@,
        r.1@ < d@,
{
    let mut lo = FixedPoint::zero();
    let mut hi = FixedPoint::max_value();
    proof {
        assert((p256() - 1) as nat * d@ + d@ == p256() * d@) by (nonlinear_arith);
        assert(d@ * p256() == p256() * d@) by (nonlinear_arith);
    }
    while lo.lt(&hi)
        invariant
            lo@ <= hi@,
            lo@ * d@ <= n@,
            n@ < (hi@ + 1) * d@,
            d@ > 0,
        decreases hi@ - lo@,
    {
        let diff = hi.overflowing_sub(&lo).0;
        let hd = diff.half();
        let mid = hi.overflowing_sub(&hd).0;
        proof {
            assert(hd@ <= diff@);
            assert(mid@ == hi@ - hd@);
            assert(lo@ < mid@ <= hi@);
        }
        let p = mul_wide(&mid, d);
        let fits = le_wide(&p, n);
        if fits {
            lo = mid;
        } else {
            let mid1 = mid.overflowing_sub(&FixedPoint::from_u64(1)).0;
            proof {
                assert(mid@ >= 1);
                assert((mid1@ + 1) * d@ == mid@ * d@);
            }
            hi = mid1;
        }
    }
    let q = lo;
    let p = mul_wide(&q, d);
    let (rem_wide, borrow) = sub_wide(n, &p);
    proof {
        assert(!borrow);
        assert((q@ + 1) * d@ == q@ * d@ + d@) by (nonlinear_arith);
        assert(rem_wide@ == n@ - q@ * d@);
        assert(rem_wide@ < d@);
        assert(rem_wide@ < p256());
        vstd::arithmetic::div_mod::lemma_fundamental_div_mod_converse(
            n@ as int,
            d@ as int,
            q@ as int,
            (n@ - q@ * d@) as int,
        );
    }
    let rem = rem_wide.truncate();
    (q, rem)
}

/// Exact integer square root of a 512-bit value, by bracketed binary search.
pub fn isqrt_wide(n: &U512) -> (r: FixedPoint)
    ensures
        r@ * r@ <= n@,
        n@ < (r@ + 1) * (r@ + 1),
{
    let mut lo = FixedPoint::zero();
    let mut hi = FixedPoint::max_value();
    proof {
        n.lemma_bound();
        assert(((p256() - 1) as nat + 1) * ((p256() - 1) as nat + 1) == p512()) by (nonlinear_arith);
    }
    while lo.lt(&hi)
        invariant
            lo@ <= hi@,
            lo@ * lo@ <= n@,
            n@ < (hi@ + 1) * (hi@ + 1),
        decreases hi@ - lo@,
    {
        let diff = hi.overflowing_sub(&lo).0;
        let hd = diff.half();
        let mid = hi.overflowing_sub(&hd).0;
        proof {
            assert(hd@ <= diff@);
            assert(lo@ < mid@ <= hi@);
        }
        let p = mul_wide(&mid, &mid);
        let fits = le_wide(&p, n);
        if fits {
            lo = mid;
        } else {
            let mid1 = mid.overflowing_sub(&FixedPoint::from_u64(1)).0;
            proof {
                assert(mid@ >= 1);
                assert((mid1@ + 1) * (mid1@ + 1) == mid@ * mid@);
            }
            hi = mid1;
        }
    }
    lo
}

} // verus!
