//! Rounding-directed fixed-point multiply, divide, square root and power.
//!
//! Every operation states its exact result over `nat` arithmetic: `mul_down`
//! is the floor of `a * b / 10^18`, `mul_up` the ceiling, and so on, with
//! `Err(Arithmetic)` exactly when the true result does not fit in 256 bits.
//! `pow` composes an exact square-and-multiply integer power with a
//! square-root digit recurrence for the fractional exponent; its contract
//! pins the result to a spec-level mirror of that recurrence, so equal inputs
//! give bit-identical outputs everywhere.

use vstd::prelude::*;

use crate::errors::HyperdriveError;
use crate::fixed_point::{p256, scale, FixedPoint, SCALE_LIMB};
use crate::wide::{div_rem_wide, isqrt_wide, mul_wide, U512};

verus! {

/// Relates an executable result to its spec-level mirror: same success value
/// or the very same error.
pub open spec fn fp_res_matches(
    r: Result<FixedPoint, HyperdriveError>,
    m: Result<nat, HyperdriveError>,
) -> bool {
    match m {
        Ok(v) => r.is_ok() && r.unwrap()@ == v,
        Err(e) => r == Err::<FixedPoint, HyperdriveError>(e),
    }
}

/// Ceiling division.
pub open spec fn ceil_div(x: nat, d: nat) -> nat {
    if x % d == 0 {
        x / d
    } else {
        x / d + 1
    }
}

/// Spec mirror of `mul_down`: floor of `a * b / 10^18` if it fits.
pub open spec fn smul_down(a: nat, b: nat) -> Result<nat, HyperdriveError> {
    if a * b / scale() < p256() {
        Ok(a * b / scale())
    } else {
        Err(HyperdriveError::Arithmetic)
    }
}

/// Spec mirror of `mul_up`: ceiling of `a * b / 10^18` if it fits.
pub open spec fn smul_up(a: nat, b: nat) -> Result<nat, HyperdriveError> {
    if ceil_div(a * b, scale()) < p256() {
        Ok(ceil_div(a * b, scale()))
    } else {
        Err(HyperdriveError::Arithmetic)
    }
}

/// Spec mirror of `div_down`: floor of `a * 10^18 / b` if defined and fitting.
pub open spec fn sdiv_down(a: nat, b: nat) -> Result<nat, HyperdriveError> {
    if b == 0 {
        Err(HyperdriveError::Arithmetic)
    } else if a * scale() / b < p256() {
        Ok(a * scale() / b)
    } else {
        Err(HyperdriveError::Arithmetic)
    }
}

/// Spec mirror of `div_up`: ceiling of `a * 10^18 / b` if defined and fitting.
pub open spec fn sdiv_up(a: nat, b: nat) -> Result<nat, HyperdriveError> {
    if b == 0 {
        Err(HyperdriveError::Arithmetic)
    } else if ceil_div(a * scale(), b) < p256() {
        Ok(ceil_div(a * scale(), b))
    } else {
        Err(HyperdriveError::Arithmetic)
    }
}

/// Spec mirror of `mul_div_down`: floor of `a * b / c` if defined and fitting.
pub open spec fn smul_div_down(a: nat, b: nat, c: nat) -> Result<nat, HyperdriveError> {
    if c == 0 {
        Err(HyperdriveError::Arithmetic)
    } else if a * b / c < p256() {
        Ok(a * b / c)
    } else {
        Err(HyperdriveError::Arithmetic)
    }
}

/// Spec mirror of `mul_div_up`: ceiling of `a * b / c` if defined and fitting.
pub open spec fn smul_div_up(a: nat, b: nat, c: nat) -> Result<nat, HyperdriveError> {
    if c == 0 {
        Err(HyperdriveError::Arithmetic)
    } else if ceil_div(a * b, c) < p256() {
        Ok(ceil_div(a * b, c))
    } else {
        Err(HyperdriveError::Arithmetic)
    }
}

/// For positive `d`, the quotient reaches `k` exactly when the dividend
/// reaches `k * d`.
pub proof fn lemma_div_ge_iff(x: nat, d: nat, k: nat)
    requires
        d > 0,
    ensures
        (x / d >= k) <==> (x >= k * d),
{
    if x >= k * d {
        vstd::arithmetic::div_mod::lemma_div_is_ordered((k * d) as int, x as int, d as int);
        vstd::arithmetic::div_mod::lemma_div_by_multiple(k as int, d as int);
    }
    if x / d >= k {
        vstd::arithmetic::div_mod::lemma_fundamental_div_mod(x as int, d as int);
        vstd::arithmetic::mul::lemma_mul_inequality(k as int, (x / d) as int, d as int);
        vstd::arithmetic::mul::lemma_mul_is_commutative(d as int, (x / d) as int);
    }
}

/// Exact division of a wide product with an overflow/zero check: `Ok` holds
/// the floor quotient and remainder; `Err` exactly when the divisor is zero
/// or the quotient does not fit in 256 bits.
fn div_rem_checked(n: &U512, d: &FixedPoint) -> (r: Result<
    (FixedPoint, FixedPoint),
    HyperdriveError,
>)
    ensures
        r.is_ok() ==> d@ > 0 && n@ / d@ < p256() && r.unwrap().0@ == n@ / d@ && r.unwrap().1@ == n@
            % d@,
        r.is_err() ==> (d@ == 0 || n@ / d@ >= p256()) && r == Err::<
            (FixedPoint, FixedPoint),
            HyperdriveError,
        >(HyperdriveError::Arithmetic),
{
    if d.is_zero() {
        return Err(HyperdriveError::Arithmetic);
    }
    let (low, high) = n.split();
    if !high.lt(d) {
        proof {
            vstd::arithmetic::mul::lemma_mul_inequality(d@ as int, high@ as int, p256() as int);
            vstd::arithmetic::mul::lemma_mul_is_commutative(high@ as int, p256() as int);
            assert(n@ >= d@ * p256());
            vstd::arithmetic::mul::lemma_mul_is_commutative(d@ as int, p256() as int);
            lemma_div_ge_iff(n@, d@, p256());
        }
        return Err(HyperdriveError::Arithmetic);
    }
    proof {
        assert(high@ + 1 <= d@);
        vstd::arithmetic::mul::lemma_mul_inequality(
            (high@ + 1) as int,
            d@ as int,
            p256() as int,
        );
        assert((high@ + 1) * p256() == high@ * p256() + p256()) by (nonlinear_arith);
        assert(n@ < (high@ + 1) * p256());
        assert(n@ < d@ * p256());
        lemma_div_ge_iff(n@, d@, p256());
    }
    let (q, rem) = div_rem_wide(n, d);
    Ok((q, rem))
}

impl FixedPoint {
    /// `a * b / 10^18`, rounded down. Relies on nothing outside this crate;
    /// the exact floor semantics are the contract.
    pub fn mul_down(&self, other: &FixedPoint) -> (r: Result<FixedPoint, HyperdriveError>)
        ensures
            fp_res_matches(r, smul_down(self@, other@)),
    {
        let n = mul_wide(self, other);
        match div_rem_checked(&n, &FixedPoint::one()) {
            Ok((q, _)) => Ok(q),
            Err(e) => Err(e),
        }
    }

    /// `a * b / 10^18`, rounded up.
    pub fn mul_up(&self, other: &FixedPoint) -> (r: Result<FixedPoint, HyperdriveError>)
        ensures
            fp_res_matches(r, smul_up(self@, other@)),
    {
        let n = mul_wide(self, other);
        match div_rem_checked(&n, &FixedPoint::one()) {
            Ok((q, rem)) => {
                if rem.is_zero() {
                    Ok(q)
                } else {
                    q.checked_add(&FixedPoint::from_u64(1))
                }
            },
            Err(e) => {
                proof {
                    assert(ceil_div(self@ * other@, scale()) >= self@ * other@ / scale());
                }
                Err(e)
            },
        }
    }

    /// `a * 10^18 / b`, rounded down.
    pub fn div_down(&self, other: &FixedPoint) -> (r: Result<FixedPoint, HyperdriveError>)
        ensures
            fp_res_matches(r, sdiv_down(self@, other@)),
    {
        let n = mul_wide(self, &FixedPoint::one());
        match div_rem_checked(&n, other) {
            Ok((q, _)) => Ok(q),
            Err(e) => Err(e),
        }
    }

    /// `a * 10^18 / b`, rounded up.
    pub fn div_up(&self, other: &FixedPoint) -> (r: Result<FixedPoint, HyperdriveError>)
        ensures
            fp_res_matches(r, sdiv_up(self@, other@)),
    {
        let n = mul_wide(self, &FixedPoint::one());
        match div_rem_checked(&n, other) {
            Ok((q, rem)) => {
                if rem.is_zero() {
                    Ok(q)
                } else {
                    q.checked_add(&FixedPoint::from_u64(1))
                }
            },
            Err(e) => {
                proof {
                    if other@ != 0 {
                        assert(ceil_div(self@ * scale(), other@) >= self@ * scale() / other@);
                    }
                }
                Err(e)
            },
        }
    }

    /// `a * b / c`, rounded down.
    pub fn mul_div_down(&self, other: &FixedPoint, denom: &FixedPoint) -> (r: Result<
        FixedPoint,
        HyperdriveError,
    >)
        ensures
            fp_res_matches(r, smul_div_down(self@, other@, denom@)),
    {
        let n = mul_wide(self, other);
        match div_rem_checked(&n, denom) {
            Ok((q, _)) => Ok(q),
            Err(e) => Err(e),
        }
    }

    /// `a * b / c`, rounded up.
    pub fn mul_div_up(&self, other: &FixedPoint, denom: &FixedPoint) -> (r: Result<
        FixedPoint,
        HyperdriveError,
    >)
        ensures
            fp_res_matches(r, smul_div_up(self@, other@, denom@)),
    {
        let n = mul_wide(self, other);
        match div_rem_checked(&n, denom) {
            Ok((q, rem)) => {
                if rem.is_zero() {
                    Ok(q)
                } else {
                    q.checked_add(&FixedPoint::from_u64(1))
                }
            },
            Err(e) => {
                proof {
                    if denom@ != 0 {
                        assert(ceil_div(self@ * other@, denom@) >= self@ * other@ / denom@);
                    }
                }
                Err(e)
            },
        }
    }
}

/// The integer square root of `n`: the unique `r` with `r^2 <= n < (r+1)^2`.
pub open spec fn sqrt_val(n: nat) -> nat {
    choose|r: nat| #[trigger] (r * r) <= n < (r + 1) * (r + 1)
}

/// Two integer square roots of the same value coincide.
proof fn lemma_sqrt_unique(n: nat, r1: nat, r2: nat) by (nonlinear_arith)
    requires
        r1 * r1 <= n < (r1 + 1) * (r1 + 1),
        r2 * r2 <= n < (r2 + 1) * (r2 + 1),
    ensures
        r1 == r2,
{
}

/// A witness pins down `sqrt_val`.
pub proof fn lemma_sqrt_val(n: nat, r: nat)
    requires
        r * r <= n < (r + 1) * (r + 1),
    ensures
        sqrt_val(n) == r,
{
    assert(exists|s: nat| #[trigger] (s * s) <= n < (s + 1) * (s + 1)) by {
        assert(r * r <= n < (r + 1) * (r + 1));
    }
    let s = choose|s: nat| #[trigger] (s * s) <= n < (s + 1) * (s + 1);
    lemma_sqrt_unique(n, s, r);
}

impl FixedPoint {
    /// The fixed-point square root: `sqrt(x)` scaled by `10^18`, rounded
    /// down, that is the integer square root of `x * 10^18`.
    pub fn sqrt(&self) -> (r: FixedPoint)
        ensures
            r@ == sqrt_val(self@ * scale()),
    {
        let n = mul_wide(self, &FixedPoint::one());
        let r = isqrt_wide(&n);
        proof {
            lemma_sqrt_val(self@ * scale(), r@);
        }
        r
    }
}

/// Spec mirror of the square-and-multiply integer power loop: accumulator
/// `r`, current base `b`, remaining exponent `n`, all products rounded down.
pub open spec fn spow_int(r: nat, b: nat, n: nat) -> Result<nat, HyperdriveError>
    decreases n,
{
    if n == 0 {
        Ok(r)
    } else {
        let r2 = if n % 2 == 1 {
            smul_down(r, b)
        } else {
            Ok(r)
        };
        match r2 {
            Err(e) => Err(e),
            Ok(rr) => {
                if n / 2 == 0 {
                    Ok(rr)
                } else {
                    match smul_down(b, b) {
                        Err(e) => Err(e),
                        Ok(bb) => spow_int(rr, bb, n / 2),
                    }
                }
            },
        }
    }
}

/// Spec mirror of the square-root digit recurrence for a fractional
/// exponent `f / 10^18`, processed over `k` binary digits.
pub open spec fn spow_frac(r: nat, b: nat, f: nat, k: nat) -> Result<nat, HyperdriveError>
    decreases k,
{
    if k == 0 {
        Ok(r)
    } else {
        let b2 = sqrt_val(b * scale());
        let f2 = 2 * f;
        if f2 >= scale() {
            match smul_down(r, b2) {
                Err(e) => Err(e),
                Ok(r2) => spow_frac(r2, b2, (f2 - scale()) as nat, (k - 1) as nat),
            }
        } else {
            spow_frac(r, b2, f2, (k - 1) as nat)
        }
    }
}

/// The number of binary digits of the fractional exponent that `pow`
/// consumes.
pub const POW_FRAC_DIGITS: u64 = 60;

/// Spec mirror of `pow`: split the exponent into integer and fractional
/// parts, run the integer power, then the fractional digit recurrence.
/// A zero base with a fractional exponent is outside the domain.
pub open spec fn spow(x: nat, y: nat) -> Result<nat, HyperdriveError> {
    let n: nat = y / scale();
    let f: nat = y % scale();
    if x == 0 && f != 0 {
        Err(HyperdriveError::Domain)
    } else {
        match spow_int(scale(), x, n) {
            Err(e) => Err(e),
            Ok(ri) => if f == 0 {
                Ok(ri)
            } else {
                spow_frac(ri, x, f, POW_FRAC_DIGITS as nat)
            },
        }
    }
}

/// The parity of a value is the parity of its lowest limb.
proof fn lemma_parity(x: FixedPoint)
    ensures
        x@ % 2 == x.l0 % 2,
{
    let k: int = x.l1 * 0x8000_0000_0000_0000 + x.l2
        * 0x8000_0000_0000_0000_0000_0000_0000_0000 + x.l3
        * 0x8000_0000_0000_0000_0000_0000_0000_0000_0000_0000_0000_0000;
    assert(x@ == 2 * k + x.l0);
    vstd::arithmetic::div_mod::lemma_mod_multiples_vanish(k, x.l0 as int, 2);
}

/// Square-and-multiply integer power, mirroring [`spow_int`].
fn pow_int(x: &FixedPoint, n0: &FixedPoint) -> (r: Result<FixedPoint, HyperdriveError>)
    ensures
        fp_res_matches(r, spow_int(scale(), x@, n0@)),
{
    let mut acc = FixedPoint::one();
    let mut base = *x;
    let mut n = *n0;
    while !n.is_zero()
        invariant
            spow_int(acc@, base@, n@) == spow_int(scale(), x@, n0@),
        decreases n@,
    {
        proof {
            lemma_parity(n);
        }
        if n.l0 % 2 == 1 {
            match acc.mul_down(&base) {
                Ok(a2) => {
                    acc = a2;
                },
                Err(e) => {
                    return Err(e);
                },
            }
        }
        let n2 = n.half();
        if n2.is_zero() {
            n = n2;
        } else {
            match base.mul_down(&base) {
                Ok(b2) => {
                    base = b2;
                    n = n2;
                },
                Err(e) => {
                    return Err(e);
                },
            }
        }
    }
    Ok(acc)
}

/// The square-root digit recurrence for the fractional exponent,
/// mirroring [`spow_frac`].
fn pow_frac(r0: &FixedPoint, x: &FixedPoint, f0: u64) -> (r: Result<FixedPoint, HyperdriveError>)
    requires
        f0 < SCALE_LIMB,
    ensures
        fp_res_matches(r, spow_frac(r0@, x@, f0 as nat, POW_FRAC_DIGITS as nat)),
{
    let mut acc = *r0;
    let mut base = *x;
    let mut f: u64 = f0;
    let mut k: u64 = POW_FRAC_DIGITS;
    while k > 0
        invariant
            f < SCALE_LIMB,
            spow_frac(acc@, base@, f as nat, k as nat) == spow_frac(
                r0@,
                x@,
                f0 as nat,
                POW_FRAC_DIGITS as nat,
            ),
        decreases k,
    {
        base = base.sqrt();
        let f2: u64 = 2 * f;
        if f2 >= SCALE_LIMB {
            match acc.mul_down(&base) {
                Ok(a2) => {
                    acc = a2;
                    f = f2 - SCALE_LIMB;
                },
                Err(e) => {
                    return Err(e);
                },
            }
        } else {
            f = f2;
        }
        k = k - 1;
    }
    Ok(acc)
}

impl FixedPoint {
    /// Fixed-point power `x^y` for a fixed-point exponent, via exact
    /// square-and-multiply on the integer part of `y` and a square-root
    /// digit recurrence on its fractional part. Fails with `Domain` for a
    /// zero base with a fractional exponent, and with `Arithmetic` when an
    /// intermediate product overflows.
    pub fn pow(&self, y: &FixedPoint) -> (r: Result<FixedPoint, HyperdriveError>)
        ensures
            fp_res_matches(r, spow(self@, y@)),
    {
        let wide_y = U512::from_fixed(y);
        proof {
            assert(scale() * p256() >= 1 * p256()) by (nonlinear_arith);
            lemma_div_ge_iff(y@, scale(), p256());
            assert(y@ < p256() * scale()) by {
                vstd::arithmetic::mul::lemma_mul_inequality(1, scale() as int, p256() as int);
                vstd::arithmetic::mul::lemma_mul_is_commutative(p256() as int, scale() as int);
            }
        }
        let npart = match div_rem_checked(&wide_y, &FixedPoint::one()) {
            Ok(pair) => pair,
            Err(_) => {
                proof {
                    assert(false);
                }
                return Err(HyperdriveError::Arithmetic);
            },
        };
        let (n, fparts) = npart;
        proof {
            fparts.lemma_small();
        }
        let f: u64 = fparts.l0;
        if self.is_zero() && f != 0 {
            return Err(HyperdriveError::Domain);
        }
        let ri = match pow_int(self, &n) {
            Ok(v) => v,
            Err(e) => {
                return Err(e);
            },
        };
        if f == 0 {
            Ok(ri)
        } else {
            pow_frac(&ri, self, f)
        }
    }
}

} // verus!
