//! The library's laws: properties proved once, over the spec mirrors that
//! every executable operation is pinned to by its contract.

use vstd::prelude::*;

use crate::errors::HyperdriveError;
use crate::fees::{s_close_long_flat_fee, s_curve_fee};
use crate::fixed_point::{p256, scale};
use crate::fixed_ops::{sdiv_down, smul_down, smul_up, spow};
use crate::long::{s_close_long, s_flat_redemption, s_open_long};
use crate::max::{s_max_long_search, s_solvency_after_long, lemma_max_long_search_sound};
use crate::rates::s_spot_rate;
use crate::short::{s_close_short, s_open_short};
use crate::state::StateV;
use crate::solvency::s_present_value;
use crate::yield_space::{s_state_bonds_out_given_shares_in_down,
    s_state_shares_out_given_bonds_in_down, s_state_spot_price, ssub};

verus! {

/// Determinism: identical snapshots and arguments produce identical
/// results. Every executable operation's contract pins its result to the
/// spec function named here, and each spec function is a mathematical
/// function of the snapshot and arguments alone, so two calls on equal
/// inputs return bit-identical fixed-point values or the same error.
pub proof fn lemma_deterministic(
    s1: StateV,
    s2: StateV,
    x1: nat,
    x2: nat,
    y1: nat,
    y2: nat,
    z1: nat,
    z2: nat,
)
    requires
        s1 == s2,
        x1 == x2,
        y1 == y2,
        z1 == z2,
    ensures
        s_state_spot_price(s1) == s_state_spot_price(s2),
        s_spot_rate(s1) == s_spot_rate(s2),
        s_open_long(s1, x1) == s_open_long(s2, x2),
        s_close_long(s1, x1, y1) == s_close_long(s2, x2, y2),
        s_open_short(s1, x1, y1, z1) == s_open_short(s2, x2, y2, z2),
        s_close_short(s1, x1, y1, z1, 0) == s_close_short(s2, x2, y2, z2, 0),
        s_present_value(s1, x1) == s_present_value(s2, x2),
{
}

/// Boundary behavior, matured side: closing a long whose normalized time
/// remaining is zero pays exactly the pure flat redemption — the bonds
/// less the flat fee, converted at the vault share price — with no curve
/// fee and no curve trade.
pub proof fn lemma_close_long_matured(s: StateV, bond_amount: nat)
    requires
        s.wf(),
    ensures
        s_close_long(s, bond_amount, 0) == s_flat_redemption(s, bond_amount),
{
    assert(smul_down(bond_amount, (scale() - 0) as nat) == smul_down(bond_amount, scale()));
    assert(bond_amount * 0 == 0) by (nonlinear_arith);
    assert(smul_down(bond_amount, 0) == Ok::<nat, HyperdriveError>(0));
}

/// The pure curve trade that closing a fresh long amounts to: the curve
/// fee comes off the bonds, the remainder runs through the curve; zero
/// bonds trade to zero shares without touching the curve.
pub open spec fn s_curve_redemption(s: StateV, bond_amount: nat) -> Result<
    nat,
    HyperdriveError,
> {
    if bond_amount == 0 {
        Ok(0)
    } else {
        match s_state_spot_price(s) {
            Err(e) => Err(e),
            Ok(p) => match s_curve_fee(p, s.config.fees.curve, bond_amount) {
                Err(e) => Err(e),
                Ok(curve_fee) => match ssub(bond_amount, curve_fee) {
                    Err(e) => Err(e),
                    Ok(net) => s_state_shares_out_given_bonds_in_down(s, net),
                },
            },
        }
    }
}

/// Whenever the curve pays shares out, the amount is below `2^256` for a
/// bounded snapshot.
proof fn lemma_shares_out_bound(s: StateV, dy: nat)
    requires
        s.bounded(),
    ensures
        s_state_shares_out_given_bonds_in_down(s, dy).is_ok()
            ==> s_state_shares_out_given_bonds_in_down(s, dy).unwrap() < p256(),
{
}

/// Boundary behavior, fresh side: closing a long whose normalized time
/// remaining is one pays exactly the pure curve trade — no flat fee
/// contribution at all.
pub proof fn lemma_close_long_fresh(s: StateV, bond_amount: nat)
    requires
        s.wf(),
        s.bounded(),
        bond_amount < p256(),
    ensures
        s_close_long(s, bond_amount, scale()) == s_curve_redemption(s, bond_amount),
{
    assert(bond_amount * 0 == 0) by (nonlinear_arith);
    assert(smul_down(bond_amount, (scale() - scale()) as nat) == Ok::<nat, HyperdriveError>(0));
    assert(smul_up(s.config.fees.flat, 0) == Ok::<nat, HyperdriveError>(0)) by {
        assert(s.config.fees.flat * 0 == 0) by (nonlinear_arith);
    }
    assert(s_close_long_flat_fee(s, bond_amount, scale()) == Ok::<nat, HyperdriveError>(0));
    vstd::arithmetic::div_mod::lemma_div_by_multiple(bond_amount as int, scale() as int);
    assert(smul_down(bond_amount, scale()) == Ok::<nat, HyperdriveError>(bond_amount));
    assert(0 * scale() == 0) by (nonlinear_arith);
    assert(sdiv_down(0, s.info.vault_share_price) == Ok::<nat, HyperdriveError>(0));
    if bond_amount != 0 {
        let pr = s_state_spot_price(s);
        if pr.is_ok() {
            let fee = s_curve_fee(pr.unwrap(), s.config.fees.curve, bond_amount);
            if fee.is_ok() && fee.unwrap() <= bond_amount {
                lemma_shares_out_bound(s, (bond_amount - fee.unwrap()) as nat);
            }
        }
    }
}

/// Floor multiplication is monotone in both factors, and an overflow on
/// the smaller inputs would force one on the larger.
pub proof fn lemma_smul_down_mono(a1: nat, b1: nat, a2: nat, b2: nat)
    requires
        a1 <= a2,
        b1 <= b2,
        smul_down(a2, b2).is_ok(),
    ensures
        smul_down(a1, b1).is_ok(),
        smul_down(a1, b1).unwrap() <= smul_down(a2, b2).unwrap(),
{
    vstd::arithmetic::mul::lemma_mul_upper_bound(a1 as int, a2 as int, b1 as int, b2 as int);
    vstd::arithmetic::div_mod::lemma_div_is_ordered(
        (a1 * b1) as int,
        (a2 * b2) as int,
        scale() as int,
    );
}

/// Floor division is monotone in the dividend.
pub proof fn lemma_sdiv_down_mono(a1: nat, a2: nat, b: nat)
    requires
        a1 <= a2,
        sdiv_down(a2, b).is_ok(),
    ensures
        sdiv_down(a1, b).is_ok(),
        sdiv_down(a1, b).unwrap() <= sdiv_down(a2, b).unwrap(),
{
    vstd::arithmetic::mul::lemma_mul_inequality(a1 as int, a2 as int, scale() as int);
    vstd::arithmetic::div_mod::lemma_div_is_ordered(
        (a1 * scale()) as int,
        (a2 * scale()) as int,
        b as int,
    );
}

/// Ceiling division is monotone in the dividend.
pub proof fn lemma_sdiv_up_mono(a1: nat, a2: nat, b: nat)
    requires
        a1 <= a2,
        crate::fixed_ops::sdiv_up(a2, b).is_ok(),
    ensures
        crate::fixed_ops::sdiv_up(a1, b).is_ok(),
        crate::fixed_ops::sdiv_up(a1, b).unwrap() <= crate::fixed_ops::sdiv_up(a2, b).unwrap(),
{
    vstd::arithmetic::mul::lemma_mul_inequality(a1 as int, a2 as int, scale() as int);
    vstd::arithmetic::div_mod::lemma_div_is_ordered(
        (a1 * scale()) as int,
        (a2 * scale()) as int,
        b as int,
    );
    vstd::arithmetic::div_mod::lemma_fundamental_div_mod((a1 * scale()) as int, b as int);
    vstd::arithmetic::div_mod::lemma_fundamental_div_mod((a2 * scale()) as int, b as int);
}

/// An integer square root exists for every value.
proof fn lemma_sqrt_exists(n: nat)
    ensures
        exists|r: nat| #[trigger] (r * r) <= n < (r + 1) * (r + 1),
    decreases n,
{
    if n == 0 {
        assert(0 * 0 <= n < (0 + 1) * (0 + 1)) by (nonlinear_arith)
            requires
                n == 0,
        ;
    } else {
        lemma_sqrt_exists((n - 1) as nat);
        let r = choose|r: nat| #[trigger] (r * r) <= n - 1 < (r + 1) * (r + 1);
        if n < (r + 1) * (r + 1) {
            assert(r * r <= n < (r + 1) * (r + 1));
        } else {
            assert(n == (r + 1) * (r + 1));
            assert((r + 1) * (r + 1) < (r + 2) * (r + 2)) by (nonlinear_arith);
            assert((r + 1) * (r + 1) <= n < ((r + 1) + 1) * ((r + 1) + 1));
        }
    }
}

/// `sqrt_val` satisfies its defining bracket.
pub proof fn lemma_sqrt_val_spec(n: nat)
    ensures
        crate::fixed_ops::sqrt_val(n) * crate::fixed_ops::sqrt_val(n) <= n,
        n < (crate::fixed_ops::sqrt_val(n) + 1) * (crate::fixed_ops::sqrt_val(n) + 1),
{
    lemma_sqrt_exists(n);
}

/// The integer square root is monotone.
pub proof fn lemma_sqrt_mono(n1: nat, n2: nat)
    requires
        n1 <= n2,
    ensures
        crate::fixed_ops::sqrt_val(n1) <= crate::fixed_ops::sqrt_val(n2),
{
    lemma_sqrt_val_spec(n1);
    lemma_sqrt_val_spec(n2);
    let r1 = crate::fixed_ops::sqrt_val(n1);
    let r2 = crate::fixed_ops::sqrt_val(n2);
    if r1 > r2 {
        assert((r2 + 1) * (r2 + 1) <= r1 * r1) by (nonlinear_arith)
            requires
                r2 + 1 <= r1,
        ;
    }
}

/// The square-and-multiply integer power is monotone in its accumulator
/// and base.
proof fn lemma_spow_int_mono(r1: nat, b1: nat, r2: nat, b2: nat, n: nat)
    requires
        r1 <= r2,
        b1 <= b2,
        crate::fixed_ops::spow_int(r2, b2, n).is_ok(),
    ensures
        crate::fixed_ops::spow_int(r1, b1, n).is_ok(),
        crate::fixed_ops::spow_int(r1, b1, n).unwrap() <= crate::fixed_ops::spow_int(
            r2,
            b2,
            n,
        ).unwrap(),
    decreases n,
{
    if n == 0 {
    } else {
        let r1b: nat = if n % 2 == 1 {
            lemma_smul_down_mono(r1, b1, r2, b2);
            smul_down(r1, b1).unwrap()
        } else {
            r1
        };
        let r2b: nat = if n % 2 == 1 {
            smul_down(r2, b2).unwrap()
        } else {
            r2
        };
        if n / 2 == 0 {
        } else {
            lemma_smul_down_mono(b1, b1, b2, b2);
            lemma_spow_int_mono(
                r1b,
                smul_down(b1, b1).unwrap(),
                r2b,
                smul_down(b2, b2).unwrap(),
                n / 2,
            );
        }
    }
}

/// The fractional-exponent digit recurrence is monotone in its
/// accumulator and base.
proof fn lemma_spow_frac_mono(r1: nat, b1: nat, r2: nat, b2: nat, f: nat, k: nat)
    requires
        r1 <= r2,
        b1 <= b2,
        crate::fixed_ops::spow_frac(r2, b2, f, k).is_ok(),
    ensures
        crate::fixed_ops::spow_frac(r1, b1, f, k).is_ok(),
        crate::fixed_ops::spow_frac(r1, b1, f, k).unwrap() <= crate::fixed_ops::spow_frac(
            r2,
            b2,
            f,
            k,
        ).unwrap(),
    decreases k,
{
    if k == 0 {
    } else {
        vstd::arithmetic::mul::lemma_mul_inequality(b1 as int, b2 as int, scale() as int);
        lemma_sqrt_mono(b1 * scale(), b2 * scale());
        let b1n = crate::fixed_ops::sqrt_val(b1 * scale());
        let b2n = crate::fixed_ops::sqrt_val(b2 * scale());
        let f2: nat = 2 * f;
        if f2 >= scale() {
            lemma_smul_down_mono(r1, b1n, r2, b2n);
            lemma_spow_frac_mono(
                smul_down(r1, b1n).unwrap(),
                b1n,
                smul_down(r2, b2n).unwrap(),
                b2n,
                (f2 - scale()) as nat,
                (k - 1) as nat,
            );
        } else {
            lemma_spow_frac_mono(r1, b1n, r2, b2n, f2, (k - 1) as nat);
        }
    }
}

/// The fixed-point power is monotone in its base: for a fixed exponent,
/// a larger base never yields a smaller power when both succeed.
pub proof fn lemma_spow_mono(x1: nat, x2: nat, y: nat)
    requires
        x1 <= x2,
        spow(x1, y).is_ok(),
        spow(x2, y).is_ok(),
    ensures
        spow(x1, y).unwrap() <= spow(x2, y).unwrap(),
{
    let n: nat = y / scale();
    let f: nat = y % scale();
    lemma_spow_int_mono(scale(), x1, scale(), x2, n);
    if f != 0 {
        lemma_spow_frac_mono(
            crate::fixed_ops::spow_int(scale(), x1, n).unwrap(),
            x1,
            crate::fixed_ops::spow_int(scale(), x2, n).unwrap(),
            x2,
            f,
            crate::fixed_ops::POW_FRAC_DIGITS as nat,
        );
    }
}

/// Monotonicity of the curve's long leg: the bonds the curve pays out
/// never shrink as the shares paid in grow, whenever both trades are
/// defined. The full open-long result additionally subtracts fees; the
/// fee-inclusive monotonicity is exercised by tests.
pub proof fn lemma_bonds_out_monotone(s: StateV, dz1: nat, dz2: nat)
    requires
        dz1 <= dz2,
        s_state_bonds_out_given_shares_in_down(s, dz1).is_ok(),
        s_state_bonds_out_given_shares_in_down(s, dz2).is_ok(),
    ensures
        s_state_bonds_out_given_shares_in_down(s, dz1).unwrap()
            <= s_state_bonds_out_given_shares_in_down(s, dz2).unwrap(),
{
    let ze = crate::yield_space::s_state_ze(s).unwrap();
    let y = s.info.bond_reserves;
    let c = s.info.vault_share_price;
    let mu = s.config.initial_vault_share_price;
    let ts = s.config.time_stretch;
    let om = (scale() - ts) as nat;
    let k = crate::yield_space::s_k(ze, y, c, mu, ts, true).unwrap();
    let mze1 = smul_down(mu, (ze + dz1) as nat);
    let mze2 = smul_down(mu, (ze + dz2) as nat);
    lemma_smul_down_mono(mu, (ze + dz1) as nat, mu, (ze + dz2) as nat);
    lemma_spow_mono(mze1.unwrap(), mze2.unwrap(), om);
    let cdm = sdiv_down(c, mu).unwrap();
    lemma_smul_down_mono(cdm, spow(mze1.unwrap(), om).unwrap(), cdm, spow(mze2.unwrap(), om).unwrap());
    let t1a = smul_down(cdm, spow(mze1.unwrap(), om).unwrap()).unwrap();
    let t1b = smul_down(cdm, spow(mze2.unwrap(), om).unwrap()).unwrap();
    let recip = sdiv_down(scale(), om).unwrap();
    lemma_spow_mono((k - t1b) as nat, (k - t1a) as nat, recip);
}

/// Monotonicity of the gross long leg from base: converting base to
/// shares and running the curve is non-decreasing in the base amount,
/// whenever both trades are defined.
pub proof fn lemma_gross_long_monotone(s: StateV, base1: nat, base2: nat)
    requires
        base1 <= base2,
        sdiv_down(base1, s.info.vault_share_price).is_ok(),
        sdiv_down(base2, s.info.vault_share_price).is_ok(),
        s_state_bonds_out_given_shares_in_down(
            s,
            sdiv_down(base1, s.info.vault_share_price).unwrap(),
        ).is_ok(),
        s_state_bonds_out_given_shares_in_down(
            s,
            sdiv_down(base2, s.info.vault_share_price).unwrap(),
        ).is_ok(),
    ensures
        s_state_bonds_out_given_shares_in_down(
            s,
            sdiv_down(base1, s.info.vault_share_price).unwrap(),
        ).unwrap() <= s_state_bonds_out_given_shares_in_down(
            s,
            sdiv_down(base2, s.info.vault_share_price).unwrap(),
        ).unwrap(),
{
    lemma_sdiv_down_mono(base1, base2, s.info.vault_share_price);
    lemma_bonds_out_monotone(
        s,
        sdiv_down(base1, s.info.vault_share_price).unwrap(),
        sdiv_down(base2, s.info.vault_share_price).unwrap(),
    );
}

/// The integer power with a unit accumulator and base stays at one.
proof fn lemma_spow_int_unit(n: nat)
    ensures
        crate::fixed_ops::spow_int(scale(), scale(), n) == Ok::<nat, HyperdriveError>(scale()),
    decreases n,
{
    vstd::arithmetic::div_mod::lemma_div_by_multiple(scale() as int, scale() as int);
    assert(smul_down(scale(), scale()) == Ok::<nat, HyperdriveError>(scale()));
    if n > 0 && n / 2 > 0 {
        lemma_spow_int_unit(n / 2);
    }
}

/// The digit recurrence with a unit accumulator and base stays at one.
proof fn lemma_spow_frac_unit(f: nat, k: nat)
    ensures
        crate::fixed_ops::spow_frac(scale(), scale(), f, k) == Ok::<nat, HyperdriveError>(
            scale(),
        ),
    decreases k,
{
    if k > 0 {
        assert((scale() + 1) * (scale() + 1) > scale() * scale()) by (nonlinear_arith);
        crate::fixed_ops::lemma_sqrt_val(scale() * scale(), scale());
        vstd::arithmetic::div_mod::lemma_div_by_multiple(scale() as int, scale() as int);
        assert(smul_down(scale(), scale()) == Ok::<nat, HyperdriveError>(scale()));
        let f2: nat = 2 * f;
        if f2 >= scale() {
            lemma_spow_frac_unit((f2 - scale()) as nat, (k - 1) as nat);
        } else {
            lemma_spow_frac_unit(f2, (k - 1) as nat);
        }
    }
}

/// A power of one is one, exactly, for every exponent.
pub proof fn lemma_spow_unit_base(y: nat)
    ensures
        spow(scale(), y) == Ok::<nat, HyperdriveError>(scale()),
{
    lemma_spow_int_unit(y / scale());
    if y % scale() != 0 {
        lemma_spow_frac_unit(y % scale(), crate::fixed_ops::POW_FRAC_DIGITS as nat);
    }
}

/// A zero exponent returns one, exactly, for every base.
pub proof fn lemma_spow_zero_exponent(x: nat)
    ensures
        spow(x, 0) == Ok::<nat, HyperdriveError>(scale()),
{
}

/// A unit exponent returns the base, exactly.
pub proof fn lemma_spow_unit_exponent(x: nat)
    requires
        x < p256(),
    ensures
        spow(x, scale()) == Ok::<nat, HyperdriveError>(x),
{
    vstd::arithmetic::div_mod::lemma_div_by_multiple(x as int, scale() as int);
    assert(smul_down(scale(), x) == Ok::<nat, HyperdriveError>(x)) by {
        assert(scale() * x == x * scale()) by (nonlinear_arith);
    }
    assert(scale() / scale() == 1) by {
        vstd::arithmetic::div_mod::lemma_div_by_multiple(1, scale() as int);
    }
    assert(crate::fixed_ops::spow_int(scale(), x, 1) == Ok::<nat, HyperdriveError>(x));
}

/// Concrete scenario, degenerate full-curve case: with a unit initial
/// vault share price, twice the bonds in effective shares, and a unit
/// time stretch, the spot price is exactly two.
pub proof fn lemma_spot_price_full_stretch()
    ensures
        crate::yield_space::s_spot_price(2 * scale(), scale(), scale(), scale())
            == Ok::<nat, HyperdriveError>(2 * scale()),
{
    vstd::arithmetic::div_mod::lemma_div_by_multiple((2 * scale()) as int, scale() as int);
    assert(smul_down(scale(), 2 * scale()) == Ok::<nat, HyperdriveError>(2 * scale())) by {
        assert(scale() * (2 * scale()) == (2 * scale()) * scale()) by (nonlinear_arith);
    }
    assert(sdiv_down(2 * scale(), scale()) == Ok::<nat, HyperdriveError>(2 * scale()));
    lemma_spow_unit_exponent(2 * scale());
}

/// Concrete scenario, balanced case: with equal unit reserves the spot
/// price is exactly one, whatever the time stretch.
pub proof fn lemma_spot_price_balanced(ts: nat)
    ensures
        crate::yield_space::s_spot_price(scale(), scale(), scale(), ts)
            == Ok::<nat, HyperdriveError>(scale()),
{
    vstd::arithmetic::div_mod::lemma_div_by_multiple(scale() as int, scale() as int);
    assert(smul_down(scale(), scale()) == Ok::<nat, HyperdriveError>(scale()));
    assert(sdiv_down(scale(), scale()) == Ok::<nat, HyperdriveError>(scale()));
    lemma_spow_unit_base(ts);
}

/// Monotonicity of the curve's short leg: the shares the curve pays out
/// never shrink as the bonds paid in grow, whenever both trades are
/// defined.
pub proof fn lemma_shares_out_monotone(s: StateV, dy1: nat, dy2: nat)
    requires
        dy1 <= dy2,
        s_state_shares_out_given_bonds_in_down(s, dy1).is_ok(),
        s_state_shares_out_given_bonds_in_down(s, dy2).is_ok(),
    ensures
        s_state_shares_out_given_bonds_in_down(s, dy1).unwrap()
            <= s_state_shares_out_given_bonds_in_down(s, dy2).unwrap(),
{
    let ze = crate::yield_space::s_state_ze(s).unwrap();
    let y = s.info.bond_reserves;
    let c = s.info.vault_share_price;
    let mu = s.config.initial_vault_share_price;
    let ts = s.config.time_stretch;
    let om = (scale() - ts) as nat;
    let k = crate::yield_space::s_k(ze, y, c, mu, ts, true).unwrap();
    lemma_spow_mono((y + dy1) as nat, (y + dy2) as nat, om);
    let py1 = spow((y + dy1) as nat, om).unwrap();
    let py2 = spow((y + dy2) as nat, om).unwrap();
    let cdm = crate::fixed_ops::sdiv_up(c, mu).unwrap();
    lemma_sdiv_down_mono((k - py2) as nat, (k - py1) as nat, cdm);
    let recip = sdiv_down(scale(), om).unwrap();
    lemma_spow_mono(
        sdiv_down((k - py2) as nat, cdm).unwrap(),
        sdiv_down((k - py1) as nat, cdm).unwrap(),
        recip,
    );
    lemma_sdiv_up_mono(
        spow(sdiv_down((k - py2) as nat, cdm).unwrap(), recip).unwrap(),
        spow(sdiv_down((k - py1) as nat, cdm).unwrap(), recip).unwrap(),
        mu,
    );
}

/// Solvency enforcement, short side: whatever the bracket, budget,
/// checkpoint exposure and iteration budget, the max-short search returns
/// zero or a bond amount that can be opened, funded by the budget, with
/// the pool staying solvent.
pub proof fn lemma_max_short_feasible(
    s: StateV,
    p: nat,
    c0: nat,
    budget: nat,
    cp: int,
    hi: nat,
    pt: nat,
    it: nat,
)
    ensures
        crate::max::s_max_short_search(s, p, c0, budget, cp, 0, hi, 0, pt, it).0 <= hi,
        crate::max::s_max_short_search(s, p, c0, budget, cp, 0, hi, 0, pt, it).0 == 0
            || crate::max::s_short_feasible(
            s,
            crate::max::s_max_short_search(s, p, c0, budget, cp, 0, hi, 0, pt, it).0,
            p,
            c0,
            budget,
            cp,
        ),
{
    crate::max::lemma_max_short_search_sound(s, p, c0, budget, cp, 0, hi, 0, pt, it);
}

/// Solvency enforcement: whatever the budget, checkpoint exposure,
/// precision threshold and iteration budget, the max-long search returns
/// zero or an amount whose hypothetical open long leaves the pool's
/// solvency margin non-negative, and never more than the budget.
pub proof fn lemma_max_long_solvent(s: StateV, cp: int, budget: nat, pt: nat, it: nat)
    ensures
        s_max_long_search(s, cp, 0, budget, 0, pt, it).0 <= budget,
        s_max_long_search(s, cp, 0, budget, 0, pt, it).0 == 0 || s_solvency_after_long(
            s,
            s_max_long_search(s, cp, 0, budget, 0, pt, it).0,
            cp,
        ).is_ok(),
{
    lemma_max_long_search_sound(s, cp, 0, budget, 0, pt, it);
}

} // verus!
