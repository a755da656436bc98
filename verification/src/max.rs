//! Bounded binary-search solvers for the largest solvent long and short.
//!
//! Each solver brackets the trade size, keeps the largest candidate that
//! passed its solvency check, and halves the bracket until the iteration
//! cap or the precision threshold is reached. The returned amount is the
//! best estimate found — documented best-effort behavior, not an error —
//! together with a flag that says whether the bracket converged below the
//! pool's precision threshold. The contracts pin the result to a spec
//! mirror of the search, and guarantee that a non-zero result passed the
//! solvency check and fits the budget.

use vstd::prelude::*;

use crate::errors::HyperdriveError;
use crate::fixed_point::{scale, FixedPoint};
use crate::fixed_ops::{fp_res_matches, sdiv_down, smul_down, smul_up, spow};
use crate::long::s_open_long;
use crate::short::s_open_short;
use crate::state::{Signed, State, StateV};
use crate::yield_space::{s_state_k, s_state_spot_price, sadd, ssub};

verus! {

/// The default number of binary-search iterations.
pub const DEFAULT_MAX_ITERATIONS: u64 = 7;

/// The hard ceiling on caller-supplied iteration counts.
pub const MAX_ITERATIONS_CEILING: u64 = 64;

/// The iteration budget a caller request resolves to.
pub open spec fn s_iterations(maybe: Option<u64>) -> nat {
    match maybe {
        Some(n) => if n <= MAX_ITERATIONS_CEILING {
            n as nat
        } else {
            MAX_ITERATIONS_CEILING as nat
        },
        None => DEFAULT_MAX_ITERATIONS as nat,
    }
}

/// Resolves the caller's iteration request against the ceiling.
fn resolve_iterations(maybe: Option<u64>) -> (r: u64)
    ensures
        r == s_iterations(maybe),
{
    match maybe {
        Some(n) => if n <= MAX_ITERATIONS_CEILING {
            n
        } else {
            MAX_ITERATIONS_CEILING
        },
        None => DEFAULT_MAX_ITERATIONS,
    }
}

/// Exposure after netting the current checkpoint's exposure against `e`:
/// a negative checkpoint exposure offsets global exposure, clamped at
/// zero; a positive one adds to it.
pub open spec fn s_net_exposure(e: nat, cp: int) -> Result<nat, HyperdriveError> {
    if cp >= 0 {
        sadd(e, cp as nat)
    } else {
        if (-cp) as nat <= e {
            Ok((e - (-cp)) as nat)
        } else {
            Ok(0)
        }
    }
}

/// Spec of the pool's solvency margin after a hypothetical open long of
/// `x` base: reserves grow by the shares spent, exposure grows by the
/// bonds issued, netted against the checkpoint exposure.
#[verifier::opaque]
pub open spec fn s_solvency_after_long(s: StateV, x: nat, cp: int) -> Result<
    nat,
    HyperdriveError,
> {
    match s_open_long(s, x) {
        Err(e) => Err(e),
        Ok(long_amount) => match sdiv_down(x, s.info.vault_share_price) {
            Err(e) => Err(e),
            Ok(shares) => match sadd(s.info.share_reserves, shares) {
                Err(e) => Err(e),
                Ok(z2) => match sadd(s.info.long_exposure, long_amount) {
                    Err(e) => Err(e),
                    Ok(e1) => match s_net_exposure(e1, cp) {
                        Err(e) => Err(e),
                        Ok(e2) => match smul_down(z2, s.info.vault_share_price) {
                            Err(e) => Err(e),
                            Ok(t1) => match smul_up(
                                s.config.minimum_share_reserves,
                                s.info.vault_share_price,
                            ) {
                                Err(e) => Err(e),
                                Ok(mb) => match sadd(e2, mb) {
                                    Err(e) => Err(e),
                                    Ok(t2) => if t2 <= t1 {
                                        Ok((t1 - t2) as nat)
                                    } else {
                                        Err(HyperdriveError::Solvency)
                                    },
                                },
                            },
                        },
                    },
                },
            },
        },
    }
}

/// One binary-search step stream for the max long: returns the best
/// candidate found and whether the bracket converged below the threshold.
pub open spec fn s_max_long_search(
    s: StateV,
    cp: int,
    lo: nat,
    hi: nat,
    best: nat,
    pt: nat,
    it: nat,
) -> (nat, bool)
    decreases it,
{
    if hi - lo < pt {
        (best, true)
    } else if it == 0 {
        (best, false)
    } else {
        let mid = (lo + ((hi - lo) as nat) / 2) as nat;
        if s_solvency_after_long(s, mid, cp).is_ok() {
            s_max_long_search(s, cp, mid, hi, mid, pt, (it - 1) as nat)
        } else {
            s_max_long_search(s, cp, lo, mid, best, pt, (it - 1) as nat)
        }
    }
}

/// The max-long search only returns zero or a candidate that passed the
/// solvency check, and never exceeds its bracket.
pub proof fn lemma_max_long_search_sound(
    s: StateV,
    cp: int,
    lo: nat,
    hi: nat,
    best: nat,
    pt: nat,
    it: nat,
)
    requires
        best <= lo <= hi,
        best == 0 || s_solvency_after_long(s, best, cp).is_ok(),
    ensures
        s_max_long_search(s, cp, lo, hi, best, pt, it).0 <= hi,
        s_max_long_search(s, cp, lo, hi, best, pt, it).0 == 0 || s_solvency_after_long(
            s,
            s_max_long_search(s, cp, lo, hi, best, pt, it).0,
            cp,
        ).is_ok(),
    decreases it,
{
    if hi - lo < pt || it == 0 {
    } else {
        let mid = (lo + ((hi - lo) as nat) / 2) as nat;
        if s_solvency_after_long(s, mid, cp).is_ok() {
            lemma_max_long_search_sound(s, cp, mid, hi, mid, pt, (it - 1) as nat);
        } else {
            lemma_max_long_search_sound(s, cp, lo, mid, best, pt, (it - 1) as nat);
        }
    }
}

/// Spec of the reserve-derived ceiling on a short: the bonds that would
/// drain the effective share reserves down to the minimum.
pub open spec fn s_absolute_max_short_bonds(s: StateV) -> Result<nat, HyperdriveError> {
    let om = (scale() - s.config.time_stretch) as nat;
    match s_state_k(s, false) {
        Err(e) => Err(e),
        Ok(k) => match smul_down(
            s.config.initial_vault_share_price,
            s.config.minimum_share_reserves,
        ) {
            Err(e) => Err(e),
            Ok(mzmin) => match spow(mzmin, om) {
                Err(e) => Err(e),
                Ok(pe) => match sdiv_down(
                    s.info.vault_share_price,
                    s.config.initial_vault_share_price,
                ) {
                    Err(e) => Err(e),
                    Ok(cdm) => match smul_down(cdm, pe) {
                        Err(e) => Err(e),
                        Ok(t1) => match ssub(k, t1) {
                            Err(e) => Err(e),
                            Ok(inner) => match sdiv_down(scale(), om) {
                                Err(e) => Err(e),
                                Ok(recip) => match spow(inner, recip) {
                                    Err(e) => Err(e),
                                    Ok(ytarget) => ssub(ytarget, s.info.bond_reserves),
                                },
                            },
                        },
                    },
                },
            },
        },
    }
}

/// Spec of the initial short bracket: the reserve-derived ceiling,
/// narrowed by `budget / costLowerBound` where the per-bond cost lower
/// bound is the caller's conservative price, or the theoretical
/// worst-case margin `1 - spotPrice` when the caller gave none.
pub open spec fn s_max_short_bracket(
    s: StateV,
    budget: nat,
    p: nat,
    conservative: Option<nat>,
) -> nat {
    match s_absolute_max_short_bonds(s) {
        Err(_) => 0,
        Ok(am) => {
            let clb: nat = match conservative {
                Some(v) => v,
                None => if p <= scale() {
                    (scale() - p) as nat
                } else {
                    0
                },
            };
            if clb > 0 {
                match sdiv_down(budget, clb) {
                    Err(_) => am,
                    Ok(bb) => if bb <= am {
                        bb
                    } else {
                        am
                    },
                }
            } else {
                am
            }
        },
    }
}

/// Spec of the pool's solvency margin after a hypothetical short of `x`
/// bonds: reserves shrink by the shares paid out; exposure is netted
/// against the checkpoint exposure.
#[verifier::opaque]
pub open spec fn s_solvency_after_short(s: StateV, x: nat, cp: int) -> Result<
    nat,
    HyperdriveError,
> {
    match crate::yield_space::s_state_shares_out_given_bonds_in_down(s, x) {
        Err(e) => Err(e),
        Ok(shares_out) => match ssub(s.info.share_reserves, shares_out) {
            Err(e) => Err(e),
            Ok(z2) => match s_net_exposure(s.info.long_exposure, cp) {
                Err(e) => Err(e),
                Ok(e2) => match smul_down(z2, s.info.vault_share_price) {
                    Err(e) => Err(e),
                    Ok(t1) => match smul_up(
                        s.config.minimum_share_reserves,
                        s.info.vault_share_price,
                    ) {
                        Err(e) => Err(e),
                        Ok(mb) => match sadd(e2, mb) {
                            Err(e) => Err(e),
                            Ok(t2) => if t2 <= t1 {
                                Ok((t1 - t2) as nat)
                            } else {
                                Err(HyperdriveError::Solvency)
                            },
                        },
                    },
                },
            },
        },
    }
}

/// Whether a short of `x` bonds is feasible: it can be opened, its
/// deposit fits the budget, and the pool stays solvent.
#[verifier::opaque]
pub open spec fn s_short_feasible(
    s: StateV,
    x: nat,
    p: nat,
    open_vault_share_price: nat,
    budget: nat,
    cp: int,
) -> bool {
    match s_open_short(s, x, p, open_vault_share_price) {
        Err(_) => false,
        Ok(d) => d <= budget && s_solvency_after_short(s, x, cp).is_ok(),
    }
}

/// The max-short binary search, mirroring the max-long one.
pub open spec fn s_max_short_search(
    s: StateV,
    p: nat,
    c0: nat,
    budget: nat,
    cp: int,
    lo: nat,
    hi: nat,
    best: nat,
    pt: nat,
    it: nat,
) -> (nat, bool)
    decreases it,
{
    if hi - lo < pt {
        (best, true)
    } else if it == 0 {
        (best, false)
    } else {
        let mid = (lo + ((hi - lo) as nat) / 2) as nat;
        if s_short_feasible(s, mid, p, c0, budget, cp) {
            s_max_short_search(s, p, c0, budget, cp, mid, hi, mid, pt, (it - 1) as nat)
        } else {
            s_max_short_search(s, p, c0, budget, cp, lo, mid, best, pt, (it - 1) as nat)
        }
    }
}

/// Spec mirror of `calculate_max_short`: resolve the spot price, derive
/// the bracket, and run the search.
pub open spec fn s_max_short(
    s: StateV,
    budget: nat,
    c0: nat,
    cp: int,
    conservative: Option<nat>,
    iters: nat,
) -> (nat, bool) {
    match s_state_spot_price(s) {
        Err(_) => (0, false),
        Ok(p) => s_max_short_search(
            s,
            p,
            c0,
            budget,
            cp,
            0,
            s_max_short_bracket(s, budget, p, conservative),
            0,
            s.config.precision_threshold,
            iters,
        ),
    }
}

/// The max-short search only returns zero or a feasible candidate.
pub proof fn lemma_max_short_search_sound(
    s: StateV,
    p: nat,
    c0: nat,
    budget: nat,
    cp: int,
    lo: nat,
    hi: nat,
    best: nat,
    pt: nat,
    it: nat,
)
    requires
        best <= lo <= hi,
        best == 0 || s_short_feasible(s, best, p, c0, budget, cp),
    ensures
        s_max_short_search(s, p, c0, budget, cp, lo, hi, best, pt, it).0 <= hi,
        s_max_short_search(s, p, c0, budget, cp, lo, hi, best, pt, it).0 == 0
            || s_short_feasible(
            s,
            s_max_short_search(s, p, c0, budget, cp, lo, hi, best, pt, it).0,
            p,
            c0,
            budget,
            cp,
        ),
    decreases it,
{
    if hi - lo < pt || it == 0 {
    } else {
        let mid = (lo + ((hi - lo) as nat) / 2) as nat;
        if s_short_feasible(s, mid, p, c0, budget, cp) {
            lemma_max_short_search_sound(s, p, c0, budget, cp, mid, hi, mid, pt, (it - 1) as nat);
        } else {
            lemma_max_short_search_sound(s, p, c0, budget, cp, lo, mid, best, pt, (it - 1) as nat);
        }
    }
}

impl State {
    /// The pool's solvency margin after a hypothetical open long of
    /// `base_amount` base, with the current checkpoint's exposure netted
    /// in. `Err(Solvency)` when the trade would leave the pool insolvent.
    pub fn solvency_after_long(&self, base_amount: &FixedPoint, checkpoint_exposure: &Signed)
        -> (r: Result<FixedPoint, HyperdriveError>)
        requires
            self@.wf(),
        ensures
            fp_res_matches(r, s_solvency_after_long(self@, base_amount@, checkpoint_exposure@)),
    {
        proof {
            reveal(s_solvency_after_long);
        }
        let long_amount = match self.calculate_open_long(base_amount) {
            Ok(v) => v,
            Err(e) => {
                return Err(e);
            },
        };
        let shares = match base_amount.div_down(&self.info.vault_share_price) {
            Ok(v) => v,
            Err(e) => {
                return Err(e);
            },
        };
        let z2 = match self.info.share_reserves.checked_add(&shares) {
            Ok(v) => v,
            Err(e) => {
                return Err(e);
            },
        };
        let e1 = match self.info.long_exposure.checked_add(&long_amount) {
            Ok(v) => v,
            Err(e) => {
                return Err(e);
            },
        };
        let e2 = match net_exposure(&e1, checkpoint_exposure) {
            Ok(v) => v,
            Err(e) => {
                return Err(e);
            },
        };
        let t1 = match z2.mul_down(&self.info.vault_share_price) {
            Ok(v) => v,
            Err(e) => {
                return Err(e);
            },
        };
        let mb = match self.config.minimum_share_reserves.mul_up(&self.info.vault_share_price) {
            Ok(v) => v,
            Err(e) => {
                return Err(e);
            },
        };
        let t2 = match e2.checked_add(&mb) {
            Ok(v) => v,
            Err(e) => {
                return Err(e);
            },
        };
        if t2.le(&t1) {
            Ok(t1.overflowing_sub(&t2).0)
        } else {
            Err(HyperdriveError::Solvency)
        }
    }

    /// The pool's solvency margin after a hypothetical short of
    /// `bond_amount` bonds.
    pub fn solvency_after_short(&self, bond_amount: &FixedPoint, checkpoint_exposure: &Signed)
        -> (r: Result<FixedPoint, HyperdriveError>)
        requires
            self@.wf(),
        ensures
            fp_res_matches(r, s_solvency_after_short(self@, bond_amount@, checkpoint_exposure@)),
    {
        proof {
            reveal(s_solvency_after_short);
        }
        let shares_out = match self.calculate_shares_out_given_bonds_in_down(bond_amount) {
            Ok(v) => v,
            Err(e) => {
                return Err(e);
            },
        };
        let z2 = match self.info.share_reserves.checked_sub(&shares_out) {
            Ok(v) => v,
            Err(e) => {
                return Err(e);
            },
        };
        let e2 = match net_exposure(&self.info.long_exposure, checkpoint_exposure) {
            Ok(v) => v,
            Err(e) => {
                return Err(e);
            },
        };
        let t1 = match z2.mul_down(&self.info.vault_share_price) {
            Ok(v) => v,
            Err(e) => {
                return Err(e);
            },
        };
        let mb = match self.config.minimum_share_reserves.mul_up(&self.info.vault_share_price) {
            Ok(v) => v,
            Err(e) => {
                return Err(e);
            },
        };
        let t2 = match e2.checked_add(&mb) {
            Ok(v) => v,
            Err(e) => {
                return Err(e);
            },
        };
        if t2.le(&t1) {
            Ok(t1.overflowing_sub(&t2).0)
        } else {
            Err(HyperdriveError::Solvency)
        }
    }

    /// The largest base amount, at most `budget`, that a long can spend
    /// while the pool stays solvent, by bounded binary search. Returns
    /// the best estimate and whether the search converged below the
    /// precision threshold; a non-zero estimate always passed the
    /// solvency check.
    pub fn calculate_max_long(
        &self,
        budget: &FixedPoint,
        checkpoint_exposure: &Signed,
        maybe_max_iterations: Option<u64>,
    ) -> (r: (FixedPoint, bool))
        requires
            self@.wf(),
        ensures
            (r.0@, r.1) == s_max_long_search(
                self@,
                checkpoint_exposure@,
                0,
                budget@,
                0,
                self@.config.precision_threshold,
                s_iterations(maybe_max_iterations),
            ),
            r.0@ <= budget@,
            r.0@ == 0 || s_solvency_after_long(self@, r.0@, checkpoint_exposure@).is_ok(),
    {
        let pt = self.config.precision_threshold;
        let mut lo = FixedPoint::zero();
        let mut hi = *budget;
        let mut best = FixedPoint::zero();
        let mut it = resolve_iterations(maybe_max_iterations);
        let ghost target = s_max_long_search(
            self@,
            checkpoint_exposure@,
            0,
            budget@,
            0,
            self@.config.precision_threshold,
            s_iterations(maybe_max_iterations),
        );
        while it > 0 && hi.overflowing_sub(&lo).0.ge(&pt)
            invariant
                self@.wf(),
                best@ <= lo@ <= hi@ <= budget@,
                best@ == 0 || s_solvency_after_long(
                    self@,
                    best@,
                    checkpoint_exposure@,
                ).is_ok(),
                s_max_long_search(
                    self@,
                    checkpoint_exposure@,
                    lo@,
                    hi@,
                    best@,
                    pt@,
                    it as nat,
                ) == target,
                pt == self.config.precision_threshold,
            decreases it,
        {
            let width = hi.overflowing_sub(&lo).0;
            let mid = lo.overflowing_add(&width.half()).0;
            proof {
                assert(lo@ + width@ / 2 <= hi@);
            }
            let ok = match self.solvency_after_long(&mid, checkpoint_exposure) {
                Ok(_) => true,
                Err(_) => false,
            };
            if ok {
                lo = mid;
                best = mid;
            } else {
                hi = mid;
            }
            it = it - 1;
        }
        let converged = hi.overflowing_sub(&lo).0.lt(&pt);
        (best, converged)
    }

    /// The largest short, in bonds and at most what `budget` can fund,
    /// that keeps the pool solvent, by bounded binary search over a
    /// bracket derived from the reserves and, when given, the caller's
    /// conservative price. Returns the best estimate and whether the
    /// search converged; a non-zero estimate can be opened within budget.
    pub fn calculate_max_short(
        &self,
        budget: &FixedPoint,
        open_vault_share_price: &FixedPoint,
        checkpoint_exposure: &Signed,
        maybe_conservative_price: Option<FixedPoint>,
        maybe_max_iterations: Option<u64>,
    ) -> (r: (FixedPoint, bool))
        requires
            self@.wf(),
        ensures
            (r.0@, r.1) == s_max_short(
                self@,
                budget@,
                open_vault_share_price@,
                checkpoint_exposure@,
                spec_option_val(maybe_conservative_price),
                s_iterations(maybe_max_iterations),
            ),
            r.0@ == 0 || s_short_feasible(
                self@,
                r.0@,
                spec_result_val(s_state_spot_price(self@)),
                open_vault_share_price@,
                budget@,
                checkpoint_exposure@,
            ),
    {
        let p = match self.calculate_spot_price() {
            Ok(v) => v,
            Err(_) => {
                return (FixedPoint::zero(), false);
            },
        };
        let hi0 = self.max_short_bracket(budget, &p, &maybe_conservative_price);
        let it = resolve_iterations(maybe_max_iterations);
        self.max_short_search(
            &p,
            open_vault_share_price,
            budget,
            checkpoint_exposure,
            &hi0,
            it,
        )
    }

    /// The bounded binary search behind `calculate_max_short`.
    fn max_short_search(
        &self,
        p: &FixedPoint,
        open_vault_share_price: &FixedPoint,
        budget: &FixedPoint,
        checkpoint_exposure: &Signed,
        hi0: &FixedPoint,
        it0: u64,
    ) -> (r: (FixedPoint, bool))
        requires
            self@.wf(),
        ensures
            (r.0@, r.1) == s_max_short_search(
                self@,
                p@,
                open_vault_share_price@,
                budget@,
                checkpoint_exposure@,
                0,
                hi0@,
                0,
                self@.config.precision_threshold,
                it0 as nat,
            ),
            r.0@ == 0 || s_short_feasible(
                self@,
                r.0@,
                p@,
                open_vault_share_price@,
                budget@,
                checkpoint_exposure@,
            ),
    {
        let pt = self.config.precision_threshold;
        let mut lo = FixedPoint::zero();
        let mut hi = *hi0;
        let mut best = FixedPoint::zero();
        let mut it = it0;
        let ghost target = s_max_short_search(
            self@,
            p@,
            open_vault_share_price@,
            budget@,
            checkpoint_exposure@,
            0,
            hi0@,
            0,
            self@.config.precision_threshold,
            it0 as nat,
        );
        while it > 0 && hi.overflowing_sub(&lo).0.ge(&pt)
            invariant
                self@.wf(),
                best@ <= lo@ <= hi@,
                best@ == 0 || s_short_feasible(
                    self@,
                    best@,
                    p@,
                    open_vault_share_price@,
                    budget@,
                    checkpoint_exposure@,
                ),
                s_max_short_search(
                    self@,
                    p@,
                    open_vault_share_price@,
                    budget@,
                    checkpoint_exposure@,
                    lo@,
                    hi@,
                    best@,
                    pt@,
                    it as nat,
                ) == target,
                pt == self.config.precision_threshold,
            decreases it,
        {
            let width = hi.overflowing_sub(&lo).0;
            let mid = lo.overflowing_add(&width.half()).0;
            proof {
                assert(lo@ + width@ / 2 <= hi@);
            }
            let feasible = self.short_feasible(
                &mid,
                p,
                open_vault_share_price,
                budget,
                checkpoint_exposure,
            );
            if feasible {
                lo = mid;
                best = mid;
            } else {
                hi = mid;
            }
            it = it - 1;
        }
        let converged = hi.overflowing_sub(&lo).0.lt(&pt);
        (best, converged)
    }

    /// Whether a short of `bond_amount` bonds can be opened, funded by
    /// `budget`, with the pool staying solvent.
    fn short_feasible(
        &self,
        bond_amount: &FixedPoint,
        p: &FixedPoint,
        open_vault_share_price: &FixedPoint,
        budget: &FixedPoint,
        checkpoint_exposure: &Signed,
    ) -> (r: bool)
        requires
            self@.wf(),
        ensures
            r == s_short_feasible(
                self@,
                bond_amount@,
                p@,
                open_vault_share_price@,
                budget@,
                checkpoint_exposure@,
            ),
    {
        proof {
            reveal(s_short_feasible);
        }
        match self.calculate_open_short(bond_amount, p, open_vault_share_price) {
            Ok(d) => if d.le(budget) {
                match self.solvency_after_short(bond_amount, checkpoint_exposure) {
                    Ok(_) => true,
                    Err(_) => false,
                }
            } else {
                false
            },
            Err(_) => false,
        }
    }

    /// The initial bracket of the max-short search.
    fn max_short_bracket(
        &self,
        budget: &FixedPoint,
        p: &FixedPoint,
        maybe_conservative_price: &Option<FixedPoint>,
    ) -> (r: FixedPoint)
        requires
            self@.wf(),
        ensures
            r@ == s_max_short_bracket(
                self@,
                budget@,
                p@,
                spec_option_val(*maybe_conservative_price),
            ),
    {
        let am = match self.absolute_max_short_bonds() {
            Ok(v) => v,
            Err(_) => {
                return FixedPoint::zero();
            },
        };
        let clb = match maybe_conservative_price {
            Some(v) => *v,
            None => {
                if p.le(&FixedPoint::one()) {
                    FixedPoint::one().overflowing_sub(p).0
                } else {
                    FixedPoint::zero()
                }
            },
        };
        if clb.is_zero() {
            return am;
        }
        match budget.div_down(&clb) {
            Err(_) => am,
            Ok(bb) => bb.min(&am),
        }
    }

    /// The reserve-derived ceiling on a short: the bonds that would drain
    /// the effective share reserves to the minimum.
    pub fn absolute_max_short_bonds(&self) -> (r: Result<FixedPoint, HyperdriveError>)
        requires
            self@.wf(),
        ensures
            fp_res_matches(r, s_absolute_max_short_bonds(self@)),
    {
        let om = FixedPoint::one().overflowing_sub(&self.config.time_stretch).0;
        let k = match self.k_down() {
            Ok(v) => v,
            Err(e) => {
                return Err(e);
            },
        };
        let mzmin = match self.config.initial_vault_share_price.mul_down(
            &self.config.minimum_share_reserves,
        ) {
            Ok(v) => v,
            Err(e) => {
                return Err(e);
            },
        };
        let pe = match mzmin.pow(&om) {
            Ok(v) => v,
            Err(e) => {
                return Err(e);
            },
        };
        let cdm = match self.info.vault_share_price.div_down(
            &self.config.initial_vault_share_price,
        ) {
            Ok(v) => v,
            Err(e) => {
                return Err(e);
            },
        };
        let t1 = match cdm.mul_down(&pe) {
            Ok(v) => v,
            Err(e) => {
                return Err(e);
            },
        };
        let inner = match k.checked_sub(&t1) {
            Ok(v) => v,
            Err(e) => {
                return Err(e);
            },
        };
        let recip = match FixedPoint::one().div_down(&om) {
            Ok(v) => v,
            Err(e) => {
                return Err(e);
            },
        };
        let ytarget = match inner.pow(&recip) {
            Ok(v) => v,
            Err(e) => {
                return Err(e);
            },
        };
        ytarget.checked_sub(&self.info.bond_reserves)
    }
}

/// The value inside an `Ok`, or zero.
pub open spec fn spec_result_val(r: Result<nat, HyperdriveError>) -> nat {
    match r {
        Ok(v) => v,
        Err(_) => 0,
    }
}

/// The view of an optional fixed-point value.
pub open spec fn spec_option_val(o: Option<FixedPoint>) -> Option<nat> {
    match o {
        Some(v) => Some(v@),
        None => None,
    }
}

/// Nets the checkpoint exposure against a global exposure figure.
fn net_exposure(e: &FixedPoint, cp: &Signed) -> (r: Result<FixedPoint, HyperdriveError>)
    ensures
        fp_res_matches(r, s_net_exposure(e@, cp@)),
{
    if cp.is_negative() {
        if cp.magnitude.le(e) {
            Ok(e.overflowing_sub(&cp.magnitude).0)
        } else {
            Ok(FixedPoint::zero())
        }
    } else {
        e.checked_add(&cp.magnitude)
    }
}

} // verus!
