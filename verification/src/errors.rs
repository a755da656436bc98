//! The typed failures shared by every operation of the pricing core.

use vstd::prelude::*;

verus! {

/// Why a pricing operation failed.
///
/// Every fallible operation of the core returns one of these variants rather
/// than panicking, so that a calling adapter can distinguish bad input from a
/// market that cannot support the requested trade.
#[derive(Clone, Copy, Debug, PartialEq, Eq, Structural)]
pub enum HyperdriveError {
    /// Overflow or underflow in checked fixed-point arithmetic, or a division
    /// by zero. Never silently saturated or wrapped.
    Arithmetic,
    /// An exponential/logarithm-style input outside the valid approximation
    /// domain, such as a zero base with a fractional exponent.
    Domain,
    /// The requested or hypothetical trade would push the effective share
    /// reserves below the minimum, or the pool is insolvent.
    Solvency,
    /// An input violates a stated precondition, such as a trade below the
    /// minimum transaction amount.
    Validation,
}

impl HyperdriveError {
    /// A short human-readable description of the failure.
    pub fn describe(&self) -> &'static str {
        match self {
            HyperdriveError::Arithmetic => "arithmetic overflow or underflow",
            HyperdriveError::Domain => "input outside the approximation domain",
            HyperdriveError::Solvency => "the pool cannot support this trade",
            HyperdriveError::Validation => "input violates a precondition",
        }
    }
}

} // verus!
