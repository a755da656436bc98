//! Deterministic 18-decimal fixed-point pricing core for a fixed-rate,
//! fixed-duration AMM.
//!
//! Given an immutable snapshot of a pool (configuration plus reserve state),
//! the library computes spot price and rate, the outcome of opening or closing
//! long and short positions, the protocol fees charged on each trade, and the
//! largest trade that keeps the pool solvent. Every quantity is an unsigned
//! 256-bit integer scaled by `10^18`; all arithmetic is checked and rounds in
//! a stated direction, and every failure is a typed error.

pub mod clock;
pub mod decimal;
pub mod errors;
pub mod fees;
pub mod fixed_ops;
pub mod fixed_point;
pub mod laws;
pub mod long;
pub mod max;
pub mod rates;
pub mod short;
pub mod solvency;
pub mod state;
pub mod wide;
pub mod yield_space;
