use vstd::prelude::*;

verus! {

/// Fixed-point scale ("WAD"): fractional values are carried as integers
/// scaled by 10^18, so no floating point is ever needed.
pub const WAD: u64 = 1_000_000_000_000_000_000;

/// Denominator for basis-point percentages: 10000 bps = 100%.
pub const MAX_BPS: u64 = 10000;

/// Denominator for annualized-rate computations.
pub const SECONDS_IN_YEAR: u64 = 365 * 24 * 60 * 60;

/// Fee taken on liquidation, in percent.
pub const LIQUIDATION_FEE_PCT: u64 = 10;

/// Maximum permitted notional/collateral ratio.
pub const MAX_LEVERAGE: u64 = 5;

/// Minimum position notional, denominated in WAD units: 100 * 10^18.
pub const MIN_POSITION_SIZE: u128 = 100 * 1_000_000_000_000_000_000;

} // verus!
