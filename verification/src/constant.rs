//! Protocol constants of the campaign rules.
use vstd::prelude::*;

verus! {

/// Numerator of the share of the target that one contributor may deposit.
pub const MAX_CONTRIBUTION_PERCENTAGE: u64 = 10;

/// Denominator of the share of the target that one contributor may deposit.
pub const PERCENTAGE_SCALER: u64 = 100;

/// Number of seconds in one day.
pub const SECONDS_TO_DAYS: i64 = 86400;

} // verus!
