//! The fixed numbers of the contribution rules.

use vstd::prelude::*;

verus! {

/// Smallest amount that one contribution may carry.
pub const MIN_AMOUNT_TO_RAISE: u64 = 1;

/// Share of the goal that one contribution may carry at most, as a number of
/// parts out of `PERCENTAGE_SCALER`.
pub const MAX_CONTRIBUTION_PERCENTAGE: u64 = 10;

/// The number of parts that make up the whole goal.
pub const PERCENTAGE_SCALER: u64 = 100;

/// Seconds in one day, the unit in which a campaign's duration is stored.
pub const SECONDS_TO_DAYS: i64 = 86400;

} // verus!
