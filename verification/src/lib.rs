//! Account-local risk engine for perpetual futures: authenticated portfolio
//! accounts, bounded per-account refresh, stale and B-stale fail-closed checks
//! and deterministic h-lock selection from committed market/account state.
use vstd::prelude::*;

pub mod v13;

verus! {

/// Fixed-point scale of position quantities (one unit of base asset).
pub const POS_SCALE: u128 = 1_000_000;

/// Neutral value of the side-level quantity scale A.
pub const ADL_ONE: u128 = 1_000_000;

/// Smallest admissible side-level quantity scale A.
pub const MIN_A_SIDE: u128 = 1_000;

/// Scale of the social-loss weight of a position.
pub const SOCIAL_WEIGHT_SCALE: u128 = 1_000_000;

/// Denominator of the social-loss (B index) booking.
pub const SOCIAL_LOSS_DEN: u128 = 1_000_000_000_000_000_000;

/// Largest admissible oracle price.
pub const MAX_ORACLE_PRICE: u64 = 1_000_000_000_000;

/// Largest admissible absolute position quantity.
pub const MAX_POSITION_ABS_Q: u128 = 100_000_000_000_000;

/// Largest admissible open interest on one side of one asset.
pub const MAX_OI_SIDE_Q: u128 = 100_000_000_000_000;

/// Largest admissible vault balance.
pub const MAX_VAULT_TVL: u128 = 10_000_000_000_000_000;

} // verus!
