//! A referral-matrix registration engine.
//!
//! Users register by depositing native currency; each deposit fills one of
//! three slots in the direct referrer's matrix and is routed to exactly one
//! terminal action: a swap-and-burn, an escrow reservation, or a payout of a
//! previously reserved amount followed by propagation of the fresh deposit up
//! the referrer's stored ancestor chain.

use vstd::prelude::*;

pub mod addr;
pub mod decimal;
pub mod errors;
pub mod laws;
pub mod matrix;
pub mod model;
pub mod notify;
pub mod oracle;
pub mod settle;
pub mod swap;
pub mod validate;

verus! {

/// Minimum deposit, in USD with 8 decimal places.
pub const MINIMUM_USD_DEPOSIT: u64 = 10_00000000;

/// Maximum accepted age of a price-feed reading, in seconds.
pub const MAX_PRICE_FEED_AGE: i64 = 86400;

/// Fallback price (USD per native unit, 8 decimals) used when the feed is stale.
pub const DEFAULT_SOL_PRICE: i128 = 100_00000000;

/// Capacity of a user's stored ancestor list.
pub const MAX_UPLINE_DEPTH: usize = 6;

/// Number of reward-vault accounts expected at the head of a trailing account list.
pub const VAULT_A_ACCOUNTS_COUNT: usize = 4;

} // verus!
