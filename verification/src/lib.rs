//! On-ledger bookkeeping for funded items: a marketplace of discount
//! products and a crowdfunding ledger of campaigns.
//!
//! Each item accepts value transfers from callers and splits every
//! payment across a fixed set of beneficiary roles by pre-configured
//! percentages, while tracking aggregate progress toward a target.
//!
//! The host environment — key-value storage, the ledger clock, caller
//! authorization, token transfers and event publication — lives outside
//! this crate.  The library is the verified core: the whole contract
//! state is an explicit value (`Marketplace`, `CrowdFund`), the current
//! ledger time and the account identifiers are handed in as plain
//! values, and the token movements a call demands are handed back as
//! [`Transfer`] records for the host to perform.  The host runs each
//! call to completion atomically: if a demanded transfer fails, the
//! host discards the whole call, including the state produced here.

use vstd::prelude::*;

mod errors;
pub mod campaigns;
pub mod products;

pub use campaigns::{Campaign, CrowdAccounts, CrowdFund};
pub use errors::{CampaignError, Error};
pub use products::{DataKey, Marketplace, Product, RoleAccounts};

verus! {

/// An account identifier: the library's stand-in for a host address.
pub type AccountId = u64;

/// Precision factor applied to a raw amount before percentage
/// division, so that truncating division loses at most fractions of
/// one scaled unit per role.
pub const SCALE_FACTOR: i128 = 10_000_000;

/// A raw amount lifted to fixed-point precision.
pub open spec fn scaled_amount(amount: i128) -> int {
    amount * SCALE_FACTOR
}

/// Factor applied to a donated amount to size the reward issued to the
/// donor from the reward token.
pub const REWARD_FACTOR: i128 = 100_000_000;

/// One value movement the host must perform: `amount` units of the
/// token contract `token`, from account `from` to account `to`.
#[derive(Clone, Copy, Debug, PartialEq, Eq, Structural)]
pub struct Transfer {
    pub token: AccountId,
    pub from: AccountId,
    pub to: AccountId,
    pub amount: i128,
}

} // verus!
