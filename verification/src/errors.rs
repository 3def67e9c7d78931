//! Typed business-rule errors.
//!
//! Every validation failure is returned to the caller as one of these
//! variants; no state is mutated once a validation has failed.

use vstd::prelude::*;

verus! {

/// Errors of the product marketplace.
#[derive(Copy, Clone, Debug, Eq, PartialEq, Structural)]
pub enum Error {
    DiscountExpired,
    ProductNotExist,
    AmountMustNonZero,
    TargetReached,
    AmountExceedTargetLimit,
    ProductAlreadyExist,
    IdProductMustNonZero,
    LowAmountForSplitter,
    ExpiryShouldBeFuture,
    AlreadyInitialized,
    AmountMustBeGreaterThanZero,
}

/// Errors of the crowdfunding ledger.
#[derive(Copy, Clone, Debug, Eq, PartialEq, Structural)]
pub enum CampaignError {
    CampaignNotExist,
    AmountMustNonZero,
    TargetReached,
    AmountExceedTargetLimit,
    CampaignAlreadyExist,
    IdCampaignMustNonZero,
    LowAmountForSplitter,
    DeadlineShouldBeFuture,
    AlreadyInitialized,
}

} // verus!
