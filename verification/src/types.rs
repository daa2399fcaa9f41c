use vstd::prelude::*;

verus! {

/// Milliseconds since the Unix epoch.
pub type EpochMillis = u64;

/// Identifier of an asset, assigned by the portfolio aggregate.
pub type AssetId = u32;

/// Name of a fund.
pub type FundName = String;

/// Name of a user.
pub type UserName = String;

/// A hash rendered as text.
pub type HashString = String;

} // verus!
