//! Currency and time constants of the Basilisk runtime.
use vstd::prelude::*;

verus! {

/// Balance type of the runtime.
pub type Balance = u128;

/// Block number type of the runtime.
pub type BlockNumber = u32;

/// One whole BSX in its smallest units.
pub const UNITS: u128 = 1_000_000_000_000;

/// Blocks per minute (one block every twelve seconds).
pub const MINUTES: u32 = 5;

/// Blocks per hour.
pub const HOURS: u32 = 300;

/// Blocks per day.
pub const DAYS: u32 = 7_200;

} // verus!

verus! {

/// Account identifier.
pub type AccountId = u64;

/// Identifier of an NFT class.
pub type NftClassId = u64;

/// Identifier of an NFT instance within its class.
pub type NftInstanceId = u64;

} // verus!
