//! Verified core of the Basilisk runtime logic: English NFT auctions, the NFT and marketplace
//! pallets, two stableswap pools, the referenda tracks and the benchmarked weight formulas.
//!
//! Storage, balances and the other pallets that the logic consults are outside the library: the
//! verified functions take what they read as plain values and return what has to be done.
pub mod arithmetic;
pub mod auctions;
pub mod constants;
pub mod currency;
pub mod hydra_math;
pub mod marketplace;
pub mod nft;
pub mod stableswap;
pub mod stablewap;
pub mod store;
pub mod tracks;
pub mod weights;
