//! English auctions of NFTs.
//!
//! Participants place bids in a running auction; once its end time has been reached the highest
//! bid wins and the NFT is transferred to the winner. A reserve price, when set, is the minimal
//! starting bid. Bids placed shortly before the end extend the auction to avoid sniping.
//!
//! The functions here decide and update the pallet's storage; what they need from other pallets
//! (current block, NFT ownership, account derivation) they take as arguments, and what other
//! pallets must do (locks, transfers, freezing the NFT) they return as [`AuctionAction`]s.
use vstd::prelude::*;

use std::collections::HashMap;

use crate::arithmetic::Permill;
use crate::constants::{AccountId, Balance, BlockNumber, NftClassId, NftInstanceId};
use crate::store::DoubleMap;

verus! {

broadcast use vstd::std_specs::hash::group_hash_axioms;

/// Identifier of an auction.
pub type AuctionId = u64;

/// Errors of the auctions pallet.
#[derive(Clone, Copy, Debug, PartialEq, Eq)]
pub enum AuctionError {
    AuctionDoesNotExist,
    AuctionNotStarted,
    AuctionAlreadyStarted,
    AuctionClosed,
    AuctionEndTimeReached,
    AuctionEndTimeNotReached,
    CannotSetAuctionClosed,
    InvalidBidPrice,
    NoAvailableAuctionId,
    AuctionStartTimeAlreadyPassed,
    InvalidTimeConfiguration,
    NotAuctionOwner,
    NotATokenOwner,
    BidOverflow,
    CannotBidOnOwnAuction,
    TimeUnderflow,
    TokenFrozen,
    EmptyAuctionName,
    TooLong,
    NoChangeOfAuctionType,
    InvalidNextBidMin,
    InvalidReservedAmount,
    NoReservedAmountAvailableToClaim,
    CannotClaimWonAuction,
    CloseAuctionBeforeClaimingReservedAmounts,
    CandleAuctionMustHaveDefaultDuration,
    CandleAuctionMustHaveDefaultClosingPeriodDuration,
    CandleAuctionDoesNotSupportReservePrice,
    Overflow,
    ErrorDeterminingAuctionWinner,
    CannotChangeForbiddenAttribute,
    CannotGenerateAuctionAccount,
    ClaimsNotSupportedForThisAuctionType,
}

/// The pallet's configuration constants.
#[derive(Clone, Copy, Debug)]
pub struct AuctionConfig {
    /// Longest auction name.
    pub auctions_string_limit: u32,
    /// Blocks by which a late bid extends the auction.
    pub bid_add_blocks: u32,
    /// Step of the next minimal bid, in percent of the last bid.
    pub bid_step_perc: u32,
    /// Shortest auction, in blocks.
    pub min_auction_duration: u32,
    /// Smallest bid.
    pub bid_min_amount: u32,
}

/// Data that every auction type has.
#[derive(Debug)]
pub struct CommonAuctionData {
    pub name: Vec<u8>,
    pub reserve_price: Option<Balance>,
    pub last_bid: Option<(AccountId, Balance)>,
    pub start: BlockNumber,
    pub end: BlockNumber,
    pub closed: bool,
    pub owner: AccountId,
    pub token: (NftClassId, NftInstanceId),
    pub next_bid_min: Balance,
}

/// An English auction.
#[derive(Debug)]
pub struct EnglishAuction {
    pub common_data: CommonAuctionData,
}

/// An auction of one of the supported types.
#[derive(Debug)]
pub enum Auction {
    English(EnglishAuction),
}

/// A bid placed at a block.
#[derive(Clone, Copy, Debug)]
pub struct Bid {
    pub amount: Balance,
    pub block_number: BlockNumber,
}

/// Events of the auctions pallet.
#[derive(Debug)]
pub enum AuctionEvent {
    AuctionCreated { auction_id: AuctionId, auction: Auction },
    AuctionUpdated { auction_id: AuctionId, auction: Auction },
    AuctionDestroyed { auction_id: AuctionId },
    BidPlaced { auction_id: AuctionId, bidder: AccountId, bid: Bid },
    BidAmountReserved { auction_id: AuctionId, bidder: AccountId, amount: Balance },
    BidAmountUnreserved {
        auction_id: AuctionId,
        bidder: AccountId,
        amount: Balance,
        beneficiary: AccountId,
    },
    BidAmountClaimed { auction_id: AuctionId, bidder: AccountId, amount: Balance },
    AuctionClosed { auction_id: AuctionId, auction_winner: Option<AccountId> },
}

/// What other pallets must do for an auction call, in order.
#[derive(Clone, Copy, Debug, PartialEq, Eq)]
pub enum AuctionAction {
    /// Freeze the NFT, signed by its owner.
    FreezeNft { owner: AccountId, token: (NftClassId, NftInstanceId) },
    /// Thaw the NFT, signed by its owner.
    ThawNft { owner: AccountId, token: (NftClassId, NftInstanceId) },
    /// Remove the auction lock from an account.
    RemoveLock { who: AccountId },
    /// Lock `amount` on an account under the auction lock.
    SetLock { who: AccountId, amount: Balance },
    /// Transfer the NFT, signed by `from`.
    TransferNft { from: AccountId, to: AccountId, token: (NftClassId, NftInstanceId) },
    /// Transfer `amount` of the native currency; `keep_alive` forbids reaping `from`.
    Transfer { from: AccountId, to: AccountId, amount: Balance, keep_alive: bool },
}

impl CommonAuctionData {
    /// The same data, fields equal and the name equal as a sequence of bytes.
    pub open spec fn same_as(self, other: CommonAuctionData) -> bool {
        &&& self.name@ == other.name@
        &&& self.reserve_price == other.reserve_price
        &&& self.last_bid == other.last_bid
        &&& self.start == other.start
        &&& self.end == other.end
        &&& self.closed == other.closed
        &&& self.owner == other.owner
        &&& self.token == other.token
        &&& self.next_bid_min == other.next_bid_min
    }

    /// A copy of this data.
    pub fn duplicate(&self) -> (r: CommonAuctionData)
        ensures
            r.same_as(*self),
    {
        let name = self.name.clone();
        proof {
            assert(name@ =~= self.name@);
        }
        CommonAuctionData {
            name,
            reserve_price: self.reserve_price,
            last_bid: self.last_bid,
            start: self.start,
            end: self.end,
            closed: self.closed,
            owner: self.owner,
            token: self.token,
            next_bid_min: self.next_bid_min,
        }
    }
}

impl Auction {
    /// The common data of the auction.
    pub open spec fn common(self) -> CommonAuctionData {
        match self {
            Auction::English(a) => a.common_data,
        }
    }

    /// A copy of this auction.
    pub fn duplicate(&self) -> (r: Auction)
        ensures
            r.common().same_as(self.common()),
    {
        match self {
            Auction::English(a) => Auction::English(EnglishAuction { common_data: a.common_data.duplicate() }),
        }
    }
}

/// `amount` by which the next minimal bid exceeds a bid of `amount`: `bid_step_perc` percent
/// of it (at most 100), rounded down.
pub open spec fn bid_step(amount: Balance, bid_step_perc: u32) -> int {
    amount * ((if bid_step_perc <= 100 { bid_step_perc } else { 100 }) * 10_000) / 1_000_000
}

/// Whether the auction's end block has been reached at block `now`.
pub open spec fn spec_is_auction_ended(data: CommonAuctionData, now: BlockNumber) -> bool {
    now >= data.end
}

/// Whether the auction has ended at block `now` with a bid that reaches the reserve price.
pub open spec fn spec_is_auction_won(data: CommonAuctionData, now: BlockNumber) -> bool {
    &&& spec_is_auction_ended(data, now)
    &&& match data.last_bid {
        Some(last_bid) => match data.reserve_price {
            Some(reserve_price) => last_bid.1 >= reserve_price,
            None => true,
        },
        None => false,
    }
}

/// The first check that `data`, given by `sender` at block `now`, fails on create or update.
pub open spec fn common_data_error(
    sender: AccountId,
    data: CommonAuctionData,
    now: BlockNumber,
    config: AuctionConfig,
) -> Option<AuctionError> {
    if sender != data.owner {
        Some(AuctionError::NotAuctionOwner)
    } else if data.start < now {
        Some(AuctionError::AuctionStartTimeAlreadyPassed)
    } else if data.end == 0 {
        Some(AuctionError::InvalidTimeConfiguration)
    } else if data.start + config.min_auction_duration > u32::MAX {
        Some(AuctionError::Overflow)
    } else if data.end <= data.start + config.min_auction_duration {
        Some(AuctionError::InvalidTimeConfiguration)
    } else if data.name@.len() == 0 {
        Some(AuctionError::EmptyAuctionName)
    } else if data.next_bid_min < config.bid_min_amount {
        Some(AuctionError::InvalidNextBidMin)
    } else if data.closed {
        Some(AuctionError::CannotSetAuctionClosed)
    } else {
        None
    }
}

/// The first check that English auction data given by `sender` fails: the name's bound, the
/// common checks, then the minimal first bid, which is the reserve price when there is one and
/// the configured minimal bid otherwise.
pub open spec fn english_data_error(
    sender: AccountId,
    data: CommonAuctionData,
    now: BlockNumber,
    config: AuctionConfig,
) -> Option<AuctionError> {
    if data.name@.len() > config.auctions_string_limit {
        Some(AuctionError::TooLong)
    } else if common_data_error(sender, data, now, config) is Some {
        common_data_error(sender, data, now, config)
    } else {
        match data.reserve_price {
            Some(reserve_price) => if reserve_price != data.next_bid_min {
                Some(AuctionError::InvalidNextBidMin)
            } else {
                None
            },
            None => if data.next_bid_min != config.bid_min_amount {
                Some(AuctionError::InvalidNextBidMin)
            } else {
                None
            },
        }
    }
}

/// The first check that a bid of `bid_amount` by `bidder` at block `now` fails.
pub open spec fn bid_error(
    bidder: AccountId,
    data: CommonAuctionData,
    bid_amount: Balance,
    now: BlockNumber,
) -> Option<AuctionError> {
    if bidder == data.owner {
        Some(AuctionError::CannotBidOnOwnAuction)
    } else if now < data.start {
        Some(AuctionError::AuctionNotStarted)
    } else if now >= data.end {
        Some(AuctionError::AuctionEndTimeReached)
    } else if bid_amount < data.next_bid_min {
        Some(AuctionError::InvalidBidPrice)
    } else {
        match data.last_bid {
            Some(last_bid) => if bid_amount <= last_bid.1 {
                Some(AuctionError::InvalidBidPrice)
            } else {
                None
            },
            None => if bid_amount == 0 {
                Some(AuctionError::InvalidBidPrice)
            } else {
                None
            },
        }
    }
}

/// `Err` of the first failed check, `Ok` when there is none.
pub open spec fn check(e: Option<AuctionError>) -> Result<(), AuctionError> {
    match e {
        Some(e) => Err(e),
        None => Ok(()),
    }
}

/// The end of an auction after a bid at block `now`: extended to `now + bid_add_blocks` when
/// fewer blocks than that are left.
pub open spec fn sniping_end(end: BlockNumber, now: BlockNumber, bid_add_blocks: u32) -> int {
    if end - now < bid_add_blocks {
        now + bid_add_blocks
    } else {
        end as int
    }
}

/// The first failure of the bookkeeping that follows a validated bid: the next minimal bid and
/// the extended end must fit, and the end must not be behind `now`.
pub open spec fn bid_update_error(
    data: CommonAuctionData,
    bid_amount: Balance,
    now: BlockNumber,
    config: AuctionConfig,
) -> Option<AuctionError> {
    if bid_amount + bid_step(bid_amount, config.bid_step_perc) > u128::MAX {
        Some(AuctionError::BidOverflow)
    } else if data.end < now {
        Some(AuctionError::TimeUnderflow)
    } else if sniping_end(data.end, now, config.bid_add_blocks) > u32::MAX {
        Some(AuctionError::Overflow)
    } else {
        None
    }
}

/// The data of an auction after a bid that passed every check.
pub open spec fn data_after_bid(
    data: CommonAuctionData,
    bidder: AccountId,
    bid_amount: Balance,
    now: BlockNumber,
    config: AuctionConfig,
) -> CommonAuctionData {
    CommonAuctionData {
        last_bid: Some((bidder, bid_amount)),
        next_bid_min: (bid_amount + bid_step(bid_amount, config.bid_step_perc)) as u128,
        end: sniping_end(data.end, now, config.bid_add_blocks) as u32,
        ..data
    }
}

/// Locks moved by a bid: the previous bidder's lock is removed and the new bid is locked.
pub open spec fn bid_actions(data: CommonAuctionData, bidder: AccountId, bid_amount: Balance) -> Seq<
    AuctionAction,
> {
    match data.last_bid {
        Some(last_bid) => seq![
            AuctionAction::RemoveLock { who: last_bid.0 },
            AuctionAction::SetLock { who: bidder, amount: bid_amount },
        ],
        None => seq![AuctionAction::SetLock { who: bidder, amount: bid_amount }],
    }
}

/// What closing an auction asks of other pallets: the NFT is thawed; when there is a bid, the
/// NFT goes to the bidder, whose lock is removed and whose bid is paid to the owner.
pub open spec fn close_actions(data: CommonAuctionData) -> Seq<AuctionAction> {
    let thaw = seq![AuctionAction::ThawNft { owner: data.owner, token: data.token }];
    match data.last_bid {
        Some(winner) => thaw + seq![
            AuctionAction::TransferNft { from: data.owner, to: winner.0, token: data.token },
            AuctionAction::RemoveLock { who: winner.0 },
            AuctionAction::Transfer {
                from: winner.0,
                to: data.owner,
                amount: winner.1,
                keep_alive: true,
            },
        ],
        None => thaw,
    }
}

/// Checks the common data of an auction given by `sender` at block `now`.
pub fn validate_common_data(
    sender: AccountId,
    common_data: &CommonAuctionData,
    now: BlockNumber,
    config: &AuctionConfig,
) -> (r: Result<(), AuctionError>)
    ensures
        r == check(common_data_error(sender, *common_data, now, *config)),
{
    if sender != common_data.owner {
        return Err(AuctionError::NotAuctionOwner);
    }
    if common_data.start < now {
        return Err(AuctionError::AuctionStartTimeAlreadyPassed);
    }
    if common_data.end == 0 {
        return Err(AuctionError::InvalidTimeConfiguration);
    }
    let earliest_end = match common_data.start.checked_add(config.min_auction_duration) {
        Some(e) => e,
        None => return Err(AuctionError::Overflow),
    };
    if common_data.end <= earliest_end {
        return Err(AuctionError::InvalidTimeConfiguration);
    }
    if common_data.name.len() == 0 {
        return Err(AuctionError::EmptyAuctionName);
    }
    if common_data.next_bid_min < config.bid_min_amount as u128 {
        return Err(AuctionError::InvalidNextBidMin);
    }
    if common_data.closed {
        return Err(AuctionError::CannotSetAuctionClosed);
    }
    Ok(())
}

/// Checks that `sender` owns the NFT to be auctioned and that it can be transferred:
/// `token_owner` is its owner and `can_transfer` whether it is free of a freeze.
pub fn validate_create_permissions(
    sender: AccountId,
    token_owner: Option<AccountId>,
    can_transfer: bool,
) -> (r: Result<(), AuctionError>)
    ensures
        r == (if token_owner != Some(sender) {
            Err(AuctionError::NotATokenOwner)
        } else if !can_transfer {
            Err(AuctionError::TokenFrozen)
        } else {
            Ok(())
        }),
{
    match token_owner {
        Some(owner) => {
            if owner != sender {
                return Err(AuctionError::NotATokenOwner);
            }
        },
        None => {
            return Err(AuctionError::NotATokenOwner);
        },
    }
    if !can_transfer {
        return Err(AuctionError::TokenFrozen);
    }
    Ok(())
}

/// Checks that `sender` may update or destroy an existing auction at block `now`: it owns the
/// auction and the auction has not started.
pub fn validate_update_destroy_permissions(
    sender: AccountId,
    existing_common_data: &CommonAuctionData,
    now: BlockNumber,
) -> (r: Result<(), AuctionError>)
    ensures
        r == (if sender != existing_common_data.owner {
            Err(AuctionError::NotAuctionOwner)
        } else if existing_common_data.start <= now {
            Err(AuctionError::AuctionAlreadyStarted)
        } else {
            Ok(())
        }),
{
    if sender != existing_common_data.owner {
        return Err(AuctionError::NotAuctionOwner);
    }
    if existing_common_data.start <= now {
        return Err(AuctionError::AuctionAlreadyStarted);
    }
    Ok(())
}

/// Checks that an update keeps the auctioned token and the owner.
pub fn validate_update(
    existing_common_data: &CommonAuctionData,
    updated_common_data: &CommonAuctionData,
) -> (r: Result<(), AuctionError>)
    ensures
        r == (if existing_common_data.token != updated_common_data.token
            || existing_common_data.owner != updated_common_data.owner {
            Err(AuctionError::CannotChangeForbiddenAttribute)
        } else {
            Ok(())
        }),
{
    if existing_common_data.token.0 != updated_common_data.token.0
        || existing_common_data.token.1 != updated_common_data.token.1 {
        return Err(AuctionError::CannotChangeForbiddenAttribute);
    }
    if existing_common_data.owner != updated_common_data.owner {
        return Err(AuctionError::CannotChangeForbiddenAttribute);
    }
    Ok(())
}

/// Checks a bid of `bid.amount` by `bidder` on a running auction at block `now`.
pub fn validate_bid(
    bidder: AccountId,
    common_auction_data: &CommonAuctionData,
    bid: &Bid,
    now: BlockNumber,
) -> (r: Result<(), AuctionError>)
    ensures
        r == check(bid_error(bidder, *common_auction_data, bid.amount, now)),
{
    if bidder == common_auction_data.owner {
        return Err(AuctionError::CannotBidOnOwnAuction);
    }
    if now < common_auction_data.start {
        return Err(AuctionError::AuctionNotStarted);
    }
    if now >= common_auction_data.end {
        return Err(AuctionError::AuctionEndTimeReached);
    }
    if bid.amount < common_auction_data.next_bid_min {
        return Err(AuctionError::InvalidBidPrice);
    }
    match common_auction_data.last_bid {
        Some(current_bid) => {
            if bid.amount <= current_bid.1 {
                return Err(AuctionError::InvalidBidPrice);
            }
        },
        None => {
            if bid.amount == 0 {
                return Err(AuctionError::InvalidBidPrice);
            }
        },
    }
    Ok(())
}

/// Checks that an auction can be closed at block `now`: not closed yet, and ended.
pub fn validate_close(common_auction_data: &CommonAuctionData, now: BlockNumber) -> (r: Result<
    (),
    AuctionError,
>)
    ensures
        r == (if common_auction_data.closed {
            Err(AuctionError::AuctionClosed)
        } else if !spec_is_auction_ended(*common_auction_data, now) {
            Err(AuctionError::AuctionEndTimeNotReached)
        } else {
            Ok(())
        }),
{
    if common_auction_data.closed {
        return Err(AuctionError::AuctionClosed);
    }
    if !is_auction_ended(common_auction_data, now) {
        return Err(AuctionError::AuctionEndTimeNotReached);
    }
    Ok(())
}

/// Checks that reserved amounts of an auction can be claimed at block `now`: it has ended and
/// has been closed.
pub fn validate_claim(common_auction_data: &CommonAuctionData, now: BlockNumber) -> (r: Result<
    (),
    AuctionError,
>)
    ensures
        r == (if !spec_is_auction_ended(*common_auction_data, now) {
            Err(AuctionError::AuctionEndTimeNotReached)
        } else if !common_auction_data.closed {
            Err(AuctionError::CloseAuctionBeforeClaimingReservedAmounts)
        } else {
            Ok(())
        }),
{
    if !is_auction_ended(common_auction_data, now) {
        return Err(AuctionError::AuctionEndTimeNotReached);
    }
    if !common_auction_data.closed {
        return Err(AuctionError::CloseAuctionBeforeClaimingReservedAmounts);
    }
    Ok(())
}

/// Sets the next minimal bid after a bid of `amount`: `amount` plus `bid_step_perc` percent of
/// it, rounded down; leaves the data unchanged when that overflows.
pub fn set_next_bid_min(
    common_auction_data: &mut CommonAuctionData,
    amount: Balance,
    bid_step_perc: u32,
) -> (r: Result<(), AuctionError>)
    ensures
        amount + bid_step(amount, bid_step_perc) <= u128::MAX ==> {
            &&& r is Ok
            &&& *final(common_auction_data) == CommonAuctionData {
                next_bid_min: (amount + bid_step(amount, bid_step_perc)) as u128,
                ..*old(common_auction_data)
            }
        },
        amount + bid_step(amount, bid_step_perc) > u128::MAX ==> {
            &&& r == Err::<(), AuctionError>(AuctionError::BidOverflow)
            &&& *final(common_auction_data) == *old(common_auction_data)
        },
{
    let bid_step = Permill::from_percent(bid_step_perc).mul_floor(amount);
    match amount.checked_add(bid_step) {
        Some(next) => {
            common_auction_data.next_bid_min = next;
            Ok(())
        },
        None => Err(AuctionError::BidOverflow),
    }
}

/// Extends the end of the auction to `now + bid_add_blocks` when fewer blocks than that are
/// left, so that a late bid can be answered; leaves the data unchanged on error.
pub fn avoid_auction_sniping(
    common_auction_data: &mut CommonAuctionData,
    now: BlockNumber,
    bid_add_blocks: u32,
) -> (r: Result<(), AuctionError>)
    ensures
        old(common_auction_data).end < now ==> {
            &&& r == Err::<(), AuctionError>(AuctionError::TimeUnderflow)
            &&& *final(common_auction_data) == *old(common_auction_data)
        },
        old(common_auction_data).end >= now && sniping_end(old(common_auction_data).end, now, bid_add_blocks)
            > u32::MAX ==> {
            &&& r == Err::<(), AuctionError>(AuctionError::Overflow)
            &&& *final(common_auction_data) == *old(common_auction_data)
        },
        old(common_auction_data).end >= now && sniping_end(old(common_auction_data).end, now, bid_add_blocks)
            <= u32::MAX ==> {
            &&& r is Ok
            &&& *final(common_auction_data) == CommonAuctionData {
                end: sniping_end(old(common_auction_data).end, now, bid_add_blocks) as u32,
                ..*old(common_auction_data)
            }
        },
{
    let time_left = match common_auction_data.end.checked_sub(now) {
        Some(t) => t,
        None => return Err(AuctionError::TimeUnderflow),
    };
    if time_left < bid_add_blocks {
        match now.checked_add(bid_add_blocks) {
            Some(end) => {
                common_auction_data.end = end;
            },
            None => return Err(AuctionError::Overflow),
        }
    }
    Ok(())
}

/// Whether the auction's end block has been reached at block `now`.
pub fn is_auction_ended(common_auction_data: &CommonAuctionData, now: BlockNumber) -> (r: bool)
    ensures
        r == spec_is_auction_ended(*common_auction_data, now),
{
    now >= common_auction_data.end
}

/// Whether the auction has ended at block `now` with a bid that reaches its reserve price.
pub fn is_auction_won(common_auction_data: &CommonAuctionData, now: BlockNumber) -> (r: bool)
    ensures
        r == spec_is_auction_won(*common_auction_data, now),
{
    if !is_auction_ended(common_auction_data, now) {
        return false;
    }
    match common_auction_data.last_bid {
        Some(last_bid) => match common_auction_data.reserve_price {
            Some(reserve_price) => last_bid.1 >= reserve_price,
            None => true,
        },
        None => false,
    }
}


impl EnglishAuction {
    /// Checks the auction's data as given by `sender` at block `now`.
    pub fn validate_data(&self, sender: AccountId, now: BlockNumber, config: &AuctionConfig) -> (r:
        Result<(), AuctionError>)
        ensures
            r == check(english_data_error(sender, self.common_data, now, *config)),
    {
        if self.common_data.name.len() > config.auctions_string_limit as usize {
            return Err(AuctionError::TooLong);
        }
        validate_common_data(sender, &self.common_data, now, config)?;
        match self.common_data.reserve_price {
            Some(reserve_price) => {
                if reserve_price != self.common_data.next_bid_min {
                    return Err(AuctionError::InvalidNextBidMin);
                }
            },
            None => {
                if self.common_data.next_bid_min != config.bid_min_amount as u128 {
                    return Err(AuctionError::InvalidNextBidMin);
                }
            },
        }
        Ok(())
    }

    /// Records a bid that passed `validate_bid`: moves the lock from the previous bidder to
    /// `bidder`, sets the last bid and the next minimal bid, and extends the end against
    /// sniping. Leaves the auction unchanged on error.
    pub fn bid(&mut self, bidder: AccountId, bid: &Bid, now: BlockNumber, config: &AuctionConfig) -> (r:
        Result<Vec<AuctionAction>, AuctionError>)
        ensures
            match bid_update_error(old(self).common_data, bid.amount, now, *config) {
                Some(e) => r == Err::<Vec<AuctionAction>, AuctionError>(e) && *final(self) == *old(self),
                None => r matches Ok(actions) && actions@ == bid_actions(
                    old(self).common_data,
                    bidder,
                    bid.amount,
                ) && final(self).common_data == data_after_bid(
                    old(self).common_data,
                    bidder,
                    bid.amount,
                    now,
                    *config,
                ),
            },
    {
        let mut actions: Vec<AuctionAction> = Vec::new();
        let previous_bid = self.common_data.last_bid;
        let previous_min = self.common_data.next_bid_min;
        if let Some(current_bid) = previous_bid {
            actions.push(AuctionAction::RemoveLock { who: current_bid.0 });
        }
        actions.push(AuctionAction::SetLock { who: bidder, amount: bid.amount });
        self.common_data.last_bid = Some((bidder, bid.amount));
        if let Err(e) = set_next_bid_min(&mut self.common_data, bid.amount, config.bid_step_perc) {
            self.common_data.last_bid = previous_bid;
            return Err(e);
        }
        if let Err(e) = avoid_auction_sniping(&mut self.common_data, now, config.bid_add_blocks) {
            self.common_data.last_bid = previous_bid;
            self.common_data.next_bid_min = previous_min;
            return Err(e);
        }
        proof {
            assert(actions@ =~= bid_actions(old(self).common_data, bidder, bid.amount));
        }
        Ok(actions)
    }

    /// Closes the auction: thaws the NFT and, when there is a bid, hands the NFT to the
    /// bidder and the bid to the owner. Returns whether the auction's data is to be destroyed,
    /// which for English auctions it always is.
    pub fn close(&mut self) -> (r: (bool, Vec<AuctionAction>))
        ensures
            r.0,
            r.1@ == close_actions(old(self).common_data),
            final(self).common_data == (CommonAuctionData { closed: true, ..old(self).common_data }),
    {
        let mut actions: Vec<AuctionAction> = Vec::new();
        actions.push(AuctionAction::ThawNft { owner: self.common_data.owner, token: self.common_data.token });
        if let Some(winner) = self.common_data.last_bid {
            actions.push(
                AuctionAction::TransferNft {
                    from: self.common_data.owner,
                    to: winner.0,
                    token: self.common_data.token,
                },
            );
            actions.push(AuctionAction::RemoveLock { who: winner.0 });
            actions.push(
                AuctionAction::Transfer {
                    from: winner.0,
                    to: self.common_data.owner,
                    amount: winner.1,
                    keep_alive: true,
                },
            );
        }
        self.common_data.closed = true;
        proof {
            assert(actions@ =~= close_actions(old(self).common_data));
        }
        (true, actions)
    }

    /// English auctions reserve no amounts, so nothing can be claimed from them.
    pub fn claim(&self, _bidder: AccountId, _amount: Balance) -> (r: Result<bool, AuctionError>)
        ensures
            r == Err::<bool, AuctionError>(AuctionError::ClaimsNotSupportedForThisAuctionType),
    {
        Err(AuctionError::ClaimsNotSupportedForThisAuctionType)
    }
}

/// Storage of the auctions pallet.
pub struct AuctionsState {
    /// On-going and future auctions.
    pub auctions: HashMap<AuctionId, Auction>,
    /// The id that the next auction gets.
    pub next_auction_id: AuctionId,
    /// Owner of each auction.
    pub auction_owner_by_id: HashMap<AuctionId, AccountId>,
    /// Amounts reserved by bidders, by bidder and auction.
    pub reserved_amounts: DoubleMap<Balance>,
}

/// The first check that a bid fails, for an auction among `auctions`.
pub open spec fn pallet_bid_error(
    auctions: Map<AuctionId, Auction>,
    auction_id: AuctionId,
    bidder: AccountId,
    amount: Balance,
    now: BlockNumber,
    config: AuctionConfig,
) -> Option<AuctionError> {
    if !auctions.contains_key(auction_id) {
        Some(AuctionError::AuctionDoesNotExist)
    } else if bid_error(bidder, auctions[auction_id].common(), amount, now) is Some {
        bid_error(bidder, auctions[auction_id].common(), amount, now)
    } else {
        bid_update_error(auctions[auction_id].common(), amount, now, config)
    }
}

/// The first check that closing an auction among `auctions` at block `now` fails.
pub open spec fn pallet_close_error(
    auctions: Map<AuctionId, Auction>,
    auction_id: AuctionId,
    now: BlockNumber,
) -> Option<AuctionError> {
    if !auctions.contains_key(auction_id) {
        Some(AuctionError::AuctionDoesNotExist)
    } else if auctions[auction_id].common().closed {
        Some(AuctionError::AuctionClosed)
    } else if !spec_is_auction_ended(auctions[auction_id].common(), now) {
        Some(AuctionError::AuctionEndTimeNotReached)
    } else {
        None
    }
}

impl AuctionsState {
    /// Whether two storages hold the same auctions, records and next id.
    pub open spec fn same_state(self, other: AuctionsState) -> bool {
        &&& self.auctions@ == other.auctions@
        &&& self.next_auction_id == other.next_auction_id
        &&& self.auction_owner_by_id@ == other.auction_owner_by_id@
        &&& self.reserved_amounts@ == other.reserved_amounts@
    }

    /// Consistency of the storage: every auction has an id below the next one and an owner
    /// record that names its owner, every owner record belongs to an auction, and no auction has
    /// a bid or a minimal bid below its reserve price.
    pub open spec fn wf(self) -> bool {
        &&& forall|id: AuctionId| #[trigger] self.auctions@.contains_key(id) ==> id < self.next_auction_id
        &&& forall|id: AuctionId|
            #[trigger] self.auctions@.contains_key(id) <==> self.auction_owner_by_id@.contains_key(id)
        &&& forall|id: AuctionId| #[trigger]
            self.auctions@.contains_key(id) ==> self.auction_owner_by_id@[id]
                == self.auctions@[id].common().owner
        &&& forall|id: AuctionId| #[trigger]
            self.auctions@.contains_key(id) ==> respects_reserve(self.auctions@[id].common())
    }

    /// Storage with no auctions.
    pub fn new() -> (s: AuctionsState)
        ensures
            s.auctions@ == Map::<AuctionId, Auction>::empty(),
            s.next_auction_id == 0,
            s.auction_owner_by_id@ == Map::<AuctionId, AccountId>::empty(),
            s.reserved_amounts@ == Map::<(u64, u64), Balance>::empty(),
            s.wf(),
    {
        AuctionsState {
            auctions: HashMap::new(),
            next_auction_id: 0,
            auction_owner_by_id: HashMap::new(),
            reserved_amounts: DoubleMap::new(),
        }
    }

    /// Stores a validated auction of `sender` under the next id, freezing its NFT.
    pub fn handle_create(&mut self, sender: AccountId, auction: Auction) -> (r: Result<
        (AuctionId, Vec<AuctionAction>, AuctionEvent),
        AuctionError,
    >)
        ensures
            old(self).next_auction_id == u64::MAX ==> r == Err::<
                (AuctionId, Vec<AuctionAction>, AuctionEvent),
                AuctionError,
            >(AuctionError::NoAvailableAuctionId) && final(self).same_state(*old(self)),
            old(self).next_auction_id < u64::MAX ==> r is Ok,
            r matches Ok((id, actions, event)) ==> {
                &&& id == old(self).next_auction_id
                &&& final(self).next_auction_id == id + 1
                &&& final(self).auctions@ == old(self).auctions@.insert(id, auction)
                &&& final(self).auction_owner_by_id@ == old(self).auction_owner_by_id@.insert(id, sender)
                &&& final(self).reserved_amounts@ == old(self).reserved_amounts@
                &&& actions@ == seq![AuctionAction::FreezeNft { owner: sender, token: auction.common().token }]
                &&& event matches AuctionEvent::AuctionCreated { auction_id, auction: a }
                    && auction_id == id && a.common().same_as(auction.common())
            },
    {
        let auction_id = self.next_auction_id;
        let next = match self.next_auction_id.checked_add(1) {
            Some(n) => n,
            None => return Err(AuctionError::NoAvailableAuctionId),
        };
        self.next_auction_id = next;
        let token = match &auction {
            Auction::English(a) => a.common_data.token,
        };
        let mut actions: Vec<AuctionAction> = Vec::new();
        actions.push(AuctionAction::FreezeNft { owner: sender, token });
        let copy = auction.duplicate();
        self.auctions.insert(auction_id, auction);
        self.auction_owner_by_id.insert(auction_id, sender);
        proof {
            assert(actions@ =~= seq![AuctionAction::FreezeNft { owner: sender, token: auction.common().token }]);
        }
        Ok((auction_id, actions, AuctionEvent::AuctionCreated { auction_id, auction: copy }))
    }

    /// Removes an auction and its owner record.
    fn remove_records(&mut self, auction_id: AuctionId)
        ensures
            final(self).auctions@ == old(self).auctions@.remove(auction_id),
            final(self).auction_owner_by_id@ == old(self).auction_owner_by_id@.remove(auction_id),
            final(self).next_auction_id == old(self).next_auction_id,
            final(self).reserved_amounts@ == old(self).reserved_amounts@,
    {
        self.auction_owner_by_id.remove(&auction_id);
        self.auctions.remove(&auction_id);
    }

    /// Destroys an auction: removes it and its owner record, thaws its NFT and reports the
    /// destruction. `owner` and `token` are the auction's owner and NFT.
    pub fn handle_destroy(
        &mut self,
        auction_id: AuctionId,
        owner: AccountId,
        token: (NftClassId, NftInstanceId),
    ) -> (r: (Vec<AuctionAction>, AuctionEvent))
        ensures
            final(self).auctions@ == old(self).auctions@.remove(auction_id),
            final(self).auction_owner_by_id@ == old(self).auction_owner_by_id@.remove(auction_id),
            final(self).next_auction_id == old(self).next_auction_id,
            final(self).reserved_amounts@ == old(self).reserved_amounts@,
            r.0@ == seq![(AuctionAction::ThawNft { owner, token })],
            r.1 == (AuctionEvent::AuctionDestroyed { auction_id }),
    {
        self.remove_records(auction_id);
        let mut actions: Vec<AuctionAction> = Vec::new();
        actions.push(AuctionAction::ThawNft { owner, token });
        proof {
            assert(actions@ =~= seq![AuctionAction::ThawNft { owner, token }]);
        }
        (actions, AuctionEvent::AuctionDestroyed { auction_id })
    }

    /// Creates an auction given by `sender` at block `now`, where `token_owner` is the owner
    /// of the auctioned NFT and `can_transfer` whether it is free of a freeze.
    pub fn create(
        &mut self,
        sender: AccountId,
        auction: Auction,
        now: BlockNumber,
        config: &AuctionConfig,
        token_owner: Option<AccountId>,
        can_transfer: bool,
    ) -> (r: Result<(AuctionId, Vec<AuctionAction>, AuctionEvent), AuctionError>)
        ensures
            old(self).wf() ==> final(self).wf(),
            english_data_error(sender, auction.common(), now, *config) matches Some(e) ==> r == Err::<
                (AuctionId, Vec<AuctionAction>, AuctionEvent),
                AuctionError,
            >(e) && final(self).same_state(*old(self)),
            english_data_error(sender, auction.common(), now, *config) is None
                && token_owner != Some(sender) ==> r == Err::<
                (AuctionId, Vec<AuctionAction>, AuctionEvent),
                AuctionError,
            >(AuctionError::NotATokenOwner) && final(self).same_state(*old(self)),
            english_data_error(sender, auction.common(), now, *config) is None
                && token_owner == Some(sender) && !can_transfer ==> r == Err::<
                (AuctionId, Vec<AuctionAction>, AuctionEvent),
                AuctionError,
            >(AuctionError::TokenFrozen) && final(self).same_state(*old(self)),
            english_data_error(sender, auction.common(), now, *config) is None
                && token_owner == Some(sender) && can_transfer
                && old(self).next_auction_id == u64::MAX ==> r == Err::<
                (AuctionId, Vec<AuctionAction>, AuctionEvent),
                AuctionError,
            >(AuctionError::NoAvailableAuctionId) && final(self).same_state(*old(self)),
            r matches Ok((id, actions, event)) ==> {
                &&& english_data_error(sender, auction.common(), now, *config) is None
                &&& token_owner == Some(sender) && can_transfer
                &&& id == old(self).next_auction_id
                &&& final(self).next_auction_id == id + 1
                &&& final(self).auctions@ == old(self).auctions@.insert(id, auction)
                &&& final(self).auction_owner_by_id@ == old(self).auction_owner_by_id@.insert(id, sender)
                &&& final(self).reserved_amounts@ == old(self).reserved_amounts@
                &&& actions@ == seq![AuctionAction::FreezeNft { owner: sender, token: auction.common().token }]
                &&& event matches AuctionEvent::AuctionCreated { auction_id, auction: a }
                    && auction_id == id && a.common().same_as(auction.common())
            },
            english_data_error(sender, auction.common(), now, *config) is None
                && token_owner == Some(sender) && can_transfer
                && old(self).next_auction_id < u64::MAX ==> r is Ok,
    {
        match &auction {
            Auction::English(a) => {
                a.validate_data(sender, now, config)?;
            },
        }
        validate_create_permissions(sender, token_owner, can_transfer)?;
        let ghost new_auction = auction;
        let r = self.handle_create(sender, auction);
        proof {
            if old(self).wf() && r is Ok {
                let id = old(self).next_auction_id;
                assert forall|k: AuctionId| #[trigger] self.auctions@.contains_key(k) implies k
                    < self.next_auction_id by {
                    if k != id {
                        assert(old(self).auctions@.contains_key(k));
                    }
                }
                assert forall|k: AuctionId| #[trigger] self.auctions@.contains_key(k) implies self.auction_owner_by_id@[k]
                    == self.auctions@[k].common().owner && respects_reserve(self.auctions@[k].common()) by {
                    if k != id {
                        assert(old(self).auctions@.contains_key(k));
                    }
                }
                assert forall|k: AuctionId| #[trigger] self.auctions@.contains_key(k)
                    <==> self.auction_owner_by_id@.contains_key(k) by {
                    if k != id {
                        assert(old(self).auctions@.contains_key(k) <==> old(self).auction_owner_by_id@.contains_key(k));
                    }
                }
            }
        }
        r
    }

    /// Replaces an auction that has not started with `updated_auction`, given by its owner.
    pub fn update(
        &mut self,
        sender: AccountId,
        auction_id: AuctionId,
        updated_auction: Auction,
        now: BlockNumber,
        config: &AuctionConfig,
    ) -> (r: Result<AuctionEvent, AuctionError>)
        ensures
            old(self).wf() ==> final(self).wf(),
            r is Err ==> final(self).same_state(*old(self)),
            r is Ok <==> {
                &&& english_data_error(sender, updated_auction.common(), now, *config) is None
                &&& old(self).auctions@.contains_key(auction_id)
                &&& sender == old(self).auctions@[auction_id].common().owner
                &&& now < old(self).auctions@[auction_id].common().start
                &&& updated_auction.common().token == old(self).auctions@[auction_id].common().token
                &&& updated_auction.common().owner == old(self).auctions@[auction_id].common().owner
            },
            english_data_error(sender, updated_auction.common(), now, *config) matches Some(e) ==> r
                == Err::<AuctionEvent, AuctionError>(e),
            english_data_error(sender, updated_auction.common(), now, *config) is None
                && !old(self).auctions@.contains_key(auction_id) ==> r == Err::<AuctionEvent, AuctionError>(
                AuctionError::AuctionDoesNotExist,
            ),
            english_data_error(sender, updated_auction.common(), now, *config) is None
                && old(self).auctions@.contains_key(auction_id) ==> (validate_destroy_result(
                sender,
                old(self).auctions@[auction_id].common(),
                now,
            ) matches Err(e) ==> r == Err::<AuctionEvent, AuctionError>(e)),
            english_data_error(sender, updated_auction.common(), now, *config) is None
                && old(self).auctions@.contains_key(auction_id) && validate_destroy_result(
                sender,
                old(self).auctions@[auction_id].common(),
                now,
            ) is Ok && (updated_auction.common().token != old(self).auctions@[auction_id].common().token
                || updated_auction.common().owner != old(self).auctions@[auction_id].common().owner) ==> r
                == Err::<AuctionEvent, AuctionError>(AuctionError::CannotChangeForbiddenAttribute),
            r matches Ok(event) ==> {
                &&& final(self).auctions@ == old(self).auctions@.insert(auction_id, updated_auction)
                &&& final(self).auction_owner_by_id@ == old(self).auction_owner_by_id@
                &&& final(self).next_auction_id == old(self).next_auction_id
                &&& final(self).reserved_amounts@ == old(self).reserved_amounts@
                &&& event matches AuctionEvent::AuctionUpdated { auction_id: id, auction: a }
                    && id == auction_id && a.common().same_as(updated_auction.common())
            },
    {
        match &updated_auction {
            Auction::English(a) => {
                a.validate_data(sender, now, config)?;
            },
        }
        match self.auctions.get(&auction_id) {
            Some(existing) => {
                let existing_data = match existing {
                    Auction::English(a) => &a.common_data,
                };
                let updated_data = match &updated_auction {
                    Auction::English(a) => &a.common_data,
                };
                validate_update_destroy_permissions(sender, existing_data, now)?;
                validate_update(existing_data, updated_data)?;
            },
            None => return Err(AuctionError::AuctionDoesNotExist),
        }
        let copy = updated_auction.duplicate();
        let ghost new_auction = updated_auction;
        self.auctions.insert(auction_id, updated_auction);
        proof {
            if old(self).wf() {
                assert forall|k: AuctionId| #[trigger] self.auctions@.contains_key(k) implies self.auction_owner_by_id@[k]
                    == self.auctions@[k].common().owner && respects_reserve(self.auctions@[k].common())
                    && k < self.next_auction_id by {
                    if k != auction_id {
                        assert(old(self).auctions@.contains_key(k));
                    } else {
                        assert(old(self).auctions@.contains_key(k));
                    }
                }
                assert forall|k: AuctionId| #[trigger] self.auctions@.contains_key(k)
                    <==> self.auction_owner_by_id@.contains_key(k) by {
                    assert(old(self).auctions@.contains_key(k) <==> old(self).auction_owner_by_id@.contains_key(k));
                }
            }
        }
        Ok(AuctionEvent::AuctionUpdated { auction_id, auction: copy })
    }

    /// Destroys an auction that has not started, at the request of its owner, thawing its NFT.
    pub fn destroy(&mut self, sender: AccountId, auction_id: AuctionId, now: BlockNumber) -> (r:
        Result<(Vec<AuctionAction>, AuctionEvent), AuctionError>)
        ensures
            old(self).wf() ==> final(self).wf(),
            !old(self).auctions@.contains_key(auction_id) ==> r == Err::<
                (Vec<AuctionAction>, AuctionEvent),
                AuctionError,
            >(AuctionError::AuctionDoesNotExist),
            r is Err ==> final(self).same_state(*old(self)),
            r is Ok <==> {
                &&& old(self).auctions@.contains_key(auction_id)
                &&& validate_destroy_result(sender, old(self).auctions@[auction_id].common(), now) is Ok
            },
            old(self).auctions@.contains_key(auction_id) ==> (validate_destroy_result(
                sender,
                old(self).auctions@[auction_id].common(),
                now,
            ) matches Err(e) ==> r == Err::<(Vec<AuctionAction>, AuctionEvent), AuctionError>(e)),
            r matches Ok((actions, event)) ==> {
                &&& final(self).auctions@ == old(self).auctions@.remove(auction_id)
                &&& final(self).auction_owner_by_id@ == old(self).auction_owner_by_id@.remove(auction_id)
                &&& final(self).next_auction_id == old(self).next_auction_id
                &&& final(self).reserved_amounts@ == old(self).reserved_amounts@
                &&& actions@ == seq![
                    AuctionAction::ThawNft {
                        owner: old(self).auctions@[auction_id].common().owner,
                        token: old(self).auctions@[auction_id].common().token,
                    },
                ]
                &&& event == AuctionEvent::AuctionDestroyed { auction_id }
            },
    {
        let (owner, token) = match self.auctions.get(&auction_id) {
            Some(existing) => {
                let existing_data = match existing {
                    Auction::English(a) => &a.common_data,
                };
                validate_update_destroy_permissions(sender, existing_data, now)?;
                (existing_data.owner, existing_data.token)
            },
            None => return Err(AuctionError::AuctionDoesNotExist),
        };
        Ok(self.handle_destroy(auction_id, owner, token))
    }

    /// Places a bid of `amount` by `bidder` at block `now` on a running auction.
    pub fn bid(
        &mut self,
        bidder: AccountId,
        auction_id: AuctionId,
        amount: Balance,
        now: BlockNumber,
        config: &AuctionConfig,
    ) -> (r: Result<(Vec<AuctionAction>, AuctionEvent), AuctionError>)
        ensures
            old(self).wf() ==> final(self).wf(),
            match pallet_bid_error(old(self).auctions@, auction_id, bidder, amount, now, *config) {
                Some(e) => r == Err::<(Vec<AuctionAction>, AuctionEvent), AuctionError>(e)
                    && final(self).same_state(*old(self)),
                None => r matches Ok((actions, event)) && {
                    let data = old(self).auctions@[auction_id].common();
                    &&& final(self).auctions@ == old(self).auctions@.insert(
                        auction_id,
                        Auction::English(EnglishAuction { common_data: data_after_bid(data, bidder, amount, now, *config) }),
                    )
                    &&& final(self).auction_owner_by_id@ == old(self).auction_owner_by_id@
                    &&& final(self).next_auction_id == old(self).next_auction_id
                    &&& final(self).reserved_amounts@ == old(self).reserved_amounts@
                    &&& actions@ == bid_actions(data, bidder, amount)
                    &&& event == AuctionEvent::BidPlaced {
                        auction_id,
                        bidder,
                        bid: Bid { amount, block_number: now },
                    }
                },
            },
    {
        let bid = Bid { amount, block_number: now };
        if !self.auctions.contains_key(&auction_id) {
            return Err(AuctionError::AuctionDoesNotExist);
        }
        let auction = match self.auctions.remove(&auction_id) {
            Some(a) => a,
            None => return Err(AuctionError::AuctionDoesNotExist),
        };
        let ghost old_auctions = old(self).auctions@;
        let Auction::English(mut english) = auction;
        if let Err(e) = validate_bid(bidder, &english.common_data, &bid, now) {
            self.auctions.insert(auction_id, Auction::English(english));
            proof {
                assert(self.auctions@ =~= old_auctions);
            }
            return Err(e);
        }
        match english.bid(bidder, &bid, now, config) {
            Ok(actions) => {
                self.auctions.insert(auction_id, Auction::English(english));
                Ok((actions, AuctionEvent::BidPlaced { auction_id, bidder, bid }))
            },
            Err(e) => {
                self.auctions.insert(auction_id, Auction::English(english));
                proof {
                    assert(self.auctions@ =~= old_auctions);
                }
                Err(e)
            },
        }
    }

    /// Closes an auction whose end has been reached at block `now`: the NFT goes to the last
    /// bidder and the bid to the owner, the auction and its owner record are removed (closing
    /// has thawed the NFT already), and the closing is reported with the winner, if any.
    pub fn close(&mut self, auction_id: AuctionId, now: BlockNumber) -> (r: Result<
        (Vec<AuctionAction>, AuctionEvent),
        AuctionError,
    >)
        ensures
            old(self).wf() ==> final(self).wf(),
            match pallet_close_error(old(self).auctions@, auction_id, now) {
                Some(e) => r == Err::<(Vec<AuctionAction>, AuctionEvent), AuctionError>(e) && final(self).same_state(
                    *old(self),
                ),
                None => r matches Ok((actions, event)) && {
                    &&& actions@ == close_actions(old(self).auctions@[auction_id].common())
                    &&& event == AuctionEvent::AuctionClosed {
                        auction_id,
                        auction_winner: match old(self).auctions@[auction_id].common().last_bid {
                            Some(winner) => Some(winner.0),
                            None => None,
                        },
                    }
                    &&& final(self).auctions@ == old(self).auctions@.remove(auction_id)
                    &&& final(self).auction_owner_by_id@ == old(self).auction_owner_by_id@.remove(auction_id)
                    &&& final(self).next_auction_id == old(self).next_auction_id
                    &&& final(self).reserved_amounts@ == old(self).reserved_amounts@
                },
            },
    {
        if !self.auctions.contains_key(&auction_id) {
            return Err(AuctionError::AuctionDoesNotExist);
        }
        let auction = match self.auctions.remove(&auction_id) {
            Some(a) => a,
            None => return Err(AuctionError::AuctionDoesNotExist),
        };
        let ghost old_auctions = old(self).auctions@;
        let Auction::English(mut english) = auction;
        if let Err(e) = validate_close(&english.common_data, now) {
            self.auctions.insert(auction_id, Auction::English(english));
            proof {
                assert(self.auctions@ =~= old_auctions);
            }
            return Err(e);
        }
        let auction_winner = match english.common_data.last_bid {
            Some(winner) => Some(winner.0),
            None => None,
        };
        let (destroy_auction_data, actions) = english.close();
        if destroy_auction_data {
            self.remove_records(auction_id);
        } else {
            self.auctions.insert(auction_id, Auction::English(english));
        }
        proof {
            assert(self.auctions@ =~= old_auctions.remove(auction_id));
        }
        Ok((actions, AuctionEvent::AuctionClosed { auction_id, auction_winner }))
    }

    /// Claims the amount that `bidder` has reserved in an auction.
    pub fn claim(&mut self, bidder: AccountId, auction_id: AuctionId, now: BlockNumber) -> (r: Result<
        (bool, AuctionEvent),
        AuctionError,
    >)
        ensures
            old(self).wf() ==> final(self).wf(),
            final(self).same_state(*old(self)),
            !old(self).reserved_amounts@.contains_key((bidder, auction_id))
                || old(self).reserved_amounts@[(bidder, auction_id)] == 0 ==> r == Err::<
                (bool, AuctionEvent),
                AuctionError,
            >(AuctionError::NoReservedAmountAvailableToClaim),
            old(self).reserved_amounts@.contains_key((bidder, auction_id))
                && old(self).reserved_amounts@[(bidder, auction_id)] > 0
                && !old(self).auctions@.contains_key(auction_id) ==> r == Err::<
                (bool, AuctionEvent),
                AuctionError,
            >(AuctionError::AuctionDoesNotExist),
            old(self).reserved_amounts@.contains_key((bidder, auction_id))
                && old(self).reserved_amounts@[(bidder, auction_id)] > 0
                && old(self).auctions@.contains_key(auction_id) ==> r == Err::<
                (bool, AuctionEvent),
                AuctionError,
            >(AuctionError::ClaimsNotSupportedForThisAuctionType),
    {
        let claimable_amount = match self.reserved_amounts.get(bidder, auction_id) {
            Some(a) => *a,
            None => 0,
        };
        if claimable_amount == 0 {
            return Err(AuctionError::NoReservedAmountAvailableToClaim);
        }
        let destroy_auction_data = match self.auctions.get(&auction_id) {
            Some(Auction::English(a)) => a.claim(bidder, claimable_amount)?,
            None => return Err(AuctionError::AuctionDoesNotExist),
        };
        Ok(
            (
                destroy_auction_data,
                AuctionEvent::BidAmountClaimed { auction_id, bidder, amount: claimable_amount },
            ),
        )
    }

    /// Reserves a bid amount by transferring it from the bidder to the auction's account
    /// (`auction_account`, when it can be derived) and adding it to the bidder's reserved
    /// amount.
    pub fn reserve_bid_amount(
        &mut self,
        auction_id: AuctionId,
        bidder: AccountId,
        bid_amount: Balance,
        auction_account: Option<AccountId>,
    ) -> (r: Result<(Vec<AuctionAction>, AuctionEvent), AuctionError>)
        ensures
            old(self).wf() ==> final(self).wf(),
            auction_account is None ==> r == Err::<(Vec<AuctionAction>, AuctionEvent), AuctionError>(
                AuctionError::CannotGenerateAuctionAccount,
            ) && final(self).same_state(*old(self)),
            auction_account is Some && reserved_of(old(self).reserved_amounts@, bidder, auction_id) + bid_amount
                > u128::MAX ==> r == Err::<(Vec<AuctionAction>, AuctionEvent), AuctionError>(
                AuctionError::InvalidReservedAmount,
            ) && final(self).same_state(*old(self)),
            auction_account is Some && reserved_of(old(self).reserved_amounts@, bidder, auction_id) + bid_amount
                <= u128::MAX ==> r is Ok,
            r matches Ok((actions, event)) ==> {
                &&& final(self).reserved_amounts@ == old(self).reserved_amounts@.insert(
                    (bidder, auction_id),
                    (reserved_of(old(self).reserved_amounts@, bidder, auction_id) + bid_amount) as u128,
                )
                &&& final(self).auctions@ == old(self).auctions@
                &&& final(self).auction_owner_by_id@ == old(self).auction_owner_by_id@
                &&& final(self).next_auction_id == old(self).next_auction_id
                &&& actions@ == seq![
                    AuctionAction::Transfer {
                        from: bidder,
                        to: auction_account->0,
                        amount: bid_amount,
                        keep_alive: true,
                    },
                ]
                &&& event == AuctionEvent::BidAmountReserved { auction_id, bidder, amount: bid_amount }
            },
    {
        let account = match auction_account {
            Some(a) => a,
            None => return Err(AuctionError::CannotGenerateAuctionAccount),
        };
        let mut actions: Vec<AuctionAction> = Vec::new();
        actions.push(AuctionAction::Transfer { from: bidder, to: account, amount: bid_amount, keep_alive: true });
        let locked_amount = match self.reserved_amounts.get(bidder, auction_id) {
            Some(a) => *a,
            None => 0,
        };
        let updated = match locked_amount.checked_add(bid_amount) {
            Some(u) => u,
            None => return Err(AuctionError::InvalidReservedAmount),
        };
        self.reserved_amounts.insert(bidder, auction_id, updated);
        proof {
            assert(actions@ =~= seq![
                AuctionAction::Transfer { from: bidder, to: account, amount: bid_amount, keep_alive: true },
            ]);
        }
        Ok((actions, AuctionEvent::BidAmountReserved { auction_id, bidder, amount: bid_amount }))
    }

    /// Pays a reserved bid amount from the auction's account to `beneficiary` and forgets the
    /// bidder's reserved amount.
    pub fn unreserve_bid_amount(
        &mut self,
        auction_id: AuctionId,
        bidder: AccountId,
        bid_amount: Balance,
        beneficiary: AccountId,
        auction_account: Option<AccountId>,
    ) -> (r: Result<(Vec<AuctionAction>, AuctionEvent), AuctionError>)
        ensures
            old(self).wf() ==> final(self).wf(),
            auction_account is None ==> r == Err::<(Vec<AuctionAction>, AuctionEvent), AuctionError>(
                AuctionError::CannotGenerateAuctionAccount,
            ) && final(self).same_state(*old(self)),
            auction_account is Some ==> r is Ok,
            r matches Ok((actions, event)) ==> {
                &&& final(self).reserved_amounts@ == old(self).reserved_amounts@.remove((bidder, auction_id))
                &&& final(self).auctions@ == old(self).auctions@
                &&& final(self).auction_owner_by_id@ == old(self).auction_owner_by_id@
                &&& final(self).next_auction_id == old(self).next_auction_id
                &&& actions@ == seq![
                    AuctionAction::Transfer {
                        from: auction_account->0,
                        to: beneficiary,
                        amount: bid_amount,
                        keep_alive: false,
                    },
                ]
                &&& event == AuctionEvent::BidAmountUnreserved {
                    auction_id,
                    bidder,
                    amount: bid_amount,
                    beneficiary,
                }
            },
    {
        let account = match auction_account {
            Some(a) => a,
            None => return Err(AuctionError::CannotGenerateAuctionAccount),
        };
        let mut actions: Vec<AuctionAction> = Vec::new();
        actions.push(
            AuctionAction::Transfer { from: account, to: beneficiary, amount: bid_amount, keep_alive: false },
        );
        self.reserved_amounts.remove(bidder, auction_id);
        proof {
            assert(actions@ =~= seq![
                AuctionAction::Transfer { from: account, to: beneficiary, amount: bid_amount, keep_alive: false },
            ]);
        }
        Ok(
            (
                actions,
                AuctionEvent::BidAmountUnreserved {
                    auction_id,
                    bidder,
                    amount: bid_amount,
                    beneficiary,
                },
            ),
        )
    }
}

/// Whether the minimal bid of an auction is at least its reserve price, when it has one.
pub open spec fn respects_reserve(data: CommonAuctionData) -> bool {
    data.reserve_price matches Some(reserve_price) ==> data.next_bid_min >= reserve_price
}

/// The amount that `bidder` has reserved in an auction, zero when there is no record.
pub open spec fn reserved_of(reserved: Map<(u64, u64), Balance>, bidder: AccountId, auction_id: AuctionId) -> int {
    if reserved.contains_key((bidder, auction_id)) {
        reserved[(bidder, auction_id)] as int
    } else {
        0
    }
}

/// The outcome of the owner check and the not-yet-started check for destroying an auction.
pub open spec fn validate_destroy_result(sender: AccountId, data: CommonAuctionData, now: BlockNumber) -> Result<
    (),
    AuctionError,
> {
    if sender != data.owner {
        Err(AuctionError::NotAuctionOwner)
    } else if data.start <= now {
        Err(AuctionError::AuctionAlreadyStarted)
    } else {
        Ok(())
    }
}


/// An auction that has reached its end time accepts no new bid.
pub proof fn lemma_ended_auction_rejects_bids(
    bidder: AccountId,
    data: CommonAuctionData,
    amount: Balance,
    now: BlockNumber,
)
    requires
        spec_is_auction_ended(data, now),
    ensures
        bid_error(bidder, data, amount, now) is Some,
{
}

/// An accepted bid is placed by someone other than the owner while the auction runs, reaches
/// the minimal bid, is not zero, and outbids the last bid.
pub proof fn lemma_accepted_bid_outbids(
    bidder: AccountId,
    data: CommonAuctionData,
    amount: Balance,
    now: BlockNumber,
)
    requires
        bid_error(bidder, data, amount, now) is None,
    ensures
        bidder != data.owner,
        data.start <= now < data.end,
        amount >= data.next_bid_min,
        amount > 0,
        data.last_bid matches Some(last_bid) ==> amount > last_bid.1,
{
}

/// The reserve price acts as a minimal starting bid: no bid below it is accepted, and this
/// stays so after every accepted bid.
pub proof fn lemma_reserve_price_is_minimal_bid(
    bidder: AccountId,
    data: CommonAuctionData,
    amount: Balance,
    now: BlockNumber,
    config: AuctionConfig,
)
    requires
        respects_reserve(data),
        bid_error(bidder, data, amount, now) is None,
        bid_update_error(data, amount, now, config) is None,
    ensures
        data.reserve_price matches Some(reserve_price) ==> amount >= reserve_price,
        respects_reserve(data_after_bid(data, bidder, amount, now, config)),
{
}

/// Valid English auction data with a reserve price has that price as its minimal bid.
pub proof fn lemma_valid_data_respects_reserve(
    sender: AccountId,
    data: CommonAuctionData,
    now: BlockNumber,
    config: AuctionConfig,
)
    requires
        english_data_error(sender, data, now, config) is None,
    ensures
        respects_reserve(data),
        data.next_bid_min >= config.bid_min_amount,
        data.reserve_price is None ==> data.next_bid_min == config.bid_min_amount,
{
}

/// After a bid of `amount`, the next minimal bid is `amount` plus `bid_step_perc` percent of
/// it (at most 100 percent), rounded down.
pub proof fn lemma_next_bid_min_is_bid_plus_step(
    bidder: AccountId,
    data: CommonAuctionData,
    amount: Balance,
    now: BlockNumber,
    config: AuctionConfig,
)
    requires
        bid_update_error(data, amount, now, config) is None,
    ensures
        data_after_bid(data, bidder, amount, now, config).next_bid_min == amount + amount * (
        if config.bid_step_perc <= 100 {
            config.bid_step_perc
        } else {
            100
        }) / 100,
        data_after_bid(data, bidder, amount, now, config).next_bid_min >= amount,
{
    let p: int = if config.bid_step_perc <= 100 {
        config.bid_step_perc as int
    } else {
        100
    };
    assert(amount * (p * 10_000) / 1_000_000 == amount * p / 100) by (nonlinear_arith)
        requires
            0 <= p <= 100,
            0 <= amount,
    {
        assert(amount * (p * 10_000) == (amount * p) * 10_000);
    }
    assert(amount * p / 100 >= 0) by (nonlinear_arith)
        requires
            0 <= p,
            0 <= amount,
    ;
}

/// A bid never brings the end of an auction forward; a bid with fewer than `bid_add_blocks`
/// blocks left moves the end to `bid_add_blocks` after the bid, and any other bid keeps it.
pub proof fn lemma_late_bid_extends_end(
    bidder: AccountId,
    data: CommonAuctionData,
    amount: Balance,
    now: BlockNumber,
    config: AuctionConfig,
)
    requires
        bid_error(bidder, data, amount, now) is None,
        bid_update_error(data, amount, now, config) is None,
    ensures
        data_after_bid(data, bidder, amount, now, config).end >= data.end,
        data_after_bid(data, bidder, amount, now, config).end >= now + config.bid_add_blocks,
        data.end - now >= config.bid_add_blocks ==> data_after_bid(data, bidder, amount, now, config).end
            == data.end,
        data.end - now < config.bid_add_blocks ==> data_after_bid(data, bidder, amount, now, config).end
            == now + config.bid_add_blocks,
{
}

/// Once an auction has been closed (and so removed), every bid on it is refused.
pub proof fn lemma_no_bid_after_close(
    auctions: Map<AuctionId, Auction>,
    auction_id: AuctionId,
    bidder: AccountId,
    amount: Balance,
    now: BlockNumber,
    config: AuctionConfig,
)
    ensures
        pallet_bid_error(auctions.remove(auction_id), auction_id, bidder, amount, now, config) == Some(
            AuctionError::AuctionDoesNotExist,
        ),
{
}

/// An auction can only be won once it has ended, and only with a bid.
pub proof fn lemma_won_auction_has_ended_with_bid(data: CommonAuctionData, now: BlockNumber)
    requires
        spec_is_auction_won(data, now),
    ensures
        spec_is_auction_ended(data, now),
        data.last_bid is Some,
{
}

/// An accepted bid becomes the auction's last bid, whatever the last bid was before; the
/// auction's owner, NFT, name, start, reserve price and closed flag stay as they were; and
/// closing the auction then hands the NFT to that bidder, who pays the bid to the owner.
pub proof fn lemma_accepted_bid_becomes_last_bid(
    bidder: AccountId,
    data: CommonAuctionData,
    amount: Balance,
    now: BlockNumber,
    config: AuctionConfig,
)
    ensures
        ({
            let after = data_after_bid(data, bidder, amount, now, config);
            &&& after.last_bid == Some((bidder, amount))
            &&& after.owner == data.owner
            &&& after.token == data.token
            &&& after.name == data.name
            &&& after.start == data.start
            &&& after.reserve_price == data.reserve_price
            &&& after.closed == data.closed
            &&& close_actions(after).len() == 4
            &&& close_actions(after)[1] == (AuctionAction::TransferNft { from: data.owner, to: bidder, token: data.token })
            &&& close_actions(after)[2] == (AuctionAction::RemoveLock { who: bidder })
            &&& close_actions(after)[3] == (AuctionAction::Transfer {
                from: bidder,
                to: data.owner,
                amount,
                keep_alive: true,
            })
        }),
{
}

} // verus!
