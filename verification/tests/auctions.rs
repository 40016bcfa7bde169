use basilisk::auctions::{
    avoid_auction_sniping, is_auction_ended, is_auction_won, set_next_bid_min, validate_bid,
    validate_claim, validate_close, validate_common_data, validate_create_permissions,
    validate_update, validate_update_destroy_permissions, Auction, AuctionAction, AuctionConfig,
    AuctionError, AuctionEvent, AuctionsState, Bid, CommonAuctionData, EnglishAuction,
};

const ALICE: u64 = 1;
const BOB: u64 = 2;
const CHARLIE: u64 = 3;
const AUCTION_ACCOUNT: u64 = 50;
const TOKEN: (u64, u64) = (7, 3);

fn config() -> AuctionConfig {
    AuctionConfig {
        auctions_string_limit: 16,
        bid_add_blocks: 10,
        bid_step_perc: 10,
        min_auction_duration: 10,
        bid_min_amount: 1_000,
    }
}

fn data(owner: u64, start: u32, end: u32, reserve_price: Option<u128>) -> CommonAuctionData {
    CommonAuctionData {
        name: b"an auction".to_vec(),
        reserve_price,
        last_bid: None,
        start,
        end,
        closed: false,
        owner,
        token: TOKEN,
        next_bid_min: reserve_price.unwrap_or(1_000),
    }
}

fn english(d: CommonAuctionData) -> Auction {
    Auction::English(EnglishAuction { common_data: d })
}

fn common(state: &AuctionsState, id: u64) -> &CommonAuctionData {
    match state.auctions.get(&id).unwrap() {
        Auction::English(a) => &a.common_data,
    }
}

/// An auction of ALICE from block 10 to block 100, created at block 1.
fn state_with_auction(reserve_price: Option<u128>) -> AuctionsState {
    let mut state = AuctionsState::new();
    let r = state.create(ALICE, english(data(ALICE, 10, 100, reserve_price)), 1, &config(), Some(ALICE), true);
    assert!(r.is_ok());
    state
}

fn create_error(d: CommonAuctionData, now: u32, token_owner: Option<u64>, can_transfer: bool) -> Option<AuctionError> {
    let mut state = AuctionsState::new();
    let r = state.create(ALICE, english(d), now, &config(), token_owner, can_transfer);
    if r.is_err() {
        assert!(state.auctions.is_empty());
        assert_eq!(state.next_auction_id, 0);
    }
    r.err()
}

#[test]
fn create_stores_the_auction_under_consecutive_ids_and_freezes_the_nft() {
    let mut state = AuctionsState::new();
    let (id, actions, event) =
        state.create(ALICE, english(data(ALICE, 10, 100, None)), 1, &config(), Some(ALICE), true).unwrap();
    assert_eq!(id, 0);
    assert_eq!(actions, vec![AuctionAction::FreezeNft { owner: ALICE, token: TOKEN }]);
    assert!(matches!(event, AuctionEvent::AuctionCreated { auction_id: 0, .. }));
    assert_eq!(state.auction_owner_by_id.get(&0), Some(&ALICE));
    assert_eq!(common(&state, 0).end, 100);
    let (id, _, _) = state.create(BOB, english(data(BOB, 20, 200, Some(5_000))), 1, &config(), Some(BOB), true).unwrap();
    assert_eq!(id, 1);
    assert_eq!(state.next_auction_id, 2);
}

#[test]
fn create_errors() {
    let mut long_name = data(ALICE, 10, 100, None);
    long_name.name = vec![b'a'; 17];
    assert_eq!(create_error(long_name, 1, Some(ALICE), true), Some(AuctionError::TooLong));
    assert_eq!(create_error(data(BOB, 10, 100, None), 1, Some(ALICE), true), Some(AuctionError::NotAuctionOwner));
    assert_eq!(create_error(data(ALICE, 10, 100, None), 11, Some(ALICE), true), Some(AuctionError::AuctionStartTimeAlreadyPassed));
    assert_eq!(create_error(data(ALICE, 0, 0, None), 0, Some(ALICE), true), Some(AuctionError::InvalidTimeConfiguration));
    assert_eq!(create_error(data(ALICE, 10, 20, None), 1, Some(ALICE), true), Some(AuctionError::InvalidTimeConfiguration));
    assert_eq!(create_error(data(ALICE, u32::MAX - 5, u32::MAX, None), 1, Some(ALICE), true), Some(AuctionError::Overflow));
    let mut no_name = data(ALICE, 10, 100, None);
    no_name.name = vec![];
    assert_eq!(create_error(no_name, 1, Some(ALICE), true), Some(AuctionError::EmptyAuctionName));
    let mut low_min = data(ALICE, 10, 100, None);
    low_min.next_bid_min = 999;
    assert_eq!(create_error(low_min, 1, Some(ALICE), true), Some(AuctionError::InvalidNextBidMin));
    let mut above_min = data(ALICE, 10, 100, None);
    above_min.next_bid_min = 1_001;
    assert_eq!(create_error(above_min, 1, Some(ALICE), true), Some(AuctionError::InvalidNextBidMin));
    let mut not_reserve = data(ALICE, 10, 100, Some(5_000));
    not_reserve.next_bid_min = 4_000;
    assert_eq!(create_error(not_reserve, 1, Some(ALICE), true), Some(AuctionError::InvalidNextBidMin));
    let mut closed = data(ALICE, 10, 100, None);
    closed.closed = true;
    assert_eq!(create_error(closed, 1, Some(ALICE), true), Some(AuctionError::CannotSetAuctionClosed));
    assert_eq!(create_error(data(ALICE, 10, 100, None), 1, Some(BOB), true), Some(AuctionError::NotATokenOwner));
    assert_eq!(create_error(data(ALICE, 10, 100, None), 1, None, true), Some(AuctionError::NotATokenOwner));
    assert_eq!(create_error(data(ALICE, 10, 100, None), 1, Some(ALICE), false), Some(AuctionError::TokenFrozen));
    assert_eq!(create_error(data(ALICE, 10, 100, None), 1, Some(ALICE), true), None);

    let mut state = AuctionsState::new();
    state.next_auction_id = u64::MAX;
    let r = state.create(ALICE, english(data(ALICE, 10, 100, None)), 1, &config(), Some(ALICE), true);
    assert_eq!(r.err(), Some(AuctionError::NoAvailableAuctionId));
}

#[test]
fn update_replaces_an_auction_that_has_not_started() {
    let mut state = state_with_auction(None);
    let mut updated = data(ALICE, 20, 300, Some(2_000));
    updated.name = b"renamed".to_vec();
    let event = state.update(ALICE, 0, english(updated), 5, &config()).unwrap();
    assert!(matches!(event, AuctionEvent::AuctionUpdated { auction_id: 0, .. }));
    assert_eq!(common(&state, 0).end, 300);
    assert_eq!(common(&state, 0).reserve_price, Some(2_000));
    assert_eq!(common(&state, 0).name, b"renamed".to_vec());
}

#[test]
fn update_errors() {
    let mut state = state_with_auction(None);
    assert_eq!(state.update(ALICE, 5, english(data(ALICE, 20, 300, None)), 5, &config()).err(), Some(AuctionError::AuctionDoesNotExist));
    assert_eq!(state.update(BOB, 0, english(data(BOB, 20, 300, None)), 5, &config()).err(), Some(AuctionError::NotAuctionOwner));
    assert_eq!(state.update(ALICE, 0, english(data(ALICE, 20, 300, None)), 10, &config()).err(), Some(AuctionError::AuctionAlreadyStarted));
    let mut other_token = data(ALICE, 20, 300, None);
    other_token.token = (7, 4);
    assert_eq!(state.update(ALICE, 0, english(other_token), 5, &config()).err(), Some(AuctionError::CannotChangeForbiddenAttribute));
    assert_eq!(state.update(ALICE, 0, english(data(ALICE, 20, 25, None)), 5, &config()).err(), Some(AuctionError::InvalidTimeConfiguration));
    assert_eq!(common(&state, 0).end, 100);
}

#[test]
fn destroy_removes_an_auction_that_has_not_started_and_thaws_the_nft() {
    let mut state = state_with_auction(None);
    assert_eq!(state.destroy(BOB, 0, 5).err(), Some(AuctionError::NotAuctionOwner));
    assert_eq!(state.destroy(ALICE, 0, 10).err(), Some(AuctionError::AuctionAlreadyStarted));
    assert_eq!(state.destroy(ALICE, 1, 5).err(), Some(AuctionError::AuctionDoesNotExist));
    let (actions, event) = state.destroy(ALICE, 0, 5).unwrap();
    assert_eq!(actions, vec![AuctionAction::ThawNft { owner: ALICE, token: TOKEN }]);
    assert!(matches!(event, AuctionEvent::AuctionDestroyed { auction_id: 0 }));
    assert!(state.auctions.is_empty());
    assert!(state.auction_owner_by_id.is_empty());
}

#[test]
fn bids_move_the_lock_and_raise_the_next_minimal_bid() {
    let mut state = state_with_auction(None);
    let (actions, event) = state.bid(BOB, 0, 2_000, 20, &config()).unwrap();
    assert_eq!(actions, vec![AuctionAction::SetLock { who: BOB, amount: 2_000 }]);
    assert!(matches!(event, AuctionEvent::BidPlaced { auction_id: 0, bidder: BOB, bid: Bid { amount: 2_000, block_number: 20 } }));
    assert_eq!(common(&state, 0).last_bid, Some((BOB, 2_000)));
    assert_eq!(common(&state, 0).next_bid_min, 2_200);
    assert_eq!(common(&state, 0).end, 100);

    assert_eq!(state.bid(CHARLIE, 0, 2_199, 21, &config()).err(), Some(AuctionError::InvalidBidPrice));
    let (actions, _) = state.bid(CHARLIE, 0, 2_200, 21, &config()).unwrap();
    assert_eq!(actions, vec![AuctionAction::RemoveLock { who: BOB }, AuctionAction::SetLock { who: CHARLIE, amount: 2_200 }]);
    assert_eq!(common(&state, 0).next_bid_min, 2_420);
}

#[test]
fn late_bid_extends_the_auction() {
    let mut state = state_with_auction(None);
    state.bid(BOB, 0, 2_000, 95, &config()).unwrap();
    assert_eq!(common(&state, 0).end, 105);
    state.bid(CHARLIE, 0, 3_000, 104, &config()).unwrap();
    assert_eq!(common(&state, 0).end, 114);
}

#[test]
fn bid_errors() {
    let mut state = state_with_auction(Some(5_000));
    let cfg = config();
    assert_eq!(state.bid(BOB, 1, 6_000, 20, &cfg).err(), Some(AuctionError::AuctionDoesNotExist));
    assert_eq!(state.bid(ALICE, 0, 6_000, 20, &cfg).err(), Some(AuctionError::CannotBidOnOwnAuction));
    assert_eq!(state.bid(BOB, 0, 6_000, 9, &cfg).err(), Some(AuctionError::AuctionNotStarted));
    assert_eq!(state.bid(BOB, 0, 6_000, 100, &cfg).err(), Some(AuctionError::AuctionEndTimeReached));
    assert_eq!(state.bid(BOB, 0, 4_999, 20, &cfg).err(), Some(AuctionError::InvalidBidPrice));
    assert_eq!(common(&state, 0).last_bid, None);

    let mut rich = AuctionsState::new();
    let mut d = data(ALICE, 10, 100, Some(u128::MAX - 1));
    d.next_bid_min = u128::MAX - 1;
    rich.create(ALICE, english(d), 1, &cfg, Some(ALICE), true).unwrap();
    assert_eq!(rich.bid(BOB, 0, u128::MAX - 1, 20, &cfg).err(), Some(AuctionError::BidOverflow));
    assert_eq!(common(&rich, 0).last_bid, None);

    let mut late = AuctionsState::new();
    late.create(ALICE, english(data(ALICE, 10, u32::MAX, None)), 1, &cfg, Some(ALICE), true).unwrap();
    assert_eq!(late.bid(BOB, 0, 2_000, u32::MAX - 1, &cfg).err(), Some(AuctionError::Overflow));
    assert_eq!(common(&late, 0).next_bid_min, 1_000);
}

#[test]
fn zero_first_bid_is_refused() {
    let mut state = AuctionsState::new();
    let mut cfg = config();
    cfg.bid_min_amount = 0;
    let mut d = data(ALICE, 10, 100, None);
    d.next_bid_min = 0;
    state.create(ALICE, english(d), 1, &cfg, Some(ALICE), true).unwrap();
    assert_eq!(state.bid(BOB, 0, 0, 20, &cfg).err(), Some(AuctionError::InvalidBidPrice));
}

#[test]
fn close_hands_the_nft_to_the_winner_and_the_bid_to_the_owner() {
    let mut state = state_with_auction(None);
    state.bid(BOB, 0, 2_000, 20, &config()).unwrap();
    assert_eq!(state.close(0, 99).err(), Some(AuctionError::AuctionEndTimeNotReached));
    let (actions, event) = state.close(0, 100).unwrap();
    assert!(matches!(event, AuctionEvent::AuctionClosed { auction_id: 0, auction_winner: Some(BOB) }));
    assert_eq!(
        actions,
        vec![
            AuctionAction::ThawNft { owner: ALICE, token: TOKEN },
            AuctionAction::TransferNft { from: ALICE, to: BOB, token: TOKEN },
            AuctionAction::RemoveLock { who: BOB },
            AuctionAction::Transfer { from: BOB, to: ALICE, amount: 2_000, keep_alive: true },
        ]
    );
    assert!(state.auctions.is_empty());
    assert_eq!(state.close(0, 101).err(), Some(AuctionError::AuctionDoesNotExist));
    assert_eq!(state.bid(CHARLIE, 0, 5_000, 101, &config()).err(), Some(AuctionError::AuctionDoesNotExist));
}

#[test]
fn close_without_bid_only_thaws_the_nft() {
    let mut state = state_with_auction(None);
    let (actions, event) = state.close(0, 200).unwrap();
    assert!(matches!(event, AuctionEvent::AuctionClosed { auction_id: 0, auction_winner: None }));
    assert_eq!(actions, vec![AuctionAction::ThawNft { owner: ALICE, token: TOKEN }]);
    assert!(state.auction_owner_by_id.is_empty());
}

#[test]
fn handle_destroy_thaws_the_nft_and_reports_it() {
    let mut state = state_with_auction(None);
    let (actions, event) = state.handle_destroy(0, ALICE, TOKEN);
    assert_eq!(actions, vec![AuctionAction::ThawNft { owner: ALICE, token: TOKEN }]);
    assert!(matches!(event, AuctionEvent::AuctionDestroyed { auction_id: 0 }));
    assert!(state.auctions.is_empty());
    assert!(state.auction_owner_by_id.is_empty());
}

#[test]
fn closed_auction_cannot_be_closed_again() {
    let mut state = state_with_auction(None);
    let mut d = data(ALICE, 10, 100, None);
    d.closed = true;
    state.auctions.insert(0, english(d));
    assert_eq!(state.close(0, 200).err(), Some(AuctionError::AuctionClosed));
}

#[test]
fn reserved_amounts_add_up_and_are_paid_back() {
    let mut state = state_with_auction(None);
    let (actions, _) = state.reserve_bid_amount(0, BOB, 500, Some(AUCTION_ACCOUNT)).unwrap();
    assert_eq!(actions, vec![AuctionAction::Transfer { from: BOB, to: AUCTION_ACCOUNT, amount: 500, keep_alive: true }]);
    state.reserve_bid_amount(0, BOB, 700, Some(AUCTION_ACCOUNT)).unwrap();
    assert_eq!(state.reserved_amounts.get(BOB, 0), Some(&1_200));
    assert_eq!(state.reserve_bid_amount(0, BOB, 1, None).err(), Some(AuctionError::CannotGenerateAuctionAccount));
    assert_eq!(state.reserve_bid_amount(0, BOB, u128::MAX, Some(AUCTION_ACCOUNT)).err(), Some(AuctionError::InvalidReservedAmount));
    assert_eq!(state.reserved_amounts.get(BOB, 0), Some(&1_200));

    assert_eq!(state.claim(BOB, 0, 200).err(), Some(AuctionError::ClaimsNotSupportedForThisAuctionType));
    assert_eq!(state.claim(CHARLIE, 0, 200).err(), Some(AuctionError::NoReservedAmountAvailableToClaim));
    assert_eq!(state.claim(BOB, 4, 200).err(), Some(AuctionError::NoReservedAmountAvailableToClaim));

    let (actions, event) = state.unreserve_bid_amount(0, BOB, 1_200, CHARLIE, Some(AUCTION_ACCOUNT)).unwrap();
    assert_eq!(actions, vec![AuctionAction::Transfer { from: AUCTION_ACCOUNT, to: CHARLIE, amount: 1_200, keep_alive: false }]);
    assert!(matches!(event, AuctionEvent::BidAmountUnreserved { beneficiary: CHARLIE, amount: 1_200, .. }));
    assert_eq!(state.reserved_amounts.get(BOB, 0), None);
    assert_eq!(state.unreserve_bid_amount(0, BOB, 1, CHARLIE, None).err(), Some(AuctionError::CannotGenerateAuctionAccount));
}

#[test]
fn claim_on_a_removed_auction_is_refused() {
    let mut state = state_with_auction(None);
    state.reserve_bid_amount(0, BOB, 500, Some(AUCTION_ACCOUNT)).unwrap();
    state.close(0, 200).unwrap();
    assert_eq!(state.claim(BOB, 0, 200).err(), Some(AuctionError::AuctionDoesNotExist));
}

#[test]
fn reserve_price_is_the_minimal_first_bid() {
    let mut state = state_with_auction(Some(5_000));
    assert_eq!(common(&state, 0).next_bid_min, 5_000);
    assert_eq!(state.bid(BOB, 0, 4_999, 20, &config()).err(), Some(AuctionError::InvalidBidPrice));
    assert!(state.bid(BOB, 0, 5_000, 20, &config()).is_ok());
    assert!(common(&state, 0).next_bid_min >= 5_000);
}

#[test]
fn auction_is_won_once_ended_with_a_bid_reaching_the_reserve() {
    let mut d = data(ALICE, 10, 100, Some(5_000));
    assert!(!is_auction_ended(&d, 99));
    assert!(is_auction_ended(&d, 100));
    assert!(!is_auction_won(&d, 100));
    d.last_bid = Some((BOB, 4_000));
    assert!(!is_auction_won(&d, 100));
    d.last_bid = Some((BOB, 5_000));
    assert!(!is_auction_won(&d, 99));
    assert!(is_auction_won(&d, 100));
    let mut no_reserve = data(ALICE, 10, 100, None);
    no_reserve.last_bid = Some((BOB, 1));
    assert!(is_auction_won(&no_reserve, 150));
}

#[test]
fn validation_helpers() {
    let d = data(ALICE, 10, 100, None);
    assert_eq!(validate_common_data(ALICE, &d, 5, &config()), Ok(()));
    assert_eq!(validate_common_data(BOB, &d, 5, &config()), Err(AuctionError::NotAuctionOwner));
    assert_eq!(validate_create_permissions(ALICE, Some(ALICE), true), Ok(()));
    assert_eq!(validate_create_permissions(ALICE, Some(BOB), true), Err(AuctionError::NotATokenOwner));
    assert_eq!(validate_update_destroy_permissions(ALICE, &d, 9), Ok(()));
    assert_eq!(validate_update_destroy_permissions(ALICE, &d, 10), Err(AuctionError::AuctionAlreadyStarted));
    let mut other_owner = data(ALICE, 10, 100, None);
    other_owner.owner = BOB;
    assert_eq!(validate_update(&d, &other_owner), Err(AuctionError::CannotChangeForbiddenAttribute));
    assert_eq!(validate_update(&d, &data(ALICE, 20, 300, Some(3))), Ok(()));
    let bid = Bid { amount: 1_000, block_number: 50 };
    assert_eq!(validate_bid(BOB, &d, &bid, 50), Ok(()));
    assert_eq!(validate_bid(BOB, &d, &Bid { amount: 999, block_number: 50 }, 50), Err(AuctionError::InvalidBidPrice));
    assert_eq!(validate_close(&d, 99), Err(AuctionError::AuctionEndTimeNotReached));
    assert_eq!(validate_close(&d, 100), Ok(()));
    assert_eq!(validate_claim(&d, 100), Err(AuctionError::CloseAuctionBeforeClaimingReservedAmounts));
    assert_eq!(validate_claim(&d, 99), Err(AuctionError::AuctionEndTimeNotReached));
    let mut closed = data(ALICE, 10, 100, None);
    closed.closed = true;
    assert_eq!(validate_claim(&closed, 100), Ok(()));
    assert_eq!(validate_close(&closed, 100), Err(AuctionError::AuctionClosed));
}

#[test]
fn next_bid_min_and_sniping_helpers() {
    let mut d = data(ALICE, 10, 100, None);
    assert_eq!(set_next_bid_min(&mut d, 1_005, 10), Ok(()));
    assert_eq!(d.next_bid_min, 1_105);
    // a step above 100 percent counts as 100 percent
    assert_eq!(set_next_bid_min(&mut d, 1_000, 250), Ok(()));
    assert_eq!(d.next_bid_min, 2_000);
    assert_eq!(set_next_bid_min(&mut d, u128::MAX, 1), Err(AuctionError::BidOverflow));
    assert_eq!(d.next_bid_min, 2_000);

    assert_eq!(avoid_auction_sniping(&mut d, 50, 10), Ok(()));
    assert_eq!(d.end, 100);
    assert_eq!(avoid_auction_sniping(&mut d, 95, 10), Ok(()));
    assert_eq!(d.end, 105);
    assert_eq!(avoid_auction_sniping(&mut d, 106, 10), Err(AuctionError::TimeUnderflow));
    let mut edge = data(ALICE, 10, u32::MAX, None);
    assert_eq!(avoid_auction_sniping(&mut edge, u32::MAX - 1, 10), Err(AuctionError::Overflow));
    assert_eq!(edge.end, u32::MAX);
}
