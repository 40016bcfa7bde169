use basilisk::marketplace::{MarketAction, MarketError, MarketEvent, MarketplaceState};
use basilisk::nft::{NftAction, NftError};

const ALICE: u64 = 1;
const BOB: u64 = 2;
const CHARLIE: u64 = 3;

#[test]
fn owner_lists_and_another_account_buys_at_the_price() {
    let mut market = MarketplaceState::new();
    let event = market.set_price(ALICE, 0, 1, Some(500), Some(ALICE)).unwrap();
    assert_eq!(event, MarketEvent::TokenPriceUpdated(ALICE, 0, 1, Some(500)));
    assert_eq!(market.class_item_price(0, 1), Some(500));
    let (actions, event) = market.buy(BOB, ALICE, 0, 1, ALICE).unwrap();
    assert_eq!(
        actions,
        vec![
            MarketAction::Pay { from: BOB, to: ALICE, amount: 500 },
            MarketAction::Nft(NftAction::Transfer { class_id: 0, instance_id: 1, dest: BOB }),
        ]
    );
    assert_eq!(event, MarketEvent::TokenSold(ALICE, BOB, 0, 1, 500));
    assert_eq!(market.class_item_price(0, 1), None);
    assert_eq!(market.buy(CHARLIE, BOB, 0, 1, BOB).err(), Some(MarketError::NotForSale));
}

#[test]
fn unlisted_token_is_not_for_sale() {
    let mut market = MarketplaceState::new();
    market.set_price(ALICE, 0, 1, Some(500), Some(ALICE)).unwrap();
    let event = market.set_price(ALICE, 0, 1, None, Some(ALICE)).unwrap();
    assert_eq!(event, MarketEvent::TokenPriceUpdated(ALICE, 0, 1, None));
    assert_eq!(market.buy(BOB, ALICE, 0, 1, ALICE).err(), Some(MarketError::NotForSale));
}

#[test]
fn only_the_owner_sets_a_price() {
    let mut market = MarketplaceState::new();
    assert_eq!(market.set_price(BOB, 0, 1, Some(5), Some(ALICE)).err(), Some(MarketError::NotTheTokenOwner));
    assert_eq!(market.set_price(BOB, 0, 1, Some(5), None).err(), Some(MarketError::NotTheTokenOwner));
    assert_eq!(market.class_item_price(0, 1), None);
}

#[test]
fn buy_errors_keep_the_listing() {
    let mut market = MarketplaceState::new();
    market.set_price(ALICE, 0, 1, Some(500), Some(ALICE)).unwrap();
    assert_eq!(market.buy(ALICE, ALICE, 0, 1, ALICE).err(), Some(MarketError::BuyFromSelf));
    assert_eq!(market.buy(BOB, ALICE, 0, 2, ALICE).err(), Some(MarketError::NotForSale));
    assert_eq!(market.buy(BOB, ALICE, 0, 1, CHARLIE).err(), Some(MarketError::Nft(NftError::NotPermitted)));
    assert_eq!(market.class_item_price(0, 1), Some(500));
}
