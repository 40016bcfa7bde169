//! The NFT marketplace: owners list their instances at a price, and anyone else buys a listed
//! instance at that price, which unlists it.
//!
//! Balances and ownership stay with the balances and uniques pallets: the calls here take the
//! current owner of an instance as an argument and return the payments and NFT transfers that
//! must follow. A call is transactional: where one of its actions fails, the storage is kept as
//! it was before the call.
use vstd::prelude::*;

use crate::constants::{AccountId, Balance, NftClassId, NftInstanceId};
use crate::nft::{transfer, NftAction, NftError};
use crate::store::DoubleMap;

verus! {

/// Errors of the marketplace.
#[derive(Clone, Copy, Debug, PartialEq, Eq, Structural)]
pub enum MarketError {
    /// The account is not the owner of the instance.
    NotTheTokenOwner,
    /// The offer is under the current price.
    PriceTooLow,
    /// An instance cannot be bought from oneself.
    BuyFromSelf,
    /// The instance is not for sale.
    NotForSale,
    /// The NFT pallet refused the transfer.
    Nft(NftError),
}

/// Events of the marketplace.
#[derive(Clone, Copy, Debug, PartialEq, Eq, Structural)]
pub enum MarketEvent {
    /// owner, class, instance, new price (`None`: unlisted)
    TokenPriceUpdated(AccountId, NftClassId, NftInstanceId, Option<Balance>),
    /// seller, buyer, class, instance, price
    TokenSold(AccountId, AccountId, NftClassId, NftInstanceId, Balance),
}

/// What must follow a purchase, in this order.
#[derive(Clone, Copy, Debug, PartialEq, Eq, Structural)]
pub enum MarketAction {
    /// Transfer `amount` of the native currency from `from` to `to`, keeping `from` alive.
    Pay { from: AccountId, to: AccountId, amount: Balance },
    /// An action of the NFT pallet.
    Nft(NftAction),
}

/// Listing prices, by class and instance.
pub struct MarketplaceState {
    pub token_prices: DoubleMap<Balance>,
}

/// The error of a purchase of `(class_id, instance_id)` from `owner` by `sender`, where
/// `instance_owner` owns the instance, or `None` when it goes through.
pub open spec fn buy_error(
    prices: Map<(u64, u64), Balance>,
    sender: AccountId,
    owner: AccountId,
    class_id: NftClassId,
    instance_id: NftInstanceId,
    instance_owner: AccountId,
) -> Option<MarketError> {
    if sender == owner {
        Some(MarketError::BuyFromSelf)
    } else if !prices.contains_key((class_id, instance_id)) {
        Some(MarketError::NotForSale)
    } else if instance_owner != owner {
        Some(MarketError::Nft(NftError::NotPermitted))
    } else {
        None
    }
}

/// What a purchase at `price` asks for: the buyer pays the owner, then the instance goes to the
/// buyer.
pub open spec fn buy_actions(
    sender: AccountId,
    owner: AccountId,
    class_id: NftClassId,
    instance_id: NftInstanceId,
    price: Balance,
) -> Seq<MarketAction> {
    seq![
        MarketAction::Pay { from: sender, to: owner, amount: price },
        MarketAction::Nft(NftAction::Transfer { class_id, instance_id, dest: sender }),
    ]
}

/// The prices after `new_price` is set for `(class_id, instance_id)`: `None` unlists.
pub open spec fn prices_after_set(
    prices: Map<(u64, u64), Balance>,
    class_id: NftClassId,
    instance_id: NftInstanceId,
    new_price: Option<Balance>,
) -> Map<(u64, u64), Balance> {
    match new_price {
        Some(p) => prices.insert((class_id, instance_id), p),
        None => prices.remove((class_id, instance_id)),
    }
}

impl MarketplaceState {
    /// A marketplace with nothing listed.
    pub fn new() -> (s: MarketplaceState)
        ensures
            s.token_prices@ == Map::<(u64, u64), Balance>::empty(),
    {
        MarketplaceState { token_prices: DoubleMap::new() }
    }

    /// The listing price of an instance, if it is for sale.
    pub fn class_item_price(&self, class_id: NftClassId, instance_id: NftInstanceId) -> (r: Option<Balance>)
        ensures
            r == (if self.token_prices@.contains_key((class_id, instance_id)) {
                Some(self.token_prices@[(class_id, instance_id)])
            } else {
                None
            }),
    {
        match self.token_prices.get(class_id, instance_id) {
            Some(p) => Some(*p),
            None => None,
        }
    }

    /// `sender` buys `(class_id, instance_id)` from `owner` at its listing price, where
    /// `instance_owner` owns it: the instance is unlisted, and the buyer pays the price to
    /// the owner and receives the instance.
    pub fn buy(
        &mut self,
        sender: AccountId,
        owner: AccountId,
        class_id: NftClassId,
        instance_id: NftInstanceId,
        instance_owner: AccountId,
    ) -> (r: Result<(Vec<MarketAction>, MarketEvent), MarketError>)
        ensures
            ({
                let prices = old(self).token_prices@;
                let err = buy_error(prices, sender, owner, class_id, instance_id, instance_owner);
                &&& err matches Some(e) ==> r == Err::<(Vec<MarketAction>, MarketEvent), MarketError>(e)
                    && final(self).token_prices@ == prices
                &&& err is None ==> r is Ok
                &&& r matches Ok((actions, event)) ==> {
                    let price = prices[(class_id, instance_id)];
                    &&& final(self).token_prices@ == prices.remove((class_id, instance_id))
                    &&& actions@ == buy_actions(sender, owner, class_id, instance_id, price)
                    &&& event == MarketEvent::TokenSold(owner, sender, class_id, instance_id, price)
                }
            }),
    {
        if sender == owner {
            return Err(MarketError::BuyFromSelf);
        }
        let price = match self.token_prices.get(class_id, instance_id) {
            Some(p) => *p,
            None => return Err(MarketError::NotForSale),
        };
        // The marketplace hands the sold instance on as the protocol.
        let nft_actions = match transfer(owner, true, class_id, instance_id, sender, instance_owner) {
            Ok((nft_actions, _)) => nft_actions,
            Err(e) => return Err(MarketError::Nft(e)),
        };
        self.token_prices.remove(class_id, instance_id);
        let mut actions: Vec<MarketAction> = Vec::new();
        actions.push(MarketAction::Pay { from: sender, to: owner, amount: price });
        let mut i: usize = 0;
        while i < nft_actions.len()
            invariant
                0 <= i <= nft_actions.len(),
                nft_actions@ == seq![NftAction::Transfer { class_id, instance_id, dest: sender }],
                actions@.len() == i + 1,
                actions@[0] == (MarketAction::Pay { from: sender, to: owner, amount: price }),
                forall|j: int| 0 <= j < i ==> actions@[j + 1] == MarketAction::Nft(#[trigger] nft_actions@[j]),
            decreases nft_actions.len() - i,
        {
            actions.push(MarketAction::Nft(nft_actions[i]));
            i = i + 1;
        }
        proof {
            assert(actions@[1] == MarketAction::Nft(nft_actions@[0]));
            assert(actions@ =~= buy_actions(sender, owner, class_id, instance_id, price));
        }
        Ok((actions, MarketEvent::TokenSold(owner, sender, class_id, instance_id, price)))
    }

    /// The owner of an instance lists it at `new_price`, or unlists it with `None`.
    /// `instance_owner` is its owner, `None` when the instance does not exist.
    pub fn set_price(
        &mut self,
        sender: AccountId,
        class_id: NftClassId,
        instance_id: NftInstanceId,
        new_price: Option<Balance>,
        instance_owner: Option<AccountId>,
    ) -> (r: Result<MarketEvent, MarketError>)
        ensures
            instance_owner != Some(sender) ==> r == Err::<MarketEvent, MarketError>(MarketError::NotTheTokenOwner)
                && final(self).token_prices@ == old(self).token_prices@,
            instance_owner == Some(sender) ==> r == Ok::<MarketEvent, MarketError>(
                MarketEvent::TokenPriceUpdated(sender, class_id, instance_id, new_price),
            ) && final(self).token_prices@ == prices_after_set(
                old(self).token_prices@,
                class_id,
                instance_id,
                new_price,
            ),
    {
        let is_owner = match instance_owner {
            Some(o) => o == sender,
            None => false,
        };
        if !is_owner {
            return Err(MarketError::NotTheTokenOwner);
        }
        match new_price {
            Some(p) => {
                self.token_prices.insert(class_id, instance_id, p);
            },
            None => {
                self.token_prices.remove(class_id, instance_id);
            },
        }
        Ok(MarketEvent::TokenPriceUpdated(sender, class_id, instance_id, new_price))
    }
}

/// A purchase unlists the instance: a second purchase of it, by anyone but its new owner, is
/// refused as not for sale.
pub proof fn lemma_bought_token_is_unlisted(
    prices: Map<(u64, u64), Balance>,
    class_id: NftClassId,
    instance_id: NftInstanceId,
    sender: AccountId,
    owner: AccountId,
    instance_owner: AccountId,
)
    requires
        sender != owner,
    ensures
        buy_error(prices.remove((class_id, instance_id)), sender, owner, class_id, instance_id, instance_owner)
            == Some(MarketError::NotForSale),
{
}

/// Once an owner lists an instance at `price`, a purchase by another account goes through, where
/// that owner still owns it, and pays exactly `price` to the owner.
pub proof fn lemma_buy_pays_listed_price(
    prices: Map<(u64, u64), Balance>,
    class_id: NftClassId,
    instance_id: NftInstanceId,
    price: Balance,
    owner: AccountId,
    buyer: AccountId,
)
    requires
        buyer != owner,
    ensures
        ({
            let listed = prices_after_set(prices, class_id, instance_id, Some(price));
            &&& buy_error(listed, buyer, owner, class_id, instance_id, owner) is None
            &&& listed[(class_id, instance_id)] == price
            &&& buy_actions(buyer, owner, class_id, instance_id, listed[(class_id, instance_id)])[0]
                == (MarketAction::Pay { from: buyer, to: owner, amount: price })
        }),
{
}

/// An instance unlisted by its owner cannot be bought.
pub proof fn lemma_unlisted_token_is_not_for_sale(
    prices: Map<(u64, u64), Balance>,
    class_id: NftClassId,
    instance_id: NftInstanceId,
    sender: AccountId,
    owner: AccountId,
    instance_owner: AccountId,
)
    requires
        sender != owner,
    ensures
        buy_error(
            prices_after_set(prices, class_id, instance_id, None),
            sender,
            owner,
            class_id,
            instance_id,
            instance_owner,
        ) == Some(MarketError::NotForSale),
{
}

} // verus!
