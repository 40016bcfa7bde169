//! What the pools ask of the multi-currency pallet.
use vstd::prelude::*;

use crate::constants::{AccountId, Balance};

verus! {

/// Identifier of an asset.
pub type AssetId = u32;

/// A movement of an asset that a pool call asks the multi-currency pallet for.
#[derive(Clone, Copy, Debug, PartialEq, Eq)]
pub enum CurrencyAction {
    /// Move `amount` of `asset` from `from` to `to`.
    Transfer { asset: AssetId, from: AccountId, to: AccountId, amount: Balance },
    /// Mint `amount` of `asset` to `who`.
    Deposit { asset: AssetId, who: AccountId, amount: Balance },
    /// Burn `amount` of `asset` held by `who`.
    Withdraw { asset: AssetId, who: AccountId, amount: Balance },
}

/// What a trade asks for: the trader pays `amount_in` of `asset_in` to the pool, and the pool
/// pays `amount_out` of `asset_out` to the trader.
pub open spec fn trade_actions(
    who: AccountId,
    pool_account: AccountId,
    asset_in: AssetId,
    asset_out: AssetId,
    amount_in: Balance,
    amount_out: Balance,
) -> Seq<CurrencyAction> {
    seq![
        CurrencyAction::Transfer { asset: asset_in, from: who, to: pool_account, amount: amount_in },
        CurrencyAction::Transfer { asset: asset_out, from: pool_account, to: who, amount: amount_out },
    ]
}

/// By how much one action changes `account`'s balance of `asset`.
pub open spec fn action_flow(action: CurrencyAction, asset: AssetId, account: AccountId) -> int {
    match action {
        CurrencyAction::Transfer { asset: a, from, to, amount } => if a != asset {
            0
        } else {
            (if to == account { amount as int } else { 0 }) - (if from == account { amount as int } else { 0 })
        },
        CurrencyAction::Deposit { asset: a, who, amount } => if a == asset && who == account {
            amount as int
        } else {
            0
        },
        CurrencyAction::Withdraw { asset: a, who, amount } => if a == asset && who == account {
            -amount
        } else {
            0
        },
    }
}

/// By how much a sequence of actions changes `account`'s balance of `asset`.
pub open spec fn net_flow(actions: Seq<CurrencyAction>, asset: AssetId, account: AccountId) -> int
    decreases actions.len(),
{
    if actions.len() == 0 {
        0
    } else {
        net_flow(actions.drop_last(), asset, account) + action_flow(actions.last(), asset, account)
    }
}

/// A trade moves assets only between the trader and the pool: for every asset, what one of
/// them gains the other loses, no other account's balance changes, and nothing is minted or
/// burnt.
pub proof fn lemma_trade_moves_assets_only_between_trader_and_pool(
    who: AccountId,
    pool_account: AccountId,
    asset_in: AssetId,
    asset_out: AssetId,
    amount_in: Balance,
    amount_out: Balance,
    asset: AssetId,
    other: AccountId,
)
    ensures
        ({
            let actions = trade_actions(who, pool_account, asset_in, asset_out, amount_in, amount_out);
            &&& net_flow(actions, asset, who) + net_flow(actions, asset, pool_account) == 0
            &&& other != who && other != pool_account ==> net_flow(actions, asset, other) == 0
            &&& forall|i: int| 0 <= i < actions.len() ==> #[trigger] actions[i] is Transfer
        }),
{
    let actions = trade_actions(who, pool_account, asset_in, asset_out, amount_in, amount_out);
    assert(actions.drop_last() =~= seq![actions[0]]);
    assert(actions.drop_last().drop_last() =~= Seq::<CurrencyAction>::empty());
    reveal_with_fuel(net_flow, 3);
}

} // verus!
