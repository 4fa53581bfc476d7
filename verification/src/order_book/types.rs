//! The values that the order book stores, receives and emits.

use vstd::prelude::*;

use crate::dispatch::AccountId;

verus! {

/// Identifies an asset of the registry.
pub type AssetId = u32;

/// A 32-byte hash.
#[derive(Clone, Copy, Debug, PartialEq, Eq)]
pub struct H256(pub [u8; 32]);

/// Whether two hashes are equal.
pub fn hash_eq(a: &H256, b: &H256) -> (r: bool)
    ensures
        r == (*a == *b),
{
    let mut i: usize = 0;
    while i < 32
        invariant
            i <= 32,
            forall|j: int| 0 <= j < i ==> a.0[j] == b.0[j],
        decreases 32 - i,
    {
        if a.0[i] != b.0[i] {
            return false;
        }
        i = i + 1;
    }
    assert(a.0 =~= b.0);
    true
}

/// An order to buy `buy_amount` of `asset_in_id` with `asset_out_id` at a
/// price of at most `price` units of `asset_out_id` each.
#[derive(Clone, Copy, Debug, PartialEq, Eq)]
pub struct Order {
    pub order_id: H256,
    pub placing_account: AccountId,
    pub asset_in_id: AssetId,
    pub asset_out_id: AssetId,
    pub buy_amount: u128,
    pub initial_buy_amount: u128,
    pub price: u128,
    pub min_fullfillment_amount: u128,
    pub max_sell_amount: u128,
}

/// A claim of an account on an order.
#[derive(Clone, Copy, Debug, PartialEq, Eq)]
pub struct Claim {
    claiming_account: AccountId,
    order_claiming: H256,
}

/// The errors of the order book pallet.
#[derive(Clone, Copy, Debug, PartialEq, Eq)]
pub enum Error {
    /// The list of orders of the asset pair is full.
    AssetPairOrdersOverflow,
    /// The order would swap an asset for itself.
    ConflictingAssetIds,
    /// The account cannot reserve enough of the asset it pays with.
    InsufficientAssetFunds,
    /// The account cannot reserve the order fee.
    InsufficientReserveFunds,
    /// The asset is not in the registry.
    InvalidAssetId,
    /// There is no such order (of this account).
    OrderNotFound,
    /// The order buys nothing.
    InvalidBuyAmount,
    /// The order's price limit is zero.
    InvalidMinPrice,
}

/// The events of the order book pallet.
#[derive(Clone, Copy, Debug, PartialEq, Eq)]
pub enum Event {
    OrderCreated {
        order_id: H256,
        creator_account: AccountId,
        currency_in: AssetId,
        currency_out: AssetId,
        buy_amount: u128,
        min_fullfillment_amount: u128,
        sell_price_limit: u128,
    },
    OrderCancelled { order_id: H256, account: AccountId },
}

/// What the pallet asks the runtime to do, in order. The runtime performs
/// the effects of a call one after the other; the first that fails fails
/// the call, and a failed call leaves no trace.
#[derive(Clone, Copy, Debug, PartialEq, Eq)]
pub enum Effect {
    /// Reserve `amount` of the native currency of `who` (the order fee).
    ReserveFee { who: AccountId, amount: u128 },
    /// Release `amount` of the reserved native currency of `who`.
    UnreserveFee { who: AccountId, amount: u128 },
    /// Reserve `amount` of `currency` of `who`.
    ReserveAsset { currency: AssetId, who: AccountId, amount: u128 },
    /// Release `amount` of the reserved `currency` of `who`.
    UnreserveAsset { currency: AssetId, who: AccountId, amount: u128 },
    /// Move `amount` of `currency` from `source` to `dest`.
    TransferAsset { currency: AssetId, source: AccountId, dest: AccountId, amount: u128 },
    /// Deposit an event.
    Deposit(Event),
}

/// The effects that a call asks for, and its result once they succeed.
pub struct Outcome<T> {
    pub effects: Vec<Effect>,
    pub result: Result<T, crate::dispatch::DispatchError>,
}

/// What the runtime answers before an order is placed.
#[derive(Clone, Copy, Debug, PartialEq, Eq)]
pub struct PlaceChecks {
    /// The asset bought is in the registry.
    pub asset_in_registered: bool,
    /// The asset paid with is in the registry.
    pub asset_out_registered: bool,
    /// The account can reserve `buy_amount` of the asset it pays with.
    pub can_reserve_asset: bool,
    /// The account can reserve the order fee.
    pub can_reserve_fee: bool,
    /// The order fee.
    pub fee: u128,
}

/// What the runtime answers before an order is filled.
#[derive(Clone, Copy, Debug, PartialEq, Eq)]
pub struct FillChecks {
    /// The asset bought by the order is in the registry.
    pub asset_in_registered: bool,
    /// The asset paid with by the order is in the registry.
    pub asset_out_registered: bool,
    /// The runtime's reserve check for the fill: that the filler can reserve
    /// the order's `buy_amount * price` of the asset the order pays with.
    pub can_reserve_payment: bool,
    /// The order fee.
    pub fee: u128,
}

} // verus!
