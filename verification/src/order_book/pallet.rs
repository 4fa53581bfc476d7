//! The calls of the order book pallet.

use vstd::prelude::*;

use crate::dispatch::{AccountId, ArithmeticError, DispatchError, Origin, spec_ensure_signed};
use crate::order_book::hashing::{
    blake2_256, hash_blake2_256, order_key_encoding, scale_encode_order_key,
};
use crate::order_book::pairs::{ASSET_PAIR_CAPACITY, PairOrders, without};
use crate::order_book::table::{OrdersByAccount, OrdersById};
use crate::order_book::types::{
    AssetId, Effect, Error, Event, FillChecks, H256, Order, Outcome, PlaceChecks,
};

verus! {

/// The storage of the order book, as maps.
pub struct PalletModel {
    /// The orders, by id.
    pub orders: Map<H256, Order>,
    /// The orders, by placing account and id.
    pub user_orders: Map<(AccountId, H256), Order>,
    /// The ids of the orders of each asset pair that has a list.
    pub asset_pair_orders: Map<(AssetId, AssetId), Seq<H256>>,
    /// The number of orders placed so far.
    pub nonce: u64,
}

impl PalletModel {
    /// The ids of the orders of an asset pair; empty where it has no list.
    pub open spec fn pair_orders(self, a: AssetId, b: AssetId) -> Seq<H256> {
        if self.asset_pair_orders.contains_key((a, b)) {
            self.asset_pair_orders[(a, b)]
        } else {
            Seq::empty()
        }
    }
}

/// The error of the pallet.
pub open spec fn book_error(e: Error) -> DispatchError {
    DispatchError::OrderBook(e)
}

/// Placing an order of `account` to buy `buy_amount` of `currency_in` with
/// `currency_out` at a price of at most `sell_price_limit`, stored under
/// `order_id`: the effects, the result and the storage after it.
pub open spec fn spec_place_order(
    p: PalletModel,
    account: AccountId,
    currency_in: AssetId,
    currency_out: AssetId,
    buy_amount: u128,
    sell_price_limit: u128,
    min_fullfillment_amount: u128,
    checks: PlaceChecks,
    order_id: H256,
) -> (Seq<Effect>, Result<H256, DispatchError>, PalletModel) {
    let max_sell = buy_amount * sell_price_limit;
    if currency_in == currency_out {
        (seq![], Err(book_error(Error::ConflictingAssetIds)), p)
    } else if buy_amount == 0 {
        (seq![], Err(book_error(Error::InvalidBuyAmount)), p)
    } else if sell_price_limit == 0 {
        (seq![], Err(book_error(Error::InvalidMinPrice)), p)
    } else if !checks.asset_in_registered || !checks.asset_out_registered {
        (seq![], Err(book_error(Error::InvalidAssetId)), p)
    } else if !checks.can_reserve_asset {
        (seq![], Err(book_error(Error::InsufficientAssetFunds)), p)
    } else if !checks.can_reserve_fee {
        (seq![], Err(book_error(Error::InsufficientReserveFunds)), p)
    } else if p.nonce == u64::MAX {
        (seq![], Err(DispatchError::Arithmetic(ArithmeticError::Overflow)), p)
    } else if max_sell > u128::MAX {
        (seq![], Err(DispatchError::Arithmetic(ArithmeticError::Overflow)), p)
    } else if p.pair_orders(currency_in, currency_out).len() >= ASSET_PAIR_CAPACITY {
        (seq![], Err(book_error(Error::AssetPairOrdersOverflow)), p)
    } else {
        let order = Order {
            order_id,
            placing_account: account,
            asset_in_id: currency_in,
            asset_out_id: currency_out,
            buy_amount,
            initial_buy_amount: buy_amount,
            price: sell_price_limit,
            min_fullfillment_amount,
            max_sell_amount: max_sell as u128,
        };
        (
            seq![
                Effect::ReserveFee { who: account, amount: checks.fee },
                Effect::ReserveAsset { currency: currency_out, who: account, amount: max_sell as u128 },
                Effect::Deposit(Event::OrderCreated {
                    order_id,
                    creator_account: account,
                    currency_in,
                    currency_out,
                    buy_amount,
                    min_fullfillment_amount,
                    sell_price_limit,
                }),
            ],
            Ok(order_id),
            PalletModel {
                orders: p.orders.insert(order_id, order),
                user_orders: p.user_orders.insert((account, order_id), order),
                asset_pair_orders: p.asset_pair_orders.insert(
                    (currency_in, currency_out),
                    p.pair_orders(currency_in, currency_out).push(order_id),
                ),
                nonce: (p.nonce + 1) as u64,
            },
        )
    }
}

/// The id that `place_order` gives the next order of `account`: the hash
/// that `gen_hash` gives for the next nonce, with the assets passed in the
/// order in which `place_order` passes them.
pub open spec fn is_next_order_id(
    p: PalletModel,
    account: AccountId,
    currency_in: AssetId,
    currency_out: AssetId,
    id: H256,
) -> bool {
    p.nonce < u64::MAX ==> id.0@ == blake2_256(
        order_key_encoding(account, currency_out, currency_in, (p.nonce + 1) as u64),
    )
}

/// Removing a stored order, and releasing what it reserved: the effects,
/// the result and the storage after it.
pub open spec fn spec_remove_order(p: PalletModel, order: Order, fee: u128)
    -> (Seq<Effect>, Result<(), DispatchError>, PalletModel)
{
    let account = order.placing_account;
    (
        seq![
            Effect::UnreserveFee { who: account, amount: fee },
            Effect::UnreserveAsset { currency: order.asset_out_id, who: account, amount: order.max_sell_amount },
            Effect::Deposit(Event::OrderCancelled { order_id: order.order_id, account }),
        ],
        Ok(()),
        removed(p, order),
    )
}

/// Cancelling the order of id `order_id`, with the order fee at `fee`.
pub open spec fn spec_cancel_order(p: PalletModel, order_id: H256, fee: u128)
    -> (Seq<Effect>, Result<(), DispatchError>, PalletModel)
{
    if p.orders.contains_key(order_id) {
        spec_remove_order(p, p.orders[order_id], fee)
    } else {
        (seq![], Err(book_error(Error::OrderNotFound)), p)
    }
}

/// Cancelling the order of id `order_id` of `account`.
pub open spec fn spec_user_cancel_order(p: PalletModel, account: AccountId, order_id: H256, fee: u128)
    -> (Seq<Effect>, Result<(), DispatchError>, PalletModel)
{
    if p.user_orders.contains_key((account, order_id)) {
        spec_remove_order(p, p.user_orders[(account, order_id)], fee)
    } else {
        (seq![], Err(book_error(Error::OrderNotFound)), p)
    }
}

/// `account` filling the whole of the order of id `order_id`: the placer
/// buys `buy_amount` of `asset_in_id` from `account` and pays
/// `buy_amount * price` of `asset_out_id` for it, out of what the order
/// reserved; the order is then removed. The effects, the result and the
/// storage after it.
pub open spec fn spec_fill_order_full(p: PalletModel, account: AccountId, order_id: H256, checks: FillChecks)
    -> (Seq<Effect>, Result<(), DispatchError>, PalletModel)
{
    if !p.orders.contains_key(order_id) {
        (seq![], Err(book_error(Error::OrderNotFound)), p)
    } else {
        let order = p.orders[order_id];
        let payment = order.buy_amount * order.price;
        if !checks.asset_out_registered || !checks.asset_in_registered {
            (seq![], Err(book_error(Error::InvalidAssetId)), p)
        } else if payment > u128::MAX {
            (seq![], Err(DispatchError::Arithmetic(ArithmeticError::Overflow)), p)
        } else if !checks.can_reserve_payment {
            (seq![], Err(book_error(Error::InsufficientAssetFunds)), p)
        } else {
            (
                seq![
                    Effect::UnreserveAsset {
                        currency: order.asset_out_id,
                        who: order.placing_account,
                        amount: order.max_sell_amount,
                    },
                    Effect::UnreserveFee { who: account, amount: checks.fee },
                    Effect::TransferAsset {
                        currency: order.asset_in_id,
                        source: account,
                        dest: order.placing_account,
                        amount: order.buy_amount,
                    },
                    Effect::TransferAsset {
                        currency: order.asset_out_id,
                        source: order.placing_account,
                        dest: account,
                        amount: payment as u128,
                    },
                ],
                Ok(()),
                removed(p, order),
            )
        }
    }
}

/// The storage without a stored order: gone by id, by account and id, and
/// from the list of its asset pair.
pub open spec fn removed(p: PalletModel, order: Order) -> PalletModel {
    PalletModel {
        orders: p.orders.remove(order.order_id),
        user_orders: p.user_orders.remove((order.placing_account, order.order_id)),
        asset_pair_orders: p.asset_pair_orders.insert(
            (order.asset_in_id, order.asset_out_id),
            p.pair_orders(order.asset_in_id, order.asset_out_id).filter(|h: H256| h != order.order_id),
        ),
        nonce: p.nonce,
    }
}

/// Each order is stored under its own id, and under its own placing
/// account and id.
pub open spec fn stored_under_own_keys(p: PalletModel) -> bool {
    &&& forall|id: H256| #[trigger] p.orders.contains_key(id) ==> p.orders[id].order_id == id
    &&& forall|a: AccountId, id: H256| #[trigger] p.user_orders.contains_key((a, id)) ==> {
        &&& p.user_orders[(a, id)].placing_account == a
        &&& p.user_orders[(a, id)].order_id == id
    }
}

/// The order book: its storage.
#[derive(Clone, Debug)]
pub struct Pallet {
    orders: OrdersById,
    user_orders: OrdersByAccount,
    pairs: PairOrders,
    nonce: u64,
}

impl View for Pallet {
    type V = PalletModel;

    closed spec fn view(&self) -> PalletModel {
        PalletModel {
            orders: self.orders.view(),
            user_orders: self.user_orders.view(),
            asset_pair_orders: self.pairs.view(),
            nonce: self.nonce,
        }
    }
}

impl Pallet {
    /// The storages are well formed, and each order is stored under its own
    /// id and its own placing account.
    pub open spec fn wf(&self) -> bool {
        &&& self.tables_wf()
        &&& stored_under_own_keys(self@)
    }

    /// The tables that hold the orders are well formed.
    pub closed spec fn tables_wf(&self) -> bool {
        self.orders.wf() && self.user_orders.wf()
    }

    /// An order book with no orders.
    pub fn new() -> (r: Pallet)
        ensures
            r.wf(),
            r@.orders.is_empty(),
            r@.user_orders.is_empty(),
            r@.asset_pair_orders.is_empty(),
            r@.nonce == 0,
    {
        Pallet { orders: OrdersById::new(), user_orders: OrdersByAccount::new(), pairs: PairOrders::new(), nonce: 0 }
    }

    /// The id of the order that `placer` places with the given assets and
    /// nonce: the hash of the encoding of `(placer, asset_in, asset_out, nonce)`.
    pub fn gen_hash(placer: &AccountId, asset_out: AssetId, asset_in: AssetId, nonce: u64) -> (r: H256)
        ensures
            r.0@ == blake2_256(order_key_encoding(*placer, asset_in, asset_out, nonce)),
    {
        let encoded = scale_encode_order_key(placer, asset_in, asset_out, nonce);
        H256(hash_blake2_256(encoded.as_slice()))
    }

    /// `Orders::get`: the order of id `order_id`, or `OrderNotFound`.
    pub fn orders(&self, order_id: &H256) -> (r: Result<Order, DispatchError>)
        requires
            self.wf(),
        ensures
            r == (if self@.orders.contains_key(*order_id) {
                Ok(self@.orders[*order_id])
            } else {
                Err(book_error(Error::OrderNotFound))
            }),
    {
        match self.orders.get(order_id) {
            Some(o) => Ok(o),
            None => Err(DispatchError::OrderBook(Error::OrderNotFound)),
        }
    }

    /// `UserOrders::get`: the order of `account` of id `order_id`, or
    /// `OrderNotFound`.
    pub fn user_orders(&self, account: AccountId, order_id: &H256) -> (r: Result<Order, DispatchError>)
        requires
            self.wf(),
        ensures
            r == (if self@.user_orders.contains_key((account, *order_id)) {
                Ok(self@.user_orders[(account, *order_id)])
            } else {
                Err(book_error(Error::OrderNotFound))
            }),
    {
        match self.user_orders.get(account, order_id) {
            Some(o) => Ok(o),
            None => Err(DispatchError::OrderBook(Error::OrderNotFound)),
        }
    }

    /// `AssetPairOrders::get`: the ids of the orders of an asset pair.
    pub fn asset_pair_orders(&self, asset_in: AssetId, asset_out: AssetId) -> (r: Vec<H256>)
        ensures
            r@ == self@.pair_orders(asset_in, asset_out),
    {
        self.pairs.get(asset_in, asset_out)
    }

    /// `NonceStore::get`: the number of orders placed so far.
    pub fn nonce(&self) -> (r: u64)
        ensures
            r == self@.nonce,
    {
        self.nonce
    }

    /// The orders of `account_id`, each with its id.
    pub fn get_account_orders(&self, account_id: AccountId) -> (r: Result<Vec<(H256, Order)>, DispatchError>)
        requires
            self.wf(),
        ensures
            r matches Ok(v) && {
                &&& forall|i: int| 0 <= i < v@.len() ==> {
                    &&& self@.user_orders.contains_key((account_id, #[trigger] v@[i].0))
                    &&& v@[i].1 == self@.user_orders[(account_id, v@[i].0)]
                }
                &&& forall|id: H256| #[trigger] self@.user_orders.contains_key((account_id, id))
                    ==> exists|i: int| 0 <= i < v@.len() && v@[i].0 == id
                &&& forall|i: int, j: int| 0 <= i < j < v@.len() ==> v@[i].0 != v@[j].0
            },
    {
        Ok(self.user_orders.of_account(account_id))
    }

    /// Places an order stored under `order_id`; see `place_order`.
    pub fn place_order_with_id(
        &mut self,
        account: AccountId,
        currency_in: AssetId,
        currency_out: AssetId,
        buy_amount: u128,
        sell_price_limit: u128,
        min_fullfillment_amount: u128,
        checks: PlaceChecks,
        order_id: H256,
    ) -> (out: Outcome<H256>)
        requires
            old(self).wf(),
        ensures
            final(self).wf(),
            (out.effects@, out.result, final(self)@) == spec_place_order(
                old(self)@, account, currency_in, currency_out, buy_amount, sell_price_limit,
                min_fullfillment_amount, checks, order_id),
    {
        let ghost g = spec_place_order(
            old(self)@, account, currency_in, currency_out, buy_amount, sell_price_limit,
            min_fullfillment_amount, checks, order_id);
        let mut effects: Vec<Effect> = Vec::new();
        if currency_in == currency_out {
            return Outcome { effects, result: Err(DispatchError::OrderBook(Error::ConflictingAssetIds)) };
        }
        if buy_amount == 0 {
            return Outcome { effects, result: Err(DispatchError::OrderBook(Error::InvalidBuyAmount)) };
        }
        if sell_price_limit == 0 {
            return Outcome { effects, result: Err(DispatchError::OrderBook(Error::InvalidMinPrice)) };
        }
        if !checks.asset_in_registered || !checks.asset_out_registered {
            return Outcome { effects, result: Err(DispatchError::OrderBook(Error::InvalidAssetId)) };
        }
        if !checks.can_reserve_asset {
            return Outcome { effects, result: Err(DispatchError::OrderBook(Error::InsufficientAssetFunds)) };
        }
        if !checks.can_reserve_fee {
            return Outcome { effects, result: Err(DispatchError::OrderBook(Error::InsufficientReserveFunds)) };
        }
        let nonce = match self.nonce.checked_add(1) {
            Some(n) => n,
            None => {
                return Outcome { effects, result: Err(DispatchError::Arithmetic(ArithmeticError::Overflow)) };
            },
        };
        let max_sell_amount = match buy_amount.checked_mul(sell_price_limit) {
            Some(m) => m,
            None => {
                return Outcome { effects, result: Err(DispatchError::Arithmetic(ArithmeticError::Overflow)) };
            },
        };
        let mut list = self.pairs.get(currency_in, currency_out);
        if list.len() >= ASSET_PAIR_CAPACITY {
            return Outcome { effects, result: Err(DispatchError::OrderBook(Error::AssetPairOrdersOverflow)) };
        }
        list.push(order_id);
        let order = Order {
            order_id,
            placing_account: account,
            asset_in_id: currency_in,
            asset_out_id: currency_out,
            buy_amount,
            initial_buy_amount: buy_amount,
            price: sell_price_limit,
            min_fullfillment_amount,
            max_sell_amount,
        };
        self.pairs.set(currency_in, currency_out, list);
        self.nonce = nonce;
        self.orders.insert(order);
        self.user_orders.insert(order);
        effects.push(Effect::ReserveFee { who: account, amount: checks.fee });
        effects.push(Effect::ReserveAsset { currency: currency_out, who: account, amount: max_sell_amount });
        effects.push(Effect::Deposit(Event::OrderCreated {
            order_id,
            creator_account: account,
            currency_in,
            currency_out,
            buy_amount,
            min_fullfillment_amount,
            sell_price_limit,
        }));
        assert(effects@ =~= g.0);
        Outcome { effects, result: Ok(order_id) }
    }

    /// `TokenSwaps::place_order`: `account` orders `buy_amount` of
    /// `currency_in`, paying with `currency_out` at a price of at most
    /// `sell_price_limit`. It reserves the order fee and `buy_amount *
    /// sell_price_limit` of `currency_out`, and returns the new order's id.
    pub fn place_order(
        &mut self,
        account: AccountId,
        currency_in: AssetId,
        currency_out: AssetId,
        buy_amount: u128,
        sell_price_limit: u128,
        min_fullfillment_amount: u128,
        checks: PlaceChecks,
    ) -> (out: Outcome<H256>)
        requires
            old(self).wf(),
        ensures
            final(self).wf(),
            exists|id: H256| {
                &&& is_next_order_id(old(self)@, account, currency_in, currency_out, id)
                &&& (out.effects@, out.result, final(self)@) == spec_place_order(
                    old(self)@, account, currency_in, currency_out, buy_amount, sell_price_limit,
                    min_fullfillment_amount, checks, id)
            },
    {
        let ghost p0 = self@;
        let order_id = match self.nonce.checked_add(1) {
            Some(n) => Self::gen_hash(&account, currency_in, currency_out, n),
            None => H256([0u8; 32]),
        };
        assert(is_next_order_id(p0, account, currency_in, currency_out, order_id));
        let out = self.place_order_with_id(
            account, currency_in, currency_out, buy_amount, sell_price_limit, min_fullfillment_amount,
            checks, order_id);
        assert(is_next_order_id(p0, account, currency_in, currency_out, order_id)
            && (out.effects@, out.result, self@) == spec_place_order(
                p0, account, currency_in, currency_out, buy_amount, sell_price_limit,
                min_fullfillment_amount, checks, order_id));
        out
    }

    /// `create_order_v1`: the signer places an order whose minimum
    /// fulfillment is the whole buy amount.
    pub fn create_order_v1(
        &mut self,
        origin: Origin,
        asset_in: AssetId,
        asset_out: AssetId,
        buy_amount: u128,
        price: u128,
        checks: PlaceChecks,
    ) -> (out: Outcome<()>)
        requires
            old(self).wf(),
        ensures
            final(self).wf(),
            match spec_ensure_signed(origin) {
                Err(e) => out.effects@.len() == 0 && out.result == Err::<(), DispatchError>(e)
                    && final(self)@ == old(self)@,
                Ok(account) => exists|id: H256| {
                    &&& is_next_order_id(old(self)@, account, asset_in, asset_out, id)
                    &&& ({
                        let (effects, result, post) = spec_place_order(
                            old(self)@, account, asset_in, asset_out, buy_amount, price, buy_amount, checks, id);
                        &&& out.effects@ == effects
                        &&& out.result == match result { Ok(_) => Ok::<(), DispatchError>(()), Err(e) => Err(e) }
                        &&& final(self)@ == post
                    })
                },
            },
    {
        match crate::dispatch::ensure_signed(origin) {
            Err(e) => Outcome { effects: Vec::new(), result: Err(e) },
            Ok(account) => {
                let placed = self.place_order(account, asset_in, asset_out, buy_amount, price, buy_amount, checks);
                match placed.result {
                    Ok(_) => Outcome { effects: placed.effects, result: Ok(()) },
                    Err(e) => Outcome { effects: placed.effects, result: Err(e) },
                }
            },
        }
    }

    /// Removes a stored order.
    fn remove_stored(&mut self, order: &Order)
        requires
            old(self).wf(),
        ensures
            final(self).wf(),
            final(self)@ == removed(old(self)@, *order),
    {
        self.user_orders.remove(order.placing_account, &order.order_id);
        self.orders.remove(&order.order_id);
        let list = self.pairs.get(order.asset_in_id, order.asset_out_id);
        let kept = without(&list, &order.order_id);
        self.pairs.set(order.asset_in_id, order.asset_out_id, kept);
        proof {
            let p0 = old(self)@;
            assert forall|id: H256| #[trigger] self@.orders.contains_key(id) implies self@.orders[id].order_id == id by {
                assert(p0.orders.contains_key(id));
            }
            assert forall|a: AccountId, id: H256| #[trigger] self@.user_orders.contains_key((a, id)) implies {
                &&& self@.user_orders[(a, id)].placing_account == a
                &&& self@.user_orders[(a, id)].order_id == id
            } by {
                assert(p0.user_orders.contains_key((a, id)));
            }
        }
    }

    /// Removes a stored order and releases what it reserved.
    fn remove_order(&mut self, order: Order, fee: u128) -> (out: Outcome<()>)
        requires
            old(self).wf(),
        ensures
            final(self).wf(),
            (out.effects@, out.result, final(self)@) == spec_remove_order(old(self)@, order, fee),
    {
        let account = order.placing_account;
        self.remove_stored(&order);
        let mut effects: Vec<Effect> = Vec::new();
        effects.push(Effect::UnreserveFee { who: account, amount: fee });
        effects.push(Effect::UnreserveAsset { currency: order.asset_out_id, who: account, amount: order.max_sell_amount });
        effects.push(Effect::Deposit(Event::OrderCancelled { order_id: order.order_id, account }));
        assert(effects@ =~= spec_remove_order(old(self)@, order, fee).0);
        Outcome { effects, result: Ok(()) }
    }

    /// `TokenSwaps::cancel_order`: cancels the order of id `order_id`,
    /// releasing the order fee `fee` and what the order reserved.
    pub fn cancel_order(&mut self, order_id: H256, fee: u128) -> (out: Outcome<()>)
        requires
            old(self).wf(),
        ensures
            final(self).wf(),
            (out.effects@, out.result, final(self)@) == spec_cancel_order(old(self)@, order_id, fee),
    {
        match self.orders.get(&order_id) {
            Some(order) => self.remove_order(order, fee),
            None => Outcome { effects: Vec::new(), result: Err(DispatchError::OrderBook(Error::OrderNotFound)) },
        }
    }

    /// `user_cancel_order`: the signer cancels its order of id `order_id`.
    pub fn user_cancel_order(&mut self, origin: Origin, order_id: H256, fee: u128) -> (out: Outcome<()>)
        requires
            old(self).wf(),
        ensures
            final(self).wf(),
            match spec_ensure_signed(origin) {
                Err(e) => out.effects@.len() == 0 && out.result == Err::<(), DispatchError>(e)
                    && final(self)@ == old(self)@,
                Ok(account) => (out.effects@, out.result, final(self)@)
                    == spec_user_cancel_order(old(self)@, account, order_id, fee),
            },
    {
        match crate::dispatch::ensure_signed(origin) {
            Err(e) => Outcome { effects: Vec::new(), result: Err(e) },
            Ok(account) => match self.user_orders.get(account, &order_id) {
                Some(order) => self.remove_order(order, fee),
                None => Outcome { effects: Vec::new(), result: Err(DispatchError::OrderBook(Error::OrderNotFound)) },
            },
        }
    }

    /// `fill_order_full`: the signer fills the whole of the order of id
    /// `order_id`: it sells the order's `buy_amount` of `asset_in_id` to the
    /// placer and receives `buy_amount * price` of `asset_out_id`, which the
    /// order had reserved. The order is removed.
    pub fn fill_order_full(&mut self, origin: Origin, order_id: H256, checks: FillChecks) -> (out: Outcome<()>)
        requires
            old(self).wf(),
        ensures
            final(self).wf(),
            match spec_ensure_signed(origin) {
                Err(e) => out.effects@.len() == 0 && out.result == Err::<(), DispatchError>(e)
                    && final(self)@ == old(self)@,
                Ok(account) => {
                    &&& (out.effects@, out.result, final(self)@)
                        == spec_fill_order_full(old(self)@, account, order_id, checks)
                    &&& out.result is Ok ==> {
                        let o = old(self)@.orders[order_id];
                        &&& !final(self)@.orders.contains_key(order_id)
                        &&& !final(self)@.user_orders.contains_key((o.placing_account, order_id))
                        &&& !final(self)@.pair_orders(o.asset_in_id, o.asset_out_id).contains(order_id)
                    }
                },
            },
    {
        let account = match crate::dispatch::ensure_signed(origin) {
            Err(e) => {
                return Outcome { effects: Vec::new(), result: Err(e) };
            },
            Ok(a) => a,
        };
        let order = match self.orders.get(&order_id) {
            Some(o) => o,
            None => {
                return Outcome { effects: Vec::new(), result: Err(DispatchError::OrderBook(Error::OrderNotFound)) };
            },
        };
        if !checks.asset_out_registered || !checks.asset_in_registered {
            return Outcome { effects: Vec::new(), result: Err(DispatchError::OrderBook(Error::InvalidAssetId)) };
        }
        let payment = match order.buy_amount.checked_mul(order.price) {
            Some(x) => x,
            None => {
                return Outcome { effects: Vec::new(), result: Err(DispatchError::Arithmetic(ArithmeticError::Overflow)) };
            },
        };
        if !checks.can_reserve_payment {
            return Outcome { effects: Vec::new(), result: Err(DispatchError::OrderBook(Error::InsufficientAssetFunds)) };
        }
        proof {
            crate::order_book::laws::lemma_filter_drops(
                old(self)@.pair_orders(order.asset_in_id, order.asset_out_id), order_id);
        }
        self.remove_stored(&order);
        let mut effects: Vec<Effect> = Vec::new();
        effects.push(Effect::UnreserveAsset {
            currency: order.asset_out_id,
            who: order.placing_account,
            amount: order.max_sell_amount,
        });
        effects.push(Effect::UnreserveFee { who: account, amount: checks.fee });
        effects.push(Effect::TransferAsset {
            currency: order.asset_in_id,
            source: account,
            dest: order.placing_account,
            amount: order.buy_amount,
        });
        effects.push(Effect::TransferAsset {
            currency: order.asset_out_id,
            source: order.placing_account,
            dest: account,
            amount: payment,
        });
        assert(effects@ =~= spec_fill_order_full(old(self)@, account, order_id, checks).0);
        Outcome { effects, result: Ok(()) }
    }

    /// `TokenSwaps::update_order`: accepted, and changes nothing.
    pub fn update_order(
        &mut self,
        account: AccountId,
        order_id: H256,
        buy_amount: u128,
        sell_price_limit: u128,
        min_fullfillment_amount: u128,
    ) -> (r: Result<(), DispatchError>)
        ensures
            r == Ok::<(), DispatchError>(()),
            final(self)@ == old(self)@,
            final(self).wf() == old(self).wf(),
    {
        Ok(())
    }

    /// `TokenSwaps::is_active`: whether the order of id `order_id` is
    /// still stored, that is placed and neither cancelled nor filled.
    pub fn is_active(&self, order_id: H256) -> (r: bool)
        requires
            self.wf(),
        ensures
            r == self@.orders.contains_key(order_id),
    {
        self.orders.get(&order_id).is_some()
    }
}

} // verus!
