//! What holds of the order book across its calls.

use vstd::prelude::*;

use crate::dispatch::{AccountId, DispatchError};
use crate::order_book::hashing::{le_bytes, order_key_encoding};
use crate::order_book::pallet::{
    PalletModel, spec_cancel_order, spec_fill_order_full, spec_place_order, spec_remove_order,
    spec_user_cancel_order, stored_under_own_keys,
};
use crate::order_book::types::{AssetId, Effect, Error, Event, FillChecks, H256, Order, PlaceChecks};

verus! {

/// The order book's storages agree: each order is stored under its id and
/// under its placing account and id, with the same value, and its id is in
/// the list of its asset pair.
pub open spec fn agree(p: PalletModel) -> bool {
    &&& forall|id: H256| #[trigger] p.orders.contains_key(id) ==> {
        let o = p.orders[id];
        &&& o.order_id == id
        &&& p.user_orders.contains_key((o.placing_account, id))
        &&& p.user_orders[(o.placing_account, id)] == o
        &&& p.pair_orders(o.asset_in_id, o.asset_out_id).contains(id)
    }
    &&& forall|a: AccountId, id: H256| #[trigger] p.user_orders.contains_key((a, id)) ==> {
        &&& p.orders.contains_key(id)
        &&& p.orders[id] == p.user_orders[(a, id)]
        &&& p.user_orders[(a, id)].placing_account == a
    }
    &&& forall|a: AssetId, b: AssetId, i: int| 0 <= i < p.pair_orders(a, b).len() ==> {
        &&& p.orders.contains_key(#[trigger] p.pair_orders(a, b)[i])
        &&& p.orders[p.pair_orders(a, b)[i]].asset_in_id == a
        &&& p.orders[p.pair_orders(a, b)[i]].asset_out_id == b
    }
}

/// In agreeing storages, an id that no order is stored under is neither
/// under any account nor in any asset pair list.
pub proof fn lemma_unstored_id_is_nowhere(p: PalletModel, account: AccountId, a: AssetId, b: AssetId, id: H256)
    requires
        agree(p),
        !p.orders.contains_key(id),
    ensures
        !p.user_orders.contains_key((account, id)),
        !p.pair_orders(a, b).contains(id),
{
    if p.pair_orders(a, b).contains(id) {
        let k = choose|k: int| 0 <= k < p.pair_orders(a, b).len() && p.pair_orders(a, b)[k] == id;
        assert(p.orders.contains_key(p.pair_orders(a, b)[k]));
    }
}

/// An empty order book agrees.
pub proof fn law_empty_book_agrees(p: PalletModel)
    requires
        p.orders.is_empty(),
        p.user_orders.is_empty(),
        p.asset_pair_orders.is_empty(),
    ensures
        agree(p),
{
    assert forall|a: AssetId, b: AssetId| #[trigger] p.pair_orders(a, b).len() == 0 by {
        assert(!p.asset_pair_orders.dom().contains((a, b)));
    }
}

/// A placed order reads back under its id and under its account and id,
/// with the whole buy amount still to buy and `buy_amount * price` as the
/// most it may sell; its id ends the list of its asset pair, the nonce goes
/// up by one, and the fee and that most are reserved, in that order.
pub proof fn law_placed_order_reads_back(
    p: PalletModel,
    account: AccountId,
    currency_in: AssetId,
    currency_out: AssetId,
    buy_amount: u128,
    price: u128,
    min_fullfillment_amount: u128,
    checks: PlaceChecks,
    id: H256,
)
    requires
        spec_place_order(p, account, currency_in, currency_out, buy_amount, price, min_fullfillment_amount, checks, id).1 is Ok,
    ensures
        ({
            let (effects, result, post) = spec_place_order(
                p, account, currency_in, currency_out, buy_amount, price, min_fullfillment_amount, checks, id);
            let order = Order {
                order_id: id,
                placing_account: account,
                asset_in_id: currency_in,
                asset_out_id: currency_out,
                buy_amount,
                initial_buy_amount: buy_amount,
                price,
                min_fullfillment_amount,
                max_sell_amount: (buy_amount * price) as u128,
            };
            &&& result == Ok::<H256, DispatchError>(id)
            &&& post.orders[id] == order
            &&& post.user_orders[(account, id)] == order
            &&& post.pair_orders(currency_in, currency_out) == p.pair_orders(currency_in, currency_out).push(id)
            &&& post.nonce == p.nonce + 1
            &&& effects[0] == Effect::ReserveFee { who: account, amount: checks.fee }
            &&& effects[1] == Effect::ReserveAsset {
                currency: currency_out,
                who: account,
                amount: (buy_amount * price) as u128,
            }
        }),
{
}

/// A cancelled order is gone from both storages and from the list of its
/// asset pair, and exactly what it reserved is released.
pub proof fn law_cancelled_order_is_gone(p: PalletModel, order_id: H256, fee: u128)
    requires
        spec_cancel_order(p, order_id, fee).1 is Ok,
        agree(p),
    ensures
        ({
            let order = p.orders[order_id];
            let (effects, _, post) = spec_cancel_order(p, order_id, fee);
            &&& !post.orders.contains_key(order_id)
            &&& !post.user_orders.contains_key((order.placing_account, order_id))
            &&& !post.pair_orders(order.asset_in_id, order.asset_out_id).contains(order_id)
            &&& effects[0] == Effect::UnreserveFee { who: order.placing_account, amount: fee }
            &&& effects[1] == Effect::UnreserveAsset {
                currency: order.asset_out_id,
                who: order.placing_account,
                amount: order.max_sell_amount,
            }
        }),
{
    let order = p.orders[order_id];
    let list = p.pair_orders(order.asset_in_id, order.asset_out_id);
    lemma_filter_drops(list, order_id);
}

/// A cancel by the order's owner that goes through releases exactly what
/// the order reserved: the order fee, and `max_sell_amount` of the asset it
/// pays with, both on the placing account; and the order is gone.
pub proof fn law_user_cancel_releases_the_reservation(p: PalletModel, account: AccountId, order_id: H256, fee: u128)
    requires
        stored_under_own_keys(p),
        spec_user_cancel_order(p, account, order_id, fee).1 is Ok,
    ensures
        p.user_orders.contains_key((account, order_id)),
        ({
            let order = p.user_orders[(account, order_id)];
            let (effects, _, post) = spec_user_cancel_order(p, account, order_id, fee);
            &&& order.placing_account == account
            &&& effects == seq![
                Effect::UnreserveFee { who: account, amount: fee },
                Effect::UnreserveAsset { currency: order.asset_out_id, who: account, amount: order.max_sell_amount },
                Effect::Deposit(Event::OrderCancelled { order_id, account }),
            ]
            &&& !post.user_orders.contains_key((account, order_id))
            &&& !post.orders.contains_key(order_id)
            &&& !post.pair_orders(order.asset_in_id, order.asset_out_id).contains(order_id)
        }),
{
    let order = p.user_orders[(account, order_id)];
    lemma_filter_drops(p.pair_orders(order.asset_in_id, order.asset_out_id), order_id);
}

/// Where the storages agree, an owner's cancel of its order does exactly
/// what a cancel of the same order by id does: the same effects, result and
/// storage after it.
pub proof fn law_user_cancel_is_cancel(p: PalletModel, account: AccountId, order_id: H256, fee: u128)
    requires
        agree(p),
        p.user_orders.contains_key((account, order_id)),
    ensures
        spec_user_cancel_order(p, account, order_id, fee) == spec_cancel_order(p, order_id, fee),
{
}

/// Filtering an id out of a list leaves no occurrence of it, and keeps every
/// other member.
pub proof fn lemma_filter_drops(list: Seq<H256>, id: H256)
    ensures
        !list.filter(|h: H256| h != id).contains(id),
        forall|x: H256| x != id && list.contains(x) ==> list.filter(|h: H256| h != id).contains(x),
{
    let pred = |h: H256| h != id;
    let f = list.filter(pred);
    list.filter_lemma(pred);
    assert forall|x: H256| x != id && list.contains(x) implies f.contains(x) by {
        let i = choose|i: int| 0 <= i < list.len() && list[i] == x;
        assert(pred(list[i]));
        assert(f.contains(list[i]));
    }
}

/// Placing an order under an id that no stored order has, and then
/// cancelling it, releases what the placing reserved and leaves the order
/// storages as they were.
pub proof fn law_cancel_undoes_place(
    p: PalletModel,
    account: AccountId,
    currency_in: AssetId,
    currency_out: AssetId,
    buy_amount: u128,
    price: u128,
    min_fullfillment_amount: u128,
    checks: PlaceChecks,
    id: H256,
    fee: u128,
)
    requires
        agree(p),
        spec_place_order(p, account, currency_in, currency_out, buy_amount, price, min_fullfillment_amount, checks, id).1 is Ok,
        !p.orders.contains_key(id),
    ensures
        ({
            let (placed, _, p1) = spec_place_order(
                p, account, currency_in, currency_out, buy_amount, price, min_fullfillment_amount, checks, id);
            let (cancelled, result, p2) = spec_cancel_order(p1, id, checks.fee);
            &&& result is Ok
            &&& p2.orders == p.orders
            &&& p2.user_orders == p.user_orders
            &&& p2.pair_orders(currency_in, currency_out) == p.pair_orders(currency_in, currency_out)
            &&& cancelled[0] == Effect::UnreserveFee { who: account, amount: checks.fee }
            &&& placed[0] == Effect::ReserveFee { who: account, amount: checks.fee }
            &&& cancelled[1] == Effect::UnreserveAsset {
                currency: currency_out,
                who: account,
                amount: (buy_amount * price) as u128,
            }
            &&& placed[1] == Effect::ReserveAsset {
                currency: currency_out,
                who: account,
                amount: (buy_amount * price) as u128,
            }
        }),
{
    lemma_unstored_id_is_nowhere(p, account, currency_in, currency_out, id);
    let p1 = spec_place_order(p, account, currency_in, currency_out, buy_amount, price, min_fullfillment_amount, checks, id).2;
    let p2 = spec_cancel_order(p1, id, checks.fee).2;
    assert(p2.orders =~= p.orders);
    assert(p2.user_orders =~= p.user_orders);
    let list = p.pair_orders(currency_in, currency_out);
    let pred = |h: H256| h != id;
    lemma_filter_push_absent(list, id);
    assert(p2.pair_orders(currency_in, currency_out) == list.push(id).filter(pred));
}

/// Filtering an id out of a list that did not hold it, with the id
/// appended, gives back the list.
pub proof fn lemma_filter_push_absent(list: Seq<H256>, id: H256)
    requires
        !list.contains(id),
    ensures
        list.push(id).filter(|h: H256| h != id) == list,
    decreases list.len(),
{
    let pred = |h: H256| h != id;
    reveal_with_fuel(Seq::<H256>::filter, 1);
    assert(list.push(id).drop_last() =~= list);
    lemma_filter_keeps_all(list, id);
}

/// Filtering an id out of a list that did not hold it gives back the list.
pub proof fn lemma_filter_keeps_all(list: Seq<H256>, id: H256)
    requires
        !list.contains(id),
    ensures
        list.filter(|h: H256| h != id) == list,
    decreases list.len(),
{
    let pred = |h: H256| h != id;
    reveal_with_fuel(Seq::<H256>::filter, 1);
    if list.len() > 0 {
        assert(!list.drop_last().contains(id)) by {
            if list.drop_last().contains(id) {
                let i = choose|i: int| 0 <= i < list.drop_last().len() && list.drop_last()[i] == id;
                assert(list[i] == id);
            }
        }
        lemma_filter_keeps_all(list.drop_last(), id);
        assert(list.last() != id) by {
            assert(list[list.len() - 1] == list.last());
        }
        assert(list.drop_last().push(list.last()) =~= list);
    }
}

/// Refused calls leave the storage as it was.
pub proof fn law_refused_calls_change_nothing(
    p: PalletModel,
    account: AccountId,
    currency_in: AssetId,
    currency_out: AssetId,
    buy_amount: u128,
    price: u128,
    min_fullfillment_amount: u128,
    checks: PlaceChecks,
    id: H256,
    fee: u128,
    fill: FillChecks,
)
    ensures
        spec_place_order(p, account, currency_in, currency_out, buy_amount, price, min_fullfillment_amount, checks, id).1 is Err
            ==> spec_place_order(p, account, currency_in, currency_out, buy_amount, price, min_fullfillment_amount, checks, id).2 == p,
        spec_cancel_order(p, id, fee).1 is Err ==> spec_cancel_order(p, id, fee).2 == p,
        spec_user_cancel_order(p, account, id, fee).1 is Err ==> spec_user_cancel_order(p, account, id, fee).2 == p,
        spec_fill_order_full(p, account, id, fill).1 is Err ==> spec_fill_order_full(p, account, id, fill).2 == p,
{
}

/// The bytes of an integer below `256^n` determine it.
pub proof fn lemma_le_bytes_injective(x: nat, y: nat, n: nat)
    requires
        le_bytes(x, n) == le_bytes(y, n),
        x < pow256(n),
        y < pow256(n),
    ensures
        x == y,
    decreases n,
{
    if n > 0 {
        let sx = seq![(x % 256) as u8] + le_bytes(x / 256, (n - 1) as nat);
        let sy = seq![(y % 256) as u8] + le_bytes(y / 256, (n - 1) as nat);
        assert(le_bytes(x, n) == sx);
        assert(le_bytes(y, n) == sy);
        assert(sx[0] == sy[0]);
        assert((x % 256) as u8 == (y % 256) as u8);
        assert(x % 256 == y % 256);
        assert(le_bytes(x / 256, (n - 1) as nat) =~= sx.drop_first());
        assert(le_bytes(y / 256, (n - 1) as nat) =~= sy.drop_first());
        assert(x / 256 < pow256((n - 1) as nat)) by (nonlinear_arith)
            requires
                x < pow256(n),
                pow256(n) == 256 * pow256((n - 1) as nat),
        ;
        assert(y / 256 < pow256((n - 1) as nat)) by (nonlinear_arith)
            requires
                y < pow256(n),
                pow256(n) == 256 * pow256((n - 1) as nat),
        ;
        lemma_le_bytes_injective(x / 256, y / 256, (n - 1) as nat);
    } else {
        assert(pow256(0) == 1);
    }
}

/// `256^n`.
pub open spec fn pow256(n: nat) -> nat
    decreases n,
{
    if n == 0 { 1 } else { 256 * pow256((n - 1) as nat) }
}

/// `le_bytes(x, n)` has `n` bytes.
pub proof fn lemma_le_bytes_len(x: nat, n: nat)
    ensures
        le_bytes(x, n).len() == n,
    decreases n,
{
    if n > 0 {
        lemma_le_bytes_len(x / 256, (n - 1) as nat);
    }
}

/// Orders placed at different nonces hash different encodings: the ids
/// that `place_order` hashes never repeat their input.
pub proof fn law_distinct_nonces_distinct_encodings(
    placer: AccountId,
    first: AssetId,
    second: AssetId,
    n1: u64,
    n2: u64,
)
    requires
        n1 != n2,
    ensures
        order_key_encoding(placer, first, second, n1) != order_key_encoding(placer, first, second, n2),
{
    let e1 = order_key_encoding(placer, first, second, n1);
    let e2 = order_key_encoding(placer, first, second, n2);
    lemma_le_bytes_len(placer as nat, 8);
    lemma_le_bytes_len(first as nat, 4);
    lemma_le_bytes_len(second as nat, 4);
    lemma_le_bytes_len(n1 as nat, 8);
    lemma_le_bytes_len(n2 as nat, 8);
    if e1 == e2 {
        assert(e1.subrange(16, 24) =~= le_bytes(n1 as nat, 8));
        assert(e2.subrange(16, 24) =~= le_bytes(n2 as nat, 8));
        assert(pow256(8) == 0x1_0000_0000_0000_0000nat) by {
            reveal_with_fuel(pow256, 9);
        }
        lemma_le_bytes_injective(n1 as nat, n2 as nat, 8);
    }
}


/// Placing an order under an id that no stored order has keeps the
/// storages in agreement. (Under an id that a stored order already has, the
/// new order replaces it by id but not by account.)
pub proof fn law_place_keeps_agreement(
    p: PalletModel,
    account: AccountId,
    currency_in: AssetId,
    currency_out: AssetId,
    buy_amount: u128,
    price: u128,
    min_fullfillment_amount: u128,
    checks: PlaceChecks,
    id: H256,
)
    requires
        agree(p),
        !p.orders.contains_key(id),
    ensures
        agree(spec_place_order(p, account, currency_in, currency_out, buy_amount, price, min_fullfillment_amount, checks, id).2),
{
    let post = spec_place_order(p, account, currency_in, currency_out, buy_amount, price, min_fullfillment_amount, checks, id).2;
    if spec_place_order(p, account, currency_in, currency_out, buy_amount, price, min_fullfillment_amount, checks, id).1 is Ok {
        assert forall|i: H256| #[trigger] post.orders.contains_key(i) implies {
            let o = post.orders[i];
            &&& o.order_id == i
            &&& post.user_orders.contains_key((o.placing_account, i))
            &&& post.user_orders[(o.placing_account, i)] == o
            &&& post.pair_orders(o.asset_in_id, o.asset_out_id).contains(i)
        } by {
            if i == id {
                assert(post.pair_orders(currency_in, currency_out).last() == id);
                assert(post.pair_orders(currency_in, currency_out)[post.pair_orders(currency_in, currency_out).len() - 1] == id);
            } else {
                let o = p.orders[i];
                assert(p.pair_orders(o.asset_in_id, o.asset_out_id).contains(i));
                if (o.asset_in_id, o.asset_out_id) == (currency_in, currency_out) {
                    let k = choose|k: int| 0 <= k < p.pair_orders(currency_in, currency_out).len()
                        && p.pair_orders(currency_in, currency_out)[k] == i;
                    assert(post.pair_orders(currency_in, currency_out)[k] == i);
                }
            }
        }
        assert forall|a: AssetId, b: AssetId, i: int| 0 <= i < post.pair_orders(a, b).len() implies {
            &&& post.orders.contains_key(#[trigger] post.pair_orders(a, b)[i])
            &&& post.orders[post.pair_orders(a, b)[i]].asset_in_id == a
            &&& post.orders[post.pair_orders(a, b)[i]].asset_out_id == b
        } by {
            if (a, b) == (currency_in, currency_out) && i == p.pair_orders(a, b).len() {
                assert(post.pair_orders(a, b)[i] == id);
            } else {
                assert(post.pair_orders(a, b)[i] == p.pair_orders(a, b)[i]);
                assert(p.orders.contains_key(p.pair_orders(a, b)[i]));
            }
        }
    }
}

/// Removing a stored order keeps the storages in agreement.
proof fn lemma_remove_keeps_agreement(p: PalletModel, order: Order, fee: u128)
    requires
        agree(p),
        p.orders.contains_key(order.order_id),
        p.orders[order.order_id] == order,
    ensures
        agree(spec_remove_order(p, order, fee).2),
{
    let post = spec_remove_order(p, order, fee).2;
    let id = order.order_id;
    let list = p.pair_orders(order.asset_in_id, order.asset_out_id);
    lemma_filter_drops(list, id);
    assert forall|i: H256| #[trigger] post.orders.contains_key(i) implies {
        let o = post.orders[i];
        &&& o.order_id == i
        &&& post.user_orders.contains_key((o.placing_account, i))
        &&& post.user_orders[(o.placing_account, i)] == o
        &&& post.pair_orders(o.asset_in_id, o.asset_out_id).contains(i)
    } by {
        let o = p.orders[i];
        assert(p.orders.contains_key(i));
        assert(p.pair_orders(o.asset_in_id, o.asset_out_id).contains(i));
    }
    assert forall|a: AccountId, i: H256| #[trigger] post.user_orders.contains_key((a, i)) implies {
        &&& post.orders.contains_key(i)
        &&& post.orders[i] == post.user_orders[(a, i)]
        &&& post.user_orders[(a, i)].placing_account == a
    } by {
        assert(p.user_orders.contains_key((a, i)));
        if i == id {
            assert(p.orders[i].placing_account == a);
        }
    }
    assert forall|a: AssetId, b: AssetId, i: int| 0 <= i < post.pair_orders(a, b).len() implies {
        &&& post.orders.contains_key(#[trigger] post.pair_orders(a, b)[i])
        &&& post.orders[post.pair_orders(a, b)[i]].asset_in_id == a
        &&& post.orders[post.pair_orders(a, b)[i]].asset_out_id == b
    } by {
        let x = post.pair_orders(a, b)[i];
        if (a, b) == (order.asset_in_id, order.asset_out_id) {
            let pred = |h: H256| h != id;
            assert(list.filter(pred).contains(x));
            list.lemma_filter_pred(pred, i);
            list.lemma_filter_contains_rev(pred, x);
            let k = choose|k: int| 0 <= k < list.len() && list[k] == x;
            assert(p.orders.contains_key(list[k]));
        } else {
            assert(x == p.pair_orders(a, b)[i]);
            assert(p.orders.contains_key(p.pair_orders(a, b)[i]));
        }
    }
}

/// Cancelling an order, by id or by its owner, keeps the storages in
/// agreement.
pub proof fn law_cancel_keeps_agreement(p: PalletModel, account: AccountId, order_id: H256, fee: u128)
    requires
        agree(p),
    ensures
        agree(spec_cancel_order(p, order_id, fee).2),
        agree(spec_user_cancel_order(p, account, order_id, fee).2),
{
    if p.orders.contains_key(order_id) {
        lemma_remove_keeps_agreement(p, p.orders[order_id], fee);
    }
    if p.user_orders.contains_key((account, order_id)) {
        lemma_remove_keeps_agreement(p, p.user_orders[(account, order_id)], fee);
    }
}

/// A fill settles the order: the placer receives `buy_amount` of the asset
/// it buys from the filler and pays `buy_amount * price` of the asset it
/// pays with, after what the order reserved is released; the order is then
/// gone from every storage, so it is no longer active and a second fill
/// finds nothing.
pub proof fn law_fill_settles_the_order(p: PalletModel, account: AccountId, order_id: H256, checks: FillChecks)
    requires
        stored_under_own_keys(p),
        spec_fill_order_full(p, account, order_id, checks).1 is Ok,
    ensures
        ({
            let o = p.orders[order_id];
            let (effects, _, post) = spec_fill_order_full(p, account, order_id, checks);
            &&& effects[0] == Effect::UnreserveAsset {
                currency: o.asset_out_id,
                who: o.placing_account,
                amount: o.max_sell_amount,
            }
            &&& effects[2] == Effect::TransferAsset {
                currency: o.asset_in_id,
                source: account,
                dest: o.placing_account,
                amount: o.buy_amount,
            }
            &&& effects[3] == Effect::TransferAsset {
                currency: o.asset_out_id,
                source: o.placing_account,
                dest: account,
                amount: (o.buy_amount * o.price) as u128,
            }
            &&& !post.orders.contains_key(order_id)
            &&& !post.user_orders.contains_key((o.placing_account, order_id))
            &&& !post.pair_orders(o.asset_in_id, o.asset_out_id).contains(order_id)
            &&& spec_fill_order_full(post, account, order_id, checks).1
                == Err::<(), DispatchError>(DispatchError::OrderBook(Error::OrderNotFound))
            &&& stored_under_own_keys(post)
            &&& agree(p) ==> agree(post)
        }),
{
    let o = p.orders[order_id];
    lemma_filter_drops(p.pair_orders(o.asset_in_id, o.asset_out_id), order_id);
    if agree(p) {
        lemma_remove_keeps_agreement(p, o, checks.fee);
    }
}

/// Storages that agree hold each order under its own id and its own
/// placing account.
pub proof fn lemma_agreement_keeps_orders_under_own_keys(p: PalletModel)
    requires
        agree(p),
    ensures
        stored_under_own_keys(p),
{
    assert forall|a: AccountId, id: H256| #[trigger] p.user_orders.contains_key((a, id)) implies {
        &&& p.user_orders[(a, id)].placing_account == a
        &&& p.user_orders[(a, id)].order_id == id
    } by {
        assert(p.orders.contains_key(id));
    }
}

} // verus!
