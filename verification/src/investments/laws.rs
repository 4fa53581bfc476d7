//! What holds of the investments pallet across its calls.

use vstd::prelude::*;

use crate::arith::{spec_mul_floor, spec_mul_int, spec_reciprocal, PERQUINTILL_ACCURACY};
use crate::dispatch::{AccountId, DispatchError};
use crate::investments::collect::{
    collect_end, order_range, spec_collect, spec_collect_both, spec_collect_fold,
    spec_collect_plan,
};
use crate::investments::pallet::{
    PalletModel, pallet_error, spec_do_update, spec_invest_fulfillment,
    spec_redeem_fulfillment, spec_take_orders,
};
use crate::investments::storage::{BookModel, Direction, lemma_pair_key_injective, pair_key};
use crate::investments::types::{
    CollectType, EffectModel, Error, FulfillmentWithPrice, InvestmentId, InvestmentInfo, Order,
    Party, TotalOrder,
};

verus! {

/// The amount of the order of `who` on `inv` in one direction, zero where
/// there is none.
pub open spec fn order_amount(p: PalletModel, dir: Direction, who: AccountId, inv: InvestmentId) -> u128 {
    match p.book(dir).order_of(who, inv) {
        Some(o) => o.amount,
        None => 0,
    }
}

/// An update that goes through changes the order and moves exactly the
/// difference between the old and the new order, in the order's own asset:
/// payment currency for an invest order and investment units (the
/// accountant's `info.id`) for a redeem order; from the account to the
/// investment's account when the order grows, back when it shrinks.
pub proof fn law_update_moves_the_difference(
    p: PalletModel,
    dir: Direction,
    who: AccountId,
    inv: InvestmentId,
    amount: u128,
    preconditions_hold: bool,
    info: InvestmentInfo,
)
    requires
        spec_do_update(p, dir, who, inv, amount, preconditions_hold, Ok(info)).1 is Ok,
    ensures
        ({
            let old_amount = order_amount(p, dir, who, inv);
            let moved = spec_do_update(p, dir, who, inv, amount, preconditions_hold, Ok(info)).0[0];
            &&& amount != old_amount
            &&& dir == Direction::Invest && amount > old_amount ==> moved == EffectModel::TokensTransfer {
                currency: info.payment_currency,
                source: Party::Account(who),
                dest: Party::InvestmentAccount(inv),
                amount: (amount - old_amount) as u128,
            }
            &&& dir == Direction::Invest && amount < old_amount ==> moved == EffectModel::TokensTransfer {
                currency: info.payment_currency,
                source: Party::InvestmentAccount(inv),
                dest: Party::Account(who),
                amount: (old_amount - amount) as u128,
            }
            &&& dir == Direction::Redeem && amount > old_amount ==> moved == EffectModel::AccountantTransfer {
                investment: info.id,
                source: Party::Account(who),
                dest: Party::InvestmentAccount(inv),
                amount: (amount - old_amount) as u128,
            }
            &&& dir == Direction::Redeem && amount < old_amount ==> moved == EffectModel::AccountantTransfer {
                investment: info.id,
                source: Party::InvestmentAccount(inv),
                dest: Party::Account(who),
                amount: (old_amount - amount) as u128,
            }
        }),
{
}

/// After an update goes through, the order reads back as the amount asked
/// for, submitted at the current order id, and the active total moves by the
/// same difference as the order.
pub proof fn law_update_reads_back(
    p: PalletModel,
    dir: Direction,
    who: AccountId,
    inv: InvestmentId,
    amount: u128,
    preconditions_hold: bool,
    info: Result<InvestmentInfo, DispatchError>,
)
    requires
        spec_do_update(p, dir, who, inv, amount, preconditions_hold, info).1 is Ok,
    ensures
        ({
            let post = spec_do_update(p, dir, who, inv, amount, preconditions_hold, info).2;
            &&& post.book(dir).order_of(who, inv) == Some(Order {
                amount,
                submitted_at: p.book(dir).current_order_id(inv),
            })
            &&& order_amount(post, dir, who, inv) == amount
            &&& post.book(dir).active_amount(inv) - p.book(dir).active_amount(inv)
                == amount - order_amount(p, dir, who, inv)
        }),
{
}

/// An update touches no other account's order and no other investment's
/// total, and nothing of the other direction.
pub proof fn law_update_is_local(
    p: PalletModel,
    dir: Direction,
    who: AccountId,
    inv: InvestmentId,
    amount: u128,
    preconditions_hold: bool,
    info: Result<InvestmentInfo, DispatchError>,
    other: AccountId,
    other_inv: InvestmentId,
)
    requires
        other != who || other_inv != inv,
    ensures
        ({
            let post = spec_do_update(p, dir, who, inv, amount, preconditions_hold, info).2;
            &&& post.book(dir).order_of(other, other_inv) == p.book(dir).order_of(other, other_inv)
            &&& other_inv != inv ==> post.book(dir).active_amount(other_inv) == p.book(dir).active_amount(other_inv)
            &&& post.book(dir).order_id == p.book(dir).order_id
            &&& post.book(dir).in_processing == p.book(dir).in_processing
            &&& post.book(dir).cleared == p.book(dir).cleared
            &&& dir == Direction::Invest ==> post.redeem == p.redeem
            &&& dir == Direction::Redeem ==> post.invest == p.invest
        }),
{
    lemma_pair_key_injective(who, inv, other, other_inv);
}

/// An order that was taken into processing with an earlier order id cannot
/// be updated before it is collected.
pub proof fn law_collect_required(
    p: PalletModel,
    dir: Direction,
    who: AccountId,
    inv: InvestmentId,
    amount: u128,
    info: InvestmentInfo,
)
    requires
        p.book(dir).order_of(who, inv) is Some,
        p.book(dir).order_of(who, inv).unwrap().submitted_at != p.book(dir).current_order_id(inv),
    ensures
        spec_do_update(p, dir, who, inv, amount, true, Ok(info))
            == (Seq::<EffectModel>::empty(), Err::<(), DispatchError>(pallet_error(Error::CollectRequired)), p),
{
    assert(spec_do_update(p, dir, who, inv, amount, true, Ok(info)).0 =~= Seq::<EffectModel>::empty());
}

/// Every refused call leaves the storage as it was.
pub proof fn law_refused_calls_change_nothing(
    p: PalletModel,
    dir: Direction,
    who: AccountId,
    inv: InvestmentId,
    amount: u128,
    preconditions_hold: bool,
    info: Result<InvestmentInfo, DispatchError>,
    f: FulfillmentWithPrice,
    ct: CollectType,
)
    ensures
        spec_do_update(p, dir, who, inv, amount, preconditions_hold, info).1 is Err
            ==> spec_do_update(p, dir, who, inv, amount, preconditions_hold, info).2 == p,
        spec_take_orders(p, dir, inv).1 is Err ==> spec_take_orders(p, dir, inv).2 == p,
        spec_invest_fulfillment(p, inv, f, info).1 is Err ==> spec_invest_fulfillment(p, inv, f, info).2 == p,
        spec_redeem_fulfillment(p, inv, f, info).1 is Err ==> spec_redeem_fulfillment(p, inv, f, info).2 == p,
        spec_collect(p, dir, who, inv, info, ct).1 is Err ==> spec_collect(p, dir, who, inv, info, ct).2 == p,
        spec_collect_both(p, who, inv, info, ct).1 is Err ==> spec_collect_both(p, who, inv, info, ct).2 == p,
{
}

/// Taking orders into processing moves the active total there, leaves the
/// active total at zero and advances the order id by one; a second take
/// before the fulfillment is refused.
pub proof fn law_take_orders_once(p: PalletModel, dir: Direction, inv: InvestmentId)
    requires
        spec_take_orders(p, dir, inv).1 is Ok,
    ensures
        ({
            let (_, taken, post) = spec_take_orders(p, dir, inv);
            &&& taken == Ok::<TotalOrder, DispatchError>(TotalOrder { amount: p.book(dir).active_amount(inv) })
            &&& post.book(dir).in_processing[inv] == TotalOrder { amount: p.book(dir).active_amount(inv) }
            &&& post.book(dir).active_amount(inv) == 0
            &&& post.book(dir).current_order_id(inv) == p.book(dir).current_order_id(inv) + 1
            &&& spec_take_orders(post, dir, inv).1 == Err::<TotalOrder, DispatchError>(pallet_error(Error::OrderInProcessing))
        }),
{
}


/// Fulfilling the orders just taken into processing clears them under the
/// order id they were taken at (the current id minus one), takes them out of
/// processing, and returns their unfulfilled part to the active total.
pub proof fn law_take_then_fulfill_invest(
    p: PalletModel,
    inv: InvestmentId,
    f: FulfillmentWithPrice,
    info: InvestmentInfo,
)
    requires
        f.of_amount.spec_parts() <= PERQUINTILL_ACCURACY,
        f.price.inner != 0,
        spec_take_orders(p, Direction::Invest, inv).1 is Ok,
        spec_mul_int(
            spec_reciprocal(f.price.inner) as u128,
            spec_mul_floor(f.of_amount.spec_parts(), p.invest.active_amount(inv)) as u128,
        ) <= u128::MAX,
    ensures
        ({
            let taken_at = p.invest.current_order_id(inv);
            let total = p.invest.active_amount(inv);
            let p1 = spec_take_orders(p, Direction::Invest, inv).2;
            let (_, result, p2) = spec_invest_fulfillment(p1, inv, f, Ok(info));
            &&& result is Ok
            &&& p2.invest.cleared_of(inv, taken_at) == Some(f)
            &&& !p2.invest.in_processing.contains_key(inv)
            &&& p2.invest.active_amount(inv) == total - spec_mul_floor(f.of_amount.spec_parts(), total)
        }),
{
    let total = p.invest.active_amount(inv);
    lemma_mul_floor_at_most(f.of_amount.spec_parts(), total);
}

/// The same for redeem orders: the fulfilled part is valued at the price,
/// and the unfulfilled investment units return to the active total.
pub proof fn law_take_then_fulfill_redeem(
    p: PalletModel,
    inv: InvestmentId,
    f: FulfillmentWithPrice,
    info: InvestmentInfo,
)
    requires
        f.of_amount.spec_parts() <= PERQUINTILL_ACCURACY,
        f.price.inner != 0,
        spec_take_orders(p, Direction::Redeem, inv).1 is Ok,
        ({
            let total = p.redeem.active_amount(inv);
            let priced = spec_mul_int(f.price.inner, total);
            let redeemed = spec_mul_floor(f.of_amount.spec_parts(), priced as u128);
            &&& priced <= u128::MAX
            &&& spec_mul_int(spec_reciprocal(f.price.inner) as u128, redeemed as u128) <= u128::MAX
        }),
    ensures
        ({
            let taken_at = p.redeem.current_order_id(inv);
            let total = p.redeem.active_amount(inv);
            let redeemed = spec_mul_floor(f.of_amount.spec_parts(), spec_mul_int(f.price.inner, total) as u128);
            let p1 = spec_take_orders(p, Direction::Redeem, inv).2;
            let (effects, result, p2) = spec_redeem_fulfillment(p1, inv, f, Ok(info));
            &&& result is Ok
            &&& effects[0] == EffectModel::TokensTransfer {
                currency: info.payment_currency,
                source: Party::Account(info.payment_account),
                dest: Party::InvestmentAccount(inv),
                amount: redeemed as u128,
            }
            &&& p2.redeem.cleared_of(inv, taken_at) == Some(f)
            &&& !p2.redeem.in_processing.contains_key(inv)
            &&& p2.redeem.active_amount(inv) == total - spec_mul_floor(f.of_amount.spec_parts(), total)
        }),
{
    let total = p.redeem.active_amount(inv);
    lemma_mul_floor_at_most(f.of_amount.spec_parts(), total);
}

/// A fulfillment at a price of zero is refused as a zero-priced investment,
/// with nothing moved and the storage as it was.
pub proof fn law_zero_price_is_refused(
    p: PalletModel,
    inv: InvestmentId,
    f: FulfillmentWithPrice,
    info: InvestmentInfo,
)
    requires
        f.of_amount.spec_parts() <= PERQUINTILL_ACCURACY,
        f.price.inner == 0,
        p.invest.in_processing.contains_key(inv),
        p.redeem.in_processing.contains_key(inv),
        spec_mul_int(f.price.inner, p.redeem.in_processing[inv].amount) <= u128::MAX,
    ensures
        spec_invest_fulfillment(p, inv, f, Ok(info))
            == (Seq::<EffectModel>::empty(), Err::<(), DispatchError>(pallet_error(Error::ZeroPricedInvestment)), p),
        spec_redeem_fulfillment(p, inv, f, Ok(info))
            == (Seq::<EffectModel>::empty(), Err::<(), DispatchError>(pallet_error(Error::ZeroPricedInvestment)), p),
{
    lemma_mul_floor_at_most(f.of_amount.spec_parts(), p.invest.in_processing[inv].amount);
    lemma_mul_floor_at_most(f.of_amount.spec_parts(), p.redeem.in_processing[inv].amount);
    assert(spec_invest_fulfillment(p, inv, f, Ok(info)).0 =~= Seq::<EffectModel>::empty());
    assert(spec_redeem_fulfillment(p, inv, f, Ok(info)).0 =~= Seq::<EffectModel>::empty());
}

/// An invest fulfillment that goes through appends the unfulfilled part of
/// the total in processing to whatever is active for the investment by
/// then: the active total grows by exactly that part. It pays the fulfilled
/// part to the payment account and credits the investment account with it
/// divided by the price, records the fulfillment under the order id before
/// the current one, and touches no order and no other investment's total.
pub proof fn law_invest_fulfillment_appends_the_rest(
    p: PalletModel,
    inv: InvestmentId,
    f: FulfillmentWithPrice,
    info: Result<InvestmentInfo, DispatchError>,
)
    requires
        spec_invest_fulfillment(p, inv, f, info).1 is Ok,
    ensures
        p.invest.in_processing.contains_key(inv),
        info is Ok,
        ({
            let total = p.invest.in_processing[inv].amount;
            let fulfilled = spec_mul_floor(f.of_amount.spec_parts(), total);
            let i = info.unwrap();
            let (effects, _, post) = spec_invest_fulfillment(p, inv, f, info);
            &&& post.invest.active_amount(inv) == p.invest.active_amount(inv) + (total - fulfilled)
            &&& !post.invest.in_processing.contains_key(inv)
            &&& p.invest.current_order_id(inv) > 0
            &&& post.invest.cleared_of(inv, (p.invest.current_order_id(inv) - 1) as u64) == Some(f)
            &&& post.invest.orders == p.invest.orders
            &&& post.invest.order_id == p.invest.order_id
            &&& post.redeem == p.redeem
            &&& forall|other: InvestmentId| other != inv
                ==> #[trigger] post.invest.active_amount(other) == p.invest.active_amount(other)
            &&& effects[0] == EffectModel::TokensTransfer {
                currency: i.payment_currency,
                source: Party::InvestmentAccount(inv),
                dest: Party::Account(i.payment_account),
                amount: fulfilled as u128,
            }
            &&& effects[1] == EffectModel::AccountantDeposit {
                account: Party::InvestmentAccount(inv),
                investment: i.id,
                amount: spec_mul_int(spec_reciprocal(f.price.inner) as u128, fulfilled as u128) as u128,
            }
        }),
{
}

/// A redeem fulfillment that goes through appends the unfulfilled
/// investment units of the total in processing to whatever is active for
/// the investment by then: the active total grows by exactly those units.
/// The fulfilled part, valued at the price, comes from the payment account,
/// and the investment account is debited the units that value buys back;
/// no order and no other investment's total is touched.
pub proof fn law_redeem_fulfillment_appends_the_rest(
    p: PalletModel,
    inv: InvestmentId,
    f: FulfillmentWithPrice,
    info: Result<InvestmentInfo, DispatchError>,
)
    requires
        spec_redeem_fulfillment(p, inv, f, info).1 is Ok,
    ensures
        p.redeem.in_processing.contains_key(inv),
        info is Ok,
        ({
            let total = p.redeem.in_processing[inv].amount;
            let fulfilled_units = spec_mul_floor(f.of_amount.spec_parts(), total);
            let paid = spec_mul_floor(f.of_amount.spec_parts(), spec_mul_int(f.price.inner, total) as u128);
            let i = info.unwrap();
            let (effects, _, post) = spec_redeem_fulfillment(p, inv, f, info);
            &&& post.redeem.active_amount(inv) == p.redeem.active_amount(inv) + (total - fulfilled_units)
            &&& !post.redeem.in_processing.contains_key(inv)
            &&& p.redeem.current_order_id(inv) > 0
            &&& post.redeem.cleared_of(inv, (p.redeem.current_order_id(inv) - 1) as u64) == Some(f)
            &&& post.redeem.orders == p.redeem.orders
            &&& post.redeem.order_id == p.redeem.order_id
            &&& post.invest == p.invest
            &&& forall|other: InvestmentId| other != inv
                ==> #[trigger] post.redeem.active_amount(other) == p.redeem.active_amount(other)
            &&& effects[0] == EffectModel::TokensTransfer {
                currency: i.payment_currency,
                source: Party::Account(i.payment_account),
                dest: Party::InvestmentAccount(inv),
                amount: paid as u128,
            }
            &&& effects[1] == EffectModel::AccountantWithdraw {
                account: Party::InvestmentAccount(inv),
                investment: i.id,
                amount: spec_mul_int(spec_reciprocal(f.price.inner) as u128, paid as u128) as u128,
            }
        }),
{
}

/// A fraction of an amount is at most the amount.
pub proof fn lemma_mul_floor_at_most(parts: u64, x: u128)
    requires
        parts <= PERQUINTILL_ACCURACY,
    ensures
        0 <= spec_mul_floor(parts, x) <= x,
{
    let a = PERQUINTILL_ACCURACY as int;
    assert(0 <= x as int * parts as int <= x as int * a) by (nonlinear_arith)
        requires
            0 <= parts <= a,
            0 <= x,
    ;
    assert(0 <= (x as int * parts as int) / a <= (x as int * a) / a) by (nonlinear_arith)
        requires
            0 <= x as int * parts as int <= x as int * a,
            a > 0,
    ;
    assert((x as int * a) / a == x) by (nonlinear_arith)
        requires
            a > 0,
    ;
}

/// The storage of one direction is consistent: no order is ahead of the
/// current order id of its investment, and only orders before the current
/// order id have been cleared.
pub open spec fn book_consistent(b: BookModel) -> bool {
    &&& forall|who: AccountId, inv: InvestmentId| #[trigger] b.order_of(who, inv) is Some
        ==> b.order_of(who, inv).unwrap().submitted_at <= b.current_order_id(inv)
    &&& forall|inv: InvestmentId, id: u64| #[trigger] b.cleared_of(inv, id) is Some
        ==> id < b.current_order_id(inv)
}

/// Both directions are consistent.
pub open spec fn consistent(p: PalletModel) -> bool {
    book_consistent(p.invest) && book_consistent(p.redeem)
}

/// A pallet with empty storage is consistent.
pub proof fn law_empty_storage_is_consistent(p: PalletModel)
    requires
        p.invest.orders.is_empty(),
        p.invest.cleared.is_empty(),
        p.redeem.orders.is_empty(),
        p.redeem.cleared.is_empty(),
    ensures
        consistent(p),
{
}

/// Storing an order submitted no later than the current order id keeps a
/// direction consistent.
proof fn lemma_store_order_keeps_consistency(b: BookModel, who: AccountId, inv: InvestmentId, order: Order, total: u128)
    requires
        book_consistent(b),
        order.submitted_at <= b.current_order_id(inv),
    ensures
        book_consistent(BookModel {
            orders: b.orders.insert(pair_key(who, inv), order),
            active: b.active.insert(inv, TotalOrder { amount: total }),
            ..b
        }),
{
    let b2 = BookModel {
        orders: b.orders.insert(pair_key(who, inv), order),
        active: b.active.insert(inv, TotalOrder { amount: total }),
        ..b
    };
    assert forall|w: AccountId, i: InvestmentId| #[trigger] b2.order_of(w, i) is Some
        implies b2.order_of(w, i).unwrap().submitted_at <= b2.current_order_id(i) by {
        lemma_pair_key_injective(who, inv, w, i);
        if !(w == who && i == inv) {
            assert(b.order_of(w, i) is Some);
        }
    }
    assert forall|i: InvestmentId, id: u64| #[trigger] b2.cleared_of(i, id) is Some
        implies id < b2.current_order_id(i) by {
        assert(b.cleared_of(i, id) is Some);
    }
}

/// Updates keep the storage consistent.
pub proof fn law_update_keeps_consistency(
    p: PalletModel,
    dir: Direction,
    who: AccountId,
    inv: InvestmentId,
    amount: u128,
    preconditions_hold: bool,
    info: Result<InvestmentInfo, DispatchError>,
)
    requires
        consistent(p),
    ensures
        consistent(spec_do_update(p, dir, who, inv, amount, preconditions_hold, info).2),
{
    if spec_do_update(p, dir, who, inv, amount, preconditions_hold, info).1 is Ok {
        let b = p.book(dir);
        let total = spec_do_update(p, dir, who, inv, amount, preconditions_hold, info).2.book(dir).active[inv].amount;
        lemma_store_order_keeps_consistency(
            b, who, inv, Order { amount, submitted_at: b.current_order_id(inv) }, total);
        let post = spec_do_update(p, dir, who, inv, amount, preconditions_hold, info).2;
        assert(post.book(dir) == BookModel {
            orders: b.orders.insert(pair_key(who, inv), Order { amount, submitted_at: b.current_order_id(inv) }),
            active: b.active.insert(inv, TotalOrder { amount: total }),
            ..b
        });
    }
}

/// Taking orders into processing keeps the storage consistent.
pub proof fn law_take_orders_keeps_consistency(p: PalletModel, dir: Direction, inv: InvestmentId)
    requires
        consistent(p),
    ensures
        consistent(spec_take_orders(p, dir, inv).2),
{
    if spec_take_orders(p, dir, inv).1 is Ok {
        let b = p.book(dir);
        let b2 = spec_take_orders(p, dir, inv).2.book(dir);
        assert forall|w: AccountId, i: InvestmentId| #[trigger] b2.order_of(w, i) is Some
            implies b2.order_of(w, i).unwrap().submitted_at <= b2.current_order_id(i) by {
            assert(b.order_of(w, i) is Some);
        }
        assert forall|i: InvestmentId, id: u64| #[trigger] b2.cleared_of(i, id) is Some
            implies id < b2.current_order_id(i) by {
            assert(b.cleared_of(i, id) is Some);
        }
    }
}

/// Recording a fulfillment under the order id before the current one keeps
/// a direction consistent.
proof fn lemma_fulfillment_keeps_consistency(b: BookModel, b2: BookModel, inv: InvestmentId, f: FulfillmentWithPrice)
    requires
        book_consistent(b),
        b.current_order_id(inv) > 0,
        b2.orders == b.orders,
        b2.order_id == b.order_id,
        b2.cleared == b.cleared.insert(pair_key(inv, (b.current_order_id(inv) - 1) as u64), f),
    ensures
        book_consistent(b2),
{
    let id0 = (b.current_order_id(inv) - 1) as u64;
    assert forall|w: AccountId, i: InvestmentId| #[trigger] b2.order_of(w, i) is Some
        implies b2.order_of(w, i).unwrap().submitted_at <= b2.current_order_id(i) by {
        assert(b.order_of(w, i) is Some);
    }
    assert forall|i: InvestmentId, id: u64| #[trigger] b2.cleared_of(i, id) is Some
        implies id < b2.current_order_id(i) by {
        lemma_pair_key_injective(inv, id0, i, id);
        if !(i == inv && id == id0) {
            assert(b.cleared_of(i, id) is Some);
        }
    }
}

/// Fulfillments keep the storage consistent.
pub proof fn law_fulfillment_keeps_consistency(
    p: PalletModel,
    inv: InvestmentId,
    f: FulfillmentWithPrice,
    info: Result<InvestmentInfo, DispatchError>,
)
    requires
        consistent(p),
    ensures
        consistent(spec_invest_fulfillment(p, inv, f, info).2),
        consistent(spec_redeem_fulfillment(p, inv, f, info).2),
{
    if spec_invest_fulfillment(p, inv, f, info).1 is Ok {
        lemma_fulfillment_keeps_consistency(p.invest, spec_invest_fulfillment(p, inv, f, info).2.invest, inv, f);
    }
    if spec_redeem_fulfillment(p, inv, f, info).1 is Ok {
        lemma_fulfillment_keeps_consistency(p.redeem, spec_redeem_fulfillment(p, inv, f, info).2.redeem, inv, f);
    }
}

/// Collects keep the storage consistent.
pub proof fn law_collect_keeps_consistency(
    p: PalletModel,
    dir: Direction,
    who: AccountId,
    inv: InvestmentId,
    info: Result<InvestmentInfo, DispatchError>,
    ct: CollectType,
)
    requires
        consistent(p),
    ensures
        consistent(spec_collect(p, dir, who, inv, info, ct).2),
        consistent(spec_collect_both(p, who, inv, info, ct).2),
{
    if spec_collect_plan(p, dir, who, inv, info, ct).1 is Ok {
        let (order, total) = spec_collect_plan(p, dir, who, inv, info, ct).1.unwrap();
        lemma_store_order_keeps_consistency(p.book(dir), who, inv, order, total);
    }
    let p1 = spec_collect(p, Direction::Invest, who, inv, info, ct).2;
    if spec_collect_plan(p, Direction::Invest, who, inv, info, ct).1 is Ok {
        let (order, total) = spec_collect_plan(p, Direction::Invest, who, inv, info, ct).1.unwrap();
        lemma_store_order_keeps_consistency(p.invest, who, inv, order, total);
        if spec_collect_plan(p1, Direction::Redeem, who, inv, info, ct).1 is Ok {
            let (order2, total2) = spec_collect_plan(p1, Direction::Redeem, who, inv, info, ct).1.unwrap();
            lemma_store_order_keeps_consistency(p1.redeem, who, inv, order2, total2);
        }
    }
}

/// A collect that goes through processes the orders from where the account's
/// order was submitted up to at most `max_collects` of them and never past
/// the current order id of its own direction, and leaves the order
/// submitted where it stopped; it is fully collected exactly when it
/// reached the current order id.
pub proof fn law_collect_is_bounded(
    p: PalletModel,
    dir: Direction,
    who: AccountId,
    inv: InvestmentId,
    info: Result<InvestmentInfo, DispatchError>,
    ct: CollectType,
)
    requires
        spec_collect(p, dir, who, inv, info, ct).1 is Ok,
    ensures
        ({
            let before = p.book(dir).order_of(who, inv).unwrap();
            let after = spec_collect(p, dir, who, inv, info, ct).2.book(dir).order_of(who, inv).unwrap();
            let processed = order_range(before.submitted_at, after.submitted_at);
            &&& p.book(dir).order_of(who, inv) is Some
            &&& after.submitted_at == collect_end(p, dir, before, inv)
            &&& after.submitted_at == (if before.submitted_at + p.max_collects < p.book(dir).current_order_id(inv) {
                before.submitted_at + p.max_collects
            } else {
                p.book(dir).current_order_id(inv) as int
            })
            &&& after.submitted_at <= p.book(dir).current_order_id(inv)
            &&& after.submitted_at <= before.submitted_at + p.max_collects
            &&& processed.len() <= p.max_collects
        }),
{
}

/// The fold over a range fails where an order in the range was never
/// cleared, with `OrderNotCleared` where the orders before it went through.
proof fn lemma_fold_needs_cleared(
    b: BookModel,
    dir: Direction,
    inv: InvestmentId,
    amount: u128,
    from: u64,
    k: u64,
    to: int,
)
    requires
        from <= k < to,
        b.cleared_of(inv, k) is None,
        spec_collect_fold(b, dir, inv, amount, from, k as int) is Ok,
    ensures
        spec_collect_fold(b, dir, inv, amount, from, to) == Err::<(u128, u128), DispatchError>(
            pallet_error(Error::OrderNotCleared)),
    decreases to - from,
{
    if to - 1 > k {
        lemma_fold_needs_cleared(b, dir, inv, amount, from, k, to - 1);
    }
}

/// A collect that meets a processed order that was never cleared, once the
/// orders before it went through, is refused with `OrderNotCleared`, with
/// nothing moved and the storage as it was.
pub proof fn law_collect_needs_cleared_orders(
    p: PalletModel,
    dir: Direction,
    who: AccountId,
    inv: InvestmentId,
    info: InvestmentInfo,
    ct: CollectType,
    k: u64,
)
    requires
        p.book(dir).order_of(who, inv) is Some,
        ({
            let order = p.book(dir).order_of(who, inv).unwrap();
            &&& order.submitted_at <= k < collect_end(p, dir, order, inv)
            &&& p.book(dir).cleared_of(inv, k) is None
            &&& spec_collect_fold(p.book(dir), dir, inv, order.amount, order.submitted_at, k as int) is Ok
        }),
    ensures
        spec_collect(p, dir, who, inv, Ok(info), ct) == (
            Seq::<EffectModel>::empty(),
            Err::<(), DispatchError>(pallet_error(Error::OrderNotCleared)),
            p,
        ),
{
    let order = p.book(dir).order_of(who, inv).unwrap();
    lemma_fold_needs_cleared(
        p.book(dir), dir, inv, order.amount, order.submitted_at, k, collect_end(p, dir, order, inv) as int);
}

/// An overflowing collect that goes through pays out what the processed
/// orders fulfilled and leaves their unfulfilled rest in the order, which
/// now counts from where the collect stopped; the active total, which holds
/// that rest already, is unchanged.
pub proof fn law_overflowing_collect_keeps_the_rest(
    p: PalletModel,
    dir: Direction,
    who: AccountId,
    inv: InvestmentId,
    info: InvestmentInfo,
)
    requires
        spec_collect(p, dir, who, inv, Ok(info), CollectType::Overflowing).1 is Ok,
    ensures
        ({
            let order = p.book(dir).order_of(who, inv).unwrap();
            let last = collect_end(p, dir, order, inv);
            let (payout, rest) = spec_collect_fold(
                p.book(dir), dir, inv, order.amount, order.submitted_at, last as int).unwrap();
            let (effects, _, post) = spec_collect(p, dir, who, inv, Ok(info), CollectType::Overflowing);
            &&& dir == Direction::Invest ==> effects[0] == EffectModel::AccountantTransfer {
                investment: info.id,
                source: Party::InvestmentAccount(inv),
                dest: Party::Account(who),
                amount: payout,
            }
            &&& dir == Direction::Redeem ==> effects[0] == EffectModel::TokensTransfer {
                currency: info.payment_currency,
                source: Party::InvestmentAccount(inv),
                dest: Party::Account(who),
                amount: payout,
            }
            &&& post.book(dir).order_of(who, inv) == Some(Order { amount: rest, submitted_at: last })
            &&& post.book(dir).active_amount(inv) == p.book(dir).active_amount(inv)
        }),
{
}

/// A closing collect that goes through up to the current order id pays out
/// what the processed orders fulfilled and pays their unfulfilled rest back
/// to the account, taking it off the active total; the order is left empty.
pub proof fn law_closing_collect_refunds_the_rest(
    p: PalletModel,
    dir: Direction,
    who: AccountId,
    inv: InvestmentId,
    info: InvestmentInfo,
)
    requires
        spec_collect(p, dir, who, inv, Ok(info), CollectType::Closing).1 is Ok,
        ({
            let order = p.book(dir).order_of(who, inv).unwrap();
            let last = collect_end(p, dir, order, inv);
            &&& last == p.book(dir).current_order_id(inv)
            &&& last != order.submitted_at
        }),
    ensures
        ({
            let order = p.book(dir).order_of(who, inv).unwrap();
            let last = collect_end(p, dir, order, inv);
            let (payout, rest) = spec_collect_fold(
                p.book(dir), dir, inv, order.amount, order.submitted_at, last as int).unwrap();
            let (effects, _, post) = spec_collect(p, dir, who, inv, Ok(info), CollectType::Closing);
            &&& dir == Direction::Invest ==> effects[0] == EffectModel::AccountantTransfer {
                investment: info.id,
                source: Party::InvestmentAccount(inv),
                dest: Party::Account(who),
                amount: payout,
            }
            &&& dir == Direction::Redeem ==> effects[0] == EffectModel::TokensTransfer {
                currency: info.payment_currency,
                source: Party::InvestmentAccount(inv),
                dest: Party::Account(who),
                amount: payout,
            }
            &&& rest > 0 && dir == Direction::Invest ==> effects[1] == EffectModel::TokensTransfer {
                currency: info.payment_currency,
                source: Party::InvestmentAccount(inv),
                dest: Party::Account(who),
                amount: rest,
            }
            &&& rest > 0 && dir == Direction::Redeem ==> effects[1] == EffectModel::AccountantTransfer {
                investment: info.id,
                source: Party::InvestmentAccount(inv),
                dest: Party::Account(who),
                amount: rest,
            }
            &&& post.book(dir).order_of(who, inv) == Some(Order { amount: 0, submitted_at: last })
            &&& post.book(dir).active_amount(inv) == p.book(dir).active_amount(inv) - rest
        }),
{
}

/// A collect of both orders is a collect of the invest order followed by
/// a collect of the redeem order on the storage it leaves: it goes through
/// exactly when both do, and then asks for the effects of the one and then
/// the other and leaves the storage the second leaves; otherwise it asks for
/// nothing and changes nothing.
pub proof fn law_collect_both_is_invest_then_redeem(
    p: PalletModel,
    who: AccountId,
    inv: InvestmentId,
    info: Result<InvestmentInfo, DispatchError>,
    ct: CollectType,
)
    ensures
        ({
            let (e1, r1, p1) = spec_collect(p, Direction::Invest, who, inv, info, ct);
            let (e2, r2, p2) = spec_collect(p1, Direction::Redeem, who, inv, info, ct);
            let (effects, result, post) = spec_collect_both(p, who, inv, info, ct);
            &&& result is Ok <==> (r1 is Ok && r2 is Ok)
            &&& result is Ok ==> effects == e1 + e2 && post == p2
            &&& result is Err ==> effects.len() == 0 && post == p
        }),
{
}

/// A collect of both orders that goes through moves each order on: each
/// reads back submitted where the collect of its own direction stopped, at
/// most `max_collects` orders on and never past that direction's current
/// order id, holding the unfulfilled rest of its processed orders.
pub proof fn law_collect_both_moves_both_orders(
    p: PalletModel,
    who: AccountId,
    inv: InvestmentId,
    info: Result<InvestmentInfo, DispatchError>,
    ct: CollectType,
    dir: Direction,
)
    requires
        spec_collect_both(p, who, inv, info, ct).1 is Ok,
    ensures
        p.book(dir).order_of(who, inv) is Some,
        ({
            let before = p.book(dir).order_of(who, inv).unwrap();
            let cur = p.book(dir).current_order_id(inv);
            let post = spec_collect_both(p, who, inv, info, ct).2;
            let after = post.book(dir).order_of(who, inv);
            let last = if before.submitted_at + p.max_collects < cur {
                before.submitted_at + p.max_collects
            } else {
                cur as int
            };
            let rest = spec_collect_fold(p.book(dir), dir, inv, before.amount, before.submitted_at, last).unwrap().1;
            let refunded = ct == CollectType::Closing && last == cur && last != before.submitted_at;
            &&& after is Some
            &&& after.unwrap().submitted_at == last
            &&& after.unwrap().amount == (if refunded { 0 } else { rest })
        }),
{
    let p1 = spec_collect(p, Direction::Invest, who, inv, info, ct).2;
    assert(p1.redeem == p.redeem);
    assert(p1.max_collects == p.max_collects);
}

/// A collect over one cleared order pays out the fulfilled part of the
/// order: divided by the price (in investment units) for an invest order,
/// times the price (in payment currency) for a redeem order; what is left
/// of the order is the order less its fulfilled part.
pub proof fn law_collect_of_one_cleared_order(
    p: PalletModel,
    dir: Direction,
    who: AccountId,
    inv: InvestmentId,
    info: InvestmentInfo,
    f: FulfillmentWithPrice,
)
    requires
        spec_collect(p, dir, who, inv, Ok(info), CollectType::Overflowing).1 is Ok,
        collect_end(p, dir, p.book(dir).order_of(who, inv).unwrap(), inv)
            == p.book(dir).order_of(who, inv).unwrap().submitted_at + 1,
        p.book(dir).cleared_of(inv, p.book(dir).order_of(who, inv).unwrap().submitted_at) == Some(f),
    ensures
        ({
            let order = p.book(dir).order_of(who, inv).unwrap();
            let fulfilled = spec_mul_floor(f.of_amount.spec_parts(), order.amount);
            let (effects, _, post) = spec_collect(p, dir, who, inv, Ok(info), CollectType::Overflowing);
            &&& post.book(dir).order_of(who, inv).unwrap().amount == order.amount - fulfilled
            &&& dir == Direction::Invest ==> effects[0] == EffectModel::AccountantTransfer {
                investment: info.id,
                source: Party::InvestmentAccount(inv),
                dest: Party::Account(who),
                amount: spec_mul_int(spec_reciprocal(f.price.inner) as u128, fulfilled as u128) as u128,
            }
            &&& dir == Direction::Redeem ==> effects[0] == EffectModel::TokensTransfer {
                currency: info.payment_currency,
                source: Party::InvestmentAccount(inv),
                dest: Party::Account(who),
                amount: spec_mul_int(f.price.inner, fulfilled as u128) as u128,
            }
        }),
{
    let order = p.book(dir).order_of(who, inv).unwrap();
    let b = p.book(dir);
    assert(spec_collect_fold(b, dir, inv, order.amount, order.submitted_at, order.submitted_at as int)
        == Ok::<(u128, u128), DispatchError>((0u128, order.amount)));
}

} // verus!
