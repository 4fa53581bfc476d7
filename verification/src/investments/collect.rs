//! Collecting the outcome of an account's processed orders.

use vstd::prelude::*;

use crate::arith::{spec_mul_floor, spec_mul_int, spec_reciprocal};
use crate::dispatch::{AccountId, ArithmeticError, DispatchError, Origin, spec_ensure_signed};
use crate::investments::pallet::{
    Pallet, PalletModel, arith, order_transfer, order_transfer_effect, pallet_error,
    spec_update_order_amount, update_order_amount, updated_event, updated_event_of,
};
use crate::investments::storage::{Book, BookModel, Direction, pair_key};
use crate::investments::types::{
    CollectOutcome, CollectType, Effect, EffectModel, Error, Event, EventModel, FulfillmentWithPrice,
    InvestCollection, InvestmentId, InvestmentInfo, Order, OrderId, Outcome, Party,
    RedeemCollection, TotalOrder, effects_model,
};

verus! {

/// Adding the payout of one fulfilled order of `amount` to `payout`: for
/// invest orders the fulfilled amount divided by the price, for redeem
/// orders the fulfilled amount times the price.
pub open spec fn spec_payout_step(dir: Direction, payout: u128, f: FulfillmentWithPrice, amount: u128)
    -> Result<u128, DispatchError>
{
    let fulfilled = spec_mul_floor(f.of_amount.spec_parts(), amount) as u128;
    let value = match dir {
        Direction::Invest => spec_mul_int(spec_reciprocal(f.price.inner) as u128, fulfilled),
        Direction::Redeem => spec_mul_int(f.price.inner, fulfilled),
    };
    if dir == Direction::Invest && f.price.inner == 0 {
        Err(pallet_error(Error::ZeroPricedInvestment))
    } else if value > u128::MAX {
        Err(arith(ArithmeticError::Overflow))
    } else if payout + value > u128::MAX {
        Err(arith(ArithmeticError::Overflow))
    } else {
        Ok((payout + value) as u128)
    }
}

/// What is left of an order of `amount` once `f` fulfilled its part.
pub open spec fn spec_remaining_step(f: FulfillmentWithPrice, amount: u128) -> Result<u128, DispatchError> {
    let fulfilled = spec_mul_floor(f.of_amount.spec_parts(), amount);
    if amount < fulfilled {
        Err(arith(ArithmeticError::Underflow))
    } else {
        Ok((amount - fulfilled) as u128)
    }
}

/// The payout and the unfulfilled rest of an order of `amount` over the
/// cleared orders `from .. to` of `inv`, taken in order: each fulfillment
/// fulfills its part of what the ones before it left.
pub open spec fn spec_collect_fold(
    b: BookModel,
    dir: Direction,
    inv: InvestmentId,
    amount: u128,
    from: u64,
    to: int,
) -> Result<(u128, u128), DispatchError>
    decreases to - from,
{
    if to <= from {
        Ok((0u128, amount))
    } else {
        match spec_collect_fold(b, dir, inv, amount, from, to - 1) {
            Err(e) => Err(e),
            Ok((payout, remaining)) => match b.cleared_of(inv, (to - 1) as u64) {
                None => Err(pallet_error(Error::OrderNotCleared)),
                Some(f) => match spec_payout_step(dir, payout, f, remaining) {
                    Err(e) => Err(e),
                    Ok(p) => match spec_remaining_step(f, remaining) {
                        Err(e) => Err(e),
                        Ok(r) => Ok((p, r)),
                    },
                },
            },
        }
    }
}

/// Once the fold fails, it fails with the same error on every longer range.
proof fn lemma_fold_err_persists(
    b: BookModel,
    dir: Direction,
    inv: InvestmentId,
    amount: u128,
    from: u64,
    k: int,
    j: int,
)
    requires
        from <= k <= j,
        spec_collect_fold(b, dir, inv, amount, from, k) is Err,
    ensures
        spec_collect_fold(b, dir, inv, amount, from, j) == spec_collect_fold(b, dir, inv, amount, from, k),
    decreases j - k,
{
    if j > k {
        lemma_fold_err_persists(b, dir, inv, amount, from, k, j - 1);
    }
}

/// The order ids `from .. to`.
pub open spec fn order_range(from: u64, to: u64) -> Seq<OrderId> {
    if from <= to {
        Seq::new((to - from) as nat, |i: int| (from + i) as u64)
    } else {
        Seq::empty()
    }
}

/// The order id up to which a collect of `order` on `inv` in one direction
/// goes: at most `max_collects` orders, and never past the current order id
/// of that direction.
pub open spec fn collect_end(p: PalletModel, dir: Direction, order: Order, inv: InvestmentId) -> u64 {
    let cur = p.book(dir).current_order_id(inv);
    let bound = if order.submitted_at + p.max_collects > u64::MAX {
        u64::MAX
    } else {
        (order.submitted_at + p.max_collects) as u64
    };
    if bound < cur { bound } else { cur }
}

/// The transfer of a payout from the investment to `who`: investment units
/// for invest orders, payment currency for redeem orders.
pub open spec fn payout_transfer(dir: Direction, info: InvestmentInfo, inv: InvestmentId, who: AccountId, amount: u128)
    -> EffectModel
{
    match dir {
        Direction::Invest => EffectModel::AccountantTransfer {
            investment: info.id,
            source: Party::InvestmentAccount(inv),
            dest: Party::Account(who),
            amount,
        },
        Direction::Redeem => EffectModel::TokensTransfer {
            currency: info.payment_currency,
            source: Party::InvestmentAccount(inv),
            dest: Party::Account(who),
            amount,
        },
    }
}

/// The event of a collect.
pub open spec fn collected_event(
    dir: Direction,
    inv: InvestmentId,
    who: AccountId,
    processed: Seq<OrderId>,
    payout: u128,
    remaining: u128,
    outcome: CollectOutcome,
) -> EventModel {
    match dir {
        Direction::Invest => EventModel::InvestOrdersCollected {
            investment_id: inv,
            who,
            processed_orders: processed,
            collection: InvestCollection { payout_investment_invest: payout, remaining_investment_invest: remaining },
            outcome,
        },
        Direction::Redeem => EventModel::RedeemOrdersCollected {
            investment_id: inv,
            who,
            processed_orders: processed,
            collection: RedeemCollection { payout_investment_redeem: payout, remaining_investment_redeem: remaining },
            outcome,
        },
    }
}

/// The error of an account without an order to collect.
pub open spec fn no_active_order(dir: Direction) -> DispatchError {
    match dir {
        Direction::Invest => pallet_error(Error::NoActiveInvestOrder),
        Direction::Redeem => pallet_error(Error::NoActiveRedeemOrder),
    }
}

/// A collect of the order of `who` on `inv` in one direction: the effects,
/// and the order and active total to store, or why it fails.
///
/// The payout of the processed orders goes to `who`. What they left
/// unfulfilled stays in the order, which now counts from where the collect
/// stopped and is already part of the active total. A closing collect that
/// processed orders up to the current one pays that rest back to `who`
/// instead, and takes it off the active total.
pub open spec fn spec_collect_plan(
    p: PalletModel,
    dir: Direction,
    who: AccountId,
    inv: InvestmentId,
    info: Result<InvestmentInfo, DispatchError>,
    ct: CollectType,
) -> (Seq<EffectModel>, Result<(Order, u128), DispatchError>) {
    let b = p.book(dir);
    match info {
        Err(_) => (seq![], Err(pallet_error(Error::UnknownInvestment))),
        Ok(info) => match b.order_of(who, inv) {
            None => (seq![], Err(no_active_order(dir))),
            Some(order) => {
                let cur = b.current_order_id(inv);
                let last = collect_end(p, dir, order, inv);
                let outcome = if last == cur {
                    CollectOutcome::FullyCollected
                } else {
                    CollectOutcome::PartiallyCollected
                };
                match spec_collect_fold(b, dir, inv, order.amount, order.submitted_at, last as int) {
                    Err(e) => (seq![], Err(e)),
                    Ok((payout, remaining)) => {
                        let pay = payout_transfer(dir, info, inv, who, payout);
                        let done = EffectModel::Deposit(collected_event(
                            dir, inv, who, order_range(order.submitted_at, last), payout, remaining, outcome));
                        let processed = last != order.submitted_at;
                        let total = b.active_amount(inv);
                        if ct == CollectType::Closing && processed && last == cur && remaining > 0 {
                            if total < remaining {
                                (seq![], Err(arith(ArithmeticError::Underflow)))
                            } else {
                                (
                                    seq![
                                        pay,
                                        order_transfer(dir, info, Party::InvestmentAccount(inv), Party::Account(who), remaining),
                                        done,
                                    ],
                                    Ok((Order { amount: 0, submitted_at: last }, (total - remaining) as u128)),
                                )
                            }
                        } else if processed && remaining > 0 {
                            (
                                seq![pay, EffectModel::Deposit(updated_event(dir, inv, last, who, remaining)), done],
                                Ok((Order { amount: remaining, submitted_at: last }, total)),
                            )
                        } else {
                            (seq![pay, done], Ok((Order { amount: remaining, submitted_at: last }, total)))
                        }
                    },
                }
            },
        },
    }
}

/// The storage after a planned collect is stored.
pub open spec fn stored_collect(p: PalletModel, dir: Direction, who: AccountId, inv: InvestmentId, order: Order, total: u128)
    -> PalletModel
{
    let b = p.book(dir);
    p.with_book(dir, BookModel {
        orders: b.orders.insert(pair_key(who, inv), order),
        active: b.active.insert(inv, TotalOrder { amount: total }),
        ..b
    })
}

/// A collect of the order of `who` on `inv` in one direction, given what
/// the accountant answers for `inv`: the effects, the result and the
/// storage after it.
pub open spec fn spec_collect(
    p: PalletModel,
    dir: Direction,
    who: AccountId,
    inv: InvestmentId,
    info: Result<InvestmentInfo, DispatchError>,
    ct: CollectType,
) -> (Seq<EffectModel>, Result<(), DispatchError>, PalletModel) {
    let (effects, planned) = spec_collect_plan(p, dir, who, inv, info, ct);
    match planned {
        Err(e) => (effects, Err(e), p),
        Ok((order, total)) => (effects, Ok(()), stored_collect(p, dir, who, inv, order, total)),
    }
}

/// A collect of both the invest and the redeem order of `who` on `inv`:
/// the invest order first; a failure of either fails both.
pub open spec fn spec_collect_both(
    p: PalletModel,
    who: AccountId,
    inv: InvestmentId,
    info: Result<InvestmentInfo, DispatchError>,
    ct: CollectType,
) -> (Seq<EffectModel>, Result<(), DispatchError>, PalletModel) {
    let (e1, r1, p1) = spec_collect(p, Direction::Invest, who, inv, info, ct);
    match r1 {
        Err(e) => (seq![], Err(e), p),
        Ok(_) => {
            let (e2, r2, p2) = spec_collect(p1, Direction::Redeem, who, inv, info, ct);
            match r2 {
                Err(e) => (seq![], Err(e), p),
                Ok(_) => (e1 + e2, Ok(()), p2),
            }
        },
    }
}

/// Adds the payout of one fulfilled order to `payout`.
fn acc_payout(dir: Direction, payout: u128, fulfillment: &FulfillmentWithPrice, amount: u128)
    -> (r: Result<u128, DispatchError>)
    ensures
        r == spec_payout_step(dir, payout, *fulfillment, amount),
{
    let fulfilled = fulfillment.of_amount.mul_floor(amount);
    let value = match dir {
        Direction::Invest => match fulfillment.price.reciprocal() {
            Some(r) => r.checked_mul_int(fulfilled),
            None => {
                return Err(DispatchError::Investments(Error::ZeroPricedInvestment));
            },
        },
        Direction::Redeem => fulfillment.price.checked_mul_int(fulfilled),
    };
    match value {
        None => Err(DispatchError::Arithmetic(ArithmeticError::Overflow)),
        Some(v) => match payout.checked_add(v) {
            Some(s) => Ok(s),
            None => Err(DispatchError::Arithmetic(ArithmeticError::Overflow)),
        },
    }
}

/// What is left of an order of `amount` once `fulfillment` fulfilled its part.
fn acc_remaining(fulfillment: &FulfillmentWithPrice, amount: u128) -> (r: Result<u128, DispatchError>)
    ensures
        r == spec_remaining_step(*fulfillment, amount),
{
    let fulfilled = fulfillment.of_amount.mul_floor(amount);
    match amount.checked_sub(fulfilled) {
        Some(r) => Ok(r),
        None => Err(DispatchError::Arithmetic(ArithmeticError::Underflow)),
    }
}

impl Pallet {
    /// Adds to the payout of `collection` what `fulfillment` pays out for
    /// `order`: the fulfilled amount divided by the price.
    pub fn acc_payout_invest(
        collection: &mut InvestCollection,
        fulfillment: &FulfillmentWithPrice,
        order: &Order,
    ) -> (r: Result<(), DispatchError>)
        ensures
            match spec_payout_step(Direction::Invest, old(collection).payout_investment_invest, *fulfillment, order.amount) {
                Ok(p) => r == Ok::<(), DispatchError>(())
                    && *final(collection) == InvestCollection { payout_investment_invest: p, ..*old(collection) },
                Err(e) => r == Err::<(), DispatchError>(e) && *final(collection) == *old(collection),
            },
    {
        match acc_payout(Direction::Invest, collection.payout_investment_invest, fulfillment, order.amount) {
            Ok(p) => {
                collection.payout_investment_invest = p;
                Ok(())
            },
            Err(e) => Err(e),
        }
    }

    /// Adds to the payout of `collection` what `fulfillment` pays out for
    /// `order`: the fulfilled amount times the price.
    pub fn acc_payout_redeem(
        collection: &mut RedeemCollection,
        fulfillment: &FulfillmentWithPrice,
        order: &Order,
    ) -> (r: Result<(), DispatchError>)
        ensures
            match spec_payout_step(Direction::Redeem, old(collection).payout_investment_redeem, *fulfillment, order.amount) {
                Ok(p) => r == Ok::<(), DispatchError>(())
                    && *final(collection) == RedeemCollection { payout_investment_redeem: p, ..*old(collection) },
                Err(e) => r == Err::<(), DispatchError>(e) && *final(collection) == *old(collection),
            },
    {
        match acc_payout(Direction::Redeem, collection.payout_investment_redeem, fulfillment, order.amount) {
            Ok(p) => {
                collection.payout_investment_redeem = p;
                Ok(())
            },
            Err(e) => Err(e),
        }
    }

    /// Sets the remainder of `collection` to what `fulfillment` left
    /// unfulfilled of `order`.
    pub fn acc_remaining_invest(
        collection: &mut InvestCollection,
        fulfillment: &FulfillmentWithPrice,
        order: &Order,
    ) -> (r: Result<(), DispatchError>)
        ensures
            match spec_remaining_step(*fulfillment, order.amount) {
                Ok(x) => r == Ok::<(), DispatchError>(())
                    && *final(collection) == InvestCollection { remaining_investment_invest: x, ..*old(collection) },
                Err(e) => r == Err::<(), DispatchError>(e) && *final(collection) == *old(collection),
            },
    {
        match acc_remaining(fulfillment, order.amount) {
            Ok(x) => {
                collection.remaining_investment_invest = x;
                Ok(())
            },
            Err(e) => Err(e),
        }
    }

    /// Sets the remainder of `collection` to what `fulfillment` left
    /// unfulfilled of `order`.
    pub fn acc_remaining_redeem(
        collection: &mut RedeemCollection,
        fulfillment: &FulfillmentWithPrice,
        order: &Order,
    ) -> (r: Result<(), DispatchError>)
        ensures
            match spec_remaining_step(*fulfillment, order.amount) {
                Ok(x) => r == Ok::<(), DispatchError>(())
                    && *final(collection) == RedeemCollection { remaining_investment_redeem: x, ..*old(collection) },
                Err(e) => r == Err::<(), DispatchError>(e) && *final(collection) == *old(collection),
            },
    {
        match acc_remaining(fulfillment, order.amount) {
            Ok(x) => {
                collection.remaining_investment_redeem = x;
                Ok(())
            },
            Err(e) => Err(e),
        }
    }
}


impl Book {
    /// The payout and the unfulfilled rest of an order of `amount` over the
    /// cleared orders `from .. to` of `inv`, and the ids of those orders.
    fn collect_range(&self, dir: Direction, inv: InvestmentId, amount: u128, from: u64, to: u64)
        -> (r: Result<(u128, u128, Vec<OrderId>), DispatchError>)
        ensures
            match spec_collect_fold(self@, dir, inv, amount, from, to as int) {
                Ok((payout, remaining)) => r matches Ok((p, x, v)) && p == payout && x == remaining
                    && v@ == order_range(from, to),
                Err(e) => r == Err::<(u128, u128, Vec<OrderId>), DispatchError>(e),
            },
    {
        let mut payout: u128 = 0;
        let mut remaining: u128 = amount;
        let mut collected: Vec<OrderId> = Vec::new();
        let mut id: u64 = from;
        while id < to
            invariant
                from <= id,
                id <= to || id == from,
                spec_collect_fold(self@, dir, inv, amount, from, id as int)
                    == Ok::<(u128, u128), DispatchError>((payout, remaining)),
                collected@ == order_range(from, id),
            decreases to - id,
        {
            let f = match self.cleared_of(inv, id) {
                Some(f) => f,
                None => {
                    proof {
                        lemma_fold_err_persists(self@, dir, inv, amount, from, id + 1, to as int);
                    }
                    return Err(DispatchError::Investments(Error::OrderNotCleared));
                },
            };
            payout = match acc_payout(dir, payout, &f, remaining) {
                Ok(p) => p,
                Err(e) => {
                    proof {
                        lemma_fold_err_persists(self@, dir, inv, amount, from, id + 1, to as int);
                    }
                    return Err(e);
                },
            };
            remaining = match acc_remaining(&f, remaining) {
                Ok(x) => x,
                Err(e) => {
                    proof {
                        lemma_fold_err_persists(self@, dir, inv, amount, from, id + 1, to as int);
                    }
                    return Err(e);
                },
            };
            collected.push(id);
            proof {
                assert(collected@ =~= order_range(from, (id + 1) as u64));
            }
            id = id + 1;
        }
        Ok((payout, remaining, collected))
    }
}

/// The transfer of a payout from the investment to `who`.
fn payout_transfer_effect(dir: Direction, info: InvestmentInfo, inv: InvestmentId, who: AccountId, amount: u128)
    -> (e: Effect)
    ensures
        e@ == payout_transfer(dir, info, inv, who, amount),
{
    match dir {
        Direction::Invest => Effect::AccountantTransfer {
            investment: info.id,
            source: Party::InvestmentAccount(inv),
            dest: Party::Account(who),
            amount,
        },
        Direction::Redeem => Effect::TokensTransfer {
            currency: info.payment_currency,
            source: Party::InvestmentAccount(inv),
            dest: Party::Account(who),
            amount,
        },
    }
}

/// The event of a collect.
fn collected_event_of(
    dir: Direction,
    inv: InvestmentId,
    who: AccountId,
    processed: Vec<OrderId>,
    payout: u128,
    remaining: u128,
    outcome: CollectOutcome,
) -> (e: Event)
    ensures
        e@ == collected_event(dir, inv, who, processed@, payout, remaining, outcome),
{
    match dir {
        Direction::Invest => Event::InvestOrdersCollected {
            investment_id: inv,
            who,
            processed_orders: processed,
            collection: InvestCollection { payout_investment_invest: payout, remaining_investment_invest: remaining },
            outcome,
        },
        Direction::Redeem => Event::RedeemOrdersCollected {
            investment_id: inv,
            who,
            processed_orders: processed,
            collection: RedeemCollection { payout_investment_redeem: payout, remaining_investment_redeem: remaining },
            outcome,
        },
    }
}

impl Pallet {
    /// Plans a collect of the order of `who` on `inv` in one direction.
    fn plan_collect(
        &self,
        dir: Direction,
        who: AccountId,
        inv: InvestmentId,
        info: Result<InvestmentInfo, DispatchError>,
        ct: CollectType,
    ) -> (out: Outcome<(Order, u128)>)
        ensures
            ({
                let (effects, planned) = spec_collect_plan(self@, dir, who, inv, info, ct);
                &&& effects_model(out.effects@) == effects
                &&& out.result == planned
            }),
    {
        let mut effects: Vec<Effect> = Vec::new();
        let ghost g = spec_collect_plan(self@, dir, who, inv, info, ct);
        let info = match info {
            Ok(i) => i,
            Err(_) => {
                return Outcome { effects, result: Err(DispatchError::Investments(Error::UnknownInvestment)) };
            },
        };
        let book = self.book(dir);
        let order = match book.order_of(who, inv) {
            Some(o) => o,
            None => {
                let e = match dir {
                    Direction::Invest => DispatchError::Investments(Error::NoActiveInvestOrder),
                    Direction::Redeem => DispatchError::Investments(Error::NoActiveRedeemOrder),
                };
                return Outcome { effects, result: Err(e) };
            },
        };
        let cur = book.current_order_id(inv);
        let bound = order.submitted_at.saturating_add(self.max_collects());
        let last = if bound < cur { bound } else { cur };
        let outcome = if last == cur { CollectOutcome::FullyCollected } else { CollectOutcome::PartiallyCollected };
        let (payout, remaining, collected) = match book.collect_range(dir, inv, order.amount, order.submitted_at, last) {
            Ok(x) => x,
            Err(e) => {
                return Outcome { effects, result: Err(e) };
            },
        };
        let processed = last != order.submitted_at;
        let total = book.active_amount(inv);
        let closing = match ct {
            CollectType::Closing => true,
            CollectType::Overflowing => false,
        };
        if closing && processed && last == cur && remaining > 0 {
            if total < remaining {
                return Outcome { effects, result: Err(DispatchError::Arithmetic(ArithmeticError::Underflow)) };
            }
            effects.push(payout_transfer_effect(dir, info, inv, who, payout));
            effects.push(order_transfer_effect(dir, info, Party::InvestmentAccount(inv), Party::Account(who), remaining));
            effects.push(Effect::Deposit(collected_event_of(dir, inv, who, collected, payout, remaining, outcome)));
            assert(effects_model(effects@) =~= g.0);
            return Outcome { effects, result: Ok((Order { amount: 0, submitted_at: last }, total - remaining)) };
        }
        effects.push(payout_transfer_effect(dir, info, inv, who, payout));
        if processed && remaining > 0 {
            effects.push(Effect::Deposit(updated_event_of(dir, inv, last, who, remaining)));
        }
        effects.push(Effect::Deposit(collected_event_of(dir, inv, who, collected, payout, remaining, outcome)));
        assert(effects_model(effects@) =~= g.0);
        Outcome { effects, result: Ok((Order { amount: remaining, submitted_at: last }, total)) }
    }

    /// Collects the order of `who` on `inv` in one direction.
    fn do_collect(
        &mut self,
        dir: Direction,
        who: AccountId,
        inv: InvestmentId,
        info: Result<InvestmentInfo, DispatchError>,
        ct: CollectType,
    ) -> (out: Outcome<()>)
        ensures
            ({
                let (effects, result, post) = spec_collect(old(self)@, dir, who, inv, info, ct);
                &&& effects_model(out.effects@) == effects
                &&& out.result == result
                &&& final(self)@ == post
            }),
    {
        let planned = self.plan_collect(dir, who, inv, info, ct);
        match planned.result {
            Err(e) => Outcome { effects: planned.effects, result: Err(e) },
            Ok((order, total)) => {
                self.store_order_and_total(dir, who, inv, order, total);
                Outcome { effects: planned.effects, result: Ok(()) }
            },
        }
    }

    /// Collects both the invest and the redeem order of `who` on `inv`.
    fn do_collect_both(
        &mut self,
        who: AccountId,
        inv: InvestmentId,
        info: Result<InvestmentInfo, DispatchError>,
        ct: CollectType,
    ) -> (out: Outcome<()>)
        ensures
            ({
                let (effects, result, post) = spec_collect_both(old(self)@, who, inv, info, ct);
                &&& effects_model(out.effects@) == effects
                &&& out.result == result
                &&& final(self)@ == post
            }),
    {
        let ghost p = self@;
        let invest = self.plan_collect(Direction::Invest, who, inv, info, ct);
        let (invest_order, invest_total) = match invest.result {
            Err(e) => {
                return Outcome { effects: Vec::new(), result: Err(e) };
            },
            Ok(x) => x,
        };
        let ghost p1 = stored_collect(p, Direction::Invest, who, inv, invest_order, invest_total);
        assert(spec_collect_plan(p1, Direction::Redeem, who, inv, info, ct)
            == spec_collect_plan(p, Direction::Redeem, who, inv, info, ct));
        let redeem = self.plan_collect(Direction::Redeem, who, inv, info, ct);
        match redeem.result {
            Err(e) => Outcome { effects: Vec::new(), result: Err(e) },
            Ok((redeem_order, redeem_total)) => {
                let mut effects = invest.effects;
                let mut redeem_effects = redeem.effects;
                let ghost e1 = effects@;
                let ghost e2 = redeem_effects@;
                effects.append(&mut redeem_effects);
                assert(effects_model(effects@) =~= effects_model(e1) + effects_model(e2));
                self.store_order_and_total(Direction::Invest, who, inv, invest_order, invest_total);
                self.store_order_and_total(Direction::Redeem, who, inv, redeem_order, redeem_total);
                Outcome { effects, result: Ok(()) }
            },
        }
    }

    /// `collect`: the signer collects both of its orders on `investment_id`,
    /// leaving what is unfulfilled in its orders (an overflowing collect);
    /// `info` is what the runtime's accountant answers for `investment_id`.
    pub fn collect(
        &mut self,
        origin: Origin,
        investment_id: InvestmentId,
        info: Result<InvestmentInfo, DispatchError>,
    ) -> (out: Outcome<()>)
        ensures
            match spec_ensure_signed(origin) {
                Err(e) => out.effects@.len() == 0 && out.result == Err::<(), DispatchError>(e) && final(self)@ == old(self)@,
                Ok(who) => {
                    let (effects, result, post) = spec_collect_both(old(self)@, who, investment_id, info, CollectType::Overflowing);
                    &&& effects_model(out.effects@) == effects
                    &&& out.result == result
                    &&& final(self)@ == post
                },
            },
    {
        match crate::dispatch::ensure_signed(origin) {
            Err(e) => Outcome { effects: Vec::new(), result: Err(e) },
            Ok(who) => self.do_collect_both(who, investment_id, info, CollectType::Overflowing),
        }
    }

    /// `collect_invest`: the signer collects its invest order on
    /// `investment_id`, leaving what is unfulfilled in the order.
    pub fn collect_invest(
        &mut self,
        origin: Origin,
        investment_id: InvestmentId,
        info: Result<InvestmentInfo, DispatchError>,
    ) -> (out: Outcome<()>)
        ensures
            match spec_ensure_signed(origin) {
                Err(e) => out.effects@.len() == 0 && out.result == Err::<(), DispatchError>(e) && final(self)@ == old(self)@,
                Ok(who) => {
                    let (effects, result, post) = spec_collect(old(self)@, Direction::Invest, who, investment_id, info, CollectType::Overflowing);
                    &&& effects_model(out.effects@) == effects
                    &&& out.result == result
                    &&& final(self)@ == post
                },
            },
    {
        match crate::dispatch::ensure_signed(origin) {
            Err(e) => Outcome { effects: Vec::new(), result: Err(e) },
            Ok(who) => self.do_collect(Direction::Invest, who, investment_id, info, CollectType::Overflowing),
        }
    }

    /// `collect_redeem`: the signer collects its redeem order on
    /// `investment_id`, leaving what is unfulfilled in the order.
    pub fn collect_redeem(
        &mut self,
        origin: Origin,
        investment_id: InvestmentId,
        info: Result<InvestmentInfo, DispatchError>,
    ) -> (out: Outcome<()>)
        ensures
            match spec_ensure_signed(origin) {
                Err(e) => out.effects@.len() == 0 && out.result == Err::<(), DispatchError>(e) && final(self)@ == old(self)@,
                Ok(who) => {
                    let (effects, result, post) = spec_collect(old(self)@, Direction::Redeem, who, investment_id, info, CollectType::Overflowing);
                    &&& effects_model(out.effects@) == effects
                    &&& out.result == result
                    &&& final(self)@ == post
                },
            },
    {
        match crate::dispatch::ensure_signed(origin) {
            Err(e) => Outcome { effects: Vec::new(), result: Err(e) },
            Ok(who) => self.do_collect(Direction::Redeem, who, investment_id, info, CollectType::Overflowing),
        }
    }

    /// `collect_for`: any signer collects both orders of `who` on
    /// `investment_id`, as a closing collect: what is unfulfilled once every
    /// processed order is collected is paid back to `who`.
    pub fn collect_for(
        &mut self,
        origin: Origin,
        who: AccountId,
        investment_id: InvestmentId,
        info: Result<InvestmentInfo, DispatchError>,
    ) -> (out: Outcome<()>)
        ensures
            match spec_ensure_signed(origin) {
                Err(e) => out.effects@.len() == 0 && out.result == Err::<(), DispatchError>(e) && final(self)@ == old(self)@,
                Ok(_) => {
                    let (effects, result, post) = spec_collect_both(old(self)@, who, investment_id, info, CollectType::Closing);
                    &&& effects_model(out.effects@) == effects
                    &&& out.result == result
                    &&& final(self)@ == post
                },
            },
    {
        match crate::dispatch::ensure_signed(origin) {
            Err(e) => Outcome { effects: Vec::new(), result: Err(e) },
            Ok(_) => self.do_collect_both(who, investment_id, info, CollectType::Closing),
        }
    }

    /// `collect_invest_for`: any signer collects the invest order of `who`
    /// on `investment_id`, as a closing collect.
    pub fn collect_invest_for(
        &mut self,
        origin: Origin,
        who: AccountId,
        investment_id: InvestmentId,
        info: Result<InvestmentInfo, DispatchError>,
    ) -> (out: Outcome<()>)
        ensures
            match spec_ensure_signed(origin) {
                Err(e) => out.effects@.len() == 0 && out.result == Err::<(), DispatchError>(e) && final(self)@ == old(self)@,
                Ok(_) => {
                    let (effects, result, post) = spec_collect(old(self)@, Direction::Invest, who, investment_id, info, CollectType::Closing);
                    &&& effects_model(out.effects@) == effects
                    &&& out.result == result
                    &&& final(self)@ == post
                },
            },
    {
        match crate::dispatch::ensure_signed(origin) {
            Err(e) => Outcome { effects: Vec::new(), result: Err(e) },
            Ok(_) => self.do_collect(Direction::Invest, who, investment_id, info, CollectType::Closing),
        }
    }

    /// `collect_redeem_for`: any signer collects the redeem order of `who`
    /// on `investment_id`, as a closing collect.
    pub fn collect_redeem_for(
        &mut self,
        origin: Origin,
        who: AccountId,
        investment_id: InvestmentId,
        info: Result<InvestmentInfo, DispatchError>,
    ) -> (out: Outcome<()>)
        ensures
            match spec_ensure_signed(origin) {
                Err(e) => out.effects@.len() == 0 && out.result == Err::<(), DispatchError>(e) && final(self)@ == old(self)@,
                Ok(_) => {
                    let (effects, result, post) = spec_collect(old(self)@, Direction::Redeem, who, investment_id, info, CollectType::Closing);
                    &&& effects_model(out.effects@) == effects
                    &&& out.result == result
                    &&& final(self)@ == post
                },
            },
    {
        match crate::dispatch::ensure_signed(origin) {
            Err(e) => Outcome { effects: Vec::new(), result: Err(e) },
            Ok(_) => self.do_collect(Direction::Redeem, who, investment_id, info, CollectType::Closing),
        }
    }
}

} // verus!
