//! The calls of the investments pallet.

use vstd::prelude::*;

use crate::dispatch::{AccountId, ArithmeticError, DispatchError, Origin, spec_ensure_signed};
use crate::investments::storage::{Book, BookModel, Direction};
use crate::arith::{spec_mul_floor, spec_mul_int, spec_reciprocal};
use crate::investments::storage::pair_key;
use crate::investments::types::{
    Effect, EffectModel, Error, Event, EventModel, FulfillmentWithPrice, InvestmentId,
    InvestmentInfo, Order, OrderId, Outcome, Party, TotalOrder, effects_model,
};

verus! {

/// The storage of the pallet, as maps.
pub struct PalletModel {
    /// The most orders that one collect processes.
    pub max_collects: u64,
    pub invest: BookModel,
    pub redeem: BookModel,
}

impl PalletModel {
    /// The storage of one direction.
    pub open spec fn book(self, dir: Direction) -> BookModel {
        match dir {
            Direction::Invest => self.invest,
            Direction::Redeem => self.redeem,
        }
    }

    /// This storage with that of one direction replaced.
    pub open spec fn with_book(self, dir: Direction, b: BookModel) -> PalletModel {
        match dir {
            Direction::Invest => PalletModel { invest: b, ..self },
            Direction::Redeem => PalletModel { redeem: b, ..self },
        }
    }
}

/// The investments pallet: its configuration and its storage.
#[derive(Clone, Debug)]
pub struct Pallet {
    max_collects: u64,
    invest: Book,
    redeem: Book,
}

impl View for Pallet {
    type V = PalletModel;

    closed spec fn view(&self) -> PalletModel {
        PalletModel { max_collects: self.max_collects, invest: self.invest@, redeem: self.redeem@ }
    }
}

/// The error of an arithmetic failure.
pub open spec fn arith(e: ArithmeticError) -> DispatchError {
    DispatchError::Arithmetic(e)
}

/// The error of the pallet.
pub open spec fn pallet_error(e: Error) -> DispatchError {
    DispatchError::Investments(e)
}

/// Moving an order from `old_amount` to `new_amount`: who pays whom, how
/// much, and the new total order, or why it cannot be done.
pub open spec fn spec_update_order_amount(
    who: Party,
    pool: Party,
    old_amount: u128,
    new_amount: u128,
    total: u128,
) -> Result<(Party, Party, u128, u128), DispatchError> {
    if new_amount > old_amount {
        let t = new_amount - old_amount;
        if total + t > u128::MAX {
            Err(arith(ArithmeticError::Overflow))
        } else {
            Ok((who, pool, t as u128, (total + t) as u128))
        }
    } else if new_amount < old_amount {
        let t = old_amount - new_amount;
        if total < t {
            Err(arith(ArithmeticError::Underflow))
        } else {
            Ok((pool, who, t as u128, (total - t) as u128))
        }
    } else {
        Err(pallet_error(Error::NoNewOrder))
    }
}

/// Setting the order of `who` on `inv` to `amount` in one direction: the
/// new storage, the current order id, and the transfer it takes.
pub open spec fn spec_book_update(b: BookModel, who: AccountId, inv: InvestmentId, amount: u128)
    -> Result<(BookModel, OrderId, Party, Party, u128), DispatchError>
{
    let cur = b.current_order_id(inv);
    let order = match b.order_of(who, inv) {
        Some(o) => o,
        None => Order { amount: 0, submitted_at: cur },
    };
    if order.submitted_at != cur {
        Err(pallet_error(Error::CollectRequired))
    } else {
        match spec_update_order_amount(
            Party::Account(who),
            Party::InvestmentAccount(inv),
            order.amount,
            amount,
            b.active_amount(inv),
        ) {
            Err(e) => Err(e),
            Ok((send, recv, t, total)) => Ok((
                BookModel {
                    orders: b.orders.insert(
                        crate::investments::storage::pair_key(who, inv),
                        Order { amount, submitted_at: cur },
                    ),
                    active: b.active.insert(inv, crate::investments::types::TotalOrder { amount: total }),
                    ..b
                },
                cur,
                send,
                recv,
                t,
            )),
        }
    }
}

/// The transfer that moves an order's funds: payment currency for invest
/// orders, investment units for redeem orders.
pub open spec fn order_transfer(dir: Direction, info: InvestmentInfo, send: Party, recv: Party, amount: u128)
    -> EffectModel
{
    match dir {
        Direction::Invest => EffectModel::TokensTransfer {
            currency: info.payment_currency,
            source: send,
            dest: recv,
            amount,
        },
        Direction::Redeem => EffectModel::AccountantTransfer {
            investment: info.id,
            source: send,
            dest: recv,
            amount,
        },
    }
}

/// The event of an updated order.
pub open spec fn updated_event(dir: Direction, inv: InvestmentId, submitted_at: OrderId, who: AccountId, amount: u128)
    -> EventModel
{
    match dir {
        Direction::Invest => EventModel::InvestOrderUpdated { investment_id: inv, submitted_at, who, amount },
        Direction::Redeem => EventModel::RedeemOrderUpdated { investment_id: inv, submitted_at, who, amount },
    }
}

/// An update of the order of `who` on `inv` to `amount`, given whether the
/// runtime's pre-conditions hold for it and what the accountant knows of
/// the investment: the effects, the result and the storage after it.
pub open spec fn spec_do_update(
    p: PalletModel,
    dir: Direction,
    who: AccountId,
    inv: InvestmentId,
    amount: u128,
    preconditions_hold: bool,
    info: Result<InvestmentInfo, DispatchError>,
) -> (Seq<EffectModel>, Result<(), DispatchError>, PalletModel) {
    if !preconditions_hold {
        (seq![], Err(DispatchError::BadOrigin), p)
    } else {
        match info {
            Err(_) => (seq![], Err(pallet_error(Error::UnknownInvestment)), p),
            Ok(info) => match spec_book_update(p.book(dir), who, inv, amount) {
                Err(e) => (seq![], Err(e), p),
                Ok((b, cur, send, recv, t)) => (
                    seq![
                        order_transfer(dir, info, send, recv, t),
                        EffectModel::Deposit(updated_event(dir, inv, cur, who, amount)),
                    ],
                    Ok(()),
                    p.with_book(dir, b),
                ),
            },
        }
    }
}

/// Moves an order from `*old_order` to `new_order` and the total order
/// with it; returns who pays whom and how much.
pub(crate) fn update_order_amount(
    who: Party,
    pool: Party,
    old_order: &mut u128,
    new_order: u128,
    total_orders: &mut u128,
) -> (r: Result<(Party, Party, u128), DispatchError>)
    ensures
        match spec_update_order_amount(who, pool, *old(old_order), new_order, *old(total_orders)) {
            Ok((send, recv, t, total)) => {
                &&& r == Ok::<(Party, Party, u128), DispatchError>((send, recv, t))
                &&& *final(old_order) == new_order
                &&& *final(total_orders) == total
            },
            Err(e) => {
                &&& r == Err::<(Party, Party, u128), DispatchError>(e)
                &&& *final(old_order) == *old(old_order)
                &&& *final(total_orders) == *old(total_orders)
            },
        },
{
    if new_order > *old_order {
        let transfer_amount = new_order - *old_order;
        match total_orders.checked_add(transfer_amount) {
            Some(t) => {
                *total_orders = t;
                *old_order = new_order;
                Ok((who, pool, transfer_amount))
            },
            None => Err(DispatchError::Arithmetic(ArithmeticError::Overflow)),
        }
    } else if new_order < *old_order {
        let transfer_amount = *old_order - new_order;
        match total_orders.checked_sub(transfer_amount) {
            Some(t) => {
                *total_orders = t;
                *old_order = new_order;
                Ok((pool, who, transfer_amount))
            },
            None => Err(DispatchError::Arithmetic(ArithmeticError::Underflow)),
        }
    } else {
        Err(DispatchError::Investments(Error::NoNewOrder))
    }
}

impl Book {
    /// Sets the order of `who` on `inv` to `amount`; returns the current
    /// order id and the transfer it takes.
    fn update_order(&mut self, who: AccountId, inv: InvestmentId, amount: u128)
        -> (r: Result<(OrderId, Party, Party, u128), DispatchError>)
        ensures
            match spec_book_update(old(self)@, who, inv, amount) {
                Ok((b, cur, send, recv, t)) => r == Ok::<_, DispatchError>((cur, send, recv, t)) && final(self)@ == b,
                Err(e) => r == Err::<(OrderId, Party, Party, u128), DispatchError>(e) && final(self)@ == old(self)@,
            },
    {
        let cur = self.current_order_id(inv);
        let order = match self.order_of(who, inv) {
            Some(o) => o,
            None => Order { amount: 0, submitted_at: cur },
        };
        if order.submitted_at != cur {
            return Err(DispatchError::Investments(Error::CollectRequired));
        }
        let mut order_amount = order.amount;
        let mut total = self.active_amount(inv);
        match update_order_amount(
            Party::Account(who),
            Party::InvestmentAccount(inv),
            &mut order_amount,
            amount,
            &mut total,
        ) {
            Err(e) => Err(e),
            Ok((send, recv, t)) => {
                self.set_order(who, inv, Order { amount: order_amount, submitted_at: cur });
                self.set_active(inv, total);
                Ok((cur, send, recv, t))
            },
        }
    }
}


/// The transfer that moves an order's funds.
pub(crate) fn order_transfer_effect(dir: Direction, info: InvestmentInfo, send: Party, recv: Party, amount: u128)
    -> (e: Effect)
    ensures
        e@ == order_transfer(dir, info, send, recv, amount),
{
    match dir {
        Direction::Invest => Effect::TokensTransfer {
            currency: info.payment_currency,
            source: send,
            dest: recv,
            amount,
        },
        Direction::Redeem => Effect::AccountantTransfer {
            investment: info.id,
            source: send,
            dest: recv,
            amount,
        },
    }
}

/// The event of an updated order.
pub(crate) fn updated_event_of(dir: Direction, inv: InvestmentId, submitted_at: OrderId, who: AccountId, amount: u128)
    -> (e: Event)
    ensures
        e@ == updated_event(dir, inv, submitted_at, who, amount),
{
    match dir {
        Direction::Invest => Event::InvestOrderUpdated { investment_id: inv, submitted_at, who, amount },
        Direction::Redeem => Event::RedeemOrderUpdated { investment_id: inv, submitted_at, who, amount },
    }
}

impl Pallet {
    /// A pallet with empty storage that collects at most `max_collects`
    /// orders at once.
    pub fn new(max_collects: u64) -> (r: Pallet)
        ensures
            r@.max_collects == max_collects,
            r@.invest.order_id.is_empty(),
            r@.invest.orders.is_empty(),
            r@.invest.active.is_empty(),
            r@.invest.in_processing.is_empty(),
            r@.invest.cleared.is_empty(),
            r@.redeem.order_id.is_empty(),
            r@.redeem.orders.is_empty(),
            r@.redeem.active.is_empty(),
            r@.redeem.in_processing.is_empty(),
            r@.redeem.cleared.is_empty(),
    {
        Pallet { max_collects, invest: Book::new(), redeem: Book::new() }
    }

    /// The most orders that one collect processes.
    pub(crate) fn max_collects(&self) -> (r: u64)
        ensures
            r == self@.max_collects,
    {
        self.max_collects
    }

    /// Stores the order of `who` on `inv` and the active total of `inv` in
    /// one direction.
    pub(crate) fn store_order_and_total(
        &mut self,
        dir: Direction,
        who: AccountId,
        inv: InvestmentId,
        order: Order,
        total: u128,
    )
        ensures
            final(self)@ == old(self)@.with_book(dir, BookModel {
                orders: old(self)@.book(dir).orders.insert(crate::investments::storage::pair_key(who, inv), order),
                active: old(self)@.book(dir).active.insert(inv, TotalOrder { amount: total }),
                ..old(self)@.book(dir)
            }),
    {
        match dir {
            Direction::Invest => {
                self.invest.set_order(who, inv, order);
                self.invest.set_active(inv, total);
            },
            Direction::Redeem => {
                self.redeem.set_order(who, inv, order);
                self.redeem.set_active(inv, total);
            },
        }
    }

    /// The storage of one direction.
    pub(crate) fn book(&self, dir: Direction) -> (b: &Book)
        ensures
            b@ == self@.book(dir),
    {
        match dir {
            Direction::Invest => &self.invest,
            Direction::Redeem => &self.redeem,
        }
    }

    /// Sets the order of `who` on `inv` in one direction.
    fn update_order_in(&mut self, dir: Direction, who: AccountId, inv: InvestmentId, amount: u128)
        -> (r: Result<(OrderId, Party, Party, u128), DispatchError>)
        ensures
            match spec_book_update(old(self)@.book(dir), who, inv, amount) {
                Ok((b, cur, send, recv, t)) => r == Ok::<_, DispatchError>((cur, send, recv, t))
                    && final(self)@ == old(self)@.with_book(dir, b),
                Err(e) => r == Err::<(OrderId, Party, Party, u128), DispatchError>(e)
                    && final(self)@ == old(self)@,
            },
    {
        match dir {
            Direction::Invest => self.invest.update_order(who, inv, amount),
            Direction::Redeem => self.redeem.update_order(who, inv, amount),
        }
    }

    /// Updates the order of `who` on `inv` in one direction to `amount`.
    fn do_update(
        &mut self,
        dir: Direction,
        who: AccountId,
        inv: InvestmentId,
        amount: u128,
        preconditions_hold: bool,
        info: Result<InvestmentInfo, DispatchError>,
    ) -> (out: Outcome<()>)
        ensures
            ({
                let (effects, result, post) = spec_do_update(old(self)@, dir, who, inv, amount, preconditions_hold, info);
                &&& effects_model(out.effects@) == effects
                &&& out.result == result
                &&& final(self)@ == post
            }),
    {
        let mut effects: Vec<Effect> = Vec::new();
        if !preconditions_hold {
            return Outcome { effects, result: Err(DispatchError::BadOrigin) };
        }
        let info = match info {
            Ok(i) => i,
            Err(_) => {
                return Outcome { effects, result: Err(DispatchError::Investments(Error::UnknownInvestment)) };
            },
        };
        match self.update_order_in(dir, who, inv, amount) {
            Err(e) => Outcome { effects, result: Err(e) },
            Ok((cur, send, recv, t)) => {
                effects.push(order_transfer_effect(dir, info, send, recv, t));
                effects.push(Effect::Deposit(updated_event_of(dir, inv, cur, who, amount)));
                proof {
                    let (e, _, _) = spec_do_update(old(self)@, dir, who, inv, amount, preconditions_hold, Ok(info));
                    assert(effects_model(effects@) =~= e);
                }
                Outcome { effects, result: Ok(()) }
            },
        }
    }

    /// `Investment::update_investment`: sets the invest order of `who` on
    /// `investment_id` to `amount`. `preconditions_hold` is what the
    /// runtime's pre-conditions answer for
    /// `OrderType::Investment { who, investment_id, amount }`, and `info`
    /// what its accountant answers for `investment_id`.
    pub fn update_investment(
        &mut self,
        who: AccountId,
        investment_id: InvestmentId,
        amount: u128,
        preconditions_hold: bool,
        info: Result<InvestmentInfo, DispatchError>,
    ) -> (out: Outcome<()>)
        ensures
            ({
                let (effects, result, post) = spec_do_update(
                    old(self)@, Direction::Invest, who, investment_id, amount, preconditions_hold, info);
                &&& effects_model(out.effects@) == effects
                &&& out.result == result
                &&& final(self)@ == post
            }),
    {
        self.do_update(Direction::Invest, who, investment_id, amount, preconditions_hold, info)
    }

    /// `Investment::update_redemption`: sets the redeem order of `who` on
    /// `investment_id` to `amount`. `preconditions_hold` is what the
    /// runtime's pre-conditions answer for
    /// `OrderType::Redemption { who, investment_id, amount }`, and `info`
    /// what its accountant answers for `investment_id`.
    pub fn update_redemption(
        &mut self,
        who: AccountId,
        investment_id: InvestmentId,
        amount: u128,
        preconditions_hold: bool,
        info: Result<InvestmentInfo, DispatchError>,
    ) -> (out: Outcome<()>)
        ensures
            ({
                let (effects, result, post) = spec_do_update(
                    old(self)@, Direction::Redeem, who, investment_id, amount, preconditions_hold, info);
                &&& effects_model(out.effects@) == effects
                &&& out.result == result
                &&& final(self)@ == post
            }),
    {
        self.do_update(Direction::Redeem, who, investment_id, amount, preconditions_hold, info)
    }

    /// `update_invest_order`: the signer sets its invest order on
    /// `investment_id` to `amount`. Raising the order moves the difference
    /// from the signer to the investment's account, lowering it moves the
    /// difference back.
    pub fn update_invest_order(
        &mut self,
        origin: Origin,
        investment_id: InvestmentId,
        amount: u128,
        preconditions_hold: bool,
        info: Result<InvestmentInfo, DispatchError>,
    ) -> (out: Outcome<()>)
        ensures
            match spec_ensure_signed(origin) {
                Err(e) => out.effects@.len() == 0 && out.result == Err::<(), DispatchError>(e) && final(self)@ == old(self)@,
                Ok(who) => {
                    let (effects, result, post) = spec_do_update(
                        old(self)@, Direction::Invest, who, investment_id, amount, preconditions_hold, info);
                    &&& effects_model(out.effects@) == effects
                    &&& out.result == result
                    &&& final(self)@ == post
                },
            },
    {
        match crate::dispatch::ensure_signed(origin) {
            Err(e) => Outcome { effects: Vec::new(), result: Err(e) },
            Ok(who) => self.do_update(Direction::Invest, who, investment_id, amount, preconditions_hold, info),
        }
    }

    /// `update_redeem_order`: the signer sets its redeem order on
    /// `investment_id` to `amount`.
    pub fn update_redeem_order(
        &mut self,
        origin: Origin,
        investment_id: InvestmentId,
        amount: u128,
        preconditions_hold: bool,
        info: Result<InvestmentInfo, DispatchError>,
    ) -> (out: Outcome<()>)
        ensures
            match spec_ensure_signed(origin) {
                Err(e) => out.effects@.len() == 0 && out.result == Err::<(), DispatchError>(e) && final(self)@ == old(self)@,
                Ok(who) => {
                    let (effects, result, post) = spec_do_update(
                        old(self)@, Direction::Redeem, who, investment_id, amount, preconditions_hold, info);
                    &&& effects_model(out.effects@) == effects
                    &&& out.result == result
                    &&& final(self)@ == post
                },
            },
    {
        match crate::dispatch::ensure_signed(origin) {
            Err(e) => Outcome { effects: Vec::new(), result: Err(e) },
            Ok(who) => self.do_update(Direction::Redeem, who, investment_id, amount, preconditions_hold, info),
        }
    }

    /// `Investment::investment`: the amount of the invest order of `who` on
    /// `investment_id`, zero where there is none.
    pub fn investment(&self, who: AccountId, investment_id: InvestmentId) -> (r: Result<u128, DispatchError>)
        ensures
            r == Ok::<u128, DispatchError>(match self@.invest.order_of(who, investment_id) {
                Some(o) => o.amount,
                None => 0,
            }),
    {
        match self.invest.order_of(who, investment_id) {
            Some(o) => Ok(o.amount),
            None => Ok(0),
        }
    }

    /// `Investment::redemption`: the amount of the redeem order of `who` on
    /// `investment_id`, zero where there is none.
    pub fn redemption(&self, who: AccountId, investment_id: InvestmentId) -> (r: Result<u128, DispatchError>)
        ensures
            r == Ok::<u128, DispatchError>(match self@.redeem.order_of(who, investment_id) {
                Some(o) => o.amount,
                None => 0,
            }),
    {
        match self.redeem.order_of(who, investment_id) {
            Some(o) => Ok(o.amount),
            None => Ok(0),
        }
    }
}


/// The event of a total order taken into processing.
pub open spec fn in_processing_event(dir: Direction, inv: InvestmentId, order_id: OrderId, total: TotalOrder)
    -> EventModel
{
    match dir {
        Direction::Invest => EventModel::InvestOrderInProcessing { investment_id: inv, order_id, total_order: total },
        Direction::Redeem => EventModel::RedeemOrderInProcessing { investment_id: inv, order_id, total_order: total },
    }
}

/// Taking the active total order of `inv` into processing in one
/// direction: the effects, the total order taken, and the storage after it.
pub open spec fn spec_take_orders(p: PalletModel, dir: Direction, inv: InvestmentId)
    -> (Seq<EffectModel>, Result<TotalOrder, DispatchError>, PalletModel)
{
    let b = p.book(dir);
    let total = TotalOrder { amount: b.active_amount(inv) };
    let cur = b.current_order_id(inv);
    if b.in_processing.contains_key(inv) {
        (seq![], Err(pallet_error(Error::OrderInProcessing)), p)
    } else if cur == u64::MAX {
        (seq![], Err(arith(ArithmeticError::Overflow)), p)
    } else {
        (
            seq![EffectModel::Deposit(in_processing_event(dir, inv, cur, total))],
            Ok(total),
            p.with_book(dir, BookModel {
                in_processing: b.in_processing.insert(inv, total),
                active: b.active.insert(inv, TotalOrder { amount: 0 }),
                order_id: b.order_id.insert(inv, (cur + 1) as u64),
                ..b
            }),
        )
    }
}

/// Fulfilling the invest order of `inv` in processing with `f`, given
/// what the accountant answers for `inv`: the fulfilled part of the total,
/// in payment currency, goes to the payment account, and the investment
/// account is credited that part divided by the price in investment units;
/// the unfulfilled part goes back to the active total.
pub open spec fn spec_invest_fulfillment(
    p: PalletModel,
    inv: InvestmentId,
    f: FulfillmentWithPrice,
    info: Result<InvestmentInfo, DispatchError>,
) -> (Seq<EffectModel>, Result<(), DispatchError>, PalletModel) {
    let b = p.invest;
    if !b.in_processing.contains_key(inv) {
        (seq![], Err(pallet_error(Error::OrderNotInProcessing)), p)
    } else {
        let total = b.in_processing[inv].amount;
        let invest_amount = spec_mul_floor(f.of_amount.spec_parts(), total);
        let units = spec_mul_int(spec_reciprocal(f.price.inner) as u128, invest_amount as u128);
        let cur = b.current_order_id(inv);
        if total < invest_amount {
            (seq![], Err(arith(ArithmeticError::Underflow)), p)
        } else {
            let remaining = total - invest_amount;
            match info {
                Err(e) => (seq![], Err(e), p),
                Ok(info) => if f.price.inner == 0 {
                    (seq![], Err(pallet_error(Error::ZeroPricedInvestment)), p)
                } else if units > u128::MAX {
                    (seq![], Err(arith(ArithmeticError::Overflow)), p)
                } else if cur == 0 {
                    (seq![], Err(arith(ArithmeticError::Underflow)), p)
                } else if b.active_amount(inv) + remaining > u128::MAX {
                    (seq![], Err(arith(ArithmeticError::Overflow)), p)
                } else {
                    let order_id = (cur - 1) as u64;
                    (
                        seq![
                            EffectModel::TokensTransfer {
                                currency: info.payment_currency,
                                source: Party::InvestmentAccount(inv),
                                dest: Party::Account(info.payment_account),
                                amount: invest_amount as u128,
                            },
                            EffectModel::AccountantDeposit {
                                account: Party::InvestmentAccount(inv),
                                investment: info.id,
                                amount: units as u128,
                            },
                            EffectModel::Deposit(EventModel::InvestOrderCleared {
                                investment_id: inv,
                                order_id,
                                fulfillment: f,
                            }),
                        ],
                        Ok(()),
                        PalletModel {
                            invest: BookModel {
                                cleared: b.cleared.insert(pair_key(inv, order_id), f),
                                active: b.active.insert(inv, TotalOrder {
                                    amount: (b.active_amount(inv) + remaining) as u128,
                                }),
                                in_processing: b.in_processing.remove(inv),
                                ..b
                            },
                            ..p
                        },
                    )
                },
            }
        }
    }
}

/// Fulfilling the redeem order of `inv` in processing with `f`, given
/// what the accountant answers for `inv`: the fulfilled part of the total,
/// valued at the price in payment currency, comes from the payment account,
/// and the investment account is debited the investment units that value
/// buys back at the price; the unfulfilled units go back to the active total.
pub open spec fn spec_redeem_fulfillment(
    p: PalletModel,
    inv: InvestmentId,
    f: FulfillmentWithPrice,
    info: Result<InvestmentInfo, DispatchError>,
) -> (Seq<EffectModel>, Result<(), DispatchError>, PalletModel) {
    let b = p.redeem;
    if !b.in_processing.contains_key(inv) {
        (seq![], Err(pallet_error(Error::OrderNotInProcessing)), p)
    } else {
        let total = b.in_processing[inv].amount;
        let priced = spec_mul_int(f.price.inner, total);
        let redeem_amount = spec_mul_floor(f.of_amount.spec_parts(), priced as u128);
        let fulfilled_units = spec_mul_floor(f.of_amount.spec_parts(), total);
        let units = spec_mul_int(spec_reciprocal(f.price.inner) as u128, redeem_amount as u128);
        let cur = b.current_order_id(inv);
        if priced > u128::MAX {
            (seq![], Err(arith(ArithmeticError::Overflow)), p)
        } else if total < fulfilled_units {
            (seq![], Err(arith(ArithmeticError::Underflow)), p)
        } else {
            let remaining = total - fulfilled_units;
            match info {
                Err(e) => (seq![], Err(e), p),
                Ok(info) => if f.price.inner == 0 {
                    (seq![], Err(pallet_error(Error::ZeroPricedInvestment)), p)
                } else if units > u128::MAX {
                    (seq![], Err(arith(ArithmeticError::Overflow)), p)
                } else if cur == 0 {
                    (seq![], Err(arith(ArithmeticError::Underflow)), p)
                } else if b.active_amount(inv) + remaining > u128::MAX {
                    (seq![], Err(arith(ArithmeticError::Overflow)), p)
                } else {
                    let order_id = (cur - 1) as u64;
                    (
                        seq![
                            EffectModel::TokensTransfer {
                                currency: info.payment_currency,
                                source: Party::Account(info.payment_account),
                                dest: Party::InvestmentAccount(inv),
                                amount: redeem_amount as u128,
                            },
                            EffectModel::AccountantWithdraw {
                                account: Party::InvestmentAccount(inv),
                                investment: info.id,
                                amount: units as u128,
                            },
                            EffectModel::Deposit(EventModel::RedeemOrderCleared {
                                investment_id: inv,
                                order_id,
                                fulfillment: f,
                            }),
                        ],
                        Ok(()),
                        PalletModel {
                            redeem: BookModel {
                                cleared: b.cleared.insert(pair_key(inv, order_id), f),
                                active: b.active.insert(inv, TotalOrder {
                                    amount: (b.active_amount(inv) + remaining) as u128,
                                }),
                                in_processing: b.in_processing.remove(inv),
                                ..b
                            },
                            ..p
                        },
                    )
                },
            }
        }
    }
}

impl Book {
    /// Takes the active total order of `inv` into processing; returns the
    /// order id it was taken at and the total order.
    fn take_orders(&mut self, inv: InvestmentId) -> (r: Result<(OrderId, TotalOrder), DispatchError>)
        ensures
            ({
                let p = PalletModel { max_collects: 0, invest: old(self)@, redeem: old(self)@ };
                let (_, result, post) = spec_take_orders(p, Direction::Invest, inv);
                match result {
                    Ok(total) => r == Ok::<_, DispatchError>((old(self)@.current_order_id(inv), total))
                        && final(self)@ == post.invest,
                    Err(e) => r == Err::<(OrderId, TotalOrder), DispatchError>(e) && final(self)@ == old(self)@,
                }
            }),
    {
        if self.in_processing(inv).is_some() {
            return Err(DispatchError::Investments(Error::OrderInProcessing));
        }
        let total = TotalOrder { amount: self.active_amount(inv) };
        let cur = self.current_order_id(inv);
        let next = match cur.checked_add(1) {
            Some(n) => n,
            None => {
                return Err(DispatchError::Arithmetic(ArithmeticError::Overflow));
            },
        };
        self.set_in_processing(inv, total);
        self.set_active(inv, 0);
        self.set_order_id(inv, next);
        Ok((cur, total))
    }
}

impl Pallet {
    /// Takes the active total order of `inv` into processing in one
    /// direction.
    fn take_orders(&mut self, dir: Direction, inv: InvestmentId) -> (out: Outcome<TotalOrder>)
        ensures
            ({
                let (effects, result, post) = spec_take_orders(old(self)@, dir, inv);
                &&& effects_model(out.effects@) == effects
                &&& out.result == result
                &&& final(self)@ == post
            }),
    {
        let mut effects: Vec<Effect> = Vec::new();
        let taken = match dir {
            Direction::Invest => self.invest.take_orders(inv),
            Direction::Redeem => self.redeem.take_orders(inv),
        };
        match taken {
            Err(e) => Outcome { effects, result: Err(e) },
            Ok((order_id, total)) => {
                let event = match dir {
                    Direction::Invest => Event::InvestOrderInProcessing { investment_id: inv, order_id, total_order: total },
                    Direction::Redeem => Event::RedeemOrderInProcessing { investment_id: inv, order_id, total_order: total },
                };
                effects.push(Effect::Deposit(event));
                proof {
                    let (e, _, _) = spec_take_orders(old(self)@, dir, inv);
                    assert(effects_model(effects@) =~= e);
                }
                Outcome { effects, result: Ok(total) }
            },
        }
    }

    /// `OrderManager::invest_orders`: takes the active invest orders of
    /// `investment_id` into processing and returns their total.
    pub fn invest_orders(&mut self, investment_id: InvestmentId) -> (out: Outcome<TotalOrder>)
        ensures
            ({
                let (effects, result, post) = spec_take_orders(old(self)@, Direction::Invest, investment_id);
                &&& effects_model(out.effects@) == effects
                &&& out.result == result
                &&& final(self)@ == post
            }),
    {
        self.take_orders(Direction::Invest, investment_id)
    }

    /// `OrderManager::redeem_orders`: takes the active redeem orders of
    /// `investment_id` into processing and returns their total.
    pub fn redeem_orders(&mut self, investment_id: InvestmentId) -> (out: Outcome<TotalOrder>)
        ensures
            ({
                let (effects, result, post) = spec_take_orders(old(self)@, Direction::Redeem, investment_id);
                &&& effects_model(out.effects@) == effects
                &&& out.result == result
                &&& final(self)@ == post
            }),
    {
        self.take_orders(Direction::Redeem, investment_id)
    }

    /// `OrderManager::invest_fulfillment`: the invest orders of
    /// `investment_id` in processing were fulfilled as `fulfillment` says;
    /// `info` is what the runtime's accountant answers for `investment_id`.
    pub fn invest_fulfillment(
        &mut self,
        investment_id: InvestmentId,
        fulfillment: FulfillmentWithPrice,
        info: Result<InvestmentInfo, DispatchError>,
    ) -> (out: Outcome<()>)
        ensures
            ({
                let (effects, result, post) = spec_invest_fulfillment(old(self)@, investment_id, fulfillment, info);
                &&& effects_model(out.effects@) == effects
                &&& out.result == result
                &&& final(self)@ == post
            }),
    {
        let inv = investment_id;
        let mut effects: Vec<Effect> = Vec::new();
        let ghost g = spec_invest_fulfillment(old(self)@, inv, fulfillment, info);
        let orders = match self.invest.in_processing(inv) {
            Some(o) => o,
            None => {
                return Outcome { effects, result: Err(DispatchError::Investments(Error::OrderNotInProcessing)) };
            },
        };
        let invest_amount = fulfillment.of_amount.mul_floor(orders.amount);
        let remaining = match orders.amount.checked_sub(invest_amount) {
            Some(r) => r,
            None => {
                return Outcome { effects, result: Err(DispatchError::Arithmetic(ArithmeticError::Underflow)) };
            },
        };
        let info = match info {
            Ok(i) => i,
            Err(e) => {
                return Outcome { effects, result: Err(e) };
            },
        };
        let units = match fulfillment.price.reciprocal() {
            Some(r) => match r.checked_mul_int(invest_amount) {
                Some(u) => u,
                None => {
                    return Outcome { effects, result: Err(DispatchError::Arithmetic(ArithmeticError::Overflow)) };
                },
            },
            None => {
                return Outcome { effects, result: Err(DispatchError::Investments(Error::ZeroPricedInvestment)) };
            },
        };
        let order_id = match self.invest.current_order_id(inv).checked_sub(1) {
            Some(id) => id,
            None => {
                return Outcome { effects, result: Err(DispatchError::Arithmetic(ArithmeticError::Underflow)) };
            },
        };
        let active = match self.invest.active_amount(inv).checked_add(remaining) {
            Some(a) => a,
            None => {
                return Outcome { effects, result: Err(DispatchError::Arithmetic(ArithmeticError::Overflow)) };
            },
        };
        self.invest.set_cleared(inv, order_id, fulfillment);
        self.invest.set_active(inv, active);
        self.invest.clear_in_processing(inv);
        effects.push(Effect::TokensTransfer {
            currency: info.payment_currency,
            source: Party::InvestmentAccount(inv),
            dest: Party::Account(info.payment_account),
            amount: invest_amount,
        });
        effects.push(Effect::AccountantDeposit {
            account: Party::InvestmentAccount(inv),
            investment: info.id,
            amount: units,
        });
        effects.push(Effect::Deposit(Event::InvestOrderCleared { investment_id: inv, order_id, fulfillment }));
        assert(effects_model(effects@) =~= g.0);
        Outcome { effects, result: Ok(()) }
    }

    /// `OrderManager::redeem_fulfillment`: the redeem orders of
    /// `investment_id` in processing were fulfilled as `fulfillment` says;
    /// `info` is what the runtime's accountant answers for `investment_id`.
    pub fn redeem_fulfillment(
        &mut self,
        investment_id: InvestmentId,
        fulfillment: FulfillmentWithPrice,
        info: Result<InvestmentInfo, DispatchError>,
    ) -> (out: Outcome<()>)
        ensures
            ({
                let (effects, result, post) = spec_redeem_fulfillment(old(self)@, investment_id, fulfillment, info);
                &&& effects_model(out.effects@) == effects
                &&& out.result == result
                &&& final(self)@ == post
            }),
    {
        let inv = investment_id;
        let mut effects: Vec<Effect> = Vec::new();
        let ghost g = spec_redeem_fulfillment(old(self)@, inv, fulfillment, info);
        let orders = match self.redeem.in_processing(inv) {
            Some(o) => o,
            None => {
                return Outcome { effects, result: Err(DispatchError::Investments(Error::OrderNotInProcessing)) };
            },
        };
        let priced = match fulfillment.price.checked_mul_int(orders.amount) {
            Some(x) => x,
            None => {
                return Outcome { effects, result: Err(DispatchError::Arithmetic(ArithmeticError::Overflow)) };
            },
        };
        let redeem_amount = fulfillment.of_amount.mul_floor(priced);
        let fulfilled_units = fulfillment.of_amount.mul_floor(orders.amount);
        let remaining = match orders.amount.checked_sub(fulfilled_units) {
            Some(r) => r,
            None => {
                return Outcome { effects, result: Err(DispatchError::Arithmetic(ArithmeticError::Underflow)) };
            },
        };
        let info = match info {
            Ok(i) => i,
            Err(e) => {
                return Outcome { effects, result: Err(e) };
            },
        };
        let units = match fulfillment.price.reciprocal() {
            Some(r) => match r.checked_mul_int(redeem_amount) {
                Some(u) => u,
                None => {
                    return Outcome { effects, result: Err(DispatchError::Arithmetic(ArithmeticError::Overflow)) };
                },
            },
            None => {
                return Outcome { effects, result: Err(DispatchError::Investments(Error::ZeroPricedInvestment)) };
            },
        };
        let order_id = match self.redeem.current_order_id(inv).checked_sub(1) {
            Some(id) => id,
            None => {
                return Outcome { effects, result: Err(DispatchError::Arithmetic(ArithmeticError::Underflow)) };
            },
        };
        let active = match self.redeem.active_amount(inv).checked_add(remaining) {
            Some(a) => a,
            None => {
                return Outcome { effects, result: Err(DispatchError::Arithmetic(ArithmeticError::Overflow)) };
            },
        };
        self.redeem.set_cleared(inv, order_id, fulfillment);
        self.redeem.set_active(inv, active);
        self.redeem.clear_in_processing(inv);
        effects.push(Effect::TokensTransfer {
            currency: info.payment_currency,
            source: Party::Account(info.payment_account),
            dest: Party::InvestmentAccount(inv),
            amount: redeem_amount,
        });
        effects.push(Effect::AccountantWithdraw {
            account: Party::InvestmentAccount(inv),
            investment: info.id,
            amount: units,
        });
        effects.push(Effect::Deposit(Event::RedeemOrderCleared { investment_id: inv, order_id, fulfillment }));
        assert(effects_model(effects@) =~= g.0);
        Outcome { effects, result: Ok(()) }
    }
}

} // verus!
