//! The storage of one direction of the investments pallet: the invest
//! orders or the redeem orders of every investment.

use std::collections::HashMap;

use vstd::prelude::*;

use crate::dispatch::AccountId;
use crate::investments::types::{FulfillmentWithPrice, InvestmentId, Order, OrderId, TotalOrder};

verus! {

broadcast use vstd::std_specs::hash::group_hash_axioms;

/// The key of a double map from two 64-bit keys.
pub open spec fn pair_key(a: u64, b: u64) -> u128 {
    (a as int * 0x1_0000_0000_0000_0000int + b as int) as u128
}

/// Two pairs have the same key only if they are the same pair.
pub proof fn lemma_pair_key_injective(a1: u64, b1: u64, a2: u64, b2: u64)
    ensures
        pair_key(a1, b1) == pair_key(a2, b2) <==> (a1 == a2 && b1 == b2),
{
    assert(0 <= a1 as int * 0x1_0000_0000_0000_0000int + b1 as int <= u128::MAX);
    assert(0 <= a2 as int * 0x1_0000_0000_0000_0000int + b2 as int <= u128::MAX);
}

/// The key of a double map from two 64-bit keys.
pub fn make_pair_key(a: u64, b: u64) -> (r: u128)
    ensures
        r == pair_key(a, b),
{
    (a as u128) * 0x1_0000_0000_0000_0000u128 + (b as u128)
}

/// Which of the two order books of an investment.
#[derive(Clone, Copy, Debug, PartialEq, Eq)]
pub enum Direction {
    Invest,
    Redeem,
}

/// The storage of one direction, as maps.
pub struct BookModel {
    /// The current order id of each investment (absent: zero).
    pub order_id: Map<InvestmentId, OrderId>,
    /// The order of each account on each investment, by `pair_key(account, investment)`.
    pub orders: Map<u128, Order>,
    /// The active total order of each investment (absent: zero).
    pub active: Map<InvestmentId, TotalOrder>,
    /// The total order of each investment that is in processing.
    pub in_processing: Map<InvestmentId, TotalOrder>,
    /// The fulfillment of each cleared order, by `pair_key(investment, order id)`.
    pub cleared: Map<u128, FulfillmentWithPrice>,
}

impl BookModel {
    /// The current order id of an investment.
    pub open spec fn current_order_id(self, inv: InvestmentId) -> OrderId {
        if self.order_id.contains_key(inv) { self.order_id[inv] } else { 0 }
    }

    /// The active total amount of an investment.
    pub open spec fn active_amount(self, inv: InvestmentId) -> u128 {
        if self.active.contains_key(inv) { self.active[inv].amount } else { 0 }
    }

    /// The order of an account on an investment.
    pub open spec fn order_of(self, who: AccountId, inv: InvestmentId) -> Option<Order> {
        if self.orders.contains_key(pair_key(who, inv)) {
            Some(self.orders[pair_key(who, inv)])
        } else {
            None
        }
    }

    /// The fulfillment of a cleared order.
    pub open spec fn cleared_of(self, inv: InvestmentId, id: OrderId) -> Option<FulfillmentWithPrice> {
        if self.cleared.contains_key(pair_key(inv, id)) {
            Some(self.cleared[pair_key(inv, id)])
        } else {
            None
        }
    }
}

/// The storage of one direction.
#[derive(Clone, Debug)]
pub struct Book {
    order_id: HashMap<InvestmentId, OrderId>,
    orders: HashMap<u128, Order>,
    active: HashMap<InvestmentId, TotalOrder>,
    in_processing: HashMap<InvestmentId, TotalOrder>,
    cleared: HashMap<u128, FulfillmentWithPrice>,
}

impl View for Book {
    type V = BookModel;

    closed spec fn view(&self) -> BookModel {
        BookModel {
            order_id: self.order_id@,
            orders: self.orders@,
            active: self.active@,
            in_processing: self.in_processing@,
            cleared: self.cleared@,
        }
    }
}

impl Book {
    /// Empty storage.
    pub fn new() -> (r: Book)
        ensures
            r@.order_id == Map::<InvestmentId, OrderId>::empty(),
            r@.orders == Map::<u128, Order>::empty(),
            r@.active == Map::<InvestmentId, TotalOrder>::empty(),
            r@.in_processing == Map::<InvestmentId, TotalOrder>::empty(),
            r@.cleared == Map::<u128, FulfillmentWithPrice>::empty(),
    {
        Book {
            order_id: HashMap::new(),
            orders: HashMap::new(),
            active: HashMap::new(),
            in_processing: HashMap::new(),
            cleared: HashMap::new(),
        }
    }

    /// The current order id of an investment.
    pub fn current_order_id(&self, inv: InvestmentId) -> (r: OrderId)
        ensures
            r == self@.current_order_id(inv),
    {
        match self.order_id.get(&inv) {
            Some(id) => *id,
            None => 0,
        }
    }

    /// Sets the current order id of an investment.
    pub fn set_order_id(&mut self, inv: InvestmentId, id: OrderId)
        ensures
            final(self)@ == (BookModel { order_id: old(self)@.order_id.insert(inv, id), ..old(self)@ }),
    {
        self.order_id.insert(inv, id);
    }

    /// The active total amount of an investment.
    pub fn active_amount(&self, inv: InvestmentId) -> (r: u128)
        ensures
            r == self@.active_amount(inv),
    {
        match self.active.get(&inv) {
            Some(t) => t.amount,
            None => 0,
        }
    }

    /// Sets the active total amount of an investment.
    pub fn set_active(&mut self, inv: InvestmentId, amount: u128)
        ensures
            final(self)@ == (BookModel {
                active: old(self)@.active.insert(inv, TotalOrder { amount }),
                ..old(self)@
            }),
    {
        self.active.insert(inv, TotalOrder { amount });
    }

    /// The order of an account on an investment.
    pub fn order_of(&self, who: AccountId, inv: InvestmentId) -> (r: Option<Order>)
        ensures
            r == self@.order_of(who, inv),
    {
        let key = make_pair_key(who, inv);
        match self.orders.get(&key) {
            Some(o) => Some(*o),
            None => None,
        }
    }

    /// Sets the order of an account on an investment.
    pub fn set_order(&mut self, who: AccountId, inv: InvestmentId, order: Order)
        ensures
            final(self)@ == (BookModel {
                orders: old(self)@.orders.insert(pair_key(who, inv), order),
                ..old(self)@
            }),
    {
        let key = make_pair_key(who, inv);
        self.orders.insert(key, order);
    }

    /// The total order of an investment in processing.
    pub fn in_processing(&self, inv: InvestmentId) -> (r: Option<TotalOrder>)
        ensures
            r == (if self@.in_processing.contains_key(inv) {
                Some(self@.in_processing[inv])
            } else {
                None
            }),
    {
        match self.in_processing.get(&inv) {
            Some(t) => Some(*t),
            None => None,
        }
    }

    /// Puts a total order of an investment in processing.
    pub fn set_in_processing(&mut self, inv: InvestmentId, total: TotalOrder)
        ensures
            final(self)@ == (BookModel {
                in_processing: old(self)@.in_processing.insert(inv, total),
                ..old(self)@
            }),
    {
        self.in_processing.insert(inv, total);
    }

    /// Takes the total order of an investment out of processing.
    pub fn clear_in_processing(&mut self, inv: InvestmentId)
        ensures
            final(self)@ == (BookModel {
                in_processing: old(self)@.in_processing.remove(inv),
                ..old(self)@
            }),
    {
        self.in_processing.remove(&inv);
    }

    /// The fulfillment of a cleared order.
    pub fn cleared_of(&self, inv: InvestmentId, id: OrderId) -> (r: Option<FulfillmentWithPrice>)
        ensures
            r == self@.cleared_of(inv, id),
    {
        let key = make_pair_key(inv, id);
        match self.cleared.get(&key) {
            Some(f) => Some(*f),
            None => None,
        }
    }

    /// Records the fulfillment of a cleared order.
    pub fn set_cleared(&mut self, inv: InvestmentId, id: OrderId, f: FulfillmentWithPrice)
        ensures
            final(self)@ == (BookModel {
                cleared: old(self)@.cleared.insert(pair_key(inv, id), f),
                ..old(self)@
            }),
    {
        let key = make_pair_key(inv, id);
        self.cleared.insert(key, f);
    }
}

} // verus!
