//! The values that the investments pallet stores, receives and emits.

use vstd::prelude::*;

use crate::arith::{FixedU128, Perquintill};
use crate::dispatch::AccountId;

verus! {

/// Identifies an investment (a tranche of a pool).
pub type InvestmentId = u64;

/// Numbers the successive orders of an investment.
pub type OrderId = u64;

/// Identifies a currency of the runtime.
pub type CurrencyId = u32;

/// One account's order: its amount, and the order id of the investment at
/// which it was last updated or collected.
#[derive(Clone, Copy, Debug, PartialEq, Eq)]
pub struct Order {
    pub amount: u128,
    pub submitted_at: OrderId,
}

/// The sum of the orders of an investment.
#[derive(Clone, Copy, Debug, PartialEq, Eq)]
pub struct TotalOrder {
    pub amount: u128,
}

/// How much of a processed total order was fulfilled, and at which price.
#[derive(Clone, Copy, Debug, PartialEq, Eq)]
pub struct FulfillmentWithPrice {
    pub of_amount: Perquintill,
    pub price: FixedU128,
}

/// What a collect of invest orders yields.
#[derive(Clone, Copy, Debug, PartialEq, Eq)]
pub struct InvestCollection {
    /// The payout, in the investment's units.
    pub payout_investment_invest: u128,
    /// The investment left unfulfilled, in the payment currency.
    pub remaining_investment_invest: u128,
}

impl Default for InvestCollection {
    fn default() -> (r: Self)
        ensures
            r.payout_investment_invest == 0,
            r.remaining_investment_invest == 0,
    {
        InvestCollection { payout_investment_invest: 0, remaining_investment_invest: 0 }
    }
}

/// What a collect of redeem orders yields.
#[derive(Clone, Copy, Debug, PartialEq, Eq)]
pub struct RedeemCollection {
    /// The payout, in the payment currency.
    pub payout_investment_redeem: u128,
    /// The redemption left unfulfilled, in the investment's units.
    pub remaining_investment_redeem: u128,
}

impl Default for RedeemCollection {
    fn default() -> (r: Self)
        ensures
            r.payout_investment_redeem == 0,
            r.remaining_investment_redeem == 0,
    {
        RedeemCollection { payout_investment_redeem: 0, remaining_investment_redeem: 0 }
    }
}

/// The order that the runtime's pre-conditions are asked about.
#[derive(Clone, Copy, Debug, PartialEq, Eq)]
pub enum OrderType {
    Investment { who: AccountId, investment_id: InvestmentId, amount: u128 },
    Redemption { who: AccountId, investment_id: InvestmentId, amount: u128 },
}

/// Whether a collect reached the current order of the investment.
#[derive(Clone, Copy, Debug, PartialEq, Eq)]
pub enum CollectOutcome {
    FullyCollected,
    PartiallyCollected,
}

/// How unfulfilled orders are treated on collect.
#[derive(Clone, Copy, Debug, PartialEq, Eq)]
pub enum CollectType {
    /// Unfulfilled orders are returned to the user.
    Closing,
    /// Unfulfilled orders are appended to the current active order.
    Overflowing,
}

/// What the runtime's accountant knows of an investment.
#[derive(Clone, Copy, Debug, PartialEq, Eq)]
pub struct InvestmentInfo {
    /// The investment's id in the accountant's books.
    pub id: InvestmentId,
    /// The currency in which the investment is paid.
    pub payment_currency: CurrencyId,
    /// The account that receives the payments.
    pub payment_account: AccountId,
}

/// A party of a transfer: an account, or the account that holds the funds
/// of an investment's orders.
#[derive(Clone, Copy, Debug, PartialEq, Eq)]
pub enum Party {
    Account(AccountId),
    InvestmentAccount(InvestmentId),
}

/// The errors of the investments pallet.
#[derive(Clone, Copy, Debug, PartialEq, Eq)]
pub enum Error {
    /// The order has not been cleared: it is either active or in processing.
    OrderNotCleared,
    /// The accountant does not know the investment.
    UnknownInvestment,
    /// The account has orders to collect before it may order again.
    CollectRequired,
    /// A fulfillment came with a price of zero.
    ZeroPricedInvestment,
    /// No order of the investment is in processing.
    OrderNotInProcessing,
    /// An order of the investment is still in processing.
    OrderInProcessing,
    /// The update does not change the order.
    NoNewOrder,
    /// The account has no invest order to collect.
    NoActiveInvestOrder,
    /// The account has no redeem order to collect.
    NoActiveRedeemOrder,
}

/// The events of the investments pallet.
#[derive(Clone, Debug, PartialEq, Eq)]
pub enum Event {
    InvestOrdersCollected {
        investment_id: InvestmentId,
        who: AccountId,
        processed_orders: Vec<OrderId>,
        collection: InvestCollection,
        outcome: CollectOutcome,
    },
    RedeemOrdersCollected {
        investment_id: InvestmentId,
        who: AccountId,
        processed_orders: Vec<OrderId>,
        collection: RedeemCollection,
        outcome: CollectOutcome,
    },
    InvestOrderUpdated {
        investment_id: InvestmentId,
        submitted_at: OrderId,
        who: AccountId,
        amount: u128,
    },
    RedeemOrderUpdated {
        investment_id: InvestmentId,
        submitted_at: OrderId,
        who: AccountId,
        amount: u128,
    },
    InvestOrderCleared {
        investment_id: InvestmentId,
        order_id: OrderId,
        fulfillment: FulfillmentWithPrice,
    },
    RedeemOrderCleared {
        investment_id: InvestmentId,
        order_id: OrderId,
        fulfillment: FulfillmentWithPrice,
    },
    InvestOrderInProcessing {
        investment_id: InvestmentId,
        order_id: OrderId,
        total_order: TotalOrder,
    },
    RedeemOrderInProcessing {
        investment_id: InvestmentId,
        order_id: OrderId,
        total_order: TotalOrder,
    },
}

/// An event, with the processed orders as a sequence.
pub enum EventModel {
    InvestOrdersCollected {
        investment_id: InvestmentId,
        who: AccountId,
        processed_orders: Seq<OrderId>,
        collection: InvestCollection,
        outcome: CollectOutcome,
    },
    RedeemOrdersCollected {
        investment_id: InvestmentId,
        who: AccountId,
        processed_orders: Seq<OrderId>,
        collection: RedeemCollection,
        outcome: CollectOutcome,
    },
    InvestOrderUpdated {
        investment_id: InvestmentId,
        submitted_at: OrderId,
        who: AccountId,
        amount: u128,
    },
    RedeemOrderUpdated {
        investment_id: InvestmentId,
        submitted_at: OrderId,
        who: AccountId,
        amount: u128,
    },
    InvestOrderCleared {
        investment_id: InvestmentId,
        order_id: OrderId,
        fulfillment: FulfillmentWithPrice,
    },
    RedeemOrderCleared {
        investment_id: InvestmentId,
        order_id: OrderId,
        fulfillment: FulfillmentWithPrice,
    },
    InvestOrderInProcessing {
        investment_id: InvestmentId,
        order_id: OrderId,
        total_order: TotalOrder,
    },
    RedeemOrderInProcessing {
        investment_id: InvestmentId,
        order_id: OrderId,
        total_order: TotalOrder,
    },
}

impl View for Event {
    type V = EventModel;

    open spec fn view(&self) -> EventModel {
        match self {
            Event::InvestOrdersCollected { investment_id, who, processed_orders, collection, outcome } =>
                EventModel::InvestOrdersCollected {
                    investment_id: *investment_id,
                    who: *who,
                    processed_orders: processed_orders@,
                    collection: *collection,
                    outcome: *outcome,
                },
            Event::RedeemOrdersCollected { investment_id, who, processed_orders, collection, outcome } =>
                EventModel::RedeemOrdersCollected {
                    investment_id: *investment_id,
                    who: *who,
                    processed_orders: processed_orders@,
                    collection: *collection,
                    outcome: *outcome,
                },
            Event::InvestOrderUpdated { investment_id, submitted_at, who, amount } =>
                EventModel::InvestOrderUpdated {
                    investment_id: *investment_id,
                    submitted_at: *submitted_at,
                    who: *who,
                    amount: *amount,
                },
            Event::RedeemOrderUpdated { investment_id, submitted_at, who, amount } =>
                EventModel::RedeemOrderUpdated {
                    investment_id: *investment_id,
                    submitted_at: *submitted_at,
                    who: *who,
                    amount: *amount,
                },
            Event::InvestOrderCleared { investment_id, order_id, fulfillment } =>
                EventModel::InvestOrderCleared {
                    investment_id: *investment_id,
                    order_id: *order_id,
                    fulfillment: *fulfillment,
                },
            Event::RedeemOrderCleared { investment_id, order_id, fulfillment } =>
                EventModel::RedeemOrderCleared {
                    investment_id: *investment_id,
                    order_id: *order_id,
                    fulfillment: *fulfillment,
                },
            Event::InvestOrderInProcessing { investment_id, order_id, total_order } =>
                EventModel::InvestOrderInProcessing {
                    investment_id: *investment_id,
                    order_id: *order_id,
                    total_order: *total_order,
                },
            Event::RedeemOrderInProcessing { investment_id, order_id, total_order } =>
                EventModel::RedeemOrderInProcessing {
                    investment_id: *investment_id,
                    order_id: *order_id,
                    total_order: *total_order,
                },
        }
    }
}

/// What the pallet asks the runtime to do, in order. The runtime performs
/// the effects of a call one after the other; the first that fails fails
/// the call, and a failed call leaves no trace.
#[derive(Clone, Debug, PartialEq, Eq)]
pub enum Effect {
    /// Move `amount` of `currency` from `source` to `dest`.
    TokensTransfer { currency: CurrencyId, source: Party, dest: Party, amount: u128 },
    /// Move `amount` units of the accountant's `investment` from `source` to `dest`.
    AccountantTransfer { investment: InvestmentId, source: Party, dest: Party, amount: u128 },
    /// Create `amount` units of the accountant's `investment` for `account`.
    AccountantDeposit { account: Party, investment: InvestmentId, amount: u128 },
    /// Destroy `amount` units of the accountant's `investment` of `account`.
    AccountantWithdraw { account: Party, investment: InvestmentId, amount: u128 },
    /// Deposit an event.
    Deposit(Event),
}

/// An effect, with the processed orders of an event as a sequence.
pub enum EffectModel {
    TokensTransfer { currency: CurrencyId, source: Party, dest: Party, amount: u128 },
    AccountantTransfer { investment: InvestmentId, source: Party, dest: Party, amount: u128 },
    AccountantDeposit { account: Party, investment: InvestmentId, amount: u128 },
    AccountantWithdraw { account: Party, investment: InvestmentId, amount: u128 },
    Deposit(EventModel),
}

impl View for Effect {
    type V = EffectModel;

    open spec fn view(&self) -> EffectModel {
        match self {
            Effect::TokensTransfer { currency, source, dest, amount } =>
                EffectModel::TokensTransfer { currency: *currency, source: *source, dest: *dest, amount: *amount },
            Effect::AccountantTransfer { investment, source, dest, amount } =>
                EffectModel::AccountantTransfer { investment: *investment, source: *source, dest: *dest, amount: *amount },
            Effect::AccountantDeposit { account, investment, amount } =>
                EffectModel::AccountantDeposit { account: *account, investment: *investment, amount: *amount },
            Effect::AccountantWithdraw { account, investment, amount } =>
                EffectModel::AccountantWithdraw { account: *account, investment: *investment, amount: *amount },
            Effect::Deposit(e) => EffectModel::Deposit(e@),
        }
    }
}

/// The effects of a list, as models.
pub open spec fn effects_model(effects: Seq<Effect>) -> Seq<EffectModel> {
    effects.map_values(|e: Effect| e@)
}

/// The effects that a call asks for, and its result once they succeed.
pub struct Outcome<T> {
    pub effects: Vec<Effect>,
    pub result: Result<T, crate::dispatch::DispatchError>,
}

} // verus!
