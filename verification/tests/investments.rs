use centrifuge_pallets::arith::{FixedU128, Perquintill};
use centrifuge_pallets::dispatch::{ArithmeticError, DispatchError, Origin};
use centrifuge_pallets::investments::pallet::Pallet;
use centrifuge_pallets::investments::types::{
    CollectOutcome, Effect, Error, Event, FulfillmentWithPrice, InvestCollection, InvestmentInfo,
    Order, Party, RedeemCollection, TotalOrder,
};

const INVESTOR: u64 = 1;
const OTHER: u64 = 2;
const INVESTMENT: u64 = 7;
const PAYMENT_ACCOUNT: u64 = 99;
const CURRENCY: u32 = 3;
const ONE: u128 = 1_000_000_000_000_000_000;
const HALF: u64 = 500_000_000_000_000_000;

fn info() -> Result<InvestmentInfo, DispatchError> {
    Ok(InvestmentInfo { id: INVESTMENT, payment_currency: CURRENCY, payment_account: PAYMENT_ACCOUNT })
}

fn fulfillment(parts: u64, price: u128) -> FulfillmentWithPrice {
    FulfillmentWithPrice { of_amount: Perquintill::from_parts(parts), price: FixedU128::from_inner(price) }
}

#[test]
fn fixed_point_wrappers_compute() {
    assert_eq!(Perquintill::from_parts(HALF).mul_floor(101), 50);
    assert_eq!(Perquintill::from_parts(u64::MAX).deconstruct(), 1_000_000_000_000_000_000);
    assert_eq!(Perquintill::from_parts(1_000_000_000_000_000_000).mul_floor(u128::MAX), u128::MAX);
    assert_eq!(FixedU128::from_inner(2 * ONE).reciprocal(), Some(FixedU128::from_inner(ONE / 2)));
    assert_eq!(FixedU128::from_inner(3 * ONE).reciprocal(), Some(FixedU128::from_inner(333_333_333_333_333_333)));
    assert_eq!(FixedU128::from_inner(0).reciprocal(), None);
    assert_eq!(FixedU128::from_inner(ONE + ONE / 2).checked_mul_int(10), Some(15));
    assert_eq!(FixedU128::from_inner(ONE / 3).checked_mul_int(10), Some(3));
    assert_eq!(FixedU128::from_inner(2 * ONE).checked_mul_int(u128::MAX), None);
}

#[test]
fn update_investment_moves_the_difference() {
    let mut p = Pallet::new(10);
    let out = p.update_investment(INVESTOR, INVESTMENT, 100, true, info());
    assert_eq!(out.result, Ok(()));
    assert_eq!(
        out.effects,
        vec![
            Effect::TokensTransfer {
                currency: CURRENCY,
                source: Party::Account(INVESTOR),
                dest: Party::InvestmentAccount(INVESTMENT),
                amount: 100,
            },
            Effect::Deposit(Event::InvestOrderUpdated { investment_id: INVESTMENT, submitted_at: 0, who: INVESTOR, amount: 100 }),
        ]
    );
    assert_eq!(p.investment(INVESTOR, INVESTMENT), Ok(100));
    let out = p.update_investment(INVESTOR, INVESTMENT, 40, true, info());
    assert_eq!(out.result, Ok(()));
    assert_eq!(
        out.effects[0],
        Effect::TokensTransfer {
            currency: CURRENCY,
            source: Party::InvestmentAccount(INVESTMENT),
            dest: Party::Account(INVESTOR),
            amount: 60,
        }
    );
    assert_eq!(p.investment(INVESTOR, INVESTMENT), Ok(40));
    assert_eq!(p.investment(OTHER, INVESTMENT), Ok(0));
}

#[test]
fn update_redemption_moves_investment_units() {
    let mut p = Pallet::new(10);
    let out = p.update_redeem_order(Origin::Signed(INVESTOR), INVESTMENT, 30, true, info());
    assert_eq!(out.result, Ok(()));
    assert_eq!(
        out.effects[0],
        Effect::AccountantTransfer {
            investment: INVESTMENT,
            source: Party::Account(INVESTOR),
            dest: Party::InvestmentAccount(INVESTMENT),
            amount: 30,
        }
    );
    assert_eq!(p.redemption(INVESTOR, INVESTMENT), Ok(30));
    assert_eq!(p.investment(INVESTOR, INVESTMENT), Ok(0));
}

#[test]
fn update_refusals() {
    let mut p = Pallet::new(10);
    assert_eq!(p.update_investment(INVESTOR, INVESTMENT, 100, false, info()).result, Err(DispatchError::BadOrigin));
    assert_eq!(
        p.update_investment(INVESTOR, INVESTMENT, 100, true, Err(DispatchError::Runtime(1))).result,
        Err(DispatchError::Investments(Error::UnknownInvestment))
    );
    assert_eq!(
        p.update_investment(INVESTOR, INVESTMENT, 0, true, info()).result,
        Err(DispatchError::Investments(Error::NoNewOrder))
    );
    assert_eq!(
        p.update_invest_order(Origin::Unsigned, INVESTMENT, 10, true, info()).result,
        Err(DispatchError::BadOrigin)
    );
    assert_eq!(p.update_investment(INVESTOR, INVESTMENT, u128::MAX, true, info()).result, Ok(()));
    assert_eq!(
        p.update_investment(OTHER, INVESTMENT, 1, true, info()).result,
        Err(DispatchError::Arithmetic(ArithmeticError::Overflow))
    );
    assert_eq!(p.investment(OTHER, INVESTMENT), Ok(0));
}

#[test]
fn orders_go_into_processing_once() {
    let mut p = Pallet::new(10);
    assert!(p.update_investment(INVESTOR, INVESTMENT, 100, true, info()).result.is_ok());
    assert!(p.update_investment(OTHER, INVESTMENT, 50, true, info()).result.is_ok());
    let out = p.invest_orders(INVESTMENT);
    assert_eq!(out.result, Ok(TotalOrder { amount: 150 }));
    assert_eq!(
        out.effects,
        vec![Effect::Deposit(Event::InvestOrderInProcessing {
            investment_id: INVESTMENT,
            order_id: 0,
            total_order: TotalOrder { amount: 150 },
        })]
    );
    assert_eq!(p.invest_orders(INVESTMENT).result, Err(DispatchError::Investments(Error::OrderInProcessing)));
    assert_eq!(
        p.update_investment(INVESTOR, INVESTMENT, 120, true, info()).result,
        Err(DispatchError::Investments(Error::CollectRequired))
    );
    assert_eq!(p.redeem_orders(INVESTMENT).result, Ok(TotalOrder { amount: 0 }));
}

#[test]
fn invest_fulfillment_clears_the_order() {
    let mut p = Pallet::new(10);
    assert!(p.update_investment(INVESTOR, INVESTMENT, 100, true, info()).result.is_ok());
    assert!(p.invest_orders(INVESTMENT).result.is_ok());
    let f = fulfillment(HALF, 2 * ONE);
    let out = p.invest_fulfillment(INVESTMENT, f, info());
    assert_eq!(out.result, Ok(()));
    assert_eq!(
        out.effects,
        vec![
            Effect::TokensTransfer {
                currency: CURRENCY,
                source: Party::InvestmentAccount(INVESTMENT),
                dest: Party::Account(PAYMENT_ACCOUNT),
                amount: 50,
            },
            Effect::AccountantDeposit { account: Party::InvestmentAccount(INVESTMENT), investment: INVESTMENT, amount: 25 },
            Effect::Deposit(Event::InvestOrderCleared { investment_id: INVESTMENT, order_id: 0, fulfillment: f }),
        ]
    );
    assert_eq!(
        p.invest_fulfillment(INVESTMENT, f, info()).result,
        Err(DispatchError::Investments(Error::OrderNotInProcessing))
    );
    // The unfulfilled 50 went back to the active order.
    assert_eq!(p.invest_orders(INVESTMENT).result, Ok(TotalOrder { amount: 50 }));
}

#[test]
fn fulfillment_refusals() {
    let mut p = Pallet::new(10);
    assert!(p.update_investment(INVESTOR, INVESTMENT, 100, true, info()).result.is_ok());
    assert!(p.invest_orders(INVESTMENT).result.is_ok());
    assert_eq!(
        p.invest_fulfillment(INVESTMENT, fulfillment(HALF, 2 * ONE), Err(DispatchError::Runtime(5))).result,
        Err(DispatchError::Runtime(5))
    );
    let out = p.invest_fulfillment(INVESTMENT, fulfillment(HALF, 0), info());
    assert_eq!(out.result, Err(DispatchError::Investments(Error::ZeroPricedInvestment)));
    assert!(out.effects.is_empty());
    assert!(p.update_redemption(INVESTOR, INVESTMENT, 10, true, info()).result.is_ok());
    assert!(p.redeem_orders(INVESTMENT).result.is_ok());
    let out = p.redeem_fulfillment(INVESTMENT, fulfillment(HALF, 0), info());
    assert_eq!(out.result, Err(DispatchError::Investments(Error::ZeroPricedInvestment)));
    assert!(out.effects.is_empty());
    let out = p.redeem_fulfillment(INVESTMENT, fulfillment(HALF, 3 * ONE), Err(DispatchError::Runtime(4)));
    assert_eq!(out.result, Err(DispatchError::Runtime(4)));
    assert!(out.effects.is_empty());
    // Refused fulfillments leave the orders in processing.
    let out = p.redeem_fulfillment(INVESTMENT, fulfillment(HALF, 3 * ONE), info());
    assert_eq!(out.result, Ok(()));
    // 10 units at 3 are worth 30; half of it, 15, is paid; the 15 buy back
    // 4 units at the rounded-down reciprocal of the price.
    assert_eq!(
        out.effects[1],
        Effect::AccountantWithdraw { account: Party::InvestmentAccount(INVESTMENT), investment: INVESTMENT, amount: 4 }
    );
    assert_eq!(p.redeem_orders(INVESTMENT).result, Ok(TotalOrder { amount: 5 }));
}

#[test]
fn redeem_fulfillment_requeues_the_unfulfilled_units() {
    let mut p = Pallet::new(10);
    assert!(p.update_redemption(INVESTOR, INVESTMENT, 100, true, info()).result.is_ok());
    assert!(p.redeem_orders(INVESTMENT).result.is_ok());
    let f = fulfillment(HALF, 2 * ONE);
    let out = p.redeem_fulfillment(INVESTMENT, f, info());
    assert_eq!(out.result, Ok(()));
    assert_eq!(
        out.effects,
        vec![
            Effect::TokensTransfer {
                currency: CURRENCY,
                source: Party::Account(PAYMENT_ACCOUNT),
                dest: Party::InvestmentAccount(INVESTMENT),
                amount: 100,
            },
            Effect::AccountantWithdraw { account: Party::InvestmentAccount(INVESTMENT), investment: INVESTMENT, amount: 50 },
            Effect::Deposit(Event::RedeemOrderCleared { investment_id: INVESTMENT, order_id: 0, fulfillment: f }),
        ]
    );
    assert_eq!(p.redeem_orders(INVESTMENT).result, Ok(TotalOrder { amount: 50 }));
}

#[test]
fn redeem_fulfillment_values_at_the_price() {
    let mut p = Pallet::new(10);
    assert!(p.update_redemption(INVESTOR, INVESTMENT, 100, true, info()).result.is_ok());
    assert!(p.redeem_orders(INVESTMENT).result.is_ok());
    let f = fulfillment(HALF, ONE / 2);
    let out = p.redeem_fulfillment(INVESTMENT, f, info());
    assert_eq!(out.result, Ok(()));
    assert_eq!(
        out.effects,
        vec![
            Effect::TokensTransfer {
                currency: CURRENCY,
                source: Party::Account(PAYMENT_ACCOUNT),
                dest: Party::InvestmentAccount(INVESTMENT),
                amount: 25,
            },
            Effect::AccountantWithdraw { account: Party::InvestmentAccount(INVESTMENT), investment: INVESTMENT, amount: 50 },
            Effect::Deposit(Event::RedeemOrderCleared { investment_id: INVESTMENT, order_id: 0, fulfillment: f }),
        ]
    );
    // Half of the 100 units are redeemed; the other 50 go back to the active order.
    assert_eq!(p.redeem_orders(INVESTMENT).result, Ok(TotalOrder { amount: 50 }));
}

#[test]
fn collect_of_an_unfulfilled_round() {
    let mut p = Pallet::new(10);
    assert!(p.update_investment(INVESTOR, INVESTMENT, 100, true, info()).result.is_ok());
    assert!(p.invest_orders(INVESTMENT).result.is_ok());
    assert_eq!(
        p.collect_invest(Origin::Signed(INVESTOR), INVESTMENT, info()).result,
        Err(DispatchError::Investments(Error::OrderNotCleared))
    );
    assert!(p.invest_fulfillment(INVESTMENT, fulfillment(0, ONE), info()).result.is_ok());
    let out = p.collect_invest(Origin::Signed(INVESTOR), INVESTMENT, info());
    assert_eq!(out.result, Ok(()));
    assert_eq!(
        out.effects,
        vec![
            Effect::AccountantTransfer {
                investment: INVESTMENT,
                source: Party::InvestmentAccount(INVESTMENT),
                dest: Party::Account(INVESTOR),
                amount: 0,
            },
            Effect::Deposit(Event::InvestOrderUpdated {
                investment_id: INVESTMENT,
                submitted_at: 1,
                who: INVESTOR,
                amount: 100,
            }),
            Effect::Deposit(Event::InvestOrdersCollected {
                investment_id: INVESTMENT,
                who: INVESTOR,
                processed_orders: vec![0],
                collection: InvestCollection { payout_investment_invest: 0, remaining_investment_invest: 100 },
                outcome: CollectOutcome::FullyCollected,
            }),
        ]
    );
    // The unfulfilled 100 stay in the order, which may be updated again.
    assert_eq!(p.investment(INVESTOR, INVESTMENT), Ok(100));
    assert!(p.update_investment(INVESTOR, INVESTMENT, 120, true, info()).result.is_ok());
    assert_eq!(p.investment(INVESTOR, INVESTMENT), Ok(120));
    assert_eq!(p.invest_orders(INVESTMENT).result, Ok(TotalOrder { amount: 120 }));
}

#[test]
fn redeem_collect_counts_redeem_orders() {
    let mut p = Pallet::new(10);
    assert!(p.update_redemption(INVESTOR, INVESTMENT, 100, true, info()).result.is_ok());
    assert!(p.redeem_orders(INVESTMENT).result.is_ok());
    assert!(p.redeem_fulfillment(INVESTMENT, fulfillment(0, ONE), info()).result.is_ok());
    let out = p.collect_redeem(Origin::Signed(INVESTOR), INVESTMENT, info());
    assert_eq!(out.result, Ok(()));
    assert_eq!(
        out.effects,
        vec![
            Effect::TokensTransfer {
                currency: CURRENCY,
                source: Party::InvestmentAccount(INVESTMENT),
                dest: Party::Account(INVESTOR),
                amount: 0,
            },
            Effect::Deposit(Event::RedeemOrderUpdated {
                investment_id: INVESTMENT,
                submitted_at: 1,
                who: INVESTOR,
                amount: 100,
            }),
            Effect::Deposit(Event::RedeemOrdersCollected {
                investment_id: INVESTMENT,
                who: INVESTOR,
                processed_orders: vec![0],
                collection: RedeemCollection { payout_investment_redeem: 0, remaining_investment_redeem: 100 },
                outcome: CollectOutcome::FullyCollected,
            }),
        ]
    );
    assert_eq!(p.redemption(INVESTOR, INVESTMENT), Ok(100));
    // The order now counts from order id 1, the current one: it may be updated.
    assert!(p.update_redemption(INVESTOR, INVESTMENT, 90, true, info()).result.is_ok());
}

#[test]
fn collect_stops_at_max_collects() {
    let mut p = Pallet::new(1);
    assert!(p.update_investment(INVESTOR, INVESTMENT, 100, true, info()).result.is_ok());
    for _ in 0..2 {
        assert!(p.invest_orders(INVESTMENT).result.is_ok());
        assert!(p.invest_fulfillment(INVESTMENT, fulfillment(0, ONE), info()).result.is_ok());
    }
    let out = p.collect_invest_for(Origin::Signed(OTHER), INVESTOR, INVESTMENT, info());
    assert_eq!(out.result, Ok(()));
    assert_eq!(
        out.effects[2],
        Effect::Deposit(Event::InvestOrdersCollected {
            investment_id: INVESTMENT,
            who: INVESTOR,
            processed_orders: vec![0],
            collection: InvestCollection { payout_investment_invest: 0, remaining_investment_invest: 100 },
            outcome: CollectOutcome::PartiallyCollected,
        })
    );
    assert_eq!(
        p.update_investment(INVESTOR, INVESTMENT, 120, true, info()).result,
        Err(DispatchError::Investments(Error::CollectRequired))
    );
    // The second collect reaches the current order and, as a closing
    // collect, pays the unfulfilled 100 back.
    let out = p.collect_invest_for(Origin::Signed(OTHER), INVESTOR, INVESTMENT, info());
    assert_eq!(out.result, Ok(()));
    assert_eq!(
        out.effects[1],
        Effect::TokensTransfer {
            currency: CURRENCY,
            source: Party::InvestmentAccount(INVESTMENT),
            dest: Party::Account(INVESTOR),
            amount: 100,
        }
    );
    assert_eq!(p.investment(INVESTOR, INVESTMENT), Ok(0));
}

#[test]
fn collect_of_a_fulfilled_order_takes_it_off_the_remainder() {
    let mut p = Pallet::new(10);
    assert!(p.update_investment(INVESTOR, INVESTMENT, 100, true, info()).result.is_ok());
    assert!(p.invest_orders(INVESTMENT).result.is_ok());
    assert!(p.invest_fulfillment(INVESTMENT, fulfillment(HALF, 2 * ONE), info()).result.is_ok());
    let out = p.collect_invest(Origin::Signed(INVESTOR), INVESTMENT, info());
    assert_eq!(out.result, Ok(()));
    assert_eq!(
        out.effects,
        vec![
            Effect::AccountantTransfer {
                investment: INVESTMENT,
                source: Party::InvestmentAccount(INVESTMENT),
                dest: Party::Account(INVESTOR),
                amount: 25,
            },
            Effect::Deposit(Event::InvestOrderUpdated {
                investment_id: INVESTMENT,
                submitted_at: 1,
                who: INVESTOR,
                amount: 50,
            }),
            Effect::Deposit(Event::InvestOrdersCollected {
                investment_id: INVESTMENT,
                who: INVESTOR,
                processed_orders: vec![0],
                collection: InvestCollection { payout_investment_invest: 25, remaining_investment_invest: 50 },
                outcome: CollectOutcome::FullyCollected,
            }),
        ]
    );
    assert_eq!(p.investment(INVESTOR, INVESTMENT), Ok(50));
    // The 50 take part in the next round: half of them are fulfilled there.
    assert!(p.invest_orders(INVESTMENT).result.is_ok());
    assert!(p.invest_fulfillment(INVESTMENT, fulfillment(HALF, 2 * ONE), info()).result.is_ok());
    let out = p.collect_invest(Origin::Signed(INVESTOR), INVESTMENT, info());
    assert_eq!(out.result, Ok(()));
    assert_eq!(
        out.effects[2],
        Effect::Deposit(Event::InvestOrdersCollected {
            investment_id: INVESTMENT,
            who: INVESTOR,
            processed_orders: vec![1],
            collection: InvestCollection { payout_investment_invest: 12, remaining_investment_invest: 25 },
            outcome: CollectOutcome::FullyCollected,
        })
    );
}

#[test]
fn closing_collect_pays_the_rest_back() {
    let mut p = Pallet::new(10);
    assert!(p.update_investment(INVESTOR, INVESTMENT, 100, true, info()).result.is_ok());
    assert!(p.invest_orders(INVESTMENT).result.is_ok());
    assert!(p.invest_fulfillment(INVESTMENT, fulfillment(HALF, 2 * ONE), info()).result.is_ok());
    let out = p.collect_invest_for(Origin::Signed(OTHER), INVESTOR, INVESTMENT, info());
    assert_eq!(out.result, Ok(()));
    assert_eq!(
        out.effects,
        vec![
            Effect::AccountantTransfer {
                investment: INVESTMENT,
                source: Party::InvestmentAccount(INVESTMENT),
                dest: Party::Account(INVESTOR),
                amount: 25,
            },
            Effect::TokensTransfer {
                currency: CURRENCY,
                source: Party::InvestmentAccount(INVESTMENT),
                dest: Party::Account(INVESTOR),
                amount: 50,
            },
            Effect::Deposit(Event::InvestOrdersCollected {
                investment_id: INVESTMENT,
                who: INVESTOR,
                processed_orders: vec![0],
                collection: InvestCollection { payout_investment_invest: 25, remaining_investment_invest: 50 },
                outcome: CollectOutcome::FullyCollected,
            }),
        ]
    );
    assert_eq!(p.investment(INVESTOR, INVESTMENT), Ok(0));
    assert_eq!(p.invest_orders(INVESTMENT).result, Ok(TotalOrder { amount: 0 }));
}

#[test]
fn collect_needs_every_processed_order_cleared() {
    let mut p = Pallet::new(10);
    assert!(p.update_investment(INVESTOR, INVESTMENT, 100, true, info()).result.is_ok());
    assert!(p.invest_orders(INVESTMENT).result.is_ok());
    assert!(p.invest_fulfillment(INVESTMENT, fulfillment(HALF, 2 * ONE), info()).result.is_ok());
    assert!(p.invest_orders(INVESTMENT).result.is_ok());
    // Order 0 is cleared, order 1 is still in processing.
    let out = p.collect_invest(Origin::Signed(INVESTOR), INVESTMENT, info());
    assert_eq!(out.result, Err(DispatchError::Investments(Error::OrderNotCleared)));
    assert!(out.effects.is_empty());
    assert_eq!(p.investment(INVESTOR, INVESTMENT), Ok(100));
}

#[test]
fn collect_refusals() {
    let mut p = Pallet::new(10);
    assert_eq!(
        p.collect_invest(Origin::Signed(INVESTOR), INVESTMENT, info()).result,
        Err(DispatchError::Investments(Error::NoActiveInvestOrder))
    );
    assert_eq!(
        p.collect_redeem(Origin::Signed(INVESTOR), INVESTMENT, info()).result,
        Err(DispatchError::Investments(Error::NoActiveRedeemOrder))
    );
    assert_eq!(
        p.collect(Origin::Signed(INVESTOR), INVESTMENT, Err(DispatchError::Runtime(2))).result,
        Err(DispatchError::Investments(Error::UnknownInvestment))
    );
    assert_eq!(p.collect(Origin::Root, INVESTMENT, info()).result, Err(DispatchError::BadOrigin));
    assert!(p.update_investment(INVESTOR, INVESTMENT, 100, true, info()).result.is_ok());
    // Both orders are needed for a collect of both.
    assert_eq!(
        p.collect(Origin::Signed(INVESTOR), INVESTMENT, info()).result,
        Err(DispatchError::Investments(Error::NoActiveRedeemOrder))
    );
    assert!(p.update_redemption(INVESTOR, INVESTMENT, 5, true, info()).result.is_ok());
    let out = p.collect_for(Origin::Signed(OTHER), INVESTOR, INVESTMENT, info());
    assert_eq!(out.result, Ok(()));
    assert_eq!(out.effects.len(), 4);
    assert_eq!(
        out.effects[2],
        Effect::TokensTransfer {
            currency: CURRENCY,
            source: Party::InvestmentAccount(INVESTMENT),
            dest: Party::Account(INVESTOR),
            amount: 0,
        }
    );
    assert!(p.collect_redeem_for(Origin::Signed(OTHER), INVESTOR, INVESTMENT, info()).result.is_ok());
}

#[test]
fn accumulating_collections() {
    let order = Order { amount: 100, submitted_at: 0 };
    let f = fulfillment(HALF, 2 * ONE);
    let mut ic = InvestCollection::default();
    assert_eq!(Pallet::acc_payout_invest(&mut ic, &f, &order), Ok(()));
    assert_eq!(ic, InvestCollection { payout_investment_invest: 25, remaining_investment_invest: 0 });
    assert_eq!(Pallet::acc_remaining_invest(&mut ic, &f, &order), Ok(()));
    assert_eq!(ic, InvestCollection { payout_investment_invest: 25, remaining_investment_invest: 50 });
    // The remainder is what this fulfillment left of the order.
    ic.remaining_investment_invest = 70;
    assert_eq!(Pallet::acc_remaining_invest(&mut ic, &f, &order), Ok(()));
    assert_eq!(ic.remaining_investment_invest, 50);
    assert_eq!(Pallet::acc_payout_invest(&mut ic, &f, &order), Ok(()));
    assert_eq!(ic.payout_investment_invest, 50);
    let mut rc = RedeemCollection::default();
    assert_eq!(Pallet::acc_payout_redeem(&mut rc, &f, &order), Ok(()));
    assert_eq!(rc.payout_investment_redeem, 100);
    assert_eq!(Pallet::acc_remaining_redeem(&mut rc, &f, &order), Ok(()));
    assert_eq!(rc, RedeemCollection { payout_investment_redeem: 100, remaining_investment_redeem: 50 });
    let whole = fulfillment(1_000_000_000_000_000_000, ONE);
    assert_eq!(Pallet::acc_remaining_redeem(&mut rc, &whole, &order), Ok(()));
    assert_eq!(rc.remaining_investment_redeem, 0);
    assert_eq!(
        Pallet::acc_payout_invest(&mut ic, &fulfillment(HALF, 0), &order),
        Err(DispatchError::Investments(Error::ZeroPricedInvestment))
    );
    assert_eq!(ic.payout_investment_invest, 50);
    rc.payout_investment_redeem = u128::MAX;
    assert_eq!(
        Pallet::acc_payout_redeem(&mut rc, &f, &order),
        Err(DispatchError::Arithmetic(ArithmeticError::Overflow))
    );
}
