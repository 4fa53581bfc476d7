use centrifuge_pallets::dispatch::{ArithmeticError, DispatchError, Origin};
use centrifuge_pallets::order_book::pallet::Pallet;
use centrifuge_pallets::order_book::types::{
    AssetId, Effect, Error, Event, FillChecks, H256, Order, PlaceChecks,
};

const ACCOUNT_0: u64 = 0x1;
const ACCOUNT_1: u64 = 0x2;
const CURRENCY_A: AssetId = 1;
const CURRENCY_B: AssetId = 2;
const ORDER_FEE: u128 = 10;

fn checks() -> PlaceChecks {
    PlaceChecks {
        asset_in_registered: true,
        asset_out_registered: true,
        can_reserve_asset: true,
        can_reserve_fee: true,
        fee: ORDER_FEE,
    }
}

fn fill_checks() -> FillChecks {
    FillChecks {
        asset_in_registered: true,
        asset_out_registered: true,
        can_reserve_payment: true,
        fee: ORDER_FEE,
    }
}

fn expected_order(order_id: H256) -> Order {
    Order {
        order_id,
        placing_account: ACCOUNT_0,
        asset_in_id: CURRENCY_A,
        asset_out_id: CURRENCY_B,
        buy_amount: 100,
        initial_buy_amount: 100,
        price: 10,
        min_fullfillment_amount: 100,
        max_sell_amount: 1000,
    }
}

#[test]
fn create_order_v1_works() {
    let mut book = Pallet::new();
    let out = book.create_order_v1(Origin::Signed(ACCOUNT_0), CURRENCY_A, CURRENCY_B, 100, 10, checks());
    assert_eq!(out.result, Ok(()));
    let (order_id, _) = book.get_account_orders(ACCOUNT_0).unwrap()[0];
    assert_eq!(book.orders(&order_id), Ok(expected_order(order_id)));
    assert_eq!(book.user_orders(ACCOUNT_0, &order_id), Ok(expected_order(order_id)));
    assert_eq!(book.asset_pair_orders(CURRENCY_A, CURRENCY_B), vec![order_id]);
}

#[test]
fn user_cancel_order_works() {
    let mut book = Pallet::new();
    let out = book.create_order_v1(Origin::Signed(ACCOUNT_0), CURRENCY_A, CURRENCY_B, 100, 10, checks());
    assert_eq!(out.result, Ok(()));
    let (order_id, _) = book.get_account_orders(ACCOUNT_0).unwrap()[0];
    let out = book.user_cancel_order(Origin::Signed(ACCOUNT_0), order_id, ORDER_FEE);
    assert_eq!(out.result, Ok(()));
    assert_eq!(book.orders(&order_id), Err(DispatchError::OrderBook(Error::OrderNotFound)));
    assert_eq!(book.user_orders(ACCOUNT_0, &order_id), Err(DispatchError::OrderBook(Error::OrderNotFound)));
    assert_eq!(book.asset_pair_orders(CURRENCY_A, CURRENCY_B), vec![]);
}

#[test]
fn place_order_works() {
    let mut book = Pallet::new();
    let out = book.place_order(ACCOUNT_0, CURRENCY_A, CURRENCY_B, 100, 10, 100, checks());
    assert!(out.result.is_ok());
    let events = out.effects;
    let (order_id, _) = book.get_account_orders(ACCOUNT_0).unwrap()[0];
    assert_eq!(book.orders(&order_id), Ok(expected_order(order_id)));
    assert_eq!(book.user_orders(ACCOUNT_0, &order_id), Ok(expected_order(order_id)));
    assert_eq!(book.asset_pair_orders(CURRENCY_A, CURRENCY_B), vec![order_id]);
    assert_eq!(events[0], Effect::ReserveFee { who: ACCOUNT_0, amount: 10 });
    assert_eq!(events[1], Effect::ReserveAsset { currency: CURRENCY_B, who: ACCOUNT_0, amount: 1000 });
    assert_eq!(
        events[2],
        Effect::Deposit(Event::OrderCreated {
            order_id,
            creator_account: ACCOUNT_0,
            currency_in: CURRENCY_A,
            currency_out: CURRENCY_B,
            buy_amount: 100,
            min_fullfillment_amount: 100,
            sell_price_limit: 10,
        })
    );
}

#[test]
fn ensure_nonce_updates_order_correctly() {
    let mut book = Pallet::new();
    assert!(book.place_order(ACCOUNT_0, CURRENCY_A, CURRENCY_B, 100, 10, 100, checks()).result.is_ok());
    assert!(book.place_order(ACCOUNT_0, CURRENCY_A, CURRENCY_B, 100, 10, 100, checks()).result.is_ok());
    let orders = book.get_account_orders(ACCOUNT_0).unwrap();
    let [(order_id_0, _), (order_id_1, _)] = orders[..] else { panic!("Unexpected order count") };
    assert_ne!(order_id_0, order_id_1)
}

#[test]
fn place_order_requires_non_zero_buy() {
    let mut book = Pallet::new();
    assert_eq!(
        book.place_order(ACCOUNT_0, CURRENCY_A, CURRENCY_B, 0, 10, 100, checks()).result,
        Err(DispatchError::OrderBook(Error::InvalidBuyAmount))
    );
}

#[test]
fn place_order_requires_non_zero_price() {
    let mut book = Pallet::new();
    assert_eq!(
        book.place_order(ACCOUNT_0, CURRENCY_A, CURRENCY_B, 100, 0, 100, checks()).result,
        Err(DispatchError::OrderBook(Error::InvalidMinPrice))
    );
}

#[test]
fn cancel_order_works() {
    let mut book = Pallet::new();
    let placed = book.place_order(ACCOUNT_0, CURRENCY_A, CURRENCY_B, 100, 10, 100, checks());
    assert!(placed.result.is_ok());
    let mut events = placed.effects;
    let (order_id, _) = book.get_account_orders(ACCOUNT_0).unwrap()[0];
    let cancelled = book.cancel_order(order_id, ORDER_FEE);
    assert_eq!(cancelled.result, Ok(()));
    events.extend(cancelled.effects);
    assert_eq!(book.orders(&order_id), Err(DispatchError::OrderBook(Error::OrderNotFound)));
    assert_eq!(book.user_orders(ACCOUNT_0, &order_id), Err(DispatchError::OrderBook(Error::OrderNotFound)));
    assert_eq!(book.asset_pair_orders(CURRENCY_A, CURRENCY_B), vec![]);
    assert_eq!(events[3], Effect::UnreserveFee { who: ACCOUNT_0, amount: 10 });
    assert_eq!(events[4], Effect::UnreserveAsset { currency: CURRENCY_B, who: ACCOUNT_0, amount: 1000 });
    assert_eq!(events[5], Effect::Deposit(Event::OrderCancelled { order_id, account: ACCOUNT_0 }));
}

#[test]
fn order_id_is_the_hash_of_the_encoded_key() {
    let mut book = Pallet::new();
    let out = book.place_order(ACCOUNT_0, CURRENCY_A, CURRENCY_B, 100, 10, 100, checks());
    let id = out.result.unwrap();
    // (placer, currency_out, currency_in, nonce), each little-endian.
    let mut preimage = Vec::new();
    preimage.extend_from_slice(&ACCOUNT_0.to_le_bytes());
    preimage.extend_from_slice(&CURRENCY_B.to_le_bytes());
    preimage.extend_from_slice(&CURRENCY_A.to_le_bytes());
    preimage.extend_from_slice(&1u64.to_le_bytes());
    assert_eq!(preimage.len(), 24);
    assert_eq!(id, H256(sp_core_hashing::blake2_256(&preimage)));
    assert_eq!(Pallet::gen_hash(&ACCOUNT_0, CURRENCY_A, CURRENCY_B, 1), id);
    assert_ne!(id.0.to_vec(), preimage);
    assert_eq!(book.nonce(), 1);
}

#[test]
fn place_order_refusals() {
    let mut book = Pallet::new();
    assert_eq!(
        book.place_order(ACCOUNT_0, CURRENCY_A, CURRENCY_A, 100, 10, 100, checks()).result,
        Err(DispatchError::OrderBook(Error::ConflictingAssetIds))
    );
    let mut c = checks();
    c.asset_in_registered = false;
    assert_eq!(
        book.place_order(ACCOUNT_0, CURRENCY_A, CURRENCY_B, 100, 10, 100, c).result,
        Err(DispatchError::OrderBook(Error::InvalidAssetId))
    );
    let mut c = checks();
    c.asset_out_registered = false;
    assert_eq!(
        book.place_order(ACCOUNT_0, CURRENCY_A, CURRENCY_B, 100, 10, 100, c).result,
        Err(DispatchError::OrderBook(Error::InvalidAssetId))
    );
    let mut c = checks();
    c.can_reserve_asset = false;
    assert_eq!(
        book.place_order(ACCOUNT_0, CURRENCY_A, CURRENCY_B, 100, 10, 100, c).result,
        Err(DispatchError::OrderBook(Error::InsufficientAssetFunds))
    );
    let mut c = checks();
    c.can_reserve_fee = false;
    assert_eq!(
        book.place_order(ACCOUNT_0, CURRENCY_A, CURRENCY_B, 100, 10, 100, c).result,
        Err(DispatchError::OrderBook(Error::InsufficientReserveFunds))
    );
    let out = book.place_order(ACCOUNT_0, CURRENCY_A, CURRENCY_B, u128::MAX, 2, 100, checks());
    assert_eq!(out.result, Err(DispatchError::Arithmetic(ArithmeticError::Overflow)));
    assert!(out.effects.is_empty());
    assert_eq!(book.nonce(), 0);
    assert!(book.get_account_orders(ACCOUNT_0).unwrap().is_empty());
}

#[test]
fn create_order_v1_needs_a_signed_origin() {
    let mut book = Pallet::new();
    let out = book.create_order_v1(Origin::Unsigned, CURRENCY_A, CURRENCY_B, 100, 10, checks());
    assert_eq!(out.result, Err(DispatchError::BadOrigin));
    assert_eq!(book.nonce(), 0);
}

#[test]
fn user_cancel_order_of_another_account_is_not_found() {
    let mut book = Pallet::new();
    let id = book.place_order(ACCOUNT_0, CURRENCY_A, CURRENCY_B, 100, 10, 100, checks()).result.unwrap();
    let out = book.user_cancel_order(Origin::Signed(ACCOUNT_1), id, ORDER_FEE);
    assert_eq!(out.result, Err(DispatchError::OrderBook(Error::OrderNotFound)));
    assert_eq!(book.orders(&id), Ok(expected_order(id)));
    assert_eq!(book.cancel_order(H256([7u8; 32]), ORDER_FEE).result, Err(DispatchError::OrderBook(Error::OrderNotFound)));
}

#[test]
fn cancel_keeps_other_orders_of_the_pair() {
    let mut book = Pallet::new();
    let first = book.place_order(ACCOUNT_0, CURRENCY_A, CURRENCY_B, 100, 10, 100, checks()).result.unwrap();
    let second = book.place_order(ACCOUNT_1, CURRENCY_A, CURRENCY_B, 5, 3, 5, checks()).result.unwrap();
    assert_eq!(book.asset_pair_orders(CURRENCY_A, CURRENCY_B), vec![first, second]);
    assert_eq!(book.cancel_order(first, ORDER_FEE).result, Ok(()));
    assert_eq!(book.asset_pair_orders(CURRENCY_A, CURRENCY_B), vec![second]);
    assert_eq!(book.orders(&second).unwrap().max_sell_amount, 15);
    assert_eq!(book.get_account_orders(ACCOUNT_1).unwrap().len(), 1);
}

#[test]
fn fill_order_full_swaps_the_amounts() {
    let mut book = Pallet::new();
    let id = book.place_order(ACCOUNT_0, CURRENCY_A, CURRENCY_B, 100, 10, 100, checks()).result.unwrap();
    let mut c = fill_checks();
    c.can_reserve_payment = false;
    assert_eq!(
        book.fill_order_full(Origin::Signed(ACCOUNT_1), id, c).result,
        Err(DispatchError::OrderBook(Error::InsufficientAssetFunds))
    );
    let mut c = fill_checks();
    c.asset_out_registered = false;
    assert_eq!(
        book.fill_order_full(Origin::Signed(ACCOUNT_1), id, c).result,
        Err(DispatchError::OrderBook(Error::InvalidAssetId))
    );
    assert_eq!(
        book.fill_order_full(Origin::Root, id, fill_checks()).result,
        Err(DispatchError::BadOrigin)
    );
    assert!(book.is_active(id));
    let out = book.fill_order_full(Origin::Signed(ACCOUNT_1), id, fill_checks());
    assert_eq!(out.result, Ok(()));
    // The placer buys 100 of currency A from the filler and pays 1000 of
    // currency B, which the order had reserved.
    assert_eq!(
        out.effects,
        vec![
            Effect::UnreserveAsset { currency: CURRENCY_B, who: ACCOUNT_0, amount: 1000 },
            Effect::UnreserveFee { who: ACCOUNT_1, amount: 10 },
            Effect::TransferAsset { currency: CURRENCY_A, source: ACCOUNT_1, dest: ACCOUNT_0, amount: 100 },
            Effect::TransferAsset { currency: CURRENCY_B, source: ACCOUNT_0, dest: ACCOUNT_1, amount: 1000 },
        ]
    );
    assert_eq!(book.orders(&id), Err(DispatchError::OrderBook(Error::OrderNotFound)));
    assert_eq!(book.user_orders(ACCOUNT_0, &id), Err(DispatchError::OrderBook(Error::OrderNotFound)));
    assert!(book.asset_pair_orders(CURRENCY_A, CURRENCY_B).is_empty());
    assert!(!book.is_active(id));
    assert_eq!(
        book.fill_order_full(Origin::Signed(ACCOUNT_1), id, fill_checks()).result,
        Err(DispatchError::OrderBook(Error::OrderNotFound))
    );
}

#[test]
fn update_order_changes_nothing_and_is_active_follows_the_order() {
    let mut book = Pallet::new();
    let id = book.place_order(ACCOUNT_0, CURRENCY_A, CURRENCY_B, 100, 10, 100, checks()).result.unwrap();
    assert_eq!(book.update_order(ACCOUNT_0, id, 1, 1, 1), Ok(()));
    assert_eq!(book.orders(&id), Ok(expected_order(id)));
    assert!(book.is_active(id));
    assert!(!book.is_active(H256([7u8; 32])));
    assert_eq!(book.cancel_order(id, ORDER_FEE).result, Ok(()));
    assert!(!book.is_active(id));
}

#[test]
fn equal_currencies_are_refused_first() {
    let mut book = Pallet::new();
    assert_eq!(
        book.place_order(ACCOUNT_0, CURRENCY_A, CURRENCY_A, 0, 0, 100, checks()).result,
        Err(DispatchError::OrderBook(Error::ConflictingAssetIds))
    );
    assert_eq!(book.nonce(), 0);
}
