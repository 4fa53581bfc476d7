//! Verified core of three Centrifuge chain pallets and two weight tables:
//! the investments order manager, the order book, the transfer allowlist
//! location type, and the benchmarked weight functions.
//!
//! Every pallet is a state machine over its own storage. Whatever the
//! runtime supplies from outside (pre-conditions, investment metadata,
//! balances, reserves) is handed in as plain values, and what the pallet
//! asks the runtime to do (transfers, reserves, events) comes back as a
//! list of effects that the caller performs in order and atomically.

pub mod arith;

pub mod dispatch;
pub mod investments;
pub mod order_book;
pub mod transfer_allowlist;
pub mod weights;
