//! The order book pallet: accounts place orders to swap one registered
//! asset for another, reserving what they may have to pay; orders can be
//! cancelled or filled.

pub mod hashing;
pub mod types;
pub mod table;
pub mod pairs;
pub mod pallet;
pub mod laws;
