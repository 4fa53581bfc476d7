//! The investments pallet: accounts place invest and redeem orders on an
//! investment; the pool takes the total order into processing, fulfills
//! part of it at a price, and each account collects its share.

pub mod types;
pub mod storage;
pub mod pallet;
pub mod collect;
pub mod laws;

