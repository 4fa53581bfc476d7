//! Weights of the order book's calls.

use vstd::prelude::*;

use crate::weights::{RuntimeDbWeight, Weight, call_weight, spec_call_weight};

verus! {

/// The weights of the order book's calls.
pub struct WeightInfo;

impl WeightInfo {
    /// Placing an order: 5 reads, 5 writes.
    pub fn create_order(db: RuntimeDbWeight) -> (r: Weight)
        ensures
            r == spec_call_weight(Weight { ref_time: 42_000_000, proof_size: 8011752 }, db, 5, 5),
    {
        call_weight(Weight::from_parts(42_000_000, 8011752), db, 5, 5)
    }

    /// Cancelling one's order: 3 reads, 4 writes.
    pub fn user_cancel_order(db: RuntimeDbWeight) -> (r: Weight)
        ensures
            r == spec_call_weight(Weight { ref_time: 32_000_000, proof_size: 8007810 }, db, 3, 4),
    {
        call_weight(Weight::from_parts(32_000_000, 8007810), db, 3, 4)
    }

    /// Filling an order: 8 reads, 7 writes.
    pub fn fill_order_full(db: RuntimeDbWeight) -> (r: Weight)
        ensures
            r == spec_call_weight(Weight { ref_time: 69_000_000, proof_size: 8020828 }, db, 8, 7),
    {
        call_weight(Weight::from_parts(69_000_000, 8020828), db, 8, 7)
    }
}

} // verus!
