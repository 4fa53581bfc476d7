//! Weights of the anchors pallet's calls.

use vstd::prelude::*;

use crate::weights::{RuntimeDbWeight, Weight, call_weight, spec_call_weight};

verus! {

/// The weights of the anchors pallet's calls.
pub struct WeightInfo;

impl WeightInfo {
    /// Pre-committing an anchor: 3 reads, 1 write.
    pub fn pre_commit(db: RuntimeDbWeight) -> (r: Weight)
        ensures
            r == spec_call_weight(Weight { ref_time: 63_300_000, proof_size: 0 }, db, 3, 1),
    {
        call_weight(Weight::from_ref_time(63_300_000), db, 3, 1)
    }

    /// Committing an anchor: 7 reads, 5 writes.
    pub fn commit(db: RuntimeDbWeight) -> (r: Weight)
        ensures
            r == spec_call_weight(Weight { ref_time: 95_800_000, proof_size: 0 }, db, 7, 5),
    {
        call_weight(Weight::from_ref_time(95_800_000), db, 7, 5)
    }

    /// Evicting pre-commits: 100 reads, 100 writes.
    pub fn evict_pre_commits(db: RuntimeDbWeight) -> (r: Weight)
        ensures
            r == spec_call_weight(Weight { ref_time: 2_040_498_000, proof_size: 0 }, db, 100, 100),
    {
        call_weight(Weight::from_ref_time(2_040_498_000), db, 100, 100)
    }

    /// Evicting anchors: 404 reads, 402 writes.
    pub fn evict_anchors(db: RuntimeDbWeight) -> (r: Weight)
        ensures
            r == spec_call_weight(Weight { ref_time: 2_285_798_000, proof_size: 0 }, db, 404, 402),
    {
        call_weight(Weight::from_ref_time(2_285_798_000), db, 404, 402)
    }
}

} // verus!
