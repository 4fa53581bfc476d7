//! Benchmarked weights of calls: a base execution time and proof size, plus
//! the cost of the storage reads and writes that each call makes.

pub mod pallet_anchors;
pub mod pallet_order_book;

use vstd::prelude::*;

verus! {

/// The weight of a call: execution time and proof size.
#[derive(Clone, Copy, Debug, PartialEq, Eq)]
pub struct Weight {
    pub ref_time: u64,
    pub proof_size: u64,
}

/// `a + b`, capped at `u64::MAX`.
pub open spec fn sat_add(a: u64, b: u64) -> u64 {
    if a + b > u64::MAX { u64::MAX } else { (a + b) as u64 }
}

/// `a * b`, capped at `u64::MAX`.
pub open spec fn sat_mul(a: u64, b: u64) -> u64 {
    if a * b > u64::MAX { u64::MAX } else { (a * b) as u64 }
}

impl Weight {
    /// The weight of the given execution time and proof size.
    pub fn from_parts(ref_time: u64, proof_size: u64) -> (r: Weight)
        ensures
            r == (Weight { ref_time, proof_size }),
    {
        Weight { ref_time, proof_size }
    }

    /// The weight of the given execution time and no proof size.
    pub fn from_ref_time(ref_time: u64) -> (r: Weight)
        ensures
            r == (Weight { ref_time, proof_size: 0 }),
    {
        Weight { ref_time, proof_size: 0 }
    }

    /// The sum of two weights, each part capped at `u64::MAX`.
    pub fn saturating_add(self, other: Weight) -> (r: Weight)
        ensures
            r == (Weight {
                ref_time: sat_add(self.ref_time, other.ref_time),
                proof_size: sat_add(self.proof_size, other.proof_size),
            }),
    {
        Weight {
            ref_time: self.ref_time.saturating_add(other.ref_time),
            proof_size: self.proof_size.saturating_add(other.proof_size),
        }
    }
}

/// `a * b`, capped at `u64::MAX`.
fn saturating_mul(a: u64, b: u64) -> (r: u64)
    ensures
        r == sat_mul(a, b),
{
    match a.checked_mul(b) {
        Some(x) => x,
        None => u64::MAX,
    }
}

/// The execution time of one storage read and of one storage write.
#[derive(Clone, Copy, Debug, PartialEq, Eq)]
pub struct RuntimeDbWeight {
    pub read: u64,
    pub write: u64,
}

impl RuntimeDbWeight {
    /// The weight of `r` reads.
    pub fn reads(self, r: u64) -> (w: Weight)
        ensures
            w == (Weight { ref_time: sat_mul(self.read, r), proof_size: 0 }),
    {
        Weight::from_parts(saturating_mul(self.read, r), 0)
    }

    /// The weight of `w` writes.
    pub fn writes(self, w: u64) -> (r: Weight)
        ensures
            r == (Weight { ref_time: sat_mul(self.write, w), proof_size: 0 }),
    {
        Weight::from_parts(saturating_mul(self.write, w), 0)
    }
}

/// The weight of a call of base weight `base` that reads `r` and writes
/// `w` storage items.
pub open spec fn spec_call_weight(base: Weight, db: RuntimeDbWeight, r: u64, w: u64) -> Weight {
    Weight {
        ref_time: sat_add(sat_add(base.ref_time, sat_mul(db.read, r)), sat_mul(db.write, w)),
        proof_size: base.proof_size,
    }
}

/// The weight of a call of base weight `base` that reads `r` and writes
/// `w` storage items.
pub fn call_weight(base: Weight, db: RuntimeDbWeight, r: u64, w: u64) -> (res: Weight)
    ensures
        res == spec_call_weight(base, db, r, w),
{
    base.saturating_add(db.reads(r)).saturating_add(db.writes(w))
}

} // verus!
