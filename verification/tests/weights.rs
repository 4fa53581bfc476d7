use centrifuge_pallets::weights::{RuntimeDbWeight, Weight};
use centrifuge_pallets::weights::pallet_anchors::WeightInfo as AnchorsWeights;
use centrifuge_pallets::weights::pallet_order_book::WeightInfo as OrderBookWeights;

const DB: RuntimeDbWeight = RuntimeDbWeight { read: 25_000_000, write: 100_000_000 };

#[test]
fn order_book_weights() {
    assert_eq!(
        OrderBookWeights::create_order(DB),
        Weight { ref_time: 42_000_000 + 5 * 25_000_000 + 5 * 100_000_000, proof_size: 8011752 }
    );
    assert_eq!(
        OrderBookWeights::user_cancel_order(DB),
        Weight { ref_time: 32_000_000 + 3 * 25_000_000 + 4 * 100_000_000, proof_size: 8007810 }
    );
    assert_eq!(
        OrderBookWeights::fill_order_full(DB),
        Weight { ref_time: 69_000_000 + 8 * 25_000_000 + 7 * 100_000_000, proof_size: 8020828 }
    );
}

#[test]
fn anchors_weights() {
    assert_eq!(AnchorsWeights::pre_commit(DB), Weight { ref_time: 63_300_000 + 75_000_000 + 100_000_000, proof_size: 0 });
    assert_eq!(AnchorsWeights::commit(DB), Weight { ref_time: 95_800_000 + 175_000_000 + 500_000_000, proof_size: 0 });
    assert_eq!(
        AnchorsWeights::evict_pre_commits(DB),
        Weight { ref_time: 2_040_498_000 + 2_500_000_000 + 10_000_000_000, proof_size: 0 }
    );
    assert_eq!(
        AnchorsWeights::evict_anchors(DB),
        Weight { ref_time: 2_285_798_000 + 404 * 25_000_000 + 402 * 100_000_000, proof_size: 0 }
    );
}

#[test]
fn weights_saturate() {
    let db = RuntimeDbWeight { read: u64::MAX / 2, write: 1 };
    assert_eq!(OrderBookWeights::create_order(db).ref_time, u64::MAX);
    assert_eq!(db.reads(3).ref_time, u64::MAX);
    assert_eq!(Weight::from_parts(u64::MAX, 1).saturating_add(Weight::from_parts(1, 2)), Weight::from_parts(u64::MAX, 3));
}
