//! The ids of the orders of each asset pair.

use std::collections::HashMap;

use vstd::prelude::*;

use crate::order_book::types::{AssetId, H256, hash_eq};

verus! {

broadcast use vstd::std_specs::hash::group_hash_axioms;

/// How many orders one asset pair holds at most.
pub const ASSET_PAIR_CAPACITY: usize = 1_000_000usize;

/// The key of an asset pair.
pub open spec fn asset_pair_key(a: AssetId, b: AssetId) -> u64 {
    (a as int * 0x1_0000_0000int + b as int) as u64
}

/// Two asset pairs have the same key only if they are the same pair.
pub proof fn lemma_asset_pair_key_injective(a1: AssetId, b1: AssetId, a2: AssetId, b2: AssetId)
    ensures
        asset_pair_key(a1, b1) == asset_pair_key(a2, b2) <==> (a1 == a2 && b1 == b2),
{
    assert(0 <= a1 as int * 0x1_0000_0000int + b1 as int <= u64::MAX);
    assert(0 <= a2 as int * 0x1_0000_0000int + b2 as int <= u64::MAX);
}

fn make_asset_pair_key(a: AssetId, b: AssetId) -> (r: u64)
    ensures
        r == asset_pair_key(a, b),
{
    (a as u64) * 0x1_0000_0000u64 + (b as u64)
}

/// The order ids of each asset pair.
#[derive(Clone, Debug)]
pub struct PairOrders {
    lists: HashMap<u64, Vec<H256>>,
}

impl PairOrders {
    /// The order ids of each asset pair that has a list.
    pub closed spec fn view(&self) -> Map<(AssetId, AssetId), Seq<H256>> {
        Map::new(
            |k: (AssetId, AssetId)| self.lists@.contains_key(asset_pair_key(k.0, k.1)),
            |k: (AssetId, AssetId)| self.lists@[asset_pair_key(k.0, k.1)]@,
        )
    }

    /// No lists.
    pub fn new() -> (r: PairOrders)
        ensures
            r.view() == Map::<(AssetId, AssetId), Seq<H256>>::empty(),
    {
        let r = PairOrders { lists: HashMap::new() };
        assert(r.view() =~= Map::<(AssetId, AssetId), Seq<H256>>::empty());
        r
    }

    /// The list of a pair: what is stored, or empty.
    pub fn get(&self, a: AssetId, b: AssetId) -> (r: Vec<H256>)
        ensures
            r@ == (if self.view().contains_key((a, b)) { self.view()[(a, b)] } else { Seq::<H256>::empty() }),
    {
        let key = make_asset_pair_key(a, b);
        let mut r: Vec<H256> = Vec::new();
        match self.lists.get(&key) {
            Some(list) => {
                let mut i: usize = 0;
                while i < list.len()
                    invariant
                        i <= list@.len(),
                        r@ == list@.take(i as int),
                    decreases list@.len() - i,
                {
                    r.push(list[i]);
                    assert(r@ =~= list@.take(i + 1));
                    i = i + 1;
                }
                assert(list@.take(list@.len() as int) =~= list@);
            },
            None => {},
        }
        r
    }

    /// Stores the list of a pair.
    pub fn set(&mut self, a: AssetId, b: AssetId, list: Vec<H256>)
        ensures
            final(self).view() == old(self).view().insert((a, b), list@),
    {
        let key = make_asset_pair_key(a, b);
        self.lists.insert(key, list);
        proof {
            assert forall|k: (AssetId, AssetId)| #![trigger final(self).view().contains_key(k)]
                final(self).view().contains_key(k) == old(self).view().insert((a, b), list@).contains_key(k) by {
                lemma_asset_pair_key_injective(k.0, k.1, a, b);
            }
            assert forall|k: (AssetId, AssetId)| #[trigger] final(self).view().contains_key(k) implies
                final(self).view()[k] == old(self).view().insert((a, b), list@)[k] by {
                lemma_asset_pair_key_injective(k.0, k.1, a, b);
            }
            assert(final(self).view() =~= old(self).view().insert((a, b), list@));
        }
    }
}

/// The ids of a list other than `id`, in order.
pub fn without(list: &Vec<H256>, id: &H256) -> (r: Vec<H256>)
    ensures
        r@ == list@.filter(|h: H256| h != *id),
{
    let ghost pred = |h: H256| h != *id;
    let mut r: Vec<H256> = Vec::new();
    let mut i: usize = 0;
    while i < list.len()
        invariant
            i <= list@.len(),
            pred == (|h: H256| h != *id),
            r@ == list@.take(i as int).filter(pred),
        decreases list@.len() - i,
    {
        assert(list@.take(i + 1).drop_last() =~= list@.take(i as int));
        assert(list@.take(i + 1).last() == list@[i as int]);
        assert(list@.take(i + 1).filter(pred) == if pred(list@[i as int]) {
            list@.take(i as int).filter(pred).push(list@[i as int])
        } else {
            list@.take(i as int).filter(pred)
        }) by {
            reveal_with_fuel(Seq::<H256>::filter, 1);
        }
        if !hash_eq(&list[i], id) {
            r.push(list[i]);
        }
        i = i + 1;
    }
    assert(list@.take(list@.len() as int) =~= list@);
    r
}

} // verus!
