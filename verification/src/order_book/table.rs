//! The order storages of the order book: orders by id, and orders by
//! placing account and id. Each is a list of orders with distinct keys,
//! seen as a map from key to order.

use vstd::prelude::*;

use crate::dispatch::AccountId;
use crate::order_book::types::{H256, Order, hash_eq};

verus! {

/// The map from key to order of a list of orders.
pub open spec fn keyed_map<K>(s: Seq<Order>, key: spec_fn(Order) -> K) -> Map<K, Order>
    decreases s.len(),
{
    if s.len() == 0 {
        Map::empty()
    } else {
        keyed_map(s.drop_last(), key).insert(key(s.last()), s.last())
    }
}

/// No two orders of the list have the same key.
pub open spec fn unique_keys<K>(s: Seq<Order>, key: spec_fn(Order) -> K) -> bool {
    forall|i: int, j: int| 0 <= i < j < s.len() ==> key(s[i]) != key(s[j])
}

/// The keys of the map are the keys of the list.
pub proof fn lemma_keyed_map_dom<K>(s: Seq<Order>, key: spec_fn(Order) -> K, k: K)
    ensures
        keyed_map(s, key).contains_key(k) <==> exists|i: int| 0 <= i < s.len() && key(s[i]) == k,
    decreases s.len(),
{
    if s.len() > 0 {
        lemma_keyed_map_dom(s.drop_last(), key, k);
        if keyed_map(s.drop_last(), key).contains_key(k) {
            let i = choose|i: int| 0 <= i < s.drop_last().len() && key(s.drop_last()[i]) == k;
            assert(key(s[i]) == k);
        }
        if exists|i: int| 0 <= i < s.len() && key(s[i]) == k {
            let i = choose|i: int| 0 <= i < s.len() && key(s[i]) == k;
            if i < s.len() - 1 {
                assert(key(s.drop_last()[i]) == k);
            }
        }
    }
}

/// Each order of a list with distinct keys is what the map holds at its key.
pub proof fn lemma_keyed_map_value<K>(s: Seq<Order>, key: spec_fn(Order) -> K, i: int)
    requires
        unique_keys(s, key),
        0 <= i < s.len(),
    ensures
        keyed_map(s, key).contains_key(key(s[i])),
        keyed_map(s, key)[key(s[i])] == s[i],
    decreases s.len(),
{
    if i < s.len() - 1 {
        assert(unique_keys(s.drop_last(), key));
        lemma_keyed_map_value(s.drop_last(), key, i);
        assert(s.drop_last()[i] == s[i]);
        assert(key(s[i]) != key(s.last()));
    }
}

/// Replacing an order by one of the same key replaces it in the map.
pub proof fn lemma_keyed_map_update<K>(s: Seq<Order>, key: spec_fn(Order) -> K, i: int, o: Order)
    requires
        unique_keys(s, key),
        0 <= i < s.len(),
        key(o) == key(s[i]),
    ensures
        keyed_map(s.update(i, o), key) == keyed_map(s, key).insert(key(o), o),
        unique_keys(s.update(i, o), key),
    decreases s.len(),
{
    let t = s.update(i, o);
    assert(unique_keys(t, key)) by {
        assert forall|a: int, b: int| 0 <= a < b < t.len() implies key(t[a]) != key(t[b]) by {
            assert(key(s[a]) != key(s[b]));
        }
    }
    if i == s.len() - 1 {
        assert(t.drop_last() =~= s.drop_last());
        assert(keyed_map(t, key) =~= keyed_map(s, key).insert(key(o), o));
    } else {
        assert(unique_keys(s.drop_last(), key));
        assert(t.drop_last() =~= s.drop_last().update(i, o));
        lemma_keyed_map_update(s.drop_last(), key, i, o);
        assert(key(s[i]) != key(s.last()));
        assert(keyed_map(t, key) =~= keyed_map(s, key).insert(key(o), o));
    }
}

/// Removing an order of a list with distinct keys removes its key from the map.
pub proof fn lemma_keyed_map_remove<K>(s: Seq<Order>, key: spec_fn(Order) -> K, i: int)
    requires
        unique_keys(s, key),
        0 <= i < s.len(),
    ensures
        keyed_map(s.remove(i), key) == keyed_map(s, key).remove(key(s[i])),
        unique_keys(s.remove(i), key),
    decreases s.len(),
{
    let t = s.remove(i);
    assert(unique_keys(t, key)) by {
        assert forall|a: int, b: int| 0 <= a < b < t.len() implies key(t[a]) != key(t[b]) by {
            let a2 = if a < i { a } else { a + 1 };
            let b2 = if b < i { b } else { b + 1 };
            assert(t[a] == s[a2]);
            assert(t[b] == s[b2]);
        }
    }
    assert(unique_keys(s.drop_last(), key));
    if i == s.len() - 1 {
        assert(t =~= s.drop_last());
        lemma_keyed_map_dom(s.drop_last(), key, key(s.last()));
        if keyed_map(s.drop_last(), key).contains_key(key(s.last())) {
            let j = choose|j: int| 0 <= j < s.drop_last().len() && key(s.drop_last()[j]) == key(s.last());
            assert(key(s[j]) == key(s.last()));
        }
        assert(keyed_map(t, key) =~= keyed_map(s, key).remove(key(s[i])));
    } else {
        assert(t.drop_last() =~= s.drop_last().remove(i));
        assert(t.last() == s.last());
        lemma_keyed_map_remove(s.drop_last(), key, i);
        assert(key(s[i]) != key(s.last()));
        assert(keyed_map(t, key) =~= keyed_map(s, key).remove(key(s[i])));
    }
}

/// Appending an order whose key is new adds it to the map.
pub proof fn lemma_keyed_map_push<K>(s: Seq<Order>, key: spec_fn(Order) -> K, o: Order)
    requires
        unique_keys(s, key),
        !keyed_map(s, key).contains_key(key(o)),
    ensures
        keyed_map(s.push(o), key) == keyed_map(s, key).insert(key(o), o),
        unique_keys(s.push(o), key),
{
    assert(s.push(o).drop_last() =~= s);
    assert forall|a: int, b: int| 0 <= a < b < s.push(o).len() implies key(s.push(o)[a]) != key(s.push(o)[b]) by {
        if b == s.len() {
            lemma_keyed_map_dom(s, key, key(o));
            assert(key(s[a]) != key(o));
        }
    }
}

/// The key of an order among orders by id.
pub open spec fn id_key() -> spec_fn(Order) -> H256 {
    |o: Order| o.order_id
}

/// The key of an order among orders by account and id.
pub open spec fn account_key() -> spec_fn(Order) -> (AccountId, H256) {
    |o: Order| (o.placing_account, o.order_id)
}

/// Orders by id.
#[derive(Clone, Debug)]
pub struct OrdersById {
    entries: Vec<Order>,
}

impl OrdersById {
    /// No two stored orders have the same id.
    pub closed spec fn wf(&self) -> bool {
        unique_keys(self.entries@, id_key())
    }

    /// The orders, by id.
    pub closed spec fn view(&self) -> Map<H256, Order> {
        keyed_map(self.entries@, id_key())
    }

    /// No orders.
    pub fn new() -> (r: OrdersById)
        ensures
            r.view() == Map::<H256, Order>::empty(),
            r.wf(),
    {
        OrdersById { entries: Vec::new() }
    }

    /// Where the order of id `id` stands in the list.
    fn position(&self, id: &H256) -> (r: Option<usize>)
        ensures
            match r {
                Some(i) => i < self.entries@.len() && self.entries@[i as int].order_id == *id,
                None => !self.view().contains_key(*id),
            },
    {
        let mut i: usize = 0;
        while i < self.entries.len()
            invariant
                i <= self.entries@.len(),
                forall|j: int| 0 <= j < i ==> self.entries@[j].order_id != *id,
            decreases self.entries@.len() - i,
        {
            if hash_eq(&self.entries[i].order_id, id) {
                return Some(i);
            }
            i = i + 1;
        }
        proof {
            lemma_keyed_map_dom(self.entries@, id_key(), *id);
        }
        None
    }

    /// The order of id `id`.
    pub fn get(&self, id: &H256) -> (r: Option<Order>)
        requires
            self.wf(),
        ensures
            r == (if self.view().contains_key(*id) { Some(self.view()[*id]) } else { None::<Order> }),
            r matches Some(o) ==> o.order_id == *id,
    {
        match self.position(id) {
            Some(i) => {
                proof {
                    lemma_keyed_map_value(self.entries@, id_key(), i as int);
                }
                Some(self.entries[i])
            },
            None => None,
        }
    }

    /// Stores `order` under its id.
    pub fn insert(&mut self, order: Order)
        requires
            old(self).wf(),
        ensures
            final(self).wf(),
            final(self).view() == old(self).view().insert(order.order_id, order),
    {
        match self.position(&order.order_id) {
            Some(i) => {
                proof {
                    lemma_keyed_map_update(self.entries@, id_key(), i as int, order);
                }
                self.entries.set(i, order);
            },
            None => {
                proof {
                    lemma_keyed_map_push(self.entries@, id_key(), order);
                }
                self.entries.push(order);
            },
        }
    }

    /// Removes the order of id `id`.
    pub fn remove(&mut self, id: &H256)
        requires
            old(self).wf(),
        ensures
            final(self).wf(),
            final(self).view() == old(self).view().remove(*id),
    {
        match self.position(id) {
            Some(i) => {
                proof {
                    lemma_keyed_map_remove(self.entries@, id_key(), i as int);
                }
                self.entries.remove(i);
            },
            None => {
                assert(self.view().remove(*id) =~= self.view());
            },
        }
    }
}

/// Orders by placing account and id.
#[derive(Clone, Debug)]
pub struct OrdersByAccount {
    entries: Vec<Order>,
}

impl OrdersByAccount {
    /// No two stored orders have the same account and id.
    pub closed spec fn wf(&self) -> bool {
        unique_keys(self.entries@, account_key())
    }

    /// The orders, by account and id.
    pub closed spec fn view(&self) -> Map<(AccountId, H256), Order> {
        keyed_map(self.entries@, account_key())
    }

    /// No orders.
    pub fn new() -> (r: OrdersByAccount)
        ensures
            r.view() == Map::<(AccountId, H256), Order>::empty(),
            r.wf(),
    {
        OrdersByAccount { entries: Vec::new() }
    }

    /// Where the order of `who` of id `id` stands in the list.
    fn position(&self, who: AccountId, id: &H256) -> (r: Option<usize>)
        ensures
            match r {
                Some(i) => i < self.entries@.len() && self.entries@[i as int].order_id == *id
                    && self.entries@[i as int].placing_account == who,
                None => !self.view().contains_key((who, *id)),
            },
    {
        let mut i: usize = 0;
        while i < self.entries.len()
            invariant
                i <= self.entries@.len(),
                forall|j: int| 0 <= j < i ==> (self.entries@[j].placing_account, self.entries@[j].order_id) != (who, *id),
            decreases self.entries@.len() - i,
        {
            if self.entries[i].placing_account == who && hash_eq(&self.entries[i].order_id, id) {
                return Some(i);
            }
            i = i + 1;
        }
        proof {
            lemma_keyed_map_dom(self.entries@, account_key(), (who, *id));
        }
        None
    }

    /// The order of `who` of id `id`.
    pub fn get(&self, who: AccountId, id: &H256) -> (r: Option<Order>)
        requires
            self.wf(),
        ensures
            r == (if self.view().contains_key((who, *id)) {
                Some(self.view()[(who, *id)])
            } else {
                None::<Order>
            }),
            r matches Some(o) ==> o.order_id == *id && o.placing_account == who,
    {
        match self.position(who, id) {
            Some(i) => {
                proof {
                    lemma_keyed_map_value(self.entries@, account_key(), i as int);
                }
                Some(self.entries[i])
            },
            None => None,
        }
    }

    /// Stores `order` under its placing account and id.
    pub fn insert(&mut self, order: Order)
        requires
            old(self).wf(),
        ensures
            final(self).wf(),
            final(self).view() == old(self).view().insert((order.placing_account, order.order_id), order),
    {
        match self.position(order.placing_account, &order.order_id) {
            Some(i) => {
                proof {
                    lemma_keyed_map_update(self.entries@, account_key(), i as int, order);
                }
                self.entries.set(i, order);
            },
            None => {
                proof {
                    lemma_keyed_map_push(self.entries@, account_key(), order);
                }
                self.entries.push(order);
            },
        }
    }

    /// Removes the order of `who` of id `id`.
    pub fn remove(&mut self, who: AccountId, id: &H256)
        requires
            old(self).wf(),
        ensures
            final(self).wf(),
            final(self).view() == old(self).view().remove((who, *id)),
    {
        match self.position(who, id) {
            Some(i) => {
                proof {
                    lemma_keyed_map_remove(self.entries@, account_key(), i as int);
                }
                self.entries.remove(i);
            },
            None => {
                assert(self.view().remove((who, *id)) =~= self.view());
            },
        }
    }

    /// The orders of `who`, each with its id.
    pub fn of_account(&self, who: AccountId) -> (r: Vec<(H256, Order)>)
        requires
            self.wf(),
        ensures
            forall|i: int| 0 <= i < r@.len() ==> {
                &&& self.view().contains_key((who, #[trigger] r@[i].0))
                &&& r@[i].1 == self.view()[(who, r@[i].0)]
            },
            forall|id: H256| #[trigger] self.view().contains_key((who, id))
                ==> exists|i: int| 0 <= i < r@.len() && r@[i].0 == id,
            forall|i: int, j: int| 0 <= i < j < r@.len() ==> r@[i].0 != r@[j].0,
    {
        let ghost s = self.entries@;
        let mut r: Vec<(H256, Order)> = Vec::new();
        let ghost mut src: Seq<int> = Seq::empty();
        let mut k: usize = 0;
        while k < self.entries.len()
            invariant
                s == self.entries@,
                unique_keys(s, account_key()),
                k <= s.len(),
                src.len() == r@.len(),
                forall|i: int| 0 <= i < r@.len() ==> {
                    &&& 0 <= #[trigger] src[i] < k
                    &&& s[src[i]] == r@[i].1
                    &&& r@[i].1.placing_account == who
                    &&& r@[i].0 == r@[i].1.order_id
                },
                forall|j: int| 0 <= j < k && #[trigger] s[j].placing_account == who
                    ==> exists|i: int| 0 <= i < r@.len() && r@[i].0 == s[j].order_id,
                forall|i: int, j: int| 0 <= i < j < r@.len() ==> r@[i].0 != r@[j].0,
            decreases s.len() - k,
        {
            let ghost r_before = r@;
            let o = self.entries[k];
            if o.placing_account == who {
                proof {
                    assert forall|i: int| 0 <= i < r@.len() implies r@[i].0 != o.order_id by {
                        assert(0 <= src[i] < k);
                        assert(account_key()(s[src[i]]) != account_key()(s[k as int]));
                    }
                }
                r.push((o.order_id, o));
                proof {
                    src = src.push(k as int);
                    assert(r@[r@.len() - 1].0 == s[k as int].order_id);
                }
            }
            proof {
                assert forall|j: int| 0 <= j < k + 1 && #[trigger] s[j].placing_account == who
                    implies exists|i: int| 0 <= i < r@.len() && r@[i].0 == s[j].order_id by {
                    if j == k {
                        assert(r@[r@.len() - 1].0 == s[j].order_id);
                    } else {
                        let i = choose|i: int| 0 <= i < r_before.len() && r_before[i].0 == s[j].order_id;
                        assert(r@[i] == r_before[i]);
                    }
                }
            }
            k = k + 1;
        }
        proof {
            assert forall|i: int| 0 <= i < r@.len() implies {
                &&& self.view().contains_key((who, #[trigger] r@[i].0))
                &&& r@[i].1 == self.view()[(who, r@[i].0)]
            } by {
                lemma_keyed_map_value(s, account_key(), src[i]);
            }
            assert forall|id: H256| #[trigger] self.view().contains_key((who, id))
                implies exists|i: int| 0 <= i < r@.len() && r@[i].0 == id by {
                lemma_keyed_map_dom(s, account_key(), (who, id));
                let j = choose|j: int| 0 <= j < s.len() && account_key()(s[j]) == (who, id);
                assert(s[j].placing_account == who);
            }
        }
        r
    }
}

} // verus!
