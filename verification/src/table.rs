//! A small string-keyed table with map semantics, used for the subscription
//! registry and the per-kind message logs: a vector of key/value pairs with
//! pairwise-distinct keys, read and written under a `Map` view.

use vstd::prelude::*;
use crate::text::str_eq;

verus! {

/// The map a pair list denotes; later pairs would win, but a well-formed
/// table has distinct keys.
pub open spec fn spec_pairs_map<V>(items: Seq<(String, V)>) -> Map<Seq<char>, V>
    decreases items.len(),
{
    if items.len() == 0 {
        Map::empty()
    } else {
        spec_pairs_map(items.drop_last()).insert(items.last().0@, items.last().1)
    }
}

proof fn lemma_pairs_map_contains<V>(items: Seq<(String, V)>, k: Seq<char>)
    ensures
        spec_pairs_map(items).contains_key(k) <==> exists|i: int|
            0 <= i < items.len() && (#[trigger] items[i]).0@ == k,
    decreases items.len(),
{
    if items.len() > 0 {
        lemma_pairs_map_contains(items.drop_last(), k);
        if items.last().0@ == k {
            assert(items[items.len() - 1].0@ == k);
        } else if spec_pairs_map(items).contains_key(k) {
            let i = choose|i: int| 0 <= i < items.drop_last().len() && (#[trigger] items.drop_last(
            )[i]).0@ == k;
            assert(items[i].0@ == k);
        } else {
            assert forall|i: int| 0 <= i < items.len() implies (#[trigger] items[i]).0@ != k by {
                if i < items.len() - 1 {
                    assert(items.drop_last()[i] == items[i]);
                }
            }
        }
    }
}

proof fn lemma_pairs_map_at<V>(items: Seq<(String, V)>, j: int)
    requires
        0 <= j < items.len(),
        forall|i1: int, i2: int|
            0 <= i1 < i2 < items.len() ==> (#[trigger] items[i1]).0@ != (#[trigger] items[i2]).0@,
    ensures
        spec_pairs_map(items).contains_key(items[j].0@),
        spec_pairs_map(items)[items[j].0@] == items[j].1,
    decreases items.len(),
{
    if j == items.len() - 1 {
        assert(items.last() == items[j]);
    } else {
        assert forall|i1: int, i2: int|
            0 <= i1 < i2 < items.drop_last().len() implies (#[trigger] items.drop_last()[i1]).0@
            != (#[trigger] items.drop_last()[i2]).0@ by {
            assert(items.drop_last()[i1] == items[i1]);
            assert(items.drop_last()[i2] == items[i2]);
        }
        lemma_pairs_map_at(items.drop_last(), j);
        assert(items.drop_last()[j] == items[j]);
        assert(items[j].0@ != items.last().0@);
    }
}

proof fn lemma_pairs_map_update<V>(items: Seq<(String, V)>, j: int, p: (String, V))
    requires
        0 <= j < items.len(),
        items[j].0@ == p.0@,
        forall|i1: int, i2: int|
            0 <= i1 < i2 < items.len() ==> (#[trigger] items[i1]).0@ != (#[trigger] items[i2]).0@,
    ensures
        spec_pairs_map(items.update(j, p)) == spec_pairs_map(items).insert(p.0@, p.1),
    decreases items.len(),
{
    let updated = items.update(j, p);
    if j == items.len() - 1 {
        assert(updated.drop_last() =~= items.drop_last());
        assert(updated.last() == p);
        assert(spec_pairs_map(items.drop_last()).insert(items.last().0@, items.last().1).insert(
            p.0@,
            p.1,
        ) =~= spec_pairs_map(items.drop_last()).insert(p.0@, p.1));
    } else {
        assert forall|i1: int, i2: int|
            0 <= i1 < i2 < items.drop_last().len() implies (#[trigger] items.drop_last()[i1]).0@
            != (#[trigger] items.drop_last()[i2]).0@ by {
            assert(items.drop_last()[i1] == items[i1]);
            assert(items.drop_last()[i2] == items[i2]);
        }
        lemma_pairs_map_update(items.drop_last(), j, p);
        assert(updated.drop_last() =~= items.drop_last().update(j, p));
        assert(updated.last() == items.last());
        assert(items[j].0@ != items.last().0@);
        assert(spec_pairs_map(items.drop_last()).insert(p.0@, p.1).insert(
            items.last().0@,
            items.last().1,
        ) =~= spec_pairs_map(items.drop_last()).insert(items.last().0@, items.last().1).insert(
            p.0@,
            p.1,
        ));
    }
}

proof fn lemma_pairs_map_remove<V>(items: Seq<(String, V)>, j: int)
    requires
        0 <= j < items.len(),
        forall|i1: int, i2: int|
            0 <= i1 < i2 < items.len() ==> (#[trigger] items[i1]).0@ != (#[trigger] items[i2]).0@,
    ensures
        spec_pairs_map(items.remove(j)) == spec_pairs_map(items).remove(items[j].0@),
    decreases items.len(),
{
    let removed = items.remove(j);
    if j == items.len() - 1 {
        assert(removed =~= items.drop_last());
        lemma_pairs_map_contains(items.drop_last(), items[j].0@);
        assert forall|i: int| 0 <= i < items.drop_last().len() implies (#[trigger] items.drop_last(
        )[i]).0@ != items[j].0@ by {
            assert(items.drop_last()[i] == items[i]);
        }
        assert(spec_pairs_map(items.drop_last()).insert(items.last().0@, items.last().1).remove(
            items[j].0@,
        ) =~= spec_pairs_map(items.drop_last()));
    } else {
        assert forall|i1: int, i2: int|
            0 <= i1 < i2 < items.drop_last().len() implies (#[trigger] items.drop_last()[i1]).0@
            != (#[trigger] items.drop_last()[i2]).0@ by {
            assert(items.drop_last()[i1] == items[i1]);
            assert(items.drop_last()[i2] == items[i2]);
        }
        lemma_pairs_map_remove(items.drop_last(), j);
        assert(removed.drop_last() =~= items.drop_last().remove(j));
        assert(removed.last() == items.last());
        assert(items[j].0@ != items.last().0@);
        assert(spec_pairs_map(items.drop_last()).remove(items[j].0@).insert(
            items.last().0@,
            items.last().1,
        ) =~= spec_pairs_map(items.drop_last()).insert(items.last().0@, items.last().1).remove(
            items[j].0@,
        ));
    }
}

proof fn lemma_pairs_map_card<V>(items: Seq<(String, V)>)
    requires
        forall|i1: int, i2: int|
            0 <= i1 < i2 < items.len() ==> (#[trigger] items[i1]).0@ != (#[trigger] items[i2]).0@,
    ensures
        spec_pairs_map(items).dom().finite(),
        spec_pairs_map(items).dom().len() == items.len(),
    decreases items.len(),
{
    if items.len() > 0 {
        assert forall|i1: int, i2: int|
            0 <= i1 < i2 < items.drop_last().len() implies (#[trigger] items.drop_last()[i1]).0@
            != (#[trigger] items.drop_last()[i2]).0@ by {
            assert(items.drop_last()[i1] == items[i1]);
            assert(items.drop_last()[i2] == items[i2]);
        }
        lemma_pairs_map_card(items.drop_last());
        lemma_pairs_map_contains(items.drop_last(), items.last().0@);
        assert forall|i: int| 0 <= i < items.drop_last().len() implies (#[trigger] items.drop_last(
        )[i]).0@ != items.last().0@ by {
            assert(items.drop_last()[i] == items[i]);
            assert(items[i].0@ != items[items.len() - 1].0@);
        }
        assert(!spec_pairs_map(items.drop_last()).contains_key(items.last().0@));
        assert(spec_pairs_map(items).dom() =~= spec_pairs_map(items.drop_last()).dom().insert(
            items.last().0@,
        ));
    } else {
        assert(spec_pairs_map(items).dom() =~= Set::<Seq<char>>::empty());
    }
}

/// A string-keyed table: a pair vector with pairwise-distinct keys, viewed
/// as a map from key text to value.
#[derive(Debug, Clone)]
pub struct StrMap<V> {
    pub items: Vec<(String, V)>,
}

impl<V> StrMap<V> {
    /// Distinct keys throughout.
    pub open spec fn wf(self) -> bool {
        forall|i1: int, i2: int|
            0 <= i1 < i2 < self.items@.len() ==> (#[trigger] self.items@[i1]).0@ != (
            #[trigger] self.items@[i2]).0@
    }

    /// The map this table holds.
    pub open spec fn view(self) -> Map<Seq<char>, V> {
        spec_pairs_map(self.items@)
    }

    /// The empty table.
    pub fn new() -> (r: Self)
        ensures
            r.wf(),
            r@ == Map::<Seq<char>, V>::empty(),
            r.items@.len() == 0,
    {
        StrMap { items: Vec::new() }
    }

    /// The number of entries.
    pub fn len(&self) -> (r: usize)
        requires
            self.wf(),
        ensures
            r == self@.dom().len(),
            self@.dom().finite(),
    {
        proof {
            lemma_pairs_map_card(self.items@);
        }
        self.items.len()
    }

    /// The index of the entry holding `key`, if one does.
    fn find(&self, key: &str) -> (r: Option<usize>)
        ensures
            match r {
                Some(i) => i < self.items@.len() && self.items@[i as int].0@ == key@,
                None => forall|i: int|
                    0 <= i < self.items@.len() ==> (#[trigger] self.items@[i]).0@ != key@,
            },
    {
        let n = self.items.len();
        let mut i: usize = 0;
        while i < n
            invariant
                n == self.items@.len(),
                i <= n,
                forall|j: int| 0 <= j < i ==> (#[trigger] self.items@[j]).0@ != key@,
            decreases n - i,
        {
            if str_eq(self.items[i].0.as_str(), key) {
                return Some(i);
            }
            i = i + 1;
        }
        None
    }

    /// Look up the value under `key`.
    pub fn get(&self, key: &str) -> (r: Option<&V>)
        requires
            self.wf(),
        ensures
            match r {
                Some(v) => self@.contains_key(key@) && *v == self@[key@],
                None => !self@.contains_key(key@),
            },
    {
        proof {
            lemma_pairs_map_contains(self.items@, key@);
        }
        match self.find(key) {
            Some(i) => {
                proof {
                    lemma_pairs_map_at(self.items@, i as int);
                }
                Some(&self.items[i].1)
            },
            None => None,
        }
    }

    /// Insert or replace the value under `key`.
    pub fn insert(&mut self, key: String, value: V)
        requires
            old(self).wf(),
        ensures
            final (self).wf(),
            final (self)@ == old(self)@.insert(key@, value),
    {
        let ghost items0 = self.items@;
        match self.find(key.as_str()) {
            Some(i) => {
                proof {
                    lemma_pairs_map_update(items0, i as int, (key, value));
                }
                self.items.set(i, (key, value));
                proof {
                    assert forall|i1: int, i2: int|
                        0 <= i1 < i2 < self.items@.len() implies (#[trigger] self.items@[i1]).0@
                        != (#[trigger] self.items@[i2]).0@ by {
                        assert(items0[i1].0@ != items0[i2].0@);
                    }
                }
            },
            None => {
                self.items.push((key, value));
                proof {
                    assert(self.items@.drop_last() =~= items0);
                    assert forall|i1: int, i2: int|
                        0 <= i1 < i2 < self.items@.len() implies (#[trigger] self.items@[i1]).0@
                        != (#[trigger] self.items@[i2]).0@ by {
                        if i2 < items0.len() {
                            assert(items0[i1].0@ != items0[i2].0@);
                        } else {
                            assert(self.items@[i1] == items0[i1]);
                        }
                    }
                }
            },
        }
    }

    /// Remove the entry under `key`, if any; absent keys are no error.
    pub fn remove(&mut self, key: &str)
        requires
            old(self).wf(),
        ensures
            final (self).wf(),
            final (self)@ == old(self)@.remove(key@),
    {
        let ghost items0 = self.items@;
        match self.find(key) {
            Some(i) => {
                proof {
                    lemma_pairs_map_remove(items0, i as int);
                }
                self.items.remove(i);
                proof {
                    assert forall|i1: int, i2: int|
                        0 <= i1 < i2 < self.items@.len() implies (#[trigger] self.items@[i1]).0@
                        != (#[trigger] self.items@[i2]).0@ by {
                        let j1 = if i1 < i { i1 } else { i1 + 1 };
                        let j2 = if i2 < i { i2 } else { i2 + 1 };
                        assert(self.items@[i1] == items0[j1]);
                        assert(self.items@[i2] == items0[j2]);
                        assert(items0[j1].0@ != items0[j2].0@);
                    }
                }
            },
            None => {
                proof {
                    lemma_pairs_map_contains(items0, key@);
                    assert(!old(self)@.contains_key(key@));
                    assert(old(self)@.remove(key@) =~= old(self)@);
                }
            },
        }
    }

    /// Clear the table.
    pub fn clear(&mut self)
        ensures
            final (self).wf(),
            final (self)@ == Map::<Seq<char>, V>::empty(),
            final (self).items@.len() == 0,
    {
        self.items.clear();
    }
}

/// A well-formed table's map has exactly one key per stored pair.
pub proof fn lemma_strmap_card<V>(m: &StrMap<V>)
    requires
        m.wf(),
    ensures
        m@.dom().finite(),
        m@.dom().len() == m.items@.len(),
{
    lemma_pairs_map_card(m.items@);
}

} // verus!
