//! A small table of values by text keys.

use vstd::prelude::*;

use crate::text::same;

verus! {

/// Values by key, no two under the same key, in the order in which the keys
/// first came.
#[derive(Debug)]
pub struct Keyed<T> {
    pub items: Vec<(String, T)>,
}

/// No two items have the same key.
pub open spec fn distinct<T>(items: Seq<(String, T)>) -> bool {
    forall|i: int, j: int|
        0 <= i < j < items.len() ==> (#[trigger] items[i]).0@ != (#[trigger] items[j]).0@
}

/// The values by key.
pub open spec fn keyed_view<T>(items: Seq<(String, T)>) -> Map<Seq<char>, T>
    decreases items.len(),
{
    if items.len() == 0 {
        Map::empty()
    } else {
        keyed_view(items.drop_last()).insert(items.last().0@, items.last().1)
    }
}

/// The values by key are the values of the list.
pub proof fn lemma_keyed<T>(items: Seq<(String, T)>)
    requires
        distinct(items),
    ensures
        forall|i: int|
            0 <= i < items.len() ==> keyed_view(items).contains_key((#[trigger] items[i]).0@)
                && keyed_view(items)[items[i].0@] == items[i].1,
        forall|k: Seq<char>| #[trigger]
            keyed_view(items).contains_key(k) ==> exists|i: int|
                0 <= i < items.len() && (#[trigger] items[i]).0@ == k,
    decreases items.len(),
{
    if items.len() > 0 {
        let init = items.drop_last();
        assert forall|i: int, j: int| 0 <= i < j < init.len() implies (#[trigger] init[i]).0@ != (
        #[trigger] init[j]).0@ by {
            assert(items[i].0@ != items[j].0@);
        }
        lemma_keyed(init);
        assert forall|i: int| 0 <= i < items.len() implies keyed_view(items).contains_key(
            (#[trigger] items[i]).0@,
        ) && keyed_view(items)[items[i].0@] == items[i].1 by {
            if i < init.len() {
                assert(init[i] == items[i]);
                assert(items[i].0@ != items[items.len() - 1].0@);
            }
        }
        assert forall|k: Seq<char>| #[trigger] keyed_view(items).contains_key(k) implies exists|
            i: int,
        | 0 <= i < items.len() && (#[trigger] items[i]).0@ == k by {
            if k == items.last().0@ {
                assert(items[items.len() - 1].0@ == k);
            } else {
                assert(keyed_view(init).contains_key(k));
                let i = choose|i: int| 0 <= i < init.len() && (#[trigger] init[i]).0@ == k;
                assert(items[i].0@ == k);
            }
        }
    }
}

/// The value under a key is replaced.
proof fn lemma_replace<T>(items: Seq<(String, T)>, i: int, e: (String, T))
    requires
        distinct(items),
        0 <= i < items.len(),
        e.0@ == items[i].0@,
    ensures
        distinct(items.update(i, e)),
        keyed_view(items.update(i, e)) == keyed_view(items).insert(e.0@, e.1),
{
    let after = items.update(i, e);
    assert forall|a: int, b: int| 0 <= a < b < after.len() implies (#[trigger] after[a]).0@ != (
    #[trigger] after[b]).0@ by {
        assert(items[a].0@ != items[b].0@);
    }
    lemma_keyed(items);
    lemma_keyed(after);
    let x = keyed_view(after);
    let y = keyed_view(items).insert(e.0@, e.1);
    assert forall|k: Seq<char>|
        #![trigger x.dom().contains(k)]
        #![trigger y.dom().contains(k)]
        #![trigger x[k]]
        x.contains_key(k) == y.contains_key(k) && (x.contains_key(k) ==> x[k] == y[k]) by {
        if x.contains_key(k) {
            let j = choose|j: int| 0 <= j < after.len() && (#[trigger] after[j]).0@ == k;
            if j != i {
                assert(items[j].0@ == k);
                if j < i {
                    assert(items[j].0@ != items[i].0@);
                } else {
                    assert(items[i].0@ != items[j].0@);
                }
            }
        }
        if y.contains_key(k) {
            if k == e.0@ {
                assert(after[i].0@ == k);
            } else {
                let j = choose|j: int| 0 <= j < items.len() && (#[trigger] items[j]).0@ == k;
                assert(after[j].0@ == k);
            }
        }
    }
    assert(x =~= y);
}

/// A value under a key is taken out.
proof fn lemma_take_out<T>(items: Seq<(String, T)>, i: int)
    requires
        distinct(items),
        0 <= i < items.len(),
    ensures
        distinct(items.remove(i)),
        keyed_view(items.remove(i)) == keyed_view(items).remove(items[i].0@),
{
    let after = items.remove(i);
    assert forall|a: int, b: int| 0 <= a < b < after.len() implies (#[trigger] after[a]).0@ != (
    #[trigger] after[b]).0@ by {
        let x = if a < i {
            a
        } else {
            a + 1
        };
        let y = if b < i {
            b
        } else {
            b + 1
        };
        assert(items[x].0@ != items[y].0@);
    }
    lemma_keyed(items);
    lemma_keyed(after);
    let x = keyed_view(after);
    let y = keyed_view(items).remove(items[i].0@);
    assert forall|k: Seq<char>|
        #![trigger x.dom().contains(k)]
        #![trigger y.dom().contains(k)]
        #![trigger x[k]]
        x.contains_key(k) == y.contains_key(k) && (x.contains_key(k) ==> x[k] == y[k]) by {
        if x.contains_key(k) {
            let j = choose|j: int| 0 <= j < after.len() && (#[trigger] after[j]).0@ == k;
            let j2 = if j < i {
                j
            } else {
                j + 1
            };
            assert(items[j2] == after[j]);
            if j2 < i {
                assert(items[j2].0@ != items[i].0@);
            } else {
                assert(items[i].0@ != items[j2].0@);
            }
        }
        if y.contains_key(k) {
            let j = choose|j: int| 0 <= j < items.len() && (#[trigger] items[j]).0@ == k;
            if j < i {
                assert(after[j].0@ == k);
            } else {
                assert(after[j - 1].0@ == k);
            }
        }
    }
    assert(x =~= y);
}

impl<T> Keyed<T> {
    pub open spec fn wf(self) -> bool {
        distinct(self.items@)
    }

    pub open spec fn view(self) -> Map<Seq<char>, T> {
        keyed_view(self.items@)
    }

    /// A table without values.
    pub fn new() -> (r: Keyed<T>)
        ensures
            r.wf(),
            r.view() == Map::<Seq<char>, T>::empty(),
    {
        Keyed { items: Vec::new() }
    }

    /// The position of `key`.
    pub fn position(&self, key: &str) -> (r: Option<usize>)
        requires
            self.wf(),
        ensures
            match r {
                Some(i) => i < self.items.len() && self.items[i as int].0@ == key@
                    && self.view().contains_key(key@) && self.view()[key@]
                    == self.items[i as int].1,
                None => !self.view().contains_key(key@),
            },
    {
        let mut i: usize = 0;
        while i < self.items.len()
            invariant
                i <= self.items.len(),
                self.wf(),
                forall|j: int| 0 <= j < i ==> (#[trigger] self.items[j]).0@ != key@,
            decreases self.items.len() - i,
        {
            if same(self.items[i].0.as_str(), key) {
                proof {
                    lemma_keyed(self.items@);
                    assert(self.items@[i as int].0@ == key@);
                }
                return Some(i);
            }
            i += 1;
        }
        proof {
            lemma_keyed(self.items@);
        }
        None
    }

    /// The value under `key`.
    pub fn get(&self, key: &str) -> (r: Option<&T>)
        requires
            self.wf(),
        ensures
            match r {
                Some(v) => self.view().contains_key(key@) && self.view()[key@] == *v,
                None => !self.view().contains_key(key@),
            },
    {
        match self.position(key) {
            Some(i) => Some(&self.items[i].1),
            None => None,
        }
    }

    /// The value under `key`, to be changed in place.
    pub fn get_mut(&mut self, key: &str) -> (r: Option<&mut T>)
        requires
            old(self).wf(),
        ensures
            final(self).wf(),
            match r {
                Some(v) => old(self).view().contains_key(key@) && *v == old(self).view()[key@]
                    && final(self).view() == old(self).view().insert(key@, *final(v)),
                None => !old(self).view().contains_key(key@) && *final(self) == *old(self),
            },
    {
        match self.position(key) {
            Some(i) => {
                let ghost before = self.items@;
                let slot = &mut self.items[i].1;
                proof {
                    lemma_replace(before, i as int, (before[i as int].0, *final(slot)));
                }
                Some(slot)
            },
            None => None,
        }
    }

    /// Stores a value under `key`, in place of one that was there.
    pub fn insert(&mut self, key: String, value: T)
        requires
            old(self).wf(),
        ensures
            final(self).wf(),
            final(self).view() == old(self).view().insert(key@, value),
    {
        match self.position(key.as_str()) {
            Some(i) => {
                proof {
                    lemma_replace(self.items@, i as int, (key, value));
                }
                self.items.set(i, (key, value));
            },
            None => {
                proof {
                    let after = self.items@.push((key, value));
                    lemma_keyed(self.items@);
                    assert forall|a: int, b: int| 0 <= a < b < after.len() implies (
                    #[trigger] after[a]).0@ != (#[trigger] after[b]).0@ by {
                        if b < self.items.len() {
                            assert(self.items@[a].0@ != self.items@[b].0@);
                        } else {
                            assert(self.view().contains_key(self.items@[a].0@));
                        }
                    }
                    assert(after.drop_last() =~= self.items@);
                }
                self.items.push((key, value));
            },
        }
    }

    /// Takes the value under `key` out.
    pub fn remove(&mut self, key: &str) -> (r: Option<T>)
        requires
            old(self).wf(),
        ensures
            final(self).wf(),
            final(self).view() == old(self).view().remove(key@),
            match r {
                Some(v) => old(self).view().contains_key(key@) && old(self).view()[key@] == v,
                None => !old(self).view().contains_key(key@),
            },
    {
        match self.position(key) {
            Some(i) => {
                proof {
                    lemma_take_out(self.items@, i as int);
                }
                let taken = self.items.remove(i);
                Some(taken.1)
            },
            None => {
                assert(self.view().remove(key@) =~= self.view());
                None
            },
        }
    }
}

} // verus!
