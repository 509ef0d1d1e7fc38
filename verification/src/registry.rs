//! Values kept under texts, in the order in which the texts first came.
use vstd::prelude::*;

use crate::text::chars::same_text;
use crate::text::search;

verus! {

/// Values under distinct texts.
#[derive(Debug)]
pub struct Registry<V> {
    pub keys: Vec<String>,
    pub values: Vec<V>,
}

/// The first position at or after `i` where a text stands in a list.
pub open spec fn position_from(keys: Seq<Seq<char>>, key: Seq<char>, i: int) -> Option<int>
    decreases keys.len() - i,
{
    if i < 0 || i >= keys.len() {
        None
    } else if keys[i] == key {
        Some(i)
    } else {
        position_from(keys, key, i + 1)
    }
}

pub open spec fn position(keys: Seq<Seq<char>>, key: Seq<char>) -> Option<int> {
    position_from(keys, key, 0)
}

/// No two of the texts are the same.
pub open spec fn distinct(keys: Seq<Seq<char>>) -> bool {
    forall|i: int, j: int| 0 <= i < j < keys.len() ==> #[trigger] keys[i] != #[trigger] keys[j]
}

pub proof fn lemma_position_from(keys: Seq<Seq<char>>, key: Seq<char>, i: int)
    requires
        0 <= i,
    ensures
        match position_from(keys, key, i) {
            Some(k) => i <= k < keys.len() && keys[k] == key && forall|j: int|
                i <= j < k ==> #[trigger] keys[j] != key,
            None => forall|j: int| i <= j < keys.len() ==> #[trigger] keys[j] != key,
        },
    decreases keys.len() - i,
{
    if i < keys.len() && keys[i] != key {
        lemma_position_from(keys, key, i + 1);
    }
}

/// In a list of distinct texts, a text stands where it is found.
pub proof fn lemma_position_of(keys: Seq<Seq<char>>, i: int)
    requires
        distinct(keys),
        0 <= i < keys.len(),
    ensures
        position(keys, keys[i]) == Some(i),
{
    lemma_position_from(keys, keys[i], 0);
    let k = position(keys, keys[i])->0;
    if k < i {
        assert(keys[k] != keys[i]);
    }
}

impl<V> View for Registry<V> {
    type V = Map<Seq<char>, V>;

    open spec fn view(&self) -> Map<Seq<char>, V> {
        Map::new(
            |k: Seq<char>| position(search::views(self.keys@), k) is Some,
            |k: Seq<char>| self.values@[position(search::views(self.keys@), k)->0],
        )
    }
}

impl<V> Registry<V> {
    /// As many values as texts, and no text twice.
    pub open spec fn wf(self) -> bool {
        self.keys@.len() == self.values@.len() && distinct(search::views(self.keys@))
    }

    pub fn new() -> (r: Self)
        ensures
            r.wf(),
            r@ == Map::<Seq<char>, V>::empty(),
            r.keys@.len() == 0,
    {
        let r = Registry { keys: Vec::new(), values: Vec::new() };
        assert(r@ =~= Map::<Seq<char>, V>::empty());
        r
    }

    /// Where a text stands.
    pub fn find(&self, key: &str) -> (r: Option<usize>)
        requires
            self.wf(),
        ensures
            match r {
                Some(i) => i < self.keys@.len() && position(search::views(self.keys@), key@)
                    == Some(i as int) && self@.contains_key(key@) && self@[key@]
                    == self.values@[i as int],
                None => position(search::views(self.keys@), key@) is None && !self@.contains_key(
                    key@,
                ),
            },
    {
        let ghost all = search::views(self.keys@);
        let mut i: usize = 0;
        while i < self.keys.len()
            invariant
                i <= self.keys@.len(),
                all == search::views(self.keys@),
                position(all, key@) == position_from(all, key@, i as int),
            decreases self.keys@.len() - i,
        {
            assert(all[i as int] == self.keys@[i as int]@);
            if same_text(self.keys[i].as_str(), key) {
                return Some(i);
            }
            i = i + 1;
        }
        None
    }

    pub fn contains_key(&self, key: &str) -> (r: bool)
        requires
            self.wf(),
        ensures
            r == self@.contains_key(key@),
    {
        self.find(key).is_some()
    }

    pub fn get(&self, key: &str) -> (r: Option<&V>)
        requires
            self.wf(),
        ensures
            match r {
                Some(v) => self@.contains_key(key@) && self@[key@] == *v,
                None => !self@.contains_key(key@),
            },
    {
        match self.find(key) {
            Some(i) => Some(&self.values[i]),
            None => None,
        }
    }

    /// Puts a value under a text, in place of the one that was there.
    pub fn insert(&mut self, key: &str, value: V)
        requires
            old(self).wf(),
        ensures
            final(self).wf(),
            final(self)@ == old(self)@.insert(key@, value),
            search::views(final(self).keys@) == (if old(self)@.contains_key(key@) {
                search::views(old(self).keys@)
            } else {
                search::views(old(self).keys@).push(key@)
            }),
    {
        let ghost before = search::views(self.keys@);
        match self.find(key) {
            Some(i) => {
                self.values.set(i, value);
                proof {
                    assert forall|k: Seq<char>| #[trigger] self@.contains_key(k) && k != key@ implies self@[k]
                        == old(self)@[k] by {
                        lemma_position_from(before, k, 0);
                        lemma_position_from(before, key@, 0);
                    }
                    lemma_position_from(before, key@, 0);
                    assert(self@ =~= old(self)@.insert(key@, value));
                }
            },
            None => {
                let owned = key.to_string();
                proof {
                    search::lemma_views_push(self.keys@, owned);
                    lemma_position_from(before, key@, 0);
                }
                self.keys.push(owned);
                self.values.push(value);
                proof {
                    let after = search::views(self.keys@);
                    assert(after == before.push(key@));
                    assert forall|i: int, j: int| 0 <= i < j < after.len() implies #[trigger] after[i]
                        != #[trigger] after[j] by {
                        if j < before.len() {
                            assert(before[i] != before[j]);
                        } else {
                            assert(before[i] != key@);
                        }
                    }
                    assert forall|k: Seq<char>| #[trigger] self@.contains_key(k) <==> old(
                        self,
                    )@.insert(key@, value).contains_key(k) by {
                        lemma_position_from(before, k, 0);
                        lemma_position_from(after, k, 0);
                        assert(after[before.len() as int] == key@);
                        if position(before, k) is Some {
                            assert(after[position(before, k)->0] == k);
                        }
                        if position(after, k) is Some && position(after, k)->0 < before.len() {
                            assert(before[position(after, k)->0] == k);
                        }
                    }
                    assert forall|k: Seq<char>| #[trigger] self@.contains_key(k) implies self@[k]
                        == old(self)@.insert(key@, value)[k] by {
                        lemma_position_from(before, k, 0);
                        lemma_position_from(after, k, 0);
                        if k != key@ {
                            let i = position(before, k)->0;
                            assert(after[i] == before[i]);
                            lemma_position_of(after, i);
                        } else {
                            lemma_position_of(after, before.len() as int);
                        }
                    }
                    assert(self@ =~= old(self)@.insert(key@, value));
                }
            },
        }
    }

    /// Takes out the value under a text.
    pub fn remove(&mut self, key: &str) -> (r: Option<V>)
        requires
            old(self).wf(),
        ensures
            final(self).wf(),
            final(self)@ == old(self)@.remove(key@),
            match r {
                Some(v) => old(self)@.contains_key(key@) && old(self)@[key@] == v,
                None => !old(self)@.contains_key(key@),
            },
            match position(search::views(old(self).keys@), key@) {
                Some(i) => search::views(final(self).keys@) == search::views(old(self).keys@).remove(
                    i,
                ),
                None => *final(self) == *old(self),
            },
    {
        let ghost before = search::views(self.keys@);
        match self.find(key) {
            Some(i) => {
                self.keys.remove(i);
                let v = self.values.remove(i);
                proof {
                    let after = search::views(self.keys@);
                    let p = i as int;
                    lemma_position_from(before, key@, 0);
                    assert(after =~= before.remove(p));
                    assert forall|a: int, b: int| 0 <= a < b < after.len() implies #[trigger] after[a]
                        != #[trigger] after[b] by {
                        let x = if a < p {
                            a
                        } else {
                            a + 1
                        };
                        let y = if b < p {
                            b
                        } else {
                            b + 1
                        };
                        assert(before[x] != before[y]);
                    }
                    assert forall|k: Seq<char>| #[trigger] self@.contains_key(k) <==> old(
                        self,
                    )@.remove(key@).contains_key(k) by {
                        lemma_position_from(before, k, 0);
                        lemma_position_from(after, k, 0);
                        if position(before, k) is Some && k != key@ {
                            let x = position(before, k)->0;
                            assert(after[if x < p {
                                x
                            } else {
                                x - 1
                            }] == k);
                        }
                        if position(after, k) is Some {
                            let x = position(after, k)->0;
                            let y = if x < p {
                                x
                            } else {
                                x + 1
                            };
                            assert(before[y] == k);
                            assert(before[p] == key@);
                            if k == key@ {
                                if y < p {
                                    assert(before[y] != before[p]);
                                } else {
                                    assert(before[p] != before[y]);
                                }
                            }
                        }
                    }
                    assert forall|k: Seq<char>| #[trigger] self@.contains_key(k) implies self@[k]
                        == old(self)@[k] by {
                        lemma_position_from(after, k, 0);
                        let x = position(after, k)->0;
                        let y = if x < p {
                            x
                        } else {
                            x + 1
                        };
                        assert(before[y] == k);
                        lemma_position_of(before, y);
                    }
                    assert(self@ =~= old(self)@.remove(key@));
                }
                Some(v)
            },
            None => {
                assert(self@ =~= old(self)@.remove(key@));
                None
            },
        }
    }
}

} // verus!
