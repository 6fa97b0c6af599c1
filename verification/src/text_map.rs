//! A map whose keys are texts.

use vstd::prelude::*;
use crate::text;

verus! {

/// A map from texts to values. The keys keep the order in which they came.
pub struct TextMap<V> {
    entries: Vec<(String, V)>,
}

/// Whether `entries` holds `key` at `i`.
pub open spec fn holds_at<V>(entries: Seq<(String, V)>, key: Seq<char>, i: int) -> bool {
    0 <= i < entries.len() && entries[i].0@ == key
}

/// The place of `key` in `entries`.
pub open spec fn place_of<V>(entries: Seq<(String, V)>, key: Seq<char>) -> int {
    choose|i: int| holds_at(entries, key, i)
}

impl<V> View for TextMap<V> {
    type V = Map<Seq<char>, V>;

    closed spec fn view(&self) -> Map<Seq<char>, V> {
        Map::new(
            |key: Seq<char>| exists|i: int| holds_at(self.entries@, key, i),
            |key: Seq<char>| self.entries@[place_of(self.entries@, key)].1,
        )
    }
}

impl<V> TextMap<V> {
    /// No key occurs twice.
    pub closed spec fn wf(&self) -> bool {
        forall|i: int, j: int|
            #![trigger self.entries@[i], self.entries@[j]]
            0 <= i < j < self.entries@.len() ==> self.entries@[i].0@ != self.entries@[j].0@
    }

    /// The keys, in the order in which they came.
    pub closed spec fn key_seq(&self) -> Seq<Seq<char>> {
        Seq::new(self.entries@.len(), |i: int| self.entries@[i].0@)
    }

    proof fn lemma_value_at(&self, i: int)
        requires
            self.wf(),
            0 <= i < self.entries@.len(),
        ensures
            self@.contains_key(self.entries@[i].0@),
            self@[self.entries@[i].0@] == self.entries@[i].1,
    {
        let key = self.entries@[i].0@;
        assert(holds_at(self.entries@, key, i));
        let place = place_of(self.entries@, key);
        assert(holds_at(self.entries@, key, place));
        if place < i {
            assert(self.entries@[place].0@ != self.entries@[i].0@);
        } else if i < place {
            assert(self.entries@[i].0@ != self.entries@[place].0@);
        }
    }

    pub fn new() -> (r: TextMap<V>)
        ensures
            r.wf(),
            r@ == Map::<Seq<char>, V>::empty(),
    {
        let r = TextMap { entries: Vec::new() };
        assert(r@ =~= Map::<Seq<char>, V>::empty());
        r
    }

    /// The place of `key`.
    fn place(&self, key: &str) -> (r: Option<usize>)
        requires
            self.wf(),
        ensures
            r is Some <==> self@.contains_key(key@),
            r matches Some(i) ==> holds_at(self.entries@, key@, i as int) && self@[key@] == self.entries@[i as int].1,
    {
        let mut i: usize = 0;
        while i < self.entries.len()
            invariant
                self.wf(),
                i <= self.entries@.len(),
                forall|j: int| 0 <= j < i ==> !holds_at(self.entries@, key@, j),
            decreases self.entries@.len() - i,
        {
            if text::same(self.entries[i].0.as_str(), key) {
                proof {
                    self.lemma_value_at(i as int);
                }
                return Some(i);
            }
            i = i + 1;
        }
        None
    }

    pub fn contains_key(&self, key: &str) -> (r: bool)
        requires
            self.wf(),
        ensures
            r == self@.contains_key(key@),
    {
        self.place(key).is_some()
    }

    pub fn get(&self, key: &str) -> (r: Option<&V>)
        requires
            self.wf(),
        ensures
            match r {
                Some(value) => self@.contains_key(key@) && *value == self@[key@],
                None => !self@.contains_key(key@),
            },
    {
        match self.place(key) {
            Some(i) => Some(&self.entries[i].1),
            None => None,
        }
    }

    /// Takes `key` away. Gives the value that it had.
    pub fn remove(&mut self, key: &str) -> (r: Option<V>)
        requires
            old(self).wf(),
        ensures
            final(self).wf(),
            final(self)@ == old(self)@.remove(key@),
            r == (if old(self)@.contains_key(key@) {
                Some(old(self)@[key@])
            } else {
                None
            }),
    {
        match self.place(key) {
            Some(i) => {
                let ghost before = *self;
                let (_, value): (String, V) = self.entries.remove(i);
                proof {
                    let k = i as int;
                    assert(self.entries@ == before.entries@.remove(k));
                    assert forall|a: int, b: int|
                        #![trigger self.entries@[a], self.entries@[b]]
                        0 <= a < b < self.entries@.len() implies self.entries@[a].0@ != self.entries@[b].0@ by {
                        let x = if a < k { a } else { a + 1 };
                        let y = if b < k { b } else { b + 1 };
                        assert(before.entries@[x].0@ != before.entries@[y].0@);
                    }
                    assert forall|other: Seq<char>|
                        #[trigger] self@.contains_key(other) == (before@.contains_key(other) && other != key@) by {
                        if self@.contains_key(other) {
                            let p = place_of(self.entries@, other);
                            assert(holds_at(self.entries@, other, p));
                            let q = if p < k { p } else { p + 1 };
                            assert(holds_at(before.entries@, other, q));
                            if q < k {
                                assert(before.entries@[q].0@ != before.entries@[k].0@);
                            } else {
                                assert(before.entries@[k].0@ != before.entries@[q].0@);
                            }
                        }
                        if before@.contains_key(other) && other != key@ {
                            let q = place_of(before.entries@, other);
                            assert(holds_at(before.entries@, other, q));
                            let p = if q < k { q } else { q - 1 };
                            assert(holds_at(self.entries@, other, p));
                        }
                    }
                    assert forall|other: Seq<char>| #[trigger] self@.contains_key(other) implies self@[other]
                        == before@[other] by {
                        let p = place_of(self.entries@, other);
                        assert(holds_at(self.entries@, other, p));
                        let q = if p < k { p } else { p + 1 };
                        self.lemma_value_at(p);
                        before.lemma_value_at(q);
                    }
                    assert(self@ =~= before@.remove(key@));
                }
                Some(value)
            },
            None => {
                assert(self@ =~= self@.remove(key@));
                None
            },
        }
    }

    /// Sets the value of `key`. Gives the value that it had before.
    pub fn insert(&mut self, key: String, value: V) -> (r: Option<V>)
        requires
            old(self).wf(),
        ensures
            final(self).wf(),
            final(self)@ == old(self)@.insert(key@, value),
            r == (if old(self)@.contains_key(key@) {
                Some(old(self)@[key@])
            } else {
                None
            }),
    {
        let existing: Option<V> = self.remove(key.as_str());
        let ghost before = *self;
        let ghost key_text = key@;
        self.entries.push((key, value));
        proof {
            let n = before.entries@.len() as int;
            assert forall|i: int| 0 <= i < n implies before.entries@[i].0@ != key_text by {
                if before.entries@[i].0@ == key_text {
                    before.lemma_value_at(i);
                }
            }
            assert forall|other: Seq<char>|
                #[trigger] self@.contains_key(other) == (before@.contains_key(other) || other == key_text) by {
                if self@.contains_key(other) {
                    let p = place_of(self.entries@, other);
                    assert(holds_at(self.entries@, other, p));
                    if p < n {
                        assert(holds_at(before.entries@, other, p));
                    }
                }
                if before@.contains_key(other) {
                    let q = place_of(before.entries@, other);
                    assert(holds_at(before.entries@, other, q));
                    assert(holds_at(self.entries@, other, q));
                }
                assert(holds_at(self.entries@, key_text, n));
            }
            assert(self.wf());
            assert forall|other: Seq<char>| #[trigger] before@.contains_key(other) implies self@[other]
                == before@[other] by {
                let q = place_of(before.entries@, other);
                assert(holds_at(before.entries@, other, q));
                before.lemma_value_at(q);
                self.lemma_value_at(q);
            }
            self.lemma_value_at(n);
            assert(self@ =~= before@.insert(key_text, value));
        }
        existing
    }

    /// The keys.
    pub fn get_keys(&self) -> (r: Vec<String>)
        requires
            self.wf(),
        ensures
            text::texts(r@) == self.key_seq(),
            self.key_seq().no_duplicates(),
            forall|key: Seq<char>| self.key_seq().contains(key) <==> #[trigger] self@.contains_key(key),
    {
        let mut r: Vec<String> = Vec::new();
        let mut i: usize = 0;
        while i < self.entries.len()
            invariant
                self.wf(),
                i <= self.entries@.len(),
                r@.len() == i,
                forall|j: int| 0 <= j < i ==> (#[trigger] r@[j])@ == self.entries@[j].0@,
            decreases self.entries@.len() - i,
        {
            r.push(self.entries[i].0.as_str().to_owned());
            i = i + 1;
        }
        proof {
            assert(text::texts(r@) =~= self.key_seq());
            assert forall|key: Seq<char>| self.key_seq().contains(key) <==> #[trigger] self@.contains_key(key) by {
                if self.key_seq().contains(key) {
                    let j = choose|j: int| 0 <= j < self.key_seq().len() && self.key_seq()[j] == key;
                    assert(holds_at(self.entries@, key, j));
                }
                if self@.contains_key(key) {
                    let j = place_of(self.entries@, key);
                    assert(holds_at(self.entries@, key, j));
                    assert(self.key_seq()[j] == key);
                }
            }
        }
        r
    }
}

} // verus!
