//! A map from texts to values, kept in the order in which its keys arrived.

use crate::sets::{distinct_texts, key_at, lemma_key_position};
use crate::text::texts;
use vstd::prelude::*;

verus! {

/// A map from texts to values. No key occurs twice; what came first stays
/// first.
#[derive(Debug)]
pub struct TextMap<V> {
    keys: Vec<String>,
    values: Vec<V>,
}

impl<V> View for TextMap<V> {
    type V = Map<Seq<char>, V>;

    closed spec fn view(&self) -> Map<Seq<char>, V> {
        Map::new(
            |k: Seq<char>| texts(self.keys@).contains(k),
            |k: Seq<char>| self.values@[choose|i: int| key_at(texts(self.keys@), k, i)],
        )
    }
}

impl<V> TextMap<V> {
    #[verifier::type_invariant]
    spec fn inv(self) -> bool {
        distinct_texts(texts(self.keys@)) && self.keys@.len() == self.values@.len()
    }

    /// The keys in their order.
    pub closed spec fn key_order(&self) -> Seq<Seq<char>> {
        texts(self.keys@)
    }

    pub fn new() -> (r: Self)
        ensures
            r@ == Map::<Seq<char>, V>::empty(),
            r.key_order() == Seq::<Seq<char>>::empty(),
    {
        let r = TextMap { keys: Vec::new(), values: Vec::new() };
        assert(r@ =~= Map::<Seq<char>, V>::empty());
        assert(r.key_order() =~= Seq::<Seq<char>>::empty());
        r
    }

    fn position(&self, key: &str) -> (r: Option<usize>)
        ensures
            match r {
                Some(i) => key_at(texts(self.keys@), key@, i as int),
                None => !texts(self.keys@).contains(key@),
            },
    {
        let wanted = key.to_owned();
        let mut i: usize = 0;
        while i < self.keys.len()
            invariant
                i <= self.keys.len(),
                wanted@ == key@,
                forall|j: int| 0 <= j < i ==> texts(self.keys@)[j] != key@,
            decreases self.keys.len() - i,
        {
            if self.keys[i] == wanted {
                return Some(i);
            }
            i += 1;
        }
        None
    }

    /// The value under `key`.
    pub fn get(&self, key: &str) -> (r: Option<&V>)
        ensures
            match r {
                Some(value) => self@.contains_key(key@) && *value == self@[key@],
                None => !self@.contains_key(key@),
            },
    {
        proof {
            use_type_invariant(self);
        }
        match self.position(key) {
            Some(i) => {
                proof {
                    lemma_key_position(texts(self.keys@), key@, i as int);
                }
                Some(&self.values[i])
            },
            None => None,
        }
    }

    pub fn contains_key(&self, key: &str) -> (r: bool)
        ensures
            r == self@.contains_key(key@),
    {
        self.position(key).is_some()
    }

    /// How many keys the map holds.
    pub fn len(&self) -> (r: usize)
        ensures
            r == self.key_order().len(),
    {
        self.keys.len()
    }

    /// The keys in their order: each once.
    pub fn keys(&self) -> (r: Vec<String>)
        ensures
            texts(r@) == self.key_order(),
            distinct_texts(texts(r@)),
            forall|k: Seq<char>| self@.contains_key(k) <==> texts(r@).contains(k),
    {
        proof {
            use_type_invariant(self);
        }
        let r = self.keys.clone();
        assert(texts(r@) =~= texts(self.keys@));
        r
    }

    /// Puts `value` under `key`; a key that is already there keeps its place.
    pub fn insert(&mut self, key: String, value: V)
        ensures
            final(self)@ == old(self)@.insert(key@, value),
            final(self).key_order() == if old(self)@.contains_key(key@) {
                old(self).key_order()
            } else {
                old(self).key_order().push(key@)
            },
    {
        proof {
            use_type_invariant(&*self);
        }
        let found = self.position(key.as_str());
        let ghost old_keys = texts(self.keys@);
        let ghost old_values = self.values@;
        let mut taken = TextMap::new();
        std::mem::swap(self, &mut taken);
        let mut keys = taken.keys;
        let mut values = taken.values;
        match found {
            Some(i) => {
                values.set(i, value);
            },
            None => {
                keys.push(key);
                values.push(value);
                assert(texts(keys@) =~= old_keys.push(key@));
            },
        }
        let ghost new_keys = texts(keys@);
        let ghost new_values = values@;
        *self = TextMap { keys, values };
        assert(self@ =~= old(self)@.insert(key@, value)) by {
            assert forall|k: Seq<char>| #[trigger]
                self@.contains_key(k) <==> old(self)@.insert(key@, value).contains_key(k) by {
                if new_keys.contains(k) {
                    let j = choose|j: int| 0 <= j < new_keys.len() && new_keys[j] == k;
                    if k != key@ {
                        assert(old_keys[j] == k);
                    }
                }
                if old_keys.contains(k) {
                    let j = choose|j: int| 0 <= j < old_keys.len() && old_keys[j] == k;
                    assert(new_keys[j] == k);
                }
                if k == key@ {
                    match found {
                        Some(i) => {
                            assert(new_keys[i as int] == k);
                        },
                        None => {
                            assert(new_keys[old_keys.len() as int] == k);
                        },
                    }
                }
            }
            assert forall|k: Seq<char>| #[trigger] self@.contains_key(k) implies self@[k] == old(
                self,
            )@.insert(key@, value)[k] by {
                let j = choose|j: int| key_at(new_keys, k, j);
                assert(key_at(new_keys, k, j)) by {
                    let w = choose|w: int| 0 <= w < new_keys.len() && new_keys[w] == k;
                    assert(key_at(new_keys, k, w));
                }
                if k == key@ {
                    match found {
                        Some(i) => {
                            lemma_key_position(new_keys, k, i as int);
                        },
                        None => {
                            lemma_key_position(new_keys, k, old_keys.len() as int);
                        },
                    }
                } else {
                    assert(key_at(old_keys, k, j));
                    lemma_key_position(old_keys, k, j);
                    assert(new_values[j] == old_values[j]);
                }
            }
        }
    }
}

} // verus!
