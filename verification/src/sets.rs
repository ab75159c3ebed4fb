//! Small sets of texts and of packet sequences, and maps from a channel to
//! its packets, all kept in the order in which their members arrived.

use crate::text::texts;
use vstd::prelude::*;

verus! {

/// A set of texts. Nothing occurs twice; what came first stays first.
#[derive(Debug)]
pub struct TextSet {
    items: Vec<String>,
}

/// A set of packet sequences. Nothing occurs twice; what came first stays
/// first.
#[derive(Debug)]
pub struct SequenceSet {
    items: Vec<u64>,
}

/// The packets of one channel.
#[derive(Debug)]
pub struct PacketEntry {
    pub channel: String,
    pub sequences: SequenceSet,
}

/// A map from channels to their packets. No channel occurs twice; what came
/// first stays first.
#[derive(Debug)]
pub struct PacketMap {
    entries: Vec<PacketEntry>,
}

/// Whether no text occurs twice in `items`.
pub open spec fn distinct_texts(items: Seq<Seq<char>>) -> bool {
    forall|i: int, j: int| 0 <= i < j < items.len() ==> items[i] != items[j]
}

/// Whether no number occurs twice in `items`.
pub open spec fn distinct_numbers(items: Seq<u64>) -> bool {
    forall|i: int, j: int| 0 <= i < j < items.len() ==> items[i] != items[j]
}

/// The channels of a list of entries, in their order.
pub open spec fn entry_keys(entries: Seq<PacketEntry>) -> Seq<Seq<char>> {
    entries.map_values(|e: PacketEntry| e.channel@)
}

/// The position of `key` among `keys`.
pub open spec fn key_at(keys: Seq<Seq<char>>, key: Seq<char>, i: int) -> bool {
    0 <= i < keys.len() && keys[i] == key
}

impl View for TextSet {
    type V = Set<Seq<char>>;

    closed spec fn view(&self) -> Set<Seq<char>> {
        Set::new(|t: Seq<char>| texts(self.items@).contains(t))
    }
}

impl View for SequenceSet {
    type V = Set<u64>;

    closed spec fn view(&self) -> Set<u64> {
        Set::new(|n: u64| self.items@.contains(n))
    }
}

impl View for PacketMap {
    type V = Map<Seq<char>, Set<u64>>;

    closed spec fn view(&self) -> Map<Seq<char>, Set<u64>> {
        Map::new(
            |k: Seq<char>| entry_keys(self.entries@).contains(k),
            |k: Seq<char>|
                self.entries@[choose|i: int| key_at(entry_keys(self.entries@), k, i)].sequences@,
        )
    }
}

impl TextSet {
    #[verifier::type_invariant]
    spec fn inv(self) -> bool {
        distinct_texts(texts(self.items@))
    }

    /// The members in their order.
    pub closed spec fn order(&self) -> Seq<Seq<char>> {
        texts(self.items@)
    }

    pub fn new() -> (r: Self)
        ensures
            r@ == Set::<Seq<char>>::empty(),
            r.order() == Seq::<Seq<char>>::empty(),
    {
        let r = TextSet { items: Vec::new() };
        assert(r@ =~= Set::<Seq<char>>::empty());
        assert(r.order() =~= Seq::<Seq<char>>::empty());
        r
    }

    pub fn contains(&self, text: &str) -> (r: bool)
        ensures
            r == self@.contains(text@),
    {
        let wanted = text.to_owned();
        let mut i: usize = 0;
        while i < self.items.len()
            invariant
                i <= self.items.len(),
                wanted@ == text@,
                forall|j: int| 0 <= j < i ==> texts(self.items@)[j] != text@,
            decreases self.items.len() - i,
        {
            if self.items[i] == wanted {
                assert(texts(self.items@)[i as int] == text@);
                return true;
            }
            i += 1;
        }
        false
    }

    pub fn is_empty(&self) -> (r: bool)
        ensures
            r == (self@ == Set::<Seq<char>>::empty()),
            r == (self.order().len() == 0),
    {
        if self.items.len() == 0 {
            assert(self@ =~= Set::<Seq<char>>::empty());
            true
        } else {
            assert(texts(self.items@)[0] == self.items@[0]@);
            assert(self@.contains(self.items@[0]@));
            false
        }
    }

    /// Adds `text`; a text that is already a member stays where it is.
    pub fn insert(&mut self, text: String) -> (added: bool)
        ensures
            final(self)@ == old(self)@.insert(text@),
            added == !old(self)@.contains(text@),
            final(self).order() == if added {
                old(self).order().push(text@)
            } else {
                old(self).order()
            },
    {
        if self.contains(text.as_str()) {
            assert(self@ =~= self@.insert(text@));
            false
        } else {
            proof {
                use_type_invariant(&*self);
            }
            let ghost before = self.items@;
            let mut taken = TextSet::new();
            std::mem::swap(self, &mut taken);
            let mut items = taken.items;
            items.push(text);
            assert(texts(items@) =~= texts(before).push(text@));
            *self = TextSet { items };
            assert(self@ =~= old(self)@.insert(text@)) by {
                assert forall|t: Seq<char>|
                    self@.contains(t) <==> old(self)@.insert(text@).contains(t) by {
                    if old(self)@.insert(text@).contains(t) {
                        if t == text@ {
                            assert(texts(self.items@)[before.len() as int] == t);
                        } else {
                            let i = choose|i: int|
                                0 <= i < texts(before).len() && texts(before)[i] == t;
                            assert(texts(self.items@)[i] == t);
                        }
                    }
                }
            }
            true
        }
    }

    /// Takes `text` out, where it is a member.
    pub fn remove(&mut self, text: &str) -> (removed: bool)
        ensures
            final(self)@ == old(self)@.remove(text@),
            removed == old(self)@.contains(text@),
    {
        proof {
            use_type_invariant(&*self);
        }
        let wanted = text.to_owned();
        let ghost before = texts(self.items@);
        let mut i: usize = 0;
        while i < self.items.len()
            invariant
                i <= self.items.len(),
                wanted@ == text@,
                before == texts(self.items@),
                distinct_texts(before),
                forall|t: Seq<char>| old(self)@.contains(t) <==> before.contains(t),
                forall|j: int| 0 <= j < i ==> before[j] != text@,
            decreases self.items.len() - i,
        {
            if self.items[i] == wanted {
                assert(before[i as int] == text@);
                assert(before.contains(text@));
                assert(old(self)@.contains(text@));
                let mut taken = TextSet::new();
                std::mem::swap(self, &mut taken);
                let mut items = taken.items;
                items.remove(i);
                assert(texts(items@) =~= before.remove(i as int));
                *self = TextSet { items };
                assert(self@ =~= old(self)@.remove(text@)) by {
                    let after = before.remove(i as int);
                    assert forall|t: Seq<char>|
                        self@.contains(t) <==> old(self)@.remove(text@).contains(t) by {
                        if after.contains(t) {
                            let j = choose|j: int| 0 <= j < after.len() && after[j] == t;
                            if j < i {
                                assert(before[j] == t);
                            } else {
                                assert(before[j + 1] == t);
                            }
                        }
                        if before.contains(t) && t != text@ {
                            let j = choose|j: int| 0 <= j < before.len() && before[j] == t;
                            if j < i {
                                assert(after[j] == t);
                            } else {
                                assert(after[j - 1] == t);
                            }
                        }
                    }
                }
                return true;
            }
            i += 1;
        }
        assert(self@ =~= self@.remove(text@));
        false
    }

    /// The members in their order: each once.
    pub fn to_vec(&self) -> (r: Vec<String>)
        ensures
            texts(r@) == self.order(),
            distinct_texts(texts(r@)),
            forall|t: Seq<char>| self@.contains(t) <==> texts(r@).contains(t),
    {
        proof {
            use_type_invariant(self);
        }
        let r = self.items.clone();
        assert(texts(r@) =~= texts(self.items@));
        r
    }

    /// Whether every member is a member of `other`.
    pub fn is_subset_of(&self, other: &TextSet) -> (r: bool)
        ensures
            r == self@.subset_of(other@),
    {
        let mut i: usize = 0;
        while i < self.items.len()
            invariant
                i <= self.items.len(),
                forall|j: int| 0 <= j < i ==> other@.contains(texts(self.items@)[j]),
            decreases self.items.len() - i,
        {
            if !other.contains(self.items[i].as_str()) {
                assert(texts(self.items@)[i as int] == self.items@[i as int]@);
                assert(self@.contains(self.items@[i as int]@));
                return false;
            }
            i += 1;
        }
        true
    }

    /// Whether both sets hold the same members.
    pub fn same(&self, other: &TextSet) -> (r: bool)
        ensures
            r == (self@ == other@),
    {
        let r = self.is_subset_of(other) && other.is_subset_of(self);
        assert(r ==> self@ =~= other@);
        r
    }

    /// The members that `other` does not hold, in their order.
    pub fn difference(&self, other: &TextSet) -> (r: TextSet)
        ensures
            r@ == self@.difference(other@),
    {
        let mut out = TextSet::new();
        let mut i: usize = 0;
        while i < self.items.len()
            invariant
                i <= self.items.len(),
                forall|t: Seq<char>|
                    out@.contains(t) <==> (!other@.contains(t) && exists|j: int|
                        0 <= j < i && texts(self.items@)[j] == t),
            decreases self.items.len() - i,
        {
            let ghost before = out@;
            if !other.contains(self.items[i].as_str()) {
                out.insert(self.items[i].clone());
            }
            assert forall|t: Seq<char>|
                out@.contains(t) <==> (!other@.contains(t) && exists|j: int|
                    0 <= j < i + 1 && texts(self.items@)[j] == t) by {
                let here = texts(self.items@)[i as int];
                if out@.contains(t) {
                    if before.contains(t) {
                        let j = choose|j: int| 0 <= j < i && texts(self.items@)[j] == t;
                        assert(0 <= j < i + 1 && texts(self.items@)[j] == t);
                    } else {
                        assert(t == here);
                        assert(0 <= i < i + 1 && texts(self.items@)[i as int] == t);
                    }
                }
                if !other@.contains(t) && exists|j: int|
                    0 <= j < i + 1 && texts(self.items@)[j] == t {
                    let j = choose|j: int| 0 <= j < i + 1 && texts(self.items@)[j] == t;
                    if j < i {
                        assert(before.contains(t));
                    }
                }
            }
            i += 1;
        }
        assert(out@ =~= self@.difference(other@)) by {
            assert forall|t: Seq<char>| out@.contains(t) <==> self@.difference(other@).contains(
                t,
            ) by {
                if self@.contains(t) {
                    let j = choose|j: int|
                        0 <= j < texts(self.items@).len() && texts(self.items@)[j] == t;
                    assert(0 <= j < i && texts(self.items@)[j] == t);
                }
            }
        }
        out
    }
}

impl Clone for TextSet {
    fn clone(&self) -> (r: Self)
        ensures
            r@ == self@,
            r.order() == self.order(),
    {
        proof {
            use_type_invariant(self);
        }
        let items = self.items.clone();
        assert(texts(items@) =~= texts(self.items@));
        let r = TextSet { items };
        assert(r@ =~= self@);
        r
    }
}

impl SequenceSet {
    #[verifier::type_invariant]
    spec fn inv(self) -> bool {
        distinct_numbers(self.items@)
    }

    /// The members in their order.
    pub closed spec fn order(&self) -> Seq<u64> {
        self.items@
    }

    pub fn new() -> (r: Self)
        ensures
            r@ == Set::<u64>::empty(),
            r.order() == Seq::<u64>::empty(),
    {
        let r = SequenceSet { items: Vec::new() };
        assert(r@ =~= Set::<u64>::empty());
        r
    }

    pub fn contains(&self, sequence: u64) -> (r: bool)
        ensures
            r == self@.contains(sequence),
    {
        let mut i: usize = 0;
        while i < self.items.len()
            invariant
                i <= self.items.len(),
                forall|j: int| 0 <= j < i ==> self.items@[j] != sequence,
            decreases self.items.len() - i,
        {
            if self.items[i] == sequence {
                return true;
            }
            i += 1;
        }
        false
    }

    pub fn is_empty(&self) -> (r: bool)
        ensures
            r == (self@ == Set::<u64>::empty()),
            r == (self.order().len() == 0),
    {
        if self.items.len() == 0 {
            assert(self@ =~= Set::<u64>::empty());
            true
        } else {
            assert(self@.contains(self.items@[0]));
            false
        }
    }

    /// Adds `sequence`; one that is already a member stays where it is.
    pub fn insert(&mut self, sequence: u64) -> (added: bool)
        ensures
            final(self)@ == old(self)@.insert(sequence),
            added == !old(self)@.contains(sequence),
            final(self).order() == if added {
                old(self).order().push(sequence)
            } else {
                old(self).order()
            },
    {
        if self.contains(sequence) {
            assert(self@ =~= self@.insert(sequence));
            false
        } else {
            proof {
                use_type_invariant(&*self);
            }
            let ghost before = self.items@;
            let mut taken = SequenceSet::new();
            std::mem::swap(self, &mut taken);
            let mut items = taken.items;
            items.push(sequence);
            *self = SequenceSet { items };
            assert(self@ =~= old(self)@.insert(sequence)) by {
                assert forall|n: u64|
                    self@.contains(n) <==> old(self)@.insert(sequence).contains(n) by {
                    if old(self)@.insert(sequence).contains(n) {
                        if n == sequence {
                            assert(self.items@[before.len() as int] == n);
                        } else {
                            let i = choose|i: int| 0 <= i < before.len() && before[i] == n;
                            assert(self.items@[i] == n);
                        }
                    }
                }
            }
            true
        }
    }

    /// Takes `sequence` out, where it is a member.
    pub fn remove(&mut self, sequence: u64) -> (removed: bool)
        ensures
            final(self)@ == old(self)@.remove(sequence),
            removed == old(self)@.contains(sequence),
    {
        proof {
            use_type_invariant(&*self);
        }
        let ghost before = self.items@;
        let mut i: usize = 0;
        while i < self.items.len()
            invariant
                i <= self.items.len(),
                before == self.items@,
                distinct_numbers(before),
                forall|n: u64| old(self)@.contains(n) <==> before.contains(n),
                forall|j: int| 0 <= j < i ==> before[j] != sequence,
            decreases self.items.len() - i,
        {
            if self.items[i] == sequence {
                assert(before[i as int] == sequence);
                assert(before.contains(sequence));
                assert(old(self)@.contains(sequence));
                let mut taken = SequenceSet::new();
                std::mem::swap(self, &mut taken);
                let mut items = taken.items;
                items.remove(i);
                *self = SequenceSet { items };
                assert(self@ =~= old(self)@.remove(sequence)) by {
                    let after = before.remove(i as int);
                    assert forall|n: u64|
                        self@.contains(n) <==> old(self)@.remove(sequence).contains(n) by {
                        if after.contains(n) {
                            let j = choose|j: int| 0 <= j < after.len() && after[j] == n;
                            if j < i {
                                assert(before[j] == n);
                            } else {
                                assert(before[j + 1] == n);
                            }
                        }
                        if before.contains(n) && n != sequence {
                            let j = choose|j: int| 0 <= j < before.len() && before[j] == n;
                            if j < i {
                                assert(after[j] == n);
                            } else {
                                assert(after[j - 1] == n);
                            }
                        }
                    }
                }
                return true;
            }
            i += 1;
        }
        assert(self@ =~= self@.remove(sequence));
        false
    }

    /// The set of the numbers of `sequences`.
    pub fn from_vec(sequences: &Vec<u64>) -> (r: Self)
        ensures
            r@ == sequences@.to_set(),
    {
        let mut out = SequenceSet::new();
        let mut i: usize = 0;
        while i < sequences.len()
            invariant
                i <= sequences.len(),
                forall|n: u64|
                    out@.contains(n) <==> exists|j: int| 0 <= j < i && sequences@[j] == n,
            decreases sequences.len() - i,
        {
            let ghost before = out@;
            out.insert(sequences[i]);
            assert forall|n: u64|
                out@.contains(n) <==> exists|j: int| 0 <= j < i + 1 && sequences@[j] == n by {
                if before.contains(n) {
                    let j = choose|j: int| 0 <= j < i && sequences@[j] == n;
                    assert(0 <= j < i + 1 && sequences@[j] == n);
                }
                if n == sequences@[i as int] {
                    assert(0 <= i < i + 1 && sequences@[i as int] == n);
                }
                if exists|j: int| 0 <= j < i + 1 && sequences@[j] == n {
                    let j = choose|j: int| 0 <= j < i + 1 && sequences@[j] == n;
                    if j < i {
                        assert(before.contains(n));
                    }
                }
            }
            i += 1;
        }
        assert(out@ =~= sequences@.to_set()) by {
            assert forall|n: u64| out@.contains(n) <==> sequences@.to_set().contains(n) by {
                if sequences@.contains(n) {
                    let j = choose|j: int| 0 <= j < sequences@.len() && sequences@[j] == n;
                    assert(0 <= j < i && sequences@[j] == n);
                }
            }
        }
        out
    }

    /// The members in their order: each once.
    pub fn to_vec(&self) -> (r: Vec<u64>)
        ensures
            r@ == self.order(),
            distinct_numbers(r@),
            forall|n: u64| self@.contains(n) <==> r@.contains(n),
    {
        proof {
            use_type_invariant(self);
        }
        let r = self.items.clone();
        assert(r@ =~= self.items@);
        r
    }

    /// Whether every member is a member of `other`.
    pub fn is_subset_of(&self, other: &SequenceSet) -> (r: bool)
        ensures
            r == self@.subset_of(other@),
    {
        let mut i: usize = 0;
        while i < self.items.len()
            invariant
                i <= self.items.len(),
                forall|j: int| 0 <= j < i ==> other@.contains(self.items@[j]),
            decreases self.items.len() - i,
        {
            if !other.contains(self.items[i]) {
                assert(self@.contains(self.items@[i as int]));
                return false;
            }
            i += 1;
        }
        true
    }

    /// Whether both sets hold the same members.
    pub fn same(&self, other: &SequenceSet) -> (r: bool)
        ensures
            r == (self@ == other@),
    {
        let r = self.is_subset_of(other) && other.is_subset_of(self);
        assert(r ==> self@ =~= other@);
        r
    }

    /// The members that `other` does not hold, in their order.
    pub fn difference(&self, other: &SequenceSet) -> (r: SequenceSet)
        ensures
            r@ == self@.difference(other@),
    {
        let mut out = SequenceSet::new();
        let mut i: usize = 0;
        while i < self.items.len()
            invariant
                i <= self.items.len(),
                forall|n: u64|
                    out@.contains(n) <==> (!other@.contains(n) && exists|j: int|
                        0 <= j < i && self.items@[j] == n),
            decreases self.items.len() - i,
        {
            let ghost before = out@;
            if !other.contains(self.items[i]) {
                out.insert(self.items[i]);
            }
            assert forall|n: u64|
                out@.contains(n) <==> (!other@.contains(n) && exists|j: int|
                    0 <= j < i + 1 && self.items@[j] == n) by {
                if out@.contains(n) {
                    if before.contains(n) {
                        let j = choose|j: int| 0 <= j < i && self.items@[j] == n;
                        assert(0 <= j < i + 1 && self.items@[j] == n);
                    } else {
                        assert(0 <= i < i + 1 && self.items@[i as int] == n);
                    }
                }
                if !other@.contains(n) && exists|j: int| 0 <= j < i + 1 && self.items@[j] == n {
                    let j = choose|j: int| 0 <= j < i + 1 && self.items@[j] == n;
                    if j < i {
                        assert(before.contains(n));
                    }
                }
            }
            i += 1;
        }
        assert(out@ =~= self@.difference(other@)) by {
            assert forall|n: u64| out@.contains(n) <==> self@.difference(other@).contains(n) by {
                if self@.contains(n) {
                    let j = choose|j: int| 0 <= j < self.items@.len() && self.items@[j] == n;
                    assert(0 <= j < i && self.items@[j] == n);
                }
            }
        }
        out
    }
}

impl Clone for SequenceSet {
    fn clone(&self) -> (r: Self)
        ensures
            r@ == self@,
            r.order() == self.order(),
    {
        proof {
            use_type_invariant(self);
        }
        let items = self.items.clone();
        assert(items@ =~= self.items@);
        let r = SequenceSet { items };
        assert(r@ =~= self@);
        r
    }
}

/// In a list without repeats, a key has one position.
pub proof fn lemma_key_position(keys: Seq<Seq<char>>, key: Seq<char>, i: int)
    requires
        distinct_texts(keys),
        key_at(keys, key, i),
    ensures
        (choose|j: int| key_at(keys, key, j)) == i,
{
    let j = choose|j: int| key_at(keys, key, j);
    if j < i {
        assert(keys[j] != keys[i]);
    } else if i < j {
        assert(keys[i] != keys[j]);
    }
}

/// The channels with their packets, in their order.
pub open spec fn listing_view(entries: Seq<(String, Vec<u64>)>) -> Seq<(Seq<char>, Seq<u64>)> {
    entries.map_values(|e: (String, Vec<u64>)| (e.0@, e.1@))
}

/// The channels of a listing, in their order.
pub open spec fn listing_keys(listing: Seq<(Seq<char>, Seq<u64>)>) -> Seq<Seq<char>> {
    listing.map_values(|e: (Seq<char>, Seq<u64>)| e.0)
}

/// What `new` shows beyond `old`: each channel that is new or whose packets
/// differ, with the packets that it did not have before.
pub open spec fn changed_packets(
    old: Map<Seq<char>, Set<u64>>,
    new: Map<Seq<char>, Set<u64>>,
) -> Map<Seq<char>, Set<u64>> {
    Map::new(
        |k: Seq<char>| new.contains_key(k) && (!old.contains_key(k) || old[k] != new[k]),
        |k: Seq<char>|
            if old.contains_key(k) {
                new[k].difference(old[k])
            } else {
                new[k]
            },
    )
}

impl PacketMap {
    #[verifier::type_invariant]
    spec fn inv(self) -> bool {
        distinct_texts(entry_keys(self.entries@))
    }

    /// The channels with their packets, in their order.
    pub closed spec fn listing(&self) -> Seq<(Seq<char>, Seq<u64>)> {
        self.entries@.map_values(|e: PacketEntry| (e.channel@, e.sequences.order()))
    }

    pub fn new() -> (r: Self)
        ensures
            r@ == Map::<Seq<char>, Set<u64>>::empty(),
            r.listing() == Seq::<(Seq<char>, Seq<u64>)>::empty(),
    {
        let r = PacketMap { entries: Vec::new() };
        assert(r@ =~= Map::<Seq<char>, Set<u64>>::empty());
        assert(r.listing() =~= Seq::<(Seq<char>, Seq<u64>)>::empty());
        r
    }

    fn position(&self, channel: &str) -> (r: Option<usize>)
        ensures
            match r {
                Some(i) => key_at(entry_keys(self.entries@), channel@, i as int),
                None => !entry_keys(self.entries@).contains(channel@),
            },
    {
        let wanted = channel.to_owned();
        let mut i: usize = 0;
        while i < self.entries.len()
            invariant
                i <= self.entries.len(),
                wanted@ == channel@,
                forall|j: int| 0 <= j < i ==> entry_keys(self.entries@)[j] != channel@,
            decreases self.entries.len() - i,
        {
            if self.entries[i].channel == wanted {
                return Some(i);
            }
            i += 1;
        }
        None
    }

    /// The packets of `channel`.
    pub fn get(&self, channel: &str) -> (r: Option<&SequenceSet>)
        ensures
            match r {
                Some(sequences) => self@.contains_key(channel@) && sequences@ == self@[channel@],
                None => !self@.contains_key(channel@),
            },
    {
        proof {
            use_type_invariant(self);
        }
        match self.position(channel) {
            Some(i) => {
                proof {
                    lemma_key_position(entry_keys(self.entries@), channel@, i as int);
                }
                Some(&self.entries[i].sequences)
            },
            None => None,
        }
    }

    pub fn contains_key(&self, channel: &str) -> (r: bool)
        ensures
            r == self@.contains_key(channel@),
    {
        self.position(channel).is_some()
    }

    pub fn is_empty(&self) -> (r: bool)
        ensures
            r == (self@ == Map::<Seq<char>, Set<u64>>::empty()),
            r == (self.listing().len() == 0),
    {
        if self.entries.len() == 0 {
            assert(self@ =~= Map::<Seq<char>, Set<u64>>::empty());
            true
        } else {
            assert(entry_keys(self.entries@)[0] == self.entries@[0].channel@);
            assert(self@.contains_key(self.entries@[0].channel@));
            false
        }
    }

    /// Sets the packets of `channel`; a channel that is already there keeps
    /// its place.
    pub fn insert(&mut self, channel: String, sequences: SequenceSet)
        ensures
            final(self)@ == old(self)@.insert(channel@, sequences@),
    {
        proof {
            use_type_invariant(&*self);
        }
        let found = self.position(channel.as_str());
        let ghost before = self.entries@;
        let mut taken = PacketMap::new();
        std::mem::swap(self, &mut taken);
        let mut entries = taken.entries;
        assert(entries@ == before);
        match found {
            Some(i) => {
                entries.set(i, PacketEntry { channel, sequences });
                assert(entry_keys(entries@) =~= entry_keys(before));
            },
            None => {
                entries.push(PacketEntry { channel, sequences });
                assert(entry_keys(entries@) =~= entry_keys(before).push(channel@));
            },
        }
        let ghost after = entries@;
        *self = PacketMap { entries };
        assert(self@ =~= old(self)@.insert(channel@, sequences@)) by {
            let keys = entry_keys(after);
            let old_keys = entry_keys(before);
            assert forall|k: Seq<char>| #[trigger]
                self@.contains_key(k) <==> old(self)@.insert(channel@, sequences@).contains_key(
                    k,
                ) by {
                if keys.contains(k) {
                    let j = choose|j: int| 0 <= j < keys.len() && keys[j] == k;
                    if k != channel@ {
                        assert(old_keys[j] == k);
                    }
                }
                if old_keys.contains(k) {
                    let j = choose|j: int| 0 <= j < old_keys.len() && old_keys[j] == k;
                    assert(k == channel@ || keys[j] == k);
                }
                if k == channel@ {
                    match found {
                        Some(i) => {
                            assert(keys[i as int] == k);
                        },
                        None => {
                            assert(keys[before.len() as int] == k);
                        },
                    }
                }
            }
            assert forall|k: Seq<char>| #[trigger] self@.contains_key(k) implies self@[k] == old(
                self,
            )@.insert(channel@, sequences@)[k] by {
                let j = choose|j: int| key_at(keys, k, j);
                assert(key_at(keys, k, j)) by {
                    let w = choose|w: int| 0 <= w < keys.len() && keys[w] == k;
                    assert(key_at(keys, k, w));
                }
                if k == channel@ {
                    match found {
                        Some(i) => {
                            lemma_key_position(keys, k, i as int);
                        },
                        None => {
                            lemma_key_position(keys, k, before.len() as int);
                        },
                    }
                } else {
                    assert(key_at(old_keys, k, j));
                    lemma_key_position(old_keys, k, j);
                    assert(after[j] == before[j]);
                }
            }
        }
    }

    /// Takes `channel` out with its packets, where it is there.
    pub fn remove(&mut self, channel: &str)
        ensures
            final(self)@ == old(self)@.remove(channel@),
    {
        proof {
            use_type_invariant(&*self);
        }
        match self.position(channel) {
            None => {
                assert(self@ =~= self@.remove(channel@));
            },
            Some(i) => {
                let ghost before = self.entries@;
                let ghost old_keys = entry_keys(before);
                let mut taken = PacketMap::new();
                std::mem::swap(self, &mut taken);
                let mut entries = taken.entries;
                entries.remove(i);
                let ghost after = entries@;
                let ghost keys = entry_keys(after);
                assert(keys =~= old_keys.remove(i as int));
                *self = PacketMap { entries };
                assert(self@ =~= old(self)@.remove(channel@)) by {
                    assert forall|k: Seq<char>| #[trigger]
                        self@.contains_key(k) <==> old(self)@.remove(channel@).contains_key(
                            k,
                        ) by {
                        if keys.contains(k) {
                            let j = choose|j: int| 0 <= j < keys.len() && keys[j] == k;
                            if j < i {
                                assert(old_keys[j] == k);
                            } else {
                                assert(old_keys[j + 1] == k);
                            }
                        }
                        if old_keys.contains(k) && k != channel@ {
                            let j = choose|j: int| 0 <= j < old_keys.len() && old_keys[j] == k;
                            if j < i {
                                assert(keys[j] == k);
                            } else {
                                assert(keys[j - 1] == k);
                            }
                        }
                    }
                    assert forall|k: Seq<char>| #[trigger] self@.contains_key(k) implies self@[k]
                        == old(self)@.remove(channel@)[k] by {
                        let j = choose|j: int| key_at(keys, k, j);
                        assert(key_at(keys, k, j)) by {
                            let w = choose|w: int| 0 <= w < keys.len() && keys[w] == k;
                            assert(key_at(keys, k, w));
                        }
                        if j < i {
                            assert(key_at(old_keys, k, j));
                            lemma_key_position(old_keys, k, j);
                            assert(after[j] == before[j]);
                        } else {
                            assert(key_at(old_keys, k, j + 1));
                            lemma_key_position(old_keys, k, j + 1);
                            assert(after[j] == before[j + 1]);
                        }
                    }
                }
            },
        }
    }

    /// The channels in their order: each once.
    pub fn keys(&self) -> (r: Vec<String>)
        ensures
            distinct_texts(texts(r@)),
            forall|k: Seq<char>| self@.contains_key(k) <==> texts(r@).contains(k),
    {
        proof {
            use_type_invariant(self);
        }
        let mut out: Vec<String> = Vec::new();
        let mut i: usize = 0;
        while i < self.entries.len()
            invariant
                i <= self.entries.len(),
                out@.len() == i,
                forall|j: int| 0 <= j < i ==> (#[trigger] out@[j])@ == self.entries@[j].channel@,
            decreases self.entries.len() - i,
        {
            out.push(self.entries[i].channel.clone());
            i += 1;
        }
        assert(texts(out@) =~= entry_keys(self.entries@));
        out
    }

    /// The channels with their packets, in their order: each channel once,
    /// with each of its packets once.
    pub fn to_vec(&self) -> (r: Vec<(String, Vec<u64>)>)
        ensures
            listing_view(r@) == self.listing(),
            distinct_texts(listing_keys(listing_view(r@))),
            forall|k: Seq<char>|
                self@.contains_key(k) <==> listing_keys(listing_view(r@)).contains(k),
            forall|i: int|
                0 <= i < r@.len() ==> self@[(#[trigger] r@[i]).0@] == r@[i].1@.to_set()
                    && distinct_numbers(r@[i].1@),
    {
        proof {
            use_type_invariant(self);
        }
        let mut out: Vec<(String, Vec<u64>)> = Vec::new();
        let mut i: usize = 0;
        while i < self.entries.len()
            invariant
                i <= self.entries.len(),
                out@.len() == i,
                distinct_texts(entry_keys(self.entries@)),
                forall|j: int|
                    0 <= j < i ==> (#[trigger] out@[j]).0@ == self.entries@[j].channel@
                        && out@[j].1@ == self.entries@[j].sequences.order()
                        && out@[j].1@.to_set() == self.entries@[j].sequences@
                        && distinct_numbers(out@[j].1@),
            decreases self.entries.len() - i,
        {
            let sequences = self.entries[i].sequences.to_vec();
            assert(sequences@.to_set() =~= self.entries@[i as int].sequences@);
            out.push((self.entries[i].channel.clone(), sequences));
            i += 1;
        }
        assert(listing_view(out@) =~= self.listing());
        assert(listing_keys(listing_view(out@)) =~= entry_keys(self.entries@));
        assert forall|j: int| 0 <= j < out@.len() implies self@[(#[trigger] out@[j]).0@]
            == out@[j].1@.to_set() by {
            assert(key_at(entry_keys(self.entries@), out@[j].0@, j));
            lemma_key_position(entry_keys(self.entries@), out@[j].0@, j);
        }
        out
    }

    /// Whether every channel of `self` is in `other` with the same packets.
    fn is_within(&self, other: &PacketMap) -> (r: bool)
        ensures
            r == (forall|k: Seq<char>| #[trigger]
                self@.contains_key(k) ==> other@.contains_key(k) && other@[k] == self@[k]),
    {
        proof {
            use_type_invariant(self);
        }
        let mut i: usize = 0;
        while i < self.entries.len()
            invariant
                i <= self.entries.len(),
                distinct_texts(entry_keys(self.entries@)),
                forall|j: int|
                    0 <= j < i ==> other@.contains_key(#[trigger] entry_keys(self.entries@)[j])
                        && other@[entry_keys(self.entries@)[j]] == self.entries@[j].sequences@,
            decreases self.entries.len() - i,
        {
            let ghost key = self.entries@[i as int].channel@;
            proof {
                assert(key_at(entry_keys(self.entries@), key, i as int));
                lemma_key_position(entry_keys(self.entries@), key, i as int);
            }
            match other.get(self.entries[i].channel.as_str()) {
                Some(sequences) => {
                    if !sequences.same(&self.entries[i].sequences) {
                        assert(self@.contains_key(key));
                        return false;
                    }
                },
                None => {
                    assert(self@.contains_key(key));
                    return false;
                },
            }
            i += 1;
        }
        assert forall|k: Seq<char>| #[trigger] self@.contains_key(k) implies other@.contains_key(
            k,
        ) && other@[k] == self@[k] by {
            let j = choose|j: int|
                0 <= j < entry_keys(self.entries@).len() && entry_keys(self.entries@)[j] == k;
            assert(key_at(entry_keys(self.entries@), k, j));
            lemma_key_position(entry_keys(self.entries@), k, j);
        }
        true
    }

    /// Whether both maps hold the same channels with the same packets.
    pub fn same(&self, other: &PacketMap) -> (r: bool)
        ensures
            r == (self@ == other@),
    {
        let r = self.is_within(other) && other.is_within(self);
        assert(r ==> self@ =~= other@);
        r
    }
}

impl Clone for PacketMap {
    fn clone(&self) -> (r: Self)
        ensures
            r@ == self@,
            r.listing() == self.listing(),
    {
        proof {
            use_type_invariant(self);
        }
        let mut entries: Vec<PacketEntry> = Vec::new();
        let mut i: usize = 0;
        while i < self.entries.len()
            invariant
                i <= self.entries.len(),
                entries@.len() == i,
                forall|j: int|
                    0 <= j < i ==> (#[trigger] entries@[j]).channel@ == self.entries@[j].channel@
                        && entries@[j].sequences@ == self.entries@[j].sequences@
                        && entries@[j].sequences.order() == self.entries@[j].sequences.order(),
            decreases self.entries.len() - i,
        {
            entries.push(
                PacketEntry {
                    channel: self.entries[i].channel.clone(),
                    sequences: self.entries[i].sequences.clone(),
                },
            );
            i += 1;
        }
        assert(entry_keys(entries@) =~= entry_keys(self.entries@));
        let ghost copied = entries@;
        let r = PacketMap { entries };
        assert(r.listing() =~= self.listing());
        assert(r@ =~= self@) by {
            assert forall|k: Seq<char>| #[trigger] r@.contains_key(k) implies r@[k] == self@[k] by {
                let j = choose|j: int| key_at(entry_keys(copied), k, j);
                assert(key_at(entry_keys(copied), k, j)) by {
                    let w = choose|w: int|
                        0 <= w < entry_keys(copied).len() && entry_keys(copied)[w] == k;
                    assert(key_at(entry_keys(copied), k, w));
                }
            }
        }
        r
    }
}

/// A set of texts holds what its order lists, and is empty exactly where its
/// order is.
pub proof fn lemma_text_set_order(set: TextSet)
    ensures
        forall|t: Seq<char>| set@.contains(t) <==> set.order().contains(t),
        (set.order().len() == 0) <==> (set@ == Set::<Seq<char>>::empty()),
{
    if set.order().len() == 0 {
        assert(set@ =~= Set::<Seq<char>>::empty());
    } else {
        assert(set@.contains(set.order()[0]));
    }
}

/// A map of packets holds the channels that its listing lists, and is empty
/// exactly where its listing is.
pub proof fn lemma_packet_map_listing(map: PacketMap)
    ensures
        forall|k: Seq<char>| map@.contains_key(k) <==> listing_keys(map.listing()).contains(k),
        (map.listing().len() == 0) <==> (map@ == Map::<Seq<char>, Set<u64>>::empty()),
{
    assert(listing_keys(map.listing()) =~= entry_keys(map.entries@));
    if map.listing().len() == 0 {
        assert(map@ =~= Map::<Seq<char>, Set<u64>>::empty());
    } else {
        assert(entry_keys(map.entries@)[0] == map.entries@[0].channel@);
        assert(map@.contains_key(map.entries@[0].channel@));
    }
}

/// Between two equal maps nothing has changed.
pub proof fn lemma_no_changed_packets(map: Map<Seq<char>, Set<u64>>)
    ensures
        changed_packets(map, map) == Map::<Seq<char>, Set<u64>>::empty(),
{
    assert(changed_packets(map, map) =~= Map::<Seq<char>, Set<u64>>::empty());
}

} // verus!
