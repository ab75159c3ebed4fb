//! What leads from one set or map to another: what was added and what was
//! removed. Applied to where it started from, a difference gives where it
//! leads to.

use crate::sets::{changed_packets, PacketMap, SequenceSet, TextSet};
use crate::text::texts;
use crate::text_map::TextMap;
use vstd::prelude::*;

verus! {

/// What leads from one set of texts to another.
#[derive(Debug)]
pub struct TextSetDiff {
    pub added: TextSet,
    pub removed: TextSet,
}

/// What leads from one set of packets to another.
#[derive(Debug)]
pub struct SequenceSetDiff {
    pub added: SequenceSet,
    pub removed: SequenceSet,
}

/// What leads from one map of packets to another: the channels that are new
/// or whose packets differ, each with what leads to its packets, and the
/// channels that are gone.
#[derive(Debug)]
pub struct PacketMapDiff {
    pub altered: TextMap<SequenceSetDiff>,
    pub removed: TextSet,
}

/// What leads from one set to another.
#[verifier::reject_recursive_types(A)]
pub struct SetDiff<A> {
    pub added: Set<A>,
    pub removed: Set<A>,
}

/// What leads from one map of packets to another.
pub struct MapDiff {
    pub altered: Map<Seq<char>, SetDiff<u64>>,
    pub removed: Set<Seq<char>>,
}

impl View for TextSetDiff {
    type V = SetDiff<Seq<char>>;

    open spec fn view(&self) -> SetDiff<Seq<char>> {
        SetDiff { added: self.added@, removed: self.removed@ }
    }
}

impl View for SequenceSetDiff {
    type V = SetDiff<u64>;

    open spec fn view(&self) -> SetDiff<u64> {
        SetDiff { added: self.added@, removed: self.removed@ }
    }
}

impl View for PacketMapDiff {
    type V = MapDiff;

    open spec fn view(&self) -> MapDiff {
        MapDiff {
            altered: Map::new(
                |k: Seq<char>| self.altered@.contains_key(k),
                |k: Seq<char>| self.altered@[k]@,
            ),
            removed: self.removed@,
        }
    }
}

/// What leads from `old` to `new`: what `new` has beyond `old`, and what
/// `old` has beyond `new`.
pub open spec fn set_diff<A>(old: Set<A>, new: Set<A>) -> SetDiff<A> {
    SetDiff { added: new.difference(old), removed: old.difference(new) }
}

/// `before` with a difference applied: what was removed is taken out, then
/// what was added is put in.
pub open spec fn set_applied<A>(before: Set<A>, diff: SetDiff<A>) -> Set<A> {
    before.difference(diff.removed).union(diff.added)
}

/// The packets of a channel in a map: none where the map does not hold the
/// channel.
pub open spec fn packets_in(map: Map<Seq<char>, Set<u64>>, channel: Seq<char>) -> Set<u64> {
    if map.contains_key(channel) {
        map[channel]
    } else {
        Set::empty()
    }
}

/// What leads from `old` to `new`: each channel of `new` that is new or
/// whose packets differ, with what leads to its packets, and the channels of
/// `old` that `new` does not hold.
pub open spec fn map_diff(old: Map<Seq<char>, Set<u64>>, new: Map<Seq<char>, Set<u64>>) -> MapDiff {
    MapDiff {
        altered: Map::new(
            |k: Seq<char>| new.contains_key(k) && (!old.contains_key(k) || old[k] != new[k]),
            |k: Seq<char>| set_diff(packets_in(old, k), new[k]),
        ),
        removed: Set::new(|k: Seq<char>| old.contains_key(k) && !new.contains_key(k)),
    }
}

/// `before` with a difference applied: the channels that are gone are taken
/// out, then each altered channel has its difference applied to its packets.
pub open spec fn map_applied(before: Map<Seq<char>, Set<u64>>, diff: MapDiff) -> Map<
    Seq<char>,
    Set<u64>,
> {
    let kept = before.remove_keys(diff.removed);
    Map::new(
        |k: Seq<char>| kept.contains_key(k) || diff.altered.contains_key(k),
        |k: Seq<char>|
            if diff.altered.contains_key(k) {
                set_applied(packets_in(kept, k), diff.altered[k])
            } else {
                kept[k]
            },
    )
}

/// A difference applied to where it started from gives where it leads to.
pub proof fn lemma_set_diff_round_trip<A>(old: Set<A>, new: Set<A>)
    ensures
        set_applied(old, set_diff(old, new)) == new,
{
    assert(set_applied(old, set_diff(old, new)) =~= new);
}

/// A difference applied to the empty set gives what was added.
pub proof fn lemma_set_diff_on_empty<A>(old: Set<A>, new: Set<A>)
    ensures
        set_applied(Set::empty(), set_diff(old, new)) == new.difference(old),
{
    assert(set_applied(Set::empty(), set_diff(old, new)) =~= new.difference(old));
}

/// A difference applied to where it started from gives where it leads to.
pub proof fn lemma_map_diff_round_trip(old: Map<Seq<char>, Set<u64>>, new: Map<Seq<char>, Set<u64>>)
    ensures
        map_applied(old, map_diff(old, new)) == new,
{
    let diff = map_diff(old, new);
    let kept = old.remove_keys(diff.removed);
    let applied = map_applied(old, diff);
    assert forall|k: Seq<char>| applied.contains_key(k) <==> new.contains_key(k) by {}
    assert forall|k: Seq<char>| applied.contains_key(k) implies applied[k] == new[k] by {
        if diff.altered.contains_key(k) {
            lemma_set_diff_round_trip(packets_in(old, k), new[k]);
            assert(packets_in(kept, k) == packets_in(old, k));
        }
    }
    assert(applied =~= new);
}

/// A difference applied to the empty map gives what changed: each altered
/// channel with the packets that were added to it.
pub proof fn lemma_map_diff_on_empty(old: Map<Seq<char>, Set<u64>>, new: Map<Seq<char>, Set<u64>>)
    ensures
        map_applied(Map::empty(), map_diff(old, new)) == changed_packets(old, new),
{
    let diff = map_diff(old, new);
    let empty = Map::<Seq<char>, Set<u64>>::empty();
    let kept = empty.remove_keys(diff.removed);
    let applied = map_applied(empty, diff);
    let changed = changed_packets(old, new);
    assert forall|k: Seq<char>| applied.contains_key(k) <==> changed.contains_key(k) by {}
    assert forall|k: Seq<char>| applied.contains_key(k) implies applied[k] == changed[k] by {
        lemma_set_diff_on_empty(packets_in(old, k), new[k]);
        assert(packets_in(kept, k) == Set::<u64>::empty());
        assert(new[k].difference(Set::<u64>::empty()) =~= new[k]);
    }
    assert(applied =~= changed);
}

impl TextSet {
    /// What leads from this set to `new_self`.
    pub fn diff(&self, new_self: &TextSet) -> (r: TextSetDiff)
        ensures
            r@ == set_diff(self@, new_self@),
    {
        TextSetDiff { added: new_self.difference(self), removed: self.difference(new_self) }
    }

    /// Applies a difference: what was removed is taken out, then what was
    /// added is put in.
    pub fn apply(&mut self, diff: &TextSetDiff)
        ensures
            final(self)@ == set_applied(old(self)@, diff@),
    {
        let removed = diff.removed.to_vec();
        let mut i: usize = 0;
        while i < removed.len()
            invariant
                i <= removed.len(),
                forall|t: Seq<char>| #[trigger]
                    self@.contains(t) <==> (old(self)@.contains(t) && !exists|j: int|
                        0 <= j < i && texts(removed@)[j] == t),
            decreases removed.len() - i,
        {
            let ghost before = self@;
            assert(texts(removed@)[i as int] == removed@[i as int]@);
            self.remove(removed[i].as_str());
            assert forall|t: Seq<char>|
                self@.contains(t) <==> (old(self)@.contains(t) && !exists|j: int|
                    0 <= j < i + 1 && texts(removed@)[j] == t) by {
                if exists|j: int| 0 <= j < i + 1 && texts(removed@)[j] == t {
                    let j = choose|j: int| 0 <= j < i + 1 && texts(removed@)[j] == t;
                    if j < i {
                        assert(!before.contains(t));
                    }
                }
                if before.contains(t) && t != removed@[i as int]@ {
                    assert(!exists|j: int| 0 <= j < i && texts(removed@)[j] == t);
                }
            }
            i += 1;
        }
        let ghost kept = self@;
        assert(kept =~= old(self)@.difference(diff.removed@)) by {
            assert forall|t: Seq<char>|
                kept.contains(t) <==> old(self)@.difference(diff.removed@).contains(t) by {
                if texts(removed@).contains(t) {
                    let j = choose|j: int| 0 <= j < texts(removed@).len() && texts(removed@)[j]
                        == t;
                    assert(0 <= j < i && texts(removed@)[j] == t);
                }
            }
        }
        let added = diff.added.to_vec();
        let mut i: usize = 0;
        while i < added.len()
            invariant
                i <= added.len(),
                forall|t: Seq<char>| #[trigger]
                    self@.contains(t) <==> (kept.contains(t) || exists|j: int|
                        0 <= j < i && texts(added@)[j] == t),
            decreases added.len() - i,
        {
            let ghost before = self@;
            assert(texts(added@)[i as int] == added@[i as int]@);
            self.insert(added[i].clone());
            assert forall|t: Seq<char>| #[trigger]
                self@.contains(t) <==> (kept.contains(t) || exists|j: int|
                    0 <= j < i + 1 && texts(added@)[j] == t) by {
                if before.contains(t) && !kept.contains(t) {
                    let j = choose|j: int| 0 <= j < i && texts(added@)[j] == t;
                    assert(0 <= j < i + 1 && texts(added@)[j] == t);
                }
                if t == added@[i as int]@ {
                    assert(0 <= i < i + 1 && texts(added@)[i as int] == t);
                }
                if exists|j: int| 0 <= j < i + 1 && texts(added@)[j] == t {
                    let j = choose|j: int| 0 <= j < i + 1 && texts(added@)[j] == t;
                    if j < i {
                        assert(before.contains(t));
                    }
                }
            }
            i += 1;
        }
        assert(self@ =~= set_applied(old(self)@, diff@)) by {
            assert forall|t: Seq<char>|
                self@.contains(t) <==> set_applied(old(self)@, diff@).contains(t) by {
                if texts(added@).contains(t) {
                    let j = choose|j: int| 0 <= j < texts(added@).len() && texts(added@)[j] == t;
                    assert(0 <= j < i && texts(added@)[j] == t);
                }
            }
        }
    }
}

impl SequenceSet {
    /// What leads from this set to `new_self`.
    pub fn diff(&self, new_self: &SequenceSet) -> (r: SequenceSetDiff)
        ensures
            r@ == set_diff(self@, new_self@),
    {
        SequenceSetDiff { added: new_self.difference(self), removed: self.difference(new_self) }
    }

    /// Applies a difference: what was removed is taken out, then what was
    /// added is put in.
    pub fn apply(&mut self, diff: &SequenceSetDiff)
        ensures
            final(self)@ == set_applied(old(self)@, diff@),
    {
        let removed = diff.removed.to_vec();
        let mut i: usize = 0;
        while i < removed.len()
            invariant
                i <= removed.len(),
                forall|n: u64| #[trigger]
                    self@.contains(n) <==> (old(self)@.contains(n) && !exists|j: int|
                        0 <= j < i && removed@[j] == n),
            decreases removed.len() - i,
        {
            let ghost before = self@;
            self.remove(removed[i]);
            assert forall|n: u64|
                self@.contains(n) <==> (old(self)@.contains(n) && !exists|j: int|
                    0 <= j < i + 1 && removed@[j] == n) by {
                if exists|j: int| 0 <= j < i + 1 && removed@[j] == n {
                    let j = choose|j: int| 0 <= j < i + 1 && removed@[j] == n;
                    if j < i {
                        assert(!before.contains(n));
                    }
                }
                if before.contains(n) && n != removed@[i as int] {
                    assert(!exists|j: int| 0 <= j < i && removed@[j] == n);
                }
            }
            i += 1;
        }
        let ghost kept = self@;
        assert(kept =~= old(self)@.difference(diff.removed@)) by {
            assert forall|n: u64|
                kept.contains(n) <==> old(self)@.difference(diff.removed@).contains(n) by {
                if removed@.contains(n) {
                    let j = choose|j: int| 0 <= j < removed@.len() && removed@[j] == n;
                    assert(0 <= j < i && removed@[j] == n);
                }
            }
        }
        let added = diff.added.to_vec();
        let mut i: usize = 0;
        while i < added.len()
            invariant
                i <= added.len(),
                forall|n: u64| #[trigger]
                    self@.contains(n) <==> (kept.contains(n) || exists|j: int|
                        0 <= j < i && added@[j] == n),
            decreases added.len() - i,
        {
            let ghost before = self@;
            self.insert(added[i]);
            assert forall|n: u64| #[trigger]
                self@.contains(n) <==> (kept.contains(n) || exists|j: int|
                    0 <= j < i + 1 && added@[j] == n) by {
                if before.contains(n) && !kept.contains(n) {
                    let j = choose|j: int| 0 <= j < i && added@[j] == n;
                    assert(0 <= j < i + 1 && added@[j] == n);
                }
                if n == added@[i as int] {
                    assert(0 <= i < i + 1 && added@[i as int] == n);
                }
                if exists|j: int| 0 <= j < i + 1 && added@[j] == n {
                    let j = choose|j: int| 0 <= j < i + 1 && added@[j] == n;
                    if j < i {
                        assert(before.contains(n));
                    }
                }
            }
            i += 1;
        }
        assert(self@ =~= set_applied(old(self)@, diff@)) by {
            assert forall|n: u64|
                self@.contains(n) <==> set_applied(old(self)@, diff@).contains(n) by {
                if added@.contains(n) {
                    let j = choose|j: int| 0 <= j < added@.len() && added@[j] == n;
                    assert(0 <= j < i && added@[j] == n);
                }
            }
        }
    }
}

impl Clone for SequenceSetDiff {
    fn clone(&self) -> (r: Self)
        ensures
            r@ == self@,
    {
        SequenceSetDiff { added: self.added.clone(), removed: self.removed.clone() }
    }
}

/// The view of the altered channels of a difference.
pub open spec fn altered_view(altered: Map<Seq<char>, SequenceSetDiff>) -> Map<
    Seq<char>,
    SetDiff<u64>,
> {
    Map::new(|k: Seq<char>| altered.contains_key(k), |k: Seq<char>| altered[k]@)
}

impl PacketMap {
    /// What leads from this map to `new_self`.
    pub fn diff(&self, new_self: &PacketMap) -> (r: PacketMapDiff)
        ensures
            r@ == map_diff(self@, new_self@),
    {
        let ghost model = map_diff(self@, new_self@);
        let mut altered: TextMap<SequenceSetDiff> = TextMap::new();
        let keys = new_self.keys();
        let mut i: usize = 0;
        while i < keys.len()
            invariant
                i <= keys.len(),
                model == map_diff(self@, new_self@),
                forall|k: Seq<char>| new_self@.contains_key(k) <==> texts(keys@).contains(k),
                forall|k: Seq<char>| #[trigger]
                    altered@.contains_key(k) <==> (model.altered.contains_key(k) && exists|j: int|
                        0 <= j < i && texts(keys@)[j] == k),
                forall|k: Seq<char>| #[trigger]
                    altered@.contains_key(k) ==> altered@[k]@ == model.altered[k],
            decreases keys.len() - i,
        {
            let ghost before = altered@;
            let ghost key = keys@[i as int]@;
            assert(texts(keys@)[i as int] == key);
            assert(texts(keys@).contains(key));
            assert(new_self@.contains_key(key));
            match new_self.get(keys[i].as_str()) {
                Some(fresh) => {
                    match self.get(keys[i].as_str()) {
                        Some(known) => {
                            if !known.same(fresh) {
                                altered.insert(keys[i].clone(), known.diff(fresh));
                            }
                        },
                        None => {
                            altered.insert(keys[i].clone(), SequenceSet::new().diff(fresh));
                        },
                    }
                },
                None => {},
            }
            assert forall|k: Seq<char>| #[trigger]
                altered@.contains_key(k) <==> (model.altered.contains_key(k) && exists|j: int|
                    0 <= j < i + 1 && texts(keys@)[j] == k) by {
                if before.contains_key(k) {
                    let j = choose|j: int| 0 <= j < i && texts(keys@)[j] == k;
                    assert(0 <= j < i + 1 && texts(keys@)[j] == k);
                }
                if k == key {
                    assert(0 <= i < i + 1 && texts(keys@)[i as int] == k);
                }
                if exists|j: int| 0 <= j < i + 1 && texts(keys@)[j] == k {
                    let j = choose|j: int| 0 <= j < i + 1 && texts(keys@)[j] == k;
                    if j < i {
                        assert(0 <= j < i && texts(keys@)[j] == k);
                    }
                }
            }
            i += 1;
        }
        let ghost done = altered@;
        assert(altered_view(done) =~= model.altered) by {
            assert forall|k: Seq<char>|
                altered_view(done).contains_key(k) <==> model.altered.contains_key(k) by {
                if model.altered.contains_key(k) {
                    assert(texts(keys@).contains(k));
                    let j = choose|j: int| 0 <= j < texts(keys@).len() && texts(keys@)[j] == k;
                    assert(0 <= j < i && texts(keys@)[j] == k);
                    assert(done.contains_key(k));
                }
                if altered_view(done).contains_key(k) {
                    assert(done.contains_key(k));
                }
            }
            assert forall|k: Seq<char>| altered_view(done).contains_key(k) implies altered_view(
                done,
            )[k] == model.altered[k] by {
                assert(done.contains_key(k));
            }
        }
        let mut removed = TextSet::new();
        let old_keys = self.keys();
        let mut i: usize = 0;
        while i < old_keys.len()
            invariant
                i <= old_keys.len(),
                forall|k: Seq<char>| self@.contains_key(k) <==> texts(old_keys@).contains(k),
                forall|k: Seq<char>| #[trigger]
                    removed@.contains(k) <==> (!new_self@.contains_key(k) && exists|j: int|
                        0 <= j < i && texts(old_keys@)[j] == k),
            decreases old_keys.len() - i,
        {
            let ghost before = removed@;
            let ghost key = old_keys@[i as int]@;
            assert(texts(old_keys@)[i as int] == key);
            if !new_self.contains_key(old_keys[i].as_str()) {
                removed.insert(old_keys[i].clone());
            }
            assert forall|k: Seq<char>| #[trigger]
                removed@.contains(k) <==> (!new_self@.contains_key(k) && exists|j: int|
                    0 <= j < i + 1 && texts(old_keys@)[j] == k) by {
                if before.contains(k) {
                    let j = choose|j: int| 0 <= j < i && texts(old_keys@)[j] == k;
                    assert(0 <= j < i + 1 && texts(old_keys@)[j] == k);
                }
                if k == key {
                    assert(0 <= i < i + 1 && texts(old_keys@)[i as int] == k);
                }
                if exists|j: int| 0 <= j < i + 1 && texts(old_keys@)[j] == k {
                    let j = choose|j: int| 0 <= j < i + 1 && texts(old_keys@)[j] == k;
                    if j < i {
                        assert(0 <= j < i && texts(old_keys@)[j] == k);
                    }
                }
            }
            i += 1;
        }
        assert(removed@ =~= model.removed) by {
            assert forall|k: Seq<char>| removed@.contains(k) <==> model.removed.contains(k) by {
                if self@.contains_key(k) {
                    assert(texts(old_keys@).contains(k));
                    let j = choose|j: int|
                        0 <= j < texts(old_keys@).len() && texts(old_keys@)[j] == k;
                    assert(0 <= j < i && texts(old_keys@)[j] == k);
                }
                if removed@.contains(k) {
                    let j = choose|j: int| 0 <= j < i && texts(old_keys@)[j] == k;
                    assert(texts(old_keys@).contains(k));
                }
            }
        }
        let r = PacketMapDiff { altered, removed };
        assert(r@.altered =~= altered_view(done));
        r
    }

    /// Applies a difference: the channels that are gone are taken out, then
    /// each altered channel has its difference applied to its packets.
    pub fn apply(&mut self, diff: &PacketMapDiff)
        ensures
            final(self)@ == map_applied(old(self)@, diff@),
    {
        let removed = diff.removed.to_vec();
        let mut i: usize = 0;
        while i < removed.len()
            invariant
                i <= removed.len(),
                forall|k: Seq<char>| #[trigger]
                    self@.contains_key(k) <==> (old(self)@.contains_key(k) && !exists|j: int|
                        0 <= j < i && texts(removed@)[j] == k),
                forall|k: Seq<char>| #[trigger] self@.contains_key(k) ==> self@[k] == old(self)@[k],
            decreases removed.len() - i,
        {
            let ghost before = self@;
            assert(texts(removed@)[i as int] == removed@[i as int]@);
            self.remove(removed[i].as_str());
            assert forall|k: Seq<char>| #[trigger]
                self@.contains_key(k) <==> (old(self)@.contains_key(k) && !exists|j: int|
                    0 <= j < i + 1 && texts(removed@)[j] == k) by {
                if exists|j: int| 0 <= j < i + 1 && texts(removed@)[j] == k {
                    let j = choose|j: int| 0 <= j < i + 1 && texts(removed@)[j] == k;
                    if j < i {
                        assert(!before.contains_key(k));
                    }
                }
                if before.contains_key(k) && k != removed@[i as int]@ {
                    assert(!exists|j: int| 0 <= j < i && texts(removed@)[j] == k);
                }
            }
            i += 1;
        }
        let ghost kept = self@;
        assert(kept =~= old(self)@.remove_keys(diff.removed@)) by {
            assert forall|k: Seq<char>|
                kept.contains_key(k) <==> old(self)@.remove_keys(diff.removed@).contains_key(
                    k,
                ) by {
                if texts(removed@).contains(k) {
                    let j = choose|j: int|
                        0 <= j < texts(removed@).len() && texts(removed@)[j] == k;
                    assert(0 <= j < i && texts(removed@)[j] == k);
                }
            }
        }
        let ghost changes = altered_view(diff.altered@);
        assert(changes =~= diff@.altered);
        let keys = diff.altered.keys();
        let mut i: usize = 0;
        while i < keys.len()
            invariant
                i <= keys.len(),
                changes == altered_view(diff.altered@),
                crate::sets::distinct_texts(texts(keys@)),
                forall|k: Seq<char>| diff.altered@.contains_key(k) <==> texts(keys@).contains(k),
                forall|k: Seq<char>| #[trigger]
                    self@.contains_key(k) <==> (kept.contains_key(k) || exists|j: int|
                        0 <= j < i && texts(keys@)[j] == k),
                forall|k: Seq<char>| #[trigger]
                    self@.contains_key(k) ==> self@[k] == (if exists|j: int|
                        0 <= j < i && texts(keys@)[j] == k {
                        set_applied(packets_in(kept, k), changes[k])
                    } else {
                        kept[k]
                    }),
            decreases keys.len() - i,
        {
            let ghost before = self@;
            let ghost key = keys@[i as int]@;
            assert(texts(keys@)[i as int] == key);
            assert(texts(keys@).contains(key));
            assert(diff.altered@.contains_key(key));
            assert(!exists|j: int| 0 <= j < i && texts(keys@)[j] == key) by {
                if exists|j: int| 0 <= j < i && texts(keys@)[j] == key {
                    let j = choose|j: int| 0 <= j < i && texts(keys@)[j] == key;
                    assert(texts(keys@)[j] != texts(keys@)[i as int]);
                }
            }
            assert(before.contains_key(key) == kept.contains_key(key));
            let mut packets = match self.get(keys[i].as_str()) {
                Some(known) => known.clone(),
                None => SequenceSet::new(),
            };
            assert(packets@ == packets_in(kept, key));
            match diff.altered.get(keys[i].as_str()) {
                Some(change) => {
                    packets.apply(change);
                },
                None => {},
            }
            assert(packets@ == set_applied(packets_in(kept, key), changes[key]));
            self.insert(keys[i].clone(), packets);
            assert forall|k: Seq<char>| #[trigger]
                self@.contains_key(k) <==> (kept.contains_key(k) || exists|j: int|
                    0 <= j < i + 1 && texts(keys@)[j] == k) by {
                if before.contains_key(k) && !kept.contains_key(k) {
                    let j = choose|j: int| 0 <= j < i && texts(keys@)[j] == k;
                    assert(0 <= j < i + 1 && texts(keys@)[j] == k);
                }
                if k == key {
                    assert(0 <= i < i + 1 && texts(keys@)[i as int] == k);
                }
                if exists|j: int| 0 <= j < i + 1 && texts(keys@)[j] == k {
                    let j = choose|j: int| 0 <= j < i + 1 && texts(keys@)[j] == k;
                    if j < i {
                        assert(0 <= j < i && texts(keys@)[j] == k);
                    }
                }
            }
            assert forall|k: Seq<char>| #[trigger] self@.contains_key(k) implies self@[k] == (
            if exists|j: int| 0 <= j < i + 1 && texts(keys@)[j] == k {
                set_applied(packets_in(kept, k), changes[k])
            } else {
                kept[k]
            }) by {
                if k == key {
                    assert(0 <= i < i + 1 && texts(keys@)[i as int] == k);
                } else {
                    assert(before.contains_key(k));
                    if exists|j: int| 0 <= j < i + 1 && texts(keys@)[j] == k {
                        let j = choose|j: int| 0 <= j < i + 1 && texts(keys@)[j] == k;
                        assert(0 <= j < i && texts(keys@)[j] == k);
                    } else {
                        assert(!exists|j: int| 0 <= j < i && texts(keys@)[j] == k) by {
                            if exists|j: int| 0 <= j < i && texts(keys@)[j] == k {
                                let j = choose|j: int| 0 <= j < i && texts(keys@)[j] == k;
                                assert(0 <= j < i + 1 && texts(keys@)[j] == k);
                            }
                        }
                    }
                }
            }
            i += 1;
        }
        assert(self@ =~= map_applied(old(self)@, diff@)) by {
            let target = map_applied(old(self)@, diff@);
            assert forall|k: Seq<char>| self@.contains_key(k) <==> target.contains_key(k) by {
                if changes.contains_key(k) {
                    assert(texts(keys@).contains(k));
                    let j = choose|j: int| 0 <= j < texts(keys@).len() && texts(keys@)[j] == k;
                    assert(0 <= j < i && texts(keys@)[j] == k);
                }
                if exists|j: int| 0 <= j < i && texts(keys@)[j] == k {
                    let j = choose|j: int| 0 <= j < i && texts(keys@)[j] == k;
                    assert(texts(keys@).contains(k));
                }
            }
            assert forall|k: Seq<char>| self@.contains_key(k) implies self@[k] == target[k] by {
                if changes.contains_key(k) {
                    assert(texts(keys@).contains(k));
                    let j = choose|j: int| 0 <= j < texts(keys@).len() && texts(keys@)[j] == k;
                    assert(0 <= j < i && texts(keys@)[j] == k);
                } else {
                    if exists|j: int| 0 <= j < i && texts(keys@)[j] == k {
                        let j = choose|j: int| 0 <= j < i && texts(keys@)[j] == k;
                        assert(texts(keys@).contains(k));
                    }
                }
            }
        }
    }
}

} // verus!
