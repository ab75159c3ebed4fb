//! Transactions as an event query returns them: a status code, a raw log and
//! the ordered list of events that the transaction emitted.

use vstd::prelude::*;

verus! {

/// One key/value pair of an event.
#[derive(Debug, PartialEq, Eq)]
pub struct TxResultBlockAttribute {
    pub key: String,
    pub value: String,
}

/// An emitted event: a name and its attributes in the order of emission.
#[derive(Debug, PartialEq, Eq)]
pub struct TxResultBlockEvent {
    pub s_type: String,
    pub attributes: Vec<TxResultBlockAttribute>,
}

/// The mathematical content of an event.
pub struct EventView {
    pub name: Seq<char>,
    pub attributes: Seq<(Seq<char>, Seq<char>)>,
}

impl View for TxResultBlockAttribute {
    type V = (Seq<char>, Seq<char>);

    open spec fn view(&self) -> (Seq<char>, Seq<char>) {
        (self.key@, self.value@)
    }
}

impl View for TxResultBlockEvent {
    type V = EventView;

    open spec fn view(&self) -> EventView {
        EventView {
            name: self.s_type@,
            attributes: self.attributes@.map_values(|a: TxResultBlockAttribute| a@),
        }
    }
}

/// A transaction as an event query returns it.
#[derive(Debug, PartialEq, Eq)]
pub struct CosmTxResponse {
    pub height: u64,
    pub txhash: String,
    /// Zero where the transaction succeeded.
    pub code: usize,
    pub raw_log: String,
    pub events: Vec<TxResultBlockEvent>,
}

/// The mathematical content of a transaction.
pub struct TxResponseView {
    pub height: u64,
    pub txhash: Seq<char>,
    pub code: usize,
    pub raw_log: Seq<char>,
    pub events: Seq<EventView>,
}

impl View for CosmTxResponse {
    type V = TxResponseView;

    open spec fn view(&self) -> TxResponseView {
        TxResponseView {
            height: self.height,
            txhash: self.txhash@,
            code: self.code,
            raw_log: self.raw_log@,
            events: self.events@.map_values(|e: TxResultBlockEvent| e@),
        }
    }
}

impl Clone for TxResultBlockAttribute {
    fn clone(&self) -> (r: Self)
        ensures
            r == *self,
    {
        TxResultBlockAttribute { key: self.key.clone(), value: self.value.clone() }
    }
}

impl Clone for TxResultBlockEvent {
    fn clone(&self) -> (r: Self)
        ensures
            r@ == self@,
    {
        let attributes = self.attributes.clone();
        assert(attributes@ =~= self.attributes@);
        TxResultBlockEvent { s_type: self.s_type.clone(), attributes }
    }
}

impl Clone for CosmTxResponse {
    fn clone(&self) -> (r: Self)
        ensures
            r@ == self@,
    {
        let events = self.events.clone();
        assert(events@.map_values(|e: TxResultBlockEvent| e@) =~= self.events@.map_values(
            |e: TxResultBlockEvent| e@,
        ));
        CosmTxResponse {
            height: self.height,
            txhash: self.txhash.clone(),
            code: self.code,
            raw_log: self.raw_log.clone(),
            events,
        }
    }
}

/// The position of the first attribute of `attrs` whose key is `key`, if any.
pub open spec fn is_first_match(attrs: Seq<(Seq<char>, Seq<char>)>, key: Seq<char>, i: int) -> bool {
    &&& 0 <= i < attrs.len()
    &&& attrs[i].0 == key
    &&& forall|j: int| 0 <= j < i ==> attrs[j].0 != key
}

/// The value that a lookup of `key` gives: that of the first attribute with
/// this key, whatever follows it.
pub open spec fn first_attribute_value(attrs: Seq<(Seq<char>, Seq<char>)>, key: Seq<char>) -> Option<Seq<char>> {
    if exists|i: int| is_first_match(attrs, key, i) {
        Some(attrs[choose|i: int| is_first_match(attrs, key, i)].1)
    } else {
        None
    }
}

/// Two first matches are the same position.
pub proof fn lemma_first_match_unique(attrs: Seq<(Seq<char>, Seq<char>)>, key: Seq<char>, i: int, j: int)
    requires
        is_first_match(attrs, key, i),
        is_first_match(attrs, key, j),
    ensures
        i == j,
{
    if i < j {
        assert(attrs[i].0 != key);
    } else if j < i {
        assert(attrs[j].0 != key);
    }
}

/// Where several attributes carry a key, a lookup gives the value of the
/// first of them, and nothing that follows it makes a difference.
pub proof fn lemma_first_attribute_wins(
    attrs: Seq<(Seq<char>, Seq<char>)>,
    later: Seq<(Seq<char>, Seq<char>)>,
    key: Seq<char>,
    i: int,
)
    requires
        is_first_match(attrs, key, i),
    ensures
        first_attribute_value(attrs, key) == Some(attrs[i].1),
        first_attribute_value(attrs + later, key) == Some(attrs[i].1),
{
    let c = choose|c: int| is_first_match(attrs, key, c);
    lemma_first_match_unique(attrs, key, i, c);
    let all = attrs + later;
    assert(is_first_match(all, key, i)) by {
        assert(all[i] == attrs[i]);
        assert forall|j: int| 0 <= j < i implies all[j].0 != key by {
            assert(all[j] == attrs[j]);
        }
    }
    let d = choose|d: int| is_first_match(all, key, d);
    lemma_first_match_unique(all, key, i, d);
}

impl TxResultBlockEvent {
    /// Looks `key` up among the attributes and returns the value of the first
    /// one that carries it.
    pub fn get_first_attribute_value(&self, key: &str) -> (r: Option<String>)
        ensures
            r.is_some() == first_attribute_value(self@.attributes, key@).is_some(),
            r matches Some(v) ==> Some(v@) == first_attribute_value(self@.attributes, key@),
    {
        let wanted = key.to_owned();
        let mut i: usize = 0;
        while i < self.attributes.len()
            invariant
                i <= self.attributes.len(),
                wanted@ == key@,
                forall|j: int| 0 <= j < i ==> self@.attributes[j].0 != key@,
            decreases self.attributes.len() - i,
        {
            if self.attributes[i].key == wanted {
                let v = self.attributes[i].value.clone();
                proof {
                    assert(is_first_match(self@.attributes, key@, i as int));
                    let c = choose|k: int| is_first_match(self@.attributes, key@, k);
                    lemma_first_match_unique(self@.attributes, key@, i as int, c);
                }
                return Some(v);
            }
            i += 1;
        }
        None
    }
}

/// The events of `events` that are named `name`, in their order.
pub open spec fn events_named(events: Seq<EventView>, name: Seq<char>) -> Seq<EventView> {
    events.filter(|e: EventView| e.name == name)
}

/// The views of a list of events.
pub open spec fn event_views(events: Seq<TxResultBlockEvent>) -> Seq<EventView> {
    events.map_values(|e: TxResultBlockEvent| e@)
}

impl CosmTxResponse {
    /// The events named `event_type`, in the order of emission.
    pub fn get_events(&self, event_type: &str) -> (r: Vec<TxResultBlockEvent>)
        ensures
            event_views(r@) == events_named(self@.events, event_type@),
    {
        let wanted = event_type.to_owned();
        let ghost pred = |e: EventView| e.name == event_type@;
        let ghost all = self@.events;
        let mut out: Vec<TxResultBlockEvent> = Vec::new();
        let mut i: usize = 0;
        proof {
            reveal(Seq::filter);
            assert(all.take(0) =~= Seq::empty());
            assert(out@.map_values(|e: TxResultBlockEvent| e@) =~= Seq::empty());
        }
        while i < self.events.len()
            invariant
                i <= self.events.len(),
                wanted@ == event_type@,
                all == self@.events,
                pred == (|e: EventView| e.name == event_type@),
                out@.map_values(|e: TxResultBlockEvent| e@) == all.take(i as int).filter(pred),
            decreases self.events.len() - i,
        {
            proof {
                reveal(Seq::filter);
                assert(all.take(i + 1).drop_last() =~= all.take(i as int));
                assert(all.take(i + 1).last() == self.events@[i as int]@);
            }
            if self.events[i].s_type == wanted {
                let ghost before = out@;
                let e = self.events[i].clone();
                out.push(e);
                assert(out@.map_values(|e: TxResultBlockEvent| e@) =~= before.map_values(
                    |e: TxResultBlockEvent| e@,
                ).push(e@));
            }
            i += 1;
        }
        proof {
            assert(all.take(i as int) =~= all);
        }
        out
    }

    /// Whether the transaction carries a zero status code.
    pub fn succeeded(&self) -> (r: bool)
        ensures
            r == (self.code == 0),
    {
        self.code == 0
    }
}

} // verus!
