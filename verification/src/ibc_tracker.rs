//! Tracking a state on one chain: whenever a new block is seen the state is
//! taken again, and what it shows beyond the last one is logged. Nothing is
//! logged where nothing changed.

use crate::render::{
    packet_map_rendering, render_packet_map, render_text_set, text_set_rendering,
};
use crate::diff::{
    lemma_map_diff_on_empty, lemma_map_diff_round_trip, lemma_set_diff_on_empty,
    lemma_set_diff_round_trip, map_applied, map_diff, set_applied, set_diff, MapDiff,
    PacketMapDiff, SetDiff, TextSetDiff,
};
use crate::sets::{
    changed_packets, lemma_no_changed_packets, lemma_packet_map_listing, lemma_text_set_order,
    PacketMap, SequenceSet, TextSet,
};
use crate::text::{join, opt_text};
use vstd::prelude::*;

verus! {

/// One line for the log: where it belongs and what it says.
#[derive(Debug, PartialEq, Eq)]
pub struct LogEntry {
    pub target: String,
    pub message: String,
}

/// The message of a log entry that shows `rendering` as what changed.
pub open spec fn update_message(rendering: Seq<char>) -> Seq<char> {
    "Update diff: "@ + rendering
}

/// A state that can be tracked: it can be made empty, compared with another
/// one, told apart from another one by a difference, changed by a
/// difference, and written out.
///
/// How a fresh state is obtained is the caller's business: the tracker is
/// handed each fresh state.
pub trait LoggedState: Sized {
    /// What leads from one state to another.
    type Diff;

    /// Whether both states show the same.
    spec fn same_as(&self, other: &Self) -> bool;

    /// Whether the state holds nothing.
    spec fn is_identity(&self) -> bool;

    /// Whether `diff` is what leads from `old_self` to `new_self`.
    spec fn leads(diff: &Self::Diff, old_self: &Self, new_self: &Self) -> bool;

    /// Whether `self` is `before` with `diff` applied.
    spec fn applied(&self, before: &Self, diff: &Self::Diff) -> bool;

    /// How the state reads.
    spec fn rendering(&self) -> Seq<char>;

    /// The state that holds nothing.
    fn identity() -> (r: Self)
        ensures
            r.is_identity(),
    ;

    /// Whether both states show the same.
    fn eq_state(&self, other: &Self) -> (r: bool)
        ensures
            r == self.same_as(other),
    ;

    /// What leads from this state to `new_self`.
    fn diff(&self, new_self: &Self) -> (r: Self::Diff)
        ensures
            Self::leads(&r, self, new_self),
    ;

    /// Applies a difference to this state.
    fn apply(&mut self, diff: &Self::Diff)
        ensures
            final(self).applied(old(self), diff),
    ;

    /// How the state reads.
    fn render(&self) -> (r: String)
        ensures
            r@ == self.rendering(),
    ;

    /// The log entry for the change from `self` to `new_self`: it shows what
    /// the difference between the two gives on a state that holds nothing,
    /// and so nothing of what both hold.
    fn log_state(&self, new_self: &Self, target: &str) -> (entry: LogEntry)
        ensures
            entry.target@ == target@,
            exists|shown: Self, diff: Self::Diff, nothing: Self|
                Self::leads(&diff, self, new_self) && nothing.is_identity() && #[trigger] shown.applied(
                    &nothing,
                    &diff,
                ) && entry.message@ == update_message(shown.rendering()),
    {
        let diff = self.diff(new_self);
        let mut shown = Self::identity();
        let ghost nothing = shown;
        shown.apply(&diff);
        let rendered = shown.render();
        let message = join("Update diff: ", rendered.as_str());
        assert(Self::leads(&diff, self, new_self) && nothing.is_identity() && shown.applied(
            &nothing,
            &diff,
        ) && message@ == update_message(shown.rendering()));
        LogEntry { target: target.to_owned(), message }
    }

    /// Takes `new_state` as the current state. A log entry comes back exactly
    /// where the new state differs from the old one.
    fn update_state(&mut self, new_state: Self, target: &str) -> (entry: Option<LogEntry>)
        ensures
            *final(self) == new_state,
            entry is None <==> old(self).same_as(&new_state),
            entry matches Some(e) ==> e.target@ == target@ && exists|
                shown: Self,
                diff: Self::Diff,
                nothing: Self,
            |
                Self::leads(&diff, old(self), &new_state) && nothing.is_identity()
                    && #[trigger] shown.applied(&nothing, &diff) && e.message@ == update_message(
                    shown.rendering(),
                ),
    {
        let entry = if !self.eq_state(&new_state) {
            Some(self.log_state(&new_state, target))
        } else {
            None
        };
        *self = new_state;
        entry
    }
}

/// Whether `shown` holds exactly what `new_state` shows beyond `old_state`:
/// what the difference between the two gives on a state that holds nothing.
pub open spec fn shows_changes<S: LoggedState>(shown: S, old_state: S, new_state: S) -> bool {
    exists|diff: S::Diff, nothing: S|
        S::leads(&diff, &old_state, &new_state) && nothing.is_identity() && #[trigger] shown.applied(
            &nothing,
            &diff,
        )
}

/// The state of a channel's handshake.
#[derive(Clone, Copy, PartialEq, Eq, Structural, Debug)]
pub enum ChannelState {
    Uninitialized,
    Init,
    TryOpen,
    Open,
    Closed,
}

/// A channel over a connection, as a chain reports it.
#[derive(Debug, PartialEq, Eq)]
pub struct IdentifiedChannel {
    pub state: ChannelState,
    pub port_id: String,
    pub channel_id: String,
}

/// The packets that a chain reports for one channel.
#[derive(Debug, PartialEq, Eq)]
pub struct ChannelPackets {
    pub channel_id: String,
    pub sequences: Vec<u64>,
}

/// The current state of a contract's IBC connection.
#[derive(Debug)]
pub struct CwIbcContractState {
    /// Connection over which the contract establishes channels.
    connection_id: String,
    /// The port of the contract.
    port_id: String,
    /// The open channels of the contract.
    pub channel_ids: TextSet,
    /// The packets committed on each channel.
    pub committed_packets: PacketMap,
    /// The packets acknowledged on each channel.
    pub acknowledged_packets: PacketMap,
}

pub struct ContractStateView {
    pub connection_id: Seq<char>,
    pub port_id: Seq<char>,
    pub channel_ids: Set<Seq<char>>,
    pub committed_packets: Map<Seq<char>, Set<u64>>,
    pub acknowledged_packets: Map<Seq<char>, Set<u64>>,
}

impl ContractStateView {
    /// Whether the packets are listed for the channels of the state, each of
    /// them and no other.
    pub open spec fn consistent(self) -> bool {
        self.committed_packets.dom() == self.channel_ids && self.acknowledged_packets.dom()
            == self.channel_ids
    }
}

impl View for CwIbcContractState {
    type V = ContractStateView;

    closed spec fn view(&self) -> ContractStateView {
        ContractStateView {
            connection_id: self.connection_id@,
            port_id: self.port_id@,
            channel_ids: self.channel_ids@,
            committed_packets: self.committed_packets@,
            acknowledged_packets: self.acknowledged_packets@,
        }
    }
}

/// Whether a channel is open on `port`.
pub open spec fn is_open_on(channel: IdentifiedChannel, port: Seq<char>) -> bool {
    channel.state == ChannelState::Open && channel.port_id@ == port
}

/// The channels of `channels` that are open on `port`.
pub open spec fn open_channels(channels: Seq<IdentifiedChannel>, port: Seq<char>) -> Set<Seq<char>> {
    Set::new(
        |id: Seq<char>|
            exists|i: int|
                0 <= i < channels.len() && is_open_on(#[trigger] channels[i], port)
                    && channels[i].channel_id@ == id,
    )
}

/// The packets that `answers` report for `channel`.
pub open spec fn sequences_of(answers: Seq<ChannelPackets>, channel: Seq<char>) -> Set<u64> {
    Set::new(
        |n: u64|
            exists|i: int|
                0 <= i < answers.len() && (#[trigger] answers[i]).channel_id@ == channel
                    && answers[i].sequences@.contains(n),
    )
}

/// The packets of each of `channels`, as `answers` report them. A channel
/// without an answer has none; an answer for another channel is left out.
pub open spec fn packets_by_channel(channels: Set<Seq<char>>, answers: Seq<ChannelPackets>) -> Map<
    Seq<char>,
    Set<u64>,
> {
    Map::new(|k: Seq<char>| channels.contains(k), |k: Seq<char>| sequences_of(answers, k))
}

/// The text that a change shows for a text: the new one where it differs,
/// none where it does not.
pub open spec fn changed_text(old: Seq<char>, new: Seq<char>) -> Seq<char> {
    if old == new {
        Seq::empty()
    } else {
        new
    }
}

/// What `new` shows beyond `old`: the channels and packets that `old` did not
/// have.
pub open spec fn state_changes(old: ContractStateView, new: ContractStateView) -> ContractStateView {
    ContractStateView {
        connection_id: changed_text(old.connection_id, new.connection_id),
        port_id: changed_text(old.port_id, new.port_id),
        channel_ids: new.channel_ids.difference(old.channel_ids),
        committed_packets: changed_packets(old.committed_packets, new.committed_packets),
        acknowledged_packets: changed_packets(old.acknowledged_packets, new.acknowledged_packets),
    }
}

/// One section of a state as it reads: nothing where there is nothing to
/// show.
pub open spec fn section(title: Seq<char>, empty: bool, body: Seq<char>) -> Seq<char> {
    if empty {
        Seq::empty()
    } else {
        title + body
    }
}

/// The packets that `answers` report for `channel`.
pub fn sequences_for(answers: &Vec<ChannelPackets>, channel: &str) -> (r: SequenceSet)
    ensures
        r@ == sequences_of(answers@, channel@),
{
    let wanted = channel.to_owned();
    let mut out = SequenceSet::new();
    let mut i: usize = 0;
    while i < answers.len()
        invariant
            i <= answers.len(),
            wanted@ == channel@,
            forall|n: u64|
                out@.contains(n) <==> exists|j: int|
                    0 <= j < i && (#[trigger] answers@[j]).channel_id@ == channel@
                        && answers@[j].sequences@.contains(n),
        decreases answers.len() - i,
    {
        let ghost before = out@;
        if answers[i].channel_id == wanted {
            let sequences = &answers[i].sequences;
            let mut k: usize = 0;
            while k < sequences.len()
                invariant
                    k <= sequences.len(),
                    forall|n: u64| #[trigger]
                        out@.contains(n) <==> (before.contains(n) || exists|m: int|
                            0 <= m < k && sequences@[m] == n),
                decreases sequences.len() - k,
            {
                let ghost inner = out@;
                out.insert(sequences[k]);
                assert forall|n: u64| #[trigger]
                    out@.contains(n) <==> (before.contains(n) || exists|m: int|
                        0 <= m < k + 1 && sequences@[m] == n) by {
                    if inner.contains(n) && !before.contains(n) {
                        let m = choose|m: int| 0 <= m < k && sequences@[m] == n;
                        assert(0 <= m < k + 1 && sequences@[m] == n);
                    }
                    if n == sequences@[k as int] {
                        assert(0 <= k < k + 1 && sequences@[k as int] == n);
                    }
                    if exists|m: int| 0 <= m < k + 1 && sequences@[m] == n {
                        let m = choose|m: int| 0 <= m < k + 1 && sequences@[m] == n;
                        if m < k {
                            assert(inner.contains(n));
                        }
                    }
                }
                k += 1;
            }
        }
        assert forall|n: u64|
            out@.contains(n) <==> exists|j: int|
                0 <= j < i + 1 && (#[trigger] answers@[j]).channel_id@ == channel@
                    && answers@[j].sequences@.contains(n) by {
            if before.contains(n) {
                let j = choose|j: int|
                    0 <= j < i && (#[trigger] answers@[j]).channel_id@ == channel@
                        && answers@[j].sequences@.contains(n);
                assert(0 <= j < i + 1 && answers@[j].channel_id@ == channel@
                    && answers@[j].sequences@.contains(n));
            }
            if out@.contains(n) && !before.contains(n) {
                let m = choose|m: int|
                    0 <= m < answers@[i as int].sequences@.len() && answers@[i as int].sequences@[m]
                        == n;
                assert(answers@[i as int].sequences@.contains(n));
                assert(0 <= i < i + 1 && answers@[i as int].channel_id@ == channel@);
            }
            if exists|j: int|
                0 <= j < i + 1 && (#[trigger] answers@[j]).channel_id@ == channel@
                    && answers@[j].sequences@.contains(n) {
                let j = choose|j: int|
                    0 <= j < i + 1 && (#[trigger] answers@[j]).channel_id@ == channel@
                        && answers@[j].sequences@.contains(n);
                if j < i {
                    assert(before.contains(n));
                } else {
                    let m = choose|m: int|
                        0 <= m < answers@[i as int].sequences@.len()
                            && answers@[i as int].sequences@[m] == n;
                    assert(out@.contains(n));
                }
            }
        }
        i += 1;
    }
    assert(out@ =~= sequences_of(answers@, channel@));
    out
}

/// The packets of each of `channels`, as `answers` report them.
pub fn packets_of(channels: &TextSet, answers: &Vec<ChannelPackets>) -> (r: PacketMap)
    ensures
        r@ == packets_by_channel(channels@, answers@),
{
    let ids = channels.to_vec();
    let mut out = PacketMap::new();
    let mut i: usize = 0;
    while i < ids.len()
        invariant
            i <= ids.len(),
            forall|k: Seq<char>| #[trigger]
                out@.contains_key(k) <==> exists|j: int| 0 <= j < i && ids@[j]@ == k,
            forall|k: Seq<char>| #[trigger]
                out@.contains_key(k) ==> out@[k] == sequences_of(answers@, k),
        decreases ids.len() - i,
    {
        let ghost before = out@;
        let sequences = sequences_for(answers, ids[i].as_str());
        out.insert(ids[i].clone(), sequences);
        assert forall|k: Seq<char>| #[trigger]
            out@.contains_key(k) <==> exists|j: int| 0 <= j < i + 1 && ids@[j]@ == k by {
            if before.contains_key(k) {
                let j = choose|j: int| 0 <= j < i && ids@[j]@ == k;
                assert(0 <= j < i + 1 && ids@[j]@ == k);
            }
            if k == ids@[i as int]@ {
                assert(0 <= i < i + 1 && ids@[i as int]@ == k);
            }
            if exists|j: int| 0 <= j < i + 1 && ids@[j]@ == k {
                let j = choose|j: int| 0 <= j < i + 1 && ids@[j]@ == k;
                if j < i {
                    assert(before.contains_key(k));
                }
            }
        }
        i += 1;
    }
    assert(out@ =~= packets_by_channel(channels@, answers@)) by {
        let listed = ids@.map_values(|s: String| s@);
        assert forall|k: Seq<char>| #[trigger]
            out@.contains_key(k) <==> packets_by_channel(channels@, answers@).contains_key(k) by {
            if out@.contains_key(k) {
                let j = choose|j: int| 0 <= j < i && ids@[j]@ == k;
                assert(listed[j] == k);
            }
            if channels@.contains(k) {
                let j = choose|j: int| 0 <= j < listed.len() && listed[j] == k;
                assert(0 <= j < i && ids@[j]@ == k);
            }
        }
    }
    out
}

impl CwIbcContractState {
    /// How the state reads: its channels, then the packets committed, then
    /// the packets acknowledged; what is empty is left out.
    pub closed spec fn written(&self) -> Seq<char> {
        section(
            "new_channel(s): "@,
            self.channel_ids.order().len() == 0,
            text_set_rendering(self.channel_ids.order()),
        ) + section(
            "received_packet(s): "@,
            self.committed_packets.listing().len() == 0,
            packet_map_rendering(self.committed_packets.listing()),
        ) + section(
            "acknowledged_packet(s): "@,
            self.acknowledged_packets.listing().len() == 0,
            packet_map_rendering(self.acknowledged_packets.listing()),
        )
    }

    /// The channels in the order in which the state lists them.
    pub closed spec fn channel_order(&self) -> Seq<Seq<char>> {
        self.channel_ids.order()
    }

    /// A state without channels or packets for the contract on `port_id`
    /// over `connection_id`.
    pub fn new(connection_id: &str, port_id: &str) -> (r: Self)
        ensures
            r@ == (ContractStateView {
                connection_id: connection_id@,
                port_id: port_id@,
                channel_ids: Set::empty(),
                committed_packets: Map::empty(),
                acknowledged_packets: Map::empty(),
            }),
    {
        Self {
            connection_id: connection_id.to_owned(),
            port_id: port_id.to_owned(),
            channel_ids: TextSet::new(),
            committed_packets: PacketMap::new(),
            acknowledged_packets: PacketMap::new(),
        }
    }

    /// The connection that the state is about.
    pub fn connection_id(&self) -> (r: &String)
        ensures
            r@ == self@.connection_id,
    {
        &self.connection_id
    }

    /// The port that the state is about.
    pub fn port_id(&self) -> (r: &String)
        ensures
            r@ == self@.port_id,
    {
        &self.port_id
    }

    /// The channels among `channels` that are open on the contract's port.
    pub fn open_channel_ids(&self, channels: &Vec<IdentifiedChannel>) -> (r: TextSet)
        ensures
            r@ == open_channels(channels@, self@.port_id),
    {
        let mut out = TextSet::new();
        let mut i: usize = 0;
        while i < channels.len()
            invariant
                i <= channels.len(),
                forall|id: Seq<char>|
                    out@.contains(id) <==> exists|j: int|
                        0 <= j < i && is_open_on(#[trigger] channels@[j], self.port_id@)
                            && channels@[j].channel_id@ == id,
            decreases channels.len() - i,
        {
            let ghost before = out@;
            let channel = &channels[i];
            let open = match channel.state {
                ChannelState::Open => true,
                _ => false,
            };
            if open && channel.port_id == self.port_id {
                out.insert(channel.channel_id.clone());
            }
            assert forall|id: Seq<char>|
                out@.contains(id) <==> exists|j: int|
                    0 <= j < i + 1 && is_open_on(#[trigger] channels@[j], self.port_id@)
                        && channels@[j].channel_id@ == id by {
                if before.contains(id) {
                    let j = choose|j: int|
                        0 <= j < i && is_open_on(#[trigger] channels@[j], self.port_id@)
                            && channels@[j].channel_id@ == id;
                    assert(0 <= j < i + 1 && is_open_on(channels@[j], self.port_id@)
                        && channels@[j].channel_id@ == id);
                }
                if out@.contains(id) && !before.contains(id) {
                    assert(0 <= i < i + 1 && is_open_on(channels@[i as int], self.port_id@)
                        && channels@[i as int].channel_id@ == id);
                }
                if exists|j: int|
                    0 <= j < i + 1 && is_open_on(#[trigger] channels@[j], self.port_id@)
                        && channels@[j].channel_id@ == id {
                    let j = choose|j: int|
                        0 <= j < i + 1 && is_open_on(#[trigger] channels@[j], self.port_id@)
                            && channels@[j].channel_id@ == id;
                    if j < i {
                        assert(before.contains(id));
                    }
                }
            }
            i += 1;
        }
        assert(out@ =~= open_channels(channels@, self.port_id@));
        out
    }

    /// The state that the chain shows now: the channels of `channels` that
    /// are open on the contract's port, each with the packets that
    /// `committed` and `acknowledged` report for it.
    pub fn new_state(
        &self,
        channels: &Vec<IdentifiedChannel>,
        committed: &Vec<ChannelPackets>,
        acknowledged: &Vec<ChannelPackets>,
    ) -> (r: Self)
        ensures
            r@ == (ContractStateView {
                connection_id: self@.connection_id,
                port_id: self@.port_id,
                channel_ids: open_channels(channels@, self@.port_id),
                committed_packets: packets_by_channel(
                    open_channels(channels@, self@.port_id),
                    committed@,
                ),
                acknowledged_packets: packets_by_channel(
                    open_channels(channels@, self@.port_id),
                    acknowledged@,
                ),
            }),
            r@.consistent(),
    {
        let channel_ids = self.open_channel_ids(channels);
        let committed_packets = packets_of(&channel_ids, committed);
        let acknowledged_packets = packets_of(&channel_ids, acknowledged);
        assert(committed_packets@.dom() =~= channel_ids@);
        assert(acknowledged_packets@.dom() =~= channel_ids@);
        Self {
            connection_id: self.connection_id.clone(),
            port_id: self.port_id.clone(),
            channel_ids,
            committed_packets,
            acknowledged_packets,
        }
    }

    /// How the state reads.
    pub fn to_string(&self) -> (r: String)
        ensures
            r@ == self.written(),
    {
        let mut out = String::new();
        if !self.channel_ids.is_empty() {
            out.append("new_channel(s): ");
            let ids = self.channel_ids.to_vec();
            let body = render_text_set(&ids);
            out.append(body.as_str());
        }
        let ghost first = out@;
        if !self.committed_packets.is_empty() {
            out.append("received_packet(s): ");
            let entries = self.committed_packets.to_vec();
            let body = render_packet_map(&entries);
            out.append(body.as_str());
        }
        let ghost second = out@;
        if !self.acknowledged_packets.is_empty() {
            out.append("acknowledged_packet(s): ");
            let entries = self.acknowledged_packets.to_vec();
            let body = render_packet_map(&entries);
            out.append(body.as_str());
        }
        assert(out@ =~= self.written());
        out
    }
}

impl Clone for CwIbcContractState {
    fn clone(&self) -> (r: Self)
        ensures
            r@ == self@,
    {
        Self {
            connection_id: self.connection_id.clone(),
            port_id: self.port_id.clone(),
            channel_ids: self.channel_ids.clone(),
            committed_packets: self.committed_packets.clone(),
            acknowledged_packets: self.acknowledged_packets.clone(),
        }
    }
}

impl Default for CwIbcContractState {
    fn default() -> (r: Self)
        ensures
            r.is_identity(),
    {
        Self::identity()
    }
}

/// What leads from one state of a contract to another.
#[derive(Debug)]
pub struct CwIbcContractStateDiff {
    /// The connection, where it differs.
    pub connection_id: Option<String>,
    /// The port, where it differs.
    pub port_id: Option<String>,
    pub channel_ids: TextSetDiff,
    pub committed_packets: PacketMapDiff,
    pub acknowledged_packets: PacketMapDiff,
}

pub struct ContractStateDiffView {
    pub connection_id: Option<Seq<char>>,
    pub port_id: Option<Seq<char>>,
    pub channel_ids: SetDiff<Seq<char>>,
    pub committed_packets: MapDiff,
    pub acknowledged_packets: MapDiff,
}

impl View for CwIbcContractStateDiff {
    type V = ContractStateDiffView;

    open spec fn view(&self) -> ContractStateDiffView {
        ContractStateDiffView {
            connection_id: opt_text(self.connection_id),
            port_id: opt_text(self.port_id),
            channel_ids: self.channel_ids@,
            committed_packets: self.committed_packets@,
            acknowledged_packets: self.acknowledged_packets@,
        }
    }
}

/// What leads from one text to another: the new text where they differ.
pub open spec fn text_diff(old: Seq<char>, new: Seq<char>) -> Option<Seq<char>> {
    if old == new {
        None
    } else {
        Some(new)
    }
}

/// A text with a difference applied.
pub open spec fn text_applied(before: Seq<char>, diff: Option<Seq<char>>) -> Seq<char> {
    match diff {
        Some(text) => text,
        None => before,
    }
}

/// What leads from `old` to `new`, part by part.
pub open spec fn state_diff(old: ContractStateView, new: ContractStateView) -> ContractStateDiffView {
    ContractStateDiffView {
        connection_id: text_diff(old.connection_id, new.connection_id),
        port_id: text_diff(old.port_id, new.port_id),
        channel_ids: set_diff(old.channel_ids, new.channel_ids),
        committed_packets: map_diff(old.committed_packets, new.committed_packets),
        acknowledged_packets: map_diff(old.acknowledged_packets, new.acknowledged_packets),
    }
}

/// `before` with a difference applied, part by part.
pub open spec fn state_applied(before: ContractStateView, diff: ContractStateDiffView) -> ContractStateView {
    ContractStateView {
        connection_id: text_applied(before.connection_id, diff.connection_id),
        port_id: text_applied(before.port_id, diff.port_id),
        channel_ids: set_applied(before.channel_ids, diff.channel_ids),
        committed_packets: map_applied(before.committed_packets, diff.committed_packets),
        acknowledged_packets: map_applied(before.acknowledged_packets, diff.acknowledged_packets),
    }
}

/// The state that holds nothing.
pub open spec fn empty_state() -> ContractStateView {
    ContractStateView {
        connection_id: Seq::empty(),
        port_id: Seq::empty(),
        channel_ids: Set::empty(),
        committed_packets: Map::empty(),
        acknowledged_packets: Map::empty(),
    }
}

fn diff_text(old: &String, new: &String) -> (r: Option<String>)
    ensures
        opt_text(r) == text_diff(old@, new@),
{
    if *old == *new {
        None
    } else {
        Some(new.clone())
    }
}

impl CwIbcContractState {
    /// What `new_self` shows beyond this state: what the difference between
    /// the two gives on the state that holds nothing.
    pub fn changes(&self, new_self: &Self) -> (r: Self)
        ensures
            r@ == state_changes(self@, new_self@),
            shows_changes(r, *self, *new_self),
    {
        let diff = self.diff(new_self);
        let mut shown = Self::identity();
        let ghost nothing = shown;
        shown.apply(&diff);
        proof {
            assert(Self::leads(&diff, self, new_self) && nothing.is_identity() && shown.applied(
                &nothing,
                &diff,
            ));
            lemma_difference_on_nothing(self@, new_self@);
        }
        shown
    }
}

impl LoggedState for CwIbcContractState {
    type Diff = CwIbcContractStateDiff;

    open spec fn same_as(&self, other: &Self) -> bool {
        self@ == other@
    }

    open spec fn is_identity(&self) -> bool {
        self@ == empty_state()
    }

    open spec fn leads(diff: &Self::Diff, old_self: &Self, new_self: &Self) -> bool {
        diff@ == state_diff(old_self@, new_self@)
    }

    open spec fn applied(&self, before: &Self, diff: &Self::Diff) -> bool {
        self@ == state_applied(before@, diff@)
    }

    open spec fn rendering(&self) -> Seq<char> {
        self.written()
    }

    fn identity() -> (r: Self) {
        Self {
            connection_id: String::new(),
            port_id: String::new(),
            channel_ids: TextSet::new(),
            committed_packets: PacketMap::new(),
            acknowledged_packets: PacketMap::new(),
        }
    }

    fn eq_state(&self, other: &Self) -> (r: bool) {
        self.connection_id == other.connection_id && self.port_id == other.port_id
            && self.channel_ids.same(&other.channel_ids) && self.committed_packets.same(
            &other.committed_packets,
        ) && self.acknowledged_packets.same(&other.acknowledged_packets)
    }

    fn diff(&self, new_self: &Self) -> (r: Self::Diff) {
        CwIbcContractStateDiff {
            connection_id: diff_text(&self.connection_id, &new_self.connection_id),
            port_id: diff_text(&self.port_id, &new_self.port_id),
            channel_ids: self.channel_ids.diff(&new_self.channel_ids),
            committed_packets: self.committed_packets.diff(&new_self.committed_packets),
            acknowledged_packets: self.acknowledged_packets.diff(&new_self.acknowledged_packets),
        }
    }

    fn apply(&mut self, diff: &Self::Diff) {
        match &diff.connection_id {
            Some(text) => {
                self.connection_id = text.clone();
            },
            None => {},
        }
        match &diff.port_id {
            Some(text) => {
                self.port_id = text.clone();
            },
            None => {},
        }
        self.channel_ids.apply(&diff.channel_ids);
        self.committed_packets.apply(&diff.committed_packets);
        self.acknowledged_packets.apply(&diff.acknowledged_packets);
    }

    fn render(&self) -> (r: String) {
        self.to_string()
    }
}

/// A difference applied to the state that it starts from gives the state
/// that it leads to.
pub proof fn lemma_difference_round_trip(old_state: ContractStateView, new_state: ContractStateView)
    ensures
        state_applied(old_state, state_diff(old_state, new_state)) == new_state,
{
    lemma_set_diff_round_trip(old_state.channel_ids, new_state.channel_ids);
    lemma_map_diff_round_trip(old_state.committed_packets, new_state.committed_packets);
    lemma_map_diff_round_trip(old_state.acknowledged_packets, new_state.acknowledged_packets);
}

/// A difference applied to the state that holds nothing gives what the new
/// state shows beyond the old one.
pub proof fn lemma_difference_on_nothing(old_state: ContractStateView, new_state: ContractStateView)
    ensures
        state_applied(empty_state(), state_diff(old_state, new_state)) == state_changes(
            old_state,
            new_state,
        ),
{
    lemma_set_diff_on_empty(old_state.channel_ids, new_state.channel_ids);
    lemma_map_diff_on_empty(old_state.committed_packets, new_state.committed_packets);
    lemma_map_diff_on_empty(old_state.acknowledged_packets, new_state.acknowledged_packets);
}

/// What is shown as changed between two states of a contract is what the
/// new state shows beyond the old one.
pub proof fn lemma_shown_changes(
    old_state: CwIbcContractState,
    new_state: CwIbcContractState,
    shown: CwIbcContractState,
)
    requires
        shows_changes(shown, old_state, new_state),
    ensures
        shown@ == state_changes(old_state@, new_state@),
{
    lemma_difference_on_nothing(old_state@, new_state@);
}

/// Where channels were added and the channels that were already there kept
/// their packets, what is shown is about the added channels alone: they are
/// the channels that are listed, and no packet entry is for a channel that
/// was there before.
pub proof fn lemma_added_channels_alone_are_shown(
    old_state: CwIbcContractState,
    new_state: CwIbcContractState,
    shown: CwIbcContractState,
)
    requires
        shows_changes(shown, old_state, new_state),
        old_state@.consistent(),
        new_state@.consistent(),
        old_state@.channel_ids.subset_of(new_state@.channel_ids),
        old_state@.channel_ids != new_state@.channel_ids,
        forall|id: Seq<char>|
            old_state@.channel_ids.contains(id) ==> new_state@.committed_packets[id]
                == old_state@.committed_packets[id] && new_state@.acknowledged_packets[id]
                == old_state@.acknowledged_packets[id],
    ensures
        !old_state.same_as(&new_state),
        shown@.channel_ids == new_state@.channel_ids.difference(old_state@.channel_ids),
        shown@.committed_packets.dom() == shown@.channel_ids,
        shown@.acknowledged_packets.dom() == shown@.channel_ids,
        forall|id: Seq<char>|
            shown@.channel_ids.contains(id) ==> shown@.committed_packets[id]
                == new_state@.committed_packets[id] && shown@.acknowledged_packets[id]
                == new_state@.acknowledged_packets[id],
        forall|id: Seq<char>|
            shown.channel_order().contains(id) <==> (new_state@.channel_ids.contains(id)
                && !old_state@.channel_ids.contains(id)),
        shown.channel_order().len() > 0,
{
    lemma_shown_changes(old_state, new_state, shown);
    lemma_text_set_order(shown.channel_ids);
    let added = new_state@.channel_ids.difference(old_state@.channel_ids);
    assert(shown@.committed_packets.dom() =~= added) by {
        assert forall|id: Seq<char>| shown@.committed_packets.dom().contains(id) <==> added.contains(
            id,
        ) by {
            assert(old_state@.committed_packets.dom().contains(id)
                == old_state@.channel_ids.contains(id));
            assert(new_state@.committed_packets.dom().contains(id)
                == new_state@.channel_ids.contains(id));
        }
    }
    assert(shown@.acknowledged_packets.dom() =~= added) by {
        assert forall|id: Seq<char>|
            shown@.acknowledged_packets.dom().contains(id) <==> added.contains(id) by {
            assert(old_state@.acknowledged_packets.dom().contains(id)
                == old_state@.channel_ids.contains(id));
            assert(new_state@.acknowledged_packets.dom().contains(id)
                == new_state@.channel_ids.contains(id));
        }
    }
    assert forall|id: Seq<char>| shown@.channel_ids.contains(id) implies shown@.committed_packets[id]
        == new_state@.committed_packets[id] && shown@.acknowledged_packets[id]
        == new_state@.acknowledged_packets[id] by {
        assert(old_state@.committed_packets.dom().contains(id) == old_state@.channel_ids.contains(
            id,
        ));
        assert(old_state@.acknowledged_packets.dom().contains(id)
            == old_state@.channel_ids.contains(id));
        assert(shown@.committed_packets.dom().contains(id));
        assert(shown@.acknowledged_packets.dom().contains(id));
    }
    if shown@.channel_ids == Set::<Seq<char>>::empty() {
        assert(new_state@.channel_ids =~= old_state@.channel_ids) by {
            assert forall|id: Seq<char>|
                new_state@.channel_ids.contains(id) implies old_state@.channel_ids.contains(
                id,
            ) by {
                if !old_state@.channel_ids.contains(id) {
                    assert(added.contains(id));
                }
            }
        }
    }
}

/// Between two states that show the same, nothing is shown as changed: the
/// entry that would be logged has no channel and no packet in it.
pub proof fn lemma_no_change_shows_nothing(
    old_state: CwIbcContractState,
    new_state: CwIbcContractState,
    shown: CwIbcContractState,
)
    requires
        old_state.same_as(&new_state),
        shows_changes(shown, old_state, new_state),
    ensures
        shown.rendering() == Seq::<char>::empty(),
{
    lemma_shown_changes(old_state, new_state, shown);
    lemma_no_changed_packets(old_state@.committed_packets);
    lemma_no_changed_packets(old_state@.acknowledged_packets);
    lemma_text_set_order(shown.channel_ids);
    lemma_packet_map_listing(shown.committed_packets);
    lemma_packet_map_listing(shown.acknowledged_packets);
    assert(shown@.channel_ids =~= Set::<Seq<char>>::empty());
    assert(shown.written() =~= Seq::<char>::empty());
}

/// How long the tracker waits between two looks at the chain where nothing
/// else is asked for, in seconds.
pub const DEFAULT_LOG_INTERVAL: u64 = 4;

/// What a tracker is set up with.
#[derive(Debug)]
pub struct IbcTrackerConfig<S: LoggedState> {
    /// The wait between two looks at the chain, in seconds.
    pub log_interval: u64,
    /// The state to start from: what is logged is what changes against it.
    pub ibc_state: S,
}

/// Why a configuration could not be built.
#[derive(Debug, PartialEq, Eq)]
pub enum IbcTrackerConfigBuilderError {
    UninitializedField(String),
    ValidationError(String),
}

/// Sets a tracker's configuration up piece by piece; what is not set takes
/// its default.
#[derive(Debug)]
pub struct IbcTrackerConfigBuilder<S: LoggedState> {
    log_interval: Option<u64>,
    ibc_state: Option<S>,
}

impl<S: LoggedState> IbcTrackerConfigBuilder<S> {
    /// The interval that was set, if any.
    pub closed spec fn chosen_interval(&self) -> Option<u64> {
        self.log_interval
    }

    /// The state that was set, if any.
    pub closed spec fn chosen_state(&self) -> Option<S> {
        self.ibc_state
    }

    /// A builder with nothing set.
    pub fn new() -> (r: Self)
        ensures
            r.chosen_interval() is None,
            r.chosen_state() is None,
    {
        IbcTrackerConfigBuilder { log_interval: None, ibc_state: None }
    }

    /// Sets the wait between two looks at the chain, in seconds.
    pub fn log_interval(self, seconds: u64) -> (r: Self)
        ensures
            r.chosen_interval() == Some(seconds),
            r.chosen_state() == self.chosen_state(),
    {
        IbcTrackerConfigBuilder { log_interval: Some(seconds), ibc_state: self.ibc_state }
    }

    /// Sets the state to start from.
    pub fn ibc_state(self, state: S) -> (r: Self)
        ensures
            r.chosen_interval() == self.chosen_interval(),
            r.chosen_state() == Some(state),
    {
        IbcTrackerConfigBuilder { log_interval: self.log_interval, ibc_state: Some(state) }
    }

    /// The configuration: what was set, [`DEFAULT_LOG_INTERVAL`] for an
    /// interval that was not, and the state that holds nothing for a state
    /// that was not. It never fails.
    pub fn build(self) -> (r: Result<IbcTrackerConfig<S>, IbcTrackerConfigBuilderError>)
        ensures
            r matches Ok(config) && config.log_interval == (match self.chosen_interval() {
                Some(seconds) => seconds,
                None => DEFAULT_LOG_INTERVAL,
            }) && (match self.chosen_state() {
                Some(state) => config.ibc_state == state,
                None => config.ibc_state.is_identity(),
            }),
    {
        let log_interval = match self.log_interval {
            Some(seconds) => seconds,
            None => DEFAULT_LOG_INTERVAL,
        };
        let ibc_state = match self.ibc_state {
            Some(state) => state,
            None => S::identity(),
        };
        Ok(IbcTrackerConfig { log_interval, ibc_state })
    }
}

impl<S: LoggedState> Default for IbcTrackerConfigBuilder<S> {
    fn default() -> (r: Self)
        ensures
            r.chosen_interval() is None,
            r.chosen_state() is None,
    {
        Self::new()
    }
}

impl<S: LoggedState> IbcTrackerConfig<S> {
    /// A builder with nothing set.
    pub fn builder() -> (r: IbcTrackerConfigBuilder<S>)
        ensures
            r.chosen_interval() is None,
            r.chosen_state() is None,
    {
        IbcTrackerConfigBuilder::new()
    }
}

/// What the tracker is waiting for.
#[derive(Clone, Copy, PartialEq, Eq, Structural, Debug)]
pub enum TrackerPhase {
    /// The height to start from was asked for.
    AwaitingBaseline,
    /// Between two looks at the chain: the caller is waiting.
    Idle,
    /// The height was asked for.
    AskingHeight,
    /// A block at `height` is new and the state was asked for.
    Refreshing { height: u64 },
}

/// What happened since the last step.
#[derive(Debug)]
pub enum TrackerEvent<S> {
    /// The wait is over.
    Tick,
    /// The chain is at this height.
    Height(u64),
    /// The state as the chain shows it now.
    Refreshed(S),
}

/// What the caller is to do next.
#[derive(Clone, Copy, PartialEq, Eq, Structural, Debug)]
pub enum TrackerAction {
    /// Ask the chain for its height and come back with [`TrackerEvent::Height`].
    QueryHeight,
    /// Take the state again and come back with [`TrackerEvent::Refreshed`].
    Refresh,
    /// Wait this long and come back with [`TrackerEvent::Tick`].
    Sleep { seconds: u64 },
}

/// What a step gives: what to do next, and what to log, if anything.
#[derive(Debug, PartialEq, Eq)]
pub struct TrackerStep {
    pub action: TrackerAction,
    pub entry: Option<LogEntry>,
}

/// A tracker of one state on one chain. It never ends by itself: the caller
/// stops it between two steps.
#[derive(Debug)]
pub struct IbcTracker<S: LoggedState> {
    /// The wait between two looks at the chain, in seconds.
    pub log_interval: u64,
    /// Where the log entries belong.
    pub target: String,
    /// The height at which the state was last taken.
    pub last_height: u64,
    pub phase: TrackerPhase,
    /// The state as it was last taken.
    pub state: S,
}

/// What the caller is doing while the tracker is in `phase`.
pub open spec fn pending_action(phase: TrackerPhase, log_interval: u64) -> TrackerAction {
    match phase {
        TrackerPhase::AwaitingBaseline => TrackerAction::QueryHeight,
        TrackerPhase::AskingHeight => TrackerAction::QueryHeight,
        TrackerPhase::Refreshing { .. } => TrackerAction::Refresh,
        TrackerPhase::Idle => TrackerAction::Sleep { seconds: log_interval },
    }
}

/// The phase that follows on a height: the first height is where tracking
/// starts, a later one asks for the state exactly where it is above the last
/// one seen.
pub open spec fn phase_on_height(phase: TrackerPhase, last_height: u64, height: u64) -> TrackerPhase {
    match phase {
        TrackerPhase::AwaitingBaseline => TrackerPhase::AskingHeight,
        TrackerPhase::AskingHeight => if height > last_height {
            TrackerPhase::Refreshing { height }
        } else {
            TrackerPhase::Idle
        },
        other => other,
    }
}

impl<S: LoggedState> IbcTracker<S> {
    /// A tracker that starts from the state of `config` and logs to
    /// `target`. The caller starts by asking the chain for its height.
    pub fn new(config: IbcTrackerConfig<S>, target: String) -> (r: (Self, TrackerAction))
        ensures
            r.0.log_interval == config.log_interval,
            r.0.state == config.ibc_state,
            r.0.target == target,
            r.0.phase == TrackerPhase::AwaitingBaseline,
            r.0.last_height == 0,
            r.1 == TrackerAction::QueryHeight,
    {
        (
            IbcTracker {
                log_interval: config.log_interval,
                target,
                last_height: 0,
                phase: TrackerPhase::AwaitingBaseline,
                state: config.ibc_state,
            },
            TrackerAction::QueryHeight,
        )
    }

    /// Whether a query is out, as opposed to the wait between two looks.
    pub fn is_polling(&self) -> (r: bool)
        ensures
            r == (self.phase != TrackerPhase::Idle),
    {
        match self.phase {
            TrackerPhase::Idle => false,
            _ => true,
        }
    }

    /// One step of tracking.
    ///
    /// The first height is where tracking starts. After each wait the height
    /// is asked for; where it is above the last one seen, the state is taken
    /// again, logged where it differs from the one before, and kept whether it
    /// differs or not. Then the caller waits again. An event that does not
    /// answer what was asked changes nothing, and the caller is told again
    /// what it was asked for.
    pub fn cron_log(&mut self, event: TrackerEvent<S>) -> (step: TrackerStep)
        ensures
            final(self).log_interval == old(self).log_interval,
            final(self).target == old(self).target,
            step.action == pending_action(final(self).phase, old(self).log_interval),
            match (old(self).phase, event) {
                (TrackerPhase::Refreshing { height }, TrackerEvent::Refreshed(fresh)) => {
                    &&& final(self).state == fresh
                    &&& final(self).last_height == height
                    &&& final(self).phase == TrackerPhase::Idle
                    &&& step.entry is None <==> old(self).state.same_as(&fresh)
                    &&& step.entry matches Some(e) ==> e.target@ == old(self).target@
                        && exists|shown: S|
                        shows_changes(shown, old(self).state, fresh) && e.message@
                            == update_message(#[trigger] shown.rendering())
                },
                (TrackerPhase::AwaitingBaseline, TrackerEvent::Height(height)) => {
                    &&& final(self).state == old(self).state
                    &&& final(self).last_height == height
                    &&& final(self).phase == TrackerPhase::AskingHeight
                    &&& step.entry is None
                },
                (TrackerPhase::AskingHeight, TrackerEvent::Height(height)) => {
                    &&& final(self).state == old(self).state
                    &&& final(self).last_height == old(self).last_height
                    &&& final(self).phase == phase_on_height(
                        TrackerPhase::AskingHeight,
                        old(self).last_height,
                        height,
                    )
                    &&& step.entry is None
                },
                (TrackerPhase::Idle, TrackerEvent::Tick) => {
                    &&& final(self).state == old(self).state
                    &&& final(self).last_height == old(self).last_height
                    &&& final(self).phase == TrackerPhase::AskingHeight
                    &&& step.entry is None
                },
                _ => {
                    &&& final(self).state == old(self).state
                    &&& final(self).last_height == old(self).last_height
                    &&& final(self).phase == old(self).phase
                    &&& step.entry is None
                },
            },
    {
        let mut entry: Option<LogEntry> = None;
        match (self.phase, event) {
            (TrackerPhase::Refreshing { height }, TrackerEvent::Refreshed(fresh)) => {
                entry = self.state.update_state(fresh, self.target.as_str());
                self.last_height = height;
                self.phase = TrackerPhase::Idle;
            },
            (TrackerPhase::AwaitingBaseline, TrackerEvent::Height(height)) => {
                self.last_height = height;
                self.phase = TrackerPhase::AskingHeight;
            },
            (TrackerPhase::AskingHeight, TrackerEvent::Height(height)) => {
                if height > self.last_height {
                    self.phase = TrackerPhase::Refreshing { height };
                } else {
                    self.phase = TrackerPhase::Idle;
                }
            },
            (TrackerPhase::Idle, TrackerEvent::Tick) => {
                self.phase = TrackerPhase::AskingHeight;
            },
            _ => {},
        }
        let action = match self.phase {
            TrackerPhase::AwaitingBaseline => TrackerAction::QueryHeight,
            TrackerPhase::AskingHeight => TrackerAction::QueryHeight,
            TrackerPhase::Refreshing { .. } => TrackerAction::Refresh,
            TrackerPhase::Idle => TrackerAction::Sleep { seconds: self.log_interval },
        };
        TrackerStep { action, entry }
    }
}

} // verus!
