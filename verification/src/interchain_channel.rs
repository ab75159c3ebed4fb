//! The two ends of a cross-chain channel: which of them a packet leaves from,
//! and the event queries that find the transactions of a packet or of the
//! channel's own handshake.

use crate::error::{DaemonError, DaemonErrorView};
use crate::text::{clone_opt, opt_text, texts, three};
use crate::tx_resp::{CosmTxResponse, TxResponseView};
use vstd::prelude::*;

verus! {

/// Where the node of a chain is reached: enough to route a query to it.
#[derive(Debug, PartialEq, Eq)]
pub struct GrpcChannel {
    pub address: String,
}

/// A transaction on one chain, by its hash.
#[derive(Debug, PartialEq, Eq)]
pub struct TxId {
    pub chain_id: String,
    pub channel: GrpcChannel,
    pub tx_hash: String,
}

/// One side of a cross-chain channel.
#[derive(Debug, PartialEq, Eq)]
pub struct InterchainPort {
    pub chain: GrpcChannel,
    pub chain_id: String,
    pub port: String,
    /// Bound once the handshake has completed.
    pub channel: Option<String>,
}

/// Two ports and the connection that links them.
#[derive(Debug, PartialEq, Eq)]
pub struct InterchainChannel {
    connection_id: String,
    port_a: InterchainPort,
    port_b: InterchainPort,
}

/// The order in which an event query returns its matches, by height.
#[derive(Clone, Copy, PartialEq, Eq, Structural, Debug)]
pub enum OrderBy {
    Asc,
    Desc,
}

/// An event query against one chain: the transactions that match every
/// filter.
#[derive(Debug, PartialEq, Eq)]
pub struct TxQuery {
    pub chain_id: String,
    pub channel: GrpcChannel,
    /// Filters of the form `key='value'`, all of which must match.
    pub events: Vec<String>,
    pub order_by: Option<OrderBy>,
}

pub struct TxIdView {
    pub chain_id: Seq<char>,
    pub address: Seq<char>,
    pub tx_hash: Seq<char>,
}

pub struct PortView {
    pub address: Seq<char>,
    pub chain_id: Seq<char>,
    pub port: Seq<char>,
    pub channel: Option<Seq<char>>,
}

pub struct InterchainChannelView {
    pub connection_id: Seq<char>,
    pub port_a: PortView,
    pub port_b: PortView,
}

pub struct TxQueryView {
    pub chain_id: Seq<char>,
    pub address: Seq<char>,
    pub events: Seq<Seq<char>>,
    pub order_by: Option<OrderBy>,
}

impl View for TxId {
    type V = TxIdView;

    open spec fn view(&self) -> TxIdView {
        TxIdView { chain_id: self.chain_id@, address: self.channel.address@, tx_hash: self.tx_hash@ }
    }
}

impl View for InterchainPort {
    type V = PortView;

    open spec fn view(&self) -> PortView {
        PortView {
            address: self.chain.address@,
            chain_id: self.chain_id@,
            port: self.port@,
            channel: opt_text(self.channel),
        }
    }
}

impl View for InterchainChannel {
    type V = InterchainChannelView;

    closed spec fn view(&self) -> InterchainChannelView {
        InterchainChannelView {
            connection_id: self.connection_id@,
            port_a: self.port_a@,
            port_b: self.port_b@,
        }
    }
}

impl View for TxQuery {
    type V = TxQueryView;

    open spec fn view(&self) -> TxQueryView {
        TxQueryView {
            chain_id: self.chain_id@,
            address: self.channel.address@,
            events: texts(self.events@),
            order_by: self.order_by,
        }
    }
}

impl Clone for GrpcChannel {
    fn clone(&self) -> (r: Self)
        ensures
            r.address@ == self.address@,
    {
        GrpcChannel { address: self.address.clone() }
    }
}

impl Clone for TxId {
    fn clone(&self) -> (r: Self)
        ensures
            r@ == self@,
    {
        TxId {
            chain_id: self.chain_id.clone(),
            channel: self.channel.clone(),
            tx_hash: self.tx_hash.clone(),
        }
    }
}

impl Clone for InterchainPort {
    fn clone(&self) -> (r: Self)
        ensures
            r@ == self@,
    {
        InterchainPort {
            chain: self.chain.clone(),
            chain_id: self.chain_id.clone(),
            port: self.port.clone(),
            channel: clone_opt(&self.channel),
        }
    }
}

/// How a port reads in a message: its chain and its port name.
pub open spec fn port_label(port: PortView) -> Seq<char> {
    port.chain_id + ":"@ + port.port
}

/// The message for a chain that is neither end of the pair.
pub open spec fn unknown_chain_message(chain_id: Seq<char>, pair: Seq<char>) -> Seq<char> {
    "chain "@ + chain_id + ", doesn't exist in the InterchainChannel object "@ + pair
}

/// The message for an end that has no channel bound.
pub open spec fn no_channel_message(pair: InterchainChannelView) -> Seq<char> {
    "No channel registered between "@ + port_label(pair.port_a) + " and "@ + port_label(
        pair.port_b,
    ) + " on connection "@ + pair.connection_id
}

/// The message for a query that matched more than one transaction.
pub open spec fn ambiguous_match_message() -> Seq<char> {
    "Found multiple transactions matching a send packet event, this is impossible (or cw-orch impl is at fault)"@
}

/// The filter that matches transactions with the attribute `key` at `value`.
pub open spec fn event_filter(key: Seq<char>, value: Seq<char>) -> Seq<char> {
    key + "='"@ + value + "'"@
}

/// The channel that a port is bound to: none where it is absent or empty.
pub open spec fn bound_channel(port: PortView) -> Option<Seq<char>> {
    match port.channel {
        Some(c) => if c.len() > 0 {
            Some(c)
        } else {
            None
        },
        None => None,
    }
}

impl InterchainChannelView {
    /// The two ends are on different chains, so a chain identifier names at
    /// most one of them.
    pub open spec fn wf(self) -> bool {
        self.port_a.chain_id != self.port_b.chain_id
    }

    /// How the pair reads in a message.
    pub open spec fn label(self) -> Seq<char> {
        "connection "@ + self.connection_id + " between "@ + port_label(self.port_a) + " and "@
            + port_label(self.port_b)
    }

    /// The ports ordered by the chain that sends: source first. The first
    /// end wins where both are on `from`.
    pub open spec fn ordered_ports(self, from: Seq<char>) -> Option<(PortView, PortView)> {
        if from == self.port_a.chain_id {
            Some((self.port_a, self.port_b))
        } else if from == self.port_b.chain_id {
            Some((self.port_b, self.port_a))
        } else {
            None
        }
    }

    /// The end that lives on `chain_id`: the source of the ordered pair.
    pub open spec fn end_on(self, chain_id: Seq<char>) -> Option<PortView> {
        match self.ordered_ports(chain_id) {
            Some(pair) => Some(pair.0),
            None => None,
        }
    }

    /// The end across from the one on `chain_id`: the destination of the
    /// ordered pair.
    pub open spec fn end_across(self, chain_id: Seq<char>) -> Option<PortView> {
        match self.ordered_ports(chain_id) {
            Some(pair) => Some(pair.1),
            None => None,
        }
    }

    /// The failure of resolving `from`, where it names neither end.
    pub open spec fn unknown_chain(self, from: Seq<char>) -> DaemonErrorView {
        DaemonErrorView::IbcError(unknown_chain_message(from, self.label()))
    }

    /// The failure of a pair with an end that has no channel bound.
    pub open spec fn no_channel(self) -> DaemonErrorView {
        DaemonErrorView::IbcError(no_channel_message(self))
    }

    /// The query for the transaction that sent packet `sequence` from
    /// `from`: asked of the source chain, by the packet's destination.
    pub open spec fn send_query(self, from: Seq<char>, sequence: Seq<char>) -> Result<
        TxQueryView,
        DaemonErrorView,
    > {
        match self.ordered_ports(from) {
            None => Err(self.unknown_chain(from)),
            Some((src, dst)) => match bound_channel(dst) {
                None => Err(self.no_channel()),
                Some(channel) => Ok(
                    TxQueryView {
                        chain_id: src.chain_id,
                        address: src.address,
                        events: seq![
                            event_filter("send_packet.packet_dst_port"@, dst.port),
                            event_filter("send_packet.packet_dst_channel"@, channel),
                            event_filter("send_packet.packet_sequence"@, sequence),
                        ],
                        order_by: None,
                    },
                ),
            },
        }
    }

    /// The query for the transaction that received packet `sequence` sent
    /// from `from`: asked of the destination chain, by the packet's
    /// destination.
    pub open spec fn receive_query(self, from: Seq<char>, sequence: Seq<char>) -> Result<
        TxQueryView,
        DaemonErrorView,
    > {
        match self.ordered_ports(from) {
            None => Err(self.unknown_chain(from)),
            Some((src, dst)) => match bound_channel(dst) {
                None => Err(self.no_channel()),
                Some(channel) => Ok(
                    TxQueryView {
                        chain_id: dst.chain_id,
                        address: dst.address,
                        events: seq![
                            event_filter("recv_packet.packet_dst_port"@, dst.port),
                            event_filter("recv_packet.packet_dst_channel"@, channel),
                            event_filter("recv_packet.packet_sequence"@, sequence),
                        ],
                        order_by: None,
                    },
                ),
            },
        }
    }

    /// The query for the transaction that took the acknowledgement of packet
    /// `sequence` back on `from`: asked of the source chain, by the packet's
    /// source.
    pub open spec fn ack_query(self, from: Seq<char>, sequence: Seq<char>) -> Result<
        TxQueryView,
        DaemonErrorView,
    > {
        match self.ordered_ports(from) {
            None => Err(self.unknown_chain(from)),
            Some((src, dst)) => match bound_channel(src) {
                None => Err(self.no_channel()),
                Some(channel) => Ok(
                    TxQueryView {
                        chain_id: src.chain_id,
                        address: src.address,
                        events: seq![
                            event_filter("acknowledge_packet.packet_src_port"@, src.port),
                            event_filter("acknowledge_packet.packet_src_channel"@, channel),
                            event_filter("acknowledge_packet.packet_sequence"@, sequence),
                        ],
                        order_by: None,
                    },
                ),
            },
        }
    }

    /// The query for the handshake acknowledgements of channels opened from
    /// `from` over this connection: asked of the source chain, latest first.
    pub open spec fn creation_ack_query(self, from: Seq<char>) -> Result<
        TxQueryView,
        DaemonErrorView,
    > {
        match self.ordered_ports(from) {
            None => Err(self.unknown_chain(from)),
            Some((src, dst)) => Ok(
                TxQueryView {
                    chain_id: src.chain_id,
                    address: src.address,
                    events: seq![
                        event_filter("channel_open_ack.port_id"@, src.port),
                        event_filter("channel_open_ack.counterparty_port_id"@, dst.port),
                        event_filter("channel_open_ack.connection_id"@, self.connection_id),
                    ],
                    order_by: Some(OrderBy::Desc),
                },
            ),
        }
    }

    /// The query for the handshake confirmations of channels opened from
    /// `from`: asked of the destination chain, latest first.
    pub open spec fn creation_confirm_query(self, from: Seq<char>) -> Result<
        TxQueryView,
        DaemonErrorView,
    > {
        match self.ordered_ports(from) {
            None => Err(self.unknown_chain(from)),
            Some((src, dst)) => Ok(
                TxQueryView {
                    chain_id: dst.chain_id,
                    address: dst.address,
                    events: seq![
                        event_filter("channel_open_confirm.port_id"@, dst.port),
                        event_filter("channel_open_confirm.counterparty_port_id"@, src.port),
                    ],
                    order_by: Some(OrderBy::Desc),
                },
            ),
        }
    }
}

/// What a query that must match exactly one transaction gives: that
/// transaction, nothing yet where none matched, and a protocol failure where
/// several did.
pub open spec fn single_match(found: Seq<TxResponseView>) -> Result<TxResponseView, DaemonErrorView> {
    if found.len() == 0 {
        Err(DaemonErrorView::NoResultYet)
    } else if found.len() == 1 {
        Ok(found[0])
    } else {
        Err(DaemonErrorView::IbcError(ambiguous_match_message()))
    }
}

/// The views of a list of transactions.
pub open spec fn tx_views(found: Seq<CosmTxResponse>) -> Seq<TxResponseView> {
    found.map_values(|tx: CosmTxResponse| tx@)
}

/// The one transaction of `found`.
pub fn expect_single_match(found: &Vec<CosmTxResponse>) -> (r: Result<CosmTxResponse, DaemonError>)
    ensures
        match r {
            Ok(tx) => single_match(tx_views(found@)) == Ok::<TxResponseView, DaemonErrorView>(tx@),
            Err(e) => single_match(tx_views(found@)) == Err::<TxResponseView, DaemonErrorView>(e@),
        },
{
    if found.len() == 0 {
        Err(DaemonError::NoResultYet)
    } else if found.len() == 1 {
        Ok(found[0].clone())
    } else {
        Err(
            DaemonError::ibc_err(
                "Found multiple transactions matching a send packet event, this is impossible (or cw-orch impl is at fault)".to_owned(),
            ),
        )
    }
}

/// The filter that matches transactions with the attribute `key` at `value`.
pub fn make_event_filter(key: &str, value: &str) -> (r: String)
    ensures
        r@ == event_filter(key@, value@),
{
    let mut s = key.to_owned();
    s.append("='");
    s.append(value);
    s.append("'");
    s
}

/// The channel that a port is bound to.
pub fn get_bound_channel(port: &InterchainPort) -> (r: Option<String>)
    ensures
        opt_text(r) == bound_channel(port@),
{
    match &port.channel {
        Some(c) => {
            if c.as_str().unicode_len() > 0 {
                Some(c.clone())
            } else {
                None
            }
        },
        None => None,
    }
}

fn describe_port(port: &InterchainPort) -> (r: String)
    ensures
        r@ == port_label(port@),
{
    let mut s = port.chain_id.clone();
    s.append(":");
    s.append(port.port.as_str());
    s
}

/// Whether a result and its model agree.
pub open spec fn query_matches(r: Result<TxQuery, DaemonError>, model: Result<TxQueryView, DaemonErrorView>) -> bool {
    match r {
        Ok(q) => model == Ok::<TxQueryView, DaemonErrorView>(q@),
        Err(e) => model == Err::<TxQueryView, DaemonErrorView>(e@),
    }
}

/// Whether a transaction result and its model agree.
pub open spec fn tx_matches(r: Result<CosmTxResponse, DaemonError>, model: Result<TxResponseView, DaemonErrorView>) -> bool {
    match r {
        Ok(tx) => model == Ok::<TxResponseView, DaemonErrorView>(tx@),
        Err(e) => model == Err::<TxResponseView, DaemonErrorView>(e@),
    }
}

/// What the lookup of a packet's transaction gives once its query has
/// answered: the query's own failure where the pair does not allow it, else
/// the single match.
pub open spec fn packet_tx(query: Result<TxQueryView, DaemonErrorView>, found: Seq<TxResponseView>) -> Result<
    TxResponseView,
    DaemonErrorView,
> {
    match query {
        Err(e) => Err(e),
        Ok(_) => single_match(found),
    }
}

impl InterchainChannel {
    pub fn new(connection_id: String, port_a: InterchainPort, port_b: InterchainPort) -> (r: Self)
        ensures
            r@ == (InterchainChannelView {
                connection_id: connection_id@,
                port_a: port_a@,
                port_b: port_b@,
            }),
    {
        Self { connection_id, port_a, port_b }
    }

    pub fn get_connection(&self) -> (r: String)
        ensures
            r@ == self@.connection_id,
    {
        self.connection_id.clone()
    }

    /// Whether the two ends are on different chains.
    pub fn has_distinct_chains(&self) -> (r: bool)
        ensures
            r == self@.wf(),
    {
        !(self.port_a.chain_id == self.port_b.chain_id)
    }

    fn describe(&self) -> (r: String)
        ensures
            r@ == self@.label(),
    {
        let mut s = String::from_str("connection ");
        s.append(self.connection_id.as_str());
        s.append(" between ");
        let a = describe_port(&self.port_a);
        s.append(a.as_str());
        s.append(" and ");
        let b = describe_port(&self.port_b);
        s.append(b.as_str());
        s
    }

    fn unknown_chain(&self, chain_id: &String) -> (e: DaemonError)
        ensures
            e@ == self@.unknown_chain(chain_id@),
    {
        let mut s = String::from_str("chain ");
        s.append(chain_id.as_str());
        s.append(", doesn't exist in the InterchainChannel object ");
        let d = self.describe();
        s.append(d.as_str());
        DaemonError::ibc_err(s)
    }

    fn no_channel(&self) -> (e: DaemonError)
        ensures
            e@ == self@.no_channel(),
    {
        let mut s = String::from_str("No channel registered between ");
        let a = describe_port(&self.port_a);
        s.append(a.as_str());
        s.append(" and ");
        let b = describe_port(&self.port_b);
        s.append(b.as_str());
        s.append(" on connection ");
        s.append(self.connection_id.as_str());
        DaemonError::ibc_err(s)
    }

    /// The end that lives on `chain_id`; the first end wins where both do.
    pub fn get_chain(&self, chain_id: String) -> (r: Result<InterchainPort, DaemonError>)
        ensures
            match r {
                Ok(port) => self@.end_on(chain_id@) == Some(port@),
                Err(e) => self@.end_on(chain_id@) is None && e@ == self@.unknown_chain(chain_id@),
            },
    {
        if chain_id == self.port_a.chain_id {
            Ok(self.port_a.clone())
        } else if chain_id == self.port_b.chain_id {
            Ok(self.port_b.clone())
        } else {
            Err(self.unknown_chain(&chain_id))
        }
    }

    /// Source and destination for a packet that leaves from `from`.
    pub fn get_ordered_ports_from(&self, from: String) -> (r: Result<
        (InterchainPort, InterchainPort),
        DaemonError,
    >)
        ensures
            match r {
                Ok(pair) => self@.ordered_ports(from@) == Some((pair.0@, pair.1@)),
                Err(e) => self@.ordered_ports(from@) is None && e@ == self@.unknown_chain(from@),
            },
    {
        if from == self.port_a.chain_id {
            Ok((self.port_a.clone(), self.port_b.clone()))
        } else if from == self.port_b.chain_id {
            Ok((self.port_b.clone(), self.port_a.clone()))
        } else {
            Err(self.unknown_chain(&from))
        }
    }

    /// The query that finds the transaction which sent packet
    /// `packet_sequence` from `from`.
    pub fn packet_send_query(&self, from: String, packet_sequence: String) -> (r: Result<
        TxQuery,
        DaemonError,
    >)
        ensures
            query_matches(r, self@.send_query(from@, packet_sequence@)),
    {
        let (src, dst) = match self.get_ordered_ports_from(from) {
            Ok(pair) => pair,
            Err(e) => { return Err(e); },
        };
        let channel = match get_bound_channel(&dst) {
            Some(c) => c,
            None => { return Err(self.no_channel()); },
        };
        let events = three(
            make_event_filter("send_packet.packet_dst_port", dst.port.as_str()),
            make_event_filter("send_packet.packet_dst_channel", channel.as_str()),
            make_event_filter("send_packet.packet_sequence", packet_sequence.as_str()),
        );
        Ok(TxQuery { chain_id: src.chain_id, channel: src.chain, events, order_by: None })
    }

    /// The query that finds the transaction which received packet
    /// `packet_sequence` sent from `from`.
    pub fn packet_receive_query(&self, from: String, packet_sequence: String) -> (r: Result<
        TxQuery,
        DaemonError,
    >)
        ensures
            query_matches(r, self@.receive_query(from@, packet_sequence@)),
    {
        let (_src, dst) = match self.get_ordered_ports_from(from) {
            Ok(pair) => pair,
            Err(e) => { return Err(e); },
        };
        let channel = match get_bound_channel(&dst) {
            Some(c) => c,
            None => { return Err(self.no_channel()); },
        };
        let events = three(
            make_event_filter("recv_packet.packet_dst_port", dst.port.as_str()),
            make_event_filter("recv_packet.packet_dst_channel", channel.as_str()),
            make_event_filter("recv_packet.packet_sequence", packet_sequence.as_str()),
        );
        Ok(TxQuery { chain_id: dst.chain_id, channel: dst.chain, events, order_by: None })
    }

    /// The query that finds the transaction which took the acknowledgement
    /// of packet `packet_sequence` back on `from`.
    pub fn packet_ack_receive_query(&self, from: String, packet_sequence: String) -> (r: Result<
        TxQuery,
        DaemonError,
    >)
        ensures
            query_matches(r, self@.ack_query(from@, packet_sequence@)),
    {
        let (src, _dst) = match self.get_ordered_ports_from(from) {
            Ok(pair) => pair,
            Err(e) => { return Err(e); },
        };
        let channel = match get_bound_channel(&src) {
            Some(c) => c,
            None => { return Err(self.no_channel()); },
        };
        let events = three(
            make_event_filter("acknowledge_packet.packet_src_port", src.port.as_str()),
            make_event_filter("acknowledge_packet.packet_src_channel", channel.as_str()),
            make_event_filter("acknowledge_packet.packet_sequence", packet_sequence.as_str()),
        );
        Ok(TxQuery { chain_id: src.chain_id, channel: src.chain, events, order_by: None })
    }

    /// The transaction that sent packet `packet_sequence` from `from`, given
    /// what [`Self::packet_send_query`] matched.
    pub fn get_packet_send_tx(
        &self,
        from: String,
        packet_sequence: String,
        found: &Vec<CosmTxResponse>,
    ) -> (r: Result<CosmTxResponse, DaemonError>)
        ensures
            tx_matches(r, packet_tx(self@.send_query(from@, packet_sequence@), tx_views(found@))),
    {
        match self.packet_send_query(from, packet_sequence) {
            Err(e) => Err(e),
            Ok(_) => expect_single_match(found),
        }
    }

    /// The transaction that received packet `packet_sequence` sent from
    /// `from`, given what [`Self::packet_receive_query`] matched.
    pub fn get_packet_receive_tx(
        &self,
        from: String,
        packet_sequence: String,
        found: &Vec<CosmTxResponse>,
    ) -> (r: Result<CosmTxResponse, DaemonError>)
        ensures
            tx_matches(
                r,
                packet_tx(self@.receive_query(from@, packet_sequence@), tx_views(found@)),
            ),
    {
        match self.packet_receive_query(from, packet_sequence) {
            Err(e) => Err(e),
            Ok(_) => expect_single_match(found),
        }
    }

    /// The transaction that took the acknowledgement of packet
    /// `packet_sequence` back on `from`, given what
    /// [`Self::packet_ack_receive_query`] matched.
    pub fn get_packet_ack_receive_tx(
        &self,
        from: String,
        packet_sequence: String,
        found: &Vec<CosmTxResponse>,
    ) -> (r: Result<CosmTxResponse, DaemonError>)
        ensures
            tx_matches(r, packet_tx(self@.ack_query(from@, packet_sequence@), tx_views(found@))),
    {
        match self.packet_ack_receive_query(from, packet_sequence) {
            Err(e) => Err(e),
            Ok(_) => expect_single_match(found),
        }
    }

    /// The query for the handshake acknowledgements of the channels opened
    /// from `from` over this connection, latest first.
    pub fn get_channel_creation_ack(&self, from: String) -> (r: Result<TxQuery, DaemonError>)
        ensures
            query_matches(r, self@.creation_ack_query(from@)),
    {
        let (src, dst) = match self.get_ordered_ports_from(from) {
            Ok(pair) => pair,
            Err(e) => { return Err(e); },
        };
        let events = three(
            make_event_filter("channel_open_ack.port_id", src.port.as_str()),
            make_event_filter("channel_open_ack.counterparty_port_id", dst.port.as_str()),
            make_event_filter("channel_open_ack.connection_id", self.connection_id.as_str()),
        );
        Ok(
            TxQuery {
                chain_id: src.chain_id,
                channel: src.chain,
                events,
                order_by: Some(OrderBy::Desc),
            },
        )
    }

    /// The query for the handshake confirmations of the channels opened from
    /// `from`, latest first.
    pub fn get_channel_creation_confirm(&self, from: String) -> (r: Result<TxQuery, DaemonError>)
        ensures
            query_matches(r, self@.creation_confirm_query(from@)),
    {
        let (src, dst) = match self.get_ordered_ports_from(from) {
            Ok(pair) => pair,
            Err(e) => { return Err(e); },
        };
        let mut events: Vec<String> = Vec::new();
        let first = make_event_filter("channel_open_confirm.port_id", dst.port.as_str());
        let second = make_event_filter(
            "channel_open_confirm.counterparty_port_id",
            src.port.as_str(),
        );
        events.push(first);
        events.push(second);
        assert(texts(events@) =~= seq![first@, second@]);
        Ok(
            TxQuery {
                chain_id: dst.chain_id,
                channel: dst.chain,
                events,
                order_by: Some(OrderBy::Desc),
            },
        )
    }
}

/// Asking from one end gives the pair in one order, asking from the other end
/// gives it reversed, and no third chain gives a pair at all.
pub proof fn lemma_endpoint_resolution_symmetry(pair: InterchainChannelView, other: Seq<char>)
    requires
        pair.wf(),
    ensures
        pair.ordered_ports(pair.port_a.chain_id) == Some((pair.port_a, pair.port_b)),
        pair.ordered_ports(pair.port_b.chain_id) == Some((pair.port_b, pair.port_a)),
        other != pair.port_a.chain_id && other != pair.port_b.chain_id ==> pair.ordered_ports(
            other,
        ) is None,
{
}

} // verus!
