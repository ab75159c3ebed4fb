//! Following one packet across a channel: its receipt on the destination
//! chain, then the acknowledgement back on the source chain.
//!
//! The queries themselves are the caller's to run. Each step takes what the
//! last query gave and says what to do next.

use crate::ack::{acknowledgment_message, decode_acknowledgment};
use crate::error::{DaemonError, DaemonErrorView};
use crate::interchain_channel::{
    expect_single_match, single_match, tx_views, InterchainChannel, InterchainChannelView,
    PortView, TxId, TxIdView, TxQuery, TxQueryView,
};
use crate::tx_resp::{
    event_views, events_named, first_attribute_value, CosmTxResponse, EventView, TxResponseView,
};
use vstd::prelude::*;

verus! {

/// What the receipt of a packet tells: the packet as the destination chain
/// recorded it, and the acknowledgement that it wrote.
#[derive(Debug, PartialEq, Eq)]
pub struct ReceivedPacket {
    pub tx_hash: String,
    pub sequence: String,
    pub data: String,
    /// The acknowledgement as written.
    pub acknowledgment: String,
    /// The acknowledgement as it reads: decoded where it follows the usual
    /// envelope.
    pub decoded_ack: String,
}

/// Where the following of a packet stands.
#[derive(Debug, PartialEq, Eq)]
pub enum FollowState {
    /// Nothing was asked yet.
    Start,
    /// The query for the receipt is out.
    AwaitingReceive,
    /// The receipt is confirmed and the query for the acknowledgement is out.
    AwaitingAck(ReceivedPacket),
    /// The packet was followed to its end, or following it failed.
    Finished,
}

/// What happened since the last step.
#[derive(Debug, PartialEq, Eq)]
pub enum FollowEvent {
    /// The caller starts.
    Begin,
    /// The query answered with these transactions.
    Found(Vec<CosmTxResponse>),
    /// The query itself failed.
    QueryFailed(String),
}

/// What the caller is to do next.
#[derive(Debug, PartialEq, Eq)]
pub enum FollowAction {
    /// Run this query and come back with its answer.
    Query(TxQuery),
    /// The packet was received and acknowledged: the two transactions.
    Done(Vec<TxId>),
    /// Following the packet failed.
    Fail(DaemonError),
}

pub struct ReceivedPacketView {
    pub tx_hash: Seq<char>,
    pub sequence: Seq<char>,
    pub data: Seq<char>,
    pub acknowledgment: Seq<char>,
    pub decoded_ack: Seq<char>,
}

pub enum FollowStateView {
    Start,
    AwaitingReceive,
    AwaitingAck(ReceivedPacketView),
    Finished,
}

pub enum FollowEventView {
    Begin,
    Found(Seq<TxResponseView>),
    QueryFailed(Seq<char>),
}

pub enum FollowActionView {
    Query(TxQueryView),
    Done(Seq<TxIdView>),
    Fail(DaemonErrorView),
}

impl View for ReceivedPacket {
    type V = ReceivedPacketView;

    open spec fn view(&self) -> ReceivedPacketView {
        ReceivedPacketView {
            tx_hash: self.tx_hash@,
            sequence: self.sequence@,
            data: self.data@,
            acknowledgment: self.acknowledgment@,
            decoded_ack: self.decoded_ack@,
        }
    }
}

impl View for FollowState {
    type V = FollowStateView;

    open spec fn view(&self) -> FollowStateView {
        match self {
            FollowState::Start => FollowStateView::Start,
            FollowState::AwaitingReceive => FollowStateView::AwaitingReceive,
            FollowState::AwaitingAck(p) => FollowStateView::AwaitingAck(p@),
            FollowState::Finished => FollowStateView::Finished,
        }
    }
}

impl View for FollowEvent {
    type V = FollowEventView;

    open spec fn view(&self) -> FollowEventView {
        match self {
            FollowEvent::Begin => FollowEventView::Begin,
            FollowEvent::Found(txs) => FollowEventView::Found(tx_views(txs@)),
            FollowEvent::QueryFailed(m) => FollowEventView::QueryFailed(m@),
        }
    }
}

impl View for FollowAction {
    type V = FollowActionView;

    open spec fn view(&self) -> FollowActionView {
        match self {
            FollowAction::Query(q) => FollowActionView::Query(q@),
            FollowAction::Done(txs) => FollowActionView::Done(txs@.map_values(|t: TxId| t@)),
            FollowAction::Fail(e) => FollowActionView::Fail(e@),
        }
    }
}

/// The reason that a failed transaction is reported with.
pub open spec fn raw_log_reason(chain_id: Seq<char>, raw_log: Seq<char>) -> Seq<char> {
    "Raw log on "@ + chain_id + " : "@ + raw_log
}

/// A transaction passes where its status code is zero, and fails with its
/// code and raw log where it is not.
pub open spec fn checked_status(tx: TxResponseView, chain_id: Seq<char>) -> Result<
    TxResponseView,
    DaemonErrorView,
> {
    if tx.code != 0 {
        Err(DaemonErrorView::TxFailed { code: tx.code, reason: raw_log_reason(chain_id, tx.raw_log) })
    } else {
        Ok(tx)
    }
}

/// The message for a receipt that wrote no acknowledgement.
pub open spec fn missing_ack_event_message() -> Seq<char> {
    "The transaction that received the packet holds no write_acknowledgement event"@
}

/// The message for an acknowledgement event that lacks an attribute.
pub open spec fn missing_ack_attribute_message() -> Seq<char> {
    "The write_acknowledgement event lacks the packet's sequence, data or acknowledgement"@
}

/// The message for an event that does not answer what was asked.
pub open spec fn unexpected_event_message() -> Seq<char> {
    "The event does not answer what the last step asked for"@
}

/// The first event of a transaction that records a written acknowledgement.
pub open spec fn write_ack_event(tx: TxResponseView) -> Option<EventView> {
    let events = events_named(tx.events, "write_acknowledgement"@);
    if events.len() > 0 {
        Some(events[0])
    } else {
        None
    }
}

/// What the receipt of a packet tells, read from the first occurrence of each
/// attribute of its `write_acknowledgement` event.
pub open spec fn received_packet(tx: TxResponseView) -> Result<ReceivedPacketView, DaemonErrorView> {
    match write_ack_event(tx) {
        None => Err(DaemonErrorView::IbcError(missing_ack_event_message())),
        Some(event) => {
            let sequence = first_attribute_value(event.attributes, "packet_sequence"@);
            let data = first_attribute_value(event.attributes, "packet_data"@);
            let ack = first_attribute_value(event.attributes, "packet_ack"@);
            if sequence is Some && data is Some && ack is Some {
                Ok(
                    ReceivedPacketView {
                        tx_hash: tx.txhash,
                        sequence: sequence->0,
                        data: data->0,
                        acknowledgment: ack->0,
                        decoded_ack: acknowledgment_message(ack->0),
                    },
                )
            } else {
                Err(DaemonErrorView::IbcError(missing_ack_attribute_message()))
            }
        },
    }
}

/// The receipt leg: exactly one transaction, with a zero status code, that
/// wrote an acknowledgement.
pub open spec fn receive_leg(found: Seq<TxResponseView>, dst: PortView) -> Result<
    ReceivedPacketView,
    DaemonErrorView,
> {
    match single_match(found) {
        Err(e) => Err(e),
        Ok(tx) => match checked_status(tx, dst.chain_id) {
            Err(e) => Err(e),
            Ok(tx) => received_packet(tx),
        },
    }
}

/// The acknowledgement leg: exactly one transaction, with a zero status code.
pub open spec fn ack_leg(found: Seq<TxResponseView>, src: PortView) -> Result<
    TxResponseView,
    DaemonErrorView,
> {
    match single_match(found) {
        Err(e) => Err(e),
        Ok(tx) => checked_status(tx, src.chain_id),
    }
}

/// The two transactions of a followed packet: the receipt on the destination
/// chain, then the acknowledgement on the source chain.
pub open spec fn followed_txs(
    src: PortView,
    dst: PortView,
    received: ReceivedPacketView,
    ack: TxResponseView,
) -> Seq<TxIdView> {
    seq![
        TxIdView { chain_id: dst.chain_id, address: dst.address, tx_hash: received.tx_hash },
        TxIdView { chain_id: src.chain_id, address: src.address, tx_hash: ack.txhash },
    ]
}

/// One step of following packet `sequence` sent from `from`.
///
/// A pair that does not know `from`, or with an end that has no channel
/// bound, fails at once, before any query. Otherwise the receipt is asked
/// for, then the acknowledgement; each must match exactly one transaction,
/// and that one must carry a zero status code. Nothing is asked twice.
pub open spec fn follow_step(
    pair: InterchainChannelView,
    from: Seq<char>,
    sequence: Seq<char>,
    state: FollowStateView,
    event: FollowEventView,
) -> (FollowStateView, FollowActionView) {
    let receive_query = pair.receive_query(from, sequence);
    let ack_query = pair.ack_query(from, sequence);
    if receive_query is Err {
        (FollowStateView::Finished, FollowActionView::Fail(receive_query->Err_0))
    } else if ack_query is Err {
        (FollowStateView::Finished, FollowActionView::Fail(ack_query->Err_0))
    } else {
        let src = pair.end_on(from)->0;
        let dst = pair.end_across(from)->0;
        match (state, event) {
            (FollowStateView::Start, FollowEventView::Begin) => (
                FollowStateView::AwaitingReceive,
                FollowActionView::Query(receive_query->Ok_0),
            ),
            (FollowStateView::AwaitingReceive, FollowEventView::Found(found)) => match receive_leg(
                found,
                dst,
            ) {
                Err(e) => (FollowStateView::Finished, FollowActionView::Fail(e)),
                Ok(received) => (
                    FollowStateView::AwaitingAck(received),
                    FollowActionView::Query(ack_query->Ok_0),
                ),
            },
            (FollowStateView::AwaitingAck(received), FollowEventView::Found(found)) => match ack_leg(
                found,
                src,
            ) {
                Err(e) => (FollowStateView::Finished, FollowActionView::Fail(e)),
                Ok(ack) => (
                    FollowStateView::Finished,
                    FollowActionView::Done(followed_txs(src, dst, received, ack)),
                ),
            },
            (FollowStateView::AwaitingReceive, FollowEventView::QueryFailed(m)) => (
                FollowStateView::Finished,
                FollowActionView::Fail(DaemonErrorView::QueryFailed(m)),
            ),
            (FollowStateView::AwaitingAck(_), FollowEventView::QueryFailed(m)) => (
                FollowStateView::Finished,
                FollowActionView::Fail(DaemonErrorView::QueryFailed(m)),
            ),
            _ => (
                FollowStateView::Finished,
                FollowActionView::Fail(DaemonErrorView::IbcError(unexpected_event_message())),
            ),
        }
    }
}

/// Checks the status code of a transaction found on `chain_id`.
pub fn check_status(tx: CosmTxResponse, chain_id: &str) -> (r: Result<CosmTxResponse, DaemonError>)
    ensures
        match r {
            Ok(t) => checked_status(tx@, chain_id@) == Ok::<TxResponseView, DaemonErrorView>(t@),
            Err(e) => checked_status(tx@, chain_id@) == Err::<TxResponseView, DaemonErrorView>(e@),
        },
{
    if tx.code != 0 {
        let mut reason = String::from_str("Raw log on ");
        reason.append(chain_id);
        reason.append(" : ");
        reason.append(tx.raw_log.as_str());
        Err(DaemonError::TxFailed { code: tx.code, reason })
    } else {
        Ok(tx)
    }
}

/// Reads what the receipt of a packet tells from the transaction that
/// received it.
pub fn read_received_packet(tx: &CosmTxResponse) -> (r: Result<ReceivedPacket, DaemonError>)
    ensures
        match r {
            Ok(p) => received_packet(tx@) == Ok::<ReceivedPacketView, DaemonErrorView>(p@),
            Err(e) => received_packet(tx@) == Err::<ReceivedPacketView, DaemonErrorView>(e@),
        },
{
    let events = tx.get_events("write_acknowledgement");
    if events.len() == 0 {
        return Err(
            DaemonError::ibc_err(
                "The transaction that received the packet holds no write_acknowledgement event".to_owned(),
            ),
        );
    }
    let event = &events[0];
    assert(event_views(events@)[0] == event@);
    let sequence = event.get_first_attribute_value("packet_sequence");
    let data = event.get_first_attribute_value("packet_data");
    let ack = event.get_first_attribute_value("packet_ack");
    match (sequence, data, ack) {
        (Some(sequence), Some(data), Some(acknowledgment)) => {
            let decoded_ack = decode_acknowledgment(acknowledgment.as_str());
            Ok(
                ReceivedPacket {
                    tx_hash: tx.txhash.clone(),
                    sequence,
                    data,
                    acknowledgment,
                    decoded_ack,
                },
            )
        },
        _ => Err(
            DaemonError::ibc_err(
                "The write_acknowledgement event lacks the packet's sequence, data or acknowledgement".to_owned(),
            ),
        ),
    }
}

fn unexpected_event() -> (r: (FollowState, FollowAction))
    ensures
        r.0@ == FollowStateView::Finished,
        r.1@ == FollowActionView::Fail(DaemonErrorView::IbcError(unexpected_event_message())),
{
    (
        FollowState::Finished,
        FollowAction::Fail(
            DaemonError::ibc_err(
                "The event does not answer what the last step asked for".to_owned(),
            ),
        ),
    )
}

impl InterchainChannel {
    /// One step of following packet `sequence` sent from `from`: takes where
    /// the following stands and what happened since, and gives where it stands
    /// now and what the caller is to do.
    ///
    /// The caller starts with [`FollowState::Start`] and [`FollowEvent::Begin`],
    /// runs each query that it is handed, and comes back with the answer until
    /// it is handed [`FollowAction::Done`] or [`FollowAction::Fail`].
    pub fn follow_packet(
        &self,
        from: String,
        sequence: String,
        state: FollowState,
        event: FollowEvent,
    ) -> (r: (FollowState, FollowAction))
        ensures
            (r.0@, r.1@) == follow_step(self@, from@, sequence@, state@, event@),
    {
        let receive_query = match self.packet_receive_query(from.clone(), sequence.clone()) {
            Ok(q) => q,
            Err(e) => { return (FollowState::Finished, FollowAction::Fail(e)); },
        };
        let ack_query = match self.packet_ack_receive_query(from.clone(), sequence.clone()) {
            Ok(q) => q,
            Err(e) => { return (FollowState::Finished, FollowAction::Fail(e)); },
        };
        let (src, dst) = match self.get_ordered_ports_from(from) {
            Ok(pair) => pair,
            Err(e) => { return (FollowState::Finished, FollowAction::Fail(e)); },
        };
        match (state, event) {
            (FollowState::Start, FollowEvent::Begin) => (
                FollowState::AwaitingReceive,
                FollowAction::Query(receive_query),
            ),
            (FollowState::AwaitingReceive, FollowEvent::Found(found)) => {
                let tx = match expect_single_match(&found) {
                    Ok(tx) => tx,
                    Err(e) => { return (FollowState::Finished, FollowAction::Fail(e)); },
                };
                let tx = match check_status(tx, dst.chain_id.as_str()) {
                    Ok(tx) => tx,
                    Err(e) => { return (FollowState::Finished, FollowAction::Fail(e)); },
                };
                match read_received_packet(&tx) {
                    Ok(received) => (
                        FollowState::AwaitingAck(received),
                        FollowAction::Query(ack_query),
                    ),
                    Err(e) => (FollowState::Finished, FollowAction::Fail(e)),
                }
            },
            (FollowState::AwaitingAck(received), FollowEvent::Found(found)) => {
                let tx = match expect_single_match(&found) {
                    Ok(tx) => tx,
                    Err(e) => { return (FollowState::Finished, FollowAction::Fail(e)); },
                };
                let ack = match check_status(tx, src.chain_id.as_str()) {
                    Ok(tx) => tx,
                    Err(e) => { return (FollowState::Finished, FollowAction::Fail(e)); },
                };
                let mut txs: Vec<TxId> = Vec::new();
                let first = TxId {
                    chain_id: dst.chain_id,
                    channel: dst.chain,
                    tx_hash: received.tx_hash,
                };
                let second = TxId { chain_id: src.chain_id, channel: src.chain, tx_hash: ack.txhash };
                txs.push(first);
                txs.push(second);
                assert(txs@.map_values(|t: TxId| t@) =~= seq![first@, second@]);
                (FollowState::Finished, FollowAction::Done(txs))
            },
            (FollowState::AwaitingReceive, FollowEvent::QueryFailed(m)) => (
                FollowState::Finished,
                FollowAction::Fail(DaemonError::QueryFailed(m)),
            ),
            (FollowState::AwaitingAck(_), FollowEvent::QueryFailed(m)) => (
                FollowState::Finished,
                FollowAction::Fail(DaemonError::QueryFailed(m)),
            ),
            _ => unexpected_event(),
        }
    }
}

/// A packet that is followed to its end was received and acknowledged by
/// exactly one transaction each, both with a zero status code: the result
/// names these two, the receipt on the destination chain first, and the
/// acknowledgement that the receipt wrote reads as its envelope says.
pub proof fn lemma_followed_packet_round_trip(
    pair: InterchainChannelView,
    from: Seq<char>,
    sequence: Seq<char>,
    received: Seq<TxResponseView>,
    acknowledged: Seq<TxResponseView>,
)
    requires
        ({
            let first = follow_step(pair, from, sequence, FollowStateView::Start, FollowEventView::Begin);
            let second = follow_step(pair, from, sequence, first.0, FollowEventView::Found(received));
            let third = follow_step(pair, from, sequence, second.0, FollowEventView::Found(acknowledged));
            third.1 is Done
        }),
    ensures
        ({
            let first = follow_step(pair, from, sequence, FollowStateView::Start, FollowEventView::Begin);
            let second = follow_step(pair, from, sequence, first.0, FollowEventView::Found(received));
            let third = follow_step(pair, from, sequence, second.0, FollowEventView::Found(acknowledged));
            let txs = third.1->Done_0;
            let src = pair.end_on(from)->0;
            let dst = pair.end_across(from)->0;
            &&& first.1 == FollowActionView::Query(pair.receive_query(from, sequence)->Ok_0)
            &&& second.1 == FollowActionView::Query(pair.ack_query(from, sequence)->Ok_0)
            &&& received.len() == 1 && received[0].code == 0
            &&& acknowledged.len() == 1 && acknowledged[0].code == 0
            &&& txs.len() == 2
            &&& txs[0].chain_id == dst.chain_id && txs[0].tx_hash == received[0].txhash
            &&& txs[1].chain_id == src.chain_id && txs[1].tx_hash == acknowledged[0].txhash
            &&& second.0 is AwaitingAck
            &&& second.0->AwaitingAck_0.decoded_ack == acknowledgment_message(
                second.0->AwaitingAck_0.acknowledgment,
            )
        }),
{
}

/// Following never asks for the acknowledgement before the receipt is
/// confirmed: the query for it is only handed out on the receipt of exactly
/// one transaction with a zero status code.
pub proof fn lemma_ack_asked_after_receipt(
    pair: InterchainChannelView,
    from: Seq<char>,
    sequence: Seq<char>,
    state: FollowStateView,
    event: FollowEventView,
)
    requires
        pair.wf(),
        follow_step(pair, from, sequence, state, event).0 is AwaitingAck,
    ensures
        state is AwaitingReceive,
        event is Found,
        event->Found_0.len() == 1,
        event->Found_0[0].code == 0,
        follow_step(pair, from, sequence, state, event).1 == FollowActionView::Query(
            pair.ack_query(from, sequence)->Ok_0,
        ),
{
}

} // verus!
