//! What became of a packet: it was acknowledged with a result, it was
//! acknowledged with an error, or it timed out.

use crate::ack::{ack_envelope, AckResponse, AckResponseView};
use crate::encoding::{base64_decoded, decode_base64, decode_text};
use crate::follow::{ReceivedPacket, ReceivedPacketView};
use crate::interchain_channel::{TxId, TxIdView};
use vstd::prelude::*;
use vstd::utf8::{decode_utf8, valid_utf8};

verus! {

/// What became of a packet.
#[derive(Debug, PartialEq, Eq)]
pub enum IbcPacketOutcome {
    /// The packet was received and its acknowledgement came back: the
    /// acknowledgement, decoded where it can be, and the three transactions.
    Success { ack: String, send_tx: TxId, receive_tx: TxId, ack_tx: TxId },
    /// The packet was received and acknowledged with an error.
    Error { reason: String },
    /// The packet timed out: there is no acknowledgement.
    Timeout { timeout_tx: TxId },
}

/// A packet that was followed to its acknowledgement.
#[derive(Debug, PartialEq, Eq)]
pub struct AcknowledgedPacket {
    pub received: ReceivedPacket,
    pub receive_tx: TxId,
    pub ack_tx: TxId,
}

pub enum IbcPacketOutcomeView {
    Success { ack: Seq<char>, send_tx: TxIdView, receive_tx: TxIdView, ack_tx: TxIdView },
    Error { reason: Seq<char> },
    Timeout { timeout_tx: TxIdView },
}

pub struct AcknowledgedPacketView {
    pub received: ReceivedPacketView,
    pub receive_tx: TxIdView,
    pub ack_tx: TxIdView,
}

impl View for IbcPacketOutcome {
    type V = IbcPacketOutcomeView;

    open spec fn view(&self) -> IbcPacketOutcomeView {
        match self {
            IbcPacketOutcome::Success { ack, send_tx, receive_tx, ack_tx } => {
                IbcPacketOutcomeView::Success {
                    ack: ack@,
                    send_tx: send_tx@,
                    receive_tx: receive_tx@,
                    ack_tx: ack_tx@,
                }
            },
            IbcPacketOutcome::Error { reason } => IbcPacketOutcomeView::Error { reason: reason@ },
            IbcPacketOutcome::Timeout { timeout_tx } => IbcPacketOutcomeView::Timeout {
                timeout_tx: timeout_tx@,
            },
        }
    }
}

impl View for AcknowledgedPacket {
    type V = AcknowledgedPacketView;

    open spec fn view(&self) -> AcknowledgedPacketView {
        AcknowledgedPacketView {
            received: self.received@,
            receive_tx: self.receive_tx@,
            ack_tx: self.ack_tx@,
        }
    }
}

/// What a result carries: the text that its base64 decodes to, and the
/// base64 itself where it does not decode to text.
pub open spec fn result_text(encoded: Seq<char>, decoded: Option<Seq<u8>>) -> Seq<char> {
    match decoded {
        Some(bytes) => if valid_utf8(bytes) {
            decode_utf8(bytes)
        } else {
            encoded
        },
        None => encoded,
    }
}

/// What became of a packet, given what was seen of it.
///
/// A packet that timed out has timed out, whatever else was seen. One that
/// was acknowledged failed where the acknowledgement is an error, and else
/// succeeded: with what the result carries where the acknowledgement is a
/// result, with the acknowledgement as it stands where it is neither. Of a
/// packet of which nothing was seen, nothing is known.
pub open spec fn outcome_of(
    send_tx: TxIdView,
    timeout_tx: Option<TxIdView>,
    acknowledged: Option<AcknowledgedPacketView>,
) -> Option<IbcPacketOutcomeView> {
    match timeout_tx {
        Some(tx) => Some(IbcPacketOutcomeView::Timeout { timeout_tx: tx }),
        None => match acknowledged {
            None => None,
            Some(packet) => match ack_envelope(packet.received.acknowledgment) {
                Some(AckResponseView::Error(e)) => Some(IbcPacketOutcomeView::Error { reason: e }),
                Some(AckResponseView::Result(b)) => Some(
                    IbcPacketOutcomeView::Success {
                        ack: result_text(b, base64_decoded(b)),
                        send_tx,
                        receive_tx: packet.receive_tx,
                        ack_tx: packet.ack_tx,
                    },
                ),
                None => Some(
                    IbcPacketOutcomeView::Success {
                        ack: packet.received.acknowledgment,
                        send_tx,
                        receive_tx: packet.receive_tx,
                        ack_tx: packet.ack_tx,
                    },
                ),
            },
        },
    }
}

/// What a result carries, given what its base64 decoded to.
pub fn decode_result(encoded: String, decoded: Option<Vec<u8>>) -> (r: String)
    ensures
        r@ == result_text(
            encoded@,
            match decoded {
                Some(bytes) => Some(bytes@),
                None => None,
            },
        ),
{
    match decoded {
        Some(bytes) => match decode_text(bytes) {
            Some(text) => text,
            None => encoded,
        },
        None => encoded,
    }
}

/// What became of an acknowledged packet, given the envelope that its
/// acknowledgement holds.
pub fn acknowledged_outcome(
    send_tx: TxId,
    packet: AcknowledgedPacket,
    envelope: Option<AckResponse>,
) -> (r: IbcPacketOutcome)
    ensures
        match envelope {
            Some(AckResponse::Error(e)) => r@ == (IbcPacketOutcomeView::Error { reason: e@ }),
            Some(AckResponse::Result(b)) => r@ == (IbcPacketOutcomeView::Success {
                ack: result_text(b@, base64_decoded(b@)),
                send_tx: send_tx@,
                receive_tx: packet@.receive_tx,
                ack_tx: packet@.ack_tx,
            }),
            None => r@ == (IbcPacketOutcomeView::Success {
                ack: packet@.received.acknowledgment,
                send_tx: send_tx@,
                receive_tx: packet@.receive_tx,
                ack_tx: packet@.ack_tx,
            }),
        },
{
    match envelope {
        Some(AckResponse::Error(e)) => IbcPacketOutcome::Error { reason: e },
        Some(AckResponse::Result(b)) => {
            let decoded = decode_base64(b.as_str());
            IbcPacketOutcome::Success {
                ack: decode_result(b, decoded),
                send_tx,
                receive_tx: packet.receive_tx,
                ack_tx: packet.ack_tx,
            }
        },
        None => IbcPacketOutcome::Success {
            ack: packet.received.acknowledgment,
            send_tx,
            receive_tx: packet.receive_tx,
            ack_tx: packet.ack_tx,
        },
    }
}

/// What became of a packet, given what was seen of it: the transaction that
/// timed it out, or its receipt and acknowledgement.
pub fn packet_outcome(
    send_tx: TxId,
    timeout_tx: Option<TxId>,
    acknowledged: Option<AcknowledgedPacket>,
) -> (r: Option<IbcPacketOutcome>)
    ensures
        match r {
            Some(outcome) => outcome_of(
                send_tx@,
                match timeout_tx {
                    Some(tx) => Some(tx@),
                    None => None,
                },
                match acknowledged {
                    Some(packet) => Some(packet@),
                    None => None,
                },
            ) == Some(outcome@),
            None => timeout_tx is None && acknowledged is None,
        },
        timeout_tx is Some ==> r matches Some(IbcPacketOutcome::Timeout { .. }),
{
    match timeout_tx {
        Some(tx) => Some(IbcPacketOutcome::Timeout { timeout_tx: tx }),
        None => match acknowledged {
            None => None,
            Some(packet) => {
                let envelope = AckResponse::parse(packet.received.acknowledgment.as_str());
                Some(acknowledged_outcome(send_tx, packet, envelope))
            },
        },
    }
}

/// A packet that timed out never counts as a success or as an error,
/// whatever receipt or acknowledgement is reported along with the timeout.
pub proof fn lemma_timeout_excludes_other_outcomes(
    send_tx: TxIdView,
    timeout_tx: TxIdView,
    acknowledged: Option<AcknowledgedPacketView>,
)
    ensures
        outcome_of(send_tx, Some(timeout_tx), acknowledged) == Some(
            IbcPacketOutcomeView::Timeout { timeout_tx },
        ),
{
}

} // verus!
