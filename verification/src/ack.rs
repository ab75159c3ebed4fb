//! The acknowledgement that a receiving chain writes for a packet, and how it
//! reads where it follows the usual envelope.

use crate::encoding::{base64_decoded, decode_base64, decode_text};
use crate::json::{json_document, JsonDocument, JsonDocumentView, JsonValue, JsonValueView};
use crate::text::{join, same_text};
use vstd::prelude::*;
use vstd::utf8::*;

verus! {

/// The usual envelope of an acknowledgement: a result in base64, or an error.
#[derive(Debug, PartialEq, Eq)]
pub enum AckResponse {
    Result(String),
    Error(String),
}

pub enum AckResponseView {
    Result(Seq<char>),
    Error(Seq<char>),
}

impl View for AckResponse {
    type V = AckResponseView;

    open spec fn view(&self) -> AckResponseView {
        match self {
            AckResponse::Result(b) => AckResponseView::Result(b@),
            AckResponse::Error(e) => AckResponseView::Error(e@),
        }
    }
}

/// The envelope that a document is: an object with the single member
/// `result` or `error`, whose value is a string.
pub open spec fn envelope_of(doc: JsonDocumentView) -> Option<AckResponseView> {
    match doc.value {
        JsonValueView::Object(members) => {
            if members.len() == 1 && members[0].string is Some {
                if members[0].key == "result"@ {
                    Some(AckResponseView::Result(members[0].string->0))
                } else if members[0].key == "error"@ {
                    Some(AckResponseView::Error(members[0].string->0))
                } else {
                    None
                }
            } else {
                None
            }
        },
        _ => None,
    }
}

/// The envelope that an acknowledgement text holds, if it holds one.
pub open spec fn ack_envelope(text: Seq<char>) -> Option<AckResponseView> {
    match json_document(text) {
        Some(doc) => envelope_of(doc),
        None => None,
    }
}

/// The bytes of a result: what its base64 decodes to, and nothing where it
/// does not decode.
pub open spec fn result_payload(decoded: Option<Seq<u8>>) -> Seq<u8> {
    match decoded {
        Some(bytes) => bytes,
        None => Seq::empty(),
    }
}

/// How a result reads, given what its base64 decoded to.
pub open spec fn success_message(encoded: Seq<char>, decoded: Option<Seq<u8>>) -> Seq<char> {
    if valid_utf8(result_payload(decoded)) {
        "Decoded successful ack : "@ + decode_utf8(result_payload(decoded))
    } else {
        "Couldn't decode following successful ack : "@ + encoded
    }
}

/// How an envelope reads.
pub open spec fn envelope_message(ack: AckResponseView) -> Seq<char> {
    match ack {
        AckResponseView::Result(b) => success_message(b, base64_decoded(b)),
        AckResponseView::Error(e) => "Ack error : "@ + e,
    }
}

/// How an acknowledgement reads: decoded where it is an envelope, as it
/// stands where it is not.
pub open spec fn acknowledgment_message(raw: Seq<char>) -> Seq<char> {
    match ack_envelope(raw) {
        Some(ack) => envelope_message(ack),
        None => raw,
    }
}

impl AckResponse {
    /// Reads a parsed document as an envelope.
    pub fn from_document(doc: &JsonDocument) -> (r: Option<AckResponse>)
        ensures
            match r {
                Some(ack) => envelope_of(doc@) == Some(ack@),
                None => envelope_of(doc@) is None,
            },
    {
        match &doc.value {
            JsonValue::Object(members) => {
                if members.len() != 1 {
                    return None;
                }
                let member = &members[0];
                assert(doc@.value->Object_0[0] == member@);
                match &member.string {
                    Some(s) => {
                        if same_text(member.key.as_str(), "result") {
                            Some(AckResponse::Result(s.clone()))
                        } else if same_text(member.key.as_str(), "error") {
                            Some(AckResponse::Error(s.clone()))
                        } else {
                            None
                        }
                    },
                    None => None,
                }
            },
            _ => None,
        }
    }

    /// Reads an acknowledgement text as an envelope; `None` where it is not
    /// one.
    pub fn parse(text: &str) -> (r: Option<AckResponse>)
        ensures
            match r {
                Some(ack) => ack_envelope(text@) == Some(ack@),
                None => ack_envelope(text@) is None,
            },
    {
        match JsonDocument::parse(text) {
            Some(doc) => Self::from_document(&doc),
            None => None,
        }
    }

    /// How the envelope reads.
    pub fn describe(&self) -> (r: String)
        ensures
            r@ == envelope_message(self@),
    {
        match self {
            AckResponse::Result(b) => success_ack_message(b.as_str(), decode_base64(b.as_str())),
            AckResponse::Error(e) => join("Ack error : ", e.as_str()),
        }
    }
}

/// How a result reads, given what its base64 decoded to: the decoded text
/// where the bytes are UTF-8, the base64 itself where they are not.
pub fn success_ack_message(encoded: &str, decoded: Option<Vec<u8>>) -> (r: String)
    ensures
        r@ == success_message(
            encoded@,
            match decoded {
                Some(bytes) => Some(bytes@),
                None => None,
            },
        ),
{
    let payload = match decoded {
        Some(bytes) => bytes,
        None => Vec::new(),
    };
    match decode_text(payload) {
        Some(text) => join("Decoded successful ack : ", text.as_str()),
        None => join("Couldn't decode following successful ack : ", encoded),
    }
}

/// How an acknowledgement reads: decoded where it follows the envelope, as it
/// stands where it does not. It never fails.
pub fn decode_acknowledgment(raw: &str) -> (r: String)
    ensures
        r@ == acknowledgment_message(raw@),
{
    match AckResponse::parse(raw) {
        Some(ack) => ack.describe(),
        None => raw.to_owned(),
    }
}

} // verus!
