//! The ways in which a message for a contract is handed over, and the bytes
//! that each of them stands for.

use crate::encoding::{base64_decoded, decode_base64};
use crate::json::{json_document, JsonDocument};
use crate::text::same_text;
use vstd::prelude::*;
use vstd::utf8::encode_utf8;

verus! {

/// How the message arguments are passed.
#[derive(Debug, Clone, Copy, PartialEq, Eq, Structural)]
pub enum MsgType {
    /// Valid JSON string (e.g. {"foo": "bar"})
    JsonMsg,
    /// Base64-encoded string (e.g. eyJmb28iOiJiYXIifQ==)
    Base64Msg,
    /// Read from a file (e.g. file.json)
    FileMsg,
}

/// The kinds of message, as a selection shows them.
#[derive(Debug, Clone, Copy, PartialEq, Eq, Structural)]
pub enum MsgTypeDiscriminants {
    JsonMsg,
    Base64Msg,
    FileMsg,
}

/// Why a message gave no bytes.
#[derive(Debug, Clone, Copy, PartialEq, Eq, Structural)]
pub enum MsgBytesError {
    /// The message is empty: it has to be entered first.
    MissingMessage,
    /// The message is the name of a file: its bytes are those of the file.
    FileMessage,
    /// Message not in JSON format
    NotJson,
    /// Failed to decode base64 string
    NotBase64,
}

/// The kind that a command-line word names.
pub open spec fn msg_type_named(word: Seq<char>) -> Option<MsgType> {
    if word == "json-msg"@ {
        Some(MsgType::JsonMsg)
    } else if word == "base64-msg"@ {
        Some(MsgType::Base64Msg)
    } else if word == "file-msg"@ {
        Some(MsgType::FileMsg)
    } else {
        None
    }
}

/// The command-line word of a kind.
pub open spec fn msg_type_word(kind: MsgType) -> Seq<char> {
    match kind {
        MsgType::JsonMsg => "json-msg"@,
        MsgType::Base64Msg => "base64-msg"@,
        MsgType::FileMsg => "file-msg"@,
    }
}

/// The bytes that a message stands for.
///
/// JSON is written anew in compact form; base64 is decoded. An empty message
/// and the name of a file give no bytes here.
pub open spec fn message_bytes(message: Seq<char>, kind: MsgType) -> Result<Seq<u8>, MsgBytesError> {
    match kind {
        MsgType::FileMsg => Err(MsgBytesError::FileMessage),
        MsgType::JsonMsg => if message.len() == 0 {
            Err(MsgBytesError::MissingMessage)
        } else {
            match json_document(message) {
                Some(doc) => Ok(encode_utf8(doc.compact)),
                None => Err(MsgBytesError::NotJson),
            }
        },
        MsgType::Base64Msg => if message.len() == 0 {
            Err(MsgBytesError::MissingMessage)
        } else {
            match base64_decoded(message) {
                Some(bytes) => Ok(bytes),
                None => Err(MsgBytesError::NotBase64),
            }
        },
    }
}

impl MsgType {
    /// The kind that a command-line word names.
    pub fn from_str(s: &str) -> (r: Result<MsgType, String>)
        ensures
            match r {
                Ok(kind) => msg_type_named(s@) == Some(kind),
                Err(e) => msg_type_named(s@) is None && e@
                    == "MsgType: incorrect message type"@,
            },
    {
        if same_text(s, "json-msg") {
            Ok(MsgType::JsonMsg)
        } else if same_text(s, "base64-msg") {
            Ok(MsgType::Base64Msg)
        } else if same_text(s, "file-msg") {
            Ok(MsgType::FileMsg)
        } else {
            Err("MsgType: incorrect message type".to_owned())
        }
    }

    /// The command-line word of the kind.
    pub fn to_string(&self) -> (r: String)
        ensures
            r@ == msg_type_word(*self),
    {
        match self {
            MsgType::JsonMsg => "json-msg".to_owned(),
            MsgType::Base64Msg => "base64-msg".to_owned(),
            MsgType::FileMsg => "file-msg".to_owned(),
        }
    }
}

impl MsgTypeDiscriminants {
    /// The kinds in the order in which a selection lists them.
    pub fn iter() -> (r: Vec<MsgTypeDiscriminants>)
        ensures
            r@ == seq![
                MsgTypeDiscriminants::JsonMsg,
                MsgTypeDiscriminants::Base64Msg,
                MsgTypeDiscriminants::FileMsg,
            ],
    {
        let mut v: Vec<MsgTypeDiscriminants> = Vec::new();
        v.push(MsgTypeDiscriminants::JsonMsg);
        v.push(MsgTypeDiscriminants::Base64Msg);
        v.push(MsgTypeDiscriminants::FileMsg);
        v
    }

    /// The name that a selection shows.
    pub fn to_string(&self) -> (r: String)
        ensures
            r@ == (match self {
                MsgTypeDiscriminants::JsonMsg => "Json Msg"@,
                MsgTypeDiscriminants::Base64Msg => "Base64 Msg"@,
                MsgTypeDiscriminants::FileMsg => "File Msg"@,
            }),
    {
        match self {
            MsgTypeDiscriminants::JsonMsg => "Json Msg".to_owned(),
            MsgTypeDiscriminants::Base64Msg => "Base64 Msg".to_owned(),
            MsgTypeDiscriminants::FileMsg => "File Msg".to_owned(),
        }
    }

    /// The explanation that a selection shows.
    pub fn get_message(&self) -> (r: String)
        ensures
            r@ == (match self {
                MsgTypeDiscriminants::JsonMsg => "json message"@,
                MsgTypeDiscriminants::Base64Msg => "base64 message"@,
                MsgTypeDiscriminants::FileMsg => "File message"@,
            }),
    {
        match self {
            MsgTypeDiscriminants::JsonMsg => "json message".to_owned(),
            MsgTypeDiscriminants::Base64Msg => "base64 message".to_owned(),
            MsgTypeDiscriminants::FileMsg => "File message".to_owned(),
        }
    }
}

/// The kind of message that was selected.
pub fn input_msg_type(selected: MsgTypeDiscriminants) -> (r: Option<MsgType>)
    ensures
        r == Some(
            match selected {
                MsgTypeDiscriminants::JsonMsg => MsgType::JsonMsg,
                MsgTypeDiscriminants::Base64Msg => MsgType::Base64Msg,
                MsgTypeDiscriminants::FileMsg => MsgType::FileMsg,
            },
        ),
{
    match selected {
        MsgTypeDiscriminants::JsonMsg => Some(MsgType::JsonMsg),
        MsgTypeDiscriminants::Base64Msg => Some(MsgType::Base64Msg),
        MsgTypeDiscriminants::FileMsg => Some(MsgType::FileMsg),
    }
}

/// The bytes of a message, given what it parsed to as JSON: the document
/// written anew in compact form.
pub fn json_msg_bytes(parsed: Option<JsonDocument>) -> (r: Result<Vec<u8>, MsgBytesError>)
    ensures
        match parsed {
            Some(doc) => r matches Ok(bytes) && bytes@ == encode_utf8(doc@.compact),
            None => r == Err::<Vec<u8>, MsgBytesError>(MsgBytesError::NotJson),
        },
{
    match parsed {
        Some(doc) => Ok(doc.compact.as_str().as_bytes_vec()),
        None => Err(MsgBytesError::NotJson),
    }
}

/// The bytes of a message, given what it decoded to as base64.
pub fn base64_msg_bytes(decoded: Option<Vec<u8>>) -> (r: Result<Vec<u8>, MsgBytesError>)
    ensures
        match decoded {
            Some(bytes) => r == Ok::<Vec<u8>, MsgBytesError>(bytes),
            None => r == Err::<Vec<u8>, MsgBytesError>(MsgBytesError::NotBase64),
        },
{
    match decoded {
        Some(bytes) => Ok(bytes),
        None => Err(MsgBytesError::NotBase64),
    }
}

/// The bytes that a message stands for.
pub fn msg_bytes(message_or_file: String, msg_type: MsgType) -> (r: Result<Vec<u8>, MsgBytesError>)
    ensures
        match r {
            Ok(bytes) => message_bytes(message_or_file@, msg_type) == Ok::<
                Seq<u8>,
                MsgBytesError,
            >(bytes@),
            Err(e) => message_bytes(message_or_file@, msg_type) == Err::<Seq<u8>, MsgBytesError>(e),
        },
{
    match msg_type {
        MsgType::FileMsg => Err(MsgBytesError::FileMessage),
        MsgType::JsonMsg => {
            if message_or_file.as_str().unicode_len() == 0 {
                Err(MsgBytesError::MissingMessage)
            } else {
                json_msg_bytes(JsonDocument::parse(message_or_file.as_str()))
            }
        },
        MsgType::Base64Msg => {
            if message_or_file.as_str().unicode_len() == 0 {
                Err(MsgBytesError::MissingMessage)
            } else {
                base64_msg_bytes(decode_base64(message_or_file.as_str()))
            }
        },
    }
}

} // verus!
