use cw_orch::ack::{decode_acknowledgment, success_ack_message, AckResponse};
use cw_orch::encoding::{decode_base64, decode_text};
use cw_orch::json::{JsonDocument, JsonValue};
use cw_orch::msg_type::{
    input_msg_type, msg_bytes, MsgBytesError, MsgType, MsgTypeDiscriminants,
};

#[test]
fn check_message() {
    let b_64_msg = msg_bytes(
        "eyJsYXRlc3RfY29udHJhY3RzIjp7fX0=".to_owned(),
        MsgType::Base64Msg,
    )
    .unwrap();
    let json_msg = msg_bytes(r#"{"latest_contracts":{}}"#.to_owned(), MsgType::JsonMsg).unwrap();

    assert_eq!(b_64_msg, json_msg);
}

#[test]
fn json_message_is_written_compactly() {
    let bytes = msg_bytes("{ \"b\" : 1,\n \"a\" : [ true, null ] }".to_owned(), MsgType::JsonMsg)
        .unwrap();
    assert_eq!(bytes, b"{\"a\":[true,null],\"b\":1}".to_vec());
}

#[test]
fn base64_message_is_decoded_and_not_handed_back() {
    let bytes = msg_bytes("aGVsbG8=".to_owned(), MsgType::Base64Msg).unwrap();
    assert_eq!(bytes, b"hello".to_vec());
    assert_ne!(bytes, b"aGVsbG8=".to_vec());
}

#[test]
fn message_errors() {
    assert_eq!(
        msg_bytes("{not json".to_owned(), MsgType::JsonMsg),
        Err(MsgBytesError::NotJson)
    );
    assert_eq!(
        msg_bytes("***".to_owned(), MsgType::Base64Msg),
        Err(MsgBytesError::NotBase64)
    );
    assert_eq!(
        msg_bytes(String::new(), MsgType::JsonMsg),
        Err(MsgBytesError::MissingMessage)
    );
    assert_eq!(
        msg_bytes(String::new(), MsgType::Base64Msg),
        Err(MsgBytesError::MissingMessage)
    );
    assert_eq!(
        msg_bytes("file.json".to_owned(), MsgType::FileMsg),
        Err(MsgBytesError::FileMessage)
    );
}

#[test]
fn msg_type_words() {
    assert_eq!(MsgType::from_str("json-msg"), Ok(MsgType::JsonMsg));
    assert_eq!(MsgType::from_str("base64-msg"), Ok(MsgType::Base64Msg));
    assert_eq!(MsgType::from_str("file-msg"), Ok(MsgType::FileMsg));
    assert_eq!(
        MsgType::from_str("json"),
        Err("MsgType: incorrect message type".to_string())
    );
    assert_eq!(MsgType::JsonMsg.to_string(), "json-msg");
    assert_eq!(MsgType::Base64Msg.to_string(), "base64-msg");
    assert_eq!(MsgType::FileMsg.to_string(), "file-msg");
}

#[test]
fn msg_type_selection() {
    let shown: Vec<String> = MsgTypeDiscriminants::iter().iter().map(|d| d.to_string()).collect();
    assert_eq!(shown, vec!["Json Msg", "Base64 Msg", "File Msg"]);
    assert_eq!(MsgTypeDiscriminants::JsonMsg.get_message(), "json message");
    assert_eq!(MsgTypeDiscriminants::Base64Msg.get_message(), "base64 message");
    assert_eq!(MsgTypeDiscriminants::FileMsg.get_message(), "File message");
    assert_eq!(input_msg_type(MsgTypeDiscriminants::FileMsg), Some(MsgType::FileMsg));
    assert_eq!(input_msg_type(MsgTypeDiscriminants::JsonMsg), Some(MsgType::JsonMsg));
    assert_eq!(input_msg_type(MsgTypeDiscriminants::Base64Msg), Some(MsgType::Base64Msg));
}

#[test]
fn json_document_one_level() {
    let doc = JsonDocument::parse(r#" {"b": {"x": 1}, "a": "text", "c": [1, "two"]} "#).unwrap();
    assert_eq!(doc.compact, r#"{"a":"text","b":{"x":1},"c":[1,"two"]}"#);
    match &doc.value {
        JsonValue::Object(members) => {
            assert_eq!(members.len(), 3);
            assert_eq!(members[0].key, "a");
            assert_eq!(members[0].text, "\"text\"");
            assert_eq!(members[0].string, Some("text".to_string()));
            assert_eq!(members[1].key, "b");
            assert_eq!(members[1].text, r#"{"x":1}"#);
            assert_eq!(members[1].string, None);
            assert_eq!(members[2].text, r#"[1,"two"]"#);
        }
        _ => panic!("an object was parsed"),
    }
    assert!(doc.as_object().is_some());
    assert!(JsonDocument::parse("{").is_none());
    assert!(JsonDocument::parse("1 2").is_none());
}

#[test]
fn json_document_other_values() {
    assert!(matches!(JsonDocument::parse("null").unwrap().value, JsonValue::Null));
    assert!(matches!(JsonDocument::parse("true").unwrap().value, JsonValue::Bool(true)));
    match JsonDocument::parse("-12").unwrap().value {
        JsonValue::Number(n) => assert_eq!(n, "-12"),
        _ => panic!("a number was parsed"),
    }
    match JsonDocument::parse("\"a\\nb\"").unwrap().value {
        JsonValue::Text(s) => assert_eq!(s, "a\nb"),
        _ => panic!("a string was parsed"),
    }
    match JsonDocument::parse("[1, {\"a\": 2}]").unwrap().value {
        JsonValue::Array(items) => {
            assert_eq!(items, vec!["1".to_string(), "{\"a\":2}".to_string()])
        }
        _ => panic!("an array was parsed"),
    }
    assert!(JsonDocument::parse("[]").unwrap().as_object().is_none());
}

#[test]
fn ack_envelope_result() {
    let raw = r#"{"result":"aGVsbG8="}"#;
    match AckResponse::parse(raw) {
        Some(AckResponse::Result(b)) => assert_eq!(b, "aGVsbG8="),
        _ => panic!("a result envelope was parsed"),
    }
    assert_eq!(decode_acknowledgment(raw), "Decoded successful ack : hello");
}

#[test]
fn ack_envelope_error() {
    let raw = r#"{"error":"out of gas"}"#;
    match AckResponse::parse(raw) {
        Some(AckResponse::Error(e)) => assert_eq!(e, "out of gas"),
        _ => panic!("an error envelope was parsed"),
    }
    assert_eq!(decode_acknowledgment(raw), "Ack error : out of gas");
}

#[test]
fn ack_outside_the_envelope_is_kept_as_it_stands() {
    for raw in [
        "not json at all",
        r#"{"other":"x"}"#,
        r#"{"result":1}"#,
        r#"{"result":"a","error":"b"}"#,
        r#"["result"]"#,
        "",
    ] {
        assert!(AckResponse::parse(raw).is_none());
        assert_eq!(decode_acknowledgment(raw), raw);
    }
}

#[test]
fn ack_result_that_is_not_text() {
    // 0xff 0xfe is no UTF-8
    let raw = r#"{"result":"//4="}"#;
    assert_eq!(
        decode_acknowledgment(raw),
        "Couldn't decode following successful ack : //4="
    );
    // what is no base64 counts as no bytes, which read as the empty text
    assert_eq!(
        decode_acknowledgment(r#"{"result":"***"}"#),
        "Decoded successful ack : "
    );
    assert_eq!(
        success_ack_message("AQ==", Some(vec![b'o', b'k'])),
        "Decoded successful ack : ok"
    );
    assert_eq!(success_ack_message("zz", None), "Decoded successful ack : ");
    assert_eq!(
        AckResponse::Result("aGk=".to_string()).describe(),
        "Decoded successful ack : hi"
    );
}

#[test]
fn decodings() {
    assert_eq!(decode_base64("aGVsbG8="), Some(b"hello".to_vec()));
    assert_eq!(decode_base64("aGVsbG8"), None);
    assert_eq!(decode_base64(""), Some(vec![]));
    assert_eq!(decode_text(vec![0xe2, 0x82, 0xac]), Some("€".to_string()));
    assert_eq!(decode_text(vec![0xff]), None);
}
