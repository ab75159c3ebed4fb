use cw_orch::tx_resp::{TxResultBlockAttribute, TxResultBlockEvent};

fn attr(key: &str, value: &str) -> TxResultBlockAttribute {
    TxResultBlockAttribute { key: key.to_string(), value: value.to_string() }
}

#[test]
fn first_attribute_wins_over_later_ones() {
    let event = TxResultBlockEvent {
        s_type: "write_acknowledgement".to_string(),
        attributes: vec![attr("k", "a"), attr("k", "b")],
    };
    assert_eq!(event.get_first_attribute_value("k"), Some("a".to_string()));
}

#[test]
fn missing_attribute_gives_none() {
    let event = TxResultBlockEvent {
        s_type: "write_acknowledgement".to_string(),
        attributes: vec![attr("k", "a")],
    };
    assert_eq!(event.get_first_attribute_value("other"), None);
}
