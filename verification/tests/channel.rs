use cw_orch::creation::{CreationAction, CreationEvent, CreationState};
use cw_orch::error::DaemonError;
use cw_orch::follow::{FollowAction, FollowEvent, FollowState};
use cw_orch::interchain_channel::{
    GrpcChannel, InterchainChannel, InterchainPort, OrderBy, TxQuery,
};
use cw_orch::tx_resp::{CosmTxResponse, TxResultBlockAttribute, TxResultBlockEvent};

fn port(chain_id: &str, port: &str, channel: Option<&str>) -> InterchainPort {
    InterchainPort {
        chain: GrpcChannel { address: format!("http://{chain_id}:9090") },
        chain_id: chain_id.to_string(),
        port: port.to_string(),
        channel: channel.map(|c| c.to_string()),
    }
}

fn pair() -> InterchainChannel {
    InterchainChannel::new(
        "connection-0".to_string(),
        port("juno-1", "transfer", Some("channel-1")),
        port("stargaze-1", "wasm.abc", Some("channel-7")),
    )
}

fn attr(key: &str, value: &str) -> TxResultBlockAttribute {
    TxResultBlockAttribute { key: key.to_string(), value: value.to_string() }
}

fn tx(hash: &str, code: usize, events: Vec<TxResultBlockEvent>) -> CosmTxResponse {
    CosmTxResponse {
        height: 10,
        txhash: hash.to_string(),
        code,
        raw_log: format!("log of {hash}"),
        events,
    }
}

fn ack_event(ack: &str) -> TxResultBlockEvent {
    TxResultBlockEvent {
        s_type: "write_acknowledgement".to_string(),
        attributes: vec![
            attr("packet_sequence", "5"),
            attr("packet_data", "{\"amount\":\"1\"}"),
            attr("packet_ack", ack),
            attr("packet_ack", "a later one"),
        ],
    }
}

fn ibc_message(e: DaemonError) -> String {
    match e {
        DaemonError::IbcError(m) => m,
        _ => panic!("an IbcError was expected"),
    }
}

#[test]
fn ports_are_ordered_by_the_sending_chain() {
    let pair = pair();
    let (src, dst) = pair.get_ordered_ports_from("juno-1".to_string()).unwrap();
    assert_eq!((src.chain_id.as_str(), dst.chain_id.as_str()), ("juno-1", "stargaze-1"));
    assert_eq!(src.port, "transfer");
    assert_eq!(src.channel, Some("channel-1".to_string()));
    assert_eq!(src.chain.address, "http://juno-1:9090");
    let (src, dst) = pair.get_ordered_ports_from("stargaze-1".to_string()).unwrap();
    assert_eq!((src.chain_id.as_str(), dst.chain_id.as_str()), ("stargaze-1", "juno-1"));
    assert_eq!(dst.channel, Some("channel-1".to_string()));
    let message = ibc_message(pair.get_ordered_ports_from("osmosis-1".to_string()).unwrap_err());
    assert_eq!(
        message,
        "chain osmosis-1, doesn't exist in the InterchainChannel object connection connection-0 between juno-1:transfer and stargaze-1:wasm.abc"
    );
}

#[test]
fn get_chain_gives_the_end_on_that_chain() {
    let pair = pair();
    assert_eq!(pair.get_connection(), "connection-0");
    assert!(pair.has_distinct_chains());
    assert_eq!(pair.get_chain("juno-1".to_string()).unwrap().port, "transfer");
    assert_eq!(pair.get_chain("stargaze-1".to_string()).unwrap().port, "wasm.abc");
    assert!(matches!(
        pair.get_chain("osmosis-1".to_string()),
        Err(DaemonError::IbcError(_))
    ));
    let twice = InterchainChannel::new(
        "connection-0".to_string(),
        port("juno-1", "first", None),
        port("juno-1", "second", None),
    );
    assert!(!twice.has_distinct_chains());
    assert_eq!(twice.get_chain("juno-1".to_string()).unwrap().port, "first");
}

fn assert_query(query: &TxQuery, chain_id: &str, events: &[&str], order_by: Option<OrderBy>) {
    assert_eq!(query.chain_id, chain_id);
    assert_eq!(query.channel.address, format!("http://{chain_id}:9090"));
    assert_eq!(query.events, events.iter().map(|e| e.to_string()).collect::<Vec<_>>());
    assert_eq!(query.order_by, order_by);
}

#[test]
fn packet_queries() {
    let pair = pair();
    let send = pair.packet_send_query("juno-1".to_string(), "5".to_string()).unwrap();
    assert_query(
        &send,
        "juno-1",
        &[
            "send_packet.packet_dst_port='wasm.abc'",
            "send_packet.packet_dst_channel='channel-7'",
            "send_packet.packet_sequence='5'",
        ],
        None,
    );
    let receive = pair.packet_receive_query("juno-1".to_string(), "5".to_string()).unwrap();
    assert_query(
        &receive,
        "stargaze-1",
        &[
            "recv_packet.packet_dst_port='wasm.abc'",
            "recv_packet.packet_dst_channel='channel-7'",
            "recv_packet.packet_sequence='5'",
        ],
        None,
    );
    let ack = pair.packet_ack_receive_query("juno-1".to_string(), "5".to_string()).unwrap();
    assert_query(
        &ack,
        "juno-1",
        &[
            "acknowledge_packet.packet_src_port='transfer'",
            "acknowledge_packet.packet_src_channel='channel-1'",
            "acknowledge_packet.packet_sequence='5'",
        ],
        None,
    );
    let from_other = pair.packet_receive_query("stargaze-1".to_string(), "9".to_string()).unwrap();
    assert_query(
        &from_other,
        "juno-1",
        &[
            "recv_packet.packet_dst_port='transfer'",
            "recv_packet.packet_dst_channel='channel-1'",
            "recv_packet.packet_sequence='9'",
        ],
        None,
    );
}

#[test]
fn channel_creation_queries() {
    let pair = pair();
    let ack = pair.get_channel_creation_ack("juno-1".to_string()).unwrap();
    assert_query(
        &ack,
        "juno-1",
        &[
            "channel_open_ack.port_id='transfer'",
            "channel_open_ack.counterparty_port_id='wasm.abc'",
            "channel_open_ack.connection_id='connection-0'",
        ],
        Some(OrderBy::Desc),
    );
    let confirm = pair.get_channel_creation_confirm("juno-1".to_string()).unwrap();
    assert_query(
        &confirm,
        "stargaze-1",
        &[
            "channel_open_confirm.port_id='wasm.abc'",
            "channel_open_confirm.counterparty_port_id='transfer'",
        ],
        Some(OrderBy::Desc),
    );
    assert!(pair.get_channel_creation_ack("osmosis-1".to_string()).is_err());
    assert!(pair.get_channel_creation_confirm("osmosis-1".to_string()).is_err());
}

#[test]
fn unbound_channel_is_a_configuration_error() {
    let unbound = InterchainChannel::new(
        "connection-0".to_string(),
        port("juno-1", "transfer", Some("channel-1")),
        port("stargaze-1", "wasm.abc", None),
    );
    let message = ibc_message(
        unbound.packet_receive_query("juno-1".to_string(), "5".to_string()).unwrap_err(),
    );
    assert_eq!(
        message,
        "No channel registered between juno-1:transfer and stargaze-1:wasm.abc on connection connection-0"
    );
    assert!(unbound.packet_send_query("juno-1".to_string(), "5".to_string()).is_err());
    assert!(unbound.packet_ack_receive_query("juno-1".to_string(), "5".to_string()).is_ok());
    let empty = InterchainChannel::new(
        "connection-0".to_string(),
        port("juno-1", "transfer", Some("")),
        port("stargaze-1", "wasm.abc", Some("channel-7")),
    );
    assert!(empty.packet_ack_receive_query("juno-1".to_string(), "5".to_string()).is_err());
    // following fails before any query is handed out
    let (state, action) = unbound.follow_packet(
        "juno-1".to_string(),
        "5".to_string(),
        FollowState::Start,
        FollowEvent::Begin,
    );
    assert!(matches!(state, FollowState::Finished));
    assert!(matches!(action, FollowAction::Fail(DaemonError::IbcError(_))));
    let (state, action) = empty.follow_packet(
        "juno-1".to_string(),
        "5".to_string(),
        FollowState::Start,
        FollowEvent::Begin,
    );
    assert!(matches!(state, FollowState::Finished));
    assert!(matches!(action, FollowAction::Fail(DaemonError::IbcError(_))));
}

#[test]
fn a_packet_transaction_must_be_the_only_match() {
    let pair = pair();
    let one = vec![tx("AA", 0, vec![])];
    let found = pair
        .get_packet_receive_tx("juno-1".to_string(), "5".to_string(), &one)
        .unwrap();
    assert_eq!(found.txhash, "AA");
    assert!(matches!(
        pair.get_packet_send_tx("juno-1".to_string(), "5".to_string(), &vec![]),
        Err(DaemonError::NoResultYet)
    ));
    let two = vec![tx("AA", 0, vec![]), tx("BB", 0, vec![])];
    let message = ibc_message(
        pair.get_packet_ack_receive_tx("juno-1".to_string(), "5".to_string(), &two).unwrap_err(),
    );
    assert_eq!(
        message,
        "Found multiple transactions matching a send packet event, this is impossible (or cw-orch impl is at fault)"
    );
    assert!(matches!(
        pair.get_packet_send_tx("osmosis-1".to_string(), "5".to_string(), &one),
        Err(DaemonError::IbcError(_))
    ));
    assert!(DaemonError::NoResultYet.is_transient());
    assert!(!DaemonError::IbcError("x".to_string()).is_transient());
    assert_eq!(DaemonError::QueryFailed("down".to_string()).to_string(), "down");
}

#[test]
fn follow_packet_round_trip() {
    let pair = pair();
    let from = "juno-1".to_string();
    let sequence = "5".to_string();
    let (state, action) =
        pair.follow_packet(from.clone(), sequence.clone(), FollowState::Start, FollowEvent::Begin);
    assert!(matches!(state, FollowState::AwaitingReceive));
    match &action {
        FollowAction::Query(q) => {
            assert_eq!(q.chain_id, "stargaze-1");
            assert_eq!(q.events[2], "recv_packet.packet_sequence='5'");
        }
        _ => panic!("the receive query was expected"),
    }
    let received = tx("RECV", 0, vec![ack_event(r#"{"result":"aGVsbG8="}"#)]);
    let (state, action) = pair.follow_packet(
        from.clone(),
        sequence.clone(),
        state,
        FollowEvent::Found(vec![received]),
    );
    match &state {
        FollowState::AwaitingAck(packet) => {
            assert_eq!(packet.tx_hash, "RECV");
            assert_eq!(packet.sequence, "5");
            assert_eq!(packet.data, "{\"amount\":\"1\"}");
            assert_eq!(packet.acknowledgment, r#"{"result":"aGVsbG8="}"#);
            assert_eq!(packet.decoded_ack, "Decoded successful ack : hello");
        }
        _ => panic!("the receipt was expected to be confirmed"),
    }
    match &action {
        FollowAction::Query(q) => {
            assert_eq!(q.chain_id, "juno-1");
            assert_eq!(q.events[0], "acknowledge_packet.packet_src_port='transfer'");
        }
        _ => panic!("the acknowledgement query was expected"),
    }
    let (state, action) =
        pair.follow_packet(from, sequence, state, FollowEvent::Found(vec![tx("ACK", 0, vec![])]));
    assert!(matches!(state, FollowState::Finished));
    match action {
        FollowAction::Done(txs) => {
            assert_eq!(txs.len(), 2);
            assert_eq!(txs[0].chain_id, "stargaze-1");
            assert_eq!(txs[0].tx_hash, "RECV");
            assert_eq!(txs[0].channel.address, "http://stargaze-1:9090");
            assert_eq!(txs[1].chain_id, "juno-1");
            assert_eq!(txs[1].tx_hash, "ACK");
        }
        _ => panic!("the packet was expected to be followed to its end"),
    }
}

fn receive(found: Vec<CosmTxResponse>) -> (FollowState, FollowAction) {
    pair().follow_packet(
        "juno-1".to_string(),
        "5".to_string(),
        FollowState::AwaitingReceive,
        FollowEvent::Found(found),
    )
}

#[test]
fn follow_packet_failures_on_the_receipt() {
    let (state, action) = receive(vec![]);
    assert!(matches!(state, FollowState::Finished));
    assert!(matches!(action, FollowAction::Fail(DaemonError::NoResultYet)));
    let (_, action) = receive(vec![tx("A", 0, vec![]), tx("B", 0, vec![])]);
    assert!(matches!(action, FollowAction::Fail(DaemonError::IbcError(_))));
    let (_, action) = receive(vec![tx("A", 11, vec![ack_event("x")])]);
    match action {
        FollowAction::Fail(DaemonError::TxFailed { code, reason }) => {
            assert_eq!(code, 11);
            assert_eq!(reason, "Raw log on stargaze-1 : log of A");
        }
        _ => panic!("a failed transaction was expected"),
    }
    let (_, action) = receive(vec![tx("A", 0, vec![])]);
    match action {
        FollowAction::Fail(e) => assert_eq!(
            ibc_message(e),
            "The transaction that received the packet holds no write_acknowledgement event"
        ),
        _ => panic!("a failure was expected"),
    }
    let partial = TxResultBlockEvent {
        s_type: "write_acknowledgement".to_string(),
        attributes: vec![attr("packet_sequence", "5")],
    };
    let (_, action) = receive(vec![tx("A", 0, vec![partial])]);
    match action {
        FollowAction::Fail(e) => assert_eq!(
            ibc_message(e),
            "The write_acknowledgement event lacks the packet's sequence, data or acknowledgement"
        ),
        _ => panic!("a failure was expected"),
    }
    let (state, action) = pair().follow_packet(
        "juno-1".to_string(),
        "5".to_string(),
        FollowState::AwaitingReceive,
        FollowEvent::QueryFailed("transport error".to_string()),
    );
    assert!(matches!(state, FollowState::Finished));
    match action {
        FollowAction::Fail(DaemonError::QueryFailed(m)) => assert_eq!(m, "transport error"),
        _ => panic!("the failure of the query was expected"),
    }
}

#[test]
fn follow_packet_failures_on_the_acknowledgement() {
    let pair = pair();
    let awaiting = || {
        let (state, _) = receive(vec![tx("RECV", 0, vec![ack_event("opaque ack")])]);
        match &state {
            FollowState::AwaitingAck(packet) => assert_eq!(packet.decoded_ack, "opaque ack"),
            _ => panic!("the receipt was expected to be confirmed"),
        }
        state
    };
    let step = |event| pair.follow_packet("juno-1".to_string(), "5".to_string(), awaiting(), event);
    let (_, action) = step(FollowEvent::Found(vec![]));
    assert!(matches!(action, FollowAction::Fail(DaemonError::NoResultYet)));
    let (_, action) = step(FollowEvent::Found(vec![tx("A", 0, vec![]), tx("B", 0, vec![])]));
    assert!(matches!(action, FollowAction::Fail(DaemonError::IbcError(_))));
    let (_, action) = step(FollowEvent::Found(vec![tx("ACK", 3, vec![])]));
    match action {
        FollowAction::Fail(DaemonError::TxFailed { code, reason }) => {
            assert_eq!(code, 3);
            assert_eq!(reason, "Raw log on juno-1 : log of ACK");
        }
        _ => panic!("a failed transaction was expected"),
    }
    let (_, action) = step(FollowEvent::Begin);
    match action {
        FollowAction::Fail(e) => {
            assert_eq!(ibc_message(e), "The event does not answer what the last step asked for")
        }
        _ => panic!("a failure was expected"),
    }
    let (state, action) = pair.follow_packet(
        "juno-1".to_string(),
        "5".to_string(),
        FollowState::Finished,
        FollowEvent::Begin,
    );
    assert!(matches!(state, FollowState::Finished));
    assert!(matches!(action, FollowAction::Fail(DaemonError::IbcError(_))));
}

fn creation_step(
    baseline: &(Option<String>, Option<String>),
    state: CreationState,
    event: CreationEvent,
) -> (CreationState, CreationAction) {
    pair().find_new_channel_creation_tx("juno-1".to_string(), baseline, state, event)
}

#[test]
fn new_channel_creation_is_found_against_an_empty_baseline() {
    let baseline = (None, None);
    let (state, action) = creation_step(&baseline, CreationState::Start, CreationEvent::Begin);
    assert_eq!(state, CreationState::Polling { attempt: 1 });
    match &action {
        CreationAction::Poll { ack, confirm } => {
            assert_eq!(ack.chain_id, "juno-1");
            assert_eq!(confirm.chain_id, "stargaze-1");
            assert_eq!(ack.order_by, Some(OrderBy::Desc));
        }
        _ => panic!("a poll was expected"),
    }
    let (state, action) = creation_step(
        &baseline,
        state,
        CreationEvent::Polled {
            ack: vec![tx("ACK2", 0, vec![]), tx("ACK1", 0, vec![])],
            confirm: vec![tx("CONF2", 0, vec![])],
        },
    );
    assert_eq!(state, CreationState::Finished);
    match action {
        CreationAction::Found(ack, confirm) => {
            assert_eq!(ack.txhash, "ACK2");
            assert_eq!(confirm.txhash, "CONF2");
        }
        _ => panic!("a new pair was expected"),
    }
}

#[test]
fn known_channel_creation_exhausts_the_retries() {
    let baseline = (Some("ACK2".to_string()), Some("CONF2".to_string()));
    let (mut state, mut action) =
        creation_step(&baseline, CreationState::Start, CreationEvent::Begin);
    let mut polls = 0;
    let mut waited = 0;
    loop {
        match action {
            CreationAction::Poll { .. } => {
                polls += 1;
                assert!(polls <= 5);
                assert_eq!(state, CreationState::Polling { attempt: polls });
                (state, action) = creation_step(
                    &baseline,
                    state,
                    CreationEvent::Polled {
                        ack: vec![tx("ACK2", 0, vec![])],
                        confirm: vec![tx("CONF2", 0, vec![])],
                    },
                );
            }
            CreationAction::Sleep { seconds } => {
                waited += seconds;
                (state, action) = creation_step(&baseline, state, CreationEvent::Slept);
            }
            CreationAction::Fail(e) => {
                match e {
                    DaemonError::AnyError(m) => assert_eq!(
                        m,
                        "No new channel creation TX newer than (from_tx_hash: Some(\"ACK2\")) or (to_tx_hash: Some(\"CONF2\")) found"
                    ),
                    _ => panic!("the failure of the search was expected"),
                }
                break;
            }
            CreationAction::Found(..) => panic!("nothing new was there to find"),
        }
    }
    assert_eq!(polls, 5);
    assert_eq!(waited, 50);
    assert_eq!(state, CreationState::Finished);
}

#[test]
fn channel_creation_needs_both_transactions_to_be_new() {
    let baseline = (Some("ACK1".to_string()), None);
    let polling = CreationState::Polling { attempt: 2 };
    let poll = |ack: Vec<CosmTxResponse>, confirm: Vec<CosmTxResponse>| {
        creation_step(&baseline, polling, CreationEvent::Polled { ack, confirm })
    };
    let (state, action) = poll(vec![tx("ACK1", 0, vec![])], vec![tx("CONF9", 0, vec![])]);
    assert_eq!(state, CreationState::Sleeping { attempt: 2 });
    assert!(matches!(action, CreationAction::Sleep { seconds: 10 }));
    let (_, action) = poll(vec![tx("ACK2", 0, vec![])], vec![]);
    assert!(matches!(action, CreationAction::Sleep { seconds: 10 }));
    let (_, action) = poll(vec![], vec![tx("CONF9", 0, vec![])]);
    assert!(matches!(action, CreationAction::Sleep { seconds: 10 }));
    // an absent baseline counts as the empty hash
    let (_, action) = poll(vec![tx("ACK2", 0, vec![])], vec![tx("", 0, vec![])]);
    assert!(matches!(action, CreationAction::Sleep { seconds: 10 }));
    let (_, action) = poll(vec![tx("ACK2", 0, vec![])], vec![tx("CONF9", 0, vec![])]);
    assert!(matches!(action, CreationAction::Found(..)));
}

#[test]
fn channel_creation_stops_on_a_failed_query() {
    let baseline = (None, None);
    let (state, action) = creation_step(
        &baseline,
        CreationState::Polling { attempt: 1 },
        CreationEvent::QueryFailed("unavailable".to_string()),
    );
    assert_eq!(state, CreationState::Finished);
    match action {
        CreationAction::Fail(DaemonError::QueryFailed(m)) => assert_eq!(m, "unavailable"),
        _ => panic!("the failure of the query was expected"),
    }
    let (state, action) = creation_step(&baseline, CreationState::Start, CreationEvent::Slept);
    assert_eq!(state, CreationState::Finished);
    assert!(matches!(action, CreationAction::Fail(DaemonError::IbcError(_))));
    let (_, action) = pair().find_new_channel_creation_tx(
        "osmosis-1".to_string(),
        &baseline,
        CreationState::Start,
        CreationEvent::Begin,
    );
    assert!(matches!(action, CreationAction::Fail(DaemonError::IbcError(_))));
    let (_, action) = creation_step(
        &(None, None),
        CreationState::Sleeping { attempt: 5 },
        CreationEvent::Slept,
    );
    match action {
        CreationAction::Fail(DaemonError::AnyError(m)) => assert_eq!(
            m,
            "No new channel creation TX newer than (from_tx_hash: None) or (to_tx_hash: None) found"
        ),
        _ => panic!("the failure of the search was expected"),
    }
}

#[test]
fn last_channel_creation() {
    let pair = pair();
    let ack = vec![tx("ACK2", 0, vec![]), tx("ACK1", 0, vec![])];
    let (a, c) = pair.get_last_channel_creation("juno-1".to_string(), &ack, &vec![]).unwrap();
    assert_eq!(a.unwrap().txhash, "ACK2");
    assert!(c.is_none());
    let hashes = pair
        .get_last_channel_creation_hash("juno-1".to_string(), &ack, &vec![tx("C", 0, vec![])])
        .unwrap();
    assert_eq!(hashes, (Some("ACK2".to_string()), Some("C".to_string())));
    assert!(pair.get_last_channel_creation("osmosis-1".to_string(), &ack, &vec![]).is_err());
    assert!(pair.get_last_channel_creation_hash("osmosis-1".to_string(), &ack, &vec![]).is_err());
}

#[test]
fn events_by_name() {
    let t = tx(
        "A",
        0,
        vec![
            TxResultBlockEvent { s_type: "message".to_string(), attributes: vec![attr("k", "1")] },
            TxResultBlockEvent { s_type: "wasm".to_string(), attributes: vec![attr("k", "2")] },
            TxResultBlockEvent { s_type: "message".to_string(), attributes: vec![attr("k", "3")] },
        ],
    );
    let found = t.get_events("message");
    assert_eq!(found.len(), 2);
    assert_eq!(found[0].get_first_attribute_value("k"), Some("1".to_string()));
    assert_eq!(found[1].get_first_attribute_value("k"), Some("3".to_string()));
    assert!(t.get_events("other").is_empty());
    assert!(t.succeeded());
    assert!(!tx("B", 1, vec![]).succeeded());
    let copy = t.clone();
    assert_eq!(copy.txhash, "A");
    assert_eq!(copy.events.len(), 3);
}
