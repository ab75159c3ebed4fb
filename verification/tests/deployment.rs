use cw_orch::address_book::{
    deployment_contracts, input_duplicate_resolve, AliasNameStrategy,
    AliasNameStrategyDiscriminants, DuplicateResolve, DuplicateResolveDiscriminants, FetchAction,
    FetchAddresses, FetchAddressesOutput, FetchError, FetchEvent, FetchPhase, FetchState,
    GlobalResolve,
};
use cw_orch::contract::{get_struct_name, Contract};
use cw_orch::daemon::{block_info, BlockWait, WaitAction};
use cw_orch::follow::ReceivedPacket;
use cw_orch::instantiate::{Coin, InstantiateContractCommands};
use cw_orch::interchain_channel::{GrpcChannel, TxId};
use cw_orch::json::{JsonDocument, JsonMember};
use cw_orch::msg_type::{MsgBytesError, MsgType};
use cw_orch::outcome::{packet_outcome, AcknowledgedPacket, IbcPacketOutcome};
use cw_orch::state::{CwEnvError, MockState, StateInterface};
use cw_orch::text_map::TextMap;
use cw_orch::upload::{
    is_running_latest, latest_is_uploaded, migrate_if_needed, upload_if_needed, MigrateDecision,
    UploadedCode,
};

const STATE: &str = r#"{
  "juno": {
    "juno-1": {
      "code_ids": {"counter": 5},
      "default": {"counter": "juno1counter", "cw20": "juno1cw20", "vault": "juno1vault"},
      "broken": {"counter": 12},
      "listed": ["juno1counter"]
    }
  }
}"#;

#[test]
fn contracts_of_a_deployment() {
    let contracts = deployment_contracts(STATE, "juno", "juno-1", "default").unwrap();
    let read: Vec<(String, Option<String>)> =
        contracts.iter().map(|m| (m.key.clone(), m.string.clone())).collect();
    assert_eq!(
        read,
        vec![
            ("counter".to_string(), Some("juno1counter".to_string())),
            ("cw20".to_string(), Some("juno1cw20".to_string())),
            ("vault".to_string(), Some("juno1vault".to_string())),
        ]
    );
    assert_eq!(
        deployment_contracts(STATE, "osmosis", "juno-1", "default"),
        Err(FetchError::StateEmpty("osmosis".to_string()))
    );
    assert_eq!(
        deployment_contracts(STATE, "juno", "uni-6", "default"),
        Err(FetchError::StateEmpty("juno.uni-6".to_string()))
    );
    assert_eq!(
        deployment_contracts(STATE, "juno", "juno-1", "other"),
        Err(FetchError::StateEmpty("juno.juno-1.other".to_string()))
    );
    assert_eq!(
        deployment_contracts(STATE, "juno", "juno-1", "listed"),
        Err(FetchError::StateFileDamaged)
    );
    assert_eq!(
        deployment_contracts("{ no json", "juno", "juno-1", "default"),
        Err(FetchError::NotJson)
    );
    assert_eq!(
        deployment_contracts("[1]", "juno", "juno-1", "default"),
        Err(FetchError::StateEmpty("juno".to_string()))
    );
}

#[test]
fn strategies_and_choices() {
    assert_eq!(AliasNameStrategy::from_str("keep"), Ok(AliasNameStrategy::Keep));
    assert_eq!(AliasNameStrategy::from_str("rename"), Ok(AliasNameStrategy::Rename));
    assert_eq!(
        AliasNameStrategy::from_str("Keep"),
        Err("AliasNameStrategy: incorrect alias name strategy".to_string())
    );
    assert_eq!(AliasNameStrategy::Keep.to_string(), "keep");
    assert_eq!(AliasNameStrategy::Rename.to_string(), "rename");
    let shown: Vec<String> =
        AliasNameStrategyDiscriminants::iter().iter().map(|d| d.to_string()).collect();
    assert_eq!(shown, vec!["Keep", "Rename"]);
    assert_eq!(
        AliasNameStrategyDiscriminants::Keep.get_message(),
        "Keep contract ids as name aliases"
    );
    assert_eq!(
        AliasNameStrategyDiscriminants::Rename.get_message(),
        "Give prompt to rename aliases"
    );
    assert_eq!(
        FetchAddresses::input_name_strategy(AliasNameStrategyDiscriminants::Rename),
        Some(AliasNameStrategy::Rename)
    );
    assert_eq!(
        FetchAddresses::input_name_strategy(AliasNameStrategyDiscriminants::Keep),
        Some(AliasNameStrategy::Keep)
    );
    let shown: Vec<String> =
        DuplicateResolveDiscriminants::iter().iter().map(|d| d.to_string()).collect();
    assert_eq!(shown, vec!["Rename", "Skip", "Override", "Skip All", "Override All"]);
    let messages: Vec<String> =
        DuplicateResolveDiscriminants::iter().iter().map(|d| d.get_message()).collect();
    assert_eq!(
        messages,
        vec![
            "Rename duplicate",
            "Skip duplicate",
            "Override duplicate",
            "Skip all duplicates",
            "Override all duplicates"
        ]
    );
    let chosen: Vec<DuplicateResolve> = DuplicateResolveDiscriminants::iter()
        .iter()
        .map(|d| input_duplicate_resolve(*d))
        .collect();
    assert_eq!(
        chosen,
        vec![
            DuplicateResolve::Rename,
            DuplicateResolve::Skip,
            DuplicateResolve::Override,
            DuplicateResolve::SkipAll,
            DuplicateResolve::OverrideAll
        ]
    );
    assert_eq!(DuplicateResolve::SkipAll.to_string(), "SkipAll");
    assert_eq!(DuplicateResolve::Rename.to_string(), "Rename");
    let scope = FetchAddresses { deployment_id: None, name_strategy: AliasNameStrategy::Keep };
    assert_eq!(scope.deployment(), "default");
    let scope = FetchAddresses {
        deployment_id: Some("staging".to_string()),
        name_strategy: AliasNameStrategy::Keep,
    };
    assert_eq!(scope.deployment(), "staging");
}

/// Runs a fetch against an address book that holds `taken`, answering each
/// question from `answers`, and returns what was entered.
fn run_fetch(
    strategy: AliasNameStrategy,
    taken: &[&str],
    aliases: &[&str],
    choices: &[DuplicateResolve],
) -> (Vec<(String, String)>, Vec<String>, FetchState) {
    let scope = FetchAddresses { deployment_id: None, name_strategy: strategy };
    let contracts = deployment_contracts(STATE, "juno", "juno-1", "default").unwrap();
    let mut book: Vec<String> = taken.iter().map(|t| t.to_string()).collect();
    let mut entered = Vec::new();
    let mut asked = Vec::new();
    let mut aliases = aliases.iter();
    let mut choices = choices.iter();
    let (mut state, mut action) = FetchAddressesOutput::from_previous_context(
        &scope,
        &contracts,
        FetchState::new(),
        FetchEvent::Begin,
    );
    loop {
        let event = match action {
            FetchAction::AskAlias { contract_id } => {
                asked.push(format!("alias:{contract_id}"));
                FetchEvent::Alias(aliases.next().unwrap().to_string())
            }
            FetchAction::AskRename { contract_id } => {
                asked.push(format!("rename:{contract_id}"));
                FetchEvent::Alias(aliases.next().unwrap().to_string())
            }
            FetchAction::LookUp { alias } => FetchEvent::Exists(book.contains(&alias)),
            FetchAction::AskResolve { alias } => {
                asked.push(format!("resolve:{alias}"));
                FetchEvent::Resolve(*choices.next().unwrap())
            }
            FetchAction::Insert { alias, address } => {
                if !book.contains(&alias) {
                    book.push(alias.clone());
                }
                entered.push((alias, address));
                FetchEvent::Inserted
            }
            FetchAction::Done => break,
            FetchAction::Fail(e) => panic!("the fetch failed: {e:?}"),
        };
        (state, action) =
            FetchAddressesOutput::from_previous_context(&scope, &contracts, state, event);
    }
    (entered, asked, state)
}

fn pairs(entered: &[(&str, &str)]) -> Vec<(String, String)> {
    entered.iter().map(|(a, b)| (a.to_string(), b.to_string())).collect()
}

#[test]
fn fetch_keeps_ids_where_nothing_is_taken() {
    let (entered, asked, state) = run_fetch(AliasNameStrategy::Keep, &[], &[], &[]);
    assert_eq!(
        entered,
        pairs(&[("counter", "juno1counter"), ("cw20", "juno1cw20"), ("vault", "juno1vault")])
    );
    assert!(asked.is_empty());
    assert_eq!(state.phase, FetchPhase::Finished);
    assert_eq!(state.index, 3);
    assert_eq!(state.global, GlobalResolve::Undecided);
}

#[test]
fn fetch_asks_for_each_alias_when_renaming() {
    let (entered, asked, _) =
        run_fetch(AliasNameStrategy::Rename, &[], &["one", "two", "three"], &[]);
    assert_eq!(
        entered,
        pairs(&[("one", "juno1counter"), ("two", "juno1cw20"), ("three", "juno1vault")])
    );
    assert_eq!(asked, vec!["alias:counter", "alias:cw20", "alias:vault"]);
}

#[test]
fn fetch_skips_and_overrides_single_duplicates() {
    let (entered, asked, state) = run_fetch(
        AliasNameStrategy::Keep,
        &["counter", "cw20", "vault"],
        &[],
        &[DuplicateResolve::Skip, DuplicateResolve::Override, DuplicateResolve::Skip],
    );
    assert_eq!(entered, pairs(&[("cw20", "juno1cw20")]));
    assert_eq!(asked, vec!["resolve:counter", "resolve:cw20", "resolve:vault"]);
    assert_eq!(state.global, GlobalResolve::Undecided);
}

#[test]
fn fetch_remembers_skip_all() {
    let (entered, asked, state) = run_fetch(
        AliasNameStrategy::Keep,
        &["counter", "vault"],
        &[],
        &[DuplicateResolve::SkipAll],
    );
    assert_eq!(entered, pairs(&[("cw20", "juno1cw20")]));
    assert_eq!(asked, vec!["resolve:counter"]);
    assert_eq!(state.global, GlobalResolve::SkipAll);
}

#[test]
fn fetch_remembers_override_all() {
    let (entered, asked, state) = run_fetch(
        AliasNameStrategy::Keep,
        &["counter", "vault"],
        &[],
        &[DuplicateResolve::OverrideAll],
    );
    assert_eq!(
        entered,
        pairs(&[("counter", "juno1counter"), ("cw20", "juno1cw20"), ("vault", "juno1vault")])
    );
    assert_eq!(asked, vec!["resolve:counter"]);
    assert_eq!(state.global, GlobalResolve::OverrideAll);
}

#[test]
fn fetch_renames_until_the_alias_is_free() {
    let (entered, asked, _) = run_fetch(
        AliasNameStrategy::Keep,
        &["counter", "taken"],
        &["taken", "counter", "fresh"],
        &[DuplicateResolve::Rename],
    );
    assert_eq!(
        entered,
        pairs(&[("fresh", "juno1counter"), ("cw20", "juno1cw20"), ("vault", "juno1vault")])
    );
    assert_eq!(
        asked,
        vec!["resolve:counter", "rename:counter", "rename:counter", "rename:counter"]
    );
}

#[test]
fn fetch_fails_on_an_address_that_is_no_text() {
    let scope = FetchAddresses { deployment_id: None, name_strategy: AliasNameStrategy::Keep };
    let contracts = deployment_contracts(STATE, "juno", "juno-1", "broken").unwrap();
    let (state, action) = FetchAddressesOutput::from_previous_context(
        &scope,
        &contracts,
        FetchState::new(),
        FetchEvent::Begin,
    );
    assert_eq!(action, FetchAction::Fail(FetchError::StateFileDamaged));
    assert_eq!(state.phase, FetchPhase::Finished);
}

#[test]
fn fetch_stops_on_failures_and_on_unexpected_events() {
    let scope = FetchAddresses { deployment_id: None, name_strategy: AliasNameStrategy::Rename };
    let contracts = deployment_contracts(STATE, "juno", "juno-1", "default").unwrap();
    let begin = || {
        FetchAddressesOutput::from_previous_context(
            &scope,
            &contracts,
            FetchState::new(),
            FetchEvent::Begin,
        )
    };
    let (state, action) = begin();
    assert_eq!(action, FetchAction::AskAlias { contract_id: "counter".to_string() });
    let (state, action) = FetchAddressesOutput::from_previous_context(
        &scope,
        &contracts,
        state,
        FetchEvent::Failed("interrupted".to_string()),
    );
    assert_eq!(action, FetchAction::Fail(FetchError::Interrupted("interrupted".to_string())));
    assert_eq!(state.phase, FetchPhase::Finished);
    let (_, action) =
        FetchAddressesOutput::from_previous_context(&scope, &contracts, state, FetchEvent::Inserted);
    assert_eq!(action, FetchAction::Fail(FetchError::UnexpectedEvent));
    let (state, _) = begin();
    let (_, action) =
        FetchAddressesOutput::from_previous_context(&scope, &contracts, state, FetchEvent::Inserted);
    assert_eq!(action, FetchAction::Fail(FetchError::UnexpectedEvent));
    let (_, action) = FetchAddressesOutput::from_previous_context(
        &scope,
        &contracts,
        FetchState::new(),
        FetchEvent::Exists(true),
    );
    assert_eq!(action, FetchAction::Fail(FetchError::UnexpectedEvent));
    let empty: Vec<JsonMember> = Vec::new();
    let (state, action) = FetchAddressesOutput::from_previous_context(
        &scope,
        &empty,
        FetchState::new(),
        FetchEvent::Begin,
    );
    assert_eq!(action, FetchAction::Done);
    assert_eq!(state.index, 0);
}

#[test]
fn state_interface() {
    let contract_id = "my_contract";
    let code_id = 1u64;
    let address = &"cosmos456".to_string();
    let mut mock_state = MockState::new();

    mock_state.set_address(contract_id, address);
    assert_eq!(address, &mock_state.get_address(contract_id).unwrap());

    mock_state.set_code_id(contract_id, code_id);
    assert_eq!(code_id, mock_state.get_code_id(contract_id).unwrap());

    assert_eq!(mock_state.get_all_code_ids().unwrap().len(), 1);

    assert_eq!(mock_state.get_all_addresses().unwrap().len(), 1);
}

#[test]
fn mock_state_keeps_what_it_is_given() {
    let mut state = MockState::new();
    assert_eq!(state.chain_id(), "cosmos-testnet-14002");
    state.set_chain_id("juno-1");
    assert_eq!(state.chain_id(), "juno-1");
    assert_eq!(MockState::new_with_chain_id("uni-6").chain_id(), "uni-6");
    assert_eq!(
        state.get_address("a"),
        Err(CwEnvError::AddrNotInStore("a".to_string()))
    );
    assert_eq!(state.get_code_id("a"), Err(CwEnvError::CodeIdNotInStore("a".to_string())));
    state.set_address("a", &"addr-a".to_string());
    state.set_address("b", &"addr-b".to_string());
    state.set_address("a", &"addr-a2".to_string());
    state.set_code_id("b", 7);
    assert_eq!(state.get_address("a"), Ok("addr-a2".to_string()));
    assert_eq!(
        state.get_all_addresses(),
        Ok(vec![
            ("a".to_string(), "addr-a2".to_string()),
            ("b".to_string(), "addr-b".to_string())
        ])
    );
    assert_eq!(state.get_all_code_ids(), Ok(vec![("b".to_string(), 7)]));
    let mut map: TextMap<u64> = TextMap::new();
    map.insert("x".to_string(), 1);
    map.insert("y".to_string(), 2);
    map.insert("x".to_string(), 3);
    assert_eq!(map.len(), 2);
    assert_eq!(map.get("x"), Some(&3));
    assert_eq!(map.get("z"), None);
    assert!(map.contains_key("y"));
    assert_eq!(map.keys(), vec!["x", "y"]);
}

#[test]
fn contract_falls_back_on_its_defaults() {
    let mut state = MockState::new();
    let mut contract = Contract::new("counter");
    assert_eq!(contract.id, "counter");
    assert_eq!(
        contract.address(&state),
        Err(CwEnvError::AddrNotInStore("counter".to_string()))
    );
    assert_eq!(
        contract.code_id(&state),
        Err(CwEnvError::CodeIdNotInStore("counter".to_string()))
    );
    contract.set_default_address(&"default-address".to_string());
    contract.set_default_code_id(3);
    assert_eq!(contract.address(&state), Ok("default-address".to_string()));
    assert_eq!(contract.code_id(&state), Ok(3));
    contract.set_address(&mut state, &"stored-address".to_string());
    contract.set_code_id(&mut state, 9);
    assert_eq!(contract.address(&state), Ok("stored-address".to_string()));
    assert_eq!(contract.code_id(&state), Ok(9));
    let other = Contract::new("cw20").with_address(&mut state, Some(&"cw20-address".to_string()));
    assert_eq!(other.address(&state), Ok("cw20-address".to_string()));
    let third = Contract::new("vault").with_address(&mut state, None);
    assert!(third.address(&state).is_err());
}

#[test]
fn struct_name_is_the_first_member() {
    let doc = JsonDocument::parse(r#"{"mint":{"recipient":"a","amount":"1"}}"#).unwrap();
    assert_eq!(get_struct_name(&doc), Some("mint".to_string()));
    let doc = JsonDocument::parse(r#"{"b":1,"a":2}"#).unwrap();
    assert_eq!(get_struct_name(&doc), Some("a".to_string()));
    assert_eq!(get_struct_name(&JsonDocument::parse("{}").unwrap()), None);
    assert_eq!(get_struct_name(&JsonDocument::parse("\"mint\"").unwrap()), None);
}

#[test]
fn waiting_for_blocks() {
    let (wait, action) = BlockWait::wait_blocks(100, 3);
    assert_eq!(wait.end_height, 103);
    assert_eq!(action, WaitAction::Sleep { seconds: 4 });
    assert_eq!(wait.on_height(102), WaitAction::Sleep { seconds: 4 });
    assert_eq!(wait.on_height(103), WaitAction::Done);
    assert_eq!(wait.on_height(110), WaitAction::Done);
    let (wait, action) = BlockWait::wait_blocks(100, 0);
    assert_eq!(wait.end_height, 100);
    assert_eq!(action, WaitAction::Done);
    let (wait, action) = BlockWait::next_block(41);
    assert_eq!(wait.end_height, 42);
    assert_eq!(action, WaitAction::Sleep { seconds: 4 });
    assert!(BlockWait::checked_wait_blocks(u64::MAX, 1).is_none());
    assert_eq!(
        BlockWait::checked_wait_blocks(u64::MAX - 1, 1),
        Some((BlockWait { end_height: u64::MAX }, WaitAction::Sleep { seconds: 4 }))
    );
}

#[test]
fn block_as_reported() {
    let info = block_info(12, 1_700_000_000_123_456_789, "juno-1".to_string());
    assert_eq!(info.height, 12);
    assert_eq!(info.time.nanos, 1_700_000_000_123_456_789);
    assert_eq!(info.chain_id, "juno-1");
    let cut = block_info(1, (1u128 << 64) + 5, "juno-1".to_string());
    assert_eq!(cut.time.nanos, 5);
}

#[test]
fn upload_and_migration_decisions() {
    let uploaded = UploadedCode { code_id: 4, on_chain_hash: "abc".to_string() };
    assert!(latest_is_uploaded(Some(&uploaded), "abc"));
    assert!(!latest_is_uploaded(Some(&uploaded), "abd"));
    assert!(!latest_is_uploaded(None, "abc"));
    assert!(upload_if_needed(false));
    assert!(!upload_if_needed(true));
    assert!(is_running_latest(Some(4), 4));
    assert!(!is_running_latest(Some(4), 3));
    assert!(!is_running_latest(None, 4));
    assert_eq!(migrate_if_needed(true, Some(4)), MigrateDecision::AlreadyLatest);
    assert_eq!(migrate_if_needed(true, None), MigrateDecision::AlreadyLatest);
    assert_eq!(migrate_if_needed(false, Some(4)), MigrateDecision::Migrate { new_code_id: 4 });
    assert_eq!(migrate_if_needed(false, None), MigrateDecision::CodeIdNotInStore);
}

#[test]
fn instantiate_message_from_the_command_line() {
    let command = InstantiateContractCommands {
        code_id: 7,
        msg_type: MsgType::JsonMsg,
        msg: "{ \"count\": 1 }".to_string(),
        label: "counter".to_string(),
        admin: None,
        coins: vec![],
        signer: "alice".to_string(),
    };
    let funds = vec![Coin { denom: "ujuno".to_string(), amount: 5 }];
    let message = command.instantiate_message("juno1alice".to_string(), funds).unwrap();
    assert_eq!(message.sender, "juno1alice");
    assert_eq!(message.admin, None);
    assert_eq!(message.code_id, 7);
    assert_eq!(message.label, Some("counter".to_string()));
    assert_eq!(message.msg, b"{\"count\":1}".to_vec());
    assert_eq!(message.funds, vec![Coin { denom: "ujuno".to_string(), amount: 5 }]);
    let broken = InstantiateContractCommands {
        code_id: 7,
        msg_type: MsgType::Base64Msg,
        msg: "%%".to_string(),
        label: "counter".to_string(),
        admin: Some("juno1admin".to_string()),
        coins: vec![],
        signer: "alice".to_string(),
    };
    assert_eq!(
        broken.instantiate_message("juno1alice".to_string(), vec![]),
        Err(MsgBytesError::NotBase64)
    );
}

fn tx_id(chain: &str, hash: &str) -> TxId {
    TxId {
        chain_id: chain.to_string(),
        channel: GrpcChannel { address: format!("http://{chain}:9090") },
        tx_hash: hash.to_string(),
    }
}

fn acknowledged(ack: &str) -> AcknowledgedPacket {
    AcknowledgedPacket {
        received: ReceivedPacket {
            tx_hash: "RECV".to_string(),
            sequence: "5".to_string(),
            data: "data".to_string(),
            acknowledgment: ack.to_string(),
            decoded_ack: String::new(),
        },
        receive_tx: tx_id("stargaze-1", "RECV"),
        ack_tx: tx_id("juno-1", "ACK"),
    }
}

#[test]
fn timeout_packet_is_a_timeout_and_nothing_else() {
    let outcome = packet_outcome(tx_id("juno-1", "SEND"), Some(tx_id("juno-1", "TIMEOUT")), None);
    assert_eq!(
        outcome,
        Some(IbcPacketOutcome::Timeout { timeout_tx: tx_id("juno-1", "TIMEOUT") })
    );
    let outcome = packet_outcome(
        tx_id("juno-1", "SEND"),
        Some(tx_id("juno-1", "TIMEOUT")),
        Some(acknowledged(r#"{"result":"aGVsbG8="}"#)),
    );
    assert!(matches!(outcome, Some(IbcPacketOutcome::Timeout { .. })));
    assert_eq!(packet_outcome(tx_id("juno-1", "SEND"), None, None), None);
}

#[test]
fn acknowledged_packet_outcomes() {
    let outcome =
        packet_outcome(tx_id("juno-1", "SEND"), None, Some(acknowledged(r#"{"result":"aGVsbG8="}"#)));
    assert_eq!(
        outcome,
        Some(IbcPacketOutcome::Success {
            ack: "hello".to_string(),
            send_tx: tx_id("juno-1", "SEND"),
            receive_tx: tx_id("stargaze-1", "RECV"),
            ack_tx: tx_id("juno-1", "ACK"),
        })
    );
    let outcome =
        packet_outcome(tx_id("juno-1", "SEND"), None, Some(acknowledged(r#"{"error":"no funds"}"#)));
    assert_eq!(outcome, Some(IbcPacketOutcome::Error { reason: "no funds".to_string() }));
    let outcome = packet_outcome(tx_id("juno-1", "SEND"), None, Some(acknowledged("raw ack")));
    match outcome {
        Some(IbcPacketOutcome::Success { ack, .. }) => assert_eq!(ack, "raw ack"),
        _ => panic!("a success was expected"),
    }
    let outcome =
        packet_outcome(tx_id("juno-1", "SEND"), None, Some(acknowledged(r#"{"result":"//4="}"#)));
    match outcome {
        Some(IbcPacketOutcome::Success { ack, .. }) => assert_eq!(ack, "//4="),
        _ => panic!("a success was expected"),
    }
    let outcome =
        packet_outcome(tx_id("juno-1", "SEND"), None, Some(acknowledged(r#"{"result":"%"}"#)));
    match outcome {
        Some(IbcPacketOutcome::Success { ack, .. }) => assert_eq!(ack, "%"),
        _ => panic!("a success was expected"),
    }
}
