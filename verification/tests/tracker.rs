use cw_orch::ibc_tracker::{
    packets_of, sequences_for, ChannelPackets, ChannelState, CwIbcContractState, IbcTracker,
    IbcTrackerConfig, IbcTrackerConfigBuilder, IdentifiedChannel, LoggedState, TrackerAction,
    TrackerEvent, TrackerPhase,
};
use cw_orch::render::{decimal_text, render_packet_map, render_text_set};
use cw_orch::sets::{PacketMap, SequenceSet, TextSet};

fn channel(state: ChannelState, port: &str, id: &str) -> IdentifiedChannel {
    IdentifiedChannel { state, port_id: port.to_string(), channel_id: id.to_string() }
}

fn packets(id: &str, sequences: &[u64]) -> ChannelPackets {
    ChannelPackets { channel_id: id.to_string(), sequences: sequences.to_vec() }
}

fn state_with(channels: &[&str], committed: &[(&str, &[u64])]) -> CwIbcContractState {
    let base = CwIbcContractState::new("connection-0", "wasm.abc");
    let reported: Vec<IdentifiedChannel> =
        channels.iter().map(|id| channel(ChannelState::Open, "wasm.abc", id)).collect();
    let committed: Vec<ChannelPackets> =
        committed.iter().map(|(id, sequences)| packets(id, sequences)).collect();
    base.new_state(&reported, &committed, &vec![])
}

#[test]
fn a_new_state_is_empty() {
    let state = CwIbcContractState::new("connection-0", "wasm.abc");
    assert_eq!(state.connection_id(), "connection-0");
    assert_eq!(state.port_id(), "wasm.abc");
    assert!(state.channel_ids.is_empty());
    assert!(state.committed_packets.is_empty());
    assert!(state.acknowledged_packets.is_empty());
    assert_eq!(state.to_string(), "");
    assert!(state.eq_state(&CwIbcContractState::new("connection-0", "wasm.abc")));
    assert!(!state.eq_state(&CwIbcContractState::new("connection-1", "wasm.abc")));
    assert!(!state.eq_state(&CwIbcContractState::identity()));
    assert!(CwIbcContractState::identity().eq_state(&CwIbcContractState::new("", "")));
    assert!(CwIbcContractState::default().eq_state(&CwIbcContractState::identity()));
}

#[test]
fn new_state_keeps_open_channels_of_the_port() {
    let base = CwIbcContractState::new("connection-0", "wasm.abc");
    let reported = vec![
        channel(ChannelState::Open, "wasm.abc", "channel-1"),
        channel(ChannelState::Init, "wasm.abc", "channel-2"),
        channel(ChannelState::Open, "transfer", "channel-3"),
        channel(ChannelState::Closed, "wasm.abc", "channel-4"),
        channel(ChannelState::Open, "wasm.abc", "channel-5"),
        channel(ChannelState::Open, "wasm.abc", "channel-1"),
        channel(ChannelState::TryOpen, "wasm.abc", "channel-6"),
        channel(ChannelState::Uninitialized, "wasm.abc", "channel-7"),
    ];
    let committed = vec![
        packets("channel-1", &[1, 2]),
        packets("channel-3", &[9]),
        packets("channel-1", &[2, 3]),
    ];
    let acknowledged = vec![packets("channel-5", &[7])];
    let state = base.new_state(&reported, &committed, &acknowledged);
    assert_eq!(state.connection_id(), "connection-0");
    assert_eq!(state.port_id(), "wasm.abc");
    assert_eq!(state.channel_ids.to_vec(), vec!["channel-1", "channel-5"]);
    assert_eq!(
        state.committed_packets.to_vec(),
        vec![("channel-1".to_string(), vec![1, 2, 3]), ("channel-5".to_string(), vec![])]
    );
    assert_eq!(
        state.acknowledged_packets.to_vec(),
        vec![("channel-1".to_string(), vec![]), ("channel-5".to_string(), vec![7])]
    );
    assert!(state.committed_packets.get("channel-3").is_none());
    assert_eq!(base.open_channel_ids(&reported).to_vec(), vec!["channel-1", "channel-5"]);
}

#[test]
fn unchanged_state_is_not_logged() {
    let mut current = state_with(&["channel-1"], &[("channel-1", &[1, 2])]);
    // the same state, reported in another order
    let again = state_with(&["channel-1"], &[("channel-1", &[2, 1, 2])]);
    assert!(current.eq_state(&again));
    assert!(current.update_state(again, "juno-1").is_none());
    assert_eq!(current.committed_packets.to_vec(), vec![("channel-1".to_string(), vec![2, 1])]);
    assert_eq!(current.changes(&current.clone()).to_string(), "");
}

#[test]
fn added_channel_is_logged_alone() {
    let mut current = state_with(&["channel-1"], &[]);
    let grown = state_with(&["channel-1", "channel-2"], &[]);
    let entry = current.update_state(grown, "juno-1").unwrap();
    assert_eq!(entry.target, "juno-1");
    assert_eq!(
        entry.message,
        "Update diff: new_channel(s): {\n    \"channel-2\",\n}received_packet(s): {\n    \"channel-2\": {},\n}acknowledged_packet(s): {\n    \"channel-2\": {},\n}"
    );
    assert_eq!(current.channel_ids.to_vec(), vec!["channel-1", "channel-2"]);
    // and nothing is logged the next time round
    let same = state_with(&["channel-2", "channel-1"], &[]);
    assert!(current.update_state(same, "juno-1").is_none());
}

#[test]
fn added_packets_are_logged_per_channel() {
    let old = state_with(&["channel-1", "channel-2"], &[("channel-1", &[1]), ("channel-2", &[4])]);
    let new = CwIbcContractState::new("connection-0", "wasm.abc").new_state(
        &vec![
            channel(ChannelState::Open, "wasm.abc", "channel-1"),
            channel(ChannelState::Open, "wasm.abc", "channel-2"),
        ],
        &vec![packets("channel-1", &[1, 2, 3]), packets("channel-2", &[4])],
        &vec![packets("channel-1", &[1])],
    );
    let shown = old.changes(&new);
    assert!(shown.channel_ids.is_empty());
    assert_eq!(shown.committed_packets.to_vec(), vec![("channel-1".to_string(), vec![2, 3])]);
    assert_eq!(shown.acknowledged_packets.to_vec(), vec![("channel-1".to_string(), vec![1])]);
    assert_eq!(shown.connection_id(), "");
    let entry = old.log_state(&new, "stargaze-1");
    assert_eq!(entry.target, "stargaze-1");
    assert_eq!(
        entry.message,
        "Update diff: received_packet(s): {\n    \"channel-1\": {\n        2,\n        3,\n    },\n}acknowledged_packet(s): {\n    \"channel-1\": {\n        1,\n    },\n}"
    );
}

#[test]
fn a_difference_leads_from_the_old_state_to_the_new_one() {
    let old = state_with(&["channel-1", "channel-2"], &[("channel-1", &[1, 2]), ("channel-2", &[4])]);
    let new = CwIbcContractState::new("connection-7", "wasm.abc").new_state(
        &vec![
            channel(ChannelState::Open, "wasm.abc", "channel-2"),
            channel(ChannelState::Open, "wasm.abc", "channel-3"),
        ],
        &vec![packets("channel-2", &[5]), packets("channel-3", &[1])],
        &vec![packets("channel-3", &[1])],
    );
    let diff = old.diff(&new);
    assert_eq!(diff.connection_id, Some("connection-7".to_string()));
    assert_eq!(diff.port_id, None);
    assert_eq!(diff.channel_ids.added.to_vec(), vec!["channel-3"]);
    assert_eq!(diff.channel_ids.removed.to_vec(), vec!["channel-1"]);
    assert_eq!(diff.committed_packets.removed.to_vec(), vec!["channel-1"]);
    assert_eq!(diff.committed_packets.altered.keys(), vec!["channel-2", "channel-3"]);
    let mut rebuilt = old.clone();
    rebuilt.apply(&diff);
    assert!(rebuilt.eq_state(&new));
    let mut shown = CwIbcContractState::identity();
    shown.apply(&diff);
    assert!(shown.eq_state(&old.changes(&new)));
    assert_eq!(shown.connection_id(), "connection-7");
    assert_eq!(shown.channel_ids.to_vec(), vec!["channel-3"]);
    assert_eq!(
        shown.committed_packets.to_vec(),
        vec![("channel-2".to_string(), vec![5]), ("channel-3".to_string(), vec![1])]
    );
    assert!(old.diff(&old.clone()).channel_ids.added.is_empty());
}

#[test]
fn removed_packets_show_as_an_empty_change() {
    let old = state_with(&["channel-1"], &[("channel-1", &[1, 2])]);
    let new = state_with(&["channel-1"], &[("channel-1", &[1])]);
    assert!(!old.eq_state(&new));
    let shown = old.changes(&new);
    assert_eq!(shown.committed_packets.to_vec(), vec![("channel-1".to_string(), vec![])]);
    assert_eq!(shown.to_string(), "received_packet(s): {\n    \"channel-1\": {},\n}");
    let other = CwIbcContractState::new("connection-9", "wasm.abc");
    assert_eq!(old.changes(&other).connection_id(), "connection-9");
    assert!(old.changes(&other).channel_ids.is_empty());
}

#[test]
fn tracker_configuration() {
    let config: IbcTrackerConfig<CwIbcContractState> =
        IbcTrackerConfigBuilder::default().build().unwrap();
    assert_eq!(config.log_interval, 4);
    assert!(config.ibc_state.eq_state(&CwIbcContractState::identity()));
    let config = IbcTrackerConfig::builder()
        .log_interval(9)
        .ibc_state(CwIbcContractState::new("connection-0", "wasm.abc"))
        .build()
        .unwrap();
    assert_eq!(config.log_interval, 9);
    assert_eq!(config.ibc_state.port_id(), "wasm.abc");
}

#[test]
fn tracker_refreshes_only_on_a_new_block() {
    let config = IbcTrackerConfig::builder()
        .log_interval(7)
        .ibc_state(state_with(&["channel-1"], &[]))
        .build()
        .unwrap();
    let (mut tracker, first) = IbcTracker::new(config, "juno-1".to_string());
    assert_eq!(first, TrackerAction::QueryHeight);
    assert_eq!(tracker.phase, TrackerPhase::AwaitingBaseline);
    assert!(tracker.is_polling());

    // the first height is where tracking starts
    let step = tracker.cron_log(TrackerEvent::Height(100));
    assert_eq!(step.action, TrackerAction::QueryHeight);
    assert!(step.entry.is_none());
    assert_eq!(tracker.last_height, 100);

    // no new block: wait
    let step = tracker.cron_log(TrackerEvent::Height(100));
    assert_eq!(step.action, TrackerAction::Sleep { seconds: 7 });
    assert_eq!(tracker.phase, TrackerPhase::Idle);
    assert!(!tracker.is_polling());
    let step = tracker.cron_log(TrackerEvent::Tick);
    assert_eq!(step.action, TrackerAction::QueryHeight);

    // a new block, the state is the same: nothing is logged
    let step = tracker.cron_log(TrackerEvent::Height(101));
    assert_eq!(step.action, TrackerAction::Refresh);
    assert_eq!(tracker.phase, TrackerPhase::Refreshing { height: 101 });
    assert_eq!(tracker.last_height, 100);
    let step = tracker.cron_log(TrackerEvent::Refreshed(state_with(&["channel-1"], &[])));
    assert_eq!(step.action, TrackerAction::Sleep { seconds: 7 });
    assert!(step.entry.is_none());
    assert_eq!(tracker.last_height, 101);

    // a new block with another channel: one entry with the channel
    tracker.cron_log(TrackerEvent::Tick);
    tracker.cron_log(TrackerEvent::Height(105));
    let step =
        tracker.cron_log(TrackerEvent::Refreshed(state_with(&["channel-1", "channel-2"], &[])));
    let entry = step.entry.unwrap();
    assert_eq!(entry.target, "juno-1");
    assert_eq!(
        entry.message,
        "Update diff: new_channel(s): {\n    \"channel-2\",\n}received_packet(s): {\n    \"channel-2\": {},\n}acknowledged_packet(s): {\n    \"channel-2\": {},\n}"
    );
    assert_eq!(tracker.last_height, 105);
    assert_eq!(tracker.state.channel_ids.to_vec(), vec!["channel-1", "channel-2"]);

    // a height below the last one asks for nothing
    tracker.cron_log(TrackerEvent::Tick);
    let step = tracker.cron_log(TrackerEvent::Height(104));
    assert_eq!(step.action, TrackerAction::Sleep { seconds: 7 });
    assert_eq!(tracker.last_height, 105);
}

#[test]
fn tracker_ignores_what_it_did_not_ask_for() {
    let config = IbcTrackerConfig::builder()
        .ibc_state(CwIbcContractState::new("connection-0", "wasm.abc"))
        .build()
        .unwrap();
    let (mut tracker, _) = IbcTracker::new(config, "juno-1".to_string());
    let step = tracker.cron_log(TrackerEvent::Tick);
    assert_eq!(step.action, TrackerAction::QueryHeight);
    assert_eq!(tracker.phase, TrackerPhase::AwaitingBaseline);
    let step = tracker.cron_log(TrackerEvent::Refreshed(state_with(&["channel-1"], &[])));
    assert_eq!(step.action, TrackerAction::QueryHeight);
    assert!(step.entry.is_none());
    assert!(tracker.state.channel_ids.is_empty());
    tracker.cron_log(TrackerEvent::Height(5));
    tracker.cron_log(TrackerEvent::Height(5));
    let step = tracker.cron_log(TrackerEvent::Height(9));
    assert_eq!(step.action, TrackerAction::Sleep { seconds: 4 });
    assert_eq!(tracker.phase, TrackerPhase::Idle);
    assert_eq!(tracker.last_height, 5);
}

#[test]
fn text_sets() {
    let mut set = TextSet::new();
    assert!(set.is_empty());
    assert!(set.insert("b".to_string()));
    assert!(set.insert("a".to_string()));
    assert!(!set.insert("b".to_string()));
    assert!(set.contains("a"));
    assert!(!set.contains("c"));
    assert!(!set.is_empty());
    assert_eq!(set.to_vec(), vec!["b", "a"]);
    let mut other = TextSet::new();
    other.insert("a".to_string());
    assert!(other.is_subset_of(&set));
    assert!(!set.is_subset_of(&other));
    assert!(!set.same(&other));
    assert_eq!(set.difference(&other).to_vec(), vec!["b"]);
    assert!(other.difference(&set).is_empty());
    other.insert("b".to_string());
    assert!(set.same(&other));
    assert_eq!(set.clone().to_vec(), vec!["b", "a"]);
    assert!(set.remove("b"));
    assert!(!set.remove("b"));
    assert_eq!(set.to_vec(), vec!["a"]);
    let mut target = TextSet::new();
    target.insert("c".to_string());
    target.insert("a".to_string());
    let mut start = TextSet::new();
    start.insert("a".to_string());
    start.insert("b".to_string());
    let diff = start.diff(&target);
    assert_eq!(diff.added.to_vec(), vec!["c"]);
    assert_eq!(diff.removed.to_vec(), vec!["b"]);
    start.apply(&diff);
    assert!(start.same(&target));
    assert_eq!(start.to_vec(), vec!["a", "c"]);
}

#[test]
fn sequence_sets() {
    let set = SequenceSet::from_vec(&vec![3, 1, 3, 2, 1]);
    assert_eq!(set.to_vec(), vec![3, 1, 2]);
    assert!(set.contains(2));
    assert!(!set.contains(4));
    let other = SequenceSet::from_vec(&vec![1, 2, 3]);
    assert!(set.same(&other));
    assert!(set.is_subset_of(&other));
    let smaller = SequenceSet::from_vec(&vec![1]);
    assert_eq!(set.difference(&smaller).to_vec(), vec![3, 2]);
    assert!(smaller.difference(&set).is_empty());
    assert!(SequenceSet::new().is_empty());
    let mut grown = smaller.clone();
    assert!(grown.insert(5));
    assert!(!grown.insert(5));
    assert_eq!(grown.to_vec(), vec![1, 5]);
    assert!(grown.remove(1));
    assert!(!grown.remove(1));
    assert_eq!(grown.to_vec(), vec![5]);
    let diff = set.diff(&grown);
    assert_eq!(diff.added.to_vec(), vec![5]);
    assert_eq!(diff.removed.to_vec(), vec![3, 1, 2]);
    let mut rebuilt = set.clone();
    rebuilt.apply(&diff);
    assert!(rebuilt.same(&grown));
}

#[test]
fn packet_maps() {
    let mut map = PacketMap::new();
    assert!(map.is_empty());
    map.insert("channel-1".to_string(), SequenceSet::from_vec(&vec![1, 2]));
    map.insert("channel-2".to_string(), SequenceSet::from_vec(&vec![7]));
    map.insert("channel-1".to_string(), SequenceSet::from_vec(&vec![3]));
    assert!(map.contains_key("channel-2"));
    assert!(!map.contains_key("channel-3"));
    assert_eq!(map.get("channel-1").unwrap().to_vec(), vec![3]);
    assert_eq!(
        map.to_vec(),
        vec![("channel-1".to_string(), vec![3]), ("channel-2".to_string(), vec![7])]
    );
    let mut old = PacketMap::new();
    old.insert("channel-2".to_string(), SequenceSet::from_vec(&vec![7]));
    old.insert("channel-9".to_string(), SequenceSet::from_vec(&vec![1]));
    let diff = old.diff(&map);
    assert_eq!(diff.removed.to_vec(), vec!["channel-9"]);
    assert_eq!(diff.altered.keys(), vec!["channel-1"]);
    assert_eq!(diff.altered.get("channel-1").unwrap().added.to_vec(), vec![3]);
    let mut shown = PacketMap::new();
    shown.apply(&diff);
    assert_eq!(shown.to_vec(), vec![("channel-1".to_string(), vec![3])]);
    let mut rebuilt = old.clone();
    rebuilt.apply(&diff);
    assert!(rebuilt.same(&map));
    assert!(map.diff(&map.clone()).altered.keys().is_empty());
    map.remove("channel-2");
    map.remove("channel-7");
    assert_eq!(map.keys(), vec!["channel-1"]);
    assert!(!map.same(&old));
    assert!(map.same(&map.clone()));
}

#[test]
fn packets_by_channel() {
    let answers = vec![packets("a", &[1, 2]), packets("b", &[5]), packets("a", &[2, 9])];
    assert_eq!(sequences_for(&answers, "a").to_vec(), vec![1, 2, 9]);
    assert!(sequences_for(&answers, "c").is_empty());
    let mut channels = TextSet::new();
    channels.insert("b".to_string());
    channels.insert("c".to_string());
    assert_eq!(
        packets_of(&channels, &answers).to_vec(),
        vec![("b".to_string(), vec![5]), ("c".to_string(), vec![])]
    );
}

#[test]
fn renderings() {
    assert_eq!(decimal_text(0), "0");
    assert_eq!(decimal_text(7), "7");
    assert_eq!(decimal_text(10), "10");
    assert_eq!(decimal_text(1203), "1203");
    assert_eq!(decimal_text(u64::MAX), "18446744073709551615");
    assert_eq!(render_text_set(&vec![]), "{}");
    assert_eq!(
        render_text_set(&vec!["channel-0".to_string(), "channel-1".to_string()]),
        "{\n    \"channel-0\",\n    \"channel-1\",\n}"
    );
    assert_eq!(render_packet_map(&vec![]), "{}");
    assert_eq!(
        render_packet_map(&vec![
            ("channel-0".to_string(), vec![1, 20]),
            ("channel-1".to_string(), vec![]),
        ]),
        "{\n    \"channel-0\": {\n        1,\n        20,\n    },\n    \"channel-1\": {},\n}"
    );
}
