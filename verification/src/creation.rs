//! Finding the handshake of a channel that was created after a known one.
//!
//! Both ends are polled: the source chain for the latest handshake
//! acknowledgement, the destination chain for the latest confirmation. A pair
//! counts as new where neither transaction is the one of the baseline. The
//! polls and the waits between them are the caller's to run.

use crate::error::{DaemonError, DaemonErrorView};
use crate::interchain_channel::{
    tx_views, InterchainChannel, InterchainChannelView, TxQuery, TxQueryView,
};
use crate::text::opt_text;
use crate::tx_resp::{CosmTxResponse, TxResponseView};
use vstd::prelude::*;

verus! {

/// How often both ends are polled before the search gives up.
pub const MAX_CREATION_POLLS: u64 = 5;

/// How long the caller waits after a poll that found nothing new, in seconds.
pub const CREATION_RETRY_SECONDS: u64 = 10;

/// Where the search stands.
#[derive(Clone, Copy, PartialEq, Eq, Structural, Debug)]
pub enum CreationState {
    /// Nothing was asked yet.
    Start,
    /// Poll number `attempt` is out.
    Polling { attempt: u64 },
    /// Poll number `attempt` found nothing new and the caller is waiting.
    Sleeping { attempt: u64 },
    /// A new pair was found, or the search failed.
    Finished,
}

/// What happened since the last step.
#[derive(Debug, PartialEq, Eq)]
pub enum CreationEvent {
    /// The caller starts.
    Begin,
    /// Both queries answered, latest transaction first.
    Polled { ack: Vec<CosmTxResponse>, confirm: Vec<CosmTxResponse> },
    /// The wait is over.
    Slept,
    /// One of the two queries failed.
    QueryFailed(String),
}

/// What the caller is to do next.
#[derive(Debug, PartialEq, Eq)]
pub enum CreationAction {
    /// Run both queries and come back with their answers.
    Poll { ack: TxQuery, confirm: TxQuery },
    /// Wait this long and come back.
    Sleep { seconds: u64 },
    /// The handshake of a new channel: its acknowledgement and confirmation.
    Found(CosmTxResponse, CosmTxResponse),
    /// The search failed.
    Fail(DaemonError),
}

pub enum CreationEventView {
    Begin,
    Polled { ack: Seq<TxResponseView>, confirm: Seq<TxResponseView> },
    Slept,
    QueryFailed(Seq<char>),
}

pub enum CreationActionView {
    Poll { ack: TxQueryView, confirm: TxQueryView },
    Sleep { seconds: u64 },
    Found(TxResponseView, TxResponseView),
    Fail(DaemonErrorView),
}

impl View for CreationEvent {
    type V = CreationEventView;

    open spec fn view(&self) -> CreationEventView {
        match self {
            CreationEvent::Begin => CreationEventView::Begin,
            CreationEvent::Polled { ack, confirm } => CreationEventView::Polled {
                ack: tx_views(ack@),
                confirm: tx_views(confirm@),
            },
            CreationEvent::Slept => CreationEventView::Slept,
            CreationEvent::QueryFailed(m) => CreationEventView::QueryFailed(m@),
        }
    }
}

impl View for CreationAction {
    type V = CreationActionView;

    open spec fn view(&self) -> CreationActionView {
        match self {
            CreationAction::Poll { ack, confirm } => CreationActionView::Poll {
                ack: ack@,
                confirm: confirm@,
            },
            CreationAction::Sleep { seconds } => CreationActionView::Sleep { seconds: *seconds },
            CreationAction::Found(ack, confirm) => CreationActionView::Found(ack@, confirm@),
            CreationAction::Fail(e) => CreationActionView::Fail(e@),
        }
    }
}

/// The hashes of the last handshake that is already known.
pub type Baseline = (Option<Seq<char>>, Option<Seq<char>>);

/// The view of a baseline.
pub open spec fn baseline_view(hashes: (Option<String>, Option<String>)) -> Baseline {
    (opt_text(hashes.0), opt_text(hashes.1))
}

/// The hash that a transaction is compared with: an absent one counts as the
/// empty hash.
pub open spec fn baseline_hash(hash: Option<Seq<char>>) -> Seq<char> {
    match hash {
        Some(h) => h,
        None => Seq::empty(),
    }
}

/// The latest transaction of an answer that comes latest first.
pub open spec fn latest(found: Seq<TxResponseView>) -> Option<TxResponseView> {
    if found.len() > 0 {
        Some(found[0])
    } else {
        None
    }
}

/// The handshake that a poll shows as new: both transactions exist and
/// neither is the one of the baseline.
pub open spec fn new_creation(
    ack: Seq<TxResponseView>,
    confirm: Seq<TxResponseView>,
    baseline: Baseline,
) -> Option<(TxResponseView, TxResponseView)> {
    if ack.len() > 0 && confirm.len() > 0 && ack[0].txhash != baseline_hash(baseline.0)
        && confirm[0].txhash != baseline_hash(baseline.1) {
        Some((ack[0], confirm[0]))
    } else {
        None
    }
}

/// How an optional hash reads in a message.
pub open spec fn hash_label(hash: Option<Seq<char>>) -> Seq<char> {
    match hash {
        Some(h) => "Some(\""@ + h + "\")"@,
        None => "None"@,
    }
}

/// The message of a search that found nothing newer than the baseline.
pub open spec fn no_new_creation_message(baseline: Baseline) -> Seq<char> {
    "No new channel creation TX newer than (from_tx_hash: "@ + hash_label(baseline.0)
        + ") or (to_tx_hash: "@ + hash_label(baseline.1) + ") found"@
}

/// The message for an event that does not answer what was asked.
pub open spec fn unexpected_creation_event_message() -> Seq<char> {
    "The event does not answer what the last step asked for"@
}

/// One step of the search for a handshake newer than `baseline`.
///
/// Both ends are polled at most [`MAX_CREATION_POLLS`] times, with a wait of
/// [`CREATION_RETRY_SECONDS`] after each poll that shows nothing new. A query
/// that fails ends the search at once with that failure; polls that show
/// nothing new end it, after the last wait, with a failure of its own.
pub open spec fn creation_step(
    pair: InterchainChannelView,
    from: Seq<char>,
    baseline: Baseline,
    state: CreationState,
    event: CreationEventView,
) -> (CreationState, CreationActionView) {
    let ack_query = pair.creation_ack_query(from);
    let confirm_query = pair.creation_confirm_query(from);
    if ack_query is Err {
        (CreationState::Finished, CreationActionView::Fail(ack_query->Err_0))
    } else if confirm_query is Err {
        (CreationState::Finished, CreationActionView::Fail(confirm_query->Err_0))
    } else {
        let poll = CreationActionView::Poll { ack: ack_query->Ok_0, confirm: confirm_query->Ok_0 };
        match (state, event) {
            (CreationState::Start, CreationEventView::Begin) => (
                CreationState::Polling { attempt: 1 },
                poll,
            ),
            (
                CreationState::Polling { attempt },
                CreationEventView::Polled { ack, confirm },
            ) => match new_creation(ack, confirm, baseline) {
                Some(found) => (
                    CreationState::Finished,
                    CreationActionView::Found(found.0, found.1),
                ),
                None => (
                    CreationState::Sleeping { attempt },
                    CreationActionView::Sleep { seconds: CREATION_RETRY_SECONDS },
                ),
            },
            (CreationState::Polling { attempt }, CreationEventView::QueryFailed(m)) => (
                CreationState::Finished,
                CreationActionView::Fail(DaemonErrorView::QueryFailed(m)),
            ),
            (CreationState::Sleeping { attempt }, CreationEventView::Slept) => if attempt
                < MAX_CREATION_POLLS {
                (CreationState::Polling { attempt: (attempt + 1) as u64 }, poll)
            } else {
                (
                    CreationState::Finished,
                    CreationActionView::Fail(
                        DaemonErrorView::AnyError(no_new_creation_message(baseline)),
                    ),
                )
            },
            _ => (
                CreationState::Finished,
                CreationActionView::Fail(
                    DaemonErrorView::IbcError(unexpected_creation_event_message()),
                ),
            ),
        }
    }
}

/// Where the search stands after the caller has begun and has come back from
/// each of `polls` and from the wait after it.
pub open spec fn after_polls(
    pair: InterchainChannelView,
    from: Seq<char>,
    baseline: Baseline,
    polls: Seq<(Seq<TxResponseView>, Seq<TxResponseView>)>,
) -> (CreationState, CreationActionView)
    decreases polls.len(),
{
    if polls.len() == 0 {
        creation_step(pair, from, baseline, CreationState::Start, CreationEventView::Begin)
    } else {
        let before = after_polls(pair, from, baseline, polls.drop_last());
        let polled = creation_step(
            pair,
            from,
            baseline,
            before.0,
            CreationEventView::Polled { ack: polls.last().0, confirm: polls.last().1 },
        );
        if polled.1 is Sleep {
            creation_step(pair, from, baseline, polled.0, CreationEventView::Slept)
        } else {
            polled
        }
    }
}

fn label_hash(hash: &Option<String>) -> (r: String)
    ensures
        r@ == hash_label(opt_text(*hash)),
{
    match hash {
        Some(h) => {
            let mut s = String::from_str("Some(\"");
            s.append(h.as_str());
            s.append("\")");
            s
        },
        None => String::from_str("None"),
    }
}

fn no_new_creation(hashes: &(Option<String>, Option<String>)) -> (e: DaemonError)
    ensures
        e@ == DaemonErrorView::AnyError(no_new_creation_message(baseline_view(*hashes))),
{
    let mut s = String::from_str("No new channel creation TX newer than (from_tx_hash: ");
    let first = label_hash(&hashes.0);
    s.append(first.as_str());
    s.append(") or (to_tx_hash: ");
    let second = label_hash(&hashes.1);
    s.append(second.as_str());
    s.append(") found");
    DaemonError::AnyError(s)
}

/// Whether `hash` differs from the baseline's.
fn differs_from(hash: &String, baseline: &Option<String>) -> (r: bool)
    ensures
        r == (hash@ != baseline_hash(opt_text(*baseline))),
{
    match baseline {
        Some(b) => !(*hash == *b),
        None => {
            assert(hash@.len() == 0 ==> hash@ =~= Seq::<char>::empty());
            hash.as_str().unicode_len() != 0
        },
    }
}

/// The latest transaction of an answer that comes latest first.
pub fn latest_tx(found: &Vec<CosmTxResponse>) -> (r: Option<CosmTxResponse>)
    ensures
        match r {
            Some(tx) => latest(tx_views(found@)) == Some(tx@),
            None => latest(tx_views(found@)) is None,
        },
{
    if found.len() > 0 {
        Some(found[0].clone())
    } else {
        None
    }
}

/// The handshake that a poll shows as new against the baseline `hashes`.
pub fn find_new_creation(
    ack: &Vec<CosmTxResponse>,
    confirm: &Vec<CosmTxResponse>,
    hashes: &(Option<String>, Option<String>),
) -> (r: Option<(CosmTxResponse, CosmTxResponse)>)
    ensures
        match r {
            Some(found) => new_creation(tx_views(ack@), tx_views(confirm@), baseline_view(*hashes))
                == Some((found.0@, found.1@)),
            None => new_creation(tx_views(ack@), tx_views(confirm@), baseline_view(*hashes))
                is None,
        },
{
    if ack.len() > 0 && confirm.len() > 0 {
        if differs_from(&ack[0].txhash, &hashes.0) && differs_from(&confirm[0].txhash, &hashes.1) {
            return Some((ack[0].clone(), confirm[0].clone()));
        }
    }
    None
}

fn unexpected_event() -> (r: (CreationState, CreationAction))
    ensures
        r.0 == CreationState::Finished,
        r.1@ == CreationActionView::Fail(
            DaemonErrorView::IbcError(unexpected_creation_event_message()),
        ),
{
    (
        CreationState::Finished,
        CreationAction::Fail(
            DaemonError::ibc_err(
                "The event does not answer what the last step asked for".to_owned(),
            ),
        ),
    )
}

impl InterchainChannel {
    /// The latest handshake acknowledgement and confirmation, given what the
    /// queries of [`Self::get_channel_creation_ack`] and
    /// [`Self::get_channel_creation_confirm`] matched.
    pub fn get_last_channel_creation(
        &self,
        from: String,
        ack: &Vec<CosmTxResponse>,
        confirm: &Vec<CosmTxResponse>,
    ) -> (r: Result<(Option<CosmTxResponse>, Option<CosmTxResponse>), DaemonError>)
        ensures
            match r {
                Ok(last) => self@.ordered_ports(from@) is Some && (match last.0 {
                    Some(tx) => latest(tx_views(ack@)) == Some(tx@),
                    None => latest(tx_views(ack@)) is None,
                }) && (match last.1 {
                    Some(tx) => latest(tx_views(confirm@)) == Some(tx@),
                    None => latest(tx_views(confirm@)) is None,
                }),
                Err(e) => self@.ordered_ports(from@) is None && e@ == self@.unknown_chain(from@),
            },
    {
        match self.get_ordered_ports_from(from) {
            Err(e) => Err(e),
            Ok(_) => Ok((latest_tx(ack), latest_tx(confirm))),
        }
    }

    /// The hashes of the latest handshake acknowledgement and confirmation.
    pub fn get_last_channel_creation_hash(
        &self,
        from: String,
        ack: &Vec<CosmTxResponse>,
        confirm: &Vec<CosmTxResponse>,
    ) -> (r: Result<(Option<String>, Option<String>), DaemonError>)
        ensures
            match r {
                Ok(hashes) => self@.ordered_ports(from@) is Some && (match hashes.0 {
                    Some(h) => ack@.len() > 0 && h@ == ack@[0]@.txhash,
                    None => ack@.len() == 0,
                }) && (match hashes.1 {
                    Some(h) => confirm@.len() > 0 && h@ == confirm@[0]@.txhash,
                    None => confirm@.len() == 0,
                }),
                Err(e) => self@.ordered_ports(from@) is None && e@ == self@.unknown_chain(from@),
            },
    {
        match self.get_last_channel_creation(from, ack, confirm) {
            Err(e) => Err(e),
            Ok((a, c)) => {
                let first = match a {
                    Some(tx) => Some(tx.txhash),
                    None => None,
                };
                let second = match c {
                    Some(tx) => Some(tx.txhash),
                    None => None,
                };
                Ok((first, second))
            },
        }
    }

    /// One step of the search for a channel handshake newer than the one
    /// with the hashes `last_chain_creation_hashes`.
    ///
    /// The caller starts with [`CreationState::Start`] and
    /// [`CreationEvent::Begin`], does what it is handed, and comes back until it
    /// is handed [`CreationAction::Found`] or [`CreationAction::Fail`].
    pub fn find_new_channel_creation_tx(
        &self,
        from: String,
        last_chain_creation_hashes: &(Option<String>, Option<String>),
        state: CreationState,
        event: CreationEvent,
    ) -> (r: (CreationState, CreationAction))
        ensures
            (r.0, r.1@) == creation_step(
                self@,
                from@,
                baseline_view(*last_chain_creation_hashes),
                state,
                event@,
            ),
    {
        let ack_query = match self.get_channel_creation_ack(from.clone()) {
            Ok(q) => q,
            Err(e) => { return (CreationState::Finished, CreationAction::Fail(e)); },
        };
        let confirm_query = match self.get_channel_creation_confirm(from) {
            Ok(q) => q,
            Err(e) => { return (CreationState::Finished, CreationAction::Fail(e)); },
        };
        match (state, event) {
            (CreationState::Start, CreationEvent::Begin) => (
                CreationState::Polling { attempt: 1 },
                CreationAction::Poll { ack: ack_query, confirm: confirm_query },
            ),
            (CreationState::Polling { attempt }, CreationEvent::Polled { ack, confirm }) => {
                match find_new_creation(&ack, &confirm, last_chain_creation_hashes) {
                    Some((a, c)) => (CreationState::Finished, CreationAction::Found(a, c)),
                    None => (
                        CreationState::Sleeping { attempt },
                        CreationAction::Sleep { seconds: CREATION_RETRY_SECONDS },
                    ),
                }
            },
            (CreationState::Polling { attempt }, CreationEvent::QueryFailed(m)) => (
                CreationState::Finished,
                CreationAction::Fail(DaemonError::QueryFailed(m)),
            ),
            (CreationState::Sleeping { attempt }, CreationEvent::Slept) => {
                if attempt < MAX_CREATION_POLLS {
                    (
                        CreationState::Polling { attempt: attempt + 1 },
                        CreationAction::Poll { ack: ack_query, confirm: confirm_query },
                    )
                } else {
                    (
                        CreationState::Finished,
                        CreationAction::Fail(no_new_creation(last_chain_creation_hashes)),
                    )
                }
            },
            _ => unexpected_event(),
        }
    }
}

/// Against an empty baseline, a poll shows a new handshake exactly where both
/// queries matched and both latest transactions carry a hash.
pub proof fn lemma_first_creation_is_new(ack: Seq<TxResponseView>, confirm: Seq<TxResponseView>)
    ensures
        new_creation(ack, confirm, (None, None)) is Some <==> (ack.len() > 0 && confirm.len() > 0
            && ack[0].txhash.len() > 0 && confirm[0].txhash.len() > 0),
        new_creation(ack, confirm, (None, None)) is Some ==> new_creation(
            ack,
            confirm,
            (None, None),
        ) == Some((ack[0], confirm[0])),
{
    assert(ack.len() > 0 && ack[0].txhash.len() == 0 ==> ack[0].txhash =~= Seq::empty());
    assert(confirm.len() > 0 && confirm[0].txhash.len() == 0 ==> confirm[0].txhash
        =~= Seq::empty());
}

/// A poll that shows the handshake of the baseline again shows nothing new.
pub proof fn lemma_known_creation_is_not_new(
    ack: Seq<TxResponseView>,
    confirm: Seq<TxResponseView>,
)
    requires
        ack.len() > 0,
        confirm.len() > 0,
    ensures
        new_creation(ack, confirm, (Some(ack[0].txhash), Some(confirm[0].txhash))) is None,
{
}

/// While every poll shows nothing new, the search polls again after each
/// wait, up to the fifth poll; after the wait that follows the fifth it fails
/// with the message that nothing newer than the baseline was found. It never
/// polls a sixth time.
pub proof fn lemma_search_gives_up_after_five_polls(
    pair: InterchainChannelView,
    from: Seq<char>,
    baseline: Baseline,
    polls: Seq<(Seq<TxResponseView>, Seq<TxResponseView>)>,
)
    requires
        pair.ordered_ports(from) is Some,
        polls.len() <= MAX_CREATION_POLLS,
        forall|i: int| 0 <= i < polls.len() ==> new_creation(polls[i].0, polls[i].1, baseline) is None,
    ensures
        polls.len() < MAX_CREATION_POLLS ==> after_polls(pair, from, baseline, polls) == (
            CreationState::Polling { attempt: (polls.len() + 1) as u64 },
            CreationActionView::Poll {
                ack: pair.creation_ack_query(from)->Ok_0,
                confirm: pair.creation_confirm_query(from)->Ok_0,
            },
        ),
        polls.len() == MAX_CREATION_POLLS ==> after_polls(pair, from, baseline, polls) == (
            CreationState::Finished,
            CreationActionView::Fail(DaemonErrorView::AnyError(no_new_creation_message(baseline))),
        ),
    decreases polls.len(),
{
    if polls.len() > 0 {
        let before = polls.drop_last();
        assert forall|i: int| 0 <= i < before.len() implies new_creation(
            before[i].0,
            before[i].1,
            baseline,
        ) is None by {
            assert(before[i] == polls[i]);
        }
        lemma_search_gives_up_after_five_polls(pair, from, baseline, before);
        assert(new_creation(polls.last().0, polls.last().1, baseline) is None);
    }
}

/// A query that fails ends the search at once, with that failure and without
/// another poll.
pub proof fn lemma_failed_query_ends_search(
    pair: InterchainChannelView,
    from: Seq<char>,
    baseline: Baseline,
    attempt: u64,
    report: Seq<char>,
)
    requires
        pair.ordered_ports(from) is Some,
    ensures
        creation_step(
            pair,
            from,
            baseline,
            CreationState::Polling { attempt },
            CreationEventView::QueryFailed(report),
        ) == (
            CreationState::Finished,
            CreationActionView::Fail(DaemonErrorView::QueryFailed(report)),
        ),
{
}

} // verus!
