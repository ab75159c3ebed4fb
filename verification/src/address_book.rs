//! Taking the contracts of a deployment over into the address book.
//!
//! The contracts are read from the state of a deployment; each is entered
//! under an alias. Where an alias is already taken the user decides what
//! becomes of it, once or for all that follow. Asking the user and reading
//! and writing the address book are the caller's part: each step says what to
//! ask or to do next.

use crate::json::{
    clone_members, get_member_text, json_document, member_text, member_views, object_members,
    JsonDocument, JsonDocumentView, JsonMember, JsonMemberView, JsonValue,
};
use crate::text::same_text;
use vstd::prelude::*;

verus! {

/// How the contracts of a deployment are named in the address book.
#[derive(Debug, Clone, Copy, PartialEq, Eq, Structural)]
pub enum AliasNameStrategy {
    /// Keep contract ids as name aliases
    Keep,
    /// Give prompt to rename aliases
    Rename,
}

/// The naming strategies, as a selection shows them.
#[derive(Debug, Clone, Copy, PartialEq, Eq, Structural)]
pub enum AliasNameStrategyDiscriminants {
    Keep,
    Rename,
}

/// What becomes of a contract whose alias is already taken.
#[derive(Debug, Clone, Copy, PartialEq, Eq, Structural)]
pub enum DuplicateResolve {
    Rename,
    Skip,
    Override,
    SkipAll,
    OverrideAll,
}

/// The ways to resolve a duplicate, as a selection shows them.
#[derive(Debug, Clone, Copy, PartialEq, Eq, Structural)]
pub enum DuplicateResolveDiscriminants {
    Rename,
    Skip,
    Override,
    SkipAll,
    OverrideAll,
}

/// What to fetch: the deployment and how its contracts are named.
#[derive(Debug, PartialEq, Eq)]
pub struct FetchAddresses {
    /// Deployment id, none for the default one
    pub deployment_id: Option<String>,
    /// Alias names strategy
    pub name_strategy: AliasNameStrategy,
}

/// The fetch, once it is through.
#[derive(Debug, PartialEq, Eq)]
pub struct FetchAddressesOutput;

/// Why the contracts of a deployment could not be taken over.
#[derive(Debug, PartialEq, Eq)]
pub enum FetchError {
    /// The state is not JSON.
    NotJson,
    /// The state holds nothing under this path.
    StateEmpty(String),
    /// State file is corrupted
    StateFileDamaged,
    /// Asking the user or the address book failed; the text is the report.
    Interrupted(String),
    /// The event does not answer what the last step asked for.
    UnexpectedEvent,
}

pub enum FetchErrorView {
    NotJson,
    StateEmpty(Seq<char>),
    StateFileDamaged,
    Interrupted(Seq<char>),
    UnexpectedEvent,
}

impl View for FetchError {
    type V = FetchErrorView;

    open spec fn view(&self) -> FetchErrorView {
        match self {
            FetchError::NotJson => FetchErrorView::NotJson,
            FetchError::StateEmpty(path) => FetchErrorView::StateEmpty(path@),
            FetchError::StateFileDamaged => FetchErrorView::StateFileDamaged,
            FetchError::Interrupted(report) => FetchErrorView::Interrupted(report@),
            FetchError::UnexpectedEvent => FetchErrorView::UnexpectedEvent,
        }
    }
}

/// The deployment that is fetched where none is named.
pub open spec fn default_deployment() -> Seq<char> {
    "default"@
}

/// The strategy that a command-line word names.
pub open spec fn strategy_named(word: Seq<char>) -> Option<AliasNameStrategy> {
    if word == "keep"@ {
        Some(AliasNameStrategy::Keep)
    } else if word == "rename"@ {
        Some(AliasNameStrategy::Rename)
    } else {
        None
    }
}

/// The path of a part of the state, as a message names it.
pub open spec fn state_path(parts: Seq<Seq<char>>) -> Seq<char>
    decreases parts.len(),
{
    if parts.len() == 0 {
        Seq::empty()
    } else if parts.len() == 1 {
        parts[0]
    } else {
        state_path(parts.drop_last()) + "."@ + parts.last()
    }
}

/// The part of a state document under `key`: the member's own document.
pub open spec fn state_part(doc: JsonDocumentView, key: Seq<char>) -> Option<JsonDocumentView> {
    match member_text(doc, key) {
        Some(text) => json_document(text),
        None => None,
    }
}

/// The contracts of a deployment as its state lists them: the members of
/// the object under the chain's name, the chain's identifier and the
/// deployment.
pub open spec fn deployment_members(
    state: Seq<char>,
    chain_name: Seq<char>,
    chain_id: Seq<char>,
    deployment_id: Seq<char>,
) -> Result<Seq<JsonMemberView>, FetchErrorView> {
    match json_document(state) {
        None => Err(FetchErrorView::NotJson),
        Some(doc) => match state_part(doc, chain_name) {
            None => Err(FetchErrorView::StateEmpty(state_path(seq![chain_name]))),
            Some(chain) => match state_part(chain, chain_id) {
                None => Err(FetchErrorView::StateEmpty(state_path(seq![chain_name, chain_id]))),
                Some(network) => match state_part(network, deployment_id) {
                    None => Err(
                        FetchErrorView::StateEmpty(
                            state_path(seq![chain_name, chain_id, deployment_id]),
                        ),
                    ),
                    Some(deployment) => match object_members(deployment) {
                        None => Err(FetchErrorView::StateFileDamaged),
                        Some(members) => Ok(members),
                    },
                },
            },
        },
    }
}

/// The part of a state document under `key`, given what the member's text
/// parsed to.
fn get_state_part(doc: &JsonDocument, key: &str) -> (r: Option<JsonDocument>)
    ensures
        match r {
            Some(part) => state_part(doc@, key@) == Some(part@),
            None => state_part(doc@, key@) is None,
        },
{
    match get_member_text(doc, key) {
        Some(text) => JsonDocument::parse(text.as_str()),
        None => None,
    }
}

fn join_path(head: &str, tail: &str) -> (r: String)
    ensures
        r@ == head@ + "."@ + tail@,
{
    let mut s = head.to_owned();
    s.append(".");
    s.append(tail);
    s
}

/// The contracts of a deployment as its state lists them.
pub fn deployment_contracts(
    state: &str,
    chain_name: &str,
    chain_id: &str,
    deployment_id: &str,
) -> (r: Result<Vec<JsonMember>, FetchError>)
    ensures
        match r {
            Ok(members) => deployment_members(state@, chain_name@, chain_id@, deployment_id@)
                == Ok::<Seq<JsonMemberView>, FetchErrorView>(member_views(members@)),
            Err(e) => deployment_members(state@, chain_name@, chain_id@, deployment_id@)
                == Err::<Seq<JsonMemberView>, FetchErrorView>(e@),
        },
{
    proof {
        reveal_with_fuel(state_path, 4);
        assert(seq![chain_name@, chain_id@].drop_last() =~= seq![chain_name@]);
        assert(seq![chain_name@, chain_id@, deployment_id@].drop_last() =~= seq![
            chain_name@,
            chain_id@,
        ]);
    }
    let doc = match JsonDocument::parse(state) {
        Some(doc) => doc,
        None => { return Err(FetchError::NotJson); },
    };
    let chain = match get_state_part(&doc, chain_name) {
        Some(part) => part,
        None => { return Err(FetchError::StateEmpty(chain_name.to_owned())); },
    };
    let network = match get_state_part(&chain, chain_id) {
        Some(part) => part,
        None => { return Err(FetchError::StateEmpty(join_path(chain_name, chain_id))); },
    };
    let deployment = match get_state_part(&network, deployment_id) {
        Some(part) => part,
        None => {
            let path = join_path(chain_name, chain_id);
            return Err(FetchError::StateEmpty(join_path(path.as_str(), deployment_id)));
        },
    };
    match &deployment.value {
        JsonValue::Object(members) => Ok(clone_members(members)),
        _ => Err(FetchError::StateFileDamaged),
    }
}

impl AliasNameStrategy {
    /// The strategy that a command-line word names.
    pub fn from_str(s: &str) -> (r: Result<AliasNameStrategy, String>)
        ensures
            match r {
                Ok(strategy) => strategy_named(s@) == Some(strategy),
                Err(e) => strategy_named(s@) is None && e@
                    == "AliasNameStrategy: incorrect alias name strategy"@,
            },
    {
        if same_text(s, "keep") {
            Ok(AliasNameStrategy::Keep)
        } else if same_text(s, "rename") {
            Ok(AliasNameStrategy::Rename)
        } else {
            Err("AliasNameStrategy: incorrect alias name strategy".to_owned())
        }
    }

    /// The command-line word of the strategy.
    pub fn to_string(&self) -> (r: String)
        ensures
            strategy_named(r@) == Some(*self),
            r@ == (match self {
                AliasNameStrategy::Keep => "keep"@,
                AliasNameStrategy::Rename => "rename"@,
            }),
    {
        proof {
            reveal_strlit("keep");
            reveal_strlit("rename");
            assert("keep"@.len() == 4 && "rename"@.len() == 6);
        }
        match self {
            AliasNameStrategy::Keep => "keep".to_owned(),
            AliasNameStrategy::Rename => "rename".to_owned(),
        }
    }
}

impl AliasNameStrategyDiscriminants {
    /// The strategies in the order in which a selection lists them.
    pub fn iter() -> (r: Vec<AliasNameStrategyDiscriminants>)
        ensures
            r@ == seq![AliasNameStrategyDiscriminants::Keep, AliasNameStrategyDiscriminants::Rename],
    {
        let mut v: Vec<AliasNameStrategyDiscriminants> = Vec::new();
        v.push(AliasNameStrategyDiscriminants::Keep);
        v.push(AliasNameStrategyDiscriminants::Rename);
        v
    }

    /// The name that a selection shows.
    pub fn to_string(&self) -> (r: String)
        ensures
            r@ == (match self {
                AliasNameStrategyDiscriminants::Keep => "Keep"@,
                AliasNameStrategyDiscriminants::Rename => "Rename"@,
            }),
    {
        match self {
            AliasNameStrategyDiscriminants::Keep => "Keep".to_owned(),
            AliasNameStrategyDiscriminants::Rename => "Rename".to_owned(),
        }
    }

    /// The explanation that a selection shows.
    pub fn get_message(&self) -> (r: String)
        ensures
            r@ == (match self {
                AliasNameStrategyDiscriminants::Keep => "Keep contract ids as name aliases"@,
                AliasNameStrategyDiscriminants::Rename => "Give prompt to rename aliases"@,
            }),
    {
        match self {
            AliasNameStrategyDiscriminants::Keep => "Keep contract ids as name aliases".to_owned(),
            AliasNameStrategyDiscriminants::Rename => "Give prompt to rename aliases".to_owned(),
        }
    }
}

impl DuplicateResolve {
    /// The name of the choice.
    pub fn to_string(&self) -> (r: String)
        ensures
            r@ == (match self {
                DuplicateResolve::Rename => "Rename"@,
                DuplicateResolve::Skip => "Skip"@,
                DuplicateResolve::Override => "Override"@,
                DuplicateResolve::SkipAll => "SkipAll"@,
                DuplicateResolve::OverrideAll => "OverrideAll"@,
            }),
    {
        match self {
            DuplicateResolve::Rename => "Rename".to_owned(),
            DuplicateResolve::Skip => "Skip".to_owned(),
            DuplicateResolve::Override => "Override".to_owned(),
            DuplicateResolve::SkipAll => "SkipAll".to_owned(),
            DuplicateResolve::OverrideAll => "OverrideAll".to_owned(),
        }
    }
}

impl DuplicateResolveDiscriminants {
    /// The choices in the order in which a selection lists them.
    pub fn iter() -> (r: Vec<DuplicateResolveDiscriminants>)
        ensures
            r@ == seq![
                DuplicateResolveDiscriminants::Rename,
                DuplicateResolveDiscriminants::Skip,
                DuplicateResolveDiscriminants::Override,
                DuplicateResolveDiscriminants::SkipAll,
                DuplicateResolveDiscriminants::OverrideAll,
            ],
    {
        let mut v: Vec<DuplicateResolveDiscriminants> = Vec::new();
        v.push(DuplicateResolveDiscriminants::Rename);
        v.push(DuplicateResolveDiscriminants::Skip);
        v.push(DuplicateResolveDiscriminants::Override);
        v.push(DuplicateResolveDiscriminants::SkipAll);
        v.push(DuplicateResolveDiscriminants::OverrideAll);
        v
    }

    /// The name that a selection shows.
    pub fn to_string(&self) -> (r: String)
        ensures
            r@ == (match self {
                DuplicateResolveDiscriminants::Rename => "Rename"@,
                DuplicateResolveDiscriminants::Skip => "Skip"@,
                DuplicateResolveDiscriminants::Override => "Override"@,
                DuplicateResolveDiscriminants::SkipAll => "Skip All"@,
                DuplicateResolveDiscriminants::OverrideAll => "Override All"@,
            }),
    {
        match self {
            DuplicateResolveDiscriminants::Rename => "Rename".to_owned(),
            DuplicateResolveDiscriminants::Skip => "Skip".to_owned(),
            DuplicateResolveDiscriminants::Override => "Override".to_owned(),
            DuplicateResolveDiscriminants::SkipAll => "Skip All".to_owned(),
            DuplicateResolveDiscriminants::OverrideAll => "Override All".to_owned(),
        }
    }

    /// The explanation that a selection shows.
    pub fn get_message(&self) -> (r: String)
        ensures
            r@ == (match self {
                DuplicateResolveDiscriminants::Rename => "Rename duplicate"@,
                DuplicateResolveDiscriminants::Skip => "Skip duplicate"@,
                DuplicateResolveDiscriminants::Override => "Override duplicate"@,
                DuplicateResolveDiscriminants::SkipAll => "Skip all duplicates"@,
                DuplicateResolveDiscriminants::OverrideAll => "Override all duplicates"@,
            }),
    {
        match self {
            DuplicateResolveDiscriminants::Rename => "Rename duplicate".to_owned(),
            DuplicateResolveDiscriminants::Skip => "Skip duplicate".to_owned(),
            DuplicateResolveDiscriminants::Override => "Override duplicate".to_owned(),
            DuplicateResolveDiscriminants::SkipAll => "Skip all duplicates".to_owned(),
            DuplicateResolveDiscriminants::OverrideAll => "Override all duplicates".to_owned(),
        }
    }
}

/// The choice that was selected for a duplicate.
pub fn input_duplicate_resolve(selected: DuplicateResolveDiscriminants) -> (r: DuplicateResolve)
    ensures
        r == (match selected {
            DuplicateResolveDiscriminants::Rename => DuplicateResolve::Rename,
            DuplicateResolveDiscriminants::Skip => DuplicateResolve::Skip,
            DuplicateResolveDiscriminants::Override => DuplicateResolve::Override,
            DuplicateResolveDiscriminants::SkipAll => DuplicateResolve::SkipAll,
            DuplicateResolveDiscriminants::OverrideAll => DuplicateResolve::OverrideAll,
        }),
{
    match selected {
        DuplicateResolveDiscriminants::Rename => DuplicateResolve::Rename,
        DuplicateResolveDiscriminants::Skip => DuplicateResolve::Skip,
        DuplicateResolveDiscriminants::Override => DuplicateResolve::Override,
        DuplicateResolveDiscriminants::SkipAll => DuplicateResolve::SkipAll,
        DuplicateResolveDiscriminants::OverrideAll => DuplicateResolve::OverrideAll,
    }
}

impl FetchAddresses {
    /// The naming strategy that was selected.
    pub fn input_name_strategy(selected: AliasNameStrategyDiscriminants) -> (r: Option<
        AliasNameStrategy,
    >)
        ensures
            r == Some(
                match selected {
                    AliasNameStrategyDiscriminants::Keep => AliasNameStrategy::Keep,
                    AliasNameStrategyDiscriminants::Rename => AliasNameStrategy::Rename,
                },
            ),
    {
        match selected {
            AliasNameStrategyDiscriminants::Keep => Some(AliasNameStrategy::Keep),
            AliasNameStrategyDiscriminants::Rename => Some(AliasNameStrategy::Rename),
        }
    }

    /// The deployment to fetch: the one that is named, else the default one.
    pub fn deployment(&self) -> (r: String)
        ensures
            r@ == (match self.deployment_id {
                Some(id) => id@,
                None => default_deployment(),
            }),
    {
        match &self.deployment_id {
            Some(id) => id.clone(),
            None => "default".to_owned(),
        }
    }
}

/// What the user has decided for all duplicates that follow.
#[derive(Debug, Clone, Copy, PartialEq, Eq, Structural)]
pub enum GlobalResolve {
    /// Nothing yet: each duplicate is asked about.
    Undecided,
    SkipAll,
    OverrideAll,
}

/// What the fetch is waiting for.
#[derive(Debug, Clone, Copy, PartialEq, Eq, Structural)]
pub enum FetchPhase {
    /// Nothing was asked yet.
    Start,
    /// The user was asked for the alias of the contract.
    AwaitingAlias,
    /// The address book was asked whether the alias is taken.
    AwaitingLookup,
    /// The alias is taken and the user was asked what to do.
    AwaitingResolve,
    /// The user was asked for another alias.
    AwaitingRename,
    /// The address book was asked whether the other alias is taken.
    AwaitingRenameLookup,
    /// The address book was told to enter the contract.
    AwaitingInsert,
    /// All contracts are through, or the fetch failed.
    Finished,
}

/// Where the fetch stands: the contract it is at, the alias in hand for it,
/// and what was decided for all duplicates.
#[derive(Debug, PartialEq, Eq)]
pub struct FetchState {
    pub index: usize,
    pub alias: String,
    pub global: GlobalResolve,
    pub phase: FetchPhase,
}

/// What happened since the last step.
#[derive(Debug, PartialEq, Eq)]
pub enum FetchEvent {
    /// The caller starts.
    Begin,
    /// The user entered this alias.
    Alias(String),
    /// Whether the address book holds the alias.
    Exists(bool),
    /// The user chose this for the duplicate.
    Resolve(DuplicateResolve),
    /// The address book has entered the contract.
    Inserted,
    /// Asking the user or the address book failed.
    Failed(String),
}

/// What the caller is to do next.
#[derive(Debug, PartialEq, Eq)]
pub enum FetchAction {
    /// Ask the user for an alias, offering the contract's id.
    AskAlias { contract_id: String },
    /// Ask the address book whether it holds the alias.
    LookUp { alias: String },
    /// Ask the user what to do with the duplicate.
    AskResolve { alias: String },
    /// Ask the user for another alias, offering the contract's id.
    AskRename { contract_id: String },
    /// Enter the address under the alias.
    Insert { alias: String, address: String },
    /// All contracts are through.
    Done,
    /// The fetch failed.
    Fail(FetchError),
}

pub struct FetchStateView {
    pub index: usize,
    pub alias: Seq<char>,
    pub global: GlobalResolve,
    pub phase: FetchPhase,
}

pub enum FetchEventView {
    Begin,
    Alias(Seq<char>),
    Exists(bool),
    Resolve(DuplicateResolve),
    Inserted,
    Failed(Seq<char>),
}

pub enum FetchActionView {
    AskAlias { contract_id: Seq<char> },
    LookUp { alias: Seq<char> },
    AskResolve { alias: Seq<char> },
    AskRename { contract_id: Seq<char> },
    Insert { alias: Seq<char>, address: Seq<char> },
    Done,
    Fail(FetchErrorView),
}

impl View for FetchState {
    type V = FetchStateView;

    open spec fn view(&self) -> FetchStateView {
        FetchStateView {
            index: self.index,
            alias: self.alias@,
            global: self.global,
            phase: self.phase,
        }
    }
}

impl View for FetchEvent {
    type V = FetchEventView;

    open spec fn view(&self) -> FetchEventView {
        match self {
            FetchEvent::Begin => FetchEventView::Begin,
            FetchEvent::Alias(a) => FetchEventView::Alias(a@),
            FetchEvent::Exists(b) => FetchEventView::Exists(*b),
            FetchEvent::Resolve(r) => FetchEventView::Resolve(*r),
            FetchEvent::Inserted => FetchEventView::Inserted,
            FetchEvent::Failed(m) => FetchEventView::Failed(m@),
        }
    }
}

impl View for FetchAction {
    type V = FetchActionView;

    open spec fn view(&self) -> FetchActionView {
        match self {
            FetchAction::AskAlias { contract_id } => FetchActionView::AskAlias {
                contract_id: contract_id@,
            },
            FetchAction::LookUp { alias } => FetchActionView::LookUp { alias: alias@ },
            FetchAction::AskResolve { alias } => FetchActionView::AskResolve { alias: alias@ },
            FetchAction::AskRename { contract_id } => FetchActionView::AskRename {
                contract_id: contract_id@,
            },
            FetchAction::Insert { alias, address } => FetchActionView::Insert {
                alias: alias@,
                address: address@,
            },
            FetchAction::Done => FetchActionView::Done,
            FetchAction::Fail(e) => FetchActionView::Fail(e@),
        }
    }
}

/// The end of the fetch with a failure.
pub open spec fn fetch_failed(state: FetchStateView, error: FetchErrorView) -> (
    FetchStateView,
    FetchActionView,
) {
    (FetchStateView { phase: FetchPhase::Finished, ..state }, FetchActionView::Fail(error))
}

/// Turning to the contract at `index`: the end where there is none, a
/// failure where its address is not a text, else the question for its alias,
/// which is its own id where ids are kept.
pub open spec fn turn_to(
    contracts: Seq<JsonMemberView>,
    strategy: AliasNameStrategy,
    global: GlobalResolve,
    index: int,
) -> (FetchStateView, FetchActionView) {
    if index >= contracts.len() {
        (
            FetchStateView {
                index: contracts.len() as usize,
                alias: Seq::empty(),
                global,
                phase: FetchPhase::Finished,
            },
            FetchActionView::Done,
        )
    } else if contracts[index].string is None {
        (
            FetchStateView {
                index: index as usize,
                alias: Seq::empty(),
                global,
                phase: FetchPhase::Finished,
            },
            FetchActionView::Fail(FetchErrorView::StateFileDamaged),
        )
    } else {
        match strategy {
            AliasNameStrategy::Keep => (
                FetchStateView {
                    index: index as usize,
                    alias: contracts[index].key,
                    global,
                    phase: FetchPhase::AwaitingLookup,
                },
                FetchActionView::LookUp { alias: contracts[index].key },
            ),
            AliasNameStrategy::Rename => (
                FetchStateView {
                    index: index as usize,
                    alias: Seq::empty(),
                    global,
                    phase: FetchPhase::AwaitingAlias,
                },
                FetchActionView::AskAlias { contract_id: contracts[index].key },
            ),
        }
    }
}

/// Entering the contract in hand under the alias in hand.
pub open spec fn enter(contracts: Seq<JsonMemberView>, state: FetchStateView) -> (
    FetchStateView,
    FetchActionView,
) {
    (
        FetchStateView { phase: FetchPhase::AwaitingInsert, ..state },
        FetchActionView::Insert {
            alias: state.alias,
            address: contracts[state.index as int].string->0,
        },
    )
}

/// What a choice for a duplicate leads to. A choice for all is kept for the
/// duplicates that follow.
pub open spec fn resolve_duplicate(
    contracts: Seq<JsonMemberView>,
    strategy: AliasNameStrategy,
    state: FetchStateView,
    choice: DuplicateResolve,
) -> (FetchStateView, FetchActionView) {
    match choice {
        DuplicateResolve::Rename => (
            FetchStateView { phase: FetchPhase::AwaitingRename, ..state },
            FetchActionView::AskRename { contract_id: contracts[state.index as int].key },
        ),
        DuplicateResolve::Skip => turn_to(contracts, strategy, state.global, state.index + 1),
        DuplicateResolve::SkipAll => turn_to(
            contracts,
            strategy,
            GlobalResolve::SkipAll,
            state.index + 1,
        ),
        DuplicateResolve::Override => enter(contracts, state),
        DuplicateResolve::OverrideAll => enter(
            contracts,
            FetchStateView { global: GlobalResolve::OverrideAll, ..state },
        ),
    }
}

/// One step of taking `contracts` over into the address book.
///
/// Each contract gets an alias: its own id, or the one that the user enters.
/// An alias that is free is entered. For one that is taken the user is asked,
/// unless a choice for all was made before: then that choice holds. A user
/// who chose to rename is asked until the alias is free.
pub open spec fn fetch_step(
    contracts: Seq<JsonMemberView>,
    strategy: AliasNameStrategy,
    state: FetchStateView,
    event: FetchEventView,
) -> (FetchStateView, FetchActionView) {
    if state.phase == FetchPhase::Start {
        if event is Begin {
            turn_to(contracts, strategy, state.global, 0)
        } else {
            fetch_failed(state, FetchErrorView::UnexpectedEvent)
        }
    } else if state.phase == FetchPhase::Finished || state.index >= contracts.len()
        || contracts[state.index as int].string is None {
        fetch_failed(state, FetchErrorView::UnexpectedEvent)
    } else {
        match (state.phase, event) {
            (_, FetchEventView::Failed(report)) => fetch_failed(
                state,
                FetchErrorView::Interrupted(report),
            ),
            (FetchPhase::AwaitingAlias, FetchEventView::Alias(alias)) => (
                FetchStateView { alias, phase: FetchPhase::AwaitingLookup, ..state },
                FetchActionView::LookUp { alias },
            ),
            (FetchPhase::AwaitingLookup, FetchEventView::Exists(taken)) => if !taken {
                enter(contracts, state)
            } else {
                match state.global {
                    GlobalResolve::SkipAll => turn_to(
                        contracts,
                        strategy,
                        state.global,
                        state.index + 1,
                    ),
                    GlobalResolve::OverrideAll => enter(contracts, state),
                    GlobalResolve::Undecided => (
                        FetchStateView { phase: FetchPhase::AwaitingResolve, ..state },
                        FetchActionView::AskResolve { alias: state.alias },
                    ),
                }
            },
            (FetchPhase::AwaitingResolve, FetchEventView::Resolve(choice)) => resolve_duplicate(
                contracts,
                strategy,
                state,
                choice,
            ),
            (FetchPhase::AwaitingRename, FetchEventView::Alias(alias)) => (
                FetchStateView { alias, phase: FetchPhase::AwaitingRenameLookup, ..state },
                FetchActionView::LookUp { alias },
            ),
            (FetchPhase::AwaitingRenameLookup, FetchEventView::Exists(taken)) => if taken {
                (
                    FetchStateView { phase: FetchPhase::AwaitingRename, ..state },
                    FetchActionView::AskRename { contract_id: contracts[state.index as int].key },
                )
            } else {
                enter(contracts, state)
            },
            (FetchPhase::AwaitingInsert, FetchEventView::Inserted) => turn_to(
                contracts,
                strategy,
                state.global,
                state.index + 1,
            ),
            _ => fetch_failed(state, FetchErrorView::UnexpectedEvent),
        }
    }
}

/// Whether a step and its model agree.
pub open spec fn step_matches(
    r: (FetchState, FetchAction),
    model: (FetchStateView, FetchActionView),
) -> bool {
    r.0@ == model.0 && r.1@ == model.1
}

impl FetchState {
    /// The state before anything was asked.
    pub fn new() -> (r: FetchState)
        ensures
            r@ == (FetchStateView {
                index: 0,
                alias: Seq::empty(),
                global: GlobalResolve::Undecided,
                phase: FetchPhase::Start,
            }),
    {
        FetchState {
            index: 0,
            alias: String::new(),
            global: GlobalResolve::Undecided,
            phase: FetchPhase::Start,
        }
    }
}

fn fail(state: FetchState, error: FetchError) -> (r: (FetchState, FetchAction))
    ensures
        step_matches(r, fetch_failed(state@, error@)),
{
    (
        FetchState {
            index: state.index,
            alias: state.alias,
            global: state.global,
            phase: FetchPhase::Finished,
        },
        FetchAction::Fail(error),
    )
}

fn turn(
    contracts: &Vec<JsonMember>,
    strategy: AliasNameStrategy,
    global: GlobalResolve,
    index: usize,
) -> (r: (FetchState, FetchAction))
    ensures
        step_matches(r, turn_to(member_views(contracts@), strategy, global, index as int)),
{
    if index >= contracts.len() {
        return (
            FetchState {
                index: contracts.len(),
                alias: String::new(),
                global,
                phase: FetchPhase::Finished,
            },
            FetchAction::Done,
        );
    }
    let contract = &contracts[index];
    assert(member_views(contracts@)[index as int] == contract@);
    if contract.string.is_none() {
        return (
            FetchState { index, alias: String::new(), global, phase: FetchPhase::Finished },
            FetchAction::Fail(FetchError::StateFileDamaged),
        );
    }
    match strategy {
        AliasNameStrategy::Keep => (
            FetchState {
                index,
                alias: contract.key.clone(),
                global,
                phase: FetchPhase::AwaitingLookup,
            },
            FetchAction::LookUp { alias: contract.key.clone() },
        ),
        AliasNameStrategy::Rename => (
            FetchState { index, alias: String::new(), global, phase: FetchPhase::AwaitingAlias },
            FetchAction::AskAlias { contract_id: contract.key.clone() },
        ),
    }
}

fn insert(contracts: &Vec<JsonMember>, state: FetchState) -> (r: (FetchState, FetchAction))
    requires
        state.index < contracts@.len(),
        contracts@[state.index as int].string is Some,
    ensures
        step_matches(r, enter(member_views(contracts@), state@)),
{
    let contract = &contracts[state.index];
    assert(member_views(contracts@)[state.index as int] == contract@);
    let address = match &contract.string {
        Some(a) => a.clone(),
        None => String::new(),
    };
    let alias = state.alias.clone();
    (
        FetchState {
            index: state.index,
            alias: state.alias,
            global: state.global,
            phase: FetchPhase::AwaitingInsert,
        },
        FetchAction::Insert { alias, address },
    )
}

impl FetchAddressesOutput {
    /// One step of the fetch of `scope` over the contracts of its
    /// deployment: takes where the fetch stands and what happened since, and
    /// gives where it stands now and what the caller is to do.
    ///
    /// The caller starts with [`FetchState::new`] and [`FetchEvent::Begin`] and
    /// comes back with the answer to each question until it is handed
    /// [`FetchAction::Done`] or [`FetchAction::Fail`].
    pub fn from_previous_context(
        scope: &FetchAddresses,
        contracts: &Vec<JsonMember>,
        state: FetchState,
        event: FetchEvent,
    ) -> (r: (FetchState, FetchAction))
        ensures
            step_matches(
                r,
                fetch_step(member_views(contracts@), scope.name_strategy, state@, event@),
            ),
    {
        let strategy = scope.name_strategy;
        if state.phase == FetchPhase::Start {
            return match event {
                FetchEvent::Begin => turn(contracts, strategy, state.global, 0),
                _ => fail(state, FetchError::UnexpectedEvent),
            };
        }
        if state.phase == FetchPhase::Finished || state.index >= contracts.len() {
            return fail(state, FetchError::UnexpectedEvent);
        }
        let contract = &contracts[state.index];
        assert(member_views(contracts@)[state.index as int] == contract@);
        if contract.string.is_none() {
            return fail(state, FetchError::UnexpectedEvent);
        }
        match (state.phase, event) {
            (_, FetchEvent::Failed(report)) => fail(state, FetchError::Interrupted(report)),
            (FetchPhase::AwaitingAlias, FetchEvent::Alias(alias)) => {
                let asked = alias.clone();
                (
                    FetchState {
                        index: state.index,
                        alias,
                        global: state.global,
                        phase: FetchPhase::AwaitingLookup,
                    },
                    FetchAction::LookUp { alias: asked },
                )
            },
            (FetchPhase::AwaitingLookup, FetchEvent::Exists(taken)) => {
                if !taken {
                    insert(contracts, state)
                } else {
                    match state.global {
                        GlobalResolve::SkipAll => turn(
                            contracts,
                            strategy,
                            state.global,
                            state.index + 1,
                        ),
                        GlobalResolve::OverrideAll => insert(contracts, state),
                        GlobalResolve::Undecided => {
                            let alias = state.alias.clone();
                            (
                                FetchState {
                                    index: state.index,
                                    alias: state.alias,
                                    global: state.global,
                                    phase: FetchPhase::AwaitingResolve,
                                },
                                FetchAction::AskResolve { alias },
                            )
                        },
                    }
                }
            },
            (FetchPhase::AwaitingResolve, FetchEvent::Resolve(choice)) => match choice {
                DuplicateResolve::Rename => (
                    FetchState {
                        index: state.index,
                        alias: state.alias,
                        global: state.global,
                        phase: FetchPhase::AwaitingRename,
                    },
                    FetchAction::AskRename { contract_id: contract.key.clone() },
                ),
                DuplicateResolve::Skip => turn(contracts, strategy, state.global, state.index + 1),
                DuplicateResolve::SkipAll => turn(
                    contracts,
                    strategy,
                    GlobalResolve::SkipAll,
                    state.index + 1,
                ),
                DuplicateResolve::Override => insert(contracts, state),
                DuplicateResolve::OverrideAll => insert(
                    contracts,
                    FetchState {
                        index: state.index,
                        alias: state.alias,
                        global: GlobalResolve::OverrideAll,
                        phase: state.phase,
                    },
                ),
            },
            (FetchPhase::AwaitingRename, FetchEvent::Alias(alias)) => {
                let asked = alias.clone();
                (
                    FetchState {
                        index: state.index,
                        alias,
                        global: state.global,
                        phase: FetchPhase::AwaitingRenameLookup,
                    },
                    FetchAction::LookUp { alias: asked },
                )
            },
            (FetchPhase::AwaitingRenameLookup, FetchEvent::Exists(taken)) => {
                if taken {
                    (
                        FetchState {
                            index: state.index,
                            alias: state.alias,
                            global: state.global,
                            phase: FetchPhase::AwaitingRename,
                        },
                        FetchAction::AskRename { contract_id: contract.key.clone() },
                    )
                } else {
                    insert(contracts, state)
                }
            },
            (FetchPhase::AwaitingInsert, FetchEvent::Inserted) => turn(
                contracts,
                strategy,
                state.global,
                state.index + 1,
            ),
            _ => fail(state, FetchError::UnexpectedEvent),
        }
    }
}

/// A choice that was made for all duplicates stays: no step takes it back,
/// and while it stands the user is not asked about a duplicate again.
pub proof fn lemma_choice_for_all_persists(
    contracts: Seq<JsonMemberView>,
    strategy: AliasNameStrategy,
    state: FetchStateView,
    event: FetchEventView,
)
    requires
        state.global != GlobalResolve::Undecided,
    ensures
        fetch_step(contracts, strategy, state, event).0.global == state.global || (state.phase
            == FetchPhase::AwaitingResolve && event is Resolve),
        state.phase == FetchPhase::AwaitingLookup ==> !(fetch_step(
            contracts,
            strategy,
            state,
            event,
        ).1 is AskResolve),
{
}

/// With all duplicates skipped, a contract whose alias is taken is never
/// entered; with all overridden, it is entered under that alias without a
/// question.
pub proof fn lemma_choice_for_all_decides(
    contracts: Seq<JsonMemberView>,
    strategy: AliasNameStrategy,
    state: FetchStateView,
)
    requires
        state.phase == FetchPhase::AwaitingLookup,
        state.index < contracts.len(),
        contracts[state.index as int].string is Some,
    ensures
        state.global == GlobalResolve::SkipAll ==> fetch_step(
            contracts,
            strategy,
            state,
            FetchEventView::Exists(true),
        ) == turn_to(contracts, strategy, GlobalResolve::SkipAll, state.index + 1),
        state.global == GlobalResolve::OverrideAll ==> fetch_step(
            contracts,
            strategy,
            state,
            FetchEventView::Exists(true),
        ).1 == (FetchActionView::Insert {
            alias: state.alias,
            address: contracts[state.index as int].string->0,
        }),
{
}

} // verus!
