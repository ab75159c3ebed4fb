//! Whether a contract has to be uploaded or migrated, given what the chain
//! reports of it.

use crate::text::same_text;
use vstd::prelude::*;

verus! {

/// The code that is registered for a contract, with the checksum that the
/// chain holds for it.
#[derive(Debug, PartialEq, Eq)]
pub struct UploadedCode {
    pub code_id: u64,
    pub on_chain_hash: String,
}

/// What to do about the migration of a contract.
#[derive(Debug, Clone, Copy, PartialEq, Eq, Structural)]
pub enum MigrateDecision {
    /// The contract is already running the latest code.
    AlreadyLatest,
    /// Migrate the contract to this code.
    Migrate { new_code_id: u64 },
    /// No code is registered for the contract.
    CodeIdNotInStore,
}

/// Whether the code that is registered for a contract is the local one: a
/// code is registered and the chain holds the local checksum for it.
pub fn latest_is_uploaded(uploaded: Option<&UploadedCode>, local_hash: &str) -> (r: bool)
    ensures
        r == (uploaded matches Some(code) && code.on_chain_hash@ == local_hash@),
{
    match uploaded {
        Some(code) => same_text(code.on_chain_hash.as_str(), local_hash),
        None => false,
    }
}

/// Whether the contract has to be uploaded: it has unless the latest code is
/// uploaded.
pub fn upload_if_needed(latest_is_uploaded: bool) -> (upload: bool)
    ensures
        upload == !latest_is_uploaded,
{
    !latest_is_uploaded
}

/// Whether the contract runs the code that was uploaded last: a code is
/// registered and the chain runs the contract on it.
pub fn is_running_latest(latest_uploaded_code_id: Option<u64>, running_code_id: u64) -> (r: bool)
    ensures
        r == (latest_uploaded_code_id == Some(running_code_id)),
{
    match latest_uploaded_code_id {
        Some(id) => id == running_code_id,
        None => false,
    }
}

/// What to do about the migration of a contract: nothing where it runs the
/// latest code, else a migration to the code that is registered for it.
pub fn migrate_if_needed(is_running_latest: bool, code_id: Option<u64>) -> (r: MigrateDecision)
    ensures
        r == (if is_running_latest {
            MigrateDecision::AlreadyLatest
        } else {
            match code_id {
                Some(id) => MigrateDecision::Migrate { new_code_id: id },
                None => MigrateDecision::CodeIdNotInStore,
            }
        }),
{
    if is_running_latest {
        MigrateDecision::AlreadyLatest
    } else {
        match code_id {
            Some(id) => MigrateDecision::Migrate { new_code_id: id },
            None => MigrateDecision::CodeIdNotInStore,
        }
    }
}

} // verus!
