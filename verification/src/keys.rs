//! Seed phrases as the key store holds them.

use crate::encoding::{base64_decoded, decode_base64, decode_text};
use vstd::prelude::*;
use vstd::utf8::{decode_utf8, valid_utf8};

verus! {

/// Why a stored secret gave no seed phrase.
#[derive(Debug, Clone, Copy, PartialEq, Eq, Structural)]
pub enum SeedError {
    /// The secret is not base64.
    NotBase64,
    /// The secret does not decode to text.
    NotText,
}

/// The seed phrase that a stored secret stands for, given what the secret
/// decodes to as base64: the text of the decoded bytes.
pub open spec fn seed_phrase(decoded: Option<Seq<u8>>) -> Result<Seq<char>, SeedError> {
    match decoded {
        None => Err(SeedError::NotBase64),
        Some(bytes) => if valid_utf8(bytes) {
            Ok(decode_utf8(bytes))
        } else {
            Err(SeedError::NotText)
        },
    }
}

/// The seed phrase that a stored secret stands for, given what the secret
/// decoded to as base64.
pub fn seed_phrase_from_bytes(decoded: Option<Vec<u8>>) -> (r: Result<String, SeedError>)
    ensures
        match r {
            Ok(phrase) => seed_phrase(
                match decoded {
                    Some(bytes) => Some(bytes@),
                    None => None,
                },
            ) == Ok::<Seq<char>, SeedError>(phrase@),
            Err(e) => seed_phrase(
                match decoded {
                    Some(bytes) => Some(bytes@),
                    None => None,
                },
            ) == Err::<Seq<char>, SeedError>(e),
        },
{
    match decoded {
        None => Err(SeedError::NotBase64),
        Some(bytes) => match decode_text(bytes) {
            Some(phrase) => Ok(phrase),
            None => Err(SeedError::NotText),
        },
    }
}

/// The seed phrase that the secret `password` of the key store stands for.
pub fn seed_phrase_for_id(password: &str) -> (r: Result<String, SeedError>)
    ensures
        match r {
            Ok(phrase) => seed_phrase(base64_decoded(password@)) == Ok::<Seq<char>, SeedError>(
                phrase@,
            ),
            Err(e) => seed_phrase(base64_decoded(password@)) == Err::<Seq<char>, SeedError>(e),
        },
{
    seed_phrase_from_bytes(decode_base64(password))
}

} // verus!
