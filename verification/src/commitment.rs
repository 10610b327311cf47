//! Key-commitment utilities: map a public key to the commitment value the
//! ledger records for it, and back-check a presented key against a
//! recorded commitment.  Control of a document is proved by recomputing
//! the commitment and comparing for exact equality — keys themselves are
//! never compared, since only the commitment is public before first use.

use vstd::prelude::*;

use crate::crypto::commitment_of;
use crate::crypto::derive_commitment;
use crate::crypto::key_well_formed;
use crate::document::str_eq;
use crate::errors::TrustchainIONError;
use crate::key_manager::KeyType;

verus! {

/// Whether `key` controls whatever `recorded` was recorded for: its
/// recomputed commitment equals the recorded value exactly.
pub open spec fn spec_key_matches(key: Seq<char>, recorded: Seq<char>) -> bool {
    commitment_of(key) == recorded
}

/// The commitment the ledger would record for `key`, or
/// `FailedToConvertToCommitment` when the key string is malformed.
pub fn key_commitment(key: &str) -> (r: Result<String, TrustchainIONError>)
    ensures
        r is Ok <==> key_well_formed(key@),
        r matches Ok(c) ==> c@ == commitment_of(key@),
        r matches Err(e) ==> e == TrustchainIONError::FailedToConvertToCommitment,
{
    match derive_commitment(key) {
        Some(c) => Ok(c),
        None => Err(TrustchainIONError::FailedToConvertToCommitment),
    }
}

/// Recompute the commitment for `key` and compare it to the recorded
/// value.  A malformed key is a caller error, distinguished from a
/// mismatch: it fails with `FailedToConvertToCommitment`, never a silent
/// `false`.  The role only selects which recorded commitment the caller
/// hands in; the recomputation is the same for every role.
pub fn key_matches_commitment(key: &str, recorded_commitment: &str, _key_type: KeyType) -> (r:
    Result<bool, TrustchainIONError>)
    ensures
        r is Ok <==> key_well_formed(key@),
        r matches Ok(b) ==> b == spec_key_matches(key@, recorded_commitment@),
        r matches Err(e) ==> e == TrustchainIONError::FailedToConvertToCommitment,
{
    let computed = match derive_commitment(key) {
        Some(c) => c,
        None => {
            return Err(TrustchainIONError::FailedToConvertToCommitment);
        },
    };
    Ok(str_eq(computed.as_str(), recorded_commitment))
}

/// Commitment round-trip law: a well-formed key always matches its own
/// recomputed commitment, and a key whose commitment differs from the
/// recorded one never does.  (That two distinct keys collide on one
/// commitment value is excluded only cryptographically, which is beyond
/// what these contracts state.)
pub proof fn lemma_commitment_round_trip(key: Seq<char>, other: Seq<char>)
    ensures
        spec_key_matches(key, commitment_of(key)),
        commitment_of(other) != commitment_of(key) ==> !spec_key_matches(
            other,
            commitment_of(key),
        ),
{
}

} // verus!
