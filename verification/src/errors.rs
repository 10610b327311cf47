//! Error taxonomy, by origin: resolution errors are recoverable by the
//! caller; structural errors mark a malformed or adversarial DID graph;
//! cryptographic errors invalidate the edge under check; key-management
//! errors come from the key-store collaborator.  No error is downgraded to
//! a generic failure, and each carries the offending DID where one exists.

use vstd::prelude::*;

verus! {

/// Failure of a single resolution request against the ledger.
#[derive(Clone, Copy, Debug, PartialEq, Eq, Structural)]
pub enum ResolutionError {
    /// The DID is not anchored on the ledger.
    NotFound,
    /// The ledger could not be reached; the caller may retry with backoff.
    NetworkFailure,
    /// The ledger returned data that does not parse as a document.
    Malformed,
}

/// Failure of a controller-chain walk.
#[derive(Debug, PartialEq, Eq)]
pub enum ChainError {
    /// A DID was reached twice while climbing controller links.
    CycleDetected { did: String },
    /// The depth bound was exhausted before the root was reached.
    DepthExceeded,
    /// A document without a controller was reached, and it is not the root.
    UnterminatedChain { did: String },
    /// Resolution of the named DID failed; the cause is propagated verbatim.
    Resolution { did: String, source: ResolutionError },
}

/// Failure of the cryptographic checks on one chain edge.  The `did` is the
/// child document's DID, identifying the offending edge.
#[derive(Debug, PartialEq, Eq)]
pub enum VerificationError {
    /// The child document carries no controller-proof service naming the
    /// parent as its controller.
    MissingProof { did: String },
    /// The proof value is not a valid signature by any of the parent's keys
    /// over the child document's canonical form.
    InvalidSignature { did: String },
    /// The attesting key's recomputed commitment differs from the update
    /// commitment recorded in the parent's document metadata (or no such
    /// commitment is recorded there).
    CommitmentMismatch { did: String },
    /// The attesting key is malformed: no commitment can be recomputed
    /// from it.  Distinguished from a mismatch so that callers can tell
    /// "key does not control this document" from "key is garbage".
    InvalidKeyFormat { did: String },
}

/// Failure of the structural tree check over resolved document chains.
#[derive(Clone, Copy, Debug, PartialEq, Eq, Structural)]
pub enum GraphError {
    /// The constructed graph is not a tree: some document has two distinct
    /// attesting parents, or the controller relation contains a cycle.
    NotATree,
}

/// Failure reported by the key-store collaborator.
#[derive(Clone, Copy, Debug, PartialEq, Eq, Structural)]
pub enum KeyManagerError {
    /// No key of the requested type is stored for the DID.
    NotFound,
    /// The store could not be read or written.
    IoFailure,
    /// The stored key material does not parse.
    Corrupt,
}

/// Failure to attest a document.
#[derive(Clone, Copy, Debug, PartialEq, Eq, Structural)]
pub enum AttestationError {
    /// No usable signing key was supplied or resolvable.
    NoSigningKey,
    /// The document cannot be put into its canonical byte-stable form.
    SerializationFailed,
}

/// Failure of the ION-method commitment utilities.
#[derive(Clone, Copy, Debug, PartialEq, Eq, Structural)]
pub enum TrustchainIONError {
    /// The supplied key does not yield a commitment.
    FailedToConvertToCommitment,
    /// Document metadata records no commitment for the requested key role.
    FailedToExtractCommitment,
    /// The key role carries no ledger commitment at all.
    IncorrectKeyType,
}

/// Failure of a controller operation that combines key management,
/// commitment checks and attestation.
#[derive(Debug, PartialEq, Eq)]
pub enum ControllerError {
    /// A locally held next-update key no longer matches the on-ledger update
    /// commitment: an external rotation happened, so the operation aborts
    /// rather than sign with a stale key.
    StaleNextUpdateKey { did: String },
    Key(KeyManagerError),
    Commitment(TrustchainIONError),
    Attestation(AttestationError),
}

/// Any failure of the full resolve-and-verify pipeline.
#[derive(Debug, PartialEq, Eq)]
pub enum TrustchainError {
    Chain(ChainError),
    Verification(VerificationError),
    Graph(GraphError),
}

} // verus!
