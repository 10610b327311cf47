//! The chain verifier.  For each edge of a resolved chain, from the
//! subject towards the root: require a controller-proof service on the
//! child document naming the parent (else `MissingProof`), check the proof
//! value is a valid signature by one of the parent's keys over the child's
//! canonical form (else `InvalidSignature`), and check that key against
//! the update commitment in the parent's own metadata (else
//! `CommitmentMismatch`; a key yielding no commitment is
//! `InvalidKeyFormat`).  Signature validity and commitment validity are
//! independent checks and both are required; one bad edge invalidates the
//! whole chain.

use vstd::prelude::*;

use crate::document::attested_document;
use crate::document::attested_view;
use crate::document::proof_service_id;
use crate::crypto::commitment_of;
use crate::crypto::key_well_formed;
use crate::crypto::sig_valid;
use crate::crypto::verify_detached;
use crate::document::canon_document;
use crate::document::canonical_document;
use crate::document::document_clean;
use crate::document::str_eq;
use crate::document::ServiceView;
use crate::errors::ChainError;
use crate::errors::TrustchainError;
use crate::errors::VerificationError;
use crate::commitment::key_commitment;
use crate::resolver::chain_view;
use crate::resolver::chain_wf;
use crate::resolver::spec_walk;
use crate::resolver::verdict_of;
use crate::resolver::ChainEntry;
use crate::resolver::ChainEntryView;
use crate::resolver::ChainVerdict;
use crate::resolver::Ledger;
use crate::resolver::Resolver;

verus! {

/// The first controller-proof service of a document, if any.
pub open spec fn find_proof_service(services: Seq<ServiceView>, i: int) -> Option<int>
    decreases services.len() - i,
{
    if i < 0 || i >= services.len() {
        None
    } else if services[i].id == proof_service_id() {
        Some(i)
    } else {
        find_proof_service(services, i + 1)
    }
}

/// The proof value carried by the child document for `parent_did`: the
/// first controller-proof service must name the parent as controller and
/// hold a proof value.
pub open spec fn edge_proof(child: ChainEntryView, parent_did: Seq<char>) -> Option<Seq<char>> {
    match find_proof_service(child.document.services, 0) {
        None => None,
        Some(i) => {
            let s = child.document.services[i];
            if s.controller == Some(parent_did) {
                s.proof_value
            } else {
                None
            }
        },
    }
}

/// The first of the parent's keys that verifies `sig` over `payload`.
pub open spec fn first_valid_key(
    keys: Seq<Seq<char>>,
    payload: Seq<char>,
    sig: Seq<char>,
    i: int,
) -> Option<int>
    decreases keys.len() - i,
{
    if i < 0 || i >= keys.len() {
        None
    } else if sig_valid(keys[i], payload, sig) {
        Some(i)
    } else {
        first_valid_key(keys, payload, sig, i + 1)
    }
}

/// One chain edge passes: the child carries a proof naming the parent,
/// the proof is a valid signature by one of the parent's keys over the
/// child's canonical form, and that key's recomputed commitment equals
/// the update commitment in the parent's own metadata.
pub open spec fn spec_edge_valid(child: ChainEntryView, parent: ChainEntryView) -> bool {
    &&& edge_proof(child, parent.did) matches Some(proof)
    &&& document_clean(attested_view(child.document))
    &&& first_valid_key(
        parent.document.public_keys,
        canon_document(attested_view(child.document)),
        proof,
        0,
    ) matches Some(k)
    &&& key_well_formed(parent.document.public_keys[k])
    &&& parent.metadata.update_commitment matches Some(c)
    &&& commitment_of(parent.document.public_keys[k]) == c
}

/// The fault `e` correctly describes for the edge (child, parent): the
/// right error kind for the first check that fails, carrying the child's
/// DID as the offending edge.
pub open spec fn matches_edge_fault(
    e: VerificationError,
    child: ChainEntryView,
    parent: ChainEntryView,
) -> bool {
    match e {
        VerificationError::MissingProof { did } => {
            &&& did@ == child.did
            &&& edge_proof(child, parent.did) is None
        },
        VerificationError::InvalidSignature { did } => {
            &&& did@ == child.did
            &&& edge_proof(child, parent.did) matches Some(proof)
            &&& (!document_clean(attested_view(child.document)) || first_valid_key(
                parent.document.public_keys,
                canon_document(attested_view(child.document)),
                proof,
                0,
            ) is None)
        },
        VerificationError::InvalidKeyFormat { did } => {
            &&& did@ == child.did
            &&& edge_proof(child, parent.did) matches Some(proof)
            &&& document_clean(attested_view(child.document))
            &&& first_valid_key(
                parent.document.public_keys,
                canon_document(attested_view(child.document)),
                proof,
                0,
            ) matches Some(k)
            &&& !key_well_formed(parent.document.public_keys[k])
        },
        VerificationError::CommitmentMismatch { did } => {
            &&& did@ == child.did
            &&& edge_proof(child, parent.did) matches Some(proof)
            &&& document_clean(attested_view(child.document))
            &&& first_valid_key(
                parent.document.public_keys,
                canon_document(attested_view(child.document)),
                proof,
                0,
            ) matches Some(k)
            &&& key_well_formed(parent.document.public_keys[k])
            &&& match parent.metadata.update_commitment {
                None => true,
                Some(c) => commitment_of(parent.document.public_keys[k]) != c,
            }
        },
    }
}

/// Verify one chain edge: `child`'s document must carry a proof naming
/// `parent`, signed by a parent key whose commitment the parent's own
/// metadata records as its update commitment.
pub fn verify_edge(child: &ChainEntry, parent: &ChainEntry) -> (r: Result<(), VerificationError>)
    ensures
        r is Ok <==> spec_edge_valid(child@, parent@),
        r matches Err(e) ==> matches_edge_fault(e, child@, parent@),
{
    let services = &child.document.services;
    let mut found: Option<usize> = None;
    let mut i: usize = 0;
    while found.is_none() && i < services.len()
        invariant
            i <= services@.len(),
            services@ == child.document.services@,
            found is None ==> find_proof_service(child@.document.services, 0)
                == find_proof_service(child@.document.services, i as int),
            found matches Some(f) ==> f < services@.len() && find_proof_service(
                child@.document.services,
                0,
            ) == Some(f as int),
        decreases services@.len() - i,
    {
        proof {
            assert(child@.document.services[i as int] == services@[i as int]@);
            reveal_strlit("trustchain-controller-proof");
        }
        if str_eq(services[i].id.as_str(), "trustchain-controller-proof") {
            found = Some(i);
        }
        i += 1;
    }
    let svc_idx = match found {
        Some(k) => k,
        None => {
            return Err(VerificationError::MissingProof { did: child.did.clone() });
        },
    };
    let svc = &services[svc_idx];
    let names_parent = match &svc.controller {
        Some(c) => str_eq(c.as_str(), parent.did.as_str()),
        None => false,
    };
    let proof_value = match &svc.proof_value {
        Some(p) => {
            if names_parent {
                p
            } else {
                return Err(VerificationError::MissingProof { did: child.did.clone() });
            }
        },
        None => {
            return Err(VerificationError::MissingProof { did: child.did.clone() });
        },
    };
    let content = attested_document(&child.document);
    let payload = match canonical_document(&content) {
        Some(c) => c,
        None => {
            return Err(VerificationError::InvalidSignature { did: child.did.clone() });
        },
    };
    let keys = &parent.document.public_keys;
    let mut signer: Option<usize> = None;
    let mut k: usize = 0;
    while signer.is_none() && k < keys.len()
        invariant
            k <= keys@.len(),
            keys@ == parent.document.public_keys@,
            payload@ == canon_document(attested_view(child@.document)),
            signer is None ==> first_valid_key(
                parent@.document.public_keys,
                canon_document(attested_view(child@.document)),
                proof_value@,
                0,
            ) == first_valid_key(
                parent@.document.public_keys,
                canon_document(attested_view(child@.document)),
                proof_value@,
                k as int,
            ),
            signer matches Some(f) ==> f < keys@.len() && first_valid_key(
                parent@.document.public_keys,
                canon_document(attested_view(child@.document)),
                proof_value@,
                0,
            ) == Some(f as int),
        decreases keys@.len() - k,
    {
        proof {
            assert(parent@.document.public_keys[k as int] == keys@[k as int]@);
        }
        if verify_detached(keys[k].as_str(), payload.as_str(), proof_value.as_str()) {
            signer = Some(k);
        }
        k += 1;
    }
    let key_idx = match signer {
        Some(k) => k,
        None => {
            return Err(VerificationError::InvalidSignature { did: child.did.clone() });
        },
    };
    let recomputed = match key_commitment(keys[key_idx].as_str()) {
        Ok(c) => c,
        Err(_) => {
            return Err(VerificationError::InvalidKeyFormat { did: child.did.clone() });
        },
    };
    match &parent.metadata.update_commitment {
        Some(recorded) => {
            if str_eq(recomputed.as_str(), recorded.as_str()) {
                Ok(())
            } else {
                Err(VerificationError::CommitmentMismatch { did: child.did.clone() })
            }
        },
        None => Err(VerificationError::CommitmentMismatch { did: child.did.clone() }),
    }
}

/// Every edge of the chain passes the three checks.
pub open spec fn chain_edges_valid(c: Seq<ChainEntryView>) -> bool {
    forall|i: int| 0 <= i < c.len() - 1 ==> spec_edge_valid(#[trigger] c[i], c[i + 1])
}

/// Verify every edge of a resolved chain, from the subject towards the
/// root.  On failure the reported fault belongs to the first edge that
/// fails, and names the offending child DID.
pub fn verify_chain(chain: &Vec<ChainEntry>, root: &str) -> (r: Result<(), VerificationError>)
    requires
        chain_wf(chain_view(chain@), root@),
    ensures
        r is Ok <==> chain_edges_valid(chain_view(chain@)),
        r matches Err(e) ==> exists|i: int|
            {
                &&& 0 <= i < chain_view(chain@).len() - 1
                &&& (forall|j: int|
                    0 <= j < i ==> spec_edge_valid(
                        #[trigger] chain_view(chain@)[j],
                        chain_view(chain@)[j + 1],
                    ))
                &&& matches_edge_fault(
                    e,
                    #[trigger] chain_view(chain@)[i],
                    chain_view(chain@)[i + 1],
                )
            },
{
    let mut i: usize = 0;
    while i < chain.len() - 1
        invariant
            i <= chain@.len(),
            chain@.len() >= 1,
            forall|j: int|
                0 <= j < i ==> spec_edge_valid(
                    #[trigger] chain_view(chain@)[j],
                    chain_view(chain@)[j + 1],
                ),
        decreases chain@.len() - i,
    {
        proof {
            assert(chain_view(chain@)[i as int] == chain@[i as int]@);
            assert(chain_view(chain@)[i as int + 1] == chain@[i as int + 1]@);
        }
        match verify_edge(&chain[i], &chain[i + 1]) {
            Ok(_) => {},
            Err(e) => {
                return Err(e);
            },
        }
        i += 1;
    }
    Ok(())
}

/// The whole trust decision for a subject DID against a ledger snapshot:
/// the chain walk reaches the root and every edge is cryptographically
/// sound.
pub open spec fn spec_accepts(
    entries: Seq<crate::resolver::LedgerEntry>,
    did: Seq<char>,
    root: Seq<char>,
    max_depth: nat,
) -> bool {
    &&& spec_walk(entries, did, Seq::<ChainEntryView>::empty(), root, max_depth)
        matches ChainVerdict::Chain(c)
    &&& chain_edges_valid(c)
}

/// Resolve the controller chain of `did` and verify every edge.  Returns
/// the verified, ordered trust path from the subject to the root, or the
/// precise reason the chain is rejected.  Acceptance is a pure function
/// of the ledger snapshot (`spec_accepts`), so repeating the call with no
/// ledger change repeats the outcome.
pub fn verify_trustchain(resolver: &Resolver, ledger: &Ledger, did: &str) -> (r: Result<
    Vec<ChainEntry>,
    TrustchainError,
>)
    ensures
        r is Ok <==> spec_accepts(ledger.entries@, did@, resolver.root@, resolver.max_depth as nat),
        r matches Ok(chain) ==> verdict_of(Ok(chain)) == spec_walk(
            ledger.entries@,
            did@,
            Seq::<ChainEntryView>::empty(),
            resolver.root@,
            resolver.max_depth as nat,
        ) && chain_wf(chain_view(chain@), resolver.root@) && chain_edges_valid(chain_view(chain@)),
        r matches Err(e) ==> (e matches TrustchainError::Chain(c) ==> verdict_of(
            Err::<Vec<ChainEntry>, ChainError>(c),
        ) == spec_walk(
            ledger.entries@,
            did@,
            Seq::<ChainEntryView>::empty(),
            resolver.root@,
            resolver.max_depth as nat,
        )),
        r matches Err(e) ==> (e matches TrustchainError::Verification(v) ==> spec_walk(
            ledger.entries@,
            did@,
            Seq::<ChainEntryView>::empty(),
            resolver.root@,
            resolver.max_depth as nat,
        ) matches ChainVerdict::Chain(c) && !chain_edges_valid(c)),
        r matches Err(e) ==> !(e matches TrustchainError::Graph(g)),
{
    let chain = match resolver.resolve_chain(ledger, did) {
        Ok(c) => c,
        Err(e) => {
            return Err(TrustchainError::Chain(e));
        },
    };
    match verify_chain(&chain, resolver.root.as_str()) {
        Ok(_) => Ok(chain),
        Err(e) => Err(TrustchainError::Verification(e)),
    }
}

/// Idempotence of the whole trust decision: with no change of ledger
/// state, two resolve-and-verify runs for the same subject under the same
/// root and depth bound accept or reject alike — acceptance is a pure
/// function of the ledger snapshot.
pub proof fn lemma_trust_decision_idempotent(
    entries: Seq<crate::resolver::LedgerEntry>,
    did: Seq<char>,
    root: Seq<char>,
    max_depth: nat,
    first: bool,
    second: bool,
)
    requires
        first == spec_accepts(entries, did, root, max_depth),
        second == spec_accepts(entries, did, root, max_depth),
    ensures
        first == second,
{
}

} // verus!
