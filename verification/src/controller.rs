//! The controller capability, layered on the subject capability: report
//! the DID one controls, read that DID's update, recovery and next-update
//! keys from the key store, check a key against the commitment the ledger
//! records for a role, and build the structural patches that attach a
//! controller proof to a controlled document.

use vstd::prelude::*;

use crate::commitment::spec_key_matches;
use crate::crypto::commitment_of;
use crate::crypto::key_well_formed;
use crate::crypto::sig_valid;
use crate::crypto::signing_key_usable;
use crate::crypto::generate_key;
use crate::document::attested_view;
use crate::document::canon_document;
use crate::document::document_clean;
use crate::document::proof_service_id;
use crate::document::proof_service_type;
use crate::document::str_eq;
use crate::document::Document;
use crate::document::DocumentMetadata;
use crate::document::DocumentMetadataView;
use crate::document::Service;
use crate::errors::AttestationError;
use crate::errors::ControllerError;
use crate::errors::KeyManagerError;
use crate::errors::TrustchainIONError;
use crate::key_manager::lookup;
use crate::key_manager::KeyStore;
use crate::key_manager::KeyType;
use crate::subject::IONSubject;

verus! {

/// A structural patch for an update operation on a document: this library
/// only constructs patch lists; submission happens elsewhere.
#[derive(Debug, PartialEq, Eq)]
pub enum Patch {
    AddServices { services: Vec<Service> },
    RemoveServices { ids: Vec<String> },
}

/// The patch that removes a stale controller-proof service.
pub open spec fn is_proof_removal(p: Patch) -> bool {
    &&& p matches Patch::RemoveServices { ids }
    &&& ids@.len() == 1
    &&& ids@[0]@ == proof_service_id()
}

/// The patch that adds exactly one controller-proof service naming `did`
/// as controller and carrying `proof` as proof value.
pub open spec fn is_add_proof(p: Patch, did: Seq<char>, proof: Seq<char>) -> bool {
    &&& p matches Patch::AddServices { services }
    &&& services@.len() == 1
    &&& services@[0]@.id == proof_service_id()
    &&& services@[0]@.service_type == proof_service_type()
    &&& services@[0]@.controller == Some(did)
    &&& services@[0]@.proof_value == Some(proof)
}

/// Data for setting up a controller: the two DIDs and the controlled
/// DID's update and recovery keys, as JWK strings.
#[derive(Debug)]
pub struct ControllerData {
    pub did: String,
    pub controlled_did: String,
    pub update_key: String,
    pub recovery_key: String,
}

impl ControllerData {
    pub fn new(did: String, controlled_did: String, update_key: String, recovery_key: String) -> (
        d: ControllerData)
        ensures
            d.did@ == did@,
            d.controlled_did@ == controlled_did@,
            d.update_key@ == update_key@,
            d.recovery_key@ == recovery_key@,
    {
        ControllerData { did, controlled_did, update_key, recovery_key }
    }
}

/// A controller: a DID subject together with the DID it controls.
#[derive(Debug)]
pub struct IONController {
    pub did: String,
    pub controlled_did: String,
}

/// The commitment the ledger records for a key role, read out of document
/// metadata.  The update and next-update roles are both checked against
/// the update commitment; the signing role carries no commitment.
pub open spec fn spec_extract_commitment(m: DocumentMetadataView, key_type: KeyType) -> Result<
    Seq<char>,
    TrustchainIONError,
> {
    match key_type {
        KeyType::UpdateKey => match m.update_commitment {
            Some(c) => Ok(c),
            None => Err(TrustchainIONError::FailedToExtractCommitment),
        },
        KeyType::NextUpdateKey => match m.update_commitment {
            Some(c) => Ok(c),
            None => Err(TrustchainIONError::FailedToExtractCommitment),
        },
        KeyType::RecoveryKey => match m.recovery_commitment {
            Some(c) => Ok(c),
            None => Err(TrustchainIONError::FailedToExtractCommitment),
        },
        KeyType::SigningKey => Err(TrustchainIONError::IncorrectKeyType),
    }
}

impl IONController {
    /// Construct a controller from existing subject and controlled DIDs.
    pub fn new(did: &str, controlled_did: &str) -> (c: IONController)
        ensures
            c.did@ == did@,
            c.controlled_did@ == controlled_did@,
    {
        IONController { did: did.to_owned(), controlled_did: controlled_did.to_owned() }
    }

    /// Construct a controller from `ControllerData`, saving the controlled
    /// DID's update and recovery keys to the store.
    pub fn try_from_data(data: ControllerData, store: &mut KeyStore) -> (r: Result<
        IONController,
        KeyManagerError,
    >)
        ensures
            r matches Ok(c) && c.did@ == data.did@ && c.controlled_did@ == data.controlled_did@,
            lookup(final(store).entries@, data.controlled_did@, KeyType::UpdateKey) == Some(
                data.update_key@,
            ),
            lookup(final(store).entries@, data.controlled_did@, KeyType::RecoveryKey) == Some(
                data.recovery_key@,
            ),
            forall|d: Seq<char>, kt: KeyType|
                d != data.controlled_did@ || (kt != KeyType::UpdateKey && kt
                    != KeyType::RecoveryKey) ==> lookup(final(store).entries@, d, kt) == lookup(
                    old(store).entries@,
                    d,
                    kt,
                ),
    {
        let controller = IONController {
            did: data.did,
            controlled_did: data.controlled_did,
        };
        let _ = store.save_key(
            controller.controlled_did.as_str(),
            KeyType::UpdateKey,
            data.update_key.as_str(),
        );
        let _ = store.save_key(
            controller.controlled_did.as_str(),
            KeyType::RecoveryKey,
            data.recovery_key.as_str(),
        );
        Ok(controller)
    }

    pub fn did<'a>(&'a self) -> (r: &'a str)
        ensures
            r@ == self.did@,
    {
        self.did.as_str()
    }

    pub fn controlled_did<'a>(&'a self) -> (r: &'a str)
        ensures
            r@ == self.controlled_did@,
    {
        self.controlled_did.as_str()
    }

    /// The method-specific suffix of the controlled DID, used to address
    /// update operations.
    pub fn controlled_did_suffix<'a>(&'a self) -> (r: &'a str)
        ensures
            r@ == crate::document::spec_did_suffix(self.controlled_did@),
    {
        crate::document::did_suffix(self.controlled_did.as_str())
    }

    /// The subject view of this controller.
    pub fn into_subject(&self) -> (s: IONSubject)
        ensures
            s.did@ == self.did@,
    {
        IONSubject::new(self.did.as_str())
    }

    /// Attest to a controlled document: a detached signature over its
    /// canonical form, by the supplied signing key.
    pub fn attest(&self, doc: &Document, signing_key: Option<&str>) -> (r: Result<
        String,
        AttestationError,
    >)
        ensures
            r is Ok <==> (signing_key matches Some(k) && document_clean(attested_view(doc@))
                && signing_key_usable(k@)),
            r matches Ok(p) ==> (signing_key matches Some(k) && sig_valid(
                k@,
                canon_document(attested_view(doc@)),
                p@,
            )),
            signing_key is None ==> r == Err::<String, AttestationError>(
                AttestationError::NoSigningKey,
            ),
            signing_key is Some && !document_clean(attested_view(doc@)) ==> r == Err::<String, AttestationError>(
                AttestationError::SerializationFailed,
            ),
            signing_key matches Some(k) && document_clean(attested_view(doc@)) && !signing_key_usable(k@) ==> r
                == Err::<String, AttestationError>(AttestationError::NoSigningKey),
    {
        self.into_subject().attest(doc, signing_key)
    }

    /// The controlled DID's current update key, from the store.
    pub fn update_key(&self, store: &KeyStore) -> (r: Result<String, KeyManagerError>)
        ensures
            r is Ok <==> lookup(store.entries@, self.controlled_did@, KeyType::UpdateKey) is Some,
            r matches Ok(k) ==> lookup(store.entries@, self.controlled_did@, KeyType::UpdateKey)
                == Some(k@),
            r matches Err(e) ==> e == KeyManagerError::NotFound,
    {
        store.read_key(self.controlled_did.as_str(), KeyType::UpdateKey)
    }

    /// The controlled DID's recovery key, from the store.
    pub fn recovery_key(&self, store: &KeyStore) -> (r: Result<String, KeyManagerError>)
        ensures
            r is Ok <==> lookup(store.entries@, self.controlled_did@, KeyType::RecoveryKey)
                is Some,
            r matches Ok(k) ==> lookup(store.entries@, self.controlled_did@, KeyType::RecoveryKey)
                == Some(k@),
            r matches Err(e) ==> e == KeyManagerError::NotFound,
    {
        store.read_key(self.controlled_did.as_str(), KeyType::RecoveryKey)
    }

    /// The controlled DID's next update key, if one is held locally.
    pub fn next_update_key(&self, store: &KeyStore) -> (r: Result<
        Option<String>,
        KeyManagerError,
    >)
        ensures
            r is Ok <==> lookup(store.entries@, self.controlled_did@, KeyType::NextUpdateKey)
                is Some,
            r matches Ok(o) ==> (o matches Some(k) && lookup(
                store.entries@,
                self.controlled_did@,
                KeyType::NextUpdateKey,
            ) == Some(k@)),
            r matches Err(e) ==> e == KeyManagerError::NotFound,
    {
        let key = store.read_key(self.controlled_did.as_str(), KeyType::NextUpdateKey)?;
        Ok(Some(key))
    }

    /// Generate a fresh next update key for the controlled DID and store
    /// it.  On failure of key generation the store is left untouched.
    pub fn generate_next_update_key(&self, store: &mut KeyStore) -> (r: Result<
        (),
        KeyManagerError,
    >)
        ensures
            r is Ok ==> (lookup(
                final(store).entries@,
                self.controlled_did@,
                KeyType::NextUpdateKey,
            ) matches Some(k) && key_well_formed(k) && signing_key_usable(k)),
            forall|d: Seq<char>, kt: KeyType|
                d != self.controlled_did@ || kt != KeyType::NextUpdateKey ==> lookup(
                    final(store).entries@,
                    d,
                    kt,
                ) == lookup(old(store).entries@, d, kt),
            r is Err ==> final(store).entries@ == old(store).entries@,
            r matches Err(e) ==> e == KeyManagerError::IoFailure,
    {
        match generate_key() {
            Some(k) => {
                let _ = store.save_key(
                    self.controlled_did.as_str(),
                    KeyType::NextUpdateKey,
                    k.as_str(),
                );
                Ok(())
            },
            None => Err(KeyManagerError::IoFailure),
        }
    }

    /// Promote `key` to the controlled DID's active update key and drop
    /// the next-update slot, so that a rotated key is never reused.
    pub fn apply_next_update_key(&self, store: &mut KeyStore, key: &str)
        ensures
            lookup(final(store).entries@, self.controlled_did@, KeyType::UpdateKey) == Some(key@),
            lookup(final(store).entries@, self.controlled_did@, KeyType::NextUpdateKey) is None,
            forall|d: Seq<char>, kt: KeyType|
                d != self.controlled_did@ || (kt != KeyType::UpdateKey && kt
                    != KeyType::NextUpdateKey) ==> lookup(final(store).entries@, d, kt) == lookup(
                    old(store).entries@,
                    d,
                    kt,
                ),
    {
        let _ = store.save_key(self.controlled_did.as_str(), KeyType::UpdateKey, key);
        store.remove_key(self.controlled_did.as_str(), KeyType::NextUpdateKey);
    }

    /// Whether a controller proof is already recorded in the document
    /// metadata.
    pub fn is_proof_in_doc_meta(&self, doc_meta: &DocumentMetadata) -> (b: bool)
        ensures
            b == (doc_meta@.proof is Some),
    {
        match &doc_meta.proof {
            Some(_) => true,
            None => false,
        }
    }

    /// The patch adding a controller-proof service that names `did` as
    /// controller and carries `proof`.
    pub fn add_proof_service(&self, did: &str, proof: &str) -> (r: Patch)
        ensures
            is_add_proof(r, did@, proof@),
    {
        let mut services: Vec<Service> = Vec::new();
        services.push(
            Service {
                id: "trustchain-controller-proof".to_owned(),
                service_type: "TrustchainProofService".to_owned(),
                controller: Some(did.to_owned()),
                proof_value: Some(proof.to_owned()),
            },
        );
        Patch::AddServices { services }
    }

    /// The patch removing the controller-proof service, emitted before a
    /// new proof is added whenever a stale one is present.
    pub fn remove_proof_service(&self) -> (r: Patch)
        ensures
            is_proof_removal(r),
    {
        let mut ids: Vec<String> = Vec::new();
        ids.push("trustchain-controller-proof".to_owned());
        Patch::RemoveServices { ids }
    }

    /// Read the commitment recorded in `doc_meta` for `key_type`.  A
    /// missing commitment is a hard error, distinguishable from a key
    /// mismatch.
    pub fn extract_commitment(&self, doc_meta: &DocumentMetadata, key_type: KeyType) -> (r: Result<
        String,
        TrustchainIONError,
    >)
        ensures
            r is Ok <==> spec_extract_commitment(doc_meta@, key_type) is Ok,
            r matches Ok(c) ==> spec_extract_commitment(doc_meta@, key_type) matches Ok(v) && v
                == c@,
            r matches Err(e) ==> spec_extract_commitment(doc_meta@, key_type) matches Err(v) && v
                == e,
    {
        match key_type {
            KeyType::UpdateKey | KeyType::NextUpdateKey => match &doc_meta.update_commitment {
                Some(c) => Ok(c.clone()),
                None => Err(TrustchainIONError::FailedToExtractCommitment),
            },
            KeyType::RecoveryKey => match &doc_meta.recovery_commitment {
                Some(c) => Ok(c.clone()),
                None => Err(TrustchainIONError::FailedToExtractCommitment),
            },
            KeyType::SigningKey => Err(TrustchainIONError::IncorrectKeyType),
        }
    }

    /// The commitment the ledger would record for a key.
    pub fn key_to_commitment(&self, next_update_key: &str) -> (r: Result<
        String,
        TrustchainIONError,
    >)
        ensures
            r is Ok <==> key_well_formed(next_update_key@),
            r matches Ok(c) ==> c@ == commitment_of(next_update_key@),
            r matches Err(e) ==> e == TrustchainIONError::FailedToConvertToCommitment,
    {
        crate::commitment::key_commitment(next_update_key)
    }

    /// Whether `key` is the commitment key of role `key_type` for the
    /// document described by `doc_meta`: its recomputed commitment equals
    /// the recorded one.  A malformed key or missing commitment is a hard
    /// error, never a silent non-match.
    pub fn is_commitment_key(&self, doc_meta: &DocumentMetadata, key: &str, key_type: KeyType) -> (
        r: Result<bool, TrustchainIONError>)
        ensures
            r is Ok <==> (key_well_formed(key@) && spec_extract_commitment(doc_meta@, key_type)
                is Ok),
            r matches Ok(b) ==> (spec_extract_commitment(doc_meta@, key_type) matches Ok(c) && b
                == spec_key_matches(key@, c)),
            !key_well_formed(key@) ==> r == Err::<bool, TrustchainIONError>(
                TrustchainIONError::FailedToConvertToCommitment,
            ),
            key_well_formed(key@) ==> (r matches Err(e) ==> spec_extract_commitment(
                doc_meta@,
                key_type,
            ) matches Err(v) && v == e),
    {
        let expected = self.key_to_commitment(key)?;
        let actual = self.extract_commitment(doc_meta, key_type)?;
        Ok(str_eq(actual.as_str(), expected.as_str()))
    }

    /// The decision core of attesting to a controlled document.
    ///
    /// First the rotation protocol: when a next-update key is held
    /// locally, it must still match the on-ledger update commitment — if
    /// it does, it is promoted to the active update key; if it does not,
    /// an external rotation happened and the operation aborts rather than
    /// sign with a stale key.  Then the document's canonical form is
    /// signed with the controller's signing key, and the patch list is
    /// built: a removal of the recorded proof service first whenever one
    /// is present, then the new proof service.  Last, a fresh next-update
    /// key is generated and stored.  Resolving the document and submitting
    /// the resulting update operation happen outside the library.
    #[verifier::rlimit(60)]
    pub fn plan_attestation(
        &self,
        doc: &Document,
        doc_meta: &DocumentMetadata,
        store: &mut KeyStore,
    ) -> (r: Result<Vec<Patch>, ControllerError>)
        ensures
            lookup(old(store).entries@, self.controlled_did@, KeyType::NextUpdateKey) matches Some(
                k,
            ) ==> (!key_well_formed(k) ==> r == Err::<Vec<Patch>, ControllerError>(
                ControllerError::Commitment(TrustchainIONError::FailedToConvertToCommitment),
            ) && final(store).entries@ == old(store).entries@),
            lookup(old(store).entries@, self.controlled_did@, KeyType::NextUpdateKey) matches Some(
                k,
            ) ==> (key_well_formed(k) ==> (spec_extract_commitment(
                doc_meta@,
                KeyType::NextUpdateKey,
            ) matches Err(e) ==> r == Err::<Vec<Patch>, ControllerError>(
                ControllerError::Commitment(e),
            ) && final(store).entries@ == old(store).entries@)),
            lookup(old(store).entries@, self.controlled_did@, KeyType::NextUpdateKey) matches Some(
                k,
            ) ==> (key_well_formed(k) ==> (spec_extract_commitment(
                doc_meta@,
                KeyType::NextUpdateKey,
            ) matches Ok(c) ==> (commitment_of(k) != c ==> {
                &&& r matches Err(e2)
                &&& e2 matches ControllerError::StaleNextUpdateKey { did: d } && d@
                    == self.controlled_did@
                &&& final(store).entries@ == old(store).entries@
            }))),
            spec_rotation_ok(old(store).entries@, self.controlled_did@, doc_meta@) ==> {
                let sk = lookup(old(store).entries@, self.did@, KeyType::SigningKey);
                &&& sk is None ==> r == Err::<Vec<Patch>, ControllerError>(
                    ControllerError::Attestation(AttestationError::NoSigningKey),
                )
                &&& (sk is Some && !document_clean(attested_view(doc@))) ==> r == Err::<
                    Vec<Patch>,
                    ControllerError,
                >(ControllerError::Attestation(AttestationError::SerializationFailed))
                &&& (sk matches Some(s) && document_clean(attested_view(doc@)) && !signing_key_usable(s)) ==> r
                    == Err::<Vec<Patch>, ControllerError>(
                    ControllerError::Attestation(AttestationError::NoSigningKey),
                )
                &&& (sk matches Some(s) && document_clean(attested_view(doc@)) && signing_key_usable(s)) ==> (
                r is Ok || r == Err::<Vec<Patch>, ControllerError>(
                    ControllerError::Key(KeyManagerError::IoFailure),
                ))
            },
            r is Ok ==> spec_rotation_ok(old(store).entries@, self.controlled_did@, doc_meta@)
                && lookup(old(store).entries@, self.did@, KeyType::SigningKey) is Some
                && document_clean(attested_view(doc@)),
            r matches Ok(patches) ==> patches@.len() == (if doc_meta@.proof is Some {
                2int
            } else {
                1int
            }),
            r matches Ok(patches) ==> (doc_meta@.proof is Some ==> is_proof_removal(patches@[0])),
            r matches Ok(patches) ==> exists|p: Seq<char>|
                is_add_proof(patches@.last(), self.did@, p) && sig_valid(
                    lookup(old(store).entries@, self.did@, KeyType::SigningKey)->0,
                    canon_document(attested_view(doc@)),
                    p,
                ),
            r is Ok ==> (lookup(
                final(store).entries@,
                self.controlled_did@,
                KeyType::NextUpdateKey,
            ) matches Some(kn) && key_well_formed(kn)),
            r is Ok ==> (lookup(
                old(store).entries@,
                self.controlled_did@,
                KeyType::NextUpdateKey,
            ) matches Some(k) ==> lookup(
                final(store).entries@,
                self.controlled_did@,
                KeyType::UpdateKey,
            ) == Some(k)),
            r is Ok && lookup(old(store).entries@, self.controlled_did@, KeyType::NextUpdateKey)
                is None ==> lookup(final(store).entries@, self.controlled_did@, KeyType::UpdateKey)
                == lookup(old(store).entries@, self.controlled_did@, KeyType::UpdateKey),
            forall|d: Seq<char>, kt: KeyType|
                d != self.controlled_did@ || (kt != KeyType::UpdateKey && kt
                    != KeyType::NextUpdateKey) ==> lookup(final(store).entries@, d, kt) == lookup(
                    old(store).entries@,
                    d,
                    kt,
                ),
    {
        match store.read_key(self.controlled_did.as_str(), KeyType::NextUpdateKey) {
            Ok(next) => {
                match self.is_commitment_key(doc_meta, next.as_str(), KeyType::NextUpdateKey) {
                    Ok(true) => {
                        self.apply_next_update_key(store, next.as_str());
                    },
                    Ok(false) => {
                        return Err(
                            ControllerError::StaleNextUpdateKey {
                                did: self.controlled_did.clone(),
                            },
                        );
                    },
                    Err(e) => {
                        return Err(ControllerError::Commitment(e));
                    },
                }
            },
            Err(_) => {},
        }
        let signing_key = match store.read_key(self.did.as_str(), KeyType::SigningKey) {
            Ok(k) => k,
            Err(_) => {
                return Err(ControllerError::Attestation(AttestationError::NoSigningKey));
            },
        };
        let proof = match self.attest(doc, Some(signing_key.as_str())) {
            Ok(p) => p,
            Err(e) => {
                return Err(ControllerError::Attestation(e));
            },
        };
        let mut patches: Vec<Patch> = Vec::new();
        if self.is_proof_in_doc_meta(doc_meta) {
            patches.push(self.remove_proof_service());
        }
        patches.push(self.add_proof_service(self.did.as_str(), proof.as_str()));
        proof {
            assert(patches@.last() == patches@[patches@.len() - 1]);
            assert(is_add_proof(patches@.last(), self.did@, proof@));
            assert(sig_valid(signing_key@, canon_document(attested_view(doc@)), proof@));
            assert(lookup(old(store).entries@, self.did@, KeyType::SigningKey) == Some(
                signing_key@,
            ));
            assert(exists|p: Seq<char>|
                is_add_proof(patches@.last(), self.did@, p) && sig_valid(
                    lookup(old(store).entries@, self.did@, KeyType::SigningKey)->0,
                    canon_document(attested_view(doc@)),
                    p,
                )) by {
                assert(is_add_proof(patches@.last(), self.did@, proof@));
                assert(sig_valid(
                    lookup(old(store).entries@, self.did@, KeyType::SigningKey)->0,
                    canon_document(attested_view(doc@)),
                    proof@,
                ));
            }
        }
        match self.generate_next_update_key(store) {
            Ok(_) => Ok(patches),
            Err(_) => Err(ControllerError::Key(KeyManagerError::IoFailure)),
        }
    }
}

/// The rotation protocol has nothing left to object to: either no
/// next-update key is held, or the held one still matches the on-ledger
/// update commitment.
pub open spec fn spec_rotation_ok(
    entries: Seq<crate::key_manager::KeyEntry>,
    controlled_did: Seq<char>,
    m: DocumentMetadataView,
) -> bool {
    match lookup(entries, controlled_did, KeyType::NextUpdateKey) {
        None => true,
        Some(k) => {
            &&& key_well_formed(k)
            &&& spec_extract_commitment(m, KeyType::NextUpdateKey) matches Ok(c)
                && commitment_of(k) == c
        },
    }
}

} // verus!
