//! End-to-end tests of attestation and chain verification with the real
//! cryptography linked in: accepted chains, each rejection reason, the
//! proof lifecycle, and the rotation protocol.

use trustchain::controller::IONController;
use trustchain::controller::Patch;
use trustchain::document::attested_document;
use trustchain::document::canonical_document;
use trustchain::document::Document;
use trustchain::document::DocumentMetadata;
use trustchain::document::MetadataProof;
use trustchain::document::Service;
use trustchain::errors::AttestationError;
use trustchain::errors::ControllerError;
use trustchain::errors::TrustchainError;
use trustchain::errors::TrustchainIONError;
use trustchain::errors::VerificationError;
use trustchain::key_manager::KeyStore;
use trustchain::key_manager::KeyType;
use trustchain::resolver::ChainEntry;
use trustchain::resolver::Ledger;
use trustchain::resolver::Resolver;
use trustchain::verification::verify_edge;
use trustchain::verification::verify_trustchain;

fn signing_key() -> String {
    "{\"kty\":\"EC\",\"crv\":\"secp256k1\",\"x\":\"yclqMZ0MtyVkKm1eBh2AyaUtsqT0l5RJM3g4SzRT96A\",\"y\":\"yQzUwKnftWCJPGs-faGaHiYi1sxA6fGJVw2Px_LCNe8\",\"d\":\"meTmccmR_6ZsOa2YuTTkKkJ4ZPYsKdAH1Wx_RRf2j_E\"}".to_string()
}

fn other_key() -> String {
    signing_key().replace(
        "yclqMZ0MtyVkKm1eBh2AyaUtsqT0l5RJM3g4SzRT96A",
        "yclqMZ1MtyVkKm1eBh2AyaUtsqT0l5RJM3g4SzRT96A",
    )
}

fn root_did() -> String {
    "did:ion:test:root".to_string()
}

fn child_did() -> String {
    "did:ion:test:child".to_string()
}

fn proof_service(controller: &str, proof: &str) -> Service {
    Service {
        id: "trustchain-controller-proof".to_string(),
        service_type: "TrustchainProofService".to_string(),
        controller: Some(controller.to_string()),
        proof_value: Some(proof.to_string()),
    }
}

fn child_content() -> Document {
    Document {
        did: child_did(),
        controller: Some(root_did()),
        public_keys: Vec::new(),
        services: Vec::new(),
    }
}

fn root_document() -> Document {
    Document {
        did: root_did(),
        controller: None,
        public_keys: vec![signing_key()],
        services: Vec::new(),
    }
}

fn empty_meta() -> DocumentMetadata {
    DocumentMetadata { update_commitment: None, recovery_commitment: None, proof: None }
}

/// The root's metadata, recording `key`'s commitment as its update
/// commitment.
fn root_meta_for(key: &str) -> DocumentMetadata {
    let controller = IONController::new(&root_did(), &child_did());
    DocumentMetadata {
        update_commitment: Some(controller.key_to_commitment(key).unwrap()),
        recovery_commitment: None,
        proof: None,
    }
}

/// A ledger where the root has attested the child's document, with the
/// root's update commitment recording `commitment_key`.
fn attested_ledger(commitment_key: &str) -> Ledger {
    let controller = IONController::new(&root_did(), &child_did());
    let content = child_content();
    let key = signing_key();
    let proof = controller.attest(&content, Some(&key)).unwrap();
    let mut resolved = child_content();
    resolved.services.push(proof_service(&root_did(), &proof));
    let mut ledger = Ledger::new();
    ledger.add(&child_did(), resolved, empty_meta());
    ledger.add(&root_did(), root_document(), root_meta_for(commitment_key));
    ledger
}

#[test]
fn accepted_chain() {
    let ledger = attested_ledger(&signing_key());
    let resolver = Resolver::new(&root_did(), 10);
    let chain = verify_trustchain(&resolver, &ledger, &child_did()).unwrap();
    assert_eq!(chain.len(), 2);
    assert_eq!(chain[0].did, child_did());
    assert_eq!(chain[1].did, root_did());
}

#[test]
fn verification_is_idempotent() {
    // Same ledger, same subject: the same outcome and chain both times.
    let ledger = attested_ledger(&signing_key());
    let resolver = Resolver::new(&root_did(), 10);
    let first = verify_trustchain(&resolver, &ledger, &child_did());
    let second = verify_trustchain(&resolver, &ledger, &child_did());
    assert_eq!(first, second);
    assert!(first.is_ok());
}

#[test]
fn commitment_mismatch_rejected() {
    // The signature is valid, but the attesting key's recomputed
    // commitment differs from the recorded update commitment: the two
    // checks are independent and both are required.
    let ledger = attested_ledger(&other_key());
    let resolver = Resolver::new(&root_did(), 10);
    let result = verify_trustchain(&resolver, &ledger, &child_did());
    assert_eq!(
        result.unwrap_err(),
        TrustchainError::Verification(VerificationError::CommitmentMismatch {
            did: child_did()
        })
    );
}

#[test]
fn missing_commitment_rejected() {
    let controller = IONController::new(&root_did(), &child_did());
    let content = child_content();
    let proof = controller.attest(&content, Some(&signing_key())).unwrap();
    let mut resolved = child_content();
    resolved.services.push(proof_service(&root_did(), &proof));
    let mut ledger = Ledger::new();
    ledger.add(&child_did(), resolved, empty_meta());
    // No update commitment recorded in the root's metadata at all.
    ledger.add(&root_did(), root_document(), empty_meta());
    let resolver = Resolver::new(&root_did(), 10);
    assert_eq!(
        verify_trustchain(&resolver, &ledger, &child_did()).unwrap_err(),
        TrustchainError::Verification(VerificationError::CommitmentMismatch {
            did: child_did()
        })
    );
}

#[test]
fn missing_proof_rejected() {
    let mut ledger = Ledger::new();
    ledger.add(&child_did(), child_content(), empty_meta());
    ledger.add(&root_did(), root_document(), root_meta_for(&signing_key()));
    let resolver = Resolver::new(&root_did(), 10);
    assert_eq!(
        verify_trustchain(&resolver, &ledger, &child_did()).unwrap_err(),
        TrustchainError::Verification(VerificationError::MissingProof { did: child_did() })
    );
}

#[test]
fn proof_naming_wrong_controller_rejected() {
    let controller = IONController::new(&root_did(), &child_did());
    let proof = controller.attest(&child_content(), Some(&signing_key())).unwrap();
    let mut resolved = child_content();
    resolved.services.push(proof_service("did:ion:test:intruder", &proof));
    let mut ledger = Ledger::new();
    ledger.add(&child_did(), resolved, empty_meta());
    ledger.add(&root_did(), root_document(), root_meta_for(&signing_key()));
    let resolver = Resolver::new(&root_did(), 10);
    assert_eq!(
        verify_trustchain(&resolver, &ledger, &child_did()).unwrap_err(),
        TrustchainError::Verification(VerificationError::MissingProof { did: child_did() })
    );
}

#[test]
fn invalid_signature_rejected() {
    let mut resolved = child_content();
    resolved.services.push(proof_service(&root_did(), "not-a-signature"));
    let mut ledger = Ledger::new();
    ledger.add(&child_did(), resolved, empty_meta());
    ledger.add(&root_did(), root_document(), root_meta_for(&signing_key()));
    let resolver = Resolver::new(&root_did(), 10);
    assert_eq!(
        verify_trustchain(&resolver, &ledger, &child_did()).unwrap_err(),
        TrustchainError::Verification(VerificationError::InvalidSignature { did: child_did() })
    );
}

#[test]
fn signature_over_other_content_rejected() {
    // A genuine signature, but over a document other than the resolved one.
    let controller = IONController::new(&root_did(), &child_did());
    let mut altered = child_content();
    altered.did = "did:ion:test:someone-else".to_string();
    let proof = controller.attest(&altered, Some(&signing_key())).unwrap();
    let mut resolved = child_content();
    resolved.services.push(proof_service(&root_did(), &proof));
    let mut ledger = Ledger::new();
    ledger.add(&child_did(), resolved, empty_meta());
    ledger.add(&root_did(), root_document(), root_meta_for(&signing_key()));
    let resolver = Resolver::new(&root_did(), 10);
    assert_eq!(
        verify_trustchain(&resolver, &ledger, &child_did()).unwrap_err(),
        TrustchainError::Verification(VerificationError::InvalidSignature { did: child_did() })
    );
}

#[test]
fn verify_edge_directly() {
    let controller = IONController::new(&root_did(), &child_did());
    let proof = controller.attest(&child_content(), Some(&signing_key())).unwrap();
    let mut resolved = child_content();
    resolved.services.push(proof_service(&root_did(), &proof));
    let child_entry = ChainEntry {
        did: child_did(),
        document: resolved,
        metadata: empty_meta(),
    };
    let parent_entry = ChainEntry {
        did: root_did(),
        document: root_document(),
        metadata: root_meta_for(&signing_key()),
    };
    assert!(verify_edge(&child_entry, &parent_entry).is_ok());

    // The proof is not the payload handed back: the signing wrapper does
    // real work.
    let payload = canonical_document(&attested_document(&child_entry.document)).unwrap();
    assert_ne!(proof, payload);
}

#[test]
fn attest_error_cases() {
    let controller = IONController::new(&root_did(), &child_did());
    assert_eq!(
        controller.attest(&child_content(), None),
        Err(AttestationError::NoSigningKey)
    );
    assert_eq!(
        controller.attest(&child_content(), Some("not a key")),
        Err(AttestationError::NoSigningKey)
    );
    let mut unclean = child_content();
    unclean.did = "did:ion:test:\\oops".to_string();
    assert_eq!(
        controller.attest(&unclean, Some(&signing_key())),
        Err(AttestationError::SerializationFailed)
    );
}

#[test]
fn proof_lifecycle() {
    // Attesting a document with no recorded proof yields a single
    // add-services patch; re-attesting one with a recorded proof emits
    // the remove-services patch first.
    let controller = IONController::new(&root_did(), &child_did());
    let mut store = KeyStore::new();
    store.save_key(&root_did(), KeyType::SigningKey, &signing_key()).unwrap();

    let fresh = controller
        .plan_attestation(&child_content(), &empty_meta(), &mut store)
        .unwrap();
    assert_eq!(fresh.len(), 1);
    match &fresh[0] {
        Patch::AddServices { services } => {
            assert_eq!(services.len(), 1);
            assert_eq!(services[0].id, "trustchain-controller-proof");
            assert_eq!(services[0].service_type, "TrustchainProofService");
            assert_eq!(services[0].controller, Some(root_did()));
        },
        Patch::RemoveServices { .. } => panic!("expected an add-services patch"),
    }

    let meta_with_proof = DocumentMetadata {
        update_commitment: None,
        recovery_commitment: None,
        proof: Some(MetadataProof {
            controller: root_did(),
            proof_value: "previous-proof".to_string(),
        }),
    };
    // A fresh store: the controller holds no pending next-update key here.
    let mut second_store = KeyStore::new();
    second_store.save_key(&root_did(), KeyType::SigningKey, &signing_key()).unwrap();
    let again = controller
        .plan_attestation(&child_content(), &meta_with_proof, &mut second_store)
        .unwrap();
    assert_eq!(again.len(), 2);
    match &again[0] {
        Patch::RemoveServices { ids } => {
            assert_eq!(ids, &vec!["trustchain-controller-proof".to_string()]);
        },
        Patch::AddServices { .. } => panic!("expected the removal patch first"),
    }
    assert!(matches!(&again[1], Patch::AddServices { .. }));
}

#[test]
fn attestation_patch_verifies() {
    // The proof produced by the attestation flow verifies as a chain edge.
    let controller = IONController::new(&root_did(), &child_did());
    let mut store = KeyStore::new();
    store.save_key(&root_did(), KeyType::SigningKey, &signing_key()).unwrap();
    let patches = controller
        .plan_attestation(&child_content(), &empty_meta(), &mut store)
        .unwrap();
    let proof = match &patches[0] {
        Patch::AddServices { services } => services[0].proof_value.clone().unwrap(),
        Patch::RemoveServices { .. } => panic!("expected an add-services patch"),
    };
    let mut resolved = child_content();
    resolved.services.push(proof_service(&root_did(), &proof));
    let child_entry = ChainEntry { did: child_did(), document: resolved, metadata: empty_meta() };
    let parent_entry = ChainEntry {
        did: root_did(),
        document: root_document(),
        metadata: root_meta_for(&signing_key()),
    };
    assert!(verify_edge(&child_entry, &parent_entry).is_ok());
}

#[test]
fn rotation_protocol() {
    let controller = IONController::new(&root_did(), &child_did());

    // A held next-update key matching the on-ledger update commitment is
    // promoted to the active update key before signing.
    let mut store = KeyStore::new();
    store.save_key(&root_did(), KeyType::SigningKey, &signing_key()).unwrap();
    store.save_key(&child_did(), KeyType::NextUpdateKey, &other_key()).unwrap();
    let meta = DocumentMetadata {
        update_commitment: Some(controller.key_to_commitment(&other_key()).unwrap()),
        recovery_commitment: None,
        proof: None,
    };
    let patches = controller.plan_attestation(&child_content(), &meta, &mut store);
    assert!(patches.is_ok());
    assert_eq!(controller.update_key(&store), Ok(other_key()));
    // A fresh next-update key was generated, distinct from the promoted one.
    let next = controller.next_update_key(&store).unwrap().unwrap();
    assert_ne!(next, other_key());

    // A held next-update key that no longer matches the commitment means
    // an external rotation happened: the operation aborts.
    let mut stale_store = KeyStore::new();
    stale_store.save_key(&root_did(), KeyType::SigningKey, &signing_key()).unwrap();
    stale_store.save_key(&child_did(), KeyType::NextUpdateKey, &other_key()).unwrap();
    let mismatched = DocumentMetadata {
        update_commitment: Some(controller.key_to_commitment(&signing_key()).unwrap()),
        recovery_commitment: None,
        proof: None,
    };
    assert_eq!(
        controller.plan_attestation(&child_content(), &mismatched, &mut stale_store),
        Err(ControllerError::StaleNextUpdateKey { did: child_did() })
    );

    // A malformed held key is a hard error, not a silent non-match.
    let mut bad_store = KeyStore::new();
    bad_store.save_key(&root_did(), KeyType::SigningKey, &signing_key()).unwrap();
    bad_store.save_key(&child_did(), KeyType::NextUpdateKey, "garbage").unwrap();
    assert_eq!(
        controller.plan_attestation(&child_content(), &mismatched, &mut bad_store),
        Err(ControllerError::Commitment(TrustchainIONError::FailedToConvertToCommitment))
    );

    // No signing key in the store: attestation cannot proceed.
    let mut keyless = KeyStore::new();
    assert_eq!(
        controller.plan_attestation(&child_content(), &empty_meta(), &mut keyless),
        Err(ControllerError::Attestation(AttestationError::NoSigningKey))
    );
}

#[test]
fn generated_keys_differ() {
    let controller = IONController::new(&root_did(), &child_did());
    let mut store = KeyStore::new();
    controller.generate_next_update_key(&mut store).unwrap();
    let first = controller.next_update_key(&store).unwrap().unwrap();
    controller.generate_next_update_key(&mut store).unwrap();
    let second = controller.next_update_key(&store).unwrap().unwrap();
    assert_ne!(first, second);
    // Generated keys work with the commitment scheme.
    assert!(controller.key_to_commitment(&first).is_ok());
}
