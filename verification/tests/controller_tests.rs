//! Tests for the controller capability: key-store round trips, proof
//! detection, commitment extraction and checking, and proof-service
//! patches.

use trustchain::commitment::key_commitment;
use trustchain::commitment::key_matches_commitment;
use trustchain::controller::ControllerData;
use trustchain::controller::IONController;
use trustchain::controller::Patch;
use trustchain::document::DocumentMetadata;
use trustchain::document::MetadataProof;
use trustchain::errors::TrustchainIONError;
use trustchain::key_manager::KeyStore;
use trustchain::key_manager::KeyType;

/// A fixed secp256k1 JWK, private part included.
fn test_update_key() -> String {
    "{\"kty\":\"EC\",\"crv\":\"secp256k1\",\"x\":\"yclqMZ0MtyVkKm1eBh2AyaUtsqT0l5RJM3g4SzRT96A\",\"y\":\"yQzUwKnftWCJPGs-faGaHiYi1sxA6fGJVw2Px_LCNe8\",\"d\":\"meTmccmR_6ZsOa2YuTTkKkJ4ZPYsKdAH1Wx_RRf2j_E\"}".to_string()
}

/// A second key: same shape, different point material.
fn test_recovery_key() -> String {
    test_update_key().replace("yclqMZ0MtyVkKm1eBh2AyaUtsqT0l5RJM3g4SzRT96A", "yclqMZ1MtyVkKm1eBh2AyaUtsqT0l5RJM3g4SzRT96A")
}

fn test_controller(
    did: &str,
    controlled_did: &str,
    store: &mut KeyStore,
) -> IONController {
    let data = ControllerData::new(
        did.to_string(),
        controlled_did.to_string(),
        test_update_key(),
        test_recovery_key(),
    );
    IONController::try_from_data(data, store).unwrap()
}

fn meta(update: Option<&str>, recovery: Option<&str>, proof: Option<(&str, &str)>) -> DocumentMetadata {
    DocumentMetadata {
        update_commitment: update.map(|c| c.to_string()),
        recovery_commitment: recovery.map(|c| c.to_string()),
        proof: proof.map(|(controller, value)| MetadataProof {
            controller: controller.to_string(),
            proof_value: value.to_string(),
        }),
    }
}

#[test]
fn test_try_from() {
    let mut store = KeyStore::new();
    let did = "did_try_from";
    let controlled_did = "controlled_did_try_from";
    let target = test_controller(did, controlled_did, &mut store);

    assert_eq!(target.controlled_did(), controlled_did);

    let loaded_update_key = target.update_key(&store).unwrap();
    assert_eq!(loaded_update_key, test_update_key());

    let loaded_recovery_key = target.recovery_key(&store).unwrap();
    assert_eq!(loaded_recovery_key, test_recovery_key());
}

#[test]
fn test_into_subject() {
    let mut store = KeyStore::new();
    let did = "did_into_subject";
    let controlled_did = "controlled_did_into_subject";
    let target = test_controller(did, controlled_did, &mut store);
    assert_eq!(target.did(), did);
    assert_ne!(target.did(), controlled_did);

    let result = target.into_subject();
    assert_eq!(result.did(), did);
    assert_ne!(result.did(), controlled_did);
}

#[test]
fn test_is_proof_in_doc_meta() {
    let mut store = KeyStore::new();
    let did = "did_is_proof_in_doc_meta";
    let controlled_did = "controlled_is_proof_in_doc_meta";
    let controller = test_controller(did, controlled_did, &mut store);

    let with_proof = meta(Some("c1"), Some("c2"), Some((did, "proof-value")));
    assert!(controller.is_proof_in_doc_meta(&with_proof));

    let without_proof = meta(Some("c1"), Some("c2"), None);
    assert!(!controller.is_proof_in_doc_meta(&without_proof));
}

#[test]
fn test_extract_commitment() {
    let mut store = KeyStore::new();
    let did = "did_is_proof_in_doc_meta";
    let controlled_did = "controlled_is_proof_in_doc_meta";
    let controller = test_controller(did, controlled_did, &mut store);
    let expected_recovery_commitment = "EiBKWQyomumgZvqiRVZnqwA2-7RVZ6Xr-cwDRmeXJT_k9g";
    let expected_update_commitment = "EiCe3q-ZByJnzI6CwGIDj-M67W-Yv78L3ejxcuEDxnWzMg";
    let doc_meta = meta(
        Some(expected_update_commitment),
        Some(expected_recovery_commitment),
        Some((did, "proof-value")),
    );

    let update_commitment = controller
        .extract_commitment(&doc_meta, KeyType::UpdateKey)
        .unwrap();
    assert_eq!(expected_update_commitment, update_commitment.as_str());

    let next_update_commitment = controller
        .extract_commitment(&doc_meta, KeyType::NextUpdateKey)
        .unwrap();
    assert_eq!(expected_update_commitment, next_update_commitment.as_str());

    let recovery_commitment = controller
        .extract_commitment(&doc_meta, KeyType::RecoveryKey)
        .unwrap();
    assert_eq!(expected_recovery_commitment, recovery_commitment.as_str());
}

#[test]
fn extract_commitment_errors() {
    let mut store = KeyStore::new();
    let controller = test_controller("did_a", "did_b", &mut store);
    let empty = meta(None, None, None);
    assert_eq!(
        controller.extract_commitment(&empty, KeyType::UpdateKey),
        Err(TrustchainIONError::FailedToExtractCommitment)
    );
    assert_eq!(
        controller.extract_commitment(&empty, KeyType::RecoveryKey),
        Err(TrustchainIONError::FailedToExtractCommitment)
    );
    let full = meta(Some("c1"), Some("c2"), None);
    assert_eq!(
        controller.extract_commitment(&full, KeyType::SigningKey),
        Err(TrustchainIONError::IncorrectKeyType)
    );
}

#[test]
fn test_key_to_commitment() {
    let mut store = KeyStore::new();
    let did = "did_key_to_commitment";
    let controlled_did = "controlled_key_to_commitment";
    let controller = test_controller(did, controlled_did, &mut store);

    let update_key = test_update_key();
    let recovery_key = test_recovery_key();

    let update_commitment = controller.key_to_commitment(&update_key).unwrap();
    let recovery_commitment = controller.key_to_commitment(&recovery_key).unwrap();

    // The derivation is deterministic, differs between keys, and is not
    // the key itself.
    assert_eq!(
        update_commitment,
        controller.key_to_commitment(&update_key).unwrap()
    );
    assert_ne!(update_commitment, recovery_commitment);
    assert_ne!(update_commitment, update_key);

    assert_eq!(
        controller.key_to_commitment("not a key"),
        Err(TrustchainIONError::FailedToConvertToCommitment)
    );
}

#[test]
fn test_is_commitment_key() {
    let mut store = KeyStore::new();
    let did = "did_is_commitment_key";
    let controlled_did = "controlled_is_commitment_key";
    let controller = test_controller(did, controlled_did, &mut store);
    let update_key = test_update_key();
    let recovery_key = test_recovery_key();
    let update_commitment = controller.key_to_commitment(&update_key).unwrap();
    let recovery_commitment = controller.key_to_commitment(&recovery_key).unwrap();
    let doc_meta = meta(Some(&update_commitment), Some(&recovery_commitment), None);

    assert_eq!(
        controller.is_commitment_key(&doc_meta, &update_key, KeyType::UpdateKey),
        Ok(true)
    );
    assert_eq!(
        controller.is_commitment_key(&doc_meta, &recovery_key, KeyType::RecoveryKey),
        Ok(true)
    );
    assert_eq!(
        controller.is_commitment_key(&doc_meta, &recovery_key, KeyType::UpdateKey),
        Ok(false)
    );
    assert_eq!(
        controller.is_commitment_key(&doc_meta, "garbage", KeyType::UpdateKey),
        Err(TrustchainIONError::FailedToConvertToCommitment)
    );
    let empty = meta(None, None, None);
    assert_eq!(
        controller.is_commitment_key(&empty, &update_key, KeyType::UpdateKey),
        Err(TrustchainIONError::FailedToExtractCommitment)
    );
}

#[test]
fn test_add_proof_service() {
    let mut store = KeyStore::new();
    let did = "did_add_proof_service";
    let controlled_did = "controlled_add_proof_service";
    let controller = test_controller(did, controlled_did, &mut store);
    let proof = "test_proof_information".to_string();
    let patch = controller.add_proof_service(controlled_did, &proof);
    match patch {
        Patch::AddServices { services } => {
            assert_eq!(services.len(), 1);
            assert_eq!(services[0].id, "trustchain-controller-proof");
            assert_eq!(services[0].service_type, "TrustchainProofService");
            assert_eq!(services[0].controller, Some(controlled_did.to_string()));
            assert_eq!(services[0].proof_value, Some(proof));
        },
        Patch::RemoveServices { .. } => panic!("expected an add-services patch"),
    }
}

#[test]
fn commitment_round_trip() {
    // A key always matches its own recomputed commitment, under any role,
    // and a different key does not.
    let key = test_update_key();
    let other = test_recovery_key();
    let commitment = key_commitment(&key).unwrap();
    assert_eq!(
        key_matches_commitment(&key, &commitment, KeyType::UpdateKey),
        Ok(true)
    );
    assert_eq!(
        key_matches_commitment(&key, &commitment, KeyType::RecoveryKey),
        Ok(true)
    );
    assert_eq!(
        key_matches_commitment(&other, &commitment, KeyType::UpdateKey),
        Ok(false)
    );
    assert_eq!(
        key_matches_commitment("{}", &commitment, KeyType::UpdateKey),
        Err(TrustchainIONError::FailedToConvertToCommitment)
    );
}

#[test]
fn key_store_read_write_remove() {
    let mut store = KeyStore::new();
    assert_eq!(
        store.read_key("d", KeyType::SigningKey),
        Err(trustchain::errors::KeyManagerError::NotFound)
    );
    store.save_key("d", KeyType::SigningKey, "k1").unwrap();
    assert_eq!(store.read_key("d", KeyType::SigningKey), Ok("k1".to_string()));
    store.save_key("d", KeyType::SigningKey, "k2").unwrap();
    assert_eq!(store.read_key("d", KeyType::SigningKey), Ok("k2".to_string()));
    assert_eq!(
        store.read_key("d", KeyType::UpdateKey),
        Err(trustchain::errors::KeyManagerError::NotFound)
    );
    store.remove_key("d", KeyType::SigningKey);
    assert_eq!(
        store.read_key("d", KeyType::SigningKey),
        Err(trustchain::errors::KeyManagerError::NotFound)
    );
}
