//! Tests for the document model: the canonical serialization, the
//! attested form a controller signs, deep copies, and DID suffixes.

use trustchain::document::attested_document;
use trustchain::document::canonical_document;
use trustchain::document::did_suffix;
use trustchain::document::Document;
use trustchain::document::Service;

fn sample_document() -> Document {
    Document {
        did: "did:ion:test:d".to_string(),
        controller: Some("did:ion:test:c".to_string()),
        public_keys: vec!["key-material".to_string()],
        services: vec![Service {
            id: "trustchain-controller-proof".to_string(),
            service_type: "TrustchainProofService".to_string(),
            controller: Some("did:ion:test:c".to_string()),
            proof_value: Some("p".to_string()),
        }],
    }
}

#[test]
fn canonical_form_is_exact() {
    let doc = sample_document();
    let canonical = canonical_document(&doc).unwrap();
    assert_eq!(
        canonical,
        "{\"controller\":\"did:ion:test:c\",\"did\":\"did:ion:test:d\",\"services\":[{\"controller\":\"did:ion:test:c\",\"id\":\"trustchain-controller-proof\",\"proofValue\":\"p\",\"type\":\"TrustchainProofService\"}]}"
    );
}

#[test]
fn canonical_form_of_root_document() {
    let doc = Document {
        did: "did:ion:test:root".to_string(),
        controller: None,
        public_keys: Vec::new(),
        services: Vec::new(),
    };
    let canonical = canonical_document(&doc).unwrap();
    assert_eq!(
        canonical,
        "{\"controller\":null,\"did\":\"did:ion:test:root\",\"services\":[]}"
    );
}

#[test]
fn attested_form_strips_proof_services() {
    let doc = sample_document();
    let content = attested_document(&doc);
    assert_eq!(content.did, doc.did);
    assert_eq!(content.controller, doc.controller);
    assert_eq!(content.public_keys, doc.public_keys);
    assert!(content.services.is_empty());
    let canonical = canonical_document(&content).unwrap();
    assert_eq!(
        canonical,
        "{\"controller\":\"did:ion:test:c\",\"did\":\"did:ion:test:d\",\"services\":[]}"
    );
}

#[test]
fn attested_form_keeps_other_services() {
    let mut doc = sample_document();
    doc.services.push(Service {
        id: "unrelated".to_string(),
        service_type: "SomeService".to_string(),
        controller: None,
        proof_value: None,
    });
    let content = attested_document(&doc);
    assert_eq!(content.services.len(), 1);
    assert_eq!(content.services[0].id, "unrelated");
}

#[test]
fn unclean_document_has_no_canonical_form() {
    let mut doc = sample_document();
    doc.did = "did:ion:test:\"d\"".to_string();
    assert!(canonical_document(&doc).is_none());
    let mut doc2 = sample_document();
    doc2.did = "did:ion:test:\\d".to_string();
    assert!(canonical_document(&doc2).is_none());
}

#[test]
fn duplicate_preserves_documents() {
    let doc = sample_document();
    let copy = doc.duplicate();
    assert_eq!(copy, doc);
}

#[test]
fn did_suffixes() {
    assert_eq!(did_suffix("did:ion:test:abc"), "abc");
    assert_eq!(did_suffix("plain"), "plain");
    assert_eq!(did_suffix("ends:"), "");
    assert_eq!(did_suffix(""), "");
}
