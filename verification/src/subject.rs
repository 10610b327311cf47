//! The subject capability: any DID-controlled entity can report its own
//! DID and attest (sign) a document belonging to an entity it controls.

use vstd::prelude::*;

use crate::crypto::sig_valid;
use crate::crypto::sign_detached;
use crate::crypto::signing_key_usable;
use crate::document::attested_document;
use crate::document::attested_view;
use crate::document::canon_document;
use crate::document::canonical_document;
use crate::document::document_clean;
use crate::document::Document;
use crate::errors::AttestationError;

verus! {

/// A subject identified by its DID.
#[derive(Debug)]
pub struct IONSubject {
    pub did: String,
}

impl IONSubject {
    pub fn new(did: &str) -> (s: IONSubject)
        ensures
            s.did@ == did@,
    {
        IONSubject { did: did.to_owned() }
    }

    pub fn did<'a>(&'a self) -> (r: &'a str)
        ensures
            r@ == self.did@,
    {
        self.did.as_str()
    }

    /// Produce a detached signature over the canonical serialization of
    /// `doc`.  Attestation succeeds exactly when a signing key is supplied,
    /// the document canonicalizes, and the key is usable; it mutates
    /// nothing beyond producing the proof value.
    pub fn attest(&self, doc: &Document, signing_key: Option<&str>) -> (r: Result<
        String,
        AttestationError,
    >)
        ensures
            r is Ok <==> (signing_key matches Some(k) && document_clean(attested_view(doc@))
                && signing_key_usable(k@)),
            r matches Ok(p) ==> (signing_key matches Some(k) && sig_valid(
                k@,
                canon_document(attested_view(doc@)),
                p@,
            )),
            signing_key is None ==> r == Err::<String, AttestationError>(
                AttestationError::NoSigningKey,
            ),
            signing_key is Some && !document_clean(attested_view(doc@)) ==> r == Err::<String, AttestationError>(
                AttestationError::SerializationFailed,
            ),
            signing_key matches Some(k) && document_clean(attested_view(doc@)) && !signing_key_usable(k@) ==> r
                == Err::<String, AttestationError>(AttestationError::NoSigningKey),
    {
        let key = match signing_key {
            Some(k) => k,
            None => {
                return Err(AttestationError::NoSigningKey);
            },
        };
        let content = attested_document(doc);
        let payload = match canonical_document(&content) {
            Some(c) => c,
            None => {
                return Err(AttestationError::SerializationFailed);
            },
        };
        match sign_detached(key, payload.as_str()) {
            Some(sig) => Ok(sig),
            None => Err(AttestationError::NoSigningKey),
        }
    }
}

} // verus!
