//! The cryptographic boundary of the library.
//!
//! Keys travel through the library as JWK strings, and the three
//! cryptographic operations the trust-chain protocol needs — deriving the
//! on-ledger commitment of a key, producing a detached signature, and
//! checking one — are performed by the `ssi` and `did-ion` crates behind
//! the trusted wrappers below.  Their results are named by uninterpreted
//! spec functions: each is a function of its arguments alone, so the names
//! are sound, and every contract elsewhere in the library speaks through
//! them.

use vstd::prelude::*;

#[allow(unused_imports)]
use did_ion::sidetree::Sidetree;

verus! {

/// Whether a JWK string parses as a key whose public form yields a
/// Sidetree commitment.
pub uninterp spec fn key_well_formed(key: Seq<char>) -> bool;

/// The commitment the ledger records for a key: the result of did-ion's
/// commitment scheme (canonicalize the public JWK, then hash twice) on the
/// key parsed from the string.  Meaningful only when `key_well_formed`
/// holds of the same string.
pub uninterp spec fn commitment_of(key: Seq<char>) -> Seq<char>;

/// Whether `sig` is a valid detached signature over `payload` by the key
/// parsed from the JWK string `key`.
pub uninterp spec fn sig_valid(key: Seq<char>, payload: Seq<char>, sig: Seq<char>) -> bool;

/// Whether the JWK string parses as a key that can produce detached
/// signatures (a supported algorithm with private material).
pub uninterp spec fn signing_key_usable(key: Seq<char>) -> bool;

/// Relies on `did_ion::sidetree::Sidetree::commitment_scheme` for `ION`:
/// the commitment is computed by canonicalizing the public JWK and hashing
/// twice, a deterministic function of the key string alone; it exists
/// exactly when the string parses as a JWK whose public form converts to a
/// public-key JWK and canonicalizes.
#[verifier::external_body]
pub(crate) fn derive_commitment(key: &str) -> (r: Option<String>)
    ensures
        r is Some <==> key_well_formed(key@),
        r matches Some(c) ==> c@ == commitment_of(key@),
{
    let jwk: ssi::jwk::JWK = match serde_json::from_str(key) {
        Ok(k) => k,
        Err(_) => return None,
    };
    let pk = match did_ion::sidetree::PublicKeyJwk::try_from(jwk.to_public()) {
        Ok(p) => p,
        Err(_) => return None,
    };
    match did_ion::ION::commitment_scheme(&pk) {
        Ok(c) => Some(c),
        Err(_) => None,
    }
}

/// Relies on `ssi::jws::detached_sign_unencoded_payload`: signing succeeds
/// exactly when the string parses as a JWK with a supported algorithm —
/// for the elliptic-curve and Edwards keys this library deals in, signing
/// is deterministic and never fails on a usable key — and a signature it
/// produces verifies (via `ssi::jws::detached_verify`) against the same
/// key and payload.
#[verifier::external_body]
pub(crate) fn sign_detached(key: &str, payload: &str) -> (r: Option<String>)
    ensures
        r is Some <==> signing_key_usable(key@),
        r matches Some(s) ==> sig_valid(key@, payload@, s@),
{
    let jwk: ssi::jwk::JWK = match serde_json::from_str(key) {
        Ok(k) => k,
        Err(_) => return None,
    };
    let alg = match jwk.get_algorithm() {
        Some(a) => a,
        None => return None,
    };
    ssi::jws::detached_sign_unencoded_payload(alg, payload.as_bytes(), &jwk).ok()
}

/// Relies on `ssi::jws::detached_verify`: acceptance of a detached JWS is a
/// deterministic function of the key string, the payload and the signature.
#[verifier::external_body]
pub(crate) fn verify_detached(key: &str, payload: &str, sig: &str) -> (r: bool)
    ensures
        r == sig_valid(key@, payload@, sig@),
{
    let jwk: ssi::jwk::JWK = match serde_json::from_str(key) {
        Ok(k) => k,
        Err(_) => return false,
    };
    ssi::jws::detached_verify(sig, payload.as_bytes(), &jwk).is_ok()
}

/// Relies on `ssi::jwk::JWK::generate_secp256k1`: a freshly generated
/// secp256k1 JWK serializes to a string that parses back, has the ES256K
/// algorithm for signing, and whose public form yields a commitment.
#[verifier::external_body]
pub(crate) fn generate_key() -> (r: Option<String>)
    ensures
        r matches Some(k) ==> key_well_formed(k@) && signing_key_usable(k@),
{
    let jwk = match ssi::jwk::JWK::generate_secp256k1() {
        Ok(k) => k,
        Err(_) => return None,
    };
    serde_json::to_string(&jwk).ok()
}

} // verus!
