//! Primitives for a multi-message redactable-signature scheme over
//! pairing groups.  This is an exploratory corner of the library: it is
//! not wired into the resolution and verification pipeline, and only the
//! group-element containers and the parameter generator live here.  The
//! group arithmetic itself belongs to the `amcl_wrapper` crate, whose
//! values are opaque to the verifier.

use vstd::prelude::*;

#[allow(unused_imports)]
use amcl_wrapper::group_elem::GroupElement;

verus! {

#[verifier::external_type_specification]
#[verifier::external_body]
pub struct ExG1(amcl_wrapper::group_elem_g1::G1);

#[verifier::external_type_specification]
#[verifier::external_body]
pub struct ExG2(amcl_wrapper::group_elem_g2::G2);

/// A signature of the scheme: four elements of the signature group.
pub struct PSSignature {
    pub sigma_1: amcl_wrapper::group_elem_g1::G1,
    pub sigma_2: amcl_wrapper::group_elem_g1::G1,
    pub sigma_prime_1: amcl_wrapper::group_elem_g1::G1,
    pub sigma_prime_2: amcl_wrapper::group_elem_g1::G1,
}

/// Public parameters of the scheme: a generator of the signature group
/// and one of the verification-key group, both derived from a label.
pub struct Param {
    pub g: amcl_wrapper::group_elem_g1::G1,
    pub g_tilde: amcl_wrapper::group_elem_g2::G2,
}

/// Relies on `amcl_wrapper`'s `GroupElement::from_msg_hash` for `G1` and
/// `G2`: each generator is obtained by hashing the label, suffixed per
/// group, onto the curve.  The group elements are opaque here, so nothing
/// further is stated of them.
#[allow(non_snake_case)]
#[verifier::external_body]
pub fn GenerateParam(label: &[u8]) -> Param {
    let g = amcl_wrapper::group_elem_g1::G1::from_msg_hash(&[label, " : g".as_bytes()].concat());
    let g_tilde = amcl_wrapper::group_elem_g2::G2::from_msg_hash(
        &[label, " : g_tilde".as_bytes()].concat(),
    );
    Param { g, g_tilde }
}

} // verus!
