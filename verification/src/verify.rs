//! Verification of a group signature.
//!
//! Standard single-key Schnorr verification: no secret material is
//! involved, so any third party holding only the group public key can run
//! it. A failed verification is always surfaced, never treated as success.

use vstd::prelude::*;

use crate::aggregate::GroupSignature;
use crate::backend;
use crate::errors::Error;

verus! {

/// Whether `signature` is a valid signature over `message` under the group
/// public key encoded by `group_key`.
pub fn verify(group_key: &Vec<u8>, message: &Vec<u8>, signature: &GroupSignature) -> (b: bool)
    ensures
        b == backend::valid_signature(group_key@, message@, signature.sig_bytes()),
{
    backend::frost_verify(group_key, message, signature.bytes_ref())
}

/// Like [`verify`], but reporting a failure as [`Error::InvalidSignature`].
pub fn check_signature(group_key: &Vec<u8>, message: &Vec<u8>, signature: &GroupSignature) -> (r:
    Result<(), Error>)
    ensures
        r is Ok <==> backend::valid_signature(group_key@, message@, signature.sig_bytes()),
        r matches Err(e) ==> e == Error::InvalidSignature,
{
    if verify(group_key, message, signature) {
        Ok(())
    } else {
        Err(Error::InvalidSignature)
    }
}

} // verus!
