//! Dealer-based key generation.
//!
//! A trusted dealer samples a random polynomial of degree `t - 1` over the
//! scalar field, hands each of the `n` participants the evaluation at its
//! identifier as a signing share, and publishes the group public key. The
//! dealer sees the full group secret; that single point of trust is a known
//! limitation of dealer-based setup.

use vstd::prelude::*;

use crate::backend;
use crate::errors::Error;

verus! {

/// The public key material of the group, shared read-only with every
/// participant and any verifier.
pub struct GroupInfo {
    /// The outside crate's public key package, used during aggregation.
    pub(crate) raw: backend::RawPublicKeys,
    /// The canonical 33-byte encoding of the group verifying key.
    pub(crate) group_key: Vec<u8>,
}

impl GroupInfo {
    /// The byte encoding of the group verifying key.
    pub closed spec fn key_bytes(&self) -> Seq<u8> {
        self.group_key@
    }

    /// The byte encoding of the group verifying key, against which every
    /// signature of this group verifies.
    pub fn group_key(&self) -> (r: Vec<u8>)
        ensures
            r@ == self.key_bytes(),
    {
        crate::bytes::copy_bytes(&self.group_key)
    }
}

/// One participant's key material: its identifier, the threshold the group
/// was dealt with, and — opaquely — its secret signing share together with
/// the public verification data. Owned by exactly one participant.
pub struct KeyShare {
    /// The participant's identifier; the dealer assigns 1 through n.
    pub id: u16,
    /// The threshold `t` the group was generated with.
    pub threshold: u16,
    /// The outside crate's key package for this participant.
    pub(crate) raw: backend::RawKeyPackage,
}

impl KeyShare {
    /// The participant's identifier.
    pub closed spec fn spec_id(&self) -> u16 {
        self.id
    }

    /// The threshold the group was generated with.
    pub closed spec fn spec_threshold(&self) -> u16 {
        self.threshold
    }

    /// The participant's identifier.
    pub fn participant(&self) -> (r: u16)
        ensures
            r == self.spec_id(),
    {
        self.id
    }

    /// The threshold the group was generated with.
    pub fn min_signers(&self) -> (r: u16)
        ensures
            r == self.spec_threshold(),
    {
        self.threshold
    }
}

/// Dealer key generation: split a fresh random group secret into `n` signing
/// shares with threshold `t` and publish the group's public key material.
///
/// Returns one key share per participant, with identifiers 1 through `n` in
/// order, each carrying the threshold, together with the shared
/// [`GroupInfo`]. Rejects the parameters exactly when they do not satisfy
/// `2 <= t <= n` (the backend demands at least two participants and a
/// threshold of at least two); reports a share whose verification against
/// the dealer commitment fails as [`Error::MalformedShare`] with the
/// offending identifier.
pub fn dealer_keygen(n: u16, t: u16, rng: &mut rand_chacha::ChaCha8Rng) -> (r: Result<
    (Vec<KeyShare>, GroupInfo),
    Error,
>)
    ensures
        r is Ok ==> 2 <= t && t <= n,
        (r matches Err(e) && e == Error::InvalidParameters) <==> !(2 <= t && t <= n),
        r matches Ok(p) ==> {
            &&& p.0@.len() == n as nat
            &&& forall|i: int| 0 <= i < n ==> (#[trigger] p.0@[i]).spec_id() == i + 1
            &&& forall|i: int| 0 <= i < n ==> (#[trigger] p.0@[i]).spec_threshold() == t
        },
        r matches Err(e) ==> e == Error::InvalidParameters || e matches Error::MalformedShare(_),
{
    let (mut raw_shares, info) = match backend::frost_keygen(n, t, rng) {
        Ok(p) => p,
        Err(e) => return Err(e),
    };
    let mut out: Vec<KeyShare> = Vec::new();
    let mut next_id: u16 = 0;
    while raw_shares.len() > 0
        invariant
            2 <= t && t <= n,
            out@.len() + raw_shares@.len() == n as nat,
            next_id as nat == out@.len(),
            forall|i: int| 0 <= i < out@.len() ==> (#[trigger] out@[i]).spec_id() == i + 1,
            forall|i: int| 0 <= i < out@.len() ==> (#[trigger] out@[i]).spec_threshold() == t,
        decreases raw_shares@.len(),
    {
        let raw = raw_shares.remove(0);
        next_id = next_id + 1;
        match backend::frost_key_package(raw) {
            Some(kp) => out.push(KeyShare { id: next_id, threshold: t, raw: kp }),
            None => return Err(Error::MalformedShare(next_id)),
        }
    }
    Ok((out, info))
}

} // verus!
