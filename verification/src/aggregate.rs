//! Aggregation of signature shares into one group Schnorr signature.

use vstd::prelude::*;

use crate::backend;
use crate::bytes::copy_bytes;
use crate::errors::Error;
use crate::ids;
use crate::keygen::GroupInfo;
use crate::round2::SignatureShare;
use crate::round2::SigningPackage;

verus! {

/// The sequence of identifiers of a list of signature shares.
pub open spec fn share_ids(s: Seq<SignatureShare>) -> Seq<u16> {
    Seq::new(s.len(), |i: int| s[i].spec_id())
}

/// The final output of the protocol: one Schnorr signature, held as its
/// canonical 65-byte encoding, verifiable against the group public key
/// alone.
pub struct GroupSignature {
    pub(crate) bytes: Vec<u8>,
}

impl GroupSignature {
    /// The canonical byte encoding of the signature.
    pub closed spec fn sig_bytes(&self) -> Seq<u8> {
        self.bytes@
    }

    /// The canonical byte encoding of the signature, borrowed.
    pub fn bytes_ref(&self) -> (r: &Vec<u8>)
        ensures
            r@ == self.sig_bytes(),
    {
        &self.bytes
    }

    /// The canonical byte encoding of the signature.
    pub fn to_bytes(&self) -> (r: Vec<u8>)
        ensures
            r@ == self.sig_bytes(),
    {
        copy_bytes(&self.bytes)
    }
}

/// Combine the collected signature shares with the public key material into
/// one group signature.
///
/// Fails with [`Error::InsufficientShares`] exactly when fewer shares than
/// the package's threshold are supplied, and with
/// [`Error::DuplicateIdentifier`] when two shares carry the same
/// identifier. A signature is returned only if the backend's own check of
/// the summed signature against the group key succeeded, so every returned
/// signature verifies; if that check fails, the offending participant is
/// named in [`Error::MalformedShare`].
pub fn aggregate(pkg: &SigningPackage, shares: &Vec<SignatureShare>, group: &GroupInfo) -> (r:
    Result<GroupSignature, Error>)
    ensures
        shares@.len() < pkg.min_signers() as nat ==> (r matches Err(e) && e
            == Error::InsufficientShares),
        r matches Ok(sig) ==> {
            &&& shares@.len() >= pkg.min_signers() as nat
            &&& backend::valid_signature(group.key_bytes(), pkg.msg(), sig.sig_bytes())
        },
        r matches Err(e) ==> (e == Error::InsufficientShares || e == Error::DuplicateIdentifier
            || e matches Error::MalformedShare(_) || e == Error::IdentifierMismatch),
        (r matches Err(e) && e == Error::InsufficientShares) ==> shares@.len()
            < pkg.min_signers() as nat,
        (r matches Err(e) && e == Error::DuplicateIdentifier) ==> !ids::unique_ids(
            share_ids(shares@),
        ),
{
    if shares.len() < pkg.threshold() as usize {
        return Err(Error::InsufficientShares);
    }
    let mut id_list: Vec<u16> = Vec::new();
    let mut k: usize = 0;
    while k < shares.len()
        invariant
            k <= shares@.len(),
            id_list@.len() == k as nat,
            forall|i: int| 0 <= i < k ==> id_list@[i] == (#[trigger] shares@[i]).spec_id(),
        decreases shares@.len() - k,
    {
        id_list.push(shares[k].participant());
        k = k + 1;
    }
    proof {
        assert(id_list@ =~= share_ids(shares@));
    }
    if !ids::ids_unique(&id_list) {
        return Err(Error::DuplicateIdentifier);
    }
    match backend::frost_aggregate(pkg, shares, group) {
        Ok(bytes) => Ok(GroupSignature { bytes }),
        Err(e) => Err(e),
    }
}

} // verus!
