//! Signing-package assembly and Round 2 of the signing protocol.
//!
//! The coordinator collects at least `t` participants' commitment pairs and
//! the message into one immutable [`SigningPackage`]; each participant then
//! combines the package with its own nonce pair and key share into a
//! [`SignatureShare`]. The package must be identical for all signers: the
//! binding factors, the group commitment and the challenge are recomputed
//! from it by every participant and by the aggregator.

use vstd::prelude::*;

use crate::backend;
use crate::bytes::copy_bytes;
use crate::errors::Error;
use crate::ids;
use crate::keygen::KeyShare;
use crate::round1::CommitmentPair;
use crate::round1::NoncePair;

verus! {

/// The shared input of one signing session: the commitment pair of every
/// session participant, keyed by identifier, the message, and the threshold
/// the session was assembled for. Immutable once built.
pub struct SigningPackage {
    pub(crate) raw: backend::RawSigningPackage,
    pub(crate) message: Vec<u8>,
    pub(crate) ids: Vec<u16>,
    pub(crate) threshold: u16,
}

impl SigningPackage {
    /// The message to be signed.
    pub closed spec fn msg(&self) -> Seq<u8> {
        self.message@
    }

    /// The identifiers of the session participants, in the order their
    /// entries were supplied.
    pub closed spec fn members(&self) -> Seq<u16> {
        self.ids@
    }

    /// The threshold the package was assembled for.
    pub closed spec fn min_signers(&self) -> u16 {
        self.threshold
    }

    /// The message to be signed.
    pub fn message(&self) -> (r: &Vec<u8>)
        ensures
            r@ == self.msg(),
    {
        &self.message
    }

    /// How many participants the session has.
    pub fn member_count(&self) -> (r: usize)
        ensures
            r == self.members().len(),
    {
        self.ids.len()
    }

    /// The threshold the package was assembled for.
    pub fn threshold(&self) -> (r: u16)
        ensures
            r == self.min_signers(),
    {
        self.threshold
    }

    /// Whether `id` is one of the session participants.
    pub fn is_member(&self, id: u16) -> (b: bool)
        ensures
            b == self.members().contains(id),
    {
        ids::contains_id(&self.ids, id)
    }

    /// Assemble the signing package for one session from the collected
    /// commitment entries and the message: pure data aggregation, validated
    /// only for having at least `threshold` entries and unique, non-zero
    /// identifiers.
    pub fn new(entries: Vec<(u16, CommitmentPair)>, message: Vec<u8>, threshold: u16) -> (r:
        Result<SigningPackage, Error>)
        ensures
            entries@.len() < threshold as nat ==> (r matches Err(e) && e
                == Error::InsufficientShares),
            (entries@.len() >= threshold as nat && !ids::all_nonzero(ids::firsts(entries@)))
                ==> (r matches Err(e) && e == Error::InvalidParameters),
            (entries@.len() >= threshold as nat && ids::all_nonzero(ids::firsts(entries@))
                && !ids::unique_ids(ids::firsts(entries@))) ==> (r matches Err(e) && e
                == Error::DuplicateIdentifier),
            r is Ok <==> (entries@.len() >= threshold as nat && ids::all_nonzero(
                ids::firsts(entries@),
            ) && ids::unique_ids(ids::firsts(entries@))),
            r matches Ok(p) ==> {
                &&& p.msg() == message@
                &&& p.members() == ids::firsts(entries@)
                &&& p.min_signers() == threshold
            },
    {
        let mut id_list: Vec<u16> = Vec::new();
        let mut k: usize = 0;
        while k < entries.len()
            invariant
                k <= entries@.len(),
                id_list@.len() == k as nat,
                forall|i: int| 0 <= i < k ==> id_list@[i] == (#[trigger] entries@[i]).0,
            decreases entries@.len() - k,
        {
            id_list.push(entries[k].0);
            k = k + 1;
        }
        proof {
            assert(id_list@ =~= ids::firsts(entries@));
        }
        if entries.len() < threshold as usize {
            return Err(Error::InsufficientShares);
        }
        if ids::has_zero(&id_list) {
            return Err(Error::InvalidParameters);
        }
        if !ids::ids_unique(&id_list) {
            return Err(Error::DuplicateIdentifier);
        }
        let raw = backend::frost_signing_package(&entries, &message);
        Ok(SigningPackage { raw, message, ids: id_list, threshold })
    }
}

/// One participant's signature share from Round 2; shared for aggregation,
/// revealing nothing about the signing share on its own.
pub struct SignatureShare {
    /// The identifier of the participant that produced the share.
    pub id: u16,
    pub(crate) raw: backend::RawSignatureShare,
    pub(crate) bytes: Vec<u8>,
}

impl SignatureShare {
    /// The identifier of the participant that produced the share.
    pub closed spec fn spec_id(&self) -> u16 {
        self.id
    }

    /// The canonical byte encoding of the share scalar.
    pub closed spec fn share_bytes(&self) -> Seq<u8> {
        self.bytes@
    }

    /// The identifier of the participant that produced the share.
    pub fn participant(&self) -> (r: u16)
        ensures
            r == self.spec_id(),
    {
        self.id
    }

    /// The canonical byte encoding of the share scalar.
    pub fn to_bytes(&self) -> (r: Vec<u8>)
        ensures
            r@ == self.share_bytes(),
    {
        copy_bytes(&self.bytes)
    }
}

/// Round 2 for one participant: combine the signing package, this
/// participant's nonce pair and its key share into a signature share.
///
/// The nonce pair is consumed by the call — it is moved in and dropped, so
/// signing twice with the same pair is impossible. Fails with
/// [`Error::MissingParticipant`] exactly when the participant's identifier
/// is absent from the package, and with [`Error::InsufficientShares`] when
/// the package holds fewer entries than the key share's threshold.
pub fn sign(pkg: &SigningPackage, nonces: NoncePair, key: &KeyShare) -> (r: Result<
    SignatureShare,
    Error,
>)
    ensures
        !pkg.members().contains(key.spec_id()) ==> (r matches Err(e) && e
            == Error::MissingParticipant),
        (pkg.members().contains(key.spec_id()) && pkg.members().len() < key.spec_threshold()
            as nat) ==> (r matches Err(e) && e == Error::InsufficientShares),
        r matches Ok(s) ==> {
            &&& s.spec_id() == key.spec_id()
            &&& pkg.members().contains(key.spec_id())
            &&& pkg.members().len() >= key.spec_threshold() as nat
        },
        r matches Err(e) ==> (e == Error::MissingParticipant || e == Error::InsufficientShares
            || e == Error::IdentifierMismatch),
        (r matches Err(e) && e == Error::MissingParticipant) ==> !pkg.members().contains(
            key.spec_id(),
        ),
        (r matches Err(e) && e == Error::InsufficientShares) ==> pkg.members().len()
            < key.spec_threshold() as nat,
{
    if !pkg.is_member(key.participant()) {
        return Err(Error::MissingParticipant);
    }
    if pkg.member_count() < key.min_signers() as usize {
        return Err(Error::InsufficientShares);
    }
    match backend::frost_sign(&pkg.raw, nonces.raw, &key.raw) {
        Ok((raw, bytes)) => Ok(SignatureShare { id: key.participant(), raw, bytes }),
        Err(e) => Err(e),
    }
}

} // verus!
