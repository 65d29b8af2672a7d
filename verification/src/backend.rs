//! The trusted boundary to the `frost-secp256k1` crate (and `rand_chacha`).
//!
//! Everything in this module is believed, not proved. The `Raw...` structs
//! carry values of the outside crate's types through the library; they are
//! opaque to the verifier (their generic ciphersuite bound keeps the types
//! themselves from being declared directly). Each wrapper states over plain
//! values what the wrapped call returns, as the crate's source shows it. All
//! the curve, field and hash arithmetic of the scheme lives behind this
//! boundary; the protocol logic that uses it is verified against these
//! contracts.

use vstd::prelude::*;

use std::collections::BTreeMap;

use crate::errors::Error;

verus! {

#[verifier::external_type_specification]
#[verifier::external_body]
pub struct ExChaCha8Rng(rand_chacha::ChaCha8Rng);

/// A share of the group secret as dealt to one participant, before the
/// participant has verified it.
#[verifier::external_body]
pub struct RawSecretShare {
    inner: frost_secp256k1::keys::SecretShare,
}

/// A participant's key material: identifier, signing share, verification
/// share and group key, as held by the outside crate.
#[verifier::external_body]
pub struct RawKeyPackage {
    inner: frost_secp256k1::keys::KeyPackage,
}

/// The group's public key material: the verifying shares of all
/// participants and the group verifying key.
#[verifier::external_body]
pub struct RawPublicKeys {
    inner: frost_secp256k1::keys::PublicKeyPackage,
}

/// One participant's pair of secret nonces for a single signing session.
#[verifier::external_body]
pub struct RawNonces {
    inner: frost_secp256k1::round1::SigningNonces,
}

/// The public commitments to one participant's nonce pair.
#[verifier::external_body]
pub struct RawCommitments {
    inner: frost_secp256k1::round1::SigningCommitments,
}

/// One participant's signature share from the second round.
#[verifier::external_body]
pub struct RawSignatureShare {
    inner: frost_secp256k1::round2::SignatureShare,
}

/// The outside crate's signing package: the commitments of all session
/// participants and the message.
#[verifier::external_body]
pub struct RawSigningPackage {
    inner: frost_secp256k1::SigningPackage,
}

/// Whether `signature` is a valid Schnorr signature over `message` under the
/// group public key `group_key`, all as their canonical byte encodings.
///
/// This names the outcome of `frost_secp256k1::VerifyingKey::verify` after
/// parsing the key and the signature from bytes: a deterministic function of
/// the three byte strings alone.
pub uninterp spec fn valid_signature(
    group_key: Seq<u8>,
    message: Seq<u8>,
    signature: Seq<u8>,
) -> bool;

/// Relies on `rand_chacha::ChaCha8Rng::seed_from_u64`: a deterministic
/// generator seeded from the given value.
#[verifier::external_body]
pub(crate) fn seed_rng(seed: u64) -> (r: rand_chacha::ChaCha8Rng)
{
    <rand_chacha::ChaCha8Rng as rand::SeedableRng>::seed_from_u64(seed)
}

/// Relies on `frost_secp256k1::VerifyingKey::verify` (with
/// `VerifyingKey::deserialize` and `Signature::deserialize` to parse the
/// arguments): the outcome depends only on the three byte strings, and is
/// `false` whenever the key or the signature bytes do not parse.
#[verifier::external_body]
pub(crate) fn frost_verify(group_key: &Vec<u8>, message: &Vec<u8>, signature: &Vec<u8>) -> (r:
    bool)
    ensures
        r == valid_signature(group_key@, message@, signature@),
{
    let vk = match frost_secp256k1::VerifyingKey::deserialize(group_key.as_slice()) {
        Ok(vk) => vk,
        Err(_) => return false,
    };
    let sig = match frost_secp256k1::Signature::deserialize(signature.as_slice()) {
        Ok(sig) => sig,
        Err(_) => return false,
    };
    vk.verify(message.as_slice(), &sig).is_ok()
}

/// Relies on `frost_secp256k1::round1::commit`: it draws the two fresh
/// nonces for the key package's signing share from the generator and returns
/// them with their public commitments. The result depends on the generator
/// state, so nothing is stated of its value.
#[verifier::external_body]
pub(crate) fn frost_commit(key: &RawKeyPackage, rng: &mut rand_chacha::ChaCha8Rng) -> (r: (
    RawNonces,
    RawCommitments,
))
{
    let (nonces, commitments) = frost_secp256k1::round1::commit(key.inner.signing_share(), rng);
    (RawNonces { inner: nonces }, RawCommitments { inner: commitments })
}

/// Relies on `frost_secp256k1::keys::generate_with_dealer` with the default
/// identifier list, and on `VerifyingKey::serialize` for the group key
/// bytes. The call draws a fresh non-zero group secret, splits it into one
/// share per participant — identifiers 1 through n, handed back in
/// ascending identifier order — and fails exactly when the parameters are
/// rejected: a threshold below 2, a group below 2, or a threshold above the
/// group size. The verifying key of a non-zero secret is never the identity
/// element, so serializing it cannot fail.
#[verifier::external_body]
pub(crate) fn frost_keygen(n: u16, t: u16, rng: &mut rand_chacha::ChaCha8Rng) -> (r: Result<
    (Vec<RawSecretShare>, crate::keygen::GroupInfo),
    Error,
>)
    ensures
        r is Ok <==> 2 <= t <= n,
        r matches Ok(p) ==> p.0@.len() == n as nat,
        r matches Err(e) ==> e == Error::InvalidParameters,
{
    let list = frost_secp256k1::keys::IdentifierList::Default;
    match frost_secp256k1::keys::generate_with_dealer(n, t, list, rng) {
        Ok((shares, pubkeys)) => {
            let group_key = match pubkeys.verifying_key().serialize() {
                Ok(bytes) => bytes,
                Err(_) => return Err(Error::InvalidParameters),
            };
            let shares = shares.into_values().map(|s| RawSecretShare { inner: s }).collect();
            Ok((shares, crate::keygen::GroupInfo { raw: RawPublicKeys { inner: pubkeys }, group_key }))
        },
        Err(_) => Err(Error::InvalidParameters),
    }
}

/// Relies on `frost_secp256k1::keys::KeyPackage::try_from`: it verifies the
/// share against the dealer's polynomial commitment and derives the
/// participant's key package, returning an error exactly when that
/// verification fails.
#[verifier::external_body]
pub(crate) fn frost_key_package(share: RawSecretShare) -> (r: Option<RawKeyPackage>)
{
    frost_secp256k1::keys::KeyPackage::try_from(share.inner)
        .ok()
        .map(|kp| RawKeyPackage { inner: kp })
}

/// Relies on `frost_secp256k1::SigningPackage::new` (with
/// `Identifier::try_from` to turn each u16 identifier into the scalar
/// identifier the crate uses): it records the commitments keyed by
/// identifier, together with the message. `Identifier::try_from` fails only
/// on zero, which the caller has ruled out.
#[verifier::external_body]
pub(crate) fn frost_signing_package(
    entries: &Vec<(u16, crate::round1::CommitmentPair)>,
    message: &Vec<u8>,
) -> (r: RawSigningPackage)
    requires
        crate::ids::all_nonzero(crate::ids::firsts(entries@)),
{
    let mut map = BTreeMap::new();
    for (i, c) in entries.iter() {
        map.insert(frost_secp256k1::Identifier::try_from(*i).unwrap(), c.raw.inner);
    }
    RawSigningPackage { inner: frost_secp256k1::SigningPackage::new(map, message.as_slice()) }
}

/// Relies on `frost_secp256k1::round2::sign` (with
/// `SignatureShare::serialize` for the returned byte encoding): it derives
/// the per-participant binding factors and the group commitment from the
/// whole package, the Schnorr challenge from the group commitment, the group
/// key and the message, and returns this participant's signature share,
/// weighting the signing share by the Lagrange coefficient of the
/// participant set actually present in the package. The call fails when the
/// package holds fewer commitments than the key package's threshold, when
/// the signer's identifier is absent from the package, or when the nonces do
/// not match the signer's commitment recorded in the package; the caller
/// rules out the first two, so any failure is reported as a mismatch.
#[verifier::external_body]
pub(crate) fn frost_sign(pkg: &RawSigningPackage, nonces: RawNonces, key: &RawKeyPackage) -> (r:
    Result<(RawSignatureShare, Vec<u8>), Error>)
    ensures
        r matches Err(e) ==> e == Error::IdentifierMismatch,
{
    match frost_secp256k1::round2::sign(&pkg.inner, &nonces.inner, &key.inner) {
        Ok(share) => Ok((RawSignatureShare { inner: share }, share.serialize())),
        Err(_) => Err(Error::IdentifierMismatch),
    }
}

/// Relies on `frost_secp256k1::aggregate` (with `Identifier::try_from` to
/// key the share map and `Signature::serialize` for the result): it
/// recomputes the group commitment and the challenge as the signers did,
/// sums the shares, and verifies the summed signature against the group
/// verifying key and the package message before returning it — so a
/// returned signature always satisfies [`valid_signature`]. When the sum
/// fails to verify, the crate checks each share against its verifying share
/// and names the culprit; our identifiers are small integers, so the low
/// two bytes of the culprit's big-endian scalar encoding recover the u16.
/// A mismatch between the identifier sets of the package and of the shares
/// is reported as [`Error::IdentifierMismatch`].
///
/// The contract speaks of the package's recorded message and the group's
/// recorded key bytes; both are set beside their opaque counterparts when
/// those values are built, in this crate only, and cannot be changed from
/// outside it — so they name exactly the values the call works with.
#[verifier::external_body]
pub(crate) fn frost_aggregate(
    pkg: &crate::round2::SigningPackage,
    shares: &Vec<crate::round2::SignatureShare>,
    group: &crate::keygen::GroupInfo,
) -> (r: Result<Vec<u8>, Error>)
    ensures
        r matches Ok(sig) ==> valid_signature(group.key_bytes(), pkg.msg(), sig@),
        r matches Err(e) ==> (e matches Error::MalformedShare(_) || e
            == Error::IdentifierMismatch),
{
    let mut map = BTreeMap::new();
    for s in shares.iter() {
        let id = frost_secp256k1::Identifier::try_from(s.id).map_err(|_| Error::IdentifierMismatch)?;
        map.insert(id, s.raw.inner);
    }
    match frost_secp256k1::aggregate(&pkg.raw.inner, &map, &group.raw.inner) {
        Ok(sig) => sig.serialize().map_err(|_| Error::IdentifierMismatch),
        Err(frost_secp256k1::Error::InvalidSignatureShare { culprits }) => {
            let b = culprits.first().map(|c| c.serialize()).unwrap_or_default();
            let id = if b.len() == 32 { u16::from_be_bytes([b[30], b[31]]) } else { 0 };
            Err(Error::MalformedShare(id))
        },
        Err(_) => Err(Error::IdentifierMismatch),
    }
}

} // verus!
