//! Round 1 of the signing protocol: nonce generation and commitment.
//!
//! Each participant draws two fresh secret nonces (hiding and binding, each
//! derived from fresh randomness salted with the signing share, which ties
//! the commitments to the participant's own key material) and publishes the
//! two corresponding public commitments. A [`NoncePair`] is deliberately
//! neither clonable nor copyable: the second round takes it by value, so a
//! pair can be used for at most one signature — reuse would leak the signing
//! share, and is ruled out at compile time rather than checked at run time.

use vstd::prelude::*;

use crate::backend;
use crate::keygen::KeyShare;

verus! {

/// One participant's pair of secret nonces for a single signing session.
/// Created in Round 1, consumed (moved) by exactly one Round 2 signing call,
/// never duplicated.
pub struct NoncePair {
    pub(crate) raw: backend::RawNonces,
}

/// The public commitments to one participant's nonce pair; shared with all
/// participants through the signing package.
pub struct CommitmentPair {
    pub(crate) raw: backend::RawCommitments,
}

/// Round 1 for one participant: draw a fresh nonce pair for its signing
/// share and return it with the matching public commitments.
///
/// The nonces are random, so nothing is stated of their value; what matters
/// is structural: the returned [`NoncePair`] can be consumed only once.
pub fn commit(key: &KeyShare, rng: &mut rand_chacha::ChaCha8Rng) -> (r: (
    NoncePair,
    CommitmentPair,
))
{
    let (nonces, commitments) = backend::frost_commit(&key.raw, rng);
    (NoncePair { raw: nonces }, CommitmentPair { raw: commitments })
}

} // verus!
