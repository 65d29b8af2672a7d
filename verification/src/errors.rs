use vstd::prelude::*;

verus! {

/// The ways an operation of the threshold-signature protocol can fail.
///
/// Every failure is terminal for the operation that raised it; nothing is
/// retried or silently ignored.
#[derive(Debug, Clone, Copy, PartialEq, Eq, Structural)]
pub enum Error {
    /// The dealer parameters were rejected: the backend demands a threshold
    /// of at least 2, a group of at least 2, and a threshold no larger than
    /// the group. Also raised when a participant identifier is zero, which
    /// the scheme forbids.
    InvalidParameters,
    /// Two entries carry the same participant identifier where the
    /// identifiers must be unique.
    DuplicateIdentifier,
    /// The signer's identifier is absent from the signing package.
    MissingParticipant,
    /// Fewer entries or signature shares than the threshold demands.
    InsufficientShares,
    /// A share failed its individual verification; carries the identifier
    /// of the offending participant.
    MalformedShare(u16),
    /// The backend rejected the combination of inputs: the identifier sets
    /// of the package, the shares and the key material do not line up, or a
    /// nonce pair does not belong to the commitments in the package.
    IdentifierMismatch,
    /// The final Schnorr verification failed.
    InvalidSignature,
}

} // verus!
