//! A (t, n)-threshold Schnorr signature library over secp256k1.
//!
//! A trusted dealer splits a group secret into `n` Shamir shares with
//! threshold `t`; any `t` holders can then jointly produce one Schnorr
//! signature that verifies against the single group public key. The curve
//! and hash arithmetic is carried out by the `frost-secp256k1` crate behind
//! a small set of trusted declarations; the protocol logic around it — the
//! parameter and identifier validation, the two signing rounds, the
//! aggregation rules and their error reporting — is verified.

pub mod aggregate;
pub mod backend;
pub mod bytes;
pub mod errors;
pub mod ids;
pub mod keygen;
pub mod round1;
pub mod round2;
pub mod session;
pub mod verify;
