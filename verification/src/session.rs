//! Whole-protocol orchestration: Round 1, package assembly, Round 2,
//! aggregation and a final verification, in one verified control path.
//!
//! Within one session the per-participant computations are independent; the
//! only ordering constraint is causal — all commitments are collected before
//! the package is built, and the package is fixed before any participant
//! signs.

use vstd::prelude::*;

use crate::aggregate;
use crate::aggregate::GroupSignature;
use crate::backend;
use crate::errors::Error;
use crate::ids;
use crate::keygen;
use crate::keygen::GroupInfo;
use crate::keygen::KeyShare;
use crate::round1;
use crate::round1::CommitmentPair;
use crate::round1::NoncePair;
use crate::round2;
use crate::round2::SignatureShare;
use crate::round2::SigningPackage;
use crate::verify;

verus! {

/// The sequence of identifiers of a list of key shares.
pub open spec fn ids_of(ks: Seq<KeyShare>) -> Seq<u16> {
    Seq::new(ks.len(), |i: int| ks[i].spec_id())
}

/// A set of key shares fit to carry one signing session with threshold
/// `threshold`: identifiers non-zero and pairwise distinct, at least
/// `threshold` participants, and no share dealt with a threshold above the
/// number of session participants. Dealer key generation hands out exactly
/// such sets for any subset of at least `t` of its shares.
pub open spec fn well_formed_session(ks: Seq<KeyShare>, threshold: u16) -> bool {
    &&& ids::all_nonzero(ids_of(ks))
    &&& ids::unique_ids(ids_of(ks))
    &&& ks.len() >= threshold as nat
    &&& forall|i: int|
        0 <= i < ks.len() ==> (#[trigger] ks[i]).spec_threshold() as nat <= ks.len()
}

/// The threshold law at the level of the session model: which subset of the
/// group signs does not matter, only its size. Any collection of key shares
/// with distinct non-zero identifiers, all dealt with threshold `t`, and at
/// least `t` strong, is fit to run a signing session — so
/// [`run_signing_session`] promises it a signature that verifies, or a
/// failure of an individual share, never a protocol-shape error.
pub proof fn lemma_any_large_enough_subset_is_well_formed(ks: Seq<KeyShare>, t: u16)
    requires
        ids::all_nonzero(ids_of(ks)),
        ids::unique_ids(ids_of(ks)),
        ks.len() >= t as nat,
        forall|i: int| 0 <= i < ks.len() ==> (#[trigger] ks[i]).spec_threshold() == t,
    ensures
        well_formed_session(ks, t),
{
}

/// Run one complete signing session over the given participants: each draws
/// its nonce pair and commitment (Round 1), the commitments and the message
/// are assembled into one signing package, each participant signs (Round 2,
/// consuming its nonce pair), the shares are aggregated, and the resulting
/// signature is verified against the group key before it is returned.
///
/// Any signature this returns verifies against the group key and the
/// message — that is checked by the verifier, not at run time alone. For a
/// well-formed participant set the session cannot fail for a reason the
/// model can see; only the backend's own checks (a share failing its
/// individual verification, or mismatched key material) remain.
pub fn run_signing_session(
    participants: &Vec<KeyShare>,
    group: &GroupInfo,
    message: Vec<u8>,
    threshold: u16,
    rng: &mut rand_chacha::ChaCha8Rng,
) -> (r: Result<GroupSignature, Error>)
    ensures
        r matches Ok(sig) ==> backend::valid_signature(
            group.key_bytes(),
            message@,
            sig.sig_bytes(),
        ),
        well_formed_session(participants@, threshold) ==> (r is Ok || (r matches Err(e) && (e
            == Error::IdentifierMismatch || e matches Error::MalformedShare(_)))),
{
    let ghost wf = well_formed_session(participants@, threshold);
    let mut entries: Vec<(u16, CommitmentPair)> = Vec::new();
    let mut nonce_store: Vec<NoncePair> = Vec::new();
    let mut k: usize = 0;
    while k < participants.len()
        invariant
            k <= participants@.len(),
            entries@.len() == k as nat,
            nonce_store@.len() == k as nat,
            forall|i: int|
                0 <= i < k ==> (#[trigger] entries@[i]).0 == participants@[i].spec_id(),
        decreases participants@.len() - k,
    {
        let (np, cp) = round1::commit(&participants[k], rng);
        entries.push((participants[k].participant(), cp));
        nonce_store.push(np);
        k = k + 1;
    }
    proof {
        assert(ids::firsts(entries@) =~= ids_of(participants@));
    }
    let pkg = match SigningPackage::new(entries, message, threshold) {
        Ok(p) => p,
        Err(e) => {
            proof {
                if wf {
                    assert(false);
                }
            }
            return Err(e);
        },
    };
    let mut shares: Vec<SignatureShare> = Vec::new();
    let mut i: usize = 0;
    while i < participants.len()
        invariant
            i <= participants@.len(),
            i + nonce_store@.len() == participants@.len(),
            shares@.len() == i as nat,
            wf == well_formed_session(participants@, threshold),
            pkg.msg() == message@,
            pkg.min_signers() == threshold,
            pkg.members() == ids_of(participants@),
            forall|i_: int|
                0 <= i_ < shares@.len() ==> (#[trigger] shares@[i_]).spec_id()
                    == participants@[i_].spec_id(),
        decreases participants@.len() - i,
    {
        let np = nonce_store.remove(0);
        let s = match round2::sign(&pkg, np, &participants[i]) {
            Ok(s) => s,
            Err(e) => {
                proof {
                    if wf {
                        assert(pkg.members()[i as int] == participants@[i as int].spec_id());
                        assert(pkg.members().contains(participants@[i as int].spec_id()));
                        assert(e == Error::IdentifierMismatch);
                    }
                }
                return Err(e);
            },
        };
        shares.push(s);
        i = i + 1;
    }
    let sig = match aggregate::aggregate(&pkg, &shares, group) {
        Ok(sig) => sig,
        Err(e) => {
            proof {
                if wf {
                    assert(crate::aggregate::share_ids(shares@) =~= ids_of(participants@));
                    assert(e == Error::IdentifierMismatch || e matches Error::MalformedShare(_));
                }
            }
            return Err(e);
        },
    };
    let gk = group.group_key();
    let ok = verify::verify(&gk, pkg.message(), &sig);
    assert(ok);
    Ok(sig)
}

/// The whole protocol in one call, as a driver would run it: dealer key
/// generation from a seeded generator, one signing session over all `n`
/// participants, and verification of the result.
///
/// The parameters are rejected with [`Error::InvalidParameters`] exactly
/// when they do not satisfy `2 <= t <= n`; any signature returned verifies
/// against the returned group key and the message.
pub fn run_protocol(n: u16, t: u16, message: Vec<u8>, seed: u64) -> (r: Result<
    (GroupInfo, GroupSignature),
    Error,
>)
    ensures
        (r matches Err(e) && e == Error::InvalidParameters) <==> !(2 <= t && t <= n),
        r matches Ok(p) ==> backend::valid_signature(p.0.key_bytes(), message@, p.1.sig_bytes()),
        r matches Err(e) ==> (e == Error::InvalidParameters || e matches Error::MalformedShare(_)
            || e == Error::IdentifierMismatch),
{
    let mut rng = backend::seed_rng(seed);
    let (key_shares, info) = match keygen::dealer_keygen(n, t, &mut rng) {
        Ok(p) => p,
        Err(e) => return Err(e),
    };
    proof {
        assert forall|i: int, j: int|
            0 <= i < j < ids_of(key_shares@).len() implies ids_of(key_shares@)[i] != ids_of(
            key_shares@,
        )[j] by {
            assert(key_shares@[i].spec_id() == i + 1);
            assert(key_shares@[j].spec_id() == j + 1);
        }
        assert(well_formed_session(key_shares@, t));
    }
    match run_signing_session(&key_shares, &info, message, t, &mut rng) {
        Ok(sig) => Ok((info, sig)),
        Err(e) => Err(e),
    }
}

} // verus!
