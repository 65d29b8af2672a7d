//! Every way the protocol refuses to produce or accept a signature.

use rand::SeedableRng;
use rand_chacha::ChaCha8Rng;

use threshold_signature::aggregate::aggregate;
use threshold_signature::errors::Error;
use threshold_signature::keygen::dealer_keygen;
use threshold_signature::keygen::GroupInfo;
use threshold_signature::keygen::KeyShare;
use threshold_signature::round1::commit;
use threshold_signature::round2::sign;
use threshold_signature::round2::SignatureShare;
use threshold_signature::round2::SigningPackage;
use threshold_signature::session::run_protocol;
use threshold_signature::verify::check_signature;
use threshold_signature::verify::verify;

fn keygen(n: u16, t: u16, seed: u64) -> (Vec<KeyShare>, GroupInfo) {
    let mut rng = ChaCha8Rng::seed_from_u64(seed);
    dealer_keygen(n, t, &mut rng).expect("parameters are valid")
}

#[test]
fn invalid_parameters_are_rejected() {
    for &(n, t) in &[(0u16, 0u16), (0, 3), (5, 0), (3, 5), (1, 1), (5, 1), (1, 0)] {
        let r = run_protocol(n, t, b"msg".to_vec(), 1);
        assert_eq!(r.err(), Some(Error::InvalidParameters), "n={} t={}", n, t);
    }
}

#[test]
fn fewer_shares_than_threshold_fail_aggregation() {
    // Build a full 3-of-5 package but hand only 2 shares to aggregation.
    let (shares_keys, info) = keygen(5, 3, 11);
    let mut rng = ChaCha8Rng::seed_from_u64(2);
    let mut entries = Vec::new();
    let mut nonces = Vec::new();
    for key in &shares_keys[0..3] {
        let (np, cp) = commit(key, &mut rng);
        entries.push((key.id, cp));
        nonces.push(np);
    }
    let pkg = SigningPackage::new(entries, b"short".to_vec(), 3).expect("valid package");
    let mut shares: Vec<SignatureShare> = Vec::new();
    for key in &shares_keys[0..2] {
        let np = nonces.remove(0);
        shares.push(sign(&pkg, np, key).expect("signing succeeds"));
    }
    let r = aggregate(&pkg, &shares, &info);
    assert_eq!(r.err(), Some(Error::InsufficientShares));
}

#[test]
fn full_threshold_group_fails_when_one_is_omitted() {
    // n = 3, t = 3: all must take part. Omitting one participant already
    // fails at package assembly; omitting only that participant's share
    // fails at aggregation.
    let (keys, info) = keygen(3, 3, 21);
    let mut rng = ChaCha8Rng::seed_from_u64(3);

    let mut short_entries = Vec::new();
    for key in &keys[0..2] {
        let (_np, cp) = commit(key, &mut rng);
        short_entries.push((key.id, cp));
    }
    let r = SigningPackage::new(short_entries, b"full threshold".to_vec(), 3);
    assert_eq!(r.err(), Some(Error::InsufficientShares));

    let mut entries = Vec::new();
    let mut nonces = Vec::new();
    for key in &keys {
        let (np, cp) = commit(key, &mut rng);
        entries.push((key.id, cp));
        nonces.push(np);
    }
    let pkg = SigningPackage::new(entries, b"full threshold".to_vec(), 3).expect("valid package");
    let mut shares = Vec::new();
    for key in &keys[0..2] {
        let np = nonces.remove(0);
        shares.push(sign(&pkg, np, key).expect("signing succeeds"));
    }
    let r = aggregate(&pkg, &shares, &info);
    assert_eq!(r.err(), Some(Error::InsufficientShares));
}

#[test]
fn absent_participant_cannot_sign() {
    let (keys, _info) = keygen(3, 2, 31);
    let mut rng = ChaCha8Rng::seed_from_u64(4);
    let mut entries = Vec::new();
    for key in &keys[0..2] {
        let (_np, cp) = commit(key, &mut rng);
        entries.push((key.id, cp));
    }
    let pkg = SigningPackage::new(entries, b"absent".to_vec(), 2).expect("valid package");
    let (np, _cp) = commit(&keys[2], &mut rng);
    let r = sign(&pkg, np, &keys[2]);
    assert_eq!(r.err(), Some(Error::MissingParticipant));
}

#[test]
fn duplicate_identifiers_are_rejected() {
    let (keys, _info) = keygen(3, 2, 41);
    let mut rng = ChaCha8Rng::seed_from_u64(5);
    let (_n1, c1) = commit(&keys[0], &mut rng);
    let (_n2, c2) = commit(&keys[0], &mut rng);
    let entries = vec![(keys[0].id, c1), (keys[0].id, c2)];
    let r = SigningPackage::new(entries, b"dup".to_vec(), 2);
    assert_eq!(r.err(), Some(Error::DuplicateIdentifier));
}

#[test]
fn zero_identifier_is_rejected() {
    let (keys, _info) = keygen(3, 2, 51);
    let mut rng = ChaCha8Rng::seed_from_u64(6);
    let (_n1, c1) = commit(&keys[0], &mut rng);
    let (_n2, c2) = commit(&keys[1], &mut rng);
    let entries = vec![(keys[0].id, c1), (0u16, c2)];
    let r = SigningPackage::new(entries, b"zero".to_vec(), 2);
    assert_eq!(r.err(), Some(Error::InvalidParameters));
}

#[test]
fn nonces_are_bound_to_their_commitments() {
    // A nonce pair belongs to the commitment published for it. Signing with
    // a different pair than the one committed in the package is rejected —
    // and a consumed pair cannot be presented again at all, since `sign`
    // takes it by move.
    let (keys, _info) = keygen(3, 2, 61);
    let mut rng = ChaCha8Rng::seed_from_u64(7);
    let (_np_committed, cp) = commit(&keys[0], &mut rng);
    let (np_other, _cp_other) = commit(&keys[0], &mut rng);
    let (np1, cp1) = commit(&keys[1], &mut rng);
    let entries = vec![(keys[0].id, cp), (keys[1].id, cp1)];
    let pkg = SigningPackage::new(entries, b"bound".to_vec(), 2).expect("valid package");
    let r = sign(&pkg, np_other, &keys[0]);
    assert_eq!(r.err(), Some(Error::IdentifierMismatch));
    // The participant whose committed pair is presented signs fine.
    assert!(sign(&pkg, np1, &keys[1]).is_ok());
}

#[test]
fn foreign_share_is_detected_with_its_culprit() {
    // Participant 1 signs a different package; smuggling that share into
    // this session's aggregation names participant 1 as the culprit.
    let (keys, info) = keygen(3, 3, 71);
    let mut rng = ChaCha8Rng::seed_from_u64(8);

    // Session A: participant 1 signs a different message.
    let (np_a1, cp_a1) = commit(&keys[0], &mut rng);
    let (np_a2, cp_a2) = commit(&keys[1], &mut rng);
    let (np_a3, cp_a3) = commit(&keys[2], &mut rng);
    let entries_a = vec![(1u16, cp_a1), (2u16, cp_a2), (3u16, cp_a3)];
    let pkg_a = SigningPackage::new(entries_a, b"other message".to_vec(), 3).expect("valid");
    let foreign = sign(&pkg_a, np_a1, &keys[0]).expect("signing succeeds");
    drop(np_a2);
    drop(np_a3);

    // Session B: participants 2 and 3 sign the real message; participant
    // 1's share is smuggled in from session A.
    let (np1, cp1) = commit(&keys[0], &mut rng);
    let (np2, cp2) = commit(&keys[1], &mut rng);
    let (np3, cp3) = commit(&keys[2], &mut rng);
    let entries_b = vec![(1u16, cp1), (2u16, cp2), (3u16, cp3)];
    let pkg_b = SigningPackage::new(entries_b, b"this message".to_vec(), 3).expect("valid");
    let s2 = sign(&pkg_b, np2, &keys[1]).expect("signing succeeds");
    let s3 = sign(&pkg_b, np3, &keys[2]).expect("signing succeeds");
    drop(np1);
    let shares = vec![foreign, s2, s3];
    let r = aggregate(&pkg_b, &shares, &info);
    assert_eq!(r.err(), Some(Error::MalformedShare(1)));
}

#[test]
fn tampered_message_fails_verification() {
    let msg = b"pay 10 to alice".to_vec();
    let (info, sig) = run_protocol(5, 3, msg.clone(), 81).expect("protocol succeeds");
    assert!(verify(&info.group_key(), &msg, &sig));
    let mut tampered = msg.clone();
    tampered[0] ^= 0x01;
    assert!(!verify(&info.group_key(), &tampered, &sig));
    assert_eq!(
        check_signature(&info.group_key(), &tampered, &sig).err(),
        Some(Error::InvalidSignature)
    );
}

#[test]
fn wrong_group_key_fails_verification() {
    let msg = b"wrong key".to_vec();
    let (info, sig) = run_protocol(4, 2, msg.clone(), 91).expect("protocol succeeds");
    let (other_info, _other_sig) = run_protocol(4, 2, msg.clone(), 92).expect("protocol succeeds");
    assert_ne!(info.group_key(), other_info.group_key());
    assert!(verify(&info.group_key(), &msg, &sig));
    assert!(!verify(&other_info.group_key(), &msg, &sig));
    assert_eq!(
        check_signature(&other_info.group_key(), &msg, &sig).err(),
        Some(Error::InvalidSignature)
    );
}
