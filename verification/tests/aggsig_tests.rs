use multi_party_eddsa::group::GroupPoint;
use multi_party_eddsa::protocols::aggsig::{
    add_pk_parts_hashed, add_signature_parts, add_signature_parts_hashed,
    create_ephemeral_key_and_commit, create_ephemeral_key_and_commit_rng, get_R_tot, partial_sign,
    partial_sign_hashed, sign_single, verify_commitment, verify_partial_sig, KeyAgg, SignSecondMsg,
};
use multi_party_eddsa::protocols::ExpandedKeyPair;

fn keypair(seed_byte: u8) -> ExpandedKeyPair {
    let seed = [seed_byte; 32];
    ExpandedKeyPair::create_from_private_key(&seed)
}

fn two_party_setup() -> (ExpandedKeyPair, ExpandedKeyPair, Vec<GroupPoint>) {
    let k1 = keypair(7);
    let k2 = keypair(42);
    let pks = vec![k1.public_key.duplicate(), k2.public_key.duplicate()];
    (k1, k2, pks)
}

#[test]
fn test_key_aggregation_deterministic() {
    let (_, _, pks) = two_party_setup();
    let a = KeyAgg::key_aggregation_n(&pks, 0);
    let b = KeyAgg::key_aggregation_n(&pks, 0);
    assert_eq!(a.apk.as_bytes(), b.apk.as_bytes());
    assert_eq!(a.hash.as_bytes(), b.hash.as_bytes());
}

#[test]
fn test_key_aggregation_same_apk_for_all_parties() {
    let (_, _, pks) = two_party_setup();
    let agg0 = KeyAgg::key_aggregation_n(&pks, 0);
    let agg1 = KeyAgg::key_aggregation_n(&pks, 1);
    assert_eq!(agg0.apk.as_bytes(), agg1.apk.as_bytes());
    // distinct parties carry distinct coefficients
    assert_ne!(agg0.hash.as_bytes(), agg1.hash.as_bytes());
}

#[test]
fn test_two_party_end_to_end() {
    let (k1, k2, pks) = two_party_setup();
    let message = b"hello multi party".to_vec();

    let agg1 = KeyAgg::key_aggregation_n(&pks, 0);
    let agg2 = KeyAgg::key_aggregation_n(&pks, 1);
    assert_eq!(agg1.apk.as_bytes(), agg2.apk.as_bytes());

    let (eph1, first1, second1) = create_ephemeral_key_and_commit(&k1, &message);
    let (eph2, first2, second2) = create_ephemeral_key_and_commit(&k2, &message);

    // each party checks the peer's reveal against its commitment
    assert!(verify_commitment(&first1, &second1).is_ok());
    assert!(verify_commitment(&first2, &second2).is_ok());

    let rs = vec![second1.R.duplicate(), second2.R.duplicate()];
    let r_tot = get_R_tot(&rs);

    let s1 = partial_sign(&eph1.r, &k1, &agg1.hash, &r_tot, &agg1.apk, &message);
    let s2 = partial_sign(&eph2.r, &k2, &agg2.hash, &r_tot, &agg2.apk, &message);

    assert!(verify_partial_sig(&s1, &message, &agg1.hash, &eph1.R, &k1.public_key, &agg1.apk)
        .is_ok());
    assert!(verify_partial_sig(&s2, &message, &agg2.hash, &eph2.R, &k2.public_key, &agg1.apk)
        .is_ok());

    let total = add_signature_parts(&vec![s1, s2]).unwrap();
    assert!(total.verify(&message, &agg1.apk).is_ok());

    // a one-bit flip in the message must fail ordinary verification
    let mut flipped = message.clone();
    flipped[0] ^= 1;
    assert!(total.verify(&flipped, &agg1.apk).is_err());
}

#[test]
fn test_permuted_key_list_changes_apk_but_still_signs() {
    let (k1, k2, pks) = two_party_setup();
    let permuted = vec![k2.public_key.duplicate(), k1.public_key.duplicate()];
    let message = b"permutation run".to_vec();

    let straight = KeyAgg::key_aggregation_n(&pks, 0);
    // party 1 now sits at index 1 of the permuted list
    let agg1 = KeyAgg::key_aggregation_n(&permuted, 1);
    let agg2 = KeyAgg::key_aggregation_n(&permuted, 0);
    assert_eq!(agg1.apk.as_bytes(), agg2.apk.as_bytes());
    // the permutation changes the aggregated key and the coefficients
    assert_ne!(straight.apk.as_bytes(), agg1.apk.as_bytes());
    assert_ne!(straight.hash.as_bytes(), agg1.hash.as_bytes());

    let (eph1, _, second1) = create_ephemeral_key_and_commit(&k1, &message);
    let (eph2, _, second2) = create_ephemeral_key_and_commit(&k2, &message);
    let r_tot = get_R_tot(&vec![second1.R.duplicate(), second2.R.duplicate()]);

    let s1 = partial_sign(&eph1.r, &k1, &agg1.hash, &r_tot, &agg1.apk, &message);
    let s2 = partial_sign(&eph2.r, &k2, &agg2.hash, &r_tot, &agg2.apk, &message);
    let total = add_signature_parts(&vec![s1, s2]).unwrap();
    assert!(total.verify(&message, &agg1.apk).is_ok());
}

#[test]
fn test_combine_rejects_mismatched_nonce_points() {
    let k1 = keypair(1);
    let k2 = keypair(2);
    // two signatures over different messages carry different nonce points
    let sig_a = sign_single(b"message a", &k1);
    let sig_b = sign_single(b"message b", &k2);
    assert_ne!(sig_a.R.as_bytes(), sig_b.R.as_bytes());
    assert!(add_signature_parts(&vec![sig_a, sig_b]).is_err());
}

#[test]
fn test_combine_rejects_empty_share_list() {
    assert!(add_signature_parts(&Vec::new()).is_err());
}

#[test]
fn test_combine_accepts_single_share() {
    let k1 = keypair(9);
    let sig = sign_single(b"solo", &k1);
    let r_bytes = sig.R.as_bytes().clone();
    let s_bytes = sig.s.as_bytes().clone();
    let total = add_signature_parts(&vec![sig]).unwrap();
    assert_eq!(total.R.as_bytes(), &r_bytes);
    assert_eq!(total.s.as_bytes(), &s_bytes);
}

#[test]
fn test_verify_share_rejects_any_alteration() {
    let (k1, k2, pks) = two_party_setup();
    let message = b"attribution".to_vec();
    let agg1 = KeyAgg::key_aggregation_n(&pks, 0);
    let agg2 = KeyAgg::key_aggregation_n(&pks, 1);

    let (eph1, _, second1) = create_ephemeral_key_and_commit(&k1, &message);
    let (eph2, _, second2) = create_ephemeral_key_and_commit(&k2, &message);
    let r_tot = get_R_tot(&vec![second1.R.duplicate(), second2.R.duplicate()]);
    let s1 = partial_sign(&eph1.r, &k1, &agg1.hash, &r_tot, &agg1.apk, &message);

    // untampered claims pass
    assert!(verify_partial_sig(&s1, &message, &agg1.hash, &eph1.R, &k1.public_key, &agg1.apk)
        .is_ok());
    // altered message
    let mut other = message.clone();
    other[3] ^= 0x80;
    assert!(verify_partial_sig(&s1, &other, &agg1.hash, &eph1.R, &k1.public_key, &agg1.apk)
        .is_err());
    // altered nonce point
    assert!(verify_partial_sig(&s1, &message, &agg1.hash, &eph2.R, &k1.public_key, &agg1.apk)
        .is_err());
    // altered coefficient
    assert!(verify_partial_sig(&s1, &message, &agg2.hash, &eph1.R, &k1.public_key, &agg1.apk)
        .is_err());
    // altered public key
    assert!(verify_partial_sig(&s1, &message, &agg1.hash, &eph1.R, &k2.public_key, &agg1.apk)
        .is_err());
}

#[test]
fn test_commitment_opens_only_with_committed_point() {
    let k1 = keypair(11);
    let k2 = keypair(12);
    let message = b"commitment binding".to_vec();
    let (_, first1, second1) = create_ephemeral_key_and_commit(&k1, &message);
    let (_, _, second2) = create_ephemeral_key_and_commit(&k2, &message);

    assert!(verify_commitment(&first1, &second1).is_ok());
    // opening with a different point under the original blinding fails
    let forged = SignSecondMsg {
        R: second2.R.duplicate(),
        blind_factor: second1.blind_factor.clone(),
    };
    assert!(verify_commitment(&first1, &forged).is_err());
    // opening with the right point but a different blinding fails
    let wrong_blind = SignSecondMsg {
        R: second1.R.duplicate(),
        blind_factor: second2.blind_factor.clone(),
    };
    assert!(verify_commitment(&first1, &wrong_blind).is_err());
}

#[test]
fn test_rogue_key_coefficient_depends_on_whole_key_set() {
    let attacker = keypair(66);
    let honest1 = keypair(67);
    let honest2 = keypair(68);
    let set1 = vec![attacker.public_key.duplicate(), honest1.public_key.duplicate()];
    let set2 = vec![attacker.public_key.duplicate(), honest2.public_key.duplicate()];
    let c1 = KeyAgg::key_aggregation_n(&set1, 0);
    let c2 = KeyAgg::key_aggregation_n(&set2, 0);
    // the attacker's coefficient differs between the two key sets
    assert_ne!(c1.hash.as_bytes(), c2.hash.as_bytes());
    assert_ne!(c1.apk.as_bytes(), c2.apk.as_bytes());
}

#[test]
fn test_hashed_scheme_end_to_end() {
    let (k1, k2, pks) = two_party_setup();
    let message = b"independent nonces".to_vec();
    let s1 = partial_sign_hashed(&message, &k1);
    let s2 = partial_sign_hashed(&message, &k2);
    let agg = add_signature_parts_hashed(&vec![s1, s2], &pks).unwrap();
    let apk = add_pk_parts_hashed(&pks);
    assert!(agg.verify_hashed(&message, &apk).is_ok());
    let mut flipped = message.clone();
    flipped[0] ^= 1;
    assert!(agg.verify_hashed(&flipped, &apk).is_err());
}

#[test]
fn test_hashed_combine_rejects_mismatched_lists() {
    let (k1, _, pks) = two_party_setup();
    let message = b"mismatch".to_vec();
    let s1 = partial_sign_hashed(&message, &k1);
    assert!(add_signature_parts_hashed(&vec![s1], &pks).is_err());
}

#[test]
fn test_sign_single_verifies_under_own_key() {
    let k1 = keypair(33);
    let k2 = keypair(34);
    let message = b"solo signature".to_vec();
    let sig = sign_single(&message, &k1);
    assert!(sig.verify(&message, &k1.public_key).is_ok());
    assert!(sig.verify(&message, &k2.public_key).is_err());
    let mut flipped = message.clone();
    flipped[5] ^= 4;
    assert!(sig.verify(&flipped, &k1.public_key).is_err());
}

#[test]
fn test_deterministic_nonce_with_fixed_randomness() {
    let k1 = keypair(21);
    let message = b"fixed randomness".to_vec();
    let randomness = [9u8; 32];
    let (eph_a, _, _) = create_ephemeral_key_and_commit_rng(&k1, &message, &randomness);
    let (eph_b, _, _) = create_ephemeral_key_and_commit_rng(&k1, &message, &randomness);
    assert_eq!(eph_a.r.as_bytes(), eph_b.r.as_bytes());
    assert_eq!(eph_a.R.as_bytes(), eph_b.R.as_bytes());
    // a different message changes the nonce even with the same randomness
    let (eph_c, _, _) = create_ephemeral_key_and_commit_rng(&k1, b"another message", &randomness);
    assert_ne!(eph_a.r.as_bytes(), eph_c.r.as_bytes());
}

#[test]
fn test_three_party_end_to_end() {
    let keys: Vec<ExpandedKeyPair> = vec![keypair(101), keypair(102), keypair(103)];
    let pks: Vec<GroupPoint> = keys.iter().map(|k| k.public_key.duplicate()).collect();
    let message = b"three cosigners".to_vec();

    let aggs: Vec<KeyAgg> = (0..3).map(|i| KeyAgg::key_aggregation_n(&pks, i)).collect();
    assert_eq!(aggs[0].apk.as_bytes(), aggs[1].apk.as_bytes());
    assert_eq!(aggs[1].apk.as_bytes(), aggs[2].apk.as_bytes());

    let mut ephs = Vec::new();
    let mut rs = Vec::new();
    for k in &keys {
        let (eph, first, second) = create_ephemeral_key_and_commit(k, &message);
        assert!(verify_commitment(&first, &second).is_ok());
        rs.push(second.R.duplicate());
        ephs.push(eph);
    }
    let r_tot = get_R_tot(&rs);

    let mut shares = Vec::new();
    for i in 0..3 {
        let s = partial_sign(&ephs[i].r, &keys[i], &aggs[i].hash, &r_tot, &aggs[i].apk, &message);
        assert!(verify_partial_sig(
            &s,
            &message,
            &aggs[i].hash,
            &ephs[i].R,
            &keys[i].public_key,
            &aggs[0].apk
        )
        .is_ok());
        shares.push(s);
    }
    let total = add_signature_parts(&shares).unwrap();
    assert!(total.verify(&message, &aggs[0].apk).is_ok());
}

#[test]
fn test_single_party_aggregation_run() {
    let k1 = keypair(55);
    let pks = vec![k1.public_key.duplicate()];
    let message = b"one party".to_vec();
    let agg = KeyAgg::key_aggregation_n(&pks, 0);
    let (eph1, first1, second1) = create_ephemeral_key_and_commit(&k1, &message);
    assert!(verify_commitment(&first1, &second1).is_ok());
    let r_tot = get_R_tot(&vec![second1.R.duplicate()]);
    assert_eq!(r_tot.as_bytes(), eph1.R.as_bytes());
    let s1 = partial_sign(&eph1.r, &k1, &agg.hash, &r_tot, &agg.apk, &message);
    let total = add_signature_parts(&vec![s1]).unwrap();
    assert!(total.verify(&message, &agg.apk).is_ok());
}
