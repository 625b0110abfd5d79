//! The aggregation-and-signing protocol: deterministic public-key
//! aggregation with per-party weighting, the two-round
//! commit-then-reveal nonce exchange, partial signatures and their
//! verification, and the two signature-combination schemes.
//!
//! The two combination schemes are distinct and must not be mixed: the
//! shared-nonce scheme combines shares that all carry the one nonce
//! point established by the commit-reveal rounds, while the
//! independent-nonce scheme weights each signer's own-nonce signature
//! by a coefficient of its key alone.

use vstd::prelude::*;

use crate::group::{
    base_mul_e, bytes_eq, commit_e, commit_with, concat_bytes3, hash_to_scalar, hash_to_scalar_e,
    identity_point_enc, points_equal, pt_add, pt_add_e, pt_base_mul, pt_mul, pt_mul_e, pt_y_bytes,
    pt_y_e, random_bytes32, sample_blind, sc_add, sc_add_e, sc_mul, sc_mul_e, zero_scalar_enc,
    GroupPoint, GroupScalar,
};
use super::{
    challenge_e, challenge_hashed_e, CommitmentError, ExpandedKeyPair, ProofError, ProtocolError,
    Signature,
};

verus! {

/// The views (canonical encodings) of a list of points.
pub open spec fn views_of_points(pks: Seq<GroupPoint>) -> Seq<Seq<u8>> {
    pks.map_values(|p: GroupPoint| p@)
}

/// The concatenation of a list of encodings, in order.
pub open spec fn concat_encodings(pks: Seq<Seq<u8>>) -> Seq<u8>
    decreases pks.len(),
{
    if pks.len() == 0 {
        Seq::empty()
    } else {
        concat_encodings(pks.drop_last()) + pks.last()
    }
}

/// The byte stream hashed to obtain party `i`'s aggregation
/// coefficient: a domain tag, the party's key, then the whole ordered
/// key set. Because the entire set is included, the coefficient of a
/// key depends on every key in the list.
pub open spec fn coefficient_input(pks: Seq<Seq<u8>>, i: int) -> Seq<u8> {
    seq![1u8] + pks[i] + concat_encodings(pks)
}

/// Party `i`'s aggregation coefficient: the coefficient input reduced
/// to a scalar.
pub open spec fn coefficient_e(pks: Seq<Seq<u8>>, i: int) -> Seq<u8> {
    hash_to_scalar_e(coefficient_input(pks, i))
}

/// The aggregated public key over the first `n` keys: the sum of each
/// key weighted by its coefficient, accumulated from the identity in
/// list order.
pub open spec fn aggregate_key_e(pks: Seq<Seq<u8>>, n: int) -> Seq<u8>
    decreases n,
{
    if n <= 0 {
        identity_point_enc()
    } else {
        pt_add_e(aggregate_key_e(pks, n - 1), pt_mul_e(coefficient_e(pks, n - 1), pks[n - 1]))
    }
}

/// The aggregated public key (a point) together with the calling
/// party's own aggregation coefficient (a scalar). Every party must
/// compute it from the same ordered key list: a divergent ordering
/// produces a different aggregated key.
pub struct KeyAgg {
    pub apk: GroupPoint,
    pub hash: GroupScalar,
}

impl KeyAgg {
    /// Aggregates an ordered, non-empty list of public keys:
    /// `apk = sum_i coefficient_i * pk_i`, where each coefficient
    /// hashes the whole ordered key set, and returns `apk` together
    /// with the coefficient of `party_index`.
    pub fn key_aggregation_n(pks: &Vec<GroupPoint>, party_index: usize) -> (r: KeyAgg)
        requires
            pks@.len() >= 1,
            party_index < pks@.len(),
        ensures
            r.apk@ == aggregate_key_e(views_of_points(pks@), pks@.len() as int),
            r.hash@ == coefficient_e(views_of_points(pks@), party_index as int),
    {
        let ghost views = views_of_points(pks@);
        let n = pks.len();
        let mut all: Vec<u8> = Vec::new();
        let mut i: usize = 0;
        while i < n
            invariant
                i <= n,
                n == pks@.len(),
                views == views_of_points(pks@),
                all@ == concat_encodings(views.take(i as int)),
            decreases n - i,
        {
            let pki = &pks[i];
            crate::group::append_slice(&mut all, pki.as_bytes().as_slice());
            proof {
                assert(views.take(i + 1 as int).drop_last() =~= views.take(i as int));
                assert(views.take(i + 1 as int).last() == pks@[i as int]@);
                assert(all@ == concat_encodings(views.take(i + 1 as int)));
            }
            i += 1;
        }
        proof {
            assert(views.take(n as int) =~= views);
        }
        let mut my_hash = GroupScalar::zero();
        let mut sum = GroupPoint::zero();
        let mut j: usize = 0;
        while j < n
            invariant
                j <= n,
                n == pks@.len(),
                party_index < n,
                views == views_of_points(pks@),
                all@ == concat_encodings(views),
                sum@ == aggregate_key_e(views, j as int),
                j > party_index ==> my_hash@ == coefficient_e(views, party_index as int),
            decreases n - j,
        {
            let pkj = &pks[j];
            let tag: Vec<u8> = vec![1u8];
            let input = concat_bytes3(tag.as_slice(), pkj.as_bytes().as_slice(), all.as_slice());
            proof {
                assert(tag@ =~= seq![1u8]);
                assert(input@ == coefficient_input(views, j as int));
            }
            let h = hash_to_scalar(input.as_slice());
            let a_j = pt_mul(&h, pkj);
            if j == party_index {
                my_hash = h;
            }
            sum = pt_add(&sum, &a_j);
            proof {
                assert(sum@ == aggregate_key_e(views, j + 1 as int));
            }
            j += 1;
        }
        KeyAgg { apk: sum, hash: my_hash }
    }
}

/// The sum of a non-empty list of nonce points, accumulated from the
/// first element in list order.
pub open spec fn combined_nonce_e(rs: Seq<Seq<u8>>, n: int) -> Seq<u8>
    decreases n,
{
    if n <= 1 {
        rs[0]
    } else {
        pt_add_e(combined_nonce_e(rs, n - 1), rs[n - 1])
    }
}

/// Sums a non-empty list of revealed nonce points into the aggregate
/// nonce point. Group addition is commutative, so the sum does not
/// depend on the order; the inputs must already have had their
/// commitments verified.
pub fn get_R_tot(Rs: &Vec<GroupPoint>) -> (r: GroupPoint)
    requires
        Rs@.len() >= 1,
    ensures
        r@ == combined_nonce_e(views_of_points(Rs@), Rs@.len() as int),
{
    let ghost views = views_of_points(Rs@);
    let n = Rs.len();
    let mut acc = Rs[0].duplicate();
    let mut i: usize = 1;
    while i < n
        invariant
            1 <= i <= n,
            n == Rs@.len(),
            views == views_of_points(Rs@),
            acc@ == combined_nonce_e(views, i as int),
        decreases n - i,
    {
        acc = pt_add(&acc, &Rs[i]);
        proof {
            assert(acc@ == combined_nonce_e(views, i + 1 as int));
        }
        i += 1;
    }
    acc
}

/// A per-session secret nonce scalar and its public point. Created
/// fresh for each signing session and never reused: reusing a nonce
/// across sessions with the same private key leaks the private scalar.
pub struct EphemeralKey {
    pub r: GroupScalar,
    pub R: GroupPoint,
}

/// Round one of the nonce exchange: a hiding, binding commitment to
/// the ephemeral public point's y coordinate.
pub struct SignFirstMsg {
    pub commitment: Vec<u8>,
}

/// Round two of the nonce exchange: the ephemeral public point and the
/// blinding value that opens the round-one commitment. It must be
/// checked against the matching `SignFirstMsg` before its point is
/// trusted.
pub struct SignSecondMsg {
    pub R: GroupPoint,
    pub blind_factor: Vec<u8>,
}

/// The nonce scalar derived for a session: a domain tag, the signer's
/// secret prefix, the message, and fresh randomness, hashed and
/// reduced. The deterministic part ties the nonce to the key and
/// message; the randomness keeps a weak random source from reproducing
/// a nonce for distinct messages on its own.
pub open spec fn nonce_e(prefix: Seq<u8>, message: Seq<u8>, randomness: Seq<u8>) -> Seq<u8> {
    hash_to_scalar_e(seq![2u8] + prefix + message + randomness)
}

/// Whether an ephemeral key and the two round messages belong to one
/// session: the public point is the nonce times the generator, round
/// two reveals that point, and round one commits to the point's y
/// coordinate under round two's blinding value.
pub open spec fn session_consistent(
    ephemeral: EphemeralKey,
    first: SignFirstMsg,
    second: SignSecondMsg,
) -> bool {
    &&& ephemeral.R@ == base_mul_e(ephemeral.r@)
    &&& second.R@ == ephemeral.R@
    &&& first.commitment@ == commit_e(pt_y_e(ephemeral.R@), second.blind_factor@)
}

/// Creates the session nonce from the caller's randomness: the nonce
/// scalar hashes the signer's prefix, the message and the given
/// random bytes; the returned messages commit to and reveal its public
/// point.
pub fn create_ephemeral_key_and_commit_rng(
    keys: &ExpandedKeyPair,
    message: &[u8],
    randomness: &[u8],
) -> (r: (EphemeralKey, SignFirstMsg, SignSecondMsg))
    ensures
        r.0.r@ == nonce_e(keys.expanded_private_key.prefix@, message@, randomness@),
        session_consistent(r.0, r.1, r.2),
{
    let tag: Vec<u8> = vec![2u8];
    let mut data = concat_bytes3(
        tag.as_slice(),
        keys.expanded_private_key.prefix.as_slice(),
        message,
    );
    crate::group::append_slice(&mut data, randomness);
    proof {
        assert(tag@ =~= seq![2u8]);
        assert(data@ == seq![2u8] + keys.expanded_private_key.prefix@ + message@ + randomness@);
    }
    let r = hash_to_scalar(data.as_slice());
    let R = pt_base_mul(&r);
    let y = pt_y_bytes(&R);
    let blind_factor = sample_blind();
    let commitment = commit_with(y.as_slice(), blind_factor.as_slice());
    let R2 = R.duplicate();
    (
        EphemeralKey { r, R },
        SignFirstMsg { commitment },
        SignSecondMsg { R: R2, blind_factor },
    )
}

/// Creates the session nonce with 32 fresh random bytes from the
/// process's random source.
pub fn create_ephemeral_key_and_commit(keys: &ExpandedKeyPair, message: &[u8]) -> (r: (
    EphemeralKey,
    SignFirstMsg,
    SignSecondMsg,
))
    ensures
        exists|randomness: Seq<u8>|
            randomness.len() == 32 && r.0.r@ == nonce_e(
                keys.expanded_private_key.prefix@,
                message@,
                randomness,
            ),
        session_consistent(r.0, r.1, r.2),
{
    let randomness = random_bytes32();
    let r = create_ephemeral_key_and_commit_rng(keys, message, randomness.as_slice());
    proof {
        assert(randomness@.len() == 32 && r.0.r@ == nonce_e(
            keys.expanded_private_key.prefix@,
            message@,
            randomness@,
        ));
    }
    r
}

/// Checks a round-two reveal against its round-one commitment: accepts
/// exactly when the commitment is the hash commitment to the revealed
/// point's y coordinate under the revealed blinding value. A failed
/// check is fatal for the session; the session must restart with a
/// fresh nonce.
pub fn verify_commitment(first: &SignFirstMsg, second: &SignSecondMsg) -> (r: Result<
    (),
    CommitmentError,
>)
    ensures
        r is Ok <==> first.commitment@ == commit_e(pt_y_e(second.R@), second.blind_factor@),
{
    let y = pt_y_bytes(&second.R);
    let expected = commit_with(y.as_slice(), second.blind_factor.as_slice());
    if bytes_eq(&first.commitment, &expected) {
        Ok(())
    } else {
        Err(CommitmentError)
    }
}

/// The response scalar of a partial signature: the local nonce plus
/// `challenge * private_key * coefficient`.
pub open spec fn partial_response_e(
    r: Seq<u8>,
    challenge: Seq<u8>,
    private_key: Seq<u8>,
    coefficient: Seq<u8>,
) -> Seq<u8> {
    sc_add_e(r, sc_mul_e(sc_mul_e(challenge, private_key), coefficient))
}

/// Computes this party's signature share for the shared-nonce scheme:
/// the challenge hashes the aggregate nonce point, the aggregated key
/// and the message; the response is the local nonce plus
/// `challenge * private_key * coefficient`. The share carries the
/// aggregate nonce point, identical across all shares of the session.
pub fn partial_sign(
    r: &GroupScalar,
    keys: &ExpandedKeyPair,
    a: &GroupScalar,
    R_tot: &GroupPoint,
    agg_pubkey: &GroupPoint,
    msg: &[u8],
) -> (sig: Signature)
    ensures
        sig.R@ == R_tot@,
        sig.s@ == partial_response_e(
            r@,
            challenge_e(R_tot@, agg_pubkey@, msg@),
            keys.expanded_private_key.private_key@,
            a@,
        ),
{
    let k = Signature::k(R_tot, agg_pubkey, msg);
    let k_mul_sk = sc_mul(&k, &keys.expanded_private_key.private_key);
    let k_mul_sk_mul_ai = sc_mul(&k_mul_sk, a);
    let s = sc_add(r, &k_mul_sk_mul_ai);
    Signature { R: R_tot.duplicate(), s }
}

/// The deterministic single-party nonce: the signer's secret prefix
/// and the message, hashed and reduced.
pub open spec fn single_nonce_e(prefix: Seq<u8>, message: Seq<u8>) -> Seq<u8> {
    hash_to_scalar_e(prefix + message)
}

/// Signs a message alone for the independent-nonce scheme: the nonce
/// is deterministic from the prefix and message, and the challenge is
/// the coefficient-free hash of the message alone. Only
/// `add_signature_parts_hashed` combines such signatures; they are not
/// shares of the commit-reveal flow.
pub fn partial_sign_hashed(message: &[u8], keys: &ExpandedKeyPair) -> (sig: Signature)
    ensures
        sig.R@ == base_mul_e(single_nonce_e(keys.expanded_private_key.prefix@, message@)),
        sig.s@ == sc_add_e(
            single_nonce_e(keys.expanded_private_key.prefix@, message@),
            sc_mul_e(challenge_hashed_e(message@), keys.expanded_private_key.private_key@),
        ),
{
    let data = crate::group::concat_bytes2(keys.expanded_private_key.prefix.as_slice(), message);
    let r = hash_to_scalar(data.as_slice());
    let R = pt_base_mul(&r);
    let k = Signature::k_hashed(message);
    let k_mul_sk = sc_mul(&k, &keys.expanded_private_key.private_key);
    let s = sc_add(&r, &k_mul_sk);
    Signature { R, s }
}

/// Signs a message alone as a plain solo signer: the nonce is
/// deterministic from the prefix and message, and the challenge binds
/// the signer's own nonce point and public key, so the result verifies
/// under ordinary single-key verification against the signer's key.
pub fn sign_single(message: &[u8], keys: &ExpandedKeyPair) -> (sig: Signature)
    ensures
        sig.R@ == base_mul_e(single_nonce_e(keys.expanded_private_key.prefix@, message@)),
        sig.s@ == sc_add_e(
            single_nonce_e(keys.expanded_private_key.prefix@, message@),
            sc_mul_e(
                challenge_e(sig.R@, keys.public_key@, message@),
                keys.expanded_private_key.private_key@,
            ),
        ),
{
    let data = crate::group::concat_bytes2(keys.expanded_private_key.prefix.as_slice(), message);
    let r = hash_to_scalar(data.as_slice());
    let R = pt_base_mul(&r);
    let k = Signature::k(&R, &keys.public_key, message);
    let k_mul_sk = sc_mul(&k, &keys.expanded_private_key.private_key);
    let s = sc_add(&r, &k_mul_sk);
    Signature { R, s }
}

/// The views of the response scalars of a list of signatures.
pub open spec fn response_views(sigs: Seq<Signature>) -> Seq<Seq<u8>> {
    sigs.map_values(|sig: Signature| sig.s@)
}

/// The views of the nonce points of a list of signatures.
pub open spec fn nonce_views(sigs: Seq<Signature>) -> Seq<Seq<u8>> {
    sigs.map_values(|sig: Signature| sig.R@)
}

/// The sum of the first `n` response scalars of a non-empty share
/// list, accumulated from the first element.
pub open spec fn combined_response_e(ss: Seq<Seq<u8>>, n: int) -> Seq<u8>
    decreases n,
{
    if n <= 1 {
        ss[0]
    } else {
        sc_add_e(combined_response_e(ss, n - 1), ss[n - 1])
    }
}

/// Combines shares of the shared-nonce scheme. Accepts exactly the
/// non-empty share lists whose nonce points all agree — a disagreeing
/// list is a protocol fault and is rejected with an explicit error —
/// and returns the shared nonce point with the sum of the responses.
pub fn add_signature_parts(sigs: &Vec<Signature>) -> (r: Result<Signature, ProtocolError>)
    ensures
        r is Ok <==> (sigs@.len() >= 1 && forall|i: int|
            0 <= i < sigs@.len() ==> #[trigger] sigs@[i].R@ == sigs@[0].R@),
        r matches Ok(sig) ==> sig.R@ == sigs@[0].R@ && sig.s@ == combined_response_e(
            response_views(sigs@),
            sigs@.len() as int,
        ),
{
    let ghost ss = response_views(sigs@);
    if sigs.len() == 0 {
        return Err(ProtocolError);
    }
    let n = sigs.len();
    let mut i: usize = 1;
    while i < n
        invariant
            1 <= i <= n,
            n == sigs@.len(),
            forall|j: int| 0 <= j < i ==> #[trigger] sigs@[j].R@ == sigs@[0].R@,
        decreases n - i,
    {
        if !points_equal(&sigs[i].R, &sigs[0].R) {
            return Err(ProtocolError);
        }
        i += 1;
    }
    let mut sum = sigs[0].s.duplicate();
    let mut j: usize = 1;
    while j < n
        invariant
            1 <= j <= n,
            n == sigs@.len(),
            ss == response_views(sigs@),
            sum@ == combined_response_e(ss, j as int),
        decreases n - j,
    {
        sum = sc_add(&sum, &sigs[j].s);
        proof {
            assert(sum@ == combined_response_e(ss, j + 1 as int));
        }
        j += 1;
    }
    Ok(Signature { R: sigs[0].R.duplicate(), s: sum })
}

/// The per-key weight of the independent-nonce scheme: the hash of the
/// domain tag and the individual key alone, reduced to a scalar.
pub open spec fn hashed_coefficient_e(pk: Seq<u8>) -> Seq<u8> {
    hash_to_scalar_e(seq![1u8] + pk)
}

/// The weighted sum of the first `n` response scalars under the
/// per-key weights, accumulated from zero.
pub open spec fn hashed_sum_s_e(ss: Seq<Seq<u8>>, pks: Seq<Seq<u8>>, n: int) -> Seq<u8>
    decreases n,
{
    if n <= 0 {
        zero_scalar_enc()
    } else {
        sc_add_e(
            hashed_sum_s_e(ss, pks, n - 1),
            sc_mul_e(hashed_coefficient_e(pks[n - 1]), ss[n - 1]),
        )
    }
}

/// The weighted sum of the first `n` nonce points under the per-key
/// weights, accumulated from the identity.
pub open spec fn hashed_sum_r_e(rs: Seq<Seq<u8>>, pks: Seq<Seq<u8>>, n: int) -> Seq<u8>
    decreases n,
{
    if n <= 0 {
        identity_point_enc()
    } else {
        pt_add_e(
            hashed_sum_r_e(rs, pks, n - 1),
            pt_mul_e(hashed_coefficient_e(pks[n - 1]), rs[n - 1]),
        )
    }
}

/// The aggregated key matching the independent-nonce scheme: each key
/// weighted by its own per-key coefficient, accumulated from the
/// identity.
pub open spec fn hashed_agg_key_e(pks: Seq<Seq<u8>>, n: int) -> Seq<u8>
    decreases n,
{
    if n <= 0 {
        identity_point_enc()
    } else {
        pt_add_e(
            hashed_agg_key_e(pks, n - 1),
            pt_mul_e(hashed_coefficient_e(pks[n - 1]), pks[n - 1]),
        )
    }
}

/// The per-key weight of one public key.
fn hashed_pk(pk: &GroupPoint) -> (r: GroupScalar)
    ensures
        r@ == hashed_coefficient_e(pk@),
{
    let tag: Vec<u8> = vec![1u8];
    let data = crate::group::concat_bytes2(tag.as_slice(), pk.as_bytes().as_slice());
    proof {
        assert(tag@ =~= seq![1u8]);
    }
    hash_to_scalar(data.as_slice())
}

/// Combines own-nonce signatures of the independent-nonce scheme:
/// each signature is weighted by the coefficient of its signer's key
/// alone, and the weighted nonce points and responses are summed.
/// A share list whose length differs from the key list's is malformed
/// and rejected with an explicit error.
pub fn add_signature_parts_hashed(sigs: &Vec<Signature>, pks: &Vec<GroupPoint>) -> (r: Result<
    Signature,
    ProtocolError,
>)
    ensures
        r is Ok <==> sigs@.len() == pks@.len(),
        r matches Ok(sig) ==> sig.s@ == hashed_sum_s_e(
            response_views(sigs@),
            views_of_points(pks@),
            sigs@.len() as int,
        ) && sig.R@ == hashed_sum_r_e(
            nonce_views(sigs@),
            views_of_points(pks@),
            sigs@.len() as int,
        ),
{
    if sigs.len() != pks.len() {
        return Err(ProtocolError);
    }
    let ghost ss = response_views(sigs@);
    let ghost rs = nonce_views(sigs@);
    let ghost views = views_of_points(pks@);
    let n = sigs.len();
    let mut agg_sig = GroupScalar::zero();
    let mut agg_R = GroupPoint::zero();
    let mut i: usize = 0;
    while i < n
        invariant
            i <= n,
            n == sigs@.len(),
            n == pks@.len(),
            ss == response_views(sigs@),
            rs == nonce_views(sigs@),
            views == views_of_points(pks@),
            agg_sig@ == hashed_sum_s_e(ss, views, i as int),
            agg_R@ == hashed_sum_r_e(rs, views, i as int),
        decreases n - i,
    {
        let h = hashed_pk(&pks[i]);
        let weighted_s = sc_mul(&h, &sigs[i].s);
        agg_sig = sc_add(&agg_sig, &weighted_s);
        let weighted_R = pt_mul(&h, &sigs[i].R);
        agg_R = pt_add(&agg_R, &weighted_R);
        proof {
            assert(agg_sig@ == hashed_sum_s_e(ss, views, i + 1 as int));
            assert(agg_R@ == hashed_sum_r_e(rs, views, i + 1 as int));
        }
        i += 1;
    }
    Ok(Signature { R: agg_R, s: agg_sig })
}

/// Aggregates the public keys of the independent-nonce scheme: each
/// key weighted by the coefficient of that key alone.
pub fn add_pk_parts_hashed(pks: &Vec<GroupPoint>) -> (r: GroupPoint)
    ensures
        r@ == hashed_agg_key_e(views_of_points(pks@), pks@.len() as int),
{
    let ghost views = views_of_points(pks@);
    let n = pks.len();
    let mut agg_pk = GroupPoint::zero();
    let mut i: usize = 0;
    while i < n
        invariant
            i <= n,
            n == pks@.len(),
            views == views_of_points(pks@),
            agg_pk@ == hashed_agg_key_e(views, i as int),
        decreases n - i,
    {
        let h = hashed_pk(&pks[i]);
        let weighted = pt_mul(&h, &pks[i]);
        agg_pk = pt_add(&agg_pk, &weighted);
        proof {
            assert(agg_pk@ == hashed_agg_key_e(views, i + 1 as int));
        }
        i += 1;
    }
    agg_pk
}

/// Checks one signature share against the claims it was built from,
/// without any secret material: accepts exactly when
/// `s * G == coefficient * challenge * partial_public_key + partial_R`,
/// with the challenge recomputed from the share's nonce point, the
/// aggregated key and the message. Altering the message, the nonce
/// point, the coefficient or the public key changes the accepted
/// equation, so a share built for the original claims is rejected.
pub fn verify_partial_sig(
    sig: &Signature,
    message: &[u8],
    a: &GroupScalar,
    partial_R: &GroupPoint,
    partial_public_key: &GroupPoint,
    agg_pubkey: &GroupPoint,
) -> (r: Result<(), ProofError>)
    ensures
        r is Ok <==> pt_add_e(
            pt_mul_e(
                a@,
                pt_mul_e(challenge_e(sig.R@, agg_pubkey@, message@), partial_public_key@),
            ),
            partial_R@,
        ) == base_mul_e(sig.s@),
{
    let k = Signature::k(&sig.R, agg_pubkey, message);
    let kA = pt_mul(&k, partial_public_key);
    let kA_mul_a = pt_mul(a, &kA);
    let R_plus_kA = pt_add(&kA_mul_a, partial_R);
    let sG = pt_base_mul(&sig.s);
    if points_equal(&R_plus_kA, &sG) {
        Ok(())
    } else {
        Err(ProofError)
    }
}

/// Key aggregation is deterministic: one ordered key list and one
/// party index determine the aggregated key and the party's
/// coefficient; two parties that agree on both always compute the
/// same pair.
pub proof fn lemma_aggregation_deterministic(
    pks1: Seq<Seq<u8>>,
    pks2: Seq<Seq<u8>>,
    i1: int,
    i2: int,
)
    requires
        pks1 == pks2,
        i1 == i2,
    ensures
        aggregate_key_e(pks1, pks1.len() as int) == aggregate_key_e(pks2, pks2.len() as int),
        coefficient_e(pks1, i1) == coefficient_e(pks2, i2),
{
}

/// The concatenation of 32-byte encodings is 32 bytes per encoding.
pub proof fn lemma_concat_encodings_len(pks: Seq<Seq<u8>>)
    requires
        forall|j: int| 0 <= j < pks.len() ==> (#[trigger] pks[j]).len() == 32,
    ensures
        concat_encodings(pks).len() == 32 * pks.len(),
    decreases pks.len(),
{
    if pks.len() > 0 {
        lemma_concat_encodings_len(pks.drop_last());
    }
}

/// Two lists of 32-byte encodings with equal concatenations are equal:
/// the fixed block size makes the concatenation injective.
pub proof fn lemma_concat_encodings_injective(pks1: Seq<Seq<u8>>, pks2: Seq<Seq<u8>>)
    requires
        forall|j: int| 0 <= j < pks1.len() ==> (#[trigger] pks1[j]).len() == 32,
        forall|j: int| 0 <= j < pks2.len() ==> (#[trigger] pks2[j]).len() == 32,
        concat_encodings(pks1) == concat_encodings(pks2),
    ensures
        pks1 == pks2,
    decreases pks1.len(),
{
    lemma_concat_encodings_len(pks1);
    lemma_concat_encodings_len(pks2);
    assert(pks1.len() == pks2.len());
    if pks1.len() == 0 {
        assert(pks1 =~= pks2);
    } else {
        let n = pks1.len() as int;
        let a = pks1.drop_last();
        let b = pks2.drop_last();
        lemma_concat_encodings_len(a);
        lemma_concat_encodings_len(b);
        assert(concat_encodings(a) =~= concat_encodings(pks1).subrange(0, 32 * (n - 1)));
        assert(concat_encodings(b) =~= concat_encodings(pks2).subrange(0, 32 * (n - 1)));
        assert(pks1.last() =~= concat_encodings(pks1).subrange(32 * (n - 1), 32 * n));
        assert(pks2.last() =~= concat_encodings(pks2).subrange(32 * (n - 1), 32 * n));
        lemma_concat_encodings_injective(a, b);
        assert(forall|i: int| 0 <= i < n - 1 ==> #[trigger] pks1[i] == a[i] && pks2[i] == b[i]);
        assert(pks1[n - 1] == pks1.last() && pks2[n - 1] == pks2.last());
        assert(pks1 =~= pks2);
    }
}

/// The rogue-key defense at the hash boundary: a party's aggregation
/// coefficient hashes the whole ordered key set, so for two different
/// key lists that contain a common key, the hashed byte streams behind
/// that key's two coefficients differ — the coefficients themselves
/// can then coincide only on a collision of the hash.
pub proof fn lemma_coefficient_input_injective(
    pks1: Seq<Seq<u8>>,
    pks2: Seq<Seq<u8>>,
    i1: int,
    i2: int,
)
    requires
        forall|j: int| 0 <= j < pks1.len() ==> (#[trigger] pks1[j]).len() == 32,
        forall|j: int| 0 <= j < pks2.len() ==> (#[trigger] pks2[j]).len() == 32,
        0 <= i1 < pks1.len(),
        0 <= i2 < pks2.len(),
        pks1[i1] == pks2[i2],
        pks1 != pks2,
    ensures
        coefficient_input(pks1, i1) != coefficient_input(pks2, i2),
{
    if coefficient_input(pks1, i1) == coefficient_input(pks2, i2) {
        lemma_concat_encodings_len(pks1);
        lemma_concat_encodings_len(pks2);
        let in1 = coefficient_input(pks1, i1);
        let in2 = coefficient_input(pks2, i2);
        assert(in1.len() == 33 + 32 * pks1.len());
        assert(in2.len() == 33 + 32 * pks2.len());
        assert(pks1.len() == pks2.len());
        assert(concat_encodings(pks1) =~= in1.subrange(33, in1.len() as int));
        assert(concat_encodings(pks2) =~= in2.subrange(33, in2.len() as int));
        lemma_concat_encodings_injective(pks1, pks2);
        assert(false);
    }
}

} // verus!

