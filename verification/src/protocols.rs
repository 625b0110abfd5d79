//! Shared protocol material: expanded key pairs, the two-component
//! signature type with ordinary single-key verification, and the error
//! taxonomy.

pub mod aggsig;

use vstd::prelude::*;

use crate::group::{
    base_mul_e, concat_bytes3, hash_to_scalar, hash_to_scalar_e, points_equal, pt_add, pt_add_e,
    pt_base_mul, pt_mul, pt_mul_e, random_bytes32, sc_from_le_e, sha512_bytes, sha512_e,
    GroupPoint, GroupScalar,
};

verus! {

/// Verification failure of a partial or final signature.
#[derive(Clone, Copy, Debug, PartialEq, Eq, Structural)]
pub struct ProofError;

/// A protocol fault: a share list whose nonce points disagree, or a
/// mismatched or malformed key or share list.
#[derive(Clone, Copy, Debug, PartialEq, Eq, Structural)]
pub struct ProtocolError;

/// A reveal that fails to open its round-one commitment.
#[derive(Clone, Copy, Debug, PartialEq, Eq, Structural)]
pub struct CommitmentError;

/// The secret half of an expanded key: the expanded private scalar and
/// the prefix bytes used only to derive nonces. Exclusively owned by
/// its signer and never transmitted.
pub struct ExpandedPrivateKey {
    pub prefix: Vec<u8>,
    pub private_key: GroupScalar,
}

/// An expanded key pair: the secret expansion of a 32-byte seed
/// together with the corresponding public point.
pub struct ExpandedKeyPair {
    pub public_key: GroupPoint,
    pub expanded_private_key: ExpandedPrivateKey,
}

/// The clamping of the low 32 bytes of a key expansion: the three low
/// bits of the first byte and the high bit of the last byte cleared,
/// and the second-highest bit of the last byte set.
pub open spec fn clamp_spec(h: Seq<u8>) -> Seq<u8> {
    h.update(0, h[0] & 248).update(31, (h[31] & 127) | 64)
}

/// The private scalar that a 32-byte seed expands to.
pub open spec fn expanded_private_scalar(seed: Seq<u8>) -> Seq<u8> {
    sc_from_le_e(clamp_spec(sha512_e(seed).subrange(0, 32)))
}

/// The nonce-derivation prefix that a 32-byte seed expands to.
pub open spec fn expanded_prefix(seed: Seq<u8>) -> Seq<u8> {
    sha512_e(seed).subrange(32, 64)
}

impl ExpandedKeyPair {
    /// Whether the key pair is the expansion of the given seed.
    pub open spec fn is_expansion_of(self, seed: Seq<u8>) -> bool {
        &&& self.expanded_private_key.private_key@ == expanded_private_scalar(seed)
        &&& self.expanded_private_key.prefix@ == expanded_prefix(seed)
        &&& self.public_key@ == base_mul_e(self.expanded_private_key.private_key@)
    }

    /// Expands a 32-byte secret seed: the private scalar is the
    /// clamped low half of the seed's SHA-512 digest, the prefix is
    /// the high half, and the public key is the scalar times the
    /// generator.
    pub fn create_from_private_key(secret: &[u8]) -> (keys: ExpandedKeyPair)
        requires
            secret@.len() == 32,
        ensures
            keys.is_expansion_of(secret@),
    {
        let h = sha512_bytes(secret);
        let mut key_part: Vec<u8> = Vec::new();
        let mut i: usize = 0;
        while i < 32
            invariant
                i <= 32,
                h@.len() == 64,
                key_part@ =~= h@.subrange(0, i as int),
            decreases 32 - i,
        {
            key_part.push(h[i]);
            i += 1;
        }
        let b0 = key_part[0] & 248;
        let b31 = (key_part[31] & 127) | 64;
        key_part[0] = b0;
        key_part[31] = b31;
        proof {
            assert(key_part@ =~= clamp_spec(sha512_e(secret@).subrange(0, 32)));
        }
        let private_key = GroupScalar::from_le_bytes32(key_part.as_slice());
        let mut prefix: Vec<u8> = Vec::new();
        let mut j: usize = 32;
        while j < 64
            invariant
                32 <= j <= 64,
                h@.len() == 64,
                prefix@ =~= h@.subrange(32, j as int),
            decreases 64 - j,
        {
            prefix.push(h[j]);
            j += 1;
        }
        let public_key = pt_base_mul(&private_key);
        ExpandedKeyPair {
            public_key,
            expanded_private_key: ExpandedPrivateKey { prefix, private_key },
        }
    }

    /// Expands a fresh random 32-byte seed.
    pub fn create() -> (keys: ExpandedKeyPair)
        ensures
            exists|seed: Seq<u8>| seed.len() == 32 && keys.is_expansion_of(seed),
    {
        let secret = random_bytes32();
        let keys = ExpandedKeyPair::create_from_private_key(secret.as_slice());
        proof {
            assert(secret@.len() == 32 && keys.is_expansion_of(secret@));
        }
        keys
    }
}

/// A two-component signature: a nonce point and a response scalar.
/// Used both for partial shares and for the final result.
pub struct Signature {
    pub R: GroupPoint,
    pub s: GroupScalar,
}

/// The challenge scalar binding a signature to a nonce point, a public
/// key and a message: the hash of their encodings in that order,
/// reduced to the group, with no extra domain tag — exactly what
/// ordinary single-key verification recomputes.
pub open spec fn challenge_e(r_enc: Seq<u8>, pk_enc: Seq<u8>, message: Seq<u8>) -> Seq<u8> {
    hash_to_scalar_e(r_enc + pk_enc + message)
}

/// The coefficient-free challenge of the independent-nonce scheme: the
/// hash of the message alone, reduced to the group.
pub open spec fn challenge_hashed_e(message: Seq<u8>) -> Seq<u8> {
    hash_to_scalar_e(message)
}

impl Signature {
    /// The challenge scalar for a nonce point, a public key and a
    /// message.
    pub fn k(R: &GroupPoint, pk: &GroupPoint, message: &[u8]) -> (r: GroupScalar)
        ensures
            r@ == challenge_e(R@, pk@, message@),
    {
        let data = concat_bytes3(R.as_bytes().as_slice(), pk.as_bytes().as_slice(), message);
        hash_to_scalar(data.as_slice())
    }

    /// The coefficient-free challenge scalar of the independent-nonce
    /// scheme.
    pub fn k_hashed(message: &[u8]) -> (r: GroupScalar)
        ensures
            r@ == challenge_hashed_e(message@),
    {
        hash_to_scalar(message)
    }

    /// Ordinary single-key verification: accepts exactly when
    /// `s * G == R + k * pk` with `k` the challenge recomputed from
    /// the signature's nonce point, the public key and the message.
    pub fn verify(&self, message: &[u8], public_key: &GroupPoint) -> (r: Result<(), ProofError>)
        ensures
            r is Ok <==> pt_add_e(
                pt_mul_e(challenge_e(self.R@, public_key@, message@), public_key@),
                self.R@,
            ) == base_mul_e(self.s@),
    {
        let k = Signature::k(&self.R, public_key, message);
        let kA = pt_mul(&k, public_key);
        let R_plus_kA = pt_add(&kA, &self.R);
        let sG = pt_base_mul(&self.s);
        if points_equal(&R_plus_kA, &sG) {
            Ok(())
        } else {
            Err(ProofError)
        }
    }

    /// Verification of the independent-nonce scheme's aggregate:
    /// accepts exactly when `s * G == R + k * pk` with `k` the
    /// coefficient-free challenge of the message.
    pub fn verify_hashed(&self, message: &[u8], public_key: &GroupPoint) -> (r: Result<
        (),
        ProofError,
    >)
        ensures
            r is Ok <==> pt_add_e(
                pt_mul_e(challenge_hashed_e(message@), public_key@),
                self.R@,
            ) == base_mul_e(self.s@),
    {
        let k = Signature::k_hashed(message);
        let kA = pt_mul(&k, public_key);
        let R_plus_kA = pt_add(&kA, &self.R);
        let sG = pt_base_mul(&self.s);
        if points_equal(&R_plus_kA, &sG) {
            Ok(())
        } else {
            Err(ProofError)
        }
    }
}

} // verus!
