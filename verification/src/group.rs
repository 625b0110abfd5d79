//! The group-arithmetic boundary: scalars and points of the Ed25519
//! prime-order subgroup, as the protocol sees them.
//!
//! Each value is kept as its canonical 32-byte encoding, which is also
//! its mathematical view; every contract in this crate speaks of such
//! encodings. The group operations themselves are performed by the
//! curv library behind trusted wrappers that decode the operands,
//! operate, and re-encode the result; what an operation returns is
//! named by an uninterpreted spec function of the operands' encodings,
//! which is sound because each of those curv operations is a pure
//! function of its operands.

use vstd::prelude::*;

use curv::arithmetic::traits::{Converter, Samplable};
use curv::cryptographic_primitives::commitments::hash_commitment::HashCommitment;
use curv::cryptographic_primitives::commitments::traits::Commitment;
use curv::cryptographic_primitives::hashing::DigestExt;
use curv::elliptic::curves::{Ed25519, Point, Scalar};
use curv::BigInt;
use rand::{thread_rng, Rng};
use sha2::{Digest, Sha512};

verus! {

/// Whether a byte string is a valid point encoding: one that curv's
/// `Point::from_bytes` accepts, that is, the encoding of the identity
/// or of a point of the prime order.
pub uninterp spec fn pt_valid_e(b: Seq<u8>) -> bool;

/// The encoding of the scalar sum `a + b` (mod the group order), where
/// `a` and `b` stand for the operands' encodings.
pub uninterp spec fn sc_add_e(a: Seq<u8>, b: Seq<u8>) -> Seq<u8>;

/// The encoding of the scalar product `a * b` (mod the group order).
pub uninterp spec fn sc_mul_e(a: Seq<u8>, b: Seq<u8>) -> Seq<u8>;

/// The encoding of the scalar a big-endian byte string reduces to
/// (mod the group order).
pub uninterp spec fn sc_reduce_e(b: Seq<u8>) -> Seq<u8>;

/// The encoding of the scalar deserialized from 32 little-endian bytes.
pub uninterp spec fn sc_from_le_e(b: Seq<u8>) -> Seq<u8>;

/// The encoding of the point sum `A + B`.
pub uninterp spec fn pt_add_e(a: Seq<u8>, b: Seq<u8>) -> Seq<u8>;

/// The encoding of the point `s * P`, for a scalar encoding `s` and a
/// point encoding `p`.
pub uninterp spec fn pt_mul_e(s: Seq<u8>, p: Seq<u8>) -> Seq<u8>;

/// The encoding of the point `s * G`, where `G` is the group generator.
pub uninterp spec fn base_mul_e(s: Seq<u8>) -> Seq<u8>;

/// The canonical re-encoding of a byte string that decodes to a point.
pub uninterp spec fn pt_norm_e(b: Seq<u8>) -> Seq<u8>;

/// The y coordinate of the point with the given encoding, as a
/// minimal big-endian byte string.
pub uninterp spec fn pt_y_e(p: Seq<u8>) -> Seq<u8>;

/// The encoding of the scalar obtained by hashing a byte stream with
/// SHA-512 and reducing the digest to the group.
pub uninterp spec fn hash_to_scalar_e(data: Seq<u8>) -> Seq<u8>;

/// The 64-byte SHA-512 digest of a byte stream.
pub uninterp spec fn sha512_e(data: Seq<u8>) -> Seq<u8>;

/// The hash commitment to `value` under the blinding factor `blind`,
/// as a minimal big-endian byte string.
pub uninterp spec fn commit_e(value: Seq<u8>, blind: Seq<u8>) -> Seq<u8>;

/// The canonical encoding of the group's identity point: the point
/// with y = 1, encoded little-endian with an even-x sign bit.
pub open spec fn identity_point_enc() -> Seq<u8> {
    Seq::new(32, |i: int| if i == 0 { 1u8 } else { 0u8 })
}

/// The canonical encoding of the zero scalar.
pub open spec fn zero_scalar_enc() -> Seq<u8> {
    Seq::new(32, |i: int| 0u8)
}

/// An immutable scalar modulo the group order, kept as its 32-byte
/// little-endian encoding, which is its view. Scalars built by this
/// crate's operations carry the canonical encoding curv serializes
/// them to, so two of them are equal exactly when their views are.
/// The type invariant keeps the encoding 32 bytes long, which is the
/// one length curv's `Scalar::from_bytes` accepts, so the wrappers
/// below decode it without failure.
pub struct GroupScalar {
    enc: Vec<u8>,
}

impl View for GroupScalar {
    type V = Seq<u8>;

    closed spec fn view(&self) -> Seq<u8> {
        self.enc@
    }
}

impl GroupScalar {
    #[verifier::type_invariant]
    spec fn well_formed(self) -> bool {
        self.enc@.len() == 32
    }

    /// The scalar's 32-byte encoding.
    pub fn as_bytes(&self) -> (r: &Vec<u8>)
        ensures
            r@ == self@,
            r@.len() == 32,
    {
        proof {
            use_type_invariant(&*self);
        }
        &self.enc
    }

    /// An equal scalar.
    pub fn duplicate(&self) -> (r: GroupScalar)
        ensures
            r@ == self@,
    {
        proof {
            use_type_invariant(&*self);
        }
        GroupScalar { enc: slice_to_vec(self.enc.as_slice()) }
    }

    /// Relies on curv's `Scalar::from_bigint`, which reduces a
    /// big-endian integer modulo the group order, and on
    /// `Scalar::to_bytes` for the canonical encoding.
    #[verifier::external_body]
    pub fn from_bytes(b: &[u8]) -> (r: GroupScalar)
        ensures
            r@ == sc_reduce_e(b@),
    {
        let s = Scalar::<Ed25519>::from_bigint(&BigInt::from_bytes(b));
        GroupScalar { enc: s.to_bytes().to_vec() }
    }

    /// Rebuilds a scalar from its 32-byte little-endian encoding;
    /// rejects input of any other length.
    pub fn from_le_bytes(b: &[u8]) -> (r: Option<GroupScalar>)
        ensures
            r matches Some(s) ==> s@ == sc_from_le_e(b@),
            r is Some <==> b@.len() == 32,
    {
        if b.len() == 32 {
            Some(GroupScalar::from_le_bytes32(b))
        } else {
            None
        }
    }

    /// Relies on curv's `Scalar::from_bytes`, which takes exactly 32
    /// little-endian bytes, and on `Scalar::to_bytes` for the
    /// encoding.
    #[verifier::external_body]
    pub(crate) fn from_le_bytes32(b: &[u8]) -> (r: GroupScalar)
        requires
            b@.len() == 32,
        ensures
            r@ == sc_from_le_e(b@),
    {
        let s = Scalar::<Ed25519>::from_bytes(b).unwrap();
        GroupScalar { enc: s.to_bytes().to_vec() }
    }

    /// Relies on curv's `Scalar::zero` and its all-zero canonical
    /// encoding.
    #[verifier::external_body]
    pub fn zero() -> (r: GroupScalar)
        ensures
            r@ == zero_scalar_enc(),
    {
        let s = Scalar::<Ed25519>::zero();
        GroupScalar { enc: s.to_bytes().to_vec() }
    }
}

/// An immutable element of the prime-order subgroup (or the identity),
/// kept as its canonical compressed 32-byte encoding, which is its
/// view. The encoding identifies the point, so two points are equal
/// exactly when their views are. The type invariant keeps the encoding
/// one that curv's `Point::from_bytes` accepts, so the wrappers below
/// decode it without failure.
pub struct GroupPoint {
    enc: Vec<u8>,
}

impl View for GroupPoint {
    type V = Seq<u8>;

    closed spec fn view(&self) -> Seq<u8> {
        self.enc@
    }
}

impl GroupPoint {
    #[verifier::type_invariant]
    spec fn well_formed(self) -> bool {
        self.enc@.len() == 32 && pt_valid_e(self.enc@)
    }

    /// The point's canonical compressed 32-byte encoding.
    pub fn as_bytes(&self) -> (r: &Vec<u8>)
        ensures
            r@ == self@,
            r@.len() == 32,
    {
        proof {
            use_type_invariant(&*self);
        }
        &self.enc
    }

    /// An equal point.
    pub fn duplicate(&self) -> (r: GroupPoint)
        ensures
            r@ == self@,
    {
        proof {
            use_type_invariant(&*self);
        }
        GroupPoint { enc: slice_to_vec(self.enc.as_slice()) }
    }

    /// Relies on curv's `Point::from_bytes`, which accepts exactly the
    /// encodings of the identity and of prime-order points, and on
    /// `Point::to_bytes` for the canonical compressed re-encoding.
    #[verifier::external_body]
    pub fn from_bytes(b: &[u8]) -> (r: Option<GroupPoint>)
        ensures
            r is Some <==> pt_valid_e(b@),
            r matches Some(p) ==> p@ == pt_norm_e(b@) && pt_valid_e(p@),
    {
        match Point::<Ed25519>::from_bytes(b) {
            Ok(p) => Some(GroupPoint { enc: p.to_bytes(true).to_vec() }),
            Err(_) => None,
        }
    }

    /// Relies on curv's `Point::zero` and the canonical encoding of
    /// the identity.
    #[verifier::external_body]
    pub fn zero() -> (r: GroupPoint)
        ensures
            r@ == identity_point_enc(),
    {
        let p = Point::<Ed25519>::zero();
        GroupPoint { enc: p.to_bytes(true).to_vec() }
    }
}

/// Relies on curv's point addition over Ed25519: the sum is a pure
/// function of the two operands.
#[verifier::external_body]
pub(crate) fn pt_add(a: &GroupPoint, b: &GroupPoint) -> (r: GroupPoint)
    ensures
        r@ == pt_add_e(a@, b@),
{
    let pa = Point::<Ed25519>::from_bytes(&a.enc).unwrap();
    let pb = Point::<Ed25519>::from_bytes(&b.enc).unwrap();
    let p = pa + pb;
    GroupPoint { enc: p.to_bytes(true).to_vec() }
}

/// Relies on curv's scalar multiplication of a point: the product is a
/// pure function of the two operands.
#[verifier::external_body]
pub(crate) fn pt_mul(s: &GroupScalar, p: &GroupPoint) -> (r: GroupPoint)
    ensures
        r@ == pt_mul_e(s@, p@),
{
    let sc = Scalar::<Ed25519>::from_bytes(&s.enc).unwrap();
    let pt = Point::<Ed25519>::from_bytes(&p.enc).unwrap();
    let q = pt * sc;
    GroupPoint { enc: q.to_bytes(true).to_vec() }
}

/// Relies on curv's multiplication of the fixed group generator by a
/// scalar: the product is a pure function of the scalar.
#[verifier::external_body]
pub(crate) fn pt_base_mul(s: &GroupScalar) -> (r: GroupPoint)
    ensures
        r@ == base_mul_e(s@),
{
    let sc = Scalar::<Ed25519>::from_bytes(&s.enc).unwrap();
    let p = Point::<Ed25519>::generator() * sc;
    GroupPoint { enc: p.to_bytes(true).to_vec() }
}

/// Relies on curv's `y_coord` for Ed25519, which returns the point's y
/// coordinate (it is defined for every point of this curve) as a
/// big-endian integer; `to_bytes` renders it minimally.
#[verifier::external_body]
pub(crate) fn pt_y_bytes(p: &GroupPoint) -> (r: Vec<u8>)
    ensures
        r@ == pt_y_e(p@),
{
    let pt = Point::<Ed25519>::from_bytes(&p.enc).unwrap();
    pt.y_coord().unwrap().to_bytes()
}

/// Relies on curv's scalar addition, reduced modulo the group order.
#[verifier::external_body]
pub(crate) fn sc_add(a: &GroupScalar, b: &GroupScalar) -> (r: GroupScalar)
    ensures
        r@ == sc_add_e(a@, b@),
{
    let sa = Scalar::<Ed25519>::from_bytes(&a.enc).unwrap();
    let sb = Scalar::<Ed25519>::from_bytes(&b.enc).unwrap();
    let s = sa + sb;
    GroupScalar { enc: s.to_bytes().to_vec() }
}

/// Relies on curv's scalar multiplication, reduced modulo the group
/// order.
#[verifier::external_body]
pub(crate) fn sc_mul(a: &GroupScalar, b: &GroupScalar) -> (r: GroupScalar)
    ensures
        r@ == sc_mul_e(a@, b@),
{
    let sa = Scalar::<Ed25519>::from_bytes(&a.enc).unwrap();
    let sb = Scalar::<Ed25519>::from_bytes(&b.enc).unwrap();
    let s = sa * sb;
    GroupScalar { enc: s.to_bytes().to_vec() }
}

/// Relies on curv's `DigestExt::result_scalar` over SHA-512: the
/// scalar it derives depends only on the bytes fed to the digest.
#[verifier::external_body]
pub(crate) fn hash_to_scalar(data: &[u8]) -> (r: GroupScalar)
    ensures
        r@ == hash_to_scalar_e(data@),
{
    let s: Scalar<Ed25519> = Sha512::new().chain(data).result_scalar();
    GroupScalar { enc: s.to_bytes().to_vec() }
}

/// Relies on the sha2 crate's SHA-512, whose digest is 64 bytes and
/// depends only on the input.
#[verifier::external_body]
pub(crate) fn sha512_bytes(data: &[u8]) -> (r: Vec<u8>)
    ensures
        r@ == sha512_e(data@),
        r@.len() == 64,
{
    Sha512::digest(data).to_vec()
}

/// Relies on curv's hash commitment over SHA-512: the commitment is
/// the digest of the committed value's bytes followed by the blinding
/// factor's bytes, rendered as a minimal big-endian integer.
#[verifier::external_body]
pub(crate) fn commit_with(value: &[u8], blind: &[u8]) -> (r: Vec<u8>)
    ensures
        r@ == commit_e(value@, blind@),
{
    let c = HashCommitment::<Sha512>::create_commitment_with_user_defined_randomness(
        &BigInt::from_bytes(value),
        &BigInt::from_bytes(blind),
    );
    c.to_bytes()
}

/// Relies on curv's `BigInt::sample` for a fresh 256-bit blinding
/// factor; nothing is promised of the random value.
#[verifier::external_body]
pub(crate) fn sample_blind() -> (r: Vec<u8>) {
    BigInt::sample(256).to_bytes()
}

/// Relies on rand's `thread_rng` for 32 fresh random bytes; nothing is
/// promised of their values.
#[verifier::external_body]
pub(crate) fn random_bytes32() -> (r: Vec<u8>)
    ensures
        r@.len() == 32,
{
    thread_rng().gen::<[u8; 32]>().to_vec()
}

/// Copies a slice into a fresh vector.
pub fn slice_to_vec(a: &[u8]) -> (r: Vec<u8>)
    ensures
        r@ == a@,
{
    let mut out: Vec<u8> = Vec::new();
    let n = a.len();
    let mut i: usize = 0;
    while i < n
        invariant
            i <= n,
            n == a@.len(),
            out@ =~= a@.subrange(0, i as int),
        decreases n - i,
    {
        out.push(a[i]);
        i += 1;
    }
    proof {
        assert(out@ =~= a@);
    }
    out
}

/// Appends a slice to a vector.
pub fn append_slice(out: &mut Vec<u8>, a: &[u8])
    ensures
        final(out)@ == old(out)@ + a@,
{
    let n = a.len();
    let mut i: usize = 0;
    while i < n
        invariant
            i <= n,
            n == a@.len(),
            out@ =~= old(out)@ + a@.subrange(0, i as int),
        decreases n - i,
    {
        out.push(a[i]);
        i += 1;
    }
    proof {
        assert(out@ =~= old(out)@ + a@);
    }
}

/// Concatenation of two byte slices.
pub fn concat_bytes2(a: &[u8], b: &[u8]) -> (r: Vec<u8>)
    ensures
        r@ == a@ + b@,
{
    let mut out: Vec<u8> = slice_to_vec(a);
    append_slice(&mut out, b);
    out
}

/// Concatenation of three byte slices.
pub fn concat_bytes3(a: &[u8], b: &[u8], c: &[u8]) -> (r: Vec<u8>)
    ensures
        r@ == a@ + b@ + c@,
{
    let mut out: Vec<u8> = slice_to_vec(a);
    append_slice(&mut out, b);
    append_slice(&mut out, c);
    out
}

/// Byte-for-byte equality of two byte vectors.
pub fn bytes_eq(a: &Vec<u8>, b: &Vec<u8>) -> (r: bool)
    ensures
        r == (a@ == b@),
{
    if a.len() != b.len() {
        return false;
    }
    let n = a.len();
    let mut i: usize = 0;
    while i < n
        invariant
            i <= n,
            n == a@.len(),
            n == b@.len(),
            forall|j: int| 0 <= j < i ==> a@[j] == b@[j],
        decreases n - i,
    {
        if a[i] != b[i] {
            return false;
        }
        i += 1;
    }
    proof {
        assert(a@ =~= b@);
    }
    true
}

/// Equality of two points, decided on their canonical encodings.
pub fn points_equal(a: &GroupPoint, b: &GroupPoint) -> (r: bool)
    ensures
        r == (a@ == b@),
{
    bytes_eq(a.as_bytes(), b.as_bytes())
}

} // verus!
