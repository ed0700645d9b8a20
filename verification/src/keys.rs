//! Key material over the Ristretto group. A secret key holds a scalar and a
//! public key holds a curve point; both are modelled by their canonical
//! 32-byte encodings, and every curve operation is specified as a function of
//! those encodings.

use vstd::prelude::*;

verus! {

#[verifier::external_type_specification]
#[verifier::external_body]
pub struct ExScalar(curve25519_dalek::scalar::Scalar);

#[verifier::external_type_specification]
#[verifier::external_body]
pub struct ExRistrettoPoint(curve25519_dalek::ristretto::RistrettoPoint);

/// Named result of curve25519's `Scalar::from_bytes_mod_order`: the canonical
/// encoding of the scalar read from 32 bytes, reduced mod the group order.
pub uninterp spec fn scalar_repr_of(bytes: Seq<u8>) -> Seq<u8>;

/// Named result of curve25519's `Scalar::from_bytes_mod_order_wide`: the
/// canonical encoding of the scalar read from 64 bytes, reduced mod the group
/// order.
pub uninterp spec fn scalar_wide_repr_of(bytes: Seq<u8>) -> Seq<u8>;

/// Named result of curve25519's Ristretto basepoint multiplication: the
/// compressed encoding of `secret * G`, as a function of the secret scalar's
/// canonical encoding.
pub uninterp spec fn public_of(secret: Seq<u8>) -> Seq<u8>;

/// Named result of curve25519's Ristretto scalar-point multiplication: the
/// compressed encoding of `secret * P`, as a function of the secret scalar's
/// canonical encoding and the point's compressed encoding.
pub uninterp spec fn dh_shared(secret: Seq<u8>, point: Seq<u8>) -> Seq<u8>;

/// Named result of curve25519's Ristretto point addition, over compressed
/// encodings.
pub uninterp spec fn point_add_repr(p: Seq<u8>, q: Seq<u8>) -> Seq<u8>;

/// Named result of curve25519's `Scalar` multiplication (mod the group
/// order), over canonical encodings.
pub uninterp spec fn scalar_mul_repr(x: Seq<u8>, y: Seq<u8>) -> Seq<u8>;

/// Named result of curve25519's `Scalar` addition (mod the group order),
/// over canonical encodings.
pub uninterp spec fn scalar_add_repr(x: Seq<u8>, y: Seq<u8>) -> Seq<u8>;

/// Whether 32 bytes are a canonical Ristretto point encoding, that is,
/// whether curve25519's `CompressedRistretto::decompress` accepts them.
pub uninterp spec fn is_valid_point(bytes: Seq<u8>) -> bool;

/// An exclusively-owned secret scalar. `repr` is its canonical 32-byte
/// encoding, kept in step with `scalar` by every constructor of this module;
/// the trusted curve contracts rely on that correspondence.
pub struct SecretKey {
    scalar: curve25519_dalek::scalar::Scalar,
    repr: [u8; 32],
}

impl View for SecretKey {
    type V = Seq<u8>;

    closed spec fn view(&self) -> Seq<u8> {
        self.repr@
    }
}

/// A public curve point together with its canonical compressed encoding,
/// kept in step with `point` by every constructor of this module.
pub struct PublicKey {
    point: curve25519_dalek::ristretto::RistrettoPoint,
    compressed: [u8; 32],
}

impl View for PublicKey {
    type V = Seq<u8>;

    closed spec fn view(&self) -> Seq<u8> {
        self.compressed@
    }
}

/// Relies on rand's OsRng to fill a buffer from the operating system's secure
/// randomness source. Nothing is promised of the result.
#[verifier::external_body]
fn random_bytes_64() -> [u8; 64] {
    let mut buf = [0u8; 64];
    rand::RngCore::fill_bytes(&mut rand::rngs::OsRng, &mut buf);
    buf
}

/// Relies on curve25519's `Scalar::from_bytes_mod_order_wide`: the scalar is
/// a function of the 64 input bytes alone. The input length requirement keeps
/// the buffer conversion from panicking.
#[verifier::external_body]
pub(crate) fn scalar_from_wide_bytes(bytes: &[u8]) -> (sk: SecretKey)
    requires
        bytes@.len() == 64,
    ensures
        sk@ == scalar_wide_repr_of(bytes@),
{
    let mut arr = [0u8; 64];
    arr.copy_from_slice(bytes);
    let scalar = curve25519_dalek::scalar::Scalar::from_bytes_mod_order_wide(&arr);
    SecretKey { repr: scalar.to_bytes(), scalar }
}

/// Relies on curve25519's Ristretto scalar-point multiplication and canonical
/// compression: the compressed product is a function of the scalar's and the
/// point's encodings. The quantified clauses state two group laws for points
/// that are scalar multiples of the basepoint G: a·(b·G) = b·(a·G), and
/// a·(b·G) = (a·b)·G.
#[verifier::external_body]
pub(crate) fn mul_point(sk: &SecretKey, pk: &PublicKey) -> (r: PublicKey)
    ensures
        r@ == dh_shared(sk@, pk@),
        forall|b: Seq<u8>| pk@ == #[trigger] public_of(b) ==> r@ == dh_shared(b, public_of(sk@)),
        forall|b: Seq<u8>| pk@ == #[trigger] public_of(b) ==> r@ == public_of(
            scalar_mul_repr(sk@, b),
        ),
{
    let point = &pk.point * &sk.scalar;
    PublicKey { compressed: point.compress().to_bytes(), point }
}

/// Relies on curve25519's Ristretto point addition and canonical compression.
/// The quantified clause states the group law x·G + y·G = (x+y)·G.
#[verifier::external_body]
pub(crate) fn point_add(p: &PublicKey, q: &PublicKey) -> (r: PublicKey)
    ensures
        r@ == point_add_repr(p@, q@),
        forall|x: Seq<u8>, y: Seq<u8>|
            #![trigger public_of(x), public_of(y)]
            p@ == public_of(x) && q@ == public_of(y) ==> r@ == public_of(scalar_add_repr(x, y)),
{
    let point = &p.point + &q.point;
    PublicKey { compressed: point.compress().to_bytes(), point }
}

/// Relies on curve25519's `Scalar` multiplication mod the group order.
#[verifier::external_body]
pub(crate) fn scalar_mul(x: &SecretKey, y: &SecretKey) -> (r: SecretKey)
    ensures
        r@ == scalar_mul_repr(x@, y@),
{
    let scalar = &x.scalar * &y.scalar;
    SecretKey { repr: scalar.to_bytes(), scalar }
}

/// Relies on curve25519's `Scalar` addition mod the group order.
#[verifier::external_body]
pub(crate) fn scalar_add(x: &SecretKey, y: &SecretKey) -> (r: SecretKey)
    ensures
        r@ == scalar_add_repr(x@, y@),
{
    let scalar = &x.scalar + &y.scalar;
    SecretKey { repr: scalar.to_bytes(), scalar }
}

impl SecretKey {
    /// Relies on curve25519's `Scalar::from_bytes_mod_order`: the scalar is a
    /// function of the 32 input bytes alone.
    #[verifier::external_body]
    pub fn from_bytes(bytes: &[u8; 32]) -> (sk: SecretKey)
        ensures
            sk@ == scalar_repr_of(bytes@),
    {
        let scalar = curve25519_dalek::scalar::Scalar::from_bytes_mod_order(*bytes);
        SecretKey { repr: scalar.to_bytes(), scalar }
    }

    /// Generate a fresh uniformly random secret scalar. Nothing is promised
    /// of which scalar comes out.
    pub fn generate() -> SecretKey {
        let buf = random_bytes_64();
        scalar_from_wide_bytes(buf.as_slice())
    }

    /// Relies on curve25519's Ristretto basepoint multiplication and
    /// canonical compression: the compressed public point is a function of
    /// the secret scalar alone, and compressing a point yields the canonical
    /// encoding, which `decompress` accepts.
    #[verifier::external_body]
    pub fn to_public(&self) -> (pk: PublicKey)
        ensures
            pk@ == public_of(self@),
            is_valid_point(pk@),
    {
        let point = curve25519_dalek::ristretto::RistrettoPoint::mul_base(&self.scalar);
        PublicKey { compressed: point.compress().to_bytes(), point }
    }
}

impl PublicKey {
    /// The canonical compressed 32-byte encoding of the point.
    pub fn as_compressed(&self) -> (r: [u8; 32])
        ensures
            r@ == self@,
    {
        self.compressed
    }

    /// Relies on curve25519's `CompressedRistretto::decompress`: it returns a
    /// point exactly when the 32 bytes are a canonical Ristretto encoding,
    /// and the decoded point re-compresses to those same bytes.
    #[verifier::external_body]
    pub fn from_compressed(bytes: &[u8; 32]) -> (r: Option<PublicKey>)
        ensures
            r is Some <==> is_valid_point(bytes@),
            r matches Some(pk) ==> pk@ == bytes@,
    {
        match curve25519_dalek::ristretto::CompressedRistretto(*bytes).decompress() {
            Some(point) => Some(PublicKey { point, compressed: *bytes }),
            None => None,
        }
    }
}

/// A paired secret key and its corresponding public key.
pub struct Keypair {
    pub secret: SecretKey,
    pub public: PublicKey,
}

impl Keypair {
    /// The pairing invariant: the public half is the basepoint multiple of
    /// the secret half.
    pub open spec fn wf(&self) -> bool {
        self.public@ == public_of(self.secret@)
    }

    /// Pair a secret key with its derived public key.
    pub fn from_secret(secret: SecretKey) -> (kp: Keypair)
        ensures
            kp.wf(),
            kp.secret@ == secret@,
    {
        let public = secret.to_public();
        Keypair { secret, public }
    }

    /// Generate a fresh keypair from a random secret scalar.
    pub fn generate() -> (kp: Keypair)
        ensures
            kp.wf(),
    {
        Keypair::from_secret(SecretKey::generate())
    }
}

} // verus!
