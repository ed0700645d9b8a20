//! The implicit-certificate layer. A sender issues a self-certificate for a
//! fresh ephemeral keypair over a caller-supplied transcript and runs the
//! bare exchange as that ephemeral secret against the receiver's public key;
//! the receiver reconstructs the sender's ephemeral public key from the
//! certificate's reconstruction point and runs the bare exchange as its own
//! secret against the reconstructed key.
//!
//! With issuer secret `a` (public `A = a·G`), seed `k` and reconstruction
//! point `C = k·G`, the challenge `e` is extracted from the transcript after
//! it absorbed `A` and `C`, the ephemeral secret is `s = e·k + a`, and the
//! reconstructed ephemeral public key is `e·C + A = s·G`.

use vstd::prelude::*;

use crate::aead::kex_key;
use crate::keys::{
    dh_shared, is_valid_point, mul_point, point_add, point_add_repr, public_of, scalar_add,
    scalar_add_repr, scalar_from_wide_bytes, scalar_mul, scalar_mul_repr, scalar_wide_repr_of,
    Keypair, PublicKey, SecretKey,
};
use crate::transcript::{
    cert_challenge_label, cert_issuer_label, cert_point_label, challenge_of, op_append,
    KexTranscript,
};

verus! {

/// The public data of an implicit certificate: the compressed public-key
/// reconstruction point. The receiver recreates the sender's ephemeral public
/// key from it and the sender's long-term public key.
pub struct ECQVCertPublic(pub [u8; 32]);

impl View for ECQVCertPublic {
    type V = Seq<u8>;

    open spec fn view(&self) -> Seq<u8> {
        self.0@
    }
}

/// Opening a certificate failed: the reconstruction data does not decode to a
/// curve point. This is the only error of the whole derivation core.
#[derive(Clone, Copy, Debug, PartialEq, Eq)]
pub struct CertificateOpenFailure;

/// The transcript state after a certificate run absorbed the issuer's public
/// key and the reconstruction point on top of the caller's state `t0`.
pub open spec fn cert_trace(t0: Seq<Seq<u8>>, issuer: Seq<u8>, cert: Seq<u8>) -> Seq<Seq<u8>> {
    t0 + op_append(cert_issuer_label(), issuer) + op_append(cert_point_label(), cert)
}

/// The canonical encoding of the certificate challenge scalar `e`: 64
/// challenge bytes of the certificate transcript, reduced mod the group
/// order.
pub open spec fn cert_challenge_repr(t0: Seq<Seq<u8>>, issuer: Seq<u8>, cert: Seq<u8>) -> Seq<
    u8,
> {
    scalar_wide_repr_of(challenge_of(cert_trace(t0, issuer, cert), cert_challenge_label(), 64))
}

/// The canonical encoding of the certified ephemeral secret `e·k + a`, for
/// seed scalar `k` and issuer secret `a`.
pub open spec fn cert_session_secret(
    t0: Seq<Seq<u8>>,
    issuer: Seq<u8>,
    cert: Seq<u8>,
    k: Seq<u8>,
    a: Seq<u8>,
) -> Seq<u8> {
    scalar_add_repr(scalar_mul_repr(cert_challenge_repr(t0, issuer, cert), k), a)
}

/// The compressed encoding of the reconstructed ephemeral public key
/// `e·C + A`, as the receiver computes it from the certificate point `C` and
/// the issuer public key `A`.
pub open spec fn cert_epk(t0: Seq<Seq<u8>>, issuer: Seq<u8>, cert: Seq<u8>) -> Seq<u8> {
    point_add_repr(dh_shared(cert_challenge_repr(t0, issuer, cert), cert), issuer)
}

impl Keypair {
    /// Issue a self-certificate for a fresh ephemeral keypair: commit this
    /// keypair's public key and a fresh seed point `k·G` to the transcript,
    /// extract the challenge `e`, and return the reconstruction point beside
    /// the ephemeral secret `e·k + a`. The reconstruction point decodes, and
    /// some seed scalar accounts for both halves of the result.
    pub fn issue_self_ecqv_cert(&self, t: KexTranscript) -> (r: (ECQVCertPublic, SecretKey))
        ensures
            is_valid_point(r.0@),
            exists|k: Seq<u8>|
                r.0@ == #[trigger] public_of(k) && r.1@ == cert_session_secret(
                    t@,
                    self.public@,
                    r.0@,
                    k,
                    self.secret@,
                ),
    {
        let ghost t0 = t@;
        let mut t = t;
        let seed = SecretKey::generate();
        let gamma = seed.to_public();
        let cert_bytes = gamma.as_compressed();
        let issuer_bytes = self.public.as_compressed();
        t.append_issuer_key(issuer_bytes.as_slice());
        t.append_cert_point(cert_bytes.as_slice());
        proof {
            assert(t@ =~= cert_trace(t0, self.public@, gamma@));
        }
        let e_bytes = t.extract_cert_challenge();
        let e = scalar_from_wide_bytes(e_bytes.as_slice());
        let s = scalar_add(&scalar_mul(&e, &seed), &self.secret);
        (ECQVCertPublic(cert_bytes), s)
    }

    /// Sender side of a certificate-bound exchange: issue a self-certificate
    /// for a fresh ephemeral keypair over the given transcript, then derive
    /// the key of the bare exchange between the ephemeral secret and the
    /// receiver's public key, with an empty application context. The
    /// certificate decodes, so the receiver's opening is owed success; some
    /// seed scalar accounts for the certificate and the key together. The key
    /// length must fit the transcript's 32-bit length framing.
    pub fn sender_aead_with_ecqv_cert(
        &self,
        t: KexTranscript,
        public: &PublicKey,
        key_len: usize,
    ) -> (r: (ECQVCertPublic, Vec<u8>))
        requires
            key_len <= u32::MAX as usize,
        ensures
            is_valid_point(r.0@),
            r.1@.len() == key_len,
            exists|k: Seq<u8>|
                r.0@ == #[trigger] public_of(k) && r.1@ == kex_key(
                    cert_session_secret(t@, self.public@, r.0@, k, self.secret@),
                    Seq::empty(),
                    public@,
                    key_len as nat,
                ),
    {
        let ghost t0 = t@;
        let (cert, secret) = self.issue_self_ecqv_cert(t);
        let empty: Vec<u8> = Vec::new();
        let key = secret.aead_without_cert(empty.as_slice(), public, key_len);
        proof {
            let k = choose|k: Seq<u8>|
                cert@ == #[trigger] public_of(k) && secret@ == cert_session_secret(
                    t0,
                    self.public@,
                    cert@,
                    k,
                    self.secret@,
                );
            assert(empty@ =~= Seq::<u8>::empty());
            assert(cert@ == public_of(k) && key@ == kex_key(
                cert_session_secret(t0, self.public@, cert@, k, self.secret@),
                Seq::empty(),
                public@,
                key_len as nat,
            ));
        }
        (cert, key)
    }
}

impl PublicKey {
    /// Open an implicit certificate issued by the holder of the secret
    /// behind `self`: decode the reconstruction point `C`, replay the
    /// issuance commitments over the given transcript, extract the challenge
    /// `e`, and return the reconstructed ephemeral public key `e·C + A`.
    /// Opening succeeds exactly when the reconstruction data decodes, and
    /// when certificate and issuer key are basepoint multiples `k·G` and
    /// `a·G`, the reconstruction equals `(e·k + a)·G`.
    pub fn open_ecqv_cert(&self, t: KexTranscript, cert_public: &ECQVCertPublic) -> (r: Result<
        PublicKey,
        CertificateOpenFailure,
    >)
        ensures
            r is Ok <==> is_valid_point(cert_public@),
            r matches Ok(epk) ==> epk@ == cert_epk(t@, self@, cert_public@),
            r matches Ok(epk) ==> forall|k: Seq<u8>, a: Seq<u8>|
                #![trigger public_of(k), public_of(a)]
                cert_public@ == public_of(k) && self@ == public_of(a) ==> epk@ == public_of(
                    cert_session_secret(t@, self@, cert_public@, k, a),
                ),
    {
        let ghost t0 = t@;
        let gamma = match PublicKey::from_compressed(&cert_public.0) {
            Some(gamma) => gamma,
            None => {
                return Err(CertificateOpenFailure);
            },
        };
        let mut t = t;
        let issuer_bytes = self.as_compressed();
        let gamma_bytes = gamma.as_compressed();
        t.append_issuer_key(issuer_bytes.as_slice());
        t.append_cert_point(gamma_bytes.as_slice());
        proof {
            assert(t@ =~= cert_trace(t0, self@, cert_public@));
        }
        let e_bytes = t.extract_cert_challenge();
        let e = scalar_from_wide_bytes(e_bytes.as_slice());
        let shared = mul_point(&e, &gamma);
        let epk = point_add(&shared, self);
        proof {
            assert forall|k: Seq<u8>, a: Seq<u8>|
                cert_public@ == public_of(k) && self@ == public_of(a) implies epk@ == public_of(
                cert_session_secret(t0, self@, cert_public@, k, a),
            ) by {
                assert(shared@ == public_of(scalar_mul_repr(e@, k)));
                assert(epk@ == public_of(scalar_add_repr(scalar_mul_repr(e@, k), a)));
            }
        }
        Ok(epk)
    }
}

impl SecretKey {
    /// Receiver side of a certificate-bound exchange: open the sender's
    /// implicit certificate against the sender's long-term public key, then
    /// derive the key of the bare exchange between this secret and the
    /// reconstructed ephemeral public key, with an empty application context.
    /// Derivation succeeds exactly when the certificate data decodes to a
    /// point; a failed opening yields the error and no key. When certificate
    /// and sender key are basepoint multiples `k·G` and `a·G`, the derived
    /// key is the one the sender derived toward this secret's public key. The
    /// key length must fit the transcript's 32-bit length framing.
    pub fn reciever_aead_with_ecqv_cert(
        &self,
        t: KexTranscript,
        cert_public: &ECQVCertPublic,
        public: &PublicKey,
        key_len: usize,
    ) -> (r: Result<Vec<u8>, CertificateOpenFailure>)
        requires
            key_len <= u32::MAX as usize,
        ensures
            r is Ok <==> is_valid_point(cert_public@),
            r matches Ok(key) ==> key@.len() == key_len,
            r matches Ok(key) ==> key@ == kex_key(
                self@,
                Seq::empty(),
                cert_epk(t@, public@, cert_public@),
                key_len as nat,
            ),
            r matches Ok(key) ==> forall|k: Seq<u8>, a: Seq<u8>|
                #![trigger public_of(k), public_of(a)]
                cert_public@ == public_of(k) && public@ == public_of(a) ==> key@ == kex_key(
                    cert_session_secret(t@, public@, cert_public@, k, a),
                    Seq::empty(),
                    public_of(self@),
                    key_len as nat,
                ),
    {
        let ghost t0 = t@;
        let epk = match public.open_ecqv_cert(t, cert_public) {
            Ok(epk) => epk,
            Err(failure) => {
                return Err(failure);
            },
        };
        let empty: Vec<u8> = Vec::new();
        let key = self.aead_without_cert(empty.as_slice(), &epk, key_len);
        proof {
            assert(empty@ =~= Seq::<u8>::empty());
            assert forall|k: Seq<u8>, a: Seq<u8>|
                cert_public@ == public_of(k) && public@ == public_of(a) implies key@ == kex_key(
                cert_session_secret(t0, public@, cert_public@, k, a),
                Seq::empty(),
                public_of(self@),
                key_len as nat,
            ) by {
                assert(epk@ == public_of(cert_session_secret(t0, public@, cert_public@, k, a)));
            }
        }
        Ok(key)
    }
}

/// Certificate round trip: the key the sender derived toward the receiver's
/// public key and the key the receiver derived from the sender's certificate
/// are the same key. The third and fourth hypotheses are what the sender's
/// and the receiver's own contracts state of the two keys.
pub proof fn lemma_certificate_round_trip(
    t0: Seq<Seq<u8>>,
    sender_pub: Seq<u8>,
    cert: Seq<u8>,
    k: Seq<u8>,
    a: Seq<u8>,
    receiver_secret: Seq<u8>,
    n: nat,
    sender_key: Seq<u8>,
    receiver_key: Seq<u8>,
)
    requires
        cert == public_of(k),
        sender_pub == public_of(a),
        sender_key == kex_key(
            cert_session_secret(t0, sender_pub, cert, k, a),
            Seq::empty(),
            public_of(receiver_secret),
            n,
        ),
        forall|k2: Seq<u8>, a2: Seq<u8>|
            #![trigger public_of(k2), public_of(a2)]
            cert == public_of(k2) && sender_pub == public_of(a2) ==> receiver_key == kex_key(
                cert_session_secret(t0, sender_pub, cert, k2, a2),
                Seq::empty(),
                public_of(receiver_secret),
                n,
            ),
    ensures
        receiver_key == sender_key,
{
    assert(cert == public_of(k) && sender_pub == public_of(a));
}

} // verus!

