//! Key-exchange commitment and symmetric-key derivation. A derivation opens
//! the fixed key-exchange transcript, absorbs the application context,
//! commits the compressed Diffie-Hellman shared point, and extracts exactly
//! as many challenge bytes as the target cipher's key requires.

use vstd::prelude::*;

use crate::keys::{dh_shared, is_valid_point, public_of, mul_point, PublicKey, SecretKey};
use crate::transcript::{
    challenge_of, context_label, kex_commit_label, kex_commit_label_bytes, kex_proto_label,
    op_append, op_new, KexTranscript,
};

verus! {

/// The whole transcript state of a key-exchange derivation: the fixed
/// protocol label, the application context, and the committed shared point.
pub open spec fn kex_trace(ctx: Seq<u8>, shared: Seq<u8>) -> Seq<Seq<u8>> {
    op_new(kex_proto_label()) + op_append(context_label(), ctx) + op_append(
        kex_commit_label(),
        shared,
    )
}

/// The derived key of a bare exchange: `n` challenge bytes extracted from the
/// key-exchange transcript over the context and the shared point
/// `secret * peer`. Every derivation is this function of its inputs, which is
/// what makes repeated derivations agree.
pub open spec fn kex_key(secret: Seq<u8>, ctx: Seq<u8>, peer: Seq<u8>, n: nat) -> Seq<u8> {
    challenge_of(kex_trace(ctx, dh_shared(secret, peer)), seq![], n)
}

impl SecretKey {
    /// Commit the result of a key exchange into a transcript: the compressed
    /// encoding of `self * public` is absorbed under the caller's label.
    pub fn commit_key_exchange(
        &self,
        t: &mut KexTranscript,
        ctx: &'static [u8],
        public: &PublicKey,
    )
        ensures
            final(t)@ == old(t)@ + op_append(ctx@, dh_shared(self@, public@)),
            forall|b: Seq<u8>|
                public@ == #[trigger] public_of(b) ==> dh_shared(self@, public@) == dh_shared(
                    b,
                    public_of(self@),
                ),
    {
        let p = mul_point(self, public);
        let bytes = p.as_compressed();
        t.append_message(ctx, bytes.as_slice());
    }

    /// Derive the symmetric key of a key exchange with the given public key:
    /// `key_len` bytes extracted from a fresh key-exchange transcript that
    /// absorbed the application context and the shared point. Context and key
    /// length must fit the transcript's 32-bit length framing. The key is a
    /// function of the secret, the context and the peer alone, and both ends
    /// of an exchange derive the same key: deriving with (a, b·G) equals
    /// deriving with (b, a·G).
    pub fn aead_without_cert(&self, ctx: &[u8], public: &PublicKey, key_len: usize) -> (key: Vec<
        u8,
    >)
        requires
            ctx@.len() <= u32::MAX as nat,
            key_len <= u32::MAX as usize,
        ensures
            key@ == kex_key(self@, ctx@, public@, key_len as nat),
            key@.len() == key_len,
            forall|b: Seq<u8>|
                public@ == #[trigger] public_of(b) ==> key@ == kex_key(
                    b,
                    ctx@,
                    public_of(self@),
                    key_len as nat,
                ),
    {
        let mut t = KexTranscript::new_for_key_exchange();
        t.append_context(ctx);
        self.commit_key_exchange(&mut t, kex_commit_label_bytes(), public);
        proof {
            assert(t@ =~= kex_trace(ctx@, dh_shared(self@, public@)));
        }
        let key = t.extract_bytes(key_len);
        proof {
            assert forall|b: Seq<u8>| public@ == #[trigger] public_of(b) implies key@ == kex_key(
                b,
                ctx@,
                public_of(self@),
                key_len as nat,
            ) by {
                assert(dh_shared(self@, public@) == dh_shared(b, public_of(self@)));
            }
        }
        key
    }
}

impl PublicKey {
    /// Start an exchange toward the holder of the matching secret key:
    /// generate a fresh ephemeral secret, derive the key of the exchange
    /// between that secret and `self`, and return the ephemeral public key
    /// beside the derived key. The ephemeral secret is discarded. Context
    /// and key length must fit the transcript's 32-bit length framing. The
    /// ephemeral public key decodes, some ephemeral scalar accounts for both
    /// outputs, and whoever holds the secret `b` behind `self` re-derives the
    /// same key from the returned ephemeral public key.
    pub fn init_aead_without_cert(&self, ctx: &[u8], key_len: usize) -> (r: (PublicKey, Vec<u8>))
        requires
            ctx@.len() <= u32::MAX as nat,
            key_len <= u32::MAX as usize,
        ensures
            is_valid_point(r.0@),
            r.1@.len() == key_len,
            exists|s: Seq<u8>|
                r.0@ == #[trigger] public_of(s) && r.1@ == kex_key(s, ctx@, self@, key_len as nat)
                    && (forall|b: Seq<u8>|
                    self@ == #[trigger] public_of(b) ==> r.1@ == kex_key(
                        b,
                        ctx@,
                        r.0@,
                        key_len as nat,
                    )),
    {
        let secret = SecretKey::generate();
        let key = secret.aead_without_cert(ctx, self, key_len);
        let epk = secret.to_public();
        proof {
            assert(epk@ == public_of(secret@) && key@ == kex_key(
                secret@,
                ctx@,
                self@,
                key_len as nat,
            ) && (forall|b: Seq<u8>|
                self@ == #[trigger] public_of(b) ==> key@ == kex_key(
                    b,
                    ctx@,
                    epk@,
                    key_len as nat,
                )));
        }
        (epk, key)
    }
}

/// Determinism of derivation: two derived keys of one (secret, context, peer,
/// length) quadruple are the same key, because each equals the one
/// mathematical key of that quadruple.
pub proof fn lemma_derivation_deterministic(
    secret: Seq<u8>,
    ctx: Seq<u8>,
    peer: Seq<u8>,
    n: nat,
    key1: Seq<u8>,
    key2: Seq<u8>,
)
    requires
        key1 == kex_key(secret, ctx, peer, n),
        key2 == kex_key(secret, ctx, peer, n),
    ensures
        key1 == key2,
{
}

/// Context separation: with secret and peer held fixed, two distinct context
/// strings give two distinct key-exchange transcript states, and each derived
/// key is the challenge extraction applied to its own state. That the
/// extraction then yields different bytes is the pseudorandomness of the
/// transcript primitive, shown by test rather than proof.
pub proof fn lemma_context_separation(
    secret: Seq<u8>,
    ctx1: Seq<u8>,
    ctx2: Seq<u8>,
    peer: Seq<u8>,
    n: nat,
)
    requires
        ctx1 != ctx2,
    ensures
        kex_trace(ctx1, dh_shared(secret, peer)) != kex_trace(ctx2, dh_shared(secret, peer)),
        kex_key(secret, ctx1, peer, n) == challenge_of(
            kex_trace(ctx1, dh_shared(secret, peer)),
            seq![],
            n,
        ),
        kex_key(secret, ctx2, peer, n) == challenge_of(
            kex_trace(ctx2, dh_shared(secret, peer)),
            seq![],
            n,
        ),
{
    assert(kex_trace(ctx1, dh_shared(secret, peer))[5] == ctx1);
    assert(kex_trace(ctx2, dh_shared(secret, peer))[5] == ctx2);
}

/// Peer separation: with secret and context held fixed, two peers whose
/// shared points differ give two distinct key-exchange transcript states, and
/// each derived key is the challenge extraction applied to its own state.
/// That distinct peer points give distinct shared points (for a nonzero
/// secret), and that the extraction then differs, are curve and transcript
/// facts shown by test rather than proof.
pub proof fn lemma_peer_separation(
    secret: Seq<u8>,
    ctx: Seq<u8>,
    peer1: Seq<u8>,
    peer2: Seq<u8>,
    n: nat,
)
    requires
        dh_shared(secret, peer1) != dh_shared(secret, peer2),
    ensures
        kex_trace(ctx, dh_shared(secret, peer1)) != kex_trace(ctx, dh_shared(secret, peer2)),
        kex_key(secret, ctx, peer1, n) == challenge_of(
            kex_trace(ctx, dh_shared(secret, peer1)),
            seq![],
            n,
        ),
        kex_key(secret, ctx, peer2, n) == challenge_of(
            kex_trace(ctx, dh_shared(secret, peer2)),
            seq![],
            n,
        ),
{
    assert(kex_trace(ctx, dh_shared(secret, peer1))[8] == dh_shared(secret, peer1));
    assert(kex_trace(ctx, dh_shared(secret, peer2))[8] == dh_shared(secret, peer2));
}

/// Symmetry of exchange: a key derived with (a, b·G) and a key derived with
/// (b, a·G) are the same key. The second hypothesis is what the derivation's
/// own contract states of the first key.
pub proof fn lemma_exchange_symmetry(
    a: Seq<u8>,
    b: Seq<u8>,
    ctx: Seq<u8>,
    n: nat,
    key_ab: Seq<u8>,
    key_ba: Seq<u8>,
)
    requires
        key_ab == kex_key(a, ctx, public_of(b), n),
        forall|x: Seq<u8>|
            public_of(b) == #[trigger] public_of(x) ==> key_ab == kex_key(x, ctx, public_of(a), n),
        key_ba == kex_key(b, ctx, public_of(a), n),
    ensures
        key_ab == key_ba,
{
    assert(public_of(b) == public_of(b));
}

} // verus!

