//! The transcript capability: an append-only commitment state from which
//! challenge bytes are extracted. The executable state is merlin's STROBE
//! transcript; its mathematical model is the trace of operations applied to
//! it, as a sequence of byte strings. Every operation appends a fixed-arity
//! group of three entries (a tag, a label, a payload), so distinct operation
//! sequences have distinct traces, and the extracted challenge bytes are a
//! function of the trace alone.

use vstd::prelude::*;

verus! {

#[verifier::external_type_specification]
#[verifier::external_body]
pub struct ExMerlinTranscript(merlin::Transcript);

/// Named result of merlin's `Transcript::challenge_bytes`: the extracted
/// bytes are a function of the absorbed trace, the extraction label and the
/// requested length alone.
pub uninterp spec fn challenge_of(trace: Seq<Seq<u8>>, label: Seq<u8>, n: nat) -> Seq<u8>;

/// Trace contribution of starting a transcript under a protocol label.
pub open spec fn op_new(label: Seq<u8>) -> Seq<Seq<u8>> {
    seq![seq![0u8], label, seq![]]
}

/// Trace contribution of absorbing one labelled message.
pub open spec fn op_append(label: Seq<u8>, message: Seq<u8>) -> Seq<Seq<u8>> {
    seq![seq![1u8], label, message]
}

/// Little-endian bytes of a length, so that an extraction of `n` bytes leaves
/// an unambiguous mark in the trace.
pub open spec fn len_bytes(n: nat) -> Seq<u8>
    decreases n,
{
    if n == 0 {
        seq![]
    } else {
        seq![(n % 256) as u8] + len_bytes(n / 256)
    }
}

/// Trace contribution of extracting `n` challenge bytes under a label.
pub open spec fn op_extract(label: Seq<u8>, n: nat) -> Seq<Seq<u8>> {
    seq![seq![2u8], label, len_bytes(n)]
}

/// "KEX": the fixed top-level label of a key-exchange transcript.
pub open spec fn kex_proto_label() -> Seq<u8> {
    seq![75u8, 69u8, 88u8]
}

/// "ctx": the fixed label under which the application context is absorbed.
pub open spec fn context_label() -> Seq<u8> {
    seq![99u8, 116u8, 120u8]
}

/// "kex": the fixed label under which the shared point is committed.
pub open spec fn kex_commit_label() -> Seq<u8> {
    seq![107u8, 101u8, 120u8]
}

/// "ecqv-issuer": the label under which a certificate transcript absorbs the
/// issuer's public key.
pub open spec fn cert_issuer_label() -> Seq<u8> {
    seq![101u8, 99u8, 113u8, 118u8, 45u8, 105u8, 115u8, 115u8, 117u8, 101u8, 114u8]
}

/// "ecqv-cert": the label under which a certificate transcript absorbs the
/// public-key-reconstruction point.
pub open spec fn cert_point_label() -> Seq<u8> {
    seq![101u8, 99u8, 113u8, 118u8, 45u8, 99u8, 101u8, 114u8, 116u8]
}

/// "ecqv-e": the label of the certificate challenge-scalar extraction.
pub open spec fn cert_challenge_label() -> Seq<u8> {
    seq![101u8, 99u8, 113u8, 118u8, 45u8, 101u8]
}

/// An evolving, append-only commitment state. `trace` records exactly the
/// operations that were applied to `inner`; every constructor and method of
/// this module keeps the two in step, which is what the trusted contracts
/// below rely on.
pub struct KexTranscript {
    inner: merlin::Transcript,
    trace: Ghost<Seq<Seq<u8>>>,
}

impl View for KexTranscript {
    type V = Seq<Seq<u8>>;

    closed spec fn view(&self) -> Seq<Seq<u8>> {
        self.trace@
    }
}

/// Relies on merlin::Transcript::new: a fresh transcript whose state is a
/// function of the caller's label alone. merlin absorbs the label as a
/// message and frames message lengths as 32-bit values, aborting on longer
/// ones, so the bound keeps the call from panicking.
#[verifier::external_body]
fn merlin_new(label: &'static [u8]) -> merlin::Transcript
    requires
        label@.len() <= u32::MAX as nat,
{
    merlin::Transcript::new(label)
}

/// Relies on merlin::Transcript::new under the fixed "KEX" label.
#[verifier::external_body]
fn merlin_new_kex() -> merlin::Transcript {
    merlin::Transcript::new(b"KEX")
}

/// Relies on merlin::Transcript::append_message: absorbs one labelled
/// message into the transcript state. merlin frames message lengths as
/// 32-bit values and aborts on longer ones, so the bound keeps the call from
/// panicking.
#[verifier::external_body]
fn merlin_append(t: &mut merlin::Transcript, label: &'static [u8], message: &[u8])
    requires
        message@.len() <= u32::MAX as nat,
{
    t.append_message(label, message);
}

impl KexTranscript {
    /// Open a transcript under a caller-chosen protocol label. The label
    /// must fit the transcript's 32-bit length framing.
    pub fn new(label: &'static [u8]) -> (t: KexTranscript)
        requires
            label@.len() <= u32::MAX as nat,
        ensures
            t@ == op_new(label@),
    {
        KexTranscript { inner: merlin_new(label), trace: Ghost(op_new(label@)) }
    }

    /// Open the fixed key-exchange transcript.
    pub fn new_for_key_exchange() -> (t: KexTranscript)
        ensures
            t@ == op_new(kex_proto_label()),
    {
        KexTranscript { inner: merlin_new_kex(), trace: Ghost(op_new(kex_proto_label())) }
    }

    /// Absorb one labelled message. The message must fit the transcript's
    /// 32-bit length framing.
    pub fn append_message(&mut self, label: &'static [u8], message: &[u8])
        requires
            message@.len() <= u32::MAX as nat,
        ensures
            final(self)@ == old(self)@ + op_append(label@, message@),
    {
        merlin_append(&mut self.inner, label, message);
        self.trace = Ghost(self.trace@ + op_append(label@, message@));
    }

    /// Relies on merlin::Transcript::append_message under the fixed
    /// "ecqv-issuer" label. The length bound keeps merlin's 32-bit message
    /// framing from aborting.
    #[verifier::external_body]
    pub fn append_issuer_key(&mut self, message: &[u8])
        requires
            message@.len() <= u32::MAX as nat,
        ensures
            final(self)@ == old(self)@ + op_append(cert_issuer_label(), message@),
    {
        self.inner.append_message(b"ecqv-issuer", message);
    }

    /// Relies on merlin::Transcript::append_message under the fixed
    /// "ecqv-cert" label. The length bound keeps merlin's 32-bit message
    /// framing from aborting.
    #[verifier::external_body]
    pub fn append_cert_point(&mut self, message: &[u8])
        requires
            message@.len() <= u32::MAX as nat,
        ensures
            final(self)@ == old(self)@ + op_append(cert_point_label(), message@),
    {
        self.inner.append_message(b"ecqv-cert", message);
    }

    /// Relies on merlin::Transcript::append_message under the fixed "ctx"
    /// label. The length bound keeps merlin's 32-bit message framing from
    /// aborting.
    #[verifier::external_body]
    pub fn append_context(&mut self, message: &[u8])
        requires
            message@.len() <= u32::MAX as nat,
        ensures
            final(self)@ == old(self)@ + op_append(context_label(), message@),
    {
        self.inner.append_message(b"ctx", message);
    }

    /// Relies on merlin::Transcript::challenge_bytes under the empty label:
    /// fills a buffer of the requested length with bytes that are a function
    /// of the absorbed state, and advances the state. merlin frames the
    /// extraction length as a 32-bit value and aborts on a longer request, so
    /// the bound keeps the call from panicking.
    #[verifier::external_body]
    pub fn extract_bytes(&mut self, n: usize) -> (r: Vec<u8>)
        requires
            n <= u32::MAX as usize,
        ensures
            r@ == challenge_of(old(self)@, seq![], n as nat),
            r@.len() == n,
            final(self)@ == old(self)@ + op_extract(seq![], n as nat),
    {
        let mut buf = vec![0u8; n];
        self.inner.challenge_bytes(b"", &mut buf);
        buf
    }

    /// Relies on merlin::Transcript::challenge_bytes under the fixed "ecqv-e"
    /// label, with a 64-byte output.
    #[verifier::external_body]
    pub fn extract_cert_challenge(&mut self) -> (r: Vec<u8>)
        ensures
            r@ == challenge_of(old(self)@, cert_challenge_label(), 64),
            r@.len() == 64,
            final(self)@ == old(self)@ + op_extract(cert_challenge_label(), 64),
    {
        let mut buf = vec![0u8; 64];
        self.inner.challenge_bytes(b"ecqv-e", &mut buf);
        buf
    }
}

/// The fixed "kex" commitment label, as a byte string that can be handed to
/// `commit_key_exchange`; the contract states its bytes exactly.
#[verifier::external_body]
pub fn kex_commit_label_bytes() -> (r: &'static [u8])
    ensures
        r@ == kex_commit_label(),
{
    b"kex"
}

} // verus!
