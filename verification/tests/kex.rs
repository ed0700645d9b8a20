use kex_aead::keys::{PublicKey, SecretKey};
use kex_aead::transcript::KexTranscript;

fn secret(tag: u8) -> SecretKey {
    let mut bytes = [0u8; 32];
    bytes[0] = tag;
    bytes[7] = 0x5a;
    SecretKey::from_bytes(&bytes)
}

#[test]
fn derivation_is_deterministic() {
    let sk = secret(1);
    let peer = secret(2).to_public();
    let k1 = sk.aead_without_cert(b"application context", &peer, 32);
    let k2 = sk.aead_without_cert(b"application context", &peer, 32);
    assert_eq!(k1, k2);
}

#[test]
fn context_separation() {
    let sk = secret(3);
    let peer = secret(4).to_public();
    let k1 = sk.aead_without_cert(b"alpha", &peer, 32);
    let k2 = sk.aead_without_cert(b"beta", &peer, 32);
    assert_ne!(k1, k2);
}

#[test]
fn peer_separation() {
    let sk = secret(5);
    let peer1 = secret(6).to_public();
    let peer2 = secret(7).to_public();
    let k1 = sk.aead_without_cert(b"shared context", &peer1, 32);
    let k2 = sk.aead_without_cert(b"shared context", &peer2, 32);
    assert_ne!(k1, k2);
}

#[test]
fn exchange_symmetry() {
    let a = secret(8);
    let b = secret(9);
    let pa = a.to_public();
    let pb = b.to_public();
    let kab = a.aead_without_cert(b"symmetric", &pb, 32);
    let kba = b.aead_without_cert(b"symmetric", &pa, 32);
    assert_eq!(kab, kba);
}

#[test]
fn key_length_matches_cipher_sizes() {
    let sk = secret(10);
    let peer = secret(11).to_public();
    for n in [16usize, 24, 32, 48, 64] {
        let key = sk.aead_without_cert(b"sized", &peer, n);
        assert_eq!(key.len(), n);
    }
}

#[test]
fn empty_context_is_allowed() {
    let sk = secret(12);
    let peer = secret(13).to_public();
    let k1 = sk.aead_without_cert(b"", &peer, 32);
    let k2 = sk.aead_without_cert(b"", &peer, 32);
    assert_eq!(k1, k2);
    assert_ne!(k1, sk.aead_without_cert(b"x", &peer, 32));
}

#[test]
fn ephemeral_initiation_round_trip() {
    let receiver = secret(14);
    let receiver_public = receiver.to_public();
    let (epk, sender_key) = receiver_public.init_aead_without_cert(b"bootstrap", 32);
    let receiver_key = receiver.aead_without_cert(b"bootstrap", &epk, 32);
    assert_eq!(sender_key, receiver_key);
}

#[test]
fn ephemeral_initiation_is_randomized() {
    let receiver_public = secret(15).to_public();
    let (epk1, k1) = receiver_public.init_aead_without_cert(b"bootstrap", 32);
    let (epk2, k2) = receiver_public.init_aead_without_cert(b"bootstrap", 32);
    assert_ne!(epk1.as_compressed(), epk2.as_compressed());
    assert_ne!(k1, k2);
}

#[test]
fn commit_key_exchange_is_symmetric() {
    let a = secret(16);
    let b = secret(17);
    let pa = a.to_public();
    let pb = b.to_public();
    let mut t1 = KexTranscript::new(b"commitment");
    a.commit_key_exchange(&mut t1, b"kex", &pb);
    let mut t2 = KexTranscript::new(b"commitment");
    b.commit_key_exchange(&mut t2, b"kex", &pa);
    assert_eq!(t1.extract_bytes(48), t2.extract_bytes(48));
}

#[test]
fn transcript_extraction_is_deterministic_and_binding() {
    let mut t1 = KexTranscript::new(b"proto");
    t1.append_message(b"msg", b"payload");
    let mut t2 = KexTranscript::new(b"proto");
    t2.append_message(b"msg", b"payload");
    let mut t3 = KexTranscript::new(b"proto");
    t3.append_message(b"msg", b"other payload");
    let c1 = t1.extract_bytes(32);
    let c2 = t2.extract_bytes(32);
    let c3 = t3.extract_bytes(32);
    assert_eq!(c1, c2);
    assert_ne!(c1, c3);
}

#[test]
fn matches_raw_transcript_construction() {
    let mut secret_bytes = [0u8; 32];
    secret_bytes[0] = 7;
    let mut peer_bytes = [0u8; 32];
    peer_bytes[0] = 9;

    let peer_scalar = curve25519_dalek::scalar::Scalar::from_bytes_mod_order(peer_bytes);
    let peer_point = curve25519_dalek::ristretto::RistrettoPoint::mul_base(&peer_scalar);

    let sk = SecretKey::from_bytes(&secret_bytes);
    let peer = PublicKey::from_compressed(&peer_point.compress().to_bytes()).unwrap();
    let key = sk.aead_without_cert(b"interop context", &peer, 32);

    let secret_scalar = curve25519_dalek::scalar::Scalar::from_bytes_mod_order(secret_bytes);
    let shared = (peer_point * secret_scalar).compress();
    let mut t = merlin::Transcript::new(b"KEX");
    t.append_message(b"ctx", b"interop context");
    t.append_message(b"kex", shared.as_bytes());
    let mut expected = [0u8; 32];
    t.challenge_bytes(b"", &mut expected);

    assert_eq!(key, expected.to_vec());
}

#[test]
fn public_key_encoding_round_trip() {
    let pk = secret(18).to_public();
    let bytes = pk.as_compressed();
    let again = PublicKey::from_compressed(&bytes).unwrap();
    assert_eq!(again.as_compressed(), bytes);
}

#[test]
fn invalid_point_encoding_is_rejected() {
    let bytes = [0xffu8; 32];
    assert!(PublicKey::from_compressed(&bytes).is_none());
}
