use kex_aead::cert::ECQVCertPublic;
use kex_aead::keys::{Keypair, SecretKey};
use kex_aead::transcript::KexTranscript;

fn keypair(tag: u8) -> Keypair {
    let mut bytes = [0u8; 32];
    bytes[0] = tag;
    bytes[13] = 0xc3;
    Keypair::from_secret(SecretKey::from_bytes(&bytes))
}

#[test]
fn certificate_round_trip() {
    let sender = keypair(21);
    let receiver = keypair(22);
    let (cert, sender_key) = sender.sender_aead_with_ecqv_cert(
        KexTranscript::new(b"session"),
        &receiver.public,
        32,
    );
    let receiver_key = receiver
        .secret
        .reciever_aead_with_ecqv_cert(KexTranscript::new(b"session"), &cert, &sender.public, 32)
        .unwrap();
    assert_eq!(sender_key, receiver_key);
}

#[test]
fn certificate_round_trip_other_key_lengths() {
    let sender = keypair(23);
    let receiver = keypair(24);
    for n in [16usize, 48] {
        let (cert, sender_key) = sender.sender_aead_with_ecqv_cert(
            KexTranscript::new(b"session"),
            &receiver.public,
            n,
        );
        let receiver_key = receiver
            .secret
            .reciever_aead_with_ecqv_cert(KexTranscript::new(b"session"), &cert, &sender.public, n)
            .unwrap();
        assert_eq!(sender_key.len(), n);
        assert_eq!(sender_key, receiver_key);
    }
}

#[test]
fn certificate_tamper_rejection() {
    let sender = keypair(25);
    let receiver = keypair(26);
    let (cert, sender_key) = sender.sender_aead_with_ecqv_cert(
        KexTranscript::new(b"session"),
        &receiver.public,
        32,
    );
    for i in 0..32 {
        let mut tampered = ECQVCertPublic(cert.0);
        tampered.0[i] ^= 0x40;
        match receiver.secret.reciever_aead_with_ecqv_cert(
            KexTranscript::new(b"session"),
            &tampered,
            &sender.public,
            32,
        ) {
            Err(_) => {}
            Ok(key) => assert_ne!(key, sender_key),
        }
    }
}

#[test]
fn transcript_mismatch_changes_key() {
    let sender = keypair(27);
    let receiver = keypair(28);
    let (cert, sender_key) = sender.sender_aead_with_ecqv_cert(
        KexTranscript::new(b"session one"),
        &receiver.public,
        32,
    );
    match receiver.secret.reciever_aead_with_ecqv_cert(
        KexTranscript::new(b"session two"),
        &cert,
        &sender.public,
        32,
    ) {
        Err(_) => {}
        Ok(key) => assert_ne!(key, sender_key),
    }
}

#[test]
fn undecodable_certificate_fails() {
    let sender = keypair(29);
    let receiver = keypair(30);
    let cert = ECQVCertPublic([0xffu8; 32]);
    let result = receiver.secret.reciever_aead_with_ecqv_cert(
        KexTranscript::new(b"session"),
        &cert,
        &sender.public,
        32,
    );
    assert!(result.is_err());
}

#[test]
fn issuance_is_randomized() {
    let sender = keypair(31);
    let receiver = keypair(32);
    let (cert1, key1) = sender.sender_aead_with_ecqv_cert(
        KexTranscript::new(b"session"),
        &receiver.public,
        32,
    );
    let (cert2, key2) = sender.sender_aead_with_ecqv_cert(
        KexTranscript::new(b"session"),
        &receiver.public,
        32,
    );
    assert_ne!(cert1.0, cert2.0);
    assert_ne!(key1, key2);
}

#[test]
fn open_reconstructs_the_ephemeral_public_key() {
    let sender = keypair(33);
    let receiver = keypair(34);
    let (cert, sender_key) = sender.sender_aead_with_ecqv_cert(
        KexTranscript::new(b"session"),
        &receiver.public,
        32,
    );
    let epk = sender
        .public
        .open_ecqv_cert(KexTranscript::new(b"session"), &cert)
        .unwrap();
    let receiver_key = receiver.secret.aead_without_cert(b"", &epk, 32);
    assert_eq!(sender_key, receiver_key);
}
