//! Key-exchange-to-symmetric-key derivation bound to a domain-separated
//! transcript, with an optional implicit-certificate layer that lets a
//! receiver reconstruct the sender's ephemeral public key.

pub mod transcript;
pub mod keys;
pub mod aead;
pub mod cert;
