//! A two-party 1-out-of-n oblivious transfer protocol.
//!
//! A sender holds n secret messages; a receiver privately selects one index
//! and obtains exactly that message, while the sender learns nothing about
//! the choice and the receiver learns nothing about the other messages.
//! Key agreement runs over the Ristretto group, key derivation is SHA-256,
//! and the messages travel under AES-256-GCM authenticated encryption.
pub mod aead;
pub mod algebra;
pub mod errors;
pub mod group;
pub mod kdf;
pub mod laws;
pub mod nonce;
pub mod protocol;
pub mod receiver;
pub mod sender;
