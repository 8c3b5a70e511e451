//! Decryption of photo containers protected by a hybrid post-quantum scheme:
//! Kyber-1024 establishes a shared secret and AES-256-GCM protects the bytes.
mod bytes;
pub mod container;
pub mod kem;
pub mod aead;
pub mod pipeline;
pub mod batch;
pub mod laws;
pub mod keyfile;
