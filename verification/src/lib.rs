//! Post-quantum cryptographic primitives: an ML-KEM-768 key-encapsulation
//! service, an ML-DSA-65 signature service, and BLAKE3-based hashing and
//! fingerprinting, each with strict input-length validation.

pub mod errors;
pub mod hashing;
pub mod mldsa;
pub mod mlkem;

pub use errors::{check_length, CryptoError, Field};
pub use hashing::{blake3_hash, blake3_hash_hex, quantum_fingerprint};
pub use mldsa::{mldsa65_generate_keypair, mldsa65_sign, mldsa65_verify};
pub use mlkem::{
    mlkem768_decapsulate, mlkem768_encapsulate, mlkem768_generate_keypair, EncapsulatedSecret,
    KeyPair,
};
