//! Signature service: ML-DSA-65 keypair generation, signing and
//! verification over fixed-size byte encodings.
//!
//! The lattice arithmetic lives in the `ml-dsa` crate; this module owns the
//! byte-level contracts: exact length validation before any cryptographic
//! work, a verified well-formedness check of the expanded signing-key
//! encoding (whose decoder would otherwise panic on bytes no key generation
//! can produce), and the round-trip relation between signing and
//! verification. Signing uses the deterministic variant of the scheme with
//! an empty context string, so a signature is a function of the message and
//! key bytes alone.

use vstd::prelude::*;
use crate::errors::{check_length, CryptoError, Field};
use crate::mlkem::KeyPair;

verus! {

/// Length in bytes of an ML-DSA-65 verification (public) key.
pub const SIG_PUBLIC_KEY_LEN: usize = 1952;

/// Length in bytes of an ML-DSA-65 expanded signing (secret) key.
pub const SIG_SECRET_KEY_LEN: usize = 4032;

/// Length in bytes of an ML-DSA-65 signature.
pub const SIGNATURE_LEN: usize = 3309;

/// Holds when the two byte strings encode an ML-DSA-65 keypair as key
/// generation produces it.
pub uninterp spec fn sig_keypair(pk: Seq<u8>, sk: Seq<u8>) -> bool;

/// The signature that the deterministic variant of ML-DSA-65 signing, with
/// an empty context string, derives from a message and a well-formed
/// expanded signing key. A function of these bytes alone.
pub uninterp spec fn mldsa_sign_det(msg: Seq<u8>, sk: Seq<u8>) -> Seq<u8>;

/// The verdict of ML-DSA-65 verification, with an empty context string, on
/// a message, signature and public key. Verification is deterministic and
/// total: every 3309-byte signature and 1952-byte key gets a verdict, and a
/// signature whose encoding does not decode is simply rejected.
pub uninterp spec fn mldsa_verifies(msg: Seq<u8>, sig: Seq<u8>, pk: Seq<u8>) -> bool;

/// Holds when every public key matching `sk` accepts `sig` on `msg`: the
/// correctness relation that signing establishes.
pub open spec fn sign_sound(msg: Seq<u8>, sig: Seq<u8>, sk: Seq<u8>) -> bool {
    forall|pk: Seq<u8>| sig_keypair(pk, sk) ==> #[trigger] mldsa_verifies(msg, sig, pk)
}

/// Holds when the expanded signing-key encoding is within coefficient
/// range: in the two packed short vectors (bytes 128 through 1535, after
/// the 128 bytes of seeds and key hash), every 4-bit half of every byte is
/// at most 8, the largest value the key encoder emits. Key decoding panics
/// on anything larger, so signing checks this first.
pub open spec fn mldsa_sk_coeffs_ok(sk: Seq<u8>) -> bool {
    forall|i: int| 128 <= i < 1536 ==> (#[trigger] sk[i]) % 16 <= 8 && sk[i] / 16 <= 8
}

fn mldsa_sk_well_formed(sk: &Vec<u8>) -> (r: bool)
    requires
        sk@.len() == SIG_SECRET_KEY_LEN,
    ensures
        r == mldsa_sk_coeffs_ok(sk@),
{
    let mut i: usize = 128;
    while i < 1536
        invariant
            128 <= i <= 1536,
            sk@.len() == SIG_SECRET_KEY_LEN,
            forall|j: int| 128 <= j < i ==> (#[trigger] sk@[j]) % 16 <= 8 && sk@[j] / 16 <= 8,
        decreases 1536 - i,
    {
        let b = sk[i];
        if b % 16 > 8 || b / 16 > 8 {
            return false;
        }
        i = i + 1;
    }
    true
}

/// Relies on ml_dsa::SigningKey::generate (OS randomness) and the encoders
/// VerifyingKey::encode and ExpandedSigningKey::to_expanded: key generation
/// returns a matching keypair, 1952 and 4032 bytes long, whose signing-key
/// encoding is within coefficient range.
#[verifier::external_body]
#[allow(deprecated)]
fn sig_generate_call() -> (r: (Vec<u8>, Vec<u8>))
    ensures
        r.0@.len() == 1952,
        r.1@.len() == 4032,
        sig_keypair(r.0@, r.1@),
        mldsa_sk_coeffs_ok(r.1@),
{
    let sk = <ml_dsa::SigningKey<ml_dsa::MlDsa65> as ml_dsa::Generate>::generate();
    let pk_bytes = sk.expanded_key().verifying_key().encode().to_vec();
    let sk_bytes = sk.expanded_key().to_expanded().to_vec();
    (pk_bytes, sk_bytes)
}

/// Relies on ml_dsa::ExpandedSigningKey::from_expanded and
/// ExpandedSigningKey::sign_deterministic with an empty context: the
/// 3309-byte signature is a function of the message and key bytes alone,
/// and every public key matching the signing key accepts it (FIPS 204
/// correctness of the deterministic variant).
#[verifier::external_body]
#[allow(deprecated)]
fn sig_sign_call(message: &Vec<u8>, secret_key: &Vec<u8>) -> (r: Vec<u8>)
    requires
        secret_key@.len() == 4032,
        mldsa_sk_coeffs_ok(secret_key@),
    ensures
        r@ == mldsa_sign_det(message@, secret_key@),
        r@.len() == 3309,
        sign_sound(message@, r@, secret_key@),
{
    let enc = ml_dsa::ExpandedSigningKeyBytes::<ml_dsa::MlDsa65>::try_from(
        secret_key.as_slice(),
    ).unwrap();
    let sk = ml_dsa::ExpandedSigningKey::<ml_dsa::MlDsa65>::from_expanded(&enc);
    let sig = sk.sign_deterministic(message.as_slice(), &[]).expect("empty context");
    sig.encode().to_vec()
}

/// Relies on ml_dsa::VerifyingKey::decode, ml_dsa::Signature::decode and
/// VerifyingKey::verify_with_context with an empty context: the verdict is
/// a function of the three byte strings alone, and a signature whose
/// encoding does not decode is rejected as false rather than an error.
#[verifier::external_body]
fn sig_verify_call(message: &Vec<u8>, signature: &Vec<u8>, public_key: &Vec<u8>) -> (r: bool)
    requires
        signature@.len() == 3309,
        public_key@.len() == 1952,
    ensures
        r == mldsa_verifies(message@, signature@, public_key@),
{
    let pk_arr = ml_dsa::EncodedVerifyingKey::<ml_dsa::MlDsa65>::try_from(
        public_key.as_slice(),
    ).unwrap();
    let vk = ml_dsa::VerifyingKey::<ml_dsa::MlDsa65>::decode(&pk_arr);
    let sig_arr = ml_dsa::EncodedSignature::<ml_dsa::MlDsa65>::try_from(
        signature.as_slice(),
    ).unwrap();
    match ml_dsa::Signature::<ml_dsa::MlDsa65>::decode(&sig_arr) {
        Some(sig) => vk.verify_with_context(message.as_slice(), &[], &sig),
        None => false,
    }
}

/// Generates a fresh ML-DSA-65 keypair from the operating system's secure
/// random source: a 1952-byte public key and a 4032-byte secret key that
/// match each other.
pub fn mldsa65_generate_keypair() -> (r: KeyPair)
    ensures
        r.public_key@.len() == SIG_PUBLIC_KEY_LEN,
        r.secret_key@.len() == SIG_SECRET_KEY_LEN,
        sig_keypair(r.public_key@, r.secret_key@),
        mldsa_sk_coeffs_ok(r.secret_key@),
{
    let (public_key, secret_key) = sig_generate_call();
    KeyPair { public_key, secret_key }
}

/// Signs a message, of any length including empty, with the given secret
/// key.
///
/// A key of any length other than 4032 bytes is rejected before any
/// cryptographic work; a 4032-byte key outside coefficient range is
/// rejected as malformed; otherwise the result is the 3309-byte
/// deterministic signature, which every matching public key accepts.
pub fn mldsa65_sign(message: Vec<u8>, secret_key: Vec<u8>) -> (r: Result<Vec<u8>, CryptoError>)
    ensures
        secret_key@.len() != SIG_SECRET_KEY_LEN ==> r == Err::<Vec<u8>, CryptoError>(
            CryptoError::InvalidInputLength {
                field: Field::SecretKey,
                expected: SIG_SECRET_KEY_LEN,
                actual: secret_key@.len() as usize,
            },
        ),
        secret_key@.len() == SIG_SECRET_KEY_LEN && !mldsa_sk_coeffs_ok(secret_key@) ==> r
            == Err::<Vec<u8>, CryptoError>(CryptoError::MalformedKey { field: Field::SecretKey }),
        r matches Ok(sig) ==> secret_key@.len() == SIG_SECRET_KEY_LEN && mldsa_sk_coeffs_ok(
            secret_key@,
        ) && sig@ == mldsa_sign_det(message@, secret_key@) && sig@.len() == SIGNATURE_LEN
            && sign_sound(message@, sig@, secret_key@),
        r is Ok <==> secret_key@.len() == SIG_SECRET_KEY_LEN && mldsa_sk_coeffs_ok(secret_key@),
{
    check_length(Field::SecretKey, &secret_key, SIG_SECRET_KEY_LEN)?;
    if !mldsa_sk_well_formed(&secret_key) {
        return Err(CryptoError::MalformedKey { field: Field::SecretKey });
    }
    Ok(sig_sign_call(&message, &secret_key))
}

/// Verifies a signature over a message with the given public key.
///
/// The signature must be 3309 bytes and the key 1952 bytes, else the call
/// fails with the length error; any content of the three buffers then gets
/// a boolean verdict, never an error, so corrupted material simply verifies
/// to false.
pub fn mldsa65_verify(message: Vec<u8>, signature: Vec<u8>, public_key: Vec<u8>) -> (r: Result<
    bool,
    CryptoError,
>)
    ensures
        signature@.len() != SIGNATURE_LEN ==> r == Err::<bool, CryptoError>(
            CryptoError::InvalidInputLength {
                field: Field::Signature,
                expected: SIGNATURE_LEN,
                actual: signature@.len() as usize,
            },
        ),
        signature@.len() == SIGNATURE_LEN && public_key@.len() != SIG_PUBLIC_KEY_LEN ==> r
            == Err::<bool, CryptoError>(
            CryptoError::InvalidInputLength {
                field: Field::PublicKey,
                expected: SIG_PUBLIC_KEY_LEN,
                actual: public_key@.len() as usize,
            },
        ),
        r is Ok <==> signature@.len() == SIGNATURE_LEN && public_key@.len() == SIG_PUBLIC_KEY_LEN,
        r matches Ok(b) ==> b == mldsa_verifies(message@, signature@, public_key@),
{
    check_length(Field::Signature, &signature, SIGNATURE_LEN)?;
    check_length(Field::PublicKey, &public_key, SIG_PUBLIC_KEY_LEN)?;
    Ok(sig_verify_call(&message, &signature, &public_key))
}

/// Signature round-trip law: the deterministic signature over a message
/// verifies under any public key that matches the signing key, for every
/// message including the empty one.
pub proof fn lemma_signature_round_trip(msg: Seq<u8>, sig: Seq<u8>, pk: Seq<u8>, sk: Seq<u8>)
    requires
        sig_keypair(pk, sk),
        sign_sound(msg, sig, sk),
    ensures
        mldsa_verifies(msg, sig, pk),
{
}

} // verus!
