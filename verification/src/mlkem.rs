//! KEM service: ML-KEM-768 keypair generation, encapsulation and
//! decapsulation over fixed-size byte encodings.
//!
//! The lattice arithmetic lives in the `ml-kem` crate; this module owns the
//! byte-level contracts: exact length validation before any cryptographic
//! work, the correctness relation between encapsulation and decapsulation,
//! and the determinism of decapsulation.

use vstd::prelude::*;
use crate::errors::{check_length, CryptoError, Field};

verus! {

/// Length in bytes of an ML-KEM-768 encapsulation (public) key.
pub const KEM_PUBLIC_KEY_LEN: usize = 1184;

/// Length in bytes of an ML-KEM-768 expanded decapsulation (secret) key.
pub const KEM_SECRET_KEY_LEN: usize = 2400;

/// Length in bytes of an ML-KEM-768 ciphertext.
pub const KEM_CIPHERTEXT_LEN: usize = 1088;

/// Length in bytes of a shared secret.
pub const SHARED_SECRET_LEN: usize = 32;

/// A public/secret key pair, each key in its fixed-size byte encoding.
pub struct KeyPair {
    /// Public key bytes.
    pub public_key: Vec<u8>,
    /// Secret key bytes.
    pub secret_key: Vec<u8>,
}

/// A ciphertext together with the shared secret it encapsulates.
pub struct EncapsulatedSecret {
    /// Ciphertext to be sent to the holder of the secret key.
    pub ciphertext: Vec<u8>,
    /// The 32-byte shared secret.
    pub shared_secret: Vec<u8>,
}

/// Holds when the two byte strings encode an ML-KEM-768 keypair as key
/// generation produces it.
pub uninterp spec fn kem_keypair(pk: Seq<u8>, sk: Seq<u8>) -> bool;

/// Holds when the byte string is a canonical ML-KEM-768 encapsulation key:
/// the modulus check of key decoding accepts it.
pub uninterp spec fn kem_pk_valid(pk: Seq<u8>) -> bool;

/// Holds when the byte string is a well-formed expanded ML-KEM-768
/// decapsulation key: its embedded encapsulation key decodes and matches the
/// stored key hash.
pub uninterp spec fn kem_sk_valid(sk: Seq<u8>) -> bool;

/// The shared secret that ML-KEM-768 decapsulation derives from a ciphertext
/// and a well-formed secret key. Decapsulation is deterministic: the result
/// depends on these bytes alone. For a ciphertext that does not match the
/// key this is the implicit-rejection secret, still a function of the same
/// bytes.
pub uninterp spec fn kem_decap(ct: Seq<u8>, sk: Seq<u8>) -> Seq<u8>;

/// Holds when every secret key matching `pk` decapsulates `ct` to `ss`: the
/// correctness relation that encapsulation establishes.
pub open spec fn encap_sound(pk: Seq<u8>, ct: Seq<u8>, ss: Seq<u8>) -> bool {
    forall|sk: Seq<u8>| kem_keypair(pk, sk) ==> #[trigger] kem_decap(ct, sk) == ss
}

/// Relies on ml_kem::DecapsulationKey::generate (OS randomness) and the
/// encoders KeyExport::to_bytes and ExpandedKeyEncoding::to_expanded_bytes:
/// key generation returns a matching keypair whose encodings are canonical,
/// 1184 and 2400 bytes long.
#[verifier::external_body]
fn kem_generate_call() -> (r: (Vec<u8>, Vec<u8>))
    ensures
        r.0@.len() == 1184,
        r.1@.len() == 2400,
        kem_keypair(r.0@, r.1@),
        kem_pk_valid(r.0@),
        kem_sk_valid(r.1@),
{
    let dk = <ml_kem::ml_kem_768::DecapsulationKey as kem::Generate>::generate();
    let pk = kem::KeyExport::to_bytes(dk.encapsulation_key()).to_vec();
    let sk = ml_kem::ExpandedKeyEncoding::to_expanded_bytes(&dk).to_vec();
    (pk, sk)
}

/// Relies on ml_kem::EncapsulationKey::new and kem::Encapsulate::encapsulate
/// (OS randomness): key decoding succeeds exactly on canonical keys, and a
/// ciphertext produced against a key decapsulates, under every matching
/// secret key, to the returned 32-byte shared secret (FIPS 203 correctness).
#[verifier::external_body]
fn kem_encapsulate_call(public_key: &Vec<u8>) -> (r: Option<(Vec<u8>, Vec<u8>)>)
    requires
        public_key@.len() == 1184,
    ensures
        r is Some <==> kem_pk_valid(public_key@),
        r matches Some(p) ==> p.0@.len() == 1088 && p.1@.len() == 32 && encap_sound(
            public_key@,
            p.0@,
            p.1@,
        ),
{
    let key = ml_kem::array::Array::try_from(public_key.as_slice()).unwrap();
    match ml_kem::ml_kem_768::EncapsulationKey::new(&key) {
        Ok(ek) => {
            let (ct, ss) = kem::Encapsulate::encapsulate(&ek);
            Some((ct.to_vec(), ss.to_vec()))
        },
        Err(_) => None,
    }
}

/// Relies on ml_kem::DecapsulationKey::from_expanded and
/// kem::Decapsulate::decapsulate: key decoding succeeds exactly on
/// well-formed expanded keys, and decapsulation then returns 32 bytes that
/// are a deterministic function of the ciphertext and key bytes, with
/// implicit rejection instead of failure for mismatched ciphertexts.
#[verifier::external_body]
#[allow(deprecated)]
fn kem_decapsulate_call(ciphertext: &Vec<u8>, secret_key: &Vec<u8>) -> (r: Option<Vec<u8>>)
    requires
        ciphertext@.len() == 1088,
        secret_key@.len() == 2400,
    ensures
        r is Some <==> kem_sk_valid(secret_key@),
        r matches Some(ss) ==> ss@ == kem_decap(ciphertext@, secret_key@) && ss@.len() == 32,
{
    let enc = ml_kem::array::Array::try_from(secret_key.as_slice()).unwrap();
    match ml_kem::ml_kem_768::DecapsulationKey::from_expanded(&enc) {
        Ok(dk) => {
            let ct = ml_kem::array::Array::try_from(ciphertext.as_slice()).unwrap();
            Some(kem::Decapsulate::decapsulate(&dk, &ct).to_vec())
        },
        Err(_) => None,
    }
}

/// Generates a fresh ML-KEM-768 keypair from the operating system's secure
/// random source: a 1184-byte public key and a 2400-byte secret key that
/// match each other.
pub fn mlkem768_generate_keypair() -> (r: KeyPair)
    ensures
        r.public_key@.len() == KEM_PUBLIC_KEY_LEN,
        r.secret_key@.len() == KEM_SECRET_KEY_LEN,
        kem_keypair(r.public_key@, r.secret_key@),
        kem_pk_valid(r.public_key@),
        kem_sk_valid(r.secret_key@),
{
    let (public_key, secret_key) = kem_generate_call();
    KeyPair { public_key, secret_key }
}

/// Encapsulates a fresh shared secret against the given public key.
///
/// A key of any length other than 1184 bytes is rejected before any
/// cryptographic work; a 1184-byte key that fails the canonical-encoding
/// check of key decoding is rejected as malformed; otherwise the result is a
/// 1088-byte ciphertext and a 32-byte shared secret that every matching
/// secret key will recover.
pub fn mlkem768_encapsulate(public_key: Vec<u8>) -> (r: Result<EncapsulatedSecret, CryptoError>)
    ensures
        public_key@.len() != KEM_PUBLIC_KEY_LEN ==> r == Err::<EncapsulatedSecret, CryptoError>(
            CryptoError::InvalidInputLength {
                field: Field::PublicKey,
                expected: KEM_PUBLIC_KEY_LEN,
                actual: public_key@.len() as usize,
            },
        ),
        public_key@.len() == KEM_PUBLIC_KEY_LEN && !kem_pk_valid(public_key@) ==> r == Err::<
            EncapsulatedSecret,
            CryptoError,
        >(CryptoError::MalformedKey { field: Field::PublicKey }),
        r matches Ok(e) ==> public_key@.len() == KEM_PUBLIC_KEY_LEN && kem_pk_valid(public_key@)
            && e.ciphertext@.len() == KEM_CIPHERTEXT_LEN && e.shared_secret@.len()
            == SHARED_SECRET_LEN && encap_sound(public_key@, e.ciphertext@, e.shared_secret@),
        r is Ok <==> public_key@.len() == KEM_PUBLIC_KEY_LEN && kem_pk_valid(public_key@),
{
    check_length(Field::PublicKey, &public_key, KEM_PUBLIC_KEY_LEN)?;
    match kem_encapsulate_call(&public_key) {
        Some(p) => Ok(EncapsulatedSecret { ciphertext: p.0, shared_secret: p.1 }),
        None => Err(CryptoError::MalformedKey { field: Field::PublicKey }),
    }
}

/// Recovers the shared secret from a ciphertext with the matching secret
/// key.
///
/// Lengths are validated first: the ciphertext must be 1088 bytes and the
/// secret key 2400 bytes. A well-formed key then always yields a 32-byte
/// secret, deterministically; a ciphertext that does not match the key
/// yields the implicit-rejection secret rather than an error. A 2400-byte
/// string that is not a well-formed key (its embedded public key fails
/// decoding or the stored key hash does not match) is rejected as malformed.
pub fn mlkem768_decapsulate(ciphertext: Vec<u8>, secret_key: Vec<u8>) -> (r: Result<
    Vec<u8>,
    CryptoError,
>)
    ensures
        ciphertext@.len() != KEM_CIPHERTEXT_LEN ==> r == Err::<Vec<u8>, CryptoError>(
            CryptoError::InvalidInputLength {
                field: Field::Ciphertext,
                expected: KEM_CIPHERTEXT_LEN,
                actual: ciphertext@.len() as usize,
            },
        ),
        ciphertext@.len() == KEM_CIPHERTEXT_LEN && secret_key@.len() != KEM_SECRET_KEY_LEN ==> r
            == Err::<Vec<u8>, CryptoError>(
            CryptoError::InvalidInputLength {
                field: Field::SecretKey,
                expected: KEM_SECRET_KEY_LEN,
                actual: secret_key@.len() as usize,
            },
        ),
        ciphertext@.len() == KEM_CIPHERTEXT_LEN && secret_key@.len() == KEM_SECRET_KEY_LEN
            && !kem_sk_valid(secret_key@) ==> r == Err::<Vec<u8>, CryptoError>(
            CryptoError::MalformedKey { field: Field::SecretKey },
        ),
        r matches Ok(ss) ==> ciphertext@.len() == KEM_CIPHERTEXT_LEN && secret_key@.len()
            == KEM_SECRET_KEY_LEN && kem_sk_valid(secret_key@) && ss@ == kem_decap(
            ciphertext@,
            secret_key@,
        ) && ss@.len() == SHARED_SECRET_LEN,
        r is Ok <==> ciphertext@.len() == KEM_CIPHERTEXT_LEN && secret_key@.len()
            == KEM_SECRET_KEY_LEN && kem_sk_valid(secret_key@),
{
    check_length(Field::Ciphertext, &ciphertext, KEM_CIPHERTEXT_LEN)?;
    check_length(Field::SecretKey, &secret_key, KEM_SECRET_KEY_LEN)?;
    match kem_decapsulate_call(&ciphertext, &secret_key) {
        Some(ss) => Ok(ss),
        None => Err(CryptoError::MalformedKey { field: Field::SecretKey }),
    }
}

/// KEM round-trip law: a ciphertext and shared secret produced by
/// encapsulation against a public key decapsulate, under any secret key
/// matching that public key, to that same shared secret.
pub proof fn lemma_kem_round_trip(pk: Seq<u8>, sk: Seq<u8>, ct: Seq<u8>, ss: Seq<u8>)
    requires
        kem_keypair(pk, sk),
        encap_sound(pk, ct, ss),
    ensures
        kem_decap(ct, sk) == ss,
{
}

} // verus!
