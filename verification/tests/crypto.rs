use qudag_crypto::{
    blake3_hash, blake3_hash_hex, check_length, mldsa65_generate_keypair, mldsa65_sign,
    mldsa65_verify, mlkem768_decapsulate, mlkem768_encapsulate, mlkem768_generate_keypair,
    quantum_fingerprint, CryptoError, Field,
};

#[test]
fn test_mlkem_keygen() {
    let keypair = mlkem768_generate_keypair();

    assert_eq!(keypair.public_key.len(), 1184);
    assert_eq!(keypair.secret_key.len(), 2400);
}

#[test]
fn test_mlkem_encapsulate_decapsulate() {
    // Generate keypair
    let keypair = mlkem768_generate_keypair();

    // Encapsulate using public key
    let encapsulated = mlkem768_encapsulate(keypair.public_key.clone()).unwrap();

    assert_eq!(encapsulated.ciphertext.len(), 1088);
    assert_eq!(encapsulated.shared_secret.len(), 32);

    // Decapsulate using secret key
    let decapsulated_secret =
        mlkem768_decapsulate(encapsulated.ciphertext, keypair.secret_key).unwrap();

    assert_eq!(decapsulated_secret.len(), 32);

    // Verify shared secrets match
    assert_eq!(
        encapsulated.shared_secret, decapsulated_secret,
        "Shared secrets must match after encapsulation/decapsulation"
    );
}

#[test]
fn test_mlkem_invalid_public_key_length() {
    let invalid_key = vec![0u8; 100]; // Wrong length

    let result = mlkem768_encapsulate(invalid_key);
    assert!(result.is_err());
}

#[test]
fn test_mlkem_invalid_secret_key_length() {
    let invalid_ciphertext = vec![0u8; 1088];
    let invalid_key = vec![0u8; 100]; // Wrong length

    let result = mlkem768_decapsulate(invalid_ciphertext, invalid_key);
    assert!(result.is_err());
}

#[test]
fn test_mldsa_keygen() {
    let keypair = mldsa65_generate_keypair();

    assert_eq!(keypair.public_key.len(), 1952); // ML-DSA-65 public key
    assert_eq!(keypair.secret_key.len(), 4032); // ML-DSA-65 secret key
}

#[test]
fn test_mldsa_sign_verify() {
    // Generate keypair
    let keypair = mldsa65_generate_keypair();

    // Sign a message
    let message = b"Hello, quantum-resistant world!";
    let signature = mldsa65_sign(message.to_vec(), keypair.secret_key.clone()).unwrap();

    assert_eq!(signature.len(), 3309); // ML-DSA-65 signature size

    // Verify the signature
    let is_valid = mldsa65_verify(
        message.to_vec(),
        signature.clone(),
        keypair.public_key.clone(),
    )
    .unwrap();

    assert!(is_valid, "Valid signature must verify successfully");
}

#[test]
fn test_blake3() {
    let data = vec![1, 2, 3, 4, 5];
    let hash = blake3_hash(data);
    assert_eq!(hash.len(), 32);
}

#[test]
fn test_blake3_hex() {
    let data = b"test data";
    let hash_hex = blake3_hash_hex(data.to_vec());

    // BLAKE3 hex output should be 64 characters (32 bytes * 2)
    assert_eq!(hash_hex.len(), 64);

    // Verify it's valid hexadecimal
    assert!(hash_hex.chars().all(|c| c.is_ascii_hexdigit()));
}

#[test]
fn test_quantum_fingerprint() {
    let data = b"fingerprint test";
    let fingerprint = quantum_fingerprint(data.to_vec());

    // Should start with "qf:" prefix
    assert!(fingerprint.starts_with("qf:"));

    // Should be followed by 64 hex characters
    assert_eq!(fingerprint.len(), 67); // "qf:" (3) + 64 hex chars
}

#[test]
fn test_blake3_consistency() {
    let data = b"consistency test";

    // Same input should produce same output (deterministic)
    let hash1 = blake3_hash(data.to_vec());
    let hash2 = blake3_hash(data.to_vec());

    assert_eq!(hash1, hash2);
}

#[test]
fn test_check_length_exact_error() {
    let buf = vec![0u8; 10];
    assert_eq!(check_length(Field::Ciphertext, &buf, 10), Ok(()));
    assert_eq!(
        check_length(Field::Ciphertext, &buf, 16),
        Err(CryptoError::InvalidInputLength {
            field: Field::Ciphertext,
            expected: 16,
            actual: 10
        })
    );
}

#[test]
fn test_mlkem_encapsulate_length_error_values() {
    let result = mlkem768_encapsulate(vec![0u8; 100]);
    assert_eq!(
        result.err().unwrap(),
        CryptoError::InvalidInputLength {
            field: Field::PublicKey,
            expected: 1184,
            actual: 100
        }
    );
}

#[test]
fn test_mlkem_decapsulate_length_error_values() {
    // Wrong ciphertext length is reported first
    let r1 = mlkem768_decapsulate(vec![0u8; 7], vec![0u8; 2400]);
    assert_eq!(
        r1.err().unwrap(),
        CryptoError::InvalidInputLength {
            field: Field::Ciphertext,
            expected: 1088,
            actual: 7
        }
    );

    let r2 = mlkem768_decapsulate(vec![0u8; 1088], vec![0u8; 100]);
    assert_eq!(
        r2.err().unwrap(),
        CryptoError::InvalidInputLength {
            field: Field::SecretKey,
            expected: 2400,
            actual: 100
        }
    );
}

#[test]
fn test_mlkem_malformed_public_key() {
    // All-ones bytes decode to coefficients above the field modulus, which
    // the canonical-encoding check rejects.
    let result = mlkem768_encapsulate(vec![0xFF; 1184]);
    assert_eq!(
        result.err().unwrap(),
        CryptoError::MalformedKey {
            field: Field::PublicKey
        }
    );
}

#[test]
fn test_mlkem_malformed_secret_key() {
    // A zeroed 2400-byte key fails the embedded key-hash check.
    let result = mlkem768_decapsulate(vec![0u8; 1088], vec![0u8; 2400]);
    assert_eq!(
        result.err().unwrap(),
        CryptoError::MalformedKey {
            field: Field::SecretKey
        }
    );
}

#[test]
fn test_mlkem_decapsulation_deterministic() {
    let keypair = mlkem768_generate_keypair();
    let encapsulated = mlkem768_encapsulate(keypair.public_key).unwrap();

    let ss1 = mlkem768_decapsulate(encapsulated.ciphertext.clone(), keypair.secret_key.clone())
        .unwrap();
    let ss2 =
        mlkem768_decapsulate(encapsulated.ciphertext, keypair.secret_key).unwrap();
    assert_eq!(ss1, ss2);
}

#[test]
fn test_mlkem_implicit_rejection() {
    // A mismatched ciphertext of the right length yields a deterministic
    // secret, never an error, and it differs from the real shared secret.
    let keypair = mlkem768_generate_keypair();
    let encapsulated = mlkem768_encapsulate(keypair.public_key).unwrap();

    let mut wrong_ct = encapsulated.ciphertext.clone();
    wrong_ct[0] ^= 1;

    let ss1 = mlkem768_decapsulate(wrong_ct.clone(), keypair.secret_key.clone()).unwrap();
    let ss2 = mlkem768_decapsulate(wrong_ct, keypair.secret_key).unwrap();
    assert_eq!(ss1.len(), 32);
    assert_eq!(ss1, ss2, "implicit rejection must be deterministic");
    assert_ne!(ss1, encapsulated.shared_secret);
}

#[test]
fn test_mlkem_keys_differ_across_calls() {
    let kp1 = mlkem768_generate_keypair();
    let kp2 = mlkem768_generate_keypair();
    assert_ne!(kp1.public_key, kp2.public_key);
    assert_ne!(kp1.secret_key, kp2.secret_key);
}

#[test]
fn test_mldsa_sign_empty_message() {
    let keypair = mldsa65_generate_keypair();
    let signature = mldsa65_sign(Vec::new(), keypair.secret_key).unwrap();
    assert_eq!(signature.len(), 3309);

    let is_valid = mldsa65_verify(Vec::new(), signature, keypair.public_key).unwrap();
    assert!(is_valid);
}

#[test]
fn test_mldsa_forgery_rejection() {
    let keypair = mldsa65_generate_keypair();
    let message = b"forgery target".to_vec();
    let signature = mldsa65_sign(message.clone(), keypair.secret_key).unwrap();

    // Flipping one bit of the message must fail verification.
    let mut tampered_message = message.clone();
    tampered_message[0] ^= 1;
    assert!(!mldsa65_verify(tampered_message, signature.clone(), keypair.public_key.clone())
        .unwrap());

    // Flipping one bit of the signature must fail verification.
    let mut tampered_signature = signature.clone();
    tampered_signature[100] ^= 1;
    assert!(!mldsa65_verify(message.clone(), tampered_signature, keypair.public_key.clone())
        .unwrap());

    // An unrelated public key must fail verification.
    let other = mldsa65_generate_keypair();
    assert!(!mldsa65_verify(message, signature, other.public_key).unwrap());
}

#[test]
fn test_mldsa_sign_length_error_values() {
    let result = mldsa65_sign(b"msg".to_vec(), vec![0u8; 64]);
    assert_eq!(
        result.err().unwrap(),
        CryptoError::InvalidInputLength {
            field: Field::SecretKey,
            expected: 4032,
            actual: 64
        }
    );
}

#[test]
fn test_mldsa_malformed_secret_key() {
    // All-ones bytes put the packed short-vector coefficients out of range.
    let result = mldsa65_sign(b"msg".to_vec(), vec![0xFF; 4032]);
    assert_eq!(
        result.err().unwrap(),
        CryptoError::MalformedKey {
            field: Field::SecretKey
        }
    );
}

#[test]
fn test_mldsa_verify_length_error_values() {
    // Wrong signature length is reported first.
    let r1 = mldsa65_verify(b"m".to_vec(), vec![0u8; 10], vec![0u8; 1952]);
    assert_eq!(
        r1.err().unwrap(),
        CryptoError::InvalidInputLength {
            field: Field::Signature,
            expected: 3309,
            actual: 10
        }
    );

    let r2 = mldsa65_verify(b"m".to_vec(), vec![0u8; 3309], vec![0u8; 10]);
    assert_eq!(
        r2.err().unwrap(),
        CryptoError::InvalidInputLength {
            field: Field::PublicKey,
            expected: 1952,
            actual: 10
        }
    );
}

#[test]
fn test_mldsa_verify_garbage_is_false_not_error() {
    // Correctly sized but meaningless material gets a boolean verdict.
    let verdict = mldsa65_verify(b"m".to_vec(), vec![0u8; 3309], vec![0u8; 1952]).unwrap();
    assert!(!verdict);
}

#[test]
fn test_mldsa_deterministic_signature() {
    let keypair = mldsa65_generate_keypair();
    let message = b"same message".to_vec();
    let sig1 = mldsa65_sign(message.clone(), keypair.secret_key.clone()).unwrap();
    let sig2 = mldsa65_sign(message, keypair.secret_key).unwrap();
    assert_eq!(sig1, sig2);
}

#[test]
fn test_blake3_empty_input() {
    // The hash of the empty input is a fixed 32-byte constant.
    let h1 = blake3_hash(Vec::new());
    let h2 = blake3_hash(Vec::new());
    assert_eq!(h1.len(), 32);
    assert_eq!(h1, h2);
    assert_eq!(
        blake3_hash_hex(Vec::new()),
        "af1349b9f5f9a1a6a0404dea36dcc9499bcb25c9adc112b7cc9a93cae41f3262"
    );
}

#[test]
fn test_blake3_hex_matches_hash() {
    let data = b"hex cross-check".to_vec();
    let hash = blake3_hash(data.clone());
    let hex = blake3_hash_hex(data);
    let rendered: String = hash
        .iter()
        .map(|b| format!("{:02x}", b))
        .collect::<Vec<_>>()
        .join("");
    assert_eq!(hex, rendered);
}

#[test]
fn test_blake3_hash_differs_from_input() {
    let data = vec![7u8; 32];
    let hash = blake3_hash(data.clone());
    assert_ne!(hash, data);
}

#[test]
fn test_fingerprint_matches_hash_hex() {
    let data = b"fingerprint cross-check";
    let fingerprint = quantum_fingerprint(data.to_vec());
    let hex = blake3_hash_hex(data.to_vec());
    assert_eq!(fingerprint, format!("qf:{}", hex));
    assert!(hex
        .chars()
        .all(|c| c.is_ascii_digit() || ('a'..='f').contains(&c)));
}

#[test]
fn test_end_to_end_scenario() {
    // KEM: generate, encapsulate, decapsulate, compare the shared secrets.
    let keypair = mlkem768_generate_keypair();
    let encapsulated = mlkem768_encapsulate(keypair.public_key).unwrap();
    let recovered = mlkem768_decapsulate(encapsulated.ciphertext, keypair.secret_key).unwrap();
    assert_eq!(encapsulated.shared_secret, recovered);

    // Hashing: a fixed byte sequence hashes to 32 stable bytes.
    let digest1 = blake3_hash(vec![1, 2, 3, 4, 5]);
    let digest2 = blake3_hash(vec![1, 2, 3, 4, 5]);
    assert_eq!(digest1.len(), 32);
    assert_eq!(digest1, digest2);
}
