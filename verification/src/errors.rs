//! Input validation shared by the KEM and signature services.
//!
//! Every operation that takes a fixed-size buffer checks its length here
//! before any cryptographic work begins; a mismatch is reported as a typed
//! error naming the field and both lengths.

use vstd::prelude::*;

verus! {

/// The buffer that failed validation.
#[derive(Clone, Copy, PartialEq, Eq, Structural, Debug)]
pub enum Field {
    PublicKey,
    SecretKey,
    Ciphertext,
    Signature,
}

/// The error surface of the library.
#[derive(Clone, Copy, PartialEq, Eq, Structural, Debug)]
pub enum CryptoError {
    /// A fixed-size buffer did not have its required length.
    InvalidInputLength { field: Field, expected: usize, actual: usize },
    /// A key of the right length whose encoding no key generation can
    /// produce; the underlying scheme's key decoding rejects it.
    MalformedKey { field: Field },
}

/// Checks that `buf` has exactly the length `expected`, reporting `field`
/// in the error otherwise.
pub fn check_length(field: Field, buf: &Vec<u8>, expected: usize) -> (r: Result<(), CryptoError>)
    ensures
        r == (if buf@.len() == expected {
            Ok::<(), CryptoError>(())
        } else {
            Err::<(), CryptoError>(CryptoError::InvalidInputLength {
                field,
                expected,
                actual: buf@.len() as usize,
            })
        }),
{
    if buf.len() == expected {
        Ok(())
    } else {
        Err(CryptoError::InvalidInputLength { field, expected, actual: buf.len() })
    }
}

} // verus!
