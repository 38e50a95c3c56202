//! Hashing service: BLAKE3 digests, their lowercase hexadecimal rendering,
//! and the `"qf:"`-prefixed fingerprint label.
//!
//! The digest itself comes from the `blake3` crate; the hexadecimal rendering
//! and the fingerprint framing are implemented and verified here.

use vstd::prelude::*;
use vstd::string::StringExecFns;

verus! {

/// The BLAKE3 digest of a byte sequence: 32 bytes that depend on the input
/// bytes alone, in every process and on every machine.
pub uninterp spec fn blake3_of(data: Seq<u8>) -> Seq<u8>;

/// Relies on blake3::hash: a 32-byte digest that is a pure function of the
/// input bytes.
#[verifier::external_body]
fn blake3_digest(data: &Vec<u8>) -> (r: Vec<u8>)
    ensures
        r@ == blake3_of(data@),
        r@.len() == 32,
{
    blake3::hash(data.as_slice()).as_bytes().to_vec()
}

/// Relies on String::push: appends exactly the given character.
#[verifier::external_body]
fn push_char(s: &mut String, c: char)
    ensures
        final(s)@ == old(s)@.push(c),
{
    s.push(c);
}

/// The lowercase hexadecimal digit for a value below sixteen.
pub open spec fn hex_digit(n: int) -> char {
    if n == 0 {
        '0'
    } else if n == 1 {
        '1'
    } else if n == 2 {
        '2'
    } else if n == 3 {
        '3'
    } else if n == 4 {
        '4'
    } else if n == 5 {
        '5'
    } else if n == 6 {
        '6'
    } else if n == 7 {
        '7'
    } else if n == 8 {
        '8'
    } else if n == 9 {
        '9'
    } else if n == 10 {
        'a'
    } else if n == 11 {
        'b'
    } else if n == 12 {
        'c'
    } else if n == 13 {
        'd'
    } else if n == 14 {
        'e'
    } else {
        'f'
    }
}

/// The lowercase hexadecimal rendering of a byte sequence: two digits per
/// byte, high nibble first.
pub open spec fn hex_of(bytes: Seq<u8>) -> Seq<char> {
    Seq::new(
        bytes.len() * 2,
        |i: int|
            if i % 2 == 0 {
                hex_digit(bytes[i / 2] as int / 16)
            } else {
                hex_digit(bytes[i / 2] as int % 16)
            },
    )
}

fn hex_digit_char(n: u8) -> (c: char)
    requires
        n < 16,
    ensures
        c == hex_digit(n as int),
{
    if n == 0 {
        '0'
    } else if n == 1 {
        '1'
    } else if n == 2 {
        '2'
    } else if n == 3 {
        '3'
    } else if n == 4 {
        '4'
    } else if n == 5 {
        '5'
    } else if n == 6 {
        '6'
    } else if n == 7 {
        '7'
    } else if n == 8 {
        '8'
    } else if n == 9 {
        '9'
    } else if n == 10 {
        'a'
    } else if n == 11 {
        'b'
    } else if n == 12 {
        'c'
    } else if n == 13 {
        'd'
    } else if n == 14 {
        'e'
    } else {
        'f'
    }
}

/// Renders a byte sequence as lowercase hexadecimal, two digits per byte.
pub fn bytes_to_hex(bytes: &Vec<u8>) -> (r: String)
    ensures
        r@ == hex_of(bytes@),
{
    let mut s = String::new();
    let mut i: usize = 0;
    while i < bytes.len()
        invariant
            i <= bytes@.len(),
            s@ == hex_of(bytes@.take(i as int)),
        decreases bytes@.len() - i,
    {
        let b = bytes[i];
        push_char(&mut s, hex_digit_char(b / 16));
        push_char(&mut s, hex_digit_char(b % 16));
        proof {
            let prev = bytes@.take(i as int);
            let cur = bytes@.take(i + 1 as int);
            assert forall|j: int| 0 <= j < cur.len() * 2 implies hex_of(cur)[j] == s@[j] by {
                if j < 2 * i {
                    assert(cur[j / 2] == prev[j / 2]);
                    assert(hex_of(prev)[j] == s@[j]);
                } else {
                    assert(cur[j / 2] == bytes@[i as int]);
                }
            }
            assert(s@ =~= hex_of(cur));
        }
        i = i + 1;
    }
    proof {
        assert(bytes@.take(i as int) =~= bytes@);
    }
    s
}

/// The BLAKE3 hash of the given bytes: a fixed 32-byte digest, identical for
/// identical input on every call.
pub fn blake3_hash(data: Vec<u8>) -> (r: Vec<u8>)
    ensures
        r@ == blake3_of(data@),
        r@.len() == 32,
{
    blake3_digest(&data)
}

/// The BLAKE3 hash of the given bytes as a 64-character lowercase
/// hexadecimal string.
pub fn blake3_hash_hex(data: Vec<u8>) -> (r: String)
    ensures
        r@ == hex_of(blake3_of(data@)),
        r@.len() == 64,
{
    let h = blake3_digest(&data);
    bytes_to_hex(&h)
}

/// The fingerprint of the given bytes: `"qf:"` followed by the 64-character
/// lowercase hexadecimal BLAKE3 digest, 67 characters in all.
pub fn quantum_fingerprint(data: Vec<u8>) -> (r: String)
    ensures
        r@.len() == 67,
        r@[0] == 'q' && r@[1] == 'f' && r@[2] == ':',
        r@.subrange(3, 67) == hex_of(blake3_of(data@)),
{
    let h = blake3_digest(&data);
    let hex = bytes_to_hex(&h);
    let mut s = String::from_str("qf:");
    s.append(hex.as_str());
    proof {
        reveal_strlit("qf:");
        assert(s@.subrange(3, 67) =~= hex@);
    }
    s
}

/// A lowercase hexadecimal digit: one of the sixteen characters the
/// rendering can produce.
pub open spec fn is_hex_digit_char(c: char) -> bool {
    exists|n: int| 0 <= n < 16 && c == hex_digit(n)
}

/// Hexadecimal format law: the rendering of a byte sequence has twice its
/// length, and every character of it is a lowercase hexadecimal digit.
pub proof fn lemma_hex_of_digits(bytes: Seq<u8>)
    ensures
        hex_of(bytes).len() == 2 * bytes.len(),
        forall|i: int|
            0 <= i < hex_of(bytes).len() ==> is_hex_digit_char(#[trigger] hex_of(bytes)[i]),
{
    assert forall|i: int| 0 <= i < hex_of(bytes).len() implies is_hex_digit_char(
        hex_of(bytes)[i],
    ) by {
        let b = bytes[i / 2] as int;
        if i % 2 == 0 {
            assert(0 <= b / 16 < 16);
            assert(hex_of(bytes)[i] == hex_digit(b / 16));
        } else {
            assert(0 <= b % 16 < 16);
            assert(hex_of(bytes)[i] == hex_digit(b % 16));
        }
    }
}

} // verus!
