//! SHA-256 digests written as lowercase hexadecimal, and the test for
//! leading zeros on such text.

use sha2::Digest;
use vstd::prelude::*;
use vstd::string::*;

verus! {

/// The SHA-256 digest of a byte sequence.
pub uninterp spec fn sha256(data: Seq<u8>) -> Seq<u8>;

/// The sixteen hexadecimal digits, lowercase, in order of value.
pub open spec fn hex_digits() -> Seq<char> {
    seq!['0', '1', '2', '3', '4', '5', '6', '7', '8', '9', 'a', 'b', 'c', 'd', 'e', 'f']
}

/// Bytes written as lowercase hexadecimal: two digits per byte, the high
/// half first.
pub open spec fn hex_lower(bytes: Seq<u8>) -> Seq<char> {
    Seq::new(
        2 * bytes.len(),
        |i: int|
            if i % 2 == 0 {
                hex_digits()[bytes[i / 2] as int / 16]
            } else {
                hex_digits()[bytes[i / 2] as int % 16]
            },
    )
}

/// The text begins with at least `count` characters `'0'`.
pub open spec fn has_zero_prefix(text: Seq<char>, count: nat) -> bool {
    count <= text.len() && forall|i: int| 0 <= i < count ==> text[i] == '0'
}

/// `sha2::Sha256::digest`. Claimed of it: the 32 bytes it returns are the
/// SHA-256 digest of the input, the same for the same input everywhere.
#[verifier::external_body]
fn sha256_digest(data: &[u8]) -> (r: [u8; 32])
    ensures
        r@ == sha256(data@),
{
    sha2::Sha256::digest(data).into()
}

/// `hex::encode`. Claimed of it: each byte becomes two lowercase hexadecimal
/// digits, the high half first, in the order of the bytes.
#[verifier::external_body]
fn hex_encode(bytes: &[u8]) -> (r: String)
    ensures
        r@ == hex_lower(bytes@),
{
    hex::encode(bytes)
}

/// The SHA-256 digest of `data` in lowercase hexadecimal.
pub fn sha256_hex(data: &[u8]) -> (r: String)
    ensures
        r@ == hex_lower(sha256(data@)),
        r@.len() == 64,
{
    let digest = sha256_digest(data);
    hex_encode(digest.as_slice())
}

/// Whether `text` begins with at least `count` characters `'0'`.
pub fn starts_with_zeros(text: &str, count: u32) -> (r: bool)
    ensures
        r == has_zero_prefix(text@, count as nat),
{
    let len = text.unicode_len();
    if count as usize > len {
        return false;
    }
    let mut i: usize = 0;
    while i < count as usize
        invariant
            i <= count as usize <= len,
            len == text@.len(),
            forall|j: int| 0 <= j < i ==> text@[j] == '0',
        decreases count as usize - i,
    {
        if text.get_char(i) != '0' {
            return false;
        }
        i += 1;
    }
    true
}

} // verus!
