//! Content checksums: the SHA-256 digest of a text, written in lowercase
//! hexadecimal.

use sha2::{Digest, Sha256};
use vstd::prelude::*;
use vstd::utf8::encode_utf8;

verus! {

/// The number of characters in a checksum.
pub const CHECKSUM_LEN: usize = 64;

/// The SHA-256 hash of `message`, as computed by the `sha2` crate's
/// `Sha256`. Nothing is proved of it here; the hash is taken on trust.
pub uninterp spec fn sha256_of(message: Seq<u8>) -> Seq<u8>;

/// Calls `Digest::digest` of `sha2::Sha256`, which creates a hasher, feeds it
/// the whole of `message` and finalizes it. The contract names the result and
/// claims its length: the output of `Sha256` is an array of 32 bytes.
#[verifier::external_body]
fn sha256(message: &[u8]) -> (hash: Vec<u8>)
    ensures
        hash@ == sha256_of(message@),
        hash@.len() == 32,
{
    Sha256::digest(message).to_vec()
}

/// The lowercase hexadecimal digit for a value from 0 to 15.
pub open spec fn hex_digit(nibble: int) -> char {
    if nibble < 10 {
        ('0' as int + nibble) as char
    } else {
        ('a' as int + nibble - 10) as char
    }
}

/// The lowercase hexadecimal notation of `bytes`: two digits for each byte,
/// the high four bits first.
pub open spec fn hex_lower(bytes: Seq<u8>) -> Seq<char> {
    Seq::new(
        2 * bytes.len(),
        |i: int|
            if i % 2 == 0 {
                hex_digit(bytes[i / 2] as int / 16)
            } else {
                hex_digit(bytes[i / 2] as int % 16)
            },
    )
}

/// Calls `hex::encode`, which writes each byte as two characters taken from
/// the table `0123456789abcdef`, the high four bits first.
#[verifier::external_body]
fn hex_encode(bytes: &[u8]) -> (text: String)
    ensures
        text@ == hex_lower(bytes@),
{
    hex::encode(bytes)
}

/// Whether `c` is a decimal digit or a letter from `a` to `f`.
pub open spec fn is_lower_hex_char(c: char) -> bool {
    ('0' <= c && c <= '9') || ('a' <= c && c <= 'f')
}

/// Whether `text` has the form of a checksum: 64 lowercase hexadecimal
/// characters.
pub open spec fn is_checksum_text(text: Seq<char>) -> bool {
    &&& text.len() == CHECKSUM_LEN
    &&& forall|i: int| 0 <= i < text.len() ==> is_lower_hex_char(#[trigger] text[i])
}

/// The checksum of `content`: the SHA-256 hash of its UTF-8 encoding in
/// lowercase hexadecimal.
pub open spec fn digest_of(content: Seq<char>) -> Seq<char> {
    hex_lower(sha256_of(encode_utf8(content)))
}

/// Whether `expected` is exactly the checksum of `content`.
pub open spec fn checksum_matches(content: Seq<char>, expected: Seq<char>) -> bool {
    digest_of(content) == expected
}

/// The hexadecimal notation of `bytes` has two characters for each byte, and
/// each of them is a lowercase hexadecimal digit.
pub proof fn lemma_hex_lower_shape(bytes: Seq<u8>)
    ensures
        hex_lower(bytes).len() == 2 * bytes.len(),
        forall|i: int|
            0 <= i < hex_lower(bytes).len() ==> is_lower_hex_char(#[trigger] hex_lower(bytes)[i]),
{
    assert forall|i: int| 0 <= i < hex_lower(bytes).len() implies is_lower_hex_char(
        #[trigger] hex_lower(bytes)[i],
    ) by {
        let b = bytes[i / 2] as int;
        assert(0 <= b / 16 < 16 && 0 <= b % 16 < 16);
    }
}

/// Equal texts have equal checksums.
pub proof fn lemma_digest_is_deterministic(content: Seq<char>, other: Seq<char>)
    requires
        content == other,
    ensures
        digest_of(content) == digest_of(other),
{
}

/// A text is accepted against its own checksum.
pub proof fn lemma_own_checksum_matches(content: Seq<char>)
    ensures
        checksum_matches(content, digest_of(content)),
{
}

/// A text is rejected against anything but its own checksum.
pub proof fn lemma_other_checksum_differs(content: Seq<char>, expected: Seq<char>)
    requires
        expected != digest_of(content),
    ensures
        !checksum_matches(content, expected),
{
}

/// Writes `bytes` in lowercase hexadecimal.
pub fn to_hex(bytes: &[u8]) -> (text: String)
    ensures
        text@ == hex_lower(bytes@),
        text@.len() == 2 * bytes@.len(),
{
    proof {
        lemma_hex_lower_shape(bytes@);
    }
    hex_encode(bytes)
}

/// Computes the checksum of `content`.
///
/// The result depends on `content` alone, and always has the form of a
/// checksum.
pub fn compute_checksum(content: &str) -> (checksum: String)
    ensures
        checksum@ == digest_of(content@),
        is_checksum_text(checksum@),
{
    let hash = sha256(content.as_bytes());
    proof {
        lemma_hex_lower_shape(hash@);
    }
    to_hex(hash.as_slice())
}

/// Checks `content` against an expected checksum. The comparison is exact:
/// case matters, and nothing is trimmed.
pub fn verify_checksum(content: &str, expected: &str) -> (matches: bool)
    ensures
        matches == checksum_matches(content@, expected@),
{
    let actual = compute_checksum(content);
    let wanted = expected.to_owned();
    actual == wanted
}

} // verus!
