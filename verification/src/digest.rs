//! BLAKE3 digests and their hexadecimal text.

use vstd::prelude::*;
use vstd::string::StringSliceAdditionalSpecFns;

verus! {

/// The 32 bytes that `blake3::hash` gives for a byte string.
pub uninterp spec fn blake3_hash(bytes: Seq<u8>) -> Seq<u8>;

/// The lowercase hexadecimal digit of a value below sixteen.
pub open spec fn hex_digit(value: int) -> char {
    if value < 10 {
        (48 + value) as char
    } else {
        (87 + value) as char
    }
}

/// The lowercase hexadecimal text of a byte string, two digits a byte, the high one first.
pub open spec fn hex_text(bytes: Seq<u8>) -> Seq<char> {
    Seq::new(
        bytes.len() * 2,
        |i: int|
            if i % 2 == 0 {
                hex_digit(bytes[i / 2] as int / 16)
            } else {
                hex_digit(bytes[i / 2] as int % 16)
            },
    )
}

/// The digest of the UTF-8 bytes of a text.
pub open spec fn text_digest(text: Seq<char>) -> Seq<u8> {
    blake3_hash(vstd::utf8::encode_utf8(text))
}

/// `blake3::hash`: the digest of a byte string.
#[verifier::external_body]
pub(crate) fn hash_bytes(bytes: &[u8]) -> (digest: [u8; 32])
    ensures
        digest@ == blake3_hash(bytes@),
{
    *blake3::hash(bytes).as_bytes()
}

/// `blake3::Hash::to_hex`: the lowercase hexadecimal text of a digest.
#[verifier::external_body]
pub(crate) fn hash_to_hex(digest: &[u8; 32]) -> (hex: String)
    ensures
        hex@ == hex_text(digest@),
{
    blake3::Hash::from_bytes(*digest).to_hex().to_string()
}

/// The digest of a shader source.
pub fn source_blake3(source: &str) -> (digest: [u8; 32])
    ensures
        digest@ == text_digest(source@),
{
    hash_bytes(source.as_bytes())
}

/// The hexadecimal text of a digest.
pub fn blake3_hex(digest: &[u8; 32]) -> (hex: String)
    ensures
        hex@ == hex_text(digest@),
{
    hash_to_hex(digest)
}

} // verus!
