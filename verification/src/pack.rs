//! Weight packs: their bytes, and the helpers that read them.
//!
//! A pack is a 32-byte header, a JSON manifest, a directory, and the sections that the
//! directory lists, each aligned, zero padded and pinned by its BLAKE3 digest. The first
//! section is a JSON descriptor; the others are weight shards.

use crate::family::{family_noun, Family};
use crate::text::{join3, join4};
use vstd::arithmetic::power2::is_pow2;
use vstd::prelude::*;
use vstd::slice::slice_subrange;
use vstd::string::StringSliceAdditionalSpecFns;

verus! {

/// The start of every message about a pack.
pub open spec fn pack_noun(family: Family) -> Seq<char> {
    crate::family::noun(family) + " weight pack "@
}

/// The start of every message about a pack.
pub fn pack_subject(family: Family) -> (subject: String)
    ensures
        subject@ == pack_noun(family),
{
    crate::text::join2(family_noun(family), " weight pack ")
}

/// The least multiple of an alignment that is not below a value.
pub open spec fn align_up(value: int, alignment: int) -> int {
    if value % alignment == 0 {
        value
    } else {
        value + alignment - value % alignment
    }
}

/// The least multiple of an alignment that is not below a value.
pub fn pack_align_up(value: usize, alignment: usize) -> (aligned: usize)
    requires
        alignment > 0,
        align_up(value as int, alignment as int) <= usize::MAX,
    ensures
        aligned == align_up(value as int, alignment as int),
{
    let remainder: usize = value % alignment;
    if remainder == 0 {
        value
    } else {
        value + (alignment - remainder)
    }
}

pub proof fn lemma_align_up_multiple(value: int, alignment: int)
    requires
        alignment > 0,
    ensures
        align_up(value, alignment) % alignment == 0,
        value <= align_up(value, alignment) < value + alignment,
{
    vstd::arithmetic::div_mod::lemma_mod_bound(value, alignment);
    if value % alignment != 0 {
        let rest = value % alignment;
        vstd::arithmetic::div_mod::lemma_sub_mod_noop(value, rest, alignment);
        vstd::arithmetic::div_mod::lemma_small_mod(rest as nat, alignment as nat);
        vstd::arithmetic::div_mod::lemma_small_mod(0, alignment as nat);
        vstd::arithmetic::div_mod::lemma_mod_add_multiples_vanish(value - rest, alignment);
        assert(alignment + (value - rest) == align_up(value, alignment));
    }
}

/// Alignment gives a multiple of the alignment, not below the value, and below any other
/// such multiple.
pub proof fn law_align_up_is_least_multiple(value: int, alignment: int, other: int)
    requires
        alignment > 0,
        other >= value,
        other % alignment == 0,
    ensures
        align_up(value, alignment) % alignment == 0,
        value <= align_up(value, alignment) < value + alignment,
        align_up(value, alignment) <= other,
{
    let aligned = align_up(value, alignment);
    lemma_align_up_multiple(value, alignment);
    if other < aligned {
        let gap = aligned - other;
        vstd::arithmetic::div_mod::lemma_sub_mod_noop(aligned, other, alignment);
        vstd::arithmetic::div_mod::lemma_small_mod(0, alignment as nat);
        vstd::arithmetic::div_mod::lemma_small_mod(gap as nat, alignment as nat);
    }
}

/// Aligning twice is aligning once.
pub proof fn law_align_up_is_idempotent(value: int, alignment: int)
    requires
        alignment > 0,
    ensures
        align_up(align_up(value, alignment), alignment) == align_up(value, alignment),
{
    lemma_align_up_multiple(value, alignment);
}

/// An offset or a length as an address.
pub open spec fn pack_address(family: Family, value: int, label: Seq<char>) -> Result<
    usize,
    Seq<char>,
> {
    if value <= usize::MAX {
        Ok(value as usize)
    } else {
        Err(pack_noun(family) + label + " offset is too large"@)
    }
}

/// An offset or a length as an address.
pub fn pack_usize(family: Family, value: u64, label: &str) -> (address: Result<usize, String>)
    ensures
        crate::text::said(address) == pack_address(family, value as int, label@),
{
    if value <= usize::MAX as u64 {
        Ok(value as usize)
    } else {
        Err(join3(pack_subject(family).as_str(), label, " offset is too large"))
    }
}

/// The bytes of a pack from one offset to another.
pub fn pack_slice<'a>(
    family: Family,
    bytes: &'a [u8],
    start: usize,
    end: usize,
    label: &str,
) -> (slice: Result<&'a [u8], String>)
    ensures
        match slice {
            Ok(part) => start <= end <= bytes.len() && part@ == bytes@.subrange(
                start as int,
                end as int,
            ),
            Err(message) => !(start <= end <= bytes.len()) && message@ == pack_noun(family) + label@
                + " range exceeds the file"@,
        },
{
    if start > end || end > bytes.len() {
        return Err(join3(pack_subject(family).as_str(), label, " range exceeds the file"));
    }
    Ok(slice_subrange(bytes, start, end))
}

/// Whether every byte of a string is zero.
pub open spec fn all_zero(bytes: Seq<u8>) -> bool {
    forall|i: int| 0 <= i < bytes.len() ==> bytes[i] == 0
}

/// Whether every byte of a string is zero.
pub fn pack_padding_is_zero(bytes: &[u8]) -> (zero: bool)
    ensures
        zero == all_zero(bytes@),
{
    let mut index: usize = 0;
    while index < bytes.len()
        invariant
            index <= bytes.len(),
            forall|i: int| 0 <= i < index ==> bytes@[i] == 0,
        decreases bytes.len() - index,
    {
        if bytes[index] != 0 {
            return false;
        }
        index += 1;
    }
    true
}

/// The value of a lowercase hexadecimal digit.
pub open spec fn nibble(byte: u8) -> Option<u8> {
    if 48 <= byte <= 57 {
        Some((byte - 48) as u8)
    } else if 97 <= byte <= 102 {
        Some((byte - 87) as u8)
    } else {
        None
    }
}

/// The message about a digit that is not lowercase hexadecimal.
pub open spec fn not_hex(family: Family, label: Seq<char>) -> Seq<char> {
    pack_noun(family) + label + " is not lowercase BLAKE3 hex"@
}

/// The digest that a lowercase hexadecimal text spells.
pub open spec fn hex_digest(family: Family, hex: Seq<char>, label: Seq<char>) -> Result<
    Seq<u8>,
    Seq<char>,
> {
    let digits = vstd::utf8::encode_utf8(hex);
    if digits.len() != 64 {
        Err(pack_noun(family) + label + " is not a 64-digit BLAKE3 hex string"@)
    } else if exists|i: int| 0 <= i < 64 && nibble(digits[i]) is None {
        Err(not_hex(family, label))
    } else {
        Ok(
            Seq::new(
                32,
                |i: int|
                    (nibble(digits[2 * i])->0 * 16 + nibble(digits[2 * i + 1])->0) as u8,
            ),
        )
    }
}

/// A digest result with its bytes taken as a sequence.
pub open spec fn digest_said(outcome: Result<[u8; 32], String>) -> Result<Seq<u8>, Seq<char>> {
    match outcome {
        Ok(digest) => Ok(digest@),
        Err(message) => Err(message@),
    }
}

/// The value of a lowercase hexadecimal digit.
pub fn pack_hex_nibble(family: Family, byte: u8, label: &str) -> (value: Result<u8, String>)
    ensures
        crate::text::said(value) == (match nibble(byte) {
            Some(digit) => Ok(digit),
            None => Err(not_hex(family, label@)),
        }),
{
    if 48 <= byte && byte <= 57 {
        Ok(byte - 48)
    } else if 97 <= byte && byte <= 102 {
        Ok(byte - 87)
    } else {
        Err(join3(pack_subject(family).as_str(), label, " is not lowercase BLAKE3 hex"))
    }
}

/// The digest that a lowercase hexadecimal text spells.
pub fn pack_hex_digest(family: Family, hex: &str, label: &str) -> (digest: Result<
    [u8; 32],
    String,
>)
    ensures
        digest_said(digest) == hex_digest(family, hex@, label@),
{
    let digits: &[u8] = hex.as_bytes();
    if digits.len() != 64 {
        return Err(
            join3(pack_subject(family).as_str(), label, " is not a 64-digit BLAKE3 hex string"),
        );
    }
    let mut digest: [u8; 32] = [0u8; 32];
    let mut index: usize = 0;
    while index < 32
        invariant
            index <= 32,
            digits@ == vstd::utf8::encode_utf8(hex@),
            digits.len() == 64,
            forall|i: int| 0 <= i < 2 * index ==> nibble(digits@[i]) is Some,
            forall|i: int|
                0 <= i < index ==> digest@[i] == (nibble(digits@[2 * i])->0 * 16 + nibble(
                    digits@[2 * i + 1],
                )->0) as u8,
        decreases 32 - index,
    {
        let high: u8 = pack_hex_nibble(family, digits[index * 2], label)?;
        let low: u8 = pack_hex_nibble(family, digits[index * 2 + 1], label)?;
        digest[index] = high * 16 + low;
        index += 1;
    }
    assert(digest@ =~= hex_digest(family, hex@, label@)->Ok_0);
    Ok(digest)
}

/// Spelling a digest in hexadecimal and reading it back gives the digest.
pub proof fn law_hex_digest_read_back(family: Family, digest: Seq<u8>, label: Seq<char>)
    requires
        digest.len() == 32,
    ensures
        hex_digest(family, crate::digest::hex_text(digest), label) == Ok::<Seq<u8>, Seq<char>>(
            digest,
        ),
{
    let hex = crate::digest::hex_text(digest);
    let digits = vstd::utf8::encode_utf8(hex);
    assert(vstd::utf8::is_ascii_chars(hex));
    vstd::utf8::is_ascii_chars_encode_utf8(hex);
    assert forall|i: int| 0 <= i < 64 implies nibble(#[trigger] digits[i]) is Some && nibble(
        digits[i],
    )->0 == (if i % 2 == 0 {
        digest[i / 2] / 16
    } else {
        digest[i / 2] % 16
    }) by {
        assert(digits[i] == hex[i] as u8);
    }
    let read = hex_digest(family, hex, label)->Ok_0;
    assert forall|i: int| 0 <= i < 32 implies read[i] == digest[i] by {
        assert(nibble(digits[2 * i])->0 == digest[i] / 16);
        assert(nibble(digits[2 * i + 1])->0 == digest[i] % 16);
    }
    assert(read =~= digest);
}

/// A digest has one spelling: a text that is read as a digest is the hexadecimal text of it, so
/// no second text is read as the same digest.
pub proof fn law_hex_digest_is_unique(
    family: Family,
    hex: Seq<char>,
    label: Seq<char>,
    digest: Seq<u8>,
)
    requires
        hex_digest(family, hex, label) == Ok::<Seq<u8>, Seq<char>>(digest),
    ensures
        digest.len() == 32,
        hex == crate::digest::hex_text(digest),
{
    let spelled = crate::digest::hex_text(digest);
    let digits = vstd::utf8::encode_utf8(hex);
    let again = vstd::utf8::encode_utf8(spelled);
    law_hex_digest_read_back(family, digest, label);
    assert forall|i: int| 0 <= i < 64 implies digits[i] == again[i] by {
        let k = i / 2;
        let (high, low) = (nibble(digits[2 * k]), nibble(digits[2 * k + 1]));
        let (upper, lower) = (nibble(again[2 * k]), nibble(again[2 * k + 1]));
        assert(high is Some && low is Some && upper is Some && lower is Some);
        assert(digest[k] == (high->0 * 16 + low->0) as u8);
        assert(digest[k] == (upper->0 * 16 + lower->0) as u8);
        assert(high == upper && low == lower);
        assert(digits[2 * k] == again[2 * k] && digits[2 * k + 1] == again[2 * k + 1]);
    }
    assert(digits =~= again);
    vstd::utf8::encode_utf8_decode_utf8(hex);
    vstd::utf8::encode_utf8_decode_utf8(spelled);
}

/// The first single-precision word of a payload that is not finite makes it a refusal.
pub open spec fn singles_complaint(family: Family, payload: Seq<u8>, shard: Seq<char>) -> Option<
    Seq<char>,
> {
    if forall|i: int|
        0 <= i < payload.len() / 4 ==> crate::ieee::single_finite(
            #[trigger] crate::words::words32(payload)[i],
        ) {
        None
    } else {
        Some(
            pack_noun(family) + "shard "@ + shard + " contains a nonfinite f32 payload element"@,
        )
    }
}

/// A half-precision word of a payload that is not finite makes it a refusal.
pub open spec fn halves_complaint(family: Family, payload: Seq<u8>, shard: Seq<char>) -> Option<
    Seq<char>,
> {
    if forall|i: int|
        0 <= i < payload.len() / 2 ==> crate::ieee::half_finite(
            #[trigger] crate::words::words16(payload)[i],
        ) {
        None
    } else {
        Some(
            pack_noun(family) + "shard "@ + shard + " contains a nonfinite f16 payload element"@,
        )
    }
}

/// Requires every single-precision word of a shard to be finite.
pub fn require_pack_f32_finite(family: Family, payload: &[u8], shard_id: &str) -> (outcome: Result<
    (),
    String,
>)
    ensures
        crate::text::complaint(outcome) == singles_complaint(family, payload@, shard_id@),
{
    let count: usize = payload.len() / 4;
    let mut index: usize = 0;
    while index < count
        invariant
            count == payload.len() / 4,
            index <= count,
            forall|i: int|
                0 <= i < index ==> crate::ieee::single_finite(
                    #[trigger] crate::words::words32(payload@)[i],
                ),
        decreases count - index,
    {
        let word: u32 = crate::words::pack_u32_le(payload, index * 4);
        assert(crate::words::words32(payload@)[index as int] == word);
        if !crate::ieee::single_is_finite(word) {
            return Err(
                join4(
                    pack_subject(family).as_str(),
                    "shard ",
                    shard_id,
                    " contains a nonfinite f32 payload element",
                ),
            );
        }
        index += 1;
    }
    Ok(())
}

/// Requires every half-precision word of a shard to be finite.
pub fn require_pack_f16_finite(family: Family, payload: &[u8], shard_id: &str) -> (outcome: Result<
    (),
    String,
>)
    ensures
        crate::text::complaint(outcome) == halves_complaint(family, payload@, shard_id@),
{
    let count: usize = payload.len() / 2;
    let mut index: usize = 0;
    while index < count
        invariant
            count == payload.len() / 2,
            index <= count,
            forall|i: int|
                0 <= i < index ==> crate::ieee::half_finite(
                    #[trigger] crate::words::words16(payload@)[i],
                ),
        decreases count - index,
    {
        let word: u16 = crate::words::pack_u16_le(payload, index * 2);
        assert(crate::words::words16(payload@)[index as int] == word);
        if !crate::ieee::half_is_finite(word) {
            return Err(
                join4(
                    pack_subject(family).as_str(),
                    "shard ",
                    shard_id,
                    " contains a nonfinite f16 payload element",
                ),
            );
        }
        index += 1;
    }
    Ok(())
}

} // verus!
