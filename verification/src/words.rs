//! Little-endian words in byte strings.

use vstd::prelude::*;

verus! {

/// The 16-bit little-endian word at an offset.
pub open spec fn word16(bytes: Seq<u8>, at: int) -> u16 {
    (bytes[at] + 0x100 * bytes[at + 1]) as u16
}

/// The 32-bit little-endian word at an offset.
pub open spec fn word32(bytes: Seq<u8>, at: int) -> u32 {
    (bytes[at] + 0x100 * bytes[at + 1] + 0x1_0000 * bytes[at + 2] + 0x100_0000 * bytes[at
        + 3]) as u32
}

/// The 64-bit little-endian word at an offset.
pub open spec fn word64(bytes: Seq<u8>, at: int) -> u64 {
    (word32(bytes, at) + 0x1_0000_0000 * word32(bytes, at + 4)) as u64
}

/// A byte string read as 32-bit little-endian words; a ragged tail is left out.
pub open spec fn words32(bytes: Seq<u8>) -> Seq<u32> {
    Seq::new(bytes.len() / 4, |i: int| word32(bytes, 4 * i))
}

/// A byte string read as 16-bit little-endian words; a ragged tail is left out.
pub open spec fn words16(bytes: Seq<u8>) -> Seq<u16> {
    Seq::new(bytes.len() / 2, |i: int| word16(bytes, 2 * i))
}

/// The little-endian bytes of 32-bit words.
pub open spec fn bytes_of_words32(words: Seq<u32>) -> Seq<u8> {
    Seq::new(words.len() * 4, |i: int| byte_of_word32(words[i / 4], i % 4))
}

/// One of the four bytes of a 32-bit word, the least significant first.
pub open spec fn byte_of_word32(word: u32, place: int) -> u8 {
    if place == 0 {
        (word % 0x100) as u8
    } else if place == 1 {
        (word / 0x100 % 0x100) as u8
    } else if place == 2 {
        (word / 0x1_0000 % 0x100) as u8
    } else {
        (word / 0x100_0000) as u8
    }
}

/// The little-endian bytes of 16-bit words.
pub open spec fn bytes_of_words16(words: Seq<u16>) -> Seq<u8> {
    Seq::new(
        words.len() * 2,
        |i: int| (if i % 2 == 0 { words[i / 2] % 0x100 } else { words[i / 2] / 0x100 }) as u8,
    )
}

/// Reads the 16-bit little-endian word at an offset.
pub fn pack_u16_le(bytes: &[u8], offset: usize) -> (word: u16)
    requires
        offset + 2 <= bytes.len(),
    ensures
        word == word16(bytes@, offset as int),
{
    bytes[offset] as u16 + 0x100 * bytes[offset + 1] as u16
}

/// Reads the 32-bit little-endian word at an offset.
pub fn pack_u32_le(bytes: &[u8], offset: usize) -> (word: u32)
    requires
        offset + 4 <= bytes.len(),
    ensures
        word == word32(bytes@, offset as int),
{
    bytes[offset] as u32 + 0x100 * bytes[offset + 1] as u32 + 0x1_0000 * bytes[offset + 2] as u32
        + 0x100_0000 * bytes[offset + 3] as u32
}

/// Reads the 64-bit little-endian word at an offset.
pub fn pack_u64_le(bytes: &[u8], offset: usize) -> (word: u64)
    requires
        offset + 8 <= bytes.len(),
    ensures
        word == word64(bytes@, offset as int),
{
    pack_u32_le(bytes, offset) as u64 + 0x1_0000_0000 * pack_u32_le(bytes, offset + 4) as u64
}

/// The little-endian bytes of 32-bit words.
pub fn word_bytes(words: &[u32]) -> (bytes: Vec<u8>)
    ensures
        bytes@ == bytes_of_words32(words@),
{
    let mut bytes: Vec<u8> = Vec::new();
    let mut index: usize = 0;
    while index < words.len()
        invariant
            index <= words.len(),
            bytes@ == bytes_of_words32(words@.subrange(0, index as int)),
        decreases words.len() - index,
    {
        let ghost before = bytes@;
        let word: u32 = words[index];
        bytes.push((word % 0x100) as u8);
        bytes.push((word / 0x100 % 0x100) as u8);
        bytes.push((word / 0x1_0000 % 0x100) as u8);
        bytes.push((word / 0x100_0000) as u8);
        assert(bytes@ =~= bytes_of_words32(words@.subrange(0, index + 1)));
        index += 1;
    }
    assert(words@.subrange(0, index as int) =~= words@);
    bytes
}

/// The little-endian bytes of half-precision bit patterns.
pub fn m7q1_f16_bytes(values: &[u16]) -> (bytes: Vec<u8>)
    ensures
        bytes@ == bytes_of_words16(values@),
{
    let mut bytes: Vec<u8> = Vec::new();
    let mut index: usize = 0;
    while index < values.len()
        invariant
            index <= values.len(),
            bytes@ == bytes_of_words16(values@.subrange(0, index as int)),
        decreases values.len() - index,
    {
        let word: u16 = values[index];
        bytes.push((word % 0x100) as u8);
        bytes.push((word / 0x100) as u8);
        assert(bytes@ =~= bytes_of_words16(values@.subrange(0, index + 1)));
        index += 1;
    }
    assert(values@.subrange(0, index as int) =~= values@);
    bytes
}

/// Reading back the little-endian bytes of 32-bit words gives the words.
pub proof fn law_words32_read_back(words: Seq<u32>)
    ensures
        words32(bytes_of_words32(words)) == words,
{
    let bytes = bytes_of_words32(words);
    assert forall|i: int| 0 <= i < words.len() implies word32(bytes, 4 * i) == words[i] by {
        let word = words[i];
        assert(bytes[4 * i] == byte_of_word32(word, 0));
        assert(bytes[4 * i + 1] == byte_of_word32(word, 1));
        assert(bytes[4 * i + 2] == byte_of_word32(word, 2));
        assert(bytes[4 * i + 3] == byte_of_word32(word, 3));
    }
    assert(words32(bytes) =~= words);
}

/// Reading back the little-endian bytes of 16-bit words gives the words.
pub proof fn law_words16_read_back(words: Seq<u16>)
    ensures
        words16(bytes_of_words16(words)) == words,
{
    assert(words16(bytes_of_words16(words)) =~= words);
}

proof fn lemma_bytes_of_word(a: u8, b: u8, c: u8, d: u8)
    ensures
        ({
            let word = (a + 0x100 * b + 0x1_0000 * c + 0x100_0000 * d) as u32;
            &&& byte_of_word32(word, 0) == a
            &&& byte_of_word32(word, 1) == b
            &&& byte_of_word32(word, 2) == c
            &&& byte_of_word32(word, 3) == d
        }),
{
    let word: int = a + 0x100 * b + 0x1_0000 * c + 0x100_0000 * d;
    let upper: int = b + 0x100 * c + 0x1_0000 * d;
    let high: int = c + 0x100 * d;
    assert(word == a + 0x100 * upper);
    assert(word % 0x100 == a && word / 0x100 == upper);
    assert(upper == b + 0x100 * high);
    assert(upper % 0x100 == b && upper / 0x100 == high);
    assert(word == (a + 0x100 * b) + 0x1_0000 * high);
    assert(word / 0x1_0000 == high);
    assert(high % 0x100 == c && high / 0x100 == d);
    assert(word == (a + 0x100 * b + 0x1_0000 * c) + 0x100_0000 * d);
    assert(word / 0x100_0000 == d);
}

/// Whole byte strings come back from their 32-bit words.
pub proof fn law_words32_write_back(bytes: Seq<u8>)
    requires
        bytes.len() % 4 == 0,
    ensures
        bytes_of_words32(words32(bytes)) == bytes,
{
    let words = words32(bytes);
    let back = bytes_of_words32(words);
    assert forall|i: int| 0 <= i < bytes.len() implies #[trigger] back[i] == bytes[i] by {
        let k = i / 4;
        assert(back[i] == byte_of_word32(words[k], i % 4));
        assert(words[k] == word32(bytes, 4 * k));
        lemma_bytes_of_word(bytes[4 * k], bytes[4 * k + 1], bytes[4 * k + 2], bytes[4 * k + 3]);
        assert(i == 4 * k + i % 4);
    }
    assert(back =~= bytes);
}

} // verus!
