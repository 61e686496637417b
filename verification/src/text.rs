//! Diagnostic text.
//!
//! Every refusal in this library is one message. The functions here put messages
//! together and compare names.

use vstd::prelude::*;
use vstd::string::StringSliceAdditionalSpecFns;

verus! {

/// A result with its message taken as a sequence of characters.
pub open spec fn said<T>(outcome: Result<T, String>) -> Result<T, Seq<char>> {
    match outcome {
        Ok(value) => Ok(value),
        Err(message) => Err(message@),
    }
}

/// What a check complains of, if it does.
pub open spec fn complaint(outcome: Result<(), String>) -> Option<Seq<char>> {
    match outcome {
        Ok(_) => None,
        Err(message) => Some(message@),
    }
}

/// The first of two complaints.
pub open spec fn earlier(first: Option<Seq<char>>, second: Option<Seq<char>>) -> Option<Seq<char>> {
    match first {
        Some(message) => Some(message),
        None => second,
    }
}

/// The words of the error that `core::str::from_utf8` gives for bytes that are not UTF-8.
pub uninterp spec fn utf8_error_text(bytes: Seq<u8>) -> Seq<char>;

/// `core::str::from_utf8`: the text of bytes that are UTF-8, or the error's own words.
#[verifier::external_body]
pub(crate) fn utf8_text(bytes: &[u8]) -> (text: Result<&str, String>)
    ensures
        match text {
            Ok(slice) => vstd::utf8::valid_utf8(bytes@) && slice.spec_bytes() == bytes@,
            Err(message) => !vstd::utf8::valid_utf8(bytes@) && message@ == utf8_error_text(
                bytes@,
            ),
        },
{
    core::str::from_utf8(bytes).map_err(|error| error.to_string())
}

/// The characters of a text are what its bytes decode to.
pub proof fn lemma_text_decodes(text: &str)
    ensures
        vstd::utf8::decode_utf8(text.spec_bytes()) == text@,
{
    vstd::utf8::encode_utf8_decode_utf8(text@);
}

/// A textual result, with the text and the message taken as sequences of characters.
pub open spec fn said_text(outcome: Result<String, String>) -> Result<Seq<char>, Seq<char>> {
    match outcome {
        Ok(text) => Ok(text@),
        Err(message) => Err(message@),
    }
}

/// A sequence of strings, each as its characters.
pub open spec fn texts(strings: Seq<String>) -> Seq<Seq<char>> {
    strings.map_values(|string: String| string@)
}

/// A sequence of string slices, each as its characters.
pub open spec fn names(slices: Seq<&str>) -> Seq<Seq<char>> {
    slices.map_values(|slice: &str| slice@)
}

/// Whether one byte string comes before another in the order of a dictionary.
pub open spec fn bytes_before(left: Seq<u8>, right: Seq<u8>) -> bool
    decreases left.len(),
{
    if right.len() == 0 {
        false
    } else if left.len() == 0 {
        true
    } else if left[0] != right[0] {
        left[0] < right[0]
    } else {
        bytes_before(left.drop_first(), right.drop_first())
    }
}

/// Whether one text comes before another in the order of their UTF-8 bytes.
pub open spec fn text_before(left: Seq<char>, right: Seq<char>) -> bool {
    bytes_before(vstd::utf8::encode_utf8(left), vstd::utf8::encode_utf8(right))
}

/// Whether texts are in the order of their UTF-8 bytes, none of them twice.
pub open spec fn ascending(list: Seq<Seq<char>>) -> bool {
    forall|i: int, j: int|
        0 <= i < j < list.len() ==> text_before(#[trigger] list[i], #[trigger] list[j])
}

proof fn lemma_bytes_before_is_strict(left: Seq<u8>, right: Seq<u8>)
    ensures
        !(bytes_before(left, right) && bytes_before(right, left)),
    decreases left.len(),
{
    if left.len() > 0 && right.len() > 0 {
        lemma_bytes_before_is_strict(left.drop_first(), right.drop_first());
    }
}

/// No two texts come before each other.
pub proof fn lemma_text_before_is_strict(left: Seq<char>, right: Seq<char>)
    ensures
        !(text_before(left, right) && text_before(right, left)),
{
    lemma_bytes_before_is_strict(
        vstd::utf8::encode_utf8(left),
        vstd::utf8::encode_utf8(right),
    );
}

/// Two pieces of text, one after the other.
pub fn join2(first: &str, second: &str) -> (joined: String)
    ensures
        joined@ == first@ + second@,
{
    first.to_owned().concat(second)
}

/// Three pieces of text, one after the other.
pub fn join3(first: &str, second: &str, third: &str) -> (joined: String)
    ensures
        joined@ == first@ + second@ + third@,
{
    first.to_owned().concat(second).concat(third)
}

/// Four pieces of text, one after the other.
pub fn join4(first: &str, second: &str, third: &str, fourth: &str) -> (joined: String)
    ensures
        joined@ == first@ + second@ + third@ + fourth@,
{
    first.to_owned().concat(second).concat(third).concat(fourth)
}

/// Five pieces of text, one after the other.
pub fn join5(
    first: &str,
    second: &str,
    third: &str,
    fourth: &str,
    fifth: &str,
) -> (joined: String)
    ensures
        joined@ == first@ + second@ + third@ + fourth@ + fifth@,
{
    first.to_owned().concat(second).concat(third).concat(fourth).concat(fifth)
}

/// Whether two byte strings are the same.
pub fn same_bytes(left: &[u8], right: &[u8]) -> (same: bool)
    ensures
        same == (left@ == right@),
{
    if left.len() != right.len() {
        return false;
    }
    let mut index: usize = 0;
    while index < left.len()
        invariant
            index <= left.len(),
            left.len() == right.len(),
            forall|i: int| 0 <= i < index ==> left@[i] == right@[i],
        decreases left.len() - index,
    {
        if left[index] != right[index] {
            return false;
        }
        index += 1;
    }
    assert(left@ =~= right@);
    true
}

/// Two texts with the same UTF-8 bytes are the same text.
pub proof fn lemma_bytes_determine_text(left: &str, right: &str)
    ensures
        left.spec_bytes() == right.spec_bytes() <==> left@ == right@,
{
    vstd::utf8::encode_utf8_decode_utf8(left@);
    vstd::utf8::encode_utf8_decode_utf8(right@);
}

/// Whether two texts are the same.
pub fn same(left: &str, right: &str) -> (same: bool)
    ensures
        same == (left@ == right@),
{
    proof {
        lemma_bytes_determine_text(left, right);
    }
    same_bytes(left.as_bytes(), right.as_bytes())
}

/// Whether a text is one of the listed names.
pub fn listed(list: &[&str], name: &str) -> (found: bool)
    ensures
        found == names(list@).contains(name@),
{
    let mut index: usize = 0;
    while index < list.len()
        invariant
            index <= list.len(),
            forall|i: int| 0 <= i < index ==> names(list@)[i] != name@,
        decreases list.len() - index,
    {
        if same(list[index], name) {
            assert(names(list@)[index as int] == name@);
            return true;
        }
        index += 1;
    }
    false
}

} // verus!
