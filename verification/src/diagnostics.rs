//! Pieces of the diagnostics that sessions report as JSON.

use crate::digest::blake3_hex;
use crate::family::Family;
use crate::json::{
    json_array, json_insert, json_new, json_object, json_text, json_to_string, json_unsigned,
    JsonTree,
};
use crate::text::join2;
use vstd::prelude::*;

verus! {

/// The names of the checked error scopes, outermost last.
pub open spec fn checked_scopes_tree() -> JsonTree {
    JsonTree::Array(
        seq![
            JsonTree::Text("validation"@),
            JsonTree::Text("out_of_memory"@),
            JsonTree::Text("internal"@),
        ],
    )
}

/// The names of the checked error scopes, outermost last.
pub fn checked_scopes_json() -> (value: serde_json::Value)
    ensures
        crate::json::value_tree(value) == checked_scopes_tree(),
{
    let mut scopes: Vec<serde_json::Value> = Vec::new();
    scopes.push(json_text("validation"));
    scopes.push(json_text("out_of_memory"));
    scopes.push(json_text("internal"));
    assert(crate::json::trees(scopes@) =~= seq![
        JsonTree::Text("validation"@),
        JsonTree::Text("out_of_memory"@),
        JsonTree::Text("internal"@),
    ]);
    json_array(scopes)
}

/// An empty array.
pub open spec fn empty_array_tree() -> JsonTree {
    JsonTree::Array(Seq::empty())
}

/// An empty array.
pub fn empty_array() -> (value: serde_json::Value)
    ensures
        crate::json::value_tree(value) == empty_array_tree(),
{
    let elements: Vec<serde_json::Value> = Vec::new();
    assert(crate::json::trees(elements@) =~= Seq::<JsonTree>::empty());
    json_array(elements)
}

/// The hexadecimal text of a digest, as a JSON string.
pub open spec fn digest_tree(digest: Seq<u8>) -> JsonTree {
    JsonTree::Text(crate::digest::hex_text(digest))
}

/// Gives an object the hexadecimal text of a digest under a name.
pub fn insert_blake3(
    hashes: &mut serde_json::Map<String, serde_json::Value>,
    name: &str,
    digest: &[u8; 32],
)
    ensures
        crate::json::object_members(*final(hashes)) == crate::json::object_members(
            *old(hashes),
        ).insert(name@, digest_tree(digest@)),
{
    let hex: String = blake3_hex(digest);
    json_insert(hashes, name, json_text(hex.as_str()));
}

/// Gives an object an unsigned integer under a name.
pub fn insert_u64(
    object: &mut serde_json::Map<String, serde_json::Value>,
    name: &str,
    integer: u64,
)
    ensures
        crate::json::object_members(*final(object)) == crate::json::object_members(
            *old(object),
        ).insert(name@, crate::json::integer_tree(integer)),
{
    json_insert(object, name, json_unsigned(integer));
}

/// The effect of a kind at a place.
pub open spec fn effect_tree(kind: Seq<char>, index: int) -> JsonTree {
    JsonTree::Object(
        crate::json::no_members().insert(
            "ordinal"@,
            crate::json::integer_tree((index + 1) as u64),
        ).insert("kind"@, JsonTree::Text(kind)),
    )
}

/// Effects in order, counted from one.
pub open spec fn effects_tree(kinds: Seq<Seq<char>>) -> JsonTree {
    JsonTree::Array(Seq::new(kinds.len(), |i: int| effect_tree(kinds[i], i)))
}

/// Effects in order, counted from one.
pub fn effects_json(kinds: &Vec<&'static str>) -> (value: serde_json::Value)
    requires
        kinds.len() < u64::MAX,
    ensures
        crate::json::value_tree(value) == effects_tree(crate::text::names(kinds@)),
{
    let ghost names = crate::text::names(kinds@);
    let mut effects: Vec<serde_json::Value> = Vec::new();
    let mut index: usize = 0;
    while index < kinds.len()
        invariant
            index <= kinds.len(),
            kinds.len() < u64::MAX,
            names == crate::text::names(kinds@),
            effects.len() == index,
            forall|i: int|
                0 <= i < index ==> crate::json::value_tree(#[trigger] effects@[i]) == effect_tree(
                    names[i],
                    i,
                ),
        decreases kinds.len() - index,
    {
        let mut effect: serde_json::Map<String, serde_json::Value> = json_new();
        insert_u64(&mut effect, "ordinal", index as u64 + 1);
        json_insert(&mut effect, "kind", json_text(kinds[index]));
        assert(names[index as int] == kinds@[index as int]@);
        effects.push(json_object(effect));
        index += 1;
    }
    assert(crate::json::trees(effects@) =~= Seq::new(
        names.len(),
        |i: int| effect_tree(names[i], i),
    ));
    json_array(effects)
}

/// How a family's messages name its diagnostics.
pub open spec fn diagnostics_noun(family: Family) -> Seq<char> {
    match family {
        Family::Kv => "cannot serialize decoder diagnostics: "@,
        Family::Layer => "cannot serialize decoder layer diagnostics: "@,
        Family::Stack => "cannot serialize decoder stack diagnostics: "@,
    }
}

/// The text of diagnostics that render to a given result.
pub open spec fn rendered_outcome(
    family: Family,
    rendered: Result<Seq<char>, Seq<char>>,
) -> Result<Seq<char>, Seq<char>> {
    match rendered {
        Ok(text) => Ok(text),
        Err(message) => Err(diagnostics_noun(family) + message),
    }
}

/// The text of diagnostics.
pub fn json_text_of(family: Family, value: &serde_json::Value) -> (text: Result<String, String>)
    ensures
        crate::text::said_text(text) == rendered_outcome(
            family,
            crate::json::rendered_json(crate::json::value_tree(*value)),
        ),
        text is Ok,
{
    match json_to_string(value) {
        Ok(text) => Ok(text),
        Err(message) => {
            let noun: &str = match family {
                Family::Kv => "cannot serialize decoder diagnostics: ",
                Family::Layer => "cannot serialize decoder layer diagnostics: ",
                Family::Stack => "cannot serialize decoder stack diagnostics: ",
            };
            Err(join2(noun, message.as_str()))
        },
    }
}

} // verus!
