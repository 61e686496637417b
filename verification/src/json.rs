//! JSON documents, held as `serde_json` values and seen as trees of plain data.
//!
//! `serde_json` reads, holds and writes the documents. The contracts here say what each
//! of its calls does to the tree that a value holds.

use vstd::prelude::*;

verus! {

/// A JSON number.
pub enum JsonNumber {
    /// An integer from zero to the largest 64-bit one.
    Unsigned(u64),
    /// An integer below zero.
    Negative(i64),
    /// Any other number, as the bits of its double-precision value.
    Double(u64),
}

/// What a JSON value holds.
pub enum JsonTree {
    Null,
    Bool(bool),
    Number(JsonNumber),
    Text(Seq<char>),
    Array(Seq<JsonTree>),
    Object(Map<Seq<char>, JsonTree>),
}

/// The members of an object, by name.
pub type Members = Map<Seq<char>, JsonTree>;

/// `serde_json::Value`, opaque here; `value_tree` names what it holds.
#[verifier::external_type_specification]
#[verifier::external_body]
pub struct ExValue(serde_json::Value);

/// `serde_json::Map`, opaque here; `object_members` names what it holds.
#[verifier::external_type_specification]
#[verifier::external_body]
#[verifier::reject_recursive_types(K)]
#[verifier::reject_recursive_types(V)]
pub struct ExMap<K, V>(serde_json::Map<K, V>);

/// The tree that a `serde_json::Value` holds.
pub uninterp spec fn value_tree(value: serde_json::Value) -> JsonTree;

/// The members that a `serde_json::Map` holds, by name.
pub uninterp spec fn object_members(
    object: serde_json::Map<String, serde_json::Value>,
) -> Map<Seq<char>, JsonTree>;

/// What `serde_json::from_str` makes of a text: a tree, or the words of its error.
pub uninterp spec fn parsed_json(text: Seq<char>) -> Result<JsonTree, Seq<char>>;

/// What `serde_json::to_string` makes of a value that holds this tree: a text, or the
/// words of its error.
pub uninterp spec fn rendered_json(tree: JsonTree) -> Result<Seq<char>, Seq<char>>;

/// The trees that values hold, one for one.
pub open spec fn trees(values: Seq<serde_json::Value>) -> Seq<JsonTree> {
    values.map_values(|value: serde_json::Value| value_tree(value))
}

/// The integer that a tree is, if it is one from zero to the largest 64-bit one.
pub open spec fn tree_u64(tree: JsonTree) -> Option<u64> {
    match tree {
        JsonTree::Number(JsonNumber::Unsigned(integer)) => Some(integer),
        _ => None,
    }
}

/// The double-precision bits of a tree that is a number.
pub open spec fn tree_double(tree: JsonTree) -> Option<u64> {
    match tree {
        JsonTree::Number(JsonNumber::Unsigned(integer)) => Some(
            crate::ieee::nearest_double(integer as int),
        ),
        JsonTree::Number(JsonNumber::Negative(integer)) => Some(
            crate::ieee::nearest_double(integer as int),
        ),
        JsonTree::Number(JsonNumber::Double(bits)) => Some(bits),
        _ => None,
    }
}

/// The text that a tree is, if it is one.
pub open spec fn tree_text(tree: JsonTree) -> Option<Seq<char>> {
    match tree {
        JsonTree::Text(text) => Some(text),
        _ => None,
    }
}

/// The elements of a tree that is an array.
pub open spec fn tree_array(tree: JsonTree) -> Option<Seq<JsonTree>> {
    match tree {
        JsonTree::Array(elements) => Some(elements),
        _ => None,
    }
}

/// The members of a tree that is an object.
pub open spec fn tree_object(tree: JsonTree) -> Option<Map<Seq<char>, JsonTree>> {
    match tree {
        JsonTree::Object(members) => Some(members),
        _ => None,
    }
}

/// The member of a name, if the object has one.
pub open spec fn member(members: Map<Seq<char>, JsonTree>, name: Seq<char>) -> Option<JsonTree> {
    if members.dom().contains(name) {
        Some(members[name])
    } else {
        None
    }
}

/// The unsigned integer that is the member of a name, if there is such a member.
pub open spec fn member_u64(members: Map<Seq<char>, JsonTree>, name: Seq<char>) -> Option<u64> {
    match member(members, name) {
        Some(tree) => tree_u64(tree),
        None => None,
    }
}

/// The text that is the member of a name, if there is such a member.
pub open spec fn member_text(members: Map<Seq<char>, JsonTree>, name: Seq<char>) -> Option<
    Seq<char>,
> {
    match member(members, name) {
        Some(tree) => tree_text(tree),
        None => None,
    }
}

/// The members of an empty object.
pub open spec fn no_members() -> Map<Seq<char>, JsonTree> {
    Map::empty()
}

/// The tree of an unsigned integer.
pub open spec fn integer_tree(integer: u64) -> JsonTree {
    JsonTree::Number(JsonNumber::Unsigned(integer))
}

/// `serde_json::from_str`: the value that the text describes, or the error's own words.
#[verifier::external_body]
pub(crate) fn json_parse(text: &str) -> (parsed: Result<serde_json::Value, String>)
    ensures
        match parsed {
            Ok(value) => parsed_json(text@) == Ok::<JsonTree, Seq<char>>(value_tree(value)),
            Err(message) => parsed_json(text@) == Err::<JsonTree, Seq<char>>(message@),
        },
{
    serde_json::from_str(text).map_err(|error| error.to_string())
}

/// `serde_json::to_string`: the text of a value, or the error's own words. It fails only where
/// a type's own `Serialize` fails or a map has keys that are not strings; no `Value` does.
#[verifier::external_body]
pub(crate) fn json_to_string(value: &serde_json::Value) -> (rendered: Result<String, String>)
    ensures
        crate::text::said_text(rendered) == rendered_json(value_tree(*value)),
        rendered is Ok,
{
    serde_json::to_string(value).map_err(|error| error.to_string())
}

/// `serde_json::Value::as_object`: the members of an object, and nothing of any other
/// value.
#[verifier::external_body]
pub(crate) fn json_as_object(value: &serde_json::Value) -> (object: Option<
    &serde_json::Map<String, serde_json::Value>,
>)
    ensures
        tree_object(value_tree(*value)) == (match object {
            Some(members) => Some(object_members(*members)),
            None => None::<Map<Seq<char>, JsonTree>>,
        }),
{
    value.as_object()
}

/// `serde_json::Value::as_array`: the elements of an array, and nothing of any other
/// value.
#[verifier::external_body]
pub(crate) fn json_as_array(value: &serde_json::Value) -> (array: Option<&Vec<serde_json::Value>>)
    ensures
        tree_array(value_tree(*value)) == (match array {
            Some(elements) => Some(trees(elements@)),
            None => None::<Seq<JsonTree>>,
        }),
{
    value.as_array()
}

/// `serde_json::Value::as_u64`: a number that is an integer from zero to the largest
/// 64-bit one.
#[verifier::external_body]
pub(crate) fn json_as_u64(value: &serde_json::Value) -> (integer: Option<u64>)
    ensures
        integer == tree_u64(value_tree(*value)),
{
    value.as_u64()
}

/// `serde_json::Value::as_f64`, as bits: the double-precision value of a number, which is
/// always finite. An integer is cast, and a cast goes to the nearest value, ties to even.
#[verifier::external_body]
pub(crate) fn json_as_double(value: &serde_json::Value) -> (bits: Option<u64>)
    ensures
        bits == (match value_tree(*value) {
            JsonTree::Number(JsonNumber::Unsigned(integer)) => Some(
                crate::ieee::nearest_double(integer as int),
            ),
            JsonTree::Number(JsonNumber::Negative(integer)) => Some(
                crate::ieee::nearest_double(integer as int),
            ),
            JsonTree::Number(JsonNumber::Double(double)) => Some(double),
            _ => None,
        }),
        bits matches Some(double) ==> crate::ieee::double_finite(double),
{
    value.as_f64().map(|double| double.to_bits())
}

/// `serde_json::Value::as_str`: the text of a string.
#[verifier::external_body]
pub(crate) fn json_as_str(value: &serde_json::Value) -> (text: Option<&str>)
    ensures
        tree_text(value_tree(*value)) == (match text {
            Some(slice) => Some(slice@),
            None => None::<Seq<char>>,
        }),
{
    value.as_str()
}

/// `serde_json::Map::keys`: every name of the object once, ascending. The map is a `BTreeMap`
/// with `String` keys, and strings are ordered by their UTF-8 bytes.
#[verifier::external_body]
pub(crate) fn json_keys(object: &serde_json::Map<String, serde_json::Value>) -> (keys: Vec<String>)
    ensures
        crate::text::ascending(crate::text::texts(keys@)),
        crate::text::texts(keys@).to_set() == object_members(*object).dom(),
{
    object.keys().cloned().collect()
}

/// `serde_json::Map::len`: the number of members.
#[verifier::external_body]
pub(crate) fn json_len(object: &serde_json::Map<String, serde_json::Value>) -> (count: usize)
    ensures
        count == object_members(*object).dom().len(),
{
    object.len()
}

/// `serde_json::Map::get`: the member of that name, if there is one.
#[verifier::external_body]
pub(crate) fn json_get<'a>(
    object: &'a serde_json::Map<String, serde_json::Value>,
    key: &str,
) -> (found: Option<&'a serde_json::Value>)
    ensures
        member(object_members(*object), key@) == (match found {
            Some(value) => Some(value_tree(*value)),
            None => None::<JsonTree>,
        }),
{
    object.get(key)
}

/// `serde_json::Map::clone`: an object with the same members.
#[verifier::external_body]
pub(crate) fn json_clone(object: &serde_json::Map<String, serde_json::Value>) -> (copy:
    serde_json::Map<String, serde_json::Value>)
    ensures
        object_members(copy) == object_members(*object),
{
    object.clone()
}

/// `serde_json::Map::new`: an object without members.
#[verifier::external_body]
pub(crate) fn json_new() -> (object: serde_json::Map<String, serde_json::Value>)
    ensures
        object_members(object) == no_members(),
{
    serde_json::Map::new()
}

/// `serde_json::Map::insert`: gives the member of that name that value, and leaves the
/// others as they are.
#[verifier::external_body]
pub(crate) fn json_insert(
    object: &mut serde_json::Map<String, serde_json::Value>,
    key: &str,
    value: serde_json::Value,
)
    ensures
        object_members(*final(object)) == object_members(*old(object)).insert(
            key@,
            value_tree(value),
        ),
{
    object.insert(key.to_owned(), value);
}

/// `serde_json::Value::Object`: the value of an object.
#[verifier::external_body]
pub(crate) fn json_object(object: serde_json::Map<String, serde_json::Value>) -> (value:
    serde_json::Value)
    ensures
        value_tree(value) == JsonTree::Object(object_members(object)),
{
    serde_json::Value::Object(object)
}

/// `serde_json::Value::Array`: the value of an array.
#[verifier::external_body]
pub(crate) fn json_array(elements: Vec<serde_json::Value>) -> (value: serde_json::Value)
    ensures
        value_tree(value) == JsonTree::Array(trees(elements@)),
{
    serde_json::Value::Array(elements)
}

/// `serde_json::Value::from` on a `u64`.
#[verifier::external_body]
pub(crate) fn json_unsigned(integer: u64) -> (value: serde_json::Value)
    ensures
        value_tree(value) == integer_tree(integer),
{
    serde_json::Value::from(integer)
}

/// `serde_json::Value::from` on a `bool`.
#[verifier::external_body]
pub(crate) fn json_bool(truth: bool) -> (value: serde_json::Value)
    ensures
        value_tree(value) == JsonTree::Bool(truth),
{
    serde_json::Value::from(truth)
}

/// `serde_json::Value::from` on a string slice.
#[verifier::external_body]
pub(crate) fn json_text(text: &str) -> (value: serde_json::Value)
    ensures
        value_tree(value) == JsonTree::Text(text@),
{
    serde_json::Value::from(text)
}

/// `serde_json::Number::from_f64` on a finite value, given and kept as bits.
#[verifier::external_body]
pub(crate) fn json_double(bits: u64) -> (value: serde_json::Value)
    requires
        crate::ieee::double_finite(bits),
    ensures
        value_tree(value) == JsonTree::Number(JsonNumber::Double(bits)),
{
    serde_json::Value::from(serde_json::Number::from_f64(bytemuck::cast(bits)))
}

/// The unsigned integer that is the member of a name, if there is such a member.
pub fn get_u64(object: &serde_json::Map<String, serde_json::Value>, key: &str) -> (found: Option<
    u64,
>)
    ensures
        found == member_u64(object_members(*object), key@),
{
    match json_get(object, key) {
        Some(value) => json_as_u64(value),
        None => None,
    }
}

/// The text that is the member of a name, if there is such a member.
pub fn get_str<'a>(
    object: &'a serde_json::Map<String, serde_json::Value>,
    key: &str,
) -> (found: Option<&'a str>)
    ensures
        member_text(object_members(*object), key@) == (match found {
            Some(slice) => Some(slice@),
            None => None::<Seq<char>>,
        }),
{
    match json_get(object, key) {
        Some(value) => json_as_str(value),
        None => None,
    }
}

/// Whether a name is a member that is not a known one, and comes before all others of these.
pub open spec fn is_first_unknown(
    members: Map<Seq<char>, JsonTree>,
    known: Seq<Seq<char>>,
    key: Seq<char>,
) -> bool {
    &&& members.dom().contains(key)
    &&& !known.contains(key)
    &&& forall|other: Seq<char>| #[trigger]
        members.dom().contains(other) && !known.contains(other) && other != key
            ==> crate::text::text_before(key, other)
}

/// The first name of an object, in the order of their UTF-8 bytes, that is not a known one.
pub open spec fn first_unknown(
    members: Map<Seq<char>, JsonTree>,
    known: Seq<Seq<char>>,
) -> Option<Seq<char>> {
    if members.dom().subset_of(known.to_set()) {
        None
    } else {
        Some(choose|key: Seq<char>| is_first_unknown(members, known, key))
    }
}

/// The first known name that is not a member.
pub open spec fn first_missing(known: Seq<Seq<char>>, members: Map<Seq<char>, JsonTree>) -> Option<
    Seq<char>,
>
    decreases known.len(),
{
    if known.len() == 0 {
        None
    } else if !members.dom().contains(known[0]) {
        Some(known[0])
    } else {
        first_missing(known.drop_first(), members)
    }
}

/// There is one first unknown name at most.
proof fn lemma_first_unknown(
    members: Map<Seq<char>, JsonTree>,
    known: Seq<Seq<char>>,
    key: Seq<char>,
)
    requires
        is_first_unknown(members, known, key),
    ensures
        first_unknown(members, known) == Some(key),
{
    assert(!known.to_set().contains(key));
    let chosen = choose|key: Seq<char>| is_first_unknown(members, known, key);
    assert(is_first_unknown(members, known, chosen));
    if chosen != key {
        crate::text::lemma_text_before_is_strict(chosen, key);
    }
}

/// No known name is missing where all of them are members; otherwise the first missing one is a
/// known name that is no member.
pub proof fn lemma_first_missing(known: Seq<Seq<char>>, members: Map<Seq<char>, JsonTree>)
    ensures
        first_missing(known, members) is None <==> known.to_set().subset_of(members.dom()),
        first_missing(known, members) matches Some(key) ==> known.contains(key)
            && !members.dom().contains(key),
    decreases known.len(),
{
    if known.len() > 0 {
        let rest = known.drop_first();
        lemma_first_missing(rest, members);
        assert(known.to_set().contains(known[0]));
        assert forall|key: Seq<char>| rest.contains(key) implies known.contains(key) by {
            let i = choose|i: int| 0 <= i < rest.len() && rest[i] == key;
            assert(known[i + 1] == key);
        }
        assert forall|key: Seq<char>| known.contains(key) implies key == known[0]
            || rest.contains(key) by {
            let i = choose|i: int| 0 <= i < known.len() && known[i] == key;
            if i > 0 {
                assert(rest[i - 1] == key);
            }
        }
        if first_missing(known, members) is None {
            assert forall|key: Seq<char>| known.to_set().contains(key) implies members.dom()
                .contains(key) by {
                assert(key == known[0] || rest.to_set().contains(key));
            }
        } else if known.to_set().subset_of(members.dom()) {
            assert forall|key: Seq<char>| rest.to_set().contains(key) implies members.dom()
                .contains(key) by {
                assert(known.to_set().contains(key));
            }
        }
    }
}

/// The first name of an object that is not a known one.
pub fn unknown_key(object: &serde_json::Map<String, serde_json::Value>, known: &[&str]) -> (found:
    Option<String>)
    ensures
        (match found {
            Some(key) => Some(key@),
            None => None::<Seq<char>>,
        }) == first_unknown(object_members(*object), crate::text::names(known@)),
        found is None <==> object_members(*object).dom().subset_of(
            crate::text::names(known@).to_set(),
        ),
        found matches Some(key) ==> is_first_unknown(
            object_members(*object),
            crate::text::names(known@),
            key@,
        ),
{
    let keys: Vec<String> = json_keys(object);
    let ghost order = crate::text::texts(keys@);
    let ghost allowed = crate::text::names(known@);
    let ghost members = object_members(*object);
    let mut index: usize = 0;
    while index < keys.len()
        invariant
            index <= keys.len(),
            order == crate::text::texts(keys@),
            order.to_set() == members.dom(),
            crate::text::ascending(order),
            members == object_members(*object),
            allowed == crate::text::names(known@),
            forall|i: int| 0 <= i < index ==> allowed.contains(#[trigger] order[i]),
        decreases keys.len() - index,
    {
        let key: &str = keys[index].as_str();
        assert(order[index as int] == key@);
        if !crate::text::listed(known, key) {
            proof {
                assert(order.to_set().contains(key@));
                assert forall|other: Seq<char>| #[trigger]
                    members.dom().contains(other) && !allowed.contains(other) && other
                        != key@ implies crate::text::text_before(key@, other) by {
                    assert(order.to_set().contains(other));
                    let i = choose|i: int| 0 <= i < order.len() && order[i] == other;
                    assert(index < i);
                }
                lemma_first_unknown(members, allowed, key@);
                assert(!allowed.to_set().contains(key@));
            }
            return Some(key.to_owned());
        }
        index += 1;
    }
    assert(members.dom().subset_of(allowed.to_set())) by {
        assert forall|key: Seq<char>| members.dom().contains(key) implies allowed.to_set()
            .contains(key) by {
            assert(order.to_set().contains(key));
            let i = choose|i: int| 0 <= i < order.len() && order[i] == key;
            assert(allowed.contains(order[i]));
        }
    }
    None
}

/// The first of the known names that an object lacks.
pub fn missing_key<'a>(
    object: &serde_json::Map<String, serde_json::Value>,
    known: &[&'a str],
) -> (found: Option<&'a str>)
    ensures
        (match found {
            Some(key) => Some(key@),
            None => None::<Seq<char>>,
        }) == first_missing(crate::text::names(known@), object_members(*object)),
        found is None <==> crate::text::names(known@).to_set().subset_of(
            object_members(*object).dom(),
        ),
        found matches Some(key) ==> !object_members(*object).dom().contains(key@)
            && crate::text::names(known@).contains(key@),
{
    let ghost wanted = crate::text::names(known@);
    let ghost members = object_members(*object);
    proof {
        lemma_first_missing(wanted, members);
    }
    let mut index: usize = 0;
    assert(wanted.subrange(0, wanted.len() as int) =~= wanted);
    while index < known.len()
        invariant
            index <= known.len(),
            wanted == crate::text::names(known@),
            members == object_members(*object),
            first_missing(wanted, members) is None <==> wanted.to_set().subset_of(members.dom()),
            first_missing(wanted, members) matches Some(key) ==> wanted.contains(key)
                && !members.dom().contains(key),
            first_missing(wanted, members) == first_missing(
                wanted.subrange(index as int, wanted.len() as int),
                members,
            ),
        decreases known.len() - index,
    {
        let ghost rest = wanted.subrange(index as int, wanted.len() as int);
        assert(rest.drop_first() =~= wanted.subrange(index + 1, wanted.len() as int));
        if json_get(object, known[index]).is_none() {
            return Some(known[index]);
        }
        index += 1;
    }
    None
}

} // verus!
