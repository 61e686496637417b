//! Session descriptors: the JSON that a session is begun with.

use crate::family::{
    family_noun, DecoderPins, Family, PINNED_VOCAB_SIZE,
};
use crate::json::{
    json_as_array, json_as_double, json_as_object, json_as_u64, json_get, json_parse,
    unknown_key, JsonTree, Members,
};
use crate::pack_descriptor::geometry_pins;
use crate::text::{join2, join3, join4};
use vstd::prelude::*;

verus! {

/// The start of every message about a session descriptor.
pub open spec fn descriptor_noun(family: Family) -> Seq<char> {
    "invalid "@ + crate::family::noun(family) + " session descriptor"@
}

fn descriptor_subject(family: Family) -> (subject: String)
    ensures
        subject@ == descriptor_noun(family),
{
    join3("invalid ", family_noun(family), " session descriptor")
}

/// The 32-bit integer of a name, or the message that there is none.
pub open spec fn field_outcome(family: Family, members: Members, key: Seq<char>) -> Result<
    u32,
    Seq<char>,
> {
    let subject = descriptor_noun(family);
    match crate::json::member(members, key) {
        None => Err(subject + ": missing field "@ + key),
        Some(tree) => match crate::json::tree_u64(tree) {
            None => Err(subject + ": field "@ + key + " must be an unsigned integer"@),
            Some(integer) => if integer > u32::MAX {
                Err(subject + ": field "@ + key + " is out of range"@)
            } else {
                Ok(integer as u32)
            },
        },
    }
}

/// The 32-bit integer of a name.
pub fn required_descriptor_u32(
    family: Family,
    object: &serde_json::Map<String, serde_json::Value>,
    key: &str,
) -> (field: Result<u32, String>)
    ensures
        crate::text::said(field) == field_outcome(
            family,
            crate::json::object_members(*object),
            key@,
        ),
{
    let subject: String = descriptor_subject(family);
    match json_get(object, key) {
        None => Err(join3(subject.as_str(), ": missing field ", key)),
        Some(value) => match json_as_u64(value) {
            None => Err(join4(subject.as_str(), ": field ", key, " must be an unsigned integer")),
            Some(integer) => if integer > u32::MAX as u64 {
                Err(join4(subject.as_str(), ": field ", key, " is out of range"))
            } else {
                Ok(integer as u32)
            },
        },
    }
}

/// The 32-bit integer of a name that may be missing, and is zero then.
pub open spec fn optional_outcome(family: Family, members: Members, key: Seq<char>) -> Result<
    u32,
    Seq<char>,
> {
    if members.dom().contains(key) {
        field_outcome(family, members, key)
    } else {
        Ok(0)
    }
}

/// The 32-bit integer of a name that may be missing, and is zero then.
pub fn optional_descriptor_u32(
    family: Family,
    object: &serde_json::Map<String, serde_json::Value>,
    key: &str,
) -> (field: Result<u32, String>)
    ensures
        crate::text::said(field) == optional_outcome(
            family,
            crate::json::object_members(*object),
            key@,
        ),
{
    match json_get(object, key) {
        Some(_) => required_descriptor_u32(family, object, key),
        None => Ok(0),
    }
}

/// The members of a descriptor, or why the text is refused.
pub open spec fn root_outcome(
    family: Family,
    parsed: Result<JsonTree, Seq<char>>,
) -> Result<Members, Seq<char>> {
    match parsed {
        Err(message) => Err(descriptor_noun(family) + " json: "@ + message),
        Ok(tree) => match crate::json::tree_object(tree) {
            None => Err(descriptor_noun(family) + ": expected an object"@),
            Some(members) => Ok(members),
        },
    }
}

fn parse_root(family: Family, json: &str) -> (value: Result<serde_json::Value, String>)
    ensures
        match value {
            Ok(found) => crate::json::parsed_json(json@) == Ok::<JsonTree, Seq<char>>(
                crate::json::value_tree(found),
            ),
            Err(message) => root_outcome(family, crate::json::parsed_json(json@)) == Err::<
                Members,
                Seq<char>,
            >(message@),
        },
{
    match json_parse(json) {
        Ok(value) => Ok(value),
        Err(message) => Err(
            join3(descriptor_subject(family).as_str(), " json: ", message.as_str()),
        ),
    }
}

fn root_object(family: Family, value: &serde_json::Value) -> (object: Result<
    &serde_json::Map<String, serde_json::Value>,
    String,
>)
    ensures
        (match object {
            Ok(found) => Ok(crate::json::object_members(*found)),
            Err(message) => Err(message@),
        }) == root_outcome(
            family,
            Ok::<JsonTree, Seq<char>>(crate::json::value_tree(*value)),
        ),
{
    match json_as_object(value) {
        Some(object) => Ok(object),
        None => Err(join2(descriptor_subject(family).as_str(), ": expected an object")),
    }
}

/// Whether members have all names of one list, and none that is not in the other.
pub open spec fn names_between(
    members: Members,
    required: Seq<Seq<char>>,
    allowed: Seq<Seq<char>>,
) -> bool {
    required.to_set().subset_of(members.dom()) && members.dom().subset_of(allowed.to_set())
}

/// Whether a message refuses a member whose name is not a known one.
pub open spec fn names_unknown(
    family: Family,
    members: Members,
    fields: Seq<Seq<char>>,
    message: Seq<char>,
) -> bool {
    exists|key: Seq<char>|
        #[trigger] members.dom().contains(key) && !fields.contains(key) && message
            == descriptor_noun(family) + ": unknown field "@ + key
}

/// Whether a parsed descriptor is an object that has all names of one list, and none that is not
/// in the other.
pub open spec fn document_named(
    parsed: Result<JsonTree, Seq<char>>,
    required: Seq<Seq<char>>,
    allowed: Seq<Seq<char>>,
) -> bool {
    match parsed {
        Err(_) => false,
        Ok(tree) => match crate::json::tree_object(tree) {
            None => false,
            Some(members) => names_between(members, required, allowed),
        },
    }
}

/// What is wrong with the names and the schema version of a descriptor.
pub open spec fn schema_complaint(
    family: Family,
    members: Members,
    fields: Seq<Seq<char>>,
) -> Option<Seq<char>> {
    match crate::json::first_unknown(members, fields) {
        Some(key) => Some(descriptor_noun(family) + ": unknown field "@ + key),
        None => match field_outcome(family, members, "schema_version"@) {
            Err(message) => Some(message),
            Ok(version) => if version != 1 {
                Some(descriptor_noun(family) + " schema version"@)
            } else {
                None
            },
        },
    }
}

fn require_schema(
    family: Family,
    object: &serde_json::Map<String, serde_json::Value>,
    fields: &[&str],
) -> (outcome: Result<(), String>)
    ensures
        crate::text::complaint(outcome) == schema_complaint(
            family,
            crate::json::object_members(*object),
            crate::text::names(fields@),
        ),
        outcome is Ok ==> crate::json::object_members(*object).dom().subset_of(
            crate::text::names(fields@).to_set(),
        ),
        !crate::json::object_members(*object).dom().subset_of(crate::text::names(fields@).to_set())
            ==> (outcome matches Err(message) && names_unknown(
            family,
            crate::json::object_members(*object),
            crate::text::names(fields@),
            message@,
        )),
{
    if let Some(key) = unknown_key(object, fields) {
        return Err(join3(descriptor_subject(family).as_str(), ": unknown field ", key.as_str()));
    }
    let version: u32 = required_descriptor_u32(family, object, "schema_version")?;
    if version != 1 {
        return Err(join2(descriptor_subject(family).as_str(), " schema version"));
    }
    Ok(())
}

/// What a key/value session descriptor says.
#[derive(Clone, Copy, Debug)]
pub struct KvDescriptor {
    pub query_heads: u32,
    pub key_value_heads: u32,
    pub head_dim: u32,
    pub prefix_tokens: u32,
    pub cache_capacity: u32,
}

/// The names that a key/value session descriptor has.
pub open spec fn kv_fields() -> Seq<Seq<char>> {
    seq![
        "schema_version"@,
        "query_heads"@,
        "key_value_heads"@,
        "head_dim"@,
        "prefix_tokens"@,
        "cache_capacity"@,
    ]
}

/// What the members of a key/value session descriptor say, or why they are refused.
pub open spec fn kv_members_outcome(members: Members) -> Result<KvDescriptor, Seq<char>> {
    let family = Family::Kv;
    match schema_complaint(family, members, kv_fields()) {
        Some(message) => Err(message),
        None => match field_outcome(family, members, "query_heads"@) {
            Err(message) => Err(message),
            Ok(query_heads) => match field_outcome(family, members, "key_value_heads"@) {
                Err(message) => Err(message),
                Ok(key_value_heads) => match field_outcome(family, members, "head_dim"@) {
                    Err(message) => Err(message),
                    Ok(head_dim) => match field_outcome(family, members, "prefix_tokens"@) {
                        Err(message) => Err(message),
                        Ok(prefix_tokens) => match field_outcome(
                            family,
                            members,
                            "cache_capacity"@,
                        ) {
                            Err(message) => Err(message),
                            Ok(cache_capacity) => Ok(
                                KvDescriptor {
                                    query_heads,
                                    key_value_heads,
                                    head_dim,
                                    prefix_tokens,
                                    cache_capacity,
                                },
                            ),
                        },
                    },
                },
            },
        },
    }
}

/// What a parsed key/value session descriptor says, or why it is refused.
pub open spec fn kv_outcome(parsed: Result<JsonTree, Seq<char>>) -> Result<
    KvDescriptor,
    Seq<char>,
> {
    match root_outcome(Family::Kv, parsed) {
        Err(message) => Err(message),
        Ok(members) => kv_members_outcome(members),
    }
}

/// Reads a key/value session descriptor from its JSON object.
pub fn decoder_descriptor_from(object: &serde_json::Map<String, serde_json::Value>) -> (descriptor:
    Result<KvDescriptor, String>)
    ensures
        crate::text::said(descriptor) == kv_members_outcome(crate::json::object_members(*object)),
        descriptor is Ok ==> crate::json::object_members(*object).dom() == kv_fields().to_set(),
        !crate::json::object_members(*object).dom().subset_of(kv_fields().to_set())
            ==> (descriptor matches Err(message) && names_unknown(
            Family::Kv,
            crate::json::object_members(*object),
            kv_fields(),
            message@,
        )),
{
    let family: Family = Family::Kv;
    let fields: Vec<&str> = vec![
        "schema_version",
        "query_heads",
        "key_value_heads",
        "head_dim",
        "prefix_tokens",
        "cache_capacity",
    ];
    assert(crate::text::names(fields@) =~= kv_fields());
    require_schema(family, object, fields.as_slice())?;
    let query_heads: u32 = required_descriptor_u32(family, object, "query_heads")?;
    let key_value_heads: u32 = required_descriptor_u32(family, object, "key_value_heads")?;
    let head_dim: u32 = required_descriptor_u32(family, object, "head_dim")?;
    let prefix_tokens: u32 = required_descriptor_u32(family, object, "prefix_tokens")?;
    let cache_capacity: u32 = required_descriptor_u32(family, object, "cache_capacity")?;
    assert(crate::json::object_members(*object).dom() =~= kv_fields().to_set());
    Ok(KvDescriptor { query_heads, key_value_heads, head_dim, prefix_tokens, cache_capacity })
}

/// Reads a key/value session descriptor from its text.
pub fn parse_decoder_descriptor_json(json: &str) -> (descriptor: Result<KvDescriptor, String>)
    ensures
        crate::text::said(descriptor) == kv_outcome(crate::json::parsed_json(json@)),
        descriptor is Ok ==> document_named(
            crate::json::parsed_json(json@),
            kv_fields(),
            kv_fields(),
        ),
{
    let value: serde_json::Value = parse_root(Family::Kv, json)?;
    let object: &serde_json::Map<String, serde_json::Value> = root_object(Family::Kv, &value)?;
    decoder_descriptor_from(object)
}

/// The first pinned field, from one on, that is missing or no 32-bit integer.
pub open spec fn unreadable_from(
    family: Family,
    members: Members,
    geometry: Seq<(Seq<char>, u32)>,
    index: int,
) -> Option<Seq<char>>
    decreases geometry.len() - index,
{
    if index >= geometry.len() {
        None
    } else {
        match field_outcome(family, members, geometry[index].0) {
            Err(message) => Some(message),
            Ok(_) => unreadable_from(family, members, geometry, index + 1),
        }
    }
}

/// The first pinned field, from one on, that has another value than the pinned one.
pub open spec fn drifted_from(
    family: Family,
    members: Members,
    geometry: Seq<(Seq<char>, u32)>,
    index: int,
) -> Option<Seq<char>>
    decreases geometry.len() - index,
{
    if index >= geometry.len() {
        None
    } else if field_outcome(family, members, geometry[index].0) != Ok::<u32, Seq<char>>(
        geometry[index].1,
    ) {
        Some(
            descriptor_noun(family) + " geometry: field "@ + geometry[index].0
                + " drifted from the pinned decoder value"@,
        )
    } else {
        drifted_from(family, members, geometry, index + 1)
    }
}

/// What is wrong with the geometry of a descriptor: all fields are read before any is
/// compared.
pub open spec fn geometry_complaint(
    family: Family,
    members: Members,
    geometry: Seq<(Seq<char>, u32)>,
) -> Option<Seq<char>> {
    crate::text::earlier(
        unreadable_from(family, members, geometry, 0),
        drifted_from(family, members, geometry, 0),
    )
}

/// Readable fields are members.
proof fn lemma_readable_fields(
    family: Family,
    members: Members,
    geometry: Seq<(Seq<char>, u32)>,
    index: int,
    place: int,
)
    requires
        0 <= index <= place < geometry.len(),
        unreadable_from(family, members, geometry, index) is None,
    ensures
        members.dom().contains(geometry[place].0),
    decreases place - index,
{
    if index < place {
        lemma_readable_fields(family, members, geometry, index + 1, place);
    }
}

fn require_readable(
    family: Family,
    object: &serde_json::Map<String, serde_json::Value>,
    geometry: &Vec<(&'static str, u32)>,
) -> (outcome: Result<(), String>)
    ensures
        crate::text::complaint(outcome) == unreadable_from(
            family,
            crate::json::object_members(*object),
            crate::pack_descriptor::named_values(geometry@),
            0,
        ),
{
    let ghost model = crate::pack_descriptor::named_values(geometry@);
    let ghost members = crate::json::object_members(*object);
    let mut index: usize = 0;
    while index < geometry.len()
        invariant
            index <= geometry.len(),
            model == crate::pack_descriptor::named_values(geometry@),
            members == crate::json::object_members(*object),
            unreadable_from(family, members, model, 0) == unreadable_from(
                family,
                members,
                model,
                index as int,
            ),
        decreases geometry.len() - index,
    {
        assert(model[index as int] == (geometry@[index as int].0@, geometry@[index as int].1));
        required_descriptor_u32(family, object, geometry[index].0)?;
        index += 1;
    }
    Ok(())
}

fn require_pinned(
    family: Family,
    object: &serde_json::Map<String, serde_json::Value>,
    geometry: &Vec<(&'static str, u32)>,
) -> (outcome: Result<(), String>)
    ensures
        crate::text::complaint(outcome) == drifted_from(
            family,
            crate::json::object_members(*object),
            crate::pack_descriptor::named_values(geometry@),
            0,
        ),
{
    let ghost model = crate::pack_descriptor::named_values(geometry@);
    let ghost members = crate::json::object_members(*object);
    let mut index: usize = 0;
    while index < geometry.len()
        invariant
            index <= geometry.len(),
            model == crate::pack_descriptor::named_values(geometry@),
            members == crate::json::object_members(*object),
            drifted_from(family, members, model, 0) == drifted_from(
                family,
                members,
                model,
                index as int,
            ),
        decreases geometry.len() - index,
    {
        let field: &'static str = geometry[index].0;
        let pinned: u32 = geometry[index].1;
        assert(model[index as int] == (field@, pinned));
        let holds: bool = match required_descriptor_u32(family, object, field) {
            Ok(actual) => actual == pinned,
            Err(_) => false,
        };
        if !holds {
            return Err(
                join4(
                    descriptor_subject(family).as_str(),
                    " geometry: field ",
                    field,
                    " drifted from the pinned decoder value",
                ),
            );
        }
        index += 1;
    }
    Ok(())
}

fn require_geometry(
    family: Family,
    object: &serde_json::Map<String, serde_json::Value>,
    pins: &DecoderPins,
) -> (outcome: Result<(), String>)
    ensures
        crate::text::complaint(outcome) == geometry_complaint(
            family,
            crate::json::object_members(*object),
            crate::pack_descriptor::pinned_geometry(family, *pins),
        ),
        outcome is Ok ==> forall|i: int|
            0 <= i < crate::pack_descriptor::pinned_geometry(family, *pins).len()
                ==> crate::json::object_members(*object).dom().contains(
                (#[trigger] crate::pack_descriptor::pinned_geometry(family, *pins)[i]).0,
            ),
{
    let geometry: Vec<(&'static str, u32)> = geometry_pins(family, pins);
    require_readable(family, object, &geometry)?;
    proof {
        let model = crate::pack_descriptor::pinned_geometry(family, *pins);
        let members = crate::json::object_members(*object);
        assert forall|i: int| 0 <= i < model.len() implies members.dom().contains(
            (#[trigger] model[i]).0,
        ) by {
            lemma_readable_fields(family, members, model, 0, i);
        }
    }
    require_pinned(family, object, &geometry)
}

/// What is said of M-RoPE sections that are not the pinned ones.
pub open spec fn sections_drift(family: Family) -> Seq<char> {
    descriptor_noun(family) + ": mrope_sections drifted from the pinned [16, 24, 24]"@
}

/// What is wrong with the M-RoPE sections from one of them on.
pub open spec fn sections_complaint_from(
    family: Family,
    sections: Seq<JsonTree>,
    pins: DecoderPins,
    index: int,
) -> Option<Seq<char>>
    decreases 3 - index,
{
    if index >= 3 {
        None
    } else {
        match crate::json::tree_u64(sections[index]) {
            None => Some(
                descriptor_noun(family) + ": mrope_sections entries must be unsigned integers"@,
            ),
            Some(actual) => if actual != pins.mrope_sections@[index] {
                Some(sections_drift(family))
            } else {
                sections_complaint_from(family, sections, pins, index + 1)
            },
        }
    }
}

/// What is wrong with the M-RoPE sections of a descriptor.
pub open spec fn mrope_complaint(family: Family, members: Members, pins: DecoderPins) -> Option<
    Seq<char>,
> {
    match crate::json::member(members, "mrope_sections"@) {
        None => Some(descriptor_noun(family) + ": missing field mrope_sections"@),
        Some(tree) => match crate::json::tree_array(tree) {
            None => Some(descriptor_noun(family) + ": field mrope_sections must be an array"@),
            Some(sections) => if sections.len() != 3 {
                Some(sections_drift(family))
            } else {
                sections_complaint_from(family, sections, pins, 0)
            },
        },
    }
}

/// Requires a descriptor to have the pinned M-RoPE sections.
pub fn require_descriptor_mrope_sections(
    family: Family,
    object: &serde_json::Map<String, serde_json::Value>,
    pins: &DecoderPins,
) -> (outcome: Result<(), String>)
    ensures
        crate::text::complaint(outcome) == mrope_complaint(
            family,
            crate::json::object_members(*object),
            *pins,
        ),
{
    let subject: String = descriptor_subject(family);
    let value: &serde_json::Value = match json_get(object, "mrope_sections") {
        Some(value) => value,
        None => {
            return Err(join2(subject.as_str(), ": missing field mrope_sections"));
        },
    };
    let sections: &Vec<serde_json::Value> = match json_as_array(value) {
        Some(sections) => sections,
        None => {
            return Err(join2(subject.as_str(), ": field mrope_sections must be an array"));
        },
    };
    if sections.len() != 3 {
        return Err(
            join2(subject.as_str(), ": mrope_sections drifted from the pinned [16, 24, 24]"),
        );
    }
    let ghost array = crate::json::trees(sections@);
    let mut index: usize = 0;
    while index < 3
        invariant
            index <= 3,
            sections.len() == 3,
            array == crate::json::trees(sections@),
            subject@ == descriptor_noun(family),
            mrope_complaint(family, crate::json::object_members(*object), *pins)
                == sections_complaint_from(family, array, *pins, index as int),
        decreases 3 - index,
    {
        assert(array[index as int] == crate::json::value_tree(sections@[index as int]));
        match json_as_u64(&sections[index]) {
            None => {
                return Err(
                    join2(
                        subject.as_str(),
                        ": mrope_sections entries must be unsigned integers",
                    ),
                );
            },
            Some(actual) => {
                if actual != pins.mrope_sections[index] as u64 {
                    return Err(
                        join2(
                            subject.as_str(),
                            ": mrope_sections drifted from the pinned [16, 24, 24]",
                        ),
                    );
                }
            },
        }
        index += 1;
    }
    Ok(())
}

/// The single-precision bits of the RMS-norm epsilon of a descriptor, or why it is refused.
pub open spec fn epsilon_outcome(family: Family, members: Members, pins: DecoderPins) -> Result<
    u32,
    Seq<char>,
> {
    match crate::json::member(members, "rms_norm_epsilon"@) {
        None => Err(descriptor_noun(family) + ": missing field rms_norm_epsilon"@),
        Some(tree) => match crate::json::tree_double(tree) {
            None => Err(descriptor_noun(family) + ": field rms_norm_epsilon must be a number"@),
            Some(bits) => if !crate::ieee::single_equal(
                crate::ieee::narrowed(bits),
                pins.rms_norm_epsilon,
            ) {
                Err(
                    descriptor_noun(family)
                        + ": rms_norm_epsilon drifted from the pinned decoder value"@,
                )
            } else {
                Ok(crate::ieee::narrowed(bits))
            },
        },
    }
}

/// The single-precision bits of the RMS-norm epsilon of a descriptor.
pub fn required_descriptor_epsilon(
    family: Family,
    object: &serde_json::Map<String, serde_json::Value>,
    pins: &DecoderPins,
) -> (epsilon: Result<u32, String>)
    ensures
        crate::text::said(epsilon) == epsilon_outcome(
            family,
            crate::json::object_members(*object),
            *pins,
        ),
{
    let subject: String = descriptor_subject(family);
    match json_get(object, "rms_norm_epsilon") {
        None => Err(join2(subject.as_str(), ": missing field rms_norm_epsilon")),
        Some(value) => match json_as_double(value) {
            None => Err(join2(subject.as_str(), ": field rms_norm_epsilon must be a number")),
            Some(bits) => {
                let epsilon: u32 = crate::ieee::narrow(bits);
                if crate::ieee::single_equals(epsilon, pins.rms_norm_epsilon) {
                    Ok(epsilon)
                } else {
                    Err(
                        join2(
                            subject.as_str(),
                            ": rms_norm_epsilon drifted from the pinned decoder value",
                        ),
                    )
                }
            },
        },
    }
}

/// What a layer session descriptor says; its geometry is the pinned one.
#[derive(Clone, Copy, Debug)]
pub struct LayerDescriptor {
    pub hidden_size: u32,
    pub query_heads: u32,
    pub key_value_heads: u32,
    pub head_dim: u32,
    pub prefix_tokens: u32,
    pub cache_capacity: u32,
    /// The single-precision bits of the RMS-norm epsilon.
    pub rms_norm_epsilon: u32,
}

/// The names that a layer session descriptor has.
pub open spec fn layer_fields() -> Seq<Seq<char>> {
    seq![
        "schema_version"@,
        "hidden_size"@,
        "query_heads"@,
        "key_value_heads"@,
        "head_dim"@,
        "query_width"@,
        "key_value_width"@,
        "prefix_tokens"@,
        "cache_capacity"@,
        "mrope_sections"@,
        "rms_norm_epsilon"@,
    ]
}

/// What is wrong with what a descriptor shares with the pinned decoder.
pub open spec fn pinned_complaint(
    family: Family,
    members: Members,
    fields: Seq<Seq<char>>,
    pins: DecoderPins,
) -> Option<Seq<char>> {
    crate::text::earlier(
        schema_complaint(family, members, fields),
        crate::text::earlier(
            geometry_complaint(
                family,
                members,
                crate::pack_descriptor::pinned_geometry(family, pins),
            ),
            mrope_complaint(family, members, pins),
        ),
    )
}

/// What the members of a layer session descriptor say, or why they are refused.
pub open spec fn layer_members_outcome(members: Members, pins: DecoderPins) -> Result<
    LayerDescriptor,
    Seq<char>,
> {
    let family = Family::Layer;
    match pinned_complaint(family, members, layer_fields(), pins) {
        Some(message) => Err(message),
        None => match epsilon_outcome(family, members, pins) {
            Err(message) => Err(message),
            Ok(rms_norm_epsilon) => match field_outcome(family, members, "prefix_tokens"@) {
                Err(message) => Err(message),
                Ok(prefix_tokens) => match field_outcome(family, members, "cache_capacity"@) {
                    Err(message) => Err(message),
                    Ok(cache_capacity) => Ok(
                        LayerDescriptor {
                            hidden_size: pins.hidden_size,
                            query_heads: pins.query_heads,
                            key_value_heads: pins.key_value_heads,
                            head_dim: pins.head_dim,
                            prefix_tokens,
                            cache_capacity,
                            rms_norm_epsilon,
                        },
                    ),
                },
            },
        },
    }
}

/// What a parsed layer session descriptor says, or why it is refused.
pub open spec fn layer_outcome(
    parsed: Result<JsonTree, Seq<char>>,
    pins: DecoderPins,
) -> Result<LayerDescriptor, Seq<char>> {
    match root_outcome(Family::Layer, parsed) {
        Err(message) => Err(message),
        Ok(members) => layer_members_outcome(members, pins),
    }
}

/// With the pinned fields and those that are read, a layer session descriptor has all names.
proof fn lemma_layer_names(members: Members, pins: DecoderPins)
    requires
        members.dom().subset_of(layer_fields().to_set()),
        forall|i: int|
            0 <= i < crate::pack_descriptor::pinned_geometry(Family::Layer, pins).len()
                ==> members.dom().contains(
                (#[trigger] crate::pack_descriptor::pinned_geometry(Family::Layer, pins)[i]).0,
            ),
        members.dom().contains("schema_version"@),
        members.dom().contains("prefix_tokens"@),
        members.dom().contains("cache_capacity"@),
        members.dom().contains("mrope_sections"@),
        members.dom().contains("rms_norm_epsilon"@),
    ensures
        members.dom() == layer_fields().to_set(),
{
    let geometry = crate::pack_descriptor::pinned_geometry(Family::Layer, pins);
    assert(geometry[0].0 == "hidden_size"@ && geometry[1].0 == "query_heads"@);
    assert(geometry[2].0 == "key_value_heads"@ && geometry[3].0 == "head_dim"@);
    assert(geometry[4].0 == "query_width"@ && geometry[5].0 == "key_value_width"@);
    assert(members.dom() =~= layer_fields().to_set());
}

/// Reads a layer session descriptor from its JSON object.
pub fn layer_descriptor_from(
    object: &serde_json::Map<String, serde_json::Value>,
    pins: &DecoderPins,
) -> (descriptor: Result<LayerDescriptor, String>)
    ensures
        crate::text::said(descriptor) == layer_members_outcome(
            crate::json::object_members(*object),
            *pins,
        ),
        descriptor is Ok ==> crate::json::object_members(*object).dom() == layer_fields().to_set(),
        !crate::json::object_members(*object).dom().subset_of(layer_fields().to_set())
            ==> (descriptor matches Err(message) && names_unknown(
            Family::Layer,
            crate::json::object_members(*object),
            layer_fields(),
            message@,
        )),
{
    let family: Family = Family::Layer;
    let fields: Vec<&str> = vec![
        "schema_version",
        "hidden_size",
        "query_heads",
        "key_value_heads",
        "head_dim",
        "query_width",
        "key_value_width",
        "prefix_tokens",
        "cache_capacity",
        "mrope_sections",
        "rms_norm_epsilon",
    ];
    assert(crate::text::names(fields@) =~= layer_fields());
    require_schema(family, object, fields.as_slice())?;
    require_geometry(family, object, pins)?;
    require_descriptor_mrope_sections(family, object, pins)?;
    let rms_norm_epsilon: u32 = required_descriptor_epsilon(family, object, pins)?;
    let prefix_tokens: u32 = required_descriptor_u32(family, object, "prefix_tokens")?;
    let cache_capacity: u32 = required_descriptor_u32(family, object, "cache_capacity")?;
    proof {
        lemma_layer_names(crate::json::object_members(*object), *pins);
    }
    Ok(
        LayerDescriptor {
            hidden_size: pins.hidden_size,
            query_heads: pins.query_heads,
            key_value_heads: pins.key_value_heads,
            head_dim: pins.head_dim,
            prefix_tokens,
            cache_capacity,
            rms_norm_epsilon,
        },
    )
}

/// Reads a layer session descriptor from its text.
pub fn parse_layer_descriptor_json(json: &str, pins: &DecoderPins) -> (descriptor: Result<
    LayerDescriptor,
    String,
>)
    ensures
        crate::text::said(descriptor) == layer_outcome(crate::json::parsed_json(json@), *pins),
        descriptor is Ok ==> document_named(
            crate::json::parsed_json(json@),
            layer_fields(),
            layer_fields(),
        ),
{
    let value: serde_json::Value = parse_root(Family::Layer, json)?;
    let object: &serde_json::Map<String, serde_json::Value> = root_object(Family::Layer, &value)?;
    layer_descriptor_from(object, pins)
}

/// What a stack session descriptor says; its geometry is the pinned one.
#[derive(Clone, Copy, Debug)]
pub struct StackDescriptor {
    pub hidden_size: u32,
    pub intermediate_size: u32,
    pub query_heads: u32,
    pub key_value_heads: u32,
    pub head_dim: u32,
    pub prefix_tokens: u32,
    pub cache_capacity: u32,
    /// The single-precision bits of the RMS-norm epsilon.
    pub rms_norm_epsilon: u32,
    /// The tokens of a prompt to prefill; zero where the session cannot prefill.
    pub prefill_tokens: u32,
    /// The vocabulary, where the session reads out logits.
    pub vocab_size: Option<u32>,
}

/// The names that a stack session descriptor may have.
pub open spec fn stack_fields() -> Seq<Seq<char>> {
    seq![
        "schema_version"@,
        "layers"@,
        "hidden_size"@,
        "intermediate_size"@,
        "query_heads"@,
        "key_value_heads"@,
        "head_dim"@,
        "query_width"@,
        "key_value_width"@,
        "prefix_tokens"@,
        "cache_capacity"@,
        "mrope_sections"@,
        "rms_norm_epsilon"@,
        "prefill_tokens"@,
        "vocab_size"@,
    ]
}

/// The names that a stack session descriptor must have.
pub open spec fn required_stack_fields() -> Seq<Seq<char>> {
    stack_fields().take(13)
}

/// The vocabulary of a stack session descriptor, or why it is refused.
pub open spec fn vocab_outcome(members: Members) -> Result<Option<u32>, Seq<char>> {
    if !members.dom().contains("vocab_size"@) {
        Ok(None)
    } else {
        match field_outcome(Family::Stack, members, "vocab_size"@) {
            Err(message) => Err(message),
            Ok(vocab_size) => if vocab_size != PINNED_VOCAB_SIZE {
                Err(
                    descriptor_noun(Family::Stack)
                        + ": vocab_size drifted from the pinned decoder value"@,
                )
            } else {
                Ok(Some(vocab_size))
            },
        }
    }
}

/// The cache geometry of a stack session descriptor: prefix, capacity and prefill tokens,
/// or why it is refused.
pub open spec fn stack_cache_outcome(members: Members) -> Result<(u32, u32, u32), Seq<char>> {
    let family = Family::Stack;
    match field_outcome(family, members, "prefix_tokens"@) {
        Err(message) => Err(message),
        Ok(prefix_tokens) => match field_outcome(family, members, "cache_capacity"@) {
            Err(message) => Err(message),
            Ok(cache_capacity) => match optional_outcome(family, members, "prefill_tokens"@) {
                Err(message) => Err(message),
                Ok(prefill_tokens) => if prefill_tokens > 0 && prefix_tokens != 0 {
                    Err(descriptor_noun(family) + ": prefill requires a zero-prefix cache"@)
                } else {
                    Ok((prefix_tokens, cache_capacity, prefill_tokens))
                },
            },
        },
    }
}

/// What the members of a stack session descriptor say, or why they are refused.
pub open spec fn stack_members_outcome(members: Members, pins: DecoderPins) -> Result<
    StackDescriptor,
    Seq<char>,
> {
    match pinned_complaint(Family::Stack, members, stack_fields(), pins) {
        Some(message) => Err(message),
        None => match epsilon_outcome(Family::Stack, members, pins) {
            Err(message) => Err(message),
            Ok(rms_norm_epsilon) => match stack_cache_outcome(members) {
                Err(message) => Err(message),
                Ok((prefix_tokens, cache_capacity, prefill_tokens)) => match vocab_outcome(
                    members,
                ) {
                    Err(message) => Err(message),
                    Ok(vocab_size) => Ok(
                        StackDescriptor {
                            hidden_size: pins.hidden_size,
                            intermediate_size: pins.intermediate_size,
                            query_heads: pins.query_heads,
                            key_value_heads: pins.key_value_heads,
                            head_dim: pins.head_dim,
                            prefix_tokens,
                            cache_capacity,
                            rms_norm_epsilon,
                            prefill_tokens,
                            vocab_size,
                        },
                    ),
                },
            },
        },
    }
}

/// What a parsed stack session descriptor says, or why it is refused.
pub open spec fn stack_outcome(
    parsed: Result<JsonTree, Seq<char>>,
    pins: DecoderPins,
) -> Result<StackDescriptor, Seq<char>> {
    match root_outcome(Family::Stack, parsed) {
        Err(message) => Err(message),
        Ok(members) => stack_members_outcome(members, pins),
    }
}

fn read_stack_cache(object: &serde_json::Map<String, serde_json::Value>) -> (cache: Result<
    (u32, u32, u32),
    String,
>)
    ensures
        crate::text::said(cache) == stack_cache_outcome(crate::json::object_members(*object)),
{
    let family: Family = Family::Stack;
    let prefix_tokens: u32 = required_descriptor_u32(family, object, "prefix_tokens")?;
    let cache_capacity: u32 = required_descriptor_u32(family, object, "cache_capacity")?;
    let prefill_tokens: u32 = optional_descriptor_u32(family, object, "prefill_tokens")?;
    if prefill_tokens > 0 && prefix_tokens != 0 {
        return Err(
            join2(
                descriptor_subject(family).as_str(),
                ": prefill requires a zero-prefix cache",
            ),
        );
    }
    Ok((prefix_tokens, cache_capacity, prefill_tokens))
}

fn read_vocab(object: &serde_json::Map<String, serde_json::Value>) -> (vocab: Result<
    Option<u32>,
    String,
>)
    ensures
        crate::text::said(vocab) == vocab_outcome(crate::json::object_members(*object)),
{
    match json_get(object, "vocab_size") {
        None => Ok(None),
        Some(_) => {
            let vocab_size: u32 = required_descriptor_u32(Family::Stack, object, "vocab_size")?;
            if vocab_size != PINNED_VOCAB_SIZE {
                return Err(
                    join2(
                        descriptor_subject(Family::Stack).as_str(),
                        ": vocab_size drifted from the pinned decoder value",
                    ),
                );
            }
            Ok(Some(vocab_size))
        },
    }
}

/// With the pinned fields and those that are read, a stack session descriptor has all names that
/// it must have.
proof fn lemma_stack_names(members: Members, pins: DecoderPins)
    requires
        forall|i: int|
            0 <= i < crate::pack_descriptor::pinned_geometry(Family::Stack, pins).len()
                ==> members.dom().contains(
                (#[trigger] crate::pack_descriptor::pinned_geometry(Family::Stack, pins)[i]).0,
            ),
        members.dom().contains("schema_version"@),
        members.dom().contains("prefix_tokens"@),
        members.dom().contains("cache_capacity"@),
        members.dom().contains("mrope_sections"@),
        members.dom().contains("rms_norm_epsilon"@),
    ensures
        required_stack_fields().to_set().subset_of(members.dom()),
{
    let geometry = crate::pack_descriptor::pinned_geometry(Family::Stack, pins);
    assert(geometry[0].0 == "layers"@ && geometry[1].0 == "hidden_size"@);
    assert(geometry[2].0 == "intermediate_size"@ && geometry[3].0 == "query_heads"@);
    assert(geometry[4].0 == "key_value_heads"@ && geometry[5].0 == "head_dim"@);
    assert(geometry[6].0 == "query_width"@ && geometry[7].0 == "key_value_width"@);
    assert forall|key: Seq<char>| required_stack_fields().to_set().contains(
        key,
    ) implies members.dom().contains(key) by {
        let i = choose|i: int|
            0 <= i < required_stack_fields().len() && required_stack_fields()[i] == key;
        assert(stack_fields()[i] == key);
    }
}

/// Reads a stack session descriptor from its JSON object.
pub fn stack_descriptor_from(
    object: &serde_json::Map<String, serde_json::Value>,
    pins: &DecoderPins,
) -> (descriptor: Result<StackDescriptor, String>)
    ensures
        crate::text::said(descriptor) == stack_members_outcome(
            crate::json::object_members(*object),
            *pins,
        ),
        descriptor is Ok ==> names_between(
            crate::json::object_members(*object),
            required_stack_fields(),
            stack_fields(),
        ),
        !crate::json::object_members(*object).dom().subset_of(stack_fields().to_set())
            ==> (descriptor matches Err(message) && names_unknown(
            Family::Stack,
            crate::json::object_members(*object),
            stack_fields(),
            message@,
        )),
{
    let family: Family = Family::Stack;
    let fields: Vec<&str> = vec![
        "schema_version",
        "layers",
        "hidden_size",
        "intermediate_size",
        "query_heads",
        "key_value_heads",
        "head_dim",
        "query_width",
        "key_value_width",
        "prefix_tokens",
        "cache_capacity",
        "mrope_sections",
        "rms_norm_epsilon",
        "prefill_tokens",
        "vocab_size",
    ];
    assert(crate::text::names(fields@) =~= stack_fields());
    require_schema(family, object, fields.as_slice())?;
    require_geometry(family, object, pins)?;
    require_descriptor_mrope_sections(family, object, pins)?;
    let rms_norm_epsilon: u32 = required_descriptor_epsilon(family, object, pins)?;
    let (prefix_tokens, cache_capacity, prefill_tokens) = read_stack_cache(object)?;
    let vocab_size: Option<u32> = read_vocab(object)?;
    proof {
        lemma_stack_names(crate::json::object_members(*object), *pins);
    }
    Ok(
        StackDescriptor {
            hidden_size: pins.hidden_size,
            intermediate_size: pins.intermediate_size,
            query_heads: pins.query_heads,
            key_value_heads: pins.key_value_heads,
            head_dim: pins.head_dim,
            prefix_tokens,
            cache_capacity,
            rms_norm_epsilon,
            prefill_tokens,
            vocab_size,
        },
    )
}

/// Reads a stack session descriptor from its text.
pub fn parse_stack_descriptor_json(json: &str, pins: &DecoderPins) -> (descriptor: Result<
    StackDescriptor,
    String,
>)
    ensures
        crate::text::said(descriptor) == stack_outcome(crate::json::parsed_json(json@), *pins),
        descriptor is Ok ==> document_named(
            crate::json::parsed_json(json@),
            required_stack_fields(),
            stack_fields(),
        ),
{
    let value: serde_json::Value = parse_root(Family::Stack, json)?;
    let object: &serde_json::Map<String, serde_json::Value> = root_object(Family::Stack, &value)?;
    stack_descriptor_from(object, pins)
}

} // verus!
