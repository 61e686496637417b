//! The descriptor of a weight pack: the geometry that its shards are made for.

use crate::family::{
    DecoderPins, Family, WeightStorage, PINNED_KEY_VALUE_WIDTH, PINNED_QUERY_WIDTH,
};
use crate::json::{
    json_as_array, json_as_double, json_as_object, json_as_u64, json_clone, json_get, JsonTree,
    Members,
};
use crate::pack::{pack_hex_digest, pack_subject};
use crate::pack_manifest::{
    pack_json_object, pack_json_str, pack_json_u64, require_nonzero, require_pack_exact_keys,
    require_text, require_u64,
};
use crate::text::{join2, join4, same};
use vstd::prelude::*;

verus! {

/// The names that a layer descriptor has.
pub open spec fn layer_descriptor_fields() -> Seq<Seq<char>> {
    seq![
        "schema_version"@,
        "oracle"@,
        "case_id"@,
        "model_revision"@,
        "hidden_size"@,
        "query_heads"@,
        "key_value_heads"@,
        "head_dim"@,
        "query_width"@,
        "key_value_width"@,
        "prefix_tokens"@,
        "cache_capacity"@,
        "rms_norm_epsilon"@,
        "mrope_sections"@,
        "shards"@,
    ]
}

/// The names that a single-precision stack descriptor has.
pub open spec fn stack_descriptor_fields() -> Seq<Seq<char>> {
    seq![
        "schema_version"@,
        "oracle"@,
        "case_id"@,
        "model_revision"@,
        "layers"@,
        "hidden_size"@,
        "intermediate_size"@,
        "query_heads"@,
        "key_value_heads"@,
        "head_dim"@,
        "query_width"@,
        "key_value_width"@,
        "prefix_tokens"@,
        "cache_capacity"@,
        "rms_norm_epsilon"@,
        "mrope_sections"@,
        "shards"@,
    ]
}

/// The names that a half-precision stack descriptor has.
pub open spec fn balanced_descriptor_fields() -> Seq<Seq<char>> {
    seq![
        "schema_version"@,
        "oracle"@,
        "case_id"@,
        "model_revision"@,
        "layers"@,
        "hidden_size"@,
        "intermediate_size"@,
        "query_heads"@,
        "key_value_heads"@,
        "head_dim"@,
        "query_width"@,
        "key_value_width"@,
        "prefix_tokens"@,
        "cache_capacity"@,
        "rms_norm_epsilon"@,
        "mrope_sections"@,
        "checkpoint_blake3"@,
        "checkpoint_bytes"@,
        "weight_storage"@,
        "shards"@,
    ]
}

/// The names that a descriptor has.
pub open spec fn descriptor_fields(family: Family, storage: WeightStorage) -> Seq<Seq<char>> {
    match family {
        Family::Layer => layer_descriptor_fields(),
        _ => match storage {
            WeightStorage::F32 => stack_descriptor_fields(),
            WeightStorage::F16 => balanced_descriptor_fields(),
        },
    }
}

fn pack_descriptor_fields(family: Family, storage: WeightStorage) -> (fields: Vec<&'static str>)
    ensures
        crate::text::names(fields@) == descriptor_fields(family, storage),
{
    let fields: Vec<&'static str> = match family {
        Family::Layer => vec![
            "schema_version",
            "oracle",
            "case_id",
            "model_revision",
            "hidden_size",
            "query_heads",
            "key_value_heads",
            "head_dim",
            "query_width",
            "key_value_width",
            "prefix_tokens",
            "cache_capacity",
            "rms_norm_epsilon",
            "mrope_sections",
            "shards",
        ],
        _ => match storage {
            WeightStorage::F32 => vec![
                "schema_version",
                "oracle",
                "case_id",
                "model_revision",
                "layers",
                "hidden_size",
                "intermediate_size",
                "query_heads",
                "key_value_heads",
                "head_dim",
                "query_width",
                "key_value_width",
                "prefix_tokens",
                "cache_capacity",
                "rms_norm_epsilon",
                "mrope_sections",
                "shards",
            ],
            WeightStorage::F16 => vec![
                "schema_version",
                "oracle",
                "case_id",
                "model_revision",
                "layers",
                "hidden_size",
                "intermediate_size",
                "query_heads",
                "key_value_heads",
                "head_dim",
                "query_width",
                "key_value_width",
                "prefix_tokens",
                "cache_capacity",
                "rms_norm_epsilon",
                "mrope_sections",
                "checkpoint_blake3",
                "checkpoint_bytes",
                "weight_storage",
                "shards",
            ],
        },
    };
    assert(crate::text::names(fields@) =~= descriptor_fields(family, storage));
    fields
}

/// The pinned geometry of a family, field by field, in the order of the checks.
pub open spec fn pinned_geometry(family: Family, pins: DecoderPins) -> Seq<(Seq<char>, u32)> {
    match family {
        Family::Layer => seq![
            ("hidden_size"@, pins.hidden_size),
            ("query_heads"@, pins.query_heads),
            ("key_value_heads"@, pins.key_value_heads),
            ("head_dim"@, pins.head_dim),
            ("query_width"@, PINNED_QUERY_WIDTH),
            ("key_value_width"@, PINNED_KEY_VALUE_WIDTH),
        ],
        _ => seq![
            ("layers"@, pins.layers),
            ("hidden_size"@, pins.hidden_size),
            ("intermediate_size"@, pins.intermediate_size),
            ("query_heads"@, pins.query_heads),
            ("key_value_heads"@, pins.key_value_heads),
            ("head_dim"@, pins.head_dim),
            ("query_width"@, PINNED_QUERY_WIDTH),
            ("key_value_width"@, PINNED_KEY_VALUE_WIDTH),
        ],
    }
}

/// A list of named values as plain data.
pub open spec fn named_values(pairs: Seq<(&str, u32)>) -> Seq<(Seq<char>, u32)> {
    pairs.map_values(|pair: (&str, u32)| (pair.0@, pair.1))
}

/// The pinned geometry of a family, field by field, in the order of the checks.
pub fn geometry_pins(family: Family, pins: &DecoderPins) -> (geometry: Vec<(&'static str, u32)>)
    ensures
        named_values(geometry@) == pinned_geometry(family, *pins),
{
    let geometry: Vec<(&'static str, u32)> = match family {
        Family::Layer => vec![
            ("hidden_size", pins.hidden_size),
            ("query_heads", pins.query_heads),
            ("key_value_heads", pins.key_value_heads),
            ("head_dim", pins.head_dim),
            ("query_width", PINNED_QUERY_WIDTH),
            ("key_value_width", PINNED_KEY_VALUE_WIDTH),
        ],
        _ => vec![
            ("layers", pins.layers),
            ("hidden_size", pins.hidden_size),
            ("intermediate_size", pins.intermediate_size),
            ("query_heads", pins.query_heads),
            ("key_value_heads", pins.key_value_heads),
            ("head_dim", pins.head_dim),
            ("query_width", PINNED_QUERY_WIDTH),
            ("key_value_width", PINNED_KEY_VALUE_WIDTH),
        ],
    };
    assert(named_values(geometry@) =~= pinned_geometry(family, *pins));
    geometry
}

/// What is wrong with the geometry of a descriptor from one field on.
pub open spec fn geometry_complaint_from(
    family: Family,
    members: Members,
    geometry: Seq<(Seq<char>, u32)>,
    index: int,
) -> Option<Seq<char>>
    decreases geometry.len() - index,
{
    if index >= geometry.len() {
        None
    } else {
        let (field, pinned) = geometry[index];
        match crate::pack_manifest::u64_outcome(family, members, field, "descriptor"@) {
            Err(message) => Some(message),
            Ok(actual) => if actual != pinned {
                Some(
                    crate::pack::pack_noun(family) + "descriptor geometry field "@ + field
                        + " drifted from the pinned decoder value"@,
                )
            } else {
                geometry_complaint_from(family, members, geometry, index + 1)
            },
        }
    }
}

fn require_geometry(
    family: Family,
    descriptor: &serde_json::Map<String, serde_json::Value>,
    pins: &DecoderPins,
) -> (outcome: Result<(), String>)
    ensures
        crate::text::complaint(outcome) == geometry_complaint_from(
            family,
            crate::json::object_members(*descriptor),
            pinned_geometry(family, *pins),
            0,
        ),
{
    let geometry: Vec<(&'static str, u32)> = geometry_pins(family, pins);
    let ghost model = named_values(geometry@);
    let ghost members = crate::json::object_members(*descriptor);
    let mut index: usize = 0;
    while index < geometry.len()
        invariant
            index <= geometry.len(),
            model == named_values(geometry@),
            members == crate::json::object_members(*descriptor),
            geometry_complaint_from(family, members, model, 0) == geometry_complaint_from(
                family,
                members,
                model,
                index as int,
            ),
            model == pinned_geometry(family, *pins),
        decreases geometry.len() - index,
    {
        let field: &'static str = geometry[index].0;
        let pinned: u32 = geometry[index].1;
        assert(model[index as int] == (field@, pinned));
        let actual: u64 = pack_json_u64(family, descriptor, field, "descriptor")?;
        if actual != pinned as u64 {
            return Err(
                join4(
                    pack_subject(family).as_str(),
                    "descriptor geometry field ",
                    field,
                    " drifted from the pinned decoder value",
                ),
            );
        }
        index += 1;
    }
    Ok(())
}

/// What is wrong with where a descriptor says it comes from.
pub open spec fn oracle_complaint(family: Family, members: Members) -> Option<Seq<char>> {
    match crate::pack_manifest::text_outcome(family, members, "oracle"@, "descriptor"@) {
        Err(message) => Some(message),
        Ok(oracle) => if oracle != "synthetic"@ && oracle != "official_l3"@ {
            Some(crate::pack::pack_noun(family) + "descriptor oracle is unsupported"@)
        } else {
            None
        },
    }
}

/// What is wrong with the case name of a descriptor.
pub open spec fn case_complaint(family: Family, members: Members) -> Option<Seq<char>> {
    match crate::pack_manifest::text_outcome(family, members, "case_id"@, "descriptor"@) {
        Err(message) => Some(message),
        Ok(case_id) => if case_id.len() == 0 {
            Some(crate::pack::pack_noun(family) + "descriptor case_id is empty"@)
        } else {
            None
        },
    }
}

fn require_origin(
    family: Family,
    descriptor: &serde_json::Map<String, serde_json::Value>,
) -> (outcome: Result<(), String>)
    ensures
        crate::text::complaint(outcome) == crate::text::earlier(
            oracle_complaint(family, crate::json::object_members(*descriptor)),
            case_complaint(family, crate::json::object_members(*descriptor)),
        ),
{
    let oracle: &str = pack_json_str(family, descriptor, "oracle", "descriptor")?;
    if !same(oracle, "synthetic") && !same(oracle, "official_l3") {
        return Err(join2(pack_subject(family).as_str(), "descriptor oracle is unsupported"));
    }
    let case_id: &str = pack_json_str(family, descriptor, "case_id", "descriptor")?;
    if case_id.is_empty() {
        return Err(join2(pack_subject(family).as_str(), "descriptor case_id is empty"));
    }
    Ok(())
}

/// What is wrong with the cache geometry of a descriptor.
pub open spec fn cache_complaint(
    family: Family,
    members: Members,
    prefix_tokens: u32,
    cache_capacity: u32,
    prefill_capable: bool,
) -> Option<Seq<char>> {
    match crate::pack_manifest::u64_outcome(family, members, "prefix_tokens"@, "descriptor"@) {
        Err(message) => Some(message),
        Ok(prefix) => match crate::pack_manifest::u64_outcome(
            family,
            members,
            "cache_capacity"@,
            "descriptor"@,
        ) {
            Err(message) => Some(message),
            Ok(capacity) => if (prefix == 0 && !prefill_capable) || capacity <= prefix {
                Some(crate::pack::pack_noun(family) + "descriptor cache geometry is invalid"@)
            } else if prefix != prefix_tokens || capacity != cache_capacity {
                Some(
                    crate::pack::pack_noun(family)
                        + "descriptor cache geometry does not match the session descriptor"@,
                )
            } else {
                None
            },
        },
    }
}

fn require_cache(
    family: Family,
    descriptor: &serde_json::Map<String, serde_json::Value>,
    prefix_tokens: u32,
    cache_capacity: u32,
    prefill_capable: bool,
) -> (outcome: Result<(), String>)
    ensures
        crate::text::complaint(outcome) == cache_complaint(
            family,
            crate::json::object_members(*descriptor),
            prefix_tokens,
            cache_capacity,
            prefill_capable,
        ),
{
    let prefix: u64 = pack_json_u64(family, descriptor, "prefix_tokens", "descriptor")?;
    let capacity: u64 = pack_json_u64(family, descriptor, "cache_capacity", "descriptor")?;
    if (prefix == 0 && !prefill_capable) || capacity <= prefix {
        return Err(join2(pack_subject(family).as_str(), "descriptor cache geometry is invalid"));
    }
    if prefix != prefix_tokens as u64 || capacity != cache_capacity as u64 {
        return Err(
            join2(
                pack_subject(family).as_str(),
                "descriptor cache geometry does not match the session descriptor",
            ),
        );
    }
    Ok(())
}

/// What is wrong with the RMS-norm epsilon of a descriptor.
pub open spec fn epsilon_complaint(family: Family, members: Members, pins: DecoderPins) -> Option<
    Seq<char>,
> {
    let number = match crate::json::member(members, "rms_norm_epsilon"@) {
        Some(tree) => crate::json::tree_double(tree),
        None => None,
    };
    match number {
        None => Some(
            crate::pack::pack_noun(family) + "descriptor rms_norm_epsilon must be a number"@,
        ),
        Some(bits) => if !crate::ieee::single_equal(
            crate::ieee::narrowed(bits),
            pins.rms_norm_epsilon,
        ) {
            Some(crate::pack::pack_noun(family) + "descriptor rms_norm_epsilon drifted"@)
        } else {
            None
        },
    }
}

fn require_epsilon(
    family: Family,
    descriptor: &serde_json::Map<String, serde_json::Value>,
    pins: &DecoderPins,
) -> (outcome: Result<(), String>)
    ensures
        crate::text::complaint(outcome) == epsilon_complaint(
            family,
            crate::json::object_members(*descriptor),
            *pins,
        ),
{
    let number: Option<u64> = match json_get(descriptor, "rms_norm_epsilon") {
        Some(value) => json_as_double(value),
        None => None,
    };
    match number {
        None => Err(
            join2(
                pack_subject(family).as_str(),
                "descriptor rms_norm_epsilon must be a number",
            ),
        ),
        Some(bits) => if crate::ieee::single_equals(
            crate::ieee::narrow(bits),
            pins.rms_norm_epsilon,
        ) {
            Ok(())
        } else {
            Err(join2(pack_subject(family).as_str(), "descriptor rms_norm_epsilon drifted"))
        },
    }
}

/// Whether an array holds exactly the pinned M-RoPE sections.
pub open spec fn is_mrope(sections: Seq<JsonTree>, pins: DecoderPins) -> bool {
    &&& sections.len() == 3
    &&& crate::json::tree_u64(sections[0]) == Some(pins.mrope_sections@[0] as u64)
    &&& crate::json::tree_u64(sections[1]) == Some(pins.mrope_sections@[1] as u64)
    &&& crate::json::tree_u64(sections[2]) == Some(pins.mrope_sections@[2] as u64)
}

/// What is wrong with the M-RoPE sections of a descriptor.
pub open spec fn mrope_complaint(family: Family, members: Members, pins: DecoderPins) -> Option<
    Seq<char>,
> {
    let sections = match crate::json::member(members, "mrope_sections"@) {
        Some(tree) => crate::json::tree_array(tree),
        None => None,
    };
    match sections {
        None => Some(
            crate::pack::pack_noun(family) + "descriptor mrope_sections must be an array"@,
        ),
        Some(array) => if !is_mrope(array, pins) {
            Some(crate::pack::pack_noun(family) + "descriptor mrope_sections drifted"@)
        } else {
            None
        },
    }
}

fn is_integer(value: &serde_json::Value, wanted: u32) -> (is: bool)
    ensures
        is == (crate::json::tree_u64(crate::json::value_tree(*value)) == Some(wanted as u64)),
{
    match json_as_u64(value) {
        Some(integer) => integer == wanted as u64,
        None => false,
    }
}

fn require_mrope(
    family: Family,
    descriptor: &serde_json::Map<String, serde_json::Value>,
    pins: &DecoderPins,
) -> (outcome: Result<(), String>)
    ensures
        crate::text::complaint(outcome) == mrope_complaint(
            family,
            crate::json::object_members(*descriptor),
            *pins,
        ),
{
    let found: Option<&Vec<serde_json::Value>> = match json_get(descriptor, "mrope_sections") {
        Some(value) => json_as_array(value),
        None => None,
    };
    match found {
        None => Err(
            join2(pack_subject(family).as_str(), "descriptor mrope_sections must be an array"),
        ),
        Some(sections) => {
            let pinned: bool = sections.len() == 3 && is_integer(
                &sections[0],
                pins.mrope_sections[0],
            ) && is_integer(&sections[1], pins.mrope_sections[1]) && is_integer(
                &sections[2],
                pins.mrope_sections[2],
            );
            if pinned {
                Ok(())
            } else {
                Err(join2(pack_subject(family).as_str(), "descriptor mrope_sections drifted"))
            }
        },
    }
}

/// The digest of the checkpoint that half-precision weights come from, or why the
/// descriptor is refused.
pub open spec fn checkpoint_outcome(
    family: Family,
    members: Members,
    storage: WeightStorage,
) -> Result<Option<Seq<u8>>, Seq<char>> {
    let label = "descriptor"@;
    let first = crate::text::earlier(
        crate::pack_manifest::text_complaint(
            family,
            members,
            "weight_storage"@,
            label,
            "f16"@,
            "descriptor weight_storage drifted"@,
        ),
        crate::pack_manifest::nonzero_complaint(
            family,
            members,
            "checkpoint_bytes"@,
            label,
            "descriptor checkpoint_bytes drifted"@,
        ),
    );
    match storage {
        WeightStorage::F32 => Ok(None),
        WeightStorage::F16 => match first {
            Some(message) => Err(message),
            None => match crate::pack_manifest::text_outcome(
                family,
                members,
                "checkpoint_blake3"@,
                label,
            ) {
                Err(message) => Err(message),
                Ok(hex) => match crate::pack::hex_digest(
                    family,
                    hex,
                    "descriptor checkpoint_blake3"@,
                ) {
                    Err(message) => Err(message),
                    Ok(digest) => Ok(Some(digest)),
                },
            },
        },
    }
}

/// An optional digest as plain data.
pub open spec fn digest_option(digest: Option<[u8; 32]>) -> Option<Seq<u8>> {
    match digest {
        Some(bytes) => Some(bytes@),
        None => None,
    }
}

fn read_checkpoint(
    family: Family,
    descriptor: &serde_json::Map<String, serde_json::Value>,
    storage: WeightStorage,
) -> (checkpoint: Result<Option<[u8; 32]>, String>)
    ensures
        (match checkpoint {
            Ok(digest) => Ok(digest_option(digest)),
            Err(message) => Err(message@),
        }) == checkpoint_outcome(family, crate::json::object_members(*descriptor), storage),
{
    match storage {
        WeightStorage::F32 => Ok(None),
        WeightStorage::F16 => {
            require_text(
                family,
                descriptor,
                "weight_storage",
                "descriptor",
                "f16",
                "descriptor weight_storage drifted",
            )?;
            require_nonzero(
                family,
                descriptor,
                "checkpoint_bytes",
                "descriptor",
                "descriptor checkpoint_bytes drifted",
            )?;
            let hex: &str = pack_json_str(family, descriptor, "checkpoint_blake3", "descriptor")?;
            let digest: [u8; 32] = pack_hex_digest(family, hex, "descriptor checkpoint_blake3")?;
            Ok(Some(digest))
        },
    }
}

/// What a descriptor is checked against.
#[derive(Clone, Copy, Debug)]
pub struct DescriptorRequest {
    pub prefix_tokens: u32,
    pub cache_capacity: u32,
    pub prefill_capable: bool,
}

/// What is wrong with a descriptor before its checkpoint and shards: the first thing in
/// the order of the checks.
pub open spec fn descriptor_complaint(
    family: Family,
    pins: DecoderPins,
    members: Members,
    request: DescriptorRequest,
    storage: WeightStorage,
) -> Option<Seq<char>> {
    let label = "descriptor"@;
    crate::text::earlier(
        crate::pack_manifest::keys_complaint(
            family,
            members,
            descriptor_fields(family, storage),
            label,
        ),
        crate::text::earlier(
            crate::pack_manifest::u64_complaint(
                family,
                members,
                "schema_version"@,
                label,
                1,
                "descriptor schema version drifted"@,
            ),
            crate::text::earlier(
                crate::text::earlier(
                    oracle_complaint(family, members),
                    case_complaint(family, members),
                ),
                crate::text::earlier(
                    crate::pack_manifest::text_complaint(
                        family,
                        members,
                        "model_revision"@,
                        label,
                        crate::pack_manifest::model_revision(),
                        "descriptor model_revision drifted"@,
                    ),
                    crate::text::earlier(
                        geometry_complaint_from(
                            family,
                            members,
                            pinned_geometry(family, pins),
                            0,
                        ),
                        crate::text::earlier(
                            cache_complaint(
                                family,
                                members,
                                request.prefix_tokens,
                                request.cache_capacity,
                                request.prefill_capable,
                            ),
                            crate::text::earlier(
                                epsilon_complaint(family, members, pins),
                                mrope_complaint(family, members, pins),
                            ),
                        ),
                    ),
                ),
            ),
        ),
    )
}

/// What a descriptor gives: its shard pins and the checkpoint that it names.
pub struct ValidatedDescriptor {
    pub shards: serde_json::Map<String, serde_json::Value>,
    pub checkpoint_blake3: Option<[u8; 32]>,
}

/// What a descriptor gives, as plain data.
pub struct DescriptorModel {
    pub shards: Members,
    pub checkpoint: Option<Seq<u8>>,
}

/// What a descriptor gives, or why it is refused.
pub open spec fn descriptor_outcome(
    family: Family,
    pins: DecoderPins,
    payload: Seq<u8>,
    request: DescriptorRequest,
    shard_ids: Seq<Seq<char>>,
    storage: WeightStorage,
) -> Result<DescriptorModel, Seq<char>> {
    match crate::pack_manifest::object_outcome(family, payload, "descriptor"@) {
        Err(message) => Err(message),
        Ok(members) => match descriptor_complaint(family, pins, members, request, storage) {
            Some(message) => Err(message),
            None => match checkpoint_outcome(family, members, storage) {
                Err(message) => Err(message),
                Ok(checkpoint) => {
                    let shards = match crate::json::member(members, "shards"@) {
                        Some(tree) => crate::json::tree_object(tree),
                        None => None,
                    };
                    match shards {
                        None => Err(
                            crate::pack::pack_noun(family)
                                + "descriptor shards must be an object"@,
                        ),
                        Some(pinned) => match crate::pack_manifest::keys_complaint(
                            family,
                            pinned,
                            shard_ids,
                            "descriptor shards"@,
                        ) {
                            Some(message) => Err(message),
                            None => Ok(DescriptorModel { shards: pinned, checkpoint }),
                        },
                    }
                },
            },
        },
    }
}

/// Checks the descriptor of a pack.
pub fn validate_pack_descriptor(
    family: Family,
    pins: &DecoderPins,
    payload: &[u8],
    request: DescriptorRequest,
    shard_ids: &[&str],
    storage: WeightStorage,
) -> (descriptor: Result<ValidatedDescriptor, String>)
    ensures
        (match descriptor {
            Ok(found) => Ok(
                DescriptorModel {
                    shards: crate::json::object_members(found.shards),
                    checkpoint: digest_option(found.checkpoint_blake3),
                },
            ),
            Err(message) => Err(message@),
        }) == descriptor_outcome(
            family,
            *pins,
            payload@,
            request,
            crate::text::names(shard_ids@),
            storage,
        ),
        descriptor is Ok ==> crate::pack_manifest::object_named(
            family,
            payload@,
            "descriptor"@,
            descriptor_fields(family, storage),
        ),
        descriptor matches Ok(found) ==> crate::json::object_members(found.shards).dom()
            == crate::text::names(shard_ids@).to_set(),
{
    let descriptor = pack_json_object(family, payload, "descriptor")?;
    let fields: Vec<&'static str> = pack_descriptor_fields(family, storage);
    require_pack_exact_keys(family, &descriptor, fields.as_slice(), "descriptor")?;
    require_u64(
        family,
        &descriptor,
        "schema_version",
        "descriptor",
        1,
        "descriptor schema version drifted",
    )?;
    require_origin(family, &descriptor)?;
    require_text(
        family,
        &descriptor,
        "model_revision",
        "descriptor",
        "66317acc4c9fc17bd154591ce650735cd2855f3e",
        "descriptor model_revision drifted",
    )?;
    require_geometry(family, &descriptor, pins)?;
    require_cache(
        family,
        &descriptor,
        request.prefix_tokens,
        request.cache_capacity,
        request.prefill_capable,
    )?;
    require_epsilon(family, &descriptor, pins)?;
    require_mrope(family, &descriptor, pins)?;
    let checkpoint_blake3: Option<[u8; 32]> = read_checkpoint(family, &descriptor, storage)?;
    let found: Option<&serde_json::Map<String, serde_json::Value>> = match json_get(
        &descriptor,
        "shards",
    ) {
        Some(value) => json_as_object(value),
        None => None,
    };
    match found {
        None => Err(join2(pack_subject(family).as_str(), "descriptor shards must be an object")),
        Some(shards) => {
            require_pack_exact_keys(family, shards, shard_ids, "descriptor shards")?;
            Ok(ValidatedDescriptor { shards: json_clone(shards), checkpoint_blake3 })
        },
    }
}

} // verus!
