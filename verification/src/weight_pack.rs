//! Whole weight packs: admission of a pack, and the shards that it yields.

use crate::family::{
    DecoderPins, Family, WeightStorage, PINNED_KEY_VALUE_WIDTH, PINNED_QUERY_WIDTH,
    PINNED_VOCAB_SIZE,
};
use crate::json::{json_as_object, json_get, Members};
use crate::pack::{
    pack_hex_digest, pack_subject, require_pack_f16_finite, require_pack_f32_finite,
};
use crate::pack_descriptor::{validate_pack_descriptor, DescriptorRequest, ValidatedDescriptor};
use crate::pack_layout::{
    read_directory, read_prefix, read_sections, EntryModel, PackEntry, PackPrefix,
    PACK_HEADER_BYTES, STACK_SECTION_COUNT,
};
use crate::pack_manifest::{
    pack_json_str, pack_json_u64, require_pack_exact_keys, require_text, validate_pack_manifest,
};
use crate::sizes::{checked_u64_bytes, checked_u64_weight_bytes};
use crate::text::join4;
use vstd::prelude::*;
use vstd::slice::{slice_subrange, slice_to_vec};

verus! {

/// The shards of a stack pack without the logits weights.
pub const LEGACY_PACK_SHARD_COUNT: usize = 11;

/// Where the cosine table stands among the shards.
pub const SHARD_ROPE_COS: usize = 5;

/// Where the sine table stands among the shards.
pub const SHARD_ROPE_SIN: usize = 6;

/// Where the final norm weight stands among the shards.
pub const SHARD_FINAL_NORM: usize = 11;

/// Where the LM head stands among the shards.
pub const SHARD_LM_HEAD: usize = 12;

/// The names of the sections of a layer pack, the descriptor first.
pub open spec fn layer_sections() -> Seq<Seq<char>> {
    seq![
        "ir.decoder_layer_00_attention_block"@,
        "weights.input_layernorm"@,
        "weights.q_proj"@,
        "weights.k_proj"@,
        "weights.v_proj"@,
        "weights.o_proj"@,
        "weights.mrope_cos"@,
        "weights.mrope_sin"@,
    ]
}

/// The names of the sections of a stack pack without the logits weights.
pub open spec fn legacy_stack_sections() -> Seq<Seq<char>> {
    seq![
        "ir.decoder_stack_00"@,
        "weights.input_layernorm"@,
        "weights.q_proj"@,
        "weights.k_proj"@,
        "weights.v_proj"@,
        "weights.o_proj"@,
        "weights.mrope_cos"@,
        "weights.mrope_sin"@,
        "weights.post_attention_layernorm"@,
        "weights.gate_proj"@,
        "weights.up_proj"@,
        "weights.down_proj"@,
    ]
}

/// The names of the sections of a stack pack with the logits weights.
pub open spec fn stack_sections() -> Seq<Seq<char>> {
    seq![
        "ir.decoder_stack_00"@,
        "weights.input_layernorm"@,
        "weights.q_proj"@,
        "weights.k_proj"@,
        "weights.v_proj"@,
        "weights.o_proj"@,
        "weights.mrope_cos"@,
        "weights.mrope_sin"@,
        "weights.post_attention_layernorm"@,
        "weights.gate_proj"@,
        "weights.up_proj"@,
        "weights.down_proj"@,
        "weights.final_layernorm"@,
        "weights.lm_head"@,
    ]
}

/// The names of the sections of a pack, in order.
pub open spec fn section_names(family: Family, count: u32) -> Seq<Seq<char>> {
    match family {
        Family::Layer => layer_sections(),
        _ => if count == STACK_SECTION_COUNT {
            stack_sections()
        } else {
            legacy_stack_sections()
        },
    }
}

/// Whether a pack of a family can hold a number of shards.
pub open spec fn admitted_shard_count(family: Family, count: int) -> bool {
    match family {
        Family::Layer => count == 7,
        _ => count == 11 || count == 13,
    }
}

fn section_ids(family: Family, count: u32) -> (ids: Vec<&'static str>)
    ensures
        crate::text::names(ids@) == section_names(family, count),
        admitted_shard_count(family, ids.len() - 1),
{
    let mut ids: Vec<&'static str> = Vec::new();
    match family {
        Family::Layer => {
            ids.push("ir.decoder_layer_00_attention_block");
        },
        _ => {
            ids.push("ir.decoder_stack_00");
        },
    }
    ids.push("weights.input_layernorm");
    ids.push("weights.q_proj");
    ids.push("weights.k_proj");
    ids.push("weights.v_proj");
    ids.push("weights.o_proj");
    ids.push("weights.mrope_cos");
    ids.push("weights.mrope_sin");
    match family {
        Family::Layer => {},
        _ => {
            ids.push("weights.post_attention_layernorm");
            ids.push("weights.gate_proj");
            ids.push("weights.up_proj");
            ids.push("weights.down_proj");
            if count == STACK_SECTION_COUNT {
                ids.push("weights.final_layernorm");
                ids.push("weights.lm_head");
            }
        },
    }
    assert(crate::text::names(ids@) =~= section_names(family, count));
    ids
}

/// The bytes of a shard of a layer pack.
pub open spec fn layer_shard_bytes(pins: DecoderPins, shard: int, cache_capacity: u32) -> Result<
    u64,
    Seq<char>,
> {
    let hidden = pins.hidden_size as int;
    if shard == 0 {
        crate::sizes::byte_size(hidden, "decoder layer norm weight"@)
    } else if shard == 1 {
        crate::sizes::weight_byte_size(
            PINNED_QUERY_WIDTH as int,
            hidden,
            "decoder layer query weight"@,
        )
    } else if shard == 2 || shard == 3 {
        crate::sizes::weight_byte_size(
            PINNED_KEY_VALUE_WIDTH as int,
            hidden,
            "decoder layer key/value weight"@,
        )
    } else if shard == 4 {
        crate::sizes::weight_byte_size(
            hidden,
            PINNED_QUERY_WIDTH as int,
            "decoder layer output weight"@,
        )
    } else if 3 * cache_capacity > usize::MAX || 3 * cache_capacity * pins.head_dim > usize::MAX {
        Err("decoder layer rope table element count overflowed"@)
    } else {
        crate::sizes::byte_size(3 * cache_capacity * pins.head_dim, "decoder layer rope table"@)
    }
}

/// The weights that one layer has in a shard of a stack pack.
pub open spec fn per_layer_elements(pins: DecoderPins, shard: int) -> int {
    let hidden = pins.hidden_size as int;
    if shard == 0 || shard == 7 {
        hidden
    } else if shard == 1 || shard == 4 {
        PINNED_QUERY_WIDTH * hidden
    } else if shard == 2 || shard == 3 {
        PINNED_KEY_VALUE_WIDTH * hidden
    } else {
        pins.intermediate_size * hidden
    }
}

/// The bytes of a shard of a stack pack. The two rotary tables are always single precision;
/// the two logits shards are shared by all layers.
pub open spec fn stack_shard_bytes(
    pins: DecoderPins,
    shard: int,
    cache_capacity: u32,
    storage: WeightStorage,
) -> Result<u64, Seq<char>> {
    let rope = 3 * cache_capacity * pins.head_dim;
    let elements = per_layer_elements(pins, shard) * pins.layers;
    if shard == SHARD_FINAL_NORM {
        match crate::family::stored_bytes(storage, pins.hidden_size as int) {
            Some(bytes) => Ok(bytes),
            None => Err("decoder stack final norm byte size overflowed"@),
        }
    } else if shard == SHARD_LM_HEAD {
        match crate::family::stored_bytes(storage, PINNED_VOCAB_SIZE * pins.hidden_size) {
            Some(bytes) => Ok(bytes),
            None => Err("decoder stack LM head byte size overflowed"@),
        }
    } else if shard == SHARD_ROPE_COS || shard == SHARD_ROPE_SIN || shard > SHARD_LM_HEAD {
        if rope > u64::MAX {
            Err("decoder stack rope table element count overflowed"@)
        } else if rope * 4 > u64::MAX {
            Err("decoder stack rope table byte size overflowed"@)
        } else {
            Ok((rope * 4) as u64)
        }
    } else if elements > u64::MAX {
        Err("decoder stack shard element count overflowed"@)
    } else {
        match crate::family::stored_bytes(storage, elements) {
            None => Err("decoder stack shard byte size overflowed"@),
            Some(bytes) => if elements * 4 > u64::MAX {
                Err("decoder stack F32 shard byte size overflowed"@)
            } else {
                Ok(bytes)
            },
        }
    }
}

/// The bytes of a shard.
pub open spec fn shard_bytes(
    family: Family,
    pins: DecoderPins,
    shard: int,
    cache_capacity: u32,
    storage: WeightStorage,
) -> Result<u64, Seq<char>> {
    match family {
        Family::Layer => layer_shard_bytes(pins, shard, cache_capacity),
        _ => stack_shard_bytes(pins, shard, cache_capacity, storage),
    }
}

fn expected_layer_shard_bytes(pins: &DecoderPins, shard_index: usize, cache_capacity: u32) -> (bytes:
    Result<u64, String>)
    ensures
        crate::text::said(bytes) == layer_shard_bytes(*pins, shard_index as int, cache_capacity),
{
    let hidden: usize = pins.hidden_size as usize;
    if shard_index == 0 {
        checked_u64_bytes(hidden, "decoder layer norm weight")
    } else if shard_index == 1 {
        checked_u64_weight_bytes(
            PINNED_QUERY_WIDTH as usize,
            hidden,
            "decoder layer query weight",
        )
    } else if shard_index == 2 || shard_index == 3 {
        checked_u64_weight_bytes(
            PINNED_KEY_VALUE_WIDTH as usize,
            hidden,
            "decoder layer key/value weight",
        )
    } else if shard_index == 4 {
        checked_u64_weight_bytes(
            hidden,
            PINNED_QUERY_WIDTH as usize,
            "decoder layer output weight",
        )
    } else {
        let rows: usize = match 3usize.checked_mul(cache_capacity as usize) {
            Some(rows) => rows,
            None => {
                return Err("decoder layer rope table element count overflowed".to_owned());
            },
        };
        match rows.checked_mul(pins.head_dim as usize) {
            Some(elements) => checked_u64_bytes(elements, "decoder layer rope table"),
            None => Err("decoder layer rope table element count overflowed".to_owned()),
        }
    }
}

proof fn lemma_product_fits(left: u32, right: u32)
    ensures
        left * right <= 0xffff_fffe_0000_0001,
{
    assert(left * right <= 0xffff_fffe_0000_0001) by (nonlinear_arith)
        requires
            0 <= left <= 0xffff_ffff,
            0 <= right <= 0xffff_ffff,
    ;
}

fn expected_stack_shard_bytes(
    pins: &DecoderPins,
    shard_index: usize,
    cache_capacity: u32,
    storage: WeightStorage,
) -> (bytes: Result<u64, String>)
    ensures
        crate::text::said(bytes) == stack_shard_bytes(
            *pins,
            shard_index as int,
            cache_capacity,
            storage,
        ),
{
    let hidden: u64 = pins.hidden_size as u64;
    proof {
        lemma_product_fits(PINNED_VOCAB_SIZE, pins.hidden_size);
        lemma_product_fits(PINNED_QUERY_WIDTH, pins.hidden_size);
        lemma_product_fits(PINNED_KEY_VALUE_WIDTH, pins.hidden_size);
        lemma_product_fits(pins.intermediate_size, pins.hidden_size);
    }
    if shard_index == SHARD_FINAL_NORM {
        return match storage.storage_bytes(hidden) {
            Some(bytes) => Ok(bytes),
            None => Err("decoder stack final norm byte size overflowed".to_owned()),
        };
    }
    if shard_index == SHARD_LM_HEAD {
        return match storage.storage_bytes(PINNED_VOCAB_SIZE as u64 * hidden) {
            Some(bytes) => Ok(bytes),
            None => Err("decoder stack LM head byte size overflowed".to_owned()),
        };
    }
    let per_layer: u64 = if shard_index == 0 || shard_index == 7 {
        hidden
    } else if shard_index == 1 || shard_index == 4 {
        PINNED_QUERY_WIDTH as u64 * hidden
    } else if shard_index == 2 || shard_index == 3 {
        PINNED_KEY_VALUE_WIDTH as u64 * hidden
    } else if shard_index == 8 || shard_index == 9 || shard_index == 10 {
        pins.intermediate_size as u64 * hidden
    } else {
        let rows: u64 = 3 * cache_capacity as u64;
        return match rows.checked_mul(pins.head_dim as u64) {
            None => Err("decoder stack rope table element count overflowed".to_owned()),
            Some(elements) => match elements.checked_mul(4) {
                None => Err("decoder stack rope table byte size overflowed".to_owned()),
                Some(bytes) => Ok(bytes),
            },
        };
    };
    assert(per_layer == per_layer_elements(*pins, shard_index as int));
    let elements: u64 = match per_layer.checked_mul(pins.layers as u64) {
        Some(elements) => elements,
        None => {
            return Err("decoder stack shard element count overflowed".to_owned());
        },
    };
    let physical_bytes: u64 = match storage.storage_bytes(elements) {
        Some(bytes) => bytes,
        None => {
            return Err("decoder stack shard byte size overflowed".to_owned());
        },
    };
    let f32_bytes: u64 = match elements.checked_mul(4) {
        Some(bytes) => bytes,
        None => {
            return Err("decoder stack F32 shard byte size overflowed".to_owned());
        },
    };
    let mapped: bool = match storage.from_f32_byte_offset(f32_bytes) {
        Some(bytes) => bytes == physical_bytes,
        None => false,
    };
    if !mapped {
        return Err("decoder stack shard precision offset mapping drifted".to_owned());
    }
    Ok(physical_bytes)
}

/// The bytes of a shard.
pub fn expected_shard_bytes(
    family: Family,
    pins: &DecoderPins,
    shard_index: usize,
    cache_capacity: u32,
    storage: WeightStorage,
) -> (bytes: Result<u64, String>)
    ensures
        crate::text::said(bytes) == shard_bytes(
            family,
            *pins,
            shard_index as int,
            cache_capacity,
            storage,
        ),
{
    match family {
        Family::Layer => expected_layer_shard_bytes(pins, shard_index, cache_capacity),
        _ => expected_stack_shard_bytes(pins, shard_index, cache_capacity, storage),
    }
}

/// How one shard is stored: the rotary tables are always single precision.
pub open spec fn shard_storage(shard: int, storage: WeightStorage) -> WeightStorage {
    if shard == SHARD_ROPE_COS || shard == SHARD_ROPE_SIN {
        WeightStorage::F32
    } else {
        storage
    }
}

/// The name of an element type in shard pins.
pub open spec fn dtype_name(storage: WeightStorage) -> Seq<char> {
    match storage {
        WeightStorage::F32 => "f32"@,
        WeightStorage::F16 => "f16"@,
    }
}

/// The names that a shard pin has.
pub open spec fn pin_fields(storage: WeightStorage) -> Seq<Seq<char>> {
    match storage {
        WeightStorage::F32 => seq!["bytes"@, "blake3"@],
        WeightStorage::F16 => seq!["bytes"@, "blake3"@, "dtype"@],
    }
}

/// Whether the pin of a shard is an object that has exactly the names of a shard pin.
pub open spec fn pin_named(shards: Members, id: Seq<char>, storage: WeightStorage) -> bool {
    match crate::json::member(shards, id) {
        None => false,
        Some(tree) => match crate::json::tree_object(tree) {
            None => false,
            Some(pin) => pin.dom() == pin_fields(storage).to_set(),
        },
    }
}

/// What is wrong with the names and the element type of a shard pin.
pub open spec fn pin_complaint(
    family: Family,
    pin: Members,
    id: Seq<char>,
    shard: int,
    storage: WeightStorage,
) -> Option<Seq<char>> {
    match storage {
        WeightStorage::F32 => crate::pack_manifest::keys_complaint(
            family,
            pin,
            pin_fields(storage),
            "shard pin"@,
        ),
        WeightStorage::F16 => crate::text::earlier(
            crate::pack_manifest::keys_complaint(
                family,
                pin,
                pin_fields(storage),
                "shard pin"@,
            ),
            crate::pack_manifest::text_complaint(
                family,
                pin,
                "dtype"@,
                "shard pin"@,
                dtype_name(shard_storage(shard, storage)),
                "shard "@ + id + " dtype drifted"@,
            ),
        ),
    }
}

/// What is wrong with the length of a shard.
pub open spec fn length_complaint(
    family: Family,
    pin: Members,
    id: Seq<char>,
    expected: Result<u64, Seq<char>>,
    byte_length: u64,
) -> Option<Seq<char>> {
    match expected {
        Err(message) => Some(message),
        Ok(bytes) => match crate::pack_manifest::u64_outcome(
            family,
            pin,
            "bytes"@,
            "shard pin"@,
        ) {
            Err(message) => Some(message),
            Ok(pinned) => if pinned != bytes || byte_length != bytes {
                Some(
                    crate::pack::pack_noun(family) + "shard "@ + id
                        + " declared length drifted"@,
                )
            } else {
                None
            },
        },
    }
}

/// What is wrong with a shard whose length is not a whole number of elements.
pub open spec fn element_complaint(
    family: Family,
    id: Seq<char>,
    byte_length: u64,
    storage: WeightStorage,
) -> Option<Seq<char>> {
    if byte_length % crate::family::element_bytes(storage) != 0 {
        match family {
            Family::Layer => Some(
                crate::pack::pack_noun(family) + "shard "@ + id + " is not f32 aligned"@,
            ),
            _ => Some(
                crate::pack::pack_noun(family) + "shard "@ + id
                    + " is not aligned to its authenticated storage element"@,
            ),
        }
    } else {
        None
    }
}

/// What is wrong with the digest that a pin names.
pub open spec fn pin_digest_complaint(
    family: Family,
    pin: Members,
    id: Seq<char>,
    digest: Seq<u8>,
) -> Option<Seq<char>> {
    match crate::pack_manifest::text_outcome(family, pin, "blake3"@, "shard pin"@) {
        Err(message) => Some(message),
        Ok(hex) => match crate::pack::hex_digest(family, hex, "shard pin blake3"@) {
            Err(message) => Some(message),
            Ok(pinned) => if pinned != digest {
                Some(crate::pack::pack_noun(family) + "shard "@ + id + " BLAKE3 pin drifted"@)
            } else {
                None
            },
        },
    }
}

/// What is wrong with the payload of a shard.
pub open spec fn payload_complaint(
    family: Family,
    payload: Seq<u8>,
    id: Seq<char>,
    storage: WeightStorage,
) -> Option<Seq<char>> {
    match storage {
        WeightStorage::F32 => crate::pack::singles_complaint(family, payload, id),
        WeightStorage::F16 => crate::pack::halves_complaint(family, payload, id),
    }
}

/// What is wrong with a shard: the first thing in the order of the checks.
pub open spec fn shard_complaint(
    family: Family,
    shards: Members,
    id: Seq<char>,
    shard: int,
    expected: Result<u64, Seq<char>>,
    entry: EntryModel,
    payload: Seq<u8>,
    storage: WeightStorage,
) -> Option<Seq<char>> {
    let pin = match crate::json::member(shards, id) {
        Some(tree) => crate::json::tree_object(tree),
        None => None,
    };
    match pin {
        None => Some(
            crate::pack::pack_noun(family) + "shard "@ + id + " pin must be an object"@,
        ),
        Some(members) => crate::text::earlier(
            pin_complaint(family, members, id, shard, storage),
            crate::text::earlier(
                length_complaint(family, members, id, expected, entry.byte_length),
                crate::text::earlier(
                    element_complaint(
                        family,
                        id,
                        entry.byte_length,
                        shard_storage(shard, storage),
                    ),
                    crate::text::earlier(
                        pin_digest_complaint(family, members, id, entry.digest),
                        payload_complaint(family, payload, id, shard_storage(shard, storage)),
                    ),
                ),
            ),
        ),
    }
}

fn storage_of_shard(shard_index: usize, storage: WeightStorage) -> (found: WeightStorage)
    ensures
        found == shard_storage(shard_index as int, storage),
{
    if shard_index == SHARD_ROPE_COS || shard_index == SHARD_ROPE_SIN {
        WeightStorage::F32
    } else {
        storage
    }
}

fn require_pin(
    family: Family,
    pin: &serde_json::Map<String, serde_json::Value>,
    id: &str,
    shard_index: usize,
    storage: WeightStorage,
) -> (outcome: Result<(), String>)
    ensures
        crate::text::complaint(outcome) == pin_complaint(
            family,
            crate::json::object_members(*pin),
            id@,
            shard_index as int,
            storage,
        ),
        outcome is Ok ==> crate::json::object_members(*pin).dom() == pin_fields(
            storage,
        ).to_set(),
{
    match storage {
        WeightStorage::F32 => {
            let fields: Vec<&str> = vec!["bytes", "blake3"];
            assert(crate::text::names(fields@) =~= pin_fields(storage));
            require_pack_exact_keys(family, pin, fields.as_slice(), "shard pin")
        },
        WeightStorage::F16 => {
            let fields: Vec<&str> = vec!["bytes", "blake3", "dtype"];
            assert(crate::text::names(fields@) =~= pin_fields(storage));
            require_pack_exact_keys(family, pin, fields.as_slice(), "shard pin")?;
            let dtype: &str = match storage_of_shard(shard_index, storage) {
                WeightStorage::F32 => "f32",
                WeightStorage::F16 => "f16",
            };
            let drift: String = crate::text::join3("shard ", id, " dtype drifted");
            require_text(family, pin, "dtype", "shard pin", dtype, drift.as_str())
        },
    }
}

fn require_length(
    family: Family,
    pin: &serde_json::Map<String, serde_json::Value>,
    id: &str,
    expected: Result<u64, String>,
    byte_length: u64,
) -> (outcome: Result<(), String>)
    ensures
        crate::text::complaint(outcome) == length_complaint(
            family,
            crate::json::object_members(*pin),
            id@,
            crate::text::said(expected),
            byte_length,
        ),
{
    let bytes: u64 = expected?;
    let pinned: u64 = pack_json_u64(family, pin, "bytes", "shard pin")?;
    if pinned != bytes || byte_length != bytes {
        return Err(
            join4(pack_subject(family).as_str(), "shard ", id, " declared length drifted"),
        );
    }
    Ok(())
}

fn require_elements(family: Family, id: &str, byte_length: u64, storage: WeightStorage) -> (outcome:
    Result<(), String>)
    ensures
        crate::text::complaint(outcome) == element_complaint(family, id@, byte_length, storage),
{
    if byte_length % storage.bytes_per_element() != 0 {
        let fault: &str = match family {
            Family::Layer => " is not f32 aligned",
            _ => " is not aligned to its authenticated storage element",
        };
        return Err(join4(pack_subject(family).as_str(), "shard ", id, fault));
    }
    Ok(())
}

fn require_pin_digest(
    family: Family,
    pin: &serde_json::Map<String, serde_json::Value>,
    id: &str,
    digest: &[u8; 32],
) -> (outcome: Result<(), String>)
    ensures
        crate::text::complaint(outcome) == pin_digest_complaint(
            family,
            crate::json::object_members(*pin),
            id@,
            digest@,
        ),
{
    let hex: &str = pack_json_str(family, pin, "blake3", "shard pin")?;
    let pinned: [u8; 32] = pack_hex_digest(family, hex, "shard pin blake3")?;
    if !crate::text::same_bytes(pinned.as_slice(), digest.as_slice()) {
        return Err(join4(pack_subject(family).as_str(), "shard ", id, " BLAKE3 pin drifted"));
    }
    Ok(())
}

/// Checks one shard against its pin, its size and its elements.
pub fn require_shard(
    family: Family,
    shards: &serde_json::Map<String, serde_json::Value>,
    id: &str,
    shard_index: usize,
    expected: Result<u64, String>,
    entry: &PackEntry,
    payload: &[u8],
    storage: WeightStorage,
) -> (outcome: Result<(), String>)
    ensures
        crate::text::complaint(outcome) == shard_complaint(
            family,
            crate::json::object_members(*shards),
            id@,
            shard_index as int,
            crate::text::said(expected),
            crate::pack_layout::entry_model(*entry),
            payload@,
            storage,
        ),
        outcome is Ok ==> pin_named(crate::json::object_members(*shards), id@, storage),
{
    let found: Option<&serde_json::Map<String, serde_json::Value>> = match json_get(shards, id) {
        Some(value) => json_as_object(value),
        None => None,
    };
    let pin: &serde_json::Map<String, serde_json::Value> = match found {
        Some(pin) => pin,
        None => {
            return Err(
                join4(pack_subject(family).as_str(), "shard ", id, " pin must be an object"),
            );
        },
    };
    require_pin(family, pin, id, shard_index, storage)?;
    require_length(family, pin, id, expected, entry.byte_length)?;
    let stored: WeightStorage = storage_of_shard(shard_index, storage);
    require_elements(family, id, entry.byte_length, stored)?;
    require_pin_digest(family, pin, id, &entry.digest)?;
    match stored {
        WeightStorage::F32 => require_pack_f32_finite(family, payload, id),
        WeightStorage::F16 => require_pack_f16_finite(family, payload, id),
    }
}

/// What is wrong with the shards from one of them on.
pub open spec fn shards_complaint_from(
    family: Family,
    pins: DecoderPins,
    shards: Members,
    ids: Seq<Seq<char>>,
    entries: Seq<EntryModel>,
    payloads: Seq<Seq<u8>>,
    cache_capacity: u32,
    storage: WeightStorage,
    index: int,
) -> Option<Seq<char>>
    decreases ids.len() - index,
{
    if index >= ids.len() {
        None
    } else {
        crate::text::earlier(
            shard_complaint(
                family,
                shards,
                ids[index],
                index - 1,
                shard_bytes(family, pins, index - 1, cache_capacity, storage),
                entries[index],
                payloads[index],
                storage,
            ),
            shards_complaint_from(
                family,
                pins,
                shards,
                ids,
                entries,
                payloads,
                cache_capacity,
                storage,
                index + 1,
            ),
        )
    }
}

/// Checks all shards of a pack; the first section is the descriptor.
fn require_shards(
    family: Family,
    pins: &DecoderPins,
    shards: &serde_json::Map<String, serde_json::Value>,
    ids: &[&str],
    entries: &Vec<PackEntry>,
    payloads: &Vec<&[u8]>,
    cache_capacity: u32,
    storage: WeightStorage,
) -> (outcome: Result<(), String>)
    requires
        ids.len() >= 1,
        entries.len() == ids.len(),
        payloads.len() == ids.len(),
    ensures
        crate::text::complaint(outcome) == shards_complaint_from(
            family,
            *pins,
            crate::json::object_members(*shards),
            crate::text::names(ids@),
            crate::pack_layout::entry_models(entries@),
            crate::pack_layout::payload_bytes(payloads@),
            cache_capacity,
            storage,
            1,
        ),
        outcome is Ok ==> forall|i: int|
            1 <= i < ids.len() ==> pin_named(
                crate::json::object_members(*shards),
                #[trigger] crate::text::names(ids@)[i],
                storage,
            ),
{
    let ghost pinned = crate::json::object_members(*shards);
    let ghost wanted = crate::text::names(ids@);
    let ghost models = crate::pack_layout::entry_models(entries@);
    let ghost contents = crate::pack_layout::payload_bytes(payloads@);
    let mut index: usize = 1;
    while index < ids.len()
        invariant
            1 <= index <= ids.len(),
            entries.len() == ids.len(),
            payloads.len() == ids.len(),
            pinned == crate::json::object_members(*shards),
            wanted == crate::text::names(ids@),
            models == crate::pack_layout::entry_models(entries@),
            contents == crate::pack_layout::payload_bytes(payloads@),
            forall|i: int| 1 <= i < index ==> pin_named(pinned, #[trigger] wanted[i], storage),
            shards_complaint_from(
                family,
                *pins,
                pinned,
                wanted,
                models,
                contents,
                cache_capacity,
                storage,
                1,
            ) == shards_complaint_from(
                family,
                *pins,
                pinned,
                wanted,
                models,
                contents,
                cache_capacity,
                storage,
                index as int,
            ),
        decreases ids.len() - index,
    {
        assert(wanted[index as int] == ids@[index as int]@);
        assert(models[index as int] == crate::pack_layout::entry_model(entries@[index as int]));
        assert(contents[index as int] == payloads@[index as int]@);
        let expected: Result<u64, String> = expected_shard_bytes(
            family,
            pins,
            index - 1,
            cache_capacity,
            storage,
        );
        require_shard(
            family,
            shards,
            ids[index],
            index - 1,
            expected,
            &entries[index],
            payloads[index],
            storage,
        )?;
        index += 1;
    }
    Ok(())
}

/// The shards of an admitted pack, in order, with how they are stored.
pub struct WeightPack {
    pub weight_storage: WeightStorage,
    pub checkpoint_blake3: Option<[u8; 32]>,
    pub shards: Vec<Vec<u8>>,
}

/// The shards of an admitted pack as plain data.
pub struct PackModel {
    pub storage: WeightStorage,
    pub checkpoint: Option<Seq<u8>>,
    pub shards: Seq<Seq<u8>>,
}

/// Byte vectors as byte sequences.
pub open spec fn contents(vectors: Seq<Vec<u8>>) -> Seq<Seq<u8>> {
    vectors.map_values(|vector: Vec<u8>| vector@)
}

/// A pack as plain data.
pub open spec fn pack_model(pack: WeightPack) -> PackModel {
    PackModel {
        storage: pack.weight_storage,
        checkpoint: crate::pack_descriptor::digest_option(pack.checkpoint_blake3),
        shards: contents(pack.shards@),
    }
}

/// A pack result as plain data.
pub open spec fn pack_said(outcome: Result<WeightPack, String>) -> Result<PackModel, Seq<char>> {
    match outcome {
        Ok(pack) => Ok(pack_model(pack)),
        Err(message) => Err(message@),
    }
}

/// The shards of a pack whose header is read, or why it is refused.
pub open spec fn body_outcome(
    family: Family,
    pins: DecoderPins,
    bytes: Seq<u8>,
    request: DescriptorRequest,
    prefix: PackPrefix,
) -> Result<PackModel, Seq<char>> {
    let ids = section_names(family, prefix.section_count);
    match crate::pack_manifest::manifest_outcome(
        family,
        bytes.subrange(PACK_HEADER_BYTES as int, prefix.manifest_end as int),
    ) {
        Err(message) => Err(message),
        Ok(storage) => match crate::pack_layout::directory_from(
            family,
            bytes,
            ids,
            prefix.directory_end as int,
            0,
            prefix.manifest_end as int,
            Seq::empty(),
        ) {
            Err(message) => Err(message),
            Ok(entries) => match crate::pack_layout::sections_from(
                family,
                bytes,
                ids,
                entries,
                0,
                prefix.directory_end as int,
                Seq::empty(),
            ) {
                Err(message) => Err(message),
                Ok(payloads) => match crate::pack_descriptor::descriptor_outcome(
                    family,
                    pins,
                    payloads[0],
                    request,
                    ids.drop_first(),
                    storage,
                ) {
                    Err(message) => Err(message),
                    Ok(descriptor) => match shards_complaint_from(
                        family,
                        pins,
                        descriptor.shards,
                        ids,
                        entries,
                        payloads,
                        request.cache_capacity,
                        storage,
                        1,
                    ) {
                        Some(message) => Err(message),
                        None => Ok(
                            PackModel {
                                storage,
                                checkpoint: descriptor.checkpoint,
                                shards: payloads.drop_first(),
                            },
                        ),
                    },
                },
            },
        },
    }
}

/// The shards of a pack, or why it is refused.
pub open spec fn pack_outcome(
    family: Family,
    pins: DecoderPins,
    bytes: Seq<u8>,
    request: DescriptorRequest,
) -> Result<PackModel, Seq<char>> {
    match crate::pack_layout::prefix_outcome(family, bytes) {
        Err(message) => Err(message),
        Ok(prefix) => body_outcome(family, pins, bytes, request, prefix),
    }
}

/// Whether the JSON documents of a pack have exactly the names that they should: its manifest,
/// its descriptor, the shard pins in it, and each of the pins.
pub open spec fn documents_named(
    family: Family,
    bytes: Seq<u8>,
    prefix: PackPrefix,
    storage: WeightStorage,
) -> bool {
    let ids = section_names(family, prefix.section_count);
    let directory = crate::pack_layout::directory_from(
        family,
        bytes,
        ids,
        prefix.directory_end as int,
        0,
        prefix.manifest_end as int,
        Seq::empty(),
    );
    let sections = crate::pack_layout::sections_from(
        family,
        bytes,
        ids,
        directory->Ok_0,
        0,
        prefix.directory_end as int,
        Seq::empty(),
    );
    let descriptor = crate::pack_manifest::object_outcome(
        family,
        sections->Ok_0[0],
        "descriptor"@,
    )->Ok_0;
    let shards = crate::json::tree_object(descriptor["shards"@])->0;
    &&& crate::pack_manifest::object_named(
        family,
        bytes.subrange(PACK_HEADER_BYTES as int, prefix.manifest_end as int),
        "manifest"@,
        crate::pack_manifest::manifest_fields(),
    )
    &&& directory is Ok
    &&& sections is Ok
    &&& crate::pack_manifest::object_named(
        family,
        sections->Ok_0[0],
        "descriptor"@,
        crate::pack_descriptor::descriptor_fields(family, storage),
    )
    &&& crate::json::tree_object(descriptor["shards"@]) is Some
    &&& shards.dom() == ids.drop_first().to_set()
    &&& forall|i: int| 1 <= i < ids.len() ==> pin_named(shards, #[trigger] ids[i], storage)
}

/// Whether a pack has a header, and documents with exactly the names that they should have.
pub open spec fn pack_named(family: Family, bytes: Seq<u8>, storage: WeightStorage) -> bool {
    match crate::pack_layout::prefix_outcome(family, bytes) {
        Err(_) => false,
        Ok(prefix) => documents_named(family, bytes, prefix, storage),
    }
}

fn own_shards(payloads: &Vec<&[u8]>) -> (shards: Vec<Vec<u8>>)
    requires
        payloads.len() >= 1,
    ensures
        contents(shards@) == crate::pack_layout::payload_bytes(payloads@).drop_first(),
        shards.len() == payloads.len() - 1,
{
    let mut shards: Vec<Vec<u8>> = Vec::new();
    let mut index: usize = 1;
    while index < payloads.len()
        invariant
            1 <= index <= payloads.len(),
            shards.len() == index - 1,
            forall|i: int| 0 <= i < index - 1 ==> (#[trigger] shards@[i])@ == payloads@[i + 1]@,
        decreases payloads.len() - index,
    {
        shards.push(slice_to_vec(payloads[index]));
        index += 1;
    }
    assert(contents(shards@) =~= crate::pack_layout::payload_bytes(payloads@).drop_first());
    shards
}

fn parse_body(
    family: Family,
    pins: &DecoderPins,
    pack_bytes: &[u8],
    request: DescriptorRequest,
    prefix: &PackPrefix,
) -> (pack: Result<WeightPack, String>)
    requires
        PACK_HEADER_BYTES <= prefix.manifest_end <= prefix.directory_end <= pack_bytes.len(),
    ensures
        pack_said(pack) == body_outcome(family, *pins, pack_bytes@, request, *prefix),
        pack matches Ok(found) ==> documents_named(
            family,
            pack_bytes@,
            *prefix,
            found.weight_storage,
        ),
        pack matches Ok(found) ==> admitted_shard_count(family, found.shards.len() as int),
{
    let ids: Vec<&'static str> = section_ids(family, prefix.section_count);
    let weight_storage: WeightStorage = validate_pack_manifest(
        family,
        slice_subrange(pack_bytes, PACK_HEADER_BYTES, prefix.manifest_end),
    )?;
    let entries: Vec<PackEntry> = read_directory(family, pack_bytes, ids.as_slice(), prefix)?;
    let payloads: Vec<&[u8]> = read_sections(
        family,
        pack_bytes,
        ids.as_slice(),
        &entries,
        prefix.directory_end,
    )?;
    assert(crate::pack_layout::payload_bytes(payloads@)[0] == payloads@[0]@);
    let shard_ids: &[&'static str] = slice_subrange(ids.as_slice(), 1, ids.len());
    assert(crate::text::names(shard_ids@) =~= crate::text::names(ids@).drop_first());
    let descriptor: ValidatedDescriptor = validate_pack_descriptor(
        family,
        pins,
        payloads[0],
        request,
        shard_ids,
        weight_storage,
    )?;
    require_shards(
        family,
        pins,
        &descriptor.shards,
        ids.as_slice(),
        &entries,
        &payloads,
        request.cache_capacity,
        weight_storage,
    )?;
    Ok(
        WeightPack {
            weight_storage,
            checkpoint_blake3: descriptor.checkpoint_blake3,
            shards: own_shards(&payloads),
        },
    )
}

/// Admits a weight pack, and gives its shards.
pub fn parse_weight_pack(
    family: Family,
    pins: &DecoderPins,
    pack_bytes: &[u8],
    request: DescriptorRequest,
) -> (pack: Result<WeightPack, String>)
    ensures
        pack_said(pack) == pack_outcome(family, *pins, pack_bytes@, request),
        pack matches Ok(found) ==> pack_named(family, pack_bytes@, found.weight_storage),
        pack matches Ok(found) ==> admitted_shard_count(family, found.shards.len() as int),
{
    let prefix: PackPrefix = read_prefix(family, pack_bytes)?;
    parse_body(family, pins, pack_bytes, request, &prefix)
}

/// Admits the weight pack of one layer's attention block.
pub fn parse_layer_weight_pack(
    pins: &DecoderPins,
    pack_bytes: &[u8],
    expected_prefix_tokens: u32,
    expected_cache_capacity: u32,
) -> (pack: Result<WeightPack, String>)
    ensures
        pack_said(pack) == pack_outcome(
            Family::Layer,
            *pins,
            pack_bytes@,
            (DescriptorRequest {
                prefix_tokens: expected_prefix_tokens,
                cache_capacity: expected_cache_capacity,
                prefill_capable: false,
            }),
        ),
        pack matches Ok(found) ==> found.shards.len() == 7,
        pack matches Ok(found) ==> pack_named(Family::Layer, pack_bytes@, found.weight_storage),
{
    parse_weight_pack(
        Family::Layer,
        pins,
        pack_bytes,
        DescriptorRequest {
            prefix_tokens: expected_prefix_tokens,
            cache_capacity: expected_cache_capacity,
            prefill_capable: false,
        },
    )
}

/// Admits the weight pack of the decoder stack.
pub fn parse_stack_weight_pack(
    pins: &DecoderPins,
    pack_bytes: &[u8],
    expected_prefix_tokens: u32,
    expected_cache_capacity: u32,
    prefill_capable: bool,
) -> (pack: Result<WeightPack, String>)
    ensures
        pack_said(pack) == pack_outcome(
            Family::Stack,
            *pins,
            pack_bytes@,
            (DescriptorRequest {
                prefix_tokens: expected_prefix_tokens,
                cache_capacity: expected_cache_capacity,
                prefill_capable,
            }),
        ),
        pack matches Ok(found) ==> found.shards.len() == 11 || found.shards.len() == 13,
        pack matches Ok(found) ==> pack_named(Family::Stack, pack_bytes@, found.weight_storage),
{
    parse_weight_pack(
        Family::Stack,
        pins,
        pack_bytes,
        DescriptorRequest {
            prefix_tokens: expected_prefix_tokens,
            cache_capacity: expected_cache_capacity,
            prefill_capable,
        },
    )
}

} // verus!
