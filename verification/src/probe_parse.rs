//! The half-precision weight probe: its fixture, read from JSON.

use crate::ieee::{narrow, single_is_finite};
use crate::json::{
    json_as_array, json_as_double, json_as_object, json_as_str, json_as_u64, json_get, json_len,
    json_parse, missing_key, JsonTree, Members,
};
use crate::text::{join2, join3, join4, join5};
use vstd::prelude::*;

verus! {

/// The members of an object with exactly the given names, or why a tree is none.
pub open spec fn object_outcome(tree: JsonTree, keys: Seq<Seq<char>>, label: Seq<char>) -> Result<
    Members,
    Seq<char>,
> {
    match crate::json::tree_object(tree) {
        None => Err("M7q1 "@ + label + " must be an object"@),
        Some(members) => if members.dom().len() != keys.len() || crate::json::first_missing(
            keys,
            members,
        ) is Some {
            Err("M7q1 "@ + label + " keys drifted"@)
        } else {
            Ok(members)
        },
    }
}

/// An object with exactly the given names.
pub fn m7q1_object<'a>(
    value: &'a serde_json::Value,
    expected_keys: &[&'static str],
    label: &str,
) -> (object: Result<&'a serde_json::Map<String, serde_json::Value>, String>)
    ensures
        (match object {
            Ok(found) => Ok(crate::json::object_members(*found)),
            Err(message) => Err(message@),
        }) == object_outcome(
            crate::json::value_tree(*value),
            crate::text::names(expected_keys@),
            label@,
        ),
{
    let object: &'a serde_json::Map<String, serde_json::Value> = match json_as_object(value) {
        Some(object) => object,
        None => {
            return Err(join3("M7q1 ", label, " must be an object"));
        },
    };
    if json_len(object) != expected_keys.len() || missing_key(object, expected_keys).is_some() {
        return Err(join3("M7q1 ", label, " keys drifted"));
    }
    Ok(object)
}

/// The member of a name, or the message that there is none.
pub open spec fn member_outcome(members: Members, key: Seq<char>, label: Seq<char>) -> Result<
    JsonTree,
    Seq<char>,
> {
    match crate::json::member(members, key) {
        Some(tree) => Ok(tree),
        None => Err("M7q1 "@ + label + " is missing field "@ + key),
    }
}

/// The member of a name.
pub fn m7q1_field<'a>(
    object: &'a serde_json::Map<String, serde_json::Value>,
    key: &str,
    label: &str,
) -> (field: Result<&'a serde_json::Value, String>)
    ensures
        (match field {
            Ok(value) => Ok(crate::json::value_tree(*value)),
            Err(message) => Err(message@),
        }) == member_outcome(crate::json::object_members(*object), key@, label@),
{
    match json_get(object, key) {
        Some(value) => Ok(value),
        None => Err(join4("M7q1 ", label, " is missing field ", key)),
    }
}

/// The message about a field that is not what it must be.
pub open spec fn field_message(label: Seq<char>, key: Seq<char>, fault: Seq<char>) -> Seq<char> {
    "M7q1 "@ + label + " field "@ + key + fault
}

fn field_fault(label: &str, key: &str, fault: &str) -> (message: String)
    ensures
        message@ == field_message(label@, key@, fault@),
{
    join5("M7q1 ", label, " field ", key, fault)
}

/// The text of a field, or why there is none.
pub open spec fn text_outcome(members: Members, key: Seq<char>, label: Seq<char>) -> Result<
    Seq<char>,
    Seq<char>,
> {
    match member_outcome(members, key, label) {
        Err(message) => Err(message),
        Ok(tree) => match crate::json::tree_text(tree) {
            Some(text) => Ok(text),
            None => Err(field_message(label, key, " must be a string"@)),
        },
    }
}

/// The text of a field.
pub fn m7q1_string(
    object: &serde_json::Map<String, serde_json::Value>,
    key: &str,
    label: &str,
) -> (text: Result<String, String>)
    ensures
        crate::text::said_text(text) == text_outcome(
            crate::json::object_members(*object),
            key@,
            label@,
        ),
{
    let value: &serde_json::Value = m7q1_field(object, key, label)?;
    match json_as_str(value) {
        Some(text) => Ok(text.to_owned()),
        None => Err(field_fault(label, key, " must be a string")),
    }
}

/// The 32-bit integer of a field, or why there is none.
pub open spec fn integer_outcome(members: Members, key: Seq<char>, label: Seq<char>) -> Result<
    u32,
    Seq<char>,
> {
    match member_outcome(members, key, label) {
        Err(message) => Err(message),
        Ok(tree) => match crate::json::tree_u64(tree) {
            None => Err(field_message(label, key, " must be an unsigned integer"@)),
            Some(integer) => if integer > u32::MAX {
                Err(field_message(label, key, " is out of range"@))
            } else {
                Ok(integer as u32)
            },
        },
    }
}

/// The 32-bit integer of a field.
pub fn m7q1_u32(
    object: &serde_json::Map<String, serde_json::Value>,
    key: &str,
    label: &str,
) -> (integer: Result<u32, String>)
    ensures
        crate::text::said(integer) == integer_outcome(
            crate::json::object_members(*object),
            key@,
            label@,
        ),
{
    let value: &serde_json::Value = m7q1_field(object, key, label)?;
    match json_as_u64(value) {
        None => Err(field_fault(label, key, " must be an unsigned integer")),
        Some(integer) => if integer > u32::MAX as u64 {
            Err(field_fault(label, key, " is out of range"))
        } else {
            Ok(integer as u32)
        },
    }
}

/// The single-precision bits of a field, or why there are none.
pub open spec fn single_outcome(members: Members, key: Seq<char>, label: Seq<char>) -> Result<
    u32,
    Seq<char>,
> {
    match member_outcome(members, key, label) {
        Err(message) => Err(message),
        Ok(tree) => match crate::json::tree_double(tree) {
            None => Err(field_message(label, key, " must be a number"@)),
            Some(double) => if !crate::ieee::single_finite(crate::ieee::narrowed(double)) {
                Err(field_message(label, key, " is outside finite f32"@))
            } else {
                Ok(crate::ieee::narrowed(double))
            },
        },
    }
}

/// The single-precision bits of a field.
pub fn m7q1_f32(
    object: &serde_json::Map<String, serde_json::Value>,
    key: &str,
    label: &str,
) -> (single: Result<u32, String>)
    ensures
        crate::text::said(single) == single_outcome(
            crate::json::object_members(*object),
            key@,
            label@,
        ),
{
    let value: &serde_json::Value = m7q1_field(object, key, label)?;
    match json_as_double(value) {
        None => Err(field_fault(label, key, " must be a number")),
        Some(double) => {
            let single: u32 = narrow(double);
            if !single_is_finite(single) {
                return Err(field_fault(label, key, " is outside finite f32"));
            }
            Ok(single)
        },
    }
}

/// The single-precision bits of the numbers of an array from one on, or the first that has
/// none.
pub open spec fn singles_from(
    elements: Seq<JsonTree>,
    label: Seq<char>,
    index: int,
    read: Seq<u32>,
) -> Result<Seq<u32>, Seq<char>>
    decreases elements.len() - index,
{
    if index >= elements.len() {
        Ok(read)
    } else {
        match crate::json::tree_double(elements[index]) {
            None => Err("M7q1 "@ + label + " array is not numeric"@),
            Some(double) => if !crate::ieee::single_finite(crate::ieee::narrowed(double)) {
                Err("M7q1 "@ + label + " array contains a value outside finite f32"@)
            } else {
                singles_from(
                    elements,
                    label,
                    index + 1,
                    read.push(crate::ieee::narrowed(double)),
                )
            },
        }
    }
}

/// The single-precision bits of an array field, or why there are none.
pub open spec fn singles_outcome(members: Members, key: Seq<char>, label: Seq<char>) -> Result<
    Seq<u32>,
    Seq<char>,
> {
    match member_outcome(members, key, label) {
        Err(message) => Err(message),
        Ok(tree) => match crate::json::tree_array(tree) {
            None => Err(field_message(label, key, " must be an array"@)),
            Some(elements) => singles_from(elements, label, 0, Seq::empty()),
        },
    }
}

/// The single-precision bits of an array field.
pub fn m7q1_f32_array(
    object: &serde_json::Map<String, serde_json::Value>,
    key: &str,
    label: &str,
) -> (singles: Result<Vec<u32>, String>)
    ensures
        crate::operands::words_said(singles) == singles_outcome(
            crate::json::object_members(*object),
            key@,
            label@,
        ),
{
    let value: &serde_json::Value = m7q1_field(object, key, label)?;
    let elements: &Vec<serde_json::Value> = match json_as_array(value) {
        Some(elements) => elements,
        None => {
            return Err(field_fault(label, key, " must be an array"));
        },
    };
    let ghost trees = crate::json::trees(elements@);
    let mut singles: Vec<u32> = Vec::new();
    let mut index: usize = 0;
    assert(singles@ =~= Seq::<u32>::empty());
    while index < elements.len()
        invariant
            index <= elements.len(),
            trees == crate::json::trees(elements@),
            singles_outcome(crate::json::object_members(*object), key@, label@)
                == singles_from(trees, label@, index as int, singles@),
        decreases elements.len() - index,
    {
        assert(trees[index as int] == crate::json::value_tree(elements@[index as int]));
        match json_as_double(&elements[index]) {
            None => {
                return Err(join3("M7q1 ", label, " array is not numeric"));
            },
            Some(double) => {
                let single: u32 = narrow(double);
                if !single_is_finite(single) {
                    return Err(
                        join3("M7q1 ", label, " array contains a value outside finite f32"),
                    );
                }
                singles.push(single);
            },
        }
        index += 1;
    }
    Ok(singles)
}

/// The 16-bit integers of an array from one on, or the message that one is none.
pub open spec fn halves_from(
    elements: Seq<JsonTree>,
    label: Seq<char>,
    index: int,
    read: Seq<u16>,
) -> Result<Seq<u16>, Seq<char>>
    decreases elements.len() - index,
{
    if index >= elements.len() {
        Ok(read)
    } else {
        match crate::json::tree_u64(elements[index]) {
            Some(integer) => if integer > u16::MAX {
                Err("M7q1 "@ + label + " array contains a non-u16 value"@)
            } else {
                halves_from(elements, label, index + 1, read.push(integer as u16))
            },
            None => Err("M7q1 "@ + label + " array contains a non-u16 value"@),
        }
    }
}

/// The 16-bit integers of an array field, or why there are none.
pub open spec fn halves_outcome(members: Members, key: Seq<char>, label: Seq<char>) -> Result<
    Seq<u16>,
    Seq<char>,
> {
    match member_outcome(members, key, label) {
        Err(message) => Err(message),
        Ok(tree) => match crate::json::tree_array(tree) {
            None => Err(field_message(label, key, " must be an array"@)),
            Some(elements) => halves_from(elements, label, 0, Seq::empty()),
        },
    }
}

/// A vector of 16-bit integers, or a message, as plain data.
pub open spec fn halves_said(outcome: Result<Vec<u16>, String>) -> Result<Seq<u16>, Seq<char>> {
    match outcome {
        Ok(halves) => Ok(halves@),
        Err(message) => Err(message@),
    }
}

/// The 16-bit integers of an array field: half-precision bits.
pub fn m7q1_u16_array(
    object: &serde_json::Map<String, serde_json::Value>,
    key: &str,
    label: &str,
) -> (halves: Result<Vec<u16>, String>)
    ensures
        halves_said(halves) == halves_outcome(
            crate::json::object_members(*object),
            key@,
            label@,
        ),
{
    let value: &serde_json::Value = m7q1_field(object, key, label)?;
    let elements: &Vec<serde_json::Value> = match json_as_array(value) {
        Some(elements) => elements,
        None => {
            return Err(field_fault(label, key, " must be an array"));
        },
    };
    let ghost trees = crate::json::trees(elements@);
    let mut halves: Vec<u16> = Vec::new();
    let mut index: usize = 0;
    assert(halves@ =~= Seq::<u16>::empty());
    while index < elements.len()
        invariant
            index <= elements.len(),
            trees == crate::json::trees(elements@),
            halves_outcome(crate::json::object_members(*object), key@, label@) == halves_from(
                trees,
                label@,
                index as int,
                halves@,
            ),
        decreases elements.len() - index,
    {
        assert(trees[index as int] == crate::json::value_tree(elements@[index as int]));
        match json_as_u64(&elements[index]) {
            Some(integer) => {
                if integer > u16::MAX as u64 {
                    return Err(join3("M7q1 ", label, " array contains a non-u16 value"));
                }
                halves.push(integer as u16);
            },
            None => {
                return Err(join3("M7q1 ", label, " array contains a non-u16 value"));
            },
        }
        index += 1;
    }
    Ok(halves)
}

/// How many shards of a checkpoint are stored in half and in single precision.
pub struct PartitionProbe {
    pub f16_checkpoint_shards: u32,
    pub f32_rope_table_shards: u32,
}

/// How many shards of a checkpoint are stored in half and in single precision, as plain data.
pub struct PartitionProbeModel {
    pub f16_checkpoint_shards: u32,
    pub f32_rope_table_shards: u32,
}

/// How many shards of a checkpoint are stored in half and in single precision, as plain data.
pub open spec fn partition_model(probe: PartitionProbe) -> PartitionProbeModel {
    PartitionProbeModel {
        f16_checkpoint_shards: probe.f16_checkpoint_shards,
        f32_rope_table_shards: probe.f32_rope_table_shards,
    }
}

/// How many shards of a checkpoint are stored in half and in single precision, or why an object
/// that says so is refused.
pub open spec fn partition_outcome(members: Members, label: Seq<char>) -> Result<
    PartitionProbeModel,
    Seq<char>,
> {
    match integer_outcome(members, "f16_checkpoint_shards"@, label) {
        Err(message) => Err(message),
        Ok(f16_checkpoint_shards) => match integer_outcome(members, "f32_rope_table_shards"@, label) {
            Err(message) => Err(message),
            Ok(f32_rope_table_shards) => Ok(
                PartitionProbeModel { f16_checkpoint_shards, f32_rope_table_shards },
            ),
        },
    }
}

fn parse_partition(object: &serde_json::Map<String, serde_json::Value>, label: &str) -> (probe: Result<
    PartitionProbe,
    String,
>)
    ensures
        (match probe {
            Ok(found) => Ok(partition_model(found)),
            Err(message) => Err(message@),
        }) == partition_outcome(crate::json::object_members(*object), label@),
{
    let f16_checkpoint_shards: u32 = m7q1_u32(object, "f16_checkpoint_shards", label)?;
    let f32_rope_table_shards: u32 = m7q1_u32(object, "f32_rope_table_shards", label)?;
    Ok(PartitionProbe { f16_checkpoint_shards, f32_rope_table_shards })
}

/// The operands of an RMS-norm probe; single-precision values are bits.
pub struct RmsProbe {
    pub rows: u32,
    pub width: u32,
    pub epsilon: u32,
    pub input: Vec<u32>,
    pub weight_f16: Vec<u16>,
}

/// The operands of an RMS-norm probe, as plain data.
pub struct RmsProbeModel {
    pub rows: u32,
    pub width: u32,
    pub epsilon: u32,
    pub input: Seq<u32>,
    pub weight_f16: Seq<u16>,
}

/// The operands of an RMS-norm probe, as plain data.
pub open spec fn rms_model(probe: RmsProbe) -> RmsProbeModel {
    RmsProbeModel {
        rows: probe.rows,
        width: probe.width,
        epsilon: probe.epsilon,
        input: probe.input@,
        weight_f16: probe.weight_f16@,
    }
}

/// The operands of an RMS-norm probe in an object, or why they are refused.
pub open spec fn rms_outcome(members: Members, label: Seq<char>) -> Result<
    RmsProbeModel,
    Seq<char>,
> {
    match integer_outcome(members, "rows"@, label) {
        Err(message) => Err(message),
        Ok(rows) => match integer_outcome(members, "width"@, label) {
            Err(message) => Err(message),
            Ok(width) => match single_outcome(members, "epsilon"@, label) {
                Err(message) => Err(message),
                Ok(epsilon) => match singles_outcome(members, "input"@, label) {
                    Err(message) => Err(message),
                    Ok(input) => match halves_outcome(members, "weight_f16"@, label) {
                        Err(message) => Err(message),
                        Ok(weight_f16) => Ok(
                            RmsProbeModel { rows, width, epsilon, input, weight_f16 },
                        ),
                    },
                },
            },
        },
    }
}

fn parse_rms(object: &serde_json::Map<String, serde_json::Value>, label: &str) -> (probe: Result<
    RmsProbe,
    String,
>)
    ensures
        (match probe {
            Ok(found) => Ok(rms_model(found)),
            Err(message) => Err(message@),
        }) == rms_outcome(crate::json::object_members(*object), label@),
{
    let rows: u32 = m7q1_u32(object, "rows", label)?;
    let width: u32 = m7q1_u32(object, "width", label)?;
    let epsilon: u32 = m7q1_f32(object, "epsilon", label)?;
    let input: Vec<u32> = m7q1_f32_array(object, "input", label)?;
    let weight_f16: Vec<u16> = m7q1_u16_array(object, "weight_f16", label)?;
    Ok(RmsProbe { rows, width, epsilon, input, weight_f16 })
}

/// The operands of a GEMV probe; single-precision values are bits.
pub struct GemvProbe {
    pub rows: u32,
    pub columns: u32,
    pub matrix_f16: Vec<u16>,
    pub vector: Vec<u32>,
}

/// The operands of a GEMV probe, as plain data.
pub struct GemvProbeModel {
    pub rows: u32,
    pub columns: u32,
    pub matrix_f16: Seq<u16>,
    pub vector: Seq<u32>,
}

/// The operands of a GEMV probe, as plain data.
pub open spec fn gemv_model(probe: GemvProbe) -> GemvProbeModel {
    GemvProbeModel {
        rows: probe.rows,
        columns: probe.columns,
        matrix_f16: probe.matrix_f16@,
        vector: probe.vector@,
    }
}

/// The operands of a GEMV probe in an object, or why they are refused.
pub open spec fn gemv_outcome(members: Members, label: Seq<char>) -> Result<
    GemvProbeModel,
    Seq<char>,
> {
    match integer_outcome(members, "rows"@, label) {
        Err(message) => Err(message),
        Ok(rows) => match integer_outcome(members, "columns"@, label) {
            Err(message) => Err(message),
            Ok(columns) => match halves_outcome(members, "matrix_f16"@, label) {
                Err(message) => Err(message),
                Ok(matrix_f16) => match singles_outcome(members, "vector"@, label) {
                    Err(message) => Err(message),
                    Ok(vector) => Ok(
                        GemvProbeModel { rows, columns, matrix_f16, vector },
                    ),
                },
            },
        },
    }
}

fn parse_gemv(object: &serde_json::Map<String, serde_json::Value>, label: &str) -> (probe: Result<
    GemvProbe,
    String,
>)
    ensures
        (match probe {
            Ok(found) => Ok(gemv_model(found)),
            Err(message) => Err(message@),
        }) == gemv_outcome(crate::json::object_members(*object), label@),
{
    let rows: u32 = m7q1_u32(object, "rows", label)?;
    let columns: u32 = m7q1_u32(object, "columns", label)?;
    let matrix_f16: Vec<u16> = m7q1_u16_array(object, "matrix_f16", label)?;
    let vector: Vec<u32> = m7q1_f32_array(object, "vector", label)?;
    Ok(GemvProbe { rows, columns, matrix_f16, vector })
}

/// The operands of a linear-projection probe; single-precision values are bits.
pub struct LinearProbe {
    pub tokens: u32,
    pub input_width: u32,
    pub output_width: u32,
    pub input: Vec<u32>,
    pub weight_f16: Vec<u16>,
    pub bias: Vec<u32>,
}

/// The operands of a linear-projection probe, as plain data.
pub struct LinearProbeModel {
    pub tokens: u32,
    pub input_width: u32,
    pub output_width: u32,
    pub input: Seq<u32>,
    pub weight_f16: Seq<u16>,
    pub bias: Seq<u32>,
}

/// The operands of a linear-projection probe, as plain data.
pub open spec fn linear_model(probe: LinearProbe) -> LinearProbeModel {
    LinearProbeModel {
        tokens: probe.tokens,
        input_width: probe.input_width,
        output_width: probe.output_width,
        input: probe.input@,
        weight_f16: probe.weight_f16@,
        bias: probe.bias@,
    }
}

/// The operands of a linear-projection probe in an object, or why they are refused.
pub open spec fn linear_outcome(members: Members, label: Seq<char>) -> Result<
    LinearProbeModel,
    Seq<char>,
> {
    match integer_outcome(members, "tokens"@, label) {
        Err(message) => Err(message),
        Ok(tokens) => match integer_outcome(members, "input_width"@, label) {
            Err(message) => Err(message),
            Ok(input_width) => match integer_outcome(members, "output_width"@, label) {
                Err(message) => Err(message),
                Ok(output_width) => match singles_outcome(members, "input"@, label) {
                    Err(message) => Err(message),
                    Ok(input) => match halves_outcome(members, "weight_f16"@, label) {
                        Err(message) => Err(message),
                        Ok(weight_f16) => match singles_outcome(members, "bias"@, label) {
                            Err(message) => Err(message),
                            Ok(bias) => Ok(
                                LinearProbeModel {
                                    tokens,
                                    input_width,
                                    output_width,
                                    input,
                                    weight_f16,
                                    bias,
                                },
                            ),
                        },
                    },
                },
            },
        },
    }
}

fn parse_linear(object: &serde_json::Map<String, serde_json::Value>, label: &str) -> (probe: Result<
    LinearProbe,
    String,
>)
    ensures
        (match probe {
            Ok(found) => Ok(linear_model(found)),
            Err(message) => Err(message@),
        }) == linear_outcome(crate::json::object_members(*object), label@),
{
    let tokens: u32 = m7q1_u32(object, "tokens", label)?;
    let input_width: u32 = m7q1_u32(object, "input_width", label)?;
    let output_width: u32 = m7q1_u32(object, "output_width", label)?;
    let input: Vec<u32> = m7q1_f32_array(object, "input", label)?;
    let weight_f16: Vec<u16> = m7q1_u16_array(object, "weight_f16", label)?;
    let bias: Vec<u32> = m7q1_f32_array(object, "bias", label)?;
    Ok(LinearProbe { tokens, input_width, output_width, input, weight_f16, bias })
}

/// The operands of a vision-projection probe; single-precision values are bits.
pub struct VisionProbe {
    pub patches: u32,
    pub input_width: u32,
    pub output_width: u32,
    pub input: Vec<u32>,
    pub weight: Vec<u32>,
    pub bias: Vec<u32>,
}

/// The operands of a vision-projection probe, as plain data.
pub struct VisionProbeModel {
    pub patches: u32,
    pub input_width: u32,
    pub output_width: u32,
    pub input: Seq<u32>,
    pub weight: Seq<u32>,
    pub bias: Seq<u32>,
}

/// The operands of a vision-projection probe, as plain data.
pub open spec fn vision_model(probe: VisionProbe) -> VisionProbeModel {
    VisionProbeModel {
        patches: probe.patches,
        input_width: probe.input_width,
        output_width: probe.output_width,
        input: probe.input@,
        weight: probe.weight@,
        bias: probe.bias@,
    }
}

/// The operands of a vision-projection probe in an object, or why they are refused.
pub open spec fn vision_outcome(members: Members, label: Seq<char>) -> Result<
    VisionProbeModel,
    Seq<char>,
> {
    match integer_outcome(members, "patches"@, label) {
        Err(message) => Err(message),
        Ok(patches) => match integer_outcome(members, "input_width"@, label) {
            Err(message) => Err(message),
            Ok(input_width) => match integer_outcome(members, "output_width"@, label) {
                Err(message) => Err(message),
                Ok(output_width) => match singles_outcome(members, "input"@, label) {
                    Err(message) => Err(message),
                    Ok(input) => match singles_outcome(members, "weight"@, label) {
                        Err(message) => Err(message),
                        Ok(weight) => match singles_outcome(members, "bias"@, label) {
                            Err(message) => Err(message),
                            Ok(bias) => Ok(
                                VisionProbeModel {
                                    patches,
                                    input_width,
                                    output_width,
                                    input,
                                    weight,
                                    bias,
                                },
                            ),
                        },
                    },
                },
            },
        },
    }
}

fn parse_vision(object: &serde_json::Map<String, serde_json::Value>, label: &str) -> (probe: Result<
    VisionProbe,
    String,
>)
    ensures
        (match probe {
            Ok(found) => Ok(vision_model(found)),
            Err(message) => Err(message@),
        }) == vision_outcome(crate::json::object_members(*object), label@),
{
    let patches: u32 = m7q1_u32(object, "patches", label)?;
    let input_width: u32 = m7q1_u32(object, "input_width", label)?;
    let output_width: u32 = m7q1_u32(object, "output_width", label)?;
    let input: Vec<u32> = m7q1_f32_array(object, "input", label)?;
    let weight: Vec<u32> = m7q1_f32_array(object, "weight", label)?;
    let bias: Vec<u32> = m7q1_f32_array(object, "bias", label)?;
    Ok(VisionProbe { patches, input_width, output_width, input, weight, bias })
}

/// The names of the whole of a probe.
pub open spec fn root_keys() -> Seq<Seq<char>> {
    seq![
        "precision_profile"@,
        "checkpoint_blake3"@,
        "checkpoint_partition"@,
        "rms"@,
        "gemv"@,
        "linear"@,
        "linear_input_major"@,
        "vision"@,
    ]
}

fn root_names() -> (names: Vec<&'static str>)
    ensures
        crate::text::names(names@) == root_keys(),
{
    let names: Vec<&'static str> = vec![
        "precision_profile",
        "checkpoint_blake3",
        "checkpoint_partition",
        "rms",
        "gemv",
        "linear",
        "linear_input_major",
        "vision",
    ];
    assert(crate::text::names(names@) =~= root_keys());
    names
}

/// The names of the partition of a probe.
pub open spec fn partition_keys() -> Seq<Seq<char>> {
    seq![
        "f16_checkpoint_shards"@,
        "f32_rope_table_shards"@,
    ]
}

fn partition_names() -> (names: Vec<&'static str>)
    ensures
        crate::text::names(names@) == partition_keys(),
{
    let names: Vec<&'static str> = vec![
        "f16_checkpoint_shards",
        "f32_rope_table_shards",
    ];
    assert(crate::text::names(names@) =~= partition_keys());
    names
}

/// The names of the rms object of a probe.
pub open spec fn rms_keys() -> Seq<Seq<char>> {
    seq![
        "rows"@,
        "width"@,
        "epsilon"@,
        "input"@,
        "weight_f16"@,
    ]
}

fn rms_names() -> (names: Vec<&'static str>)
    ensures
        crate::text::names(names@) == rms_keys(),
{
    let names: Vec<&'static str> = vec![
        "rows",
        "width",
        "epsilon",
        "input",
        "weight_f16",
    ];
    assert(crate::text::names(names@) =~= rms_keys());
    names
}

/// The names of the gemv object of a probe.
pub open spec fn gemv_keys() -> Seq<Seq<char>> {
    seq![
        "rows"@,
        "columns"@,
        "matrix_f16"@,
        "vector"@,
    ]
}

fn gemv_names() -> (names: Vec<&'static str>)
    ensures
        crate::text::names(names@) == gemv_keys(),
{
    let names: Vec<&'static str> = vec![
        "rows",
        "columns",
        "matrix_f16",
        "vector",
    ];
    assert(crate::text::names(names@) =~= gemv_keys());
    names
}

/// The names of the linear object of a probe.
pub open spec fn linear_keys() -> Seq<Seq<char>> {
    seq![
        "tokens"@,
        "input_width"@,
        "output_width"@,
        "input"@,
        "weight_f16"@,
        "bias"@,
    ]
}

fn linear_names() -> (names: Vec<&'static str>)
    ensures
        crate::text::names(names@) == linear_keys(),
{
    let names: Vec<&'static str> = vec![
        "tokens",
        "input_width",
        "output_width",
        "input",
        "weight_f16",
        "bias",
    ];
    assert(crate::text::names(names@) =~= linear_keys());
    names
}

/// The names of the vision object of a probe.
pub open spec fn vision_keys() -> Seq<Seq<char>> {
    seq![
        "patches"@,
        "input_width"@,
        "output_width"@,
        "input"@,
        "weight"@,
        "bias"@,
    ]
}

fn vision_names() -> (names: Vec<&'static str>)
    ensures
        crate::text::names(names@) == vision_keys(),
{
    let names: Vec<&'static str> = vec![
        "patches",
        "input_width",
        "output_width",
        "input",
        "weight",
        "bias",
    ];
    assert(crate::text::names(names@) =~= vision_keys());
    names
}

/// The object that is the member of a name, with exactly the given names, or why there is none.
pub open spec fn section_outcome(
    root: Members,
    key: Seq<char>,
    keys: Seq<Seq<char>>,
    label: Seq<char>,
) -> Result<Members, Seq<char>> {
    match member_outcome(root, key, "weight probe"@) {
        Err(message) => Err(message),
        Ok(tree) => object_outcome(tree, keys, label),
    }
}

fn m7q1_section<'a>(
    root: &'a serde_json::Map<String, serde_json::Value>,
    key: &str,
    keys: &[&'static str],
    label: &str,
) -> (section: Result<&'a serde_json::Map<String, serde_json::Value>, String>)
    ensures
        (match section {
            Ok(found) => Ok(crate::json::object_members(*found)),
            Err(message) => Err(message@),
        }) == section_outcome(
            crate::json::object_members(*root),
            key@,
            crate::text::names(keys@),
            label@,
        ),
{
    let value: &'a serde_json::Value = m7q1_field(root, key, "weight probe")?;
    m7q1_object(value, keys, label)
}

/// The objects of a probe, as plain data.
pub struct SectionMembers {
    pub root: Members,
    pub partition: Members,
    pub rms: Members,
    pub gemv: Members,
    pub linear: Members,
    pub linear_input_major: Members,
    pub vision: Members,
}

struct Sections<'a> {
    root: &'a serde_json::Map<String, serde_json::Value>,
    partition: &'a serde_json::Map<String, serde_json::Value>,
    rms: &'a serde_json::Map<String, serde_json::Value>,
    gemv: &'a serde_json::Map<String, serde_json::Value>,
    linear: &'a serde_json::Map<String, serde_json::Value>,
    linear_input_major: &'a serde_json::Map<String, serde_json::Value>,
    vision: &'a serde_json::Map<String, serde_json::Value>,
}

spec fn sections_model(sections: Sections<'_>) -> SectionMembers {
    SectionMembers {
        root: crate::json::object_members(*sections.root),
        partition: crate::json::object_members(*sections.partition),
        rms: crate::json::object_members(*sections.rms),
        gemv: crate::json::object_members(*sections.gemv),
        linear: crate::json::object_members(*sections.linear),
        linear_input_major: crate::json::object_members(*sections.linear_input_major),
        vision: crate::json::object_members(*sections.vision),
    }
}

/// The objects of a probe, or why one is refused.
pub open spec fn sections_outcome(tree: JsonTree) -> Result<SectionMembers, Seq<char>> {
    match object_outcome(tree, root_keys(), "weight probe"@) {
        Err(message) => Err(message),
        Ok(root) => match section_outcome(
            root,
            "checkpoint_partition"@,
            partition_keys(),
            "checkpoint partition"@,
        ) {
            Err(message) => Err(message),
            Ok(partition) => match section_outcome(
                root,
                "rms"@,
                rms_keys(),
                "RMS probe"@,
            ) {
                Err(message) => Err(message),
                Ok(rms) => match section_outcome(
                    root,
                    "gemv"@,
                    gemv_keys(),
                    "GEMV probe"@,
                ) {
                    Err(message) => Err(message),
                    Ok(gemv) => match section_outcome(
                        root,
                        "linear"@,
                        linear_keys(),
                        "linear probe"@,
                    ) {
                        Err(message) => Err(message),
                        Ok(linear) => match section_outcome(
                            root,
                            "linear_input_major"@,
                            linear_keys(),
                            "input-major linear probe"@,
                        ) {
                            Err(message) => Err(message),
                            Ok(linear_input_major) => match section_outcome(
                                root,
                                "vision"@,
                                vision_keys(),
                                "vision probe"@,
                            ) {
                                Err(message) => Err(message),
                                Ok(vision) => Ok(
                                    SectionMembers {
                                        root,
                                        partition,
                                        rms,
                                        gemv,
                                        linear,
                                        linear_input_major,
                                        vision,
                                    },
                                ),
                            },
                        },
                    },
                },
            },
        },
    }
}

fn parse_sections<'a>(value: &'a serde_json::Value) -> (sections: Result<Sections<'a>, String>)
    ensures
        (match sections {
            Ok(found) => Ok(sections_model(found)),
            Err(message) => Err(message@),
        }) == sections_outcome(crate::json::value_tree(*value)),
{
    let root: &serde_json::Map<String, serde_json::Value> = m7q1_object(
        value,
        root_names().as_slice(),
        "weight probe",
    )?;
    let partition: &serde_json::Map<String, serde_json::Value> = m7q1_section(
        root,
        "checkpoint_partition",
        partition_names().as_slice(),
        "checkpoint partition",
    )?;
    let rms: &serde_json::Map<String, serde_json::Value> = m7q1_section(
        root,
        "rms",
        rms_names().as_slice(),
        "RMS probe",
    )?;
    let gemv: &serde_json::Map<String, serde_json::Value> = m7q1_section(
        root,
        "gemv",
        gemv_names().as_slice(),
        "GEMV probe",
    )?;
    let linear: &serde_json::Map<String, serde_json::Value> = m7q1_section(
        root,
        "linear",
        linear_names().as_slice(),
        "linear probe",
    )?;
    let linear_input_major: &serde_json::Map<String, serde_json::Value> = m7q1_section(
        root,
        "linear_input_major",
        linear_names().as_slice(),
        "input-major linear probe",
    )?;
    let vision: &serde_json::Map<String, serde_json::Value> = m7q1_section(
        root,
        "vision",
        vision_names().as_slice(),
        "vision probe",
    )?;
    Ok(Sections { root, partition, rms, gemv, linear, linear_input_major, vision })
}

/// A weight probe: kernels that read half-precision weights, and one that reads
/// single-precision ones.
pub struct WeightProbe {
    pub precision_profile: String,
    pub checkpoint_blake3: String,
    pub partition: PartitionProbe,
    pub rms: RmsProbe,
    pub gemv: GemvProbe,
    pub linear: LinearProbe,
    pub linear_input_major: LinearProbe,
    pub vision: VisionProbe,
}

/// A weight probe as plain data.
pub struct WeightProbeModel {
    pub precision_profile: Seq<char>,
    pub checkpoint_blake3: Seq<char>,
    pub partition: PartitionProbeModel,
    pub rms: RmsProbeModel,
    pub gemv: GemvProbeModel,
    pub linear: LinearProbeModel,
    pub linear_input_major: LinearProbeModel,
    pub vision: VisionProbeModel,
}

/// A weight probe as plain data.
pub open spec fn probe_model(probe: WeightProbe) -> WeightProbeModel {
    WeightProbeModel {
        precision_profile: probe.precision_profile@,
        checkpoint_blake3: probe.checkpoint_blake3@,
        partition: partition_model(probe.partition),
        rms: rms_model(probe.rms),
        gemv: gemv_model(probe.gemv),
        linear: linear_model(probe.linear),
        linear_input_major: linear_model(probe.linear_input_major),
        vision: vision_model(probe.vision),
    }
}

/// The probe that objects describe, or why they are refused.
pub open spec fn fields_outcome(sections: SectionMembers) -> Result<WeightProbeModel, Seq<char>> {
    match text_outcome(sections.root, "precision_profile"@, "weight probe"@) {
        Err(message) => Err(message),
        Ok(precision_profile) => match text_outcome(sections.root, "checkpoint_blake3"@, "weight probe"@) {
            Err(message) => Err(message),
            Ok(checkpoint_blake3) => match partition_outcome(sections.partition, "checkpoint partition"@) {
                Err(message) => Err(message),
                Ok(partition) => match rms_outcome(sections.rms, "RMS probe"@) {
                    Err(message) => Err(message),
                    Ok(rms) => match gemv_outcome(sections.gemv, "GEMV probe"@) {
                        Err(message) => Err(message),
                        Ok(gemv) => match linear_outcome(sections.linear, "linear probe"@) {
                            Err(message) => Err(message),
                            Ok(linear) => match linear_outcome(sections.linear_input_major, "input-major linear probe"@) {
                                Err(message) => Err(message),
                                Ok(linear_input_major) => match vision_outcome(sections.vision, "vision probe"@) {
                                    Err(message) => Err(message),
                                    Ok(vision) => Ok(
                                        WeightProbeModel {
                                            precision_profile,
                                            checkpoint_blake3,
                                            partition,
                                            rms,
                                            gemv,
                                            linear,
                                            linear_input_major,
                                            vision,
                                        },
                                    ),
                                },
                            },
                        },
                    },
                },
            },
        },
    }
}

fn parse_fields(sections: &Sections<'_>) -> (probe: Result<WeightProbe, String>)
    ensures
        (match probe {
            Ok(found) => Ok(probe_model(found)),
            Err(message) => Err(message@),
        }) == fields_outcome(sections_model(*sections)),
{
    let precision_profile: String = m7q1_string(
        sections.root,
        "precision_profile",
        "weight probe",
    )?;
    let checkpoint_blake3: String = m7q1_string(
        sections.root,
        "checkpoint_blake3",
        "weight probe",
    )?;
    let partition: PartitionProbe = parse_partition(sections.partition, "checkpoint partition")?;
    let rms: RmsProbe = parse_rms(sections.rms, "RMS probe")?;
    let gemv: GemvProbe = parse_gemv(sections.gemv, "GEMV probe")?;
    let linear: LinearProbe = parse_linear(sections.linear, "linear probe")?;
    let linear_input_major: LinearProbe = parse_linear(
        sections.linear_input_major,
        "input-major linear probe",
    )?;
    let vision: VisionProbe = parse_vision(sections.vision, "vision probe")?;
    Ok(
        WeightProbe {
            precision_profile,
            checkpoint_blake3,
            partition,
            rms,
            gemv,
            linear,
            linear_input_major,
            vision,
        },
    )
}

/// The probe that a parsed fixture describes, or why it is refused.
pub open spec fn fixture_outcome(parsed: Result<JsonTree, Seq<char>>) -> Result<
    WeightProbeModel,
    Seq<char>,
> {
    match parsed {
        Err(message) => Err("invalid M7q1 FP16 weight probe JSON: "@ + message),
        Ok(tree) => tree_outcome(tree),
    }
}

/// The probe that a JSON tree describes, or why it is refused.
pub open spec fn tree_outcome(tree: JsonTree) -> Result<WeightProbeModel, Seq<char>> {
    match sections_outcome(tree) {
        Err(message) => Err(message),
        Ok(sections) => fields_outcome(sections),
    }
}

/// A probe, or a message, as plain data.
pub open spec fn probe_said(outcome: Result<WeightProbe, String>) -> Result<
    WeightProbeModel,
    Seq<char>,
> {
    match outcome {
        Ok(probe) => Ok(probe_model(probe)),
        Err(message) => Err(message@),
    }
}

/// Reads a weight probe from its JSON value.
pub fn m7q1_weight_probe_from(value: &serde_json::Value) -> (probe: Result<WeightProbe, String>)
    ensures
        probe_said(probe) == tree_outcome(crate::json::value_tree(*value)),
{
    let sections: Sections<'_> = parse_sections(value)?;
    parse_fields(&sections)
}

/// Reads a weight probe from its JSON text.
pub fn parse_m7q1_weight_probe(fixture_json: &str) -> (probe: Result<WeightProbe, String>)
    ensures
        probe_said(probe) == fixture_outcome(crate::json::parsed_json(fixture_json@)),
{
    let value: serde_json::Value = match json_parse(fixture_json) {
        Ok(value) => value,
        Err(message) => {
            return Err(join2("invalid M7q1 FP16 weight probe JSON: ", message.as_str()));
        },
    };
    m7q1_weight_probe_from(&value)
}

} // verus!
