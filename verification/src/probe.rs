//! The half-precision weight probe: what it admits, its GPU work, and its report.

use crate::diagnostics::{insert_u64, json_text_of};
use crate::family::Family;
use crate::gpu::{
    buffer, copy, pass1, pass2, write_of_bytes, write_of_words, BindGroupModel, BindGroupPlan,
    Binding, BufferPlan, BufferUsage, Command, CommandModel, WriteModel, WritePlan,
};
use crate::ieee::{half_is_finite, single_equals, single_is_finite, widen};
use crate::json::{
    json_array, json_double, json_insert, json_new, json_object, json_text, JsonNumber, JsonTree,
};
use crate::kv::UNIFORM_BUFFER_BYTES;
use crate::operands::bytes_to_words;
use crate::pack::pack_hex_digest;
use crate::probe_parse::{
    GemvProbe, GemvProbeModel, LinearProbe, LinearProbeModel, PartitionProbe, RmsProbe,
    RmsProbeModel, VisionProbe, VisionProbeModel, WeightProbe, WeightProbeModel,
};
use crate::stack_encode::words_are_finite;
use crate::stack_resources::{
    pipeline, PipelineModel, PipelinePlan, LAYOUT_GEMV, LAYOUT_PROJECTION, LAYOUT_RMS,
    PIPELINE_GEMV_TILED_F16, PIPELINE_PROJECTION, PIPELINE_PROJECTION_F16, PIPELINE_RMS_NORM_F16,
};
use crate::stack_sources::{StackShaderSources, StackSourcesModel};
use crate::text::{join3, same};
use crate::words::{m7q1_f16_bytes, word_bytes};
use vstd::prelude::*;

verus! {

/// The product of dimensions from one on, or why it is refused.
pub open spec fn elements_from(
    dimensions: Seq<u32>,
    label: Seq<char>,
    index: int,
    product: int,
) -> Result<usize, Seq<char>>
    decreases dimensions.len() - index,
{
    if index >= dimensions.len() {
        if product > usize::MAX {
            Err("M7q1 "@ + label + " element count is not addressable"@)
        } else {
            Ok(product as usize)
        }
    } else if dimensions[index] == 0 {
        Err("M7q1 "@ + label + " has a zero dimension"@)
    } else if product * dimensions[index] > u64::MAX {
        Err("M7q1 "@ + label + " element count overflowed"@)
    } else {
        elements_from(dimensions, label, index + 1, product * dimensions[index])
    }
}

/// The number of elements that dimensions span.
pub fn m7q1_probe_elements(dimensions: &[u32], label: &str) -> (elements: Result<usize, String>)
    ensures
        crate::text::said(elements) == elements_from(dimensions@, label@, 0, 1),
{
    let mut product: u64 = 1;
    let mut index: usize = 0;
    while index < dimensions.len()
        invariant
            index <= dimensions.len(),
            elements_from(dimensions@, label@, 0, 1) == elements_from(
                dimensions@,
                label@,
                index as int,
                product as int,
            ),
        decreases dimensions.len() - index,
    {
        if dimensions[index] == 0 {
            return Err(join3("M7q1 ", label, " has a zero dimension"));
        }
        match product.checked_mul(dimensions[index] as u64) {
            Some(larger) => {
                product = larger;
            },
            None => {
                return Err(join3("M7q1 ", label, " element count overflowed"));
            },
        }
        index += 1;
    }
    if product > usize::MAX as u64 {
        return Err(join3("M7q1 ", label, " element count is not addressable"));
    }
    Ok(product as usize)
}

/// What is wrong with the single-precision values of an operand.
pub open spec fn singles_complaint(values: Seq<u32>, expected: int, label: Seq<char>) -> Option<
    Seq<char>,
> {
    if values.len() != expected {
        Some("M7q1 "@ + label + " length drifted from its geometry"@)
    } else if !crate::stack_encode::all_finite(values) {
        Some("M7q1 "@ + label + " contains a nonfinite f32 value"@)
    } else {
        None
    }
}

/// Requires an operand to be as long as its geometry says, and finite.
pub fn require_m7q1_f32(values: &[u32], expected: usize, label: &str) -> (outcome: Result<
    (),
    String,
>)
    ensures
        crate::text::complaint(outcome) == singles_complaint(values@, expected as int, label@),
{
    if values.len() != expected {
        return Err(join3("M7q1 ", label, " length drifted from its geometry"));
    }
    if !words_are_finite(values) {
        return Err(join3("M7q1 ", label, " contains a nonfinite f32 value"));
    }
    Ok(())
}

/// Whether all half-precision bit patterns are finite.
pub open spec fn all_half_finite(values: Seq<u16>) -> bool {
    forall|i: int| 0 <= i < values.len() ==> crate::ieee::half_finite(#[trigger] values[i])
}

/// What is wrong with the half-precision values of an operand.
pub open spec fn halves_complaint(values: Seq<u16>, expected: int, label: Seq<char>) -> Option<
    Seq<char>,
> {
    if values.len() != expected {
        Some("M7q1 "@ + label + " length drifted from its geometry"@)
    } else if !all_half_finite(values) {
        Some("M7q1 "@ + label + " contains a nonfinite f16 value"@)
    } else {
        None
    }
}

/// Requires a half-precision operand to be as long as its geometry says, and finite.
pub fn require_m7q1_f16(values: &[u16], expected: usize, label: &str) -> (outcome: Result<
    (),
    String,
>)
    ensures
        crate::text::complaint(outcome) == halves_complaint(values@, expected as int, label@),
{
    if values.len() != expected {
        return Err(join3("M7q1 ", label, " length drifted from its geometry"));
    }
    let mut index: usize = 0;
    while index < values.len()
        invariant
            index <= values.len(),
            values.len() == expected,
            forall|i: int|
                0 <= i < index ==> crate::ieee::half_finite(#[trigger] values@[i]),
        decreases values.len() - index,
    {
        if !half_is_finite(values[index]) {
            assert(!all_half_finite(values@));
            return Err(join3("M7q1 ", label, " contains a nonfinite f16 value"));
        }
        index += 1;
    }
    Ok(())
}

/// What is wrong with the profile, the checkpoint and the partition of a probe.
pub open spec fn identity_complaint(probe: WeightProbeModel) -> Option<Seq<char>> {
    if probe.precision_profile != "balanced"@ {
        Some("M7q1 weight probe precision profile drifted"@)
    } else {
        match crate::pack::hex_digest(
            Family::Stack,
            probe.checkpoint_blake3,
            "M7q1 checkpoint_blake3"@,
        ) {
            Err(message) => Some(message),
            Ok(_) => if probe.partition.f16_checkpoint_shards != 11
                || probe.partition.f32_rope_table_shards != 2 {
                Some("M7q1 weight probe checkpoint partition drifted"@)
            } else {
                None
            },
        }
    }
}

fn require_identity(probe: &WeightProbe) -> (outcome: Result<(), String>)
    ensures
        crate::text::complaint(outcome) == identity_complaint(
            crate::probe_parse::probe_model(*probe),
        ),
{
    if !same(probe.precision_profile.as_str(), "balanced") {
        return Err("M7q1 weight probe precision profile drifted".to_owned());
    }
    pack_hex_digest(
        Family::Stack,
        probe.checkpoint_blake3.as_str(),
        "M7q1 checkpoint_blake3",
    )?;
    if probe.partition.f16_checkpoint_shards != 11 || probe.partition.f32_rope_table_shards != 2 {
        return Err("M7q1 weight probe checkpoint partition drifted".to_owned());
    }
    Ok(())
}

/// What is wrong with an RMS-norm probe.
pub open spec fn rms_complaint(rms: RmsProbeModel) -> Option<Seq<char>> {
    match elements_from(seq![rms.rows, rms.width], "RMS input"@, 0, 1) {
        Err(message) => Some(message),
        Ok(elements) => crate::text::earlier(
            singles_complaint(rms.input, elements as int, "RMS input"@),
            crate::text::earlier(
                halves_complaint(rms.weight_f16, rms.width as int, "RMS weight"@),
                if !crate::ieee::single_finite(rms.epsilon) || !crate::ieee::single_positive(
                    rms.epsilon,
                ) {
                    Some("M7q1 RMS epsilon is invalid"@)
                } else {
                    None
                },
            ),
        ),
    }
}

fn require_rms(rms: &RmsProbe) -> (outcome: Result<(), String>)
    ensures
        crate::text::complaint(outcome) == rms_complaint(crate::probe_parse::rms_model(*rms)),
{
    let dimensions: Vec<u32> = vec![rms.rows, rms.width];
    assert(dimensions@ =~= seq![rms.rows, rms.width]);
    let elements: usize = m7q1_probe_elements(dimensions.as_slice(), "RMS input")?;
    require_m7q1_f32(rms.input.as_slice(), elements, "RMS input")?;
    require_m7q1_f16(rms.weight_f16.as_slice(), rms.width as usize, "RMS weight")?;
    if !single_is_finite(rms.epsilon) || rms.epsilon == 0 || rms.epsilon >= 0x8000_0000 {
        return Err("M7q1 RMS epsilon is invalid".to_owned());
    }
    Ok(())
}

/// What is wrong with a GEMV probe.
pub open spec fn gemv_complaint(gemv: GemvProbeModel) -> Option<Seq<char>> {
    if gemv.columns != 1024 && gemv.columns != 2048 && gemv.columns != 3072 {
        Some("M7q1 GEMV columns are outside the tiled decoder lattice"@)
    } else {
        match elements_from(seq![gemv.rows, gemv.columns], "GEMV matrix"@, 0, 1) {
            Err(message) => Some(message),
            Ok(elements) => crate::text::earlier(
                halves_complaint(gemv.matrix_f16, elements as int, "GEMV matrix"@),
                singles_complaint(gemv.vector, gemv.columns as int, "GEMV vector"@),
            ),
        }
    }
}

fn require_gemv(gemv: &GemvProbe) -> (outcome: Result<(), String>)
    ensures
        crate::text::complaint(outcome) == gemv_complaint(
            crate::probe_parse::gemv_model(*gemv),
        ),
{
    if gemv.columns != 1024 && gemv.columns != 2048 && gemv.columns != 3072 {
        return Err("M7q1 GEMV columns are outside the tiled decoder lattice".to_owned());
    }
    let dimensions: Vec<u32> = vec![gemv.rows, gemv.columns];
    assert(dimensions@ =~= seq![gemv.rows, gemv.columns]);
    let elements: usize = m7q1_probe_elements(dimensions.as_slice(), "GEMV matrix")?;
    require_m7q1_f16(gemv.matrix_f16.as_slice(), elements, "GEMV matrix")?;
    require_m7q1_f32(gemv.vector.as_slice(), gemv.columns as usize, "GEMV vector")
}

/// How messages name the operands of a linear-projection probe: input, weight and bias.
pub open spec fn linear_nouns(input_major: bool) -> (Seq<char>, Seq<char>, Seq<char>) {
    if input_major {
        (
            "input-major linear input"@,
            "input-major linear weight"@,
            "input-major linear bias"@,
        )
    } else {
        ("linear input"@, "linear weight"@, "linear bias"@)
    }
}

/// What is wrong with a linear-projection probe.
pub open spec fn linear_complaint(linear: LinearProbeModel, input_major: bool) -> Option<Seq<char>> {
    let (input, weight, bias) = linear_nouns(input_major);
    let shape = if input_major {
        seq![linear.input_width, linear.output_width]
    } else {
        seq![linear.output_width, linear.input_width]
    };
    match elements_from(seq![linear.tokens, linear.input_width], input, 0, 1) {
        Err(message) => Some(message),
        Ok(input_elements) => match elements_from(shape, weight, 0, 1) {
            Err(message) => Some(message),
            Ok(weight_elements) => crate::text::earlier(
                singles_complaint(linear.input, input_elements as int, input),
                crate::text::earlier(
                    halves_complaint(linear.weight_f16, weight_elements as int, weight),
                    singles_complaint(linear.bias, linear.output_width as int, bias),
                ),
            ),
        },
    }
}

fn require_linear(linear: &LinearProbe, input_major: bool) -> (outcome: Result<(), String>)
    ensures
        crate::text::complaint(outcome) == linear_complaint(
            crate::probe_parse::linear_model(*linear),
            input_major,
        ),
{
    let (input, weight, bias): (&str, &str, &str) = if input_major {
        (
            "input-major linear input",
            "input-major linear weight",
            "input-major linear bias",
        )
    } else {
        ("linear input", "linear weight", "linear bias")
    };
    let input_shape: Vec<u32> = vec![linear.tokens, linear.input_width];
    assert(input_shape@ =~= seq![linear.tokens, linear.input_width]);
    let weight_shape: Vec<u32> = if input_major {
        vec![linear.input_width, linear.output_width]
    } else {
        vec![linear.output_width, linear.input_width]
    };
    assert(weight_shape@ =~= (if input_major {
        seq![linear.input_width, linear.output_width]
    } else {
        seq![linear.output_width, linear.input_width]
    }));
    let input_elements: usize = m7q1_probe_elements(input_shape.as_slice(), input)?;
    let weight_elements: usize = m7q1_probe_elements(weight_shape.as_slice(), weight)?;
    require_m7q1_f32(linear.input.as_slice(), input_elements, input)?;
    require_m7q1_f16(linear.weight_f16.as_slice(), weight_elements, weight)?;
    require_m7q1_f32(linear.bias.as_slice(), linear.output_width as usize, bias)
}

/// Whether two lists of single-precision values compare equal.
pub open spec fn singles_equal(left: Seq<u32>, right: Seq<u32>) -> bool {
    &&& left.len() == right.len()
    &&& forall|i: int|
        0 <= i < left.len() ==> crate::ieee::single_equal(#[trigger] left[i], right[i])
}

fn same_singles(left: &Vec<u32>, right: &Vec<u32>) -> (same: bool)
    ensures
        same == singles_equal(left@, right@),
{
    if left.len() != right.len() {
        return false;
    }
    let mut index: usize = 0;
    while index < left.len()
        invariant
            index <= left.len(),
            left.len() == right.len(),
            forall|i: int|
                0 <= i < index ==> crate::ieee::single_equal(#[trigger] left@[i], right@[i]),
        decreases left.len() - index,
    {
        if !single_equals(left[index], right[index]) {
            return false;
        }
        index += 1;
    }
    true
}

/// Whether a list of weights is another one transposed at a place.
pub open spec fn transposed_at(
    output_major: Seq<u16>,
    input_major: Seq<u16>,
    input_width: int,
    output_width: int,
    output: int,
    input: int,
) -> bool {
    input_major[input * output_width + output] == output_major[output * input_width + input]
}

/// Whether a list of weights, one input after the other, is another one, one output after the
/// other.
pub open spec fn transposed(
    output_major: Seq<u16>,
    input_major: Seq<u16>,
    input_width: int,
    output_width: int,
) -> bool {
    forall|output: int, input: int|
        0 <= output < output_width && 0 <= input < input_width ==> #[trigger] transposed_at(
            output_major,
            input_major,
            input_width,
            output_width,
            output,
            input,
        )
}

/// What is wrong with the two linear-projection probes together.
pub open spec fn pair_complaint(linear: LinearProbeModel, major: LinearProbeModel) -> Option<
    Seq<char>,
> {
    if major.tokens != linear.tokens || major.input_width != linear.input_width
        || major.output_width != linear.output_width || !singles_equal(major.input, linear.input)
        || !singles_equal(major.bias, linear.bias) {
        Some("M7q1 input-major linear probe logical inputs drifted"@)
    } else if !transposed(
        linear.weight_f16,
        major.weight_f16,
        linear.input_width as int,
        linear.output_width as int,
    ) {
        Some("M7q1 input-major linear probe weight transpose drifted"@)
    } else {
        None
    }
}

proof fn lemma_place_is_inside(row: int, rows: int, column: int, columns: int)
    requires
        0 <= row < rows,
        0 <= column < columns,
    ensures
        0 <= row * columns + column < rows * columns,
{
    assert(0 <= row * columns + column < rows * columns) by (nonlinear_arith)
        requires
            0 <= row < rows,
            0 <= column < columns,
    ;
}

fn is_transposed(
    output_major: &Vec<u16>,
    input_major: &Vec<u16>,
    input_width: usize,
    output_width: usize,
) -> (is: bool)
    requires
        output_major.len() == output_width * input_width,
        input_major.len() == input_width * output_width,
    ensures
        is == transposed(
            output_major@,
            input_major@,
            input_width as int,
            output_width as int,
        ),
{
    let mut output: usize = 0;
    while output < output_width
        invariant
            output <= output_width,
            output_major.len() == output_width * input_width,
            input_major.len() == input_width * output_width,
            forall|o: int, i: int|
                0 <= o < output && 0 <= i < input_width ==> #[trigger] transposed_at(
                    output_major@,
                    input_major@,
                    input_width as int,
                    output_width as int,
                    o,
                    i,
                ),
        decreases output_width - output,
    {
        let mut input: usize = 0;
        while input < input_width
            invariant
                output < output_width,
                input <= input_width,
                output_major.len() == output_width * input_width,
                input_major.len() == input_width * output_width,
                forall|o: int, i: int|
                    0 <= o < output && 0 <= i < input_width ==> #[trigger] transposed_at(
                        output_major@,
                        input_major@,
                        input_width as int,
                        output_width as int,
                        o,
                        i,
                    ),
                forall|i: int|
                    0 <= i < input ==> #[trigger] transposed_at(
                        output_major@,
                        input_major@,
                        input_width as int,
                        output_width as int,
                        output as int,
                        i,
                    ),
            decreases input_width - input,
        {
            proof {
                lemma_place_is_inside(
                    output as int,
                    output_width as int,
                    input as int,
                    input_width as int,
                );
                lemma_place_is_inside(
                    input as int,
                    input_width as int,
                    output as int,
                    output_width as int,
                );
                assert(0 <= output * input_width && 0 <= input * output_width)
                    by (nonlinear_arith);
            }
            let of_output: u16 = output_major[output * input_width + input];
            let of_input: u16 = input_major[input * output_width + output];
            if of_input != of_output {
                assert(!transposed_at(
                    output_major@,
                    input_major@,
                    input_width as int,
                    output_width as int,
                    output as int,
                    input as int,
                ));
                return false;
            }
            input += 1;
        }
        output += 1;
    }
    true
}

proof fn lemma_two_dimensions(rows: u32, columns: u32, label: Seq<char>)
    requires
        elements_from(seq![rows, columns], label, 0, 1) is Ok,
    ensures
        elements_from(seq![rows, columns], label, 0, 1)->Ok_0 == rows * columns,
{
    reveal_with_fuel(elements_from, 3);
    let dimensions = seq![rows, columns];
    assert(1 * dimensions[0] == rows);
    assert(rows * dimensions[1] == rows * columns);
}

fn require_pair(linear: &LinearProbe, major: &LinearProbe) -> (outcome: Result<(), String>)
    requires
        linear_complaint(crate::probe_parse::linear_model(*linear), false) is None,
        linear_complaint(crate::probe_parse::linear_model(*major), true) is None,
    ensures
        crate::text::complaint(outcome) == pair_complaint(
            crate::probe_parse::linear_model(*linear),
            crate::probe_parse::linear_model(*major),
        ),
{
    if major.tokens != linear.tokens || major.input_width != linear.input_width
        || major.output_width != linear.output_width || !same_singles(
        &major.input,
        &linear.input,
    ) || !same_singles(&major.bias, &linear.bias) {
        return Err("M7q1 input-major linear probe logical inputs drifted".to_owned());
    }
    proof {
        lemma_two_dimensions(linear.output_width, linear.input_width, "linear weight"@);
        lemma_two_dimensions(
            major.input_width,
            major.output_width,
            "input-major linear weight"@,
        );
    }
    if !is_transposed(
        &linear.weight_f16,
        &major.weight_f16,
        linear.input_width as usize,
        linear.output_width as usize,
    ) {
        return Err("M7q1 input-major linear probe weight transpose drifted".to_owned());
    }
    Ok(())
}

/// What is wrong with a vision-projection probe.
pub open spec fn vision_complaint(vision: VisionProbeModel) -> Option<Seq<char>> {
    match elements_from(seq![vision.patches, vision.input_width], "vision input"@, 0, 1) {
        Err(message) => Some(message),
        Ok(input_elements) => match elements_from(
            seq![vision.output_width, vision.input_width],
            "vision weight"@,
            0,
            1,
        ) {
            Err(message) => Some(message),
            Ok(weight_elements) => crate::text::earlier(
                singles_complaint(vision.input, input_elements as int, "vision input"@),
                crate::text::earlier(
                    singles_complaint(vision.weight, weight_elements as int, "vision weight"@),
                    singles_complaint(vision.bias, vision.output_width as int, "vision bias"@),
                ),
            ),
        },
    }
}

fn require_vision(vision: &VisionProbe) -> (outcome: Result<(), String>)
    ensures
        crate::text::complaint(outcome) == vision_complaint(
            crate::probe_parse::vision_model(*vision),
        ),
{
    let input_shape: Vec<u32> = vec![vision.patches, vision.input_width];
    assert(input_shape@ =~= seq![vision.patches, vision.input_width]);
    let weight_shape: Vec<u32> = vec![vision.output_width, vision.input_width];
    assert(weight_shape@ =~= seq![vision.output_width, vision.input_width]);
    let input_elements: usize = m7q1_probe_elements(input_shape.as_slice(), "vision input")?;
    let weight_elements: usize = m7q1_probe_elements(weight_shape.as_slice(), "vision weight")?;
    require_m7q1_f32(vision.input.as_slice(), input_elements, "vision input")?;
    require_m7q1_f32(vision.weight.as_slice(), weight_elements, "vision weight")?;
    require_m7q1_f32(vision.bias.as_slice(), vision.output_width as usize, "vision bias")
}

/// What is wrong with a weight probe.
pub open spec fn probe_complaint(probe: WeightProbeModel) -> Option<Seq<char>> {
    crate::text::earlier(
        identity_complaint(probe),
        crate::text::earlier(
            rms_complaint(probe.rms),
            crate::text::earlier(
                gemv_complaint(probe.gemv),
                crate::text::earlier(
                    linear_complaint(probe.linear, false),
                    crate::text::earlier(
                        linear_complaint(probe.linear_input_major, true),
                        crate::text::earlier(
                            pair_complaint(probe.linear, probe.linear_input_major),
                            vision_complaint(probe.vision),
                        ),
                    ),
                ),
            ),
        ),
    )
}

/// Requires a weight probe to be sound: the balanced profile, whole and finite operands, and
/// the same linear projection in both layouts.
pub fn validate_m7q1_weight_probe(probe: &WeightProbe) -> (outcome: Result<(), String>)
    ensures
        crate::text::complaint(outcome) == probe_complaint(
            crate::probe_parse::probe_model(*probe),
        ),
{
    require_identity(probe)?;
    require_rms(&probe.rms)?;
    require_gemv(&probe.gemv)?;
    require_linear(&probe.linear, false)?;
    require_linear(&probe.linear_input_major, true)?;
    require_pair(&probe.linear, &probe.linear_input_major)?;
    require_vision(&probe.vision)
}

/// Requires a device to be able to run the probe.
pub fn require_probe_device(shader_f16: bool) -> (outcome: Result<(), String>)
    ensures
        crate::text::complaint(outcome) == (if shader_f16 {
            None::<Seq<char>>
        } else {
            Some("M7q1 FP16 weight probe requires shader-f16"@)
        }),
{
    if !shader_f16 {
        return Err("M7q1 FP16 weight probe requires shader-f16".to_owned());
    }
    Ok(())
}

pub const PROBE_RMS_INPUT: usize = 0;

pub const PROBE_RMS_WEIGHT_F16: usize = 1;

pub const PROBE_RMS_UNIFORM: usize = 2;

pub const PROBE_RMS_OUTPUT: usize = 3;

pub const PROBE_RMS_READBACK: usize = 4;

pub const PROBE_GEMV_MATRIX_F16: usize = 5;

pub const PROBE_GEMV_VECTOR: usize = 6;

pub const PROBE_GEMV_UNIFORM: usize = 7;

pub const PROBE_GEMV_OUTPUT: usize = 8;

pub const PROBE_GEMV_READBACK: usize = 9;

pub const PROBE_LINEAR_INPUT: usize = 10;

pub const PROBE_LINEAR_WEIGHT_F16: usize = 11;

pub const PROBE_LINEAR_BIAS: usize = 12;

pub const PROBE_LINEAR_UNIFORM: usize = 13;

pub const PROBE_LINEAR_OUTPUT: usize = 14;

pub const PROBE_LINEAR_READBACK: usize = 15;

pub const PROBE_LINEAR_INPUT_MAJOR_WEIGHT_F16: usize = 16;

pub const PROBE_LINEAR_INPUT_MAJOR_UNIFORM: usize = 17;

pub const PROBE_LINEAR_INPUT_MAJOR_OUTPUT: usize = 18;

pub const PROBE_LINEAR_INPUT_MAJOR_READBACK: usize = 19;

pub const PROBE_VISION_INPUT: usize = 20;

pub const PROBE_VISION_WEIGHT_F32: usize = 21;

pub const PROBE_VISION_BIAS: usize = 22;

pub const PROBE_VISION_UNIFORM: usize = 23;

pub const PROBE_VISION_OUTPUT: usize = 24;

pub const PROBE_VISION_READBACK: usize = 25;


/// The byte sizes of the outputs of a probe.
#[derive(Clone, Copy, Debug)]
pub struct ProbeSizes {
    pub rms: u64,
    pub gemv: u64,
    pub linear: u64,
    pub vision: u64,
}

/// The byte sizes of the outputs of a probe.
pub open spec fn probe_sizes(probe: WeightProbeModel) -> ProbeSizes {
    ProbeSizes {
        rms: (4 * probe.rms.input.len()) as u64,
        gemv: (4 * probe.gemv.rows) as u64,
        linear: (probe.linear.tokens * probe.linear.output_width * 4) as u64,
        vision: (probe.vision.patches * probe.vision.output_width * 4) as u64,
    }
}

/// Whether the byte sizes of the outputs of a probe can be counted.
pub open spec fn outputs_countable(probe: WeightProbeModel) -> bool {
    &&& probe.linear.tokens * probe.linear.output_width * 4 <= u64::MAX
    &&& probe.vision.patches * probe.vision.output_width * 4 <= u64::MAX
}

/// Whether the byte sizes of the outputs of a probe can be counted.
pub fn outputs_are_countable(probe: &WeightProbe) -> (countable: bool)
    ensures
        countable == outputs_countable(crate::probe_parse::probe_model(*probe)),
{
    let linear: Option<u64> = output_bytes(probe.linear.tokens, probe.linear.output_width);
    let vision: Option<u64> = output_bytes(probe.vision.patches, probe.vision.output_width);
    linear.is_some() && vision.is_some()
}

fn output_bytes(rows: u32, width: u32) -> (bytes: Option<u64>)
    ensures
        bytes is Some == (rows * width * 4 <= u64::MAX),
{
    assert(rows * width <= 0xffff_fffe_0000_0001) by (nonlinear_arith)
        requires
            rows <= 0xffff_ffff,
            width <= 0xffff_ffff,
    ;
    let elements: u64 = rows as u64 * width as u64;
    elements.checked_mul(4)
}

/// The buffers of a probe.
pub open spec fn probe_buffers(probe: WeightProbeModel) -> Seq<BufferPlan> {
    let sizes = probe_sizes(probe);
    seq![
        BufferPlan {
            label: "m7q1-rms-input",
            size: (4 * probe.rms.input.len()) as u64,
            usage: BufferUsage::StorageInput,
        },
        BufferPlan {
            label: "m7q1-rms-weight-f16",
            size: (2 * probe.rms.weight_f16.len()) as u64,
            usage: BufferUsage::StorageInput,
        },
        BufferPlan {
            label: "m7q1-rms-uniform",
            size: UNIFORM_BUFFER_BYTES,
            usage: BufferUsage::Uniform,
        },
        BufferPlan {
            label: "m7q1-rms-output",
            size: sizes.rms,
            usage: BufferUsage::StorageOutput,
        },
        BufferPlan {
            label: "m7q1-rms-readback",
            size: sizes.rms,
            usage: BufferUsage::Readback,
        },
        BufferPlan {
            label: "m7q1-gemv-matrix-f16",
            size: (2 * probe.gemv.matrix_f16.len()) as u64,
            usage: BufferUsage::StorageInput,
        },
        BufferPlan {
            label: "m7q1-gemv-vector",
            size: (4 * probe.gemv.vector.len()) as u64,
            usage: BufferUsage::StorageInput,
        },
        BufferPlan {
            label: "m7q1-gemv-uniform",
            size: UNIFORM_BUFFER_BYTES,
            usage: BufferUsage::Uniform,
        },
        BufferPlan {
            label: "m7q1-gemv-output",
            size: sizes.gemv,
            usage: BufferUsage::StorageOutput,
        },
        BufferPlan {
            label: "m7q1-gemv-readback",
            size: sizes.gemv,
            usage: BufferUsage::Readback,
        },
        BufferPlan {
            label: "m7q1-linear-input",
            size: (4 * probe.linear.input.len()) as u64,
            usage: BufferUsage::StorageInput,
        },
        BufferPlan {
            label: "m7q1-linear-weight-f16",
            size: (2 * probe.linear.weight_f16.len()) as u64,
            usage: BufferUsage::StorageInput,
        },
        BufferPlan {
            label: "m7q1-linear-bias",
            size: (4 * probe.linear.bias.len()) as u64,
            usage: BufferUsage::StorageInput,
        },
        BufferPlan {
            label: "m7q1-linear-uniform",
            size: UNIFORM_BUFFER_BYTES,
            usage: BufferUsage::Uniform,
        },
        BufferPlan {
            label: "m7q1-linear-output",
            size: sizes.linear,
            usage: BufferUsage::StorageOutput,
        },
        BufferPlan {
            label: "m7q1-linear-readback",
            size: sizes.linear,
            usage: BufferUsage::Readback,
        },
        BufferPlan {
            label: "m7q1-linear-input-major-weight-f16",
            size: (2 * probe.linear_input_major.weight_f16.len()) as u64,
            usage: BufferUsage::StorageInput,
        },
        BufferPlan {
            label: "m7q1-linear-input-major-uniform",
            size: UNIFORM_BUFFER_BYTES,
            usage: BufferUsage::Uniform,
        },
        BufferPlan {
            label: "m7q1-linear-input-major-output",
            size: sizes.linear,
            usage: BufferUsage::StorageOutput,
        },
        BufferPlan {
            label: "m7q1-linear-input-major-readback",
            size: sizes.linear,
            usage: BufferUsage::Readback,
        },
        BufferPlan {
            label: "m7q1-vision-input",
            size: (4 * probe.vision.input.len()) as u64,
            usage: BufferUsage::StorageInput,
        },
        BufferPlan {
            label: "m7q1-vision-weight-f32",
            size: (4 * probe.vision.weight.len()) as u64,
            usage: BufferUsage::StorageInput,
        },
        BufferPlan {
            label: "m7q1-vision-bias",
            size: (4 * probe.vision.bias.len()) as u64,
            usage: BufferUsage::StorageInput,
        },
        BufferPlan {
            label: "m7q1-vision-uniform",
            size: UNIFORM_BUFFER_BYTES,
            usage: BufferUsage::Uniform,
        },
        BufferPlan {
            label: "m7q1-vision-output",
            size: sizes.vision,
            usage: BufferUsage::StorageOutput,
        },
        BufferPlan {
            label: "m7q1-vision-readback",
            size: sizes.vision,
            usage: BufferUsage::Readback,
        },
    ]
}

/// The uniform words of the RMS norm.
pub open spec fn rms_words(probe: WeightProbeModel) -> Seq<u32> {
    seq![probe.rms.rows, probe.rms.width, probe.rms.epsilon, 0u32]
}

/// The uniform words of the GEMV.
pub open spec fn gemv_words(probe: WeightProbeModel) -> Seq<u32> {
    seq![probe.gemv.rows, probe.gemv.columns, 0u32, 0u32]
}

/// The uniform words of the linear projection.
pub open spec fn linear_words(probe: WeightProbeModel) -> Seq<u32> {
    seq![probe.linear.tokens, probe.linear.input_width, probe.linear.output_width, 0u32]
}

/// The uniform words of the linear projection with its weights one input after the other.
pub open spec fn linear_input_major_words(probe: WeightProbeModel) -> Seq<u32> {
    seq![
        probe.linear_input_major.tokens,
        probe.linear_input_major.input_width,
        probe.linear_input_major.output_width,
        1u32,
    ]
}

/// The uniform words of the vision projection.
pub open spec fn vision_words(probe: WeightProbeModel) -> Seq<u32> {
    seq![probe.vision.patches, probe.vision.input_width, probe.vision.output_width, 0u32]
}

/// The queue writes of a probe.
pub open spec fn probe_writes(probe: WeightProbeModel) -> Seq<WriteModel> {
    seq![
        crate::gpu::bytes_write(PROBE_RMS_INPUT, crate::words::bytes_of_words32(probe.rms.input)),
        crate::gpu::bytes_write(
            PROBE_RMS_WEIGHT_F16,
            crate::words::bytes_of_words16(probe.rms.weight_f16),
        ),
        crate::gpu::bytes_write(
            PROBE_RMS_UNIFORM,
            crate::words::bytes_of_words32(rms_words(probe)),
        ),
        crate::gpu::bytes_write(
            PROBE_GEMV_MATRIX_F16,
            crate::words::bytes_of_words16(probe.gemv.matrix_f16),
        ),
        crate::gpu::bytes_write(
            PROBE_GEMV_VECTOR,
            crate::words::bytes_of_words32(probe.gemv.vector),
        ),
        crate::gpu::bytes_write(
            PROBE_GEMV_UNIFORM,
            crate::words::bytes_of_words32(gemv_words(probe)),
        ),
        crate::gpu::bytes_write(
            PROBE_LINEAR_INPUT,
            crate::words::bytes_of_words32(probe.linear.input),
        ),
        crate::gpu::bytes_write(
            PROBE_LINEAR_WEIGHT_F16,
            crate::words::bytes_of_words16(probe.linear.weight_f16),
        ),
        crate::gpu::bytes_write(
            PROBE_LINEAR_BIAS,
            crate::words::bytes_of_words32(probe.linear.bias),
        ),
        crate::gpu::bytes_write(
            PROBE_LINEAR_UNIFORM,
            crate::words::bytes_of_words32(linear_words(probe)),
        ),
        crate::gpu::bytes_write(
            PROBE_LINEAR_INPUT_MAJOR_WEIGHT_F16,
            crate::words::bytes_of_words16(probe.linear_input_major.weight_f16),
        ),
        crate::gpu::bytes_write(
            PROBE_LINEAR_INPUT_MAJOR_UNIFORM,
            crate::words::bytes_of_words32(linear_input_major_words(probe)),
        ),
        crate::gpu::bytes_write(
            PROBE_VISION_INPUT,
            crate::words::bytes_of_words32(probe.vision.input),
        ),
        crate::gpu::bytes_write(
            PROBE_VISION_WEIGHT_F32,
            crate::words::bytes_of_words32(probe.vision.weight),
        ),
        crate::gpu::bytes_write(
            PROBE_VISION_BIAS,
            crate::words::bytes_of_words32(probe.vision.bias),
        ),
        crate::gpu::bytes_write(
            PROBE_VISION_UNIFORM,
            crate::words::bytes_of_words32(vision_words(probe)),
        ),
    ]
}

/// The bind groups of a probe.
pub open spec fn probe_bind_groups(probe: WeightProbeModel) -> Seq<BindGroupModel> {
    let sizes = probe_sizes(probe);
    seq![
        BindGroupModel {
            label: "m7q1-rms-bind-group",
            pipeline: LAYOUT_RMS,
            bindings: seq![
                Binding { buffer: PROBE_RMS_INPUT, size: (4 * probe.rms.input.len()) as u64 },
                Binding {
                    buffer: PROBE_RMS_WEIGHT_F16,
                    size: (2 * probe.rms.weight_f16.len()) as u64,
                },
                Binding { buffer: PROBE_RMS_OUTPUT, size: sizes.rms },
                Binding { buffer: PROBE_RMS_UNIFORM, size: UNIFORM_BUFFER_BYTES },
            ],
        },
        BindGroupModel {
            label: "m7q1-gemv-bind-group",
            pipeline: LAYOUT_GEMV,
            bindings: seq![
                Binding {
                    buffer: PROBE_GEMV_MATRIX_F16,
                    size: (2 * probe.gemv.matrix_f16.len()) as u64,
                },
                Binding { buffer: PROBE_GEMV_VECTOR, size: (4 * probe.gemv.vector.len()) as u64 },
                Binding { buffer: PROBE_GEMV_OUTPUT, size: sizes.gemv },
                Binding { buffer: PROBE_GEMV_UNIFORM, size: UNIFORM_BUFFER_BYTES },
            ],
        },
        BindGroupModel {
            label: "m7q1-linear-bind-group",
            pipeline: LAYOUT_PROJECTION,
            bindings: seq![
                Binding { buffer: PROBE_LINEAR_INPUT, size: (4 * probe.linear.input.len()) as u64 },
                Binding {
                    buffer: PROBE_LINEAR_WEIGHT_F16,
                    size: (2 * probe.linear.weight_f16.len()) as u64,
                },
                Binding { buffer: PROBE_LINEAR_BIAS, size: (4 * probe.linear.bias.len()) as u64 },
                Binding { buffer: PROBE_LINEAR_OUTPUT, size: sizes.linear },
                Binding { buffer: PROBE_LINEAR_UNIFORM, size: UNIFORM_BUFFER_BYTES },
            ],
        },
        BindGroupModel {
            label: "m7q1-linear-input-major-bind-group",
            pipeline: LAYOUT_PROJECTION,
            bindings: seq![
                Binding { buffer: PROBE_LINEAR_INPUT, size: (4 * probe.linear.input.len()) as u64 },
                Binding {
                    buffer: PROBE_LINEAR_INPUT_MAJOR_WEIGHT_F16,
                    size: (2 * probe.linear_input_major.weight_f16.len()) as u64,
                },
                Binding { buffer: PROBE_LINEAR_BIAS, size: (4 * probe.linear.bias.len()) as u64 },
                Binding { buffer: PROBE_LINEAR_INPUT_MAJOR_OUTPUT, size: sizes.linear },
                Binding { buffer: PROBE_LINEAR_INPUT_MAJOR_UNIFORM, size: UNIFORM_BUFFER_BYTES },
            ],
        },
        BindGroupModel {
            label: "m7q1-vision-bind-group",
            pipeline: LAYOUT_PROJECTION,
            bindings: seq![
                Binding { buffer: PROBE_VISION_INPUT, size: (4 * probe.vision.input.len()) as u64 },
                Binding {
                    buffer: PROBE_VISION_WEIGHT_F32,
                    size: (4 * probe.vision.weight.len()) as u64,
                },
                Binding { buffer: PROBE_VISION_BIAS, size: (4 * probe.vision.bias.len()) as u64 },
                Binding { buffer: PROBE_VISION_OUTPUT, size: sizes.vision },
                Binding { buffer: PROBE_VISION_UNIFORM, size: UNIFORM_BUFFER_BYTES },
            ],
        },
    ]
}

/// `value / unit`, rounded up.
pub open spec fn ceiling(value: u32, unit: u32) -> u32 {
    ((value + unit - 1) / unit as int) as u32
}

fn divided_up(value: u32, unit: u32) -> (quotient: u32)
    requires
        unit > 0,
    ensures
        quotient == ceiling(value, unit),
{
    let sum: u64 = value as u64 + unit as u64 - 1;
    proof {
        assert((value + unit - 1) / unit as int <= value) by (nonlinear_arith)
            requires
                unit > 0,
                value >= 0,
        ;
        assert(0 <= (value + unit - 1) / unit as int) by (nonlinear_arith)
            requires
                unit > 0,
                value >= 0,
        ;
    }
    (sum / unit as u64) as u32
}

/// How the linear projections are tiled.
#[derive(Clone, Copy, Debug)]
pub struct ProjectionTiles {
    /// The outputs that one workgroup computes from half-precision weights.
    pub half_columns: u32,
    /// The rows of a tile, and the outputs of one of single-precision weights.
    pub tile: u32,
}

/// The dispatches of a probe, in order.
pub open spec fn probe_dispatches(probe: WeightProbeModel, tiles: ProjectionTiles) -> Seq<Seq<u32>> {
    seq![
        seq![ceiling(probe.rms.rows, 64), 1u32, 1u32],
        seq![ceiling(probe.gemv.rows, 8), 1u32, 1u32],
        seq![
            ceiling(probe.linear.output_width, tiles.half_columns),
            ceiling(probe.linear.tokens, tiles.tile),
            1u32,
        ],
        seq![
            ceiling(probe.linear_input_major.output_width, tiles.half_columns),
            ceiling(probe.linear_input_major.tokens, tiles.tile),
            1u32,
        ],
        seq![
            ceiling(probe.vision.output_width, tiles.tile),
            ceiling(probe.vision.patches, tiles.tile),
            1u32,
        ],
    ]
}

/// Whether a command is a pass on a pipeline and a bind group, with a dispatch and offsets.
pub open spec fn is_pass(
    command: CommandModel,
    pipeline: usize,
    bind_group: usize,
    dispatch: Seq<u32>,
    offsets: Seq<u64>,
) -> bool {
    match command {
        CommandModel::Pass {
            pipeline: used,
            bind_group: bound,
            dispatch: dispatched,
            offsets: moved,
        } => used == pipeline && bound == bind_group && dispatched@ == dispatch && moved
            == offsets,
        CommandModel::Copy { .. } => false,
    }
}

/// The pipelines of the passes of a probe, in order.
pub open spec fn probe_pipelines() -> Seq<usize> {
    seq![
        PIPELINE_RMS_NORM_F16,
        PIPELINE_GEMV_TILED_F16,
        PIPELINE_PROJECTION_F16,
        PIPELINE_PROJECTION_F16,
        PIPELINE_PROJECTION,
    ]
}

/// The pipelines that a probe creates, in order.
pub open spec fn created_pipelines(sources: StackSourcesModel) -> Seq<PipelineModel> {
    seq![
        PipelineModel {
            place: PIPELINE_RMS_NORM_F16,
            kernel: "rms_norm_f16_weights"@,
            layout: LAYOUT_RMS,
            source: sources.rms_norm_f16_weights,
        },
        PipelineModel {
            place: PIPELINE_GEMV_TILED_F16,
            kernel: "gemv_tiled_f16_weights"@,
            layout: LAYOUT_GEMV,
            source: sources.gemv_tiled_f16_weights,
        },
        PipelineModel {
            place: PIPELINE_PROJECTION_F16,
            kernel: "linear_projection_f16_weights"@,
            layout: LAYOUT_PROJECTION,
            source: sources.linear_projection_f16_weights,
        },
        PipelineModel {
            place: PIPELINE_PROJECTION,
            kernel: "vision_patch_projection_f32"@,
            layout: LAYOUT_PROJECTION,
            source: sources.projection,
        },
    ]
}

/// Plans the pipelines of a probe.
pub fn create_probe_pipelines<'a>(sources: &'a StackShaderSources) -> (pipelines: Vec<
    PipelinePlan<'a>,
>)
    ensures
        crate::stack_resources::pipeline_models(pipelines@) == created_pipelines(
            crate::stack_sources::stack_sources_model(*sources),
        ),
{
    let pipelines: Vec<PipelinePlan<'a>> = vec![
        pipeline(
            PIPELINE_RMS_NORM_F16,
            "rms_norm_f16_weights",
            LAYOUT_RMS,
            sources.rms_norm_f16_weights.as_str(),
        ),
        pipeline(
            PIPELINE_GEMV_TILED_F16,
            "gemv_tiled_f16_weights",
            LAYOUT_GEMV,
            sources.gemv_tiled_f16_weights.as_str(),
        ),
        pipeline(
            PIPELINE_PROJECTION_F16,
            "linear_projection_f16_weights",
            LAYOUT_PROJECTION,
            sources.linear_projection_f16_weights.as_str(),
        ),
        pipeline(
            PIPELINE_PROJECTION,
            "vision_patch_projection_f32",
            LAYOUT_PROJECTION,
            sources.projection.as_str(),
        ),
    ];
    assert(crate::stack_resources::pipeline_models(pipelines@) =~= created_pipelines(
        crate::stack_sources::stack_sources_model(*sources),
    ));
    pipelines
}

/// The dynamic offsets of a pass of a probe: every operand starts at its buffer's start.
pub open spec fn probe_offsets(index: int) -> Seq<u64> {
    if index == 0 {
        seq![0u64, 0u64]
    } else {
        seq![0u64]
    }
}

/// The copies of the outputs of a probe into their readbacks.
pub open spec fn probe_copies(probe: WeightProbeModel) -> Seq<CommandModel> {
    let sizes = probe_sizes(probe);
    seq![
        crate::gpu::copy_model(PROBE_RMS_OUTPUT, 0, PROBE_RMS_READBACK, 0, sizes.rms),
        crate::gpu::copy_model(PROBE_GEMV_OUTPUT, 0, PROBE_GEMV_READBACK, 0, sizes.gemv),
        crate::gpu::copy_model(PROBE_LINEAR_OUTPUT, 0, PROBE_LINEAR_READBACK, 0, sizes.linear),
        crate::gpu::copy_model(
            PROBE_LINEAR_INPUT_MAJOR_OUTPUT,
            0,
            PROBE_LINEAR_INPUT_MAJOR_READBACK,
            0,
            sizes.linear,
        ),
        crate::gpu::copy_model(PROBE_VISION_OUTPUT, 0, PROBE_VISION_READBACK, 0, sizes.vision),
    ]
}

/// Whether commands are those of a probe: its five passes, then its five copies.
pub open spec fn probe_commands(
    commands: Seq<CommandModel>,
    probe: WeightProbeModel,
    tiles: ProjectionTiles,
) -> bool {
    &&& commands.len() == 10
    &&& forall|i: int|
        0 <= i < 5 ==> is_pass(
            #[trigger] commands[i],
            probe_pipelines()[i],
            i as usize,
            probe_dispatches(probe, tiles)[i],
            probe_offsets(i),
        )
    &&& commands.subrange(5, 10) == probe_copies(probe)
}

/// The GPU work of a probe.
pub struct ProbePlan {
    pub sizes: ProbeSizes,
    pub buffers: Vec<BufferPlan>,
    pub writes: Vec<WritePlan>,
    pub bind_groups: Vec<BindGroupPlan>,
    pub encoder: &'static str,
    pub commands: Vec<Command>,
}

fn output_sizes(probe: &WeightProbe, rms_bytes: usize) -> (sizes: ProbeSizes)
    requires
        outputs_countable(crate::probe_parse::probe_model(*probe)),
        rms_bytes == 4 * probe.rms.input.len(),
    ensures
        sizes == probe_sizes(crate::probe_parse::probe_model(*probe)),
{
    let tokens: u64 = probe.linear.tokens as u64;
    let width: u64 = probe.linear.output_width as u64;
    let patches: u64 = probe.vision.patches as u64;
    let vision_width: u64 = probe.vision.output_width as u64;
    ProbeSizes {
        rms: rms_bytes as u64,
        gemv: probe.gemv.rows as u64 * 4,
        linear: tokens * width * 4,
        vision: patches * vision_width * 4,
    }
}

fn probe_command_plans(probe: &WeightProbe, tiles: &ProjectionTiles, sizes: &ProbeSizes) -> (commands:
    Vec<Command>)
    requires
        tiles.half_columns > 0,
        tiles.tile > 0,
        *sizes == probe_sizes(crate::probe_parse::probe_model(*probe)),
    ensures
        probe_commands(
            crate::gpu::command_models(commands@),
            crate::probe_parse::probe_model(*probe),
            *tiles,
        ),
{
    let ghost model = crate::probe_parse::probe_model(*probe);
    let rms: [u32; 3] = [divided_up(probe.rms.rows, 64), 1, 1];
    let gemv: [u32; 3] = [divided_up(probe.gemv.rows, 8), 1, 1];
    let linear: [u32; 3] = [
        divided_up(probe.linear.output_width, tiles.half_columns),
        divided_up(probe.linear.tokens, tiles.tile),
        1,
    ];
    let major: [u32; 3] = [
        divided_up(probe.linear_input_major.output_width, tiles.half_columns),
        divided_up(probe.linear_input_major.tokens, tiles.tile),
        1,
    ];
    let vision: [u32; 3] = [
        divided_up(probe.vision.output_width, tiles.tile),
        divided_up(probe.vision.patches, tiles.tile),
        1,
    ];
    proof {
        let dispatches = probe_dispatches(model, *tiles);
        assert(rms@ =~= dispatches[0]);
        assert(gemv@ =~= dispatches[1]);
        assert(linear@ =~= dispatches[2]);
        assert(major@ =~= dispatches[3]);
        assert(vision@ =~= dispatches[4]);
    }
    let commands: Vec<Command> = vec![
        pass2(PIPELINE_RMS_NORM_F16, 0, rms, 0, 0),
        pass1(PIPELINE_GEMV_TILED_F16, 1, gemv, 0),
        pass1(PIPELINE_PROJECTION_F16, 2, linear, 0),
        pass1(PIPELINE_PROJECTION_F16, 3, major, 0),
        pass1(PIPELINE_PROJECTION, 4, vision, 0),
        copy(PROBE_RMS_OUTPUT, 0, PROBE_RMS_READBACK, 0, sizes.rms),
        copy(PROBE_GEMV_OUTPUT, 0, PROBE_GEMV_READBACK, 0, sizes.gemv),
        copy(PROBE_LINEAR_OUTPUT, 0, PROBE_LINEAR_READBACK, 0, sizes.linear),
        copy(
            PROBE_LINEAR_INPUT_MAJOR_OUTPUT,
            0,
            PROBE_LINEAR_INPUT_MAJOR_READBACK,
            0,
            sizes.linear,
        ),
        copy(PROBE_VISION_OUTPUT, 0, PROBE_VISION_READBACK, 0, sizes.vision),
    ];
    proof {
        let planned = crate::gpu::command_models(commands@);
        assert(planned.subrange(5, 10) =~= probe_copies(model));
        assert forall|i: int| 0 <= i < 5 implies is_pass(
            #[trigger] planned[i],
            probe_pipelines()[i],
            i as usize,
            probe_dispatches(model, *tiles)[i],
            probe_offsets(i),
        ) by {
            if i == 0 {
            } else if i == 1 {
            } else if i == 2 {
            } else if i == 3 {
            } else {
                assert(i == 4);
            }
        }
    }
    commands
}

/// Plans the GPU work of a probe.
pub fn plan_m7q1_weight_probe(probe: &WeightProbe, tiles: &ProjectionTiles) -> (plan: ProbePlan)
    requires
        tiles.half_columns > 0,
        tiles.tile > 0,
        outputs_countable(crate::probe_parse::probe_model(*probe)),
    ensures
        ({
            let model = crate::probe_parse::probe_model(*probe);
            &&& plan.sizes == probe_sizes(model)
            &&& plan.buffers@ == probe_buffers(model)
            &&& crate::gpu::write_models(plan.writes@) == probe_writes(model)
            &&& crate::gpu::group_models(plan.bind_groups@) == probe_bind_groups(model)
            &&& plan.encoder@ == "m7q1-fp16-weight-probe-encoder"@
            &&& probe_commands(crate::gpu::command_models(plan.commands@), model, *tiles)
        }),
{
    let ghost model = crate::probe_parse::probe_model(*probe);
    let rms_input: Vec<u8> = word_bytes(probe.rms.input.as_slice());
    let rms_weight_f16: Vec<u8> = m7q1_f16_bytes(probe.rms.weight_f16.as_slice());
    let gemv_matrix_f16: Vec<u8> = m7q1_f16_bytes(probe.gemv.matrix_f16.as_slice());
    let gemv_vector: Vec<u8> = word_bytes(probe.gemv.vector.as_slice());
    let linear_input: Vec<u8> = word_bytes(probe.linear.input.as_slice());
    let linear_weight_f16: Vec<u8> = m7q1_f16_bytes(probe.linear.weight_f16.as_slice());
    let linear_bias: Vec<u8> = word_bytes(probe.linear.bias.as_slice());
    let linear_input_major_weight_f16: Vec<u8> = m7q1_f16_bytes(
        probe.linear_input_major.weight_f16.as_slice(),
    );
    let vision_input: Vec<u8> = word_bytes(probe.vision.input.as_slice());
    let vision_weight_f32: Vec<u8> = word_bytes(probe.vision.weight.as_slice());
    let vision_bias: Vec<u8> = word_bytes(probe.vision.bias.as_slice());
    let sizes: ProbeSizes = output_sizes(probe, rms_input.len());
    let buffers: Vec<BufferPlan> = vec![
        buffer("m7q1-rms-input", rms_input.len() as u64, BufferUsage::StorageInput),
        buffer("m7q1-rms-weight-f16", rms_weight_f16.len() as u64, BufferUsage::StorageInput),
        buffer("m7q1-rms-uniform", UNIFORM_BUFFER_BYTES, BufferUsage::Uniform),
        buffer("m7q1-rms-output", sizes.rms, BufferUsage::StorageOutput),
        buffer("m7q1-rms-readback", sizes.rms, BufferUsage::Readback),
        buffer("m7q1-gemv-matrix-f16", gemv_matrix_f16.len() as u64, BufferUsage::StorageInput),
        buffer("m7q1-gemv-vector", gemv_vector.len() as u64, BufferUsage::StorageInput),
        buffer("m7q1-gemv-uniform", UNIFORM_BUFFER_BYTES, BufferUsage::Uniform),
        buffer("m7q1-gemv-output", sizes.gemv, BufferUsage::StorageOutput),
        buffer("m7q1-gemv-readback", sizes.gemv, BufferUsage::Readback),
        buffer("m7q1-linear-input", linear_input.len() as u64, BufferUsage::StorageInput),
        buffer(
            "m7q1-linear-weight-f16",
            linear_weight_f16.len() as u64,
            BufferUsage::StorageInput,
        ),
        buffer("m7q1-linear-bias", linear_bias.len() as u64, BufferUsage::StorageInput),
        buffer("m7q1-linear-uniform", UNIFORM_BUFFER_BYTES, BufferUsage::Uniform),
        buffer("m7q1-linear-output", sizes.linear, BufferUsage::StorageOutput),
        buffer("m7q1-linear-readback", sizes.linear, BufferUsage::Readback),
        buffer(
            "m7q1-linear-input-major-weight-f16",
            linear_input_major_weight_f16.len() as u64,
            BufferUsage::StorageInput,
        ),
        buffer("m7q1-linear-input-major-uniform", UNIFORM_BUFFER_BYTES, BufferUsage::Uniform),
        buffer("m7q1-linear-input-major-output", sizes.linear, BufferUsage::StorageOutput),
        buffer("m7q1-linear-input-major-readback", sizes.linear, BufferUsage::Readback),
        buffer("m7q1-vision-input", vision_input.len() as u64, BufferUsage::StorageInput),
        buffer(
            "m7q1-vision-weight-f32",
            vision_weight_f32.len() as u64,
            BufferUsage::StorageInput,
        ),
        buffer("m7q1-vision-bias", vision_bias.len() as u64, BufferUsage::StorageInput),
        buffer("m7q1-vision-uniform", UNIFORM_BUFFER_BYTES, BufferUsage::Uniform),
        buffer("m7q1-vision-output", sizes.vision, BufferUsage::StorageOutput),
        buffer("m7q1-vision-readback", sizes.vision, BufferUsage::Readback),
    ];
    assert(buffers@ =~= probe_buffers(model));
    let bind_groups: Vec<BindGroupPlan> = vec![
        BindGroupPlan {
            label: "m7q1-rms-bind-group",
            pipeline: LAYOUT_RMS,
            bindings: vec![
                Binding { buffer: PROBE_RMS_INPUT, size: rms_input.len() as u64 },
                Binding { buffer: PROBE_RMS_WEIGHT_F16, size: rms_weight_f16.len() as u64 },
                Binding { buffer: PROBE_RMS_OUTPUT, size: sizes.rms },
                Binding { buffer: PROBE_RMS_UNIFORM, size: UNIFORM_BUFFER_BYTES },
            ],
        },
        BindGroupPlan {
            label: "m7q1-gemv-bind-group",
            pipeline: LAYOUT_GEMV,
            bindings: vec![
                Binding { buffer: PROBE_GEMV_MATRIX_F16, size: gemv_matrix_f16.len() as u64 },
                Binding { buffer: PROBE_GEMV_VECTOR, size: gemv_vector.len() as u64 },
                Binding { buffer: PROBE_GEMV_OUTPUT, size: sizes.gemv },
                Binding { buffer: PROBE_GEMV_UNIFORM, size: UNIFORM_BUFFER_BYTES },
            ],
        },
        BindGroupPlan {
            label: "m7q1-linear-bind-group",
            pipeline: LAYOUT_PROJECTION,
            bindings: vec![
                Binding { buffer: PROBE_LINEAR_INPUT, size: linear_input.len() as u64 },
                Binding { buffer: PROBE_LINEAR_WEIGHT_F16, size: linear_weight_f16.len() as u64 },
                Binding { buffer: PROBE_LINEAR_BIAS, size: linear_bias.len() as u64 },
                Binding { buffer: PROBE_LINEAR_OUTPUT, size: sizes.linear },
                Binding { buffer: PROBE_LINEAR_UNIFORM, size: UNIFORM_BUFFER_BYTES },
            ],
        },
        BindGroupPlan {
            label: "m7q1-linear-input-major-bind-group",
            pipeline: LAYOUT_PROJECTION,
            bindings: vec![
                Binding { buffer: PROBE_LINEAR_INPUT, size: linear_input.len() as u64 },
                Binding {
                    buffer: PROBE_LINEAR_INPUT_MAJOR_WEIGHT_F16,
                    size: linear_input_major_weight_f16.len() as u64,
                },
                Binding { buffer: PROBE_LINEAR_BIAS, size: linear_bias.len() as u64 },
                Binding { buffer: PROBE_LINEAR_INPUT_MAJOR_OUTPUT, size: sizes.linear },
                Binding { buffer: PROBE_LINEAR_INPUT_MAJOR_UNIFORM, size: UNIFORM_BUFFER_BYTES },
            ],
        },
        BindGroupPlan {
            label: "m7q1-vision-bind-group",
            pipeline: LAYOUT_PROJECTION,
            bindings: vec![
                Binding { buffer: PROBE_VISION_INPUT, size: vision_input.len() as u64 },
                Binding { buffer: PROBE_VISION_WEIGHT_F32, size: vision_weight_f32.len() as u64 },
                Binding { buffer: PROBE_VISION_BIAS, size: vision_bias.len() as u64 },
                Binding { buffer: PROBE_VISION_OUTPUT, size: sizes.vision },
                Binding { buffer: PROBE_VISION_UNIFORM, size: UNIFORM_BUFFER_BYTES },
            ],
        },
    ];
    assert(crate::gpu::group_models(bind_groups@) =~~= probe_bind_groups(model));
    let writes: Vec<WritePlan> = vec![
        write_of_bytes(PROBE_RMS_INPUT, rms_input),
        write_of_bytes(PROBE_RMS_WEIGHT_F16, rms_weight_f16),
        write_of_words(
            PROBE_RMS_UNIFORM,
            &[probe.rms.rows, probe.rms.width, probe.rms.epsilon, 0],
        ),
        write_of_bytes(PROBE_GEMV_MATRIX_F16, gemv_matrix_f16),
        write_of_bytes(PROBE_GEMV_VECTOR, gemv_vector),
        write_of_words(
            PROBE_GEMV_UNIFORM,
            &[probe.gemv.rows, probe.gemv.columns, 0, 0],
        ),
        write_of_bytes(PROBE_LINEAR_INPUT, linear_input),
        write_of_bytes(PROBE_LINEAR_WEIGHT_F16, linear_weight_f16),
        write_of_bytes(PROBE_LINEAR_BIAS, linear_bias),
        write_of_words(
            PROBE_LINEAR_UNIFORM,
            &[
                probe.linear.tokens,
                probe.linear.input_width,
                probe.linear.output_width,
                0,
            ],
        ),
        write_of_bytes(PROBE_LINEAR_INPUT_MAJOR_WEIGHT_F16, linear_input_major_weight_f16),
        write_of_words(
            PROBE_LINEAR_INPUT_MAJOR_UNIFORM,
            &[
                probe.linear_input_major.tokens,
                probe.linear_input_major.input_width,
                probe.linear_input_major.output_width,
                1,
            ],
        ),
        write_of_bytes(PROBE_VISION_INPUT, vision_input),
        write_of_bytes(PROBE_VISION_WEIGHT_F32, vision_weight_f32),
        write_of_bytes(PROBE_VISION_BIAS, vision_bias),
        write_of_words(
            PROBE_VISION_UNIFORM,
            &[
                probe.vision.patches,
                probe.vision.input_width,
                probe.vision.output_width,
                0,
            ],
        ),
    ];
    assert(crate::gpu::write_models(writes@) =~= probe_writes(model)) by {
        assert([probe.rms.rows, probe.rms.width, probe.rms.epsilon, 0u32]@ =~= rms_words(model));
        assert([probe.gemv.rows, probe.gemv.columns, 0u32, 0u32]@ =~= gemv_words(model));
        assert([
            probe.linear.tokens,
            probe.linear.input_width,
            probe.linear.output_width,
            0u32,
        ]@ =~= linear_words(model));
        assert([
            probe.linear_input_major.tokens,
            probe.linear_input_major.input_width,
            probe.linear_input_major.output_width,
            1u32,
        ]@ =~= linear_input_major_words(model));
        assert([
            probe.vision.patches,
            probe.vision.input_width,
            probe.vision.output_width,
            0u32,
        ]@ =~= vision_words(model));
    }
    let commands: Vec<Command> = probe_command_plans(probe, tiles, &sizes);
    ProbePlan {
        sizes,
        buffers,
        writes,
        bind_groups,
        encoder: "m7q1-fp16-weight-probe-encoder",
        commands,
    }
}

/// An output of a probe.
#[derive(Clone, Copy, Debug, PartialEq, Eq, Structural)]
pub enum ProbeOutput {
    Rms,
    Gemv,
    Linear,
    LinearInputMajor,
    Vision,
}

/// How messages name an output of a probe.
pub open spec fn output_noun(output: ProbeOutput) -> Seq<char> {
    match output {
        ProbeOutput::Rms => "RMS output"@,
        ProbeOutput::Gemv => "GEMV output"@,
        ProbeOutput::Linear => "linear output"@,
        ProbeOutput::LinearInputMajor => "input-major linear output"@,
        ProbeOutput::Vision => "vision output"@,
    }
}

fn output_name(output: ProbeOutput) -> (name: &'static str)
    ensures
        name@ == output_noun(output),
{
    match output {
        ProbeOutput::Rms => "RMS output",
        ProbeOutput::Gemv => "GEMV output",
        ProbeOutput::Linear => "linear output",
        ProbeOutput::LinearInputMajor => "input-major linear output",
        ProbeOutput::Vision => "vision output",
    }
}

/// Reads the words of an output of a probe out of its readback.
pub fn decode_probe_output(output: ProbeOutput, mapped: &[u8]) -> (words: Result<
    Vec<u32>,
    String,
>)
    ensures
        crate::operands::words_said(words) == crate::operands::words_outcome(
            mapped@,
            "M7q1 "@ + output_noun(output),
        ),
{
    let label: String = crate::text::join2("M7q1 ", output_name(output));
    bytes_to_words(mapped, label.as_str())
}

/// The numbers of an output of a probe, or the message that one is not finite.
pub open spec fn numbers_outcome(words: Seq<u32>, output: ProbeOutput) -> Result<
    JsonTree,
    Seq<char>,
> {
    if !crate::stack_encode::all_finite(words) {
        Err("M7q1 "@ + output_noun(output) + " contains a nonfinite GPU result"@)
    } else {
        Ok(
            JsonTree::Array(
                words.map_values(
                    |word: u32|
                        JsonTree::Number(JsonNumber::Double(crate::ieee::widened(word))),
                ),
            ),
        )
    }
}

/// The numbers of an output of a probe, in double precision.
pub fn m7q1_f32_json(words: &Vec<u32>, output: ProbeOutput) -> (value: Result<
    serde_json::Value,
    String,
>)
    ensures
        (match value {
            Ok(found) => Ok(crate::json::value_tree(found)),
            Err(message) => Err(message@),
        }) == numbers_outcome(words@, output),
{
    let mut numbers: Vec<serde_json::Value> = Vec::new();
    let mut index: usize = 0;
    while index < words.len()
        invariant
            index <= words.len(),
            numbers.len() == index,
            forall|i: int|
                0 <= i < index ==> crate::ieee::single_finite(#[trigger] words@[i]),
            forall|i: int|
                0 <= i < index ==> crate::json::value_tree(#[trigger] numbers@[i])
                    == JsonTree::Number(JsonNumber::Double(crate::ieee::widened(words@[i]))),
        decreases words.len() - index,
    {
        if !single_is_finite(words[index]) {
            assert(!crate::stack_encode::all_finite(words@));
            return Err(
                join3("M7q1 ", output_name(output), " contains a nonfinite GPU result"),
            );
        }
        numbers.push(json_double(widen(words[index])));
        index += 1;
    }
    assert(crate::json::trees(numbers@) =~= words@.map_values(
        |word: u32| JsonTree::Number(JsonNumber::Double(crate::ieee::widened(word))),
    ));
    Ok(json_array(numbers))
}

/// The words of the outputs of a probe.
pub struct ProbeOutputs {
    pub rms: Vec<u32>,
    pub gemv: Vec<u32>,
    pub linear: Vec<u32>,
    pub linear_input_major: Vec<u32>,
    pub vision: Vec<u32>,
}

/// The outputs of a probe as they are reported, or the first that is not finite.
pub open spec fn outputs_outcome(outputs: ProbeOutputs) -> Result<JsonTree, Seq<char>> {
    match numbers_outcome(outputs.rms@, ProbeOutput::Rms) {
        Err(message) => Err(message),
        Ok(rms) => match numbers_outcome(outputs.gemv@, ProbeOutput::Gemv) {
            Err(message) => Err(message),
            Ok(gemv) => match numbers_outcome(outputs.linear@, ProbeOutput::Linear) {
                Err(message) => Err(message),
                Ok(linear) => match numbers_outcome(
                    outputs.linear_input_major@,
                    ProbeOutput::LinearInputMajor,
                ) {
                    Err(message) => Err(message),
                    Ok(major) => match numbers_outcome(outputs.vision@, ProbeOutput::Vision) {
                        Err(message) => Err(message),
                        Ok(vision) => Ok(
                            JsonTree::Object(
                                crate::json::no_members()
                                    .insert("rms"@, rms)
                                    .insert("gemv"@, gemv)
                                    .insert("linear"@, linear)
                                    .insert("linear_input_major"@, major)
                                    .insert("vision"@, vision),
                            ),
                        ),
                    },
                },
            },
        },
    }
}

fn outputs_json(outputs: &ProbeOutputs) -> (value: Result<serde_json::Value, String>)
    ensures
        (match value {
            Ok(found) => Ok(crate::json::value_tree(found)),
            Err(message) => Err(message@),
        }) == outputs_outcome(*outputs),
{
    let rms: serde_json::Value = m7q1_f32_json(&outputs.rms, ProbeOutput::Rms)?;
    let gemv: serde_json::Value = m7q1_f32_json(&outputs.gemv, ProbeOutput::Gemv)?;
    let linear: serde_json::Value = m7q1_f32_json(&outputs.linear, ProbeOutput::Linear)?;
    let major: serde_json::Value = m7q1_f32_json(
        &outputs.linear_input_major,
        ProbeOutput::LinearInputMajor,
    )?;
    let vision: serde_json::Value = m7q1_f32_json(&outputs.vision, ProbeOutput::Vision)?;
    let mut members: serde_json::Map<String, serde_json::Value> = json_new();
    json_insert(&mut members, "rms", rms);
    json_insert(&mut members, "gemv", gemv);
    json_insert(&mut members, "linear", linear);
    json_insert(&mut members, "linear_input_major", major);
    json_insert(&mut members, "vision", vision);
    Ok(json_object(members))
}

/// How the resources of a probe are reported.
pub open spec fn resources_tree(f16_shards: u32, f32_rope_shards: u32) -> JsonTree {
    let integer = |value: u64| crate::json::integer_tree(value);
    JsonTree::Object(
        crate::json::no_members()
            .insert("f16_checkpoint_shards"@, integer(f16_shards as u64))
            .insert("f32_checkpoint_shards"@, integer(0))
            .insert("f32_rope_table_shards"@, integer(f32_rope_shards as u64))
            .insert("checkpoint_weight_element_bytes"@, integer(2))
            .insert("rope_table_element_bytes"@, integer(4))
            .insert("activation_element_bytes"@, integer(4))
            .insert("cache_element_bytes"@, integer(4))
            .insert("output_element_bytes"@, integer(4))
            .insert("accumulator_dtype"@, JsonTree::Text("f32"@)),
    )
}

fn resources_json(partition: &PartitionProbe) -> (value: serde_json::Value)
    ensures
        crate::json::value_tree(value) == resources_tree(
            partition.f16_checkpoint_shards,
            partition.f32_rope_table_shards,
        ),
{
    let mut members: serde_json::Map<String, serde_json::Value> = json_new();
    insert_u64(&mut members, "f16_checkpoint_shards", partition.f16_checkpoint_shards as u64);
    insert_u64(&mut members, "f32_checkpoint_shards", 0);
    insert_u64(&mut members, "f32_rope_table_shards", partition.f32_rope_table_shards as u64);
    insert_u64(&mut members, "checkpoint_weight_element_bytes", 2);
    insert_u64(&mut members, "rope_table_element_bytes", 4);
    insert_u64(&mut members, "activation_element_bytes", 4);
    insert_u64(&mut members, "cache_element_bytes", 4);
    insert_u64(&mut members, "output_element_bytes", 4);
    json_insert(&mut members, "accumulator_dtype", json_text("f32"));
    json_object(members)
}

/// A JSON array of texts.
pub open spec fn texts_tree(texts: Seq<Seq<char>>) -> JsonTree {
    JsonTree::Array(texts.map_values(|text: Seq<char>| JsonTree::Text(text)))
}

fn texts_json(texts: &Vec<&'static str>) -> (value: serde_json::Value)
    ensures
        crate::json::value_tree(value) == texts_tree(crate::text::names(texts@)),
{
    let mut elements: Vec<serde_json::Value> = Vec::new();
    let mut index: usize = 0;
    while index < texts.len()
        invariant
            index <= texts.len(),
            elements.len() == index,
            forall|i: int|
                0 <= i < index ==> crate::json::value_tree(#[trigger] elements@[i])
                    == JsonTree::Text(texts@[i]@),
        decreases texts.len() - index,
    {
        elements.push(json_text(texts[index]));
        index += 1;
    }
    assert(crate::json::trees(elements@) =~= crate::text::names(texts@).map_values(
        |text: Seq<char>| JsonTree::Text(text),
    ));
    json_array(elements)
}

/// How the effects of a probe are reported.
pub open spec fn probe_effects_tree() -> JsonTree {
    let integer = |value: u64| crate::json::integer_tree(value);
    JsonTree::Object(
        crate::json::no_members()
            .insert("buffer_creations"@, integer(26))
            .insert("queue_writes"@, integer(16))
            .insert("submissions"@, integer(1)),
    )
}

/// What is reported of a probe with given outputs.
pub open spec fn probe_tree(probe: WeightProbeModel, outputs: JsonTree) -> JsonTree {
    JsonTree::Object(
        crate::json::no_members()
            .insert("precision_profile"@, JsonTree::Text("balanced"@))
            .insert("device_features"@, texts_tree(seq!["shader-f16"@]))
            .insert("checkpoint_blake3"@, JsonTree::Text(probe.checkpoint_blake3))
            .insert(
                "resource_plan"@,
                resources_tree(
                    probe.partition.f16_checkpoint_shards,
                    probe.partition.f32_rope_table_shards,
                ),
            )
            .insert(
                "decoder_pipeline_trace"@,
                texts_tree(
                    seq![
                        "rms_norm_f16_weights"@,
                        "gemv_tiled_f16_weights"@,
                        "linear_projection_f16_weights"@,
                    ],
                ),
            )
            .insert("vision_pipeline_trace"@, texts_tree(seq!["vision_patch_projection_f32"@]))
            .insert("vision_weight_storage"@, JsonTree::Text("f32"@))
            .insert("outputs"@, outputs)
            .insert("effects"@, probe_effects_tree()),
    )
}

/// What is reported of a probe.
pub fn m7q1_probe_report(probe: &WeightProbe, outputs: &ProbeOutputs) -> (value: Result<
    serde_json::Value,
    String,
>)
    ensures
        match value {
            Ok(report) => outputs_outcome(*outputs) is Ok && crate::json::value_tree(report)
                == probe_tree(
                crate::probe_parse::probe_model(*probe),
                outputs_outcome(*outputs)->Ok_0,
            ),
            Err(message) => outputs_outcome(*outputs) == Err::<JsonTree, Seq<char>>(message@),
        },
{
    let values: serde_json::Value = outputs_json(outputs)?;
    let features: Vec<&'static str> = vec!["shader-f16"];
    assert(crate::text::names(features@) =~= seq!["shader-f16"@]);
    let decoder: Vec<&'static str> = vec![
        "rms_norm_f16_weights",
        "gemv_tiled_f16_weights",
        "linear_projection_f16_weights",
    ];
    assert(crate::text::names(decoder@) =~= seq![
        "rms_norm_f16_weights"@,
        "gemv_tiled_f16_weights"@,
        "linear_projection_f16_weights"@,
    ]);
    let vision: Vec<&'static str> = vec!["vision_patch_projection_f32"];
    assert(crate::text::names(vision@) =~= seq!["vision_patch_projection_f32"@]);
    let mut effects: serde_json::Map<String, serde_json::Value> = json_new();
    insert_u64(&mut effects, "buffer_creations", 26);
    insert_u64(&mut effects, "queue_writes", 16);
    insert_u64(&mut effects, "submissions", 1);
    let mut report: serde_json::Map<String, serde_json::Value> = json_new();
    json_insert(&mut report, "precision_profile", json_text("balanced"));
    json_insert(&mut report, "device_features", texts_json(&features));
    json_insert(&mut report, "checkpoint_blake3", json_text(probe.checkpoint_blake3.as_str()));
    json_insert(&mut report, "resource_plan", resources_json(&probe.partition));
    json_insert(&mut report, "decoder_pipeline_trace", texts_json(&decoder));
    json_insert(&mut report, "vision_pipeline_trace", texts_json(&vision));
    json_insert(&mut report, "vision_weight_storage", json_text("f32"));
    json_insert(&mut report, "outputs", values);
    json_insert(&mut report, "effects", json_object(effects));
    Ok(json_object(report))
}

/// The report on a probe, as text.
pub fn m7q1_probe_report_json(probe: &WeightProbe, outputs: &ProbeOutputs) -> (text: Result<
    String,
    String,
>)
    ensures
        crate::text::said_text(text) == (match outputs_outcome(*outputs) {
            Err(message) => Err(message),
            Ok(values) => crate::diagnostics::rendered_outcome(
                Family::Stack,
                crate::json::rendered_json(
                    probe_tree(crate::probe_parse::probe_model(*probe), values),
                ),
            ),
        }),
        text is Ok == outputs_outcome(*outputs) is Ok,
{
    let value: serde_json::Value = m7q1_probe_report(probe, outputs)?;
    json_text_of(Family::Stack, &value)
}

/// Whether the byte sizes of the operands of a probe can be counted.
pub open spec fn operands_countable(probe: WeightProbeModel) -> bool {
    &&& 4 * probe.rms.input.len() <= u64::MAX
    &&& 2 * probe.rms.weight_f16.len() <= u64::MAX
    &&& 2 * probe.gemv.matrix_f16.len() <= u64::MAX
    &&& 4 * probe.gemv.vector.len() <= u64::MAX
    &&& 4 * probe.linear.input.len() <= u64::MAX
    &&& 2 * probe.linear.weight_f16.len() <= u64::MAX
    &&& 4 * probe.linear.bias.len() <= u64::MAX
    &&& 2 * probe.linear_input_major.weight_f16.len() <= u64::MAX
    &&& 4 * probe.vision.input.len() <= u64::MAX
    &&& 4 * probe.vision.weight.len() <= u64::MAX
    &&& 4 * probe.vision.bias.len() <= u64::MAX
}

/// The GPU work of a probe stays inside its buffers, and its report counts them and the queue
/// writes.
pub proof fn law_probe_fits(probe: WeightProbeModel)
    requires
        operands_countable(probe),
    ensures
        ({
            let buffers = probe_buffers(probe);
            let writes = probe_writes(probe);
            let groups = probe_bind_groups(probe);
            let copies = probe_copies(probe);
            &&& buffers.len() == 26
            &&& writes.len() == 16
            &&& forall|i: int|
                0 <= i < writes.len() ==> crate::gpu::write_fits(#[trigger] writes[i], buffers)
            &&& forall|i: int|
                0 <= i < groups.len() ==> crate::gpu::group_fits(#[trigger] groups[i], buffers)
            &&& forall|i: int|
                0 <= i < copies.len() ==> crate::gpu::copy_fits(#[trigger] copies[i], buffers)
        }),
{
}

/// Every pass of a probe runs a pipeline that the probe creates, on a bind group with the layout
/// of that pipeline.
pub proof fn law_probe_pipelines_are_created(
    probe: WeightProbeModel,
    sources: StackSourcesModel,
    pass: int,
)
    requires
        0 <= pass < probe_pipelines().len(),
    ensures
        probe_bind_groups(probe).len() == probe_pipelines().len(),
        exists|i: int|
            0 <= i < created_pipelines(sources).len() && (#[trigger] created_pipelines(
                sources,
            )[i]).place == probe_pipelines()[pass] && created_pipelines(sources)[i].layout
                == probe_bind_groups(probe)[pass].pipeline,
{
    let created = created_pipelines(sources);
    if pass < 3 {
        assert(created[pass].place == probe_pipelines()[pass]);
    } else {
        assert(created[pass - 1].place == probe_pipelines()[pass]);
    }
}

} // verus!
