//! Laws of the weight probe: it holds what its fixture says, and its report says what came out.

use crate::family::WeightStorage;
use crate::json::{JsonNumber, JsonTree, Members};
use crate::probe::ProbeOutputs;
use crate::probe_parse::{LinearProbeModel, WeightProbeModel};
use crate::stack_resources::PipelineModel;
use crate::stack_sources::StackSourcesModel;
use vstd::prelude::*;

verus! {

proof fn lemma_probe_names()
    ensures
        "rms"@.len() == 3,
        "gemv"@.len() == 4,
        "linear"@.len() == 6,
        "linear_input_major"@.len() == 18,
        "vision"@.len() == 6,
        "f16_checkpoint_shards"@.len() == 21,
        "f32_checkpoint_shards"@.len() == 21,
        "f32_rope_table_shards"@.len() == 21,
        "checkpoint_weight_element_bytes"@.len() == 31,
        "rope_table_element_bytes"@.len() == 24,
        "activation_element_bytes"@.len() == 24,
        "cache_element_bytes"@.len() == 19,
        "output_element_bytes"@.len() == 20,
        "accumulator_dtype"@.len() == 17,
        "buffer_creations"@.len() == 16,
        "queue_writes"@.len() == 12,
        "submissions"@.len() == 11,
        "precision_profile"@.len() == 17,
        "device_features"@.len() == 15,
        "checkpoint_blake3"@.len() == 17,
        "resource_plan"@.len() == 13,
        "decoder_pipeline_trace"@.len() == 22,
        "vision_pipeline_trace"@.len() == 21,
        "vision_weight_storage"@.len() == 21,
        "outputs"@.len() == 7,
        "effects"@.len() == 7,
        "admitted"@.len() == 8,
        "error"@.len() == 5,
        "ready"@.len() == 5,
        "resident_weight_bytes"@.len() == 21,
        "key"@.len() == 3,
        "schema_version"@.len() == 14,
        "rms"@ != "key"@,
        "linear"@ != "vision"@,
        "f16_checkpoint_shards"@ != "f32_checkpoint_shards"@,
        "f16_checkpoint_shards"@ != "f32_rope_table_shards"@,
        "f16_checkpoint_shards"@ != "vision_pipeline_trace"@,
        "f16_checkpoint_shards"@ != "vision_weight_storage"@,
        "f16_checkpoint_shards"@ != "resident_weight_bytes"@,
        "f32_checkpoint_shards"@ != "f32_rope_table_shards"@,
        "f32_checkpoint_shards"@ != "vision_pipeline_trace"@,
        "f32_checkpoint_shards"@ != "vision_weight_storage"@,
        "f32_checkpoint_shards"@ != "resident_weight_bytes"@,
        "f32_rope_table_shards"@ != "vision_pipeline_trace"@,
        "f32_rope_table_shards"@ != "vision_weight_storage"@,
        "f32_rope_table_shards"@ != "resident_weight_bytes"@,
        "rope_table_element_bytes"@ != "activation_element_bytes"@,
        "accumulator_dtype"@ != "precision_profile"@,
        "accumulator_dtype"@ != "checkpoint_blake3"@,
        "precision_profile"@ != "checkpoint_blake3"@,
        "vision_pipeline_trace"@ != "vision_weight_storage"@,
        "vision_pipeline_trace"@ != "resident_weight_bytes"@,
        "vision_weight_storage"@ != "resident_weight_bytes"@,
        "outputs"@ != "effects"@,
        "error"@ != "ready"@,
{
    reveal_strlit("rms");
    reveal_strlit("gemv");
    reveal_strlit("linear");
    reveal_strlit("linear_input_major");
    reveal_strlit("vision");
    reveal_strlit("f16_checkpoint_shards");
    reveal_strlit("f32_checkpoint_shards");
    reveal_strlit("f32_rope_table_shards");
    reveal_strlit("checkpoint_weight_element_bytes");
    reveal_strlit("rope_table_element_bytes");
    reveal_strlit("activation_element_bytes");
    reveal_strlit("cache_element_bytes");
    reveal_strlit("output_element_bytes");
    reveal_strlit("accumulator_dtype");
    reveal_strlit("buffer_creations");
    reveal_strlit("queue_writes");
    reveal_strlit("submissions");
    reveal_strlit("precision_profile");
    reveal_strlit("device_features");
    reveal_strlit("checkpoint_blake3");
    reveal_strlit("resource_plan");
    reveal_strlit("decoder_pipeline_trace");
    reveal_strlit("vision_pipeline_trace");
    reveal_strlit("vision_weight_storage");
    reveal_strlit("outputs");
    reveal_strlit("effects");
    reveal_strlit("admitted");
    reveal_strlit("error");
    reveal_strlit("ready");
    reveal_strlit("resident_weight_bytes");
    reveal_strlit("key");
    reveal_strlit("schema_version");
    assert("rms"@[0] != "key"@[0]);
    assert("linear"@[0] != "vision"@[0]);
    assert("f16_checkpoint_shards"@[1] != "f32_checkpoint_shards"@[1]);
    assert("f16_checkpoint_shards"@[1] != "f32_rope_table_shards"@[1]);
    assert("f16_checkpoint_shards"@[0] != "vision_pipeline_trace"@[0]);
    assert("f16_checkpoint_shards"@[0] != "vision_weight_storage"@[0]);
    assert("f16_checkpoint_shards"@[0] != "resident_weight_bytes"@[0]);
    assert("f32_checkpoint_shards"@[4] != "f32_rope_table_shards"@[4]);
    assert("f32_checkpoint_shards"@[0] != "vision_pipeline_trace"@[0]);
    assert("f32_checkpoint_shards"@[0] != "vision_weight_storage"@[0]);
    assert("f32_checkpoint_shards"@[0] != "resident_weight_bytes"@[0]);
    assert("f32_rope_table_shards"@[0] != "vision_pipeline_trace"@[0]);
    assert("f32_rope_table_shards"@[0] != "vision_weight_storage"@[0]);
    assert("f32_rope_table_shards"@[0] != "resident_weight_bytes"@[0]);
    assert("rope_table_element_bytes"@[0] != "activation_element_bytes"@[0]);
    assert("accumulator_dtype"@[0] != "precision_profile"@[0]);
    assert("accumulator_dtype"@[0] != "checkpoint_blake3"@[0]);
    assert("precision_profile"@[0] != "checkpoint_blake3"@[0]);
    assert("vision_pipeline_trace"@[7] != "vision_weight_storage"@[7]);
    assert("vision_pipeline_trace"@[0] != "resident_weight_bytes"@[0]);
    assert("vision_weight_storage"@[0] != "resident_weight_bytes"@[0]);
    assert("outputs"@[0] != "effects"@[0]);
    assert("error"@[0] != "ready"@[0]);
}

/// Whether members hold an integer under a name.
pub open spec fn holds_integer(members: Members, name: Seq<char>, integer: u32) -> bool {
    crate::json::member_u64(members, name) == Some(integer as u64)
}

/// Whether a JSON number is, rounded, a finite single-precision value.
pub open spec fn rounds_to(tree: JsonTree, single: u32) -> bool {
    &&& crate::json::tree_double(tree) matches Some(double)
    &&& crate::ieee::narrowed(double) == single
    &&& crate::ieee::single_finite(single)
}

/// Whether members hold a list of single-precision values under a name.
pub open spec fn holds_singles(members: Members, name: Seq<char>, singles: Seq<u32>) -> bool {
    &&& crate::json::member(members, name) matches Some(tree)
    &&& crate::json::tree_array(tree) matches Some(elements)
    &&& elements.len() == singles.len()
    &&& forall|i: int| 0 <= i < elements.len() ==> rounds_to(#[trigger] elements[i], singles[i])
}

/// Whether members hold a list of half-precision bits under a name.
pub open spec fn holds_halves(members: Members, name: Seq<char>, halves: Seq<u16>) -> bool {
    &&& crate::json::member(members, name) matches Some(tree)
    &&& crate::json::tree_array(tree) matches Some(elements)
    &&& elements.len() == halves.len()
    &&& forall|i: int|
        0 <= i < elements.len() ==> crate::json::tree_u64(#[trigger] elements[i]) == Some(
            halves[i] as u64,
        )
}

/// Whether members hold an object under a name.
pub open spec fn holds_object(members: Members, name: Seq<char>, inner: Members) -> bool {
    &&& crate::json::member(members, name) matches Some(tree)
    &&& crate::json::tree_object(tree) == Some(inner)
}

proof fn lemma_singles_read(elements: Seq<JsonTree>, label: Seq<char>, index: int, read: Seq<u32>)
    requires
        0 <= index <= elements.len(),
        read.len() == index,
        forall|i: int| 0 <= i < index ==> rounds_to(#[trigger] elements[i], read[i]),
    ensures
        crate::probe_parse::singles_from(elements, label, index, read) matches Ok(singles)
            ==> singles.len() == elements.len() && forall|i: int|
            0 <= i < elements.len() ==> rounds_to(#[trigger] elements[i], singles[i]),
    decreases elements.len() - index,
{
    if index < elements.len() {
        if let Some(double) = crate::json::tree_double(elements[index]) {
            let single = crate::ieee::narrowed(double);
            if crate::ieee::single_finite(single) {
                lemma_singles_read(elements, label, index + 1, read.push(single));
            }
        }
    }
}

proof fn lemma_halves_read(elements: Seq<JsonTree>, label: Seq<char>, index: int, read: Seq<u16>)
    requires
        0 <= index <= elements.len(),
        read.len() == index,
        forall|i: int|
            0 <= i < index ==> crate::json::tree_u64(#[trigger] elements[i]) == Some(
                read[i] as u64,
            ),
    ensures
        crate::probe_parse::halves_from(elements, label, index, read) matches Ok(halves)
            ==> halves.len() == elements.len() && forall|i: int|
            0 <= i < elements.len() ==> crate::json::tree_u64(#[trigger] elements[i]) == Some(
                halves[i] as u64,
            ),
    decreases elements.len() - index,
{
    if index < elements.len() {
        if let Some(integer) = crate::json::tree_u64(elements[index]) {
            if integer <= u16::MAX {
                lemma_halves_read(elements, label, index + 1, read.push(integer as u16));
            }
        }
    }
}

proof fn lemma_integer_held(members: Members, name: Seq<char>, label: Seq<char>)
    ensures
        crate::probe_parse::integer_outcome(members, name, label) matches Ok(integer)
            ==> holds_integer(members, name, integer),
{
}

proof fn lemma_singles_held(members: Members, name: Seq<char>, label: Seq<char>)
    ensures
        crate::probe_parse::singles_outcome(members, name, label) matches Ok(singles)
            ==> holds_singles(members, name, singles),
{
    if let Some(tree) = crate::json::member(members, name) {
        if let Some(elements) = crate::json::tree_array(tree) {
            lemma_singles_read(elements, label, 0, Seq::empty());
        }
    }
}

proof fn lemma_halves_held(members: Members, name: Seq<char>, label: Seq<char>)
    ensures
        crate::probe_parse::halves_outcome(members, name, label) matches Ok(halves)
            ==> holds_halves(members, name, halves),
{
    if let Some(tree) = crate::json::member(members, name) {
        if let Some(elements) = crate::json::tree_array(tree) {
            lemma_halves_read(elements, label, 0, Seq::empty());
        }
    }
}

/// Whether members say what a linear-projection probe holds.
pub open spec fn says_linear(members: Members, linear: LinearProbeModel) -> bool {
    &&& holds_integer(members, "tokens"@, linear.tokens)
    &&& holds_integer(members, "input_width"@, linear.input_width)
    &&& holds_integer(members, "output_width"@, linear.output_width)
    &&& holds_singles(members, "input"@, linear.input)
    &&& holds_halves(members, "weight_f16"@, linear.weight_f16)
    &&& holds_singles(members, "bias"@, linear.bias)
}

proof fn lemma_linear_said(members: Members, label: Seq<char>)
    ensures
        crate::probe_parse::linear_outcome(members, label) matches Ok(linear) ==> says_linear(
            members,
            linear,
        ),
{
    lemma_integer_held(members, "tokens"@, label);
    lemma_integer_held(members, "input_width"@, label);
    lemma_integer_held(members, "output_width"@, label);
    lemma_singles_held(members, "input"@, label);
    lemma_halves_held(members, "weight_f16"@, label);
    lemma_singles_held(members, "bias"@, label);
}

/// Whether the root of a fixture says what the parts of a probe hold.
pub open spec fn says_probe(root: Members, probe: WeightProbeModel) -> bool {
    &&& exists|members: Members| #[trigger]
        holds_object(root, "checkpoint_partition"@, members) && holds_integer(
            members,
            "f16_checkpoint_shards"@,
            probe.partition.f16_checkpoint_shards,
        ) && holds_integer(
            members,
            "f32_rope_table_shards"@,
            probe.partition.f32_rope_table_shards,
        )
    &&& exists|members: Members| #[trigger]
        holds_object(root, "rms"@, members) && holds_integer(members, "rows"@, probe.rms.rows)
            && holds_integer(members, "width"@, probe.rms.width) && (crate::json::member(
            members,
            "epsilon"@,
        ) matches Some(tree) && rounds_to(tree, probe.rms.epsilon)) && holds_singles(
            members,
            "input"@,
            probe.rms.input,
        ) && holds_halves(members, "weight_f16"@, probe.rms.weight_f16)
    &&& exists|members: Members| #[trigger]
        holds_object(root, "gemv"@, members) && holds_integer(members, "rows"@, probe.gemv.rows)
            && holds_integer(members, "columns"@, probe.gemv.columns) && holds_halves(
            members,
            "matrix_f16"@,
            probe.gemv.matrix_f16,
        ) && holds_singles(members, "vector"@, probe.gemv.vector)
    &&& exists|members: Members| #[trigger]
        holds_object(root, "linear"@, members) && says_linear(members, probe.linear)
    &&& exists|members: Members| #[trigger]
        holds_object(root, "linear_input_major"@, members) && says_linear(
            members,
            probe.linear_input_major,
        )
    &&& exists|members: Members| #[trigger]
        holds_object(root, "vision"@, members) && holds_integer(
            members,
            "patches"@,
            probe.vision.patches,
        ) && holds_integer(members, "input_width"@, probe.vision.input_width) && holds_integer(
            members,
            "output_width"@,
            probe.vision.output_width,
        ) && holds_singles(members, "input"@, probe.vision.input) && holds_singles(
            members,
            "weight"@,
            probe.vision.weight,
        ) && holds_singles(members, "bias"@, probe.vision.bias)
}

/// A probe that is read holds, under every name, what its fixture says under that name.
pub proof fn law_probe_holds_its_fixture(tree: JsonTree, probe: WeightProbeModel)
    requires
        crate::probe_parse::tree_outcome(tree) == Ok::<WeightProbeModel, Seq<char>>(probe),
    ensures
        crate::json::tree_object(tree) matches Some(root) && says_probe(root, probe)
            && crate::json::member(root, "precision_profile"@) == Some(
            JsonTree::Text(probe.precision_profile),
        ) && crate::json::member(root, "checkpoint_blake3"@) == Some(
            JsonTree::Text(probe.checkpoint_blake3),
        ),
{
    let sections = crate::probe_parse::sections_outcome(tree)->Ok_0;
    let root = sections.root;
    lemma_integer_held(sections.partition, "f16_checkpoint_shards"@, "checkpoint partition"@);
    lemma_integer_held(sections.partition, "f32_rope_table_shards"@, "checkpoint partition"@);
    lemma_integer_held(sections.rms, "rows"@, "RMS probe"@);
    lemma_integer_held(sections.rms, "width"@, "RMS probe"@);
    lemma_singles_held(sections.rms, "input"@, "RMS probe"@);
    lemma_halves_held(sections.rms, "weight_f16"@, "RMS probe"@);
    lemma_integer_held(sections.gemv, "rows"@, "GEMV probe"@);
    lemma_integer_held(sections.gemv, "columns"@, "GEMV probe"@);
    lemma_halves_held(sections.gemv, "matrix_f16"@, "GEMV probe"@);
    lemma_singles_held(sections.gemv, "vector"@, "GEMV probe"@);
    lemma_linear_said(sections.linear, "linear probe"@);
    lemma_linear_said(sections.linear_input_major, "input-major linear probe"@);
    lemma_integer_held(sections.vision, "patches"@, "vision probe"@);
    lemma_integer_held(sections.vision, "input_width"@, "vision probe"@);
    lemma_integer_held(sections.vision, "output_width"@, "vision probe"@);
    lemma_singles_held(sections.vision, "input"@, "vision probe"@);
    lemma_singles_held(sections.vision, "weight"@, "vision probe"@);
    lemma_singles_held(sections.vision, "bias"@, "vision probe"@);
    assert(holds_object(root, "checkpoint_partition"@, sections.partition));
    assert(holds_object(root, "rms"@, sections.rms));
    assert(holds_object(root, "gemv"@, sections.gemv));
    assert(holds_object(root, "linear"@, sections.linear));
    assert(holds_object(root, "linear_input_major"@, sections.linear_input_major));
    assert(holds_object(root, "vision"@, sections.vision));
}

proof fn lemma_elements(rows: u32, columns: u32, label: Seq<char>)
    ensures
        crate::probe::elements_from(seq![rows, columns], label, 0, 1) matches Ok(elements)
            ==> elements == rows * columns && rows > 0 && columns > 0,
{
    reveal_with_fuel(crate::probe::elements_from, 3);
    let dimensions = seq![rows, columns];
    assert(1 * dimensions[0] == rows);
    assert(rows * dimensions[1] == rows * columns);
}

/// Whether a linear projection has an input row for every token, a weight for every pair of an
/// input and an output, and a bias for every output.
pub open spec fn linear_shaped(linear: LinearProbeModel) -> bool {
    &&& linear.input.len() == linear.tokens * linear.input_width
    &&& linear.weight_f16.len() == linear.input_width * linear.output_width
    &&& linear.bias.len() == linear.output_width
}

/// A sound probe has operands of the shapes that its kernels read, and both linear projections are
/// the same one: what one multiplies an input by for an output, the other does too.
pub proof fn law_sound_probe_has_its_shapes(probe: WeightProbeModel, input: int, output: int)
    requires
        crate::probe::probe_complaint(probe) is None,
        0 <= input < probe.linear.input_width,
        0 <= output < probe.linear.output_width,
    ensures
        probe.rms.input.len() == probe.rms.rows * probe.rms.width,
        probe.rms.weight_f16.len() == probe.rms.width,
        probe.gemv.matrix_f16.len() == probe.gemv.rows * probe.gemv.columns,
        probe.gemv.vector.len() == probe.gemv.columns,
        probe.gemv.columns % 1024 == 0,
        1024 <= probe.gemv.columns <= 3072,
        linear_shaped(probe.linear),
        linear_shaped(probe.linear_input_major),
        probe.linear_input_major.tokens == probe.linear.tokens,
        probe.linear_input_major.input_width == probe.linear.input_width,
        probe.linear_input_major.output_width == probe.linear.output_width,
        probe.linear.weight_f16[output * probe.linear.input_width + input]
            == probe.linear_input_major.weight_f16[input * probe.linear.output_width + output],
        probe.vision.input.len() == probe.vision.patches * probe.vision.input_width,
        probe.vision.weight.len() == probe.vision.input_width * probe.vision.output_width,
        probe.vision.bias.len() == probe.vision.output_width,
{
    lemma_elements(probe.rms.rows, probe.rms.width, "RMS input"@);
    lemma_elements(probe.gemv.rows, probe.gemv.columns, "GEMV matrix"@);
    let linear = probe.linear;
    let major = probe.linear_input_major;
    lemma_elements(linear.tokens, linear.input_width, "linear input"@);
    lemma_elements(linear.output_width, linear.input_width, "linear weight"@);
    lemma_elements(major.tokens, major.input_width, "input-major linear input"@);
    lemma_elements(major.input_width, major.output_width, "input-major linear weight"@);
    lemma_elements(probe.vision.patches, probe.vision.input_width, "vision input"@);
    lemma_elements(probe.vision.output_width, probe.vision.input_width, "vision weight"@);
    assert(linear.output_width * linear.input_width == linear.input_width * linear.output_width)
        by (nonlinear_arith);
    assert(probe.vision.output_width * probe.vision.input_width == probe.vision.input_width
        * probe.vision.output_width) by (nonlinear_arith);
    assert(crate::probe::transposed_at(
        linear.weight_f16,
        major.weight_f16,
        linear.input_width as int,
        linear.output_width as int,
        output,
        input,
    ));
}

/// Whether members give a list of numbers that are single-precision values under a name.
pub open spec fn gives_numbers(members: Members, name: Seq<char>, words: Seq<u32>) -> bool {
    &&& members.contains_key(name)
    &&& members[name] matches JsonTree::Array(numbers)
    &&& numbers.len() == words.len()
    &&& forall|i: int|
        0 <= i < numbers.len() ==> #[trigger] numbers[i] == JsonTree::Number(
            JsonNumber::Double(crate::ieee::widened(words[i])),
        )
}

/// The outputs of a probe are reported exactly where all of them are finite, each under its name.
pub proof fn law_probe_outputs_go_by_name(outputs: ProbeOutputs)
    ensures
        crate::probe::outputs_outcome(outputs) is Ok == (crate::stack_encode::all_finite(
            outputs.rms@,
        ) && crate::stack_encode::all_finite(outputs.gemv@) && crate::stack_encode::all_finite(
            outputs.linear@,
        ) && crate::stack_encode::all_finite(outputs.linear_input_major@)
            && crate::stack_encode::all_finite(outputs.vision@)),
        crate::probe::outputs_outcome(outputs) matches Ok(tree) ==> {
            &&& tree matches JsonTree::Object(members)
            &&& gives_numbers(members, "rms"@, outputs.rms@)
            &&& gives_numbers(members, "gemv"@, outputs.gemv@)
            &&& gives_numbers(members, "linear"@, outputs.linear@)
            &&& gives_numbers(members, "linear_input_major"@, outputs.linear_input_major@)
            &&& gives_numbers(members, "vision"@, outputs.vision@)
        },
{
    lemma_probe_names();
}

/// The report on a probe counts the buffers and the queue writes of its work and lists the kernels
/// of its pipelines, those of the decoder apart from the one of the vision tower, which reads
/// weights in single precision; and it gives the rest under its name.
pub proof fn law_probe_report_gives_its_facts(
    probe: WeightProbeModel,
    sources: StackSourcesModel,
    outputs: JsonTree,
)
    ensures
        ({
            let tree = crate::probe::probe_tree(probe, outputs);
            let created = crate::probe::created_pipelines(sources);
            let plan = tree->Object_0["resource_plan"@];
            let effects = tree->Object_0["effects"@];
            let decoder = tree->Object_0["decoder_pipeline_trace"@]->Array_0;
            let vision = tree->Object_0["vision_pipeline_trace"@]->Array_0;
            &&& tree is Object
            &&& crate::report_names::gives(tree, "outputs"@, outputs)
            &&& crate::report_names::gives(
                tree,
                "checkpoint_blake3"@,
                JsonTree::Text(probe.checkpoint_blake3),
            )
            &&& crate::report_names::gives(tree, "precision_profile"@, JsonTree::Text("balanced"@))
            &&& crate::report_names::gives(tree, "vision_weight_storage"@, JsonTree::Text("f32"@))
            &&& decoder + vision == created.map_values(
                |pipeline: PipelineModel| JsonTree::Text(pipeline.kernel),
            )
            &&& vision.len() == 1
            &&& crate::report_laws::reports(
                effects,
                "buffer_creations"@,
                crate::probe::probe_buffers(probe).len() as int,
            )
            &&& crate::report_laws::reports(
                effects,
                "queue_writes"@,
                crate::probe::probe_writes(probe).len() as int,
            )
            &&& crate::report_laws::reports(effects, "submissions"@, 1)
            &&& crate::report_laws::reports(
                plan,
                "f16_checkpoint_shards"@,
                probe.partition.f16_checkpoint_shards as int,
            )
            &&& crate::report_laws::reports(plan, "f32_checkpoint_shards"@, 0)
            &&& crate::report_laws::reports(
                plan,
                "f32_rope_table_shards"@,
                probe.partition.f32_rope_table_shards as int,
            )
            &&& crate::report_laws::reports(
                plan,
                "checkpoint_weight_element_bytes"@,
                crate::family::element_bytes(WeightStorage::F16) as int,
            )
            &&& crate::report_laws::reports(
                plan,
                "rope_table_element_bytes"@,
                crate::family::element_bytes(WeightStorage::F32) as int,
            )
            &&& crate::report_laws::reports(plan, "activation_element_bytes"@, 4)
            &&& crate::report_laws::reports(plan, "cache_element_bytes"@, 4)
            &&& crate::report_laws::reports(plan, "output_element_bytes"@, 4)
            &&& crate::report_names::gives(plan, "accumulator_dtype"@, JsonTree::Text("f32"@))
        }),
{
    lemma_probe_names();
    let tree = crate::probe::probe_tree(probe, outputs);
    assert(tree->Object_0["resource_plan"@] == crate::probe::resources_tree(
        probe.partition.f16_checkpoint_shards,
        probe.partition.f32_rope_table_shards,
    ));
    assert(tree->Object_0["effects"@] == crate::probe::probe_effects_tree());
    assert(tree->Object_0["decoder_pipeline_trace"@] == crate::probe::texts_tree(
        seq![
            "rms_norm_f16_weights"@,
            "gemv_tiled_f16_weights"@,
            "linear_projection_f16_weights"@,
        ],
    ));
    assert(tree->Object_0["vision_pipeline_trace"@] == crate::probe::texts_tree(
        seq!["vision_patch_projection_f32"@],
    ));
}

/// A profile is admitted where its weights can be read on the device: the single-precision one
/// anywhere, the half-precision one with the feature for it. The report says which, has an error
/// exactly where it is not admitted, and no effect.
pub proof fn law_admission_follows_the_feature(profile: Seq<char>, shader_f16: bool)
    ensures
        ({
            let outcome = crate::stack_report::profile_outcome(profile, shader_f16);
            &&& outcome is Ok == (profile == "fidelity"@ || profile == "balanced"@)
            &&& outcome matches Ok(admitted) ==> {
                let tree = crate::stack_report::admission_tree(profile, admitted);
                let effects = tree->Object_0["effects"@];
                &&& admitted == (shader_f16 || profile == "fidelity"@)
                &&& crate::report_names::gives(tree, "precision_profile"@, JsonTree::Text(profile))
                &&& crate::report_names::gives(tree, "admitted"@, JsonTree::Bool(admitted))
                &&& tree->Object_0.contains_key("error"@) == !admitted
                &&& crate::report_laws::reports(effects, "buffer_creations"@, 0)
                &&& crate::report_laws::reports(effects, "queue_writes"@, 0)
                &&& crate::report_laws::reports(effects, "submissions"@, 0)
            }
        }),
{
    lemma_probe_names();
    reveal_strlit("fidelity");
    reveal_strlit("balanced");
    assert("fidelity"@[0] != "balanced"@[0]);
}

/// The report on resident weights says that there are some exactly where it names them, and gives
/// their bytes.
pub proof fn law_resident_report_gives_its_facts(resident: Option<(Seq<char>, u64)>)
    ensures
        ({
            let tree = crate::stack_report::resident_tree(resident);
            &&& crate::report_laws::reports(tree, "schema_version"@, 1)
            &&& crate::report_names::gives(tree, "ready"@, JsonTree::Bool(resident is Some))
            &&& tree->Object_0.contains_key("key"@) == resident is Some
            &&& resident matches Some((key, bytes)) ==> crate::report_names::gives(
                tree,
                "key"@,
                JsonTree::Text(key),
            ) && crate::report_laws::reports(tree, "resident_weight_bytes"@, bytes as int)
            &&& resident is None ==> crate::report_laws::reports(tree, "resident_weight_bytes"@, 0)
        }),
{
    lemma_probe_names();
}

} // verus!
