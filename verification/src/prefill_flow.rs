//! What a prefill of a stack session does to the bytes on a device.

use crate::dataflow::{Device, Setup};
use crate::device_laws::Memory;
use crate::gpu::{BufferPlan, CommandModel, WriteModel};
use crate::layer_flow::BlockOutput;
use crate::lifecycle::Operation;
use crate::stack_encode::LayerOffsets;
use crate::stack_flow::StackRun;
use crate::stack_plan::{
    PrefillPlan, StackPlans, StackSizes, WeightResourcePlan, PREFILL_ROW_BYTES,
    PREFILL_ZERO_BIAS_BYTES,
};
use crate::stack_resources::{
    GROUP_PREFILL_DOWN, GROUP_PREFILL_GATE, GROUP_PREFILL_GQA, GROUP_PREFILL_KEY,
    GROUP_PREFILL_KV_APPEND_RANGE, GROUP_PREFILL_MROPE, GROUP_PREFILL_OUTPUT, GROUP_PREFILL_QUERY,
    GROUP_PREFILL_RESIDUAL, GROUP_PREFILL_RESIDUAL2, GROUP_PREFILL_RMS1, GROUP_PREFILL_RMS2,
    GROUP_PREFILL_SWIGLU, GROUP_PREFILL_UP, GROUP_PREFILL_VALUE, PIPELINE_APPEND_RANGE,
    PIPELINE_PREFILL_GQA, PIPELINE_PREFILL_MROPE, PIPELINE_RESIDUAL, PIPELINE_SWIGLU,
    STACK_APPEND_UNIFORM, STACK_ATTENTION_UNIFORM, STACK_FINISH_VALUE_READBACK,
    STACK_GEMV_DOWN_UNIFORM, STACK_GEMV_GATE_UNIFORM, STACK_GEMV_K_UNIFORM, STACK_GEMV_O_UNIFORM,
    STACK_GEMV_Q_UNIFORM, STACK_GEMV_UP_UNIFORM, STACK_GEMV_V_UNIFORM, STACK_KEY_CACHE,
    STACK_MROPE_UNIFORM, STACK_PREFILL_ACTIVATION, STACK_PREFILL_CONTEXT, STACK_PREFILL_GATE,
    STACK_PREFILL_HIDDEN_STORAGE, STACK_PREFILL_KEY, STACK_PREFILL_NORM1, STACK_PREFILL_NORM2,
    STACK_PREFILL_OUTPUT, STACK_PREFILL_QUERY, STACK_PREFILL_UP, STACK_PREFILL_VALUE,
    STACK_PREFILL_ZERO_BIAS, STACK_RESIDUAL2_UNIFORM, STACK_RESIDUAL_UNIFORM, STACK_RMS2_UNIFORM,
    STACK_RMS_UNIFORM, STACK_ROPE_COS, STACK_ROPE_SIN, STACK_STACK_READBACK, STACK_SWIGLU_UNIFORM,
    STACK_VALUE_CACHE,
};
use crate::step_flow::{LayerInput, LayerWeights, Token};
use vstd::prelude::*;

verus! {

/// What the attention half of a layer of a prefill makes: the caches and the rows, and what it
/// leaves where the second half stores its projection.
pub struct PrefillHalf {
    pub keys: Seq<u8>,
    pub values: Seq<u8>,
    pub rows: Seq<u8>,
    pub output: Seq<u8>,
}

/// What the attention half of a layer makes of the hidden rows of a prefill: the rows are normed
/// and projected to queries, keys and values; queries and keys are turned by the rotary tables;
/// keys and values are appended to the caches; the queries attend over the caches; the result is
/// projected and added to the rows. Every projection has the same bias. `left` is what the
/// buffers of the stages hold before they are stored into.
pub open spec fn prefill_attention_half(
    run: StackRun,
    prefill: PrefillPlan,
    input: LayerInput,
    bias: Seq<u8>,
    left: Memory,
) -> PrefillHalf {
    let norm = crate::stack_flow::norm_source(run.sources, run.plans.resources.storage);
    let project = crate::stack_flow::projection_source(run.sources, run.plans.resources.storage);
    let normed = (run.device)(
        norm,
        prefill.stage_dispatches@[0],
        seq![
            input.row,
            input.weights.first_norm,
            crate::dataflow::uniform(prefill.stage_words@[0]),
        ],
        0,
        left[STACK_PREFILL_NORM1 as int],
    );
    let queries = (run.device)(
        project,
        prefill.stage_dispatches@[1],
        seq![normed, input.weights.query, bias, crate::dataflow::uniform(prefill.stage_words@[1])],
        0,
        left[STACK_PREFILL_CONTEXT as int],
    );
    let unturned_keys = (run.device)(
        project,
        prefill.stage_dispatches@[2],
        seq![normed, input.weights.key, bias, crate::dataflow::uniform(prefill.stage_words@[2])],
        0,
        left[STACK_PREFILL_KEY as int],
    );
    let new_values = (run.device)(
        project,
        prefill.stage_dispatches@[3],
        seq![normed, input.weights.value, bias, crate::dataflow::uniform(prefill.stage_words@[3])],
        0,
        left[STACK_PREFILL_VALUE as int],
    );
    let unturned = seq![
        queries,
        unturned_keys,
        input.cos,
        input.sin,
        crate::dataflow::uniform(prefill.stage_words@[4]),
    ];
    let turned_queries = (run.device)(
        run.sources.prefill_mrope,
        prefill.stage_dispatches@[4],
        unturned,
        0,
        left[STACK_PREFILL_QUERY as int],
    );
    let turned_keys = (run.device)(
        run.sources.prefill_mrope,
        prefill.stage_dispatches@[4],
        unturned,
        1,
        crate::dataflow::range(normed, 0, run.sizes.prefill_key_value as int),
    );
    let appended = seq![turned_keys, new_values, crate::dataflow::uniform(prefill.stage_words@[5])];
    let keys = (run.device)(
        run.sources.kv_append_range,
        prefill.stage_dispatches@[5],
        appended,
        0,
        input.keys,
    );
    let values = (run.device)(
        run.sources.kv_append_range,
        prefill.stage_dispatches@[5],
        appended,
        1,
        input.values,
    );
    let attended = (run.device)(
        run.sources.prefill_gqa,
        prefill.stage_dispatches@[6],
        seq![turned_queries, keys, values, crate::dataflow::uniform(prefill.stage_words@[6])],
        0,
        queries,
    );
    let output = (run.device)(
        project,
        prefill.stage_dispatches@[7],
        seq![
            attended,
            input.weights.output,
            bias,
            crate::dataflow::uniform(prefill.stage_words@[7]),
        ],
        0,
        left[STACK_PREFILL_OUTPUT as int],
    );
    let rows = (run.device)(
        run.sources.residual,
        prefill.stage_dispatches@[8],
        seq![input.row, output, crate::dataflow::uniform(prefill.stage_words@[8])],
        0,
        crate::dataflow::patched(normed, 0, turned_keys),
    );
    PrefillHalf { keys, values, rows, output }
}

/// What the second half of a layer makes of rows: the rows are normed and projected twice, the two
/// results become one activation, and that is projected down and added to the rows. `left` is what
/// the buffers of the stages hold before they are stored into, `output` and `spare` what the
/// places of the projection and of the result hold.
pub open spec fn prefill_feed_forward_half(
    run: StackRun,
    prefill: PrefillPlan,
    weights: LayerWeights,
    bias: Seq<u8>,
    rows: Seq<u8>,
    output: Seq<u8>,
    left: Memory,
    spare: Seq<u8>,
) -> Seq<u8> {
    let norm = crate::stack_flow::norm_source(run.sources, run.plans.resources.storage);
    let project = crate::stack_flow::projection_source(run.sources, run.plans.resources.storage);
    let normed = (run.device)(
        norm,
        prefill.stage_dispatches@[9],
        seq![rows, weights.second_norm, crate::dataflow::uniform(prefill.stage_words@[9])],
        0,
        left[STACK_PREFILL_NORM2 as int],
    );
    let gate = (run.device)(
        project,
        prefill.stage_dispatches@[10],
        seq![normed, weights.gate, bias, crate::dataflow::uniform(prefill.stage_words@[10])],
        0,
        left[STACK_PREFILL_GATE as int],
    );
    let up = (run.device)(
        project,
        prefill.stage_dispatches@[11],
        seq![normed, weights.up, bias, crate::dataflow::uniform(prefill.stage_words@[11])],
        0,
        left[STACK_PREFILL_UP as int],
    );
    let activation = (run.device)(
        run.sources.swiglu,
        prefill.stage_dispatches@[12],
        seq![gate, up, crate::dataflow::uniform(prefill.stage_words@[12])],
        0,
        left[STACK_PREFILL_ACTIVATION as int],
    );
    let down = (run.device)(
        project,
        prefill.stage_dispatches@[13],
        seq![activation, weights.down, bias, crate::dataflow::uniform(prefill.stage_words@[13])],
        0,
        output,
    );
    (run.device)(
        run.sources.residual,
        prefill.stage_dispatches@[14],
        seq![rows, down, crate::dataflow::uniform(prefill.stage_words@[14])],
        0,
        spare,
    )
}

/// What a layer makes of the hidden rows of a prefill: its attention half, then its second half.
/// The rows are replaced where they lie.
pub open spec fn prefill_layer(
    run: StackRun,
    prefill: PrefillPlan,
    input: LayerInput,
    bias: Seq<u8>,
    left: Memory,
) -> BlockOutput {
    let attended = prefill_attention_half(run, prefill, input, bias, left);
    BlockOutput {
        keys: attended.keys,
        values: attended.values,
        row: prefill_feed_forward_half(
            run,
            prefill,
            input.weights,
            bias,
            attended.rows,
            attended.output,
            left,
            input.row,
        ),
    }
}

/// Whether the uniform words of a prefill are in their buffers.
pub open spec fn prefill_words_hold(memory: Memory, prefill: PrefillPlan) -> bool {
    &&& memory[STACK_RMS_UNIFORM as int] == crate::dataflow::uniform(prefill.stage_words@[0])
    &&& memory[STACK_GEMV_Q_UNIFORM as int] == crate::dataflow::uniform(prefill.stage_words@[1])
    &&& memory[STACK_GEMV_K_UNIFORM as int] == crate::dataflow::uniform(prefill.stage_words@[2])
    &&& memory[STACK_GEMV_V_UNIFORM as int] == crate::dataflow::uniform(prefill.stage_words@[3])
    &&& memory[STACK_MROPE_UNIFORM as int] == crate::dataflow::uniform(prefill.stage_words@[4])
    &&& memory[STACK_APPEND_UNIFORM as int] == crate::dataflow::uniform(prefill.stage_words@[5])
    &&& memory[STACK_ATTENTION_UNIFORM as int] == crate::dataflow::uniform(prefill.stage_words@[6])
    &&& memory[STACK_GEMV_O_UNIFORM as int] == crate::dataflow::uniform(prefill.stage_words@[7])
    &&& memory[STACK_RESIDUAL_UNIFORM as int] == crate::dataflow::uniform(prefill.stage_words@[8])
    &&& memory[STACK_RMS2_UNIFORM as int] == crate::dataflow::uniform(prefill.stage_words@[9])
    &&& memory[STACK_GEMV_GATE_UNIFORM as int] == crate::dataflow::uniform(prefill.stage_words@[10])
    &&& memory[STACK_GEMV_UP_UNIFORM as int] == crate::dataflow::uniform(prefill.stage_words@[11])
    &&& memory[STACK_SWIGLU_UNIFORM as int] == crate::dataflow::uniform(prefill.stage_words@[12])
    &&& memory[STACK_GEMV_DOWN_UNIFORM as int] == crate::dataflow::uniform(prefill.stage_words@[13])
    &&& memory[STACK_RESIDUAL2_UNIFORM as int] == crate::dataflow::uniform(prefill.stage_words@[14])
}

/// Whether the attention half of a layer of a prefill stores into a buffer.
pub open spec fn prefill_attention_place(place: int) -> bool {
    ||| STACK_KEY_CACHE <= place <= STACK_VALUE_CACHE
    ||| STACK_PREFILL_NORM1 <= place <= STACK_PREFILL_OUTPUT
}

/// Whether the second half of a layer of a prefill stores into a buffer.
pub open spec fn prefill_feed_forward_place(place: int) -> bool {
    ||| place == STACK_PREFILL_HIDDEN_STORAGE
    ||| STACK_PREFILL_OUTPUT <= place <= STACK_PREFILL_ACTIVATION
}

/// Whether a layer of a prefill stores into a buffer.
pub open spec fn prefill_layer_place(place: int) -> bool {
    prefill_attention_place(place) || prefill_feed_forward_place(place)
}

/// What a layer of a prefill whose weights and caches start at given offsets is given.
pub open spec fn prefill_input_at(
    run: StackRun,
    memory: Memory,
    offsets: LayerOffsets,
) -> LayerInput {
    let stride = run.plans.stack.cache_stride_bytes as int;
    LayerInput {
        weights: crate::step_flow::weights_at(run.plans.resources, memory, offsets.weights),
        cos: memory[STACK_ROPE_COS as int],
        sin: memory[STACK_ROPE_SIN as int],
        row: memory[STACK_PREFILL_HIDDEN_STORAGE as int],
        keys: crate::dataflow::range(
            memory[STACK_KEY_CACHE as int],
            offsets.cache as int,
            stride,
        ),
        values: crate::dataflow::range(
            memory[STACK_VALUE_CACHE as int],
            offsets.cache as int,
            stride,
        ),
    }
}

/// How long the buffers of a prefill are.
proof fn lemma_prefill_sizes(run: StackRun, memory: Memory)
    requires
        crate::device_laws::has_buffers(memory, crate::stack_flow::run_buffers(run)),
    ensures
        memory.len() == STACK_FINISH_VALUE_READBACK + 1,
        memory[STACK_ROPE_COS as int].len() == run.plans.resources.rope_table_bytes,
        memory[STACK_ROPE_SIN as int].len() == run.plans.resources.rope_table_bytes,
        memory[STACK_KEY_CACHE as int].len() == run.sizes.cache,
        memory[STACK_VALUE_CACHE as int].len() == run.sizes.cache,
        memory[STACK_STACK_READBACK as int].len() == run.sizes.hidden,
        memory[STACK_PREFILL_HIDDEN_STORAGE as int].len() == run.sizes.prefill_hidden,
        memory[STACK_PREFILL_NORM1 as int].len() == run.sizes.prefill_hidden,
        memory[STACK_PREFILL_QUERY as int].len() == run.sizes.prefill_query,
        memory[STACK_PREFILL_KEY as int].len() == run.sizes.prefill_key_value,
        memory[STACK_PREFILL_VALUE as int].len() == run.sizes.prefill_key_value,
        memory[STACK_PREFILL_CONTEXT as int].len() == run.sizes.prefill_query,
        memory[STACK_PREFILL_OUTPUT as int].len() == run.sizes.prefill_hidden,
        memory[STACK_PREFILL_NORM2 as int].len() == run.sizes.prefill_hidden,
        memory[STACK_PREFILL_GATE as int].len() == run.sizes.prefill_intermediate,
        memory[STACK_PREFILL_UP as int].len() == run.sizes.prefill_intermediate,
        memory[STACK_PREFILL_ACTIVATION as int].len() == run.sizes.prefill_intermediate,
        memory[STACK_PREFILL_ZERO_BIAS as int].len() == PREFILL_ZERO_BIAS_BYTES,
        memory[STACK_RMS_UNIFORM as int].len() == 16,
        memory[STACK_GEMV_Q_UNIFORM as int].len() == 16,
        memory[STACK_GEMV_K_UNIFORM as int].len() == 16,
        memory[STACK_GEMV_V_UNIFORM as int].len() == 16,
        memory[STACK_MROPE_UNIFORM as int].len() == 16,
        memory[STACK_APPEND_UNIFORM as int].len() == 16,
        memory[STACK_ATTENTION_UNIFORM as int].len() == 16,
        memory[STACK_GEMV_O_UNIFORM as int].len() == 16,
        memory[STACK_RESIDUAL_UNIFORM as int].len() == 16,
        memory[STACK_RMS2_UNIFORM as int].len() == 16,
        memory[STACK_GEMV_GATE_UNIFORM as int].len() == 16,
        memory[STACK_GEMV_UP_UNIFORM as int].len() == 16,
        memory[STACK_SWIGLU_UNIFORM as int].len() == 16,
        memory[STACK_GEMV_DOWN_UNIFORM as int].len() == 16,
        memory[STACK_RESIDUAL2_UNIFORM as int].len() == 16,
{
    let buffers = crate::stack_flow::run_buffers(run);
    let base = crate::stack_resources::base_buffers(
        run.plans.kv,
        run.plans.resources,
        run.sizes,
    );
    let of_prefill = crate::stack_resources::prefill_buffers(run.sizes);
    assert forall|i: int| 0 <= i < base.len() implies (#[trigger] memory[i]).len()
        == base[i].size by {
        assert(buffers[i] == base[i]);
    }
    let first = STACK_PREFILL_HIDDEN_STORAGE as int;
    assert forall|i: int| first <= i < first + of_prefill.len() implies (
    #[trigger] memory[i]).len() == of_prefill[i - first].size by {
        assert(buffers[i] == of_prefill[i - first]);
    }
}

/// The bind groups of a prefill.
proof fn lemma_prefill_groups(run: StackRun)
    ensures
        forall|i: int|
            16 <= i < 31 ==> #[trigger] crate::stack_flow::stack_setup(run).groups[i]
                == crate::stack_resources::prefill_bind_groups(
                run.plans.stack,
                run.plans.resources,
                run.sizes,
            )[i - 16],
{
}

/// What the first nine passes of a layer of a prefill leave behind.
#[verifier::rlimit(80)]
#[verifier::spinoff_prover]
proof fn lemma_prefill_attention_half(
    run: StackRun,
    prefill: PrefillPlan,
    offsets: LayerOffsets,
    memory: Memory,
)
    requires
        crate::dataflow::keeps_lengths(run.device),
        run.plans.prefill_capable,
        run.sizes.prefill_key_value <= run.sizes.prefill_hidden,
        crate::device_laws::has_buffers(memory, crate::stack_flow::run_buffers(run)),
        crate::stack_laws::offsets_inside(run.plans, run.sizes, offsets),
        prefill_words_hold(memory, prefill),
    ensures
        ({
            let commands = crate::stack_encode::prefill_layer_commands(
                run.plans.resources.storage,
                prefill,
                offsets,
            );
            let now = crate::dataflow::after(
                crate::stack_flow::stack_setup(run),
                commands,
                memory,
                9,
            );
            let made = prefill_attention_half(
                run,
                prefill,
                prefill_input_at(run, memory, offsets),
                memory[STACK_PREFILL_ZERO_BIAS as int],
                memory,
            );
            &&& now.len() == memory.len()
            &&& forall|place: int|
                0 <= place < memory.len() ==> (#[trigger] now[place]).len() == memory[place].len()
            &&& now[STACK_PREFILL_NORM1 as int] == made.rows
            &&& now[STACK_PREFILL_OUTPUT as int] == made.output
            &&& now[STACK_KEY_CACHE as int] == crate::dataflow::patched(
                memory[STACK_KEY_CACHE as int],
                offsets.cache as int,
                made.keys,
            )
            &&& now[STACK_VALUE_CACHE as int] == crate::dataflow::patched(
                memory[STACK_VALUE_CACHE as int],
                offsets.cache as int,
                made.values,
            )
            &&& made.keys.len() == run.plans.stack.cache_stride_bytes
            &&& made.values.len() == run.plans.stack.cache_stride_bytes
            &&& forall|place: int|
                0 <= place < memory.len() && !prefill_attention_place(place)
                    ==> #[trigger] now[place] == memory[place]
        }),
{
    let setup = crate::stack_flow::stack_setup(run);
    let commands = crate::stack_encode::prefill_layer_commands(
        run.plans.resources.storage,
        prefill,
        offsets,
    );
    let pipelines = crate::stack_encode::weight_pipelines(run.plans.resources.storage);
    crate::stack_flow::law_passes_run_their_shaders(run);
    crate::dataflow::lemma_whole();
    lemma_prefill_sizes(run, memory);
    lemma_prefill_groups(run);
    let input = prefill_input_at(run, memory, offsets);
    let bias = memory[STACK_PREFILL_ZERO_BIAS as int];
    let norm = crate::stack_flow::norm_source(run.sources, run.plans.resources.storage);
    let project = crate::stack_flow::projection_source(run.sources, run.plans.resources.storage);
    let m0 = crate::dataflow::after(setup, commands, memory, 0);
    let m1 = crate::dataflow::after(setup, commands, memory, 1);
    let m2 = crate::dataflow::after(setup, commands, memory, 2);
    let m3 = crate::dataflow::after(setup, commands, memory, 3);
    let m4 = crate::dataflow::after(setup, commands, memory, 4);
    let m5 = crate::dataflow::after(setup, commands, memory, 5);
    let m6 = crate::dataflow::after(setup, commands, memory, 6);
    let m7 = crate::dataflow::after(setup, commands, memory, 7);
    let m8 = crate::dataflow::after(setup, commands, memory, 8);
    let m9 = crate::dataflow::after(setup, commands, memory, 9);
    let normed = (run.device)(
        norm,
        prefill.stage_dispatches@[0],
        seq![
            input.row,
            input.weights.first_norm,
            crate::dataflow::uniform(prefill.stage_words@[0]),
        ],
        0,
        m0[STACK_PREFILL_NORM1 as int],
    );
    assert(m1 == m0.update(STACK_PREFILL_NORM1 as int, normed)) by {
        assert(m1 == crate::dataflow::carried_out(setup, commands[0], m0));
        crate::stack_flow::lemma_entry_offsets(seq![0u64, offsets.weights@[0]]);
        crate::dataflow::lemma_third_of_four(
            setup,
            pipelines.rms_norm,
            GROUP_PREFILL_RMS1,
            prefill.stage_dispatches@[0],
            seq![0u64, offsets.weights@[0]],
            m0,
        );
    }
    let queries = (run.device)(
        project,
        prefill.stage_dispatches@[1],
        seq![normed, input.weights.query, bias, crate::dataflow::uniform(prefill.stage_words@[1])],
        0,
        m0[STACK_PREFILL_CONTEXT as int],
    );
    assert(m2 == m1.update(STACK_PREFILL_CONTEXT as int, queries)) by {
        assert(m2 == crate::dataflow::carried_out(setup, commands[1], m1));
        crate::stack_flow::lemma_entry_offsets(seq![offsets.weights@[1]]);
        crate::dataflow::lemma_fourth_of_five(
            setup,
            pipelines.prefill_projection,
            GROUP_PREFILL_QUERY,
            prefill.stage_dispatches@[1],
            seq![offsets.weights@[1]],
            m1,
        );
    }
    let unturned_keys = (run.device)(
        project,
        prefill.stage_dispatches@[2],
        seq![normed, input.weights.key, bias, crate::dataflow::uniform(prefill.stage_words@[2])],
        0,
        m0[STACK_PREFILL_KEY as int],
    );
    assert(m3 == m2.update(STACK_PREFILL_KEY as int, unturned_keys)) by {
        assert(m3 == crate::dataflow::carried_out(setup, commands[2], m2));
        crate::stack_flow::lemma_entry_offsets(seq![offsets.weights@[2]]);
        crate::dataflow::lemma_fourth_of_five(
            setup,
            pipelines.prefill_projection,
            GROUP_PREFILL_KEY,
            prefill.stage_dispatches@[2],
            seq![offsets.weights@[2]],
            m2,
        );
    }
    let new_values = (run.device)(
        project,
        prefill.stage_dispatches@[3],
        seq![normed, input.weights.value, bias, crate::dataflow::uniform(prefill.stage_words@[3])],
        0,
        m0[STACK_PREFILL_VALUE as int],
    );
    assert(m4 == m3.update(STACK_PREFILL_VALUE as int, new_values)) by {
        assert(m4 == crate::dataflow::carried_out(setup, commands[3], m3));
        crate::stack_flow::lemma_entry_offsets(seq![offsets.weights@[3]]);
        crate::dataflow::lemma_fourth_of_five(
            setup,
            pipelines.prefill_projection,
            GROUP_PREFILL_VALUE,
            prefill.stage_dispatches@[3],
            seq![offsets.weights@[3]],
            m3,
        );
    }
    let unturned = seq![
        queries,
        unturned_keys,
        input.cos,
        input.sin,
        crate::dataflow::uniform(prefill.stage_words@[4]),
    ];
    let turned_queries = (run.device)(
        run.sources.prefill_mrope,
        prefill.stage_dispatches@[4],
        unturned,
        0,
        m0[STACK_PREFILL_QUERY as int],
    );
    let turned_keys = (run.device)(
        run.sources.prefill_mrope,
        prefill.stage_dispatches@[4],
        unturned,
        1,
        crate::dataflow::range(normed, 0, run.sizes.prefill_key_value as int),
    );
    assert(m5 == m4.update(STACK_PREFILL_QUERY as int, turned_queries).update(
        STACK_PREFILL_NORM1 as int,
        crate::dataflow::patched(normed, 0, turned_keys),
    )) by {
        assert(m5 == crate::dataflow::carried_out(setup, commands[4], m4));
        crate::stack_flow::lemma_entry_offsets(Seq::<u64>::empty());
        crate::dataflow::lemma_late_of_seven(
            setup,
            PIPELINE_PREFILL_MROPE,
            GROUP_PREFILL_MROPE,
            prefill.stage_dispatches@[4],
            Seq::<u64>::empty(),
            m4,
        );
    }
    crate::dataflow::lemma_patched_range(normed, 0, turned_keys);
    let appended = seq![turned_keys, new_values, crate::dataflow::uniform(prefill.stage_words@[5])];
    let keys = (run.device)(
        run.sources.kv_append_range,
        prefill.stage_dispatches@[5],
        appended,
        0,
        input.keys,
    );
    let values = (run.device)(
        run.sources.kv_append_range,
        prefill.stage_dispatches@[5],
        appended,
        1,
        input.values,
    );
    assert(m6 == m5.update(
        STACK_KEY_CACHE as int,
        crate::dataflow::patched(m5[STACK_KEY_CACHE as int], offsets.cache as int, keys),
    ).update(
        STACK_VALUE_CACHE as int,
        crate::dataflow::patched(m5[STACK_VALUE_CACHE as int], offsets.cache as int, values),
    )) by {
        assert(m6 == crate::dataflow::carried_out(setup, commands[5], m5));
        crate::stack_flow::lemma_entry_offsets(seq![offsets.cache, offsets.cache]);
        crate::dataflow::lemma_middle_of_five(
            setup,
            PIPELINE_APPEND_RANGE,
            GROUP_PREFILL_KV_APPEND_RANGE,
            prefill.stage_dispatches@[5],
            seq![offsets.cache, offsets.cache],
            m5,
        );
    }
    crate::dataflow::lemma_patched_range(m5[STACK_KEY_CACHE as int], offsets.cache as int, keys);
    crate::dataflow::lemma_patched_range(
        m5[STACK_VALUE_CACHE as int],
        offsets.cache as int,
        values,
    );
    let attended = (run.device)(
        run.sources.prefill_gqa,
        prefill.stage_dispatches@[6],
        seq![turned_queries, keys, values, crate::dataflow::uniform(prefill.stage_words@[6])],
        0,
        queries,
    );
    assert(m7 == m6.update(STACK_PREFILL_CONTEXT as int, attended)) by {
        assert(m7 == crate::dataflow::carried_out(setup, commands[6], m6));
        crate::stack_flow::lemma_entry_offsets(seq![offsets.cache, offsets.cache]);
        crate::dataflow::lemma_fourth_of_five(
            setup,
            PIPELINE_PREFILL_GQA,
            GROUP_PREFILL_GQA,
            prefill.stage_dispatches@[6],
            seq![offsets.cache, offsets.cache],
            m6,
        );
    }
    let output = (run.device)(
        project,
        prefill.stage_dispatches@[7],
        seq![
            attended,
            input.weights.output,
            bias,
            crate::dataflow::uniform(prefill.stage_words@[7]),
        ],
        0,
        m0[STACK_PREFILL_OUTPUT as int],
    );
    assert(m8 == m7.update(STACK_PREFILL_OUTPUT as int, output)) by {
        assert(m8 == crate::dataflow::carried_out(setup, commands[7], m7));
        crate::stack_flow::lemma_entry_offsets(seq![offsets.weights@[4]]);
        crate::dataflow::lemma_fourth_of_five(
            setup,
            pipelines.prefill_projection,
            GROUP_PREFILL_OUTPUT,
            prefill.stage_dispatches@[7],
            seq![offsets.weights@[4]],
            m7,
        );
    }
    let row = (run.device)(
        run.sources.residual,
        prefill.stage_dispatches@[8],
        seq![input.row, output, crate::dataflow::uniform(prefill.stage_words@[8])],
        0,
        crate::dataflow::patched(normed, 0, turned_keys),
    );
    assert(m9 == m8.update(STACK_PREFILL_NORM1 as int, row)) by {
        assert(m9 == crate::dataflow::carried_out(setup, commands[8], m8));
        crate::stack_flow::lemma_entry_offsets(seq![0u64, 0u64]);
        crate::dataflow::lemma_third_of_four(
            setup,
            PIPELINE_RESIDUAL,
            GROUP_PREFILL_RESIDUAL,
            prefill.stage_dispatches@[8],
            seq![0u64, 0u64],
            m8,
        );
    }
}

/// What the last six passes of a layer of a prefill leave behind.
#[verifier::rlimit(80)]
#[verifier::spinoff_prover]
proof fn lemma_prefill_feed_forward_half(
    run: StackRun,
    prefill: PrefillPlan,
    offsets: LayerOffsets,
    memory: Memory,
)
    requires
        crate::dataflow::keeps_lengths(run.device),
        run.plans.prefill_capable,
        crate::stack_laws::offsets_inside(run.plans, run.sizes, offsets),
        ({
            let before = crate::dataflow::after(
                crate::stack_flow::stack_setup(run),
                crate::stack_encode::prefill_layer_commands(
                    run.plans.resources.storage,
                    prefill,
                    offsets,
                ),
                memory,
                9,
            );
            &&& crate::device_laws::has_buffers(before, crate::stack_flow::run_buffers(run))
            &&& prefill_words_hold(before, prefill)
        }),
    ensures
        ({
            let setup = crate::stack_flow::stack_setup(run);
            let commands = crate::stack_encode::prefill_layer_commands(
                run.plans.resources.storage,
                prefill,
                offsets,
            );
            let before = crate::dataflow::after(setup, commands, memory, 9);
            let now = crate::dataflow::after(setup, commands, memory, 15);
            let made = prefill_feed_forward_half(
                run,
                prefill,
                crate::step_flow::weights_at(run.plans.resources, before, offsets.weights),
                before[STACK_PREFILL_ZERO_BIAS as int],
                before[STACK_PREFILL_NORM1 as int],
                before[STACK_PREFILL_OUTPUT as int],
                before,
                before[STACK_PREFILL_HIDDEN_STORAGE as int],
            );
            &&& now.len() == before.len()
            &&& forall|place: int|
                0 <= place < before.len() ==> (#[trigger] now[place]).len() == before[place].len()
            &&& now[STACK_PREFILL_HIDDEN_STORAGE as int] == made
            &&& forall|place: int|
                0 <= place < before.len() && !prefill_feed_forward_place(place)
                    ==> #[trigger] now[place] == before[place]
        }),
{
    let setup = crate::stack_flow::stack_setup(run);
    let commands = crate::stack_encode::prefill_layer_commands(
        run.plans.resources.storage,
        prefill,
        offsets,
    );
    let m9 = crate::dataflow::after(setup, commands, memory, 9);
    let m10 = crate::dataflow::after(setup, commands, memory, 10);
    let m11 = crate::dataflow::after(setup, commands, memory, 11);
    let m12 = crate::dataflow::after(setup, commands, memory, 12);
    let m13 = crate::dataflow::after(setup, commands, memory, 13);
    let m14 = crate::dataflow::after(setup, commands, memory, 14);
    let m15 = crate::dataflow::after(setup, commands, memory, 15);
    let pipelines = crate::stack_encode::weight_pipelines(run.plans.resources.storage);
    crate::stack_flow::law_passes_run_their_shaders(run);
    crate::dataflow::lemma_whole();
    lemma_prefill_sizes(run, m9);
    lemma_prefill_groups(run);
    let norm = crate::stack_flow::norm_source(run.sources, run.plans.resources.storage);
    let project = crate::stack_flow::projection_source(run.sources, run.plans.resources.storage);
    let weights = crate::step_flow::weights_at(run.plans.resources, m9, offsets.weights);
    let bias = m9[STACK_PREFILL_ZERO_BIAS as int];
    let rows = m9[STACK_PREFILL_NORM1 as int];
    let output = m9[STACK_PREFILL_OUTPUT as int];
    let spare = m9[STACK_PREFILL_HIDDEN_STORAGE as int];
    let normed = (run.device)(
        norm,
        prefill.stage_dispatches@[9],
        seq![rows, weights.second_norm, crate::dataflow::uniform(prefill.stage_words@[9])],
        0,
        m9[STACK_PREFILL_NORM2 as int],
    );
    assert(m10 == m9.update(STACK_PREFILL_NORM2 as int, normed)) by {
        assert(m10 == crate::dataflow::carried_out(setup, commands[9], m9));
        crate::stack_flow::lemma_entry_offsets(seq![0u64, offsets.weights@[5]]);
        crate::dataflow::lemma_third_of_four(
            setup,
            pipelines.rms_norm,
            GROUP_PREFILL_RMS2,
            prefill.stage_dispatches@[9],
            seq![0u64, offsets.weights@[5]],
            m9,
        );
    }
    let gate = (run.device)(
        project,
        prefill.stage_dispatches@[10],
        seq![normed, weights.gate, bias, crate::dataflow::uniform(prefill.stage_words@[10])],
        0,
        m9[STACK_PREFILL_GATE as int],
    );
    assert(m11 == m10.update(STACK_PREFILL_GATE as int, gate)) by {
        assert(m11 == crate::dataflow::carried_out(setup, commands[10], m10));
        crate::stack_flow::lemma_entry_offsets(seq![offsets.weights@[6]]);
        crate::dataflow::lemma_fourth_of_five(
            setup,
            pipelines.prefill_projection,
            GROUP_PREFILL_GATE,
            prefill.stage_dispatches@[10],
            seq![offsets.weights@[6]],
            m10,
        );
    }
    let up = (run.device)(
        project,
        prefill.stage_dispatches@[11],
        seq![normed, weights.up, bias, crate::dataflow::uniform(prefill.stage_words@[11])],
        0,
        m9[STACK_PREFILL_UP as int],
    );
    assert(m12 == m11.update(STACK_PREFILL_UP as int, up)) by {
        assert(m12 == crate::dataflow::carried_out(setup, commands[11], m11));
        crate::stack_flow::lemma_entry_offsets(seq![offsets.weights@[7]]);
        crate::dataflow::lemma_fourth_of_five(
            setup,
            pipelines.prefill_projection,
            GROUP_PREFILL_UP,
            prefill.stage_dispatches@[11],
            seq![offsets.weights@[7]],
            m11,
        );
    }
    let activation = (run.device)(
        run.sources.swiglu,
        prefill.stage_dispatches@[12],
        seq![gate, up, crate::dataflow::uniform(prefill.stage_words@[12])],
        0,
        m9[STACK_PREFILL_ACTIVATION as int],
    );
    assert(m13 == m12.update(STACK_PREFILL_ACTIVATION as int, activation)) by {
        assert(m13 == crate::dataflow::carried_out(setup, commands[12], m12));
        crate::stack_flow::lemma_entry_offsets(Seq::<u64>::empty());
        crate::dataflow::lemma_third_of_four(
            setup,
            PIPELINE_SWIGLU,
            GROUP_PREFILL_SWIGLU,
            prefill.stage_dispatches@[12],
            Seq::<u64>::empty(),
            m12,
        );
    }
    let down = (run.device)(
        project,
        prefill.stage_dispatches@[13],
        seq![activation, weights.down, bias, crate::dataflow::uniform(prefill.stage_words@[13])],
        0,
        output,
    );
    assert(m14 == m13.update(STACK_PREFILL_OUTPUT as int, down)) by {
        assert(m14 == crate::dataflow::carried_out(setup, commands[13], m13));
        crate::stack_flow::lemma_entry_offsets(seq![offsets.weights@[8]]);
        crate::dataflow::lemma_fourth_of_five(
            setup,
            pipelines.prefill_projection,
            GROUP_PREFILL_DOWN,
            prefill.stage_dispatches@[13],
            seq![offsets.weights@[8]],
            m13,
        );
    }
    let made = (run.device)(
        run.sources.residual,
        prefill.stage_dispatches@[14],
        seq![rows, down, crate::dataflow::uniform(prefill.stage_words@[14])],
        0,
        spare,
    );
    assert(m15 == m14.update(STACK_PREFILL_HIDDEN_STORAGE as int, made)) by {
        assert(m15 == crate::dataflow::carried_out(setup, commands[14], m14));
        crate::stack_flow::lemma_entry_offsets(seq![0u64, 0u64]);
        crate::dataflow::lemma_third_of_four(
            setup,
            PIPELINE_RESIDUAL,
            GROUP_PREFILL_RESIDUAL2,
            prefill.stage_dispatches@[14],
            seq![0u64, 0u64],
            m14,
        );
    }
}

/// The passes of a layer of a prefill, on whatever memory, do what a decoder layer does to all
/// rows at once: the rows are replaced where they lie, the caches of the layer get the new tokens,
/// and only the buffers of the stages change besides. Attention reads the keys from the cache that
/// the keys were appended to, and the values from the cache of the values.
pub proof fn law_prefill_layer_runs_a_decoder_layer(
    run: StackRun,
    prefill: PrefillPlan,
    offsets: LayerOffsets,
    memory: Memory,
)
    requires
        crate::dataflow::keeps_lengths(run.device),
        run.plans.prefill_capable,
        run.sizes.prefill_key_value <= run.sizes.prefill_hidden,
        crate::device_laws::has_buffers(memory, crate::stack_flow::run_buffers(run)),
        crate::stack_laws::offsets_inside(run.plans, run.sizes, offsets),
        prefill_words_hold(memory, prefill),
    ensures
        ({
            let commands = crate::stack_encode::prefill_layer_commands(
                run.plans.resources.storage,
                prefill,
                offsets,
            );
            let now = crate::dataflow::after(
                crate::stack_flow::stack_setup(run),
                commands,
                memory,
                commands.len() as int,
            );
            let made = prefill_layer(
                run,
                prefill,
                prefill_input_at(run, memory, offsets),
                memory[STACK_PREFILL_ZERO_BIAS as int],
                memory,
            );
            &&& crate::device_laws::has_buffers(now, crate::stack_flow::run_buffers(run))
            &&& now[STACK_PREFILL_HIDDEN_STORAGE as int] == made.row
            &&& now[STACK_KEY_CACHE as int] == crate::dataflow::patched(
                memory[STACK_KEY_CACHE as int],
                offsets.cache as int,
                made.keys,
            )
            &&& now[STACK_VALUE_CACHE as int] == crate::dataflow::patched(
                memory[STACK_VALUE_CACHE as int],
                offsets.cache as int,
                made.values,
            )
            &&& made.keys.len() == run.plans.stack.cache_stride_bytes
            &&& made.values.len() == run.plans.stack.cache_stride_bytes
            &&& forall|place: int|
                0 <= place < memory.len() && !prefill_layer_place(place) ==> #[trigger] now[place]
                    == memory[place]
        }),
{
    let setup = crate::stack_flow::stack_setup(run);
    let commands = crate::stack_encode::prefill_layer_commands(
        run.plans.resources.storage,
        prefill,
        offsets,
    );
    let before = crate::dataflow::after(setup, commands, memory, 9);
    let now = crate::dataflow::after(setup, commands, memory, 15);
    lemma_prefill_sizes(run, memory);
    lemma_prefill_attention_half(run, prefill, offsets, memory);
    assert(crate::device_laws::has_buffers(before, crate::stack_flow::run_buffers(run)));
    assert(prefill_words_hold(before, prefill));
    lemma_prefill_feed_forward_half(run, prefill, offsets, memory);
    assert(crate::step_flow::weights_at(run.plans.resources, before, offsets.weights)
        == crate::step_flow::weights_at(run.plans.resources, memory, offsets.weights));
    assert(crate::device_laws::has_buffers(now, crate::stack_flow::run_buffers(run)));
}

/// The rows that reach a layer of a prefill: the rows that it starts with, through all layers
/// before.
pub open spec fn rows_into(
    run: StackRun,
    prefill: PrefillPlan,
    rows: Seq<u8>,
    memory: Memory,
    layer: int,
) -> Seq<u8>
    decreases layer,
{
    if layer <= 0 {
        rows
    } else {
        prefill_layer(
            run,
            prefill,
            crate::step_flow::layer_input(
                run,
                memory,
                rows_into(run, prefill, rows, memory, layer - 1),
                layer - 1,
            ),
            memory[STACK_PREFILL_ZERO_BIAS as int],
            memory,
        ).row
    }
}

/// What a layer of a prefill makes of the rows that reach it.
pub open spec fn prefill_layer_made(
    run: StackRun,
    prefill: PrefillPlan,
    rows: Seq<u8>,
    memory: Memory,
    layer: int,
) -> BlockOutput {
    prefill_layer(
        run,
        prefill,
        crate::step_flow::layer_input(
            run,
            memory,
            rows_into(run, prefill, rows, memory, layer),
            layer,
        ),
        memory[STACK_PREFILL_ZERO_BIAS as int],
        memory,
    )
}

/// Whether what a layer of a prefill makes does not depend on what earlier work left in the
/// buffers of its stages.
pub open spec fn prefill_forgets_earlier_work(run: StackRun, prefill: PrefillPlan) -> bool {
    forall|input: LayerInput, bias: Seq<u8>, left: Memory, other: Memory|
        #![trigger
            prefill_layer(run, prefill, input, bias, left),
            prefill_layer(run, prefill, input, bias, other)]
        crate::device_laws::has_buffers(left, crate::stack_flow::run_buffers(run))
            && crate::device_laws::has_buffers(other, crate::stack_flow::run_buffers(run))
            && input.row.len() == run.sizes.prefill_hidden ==> prefill_layer(
            run,
            prefill,
            input,
            bias,
            left,
        ) == prefill_layer(run, prefill, input, bias, other)
}

/// Whether a prefill stores into a buffer or writes there.
pub open spec fn prefill_place(place: int) -> bool {
    ||| prefill_layer_place(place)
    ||| STACK_RMS_UNIFORM <= place <= STACK_GEMV_O_UNIFORM
}

/// What the memory of a session holds when some layers of a prefill are done.
spec fn prefill_layers_done(
    run: StackRun,
    prefill: PrefillPlan,
    rows: Seq<u8>,
    memory: Memory,
    layer: int,
    now: Memory,
) -> bool {
    let stride = run.plans.stack.cache_stride_bytes;
    &&& crate::device_laws::has_buffers(now, crate::stack_flow::run_buffers(run))
    &&& prefill_words_hold(now, prefill)
    &&& now[STACK_PREFILL_HIDDEN_STORAGE as int] == rows_into(run, prefill, rows, memory, layer)
    &&& forall|k: int|
        0 <= k < run.plans.stack.layers ==> #[trigger] crate::step_flow::cache_slice(
            now[STACK_KEY_CACHE as int],
            stride,
            k,
        ) == (if k < layer {
            prefill_layer_made(run, prefill, rows, memory, k).keys
        } else {
            crate::step_flow::cache_slice(memory[STACK_KEY_CACHE as int], stride, k)
        })
    &&& forall|k: int|
        0 <= k < run.plans.stack.layers ==> #[trigger] crate::step_flow::cache_slice(
            now[STACK_VALUE_CACHE as int],
            stride,
            k,
        ) == (if k < layer {
            prefill_layer_made(run, prefill, rows, memory, k).values
        } else {
            crate::step_flow::cache_slice(memory[STACK_VALUE_CACHE as int], stride, k)
        })
    &&& forall|place: int|
        0 <= place < memory.len() && !prefill_place(place) ==> #[trigger] now[place]
            == memory[place]
}

/// One layer more is done.
#[verifier::rlimit(40)]
#[verifier::spinoff_prover]
proof fn lemma_prefill_layer_done(
    run: StackRun,
    prefill: PrefillPlan,
    rows: Seq<u8>,
    memory: Memory,
    layer: int,
    offsets: LayerOffsets,
    before: Memory,
)
    requires
        crate::dataflow::keeps_lengths(run.device),
        run.plans.prefill_capable,
        run.sizes.prefill_key_value <= run.sizes.prefill_hidden,
        crate::stack_laws::well_placed(run.plans, run.sizes),
        crate::device_laws::has_buffers(memory, crate::stack_flow::run_buffers(run)),
        prefill_forgets_earlier_work(run, prefill),
        0 <= layer < run.plans.stack.layers,
        crate::stack_encode::layer_offsets_outcome(
            run.plans.resources,
            run.plans.stack.hidden_stride_bytes,
            run.plans.stack.cache_stride_bytes,
            layer,
        ) == Ok::<LayerOffsets, Seq<char>>(offsets),
        prefill_layers_done(run, prefill, rows, memory, layer, before),
    ensures
        ({
            let commands = crate::stack_encode::prefill_layer_commands(
                run.plans.resources.storage,
                prefill,
                offsets,
            );
            let now = crate::dataflow::after(
                crate::stack_flow::stack_setup(run),
                commands,
                before,
                commands.len() as int,
            );
            prefill_layers_done(run, prefill, rows, memory, layer + 1, now)
        }),
{
    let commands = crate::stack_encode::prefill_layer_commands(
        run.plans.resources.storage,
        prefill,
        offsets,
    );
    let now = crate::dataflow::after(
        crate::stack_flow::stack_setup(run),
        commands,
        before,
        commands.len() as int,
    );
    let stride = run.plans.stack.cache_stride_bytes;
    crate::stack_laws::law_layer_offsets_fit(run.plans, run.sizes, layer);
    lemma_prefill_sizes(run, memory);
    lemma_prefill_sizes(run, before);
    law_prefill_layer_runs_a_decoder_layer(run, prefill, offsets, before);
    let input = crate::step_flow::layer_input(
        run,
        memory,
        rows_into(run, prefill, rows, memory, layer),
        layer,
    );
    let bias = memory[STACK_PREFILL_ZERO_BIAS as int];
    assert(stride * layer <= u64::MAX);
    assert(crate::step_flow::cache_slice(before[STACK_KEY_CACHE as int], stride, layer)
        == input.keys);
    assert(crate::step_flow::cache_slice(before[STACK_VALUE_CACHE as int], stride, layer)
        == input.values);
    assert(prefill_input_at(run, before, offsets).weights == input.weights);
    assert(prefill_input_at(run, before, offsets) == input);
    let made = prefill_layer(run, prefill, input, bias, before);
    assert(made == prefill_layer(run, prefill, input, bias, memory));
    assert(made == prefill_layer_made(run, prefill, rows, memory, layer));
    assert(made.row == rows_into(run, prefill, rows, memory, layer + 1));
    crate::step_flow::lemma_other_slices(
        before[STACK_KEY_CACHE as int],
        stride,
        run.plans.stack.layers as int,
        layer,
        made.keys,
    );
    crate::step_flow::lemma_other_slices(
        before[STACK_VALUE_CACHE as int],
        stride,
        run.plans.stack.layers as int,
        layer,
        made.values,
    );
    assert(prefill_words_hold(now, prefill));
}

/// All layers from one on are done.
proof fn lemma_prefill_layers_from(
    run: StackRun,
    prefill: PrefillPlan,
    rows: Seq<u8>,
    memory: Memory,
    start: Memory,
    layer: int,
    made: Seq<CommandModel>,
)
    requires
        crate::dataflow::keeps_lengths(run.device),
        run.plans.prefill_capable,
        run.sizes.prefill_key_value <= run.sizes.prefill_hidden,
        crate::stack_laws::well_placed(run.plans, run.sizes),
        crate::stack_laws::prefill_placed(run.plans, prefill),
        crate::device_laws::has_buffers(memory, crate::stack_flow::run_buffers(run)),
        prefill_forgets_earlier_work(run, prefill),
        0 <= layer <= run.plans.stack.layers,
        prefill_layers_done(
            run,
            prefill,
            rows,
            memory,
            layer,
            crate::dataflow::after(
                crate::stack_flow::stack_setup(run),
                made,
                start,
                made.len() as int,
            ),
        ),
    ensures
        ({
            let outcome = crate::stack_encode::prefill_commands_from(
                run.plans.resources,
                prefill,
                layer,
                made,
            );
            &&& outcome is Ok
            &&& prefill_layers_done(
                run,
                prefill,
                rows,
                memory,
                run.plans.stack.layers as int,
                crate::dataflow::after(
                    crate::stack_flow::stack_setup(run),
                    outcome->Ok_0,
                    start,
                    outcome->Ok_0.len() as int,
                ),
            )
        }),
    decreases run.plans.stack.layers - layer,
{
    if layer < run.plans.stack.layers {
        crate::stack_laws::law_layer_offsets_fit(run.plans, run.sizes, layer);
        let offsets = crate::stack_encode::layer_offsets_outcome(
            run.plans.resources,
            run.plans.stack.hidden_stride_bytes,
            run.plans.stack.cache_stride_bytes,
            layer,
        )->Ok_0;
        let setup = crate::stack_flow::stack_setup(run);
        let added = crate::stack_encode::prefill_layer_commands(
            run.plans.resources.storage,
            prefill,
            offsets,
        );
        let before = crate::dataflow::after(setup, made, start, made.len() as int);
        lemma_prefill_layer_done(run, prefill, rows, memory, layer, offsets, before);
        crate::dataflow::lemma_after_both(setup, made, added, start, added.len() as int);
        lemma_prefill_layers_from(run, prefill, rows, memory, start, layer + 1, made + added);
    }
}

/// What the writes of a prefill leave behind.
proof fn lemma_prefill_written(
    run: StackRun,
    prefill: PrefillPlan,
    hidden_states: Seq<u8>,
    memory: Memory,
)
    requires
        crate::device_laws::has_buffers(memory, crate::stack_flow::run_buffers(run)),
        hidden_states.len() <= run.sizes.prefill_hidden,
    ensures
        ({
            let writes = crate::stack_encode::stack_prefill_writes(prefill, hidden_states);
            let now = crate::dataflow::written(writes, memory, writes.len() as int);
            &&& crate::device_laws::has_buffers(now, crate::stack_flow::run_buffers(run))
            &&& prefill_words_hold(now, prefill)
            &&& now[STACK_PREFILL_HIDDEN_STORAGE as int] == crate::dataflow::patched(
                memory[STACK_PREFILL_HIDDEN_STORAGE as int],
                0,
                hidden_states,
            )
            &&& forall|place: int|
                0 <= place < memory.len() && place != STACK_PREFILL_HIDDEN_STORAGE && !(
                STACK_RMS_UNIFORM <= place <= STACK_GEMV_O_UNIFORM) ==> #[trigger] now[place]
                    == memory[place]
        }),
{
    let writes = crate::stack_encode::stack_prefill_writes(prefill, hidden_states);
    crate::dataflow::lemma_whole();
    lemma_prefill_sizes(run, memory);
    assert(writes.len() == 16);
    assert forall|i: int, j: int| 0 <= i < j < writes.len() implies (#[trigger] writes[i]).buffer
        != (#[trigger] writes[j]).buffer by {
    }
    crate::dataflow::lemma_written(writes, memory, 16);
    let now = crate::dataflow::written(writes, memory, 16);
    assert(now[writes[0].buffer as int] == crate::dataflow::patched(
        memory[STACK_PREFILL_HIDDEN_STORAGE as int],
        0,
        hidden_states,
    ));
    assert(now[writes[1].buffer as int] == crate::dataflow::uniform(prefill.stage_words@[0]));
    assert(now[writes[2].buffer as int] == crate::dataflow::uniform(prefill.stage_words@[1]));
    assert(now[writes[3].buffer as int] == crate::dataflow::uniform(prefill.stage_words@[2]));
    assert(now[writes[4].buffer as int] == crate::dataflow::uniform(prefill.stage_words@[3]));
    assert(now[writes[5].buffer as int] == crate::dataflow::uniform(prefill.stage_words@[4]));
    assert(now[writes[6].buffer as int] == crate::dataflow::uniform(prefill.stage_words@[5]));
    assert(now[writes[7].buffer as int] == crate::dataflow::uniform(prefill.stage_words@[6]));
    assert(now[writes[8].buffer as int] == crate::dataflow::uniform(prefill.stage_words@[7]));
    assert(now[writes[9].buffer as int] == crate::dataflow::uniform(prefill.stage_words@[8]));
    assert(now[writes[10].buffer as int] == crate::dataflow::uniform(prefill.stage_words@[9]));
    assert(now[writes[11].buffer as int] == crate::dataflow::uniform(prefill.stage_words@[10]));
    assert(now[writes[12].buffer as int] == crate::dataflow::uniform(prefill.stage_words@[11]));
    assert(now[writes[13].buffer as int] == crate::dataflow::uniform(prefill.stage_words@[12]));
    assert(now[writes[14].buffer as int] == crate::dataflow::uniform(prefill.stage_words@[13]));
    assert(now[writes[15].buffer as int] == crate::dataflow::uniform(prefill.stage_words@[14]));
}

/// What a session has in its memory after a prefill.
pub open spec fn after_prefill(
    run: StackRun,
    prefill: PrefillPlan,
    hidden_states: Seq<u8>,
    memory: Memory,
) -> Memory {
    crate::dataflow::performed(
        crate::stack_flow::stack_setup(run),
        crate::stack_encode::stack_prefill_writes(prefill, hidden_states),
        crate::stack_encode::stack_prefill_outcome(
            run.plans.resources,
            run.plans.prefill_capable,
            prefill,
        )->Ok_0,
        memory,
    )
}

/// The rows that a prefill starts with: those that it is given, at the start of its rows.
pub open spec fn first_rows(hidden_states: Seq<u8>, memory: Memory) -> Seq<u8> {
    crate::dataflow::patched(
        memory[STACK_PREFILL_HIDDEN_STORAGE as int],
        0,
        hidden_states,
    )
}

/// A prefill sends its rows through all layers, in order, each with its own weights and caches,
/// and appends its tokens to the caches of every layer. What is read back is the row of its last
/// token, as it comes out of the last layer.
pub proof fn law_prefill_runs_all_layers(
    run: StackRun,
    prefill: PrefillPlan,
    hidden_states: Seq<u8>,
    memory: Memory,
)
    requires
        crate::dataflow::keeps_lengths(run.device),
        run.plans.prefill_capable,
        crate::stack_laws::well_placed(run.plans, run.sizes),
        crate::stack_laws::prefill_placed(run.plans, prefill),
        crate::device_laws::has_buffers(memory, crate::stack_flow::run_buffers(run)),
        prefill_forgets_earlier_work(run, prefill),
        1 <= prefill.tokens,
        hidden_states.len() == prefill.tokens * PREFILL_ROW_BYTES,
    ensures
        ({
            let outcome = crate::stack_encode::stack_prefill_outcome(
                run.plans.resources,
                run.plans.prefill_capable,
                prefill,
            );
            let now = after_prefill(run, prefill, hidden_states, memory);
            let stride = run.plans.stack.cache_stride_bytes;
            let layers = run.plans.stack.layers as int;
            let rows = first_rows(hidden_states, memory);
            let last = crate::dataflow::range(
                rows_into(run, prefill, rows, memory, layers),
                (prefill.tokens - 1) * PREFILL_ROW_BYTES,
                PREFILL_ROW_BYTES as int,
            );
            &&& outcome is Ok
            &&& crate::device_laws::has_buffers(now, crate::stack_flow::run_buffers(run))
            &&& now[STACK_PREFILL_HIDDEN_STORAGE as int] == rows_into(
                run,
                prefill,
                rows,
                memory,
                layers,
            )
            &&& now[STACK_STACK_READBACK as int] == last
            &&& forall|layer: int|
                0 <= layer < layers ==> #[trigger] crate::step_flow::cache_slice(
                    now[STACK_KEY_CACHE as int],
                    stride,
                    layer,
                ) == prefill_layer_made(run, prefill, rows, memory, layer).keys
            &&& forall|layer: int|
                0 <= layer < layers ==> #[trigger] crate::step_flow::cache_slice(
                    now[STACK_VALUE_CACHE as int],
                    stride,
                    layer,
                ) == prefill_layer_made(run, prefill, rows, memory, layer).values
            &&& forall|place: int|
                0 <= place < memory.len() && !prefill_place(place) && place
                    != STACK_STACK_READBACK ==> #[trigger] now[place] == memory[place]
        }),
{
    let setup = crate::stack_flow::stack_setup(run);
    let writes = crate::stack_encode::stack_prefill_writes(prefill, hidden_states);
    let start = crate::dataflow::written(writes, memory, writes.len() as int);
    let rows = first_rows(hidden_states, memory);
    let capacity = run.plans.kv.cache_capacity as int;
    let tokens = prefill.tokens as int;
    assert(run.sizes.prefill_hidden == capacity * 4096);
    assert(run.sizes.prefill_key_value == capacity * 1024);
    assert(tokens * 4096 <= capacity * 4096);
    lemma_prefill_sizes(run, memory);
    lemma_prefill_written(run, prefill, hidden_states, memory);
    let none = Seq::<CommandModel>::empty();
    assert(crate::dataflow::after(setup, none, start, 0) == start);
    assert(prefill_layers_done(run, prefill, rows, memory, 0, start));
    lemma_prefill_layers_from(run, prefill, rows, memory, start, 0, none);
    let passes = crate::stack_encode::prefill_commands_from(
        run.plans.resources,
        prefill,
        0,
        none,
    )->Ok_0;
    let offset = crate::stack_encode::last_row_offset(
        prefill.tokens,
        prefill.hidden_stride_bytes,
    );
    assert(offset == (tokens - 1) * 4096);
    let commands = crate::stack_encode::stack_prefill_outcome(
        run.plans.resources,
        run.plans.prefill_capable,
        prefill,
    )->Ok_0;
    let copied = seq![commands.last()];
    assert(commands =~= passes + copied);
    crate::dataflow::lemma_after_both(setup, passes, copied, start, 1);
    let before = crate::dataflow::after(setup, passes, start, passes.len() as int);
    lemma_prefill_sizes(run, before);
    crate::dataflow::lemma_whole();
    reveal_with_fuel(crate::dataflow::after, 2);
    let now = after_prefill(run, prefill, hidden_states, memory);
    assert(now == crate::dataflow::carried_out(setup, copied[0], before));
}

/// What a prefill hands back is the row of its last token, as it comes out of the last layer.
pub proof fn law_prefill_hands_back_its_last_row(
    run: StackRun,
    prefill: PrefillPlan,
    hidden_states: Seq<u8>,
    memory: Memory,
)
    requires
        crate::dataflow::keeps_lengths(run.device),
        run.plans.prefill_capable,
        crate::stack_laws::well_placed(run.plans, run.sizes),
        crate::stack_laws::prefill_placed(run.plans, prefill),
        crate::device_laws::has_buffers(memory, crate::stack_flow::run_buffers(run)),
        prefill_forgets_earlier_work(run, prefill),
        1 <= prefill.tokens,
        hidden_states.len() == prefill.tokens * PREFILL_ROW_BYTES,
    ensures
        crate::dataflow::brought_back(
            after_prefill(run, prefill, hidden_states, memory),
            crate::readback::stack_readbacks(run.plans, Operation::Prefill)->Ok_0,
        ) == seq![
            crate::dataflow::range(
                rows_into(
                    run,
                    prefill,
                    first_rows(hidden_states, memory),
                    memory,
                    run.plans.stack.layers as int,
                ),
                (prefill.tokens - 1) * PREFILL_ROW_BYTES,
                PREFILL_ROW_BYTES as int,
            ),
        ],
{
    law_prefill_runs_all_layers(run, prefill, hidden_states, memory);
    lemma_prefill_sizes(run, after_prefill(run, prefill, hidden_states, memory));
    crate::dataflow::lemma_whole();
}

} // verus!
