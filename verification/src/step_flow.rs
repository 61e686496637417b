//! What a step of a stack session does to the bytes on a device.

use crate::dataflow::{Device, Setup};
use crate::device_laws::Memory;
use crate::gpu::{BufferPlan, CommandModel, WriteModel};
use crate::kv::KvStepPlan;
use crate::layer_flow::BlockOutput;
use crate::lifecycle::Operation;
use crate::stack_encode::LayerOffsets;
use crate::stack_flow::StackRun;
use crate::stack_plan::{StackPlans, StackSizes, StackStepPlan, WeightResourcePlan};
use crate::stack_resources::{
    GROUP_APPEND, GROUP_GEMV_DOWN, GROUP_GEMV_GATE, GROUP_GEMV_K, GROUP_GEMV_O, GROUP_GEMV_Q,
    GROUP_GEMV_UP, GROUP_GEMV_V, GROUP_MROPE, GROUP_RESIDUAL, GROUP_RESIDUAL2, GROUP_RMS,
    GROUP_RMS2, GROUP_SPLIT_MERGE, GROUP_SPLIT_PARTIAL, GROUP_SWIGLU, PIPELINE_APPEND,
    PIPELINE_MROPE, PIPELINE_RESIDUAL, PIPELINE_SPLIT_MERGE, PIPELINE_SPLIT_PARTIAL,
    PIPELINE_SWIGLU, STACK_ACTIVATION, STACK_APPEND_UNIFORM, STACK_ATTENTION_OUTPUT,
    STACK_ATTENTION_RESIDUAL, STACK_DOWN_PROJECTION, STACK_DOWN_WEIGHT, STACK_FINISH_KEY_READBACK,
    STACK_FINISH_VALUE_READBACK, STACK_GATE, STACK_GATE_WEIGHT, STACK_GEMV_DOWN_UNIFORM,
    STACK_GEMV_GATE_UNIFORM, STACK_GEMV_K_UNIFORM, STACK_GEMV_O_UNIFORM, STACK_GEMV_Q_UNIFORM,
    STACK_GEMV_UP_UNIFORM, STACK_GEMV_V_UNIFORM, STACK_HIDDEN_PINGPONG, STACK_KEY_CACHE,
    STACK_K_PROJECTION, STACK_K_WEIGHT, STACK_MROPE_KEY, STACK_MROPE_QUERY, STACK_MROPE_UNIFORM,
    STACK_NORM1, STACK_NORM1_WEIGHT, STACK_NORM2, STACK_NORM2_WEIGHT, STACK_O_PROJECTION,
    STACK_O_WEIGHT, STACK_Q_PROJECTION, STACK_Q_WEIGHT, STACK_RESIDUAL2_UNIFORM,
    STACK_RESIDUAL_UNIFORM, STACK_RMS2_UNIFORM, STACK_RMS_UNIFORM, STACK_ROPE_COS, STACK_ROPE_SIN,
    STACK_SPLIT_MERGE_UNIFORM, STACK_SPLIT_PARTIALS, STACK_SPLIT_PARTIAL_UNIFORM,
    STACK_STACK_READBACK, STACK_SWIGLU_UNIFORM, STACK_UP, STACK_UP_WEIGHT, STACK_VALUE_CACHE,
    STACK_V_PROJECTION, STACK_V_WEIGHT,
};
use vstd::prelude::*;

verus! {

/// The weights of one layer.
pub struct LayerWeights {
    pub first_norm: Seq<u8>,
    pub query: Seq<u8>,
    pub key: Seq<u8>,
    pub value: Seq<u8>,
    pub output: Seq<u8>,
    pub second_norm: Seq<u8>,
    pub gate: Seq<u8>,
    pub up: Seq<u8>,
    pub down: Seq<u8>,
}

/// The weights that start at given offsets of the buffers of the weights of all layers.
pub open spec fn weights_at(
    resources: WeightResourcePlan,
    memory: Memory,
    offsets: [u64; 9],
) -> LayerWeights {
    let slice = |place: usize, index: int|
        crate::dataflow::range(
            memory[place as int],
            offsets@[index] as int,
            resources.layer_weight_stride_bytes@[index] as int,
        );
    LayerWeights {
        first_norm: slice(STACK_NORM1_WEIGHT, 0),
        query: slice(STACK_Q_WEIGHT, 1),
        key: slice(STACK_K_WEIGHT, 2),
        value: slice(STACK_V_WEIGHT, 3),
        output: slice(STACK_O_WEIGHT, 4),
        second_norm: slice(STACK_NORM2_WEIGHT, 5),
        gate: slice(STACK_GATE_WEIGHT, 6),
        up: slice(STACK_UP_WEIGHT, 7),
        down: slice(STACK_DOWN_WEIGHT, 8),
    }
}

/// The weights of a layer, as they lie in the buffers of the weights of all layers.
pub open spec fn layer_weights(
    resources: WeightResourcePlan,
    memory: Memory,
    layer: int,
) -> LayerWeights {
    weights_at(resources, memory, resources.layer_weight_offsets@[layer])
}

/// What a layer of a step is given: its weights, the rotary tables, the hidden row and its
/// caches.
pub struct LayerInput {
    pub weights: LayerWeights,
    pub cos: Seq<u8>,
    pub sin: Seq<u8>,
    pub row: Seq<u8>,
    pub keys: Seq<u8>,
    pub values: Seq<u8>,
}

/// The query, the key and the value of a token.
pub struct Token {
    pub query: Seq<u8>,
    pub key: Seq<u8>,
    pub value: Seq<u8>,
}

/// What a layer of a step makes of the hidden row before it attends: the row is normed and
/// projected to a query, a key and a value, and query and key are turned by the rotary tables.
/// `left` is what the buffers of the stages hold before they are stored into.
pub open spec fn token_of(
    run: StackRun,
    step: StackStepPlan,
    input: LayerInput,
    left: Memory,
) -> Token {
    let norm = crate::stack_flow::norm_source(run.sources, run.plans.resources.storage);
    let project = crate::stack_flow::gemv_source(run.sources, run.plans.resources.storage);
    let normed = (run.device)(
        norm,
        run.plans.stack.attention.rms_norm_dispatch,
        seq![input.row, input.weights.first_norm, crate::dataflow::uniform(step.stage_words@[0])],
        0,
        left[STACK_NORM1 as int],
    );
    let query = (run.device)(
        project,
        run.plans.stack.attention.query_dispatch,
        seq![input.weights.query, normed, crate::dataflow::uniform(step.stage_words@[1])],
        0,
        left[STACK_Q_PROJECTION as int],
    );
    let key = (run.device)(
        project,
        run.plans.stack.attention.key_dispatch,
        seq![input.weights.key, normed, crate::dataflow::uniform(step.stage_words@[2])],
        0,
        left[STACK_K_PROJECTION as int],
    );
    let value = (run.device)(
        project,
        run.plans.stack.attention.value_dispatch,
        seq![input.weights.value, normed, crate::dataflow::uniform(step.stage_words@[3])],
        0,
        left[STACK_V_PROJECTION as int],
    );
    let unturned = seq![
        query,
        key,
        input.cos,
        input.sin,
        crate::dataflow::uniform(step.stage_words@[4]),
    ];
    let turned_query = (run.device)(
        run.sources.mrope,
        run.plans.stack.attention.mrope_dispatch,
        unturned,
        0,
        left[STACK_MROPE_QUERY as int],
    );
    let turned_key = (run.device)(
        run.sources.mrope,
        run.plans.stack.attention.mrope_dispatch,
        unturned,
        1,
        left[STACK_MROPE_KEY as int],
    );
    Token { query: turned_query, key: turned_key, value }
}

/// What the attention half of a layer makes of the hidden row of a step: its key and its value
/// are appended to the caches; its query attends over the caches, in two passes; the result is
/// projected and added to the row. `left` is what the buffers of the stages hold before they are
/// stored into.
pub open spec fn attention_half(
    run: StackRun,
    transition: KvStepPlan,
    step: StackStepPlan,
    input: LayerInput,
    left: Memory,
) -> BlockOutput {
    let project = crate::stack_flow::gemv_source(run.sources, run.plans.resources.storage);
    let token = token_of(run, step, input, left);
    let appended = seq![token.key, token.value, crate::dataflow::uniform(transition.append_words)];
    let keys = (run.device)(
        run.sources.append,
        run.plans.kv.append_dispatch,
        appended,
        0,
        input.keys,
    );
    let values = (run.device)(
        run.sources.append,
        run.plans.kv.append_dispatch,
        appended,
        1,
        input.values,
    );
    let partials = (run.device)(
        run.sources.split_partial,
        transition.split_partial_dispatch,
        seq![token.query, keys, values, crate::dataflow::uniform(transition.split_words@[0])],
        0,
        left[STACK_SPLIT_PARTIALS as int],
    );
    let attended = (run.device)(
        run.sources.split_merge,
        transition.split_merge_dispatch,
        seq![partials, keys, values, crate::dataflow::uniform(transition.split_words@[1])],
        0,
        left[STACK_ATTENTION_OUTPUT as int],
    );
    let output = (run.device)(
        project,
        run.plans.stack.attention.output_dispatch,
        seq![input.weights.output, attended, crate::dataflow::uniform(step.stage_words@[5])],
        0,
        left[STACK_O_PROJECTION as int],
    );
    let row = (run.device)(
        run.sources.residual,
        run.plans.stack.attention.residual_dispatch,
        seq![input.row, output, crate::dataflow::uniform(step.stage_words@[6])],
        0,
        left[STACK_ATTENTION_RESIDUAL as int],
    );
    BlockOutput { keys, values, row }
}

/// What the second half of a layer makes of a row: the row is normed and projected twice, the two
/// results become one activation, and that is projected down and added to the row. `left` is what
/// the buffers of the stages hold before they are stored into, `spare` what the place of the
/// result holds.
pub open spec fn feed_forward_half(
    run: StackRun,
    step: StackStepPlan,
    weights: LayerWeights,
    row: Seq<u8>,
    left: Memory,
    spare: Seq<u8>,
) -> Seq<u8> {
    let norm = crate::stack_flow::norm_source(run.sources, run.plans.resources.storage);
    let project = crate::stack_flow::gemv_source(run.sources, run.plans.resources.storage);
    let normed = (run.device)(
        norm,
        run.plans.stack.norm2_dispatch,
        seq![row, weights.second_norm, crate::dataflow::uniform(step.stage_words@[7])],
        0,
        left[STACK_NORM2 as int],
    );
    let gate = (run.device)(
        project,
        run.plans.stack.gate_dispatch,
        seq![weights.gate, normed, crate::dataflow::uniform(step.stage_words@[8])],
        0,
        left[STACK_GATE as int],
    );
    let up = (run.device)(
        project,
        run.plans.stack.up_dispatch,
        seq![weights.up, normed, crate::dataflow::uniform(step.stage_words@[9])],
        0,
        left[STACK_UP as int],
    );
    let activation = (run.device)(
        run.sources.swiglu,
        run.plans.stack.swiglu_dispatch,
        seq![gate, up, crate::dataflow::uniform(step.stage_words@[10])],
        0,
        left[STACK_ACTIVATION as int],
    );
    let down = (run.device)(
        project,
        run.plans.stack.down_dispatch,
        seq![weights.down, activation, crate::dataflow::uniform(step.stage_words@[11])],
        0,
        left[STACK_DOWN_PROJECTION as int],
    );
    (run.device)(
        run.sources.residual,
        run.plans.stack.second_residual_dispatch,
        seq![row, down, crate::dataflow::uniform(step.stage_words@[12])],
        0,
        spare,
    )
}

/// What a layer makes of the hidden row of a step: its attention half, then its second half.
pub open spec fn decoder_layer(
    run: StackRun,
    transition: KvStepPlan,
    step: StackStepPlan,
    input: LayerInput,
    left: Memory,
    spare: Seq<u8>,
) -> BlockOutput {
    let attended = attention_half(run, transition, step, input, left);
    BlockOutput {
        keys: attended.keys,
        values: attended.values,
        row: feed_forward_half(run, step, input.weights, attended.row, left, spare),
    }
}

/// Whether the uniform words of a step are in their buffers.
pub open spec fn step_words_hold(
    memory: Memory,
    transition: KvStepPlan,
    step: StackStepPlan,
) -> bool {
    &&& memory[STACK_RMS_UNIFORM as int] == crate::dataflow::uniform(step.stage_words@[0])
    &&& memory[STACK_GEMV_Q_UNIFORM as int] == crate::dataflow::uniform(step.stage_words@[1])
    &&& memory[STACK_GEMV_K_UNIFORM as int] == crate::dataflow::uniform(step.stage_words@[2])
    &&& memory[STACK_GEMV_V_UNIFORM as int] == crate::dataflow::uniform(step.stage_words@[3])
    &&& memory[STACK_MROPE_UNIFORM as int] == crate::dataflow::uniform(step.stage_words@[4])
    &&& memory[STACK_GEMV_O_UNIFORM as int] == crate::dataflow::uniform(step.stage_words@[5])
    &&& memory[STACK_RESIDUAL_UNIFORM as int] == crate::dataflow::uniform(step.stage_words@[6])
    &&& memory[STACK_RMS2_UNIFORM as int] == crate::dataflow::uniform(step.stage_words@[7])
    &&& memory[STACK_GEMV_GATE_UNIFORM as int] == crate::dataflow::uniform(step.stage_words@[8])
    &&& memory[STACK_GEMV_UP_UNIFORM as int] == crate::dataflow::uniform(step.stage_words@[9])
    &&& memory[STACK_SWIGLU_UNIFORM as int] == crate::dataflow::uniform(step.stage_words@[10])
    &&& memory[STACK_GEMV_DOWN_UNIFORM as int] == crate::dataflow::uniform(step.stage_words@[11])
    &&& memory[STACK_RESIDUAL2_UNIFORM as int] == crate::dataflow::uniform(step.stage_words@[12])
    &&& memory[STACK_APPEND_UNIFORM as int] == crate::dataflow::uniform(transition.append_words)
    &&& memory[STACK_SPLIT_PARTIAL_UNIFORM as int] == crate::dataflow::uniform(
        transition.split_words@[0],
    )
    &&& memory[STACK_SPLIT_MERGE_UNIFORM as int] == crate::dataflow::uniform(
        transition.split_words@[1],
    )
}

/// Whether the attention half of a layer stores into a buffer.
pub open spec fn attention_place(place: int) -> bool {
    STACK_KEY_CACHE <= place <= STACK_ATTENTION_RESIDUAL || place == STACK_SPLIT_PARTIALS
}

/// Whether the second half of a layer stores into a buffer.
pub open spec fn feed_forward_place(place: int) -> bool {
    STACK_NORM2 <= place <= STACK_DOWN_PROJECTION || place == STACK_HIDDEN_PINGPONG
}

/// What a layer whose rows, weights and caches start at given offsets is given.
pub open spec fn input_at(run: StackRun, memory: Memory, offsets: LayerOffsets) -> LayerInput {
    let stride = run.plans.stack.cache_stride_bytes as int;
    LayerInput {
        weights: weights_at(run.plans.resources, memory, offsets.weights),
        cos: memory[STACK_ROPE_COS as int],
        sin: memory[STACK_ROPE_SIN as int],
        row: crate::dataflow::range(
            memory[STACK_HIDDEN_PINGPONG as int],
            offsets.pingpong_in as int,
            run.sizes.hidden as int,
        ),
        keys: crate::dataflow::range(
            memory[STACK_KEY_CACHE as int],
            offsets.cache as int,
            stride,
        ),
        values: crate::dataflow::range(
            memory[STACK_VALUE_CACHE as int],
            offsets.cache as int,
            stride,
        ),
    }
}

/// How long the buffers of a step are.
proof fn lemma_step_sizes(run: StackRun, memory: Memory)
    requires
        crate::device_laws::has_buffers(memory, crate::stack_flow::run_buffers(run)),
    ensures
        memory.len() == STACK_FINISH_VALUE_READBACK + 1,
        memory[STACK_HIDDEN_PINGPONG as int].len() == run.sizes.pingpong,
        memory[STACK_ROPE_COS as int].len() == run.plans.resources.rope_table_bytes,
        memory[STACK_ROPE_SIN as int].len() == run.plans.resources.rope_table_bytes,
        memory[STACK_KEY_CACHE as int].len() == run.sizes.cache,
        memory[STACK_VALUE_CACHE as int].len() == run.sizes.cache,
        memory[STACK_NORM1 as int].len() == run.sizes.hidden,
        memory[STACK_Q_PROJECTION as int].len() == run.sizes.query,
        memory[STACK_K_PROJECTION as int].len() == run.sizes.key_value,
        memory[STACK_V_PROJECTION as int].len() == run.sizes.key_value,
        memory[STACK_MROPE_QUERY as int].len() == run.sizes.query,
        memory[STACK_MROPE_KEY as int].len() == run.sizes.key_value,
        memory[STACK_ATTENTION_OUTPUT as int].len() == run.plans.kv.attention_bytes,
        memory[STACK_O_PROJECTION as int].len() == run.sizes.hidden,
        memory[STACK_ATTENTION_RESIDUAL as int].len() == run.sizes.hidden,
        memory[STACK_NORM2 as int].len() == run.sizes.hidden,
        memory[STACK_GATE as int].len() == run.sizes.intermediate,
        memory[STACK_UP as int].len() == run.sizes.intermediate,
        memory[STACK_ACTIVATION as int].len() == run.sizes.intermediate,
        memory[STACK_DOWN_PROJECTION as int].len() == run.sizes.hidden,
        memory[STACK_STACK_READBACK as int].len() == run.sizes.hidden,
        memory[STACK_SPLIT_PARTIALS as int].len() == run.plans.kv.split_partials_bytes,
        memory[STACK_RMS_UNIFORM as int].len() == 16,
        memory[STACK_GEMV_Q_UNIFORM as int].len() == 16,
        memory[STACK_GEMV_K_UNIFORM as int].len() == 16,
        memory[STACK_GEMV_V_UNIFORM as int].len() == 16,
        memory[STACK_MROPE_UNIFORM as int].len() == 16,
        memory[STACK_GEMV_O_UNIFORM as int].len() == 16,
        memory[STACK_RESIDUAL_UNIFORM as int].len() == 16,
        memory[STACK_RMS2_UNIFORM as int].len() == 16,
        memory[STACK_GEMV_GATE_UNIFORM as int].len() == 16,
        memory[STACK_GEMV_UP_UNIFORM as int].len() == 16,
        memory[STACK_SWIGLU_UNIFORM as int].len() == 16,
        memory[STACK_GEMV_DOWN_UNIFORM as int].len() == 16,
        memory[STACK_RESIDUAL2_UNIFORM as int].len() == 16,
        memory[STACK_APPEND_UNIFORM as int].len() == 16,
        memory[STACK_SPLIT_PARTIAL_UNIFORM as int].len() == 16,
        memory[STACK_SPLIT_MERGE_UNIFORM as int].len() == 16,
{
    let buffers = crate::stack_flow::run_buffers(run);
    let base = crate::stack_resources::base_buffers(
        run.plans.kv,
        run.plans.resources,
        run.sizes,
    );
    assert forall|i: int| 0 <= i < base.len() implies (#[trigger] memory[i]).len()
        == base[i].size by {
        assert(buffers[i] == base[i]);
    }
}

/// The bind groups of a step.
proof fn lemma_step_groups(run: StackRun)
    ensures
        forall|i: int|
            0 <= i < 16 ==> #[trigger] crate::stack_flow::stack_setup(run).groups[i]
                == crate::stack_resources::base_bind_groups(
                run.plans.kv,
                run.plans.stack,
                run.plans.resources,
                run.sizes,
            )[i],
{
}

/// What the first ten passes of a layer of a step leave behind.
#[verifier::rlimit(80)]
#[verifier::spinoff_prover]
proof fn lemma_attention_half(
    run: StackRun,
    transition: KvStepPlan,
    step: StackStepPlan,
    offsets: LayerOffsets,
    memory: Memory,
)
    requires
        crate::dataflow::keeps_lengths(run.device),
        crate::device_laws::has_buffers(memory, crate::stack_flow::run_buffers(run)),
        crate::stack_laws::offsets_inside(run.plans, run.sizes, offsets),
        step_words_hold(memory, transition, step),
    ensures
        ({
            let commands = crate::stack_encode::step_layer_commands(
                run.plans,
                transition,
                offsets,
            );
            let now = crate::dataflow::after(
                crate::stack_flow::stack_setup(run),
                commands,
                memory,
                10,
            );
            let made = attention_half(
                run,
                transition,
                step,
                input_at(run, memory, offsets),
                memory,
            );
            &&& now.len() == memory.len()
            &&& forall|place: int|
                0 <= place < memory.len() ==> (#[trigger] now[place]).len() == memory[place].len()
            &&& now[STACK_ATTENTION_RESIDUAL as int] == made.row
            &&& now[STACK_KEY_CACHE as int] == crate::dataflow::patched(
                memory[STACK_KEY_CACHE as int],
                offsets.cache as int,
                made.keys,
            )
            &&& now[STACK_VALUE_CACHE as int] == crate::dataflow::patched(
                memory[STACK_VALUE_CACHE as int],
                offsets.cache as int,
                made.values,
            )
            &&& made.keys.len() == run.plans.stack.cache_stride_bytes
            &&& made.values.len() == run.plans.stack.cache_stride_bytes
            &&& made.row.len() == run.sizes.hidden
            &&& forall|place: int|
                0 <= place < memory.len() && !attention_place(place) ==> #[trigger] now[place]
                    == memory[place]
        }),
{
    let setup = crate::stack_flow::stack_setup(run);
    let commands = crate::stack_encode::step_layer_commands(run.plans, transition, offsets);
    let pipelines = crate::stack_encode::weight_pipelines(run.plans.resources.storage);
    crate::stack_flow::law_passes_run_their_shaders(run);
    crate::dataflow::lemma_whole();
    lemma_step_sizes(run, memory);
    lemma_step_groups(run);
    let input = input_at(run, memory, offsets);
    let norm = crate::stack_flow::norm_source(run.sources, run.plans.resources.storage);
    let project = crate::stack_flow::gemv_source(run.sources, run.plans.resources.storage);
    let m0 = crate::dataflow::after(setup, commands, memory, 0);
    let m1 = crate::dataflow::after(setup, commands, memory, 1);
    let m2 = crate::dataflow::after(setup, commands, memory, 2);
    let m3 = crate::dataflow::after(setup, commands, memory, 3);
    let m4 = crate::dataflow::after(setup, commands, memory, 4);
    let m5 = crate::dataflow::after(setup, commands, memory, 5);
    let m6 = crate::dataflow::after(setup, commands, memory, 6);
    let m7 = crate::dataflow::after(setup, commands, memory, 7);
    let m8 = crate::dataflow::after(setup, commands, memory, 8);
    let m9 = crate::dataflow::after(setup, commands, memory, 9);
    let m10 = crate::dataflow::after(setup, commands, memory, 10);
    let normed = (run.device)(
        norm,
        run.plans.stack.attention.rms_norm_dispatch,
        seq![input.row, input.weights.first_norm, crate::dataflow::uniform(step.stage_words@[0])],
        0,
        m0[STACK_NORM1 as int],
    );
    assert(m1 == m0.update(STACK_NORM1 as int, normed)) by {
        assert(m1 == crate::dataflow::carried_out(setup, commands[0], m0));
        crate::stack_flow::lemma_entry_offsets(seq![offsets.pingpong_in, offsets.weights@[0]]);
        crate::dataflow::lemma_third_of_four(
            setup,
            pipelines.rms_norm,
            GROUP_RMS,
            run.plans.stack.attention.rms_norm_dispatch,
            seq![offsets.pingpong_in, offsets.weights@[0]],
            m0,
        );
    }
    let query = (run.device)(
        project,
        run.plans.stack.attention.query_dispatch,
        seq![input.weights.query, normed, crate::dataflow::uniform(step.stage_words@[1])],
        0,
        m0[STACK_Q_PROJECTION as int],
    );
    assert(m2 == m1.update(STACK_Q_PROJECTION as int, query)) by {
        assert(m2 == crate::dataflow::carried_out(setup, commands[1], m1));
        crate::stack_flow::lemma_entry_offsets(seq![offsets.weights@[1]]);
        crate::dataflow::lemma_third_of_four(
            setup,
            pipelines.gemv_tiled,
            GROUP_GEMV_Q,
            run.plans.stack.attention.query_dispatch,
            seq![offsets.weights@[1]],
            m1,
        );
    }
    let key = (run.device)(
        project,
        run.plans.stack.attention.key_dispatch,
        seq![input.weights.key, normed, crate::dataflow::uniform(step.stage_words@[2])],
        0,
        m0[STACK_K_PROJECTION as int],
    );
    assert(m3 == m2.update(STACK_K_PROJECTION as int, key)) by {
        assert(m3 == crate::dataflow::carried_out(setup, commands[2], m2));
        crate::stack_flow::lemma_entry_offsets(seq![offsets.weights@[2]]);
        crate::dataflow::lemma_third_of_four(
            setup,
            pipelines.gemv_tiled,
            GROUP_GEMV_K,
            run.plans.stack.attention.key_dispatch,
            seq![offsets.weights@[2]],
            m2,
        );
    }
    let value = (run.device)(
        project,
        run.plans.stack.attention.value_dispatch,
        seq![input.weights.value, normed, crate::dataflow::uniform(step.stage_words@[3])],
        0,
        m0[STACK_V_PROJECTION as int],
    );
    assert(m4 == m3.update(STACK_V_PROJECTION as int, value)) by {
        assert(m4 == crate::dataflow::carried_out(setup, commands[3], m3));
        crate::stack_flow::lemma_entry_offsets(seq![offsets.weights@[3]]);
        crate::dataflow::lemma_third_of_four(
            setup,
            pipelines.gemv_tiled,
            GROUP_GEMV_V,
            run.plans.stack.attention.value_dispatch,
            seq![offsets.weights@[3]],
            m3,
        );
    }
    let unturned = seq![
        query,
        key,
        input.cos,
        input.sin,
        crate::dataflow::uniform(step.stage_words@[4]),
    ];
    let turned_query = (run.device)(
        run.sources.mrope,
        run.plans.stack.attention.mrope_dispatch,
        unturned,
        0,
        m0[STACK_MROPE_QUERY as int],
    );
    let turned_key = (run.device)(
        run.sources.mrope,
        run.plans.stack.attention.mrope_dispatch,
        unturned,
        1,
        m0[STACK_MROPE_KEY as int],
    );
    assert(m5 == m4.update(
        STACK_MROPE_QUERY as int,
        turned_query,
    ).update(STACK_MROPE_KEY as int, turned_key)) by {
        assert(m5 == crate::dataflow::carried_out(setup, commands[4], m4));
        crate::stack_flow::lemma_entry_offsets(Seq::<u64>::empty());
        crate::dataflow::lemma_late_of_seven(
            setup,
            PIPELINE_MROPE,
            GROUP_MROPE,
            run.plans.stack.attention.mrope_dispatch,
            Seq::<u64>::empty(),
            m4,
        );
    }
    let token = seq![turned_key, value, crate::dataflow::uniform(transition.append_words)];
    let keys = (run.device)(run.sources.append, run.plans.kv.append_dispatch, token, 0, input.keys);
    let values = (run.device)(
        run.sources.append,
        run.plans.kv.append_dispatch,
        token,
        1,
        input.values,
    );
    assert(m6 == m5.update(
        STACK_KEY_CACHE as int,
        crate::dataflow::patched(m5[STACK_KEY_CACHE as int], offsets.cache as int, keys),
    ).update(
        STACK_VALUE_CACHE as int,
        crate::dataflow::patched(m5[STACK_VALUE_CACHE as int], offsets.cache as int, values),
    )) by {
        assert(m6 == crate::dataflow::carried_out(setup, commands[5], m5));
        crate::stack_flow::lemma_entry_offsets(seq![offsets.cache, offsets.cache]);
        crate::dataflow::lemma_middle_of_five(
            setup,
            PIPELINE_APPEND,
            GROUP_APPEND,
            run.plans.kv.append_dispatch,
            seq![offsets.cache, offsets.cache],
            m5,
        );
    }
    crate::dataflow::lemma_patched_range(m5[STACK_KEY_CACHE as int], offsets.cache as int, keys);
    crate::dataflow::lemma_patched_range(
        m5[STACK_VALUE_CACHE as int],
        offsets.cache as int,
        values,
    );
    let partials = (run.device)(
        run.sources.split_partial,
        transition.split_partial_dispatch,
        seq![turned_query, keys, values, crate::dataflow::uniform(transition.split_words@[0])],
        0,
        m0[STACK_SPLIT_PARTIALS as int],
    );
    assert(m7 == m6.update(STACK_SPLIT_PARTIALS as int, partials)) by {
        assert(m7 == crate::dataflow::carried_out(setup, commands[6], m6));
        crate::stack_flow::lemma_entry_offsets(seq![offsets.cache, offsets.cache]);
        crate::dataflow::lemma_fourth_of_five(
            setup,
            PIPELINE_SPLIT_PARTIAL,
            GROUP_SPLIT_PARTIAL,
            transition.split_partial_dispatch,
            seq![offsets.cache, offsets.cache],
            m6,
        );
    }
    let attended = (run.device)(
        run.sources.split_merge,
        transition.split_merge_dispatch,
        seq![partials, keys, values, crate::dataflow::uniform(transition.split_words@[1])],
        0,
        m0[STACK_ATTENTION_OUTPUT as int],
    );
    assert(m8 == m7.update(STACK_ATTENTION_OUTPUT as int, attended)) by {
        assert(m8 == crate::dataflow::carried_out(setup, commands[7], m7));
        crate::stack_flow::lemma_entry_offsets(seq![offsets.cache, offsets.cache]);
        crate::dataflow::lemma_fourth_of_five(
            setup,
            PIPELINE_SPLIT_MERGE,
            GROUP_SPLIT_MERGE,
            transition.split_merge_dispatch,
            seq![offsets.cache, offsets.cache],
            m7,
        );
    }
    let output = (run.device)(
        project,
        run.plans.stack.attention.output_dispatch,
        seq![input.weights.output, attended, crate::dataflow::uniform(step.stage_words@[5])],
        0,
        m0[STACK_O_PROJECTION as int],
    );
    assert(m9 == m8.update(STACK_O_PROJECTION as int, output)) by {
        assert(m9 == crate::dataflow::carried_out(setup, commands[8], m8));
        crate::stack_flow::lemma_entry_offsets(seq![offsets.weights@[4]]);
        crate::dataflow::lemma_third_of_four(
            setup,
            pipelines.gemv_tiled,
            GROUP_GEMV_O,
            run.plans.stack.attention.output_dispatch,
            seq![offsets.weights@[4]],
            m8,
        );
    }
    let row = (run.device)(
        run.sources.residual,
        run.plans.stack.attention.residual_dispatch,
        seq![input.row, output, crate::dataflow::uniform(step.stage_words@[6])],
        0,
        m0[STACK_ATTENTION_RESIDUAL as int],
    );
    assert(m10 == m9.update(STACK_ATTENTION_RESIDUAL as int, row)) by {
        assert(m10 == crate::dataflow::carried_out(setup, commands[9], m9));
        crate::stack_flow::lemma_entry_offsets(seq![offsets.pingpong_in, 0u64]);
        crate::dataflow::lemma_third_of_four(
            setup,
            PIPELINE_RESIDUAL,
            GROUP_RESIDUAL,
            run.plans.stack.attention.residual_dispatch,
            seq![offsets.pingpong_in, 0u64],
            m9,
        );
    }
}

/// What the last six passes of a layer of a step leave behind.
#[verifier::rlimit(80)]
#[verifier::spinoff_prover]
proof fn lemma_feed_forward_half(
    run: StackRun,
    transition: KvStepPlan,
    step: StackStepPlan,
    offsets: LayerOffsets,
    memory: Memory,
)
    requires
        crate::dataflow::keeps_lengths(run.device),
        crate::device_laws::has_buffers(
            crate::dataflow::after(
                crate::stack_flow::stack_setup(run),
                crate::stack_encode::step_layer_commands(run.plans, transition, offsets),
                memory,
                10,
            ),
            crate::stack_flow::run_buffers(run),
        ),
        crate::stack_laws::offsets_inside(run.plans, run.sizes, offsets),
        step_words_hold(
            crate::dataflow::after(
                crate::stack_flow::stack_setup(run),
                crate::stack_encode::step_layer_commands(run.plans, transition, offsets),
                memory,
                10,
            ),
            transition,
            step,
        ),
    ensures
        ({
            let setup = crate::stack_flow::stack_setup(run);
            let commands = crate::stack_encode::step_layer_commands(
                run.plans,
                transition,
                offsets,
            );
            let before = crate::dataflow::after(setup, commands, memory, 10);
            let now = crate::dataflow::after(setup, commands, memory, 16);
            let made = feed_forward_half(
                run,
                step,
                weights_at(run.plans.resources, before, offsets.weights),
                before[STACK_ATTENTION_RESIDUAL as int],
                before,
                crate::dataflow::range(
                    before[STACK_HIDDEN_PINGPONG as int],
                    offsets.pingpong_out as int,
                    run.sizes.hidden as int,
                ),
            );
            &&& now.len() == before.len()
            &&& forall|place: int|
                0 <= place < before.len() ==> (#[trigger] now[place]).len() == before[place].len()
            &&& made.len() == run.sizes.hidden
            &&& now[STACK_HIDDEN_PINGPONG as int] == crate::dataflow::patched(
                before[STACK_HIDDEN_PINGPONG as int],
                offsets.pingpong_out as int,
                made,
            )
            &&& forall|place: int|
                0 <= place < before.len() && !feed_forward_place(place) ==> #[trigger] now[place]
                    == before[place]
        }),
{
    let setup = crate::stack_flow::stack_setup(run);
    let commands = crate::stack_encode::step_layer_commands(run.plans, transition, offsets);
    let m10 = crate::dataflow::after(setup, commands, memory, 10);
    let m11 = crate::dataflow::after(setup, commands, memory, 11);
    let m12 = crate::dataflow::after(setup, commands, memory, 12);
    let m13 = crate::dataflow::after(setup, commands, memory, 13);
    let m14 = crate::dataflow::after(setup, commands, memory, 14);
    let m15 = crate::dataflow::after(setup, commands, memory, 15);
    let m16 = crate::dataflow::after(setup, commands, memory, 16);
    let pipelines = crate::stack_encode::weight_pipelines(run.plans.resources.storage);
    crate::stack_flow::law_passes_run_their_shaders(run);
    crate::dataflow::lemma_whole();
    lemma_step_sizes(run, m10);
    lemma_step_groups(run);
    let norm = crate::stack_flow::norm_source(run.sources, run.plans.resources.storage);
    let project = crate::stack_flow::gemv_source(run.sources, run.plans.resources.storage);
    let weights = weights_at(run.plans.resources, m10, offsets.weights);
    let row = m10[STACK_ATTENTION_RESIDUAL as int];
    let spare = crate::dataflow::range(
        m10[STACK_HIDDEN_PINGPONG as int],
        offsets.pingpong_out as int,
        run.sizes.hidden as int,
    );
    let normed = (run.device)(
        norm,
        run.plans.stack.norm2_dispatch,
        seq![row, weights.second_norm, crate::dataflow::uniform(step.stage_words@[7])],
        0,
        m10[STACK_NORM2 as int],
    );
    assert(m11 == m10.update(STACK_NORM2 as int, normed)) by {
        assert(m11 == crate::dataflow::carried_out(setup, commands[10], m10));
        crate::stack_flow::lemma_entry_offsets(seq![0u64, offsets.weights@[5]]);
        crate::dataflow::lemma_third_of_four(
            setup,
            pipelines.rms_norm,
            GROUP_RMS2,
            run.plans.stack.norm2_dispatch,
            seq![0u64, offsets.weights@[5]],
            m10,
        );
    }
    let gate = (run.device)(
        project,
        run.plans.stack.gate_dispatch,
        seq![weights.gate, normed, crate::dataflow::uniform(step.stage_words@[8])],
        0,
        m10[STACK_GATE as int],
    );
    assert(m12 == m11.update(STACK_GATE as int, gate)) by {
        assert(m12 == crate::dataflow::carried_out(setup, commands[11], m11));
        crate::stack_flow::lemma_entry_offsets(seq![offsets.weights@[6]]);
        crate::dataflow::lemma_third_of_four(
            setup,
            pipelines.gemv_tiled,
            GROUP_GEMV_GATE,
            run.plans.stack.gate_dispatch,
            seq![offsets.weights@[6]],
            m11,
        );
    }
    let up = (run.device)(
        project,
        run.plans.stack.up_dispatch,
        seq![weights.up, normed, crate::dataflow::uniform(step.stage_words@[9])],
        0,
        m10[STACK_UP as int],
    );
    assert(m13 == m12.update(STACK_UP as int, up)) by {
        assert(m13 == crate::dataflow::carried_out(setup, commands[12], m12));
        crate::stack_flow::lemma_entry_offsets(seq![offsets.weights@[7]]);
        crate::dataflow::lemma_third_of_four(
            setup,
            pipelines.gemv_tiled,
            GROUP_GEMV_UP,
            run.plans.stack.up_dispatch,
            seq![offsets.weights@[7]],
            m12,
        );
    }
    let activation = (run.device)(
        run.sources.swiglu,
        run.plans.stack.swiglu_dispatch,
        seq![gate, up, crate::dataflow::uniform(step.stage_words@[10])],
        0,
        m10[STACK_ACTIVATION as int],
    );
    assert(m14 == m13.update(STACK_ACTIVATION as int, activation)) by {
        assert(m14 == crate::dataflow::carried_out(setup, commands[13], m13));
        crate::stack_flow::lemma_entry_offsets(Seq::<u64>::empty());
        crate::dataflow::lemma_third_of_four(
            setup,
            PIPELINE_SWIGLU,
            GROUP_SWIGLU,
            run.plans.stack.swiglu_dispatch,
            Seq::<u64>::empty(),
            m13,
        );
    }
    let down = (run.device)(
        project,
        run.plans.stack.down_dispatch,
        seq![weights.down, activation, crate::dataflow::uniform(step.stage_words@[11])],
        0,
        m10[STACK_DOWN_PROJECTION as int],
    );
    assert(m15 == m14.update(STACK_DOWN_PROJECTION as int, down)) by {
        assert(m15 == crate::dataflow::carried_out(setup, commands[14], m14));
        crate::stack_flow::lemma_entry_offsets(seq![offsets.weights@[8]]);
        crate::dataflow::lemma_third_of_four(
            setup,
            pipelines.gemv_tiled,
            GROUP_GEMV_DOWN,
            run.plans.stack.down_dispatch,
            seq![offsets.weights@[8]],
            m14,
        );
    }
    let made = (run.device)(
        run.sources.residual,
        run.plans.stack.second_residual_dispatch,
        seq![row, down, crate::dataflow::uniform(step.stage_words@[12])],
        0,
        spare,
    );
    assert(m16 == m15.update(
        STACK_HIDDEN_PINGPONG as int,
        crate::dataflow::patched(
            m15[STACK_HIDDEN_PINGPONG as int],
            offsets.pingpong_out as int,
            made,
        ),
    )) by {
        assert(m16 == crate::dataflow::carried_out(setup, commands[15], m15));
        crate::stack_flow::lemma_entry_offsets(seq![0u64, offsets.pingpong_out]);
        crate::dataflow::lemma_third_of_four(
            setup,
            PIPELINE_RESIDUAL,
            GROUP_RESIDUAL2,
            run.plans.stack.second_residual_dispatch,
            seq![0u64, offsets.pingpong_out],
            m15,
        );
    }
}

/// Whether a layer of a step stores into a buffer.
pub open spec fn layer_place(place: int) -> bool {
    attention_place(place) || feed_forward_place(place)
}

/// The passes of a layer of a step, on whatever memory, do what a decoder layer does: the row at
/// the one half of the hidden rows becomes the row at the other half, the caches of the layer get
/// the new token, and only the buffers of the stages change besides.
pub proof fn law_step_layer_runs_a_decoder_layer(
    run: StackRun,
    transition: KvStepPlan,
    step: StackStepPlan,
    offsets: LayerOffsets,
    memory: Memory,
)
    requires
        crate::dataflow::keeps_lengths(run.device),
        crate::device_laws::has_buffers(memory, crate::stack_flow::run_buffers(run)),
        crate::stack_laws::offsets_inside(run.plans, run.sizes, offsets),
        step_words_hold(memory, transition, step),
    ensures
        ({
            let commands = crate::stack_encode::step_layer_commands(
                run.plans,
                transition,
                offsets,
            );
            let now = crate::dataflow::after(
                crate::stack_flow::stack_setup(run),
                commands,
                memory,
                commands.len() as int,
            );
            let made = decoder_layer(
                run,
                transition,
                step,
                input_at(run, memory, offsets),
                memory,
                crate::dataflow::range(
                    memory[STACK_HIDDEN_PINGPONG as int],
                    offsets.pingpong_out as int,
                    run.sizes.hidden as int,
                ),
            );
            &&& crate::device_laws::has_buffers(now, crate::stack_flow::run_buffers(run))
            &&& now[STACK_HIDDEN_PINGPONG as int] == crate::dataflow::patched(
                memory[STACK_HIDDEN_PINGPONG as int],
                offsets.pingpong_out as int,
                made.row,
            )
            &&& now[STACK_KEY_CACHE as int] == crate::dataflow::patched(
                memory[STACK_KEY_CACHE as int],
                offsets.cache as int,
                made.keys,
            )
            &&& now[STACK_VALUE_CACHE as int] == crate::dataflow::patched(
                memory[STACK_VALUE_CACHE as int],
                offsets.cache as int,
                made.values,
            )
            &&& made.row.len() == run.sizes.hidden
            &&& made.keys.len() == run.plans.stack.cache_stride_bytes
            &&& made.values.len() == run.plans.stack.cache_stride_bytes
            &&& forall|place: int|
                0 <= place < memory.len() && !layer_place(place) ==> #[trigger] now[place]
                    == memory[place]
        }),
{
    let setup = crate::stack_flow::stack_setup(run);
    let commands = crate::stack_encode::step_layer_commands(run.plans, transition, offsets);
    let before = crate::dataflow::after(setup, commands, memory, 10);
    let now = crate::dataflow::after(setup, commands, memory, 16);
    lemma_step_sizes(run, memory);
    lemma_attention_half(run, transition, step, offsets, memory);
    assert(crate::device_laws::has_buffers(before, crate::stack_flow::run_buffers(run)));
    assert(step_words_hold(before, transition, step));
    lemma_feed_forward_half(run, transition, step, offsets, memory);
    assert(weights_at(run.plans.resources, before, offsets.weights) == weights_at(
        run.plans.resources,
        memory,
        offsets.weights,
    ));
    assert(crate::device_laws::has_buffers(now, crate::stack_flow::run_buffers(run)));
}

/// The cache of a layer.
pub open spec fn cache_slice(bytes: Seq<u8>, stride: u64, layer: int) -> Seq<u8> {
    crate::dataflow::range(bytes, stride * layer, stride as int)
}

/// What a layer of a step is given, when the row that reaches it is a given one.
pub open spec fn layer_input(
    run: StackRun,
    memory: Memory,
    row: Seq<u8>,
    layer: int,
) -> LayerInput {
    let stride = run.plans.stack.cache_stride_bytes;
    LayerInput {
        weights: layer_weights(run.plans.resources, memory, layer),
        cos: memory[STACK_ROPE_COS as int],
        sin: memory[STACK_ROPE_SIN as int],
        row,
        keys: cache_slice(memory[STACK_KEY_CACHE as int], stride, layer),
        values: cache_slice(memory[STACK_VALUE_CACHE as int], stride, layer),
    }
}

/// The row that reaches a layer of a step: the hidden row that the step is given, through all
/// layers before.
pub open spec fn row_into(
    run: StackRun,
    transition: KvStepPlan,
    step: StackStepPlan,
    hidden_row: Seq<u8>,
    memory: Memory,
    layer: int,
) -> Seq<u8>
    decreases layer,
{
    if layer <= 0 {
        hidden_row
    } else {
        decoder_layer(
            run,
            transition,
            step,
            layer_input(
                run,
                memory,
                row_into(run, transition, step, hidden_row, memory, layer - 1),
                layer - 1,
            ),
            memory,
            hidden_row,
        ).row
    }
}

/// What a layer of a step makes of the row that reaches it.
pub open spec fn layer_made(
    run: StackRun,
    transition: KvStepPlan,
    step: StackStepPlan,
    hidden_row: Seq<u8>,
    memory: Memory,
    layer: int,
) -> BlockOutput {
    decoder_layer(
        run,
        transition,
        step,
        layer_input(
            run,
            memory,
            row_into(run, transition, step, hidden_row, memory, layer),
            layer,
        ),
        memory,
        hidden_row,
    )
}

/// Whether what a layer of a step makes does not depend on what earlier work left in the buffers
/// of its stages.
pub open spec fn forgets_earlier_work(
    run: StackRun,
    transition: KvStepPlan,
    step: StackStepPlan,
) -> bool {
    forall|input: LayerInput, left: Memory, other: Memory, spare: Seq<u8>, another: Seq<u8>|
        #![trigger
            decoder_layer(run, transition, step, input, left, spare),
            decoder_layer(run, transition, step, input, other, another)]
        crate::device_laws::has_buffers(left, crate::stack_flow::run_buffers(run))
            && crate::device_laws::has_buffers(other, crate::stack_flow::run_buffers(run))
            && input.row.len() == run.sizes.hidden && spare.len() == run.sizes.hidden
            && another.len() == run.sizes.hidden ==> decoder_layer(
            run,
            transition,
            step,
            input,
            left,
            spare,
        ) == decoder_layer(run, transition, step, input, other, another)
}

/// Whether a step stores into a buffer or writes its uniform words there.
pub open spec fn step_place(place: int) -> bool {
    ||| layer_place(place)
    ||| STACK_RMS_UNIFORM <= place <= STACK_SPLIT_MERGE_UNIFORM
}

/// What the memory of a session holds when some layers of a step are done.
spec fn layers_done(
    run: StackRun,
    transition: KvStepPlan,
    step: StackStepPlan,
    hidden_row: Seq<u8>,
    memory: Memory,
    layer: int,
    now: Memory,
) -> bool {
    let stride = run.plans.stack.cache_stride_bytes;
    &&& crate::device_laws::has_buffers(now, crate::stack_flow::run_buffers(run))
    &&& step_words_hold(now, transition, step)
    &&& row_into(run, transition, step, hidden_row, memory, layer).len() == run.sizes.hidden
    &&& crate::dataflow::range(
        now[STACK_HIDDEN_PINGPONG as int],
        run.sizes.hidden * (layer % 2),
        run.sizes.hidden as int,
    ) == row_into(run, transition, step, hidden_row, memory, layer)
    &&& forall|k: int|
        0 <= k < run.plans.stack.layers ==> #[trigger] cache_slice(
            now[STACK_KEY_CACHE as int],
            stride,
            k,
        ) == (if k < layer {
            layer_made(run, transition, step, hidden_row, memory, k).keys
        } else {
            cache_slice(memory[STACK_KEY_CACHE as int], stride, k)
        })
    &&& forall|k: int|
        0 <= k < run.plans.stack.layers ==> #[trigger] cache_slice(
            now[STACK_VALUE_CACHE as int],
            stride,
            k,
        ) == (if k < layer {
            layer_made(run, transition, step, hidden_row, memory, k).values
        } else {
            cache_slice(memory[STACK_VALUE_CACHE as int], stride, k)
        })
    &&& forall|place: int|
        0 <= place < memory.len() && !step_place(place) ==> #[trigger] now[place]
            == memory[place]
}

/// A slice of a cache of which the slice of one layer is replaced.
pub proof fn lemma_other_slices(bytes: Seq<u8>, stride: u64, layers: int, layer: int, part: Seq<u8>)
    requires
        0 <= layer < layers,
        bytes.len() == layers * stride,
        part.len() == stride,
    ensures
        forall|k: int|
            0 <= k < layers ==> #[trigger] cache_slice(
                crate::dataflow::patched(bytes, stride * layer, part),
                stride,
                k,
            ) == (if k == layer {
                part
            } else {
                cache_slice(bytes, stride, k)
            }),
{
    let width = stride as int;
    assert(0 <= width * layer && width * layer + width <= layers * width) by (nonlinear_arith)
        requires
            0 <= layer < layers,
            0 <= width,
    ;
    crate::dataflow::lemma_patched_range(bytes, width * layer, part);
    assert forall|k: int| 0 <= k < layers implies #[trigger] cache_slice(
        crate::dataflow::patched(bytes, stride * layer, part),
        stride,
        k,
    ) == (if k == layer {
        part
    } else {
        cache_slice(bytes, stride, k)
    }) by {
        assert(0 <= width * k && width * k + width <= layers * width) by (nonlinear_arith)
            requires
                0 <= k < layers,
                0 <= width,
        ;
        assert(k < layer ==> width * k + width <= width * layer) by (nonlinear_arith)
            requires
                0 <= width,
        ;
        assert(layer < k ==> width * layer + width <= width * k) by (nonlinear_arith)
            requires
                0 <= width,
        ;
    }
}

/// One layer more is done.
#[verifier::rlimit(40)]
#[verifier::spinoff_prover]
proof fn lemma_layer_done(
    run: StackRun,
    transition: KvStepPlan,
    step: StackStepPlan,
    hidden_row: Seq<u8>,
    memory: Memory,
    layer: int,
    offsets: LayerOffsets,
    before: Memory,
)
    requires
        crate::dataflow::keeps_lengths(run.device),
        crate::stack_laws::well_placed(run.plans, run.sizes),
        crate::device_laws::has_buffers(memory, crate::stack_flow::run_buffers(run)),
        forgets_earlier_work(run, transition, step),
        hidden_row.len() == run.sizes.hidden,
        0 <= layer < run.plans.stack.layers,
        crate::stack_encode::layer_offsets_outcome(
            run.plans.resources,
            run.plans.stack.hidden_stride_bytes,
            run.plans.stack.cache_stride_bytes,
            layer,
        ) == Ok::<LayerOffsets, Seq<char>>(offsets),
        layers_done(run, transition, step, hidden_row, memory, layer, before),
    ensures
        ({
            let commands = crate::stack_encode::step_layer_commands(
                run.plans,
                transition,
                offsets,
            );
            let now = crate::dataflow::after(
                crate::stack_flow::stack_setup(run),
                commands,
                before,
                commands.len() as int,
            );
            layers_done(run, transition, step, hidden_row, memory, layer + 1, now)
        }),
{
    let commands = crate::stack_encode::step_layer_commands(run.plans, transition, offsets);
    let now = crate::dataflow::after(
        crate::stack_flow::stack_setup(run),
        commands,
        before,
        commands.len() as int,
    );
    let stride = run.plans.stack.cache_stride_bytes;
    let hidden = run.sizes.hidden as int;
    crate::stack_laws::law_layer_offsets_fit(run.plans, run.sizes, layer);
    lemma_step_sizes(run, memory);
    lemma_step_sizes(run, before);
    law_step_layer_runs_a_decoder_layer(run, transition, step, offsets, before);
    assert(hidden * 0 == 0 && hidden * 1 == hidden);
    assert(layer % 2 == 0 && (layer + 1) % 2 == 1 || layer % 2 == 1 && (layer + 1) % 2 == 0);
    let row = row_into(run, transition, step, hidden_row, memory, layer);
    let input = layer_input(run, memory, row, layer);
    assert(stride * layer <= u64::MAX);
    assert(cache_slice(before[STACK_KEY_CACHE as int], stride, layer) == input.keys);
    assert(cache_slice(before[STACK_VALUE_CACHE as int], stride, layer) == input.values);
    assert(input_at(run, before, offsets).weights == input.weights);
    assert(input_at(run, before, offsets) == input);
    let spare = crate::dataflow::range(
        before[STACK_HIDDEN_PINGPONG as int],
        offsets.pingpong_out as int,
        hidden,
    );
    let made = decoder_layer(run, transition, step, input, before, spare);
    assert(made == decoder_layer(run, transition, step, input, memory, hidden_row));
    assert(made == layer_made(run, transition, step, hidden_row, memory, layer));
    assert(made.row == row_into(run, transition, step, hidden_row, memory, layer + 1));
    crate::dataflow::lemma_patched_range(
        before[STACK_HIDDEN_PINGPONG as int],
        offsets.pingpong_out as int,
        made.row,
    );
    lemma_other_slices(
        before[STACK_KEY_CACHE as int],
        stride,
        run.plans.stack.layers as int,
        layer,
        made.keys,
    );
    lemma_other_slices(
        before[STACK_VALUE_CACHE as int],
        stride,
        run.plans.stack.layers as int,
        layer,
        made.values,
    );
    assert(step_words_hold(now, transition, step));
}

/// All layers from one on are done.
proof fn lemma_layers_from(
    run: StackRun,
    transition: KvStepPlan,
    step: StackStepPlan,
    hidden_row: Seq<u8>,
    memory: Memory,
    start: Memory,
    layer: int,
    made: Seq<CommandModel>,
)
    requires
        crate::dataflow::keeps_lengths(run.device),
        crate::stack_laws::well_placed(run.plans, run.sizes),
        crate::device_laws::has_buffers(memory, crate::stack_flow::run_buffers(run)),
        forgets_earlier_work(run, transition, step),
        hidden_row.len() == run.sizes.hidden,
        0 <= layer <= run.plans.stack.layers,
        layers_done(
            run,
            transition,
            step,
            hidden_row,
            memory,
            layer,
            crate::dataflow::after(
                crate::stack_flow::stack_setup(run),
                made,
                start,
                made.len() as int,
            ),
        ),
    ensures
        ({
            let outcome = crate::stack_encode::step_commands_from(
                run.plans,
                transition,
                layer,
                made,
            );
            &&& outcome is Ok
            &&& layers_done(
                run,
                transition,
                step,
                hidden_row,
                memory,
                run.plans.stack.layers as int,
                crate::dataflow::after(
                    crate::stack_flow::stack_setup(run),
                    outcome->Ok_0,
                    start,
                    outcome->Ok_0.len() as int,
                ),
            )
        }),
    decreases run.plans.stack.layers - layer,
{
    if layer < run.plans.stack.layers {
        crate::stack_laws::law_layer_offsets_fit(run.plans, run.sizes, layer);
        let offsets = crate::stack_encode::layer_offsets_outcome(
            run.plans.resources,
            run.plans.stack.hidden_stride_bytes,
            run.plans.stack.cache_stride_bytes,
            layer,
        )->Ok_0;
        let setup = crate::stack_flow::stack_setup(run);
        let added = crate::stack_encode::step_layer_commands(run.plans, transition, offsets);
        let before = crate::dataflow::after(setup, made, start, made.len() as int);
        lemma_layer_done(
            run,
            transition,
            step,
            hidden_row,
            memory,
            layer,
            offsets,
            before,
        );
        crate::dataflow::lemma_after_both(setup, made, added, start, added.len() as int);
        lemma_layers_from(
            run,
            transition,
            step,
            hidden_row,
            memory,
            start,
            layer + 1,
            made + added,
        );
    }
}

/// What the writes of a step leave behind.
proof fn lemma_step_written(
    run: StackRun,
    transition: KvStepPlan,
    step: StackStepPlan,
    hidden_row: Seq<u8>,
    memory: Memory,
)
    requires
        crate::device_laws::has_buffers(memory, crate::stack_flow::run_buffers(run)),
        hidden_row.len() == run.sizes.hidden,
        run.sizes.pingpong == run.sizes.hidden * 2,
    ensures
        ({
            let writes = crate::stack_encode::stack_step_writes(transition, step, hidden_row);
            let now = crate::dataflow::written(writes, memory, writes.len() as int);
            &&& crate::device_laws::has_buffers(now, crate::stack_flow::run_buffers(run))
            &&& step_words_hold(now, transition, step)
            &&& crate::dataflow::range(
                now[STACK_HIDDEN_PINGPONG as int],
                0,
                run.sizes.hidden as int,
            ) == hidden_row
            &&& forall|place: int|
                0 <= place < memory.len() && place != STACK_HIDDEN_PINGPONG && !(
                STACK_RMS_UNIFORM <= place <= STACK_SPLIT_MERGE_UNIFORM) ==> #[trigger] now[place]
                    == memory[place]
        }),
{
    let writes = crate::stack_encode::stack_step_writes(transition, step, hidden_row);
    crate::dataflow::lemma_whole();
    lemma_step_sizes(run, memory);
    assert(writes.len() == 17);
    assert forall|i: int, j: int| 0 <= i < j < writes.len() implies (#[trigger] writes[i]).buffer
        != (#[trigger] writes[j]).buffer by {
    }
    crate::dataflow::lemma_written(writes, memory, 17);
    let now = crate::dataflow::written(writes, memory, 17);
    assert(now[writes[0].buffer as int] == crate::dataflow::patched(
        memory[STACK_HIDDEN_PINGPONG as int],
        0,
        hidden_row,
    ));
    assert(now[writes[1].buffer as int] == crate::dataflow::uniform(step.stage_words@[0]));
    assert(now[writes[2].buffer as int] == crate::dataflow::uniform(step.stage_words@[1]));
    assert(now[writes[3].buffer as int] == crate::dataflow::uniform(step.stage_words@[2]));
    assert(now[writes[4].buffer as int] == crate::dataflow::uniform(step.stage_words@[3]));
    assert(now[writes[5].buffer as int] == crate::dataflow::uniform(step.stage_words@[4]));
    assert(now[writes[6].buffer as int] == crate::dataflow::uniform(step.stage_words@[5]));
    assert(now[writes[7].buffer as int] == crate::dataflow::uniform(step.stage_words@[6]));
    assert(now[writes[8].buffer as int] == crate::dataflow::uniform(step.stage_words@[7]));
    assert(now[writes[9].buffer as int] == crate::dataflow::uniform(step.stage_words@[8]));
    assert(now[writes[10].buffer as int] == crate::dataflow::uniform(step.stage_words@[9]));
    assert(now[writes[11].buffer as int] == crate::dataflow::uniform(step.stage_words@[10]));
    assert(now[writes[12].buffer as int] == crate::dataflow::uniform(step.stage_words@[11]));
    assert(now[writes[13].buffer as int] == crate::dataflow::uniform(step.stage_words@[12]));
    assert(now[writes[14].buffer as int] == crate::dataflow::uniform(transition.append_words));
    assert(now[writes[15].buffer as int] == crate::dataflow::uniform(transition.split_words@[0]));
    assert(now[writes[16].buffer as int] == crate::dataflow::uniform(transition.split_words@[1]));
    crate::dataflow::lemma_patched_range(memory[STACK_HIDDEN_PINGPONG as int], 0, hidden_row);
}

/// What a session has in its memory after a step.
pub open spec fn after_step(
    run: StackRun,
    transition: KvStepPlan,
    step: StackStepPlan,
    hidden_row: Seq<u8>,
    memory: Memory,
) -> Memory {
    crate::dataflow::performed(
        crate::stack_flow::stack_setup(run),
        crate::stack_encode::stack_step_writes(transition, step, hidden_row),
        crate::stack_encode::stack_step_outcome(run.plans, transition)->Ok_0,
        memory,
    )
}

/// A step sends its hidden row through all layers, in order, each with its own weights and
/// caches, and appends one token to the caches of every layer. In a stack with an even number of
/// layers, the row that comes out of the last one is what is read back, and what lies at the
/// start of the hidden rows.
pub proof fn law_step_runs_all_layers(
    run: StackRun,
    transition: KvStepPlan,
    step: StackStepPlan,
    hidden_row: Seq<u8>,
    memory: Memory,
)
    requires
        crate::dataflow::keeps_lengths(run.device),
        crate::stack_laws::well_placed(run.plans, run.sizes),
        crate::device_laws::has_buffers(memory, crate::stack_flow::run_buffers(run)),
        forgets_earlier_work(run, transition, step),
        hidden_row.len() == run.sizes.hidden,
    ensures
        ({
            let outcome = crate::stack_encode::stack_step_outcome(run.plans, transition);
            let now = after_step(run, transition, step, hidden_row, memory);
            let stride = run.plans.stack.cache_stride_bytes;
            let layers = run.plans.stack.layers as int;
            let row = row_into(run, transition, step, hidden_row, memory, layers);
            &&& outcome is Ok
            &&& crate::device_laws::has_buffers(now, crate::stack_flow::run_buffers(run))
            &&& layers % 2 == 0 ==> now[STACK_STACK_READBACK as int] == row
            &&& layers % 2 == 0 ==> crate::dataflow::range(
                now[STACK_HIDDEN_PINGPONG as int],
                0,
                run.sizes.hidden as int,
            ) == row
            &&& forall|layer: int|
                0 <= layer < layers ==> #[trigger] cache_slice(
                    now[STACK_KEY_CACHE as int],
                    stride,
                    layer,
                ) == layer_made(run, transition, step, hidden_row, memory, layer).keys
            &&& forall|layer: int|
                0 <= layer < layers ==> #[trigger] cache_slice(
                    now[STACK_VALUE_CACHE as int],
                    stride,
                    layer,
                ) == layer_made(run, transition, step, hidden_row, memory, layer).values
            &&& forall|place: int|
                0 <= place < memory.len() && !step_place(place) && place != STACK_STACK_READBACK
                    ==> #[trigger] now[place] == memory[place]
        }),
{
    let setup = crate::stack_flow::stack_setup(run);
    let writes = crate::stack_encode::stack_step_writes(transition, step, hidden_row);
    let start = crate::dataflow::written(writes, memory, writes.len() as int);
    lemma_step_sizes(run, memory);
    lemma_step_written(run, transition, step, hidden_row, memory);
    assert(run.sizes.hidden * 0 == 0);
    let none = Seq::<CommandModel>::empty();
    assert(crate::dataflow::after(setup, none, start, 0) == start);
    assert(layers_done(run, transition, step, hidden_row, memory, 0, start));
    lemma_layers_from(run, transition, step, hidden_row, memory, start, 0, none);
    let passes = crate::stack_encode::step_commands_from(run.plans, transition, 0, none)->Ok_0;
    let commands = crate::stack_encode::stack_step_outcome(run.plans, transition)->Ok_0;
    let copied = seq![commands.last()];
    assert(commands =~= passes + copied);
    crate::dataflow::lemma_after_both(setup, passes, copied, start, 1);
    let before = crate::dataflow::after(setup, passes, start, passes.len() as int);
    lemma_step_sizes(run, before);
    crate::dataflow::lemma_whole();
    reveal_with_fuel(crate::dataflow::after, 2);
    let now = after_step(run, transition, step, hidden_row, memory);
    assert(now == crate::dataflow::carried_out(setup, copied[0], before));
}

/// The token that a layer of a step appends to its caches.
pub open spec fn layer_token(
    run: StackRun,
    transition: KvStepPlan,
    step: StackStepPlan,
    hidden_row: Seq<u8>,
    memory: Memory,
    layer: int,
) -> Token {
    token_of(
        run,
        step,
        layer_input(
            run,
            memory,
            row_into(run, transition, step, hidden_row, memory, layer),
            layer,
        ),
        memory,
    )
}

/// With an append kernel that puts rows where the step wants them, the caches of every layer hold
/// the turned key and the value of the step as the row behind the tokens that were there, and
/// every other row as it was. The attention of the layer reads the caches with that row in them.
pub proof fn law_step_attends_over_its_token(
    run: StackRun,
    transition: KvStepPlan,
    step: StackStepPlan,
    hidden_row: Seq<u8>,
    memory: Memory,
    layer: int,
    row: int,
)
    requires
        crate::dataflow::keeps_lengths(run.device),
        crate::stack_laws::well_placed(run.plans, run.sizes),
        crate::device_laws::has_buffers(memory, crate::stack_flow::run_buffers(run)),
        forgets_earlier_work(run, transition, step),
        hidden_row.len() == run.sizes.hidden,
        0 <= layer < run.plans.stack.layers,
        run.plans.stack.cache_stride_bytes == run.plans.kv.cache_capacity * run.sizes.key_value,
        transition.cache_tokens_before < run.plans.kv.cache_capacity,
        0 <= row < run.plans.kv.cache_capacity,
        crate::kv_flow::appends_at(
            run.device,
            run.sources.append,
            run.plans.kv.append_dispatch,
            transition.append_words,
            transition.cache_tokens_before * run.sizes.key_value,
        ),
    ensures
        ({
            let now = after_step(run, transition, step, hidden_row, memory);
            let stride = run.plans.stack.cache_stride_bytes;
            let width = run.sizes.key_value as int;
            let token = layer_token(run, transition, step, hidden_row, memory, layer);
            let made = layer_made(run, transition, step, hidden_row, memory, layer);
            let key_row = |bytes: Seq<u8>|
                crate::dataflow::range(
                    cache_slice(bytes, stride, layer),
                    row * width,
                    width,
                );
            &&& key_row(now[STACK_KEY_CACHE as int]) == (if row == transition.cache_tokens_before {
                token.key
            } else {
                key_row(memory[STACK_KEY_CACHE as int])
            })
            &&& key_row(now[STACK_VALUE_CACHE as int]) == (if row
                == transition.cache_tokens_before {
                token.value
            } else {
                key_row(memory[STACK_VALUE_CACHE as int])
            })
            &&& cache_slice(now[STACK_KEY_CACHE as int], stride, layer) == made.keys
            &&& cache_slice(now[STACK_VALUE_CACHE as int], stride, layer) == made.values
        }),
{
    law_step_runs_all_layers(run, transition, step, hidden_row, memory);
    lemma_step_sizes(run, memory);
    let stride = run.plans.stack.cache_stride_bytes;
    let width = run.sizes.key_value as int;
    let before = transition.cache_tokens_before as int;
    let capacity = run.plans.kv.cache_capacity as int;
    let layers = run.plans.stack.layers as int;
    let place = before * width;
    let token = layer_token(run, transition, step, hidden_row, memory, layer);
    assert(0 <= place && place + width <= stride) by (nonlinear_arith)
        requires
            place == before * width,
            0 <= before < capacity,
            0 <= width,
            stride == capacity * width,
    ;
    assert(0 <= row * width && row * width + width <= stride) by (nonlinear_arith)
        requires
            0 <= row < capacity,
            0 <= width,
            stride == capacity * width,
    ;
    assert(row < before ==> row * width + width <= place) by (nonlinear_arith)
        requires
            place == before * width,
            0 <= width,
    ;
    assert(before < row ==> place + width <= row * width) by (nonlinear_arith)
        requires
            place == before * width,
            0 <= width,
    ;
    assert(0 <= stride * layer && stride * layer + stride <= layers * stride) by (nonlinear_arith)
        requires
            0 <= layer < layers,
            0 <= stride,
    ;
    let keys = cache_slice(memory[STACK_KEY_CACHE as int], stride, layer);
    let values = cache_slice(memory[STACK_VALUE_CACHE as int], stride, layer);
    let now = after_step(run, transition, step, hidden_row, memory);
    assert(cache_slice(now[STACK_KEY_CACHE as int], stride, layer) == crate::dataflow::patched(
        keys,
        place,
        token.key,
    ));
    assert(cache_slice(now[STACK_VALUE_CACHE as int], stride, layer) == crate::dataflow::patched(
        values,
        place,
        token.value,
    ));
    crate::dataflow::lemma_patched_range(keys, place, token.key);
    crate::dataflow::lemma_patched_range(values, place, token.value);
}

/// A finish brings back each cache in the readback that is made for it.
pub proof fn law_stack_finish_brings_back_both_caches(run: StackRun, memory: Memory)
    requires
        crate::device_laws::has_buffers(memory, crate::stack_flow::run_buffers(run)),
    ensures
        ({
            let now = crate::dataflow::performed(
                crate::stack_flow::stack_setup(run),
                Seq::empty(),
                crate::stack_encode::stack_finish_commands(run.sizes.cache),
                memory,
            );
            &&& now[STACK_FINISH_KEY_READBACK as int] == memory[STACK_KEY_CACHE as int]
            &&& now[STACK_FINISH_VALUE_READBACK as int] == memory[STACK_VALUE_CACHE as int]
        }),
{
    let buffers = crate::stack_flow::run_buffers(run);
    assert(buffers[STACK_FINISH_KEY_READBACK as int].size == run.sizes.cache);
    assert(buffers[STACK_FINISH_VALUE_READBACK as int].size == run.sizes.cache);
    reveal_with_fuel(crate::dataflow::after, 3);
    reveal_with_fuel(crate::dataflow::written, 1);
    lemma_step_sizes(run, memory);
    crate::dataflow::lemma_whole();
}

/// What a step hands back is the row that comes out of the last layer, in a stack with an even
/// number of layers; what a finish hands back is the key cache and then the value cache.
pub proof fn law_stack_operations_hand_back_their_results(
    run: StackRun,
    transition: KvStepPlan,
    step: StackStepPlan,
    hidden_row: Seq<u8>,
    memory: Memory,
)
    requires
        crate::dataflow::keeps_lengths(run.device),
        crate::stack_laws::well_placed(run.plans, run.sizes),
        crate::device_laws::has_buffers(memory, crate::stack_flow::run_buffers(run)),
        forgets_earlier_work(run, transition, step),
        hidden_row.len() == run.sizes.hidden,
        run.plans.stack.layers % 2 == 0,
    ensures
        ({
            let stepped = after_step(run, transition, step, hidden_row, memory);
            let finished = crate::dataflow::performed(
                crate::stack_flow::stack_setup(run),
                Seq::empty(),
                crate::stack_encode::stack_finish_commands(run.sizes.cache),
                memory,
            );
            let row = crate::readback::stack_readbacks(run.plans, Operation::Step)->Ok_0;
            let caches = crate::readback::stack_readbacks(run.plans, Operation::Finish)->Ok_0;
            &&& crate::dataflow::brought_back(stepped, row) == seq![
                row_into(
                    run,
                    transition,
                    step,
                    hidden_row,
                    memory,
                    run.plans.stack.layers as int,
                ),
            ]
            &&& crate::dataflow::brought_back(finished, caches) == seq![
                memory[STACK_KEY_CACHE as int],
                memory[STACK_VALUE_CACHE as int],
            ]
        }),
{
    law_step_runs_all_layers(run, transition, step, hidden_row, memory);
    law_stack_finish_brings_back_both_caches(run, memory);
    lemma_step_sizes(run, memory);
    lemma_step_sizes(run, after_step(run, transition, step, hidden_row, memory));
    crate::dataflow::lemma_whole();
}

} // verus!
