//! What the work of an attention-block session does to the bytes on a device.

use crate::dataflow::{Device, Setup};
use crate::device_laws::Memory;
use crate::gpu::{BufferPlan, CommandModel, WriteModel};
use crate::kv::{KvPlan, KvStepPlan};
use crate::layer::{
    AttentionPlan, AttentionStepPlan, LayerSizes, LAYER_APPEND_UNIFORM, LAYER_ATTENTION_OUTPUT,
    LAYER_ATTENTION_RESIDUAL, LAYER_ATTENTION_UNIFORM, LAYER_FINISH_KEY_READBACK,
    LAYER_FINISH_VALUE_READBACK, LAYER_GEMV_K_UNIFORM, LAYER_GEMV_O_UNIFORM, LAYER_GEMV_Q_UNIFORM,
    LAYER_GEMV_V_UNIFORM, LAYER_GROUP_APPEND, LAYER_GROUP_ATTENTION, LAYER_GROUP_GEMV_K,
    LAYER_GROUP_GEMV_O, LAYER_GROUP_GEMV_Q, LAYER_GROUP_GEMV_V, LAYER_GROUP_MROPE,
    LAYER_GROUP_RESIDUAL, LAYER_GROUP_RMS, LAYER_HIDDEN_TOKEN, LAYER_KEY_CACHE,
    LAYER_K_PROJECTION, LAYER_K_WEIGHT, LAYER_LAYER_READBACK, LAYER_MROPE_KEY, LAYER_MROPE_QUERY,
    LAYER_MROPE_UNIFORM, LAYER_NORM1, LAYER_NORM1_WEIGHT, LAYER_O_PROJECTION, LAYER_O_WEIGHT,
    LAYER_PIPELINE_APPEND, LAYER_PIPELINE_ATTENTION, LAYER_PIPELINE_GEMV, LAYER_PIPELINE_MROPE,
    LAYER_PIPELINE_RESIDUAL, LAYER_PIPELINE_RMS_NORM, LAYER_Q_PROJECTION, LAYER_Q_WEIGHT,
    LAYER_RESIDUAL_UNIFORM, LAYER_RMS_UNIFORM, LAYER_ROPE_COS, LAYER_ROPE_SIN, LAYER_VALUE_CACHE,
    LAYER_V_PROJECTION, LAYER_V_WEIGHT,
};
use crate::layer_report::LayerSourcesModel;
use crate::lifecycle::Operation;
use crate::stack_resources::{
    LayoutEntry, LAYOUT_APPEND, LAYOUT_ATTENTION, LAYOUT_GEMV, LAYOUT_MROPE, LAYOUT_RESIDUAL,
    LAYOUT_RMS,
};
use vstd::prelude::*;

verus! {

/// The bindings of the kernels of a session.
pub open spec fn layer_entries(pipeline: usize) -> Seq<LayoutEntry> {
    crate::dataflow::derived_entries(
        crate::stack_resources::layout_entries(
            if pipeline == LAYER_PIPELINE_RMS_NORM {
                LAYOUT_RMS
            } else if pipeline == LAYER_PIPELINE_GEMV {
                LAYOUT_GEMV
            } else if pipeline == LAYER_PIPELINE_MROPE {
                LAYOUT_MROPE
            } else if pipeline == LAYER_PIPELINE_APPEND {
                LAYOUT_APPEND
            } else if pipeline == LAYER_PIPELINE_ATTENTION {
                LAYOUT_ATTENTION
            } else {
                LAYOUT_RESIDUAL
            },
        ),
    )
}

/// What the passes of a session run on.
pub open spec fn layer_setup(
    device: Device,
    sources: LayerSourcesModel,
    kv_plan: KvPlan,
    sizes: LayerSizes,
) -> Setup {
    Setup {
        device,
        shaders: |pipeline: usize|
            crate::dataflow::derived_source(crate::layer::layer_pipelines(sources), pipeline),
        layouts: |pipeline: usize| layer_entries(pipeline),
        groups: crate::layer::layer_bind_groups(kv_plan, sizes),
    }
}

/// What a session has in its memory after a step.
pub open spec fn after_layer_step(
    device: Device,
    sources: LayerSourcesModel,
    kv_plan: KvPlan,
    plan: AttentionPlan,
    transition: KvStepPlan,
    step: AttentionStepPlan,
    hidden_row: Seq<u8>,
    memory: Memory,
) -> Memory {
    let sizes = crate::layer::layer_sizes_outcome(plan)->Ok_0;
    crate::dataflow::performed(
        layer_setup(device, sources, kv_plan, sizes),
        crate::layer::layer_step_writes(transition, step, hidden_row),
        crate::layer::layer_step_commands(kv_plan, plan, (plan.hidden_size * 4) as u64),
        memory,
    )
}

/// A new session starts with each cache filled with its own bytes, and every weight buffer with
/// the section of the pack that is named after that weight.
pub proof fn law_layer_weights_are_where_they_belong(
    kv_plan: KvPlan,
    sizes: LayerSizes,
    key_cache: Seq<u8>,
    value_cache: Seq<u8>,
    shards: Seq<Seq<u8>>,
    memory: Memory,
)
    requires
        crate::device_laws::has_buffers(memory, crate::layer::layer_all_buffers(kv_plan, sizes)),
        key_cache.len() == kv_plan.cache_bytes,
        value_cache.len() == kv_plan.cache_bytes,
        shards.len() == 7,
        shards[0].len() == sizes.hidden,
        shards[1].len() == sizes.q_weight,
        shards[2].len() == sizes.key_value_weight,
        shards[3].len() == sizes.key_value_weight,
        shards[4].len() == sizes.o_weight,
        shards[5].len() == sizes.rope,
        shards[6].len() == sizes.rope,
    ensures
        ({
            let writes = crate::layer::layer_uploads(key_cache, value_cache, shards);
            let now = crate::dataflow::written(writes, memory, writes.len() as int);
            let names = crate::weight_pack::layer_sections();
            &&& now[LAYER_KEY_CACHE as int] == key_cache
            &&& now[LAYER_VALUE_CACHE as int] == value_cache
            &&& crate::dataflow::holds_section(
                now[LAYER_NORM1_WEIGHT as int],
                names,
                shards,
                "weights.input_layernorm"@,
            )
            &&& crate::dataflow::holds_section(
                now[LAYER_Q_WEIGHT as int],
                names,
                shards,
                "weights.q_proj"@,
            )
            &&& crate::dataflow::holds_section(
                now[LAYER_K_WEIGHT as int],
                names,
                shards,
                "weights.k_proj"@,
            )
            &&& crate::dataflow::holds_section(
                now[LAYER_V_WEIGHT as int],
                names,
                shards,
                "weights.v_proj"@,
            )
            &&& crate::dataflow::holds_section(
                now[LAYER_O_WEIGHT as int],
                names,
                shards,
                "weights.o_proj"@,
            )
            &&& crate::dataflow::holds_section(
                now[LAYER_ROPE_COS as int],
                names,
                shards,
                "weights.mrope_cos"@,
            )
            &&& crate::dataflow::holds_section(
                now[LAYER_ROPE_SIN as int],
                names,
                shards,
                "weights.mrope_sin"@,
            )
            &&& crate::device_laws::has_buffers(
                now,
                crate::layer::layer_all_buffers(kv_plan, sizes),
            )
        }),
{
    let writes = crate::layer::layer_uploads(key_cache, value_cache, shards);
    let names = crate::weight_pack::layer_sections();
    crate::dataflow::lemma_whole();
    crate::dataflow::lemma_written(writes, memory, 9);
    let now = crate::dataflow::written(writes, memory, 9);
    assert(now[writes[0].buffer as int] == key_cache);
    assert(now[writes[1].buffer as int] == value_cache);
    assert(now[writes[2].buffer as int] == shards[0]);
    assert(now[writes[3].buffer as int] == shards[1]);
    assert(now[writes[4].buffer as int] == shards[2]);
    assert(now[writes[5].buffer as int] == shards[3]);
    assert(now[writes[6].buffer as int] == shards[4]);
    assert(now[writes[7].buffer as int] == shards[5]);
    assert(now[writes[8].buffer as int] == shards[6]);
}

/// What an attention block makes of a hidden row.
pub struct BlockOutput {
    pub keys: Seq<u8>,
    pub values: Seq<u8>,
    pub row: Seq<u8>,
}

/// What an attention block makes of a hidden row: the row is normed, projected to a query, a key
/// and a value; query and key are turned by the rotary tables; key and value are appended to the
/// caches; the query attends over the caches; the result is projected and added to the row.
/// `left` is what the buffers of the stages hold before they are stored into.
pub open spec fn block_output(
    device: Device,
    sources: LayerSourcesModel,
    kv_plan: KvPlan,
    plan: AttentionPlan,
    transition: KvStepPlan,
    step: AttentionStepPlan,
    hidden_row: Seq<u8>,
    left: Memory,
) -> BlockOutput {
    let words = step.stage_words@;
    let normed = device(
        sources.rms_norm,
        plan.rms_norm_dispatch,
        seq![
            hidden_row,
            left[LAYER_NORM1_WEIGHT as int],
            crate::dataflow::uniform(words[0]),
        ],
        0,
        left[LAYER_NORM1 as int],
    );
    let query = device(
        sources.gemv,
        plan.query_dispatch,
        seq![left[LAYER_Q_WEIGHT as int], normed, crate::dataflow::uniform(words[1])],
        0,
        left[LAYER_Q_PROJECTION as int],
    );
    let key = device(
        sources.gemv,
        plan.key_dispatch,
        seq![left[LAYER_K_WEIGHT as int], normed, crate::dataflow::uniform(words[2])],
        0,
        left[LAYER_K_PROJECTION as int],
    );
    let value = device(
        sources.gemv,
        plan.value_dispatch,
        seq![left[LAYER_V_WEIGHT as int], normed, crate::dataflow::uniform(words[3])],
        0,
        left[LAYER_V_PROJECTION as int],
    );
    let unturned = seq![
        query,
        key,
        left[LAYER_ROPE_COS as int],
        left[LAYER_ROPE_SIN as int],
        crate::dataflow::uniform(words[4]),
    ];
    let turned_query = device(
        sources.mrope,
        plan.mrope_dispatch,
        unturned,
        0,
        left[LAYER_MROPE_QUERY as int],
    );
    let turned_key = device(
        sources.mrope,
        plan.mrope_dispatch,
        unturned,
        1,
        left[LAYER_MROPE_KEY as int],
    );
    let token = seq![turned_key, value, crate::dataflow::uniform(transition.append_words)];
    let keys = device(
        sources.append,
        kv_plan.append_dispatch,
        token,
        0,
        left[LAYER_KEY_CACHE as int],
    );
    let values = device(
        sources.append,
        kv_plan.append_dispatch,
        token,
        1,
        left[LAYER_VALUE_CACHE as int],
    );
    let attended = device(
        sources.attention,
        kv_plan.attention_dispatch,
        seq![turned_query, keys, values, crate::dataflow::uniform(transition.attention_words)],
        0,
        left[LAYER_ATTENTION_OUTPUT as int],
    );
    let output = device(
        sources.gemv,
        plan.output_dispatch,
        seq![left[LAYER_O_WEIGHT as int], attended, crate::dataflow::uniform(words[5])],
        0,
        left[LAYER_O_PROJECTION as int],
    );
    let row = device(
        sources.residual,
        plan.residual_dispatch,
        seq![hidden_row, output, crate::dataflow::uniform(words[6])],
        0,
        left[LAYER_ATTENTION_RESIDUAL as int],
    );
    BlockOutput { keys, values, row }
}

proof fn lemma_layer_written(
    kv_plan: KvPlan,
    sizes: LayerSizes,
    transition: KvStepPlan,
    step: AttentionStepPlan,
    hidden_row: Seq<u8>,
    memory: Memory,
)
    requires
        crate::device_laws::has_buffers(memory, crate::layer::layer_all_buffers(kv_plan, sizes)),
        hidden_row.len() == sizes.hidden,
    ensures
        ({
            let writes = crate::layer::layer_step_writes(transition, step, hidden_row);
            let now = crate::dataflow::written(writes, memory, writes.len() as int);
            let words = step.stage_words@;
            &&& now.len() == memory.len()
            &&& now[LAYER_HIDDEN_TOKEN as int] == hidden_row
            &&& now[LAYER_RMS_UNIFORM as int] == crate::dataflow::uniform(words[0])
            &&& now[LAYER_GEMV_Q_UNIFORM as int] == crate::dataflow::uniform(words[1])
            &&& now[LAYER_GEMV_K_UNIFORM as int] == crate::dataflow::uniform(words[2])
            &&& now[LAYER_GEMV_V_UNIFORM as int] == crate::dataflow::uniform(words[3])
            &&& now[LAYER_MROPE_UNIFORM as int] == crate::dataflow::uniform(words[4])
            &&& now[LAYER_APPEND_UNIFORM as int] == crate::dataflow::uniform(
                transition.append_words,
            )
            &&& now[LAYER_ATTENTION_UNIFORM as int] == crate::dataflow::uniform(
                transition.attention_words,
            )
            &&& now[LAYER_GEMV_O_UNIFORM as int] == crate::dataflow::uniform(words[5])
            &&& now[LAYER_RESIDUAL_UNIFORM as int] == crate::dataflow::uniform(words[6])
            &&& forall|place: int|
                LAYER_NORM1_WEIGHT <= place <= LAYER_LAYER_READBACK
                    || LAYER_FINISH_KEY_READBACK <= place <= LAYER_FINISH_VALUE_READBACK
                    ==> #[trigger] now[place] == memory[place]
        }),
{
    let writes = crate::layer::layer_step_writes(transition, step, hidden_row);
    crate::dataflow::lemma_whole();
    crate::dataflow::lemma_written(writes, memory, 10);
    let now = crate::dataflow::written(writes, memory, 10);
    let words = step.stage_words@;
    assert(now[writes[0].buffer as int] == hidden_row);
    assert(now[writes[1].buffer as int] == crate::dataflow::uniform(words[0]));
    assert(now[writes[2].buffer as int] == crate::dataflow::uniform(words[1]));
    assert(now[writes[3].buffer as int] == crate::dataflow::uniform(words[2]));
    assert(now[writes[4].buffer as int] == crate::dataflow::uniform(words[3]));
    assert(now[writes[5].buffer as int] == crate::dataflow::uniform(words[4]));
    assert(now[writes[6].buffer as int] == crate::dataflow::uniform(transition.append_words));
    assert(now[writes[7].buffer as int] == crate::dataflow::uniform(transition.attention_words));
    assert(now[writes[8].buffer as int] == crate::dataflow::uniform(words[5]));
    assert(now[writes[9].buffer as int] == crate::dataflow::uniform(words[6]));
}

proof fn lemma_layer_shaders(
    device: Device,
    sources: LayerSourcesModel,
    kv_plan: KvPlan,
    sizes: LayerSizes,
)
    ensures
        ({
            let shaders = layer_setup(device, sources, kv_plan, sizes).shaders;
            &&& shaders(LAYER_PIPELINE_RMS_NORM) == sources.rms_norm
            &&& shaders(LAYER_PIPELINE_GEMV) == sources.gemv
            &&& shaders(LAYER_PIPELINE_MROPE) == sources.mrope
            &&& shaders(LAYER_PIPELINE_APPEND) == sources.append
            &&& shaders(LAYER_PIPELINE_ATTENTION) == sources.attention
            &&& shaders(LAYER_PIPELINE_RESIDUAL) == sources.residual
        }),
{
    let pipelines = crate::layer::layer_pipelines(sources);
    crate::dataflow::lemma_derived_source(pipelines, 0);
    crate::dataflow::lemma_derived_source(pipelines, 1);
    crate::dataflow::lemma_derived_source(pipelines, 2);
    crate::dataflow::lemma_derived_source(pipelines, 3);
    crate::dataflow::lemma_derived_source(pipelines, 4);
    crate::dataflow::lemma_derived_source(pipelines, 5);
}

/// A step reads back what the attention block makes of its hidden row, with the weights, the
/// rotary tables and the caches of the session, and leaves the caches with the new token in
/// them.
#[verifier::rlimit(60)]
#[verifier::spinoff_prover]
pub proof fn law_layer_step_runs_the_block(
    device: Device,
    sources: LayerSourcesModel,
    kv_plan: KvPlan,
    plan: AttentionPlan,
    transition: KvStepPlan,
    step: AttentionStepPlan,
    hidden_row: Seq<u8>,
    memory: Memory,
)
    requires
        crate::dataflow::keeps_lengths(device),
        crate::layer::layer_sizes_outcome(plan) is Ok,
        crate::device_laws::has_buffers(
            memory,
            crate::layer::layer_all_buffers(
                kv_plan,
                crate::layer::layer_sizes_outcome(plan)->Ok_0,
            ),
        ),
        hidden_row.len() == plan.hidden_size * 4,
    ensures
        ({
            let now = after_layer_step(
                device,
                sources,
                kv_plan,
                plan,
                transition,
                step,
                hidden_row,
                memory,
            );
            let made = block_output(
                device,
                sources,
                kv_plan,
                plan,
                transition,
                step,
                hidden_row,
                memory,
            );
            &&& now[LAYER_LAYER_READBACK as int] == made.row
            &&& now[LAYER_KEY_CACHE as int] == made.keys
            &&& now[LAYER_VALUE_CACHE as int] == made.values
            &&& forall|place: int|
                LAYER_NORM1_WEIGHT <= place <= LAYER_ROPE_SIN ==> #[trigger] now[place]
                    == memory[place]
            &&& crate::device_laws::has_buffers(
                now,
                crate::layer::layer_all_buffers(
                    kv_plan,
                    crate::layer::layer_sizes_outcome(plan)->Ok_0,
                ),
            )
        }),
{
    let sizes = crate::layer::layer_sizes_outcome(plan)->Ok_0;
    let setup = layer_setup(device, sources, kv_plan, sizes);
    let groups = crate::layer::layer_bind_groups(kv_plan, sizes);
    let writes = crate::layer::layer_step_writes(transition, step, hidden_row);
    let commands = crate::layer::layer_step_commands(
        kv_plan,
        plan,
        (plan.hidden_size * 4) as u64,
    );
    let words = step.stage_words@;
    lemma_layer_written(kv_plan, sizes, transition, step, hidden_row, memory);
    lemma_layer_shaders(device, sources, kv_plan, sizes);
    crate::dataflow::lemma_whole();
    let none = Seq::<u64>::empty();
    let m0 = crate::dataflow::written(writes, memory, writes.len() as int);
    let m1 = crate::dataflow::after(setup, commands, m0, 1);
    let m2 = crate::dataflow::after(setup, commands, m0, 2);
    let m3 = crate::dataflow::after(setup, commands, m0, 3);
    let m4 = crate::dataflow::after(setup, commands, m0, 4);
    let m5 = crate::dataflow::after(setup, commands, m0, 5);
    let m6 = crate::dataflow::after(setup, commands, m0, 6);
    let m7 = crate::dataflow::after(setup, commands, m0, 7);
    let m8 = crate::dataflow::after(setup, commands, m0, 8);
    let m9 = crate::dataflow::after(setup, commands, m0, 9);
    let m10 = crate::dataflow::after(setup, commands, m0, 10);
    assert(crate::dataflow::after(setup, commands, m0, 0) == m0);
    let normed = device(
        sources.rms_norm,
        plan.rms_norm_dispatch,
        seq![
            hidden_row,
            memory[LAYER_NORM1_WEIGHT as int],
            crate::dataflow::uniform(words[0]),
        ],
        0,
        memory[LAYER_NORM1 as int],
    );
    assert(m1 == m0.update(LAYER_NORM1 as int, normed)) by {
        crate::dataflow::lemma_third_of_four(
            setup,
            LAYER_PIPELINE_RMS_NORM,
            LAYER_GROUP_RMS,
            plan.rms_norm_dispatch,
            none,
            m0,
        );
    }
    let query = device(
        sources.gemv,
        plan.query_dispatch,
        seq![memory[LAYER_Q_WEIGHT as int], normed, crate::dataflow::uniform(words[1])],
        0,
        memory[LAYER_Q_PROJECTION as int],
    );
    assert(m2 == m1.update(LAYER_Q_PROJECTION as int, query)) by {
        crate::dataflow::lemma_third_of_four(
            setup,
            LAYER_PIPELINE_GEMV,
            LAYER_GROUP_GEMV_Q,
            plan.query_dispatch,
            none,
            m1,
        );
    }
    let key = device(
        sources.gemv,
        plan.key_dispatch,
        seq![memory[LAYER_K_WEIGHT as int], normed, crate::dataflow::uniform(words[2])],
        0,
        memory[LAYER_K_PROJECTION as int],
    );
    assert(m3 == m2.update(LAYER_K_PROJECTION as int, key)) by {
        crate::dataflow::lemma_third_of_four(
            setup,
            LAYER_PIPELINE_GEMV,
            LAYER_GROUP_GEMV_K,
            plan.key_dispatch,
            none,
            m2,
        );
    }
    let value = device(
        sources.gemv,
        plan.value_dispatch,
        seq![memory[LAYER_V_WEIGHT as int], normed, crate::dataflow::uniform(words[3])],
        0,
        memory[LAYER_V_PROJECTION as int],
    );
    assert(m4 == m3.update(LAYER_V_PROJECTION as int, value)) by {
        crate::dataflow::lemma_third_of_four(
            setup,
            LAYER_PIPELINE_GEMV,
            LAYER_GROUP_GEMV_V,
            plan.value_dispatch,
            none,
            m3,
        );
    }
    let unturned = seq![
        query,
        key,
        memory[LAYER_ROPE_COS as int],
        memory[LAYER_ROPE_SIN as int],
        crate::dataflow::uniform(words[4]),
    ];
    let turned_query = device(
        sources.mrope,
        plan.mrope_dispatch,
        unturned,
        0,
        memory[LAYER_MROPE_QUERY as int],
    );
    let turned_key = device(
        sources.mrope,
        plan.mrope_dispatch,
        unturned,
        1,
        memory[LAYER_MROPE_KEY as int],
    );
    assert(m5 == m4.update(LAYER_MROPE_QUERY as int, turned_query).update(
        LAYER_MROPE_KEY as int,
        turned_key,
    )) by {
        crate::dataflow::lemma_late_of_seven(
            setup,
            LAYER_PIPELINE_MROPE,
            LAYER_GROUP_MROPE,
            plan.mrope_dispatch,
            none,
            m4,
        );
    }
    let token = seq![turned_key, value, crate::dataflow::uniform(transition.append_words)];
    let keys = device(
        sources.append,
        kv_plan.append_dispatch,
        token,
        0,
        memory[LAYER_KEY_CACHE as int],
    );
    let values = device(
        sources.append,
        kv_plan.append_dispatch,
        token,
        1,
        memory[LAYER_VALUE_CACHE as int],
    );
    assert(m6 == m5.update(LAYER_KEY_CACHE as int, keys).update(
        LAYER_VALUE_CACHE as int,
        values,
    )) by {
        crate::dataflow::lemma_middle_of_five(
            setup,
            LAYER_PIPELINE_APPEND,
            LAYER_GROUP_APPEND,
            kv_plan.append_dispatch,
            none,
            m5,
        );
    }
    let attended = device(
        sources.attention,
        kv_plan.attention_dispatch,
        seq![turned_query, keys, values, crate::dataflow::uniform(transition.attention_words)],
        0,
        memory[LAYER_ATTENTION_OUTPUT as int],
    );
    assert(m7 == m6.update(LAYER_ATTENTION_OUTPUT as int, attended)) by {
        crate::dataflow::lemma_fourth_of_five(
            setup,
            LAYER_PIPELINE_ATTENTION,
            LAYER_GROUP_ATTENTION,
            kv_plan.attention_dispatch,
            none,
            m6,
        );
    }
    let output = device(
        sources.gemv,
        plan.output_dispatch,
        seq![memory[LAYER_O_WEIGHT as int], attended, crate::dataflow::uniform(words[5])],
        0,
        memory[LAYER_O_PROJECTION as int],
    );
    assert(m8 == m7.update(LAYER_O_PROJECTION as int, output)) by {
        crate::dataflow::lemma_third_of_four(
            setup,
            LAYER_PIPELINE_GEMV,
            LAYER_GROUP_GEMV_O,
            plan.output_dispatch,
            none,
            m7,
        );
    }
    let row = device(
        sources.residual,
        plan.residual_dispatch,
        seq![hidden_row, output, crate::dataflow::uniform(words[6])],
        0,
        memory[LAYER_ATTENTION_RESIDUAL as int],
    );
    assert(m9 == m8.update(LAYER_ATTENTION_RESIDUAL as int, row)) by {
        crate::dataflow::lemma_third_of_four(
            setup,
            LAYER_PIPELINE_RESIDUAL,
            LAYER_GROUP_RESIDUAL,
            plan.residual_dispatch,
            none,
            m8,
        );
    }
    assert(m10 == m9.update(LAYER_LAYER_READBACK as int, row));
    assert forall|place: int| 0 <= place < memory.len() implies (#[trigger] m10[place]).len()
        == memory[place].len() by {
    }
}

/// A finish brings back each cache in the readback that is made for it.
pub proof fn law_layer_finish_brings_back_both_caches(
    device: Device,
    sources: LayerSourcesModel,
    kv_plan: KvPlan,
    sizes: LayerSizes,
    memory: Memory,
)
    requires
        crate::device_laws::has_buffers(memory, crate::layer::layer_all_buffers(kv_plan, sizes)),
    ensures
        ({
            let now = crate::dataflow::performed(
                layer_setup(device, sources, kv_plan, sizes),
                Seq::empty(),
                crate::layer::layer_finish_commands(kv_plan),
                memory,
            );
            &&& now[LAYER_FINISH_KEY_READBACK as int] == memory[LAYER_KEY_CACHE as int]
            &&& now[LAYER_FINISH_VALUE_READBACK as int] == memory[LAYER_VALUE_CACHE as int]
        }),
{
    reveal_with_fuel(crate::dataflow::after, 3);
    reveal_with_fuel(crate::dataflow::written, 1);
    crate::dataflow::lemma_whole();
}

/// What a step hands back is the row that the attention block makes, and what a finish hands back
/// is the key cache and then the value cache.
pub proof fn law_layer_operations_hand_back_their_results(
    device: Device,
    sources: LayerSourcesModel,
    kv_plan: KvPlan,
    plan: AttentionPlan,
    transition: KvStepPlan,
    step: AttentionStepPlan,
    hidden_row: Seq<u8>,
    memory: Memory,
)
    requires
        crate::dataflow::keeps_lengths(device),
        crate::layer::layer_sizes_outcome(plan) is Ok,
        crate::device_laws::has_buffers(
            memory,
            crate::layer::layer_all_buffers(
                kv_plan,
                crate::layer::layer_sizes_outcome(plan)->Ok_0,
            ),
        ),
        hidden_row.len() == plan.hidden_size * 4,
    ensures
        ({
            let sizes = crate::layer::layer_sizes_outcome(plan)->Ok_0;
            let stepped = after_layer_step(
                device,
                sources,
                kv_plan,
                plan,
                transition,
                step,
                hidden_row,
                memory,
            );
            let finished = crate::dataflow::performed(
                layer_setup(device, sources, kv_plan, sizes),
                Seq::empty(),
                crate::layer::layer_finish_commands(kv_plan),
                memory,
            );
            let row = crate::readback::layer_readbacks(kv_plan, plan, Operation::Step);
            let caches = crate::readback::layer_readbacks(kv_plan, plan, Operation::Finish);
            &&& crate::dataflow::brought_back(stepped, row) == seq![
                block_output(
                    device,
                    sources,
                    kv_plan,
                    plan,
                    transition,
                    step,
                    hidden_row,
                    memory,
                ).row,
            ]
            &&& crate::dataflow::brought_back(finished, caches) == seq![
                memory[LAYER_KEY_CACHE as int],
                memory[LAYER_VALUE_CACHE as int],
            ]
        }),
{
    let sizes = crate::layer::layer_sizes_outcome(plan)->Ok_0;
    law_layer_step_runs_the_block(
        device,
        sources,
        kv_plan,
        plan,
        transition,
        step,
        hidden_row,
        memory,
    );
    law_layer_finish_brings_back_both_caches(device, sources, kv_plan, sizes, memory);
    crate::dataflow::lemma_whole();
}

} // verus!
