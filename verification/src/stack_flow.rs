//! What the passes of a stack session run on, and what its first writes leave on a device.

use crate::dataflow::{Device, Setup};
use crate::device_laws::Memory;
use crate::family::{Family, WeightStorage};
use crate::gpu::{BindGroupModel, BufferPlan, CommandModel, WriteModel};
use crate::stack_encode::StackBeginOperands;
use crate::stack_plan::{
    StackPlans, StackSizes, WeightResourcePlan, PREFILL_ZERO_BIAS_BYTES, TOP1_RESULT_BYTES,
};
use crate::stack_resources::{
    LayoutEntry, PipelineModel, LAYOUT_APPEND, LAYOUT_ATTENTION, LAYOUT_GEMV, LAYOUT_MROPE,
    LAYOUT_PROJECTION, LAYOUT_RESIDUAL, LAYOUT_RMS, LAYOUT_SWIGLU, LAYOUT_TOP1, PIPELINE_APPEND,
    PIPELINE_APPEND_RANGE, PIPELINE_MROPE, PIPELINE_PREFILL_GQA, PIPELINE_PREFILL_MROPE,
    PIPELINE_RESIDUAL, PIPELINE_SPLIT_MERGE, PIPELINE_SPLIT_PARTIAL, PIPELINE_SWIGLU,
    PIPELINE_TOP1, STACK_DOWN_WEIGHT, STACK_FINAL_NORM_WEIGHT, STACK_GATE_WEIGHT, STACK_KEY_CACHE,
    STACK_K_WEIGHT, STACK_LM_HEAD, STACK_NORM1_WEIGHT, STACK_NORM2_WEIGHT, STACK_O_WEIGHT,
    STACK_PREFILL_ZERO_BIAS, STACK_Q_WEIGHT, STACK_ROPE_COS, STACK_ROPE_SIN, STACK_UP_WEIGHT,
    STACK_VALUE_CACHE, STACK_V_WEIGHT,
};
use crate::stack_sources::StackSourcesModel;
use vstd::prelude::*;

verus! {

/// A session on a device: what its kernels compute, the sources of its shaders and of the token
/// selection, its plans and the sizes of its buffers.
pub struct StackRun {
    pub device: Device,
    pub sources: StackSourcesModel,
    pub selection: Seq<char>,
    pub plans: StackPlans,
    pub sizes: StackSizes,
}

/// The pipelines of a session, with that of the token selection.
pub open spec fn run_pipelines(run: StackRun) -> Seq<PipelineModel> {
    crate::stack_resources::stack_pipelines(
        run.sources,
        run.plans.resources.storage,
        run.plans.prefill_capable,
    ).push(crate::stack_resources::top1_pipeline(run.selection))
}

/// The buffers of a session.
pub open spec fn run_buffers(run: StackRun) -> Seq<BufferPlan> {
    crate::device_laws::session_buffers(run.plans, run.sizes)
}

/// What the passes of a session run on.
pub open spec fn stack_setup(run: StackRun) -> Setup {
    Setup {
        device: run.device,
        shaders: |pipeline: usize| crate::dataflow::placed_source(run_pipelines(run), pipeline),
        layouts: |layout: usize| crate::stack_resources::layout_entries(layout),
        groups: crate::device_laws::session_groups(run.plans, run.sizes),
    }
}

/// The shader that norms rows with weights that are stored in a given way.
pub open spec fn norm_source(sources: StackSourcesModel, storage: WeightStorage) -> Seq<char> {
    match storage {
        WeightStorage::F32 => sources.rms_norm,
        WeightStorage::F16 => sources.rms_norm_f16_weights,
    }
}

/// The shader that multiplies one row by weights that are stored in a given way.
pub open spec fn gemv_source(sources: StackSourcesModel, storage: WeightStorage) -> Seq<char> {
    match storage {
        WeightStorage::F32 => sources.gemv_tiled,
        WeightStorage::F16 => sources.gemv_tiled_f16_weights,
    }
}

/// The shader that multiplies many rows by weights that are stored in a given way.
pub open spec fn projection_source(
    sources: StackSourcesModel,
    storage: WeightStorage,
) -> Seq<char> {
    match storage {
        WeightStorage::F32 => sources.projection,
        WeightStorage::F16 => sources.linear_projection_f16_weights,
    }
}

/// Every pass runs the shader that its stage is named after; those that read weights run the one
/// for the way in which the weights are stored.
pub proof fn law_passes_run_their_shaders(run: StackRun)
    ensures
        ({
            let shaders = stack_setup(run).shaders;
            let storage = run.plans.resources.storage;
            let pipelines = crate::stack_encode::weight_pipelines(storage);
            &&& shaders(pipelines.rms_norm) == norm_source(run.sources, storage)
            &&& shaders(pipelines.gemv_tiled) == gemv_source(run.sources, storage)
            &&& shaders(PIPELINE_MROPE) == run.sources.mrope
            &&& shaders(PIPELINE_APPEND) == run.sources.append
            &&& shaders(PIPELINE_SWIGLU) == run.sources.swiglu
            &&& shaders(PIPELINE_RESIDUAL) == run.sources.residual
            &&& shaders(PIPELINE_SPLIT_PARTIAL) == run.sources.split_partial
            &&& shaders(PIPELINE_SPLIT_MERGE) == run.sources.split_merge
            &&& shaders(PIPELINE_TOP1) == run.selection
            &&& run.plans.prefill_capable ==> shaders(pipelines.prefill_projection)
                == projection_source(run.sources, storage)
            &&& run.plans.prefill_capable ==> shaders(PIPELINE_PREFILL_MROPE)
                == run.sources.prefill_mrope
            &&& run.plans.prefill_capable ==> shaders(PIPELINE_APPEND_RANGE)
                == run.sources.kv_append_range
            &&& run.plans.prefill_capable ==> shaders(PIPELINE_PREFILL_GQA)
                == run.sources.prefill_gqa
        }),
{
    let made = run_pipelines(run);
    let half = run.plans.resources.storage == WeightStorage::F16;
    let skip: int = if half {
        2
    } else {
        0
    };
    assert forall|i: int, j: int| 0 <= i < j < made.len() implies (#[trigger] made[i]).place < (
    #[trigger] made[j]).place by {
    }
    if half {
        crate::dataflow::lemma_placed_source(made, 2);
        crate::dataflow::lemma_placed_source(made, 3);
    } else {
        crate::dataflow::lemma_placed_source(made, 0);
        crate::dataflow::lemma_placed_source(made, 1);
    }
    crate::dataflow::lemma_placed_source(made, skip + 2);
    crate::dataflow::lemma_placed_source(made, skip + 3);
    crate::dataflow::lemma_placed_source(made, skip + 4);
    crate::dataflow::lemma_placed_source(made, skip + 5);
    crate::dataflow::lemma_placed_source(made, skip + 6);
    crate::dataflow::lemma_placed_source(made, skip + 7);
    crate::dataflow::lemma_placed_source(made, made.len() - 1);
    if run.plans.prefill_capable {
        if half {
            crate::dataflow::lemma_placed_source(made, 11);
            crate::dataflow::lemma_placed_source(made, 12);
            crate::dataflow::lemma_placed_source(made, 13);
            crate::dataflow::lemma_placed_source(made, 14);
        } else {
            crate::dataflow::lemma_placed_source(made, 8);
            crate::dataflow::lemma_placed_source(made, 9);
            crate::dataflow::lemma_placed_source(made, 10);
            crate::dataflow::lemma_placed_source(made, 11);
        }
    }
}

/// Where the bindings of the layouts start.
pub proof fn lemma_entry_offsets(offsets: Seq<u64>)
    ensures
        ({
            let at = |layout: usize, place: int|
                crate::dataflow::entry_offset(
                    crate::stack_resources::layout_entries(layout),
                    offsets,
                    place,
                );
            &&& at(LAYOUT_RMS, 0) == offsets[0]
            &&& at(LAYOUT_RMS, 1) == offsets[1]
            &&& at(LAYOUT_RMS, 2) == 0
            &&& at(LAYOUT_RMS, 3) == 0
            &&& at(LAYOUT_GEMV, 0) == offsets[0]
            &&& at(LAYOUT_GEMV, 1) == 0
            &&& at(LAYOUT_GEMV, 2) == 0
            &&& at(LAYOUT_GEMV, 3) == 0
            &&& at(LAYOUT_MROPE, 0) == 0
            &&& at(LAYOUT_MROPE, 1) == 0
            &&& at(LAYOUT_MROPE, 2) == 0
            &&& at(LAYOUT_MROPE, 3) == 0
            &&& at(LAYOUT_MROPE, 4) == 0
            &&& at(LAYOUT_MROPE, 5) == 0
            &&& at(LAYOUT_MROPE, 6) == 0
            &&& at(LAYOUT_APPEND, 0) == 0
            &&& at(LAYOUT_APPEND, 1) == 0
            &&& at(LAYOUT_APPEND, 2) == offsets[0]
            &&& at(LAYOUT_APPEND, 3) == offsets[1]
            &&& at(LAYOUT_APPEND, 4) == 0
            &&& at(LAYOUT_ATTENTION, 0) == 0
            &&& at(LAYOUT_ATTENTION, 1) == offsets[0]
            &&& at(LAYOUT_ATTENTION, 2) == offsets[1]
            &&& at(LAYOUT_ATTENTION, 3) == 0
            &&& at(LAYOUT_ATTENTION, 4) == 0
            &&& at(LAYOUT_SWIGLU, 0) == 0
            &&& at(LAYOUT_SWIGLU, 1) == 0
            &&& at(LAYOUT_SWIGLU, 2) == 0
            &&& at(LAYOUT_SWIGLU, 3) == 0
            &&& at(LAYOUT_RESIDUAL, 0) == offsets[0]
            &&& at(LAYOUT_RESIDUAL, 1) == 0
            &&& at(LAYOUT_RESIDUAL, 2) == offsets[1]
            &&& at(LAYOUT_RESIDUAL, 3) == 0
            &&& at(LAYOUT_PROJECTION, 0) == 0
            &&& at(LAYOUT_PROJECTION, 1) == offsets[0]
            &&& at(LAYOUT_PROJECTION, 2) == 0
            &&& at(LAYOUT_PROJECTION, 3) == 0
            &&& at(LAYOUT_PROJECTION, 4) == 0
            &&& at(LAYOUT_TOP1, 0) == 0
            &&& at(LAYOUT_TOP1, 1) == 0
        }),
{
    reveal_with_fuel(crate::stack_laws::dynamic_before, 8);
}

/// The bytes of the weights of the layers after the first writes of a session.
pub open spec fn weights_hold(memory: Memory, weights: Seq<Vec<u8>>) -> bool {
    &&& memory[STACK_NORM1_WEIGHT as int] == weights[0]@
    &&& memory[STACK_Q_WEIGHT as int] == weights[1]@
    &&& memory[STACK_K_WEIGHT as int] == weights[2]@
    &&& memory[STACK_V_WEIGHT as int] == weights[3]@
    &&& memory[STACK_O_WEIGHT as int] == weights[4]@
    &&& memory[STACK_NORM2_WEIGHT as int] == weights[5]@
    &&& memory[STACK_GATE_WEIGHT as int] == weights[6]@
    &&& memory[STACK_UP_WEIGHT as int] == weights[7]@
    &&& memory[STACK_DOWN_WEIGHT as int] == weights[8]@
}

/// Whether a place is one that the first writes of a session can fill.
pub open spec fn upload_place(place: int) -> bool {
    ||| STACK_NORM1_WEIGHT <= place <= STACK_VALUE_CACHE
    ||| place == STACK_PREFILL_ZERO_BIAS
    ||| place == STACK_FINAL_NORM_WEIGHT
    ||| place == STACK_LM_HEAD
}

/// What a session has in its memory after its first writes.
pub open spec fn after_uploads(
    run: StackRun,
    operands: StackBeginOperands,
    upload_weights: bool,
    memory: Memory,
) -> Memory {
    let writes = crate::stack_encode::stack_uploads(
        operands,
        run.plans.prefill_capable,
        upload_weights,
    );
    crate::dataflow::written(writes, memory, writes.len() as int)
}

/// The first writes of a session fill every buffer with the operand that it is for: the cosine
/// table with the cosines, the sine table with the sines, each cache with its own bytes, each
/// weight buffer with its weights. The rows that a prefill adds as bias are zeros. Caches that a
/// prefill is to fill, and weights that are on the device already, stay as they are.
pub proof fn law_uploads_fill_their_buffers(
    run: StackRun,
    operands: StackBeginOperands,
    upload_weights: bool,
    memory: Memory,
)
    requires
        crate::stack_laws::operands_sized(operands, run.plans, run.sizes),
        crate::device_laws::has_buffers(memory, run_buffers(run)),
        operands.final_norm_weight_bytes matches Some(bytes) ==> bytes.len() <= u64::MAX,
        operands.lm_head_weight_bytes matches Some(bytes) ==> bytes.len() <= u64::MAX,
    ensures
        ({
            let now = after_uploads(run, operands, upload_weights, memory);
            &&& now[STACK_ROPE_COS as int] == operands.rope_cos_bytes@
            &&& now[STACK_ROPE_SIN as int] == operands.rope_sin_bytes@
            &&& now[STACK_KEY_CACHE as int] == (if operands.upload_initial_cache {
                operands.key_cache_bytes@
            } else {
                memory[STACK_KEY_CACHE as int]
            })
            &&& now[STACK_VALUE_CACHE as int] == (if operands.upload_initial_cache {
                operands.value_cache_bytes@
            } else {
                memory[STACK_VALUE_CACHE as int]
            })
            &&& upload_weights ==> weights_hold(now, operands.layer_weights@)
            &&& upload_weights && run.plans.lm_head is Some ==> now[STACK_FINAL_NORM_WEIGHT as int]
                == operands.final_norm_weight_bytes->Some_0@ && now[STACK_LM_HEAD as int]
                == operands.lm_head_weight_bytes->Some_0@
            &&& !upload_weights ==> forall|place: int|
                crate::stack_resources::weight_place(place) ==> #[trigger] now[place]
                    == memory[place]
            &&& run.plans.prefill_capable ==> now[STACK_PREFILL_ZERO_BIAS as int] == Seq::new(
                PREFILL_ZERO_BIAS_BYTES as nat,
                |i: int| 0u8,
            )
            &&& forall|place: int|
                0 <= place < memory.len() && !upload_place(place) ==> #[trigger] now[place]
                    == memory[place]
            &&& crate::device_laws::has_buffers(now, run_buffers(run))
        }),
{
    crate::dataflow::lemma_whole();
    let weights_given = crate::weight_pack::contents(operands.layer_weights@);
    let caches = if operands.upload_initial_cache {
        seq![
            crate::gpu::bytes_write(STACK_KEY_CACHE, operands.key_cache_bytes@),
            crate::gpu::bytes_write(STACK_VALUE_CACHE, operands.value_cache_bytes@),
        ]
    } else {
        Seq::empty()
    };
    let ropes = seq![
        crate::gpu::bytes_write(STACK_ROPE_COS, operands.rope_cos_bytes@),
        crate::gpu::bytes_write(STACK_ROPE_SIN, operands.rope_sin_bytes@),
    ];
    let weights = if upload_weights {
        crate::stack_encode::weight_writes(weights_given)
    } else {
        Seq::empty()
    };
    let zeros = Seq::new(PREFILL_ZERO_BIAS_BYTES as nat, |i: int| 0u8);
    let bias = if run.plans.prefill_capable {
        seq![crate::gpu::bytes_write(STACK_PREFILL_ZERO_BIAS, zeros)]
    } else {
        Seq::empty()
    };
    let norm = crate::stack_encode::optional_write(
        STACK_FINAL_NORM_WEIGHT,
        crate::operands::option_bytes(operands.final_norm_weight_bytes),
    );
    let head = crate::stack_encode::optional_write(
        STACK_LM_HEAD,
        crate::operands::option_bytes(operands.lm_head_weight_bytes),
    );
    let logits = if upload_weights {
        norm + head
    } else {
        Seq::empty()
    };
    let writes = crate::stack_encode::stack_uploads(
        operands,
        run.plans.prefill_capable,
        upload_weights,
    );
    assert(writes == caches + ropes + weights + bias + logits);
    let m1 = crate::dataflow::written(caches, memory, caches.len() as int);
    let m2 = crate::dataflow::written(ropes, m1, 2);
    let m3 = crate::dataflow::written(weights, m2, weights.len() as int);
    let m4 = crate::dataflow::written(bias, m3, bias.len() as int);
    let m5 = crate::dataflow::written(logits, m4, logits.len() as int);
    let now = after_uploads(run, operands, upload_weights, memory);
    assert(now == m5) by {
        crate::dataflow::lemma_written_both(
            caches + ropes + weights + bias,
            logits,
            memory,
            logits.len() as int,
        );
        crate::dataflow::lemma_written_both(
            caches + ropes + weights,
            bias,
            memory,
            bias.len() as int,
        );
        crate::dataflow::lemma_written_both(caches + ropes, weights, memory, weights.len() as int);
        crate::dataflow::lemma_written_both(caches, ropes, memory, 2);
    }
    crate::dataflow::lemma_written(caches, memory, caches.len() as int);
    assert(operands.upload_initial_cache ==> m1[caches[0].buffer as int]
        == operands.key_cache_bytes@ && m1[caches[1].buffer as int]
        == operands.value_cache_bytes@);
    crate::dataflow::lemma_written(ropes, m1, 2);
    assert(m2[ropes[0].buffer as int] == operands.rope_cos_bytes@);
    assert(m2[ropes[1].buffer as int] == operands.rope_sin_bytes@);
    crate::dataflow::lemma_written(weights, m2, weights.len() as int);
    assert(upload_weights ==> weights_hold(m3, operands.layer_weights@)) by {
        if upload_weights {
            assert forall|i: int| 0 <= i < 9 implies #[trigger] weights[i]
                == crate::gpu::bytes_write(
                crate::stack_encode::layer_weight_place(i),
                operands.layer_weights@[i]@,
            ) by {
            }
            assert(m3[weights[0].buffer as int] == operands.layer_weights@[0]@);
            assert(m3[weights[1].buffer as int] == operands.layer_weights@[1]@);
            assert(m3[weights[2].buffer as int] == operands.layer_weights@[2]@);
            assert(m3[weights[3].buffer as int] == operands.layer_weights@[3]@);
            assert(m3[weights[4].buffer as int] == operands.layer_weights@[4]@);
            assert(m3[weights[5].buffer as int] == operands.layer_weights@[5]@);
            assert(m3[weights[6].buffer as int] == operands.layer_weights@[6]@);
            assert(m3[weights[7].buffer as int] == operands.layer_weights@[7]@);
            assert(m3[weights[8].buffer as int] == operands.layer_weights@[8]@);
        }
    }
    crate::dataflow::lemma_written(bias, m3, bias.len() as int);
    assert(run.plans.prefill_capable ==> m4[bias[0].buffer as int] == zeros);
    crate::dataflow::lemma_written(logits, m4, logits.len() as int);
    assert(upload_weights && run.plans.lm_head is Some ==> m5[logits[0].buffer as int]
        == operands.final_norm_weight_bytes->Some_0@ && m5[logits[1].buffer as int]
        == operands.lm_head_weight_bytes->Some_0@);
}

/// A session that is begun with a pack starts with every weight buffer holding the section of the
/// pack that is named after that weight, and with each cache holding its own bytes.
pub proof fn law_stack_weights_are_where_they_belong(
    run: StackRun,
    operands: StackBeginOperands,
    shards: Seq<Seq<u8>>,
    key_cache: Seq<u8>,
    value_cache: Seq<u8>,
    memory: Memory,
)
    requires
        shards.len() == 11 || shards.len() == 13,
        run.plans.lm_head is Some == (shards.len() == 13),
        crate::stack_begin::operands_of(operands, shards, key_cache, value_cache),
        crate::stack_begin::shards_match(shards, run.plans.resources),
        key_cache.len() == run.sizes.cache,
        value_cache.len() == run.sizes.cache,
        crate::device_laws::has_buffers(memory, run_buffers(run)),
    ensures
        ({
            let now = after_uploads(run, operands, true, memory);
            let names = crate::weight_pack::section_names(
                Family::Stack,
                (shards.len() + 1) as u32,
            );
            let holds = |place: usize, name: Seq<char>|
                crate::dataflow::holds_section(now[place as int], names, shards, name);
            &&& names.len() == shards.len() + 1
            &&& holds(STACK_NORM1_WEIGHT, "weights.input_layernorm"@)
            &&& holds(STACK_Q_WEIGHT, "weights.q_proj"@)
            &&& holds(STACK_K_WEIGHT, "weights.k_proj"@)
            &&& holds(STACK_V_WEIGHT, "weights.v_proj"@)
            &&& holds(STACK_O_WEIGHT, "weights.o_proj"@)
            &&& holds(STACK_ROPE_COS, "weights.mrope_cos"@)
            &&& holds(STACK_ROPE_SIN, "weights.mrope_sin"@)
            &&& holds(STACK_NORM2_WEIGHT, "weights.post_attention_layernorm"@)
            &&& holds(STACK_GATE_WEIGHT, "weights.gate_proj"@)
            &&& holds(STACK_UP_WEIGHT, "weights.up_proj"@)
            &&& holds(STACK_DOWN_WEIGHT, "weights.down_proj"@)
            &&& run.plans.lm_head is Some ==> holds(
                STACK_FINAL_NORM_WEIGHT,
                "weights.final_layernorm"@,
            )
            &&& run.plans.lm_head is Some ==> holds(STACK_LM_HEAD, "weights.lm_head"@)
            &&& now[STACK_KEY_CACHE as int] == key_cache
            &&& now[STACK_VALUE_CACHE as int] == value_cache
        }),
{
    let weights = operands.layer_weights@;
    let given = crate::weight_pack::contents(weights);
    assert(weights.len() == given.len());
    assert forall|i: int| 0 <= i < 9 implies #[trigger] weights[i]@
        == shards[crate::stack_begin::layer_weight_shard(i)] by {
        assert(given[i] == weights[i]@);
    }
    assert forall|i: int| 0 <= i < 9 implies (#[trigger] weights[i]).len()
        == run.plans.resources.layer_weight_bulk_bytes@[i] by {
        assert(weights[i]@ == shards[crate::stack_begin::layer_weight_shard(i)]);
    }
    law_uploads_fill_their_buffers(run, operands, true, memory);
    let now = after_uploads(run, operands, true, memory);
    assert(now[STACK_NORM1_WEIGHT as int] == shards[0]);
    assert(now[STACK_Q_WEIGHT as int] == shards[1]);
    assert(now[STACK_K_WEIGHT as int] == shards[2]);
    assert(now[STACK_V_WEIGHT as int] == shards[3]);
    assert(now[STACK_O_WEIGHT as int] == shards[4]);
    assert(now[STACK_ROPE_COS as int] == shards[5]);
    assert(now[STACK_ROPE_SIN as int] == shards[6]);
    assert(now[STACK_NORM2_WEIGHT as int] == shards[7]);
    assert(now[STACK_GATE_WEIGHT as int] == shards[8]);
    assert(now[STACK_UP_WEIGHT as int] == shards[9]);
    assert(now[STACK_DOWN_WEIGHT as int] == shards[10]);
}

} // verus!
