//! The stack session: its GPU work.

use crate::family::{Family, WeightStorage, PINNED_VOCAB_SIZE};
use crate::gpu::{
    buffer, copy, pass, pass1, pass2, write_of_bytes, write_of_words, BufferPlan, BufferUsage,
    Command, CommandModel, WriteModel, WritePlan,
};
use crate::ieee::single_is_finite;
use crate::kv::{Encoding, FinishEncoding, KvStepPlan};
use crate::lifecycle::Operation;
use crate::operands::{bytes_to_words, operand_to_bytes};
use crate::stack_plan::{
    compact_cache_bytes, LmHeadPlan, PrefillPlan, StackPlan, StackPlans, StackStepPlan,
    WeightResourcePlan, PREFILL_ROW_BYTES, PREFILL_ZERO_BIAS_BYTES, TOP1_RESULT_BYTES,
};
use crate::stack_resources::{
    GROUP_APPEND, GROUP_GEMV_DOWN, GROUP_GEMV_GATE, GROUP_GEMV_K, GROUP_GEMV_LOGITS,
    GROUP_GEMV_O, GROUP_GEMV_Q, GROUP_GEMV_UP, GROUP_GEMV_V, GROUP_MROPE, GROUP_PREFILL_DOWN,
    GROUP_PREFILL_GATE, GROUP_PREFILL_GQA, GROUP_PREFILL_KEY, GROUP_PREFILL_KV_APPEND_RANGE,
    GROUP_PREFILL_LOGITS_RMS, GROUP_PREFILL_MROPE, GROUP_PREFILL_OUTPUT, GROUP_PREFILL_QUERY,
    GROUP_PREFILL_RESIDUAL, GROUP_PREFILL_RESIDUAL2, GROUP_PREFILL_RMS1, GROUP_PREFILL_RMS2,
    GROUP_PREFILL_SWIGLU, GROUP_PREFILL_UP, GROUP_PREFILL_VALUE, GROUP_RESIDUAL, GROUP_RESIDUAL2,
    GROUP_RMS, GROUP_RMS2, GROUP_SPLIT_MERGE, GROUP_SPLIT_PARTIAL, GROUP_STEP_LOGITS_RMS,
    GROUP_SWIGLU, GROUP_TOP1, PIPELINE_APPEND, PIPELINE_APPEND_RANGE, PIPELINE_GEMV_TILED,
    PIPELINE_GEMV_TILED_F16, PIPELINE_MROPE, PIPELINE_PREFILL_GQA, PIPELINE_PREFILL_MROPE,
    PIPELINE_PROJECTION, PIPELINE_PROJECTION_F16, PIPELINE_RESIDUAL, PIPELINE_RMS_NORM,
    PIPELINE_RMS_NORM_F16, PIPELINE_SPLIT_MERGE, PIPELINE_SPLIT_PARTIAL, PIPELINE_SWIGLU,
    PIPELINE_TOP1, STACK_APPEND_UNIFORM, STACK_ATTENTION_UNIFORM, STACK_FINAL_NORM_WEIGHT,
    STACK_FINISH_KEY_READBACK, STACK_FINISH_VALUE_READBACK, STACK_GEMV_DOWN_UNIFORM,
    STACK_GEMV_GATE_UNIFORM, STACK_GEMV_K_UNIFORM, STACK_GEMV_O_UNIFORM, STACK_GEMV_Q_UNIFORM,
    STACK_GEMV_UP_UNIFORM, STACK_GEMV_V_UNIFORM, STACK_HIDDEN_PINGPONG, STACK_KEY_CACHE,
    STACK_LM_HEAD, STACK_LOGITS, STACK_LOGITS_READBACK, STACK_MROPE_UNIFORM, STACK_NORM1_WEIGHT,
    STACK_NORM2_WEIGHT, STACK_PREFILL_HIDDEN_STORAGE, STACK_PREFILL_ZERO_BIAS,
    STACK_RESIDUAL2_UNIFORM, STACK_RESIDUAL_UNIFORM, STACK_RMS2_UNIFORM, STACK_RMS_UNIFORM,
    STACK_ROPE_COS, STACK_ROPE_SIN, STACK_SPLIT_MERGE_UNIFORM, STACK_SPLIT_PARTIAL_UNIFORM,
    STACK_STACK_READBACK, STACK_SWIGLU_UNIFORM, STACK_TOP1_READBACK, STACK_TOP1_RESULT,
    STACK_VALUE_CACHE,
};
use crate::text::join3;
use crate::words::pack_u32_le;
use vstd::prelude::*;

verus! {

/// What a stack session is begun with.
pub struct StackBeginOperands {
    /// Whether the caches are filled, and not left empty for a prefill.
    pub upload_initial_cache: bool,
    pub key_cache_bytes: Vec<u8>,
    pub value_cache_bytes: Vec<u8>,
    pub rope_cos_bytes: Vec<u8>,
    pub rope_sin_bytes: Vec<u8>,
    /// The weights of the layers: first norm, query, key, value, output, second norm, gate, up
    /// and down.
    pub layer_weights: Vec<Vec<u8>>,
    pub final_norm_weight_bytes: Option<Vec<u8>>,
    pub lm_head_weight_bytes: Option<Vec<u8>>,
}

/// The place of the buffer of the weights of the layers.
pub open spec fn layer_weight_place(index: int) -> usize {
    (if index < 5 {
        STACK_NORM1_WEIGHT + index
    } else {
        STACK_NORM2_WEIGHT + (index - 5)
    }) as usize
}

/// The queue writes of the weights of the layers.
pub open spec fn weight_writes(weights: Seq<Seq<u8>>) -> Seq<WriteModel> {
    Seq::new(
        weights.len(),
        |i: int| crate::gpu::bytes_write(layer_weight_place(i), weights[i]),
    )
}

/// A queue write of optional bytes.
pub open spec fn optional_write(place: usize, bytes: Option<Seq<u8>>) -> Seq<WriteModel> {
    match bytes {
        Some(found) => seq![crate::gpu::bytes_write(place, found)],
        None => Seq::empty(),
    }
}

/// The queue writes that fill a new session. Weights that are on the device already are not
/// written again.
pub open spec fn stack_uploads(
    operands: StackBeginOperands,
    prefill_capable: bool,
    upload_weights: bool,
) -> Seq<WriteModel> {
    let caches = if operands.upload_initial_cache {
        seq![
            crate::gpu::bytes_write(STACK_KEY_CACHE, operands.key_cache_bytes@),
            crate::gpu::bytes_write(STACK_VALUE_CACHE, operands.value_cache_bytes@),
        ]
    } else {
        Seq::empty()
    };
    let ropes = seq![
        crate::gpu::bytes_write(STACK_ROPE_COS, operands.rope_cos_bytes@),
        crate::gpu::bytes_write(STACK_ROPE_SIN, operands.rope_sin_bytes@),
    ];
    let weights = if upload_weights {
        weight_writes(crate::weight_pack::contents(operands.layer_weights@))
    } else {
        Seq::empty()
    };
    let bias = if prefill_capable {
        seq![
            crate::gpu::bytes_write(
                STACK_PREFILL_ZERO_BIAS,
                Seq::new(PREFILL_ZERO_BIAS_BYTES as nat, |i: int| 0u8),
            ),
        ]
    } else {
        Seq::empty()
    };
    let logits = if upload_weights {
        optional_write(
            STACK_FINAL_NORM_WEIGHT,
            crate::operands::option_bytes(operands.final_norm_weight_bytes),
        ) + optional_write(
            STACK_LM_HEAD,
            crate::operands::option_bytes(operands.lm_head_weight_bytes),
        )
    } else {
        Seq::empty()
    };
    caches + ropes + weights + bias + logits
}

fn push_weights(writes: &mut Vec<WritePlan>, weights: Vec<Vec<u8>>)
    requires
        weights.len() <= 9,
    ensures
        crate::gpu::write_models(final(writes)@) == crate::gpu::write_models(old(writes)@)
            + weight_writes(crate::weight_pack::contents(weights@)),
{
    let ghost payloads = crate::weight_pack::contents(weights@);
    let ghost start = crate::gpu::write_models(writes@);
    let mut rest: Vec<Vec<u8>> = weights;
    let mut index: usize = 0;
    assert(start + weight_writes(payloads).subrange(0, 0) =~= start);
    assert(payloads.subrange(0, payloads.len() as int) =~= payloads);
    while rest.len() > 0
        invariant
            index + rest.len() == payloads.len(),
            payloads.len() <= 9,
            crate::weight_pack::contents(rest@) == payloads.subrange(
                index as int,
                payloads.len() as int,
            ),
            crate::gpu::write_models(writes@) == start + weight_writes(payloads).subrange(
                0,
                index as int,
            ),
        decreases rest.len(),
    {
        let ghost before = rest@;
        assert(crate::weight_pack::contents(before)[0] == before[0]@);
        let weight: Vec<u8> = rest.remove(0);
        assert(crate::weight_pack::contents(rest@) =~= crate::weight_pack::contents(
            before,
        ).subrange(1, before.len() as int));
        let place: usize = if index < 5 {
            STACK_NORM1_WEIGHT + index
        } else {
            STACK_NORM2_WEIGHT + (index - 5)
        };
        let ghost written = writes@;
        writes.push(write_of_bytes(place, weight));
        assert(crate::gpu::write_models(writes@) =~= crate::gpu::write_models(written).push(
            weight_writes(payloads)[index as int],
        ));
        assert(weight_writes(payloads).subrange(0, index + 1) =~= weight_writes(
            payloads,
        ).subrange(0, index as int).push(weight_writes(payloads)[index as int]));
        index += 1;
    }
    assert(weight_writes(payloads).subrange(0, index as int) =~= weight_writes(payloads));
}

fn push_optional(writes: &mut Vec<WritePlan>, place: usize, bytes: Option<Vec<u8>>)
    ensures
        crate::gpu::write_models(final(writes)@) == crate::gpu::write_models(old(writes)@)
            + optional_write(place, crate::operands::option_bytes(bytes)),
{
    let ghost start = writes@;
    match bytes {
        Some(found) => {
            writes.push(write_of_bytes(place, found));
            assert(crate::gpu::write_models(writes@) =~= crate::gpu::write_models(start)
                + optional_write(place, Some(found@)));
        },
        None => {
            assert(crate::gpu::write_models(writes@) =~= crate::gpu::write_models(start)
                + optional_write(place, None));
        },
    }
}

fn zeros(count: usize) -> (bytes: Vec<u8>)
    ensures
        bytes@ == Seq::new(count as nat, |i: int| 0u8),
{
    let mut bytes: Vec<u8> = Vec::new();
    let mut index: usize = 0;
    while index < count
        invariant
            index <= count,
            bytes@ == Seq::new(index as nat, |i: int| 0u8),
        decreases count - index,
    {
        bytes.push(0);
        index += 1;
        assert(bytes@ =~= Seq::new(index as nat, |i: int| 0u8));
    }
    bytes
}

/// The queue writes that fill a new session.
pub fn upload_stack_operands(
    operands: StackBeginOperands,
    prefill_capable: bool,
    logits_capable: bool,
    upload_weights: bool,
) -> (writes: Result<Vec<WritePlan>, String>)
    requires
        operands.layer_weights.len() <= 9,
    ensures
        match writes {
            Ok(found) => crate::gpu::write_models(found@) == stack_uploads(
                operands,
                prefill_capable,
                upload_weights,
            ) && (upload_weights && !logits_capable ==> operands.final_norm_weight_bytes is None
                && operands.lm_head_weight_bytes is None),
            Err(message) => upload_weights && !logits_capable && (
            operands.final_norm_weight_bytes is Some || operands.lm_head_weight_bytes is Some)
                && message@ == "decoder stack session logits resources are missing"@,
        },
{
    let ghost given = operands;
    if upload_weights && !logits_capable && (operands.final_norm_weight_bytes.is_some()
        || operands.lm_head_weight_bytes.is_some()) {
        return Err("decoder stack session logits resources are missing".to_owned());
    }
    let mut writes: Vec<WritePlan> = Vec::new();
    if operands.upload_initial_cache {
        writes.push(write_of_bytes(STACK_KEY_CACHE, operands.key_cache_bytes));
        writes.push(write_of_bytes(STACK_VALUE_CACHE, operands.value_cache_bytes));
    }
    writes.push(write_of_bytes(STACK_ROPE_COS, operands.rope_cos_bytes));
    writes.push(write_of_bytes(STACK_ROPE_SIN, operands.rope_sin_bytes));
    let ghost first = crate::gpu::write_models(writes@);
    assert(first =~= (if given.upload_initial_cache {
        seq![
            crate::gpu::bytes_write(STACK_KEY_CACHE, given.key_cache_bytes@),
            crate::gpu::bytes_write(STACK_VALUE_CACHE, given.value_cache_bytes@),
        ]
    } else {
        Seq::empty()
    }) + seq![
        crate::gpu::bytes_write(STACK_ROPE_COS, given.rope_cos_bytes@),
        crate::gpu::bytes_write(STACK_ROPE_SIN, given.rope_sin_bytes@),
    ]);
    if upload_weights {
        push_weights(&mut writes, operands.layer_weights);
    }
    let ghost second = writes@;
    if prefill_capable {
        let bias: Vec<u8> = zeros(PREFILL_ZERO_BIAS_BYTES as usize);
        writes.push(write_of_bytes(STACK_PREFILL_ZERO_BIAS, bias));
        assert(crate::gpu::write_models(writes@) =~= crate::gpu::write_models(second).push(
            crate::gpu::bytes_write(
                STACK_PREFILL_ZERO_BIAS,
                Seq::new(PREFILL_ZERO_BIAS_BYTES as nat, |i: int| 0u8),
            ),
        ));
    }
    if upload_weights {
        push_optional(
            &mut writes,
            STACK_FINAL_NORM_WEIGHT,
            operands.final_norm_weight_bytes,
        );
        push_optional(&mut writes, STACK_LM_HEAD, operands.lm_head_weight_bytes);
    }
    assert(crate::gpu::write_models(writes@) =~= stack_uploads(
        given,
        prefill_capable,
        upload_weights,
    ));
    Ok(writes)
}

/// The pipelines that read weights.
#[derive(Clone, Copy, Debug)]
pub struct WeightPipelines {
    pub rms_norm: usize,
    pub gemv_tiled: usize,
    pub prefill_projection: usize,
}

/// The pipelines that read weights that are stored in a given way.
pub open spec fn weight_pipelines(storage: WeightStorage) -> WeightPipelines {
    match storage {
        WeightStorage::F32 => WeightPipelines {
            rms_norm: PIPELINE_RMS_NORM,
            gemv_tiled: PIPELINE_GEMV_TILED,
            prefill_projection: PIPELINE_PROJECTION,
        },
        WeightStorage::F16 => WeightPipelines {
            rms_norm: PIPELINE_RMS_NORM_F16,
            gemv_tiled: PIPELINE_GEMV_TILED_F16,
            prefill_projection: PIPELINE_PROJECTION_F16,
        },
    }
}

/// The pipelines that read weights that are stored in a given way.
pub fn decoder_weight_pipelines(storage: WeightStorage) -> (pipelines: WeightPipelines)
    ensures
        pipelines == weight_pipelines(storage),
{
    match storage {
        WeightStorage::F32 => WeightPipelines {
            rms_norm: PIPELINE_RMS_NORM,
            gemv_tiled: PIPELINE_GEMV_TILED,
            prefill_projection: PIPELINE_PROJECTION,
        },
        WeightStorage::F16 => WeightPipelines {
            rms_norm: PIPELINE_RMS_NORM_F16,
            gemv_tiled: PIPELINE_GEMV_TILED_F16,
            prefill_projection: PIPELINE_PROJECTION_F16,
        },
    }
}

/// Where the rows, weights and caches of one layer start.
#[derive(Clone, Copy, Debug)]
pub struct LayerOffsets {
    pub pingpong_in: u64,
    pub pingpong_out: u64,
    pub weights: [u64; 9],
    pub cache: u64,
}

/// Where the rows, weights and caches of one layer start, or why that is not known.
pub open spec fn layer_offsets_outcome(
    resources: WeightResourcePlan,
    hidden_stride: u64,
    cache_stride: u64,
    layer: int,
) -> Result<LayerOffsets, Seq<char>> {
    if layer >= resources.layer_weight_offsets.len() {
        Err("decoder stack physical weight offset is unavailable"@)
    } else if cache_stride * layer > u64::MAX {
        Err("decoder stack cache offset overflowed"@)
    } else {
        Ok(
            LayerOffsets {
                pingpong_in: (hidden_stride * (layer % 2)) as u64,
                pingpong_out: (hidden_stride * ((layer + 1) % 2)) as u64,
                weights: resources.layer_weight_offsets@[layer],
                cache: (cache_stride * layer) as u64,
            },
        )
    }
}

fn layer_offsets(
    resources: &WeightResourcePlan,
    hidden_stride: u64,
    cache_stride: u64,
    layer: u32,
) -> (offsets: Result<LayerOffsets, String>)
    ensures
        crate::text::said(offsets) == layer_offsets_outcome(
            *resources,
            hidden_stride,
            cache_stride,
            layer as int,
        ),
{
    if layer as usize >= resources.layer_weight_offsets.len() {
        return Err("decoder stack physical weight offset is unavailable".to_owned());
    }
    let weights: [u64; 9] = resources.layer_weight_offsets[layer as usize];
    let even: bool = layer % 2 == 0;
    match cache_stride.checked_mul(layer as u64) {
        None => Err("decoder stack cache offset overflowed".to_owned()),
        Some(cache) => {
            let (pingpong_in, pingpong_out): (u64, u64) = if even {
                (0, hidden_stride)
            } else {
                (hidden_stride, 0)
            };
            assert(hidden_stride * (layer as int % 2) == pingpong_in && hidden_stride * ((layer
                + 1) % 2) == pingpong_out) by {
                if even {
                    assert(layer as int % 2 == 0 && (layer + 1) % 2 == 1);
                } else {
                    assert(layer as int % 2 == 1 && (layer + 1) % 2 == 0);
                }
                assert(hidden_stride * 0 == 0 && hidden_stride * 1 == hidden_stride);
            }
            Ok(LayerOffsets { pingpong_in, pingpong_out, weights, cache })
        },
    }
}

/// The passes of one layer of a step.
pub open spec fn step_layer_commands(
    plans: StackPlans,
    transition: KvStepPlan,
    offsets: LayerOffsets,
) -> Seq<CommandModel> {
    let pipelines = weight_pipelines(plans.resources.storage);
    seq![
        crate::gpu::pass_model(
            pipelines.rms_norm,
            GROUP_RMS,
            plans.stack.attention.rms_norm_dispatch,
            seq![offsets.pingpong_in, offsets.weights@[0]],
        ),
        crate::gpu::pass_model(
            pipelines.gemv_tiled,
            GROUP_GEMV_Q,
            plans.stack.attention.query_dispatch,
            seq![offsets.weights@[1]],
        ),
        crate::gpu::pass_model(
            pipelines.gemv_tiled,
            GROUP_GEMV_K,
            plans.stack.attention.key_dispatch,
            seq![offsets.weights@[2]],
        ),
        crate::gpu::pass_model(
            pipelines.gemv_tiled,
            GROUP_GEMV_V,
            plans.stack.attention.value_dispatch,
            seq![offsets.weights@[3]],
        ),
        crate::gpu::pass_model(
            PIPELINE_MROPE,
            GROUP_MROPE,
            plans.stack.attention.mrope_dispatch,
            Seq::empty(),
        ),
        crate::gpu::pass_model(
            PIPELINE_APPEND,
            GROUP_APPEND,
            plans.kv.append_dispatch,
            seq![offsets.cache, offsets.cache],
        ),
        crate::gpu::pass_model(
            PIPELINE_SPLIT_PARTIAL,
            GROUP_SPLIT_PARTIAL,
            transition.split_partial_dispatch,
            seq![offsets.cache, offsets.cache],
        ),
        crate::gpu::pass_model(
            PIPELINE_SPLIT_MERGE,
            GROUP_SPLIT_MERGE,
            transition.split_merge_dispatch,
            seq![offsets.cache, offsets.cache],
        ),
        crate::gpu::pass_model(
            pipelines.gemv_tiled,
            GROUP_GEMV_O,
            plans.stack.attention.output_dispatch,
            seq![offsets.weights@[4]],
        ),
        crate::gpu::pass_model(
            PIPELINE_RESIDUAL,
            GROUP_RESIDUAL,
            plans.stack.attention.residual_dispatch,
            seq![offsets.pingpong_in, 0u64],
        ),
        crate::gpu::pass_model(
            pipelines.rms_norm,
            GROUP_RMS2,
            plans.stack.norm2_dispatch,
            seq![0u64, offsets.weights@[5]],
        ),
        crate::gpu::pass_model(
            pipelines.gemv_tiled,
            GROUP_GEMV_GATE,
            plans.stack.gate_dispatch,
            seq![offsets.weights@[6]],
        ),
        crate::gpu::pass_model(
            pipelines.gemv_tiled,
            GROUP_GEMV_UP,
            plans.stack.up_dispatch,
            seq![offsets.weights@[7]],
        ),
        crate::gpu::pass_model(
            PIPELINE_SWIGLU,
            GROUP_SWIGLU,
            plans.stack.swiglu_dispatch,
            Seq::empty(),
        ),
        crate::gpu::pass_model(
            pipelines.gemv_tiled,
            GROUP_GEMV_DOWN,
            plans.stack.down_dispatch,
            seq![offsets.weights@[8]],
        ),
        crate::gpu::pass_model(
            PIPELINE_RESIDUAL,
            GROUP_RESIDUAL2,
            plans.stack.second_residual_dispatch,
            seq![0u64, offsets.pingpong_out],
        ),
    ]
}

fn step_layer(plans: &StackPlans, transition: &KvStepPlan, offsets: &LayerOffsets) -> (commands: Vec<
    Command,
>)
    ensures
        crate::gpu::command_models(commands@) == step_layer_commands(
            *plans,
            *transition,
            *offsets,
        ),
{
    let pipelines: WeightPipelines = decoder_weight_pipelines(plans.resources.storage);
    let commands: Vec<Command> = vec![
        pass2(
            pipelines.rms_norm,
            GROUP_RMS,
            plans.stack.attention.rms_norm_dispatch,
            offsets.pingpong_in,
            offsets.weights[0],
        ),
        pass1(
            pipelines.gemv_tiled,
            GROUP_GEMV_Q,
            plans.stack.attention.query_dispatch,
            offsets.weights[1],
        ),
        pass1(
            pipelines.gemv_tiled,
            GROUP_GEMV_K,
            plans.stack.attention.key_dispatch,
            offsets.weights[2],
        ),
        pass1(
            pipelines.gemv_tiled,
            GROUP_GEMV_V,
            plans.stack.attention.value_dispatch,
            offsets.weights[3],
        ),
        pass(PIPELINE_MROPE, GROUP_MROPE, plans.stack.attention.mrope_dispatch),
        pass2(
            PIPELINE_APPEND,
            GROUP_APPEND,
            plans.kv.append_dispatch,
            offsets.cache,
            offsets.cache,
        ),
        pass2(
            PIPELINE_SPLIT_PARTIAL,
            GROUP_SPLIT_PARTIAL,
            transition.split_partial_dispatch,
            offsets.cache,
            offsets.cache,
        ),
        pass2(
            PIPELINE_SPLIT_MERGE,
            GROUP_SPLIT_MERGE,
            transition.split_merge_dispatch,
            offsets.cache,
            offsets.cache,
        ),
        pass1(
            pipelines.gemv_tiled,
            GROUP_GEMV_O,
            plans.stack.attention.output_dispatch,
            offsets.weights[4],
        ),
        pass2(
            PIPELINE_RESIDUAL,
            GROUP_RESIDUAL,
            plans.stack.attention.residual_dispatch,
            offsets.pingpong_in,
            0,
        ),
        pass2(pipelines.rms_norm, GROUP_RMS2, plans.stack.norm2_dispatch, 0, offsets.weights[5]),
        pass1(pipelines.gemv_tiled, GROUP_GEMV_GATE, plans.stack.gate_dispatch, offsets.weights[6]),
        pass1(pipelines.gemv_tiled, GROUP_GEMV_UP, plans.stack.up_dispatch, offsets.weights[7]),
        pass(PIPELINE_SWIGLU, GROUP_SWIGLU, plans.stack.swiglu_dispatch),
        pass1(pipelines.gemv_tiled, GROUP_GEMV_DOWN, plans.stack.down_dispatch, offsets.weights[8]),
        pass2(
            PIPELINE_RESIDUAL,
            GROUP_RESIDUAL2,
            plans.stack.second_residual_dispatch,
            0,
            offsets.pingpong_out,
        ),
    ];
    assert(crate::gpu::command_models(commands@) =~= step_layer_commands(
        *plans,
        *transition,
        *offsets,
    ));
    commands
}

/// The passes of a step from one layer on, or why they cannot be planned.
pub open spec fn step_commands_from(
    plans: StackPlans,
    transition: KvStepPlan,
    layer: int,
    made: Seq<CommandModel>,
) -> Result<Seq<CommandModel>, Seq<char>>
    decreases plans.stack.layers - layer,
{
    if layer >= plans.stack.layers {
        Ok(made)
    } else {
        match layer_offsets_outcome(
            plans.resources,
            plans.stack.hidden_stride_bytes,
            plans.stack.cache_stride_bytes,
            layer,
        ) {
            Err(message) => Err(message),
            Ok(offsets) => step_commands_from(
                plans,
                transition,
                layer + 1,
                made + step_layer_commands(plans, transition, offsets),
            ),
        }
    }
}

/// The queue writes of a step.
pub open spec fn stack_step_writes(
    transition: KvStepPlan,
    step: StackStepPlan,
    hidden_row: Seq<u8>,
) -> Seq<WriteModel> {
    seq![
        crate::gpu::bytes_write(STACK_HIDDEN_PINGPONG, hidden_row),
        crate::gpu::words_write(STACK_RMS_UNIFORM, step.stage_words@[0]),
        crate::gpu::words_write(STACK_GEMV_Q_UNIFORM, step.stage_words@[1]),
        crate::gpu::words_write(STACK_GEMV_K_UNIFORM, step.stage_words@[2]),
        crate::gpu::words_write(STACK_GEMV_V_UNIFORM, step.stage_words@[3]),
        crate::gpu::words_write(STACK_MROPE_UNIFORM, step.stage_words@[4]),
        crate::gpu::words_write(STACK_GEMV_O_UNIFORM, step.stage_words@[5]),
        crate::gpu::words_write(STACK_RESIDUAL_UNIFORM, step.stage_words@[6]),
        crate::gpu::words_write(STACK_RMS2_UNIFORM, step.stage_words@[7]),
        crate::gpu::words_write(STACK_GEMV_GATE_UNIFORM, step.stage_words@[8]),
        crate::gpu::words_write(STACK_GEMV_UP_UNIFORM, step.stage_words@[9]),
        crate::gpu::words_write(STACK_SWIGLU_UNIFORM, step.stage_words@[10]),
        crate::gpu::words_write(STACK_GEMV_DOWN_UNIFORM, step.stage_words@[11]),
        crate::gpu::words_write(STACK_RESIDUAL2_UNIFORM, step.stage_words@[12]),
        crate::gpu::words_write(STACK_APPEND_UNIFORM, transition.append_words),
        crate::gpu::words_write(STACK_SPLIT_PARTIAL_UNIFORM, transition.split_words@[0]),
        crate::gpu::words_write(STACK_SPLIT_MERGE_UNIFORM, transition.split_words@[1]),
    ]
}

/// The commands of a step: all layers, then the hidden row out.
pub open spec fn stack_step_outcome(plans: StackPlans, transition: KvStepPlan) -> Result<
    Seq<CommandModel>,
    Seq<char>,
> {
    match step_commands_from(plans, transition, 0, Seq::empty()) {
        Err(message) => Err(message),
        Ok(passes) => Ok(
            passes.push(
                crate::gpu::copy_model(
                    STACK_HIDDEN_PINGPONG,
                    0,
                    STACK_STACK_READBACK,
                    0,
                    plans.stack.hidden_stride_bytes,
                ),
            ),
        ),
    }
}

/// What an operation asks the queue to do, as plain data.
pub open spec fn encoding_said(
    outcome: Result<Encoding, String>,
    writes: Seq<WriteModel>,
    encoder: Seq<char>,
    commands: Result<Seq<CommandModel>, Seq<char>>,
) -> bool {
    match outcome {
        Ok(found) => crate::gpu::write_models(found.writes@) == writes && found.encoder@
            == encoder && commands == Ok::<Seq<CommandModel>, Seq<char>>(
            crate::gpu::command_models(found.commands@),
        ),
        Err(message) => commands == Err::<Seq<CommandModel>, Seq<char>>(message@),
    }
}

fn step_writes(transition: &KvStepPlan, step: &StackStepPlan, hidden_row: Vec<u8>) -> (writes: Vec<
    WritePlan,
>)
    ensures
        crate::gpu::write_models(writes@) == stack_step_writes(*transition, *step, hidden_row@),
{
    let ghost row = hidden_row@;
    let writes: Vec<WritePlan> = vec![
        write_of_bytes(STACK_HIDDEN_PINGPONG, hidden_row),
        write_of_words(STACK_RMS_UNIFORM, &step.stage_words[0]),
        write_of_words(STACK_GEMV_Q_UNIFORM, &step.stage_words[1]),
        write_of_words(STACK_GEMV_K_UNIFORM, &step.stage_words[2]),
        write_of_words(STACK_GEMV_V_UNIFORM, &step.stage_words[3]),
        write_of_words(STACK_MROPE_UNIFORM, &step.stage_words[4]),
        write_of_words(STACK_GEMV_O_UNIFORM, &step.stage_words[5]),
        write_of_words(STACK_RESIDUAL_UNIFORM, &step.stage_words[6]),
        write_of_words(STACK_RMS2_UNIFORM, &step.stage_words[7]),
        write_of_words(STACK_GEMV_GATE_UNIFORM, &step.stage_words[8]),
        write_of_words(STACK_GEMV_UP_UNIFORM, &step.stage_words[9]),
        write_of_words(STACK_SWIGLU_UNIFORM, &step.stage_words[10]),
        write_of_words(STACK_GEMV_DOWN_UNIFORM, &step.stage_words[11]),
        write_of_words(STACK_RESIDUAL2_UNIFORM, &step.stage_words[12]),
        write_of_words(STACK_APPEND_UNIFORM, &transition.append_words),
        write_of_words(STACK_SPLIT_PARTIAL_UNIFORM, &transition.split_words[0]),
        write_of_words(STACK_SPLIT_MERGE_UNIFORM, &transition.split_words[1]),
    ];
    assert(crate::gpu::write_models(writes@) =~= stack_step_writes(*transition, *step, row));
    writes
}

/// Plans the GPU work of one step.
pub fn encode_stack_step(
    plans: &StackPlans,
    transition: &KvStepPlan,
    step: &StackStepPlan,
    hidden_row: Vec<u8>,
) -> (encoding: Result<Encoding, String>)
    ensures
        encoding_said(
            encoding,
            stack_step_writes(*transition, *step, hidden_row@),
            "decoder-stack-session-step-encoder"@,
            stack_step_outcome(*plans, *transition),
        ),
{
    let writes: Vec<WritePlan> = step_writes(transition, step, hidden_row);
    let mut commands: Vec<Command> = Vec::new();
    let mut layer: u32 = 0;
    assert(crate::gpu::command_models(commands@) =~= Seq::<CommandModel>::empty());
    while layer < plans.stack.layers
        invariant
            layer <= plans.stack.layers,
            step_commands_from(*plans, *transition, 0, Seq::empty()) == step_commands_from(
                *plans,
                *transition,
                layer as int,
                crate::gpu::command_models(commands@),
            ),
        decreases plans.stack.layers - layer,
    {
        let offsets: LayerOffsets = layer_offsets(
            &plans.resources,
            plans.stack.hidden_stride_bytes,
            plans.stack.cache_stride_bytes,
            layer,
        )?;
        let ghost before = commands@;
        let mut more: Vec<Command> = step_layer(plans, transition, &offsets);
        let ghost added = more@;
        commands.append(&mut more);
        assert(commands@ =~= before + added);
        assert(crate::gpu::command_models(commands@) =~= crate::gpu::command_models(before)
            + crate::gpu::command_models(added));
        layer += 1;
    }
    let ghost passes = commands@;
    commands.push(
        copy(
            STACK_HIDDEN_PINGPONG,
            0,
            STACK_STACK_READBACK,
            0,
            plans.stack.hidden_stride_bytes,
        ),
    );
    assert(crate::gpu::command_models(commands@) =~= crate::gpu::command_models(passes).push(
        crate::gpu::command_model(commands@.last()),
    ));
    Ok(Encoding { writes, encoder: "decoder-stack-session-step-encoder", commands })
}

/// The passes of one layer of a prefill.
pub open spec fn prefill_layer_commands(
    storage: WeightStorage,
    prefill: PrefillPlan,
    offsets: LayerOffsets,
) -> Seq<CommandModel> {
    let pipelines = weight_pipelines(storage);
    seq![
        crate::gpu::pass_model(
            pipelines.rms_norm,
            GROUP_PREFILL_RMS1,
            prefill.stage_dispatches@[0],
            seq![0u64, offsets.weights@[0]],
        ),
        crate::gpu::pass_model(
            pipelines.prefill_projection,
            GROUP_PREFILL_QUERY,
            prefill.stage_dispatches@[1],
            seq![offsets.weights@[1]],
        ),
        crate::gpu::pass_model(
            pipelines.prefill_projection,
            GROUP_PREFILL_KEY,
            prefill.stage_dispatches@[2],
            seq![offsets.weights@[2]],
        ),
        crate::gpu::pass_model(
            pipelines.prefill_projection,
            GROUP_PREFILL_VALUE,
            prefill.stage_dispatches@[3],
            seq![offsets.weights@[3]],
        ),
        crate::gpu::pass_model(
            PIPELINE_PREFILL_MROPE,
            GROUP_PREFILL_MROPE,
            prefill.stage_dispatches@[4],
            Seq::empty(),
        ),
        crate::gpu::pass_model(
            PIPELINE_APPEND_RANGE,
            GROUP_PREFILL_KV_APPEND_RANGE,
            prefill.stage_dispatches@[5],
            seq![offsets.cache, offsets.cache],
        ),
        crate::gpu::pass_model(
            PIPELINE_PREFILL_GQA,
            GROUP_PREFILL_GQA,
            prefill.stage_dispatches@[6],
            seq![offsets.cache, offsets.cache],
        ),
        crate::gpu::pass_model(
            pipelines.prefill_projection,
            GROUP_PREFILL_OUTPUT,
            prefill.stage_dispatches@[7],
            seq![offsets.weights@[4]],
        ),
        crate::gpu::pass_model(
            PIPELINE_RESIDUAL,
            GROUP_PREFILL_RESIDUAL,
            prefill.stage_dispatches@[8],
            seq![0u64, 0u64],
        ),
        crate::gpu::pass_model(
            pipelines.rms_norm,
            GROUP_PREFILL_RMS2,
            prefill.stage_dispatches@[9],
            seq![0u64, offsets.weights@[5]],
        ),
        crate::gpu::pass_model(
            pipelines.prefill_projection,
            GROUP_PREFILL_GATE,
            prefill.stage_dispatches@[10],
            seq![offsets.weights@[6]],
        ),
        crate::gpu::pass_model(
            pipelines.prefill_projection,
            GROUP_PREFILL_UP,
            prefill.stage_dispatches@[11],
            seq![offsets.weights@[7]],
        ),
        crate::gpu::pass_model(
            PIPELINE_SWIGLU,
            GROUP_PREFILL_SWIGLU,
            prefill.stage_dispatches@[12],
            Seq::empty(),
        ),
        crate::gpu::pass_model(
            pipelines.prefill_projection,
            GROUP_PREFILL_DOWN,
            prefill.stage_dispatches@[13],
            seq![offsets.weights@[8]],
        ),
        crate::gpu::pass_model(
            PIPELINE_RESIDUAL,
            GROUP_PREFILL_RESIDUAL2,
            prefill.stage_dispatches@[14],
            seq![0u64, 0u64],
        ),
    ]
}

fn prefill_layer(storage: WeightStorage, prefill: &PrefillPlan, offsets: &LayerOffsets) -> (commands:
    Vec<Command>)
    ensures
        crate::gpu::command_models(commands@) == prefill_layer_commands(
            storage,
            *prefill,
            *offsets,
        ),
{
    let pipelines: WeightPipelines = decoder_weight_pipelines(storage);
    let commands: Vec<Command> = vec![
        pass2(
            pipelines.rms_norm,
            GROUP_PREFILL_RMS1,
            prefill.stage_dispatches[0],
            0,
            offsets.weights[0],
        ),
        pass1(
            pipelines.prefill_projection,
            GROUP_PREFILL_QUERY,
            prefill.stage_dispatches[1],
            offsets.weights[1],
        ),
        pass1(
            pipelines.prefill_projection,
            GROUP_PREFILL_KEY,
            prefill.stage_dispatches[2],
            offsets.weights[2],
        ),
        pass1(
            pipelines.prefill_projection,
            GROUP_PREFILL_VALUE,
            prefill.stage_dispatches[3],
            offsets.weights[3],
        ),
        pass(PIPELINE_PREFILL_MROPE, GROUP_PREFILL_MROPE, prefill.stage_dispatches[4]),
        pass2(
            PIPELINE_APPEND_RANGE,
            GROUP_PREFILL_KV_APPEND_RANGE,
            prefill.stage_dispatches[5],
            offsets.cache,
            offsets.cache,
        ),
        pass2(
            PIPELINE_PREFILL_GQA,
            GROUP_PREFILL_GQA,
            prefill.stage_dispatches[6],
            offsets.cache,
            offsets.cache,
        ),
        pass1(
            pipelines.prefill_projection,
            GROUP_PREFILL_OUTPUT,
            prefill.stage_dispatches[7],
            offsets.weights[4],
        ),
        pass2(PIPELINE_RESIDUAL, GROUP_PREFILL_RESIDUAL, prefill.stage_dispatches[8], 0, 0),
        pass2(
            pipelines.rms_norm,
            GROUP_PREFILL_RMS2,
            prefill.stage_dispatches[9],
            0,
            offsets.weights[5],
        ),
        pass1(
            pipelines.prefill_projection,
            GROUP_PREFILL_GATE,
            prefill.stage_dispatches[10],
            offsets.weights[6],
        ),
        pass1(
            pipelines.prefill_projection,
            GROUP_PREFILL_UP,
            prefill.stage_dispatches[11],
            offsets.weights[7],
        ),
        pass(PIPELINE_SWIGLU, GROUP_PREFILL_SWIGLU, prefill.stage_dispatches[12]),
        pass1(
            pipelines.prefill_projection,
            GROUP_PREFILL_DOWN,
            prefill.stage_dispatches[13],
            offsets.weights[8],
        ),
        pass2(PIPELINE_RESIDUAL, GROUP_PREFILL_RESIDUAL2, prefill.stage_dispatches[14], 0, 0),
    ];
    assert(crate::gpu::command_models(commands@) =~= prefill_layer_commands(
        storage,
        *prefill,
        *offsets,
    ));
    commands
}

/// The passes of a prefill from one layer on, or why they cannot be planned.
pub open spec fn prefill_commands_from(
    resources: WeightResourcePlan,
    prefill: PrefillPlan,
    layer: int,
    made: Seq<CommandModel>,
) -> Result<Seq<CommandModel>, Seq<char>>
    decreases prefill.layers - layer,
{
    if layer >= prefill.layers {
        Ok(made)
    } else {
        match layer_offsets_outcome(
            resources,
            prefill.hidden_stride_bytes,
            prefill.cache_stride_bytes,
            layer,
        ) {
            Err(message) => Err(message),
            Ok(offsets) => prefill_commands_from(
                resources,
                prefill,
                layer + 1,
                made + prefill_layer_commands(resources.storage, prefill, offsets),
            ),
        }
    }
}

/// The queue writes of a prefill.
pub open spec fn stack_prefill_writes(prefill: PrefillPlan, hidden_states: Seq<u8>) -> Seq<
    WriteModel,
> {
    seq![
        crate::gpu::bytes_write(STACK_PREFILL_HIDDEN_STORAGE, hidden_states),
        crate::gpu::words_write(STACK_RMS_UNIFORM, prefill.stage_words@[0]),
        crate::gpu::words_write(STACK_GEMV_Q_UNIFORM, prefill.stage_words@[1]),
        crate::gpu::words_write(STACK_GEMV_K_UNIFORM, prefill.stage_words@[2]),
        crate::gpu::words_write(STACK_GEMV_V_UNIFORM, prefill.stage_words@[3]),
        crate::gpu::words_write(STACK_MROPE_UNIFORM, prefill.stage_words@[4]),
        crate::gpu::words_write(STACK_APPEND_UNIFORM, prefill.stage_words@[5]),
        crate::gpu::words_write(STACK_ATTENTION_UNIFORM, prefill.stage_words@[6]),
        crate::gpu::words_write(STACK_GEMV_O_UNIFORM, prefill.stage_words@[7]),
        crate::gpu::words_write(STACK_RESIDUAL_UNIFORM, prefill.stage_words@[8]),
        crate::gpu::words_write(STACK_RMS2_UNIFORM, prefill.stage_words@[9]),
        crate::gpu::words_write(STACK_GEMV_GATE_UNIFORM, prefill.stage_words@[10]),
        crate::gpu::words_write(STACK_GEMV_UP_UNIFORM, prefill.stage_words@[11]),
        crate::gpu::words_write(STACK_SWIGLU_UNIFORM, prefill.stage_words@[12]),
        crate::gpu::words_write(STACK_GEMV_DOWN_UNIFORM, prefill.stage_words@[13]),
        crate::gpu::words_write(STACK_RESIDUAL2_UNIFORM, prefill.stage_words@[14]),
    ]
}

/// Where the last row of a prefill starts.
pub open spec fn last_row_offset(tokens: u32, row_bytes: u64) -> int {
    (if tokens == 0 {
        0
    } else {
        tokens - 1
    }) * row_bytes
}

/// The commands of a prefill: all layers, then the last hidden row out.
pub open spec fn stack_prefill_outcome(
    resources: WeightResourcePlan,
    prefill_capable: bool,
    prefill: PrefillPlan,
) -> Result<Seq<CommandModel>, Seq<char>> {
    if !prefill_capable {
        Err("decoder stack session is not prefill capable"@)
    } else {
        match prefill_commands_from(resources, prefill, 0, Seq::empty()) {
            Err(message) => Err(message),
            Ok(passes) => if last_row_offset(prefill.tokens, prefill.hidden_stride_bytes)
                > u64::MAX {
                Err("decoder stack prefill readback offset overflowed"@)
            } else {
                Ok(
                    passes.push(
                        crate::gpu::copy_model(
                            STACK_PREFILL_HIDDEN_STORAGE,
                            last_row_offset(prefill.tokens, prefill.hidden_stride_bytes) as u64,
                            STACK_STACK_READBACK,
                            0,
                            prefill.hidden_stride_bytes,
                        ),
                    ),
                )
            },
        }
    }
}

fn prefill_writes(prefill: &PrefillPlan, hidden_states: Vec<u8>) -> (writes: Vec<WritePlan>)
    ensures
        crate::gpu::write_models(writes@) == stack_prefill_writes(*prefill, hidden_states@),
{
    let ghost states = hidden_states@;
    let writes: Vec<WritePlan> = vec![
        write_of_bytes(STACK_PREFILL_HIDDEN_STORAGE, hidden_states),
        write_of_words(STACK_RMS_UNIFORM, &prefill.stage_words[0]),
        write_of_words(STACK_GEMV_Q_UNIFORM, &prefill.stage_words[1]),
        write_of_words(STACK_GEMV_K_UNIFORM, &prefill.stage_words[2]),
        write_of_words(STACK_GEMV_V_UNIFORM, &prefill.stage_words[3]),
        write_of_words(STACK_MROPE_UNIFORM, &prefill.stage_words[4]),
        write_of_words(STACK_APPEND_UNIFORM, &prefill.stage_words[5]),
        write_of_words(STACK_ATTENTION_UNIFORM, &prefill.stage_words[6]),
        write_of_words(STACK_GEMV_O_UNIFORM, &prefill.stage_words[7]),
        write_of_words(STACK_RESIDUAL_UNIFORM, &prefill.stage_words[8]),
        write_of_words(STACK_RMS2_UNIFORM, &prefill.stage_words[9]),
        write_of_words(STACK_GEMV_GATE_UNIFORM, &prefill.stage_words[10]),
        write_of_words(STACK_GEMV_UP_UNIFORM, &prefill.stage_words[11]),
        write_of_words(STACK_SWIGLU_UNIFORM, &prefill.stage_words[12]),
        write_of_words(STACK_GEMV_DOWN_UNIFORM, &prefill.stage_words[13]),
        write_of_words(STACK_RESIDUAL2_UNIFORM, &prefill.stage_words[14]),
    ];
    assert(crate::gpu::write_models(writes@) =~= stack_prefill_writes(*prefill, states));
    writes
}

/// Plans the GPU work of a prefill.
pub fn encode_stack_prefill(
    resources: &WeightResourcePlan,
    prefill_capable: bool,
    prefill: &PrefillPlan,
    hidden_states: Vec<u8>,
) -> (encoding: Result<Encoding, String>)
    ensures
        encoding_said(
            encoding,
            stack_prefill_writes(*prefill, hidden_states@),
            "decoder-stack-session-prefill-encoder"@,
            stack_prefill_outcome(*resources, prefill_capable, *prefill),
        ),
{
    if !prefill_capable {
        return Err("decoder stack session is not prefill capable".to_owned());
    }
    let writes: Vec<WritePlan> = prefill_writes(prefill, hidden_states);
    let mut commands: Vec<Command> = Vec::new();
    let mut layer: u32 = 0;
    assert(crate::gpu::command_models(commands@) =~= Seq::<CommandModel>::empty());
    while layer < prefill.layers
        invariant
            layer <= prefill.layers,
            prefill_capable,
            prefill_commands_from(*resources, *prefill, 0, Seq::empty())
                == prefill_commands_from(
                *resources,
                *prefill,
                layer as int,
                crate::gpu::command_models(commands@),
            ),
        decreases prefill.layers - layer,
    {
        let offsets: LayerOffsets = layer_offsets(
            resources,
            prefill.hidden_stride_bytes,
            prefill.cache_stride_bytes,
            layer,
        )?;
        let ghost before = commands@;
        let mut more: Vec<Command> = prefill_layer(resources.storage, prefill, &offsets);
        let ghost added = more@;
        commands.append(&mut more);
        assert(commands@ =~= before + added);
        assert(crate::gpu::command_models(commands@) =~= crate::gpu::command_models(before)
            + crate::gpu::command_models(added));
        layer += 1;
    }
    let last: u64 = if prefill.tokens == 0 {
        0
    } else {
        prefill.tokens as u64 - 1
    };
    let offset: u64 = match last.checked_mul(prefill.hidden_stride_bytes) {
        Some(offset) => offset,
        None => {
            return Err("decoder stack prefill readback offset overflowed".to_owned());
        },
    };
    let ghost passes = commands@;
    commands.push(
        copy(
            STACK_PREFILL_HIDDEN_STORAGE,
            offset,
            STACK_STACK_READBACK,
            0,
            prefill.hidden_stride_bytes,
        ),
    );
    assert(crate::gpu::command_models(commands@) =~= crate::gpu::command_models(passes).push(
        crate::gpu::command_model(commands@.last()),
    ));
    Ok(Encoding { writes, encoder: "decoder-stack-session-prefill-encoder", commands })
}

/// The commands of a finish: each cache goes into its own readback.
pub open spec fn stack_finish_commands(cache_bytes: u64) -> Seq<CommandModel> {
    seq![
        crate::gpu::copy_model(STACK_KEY_CACHE, 0, STACK_FINISH_KEY_READBACK, 0, cache_bytes),
        crate::gpu::copy_model(
            STACK_VALUE_CACHE,
            0,
            STACK_FINISH_VALUE_READBACK,
            0,
            cache_bytes,
        ),
    ]
}

/// Plans the GPU work of a finish.
pub fn encode_stack_finish(stack: &StackPlan) -> (encoding: Result<FinishEncoding, String>)
    ensures
        match encoding {
            Ok(found) => {
                let bytes = stack.layers * stack.cache_stride_bytes;
                &&& bytes <= u64::MAX
                &&& found.buffers@ == seq![
                    BufferPlan {
                        label: "decoder-stack-session-finish-key-readback",
                        size: bytes as u64,
                        usage: BufferUsage::Readback,
                    },
                    BufferPlan {
                        label: "decoder-stack-session-finish-value-readback",
                        size: bytes as u64,
                        usage: BufferUsage::Readback,
                    },
                ]
                &&& found.encoder@ == "decoder-stack-session-finish-encoder"@
                &&& crate::gpu::command_models(found.commands@) == stack_finish_commands(
                    bytes as u64,
                )
            },
            Err(message) => stack.layers * stack.cache_stride_bytes > u64::MAX && message@
                == "decoder stack compact cache byte size overflowed"@,
        },
{
    let cache_bytes: u64 = compact_cache_bytes(stack)?;
    let buffers: Vec<BufferPlan> = vec![
        buffer(
            "decoder-stack-session-finish-key-readback",
            cache_bytes,
            BufferUsage::Readback,
        ),
        buffer(
            "decoder-stack-session-finish-value-readback",
            cache_bytes,
            BufferUsage::Readback,
        ),
    ];
    let commands: Vec<Command> = vec![
        copy(STACK_KEY_CACHE, 0, STACK_FINISH_KEY_READBACK, 0, cache_bytes),
        copy(STACK_VALUE_CACHE, 0, STACK_FINISH_VALUE_READBACK, 0, cache_bytes),
    ];
    assert(crate::gpu::command_models(commands@) =~= stack_finish_commands(cache_bytes));
    Ok(FinishEncoding { buffers, encoder: "decoder-stack-session-finish-encoder", commands })
}

/// Where a readout finds the hidden row.
#[derive(Clone, Copy, Debug, PartialEq, Eq, Structural)]
pub struct Readout {
    /// Whether the row is the last one of a prefill, and not the row of a step.
    pub from_prefill: bool,
    pub row_offset: u64,
}

/// How messages name a readout.
pub open spec fn readout_word(top1: bool) -> Seq<char> {
    if top1 {
        "GPU top-1"@
    } else {
        "logits"@
    }
}

fn readout_name(top1: bool) -> (name: &'static str)
    ensures
        name@ == readout_word(top1),
{
    if top1 {
        "GPU top-1"
    } else {
        "logits"
    }
}

/// Where a readout finds the hidden row, or why there is none.
pub open spec fn readout_outcome(
    top1: bool,
    logits_capable: bool,
    prefill_capable: bool,
    cache_tokens: u32,
    initial_cache_tokens: u32,
    prefill_tokens: u32,
) -> Result<Readout, Seq<char>> {
    let admitted = if prefill_capable {
        cache_tokens >= 1
    } else {
        cache_tokens > initial_cache_tokens
    };
    let from_prefill = prefill_capable && cache_tokens == prefill_tokens;
    if !logits_capable {
        Err(
            "decoder stack session does not admit the "@ + readout_word(top1) + " operation"@,
        )
    } else if !admitted {
        Err(
            "decoder stack session "@ + readout_word(top1)
                + " requires an admitted prefill or decode step"@,
        )
    } else {
        Ok(
            Readout {
                from_prefill,
                row_offset: if from_prefill {
                    last_row_offset(prefill_tokens, PREFILL_ROW_BYTES) as u64
                } else {
                    0
                },
            },
        )
    }
}

/// Finds the hidden row that a readout reads: that of the last operation of the session.
pub fn prepare_logits_readout(
    top1: bool,
    logits_capable: bool,
    prefill_capable: bool,
    cache_tokens: u32,
    initial_cache_tokens: u32,
    prefill_tokens: u32,
) -> (readout: Result<Readout, String>)
    ensures
        crate::text::said(readout) == readout_outcome(
            top1,
            logits_capable,
            prefill_capable,
            cache_tokens,
            initial_cache_tokens,
            prefill_tokens,
        ),
{
    if !logits_capable {
        return Err(
            join3("decoder stack session does not admit the ", readout_name(top1), " operation"),
        );
    }
    let admitted: bool = if prefill_capable {
        cache_tokens >= 1
    } else {
        cache_tokens > initial_cache_tokens
    };
    if !admitted {
        return Err(
            join3(
                "decoder stack session ",
                readout_name(top1),
                " requires an admitted prefill or decode step",
            ),
        );
    }
    let from_prefill: bool = prefill_capable && cache_tokens == prefill_tokens;
    let row_offset: u64 = if from_prefill && prefill_tokens > 0 {
        (prefill_tokens as u64 - 1) * PREFILL_ROW_BYTES
    } else {
        0
    };
    Ok(Readout { from_prefill, row_offset })
}

/// The two passes of a readout, or why they cannot be planned.
pub open spec fn readout_passes(
    resources: WeightResourcePlan,
    lm_head: Option<LmHeadPlan>,
    readout: Readout,
    top1: bool,
) -> Result<Seq<CommandModel>, Seq<char>> {
    let pipelines = weight_pipelines(resources.storage);
    match lm_head {
        None => Err(
            "decoder stack session does not admit the "@ + readout_word(top1) + " operation"@,
        ),
        Some(plan) => match resources.final_norm_weight_range {
            None => Err("decoder stack session final-norm resource range is missing"@),
            Some((final_norm, _)) => match resources.lm_head_weight_range {
                None => Err("decoder stack session LM-head resource range is missing"@),
                Some((lm_head, _)) => Ok(
                    seq![
                        crate::gpu::pass_model(
                            pipelines.rms_norm,
                            if readout.from_prefill {
                                GROUP_PREFILL_LOGITS_RMS
                            } else {
                                GROUP_STEP_LOGITS_RMS
                            },
                            plan.stage_dispatches@[0],
                            seq![readout.row_offset, final_norm],
                        ),
                        crate::gpu::pass_model(
                            pipelines.gemv_tiled,
                            GROUP_GEMV_LOGITS,
                            plan.stage_dispatches@[1],
                            seq![lm_head],
                        ),
                    ],
                ),
            },
        },
    }
}

fn encode_readout(
    resources: &WeightResourcePlan,
    lm_head: &Option<LmHeadPlan>,
    readout: &Readout,
    top1: bool,
) -> (commands: Result<Vec<Command>, String>)
    ensures
        (match commands {
            Ok(found) => Ok(crate::gpu::command_models(found@)),
            Err(message) => Err(message@),
        }) == readout_passes(*resources, *lm_head, *readout, top1),
{
    let plan: &LmHeadPlan = match lm_head {
        Some(plan) => plan,
        None => {
            return Err(
                join3(
                    "decoder stack session does not admit the ",
                    readout_name(top1),
                    " operation",
                ),
            );
        },
    };
    let final_norm: u64 = match resources.final_norm_weight_range {
        Some((offset, _)) => offset,
        None => {
            return Err(
                "decoder stack session final-norm resource range is missing".to_owned(),
            );
        },
    };
    let lm_head_offset: u64 = match resources.lm_head_weight_range {
        Some((offset, _)) => offset,
        None => {
            return Err("decoder stack session LM-head resource range is missing".to_owned());
        },
    };
    let pipelines: WeightPipelines = decoder_weight_pipelines(resources.storage);
    let group: usize = if readout.from_prefill {
        GROUP_PREFILL_LOGITS_RMS
    } else {
        GROUP_STEP_LOGITS_RMS
    };
    let commands: Vec<Command> = vec![
        pass2(
            pipelines.rms_norm,
            group,
            plan.stage_dispatches[0],
            readout.row_offset,
            final_norm,
        ),
        pass1(
            pipelines.gemv_tiled,
            GROUP_GEMV_LOGITS,
            plan.stage_dispatches[1],
            lm_head_offset,
        ),
    ];
    assert(crate::gpu::command_models(commands@) =~= readout_passes(
        *resources,
        *lm_head,
        *readout,
        top1,
    )->Ok_0);
    Ok(commands)
}

/// The commands of a logits readout: the norm, the projection, and the logits out.
pub open spec fn logits_commands(
    resources: WeightResourcePlan,
    lm_head: Option<LmHeadPlan>,
    readout: Readout,
) -> Result<Seq<CommandModel>, Seq<char>> {
    match readout_passes(resources, lm_head, readout, false) {
        Err(message) => Err(message),
        Ok(passes) => Ok(
            passes.push(
                crate::gpu::copy_model(
                    STACK_LOGITS,
                    0,
                    STACK_LOGITS_READBACK,
                    0,
                    lm_head->Some_0.logits_bytes,
                ),
            ),
        ),
    }
}

/// Plans the GPU work of a logits readout. It writes nothing.
pub fn encode_stack_logits(
    resources: &WeightResourcePlan,
    lm_head: &Option<LmHeadPlan>,
    readout: &Readout,
) -> (encoding: Result<Encoding, String>)
    ensures
        encoding_said(
            encoding,
            Seq::empty(),
            "decoder-stack-session-logits-encoder"@,
            logits_commands(*resources, *lm_head, *readout),
        ),
{
    let mut commands: Vec<Command> = encode_readout(resources, lm_head, readout, false)?;
    let ghost passes = commands@;
    if let Some(plan) = lm_head {
        commands.push(copy(STACK_LOGITS, 0, STACK_LOGITS_READBACK, 0, plan.logits_bytes));
        assert(crate::gpu::command_models(commands@) =~= crate::gpu::command_models(
            passes,
        ).push(crate::gpu::command_model(commands@.last())));
    }
    let writes: Vec<WritePlan> = Vec::new();
    assert(crate::gpu::write_models(writes@) =~= Seq::<WriteModel>::empty());
    Ok(Encoding { writes, encoder: "decoder-stack-session-logits-encoder", commands })
}

/// The commands of a token selection: the norm, the projection, the selection, and its result
/// out.
pub open spec fn top1_commands(
    resources: WeightResourcePlan,
    lm_head: Option<LmHeadPlan>,
    readout: Readout,
) -> Result<Seq<CommandModel>, Seq<char>> {
    match readout_passes(resources, lm_head, readout, true) {
        Err(message) => Err(message),
        Ok(passes) => Ok(
            passes.push(
                crate::gpu::pass_model(PIPELINE_TOP1, GROUP_TOP1, [1u32, 1, 1], Seq::empty()),
            ).push(
                crate::gpu::copy_model(
                    STACK_TOP1_RESULT,
                    0,
                    STACK_TOP1_READBACK,
                    0,
                    TOP1_RESULT_BYTES,
                ),
            ),
        ),
    }
}

/// Plans the GPU work of a token selection. It writes nothing, and reads back only the
/// selected token and its score.
pub fn encode_stack_top1(
    resources: &WeightResourcePlan,
    lm_head: &Option<LmHeadPlan>,
    readout: &Readout,
) -> (encoding: Result<Encoding, String>)
    ensures
        encoding_said(
            encoding,
            Seq::empty(),
            "decoder-stack-session-top1-encoder"@,
            top1_commands(*resources, *lm_head, *readout),
        ),
{
    let mut commands: Vec<Command> = encode_readout(resources, lm_head, readout, true)?;
    let ghost passes = commands@;
    commands.push(pass(PIPELINE_TOP1, GROUP_TOP1, [1, 1, 1]));
    commands.push(copy(STACK_TOP1_RESULT, 0, STACK_TOP1_READBACK, 0, TOP1_RESULT_BYTES));
    assert([1u32, 1, 1]@ =~= seq![1u32, 1, 1]);
    assert(crate::gpu::command_models(commands@) =~= top1_commands(
        *resources,
        *lm_head,
        *readout,
    )->Ok_0);
    let writes: Vec<WritePlan> = Vec::new();
    assert(crate::gpu::write_models(writes@) =~= Seq::<WriteModel>::empty());
    Ok(Encoding { writes, encoder: "decoder-stack-session-top1-encoder", commands })
}

/// A selected token and the bits of its score, or why a readback holds none.
pub open spec fn top1_outcome(output: Seq<u8>) -> Result<(u32, u32), Seq<char>> {
    if output.len() != TOP1_RESULT_BYTES {
        Err("decoder stack GPU top-1 readback is truncated"@)
    } else if crate::words::word32(output, 0) >= PINNED_VOCAB_SIZE || !crate::ieee::single_finite(
        crate::words::word32(output, 4),
    ) {
        Err("decoder stack GPU top-1 returned an invalid token or score"@)
    } else {
        Ok((crate::words::word32(output, 0), crate::words::word32(output, 4)))
    }
}

/// Reads a selected token and the bits of its score out of a readback.
pub fn decode_top1(output: &[u8]) -> (selected: Result<(u32, u32), String>)
    ensures
        crate::text::said(selected) == top1_outcome(output@),
{
    if output.len() != TOP1_RESULT_BYTES as usize {
        return Err("decoder stack GPU top-1 readback is truncated".to_owned());
    }
    let token_id: u32 = pack_u32_le(output, 0);
    let score: u32 = pack_u32_le(output, 4);
    if token_id >= PINNED_VOCAB_SIZE || !single_is_finite(score) {
        return Err("decoder stack GPU top-1 returned an invalid token or score".to_owned());
    }
    Ok((token_id, score))
}

/// Whether all single-precision bit patterns are finite.
pub open spec fn all_finite(words: Seq<u32>) -> bool {
    forall|i: int| 0 <= i < words.len() ==> crate::ieee::single_finite(#[trigger] words[i])
}

/// Whether all single-precision bit patterns are finite.
pub fn words_are_finite(words: &[u32]) -> (finite: bool)
    ensures
        finite == all_finite(words@),
{
    let mut index: usize = 0;
    while index < words.len()
        invariant
            index <= words.len(),
            forall|i: int|
                0 <= i < index ==> crate::ieee::single_finite(#[trigger] words@[i]),
        decreases words.len() - index,
    {
        if !single_is_finite(words[index]) {
            return false;
        }
        index += 1;
    }
    true
}

/// The hidden states of a prefill, or why they are refused.
pub open spec fn prefill_operand_outcome(
    cache_tokens: u32,
    tokens: u32,
    hidden_states: Option<Seq<u8>>,
) -> Result<Seq<u8>, Seq<char>> {
    if cache_tokens != 0 {
        Err("decoder stack session prefill requires a zero-prefix cache position"@)
    } else {
        match crate::operands::operand_outcome(Family::Stack, hidden_states) {
            Err(message) => Err(message),
            Ok(bytes) => match crate::operands::words_outcome(bytes, "prefill hidden states"@) {
                Err(message) => Err(message),
                Ok(words) => if bytes.len() != tokens * PREFILL_ROW_BYTES {
                    Err(
                        "decoder stack prefill hidden states byte length does not match the admitted token count"@,
                    )
                } else if !all_finite(words) {
                    Err(
                        "decoder stack prefill hidden states contain a nonfinite f32 element"@,
                    )
                } else {
                    Ok(bytes)
                },
            },
        }
    }
}

/// Admits the hidden states of a prefill: one row for every planned token, all of them finite,
/// into empty caches.
pub fn prepare_prefill(cache_tokens: u32, tokens: u32, hidden_states: Option<Vec<u8>>) -> (bytes:
    Result<Vec<u8>, String>)
    ensures
        crate::operands::bytes_said(bytes) == prefill_operand_outcome(
            cache_tokens,
            tokens,
            crate::operands::option_bytes(hidden_states),
        ),
{
    if cache_tokens != 0 {
        return Err(
            "decoder stack session prefill requires a zero-prefix cache position".to_owned(),
        );
    }
    let bytes: Vec<u8> = operand_to_bytes(Family::Stack, hidden_states)?;
    let words: Vec<u32> = bytes_to_words(bytes.as_slice(), "prefill hidden states")?;
    let expected: u64 = tokens as u64 * PREFILL_ROW_BYTES;
    if bytes.len() as u64 != expected {
        return Err(
            "decoder stack prefill hidden states byte length does not match the admitted token count".to_owned(),
        );
    }
    if !words_are_finite(words.as_slice()) {
        return Err(
            "decoder stack prefill hidden states contain a nonfinite f32 element".to_owned(),
        );
    }
    Ok(bytes)
}

/// The tokens in the caches once an operation is done: a step appends one row, a prefill fills
/// its rows, and every other operation leaves the caches as they are.
pub open spec fn tokens_after(
    operation: Operation,
    cache_tokens: u32,
    transition_after: u32,
    prefill_tokens: u32,
) -> u32 {
    match operation {
        Operation::Step => transition_after,
        Operation::Prefill => prefill_tokens,
        _ => cache_tokens,
    }
}

/// The tokens in the caches once an operation is done.
pub fn cache_tokens_after(
    operation: Operation,
    cache_tokens: u32,
    transition_after: u32,
    prefill_tokens: u32,
) -> (tokens: u32)
    ensures
        tokens == tokens_after(operation, cache_tokens, transition_after, prefill_tokens),
{
    match operation {
        Operation::Step => transition_after,
        Operation::Prefill => prefill_tokens,
        _ => cache_tokens,
    }
}

} // verus!
