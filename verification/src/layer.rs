//! The attention-block session of one layer: its plan and its GPU work.

use crate::family::Family;
use crate::gpu::{
    buffer, copy, derived, pass, write_of_bytes, write_of_words, BindGroupModel, BindGroupPlan,
    Binding, BufferPlan, BufferUsage, Command, CommandModel, DerivedModel, DerivedPipeline,
    WriteModel, WritePlan,
};
use crate::kv::{Encoding, FinishEncoding, KvPlan, KvStepPlan, UNIFORM_BUFFER_BYTES};
use crate::layer_report::{LayerShaderSources, LayerSourcesModel};
use crate::limits::{require_bindings, require_dispatches, DeviceLimits};
use crate::sizes::{checked_u64_bytes, checked_u64_weight_bytes};
use vstd::prelude::*;

verus! {

/// What the planner decided about an attention block.
#[derive(Clone, Copy, Debug)]
pub struct AttentionPlan {
    pub hidden_size: u32,
    pub query_heads: u32,
    pub key_value_heads: u32,
    pub head_dim: u32,
    /// The single-precision bits of the RMS-norm epsilon.
    pub rms_norm_epsilon: u32,
    /// The elements of one query row.
    pub query_width: usize,
    /// The elements of one key or value row.
    pub key_value_width: usize,
    /// The elements of one rotary table.
    pub rope_elements: usize,
    pub rms_norm_dispatch: [u32; 3],
    pub query_dispatch: [u32; 3],
    pub key_dispatch: [u32; 3],
    pub value_dispatch: [u32; 3],
    pub mrope_dispatch: [u32; 3],
    pub output_dispatch: [u32; 3],
    pub residual_dispatch: [u32; 3],
}

/// What the planner decided about one step of an attention block.
#[derive(Clone, Copy, Debug)]
pub struct AttentionStepPlan {
    /// The uniform words of the stages: RMS norm, query, key, value, M-RoPE, output and
    /// residual.
    pub stage_words: [[u32; 4]; 7],
}

pub const LAYER_HIDDEN_TOKEN: usize = 0;

pub const LAYER_NORM1_WEIGHT: usize = 1;

pub const LAYER_Q_WEIGHT: usize = 2;

pub const LAYER_K_WEIGHT: usize = 3;

pub const LAYER_V_WEIGHT: usize = 4;

pub const LAYER_O_WEIGHT: usize = 5;

pub const LAYER_ROPE_COS: usize = 6;

pub const LAYER_ROPE_SIN: usize = 7;

pub const LAYER_NORM1: usize = 8;

pub const LAYER_Q_PROJECTION: usize = 9;

pub const LAYER_K_PROJECTION: usize = 10;

pub const LAYER_V_PROJECTION: usize = 11;

pub const LAYER_MROPE_QUERY: usize = 12;

pub const LAYER_MROPE_KEY: usize = 13;

pub const LAYER_KEY_CACHE: usize = 14;

pub const LAYER_VALUE_CACHE: usize = 15;

pub const LAYER_ATTENTION_OUTPUT: usize = 16;

pub const LAYER_O_PROJECTION: usize = 17;

pub const LAYER_ATTENTION_RESIDUAL: usize = 18;

pub const LAYER_LAYER_READBACK: usize = 19;

pub const LAYER_RMS_UNIFORM: usize = 20;

pub const LAYER_GEMV_Q_UNIFORM: usize = 21;

pub const LAYER_GEMV_K_UNIFORM: usize = 22;

pub const LAYER_GEMV_V_UNIFORM: usize = 23;

pub const LAYER_MROPE_UNIFORM: usize = 24;

pub const LAYER_APPEND_UNIFORM: usize = 25;

pub const LAYER_ATTENTION_UNIFORM: usize = 26;

pub const LAYER_GEMV_O_UNIFORM: usize = 27;

pub const LAYER_RESIDUAL_UNIFORM: usize = 28;


/// The place of the first buffer that a finish adds.
pub const LAYER_FINISH_KEY_READBACK: usize = 29;

/// The place of the second buffer that a finish adds.
pub const LAYER_FINISH_VALUE_READBACK: usize = 30;

pub const LAYER_PIPELINE_RMS_NORM: usize = 0;

pub const LAYER_PIPELINE_GEMV: usize = 1;

pub const LAYER_PIPELINE_MROPE: usize = 2;

pub const LAYER_PIPELINE_APPEND: usize = 3;

pub const LAYER_PIPELINE_ATTENTION: usize = 4;

pub const LAYER_PIPELINE_RESIDUAL: usize = 5;


pub const LAYER_GROUP_RMS: usize = 0;

pub const LAYER_GROUP_GEMV_Q: usize = 1;

pub const LAYER_GROUP_GEMV_K: usize = 2;

pub const LAYER_GROUP_GEMV_V: usize = 3;

pub const LAYER_GROUP_MROPE: usize = 4;

pub const LAYER_GROUP_APPEND: usize = 5;

pub const LAYER_GROUP_ATTENTION: usize = 6;

pub const LAYER_GROUP_GEMV_O: usize = 7;

pub const LAYER_GROUP_RESIDUAL: usize = 8;


/// The byte sizes of the rows, tables and weights of an attention block.
#[derive(Clone, Copy, Debug)]
pub struct LayerSizes {
    pub hidden: u64,
    pub query: u64,
    pub key_value: u64,
    pub rope: u64,
    pub q_weight: u64,
    pub key_value_weight: u64,
    pub o_weight: u64,
}

/// The row and table sizes of an attention block, or the first that cannot be counted.
pub open spec fn row_sizes_outcome(plan: AttentionPlan) -> Result<(u64, u64, u64, u64), Seq<char>> {
    match crate::sizes::byte_size(plan.hidden_size as int, "decoder hidden row"@) {
        Err(message) => Err(message),
        Ok(hidden) => match crate::sizes::byte_size(
            plan.query_width as int,
            "decoder query row"@,
        ) {
            Err(message) => Err(message),
            Ok(query) => match crate::sizes::byte_size(
                plan.key_value_width as int,
                "decoder key/value row"@,
            ) {
                Err(message) => Err(message),
                Ok(key_value) => match crate::sizes::byte_size(
                    plan.rope_elements as int,
                    "decoder rope table"@,
                ) {
                    Err(message) => Err(message),
                    Ok(rope) => Ok((hidden, query, key_value, rope)),
                },
            },
        },
    }
}

/// The sizes of an attention block, or the first that cannot be counted.
pub open spec fn layer_sizes_outcome(plan: AttentionPlan) -> Result<LayerSizes, Seq<char>> {
    match row_sizes_outcome(plan) {
        Err(message) => Err(message),
        Ok((hidden, query, key_value, rope)) => match crate::sizes::weight_byte_size(
            plan.query_width as int,
            plan.hidden_size as int,
            "decoder query weight"@,
        ) {
            Err(message) => Err(message),
            Ok(q_weight) => match crate::sizes::weight_byte_size(
                plan.key_value_width as int,
                plan.hidden_size as int,
                "decoder key/value weight"@,
            ) {
                Err(message) => Err(message),
                Ok(key_value_weight) => match crate::sizes::weight_byte_size(
                    plan.hidden_size as int,
                    plan.query_width as int,
                    "decoder output weight"@,
                ) {
                    Err(message) => Err(message),
                    Ok(o_weight) => Ok(
                        LayerSizes {
                            hidden,
                            query,
                            key_value,
                            rope,
                            q_weight,
                            key_value_weight,
                            o_weight,
                        },
                    ),
                },
            },
        },
    }
}

fn row_sizes(plan: &AttentionPlan) -> (sizes: Result<(u64, u64, u64, u64), String>)
    ensures
        crate::text::said(sizes) == row_sizes_outcome(*plan),
{
    let hidden: u64 = checked_u64_bytes(plan.hidden_size as usize, "decoder hidden row")?;
    let query: u64 = checked_u64_bytes(plan.query_width, "decoder query row")?;
    let key_value: u64 = checked_u64_bytes(plan.key_value_width, "decoder key/value row")?;
    let rope: u64 = checked_u64_bytes(plan.rope_elements, "decoder rope table")?;
    Ok((hidden, query, key_value, rope))
}

/// The sizes of an attention block.
pub fn layer_sizes(plan: &AttentionPlan) -> (sizes: Result<LayerSizes, String>)
    ensures
        crate::text::said(sizes) == layer_sizes_outcome(*plan),
{
    let (hidden, query, key_value, rope) = row_sizes(plan)?;
    let q_weight: u64 = checked_u64_weight_bytes(
        plan.query_width,
        plan.hidden_size as usize,
        "decoder query weight",
    )?;
    let key_value_weight: u64 = checked_u64_weight_bytes(
        plan.key_value_width,
        plan.hidden_size as usize,
        "decoder key/value weight",
    )?;
    let o_weight: u64 = checked_u64_weight_bytes(
        plan.hidden_size as usize,
        plan.query_width,
        "decoder output weight",
    )?;
    Ok(LayerSizes { hidden, query, key_value, rope, q_weight, key_value_weight, o_weight })
}

/// What is wrong with the sizes of a session on a device.
pub open spec fn layer_sizes_complaint(
    limits: DeviceLimits,
    kv_plan: KvPlan,
    plan: AttentionPlan,
) -> Option<Seq<char>> {
    match row_sizes_outcome(plan) {
        Err(message) => Some(message),
        Ok((hidden, query, key_value, rope)) => match crate::sizes::weight_byte_size(
            plan.query_width as int,
            plan.hidden_size as int,
            "decoder query weight"@,
        ) {
            Err(message) => Some(message),
            Ok(q_weight) => match crate::sizes::weight_byte_size(
                plan.key_value_width as int,
                plan.hidden_size as int,
                "decoder key weight"@,
            ) {
                Err(message) => Some(message),
                Ok(k_weight) => {
                    let sizes = seq![
                        ("decoder layer query weight"@, q_weight),
                        ("decoder layer key weight"@, k_weight),
                        ("decoder layer rope table"@, rope),
                        ("decoder layer compact cache"@, kv_plan.cache_bytes),
                        ("decoder layer attention output"@, kv_plan.attention_bytes),
                        ("decoder layer hidden row"@, hidden),
                        ("decoder layer query row"@, query),
                        ("decoder layer key/value row"@, key_value),
                    ];
                    match crate::limits::binding_complaint_from(
                        sizes,
                        limits.max_storage_buffer_binding_size,
                        0,
                    ) {
                        Some(message) => Some(message),
                        None => if q_weight > limits.max_buffer_size || kv_plan.cache_bytes
                            > limits.max_buffer_size {
                            Some(
                                "decoder layer session allocations exceed the adapter buffer size limit"@,
                            )
                        } else {
                            None
                        },
                    }
                },
            },
        },
    }
}

/// What a dispatch planner says of the invocations of an attention block: nothing, or how one
/// exceeds the device.
pub struct AttentionVerdicts {
    pub rms_norm: Option<String>,
    pub query: Option<String>,
    pub key: Option<String>,
    pub value: Option<String>,
    pub mrope: Option<String>,
    pub append: Option<String>,
    pub attention: Option<String>,
    pub output: Option<String>,
    pub residual: Option<String>,
}

/// What a dispatch planner says of the invocations of an attention block, in the order in which
/// it is heard.
pub open spec fn attention_verdict_texts(verdicts: AttentionVerdicts) -> Seq<Option<Seq<char>>> {
    crate::limits::verdict_texts(
        seq![
            verdicts.rms_norm,
            verdicts.query,
            verdicts.key,
            verdicts.value,
            verdicts.mrope,
            verdicts.append,
            verdicts.attention,
            verdicts.output,
            verdicts.residual,
        ],
    )
}

/// What a dispatch planner says of the invocations of an attention block, in the order in which
/// it is heard.
pub fn attention_verdict_list(verdicts: AttentionVerdicts) -> (heard: Vec<Option<String>>)
    ensures
        crate::limits::verdict_texts(heard@) == attention_verdict_texts(verdicts),
{
    let ghost texts = attention_verdict_texts(verdicts);
    let heard: Vec<Option<String>> = vec![
        verdicts.rms_norm,
        verdicts.query,
        verdicts.key,
        verdicts.value,
        verdicts.mrope,
        verdicts.append,
        verdicts.attention,
        verdicts.output,
        verdicts.residual,
    ];
    assert(crate::limits::verdict_texts(heard@) =~= texts);
    heard
}

/// What a device lacks for a session.
pub open spec fn layer_capabilities_complaint(
    limits: DeviceLimits,
    kv_plan: KvPlan,
    plan: AttentionPlan,
    verdicts: Seq<Option<Seq<char>>>,
) -> Option<Seq<char>> {
    if limits.max_storage_buffers_per_shader_stage < 6 {
        Some("decoder layer session requires six storage buffers per shader stage"@)
    } else {
        crate::text::earlier(
            crate::limits::dispatch_complaint_from(Family::Layer, verdicts, 0),
            layer_sizes_complaint(limits, kv_plan, plan),
        )
    }
}

fn require_layer_sizes(limits: &DeviceLimits, kv_plan: &KvPlan, plan: &AttentionPlan) -> (outcome:
    Result<(), String>)
    ensures
        crate::text::complaint(outcome) == layer_sizes_complaint(*limits, *kv_plan, *plan),
{
    let (hidden, query, key_value, rope) = row_sizes(plan)?;
    let q_weight: u64 = checked_u64_weight_bytes(
        plan.query_width,
        plan.hidden_size as usize,
        "decoder query weight",
    )?;
    let k_weight: u64 = checked_u64_weight_bytes(
        plan.key_value_width,
        plan.hidden_size as usize,
        "decoder key weight",
    )?;
    let sizes: Vec<(&'static str, u64)> = vec![
        ("decoder layer query weight", q_weight),
        ("decoder layer key weight", k_weight),
        ("decoder layer rope table", rope),
        ("decoder layer compact cache", kv_plan.cache_bytes),
        ("decoder layer attention output", kv_plan.attention_bytes),
        ("decoder layer hidden row", hidden),
        ("decoder layer query row", query),
        ("decoder layer key/value row", key_value),
    ];
    assert(crate::limits::named_sizes(sizes@) =~= seq![
        ("decoder layer query weight"@, q_weight),
        ("decoder layer key weight"@, k_weight),
        ("decoder layer rope table"@, rope),
        ("decoder layer compact cache"@, kv_plan.cache_bytes),
        ("decoder layer attention output"@, kv_plan.attention_bytes),
        ("decoder layer hidden row"@, hidden),
        ("decoder layer query row"@, query),
        ("decoder layer key/value row"@, key_value),
    ]);
    require_bindings(&sizes, limits.max_storage_buffer_binding_size)?;
    if q_weight > limits.max_buffer_size || kv_plan.cache_bytes > limits.max_buffer_size {
        return Err(
            "decoder layer session allocations exceed the adapter buffer size limit".to_owned(),
        );
    }
    Ok(())
}

/// Requires a device to be able to run a session.
pub fn validate_layer_capabilities(
    limits: &DeviceLimits,
    kv_plan: &KvPlan,
    plan: &AttentionPlan,
    verdicts: AttentionVerdicts,
) -> (outcome: Result<(), String>)
    ensures
        crate::text::complaint(outcome) == layer_capabilities_complaint(
            *limits,
            *kv_plan,
            *plan,
            attention_verdict_texts(verdicts),
        ),
{
    if limits.max_storage_buffers_per_shader_stage < 6 {
        return Err(
            "decoder layer session requires six storage buffers per shader stage".to_owned(),
        );
    }
    let heard: Vec<Option<String>> = attention_verdict_list(verdicts);
    require_dispatches(Family::Layer, &heard)?;
    require_layer_sizes(limits, kv_plan, plan)
}

/// The buffers of a session.
pub open spec fn layer_buffers(kv_plan: KvPlan, sizes: LayerSizes) -> Seq<BufferPlan> {
    seq![
        BufferPlan {
            label: "decoder-layer-session-hidden-token",
            size: sizes.hidden,
            usage: BufferUsage::StorageInput,
        },
        BufferPlan {
            label: "decoder-layer-session-norm1-weight",
            size: sizes.hidden,
            usage: BufferUsage::StorageInput,
        },
        BufferPlan {
            label: "decoder-layer-session-q-weight",
            size: sizes.q_weight,
            usage: BufferUsage::StorageInput,
        },
        BufferPlan {
            label: "decoder-layer-session-k-weight",
            size: sizes.key_value_weight,
            usage: BufferUsage::StorageInput,
        },
        BufferPlan {
            label: "decoder-layer-session-v-weight",
            size: sizes.key_value_weight,
            usage: BufferUsage::StorageInput,
        },
        BufferPlan {
            label: "decoder-layer-session-o-weight",
            size: sizes.o_weight,
            usage: BufferUsage::StorageInput,
        },
        BufferPlan {
            label: "decoder-layer-session-rope-cos",
            size: sizes.rope,
            usage: BufferUsage::StorageInput,
        },
        BufferPlan {
            label: "decoder-layer-session-rope-sin",
            size: sizes.rope,
            usage: BufferUsage::StorageInput,
        },
        BufferPlan {
            label: "decoder-layer-session-norm1",
            size: sizes.hidden,
            usage: BufferUsage::StorageInput,
        },
        BufferPlan {
            label: "decoder-layer-session-q-projection",
            size: sizes.query,
            usage: BufferUsage::StorageInput,
        },
        BufferPlan {
            label: "decoder-layer-session-k-projection",
            size: sizes.key_value,
            usage: BufferUsage::StorageInput,
        },
        BufferPlan {
            label: "decoder-layer-session-v-projection",
            size: sizes.key_value,
            usage: BufferUsage::StorageInput,
        },
        BufferPlan {
            label: "decoder-layer-session-mrope-query",
            size: sizes.query,
            usage: BufferUsage::StorageInput,
        },
        BufferPlan {
            label: "decoder-layer-session-mrope-key",
            size: sizes.key_value,
            usage: BufferUsage::StorageInput,
        },
        BufferPlan {
            label: "decoder-layer-session-key-cache",
            size: kv_plan.cache_bytes,
            usage: BufferUsage::StorageCache,
        },
        BufferPlan {
            label: "decoder-layer-session-value-cache",
            size: kv_plan.cache_bytes,
            usage: BufferUsage::StorageCache,
        },
        BufferPlan {
            label: "decoder-layer-session-attention-output",
            size: kv_plan.attention_bytes,
            usage: BufferUsage::StorageCache,
        },
        BufferPlan {
            label: "decoder-layer-session-o-projection",
            size: sizes.hidden,
            usage: BufferUsage::StorageInput,
        },
        BufferPlan {
            label: "decoder-layer-session-attention-residual",
            size: sizes.hidden,
            usage: BufferUsage::StorageCache,
        },
        BufferPlan {
            label: "decoder-layer-session-layer-readback",
            size: sizes.hidden,
            usage: BufferUsage::Readback,
        },
        BufferPlan {
            label: "decoder-layer-session-rms-uniform",
            size: UNIFORM_BUFFER_BYTES,
            usage: BufferUsage::Uniform,
        },
        BufferPlan {
            label: "decoder-layer-session-gemv-q-uniform",
            size: UNIFORM_BUFFER_BYTES,
            usage: BufferUsage::Uniform,
        },
        BufferPlan {
            label: "decoder-layer-session-gemv-k-uniform",
            size: UNIFORM_BUFFER_BYTES,
            usage: BufferUsage::Uniform,
        },
        BufferPlan {
            label: "decoder-layer-session-gemv-v-uniform",
            size: UNIFORM_BUFFER_BYTES,
            usage: BufferUsage::Uniform,
        },
        BufferPlan {
            label: "decoder-layer-session-mrope-uniform",
            size: UNIFORM_BUFFER_BYTES,
            usage: BufferUsage::Uniform,
        },
        BufferPlan {
            label: "decoder-layer-session-append-uniform",
            size: UNIFORM_BUFFER_BYTES,
            usage: BufferUsage::Uniform,
        },
        BufferPlan {
            label: "decoder-layer-session-attention-uniform",
            size: UNIFORM_BUFFER_BYTES,
            usage: BufferUsage::Uniform,
        },
        BufferPlan {
            label: "decoder-layer-session-gemv-o-uniform",
            size: UNIFORM_BUFFER_BYTES,
            usage: BufferUsage::Uniform,
        },
        BufferPlan {
            label: "decoder-layer-session-residual-uniform",
            size: UNIFORM_BUFFER_BYTES,
            usage: BufferUsage::Uniform,
        },
    ]
}

/// The bind groups of a session.
pub open spec fn layer_bind_groups(kv_plan: KvPlan, sizes: LayerSizes) -> Seq<BindGroupModel> {
    seq![
        BindGroupModel {
            label: "decoder-layer-session-rms-bind-group",
            pipeline: LAYER_PIPELINE_RMS_NORM,
            bindings: seq![
                Binding { buffer: LAYER_HIDDEN_TOKEN, size: sizes.hidden },
                Binding { buffer: LAYER_NORM1_WEIGHT, size: sizes.hidden },
                Binding { buffer: LAYER_NORM1, size: sizes.hidden },
                Binding { buffer: LAYER_RMS_UNIFORM, size: UNIFORM_BUFFER_BYTES },
            ],
        },
        BindGroupModel {
            label: "decoder-layer-session-gemv-q-bind-group",
            pipeline: LAYER_PIPELINE_GEMV,
            bindings: seq![
                Binding { buffer: LAYER_Q_WEIGHT, size: sizes.q_weight },
                Binding { buffer: LAYER_NORM1, size: sizes.hidden },
                Binding { buffer: LAYER_Q_PROJECTION, size: sizes.query },
                Binding { buffer: LAYER_GEMV_Q_UNIFORM, size: UNIFORM_BUFFER_BYTES },
            ],
        },
        BindGroupModel {
            label: "decoder-layer-session-gemv-k-bind-group",
            pipeline: LAYER_PIPELINE_GEMV,
            bindings: seq![
                Binding { buffer: LAYER_K_WEIGHT, size: sizes.key_value_weight },
                Binding { buffer: LAYER_NORM1, size: sizes.hidden },
                Binding { buffer: LAYER_K_PROJECTION, size: sizes.key_value },
                Binding { buffer: LAYER_GEMV_K_UNIFORM, size: UNIFORM_BUFFER_BYTES },
            ],
        },
        BindGroupModel {
            label: "decoder-layer-session-gemv-v-bind-group",
            pipeline: LAYER_PIPELINE_GEMV,
            bindings: seq![
                Binding { buffer: LAYER_V_WEIGHT, size: sizes.key_value_weight },
                Binding { buffer: LAYER_NORM1, size: sizes.hidden },
                Binding { buffer: LAYER_V_PROJECTION, size: sizes.key_value },
                Binding { buffer: LAYER_GEMV_V_UNIFORM, size: UNIFORM_BUFFER_BYTES },
            ],
        },
        BindGroupModel {
            label: "decoder-layer-session-mrope-bind-group",
            pipeline: LAYER_PIPELINE_MROPE,
            bindings: seq![
                Binding { buffer: LAYER_Q_PROJECTION, size: sizes.query },
                Binding { buffer: LAYER_K_PROJECTION, size: sizes.key_value },
                Binding { buffer: LAYER_ROPE_COS, size: sizes.rope },
                Binding { buffer: LAYER_ROPE_SIN, size: sizes.rope },
                Binding { buffer: LAYER_MROPE_QUERY, size: sizes.query },
                Binding { buffer: LAYER_MROPE_KEY, size: sizes.key_value },
                Binding { buffer: LAYER_MROPE_UNIFORM, size: UNIFORM_BUFFER_BYTES },
            ],
        },
        BindGroupModel {
            label: "decoder-layer-session-append-bind-group",
            pipeline: LAYER_PIPELINE_APPEND,
            bindings: seq![
                Binding { buffer: LAYER_MROPE_KEY, size: sizes.key_value },
                Binding { buffer: LAYER_V_PROJECTION, size: sizes.key_value },
                Binding { buffer: LAYER_KEY_CACHE, size: kv_plan.cache_bytes },
                Binding { buffer: LAYER_VALUE_CACHE, size: kv_plan.cache_bytes },
                Binding { buffer: LAYER_APPEND_UNIFORM, size: UNIFORM_BUFFER_BYTES },
            ],
        },
        BindGroupModel {
            label: "decoder-layer-session-attention-bind-group",
            pipeline: LAYER_PIPELINE_ATTENTION,
            bindings: seq![
                Binding { buffer: LAYER_MROPE_QUERY, size: sizes.query },
                Binding { buffer: LAYER_KEY_CACHE, size: kv_plan.cache_bytes },
                Binding { buffer: LAYER_VALUE_CACHE, size: kv_plan.cache_bytes },
                Binding { buffer: LAYER_ATTENTION_OUTPUT, size: kv_plan.attention_bytes },
                Binding { buffer: LAYER_ATTENTION_UNIFORM, size: UNIFORM_BUFFER_BYTES },
            ],
        },
        BindGroupModel {
            label: "decoder-layer-session-gemv-o-bind-group",
            pipeline: LAYER_PIPELINE_GEMV,
            bindings: seq![
                Binding { buffer: LAYER_O_WEIGHT, size: sizes.o_weight },
                Binding { buffer: LAYER_ATTENTION_OUTPUT, size: kv_plan.attention_bytes },
                Binding { buffer: LAYER_O_PROJECTION, size: sizes.hidden },
                Binding { buffer: LAYER_GEMV_O_UNIFORM, size: UNIFORM_BUFFER_BYTES },
            ],
        },
        BindGroupModel {
            label: "decoder-layer-session-residual-bind-group",
            pipeline: LAYER_PIPELINE_RESIDUAL,
            bindings: seq![
                Binding { buffer: LAYER_HIDDEN_TOKEN, size: sizes.hidden },
                Binding { buffer: LAYER_O_PROJECTION, size: sizes.hidden },
                Binding { buffer: LAYER_ATTENTION_RESIDUAL, size: sizes.hidden },
                Binding { buffer: LAYER_RESIDUAL_UNIFORM, size: UNIFORM_BUFFER_BYTES },
            ],
        },
    ]
}

/// The pipelines of a session: those of its six kernels.
pub open spec fn layer_pipelines(sources: LayerSourcesModel) -> Seq<DerivedModel> {
    seq![
        DerivedModel {
            place: LAYER_PIPELINE_RMS_NORM,
            kernel: "rms_norm_f32"@,
            source: sources.rms_norm,
        },
        DerivedModel {
            place: LAYER_PIPELINE_GEMV,
            kernel: "gemv_f32"@,
            source: sources.gemv,
        },
        DerivedModel {
            place: LAYER_PIPELINE_MROPE,
            kernel: "decoder_mrope_f32"@,
            source: sources.mrope,
        },
        DerivedModel {
            place: LAYER_PIPELINE_APPEND,
            kernel: "decoder_kv_append_f32"@,
            source: sources.append,
        },
        DerivedModel {
            place: LAYER_PIPELINE_ATTENTION,
            kernel: "decoder_gqa_f32"@,
            source: sources.attention,
        },
        DerivedModel {
            place: LAYER_PIPELINE_RESIDUAL,
            kernel: "add_f32"@,
            source: sources.residual,
        },
    ]
}

/// What a session allocates: its buffers, then its pipelines, then its bind groups; and the
/// tokens that its caches start with.
pub struct LayerResources<'a> {
    pub cache_tokens: u32,
    pub buffers: Vec<BufferPlan>,
    pub pipelines: Vec<DerivedPipeline<'a>>,
    pub bind_groups: Vec<BindGroupPlan>,
}

fn create_layer_pipelines<'a>(sources: &'a LayerShaderSources) -> (pipelines: Vec<
    DerivedPipeline<'a>,
>)
    ensures
        crate::gpu::derived_models(pipelines@) == layer_pipelines(
            crate::layer_report::layer_sources_model(*sources),
        ),
{
    let pipelines: Vec<DerivedPipeline<'a>> = vec![
        derived(LAYER_PIPELINE_RMS_NORM, "rms_norm_f32", sources.rms_norm.as_str()),
        derived(LAYER_PIPELINE_GEMV, "gemv_f32", sources.gemv.as_str()),
        derived(LAYER_PIPELINE_MROPE, "decoder_mrope_f32", sources.mrope.as_str()),
        derived(LAYER_PIPELINE_APPEND, "decoder_kv_append_f32", sources.append.as_str()),
        derived(LAYER_PIPELINE_ATTENTION, "decoder_gqa_f32", sources.attention.as_str()),
        derived(LAYER_PIPELINE_RESIDUAL, "add_f32", sources.residual.as_str()),
    ];
    assert(crate::gpu::derived_models(pipelines@) =~= layer_pipelines(
        crate::layer_report::layer_sources_model(*sources),
    ));
    pipelines
}

fn create_layer_buffers(kv_plan: &KvPlan, sizes: &LayerSizes) -> (buffers: Vec<BufferPlan>)
    ensures
        buffers@ == layer_buffers(*kv_plan, *sizes),
{
    let buffers: Vec<BufferPlan> = vec![
        buffer("decoder-layer-session-hidden-token", sizes.hidden, BufferUsage::StorageInput),
        buffer("decoder-layer-session-norm1-weight", sizes.hidden, BufferUsage::StorageInput),
        buffer("decoder-layer-session-q-weight", sizes.q_weight, BufferUsage::StorageInput),
        buffer(
            "decoder-layer-session-k-weight",
            sizes.key_value_weight,
            BufferUsage::StorageInput,
        ),
        buffer(
            "decoder-layer-session-v-weight",
            sizes.key_value_weight,
            BufferUsage::StorageInput,
        ),
        buffer("decoder-layer-session-o-weight", sizes.o_weight, BufferUsage::StorageInput),
        buffer("decoder-layer-session-rope-cos", sizes.rope, BufferUsage::StorageInput),
        buffer("decoder-layer-session-rope-sin", sizes.rope, BufferUsage::StorageInput),
        buffer("decoder-layer-session-norm1", sizes.hidden, BufferUsage::StorageInput),
        buffer("decoder-layer-session-q-projection", sizes.query, BufferUsage::StorageInput),
        buffer("decoder-layer-session-k-projection", sizes.key_value, BufferUsage::StorageInput),
        buffer("decoder-layer-session-v-projection", sizes.key_value, BufferUsage::StorageInput),
        buffer("decoder-layer-session-mrope-query", sizes.query, BufferUsage::StorageInput),
        buffer("decoder-layer-session-mrope-key", sizes.key_value, BufferUsage::StorageInput),
        buffer("decoder-layer-session-key-cache", kv_plan.cache_bytes, BufferUsage::StorageCache),
        buffer(
            "decoder-layer-session-value-cache",
            kv_plan.cache_bytes,
            BufferUsage::StorageCache,
        ),
        buffer(
            "decoder-layer-session-attention-output",
            kv_plan.attention_bytes,
            BufferUsage::StorageCache,
        ),
        buffer("decoder-layer-session-o-projection", sizes.hidden, BufferUsage::StorageInput),
        buffer(
            "decoder-layer-session-attention-residual",
            sizes.hidden,
            BufferUsage::StorageCache,
        ),
        buffer("decoder-layer-session-layer-readback", sizes.hidden, BufferUsage::Readback),
        buffer("decoder-layer-session-rms-uniform", UNIFORM_BUFFER_BYTES, BufferUsage::Uniform),
        buffer("decoder-layer-session-gemv-q-uniform", UNIFORM_BUFFER_BYTES, BufferUsage::Uniform),
        buffer("decoder-layer-session-gemv-k-uniform", UNIFORM_BUFFER_BYTES, BufferUsage::Uniform),
        buffer("decoder-layer-session-gemv-v-uniform", UNIFORM_BUFFER_BYTES, BufferUsage::Uniform),
        buffer("decoder-layer-session-mrope-uniform", UNIFORM_BUFFER_BYTES, BufferUsage::Uniform),
        buffer("decoder-layer-session-append-uniform", UNIFORM_BUFFER_BYTES, BufferUsage::Uniform),
        buffer(
            "decoder-layer-session-attention-uniform",
            UNIFORM_BUFFER_BYTES,
            BufferUsage::Uniform,
        ),
        buffer("decoder-layer-session-gemv-o-uniform", UNIFORM_BUFFER_BYTES, BufferUsage::Uniform),
        buffer(
            "decoder-layer-session-residual-uniform",
            UNIFORM_BUFFER_BYTES,
            BufferUsage::Uniform,
        ),
    ];
    assert(buffers@ =~= layer_buffers(*kv_plan, *sizes));
    buffers
}

/// Plans the nine bind groups of a session.
pub fn create_layer_bind_groups(kv_plan: &KvPlan, sizes: &LayerSizes) -> (bind_groups: Vec<
    BindGroupPlan,
>)
    ensures
        crate::gpu::group_models(bind_groups@) == layer_bind_groups(*kv_plan, *sizes),
{
    let bind_groups: Vec<BindGroupPlan> = vec![
        BindGroupPlan {
            label: "decoder-layer-session-rms-bind-group",
            pipeline: LAYER_PIPELINE_RMS_NORM,
            bindings: vec![
                Binding { buffer: LAYER_HIDDEN_TOKEN, size: sizes.hidden },
                Binding { buffer: LAYER_NORM1_WEIGHT, size: sizes.hidden },
                Binding { buffer: LAYER_NORM1, size: sizes.hidden },
                Binding { buffer: LAYER_RMS_UNIFORM, size: UNIFORM_BUFFER_BYTES },
            ],
        },
        BindGroupPlan {
            label: "decoder-layer-session-gemv-q-bind-group",
            pipeline: LAYER_PIPELINE_GEMV,
            bindings: vec![
                Binding { buffer: LAYER_Q_WEIGHT, size: sizes.q_weight },
                Binding { buffer: LAYER_NORM1, size: sizes.hidden },
                Binding { buffer: LAYER_Q_PROJECTION, size: sizes.query },
                Binding { buffer: LAYER_GEMV_Q_UNIFORM, size: UNIFORM_BUFFER_BYTES },
            ],
        },
        BindGroupPlan {
            label: "decoder-layer-session-gemv-k-bind-group",
            pipeline: LAYER_PIPELINE_GEMV,
            bindings: vec![
                Binding { buffer: LAYER_K_WEIGHT, size: sizes.key_value_weight },
                Binding { buffer: LAYER_NORM1, size: sizes.hidden },
                Binding { buffer: LAYER_K_PROJECTION, size: sizes.key_value },
                Binding { buffer: LAYER_GEMV_K_UNIFORM, size: UNIFORM_BUFFER_BYTES },
            ],
        },
        BindGroupPlan {
            label: "decoder-layer-session-gemv-v-bind-group",
            pipeline: LAYER_PIPELINE_GEMV,
            bindings: vec![
                Binding { buffer: LAYER_V_WEIGHT, size: sizes.key_value_weight },
                Binding { buffer: LAYER_NORM1, size: sizes.hidden },
                Binding { buffer: LAYER_V_PROJECTION, size: sizes.key_value },
                Binding { buffer: LAYER_GEMV_V_UNIFORM, size: UNIFORM_BUFFER_BYTES },
            ],
        },
        BindGroupPlan {
            label: "decoder-layer-session-mrope-bind-group",
            pipeline: LAYER_PIPELINE_MROPE,
            bindings: vec![
                Binding { buffer: LAYER_Q_PROJECTION, size: sizes.query },
                Binding { buffer: LAYER_K_PROJECTION, size: sizes.key_value },
                Binding { buffer: LAYER_ROPE_COS, size: sizes.rope },
                Binding { buffer: LAYER_ROPE_SIN, size: sizes.rope },
                Binding { buffer: LAYER_MROPE_QUERY, size: sizes.query },
                Binding { buffer: LAYER_MROPE_KEY, size: sizes.key_value },
                Binding { buffer: LAYER_MROPE_UNIFORM, size: UNIFORM_BUFFER_BYTES },
            ],
        },
        BindGroupPlan {
            label: "decoder-layer-session-append-bind-group",
            pipeline: LAYER_PIPELINE_APPEND,
            bindings: vec![
                Binding { buffer: LAYER_MROPE_KEY, size: sizes.key_value },
                Binding { buffer: LAYER_V_PROJECTION, size: sizes.key_value },
                Binding { buffer: LAYER_KEY_CACHE, size: kv_plan.cache_bytes },
                Binding { buffer: LAYER_VALUE_CACHE, size: kv_plan.cache_bytes },
                Binding { buffer: LAYER_APPEND_UNIFORM, size: UNIFORM_BUFFER_BYTES },
            ],
        },
        BindGroupPlan {
            label: "decoder-layer-session-attention-bind-group",
            pipeline: LAYER_PIPELINE_ATTENTION,
            bindings: vec![
                Binding { buffer: LAYER_MROPE_QUERY, size: sizes.query },
                Binding { buffer: LAYER_KEY_CACHE, size: kv_plan.cache_bytes },
                Binding { buffer: LAYER_VALUE_CACHE, size: kv_plan.cache_bytes },
                Binding { buffer: LAYER_ATTENTION_OUTPUT, size: kv_plan.attention_bytes },
                Binding { buffer: LAYER_ATTENTION_UNIFORM, size: UNIFORM_BUFFER_BYTES },
            ],
        },
        BindGroupPlan {
            label: "decoder-layer-session-gemv-o-bind-group",
            pipeline: LAYER_PIPELINE_GEMV,
            bindings: vec![
                Binding { buffer: LAYER_O_WEIGHT, size: sizes.o_weight },
                Binding { buffer: LAYER_ATTENTION_OUTPUT, size: kv_plan.attention_bytes },
                Binding { buffer: LAYER_O_PROJECTION, size: sizes.hidden },
                Binding { buffer: LAYER_GEMV_O_UNIFORM, size: UNIFORM_BUFFER_BYTES },
            ],
        },
        BindGroupPlan {
            label: "decoder-layer-session-residual-bind-group",
            pipeline: LAYER_PIPELINE_RESIDUAL,
            bindings: vec![
                Binding { buffer: LAYER_HIDDEN_TOKEN, size: sizes.hidden },
                Binding { buffer: LAYER_O_PROJECTION, size: sizes.hidden },
                Binding { buffer: LAYER_ATTENTION_RESIDUAL, size: sizes.hidden },
                Binding { buffer: LAYER_RESIDUAL_UNIFORM, size: UNIFORM_BUFFER_BYTES },
            ],
        },
    ];
    assert(crate::gpu::group_models(bind_groups@) =~~= layer_bind_groups(*kv_plan, *sizes));
    bind_groups
}

/// Plans what a session allocates.
pub fn create_layer_resources<'a>(
    kv_plan: &KvPlan,
    plan: &AttentionPlan,
    sources: &'a LayerShaderSources,
) -> (resources: Result<LayerResources<'a>, String>)
    ensures
        match resources {
            Ok(found) => layer_sizes_outcome(*plan) is Ok && found.cache_tokens
                == kv_plan.initial_cache_tokens && found.buffers@ == layer_buffers(
                *kv_plan,
                layer_sizes_outcome(*plan)->Ok_0,
            ) && crate::gpu::derived_models(found.pipelines@) == layer_pipelines(
                crate::layer_report::layer_sources_model(*sources),
            ) && crate::gpu::group_models(found.bind_groups@) == layer_bind_groups(
                *kv_plan,
                layer_sizes_outcome(*plan)->Ok_0,
            ),
            Err(message) => layer_sizes_outcome(*plan) == Err::<LayerSizes, Seq<char>>(message@),
        },
{
    let sizes: LayerSizes = layer_sizes(plan)?;
    let buffers: Vec<BufferPlan> = create_layer_buffers(kv_plan, &sizes);
    let bind_groups: Vec<BindGroupPlan> = create_layer_bind_groups(kv_plan, &sizes);
    Ok(
        LayerResources {
            cache_tokens: kv_plan.initial_cache_tokens,
            buffers,
            pipelines: create_layer_pipelines(sources),
            bind_groups,
        },
    )
}

/// The queue writes that fill the caches and the weights of a new session.
pub open spec fn layer_uploads(
    key_cache: Seq<u8>,
    value_cache: Seq<u8>,
    shards: Seq<Seq<u8>>,
) -> Seq<WriteModel> {
    seq![
        crate::gpu::bytes_write(LAYER_KEY_CACHE, key_cache),
        crate::gpu::bytes_write(LAYER_VALUE_CACHE, value_cache),
        crate::gpu::bytes_write(LAYER_NORM1_WEIGHT, shards[0]),
        crate::gpu::bytes_write(LAYER_Q_WEIGHT, shards[1]),
        crate::gpu::bytes_write(LAYER_K_WEIGHT, shards[2]),
        crate::gpu::bytes_write(LAYER_V_WEIGHT, shards[3]),
        crate::gpu::bytes_write(LAYER_O_WEIGHT, shards[4]),
        crate::gpu::bytes_write(LAYER_ROPE_COS, shards[5]),
        crate::gpu::bytes_write(LAYER_ROPE_SIN, shards[6]),
    ]
}

/// The queue writes that fill the caches and the weights of a new session.
pub fn upload_layer_operands(
    key_cache_bytes: Vec<u8>,
    value_cache_bytes: Vec<u8>,
    shards: Vec<Vec<u8>>,
) -> (writes: Vec<WritePlan>)
    requires
        shards.len() == 7,
    ensures
        crate::gpu::write_models(writes@) == layer_uploads(
            key_cache_bytes@,
            value_cache_bytes@,
            crate::weight_pack::contents(shards@),
        ),
{
    let ghost payloads = crate::weight_pack::contents(shards@);
    let mut writes: Vec<WritePlan> = Vec::new();
    writes.push(write_of_bytes(LAYER_KEY_CACHE, key_cache_bytes));
    writes.push(write_of_bytes(LAYER_VALUE_CACHE, value_cache_bytes));
    let mut rest: Vec<Vec<u8>> = shards;
    let mut place: usize = LAYER_NORM1_WEIGHT;
    while rest.len() > 0
        invariant
            payloads.len() == 7,
            rest.len() <= 7,
            place == LAYER_NORM1_WEIGHT + (7 - rest.len()),
            crate::weight_pack::contents(rest@) == payloads.subrange(
                7 - rest.len() as int,
                7,
            ),
            writes.len() == 2 + (7 - rest.len()),
            crate::gpu::write_model(writes@[0]) == crate::gpu::bytes_write(
                LAYER_KEY_CACHE,
                key_cache_bytes@,
            ),
            crate::gpu::write_model(writes@[1]) == crate::gpu::bytes_write(
                LAYER_VALUE_CACHE,
                value_cache_bytes@,
            ),
            forall|i: int|
                2 <= i < writes.len() ==> crate::gpu::write_model(#[trigger] writes@[i])
                    == crate::gpu::bytes_write(
                    (LAYER_NORM1_WEIGHT + (i - 2)) as usize,
                    payloads[i - 2],
                ),
        decreases rest.len(),
    {
        let ghost before = rest@;
        assert(crate::weight_pack::contents(before)[0] == before[0]@);
        let shard: Vec<u8> = rest.remove(0);
        assert(crate::weight_pack::contents(rest@) =~= crate::weight_pack::contents(
            before,
        ).subrange(1, before.len() as int));
        writes.push(write_of_bytes(place, shard));
        place += 1;
    }
    assert(crate::gpu::write_models(writes@) =~= layer_uploads(
        key_cache_bytes@,
        value_cache_bytes@,
        payloads,
    ));
    writes
}

/// The queue writes of a step.
pub open spec fn layer_step_writes(
    transition: KvStepPlan,
    step: AttentionStepPlan,
    hidden_row: Seq<u8>,
) -> Seq<WriteModel> {
    seq![
        crate::gpu::bytes_write(LAYER_HIDDEN_TOKEN, hidden_row),
        crate::gpu::words_write(LAYER_RMS_UNIFORM, step.stage_words@[0]),
        crate::gpu::words_write(LAYER_GEMV_Q_UNIFORM, step.stage_words@[1]),
        crate::gpu::words_write(LAYER_GEMV_K_UNIFORM, step.stage_words@[2]),
        crate::gpu::words_write(LAYER_GEMV_V_UNIFORM, step.stage_words@[3]),
        crate::gpu::words_write(LAYER_MROPE_UNIFORM, step.stage_words@[4]),
        crate::gpu::words_write(LAYER_APPEND_UNIFORM, transition.append_words),
        crate::gpu::words_write(LAYER_ATTENTION_UNIFORM, transition.attention_words),
        crate::gpu::words_write(LAYER_GEMV_O_UNIFORM, step.stage_words@[5]),
        crate::gpu::words_write(LAYER_RESIDUAL_UNIFORM, step.stage_words@[6]),
    ]
}

/// The commands of a step: the nine stages of the block, then the residual row out.
pub open spec fn layer_step_commands(
    kv_plan: KvPlan,
    plan: AttentionPlan,
    hidden_bytes: u64,
) -> Seq<CommandModel> {
    seq![
        crate::gpu::pass_model(
            LAYER_PIPELINE_RMS_NORM,
            LAYER_GROUP_RMS,
            plan.rms_norm_dispatch,
            Seq::empty(),
        ),
        crate::gpu::pass_model(
            LAYER_PIPELINE_GEMV,
            LAYER_GROUP_GEMV_Q,
            plan.query_dispatch,
            Seq::empty(),
        ),
        crate::gpu::pass_model(
            LAYER_PIPELINE_GEMV,
            LAYER_GROUP_GEMV_K,
            plan.key_dispatch,
            Seq::empty(),
        ),
        crate::gpu::pass_model(
            LAYER_PIPELINE_GEMV,
            LAYER_GROUP_GEMV_V,
            plan.value_dispatch,
            Seq::empty(),
        ),
        crate::gpu::pass_model(
            LAYER_PIPELINE_MROPE,
            LAYER_GROUP_MROPE,
            plan.mrope_dispatch,
            Seq::empty(),
        ),
        crate::gpu::pass_model(
            LAYER_PIPELINE_APPEND,
            LAYER_GROUP_APPEND,
            kv_plan.append_dispatch,
            Seq::empty(),
        ),
        crate::gpu::pass_model(
            LAYER_PIPELINE_ATTENTION,
            LAYER_GROUP_ATTENTION,
            kv_plan.attention_dispatch,
            Seq::empty(),
        ),
        crate::gpu::pass_model(
            LAYER_PIPELINE_GEMV,
            LAYER_GROUP_GEMV_O,
            plan.output_dispatch,
            Seq::empty(),
        ),
        crate::gpu::pass_model(
            LAYER_PIPELINE_RESIDUAL,
            LAYER_GROUP_RESIDUAL,
            plan.residual_dispatch,
            Seq::empty(),
        ),
        crate::gpu::copy_model(
            LAYER_ATTENTION_RESIDUAL,
            0,
            LAYER_LAYER_READBACK,
            0,
            hidden_bytes,
        ),
    ]
}

/// Plans the GPU work of one step.
pub fn encode_layer_step(
    kv_plan: &KvPlan,
    plan: &AttentionPlan,
    transition: &KvStepPlan,
    step: &AttentionStepPlan,
    hidden_row: Vec<u8>,
) -> (encoding: Result<Encoding, String>)
    ensures
        match encoding {
            Ok(found) => plan.hidden_size * 4 <= u64::MAX && crate::gpu::write_models(
                found.writes@,
            ) == layer_step_writes(*transition, *step, hidden_row@) && found.encoder@
                == "decoder-layer-session-step-encoder"@ && crate::gpu::command_models(
                found.commands@,
            ) == layer_step_commands(*kv_plan, *plan, (plan.hidden_size * 4) as u64),
            Err(_) => false,
        },
{
    let hidden_bytes: u64 = checked_u64_bytes(plan.hidden_size as usize, "decoder hidden row")?;
    let ghost row = hidden_row@;
    let writes: Vec<WritePlan> = vec![
        write_of_bytes(LAYER_HIDDEN_TOKEN, hidden_row),
        write_of_words(LAYER_RMS_UNIFORM, &step.stage_words[0]),
        write_of_words(LAYER_GEMV_Q_UNIFORM, &step.stage_words[1]),
        write_of_words(LAYER_GEMV_K_UNIFORM, &step.stage_words[2]),
        write_of_words(LAYER_GEMV_V_UNIFORM, &step.stage_words[3]),
        write_of_words(LAYER_MROPE_UNIFORM, &step.stage_words[4]),
        write_of_words(LAYER_APPEND_UNIFORM, &transition.append_words),
        write_of_words(LAYER_ATTENTION_UNIFORM, &transition.attention_words),
        write_of_words(LAYER_GEMV_O_UNIFORM, &step.stage_words[5]),
        write_of_words(LAYER_RESIDUAL_UNIFORM, &step.stage_words[6]),
    ];
    assert(crate::gpu::write_models(writes@) =~= layer_step_writes(*transition, *step, row));
    let commands: Vec<Command> = vec![
        pass(LAYER_PIPELINE_RMS_NORM, LAYER_GROUP_RMS, plan.rms_norm_dispatch),
        pass(LAYER_PIPELINE_GEMV, LAYER_GROUP_GEMV_Q, plan.query_dispatch),
        pass(LAYER_PIPELINE_GEMV, LAYER_GROUP_GEMV_K, plan.key_dispatch),
        pass(LAYER_PIPELINE_GEMV, LAYER_GROUP_GEMV_V, plan.value_dispatch),
        pass(LAYER_PIPELINE_MROPE, LAYER_GROUP_MROPE, plan.mrope_dispatch),
        pass(LAYER_PIPELINE_APPEND, LAYER_GROUP_APPEND, kv_plan.append_dispatch),
        pass(LAYER_PIPELINE_ATTENTION, LAYER_GROUP_ATTENTION, kv_plan.attention_dispatch),
        pass(LAYER_PIPELINE_GEMV, LAYER_GROUP_GEMV_O, plan.output_dispatch),
        pass(LAYER_PIPELINE_RESIDUAL, LAYER_GROUP_RESIDUAL, plan.residual_dispatch),
        copy(LAYER_ATTENTION_RESIDUAL, 0, LAYER_LAYER_READBACK, 0, hidden_bytes),
    ];
    assert(crate::gpu::command_models(commands@) =~= layer_step_commands(
        *kv_plan,
        *plan,
        hidden_bytes,
    ));
    Ok(Encoding { writes, encoder: "decoder-layer-session-step-encoder", commands })
}

/// The buffers that a finish adds.
pub open spec fn layer_finish_buffers(kv_plan: KvPlan) -> Seq<BufferPlan> {
    seq![
        BufferPlan {
            label: "decoder-layer-session-finish-key-readback",
            size: kv_plan.cache_bytes,
            usage: BufferUsage::Readback,
        },
        BufferPlan {
            label: "decoder-layer-session-finish-value-readback",
            size: kv_plan.cache_bytes,
            usage: BufferUsage::Readback,
        },
    ]
}

/// The commands of a finish: each cache goes into its own readback.
pub open spec fn layer_finish_commands(kv_plan: KvPlan) -> Seq<CommandModel> {
    seq![
        crate::gpu::copy_model(
            LAYER_KEY_CACHE,
            0,
            LAYER_FINISH_KEY_READBACK,
            0,
            kv_plan.cache_bytes,
        ),
        crate::gpu::copy_model(
            LAYER_VALUE_CACHE,
            0,
            LAYER_FINISH_VALUE_READBACK,
            0,
            kv_plan.cache_bytes,
        ),
    ]
}

/// Plans the GPU work of a finish.
pub fn encode_layer_finish(kv_plan: &KvPlan) -> (encoding: FinishEncoding)
    ensures
        encoding.buffers@ == layer_finish_buffers(*kv_plan),
        encoding.encoder@ == "decoder-layer-session-finish-encoder"@,
        crate::gpu::command_models(encoding.commands@) == layer_finish_commands(*kv_plan),
{
    let buffers: Vec<BufferPlan> = vec![
        buffer(
            "decoder-layer-session-finish-key-readback",
            kv_plan.cache_bytes,
            BufferUsage::Readback,
        ),
        buffer(
            "decoder-layer-session-finish-value-readback",
            kv_plan.cache_bytes,
            BufferUsage::Readback,
        ),
    ];
    assert(buffers@ =~= layer_finish_buffers(*kv_plan));
    let commands: Vec<Command> = vec![
        copy(LAYER_KEY_CACHE, 0, LAYER_FINISH_KEY_READBACK, 0, kv_plan.cache_bytes),
        copy(LAYER_VALUE_CACHE, 0, LAYER_FINISH_VALUE_READBACK, 0, kv_plan.cache_bytes),
    ];
    assert(crate::gpu::command_models(commands@) =~= layer_finish_commands(*kv_plan));
    FinishEncoding { buffers, encoder: "decoder-layer-session-finish-encoder", commands }
}

/// The buffers of a session and of its finish, by their places.
pub open spec fn layer_all_buffers(kv_plan: KvPlan, sizes: LayerSizes) -> Seq<BufferPlan> {
    layer_buffers(kv_plan, sizes) + layer_finish_buffers(kv_plan)
}

/// Every binding of a session lies inside a buffer that shaders may bind.
pub proof fn law_layer_bindings_fit(kv_plan: KvPlan, sizes: LayerSizes)
    ensures
        forall|i: int|
            0 <= i < layer_bind_groups(kv_plan, sizes).len() ==> crate::gpu::group_fits(
                #[trigger] layer_bind_groups(kv_plan, sizes)[i],
                layer_buffers(kv_plan, sizes),
            ),
{
}

/// The GPU work of a step stays inside the buffers of its session, for a hidden row of the
/// planned size.
pub proof fn law_layer_step_fits(
    kv_plan: KvPlan,
    plan: AttentionPlan,
    transition: KvStepPlan,
    step: AttentionStepPlan,
    hidden_row: Seq<u8>,
)
    requires
        layer_sizes_outcome(plan) is Ok,
        hidden_row.len() == plan.hidden_size * 4,
    ensures
        ({
            let buffers = layer_buffers(kv_plan, layer_sizes_outcome(plan)->Ok_0);
            let writes = layer_step_writes(transition, step, hidden_row);
            let commands = layer_step_commands(kv_plan, plan, (plan.hidden_size * 4) as u64);
            &&& forall|i: int|
                0 <= i < writes.len() ==> crate::gpu::write_fits(#[trigger] writes[i], buffers)
            &&& forall|i: int|
                0 <= i < commands.len() ==> crate::gpu::copy_fits(
                    #[trigger] commands[i],
                    buffers,
                )
        }),
{
    let buffers = layer_buffers(kv_plan, layer_sizes_outcome(plan)->Ok_0);
    assert forall|words: [u32; 4]| #[trigger]
        crate::words::bytes_of_words32(words@).len() == 16 by {}
}

/// The copies of a finish stay inside the caches and the readbacks.
pub proof fn law_layer_finish_fits(kv_plan: KvPlan, sizes: LayerSizes)
    ensures
        forall|i: int|
            0 <= i < 2 ==> crate::gpu::copy_fits(
                #[trigger] layer_finish_commands(kv_plan)[i],
                layer_all_buffers(kv_plan, sizes),
            ),
{
}

/// No pass is given the same buffer twice, so none writes what it reads.
pub proof fn law_layer_groups_do_not_alias(kv_plan: KvPlan, sizes: LayerSizes)
    ensures
        forall|i: int|
            0 <= i < layer_bind_groups(kv_plan, sizes).len() ==> crate::gpu::distinct_buffers(
                #[trigger] layer_bind_groups(kv_plan, sizes)[i],
            ),
{
}

/// The pipelines of a session stand at their places, are those of the kernels that it lists, and
/// every pass of a step runs one of them on a bind group that is made for it.
pub proof fn law_layer_pipelines_are_in_place(
    kv_plan: KvPlan,
    plan: AttentionPlan,
    sizes: LayerSizes,
    sources: LayerSourcesModel,
)
    ensures
        crate::gpu::derived_in_place(layer_pipelines(sources)),
        layer_pipelines(sources).map_values(|pipeline: DerivedModel| pipeline.kernel)
            == crate::layer_report::layer_kernels(),
        forall|i: int|
            0 <= i < layer_step_commands(kv_plan, plan, sizes.hidden).len()
                ==> crate::gpu::pass_in_place(
                #[trigger] layer_step_commands(kv_plan, plan, sizes.hidden)[i],
                layer_pipelines(sources),
                layer_bind_groups(kv_plan, sizes),
            ),
{
    assert(layer_pipelines(sources).map_values(|pipeline: DerivedModel| pipeline.kernel)
        =~= crate::layer_report::layer_kernels());
}

} // verus!
