//! The stack session: what it allocates.
//!
//! Buffers, layouts, pipelines and bind groups are named by fixed places, whether or not a
//! session has them.

use crate::family::WeightStorage;
use crate::gpu::{buffer, BindGroupModel, BindGroupPlan, Binding, BufferPlan, BufferUsage};
use crate::kv::{KvPlan, UNIFORM_BUFFER_BYTES};
use crate::stack_plan::{
    resident_weight_bytes, resident_weight_key, stack_sizes, LmHeadPlan, StackPlan, StackPlans,
    StackSizes, WeightResourcePlan, PREFILL_ZERO_BIAS_BYTES, TOP1_RESULT_BYTES,
};
use crate::stack_sources::{StackShaderSources, StackSourcesModel};
use vstd::prelude::*;

verus! {

pub const STACK_HIDDEN_PINGPONG: usize = 0;

pub const STACK_NORM1_WEIGHT: usize = 1;

pub const STACK_Q_WEIGHT: usize = 2;

pub const STACK_K_WEIGHT: usize = 3;

pub const STACK_V_WEIGHT: usize = 4;

pub const STACK_O_WEIGHT: usize = 5;

pub const STACK_ROPE_COS: usize = 6;

pub const STACK_ROPE_SIN: usize = 7;

pub const STACK_NORM2_WEIGHT: usize = 8;

pub const STACK_GATE_WEIGHT: usize = 9;

pub const STACK_UP_WEIGHT: usize = 10;

pub const STACK_DOWN_WEIGHT: usize = 11;

pub const STACK_KEY_CACHE: usize = 12;

pub const STACK_VALUE_CACHE: usize = 13;

pub const STACK_NORM1: usize = 14;

pub const STACK_Q_PROJECTION: usize = 15;

pub const STACK_K_PROJECTION: usize = 16;

pub const STACK_V_PROJECTION: usize = 17;

pub const STACK_MROPE_QUERY: usize = 18;

pub const STACK_MROPE_KEY: usize = 19;

pub const STACK_ATTENTION_OUTPUT: usize = 20;

pub const STACK_O_PROJECTION: usize = 21;

pub const STACK_ATTENTION_RESIDUAL: usize = 22;

pub const STACK_NORM2: usize = 23;

pub const STACK_GATE: usize = 24;

pub const STACK_UP: usize = 25;

pub const STACK_ACTIVATION: usize = 26;

pub const STACK_DOWN_PROJECTION: usize = 27;

pub const STACK_STACK_READBACK: usize = 28;

pub const STACK_RMS_UNIFORM: usize = 29;

pub const STACK_GEMV_Q_UNIFORM: usize = 30;

pub const STACK_GEMV_K_UNIFORM: usize = 31;

pub const STACK_GEMV_V_UNIFORM: usize = 32;

pub const STACK_MROPE_UNIFORM: usize = 33;

pub const STACK_APPEND_UNIFORM: usize = 34;

pub const STACK_ATTENTION_UNIFORM: usize = 35;

pub const STACK_RESIDUAL_UNIFORM: usize = 36;

pub const STACK_RMS2_UNIFORM: usize = 37;

pub const STACK_GEMV_GATE_UNIFORM: usize = 38;

pub const STACK_GEMV_UP_UNIFORM: usize = 39;

pub const STACK_SWIGLU_UNIFORM: usize = 40;

pub const STACK_GEMV_DOWN_UNIFORM: usize = 41;

pub const STACK_RESIDUAL2_UNIFORM: usize = 42;

pub const STACK_GEMV_O_UNIFORM: usize = 43;

pub const STACK_SPLIT_PARTIALS: usize = 44;

pub const STACK_SPLIT_PARTIAL_UNIFORM: usize = 45;

pub const STACK_SPLIT_MERGE_UNIFORM: usize = 46;

pub const STACK_PREFILL_HIDDEN_STORAGE: usize = 47;

pub const STACK_PREFILL_NORM1: usize = 48;

pub const STACK_PREFILL_QUERY: usize = 49;

pub const STACK_PREFILL_KEY: usize = 50;

pub const STACK_PREFILL_VALUE: usize = 51;

pub const STACK_PREFILL_CONTEXT: usize = 52;

pub const STACK_PREFILL_OUTPUT: usize = 53;

pub const STACK_PREFILL_NORM2: usize = 54;

pub const STACK_PREFILL_GATE: usize = 55;

pub const STACK_PREFILL_UP: usize = 56;

pub const STACK_PREFILL_ACTIVATION: usize = 57;

pub const STACK_PREFILL_ZERO_BIAS: usize = 58;

pub const STACK_FINAL_NORM_WEIGHT: usize = 59;

pub const STACK_LM_HEAD: usize = 60;

pub const STACK_NORMED_ROW: usize = 61;

pub const STACK_LOGITS: usize = 62;

pub const STACK_LOGITS_READBACK: usize = 63;

pub const STACK_LOGITS_RMS_UNIFORM: usize = 64;

pub const STACK_LOGITS_GEMV_UNIFORM: usize = 65;

pub const STACK_TOP1_RESULT: usize = 66;

pub const STACK_TOP1_READBACK: usize = 67;

pub const STACK_FINISH_KEY_READBACK: usize = 68;

pub const STACK_FINISH_VALUE_READBACK: usize = 69;


/// The places of the buffers that every session has come before this one.
pub const BASE_BUFFERS: usize = 47;

/// The places of the buffers of a prefill come before this one.
pub const PREFILL_BUFFERS: usize = 59;

/// The places of the buffers of a logits readout come before this one.
pub const LOGITS_BUFFERS: usize = 66;

pub const LAYOUT_RMS: usize = 0;

pub const LAYOUT_GEMV: usize = 1;

pub const LAYOUT_MROPE: usize = 2;

pub const LAYOUT_APPEND: usize = 3;

pub const LAYOUT_ATTENTION: usize = 4;

pub const LAYOUT_SWIGLU: usize = 5;

pub const LAYOUT_RESIDUAL: usize = 6;

pub const LAYOUT_PROJECTION: usize = 7;

pub const LAYOUT_TOP1: usize = 8;


pub const PIPELINE_RMS_NORM: usize = 0;

pub const PIPELINE_GEMV_TILED: usize = 1;

pub const PIPELINE_RMS_NORM_F16: usize = 2;

pub const PIPELINE_GEMV_TILED_F16: usize = 3;

pub const PIPELINE_MROPE: usize = 4;

pub const PIPELINE_APPEND: usize = 5;

pub const PIPELINE_SWIGLU: usize = 6;

pub const PIPELINE_RESIDUAL: usize = 7;

pub const PIPELINE_SPLIT_PARTIAL: usize = 8;

pub const PIPELINE_SPLIT_MERGE: usize = 9;

pub const PIPELINE_PROJECTION: usize = 10;

pub const PIPELINE_PROJECTION_F16: usize = 11;

pub const PIPELINE_PREFILL_MROPE: usize = 12;

pub const PIPELINE_APPEND_RANGE: usize = 13;

pub const PIPELINE_PREFILL_GQA: usize = 14;

pub const PIPELINE_TOP1: usize = 15;


pub const GROUP_RMS: usize = 0;

pub const GROUP_GEMV_Q: usize = 1;

pub const GROUP_GEMV_K: usize = 2;

pub const GROUP_GEMV_V: usize = 3;

pub const GROUP_MROPE: usize = 4;

pub const GROUP_APPEND: usize = 5;

pub const GROUP_GEMV_O: usize = 6;

pub const GROUP_RESIDUAL: usize = 7;

pub const GROUP_RMS2: usize = 8;

pub const GROUP_GEMV_GATE: usize = 9;

pub const GROUP_GEMV_UP: usize = 10;

pub const GROUP_SWIGLU: usize = 11;

pub const GROUP_GEMV_DOWN: usize = 12;

pub const GROUP_RESIDUAL2: usize = 13;

pub const GROUP_SPLIT_PARTIAL: usize = 14;

pub const GROUP_SPLIT_MERGE: usize = 15;

pub const GROUP_PREFILL_RMS1: usize = 16;

pub const GROUP_PREFILL_QUERY: usize = 17;

pub const GROUP_PREFILL_KEY: usize = 18;

pub const GROUP_PREFILL_VALUE: usize = 19;

pub const GROUP_PREFILL_MROPE: usize = 20;

pub const GROUP_PREFILL_KV_APPEND_RANGE: usize = 21;

pub const GROUP_PREFILL_GQA: usize = 22;

pub const GROUP_PREFILL_OUTPUT: usize = 23;

pub const GROUP_PREFILL_RESIDUAL: usize = 24;

pub const GROUP_PREFILL_RMS2: usize = 25;

pub const GROUP_PREFILL_GATE: usize = 26;

pub const GROUP_PREFILL_UP: usize = 27;

pub const GROUP_PREFILL_SWIGLU: usize = 28;

pub const GROUP_PREFILL_DOWN: usize = 29;

pub const GROUP_PREFILL_RESIDUAL2: usize = 30;

pub const GROUP_PREFILL_LOGITS_RMS: usize = 31;

pub const GROUP_STEP_LOGITS_RMS: usize = 32;

pub const GROUP_GEMV_LOGITS: usize = 33;

pub const GROUP_TOP1: usize = 34;


/// What a binding of a layout is.
#[derive(Clone, Copy, Debug, PartialEq, Eq, Structural)]
pub enum BindingKind {
    ReadOnlyStorage,
    Storage,
    Uniform,
}

/// A binding of a layout; its place in the layout is its number.
#[derive(Clone, Copy, Debug, PartialEq, Eq, Structural)]
pub struct LayoutEntry {
    pub kind: BindingKind,
    /// Whether a pass moves the binding by a dynamic offset.
    pub dynamic: bool,
}

/// The bindings of a layout.
pub open spec fn layout_entries(layout: usize) -> Seq<LayoutEntry> {
    if layout == LAYOUT_RMS {
        seq![
            LayoutEntry { kind: BindingKind::ReadOnlyStorage, dynamic: true },
            LayoutEntry { kind: BindingKind::ReadOnlyStorage, dynamic: true },
            LayoutEntry { kind: BindingKind::Storage, dynamic: false },
            LayoutEntry { kind: BindingKind::Uniform, dynamic: false },
        ]
    } else if layout == LAYOUT_GEMV {
        seq![
            LayoutEntry { kind: BindingKind::ReadOnlyStorage, dynamic: true },
            LayoutEntry { kind: BindingKind::ReadOnlyStorage, dynamic: false },
            LayoutEntry { kind: BindingKind::Storage, dynamic: false },
            LayoutEntry { kind: BindingKind::Uniform, dynamic: false },
        ]
    } else if layout == LAYOUT_MROPE {
        seq![
            LayoutEntry { kind: BindingKind::ReadOnlyStorage, dynamic: false },
            LayoutEntry { kind: BindingKind::ReadOnlyStorage, dynamic: false },
            LayoutEntry { kind: BindingKind::ReadOnlyStorage, dynamic: false },
            LayoutEntry { kind: BindingKind::ReadOnlyStorage, dynamic: false },
            LayoutEntry { kind: BindingKind::Storage, dynamic: false },
            LayoutEntry { kind: BindingKind::Storage, dynamic: false },
            LayoutEntry { kind: BindingKind::Uniform, dynamic: false },
        ]
    } else if layout == LAYOUT_APPEND {
        seq![
            LayoutEntry { kind: BindingKind::ReadOnlyStorage, dynamic: false },
            LayoutEntry { kind: BindingKind::ReadOnlyStorage, dynamic: false },
            LayoutEntry { kind: BindingKind::Storage, dynamic: true },
            LayoutEntry { kind: BindingKind::Storage, dynamic: true },
            LayoutEntry { kind: BindingKind::Uniform, dynamic: false },
        ]
    } else if layout == LAYOUT_ATTENTION {
        seq![
            LayoutEntry { kind: BindingKind::ReadOnlyStorage, dynamic: false },
            LayoutEntry { kind: BindingKind::ReadOnlyStorage, dynamic: true },
            LayoutEntry { kind: BindingKind::ReadOnlyStorage, dynamic: true },
            LayoutEntry { kind: BindingKind::Storage, dynamic: false },
            LayoutEntry { kind: BindingKind::Uniform, dynamic: false },
        ]
    } else if layout == LAYOUT_SWIGLU {
        seq![
            LayoutEntry { kind: BindingKind::ReadOnlyStorage, dynamic: false },
            LayoutEntry { kind: BindingKind::ReadOnlyStorage, dynamic: false },
            LayoutEntry { kind: BindingKind::Storage, dynamic: false },
            LayoutEntry { kind: BindingKind::Uniform, dynamic: false },
        ]
    } else if layout == LAYOUT_RESIDUAL {
        seq![
            LayoutEntry { kind: BindingKind::ReadOnlyStorage, dynamic: true },
            LayoutEntry { kind: BindingKind::ReadOnlyStorage, dynamic: false },
            LayoutEntry { kind: BindingKind::Storage, dynamic: true },
            LayoutEntry { kind: BindingKind::Uniform, dynamic: false },
        ]
    } else if layout == LAYOUT_PROJECTION {
        seq![
            LayoutEntry { kind: BindingKind::ReadOnlyStorage, dynamic: false },
            LayoutEntry { kind: BindingKind::ReadOnlyStorage, dynamic: true },
            LayoutEntry { kind: BindingKind::ReadOnlyStorage, dynamic: false },
            LayoutEntry { kind: BindingKind::Storage, dynamic: false },
            LayoutEntry { kind: BindingKind::Uniform, dynamic: false },
        ]
    } else {
        seq![
            LayoutEntry { kind: BindingKind::ReadOnlyStorage, dynamic: false },
            LayoutEntry { kind: BindingKind::Storage, dynamic: false },
        ]
    }
}

/// The bindings of a layout.
pub fn stack_layout(layout: usize) -> (entries: Vec<LayoutEntry>)
    requires
        layout <= LAYOUT_TOP1,
    ensures
        entries@ == layout_entries(layout),
{
    let entries: Vec<LayoutEntry> = if layout == LAYOUT_RMS {
        vec![
            LayoutEntry { kind: BindingKind::ReadOnlyStorage, dynamic: true },
            LayoutEntry { kind: BindingKind::ReadOnlyStorage, dynamic: true },
            LayoutEntry { kind: BindingKind::Storage, dynamic: false },
            LayoutEntry { kind: BindingKind::Uniform, dynamic: false },
        ]
    } else if layout == LAYOUT_GEMV {
        vec![
            LayoutEntry { kind: BindingKind::ReadOnlyStorage, dynamic: true },
            LayoutEntry { kind: BindingKind::ReadOnlyStorage, dynamic: false },
            LayoutEntry { kind: BindingKind::Storage, dynamic: false },
            LayoutEntry { kind: BindingKind::Uniform, dynamic: false },
        ]
    } else if layout == LAYOUT_MROPE {
        vec![
            LayoutEntry { kind: BindingKind::ReadOnlyStorage, dynamic: false },
            LayoutEntry { kind: BindingKind::ReadOnlyStorage, dynamic: false },
            LayoutEntry { kind: BindingKind::ReadOnlyStorage, dynamic: false },
            LayoutEntry { kind: BindingKind::ReadOnlyStorage, dynamic: false },
            LayoutEntry { kind: BindingKind::Storage, dynamic: false },
            LayoutEntry { kind: BindingKind::Storage, dynamic: false },
            LayoutEntry { kind: BindingKind::Uniform, dynamic: false },
        ]
    } else if layout == LAYOUT_APPEND {
        vec![
            LayoutEntry { kind: BindingKind::ReadOnlyStorage, dynamic: false },
            LayoutEntry { kind: BindingKind::ReadOnlyStorage, dynamic: false },
            LayoutEntry { kind: BindingKind::Storage, dynamic: true },
            LayoutEntry { kind: BindingKind::Storage, dynamic: true },
            LayoutEntry { kind: BindingKind::Uniform, dynamic: false },
        ]
    } else if layout == LAYOUT_ATTENTION {
        vec![
            LayoutEntry { kind: BindingKind::ReadOnlyStorage, dynamic: false },
            LayoutEntry { kind: BindingKind::ReadOnlyStorage, dynamic: true },
            LayoutEntry { kind: BindingKind::ReadOnlyStorage, dynamic: true },
            LayoutEntry { kind: BindingKind::Storage, dynamic: false },
            LayoutEntry { kind: BindingKind::Uniform, dynamic: false },
        ]
    } else if layout == LAYOUT_SWIGLU {
        vec![
            LayoutEntry { kind: BindingKind::ReadOnlyStorage, dynamic: false },
            LayoutEntry { kind: BindingKind::ReadOnlyStorage, dynamic: false },
            LayoutEntry { kind: BindingKind::Storage, dynamic: false },
            LayoutEntry { kind: BindingKind::Uniform, dynamic: false },
        ]
    } else if layout == LAYOUT_RESIDUAL {
        vec![
            LayoutEntry { kind: BindingKind::ReadOnlyStorage, dynamic: true },
            LayoutEntry { kind: BindingKind::ReadOnlyStorage, dynamic: false },
            LayoutEntry { kind: BindingKind::Storage, dynamic: true },
            LayoutEntry { kind: BindingKind::Uniform, dynamic: false },
        ]
    } else if layout == LAYOUT_PROJECTION {
        vec![
            LayoutEntry { kind: BindingKind::ReadOnlyStorage, dynamic: false },
            LayoutEntry { kind: BindingKind::ReadOnlyStorage, dynamic: true },
            LayoutEntry { kind: BindingKind::ReadOnlyStorage, dynamic: false },
            LayoutEntry { kind: BindingKind::Storage, dynamic: false },
            LayoutEntry { kind: BindingKind::Uniform, dynamic: false },
        ]
    } else {
        vec![
            LayoutEntry { kind: BindingKind::ReadOnlyStorage, dynamic: false },
            LayoutEntry { kind: BindingKind::Storage, dynamic: false },
        ]
    };
    assert(entries@ =~= layout_entries(layout));
    entries
}

/// The byte sizes of the buffers of a logits readout.
#[derive(Clone, Copy, Debug)]
pub struct LogitsSizes {
    pub final_norm: u64,
    pub lm_head: u64,
    pub normed_row: u64,
    pub logits: u64,
}

/// The byte sizes of the buffers of a logits readout; zeros where a session has none.
pub open spec fn logits_sizes(resources: WeightResourcePlan, lm_head: Option<LmHeadPlan>) -> LogitsSizes {
    match lm_head {
        Some(plan) => LogitsSizes {
            final_norm: crate::stack_plan::optional_bytes(resources.final_norm_weight_bytes),
            lm_head: crate::stack_plan::optional_bytes(resources.lm_head_weight_bytes),
            normed_row: plan.normed_row_bytes,
            logits: plan.logits_bytes,
        },
        None => LogitsSizes { final_norm: 0, lm_head: 0, normed_row: 0, logits: 0 },
    }
}

/// The buffers that every session has.
pub open spec fn base_buffers(
    kv: KvPlan,
    resources: WeightResourcePlan,
    sizes: StackSizes,
) -> Seq<BufferPlan> {
    seq![
        BufferPlan {
            label: "decoder-stack-session-hidden-pingpong",
            size: sizes.pingpong,
            usage: BufferUsage::StorageCache,
        },
        BufferPlan {
            label: "decoder-stack-session-norm1-weight",
            size: resources.layer_weight_bulk_bytes@[0],
            usage: BufferUsage::StorageInput,
        },
        BufferPlan {
            label: "decoder-stack-session-q-weight",
            size: resources.layer_weight_bulk_bytes@[1],
            usage: BufferUsage::StorageInput,
        },
        BufferPlan {
            label: "decoder-stack-session-k-weight",
            size: resources.layer_weight_bulk_bytes@[2],
            usage: BufferUsage::StorageInput,
        },
        BufferPlan {
            label: "decoder-stack-session-v-weight",
            size: resources.layer_weight_bulk_bytes@[3],
            usage: BufferUsage::StorageInput,
        },
        BufferPlan {
            label: "decoder-stack-session-o-weight",
            size: resources.layer_weight_bulk_bytes@[4],
            usage: BufferUsage::StorageInput,
        },
        BufferPlan {
            label: "decoder-stack-session-rope-cos",
            size: resources.rope_table_bytes,
            usage: BufferUsage::StorageInput,
        },
        BufferPlan {
            label: "decoder-stack-session-rope-sin",
            size: resources.rope_table_bytes,
            usage: BufferUsage::StorageInput,
        },
        BufferPlan {
            label: "decoder-stack-session-norm2-weight",
            size: resources.layer_weight_bulk_bytes@[5],
            usage: BufferUsage::StorageInput,
        },
        BufferPlan {
            label: "decoder-stack-session-gate-weight",
            size: resources.layer_weight_bulk_bytes@[6],
            usage: BufferUsage::StorageInput,
        },
        BufferPlan {
            label: "decoder-stack-session-up-weight",
            size: resources.layer_weight_bulk_bytes@[7],
            usage: BufferUsage::StorageInput,
        },
        BufferPlan {
            label: "decoder-stack-session-down-weight",
            size: resources.layer_weight_bulk_bytes@[8],
            usage: BufferUsage::StorageInput,
        },
        BufferPlan {
            label: "decoder-stack-session-key-cache",
            size: sizes.cache,
            usage: BufferUsage::StorageCache,
        },
        BufferPlan {
            label: "decoder-stack-session-value-cache",
            size: sizes.cache,
            usage: BufferUsage::StorageCache,
        },
        BufferPlan {
            label: "decoder-stack-session-norm1",
            size: sizes.hidden,
            usage: BufferUsage::StorageInput,
        },
        BufferPlan {
            label: "decoder-stack-session-q-projection",
            size: sizes.query,
            usage: BufferUsage::StorageInput,
        },
        BufferPlan {
            label: "decoder-stack-session-k-projection",
            size: sizes.key_value,
            usage: BufferUsage::StorageInput,
        },
        BufferPlan {
            label: "decoder-stack-session-v-projection",
            size: sizes.key_value,
            usage: BufferUsage::StorageInput,
        },
        BufferPlan {
            label: "decoder-stack-session-mrope-query",
            size: sizes.query,
            usage: BufferUsage::StorageInput,
        },
        BufferPlan {
            label: "decoder-stack-session-mrope-key",
            size: sizes.key_value,
            usage: BufferUsage::StorageInput,
        },
        BufferPlan {
            label: "decoder-stack-session-attention-output",
            size: kv.attention_bytes,
            usage: BufferUsage::StorageCache,
        },
        BufferPlan {
            label: "decoder-stack-session-o-projection",
            size: sizes.hidden,
            usage: BufferUsage::StorageInput,
        },
        BufferPlan {
            label: "decoder-stack-session-attention-residual",
            size: sizes.hidden,
            usage: BufferUsage::StorageCache,
        },
        BufferPlan {
            label: "decoder-stack-session-norm2",
            size: sizes.hidden,
            usage: BufferUsage::StorageInput,
        },
        BufferPlan {
            label: "decoder-stack-session-gate",
            size: sizes.intermediate,
            usage: BufferUsage::StorageInput,
        },
        BufferPlan {
            label: "decoder-stack-session-up",
            size: sizes.intermediate,
            usage: BufferUsage::StorageInput,
        },
        BufferPlan {
            label: "decoder-stack-session-activation",
            size: sizes.intermediate,
            usage: BufferUsage::StorageInput,
        },
        BufferPlan {
            label: "decoder-stack-session-down-projection",
            size: sizes.hidden,
            usage: BufferUsage::StorageInput,
        },
        BufferPlan {
            label: "decoder-stack-session-stack-readback",
            size: sizes.hidden,
            usage: BufferUsage::Readback,
        },
        BufferPlan {
            label: "decoder-stack-session-rms-uniform",
            size: UNIFORM_BUFFER_BYTES,
            usage: BufferUsage::Uniform,
        },
        BufferPlan {
            label: "decoder-stack-session-gemv-q-uniform",
            size: UNIFORM_BUFFER_BYTES,
            usage: BufferUsage::Uniform,
        },
        BufferPlan {
            label: "decoder-stack-session-gemv-k-uniform",
            size: UNIFORM_BUFFER_BYTES,
            usage: BufferUsage::Uniform,
        },
        BufferPlan {
            label: "decoder-stack-session-gemv-v-uniform",
            size: UNIFORM_BUFFER_BYTES,
            usage: BufferUsage::Uniform,
        },
        BufferPlan {
            label: "decoder-stack-session-mrope-uniform",
            size: UNIFORM_BUFFER_BYTES,
            usage: BufferUsage::Uniform,
        },
        BufferPlan {
            label: "decoder-stack-session-append-uniform",
            size: UNIFORM_BUFFER_BYTES,
            usage: BufferUsage::Uniform,
        },
        BufferPlan {
            label: "decoder-stack-session-attention-uniform",
            size: UNIFORM_BUFFER_BYTES,
            usage: BufferUsage::Uniform,
        },
        BufferPlan {
            label: "decoder-stack-session-residual-uniform",
            size: UNIFORM_BUFFER_BYTES,
            usage: BufferUsage::Uniform,
        },
        BufferPlan {
            label: "decoder-stack-session-rms2-uniform",
            size: UNIFORM_BUFFER_BYTES,
            usage: BufferUsage::Uniform,
        },
        BufferPlan {
            label: "decoder-stack-session-gemv-gate-uniform",
            size: UNIFORM_BUFFER_BYTES,
            usage: BufferUsage::Uniform,
        },
        BufferPlan {
            label: "decoder-stack-session-gemv-up-uniform",
            size: UNIFORM_BUFFER_BYTES,
            usage: BufferUsage::Uniform,
        },
        BufferPlan {
            label: "decoder-stack-session-swiglu-uniform",
            size: UNIFORM_BUFFER_BYTES,
            usage: BufferUsage::Uniform,
        },
        BufferPlan {
            label: "decoder-stack-session-gemv-down-uniform",
            size: UNIFORM_BUFFER_BYTES,
            usage: BufferUsage::Uniform,
        },
        BufferPlan {
            label: "decoder-stack-session-residual2-uniform",
            size: UNIFORM_BUFFER_BYTES,
            usage: BufferUsage::Uniform,
        },
        BufferPlan {
            label: "decoder-stack-session-gemv-o-uniform",
            size: UNIFORM_BUFFER_BYTES,
            usage: BufferUsage::Uniform,
        },
        BufferPlan {
            label: "decoder-stack-session-split-partials",
            size: kv.split_partials_bytes,
            usage: BufferUsage::StorageInput,
        },
        BufferPlan {
            label: "decoder-stack-session-split-partial-uniform",
            size: UNIFORM_BUFFER_BYTES,
            usage: BufferUsage::Uniform,
        },
        BufferPlan {
            label: "decoder-stack-session-split-merge-uniform",
            size: UNIFORM_BUFFER_BYTES,
            usage: BufferUsage::Uniform,
        },
    ]
}

/// The buffers of a prefill.
pub open spec fn prefill_buffers(sizes: StackSizes) -> Seq<BufferPlan> {
    seq![
        BufferPlan {
            label: "decoder-stack-session-prefill-hidden-storage",
            size: sizes.prefill_hidden,
            usage: BufferUsage::StorageCache,
        },
        BufferPlan {
            label: "decoder-stack-session-prefill-norm1",
            size: sizes.prefill_hidden,
            usage: BufferUsage::StorageInput,
        },
        BufferPlan {
            label: "decoder-stack-session-prefill-query",
            size: sizes.prefill_query,
            usage: BufferUsage::StorageInput,
        },
        BufferPlan {
            label: "decoder-stack-session-prefill-key",
            size: sizes.prefill_key_value,
            usage: BufferUsage::StorageInput,
        },
        BufferPlan {
            label: "decoder-stack-session-prefill-value",
            size: sizes.prefill_key_value,
            usage: BufferUsage::StorageInput,
        },
        BufferPlan {
            label: "decoder-stack-session-prefill-context",
            size: sizes.prefill_query,
            usage: BufferUsage::StorageInput,
        },
        BufferPlan {
            label: "decoder-stack-session-prefill-output",
            size: sizes.prefill_hidden,
            usage: BufferUsage::StorageInput,
        },
        BufferPlan {
            label: "decoder-stack-session-prefill-norm2",
            size: sizes.prefill_hidden,
            usage: BufferUsage::StorageInput,
        },
        BufferPlan {
            label: "decoder-stack-session-prefill-gate",
            size: sizes.prefill_intermediate,
            usage: BufferUsage::StorageInput,
        },
        BufferPlan {
            label: "decoder-stack-session-prefill-up",
            size: sizes.prefill_intermediate,
            usage: BufferUsage::StorageInput,
        },
        BufferPlan {
            label: "decoder-stack-session-prefill-activation",
            size: sizes.prefill_intermediate,
            usage: BufferUsage::StorageInput,
        },
        BufferPlan {
            label: "decoder-stack-session-prefill-zero-bias",
            size: PREFILL_ZERO_BIAS_BYTES,
            usage: BufferUsage::StorageInput,
        },
    ]
}

/// The buffers of a logits readout.
pub open spec fn logits_buffers(logits: LogitsSizes) -> Seq<BufferPlan> {
    seq![
        BufferPlan {
            label: "decoder-stack-session-final-norm-weight",
            size: logits.final_norm,
            usage: BufferUsage::StorageInput,
        },
        BufferPlan {
            label: "decoder-stack-session-lm-head",
            size: logits.lm_head,
            usage: BufferUsage::StorageInput,
        },
        BufferPlan {
            label: "decoder-stack-session-normed-row",
            size: logits.normed_row,
            usage: BufferUsage::StorageInput,
        },
        BufferPlan {
            label: "decoder-stack-session-logits",
            size: logits.logits,
            usage: BufferUsage::StorageCache,
        },
        BufferPlan {
            label: "decoder-stack-session-logits-readback",
            size: logits.logits,
            usage: BufferUsage::Readback,
        },
        BufferPlan {
            label: "decoder-stack-session-logits-rms-uniform",
            size: UNIFORM_BUFFER_BYTES,
            usage: BufferUsage::Uniform,
        },
        BufferPlan {
            label: "decoder-stack-session-logits-gemv-uniform",
            size: UNIFORM_BUFFER_BYTES,
            usage: BufferUsage::Uniform,
        },
    ]
}

/// The buffers of a token selection.
pub open spec fn top1_buffers() -> Seq<BufferPlan> {
    seq![
        BufferPlan {
            label: "decoder-stack-session-top1-result",
            size: TOP1_RESULT_BYTES,
            usage: BufferUsage::StorageOutput,
        },
        BufferPlan {
            label: "decoder-stack-session-top1-readback",
            size: TOP1_RESULT_BYTES,
            usage: BufferUsage::Readback,
        },
    ]
}

/// The buffers that a finish adds.
pub open spec fn stack_finish_buffers(sizes: StackSizes) -> Seq<BufferPlan> {
    seq![
        BufferPlan {
            label: "decoder-stack-session-finish-key-readback",
            size: sizes.cache,
            usage: BufferUsage::Readback,
        },
        BufferPlan {
            label: "decoder-stack-session-finish-value-readback",
            size: sizes.cache,
            usage: BufferUsage::Readback,
        },
    ]
}

/// All buffers that a session can have, by their places.
pub open spec fn stack_buffers(
    kv: KvPlan,
    resources: WeightResourcePlan,
    sizes: StackSizes,
    logits: LogitsSizes,
) -> Seq<BufferPlan> {
    base_buffers(kv, resources, sizes) + prefill_buffers(sizes) + logits_buffers(logits)
        + top1_buffers() + stack_finish_buffers(sizes)
}

/// A buffer of a session.
#[derive(Clone, Copy, Debug)]
pub struct Allocation {
    pub place: usize,
    pub buffer: BufferPlan,
    /// Whether the buffer is taken over from an earlier session with the same weights.
    pub resident: bool,
    /// The uniform words that a new buffer is created with.
    pub words: Option<[u32; 4]>,
}

/// Whether the buffer of a place holds weights that can stay on the device.
pub open spec fn weight_place(place: int) -> bool {
    ||| STACK_NORM1_WEIGHT <= place <= STACK_O_WEIGHT
    ||| STACK_NORM2_WEIGHT <= place <= STACK_DOWN_WEIGHT
    ||| STACK_FINAL_NORM_WEIGHT <= place <= STACK_LM_HEAD
}

fn holds_weights(place: usize) -> (holds: bool)
    ensures
        holds == weight_place(place as int),
{
    (STACK_NORM1_WEIGHT <= place && place <= STACK_O_WEIGHT) || (STACK_NORM2_WEIGHT <= place
        && place <= STACK_DOWN_WEIGHT) || (STACK_FINAL_NORM_WEIGHT <= place && place
        <= STACK_LM_HEAD)
}

/// The uniform words that the buffer of a place is created with.
pub open spec fn static_words(place: int, lm_head: Option<LmHeadPlan>) -> Option<[u32; 4]> {
    match lm_head {
        None => None,
        Some(plan) => if place == STACK_LOGITS_RMS_UNIFORM {
            Some(plan.stage_words@[0])
        } else if place == STACK_LOGITS_GEMV_UNIFORM {
            Some(plan.stage_words@[1])
        } else {
            None
        },
    }
}

/// The buffer of a place, as a session allocates it.
pub open spec fn allocation(
    table: Seq<BufferPlan>,
    lm_head: Option<LmHeadPlan>,
    hit: bool,
    place: int,
) -> Allocation {
    Allocation {
        place: place as usize,
        buffer: table[place],
        resident: hit && weight_place(place),
        words: static_words(place, lm_head),
    }
}

/// Whether a session has the buffer of a place from its creation on.
pub open spec fn created_place(place: int, prefill_capable: bool, logits_capable: bool) -> bool {
    if place < BASE_BUFFERS {
        true
    } else if place < PREFILL_BUFFERS {
        prefill_capable
    } else {
        place < LOGITS_BUFFERS && logits_capable
    }
}

/// The buffers of a session from one place on, in the order of their creation.
pub open spec fn allocations_from(
    table: Seq<BufferPlan>,
    lm_head: Option<LmHeadPlan>,
    prefill_capable: bool,
    hit: bool,
    place: int,
    made: Seq<Allocation>,
) -> Seq<Allocation>
    decreases LOGITS_BUFFERS - place,
{
    if place >= LOGITS_BUFFERS {
        made
    } else if created_place(place, prefill_capable, lm_head is Some) {
        allocations_from(
            table,
            lm_head,
            prefill_capable,
            hit,
            place + 1,
            made.push(allocation(table, lm_head, hit, place)),
        )
    } else {
        allocations_from(table, lm_head, prefill_capable, hit, place + 1, made)
    }
}

fn base_buffer_plans(kv: &KvPlan, resources: &WeightResourcePlan, sizes: &StackSizes) -> (plans: Vec<
    BufferPlan,
>)
    ensures
        plans@ == base_buffers(*kv, *resources, *sizes),
{
    let plans: Vec<BufferPlan> = vec![
        buffer("decoder-stack-session-hidden-pingpong", sizes.pingpong, BufferUsage::StorageCache),
        buffer(
            "decoder-stack-session-norm1-weight",
            resources.layer_weight_bulk_bytes[0],
            BufferUsage::StorageInput,
        ),
        buffer(
            "decoder-stack-session-q-weight",
            resources.layer_weight_bulk_bytes[1],
            BufferUsage::StorageInput,
        ),
        buffer(
            "decoder-stack-session-k-weight",
            resources.layer_weight_bulk_bytes[2],
            BufferUsage::StorageInput,
        ),
        buffer(
            "decoder-stack-session-v-weight",
            resources.layer_weight_bulk_bytes[3],
            BufferUsage::StorageInput,
        ),
        buffer(
            "decoder-stack-session-o-weight",
            resources.layer_weight_bulk_bytes[4],
            BufferUsage::StorageInput,
        ),
        buffer(
            "decoder-stack-session-rope-cos",
            resources.rope_table_bytes,
            BufferUsage::StorageInput,
        ),
        buffer(
            "decoder-stack-session-rope-sin",
            resources.rope_table_bytes,
            BufferUsage::StorageInput,
        ),
        buffer(
            "decoder-stack-session-norm2-weight",
            resources.layer_weight_bulk_bytes[5],
            BufferUsage::StorageInput,
        ),
        buffer(
            "decoder-stack-session-gate-weight",
            resources.layer_weight_bulk_bytes[6],
            BufferUsage::StorageInput,
        ),
        buffer(
            "decoder-stack-session-up-weight",
            resources.layer_weight_bulk_bytes[7],
            BufferUsage::StorageInput,
        ),
        buffer(
            "decoder-stack-session-down-weight",
            resources.layer_weight_bulk_bytes[8],
            BufferUsage::StorageInput,
        ),
        buffer("decoder-stack-session-key-cache", sizes.cache, BufferUsage::StorageCache),
        buffer("decoder-stack-session-value-cache", sizes.cache, BufferUsage::StorageCache),
        buffer("decoder-stack-session-norm1", sizes.hidden, BufferUsage::StorageInput),
        buffer("decoder-stack-session-q-projection", sizes.query, BufferUsage::StorageInput),
        buffer("decoder-stack-session-k-projection", sizes.key_value, BufferUsage::StorageInput),
        buffer("decoder-stack-session-v-projection", sizes.key_value, BufferUsage::StorageInput),
        buffer("decoder-stack-session-mrope-query", sizes.query, BufferUsage::StorageInput),
        buffer("decoder-stack-session-mrope-key", sizes.key_value, BufferUsage::StorageInput),
        buffer(
            "decoder-stack-session-attention-output",
            kv.attention_bytes,
            BufferUsage::StorageCache,
        ),
        buffer("decoder-stack-session-o-projection", sizes.hidden, BufferUsage::StorageInput),
        buffer(
            "decoder-stack-session-attention-residual",
            sizes.hidden,
            BufferUsage::StorageCache,
        ),
        buffer("decoder-stack-session-norm2", sizes.hidden, BufferUsage::StorageInput),
        buffer("decoder-stack-session-gate", sizes.intermediate, BufferUsage::StorageInput),
        buffer("decoder-stack-session-up", sizes.intermediate, BufferUsage::StorageInput),
        buffer("decoder-stack-session-activation", sizes.intermediate, BufferUsage::StorageInput),
        buffer("decoder-stack-session-down-projection", sizes.hidden, BufferUsage::StorageInput),
        buffer("decoder-stack-session-stack-readback", sizes.hidden, BufferUsage::Readback),
        buffer("decoder-stack-session-rms-uniform", UNIFORM_BUFFER_BYTES, BufferUsage::Uniform),
        buffer("decoder-stack-session-gemv-q-uniform", UNIFORM_BUFFER_BYTES, BufferUsage::Uniform),
        buffer("decoder-stack-session-gemv-k-uniform", UNIFORM_BUFFER_BYTES, BufferUsage::Uniform),
        buffer("decoder-stack-session-gemv-v-uniform", UNIFORM_BUFFER_BYTES, BufferUsage::Uniform),
        buffer("decoder-stack-session-mrope-uniform", UNIFORM_BUFFER_BYTES, BufferUsage::Uniform),
        buffer("decoder-stack-session-append-uniform", UNIFORM_BUFFER_BYTES, BufferUsage::Uniform),
        buffer(
            "decoder-stack-session-attention-uniform",
            UNIFORM_BUFFER_BYTES,
            BufferUsage::Uniform,
        ),
        buffer(
            "decoder-stack-session-residual-uniform",
            UNIFORM_BUFFER_BYTES,
            BufferUsage::Uniform,
        ),
        buffer("decoder-stack-session-rms2-uniform", UNIFORM_BUFFER_BYTES, BufferUsage::Uniform),
        buffer(
            "decoder-stack-session-gemv-gate-uniform",
            UNIFORM_BUFFER_BYTES,
            BufferUsage::Uniform,
        ),
        buffer(
            "decoder-stack-session-gemv-up-uniform",
            UNIFORM_BUFFER_BYTES,
            BufferUsage::Uniform,
        ),
        buffer("decoder-stack-session-swiglu-uniform", UNIFORM_BUFFER_BYTES, BufferUsage::Uniform),
        buffer(
            "decoder-stack-session-gemv-down-uniform",
            UNIFORM_BUFFER_BYTES,
            BufferUsage::Uniform,
        ),
        buffer(
            "decoder-stack-session-residual2-uniform",
            UNIFORM_BUFFER_BYTES,
            BufferUsage::Uniform,
        ),
        buffer("decoder-stack-session-gemv-o-uniform", UNIFORM_BUFFER_BYTES, BufferUsage::Uniform),
        buffer(
            "decoder-stack-session-split-partials",
            kv.split_partials_bytes,
            BufferUsage::StorageInput,
        ),
        buffer(
            "decoder-stack-session-split-partial-uniform",
            UNIFORM_BUFFER_BYTES,
            BufferUsage::Uniform,
        ),
        buffer(
            "decoder-stack-session-split-merge-uniform",
            UNIFORM_BUFFER_BYTES,
            BufferUsage::Uniform,
        ),
    ];
    assert(plans@ =~= base_buffers(*kv, *resources, *sizes));
    plans
}

fn later_buffer_plans(sizes: &StackSizes, logits: &LogitsSizes) -> (plans: Vec<BufferPlan>)
    ensures
        plans@ == prefill_buffers(*sizes) + logits_buffers(*logits),
{
    let plans: Vec<BufferPlan> = vec![
        buffer(
            "decoder-stack-session-prefill-hidden-storage",
            sizes.prefill_hidden,
            BufferUsage::StorageCache,
        ),
        buffer(
            "decoder-stack-session-prefill-norm1",
            sizes.prefill_hidden,
            BufferUsage::StorageInput,
        ),
        buffer(
            "decoder-stack-session-prefill-query",
            sizes.prefill_query,
            BufferUsage::StorageInput,
        ),
        buffer(
            "decoder-stack-session-prefill-key",
            sizes.prefill_key_value,
            BufferUsage::StorageInput,
        ),
        buffer(
            "decoder-stack-session-prefill-value",
            sizes.prefill_key_value,
            BufferUsage::StorageInput,
        ),
        buffer(
            "decoder-stack-session-prefill-context",
            sizes.prefill_query,
            BufferUsage::StorageInput,
        ),
        buffer(
            "decoder-stack-session-prefill-output",
            sizes.prefill_hidden,
            BufferUsage::StorageInput,
        ),
        buffer(
            "decoder-stack-session-prefill-norm2",
            sizes.prefill_hidden,
            BufferUsage::StorageInput,
        ),
        buffer(
            "decoder-stack-session-prefill-gate",
            sizes.prefill_intermediate,
            BufferUsage::StorageInput,
        ),
        buffer(
            "decoder-stack-session-prefill-up",
            sizes.prefill_intermediate,
            BufferUsage::StorageInput,
        ),
        buffer(
            "decoder-stack-session-prefill-activation",
            sizes.prefill_intermediate,
            BufferUsage::StorageInput,
        ),
        buffer(
            "decoder-stack-session-prefill-zero-bias",
            PREFILL_ZERO_BIAS_BYTES,
            BufferUsage::StorageInput,
        ),
        buffer(
            "decoder-stack-session-final-norm-weight",
            logits.final_norm,
            BufferUsage::StorageInput,
        ),
        buffer("decoder-stack-session-lm-head", logits.lm_head, BufferUsage::StorageInput),
        buffer("decoder-stack-session-normed-row", logits.normed_row, BufferUsage::StorageInput),
        buffer("decoder-stack-session-logits", logits.logits, BufferUsage::StorageCache),
        buffer("decoder-stack-session-logits-readback", logits.logits, BufferUsage::Readback),
        buffer(
            "decoder-stack-session-logits-rms-uniform",
            UNIFORM_BUFFER_BYTES,
            BufferUsage::Uniform,
        ),
        buffer(
            "decoder-stack-session-logits-gemv-uniform",
            UNIFORM_BUFFER_BYTES,
            BufferUsage::Uniform,
        ),
    ];
    assert(plans@ =~= prefill_buffers(*sizes) + logits_buffers(*logits));
    plans
}

fn words_of_place(place: usize, lm_head: &Option<LmHeadPlan>) -> (words: Option<[u32; 4]>)
    ensures
        words == static_words(place as int, *lm_head),
{
    match lm_head {
        None => None,
        Some(plan) => if place == STACK_LOGITS_RMS_UNIFORM {
            Some(plan.stage_words[0])
        } else if place == STACK_LOGITS_GEMV_UNIFORM {
            Some(plan.stage_words[1])
        } else {
            None
        },
    }
}

fn allocate(
    plans: &StackPlans,
    sizes: &StackSizes,
    logits: &LogitsSizes,
    hit: bool,
) -> (allocations: Vec<Allocation>)
    ensures
        allocations@ == allocations_from(
            stack_buffers(plans.kv, plans.resources, *sizes, *logits),
            plans.lm_head,
            plans.prefill_capable,
            hit,
            0,
            Seq::empty(),
        ),
{
    let ghost table = stack_buffers(plans.kv, plans.resources, *sizes, *logits);
    let mut buffers: Vec<BufferPlan> = base_buffer_plans(&plans.kv, &plans.resources, sizes);
    let mut later: Vec<BufferPlan> = later_buffer_plans(sizes, logits);
    buffers.append(&mut later);
    assert(forall|i: int| 0 <= i < LOGITS_BUFFERS ==> #[trigger] buffers@[i] == table[i]);
    let logits_capable: bool = plans.lm_head.is_some();
    let mut allocations: Vec<Allocation> = Vec::new();
    let mut place: usize = 0;
    while place < LOGITS_BUFFERS
        invariant
            place <= LOGITS_BUFFERS,
            buffers.len() == LOGITS_BUFFERS,
            forall|i: int| 0 <= i < LOGITS_BUFFERS ==> #[trigger] buffers@[i] == table[i],
            logits_capable == (plans.lm_head is Some),
            allocations_from(
                table,
                plans.lm_head,
                plans.prefill_capable,
                hit,
                0,
                Seq::empty(),
            ) == allocations_from(
                table,
                plans.lm_head,
                plans.prefill_capable,
                hit,
                place as int,
                allocations@,
            ),
        decreases LOGITS_BUFFERS - place,
    {
        let created: bool = place < BASE_BUFFERS || (place < PREFILL_BUFFERS
            && plans.prefill_capable) || (place >= PREFILL_BUFFERS && logits_capable);
        if created {
            allocations.push(
                Allocation {
                    place,
                    buffer: buffers[place],
                    resident: hit && holds_weights(place),
                    words: words_of_place(place, &plans.lm_head),
                },
            );
        }
        place += 1;
    }
    allocations
}

/// A pipeline to create.
#[derive(Clone, Copy, Debug)]
pub struct PipelinePlan<'a> {
    pub place: usize,
    pub kernel: &'static str,
    pub layout: usize,
    pub source: &'a str,
}

/// A pipeline to create, as plain data.
pub struct PipelineModel {
    pub place: usize,
    pub kernel: Seq<char>,
    pub layout: usize,
    pub source: Seq<char>,
}

/// A pipeline to create, as plain data.
pub open spec fn pipeline_model(plan: PipelinePlan<'_>) -> PipelineModel {
    PipelineModel {
        place: plan.place,
        kernel: plan.kernel@,
        layout: plan.layout,
        source: plan.source@,
    }
}

/// Pipelines to create, as plain data.
pub open spec fn pipeline_models(plans: Seq<PipelinePlan<'_>>) -> Seq<PipelineModel> {
    plans.map_values(|plan: PipelinePlan<'_>| pipeline_model(plan))
}

/// A pipeline to create.
pub fn pipeline<'a>(place: usize, kernel: &'static str, layout: usize, source: &'a str) -> (plan:
    PipelinePlan<'a>)
    ensures
        pipeline_model(plan) == (PipelineModel {
            place,
            kernel: kernel@,
            layout,
            source: source@,
        }),
{
    PipelinePlan { place, kernel, layout, source }
}

/// The pipelines of a session, in the order of their creation. Half-precision weights add
/// pipelines that read them.
pub open spec fn stack_pipelines(
    sources: StackSourcesModel,
    storage: WeightStorage,
    prefill_capable: bool,
) -> Seq<PipelineModel> {
    let half = storage == WeightStorage::F16;
    let first = seq![
        PipelineModel {
            place: PIPELINE_RMS_NORM,
            kernel: "rms_norm_f32"@,
            layout: LAYOUT_RMS,
            source: sources.rms_norm,
        },
        PipelineModel {
            place: PIPELINE_GEMV_TILED,
            kernel: "gemv_tiled_f32"@,
            layout: LAYOUT_GEMV,
            source: sources.gemv_tiled,
        },
    ];
    let of_half = if half {
        seq![
            PipelineModel {
                place: PIPELINE_RMS_NORM_F16,
                kernel: "rms_norm_f16_weights"@,
                layout: LAYOUT_RMS,
                source: sources.rms_norm_f16_weights,
            },
            PipelineModel {
                place: PIPELINE_GEMV_TILED_F16,
                kernel: "gemv_tiled_f16_weights"@,
                layout: LAYOUT_GEMV,
                source: sources.gemv_tiled_f16_weights,
            },
        ]
    } else {
        Seq::empty()
    };
    let rest = seq![
        PipelineModel {
            place: PIPELINE_MROPE,
            kernel: "decoder_mrope_f32"@,
            layout: LAYOUT_MROPE,
            source: sources.mrope,
        },
        PipelineModel {
            place: PIPELINE_APPEND,
            kernel: "decoder_kv_append_f32"@,
            layout: LAYOUT_APPEND,
            source: sources.append,
        },
        PipelineModel {
            place: PIPELINE_SWIGLU,
            kernel: "decoder_swiglu_f32"@,
            layout: LAYOUT_SWIGLU,
            source: sources.swiglu,
        },
        PipelineModel {
            place: PIPELINE_RESIDUAL,
            kernel: "add_f32"@,
            layout: LAYOUT_RESIDUAL,
            source: sources.residual,
        },
        PipelineModel {
            place: PIPELINE_SPLIT_PARTIAL,
            kernel: "decoder_gqa_split_partial_f32"@,
            layout: LAYOUT_ATTENTION,
            source: sources.split_partial,
        },
        PipelineModel {
            place: PIPELINE_SPLIT_MERGE,
            kernel: "decoder_gqa_split_merge_f32"@,
            layout: LAYOUT_ATTENTION,
            source: sources.split_merge,
        },
    ];
    let of_prefill = if prefill_capable {
        seq![
            PipelineModel {
                place: PIPELINE_PROJECTION,
                kernel: "vision_patch_projection_f32"@,
                layout: LAYOUT_PROJECTION,
                source: sources.projection,
            },
        ] + (if half {
            seq![
            PipelineModel {
                place: PIPELINE_PROJECTION_F16,
                kernel: "linear_projection_f16_weights"@,
                layout: LAYOUT_PROJECTION,
                source: sources.linear_projection_f16_weights,
            },
            ]
        } else {
            Seq::empty()
        }) + seq![
            PipelineModel {
                place: PIPELINE_PREFILL_MROPE,
                kernel: "decoder_prefill_mrope_f32"@,
                layout: LAYOUT_MROPE,
                source: sources.prefill_mrope,
            },
            PipelineModel {
                place: PIPELINE_APPEND_RANGE,
                kernel: "decoder_kv_append_range_f32"@,
                layout: LAYOUT_APPEND,
                source: sources.kv_append_range,
            },
            PipelineModel {
                place: PIPELINE_PREFILL_GQA,
                kernel: "decoder_prefill_gqa_f32"@,
                layout: LAYOUT_ATTENTION,
                source: sources.prefill_gqa,
            },
        ]
    } else {
        Seq::empty()
    };
    first + of_half + rest + of_prefill
}

fn create_pipelines<'a>(
    sources: &'a StackShaderSources,
    storage: WeightStorage,
    prefill_capable: bool,
) -> (pipelines: Vec<PipelinePlan<'a>>)
    ensures
        pipeline_models(pipelines@) == stack_pipelines(
            crate::stack_sources::stack_sources_model(*sources),
            storage,
            prefill_capable,
        ),
{
    let half: bool = match storage {
        WeightStorage::F32 => false,
        WeightStorage::F16 => true,
    };
    let mut pipelines: Vec<PipelinePlan<'a>> = Vec::new();
    pipelines.push(
        pipeline(PIPELINE_RMS_NORM, "rms_norm_f32", LAYOUT_RMS, sources.rms_norm.as_str()),
    );
    pipelines.push(
        pipeline(PIPELINE_GEMV_TILED, "gemv_tiled_f32", LAYOUT_GEMV, sources.gemv_tiled.as_str()),
    );
    if half {
        pipelines.push(
            pipeline(
                PIPELINE_RMS_NORM_F16,
                "rms_norm_f16_weights",
                LAYOUT_RMS,
                sources.rms_norm_f16_weights.as_str(),
            ),
        );
        pipelines.push(
            pipeline(
                PIPELINE_GEMV_TILED_F16,
                "gemv_tiled_f16_weights",
                LAYOUT_GEMV,
                sources.gemv_tiled_f16_weights.as_str(),
            ),
        );
    }
    pipelines.push(
        pipeline(PIPELINE_MROPE, "decoder_mrope_f32", LAYOUT_MROPE, sources.mrope.as_str()),
    );
    pipelines.push(
        pipeline(PIPELINE_APPEND, "decoder_kv_append_f32", LAYOUT_APPEND, sources.append.as_str()),
    );
    pipelines.push(
        pipeline(PIPELINE_SWIGLU, "decoder_swiglu_f32", LAYOUT_SWIGLU, sources.swiglu.as_str()),
    );
    pipelines.push(
        pipeline(PIPELINE_RESIDUAL, "add_f32", LAYOUT_RESIDUAL, sources.residual.as_str()),
    );
    pipelines.push(
        pipeline(
            PIPELINE_SPLIT_PARTIAL,
            "decoder_gqa_split_partial_f32",
            LAYOUT_ATTENTION,
            sources.split_partial.as_str(),
        ),
    );
    pipelines.push(
        pipeline(
            PIPELINE_SPLIT_MERGE,
            "decoder_gqa_split_merge_f32",
            LAYOUT_ATTENTION,
            sources.split_merge.as_str(),
        ),
    );
    if prefill_capable {
        pipelines.push(
            pipeline(
                PIPELINE_PROJECTION,
                "vision_patch_projection_f32",
                LAYOUT_PROJECTION,
                sources.projection.as_str(),
            ),
        );
        if half {
            pipelines.push(
                pipeline(
                    PIPELINE_PROJECTION_F16,
                    "linear_projection_f16_weights",
                    LAYOUT_PROJECTION,
                    sources.linear_projection_f16_weights.as_str(),
                ),
            );
        }
        pipelines.push(
            pipeline(
                PIPELINE_PREFILL_MROPE,
                "decoder_prefill_mrope_f32",
                LAYOUT_MROPE,
                sources.prefill_mrope.as_str(),
            ),
        );
        pipelines.push(
            pipeline(
                PIPELINE_APPEND_RANGE,
                "decoder_kv_append_range_f32",
                LAYOUT_APPEND,
                sources.kv_append_range.as_str(),
            ),
        );
        pipelines.push(
            pipeline(
                PIPELINE_PREFILL_GQA,
                "decoder_prefill_gqa_f32",
                LAYOUT_ATTENTION,
                sources.prefill_gqa.as_str(),
            ),
        );
    }
    assert(pipeline_models(pipelines@) =~= stack_pipelines(
        crate::stack_sources::stack_sources_model(*sources),
        storage,
        prefill_capable,
    ));
    pipelines
}

/// The bind groups that every session has.
pub open spec fn base_bind_groups(
    kv: KvPlan,
    stack: StackPlan,
    resources: WeightResourcePlan,
    sizes: StackSizes,
) -> Seq<BindGroupModel> {
    seq![
        BindGroupModel {
            label: "decoder-stack-session-rms-bind-group",
            pipeline: LAYOUT_RMS,
            bindings: seq![
                Binding { buffer: STACK_HIDDEN_PINGPONG, size: sizes.hidden },
                Binding {
                    buffer: STACK_NORM1_WEIGHT,
                    size: resources.layer_weight_stride_bytes@[0],
                },
                Binding { buffer: STACK_NORM1, size: sizes.hidden },
                Binding { buffer: STACK_RMS_UNIFORM, size: UNIFORM_BUFFER_BYTES },
            ],
        },
        BindGroupModel {
            label: "decoder-stack-session-gemv-q-bind-group",
            pipeline: LAYOUT_GEMV,
            bindings: seq![
                Binding { buffer: STACK_Q_WEIGHT, size: resources.layer_weight_stride_bytes@[1] },
                Binding { buffer: STACK_NORM1, size: sizes.hidden },
                Binding { buffer: STACK_Q_PROJECTION, size: sizes.query },
                Binding { buffer: STACK_GEMV_Q_UNIFORM, size: UNIFORM_BUFFER_BYTES },
            ],
        },
        BindGroupModel {
            label: "decoder-stack-session-gemv-k-bind-group",
            pipeline: LAYOUT_GEMV,
            bindings: seq![
                Binding { buffer: STACK_K_WEIGHT, size: resources.layer_weight_stride_bytes@[2] },
                Binding { buffer: STACK_NORM1, size: sizes.hidden },
                Binding { buffer: STACK_K_PROJECTION, size: sizes.key_value },
                Binding { buffer: STACK_GEMV_K_UNIFORM, size: UNIFORM_BUFFER_BYTES },
            ],
        },
        BindGroupModel {
            label: "decoder-stack-session-gemv-v-bind-group",
            pipeline: LAYOUT_GEMV,
            bindings: seq![
                Binding { buffer: STACK_V_WEIGHT, size: resources.layer_weight_stride_bytes@[3] },
                Binding { buffer: STACK_NORM1, size: sizes.hidden },
                Binding { buffer: STACK_V_PROJECTION, size: sizes.key_value },
                Binding { buffer: STACK_GEMV_V_UNIFORM, size: UNIFORM_BUFFER_BYTES },
            ],
        },
        BindGroupModel {
            label: "decoder-stack-session-mrope-bind-group",
            pipeline: LAYOUT_MROPE,
            bindings: seq![
                Binding { buffer: STACK_Q_PROJECTION, size: sizes.query },
                Binding { buffer: STACK_K_PROJECTION, size: sizes.key_value },
                Binding { buffer: STACK_ROPE_COS, size: resources.rope_table_bytes },
                Binding { buffer: STACK_ROPE_SIN, size: resources.rope_table_bytes },
                Binding { buffer: STACK_MROPE_QUERY, size: sizes.query },
                Binding { buffer: STACK_MROPE_KEY, size: sizes.key_value },
                Binding { buffer: STACK_MROPE_UNIFORM, size: UNIFORM_BUFFER_BYTES },
            ],
        },
        BindGroupModel {
            label: "decoder-stack-session-append-bind-group",
            pipeline: LAYOUT_APPEND,
            bindings: seq![
                Binding { buffer: STACK_MROPE_KEY, size: sizes.key_value },
                Binding { buffer: STACK_V_PROJECTION, size: sizes.key_value },
                Binding { buffer: STACK_KEY_CACHE, size: stack.cache_stride_bytes },
                Binding { buffer: STACK_VALUE_CACHE, size: stack.cache_stride_bytes },
                Binding { buffer: STACK_APPEND_UNIFORM, size: UNIFORM_BUFFER_BYTES },
            ],
        },
        BindGroupModel {
            label: "decoder-stack-session-gemv-o-bind-group",
            pipeline: LAYOUT_GEMV,
            bindings: seq![
                Binding { buffer: STACK_O_WEIGHT, size: resources.layer_weight_stride_bytes@[4] },
                Binding { buffer: STACK_ATTENTION_OUTPUT, size: kv.attention_bytes },
                Binding { buffer: STACK_O_PROJECTION, size: sizes.hidden },
                Binding { buffer: STACK_GEMV_O_UNIFORM, size: UNIFORM_BUFFER_BYTES },
            ],
        },
        BindGroupModel {
            label: "decoder-stack-session-residual-bind-group",
            pipeline: LAYOUT_RESIDUAL,
            bindings: seq![
                Binding { buffer: STACK_HIDDEN_PINGPONG, size: sizes.hidden },
                Binding { buffer: STACK_O_PROJECTION, size: sizes.hidden },
                Binding { buffer: STACK_ATTENTION_RESIDUAL, size: sizes.hidden },
                Binding { buffer: STACK_RESIDUAL_UNIFORM, size: UNIFORM_BUFFER_BYTES },
            ],
        },
        BindGroupModel {
            label: "decoder-stack-session-rms2-bind-group",
            pipeline: LAYOUT_RMS,
            bindings: seq![
                Binding { buffer: STACK_ATTENTION_RESIDUAL, size: sizes.hidden },
                Binding {
                    buffer: STACK_NORM2_WEIGHT,
                    size: resources.layer_weight_stride_bytes@[5],
                },
                Binding { buffer: STACK_NORM2, size: sizes.hidden },
                Binding { buffer: STACK_RMS2_UNIFORM, size: UNIFORM_BUFFER_BYTES },
            ],
        },
        BindGroupModel {
            label: "decoder-stack-session-gemv-gate-bind-group",
            pipeline: LAYOUT_GEMV,
            bindings: seq![
                Binding {
                    buffer: STACK_GATE_WEIGHT,
                    size: resources.layer_weight_stride_bytes@[6],
                },
                Binding { buffer: STACK_NORM2, size: sizes.hidden },
                Binding { buffer: STACK_GATE, size: sizes.intermediate },
                Binding { buffer: STACK_GEMV_GATE_UNIFORM, size: UNIFORM_BUFFER_BYTES },
            ],
        },
        BindGroupModel {
            label: "decoder-stack-session-gemv-up-bind-group",
            pipeline: LAYOUT_GEMV,
            bindings: seq![
                Binding { buffer: STACK_UP_WEIGHT, size: resources.layer_weight_stride_bytes@[7] },
                Binding { buffer: STACK_NORM2, size: sizes.hidden },
                Binding { buffer: STACK_UP, size: sizes.intermediate },
                Binding { buffer: STACK_GEMV_UP_UNIFORM, size: UNIFORM_BUFFER_BYTES },
            ],
        },
        BindGroupModel {
            label: "decoder-stack-session-swiglu-bind-group",
            pipeline: LAYOUT_SWIGLU,
            bindings: seq![
                Binding { buffer: STACK_GATE, size: sizes.intermediate },
                Binding { buffer: STACK_UP, size: sizes.intermediate },
                Binding { buffer: STACK_ACTIVATION, size: sizes.intermediate },
                Binding { buffer: STACK_SWIGLU_UNIFORM, size: UNIFORM_BUFFER_BYTES },
            ],
        },
        BindGroupModel {
            label: "decoder-stack-session-gemv-down-bind-group",
            pipeline: LAYOUT_GEMV,
            bindings: seq![
                Binding {
                    buffer: STACK_DOWN_WEIGHT,
                    size: resources.layer_weight_stride_bytes@[8],
                },
                Binding { buffer: STACK_ACTIVATION, size: sizes.intermediate },
                Binding { buffer: STACK_DOWN_PROJECTION, size: sizes.hidden },
                Binding { buffer: STACK_GEMV_DOWN_UNIFORM, size: UNIFORM_BUFFER_BYTES },
            ],
        },
        BindGroupModel {
            label: "decoder-stack-session-residual2-bind-group",
            pipeline: LAYOUT_RESIDUAL,
            bindings: seq![
                Binding { buffer: STACK_ATTENTION_RESIDUAL, size: sizes.hidden },
                Binding { buffer: STACK_DOWN_PROJECTION, size: sizes.hidden },
                Binding { buffer: STACK_HIDDEN_PINGPONG, size: sizes.hidden },
                Binding { buffer: STACK_RESIDUAL2_UNIFORM, size: UNIFORM_BUFFER_BYTES },
            ],
        },
        BindGroupModel {
            label: "decoder-stack-session-split-partial-bind-group",
            pipeline: LAYOUT_ATTENTION,
            bindings: seq![
                Binding { buffer: STACK_MROPE_QUERY, size: sizes.query },
                Binding { buffer: STACK_KEY_CACHE, size: stack.cache_stride_bytes },
                Binding { buffer: STACK_VALUE_CACHE, size: stack.cache_stride_bytes },
                Binding { buffer: STACK_SPLIT_PARTIALS, size: kv.split_partials_bytes },
                Binding { buffer: STACK_SPLIT_PARTIAL_UNIFORM, size: UNIFORM_BUFFER_BYTES },
            ],
        },
        BindGroupModel {
            label: "decoder-stack-session-split-merge-bind-group",
            pipeline: LAYOUT_ATTENTION,
            bindings: seq![
                Binding { buffer: STACK_SPLIT_PARTIALS, size: kv.split_partials_bytes },
                Binding { buffer: STACK_KEY_CACHE, size: stack.cache_stride_bytes },
                Binding { buffer: STACK_VALUE_CACHE, size: stack.cache_stride_bytes },
                Binding { buffer: STACK_ATTENTION_OUTPUT, size: kv.attention_bytes },
                Binding { buffer: STACK_SPLIT_MERGE_UNIFORM, size: UNIFORM_BUFFER_BYTES },
            ],
        },
    ]
}

/// The bind groups of a prefill.
pub open spec fn prefill_bind_groups(
    stack: StackPlan,
    resources: WeightResourcePlan,
    sizes: StackSizes,
) -> Seq<BindGroupModel> {
    seq![
        BindGroupModel {
            label: "decoder-stack-session-prefill-rms1-bind-group",
            pipeline: LAYOUT_RMS,
            bindings: seq![
                Binding { buffer: STACK_PREFILL_HIDDEN_STORAGE, size: sizes.prefill_hidden },
                Binding {
                    buffer: STACK_NORM1_WEIGHT,
                    size: resources.layer_weight_stride_bytes@[0],
                },
                Binding { buffer: STACK_PREFILL_NORM1, size: sizes.prefill_hidden },
                Binding { buffer: STACK_RMS_UNIFORM, size: UNIFORM_BUFFER_BYTES },
            ],
        },
        BindGroupModel {
            label: "decoder-stack-session-prefill-query-bind-group",
            pipeline: LAYOUT_PROJECTION,
            bindings: seq![
                Binding { buffer: STACK_PREFILL_NORM1, size: sizes.prefill_hidden },
                Binding { buffer: STACK_Q_WEIGHT, size: resources.layer_weight_stride_bytes@[1] },
                Binding { buffer: STACK_PREFILL_ZERO_BIAS, size: PREFILL_ZERO_BIAS_BYTES },
                Binding { buffer: STACK_PREFILL_CONTEXT, size: sizes.prefill_query },
                Binding { buffer: STACK_GEMV_Q_UNIFORM, size: UNIFORM_BUFFER_BYTES },
            ],
        },
        BindGroupModel {
            label: "decoder-stack-session-prefill-key-bind-group",
            pipeline: LAYOUT_PROJECTION,
            bindings: seq![
                Binding { buffer: STACK_PREFILL_NORM1, size: sizes.prefill_hidden },
                Binding { buffer: STACK_K_WEIGHT, size: resources.layer_weight_stride_bytes@[2] },
                Binding { buffer: STACK_PREFILL_ZERO_BIAS, size: PREFILL_ZERO_BIAS_BYTES },
                Binding { buffer: STACK_PREFILL_KEY, size: sizes.prefill_key_value },
                Binding { buffer: STACK_GEMV_K_UNIFORM, size: UNIFORM_BUFFER_BYTES },
            ],
        },
        BindGroupModel {
            label: "decoder-stack-session-prefill-value-bind-group",
            pipeline: LAYOUT_PROJECTION,
            bindings: seq![
                Binding { buffer: STACK_PREFILL_NORM1, size: sizes.prefill_hidden },
                Binding { buffer: STACK_V_WEIGHT, size: resources.layer_weight_stride_bytes@[3] },
                Binding { buffer: STACK_PREFILL_ZERO_BIAS, size: PREFILL_ZERO_BIAS_BYTES },
                Binding { buffer: STACK_PREFILL_VALUE, size: sizes.prefill_key_value },
                Binding { buffer: STACK_GEMV_V_UNIFORM, size: UNIFORM_BUFFER_BYTES },
            ],
        },
        BindGroupModel {
            label: "decoder-stack-session-prefill-mrope-bind-group",
            pipeline: LAYOUT_MROPE,
            bindings: seq![
                Binding { buffer: STACK_PREFILL_CONTEXT, size: sizes.prefill_query },
                Binding { buffer: STACK_PREFILL_KEY, size: sizes.prefill_key_value },
                Binding { buffer: STACK_ROPE_COS, size: resources.rope_table_bytes },
                Binding { buffer: STACK_ROPE_SIN, size: resources.rope_table_bytes },
                Binding { buffer: STACK_PREFILL_QUERY, size: sizes.prefill_query },
                Binding { buffer: STACK_PREFILL_NORM1, size: sizes.prefill_key_value },
                Binding { buffer: STACK_MROPE_UNIFORM, size: UNIFORM_BUFFER_BYTES },
            ],
        },
        BindGroupModel {
            label: "decoder-stack-session-prefill-kv-append-range-bind-group",
            pipeline: LAYOUT_APPEND,
            bindings: seq![
                Binding { buffer: STACK_PREFILL_NORM1, size: sizes.prefill_key_value },
                Binding { buffer: STACK_PREFILL_VALUE, size: sizes.prefill_key_value },
                Binding { buffer: STACK_KEY_CACHE, size: stack.cache_stride_bytes },
                Binding { buffer: STACK_VALUE_CACHE, size: stack.cache_stride_bytes },
                Binding { buffer: STACK_APPEND_UNIFORM, size: UNIFORM_BUFFER_BYTES },
            ],
        },
        BindGroupModel {
            label: "decoder-stack-session-prefill-gqa-bind-group",
            pipeline: LAYOUT_ATTENTION,
            bindings: seq![
                Binding { buffer: STACK_PREFILL_QUERY, size: sizes.prefill_query },
                Binding { buffer: STACK_KEY_CACHE, size: stack.cache_stride_bytes },
                Binding { buffer: STACK_VALUE_CACHE, size: stack.cache_stride_bytes },
                Binding { buffer: STACK_PREFILL_CONTEXT, size: sizes.prefill_query },
                Binding { buffer: STACK_ATTENTION_UNIFORM, size: UNIFORM_BUFFER_BYTES },
            ],
        },
        BindGroupModel {
            label: "decoder-stack-session-prefill-output-bind-group",
            pipeline: LAYOUT_PROJECTION,
            bindings: seq![
                Binding { buffer: STACK_PREFILL_CONTEXT, size: sizes.prefill_query },
                Binding { buffer: STACK_O_WEIGHT, size: resources.layer_weight_stride_bytes@[4] },
                Binding { buffer: STACK_PREFILL_ZERO_BIAS, size: PREFILL_ZERO_BIAS_BYTES },
                Binding { buffer: STACK_PREFILL_OUTPUT, size: sizes.prefill_hidden },
                Binding { buffer: STACK_GEMV_O_UNIFORM, size: UNIFORM_BUFFER_BYTES },
            ],
        },
        BindGroupModel {
            label: "decoder-stack-session-prefill-residual-bind-group",
            pipeline: LAYOUT_RESIDUAL,
            bindings: seq![
                Binding { buffer: STACK_PREFILL_HIDDEN_STORAGE, size: sizes.prefill_hidden },
                Binding { buffer: STACK_PREFILL_OUTPUT, size: sizes.prefill_hidden },
                Binding { buffer: STACK_PREFILL_NORM1, size: sizes.prefill_hidden },
                Binding { buffer: STACK_RESIDUAL_UNIFORM, size: UNIFORM_BUFFER_BYTES },
            ],
        },
        BindGroupModel {
            label: "decoder-stack-session-prefill-rms2-bind-group",
            pipeline: LAYOUT_RMS,
            bindings: seq![
                Binding { buffer: STACK_PREFILL_NORM1, size: sizes.prefill_hidden },
                Binding {
                    buffer: STACK_NORM2_WEIGHT,
                    size: resources.layer_weight_stride_bytes@[5],
                },
                Binding { buffer: STACK_PREFILL_NORM2, size: sizes.prefill_hidden },
                Binding { buffer: STACK_RMS2_UNIFORM, size: UNIFORM_BUFFER_BYTES },
            ],
        },
        BindGroupModel {
            label: "decoder-stack-session-prefill-gate-bind-group",
            pipeline: LAYOUT_PROJECTION,
            bindings: seq![
                Binding { buffer: STACK_PREFILL_NORM2, size: sizes.prefill_hidden },
                Binding {
                    buffer: STACK_GATE_WEIGHT,
                    size: resources.layer_weight_stride_bytes@[6],
                },
                Binding { buffer: STACK_PREFILL_ZERO_BIAS, size: PREFILL_ZERO_BIAS_BYTES },
                Binding { buffer: STACK_PREFILL_GATE, size: sizes.prefill_intermediate },
                Binding { buffer: STACK_GEMV_GATE_UNIFORM, size: UNIFORM_BUFFER_BYTES },
            ],
        },
        BindGroupModel {
            label: "decoder-stack-session-prefill-up-bind-group",
            pipeline: LAYOUT_PROJECTION,
            bindings: seq![
                Binding { buffer: STACK_PREFILL_NORM2, size: sizes.prefill_hidden },
                Binding { buffer: STACK_UP_WEIGHT, size: resources.layer_weight_stride_bytes@[7] },
                Binding { buffer: STACK_PREFILL_ZERO_BIAS, size: PREFILL_ZERO_BIAS_BYTES },
                Binding { buffer: STACK_PREFILL_UP, size: sizes.prefill_intermediate },
                Binding { buffer: STACK_GEMV_UP_UNIFORM, size: UNIFORM_BUFFER_BYTES },
            ],
        },
        BindGroupModel {
            label: "decoder-stack-session-prefill-swiglu-bind-group",
            pipeline: LAYOUT_SWIGLU,
            bindings: seq![
                Binding { buffer: STACK_PREFILL_GATE, size: sizes.prefill_intermediate },
                Binding { buffer: STACK_PREFILL_UP, size: sizes.prefill_intermediate },
                Binding { buffer: STACK_PREFILL_ACTIVATION, size: sizes.prefill_intermediate },
                Binding { buffer: STACK_SWIGLU_UNIFORM, size: UNIFORM_BUFFER_BYTES },
            ],
        },
        BindGroupModel {
            label: "decoder-stack-session-prefill-down-bind-group",
            pipeline: LAYOUT_PROJECTION,
            bindings: seq![
                Binding { buffer: STACK_PREFILL_ACTIVATION, size: sizes.prefill_intermediate },
                Binding {
                    buffer: STACK_DOWN_WEIGHT,
                    size: resources.layer_weight_stride_bytes@[8],
                },
                Binding { buffer: STACK_PREFILL_ZERO_BIAS, size: PREFILL_ZERO_BIAS_BYTES },
                Binding { buffer: STACK_PREFILL_OUTPUT, size: sizes.prefill_hidden },
                Binding { buffer: STACK_GEMV_DOWN_UNIFORM, size: UNIFORM_BUFFER_BYTES },
            ],
        },
        BindGroupModel {
            label: "decoder-stack-session-prefill-residual2-bind-group",
            pipeline: LAYOUT_RESIDUAL,
            bindings: seq![
                Binding { buffer: STACK_PREFILL_NORM1, size: sizes.prefill_hidden },
                Binding { buffer: STACK_PREFILL_OUTPUT, size: sizes.prefill_hidden },
                Binding { buffer: STACK_PREFILL_HIDDEN_STORAGE, size: sizes.prefill_hidden },
                Binding { buffer: STACK_RESIDUAL2_UNIFORM, size: UNIFORM_BUFFER_BYTES },
            ],
        },
    ]
}

/// The bind groups of a logits readout. Without a prefill, the group that would read its last
/// row is bound to the hidden rows of a step, and no pass uses it.
pub open spec fn logits_bind_groups(
    sizes: StackSizes,
    logits: LogitsSizes,
    prefill_capable: bool,
) -> Seq<BindGroupModel> {
    let prefill_input = if prefill_capable {
        STACK_PREFILL_HIDDEN_STORAGE
    } else {
        STACK_HIDDEN_PINGPONG
    };
    seq![
        BindGroupModel {
            label: "decoder-stack-session-prefill-logits-rms-bind-group",
            pipeline: LAYOUT_RMS,
            bindings: seq![
                Binding { buffer: prefill_input, size: sizes.hidden },
                Binding { buffer: STACK_FINAL_NORM_WEIGHT, size: logits.final_norm },
                Binding { buffer: STACK_NORMED_ROW, size: logits.normed_row },
                Binding { buffer: STACK_LOGITS_RMS_UNIFORM, size: UNIFORM_BUFFER_BYTES },
            ],
        },
        BindGroupModel {
            label: "decoder-stack-session-step-logits-rms-bind-group",
            pipeline: LAYOUT_RMS,
            bindings: seq![
                Binding { buffer: STACK_HIDDEN_PINGPONG, size: sizes.hidden },
                Binding { buffer: STACK_FINAL_NORM_WEIGHT, size: logits.final_norm },
                Binding { buffer: STACK_NORMED_ROW, size: logits.normed_row },
                Binding { buffer: STACK_LOGITS_RMS_UNIFORM, size: UNIFORM_BUFFER_BYTES },
            ],
        },
        BindGroupModel {
            label: "decoder-stack-session-gemv-logits-bind-group",
            pipeline: LAYOUT_GEMV,
            bindings: seq![
                Binding { buffer: STACK_LM_HEAD, size: logits.lm_head },
                Binding { buffer: STACK_NORMED_ROW, size: logits.normed_row },
                Binding { buffer: STACK_LOGITS, size: logits.logits },
                Binding { buffer: STACK_LOGITS_GEMV_UNIFORM, size: UNIFORM_BUFFER_BYTES },
            ],
        },
    ]
}

/// The bind group of a token selection.
pub open spec fn top1_bind_group(logits: LogitsSizes) -> BindGroupModel {
    BindGroupModel {
        label: "decoder-stack-session-top1-bind-group",
        pipeline: LAYOUT_TOP1,
        bindings: seq![
            Binding { buffer: STACK_LOGITS, size: logits.logits },
            Binding { buffer: STACK_TOP1_RESULT, size: TOP1_RESULT_BYTES },
        ],
    }
}

/// Plans the bind groups that every session has.
pub fn create_bind_groups(
    kv: &KvPlan,
    stack: &StackPlan,
    resources: &WeightResourcePlan,
    sizes: &StackSizes,
) -> (bind_groups: Vec<BindGroupPlan>)
    ensures
        crate::gpu::group_models(bind_groups@) == base_bind_groups(
            *kv,
            *stack,
            *resources,
            *sizes,
        ),
{
    let bind_groups: Vec<BindGroupPlan> = vec![
        BindGroupPlan {
            label: "decoder-stack-session-rms-bind-group",
            pipeline: LAYOUT_RMS,
            bindings: vec![
                Binding { buffer: STACK_HIDDEN_PINGPONG, size: sizes.hidden },
                Binding {
                    buffer: STACK_NORM1_WEIGHT,
                    size: resources.layer_weight_stride_bytes[0],
                },
                Binding { buffer: STACK_NORM1, size: sizes.hidden },
                Binding { buffer: STACK_RMS_UNIFORM, size: UNIFORM_BUFFER_BYTES },
            ],
        },
        BindGroupPlan {
            label: "decoder-stack-session-gemv-q-bind-group",
            pipeline: LAYOUT_GEMV,
            bindings: vec![
                Binding { buffer: STACK_Q_WEIGHT, size: resources.layer_weight_stride_bytes[1] },
                Binding { buffer: STACK_NORM1, size: sizes.hidden },
                Binding { buffer: STACK_Q_PROJECTION, size: sizes.query },
                Binding { buffer: STACK_GEMV_Q_UNIFORM, size: UNIFORM_BUFFER_BYTES },
            ],
        },
        BindGroupPlan {
            label: "decoder-stack-session-gemv-k-bind-group",
            pipeline: LAYOUT_GEMV,
            bindings: vec![
                Binding { buffer: STACK_K_WEIGHT, size: resources.layer_weight_stride_bytes[2] },
                Binding { buffer: STACK_NORM1, size: sizes.hidden },
                Binding { buffer: STACK_K_PROJECTION, size: sizes.key_value },
                Binding { buffer: STACK_GEMV_K_UNIFORM, size: UNIFORM_BUFFER_BYTES },
            ],
        },
        BindGroupPlan {
            label: "decoder-stack-session-gemv-v-bind-group",
            pipeline: LAYOUT_GEMV,
            bindings: vec![
                Binding { buffer: STACK_V_WEIGHT, size: resources.layer_weight_stride_bytes[3] },
                Binding { buffer: STACK_NORM1, size: sizes.hidden },
                Binding { buffer: STACK_V_PROJECTION, size: sizes.key_value },
                Binding { buffer: STACK_GEMV_V_UNIFORM, size: UNIFORM_BUFFER_BYTES },
            ],
        },
        BindGroupPlan {
            label: "decoder-stack-session-mrope-bind-group",
            pipeline: LAYOUT_MROPE,
            bindings: vec![
                Binding { buffer: STACK_Q_PROJECTION, size: sizes.query },
                Binding { buffer: STACK_K_PROJECTION, size: sizes.key_value },
                Binding { buffer: STACK_ROPE_COS, size: resources.rope_table_bytes },
                Binding { buffer: STACK_ROPE_SIN, size: resources.rope_table_bytes },
                Binding { buffer: STACK_MROPE_QUERY, size: sizes.query },
                Binding { buffer: STACK_MROPE_KEY, size: sizes.key_value },
                Binding { buffer: STACK_MROPE_UNIFORM, size: UNIFORM_BUFFER_BYTES },
            ],
        },
        BindGroupPlan {
            label: "decoder-stack-session-append-bind-group",
            pipeline: LAYOUT_APPEND,
            bindings: vec![
                Binding { buffer: STACK_MROPE_KEY, size: sizes.key_value },
                Binding { buffer: STACK_V_PROJECTION, size: sizes.key_value },
                Binding { buffer: STACK_KEY_CACHE, size: stack.cache_stride_bytes },
                Binding { buffer: STACK_VALUE_CACHE, size: stack.cache_stride_bytes },
                Binding { buffer: STACK_APPEND_UNIFORM, size: UNIFORM_BUFFER_BYTES },
            ],
        },
        BindGroupPlan {
            label: "decoder-stack-session-gemv-o-bind-group",
            pipeline: LAYOUT_GEMV,
            bindings: vec![
                Binding { buffer: STACK_O_WEIGHT, size: resources.layer_weight_stride_bytes[4] },
                Binding { buffer: STACK_ATTENTION_OUTPUT, size: kv.attention_bytes },
                Binding { buffer: STACK_O_PROJECTION, size: sizes.hidden },
                Binding { buffer: STACK_GEMV_O_UNIFORM, size: UNIFORM_BUFFER_BYTES },
            ],
        },
        BindGroupPlan {
            label: "decoder-stack-session-residual-bind-group",
            pipeline: LAYOUT_RESIDUAL,
            bindings: vec![
                Binding { buffer: STACK_HIDDEN_PINGPONG, size: sizes.hidden },
                Binding { buffer: STACK_O_PROJECTION, size: sizes.hidden },
                Binding { buffer: STACK_ATTENTION_RESIDUAL, size: sizes.hidden },
                Binding { buffer: STACK_RESIDUAL_UNIFORM, size: UNIFORM_BUFFER_BYTES },
            ],
        },
        BindGroupPlan {
            label: "decoder-stack-session-rms2-bind-group",
            pipeline: LAYOUT_RMS,
            bindings: vec![
                Binding { buffer: STACK_ATTENTION_RESIDUAL, size: sizes.hidden },
                Binding {
                    buffer: STACK_NORM2_WEIGHT,
                    size: resources.layer_weight_stride_bytes[5],
                },
                Binding { buffer: STACK_NORM2, size: sizes.hidden },
                Binding { buffer: STACK_RMS2_UNIFORM, size: UNIFORM_BUFFER_BYTES },
            ],
        },
        BindGroupPlan {
            label: "decoder-stack-session-gemv-gate-bind-group",
            pipeline: LAYOUT_GEMV,
            bindings: vec![
                Binding { buffer: STACK_GATE_WEIGHT, size: resources.layer_weight_stride_bytes[6] },
                Binding { buffer: STACK_NORM2, size: sizes.hidden },
                Binding { buffer: STACK_GATE, size: sizes.intermediate },
                Binding { buffer: STACK_GEMV_GATE_UNIFORM, size: UNIFORM_BUFFER_BYTES },
            ],
        },
        BindGroupPlan {
            label: "decoder-stack-session-gemv-up-bind-group",
            pipeline: LAYOUT_GEMV,
            bindings: vec![
                Binding { buffer: STACK_UP_WEIGHT, size: resources.layer_weight_stride_bytes[7] },
                Binding { buffer: STACK_NORM2, size: sizes.hidden },
                Binding { buffer: STACK_UP, size: sizes.intermediate },
                Binding { buffer: STACK_GEMV_UP_UNIFORM, size: UNIFORM_BUFFER_BYTES },
            ],
        },
        BindGroupPlan {
            label: "decoder-stack-session-swiglu-bind-group",
            pipeline: LAYOUT_SWIGLU,
            bindings: vec![
                Binding { buffer: STACK_GATE, size: sizes.intermediate },
                Binding { buffer: STACK_UP, size: sizes.intermediate },
                Binding { buffer: STACK_ACTIVATION, size: sizes.intermediate },
                Binding { buffer: STACK_SWIGLU_UNIFORM, size: UNIFORM_BUFFER_BYTES },
            ],
        },
        BindGroupPlan {
            label: "decoder-stack-session-gemv-down-bind-group",
            pipeline: LAYOUT_GEMV,
            bindings: vec![
                Binding { buffer: STACK_DOWN_WEIGHT, size: resources.layer_weight_stride_bytes[8] },
                Binding { buffer: STACK_ACTIVATION, size: sizes.intermediate },
                Binding { buffer: STACK_DOWN_PROJECTION, size: sizes.hidden },
                Binding { buffer: STACK_GEMV_DOWN_UNIFORM, size: UNIFORM_BUFFER_BYTES },
            ],
        },
        BindGroupPlan {
            label: "decoder-stack-session-residual2-bind-group",
            pipeline: LAYOUT_RESIDUAL,
            bindings: vec![
                Binding { buffer: STACK_ATTENTION_RESIDUAL, size: sizes.hidden },
                Binding { buffer: STACK_DOWN_PROJECTION, size: sizes.hidden },
                Binding { buffer: STACK_HIDDEN_PINGPONG, size: sizes.hidden },
                Binding { buffer: STACK_RESIDUAL2_UNIFORM, size: UNIFORM_BUFFER_BYTES },
            ],
        },
        BindGroupPlan {
            label: "decoder-stack-session-split-partial-bind-group",
            pipeline: LAYOUT_ATTENTION,
            bindings: vec![
                Binding { buffer: STACK_MROPE_QUERY, size: sizes.query },
                Binding { buffer: STACK_KEY_CACHE, size: stack.cache_stride_bytes },
                Binding { buffer: STACK_VALUE_CACHE, size: stack.cache_stride_bytes },
                Binding { buffer: STACK_SPLIT_PARTIALS, size: kv.split_partials_bytes },
                Binding { buffer: STACK_SPLIT_PARTIAL_UNIFORM, size: UNIFORM_BUFFER_BYTES },
            ],
        },
        BindGroupPlan {
            label: "decoder-stack-session-split-merge-bind-group",
            pipeline: LAYOUT_ATTENTION,
            bindings: vec![
                Binding { buffer: STACK_SPLIT_PARTIALS, size: kv.split_partials_bytes },
                Binding { buffer: STACK_KEY_CACHE, size: stack.cache_stride_bytes },
                Binding { buffer: STACK_VALUE_CACHE, size: stack.cache_stride_bytes },
                Binding { buffer: STACK_ATTENTION_OUTPUT, size: kv.attention_bytes },
                Binding { buffer: STACK_SPLIT_MERGE_UNIFORM, size: UNIFORM_BUFFER_BYTES },
            ],
        },
    ];
    assert(crate::gpu::group_models(bind_groups@) =~~= base_bind_groups(
        *kv,
        *stack,
        *resources,
        *sizes,
    ));
    bind_groups
}

/// Plans the bind groups of a prefill.
pub fn create_prefill_bind_groups(
    stack: &StackPlan,
    resources: &WeightResourcePlan,
    sizes: &StackSizes,
) -> (bind_groups: Vec<BindGroupPlan>)
    ensures
        crate::gpu::group_models(bind_groups@) == prefill_bind_groups(
            *stack,
            *resources,
            *sizes,
        ),
{
    let bind_groups: Vec<BindGroupPlan> = vec![
        BindGroupPlan {
            label: "decoder-stack-session-prefill-rms1-bind-group",
            pipeline: LAYOUT_RMS,
            bindings: vec![
                Binding { buffer: STACK_PREFILL_HIDDEN_STORAGE, size: sizes.prefill_hidden },
                Binding {
                    buffer: STACK_NORM1_WEIGHT,
                    size: resources.layer_weight_stride_bytes[0],
                },
                Binding { buffer: STACK_PREFILL_NORM1, size: sizes.prefill_hidden },
                Binding { buffer: STACK_RMS_UNIFORM, size: UNIFORM_BUFFER_BYTES },
            ],
        },
        BindGroupPlan {
            label: "decoder-stack-session-prefill-query-bind-group",
            pipeline: LAYOUT_PROJECTION,
            bindings: vec![
                Binding { buffer: STACK_PREFILL_NORM1, size: sizes.prefill_hidden },
                Binding { buffer: STACK_Q_WEIGHT, size: resources.layer_weight_stride_bytes[1] },
                Binding { buffer: STACK_PREFILL_ZERO_BIAS, size: PREFILL_ZERO_BIAS_BYTES },
                Binding { buffer: STACK_PREFILL_CONTEXT, size: sizes.prefill_query },
                Binding { buffer: STACK_GEMV_Q_UNIFORM, size: UNIFORM_BUFFER_BYTES },
            ],
        },
        BindGroupPlan {
            label: "decoder-stack-session-prefill-key-bind-group",
            pipeline: LAYOUT_PROJECTION,
            bindings: vec![
                Binding { buffer: STACK_PREFILL_NORM1, size: sizes.prefill_hidden },
                Binding { buffer: STACK_K_WEIGHT, size: resources.layer_weight_stride_bytes[2] },
                Binding { buffer: STACK_PREFILL_ZERO_BIAS, size: PREFILL_ZERO_BIAS_BYTES },
                Binding { buffer: STACK_PREFILL_KEY, size: sizes.prefill_key_value },
                Binding { buffer: STACK_GEMV_K_UNIFORM, size: UNIFORM_BUFFER_BYTES },
            ],
        },
        BindGroupPlan {
            label: "decoder-stack-session-prefill-value-bind-group",
            pipeline: LAYOUT_PROJECTION,
            bindings: vec![
                Binding { buffer: STACK_PREFILL_NORM1, size: sizes.prefill_hidden },
                Binding { buffer: STACK_V_WEIGHT, size: resources.layer_weight_stride_bytes[3] },
                Binding { buffer: STACK_PREFILL_ZERO_BIAS, size: PREFILL_ZERO_BIAS_BYTES },
                Binding { buffer: STACK_PREFILL_VALUE, size: sizes.prefill_key_value },
                Binding { buffer: STACK_GEMV_V_UNIFORM, size: UNIFORM_BUFFER_BYTES },
            ],
        },
        BindGroupPlan {
            label: "decoder-stack-session-prefill-mrope-bind-group",
            pipeline: LAYOUT_MROPE,
            bindings: vec![
                Binding { buffer: STACK_PREFILL_CONTEXT, size: sizes.prefill_query },
                Binding { buffer: STACK_PREFILL_KEY, size: sizes.prefill_key_value },
                Binding { buffer: STACK_ROPE_COS, size: resources.rope_table_bytes },
                Binding { buffer: STACK_ROPE_SIN, size: resources.rope_table_bytes },
                Binding { buffer: STACK_PREFILL_QUERY, size: sizes.prefill_query },
                Binding { buffer: STACK_PREFILL_NORM1, size: sizes.prefill_key_value },
                Binding { buffer: STACK_MROPE_UNIFORM, size: UNIFORM_BUFFER_BYTES },
            ],
        },
        BindGroupPlan {
            label: "decoder-stack-session-prefill-kv-append-range-bind-group",
            pipeline: LAYOUT_APPEND,
            bindings: vec![
                Binding { buffer: STACK_PREFILL_NORM1, size: sizes.prefill_key_value },
                Binding { buffer: STACK_PREFILL_VALUE, size: sizes.prefill_key_value },
                Binding { buffer: STACK_KEY_CACHE, size: stack.cache_stride_bytes },
                Binding { buffer: STACK_VALUE_CACHE, size: stack.cache_stride_bytes },
                Binding { buffer: STACK_APPEND_UNIFORM, size: UNIFORM_BUFFER_BYTES },
            ],
        },
        BindGroupPlan {
            label: "decoder-stack-session-prefill-gqa-bind-group",
            pipeline: LAYOUT_ATTENTION,
            bindings: vec![
                Binding { buffer: STACK_PREFILL_QUERY, size: sizes.prefill_query },
                Binding { buffer: STACK_KEY_CACHE, size: stack.cache_stride_bytes },
                Binding { buffer: STACK_VALUE_CACHE, size: stack.cache_stride_bytes },
                Binding { buffer: STACK_PREFILL_CONTEXT, size: sizes.prefill_query },
                Binding { buffer: STACK_ATTENTION_UNIFORM, size: UNIFORM_BUFFER_BYTES },
            ],
        },
        BindGroupPlan {
            label: "decoder-stack-session-prefill-output-bind-group",
            pipeline: LAYOUT_PROJECTION,
            bindings: vec![
                Binding { buffer: STACK_PREFILL_CONTEXT, size: sizes.prefill_query },
                Binding { buffer: STACK_O_WEIGHT, size: resources.layer_weight_stride_bytes[4] },
                Binding { buffer: STACK_PREFILL_ZERO_BIAS, size: PREFILL_ZERO_BIAS_BYTES },
                Binding { buffer: STACK_PREFILL_OUTPUT, size: sizes.prefill_hidden },
                Binding { buffer: STACK_GEMV_O_UNIFORM, size: UNIFORM_BUFFER_BYTES },
            ],
        },
        BindGroupPlan {
            label: "decoder-stack-session-prefill-residual-bind-group",
            pipeline: LAYOUT_RESIDUAL,
            bindings: vec![
                Binding { buffer: STACK_PREFILL_HIDDEN_STORAGE, size: sizes.prefill_hidden },
                Binding { buffer: STACK_PREFILL_OUTPUT, size: sizes.prefill_hidden },
                Binding { buffer: STACK_PREFILL_NORM1, size: sizes.prefill_hidden },
                Binding { buffer: STACK_RESIDUAL_UNIFORM, size: UNIFORM_BUFFER_BYTES },
            ],
        },
        BindGroupPlan {
            label: "decoder-stack-session-prefill-rms2-bind-group",
            pipeline: LAYOUT_RMS,
            bindings: vec![
                Binding { buffer: STACK_PREFILL_NORM1, size: sizes.prefill_hidden },
                Binding {
                    buffer: STACK_NORM2_WEIGHT,
                    size: resources.layer_weight_stride_bytes[5],
                },
                Binding { buffer: STACK_PREFILL_NORM2, size: sizes.prefill_hidden },
                Binding { buffer: STACK_RMS2_UNIFORM, size: UNIFORM_BUFFER_BYTES },
            ],
        },
        BindGroupPlan {
            label: "decoder-stack-session-prefill-gate-bind-group",
            pipeline: LAYOUT_PROJECTION,
            bindings: vec![
                Binding { buffer: STACK_PREFILL_NORM2, size: sizes.prefill_hidden },
                Binding { buffer: STACK_GATE_WEIGHT, size: resources.layer_weight_stride_bytes[6] },
                Binding { buffer: STACK_PREFILL_ZERO_BIAS, size: PREFILL_ZERO_BIAS_BYTES },
                Binding { buffer: STACK_PREFILL_GATE, size: sizes.prefill_intermediate },
                Binding { buffer: STACK_GEMV_GATE_UNIFORM, size: UNIFORM_BUFFER_BYTES },
            ],
        },
        BindGroupPlan {
            label: "decoder-stack-session-prefill-up-bind-group",
            pipeline: LAYOUT_PROJECTION,
            bindings: vec![
                Binding { buffer: STACK_PREFILL_NORM2, size: sizes.prefill_hidden },
                Binding { buffer: STACK_UP_WEIGHT, size: resources.layer_weight_stride_bytes[7] },
                Binding { buffer: STACK_PREFILL_ZERO_BIAS, size: PREFILL_ZERO_BIAS_BYTES },
                Binding { buffer: STACK_PREFILL_UP, size: sizes.prefill_intermediate },
                Binding { buffer: STACK_GEMV_UP_UNIFORM, size: UNIFORM_BUFFER_BYTES },
            ],
        },
        BindGroupPlan {
            label: "decoder-stack-session-prefill-swiglu-bind-group",
            pipeline: LAYOUT_SWIGLU,
            bindings: vec![
                Binding { buffer: STACK_PREFILL_GATE, size: sizes.prefill_intermediate },
                Binding { buffer: STACK_PREFILL_UP, size: sizes.prefill_intermediate },
                Binding { buffer: STACK_PREFILL_ACTIVATION, size: sizes.prefill_intermediate },
                Binding { buffer: STACK_SWIGLU_UNIFORM, size: UNIFORM_BUFFER_BYTES },
            ],
        },
        BindGroupPlan {
            label: "decoder-stack-session-prefill-down-bind-group",
            pipeline: LAYOUT_PROJECTION,
            bindings: vec![
                Binding { buffer: STACK_PREFILL_ACTIVATION, size: sizes.prefill_intermediate },
                Binding { buffer: STACK_DOWN_WEIGHT, size: resources.layer_weight_stride_bytes[8] },
                Binding { buffer: STACK_PREFILL_ZERO_BIAS, size: PREFILL_ZERO_BIAS_BYTES },
                Binding { buffer: STACK_PREFILL_OUTPUT, size: sizes.prefill_hidden },
                Binding { buffer: STACK_GEMV_DOWN_UNIFORM, size: UNIFORM_BUFFER_BYTES },
            ],
        },
        BindGroupPlan {
            label: "decoder-stack-session-prefill-residual2-bind-group",
            pipeline: LAYOUT_RESIDUAL,
            bindings: vec![
                Binding { buffer: STACK_PREFILL_NORM1, size: sizes.prefill_hidden },
                Binding { buffer: STACK_PREFILL_OUTPUT, size: sizes.prefill_hidden },
                Binding { buffer: STACK_PREFILL_HIDDEN_STORAGE, size: sizes.prefill_hidden },
                Binding { buffer: STACK_RESIDUAL2_UNIFORM, size: UNIFORM_BUFFER_BYTES },
            ],
        },
    ];
    assert(crate::gpu::group_models(bind_groups@) =~~= prefill_bind_groups(
        *stack,
        *resources,
        *sizes,
    ));
    bind_groups
}

/// Plans the bind groups of a logits readout.
pub fn create_logits_bind_groups(
    sizes: &StackSizes,
    logits: &LogitsSizes,
    prefill_capable: bool,
) -> (bind_groups: Vec<BindGroupPlan>)
    ensures
        crate::gpu::group_models(bind_groups@) == logits_bind_groups(
            *sizes,
            *logits,
            prefill_capable,
        ),
{
    let prefill_input: usize = if prefill_capable {
        STACK_PREFILL_HIDDEN_STORAGE
    } else {
        STACK_HIDDEN_PINGPONG
    };
    let bind_groups: Vec<BindGroupPlan> = vec![
        BindGroupPlan {
            label: "decoder-stack-session-prefill-logits-rms-bind-group",
            pipeline: LAYOUT_RMS,
            bindings: vec![
                Binding { buffer: prefill_input, size: sizes.hidden },
                Binding { buffer: STACK_FINAL_NORM_WEIGHT, size: logits.final_norm },
                Binding { buffer: STACK_NORMED_ROW, size: logits.normed_row },
                Binding { buffer: STACK_LOGITS_RMS_UNIFORM, size: UNIFORM_BUFFER_BYTES },
            ],
        },
        BindGroupPlan {
            label: "decoder-stack-session-step-logits-rms-bind-group",
            pipeline: LAYOUT_RMS,
            bindings: vec![
                Binding { buffer: STACK_HIDDEN_PINGPONG, size: sizes.hidden },
                Binding { buffer: STACK_FINAL_NORM_WEIGHT, size: logits.final_norm },
                Binding { buffer: STACK_NORMED_ROW, size: logits.normed_row },
                Binding { buffer: STACK_LOGITS_RMS_UNIFORM, size: UNIFORM_BUFFER_BYTES },
            ],
        },
        BindGroupPlan {
            label: "decoder-stack-session-gemv-logits-bind-group",
            pipeline: LAYOUT_GEMV,
            bindings: vec![
                Binding { buffer: STACK_LM_HEAD, size: logits.lm_head },
                Binding { buffer: STACK_NORMED_ROW, size: logits.normed_row },
                Binding { buffer: STACK_LOGITS, size: logits.logits },
                Binding { buffer: STACK_LOGITS_GEMV_UNIFORM, size: UNIFORM_BUFFER_BYTES },
            ],
        },
    ];
    assert(crate::gpu::group_models(bind_groups@) =~~= logits_bind_groups(
        *sizes,
        *logits,
        prefill_capable,
    ));
    bind_groups
}

/// The pipeline of a token selection.
pub open spec fn top1_pipeline(source: Seq<char>) -> PipelineModel {
    PipelineModel {
        place: PIPELINE_TOP1,
        kernel: "decoder_logits_top1_f32"@,
        layout: LAYOUT_TOP1,
        source,
    }
}

/// What a token selection adds to a session that reads logits.
pub struct Top1Resources<'a> {
    pub buffers: Vec<BufferPlan>,
    pub pipeline: PipelinePlan<'a>,
    pub bind_group: BindGroupPlan,
}

/// Plans what a token selection adds to a session: nothing where it is there already.
pub fn ensure_top1_resources<'a>(
    present: bool,
    lm_head: &Option<LmHeadPlan>,
    source: &'a str,
) -> (resources: Result<Option<Top1Resources<'a>>, String>)
    ensures
        match resources {
            Ok(None) => present,
            Ok(Some(added)) => !present && lm_head is Some && added.buffers@ == top1_buffers()
                && pipeline_model(added.pipeline) == top1_pipeline(source@)
                && crate::gpu::group_model(added.bind_group).label
                == "decoder-stack-session-top1-bind-group" && crate::gpu::group_model(
                added.bind_group,
            ).pipeline == LAYOUT_TOP1 && added.bind_group.bindings@ == seq![
                Binding { buffer: STACK_LOGITS, size: lm_head->Some_0.logits_bytes },
                Binding { buffer: STACK_TOP1_RESULT, size: TOP1_RESULT_BYTES },
            ],
            Err(message) => !present && lm_head is None && message@
                == "decoder stack session does not admit GPU top-1"@,
        },
{
    if present {
        return Ok(None);
    }
    match lm_head {
        None => Err("decoder stack session does not admit GPU top-1".to_owned()),
        Some(plan) => {
            let buffers: Vec<BufferPlan> = vec![
        buffer("decoder-stack-session-top1-result", TOP1_RESULT_BYTES, BufferUsage::StorageOutput),
        buffer("decoder-stack-session-top1-readback", TOP1_RESULT_BYTES, BufferUsage::Readback),
            ];
            assert(buffers@ =~= top1_buffers());
            let bindings: Vec<Binding> = vec![
                Binding { buffer: STACK_LOGITS, size: plan.logits_bytes },
                Binding { buffer: STACK_TOP1_RESULT, size: TOP1_RESULT_BYTES },
            ];
            assert(bindings@ =~= seq![
                Binding { buffer: STACK_LOGITS, size: plan.logits_bytes },
                Binding { buffer: STACK_TOP1_RESULT, size: TOP1_RESULT_BYTES },
            ]);
            Ok(
                Some(
                    Top1Resources {
                        buffers,
                        pipeline: pipeline(
                            PIPELINE_TOP1,
                            "decoder_logits_top1_f32",
                            LAYOUT_TOP1,
                            source,
                        ),
                        bind_group: BindGroupPlan {
                            label: "decoder-stack-session-top1-bind-group",
                            pipeline: LAYOUT_TOP1,
                            bindings,
                        },
                    },
                ),
            )
        },
    }
}

/// Which of the weights of a logits readout an earlier session left on the device, besides
/// those of the layers.
#[derive(Clone, Copy, Debug)]
pub struct ResidentWeights {
    pub final_norm: bool,
    pub lm_head: bool,
}

/// What is wrong with the weights of the logits readout of a session.
pub open spec fn logits_resources_complaint(
    resources: WeightResourcePlan,
    lm_head: Option<LmHeadPlan>,
    resident: Option<ResidentWeights>,
) -> Option<Seq<char>> {
    if lm_head is None {
        None
    } else if resources.final_norm_weight_bytes is None {
        Some("decoder stack logits final-norm resource range is missing"@)
    } else if resources.lm_head_weight_bytes is None {
        Some("decoder stack logits LM-head resource range is missing"@)
    } else {
        match resident {
            None => None,
            Some(weights) => if !weights.final_norm {
                Some("decoder resident weights are missing the final-norm buffer"@)
            } else if !weights.lm_head {
                Some("decoder resident weights are missing the LM-head buffer"@)
            } else {
                None
            },
        }
    }
}

fn require_logits_resources(
    resources: &WeightResourcePlan,
    lm_head: &Option<LmHeadPlan>,
    resident: &Option<ResidentWeights>,
) -> (outcome: Result<LogitsSizes, String>)
    ensures
        match outcome {
            Ok(sizes) => logits_resources_complaint(*resources, *lm_head, *resident) is None
                && sizes == logits_sizes(*resources, *lm_head),
            Err(message) => logits_resources_complaint(*resources, *lm_head, *resident) == Some(
                message@,
            ),
        },
{
    let plan: &LmHeadPlan = match lm_head {
        Some(plan) => plan,
        None => {
            return Ok(LogitsSizes { final_norm: 0, lm_head: 0, normed_row: 0, logits: 0 });
        },
    };
    let final_norm: u64 = match resources.final_norm_weight_bytes {
        Some(bytes) => bytes,
        None => {
            return Err("decoder stack logits final-norm resource range is missing".to_owned());
        },
    };
    let lm_head_bytes: u64 = match resources.lm_head_weight_bytes {
        Some(bytes) => bytes,
        None => {
            return Err("decoder stack logits LM-head resource range is missing".to_owned());
        },
    };
    if let Some(weights) = resident {
        if !weights.final_norm {
            return Err("decoder resident weights are missing the final-norm buffer".to_owned());
        }
        if !weights.lm_head {
            return Err("decoder resident weights are missing the LM-head buffer".to_owned());
        }
    }
    Ok(
        LogitsSizes {
            final_norm,
            lm_head: lm_head_bytes,
            normed_row: plan.normed_row_bytes,
            logits: plan.logits_bytes,
        },
    )
}

/// What a session allocates, and what it starts with.
pub struct StackCreation<'a> {
    pub sizes: StackSizes,
    pub logits: LogitsSizes,
    pub allocations: Vec<Allocation>,
    pub pipelines: Vec<PipelinePlan<'a>>,
    pub bind_groups: Vec<BindGroupPlan>,
    /// The tokens in the caches.
    pub cache_tokens: u32,
    /// The bytes of the weights that can stay on the device.
    pub resident_bytes: u64,
    /// The name under which the weights of this session can stay on the device.
    pub candidate: Option<String>,
}

/// What is wrong with creating a session.
pub open spec fn stack_creation_complaint(
    plans: StackPlans,
    resident: Option<ResidentWeights>,
) -> Option<Seq<char>> {
    match crate::stack_plan::stack_sizes_outcome(plans.kv, plans.stack) {
        Err(message) => Some(message),
        Ok(_) => if crate::stack_plan::resident_total(plans.resources) > u64::MAX {
            Some("decoder resident weight byte size overflowed"@)
        } else {
            logits_resources_complaint(plans.resources, plans.lm_head, resident)
        },
    }
}

/// The bind groups of a session, in the order of their creation.
pub open spec fn stack_bind_groups(
    plans: StackPlans,
    sizes: StackSizes,
    logits: LogitsSizes,
) -> Seq<
    BindGroupModel,
> {
    base_bind_groups(plans.kv, plans.stack, plans.resources, sizes) + (if plans.prefill_capable {
        prefill_bind_groups(plans.stack, plans.resources, sizes)
    } else {
        Seq::empty()
    }) + (if plans.lm_head is Some {
        logits_bind_groups(sizes, logits, plans.prefill_capable)
    } else {
        Seq::empty()
    })
}

/// The place of a bind group of a session, by the order of its creation.
pub open spec fn group_place(prefill_capable: bool, index: int) -> int {
    if index < GROUP_PREFILL_RMS1 || prefill_capable {
        index
    } else {
        index + (GROUP_PREFILL_LOGITS_RMS - GROUP_PREFILL_RMS1)
    }
}

/// The place of a bind group of a session, by the order of its creation: without a prefill,
/// the groups of a logits readout come right behind those that every session has.
pub fn bind_group_place(prefill_capable: bool, index: usize) -> (place: usize)
    requires
        index < GROUP_TOP1,
    ensures
        place == group_place(prefill_capable, index as int),
{
    if index < GROUP_PREFILL_RMS1 || prefill_capable {
        index
    } else {
        index + (GROUP_PREFILL_LOGITS_RMS - GROUP_PREFILL_RMS1)
    }
}

/// The tokens that are in the caches of a new session: none where a prefill is to fill them.
pub open spec fn first_cache_tokens(plans: StackPlans) -> u32 {
    if plans.prefill_capable {
        0
    } else {
        plans.kv.initial_cache_tokens
    }
}

/// Whether a plan is what a session allocates and starts with.
pub open spec fn creation_of(
    creation: StackCreation<'_>,
    plans: StackPlans,
    checkpoint: Option<Seq<u8>>,
    sources: StackSourcesModel,
    hit: bool,
) -> bool {
    let sizes = crate::stack_plan::stack_sizes_outcome(plans.kv, plans.stack)->Ok_0;
    let logits = logits_sizes(plans.resources, plans.lm_head);
    &&& creation.sizes == sizes
    &&& creation.logits == logits
    &&& creation.allocations@ == allocations_from(
        stack_buffers(plans.kv, plans.resources, sizes, logits),
        plans.lm_head,
        plans.prefill_capable,
        hit,
        0,
        Seq::empty(),
    )
    &&& pipeline_models(creation.pipelines@) == stack_pipelines(
        sources,
        plans.resources.storage,
        plans.prefill_capable,
    )
    &&& crate::gpu::group_models(creation.bind_groups@) == stack_bind_groups(
        plans,
        sizes,
        logits,
    )
    &&& creation.cache_tokens == first_cache_tokens(plans)
    &&& creation.resident_bytes == crate::stack_plan::resident_total(plans.resources)
    &&& crate::sources::option_text(creation.candidate) == (if hit {
        None::<Seq<char>>
    } else {
        crate::stack_plan::resident_key(checkpoint, plans.resources)
    })
}

fn all_bind_groups(plans: &StackPlans, sizes: &StackSizes, logits: &LogitsSizes) -> (bind_groups: Vec<
    BindGroupPlan,
>)
    ensures
        crate::gpu::group_models(bind_groups@) == stack_bind_groups(*plans, *sizes, *logits),
{
    let mut bind_groups: Vec<BindGroupPlan> = create_bind_groups(
        &plans.kv,
        &plans.stack,
        &plans.resources,
        sizes,
    );
    let ghost base = bind_groups@;
    let ghost mut of_prefill: Seq<BindGroupPlan> = Seq::empty();
    let ghost mut of_logits: Seq<BindGroupPlan> = Seq::empty();
    if plans.prefill_capable {
        let mut more: Vec<BindGroupPlan> = create_prefill_bind_groups(
            &plans.stack,
            &plans.resources,
            sizes,
        );
        proof {
            of_prefill = more@;
        }
        bind_groups.append(&mut more);
    }
    assert(bind_groups@ =~= base + of_prefill);
    if plans.lm_head.is_some() {
        let mut more: Vec<BindGroupPlan> = create_logits_bind_groups(
            sizes,
            logits,
            plans.prefill_capable,
        );
        proof {
            of_logits = more@;
        }
        bind_groups.append(&mut more);
    }
    assert(bind_groups@ =~= base + of_prefill + of_logits);
    assert(crate::gpu::group_models(bind_groups@) =~= crate::gpu::group_models(base)
        + crate::gpu::group_models(of_prefill) + crate::gpu::group_models(of_logits));
    assert(plans.prefill_capable || crate::gpu::group_models(of_prefill) =~= Seq::empty());
    assert(plans.lm_head is Some || crate::gpu::group_models(of_logits) =~= Seq::empty());
    bind_groups
}

/// Plans what a session allocates, and what it starts with. With weights left on the device
/// by an earlier session, their buffers are taken over.
pub fn create_stack_session<'a>(
    plans: &StackPlans,
    checkpoint_blake3: &Option<[u8; 32]>,
    sources: &'a StackShaderSources,
    resident: Option<ResidentWeights>,
) -> (creation: Result<StackCreation<'a>, String>)
    ensures
        match creation {
            Ok(found) => stack_creation_complaint(*plans, resident) is None && creation_of(
                found,
                *plans,
                crate::pack_descriptor::digest_option(*checkpoint_blake3),
                crate::stack_sources::stack_sources_model(*sources),
                resident is Some,
            ),
            Err(message) => stack_creation_complaint(*plans, resident) == Some(message@),
        },
{
    let sizes: StackSizes = stack_sizes(&plans.kv, &plans.stack)?;
    let resident_bytes: u64 = resident_weight_bytes(&plans.resources)?;
    let logits: LogitsSizes = require_logits_resources(
        &plans.resources,
        &plans.lm_head,
        &resident,
    )?;
    let hit: bool = resident.is_some();
    let allocations: Vec<Allocation> = allocate(plans, &sizes, &logits, hit);
    let pipelines: Vec<PipelinePlan<'a>> = create_pipelines(
        sources,
        plans.resources.storage,
        plans.prefill_capable,
    );
    let bind_groups: Vec<BindGroupPlan> = all_bind_groups(plans, &sizes, &logits);
    let cache_tokens: u32 = if plans.prefill_capable {
        0
    } else {
        plans.kv.initial_cache_tokens
    };
    let candidate: Option<String> = if hit {
        None
    } else {
        resident_weight_key(checkpoint_blake3, &plans.resources)
    };
    Ok(
        StackCreation {
            sizes,
            logits,
            allocations,
            pipelines,
            bind_groups,
            cache_tokens,
            resident_bytes,
            candidate,
        },
    )
}

} // verus!
