//! Laws of the stack session: what it asks of the device fits what it allocated.

use crate::family::{Family, WeightStorage};
use crate::gpu::{
    BindGroupModel, Binding, BufferPlan, BufferUsage, CommandModel, WriteModel,
};
use crate::kv::KvStepPlan;
use crate::lifecycle::Operation;
use crate::stack_encode::{LayerOffsets, Readout, StackBeginOperands};
use crate::stack_plan::{
    LmHeadPlan, PrefillPlan, StackPlans, StackSizes, StackStepPlan, WeightResourcePlan,
    PREFILL_ROW_BYTES, PREFILL_ZERO_BIAS_BYTES, TOP1_RESULT_BYTES,
};
use crate::stack_resources::{
    Allocation, BindingKind, LayoutEntry, LogitsSizes, GROUP_APPEND, GROUP_GEMV_DOWN,
    GROUP_GEMV_GATE, GROUP_GEMV_K, GROUP_GEMV_LOGITS, GROUP_GEMV_O, GROUP_GEMV_Q, GROUP_GEMV_UP,
    GROUP_GEMV_V, GROUP_MROPE, GROUP_PREFILL_DOWN, GROUP_PREFILL_GATE, GROUP_PREFILL_GQA,
    GROUP_PREFILL_KEY, GROUP_PREFILL_KV_APPEND_RANGE, GROUP_PREFILL_LOGITS_RMS,
    GROUP_PREFILL_MROPE, GROUP_PREFILL_OUTPUT, GROUP_PREFILL_QUERY, GROUP_PREFILL_RESIDUAL,
    GROUP_PREFILL_RESIDUAL2, GROUP_PREFILL_RMS1, GROUP_PREFILL_RMS2, GROUP_PREFILL_SWIGLU,
    GROUP_PREFILL_UP, GROUP_PREFILL_VALUE, GROUP_RESIDUAL, GROUP_RESIDUAL2, GROUP_RMS, GROUP_RMS2,
    GROUP_SPLIT_MERGE, GROUP_SPLIT_PARTIAL, GROUP_STEP_LOGITS_RMS, GROUP_SWIGLU, GROUP_TOP1,
    LAYOUT_APPEND, LAYOUT_ATTENTION, LAYOUT_GEMV, LAYOUT_MROPE, LAYOUT_PROJECTION, LAYOUT_RESIDUAL,
    LAYOUT_RMS, LAYOUT_SWIGLU, LAYOUT_TOP1, PIPELINE_APPEND, PIPELINE_APPEND_RANGE,
    PIPELINE_GEMV_TILED, PIPELINE_GEMV_TILED_F16, PIPELINE_MROPE, PIPELINE_PREFILL_GQA,
    PIPELINE_PREFILL_MROPE, PIPELINE_PROJECTION, PIPELINE_PROJECTION_F16, PIPELINE_RESIDUAL,
    PIPELINE_RMS_NORM, PIPELINE_RMS_NORM_F16, PIPELINE_SPLIT_MERGE, PIPELINE_SPLIT_PARTIAL,
    PIPELINE_SWIGLU, STACK_DOWN_WEIGHT, STACK_FINAL_NORM_WEIGHT, STACK_FINISH_KEY_READBACK,
    STACK_FINISH_VALUE_READBACK, STACK_HIDDEN_PINGPONG, STACK_KEY_CACHE,
    STACK_LM_HEAD, STACK_LOGITS, STACK_LOGITS_GEMV_UNIFORM, STACK_LOGITS_READBACK,
    STACK_LOGITS_RMS_UNIFORM, STACK_NORM1_WEIGHT, STACK_NORM2_WEIGHT, STACK_NORMED_ROW,
    STACK_O_WEIGHT, STACK_PREFILL_HIDDEN_STORAGE, STACK_PREFILL_ZERO_BIAS, STACK_ROPE_COS,
    STACK_ROPE_SIN, STACK_STACK_READBACK, STACK_TOP1_READBACK, STACK_TOP1_RESULT,
    STACK_VALUE_CACHE,
};
use vstd::prelude::*;

verus! {

/// The bind groups that a session can have, by their places.
pub open spec fn placed_groups(plans: StackPlans, sizes: StackSizes, logits: LogitsSizes) -> Seq<
    BindGroupModel,
> {
    crate::stack_resources::base_bind_groups(plans.kv, plans.stack, plans.resources, sizes)
        + crate::stack_resources::prefill_bind_groups(plans.stack, plans.resources, sizes)
        + crate::stack_resources::logits_bind_groups(sizes, logits, plans.prefill_capable) + seq![
        crate::stack_resources::top1_bind_group(logits),
    ]
}

/// The buffers that a session can have, by their places.
pub open spec fn placed_buffers(plans: StackPlans, sizes: StackSizes, logits: LogitsSizes) -> Seq<
    BufferPlan,
> {
    crate::stack_resources::stack_buffers(plans.kv, plans.resources, sizes, logits)
}

/// The layout of the bind groups of a pipeline.
pub open spec fn pipeline_layout(pipeline: usize) -> usize {
    if pipeline == PIPELINE_RMS_NORM || pipeline == PIPELINE_RMS_NORM_F16 {
        LAYOUT_RMS
    } else if pipeline == PIPELINE_GEMV_TILED || pipeline == PIPELINE_GEMV_TILED_F16 {
        LAYOUT_GEMV
    } else if pipeline == PIPELINE_MROPE || pipeline == PIPELINE_PREFILL_MROPE {
        LAYOUT_MROPE
    } else if pipeline == PIPELINE_APPEND || pipeline == PIPELINE_APPEND_RANGE {
        LAYOUT_APPEND
    } else if pipeline == PIPELINE_SPLIT_PARTIAL || pipeline == PIPELINE_SPLIT_MERGE || pipeline
        == PIPELINE_PREFILL_GQA {
        LAYOUT_ATTENTION
    } else if pipeline == PIPELINE_SWIGLU {
        LAYOUT_SWIGLU
    } else if pipeline == PIPELINE_RESIDUAL {
        LAYOUT_RESIDUAL
    } else if pipeline == PIPELINE_PROJECTION || pipeline == PIPELINE_PROJECTION_F16 {
        LAYOUT_PROJECTION
    } else {
        LAYOUT_TOP1
    }
}

/// The number of bindings before one that a pass moves.
pub open spec fn dynamic_before(entries: Seq<LayoutEntry>, place: int) -> nat
    decreases place,
{
    if place <= 0 {
        0
    } else {
        dynamic_before(entries, place - 1) + (if entries[place - 1].dynamic {
            1nat
        } else {
            0
        })
    }
}

/// Whether a binding that is moved by an offset lies inside a buffer of its kind.
pub open spec fn binding_fits(
    binding: Binding,
    kind: BindingKind,
    offset: int,
    buffers: Seq<BufferPlan>,
) -> bool {
    &&& binding.buffer < buffers.len()
    &&& offset + binding.size <= buffers[binding.buffer as int].size
    &&& buffers[binding.buffer as int].usage.bindable()
    &&& (kind == BindingKind::Uniform) == (buffers[binding.buffer as int].usage
        == BufferUsage::Uniform)
}

/// Whether a binding of a group, moved by the offsets of a pass, lies inside a buffer of its
/// kind.
pub open spec fn moved_binding_fits(
    group: BindGroupModel,
    offsets: Seq<u64>,
    buffers: Seq<BufferPlan>,
    place: int,
) -> bool {
    let entries = crate::stack_resources::layout_entries(group.pipeline);
    let offset = if entries[place].dynamic {
        offsets[dynamic_before(entries, place) as int] as int
    } else {
        0
    };
    binding_fits(group.bindings[place], entries[place].kind, offset, buffers)
}

/// Whether the bindings of a group, moved by the offsets of a pass, lie inside their buffers,
/// and the pass has one offset for each binding that it moves.
pub open spec fn bindings_fit(
    group: BindGroupModel,
    offsets: Seq<u64>,
    buffers: Seq<BufferPlan>,
) -> bool {
    let entries = crate::stack_resources::layout_entries(group.pipeline);
    &&& entries.len() == group.bindings.len()
    &&& offsets.len() == dynamic_before(entries, entries.len() as int)
    &&& forall|i: int|
        0 <= i < group.bindings.len() ==> #[trigger] moved_binding_fits(
            group,
            offsets,
            buffers,
            i,
        )
}

/// Whether a command stays inside the buffers that it uses, and a pass has a bind group of the
/// layout of its pipeline.
pub open spec fn command_fits(
    command: CommandModel,
    groups: Seq<BindGroupModel>,
    buffers: Seq<BufferPlan>,
) -> bool {
    match command {
        CommandModel::Pass { pipeline, bind_group, dispatch, offsets } => {
            &&& bind_group < groups.len()
            &&& groups[bind_group as int].pipeline == pipeline_layout(pipeline)
            &&& bindings_fit(groups[bind_group as int], offsets, buffers)
        },
        CommandModel::Copy { .. } => crate::gpu::copy_fits(command, buffers),
    }
}

/// Whether all commands stay inside the buffers that they use.
pub open spec fn commands_fit(
    commands: Seq<CommandModel>,
    groups: Seq<BindGroupModel>,
    buffers: Seq<BufferPlan>,
) -> bool {
    forall|i: int| 0 <= i < commands.len() ==> command_fits(#[trigger] commands[i], groups, buffers)
}

/// Whether all queue writes stay inside the buffers that they fill.
pub open spec fn writes_fit(writes: Seq<WriteModel>, buffers: Seq<BufferPlan>) -> bool {
    forall|i: int| 0 <= i < writes.len() ==> crate::gpu::write_fits(#[trigger] writes[i], buffers)
}

/// Whether the weights of a layer lie inside the buffer of the weights of all layers.
pub open spec fn weight_inside(resources: WeightResourcePlan, layer: int, index: int) -> bool {
    resources.layer_weight_offsets@[layer]@[index] + resources.layer_weight_stride_bytes@[index]
        <= resources.layer_weight_bulk_bytes@[index]
}

/// Whether the planner laid out the weights of all layers inside their buffers.
pub open spec fn well_placed(plans: StackPlans, sizes: StackSizes) -> bool {
    &&& crate::stack_plan::stack_sizes_outcome(plans.kv, plans.stack) == Ok::<
        StackSizes,
        Seq<char>,
    >(sizes)
    &&& 1 <= plans.stack.layers <= plans.resources.layer_weight_offsets.len()
    &&& forall|layer: int, index: int|
        0 <= layer < plans.stack.layers && 0 <= index < 9 ==> #[trigger] weight_inside(
            plans.resources,
            layer,
            index,
        )
}

/// Whether a prefill was planned for a session: the same layers and caches, the pinned row
/// width, and no more tokens than the caches hold.
pub open spec fn prefill_placed(plans: StackPlans, prefill: PrefillPlan) -> bool {
    &&& prefill.layers == plans.stack.layers
    &&& prefill.cache_stride_bytes == plans.stack.cache_stride_bytes
    &&& prefill.hidden_stride_bytes == plans.stack.hidden_stride_bytes
    &&& plans.stack.hidden_stride_bytes == PREFILL_ROW_BYTES
    &&& prefill.tokens <= plans.kv.cache_capacity
    &&& 1 <= plans.kv.cache_capacity
}

/// Whether the weights of a logits readout fill their buffers.
pub open spec fn logits_placed(plans: StackPlans) -> bool {
    &&& plans.lm_head is Some
    &&& plans.resources.final_norm_weight_bytes is Some
    &&& plans.resources.lm_head_weight_bytes is Some
    &&& plans.resources.final_norm_weight_range == Some(
        (0u64, plans.resources.final_norm_weight_bytes->Some_0),
    )
    &&& plans.resources.lm_head_weight_range == Some(
        (0u64, plans.resources.lm_head_weight_bytes->Some_0),
    )
}

proof fn lemma_rms_fits(group: BindGroupModel, buffers: Seq<BufferPlan>, first: u64, second: u64)
    requires
        group.pipeline == LAYOUT_RMS,
        group.bindings.len() == 4,
        binding_fits(group.bindings[0], BindingKind::ReadOnlyStorage, first as int, buffers),
        binding_fits(group.bindings[1], BindingKind::ReadOnlyStorage, second as int, buffers),
        binding_fits(group.bindings[2], BindingKind::Storage, 0, buffers),
        binding_fits(group.bindings[3], BindingKind::Uniform, 0, buffers),
    ensures
        bindings_fit(group, seq![first, second], buffers),
{
    reveal_with_fuel(dynamic_before, 5);
    let entries = crate::stack_resources::layout_entries(group.pipeline);
    assert(dynamic_before(entries, 0) == 0);
    assert(dynamic_before(entries, 1) == 1);
    assert(dynamic_before(entries, 2) == 2);
    assert(dynamic_before(entries, 3) == 2);
    assert(dynamic_before(entries, 4) == 2);
    let offsets: Seq<u64> = seq![first, second];
    assert forall|i: int| 0 <= i < group.bindings.len() implies #[trigger] moved_binding_fits(
        group,
        offsets,
        buffers,
        i,
    ) by {
        if i == 0 {
        } else if i == 1 {
        } else if i == 2 {
        } else {
            assert(i == 3);
        }
    }
}

proof fn lemma_gemv_fits(group: BindGroupModel, buffers: Seq<BufferPlan>, first: u64)
    requires
        group.pipeline == LAYOUT_GEMV,
        group.bindings.len() == 4,
        binding_fits(group.bindings[0], BindingKind::ReadOnlyStorage, first as int, buffers),
        binding_fits(group.bindings[1], BindingKind::ReadOnlyStorage, 0, buffers),
        binding_fits(group.bindings[2], BindingKind::Storage, 0, buffers),
        binding_fits(group.bindings[3], BindingKind::Uniform, 0, buffers),
    ensures
        bindings_fit(group, seq![first], buffers),
{
    reveal_with_fuel(dynamic_before, 5);
    let entries = crate::stack_resources::layout_entries(group.pipeline);
    assert(dynamic_before(entries, 0) == 0);
    assert(dynamic_before(entries, 1) == 1);
    assert(dynamic_before(entries, 2) == 1);
    assert(dynamic_before(entries, 3) == 1);
    assert(dynamic_before(entries, 4) == 1);
    let offsets: Seq<u64> = seq![first];
    assert forall|i: int| 0 <= i < group.bindings.len() implies #[trigger] moved_binding_fits(
        group,
        offsets,
        buffers,
        i,
    ) by {
        if i == 0 {
        } else if i == 1 {
        } else if i == 2 {
        } else {
            assert(i == 3);
        }
    }
}

proof fn lemma_mrope_fits(group: BindGroupModel, buffers: Seq<BufferPlan>)
    requires
        group.pipeline == LAYOUT_MROPE,
        group.bindings.len() == 7,
        binding_fits(group.bindings[0], BindingKind::ReadOnlyStorage, 0, buffers),
        binding_fits(group.bindings[1], BindingKind::ReadOnlyStorage, 0, buffers),
        binding_fits(group.bindings[2], BindingKind::ReadOnlyStorage, 0, buffers),
        binding_fits(group.bindings[3], BindingKind::ReadOnlyStorage, 0, buffers),
        binding_fits(group.bindings[4], BindingKind::Storage, 0, buffers),
        binding_fits(group.bindings[5], BindingKind::Storage, 0, buffers),
        binding_fits(group.bindings[6], BindingKind::Uniform, 0, buffers),
    ensures
        bindings_fit(group, Seq::empty(), buffers),
{
    reveal_with_fuel(dynamic_before, 8);
    let entries = crate::stack_resources::layout_entries(group.pipeline);
    assert(dynamic_before(entries, 0) == 0);
    assert(dynamic_before(entries, 1) == 0);
    assert(dynamic_before(entries, 2) == 0);
    assert(dynamic_before(entries, 3) == 0);
    assert(dynamic_before(entries, 4) == 0);
    assert(dynamic_before(entries, 5) == 0);
    assert(dynamic_before(entries, 6) == 0);
    assert(dynamic_before(entries, 7) == 0);
    let offsets: Seq<u64> = Seq::empty();
    assert forall|i: int| 0 <= i < group.bindings.len() implies #[trigger] moved_binding_fits(
        group,
        offsets,
        buffers,
        i,
    ) by {
        if i == 0 {
        } else if i == 1 {
        } else if i == 2 {
        } else if i == 3 {
        } else if i == 4 {
        } else if i == 5 {
        } else {
            assert(i == 6);
        }
    }
}

proof fn lemma_append_fits(group: BindGroupModel, buffers: Seq<BufferPlan>, first: u64, second: u64)
    requires
        group.pipeline == LAYOUT_APPEND,
        group.bindings.len() == 5,
        binding_fits(group.bindings[0], BindingKind::ReadOnlyStorage, 0, buffers),
        binding_fits(group.bindings[1], BindingKind::ReadOnlyStorage, 0, buffers),
        binding_fits(group.bindings[2], BindingKind::Storage, first as int, buffers),
        binding_fits(group.bindings[3], BindingKind::Storage, second as int, buffers),
        binding_fits(group.bindings[4], BindingKind::Uniform, 0, buffers),
    ensures
        bindings_fit(group, seq![first, second], buffers),
{
    reveal_with_fuel(dynamic_before, 6);
    let entries = crate::stack_resources::layout_entries(group.pipeline);
    assert(dynamic_before(entries, 0) == 0);
    assert(dynamic_before(entries, 1) == 0);
    assert(dynamic_before(entries, 2) == 0);
    assert(dynamic_before(entries, 3) == 1);
    assert(dynamic_before(entries, 4) == 2);
    assert(dynamic_before(entries, 5) == 2);
    let offsets: Seq<u64> = seq![first, second];
    assert forall|i: int| 0 <= i < group.bindings.len() implies #[trigger] moved_binding_fits(
        group,
        offsets,
        buffers,
        i,
    ) by {
        if i == 0 {
        } else if i == 1 {
        } else if i == 2 {
        } else if i == 3 {
        } else {
            assert(i == 4);
        }
    }
}

proof fn lemma_attention_fits(group: BindGroupModel, buffers: Seq<BufferPlan>, first: u64, second: u64)
    requires
        group.pipeline == LAYOUT_ATTENTION,
        group.bindings.len() == 5,
        binding_fits(group.bindings[0], BindingKind::ReadOnlyStorage, 0, buffers),
        binding_fits(group.bindings[1], BindingKind::ReadOnlyStorage, first as int, buffers),
        binding_fits(group.bindings[2], BindingKind::ReadOnlyStorage, second as int, buffers),
        binding_fits(group.bindings[3], BindingKind::Storage, 0, buffers),
        binding_fits(group.bindings[4], BindingKind::Uniform, 0, buffers),
    ensures
        bindings_fit(group, seq![first, second], buffers),
{
    reveal_with_fuel(dynamic_before, 6);
    let entries = crate::stack_resources::layout_entries(group.pipeline);
    assert(dynamic_before(entries, 0) == 0);
    assert(dynamic_before(entries, 1) == 0);
    assert(dynamic_before(entries, 2) == 1);
    assert(dynamic_before(entries, 3) == 2);
    assert(dynamic_before(entries, 4) == 2);
    assert(dynamic_before(entries, 5) == 2);
    let offsets: Seq<u64> = seq![first, second];
    assert forall|i: int| 0 <= i < group.bindings.len() implies #[trigger] moved_binding_fits(
        group,
        offsets,
        buffers,
        i,
    ) by {
        if i == 0 {
        } else if i == 1 {
        } else if i == 2 {
        } else if i == 3 {
        } else {
            assert(i == 4);
        }
    }
}

proof fn lemma_swiglu_fits(group: BindGroupModel, buffers: Seq<BufferPlan>)
    requires
        group.pipeline == LAYOUT_SWIGLU,
        group.bindings.len() == 4,
        binding_fits(group.bindings[0], BindingKind::ReadOnlyStorage, 0, buffers),
        binding_fits(group.bindings[1], BindingKind::ReadOnlyStorage, 0, buffers),
        binding_fits(group.bindings[2], BindingKind::Storage, 0, buffers),
        binding_fits(group.bindings[3], BindingKind::Uniform, 0, buffers),
    ensures
        bindings_fit(group, Seq::empty(), buffers),
{
    reveal_with_fuel(dynamic_before, 5);
    let entries = crate::stack_resources::layout_entries(group.pipeline);
    assert(dynamic_before(entries, 0) == 0);
    assert(dynamic_before(entries, 1) == 0);
    assert(dynamic_before(entries, 2) == 0);
    assert(dynamic_before(entries, 3) == 0);
    assert(dynamic_before(entries, 4) == 0);
    let offsets: Seq<u64> = Seq::empty();
    assert forall|i: int| 0 <= i < group.bindings.len() implies #[trigger] moved_binding_fits(
        group,
        offsets,
        buffers,
        i,
    ) by {
        if i == 0 {
        } else if i == 1 {
        } else if i == 2 {
        } else {
            assert(i == 3);
        }
    }
}

proof fn lemma_residual_fits(group: BindGroupModel, buffers: Seq<BufferPlan>, first: u64, second: u64)
    requires
        group.pipeline == LAYOUT_RESIDUAL,
        group.bindings.len() == 4,
        binding_fits(group.bindings[0], BindingKind::ReadOnlyStorage, first as int, buffers),
        binding_fits(group.bindings[1], BindingKind::ReadOnlyStorage, 0, buffers),
        binding_fits(group.bindings[2], BindingKind::Storage, second as int, buffers),
        binding_fits(group.bindings[3], BindingKind::Uniform, 0, buffers),
    ensures
        bindings_fit(group, seq![first, second], buffers),
{
    reveal_with_fuel(dynamic_before, 5);
    let entries = crate::stack_resources::layout_entries(group.pipeline);
    assert(dynamic_before(entries, 0) == 0);
    assert(dynamic_before(entries, 1) == 1);
    assert(dynamic_before(entries, 2) == 1);
    assert(dynamic_before(entries, 3) == 2);
    assert(dynamic_before(entries, 4) == 2);
    let offsets: Seq<u64> = seq![first, second];
    assert forall|i: int| 0 <= i < group.bindings.len() implies #[trigger] moved_binding_fits(
        group,
        offsets,
        buffers,
        i,
    ) by {
        if i == 0 {
        } else if i == 1 {
        } else if i == 2 {
        } else {
            assert(i == 3);
        }
    }
}

proof fn lemma_projection_fits(group: BindGroupModel, buffers: Seq<BufferPlan>, first: u64)
    requires
        group.pipeline == LAYOUT_PROJECTION,
        group.bindings.len() == 5,
        binding_fits(group.bindings[0], BindingKind::ReadOnlyStorage, 0, buffers),
        binding_fits(group.bindings[1], BindingKind::ReadOnlyStorage, first as int, buffers),
        binding_fits(group.bindings[2], BindingKind::ReadOnlyStorage, 0, buffers),
        binding_fits(group.bindings[3], BindingKind::Storage, 0, buffers),
        binding_fits(group.bindings[4], BindingKind::Uniform, 0, buffers),
    ensures
        bindings_fit(group, seq![first], buffers),
{
    reveal_with_fuel(dynamic_before, 6);
    let entries = crate::stack_resources::layout_entries(group.pipeline);
    assert(dynamic_before(entries, 0) == 0);
    assert(dynamic_before(entries, 1) == 0);
    assert(dynamic_before(entries, 2) == 1);
    assert(dynamic_before(entries, 3) == 1);
    assert(dynamic_before(entries, 4) == 1);
    assert(dynamic_before(entries, 5) == 1);
    let offsets: Seq<u64> = seq![first];
    assert forall|i: int| 0 <= i < group.bindings.len() implies #[trigger] moved_binding_fits(
        group,
        offsets,
        buffers,
        i,
    ) by {
        if i == 0 {
        } else if i == 1 {
        } else if i == 2 {
        } else if i == 3 {
        } else {
            assert(i == 4);
        }
    }
}

proof fn lemma_top1_fits(group: BindGroupModel, buffers: Seq<BufferPlan>)
    requires
        group.pipeline == LAYOUT_TOP1,
        group.bindings.len() == 2,
        binding_fits(group.bindings[0], BindingKind::ReadOnlyStorage, 0, buffers),
        binding_fits(group.bindings[1], BindingKind::Storage, 0, buffers),
    ensures
        bindings_fit(group, Seq::empty(), buffers),
{
    reveal_with_fuel(dynamic_before, 3);
    let entries = crate::stack_resources::layout_entries(group.pipeline);
    assert(dynamic_before(entries, 0) == 0);
    assert(dynamic_before(entries, 1) == 0);
    assert(dynamic_before(entries, 2) == 0);
    let offsets: Seq<u64> = Seq::empty();
    assert forall|i: int| 0 <= i < group.bindings.len() implies #[trigger] moved_binding_fits(
        group,
        offsets,
        buffers,
        i,
    ) by {
        if i == 0 {
        } else {
            assert(i == 1);
        }
    }
}

proof fn lemma_cache_inside(layers: int, stride: int, layer: int)
    requires
        0 <= layer < layers,
        0 <= stride,
    ensures
        0 <= stride * layer,
        stride * layer + stride <= layers * stride,
        stride <= layers * stride,
{
    assert(0 <= stride * layer && stride * layer + stride <= layers * stride && stride <= layers
        * stride) by (nonlinear_arith)
        requires
            0 <= layer < layers,
            0 <= stride,
    ;
}

/// Whether the rows, weights and caches of a layer start where they fit.
pub open spec fn offsets_inside(plans: StackPlans, sizes: StackSizes, offsets: LayerOffsets) -> bool {
    &&& offsets.pingpong_in + sizes.hidden <= sizes.pingpong
    &&& offsets.pingpong_out + sizes.hidden <= sizes.pingpong
    &&& offsets.cache + plans.stack.cache_stride_bytes <= sizes.cache
    &&& forall|index: int|
        0 <= index < 9 ==> (#[trigger] offsets.weights@[index])
            + plans.resources.layer_weight_stride_bytes@[index]
            <= plans.resources.layer_weight_bulk_bytes@[index]
}

/// The rows, weights and caches of every layer start where they fit.
pub proof fn law_layer_offsets_fit(plans: StackPlans, sizes: StackSizes, layer: int)
    requires
        well_placed(plans, sizes),
        0 <= layer < plans.stack.layers,
    ensures
        ({
            let outcome = crate::stack_encode::layer_offsets_outcome(
                plans.resources,
                plans.stack.hidden_stride_bytes,
                plans.stack.cache_stride_bytes,
                layer,
            );
            outcome is Ok && offsets_inside(plans, sizes, outcome->Ok_0)
        }),
{
    lemma_cache_inside(
        plans.stack.layers as int,
        plans.stack.cache_stride_bytes as int,
        layer,
    );
    let stride = plans.stack.hidden_stride_bytes as int;
    assert(stride * 0 == 0 && stride * 1 == stride);
    assert(layer % 2 == 0 && (layer + 1) % 2 == 1 || layer % 2 == 1 && (layer + 1) % 2 == 0);
    let offsets = crate::stack_encode::layer_offsets_outcome(
        plans.resources,
        plans.stack.hidden_stride_bytes,
        plans.stack.cache_stride_bytes,
        layer,
    )->Ok_0;
    assert forall|index: int| 0 <= index < 9 implies (#[trigger] offsets.weights@[index])
        + plans.resources.layer_weight_stride_bytes@[index]
        <= plans.resources.layer_weight_bulk_bytes@[index] by {
        assert(weight_inside(plans.resources, layer, index));
    }
}

#[verifier::rlimit(60)]
#[verifier::spinoff_prover]
proof fn lemma_step_layer_fits(
    plans: StackPlans,
    transition: KvStepPlan,
    sizes: StackSizes,
    logits: LogitsSizes,
    offsets: LayerOffsets,
)
    requires
        well_placed(plans, sizes),
        offsets_inside(plans, sizes, offsets),
    ensures
        commands_fit(
            crate::stack_encode::step_layer_commands(plans, transition, offsets),
            placed_groups(plans, sizes, logits),
            placed_buffers(plans, sizes, logits),
        ),
        crate::stack_encode::step_layer_commands(plans, transition, offsets).len() == 16,
{
    let commands = crate::stack_encode::step_layer_commands(plans, transition, offsets);
    let groups = placed_groups(plans, sizes, logits);
    let buffers = placed_buffers(plans, sizes, logits);
    let base = crate::stack_resources::base_bind_groups(
        plans.kv,
        plans.stack,
        plans.resources,
        sizes,
    );
    assert forall|i: int| 0 <= i < 16 implies groups[i] == base[i] by {}
    lemma_cache_inside(
        plans.stack.layers as int,
        plans.stack.cache_stride_bytes as int,
        0,
    );
    assert(command_fits(commands[0], groups, buffers)) by {
        lemma_rms_fits(groups[GROUP_RMS as int], buffers, offsets.pingpong_in, offsets.weights@[0]);
    }
    assert(command_fits(commands[1], groups, buffers)) by {
        lemma_gemv_fits(groups[GROUP_GEMV_Q as int], buffers, offsets.weights@[1]);
    }
    assert(command_fits(commands[2], groups, buffers)) by {
        lemma_gemv_fits(groups[GROUP_GEMV_K as int], buffers, offsets.weights@[2]);
    }
    assert(command_fits(commands[3], groups, buffers)) by {
        lemma_gemv_fits(groups[GROUP_GEMV_V as int], buffers, offsets.weights@[3]);
    }
    assert(command_fits(commands[4], groups, buffers)) by {
        lemma_mrope_fits(groups[GROUP_MROPE as int], buffers);
    }
    assert(command_fits(commands[5], groups, buffers)) by {
        lemma_append_fits(groups[GROUP_APPEND as int], buffers, offsets.cache, offsets.cache);
    }
    assert(command_fits(commands[6], groups, buffers)) by {
        lemma_attention_fits(
            groups[GROUP_SPLIT_PARTIAL as int],
            buffers,
            offsets.cache,
            offsets.cache,
        );
    }
    assert(command_fits(commands[7], groups, buffers)) by {
        lemma_attention_fits(
            groups[GROUP_SPLIT_MERGE as int],
            buffers,
            offsets.cache,
            offsets.cache,
        );
    }
    assert(command_fits(commands[8], groups, buffers)) by {
        lemma_gemv_fits(groups[GROUP_GEMV_O as int], buffers, offsets.weights@[4]);
    }
    assert(command_fits(commands[9], groups, buffers)) by {
        lemma_residual_fits(groups[GROUP_RESIDUAL as int], buffers, offsets.pingpong_in, 0u64);
    }
    assert(command_fits(commands[10], groups, buffers)) by {
        lemma_rms_fits(groups[GROUP_RMS2 as int], buffers, 0u64, offsets.weights@[5]);
    }
    assert(command_fits(commands[11], groups, buffers)) by {
        lemma_gemv_fits(groups[GROUP_GEMV_GATE as int], buffers, offsets.weights@[6]);
    }
    assert(command_fits(commands[12], groups, buffers)) by {
        lemma_gemv_fits(groups[GROUP_GEMV_UP as int], buffers, offsets.weights@[7]);
    }
    assert(command_fits(commands[13], groups, buffers)) by {
        lemma_swiglu_fits(groups[GROUP_SWIGLU as int], buffers);
    }
    assert(command_fits(commands[14], groups, buffers)) by {
        lemma_gemv_fits(groups[GROUP_GEMV_DOWN as int], buffers, offsets.weights@[8]);
    }
    assert(command_fits(commands[15], groups, buffers)) by {
        lemma_residual_fits(groups[GROUP_RESIDUAL2 as int], buffers, 0u64, offsets.pingpong_out);
    }
}

#[verifier::rlimit(60)]
#[verifier::spinoff_prover]
proof fn lemma_prefill_layer_fits(
    plans: StackPlans,
    prefill: PrefillPlan,
    sizes: StackSizes,
    logits: LogitsSizes,
    offsets: LayerOffsets,
)
    requires
        well_placed(plans, sizes),
        prefill_placed(plans, prefill),
        offsets_inside(plans, sizes, offsets),
    ensures
        commands_fit(
            crate::stack_encode::prefill_layer_commands(
                plans.resources.storage,
                prefill,
                offsets,
            ),
            placed_groups(plans, sizes, logits),
            placed_buffers(plans, sizes, logits),
        ),
        crate::stack_encode::prefill_layer_commands(
            plans.resources.storage,
            prefill,
            offsets,
        ).len() == 15,
{
    let commands = crate::stack_encode::prefill_layer_commands(
        plans.resources.storage,
        prefill,
        offsets,
    );
    let groups = placed_groups(plans, sizes, logits);
    let buffers = placed_buffers(plans, sizes, logits);
    let of_prefill = crate::stack_resources::prefill_bind_groups(
        plans.stack,
        plans.resources,
        sizes,
    );
    assert forall|i: int| 0 <= i < 15 implies groups[16 + i] == of_prefill[i] by {}
    assert(command_fits(commands[0], groups, buffers)) by {
        lemma_rms_fits(groups[GROUP_PREFILL_RMS1 as int], buffers, 0u64, offsets.weights@[0]);
    }
    assert(command_fits(commands[1], groups, buffers)) by {
        lemma_projection_fits(groups[GROUP_PREFILL_QUERY as int], buffers, offsets.weights@[1]);
    }
    assert(command_fits(commands[2], groups, buffers)) by {
        lemma_projection_fits(groups[GROUP_PREFILL_KEY as int], buffers, offsets.weights@[2]);
    }
    assert(command_fits(commands[3], groups, buffers)) by {
        lemma_projection_fits(groups[GROUP_PREFILL_VALUE as int], buffers, offsets.weights@[3]);
    }
    assert(command_fits(commands[4], groups, buffers)) by {
        lemma_mrope_fits(groups[GROUP_PREFILL_MROPE as int], buffers);
    }
    assert(command_fits(commands[5], groups, buffers)) by {
        lemma_append_fits(
            groups[GROUP_PREFILL_KV_APPEND_RANGE as int],
            buffers,
            offsets.cache,
            offsets.cache,
        );
    }
    assert(command_fits(commands[6], groups, buffers)) by {
        lemma_attention_fits(
            groups[GROUP_PREFILL_GQA as int],
            buffers,
            offsets.cache,
            offsets.cache,
        );
    }
    assert(command_fits(commands[7], groups, buffers)) by {
        lemma_projection_fits(groups[GROUP_PREFILL_OUTPUT as int], buffers, offsets.weights@[4]);
    }
    assert(command_fits(commands[8], groups, buffers)) by {
        lemma_residual_fits(groups[GROUP_PREFILL_RESIDUAL as int], buffers, 0u64, 0u64);
    }
    assert(command_fits(commands[9], groups, buffers)) by {
        lemma_rms_fits(groups[GROUP_PREFILL_RMS2 as int], buffers, 0u64, offsets.weights@[5]);
    }
    assert(command_fits(commands[10], groups, buffers)) by {
        lemma_projection_fits(groups[GROUP_PREFILL_GATE as int], buffers, offsets.weights@[6]);
    }
    assert(command_fits(commands[11], groups, buffers)) by {
        lemma_projection_fits(groups[GROUP_PREFILL_UP as int], buffers, offsets.weights@[7]);
    }
    assert(command_fits(commands[12], groups, buffers)) by {
        lemma_swiglu_fits(groups[GROUP_PREFILL_SWIGLU as int], buffers);
    }
    assert(command_fits(commands[13], groups, buffers)) by {
        lemma_projection_fits(groups[GROUP_PREFILL_DOWN as int], buffers, offsets.weights@[8]);
    }
    assert(command_fits(commands[14], groups, buffers)) by {
        lemma_residual_fits(groups[GROUP_PREFILL_RESIDUAL2 as int], buffers, 0u64, 0u64);
    }
}

proof fn lemma_step_from(
    plans: StackPlans,
    transition: KvStepPlan,
    sizes: StackSizes,
    logits: LogitsSizes,
    layer: int,
    made: Seq<CommandModel>,
)
    requires
        well_placed(plans, sizes),
        0 <= layer <= plans.stack.layers,
        made.len() == 16 * layer,
        only_passes(made),
        commands_fit(
            made,
            placed_groups(plans, sizes, logits),
            placed_buffers(plans, sizes, logits),
        ),
    ensures
        ({
            let outcome = crate::stack_encode::step_commands_from(
                plans,
                transition,
                layer,
                made,
            );
            &&& outcome is Ok
            &&& outcome->Ok_0.len() == 16 * plans.stack.layers
            &&& only_passes(outcome->Ok_0)
            &&& commands_fit(
                outcome->Ok_0,
                placed_groups(plans, sizes, logits),
                placed_buffers(plans, sizes, logits),
            )
        }),
    decreases plans.stack.layers - layer,
{
    if layer < plans.stack.layers {
        law_layer_offsets_fit(plans, sizes, layer);
        let offsets = crate::stack_encode::layer_offsets_outcome(
            plans.resources,
            plans.stack.hidden_stride_bytes,
            plans.stack.cache_stride_bytes,
            layer,
        )->Ok_0;
        lemma_step_layer_fits(plans, transition, sizes, logits, offsets);
        let added = crate::stack_encode::step_layer_commands(plans, transition, offsets);
        assert(only_passes(added));
        lemma_more_commands(
            made,
            added,
            placed_groups(plans, sizes, logits),
            placed_buffers(plans, sizes, logits),
        );
        lemma_step_from(plans, transition, sizes, logits, layer + 1, made + added);
    }
}

proof fn lemma_prefill_from(
    plans: StackPlans,
    prefill: PrefillPlan,
    sizes: StackSizes,
    logits: LogitsSizes,
    layer: int,
    made: Seq<CommandModel>,
)
    requires
        well_placed(plans, sizes),
        prefill_placed(plans, prefill),
        0 <= layer <= plans.stack.layers,
        made.len() == 15 * layer,
        only_passes(made),
        commands_fit(
            made,
            placed_groups(plans, sizes, logits),
            placed_buffers(plans, sizes, logits),
        ),
    ensures
        ({
            let outcome = crate::stack_encode::prefill_commands_from(
                plans.resources,
                prefill,
                layer,
                made,
            );
            &&& outcome is Ok
            &&& outcome->Ok_0.len() == 15 * plans.stack.layers
            &&& only_passes(outcome->Ok_0)
            &&& commands_fit(
                outcome->Ok_0,
                placed_groups(plans, sizes, logits),
                placed_buffers(plans, sizes, logits),
            )
        }),
    decreases plans.stack.layers - layer,
{
    if layer < plans.stack.layers {
        law_layer_offsets_fit(plans, sizes, layer);
        let offsets = crate::stack_encode::layer_offsets_outcome(
            plans.resources,
            plans.stack.hidden_stride_bytes,
            plans.stack.cache_stride_bytes,
            layer,
        )->Ok_0;
        lemma_prefill_layer_fits(plans, prefill, sizes, logits, offsets);
        let added = crate::stack_encode::prefill_layer_commands(
            plans.resources.storage,
            prefill,
            offsets,
        );
        assert(only_passes(added));
        lemma_more_commands(
            made,
            added,
            placed_groups(plans, sizes, logits),
            placed_buffers(plans, sizes, logits),
        );
        lemma_prefill_from(plans, prefill, sizes, logits, layer + 1, made + added);
    }
}

/// Whether commands are passes only.
pub open spec fn only_passes(commands: Seq<CommandModel>) -> bool {
    forall|i: int| 0 <= i < commands.len() ==> (#[trigger] commands[i]) is Pass
}

proof fn lemma_more_commands(
    made: Seq<CommandModel>,
    added: Seq<CommandModel>,
    groups: Seq<BindGroupModel>,
    buffers: Seq<BufferPlan>,
)
    requires
        only_passes(made),
        only_passes(added),
        commands_fit(made, groups, buffers),
        commands_fit(added, groups, buffers),
    ensures
        only_passes(made + added),
        commands_fit(made + added, groups, buffers),
{
    let all = made + added;
    assert forall|i: int| 0 <= i < all.len() implies (#[trigger] all[i]) is Pass && command_fits(
        all[i],
        groups,
        buffers,
    ) by {
        if i < made.len() {
            assert(all[i] == made[i]);
        } else {
            assert(all[i] == added[i - made.len()]);
        }
    }
}

/// A step can be planned, runs sixteen passes on every layer and one copy, and stays inside the
/// buffers of its session, for a hidden row of the planned size.
pub proof fn law_stack_step_fits(
    plans: StackPlans,
    sizes: StackSizes,
    transition: KvStepPlan,
    step: StackStepPlan,
    hidden_row: Seq<u8>,
)
    requires
        well_placed(plans, sizes),
        hidden_row.len() == plans.stack.hidden_stride_bytes,
    ensures
        ({
            let logits = crate::stack_resources::logits_sizes(plans.resources, plans.lm_head);
            let outcome = crate::stack_encode::stack_step_outcome(plans, transition);
            let writes = crate::stack_encode::stack_step_writes(transition, step, hidden_row);
            &&& outcome is Ok
            &&& outcome->Ok_0.len() == 16 * plans.stack.layers + 1
            &&& only_passes(outcome->Ok_0.drop_last())
            &&& outcome->Ok_0.last() is Copy
            &&& commands_fit(
                outcome->Ok_0,
                placed_groups(plans, sizes, logits),
                placed_buffers(plans, sizes, logits),
            )
            &&& writes.len() == 17
            &&& writes_fit(writes, placed_buffers(plans, sizes, logits))
        }),
{
    let logits = crate::stack_resources::logits_sizes(plans.resources, plans.lm_head);
    let groups = placed_groups(plans, sizes, logits);
    let buffers = placed_buffers(plans, sizes, logits);
    lemma_step_from(plans, transition, sizes, logits, 0, Seq::empty());
    let passes = crate::stack_encode::step_commands_from(
        plans,
        transition,
        0,
        Seq::empty(),
    )->Ok_0;
    let commands = crate::stack_encode::stack_step_outcome(plans, transition)->Ok_0;
    assert(commands.drop_last() =~= passes);
    assert(command_fits(commands.last(), groups, buffers));
    assert forall|i: int| 0 <= i < commands.len() implies command_fits(
        #[trigger] commands[i],
        groups,
        buffers,
    ) by {
        if i < passes.len() {
            assert(commands[i] == passes[i]);
        }
    }
    assert forall|words: [u32; 4]| #[trigger]
        crate::words::bytes_of_words32(words@).len() == 16 by {}
}

/// A prefill can be planned, runs fifteen passes on every layer and one copy, and stays inside
/// the buffers of its session, for hidden rows of the planned size.
pub proof fn law_stack_prefill_fits(
    plans: StackPlans,
    sizes: StackSizes,
    prefill: PrefillPlan,
    hidden_states: Seq<u8>,
)
    requires
        well_placed(plans, sizes),
        prefill_placed(plans, prefill),
        hidden_states.len() == prefill.tokens * PREFILL_ROW_BYTES,
    ensures
        ({
            let logits = crate::stack_resources::logits_sizes(plans.resources, plans.lm_head);
            let outcome = crate::stack_encode::stack_prefill_outcome(
                plans.resources,
                true,
                prefill,
            );
            let writes = crate::stack_encode::stack_prefill_writes(prefill, hidden_states);
            &&& outcome is Ok
            &&& outcome->Ok_0.len() == 15 * plans.stack.layers + 1
            &&& only_passes(outcome->Ok_0.drop_last())
            &&& outcome->Ok_0.last() is Copy
            &&& commands_fit(
                outcome->Ok_0,
                placed_groups(plans, sizes, logits),
                placed_buffers(plans, sizes, logits),
            )
            &&& writes.len() == 16
            &&& writes_fit(writes, placed_buffers(plans, sizes, logits))
        }),
{
    let logits = crate::stack_resources::logits_sizes(plans.resources, plans.lm_head);
    let groups = placed_groups(plans, sizes, logits);
    let buffers = placed_buffers(plans, sizes, logits);
    lemma_prefill_from(plans, prefill, sizes, logits, 0, Seq::empty());
    let passes = crate::stack_encode::prefill_commands_from(
        plans.resources,
        prefill,
        0,
        Seq::empty(),
    )->Ok_0;
    let commands = crate::stack_encode::stack_prefill_outcome(
        plans.resources,
        true,
        prefill,
    )->Ok_0;
    assert(commands.drop_last() =~= passes);
    assert(command_fits(commands.last(), groups, buffers));
    assert forall|i: int| 0 <= i < commands.len() implies command_fits(
        #[trigger] commands[i],
        groups,
        buffers,
    ) by {
        if i < passes.len() {
            assert(commands[i] == passes[i]);
        }
    }
    assert forall|words: [u32; 4]| #[trigger]
        crate::words::bytes_of_words32(words@).len() == 16 by {}
}

/// The copies of a finish stay inside the caches and the readbacks, and copy all of them.
pub proof fn law_stack_finish_fits(plans: StackPlans, sizes: StackSizes, logits: LogitsSizes)
    requires
        well_placed(plans, sizes),
    ensures
        ({
            let commands = crate::stack_encode::stack_finish_commands(sizes.cache);
            &&& commands_fit(
                commands,
                placed_groups(plans, sizes, logits),
                placed_buffers(plans, sizes, logits),
            )
            &&& crate::stack_resources::stack_finish_buffers(sizes)
                == placed_buffers(plans, sizes, logits).subrange(
                STACK_FINISH_KEY_READBACK as int,
                STACK_FINISH_VALUE_READBACK + 1,
            )
        }),
{
    let buffers = placed_buffers(plans, sizes, logits);
    assert(crate::stack_resources::stack_finish_buffers(sizes) =~= buffers.subrange(68, 70));
}

/// A readout of logits and a token selection stay inside the buffers of their session. Neither
/// touches a cache or writes anything but its own result, and a token selection brings back
/// its result alone.
pub proof fn law_stack_readouts_fit(
    plans: StackPlans,
    sizes: StackSizes,
    cache_tokens: u32,
    prefill_tokens: u32,
    top1: bool,
)
    requires
        well_placed(plans, sizes),
        logits_placed(plans),
        plans.prefill_capable ==> plans.stack.hidden_stride_bytes == PREFILL_ROW_BYTES && 1
            <= prefill_tokens <= plans.kv.cache_capacity,
        crate::stack_encode::readout_outcome(
            top1,
            true,
            plans.prefill_capable,
            cache_tokens,
            plans.kv.initial_cache_tokens,
            prefill_tokens,
        ) is Ok,
    ensures
        ({
            let logits = crate::stack_resources::logits_sizes(plans.resources, plans.lm_head);
            let readout = crate::stack_encode::readout_outcome(
                top1,
                true,
                plans.prefill_capable,
                cache_tokens,
                plans.kv.initial_cache_tokens,
                prefill_tokens,
            )->Ok_0;
            let outcome = if top1 {
                crate::stack_encode::top1_commands(plans.resources, plans.lm_head, readout)
            } else {
                crate::stack_encode::logits_commands(plans.resources, plans.lm_head, readout)
            };
            &&& outcome is Ok
            &&& commands_fit(
                outcome->Ok_0,
                placed_groups(plans, sizes, logits),
                placed_buffers(plans, sizes, logits),
            )
            &&& leaves_caches_alone(outcome->Ok_0, placed_groups(plans, sizes, logits))
            &&& writes_only_its_result(outcome->Ok_0, placed_groups(plans, sizes, logits))
            &&& only_passes(outcome->Ok_0.drop_last())
            &&& outcome->Ok_0.last() is Copy
            &&& outcome->Ok_0.last()->bytes == (if top1 {
                TOP1_RESULT_BYTES
            } else {
                logits.logits
            })
        }),
{
    let logits = crate::stack_resources::logits_sizes(plans.resources, plans.lm_head);
    let groups = placed_groups(plans, sizes, logits);
    let buffers = placed_buffers(plans, sizes, logits);
    let of_logits = crate::stack_resources::logits_bind_groups(
        sizes,
        logits,
        plans.prefill_capable,
    );
    assert(groups[GROUP_PREFILL_LOGITS_RMS as int] == of_logits[0]);
    assert(groups[GROUP_STEP_LOGITS_RMS as int] == of_logits[1]);
    assert(groups[GROUP_GEMV_LOGITS as int] == of_logits[2]);
    assert(groups[GROUP_TOP1 as int] == crate::stack_resources::top1_bind_group(logits));
    let readout = crate::stack_encode::readout_outcome(
        top1,
        true,
        plans.prefill_capable,
        cache_tokens,
        plans.kv.initial_cache_tokens,
        prefill_tokens,
    )->Ok_0;
    lemma_readout_row(plans, sizes, logits, readout, prefill_tokens);
    let group = if readout.from_prefill {
        GROUP_PREFILL_LOGITS_RMS
    } else {
        GROUP_STEP_LOGITS_RMS
    };
    lemma_rms_fits(groups[group as int], buffers, readout.row_offset, 0);
    lemma_gemv_fits(groups[GROUP_GEMV_LOGITS as int], buffers, 0);
    lemma_top1_fits(groups[GROUP_TOP1 as int], buffers);
    if top1 {
        let commands = crate::stack_encode::top1_commands(
            plans.resources,
            plans.lm_head,
            readout,
        )->Ok_0;
        assert(commands.len() == 4);
        assert(command_fits(commands[0], groups, buffers));
        assert(command_fits(commands[1], groups, buffers));
        assert(command_fits(commands[2], groups, buffers));
        assert(command_fits(commands[3], groups, buffers));
    } else {
        let commands = crate::stack_encode::logits_commands(
            plans.resources,
            plans.lm_head,
            readout,
        )->Ok_0;
        assert(commands.len() == 3);
        assert(command_fits(commands[0], groups, buffers));
        assert(command_fits(commands[1], groups, buffers));
        assert(command_fits(commands[2], groups, buffers));
    }
}

proof fn lemma_readout_row(
    plans: StackPlans,
    sizes: StackSizes,
    logits: LogitsSizes,
    readout: Readout,
    prefill_tokens: u32,
)
    requires
        well_placed(plans, sizes),
        readout.from_prefill ==> plans.prefill_capable && plans.stack.hidden_stride_bytes
            == PREFILL_ROW_BYTES && 1 <= prefill_tokens <= plans.kv.cache_capacity
            && readout.row_offset == (prefill_tokens - 1) * PREFILL_ROW_BYTES,
        !readout.from_prefill ==> readout.row_offset == 0,
    ensures
        binding_fits(
            crate::stack_resources::logits_bind_groups(
                sizes,
                logits,
                plans.prefill_capable,
            )[if readout.from_prefill {
                0int
            } else {
                1
            }].bindings[0],
            BindingKind::ReadOnlyStorage,
            readout.row_offset as int,
            placed_buffers(plans, sizes, logits),
        ),
{
    let buffers = placed_buffers(plans, sizes, logits);
    assert(buffers[STACK_HIDDEN_PINGPONG as int].size == sizes.pingpong);
    assert(buffers[STACK_PREFILL_HIDDEN_STORAGE as int].size == sizes.prefill_hidden);
}

/// Whether a place holds what a readout computes.
pub open spec fn readout_place(place: usize) -> bool {
    ||| place == STACK_NORMED_ROW
    ||| place == STACK_LOGITS
    ||| place == STACK_LOGITS_READBACK
    ||| place == STACK_TOP1_RESULT
    ||| place == STACK_TOP1_READBACK
}

/// Whether commands write nothing but what a readout computes, so that a second readout finds
/// what the first one found.
pub open spec fn writes_only_its_result(
    commands: Seq<CommandModel>,
    groups: Seq<BindGroupModel>,
) -> bool {
    forall|i: int|
        0 <= i < commands.len() ==> match #[trigger] commands[i] {
            CommandModel::Pass { pipeline, bind_group, dispatch, offsets } => {
                let group = groups[bind_group as int];
                forall|j: int|
                    0 <= j < group.bindings.len() && crate::stack_resources::layout_entries(
                        group.pipeline,
                    )[j].kind == BindingKind::Storage ==> readout_place(
                        (#[trigger] group.bindings[j]).buffer,
                    )
            },
            CommandModel::Copy {
                source,
                source_offset,
                destination,
                destination_offset,
                bytes,
            } => readout_place(destination),
        }
}

/// Whether a command neither moves bytes out of or into a cache nor binds one.
pub open spec fn leaves_caches_alone(
    commands: Seq<CommandModel>,
    groups: Seq<BindGroupModel>,
) -> bool {
    forall|i: int|
        0 <= i < commands.len() ==> match #[trigger] commands[i] {
            CommandModel::Pass { pipeline, bind_group, dispatch, offsets } => forall|j: int|
                0 <= j < groups[bind_group as int].bindings.len() ==> {
                    let bound = (#[trigger] groups[bind_group as int].bindings[j]).buffer;
                    bound != STACK_KEY_CACHE && bound != STACK_VALUE_CACHE
                },
            CommandModel::Copy {
                source,
                source_offset,
                destination,
                destination_offset,
                bytes,
            } => source != STACK_KEY_CACHE && source != STACK_VALUE_CACHE && destination
                != STACK_KEY_CACHE && destination != STACK_VALUE_CACHE,
        }
}

/// Each layer reads the row that the one before it wrote, and writes to the other one.
pub proof fn law_layers_chain(plans: StackPlans, sizes: StackSizes, layer: int)
    requires
        well_placed(plans, sizes),
        0 <= layer < plans.stack.layers - 1,
        plans.stack.hidden_stride_bytes > 0,
    ensures
        ({
            let offsets = |place: int|
                crate::stack_encode::layer_offsets_outcome(
                    plans.resources,
                    plans.stack.hidden_stride_bytes,
                    plans.stack.cache_stride_bytes,
                    place,
                )->Ok_0;
            &&& offsets(layer).pingpong_out == offsets(layer + 1).pingpong_in
            &&& offsets(layer).pingpong_in != offsets(layer).pingpong_out
            &&& offsets(layer).cache + plans.stack.cache_stride_bytes == offsets(layer + 1).cache
        }),
{
    law_layer_offsets_fit(plans, sizes, layer);
    law_layer_offsets_fit(plans, sizes, layer + 1);
    let stride = plans.stack.hidden_stride_bytes as int;
    assert(stride * 0 == 0 && stride * 1 == stride);
    assert(layer % 2 == 0 && (layer + 1) % 2 == 1 || layer % 2 == 1 && (layer + 1) % 2 == 0);
    let cache = plans.stack.cache_stride_bytes as int;
    lemma_cache_inside(plans.stack.layers as int, cache, layer);
    lemma_cache_inside(plans.stack.layers as int, cache, layer + 1);
    assert(cache * layer + cache == cache * (layer + 1)) by (nonlinear_arith);
}

/// In a stack with an even number of layers, the last layer writes the row that is read back.
pub proof fn law_last_layer_is_read_back(
    plans: StackPlans,
    sizes: StackSizes,
    transition: KvStepPlan,
)
    requires
        well_placed(plans, sizes),
        plans.stack.layers % 2 == 0,
    ensures
        ({
            let outcome = crate::stack_encode::stack_step_outcome(plans, transition);
            let last = crate::stack_encode::layer_offsets_outcome(
                plans.resources,
                plans.stack.hidden_stride_bytes,
                plans.stack.cache_stride_bytes,
                plans.stack.layers - 1,
            );
            &&& outcome is Ok
            &&& last is Ok
            &&& outcome->Ok_0.last() == crate::gpu::copy_model(
                STACK_HIDDEN_PINGPONG,
                last->Ok_0.pingpong_out,
                STACK_STACK_READBACK,
                0,
                plans.stack.hidden_stride_bytes,
            )
        }),
{
    let logits = crate::stack_resources::logits_sizes(plans.resources, plans.lm_head);
    lemma_step_from(plans, transition, sizes, logits, 0, Seq::empty());
    law_layer_offsets_fit(plans, sizes, plans.stack.layers - 1);
    assert(plans.stack.hidden_stride_bytes * 0 == 0);
}

/// No pass is given the same buffer twice, so none writes what it reads.
pub proof fn law_groups_do_not_alias(plans: StackPlans, sizes: StackSizes, logits: LogitsSizes)
    ensures
        forall|i: int|
            0 <= i < placed_groups(plans, sizes, logits).len() ==> crate::gpu::distinct_buffers(
                #[trigger] placed_groups(plans, sizes, logits)[i],
            ),
{
    let groups = placed_groups(plans, sizes, logits);
    let base = crate::stack_resources::base_bind_groups(
        plans.kv,
        plans.stack,
        plans.resources,
        sizes,
    );
    let of_prefill = crate::stack_resources::prefill_bind_groups(
        plans.stack,
        plans.resources,
        sizes,
    );
    let of_logits = crate::stack_resources::logits_bind_groups(
        sizes,
        logits,
        plans.prefill_capable,
    );
    assert forall|i: int| 0 <= i < groups.len() implies crate::gpu::distinct_buffers(#[trigger] groups[i]) by {
        if i < 16 {
            assert(groups[i] == base[i]);
            lemma_base_groups_distinct(plans, sizes, i);
        } else if i < 31 {
            assert(groups[i] == of_prefill[i - 16]);
            lemma_prefill_groups_distinct(plans, sizes, i - 16);
        } else if i < 34 {
            assert(groups[i] == of_logits[i - 31]);
        } else {
            assert(groups[i] == crate::stack_resources::top1_bind_group(logits));
        }
    }
}

proof fn lemma_base_groups_distinct(plans: StackPlans, sizes: StackSizes, index: int)
    requires
        0 <= index < 16,
    ensures
        crate::gpu::distinct_buffers(
            crate::stack_resources::base_bind_groups(
                plans.kv,
                plans.stack,
                plans.resources,
                sizes,
            )[index],
        ),
{
}

proof fn lemma_prefill_groups_distinct(plans: StackPlans, sizes: StackSizes, index: int)
    requires
        0 <= index < 15,
    ensures
        crate::gpu::distinct_buffers(
            crate::stack_resources::prefill_bind_groups(
                plans.stack,
                plans.resources,
                sizes,
            )[index],
        ),
{
}

/// Every pipeline of a session is created with the layout that its passes bind groups of.
pub proof fn law_pipelines_have_their_layouts(
    sources: crate::stack_sources::StackSourcesModel,
    storage: WeightStorage,
    prefill_capable: bool,
)
    ensures
        forall|i: int|
            #![
                trigger crate::stack_resources::stack_pipelines(
                    sources,
                    storage,
                    prefill_capable,
                )[i],
            ]
            0 <= i < crate::stack_resources::stack_pipelines(
                sources,
                storage,
                prefill_capable,
            ).len() ==> ({
                let pipeline = crate::stack_resources::stack_pipelines(
                    sources,
                    storage,
                    prefill_capable,
                )[i];
                pipeline.layout == pipeline_layout(pipeline.place)
            }),
{
}

/// Every bind group of a session is the one of its place.
pub proof fn law_groups_are_placed(plans: StackPlans, sizes: StackSizes, logits: LogitsSizes)
    ensures
        forall|i: int|
            #![trigger crate::stack_resources::stack_bind_groups(plans, sizes, logits)[i]]
            0 <= i < crate::stack_resources::stack_bind_groups(plans, sizes, logits).len() ==> (
            crate::stack_resources::stack_bind_groups(plans, sizes, logits)[i]
                == placed_groups(plans, sizes, logits)[crate::stack_resources::group_place(
                plans.prefill_capable,
                i,
            )]),
{
    let made = crate::stack_resources::stack_bind_groups(plans, sizes, logits);
    let groups = placed_groups(plans, sizes, logits);
    assert forall|i: int| #![trigger made[i]] 0 <= i < made.len() implies made[i]
        == groups[crate::stack_resources::group_place(plans.prefill_capable, i)] by {
        let base = crate::stack_resources::base_bind_groups(
            plans.kv,
            plans.stack,
            plans.resources,
            sizes,
        );
        let of_prefill = crate::stack_resources::prefill_bind_groups(
            plans.stack,
            plans.resources,
            sizes,
        );
        let of_logits = crate::stack_resources::logits_bind_groups(
            sizes,
            logits,
            plans.prefill_capable,
        );
        if i < 16 {
            assert(made[i] == base[i]);
            assert(groups[i] == base[i]);
        } else if plans.prefill_capable && i < 31 {
            assert(made[i] == of_prefill[i - 16]);
            assert(groups[i] == of_prefill[i - 16]);
        } else if plans.prefill_capable {
            assert(made[i] == of_logits[i - 31]);
            assert(groups[i] == of_logits[i - 31]);
        } else {
            assert(made[i] == of_logits[i - 16]);
            assert(groups[i + 15] == of_logits[i - 16]);
        }
    }
}

/// Whether the operands of a new session are as long as the buffers that they fill.
pub open spec fn operands_sized(
    operands: StackBeginOperands,
    plans: StackPlans,
    sizes: StackSizes,
) -> bool {
    &&& operands.upload_initial_cache ==> operands.key_cache_bytes.len() == sizes.cache
        && operands.value_cache_bytes.len() == sizes.cache
    &&& operands.rope_cos_bytes.len() == plans.resources.rope_table_bytes
    &&& operands.rope_sin_bytes.len() == plans.resources.rope_table_bytes
    &&& operands.layer_weights.len() == 9
    &&& forall|i: int|
        0 <= i < 9 ==> (#[trigger] operands.layer_weights@[i]).len()
            == plans.resources.layer_weight_bulk_bytes@[i]
    &&& plans.lm_head is Some ==> operands.final_norm_weight_bytes is Some
        && operands.lm_head_weight_bytes is Some && plans.resources.final_norm_weight_bytes
        == Some(operands.final_norm_weight_bytes->Some_0.len() as u64)
        && plans.resources.lm_head_weight_bytes == Some(
        operands.lm_head_weight_bytes->Some_0.len() as u64,
    )
    &&& plans.lm_head is None ==> operands.final_norm_weight_bytes is None
        && operands.lm_head_weight_bytes is None
}

/// The first queue writes of a session stay inside its buffers, and with weights that are on
/// the device already none of them writes a weight.
pub proof fn law_uploads_fit(
    operands: StackBeginOperands,
    plans: StackPlans,
    sizes: StackSizes,
    upload_weights: bool,
)
    requires
        operands_sized(operands, plans, sizes),
        operands.final_norm_weight_bytes matches Some(bytes) ==> bytes.len() <= u64::MAX,
        operands.lm_head_weight_bytes matches Some(bytes) ==> bytes.len() <= u64::MAX,
    ensures
        ({
            let logits = crate::stack_resources::logits_sizes(plans.resources, plans.lm_head);
            let writes = crate::stack_encode::stack_uploads(
                operands,
                plans.prefill_capable,
                upload_weights,
            );
            &&& writes_fit(writes, placed_buffers(plans, sizes, logits))
            &&& upload_weights || forall|i: int|
                0 <= i < writes.len() ==> !crate::stack_resources::weight_place(
                    (#[trigger] writes[i]).buffer as int,
                )
        }),
{
    let logits = crate::stack_resources::logits_sizes(plans.resources, plans.lm_head);
    let buffers = placed_buffers(plans, sizes, logits);
    let writes = crate::stack_encode::stack_uploads(
        operands,
        plans.prefill_capable,
        upload_weights,
    );
    let weights = crate::stack_encode::weight_writes(
        crate::weight_pack::contents(operands.layer_weights@),
    );
    assert(weights.len() == 9);
    assert(buffers[STACK_KEY_CACHE as int].size == sizes.cache);
    assert(buffers[STACK_VALUE_CACHE as int].size == sizes.cache);
    assert(buffers[STACK_ROPE_COS as int].size == plans.resources.rope_table_bytes);
    assert(buffers[STACK_ROPE_SIN as int].size == plans.resources.rope_table_bytes);
    assert(buffers[STACK_PREFILL_ZERO_BIAS as int].size == PREFILL_ZERO_BIAS_BYTES);
    assert(buffers[STACK_FINAL_NORM_WEIGHT as int].size == logits.final_norm);
    assert(buffers[STACK_LM_HEAD as int].size == logits.lm_head);
    assert forall|i: int| 0 <= i < 9 implies crate::gpu::write_fits(
        #[trigger] weights[i],
        buffers,
    ) by {
        assert(crate::weight_pack::contents(operands.layer_weights@)[i]
            == operands.layer_weights@[i]@);
        assert(buffers[crate::stack_encode::layer_weight_place(i) as int].size
            == plans.resources.layer_weight_bulk_bytes@[i]);
    }
    assert forall|i: int| 0 <= i < writes.len() implies crate::gpu::write_fits(
        #[trigger] writes[i],
        buffers,
    ) && (upload_weights || !crate::stack_resources::weight_place(writes[i].buffer as int)) by {
        let caches: int = if operands.upload_initial_cache {
            2
        } else {
            0
        };
        if upload_weights && caches + 2 <= i < caches + 11 {
            assert(writes[i] == weights[i - caches - 2]);
        }
    }
}

/// The number of buffers from one place on that a session has from its creation on.
spec fn created_from(place: int, prefill_capable: bool, logits_capable: bool) -> int {
    (if place < 47 {
        47 - place
    } else {
        0
    }) + (if !prefill_capable || place >= 59 {
        0
    } else if place < 47 {
        12
    } else {
        59 - place
    }) + (if !logits_capable || place >= 66 {
        0
    } else if place < 59 {
        7
    } else {
        66 - place
    })
}

proof fn lemma_allocations_are_counted(
    table: Seq<BufferPlan>,
    lm_head: Option<LmHeadPlan>,
    prefill_capable: bool,
    hit: bool,
    place: int,
    made: Seq<Allocation>,
)
    requires
        0 <= place,
    ensures
        crate::stack_resources::allocations_from(
            table,
            lm_head,
            prefill_capable,
            hit,
            place,
            made,
        ).len() == made.len() + created_from(place, prefill_capable, lm_head is Some),
    decreases 66 - place,
{
    if place < 66 {
        if crate::stack_resources::created_place(place, prefill_capable, lm_head is Some) {
            lemma_allocations_are_counted(
                table,
                lm_head,
                prefill_capable,
                hit,
                place + 1,
                made.push(crate::stack_resources::allocation(table, lm_head, hit, place)),
            );
        } else {
            lemma_allocations_are_counted(
                table,
                lm_head,
                prefill_capable,
                hit,
                place + 1,
                made,
            );
        }
    }
}

/// The counts that a new session reports are those of what it allocated and wrote. Its
/// pipelines are counted where the weights are in single precision.
pub proof fn law_creation_counts(
    plans: StackPlans,
    sizes: StackSizes,
    operands: StackBeginOperands,
    sources: crate::stack_sources::StackSourcesModel,
    hit: bool,
)
    requires
        operands_sized(operands, plans, sizes),
    ensures
        ({
            let logits = crate::stack_resources::logits_sizes(plans.resources, plans.lm_head);
            let counts = crate::stack_report::creation_counts(
                plans.prefill_capable,
                plans.lm_head is Some,
                hit,
                operands.upload_initial_cache,
            );
            &&& counts.buffers == crate::stack_resources::allocations_from(
                placed_buffers(plans, sizes, logits),
                plans.lm_head,
                plans.prefill_capable,
                hit,
                0,
                Seq::empty(),
            ).len()
            &&& counts.bind_groups == crate::stack_resources::stack_bind_groups(
                plans,
                sizes,
                logits,
            ).len()
            &&& counts.uploads == crate::stack_encode::stack_uploads(
                operands,
                plans.prefill_capable,
                !hit,
            ).len()
            &&& plans.resources.storage == WeightStorage::F32 ==> counts.pipelines
                == crate::stack_resources::stack_pipelines(
                sources,
                plans.resources.storage,
                plans.prefill_capable,
            ).len()
        }),
{
    let logits = crate::stack_resources::logits_sizes(plans.resources, plans.lm_head);
    lemma_allocations_are_counted(
        placed_buffers(plans, sizes, logits),
        plans.lm_head,
        plans.prefill_capable,
        hit,
        0,
        Seq::empty(),
    );
}

proof fn lemma_decimal_digit_tells(left: int, right: int)
    requires
        0 <= left < 10,
        0 <= right < 10,
        crate::stack_plan::decimal_digit(left) == crate::stack_plan::decimal_digit(right),
    ensures
        left == right,
{
}

proof fn lemma_decimal_tells(left: int, right: int)
    requires
        0 <= left,
        0 <= right,
        crate::stack_plan::decimal(left) == crate::stack_plan::decimal(right),
    ensures
        left == right,
    decreases left,
{
    let written = crate::stack_plan::decimal(left);
    if left < 10 && right < 10 {
        assert(written[0] == crate::stack_plan::decimal_digit(left));
        assert(crate::stack_plan::decimal(right)[0] == crate::stack_plan::decimal_digit(right));
        lemma_decimal_digit_tells(left, right);
    } else if left < 10 {
        lemma_decimal_is_written(right / 10);
        assert(crate::stack_plan::decimal(right).len() >= 2);
    } else if right < 10 {
        lemma_decimal_is_written(left / 10);
        assert(written.len() >= 2);
    } else {
        let head = crate::stack_plan::decimal(left / 10);
        let other = crate::stack_plan::decimal(right / 10);
        assert(written.drop_last() =~= head);
        assert(crate::stack_plan::decimal(right).drop_last() =~= other);
        assert(written.last() == crate::stack_plan::decimal_digit(left % 10));
        assert(crate::stack_plan::decimal(right).last() == crate::stack_plan::decimal_digit(
            right % 10,
        ));
        lemma_decimal_digit_tells(left % 10, right % 10);
        lemma_decimal_tells(left / 10, right / 10);
    }
}

proof fn lemma_decimal_is_written(number: int)
    requires
        0 <= number,
    ensures
        crate::stack_plan::decimal(number).len() >= 1,
    decreases number,
{
    if number >= 10 {
        lemma_decimal_is_written(number / 10);
    }
}

/// Two sessions name their weights alike only where the checkpoint, the storage and the bytes
/// are the same.
pub proof fn law_resident_key_tells_weights_apart(
    left_checkpoint: Seq<u8>,
    left: WeightResourcePlan,
    right_checkpoint: Seq<u8>,
    right: WeightResourcePlan,
)
    requires
        left_checkpoint.len() == 32,
        right_checkpoint.len() == 32,
        crate::stack_plan::resident_key(Some(left_checkpoint), left) is Some,
        crate::stack_plan::resident_key(Some(left_checkpoint), left)
            == crate::stack_plan::resident_key(Some(right_checkpoint), right),
    ensures
        left_checkpoint == right_checkpoint,
        left.storage == right.storage,
        crate::stack_plan::resident_total(left) == crate::stack_plan::resident_total(right),
{
    reveal_strlit(":");
    reveal_strlit("f32");
    reveal_strlit("f16");
    let key = crate::stack_plan::resident_key(Some(left_checkpoint), left)->Some_0;
    let other = crate::stack_plan::resident_key(Some(right_checkpoint), right)->Some_0;
    let left_digits = crate::stack_plan::decimal(crate::stack_plan::resident_total(left));
    let right_digits = crate::stack_plan::decimal(crate::stack_plan::resident_total(right));
    assert(key.subrange(0, 64) =~= crate::digest::hex_text(left_checkpoint));
    assert(other.subrange(0, 64) =~= crate::digest::hex_text(right_checkpoint));
    crate::pack::law_hex_digest_read_back(Family::Stack, left_checkpoint, Seq::empty());
    crate::pack::law_hex_digest_read_back(Family::Stack, right_checkpoint, Seq::empty());
    assert(key[66] == (if left.storage == WeightStorage::F32 {
        '3'
    } else {
        '1'
    }));
    assert(other[66] == (if right.storage == WeightStorage::F32 {
        '3'
    } else {
        '1'
    }));
    assert(key.len() == 69 + left_digits.len());
    assert(other.len() == 69 + right_digits.len());
    assert(key.subrange(69, key.len() as int) =~= left_digits);
    assert(other.subrange(69, other.len() as int) =~= right_digits);
    crate::stack_plan::lemma_sum_is_natural(left.layer_weight_bulk_bytes@, 0);
    crate::stack_plan::lemma_sum_is_natural(right.layer_weight_bulk_bytes@, 0);
    lemma_decimal_tells(
        crate::stack_plan::resident_total(left),
        crate::stack_plan::resident_total(right),
    );
}

/// Whether a place holds what stays as it was written when the session was created: a weight,
/// a rotary table, or the uniform words of a readout.
pub open spec fn settled_place(place: int) -> bool {
    ||| crate::stack_resources::weight_place(place)
    ||| place == STACK_ROPE_COS
    ||| place == STACK_ROPE_SIN
    ||| place == STACK_LOGITS_RMS_UNIFORM
    ||| place == STACK_LOGITS_GEMV_UNIFORM
}

/// What was settled when a session was created is never written again: neither by a step nor
/// by a prefill.
pub proof fn law_settled_buffers_stay(
    transition: KvStepPlan,
    step: StackStepPlan,
    hidden_row: Seq<u8>,
    prefill: PrefillPlan,
    hidden_states: Seq<u8>,
)
    ensures
        ({
            let writes = crate::stack_encode::stack_step_writes(transition, step, hidden_row);
            forall|i: int|
                0 <= i < writes.len() ==> !settled_place((#[trigger] writes[i]).buffer as int)
        }),
        ({
            let writes = crate::stack_encode::stack_prefill_writes(prefill, hidden_states);
            forall|i: int|
                0 <= i < writes.len() ==> !settled_place((#[trigger] writes[i]).buffer as int)
        }),
{
}

/// Whether an entry that no pass moves binds the whole of its buffer.
pub open spec fn static_entries_whole(group: BindGroupModel, buffers: Seq<BufferPlan>) -> bool {
    let entries = crate::stack_resources::layout_entries(group.pipeline);
    &&& group.bindings.len() == entries.len()
    &&& forall|j: int|
        0 <= j < entries.len() && !(#[trigger] entries[j]).dynamic ==> group.bindings[j].size
            == buffers[group.bindings[j].buffer as int].size
}

/// The bytes of the slice of a buffer that one layer uses.
pub open spec fn layer_slice(plans: StackPlans, buffer: usize) -> u64 {
    if STACK_NORM1_WEIGHT <= buffer <= STACK_O_WEIGHT {
        plans.resources.layer_weight_stride_bytes@[buffer - STACK_NORM1_WEIGHT]
    } else if STACK_NORM2_WEIGHT <= buffer <= STACK_DOWN_WEIGHT {
        plans.resources.layer_weight_stride_bytes@[buffer - STACK_NORM2_WEIGHT + 5]
    } else if buffer == STACK_KEY_CACHE || buffer == STACK_VALUE_CACHE {
        plans.stack.cache_stride_bytes
    } else {
        plans.stack.hidden_stride_bytes
    }
}

/// Whether an entry that passes move binds the slice of one layer.
pub open spec fn dynamic_entries_sliced(group: BindGroupModel, plans: StackPlans) -> bool {
    let entries = crate::stack_resources::layout_entries(group.pipeline);
    forall|j: int|
        0 <= j < entries.len() && (#[trigger] entries[j]).dynamic ==> group.bindings[j].size
            == layer_slice(plans, group.bindings[j].buffer)
}

proof fn lemma_base_entries(plans: StackPlans, sizes: StackSizes, logits: LogitsSizes, index: int)
    requires
        sizes.hidden == plans.stack.hidden_stride_bytes,
        0 <= index < 16,
    ensures
        static_entries_whole(
            placed_groups(plans, sizes, logits)[index],
            placed_buffers(plans, sizes, logits),
        ),
        dynamic_entries_sliced(placed_groups(plans, sizes, logits)[index], plans),
{
    let base = crate::stack_resources::base_bind_groups(
        plans.kv,
        plans.stack,
        plans.resources,
        sizes,
    );
    assert(placed_groups(plans, sizes, logits)[index] == base[index]);
}

/// The bind groups of a step bind one slice where passes move an entry, a hidden row, the
/// weights or the cache of one layer, and whole buffers everywhere else.
pub proof fn law_step_groups_bind_slices(plans: StackPlans, sizes: StackSizes, logits: LogitsSizes)
    requires
        sizes.hidden == plans.stack.hidden_stride_bytes,
    ensures
        forall|i: int|
            #![trigger placed_groups(plans, sizes, logits)[i]]
            0 <= i < GROUP_PREFILL_RMS1 ==> static_entries_whole(
                placed_groups(plans, sizes, logits)[i],
                placed_buffers(plans, sizes, logits),
            ) && dynamic_entries_sliced(placed_groups(plans, sizes, logits)[i], plans),
{
    assert forall|i: int| #![trigger placed_groups(plans, sizes, logits)[i]]
        0 <= i < GROUP_PREFILL_RMS1 implies static_entries_whole(
        placed_groups(plans, sizes, logits)[i],
        placed_buffers(plans, sizes, logits),
    ) && dynamic_entries_sliced(placed_groups(plans, sizes, logits)[i], plans) by {
        lemma_base_entries(plans, sizes, logits, i);
    }
}

/// The bind groups of a readout bind whole buffers where no pass moves an entry, and its norms
/// bind one hidden row of what they read.
pub proof fn law_readout_groups_bind_one_row(
    plans: StackPlans,
    sizes: StackSizes,
    logits: LogitsSizes,
)
    ensures
        forall|i: int|
            #![trigger placed_groups(plans, sizes, logits)[i]]
            GROUP_PREFILL_LOGITS_RMS <= i <= GROUP_TOP1 ==> static_entries_whole(
                placed_groups(plans, sizes, logits)[i],
                placed_buffers(plans, sizes, logits),
            ),
        forall|i: int|
            #![trigger placed_groups(plans, sizes, logits)[i]]
            GROUP_PREFILL_LOGITS_RMS <= i <= GROUP_STEP_LOGITS_RMS ==> placed_groups(
                plans,
                sizes,
                logits,
            )[i].bindings[0].size == sizes.hidden,
{
    let groups = placed_groups(plans, sizes, logits);
    let of_logits = crate::stack_resources::logits_bind_groups(
        sizes,
        logits,
        plans.prefill_capable,
    );
    assert(groups[31] == of_logits[0] && groups[32] == of_logits[1] && groups[33]
        == of_logits[2]);
    assert(groups[34] == crate::stack_resources::top1_bind_group(logits));
}

/// A readout is refused on a session that is not made for it, and on one whose caches have
/// taken no row since its begin. It is admitted once a step or a prefill has been.
pub proof fn law_readouts_need_a_row(
    top1: bool,
    prefill_capable: bool,
    cache_tokens: u32,
    initial_cache_tokens: u32,
    prefill_tokens: u32,
    transition_after: u32,
)
    requires
        cache_tokens < transition_after,
        initial_cache_tokens <= cache_tokens || prefill_capable,
        1 <= prefill_tokens,
    ensures
        crate::stack_encode::readout_outcome(
            top1,
            false,
            prefill_capable,
            cache_tokens,
            initial_cache_tokens,
            prefill_tokens,
        ) is Err,
        crate::stack_encode::readout_outcome(
            top1,
            true,
            prefill_capable,
            if prefill_capable {
                0
            } else {
                initial_cache_tokens
            },
            initial_cache_tokens,
            prefill_tokens,
        ) is Err,
        crate::stack_encode::readout_outcome(
            top1,
            true,
            prefill_capable,
            crate::stack_encode::tokens_after(
                Operation::Step,
                cache_tokens,
                transition_after,
                prefill_tokens,
            ),
            initial_cache_tokens,
            prefill_tokens,
        ) is Ok,
        crate::stack_encode::readout_outcome(
            top1,
            true,
            true,
            crate::stack_encode::tokens_after(
                Operation::Prefill,
                cache_tokens,
                transition_after,
                prefill_tokens,
            ),
            initial_cache_tokens,
            prefill_tokens,
        ) matches Ok(readout) && readout.from_prefill,
{
}

/// A readout leaves the position of its session alone, so the next one finds the same row, or is
/// refused in the same words.
pub proof fn law_repeated_readouts_agree(
    operation: Operation,
    top1: bool,
    logits_capable: bool,
    prefill_capable: bool,
    cache_tokens: u32,
    initial_cache_tokens: u32,
    prefill_tokens: u32,
    transition_after: u32,
)
    requires
        operation == Operation::Logits || operation == Operation::Top1,
    ensures
        ({
            let after = crate::stack_encode::tokens_after(
                operation,
                cache_tokens,
                transition_after,
                prefill_tokens,
            );
            &&& after == cache_tokens
            &&& crate::stack_encode::readout_outcome(
                top1,
                logits_capable,
                prefill_capable,
                after,
                initial_cache_tokens,
                prefill_tokens,
            ) == crate::stack_encode::readout_outcome(
                top1,
                logits_capable,
                prefill_capable,
                cache_tokens,
                initial_cache_tokens,
                prefill_tokens,
            )
        }),
{
}

} // verus!
