//! Laws of the capability checks: a session is admitted exactly where the device can hold and run
//! what it allocates.

use crate::family::Family;
use crate::gpu::{BindGroupModel, BufferPlan, BufferUsage};
use crate::kv::{KvPlan, KV_ATTENTION_READBACK, KV_FINISH_READBACK};
use crate::layer::{AttentionPlan, LayerSizes};
use crate::limits::DeviceLimits;
use crate::stack_limits::{StackRows, StackVerdicts};
use crate::stack_plan::{LmHeadPlan, StackPlan, StackPlans, StackSizes, WeightResourcePlan};
use crate::stack_resources::{
    LogitsSizes, STACK_FINAL_NORM_WEIGHT, STACK_LM_HEAD, STACK_LOGITS, STACK_NORM1_WEIGHT,
    STACK_NORM2_WEIGHT, STACK_NORMED_ROW, STACK_O_WEIGHT, STACK_PREFILL_HIDDEN_STORAGE,
    STACK_PREFILL_ZERO_BIAS, STACK_SPLIT_PARTIALS, STACK_VALUE_CACHE,
};
use vstd::prelude::*;

verus! {

/// Whether none of a number of verdicts is a complaint.
pub open spec fn all_silent(verdicts: Seq<Option<Seq<char>>>) -> bool {
    forall|i: int| 0 <= i < verdicts.len() ==> (#[trigger] verdicts[i]) is None
}

/// Whether all named sizes are within a limit.
pub open spec fn all_within(sizes: Seq<(Seq<char>, u64)>, limit: u64) -> bool {
    forall|i: int| 0 <= i < sizes.len() ==> (#[trigger] sizes[i]).1 <= limit
}

/// Whether a message is the complaint about the first of a number of items that fails.
pub open spec fn names_first(
    message: Seq<char>,
    fails: spec_fn(int) -> bool,
    words: spec_fn(int) -> Seq<char>,
    count: int,
) -> bool {
    exists|i: int|
        0 <= i < count && #[trigger] fails(i) && message == words(i) && forall|j: int|
            0 <= j < i ==> !#[trigger] fails(j)
}

/// Invocations are refused exactly where one exceeds the device; the complaint is that of the first
/// one that does.
pub proof fn law_first_excessive_dispatch_is_named(
    family: Family,
    verdicts: Seq<Option<Seq<char>>>,
    index: int,
)
    requires
        0 <= index <= verdicts.len(),
    ensures
        ({
            let complaint = crate::limits::dispatch_complaint_from(family, verdicts, index);
            &&& complaint is None <==> all_silent(verdicts.skip(index))
            &&& complaint matches Some(message) ==> names_first(
                message,
                |i: int| verdicts[index + i] is Some,
                |i: int|
                    crate::family::noun(family) + " session exceeds adapter dispatch limits: "@
                        + verdicts[index + i]->Some_0,
                verdicts.len() - index,
            )
        }),
    decreases verdicts.len() - index,
{
    let rest = verdicts.skip(index);
    let fails = |i: int| verdicts[index + i] is Some;
    if index < verdicts.len() {
        assert(rest[0] == verdicts[index]);
        if verdicts[index] is None {
            law_first_excessive_dispatch_is_named(family, verdicts, index + 1);
            let later = verdicts.skip(index + 1);
            assert forall|i: int| 0 <= i < later.len() implies later[i] == #[trigger] rest[i + 1] by {
            }
            if all_silent(later) {
                assert forall|i: int| 0 <= i < rest.len() implies (#[trigger] rest[i]) is None by {
                    if i > 0 {
                        assert(later[i - 1] is None);
                    }
                }
            } else {
                let later_fails = |i: int| verdicts[index + 1 + i] is Some;
                let first = choose|i: int|
                    0 <= i < later.len() && #[trigger] later_fails(i) && forall|j: int|
                        0 <= j < i ==> !#[trigger] later_fails(j);
                assert(rest[first + 1] is Some);
                assert(fails(first + 1));
                assert forall|j: int| 0 <= j < first + 1 implies !#[trigger] fails(j) by {
                    if j > 0 {
                        assert(!later_fails(j - 1));
                    }
                }
            }
        } else {
            assert(fails(0));
        }
    }
}

/// Bindings are refused exactly where one is above the limit; the complaint names the first one that
/// is.
pub proof fn law_first_oversize_binding_is_named(
    sizes: Seq<(Seq<char>, u64)>,
    limit: u64,
    index: int,
)
    requires
        0 <= index <= sizes.len(),
    ensures
        ({
            let complaint = crate::limits::binding_complaint_from(sizes, limit, index);
            &&& complaint is None <==> all_within(sizes.skip(index), limit)
            &&& complaint matches Some(message) ==> names_first(
                message,
                |i: int| sizes[index + i].1 > limit,
                |i: int|
                    sizes[index + i].0 + " exceeds the adapter storage buffer binding limit"@,
                sizes.len() - index,
            )
        }),
    decreases sizes.len() - index,
{
    let rest = sizes.skip(index);
    let fails = |i: int| sizes[index + i].1 > limit;
    if index < sizes.len() {
        assert(rest[0] == sizes[index]);
        if sizes[index].1 <= limit {
            law_first_oversize_binding_is_named(sizes, limit, index + 1);
            let later = sizes.skip(index + 1);
            assert forall|i: int| 0 <= i < later.len() implies later[i] == #[trigger] rest[i + 1] by {
            }
            if all_within(later, limit) {
                assert forall|i: int| 0 <= i < rest.len() implies (#[trigger] rest[i]).1
                    <= limit by {
                    if i > 0 {
                        assert(later[i - 1].1 <= limit);
                    }
                }
            } else {
                let later_fails = |i: int| sizes[index + 1 + i].1 > limit;
                let first = choose|i: int|
                    0 <= i < later.len() && #[trigger] later_fails(i) && forall|j: int|
                        0 <= j < i ==> !#[trigger] later_fails(j);
                assert(rest[first + 1].1 > limit);
                assert(fails(first + 1));
                assert forall|j: int| 0 <= j < first + 1 implies !#[trigger] fails(j) by {
                    if j > 0 {
                        assert(!later_fails(j - 1));
                    }
                }
            }
        } else {
            assert(fails(0));
        }
    }
}

proof fn lemma_led(lead: Seq<char>, verdicts: Seq<Option<Seq<char>>>, index: int)
    requires
        0 <= index <= verdicts.len(),
    ensures
        crate::stack_limits::led_complaint_from(lead, verdicts, index) is None <==> (forall|i: int|
            index <= i < verdicts.len() ==> (#[trigger] verdicts[i]) is None),
    decreases verdicts.len() - index,
{
    if index < verdicts.len() {
        lemma_led(lead, verdicts, index + 1);
    }
}

proof fn lemma_buffers(sizes: Seq<(Seq<char>, u64)>, limit: u64, index: int)
    requires
        0 <= index <= sizes.len(),
    ensures
        crate::stack_limits::buffer_complaint_from(sizes, limit, index) is None <==> (forall|i: int|
            index <= i < sizes.len() ==> (#[trigger] sizes[i]).1 <= limit),
    decreases sizes.len() - index,
{
    if index < sizes.len() {
        lemma_buffers(sizes, limit, index + 1);
    }
}

proof fn lemma_sizes(sizes: Seq<(Seq<char>, u64)>, limits: DeviceLimits, index: int)
    requires
        0 <= index <= sizes.len(),
    ensures
        crate::stack_limits::size_complaint_from(sizes, limits, index) is None <==> (forall|i: int|
            index <= i < sizes.len() ==> (#[trigger] sizes[i]).1
                <= limits.max_storage_buffer_binding_size && sizes[i].1 <= limits.max_buffer_size),
    decreases sizes.len() - index,
{
    if index < sizes.len() {
        lemma_sizes(sizes, limits, index + 1);
    }
}

/// Whether a bind group can be bound on a device: no more storage bindings than a shader stage may
/// have, and none of them larger than a binding may be. The last binding holds uniform words.
pub open spec fn group_admitted(group: BindGroupModel, limits: DeviceLimits) -> bool {
    let last = group.bindings.len() - 1;
    &&& last <= limits.max_storage_buffers_per_shader_stage
    &&& forall|j: int|
        0 <= j < last ==> (#[trigger] group.bindings[j]).size
            <= limits.max_storage_buffer_binding_size
}

/// Whether all bind groups can be bound on a device.
pub open spec fn groups_admitted(groups: Seq<BindGroupModel>, limits: DeviceLimits) -> bool {
    forall|i: int| 0 <= i < groups.len() ==> group_admitted(#[trigger] groups[i], limits)
}

/// A key/value cache session is admitted exactly where no invocation exceeds the device, its bind
/// groups can be bound and its readbacks are not too large.
pub proof fn law_kv_session_is_admitted_where_it_fits(
    limits: DeviceLimits,
    plan: KvPlan,
    verdicts: Seq<Option<Seq<char>>>,
)
    ensures
        crate::kv::kv_capabilities_complaint(limits, plan, verdicts) is None <==> {
            let buffers = crate::kv::kv_all_buffers(plan);
            &&& all_silent(verdicts)
            &&& plan.key_value_width * 4 <= u64::MAX
            &&& plan.cache_bytes * 2 <= u64::MAX
            &&& groups_admitted(crate::kv::kv_bind_groups(plan), limits)
            &&& buffers[KV_ATTENTION_READBACK as int].size <= limits.max_buffer_size
            &&& buffers[KV_FINISH_READBACK as int].size <= limits.max_buffer_size
        },
{
    law_first_excessive_dispatch_is_named(Family::Kv, verdicts, 0);
    assert(verdicts.skip(0) =~= verdicts);
    let row = plan.key_value_width * 4;
    let groups = crate::kv::kv_bind_groups(plan);
    if row <= u64::MAX {
        let sizes = seq![
            ("decoder session query"@, plan.attention_bytes),
            ("decoder session appended key/value row"@, row as u64),
            ("decoder session compact cache"@, plan.cache_bytes),
            ("decoder session attention output"@, plan.attention_bytes),
        ];
        law_first_oversize_binding_is_named(sizes, limits.max_storage_buffer_binding_size, 0);
        assert(sizes.skip(0) =~= sizes);
        if groups_admitted(groups, limits) {
            assert(group_admitted(groups[0], limits));
            assert(group_admitted(groups[1], limits));
            assert(groups[0].bindings[0].size == row);
            assert(groups[0].bindings[2].size == plan.cache_bytes);
            assert(groups[1].bindings[0].size == plan.attention_bytes);
            assert(all_within(sizes, limits.max_storage_buffer_binding_size));
        } else if limits.max_storage_buffers_per_shader_stage >= 4 {
            if all_within(sizes, limits.max_storage_buffer_binding_size) {
                assert(sizes[0].1 == plan.attention_bytes);
                assert(sizes[1].1 == row);
                assert(sizes[2].1 == plan.cache_bytes);
                assert(groups_admitted(groups, limits));
            }
        } else {
            assert(groups[0].bindings.len() == 5);
        }
    }
}

/// An attention-block session is admitted exactly where no invocation exceeds the device, its bind
/// groups can be bound, and neither its query weight nor its caches are too large.
pub proof fn law_layer_session_is_admitted_where_it_fits(
    limits: DeviceLimits,
    kv_plan: KvPlan,
    plan: AttentionPlan,
    verdicts: Seq<Option<Seq<char>>>,
)
    requires
        crate::layer::layer_sizes_outcome(plan) is Ok,
    ensures
        crate::layer::layer_capabilities_complaint(limits, kv_plan, plan, verdicts) is None <==> {
            let sizes = crate::layer::layer_sizes_outcome(plan)->Ok_0;
            &&& all_silent(verdicts)
            &&& groups_admitted(crate::layer::layer_bind_groups(kv_plan, sizes), limits)
            &&& sizes.q_weight <= limits.max_buffer_size
            &&& kv_plan.cache_bytes <= limits.max_buffer_size
        },
{
    law_first_excessive_dispatch_is_named(Family::Layer, verdicts, 0);
    assert(verdicts.skip(0) =~= verdicts);
    let sizes = crate::layer::layer_sizes_outcome(plan)->Ok_0;
    let groups = crate::layer::layer_bind_groups(kv_plan, sizes);
    assert(plan.query_width * plan.hidden_size == plan.hidden_size * plan.query_width)
        by (nonlinear_arith);
    assert(sizes.o_weight == sizes.q_weight);
    let named = seq![
        ("decoder layer query weight"@, sizes.q_weight),
        ("decoder layer key weight"@, sizes.key_value_weight),
        ("decoder layer rope table"@, sizes.rope),
        ("decoder layer compact cache"@, kv_plan.cache_bytes),
        ("decoder layer attention output"@, kv_plan.attention_bytes),
        ("decoder layer hidden row"@, sizes.hidden),
        ("decoder layer query row"@, sizes.query),
        ("decoder layer key/value row"@, sizes.key_value),
    ];
    let limit = limits.max_storage_buffer_binding_size;
    law_first_oversize_binding_is_named(named, limit, 0);
    assert(named.skip(0) =~= named);
    if groups_admitted(groups, limits) {
        assert(group_admitted(groups[1], limits));
        assert(group_admitted(groups[2], limits));
        assert(group_admitted(groups[4], limits));
        assert(group_admitted(groups[5], limits));
        assert(group_admitted(groups[6], limits));
        assert(groups[1].bindings[0].size == sizes.q_weight);
        assert(groups[1].bindings[1].size == sizes.hidden);
        assert(groups[2].bindings[0].size == sizes.key_value_weight);
        assert(groups[4].bindings[0].size == sizes.query);
        assert(groups[4].bindings[1].size == sizes.key_value);
        assert(groups[4].bindings[2].size == sizes.rope);
        assert(groups[5].bindings[2].size == kv_plan.cache_bytes);
        assert(groups[6].bindings[3].size == kv_plan.attention_bytes);
        assert(all_within(named, limit));
    } else if limits.max_storage_buffers_per_shader_stage >= 6 {
        if all_within(named, limit) {
            assert(named[0].1 == sizes.q_weight);
            assert(named[1].1 == sizes.key_value_weight);
            assert(named[2].1 == sizes.rope);
            assert(named[3].1 == kv_plan.cache_bytes);
            assert(named[4].1 == kv_plan.attention_bytes);
            assert(named[5].1 == sizes.hidden);
            assert(named[6].1 == sizes.query);
            assert(named[7].1 == sizes.key_value);
            assert forall|i: int| 0 <= i < groups.len() implies group_admitted(
                #[trigger] groups[i],
                limits,
            ) by {
                if i == 0 {
                } else if i == 1 {
                } else if i == 2 {
                } else if i == 3 {
                } else if i == 4 {
                } else if i == 5 {
                } else if i == 6 {
                } else if i == 7 {
                } else {
                    assert(i == 8);
                }
            }
        }
    } else {
        assert(groups[4].bindings.len() == 7);
    }
}

/// Whether a buffer can be created on a device and bound whole.
pub open spec fn buffer_admitted(buffer: BufferPlan, limits: DeviceLimits) -> bool {
    &&& buffer.size <= limits.max_storage_buffer_binding_size
    &&& buffer.size <= limits.max_buffer_size
}

/// Whether all buffers of a range of places can be created on a device and bound whole.
pub open spec fn buffers_admitted(
    buffers: Seq<BufferPlan>,
    first: usize,
    last: usize,
    limits: DeviceLimits,
) -> bool {
    forall|i: int| first <= i <= last ==> buffer_admitted(#[trigger] buffers[i], limits)
}

/// What a step binds, and whether it is within a limit.
spec fn step_bindings_within(plans: StackPlans, sizes: StackSizes, limit: u64) -> bool {
    &&& forall|i: int|
        0 <= i < 9 ==> (#[trigger] plans.resources.layer_weight_stride_bytes@[i]) <= limit
    &&& plans.resources.rope_table_bytes <= limit
    &&& plans.stack.cache_stride_bytes <= limit
    &&& plans.kv.attention_bytes <= limit
    &&& sizes.hidden <= limit
    &&& sizes.query <= limit
    &&& sizes.key_value <= limit
    &&& sizes.intermediate <= limit
}

/// The weights and the caches of all layers, and whether they are within a limit.
spec fn bulks_within(plans: StackPlans, sizes: StackSizes, limit: u64) -> bool {
    &&& forall|i: int|
        0 <= i < 9 ==> (#[trigger] plans.resources.layer_weight_bulk_bytes@[i]) <= limit
    &&& sizes.cache <= limit
}

proof fn lemma_bound_sizes(plans: StackPlans, sizes: StackSizes, rows: StackRows, limit: u64)
    requires
        rows.hidden == sizes.hidden,
        rows.query == sizes.query,
        rows.key_value == sizes.key_value,
        rows.intermediate == sizes.intermediate,
        rows.cache_bulk == sizes.cache,
    ensures
        all_within(
            crate::stack_limits::stack_bound_sizes(plans.kv, plans.stack, plans.resources, rows),
            limit,
        ) <==> step_bindings_within(plans, sizes, limit) && bulks_within(plans, sizes, limit),
        all_within(crate::stack_limits::stack_bulk_sizes(plans.resources, rows), limit)
            <==> bulks_within(plans, sizes, limit),
{
    let bulks = crate::stack_limits::stack_bulk_sizes(plans.resources, rows);
    let bound = crate::stack_limits::stack_bound_sizes(
        plans.kv,
        plans.stack,
        plans.resources,
        rows,
    );
    assert forall|i: int| 0 <= i < 9 implies (#[trigger] bulks[i]).1
        == plans.resources.layer_weight_bulk_bytes@[i] by {
    }
    assert forall|i: int| 0 <= i < 9 implies (#[trigger] bound[i]).1
        == plans.resources.layer_weight_stride_bytes@[i] by {
    }
    assert forall|i: int| 0 <= i < 10 implies #[trigger] bound[16 + i] == bulks[i] by {
    }
    if all_within(bulks, limit) {
        assert forall|i: int| 0 <= i < 9 implies (
        #[trigger] plans.resources.layer_weight_bulk_bytes@[i]) <= limit by {
            assert(bulks[i].1 <= limit);
        }
        assert(bulks[9].1 <= limit);
    }
    if bulks_within(plans, sizes, limit) {
        assert forall|i: int| 0 <= i < bulks.len() implies (#[trigger] bulks[i]).1 <= limit by {
            if i < 9 {
                assert(plans.resources.layer_weight_bulk_bytes@[i] <= limit);
            } else {
                assert(i == 9);
            }
        }
    }
    if all_within(bound, limit) {
        assert forall|i: int| 0 <= i < 9 implies (
        #[trigger] plans.resources.layer_weight_stride_bytes@[i]) <= limit by {
            assert(bound[i].1 <= limit);
        }
        assert(bound[9].1 <= limit);
        assert(bound[10].1 <= limit);
        assert(bound[11].1 <= limit);
        assert(bound[12].1 <= limit);
        assert(bound[13].1 <= limit);
        assert(bound[14].1 <= limit);
        assert(bound[15].1 <= limit);
        assert forall|i: int| 0 <= i < bulks.len() implies (#[trigger] bulks[i]).1 <= limit by {
            assert(bound[16 + i].1 <= limit);
        }
    }
    if step_bindings_within(plans, sizes, limit) && bulks_within(plans, sizes, limit) {
        assert forall|i: int| 0 <= i < bound.len() implies (#[trigger] bound[i]).1 <= limit by {
            if i < 9 {
                assert(plans.resources.layer_weight_stride_bytes@[i] <= limit);
            } else if i == 9 {
            } else if i == 10 {
            } else if i == 11 {
            } else if i == 12 {
            } else if i == 13 {
            } else if i == 14 {
            } else if i == 15 {
            } else {
                assert(bound[16 + (i - 16)] == bulks[i - 16]);
                assert(bulks[i - 16].1 <= limit);
            }
        }
    }
}

/// The bind groups of a step can be bound exactly where what it binds is within the limits.
proof fn lemma_step_groups_admitted(plans: StackPlans, sizes: StackSizes, limits: DeviceLimits)
    ensures
        groups_admitted(
            crate::stack_resources::base_bind_groups(
                plans.kv,
                plans.stack,
                plans.resources,
                sizes,
            ),
            limits,
        ) <==> (limits.max_storage_buffers_per_shader_stage >= 6 && step_bindings_within(
            plans,
            sizes,
            limits.max_storage_buffer_binding_size,
        ) && plans.kv.split_partials_bytes <= limits.max_storage_buffer_binding_size),
{
    let groups = crate::stack_resources::base_bind_groups(
        plans.kv,
        plans.stack,
        plans.resources,
        sizes,
    );
    let limit = limits.max_storage_buffer_binding_size;
    let strides = plans.resources.layer_weight_stride_bytes@;
    if groups_admitted(groups, limits) {
        assert(group_admitted(groups[0], limits));
        assert(group_admitted(groups[1], limits));
        assert(group_admitted(groups[2], limits));
        assert(group_admitted(groups[3], limits));
        assert(group_admitted(groups[4], limits));
        assert(group_admitted(groups[5], limits));
        assert(group_admitted(groups[6], limits));
        assert(group_admitted(groups[8], limits));
        assert(group_admitted(groups[9], limits));
        assert(group_admitted(groups[10], limits));
        assert(group_admitted(groups[12], limits));
        assert(group_admitted(groups[14], limits));
        assert(groups[0].bindings[0].size == sizes.hidden);
        assert(groups[0].bindings[1].size == strides[0]);
        assert(groups[1].bindings[0].size == strides[1]);
        assert(groups[2].bindings[0].size == strides[2]);
        assert(groups[3].bindings[0].size == strides[3]);
        assert(groups[4].bindings.len() == 7);
        assert(groups[4].bindings[0].size == sizes.query);
        assert(groups[4].bindings[1].size == sizes.key_value);
        assert(groups[4].bindings[2].size == plans.resources.rope_table_bytes);
        assert(groups[5].bindings[2].size == plans.stack.cache_stride_bytes);
        assert(groups[6].bindings[0].size == strides[4]);
        assert(groups[6].bindings[1].size == plans.kv.attention_bytes);
        assert(groups[8].bindings[1].size == strides[5]);
        assert(groups[9].bindings[0].size == strides[6]);
        assert(groups[9].bindings[2].size == sizes.intermediate);
        assert(groups[10].bindings[0].size == strides[7]);
        assert(groups[12].bindings[0].size == strides[8]);
        assert(groups[14].bindings[3].size == plans.kv.split_partials_bytes);
        assert forall|i: int| 0 <= i < 9 implies (#[trigger] strides[i]) <= limit by {
            if i == 0 {
            } else if i == 1 {
            } else if i == 2 {
            } else if i == 3 {
            } else if i == 4 {
            } else if i == 5 {
            } else if i == 6 {
            } else if i == 7 {
            } else {
                assert(i == 8);
            }
        }
    }
    if limits.max_storage_buffers_per_shader_stage >= 6 && step_bindings_within(
        plans,
        sizes,
        limit,
    ) && plans.kv.split_partials_bytes <= limit {
        assert(strides[0] <= limit && strides[1] <= limit && strides[2] <= limit && strides[3]
            <= limit && strides[4] <= limit && strides[5] <= limit && strides[6] <= limit
            && strides[7] <= limit && strides[8] <= limit);
        assert forall|i: int| 0 <= i < groups.len() implies group_admitted(
            #[trigger] groups[i],
            limits,
        ) by {
            if i == 0 {
            } else if i == 1 {
            } else if i == 2 {
            } else if i == 3 {
            } else if i == 4 {
            } else if i == 5 {
            } else if i == 6 {
            } else if i == 7 {
            } else if i == 8 {
            } else if i == 9 {
            } else if i == 10 {
            } else if i == 11 {
            } else if i == 12 {
            } else if i == 13 {
            } else if i == 14 {
            } else {
                assert(i == 15);
            }
        }
    }
}

/// A stack session is admitted exactly where no invocation exceeds the device, every layer can be
/// bound at an offset that the device allows, the bind groups of a step can be bound, the weights
/// and the caches of all layers fit, and so do the plane of a split attention, the stages of a
/// prefill, and the weights, the row and the logits of a readout, as far as the session has them.
pub proof fn law_stack_session_is_admitted_where_it_fits(
    limits: DeviceLimits,
    plans: StackPlans,
    sizes: StackSizes,
    verdicts: StackVerdicts,
)
    requires
        crate::stack_plan::stack_sizes_outcome(plans.kv, plans.stack) == Ok::<
            StackSizes,
            Seq<char>,
        >(sizes),
        plans.stack.hidden_stride_bytes == plans.stack.attention.hidden_size * 4,
    ensures
        crate::stack_limits::stack_capabilities_complaint(limits, plans, verdicts) is None <==> {
            let logits = crate::stack_resources::logits_sizes(plans.resources, plans.lm_head);
            let buffers = crate::stack_laws::placed_buffers(plans, sizes, logits);
            &&& limits.min_storage_buffer_offset_alignment <= 256
            &&& all_silent(crate::stack_limits::step_verdict_texts(verdicts))
            &&& groups_admitted(
                crate::stack_resources::base_bind_groups(
                    plans.kv,
                    plans.stack,
                    plans.resources,
                    sizes,
                ),
                limits,
            )
            &&& buffers_admitted(buffers, STACK_NORM1_WEIGHT, STACK_O_WEIGHT, limits)
            &&& buffers_admitted(buffers, STACK_NORM2_WEIGHT, STACK_VALUE_CACHE, limits)
            &&& buffer_admitted(buffers[STACK_SPLIT_PARTIALS as int], limits)
            &&& (plans.kv.cache_capacity + 31) / 32 * 16
                <= limits.max_compute_workgroups_per_dimension
            &&& plans.prefill_capable ==> all_silent(
                crate::limits::verdict_texts(verdicts.prefill@),
            ) && buffers_admitted(
                buffers,
                STACK_PREFILL_HIDDEN_STORAGE,
                STACK_PREFILL_ZERO_BIAS,
                limits,
            )
            &&& plans.lm_head is Some ==> plans.resources.final_norm_weight_bytes is Some
                && plans.resources.lm_head_weight_bytes is Some && all_silent(
                crate::limits::verdict_texts(verdicts.logits@),
            ) && buffers_admitted(buffers, STACK_FINAL_NORM_WEIGHT, STACK_LOGITS, limits)
        },
{
    let rows = crate::stack_limits::stack_rows_outcome(plans.stack)->Ok_0;
    let logits = crate::stack_resources::logits_sizes(plans.resources, plans.lm_head);
    let buffers = crate::stack_laws::placed_buffers(plans, sizes, logits);
    let limit = limits.max_storage_buffer_binding_size;
    let step = crate::stack_limits::step_verdict_texts(verdicts);
    law_first_excessive_dispatch_is_named(Family::Stack, step, 0);
    assert(step.skip(0) =~= step);
    let bound = crate::stack_limits::stack_bound_sizes(
        plans.kv,
        plans.stack,
        plans.resources,
        rows,
    );
    let bulks = crate::stack_limits::stack_bulk_sizes(plans.resources, rows);
    law_first_oversize_binding_is_named(bound, limit, 0);
    assert(bound.skip(0) =~= bound);
    lemma_buffers(bulks, limits.max_buffer_size, 0);
    lemma_bound_sizes(plans, sizes, rows, limit);
    lemma_bound_sizes(plans, sizes, rows, limits.max_buffer_size);
    lemma_step_groups_admitted(plans, sizes, limits);
    lemma_bulk_buffers(plans, sizes, logits, limits);
    let prefill = crate::limits::verdict_texts(verdicts.prefill@);
    lemma_led("decoder stack session prefill exceeds adapter dispatch limits: "@, prefill, 0);
    let staged = crate::stack_limits::prefill_bound_sizes(plans.kv.cache_capacity);
    lemma_sizes(staged, limits, 0);
    lemma_prefill_buffers(plans, sizes, logits, limits);
    let readout = crate::limits::verdict_texts(verdicts.logits@);
    lemma_led("decoder stack session logits exceeds adapter dispatch limits: "@, readout, 0);
    if plans.lm_head is Some && plans.resources.final_norm_weight_bytes is Some
        && plans.resources.lm_head_weight_bytes is Some {
        let plan = plans.lm_head->Some_0;
        let named = seq![
            (
                "decoder stack final norm weight"@,
                plans.resources.final_norm_weight_bytes->Some_0,
            ),
            ("decoder stack LM head weight"@, plans.resources.lm_head_weight_bytes->Some_0),
            ("decoder stack normed row"@, plan.normed_row_bytes),
            ("decoder stack logits"@, plan.logits_bytes),
        ];
        lemma_sizes(named, limits, 0);
        assert(buffers[STACK_FINAL_NORM_WEIGHT as int].size == named[0].1);
        assert(buffers[STACK_LM_HEAD as int].size == named[1].1);
        assert(buffers[STACK_NORMED_ROW as int].size == named[2].1);
        assert(buffers[STACK_LOGITS as int].size == named[3].1);
        if buffers_admitted(buffers, STACK_FINAL_NORM_WEIGHT, STACK_LOGITS, limits) {
            assert(buffer_admitted(buffers[STACK_FINAL_NORM_WEIGHT as int], limits));
            assert(buffer_admitted(buffers[STACK_LM_HEAD as int], limits));
            assert(buffer_admitted(buffers[STACK_NORMED_ROW as int], limits));
            assert(buffer_admitted(buffers[STACK_LOGITS as int], limits));
        } else {
            assert(!(forall|i: int|
                0 <= i < 4 ==> (#[trigger] named[i]).1 <= limit && named[i].1
                    <= limits.max_buffer_size)) by {
                if forall|i: int|
                    0 <= i < 4 ==> (#[trigger] named[i]).1 <= limit && named[i].1
                        <= limits.max_buffer_size {
                    assert(named[0].1 <= limit && named[1].1 <= limit && named[2].1 <= limit
                        && named[3].1 <= limit);
                }
            }
        }
    }
    assert(buffers[STACK_SPLIT_PARTIALS as int].size == plans.kv.split_partials_bytes);
}

/// The buffers of the weights and caches of all layers can be created exactly where they are within
/// the limits.
proof fn lemma_bulk_buffers(
    plans: StackPlans,
    sizes: StackSizes,
    logits: LogitsSizes,
    limits: DeviceLimits,
)
    ensures
        ({
            let buffers = crate::stack_laws::placed_buffers(plans, sizes, logits);
            (buffers_admitted(buffers, STACK_NORM1_WEIGHT, STACK_O_WEIGHT, limits)
                && buffers_admitted(buffers, STACK_NORM2_WEIGHT, STACK_VALUE_CACHE, limits)) <==> (
            bulks_within(plans, sizes, limits.max_storage_buffer_binding_size) && bulks_within(
                plans,
                sizes,
                limits.max_buffer_size,
            ))
        }),
{
    let buffers = crate::stack_laws::placed_buffers(plans, sizes, logits);
    let bulks = plans.resources.layer_weight_bulk_bytes@;
    let places = |i: int|
        if i < 5 {
            i + 1
        } else {
            i + 3
        };
    assert(buffers[1].size == bulks[0]);
    assert(buffers[2].size == bulks[1]);
    assert(buffers[3].size == bulks[2]);
    assert(buffers[4].size == bulks[3]);
    assert(buffers[5].size == bulks[4]);
    assert(buffers[8].size == bulks[5]);
    assert(buffers[9].size == bulks[6]);
    assert(buffers[10].size == bulks[7]);
    assert(buffers[11].size == bulks[8]);
    assert(buffers[12].size == sizes.cache);
    assert(buffers[13].size == sizes.cache);
    if buffers_admitted(buffers, STACK_NORM1_WEIGHT, STACK_O_WEIGHT, limits) && buffers_admitted(
        buffers,
        STACK_NORM2_WEIGHT,
        STACK_VALUE_CACHE,
        limits,
    ) {
        assert forall|i: int| 0 <= i < 9 implies (#[trigger] bulks[i])
            <= limits.max_storage_buffer_binding_size && bulks[i] <= limits.max_buffer_size by {
            assert(buffer_admitted(buffers[places(i)], limits));
            assert(buffers[places(i)].size == bulks[i]);
        }
        assert(buffer_admitted(buffers[12], limits));
    }
    if bulks_within(plans, sizes, limits.max_storage_buffer_binding_size) && bulks_within(
        plans,
        sizes,
        limits.max_buffer_size,
    ) {
        assert forall|i: int| 1 <= i <= 5 || 8 <= i <= 13 implies buffer_admitted(
            #[trigger] buffers[i],
            limits,
        ) by {
            if i <= 5 {
                assert(buffers[i].size == bulks[i - 1]);
            } else if i <= 11 {
                assert(buffers[i].size == bulks[i - 3]);
            }
        }
    }
}

/// The buffers of a prefill can be created exactly where its stages are within the limits.
proof fn lemma_prefill_buffers(
    plans: StackPlans,
    sizes: StackSizes,
    logits: LogitsSizes,
    limits: DeviceLimits,
)
    requires
        crate::stack_plan::stack_sizes_outcome(plans.kv, plans.stack) == Ok::<
            StackSizes,
            Seq<char>,
        >(sizes),
    ensures
        ({
            let buffers = crate::stack_laws::placed_buffers(plans, sizes, logits);
            let staged = crate::stack_limits::prefill_bound_sizes(plans.kv.cache_capacity);
            buffers_admitted(
                buffers,
                STACK_PREFILL_HIDDEN_STORAGE,
                STACK_PREFILL_ZERO_BIAS,
                limits,
            ) <==> (forall|i: int|
                0 <= i < staged.len() ==> (#[trigger] staged[i]).1
                    <= limits.max_storage_buffer_binding_size && staged[i].1
                    <= limits.max_buffer_size)
        }),
{
    let buffers = crate::stack_laws::placed_buffers(plans, sizes, logits);
    let staged = crate::stack_limits::prefill_bound_sizes(plans.kv.cache_capacity);
    assert(buffers[47].size == staged[0].1 && buffers[48].size == staged[0].1
        && buffers[53].size == staged[0].1 && buffers[54].size == staged[0].1);
    assert(buffers[49].size == staged[1].1 && buffers[52].size == staged[1].1);
    assert(buffers[50].size == staged[2].1 && buffers[51].size == staged[2].1);
    assert(buffers[55].size == staged[3].1 && buffers[56].size == staged[3].1 && buffers[57].size
        == staged[3].1);
    assert(buffers[58].size == staged[4].1);
    if buffers_admitted(
        buffers,
        STACK_PREFILL_HIDDEN_STORAGE,
        STACK_PREFILL_ZERO_BIAS,
        limits,
    ) {
        assert(buffer_admitted(buffers[47], limits));
        assert(buffer_admitted(buffers[49], limits));
        assert(buffer_admitted(buffers[50], limits));
        assert(buffer_admitted(buffers[55], limits));
        assert(buffer_admitted(buffers[58], limits));
    }
    if forall|i: int|
        0 <= i < staged.len() ==> (#[trigger] staged[i]).1
            <= limits.max_storage_buffer_binding_size && staged[i].1 <= limits.max_buffer_size {
        assert(staged.len() == 5);
        assert(staged[0].1 <= limits.max_buffer_size);
        assert(staged[1].1 <= limits.max_buffer_size);
        assert(staged[2].1 <= limits.max_buffer_size);
        assert(staged[3].1 <= limits.max_buffer_size);
        assert(staged[4].1 <= limits.max_buffer_size);
        assert forall|i: int| 47 <= i <= 58 implies buffer_admitted(
            #[trigger] buffers[i],
            limits,
        ) by {
            if i == 47 || i == 48 || i == 53 || i == 54 {
            } else if i == 49 || i == 52 {
            } else if i == 50 || i == 51 {
            } else if i == 58 {
            } else {
                assert(i == 55 || i == 56 || i == 57);
            }
        }
    }
}

/// The buffers of a session are as long as the rows that they hold: one element is four bytes, the
/// hidden rows of a step are two, the caches hold all layers, and a stage of a prefill holds one
/// row for every token of the cache.
pub proof fn law_stack_sizes_hold_their_rows(
    kv: crate::kv::KvPlan,
    stack: StackPlan,
    sizes: StackSizes,
)
    requires
        crate::stack_plan::stack_sizes_outcome(kv, stack) == Ok::<StackSizes, Seq<char>>(sizes),
    ensures
        sizes.hidden == stack.hidden_stride_bytes,
        sizes.pingpong == sizes.hidden + sizes.hidden,
        sizes.query == 4 * stack.attention.query_width,
        sizes.key_value == 4 * stack.attention.key_value_width,
        sizes.intermediate == 4 * stack.intermediate_size,
        sizes.cache == stack.layers * stack.cache_stride_bytes,
        sizes.prefill_hidden == kv.cache_capacity * 4096,
        sizes.prefill_query == 2 * sizes.prefill_hidden,
        4 * sizes.prefill_key_value == sizes.prefill_hidden,
        sizes.prefill_intermediate == 3 * sizes.prefill_hidden,
{
}

/// The buffers of an attention block are as long as the rows and matrices that they hold: one
/// element is four bytes, the query weight turns a hidden row into a query row, and the output
/// weight turns it back.
pub proof fn law_layer_sizes_hold_their_rows(plan: AttentionPlan, sizes: LayerSizes)
    requires
        crate::layer::layer_sizes_outcome(plan) == Ok::<LayerSizes, Seq<char>>(sizes),
    ensures
        sizes.hidden == 4 * plan.hidden_size,
        sizes.query == 4 * plan.query_width,
        sizes.key_value == 4 * plan.key_value_width,
        sizes.rope == 4 * plan.rope_elements,
        sizes.q_weight == sizes.query * plan.hidden_size,
        sizes.key_value_weight == sizes.key_value * plan.hidden_size,
        sizes.o_weight == sizes.q_weight,
{
    let hidden = plan.hidden_size as int;
    let query = plan.query_width as int;
    let key_value = plan.key_value_width as int;
    assert(query * hidden == hidden * query && (4 * query) * hidden == query * hidden * 4 && (4
        * key_value) * hidden == key_value * hidden * 4) by (nonlinear_arith);
}

} // verus!
