//! Laws of the bindings and of the plans: a buffer is bound as it may be used, and what planners
//! answer is what a session goes by.

use crate::family::WeightStorage;
use crate::gpu::{BindGroupModel, BufferPlan, BufferUsage};
use crate::kv::KvPlan;
use crate::layer::LayerSizes;
use crate::probe_parse::WeightProbeModel;
use crate::stack_begin::PlannedStack;
use crate::stack_plan::{LmHeadPlan, PrefillPlan, StackPlan, StackPlans, StackSizes};
use crate::stack_resources::{BindingKind, LayoutEntry, LogitsSizes};
use vstd::prelude::*;

verus! {

/// Whether a group binds a buffer for every entry of a layout: one of uniform words exactly where
/// the shader reads uniform words, and one that shaders may bind everywhere else.
pub open spec fn bound_by_use(
    group: BindGroupModel,
    entries: Seq<LayoutEntry>,
    buffers: Seq<BufferPlan>,
) -> bool {
    &&& group.bindings.len() == entries.len()
    &&& forall|i: int|
        0 <= i < entries.len() ==> {
            let usage = buffers[(#[trigger] group.bindings[i]).buffer as int].usage;
            &&& (usage == BufferUsage::Uniform) == (entries[i].kind == BindingKind::Uniform)
            &&& usage != BufferUsage::Readback
        }
}

/// The groups of a key/value cache session bind its buffers as they may be used.
pub proof fn law_kv_groups_bind_by_use(plan: KvPlan, group: int)
    requires
        0 <= group < crate::kv::kv_bind_groups(plan).len(),
    ensures
        ({
            let bound = crate::kv::kv_bind_groups(plan)[group];
            bound_by_use(
                bound,
                crate::kv_flow::kv_entries(bound.pipeline),
                crate::kv::kv_buffers(plan),
            )
        }),
{
}

/// The groups of an attention-block session bind its buffers as they may be used.
pub proof fn law_layer_groups_bind_by_use(kv_plan: KvPlan, sizes: LayerSizes, group: int)
    requires
        0 <= group < crate::layer::layer_bind_groups(kv_plan, sizes).len(),
    ensures
        ({
            let bound = crate::layer::layer_bind_groups(kv_plan, sizes)[group];
            bound_by_use(
                bound,
                crate::layer_flow::layer_entries(bound.pipeline),
                crate::layer::layer_buffers(kv_plan, sizes),
            )
        }),
{
}

/// The groups of a stack session bind its buffers as they may be used.
pub proof fn law_stack_groups_bind_by_use(
    plans: StackPlans,
    sizes: StackSizes,
    logits: LogitsSizes,
    group: int,
)
    requires
        0 <= group < crate::stack_laws::placed_groups(plans, sizes, logits).len(),
    ensures
        ({
            let bound = crate::stack_laws::placed_groups(plans, sizes, logits)[group];
            bound_by_use(
                bound,
                crate::stack_resources::layout_entries(bound.pipeline),
                crate::stack_laws::placed_buffers(plans, sizes, logits),
            )
        }),
{
    let buffers = crate::stack_laws::placed_buffers(plans, sizes, logits);
    let bound = crate::stack_laws::placed_groups(plans, sizes, logits)[group];
    let base = crate::stack_resources::base_bind_groups(
        plans.kv,
        plans.stack,
        plans.resources,
        sizes,
    );
    let prefill = crate::stack_resources::prefill_bind_groups(plans.stack, plans.resources, sizes);
    let of_logits = crate::stack_resources::logits_bind_groups(
        sizes,
        logits,
        plans.prefill_capable,
    );
    if group < 16 {
        assert(bound == base[group]);
    } else if group < 31 {
        assert(bound == prefill[group - 16]);
    } else if group < 34 {
        assert(bound == of_logits[group - 31]);
    } else {
        assert(bound == crate::stack_resources::top1_bind_group(logits));
    }
}

/// The groups of a probe bind its buffers as they may be used.
pub proof fn law_probe_groups_bind_by_use(probe: WeightProbeModel, group: int)
    requires
        0 <= group < crate::probe::probe_bind_groups(probe).len(),
    ensures
        ({
            let bound = crate::probe::probe_bind_groups(probe)[group];
            bound_by_use(
                bound,
                crate::stack_resources::layout_entries(bound.pipeline),
                crate::probe::probe_buffers(probe),
            )
        }),
{
}

/// The plans of a stack are settled exactly where no planner refused, and are then what the
/// planners answered; the message about a refusal ends in the words of the first planner that
/// refused.
pub proof fn law_planners_are_heard(
    resident: bool,
    storage: WeightStorage,
    stack: Result<StackPlan, Seq<char>>,
    prefill: Result<PrefillPlan, Seq<char>>,
    lm_head: Option<Result<LmHeadPlan, Seq<char>>>,
)
    ensures
        ({
            let outcome = crate::stack_begin::settled_outcome(
                resident,
                storage,
                stack,
                prefill,
                lm_head,
            );
            let refused = if stack is Err {
                stack->Err_0
            } else if prefill is Err {
                prefill->Err_0
            } else {
                lm_head->Some_0->Err_0
            };
            &&& outcome is Ok == (stack is Ok && prefill is Ok && !(lm_head matches Some(Err(_))))
            &&& outcome matches Ok(settled) ==> {
                &&& stack == Ok::<StackPlan, Seq<char>>(settled.0)
                &&& prefill == Ok::<PrefillPlan, Seq<char>>(settled.1)
                &&& lm_head is Some == settled.2 is Some
                &&& settled.2 matches Some(plan) ==> lm_head == Some(
                    Ok::<LmHeadPlan, Seq<char>>(plan),
                )
            }
            &&& outcome matches Err(message) ==> refused.is_suffix_of(message)
        }),
{
    let sites = crate::stack_begin::weight_sites(resident, storage);
    if let Err(message) = crate::stack_begin::settled_outcome(
        resident,
        storage,
        stack,
        prefill,
        lm_head,
    ) {
        let refused = if stack is Err {
            stack->Err_0
        } else if prefill is Err {
            prefill->Err_0
        } else {
            lm_head->Some_0->Err_0
        };
        let site = if stack is Err {
            sites.0
        } else if prefill is Err {
            sites.1
        } else {
            sites.2
        };
        let lead = crate::operands::refusal_lead(site);
        assert(message == lead + refused);
        assert(message.subrange(lead.len() as int, message.len() as int) =~= refused);
    }
}

/// The resource planner is told the sizes that the other planners answered, under their names, and
/// of the rotary tables four bytes for every element.
pub proof fn law_resource_planner_is_told_the_plans(
    stack: StackPlan,
    lm_head: Option<LmHeadPlan>,
    storage: WeightStorage,
    resident: bool,
)
    ensures
        ({
            let outcome = crate::stack_begin::resource_request_outcome(
                stack,
                lm_head,
                storage,
                resident,
            );
            &&& outcome is Ok == (stack.attention.rope_elements * 4 <= u64::MAX)
            &&& outcome matches Ok(told) ==> {
                &&& told.layers == stack.layers
                &&& told.layer_weight_stride_bytes == stack.weight_stride_bytes
                &&& told.rope_table_bytes == stack.attention.rope_elements * 4
                &&& told.storage == storage
                &&& told.final_norm_weight_bytes is Some == lm_head is Some
                &&& told.lm_head_weight_bytes is Some == lm_head is Some
                &&& lm_head matches Some(plan) ==> told.final_norm_weight_bytes
                    == Some(plan.final_norm_weight_bytes) && told.lm_head_weight_bytes
                    == Some(plan.lm_head_weight_bytes)
            }
        }),
{
}

/// A session goes by the plans that were made for it.
pub proof fn law_session_goes_by_its_plans(planned: PlannedStack, prefill_capable: bool)
    ensures
        ({
            let plans = crate::stack_begin::plans_with(planned, prefill_capable);
            &&& plans.kv == planned.kv
            &&& plans.stack == planned.stack
            &&& plans.resources == planned.resources
            &&& plans.prefill == planned.prefill
            &&& plans.lm_head == planned.lm_head
            &&& plans.prefill_capable == prefill_capable
        }),
{
}

proof fn lemma_led_grows(
    message: Seq<char>,
    lead: Seq<char>,
    items: Seq<Seq<char>>,
    more: Seq<char>,
    index: int,
)
    requires
        0 <= index <= items.len(),
    ensures
        crate::failure::each_led(message, lead, items.push(more), index)
            == crate::failure::each_led(message, lead, items, index) + lead + more,
    decreases items.len() - index,
{
    reveal_with_fuel(crate::failure::each_led, 2);
    if index < items.len() {
        assert(items.push(more)[index] == items[index]);
        lemma_led_grows(message + lead + items[index], lead, items, more, index + 1);
    }
}

proof fn lemma_led_starts(
    message: Seq<char>,
    lead: Seq<char>,
    items: Seq<Seq<char>>,
    index: int,
)
    requires
        0 <= index <= items.len(),
    ensures
        message.is_prefix_of(crate::failure::each_led(message, lead, items, index)),
    decreases items.len() - index,
{
    if index < items.len() {
        let longer = message + lead + items[index];
        lemma_led_starts(longer, lead, items, index + 1);
        let all = crate::failure::each_led(longer, lead, items, index + 1);
        assert(longer.subrange(0, message.len() as int) =~= message);
        assert(all.subrange(0, message.len() as int) =~= longer.subrange(
            0,
            message.len() as int,
        ));
    }
}

/// The message about an operation that failed starts with its error; every failure to clean up
/// stands behind those before it, and every captured error before all failures.
pub proof fn law_failure_message_names_everything(
    error: Seq<char>,
    captures: Seq<Seq<char>>,
    failures: Seq<Seq<char>>,
    more: Seq<char>,
)
    ensures
        crate::failure::drained_message(error, Seq::empty(), Seq::empty()) == error,
        error.is_prefix_of(crate::failure::drained_message(error, captures, failures)),
        crate::failure::drained_message(error, captures, failures.push(more))
            == crate::failure::drained_message(error, captures, failures)
            + "; scope cleanup failure: "@ + more,
        crate::failure::drained_message(error, captures.push(more), Seq::empty())
            == crate::failure::drained_message(error, captures, Seq::empty())
            + "; captured WebGPU error: "@ + more,
        crate::failure::drained_message(error, captures, Seq::empty()).is_prefix_of(
            crate::failure::drained_message(error, captures, failures),
        ),
{
    let captured = crate::failure::each_led(error, "; captured WebGPU error: "@, captures, 0);
    let all = crate::failure::drained_message(error, captures, failures);
    lemma_led_grows(captured, "; scope cleanup failure: "@, failures, more, 0);
    lemma_led_grows(error, "; captured WebGPU error: "@, captures, more, 0);
    lemma_led_starts(error, "; captured WebGPU error: "@, captures, 0);
    lemma_led_starts(captured, "; scope cleanup failure: "@, failures, 0);
    assert(all.subrange(0, error.len() as int) =~= captured.subrange(0, error.len() as int));
}

} // verus!
