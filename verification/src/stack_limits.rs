//! What a device must be able to do for a stack session.

use crate::family::Family;
use crate::kv::KvPlan;
use crate::layer::{attention_verdict_list, AttentionVerdicts};
use crate::limits::{require_bindings, require_dispatches, DeviceLimits};
use crate::sizes::checked_u64_bytes;
use crate::stack_plan::{
    stage_bytes, LmHeadPlan, StackPlan, StackPlans, WeightResourcePlan, PREFILL_HIDDEN_WIDTH,
    PREFILL_INTERMEDIATE_WIDTH, PREFILL_KEY_VALUE_WIDTH, PREFILL_QUERY_WIDTH,
    PREFILL_ZERO_BIAS_BYTES,
};
use crate::text::join2;
use vstd::prelude::*;

verus! {

/// The first verdict, from one on, that is a complaint, led by given words.
pub open spec fn led_complaint_from(
    lead: Seq<char>,
    verdicts: Seq<Option<Seq<char>>>,
    index: int,
) -> Option<Seq<char>>
    decreases verdicts.len() - index,
{
    if index >= verdicts.len() {
        None
    } else {
        match verdicts[index] {
            Some(message) => Some(lead + message),
            None => led_complaint_from(lead, verdicts, index + 1),
        }
    }
}

fn require_led(lead: &str, verdicts: &Vec<Option<String>>) -> (outcome: Result<(), String>)
    ensures
        crate::text::complaint(outcome) == led_complaint_from(
            lead@,
            crate::limits::verdict_texts(verdicts@),
            0,
        ),
{
    let ghost texts = crate::limits::verdict_texts(verdicts@);
    let mut index: usize = 0;
    while index < verdicts.len()
        invariant
            index <= verdicts.len(),
            texts == crate::limits::verdict_texts(verdicts@),
            led_complaint_from(lead@, texts, 0) == led_complaint_from(
                lead@,
                texts,
                index as int,
            ),
        decreases verdicts.len() - index,
    {
        match &verdicts[index] {
            Some(message) => {
                assert(texts[index as int] == Some(message@));
                return Err(join2(lead, message.as_str()));
            },
            None => {
                assert(texts[index as int] == None::<Seq<char>>);
            },
        }
        index += 1;
    }
    Ok(())
}

/// The first named size, from one on, that is above a limit on buffers.
pub open spec fn buffer_complaint_from(
    sizes: Seq<(Seq<char>, u64)>,
    limit: u64,
    index: int,
) -> Option<Seq<char>>
    decreases sizes.len() - index,
{
    if index >= sizes.len() {
        None
    } else if sizes[index].1 > limit {
        Some(sizes[index].0 + " exceeds the adapter buffer size limit"@)
    } else {
        buffer_complaint_from(sizes, limit, index + 1)
    }
}

fn require_buffers(sizes: &Vec<(&'static str, u64)>, limit: u64) -> (outcome: Result<(), String>)
    ensures
        crate::text::complaint(outcome) == buffer_complaint_from(
            crate::limits::named_sizes(sizes@),
            limit,
            0,
        ),
{
    let ghost model = crate::limits::named_sizes(sizes@);
    let mut index: usize = 0;
    while index < sizes.len()
        invariant
            index <= sizes.len(),
            model == crate::limits::named_sizes(sizes@),
            buffer_complaint_from(model, limit, 0) == buffer_complaint_from(
                model,
                limit,
                index as int,
            ),
        decreases sizes.len() - index,
    {
        assert(model[index as int] == (sizes@[index as int].0@, sizes@[index as int].1));
        if sizes[index].1 > limit {
            return Err(join2(sizes[index].0, " exceeds the adapter buffer size limit"));
        }
        index += 1;
    }
    Ok(())
}

/// The first named size, from one on, that is above the limit on bindings or that on buffers.
pub open spec fn size_complaint_from(
    sizes: Seq<(Seq<char>, u64)>,
    limits: DeviceLimits,
    index: int,
) -> Option<Seq<char>>
    decreases sizes.len() - index,
{
    if index >= sizes.len() {
        None
    } else if sizes[index].1 > limits.max_storage_buffer_binding_size {
        Some(sizes[index].0 + " exceeds the adapter storage buffer binding limit"@)
    } else if sizes[index].1 > limits.max_buffer_size {
        Some(sizes[index].0 + " exceeds the adapter buffer size limit"@)
    } else {
        size_complaint_from(sizes, limits, index + 1)
    }
}

fn require_sizes(sizes: &Vec<(&'static str, u64)>, limits: &DeviceLimits) -> (outcome: Result<
    (),
    String,
>)
    ensures
        crate::text::complaint(outcome) == size_complaint_from(
            crate::limits::named_sizes(sizes@),
            *limits,
            0,
        ),
{
    let ghost model = crate::limits::named_sizes(sizes@);
    let mut index: usize = 0;
    while index < sizes.len()
        invariant
            index <= sizes.len(),
            model == crate::limits::named_sizes(sizes@),
            size_complaint_from(model, *limits, 0) == size_complaint_from(
                model,
                *limits,
                index as int,
            ),
        decreases sizes.len() - index,
    {
        assert(model[index as int] == (sizes@[index as int].0@, sizes@[index as int].1));
        if sizes[index].1 > limits.max_storage_buffer_binding_size {
            return Err(
                join2(
                    sizes[index].0,
                    " exceeds the adapter storage buffer binding limit",
                ),
            );
        }
        if sizes[index].1 > limits.max_buffer_size {
            return Err(join2(sizes[index].0, " exceeds the adapter buffer size limit"));
        }
        index += 1;
    }
    Ok(())
}

/// The byte sizes of the rows of a stack.
#[derive(Clone, Copy, Debug)]
pub struct StackRows {
    pub hidden: u64,
    pub query: u64,
    pub key_value: u64,
    pub intermediate: u64,
    pub cache_bulk: u64,
}

/// The byte sizes of the rows of a stack, or the first that cannot be counted.
pub open spec fn stack_rows_outcome(stack: StackPlan) -> Result<StackRows, Seq<char>> {
    match crate::sizes::byte_size(stack.attention.hidden_size as int, "decoder hidden row"@) {
        Err(message) => Err(message),
        Ok(hidden) => match crate::sizes::byte_size(
            stack.attention.query_width as int,
            "decoder query row"@,
        ) {
            Err(message) => Err(message),
            Ok(query) => match crate::sizes::byte_size(
                stack.attention.key_value_width as int,
                "decoder key/value row"@,
            ) {
                Err(message) => Err(message),
                Ok(key_value) => match crate::sizes::byte_size(
                    stack.intermediate_size as int,
                    "decoder intermediate row"@,
                ) {
                    Err(message) => Err(message),
                    Ok(intermediate) => if stack.layers * stack.cache_stride_bytes > u64::MAX {
                        Err("decoder stack bulk byte size overflowed"@)
                    } else {
                        Ok(
                            StackRows {
                                hidden,
                                query,
                                key_value,
                                intermediate,
                                cache_bulk: (stack.layers * stack.cache_stride_bytes) as u64,
                            },
                        )
                    },
                },
            },
        },
    }
}

fn stack_rows(stack: &StackPlan) -> (rows: Result<StackRows, String>)
    ensures
        crate::text::said(rows) == stack_rows_outcome(*stack),
{
    let hidden: u64 = checked_u64_bytes(
        stack.attention.hidden_size as usize,
        "decoder hidden row",
    )?;
    let query: u64 = checked_u64_bytes(stack.attention.query_width, "decoder query row")?;
    let key_value: u64 = checked_u64_bytes(
        stack.attention.key_value_width,
        "decoder key/value row",
    )?;
    let intermediate: u64 = checked_u64_bytes(
        stack.intermediate_size as usize,
        "decoder intermediate row",
    )?;
    match (stack.layers as u64).checked_mul(stack.cache_stride_bytes) {
        Some(cache_bulk) => Ok(StackRows { hidden, query, key_value, intermediate, cache_bulk }),
        None => Err("decoder stack bulk byte size overflowed".to_owned()),
    }
}

/// The sizes that a stack binds, as messages name them.
pub open spec fn stack_bound_sizes(
    kv: KvPlan,
    stack: StackPlan,
    resources: WeightResourcePlan,
    rows: StackRows,
) -> Seq<(Seq<char>, u64)> {
    let strides = resources.layer_weight_stride_bytes@;
    seq![
        ("decoder stack norm1 weight slice"@, strides[0]),
        ("decoder stack query weight slice"@, strides[1]),
        ("decoder stack key weight slice"@, strides[2]),
        ("decoder stack value weight slice"@, strides[3]),
        ("decoder stack output weight slice"@, strides[4]),
        ("decoder stack norm2 weight slice"@, strides[5]),
        ("decoder stack gate weight slice"@, strides[6]),
        ("decoder stack up weight slice"@, strides[7]),
        ("decoder stack down weight slice"@, strides[8]),
        ("decoder stack rope table"@, resources.rope_table_bytes),
        ("decoder stack compact cache slice"@, stack.cache_stride_bytes),
        ("decoder stack attention output"@, kv.attention_bytes),
        ("decoder stack hidden row"@, rows.hidden),
        ("decoder stack query row"@, rows.query),
        ("decoder stack key/value row"@, rows.key_value),
        ("decoder stack intermediate row"@, rows.intermediate),
    ] + stack_bulk_sizes(resources, rows)
}

/// The sizes of whole buffers of a stack, as messages name them.
pub open spec fn stack_bulk_sizes(resources: WeightResourcePlan, rows: StackRows) -> Seq<
    (Seq<char>, u64),
> {
    let bulks = resources.layer_weight_bulk_bytes@;
    seq![
        ("decoder stack norm1 weight bulk"@, bulks[0]),
        ("decoder stack query weight bulk"@, bulks[1]),
        ("decoder stack key weight bulk"@, bulks[2]),
        ("decoder stack value weight bulk"@, bulks[3]),
        ("decoder stack output weight bulk"@, bulks[4]),
        ("decoder stack norm2 weight bulk"@, bulks[5]),
        ("decoder stack gate weight bulk"@, bulks[6]),
        ("decoder stack up weight bulk"@, bulks[7]),
        ("decoder stack down weight bulk"@, bulks[8]),
        ("decoder stack compact cache bulk"@, rows.cache_bulk),
    ]
}

/// What is wrong with the sizes of the decode part of a stack session on a device.
pub open spec fn stack_sizes_complaint(
    limits: DeviceLimits,
    kv: KvPlan,
    stack: StackPlan,
    resources: WeightResourcePlan,
) -> Option<Seq<char>> {
    match stack_rows_outcome(stack) {
        Err(message) => Some(message),
        Ok(rows) => crate::text::earlier(
            crate::limits::binding_complaint_from(
                stack_bound_sizes(kv, stack, resources, rows),
                limits.max_storage_buffer_binding_size,
                0,
            ),
            buffer_complaint_from(
                stack_bulk_sizes(resources, rows),
                limits.max_buffer_size,
                0,
            ),
        ),
    }
}

fn bulk_sizes(resources: &WeightResourcePlan, rows: &StackRows) -> (sizes: Vec<
    (&'static str, u64),
>)
    ensures
        crate::limits::named_sizes(sizes@) == stack_bulk_sizes(*resources, *rows),
{
    let bulks: &[u64; 9] = &resources.layer_weight_bulk_bytes;
    let sizes: Vec<(&'static str, u64)> = vec![
        ("decoder stack norm1 weight bulk", bulks[0]),
        ("decoder stack query weight bulk", bulks[1]),
        ("decoder stack key weight bulk", bulks[2]),
        ("decoder stack value weight bulk", bulks[3]),
        ("decoder stack output weight bulk", bulks[4]),
        ("decoder stack norm2 weight bulk", bulks[5]),
        ("decoder stack gate weight bulk", bulks[6]),
        ("decoder stack up weight bulk", bulks[7]),
        ("decoder stack down weight bulk", bulks[8]),
        ("decoder stack compact cache bulk", rows.cache_bulk),
    ];
    assert(crate::limits::named_sizes(sizes@) =~= stack_bulk_sizes(*resources, *rows));
    sizes
}

fn bound_sizes(
    kv: &KvPlan,
    stack: &StackPlan,
    resources: &WeightResourcePlan,
    rows: &StackRows,
) -> (sizes: Vec<(&'static str, u64)>)
    ensures
        crate::limits::named_sizes(sizes@) == stack_bound_sizes(*kv, *stack, *resources, *rows),
{
    let strides: &[u64; 9] = &resources.layer_weight_stride_bytes;
    let mut sizes: Vec<(&'static str, u64)> = vec![
        ("decoder stack norm1 weight slice", strides[0]),
        ("decoder stack query weight slice", strides[1]),
        ("decoder stack key weight slice", strides[2]),
        ("decoder stack value weight slice", strides[3]),
        ("decoder stack output weight slice", strides[4]),
        ("decoder stack norm2 weight slice", strides[5]),
        ("decoder stack gate weight slice", strides[6]),
        ("decoder stack up weight slice", strides[7]),
        ("decoder stack down weight slice", strides[8]),
        ("decoder stack rope table", resources.rope_table_bytes),
        ("decoder stack compact cache slice", stack.cache_stride_bytes),
        ("decoder stack attention output", kv.attention_bytes),
        ("decoder stack hidden row", rows.hidden),
        ("decoder stack query row", rows.query),
        ("decoder stack key/value row", rows.key_value),
        ("decoder stack intermediate row", rows.intermediate),
    ];
    let mut bulks: Vec<(&'static str, u64)> = bulk_sizes(resources, rows);
    sizes.append(&mut bulks);
    assert(crate::limits::named_sizes(sizes@) =~= stack_bound_sizes(
        *kv,
        *stack,
        *resources,
        *rows,
    ));
    sizes
}

fn require_stack_sizes(
    limits: &DeviceLimits,
    kv: &KvPlan,
    stack: &StackPlan,
    resources: &WeightResourcePlan,
) -> (outcome: Result<(), String>)
    ensures
        crate::text::complaint(outcome) == stack_sizes_complaint(
            *limits,
            *kv,
            *stack,
            *resources,
        ),
{
    let rows: StackRows = stack_rows(stack)?;
    let bound: Vec<(&'static str, u64)> = bound_sizes(kv, stack, resources, &rows);
    require_bindings(&bound, limits.max_storage_buffer_binding_size)?;
    let bulks: Vec<(&'static str, u64)> = bulk_sizes(resources, &rows);
    require_buffers(&bulks, limits.max_buffer_size)
}

/// The workgroups of the partial pass of a split attention over a full cache.
pub open spec fn split_partial_workgroups(cache_capacity: u32) -> int {
    (cache_capacity + 31) / 32 * 16
}

/// What is wrong with the split attention of a stack session on a device.
pub open spec fn split_complaint(limits: DeviceLimits, kv: KvPlan) -> Option<Seq<char>> {
    if split_partial_workgroups(kv.cache_capacity) > limits.max_compute_workgroups_per_dimension {
        Some(
            "decoder stack session split partial dispatch exceeds the adapter workgroup limit"@,
        )
    } else if kv.split_partials_bytes > limits.max_storage_buffer_binding_size
        || kv.split_partials_bytes > limits.max_buffer_size {
        Some("decoder stack split partials plane exceeds the adapter buffer limits"@)
    } else {
        None
    }
}

fn require_split(limits: &DeviceLimits, kv: &KvPlan) -> (outcome: Result<(), String>)
    ensures
        crate::text::complaint(outcome) == split_complaint(*limits, *kv),
{
    let workgroups: u64 = (kv.cache_capacity as u64 + 31) / 32 * 16;
    if workgroups > limits.max_compute_workgroups_per_dimension as u64 {
        return Err(
            "decoder stack session split partial dispatch exceeds the adapter workgroup limit".to_owned(),
        );
    }
    if kv.split_partials_bytes > limits.max_storage_buffer_binding_size || kv.split_partials_bytes
        > limits.max_buffer_size {
        return Err(
            "decoder stack split partials plane exceeds the adapter buffer limits".to_owned(),
        );
    }
    Ok(())
}

/// The sizes of the stages of a prefill, as messages name them.
pub open spec fn prefill_bound_sizes(cache_capacity: u32) -> Seq<(Seq<char>, u64)> {
    seq![
        (
            "decoder stack prefill hidden storage"@,
            crate::stack_plan::prefill_stage_bytes(cache_capacity, PREFILL_HIDDEN_WIDTH),
        ),
        (
            "decoder stack prefill query stage"@,
            crate::stack_plan::prefill_stage_bytes(cache_capacity, PREFILL_QUERY_WIDTH),
        ),
        (
            "decoder stack prefill key/value stage"@,
            crate::stack_plan::prefill_stage_bytes(cache_capacity, PREFILL_KEY_VALUE_WIDTH),
        ),
        (
            "decoder stack prefill intermediate stage"@,
            crate::stack_plan::prefill_stage_bytes(cache_capacity, PREFILL_INTERMEDIATE_WIDTH),
        ),
        ("decoder stack prefill zero bias"@, PREFILL_ZERO_BIAS_BYTES),
    ]
}

/// What is wrong with the prefill of a stack session on a device.
pub open spec fn prefill_complaint(
    limits: DeviceLimits,
    kv: KvPlan,
    verdicts: Seq<Option<Seq<char>>>,
) -> Option<Seq<char>> {
    crate::text::earlier(
        led_complaint_from(
            "decoder stack session prefill exceeds adapter dispatch limits: "@,
            verdicts,
            0,
        ),
        size_complaint_from(prefill_bound_sizes(kv.cache_capacity), limits, 0),
    )
}

fn require_prefill(limits: &DeviceLimits, kv: &KvPlan, verdicts: &Vec<Option<String>>) -> (outcome:
    Result<(), String>)
    ensures
        crate::text::complaint(outcome) == prefill_complaint(
            *limits,
            *kv,
            crate::limits::verdict_texts(verdicts@),
        ),
{
    require_led("decoder stack session prefill exceeds adapter dispatch limits: ", verdicts)?;
    let sizes: Vec<(&'static str, u64)> = vec![
        (
            "decoder stack prefill hidden storage",
            stage_bytes(kv.cache_capacity, PREFILL_HIDDEN_WIDTH),
        ),
        (
            "decoder stack prefill query stage",
            stage_bytes(kv.cache_capacity, PREFILL_QUERY_WIDTH),
        ),
        (
            "decoder stack prefill key/value stage",
            stage_bytes(kv.cache_capacity, PREFILL_KEY_VALUE_WIDTH),
        ),
        (
            "decoder stack prefill intermediate stage",
            stage_bytes(kv.cache_capacity, PREFILL_INTERMEDIATE_WIDTH),
        ),
        ("decoder stack prefill zero bias", PREFILL_ZERO_BIAS_BYTES),
    ];
    assert(crate::limits::named_sizes(sizes@) =~= prefill_bound_sizes(kv.cache_capacity));
    require_sizes(&sizes, limits)
}

/// What is wrong with the logits of a stack session on a device.
pub open spec fn logits_complaint(
    limits: DeviceLimits,
    resources: WeightResourcePlan,
    plan: LmHeadPlan,
    verdicts: Seq<Option<Seq<char>>>,
) -> Option<Seq<char>> {
    match resources.final_norm_weight_bytes {
        None => Some(
            "decoder stack physical final norm weight is missing from the resource plan"@,
        ),
        Some(final_norm) => match resources.lm_head_weight_bytes {
            None => Some(
                "decoder stack physical LM head weight is missing from the resource plan"@,
            ),
            Some(lm_head) => crate::text::earlier(
                led_complaint_from(
                    "decoder stack session logits exceeds adapter dispatch limits: "@,
                    verdicts,
                    0,
                ),
                size_complaint_from(
                    seq![
                        ("decoder stack final norm weight"@, final_norm),
                        ("decoder stack LM head weight"@, lm_head),
                        ("decoder stack normed row"@, plan.normed_row_bytes),
                        ("decoder stack logits"@, plan.logits_bytes),
                    ],
                    limits,
                    0,
                ),
            ),
        },
    }
}

fn require_logits(
    limits: &DeviceLimits,
    resources: &WeightResourcePlan,
    plan: &LmHeadPlan,
    verdicts: &Vec<Option<String>>,
) -> (outcome: Result<(), String>)
    ensures
        crate::text::complaint(outcome) == logits_complaint(
            *limits,
            *resources,
            *plan,
            crate::limits::verdict_texts(verdicts@),
        ),
{
    let final_norm: u64 = match resources.final_norm_weight_bytes {
        Some(bytes) => bytes,
        None => {
            return Err(
                "decoder stack physical final norm weight is missing from the resource plan".to_owned(),
            );
        },
    };
    let lm_head: u64 = match resources.lm_head_weight_bytes {
        Some(bytes) => bytes,
        None => {
            return Err(
                "decoder stack physical LM head weight is missing from the resource plan".to_owned(),
            );
        },
    };
    require_led("decoder stack session logits exceeds adapter dispatch limits: ", verdicts)?;
    let sizes: Vec<(&'static str, u64)> = vec![
        ("decoder stack final norm weight", final_norm),
        ("decoder stack LM head weight", lm_head),
        ("decoder stack normed row", plan.normed_row_bytes),
        ("decoder stack logits", plan.logits_bytes),
    ];
    assert(crate::limits::named_sizes(sizes@) =~= seq![
        ("decoder stack final norm weight"@, final_norm),
        ("decoder stack LM head weight"@, lm_head),
        ("decoder stack normed row"@, plan.normed_row_bytes),
        ("decoder stack logits"@, plan.logits_bytes),
    ]);
    require_sizes(&sizes, limits)
}

/// What a dispatch planner says of the invocations of a stack session: nothing, or how one
/// exceeds the device. Those of a prefill and of a logits readout stand in the order of their
/// stages.
pub struct StackVerdicts {
    pub attention: AttentionVerdicts,
    pub norm2: Option<String>,
    pub gate: Option<String>,
    pub up: Option<String>,
    pub swiglu: Option<String>,
    pub down: Option<String>,
    pub second_residual: Option<String>,
    pub prefill: Vec<Option<String>>,
    pub logits: Vec<Option<String>>,
}

/// What a dispatch planner says of the invocations of a step, in the order in which it is heard.
pub open spec fn step_verdict_texts(verdicts: StackVerdicts) -> Seq<Option<Seq<char>>> {
    crate::layer::attention_verdict_texts(verdicts.attention) + crate::limits::verdict_texts(
        seq![
            verdicts.norm2,
            verdicts.gate,
            verdicts.up,
            verdicts.swiglu,
            verdicts.down,
            verdicts.second_residual,
        ],
    )
}

/// What a device lacks for a stack session.
pub open spec fn stack_capabilities_complaint(
    limits: DeviceLimits,
    plans: StackPlans,
    verdicts: StackVerdicts,
) -> Option<Seq<char>> {
    let step = step_verdict_texts(verdicts);
    let prefill = crate::limits::verdict_texts(verdicts.prefill@);
    let logits = crate::limits::verdict_texts(verdicts.logits@);
    let of_prefill = if plans.prefill_capable {
        prefill_complaint(limits, plans.kv, prefill)
    } else {
        None
    };
    let of_logits = match plans.lm_head {
        Some(plan) => logits_complaint(limits, plans.resources, plan, logits),
        None => None,
    };
    if limits.max_storage_buffers_per_shader_stage < 6 {
        Some("decoder stack session requires six storage buffers per shader stage"@)
    } else if limits.min_storage_buffer_offset_alignment > 256 {
        Some(
            "decoder stack session requires a storage buffer offset alignment of at most 256 bytes"@,
        )
    } else {
        crate::text::earlier(
            crate::limits::dispatch_complaint_from(Family::Stack, step, 0),
            crate::text::earlier(
                stack_sizes_complaint(limits, plans.kv, plans.stack, plans.resources),
                crate::text::earlier(
                    split_complaint(limits, plans.kv),
                    crate::text::earlier(of_prefill, of_logits),
                ),
            ),
        )
    }
}

/// Requires a device to be able to run a stack session.
pub fn validate_stack_capabilities(
    limits: &DeviceLimits,
    plans: &StackPlans,
    verdicts: StackVerdicts,
) -> (outcome: Result<(), String>)
    ensures
        crate::text::complaint(outcome) == stack_capabilities_complaint(
            *limits,
            *plans,
            verdicts,
        ),
{
    let ghost step_texts = step_verdict_texts(verdicts);
    if limits.max_storage_buffers_per_shader_stage < 6 {
        return Err(
            "decoder stack session requires six storage buffers per shader stage".to_owned(),
        );
    }
    if limits.min_storage_buffer_offset_alignment > 256 {
        return Err(
            "decoder stack session requires a storage buffer offset alignment of at most 256 bytes".to_owned(),
        );
    }
    let mut step: Vec<Option<String>> = attention_verdict_list(verdicts.attention);
    let ghost block = step@;
    let mut rest: Vec<Option<String>> = vec![
        verdicts.norm2,
        verdicts.gate,
        verdicts.up,
        verdicts.swiglu,
        verdicts.down,
        verdicts.second_residual,
    ];
    let ghost others = rest@;
    step.append(&mut rest);
    assert(step@ =~= block + others);
    assert(crate::limits::verdict_texts(step@) =~= crate::limits::verdict_texts(block)
        + crate::limits::verdict_texts(others));
    assert(crate::limits::verdict_texts(step@) =~= step_texts);
    require_dispatches(Family::Stack, &step)?;
    require_stack_sizes(limits, &plans.kv, &plans.stack, &plans.resources)?;
    require_split(limits, &plans.kv)?;
    if plans.prefill_capable {
        require_prefill(limits, &plans.kv, &verdicts.prefill)?;
    }
    match &plans.lm_head {
        Some(plan) => require_logits(limits, &plans.resources, plan, &verdicts.logits),
        None => Ok(()),
    }
}

} // verus!
