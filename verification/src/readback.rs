//! What an operation reads back from the device once its commands are done.

use crate::family::Family;
use crate::gpu::{BufferPlan, BufferUsage, CommandModel};
use crate::kv::{KvPlan, KvStepPlan, KV_ATTENTION_READBACK, KV_FINISH_READBACK};
use crate::layer::{
    AttentionPlan, LayerSizes, LAYER_FINISH_KEY_READBACK, LAYER_FINISH_VALUE_READBACK,
    LAYER_LAYER_READBACK,
};
use crate::lifecycle::Operation;
use crate::sizes::checked_u64_bytes;
use crate::stack_encode::Readout;
use crate::stack_plan::{
    compact_cache_bytes, PrefillPlan, StackPlans, StackSizes, TOP1_RESULT_BYTES,
};
use crate::stack_resources::{
    STACK_FINISH_KEY_READBACK, STACK_FINISH_VALUE_READBACK, STACK_LOGITS_READBACK,
    STACK_STACK_READBACK, STACK_TOP1_READBACK,
};
use vstd::prelude::*;

verus! {

/// A readback to map: its first bytes are read.
#[derive(Clone, Copy, Debug, PartialEq, Eq, Structural)]
pub struct Readback {
    /// The place of the buffer.
    pub buffer: usize,
    pub bytes: u64,
}

/// Readbacks to map in order, or why there are none, as plain data.
pub open spec fn readbacks_said(readbacks: Result<Vec<Readback>, String>) -> Result<
    Seq<Readback>,
    Seq<char>,
> {
    match readbacks {
        Ok(found) => Ok(found@),
        Err(message) => Err(message@),
    }
}

/// What an operation on a KV session reads back: a step its attention row, a finish both caches
/// at once.
pub open spec fn kv_readbacks(plan: KvPlan, operation: Operation) -> Result<
    Seq<Readback>,
    Seq<char>,
> {
    match operation {
        Operation::Step => Ok(
            seq![Readback { buffer: KV_ATTENTION_READBACK, bytes: plan.attention_bytes }],
        ),
        Operation::Finish => if plan.cache_bytes * 2 > u64::MAX {
            Err("decoder KV finish readback overflowed"@)
        } else {
            Ok(
                seq![
                    Readback { buffer: KV_FINISH_READBACK, bytes: (plan.cache_bytes * 2) as u64 },
                ],
            )
        },
        _ => Ok(Seq::empty()),
    }
}

/// What an operation on a KV session reads back.
pub fn plan_kv_readbacks(plan: &KvPlan, operation: Operation) -> (readbacks: Result<
    Vec<Readback>,
    String,
>)
    ensures
        readbacks_said(readbacks) == kv_readbacks(*plan, operation),
{
    let readbacks: Vec<Readback> = match operation {
        Operation::Step => vec![
            Readback { buffer: KV_ATTENTION_READBACK, bytes: plan.attention_bytes },
        ],
        Operation::Finish => match plan.cache_bytes.checked_mul(2) {
            Some(bytes) => vec![Readback { buffer: KV_FINISH_READBACK, bytes }],
            None => {
                return Err("decoder KV finish readback overflowed".to_owned());
            },
        },
        _ => Vec::new(),
    };
    assert(readbacks@ =~= kv_readbacks(*plan, operation)->Ok_0);
    Ok(readbacks)
}

/// What an operation on a layer session reads back: a step its hidden row, a finish each cache.
pub open spec fn layer_readbacks(kv_plan: KvPlan, plan: AttentionPlan, operation: Operation) -> Seq<
    Readback,
> {
    match operation {
        Operation::Step => seq![
            Readback { buffer: LAYER_LAYER_READBACK, bytes: (plan.hidden_size * 4) as u64 },
        ],
        Operation::Finish => seq![
            Readback { buffer: LAYER_FINISH_KEY_READBACK, bytes: kv_plan.cache_bytes },
            Readback { buffer: LAYER_FINISH_VALUE_READBACK, bytes: kv_plan.cache_bytes },
        ],
        _ => Seq::empty(),
    }
}

/// What an operation on a layer session reads back.
pub fn plan_layer_readbacks(
    kv_plan: &KvPlan,
    plan: &AttentionPlan,
    operation: Operation,
) -> (readbacks: Result<Vec<Readback>, String>)
    ensures
        readbacks_said(readbacks) == Ok::<Seq<Readback>, Seq<char>>(
            layer_readbacks(*kv_plan, *plan, operation),
        ),
{
    let readbacks: Vec<Readback> = match operation {
        Operation::Step => {
            let bytes: u64 = checked_u64_bytes(plan.hidden_size as usize, "decoder hidden row")?;
            vec![Readback { buffer: LAYER_LAYER_READBACK, bytes }]
        },
        Operation::Finish => vec![
            Readback { buffer: LAYER_FINISH_KEY_READBACK, bytes: kv_plan.cache_bytes },
            Readback { buffer: LAYER_FINISH_VALUE_READBACK, bytes: kv_plan.cache_bytes },
        ],
        _ => Vec::new(),
    };
    assert(readbacks@ =~= layer_readbacks(*kv_plan, *plan, operation));
    Ok(readbacks)
}

/// What an operation on a stack session reads back: a step and a prefill one hidden row, a
/// readout the logits, a token selection its result, a finish each cache.
pub open spec fn stack_readbacks(plans: StackPlans, operation: Operation) -> Result<
    Seq<Readback>,
    Seq<char>,
> {
    let cache_bytes = plans.stack.layers * plans.stack.cache_stride_bytes;
    match operation {
        Operation::Begin => Ok(Seq::empty()),
        Operation::Step | Operation::Prefill => Ok(
            seq![
                Readback {
                    buffer: STACK_STACK_READBACK,
                    bytes: plans.stack.hidden_stride_bytes,
                },
            ],
        ),
        Operation::Logits => match plans.lm_head {
            Some(plan) => Ok(
                seq![Readback { buffer: STACK_LOGITS_READBACK, bytes: plan.logits_bytes }],
            ),
            None => Err("decoder stack session does not admit the logits operation"@),
        },
        Operation::Top1 => Ok(
            seq![Readback { buffer: STACK_TOP1_READBACK, bytes: TOP1_RESULT_BYTES }],
        ),
        Operation::Finish => if cache_bytes > u64::MAX {
            Err("decoder stack compact cache byte size overflowed"@)
        } else {
            Ok(
                seq![
                    Readback { buffer: STACK_FINISH_KEY_READBACK, bytes: cache_bytes as u64 },
                    Readback { buffer: STACK_FINISH_VALUE_READBACK, bytes: cache_bytes as u64 },
                ],
            )
        },
    }
}

/// What an operation on a stack session reads back.
pub fn plan_stack_readbacks(plans: &StackPlans, operation: Operation) -> (readbacks: Result<
    Vec<Readback>,
    String,
>)
    ensures
        readbacks_said(readbacks) == stack_readbacks(*plans, operation),
{
    let readbacks: Vec<Readback> = match operation {
        Operation::Begin => Vec::new(),
        Operation::Step | Operation::Prefill => vec![
            Readback { buffer: STACK_STACK_READBACK, bytes: plans.stack.hidden_stride_bytes },
        ],
        Operation::Logits => match &plans.lm_head {
            Some(plan) => vec![
                Readback { buffer: STACK_LOGITS_READBACK, bytes: plan.logits_bytes },
            ],
            None => {
                return Err("decoder stack session does not admit the logits operation".to_owned());
            },
        },
        Operation::Top1 => vec![
            Readback { buffer: STACK_TOP1_READBACK, bytes: TOP1_RESULT_BYTES },
        ],
        Operation::Finish => {
            let bytes: u64 = compact_cache_bytes(&plans.stack)?;
            vec![
                Readback { buffer: STACK_FINISH_KEY_READBACK, bytes },
                Readback { buffer: STACK_FINISH_VALUE_READBACK, bytes },
            ]
        },
    };
    assert(readbacks@ =~= stack_readbacks(*plans, operation)->Ok_0);
    Ok(readbacks)
}

/// Whether an operation is one of a family.
pub open spec fn offers(family: Family, operation: Operation) -> bool {
    match operation {
        Operation::Begin => false,
        Operation::Step | Operation::Finish => true,
        _ => family == Family::Stack,
    }
}

/// Every operation of a family reads back as many buffers as its course maps.
pub proof fn law_readbacks_are_counted(
    kv_plan: KvPlan,
    plan: AttentionPlan,
    plans: StackPlans,
    operation: Operation,
)
    ensures
        offers(Family::Kv, operation) ==> (kv_readbacks(kv_plan, operation) matches Ok(list)
            ==> list.len() == crate::lifecycle::readbacks(Family::Kv, operation)),
        offers(Family::Layer, operation) ==> layer_readbacks(kv_plan, plan, operation).len()
            == crate::lifecycle::readbacks(Family::Layer, operation),
        offers(Family::Stack, operation) ==> (stack_readbacks(plans, operation) matches Ok(list)
            ==> list.len() == crate::lifecycle::readbacks(Family::Stack, operation)),
{
}

/// Whether a readback is a whole buffer that can be mapped.
pub open spec fn whole_buffer(readback: Readback, buffers: Seq<BufferPlan>) -> bool {
    &&& readback.buffer < buffers.len()
    &&& buffers[readback.buffer as int].size == readback.bytes
    &&& buffers[readback.buffer as int].usage == BufferUsage::Readback
}

/// Whether a command fills a readback with a number of bytes from an offset on.
pub open spec fn fills(
    command: CommandModel,
    readback: Readback,
    offset: int,
    bytes: int,
) -> bool {
    match command {
        CommandModel::Pass { .. } => false,
        CommandModel::Copy { destination, destination_offset, bytes: copied, .. } => {
            &&& destination == readback.buffer
            &&& destination_offset == offset
            &&& copied == bytes
        },
    }
}

/// Whether the last commands fill readbacks, one after the other.
pub open spec fn last_commands_fill(
    commands: Seq<CommandModel>,
    readbacks: Seq<Readback>,
) -> bool {
    &&& readbacks.len() <= commands.len()
    &&& forall|i: int|
        0 <= i < readbacks.len() ==> fills(
            commands[commands.len() - readbacks.len() + i],
            #[trigger] readbacks[i],
            0,
            readbacks[i].bytes as int,
        )
}

/// What a KV session reads back is what its commands copied out: the attention row of a step,
/// and of a finish the keys and then the values.
pub proof fn law_kv_readbacks_are_filled(plan: KvPlan, step: KvStepPlan)
    ensures
        ({
            let row = kv_readbacks(plan, Operation::Step)->Ok_0;
            &&& whole_buffer(row[0], crate::kv::kv_all_buffers(plan))
            &&& last_commands_fill(crate::kv::kv_step_commands(plan, step), row)
        }),
        kv_readbacks(plan, Operation::Finish) matches Ok(caches) ==> {
            let commands = crate::kv::kv_finish_commands(plan);
            &&& whole_buffer(caches[0], crate::kv::kv_all_buffers(plan))
            &&& caches[0].bytes == 2 * plan.cache_bytes
            &&& fills(commands[0], caches[0], 0, plan.cache_bytes as int)
            &&& fills(
                commands[1],
                caches[0],
                plan.cache_bytes as int,
                plan.cache_bytes as int,
            )
        },
{
}

/// What a layer session reads back is what its commands copied out last.
pub proof fn law_layer_readbacks_are_filled(kv_plan: KvPlan, plan: AttentionPlan, sizes: LayerSizes)
    requires
        sizes.hidden == plan.hidden_size * 4,
    ensures
        ({
            let row = layer_readbacks(kv_plan, plan, Operation::Step);
            let caches = layer_readbacks(kv_plan, plan, Operation::Finish);
            let buffers = crate::layer::layer_all_buffers(kv_plan, sizes);
            &&& whole_buffer(row[0], buffers)
            &&& last_commands_fill(
                crate::layer::layer_step_commands(kv_plan, plan, sizes.hidden),
                row,
            )
            &&& whole_buffer(caches[0], buffers)
            &&& whole_buffer(caches[1], buffers)
            &&& last_commands_fill(crate::layer::layer_finish_commands(kv_plan), caches)
        }),
{
}

/// What a stack session reads back after a step, a prefill and a finish is what its commands
/// copied out last.
pub proof fn law_stack_readbacks_are_filled(
    plans: StackPlans,
    sizes: StackSizes,
    transition: KvStepPlan,
    prefill: PrefillPlan,
)
    requires
        crate::stack_plan::stack_sizes_outcome(plans.kv, plans.stack) == Ok::<
            StackSizes,
            Seq<char>,
        >(sizes),
        prefill.hidden_stride_bytes == plans.stack.hidden_stride_bytes,
    ensures
        ({
            let logits = crate::stack_resources::logits_sizes(plans.resources, plans.lm_head);
            let buffers = crate::stack_laws::placed_buffers(plans, sizes, logits);
            let row = stack_readbacks(plans, Operation::Step)->Ok_0;
            let caches = stack_readbacks(plans, Operation::Finish)->Ok_0;
            let stepped = crate::stack_encode::stack_step_outcome(plans, transition);
            let prefilled = crate::stack_encode::stack_prefill_outcome(
                plans.resources,
                plans.prefill_capable,
                prefill,
            );
            &&& whole_buffer(row[0], buffers)
            &&& stepped matches Ok(commands) ==> last_commands_fill(commands, row)
            &&& prefilled matches Ok(commands) ==> last_commands_fill(commands, row)
            &&& stack_readbacks(plans, Operation::Finish) is Ok
            &&& whole_buffer(caches[0], buffers)
            &&& whole_buffer(caches[1], buffers)
            &&& last_commands_fill(crate::stack_encode::stack_finish_commands(sizes.cache), caches)
        }),
{
}

/// What a stack session reads back after a readout of logits and after a token selection is
/// what its commands copied out last.
pub proof fn law_readout_readbacks_are_filled(
    plans: StackPlans,
    sizes: StackSizes,
    readout: Readout,
)
    requires
        plans.lm_head is Some,
    ensures
        ({
            let logits = crate::stack_resources::logits_sizes(plans.resources, plans.lm_head);
            let buffers = crate::stack_laws::placed_buffers(plans, sizes, logits);
            let row = stack_readbacks(plans, Operation::Logits)->Ok_0;
            let token = stack_readbacks(plans, Operation::Top1)->Ok_0;
            let read = crate::stack_encode::logits_commands(
                plans.resources,
                plans.lm_head,
                readout,
            );
            let selected = crate::stack_encode::top1_commands(
                plans.resources,
                plans.lm_head,
                readout,
            );
            &&& whole_buffer(row[0], buffers)
            &&& read matches Ok(commands) ==> last_commands_fill(commands, row)
            &&& whole_buffer(token[0], buffers)
            &&& selected matches Ok(commands) ==> last_commands_fill(commands, token)
        }),
{
}

} // verus!
