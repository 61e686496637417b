//! Laws of the reports: what they count is what was asked of the device.

use crate::gpu::{CommandModel, WriteModel};
use crate::json::JsonTree;
use crate::kv::{KvPlan, KvStepPlan};
use crate::layer::{AttentionPlan, AttentionStepPlan, LayerSizes};
use crate::layer_report::LayerShaderDigests;
use crate::stack_encode::Readout;
use crate::stack_plan::{
    LmHeadPlan, PrefillPlan, StackPlans, StackSizes, StackStepPlan, WeightResourcePlan,
    PREFILL_ROW_BYTES, TOP1_RESULT_BYTES,
};
use crate::stack_report::CreationFacts;
use crate::stack_sources::{PrefillShaderDigests, StackShaderDigests};
use vstd::prelude::*;

verus! {

/// Whether a report gives a number under a name.
pub open spec fn reports(tree: JsonTree, name: Seq<char>, number: int) -> bool {
    match tree {
        JsonTree::Object(members) => {
            &&& members.contains_key(name)
            &&& members[name] == crate::json::integer_tree(number as u64)
            &&& 0 <= number <= u64::MAX
        },
        _ => false,
    }
}

/// Whether commands are passes and, behind them, a number of copies.
pub open spec fn passes_then_copies(
    commands: Seq<CommandModel>,
    passes: int,
    copies: int,
) -> bool {
    &&& commands.len() == passes + copies
    &&& forall|i: int| 0 <= i < passes ==> (#[trigger] commands[i]) is Pass
    &&& forall|i: int| passes <= i < commands.len() ==> (#[trigger] commands[i]) is Copy
}

/// Whether a report counts queue writes and commands: passes, and copies behind them.
pub open spec fn counts_work(
    tree: JsonTree,
    writes: Seq<WriteModel>,
    commands: Seq<CommandModel>,
    passes: int,
    copies: int,
) -> bool {
    &&& passes_then_copies(commands, passes, copies)
    &&& reports(tree, "queue_write_count"@, writes.len() as int)
    &&& reports(tree, "compute_pass_count"@, passes)
    &&& reports(tree, "dispatch_count"@, passes)
    &&& reports(tree, "copy_count"@, copies)
}

/// Whether a report lists as many effects as there were queue writes and commands, one
/// submission and one mapping.
pub open spec fn lists_effects(
    tree: JsonTree,
    writes: Seq<WriteModel>,
    commands: Seq<CommandModel>,
) -> bool {
    match tree {
        JsonTree::Object(members) => members.contains_key("effects"@) && match members["effects"@] {
            JsonTree::Array(effects) => effects.len() == writes.len() + commands.len() + 2,
            _ => false,
        },
        _ => false,
    }
}

proof fn lemma_count_names()
    ensures
        "queue_write_count"@.len() == 17,
        "command_encoder_count"@.len() == 21,
        "compute_pass_count"@.len() == 18,
        "dispatch_count"@.len() == 14,
        "copy_count"@.len() == 10,
        "command_buffer_count"@.len() == 20,
        "submission_count"@.len() == 16,
        "map_count"@.len() == 9,
        "readback_bytes"@.len() == 14,
        "readback_bytes"@ != "dispatch_count"@,
        "effects"@.len() == 7,
        "full_logits_readback_elided"@.len() == 27,
{
    reveal_strlit("queue_write_count");
    reveal_strlit("command_encoder_count");
    reveal_strlit("compute_pass_count");
    reveal_strlit("dispatch_count");
    reveal_strlit("copy_count");
    reveal_strlit("command_buffer_count");
    reveal_strlit("submission_count");
    reveal_strlit("map_count");
    reveal_strlit("readback_bytes");
    reveal_strlit("effects");
    reveal_strlit("full_logits_readback_elided");
    assert("readback_bytes"@[0] != "dispatch_count"@[0]);
}

proof fn lemma_creation_names()
    ensures
        "buffer_count"@.len() == 12,
        "pipeline_count"@.len() == 14,
        "bind_group_count"@.len() == 16,
        "initial_upload_count"@.len() == 20,
        "initial_cache_write_count"@.len() == 25,
        "logits_capable"@.len() == 14,
        "logits_capable"@ != "pipeline_count"@,
{
    reveal_strlit("buffer_count");
    reveal_strlit("pipeline_count");
    reveal_strlit("bind_group_count");
    reveal_strlit("initial_upload_count");
    reveal_strlit("initial_cache_write_count");
    reveal_strlit("logits_capable");
    assert("logits_capable"@[0] != "pipeline_count"@[0]);
}

/// The report on a new KV session counts its buffers, its bind groups and the writes that fill
/// its caches.
pub proof fn law_kv_creation_report(
    plan: KvPlan,
    append: Seq<u8>,
    attention: Seq<u8>,
)
    ensures
        ({
            let tree = crate::kv_report::kv_creation_tree(plan, append, attention);
            &&& reports(tree, "buffer_count"@, crate::kv::kv_buffers(plan).len() as int)
            &&& reports(tree, "bind_group_count"@, crate::kv::kv_bind_groups(plan).len() as int)
            &&& reports(tree, "initial_cache_write_count"@, 2)
        }),
{
    lemma_creation_names();
}

/// The report on a step of a KV session counts its GPU work.
pub proof fn law_kv_step_report(
    plan: KvPlan,
    step: KvStepPlan,
    query: Seq<u8>,
    appended_key: Seq<u8>,
    appended_value: Seq<u8>,
    append: Seq<u8>,
    attention: Seq<u8>,
)
    ensures
        ({
            let tree = crate::kv_report::kv_step_tree(plan, step, append, attention);
            let writes = crate::kv::kv_step_writes(step, query, appended_key, appended_value);
            let commands = crate::kv::kv_step_commands(plan, step);
            &&& counts_work(tree, writes, commands, 2, 1)
            &&& lists_effects(tree, writes, commands)
            &&& reports(tree, "readback_bytes"@, commands[2]->bytes as int)
        }),
{
    lemma_count_names();
}

/// The report on a finish of a KV session counts its GPU work and all bytes that it copies.
pub proof fn law_kv_finish_report(plan: KvPlan)
    requires
        plan.cache_bytes * 2 <= u64::MAX,
    ensures
        ({
            let tree = crate::kv_report::kv_finish_tree(plan);
            let commands = crate::kv::kv_finish_commands(plan);
            &&& counts_work(tree, Seq::empty(), commands, 0, 2)
            &&& reports(
                tree,
                "readback_bytes"@,
                commands[0]->bytes + commands[1]->bytes,
            )
        }),
{
    lemma_count_names();
}

/// The report on a new layer session counts its buffers, its bind groups and its first writes.
pub proof fn law_layer_creation_report(
    kv_plan: KvPlan,
    plan: AttentionPlan,
    sizes: LayerSizes,
    digests: LayerShaderDigests,
    key_cache: Seq<u8>,
    value_cache: Seq<u8>,
    shards: Seq<Seq<u8>>,
)
    ensures
        ({
            let tree = crate::layer_report::layer_creation_tree(kv_plan, plan, digests);
            &&& reports(
                tree,
                "buffer_count"@,
                crate::layer::layer_buffers(kv_plan, sizes).len() as int,
            )
            &&& reports(
                tree,
                "bind_group_count"@,
                crate::layer::layer_bind_groups(kv_plan, sizes).len() as int,
            )
            &&& reports(
                tree,
                "initial_upload_count"@,
                crate::layer::layer_uploads(key_cache, value_cache, shards).len() as int,
            )
        }),
{
    lemma_creation_names();
}

/// The report on a step of a layer session counts its GPU work.
pub proof fn law_layer_step_report(
    kv_plan: KvPlan,
    plan: AttentionPlan,
    transition: KvStepPlan,
    step: AttentionStepPlan,
    hidden_row: Seq<u8>,
    digests: LayerShaderDigests,
)
    requires
        crate::layer::layer_sizes_outcome(plan) is Ok,
    ensures
        ({
            let tree = crate::layer_report::layer_step_tree(plan, transition, digests);
            let writes = crate::layer::layer_step_writes(transition, step, hidden_row);
            let commands = crate::layer::layer_step_commands(
                kv_plan,
                plan,
                (plan.hidden_size * 4) as u64,
            );
            &&& counts_work(tree, writes, commands, 9, 1)
            &&& lists_effects(tree, writes, commands)
            &&& reports(tree, "readback_bytes"@, commands[9]->bytes as int)
        }),
{
    lemma_count_names();
}

/// The report on a finish of a layer session counts its GPU work and all bytes that it copies.
pub proof fn law_layer_finish_report(kv_plan: KvPlan)
    requires
        kv_plan.cache_bytes * 2 <= u64::MAX,
    ensures
        ({
            let tree = crate::layer_report::layer_finish_tree(kv_plan);
            let commands = crate::layer::layer_finish_commands(kv_plan);
            &&& counts_work(tree, Seq::empty(), commands, 0, 2)
            &&& reports(
                tree,
                "readback_bytes"@,
                commands[0]->bytes + commands[1]->bytes,
            )
        }),
{
    lemma_count_names();
}

/// The report on a new stack session gives the counts of what it allocated and wrote.
pub proof fn law_stack_creation_report(
    plans: StackPlans,
    digests: StackShaderDigests,
    prefill: Option<PrefillShaderDigests>,
    facts: CreationFacts,
)
    ensures
        ({
            let tree = crate::stack_report::stack_creation_tree(
                plans.kv,
                plans.stack,
                digests,
                prefill,
                facts,
            );
            let counts = crate::stack_report::creation_counts(
                prefill is Some,
                facts.logits_capable,
                facts.resident_hit,
                facts.cache_uploaded,
            );
            &&& reports(tree, "buffer_count"@, counts.buffers as int)
            &&& reports(tree, "pipeline_count"@, counts.pipelines as int)
            &&& reports(tree, "bind_group_count"@, counts.bind_groups as int)
            &&& reports(tree, "initial_upload_count"@, counts.uploads as int)
        }),
{
    lemma_creation_names();
}

proof fn lemma_layered_length(
    made: Seq<Seq<char>>,
    stages: Seq<Seq<char>>,
    layer: int,
    layers: int,
)
    requires
        layer <= layers,
    ensures
        crate::stack_report::layered_from(made, stages, layer, layers).len() == made.len()
            + stages.len() * (layers - layer),
    decreases layers - layer,
{
    if layer < layers {
        lemma_layered_length(made + stages, stages, layer + 1, layers);
        assert(stages.len() + stages.len() * (layers - layer - 1) == stages.len() * (layers
            - layer)) by (nonlinear_arith);
    } else {
        assert(stages.len() * 0 == 0);
    }
}

proof fn lemma_shape(commands: Seq<CommandModel>, passes: int)
    requires
        commands.len() == passes + 1,
        crate::stack_laws::only_passes(commands.drop_last()),
        commands.last() is Copy,
    ensures
        passes_then_copies(commands, passes, 1),
{
    assert forall|i: int| 0 <= i < passes implies (#[trigger] commands[i]) is Pass by {
        assert(commands[i] == commands.drop_last()[i]);
    }
}

/// The report on a step of a stack session counts its GPU work.
pub proof fn law_stack_step_report(
    plans: StackPlans,
    sizes: StackSizes,
    transition: KvStepPlan,
    step: StackStepPlan,
    hidden_row: Seq<u8>,
    digests: StackShaderDigests,
    checkpoint: Option<Seq<u8>>,
)
    requires
        crate::stack_laws::well_placed(plans, sizes),
        hidden_row.len() == plans.stack.hidden_stride_bytes,
    ensures
        ({
            let tree = crate::stack_report::stack_step_tree(
                plans.stack,
                transition,
                digests,
                checkpoint,
            );
            let writes = crate::stack_encode::stack_step_writes(transition, step, hidden_row);
            let outcome = crate::stack_encode::stack_step_outcome(plans, transition);
            &&& outcome is Ok
            &&& counts_work(tree, writes, outcome->Ok_0, 16 * plans.stack.layers, 1)
            &&& lists_effects(tree, writes, outcome->Ok_0)
            &&& reports(tree, "readback_bytes"@, outcome->Ok_0.last()->bytes as int)
        }),
{
    lemma_count_names();
    crate::stack_laws::law_stack_step_fits(plans, sizes, transition, step, hidden_row);
    lemma_shape(
        crate::stack_encode::stack_step_outcome(plans, transition)->Ok_0,
        16 * plans.stack.layers,
    );
    lemma_layered_length(
        Seq::new(17, |i: int| "queue_write"@),
        crate::stack_report::step_stages(),
        0,
        plans.stack.layers as int,
    );
}

/// The report on a prefill counts its GPU work.
pub proof fn law_stack_prefill_report(
    plans: StackPlans,
    sizes: StackSizes,
    prefill: PrefillPlan,
    hidden_states: Seq<u8>,
    digests: StackShaderDigests,
    prefill_digests: PrefillShaderDigests,
)
    requires
        crate::stack_laws::well_placed(plans, sizes),
        crate::stack_laws::prefill_placed(plans, prefill),
        hidden_states.len() == prefill.tokens * PREFILL_ROW_BYTES,
    ensures
        ({
            let tree = crate::stack_report::stack_prefill_tree(prefill, digests, prefill_digests);
            let writes = crate::stack_encode::stack_prefill_writes(prefill, hidden_states);
            let outcome = crate::stack_encode::stack_prefill_outcome(
                plans.resources,
                true,
                prefill,
            );
            &&& outcome is Ok
            &&& counts_work(tree, writes, outcome->Ok_0, 15 * prefill.layers, 1)
            &&& lists_effects(tree, writes, outcome->Ok_0)
            &&& reports(tree, "readback_bytes"@, outcome->Ok_0.last()->bytes as int)
        }),
{
    lemma_count_names();
    crate::stack_laws::law_stack_prefill_fits(plans, sizes, prefill, hidden_states);
    lemma_shape(
        crate::stack_encode::stack_prefill_outcome(plans.resources, true, prefill)->Ok_0,
        15 * prefill.layers,
    );
    lemma_layered_length(
        Seq::new(16, |i: int| "queue_write"@),
        crate::stack_report::prefill_stages(),
        0,
        prefill.layers as int,
    );
}

/// The report on a finish of a stack session counts its GPU work and all bytes that it copies.
pub proof fn law_stack_finish_report(plans: StackPlans)
    requires
        crate::stack_report::stack_finish_complaint(plans.stack) is None,
    ensures
        ({
            let tree = crate::stack_report::stack_finish_tree(plans.stack);
            let commands = crate::stack_encode::stack_finish_commands(
                (plans.stack.layers * plans.stack.cache_stride_bytes) as u64,
            );
            &&& counts_work(tree, Seq::empty(), commands, 0, 2)
            &&& reports(
                tree,
                "readback_bytes"@,
                commands[0]->bytes + commands[1]->bytes,
            )
        }),
{
    lemma_count_names();
    assert(0 <= plans.stack.layers * plans.stack.cache_stride_bytes) by (nonlinear_arith);
}

/// The report on a readout of logits counts its GPU work; it writes nothing.
pub proof fn law_logits_report(
    resources: WeightResourcePlan,
    plan: LmHeadPlan,
    readout: Readout,
    cache_tokens: u32,
    digests: StackShaderDigests,
)
    requires
        crate::stack_encode::logits_commands(resources, Some(plan), readout) is Ok,
    ensures
        ({
            let tree = crate::stack_report::logits_tree(plan, cache_tokens, digests);
            let commands = crate::stack_encode::logits_commands(
                resources,
                Some(plan),
                readout,
            )->Ok_0;
            &&& counts_work(tree, Seq::empty(), commands, 2, 1)
            &&& lists_effects(tree, Seq::empty(), commands)
            &&& reports(tree, "readback_bytes"@, commands[2]->bytes as int)
        }),
{
    lemma_count_names();
}

/// The report on a token selection counts its GPU work; it writes nothing, and eight bytes
/// come back.
pub proof fn law_top1_report(
    resources: WeightResourcePlan,
    lm_head: Option<LmHeadPlan>,
    readout: Readout,
    cache_tokens: u32,
    digests: StackShaderDigests,
    top1_digest: Seq<u8>,
    queue_wall_time_ns: u64,
)
    requires
        crate::stack_encode::top1_commands(resources, lm_head, readout) is Ok,
    ensures
        ({
            let tree = crate::stack_report::top1_tree(
                cache_tokens,
                digests,
                top1_digest,
                queue_wall_time_ns,
            );
            let commands = crate::stack_encode::top1_commands(
                resources,
                lm_head,
                readout,
            )->Ok_0;
            &&& counts_work(tree, Seq::empty(), commands, 3, 1)
            &&& reports(tree, "readback_bytes"@, commands[3]->bytes as int)
            &&& commands[3]->bytes == TOP1_RESULT_BYTES
        }),
{
    lemma_count_names();
}

} // verus!
