//! Laws of the reports: what stands under a name is what the name says.

use crate::gpu::CommandModel;
use crate::json::JsonTree;
use crate::kv::{KvPlan, KvStepPlan, KV_APPEND, KV_ATTENTION, KV_ATTENTION_READBACK};
use crate::kv_report::KvSourcesModel;
use crate::layer::{
    AttentionPlan, LAYER_GROUP_APPEND, LAYER_GROUP_ATTENTION, LAYER_GROUP_GEMV_K,
    LAYER_GROUP_GEMV_O, LAYER_GROUP_GEMV_Q, LAYER_GROUP_GEMV_V, LAYER_GROUP_MROPE,
    LAYER_GROUP_RESIDUAL, LAYER_GROUP_RMS, LAYER_LAYER_READBACK,
};
use crate::layer_report::{LayerShaderDigests, LayerSourcesModel};
use crate::lifecycle::Operation;
use crate::readback::Readback;
use crate::stack_encode::Readout;
use crate::stack_plan::{
    LmHeadPlan, PrefillPlan, StackPlans, StackSizes, StackStepPlan, WeightResourcePlan,
};
use crate::stack_report::CreationFacts;
use crate::stack_resources::{
    GROUP_APPEND, GROUP_GEMV_DOWN, GROUP_GEMV_GATE, GROUP_GEMV_K, GROUP_GEMV_LOGITS, GROUP_GEMV_O,
    GROUP_GEMV_Q, GROUP_GEMV_UP, GROUP_GEMV_V, GROUP_MROPE, GROUP_PREFILL_DOWN,
    GROUP_PREFILL_GATE, GROUP_PREFILL_GQA, GROUP_PREFILL_KEY, GROUP_PREFILL_KV_APPEND_RANGE,
    GROUP_PREFILL_LOGITS_RMS, GROUP_PREFILL_MROPE, GROUP_PREFILL_OUTPUT, GROUP_PREFILL_QUERY,
    GROUP_PREFILL_RESIDUAL, GROUP_PREFILL_RESIDUAL2, GROUP_PREFILL_RMS1, GROUP_PREFILL_RMS2,
    GROUP_PREFILL_SWIGLU, GROUP_PREFILL_UP, GROUP_PREFILL_VALUE, GROUP_RESIDUAL, GROUP_RESIDUAL2,
    GROUP_RMS, GROUP_RMS2, GROUP_SPLIT_MERGE, GROUP_SPLIT_PARTIAL, GROUP_STEP_LOGITS_RMS,
    GROUP_SWIGLU, STACK_LOGITS_READBACK, STACK_STACK_READBACK,
};
use crate::stack_sources::{PrefillShaderDigests, StackShaderDigests};
use vstd::prelude::*;

verus! {

/// No two names of what is reported are the same.
pub proof fn lemma_report_names()
    ensures
        "schema_version"@.len() == 14,
        "initial_cache_tokens"@.len() == 20,
        "cache_capacity"@.len() == 14,
        "query_heads"@.len() == 11,
        "key_value_heads"@.len() == 15,
        "head_dim"@.len() == 8,
        "checked_error_scopes"@.len() == 20,
        "captured_errors"@.len() == 15,
        "shader_blake3"@.len() == 13,
        "buffer_count"@.len() == 12,
        "pipeline_count"@.len() == 14,
        "bind_group_count"@.len() == 16,
        "initial_cache_write_count"@.len() == 25,
        "initial_upload_count"@.len() == 20,
        "hidden_size"@.len() == 11,
        "layers"@.len() == 6,
        "logits_capable"@.len() == 14,
        "cache_tokens_before"@.len() == 19,
        "cache_tokens_after"@.len() == 18,
        "queue_write_count"@.len() == 17,
        "command_encoder_count"@.len() == 21,
        "compute_pass_count"@.len() == 18,
        "dispatch_count"@.len() == 14,
        "copy_count"@.len() == 10,
        "command_buffer_count"@.len() == 20,
        "submission_count"@.len() == 16,
        "map_count"@.len() == 9,
        "readback_bytes"@.len() == 14,
        "effects"@.len() == 7,
        "tokens"@.len() == 6,
        "cache_tokens"@.len() == 12,
        "checkpoint_blake3"@.len() == 17,
        "buffer_allocation_count"@.len() == 23,
        "queue_wall_time_ns"@.len() == 18,
        "full_logits_readback_elided"@.len() == 27,
        "schema_version"@ != "cache_capacity"@,
        "schema_version"@ != "pipeline_count"@,
        "schema_version"@ != "logits_capable"@,
        "schema_version"@ != "dispatch_count"@,
        "schema_version"@ != "readback_bytes"@,
        "initial_cache_tokens"@ != "checked_error_scopes"@,
        "initial_cache_tokens"@ != "initial_upload_count"@,
        "initial_cache_tokens"@ != "command_buffer_count"@,
        "cache_capacity"@ != "pipeline_count"@,
        "cache_capacity"@ != "logits_capable"@,
        "cache_capacity"@ != "dispatch_count"@,
        "cache_capacity"@ != "readback_bytes"@,
        "query_heads"@ != "hidden_size"@,
        "key_value_heads"@ != "captured_errors"@,
        "checked_error_scopes"@ != "initial_upload_count"@,
        "checked_error_scopes"@ != "command_buffer_count"@,
        "buffer_count"@ != "cache_tokens"@,
        "pipeline_count"@ != "logits_capable"@,
        "pipeline_count"@ != "dispatch_count"@,
        "pipeline_count"@ != "readback_bytes"@,
        "bind_group_count"@ != "submission_count"@,
        "initial_upload_count"@ != "command_buffer_count"@,
        "layers"@ != "tokens"@,
        "logits_capable"@ != "dispatch_count"@,
        "logits_capable"@ != "readback_bytes"@,
        "cache_tokens_after"@ != "compute_pass_count"@,
        "cache_tokens_after"@ != "queue_wall_time_ns"@,
        "queue_write_count"@ != "checkpoint_blake3"@,
        "compute_pass_count"@ != "queue_wall_time_ns"@,
        "dispatch_count"@ != "readback_bytes"@,
{
    reveal_strlit("schema_version");
    reveal_strlit("initial_cache_tokens");
    reveal_strlit("cache_capacity");
    reveal_strlit("query_heads");
    reveal_strlit("key_value_heads");
    reveal_strlit("head_dim");
    reveal_strlit("checked_error_scopes");
    reveal_strlit("captured_errors");
    reveal_strlit("shader_blake3");
    reveal_strlit("buffer_count");
    reveal_strlit("pipeline_count");
    reveal_strlit("bind_group_count");
    reveal_strlit("initial_cache_write_count");
    reveal_strlit("initial_upload_count");
    reveal_strlit("hidden_size");
    reveal_strlit("layers");
    reveal_strlit("logits_capable");
    reveal_strlit("cache_tokens_before");
    reveal_strlit("cache_tokens_after");
    reveal_strlit("queue_write_count");
    reveal_strlit("command_encoder_count");
    reveal_strlit("compute_pass_count");
    reveal_strlit("dispatch_count");
    reveal_strlit("copy_count");
    reveal_strlit("command_buffer_count");
    reveal_strlit("submission_count");
    reveal_strlit("map_count");
    reveal_strlit("readback_bytes");
    reveal_strlit("effects");
    reveal_strlit("tokens");
    reveal_strlit("cache_tokens");
    reveal_strlit("checkpoint_blake3");
    reveal_strlit("buffer_allocation_count");
    reveal_strlit("queue_wall_time_ns");
    reveal_strlit("full_logits_readback_elided");
    assert("schema_version"@[0] != "cache_capacity"@[0]);
    assert("schema_version"@[0] != "pipeline_count"@[0]);
    assert("schema_version"@[0] != "logits_capable"@[0]);
    assert("schema_version"@[0] != "dispatch_count"@[0]);
    assert("schema_version"@[0] != "readback_bytes"@[0]);
    assert("initial_cache_tokens"@[0] != "checked_error_scopes"@[0]);
    assert("initial_cache_tokens"@[8] != "initial_upload_count"@[8]);
    assert("initial_cache_tokens"@[0] != "command_buffer_count"@[0]);
    assert("cache_capacity"@[0] != "pipeline_count"@[0]);
    assert("cache_capacity"@[0] != "logits_capable"@[0]);
    assert("cache_capacity"@[0] != "dispatch_count"@[0]);
    assert("cache_capacity"@[0] != "readback_bytes"@[0]);
    assert("query_heads"@[0] != "hidden_size"@[0]);
    assert("key_value_heads"@[0] != "captured_errors"@[0]);
    assert("checked_error_scopes"@[0] != "initial_upload_count"@[0]);
    assert("checked_error_scopes"@[1] != "command_buffer_count"@[1]);
    assert("buffer_count"@[0] != "cache_tokens"@[0]);
    assert("pipeline_count"@[0] != "logits_capable"@[0]);
    assert("pipeline_count"@[0] != "dispatch_count"@[0]);
    assert("pipeline_count"@[0] != "readback_bytes"@[0]);
    assert("bind_group_count"@[0] != "submission_count"@[0]);
    assert("initial_upload_count"@[0] != "command_buffer_count"@[0]);
    assert("layers"@[0] != "tokens"@[0]);
    assert("logits_capable"@[0] != "dispatch_count"@[0]);
    assert("logits_capable"@[0] != "readback_bytes"@[0]);
    assert("cache_tokens_after"@[1] != "compute_pass_count"@[1]);
    assert("cache_tokens_after"@[0] != "queue_wall_time_ns"@[0]);
    assert("queue_write_count"@[0] != "checkpoint_blake3"@[0]);
    assert("compute_pass_count"@[0] != "queue_wall_time_ns"@[0]);
    assert("dispatch_count"@[0] != "readback_bytes"@[0]);
}

/// Whether a report gives a value under a name.
pub open spec fn gives(tree: JsonTree, name: Seq<char>, value: JsonTree) -> bool {
    tree matches JsonTree::Object(members) && members.contains_key(name) && members[name] == value
}

/// All bytes of readbacks.
pub open spec fn total_bytes(readbacks: Seq<Readback>) -> int
    decreases readbacks.len(),
{
    if readbacks.len() == 0 {
        0
    } else {
        readbacks.first().bytes + total_bytes(readbacks.skip(1))
    }
}

/// Whether a report is of the first schema, and none of the three error scopes, which it lists,
/// captured an error.
pub open spec fn reports_clean_scopes(tree: JsonTree) -> bool {
    &&& crate::report_laws::reports(tree, "schema_version"@, 1)
    &&& gives(tree, "captured_errors"@, JsonTree::Array(Seq::empty()))
    &&& gives(
        tree,
        "checked_error_scopes"@,
        JsonTree::Array(
            seq![
                JsonTree::Text("validation"@),
                JsonTree::Text("out_of_memory"@),
                JsonTree::Text("internal"@),
            ],
        ),
    )
}

/// Whether a report is of one submission, behind which readbacks are mapped.
pub open spec fn reports_submission(tree: JsonTree, readbacks: Seq<Readback>) -> bool {
    &&& reports_clean_scopes(tree)
    &&& crate::report_laws::reports(tree, "command_encoder_count"@, 1)
    &&& crate::report_laws::reports(tree, "command_buffer_count"@, 1)
    &&& crate::report_laws::reports(tree, "submission_count"@, 1)
    &&& crate::report_laws::reports(tree, "map_count"@, readbacks.len() as int)
    &&& crate::report_laws::reports(tree, "readback_bytes"@, total_bytes(readbacks))
}

/// The reports of a key/value cache session give the facts of its plan and of the step under
/// their names, and say how much was mapped.
pub proof fn law_kv_reports_give_their_facts(
    plan: KvPlan,
    step: KvStepPlan,
    sources: KvSourcesModel,
    append: Seq<u8>,
    attention: Seq<u8>,
)
    ensures
        ({
            let tree = crate::kv_report::kv_creation_tree(plan, append, attention);
            &&& reports_clean_scopes(tree)
            &&& crate::report_laws::reports(
                tree,
                "initial_cache_tokens"@,
                plan.initial_cache_tokens as int,
            )
            &&& crate::report_laws::reports(tree, "cache_capacity"@, plan.cache_capacity as int)
            &&& crate::report_laws::reports(tree, "query_heads"@, plan.query_heads as int)
            &&& crate::report_laws::reports(tree, "key_value_heads"@, plan.key_value_heads as int)
            &&& crate::report_laws::reports(tree, "head_dim"@, plan.head_dim as int)
            &&& crate::report_laws::reports(
                tree,
                "pipeline_count"@,
                crate::kv::kv_pipelines(sources).len() as int,
            )
            &&& gives(
                tree,
                "shader_blake3"@,
                crate::kv_report::kv_digests_tree(append, attention),
            )
        }),
        ({
            let tree = crate::kv_report::kv_step_tree(plan, step, append, attention);
            &&& reports_submission(tree, crate::readback::kv_readbacks(plan, Operation::Step)->Ok_0)
            &&& crate::report_laws::reports(
                tree,
                "cache_tokens_before"@,
                step.cache_tokens_before as int,
            )
            &&& crate::report_laws::reports(
                tree,
                "cache_tokens_after"@,
                step.cache_tokens_after as int,
            )
            &&& gives(
                tree,
                "shader_blake3"@,
                crate::kv_report::kv_digests_tree(append, attention),
            )
        }),
        crate::readback::kv_readbacks(plan, Operation::Finish) matches Ok(readbacks) ==> ({
            let tree = crate::kv_report::kv_finish_tree(plan);
            &&& reports_submission(tree, readbacks)
            &&& crate::report_laws::reports(
                tree,
                "buffer_allocation_count"@,
                crate::kv::kv_finish_buffers(plan).len() as int,
            )
        }),
{
    lemma_report_names();
    reveal_with_fuel(total_bytes, 3);
}

/// The reports of an attention-block session give the facts of its plans and of the step under
/// their names, and say how much was mapped.
pub proof fn law_layer_reports_give_their_facts(
    kv_plan: KvPlan,
    plan: AttentionPlan,
    step: KvStepPlan,
    sources: LayerSourcesModel,
    digests: LayerShaderDigests,
)
    ensures
        ({
            let tree = crate::layer_report::layer_creation_tree(kv_plan, plan, digests);
            &&& reports_clean_scopes(tree)
            &&& crate::report_laws::reports(
                tree,
                "initial_cache_tokens"@,
                kv_plan.initial_cache_tokens as int,
            )
            &&& crate::report_laws::reports(tree, "cache_capacity"@, kv_plan.cache_capacity as int)
            &&& crate::report_laws::reports(tree, "hidden_size"@, plan.hidden_size as int)
            &&& crate::report_laws::reports(tree, "query_heads"@, kv_plan.query_heads as int)
            &&& crate::report_laws::reports(
                tree,
                "key_value_heads"@,
                kv_plan.key_value_heads as int,
            )
            &&& crate::report_laws::reports(tree, "head_dim"@, kv_plan.head_dim as int)
            &&& crate::report_laws::reports(
                tree,
                "pipeline_count"@,
                crate::layer::layer_pipelines(sources).len() as int,
            )
            &&& gives(tree, "shader_blake3"@, crate::layer_report::layer_digests_tree(digests))
        }),
        ({
            let tree = crate::layer_report::layer_step_tree(plan, step, digests);
            &&& reports_submission(
                tree,
                crate::readback::layer_readbacks(kv_plan, plan, Operation::Step),
            )
            &&& crate::report_laws::reports(
                tree,
                "cache_tokens_before"@,
                step.cache_tokens_before as int,
            )
            &&& crate::report_laws::reports(
                tree,
                "cache_tokens_after"@,
                step.cache_tokens_after as int,
            )
            &&& gives(tree, "shader_blake3"@, crate::layer_report::layer_digests_tree(digests))
        }),
        kv_plan.cache_bytes * 2 <= u64::MAX ==> ({
            let tree = crate::layer_report::layer_finish_tree(kv_plan);
            &&& reports_submission(
                tree,
                crate::readback::layer_readbacks(kv_plan, plan, Operation::Finish),
            )
            &&& crate::report_laws::reports(
                tree,
                "buffer_allocation_count"@,
                crate::layer::layer_finish_buffers(kv_plan).len() as int,
            )
        }),
{
    lemma_report_names();
    reveal_with_fuel(total_bytes, 3);
}

/// The report on a new stack session gives the facts of its plans under their names. A session
/// that is to prefill starts with empty caches.
pub proof fn law_stack_creation_report_gives_its_facts(
    plans: StackPlans,
    digests: StackShaderDigests,
    prefill: Option<PrefillShaderDigests>,
    facts: CreationFacts,
)
    ensures
        ({
            let tree = crate::stack_report::stack_creation_tree(
                plans.kv,
                plans.stack,
                digests,
                prefill,
                facts,
            );
            &&& reports_clean_scopes(tree)
            &&& crate::report_laws::reports(
                tree,
                "initial_cache_tokens"@,
                if prefill is Some {
                    0
                } else {
                    plans.kv.initial_cache_tokens as int
                },
            )
            &&& crate::report_laws::reports(tree, "cache_capacity"@, plans.kv.cache_capacity as int)
            &&& crate::report_laws::reports(tree, "layers"@, plans.stack.layers as int)
            &&& crate::report_laws::reports(
                tree,
                "hidden_size"@,
                plans.stack.attention.hidden_size as int,
            )
            &&& crate::report_laws::reports(tree, "query_heads"@, plans.kv.query_heads as int)
            &&& crate::report_laws::reports(
                tree,
                "key_value_heads"@,
                plans.kv.key_value_heads as int,
            )
            &&& crate::report_laws::reports(tree, "head_dim"@, plans.kv.head_dim as int)
            &&& gives(
                tree,
                "shader_blake3"@,
                JsonTree::Object(crate::stack_report::shader_members(digests, prefill)),
            )
            &&& tree->Object_0.contains_key("logits_capable"@) == facts.logits_capable
            &&& facts.logits_capable ==> gives(tree, "logits_capable"@, JsonTree::Bool(true))
        }),
{
    lemma_report_names();
}

/// The reports on a step and on a prefill of a stack session give their facts under their names,
/// and say how much was mapped. A prefill starts with empty caches and leaves its tokens in them.
pub proof fn law_stack_work_reports_give_their_facts(
    plans: StackPlans,
    step: KvStepPlan,
    prefill: PrefillPlan,
    digests: StackShaderDigests,
    prefill_digests: PrefillShaderDigests,
    checkpoint: Option<Seq<u8>>,
)
    requires
        prefill.hidden_stride_bytes == plans.stack.hidden_stride_bytes,
    ensures
        ({
            let tree = crate::stack_report::stack_step_tree(
                plans.stack,
                step,
                digests,
                checkpoint,
            );
            &&& reports_submission(
                tree,
                crate::readback::stack_readbacks(plans, Operation::Step)->Ok_0,
            )
            &&& crate::report_laws::reports(
                tree,
                "cache_tokens_before"@,
                step.cache_tokens_before as int,
            )
            &&& crate::report_laws::reports(
                tree,
                "cache_tokens_after"@,
                step.cache_tokens_after as int,
            )
            &&& gives(
                tree,
                "shader_blake3"@,
                JsonTree::Object(crate::stack_report::shader_members(digests, None)),
            )
            &&& tree->Object_0.contains_key("checkpoint_blake3"@) == checkpoint is Some
            &&& checkpoint matches Some(digest) ==> gives(
                tree,
                "checkpoint_blake3"@,
                crate::diagnostics::digest_tree(digest),
            )
        }),
        ({
            let tree = crate::stack_report::stack_prefill_tree(prefill, digests, prefill_digests);
            &&& reports_submission(
                tree,
                crate::readback::stack_readbacks(plans, Operation::Prefill)->Ok_0,
            )
            &&& crate::report_laws::reports(tree, "tokens"@, prefill.tokens as int)
            &&& crate::report_laws::reports(tree, "cache_capacity"@, prefill.cache_capacity as int)
            &&& crate::report_laws::reports(tree, "cache_tokens_before"@, 0)
            &&& crate::report_laws::reports(tree, "cache_tokens_after"@, prefill.tokens as int)
            &&& gives(
                tree,
                "shader_blake3"@,
                JsonTree::Object(
                    crate::stack_report::shader_members(digests, Some(prefill_digests)),
                ),
            )
        }),
{
    lemma_report_names();
    reveal_with_fuel(total_bytes, 3);
}

/// The reports on the readouts and on the finish of a stack session give their facts under their
/// names, and say how much was mapped.
pub proof fn law_stack_readout_reports_give_their_facts(
    plans: StackPlans,
    sizes: StackSizes,
    cache_tokens: u32,
    digests: StackShaderDigests,
    top1_digest: Seq<u8>,
    queue_wall_time_ns: u64,
)
    ensures
        plans.lm_head matches Some(plan) ==> ({
            let tree = crate::stack_report::logits_tree(plan, cache_tokens, digests);
            &&& reports_submission(
                tree,
                crate::readback::stack_readbacks(plans, Operation::Logits)->Ok_0,
            )
            &&& crate::report_laws::reports(tree, "cache_tokens"@, cache_tokens as int)
            &&& gives(
                tree,
                "shader_blake3"@,
                JsonTree::Object(crate::stack_report::shader_members(digests, None)),
            )
        }),
        ({
            let tree = crate::stack_report::top1_tree(
                cache_tokens,
                digests,
                top1_digest,
                queue_wall_time_ns,
            );
            &&& reports_submission(
                tree,
                crate::readback::stack_readbacks(plans, Operation::Top1)->Ok_0,
            )
            &&& crate::report_laws::reports(tree, "cache_tokens"@, cache_tokens as int)
            &&& crate::report_laws::reports(tree, "queue_wall_time_ns"@, queue_wall_time_ns as int)
            &&& gives(tree, "full_logits_readback_elided"@, JsonTree::Bool(true))
        }),
        crate::stack_report::stack_finish_complaint(plans.stack) is None ==> ({
            let tree = crate::stack_report::stack_finish_tree(plans.stack);
            &&& reports_submission(
                tree,
                crate::readback::stack_readbacks(plans, Operation::Finish)->Ok_0,
            )
            &&& crate::report_laws::reports(
                tree,
                "buffer_allocation_count"@,
                crate::stack_resources::stack_finish_buffers(sizes).len() as int,
            )
        }),
{
    lemma_report_names();
    reveal_with_fuel(total_bytes, 3);
    assert(0 <= plans.stack.layers * plans.stack.cache_stride_bytes) by (nonlinear_arith);
}

/// What a command of a key/value cache session is called in a report.
pub open spec fn kv_effect(command: CommandModel) -> Seq<char> {
    match command {
        CommandModel::Pass { bind_group, .. } => if bind_group == KV_APPEND {
            "dispatch_append"@
        } else if bind_group == KV_ATTENTION {
            "dispatch_gqa"@
        } else {
            Seq::empty()
        },
        CommandModel::Copy { destination, .. } => if destination == KV_ATTENTION_READBACK {
            "copy_attention"@
        } else {
            Seq::empty()
        },
    }
}

/// What a command of an attention-block session is called in a report.
pub open spec fn layer_effect(command: CommandModel) -> Seq<char> {
    match command {
        CommandModel::Pass { bind_group, .. } => if bind_group == LAYER_GROUP_RMS {
            "dispatch_rms_norm"@
        } else if bind_group == LAYER_GROUP_GEMV_Q {
            "dispatch_query"@
        } else if bind_group == LAYER_GROUP_GEMV_K {
            "dispatch_key"@
        } else if bind_group == LAYER_GROUP_GEMV_V {
            "dispatch_value"@
        } else if bind_group == LAYER_GROUP_MROPE {
            "dispatch_mrope"@
        } else if bind_group == LAYER_GROUP_APPEND {
            "dispatch_append"@
        } else if bind_group == LAYER_GROUP_ATTENTION {
            "dispatch_gqa"@
        } else if bind_group == LAYER_GROUP_GEMV_O {
            "dispatch_output"@
        } else if bind_group == LAYER_GROUP_RESIDUAL {
            "dispatch_residual"@
        } else {
            Seq::empty()
        },
        CommandModel::Copy { destination, .. } => if destination == LAYER_LAYER_READBACK {
            "copy_residual"@
        } else {
            Seq::empty()
        },
    }
}

/// What a command of a stack session is called in a report.
pub open spec fn stack_effect(command: CommandModel) -> Seq<char> {
    match command {
        CommandModel::Pass { bind_group, .. } => if bind_group == GROUP_RMS || bind_group
            == GROUP_PREFILL_RMS1 {
            "dispatch_rms_norm"@
        } else if bind_group == GROUP_GEMV_Q || bind_group == GROUP_PREFILL_QUERY {
            "dispatch_query"@
        } else if bind_group == GROUP_GEMV_K || bind_group == GROUP_PREFILL_KEY {
            "dispatch_key"@
        } else if bind_group == GROUP_GEMV_V || bind_group == GROUP_PREFILL_VALUE {
            "dispatch_value"@
        } else if bind_group == GROUP_MROPE {
            "dispatch_mrope"@
        } else if bind_group == GROUP_PREFILL_MROPE {
            "dispatch_prefill_mrope"@
        } else if bind_group == GROUP_APPEND {
            "dispatch_append"@
        } else if bind_group == GROUP_PREFILL_KV_APPEND_RANGE {
            "dispatch_kv_append_range"@
        } else if bind_group == GROUP_SPLIT_PARTIAL {
            "dispatch_split_partial"@
        } else if bind_group == GROUP_SPLIT_MERGE {
            "dispatch_split_merge"@
        } else if bind_group == GROUP_PREFILL_GQA {
            "dispatch_prefill_gqa"@
        } else if bind_group == GROUP_GEMV_O || bind_group == GROUP_PREFILL_OUTPUT {
            "dispatch_output"@
        } else if bind_group == GROUP_RESIDUAL || bind_group == GROUP_PREFILL_RESIDUAL {
            "dispatch_residual"@
        } else if bind_group == GROUP_RMS2 || bind_group == GROUP_PREFILL_RMS2 {
            "dispatch_post_norm"@
        } else if bind_group == GROUP_GEMV_GATE || bind_group == GROUP_PREFILL_GATE {
            "dispatch_gate"@
        } else if bind_group == GROUP_GEMV_UP || bind_group == GROUP_PREFILL_UP {
            "dispatch_up"@
        } else if bind_group == GROUP_SWIGLU || bind_group == GROUP_PREFILL_SWIGLU {
            "dispatch_swiglu"@
        } else if bind_group == GROUP_GEMV_DOWN || bind_group == GROUP_PREFILL_DOWN {
            "dispatch_down"@
        } else if bind_group == GROUP_RESIDUAL2 || bind_group == GROUP_PREFILL_RESIDUAL2 {
            "dispatch_residual_2"@
        } else if bind_group == GROUP_STEP_LOGITS_RMS || bind_group == GROUP_PREFILL_LOGITS_RMS {
            "dispatch_final_rms_norm"@
        } else if bind_group == GROUP_GEMV_LOGITS {
            "dispatch_lm_head_gemv"@
        } else {
            Seq::empty()
        },
        CommandModel::Copy { destination, .. } => if destination == STACK_STACK_READBACK {
            "copy_stack_output"@
        } else if destination == STACK_LOGITS_READBACK {
            "copy_logits_output"@
        } else {
            Seq::empty()
        },
    }
}

/// Effects are listed in their order, each with its kind and its ordinal, counted from one.
pub proof fn law_effects_are_counted_from_one(kinds: Seq<Seq<char>>, place: int)
    requires
        0 <= place < kinds.len() < u64::MAX,
    ensures
        crate::diagnostics::effects_tree(kinds) matches JsonTree::Array(effects)
            && effects.len() == kinds.len() && crate::report_laws::reports(
            effects[place],
            "ordinal"@,
            place + 1,
        ) && gives(effects[place], "kind"@, JsonTree::Text(kinds[place])),
{
    reveal_strlit("ordinal");
    reveal_strlit("kind");
    assert("ordinal"@.len() == 7 && "kind"@.len() == 4);
    let effects = crate::diagnostics::effects_tree(kinds)->Array_0;
    assert(effects[place] == crate::diagnostics::effect_tree(kinds[place], place));
}

/// Whether kinds of effects name queue writes and, behind them, commands.
pub open spec fn kinds_name(
    kinds: Seq<Seq<char>>,
    writes: int,
    commands: Seq<CommandModel>,
    effect: spec_fn(CommandModel) -> Seq<char>,
) -> bool {
    &&& kinds.len() == writes + commands.len()
    &&& forall|i: int| 0 <= i < writes ==> (#[trigger] kinds[i]) == "queue_write"@
    &&& forall|i: int|
        writes <= i < kinds.len() ==> (#[trigger] kinds[i]) == effect(commands[i - writes])
}

/// Whether a report lists, counted from one, the queue writes, each command under what it is
/// called, the submission and the mapping.
pub open spec fn names_effects(
    tree: JsonTree,
    writes: int,
    commands: Seq<CommandModel>,
    effect: spec_fn(CommandModel) -> Seq<char>,
    mapped: Seq<char>,
) -> bool {
    exists|kinds: Seq<Seq<char>>| #[trigger]
        kinds_name(kinds, writes, commands, effect) && gives(
            tree,
            "effects"@,
            crate::diagnostics::effects_tree(kinds + seq!["submit"@, mapped]),
        )
}

/// The effects that a report on a step of a key/value cache session lists are its queue writes
/// and its commands, in their order.
pub proof fn law_kv_step_report_names_effects(
    plan: KvPlan,
    step: KvStepPlan,
    query: Seq<u8>,
    appended_key: Seq<u8>,
    appended_value: Seq<u8>,
    append: Seq<u8>,
    attention: Seq<u8>,
)
    ensures
        names_effects(
            crate::kv_report::kv_step_tree(plan, step, append, attention),
            crate::kv::kv_step_writes(step, query, appended_key, appended_value).len() as int,
            crate::kv::kv_step_commands(plan, step),
            |command: CommandModel| kv_effect(command),
            "map_attention"@,
        ),
{
    lemma_report_names();
    let kinds = crate::kv_report::kv_step_kinds();
    assert(kinds =~= kinds.take(8) + seq!["submit"@, "map_attention"@]);
    assert(kinds_name(
        kinds.take(8),
        5,
        crate::kv::kv_step_commands(plan, step),
        |command: CommandModel| kv_effect(command),
    ));
}

/// The effects that a report on a step of an attention-block session lists are its queue writes
/// and its commands, in their order.
pub proof fn law_layer_step_report_names_effects(
    kv_plan: KvPlan,
    plan: AttentionPlan,
    transition: KvStepPlan,
    step: crate::layer::AttentionStepPlan,
    hidden_row: Seq<u8>,
    hidden_bytes: u64,
    digests: LayerShaderDigests,
)
    ensures
        names_effects(
            crate::layer_report::layer_step_tree(plan, transition, digests),
            crate::layer::layer_step_writes(transition, step, hidden_row).len() as int,
            crate::layer::layer_step_commands(kv_plan, plan, hidden_bytes),
            |command: CommandModel| layer_effect(command),
            "map_residual"@,
        ),
{
    lemma_report_names();
    let kinds = crate::layer_report::layer_step_kinds();
    assert(kinds =~= kinds.take(20) + seq!["submit"@, "map_residual"@]);
    assert(kinds_name(
        kinds.take(20),
        10,
        crate::layer::layer_step_commands(kv_plan, plan, hidden_bytes),
        |command: CommandModel| layer_effect(command),
    ));
}

proof fn lemma_kinds_go_on(
    kinds: Seq<Seq<char>>,
    writes: int,
    commands: Seq<CommandModel>,
    more_kinds: Seq<Seq<char>>,
    more: Seq<CommandModel>,
)
    requires
        0 <= writes,
        kinds_name(kinds, writes, commands, |command: CommandModel| stack_effect(command)),
        kinds_name(more_kinds, 0, more, |command: CommandModel| stack_effect(command)),
    ensures
        kinds_name(
            kinds + more_kinds,
            writes,
            commands + more,
            |command: CommandModel| stack_effect(command),
        ),
{
    let effect = |command: CommandModel| stack_effect(command);
    let all = kinds + more_kinds;
    assert forall|i: int| writes <= i < all.len() implies (#[trigger] all[i]) == effect(
        (commands + more)[i - writes],
    ) by {
        if i < kinds.len() {
            assert(all[i] == kinds[i]);
        } else {
            assert(all[i] == more_kinds[i - kinds.len()]);
        }
    }
}

proof fn lemma_step_kinds(
    plans: StackPlans,
    transition: KvStepPlan,
    layer: int,
    made: Seq<CommandModel>,
    kinds: Seq<Seq<char>>,
    writes: int,
)
    requires
        0 <= writes,
        0 <= layer,
        kinds_name(kinds, writes, made, |command: CommandModel| stack_effect(command)),
        crate::stack_encode::step_commands_from(plans, transition, layer, made) is Ok,
    ensures
        kinds_name(
            crate::stack_report::layered_from(
                kinds,
                crate::stack_report::step_stages(),
                layer,
                plans.stack.layers as int,
            ),
            writes,
            crate::stack_encode::step_commands_from(plans, transition, layer, made)->Ok_0,
            |command: CommandModel| stack_effect(command),
        ),
    decreases plans.stack.layers - layer,
{
    if layer < plans.stack.layers {
        let offsets = crate::stack_encode::layer_offsets_outcome(
            plans.resources,
            plans.stack.hidden_stride_bytes,
            plans.stack.cache_stride_bytes,
            layer,
        )->Ok_0;
        let more = crate::stack_encode::step_layer_commands(plans, transition, offsets);
        let stages = crate::stack_report::step_stages();
        assert(kinds_name(stages, 0, more, |command: CommandModel| stack_effect(command)));
        lemma_kinds_go_on(kinds, writes, made, stages, more);
        lemma_step_kinds(plans, transition, layer + 1, made + more, kinds + stages, writes);
    }
}

/// The effects that a report on a step of a stack session lists are its queue writes and the
/// commands of all layers, in their order.
pub proof fn law_stack_step_report_names_effects(
    plans: StackPlans,
    transition: KvStepPlan,
    step: StackStepPlan,
    hidden_row: Seq<u8>,
    digests: StackShaderDigests,
    checkpoint: Option<Seq<u8>>,
)
    requires
        crate::stack_encode::stack_step_outcome(plans, transition) is Ok,
    ensures
        names_effects(
            crate::stack_report::stack_step_tree(plans.stack, transition, digests, checkpoint),
            crate::stack_encode::stack_step_writes(transition, step, hidden_row).len() as int,
            crate::stack_encode::stack_step_outcome(plans, transition)->Ok_0,
            |command: CommandModel| stack_effect(command),
            "map_stack_output"@,
        ),
{
    lemma_report_names();
    let written = Seq::new(17, |i: int| "queue_write"@);
    let effect = |command: CommandModel| stack_effect(command);
    assert(kinds_name(written, 17, Seq::empty(), effect));
    lemma_step_kinds(plans, transition, 0, Seq::empty(), written, 17);
    let passes = crate::stack_encode::step_commands_from(plans, transition, 0, Seq::empty())->Ok_0;
    let commands = crate::stack_encode::stack_step_outcome(plans, transition)->Ok_0;
    let kinds = crate::stack_report::layered_from(
        written,
        crate::stack_report::step_stages(),
        0,
        plans.stack.layers as int,
    );
    let copy = seq!["copy_stack_output"@];
    let last = seq![commands.last()];
    assert(kinds_name(copy, 0, last, effect));
    lemma_kinds_go_on(kinds, 17, passes, copy, last);
    assert(passes + last =~= commands);
    assert(crate::stack_report::stack_step_kinds(plans.stack.layers) =~= (kinds + copy) + seq![
        "submit"@,
        "map_stack_output"@,
    ]);
}

proof fn lemma_prefill_kinds(
    resources: WeightResourcePlan,
    prefill: PrefillPlan,
    layer: int,
    made: Seq<CommandModel>,
    kinds: Seq<Seq<char>>,
    writes: int,
)
    requires
        0 <= writes,
        0 <= layer,
        kinds_name(kinds, writes, made, |command: CommandModel| stack_effect(command)),
        crate::stack_encode::prefill_commands_from(resources, prefill, layer, made) is Ok,
    ensures
        kinds_name(
            crate::stack_report::layered_from(
                kinds,
                crate::stack_report::prefill_stages(),
                layer,
                prefill.layers as int,
            ),
            writes,
            crate::stack_encode::prefill_commands_from(resources, prefill, layer, made)->Ok_0,
            |command: CommandModel| stack_effect(command),
        ),
    decreases prefill.layers - layer,
{
    if layer < prefill.layers {
        let offsets = crate::stack_encode::layer_offsets_outcome(
            resources,
            prefill.hidden_stride_bytes,
            prefill.cache_stride_bytes,
            layer,
        )->Ok_0;
        let more = crate::stack_encode::prefill_layer_commands(
            resources.storage,
            prefill,
            offsets,
        );
        let stages = crate::stack_report::prefill_stages();
        assert(kinds_name(stages, 0, more, |command: CommandModel| stack_effect(command)));
        lemma_kinds_go_on(kinds, writes, made, stages, more);
        lemma_prefill_kinds(resources, prefill, layer + 1, made + more, kinds + stages, writes);
    }
}

/// The effects that a report on a prefill lists are its queue writes and the commands of all
/// layers, in their order.
pub proof fn law_stack_prefill_report_names_effects(
    resources: WeightResourcePlan,
    prefill: PrefillPlan,
    hidden_states: Seq<u8>,
    digests: StackShaderDigests,
    prefill_digests: PrefillShaderDigests,
)
    requires
        crate::stack_encode::stack_prefill_outcome(resources, true, prefill) is Ok,
    ensures
        names_effects(
            crate::stack_report::stack_prefill_tree(prefill, digests, prefill_digests),
            crate::stack_encode::stack_prefill_writes(prefill, hidden_states).len() as int,
            crate::stack_encode::stack_prefill_outcome(resources, true, prefill)->Ok_0,
            |command: CommandModel| stack_effect(command),
            "map_stack_output"@,
        ),
{
    lemma_report_names();
    let written = Seq::new(16, |i: int| "queue_write"@);
    let effect = |command: CommandModel| stack_effect(command);
    assert(kinds_name(written, 16, Seq::empty(), effect));
    lemma_prefill_kinds(resources, prefill, 0, Seq::empty(), written, 16);
    let passes = crate::stack_encode::prefill_commands_from(
        resources,
        prefill,
        0,
        Seq::empty(),
    )->Ok_0;
    let commands = crate::stack_encode::stack_prefill_outcome(resources, true, prefill)->Ok_0;
    let kinds = crate::stack_report::layered_from(
        written,
        crate::stack_report::prefill_stages(),
        0,
        prefill.layers as int,
    );
    let copy = seq!["copy_stack_output"@];
    let last = seq![commands.last()];
    assert(kinds_name(copy, 0, last, effect));
    lemma_kinds_go_on(kinds, 16, passes, copy, last);
    assert(passes + last =~= commands);
    assert(crate::stack_report::stack_prefill_kinds(prefill.layers) =~= (kinds + copy) + seq![
        "submit"@,
        "map_stack_output"@,
    ]);
}

/// The effects that a report on a readout of logits lists are its commands, in their order.
pub proof fn law_logits_report_names_effects(
    resources: WeightResourcePlan,
    plan: LmHeadPlan,
    readout: Readout,
    cache_tokens: u32,
    digests: StackShaderDigests,
)
    requires
        crate::stack_encode::logits_commands(resources, Some(plan), readout) is Ok,
    ensures
        names_effects(
            crate::stack_report::logits_tree(plan, cache_tokens, digests),
            0,
            crate::stack_encode::logits_commands(resources, Some(plan), readout)->Ok_0,
            |command: CommandModel| stack_effect(command),
            "map_logits_output"@,
        ),
{
    lemma_report_names();
    let kinds = crate::stack_report::logits_kinds();
    assert(kinds =~= kinds.take(3) + seq!["submit"@, "map_logits_output"@]);
    assert(kinds_name(
        kinds.take(3),
        0,
        crate::stack_encode::logits_commands(resources, Some(plan), readout)->Ok_0,
        |command: CommandModel| stack_effect(command),
    ));
}

} // verus!
