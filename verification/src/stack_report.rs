//! The stack session: its diagnostics.

use crate::diagnostics::{
    checked_scopes_json, effects_json, empty_array, insert_blake3, insert_u64, json_text_of,
};
use crate::family::Family;
use crate::json::{
    json_bool, json_insert, json_new, json_object, json_text, JsonTree, Members,
};
use crate::kv::{KvPlan, KvStepPlan};
use crate::stack_plan::{
    compact_cache_bytes, LmHeadPlan, PrefillPlan, StackPlan, TOP1_RESULT_BYTES,
};
use crate::stack_sources::{
    extend_shader_blake3_with_prefill, shader_blake3_members, PrefillShaderDigests,
    StackShaderDigests,
};
use crate::text::same;
use vstd::prelude::*;

verus! {

/// What a new session has.
#[derive(Clone, Copy, Debug, PartialEq, Eq, Structural)]
pub struct CreationCounts {
    pub buffers: u64,
    pub pipelines: u64,
    pub bind_groups: u64,
    pub uploads: u64,
}

/// What is counted of a new session. The pipelines that read half-precision weights are not
/// counted.
pub open spec fn creation_counts(
    prefill_capable: bool,
    logits_capable: bool,
    resident_hit: bool,
    cache_uploaded: bool,
) -> CreationCounts {
    let base = if prefill_capable {
        CreationCounts { buffers: 59, pipelines: 12, bind_groups: 31, uploads: 14 }
    } else {
        CreationCounts { buffers: 47, pipelines: 8, bind_groups: 16, uploads: 13 }
    };
    let with_logits = if logits_capable {
        CreationCounts {
            buffers: (base.buffers + 7) as u64,
            pipelines: base.pipelines,
            bind_groups: (base.bind_groups + 3) as u64,
            uploads: if resident_hit {
                base.uploads
            } else {
                (base.uploads + 2) as u64
            },
        }
    } else {
        base
    };
    let uploads = with_logits.uploads - (if resident_hit {
        9int
    } else {
        0
    }) - (if cache_uploaded {
        0int
    } else {
        2
    });
    CreationCounts { uploads: uploads as u64, ..with_logits }
}

/// Counts what a new session has.
pub fn count_creation(
    prefill_capable: bool,
    logits_capable: bool,
    resident_hit: bool,
    cache_uploaded: bool,
) -> (counts: CreationCounts)
    ensures
        counts == creation_counts(prefill_capable, logits_capable, resident_hit, cache_uploaded),
{
    let mut counts: CreationCounts = if prefill_capable {
        CreationCounts { buffers: 59, pipelines: 12, bind_groups: 31, uploads: 14 }
    } else {
        CreationCounts { buffers: 47, pipelines: 8, bind_groups: 16, uploads: 13 }
    };
    if logits_capable {
        counts.buffers += 7;
        counts.bind_groups += 3;
        if !resident_hit {
            counts.uploads += 2;
        }
    }
    if resident_hit {
        counts.uploads -= 9;
    }
    if !cache_uploaded {
        counts.uploads -= 2;
    }
    counts
}

/// How a new session came about.
#[derive(Clone, Copy, Debug)]
pub struct CreationFacts {
    pub logits_capable: bool,
    /// Whether its weights were on the device already.
    pub resident_hit: bool,
    /// Whether its caches were filled.
    pub cache_uploaded: bool,
}

/// The digests of the kernels of a session, by kernel.
pub open spec fn shader_members(
    digests: StackShaderDigests,
    prefill: Option<PrefillShaderDigests>,
) -> Members {
    let members = crate::stack_sources::stack_digest_members(digests);
    match prefill {
        Some(more) => crate::stack_sources::with_prefill_digests(members, more),
        None => members,
    }
}

/// What is reported of a new session; one that can prefill has prefill digests.
pub open spec fn stack_creation_tree(
    kv: KvPlan,
    stack: StackPlan,
    digests: StackShaderDigests,
    prefill: Option<PrefillShaderDigests>,
    facts: CreationFacts,
) -> JsonTree {
    let integer = |value: u64| crate::json::integer_tree(value);
    let shaders = shader_members(digests, prefill);
    let initial_cache_tokens = if prefill is Some {
        0u32
    } else {
        kv.initial_cache_tokens
    };
    let counts = creation_counts(
        prefill is Some,
        facts.logits_capable,
        facts.resident_hit,
        facts.cache_uploaded,
    );
    let members =
        crate::json::no_members()
            .insert("schema_version"@, integer(1))
            .insert("initial_cache_tokens"@, integer(initial_cache_tokens as u64))
            .insert("cache_capacity"@, integer(kv.cache_capacity as u64))
            .insert("layers"@, integer(stack.layers as u64))
            .insert("hidden_size"@, integer(stack.attention.hidden_size as u64))
            .insert("query_heads"@, integer(kv.query_heads as u64))
            .insert("key_value_heads"@, integer(kv.key_value_heads as u64))
            .insert("head_dim"@, integer(kv.head_dim as u64))
            .insert("checked_error_scopes"@, crate::diagnostics::checked_scopes_tree())
            .insert("captured_errors"@, crate::diagnostics::empty_array_tree())
            .insert("shader_blake3"@, JsonTree::Object(shaders))
            .insert("buffer_count"@, integer(counts.buffers))
            .insert("pipeline_count"@, integer(counts.pipelines))
            .insert("bind_group_count"@, integer(counts.bind_groups))
            .insert("initial_upload_count"@, integer(counts.uploads));
    JsonTree::Object(
        if facts.logits_capable {
            members.insert("logits_capable"@, JsonTree::Bool(true))
        } else {
            members
        },
    )
}

/// What is reported of a new session.
pub fn stack_creation_diagnostics(
    kv: &KvPlan,
    stack: &StackPlan,
    digests: &StackShaderDigests,
    prefill: &Option<PrefillShaderDigests>,
    facts: &CreationFacts,
) -> (value: serde_json::Value)
    ensures
        crate::json::value_tree(value) == stack_creation_tree(
            *kv,
            *stack,
            *digests,
            *prefill,
            *facts,
        ),
{
    let prefill_capable: bool = prefill.is_some();
    let initial_cache_tokens: u32 = if prefill_capable {
        0
    } else {
        kv.initial_cache_tokens
    };
    let counts: CreationCounts = count_creation(
        prefill_capable,
        facts.logits_capable,
        facts.resident_hit,
        facts.cache_uploaded,
    );
    let mut shaders: serde_json::Map<String, serde_json::Value> = shader_blake3_members(digests);
    if let Some(more) = prefill {
        extend_shader_blake3_with_prefill(&mut shaders, more);
    }
    let mut root: serde_json::Map<String, serde_json::Value> = json_new();
    insert_u64(&mut root, "schema_version", 1);
    insert_u64(&mut root, "initial_cache_tokens", initial_cache_tokens as u64);
    insert_u64(&mut root, "cache_capacity", kv.cache_capacity as u64);
    insert_u64(&mut root, "layers", stack.layers as u64);
    insert_u64(&mut root, "hidden_size", stack.attention.hidden_size as u64);
    insert_u64(&mut root, "query_heads", kv.query_heads as u64);
    insert_u64(&mut root, "key_value_heads", kv.key_value_heads as u64);
    insert_u64(&mut root, "head_dim", kv.head_dim as u64);
    json_insert(&mut root, "checked_error_scopes", checked_scopes_json());
    json_insert(&mut root, "captured_errors", empty_array());
    json_insert(&mut root, "shader_blake3", json_object(shaders));
    insert_u64(&mut root, "buffer_count", counts.buffers);
    insert_u64(&mut root, "pipeline_count", counts.pipelines);
    insert_u64(&mut root, "bind_group_count", counts.bind_groups);
    insert_u64(&mut root, "initial_upload_count", counts.uploads);
    if facts.logits_capable {
        json_insert(&mut root, "logits_capable", json_bool(true));
    }
    json_object(root)
}

/// The report on a new session, as text.
pub fn stack_creation_diagnostics_json(
    kv: &KvPlan,
    stack: &StackPlan,
    digests: &StackShaderDigests,
    prefill: &Option<PrefillShaderDigests>,
    facts: &CreationFacts,
) -> (text: Result<String, String>)
    ensures
        crate::text::said_text(text) == crate::diagnostics::rendered_outcome(
            Family::Stack,
            crate::json::rendered_json(
                stack_creation_tree(*kv, *stack, *digests, *prefill, *facts),
            ),
        ),
        text is Ok,
{
    let value: serde_json::Value = stack_creation_diagnostics(
        kv,
        stack,
        digests,
        prefill,
        facts,
    );
    json_text_of(Family::Stack, &value)
}

/// A list of kinds with the kinds of every layer from one on behind it.
pub open spec fn layered_from(
    made: Seq<Seq<char>>,
    stages: Seq<Seq<char>>,
    layer: int,
    layers: int,
) -> Seq<Seq<char>>
    decreases layers - layer,
{
    if layer >= layers {
        made
    } else {
        layered_from(made + stages, stages, layer + 1, layers)
    }
}

/// The effects of an operation on all layers: queue writes, the stages of every layer, and the
/// hidden row out.
pub open spec fn layered_kinds(writes: nat, stages: Seq<Seq<char>>, layers: int) -> Seq<Seq<char>> {
    layered_from(Seq::new(writes, |i: int| "queue_write"@), stages, 0, layers) + seq![
        "copy_stack_output"@,
        "submit"@,
        "map_stack_output"@,
    ]
}

/// The stages of one layer of a step.
pub open spec fn step_stages() -> Seq<Seq<char>> {
    seq![
        "dispatch_rms_norm"@,
        "dispatch_query"@,
        "dispatch_key"@,
        "dispatch_value"@,
        "dispatch_mrope"@,
        "dispatch_append"@,
        "dispatch_split_partial"@,
        "dispatch_split_merge"@,
        "dispatch_output"@,
        "dispatch_residual"@,
        "dispatch_post_norm"@,
        "dispatch_gate"@,
        "dispatch_up"@,
        "dispatch_swiglu"@,
        "dispatch_down"@,
        "dispatch_residual_2"@,
    ]
}

/// The stages of one layer of a prefill.
pub open spec fn prefill_stages() -> Seq<Seq<char>> {
    seq![
        "dispatch_rms_norm"@,
        "dispatch_query"@,
        "dispatch_key"@,
        "dispatch_value"@,
        "dispatch_prefill_mrope"@,
        "dispatch_kv_append_range"@,
        "dispatch_prefill_gqa"@,
        "dispatch_output"@,
        "dispatch_residual"@,
        "dispatch_post_norm"@,
        "dispatch_gate"@,
        "dispatch_up"@,
        "dispatch_swiglu"@,
        "dispatch_down"@,
        "dispatch_residual_2"@,
    ]
}

/// The effects of a step, in order.
pub open spec fn stack_step_kinds(layers: u32) -> Seq<Seq<char>> {
    layered_kinds(17, step_stages(), layers as int)
}

/// The effects of a prefill, in order.
pub open spec fn stack_prefill_kinds(layers: u32) -> Seq<Seq<char>> {
    layered_kinds(16, prefill_stages(), layers as int)
}

fn collect_kinds(writes: usize, stages: &Vec<&'static str>, layers: u32) -> (kinds: Vec<
    &'static str,
>)
    requires
        writes <= 17,
        stages.len() <= 16,
    ensures
        crate::text::names(kinds@) == layered_kinds(
            writes as nat,
            crate::text::names(stages@),
            layers as int,
        ),
        kinds.len() < u64::MAX,
{
    let ghost names = crate::text::names(stages@);
    let mut kinds: Vec<&'static str> = Vec::new();
    let mut count: usize = 0;
    while count < writes
        invariant
            count <= writes,
            crate::text::names(kinds@) == Seq::new(count as nat, |i: int| "queue_write"@),
        decreases writes - count,
    {
        let ghost written = kinds@;
        kinds.push("queue_write");
        count += 1;
        assert(crate::text::names(kinds@) =~= crate::text::names(written).push("queue_write"@));
        assert(crate::text::names(kinds@) =~= Seq::new(count as nat, |i: int| "queue_write"@));
    }
    let ghost start = crate::text::names(kinds@);
    assert(kinds.len() == start.len());
    let mut layer: u32 = 0;
    while layer < layers
        invariant
            layer <= layers,
            names == crate::text::names(stages@),
            stages.len() <= 16,
            kinds.len() <= 17 + 16 * layer,
            layered_from(start, names, 0, layers as int) == layered_from(
                crate::text::names(kinds@),
                names,
                layer as int,
                layers as int,
            ),
        decreases layers - layer,
    {
        let ghost before = crate::text::names(kinds@);
        let ghost length = kinds.len();
        let mut index: usize = 0;
        assert(before + names.subrange(0, 0) =~= before);
        while index < stages.len()
            invariant
                index <= stages.len(),
                names == crate::text::names(stages@),
                kinds.len() == length + index,
                crate::text::names(kinds@) == before + names.subrange(0, index as int),
            decreases stages.len() - index,
        {
            let ghost written = kinds@;
            kinds.push(stages[index]);
            index += 1;
            assert(crate::text::names(kinds@) =~= crate::text::names(written).push(
                names[index - 1],
            ));
            assert(crate::text::names(kinds@) =~= before + names.subrange(0, index as int));
        }
        assert(names.subrange(0, index as int) =~= names);
        layer += 1;
    }
    let ghost layered = crate::text::names(kinds@);
    kinds.push("copy_stack_output");
    kinds.push("submit");
    kinds.push("map_stack_output");
    assert(crate::text::names(kinds@) =~= layered + seq![
        "copy_stack_output"@,
        "submit"@,
        "map_stack_output"@,
    ]);
    kinds
}

fn step_kinds(layers: u32) -> (kinds: Vec<&'static str>)
    ensures
        crate::text::names(kinds@) == stack_step_kinds(layers),
        kinds.len() < u64::MAX,
{
    let stages: Vec<&'static str> = vec![
        "dispatch_rms_norm",
        "dispatch_query",
        "dispatch_key",
        "dispatch_value",
        "dispatch_mrope",
        "dispatch_append",
        "dispatch_split_partial",
        "dispatch_split_merge",
        "dispatch_output",
        "dispatch_residual",
        "dispatch_post_norm",
        "dispatch_gate",
        "dispatch_up",
        "dispatch_swiglu",
        "dispatch_down",
        "dispatch_residual_2",
    ];
    assert(crate::text::names(stages@) =~= step_stages());
    collect_kinds(17, &stages, layers)
}

fn prefill_kinds(layers: u32) -> (kinds: Vec<&'static str>)
    ensures
        crate::text::names(kinds@) == stack_prefill_kinds(layers),
        kinds.len() < u64::MAX,
{
    let stages: Vec<&'static str> = vec![
        "dispatch_rms_norm",
        "dispatch_query",
        "dispatch_key",
        "dispatch_value",
        "dispatch_prefill_mrope",
        "dispatch_kv_append_range",
        "dispatch_prefill_gqa",
        "dispatch_output",
        "dispatch_residual",
        "dispatch_post_norm",
        "dispatch_gate",
        "dispatch_up",
        "dispatch_swiglu",
        "dispatch_down",
        "dispatch_residual_2",
    ];
    assert(crate::text::names(stages@) =~= prefill_stages());
    collect_kinds(16, &stages, layers)
}

/// What is reported of a step.
pub open spec fn stack_step_tree(
    stack: StackPlan,
    step: KvStepPlan,
    digests: StackShaderDigests,
    checkpoint: Option<Seq<u8>>,
) -> JsonTree {
    let integer = |value: u64| crate::json::integer_tree(value);
    let versioned = crate::json::no_members().insert("schema_version"@, integer(1));
    let checkpointed = match checkpoint {
        Some(digest) => versioned.insert(
            "checkpoint_blake3"@,
            crate::diagnostics::digest_tree(digest),
        ),
        None => versioned,
    };
    JsonTree::Object(
        checkpointed
            .insert("cache_tokens_before"@, integer(step.cache_tokens_before as u64))
            .insert("cache_tokens_after"@, integer(step.cache_tokens_after as u64))
            .insert("checked_error_scopes"@, crate::diagnostics::checked_scopes_tree())
            .insert("captured_errors"@, crate::diagnostics::empty_array_tree())
            .insert(
                "shader_blake3"@,
                JsonTree::Object(crate::stack_sources::stack_digest_members(digests)),
            )
            .insert("queue_write_count"@, integer(17))
            .insert("command_encoder_count"@, integer(1))
            .insert("compute_pass_count"@, integer((stack.layers * 16) as u64))
            .insert("dispatch_count"@, integer((stack.layers * 16) as u64))
            .insert("copy_count"@, integer(1))
            .insert("command_buffer_count"@, integer(1))
            .insert("submission_count"@, integer(1))
            .insert("map_count"@, integer(1))
            .insert("readback_bytes"@, integer(stack.hidden_stride_bytes))
            .insert("effects"@, crate::diagnostics::effects_tree(stack_step_kinds(stack.layers))),
    )
}

/// What is reported of a step.
pub fn stack_step_diagnostics(
    stack: &StackPlan,
    step: &KvStepPlan,
    digests: &StackShaderDigests,
    checkpoint_blake3: &Option<[u8; 32]>,
) -> (value: serde_json::Value)
    ensures
        crate::json::value_tree(value) == stack_step_tree(
            *stack,
            *step,
            *digests,
            crate::pack_descriptor::digest_option(*checkpoint_blake3),
        ),
{
    let passes: u64 = stack.layers as u64 * 16;
    let kinds: Vec<&'static str> = step_kinds(stack.layers);
    let mut root: serde_json::Map<String, serde_json::Value> = json_new();
    insert_u64(&mut root, "schema_version", 1);
    if let Some(checkpoint) = checkpoint_blake3 {
        insert_blake3(&mut root, "checkpoint_blake3", checkpoint);
    }
    insert_u64(&mut root, "cache_tokens_before", step.cache_tokens_before as u64);
    insert_u64(&mut root, "cache_tokens_after", step.cache_tokens_after as u64);
    json_insert(&mut root, "checked_error_scopes", checked_scopes_json());
    json_insert(&mut root, "captured_errors", empty_array());
    json_insert(&mut root, "shader_blake3", json_object(shader_blake3_members(digests)));
    insert_u64(&mut root, "queue_write_count", 17);
    insert_u64(&mut root, "command_encoder_count", 1);
    insert_u64(&mut root, "compute_pass_count", passes);
    insert_u64(&mut root, "dispatch_count", passes);
    insert_u64(&mut root, "copy_count", 1);
    insert_u64(&mut root, "command_buffer_count", 1);
    insert_u64(&mut root, "submission_count", 1);
    insert_u64(&mut root, "map_count", 1);
    insert_u64(&mut root, "readback_bytes", stack.hidden_stride_bytes);
    json_insert(&mut root, "effects", effects_json(&kinds));
    json_object(root)
}

/// The report on a step, as text.
pub fn stack_step_diagnostics_json(
    stack: &StackPlan,
    step: &KvStepPlan,
    digests: &StackShaderDigests,
    checkpoint_blake3: &Option<[u8; 32]>,
) -> (text: Result<String, String>)
    ensures
        crate::text::said_text(text) == crate::diagnostics::rendered_outcome(
            Family::Stack,
            crate::json::rendered_json(
                stack_step_tree(
                    *stack,
                    *step,
                    *digests,
                    crate::pack_descriptor::digest_option(*checkpoint_blake3),
                ),
            ),
        ),
        text is Ok,
{
    let value: serde_json::Value = stack_step_diagnostics(
        stack,
        step,
        digests,
        checkpoint_blake3,
    );
    json_text_of(Family::Stack, &value)
}

/// What is reported of a prefill.
pub open spec fn stack_prefill_tree(
    prefill: PrefillPlan,
    digests: StackShaderDigests,
    prefill_digests: PrefillShaderDigests,
) -> JsonTree {
    let integer = |value: u64| crate::json::integer_tree(value);
    let shaders = shader_members(digests, Some(prefill_digests));
    JsonTree::Object(
        crate::json::no_members()
            .insert("schema_version"@, integer(1))
            .insert("tokens"@, integer(prefill.tokens as u64))
            .insert("cache_capacity"@, integer(prefill.cache_capacity as u64))
            .insert("cache_tokens_before"@, integer(0))
            .insert("cache_tokens_after"@, integer(prefill.tokens as u64))
            .insert("checked_error_scopes"@, crate::diagnostics::checked_scopes_tree())
            .insert("captured_errors"@, crate::diagnostics::empty_array_tree())
            .insert("shader_blake3"@, JsonTree::Object(shaders))
            .insert("queue_write_count"@, integer(16))
            .insert("command_encoder_count"@, integer(1))
            .insert("compute_pass_count"@, integer((prefill.layers * 15) as u64))
            .insert("dispatch_count"@, integer((prefill.layers * 15) as u64))
            .insert("copy_count"@, integer(1))
            .insert("command_buffer_count"@, integer(1))
            .insert("submission_count"@, integer(1))
            .insert("map_count"@, integer(1))
            .insert("readback_bytes"@, integer(prefill.hidden_stride_bytes))
            .insert(
                "effects"@,
                crate::diagnostics::effects_tree(stack_prefill_kinds(prefill.layers)),
            ),
    )
}

/// What is reported of a prefill, by a session that can prefill.
pub fn stack_prefill_diagnostics(
    prefill: &PrefillPlan,
    digests: &StackShaderDigests,
    prefill_digests: &Option<PrefillShaderDigests>,
) -> (value: Result<serde_json::Value, String>)
    ensures
        match value {
            Ok(report) => prefill_digests is Some && crate::json::value_tree(report)
                == stack_prefill_tree(*prefill, *digests, prefill_digests->Some_0),
            Err(message) => prefill_digests is None && message@
                == "decoder stack session is not prefill capable"@,
        },
{
    let more: &PrefillShaderDigests = match prefill_digests {
        Some(more) => more,
        None => {
            return Err("decoder stack session is not prefill capable".to_owned());
        },
    };
    let passes: u64 = prefill.layers as u64 * 15;
    let kinds: Vec<&'static str> = prefill_kinds(prefill.layers);
    let mut shaders: serde_json::Map<String, serde_json::Value> = shader_blake3_members(digests);
    extend_shader_blake3_with_prefill(&mut shaders, more);
    let mut root: serde_json::Map<String, serde_json::Value> = json_new();
    insert_u64(&mut root, "schema_version", 1);
    insert_u64(&mut root, "tokens", prefill.tokens as u64);
    insert_u64(&mut root, "cache_capacity", prefill.cache_capacity as u64);
    insert_u64(&mut root, "cache_tokens_before", 0);
    insert_u64(&mut root, "cache_tokens_after", prefill.tokens as u64);
    json_insert(&mut root, "checked_error_scopes", checked_scopes_json());
    json_insert(&mut root, "captured_errors", empty_array());
    json_insert(&mut root, "shader_blake3", json_object(shaders));
    insert_u64(&mut root, "queue_write_count", 16);
    insert_u64(&mut root, "command_encoder_count", 1);
    insert_u64(&mut root, "compute_pass_count", passes);
    insert_u64(&mut root, "dispatch_count", passes);
    insert_u64(&mut root, "copy_count", 1);
    insert_u64(&mut root, "command_buffer_count", 1);
    insert_u64(&mut root, "submission_count", 1);
    insert_u64(&mut root, "map_count", 1);
    insert_u64(&mut root, "readback_bytes", prefill.hidden_stride_bytes);
    json_insert(&mut root, "effects", effects_json(&kinds));
    Ok(json_object(root))
}

/// The report on a prefill, as text.
pub fn stack_prefill_diagnostics_json(
    prefill: &PrefillPlan,
    digests: &StackShaderDigests,
    prefill_digests: &Option<PrefillShaderDigests>,
) -> (text: Result<String, String>)
    ensures
        crate::text::said_text(text) == (match *prefill_digests {
            None => Err("decoder stack session is not prefill capable"@),
            Some(more) => crate::diagnostics::rendered_outcome(
                Family::Stack,
                crate::json::rendered_json(stack_prefill_tree(*prefill, *digests, more)),
            ),
        }),
        text is Ok == prefill_digests is Some,
{
    let value: serde_json::Value = stack_prefill_diagnostics(prefill, digests, prefill_digests)?;
    json_text_of(Family::Stack, &value)
}

/// What is reported of a finish.
pub open spec fn stack_finish_tree(stack: StackPlan) -> JsonTree {
    let integer = |value: u64| crate::json::integer_tree(value);
    JsonTree::Object(
        crate::json::no_members()
            .insert("schema_version"@, integer(1))
            .insert("checked_error_scopes"@, crate::diagnostics::checked_scopes_tree())
            .insert("captured_errors"@, crate::diagnostics::empty_array_tree())
            .insert("buffer_allocation_count"@, integer(2))
            .insert("queue_write_count"@, integer(0))
            .insert("command_encoder_count"@, integer(1))
            .insert("compute_pass_count"@, integer(0))
            .insert("dispatch_count"@, integer(0))
            .insert("copy_count"@, integer(2))
            .insert("command_buffer_count"@, integer(1))
            .insert("submission_count"@, integer(1))
            .insert("map_count"@, integer(2))
            .insert(
                "readback_bytes"@,
                integer((stack.layers * stack.cache_stride_bytes * 2) as u64),
            ),
    )
}

/// What is wrong with reporting a finish.
pub open spec fn stack_finish_complaint(stack: StackPlan) -> Option<Seq<char>> {
    if stack.layers * stack.cache_stride_bytes > u64::MAX {
        Some("decoder stack compact cache byte size overflowed"@)
    } else if stack.layers * stack.cache_stride_bytes * 2 > u64::MAX {
        Some("decoder stack finish readback overflowed"@)
    } else {
        None
    }
}

/// What is reported of a finish.
pub fn stack_finish_diagnostics(stack: &StackPlan) -> (value: Result<serde_json::Value, String>)
    ensures
        match value {
            Ok(report) => stack_finish_complaint(*stack) is None && crate::json::value_tree(
                report,
            ) == stack_finish_tree(*stack),
            Err(message) => stack_finish_complaint(*stack) == Some(message@),
        },
{
    let cache_bytes: u64 = compact_cache_bytes(stack)?;
    let readback_bytes: u64 = match cache_bytes.checked_mul(2) {
        Some(bytes) => bytes,
        None => {
            return Err("decoder stack finish readback overflowed".to_owned());
        },
    };
    let mut root: serde_json::Map<String, serde_json::Value> = json_new();
    insert_u64(&mut root, "schema_version", 1);
    json_insert(&mut root, "checked_error_scopes", checked_scopes_json());
    json_insert(&mut root, "captured_errors", empty_array());
    insert_u64(&mut root, "buffer_allocation_count", 2);
    insert_u64(&mut root, "queue_write_count", 0);
    insert_u64(&mut root, "command_encoder_count", 1);
    insert_u64(&mut root, "compute_pass_count", 0);
    insert_u64(&mut root, "dispatch_count", 0);
    insert_u64(&mut root, "copy_count", 2);
    insert_u64(&mut root, "command_buffer_count", 1);
    insert_u64(&mut root, "submission_count", 1);
    insert_u64(&mut root, "map_count", 2);
    insert_u64(&mut root, "readback_bytes", readback_bytes);
    Ok(json_object(root))
}

/// The report on a finish, as text.
pub fn stack_finish_diagnostics_json(stack: &StackPlan) -> (text: Result<String, String>)
    ensures
        crate::text::said_text(text) == (match stack_finish_complaint(*stack) {
            Some(message) => Err(message),
            None => crate::diagnostics::rendered_outcome(
                Family::Stack,
                crate::json::rendered_json(stack_finish_tree(*stack)),
            ),
        }),
        text is Ok == stack_finish_complaint(*stack) is None,
{
    let value: serde_json::Value = stack_finish_diagnostics(stack)?;
    json_text_of(Family::Stack, &value)
}

/// The effects of a logits readout, in order.
pub open spec fn logits_kinds() -> Seq<Seq<char>> {
    seq![
        "dispatch_final_rms_norm"@,
        "dispatch_lm_head_gemv"@,
        "copy_logits_output"@,
        "submit"@,
        "map_logits_output"@,
    ]
}

/// What is reported of a logits readout.
pub open spec fn logits_tree(
    plan: LmHeadPlan,
    cache_tokens: u32,
    digests: StackShaderDigests,
) -> JsonTree {
    let integer = |value: u64| crate::json::integer_tree(value);
    JsonTree::Object(
        crate::json::no_members()
            .insert("schema_version"@, integer(1))
            .insert("cache_tokens"@, integer(cache_tokens as u64))
            .insert("checked_error_scopes"@, crate::diagnostics::checked_scopes_tree())
            .insert("captured_errors"@, crate::diagnostics::empty_array_tree())
            .insert(
                "shader_blake3"@,
                JsonTree::Object(crate::stack_sources::stack_digest_members(digests)),
            )
            .insert("queue_write_count"@, integer(0))
            .insert("command_encoder_count"@, integer(1))
            .insert("compute_pass_count"@, integer(2))
            .insert("dispatch_count"@, integer(2))
            .insert("copy_count"@, integer(1))
            .insert("command_buffer_count"@, integer(1))
            .insert("submission_count"@, integer(1))
            .insert("map_count"@, integer(1))
            .insert("readback_bytes"@, integer(plan.logits_bytes))
            .insert("effects"@, crate::diagnostics::effects_tree(logits_kinds())),
    )
}

/// What is reported of a logits readout, by a session that can read logits.
pub fn logits_diagnostics(
    lm_head: &Option<LmHeadPlan>,
    cache_tokens: u32,
    digests: &StackShaderDigests,
) -> (value: Result<serde_json::Value, String>)
    ensures
        match value {
            Ok(report) => lm_head is Some && crate::json::value_tree(report) == logits_tree(
                lm_head->Some_0,
                cache_tokens,
                *digests,
            ),
            Err(message) => lm_head is None && message@
                == "decoder stack session is not logits capable"@,
        },
{
    let plan: &LmHeadPlan = match lm_head {
        Some(plan) => plan,
        None => {
            return Err("decoder stack session is not logits capable".to_owned());
        },
    };
    let kinds: Vec<&'static str> = vec![
        "dispatch_final_rms_norm",
        "dispatch_lm_head_gemv",
        "copy_logits_output",
        "submit",
        "map_logits_output",
    ];
    assert(crate::text::names(kinds@) =~= logits_kinds());
    let mut root: serde_json::Map<String, serde_json::Value> = json_new();
    insert_u64(&mut root, "schema_version", 1);
    insert_u64(&mut root, "cache_tokens", cache_tokens as u64);
    json_insert(&mut root, "checked_error_scopes", checked_scopes_json());
    json_insert(&mut root, "captured_errors", empty_array());
    json_insert(&mut root, "shader_blake3", json_object(shader_blake3_members(digests)));
    insert_u64(&mut root, "queue_write_count", 0);
    insert_u64(&mut root, "command_encoder_count", 1);
    insert_u64(&mut root, "compute_pass_count", 2);
    insert_u64(&mut root, "dispatch_count", 2);
    insert_u64(&mut root, "copy_count", 1);
    insert_u64(&mut root, "command_buffer_count", 1);
    insert_u64(&mut root, "submission_count", 1);
    insert_u64(&mut root, "map_count", 1);
    insert_u64(&mut root, "readback_bytes", plan.logits_bytes);
    json_insert(&mut root, "effects", effects_json(&kinds));
    Ok(json_object(root))
}

/// The report on a logits readout, as text.
pub fn logits_diagnostics_json(
    lm_head: &Option<LmHeadPlan>,
    cache_tokens: u32,
    digests: &StackShaderDigests,
) -> (text: Result<String, String>)
    ensures
        crate::text::said_text(text) == (match *lm_head {
            None => Err("decoder stack session is not logits capable"@),
            Some(plan) => crate::diagnostics::rendered_outcome(
                Family::Stack,
                crate::json::rendered_json(logits_tree(plan, cache_tokens, *digests)),
            ),
        }),
        text is Ok == lm_head is Some,
{
    let value: serde_json::Value = logits_diagnostics(lm_head, cache_tokens, digests)?;
    json_text_of(Family::Stack, &value)
}

/// What is reported of a token selection.
pub open spec fn top1_tree(
    cache_tokens: u32,
    digests: StackShaderDigests,
    top1_digest: Seq<u8>,
    queue_wall_time_ns: u64,
) -> JsonTree {
    let integer = |value: u64| crate::json::integer_tree(value);
    let shaders = crate::stack_sources::stack_digest_members(digests).insert(
        "decoder_logits_top1_f32"@,
        crate::diagnostics::digest_tree(top1_digest),
    );
    JsonTree::Object(
        crate::json::no_members()
            .insert("schema_version"@, integer(1))
            .insert("cache_tokens"@, integer(cache_tokens as u64))
            .insert("checked_error_scopes"@, crate::diagnostics::checked_scopes_tree())
            .insert("captured_errors"@, crate::diagnostics::empty_array_tree())
            .insert("shader_blake3"@, JsonTree::Object(shaders))
            .insert("queue_wall_time_ns"@, integer(queue_wall_time_ns))
            .insert("queue_write_count"@, integer(0))
            .insert("command_encoder_count"@, integer(1))
            .insert("compute_pass_count"@, integer(3))
            .insert("dispatch_count"@, integer(3))
            .insert("copy_count"@, integer(1))
            .insert("command_buffer_count"@, integer(1))
            .insert("submission_count"@, integer(1))
            .insert("map_count"@, integer(1))
            .insert("readback_bytes"@, integer(TOP1_RESULT_BYTES))
            .insert("full_logits_readback_elided"@, JsonTree::Bool(true)),
    )
}

/// What is reported of a token selection, by a session that has selected one.
pub fn top1_diagnostics(
    cache_tokens: u32,
    digests: &StackShaderDigests,
    top1_digest: &Option<[u8; 32]>,
    queue_wall_time_ns: u64,
) -> (value: Result<serde_json::Value, String>)
    ensures
        match value {
            Ok(report) => top1_digest is Some && crate::json::value_tree(report) == top1_tree(
                cache_tokens,
                *digests,
                top1_digest->Some_0@,
                queue_wall_time_ns,
            ),
            Err(message) => top1_digest is None && message@
                == "decoder stack session is not GPU top-1 capable"@,
        },
{
    let digest: &[u8; 32] = match top1_digest {
        Some(digest) => digest,
        None => {
            return Err("decoder stack session is not GPU top-1 capable".to_owned());
        },
    };
    let mut shaders: serde_json::Map<String, serde_json::Value> = shader_blake3_members(digests);
    insert_blake3(&mut shaders, "decoder_logits_top1_f32", digest);
    let mut root: serde_json::Map<String, serde_json::Value> = json_new();
    insert_u64(&mut root, "schema_version", 1);
    insert_u64(&mut root, "cache_tokens", cache_tokens as u64);
    json_insert(&mut root, "checked_error_scopes", checked_scopes_json());
    json_insert(&mut root, "captured_errors", empty_array());
    json_insert(&mut root, "shader_blake3", json_object(shaders));
    insert_u64(&mut root, "queue_wall_time_ns", queue_wall_time_ns);
    insert_u64(&mut root, "queue_write_count", 0);
    insert_u64(&mut root, "command_encoder_count", 1);
    insert_u64(&mut root, "compute_pass_count", 3);
    insert_u64(&mut root, "dispatch_count", 3);
    insert_u64(&mut root, "copy_count", 1);
    insert_u64(&mut root, "command_buffer_count", 1);
    insert_u64(&mut root, "submission_count", 1);
    insert_u64(&mut root, "map_count", 1);
    insert_u64(&mut root, "readback_bytes", TOP1_RESULT_BYTES);
    json_insert(&mut root, "full_logits_readback_elided", json_bool(true));
    Ok(json_object(root))
}

/// The report on a token selection, as text.
pub fn top1_diagnostics_json(
    cache_tokens: u32,
    digests: &StackShaderDigests,
    top1_digest: &Option<[u8; 32]>,
    queue_wall_time_ns: u64,
) -> (text: Result<String, String>)
    ensures
        crate::text::said_text(text) == (match *top1_digest {
            None => Err("decoder stack session is not GPU top-1 capable"@),
            Some(digest) => crate::diagnostics::rendered_outcome(
                Family::Stack,
                crate::json::rendered_json(
                    top1_tree(cache_tokens, *digests, digest@, queue_wall_time_ns),
                ),
            ),
        }),
        text is Ok == top1_digest is Some,
{
    let value: serde_json::Value = top1_diagnostics(
        cache_tokens,
        digests,
        top1_digest,
        queue_wall_time_ns,
    )?;
    json_text_of(Family::Stack, &value)
}

/// What is reported of the weights that stay on the device: their name and bytes, if there
/// are any.
pub open spec fn resident_tree(resident: Option<(Seq<char>, u64)>) -> JsonTree {
    let members = crate::json::no_members().insert(
        "schema_version"@,
        crate::json::integer_tree(1),
    ).insert("ready"@, JsonTree::Bool(resident is Some)).insert(
        "resident_weight_bytes"@,
        crate::json::integer_tree(
            match resident {
                Some((_, bytes)) => bytes,
                None => 0,
            },
        ),
    );
    JsonTree::Object(
        match resident {
            Some((key, _)) => members.insert("key"@, JsonTree::Text(key)),
            None => members,
        },
    )
}

/// Weights that stay on the device, as plain data.
pub open spec fn resident_said(resident: Option<(&str, u64)>) -> Option<(Seq<char>, u64)> {
    match resident {
        Some((key, bytes)) => Some((key@, bytes)),
        None => None,
    }
}

/// What is reported of the weights that stay on the device.
pub fn resident_weights(resident: Option<(&str, u64)>) -> (value: serde_json::Value)
    ensures
        crate::json::value_tree(value) == resident_tree(resident_said(resident)),
{
    let mut root: serde_json::Map<String, serde_json::Value> = json_new();
    insert_u64(&mut root, "schema_version", 1);
    json_insert(&mut root, "ready", json_bool(resident.is_some()));
    match resident {
        Some((key, bytes)) => {
            insert_u64(&mut root, "resident_weight_bytes", bytes);
            json_insert(&mut root, "key", json_text(key));
        },
        None => {
            insert_u64(&mut root, "resident_weight_bytes", 0);
        },
    }
    json_object(root)
}

/// The report on the weights that stay on the device, as text.
pub fn resident_weights_json(resident: Option<(&str, u64)>) -> (text: Result<String, String>)
    ensures
        crate::text::said_text(text) == crate::diagnostics::rendered_outcome(
            Family::Stack,
            crate::json::rendered_json(resident_tree(resident_said(resident))),
        ),
        text is Ok,
{
    let value: serde_json::Value = resident_weights(resident);
    json_text_of(Family::Stack, &value)
}

/// What is reported of the admission of a precision profile, which has no effect.
pub open spec fn admission_tree(profile: Seq<char>, admitted: bool) -> JsonTree {
    let effects = crate::json::no_members().insert(
        "buffer_creations"@,
        crate::json::integer_tree(0),
    ).insert("queue_writes"@, crate::json::integer_tree(0)).insert(
        "submissions"@,
        crate::json::integer_tree(0),
    );
    let members = crate::json::no_members().insert(
        "precision_profile"@,
        JsonTree::Text(profile),
    ).insert("admitted"@, JsonTree::Bool(admitted)).insert(
        "effects"@,
        JsonTree::Object(effects),
    );
    JsonTree::Object(
        if admitted {
            members
        } else {
            members.insert("error"@, JsonTree::Text("balanced precision requires shader-f16"@))
        },
    )
}

/// Whether a precision profile is admitted, or the message that there is no such profile.
pub open spec fn profile_outcome(profile: Seq<char>, shader_f16_available: bool) -> Result<
    bool,
    Seq<char>,
> {
    if profile == "fidelity"@ {
        Ok(true)
    } else if profile == "balanced"@ {
        Ok(shader_f16_available)
    } else {
        Err("M7q1 precision probe profile is unsupported"@)
    }
}

/// What is reported of the admission of a precision profile. Only the balanced one needs the
/// `shader-f16` feature.
pub fn probe_m7q1_precision_admission(precision_profile: &str, shader_f16_available: bool) -> (value:
    Result<serde_json::Value, String>)
    ensures
        match value {
            Ok(report) => profile_outcome(precision_profile@, shader_f16_available) is Ok
                && crate::json::value_tree(report) == admission_tree(
                precision_profile@,
                profile_outcome(precision_profile@, shader_f16_available)->Ok_0,
            ),
            Err(message) => profile_outcome(precision_profile@, shader_f16_available) == Err::<
                bool,
                Seq<char>,
            >(message@),
        },
{
    let admitted: bool = if same(precision_profile, "fidelity") {
        true
    } else if same(precision_profile, "balanced") {
        shader_f16_available
    } else {
        return Err("M7q1 precision probe profile is unsupported".to_owned());
    };
    let mut effects: serde_json::Map<String, serde_json::Value> = json_new();
    insert_u64(&mut effects, "buffer_creations", 0);
    insert_u64(&mut effects, "queue_writes", 0);
    insert_u64(&mut effects, "submissions", 0);
    let mut report: serde_json::Map<String, serde_json::Value> = json_new();
    json_insert(&mut report, "precision_profile", json_text(precision_profile));
    json_insert(&mut report, "admitted", json_bool(admitted));
    json_insert(&mut report, "effects", json_object(effects));
    if !admitted {
        json_insert(&mut report, "error", json_text("balanced precision requires shader-f16"));
    }
    Ok(json_object(report))
}

/// The report on the admission of a precision profile, as text.
pub fn probe_m7q1_precision_admission_json(
    precision_profile: &str,
    shader_f16_available: bool,
) -> (text: Result<String, String>)
    ensures
        crate::text::said_text(text) == (match profile_outcome(
            precision_profile@,
            shader_f16_available,
        ) {
            Err(message) => Err(message),
            Ok(admitted) => crate::diagnostics::rendered_outcome(
                Family::Stack,
                crate::json::rendered_json(admission_tree(precision_profile@, admitted)),
            ),
        }),
        text is Ok == profile_outcome(precision_profile@, shader_f16_available) is Ok,
{
    let value: serde_json::Value = probe_m7q1_precision_admission(
        precision_profile,
        shader_f16_available,
    )?;
    json_text_of(Family::Stack, &value)
}

} // verus!
