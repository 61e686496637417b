//! The key/value cache session: its shader sources and its diagnostics.

use crate::diagnostics::{
    checked_scopes_json, effects_json, empty_array, insert_blake3, insert_u64, json_text_of,
};
use crate::family::Family;
use crate::json::{json_insert, json_new, json_object, JsonTree};
use crate::kv::{KvPlan, KvStepPlan};
use crate::sources::{
    canonical_source, list_sources, listed_source, require_override, ListedModel, ListedSource,
};
use crate::text::same;
use vstd::prelude::*;

verus! {

/// The shader sources of a session.
pub struct KvSources {
    pub append: String,
    pub attention: String,
}

/// The shader sources of a session, as plain data.
pub struct KvSourcesModel {
    pub append: Seq<char>,
    pub attention: Seq<char>,
}

/// The shader sources of a session, as plain data.
pub open spec fn kv_sources_model(sources: KvSources) -> KvSourcesModel {
    KvSourcesModel { append: sources.append@, attention: sources.attention@ }
}

/// The kernels of a session.
pub open spec fn kv_kernels() -> Seq<Seq<char>> {
    seq!["decoder_kv_append_f32"@, "decoder_gqa_f32"@]
}

/// The canonical shader sources, or the first that is missing.
pub open spec fn kv_canonical_outcome(
    append: Option<Seq<char>>,
    attention: Option<Seq<char>>,
) -> Result<KvSourcesModel, Seq<char>> {
    match crate::sources::canonical_outcome(append, "decoder append"@) {
        Err(message) => Err(message),
        Ok(append) => match crate::sources::canonical_outcome(attention, "decoder GQA"@) {
            Err(message) => Err(message),
            Ok(attention) => Ok(KvSourcesModel { append, attention }),
        },
    }
}

/// The canonical shader sources, out of the modules of the append and the GQA kernel.
pub fn canonical_decoder_sources(append: Option<String>, attention: Option<String>) -> (sources:
    Result<KvSources, String>)
    ensures
        (match sources {
            Ok(found) => Ok(kv_sources_model(found)),
            Err(message) => Err(message@),
        }) == kv_canonical_outcome(
            crate::sources::option_text(append),
            crate::sources::option_text(attention),
        ),
{
    let append: String = canonical_source(append, "decoder append")?;
    let attention: String = canonical_source(attention, "decoder GQA")?;
    Ok(KvSources { append, attention })
}

/// Requires a request to replace one of the kernels of a session.
pub fn require_decoder_override(kernel: &str, source: &str) -> (outcome: Result<(), String>)
    ensures
        crate::text::complaint(outcome) == crate::sources::override_complaint(
            Family::Kv,
            kv_kernels(),
            kernel@,
            source@,
        ),
{
    let kernels: Vec<&str> = vec!["decoder_kv_append_f32", "decoder_gqa_f32"];
    assert(crate::text::names(kernels@) =~= kv_kernels());
    require_override(Family::Kv, kernels.as_slice(), kernel, source)
}

/// The sources of a session with that of one kernel replaced.
pub open spec fn kv_overridden(
    sources: KvSourcesModel,
    kernel: Seq<char>,
    source: Seq<char>,
) -> KvSourcesModel {
    if kernel == "decoder_kv_append_f32"@ {
        KvSourcesModel { append: source, ..sources }
    } else {
        KvSourcesModel { attention: source, ..sources }
    }
}

/// The sources of a session with one of them replaced.
pub fn override_decoder_source(sources: KvSources, kernel: &str, source: &str) -> (replaced:
    KvSources)
    requires
        kv_kernels().contains(kernel@),
    ensures
        kv_sources_model(replaced) == kv_overridden(kv_sources_model(sources), kernel@, source@),
{
    if same(kernel, "decoder_kv_append_f32") {
        KvSources { append: source.to_owned(), attention: sources.attention }
    } else {
        KvSources { append: sources.append, attention: source.to_owned() }
    }
}

/// The sources of a session as they are listed.
pub open spec fn kv_listing(sources: KvSourcesModel) -> Seq<ListedModel> {
    seq![
        ListedModel {
            kernel: "decoder_kv_append_f32"@,
            label: " append"@,
            source: sources.append,
        },
        ListedModel { kernel: "decoder_gqa_f32"@, label: " attention"@, source: sources.attention },
    ]
}

/// The JSON listing of the sources of a session.
pub fn decoder_sources_json(sources: &KvSources) -> (text: Result<String, String>)
    ensures
        crate::text::said_text(text) == crate::sources::listing_outcome(
            Family::Kv,
            kv_listing(kv_sources_model(*sources)),
            seq![0usize, 1usize],
        ),
        text is Ok,
{
    let listed: Vec<ListedSource<'_>> = vec![
        listed_source("decoder_kv_append_f32", " append", sources.append.as_str()),
        listed_source("decoder_gqa_f32", " attention", sources.attention.as_str()),
    ];
    let order: Vec<usize> = vec![0, 1];
    assert(crate::sources::listed_models(listed@) =~= kv_listing(kv_sources_model(*sources)));
    assert(order@ =~= seq![0usize, 1usize]);
    list_sources(Family::Kv, &listed, &order)
}

/// The digests of the kernels of a session.
pub open spec fn kv_digests_tree(append: Seq<u8>, attention: Seq<u8>) -> JsonTree {
    JsonTree::Object(
        crate::json::no_members().insert(
            "decoder_kv_append_f32"@,
            crate::diagnostics::digest_tree(append),
        ).insert("decoder_gqa_f32"@, crate::diagnostics::digest_tree(attention)),
    )
}

fn shader_blake3_json(append: &[u8; 32], attention: &[u8; 32]) -> (value: serde_json::Value)
    ensures
        crate::json::value_tree(value) == kv_digests_tree(append@, attention@),
{
    let mut hashes: serde_json::Map<String, serde_json::Value> = json_new();
    insert_blake3(&mut hashes, "decoder_kv_append_f32", append);
    insert_blake3(&mut hashes, "decoder_gqa_f32", attention);
    json_object(hashes)
}

/// What is reported of a new session.
pub open spec fn kv_creation_tree(plan: KvPlan, append: Seq<u8>, attention: Seq<u8>) -> JsonTree {
    let integer = |value: u64| crate::json::integer_tree(value);
    JsonTree::Object(
        crate::json::no_members().insert("schema_version"@, integer(1)).insert(
            "initial_cache_tokens"@,
            integer(plan.initial_cache_tokens as u64),
        ).insert("cache_capacity"@, integer(plan.cache_capacity as u64)).insert(
            "query_heads"@,
            integer(plan.query_heads as u64),
        ).insert("key_value_heads"@, integer(plan.key_value_heads as u64)).insert(
            "head_dim"@,
            integer(plan.head_dim as u64),
        ).insert("checked_error_scopes"@, crate::diagnostics::checked_scopes_tree()).insert(
            "captured_errors"@,
            crate::diagnostics::empty_array_tree(),
        ).insert("shader_blake3"@, kv_digests_tree(append, attention)).insert(
            "buffer_count"@,
            integer(9),
        ).insert("pipeline_count"@, integer(2)).insert("bind_group_count"@, integer(2)).insert(
            "initial_cache_write_count"@,
            integer(2),
        ),
    )
}

/// What is reported of a new session.
pub fn decoder_creation_diagnostics(
    plan: &KvPlan,
    append_digest: &[u8; 32],
    attention_digest: &[u8; 32],
) -> (value: serde_json::Value)
    ensures
        crate::json::value_tree(value) == kv_creation_tree(
            *plan,
            append_digest@,
            attention_digest@,
        ),
{
    let mut root: serde_json::Map<String, serde_json::Value> = json_new();
    insert_u64(&mut root, "schema_version", 1);
    insert_u64(&mut root, "initial_cache_tokens", plan.initial_cache_tokens as u64);
    insert_u64(&mut root, "cache_capacity", plan.cache_capacity as u64);
    insert_u64(&mut root, "query_heads", plan.query_heads as u64);
    insert_u64(&mut root, "key_value_heads", plan.key_value_heads as u64);
    insert_u64(&mut root, "head_dim", plan.head_dim as u64);
    json_insert(&mut root, "checked_error_scopes", checked_scopes_json());
    json_insert(&mut root, "captured_errors", empty_array());
    json_insert(&mut root, "shader_blake3", shader_blake3_json(append_digest, attention_digest));
    insert_u64(&mut root, "buffer_count", 9);
    insert_u64(&mut root, "pipeline_count", 2);
    insert_u64(&mut root, "bind_group_count", 2);
    insert_u64(&mut root, "initial_cache_write_count", 2);
    json_object(root)
}

/// The report on a new session, as text.
pub fn decoder_creation_diagnostics_json(
    plan: &KvPlan,
    append_digest: &[u8; 32],
    attention_digest: &[u8; 32],
) -> (text: Result<String, String>)
    ensures
        crate::text::said_text(text) == crate::diagnostics::rendered_outcome(
            Family::Kv,
            crate::json::rendered_json(
                kv_creation_tree(*plan, append_digest@, attention_digest@),
            ),
        ),
        text is Ok,
{
    let value: serde_json::Value = decoder_creation_diagnostics(
        plan,
        append_digest,
        attention_digest,
    );
    json_text_of(Family::Kv, &value)
}

/// The effects of a step, in order.
pub open spec fn kv_step_kinds() -> Seq<Seq<char>> {
    seq![
        "queue_write"@,
        "queue_write"@,
        "queue_write"@,
        "queue_write"@,
        "queue_write"@,
        "dispatch_append"@,
        "dispatch_gqa"@,
        "copy_attention"@,
        "submit"@,
        "map_attention"@,
    ]
}

/// What is reported of a step.
pub open spec fn kv_step_tree(
    plan: KvPlan,
    step: KvStepPlan,
    append: Seq<u8>,
    attention: Seq<u8>,
) -> JsonTree {
    let integer = |value: u64| crate::json::integer_tree(value);
    JsonTree::Object(
        crate::json::no_members().insert("schema_version"@, integer(1)).insert(
            "cache_tokens_before"@,
            integer(step.cache_tokens_before as u64),
        ).insert("cache_tokens_after"@, integer(step.cache_tokens_after as u64)).insert(
            "checked_error_scopes"@,
            crate::diagnostics::checked_scopes_tree(),
        ).insert("captured_errors"@, crate::diagnostics::empty_array_tree()).insert(
            "shader_blake3"@,
            kv_digests_tree(append, attention),
        ).insert("queue_write_count"@, integer(5)).insert(
            "command_encoder_count"@,
            integer(1),
        ).insert("compute_pass_count"@, integer(2)).insert("dispatch_count"@, integer(2)).insert(
            "copy_count"@,
            integer(1),
        ).insert("command_buffer_count"@, integer(1)).insert(
            "submission_count"@,
            integer(1),
        ).insert("map_count"@, integer(1)).insert(
            "readback_bytes"@,
            integer(plan.attention_bytes),
        ).insert("effects"@, crate::diagnostics::effects_tree(kv_step_kinds())),
    )
}

/// What is reported of a step.
pub fn decoder_step_diagnostics(
    plan: &KvPlan,
    step: &KvStepPlan,
    append_digest: &[u8; 32],
    attention_digest: &[u8; 32],
) -> (value: serde_json::Value)
    ensures
        crate::json::value_tree(value) == kv_step_tree(
            *plan,
            *step,
            append_digest@,
            attention_digest@,
        ),
{
    let mut root: serde_json::Map<String, serde_json::Value> = json_new();
    insert_u64(&mut root, "schema_version", 1);
    insert_u64(&mut root, "cache_tokens_before", step.cache_tokens_before as u64);
    insert_u64(&mut root, "cache_tokens_after", step.cache_tokens_after as u64);
    json_insert(&mut root, "checked_error_scopes", checked_scopes_json());
    json_insert(&mut root, "captured_errors", empty_array());
    json_insert(&mut root, "shader_blake3", shader_blake3_json(append_digest, attention_digest));
    insert_u64(&mut root, "queue_write_count", 5);
    insert_u64(&mut root, "command_encoder_count", 1);
    insert_u64(&mut root, "compute_pass_count", 2);
    insert_u64(&mut root, "dispatch_count", 2);
    insert_u64(&mut root, "copy_count", 1);
    insert_u64(&mut root, "command_buffer_count", 1);
    insert_u64(&mut root, "submission_count", 1);
    insert_u64(&mut root, "map_count", 1);
    insert_u64(&mut root, "readback_bytes", plan.attention_bytes);
    let kinds: Vec<&'static str> = vec![
        "queue_write",
        "queue_write",
        "queue_write",
        "queue_write",
        "queue_write",
        "dispatch_append",
        "dispatch_gqa",
        "copy_attention",
        "submit",
        "map_attention",
    ];
    assert(crate::text::names(kinds@) =~= kv_step_kinds());
    json_insert(&mut root, "effects", effects_json(&kinds));
    json_object(root)
}

/// The report on a step, as text.
pub fn decoder_step_diagnostics_json(
    plan: &KvPlan,
    step: &KvStepPlan,
    append_digest: &[u8; 32],
    attention_digest: &[u8; 32],
) -> (text: Result<String, String>)
    ensures
        crate::text::said_text(text) == crate::diagnostics::rendered_outcome(
            Family::Kv,
            crate::json::rendered_json(
                kv_step_tree(*plan, *step, append_digest@, attention_digest@),
            ),
        ),
        text is Ok,
{
    let value: serde_json::Value = decoder_step_diagnostics(
        plan,
        step,
        append_digest,
        attention_digest,
    );
    json_text_of(Family::Kv, &value)
}

/// What is reported of a finish.
pub open spec fn kv_finish_tree(plan: KvPlan) -> JsonTree {
    let integer = |value: u64| crate::json::integer_tree(value);
    JsonTree::Object(
        crate::json::no_members().insert("schema_version"@, integer(1)).insert(
            "checked_error_scopes"@,
            crate::diagnostics::checked_scopes_tree(),
        ).insert("captured_errors"@, crate::diagnostics::empty_array_tree()).insert(
            "buffer_allocation_count"@,
            integer(1),
        ).insert("queue_write_count"@, integer(0)).insert(
            "command_encoder_count"@,
            integer(1),
        ).insert("compute_pass_count"@, integer(0)).insert("dispatch_count"@, integer(0)).insert(
            "copy_count"@,
            integer(2),
        ).insert("command_buffer_count"@, integer(1)).insert(
            "submission_count"@,
            integer(1),
        ).insert("map_count"@, integer(1)).insert(
            "readback_bytes"@,
            integer((plan.cache_bytes * 2) as u64),
        ),
    )
}

/// The report on a finish, or why there is none.
pub open spec fn kv_finish_outcome(plan: KvPlan) -> Result<Seq<char>, Seq<char>> {
    if plan.cache_bytes * 2 > u64::MAX {
        Err("decoder KV finish readback overflowed"@)
    } else {
        crate::diagnostics::rendered_outcome(
            Family::Kv,
            crate::json::rendered_json(kv_finish_tree(plan)),
        )
    }
}

/// What is reported of a finish.
pub fn decoder_finish_diagnostics(plan: &KvPlan) -> (value: Result<serde_json::Value, String>)
    ensures
        match value {
            Ok(report) => plan.cache_bytes * 2 <= u64::MAX && crate::json::value_tree(report)
                == kv_finish_tree(*plan),
            Err(message) => plan.cache_bytes * 2 > u64::MAX && message@
                == "decoder KV finish readback overflowed"@,
        },
{
    let readback_bytes: u64 = match plan.cache_bytes.checked_mul(2) {
        Some(bytes) => bytes,
        None => {
            return Err("decoder KV finish readback overflowed".to_owned());
        },
    };
    let mut root: serde_json::Map<String, serde_json::Value> = json_new();
    insert_u64(&mut root, "schema_version", 1);
    json_insert(&mut root, "checked_error_scopes", checked_scopes_json());
    json_insert(&mut root, "captured_errors", empty_array());
    insert_u64(&mut root, "buffer_allocation_count", 1);
    insert_u64(&mut root, "queue_write_count", 0);
    insert_u64(&mut root, "command_encoder_count", 1);
    insert_u64(&mut root, "compute_pass_count", 0);
    insert_u64(&mut root, "dispatch_count", 0);
    insert_u64(&mut root, "copy_count", 2);
    insert_u64(&mut root, "command_buffer_count", 1);
    insert_u64(&mut root, "submission_count", 1);
    insert_u64(&mut root, "map_count", 1);
    insert_u64(&mut root, "readback_bytes", readback_bytes);
    Ok(json_object(root))
}

/// The report on a finish, as text.
pub fn decoder_finish_diagnostics_json(plan: &KvPlan) -> (text: Result<String, String>)
    ensures
        crate::text::said_text(text) == kv_finish_outcome(*plan),
        text is Ok == (plan.cache_bytes * 2 <= u64::MAX),
{
    let value: serde_json::Value = decoder_finish_diagnostics(plan)?;
    json_text_of(Family::Kv, &value)
}

} // verus!
