//! The attention-block session of one layer: its shader sources and its diagnostics.

use crate::diagnostics::{
    checked_scopes_json, effects_json, empty_array, insert_blake3, insert_u64, json_text_of,
};
use crate::digest::source_blake3;
use crate::family::Family;
use crate::json::{json_insert, json_new, json_object, JsonTree};
use crate::kv::{KvPlan, KvStepPlan};
use crate::layer::AttentionPlan;
use crate::sizes::checked_u64_bytes;
use crate::sources::{
    canonical_source, list_sources, listed_source, require_override, ListedModel, ListedSource,
};
use crate::text::same;
use vstd::prelude::*;

verus! {

/// The shader sources of a session.
pub struct LayerShaderSources {
    pub rms_norm: String,
    pub gemv: String,
    pub mrope: String,
    pub append: String,
    pub attention: String,
    pub residual: String,
}

/// The shader modules that a session looks for, as far as they were found.
pub struct LayerShaderModules {
    pub rms_norm: Option<String>,
    pub gemv: Option<String>,
    pub mrope: Option<String>,
    pub append: Option<String>,
    pub attention: Option<String>,
    pub residual: Option<String>,
}

/// The shader sources of a session, as plain data.
pub struct LayerSourcesModel {
    pub rms_norm: Seq<char>,
    pub gemv: Seq<char>,
    pub mrope: Seq<char>,
    pub append: Seq<char>,
    pub attention: Seq<char>,
    pub residual: Seq<char>,
}

/// The shader sources of a session, as plain data.
pub open spec fn layer_sources_model(sources: LayerShaderSources) -> LayerSourcesModel {
    LayerSourcesModel {
        rms_norm: sources.rms_norm@,
        gemv: sources.gemv@,
        mrope: sources.mrope@,
        append: sources.append@,
        attention: sources.attention@,
        residual: sources.residual@,
    }
}

/// The kernels of a session.
pub open spec fn layer_kernels() -> Seq<Seq<char>> {
    seq![
        "rms_norm_f32"@,
        "gemv_f32"@,
        "decoder_mrope_f32"@,
        "decoder_kv_append_f32"@,
        "decoder_gqa_f32"@,
        "add_f32"@,
    ]
}

/// The kernels of a session as messages name them, each with whether its module was found.
pub open spec fn layer_modules_found(modules: LayerShaderModules) -> Seq<(Seq<char>, bool)> {
    seq![
        ("decoder layer RMS-norm"@, modules.rms_norm is Some),
        ("decoder layer GEMV"@, modules.gemv is Some),
        ("decoder layer M-RoPE"@, modules.mrope is Some),
        ("decoder layer append"@, modules.append is Some),
        ("decoder layer GQA"@, modules.attention is Some),
        ("decoder layer residual"@, modules.residual is Some),
    ]
}

/// The canonical shader sources, or the first that is missing.
pub open spec fn layer_canonical_outcome(modules: LayerShaderModules) -> Result<
    LayerSourcesModel,
    Seq<char>,
> {
    match crate::sources::first_absent(layer_modules_found(modules), 0) {
        Some(message) => Err(message),
        None => Ok(
            LayerSourcesModel {
                rms_norm: modules.rms_norm->Some_0@,
                gemv: modules.gemv->Some_0@,
                mrope: modules.mrope->Some_0@,
                append: modules.append->Some_0@,
                attention: modules.attention->Some_0@,
                residual: modules.residual->Some_0@,
            },
        ),
    }
}

/// The canonical shader sources, out of the modules of the kernels.
pub fn canonical_layer_sources(modules: LayerShaderModules) -> (sources: Result<
    LayerShaderSources,
    String,
>)
    ensures
        (match sources {
            Ok(found) => Ok(layer_sources_model(found)),
            Err(message) => Err(message@),
        }) == layer_canonical_outcome(modules),
{
    proof {
        reveal_with_fuel(crate::sources::first_absent, 7);
    }
    let rms_norm: String = canonical_source(modules.rms_norm, "decoder layer RMS-norm")?;
    let gemv: String = canonical_source(modules.gemv, "decoder layer GEMV")?;
    let mrope: String = canonical_source(modules.mrope, "decoder layer M-RoPE")?;
    let append: String = canonical_source(modules.append, "decoder layer append")?;
    let attention: String = canonical_source(modules.attention, "decoder layer GQA")?;
    let residual: String = canonical_source(modules.residual, "decoder layer residual")?;
    Ok(LayerShaderSources { rms_norm, gemv, mrope, append, attention, residual })
}

/// Requires a request to replace one of the kernels of a session.
pub fn require_layer_override(kernel: &str, source: &str) -> (outcome: Result<(), String>)
    ensures
        crate::text::complaint(outcome) == crate::sources::override_complaint(
            Family::Layer,
            layer_kernels(),
            kernel@,
            source@,
        ),
{
    let kernels: Vec<&str> = vec![
        "rms_norm_f32",
        "gemv_f32",
        "decoder_mrope_f32",
        "decoder_kv_append_f32",
        "decoder_gqa_f32",
        "add_f32",
    ];
    assert(crate::text::names(kernels@) =~= layer_kernels());
    require_override(Family::Layer, kernels.as_slice(), kernel, source)
}

/// The sources of a session with that of one kernel replaced.
pub open spec fn layer_overridden(
    sources: LayerSourcesModel,
    kernel: Seq<char>,
    source: Seq<char>,
) -> LayerSourcesModel {
    if kernel == "rms_norm_f32"@ {
        LayerSourcesModel { rms_norm: source, ..sources }
    } else if kernel == "gemv_f32"@ {
        LayerSourcesModel { gemv: source, ..sources }
    } else if kernel == "decoder_mrope_f32"@ {
        LayerSourcesModel { mrope: source, ..sources }
    } else if kernel == "decoder_kv_append_f32"@ {
        LayerSourcesModel { append: source, ..sources }
    } else if kernel == "decoder_gqa_f32"@ {
        LayerSourcesModel { attention: source, ..sources }
    } else {
        LayerSourcesModel { residual: source, ..sources }
    }
}

/// The sources of a session with that of one of its kernels replaced.
pub fn override_layer_source(sources: LayerShaderSources, kernel: &str, source: &str) -> (replaced:
    LayerShaderSources)
    requires
        layer_kernels().contains(kernel@),
    ensures
        layer_sources_model(replaced) == layer_overridden(
            layer_sources_model(sources),
            kernel@,
            source@,
        ),
{
    let mut replaced: LayerShaderSources = sources;
    if same(kernel, "rms_norm_f32") {
        replaced.rms_norm = source.to_owned();
    } else if same(kernel, "gemv_f32") {
        replaced.gemv = source.to_owned();
    } else if same(kernel, "decoder_mrope_f32") {
        replaced.mrope = source.to_owned();
    } else if same(kernel, "decoder_kv_append_f32") {
        replaced.append = source.to_owned();
    } else if same(kernel, "decoder_gqa_f32") {
        replaced.attention = source.to_owned();
    } else {
        replaced.residual = source.to_owned();
    }
    replaced
}

/// The sources of a session as they are listed.
pub open spec fn layer_listing(sources: LayerSourcesModel) -> Seq<ListedModel> {
    seq![
        ListedModel { kernel: "rms_norm_f32"@, label: " RMS-norm"@, source: sources.rms_norm },
        ListedModel { kernel: "gemv_f32"@, label: " GEMV"@, source: sources.gemv },
        ListedModel { kernel: "decoder_mrope_f32"@, label: " M-RoPE"@, source: sources.mrope },
        ListedModel { kernel: "decoder_kv_append_f32"@, label: " append"@, source: sources.append },
        ListedModel { kernel: "decoder_gqa_f32"@, label: " attention"@, source: sources.attention },
        ListedModel { kernel: "add_f32"@, label: " residual"@, source: sources.residual },
    ]
}

/// The JSON listing of the sources of a session.
pub fn layer_sources_json(sources: &LayerShaderSources) -> (text: Result<String, String>)
    ensures
        crate::text::said_text(text) == crate::sources::listing_outcome(
            Family::Layer,
            layer_listing(layer_sources_model(*sources)),
            seq![0usize, 1usize, 2usize, 3usize, 4usize, 5usize],
        ),
        text is Ok,
{
    let listed: Vec<ListedSource<'_>> = vec![
        listed_source("rms_norm_f32", " RMS-norm", sources.rms_norm.as_str()),
        listed_source("gemv_f32", " GEMV", sources.gemv.as_str()),
        listed_source("decoder_mrope_f32", " M-RoPE", sources.mrope.as_str()),
        listed_source("decoder_kv_append_f32", " append", sources.append.as_str()),
        listed_source("decoder_gqa_f32", " attention", sources.attention.as_str()),
        listed_source("add_f32", " residual", sources.residual.as_str()),
    ];
    let order: Vec<usize> = vec![0, 1, 2, 3, 4, 5];
    assert(crate::sources::listed_models(listed@) =~= layer_listing(
        layer_sources_model(*sources),
    ));
    assert(order@ =~= seq![0usize, 1usize, 2usize, 3usize, 4usize, 5usize]);
    list_sources(Family::Layer, &listed, &order)
}

/// The digests of the shader sources of a session.
pub struct LayerShaderDigests {
    pub rms_norm: [u8; 32],
    pub gemv: [u8; 32],
    pub mrope: [u8; 32],
    pub append: [u8; 32],
    pub attention: [u8; 32],
    pub residual: [u8; 32],
}

/// Whether digests are those of the shader sources of a session.
pub open spec fn layer_digests_hold(
    digests: LayerShaderDigests,
    sources: LayerSourcesModel,
) -> bool {
    &&& digests.rms_norm@ == crate::digest::text_digest(sources.rms_norm)
    &&& digests.gemv@ == crate::digest::text_digest(sources.gemv)
    &&& digests.mrope@ == crate::digest::text_digest(sources.mrope)
    &&& digests.append@ == crate::digest::text_digest(sources.append)
    &&& digests.attention@ == crate::digest::text_digest(sources.attention)
    &&& digests.residual@ == crate::digest::text_digest(sources.residual)
}

/// The BLAKE3 digests of the shader sources of a session.
pub fn layer_shader_digests(sources: &LayerShaderSources) -> (digests: LayerShaderDigests)
    ensures
        layer_digests_hold(digests, layer_sources_model(*sources)),
{
    LayerShaderDigests {
        rms_norm: source_blake3(sources.rms_norm.as_str()),
        gemv: source_blake3(sources.gemv.as_str()),
        mrope: source_blake3(sources.mrope.as_str()),
        append: source_blake3(sources.append.as_str()),
        attention: source_blake3(sources.attention.as_str()),
        residual: source_blake3(sources.residual.as_str()),
    }
}

/// The digests of the kernels of a session.
pub open spec fn layer_digests_tree(digests: LayerShaderDigests) -> JsonTree {
    JsonTree::Object(
        crate::json::no_members()
            .insert("rms_norm_f32"@, crate::diagnostics::digest_tree(digests.rms_norm@))
            .insert("gemv_f32"@, crate::diagnostics::digest_tree(digests.gemv@))
            .insert("decoder_mrope_f32"@, crate::diagnostics::digest_tree(digests.mrope@))
            .insert("decoder_kv_append_f32"@, crate::diagnostics::digest_tree(digests.append@))
            .insert("decoder_gqa_f32"@, crate::diagnostics::digest_tree(digests.attention@))
            .insert("add_f32"@, crate::diagnostics::digest_tree(digests.residual@)),
    )
}

fn shader_blake3_json(digests: &LayerShaderDigests) -> (value: serde_json::Value)
    ensures
        crate::json::value_tree(value) == layer_digests_tree(*digests),
{
    let mut hashes: serde_json::Map<String, serde_json::Value> = json_new();
    insert_blake3(&mut hashes, "rms_norm_f32", &digests.rms_norm);
    insert_blake3(&mut hashes, "gemv_f32", &digests.gemv);
    insert_blake3(&mut hashes, "decoder_mrope_f32", &digests.mrope);
    insert_blake3(&mut hashes, "decoder_kv_append_f32", &digests.append);
    insert_blake3(&mut hashes, "decoder_gqa_f32", &digests.attention);
    insert_blake3(&mut hashes, "add_f32", &digests.residual);
    json_object(hashes)
}

/// What is reported of a new session.
pub open spec fn layer_creation_tree(
    kv_plan: KvPlan,
    plan: AttentionPlan,
    digests: LayerShaderDigests,
) -> JsonTree {
    let integer = |value: u64| crate::json::integer_tree(value);
    JsonTree::Object(
        crate::json::no_members()
            .insert("schema_version"@, integer(1))
            .insert("initial_cache_tokens"@, integer(kv_plan.initial_cache_tokens as u64))
            .insert("cache_capacity"@, integer(kv_plan.cache_capacity as u64))
            .insert("hidden_size"@, integer(plan.hidden_size as u64))
            .insert("query_heads"@, integer(kv_plan.query_heads as u64))
            .insert("key_value_heads"@, integer(kv_plan.key_value_heads as u64))
            .insert("head_dim"@, integer(kv_plan.head_dim as u64))
            .insert("checked_error_scopes"@, crate::diagnostics::checked_scopes_tree())
            .insert("captured_errors"@, crate::diagnostics::empty_array_tree())
            .insert("shader_blake3"@, layer_digests_tree(digests))
            .insert("buffer_count"@, integer(29))
            .insert("pipeline_count"@, integer(6))
            .insert("bind_group_count"@, integer(9))
            .insert("initial_upload_count"@, integer(9)),
    )
}

/// What is reported of a new session.
pub fn layer_creation_diagnostics(
    kv_plan: &KvPlan,
    plan: &AttentionPlan,
    digests: &LayerShaderDigests,
) -> (value: serde_json::Value)
    ensures
        crate::json::value_tree(value) == layer_creation_tree(*kv_plan, *plan, *digests),
{
    let mut root: serde_json::Map<String, serde_json::Value> = json_new();
    insert_u64(&mut root, "schema_version", 1);
    insert_u64(&mut root, "initial_cache_tokens", kv_plan.initial_cache_tokens as u64);
    insert_u64(&mut root, "cache_capacity", kv_plan.cache_capacity as u64);
    insert_u64(&mut root, "hidden_size", plan.hidden_size as u64);
    insert_u64(&mut root, "query_heads", kv_plan.query_heads as u64);
    insert_u64(&mut root, "key_value_heads", kv_plan.key_value_heads as u64);
    insert_u64(&mut root, "head_dim", kv_plan.head_dim as u64);
    json_insert(&mut root, "checked_error_scopes", checked_scopes_json());
    json_insert(&mut root, "captured_errors", empty_array());
    json_insert(&mut root, "shader_blake3", shader_blake3_json(digests));
    insert_u64(&mut root, "buffer_count", 29);
    insert_u64(&mut root, "pipeline_count", 6);
    insert_u64(&mut root, "bind_group_count", 9);
    insert_u64(&mut root, "initial_upload_count", 9);
    json_object(root)
}

/// The report on a new session, as text.
pub fn layer_creation_diagnostics_json(
    kv_plan: &KvPlan,
    plan: &AttentionPlan,
    digests: &LayerShaderDigests,
) -> (text: Result<String, String>)
    ensures
        crate::text::said_text(text) == crate::diagnostics::rendered_outcome(
            Family::Layer,
            crate::json::rendered_json(layer_creation_tree(*kv_plan, *plan, *digests)),
        ),
        text is Ok,
{
    let value: serde_json::Value = layer_creation_diagnostics(kv_plan, plan, digests);
    json_text_of(Family::Layer, &value)
}

/// The effects of a step, in order.
pub open spec fn layer_step_kinds() -> Seq<Seq<char>> {
    seq![
        "queue_write"@,
        "queue_write"@,
        "queue_write"@,
        "queue_write"@,
        "queue_write"@,
        "queue_write"@,
        "queue_write"@,
        "queue_write"@,
        "queue_write"@,
        "queue_write"@,
        "dispatch_rms_norm"@,
        "dispatch_query"@,
        "dispatch_key"@,
        "dispatch_value"@,
        "dispatch_mrope"@,
        "dispatch_append"@,
        "dispatch_gqa"@,
        "dispatch_output"@,
        "dispatch_residual"@,
        "copy_residual"@,
        "submit"@,
        "map_residual"@,
    ]
}

/// What is reported of a step.
pub open spec fn layer_step_tree(
    plan: AttentionPlan,
    step: KvStepPlan,
    digests: LayerShaderDigests,
) -> JsonTree {
    let integer = |value: u64| crate::json::integer_tree(value);
    JsonTree::Object(
        crate::json::no_members()
            .insert("schema_version"@, integer(1))
            .insert("cache_tokens_before"@, integer(step.cache_tokens_before as u64))
            .insert("cache_tokens_after"@, integer(step.cache_tokens_after as u64))
            .insert("checked_error_scopes"@, crate::diagnostics::checked_scopes_tree())
            .insert("captured_errors"@, crate::diagnostics::empty_array_tree())
            .insert("shader_blake3"@, layer_digests_tree(digests))
            .insert("queue_write_count"@, integer(10))
            .insert("command_encoder_count"@, integer(1))
            .insert("compute_pass_count"@, integer(9))
            .insert("dispatch_count"@, integer(9))
            .insert("copy_count"@, integer(1))
            .insert("command_buffer_count"@, integer(1))
            .insert("submission_count"@, integer(1))
            .insert("map_count"@, integer(1))
            .insert("readback_bytes"@, integer((plan.hidden_size * 4) as u64))
            .insert("effects"@, crate::diagnostics::effects_tree(layer_step_kinds())),
    )
}

/// What is reported of a step.
pub fn layer_step_diagnostics(
    plan: &AttentionPlan,
    step: &KvStepPlan,
    digests: &LayerShaderDigests,
) -> (value: Result<serde_json::Value, String>)
    ensures
        value matches Ok(report) && crate::json::value_tree(report) == layer_step_tree(
            *plan,
            *step,
            *digests,
        ),
{
    let hidden_row_bytes: u64 = checked_u64_bytes(
        plan.hidden_size as usize,
        "decoder hidden row",
    )?;
    let kinds: Vec<&'static str> = vec![
        "queue_write",
        "queue_write",
        "queue_write",
        "queue_write",
        "queue_write",
        "queue_write",
        "queue_write",
        "queue_write",
        "queue_write",
        "queue_write",
        "dispatch_rms_norm",
        "dispatch_query",
        "dispatch_key",
        "dispatch_value",
        "dispatch_mrope",
        "dispatch_append",
        "dispatch_gqa",
        "dispatch_output",
        "dispatch_residual",
        "copy_residual",
        "submit",
        "map_residual",
    ];
    assert(crate::text::names(kinds@) =~= layer_step_kinds());
    let mut root: serde_json::Map<String, serde_json::Value> = json_new();
    insert_u64(&mut root, "schema_version", 1);
    insert_u64(&mut root, "cache_tokens_before", step.cache_tokens_before as u64);
    insert_u64(&mut root, "cache_tokens_after", step.cache_tokens_after as u64);
    json_insert(&mut root, "checked_error_scopes", checked_scopes_json());
    json_insert(&mut root, "captured_errors", empty_array());
    json_insert(&mut root, "shader_blake3", shader_blake3_json(digests));
    insert_u64(&mut root, "queue_write_count", 10);
    insert_u64(&mut root, "command_encoder_count", 1);
    insert_u64(&mut root, "compute_pass_count", 9);
    insert_u64(&mut root, "dispatch_count", 9);
    insert_u64(&mut root, "copy_count", 1);
    insert_u64(&mut root, "command_buffer_count", 1);
    insert_u64(&mut root, "submission_count", 1);
    insert_u64(&mut root, "map_count", 1);
    insert_u64(&mut root, "readback_bytes", hidden_row_bytes);
    json_insert(&mut root, "effects", effects_json(&kinds));
    Ok(json_object(root))
}

/// The report on a step, as text.
pub fn layer_step_diagnostics_json(
    plan: &AttentionPlan,
    step: &KvStepPlan,
    digests: &LayerShaderDigests,
) -> (text: Result<String, String>)
    ensures
        crate::text::said_text(text) == crate::diagnostics::rendered_outcome(
            Family::Layer,
            crate::json::rendered_json(layer_step_tree(*plan, *step, *digests)),
        ),
        text is Ok,
{
    let value: serde_json::Value = layer_step_diagnostics(plan, step, digests)?;
    json_text_of(Family::Layer, &value)
}

/// What is reported of a finish.
pub open spec fn layer_finish_tree(kv_plan: KvPlan) -> JsonTree {
    let integer = |value: u64| crate::json::integer_tree(value);
    JsonTree::Object(
        crate::json::no_members()
            .insert("schema_version"@, integer(1))
            .insert("checked_error_scopes"@, crate::diagnostics::checked_scopes_tree())
            .insert("captured_errors"@, crate::diagnostics::empty_array_tree())
            .insert("buffer_allocation_count"@, integer(2))
            .insert("queue_write_count"@, integer(0))
            .insert("command_encoder_count"@, integer(1))
            .insert("compute_pass_count"@, integer(0))
            .insert("dispatch_count"@, integer(0))
            .insert("copy_count"@, integer(2))
            .insert("command_buffer_count"@, integer(1))
            .insert("submission_count"@, integer(1))
            .insert("map_count"@, integer(2))
            .insert("readback_bytes"@, integer((kv_plan.cache_bytes * 2) as u64)),
    )
}

/// The report on a finish, or why there is none.
pub open spec fn layer_finish_outcome(kv_plan: KvPlan) -> Result<Seq<char>, Seq<char>> {
    if kv_plan.cache_bytes * 2 > u64::MAX {
        Err("decoder layer finish readback overflowed"@)
    } else {
        crate::diagnostics::rendered_outcome(
            Family::Layer,
            crate::json::rendered_json(layer_finish_tree(kv_plan)),
        )
    }
}

/// What is reported of a finish.
pub fn layer_finish_diagnostics(kv_plan: &KvPlan) -> (value: Result<serde_json::Value, String>)
    ensures
        match value {
            Ok(report) => kv_plan.cache_bytes * 2 <= u64::MAX && crate::json::value_tree(report)
                == layer_finish_tree(*kv_plan),
            Err(message) => kv_plan.cache_bytes * 2 > u64::MAX && message@
                == "decoder layer finish readback overflowed"@,
        },
{
    let readback_bytes: u64 = match kv_plan.cache_bytes.checked_mul(2) {
        Some(bytes) => bytes,
        None => {
            return Err("decoder layer finish readback overflowed".to_owned());
        },
    };
    let mut root: serde_json::Map<String, serde_json::Value> = json_new();
    insert_u64(&mut root, "schema_version", 1);
    json_insert(&mut root, "checked_error_scopes", checked_scopes_json());
    json_insert(&mut root, "captured_errors", empty_array());
    insert_u64(&mut root, "buffer_allocation_count", 2);
    insert_u64(&mut root, "queue_write_count", 0);
    insert_u64(&mut root, "command_encoder_count", 1);
    insert_u64(&mut root, "compute_pass_count", 0);
    insert_u64(&mut root, "dispatch_count", 0);
    insert_u64(&mut root, "copy_count", 2);
    insert_u64(&mut root, "command_buffer_count", 1);
    insert_u64(&mut root, "submission_count", 1);
    insert_u64(&mut root, "map_count", 2);
    insert_u64(&mut root, "readback_bytes", readback_bytes);
    Ok(json_object(root))
}

/// The report on a finish, as text.
pub fn layer_finish_diagnostics_json(kv_plan: &KvPlan) -> (text: Result<String, String>)
    ensures
        crate::text::said_text(text) == layer_finish_outcome(*kv_plan),
        text is Ok == (kv_plan.cache_bytes * 2 <= u64::MAX),
{
    let value: serde_json::Value = layer_finish_diagnostics(kv_plan)?;
    json_text_of(Family::Layer, &value)
}

} // verus!
