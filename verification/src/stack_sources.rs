//! The stack session: its shader sources and their digests.

use crate::diagnostics::insert_blake3;
use crate::digest::source_blake3;
use crate::family::Family;
use crate::json::{json_new, Members};
use crate::sources::{
    canonical_source, list_sources, listed_source, require_override, ListedModel, ListedSource,
};
use crate::text::same;
use vstd::prelude::*;

verus! {

/// The shader sources of a session.
pub struct StackShaderSources {
    pub rms_norm: String,
    pub gemv: String,
    pub gemv_tiled: String,
    pub rms_norm_f16_weights: String,
    pub gemv_tiled_f16_weights: String,
    pub linear_projection_f16_weights: String,
    pub mrope: String,
    pub append: String,
    pub attention: String,
    pub swiglu: String,
    pub residual: String,
    pub projection: String,
    pub prefill_mrope: String,
    pub kv_append_range: String,
    pub prefill_gqa: String,
    pub split_partial: String,
    pub split_merge: String,
}

/// The shader modules that a session looks for, as far as they were found.
pub struct StackShaderModules {
    pub rms_norm: Option<String>,
    pub gemv: Option<String>,
    pub gemv_tiled: Option<String>,
    pub rms_norm_f16_weights: Option<String>,
    pub gemv_tiled_f16_weights: Option<String>,
    pub linear_projection_f16_weights: Option<String>,
    pub mrope: Option<String>,
    pub append: Option<String>,
    pub attention: Option<String>,
    pub swiglu: Option<String>,
    pub residual: Option<String>,
    pub projection: Option<String>,
    pub prefill_mrope: Option<String>,
    pub kv_append_range: Option<String>,
    pub prefill_gqa: Option<String>,
    pub split_partial: Option<String>,
    pub split_merge: Option<String>,
}

/// The shader sources of a session, as plain data.
pub struct StackSourcesModel {
    pub rms_norm: Seq<char>,
    pub gemv: Seq<char>,
    pub gemv_tiled: Seq<char>,
    pub rms_norm_f16_weights: Seq<char>,
    pub gemv_tiled_f16_weights: Seq<char>,
    pub linear_projection_f16_weights: Seq<char>,
    pub mrope: Seq<char>,
    pub append: Seq<char>,
    pub attention: Seq<char>,
    pub swiglu: Seq<char>,
    pub residual: Seq<char>,
    pub projection: Seq<char>,
    pub prefill_mrope: Seq<char>,
    pub kv_append_range: Seq<char>,
    pub prefill_gqa: Seq<char>,
    pub split_partial: Seq<char>,
    pub split_merge: Seq<char>,
}

/// The shader sources of a session, as plain data.
pub open spec fn stack_sources_model(sources: StackShaderSources) -> StackSourcesModel {
    StackSourcesModel {
        rms_norm: sources.rms_norm@,
        gemv: sources.gemv@,
        gemv_tiled: sources.gemv_tiled@,
        rms_norm_f16_weights: sources.rms_norm_f16_weights@,
        gemv_tiled_f16_weights: sources.gemv_tiled_f16_weights@,
        linear_projection_f16_weights: sources.linear_projection_f16_weights@,
        mrope: sources.mrope@,
        append: sources.append@,
        attention: sources.attention@,
        swiglu: sources.swiglu@,
        residual: sources.residual@,
        projection: sources.projection@,
        prefill_mrope: sources.prefill_mrope@,
        kv_append_range: sources.kv_append_range@,
        prefill_gqa: sources.prefill_gqa@,
        split_partial: sources.split_partial@,
        split_merge: sources.split_merge@,
    }
}

/// The kernels of a session whose sources can be replaced.
pub open spec fn stack_kernels() -> Seq<Seq<char>> {
    seq![
        "rms_norm_f32"@,
        "gemv_f32"@,
        "decoder_mrope_f32"@,
        "decoder_kv_append_f32"@,
        "decoder_gqa_f32"@,
        "decoder_swiglu_f32"@,
        "add_f32"@,
        "vision_patch_projection_f32"@,
        "decoder_prefill_mrope_f32"@,
        "decoder_kv_append_range_f32"@,
        "decoder_prefill_gqa_f32"@,
        "decoder_gqa_split_partial_f32"@,
        "decoder_gqa_split_merge_f32"@,
        "gemv_tiled_f32"@,
    ]
}

/// The kernels of a session as messages name them, each with whether its module was found.
pub open spec fn stack_modules_found(modules: StackShaderModules) -> Seq<(Seq<char>, bool)> {
    seq![
        ("decoder stack RMS-norm"@, modules.rms_norm is Some),
        ("decoder stack GEMV"@, modules.gemv is Some),
        ("decoder stack tiled GEMV"@, modules.gemv_tiled is Some),
        ("decoder stack FP16 RMS-norm"@, modules.rms_norm_f16_weights is Some),
        ("decoder stack FP16 tiled GEMV"@, modules.gemv_tiled_f16_weights is Some),
        ("decoder stack FP16 prefill linear"@, modules.linear_projection_f16_weights is Some),
        ("decoder stack M-RoPE"@, modules.mrope is Some),
        ("decoder stack append"@, modules.append is Some),
        ("decoder stack GQA"@, modules.attention is Some),
        ("decoder stack SwiGLU"@, modules.swiglu is Some),
        ("decoder stack residual"@, modules.residual is Some),
        ("decoder stack prefill projection"@, modules.projection is Some),
        ("decoder stack prefill M-RoPE"@, modules.prefill_mrope is Some),
        ("decoder stack KV range-append"@, modules.kv_append_range is Some),
        ("decoder stack prefill GQA"@, modules.prefill_gqa is Some),
        ("decoder stack split partial"@, modules.split_partial is Some),
        ("decoder stack split merge"@, modules.split_merge is Some),
    ]
}

/// The canonical shader sources, or the first that is missing.
pub open spec fn stack_canonical_outcome(modules: StackShaderModules) -> Result<
    StackSourcesModel,
    Seq<char>,
> {
    match crate::sources::first_absent(stack_modules_found(modules), 0) {
        Some(message) => Err(message),
        None => Ok(
            StackSourcesModel {
                rms_norm: modules.rms_norm->Some_0@,
                gemv: modules.gemv->Some_0@,
                gemv_tiled: modules.gemv_tiled->Some_0@,
                rms_norm_f16_weights: modules.rms_norm_f16_weights->Some_0@,
                gemv_tiled_f16_weights: modules.gemv_tiled_f16_weights->Some_0@,
                linear_projection_f16_weights: modules.linear_projection_f16_weights->Some_0@,
                mrope: modules.mrope->Some_0@,
                append: modules.append->Some_0@,
                attention: modules.attention->Some_0@,
                swiglu: modules.swiglu->Some_0@,
                residual: modules.residual->Some_0@,
                projection: modules.projection->Some_0@,
                prefill_mrope: modules.prefill_mrope->Some_0@,
                kv_append_range: modules.kv_append_range->Some_0@,
                prefill_gqa: modules.prefill_gqa->Some_0@,
                split_partial: modules.split_partial->Some_0@,
                split_merge: modules.split_merge->Some_0@,
            },
        ),
    }
}

/// The canonical shader sources, out of the modules of the kernels.
pub fn canonical_stack_sources(modules: StackShaderModules) -> (sources: Result<
    StackShaderSources,
    String,
>)
    ensures
        (match sources {
            Ok(found) => Ok(stack_sources_model(found)),
            Err(message) => Err(message@),
        }) == stack_canonical_outcome(modules),
{
    proof {
        reveal_with_fuel(crate::sources::first_absent, 18);
    }
    let rms_norm: String = canonical_source(modules.rms_norm, "decoder stack RMS-norm")?;
    let gemv: String = canonical_source(modules.gemv, "decoder stack GEMV")?;
    let gemv_tiled: String = canonical_source(modules.gemv_tiled, "decoder stack tiled GEMV")?;
    let rms_norm_f16_weights: String = canonical_source(
        modules.rms_norm_f16_weights,
        "decoder stack FP16 RMS-norm",
    )?;
    let gemv_tiled_f16_weights: String = canonical_source(
        modules.gemv_tiled_f16_weights,
        "decoder stack FP16 tiled GEMV",
    )?;
    let linear_projection_f16_weights: String = canonical_source(
        modules.linear_projection_f16_weights,
        "decoder stack FP16 prefill linear",
    )?;
    let mrope: String = canonical_source(modules.mrope, "decoder stack M-RoPE")?;
    let append: String = canonical_source(modules.append, "decoder stack append")?;
    let attention: String = canonical_source(modules.attention, "decoder stack GQA")?;
    let swiglu: String = canonical_source(modules.swiglu, "decoder stack SwiGLU")?;
    let residual: String = canonical_source(modules.residual, "decoder stack residual")?;
    let projection: String = canonical_source(
        modules.projection,
        "decoder stack prefill projection",
    )?;
    let prefill_mrope: String = canonical_source(
        modules.prefill_mrope,
        "decoder stack prefill M-RoPE",
    )?;
    let kv_append_range: String = canonical_source(
        modules.kv_append_range,
        "decoder stack KV range-append",
    )?;
    let prefill_gqa: String = canonical_source(modules.prefill_gqa, "decoder stack prefill GQA")?;
    let split_partial: String = canonical_source(
        modules.split_partial,
        "decoder stack split partial",
    )?;
    let split_merge: String = canonical_source(modules.split_merge, "decoder stack split merge")?;
    Ok(
        StackShaderSources {
            rms_norm,
            gemv,
            gemv_tiled,
            rms_norm_f16_weights,
            gemv_tiled_f16_weights,
            linear_projection_f16_weights,
            mrope,
            append,
            attention,
            swiglu,
            residual,
            projection,
            prefill_mrope,
            kv_append_range,
            prefill_gqa,
            split_partial,
            split_merge,
        },
    )
}

/// Requires a request to replace one of the kernels of a session.
pub fn require_stack_override(kernel: &str, source: &str) -> (outcome: Result<(), String>)
    ensures
        crate::text::complaint(outcome) == crate::sources::override_complaint(
            Family::Stack,
            stack_kernels(),
            kernel@,
            source@,
        ),
{
    let kernels: Vec<&str> = vec![
        "rms_norm_f32",
        "gemv_f32",
        "decoder_mrope_f32",
        "decoder_kv_append_f32",
        "decoder_gqa_f32",
        "decoder_swiglu_f32",
        "add_f32",
        "vision_patch_projection_f32",
        "decoder_prefill_mrope_f32",
        "decoder_kv_append_range_f32",
        "decoder_prefill_gqa_f32",
        "decoder_gqa_split_partial_f32",
        "decoder_gqa_split_merge_f32",
        "gemv_tiled_f32",
    ];
    assert(crate::text::names(kernels@) =~= stack_kernels());
    require_override(Family::Stack, kernels.as_slice(), kernel, source)
}

/// The sources of a session with that of one kernel replaced.
pub open spec fn stack_overridden(
    sources: StackSourcesModel,
    kernel: Seq<char>,
    source: Seq<char>,
) -> StackSourcesModel {
    if kernel == "rms_norm_f32"@ {
        StackSourcesModel { rms_norm: source, ..sources }
    } else if kernel == "gemv_f32"@ {
        StackSourcesModel { gemv: source, ..sources }
    } else if kernel == "gemv_tiled_f32"@ {
        StackSourcesModel { gemv_tiled: source, ..sources }
    } else if kernel == "decoder_mrope_f32"@ {
        StackSourcesModel { mrope: source, ..sources }
    } else if kernel == "decoder_kv_append_f32"@ {
        StackSourcesModel { append: source, ..sources }
    } else if kernel == "decoder_gqa_f32"@ {
        StackSourcesModel { attention: source, ..sources }
    } else if kernel == "decoder_swiglu_f32"@ {
        StackSourcesModel { swiglu: source, ..sources }
    } else if kernel == "add_f32"@ {
        StackSourcesModel { residual: source, ..sources }
    } else if kernel == "vision_patch_projection_f32"@ {
        StackSourcesModel { projection: source, ..sources }
    } else if kernel == "decoder_prefill_mrope_f32"@ {
        StackSourcesModel { prefill_mrope: source, ..sources }
    } else if kernel == "decoder_kv_append_range_f32"@ {
        StackSourcesModel { kv_append_range: source, ..sources }
    } else if kernel == "decoder_gqa_split_partial_f32"@ {
        StackSourcesModel { split_partial: source, ..sources }
    } else if kernel == "decoder_gqa_split_merge_f32"@ {
        StackSourcesModel { split_merge: source, ..sources }
    } else {
        StackSourcesModel { prefill_gqa: source, ..sources }
    }
}

/// The sources of a session with that of one of its kernels replaced.
pub fn override_stack_source(sources: StackShaderSources, kernel: &str, source: &str) -> (replaced:
    StackShaderSources)
    requires
        stack_kernels().contains(kernel@),
    ensures
        stack_sources_model(replaced) == stack_overridden(
            stack_sources_model(sources),
            kernel@,
            source@,
        ),
{
    let mut replaced: StackShaderSources = sources;
    if same(kernel, "rms_norm_f32") {
        replaced.rms_norm = source.to_owned();
    } else if same(kernel, "gemv_f32") {
        replaced.gemv = source.to_owned();
    } else if same(kernel, "gemv_tiled_f32") {
        replaced.gemv_tiled = source.to_owned();
    } else if same(kernel, "decoder_mrope_f32") {
        replaced.mrope = source.to_owned();
    } else if same(kernel, "decoder_kv_append_f32") {
        replaced.append = source.to_owned();
    } else if same(kernel, "decoder_gqa_f32") {
        replaced.attention = source.to_owned();
    } else if same(kernel, "decoder_swiglu_f32") {
        replaced.swiglu = source.to_owned();
    } else if same(kernel, "add_f32") {
        replaced.residual = source.to_owned();
    } else if same(kernel, "vision_patch_projection_f32") {
        replaced.projection = source.to_owned();
    } else if same(kernel, "decoder_prefill_mrope_f32") {
        replaced.prefill_mrope = source.to_owned();
    } else if same(kernel, "decoder_kv_append_range_f32") {
        replaced.kv_append_range = source.to_owned();
    } else if same(kernel, "decoder_gqa_split_partial_f32") {
        replaced.split_partial = source.to_owned();
    } else if same(kernel, "decoder_gqa_split_merge_f32") {
        replaced.split_merge = source.to_owned();
    } else {
        replaced.prefill_gqa = source.to_owned();
    }
    replaced
}

/// The sources of a session as they are listed.
pub open spec fn stack_listing(sources: StackSourcesModel) -> Seq<ListedModel> {
    seq![
        ListedModel { kernel: "rms_norm_f32"@, label: " RMS-norm"@, source: sources.rms_norm },
        ListedModel { kernel: "gemv_f32"@, label: " GEMV"@, source: sources.gemv },
        ListedModel {
            kernel: "gemv_tiled_f32"@,
            label: " tiled GEMV"@,
            source: sources.gemv_tiled,
        },
        ListedModel { kernel: "decoder_mrope_f32"@, label: " M-RoPE"@, source: sources.mrope },
        ListedModel { kernel: "decoder_kv_append_f32"@, label: " append"@, source: sources.append },
        ListedModel { kernel: "decoder_gqa_f32"@, label: " attention"@, source: sources.attention },
        ListedModel { kernel: "decoder_swiglu_f32"@, label: " SwiGLU"@, source: sources.swiglu },
        ListedModel { kernel: "add_f32"@, label: " residual"@, source: sources.residual },
    ]
}

/// The JSON listing of the sources of the decode kernels of a session.
pub fn stack_sources_json(sources: &StackShaderSources) -> (text: Result<String, String>)
    ensures
        crate::text::said_text(text) == crate::sources::listing_outcome(
            Family::Stack,
            stack_listing(stack_sources_model(*sources)),
            seq![0usize, 1usize, 3usize, 4usize, 5usize, 6usize, 7usize, 2usize],
        ),
        text is Ok,
{
    let listed: Vec<ListedSource<'_>> = vec![
        listed_source("rms_norm_f32", " RMS-norm", sources.rms_norm.as_str()),
        listed_source("gemv_f32", " GEMV", sources.gemv.as_str()),
        listed_source("gemv_tiled_f32", " tiled GEMV", sources.gemv_tiled.as_str()),
        listed_source("decoder_mrope_f32", " M-RoPE", sources.mrope.as_str()),
        listed_source("decoder_kv_append_f32", " append", sources.append.as_str()),
        listed_source("decoder_gqa_f32", " attention", sources.attention.as_str()),
        listed_source("decoder_swiglu_f32", " SwiGLU", sources.swiglu.as_str()),
        listed_source("add_f32", " residual", sources.residual.as_str()),
    ];
    let order: Vec<usize> = vec![0, 1, 3, 4, 5, 6, 7, 2];
    assert(crate::sources::listed_models(listed@) =~= stack_listing(
        stack_sources_model(*sources),
    ));
    assert(order@ =~= seq![0usize, 1usize, 3usize, 4usize, 5usize, 6usize, 7usize, 2usize]);
    list_sources(Family::Stack, &listed, &order)
}

/// The digests of the shader sources of the decode kernels.
#[derive(Clone, Copy, Debug)]
pub struct StackShaderDigests {
    pub rms_norm: [u8; 32],
    pub gemv: [u8; 32],
    pub gemv_tiled: [u8; 32],
    pub mrope: [u8; 32],
    pub append: [u8; 32],
    pub attention: [u8; 32],
    pub swiglu: [u8; 32],
    pub residual: [u8; 32],
    pub split_partial: [u8; 32],
    pub split_merge: [u8; 32],
}

/// Whether digests are those of the shader sources of the decode kernels.
pub open spec fn stack_digests_hold(
    digests: StackShaderDigests,
    sources: StackSourcesModel,
) -> bool {
    &&& digests.rms_norm@ == crate::digest::text_digest(sources.rms_norm)
    &&& digests.gemv@ == crate::digest::text_digest(sources.gemv)
    &&& digests.gemv_tiled@ == crate::digest::text_digest(sources.gemv_tiled)
    &&& digests.mrope@ == crate::digest::text_digest(sources.mrope)
    &&& digests.append@ == crate::digest::text_digest(sources.append)
    &&& digests.attention@ == crate::digest::text_digest(sources.attention)
    &&& digests.swiglu@ == crate::digest::text_digest(sources.swiglu)
    &&& digests.residual@ == crate::digest::text_digest(sources.residual)
    &&& digests.split_partial@ == crate::digest::text_digest(sources.split_partial)
    &&& digests.split_merge@ == crate::digest::text_digest(sources.split_merge)
}

/// The BLAKE3 digests of the shader sources of the decode kernels.
pub fn stack_shader_digests(sources: &StackShaderSources) -> (digests: StackShaderDigests)
    ensures
        stack_digests_hold(digests, stack_sources_model(*sources)),
{
    StackShaderDigests {
        rms_norm: source_blake3(sources.rms_norm.as_str()),
        gemv: source_blake3(sources.gemv.as_str()),
        gemv_tiled: source_blake3(sources.gemv_tiled.as_str()),
        mrope: source_blake3(sources.mrope.as_str()),
        append: source_blake3(sources.append.as_str()),
        attention: source_blake3(sources.attention.as_str()),
        swiglu: source_blake3(sources.swiglu.as_str()),
        residual: source_blake3(sources.residual.as_str()),
        split_partial: source_blake3(sources.split_partial.as_str()),
        split_merge: source_blake3(sources.split_merge.as_str()),
    }
}

/// The digests of the shader sources of the prefill kernels.
#[derive(Clone, Copy, Debug)]
pub struct PrefillShaderDigests {
    pub projection: [u8; 32],
    pub prefill_mrope: [u8; 32],
    pub kv_append_range: [u8; 32],
    pub prefill_gqa: [u8; 32],
}

/// Whether digests are those of the shader sources of the prefill kernels.
pub open spec fn prefill_digests_hold(
    digests: PrefillShaderDigests,
    sources: StackSourcesModel,
) -> bool {
    &&& digests.projection@ == crate::digest::text_digest(sources.projection)
    &&& digests.prefill_mrope@ == crate::digest::text_digest(sources.prefill_mrope)
    &&& digests.kv_append_range@ == crate::digest::text_digest(sources.kv_append_range)
    &&& digests.prefill_gqa@ == crate::digest::text_digest(sources.prefill_gqa)
}

/// The BLAKE3 digests of the shader sources of the prefill kernels, for a session that has a
/// prefill.
pub fn prefill_shader_digests(prefill_capable: bool, sources: &StackShaderSources) -> (digests:
    Option<PrefillShaderDigests>)
    ensures
        match digests {
            Some(found) => prefill_capable && prefill_digests_hold(
                found,
                stack_sources_model(*sources),
            ),
            None => !prefill_capable,
        },
{
    if prefill_capable {
        Some(
            PrefillShaderDigests {
                projection: source_blake3(sources.projection.as_str()),
                prefill_mrope: source_blake3(sources.prefill_mrope.as_str()),
                kv_append_range: source_blake3(sources.kv_append_range.as_str()),
                prefill_gqa: source_blake3(sources.prefill_gqa.as_str()),
            },
        )
    } else {
        None
    }
}

/// The digests of the decode kernels, by kernel.
pub open spec fn stack_digest_members(digests: StackShaderDigests) -> Members {
    crate::json::no_members()
        .insert("rms_norm_f32"@, crate::diagnostics::digest_tree(digests.rms_norm@))
        .insert("gemv_f32"@, crate::diagnostics::digest_tree(digests.gemv@))
        .insert("decoder_mrope_f32"@, crate::diagnostics::digest_tree(digests.mrope@))
        .insert("decoder_kv_append_f32"@, crate::diagnostics::digest_tree(digests.append@))
        .insert("decoder_gqa_f32"@, crate::diagnostics::digest_tree(digests.attention@))
        .insert("decoder_swiglu_f32"@, crate::diagnostics::digest_tree(digests.swiglu@))
        .insert("add_f32"@, crate::diagnostics::digest_tree(digests.residual@))
        .insert("gemv_tiled_f32"@, crate::diagnostics::digest_tree(digests.gemv_tiled@))
        .insert(
            "decoder_gqa_split_partial_f32"@,
            crate::diagnostics::digest_tree(digests.split_partial@),
        )
        .insert(
            "decoder_gqa_split_merge_f32"@,
            crate::diagnostics::digest_tree(digests.split_merge@),
        )
}

/// The digests of the decode kernels, by kernel.
pub(crate) fn shader_blake3_members(digests: &StackShaderDigests) -> (hashes: serde_json::Map<
    String,
    serde_json::Value,
>)
    ensures
        crate::json::object_members(hashes) == stack_digest_members(*digests),
{
    let mut hashes: serde_json::Map<String, serde_json::Value> = json_new();
    insert_blake3(&mut hashes, "rms_norm_f32", &digests.rms_norm);
    insert_blake3(&mut hashes, "gemv_f32", &digests.gemv);
    insert_blake3(&mut hashes, "decoder_mrope_f32", &digests.mrope);
    insert_blake3(&mut hashes, "decoder_kv_append_f32", &digests.append);
    insert_blake3(&mut hashes, "decoder_gqa_f32", &digests.attention);
    insert_blake3(&mut hashes, "decoder_swiglu_f32", &digests.swiglu);
    insert_blake3(&mut hashes, "add_f32", &digests.residual);
    insert_blake3(&mut hashes, "gemv_tiled_f32", &digests.gemv_tiled);
    insert_blake3(&mut hashes, "decoder_gqa_split_partial_f32", &digests.split_partial);
    insert_blake3(&mut hashes, "decoder_gqa_split_merge_f32", &digests.split_merge);
    hashes
}

/// Digests by kernel, with those of the prefill kernels.
pub open spec fn with_prefill_digests(members: Members, digests: PrefillShaderDigests) -> Members {
    members
        .insert(
            "vision_patch_projection_f32"@,
            crate::diagnostics::digest_tree(digests.projection@),
        )
        .insert(
            "decoder_prefill_mrope_f32"@,
            crate::diagnostics::digest_tree(digests.prefill_mrope@),
        )
        .insert(
            "decoder_kv_append_range_f32"@,
            crate::diagnostics::digest_tree(digests.kv_append_range@),
        )
        .insert("decoder_prefill_gqa_f32"@, crate::diagnostics::digest_tree(digests.prefill_gqa@))
}

/// Gives digests by kernel those of the prefill kernels too.
pub(crate) fn extend_shader_blake3_with_prefill(
    hashes: &mut serde_json::Map<String, serde_json::Value>,
    digests: &PrefillShaderDigests,
)
    ensures
        crate::json::object_members(*final(hashes)) == with_prefill_digests(
            crate::json::object_members(*old(hashes)),
            *digests,
        ),
{
    insert_blake3(hashes, "vision_patch_projection_f32", &digests.projection);
    insert_blake3(hashes, "decoder_prefill_mrope_f32", &digests.prefill_mrope);
    insert_blake3(hashes, "decoder_kv_append_range_f32", &digests.kv_append_range);
    insert_blake3(hashes, "decoder_prefill_gqa_f32", &digests.prefill_gqa);
}

} // verus!
