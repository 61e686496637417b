//! Laws of the names: shaders go by their kernels, and planners are told what descriptors say.

use crate::descriptor::{KvDescriptor, LayerDescriptor, StackDescriptor};
use crate::family::{DecoderPins, Family, WeightStorage};
use crate::geometry::StackGeometry;
use crate::gpu::DerivedModel;
use crate::json::JsonTree;
use crate::kv::{KV_APPEND, KV_ATTENTION};
use crate::kv_report::KvSourcesModel;
use crate::layer::{
    LAYER_PIPELINE_APPEND, LAYER_PIPELINE_ATTENTION, LAYER_PIPELINE_GEMV, LAYER_PIPELINE_MROPE,
    LAYER_PIPELINE_RESIDUAL, LAYER_PIPELINE_RMS_NORM,
};
use crate::layer_report::{LayerShaderDigests, LayerShaderModules, LayerSourcesModel};
use crate::sources::ListedModel;
use crate::stack_flow::StackRun;
use crate::stack_plan::{PrefillPlan, StackPlan};
use crate::stack_resources::{
    PipelineModel, PIPELINE_APPEND, PIPELINE_APPEND_RANGE, PIPELINE_MROPE, PIPELINE_PREFILL_GQA,
    PIPELINE_PREFILL_MROPE, PIPELINE_RESIDUAL, PIPELINE_SPLIT_MERGE, PIPELINE_SPLIT_PARTIAL,
    PIPELINE_SWIGLU,
};
use crate::stack_sources::{
    PrefillShaderDigests, StackShaderDigests, StackShaderModules, StackSourcesModel,
};
use vstd::prelude::*;

verus! {

/// The members of a JSON object.
pub type Members = Map<Seq<char>, JsonTree>;

/// No two kernels have the same name.
proof fn lemma_kernel_names()
    ensures
        "rms_norm_f32"@.len() == 12,
        "gemv_f32"@.len() == 8,
        "gemv_tiled_f32"@.len() == 14,
        "decoder_mrope_f32"@.len() == 17,
        "decoder_kv_append_f32"@.len() == 21,
        "decoder_gqa_f32"@.len() == 15,
        "decoder_swiglu_f32"@.len() == 18,
        "add_f32"@.len() == 7,
        "vision_patch_projection_f32"@.len() == 27,
        "decoder_prefill_mrope_f32"@.len() == 25,
        "decoder_kv_append_range_f32"@.len() == 27,
        "decoder_prefill_gqa_f32"@.len() == 23,
        "decoder_gqa_split_partial_f32"@.len() == 29,
        "decoder_gqa_split_merge_f32"@.len() == 27,
        "rms_norm_f16_weights"@.len() == 20,
        "gemv_tiled_f16_weights"@.len() == 22,
        "linear_projection_f16_weights"@.len() == 29,
        "decoder_logits_top1_f32"@.len() == 23,
        "vision_patch_projection_f32"@ != "decoder_kv_append_range_f32"@,
        "vision_patch_projection_f32"@ != "decoder_gqa_split_merge_f32"@,
        "decoder_kv_append_range_f32"@ != "decoder_gqa_split_merge_f32"@,
        "decoder_prefill_gqa_f32"@ != "decoder_logits_top1_f32"@,
        "decoder_gqa_split_partial_f32"@ != "linear_projection_f16_weights"@,
{
    reveal_strlit("rms_norm_f32");
    reveal_strlit("gemv_f32");
    reveal_strlit("gemv_tiled_f32");
    reveal_strlit("decoder_mrope_f32");
    reveal_strlit("decoder_kv_append_f32");
    reveal_strlit("decoder_gqa_f32");
    reveal_strlit("decoder_swiglu_f32");
    reveal_strlit("add_f32");
    reveal_strlit("vision_patch_projection_f32");
    reveal_strlit("decoder_prefill_mrope_f32");
    reveal_strlit("decoder_kv_append_range_f32");
    reveal_strlit("decoder_prefill_gqa_f32");
    reveal_strlit("decoder_gqa_split_partial_f32");
    reveal_strlit("decoder_gqa_split_merge_f32");
    reveal_strlit("rms_norm_f16_weights");
    reveal_strlit("gemv_tiled_f16_weights");
    reveal_strlit("linear_projection_f16_weights");
    reveal_strlit("decoder_logits_top1_f32");
    assert("vision_patch_projection_f32"@[0] != "decoder_kv_append_range_f32"@[0]);
    assert("vision_patch_projection_f32"@[0] != "decoder_gqa_split_merge_f32"@[0]);
    assert("decoder_kv_append_range_f32"@[8] != "decoder_gqa_split_merge_f32"@[8]);
    assert("decoder_prefill_gqa_f32"@[8] != "decoder_logits_top1_f32"@[8]);
    assert("decoder_gqa_split_partial_f32"@[0] != "linear_projection_f16_weights"@[0]);
}

/// Whether one list of pipelines is another one with the source of one kernel replaced.
pub open spec fn derived_replaced(
    before: Seq<DerivedModel>,
    after: Seq<DerivedModel>,
    kernel: Seq<char>,
    source: Seq<char>,
) -> bool {
    &&& before.len() == after.len()
    &&& forall|i: int|
        #![trigger before[i]]
        #![trigger after[i]]
        0 <= i < before.len() ==> after[i].place == before[i].place && after[i].kernel
            == before[i].kernel && after[i].source == (if before[i].kernel == kernel {
            source
        } else {
            before[i].source
        })
}

/// Whether one list of pipelines is another one with the source of one kernel replaced.
pub open spec fn placed_replaced(
    before: Seq<PipelineModel>,
    after: Seq<PipelineModel>,
    kernel: Seq<char>,
    source: Seq<char>,
) -> bool {
    &&& before.len() == after.len()
    &&& forall|i: int|
        #![trigger before[i]]
        #![trigger after[i]]
        0 <= i < before.len() ==> after[i].place == before[i].place && after[i].kernel
            == before[i].kernel && after[i].layout == before[i].layout && after[i].source == (
        if before[i].kernel == kernel {
            source
        } else {
            before[i].source
        })
}

/// Whether one listing of sources is another one with the source of one kernel replaced.
pub open spec fn listing_replaced(
    before: Seq<ListedModel>,
    after: Seq<ListedModel>,
    kernel: Seq<char>,
    source: Seq<char>,
) -> bool {
    &&& before.len() == after.len()
    &&& forall|i: int|
        #![trigger before[i]]
        #![trigger after[i]]
        0 <= i < before.len() ==> after[i].kernel == before[i].kernel && after[i].source == (
        if before[i].kernel == kernel {
            source
        } else {
            before[i].source
        })
}

/// Replacing the source of a kernel of a key/value cache session replaces the source of the
/// pipeline of that kernel, and of no other; and so in the listing of the sources.
pub proof fn law_kv_override_replaces_its_kernel(
    sources: KvSourcesModel,
    kernel: Seq<char>,
    source: Seq<char>,
)
    requires
        crate::kv_report::kv_kernels().contains(kernel),
    ensures
        ({
            let replaced = crate::kv_report::kv_overridden(sources, kernel, source);
            &&& derived_replaced(
                crate::kv::kv_pipelines(sources),
                crate::kv::kv_pipelines(replaced),
                kernel,
                source,
            )
            &&& listing_replaced(
                crate::kv_report::kv_listing(sources),
                crate::kv_report::kv_listing(replaced),
                kernel,
                source,
            )
        }),
{
    lemma_kernel_names();
}

/// Replacing the source of a kernel of an attention-block session replaces the source of the
/// pipeline of that kernel, and of no other; and so in the listing of the sources.
pub proof fn law_layer_override_replaces_its_kernel(
    sources: LayerSourcesModel,
    kernel: Seq<char>,
    source: Seq<char>,
)
    requires
        crate::layer_report::layer_kernels().contains(kernel),
    ensures
        ({
            let replaced = crate::layer_report::layer_overridden(sources, kernel, source);
            &&& derived_replaced(
                crate::layer::layer_pipelines(sources),
                crate::layer::layer_pipelines(replaced),
                kernel,
                source,
            )
            &&& listing_replaced(
                crate::layer_report::layer_listing(sources),
                crate::layer_report::layer_listing(replaced),
                kernel,
                source,
            )
        }),
{
    lemma_kernel_names();
}

/// Replacing the source of a kernel of a stack session replaces the source of the pipeline of that
/// kernel, and of no other; and so in the listing of the sources.
pub proof fn law_stack_override_replaces_its_kernel(
    sources: StackSourcesModel,
    kernel: Seq<char>,
    source: Seq<char>,
    storage: WeightStorage,
    prefill_capable: bool,
)
    requires
        crate::stack_sources::stack_kernels().contains(kernel),
    ensures
        ({
            let replaced = crate::stack_sources::stack_overridden(sources, kernel, source);
            &&& placed_replaced(
                crate::stack_resources::stack_pipelines(sources, storage, prefill_capable),
                crate::stack_resources::stack_pipelines(replaced, storage, prefill_capable),
                kernel,
                source,
            )
            &&& listing_replaced(
                crate::stack_sources::stack_listing(sources),
                crate::stack_sources::stack_listing(replaced),
                kernel,
                source,
            )
        }),
{
    lemma_kernel_names();
    let before = crate::stack_resources::stack_pipelines(sources, storage, prefill_capable);
    let replaced = crate::stack_sources::stack_overridden(sources, kernel, source);
    let after = crate::stack_resources::stack_pipelines(replaced, storage, prefill_capable);
    let at = choose|i: int|
        0 <= i < crate::stack_sources::stack_kernels().len()
            && crate::stack_sources::stack_kernels()[i] == kernel;
    assert(crate::stack_sources::stack_kernels()[at] == kernel);
}

/// Whether a listing gives the source of every pipeline whose kernel it lists.
pub open spec fn lists_sources_of(
    listing: Seq<ListedModel>,
    kernel: Seq<char>,
    source: Seq<char>,
) -> bool {
    forall|i: int|
        0 <= i < listing.len() && (#[trigger] listing[i]).kernel == kernel ==> listing[i].source
            == source
}

/// The listings of the sources give every kernel the source that its pipeline is created with.
pub proof fn law_listings_agree_with_the_pipelines(
    kv: KvSourcesModel,
    layer: LayerSourcesModel,
    stack: StackSourcesModel,
    storage: WeightStorage,
    prefill_capable: bool,
)
    ensures
        forall|i: int|
            0 <= i < crate::kv::kv_pipelines(kv).len() ==> lists_sources_of(
                crate::kv_report::kv_listing(kv),
                (#[trigger] crate::kv::kv_pipelines(kv)[i]).kernel,
                crate::kv::kv_pipelines(kv)[i].source,
            ),
        forall|i: int|
            0 <= i < crate::layer::layer_pipelines(layer).len() ==> lists_sources_of(
                crate::layer_report::layer_listing(layer),
                (#[trigger] crate::layer::layer_pipelines(layer)[i]).kernel,
                crate::layer::layer_pipelines(layer)[i].source,
            ),
        ({
            let made = crate::stack_resources::stack_pipelines(stack, storage, prefill_capable);
            forall|i: int|
                0 <= i < made.len() ==> lists_sources_of(
                    crate::stack_sources::stack_listing(stack),
                    (#[trigger] made[i]).kernel,
                    made[i].source,
                )
        }),
{
    lemma_kernel_names();
}

proof fn lemma_members_grow(
    listed: Seq<ListedModel>,
    values: Seq<Seq<char>>,
    order: Seq<usize>,
    place: usize,
    index: int,
    written: Seq<char>,
)
    requires
        0 <= index <= order.len(),
    ensures
        crate::sources::kernel_members_from(listed, values, order.push(place), index, written)
            == crate::sources::kernel_members_from(listed, values, order, index, written) + (
        if order.len() == 0 {
            ""@
        } else {
            ","@
        }) + "\""@ + listed[place as int].kernel + "\":"@ + values[place as int],
    decreases order.len() - index,
{
    reveal_with_fuel(crate::sources::kernel_members_from, 2);
    let longer = order.push(place);
    if index < order.len() {
        assert(longer[index] == order[index]);
        let comma = if index == 0 {
            ""@
        } else {
            ","@
        };
        let at = order[index] as int;
        lemma_members_grow(
            listed,
            values,
            order,
            place,
            index + 1,
            written + comma + "\""@ + listed[at].kernel + "\":"@ + values[at],
        );
    } else {
        assert(longer[index] == place);
    }
}

/// A listing gives the kernels in its order, a comma between every two, and every kernel its own
/// value: one more place in the order is one more kernel with its value behind the others.
pub proof fn law_listing_gives_each_kernel_its_value(
    listed: Seq<ListedModel>,
    values: Seq<Seq<char>>,
    order: Seq<usize>,
    place: usize,
)
    ensures
        crate::sources::kernel_members_from(listed, values, Seq::empty(), 0, Seq::empty())
            == Seq::<char>::empty(),
        crate::sources::kernel_members_from(listed, values, order.push(place), 0, Seq::empty())
            == crate::sources::kernel_members_from(listed, values, order, 0, Seq::empty()) + (
        if order.len() == 0 {
            ""@
        } else {
            ","@
        }) + "\""@ + listed[place as int].kernel + "\":"@ + values[place as int],
{
    lemma_members_grow(listed, values, order, place, 0, Seq::empty());
}

proof fn lemma_quotes_read(
    family: Family,
    listed: Seq<ListedModel>,
    index: int,
    read: Seq<Seq<char>>,
)
    requires
        0 <= index <= listed.len(),
        read.len() == index,
        forall|i: int|
            0 <= i < index ==> crate::json::rendered_json(
                JsonTree::Text((#[trigger] listed[i]).source),
            ) == Ok::<Seq<char>, Seq<char>>(read[i]),
    ensures
        crate::sources::quotes_from(family, listed, index, read) matches Ok(quotes)
            ==> quotes.len() == listed.len() && forall|i: int|
            0 <= i < listed.len() ==> crate::json::rendered_json(
                JsonTree::Text((#[trigger] listed[i]).source),
            ) == Ok::<Seq<char>, Seq<char>>(quotes[i]),
    decreases listed.len() - index,
{
    if index < listed.len() {
        if let Ok(quoted) = crate::json::rendered_json(JsonTree::Text(listed[index].source)) {
            lemma_quotes_read(family, listed, index + 1, read.push(quoted));
        }
    }
}

/// The sources that a listing gives are the JSON strings of the sources of its kernels, each at the
/// place of its kernel.
pub proof fn law_listing_quotes_each_source(family: Family, listed: Seq<ListedModel>, place: int)
    requires
        0 <= place < listed.len(),
    ensures
        crate::sources::quotes_from(family, listed, 0, Seq::empty()) matches Ok(quotes)
            ==> quotes.len() == listed.len() && crate::json::rendered_json(
            JsonTree::Text(listed[place].source),
        ) == Ok::<Seq<char>, Seq<char>>(quotes[place]),
{
    lemma_quotes_read(family, listed, 0, Seq::empty());
}

/// Whether members give a kernel the digest of a source.
pub open spec fn gives_digest(members: Members, kernel: Seq<char>, source: Seq<char>) -> bool {
    members.contains_key(kernel) ==> members[kernel] == crate::diagnostics::digest_tree(
        crate::digest::text_digest(source),
    )
}

/// The reported digests of an attention-block session are, by kernel, those of the sources that its
/// pipelines are created with.
pub proof fn law_layer_digests_go_by_kernel(digests: LayerShaderDigests, sources: LayerSourcesModel)
    requires
        crate::layer_report::layer_digests_hold(digests, sources),
    ensures
        ({
            let members = crate::layer_report::layer_digests_tree(digests)->Object_0;
            let made = crate::layer::layer_pipelines(sources);
            &&& members.dom() == made.map_values(
                |pipeline: DerivedModel| pipeline.kernel,
            ).to_set()
            &&& forall|i: int|
                0 <= i < made.len() ==> gives_digest(
                    members,
                    (#[trigger] made[i]).kernel,
                    made[i].source,
                )
        }),
{
    lemma_kernel_names();
    let members = crate::layer_report::layer_digests_tree(digests)->Object_0;
    let names = crate::layer::layer_pipelines(sources).map_values(
        |pipeline: DerivedModel| pipeline.kernel,
    );
    assert(names =~= crate::layer_report::layer_kernels());
    assert forall|name: Seq<char>|
        members.dom().contains(name) == names.to_set().contains(name) by {
        if members.dom().contains(name) {
            assert(names[0] == "rms_norm_f32"@ && names[1] == "gemv_f32"@ && names[2]
                == "decoder_mrope_f32"@ && names[3] == "decoder_kv_append_f32"@ && names[4]
                == "decoder_gqa_f32"@ && names[5] == "add_f32"@);
        }
    }
    assert(members.dom() =~= names.to_set());
}

/// The reported digests of a key/value cache session are, by kernel, those of the sources that its
/// pipelines are created with.
pub proof fn law_kv_digests_go_by_kernel(sources: KvSourcesModel)
    ensures
        ({
            let members = crate::kv_report::kv_digests_tree(
                crate::digest::text_digest(sources.append),
                crate::digest::text_digest(sources.attention),
            )->Object_0;
            let made = crate::kv::kv_pipelines(sources);
            forall|i: int|
                0 <= i < made.len() ==> members.contains_key((#[trigger] made[i]).kernel)
                    && gives_digest(members, made[i].kernel, made[i].source)
        }),
{
    lemma_kernel_names();
}

/// The reported digests of a stack session are, by kernel, those of the sources that its pipelines
/// are created with: all single-precision pipelines of a step are there, and with a prefill those
/// of the prefill too.
pub proof fn law_stack_digests_go_by_kernel(
    digests: StackShaderDigests,
    prefill: Option<PrefillShaderDigests>,
    sources: StackSourcesModel,
)
    requires
        crate::stack_sources::stack_digests_hold(digests, sources),
        prefill matches Some(more) ==> crate::stack_sources::prefill_digests_hold(more, sources),
    ensures
        ({
            let members = crate::stack_report::shader_members(digests, prefill);
            let made = crate::stack_resources::stack_pipelines(
                sources,
                WeightStorage::F32,
                prefill is Some,
            );
            forall|i: int|
                0 <= i < made.len() ==> members.contains_key((#[trigger] made[i]).kernel)
                    && gives_digest(members, made[i].kernel, made[i].source)
        }),
        ({
            let members = crate::stack_report::shader_members(digests, prefill);
            let listing = crate::stack_sources::stack_listing(sources);
            forall|i: int|
                0 <= i < listing.len() ==> gives_digest(
                    members,
                    (#[trigger] listing[i]).kernel,
                    listing[i].source,
                )
        }),
{
    lemma_kernel_names();
    let members = crate::stack_report::shader_members(digests, prefill);
    let listing = crate::stack_sources::stack_listing(sources);
    assert forall|i: int| 0 <= i < listing.len() implies gives_digest(
        members,
        (#[trigger] listing[i]).kernel,
        listing[i].source,
    ) by {}
}

/// The reported digests of a token selection are, by kernel, those of the decode kernels and that
/// of the source that the pipeline of the selection is created with.
pub proof fn law_selection_digest_goes_by_kernel(
    digests: StackShaderDigests,
    selection: Seq<char>,
    cache_tokens: u32,
    queue_wall_time_ns: u64,
)
    ensures
        ({
            let members = crate::stack_report::top1_tree(
                cache_tokens,
                digests,
                crate::digest::text_digest(selection),
                queue_wall_time_ns,
            )->Object_0["shader_blake3"@]->Object_0;
            let others = crate::stack_report::shader_members(digests, None);
            let chosen = crate::stack_resources::top1_pipeline(selection);
            &&& members.contains_key(chosen.kernel)
            &&& gives_digest(members, chosen.kernel, chosen.source)
            &&& members.remove(chosen.kernel) == others
        }),
{
    lemma_kernel_names();
    reveal_strlit("shader_blake3");
    reveal_strlit("queue_wall_time_ns");
    reveal_strlit("queue_write_count");
    reveal_strlit("command_encoder_count");
    reveal_strlit("compute_pass_count");
    reveal_strlit("dispatch_count");
    reveal_strlit("copy_count");
    reveal_strlit("command_buffer_count");
    reveal_strlit("submission_count");
    reveal_strlit("map_count");
    reveal_strlit("readback_bytes");
    reveal_strlit("full_logits_readback_elided");
    let members = crate::stack_report::top1_tree(
        cache_tokens,
        digests,
        crate::digest::text_digest(selection),
        queue_wall_time_ns,
    )->Object_0;
    let others = crate::stack_sources::stack_digest_members(digests);
    assert("shader_blake3"@.len() == 13);
    assert(members["shader_blake3"@] == JsonTree::Object(
        others.insert(
            "decoder_logits_top1_f32"@,
            crate::diagnostics::digest_tree(crate::digest::text_digest(selection)),
        ),
    ));
}

/// A session on a device runs the modules that it was given: every pass the module that its stage
/// is named after.
pub proof fn law_sessions_run_the_modules_they_are_given(
    run: StackRun,
    modules: StackShaderModules,
    kv: KvSourcesModel,
    append: Option<Seq<char>>,
    attention: Option<Seq<char>>,
    layer: LayerSourcesModel,
    layer_modules: LayerShaderModules,
)
    requires
        crate::stack_sources::stack_canonical_outcome(modules) == Ok::<
            StackSourcesModel,
            Seq<char>,
        >(run.sources),
        crate::kv_report::kv_canonical_outcome(append, attention) == Ok::<
            KvSourcesModel,
            Seq<char>,
        >(kv),
        crate::layer_report::layer_canonical_outcome(layer_modules) == Ok::<
            LayerSourcesModel,
            Seq<char>,
        >(layer),
    ensures
        ({
            let shaders = crate::stack_flow::stack_setup(run).shaders;
            let storage = run.plans.resources.storage;
            let pipelines = crate::stack_encode::weight_pipelines(storage);
            let half = storage == WeightStorage::F16;
            &&& shaders(pipelines.rms_norm) == (if half {
                modules.rms_norm_f16_weights->Some_0@
            } else {
                modules.rms_norm->Some_0@
            })
            &&& shaders(pipelines.gemv_tiled) == (if half {
                modules.gemv_tiled_f16_weights->Some_0@
            } else {
                modules.gemv_tiled->Some_0@
            })
            &&& run.plans.prefill_capable ==> shaders(pipelines.prefill_projection) == (if half {
                modules.linear_projection_f16_weights->Some_0@
            } else {
                modules.projection->Some_0@
            })
            &&& shaders(PIPELINE_MROPE) == modules.mrope->Some_0@
            &&& shaders(PIPELINE_APPEND) == modules.append->Some_0@
            &&& shaders(PIPELINE_SWIGLU) == modules.swiglu->Some_0@
            &&& shaders(PIPELINE_RESIDUAL) == modules.residual->Some_0@
            &&& shaders(PIPELINE_SPLIT_PARTIAL) == modules.split_partial->Some_0@
            &&& shaders(PIPELINE_SPLIT_MERGE) == modules.split_merge->Some_0@
            &&& run.plans.prefill_capable ==> shaders(PIPELINE_PREFILL_MROPE)
                == modules.prefill_mrope->Some_0@
            &&& run.plans.prefill_capable ==> shaders(PIPELINE_APPEND_RANGE)
                == modules.kv_append_range->Some_0@
            &&& run.plans.prefill_capable ==> shaders(PIPELINE_PREFILL_GQA)
                == modules.prefill_gqa->Some_0@
            &&& lists_sources_of(
                crate::stack_sources::stack_listing(run.sources),
                "gemv_f32"@,
                modules.gemv->Some_0@,
            )
            &&& lists_sources_of(
                crate::stack_sources::stack_listing(run.sources),
                "decoder_gqa_f32"@,
                modules.attention->Some_0@,
            )
        }),
        crate::dataflow::derived_source(crate::kv::kv_pipelines(kv), KV_APPEND)
            == append->Some_0,
        crate::dataflow::derived_source(crate::kv::kv_pipelines(kv), KV_ATTENTION)
            == attention->Some_0,
        ({
            let made = crate::layer::layer_pipelines(layer);
            let shader = |place: usize| crate::dataflow::derived_source(made, place);
            &&& shader(LAYER_PIPELINE_RMS_NORM) == layer_modules.rms_norm->Some_0@
            &&& shader(LAYER_PIPELINE_GEMV) == layer_modules.gemv->Some_0@
            &&& shader(LAYER_PIPELINE_MROPE) == layer_modules.mrope->Some_0@
            &&& shader(LAYER_PIPELINE_APPEND) == layer_modules.append->Some_0@
            &&& shader(LAYER_PIPELINE_ATTENTION) == layer_modules.attention->Some_0@
            &&& shader(LAYER_PIPELINE_RESIDUAL) == layer_modules.residual->Some_0@
        }),
{
    lemma_kernel_names();
    crate::stack_flow::law_passes_run_their_shaders(run);
    crate::dataflow::lemma_derived_source(crate::kv::kv_pipelines(kv), 0);
    crate::dataflow::lemma_derived_source(crate::kv::kv_pipelines(kv), 1);
    let made = crate::layer::layer_pipelines(layer);
    crate::dataflow::lemma_derived_source(made, 0);
    crate::dataflow::lemma_derived_source(made, 1);
    crate::dataflow::lemma_derived_source(made, 2);
    crate::dataflow::lemma_derived_source(made, 3);
    crate::dataflow::lemma_derived_source(made, 4);
    crate::dataflow::lemma_derived_source(made, 5);
}

/// Whether the members of a document give a number under a name.
pub open spec fn says(members: Members, name: Seq<char>, number: u32) -> bool {
    crate::json::member_u64(members, name) == Some(number as u64)
}

proof fn lemma_field_says(family: Family, members: Members, name: Seq<char>)
    ensures
        crate::descriptor::field_outcome(family, members, name) matches Ok(number) ==> says(
            members,
            name,
            number,
        ),
{
}

proof fn lemma_pinned_says(
    family: Family,
    members: Members,
    geometry: Seq<(Seq<char>, u32)>,
    index: int,
    place: int,
)
    requires
        0 <= index <= place < geometry.len(),
        crate::descriptor::drifted_from(family, members, geometry, index) is None,
    ensures
        says(members, geometry[place].0, geometry[place].1),
    decreases place - index,
{
    if index < place {
        lemma_pinned_says(family, members, geometry, index + 1, place);
    } else {
        lemma_field_says(family, members, geometry[place].0);
    }
}

/// The planner of a key/value cache session is told what the descriptor says under the names of
/// what it is told.
pub proof fn law_kv_planner_is_told_the_descriptor(members: Members, descriptor: KvDescriptor)
    requires
        crate::descriptor::kv_members_outcome(members) == Ok::<KvDescriptor, Seq<char>>(
            descriptor,
        ),
    ensures
        ({
            let told = crate::geometry::kv_caches(descriptor);
            &&& says(members, "schema_version"@, 1)
            &&& says(members, "query_heads"@, told.query_heads)
            &&& says(members, "key_value_heads"@, told.key_value_heads)
            &&& says(members, "head_dim"@, told.head_dim)
            &&& says(members, "prefix_tokens"@, told.prefix_tokens)
            &&& says(members, "cache_capacity"@, told.cache_capacity)
        }),
{
    lemma_field_says(Family::Kv, members, "schema_version"@);
    lemma_field_says(Family::Kv, members, "query_heads"@);
    lemma_field_says(Family::Kv, members, "key_value_heads"@);
    lemma_field_says(Family::Kv, members, "head_dim"@);
    lemma_field_says(Family::Kv, members, "prefix_tokens"@);
    lemma_field_says(Family::Kv, members, "cache_capacity"@);
}

/// The planners of an attention-block session are told what the descriptor says under the names of
/// what they are told. The widths are those of the heads that the decoder is pinned to.
pub proof fn law_layer_planner_is_told_the_descriptor(
    members: Members,
    pins: DecoderPins,
    descriptor: LayerDescriptor,
)
    requires
        crate::descriptor::layer_members_outcome(members, pins) == Ok::<
            LayerDescriptor,
            Seq<char>,
        >(descriptor),
    ensures
        ({
            let caches = crate::geometry::layer_caches(descriptor);
            let block = crate::geometry::layer_block(descriptor);
            &&& says(members, "schema_version"@, 1)
            &&& says(members, "hidden_size"@, block.hidden_size)
            &&& says(members, "query_heads"@, block.query_heads)
            &&& says(members, "query_heads"@, caches.query_heads)
            &&& says(members, "key_value_heads"@, block.key_value_heads)
            &&& says(members, "key_value_heads"@, caches.key_value_heads)
            &&& says(members, "head_dim"@, block.head_dim)
            &&& says(members, "head_dim"@, caches.head_dim)
            &&& says(members, "query_width"@, 2048)
            &&& says(members, "key_value_width"@, 256)
            &&& says(members, "prefix_tokens"@, caches.prefix_tokens)
            &&& says(members, "cache_capacity"@, caches.cache_capacity)
            &&& says(members, "cache_capacity"@, block.cache_capacity)
            &&& crate::ieee::single_equal(block.rms_norm_epsilon, pins.rms_norm_epsilon)
            &&& crate::json::member(members, "rms_norm_epsilon"@) matches Some(tree)
            &&& crate::json::tree_double(tree) matches Some(bits)
            &&& block.rms_norm_epsilon == crate::ieee::narrowed(bits)
        }),
{
    let family = Family::Layer;
    let geometry = crate::pack_descriptor::pinned_geometry(family, pins);
    lemma_field_says(family, members, "schema_version"@);
    lemma_field_says(family, members, "prefix_tokens"@);
    lemma_field_says(family, members, "cache_capacity"@);
    lemma_pinned_says(family, members, geometry, 0, 0);
    lemma_pinned_says(family, members, geometry, 0, 1);
    lemma_pinned_says(family, members, geometry, 0, 2);
    lemma_pinned_says(family, members, geometry, 0, 3);
    lemma_pinned_says(family, members, geometry, 0, 4);
    lemma_pinned_says(family, members, geometry, 0, 5);
    assert(geometry[0].0 == "hidden_size"@);
    assert(geometry[1].0 == "query_heads"@);
    assert(geometry[2].0 == "key_value_heads"@);
    assert(geometry[3].0 == "head_dim"@);
    assert(geometry[4].0 == "query_width"@);
    assert(geometry[5].0 == "key_value_width"@);
}

/// The planners of a stack session are told what the descriptor says under the names of what they
/// are told. A session that is to prefill plans for as many tokens as it prefills, but for one at
/// least that is free; one that is not, for its prefix.
pub proof fn law_stack_planner_is_told_the_descriptor(
    members: Members,
    pins: DecoderPins,
    descriptor: StackDescriptor,
)
    requires
        crate::descriptor::stack_members_outcome(members, pins) == Ok::<
            StackDescriptor,
            Seq<char>,
        >(descriptor),
    ensures
        ({
            let caches = crate::geometry::stack_caches(descriptor);
            let told = crate::geometry::stack_layers(pins, descriptor);
            &&& says(members, "schema_version"@, 1)
            &&& says(members, "layers"@, told.layers)
            &&& says(members, "hidden_size"@, told.hidden_size)
            &&& says(members, "intermediate_size"@, told.intermediate_size)
            &&& says(members, "query_heads"@, told.query_heads)
            &&& says(members, "query_heads"@, caches.query_heads)
            &&& says(members, "key_value_heads"@, told.key_value_heads)
            &&& says(members, "key_value_heads"@, caches.key_value_heads)
            &&& says(members, "head_dim"@, told.head_dim)
            &&& says(members, "head_dim"@, caches.head_dim)
            &&& says(members, "query_width"@, 2048)
            &&& says(members, "key_value_width"@, 256)
            &&& says(members, "cache_capacity"@, caches.cache_capacity)
            &&& says(members, "cache_capacity"@, told.cache_capacity)
            &&& crate::ieee::single_equal(told.rms_norm_epsilon, pins.rms_norm_epsilon)
            &&& says(members, "prefix_tokens"@, descriptor.prefix_tokens)
            &&& members.contains_key("prefill_tokens"@) ==> says(
                members,
                "prefill_tokens"@,
                descriptor.prefill_tokens,
            )
            &&& !members.contains_key("prefill_tokens"@) ==> descriptor.prefill_tokens == 0
            &&& descriptor.prefill_tokens == 0 ==> caches.prefix_tokens
                == descriptor.prefix_tokens
            &&& descriptor.prefill_tokens > 0 && descriptor.prefill_tokens
                < descriptor.cache_capacity ==> caches.prefix_tokens
                == descriptor.prefill_tokens
            &&& descriptor.prefill_tokens > 0 && descriptor.prefill_tokens
                >= descriptor.cache_capacity && descriptor.cache_capacity > 0
                ==> caches.prefix_tokens == descriptor.cache_capacity - 1
            &&& members.contains_key("vocab_size"@) == descriptor.vocab_size is Some
            &&& descriptor.vocab_size matches Some(vocab_size) ==> says(
                members,
                "vocab_size"@,
                vocab_size,
            ) && vocab_size == 103424
        }),
{
    let family = Family::Stack;
    let geometry = crate::pack_descriptor::pinned_geometry(family, pins);
    lemma_field_says(family, members, "schema_version"@);
    lemma_field_says(family, members, "prefix_tokens"@);
    lemma_field_says(family, members, "cache_capacity"@);
    lemma_field_says(family, members, "prefill_tokens"@);
    lemma_field_says(family, members, "vocab_size"@);
    lemma_pinned_says(family, members, geometry, 0, 0);
    lemma_pinned_says(family, members, geometry, 0, 1);
    lemma_pinned_says(family, members, geometry, 0, 2);
    lemma_pinned_says(family, members, geometry, 0, 3);
    lemma_pinned_says(family, members, geometry, 0, 4);
    lemma_pinned_says(family, members, geometry, 0, 5);
    lemma_pinned_says(family, members, geometry, 0, 6);
    lemma_pinned_says(family, members, geometry, 0, 7);
    assert(geometry[0].0 == "layers"@);
    assert(geometry[1].0 == "hidden_size"@);
    assert(geometry[2].0 == "intermediate_size"@);
    assert(geometry[3].0 == "query_heads"@);
    assert(geometry[4].0 == "key_value_heads"@);
    assert(geometry[5].0 == "head_dim"@);
    assert(geometry[6].0 == "query_width"@);
    assert(geometry[7].0 == "key_value_width"@);
}

/// Whether a stack was planned for a geometry.
pub open spec fn planned_for(stack: StackPlan, geometry: StackGeometry) -> bool {
    &&& stack.layers == geometry.layers
    &&& stack.intermediate_size == geometry.intermediate_size
    &&& stack.attention.hidden_size == geometry.hidden_size
    &&& stack.attention.query_heads == geometry.query_heads
    &&& stack.attention.key_value_heads == geometry.key_value_heads
    &&& stack.attention.head_dim == geometry.head_dim
    &&& stack.attention.rms_norm_epsilon == geometry.rms_norm_epsilon
}

/// The planner of a prefill is told the geometry that the stack was planned for.
pub proof fn law_prefill_planner_is_told_the_same(
    stack: StackPlan,
    prefill: PrefillPlan,
    geometry: StackGeometry,
)
    requires
        planned_for(stack, geometry),
        prefill.cache_capacity == geometry.cache_capacity,
    ensures
        crate::geometry::prefill_layers(stack, prefill) == geometry,
{
}

} // verus!
