//! Laws of the admission: what a session is begun with agrees with what it was asked for.

use crate::descriptor::StackDescriptor;
use crate::family::{
    DecoderPins, Family, WeightStorage, PINNED_KEY_VALUE_WIDTH, PINNED_QUERY_WIDTH,
};
use crate::json::Members;
use crate::pack_descriptor::DescriptorRequest;
use crate::stack_plan::{StackPlans, StackSizes};
use crate::stack_report::CreationFacts;
use crate::stack_resources::{
    LogitsSizes, STACK_DOWN_WEIGHT, STACK_FINAL_NORM_WEIGHT, STACK_GATE_WEIGHT, STACK_K_WEIGHT,
    STACK_LM_HEAD, STACK_NORM1_WEIGHT, STACK_NORM2_WEIGHT, STACK_O_WEIGHT, STACK_Q_WEIGHT,
    STACK_UP_WEIGHT, STACK_V_WEIGHT,
};
use crate::stack_sources::{PrefillShaderDigests, StackShaderDigests};
use vstd::prelude::*;

verus! {

/// An admitted stack session can prefill exactly where its descriptor asks for tokens to prefill,
/// and can read out logits exactly where both its descriptor and its weights can.
pub proof fn law_admitted_stack_agrees_with_its_weights(
    stored_poisoned: bool,
    busy: bool,
    descriptor: Result<StackDescriptor, Seq<char>>,
    pins: DecoderPins,
    pack: Option<Seq<u8>>,
)
    ensures
        crate::stack_begin::stack_weights_outcome(
            stored_poisoned,
            busy,
            descriptor,
            pins,
            pack,
        ) matches Ok(admitted) ==> {
            let asked = DescriptorRequest {
                prefix_tokens: admitted.descriptor.prefix_tokens,
                cache_capacity: admitted.descriptor.cache_capacity,
                prefill_capable: admitted.prefill_capable,
            };
            &&& !stored_poisoned
            &&& !busy
            &&& descriptor == Ok::<StackDescriptor, Seq<char>>(admitted.descriptor)
            &&& pack is Some
            &&& crate::weight_pack::pack_outcome(Family::Stack, pins, pack->Some_0, asked) == Ok::<
                crate::weight_pack::PackModel,
                Seq<char>,
            >(admitted.pack)
            &&& admitted.prefill_capable == (admitted.descriptor.prefill_tokens != 0)
            &&& admitted.logits_capable == admitted.descriptor.vocab_size is Some
            &&& admitted.logits_capable == (admitted.pack.shards.len()
                == crate::weight_pack::stack_sections().len() - 1)
        },
{
}

/// Whether members give a number under a name.
pub open spec fn gives(members: Members, name: Seq<char>, number: u32) -> bool {
    crate::json::member_u64(members, name) == Some(number as u64)
}

proof fn lemma_geometry_given(
    family: Family,
    members: Members,
    geometry: Seq<(Seq<char>, u32)>,
    index: int,
    place: int,
)
    requires
        0 <= index <= place < geometry.len(),
        crate::pack_descriptor::geometry_complaint_from(family, members, geometry, index) is None,
    ensures
        gives(members, geometry[place].0, geometry[place].1),
    decreases place - index,
{
    if index < place {
        lemma_geometry_given(family, members, geometry, index + 1, place);
    }
}

/// The descriptor in an admitted pack gives, under their names, the geometry of the decoder and the
/// cache geometry that the session asks for: a capacity beyond the prefix, and a prefix unless the
/// session is to prefill.
pub proof fn law_pack_descriptor_agrees_with_the_request(
    family: Family,
    pins: DecoderPins,
    members: Members,
    request: DescriptorRequest,
    storage: WeightStorage,
)
    requires
        crate::pack_descriptor::descriptor_complaint(
            family,
            pins,
            members,
            request,
            storage,
        ) is None,
    ensures
        gives(members, "schema_version"@, 1),
        gives(members, "prefix_tokens"@, request.prefix_tokens),
        gives(members, "cache_capacity"@, request.cache_capacity),
        request.prefix_tokens < request.cache_capacity,
        request.prefix_tokens > 0 || request.prefill_capable,
        gives(members, "hidden_size"@, pins.hidden_size),
        gives(members, "query_heads"@, pins.query_heads),
        gives(members, "key_value_heads"@, pins.key_value_heads),
        gives(members, "head_dim"@, pins.head_dim),
        gives(members, "query_width"@, PINNED_QUERY_WIDTH),
        gives(members, "key_value_width"@, PINNED_KEY_VALUE_WIDTH),
        family != Family::Layer ==> gives(members, "layers"@, pins.layers) && gives(
            members,
            "intermediate_size"@,
            pins.intermediate_size,
        ),
{
    let geometry = crate::pack_descriptor::pinned_geometry(family, pins);
    let first: int = if family == Family::Layer {
        0
    } else {
        1
    };
    let second: int = if family == Family::Layer {
        1
    } else {
        3
    };
    lemma_geometry_given(family, members, geometry, 0, 0);
    lemma_geometry_given(family, members, geometry, 0, first);
    lemma_geometry_given(family, members, geometry, 0, 2);
    lemma_geometry_given(family, members, geometry, 0, second);
    lemma_geometry_given(family, members, geometry, 0, second + 1);
    lemma_geometry_given(family, members, geometry, 0, second + 2);
    lemma_geometry_given(family, members, geometry, 0, second + 3);
    lemma_geometry_given(family, members, geometry, 0, second + 4);
    if family == Family::Layer {
        assert(geometry[0].0 == "hidden_size"@);
        assert(geometry[1].0 == "query_heads"@);
        assert(geometry[2].0 == "key_value_heads"@);
        assert(geometry[3].0 == "head_dim"@);
        assert(geometry[4].0 == "query_width"@);
        assert(geometry[5].0 == "key_value_width"@);
    } else {
        assert(geometry[0].0 == "layers"@);
        assert(geometry[1].0 == "hidden_size"@);
        assert(geometry[2].0 == "intermediate_size"@);
        assert(geometry[3].0 == "query_heads"@);
        assert(geometry[4].0 == "key_value_heads"@);
        assert(geometry[5].0 == "head_dim"@);
        assert(geometry[6].0 == "query_width"@);
        assert(geometry[7].0 == "key_value_width"@);
    }
}

/// Whether members give, as rotary sections, those of the decoder.
pub open spec fn gives_sections(members: Members, pins: DecoderPins) -> bool {
    &&& crate::json::member(members, "mrope_sections"@) matches Some(tree)
    &&& crate::json::tree_array(tree) matches Some(sections)
    &&& sections.len() == 3
    &&& forall|i: int|
        0 <= i < 3 ==> crate::json::tree_u64(#[trigger] sections[i]) == Some(
            pins.mrope_sections@[i] as u64,
        )
}

/// The rotary sections of the descriptor of a session and of the descriptor in a pack are admitted
/// exactly where they are those of the decoder.
pub proof fn law_sections_are_those_of_the_decoder(
    family: Family,
    members: Members,
    pins: DecoderPins,
)
    ensures
        crate::descriptor::mrope_complaint(family, members, pins) is None == gives_sections(
            members,
            pins,
        ),
        crate::pack_descriptor::mrope_complaint(family, members, pins) is None == gives_sections(
            members,
            pins,
        ),
{
    reveal_with_fuel(crate::descriptor::sections_complaint_from, 4);
    if let Some(tree) = crate::json::member(members, "mrope_sections"@) {
        if let Some(sections) = crate::json::tree_array(tree) {
            if sections.len() == 3 {
                let first = crate::json::tree_u64(sections[0]);
                let second = crate::json::tree_u64(sections[1]);
                let third = crate::json::tree_u64(sections[2]);
                if first == Some(pins.mrope_sections@[0] as u64) && second == Some(
                    pins.mrope_sections@[1] as u64,
                ) && third == Some(pins.mrope_sections@[2] as u64) {
                    assert forall|i: int| 0 <= i < 3 implies crate::json::tree_u64(
                        #[trigger] sections[i],
                    ) == Some(pins.mrope_sections@[i] as u64) by {
                        assert(i == 0 || i == 1 || i == 2);
                    }
                }
            }
        }
    }
}

/// A new session starts with as many tokens in its caches as the report on it gives.
pub proof fn law_new_session_has_the_reported_tokens(
    plans: StackPlans,
    digests: StackShaderDigests,
    prefill: Option<PrefillShaderDigests>,
    facts: CreationFacts,
)
    requires
        prefill is Some == plans.prefill_capable,
    ensures
        crate::report_laws::reports(
            crate::stack_report::stack_creation_tree(
                plans.kv,
                plans.stack,
                digests,
                prefill,
                facts,
            ),
            "initial_cache_tokens"@,
            crate::stack_resources::first_cache_tokens(plans) as int,
        ),
{
    crate::report_names::law_stack_creation_report_gives_its_facts(plans, digests, prefill, facts);
}

/// The bytes that are counted as resident are those of the buffers that hold weights.
pub proof fn law_resident_bytes_are_those_of_the_weight_buffers(
    plans: StackPlans,
    sizes: StackSizes,
    logits: LogitsSizes,
)
    requires
        logits == crate::stack_resources::logits_sizes(plans.resources, plans.lm_head),
        plans.lm_head is None ==> plans.resources.final_norm_weight_bytes is None
            && plans.resources.lm_head_weight_bytes is None,
    ensures
        ({
            let buffers = crate::stack_laws::placed_buffers(plans, sizes, logits);
            crate::stack_plan::resident_total(plans.resources) == buffers[
            STACK_NORM1_WEIGHT as int].size + buffers[STACK_Q_WEIGHT as int].size + buffers[
            STACK_K_WEIGHT as int].size + buffers[STACK_V_WEIGHT as int].size + buffers[
            STACK_O_WEIGHT as int].size + buffers[STACK_NORM2_WEIGHT as int].size + buffers[
            STACK_GATE_WEIGHT as int].size + buffers[STACK_UP_WEIGHT as int].size + buffers[
            STACK_DOWN_WEIGHT as int].size + buffers[STACK_FINAL_NORM_WEIGHT as int].size
                + buffers[STACK_LM_HEAD as int].size
        }),
{
    reveal_with_fuel(crate::stack_plan::sum_from, 10);
}

} // verus!
