//! Laws of the operands: what is admitted is what was given.

use crate::descriptor::{KvDescriptor, LayerDescriptor};
use crate::family::{
    DecoderPins, Family, WeightStorage, PINNED_KEY_VALUE_WIDTH, PINNED_QUERY_WIDTH,
    PINNED_VOCAB_SIZE,
};
use crate::kv::{KvPlan, KvStepPlan};
use crate::layer::{AttentionPlan, LayerSizes};
use crate::lifecycle::Operation;
use crate::stack_plan::{PrefillPlan, StackPlan, WeightResourcePlan, PREFILL_ROW_BYTES};
use crate::stack_sources::{PrefillShaderDigests, StackShaderDigests};
use vstd::prelude::*;

verus! {

/// Whether an operand is bytes, and as many as make whole single-precision values.
pub open spec fn whole_singles(operand: Option<Seq<u8>>) -> bool {
    operand matches Some(bytes) && bytes.len() % 4 == 0
}

/// A key/value cache session is begun exactly where none is in the way, its descriptor is admitted
/// and both caches are whole; it is begun with the caches as they were given.
pub proof fn law_kv_begin_takes_its_caches(
    stored_poisoned: bool,
    busy: bool,
    descriptor: Result<KvDescriptor, Seq<char>>,
    key_cache: Option<Seq<u8>>,
    value_cache: Option<Seq<u8>>,
)
    ensures
        ({
            let outcome = crate::operands::kv_begin_outcome(
                stored_poisoned,
                busy,
                descriptor,
                key_cache,
                value_cache,
            );
            &&& outcome is Ok == (!stored_poisoned && !busy && descriptor is Ok && whole_singles(
                key_cache,
            ) && whole_singles(value_cache))
            &&& outcome matches Ok(begun) ==> {
                &&& descriptor == Ok::<KvDescriptor, Seq<char>>(begun.descriptor)
                &&& key_cache == Some(begun.key_cache)
                &&& value_cache == Some(begun.value_cache)
            }
        }),
{
}

/// A step of a key/value cache session is admitted exactly where its three operands are whole; it
/// takes them as they were given.
pub proof fn law_kv_step_takes_its_operands(
    query: Option<Seq<u8>>,
    appended_key: Option<Seq<u8>>,
    appended_value: Option<Seq<u8>>,
)
    ensures
        ({
            let outcome = crate::operands::kv_step_outcome(query, appended_key, appended_value);
            &&& outcome is Ok == (whole_singles(query) && whole_singles(appended_key)
                && whole_singles(appended_value))
            &&& outcome matches Ok(taken) ==> {
                &&& query == Some(taken.0)
                &&& appended_key == Some(taken.1)
                &&& appended_value == Some(taken.2)
            }
        }),
{
}

/// An attention-block session is begun with the caches as they were given, with the weights of
/// the pack that was given, and where neither another session nor the descriptor is in the way.
pub proof fn law_layer_begin_takes_its_operands(
    stored_poisoned: bool,
    busy: bool,
    descriptor: Result<LayerDescriptor, Seq<char>>,
    pins: DecoderPins,
    pack: Option<Seq<u8>>,
    key_cache: Option<Seq<u8>>,
    value_cache: Option<Seq<u8>>,
)
    ensures
        ({
            let outcome = crate::operands::layer_begin_outcome(
                stored_poisoned,
                busy,
                descriptor,
                pins,
                pack,
                key_cache,
                value_cache,
            );
            outcome matches Ok(begun) ==> {
                &&& !stored_poisoned
                &&& !busy
                &&& descriptor == Ok::<LayerDescriptor, Seq<char>>(begun.descriptor)
                &&& key_cache == Some(begun.key_cache)
                &&& value_cache == Some(begun.value_cache)
                &&& whole_singles(key_cache)
                &&& whole_singles(value_cache)
                &&& begun.key_words == crate::words::words32(begun.key_cache)
                &&& begun.value_words == crate::words::words32(begun.value_cache)
                &&& pack is Some
                &&& crate::weight_pack::pack_outcome(
                    Family::Layer,
                    pins,
                    pack->Some_0,
                    crate::pack_descriptor::DescriptorRequest {
                        prefix_tokens: begun.descriptor.prefix_tokens,
                        cache_capacity: begun.descriptor.cache_capacity,
                        prefill_capable: false,
                    },
                ) == Ok::<crate::weight_pack::PackModel, Seq<char>>(begun.pack)
            }
        }),
{
}

/// The hidden row of a step is admitted exactly where it is whole, and is taken as it was given.
pub proof fn law_hidden_row_is_taken(family: Family, hidden_row: Option<Seq<u8>>)
    ensures
        ({
            let outcome = crate::operands::hidden_row_outcome(family, hidden_row);
            &&& outcome is Ok == whole_singles(hidden_row)
            &&& outcome matches Ok(row) ==> hidden_row == Some(row)
        }),
{
}

/// The hidden states of a prefill are admitted exactly where the caches are empty and every token
/// has a row of finite values; they are taken as they were given.
pub proof fn law_prefill_takes_a_row_per_token(
    cache_tokens: u32,
    tokens: u32,
    hidden_states: Option<Seq<u8>>,
)
    ensures
        ({
            let outcome = crate::stack_encode::prefill_operand_outcome(
                cache_tokens,
                tokens,
                hidden_states,
            );
            &&& outcome is Ok == (cache_tokens == 0 && (hidden_states matches Some(bytes)
                && bytes.len() == tokens * PREFILL_ROW_BYTES && forall|i: int|
                0 <= i < tokens * (PREFILL_ROW_BYTES / 4) ==> crate::ieee::single_finite(
                    #[trigger] crate::words::word32(bytes, 4 * i),
                )))
            &&& outcome matches Ok(rows) ==> hidden_states == Some(rows)
        }),
{
    if let Some(bytes) = hidden_states {
        let words = crate::words::words32(bytes);
        assert(words.len() == bytes.len() / 4);
        assert forall|i: int| 0 <= i < words.len() implies #[trigger] words[i]
            == crate::words::word32(bytes, 4 * i) by {}
        if crate::stack_encode::all_finite(words) {
            assert forall|i: int| 0 <= i < words.len() implies crate::ieee::single_finite(
                #[trigger] crate::words::word32(bytes, 4 * i),
            ) by {
                assert(crate::ieee::single_finite(words[i]));
            }
        }
    }
}

/// A stack session is begun with the caches as they were given: one plane of rows for every layer,
/// and finite values in the rows of its prefix.
pub proof fn law_stack_begin_takes_its_caches(
    pins: DecoderPins,
    prefix_tokens: u32,
    cache_capacity: u32,
    key_cache: Option<Seq<u8>>,
    value_cache: Option<Seq<u8>>,
)
    ensures
        ({
            let outcome = crate::stack_begin::stack_caches_outcome(
                pins,
                prefix_tokens,
                cache_capacity,
                key_cache,
                value_cache,
            );
            outcome matches Ok(taken) ==> {
                &&& key_cache == Some(taken.0)
                &&& value_cache == Some(taken.1)
                &&& taken.0.len() == pins.layers * cache_capacity * (4 * PINNED_KEY_VALUE_WIDTH)
                &&& taken.1.len() == pins.layers * cache_capacity * (4 * PINNED_KEY_VALUE_WIDTH)
                &&& forall|plane: int|
                    0 <= plane < pins.layers ==> #[trigger] crate::stack_begin::plane_finite(
                        crate::words::words32(taken.0),
                        cache_capacity,
                        prefix_tokens,
                        plane,
                    ) && crate::stack_begin::plane_finite(
                        crate::words::words32(taken.1),
                        cache_capacity,
                        prefix_tokens,
                        plane,
                    )
            }
        }),
{
}

/// A session on resident weights takes the rotary tables as they were given: each fills the table
/// that was planned for it, with finite values.
pub proof fn law_resident_begin_takes_its_tables(
    key: Seq<char>,
    checkpoint: Seq<u8>,
    resources: WeightResourcePlan,
    shader_f16: bool,
    cache_capacity: u32,
    rope_cos: Option<Seq<u8>>,
    rope_sin: Option<Seq<u8>>,
)
    ensures
        ({
            let outcome = crate::stack_begin::resident_begin_outcome(
                key,
                checkpoint,
                resources,
                shader_f16,
                cache_capacity,
                rope_cos,
                rope_sin,
            );
            outcome matches Ok(taken) ==> {
                &&& rope_cos == Some(taken.0)
                &&& rope_sin == Some(taken.1)
                &&& taken.0.len() == resources.rope_table_bytes
                &&& taken.1.len() == resources.rope_table_bytes
                &&& crate::stack_encode::all_finite(crate::words::words32(taken.0))
                &&& crate::stack_encode::all_finite(crate::words::words32(taken.1))
                &&& crate::stack_plan::resident_key(Some(checkpoint), resources) == Some(key)
            }
        }),
{
}

/// The tokens that a session has in its caches once an operation is done are those that the report
/// on the operation gives; an operation other than a step or a prefill leaves them.
pub proof fn law_reports_agree_with_the_session(
    stack: StackPlan,
    transition: KvStepPlan,
    prefill: PrefillPlan,
    digests: StackShaderDigests,
    prefill_digests: PrefillShaderDigests,
    cache_tokens: u32,
)
    ensures
        crate::report_laws::reports(
            crate::stack_report::stack_step_tree(stack, transition, digests, None),
            "cache_tokens_after"@,
            crate::stack_encode::tokens_after(
                Operation::Step,
                cache_tokens,
                transition.cache_tokens_after,
                prefill.tokens,
            ) as int,
        ),
        crate::report_laws::reports(
            crate::stack_report::stack_prefill_tree(prefill, digests, prefill_digests),
            "cache_tokens_after"@,
            crate::stack_encode::tokens_after(
                Operation::Prefill,
                cache_tokens,
                transition.cache_tokens_after,
                prefill.tokens,
            ) as int,
        ),
        forall|operation: Operation|
            operation != Operation::Step && operation != Operation::Prefill
                ==> #[trigger] crate::stack_encode::tokens_after(
                operation,
                cache_tokens,
                transition.cache_tokens_after,
                prefill.tokens,
            ) == cache_tokens,
{
    reveal_strlit("cache_tokens_after");
    crate::report_names::lemma_report_names();
}

/// Whether an attention block was planned for the pins of the decoder.
pub open spec fn planned_to_pins(plan: AttentionPlan, pins: DecoderPins, capacity: u32) -> bool {
    &&& plan.hidden_size == pins.hidden_size
    &&& plan.query_width == PINNED_QUERY_WIDTH
    &&& plan.key_value_width == PINNED_KEY_VALUE_WIDTH
    &&& plan.rope_elements == 3 * capacity * pins.head_dim
}

/// The shards of a pack for an attention-block session are as long as the buffers that they are
/// uploaded to.
pub proof fn law_layer_shards_fill_their_buffers(
    pins: DecoderPins,
    kv_plan: KvPlan,
    plan: AttentionPlan,
    sizes: LayerSizes,
    capacity: u32,
    key_cache: Seq<u8>,
    value_cache: Seq<u8>,
    shards: Seq<Seq<u8>>,
    shard: int,
)
    requires
        planned_to_pins(plan, pins, capacity),
        crate::layer::layer_sizes_outcome(plan) == Ok::<LayerSizes, Seq<char>>(sizes),
        shards.len() == 7,
        0 <= shard < 7,
    ensures
        ({
            let upload = crate::layer::layer_uploads(key_cache, value_cache, shards)[shard + 2];
            let buffer = crate::layer::layer_buffers(kv_plan, sizes)[upload.buffer as int];
            &&& upload.bytes == shards[shard]
            &&& crate::weight_pack::layer_shard_bytes(pins, shard, capacity) matches Ok(bytes)
                ==> bytes == buffer.size
        }),
{
}

proof fn lemma_shard_names()
    ensures
        "weights.input_layernorm"@.len() == 23,
        "weights.q_proj"@.len() == 14,
        "weights.k_proj"@.len() == 14,
        "weights.v_proj"@.len() == 14,
        "weights.o_proj"@.len() == 14,
        "weights.mrope_cos"@.len() == 17,
        "weights.mrope_sin"@.len() == 17,
        "weights.post_attention_layernorm"@.len() == 32,
        "weights.gate_proj"@.len() == 17,
        "weights.up_proj"@.len() == 15,
        "weights.down_proj"@.len() == 17,
        "weights.final_layernorm"@.len() == 23,
        "weights.lm_head"@.len() == 15,
        "weights.input_layernorm"@ != "weights.final_layernorm"@,
        "weights.q_proj"@ != "weights.k_proj"@,
        "weights.q_proj"@ != "weights.v_proj"@,
        "weights.q_proj"@ != "weights.o_proj"@,
        "weights.k_proj"@ != "weights.v_proj"@,
        "weights.k_proj"@ != "weights.o_proj"@,
        "weights.v_proj"@ != "weights.o_proj"@,
        "weights.mrope_cos"@ != "weights.mrope_sin"@,
        "weights.mrope_cos"@ != "weights.gate_proj"@,
        "weights.mrope_cos"@ != "weights.down_proj"@,
        "weights.mrope_sin"@ != "weights.gate_proj"@,
        "weights.mrope_sin"@ != "weights.down_proj"@,
        "weights.gate_proj"@ != "weights.down_proj"@,
        "weights.up_proj"@ != "weights.lm_head"@,
{
    reveal_strlit("weights.input_layernorm");
    reveal_strlit("weights.q_proj");
    reveal_strlit("weights.k_proj");
    reveal_strlit("weights.v_proj");
    reveal_strlit("weights.o_proj");
    reveal_strlit("weights.mrope_cos");
    reveal_strlit("weights.mrope_sin");
    reveal_strlit("weights.post_attention_layernorm");
    reveal_strlit("weights.gate_proj");
    reveal_strlit("weights.up_proj");
    reveal_strlit("weights.down_proj");
    reveal_strlit("weights.final_layernorm");
    reveal_strlit("weights.lm_head");
    assert("weights.input_layernorm"@[8] != "weights.final_layernorm"@[8]);
    assert("weights.q_proj"@[8] != "weights.k_proj"@[8]);
    assert("weights.q_proj"@[8] != "weights.v_proj"@[8]);
    assert("weights.q_proj"@[8] != "weights.o_proj"@[8]);
    assert("weights.k_proj"@[8] != "weights.v_proj"@[8]);
    assert("weights.k_proj"@[8] != "weights.o_proj"@[8]);
    assert("weights.v_proj"@[8] != "weights.o_proj"@[8]);
    assert("weights.mrope_cos"@[14] != "weights.mrope_sin"@[14]);
    assert("weights.mrope_cos"@[8] != "weights.gate_proj"@[8]);
    assert("weights.mrope_cos"@[8] != "weights.down_proj"@[8]);
    assert("weights.mrope_sin"@[8] != "weights.gate_proj"@[8]);
    assert("weights.mrope_sin"@[8] != "weights.down_proj"@[8]);
    assert("weights.gate_proj"@[8] != "weights.down_proj"@[8]);
    assert("weights.up_proj"@[8] != "weights.lm_head"@[8]);
}

/// The bytes of weights: a matrix for every copy, of rows and columns.
pub open spec fn matrices(copies: int, rows: int, columns: int, storage: WeightStorage) -> int {
    rows * columns * copies * crate::family::element_bytes(storage)
}

/// The shards of a pack for a stack session have, by the names of their sections, the weights of
/// all layers in the shapes of the decoder; the rotary tables have three rows for every token, in
/// single precision, and the weights of the logits stand once.
pub proof fn law_stack_shards_have_their_shapes(
    pins: DecoderPins,
    shard: int,
    capacity: u32,
    storage: WeightStorage,
)
    requires
        0 <= shard < 13,
    ensures
        ({
            let name = crate::weight_pack::stack_sections()[shard + 1];
            let layers = pins.layers as int;
            let hidden = pins.hidden_size as int;
            let width = PINNED_QUERY_WIDTH as int;
            let cached = PINNED_KEY_VALUE_WIDTH as int;
            let inner = pins.intermediate_size as int;
            crate::weight_pack::stack_shard_bytes(pins, shard, capacity, storage) matches Ok(bytes)
                ==> {
                &&& name == "weights.input_layernorm"@ ==> bytes == matrices(
                    layers,
                    1,
                    hidden,
                    storage,
                )
                &&& name == "weights.q_proj"@ ==> bytes == matrices(layers, width, hidden, storage)
                &&& name == "weights.k_proj"@ ==> bytes == matrices(layers, cached, hidden, storage)
                &&& name == "weights.v_proj"@ ==> bytes == matrices(layers, cached, hidden, storage)
                &&& name == "weights.o_proj"@ ==> bytes == matrices(layers, hidden, width, storage)
                &&& name == "weights.mrope_cos"@ ==> bytes == matrices(
                    1,
                    3 * capacity,
                    pins.head_dim as int,
                    WeightStorage::F32,
                )
                &&& name == "weights.mrope_sin"@ ==> bytes == matrices(
                    1,
                    3 * capacity,
                    pins.head_dim as int,
                    WeightStorage::F32,
                )
                &&& name == "weights.post_attention_layernorm"@ ==> bytes == matrices(
                    layers,
                    1,
                    hidden,
                    storage,
                )
                &&& name == "weights.gate_proj"@ ==> bytes == matrices(
                    layers,
                    inner,
                    hidden,
                    storage,
                )
                &&& name == "weights.up_proj"@ ==> bytes == matrices(layers, inner, hidden, storage)
                &&& name == "weights.down_proj"@ ==> bytes == matrices(
                    layers,
                    hidden,
                    inner,
                    storage,
                )
                &&& name == "weights.final_layernorm"@ ==> bytes == matrices(1, 1, hidden, storage)
                &&& name == "weights.lm_head"@ ==> bytes == matrices(
                    1,
                    PINNED_VOCAB_SIZE as int,
                    hidden,
                    storage,
                )
            }
        }),
{
    lemma_shard_names();
    let hidden = pins.hidden_size as int;
    let inner = pins.intermediate_size as int;
    assert(hidden * inner == inner * hidden) by (nonlinear_arith);
    assert(hidden * PINNED_QUERY_WIDTH == PINNED_QUERY_WIDTH * hidden);
    let elements = crate::weight_pack::per_layer_elements(pins, shard) * pins.layers;
    assert(0 <= elements) by (nonlinear_arith)
        requires
            elements == crate::weight_pack::per_layer_elements(pins, shard) * pins.layers,
            0 <= crate::weight_pack::per_layer_elements(pins, shard),
    ;
    assert(0 <= inner * hidden) by (nonlinear_arith)
        requires
            0 <= inner,
            0 <= hidden,
    ;
    assert(0 <= 3 * capacity * pins.head_dim) by (nonlinear_arith);
    assert(0 <= PINNED_VOCAB_SIZE * pins.hidden_size) by (nonlinear_arith);
}

/// The values in the rows of the prefix of an admitted cache are finite: those of every layer, row
/// and column.
pub proof fn law_admitted_prefix_is_finite(
    pins: DecoderPins,
    bytes: Seq<u8>,
    label: Seq<char>,
    prefix_tokens: u32,
    cache_capacity: u32,
    layer: int,
    row: int,
    column: int,
)
    requires
        crate::stack_begin::cache_outcome(
            pins,
            bytes,
            label,
            prefix_tokens,
            cache_capacity,
        ) is Ok,
        0 <= layer < pins.layers,
        0 <= row < prefix_tokens,
        0 <= column < PINNED_KEY_VALUE_WIDTH,
    ensures
        crate::ieee::single_finite(
            crate::words::words32(bytes)[(layer * cache_capacity + row) * PINNED_KEY_VALUE_WIDTH
                + column],
        ),
{
    let words = crate::words::words32(bytes);
    assert(crate::stack_begin::plane_finite(words, cache_capacity, prefix_tokens, layer));
    let place = (layer * cache_capacity + row) * PINNED_KEY_VALUE_WIDTH + column;
    assert(place == layer * (cache_capacity * 256) + row * 256 + column) by (nonlinear_arith)
        requires
            place == (layer * cache_capacity + row) * PINNED_KEY_VALUE_WIDTH + column,
            PINNED_KEY_VALUE_WIDTH == 256,
    ;
    assert(crate::ieee::single_finite(words[place]));
}

} // verus!
