//! The stack session: what it is begun with.

use crate::descriptor::{parse_stack_descriptor_json, StackDescriptor};
use crate::failure::check_admission;
use crate::family::{
    DecoderPins, Family, WeightStorage, PINNED_KEY_VALUE_WIDTH, PINNED_VOCAB_SIZE,
};
use crate::ieee::single_is_finite;
use crate::kv::KvPlan;
use crate::operands::{bytes_to_words, operand_to_bytes, pack_to_bytes, plan_refusal, PlanSite};
use crate::sizes::checked_u64_bytes;
use crate::stack_encode::{words_are_finite, StackBeginOperands};
use crate::stack_plan::{
    resident_weight_key, LmHeadPlan, PrefillPlan, StackPlan, StackPlans, WeightResourcePlan,
};
use crate::stack_sources::{canonical_stack_sources, StackShaderModules, StackShaderSources};
use crate::text::{join2, same};
use crate::weight_pack::{parse_stack_weight_pack, WeightPack};
use vstd::prelude::*;

verus! {

/// A stack session whose descriptor and weights are admitted.
pub struct AdmittedStack {
    pub descriptor: StackDescriptor,
    pub pack: WeightPack,
    pub prefill_capable: bool,
    pub logits_capable: bool,
}

/// A stack session whose descriptor and weights are admitted, as plain data.
pub struct AdmittedModel {
    pub descriptor: StackDescriptor,
    pub pack: crate::weight_pack::PackModel,
    pub prefill_capable: bool,
    pub logits_capable: bool,
}

/// What an admitted session is, as plain data.
pub open spec fn admitted_model(admitted: AdmittedStack) -> AdmittedModel {
    AdmittedModel {
        descriptor: admitted.descriptor,
        pack: crate::weight_pack::pack_model(admitted.pack),
        prefill_capable: admitted.prefill_capable,
        logits_capable: admitted.logits_capable,
    }
}

/// A session whose pack is read, or the message that descriptor and pack disagree on logits.
pub open spec fn logits_agreement(
    descriptor: StackDescriptor,
    pack: crate::weight_pack::PackModel,
) -> Result<AdmittedModel, Seq<char>> {
    let has_logits = pack.shards.len() == 13;
    if descriptor.vocab_size is Some != has_logits {
        Err(
            "decoder stack session logits capability drifted between the descriptor and the weight pack"@,
        )
    } else {
        Ok(
            AdmittedModel {
                descriptor,
                pack,
                prefill_capable: descriptor.prefill_tokens > 0,
                logits_capable: has_logits,
            },
        )
    }
}

/// A session with an admitted descriptor and admitted weights, or why they are refused.
pub open spec fn stack_weights_outcome(
    stored_poisoned: bool,
    busy: bool,
    descriptor: Result<StackDescriptor, Seq<char>>,
    pins: DecoderPins,
    pack: Option<Seq<u8>>,
) -> Result<AdmittedModel, Seq<char>> {
    match crate::failure::admission_complaint(Family::Stack, stored_poisoned, busy) {
        Some(message) => Err(message),
        None => match descriptor {
            Err(message) => Err(message),
            Ok(descriptor) => match crate::operands::pack_operand_outcome(Family::Stack, pack) {
                Err(message) => Err(message),
                Ok(pack_bytes) => match crate::weight_pack::pack_outcome(
                    Family::Stack,
                    pins,
                    pack_bytes,
                    crate::pack_descriptor::DescriptorRequest {
                        prefix_tokens: descriptor.prefix_tokens,
                        cache_capacity: descriptor.cache_capacity,
                        prefill_capable: descriptor.prefill_tokens > 0,
                    },
                ) {
                    Err(message) => Err(message),
                    Ok(pack) => logits_agreement(descriptor, pack),
                },
            },
        },
    }
}

fn require_logits_agreement(descriptor: StackDescriptor, pack: WeightPack) -> (admitted: Result<
    AdmittedStack,
    String,
>)
    requires
        pack.shards.len() == 11 || pack.shards.len() == 13,
    ensures
        (match admitted {
            Ok(found) => Ok(admitted_model(found)),
            Err(message) => Err(message@),
        }) == logits_agreement(descriptor, crate::weight_pack::pack_model(pack)),
        admitted matches Ok(found) ==> found.pack.shards.len() == (if found.logits_capable {
            13int
        } else {
            11
        }),
{
    let has_logits: bool = pack.shards.len() == 13;
    if descriptor.vocab_size.is_some() != has_logits {
        return Err(
            "decoder stack session logits capability drifted between the descriptor and the weight pack".to_owned(),
        );
    }
    let prefill_capable: bool = descriptor.prefill_tokens > 0;
    Ok(AdmittedStack { descriptor, pack, prefill_capable, logits_capable: has_logits })
}

/// Admits the descriptor and the weights of a stack session.
pub fn admit_stack_weights(
    stored_poisoned: bool,
    busy: bool,
    pins: &DecoderPins,
    descriptor_json: &str,
    pack: Option<Vec<u8>>,
) -> (admitted: Result<AdmittedStack, String>)
    ensures
        (match admitted {
            Ok(found) => Ok(admitted_model(found)),
            Err(message) => Err(message@),
        }) == stack_weights_outcome(
            stored_poisoned,
            busy,
            crate::descriptor::stack_outcome(crate::json::parsed_json(descriptor_json@), *pins),
            *pins,
            crate::operands::option_bytes(pack),
        ),
        admitted matches Ok(found) ==> found.pack.shards.len() == (if found.logits_capable {
            13int
        } else {
            11
        }),
{
    check_admission(Family::Stack, stored_poisoned, busy)?;
    let descriptor: StackDescriptor = parse_stack_descriptor_json(descriptor_json, pins)?;
    let pack_bytes: Vec<u8> = pack_to_bytes(Family::Stack, pack)?;
    let pack: WeightPack = parse_stack_weight_pack(
        pins,
        pack_bytes.as_slice(),
        descriptor.prefix_tokens,
        descriptor.cache_capacity,
        descriptor.prefill_tokens > 0,
    )?;
    require_logits_agreement(descriptor, pack)
}

/// Whether the prefix of one layer of a bulk cache is finite.
pub open spec fn plane_finite(
    words: Seq<u32>,
    cache_capacity: u32,
    prefix_tokens: u32,
    plane: int,
) -> bool {
    forall|i: int|
        plane * (cache_capacity * 256) <= i < plane * (cache_capacity * 256) + prefix_tokens
            * 256 ==> crate::ieee::single_finite(#[trigger] words[i])
}

/// Whether the prefix of one layer of a bulk cache goes beyond its end.
pub open spec fn plane_overruns(
    layers: u32,
    cache_capacity: u32,
    prefix_tokens: u32,
    plane: int,
) -> bool {
    plane * (cache_capacity * 256) + prefix_tokens * 256 > layers * (cache_capacity * 256)
}

/// Whether the sizes of a bulk cache are such that its values are looked at.
pub open spec fn cache_is_scanned(
    pins: DecoderPins,
    bytes: Seq<u8>,
    prefix_tokens: u32,
    cache_capacity: u32,
) -> bool {
    &&& bytes.len() == pins.layers * cache_capacity * 1024
    &&& cache_capacity * 256 <= usize::MAX
    &&& prefix_tokens * 256 <= usize::MAX
}

/// Whether the prefixes of the layers of a bulk cache lie inside it, as far as they are looked
/// at: none is looked at behind one that is not finite.
pub open spec fn prefixes_inside(
    words: Seq<u32>,
    layers: u32,
    prefix_tokens: u32,
    cache_capacity: u32,
) -> bool {
    forall|plane: int|
        0 <= plane < layers && #[trigger] plane_overruns(
            layers,
            cache_capacity,
            prefix_tokens,
            plane,
        ) ==> exists|earlier: int|
            0 <= earlier < plane && !#[trigger] plane_finite(
                words,
                cache_capacity,
                prefix_tokens,
                earlier,
            )
}

/// Whether the prefixes of the layers of a bulk cache lie inside it, if they are looked at.
pub open spec fn cache_prefixes_inside(
    pins: DecoderPins,
    bytes: Seq<u8>,
    prefix_tokens: u32,
    cache_capacity: u32,
) -> bool {
    cache_is_scanned(pins, bytes, prefix_tokens, cache_capacity) ==> prefixes_inside(
        crate::words::words32(bytes),
        pins.layers,
        prefix_tokens,
        cache_capacity,
    )
}

/// A prefix that is no longer than the cache lies inside it in every layer.
pub proof fn lemma_short_prefix_is_inside(
    pins: DecoderPins,
    bytes: Seq<u8>,
    prefix_tokens: u32,
    cache_capacity: u32,
)
    requires
        prefix_tokens <= cache_capacity,
    ensures
        cache_prefixes_inside(pins, bytes, prefix_tokens, cache_capacity),
{
    assert forall|plane: int| 0 <= plane < pins.layers implies !#[trigger] plane_overruns(
        pins.layers,
        cache_capacity,
        prefix_tokens,
        plane,
    ) by {
        let width = cache_capacity * 256;
        assert(plane * width + width <= pins.layers * width) by (nonlinear_arith)
            requires
                0 <= plane < pins.layers,
                0 <= width,
        ;
    }
}

/// The words of a bulk cache, or why it is refused.
pub open spec fn cache_outcome(
    pins: DecoderPins,
    bytes: Seq<u8>,
    label: Seq<char>,
    prefix_tokens: u32,
    cache_capacity: u32,
) -> Result<Seq<u32>, Seq<char>> {
    let words = crate::words::words32(bytes);
    if pins.layers * cache_capacity * 1024 > u64::MAX {
        Err(label + " byte size overflowed"@)
    } else if bytes.len() != pins.layers * cache_capacity * 1024 {
        Err(
            label
                + " byte length does not match the exact layer-major bulk cache geometry"@,
        )
    } else if cache_capacity * 256 > usize::MAX {
        Err(label + " plane element count overflowed"@)
    } else if prefix_tokens * 256 > usize::MAX {
        Err(label + " semantic element count overflowed"@)
    } else if exists|plane: int|
        0 <= plane < pins.layers && !#[trigger] plane_finite(
            words,
            cache_capacity,
            prefix_tokens,
            plane,
        ) {
        Err(label + " contains a nonfinite f32 cache element"@)
    } else {
        Ok(words)
    }
}

fn bulk_cache_bytes(layers: u32, cache_capacity: u32) -> (bytes: Option<u64>)
    ensures
        bytes == (if layers * cache_capacity * 1024 <= u64::MAX {
            Some((layers * cache_capacity * 1024) as u64)
        } else {
            None::<u64>
        }),
{
    assert(layers * cache_capacity <= u32::MAX * u32::MAX) by (nonlinear_arith)
        requires
            layers <= u32::MAX,
            cache_capacity <= u32::MAX,
    ;
    let rows: u64 = layers as u64 * cache_capacity as u64;
    match rows.checked_mul(PINNED_KEY_VALUE_WIDTH as u64) {
        Some(elements) => elements.checked_mul(4),
        None => None,
    }
}

fn words_finite_between(words: &[u32], start: usize, end: usize) -> (finite: bool)
    requires
        start <= end <= words.len(),
    ensures
        finite == forall|i: int|
            start <= i < end ==> crate::ieee::single_finite(#[trigger] words@[i]),
{
    let mut index: usize = start;
    while index < end
        invariant
            start <= index <= end,
            end <= words.len(),
            forall|i: int|
                start <= i < index ==> crate::ieee::single_finite(#[trigger] words@[i]),
        decreases end - index,
    {
        if !single_is_finite(words[index]) {
            return false;
        }
        index += 1;
    }
    true
}

proof fn lemma_bulk_words(pins: DecoderPins, bytes: Seq<u8>, cache_capacity: u32)
    requires
        bytes.len() == pins.layers * cache_capacity * 1024,
    ensures
        bytes.len() % 4 == 0,
        crate::words::words32(bytes).len() == pins.layers * (cache_capacity * 256),
{
    assert(pins.layers * cache_capacity * 1024 == 4 * (pins.layers * (cache_capacity * 256)))
        by (nonlinear_arith);
}

/// Whether the prefix of every layer of a bulk cache is finite.
fn prefixes_finite(words: &[u32], layers: u32, prefix_tokens: u32, cache_capacity: u32) -> (finite:
    bool)
    requires
        words.len() == layers * (cache_capacity * 256),
        cache_capacity * 256 <= usize::MAX,
        prefix_tokens * 256 <= usize::MAX,
        prefixes_inside(words@, layers, prefix_tokens, cache_capacity),
    ensures
        finite == forall|plane: int|
            0 <= plane < layers ==> #[trigger] plane_finite(
                words@,
                cache_capacity,
                prefix_tokens,
                plane,
            ),
{
    let plane_elements: usize = cache_capacity as usize * 256;
    let semantic_elements: usize = prefix_tokens as usize * 256;
    let mut base: usize = 0;
    let mut index: u32 = 0;
    while index < layers
        invariant
            index <= layers,
            plane_elements == cache_capacity * 256,
            semantic_elements == prefix_tokens * 256,
            words.len() == layers * plane_elements,
            base == index * plane_elements,
            prefixes_inside(words@, layers, prefix_tokens, cache_capacity),
            forall|p: int|
                0 <= p < index ==> #[trigger] plane_finite(
                    words@,
                    cache_capacity,
                    prefix_tokens,
                    p,
                ),
        decreases layers - index,
    {
        assert(!plane_overruns(layers, cache_capacity, prefix_tokens, index as int));
        assert((index + 1) * plane_elements <= layers * plane_elements) by (nonlinear_arith)
            requires
                index < layers,
                0 <= plane_elements,
        ;
        assert((index + 1) * plane_elements == index * plane_elements + plane_elements)
            by (nonlinear_arith);
        if !words_finite_between(words, base, base + semantic_elements) {
            assert(!plane_finite(words@, cache_capacity, prefix_tokens, index as int));
            return false;
        }
        assert(plane_finite(words@, cache_capacity, prefix_tokens, index as int));
        base = base + plane_elements;
        index += 1;
    }
    true
}

/// Requires a bulk cache to have the exact geometry of all layers, and finite values in the
/// prefix of each; gives its words.
pub fn require_stack_cache_operands(
    pins: &DecoderPins,
    bytes: &[u8],
    label: &str,
    prefix_tokens: u32,
    cache_capacity: u32,
) -> (words: Result<Vec<u32>, String>)
    requires
        cache_prefixes_inside(*pins, bytes@, prefix_tokens, cache_capacity),
    ensures
        crate::operands::words_said(words) == cache_outcome(
            *pins,
            bytes@,
            label@,
            prefix_tokens,
            cache_capacity,
        ),
{
    let expected: u64 = match bulk_cache_bytes(pins.layers, cache_capacity) {
        Some(expected) => expected,
        None => {
            return Err(join2(label, " byte size overflowed"));
        },
    };
    if bytes.len() as u64 != expected {
        return Err(
            join2(
                label,
                " byte length does not match the exact layer-major bulk cache geometry",
            ),
        );
    }
    proof {
        lemma_bulk_words(*pins, bytes@, cache_capacity);
    }
    let words: Vec<u32> = bytes_to_words(bytes, label)?;
    if cache_capacity as u64 * PINNED_KEY_VALUE_WIDTH as u64 > usize::MAX as u64 {
        return Err(join2(label, " plane element count overflowed"));
    }
    if prefix_tokens as u64 * PINNED_KEY_VALUE_WIDTH as u64 > usize::MAX as u64 {
        return Err(join2(label, " semantic element count overflowed"));
    }
    if !prefixes_finite(words.as_slice(), pins.layers, prefix_tokens, cache_capacity) {
        return Err(join2(label, " contains a nonfinite f32 cache element"));
    }
    Ok(words)
}

fn prefixes_are_inside(
    words: &[u32],
    layers: u32,
    prefix_tokens: u32,
    cache_capacity: u32,
) -> (inside: bool)
    requires
        words.len() == layers * (cache_capacity * 256),
        cache_capacity * 256 <= usize::MAX,
        prefix_tokens * 256 <= usize::MAX,
    ensures
        inside == prefixes_inside(words@, layers, prefix_tokens, cache_capacity),
{
    let plane_elements: usize = cache_capacity as usize * 256;
    let semantic_elements: usize = prefix_tokens as usize * 256;
    let mut base: usize = 0;
    let mut index: u32 = 0;
    while index < layers
        invariant
            index <= layers,
            plane_elements == cache_capacity * 256,
            semantic_elements == prefix_tokens * 256,
            words.len() == layers * plane_elements,
            base == index * plane_elements,
            forall|p: int|
                0 <= p < index ==> #[trigger] plane_finite(
                    words@,
                    cache_capacity,
                    prefix_tokens,
                    p,
                ),
            forall|p: int|
                0 <= p < index ==> !#[trigger] plane_overruns(
                    layers,
                    cache_capacity,
                    prefix_tokens,
                    p,
                ),
        decreases layers - index,
    {
        assert((index + 1) * plane_elements <= layers * plane_elements) by (nonlinear_arith)
            requires
                index < layers,
                0 <= plane_elements,
        ;
        assert((index + 1) * plane_elements == index * plane_elements + plane_elements)
            by (nonlinear_arith);
        if semantic_elements > words.len() - base {
            assert(plane_overruns(layers, cache_capacity, prefix_tokens, index as int));
            return false;
        }
        assert(!plane_overruns(layers, cache_capacity, prefix_tokens, index as int));
        if !words_finite_between(words, base, base + semantic_elements) {
            assert(!plane_finite(words@, cache_capacity, prefix_tokens, index as int));
            assert forall|p: int|
                0 <= p < layers && #[trigger] plane_overruns(
                    layers,
                    cache_capacity,
                    prefix_tokens,
                    p,
                ) implies index < p by {}
            return true;
        }
        assert(plane_finite(words@, cache_capacity, prefix_tokens, index as int));
        base = base + plane_elements;
        index += 1;
    }
    true
}

/// Whether the prefixes of the layers of a bulk cache lie inside it, if they are looked at.
pub fn cache_prefixes_are_inside(
    pins: &DecoderPins,
    bytes: &[u8],
    prefix_tokens: u32,
    cache_capacity: u32,
) -> (inside: bool)
    ensures
        inside == cache_prefixes_inside(*pins, bytes@, prefix_tokens, cache_capacity),
{
    if prefix_tokens <= cache_capacity {
        proof {
            lemma_short_prefix_is_inside(*pins, bytes@, prefix_tokens, cache_capacity);
        }
        return true;
    }
    let length: u64 = bytes.len() as u64;
    let expected: u64 = match bulk_cache_bytes(pins.layers, cache_capacity) {
        Some(expected) => expected,
        None => {
            return true;
        },
    };
    if length != expected || cache_capacity as u64 * PINNED_KEY_VALUE_WIDTH as u64
        > usize::MAX as u64 || prefix_tokens as u64 * PINNED_KEY_VALUE_WIDTH as u64
        > usize::MAX as u64 {
        return true;
    }
    proof {
        lemma_bulk_words(*pins, bytes@, cache_capacity);
    }
    match bytes_to_words(bytes, "bulk cache") {
        Ok(words) => prefixes_are_inside(
            words.as_slice(),
            pins.layers,
            prefix_tokens,
            cache_capacity,
        ),
        Err(_) => true,
    }
}

/// The caches of a stack session: their bytes, and the words of their first layer, which the
/// planner reads.
pub struct StackCaches {
    pub key_cache_bytes: Vec<u8>,
    pub value_cache_bytes: Vec<u8>,
    pub key_plane: Vec<u32>,
    pub value_plane: Vec<u32>,
}

/// The bytes of the caches of a stack session, or why they are refused.
pub open spec fn stack_caches_outcome(
    pins: DecoderPins,
    prefix_tokens: u32,
    cache_capacity: u32,
    key_cache: Option<Seq<u8>>,
    value_cache: Option<Seq<u8>>,
) -> Result<(Seq<u8>, Seq<u8>), Seq<char>> {
    match crate::operands::operand_outcome(Family::Stack, key_cache) {
        Err(message) => Err(message),
        Ok(key_cache) => match crate::operands::operand_outcome(Family::Stack, value_cache) {
            Err(message) => Err(message),
            Ok(value_cache) => match cache_outcome(
                pins,
                key_cache,
                "initial K cache"@,
                prefix_tokens,
                cache_capacity,
            ) {
                Err(message) => Err(message),
                Ok(_) => match cache_outcome(
                    pins,
                    value_cache,
                    "initial V cache"@,
                    prefix_tokens,
                    cache_capacity,
                ) {
                    Err(message) => Err(message),
                    Ok(_) => Ok((key_cache, value_cache)),
                },
            },
        },
    }
}

proof fn lemma_first_plane(pins: DecoderPins, cache_capacity: u32, bytes: Seq<u8>)
    requires
        pins.layers >= 1,
        bytes.len() == pins.layers * cache_capacity * 1024,
    ensures
        cache_capacity * 256 <= crate::words::words32(bytes).len(),
{
    let width = cache_capacity * 256;
    assert(pins.layers * cache_capacity * 1024 == 4 * (pins.layers * width)) by (nonlinear_arith)
        requires
            width == cache_capacity * 256,
    ;
    assert(width <= pins.layers * width) by (nonlinear_arith)
        requires
            pins.layers >= 1,
            0 <= width,
    ;
}

proof fn lemma_scanned_prefix_is_short(
    pins: DecoderPins,
    bytes: Seq<u8>,
    prefix_tokens: u32,
    cache_capacity: u32,
)
    requires
        pins.layers >= 1,
        cache_is_scanned(pins, bytes, prefix_tokens, cache_capacity),
        cache_prefixes_inside(pins, bytes, prefix_tokens, cache_capacity),
        forall|plane: int|
            0 <= plane < pins.layers ==> #[trigger] plane_finite(
                crate::words::words32(bytes),
                cache_capacity,
                prefix_tokens,
                plane,
            ),
    ensures
        prefix_tokens <= cache_capacity,
{
    let last = pins.layers - 1;
    let width = cache_capacity * 256;
    assert(last * width + width == pins.layers * width) by (nonlinear_arith)
        requires
            last == pins.layers - 1,
    ;
    assert(!plane_overruns(pins.layers, cache_capacity, prefix_tokens, last));
}

fn first_plane(words: Vec<u32>, cache_capacity: u32) -> (plane: Vec<u32>)
    requires
        cache_capacity * 256 <= words.len(),
    ensures
        plane@ == words@.subrange(0, cache_capacity * 256),
{
    let mut plane: Vec<u32> = words;
    let elements: usize = cache_capacity as usize * 256;
    plane.truncate(elements);
    plane
}

/// Admits the caches of a stack session.
pub fn admit_stack_caches(
    pins: &DecoderPins,
    prefix_tokens: u32,
    cache_capacity: u32,
    key_cache: Option<Vec<u8>>,
    value_cache: Option<Vec<u8>>,
) -> (caches: Result<StackCaches, String>)
    requires
        pins.layers >= 1,
        value_cache is Some ==> (key_cache matches Some(bytes) ==> cache_prefixes_inside(
            *pins,
            bytes@,
            prefix_tokens,
            cache_capacity,
        )),
    ensures
        (match caches {
            Ok(found) => Ok((found.key_cache_bytes@, found.value_cache_bytes@)),
            Err(message) => Err(message@),
        }) == stack_caches_outcome(
            *pins,
            prefix_tokens,
            cache_capacity,
            crate::operands::option_bytes(key_cache),
            crate::operands::option_bytes(value_cache),
        ),
        caches matches Ok(found) ==> found.key_plane@ == crate::words::words32(
            found.key_cache_bytes@,
        ).subrange(0, cache_capacity * 256) && found.value_plane@ == crate::words::words32(
            found.value_cache_bytes@,
        ).subrange(0, cache_capacity * 256),
{
    let key_cache_bytes: Vec<u8> = operand_to_bytes(Family::Stack, key_cache)?;
    let value_cache_bytes: Vec<u8> = operand_to_bytes(Family::Stack, value_cache)?;
    let key_words: Vec<u32> = require_stack_cache_operands(
        pins,
        key_cache_bytes.as_slice(),
        "initial K cache",
        prefix_tokens,
        cache_capacity,
    )?;
    proof {
        lemma_scanned_prefix_is_short(*pins, key_cache_bytes@, prefix_tokens, cache_capacity);
        lemma_short_prefix_is_inside(*pins, value_cache_bytes@, prefix_tokens, cache_capacity);
    }
    let value_words: Vec<u32> = require_stack_cache_operands(
        pins,
        value_cache_bytes.as_slice(),
        "initial V cache",
        prefix_tokens,
        cache_capacity,
    )?;
    proof {
        lemma_first_plane(*pins, cache_capacity, key_cache_bytes@);
        lemma_first_plane(*pins, cache_capacity, value_cache_bytes@);
    }
    let key_plane: Vec<u32> = first_plane(key_words, cache_capacity);
    let value_plane: Vec<u32> = first_plane(value_words, cache_capacity);
    Ok(StackCaches { key_cache_bytes, value_cache_bytes, key_plane, value_plane })
}

/// The tokens that the cache planner is told to find in the caches. Where a prefill is to fill
/// them, it is told of the prefilled tokens, and of room for one more.
pub open spec fn planned_prefix(descriptor: StackDescriptor) -> u32 {
    let room = if descriptor.cache_capacity == 0 {
        0u32
    } else {
        (descriptor.cache_capacity - 1) as u32
    };
    if descriptor.prefill_tokens == 0 {
        descriptor.prefix_tokens
    } else if descriptor.prefill_tokens <= room {
        descriptor.prefill_tokens
    } else {
        room
    }
}

/// The tokens that the cache planner is told to find in the caches.
pub fn planned_prefix_tokens(descriptor: &StackDescriptor) -> (tokens: u32)
    ensures
        tokens == planned_prefix(*descriptor),
{
    let room: u32 = if descriptor.cache_capacity == 0 {
        0
    } else {
        descriptor.cache_capacity - 1
    };
    if descriptor.prefill_tokens == 0 {
        descriptor.prefix_tokens
    } else if descriptor.prefill_tokens <= room {
        descriptor.prefill_tokens
    } else {
        room
    }
}

/// The tokens that the prefill planner is told to prefill: one where there is no prefill.
pub fn planned_prefill_tokens(descriptor: &StackDescriptor) -> (tokens: u32)
    ensures
        tokens == (if descriptor.prefill_tokens > 0 {
            descriptor.prefill_tokens
        } else {
            1
        }),
{
    if descriptor.prefill_tokens > 0 {
        descriptor.prefill_tokens
    } else {
        1
    }
}

/// What messages call the plans of a stack whose weights are in the device already, or are
/// stored in a way: of its layers, of its prefill and of its logits readout.
pub open spec fn weight_sites(resident: bool, storage: WeightStorage) -> (
    PlanSite,
    PlanSite,
    PlanSite,
) {
    if resident {
        (PlanSite::ResidentStack, PlanSite::ResidentPrefill, PlanSite::ResidentLogits)
    } else {
        match storage {
            WeightStorage::F32 => (
                PlanSite::StackWeights,
                PlanSite::StackPrefillWeights,
                PlanSite::StackLogitsWeights,
            ),
            WeightStorage::F16 => (
                PlanSite::BalancedStack,
                PlanSite::BalancedPrefill,
                PlanSite::BalancedLogits,
            ),
        }
    }
}

/// The plans of a stack, if the planners gave them all, or the first refusal.
pub open spec fn settled_outcome(
    resident: bool,
    storage: WeightStorage,
    stack: Result<StackPlan, Seq<char>>,
    prefill: Result<PrefillPlan, Seq<char>>,
    lm_head: Option<Result<LmHeadPlan, Seq<char>>>,
) -> Result<(StackPlan, PrefillPlan, Option<LmHeadPlan>), Seq<char>> {
    let sites = weight_sites(resident, storage);
    match stack {
        Err(error) => Err(crate::operands::refusal_lead(sites.0) + error),
        Ok(stack) => match prefill {
            Err(error) => Err(crate::operands::refusal_lead(sites.1) + error),
            Ok(prefill) => match lm_head {
                None => Ok((stack, prefill, None)),
                Some(Err(error)) => Err(crate::operands::refusal_lead(sites.2) + error),
                Some(Ok(plan)) => Ok((stack, prefill, Some(plan))),
            },
        },
    }
}

/// What a planner said of the logits readout, as plain data.
pub open spec fn lm_head_said(lm_head: Option<Result<LmHeadPlan, String>>) -> Option<
    Result<LmHeadPlan, Seq<char>>,
> {
    match lm_head {
        None => None,
        Some(answer) => Some(crate::text::said(answer)),
    }
}

/// The plans of a stack, if the planners gave them all, or the first refusal.
pub fn settle_weight_plans(
    resident: bool,
    storage: WeightStorage,
    stack: Result<StackPlan, String>,
    prefill: Result<PrefillPlan, String>,
    lm_head: Option<Result<LmHeadPlan, String>>,
) -> (settled: Result<(StackPlan, PrefillPlan, Option<LmHeadPlan>), String>)
    ensures
        crate::text::said(settled) == settled_outcome(
            resident,
            storage,
            crate::text::said(stack),
            crate::text::said(prefill),
            lm_head_said(lm_head),
        ),
        settled matches Ok(found) ==> found.2 is Some == lm_head is Some,
{
    let sites: (PlanSite, PlanSite, PlanSite) = if resident {
        (PlanSite::ResidentStack, PlanSite::ResidentPrefill, PlanSite::ResidentLogits)
    } else {
        match storage {
            WeightStorage::F32 => (
                PlanSite::StackWeights,
                PlanSite::StackPrefillWeights,
                PlanSite::StackLogitsWeights,
            ),
            WeightStorage::F16 => (
                PlanSite::BalancedStack,
                PlanSite::BalancedPrefill,
                PlanSite::BalancedLogits,
            ),
        }
    };
    let stack: StackPlan = match stack {
        Ok(plan) => plan,
        Err(error) => {
            return Err(plan_refusal(sites.0, error.as_str()));
        },
    };
    let prefill: PrefillPlan = match prefill {
        Ok(plan) => plan,
        Err(error) => {
            return Err(plan_refusal(sites.1, error.as_str()));
        },
    };
    match lm_head {
        None => Ok((stack, prefill, None)),
        Some(Ok(plan)) => Ok((stack, prefill, Some(plan))),
        Some(Err(error)) => Err(plan_refusal(sites.2, error.as_str())),
    }
}

/// What the resource planner is asked: the single-precision sizes, and how they are stored.
#[derive(Clone, Copy, Debug)]
pub struct WeightResourceRequest {
    pub layers: u32,
    pub layer_weight_stride_bytes: [u64; 9],
    pub rope_table_bytes: u64,
    pub final_norm_weight_bytes: Option<u64>,
    pub lm_head_weight_bytes: Option<u64>,
    pub storage: WeightStorage,
}

/// How messages name the rotary tables of a session, resident or not.
pub open spec fn rope_noun(resident: bool) -> Seq<char> {
    if resident {
        "resident decoder rope table"@
    } else {
        "decoder rope table"@
    }
}

/// What the resource planner is asked, or the message that it cannot be asked.
pub open spec fn resource_request_outcome(
    stack: StackPlan,
    lm_head: Option<LmHeadPlan>,
    storage: WeightStorage,
    resident: bool,
) -> Result<WeightResourceRequest, Seq<char>> {
    match crate::sizes::byte_size(stack.attention.rope_elements as int, rope_noun(resident)) {
        Err(message) => Err(message),
        Ok(rope_table_bytes) => Ok(
            WeightResourceRequest {
                layers: stack.layers,
                layer_weight_stride_bytes: stack.weight_stride_bytes,
                rope_table_bytes,
                final_norm_weight_bytes: match lm_head {
                    Some(plan) => Some(plan.final_norm_weight_bytes),
                    None => None,
                },
                lm_head_weight_bytes: match lm_head {
                    Some(plan) => Some(plan.lm_head_weight_bytes),
                    None => None,
                },
                storage,
            },
        ),
    }
}

/// What the resource planner is asked.
pub fn weight_resource_request(
    stack: &StackPlan,
    lm_head: &Option<LmHeadPlan>,
    storage: WeightStorage,
    resident: bool,
) -> (request: Result<WeightResourceRequest, String>)
    ensures
        crate::text::said(request) == resource_request_outcome(
            *stack,
            *lm_head,
            storage,
            resident,
        ),
{
    let label: &str = if resident {
        "resident decoder rope table"
    } else {
        "decoder rope table"
    };
    let rope_table_bytes: u64 = checked_u64_bytes(stack.attention.rope_elements, label)?;
    let (final_norm_weight_bytes, lm_head_weight_bytes): (Option<u64>, Option<u64>) = match lm_head {
        Some(plan) => (Some(plan.final_norm_weight_bytes), Some(plan.lm_head_weight_bytes)),
        None => (None, None),
    };
    Ok(
        WeightResourceRequest {
            layers: stack.layers,
            layer_weight_stride_bytes: stack.weight_stride_bytes,
            rope_table_bytes,
            final_norm_weight_bytes,
            lm_head_weight_bytes,
            storage,
        },
    )
}

/// What a device lacks for weights that are stored in a given way.
pub open spec fn storage_complaint(storage: WeightStorage, shader_f16: bool) -> Option<Seq<char>> {
    if storage == WeightStorage::F16 && !shader_f16 {
        Some(
            "decoder stack balanced weight storage requires the shader-f16 device feature"@,
        )
    } else {
        None
    }
}

/// Requires a device to be able to read weights that are stored in a given way.
pub fn require_weight_storage_device_feature(storage: WeightStorage, shader_f16: bool) -> (outcome:
    Result<(), String>)
    ensures
        crate::text::complaint(outcome) == storage_complaint(storage, shader_f16),
{
    if storage.requires_shader_f16() && !shader_f16 {
        return Err(
            "decoder stack balanced weight storage requires the shader-f16 device feature".to_owned(),
        );
    }
    Ok(())
}

/// The shard of a pack that holds the weights of the layers of a kind.
pub open spec fn layer_weight_shard(index: int) -> int {
    if index < 5 {
        index
    } else {
        index + 2
    }
}

/// Whether the shards of a pack are as long as the resource plan says.
pub open spec fn shards_match(shards: Seq<Seq<u8>>, resources: WeightResourcePlan) -> bool {
    &&& forall|i: int|
        #![trigger resources.layer_weight_bulk_bytes@[i]]
        0 <= i < 9 ==> shards[layer_weight_shard(i)].len()
            == resources.layer_weight_bulk_bytes@[i]
    &&& shards[5].len() == resources.rope_table_bytes
    &&& shards[6].len() == resources.rope_table_bytes
    &&& resources.final_norm_weight_bytes == (if shards.len() == 13 {
        Some(shards[11].len() as u64)
    } else {
        None::<u64>
    })
    &&& resources.lm_head_weight_bytes == (if shards.len() == 13 {
        Some(shards[12].len() as u64)
    } else {
        None::<u64>
    })
}

fn same_length(bytes: Option<u64>, expected: Option<u64>) -> (same: bool)
    ensures
        same == (bytes == expected),
{
    match (bytes, expected) {
        (Some(left), Some(right)) => left == right,
        (None, None) => true,
        _ => false,
    }
}

fn check_shards(shards: &Vec<Vec<u8>>, resources: &WeightResourcePlan) -> (matches: bool)
    requires
        shards.len() == 11 || shards.len() == 13,
    ensures
        matches == shards_match(crate::weight_pack::contents(shards@), *resources),
{
    let ghost model = crate::weight_pack::contents(shards@);
    let mut index: usize = 0;
    while index < 9
        invariant
            index <= 9,
            shards.len() == 11 || shards.len() == 13,
            model == crate::weight_pack::contents(shards@),
            forall|i: int|
                #![trigger resources.layer_weight_bulk_bytes@[i]]
                0 <= i < index ==> model[layer_weight_shard(i)].len()
                    == resources.layer_weight_bulk_bytes@[i],
        decreases 9 - index,
    {
        let shard: usize = if index < 5 {
            index
        } else {
            index + 2
        };
        assert(model[shard as int] == shards@[shard as int]@);
        if shards[shard].len() as u64 != resources.layer_weight_bulk_bytes[index] {
            assert(!shards_match(model, *resources)) by {
                let i = index as int;
                assert(resources.layer_weight_bulk_bytes@[i]
                    != model[layer_weight_shard(i)].len());
            }
            return false;
        }
        index += 1;
    }
    assert(model[5] == shards@[5]@ && model[6] == shards@[6]@);
    let (final_norm, lm_head): (Option<u64>, Option<u64>) = if shards.len() == 13 {
        assert(model[11] == shards@[11]@ && model[12] == shards@[12]@);
        (Some(shards[11].len() as u64), Some(shards[12].len() as u64))
    } else {
        (None, None)
    };
    shards[5].len() as u64 == resources.rope_table_bytes && shards[6].len() as u64
        == resources.rope_table_bytes && same_length(
        final_norm,
        resources.final_norm_weight_bytes,
    ) && same_length(lm_head, resources.lm_head_weight_bytes)
}

/// What the planners gave for a stack session.
#[derive(Debug)]
pub struct PlannedStack {
    pub kv: KvPlan,
    pub stack: StackPlan,
    pub resources: WeightResourcePlan,
    pub prefill: PrefillPlan,
    pub lm_head: Option<LmHeadPlan>,
}

/// The plans of a session, with whether it can prefill.
pub open spec fn plans_with(planned: PlannedStack, prefill_capable: bool) -> StackPlans {
    StackPlans {
        kv: planned.kv,
        stack: planned.stack,
        resources: planned.resources,
        prefill: planned.prefill,
        lm_head: planned.lm_head,
        prefill_capable,
    }
}

/// The plans of a session whose descriptor and weights are admitted: it can prefill where its
/// descriptor asks for it, and reads out logits where its descriptor and its weights do.
pub fn assemble_stack_plans(admitted: &AdmittedStack, planned: PlannedStack) -> (plans: StackPlans)
    requires
        planned.lm_head is Some == admitted.logits_capable,
    ensures
        plans == plans_with(planned, admitted.prefill_capable),
        plans.prefill_capable == admitted.prefill_capable,
        plans.lm_head is Some == admitted.logits_capable,
{
    StackPlans {
        kv: planned.kv,
        stack: planned.stack,
        resources: planned.resources,
        prefill: planned.prefill,
        lm_head: planned.lm_head,
        prefill_capable: admitted.prefill_capable,
    }
}

/// Everything that a stack session is begun with.
pub struct PreparedStackBegin {
    pub plans: StackPlans,
    pub checkpoint_blake3: Option<[u8; 32]>,
    pub operands: StackBeginOperands,
    pub sources: StackShaderSources,
}

/// What a stack session with fresh weights is begun with, as plain data.
pub open spec fn operands_of(
    operands: StackBeginOperands,
    shards: Seq<Seq<u8>>,
    key_cache: Seq<u8>,
    value_cache: Seq<u8>,
) -> bool {
    &&& operands.upload_initial_cache
    &&& operands.key_cache_bytes@ == key_cache
    &&& operands.value_cache_bytes@ == value_cache
    &&& operands.rope_cos_bytes@ == shards[5]
    &&& operands.rope_sin_bytes@ == shards[6]
    &&& crate::weight_pack::contents(operands.layer_weights@) == Seq::new(
        9,
        |i: int| shards[layer_weight_shard(i)],
    )
    &&& crate::operands::option_bytes(operands.final_norm_weight_bytes) == (if shards.len() == 13 {
        Some(shards[11])
    } else {
        None::<Seq<u8>>
    })
    &&& crate::operands::option_bytes(operands.lm_head_weight_bytes) == (if shards.len() == 13 {
        Some(shards[12])
    } else {
        None::<Seq<u8>>
    })
}

fn split_shards(shards: Vec<Vec<u8>>, key_cache_bytes: Vec<u8>, value_cache_bytes: Vec<u8>) -> (operands:
    StackBeginOperands)
    requires
        shards.len() == 11 || shards.len() == 13,
    ensures
        operands_of(
            operands,
            crate::weight_pack::contents(shards@),
            key_cache_bytes@,
            value_cache_bytes@,
        ),
        operands.layer_weights.len() == 9,
{
    let ghost model = crate::weight_pack::contents(shards@);
    let ghost given = shards@;
    let mut layer_weights: Vec<Vec<u8>> = shards;
    let mut lm_head_weight_bytes: Option<Vec<u8>> = None;
    let mut final_norm_weight_bytes: Option<Vec<u8>> = None;
    if layer_weights.len() == 13 {
        lm_head_weight_bytes = layer_weights.pop();
        final_norm_weight_bytes = layer_weights.pop();
        assert(model[12] == given[12]@ && model[11] == given[11]@);
    }
    assert(layer_weights@ =~= given.subrange(0, 11));
    assert(model[5] == given[5]@ && model[6] == given[6]@);
    let rope_sin_bytes: Vec<u8> = layer_weights.remove(6);
    let rope_cos_bytes: Vec<u8> = layer_weights.remove(5);
    assert(crate::weight_pack::contents(layer_weights@) =~= Seq::new(
        9,
        |i: int| model[layer_weight_shard(i)],
    )) by {
        assert forall|i: int| 0 <= i < 9 implies layer_weights@[i]@
            == model[layer_weight_shard(i)] by {
            assert(model[layer_weight_shard(i)] == given[layer_weight_shard(i)]@);
        }
    }
    StackBeginOperands {
        upload_initial_cache: true,
        key_cache_bytes,
        value_cache_bytes,
        rope_cos_bytes,
        rope_sin_bytes,
        layer_weights,
        final_norm_weight_bytes,
        lm_head_weight_bytes,
    }
}

/// What is wrong with beginning a planned session with fresh weights.
pub open spec fn stack_begin_complaint(
    pack: crate::weight_pack::PackModel,
    resources: WeightResourcePlan,
    shader_f16: bool,
    modules: StackShaderModules,
) -> Option<Seq<char>> {
    match storage_complaint(resources.storage, shader_f16) {
        Some(message) => Some(message),
        None => if !shards_match(pack.shards, resources) {
            Some(
                "decoder stack authenticated shard bytes drifted from the physical resource plan"@,
            )
        } else {
            match crate::stack_sources::stack_canonical_outcome(modules) {
                Err(message) => Some(message),
                Ok(_) => None,
            }
        },
    }
}

/// Prepares the beginning of a stack session whose parts are admitted and planned.
pub fn prepare_stack_begin(
    admitted: AdmittedStack,
    key_cache_bytes: Vec<u8>,
    value_cache_bytes: Vec<u8>,
    planned: PlannedStack,
    shader_f16: bool,
    modules: StackShaderModules,
) -> (prepared: Result<PreparedStackBegin, String>)
    requires
        admitted.pack.shards.len() == 11 || admitted.pack.shards.len() == 13,
        planned.lm_head is Some == admitted.logits_capable,
    ensures
        match prepared {
            Ok(found) => {
                let model = crate::weight_pack::pack_model(admitted.pack);
                &&& stack_begin_complaint(model, planned.resources, shader_f16, modules) is None
                &&& found.plans == plans_with(planned, admitted.prefill_capable)
                &&& found.plans.prefill_capable == admitted.prefill_capable
                &&& found.plans.lm_head is Some == admitted.logits_capable
                &&& found.checkpoint_blake3 == admitted.pack.checkpoint_blake3
                &&& operands_of(
                    found.operands,
                    model.shards,
                    key_cache_bytes@,
                    value_cache_bytes@,
                )
                &&& found.operands.layer_weights.len() == 9
                &&& crate::stack_sources::stack_canonical_outcome(modules) == Ok::<
                    crate::stack_sources::StackSourcesModel,
                    Seq<char>,
                >(crate::stack_sources::stack_sources_model(found.sources))
            },
            Err(message) => stack_begin_complaint(
                crate::weight_pack::pack_model(admitted.pack),
                planned.resources,
                shader_f16,
                modules,
            ) == Some(message@),
        },
{
    let plans: StackPlans = assemble_stack_plans(&admitted, planned);
    let pack: WeightPack = admitted.pack;
    require_weight_storage_device_feature(plans.resources.storage, shader_f16)?;
    if !check_shards(&pack.shards, &plans.resources) {
        return Err(
            "decoder stack authenticated shard bytes drifted from the physical resource plan".to_owned(),
        );
    }
    let sources: StackShaderSources = canonical_stack_sources(modules)?;
    let checkpoint_blake3: Option<[u8; 32]> = pack.checkpoint_blake3;
    let operands: StackBeginOperands = split_shards(
        pack.shards,
        key_cache_bytes,
        value_cache_bytes,
    );
    Ok(PreparedStackBegin { plans, checkpoint_blake3, operands, sources })
}

/// The descriptor of a session on resident weights, or why it is refused.
pub open spec fn resident_descriptor_outcome(
    stored_poisoned: bool,
    busy: bool,
    descriptor: Result<StackDescriptor, Seq<char>>,
    resident: bool,
) -> Result<StackDescriptor, Seq<char>> {
    match crate::failure::admission_complaint(Family::Stack, stored_poisoned, busy) {
        Some(message) => Err(message),
        None => match descriptor {
            Err(message) => Err(message),
            Ok(found) => if found.prefix_tokens != 0 || found.prefill_tokens == 0 {
                Err("resident decoder begin requires a zero-prefix prefill descriptor"@)
            } else if found.vocab_size != Some(PINNED_VOCAB_SIZE) {
                Err("resident decoder begin requires the pinned logits vocabulary"@)
            } else if !resident {
                Err(
                    "resident decoder weights are not ready; run one authenticated full begin first"@,
                )
            } else {
                Ok(found)
            },
        },
    }
}

/// Admits the descriptor of a session on the weights that an earlier session left on the
/// device.
pub fn admit_resident_begin(
    stored_poisoned: bool,
    busy: bool,
    pins: &DecoderPins,
    descriptor_json: &str,
    resident: bool,
) -> (descriptor: Result<StackDescriptor, String>)
    ensures
        crate::text::said(descriptor) == resident_descriptor_outcome(
            stored_poisoned,
            busy,
            crate::descriptor::stack_outcome(crate::json::parsed_json(descriptor_json@), *pins),
            resident,
        ),
{
    check_admission(Family::Stack, stored_poisoned, busy)?;
    let descriptor: StackDescriptor = parse_stack_descriptor_json(descriptor_json, pins)?;
    if descriptor.prefix_tokens != 0 || descriptor.prefill_tokens == 0 {
        return Err(
            "resident decoder begin requires a zero-prefix prefill descriptor".to_owned(),
        );
    }
    let pinned: bool = match descriptor.vocab_size {
        Some(vocab_size) => vocab_size == PINNED_VOCAB_SIZE,
        None => false,
    };
    if !pinned {
        return Err("resident decoder begin requires the pinned logits vocabulary".to_owned());
    }
    if !resident {
        return Err(
            "resident decoder weights are not ready; run one authenticated full begin first".to_owned(),
        );
    }
    Ok(descriptor)
}

/// What is wrong with the weights that an earlier session left on the device.
pub open spec fn resident_key_complaint(
    key: Seq<char>,
    checkpoint: Seq<u8>,
    resources: WeightResourcePlan,
    shader_f16: bool,
) -> Option<Seq<char>> {
    match storage_complaint(resources.storage, shader_f16) {
        Some(message) => Some(message),
        None => match crate::stack_plan::resident_key(Some(checkpoint), resources) {
            None => Some("resident decoder cache key is unavailable"@),
            Some(expected) => if key != expected {
                Some("resident decoder weights do not match the requested model geometry"@)
            } else {
                None
            },
        },
    }
}

/// What is wrong with a rotary table.
pub open spec fn table_complaint(bytes: Seq<u8>, label: Seq<char>, expected: u64) -> Option<
    Seq<char>,
> {
    if bytes.len() != expected {
        Some(label + " byte length does not match the requested cache capacity"@)
    } else {
        match crate::operands::words_outcome(bytes, label) {
            Err(message) => Some(message),
            Ok(words) => if !crate::stack_encode::all_finite(words) {
                Some(label + " contains a nonfinite f32 value"@)
            } else {
                None
            },
        }
    }
}

fn require_table(bytes: &[u8], label: &str, expected: u64) -> (outcome: Result<(), String>)
    ensures
        crate::text::complaint(outcome) == table_complaint(bytes@, label@, expected),
{
    if bytes.len() as u64 != expected {
        return Err(
            join2(label, " byte length does not match the requested cache capacity"),
        );
    }
    let words: Vec<u32> = bytes_to_words(bytes, label)?;
    if !words_are_finite(words.as_slice()) {
        return Err(join2(label, " contains a nonfinite f32 value"));
    }
    Ok(())
}

/// The rotary tables of a session on resident weights, or why they are refused.
pub open spec fn tables_outcome(
    rope_cos: Option<Seq<u8>>,
    rope_sin: Option<Seq<u8>>,
    expected: u64,
) -> Result<(Seq<u8>, Seq<u8>), Seq<char>> {
    match crate::operands::operand_outcome(Family::Stack, rope_cos) {
        Err(message) => Err(message),
        Ok(cos) => match crate::operands::operand_outcome(Family::Stack, rope_sin) {
            Err(message) => Err(message),
            Ok(sin) => match crate::text::earlier(
                table_complaint(cos, "resident decoder cosine table"@, expected),
                table_complaint(sin, "resident decoder sine table"@, expected),
            ) {
                Some(message) => Err(message),
                None => Ok((cos, sin)),
            },
        },
    }
}

/// The rotary tables of a session on resident weights, or why it cannot be begun.
pub open spec fn resident_begin_outcome(
    key: Seq<char>,
    checkpoint: Seq<u8>,
    resources: WeightResourcePlan,
    shader_f16: bool,
    cache_capacity: u32,
    rope_cos: Option<Seq<u8>>,
    rope_sin: Option<Seq<u8>>,
) -> Result<(Seq<u8>, Seq<u8>), Seq<char>> {
    match resident_key_complaint(key, checkpoint, resources, shader_f16) {
        Some(message) => Err(message),
        None => match tables_outcome(rope_cos, rope_sin, resources.rope_table_bytes) {
            Err(message) => Err(message),
            Ok(tables) => if cache_capacity * 256 > usize::MAX {
                Err("resident decoder cache plane is not addressable"@)
            } else {
                Ok(tables)
            },
        },
    }
}

/// Prepares the beginning of a session on the weights that an earlier session left on the
/// device: only the rotary tables are new, and the caches stay empty. Gives the operands, and
/// the elements of the empty plane that the cache planner reads.
pub fn prepare_resident_stack_begin(
    key: &str,
    checkpoint_blake3: &[u8; 32],
    resources: &WeightResourcePlan,
    shader_f16: bool,
    cache_capacity: u32,
    rope_cos: Option<Vec<u8>>,
    rope_sin: Option<Vec<u8>>,
) -> (operands: Result<(StackBeginOperands, usize), String>)
    ensures
        (match operands {
            Ok(found) => Ok((found.0.rope_cos_bytes@, found.0.rope_sin_bytes@)),
            Err(message) => Err(message@),
        }) == resident_begin_outcome(
            key@,
            checkpoint_blake3@,
            *resources,
            shader_f16,
            cache_capacity,
            crate::operands::option_bytes(rope_cos),
            crate::operands::option_bytes(rope_sin),
        ),
        operands matches Ok(found) ==> found.1 == cache_capacity * 256
            && !found.0.upload_initial_cache && found.0.key_cache_bytes.len() == 0
            && found.0.value_cache_bytes.len() == 0 && found.0.layer_weights.len() == 0
            && found.0.final_norm_weight_bytes is None && found.0.lm_head_weight_bytes is None,
{
    require_weight_storage_device_feature(resources.storage, shader_f16)?;
    let checkpoint: Option<[u8; 32]> = Some(*checkpoint_blake3);
    let expected: String = match resident_weight_key(&checkpoint, resources) {
        Some(expected) => expected,
        None => {
            return Err("resident decoder cache key is unavailable".to_owned());
        },
    };
    if !same(key, expected.as_str()) {
        return Err(
            "resident decoder weights do not match the requested model geometry".to_owned(),
        );
    }
    let rope_cos_bytes: Vec<u8> = operand_to_bytes(Family::Stack, rope_cos)?;
    let rope_sin_bytes: Vec<u8> = operand_to_bytes(Family::Stack, rope_sin)?;
    require_table(
        rope_cos_bytes.as_slice(),
        "resident decoder cosine table",
        resources.rope_table_bytes,
    )?;
    require_table(
        rope_sin_bytes.as_slice(),
        "resident decoder sine table",
        resources.rope_table_bytes,
    )?;
    let plane: u64 = cache_capacity as u64 * PINNED_KEY_VALUE_WIDTH as u64;
    if plane > usize::MAX as u64 {
        return Err("resident decoder cache plane is not addressable".to_owned());
    }
    Ok(
        (
            StackBeginOperands {
                upload_initial_cache: false,
                key_cache_bytes: Vec::new(),
                value_cache_bytes: Vec::new(),
                rope_cos_bytes,
                rope_sin_bytes,
                layer_weights: Vec::new(),
                final_norm_weight_bytes: None,
                lm_head_weight_bytes: None,
            },
            plane as usize,
        ),
    )
}

/// Finishes the preparation of a session on the weights that an earlier session left on the
/// device, once its caches are planned: it can prefill and read out logits.
pub fn finish_resident_stack_begin(
    checkpoint_blake3: [u8; 32],
    operands: StackBeginOperands,
    planned: PlannedStack,
    modules: StackShaderModules,
) -> (prepared: Result<PreparedStackBegin, String>)
    requires
        planned.lm_head is Some,
    ensures
        match prepared {
            Ok(found) => {
                &&& found.plans == plans_with(planned, true)
                &&& found.plans.prefill_capable
                &&& found.plans.lm_head is Some
                &&& found.checkpoint_blake3 == Some(checkpoint_blake3)
                &&& found.operands == operands
                &&& crate::stack_sources::stack_canonical_outcome(modules) == Ok::<
                    crate::stack_sources::StackSourcesModel,
                    Seq<char>,
                >(crate::stack_sources::stack_sources_model(found.sources))
            },
            Err(message) => crate::stack_sources::stack_canonical_outcome(modules) == Err::<
                crate::stack_sources::StackSourcesModel,
                Seq<char>,
            >(message@),
        },
{
    let sources: StackShaderSources = canonical_stack_sources(modules)?;
    let plans: StackPlans = StackPlans {
        kv: planned.kv,
        stack: planned.stack,
        resources: planned.resources,
        prefill: planned.prefill,
        lm_head: planned.lm_head,
        prefill_capable: true,
    };
    Ok(
        PreparedStackBegin {
            plans,
            checkpoint_blake3: Some(checkpoint_blake3),
            operands,
            sources,
        },
    )
}

} // verus!
