//! Operands: the bytes that a session is given, and the words that planners read in them.

use crate::descriptor::{
    parse_decoder_descriptor_json, parse_layer_descriptor_json, KvDescriptor, LayerDescriptor,
};
use crate::failure::check_admission;
use crate::family::{DecoderPins, Family};
use crate::kv::{KvStepOperands, KvStepPlan};
use crate::text::join2;
use crate::weight_pack::{parse_layer_weight_pack, WeightPack};
use crate::words::pack_u32_le;
use vstd::prelude::*;

verus! {

/// The message about an operand that is no byte array.
pub open spec fn operand_message(family: Family) -> Seq<char> {
    match family {
        Family::Kv => "decoder KV operand must be a Uint8Array view"@,
        Family::Layer => "decoder layer session operand must be a Uint8Array view"@,
        Family::Stack => "decoder stack session operand must be a Uint8Array view"@,
    }
}

/// The message about a weight pack that is no byte array.
pub open spec fn pack_message(family: Family) -> Seq<char> {
    crate::family::noun(family) + " weight pack must be a Uint8Array view"@
}

/// The bytes of an optional vector.
pub open spec fn option_bytes(bytes: Option<Vec<u8>>) -> Option<Seq<u8>> {
    match bytes {
        Some(vector) => Some(vector@),
        None => None,
    }
}

/// A byte vector result as plain data.
pub open spec fn bytes_said(outcome: Result<Vec<u8>, String>) -> Result<Seq<u8>, Seq<char>> {
    match outcome {
        Ok(bytes) => Ok(bytes@),
        Err(message) => Err(message@),
    }
}

/// The bytes of an operand, or the message that it is no byte array.
pub open spec fn operand_outcome(family: Family, operand: Option<Seq<u8>>) -> Result<
    Seq<u8>,
    Seq<char>,
> {
    match operand {
        Some(bytes) => Ok(bytes),
        None => Err(operand_message(family)),
    }
}

/// The bytes of a weight pack, or the message that it is no byte array.
pub open spec fn pack_operand_outcome(family: Family, operand: Option<Seq<u8>>) -> Result<
    Seq<u8>,
    Seq<char>,
> {
    match operand {
        Some(bytes) => Ok(bytes),
        None => Err(pack_message(family)),
    }
}

/// The bytes of an operand; nothing was given where it is no byte array.
pub fn operand_to_bytes(family: Family, operand: Option<Vec<u8>>) -> (bytes: Result<
    Vec<u8>,
    String,
>)
    ensures
        bytes_said(bytes) == operand_outcome(family, option_bytes(operand)),
{
    match operand {
        Some(bytes) => Ok(bytes),
        None => Err(
            match family {
                Family::Kv => "decoder KV operand must be a Uint8Array view".to_owned(),
                Family::Layer =>
                    "decoder layer session operand must be a Uint8Array view".to_owned(),
                Family::Stack =>
                    "decoder stack session operand must be a Uint8Array view".to_owned(),
            },
        ),
    }
}

/// The bytes of a weight pack; nothing was given where it is no byte array.
pub fn pack_to_bytes(family: Family, operand: Option<Vec<u8>>) -> (bytes: Result<Vec<u8>, String>)
    ensures
        bytes_said(bytes) == pack_operand_outcome(family, option_bytes(operand)),
{
    match operand {
        Some(bytes) => Ok(bytes),
        None => Err(
            join2(
                crate::family::family_noun(family),
                " weight pack must be a Uint8Array view",
            ),
        ),
    }
}

/// The single-precision words of a byte string, or the message that it is ragged.
pub open spec fn words_outcome(bytes: Seq<u8>, label: Seq<char>) -> Result<Seq<u32>, Seq<char>> {
    if bytes.len() % 4 == 0 {
        Ok(crate::words::words32(bytes))
    } else {
        Err(label + " bytes are not a whole little-endian f32 sequence"@)
    }
}

/// A word vector result as plain data.
pub open spec fn words_said(outcome: Result<Vec<u32>, String>) -> Result<Seq<u32>, Seq<char>> {
    match outcome {
        Ok(words) => Ok(words@),
        Err(message) => Err(message@),
    }
}

/// The bit patterns of the single-precision values of a byte string.
pub fn bytes_to_words(bytes: &[u8], label: &str) -> (words: Result<Vec<u32>, String>)
    ensures
        words_said(words) == words_outcome(bytes@, label@),
{
    if bytes.len() % 4 != 0 {
        return Err(join2(label, " bytes are not a whole little-endian f32 sequence"));
    }
    let mut words: Vec<u32> = Vec::new();
    let mut at: usize = 0;
    while at < bytes.len()
        invariant
            at <= bytes.len(),
            at % 4 == 0,
            bytes.len() % 4 == 0,
            words.len() == at / 4,
            forall|i: int|
                0 <= i < words.len() ==> #[trigger] words@[i] == crate::words::word32(
                    bytes@,
                    4 * i,
                ),
        decreases bytes.len() - at,
    {
        words.push(pack_u32_le(bytes, at));
        at += 4;
    }
    assert(words@ =~= crate::words::words32(bytes@));
    Ok(words)
}

/// What a planner is asked to plan.
#[derive(Clone, Copy, Debug, PartialEq, Eq, Structural)]
pub enum PlanSite {
    KvSession,
    KvStep,
    LayerCaches,
    LayerWeights,
    LayerTransition,
    LayerStep,
    StackCaches,
    StackWeights,
    StackPrefillWeights,
    StackLogitsWeights,
    BalancedStack,
    BalancedPrefill,
    BalancedLogits,
    StackResources,
    StackTransition,
    StackStep,
    StackPrefill,
    ResidentStack,
    ResidentPrefill,
    ResidentLogits,
    ResidentResources,
    ResidentCaches,
}

/// How messages name what a planner refused.
pub open spec fn refusal_lead(site: PlanSite) -> Seq<char> {
    match site {
        PlanSite::KvSession =>
            "invalid decoder KV session descriptor geometry or initial cache operands: "@,
        PlanSite::KvStep => "invalid decoder KV step operands or capacity: "@,
        PlanSite::LayerCaches =>
            "invalid decoder layer session descriptor geometry or initial cache operands: "@,
        PlanSite::LayerWeights =>
            "invalid decoder layer session descriptor geometry or weight operands: "@,
        PlanSite::LayerTransition => "invalid decoder layer step cache capacity: "@,
        PlanSite::LayerStep => "invalid decoder layer step hidden row: "@,
        PlanSite::StackCaches =>
            "invalid decoder stack session descriptor geometry or initial cache operands: "@,
        PlanSite::StackWeights =>
            "invalid decoder stack session descriptor geometry or weight operands: "@,
        PlanSite::StackPrefillWeights =>
            "invalid decoder stack session prefill geometry or weight operands: "@,
        PlanSite::StackLogitsWeights =>
            "invalid decoder stack session logits geometry or weight operands: "@,
        PlanSite::BalancedStack => "invalid balanced decoder stack session geometry: "@,
        PlanSite::BalancedPrefill => "invalid balanced decoder stack prefill geometry: "@,
        PlanSite::BalancedLogits => "invalid balanced decoder stack logits geometry: "@,
        PlanSite::StackResources => "invalid decoder stack physical weight resource plan: "@,
        PlanSite::StackTransition => "invalid decoder stack step cache capacity: "@,
        PlanSite::StackStep => "invalid decoder stack step hidden row: "@,
        PlanSite::StackPrefill => "invalid decoder stack prefill geometry: "@,
        PlanSite::ResidentStack => "invalid resident decoder stack geometry: "@,
        PlanSite::ResidentPrefill => "invalid resident decoder prefill geometry: "@,
        PlanSite::ResidentLogits => "invalid resident decoder logits geometry: "@,
        PlanSite::ResidentResources => "invalid resident decoder physical weight plan: "@,
        PlanSite::ResidentCaches => "invalid resident decoder cache geometry: "@,
    }
}

/// The message about what a planner refused, with the planner's own words.
pub fn plan_refusal(site: PlanSite, error: &str) -> (message: String)
    ensures
        message@ == refusal_lead(site) + error@,
{
    let lead: &str = match site {
        PlanSite::KvSession =>
            "invalid decoder KV session descriptor geometry or initial cache operands: ",
        PlanSite::KvStep => "invalid decoder KV step operands or capacity: ",
        PlanSite::LayerCaches =>
            "invalid decoder layer session descriptor geometry or initial cache operands: ",
        PlanSite::LayerWeights =>
            "invalid decoder layer session descriptor geometry or weight operands: ",
        PlanSite::LayerTransition => "invalid decoder layer step cache capacity: ",
        PlanSite::LayerStep => "invalid decoder layer step hidden row: ",
        PlanSite::StackCaches =>
            "invalid decoder stack session descriptor geometry or initial cache operands: ",
        PlanSite::StackWeights =>
            "invalid decoder stack session descriptor geometry or weight operands: ",
        PlanSite::StackPrefillWeights =>
            "invalid decoder stack session prefill geometry or weight operands: ",
        PlanSite::StackLogitsWeights =>
            "invalid decoder stack session logits geometry or weight operands: ",
        PlanSite::BalancedStack => "invalid balanced decoder stack session geometry: ",
        PlanSite::BalancedPrefill => "invalid balanced decoder stack prefill geometry: ",
        PlanSite::BalancedLogits => "invalid balanced decoder stack logits geometry: ",
        PlanSite::StackResources => "invalid decoder stack physical weight resource plan: ",
        PlanSite::StackTransition => "invalid decoder stack step cache capacity: ",
        PlanSite::StackStep => "invalid decoder stack step hidden row: ",
        PlanSite::StackPrefill => "invalid decoder stack prefill geometry: ",
        PlanSite::ResidentStack => "invalid resident decoder stack geometry: ",
        PlanSite::ResidentPrefill => "invalid resident decoder prefill geometry: ",
        PlanSite::ResidentLogits => "invalid resident decoder logits geometry: ",
        PlanSite::ResidentResources => "invalid resident decoder physical weight plan: ",
        PlanSite::ResidentCaches => "invalid resident decoder cache geometry: ",
    };
    join2(lead, error)
}

/// What a key/value session is begun with: its descriptor, the bytes of its caches, and the
/// words that the planner reads in them.
pub struct KvBeginInputs {
    pub descriptor: KvDescriptor,
    pub key_cache_bytes: Vec<u8>,
    pub value_cache_bytes: Vec<u8>,
    pub key_words: Vec<u32>,
    pub value_words: Vec<u32>,
}

/// What a key/value session is begun with, as plain data.
pub struct KvBeginModel {
    pub descriptor: KvDescriptor,
    pub key_cache: Seq<u8>,
    pub value_cache: Seq<u8>,
}

/// The inputs of a key/value session, or why they are refused.
pub open spec fn kv_begin_outcome(
    stored_poisoned: bool,
    busy: bool,
    descriptor: Result<KvDescriptor, Seq<char>>,
    key_cache: Option<Seq<u8>>,
    value_cache: Option<Seq<u8>>,
) -> Result<KvBeginModel, Seq<char>> {
    match crate::failure::admission_complaint(Family::Kv, stored_poisoned, busy) {
        Some(message) => Err(message),
        None => match descriptor {
            Err(message) => Err(message),
            Ok(descriptor) => match operand_outcome(Family::Kv, key_cache) {
                Err(message) => Err(message),
                Ok(key_cache) => match operand_outcome(Family::Kv, value_cache) {
                    Err(message) => Err(message),
                    Ok(value_cache) => match words_outcome(key_cache, "initial K cache"@) {
                        Err(message) => Err(message),
                        Ok(_) => match words_outcome(value_cache, "initial V cache"@) {
                            Err(message) => Err(message),
                            Ok(_) => Ok(KvBeginModel { descriptor, key_cache, value_cache }),
                        },
                    },
                },
            },
        },
    }
}

/// Admits the inputs of a key/value session.
pub fn prepare_decoder_begin(
    stored_poisoned: bool,
    busy: bool,
    descriptor_json: &str,
    key_cache: Option<Vec<u8>>,
    value_cache: Option<Vec<u8>>,
) -> (inputs: Result<KvBeginInputs, String>)
    ensures
        (match inputs {
            Ok(found) => Ok(
                KvBeginModel {
                    descriptor: found.descriptor,
                    key_cache: found.key_cache_bytes@,
                    value_cache: found.value_cache_bytes@,
                },
            ),
            Err(message) => Err(message@),
        }) == kv_begin_outcome(
            stored_poisoned,
            busy,
            crate::descriptor::kv_outcome(crate::json::parsed_json(descriptor_json@)),
            option_bytes(key_cache),
            option_bytes(value_cache),
        ),
        inputs matches Ok(found) ==> found.key_words@ == crate::words::words32(
            found.key_cache_bytes@,
        ) && found.value_words@ == crate::words::words32(found.value_cache_bytes@),
{
    check_admission(Family::Kv, stored_poisoned, busy)?;
    let descriptor: KvDescriptor = parse_decoder_descriptor_json(descriptor_json)?;
    let key_cache_bytes: Vec<u8> = operand_to_bytes(Family::Kv, key_cache)?;
    let value_cache_bytes: Vec<u8> = operand_to_bytes(Family::Kv, value_cache)?;
    let key_words: Vec<u32> = bytes_to_words(key_cache_bytes.as_slice(), "initial K cache")?;
    let value_words: Vec<u32> = bytes_to_words(value_cache_bytes.as_slice(), "initial V cache")?;
    Ok(KvBeginInputs { descriptor, key_cache_bytes, value_cache_bytes, key_words, value_words })
}

/// What a step of a key/value session is given: the bytes, and the words that the planner
/// reads in them.
pub struct KvStepInputs {
    pub operands: KvStepOperands,
    pub query_words: Vec<u32>,
    pub appended_key_words: Vec<u32>,
    pub appended_value_words: Vec<u32>,
}

/// The operands of a step of a key/value session, or why they are refused.
pub open spec fn kv_step_outcome(
    query: Option<Seq<u8>>,
    appended_key: Option<Seq<u8>>,
    appended_value: Option<Seq<u8>>,
) -> Result<(Seq<u8>, Seq<u8>, Seq<u8>), Seq<char>> {
    match operand_outcome(Family::Kv, query) {
        Err(message) => Err(message),
        Ok(query) => match operand_outcome(Family::Kv, appended_key) {
            Err(message) => Err(message),
            Ok(appended_key) => match operand_outcome(Family::Kv, appended_value) {
                Err(message) => Err(message),
                Ok(appended_value) => match words_outcome(query, "step query"@) {
                    Err(message) => Err(message),
                    Ok(_) => match words_outcome(appended_key, "step appended key"@) {
                        Err(message) => Err(message),
                        Ok(_) => match words_outcome(appended_value, "step appended value"@) {
                            Err(message) => Err(message),
                            Ok(_) => Ok((query, appended_key, appended_value)),
                        },
                    },
                },
            },
        },
    }
}

/// Admits the operands of a step of a key/value session.
pub fn prepare_decoder_step(
    query: Option<Vec<u8>>,
    appended_key: Option<Vec<u8>>,
    appended_value: Option<Vec<u8>>,
) -> (inputs: Result<KvStepInputs, String>)
    ensures
        (match inputs {
            Ok(found) => Ok(
                (
                    found.operands.query_bytes@,
                    found.operands.appended_key_bytes@,
                    found.operands.appended_value_bytes@,
                ),
            ),
            Err(message) => Err(message@),
        }) == kv_step_outcome(
            option_bytes(query),
            option_bytes(appended_key),
            option_bytes(appended_value),
        ),
        inputs matches Ok(found) ==> found.query_words@ == crate::words::words32(
            found.operands.query_bytes@,
        ) && found.appended_key_words@ == crate::words::words32(
            found.operands.appended_key_bytes@,
        ) && found.appended_value_words@ == crate::words::words32(
            found.operands.appended_value_bytes@,
        ),
{
    let query_bytes: Vec<u8> = operand_to_bytes(Family::Kv, query)?;
    let appended_key_bytes: Vec<u8> = operand_to_bytes(Family::Kv, appended_key)?;
    let appended_value_bytes: Vec<u8> = operand_to_bytes(Family::Kv, appended_value)?;
    let query_words: Vec<u32> = bytes_to_words(query_bytes.as_slice(), "step query")?;
    let appended_key_words: Vec<u32> = bytes_to_words(
        appended_key_bytes.as_slice(),
        "step appended key",
    )?;
    let appended_value_words: Vec<u32> = bytes_to_words(
        appended_value_bytes.as_slice(),
        "step appended value",
    )?;
    Ok(
        KvStepInputs {
            operands: KvStepOperands { query_bytes, appended_key_bytes, appended_value_bytes },
            query_words,
            appended_key_words,
            appended_value_words,
        },
    )
}

/// Why a step of a key/value session is refused: its operands are, or the planner refuses it.
pub open spec fn kv_step_refusal(
    query: Option<Seq<u8>>,
    appended_key: Option<Seq<u8>>,
    appended_value: Option<Seq<u8>>,
    planned: Result<KvStepPlan, Seq<char>>,
) -> Option<Seq<char>> {
    match kv_step_outcome(query, appended_key, appended_value) {
        Err(message) => Some(message),
        Ok(_) => match planned {
            Err(error) => Some(refusal_lead(PlanSite::KvStep) + error),
            Ok(_) => None,
        },
    }
}

/// Admits a step of a key/value session whose operands are admitted, unless the planner refused
/// it.
pub fn settle_decoder_step(inputs: KvStepInputs, planned: Result<KvStepPlan, String>) -> (settled:
    Result<(KvStepPlan, KvStepOperands), String>)
    ensures
        match settled {
            Ok((step, operands)) => planned == Ok::<KvStepPlan, String>(step) && operands
                == inputs.operands,
            Err(message) => planned is Err && message@ == refusal_lead(PlanSite::KvStep)
                + planned->Err_0@,
        },
{
    match planned {
        Ok(step) => Ok((step, inputs.operands)),
        Err(error) => Err(plan_refusal(PlanSite::KvStep, error.as_str())),
    }
}

/// The words of byte strings from one on, or the first that is ragged.
pub open spec fn all_words_from(
    payloads: Seq<Seq<u8>>,
    labels: Seq<Seq<char>>,
    index: int,
    read: Seq<Seq<u32>>,
) -> Result<Seq<Seq<u32>>, Seq<char>>
    decreases payloads.len() - index,
{
    if index >= payloads.len() {
        Ok(read)
    } else {
        match words_outcome(payloads[index], labels[index]) {
            Err(message) => Err(message),
            Ok(words) => all_words_from(payloads, labels, index + 1, read.push(words)),
        }
    }
}

/// Word vectors as word sequences.
pub open spec fn word_contents(vectors: Seq<Vec<u32>>) -> Seq<Seq<u32>> {
    vectors.map_values(|vector: Vec<u32>| vector@)
}

/// The words of byte strings, each with its label.
pub fn all_words(payloads: &Vec<Vec<u8>>, labels: &Vec<&'static str>) -> (words: Result<
    Vec<Vec<u32>>,
    String,
>)
    requires
        labels.len() >= payloads.len(),
    ensures
        (match words {
            Ok(found) => Ok(word_contents(found@)),
            Err(message) => Err(message@),
        }) == all_words_from(
            crate::weight_pack::contents(payloads@),
            crate::text::names(labels@),
            0,
            Seq::empty(),
        ),
{
    let ghost bytes = crate::weight_pack::contents(payloads@);
    let ghost names = crate::text::names(labels@);
    let mut words: Vec<Vec<u32>> = Vec::new();
    let mut index: usize = 0;
    assert(word_contents(words@) =~= Seq::<Seq<u32>>::empty());
    while index < payloads.len()
        invariant
            index <= payloads.len(),
            labels.len() >= payloads.len(),
            bytes == crate::weight_pack::contents(payloads@),
            names == crate::text::names(labels@),
            all_words_from(bytes, names, 0, Seq::empty()) == all_words_from(
                bytes,
                names,
                index as int,
                word_contents(words@),
            ),
        decreases payloads.len() - index,
    {
        assert(bytes[index as int] == payloads@[index as int]@);
        assert(names[index as int] == labels@[index as int]@);
        let found: Vec<u32> = bytes_to_words(payloads[index].as_slice(), labels[index])?;
        let ghost before = words@;
        words.push(found);
        assert(word_contents(words@) =~= word_contents(before).push(found@));
        index += 1;
    }
    Ok(words)
}

/// The labels of the shards of a pack, in order.
pub open spec fn shard_labels() -> Seq<Seq<char>> {
    seq![
        "weights.input_layernorm"@,
        "weights.q_proj"@,
        "weights.k_proj"@,
        "weights.v_proj"@,
        "weights.o_proj"@,
        "weights.mrope_cos"@,
        "weights.mrope_sin"@,
        "weights.post_attention_layernorm"@,
        "weights.gate_proj"@,
        "weights.up_proj"@,
        "weights.down_proj"@,
        "weights.final_layernorm"@,
        "weights.lm_head"@,
    ]
}

/// The words of the shards of an admitted pack, for planners that read weights.
pub fn pack_words(shards: &Vec<Vec<u8>>) -> (words: Result<Vec<Vec<u32>>, String>)
    requires
        shards.len() <= 13,
    ensures
        (match words {
            Ok(found) => Ok(word_contents(found@)),
            Err(message) => Err(message@),
        }) == all_words_from(
            crate::weight_pack::contents(shards@),
            shard_labels(),
            0,
            Seq::empty(),
        ),
{
    let labels: Vec<&'static str> = vec![
        "weights.input_layernorm",
        "weights.q_proj",
        "weights.k_proj",
        "weights.v_proj",
        "weights.o_proj",
        "weights.mrope_cos",
        "weights.mrope_sin",
        "weights.post_attention_layernorm",
        "weights.gate_proj",
        "weights.up_proj",
        "weights.down_proj",
        "weights.final_layernorm",
        "weights.lm_head",
    ];
    assert(crate::text::names(labels@) =~= shard_labels());
    all_words(shards, &labels)
}

/// What a layer session is begun with: its descriptor, its weights, the bytes of its caches,
/// and the words that the planner reads in the caches.
pub struct LayerBeginInputs {
    pub descriptor: LayerDescriptor,
    pub pack: WeightPack,
    pub key_cache_bytes: Vec<u8>,
    pub value_cache_bytes: Vec<u8>,
    pub key_words: Vec<u32>,
    pub value_words: Vec<u32>,
    pub shard_words: Vec<Vec<u32>>,
}

/// What a layer session is begun with, as plain data.
pub struct LayerBeginModel {
    pub descriptor: LayerDescriptor,
    pub pack: crate::weight_pack::PackModel,
    pub key_cache: Seq<u8>,
    pub value_cache: Seq<u8>,
    pub key_words: Seq<u32>,
    pub value_words: Seq<u32>,
    pub shard_words: Seq<Seq<u32>>,
}

/// The caches of a layer session whose weights are admitted, or why they are refused.
pub open spec fn layer_caches_outcome(
    descriptor: LayerDescriptor,
    pack: crate::weight_pack::PackModel,
    key_cache: Option<Seq<u8>>,
    value_cache: Option<Seq<u8>>,
) -> Result<LayerBeginModel, Seq<char>> {
    match operand_outcome(Family::Layer, key_cache) {
        Err(message) => Err(message),
        Ok(key_cache) => match operand_outcome(Family::Layer, value_cache) {
            Err(message) => Err(message),
            Ok(value_cache) => match words_outcome(key_cache, "initial K cache"@) {
                Err(message) => Err(message),
                Ok(key_words) => match words_outcome(value_cache, "initial V cache"@) {
                    Err(message) => Err(message),
                    Ok(value_words) => match all_words_from(
                        pack.shards,
                        shard_labels(),
                        0,
                        Seq::empty(),
                    ) {
                        Err(message) => Err(message),
                        Ok(shard_words) => Ok(
                            LayerBeginModel {
                                descriptor,
                                pack,
                                key_cache,
                                value_cache,
                                key_words,
                                value_words,
                                shard_words,
                            },
                        ),
                    },
                },
            },
        },
    }
}

/// The inputs of a layer session, or why they are refused.
pub open spec fn layer_begin_outcome(
    stored_poisoned: bool,
    busy: bool,
    descriptor: Result<LayerDescriptor, Seq<char>>,
    pins: DecoderPins,
    pack: Option<Seq<u8>>,
    key_cache: Option<Seq<u8>>,
    value_cache: Option<Seq<u8>>,
) -> Result<LayerBeginModel, Seq<char>> {
    match crate::failure::admission_complaint(Family::Layer, stored_poisoned, busy) {
        Some(message) => Err(message),
        None => match descriptor {
            Err(message) => Err(message),
            Ok(descriptor) => match pack_operand_outcome(Family::Layer, pack) {
                Err(message) => Err(message),
                Ok(pack_bytes) => match crate::weight_pack::pack_outcome(
                    Family::Layer,
                    pins,
                    pack_bytes,
                    crate::pack_descriptor::DescriptorRequest {
                        prefix_tokens: descriptor.prefix_tokens,
                        cache_capacity: descriptor.cache_capacity,
                        prefill_capable: false,
                    },
                ) {
                    Err(message) => Err(message),
                    Ok(pack) => layer_caches_outcome(descriptor, pack, key_cache, value_cache),
                },
            },
        },
    }
}

/// The inputs of a layer session as plain data.
pub open spec fn layer_begin_model(inputs: LayerBeginInputs) -> LayerBeginModel {
    LayerBeginModel {
        descriptor: inputs.descriptor,
        pack: crate::weight_pack::pack_model(inputs.pack),
        key_cache: inputs.key_cache_bytes@,
        value_cache: inputs.value_cache_bytes@,
        key_words: inputs.key_words@,
        value_words: inputs.value_words@,
        shard_words: word_contents(inputs.shard_words@),
    }
}

fn layer_caches(
    descriptor: LayerDescriptor,
    pack: WeightPack,
    key_cache: Option<Vec<u8>>,
    value_cache: Option<Vec<u8>>,
) -> (inputs: Result<LayerBeginInputs, String>)
    requires
        pack.shards.len() == 7,
    ensures
        (match inputs {
            Ok(found) => Ok(layer_begin_model(found)),
            Err(message) => Err(message@),
        }) == layer_caches_outcome(
            descriptor,
            crate::weight_pack::pack_model(pack),
            option_bytes(key_cache),
            option_bytes(value_cache),
        ),
        inputs matches Ok(found) ==> found.key_words@ == crate::words::words32(
            found.key_cache_bytes@,
        ) && found.value_words@ == crate::words::words32(found.value_cache_bytes@)
            && found.pack.shards.len() == 7,
{
    let key_cache_bytes: Vec<u8> = operand_to_bytes(Family::Layer, key_cache)?;
    let value_cache_bytes: Vec<u8> = operand_to_bytes(Family::Layer, value_cache)?;
    let key_words: Vec<u32> = bytes_to_words(key_cache_bytes.as_slice(), "initial K cache")?;
    let value_words: Vec<u32> = bytes_to_words(value_cache_bytes.as_slice(), "initial V cache")?;
    let shard_words: Vec<Vec<u32>> = pack_words(&pack.shards)?;
    Ok(
        LayerBeginInputs {
            descriptor,
            pack,
            key_cache_bytes,
            value_cache_bytes,
            key_words,
            value_words,
            shard_words,
        },
    )
}

/// Admits the inputs of a layer session.
pub fn prepare_layer_begin(
    stored_poisoned: bool,
    busy: bool,
    pins: &DecoderPins,
    descriptor_json: &str,
    pack: Option<Vec<u8>>,
    key_cache: Option<Vec<u8>>,
    value_cache: Option<Vec<u8>>,
) -> (inputs: Result<LayerBeginInputs, String>)
    ensures
        (match inputs {
            Ok(found) => Ok(layer_begin_model(found)),
            Err(message) => Err(message@),
        }) == layer_begin_outcome(
            stored_poisoned,
            busy,
            crate::descriptor::layer_outcome(crate::json::parsed_json(descriptor_json@), *pins),
            *pins,
            option_bytes(pack),
            option_bytes(key_cache),
            option_bytes(value_cache),
        ),
        inputs matches Ok(found) ==> found.key_words@ == crate::words::words32(
            found.key_cache_bytes@,
        ) && found.value_words@ == crate::words::words32(found.value_cache_bytes@)
            && found.pack.shards.len() == 7,
{
    check_admission(Family::Layer, stored_poisoned, busy)?;
    let descriptor: LayerDescriptor = parse_layer_descriptor_json(descriptor_json, pins)?;
    let pack_bytes: Vec<u8> = pack_to_bytes(Family::Layer, pack)?;
    let pack: WeightPack = parse_layer_weight_pack(
        pins,
        pack_bytes.as_slice(),
        descriptor.prefix_tokens,
        descriptor.cache_capacity,
    )?;
    layer_caches(descriptor, pack, key_cache, value_cache)
}

/// The hidden row of a step, or why it is refused.
pub open spec fn hidden_row_outcome(family: Family, hidden_row: Option<Seq<u8>>) -> Result<
    Seq<u8>,
    Seq<char>,
> {
    match operand_outcome(family, hidden_row) {
        Err(message) => Err(message),
        Ok(bytes) => match words_outcome(bytes, "step hidden row"@) {
            Err(message) => Err(message),
            Ok(_) => Ok(bytes),
        },
    }
}

/// Admits the hidden row of a step of a layer or a stack session: its bytes, and the words
/// that the planner reads in them.
pub fn prepare_hidden_row(family: Family, hidden_row: Option<Vec<u8>>) -> (row: Result<
    (Vec<u8>, Vec<u32>),
    String,
>)
    ensures
        (match row {
            Ok(found) => Ok(found.0@),
            Err(message) => Err(message@),
        }) == hidden_row_outcome(family, option_bytes(hidden_row)),
        row matches Ok(found) ==> found.1@ == crate::words::words32(found.0@),
{
    let bytes: Vec<u8> = operand_to_bytes(family, hidden_row)?;
    let words: Vec<u32> = bytes_to_words(bytes.as_slice(), "step hidden row")?;
    Ok((bytes, words))
}

} // verus!
