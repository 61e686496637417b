//! The stack session: what its planners decided, and the byte sizes that follow.

use crate::digest::blake3_hex;
use crate::family::WeightStorage;
use crate::kv::KvPlan;
use crate::layer::AttentionPlan;
use crate::sizes::checked_u64_bytes;
use crate::text::{join2, same};
use vstd::prelude::*;

verus! {

/// What the planner decided about the layers of a stack.
#[derive(Clone, Copy, Debug)]
pub struct StackPlan {
    pub layers: u32,
    pub attention: AttentionPlan,
    pub intermediate_size: u32,
    /// The bytes of one hidden row.
    pub hidden_stride_bytes: u64,
    /// The bytes of the cache of one layer.
    pub cache_stride_bytes: u64,
    /// The single-precision bytes of the weights of one layer.
    pub weight_stride_bytes: [u64; 9],
    pub norm2_dispatch: [u32; 3],
    pub gate_dispatch: [u32; 3],
    pub up_dispatch: [u32; 3],
    pub swiglu_dispatch: [u32; 3],
    pub down_dispatch: [u32; 3],
    pub second_residual_dispatch: [u32; 3],
}

/// What the planner decided about one step of a stack.
#[derive(Clone, Copy, Debug)]
pub struct StackStepPlan {
    /// The uniform words of the stages that do not move the cache, in order.
    pub stage_words: [[u32; 4]; 13],
}

/// What the planner decided about a prefill.
#[derive(Clone, Copy, Debug)]
pub struct PrefillPlan {
    pub tokens: u32,
    pub layers: u32,
    pub cache_capacity: u32,
    pub hidden_stride_bytes: u64,
    pub cache_stride_bytes: u64,
    pub stage_words: [[u32; 4]; 15],
    pub stage_dispatches: [[u32; 3]; 15],
}

/// What the planner decided about the readout of logits.
#[derive(Clone, Copy, Debug)]
pub struct LmHeadPlan {
    pub normed_row_bytes: u64,
    pub logits_bytes: u64,
    /// The single-precision bytes of the final norm.
    pub final_norm_weight_bytes: u64,
    /// The single-precision bytes of the LM head.
    pub lm_head_weight_bytes: u64,
    /// The uniform words of the norm and of the projection.
    pub stage_words: [[u32; 4]; 2],
    /// The dispatches of the norm and of the projection.
    pub stage_dispatches: [[u32; 3]; 2],
}

/// What the planner decided about where the weights lie.
#[derive(Debug)]
pub struct WeightResourcePlan {
    pub storage: WeightStorage,
    pub rope_table_bytes: u64,
    /// The bytes of the weights of one layer.
    pub layer_weight_stride_bytes: [u64; 9],
    /// The bytes of the weights of all layers.
    pub layer_weight_bulk_bytes: [u64; 9],
    /// Where the weights of each layer start.
    pub layer_weight_offsets: Vec<[u64; 9]>,
    pub final_norm_weight_bytes: Option<u64>,
    pub lm_head_weight_bytes: Option<u64>,
    /// Where the final norm starts, and its bytes.
    pub final_norm_weight_range: Option<(u64, u64)>,
    /// Where the LM head starts, and its bytes.
    pub lm_head_weight_range: Option<(u64, u64)>,
}

/// Everything that was planned for a stack session.
#[derive(Debug)]
pub struct StackPlans {
    pub kv: KvPlan,
    pub stack: StackPlan,
    pub resources: WeightResourcePlan,
    pub prefill: PrefillPlan,
    pub lm_head: Option<LmHeadPlan>,
    pub prefill_capable: bool,
}

pub const PREFILL_HIDDEN_WIDTH: u64 = 1024;

pub const PREFILL_QUERY_WIDTH: u64 = 2048;

pub const PREFILL_KEY_VALUE_WIDTH: u64 = 256;

pub const PREFILL_INTERMEDIATE_WIDTH: u64 = 3072;

pub const PREFILL_ZERO_BIAS_BYTES: u64 = 12288;

/// The bytes of one hidden row of the pinned decoder.
pub const PREFILL_ROW_BYTES: u64 = 4096;

/// The bytes of a selected token and its score.
pub const TOP1_RESULT_BYTES: u64 = 8;

/// The byte sizes of the buffers of a stack session.
#[derive(Clone, Copy, Debug)]
pub struct StackSizes {
    pub hidden: u64,
    pub pingpong: u64,
    pub query: u64,
    pub key_value: u64,
    pub intermediate: u64,
    pub cache: u64,
    pub prefill_hidden: u64,
    pub prefill_query: u64,
    pub prefill_key_value: u64,
    pub prefill_intermediate: u64,
}

/// The bytes of one stage of a prefill that fills the cache.
pub open spec fn prefill_stage_bytes(cache_capacity: u32, width: u64) -> u64 {
    (cache_capacity * width * 4) as u64
}

/// The byte sizes of the buffers of a session, or the first that cannot be counted. The
/// stages of a prefill can always be counted.
pub open spec fn stack_sizes_outcome(kv: KvPlan, stack: StackPlan) -> Result<
    StackSizes,
    Seq<char>,
> {
    if stack.hidden_stride_bytes * 2 > u64::MAX {
        Err("decoder stack hidden ping-pong byte size overflowed"@)
    } else {
        match crate::sizes::byte_size(stack.attention.query_width as int, "decoder query row"@) {
            Err(message) => Err(message),
            Ok(query) => match crate::sizes::byte_size(
                stack.attention.key_value_width as int,
                "decoder key/value row"@,
            ) {
                Err(message) => Err(message),
                Ok(key_value) => match crate::sizes::byte_size(
                    stack.intermediate_size as int,
                    "decoder intermediate row"@,
                ) {
                    Err(message) => Err(message),
                    Ok(intermediate) => if stack.layers * stack.cache_stride_bytes > u64::MAX {
                        Err("decoder stack compact cache byte size overflowed"@)
                    } else {
                        Ok(
                            StackSizes {
                                hidden: stack.hidden_stride_bytes,
                                pingpong: (stack.hidden_stride_bytes * 2) as u64,
                                query,
                                key_value,
                                intermediate,
                                cache: (stack.layers * stack.cache_stride_bytes) as u64,
                                prefill_hidden: prefill_stage_bytes(
                                    kv.cache_capacity,
                                    PREFILL_HIDDEN_WIDTH,
                                ),
                                prefill_query: prefill_stage_bytes(
                                    kv.cache_capacity,
                                    PREFILL_QUERY_WIDTH,
                                ),
                                prefill_key_value: prefill_stage_bytes(
                                    kv.cache_capacity,
                                    PREFILL_KEY_VALUE_WIDTH,
                                ),
                                prefill_intermediate: prefill_stage_bytes(
                                    kv.cache_capacity,
                                    PREFILL_INTERMEDIATE_WIDTH,
                                ),
                            },
                        )
                    },
                },
            },
        }
    }
}

/// The bytes of the caches of all layers.
pub fn compact_cache_bytes(stack: &StackPlan) -> (bytes: Result<u64, String>)
    ensures
        crate::text::said(bytes) == (if stack.layers * stack.cache_stride_bytes <= u64::MAX {
            Ok::<u64, Seq<char>>((stack.layers * stack.cache_stride_bytes) as u64)
        } else {
            Err("decoder stack compact cache byte size overflowed"@)
        }),
{
    match (stack.layers as u64).checked_mul(stack.cache_stride_bytes) {
        Some(bytes) => Ok(bytes),
        None => Err("decoder stack compact cache byte size overflowed".to_owned()),
    }
}

/// The bytes of one stage of a prefill that fills the cache.
pub fn stage_bytes(cache_capacity: u32, width: u64) -> (bytes: u64)
    requires
        cache_capacity * width * 4 <= u64::MAX,
    ensures
        bytes == prefill_stage_bytes(cache_capacity, width),
        bytes == cache_capacity * width * 4,
{
    cache_capacity as u64 * width * 4
}

/// The byte sizes of the buffers of a session.
pub fn stack_sizes(kv: &KvPlan, stack: &StackPlan) -> (sizes: Result<StackSizes, String>)
    ensures
        crate::text::said(sizes) == stack_sizes_outcome(*kv, *stack),
{
    let pingpong: u64 = match stack.hidden_stride_bytes.checked_mul(2) {
        Some(bytes) => bytes,
        None => {
            return Err("decoder stack hidden ping-pong byte size overflowed".to_owned());
        },
    };
    let query: u64 = checked_u64_bytes(stack.attention.query_width, "decoder query row")?;
    let key_value: u64 = checked_u64_bytes(
        stack.attention.key_value_width,
        "decoder key/value row",
    )?;
    let intermediate: u64 = checked_u64_bytes(
        stack.intermediate_size as usize,
        "decoder intermediate row",
    )?;
    let cache: u64 = compact_cache_bytes(stack)?;
    Ok(
        StackSizes {
            hidden: stack.hidden_stride_bytes,
            pingpong,
            query,
            key_value,
            intermediate,
            cache,
            prefill_hidden: stage_bytes(kv.cache_capacity, PREFILL_HIDDEN_WIDTH),
            prefill_query: stage_bytes(kv.cache_capacity, PREFILL_QUERY_WIDTH),
            prefill_key_value: stage_bytes(kv.cache_capacity, PREFILL_KEY_VALUE_WIDTH),
            prefill_intermediate: stage_bytes(kv.cache_capacity, PREFILL_INTERMEDIATE_WIDTH),
        },
    )
}

/// The sum of numbers from one on.
pub open spec fn sum_from(values: Seq<u64>, index: int) -> int
    decreases values.len() - index,
{
    if index >= values.len() || index < 0 {
        0
    } else {
        values[index] + sum_from(values, index + 1)
    }
}

/// The bytes of all weights that can stay on the device between sessions.
pub open spec fn resident_total(resources: WeightResourcePlan) -> int {
    sum_from(resources.layer_weight_bulk_bytes@, 0) + optional_bytes(
        resources.final_norm_weight_bytes,
    ) + optional_bytes(resources.lm_head_weight_bytes)
}

/// A number of bytes that is zero where there is none.
pub open spec fn optional_bytes(bytes: Option<u64>) -> u64 {
    match bytes {
        Some(count) => count,
        None => 0,
    }
}

/// A sum of byte sizes is not negative.
pub proof fn lemma_sum_is_natural(values: Seq<u64>, index: int)
    ensures
        sum_from(values, index) >= 0,
    decreases values.len() - index,
{
    if 0 <= index < values.len() {
        lemma_sum_is_natural(values, index + 1);
    }
}

fn or_zero(bytes: Option<u64>) -> (count: u64)
    ensures
        count == optional_bytes(bytes),
{
    match bytes {
        Some(count) => count,
        None => 0,
    }
}

fn count_resident_bytes(resources: &WeightResourcePlan) -> (bytes: Option<u64>)
    ensures
        bytes == (if resident_total(*resources) <= u64::MAX {
            Some(resident_total(*resources) as u64)
        } else {
            None::<u64>
        }),
{
    let ghost bulks = resources.layer_weight_bulk_bytes@;
    let mut total: u64 = 0;
    let mut index: usize = 0;
    while index < 9
        invariant
            index <= 9,
            bulks == resources.layer_weight_bulk_bytes@,
            bulks.len() == 9,
            sum_from(bulks, 0) == total + sum_from(bulks, index as int),
        decreases 9 - index,
    {
        proof {
            lemma_sum_is_natural(bulks, index + 1);
        }
        match total.checked_add(resources.layer_weight_bulk_bytes[index]) {
            Some(sum) => {
                total = sum;
            },
            None => {
                return None;
            },
        }
        index += 1;
    }
    match total.checked_add(or_zero(resources.final_norm_weight_bytes)) {
        Some(sum) => sum.checked_add(or_zero(resources.lm_head_weight_bytes)),
        None => None,
    }
}

/// The bytes of all weights that can stay on the device between sessions.
pub fn resident_weight_bytes(resources: &WeightResourcePlan) -> (bytes: Result<u64, String>)
    ensures
        crate::text::said(bytes) == (if resident_total(*resources) <= u64::MAX {
            Ok::<u64, Seq<char>>(resident_total(*resources) as u64)
        } else {
            Err("decoder resident weight byte size overflowed"@)
        }),
        bytes matches Ok(count) ==> count == resident_total(*resources),
{
    proof {
        lemma_sum_is_natural(resources.layer_weight_bulk_bytes@, 0);
    }
    match count_resident_bytes(resources) {
        Some(bytes) => Ok(bytes),
        None => Err("decoder resident weight byte size overflowed".to_owned()),
    }
}

/// The decimal digits of a number.
pub open spec fn decimal(number: int) -> Seq<char>
    decreases number,
{
    if number < 10 {
        seq![decimal_digit(number)]
    } else {
        decimal(number / 10).push(decimal_digit(number % 10))
    }
}

/// The digit of a number below ten.
pub open spec fn decimal_digit(number: int) -> char {
    if number == 0 {
        '0'
    } else if number == 1 {
        '1'
    } else if number == 2 {
        '2'
    } else if number == 3 {
        '3'
    } else if number == 4 {
        '4'
    } else if number == 5 {
        '5'
    } else if number == 6 {
        '6'
    } else if number == 7 {
        '7'
    } else if number == 8 {
        '8'
    } else {
        '9'
    }
}

fn digit_text(number: u64) -> (text: &'static str)
    requires
        number < 10,
    ensures
        text@ == seq![decimal_digit(number as int)],
{
    proof {
        reveal_strlit("0");
        reveal_strlit("1");
        reveal_strlit("2");
        reveal_strlit("3");
        reveal_strlit("4");
        reveal_strlit("5");
        reveal_strlit("6");
        reveal_strlit("7");
        reveal_strlit("8");
        reveal_strlit("9");
    }
    let text: &'static str = match number {
        0 => "0",
        1 => "1",
        2 => "2",
        3 => "3",
        4 => "4",
        5 => "5",
        6 => "6",
        7 => "7",
        8 => "8",
        _ => "9",
    };
    assert(text@ =~= seq![decimal_digit(number as int)]);
    text
}

/// The decimal digits of a number.
pub fn decimal_text(number: u64) -> (text: String)
    ensures
        text@ == decimal(number as int),
    decreases number,
{
    if number < 10 {
        digit_text(number).to_owned()
    } else {
        let head: String = decimal_text(number / 10);
        let text: String = join2(head.as_str(), digit_text(number % 10));
        assert(text@ =~= decimal(number as int));
        text
    }
}

/// The name under which weights stay on the device, if they can be named.
pub open spec fn resident_key(checkpoint: Option<Seq<u8>>, resources: WeightResourcePlan) -> Option<
    Seq<char>,
> {
    match checkpoint {
        None => None,
        Some(digest) => if resident_total(resources) <= u64::MAX {
            Some(
                crate::digest::hex_text(digest) + ":"@ + (match resources.storage {
                    WeightStorage::F32 => "f32"@,
                    WeightStorage::F16 => "f16"@,
                }) + ":"@ + decimal(resident_total(resources)),
            )
        } else {
            None
        },
    }
}

/// The name under which weights stay on the device: their checkpoint, how they are stored, and
/// their bytes.
pub fn resident_weight_key(
    checkpoint_blake3: &Option<[u8; 32]>,
    resources: &WeightResourcePlan,
) -> (key: Option<String>)
    ensures
        crate::sources::option_text(key) == resident_key(
            crate::pack_descriptor::digest_option(*checkpoint_blake3),
            *resources,
        ),
{
    let checkpoint: &[u8; 32] = match checkpoint_blake3 {
        Some(checkpoint) => checkpoint,
        None => {
            return None;
        },
    };
    let bytes: u64 = match count_resident_bytes(resources) {
        Some(bytes) => bytes,
        None => {
            return None;
        },
    };
    let hex: String = blake3_hex(checkpoint);
    let storage: &str = match resources.storage {
        WeightStorage::F32 => "f32",
        WeightStorage::F16 => "f16",
    };
    let digits: String = decimal_text(bytes);
    proof {
        lemma_sum_is_natural(resources.layer_weight_bulk_bytes@, 0);
    }
    Some(crate::text::join5(hex.as_str(), ":", storage, ":", digits.as_str()))
}

/// Whether weights that stay on the device under a name are those of a session.
pub fn resident_weights_match(key: &str, expected: &Option<String>) -> (hit: bool)
    ensures
        hit == (crate::sources::option_text(*expected) == Some(key@)),
{
    match expected {
        Some(name) => same(name.as_str(), key),
        None => false,
    }
}

} // verus!
