//! The three session families and the pinned decoder they serve.

use vstd::prelude::*;

verus! {

/// A family of decoder sessions.
#[derive(Clone, Copy, Debug, PartialEq, Eq, Structural)]
pub enum Family {
    /// The key/value cache session.
    Kv,
    /// The attention-block session of one layer.
    Layer,
    /// The session of the whole decoder stack.
    Stack,
}

/// How messages name a family.
pub open spec fn noun(family: Family) -> Seq<char> {
    match family {
        Family::Kv => "decoder KV"@,
        Family::Layer => "decoder layer"@,
        Family::Stack => "decoder stack"@,
    }
}

/// How messages name a family.
pub fn family_noun(family: Family) -> (name: &'static str)
    ensures
        name@ == noun(family),
{
    match family {
        Family::Kv => "decoder KV",
        Family::Layer => "decoder layer",
        Family::Stack => "decoder stack",
    }
}

/// The model geometry that sessions are pinned to.
#[derive(Clone, Copy, Debug)]
pub struct DecoderPins {
    pub layers: u32,
    pub hidden_size: u32,
    pub intermediate_size: u32,
    pub query_heads: u32,
    pub key_value_heads: u32,
    pub head_dim: u32,
    pub mrope_sections: [u32; 3],
    /// The single-precision bits of the RMS-norm epsilon.
    pub rms_norm_epsilon: u32,
}

/// The width of the query projection.
pub const PINNED_QUERY_WIDTH: u32 = 2048;

/// The width of the key and value projections.
pub const PINNED_KEY_VALUE_WIDTH: u32 = 256;

/// The number of tokens in the vocabulary.
pub const PINNED_VOCAB_SIZE: u32 = 103424;

/// How the weights of a checkpoint are stored.
#[derive(Clone, Copy, Debug, PartialEq, Eq, Structural)]
pub enum WeightStorage {
    /// Single precision.
    F32,
    /// Half precision.
    F16,
}

/// The bytes of one stored weight.
pub open spec fn element_bytes(storage: WeightStorage) -> u64 {
    match storage {
        WeightStorage::F32 => 4,
        WeightStorage::F16 => 2,
    }
}

/// The bytes of a number of stored weights, if they can be counted.
pub open spec fn stored_bytes(storage: WeightStorage, elements: int) -> Option<u64> {
    if elements * element_bytes(storage) <= u64::MAX {
        Some((elements * element_bytes(storage)) as u64)
    } else {
        None
    }
}

impl WeightStorage {
    /// The bytes of one stored weight.
    pub fn bytes_per_element(self) -> (bytes: u64)
        ensures
            bytes == element_bytes(self),
    {
        match self {
            WeightStorage::F32 => 4,
            WeightStorage::F16 => 2,
        }
    }

    /// The bytes of a number of stored weights.
    pub fn storage_bytes(self, elements: u64) -> (bytes: Option<u64>)
        ensures
            bytes == stored_bytes(self, elements as int),
    {
        elements.checked_mul(self.bytes_per_element())
    }

    /// Where the weight at a byte offset into single-precision weights is stored.
    pub fn from_f32_byte_offset(self, offset: u64) -> (stored: Option<u64>)
        ensures
            stored == (if offset % 4 == 0 {
                Some((offset / 4 * element_bytes(self)) as u64)
            } else {
                None
            }),
    {
        if offset % 4 == 0 {
            Some(offset / 4 * self.bytes_per_element())
        } else {
            None
        }
    }

    /// Whether shaders that read these weights need the `shader-f16` feature.
    pub fn requires_shader_f16(self) -> (required: bool)
        ensures
            required == (self == WeightStorage::F16),
    {
        match self {
            WeightStorage::F32 => false,
            WeightStorage::F16 => true,
        }
    }
}

} // verus!
