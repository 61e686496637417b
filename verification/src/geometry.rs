//! What the planners of a session are asked to plan for.

use crate::descriptor::{KvDescriptor, LayerDescriptor, StackDescriptor};
use crate::family::DecoderPins;
use crate::stack_begin::planned_prefix_tokens;
use crate::stack_plan::{PrefillPlan, StackPlan};
use vstd::prelude::*;

verus! {

/// The caches that are planned for.
#[derive(Clone, Copy, Debug, PartialEq, Eq, Structural)]
pub struct CacheGeometry {
    pub query_heads: u32,
    pub key_value_heads: u32,
    pub head_dim: u32,
    /// The tokens that the caches hold at first.
    pub prefix_tokens: u32,
    pub cache_capacity: u32,
}

/// The attention block that is planned for.
#[derive(Clone, Copy, Debug, PartialEq, Eq, Structural)]
pub struct AttentionGeometry {
    pub hidden_size: u32,
    pub query_heads: u32,
    pub key_value_heads: u32,
    pub head_dim: u32,
    /// The single-precision bits of the epsilon.
    pub rms_norm_epsilon: u32,
    pub cache_capacity: u32,
}

/// The layers that are planned for.
#[derive(Clone, Copy, Debug, PartialEq, Eq, Structural)]
pub struct StackGeometry {
    pub layers: u32,
    pub hidden_size: u32,
    pub intermediate_size: u32,
    pub query_heads: u32,
    pub key_value_heads: u32,
    pub head_dim: u32,
    /// The single-precision bits of the epsilon.
    pub rms_norm_epsilon: u32,
    pub cache_capacity: u32,
}

/// The caches of a KV session.
pub open spec fn kv_caches(descriptor: KvDescriptor) -> CacheGeometry {
    CacheGeometry {
        query_heads: descriptor.query_heads,
        key_value_heads: descriptor.key_value_heads,
        head_dim: descriptor.head_dim,
        prefix_tokens: descriptor.prefix_tokens,
        cache_capacity: descriptor.cache_capacity,
    }
}

/// The caches of a KV session.
pub fn kv_cache_geometry(descriptor: &KvDescriptor) -> (geometry: CacheGeometry)
    ensures
        geometry == kv_caches(*descriptor),
{
    CacheGeometry {
        query_heads: descriptor.query_heads,
        key_value_heads: descriptor.key_value_heads,
        head_dim: descriptor.head_dim,
        prefix_tokens: descriptor.prefix_tokens,
        cache_capacity: descriptor.cache_capacity,
    }
}

/// The caches of a layer session.
pub open spec fn layer_caches(descriptor: LayerDescriptor) -> CacheGeometry {
    CacheGeometry {
        query_heads: descriptor.query_heads,
        key_value_heads: descriptor.key_value_heads,
        head_dim: descriptor.head_dim,
        prefix_tokens: descriptor.prefix_tokens,
        cache_capacity: descriptor.cache_capacity,
    }
}

/// The caches of a layer session.
pub fn layer_cache_geometry(descriptor: &LayerDescriptor) -> (geometry: CacheGeometry)
    ensures
        geometry == layer_caches(*descriptor),
{
    CacheGeometry {
        query_heads: descriptor.query_heads,
        key_value_heads: descriptor.key_value_heads,
        head_dim: descriptor.head_dim,
        prefix_tokens: descriptor.prefix_tokens,
        cache_capacity: descriptor.cache_capacity,
    }
}

/// The caches of each layer of a stack session.
pub open spec fn stack_caches(descriptor: StackDescriptor) -> CacheGeometry {
    CacheGeometry {
        query_heads: descriptor.query_heads,
        key_value_heads: descriptor.key_value_heads,
        head_dim: descriptor.head_dim,
        prefix_tokens: crate::stack_begin::planned_prefix(descriptor),
        cache_capacity: descriptor.cache_capacity,
    }
}

/// The caches of each layer of a stack session.
pub fn stack_cache_geometry(descriptor: &StackDescriptor) -> (geometry: CacheGeometry)
    ensures
        geometry == stack_caches(*descriptor),
{
    CacheGeometry {
        query_heads: descriptor.query_heads,
        key_value_heads: descriptor.key_value_heads,
        head_dim: descriptor.head_dim,
        prefix_tokens: planned_prefix_tokens(descriptor),
        cache_capacity: descriptor.cache_capacity,
    }
}

/// The attention block of a layer session.
pub open spec fn layer_block(descriptor: LayerDescriptor) -> AttentionGeometry {
    AttentionGeometry {
        hidden_size: descriptor.hidden_size,
        query_heads: descriptor.query_heads,
        key_value_heads: descriptor.key_value_heads,
        head_dim: descriptor.head_dim,
        rms_norm_epsilon: descriptor.rms_norm_epsilon,
        cache_capacity: descriptor.cache_capacity,
    }
}

/// The attention block of a layer session.
pub fn layer_geometry(descriptor: &LayerDescriptor) -> (geometry: AttentionGeometry)
    ensures
        geometry == layer_block(*descriptor),
{
    AttentionGeometry {
        hidden_size: descriptor.hidden_size,
        query_heads: descriptor.query_heads,
        key_value_heads: descriptor.key_value_heads,
        head_dim: descriptor.head_dim,
        rms_norm_epsilon: descriptor.rms_norm_epsilon,
        cache_capacity: descriptor.cache_capacity,
    }
}

/// The layers of a stack session.
pub open spec fn stack_layers(pins: DecoderPins, descriptor: StackDescriptor) -> StackGeometry {
    StackGeometry {
        layers: pins.layers,
        hidden_size: descriptor.hidden_size,
        intermediate_size: descriptor.intermediate_size,
        query_heads: descriptor.query_heads,
        key_value_heads: descriptor.key_value_heads,
        head_dim: descriptor.head_dim,
        rms_norm_epsilon: descriptor.rms_norm_epsilon,
        cache_capacity: descriptor.cache_capacity,
    }
}

/// The layers of a stack session.
pub fn stack_geometry(pins: &DecoderPins, descriptor: &StackDescriptor) -> (geometry: StackGeometry)
    ensures
        geometry == stack_layers(*pins, *descriptor),
{
    StackGeometry {
        layers: pins.layers,
        hidden_size: descriptor.hidden_size,
        intermediate_size: descriptor.intermediate_size,
        query_heads: descriptor.query_heads,
        key_value_heads: descriptor.key_value_heads,
        head_dim: descriptor.head_dim,
        rms_norm_epsilon: descriptor.rms_norm_epsilon,
        cache_capacity: descriptor.cache_capacity,
    }
}

/// The layers of a stack session that is about to prefill its caches, by its plans.
pub open spec fn prefill_layers(stack: StackPlan, prefill: PrefillPlan) -> StackGeometry {
    StackGeometry {
        layers: stack.layers,
        hidden_size: stack.attention.hidden_size,
        intermediate_size: stack.intermediate_size,
        query_heads: stack.attention.query_heads,
        key_value_heads: stack.attention.key_value_heads,
        head_dim: stack.attention.head_dim,
        rms_norm_epsilon: stack.attention.rms_norm_epsilon,
        cache_capacity: prefill.cache_capacity,
    }
}

/// The layers of a stack session that is about to prefill its caches, by its plans.
pub fn prefill_geometry(stack: &StackPlan, prefill: &PrefillPlan) -> (geometry: StackGeometry)
    ensures
        geometry == prefill_layers(*stack, *prefill),
{
    StackGeometry {
        layers: stack.layers,
        hidden_size: stack.attention.hidden_size,
        intermediate_size: stack.intermediate_size,
        query_heads: stack.attention.query_heads,
        key_value_heads: stack.attention.key_value_heads,
        head_dim: stack.attention.head_dim,
        rms_norm_epsilon: stack.attention.rms_norm_epsilon,
        cache_capacity: prefill.cache_capacity,
    }
}

} // verus!
