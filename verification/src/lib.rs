//! Decoder session logic for a WebGPU inference engine.

#![allow(unused_imports)]

use vstd::prelude::*;

pub mod json;
pub mod admission_laws;
pub mod binding_laws;
pub mod capability_laws;
pub mod dataflow;
pub mod descriptor;
pub mod device_laws;
pub mod diagnostics;
pub mod digest;
pub mod failure;
pub mod family;
pub mod geometry;
pub mod gpu;
pub mod ieee;
pub mod kv;
pub mod kv_flow;
pub mod kv_report;
pub mod layer;
pub mod layer_flow;
pub mod layer_report;
pub mod lifecycle;
pub mod lifecycle_flow;
pub mod lifecycle_laws;
pub mod limits;
pub mod operand_laws;
pub mod operands;
pub mod pack;
pub mod pack_descriptor;
pub mod pack_laws;
pub mod pack_layout;
pub mod pack_manifest;
pub mod prefill_flow;
pub mod probe;
pub mod probe_flow;
pub mod probe_laws;
pub mod probe_parse;
pub mod readback;
pub mod readout_flow;
pub mod report_laws;
pub mod report_names;
pub mod selection;
pub mod sizes;
pub mod source_laws;
pub mod sources;
pub mod stack_begin;
pub mod stack_encode;
pub mod stack_flow;
pub mod stack_laws;
pub mod stack_limits;
pub mod stack_plan;
pub mod stack_report;
pub mod stack_resources;
pub mod stack_sources;
pub mod step_flow;
pub mod text;
pub mod words;
pub mod weight_pack;
