use pvlc_decoder_sessions::descriptor::parse_stack_descriptor_json;
use pvlc_decoder_sessions::family::{DecoderPins, Family, WeightStorage};
use pvlc_decoder_sessions::geometry::{prefill_geometry, stack_cache_geometry, stack_geometry};
use pvlc_decoder_sessions::gpu::{BufferPlan, BufferUsage, Command};
use pvlc_decoder_sessions::kv::{KvPlan, KvStepPlan};
use pvlc_decoder_sessions::layer::{AttentionPlan, AttentionVerdicts};
use pvlc_decoder_sessions::lifecycle::Operation;
use pvlc_decoder_sessions::limits::DeviceLimits;
use pvlc_decoder_sessions::operands::{all_words, pack_words};
use pvlc_decoder_sessions::readback::plan_stack_readbacks;
use pvlc_decoder_sessions::stack_begin::{
    admit_resident_begin, admit_stack_caches, admit_stack_weights, assemble_stack_plans,
    cache_prefixes_are_inside, finish_resident_stack_begin, planned_prefill_tokens,
    planned_prefix_tokens, prepare_resident_stack_begin, prepare_stack_begin,
    require_stack_cache_operands, require_weight_storage_device_feature, settle_weight_plans,
    weight_resource_request, AdmittedStack, PlannedStack,
};
use pvlc_decoder_sessions::stack_encode::{
    cache_tokens_after, decode_top1, decoder_weight_pipelines, encode_stack_finish,
    encode_stack_logits, encode_stack_prefill, encode_stack_step, encode_stack_top1,
    prepare_logits_readout, prepare_prefill, upload_stack_operands, words_are_finite,
    StackBeginOperands,
};
use pvlc_decoder_sessions::stack_limits::{validate_stack_capabilities, StackVerdicts};
use pvlc_decoder_sessions::stack_plan::{
    compact_cache_bytes, resident_weight_bytes, resident_weight_key, resident_weights_match,
    stack_sizes, LmHeadPlan, PrefillPlan, StackPlan, StackPlans, StackStepPlan,
    WeightResourcePlan,
};
use pvlc_decoder_sessions::stack_report::{
    count_creation, logits_diagnostics, logits_diagnostics_json, resident_weights,
    resident_weights_json, stack_creation_diagnostics, stack_creation_diagnostics_json,
    stack_finish_diagnostics, stack_finish_diagnostics_json, stack_prefill_diagnostics,
    stack_prefill_diagnostics_json, stack_step_diagnostics, stack_step_diagnostics_json,
    top1_diagnostics, top1_diagnostics_json, CreationFacts,
};
use pvlc_decoder_sessions::stack_resources::{
    bind_group_place, create_stack_session, ensure_top1_resources, stack_layout, BindingKind,
    ResidentWeights, GROUP_GEMV_LOGITS, GROUP_PREFILL_LOGITS_RMS, GROUP_PREFILL_RMS1,
    GROUP_RMS, GROUP_STEP_LOGITS_RMS, GROUP_TOP1, LAYOUT_APPEND, LAYOUT_TOP1,
    PIPELINE_GEMV_TILED_F16, PIPELINE_PROJECTION, PIPELINE_TOP1, STACK_FINISH_KEY_READBACK, STACK_HIDDEN_PINGPONG,
    STACK_KEY_CACHE, STACK_LM_HEAD, STACK_LOGITS, STACK_LOGITS_GEMV_UNIFORM,
    STACK_LOGITS_READBACK, STACK_PREFILL_HIDDEN_STORAGE, STACK_PREFILL_ZERO_BIAS,
    STACK_Q_WEIGHT, STACK_ROPE_COS, STACK_STACK_READBACK, STACK_TOP1_READBACK,
    STACK_TOP1_RESULT, STACK_VALUE_CACHE,
};
use pvlc_decoder_sessions::stack_sources::{
    canonical_stack_sources, override_stack_source, prefill_shader_digests, require_stack_override,
    stack_shader_digests, stack_sources_json, StackShaderModules, StackShaderSources,
};
use pvlc_decoder_sessions::weight_pack::WeightPack;

fn pins() -> DecoderPins {
    DecoderPins {
        layers: 2,
        hidden_size: 2,
        intermediate_size: 3,
        query_heads: 16,
        key_value_heads: 2,
        head_dim: 4,
        mrope_sections: [16, 24, 24],
        rms_norm_epsilon: 1e-5_f32.to_bits(),
    }
}

fn kv_plan() -> KvPlan {
    KvPlan {
        query_heads: 16,
        key_value_heads: 2,
        head_dim: 128,
        initial_cache_tokens: 3,
        cache_capacity: 10,
        key_value_width: 256,
        attention_bytes: 8192,
        cache_bytes: 10240,
        split_partials_bytes: 4096,
        append_dispatch: [1, 1, 1],
        attention_dispatch: [2, 1, 1],
    }
}

fn stack_plan() -> StackPlan {
    StackPlan {
        layers: 2,
        attention: AttentionPlan {
            hidden_size: 1024,
            query_heads: 16,
            key_value_heads: 2,
            head_dim: 128,
            rms_norm_epsilon: 1e-5_f32.to_bits(),
            query_width: 2048,
            key_value_width: 256,
            rope_elements: 3840,
            rms_norm_dispatch: [1, 1, 1],
            query_dispatch: [2, 1, 1],
            key_dispatch: [3, 1, 1],
            value_dispatch: [4, 1, 1],
            mrope_dispatch: [5, 1, 1],
            output_dispatch: [6, 1, 1],
            residual_dispatch: [7, 1, 1],
        },
        intermediate_size: 3072,
        hidden_stride_bytes: 4096,
        cache_stride_bytes: 10240,
        weight_stride_bytes: [256; 9],
        norm2_dispatch: [8, 1, 1],
        gate_dispatch: [9, 1, 1],
        up_dispatch: [10, 1, 1],
        swiglu_dispatch: [11, 1, 1],
        down_dispatch: [12, 1, 1],
        second_residual_dispatch: [13, 1, 1],
    }
}

fn resources(storage: WeightStorage) -> WeightResourcePlan {
    WeightResourcePlan {
        storage,
        rope_table_bytes: 480,
        layer_weight_stride_bytes: [256; 9],
        layer_weight_bulk_bytes: [512; 9],
        layer_weight_offsets: vec![[0; 9], [256; 9]],
        final_norm_weight_bytes: Some(64),
        lm_head_weight_bytes: Some(128),
        final_norm_weight_range: Some((0, 64)),
        lm_head_weight_range: Some((0, 128)),
    }
}

fn prefill_plan() -> PrefillPlan {
    PrefillPlan {
        tokens: 4,
        layers: 2,
        cache_capacity: 10,
        hidden_stride_bytes: 4096,
        cache_stride_bytes: 10240,
        stage_words: [[7; 4]; 15],
        stage_dispatches: [[3, 1, 1]; 15],
    }
}

fn lm_head() -> LmHeadPlan {
    LmHeadPlan {
        normed_row_bytes: 4096,
        logits_bytes: 413696,
        final_norm_weight_bytes: 64,
        lm_head_weight_bytes: 128,
        stage_words: [[1, 2, 3, 4], [5, 6, 7, 8]],
        stage_dispatches: [[1, 1, 1], [99, 1, 1]],
    }
}

fn plans(prefill_capable: bool, logits_capable: bool) -> StackPlans {
    StackPlans {
        kv: kv_plan(),
        stack: stack_plan(),
        resources: resources(WeightStorage::F32),
        prefill: prefill_plan(),
        lm_head: if logits_capable { Some(lm_head()) } else { None },
        prefill_capable,
    }
}

fn planned(logits_capable: bool) -> PlannedStack {
    let plans = plans(true, logits_capable);
    PlannedStack {
        kv: plans.kv,
        stack: plans.stack,
        resources: plans.resources,
        prefill: plans.prefill,
        lm_head: plans.lm_head,
    }
}

fn transition() -> KvStepPlan {
    KvStepPlan {
        cache_tokens_before: 3,
        cache_tokens_after: 4,
        append_words: [1, 2, 3, 4],
        attention_words: [5, 6, 7, 8],
        append_dispatch: [9, 1, 1],
        attention_dispatch: [9, 1, 1],
        split_words: [[21; 4], [22; 4]],
        split_partial_dispatch: [31, 1, 1],
        split_merge_dispatch: [32, 1, 1],
    }
}

fn limits() -> DeviceLimits {
    DeviceLimits {
        max_storage_buffers_per_shader_stage: 8,
        max_storage_buffer_binding_size: 1 << 27,
        max_buffer_size: 1 << 28,
        min_storage_buffer_offset_alignment: 256,
        max_compute_workgroups_per_dimension: 65535,
    }
}

fn modules() -> StackShaderModules {
    let text = |name: &str| Some(name.to_string());
    StackShaderModules {
        rms_norm: text("rms_norm"),
        gemv: text("gemv"),
        gemv_tiled: text("gemv_tiled"),
        rms_norm_f16_weights: text("rms_norm_f16"),
        gemv_tiled_f16_weights: text("gemv_tiled_f16"),
        linear_projection_f16_weights: text("linear_f16"),
        mrope: text("mrope"),
        append: text("append"),
        attention: text("attention"),
        swiglu: text("swiglu"),
        residual: text("residual"),
        projection: text("projection"),
        prefill_mrope: text("prefill_mrope"),
        kv_append_range: text("kv_append_range"),
        prefill_gqa: text("prefill_gqa"),
        split_partial: text("split_partial"),
        split_merge: text("split_merge"),
    }
}

fn sources() -> StackShaderSources {
    canonical_stack_sources(modules()).ok().unwrap()
}

const DESCRIPTOR: &str = "{\"schema_version\":1,\"layers\":2,\"hidden_size\":2,\
    \"intermediate_size\":3,\"query_heads\":16,\"key_value_heads\":2,\"head_dim\":4,\
    \"query_width\":2048,\"key_value_width\":256,\"prefix_tokens\":3,\"cache_capacity\":10,\
    \"mrope_sections\":[16,24,24],\"rms_norm_epsilon\":0.00001}";

/// The buffers that a session has, by their places.
fn placed(plans: &StackPlans, sources: &StackShaderSources) -> Vec<Option<BufferPlan>> {
    let creation = create_stack_session(plans, &None, sources, None).ok().unwrap();
    let mut buffers: Vec<Option<BufferPlan>> = vec![None; 70];
    for allocation in &creation.allocations {
        buffers[allocation.place] = Some(allocation.buffer);
    }
    if let Some(top1) = ensure_top1_resources(false, &plans.lm_head, "").unwrap_or(None) {
        buffers[STACK_TOP1_RESULT] = Some(top1.buffers[0]);
        buffers[STACK_TOP1_READBACK] = Some(top1.buffers[1]);
    }
    buffers
}

/// Checks that commands stay inside the buffers of a session.
fn assert_fits(plans: &StackPlans, commands: &[Command]) {
    let sources = sources();
    let buffers = placed(plans, &sources);
    let creation = create_stack_session(plans, &None, &sources, None).ok().unwrap();
    for command in commands {
        match command {
            Command::Pass { pipeline, bind_group, offsets, .. } => {
                let mut found = false;
                for (index, group) in creation.bind_groups.iter().enumerate() {
                    if bind_group_place(plans.prefill_capable, index) != *bind_group {
                        continue;
                    }
                    found = true;
                    let entries = stack_layout(group.pipeline);
                    assert_eq!(entries.len(), group.bindings.len());
                    let mut used = 0usize;
                    for (entry, binding) in entries.iter().zip(&group.bindings) {
                        let offset = if entry.dynamic {
                            used += 1;
                            offsets[used - 1]
                        } else {
                            0
                        };
                        let buffer = buffers[binding.buffer].unwrap();
                        assert!(offset + binding.size <= buffer.size);
                        assert_eq!(
                            entry.kind == BindingKind::Uniform,
                            buffer.usage == BufferUsage::Uniform
                        );
                    }
                    assert_eq!(used, offsets.len());
                }
                assert!(found || (*bind_group == GROUP_TOP1 && *pipeline == PIPELINE_TOP1));
            }
            Command::Copy { source, source_offset, destination, destination_offset, bytes } => {
                assert!(source_offset + bytes <= buffers[*source].unwrap().size);
                assert!(destination_offset + bytes <= buffers[*destination].unwrap().size);
            }
        }
    }
}

#[test]
fn a_stack_descriptor_is_read() {
    let descriptor = parse_stack_descriptor_json(DESCRIPTOR, &pins()).unwrap();
    assert_eq!(descriptor.prefill_tokens, 0);
    assert_eq!(descriptor.vocab_size, None);
    assert_eq!(descriptor.cache_capacity, 10);
    let full = DESCRIPTOR
        .replace("\"prefix_tokens\":3", "\"prefix_tokens\":0,\"prefill_tokens\":4,\"vocab_size\":103424");
    let descriptor = parse_stack_descriptor_json(&full, &pins()).unwrap();
    assert_eq!(descriptor.prefill_tokens, 4);
    assert_eq!(descriptor.vocab_size, Some(103424));
    let lead = "invalid decoder stack session descriptor";
    let refused = |from: &str, to: &str| {
        parse_stack_descriptor_json(&full.replace(from, to), &pins()).err().unwrap()
    };
    assert_eq!(
        refused("103424", "103425"),
        format!("{}: vocab_size drifted from the pinned decoder value", lead)
    );
    assert_eq!(
        refused("\"prefix_tokens\":0", "\"prefix_tokens\":1"),
        format!("{}: prefill requires a zero-prefix cache", lead)
    );
    assert_eq!(
        refused("\"layers\":2", "\"layers\":3"),
        format!("{} geometry: field layers drifted from the pinned decoder value", lead)
    );
}

#[test]
fn the_first_unknown_name_is_named() {
    let lead = "invalid decoder stack session descriptor: unknown field ";
    for (names, first) in [
        ("\"zeta\":1,\"alpha\":2", "alpha"),
        ("\"b\":1,\"a\":2,\"Z\":3", "Z"),
        ("\"ab\":1,\"a\":2", "a"),
        ("\"\u{e9}\":1,\"z\":2", "z"),
        ("\"\u{10000}\":1,\"\u{ffff}\":2", "\u{ffff}"),
    ] {
        let text = DESCRIPTOR.replace("{", &format!("{{{},", names));
        assert_eq!(
            parse_stack_descriptor_json(&text, &pins()).err().unwrap(),
            format!("{}{}", lead, first)
        );
    }
}

#[test]
fn a_whole_epsilon_is_the_nearest_value() {
    for (text, value) in [
        ("1", 1.0_f32),
        ("3", 3.0),
        ("-7", -7.0),
        ("0", 0.0),
        ("16777217", 16777216.0),
        ("9007199791611905", 9007199254740992.0),
        ("18446744073709551615", 18446744073709551616.0),
        ("-9223372036854775808", -9223372036854775808.0),
    ] {
        let mut pinned = pins();
        pinned.rms_norm_epsilon = value.to_bits();
        let whole = DESCRIPTOR.replace("0.00001", text);
        let descriptor = parse_stack_descriptor_json(&whole, &pinned).unwrap();
        assert_eq!(descriptor.rms_norm_epsilon, value.to_bits());
    }
}

#[test]
fn planner_tokens_follow_the_descriptor() {
    let full = DESCRIPTOR.replace("\"prefix_tokens\":3", "\"prefix_tokens\":0,\"prefill_tokens\":4");
    let prefill = parse_stack_descriptor_json(&full, &pins()).unwrap();
    assert_eq!(planned_prefix_tokens(&prefill), 4);
    assert_eq!(planned_prefill_tokens(&prefill), 4);
    let plain = parse_stack_descriptor_json(DESCRIPTOR, &pins()).unwrap();
    assert_eq!(planned_prefix_tokens(&plain), 3);
    assert_eq!(planned_prefill_tokens(&plain), 1);
    let brimful = DESCRIPTOR.replace("\"prefix_tokens\":3", "\"prefix_tokens\":0,\"prefill_tokens\":10");
    let brimful = parse_stack_descriptor_json(&brimful, &pins()).unwrap();
    assert_eq!(planned_prefix_tokens(&brimful), 9);
}

#[test]
fn planners_are_told_the_geometry() {
    let json = DESCRIPTOR.replace("\"prefix_tokens\":3", "\"prefix_tokens\":0,\"prefill_tokens\":10");
    let descriptor = parse_stack_descriptor_json(&json, &pins()).unwrap();
    let caches = stack_cache_geometry(&descriptor);
    assert_eq!(caches.prefix_tokens, 9);
    assert_eq!(caches.cache_capacity, descriptor.cache_capacity);
    assert_eq!(caches.head_dim, descriptor.head_dim);
    let layers = stack_geometry(&pins(), &descriptor);
    assert_eq!(layers.layers, pins().layers);
    assert_eq!(layers.intermediate_size, descriptor.intermediate_size);
    assert_eq!(layers.rms_norm_epsilon, descriptor.rms_norm_epsilon);
    let again = prefill_geometry(&stack_plan(), &prefill_plan());
    assert_eq!(again.hidden_size, stack_plan().attention.hidden_size);
    assert_eq!(again.cache_capacity, prefill_plan().cache_capacity);
}

#[test]
fn stack_weights_are_refused_in_order() {
    let refused = |poisoned, busy, json: &str, pack: Option<Vec<u8>>| {
        admit_stack_weights(poisoned, busy, &pins(), json, pack).err().unwrap()
    };
    assert_eq!(
        refused(true, false, DESCRIPTOR, None),
        "decoder stack session is terminally poisoned"
    );
    assert_eq!(
        refused(false, false, DESCRIPTOR, None),
        "decoder stack weight pack must be a Uint8Array view"
    );
    assert_eq!(
        refused(false, false, DESCRIPTOR, Some(vec![])),
        "decoder stack weight pack is shorter than its header"
    );
}

#[test]
fn bulk_caches_are_checked_layer_by_layer() {
    let mut bytes = vec![0u8; 2 * 3 * 1024];
    assert_eq!(require_stack_cache_operands(&pins(), &bytes, "cache", 1, 3).unwrap().len(), 1536);
    assert_eq!(
        require_stack_cache_operands(&pins(), &bytes[4..], "cache", 1, 3).err().unwrap(),
        "cache byte length does not match the exact layer-major bulk cache geometry"
    );
    bytes[3 * 1024..3 * 1024 + 4].copy_from_slice(&f32::INFINITY.to_le_bytes());
    assert_eq!(
        require_stack_cache_operands(&pins(), &bytes, "cache", 1, 3).err().unwrap(),
        "cache contains a nonfinite f32 cache element"
    );
    let mut behind = vec![0u8; 2 * 3 * 1024];
    behind[1024..1028].copy_from_slice(&f32::NAN.to_le_bytes());
    assert!(require_stack_cache_operands(&pins(), &behind, "cache", 1, 3).is_ok());
    let caches =
        admit_stack_caches(&pins(), 1, 3, Some(behind.clone()), Some(vec![0; 6144])).ok().unwrap();
    assert_eq!(caches.key_plane.len(), 768);
    assert_eq!(caches.key_cache_bytes, behind);
    assert!(admit_stack_caches(&pins(), 1, 3, None, Some(vec![])).is_err());
}

#[test]
fn long_prefixes_are_found_out() {
    let finite = vec![0u8; 2 * 3 * 1024];
    assert!(cache_prefixes_are_inside(&pins(), &finite, 3, 3));
    assert!(!cache_prefixes_are_inside(&pins(), &finite, 4, 3));
    assert!(cache_prefixes_are_inside(&pins(), &finite[4..], 4, 3));
    let mut early = finite;
    early[..4].copy_from_slice(&f32::NAN.to_le_bytes());
    assert!(cache_prefixes_are_inside(&pins(), &early, 4, 3));
    assert_eq!(
        require_stack_cache_operands(&pins(), &early, "cache", 4, 3).err().unwrap(),
        "cache contains a nonfinite f32 cache element"
    );
    assert_eq!(
        admit_stack_caches(&pins(), 4, 3, Some(early), Some(vec![])).err().unwrap(),
        "initial K cache contains a nonfinite f32 cache element"
    );
}

#[test]
fn planners_are_heard_in_order() {
    let no = |words: &str| Err(words.to_owned());
    let f32 = WeightStorage::F32;
    let f16 = WeightStorage::F16;
    let settled = settle_weight_plans(
        false,
        f32,
        Ok(stack_plan()),
        Ok(prefill_plan()),
        Some(Ok(lm_head())),
    );
    let (stack, prefill, head) = settled.unwrap();
    assert_eq!(stack.layers, stack_plan().layers);
    assert_eq!(prefill.tokens, prefill_plan().tokens);
    assert_eq!(head.unwrap().logits_bytes, lm_head().logits_bytes);
    assert!(settle_weight_plans(true, f16, Ok(stack_plan()), Ok(prefill_plan()), None)
        .unwrap()
        .2
        .is_none());
    assert_eq!(
        settle_weight_plans(false, f32, no("a"), Err("b".to_owned()), None).err().unwrap(),
        "invalid decoder stack session descriptor geometry or weight operands: a"
    );
    assert_eq!(
        settle_weight_plans(false, f16, Ok(stack_plan()), Err("b".to_owned()), None).err().unwrap(),
        "invalid balanced decoder stack prefill geometry: b"
    );
    assert_eq!(
        settle_weight_plans(
            true,
            f16,
            Ok(stack_plan()),
            Ok(prefill_plan()),
            Some(Err("c".to_owned())),
        )
        .err()
        .unwrap(),
        "invalid resident decoder logits geometry: c"
    );
}

#[test]
fn sizes_of_a_stack_follow_its_plan() {
    let sizes = stack_sizes(&kv_plan(), &stack_plan()).unwrap();
    assert_eq!(sizes.hidden, 4096);
    assert_eq!(sizes.pingpong, 8192);
    assert_eq!(sizes.query, 8192);
    assert_eq!(sizes.key_value, 1024);
    assert_eq!(sizes.intermediate, 12288);
    assert_eq!(sizes.cache, 20480);
    assert_eq!(sizes.prefill_hidden, 40960);
    assert_eq!(sizes.prefill_intermediate, 122880);
    assert_eq!(compact_cache_bytes(&stack_plan()), Ok(20480));
    let mut large = stack_plan();
    large.hidden_stride_bytes = u64::MAX;
    assert_eq!(
        stack_sizes(&kv_plan(), &large).err().unwrap(),
        "decoder stack hidden ping-pong byte size overflowed"
    );
    let mut large = stack_plan();
    large.cache_stride_bytes = u64::MAX;
    assert_eq!(
        stack_sizes(&kv_plan(), &large).err().unwrap(),
        "decoder stack compact cache byte size overflowed"
    );
}

#[test]
fn resident_weights_are_named() {
    let plan = resources(WeightStorage::F16);
    assert_eq!(resident_weight_bytes(&plan), Ok(9 * 512 + 64 + 128));
    assert_eq!(
        resident_weight_key(&Some([0xab; 32]), &plan),
        Some(format!("{}:f16:4800", "ab".repeat(32)))
    );
    assert_eq!(resident_weight_key(&None, &plan), None);
    assert_ne!(
        resident_weight_key(&Some([0xab; 32]), &plan),
        resident_weight_key(&Some([0xab; 32]), &resources(WeightStorage::F32))
    );
    let mut large = resources(WeightStorage::F32);
    large.layer_weight_bulk_bytes[0] = u64::MAX;
    assert_eq!(
        resident_weight_bytes(&large),
        Err("decoder resident weight byte size overflowed".to_string())
    );
    assert_eq!(resident_weight_key(&Some([0; 32]), &large), None);
    let report = resident_weights(Some(("key", 9)));
    assert_eq!(report["ready"], true);
    assert_eq!(report["resident_weight_bytes"], 9);
    assert_eq!(report["key"], "key");
    let text = resident_weights_json(None).unwrap();
    let value: serde_json::Value = serde_json::from_str(&text).unwrap();
    assert_eq!(value["ready"], false);
    let name = Some("key".to_owned());
    assert!(resident_weights_match("key", &name));
    assert!(!resident_weights_match("other", &name));
    assert!(!resident_weights_match("key", &None));
}

#[test]
fn a_device_must_be_able_to_run_the_stack() {
    let verdicts = || StackVerdicts {
        attention: AttentionVerdicts {
            rms_norm: None,
            query: None,
            key: None,
            value: None,
            mrope: None,
            append: None,
            attention: None,
            output: None,
            residual: None,
        },
        norm2: None,
        gate: None,
        up: None,
        swiglu: None,
        down: None,
        second_residual: None,
        prefill: vec![None; 15],
        logits: vec![None; 2],
    };
    for prefill in [false, true] {
        for logits in [false, true] {
            assert_eq!(
                validate_stack_capabilities(&limits(), &plans(prefill, logits), verdicts()),
                Ok(())
            );
        }
    }
    let refused = |limits: DeviceLimits, verdicts: StackVerdicts| {
        validate_stack_capabilities(&limits, &plans(true, true), verdicts).err().unwrap()
    };
    let mut small = limits();
    small.max_storage_buffers_per_shader_stage = 5;
    assert_eq!(
        refused(small, verdicts()),
        "decoder stack session requires six storage buffers per shader stage"
    );
    let mut small = limits();
    small.min_storage_buffer_offset_alignment = 512;
    assert_eq!(
        refused(small, verdicts()),
        "decoder stack session requires a storage buffer offset alignment of at most 256 bytes"
    );
    let mut small = limits();
    small.max_storage_buffer_binding_size = 12288;
    assert!(refused(small, verdicts()).contains("exceeds the adapter"));
    let mut step = verdicts();
    step.attention.residual = Some("wide".to_string());
    step.norm2 = Some("late".to_string());
    assert!(refused(limits(), step).ends_with("wide"));
    let mut logits = verdicts();
    logits.logits[1] = Some("long".to_string());
    assert!(refused(limits(), logits).ends_with("long"));
}

#[test]
fn a_stack_session_has_what_it_counts() {
    let sources = sources();
    for prefill in [false, true] {
        for logits in [false, true] {
            for hit in [false, true] {
                let plans = plans(prefill, logits);
                let resident = if hit {
                    Some(ResidentWeights { final_norm: true, lm_head: true })
                } else {
                    None
                };
                let creation =
                    create_stack_session(&plans, &Some([1; 32]), &sources, resident).ok().unwrap();
                let counts = count_creation(prefill, logits, hit, !prefill);
                assert_eq!(creation.allocations.len() as u64, counts.buffers);
                assert_eq!(creation.bind_groups.len() as u64, counts.bind_groups);
                assert_eq!(creation.pipelines.len() as u64, counts.pipelines);
                assert_eq!(creation.candidate.is_some(), !hit);
                assert_eq!(creation.cache_tokens, if prefill { 0 } else { 3 });
                for allocation in &creation.allocations {
                    let weight = allocation.buffer.label.ends_with("-weight")
                        || allocation.place == STACK_LM_HEAD;
                    assert_eq!(allocation.resident, hit && weight);
                    assert_eq!(
                        allocation.words.is_some(),
                        allocation.buffer.label.contains("-logits-")
                            && allocation.buffer.label.ends_with("-uniform")
                    );
                }
                for group in &creation.bind_groups {
                    for (index, binding) in group.bindings.iter().enumerate() {
                        for other in &group.bindings[index + 1..] {
                            assert_ne!(binding.buffer, other.buffer);
                        }
                    }
                }
            }
        }
    }
    let missing = Some(ResidentWeights { final_norm: true, lm_head: false });
    assert_eq!(
        create_stack_session(&plans(true, true), &None, &sources, missing).err().unwrap(),
        "decoder resident weights are missing the LM-head buffer"
    );
    let mut half = plans(true, true);
    half.resources.storage = WeightStorage::F16;
    let creation = create_stack_session(&half, &None, &sources, None).ok().unwrap();
    assert_eq!(creation.pipelines.len(), 15);
    let uniform = creation
        .allocations
        .iter()
        .find(|allocation| allocation.place == STACK_LOGITS_GEMV_UNIFORM)
        .unwrap();
    assert_eq!(uniform.words, Some([5, 6, 7, 8]));
}

#[test]
fn bind_groups_have_their_places() {
    assert_eq!(bind_group_place(true, 31), GROUP_PREFILL_LOGITS_RMS);
    assert_eq!(bind_group_place(false, 16), GROUP_PREFILL_LOGITS_RMS);
    assert_eq!(bind_group_place(false, 18), GROUP_GEMV_LOGITS);
    assert_eq!(bind_group_place(false, 0), GROUP_RMS);
    let append = stack_layout(LAYOUT_APPEND);
    assert_eq!(append.len(), 5);
    assert!(append[2].dynamic && append[3].dynamic && !append[0].dynamic);
    assert_eq!(stack_layout(LAYOUT_TOP1).len(), 2);
}

#[test]
fn bind_groups_bind_slices_and_whole_buffers() {
    let plans = plans(true, true);
    let sources = sources();
    let buffers = placed(&plans, &sources);
    let creation = create_stack_session(&plans, &None, &sources, None).ok().unwrap();
    for (index, group) in creation.bind_groups.iter().enumerate() {
        let place = bind_group_place(true, index);
        if place >= GROUP_PREFILL_RMS1 && place < GROUP_PREFILL_LOGITS_RMS {
            continue;
        }
        for (entry, binding) in stack_layout(group.pipeline).iter().zip(&group.bindings) {
            let whole = buffers[binding.buffer].unwrap().size;
            if !entry.dynamic {
                assert_eq!(binding.size, whole);
            } else if binding.buffer == STACK_Q_WEIGHT {
                assert_eq!(binding.size, plans.resources.layer_weight_stride_bytes[1]);
            } else if binding.buffer == STACK_KEY_CACHE {
                assert_eq!(binding.size, plans.stack.cache_stride_bytes);
                assert!(binding.size < whole);
            } else if binding.buffer == STACK_HIDDEN_PINGPONG {
                assert_eq!(binding.size, plans.stack.hidden_stride_bytes);
                assert!(binding.size < whole);
            }
        }
    }
}

#[test]
fn a_repeated_readout_reads_the_same_row() {
    for prefill in [false, true] {
        let first = prepare_logits_readout(false, true, prefill, 4, 3, 4).unwrap();
        let tokens = cache_tokens_after(Operation::Logits, 4, 9, 4);
        let second = prepare_logits_readout(false, true, prefill, tokens, 3, 4).unwrap();
        assert_eq!(first.from_prefill, second.from_prefill);
        assert_eq!(first.row_offset, second.row_offset);
        assert_eq!(first.from_prefill, prefill);
    }
}

#[test]
fn a_stack_step_asks_for_its_gpu_work() {
    let step = StackStepPlan { stage_words: [[9; 4]; 13] };
    let plans = plans(false, false);
    let encoding = encode_stack_step(&plans, &transition(), &step, vec![0; 4096]).ok().unwrap();
    assert_eq!(encoding.writes.len(), 17);
    assert_eq!(encoding.writes[0].buffer, STACK_HIDDEN_PINGPONG);
    assert_eq!(encoding.commands.len(), 2 * 16 + 1);
    assert_fits(&plans, &encoding.commands);
    let offsets = |index: usize| match &encoding.commands[index] {
        Command::Pass { offsets, .. } => offsets.clone(),
        Command::Copy { .. } => panic!(),
    };
    assert_eq!(offsets(0), vec![0, 0]);
    assert_eq!(offsets(15), vec![0, 4096]);
    assert_eq!(offsets(16), vec![4096, 256]);
    assert_eq!(offsets(21), vec![10240, 10240]);
    assert_eq!(offsets(31), vec![0, 0]);
    match &encoding.commands[32] {
        Command::Copy { source, source_offset, destination, bytes, .. } => {
            assert_eq!((*source, *destination), (STACK_HIDDEN_PINGPONG, STACK_STACK_READBACK));
            assert_eq!((*source_offset, *bytes), (0, 4096));
        }
        Command::Pass { .. } => panic!(),
    }
    let mut short = plans;
    short.resources.layer_weight_offsets.pop();
    assert_eq!(
        encode_stack_step(&short, &transition(), &step, vec![]).err().unwrap(),
        "decoder stack physical weight offset is unavailable"
    );
}

#[test]
fn a_prefill_asks_for_its_gpu_work() {
    let plans = plans(true, true);
    let encoding =
        encode_stack_prefill(&plans.resources, true, &plans.prefill, vec![0; 4 * 4096]).ok().unwrap();
    assert_eq!(encoding.writes.len(), 16);
    assert_eq!(encoding.writes[0].buffer, STACK_PREFILL_HIDDEN_STORAGE);
    assert_eq!(encoding.commands.len(), 2 * 15 + 1);
    assert_fits(&plans, &encoding.commands);
    match &encoding.commands[1] {
        Command::Pass { pipeline, .. } => assert_eq!(*pipeline, PIPELINE_PROJECTION),
        Command::Copy { .. } => panic!(),
    }
    match &encoding.commands[30] {
        Command::Copy { source, source_offset, bytes, .. } => {
            assert_eq!(*source, STACK_PREFILL_HIDDEN_STORAGE);
            assert_eq!((*source_offset, *bytes), (3 * 4096, 4096));
        }
        Command::Pass { .. } => panic!(),
    }
    assert_eq!(
        encode_stack_prefill(&plans.resources, false, &plans.prefill, vec![]).err().unwrap(),
        "decoder stack session is not prefill capable"
    );
    assert_eq!(prepare_prefill(0, 1, Some(vec![0; 4096])), Ok(vec![0; 4096]));
    assert_eq!(
        prepare_prefill(1, 1, Some(vec![0; 4096])),
        Err("decoder stack session prefill requires a zero-prefix cache position".to_string())
    );
    assert_eq!(
        prepare_prefill(0, 2, Some(vec![0; 4096])),
        Err("decoder stack prefill hidden states byte length does not match the admitted token count".to_string())
    );
    let mut bad = vec![0u8; 4096];
    bad[4..8].copy_from_slice(&f32::NAN.to_le_bytes());
    assert_eq!(
        prepare_prefill(0, 1, Some(bad)),
        Err("decoder stack prefill hidden states contain a nonfinite f32 element".to_string())
    );
}

#[test]
fn readouts_leave_the_caches_alone() {
    for prefill in [false, true] {
        let plans = plans(prefill, true);
        let readout = prepare_logits_readout(false, true, prefill, 4, 3, 4).unwrap();
        assert_eq!(readout.from_prefill, prefill);
        assert_eq!(readout.row_offset, if prefill { 3 * 4096 } else { 0 });
        let logits = encode_stack_logits(&plans.resources, &plans.lm_head, &readout).ok().unwrap();
        assert!(logits.writes.is_empty());
        assert_eq!(logits.commands.len(), 3);
        assert_fits(&plans, &logits.commands);
        match &logits.commands[0] {
            Command::Pass { bind_group, .. } => assert_eq!(
                *bind_group,
                if prefill { GROUP_PREFILL_LOGITS_RMS } else { GROUP_STEP_LOGITS_RMS }
            ),
            Command::Copy { .. } => panic!(),
        }
        match &logits.commands[2] {
            Command::Copy { source, destination, bytes, .. } => {
                assert_eq!((*source, *destination), (STACK_LOGITS, STACK_LOGITS_READBACK));
                assert_eq!(*bytes, 413696);
            }
            Command::Pass { .. } => panic!(),
        }
        let top1 = encode_stack_top1(&plans.resources, &plans.lm_head, &readout).ok().unwrap();
        assert!(top1.writes.is_empty());
        assert_eq!(top1.commands.len(), 4);
        assert_fits(&plans, &top1.commands);
        match &top1.commands[3] {
            Command::Copy { bytes, .. } => assert_eq!(*bytes, 8),
            Command::Pass { .. } => panic!(),
        }
    }
    assert_eq!(cache_tokens_after(Operation::Logits, 5, 6, 7), 5);
    assert_eq!(cache_tokens_after(Operation::Top1, 5, 6, 7), 5);
    assert_eq!(cache_tokens_after(Operation::Finish, 5, 6, 7), 5);
    assert_eq!(cache_tokens_after(Operation::Step, 5, 6, 7), 6);
    assert_eq!(cache_tokens_after(Operation::Prefill, 5, 6, 7), 7);
}

#[test]
fn readouts_need_an_admitted_row() {
    let refused = |top1, logits, prefill, tokens| {
        prepare_logits_readout(top1, logits, prefill, tokens, 3, 4).err().unwrap()
    };
    assert_eq!(
        refused(false, false, true, 4),
        "decoder stack session does not admit the logits operation"
    );
    assert_eq!(
        refused(true, false, true, 4),
        "decoder stack session does not admit the GPU top-1 operation"
    );
    assert_eq!(
        refused(false, true, true, 0),
        "decoder stack session logits requires an admitted prefill or decode step"
    );
    assert_eq!(
        refused(true, true, false, 3),
        "decoder stack session GPU top-1 requires an admitted prefill or decode step"
    );
    let after = prepare_logits_readout(true, true, true, 5, 3, 4).unwrap();
    assert!(!after.from_prefill);
    assert_eq!(after.row_offset, 0);
    let mut plan = resources(WeightStorage::F32);
    plan.final_norm_weight_range = None;
    assert_eq!(
        encode_stack_logits(&plan, &Some(lm_head()), &after).err().unwrap(),
        "decoder stack session final-norm resource range is missing"
    );
    plan.final_norm_weight_range = Some((0, 64));
    plan.lm_head_weight_range = None;
    assert_eq!(
        encode_stack_top1(&plan, &Some(lm_head()), &after).err().unwrap(),
        "decoder stack session LM-head resource range is missing"
    );
    assert_eq!(
        encode_stack_top1(&plan, &None, &after).err().unwrap(),
        "decoder stack session does not admit the GPU top-1 operation"
    );
}

#[test]
fn a_selected_token_is_read_back() {
    let mut output = 17u32.to_le_bytes().to_vec();
    output.extend_from_slice(&2.5_f32.to_le_bytes());
    assert_eq!(decode_top1(&output), Ok((17, 2.5_f32.to_bits())));
    assert_eq!(
        decode_top1(&output[..7]),
        Err("decoder stack GPU top-1 readback is truncated".to_string())
    );
    let invalid = Err("decoder stack GPU top-1 returned an invalid token or score".to_string());
    let mut token = 103424u32.to_le_bytes().to_vec();
    token.extend_from_slice(&2.5_f32.to_le_bytes());
    assert_eq!(decode_top1(&token), invalid);
    let mut score = 17u32.to_le_bytes().to_vec();
    score.extend_from_slice(&f32::NAN.to_le_bytes());
    assert_eq!(decode_top1(&score), invalid);
    assert!(ensure_top1_resources(true, &None, "").ok().unwrap().is_none());
    assert_eq!(
        ensure_top1_resources(false, &None, "").err().unwrap(),
        "decoder stack session does not admit GPU top-1"
    );
    let added =
        ensure_top1_resources(false, &Some(lm_head()), "fn main() {}").ok().unwrap().unwrap();
    assert_eq!(added.pipeline.place, PIPELINE_TOP1);
    assert_eq!(added.pipeline.layout, LAYOUT_TOP1);
    assert_eq!(added.pipeline.kernel, "decoder_logits_top1_f32");
    assert_eq!(added.pipeline.source, "fn main() {}");
    assert_eq!(added.buffers.len(), 2);
    assert_eq!(added.bind_group.bindings[0].size, 413696);
}

#[test]
fn a_stack_finish_brings_both_caches_back() {
    let encoding = encode_stack_finish(&stack_plan()).ok().unwrap();
    assert_eq!(encoding.buffers.len(), 2);
    assert_eq!(encoding.buffers[0].size, 20480);
    match &encoding.commands[0] {
        Command::Copy { source, destination, bytes, .. } => {
            assert_eq!((*source, *destination), (STACK_KEY_CACHE, STACK_FINISH_KEY_READBACK));
            assert_eq!(*bytes, 20480);
        }
        Command::Pass { .. } => panic!(),
    }
    let mut large = stack_plan();
    large.cache_stride_bytes = u64::MAX;
    assert!(encode_stack_finish(&large).is_err());
    large.cache_stride_bytes = u64::MAX / 3;
    assert_eq!(
        stack_finish_diagnostics(&large).err().unwrap(),
        "decoder stack finish readback overflowed"
    );
}

#[test]
fn stack_readbacks_are_whole_buffers() {
    let plans = plans(true, true);
    let buffers = placed(&plans, &sources());
    for operation in [Operation::Step, Operation::Prefill, Operation::Logits] {
        let readbacks = plan_stack_readbacks(&plans, operation).unwrap();
        assert_eq!(readbacks.len(), 1);
        let buffer = buffers[readbacks[0].buffer].as_ref().unwrap();
        assert_eq!(buffer.size, readbacks[0].bytes);
        assert_eq!(buffer.usage, BufferUsage::Readback);
    }
    assert_eq!(plan_stack_readbacks(&plans, Operation::Top1).unwrap()[0].bytes, 8);
    let finish = plan_stack_readbacks(&plans, Operation::Finish).unwrap();
    let encoding = encode_stack_finish(&plans.stack).ok().unwrap();
    assert_eq!(finish.len(), 2);
    assert_eq!(finish[1].bytes, encoding.buffers[1].size);
    assert!(plan_stack_readbacks(&plans, Operation::Begin).unwrap().is_empty());
    let mut mute = plans;
    mute.lm_head = None;
    assert_eq!(
        plan_stack_readbacks(&mute, Operation::Logits).err().unwrap(),
        "decoder stack session does not admit the logits operation"
    );
    mute.stack.cache_stride_bytes = u64::MAX;
    assert_eq!(
        plan_stack_readbacks(&mute, Operation::Finish).err().unwrap(),
        "decoder stack compact cache byte size overflowed"
    );
}

fn operands(cache: bool, logits: bool) -> StackBeginOperands {
    StackBeginOperands {
        upload_initial_cache: cache,
        key_cache_bytes: vec![1; 20480],
        value_cache_bytes: vec![2; 20480],
        rope_cos_bytes: vec![3; 480],
        rope_sin_bytes: vec![4; 480],
        layer_weights: (0..9).map(|i| vec![i as u8; 512]).collect(),
        final_norm_weight_bytes: if logits { Some(vec![5; 64]) } else { None },
        lm_head_weight_bytes: if logits { Some(vec![6; 128]) } else { None },
    }
}

#[test]
fn uploads_fill_a_new_session() {
    let sources = sources();
    for prefill in [false, true] {
        for logits in [false, true] {
            for fresh in [false, true] {
                let plans = plans(prefill, logits);
                let buffers = placed(&plans, &sources);
                let writes =
                    upload_stack_operands(operands(!prefill, logits), prefill, logits, fresh)
                        .ok()
                        .unwrap();
                let counts = count_creation(prefill, logits, !fresh, !prefill);
                assert_eq!(writes.len() as u64, counts.uploads);
                for write in &writes {
                    assert_eq!(write.bytes.len() as u64, buffers[write.buffer].unwrap().size);
                }
                let has = |place: usize| writes.iter().any(|write| write.buffer == place);
                assert_eq!(has(STACK_KEY_CACHE), !prefill);
                assert_eq!(has(STACK_VALUE_CACHE), !prefill);
                assert!(has(STACK_ROPE_COS));
                assert_eq!(has(STACK_Q_WEIGHT), fresh);
                assert_eq!(has(STACK_PREFILL_ZERO_BIAS), prefill);
                assert_eq!(has(STACK_LM_HEAD), fresh && logits);
            }
        }
    }
    assert_eq!(
        upload_stack_operands(operands(true, true), false, false, true).err().unwrap(),
        "decoder stack session logits resources are missing"
    );
}

#[test]
fn a_prepared_begin_splits_its_shards() {
    let shards = |count: usize| -> Vec<Vec<u8>> {
        (0..count)
            .map(|i| match i {
                5 | 6 => vec![i as u8; 480],
                11 => vec![11; 64],
                12 => vec![12; 128],
                _ => vec![i as u8; 512],
            })
            .collect()
    };
    let pack = |count| WeightPack {
        weight_storage: WeightStorage::F32,
        checkpoint_blake3: Some([7; 32]),
        shards: shards(count),
    };
    let admitted = |pack: WeightPack, prefill_capable: bool, logits_capable: bool| AdmittedStack {
        descriptor: parse_stack_descriptor_json(DESCRIPTOR, &pins()).unwrap(),
        pack,
        prefill_capable,
        logits_capable,
    };
    let prepared = prepare_stack_begin(
        admitted(pack(13), true, true),
        vec![1],
        vec![2],
        planned(true),
        false,
        modules(),
    )
    .ok()
    .unwrap();
    assert!(prepared.plans.prefill_capable);
    assert!(prepared.plans.lm_head.is_some());
    for prefill in [false, true] {
        let bare = assemble_stack_plans(&admitted(pack(11), prefill, false), planned(false));
        assert_eq!(bare.prefill_capable, prefill);
        assert!(bare.lm_head.is_none());
    }
    assert_eq!(prepared.operands.layer_weights.len(), 9);
    assert_eq!(prepared.operands.layer_weights[5], vec![7; 512]);
    assert_eq!(prepared.operands.rope_sin_bytes, vec![6; 480]);
    assert_eq!(prepared.operands.lm_head_weight_bytes, Some(vec![12; 128]));
    assert_eq!(prepared.checkpoint_blake3, Some([7; 32]));
    let mut short = pack(13);
    short.shards[0].pop();
    assert_eq!(
        prepare_stack_begin(
            admitted(short, true, true),
            vec![],
            vec![],
            planned(true),
            false,
            modules()
        )
        .err()
        .unwrap(),
        "decoder stack authenticated shard bytes drifted from the physical resource plan"
    );
    assert_eq!(
        require_weight_storage_device_feature(WeightStorage::F16, false),
        Err("decoder stack balanced weight storage requires the shader-f16 device feature".to_string())
    );
    assert_eq!(require_weight_storage_device_feature(WeightStorage::F32, false), Ok(()));
    let request =
        weight_resource_request(&stack_plan(), &Some(lm_head()), WeightStorage::F16, false).unwrap();
    assert_eq!(request.layers, 2);
    assert_eq!(request.final_norm_weight_bytes, Some(64));
    let labels: Vec<&'static str> = vec!["a", "b"];
    assert_eq!(all_words(&vec![vec![1, 0, 0, 0], vec![]], &labels), Ok(vec![vec![1], vec![]]));
    assert_eq!(
        all_words(&vec![vec![], vec![1]], &labels),
        Err("b bytes are not a whole little-endian f32 sequence".to_string())
    );
    assert_eq!(pack_words(&shards(11)).unwrap().len(), 11);
}

#[test]
fn resident_begins_need_matching_weights() {
    let full = DESCRIPTOR
        .replace("\"prefix_tokens\":3", "\"prefix_tokens\":0,\"prefill_tokens\":4,\"vocab_size\":103424");
    assert_eq!(
        admit_resident_begin(false, false, &pins(), &full, true).unwrap().prefill_tokens,
        4
    );
    assert_eq!(
        admit_resident_begin(false, false, &pins(), &full, false).err().unwrap(),
        "resident decoder weights are not ready; run one authenticated full begin first"
    );
    assert_eq!(
        admit_resident_begin(false, false, &pins(), DESCRIPTOR, true).err().unwrap(),
        "resident decoder begin requires a zero-prefix prefill descriptor"
    );
    let bare = full.replace(",\"vocab_size\":103424", "");
    assert_eq!(
        admit_resident_begin(false, false, &pins(), &bare, true).err().unwrap(),
        "resident decoder begin requires the pinned logits vocabulary"
    );
    let plan = resources(WeightStorage::F32);
    let key = resident_weight_key(&Some([3; 32]), &plan).unwrap();
    let (operands, elements) = prepare_resident_stack_begin(
        &key,
        &[3; 32],
        &plan,
        false,
        10,
        Some(vec![0; 480]),
        Some(vec![0; 480]),
    )
    .ok()
    .unwrap();
    assert_eq!(elements, 2560);
    assert!(!operands.upload_initial_cache && operands.layer_weights.is_empty());
    let prepared = finish_resident_stack_begin([3; 32], operands, planned(true), modules());
    let prepared = prepared.ok().unwrap();
    assert!(prepared.plans.prefill_capable && prepared.plans.lm_head.is_some());
    assert_eq!(prepared.checkpoint_blake3, Some([3; 32]));
    let mut lacking = modules();
    lacking.gemv = None;
    let (operands, _) = prepare_resident_stack_begin(
        &key,
        &[3; 32],
        &plan,
        false,
        10,
        Some(vec![0; 480]),
        Some(vec![0; 480]),
    )
    .ok()
    .unwrap();
    assert!(finish_resident_stack_begin([3; 32], operands, planned(true), lacking).is_err());
    let refused = |key: &str, checkpoint: [u8; 32], cos: Option<Vec<u8>>| {
        prepare_resident_stack_begin(
            key,
            &checkpoint,
            &plan,
            false,
            10,
            cos,
            Some(vec![0; 480]),
        )
        .err()
        .unwrap()
    };
    assert_eq!(
        refused(&key, [4; 32], Some(vec![0; 480])),
        "resident decoder weights do not match the requested model geometry"
    );
    assert_eq!(
        refused(&key, [3; 32], Some(vec![0; 476])),
        "resident decoder cosine table byte length does not match the requested cache capacity"
    );
    let mut bad = vec![0u8; 480];
    bad[..4].copy_from_slice(&f32::NAN.to_le_bytes());
    assert_eq!(
        refused(&key, [3; 32], Some(bad)),
        "resident decoder cosine table contains a nonfinite f32 value"
    );
}

#[test]
fn stack_reports_count_the_gpu_work() {
    let sources = sources();
    let digests = stack_shader_digests(&sources);
    assert!(prefill_shader_digests(false, &sources).is_none());
    let prefill = prefill_shader_digests(true, &sources);
    let facts = CreationFacts { logits_capable: true, resident_hit: false, cache_uploaded: false };
    let created = stack_creation_diagnostics(&kv_plan(), &stack_plan(), &digests, &prefill, &facts);
    assert_eq!(created["buffer_count"], 66);
    assert_eq!(created["pipeline_count"], 12);
    assert_eq!(created["bind_group_count"], 34);
    assert_eq!(created["initial_upload_count"], 14);
    assert_eq!(created["logits_capable"], true);
    assert_eq!(created["initial_cache_tokens"], 0);
    let stepped = stack_step_diagnostics(&stack_plan(), &transition(), &digests, &Some([9; 32]));
    assert_eq!(stepped["queue_write_count"], 17);
    assert_eq!(stepped["dispatch_count"], 32);
    assert_eq!(stepped["effects"].as_array().unwrap().len(), 17 + 32 + 3);
    assert_eq!(stepped["checkpoint_blake3"], "09".repeat(32));
    let filled = stack_prefill_diagnostics(&prefill_plan(), &digests, &prefill).unwrap();
    assert_eq!(filled["queue_write_count"], 16);
    assert_eq!(filled["compute_pass_count"], 30);
    assert_eq!(filled["effects"].as_array().unwrap().len(), 16 + 30 + 3);
    assert_eq!(
        stack_prefill_diagnostics(&prefill_plan(), &digests, &None).err().unwrap(),
        "decoder stack session is not prefill capable"
    );
    let finished = stack_finish_diagnostics(&stack_plan()).unwrap();
    assert_eq!(finished["readback_bytes"], 40960);
    let logits = logits_diagnostics(&Some(lm_head()), 4, &digests).unwrap();
    assert_eq!(logits["queue_write_count"], 0);
    assert_eq!(logits["readback_bytes"], 413696);
    assert_eq!(
        logits_diagnostics(&None, 4, &digests).err().unwrap(),
        "decoder stack session is not logits capable"
    );
    let top1 = top1_diagnostics(4, &digests, &Some([5; 32]), 77).unwrap();
    assert_eq!(top1["readback_bytes"], 8);
    assert_eq!(top1["queue_wall_time_ns"], 77);
    assert_eq!(top1["full_logits_readback_elided"], true);
    assert_eq!(
        top1_diagnostics_json(4, &digests, &None, 0).err().unwrap(),
        "decoder stack session is not GPU top-1 capable"
    );
    for text in [
        stack_creation_diagnostics_json(&kv_plan(), &stack_plan(), &digests, &prefill, &facts).unwrap(),
        stack_step_diagnostics_json(&stack_plan(), &transition(), &digests, &None).unwrap(),
        stack_prefill_diagnostics_json(&prefill_plan(), &digests, &prefill).unwrap(),
        stack_finish_diagnostics_json(&stack_plan()).unwrap(),
        logits_diagnostics_json(&Some(lm_head()), 4, &digests).unwrap(),
    ] {
        let value: serde_json::Value = serde_json::from_str(&text).unwrap();
        assert_eq!(value["schema_version"], 1);
    }
}

#[test]
fn stack_sources_are_listed_and_replaced() {
    let mut missing = modules();
    missing.swiglu = None;
    assert_eq!(
        canonical_stack_sources(missing).err().unwrap(),
        "canonical decoder stack SwiGLU kernel is missing"
    );
    let digests = stack_shader_digests(&sources());
    assert_eq!(digests.split_merge, *blake3::hash(b"split_merge").as_bytes());
    let text = stack_sources_json(&sources()).unwrap();
    let value: serde_json::Value = serde_json::from_str(&text).unwrap();
    assert_eq!(value["sources"]["decoder_swiglu_f32"], "swiglu");
    assert!(require_stack_override("nothing", "x").is_err());
    assert_eq!(require_stack_override("decoder_swiglu_f32", "x"), Ok(()));
    let replaced = override_stack_source(sources(), "decoder_swiglu_f32", "new");
    assert_eq!(replaced.swiglu, "new");
    assert_eq!(replaced.residual, "residual");
    assert_eq!(decoder_weight_pipelines(WeightStorage::F16).gemv_tiled, PIPELINE_GEMV_TILED_F16);
    assert!(words_are_finite(&[0, 1]) && !words_are_finite(&[0, 0x7f80_0000]));
    assert_eq!(pvlc_decoder_sessions::family::family_noun(Family::Stack), "decoder stack");
}
