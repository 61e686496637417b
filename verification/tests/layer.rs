use pvlc_decoder_sessions::descriptor::parse_layer_descriptor_json;
use pvlc_decoder_sessions::family::{DecoderPins, Family};
use pvlc_decoder_sessions::geometry::{layer_cache_geometry, layer_geometry};
use pvlc_decoder_sessions::gpu::Command;
use pvlc_decoder_sessions::kv::{KvPlan, KvStepPlan};
use pvlc_decoder_sessions::layer::{
    create_layer_resources, encode_layer_finish, encode_layer_step, layer_sizes,
    upload_layer_operands, validate_layer_capabilities, AttentionPlan, AttentionStepPlan,
    AttentionVerdicts, LAYER_ATTENTION_RESIDUAL, LAYER_FINISH_VALUE_READBACK, LAYER_HIDDEN_TOKEN, LAYER_KEY_CACHE,
    LAYER_LAYER_READBACK, LAYER_Q_WEIGHT, LAYER_ROPE_SIN, LAYER_VALUE_CACHE,
};
use pvlc_decoder_sessions::layer_report::{
    canonical_layer_sources, layer_creation_diagnostics, layer_creation_diagnostics_json,
    layer_finish_diagnostics, layer_finish_diagnostics_json, layer_shader_digests,
    layer_sources_json, layer_step_diagnostics, layer_step_diagnostics_json,
    override_layer_source, require_layer_override, LayerShaderModules,
};
use pvlc_decoder_sessions::lifecycle::Operation;
use pvlc_decoder_sessions::limits::DeviceLimits;
use pvlc_decoder_sessions::operands::{prepare_hidden_row, prepare_layer_begin};
use pvlc_decoder_sessions::readback::plan_layer_readbacks;

fn pins() -> DecoderPins {
    DecoderPins {
        layers: 2,
        hidden_size: 2,
        intermediate_size: 3,
        query_heads: 16,
        key_value_heads: 2,
        head_dim: 4,
        mrope_sections: [16, 24, 24],
        rms_norm_epsilon: 1e-5_f32.to_bits(),
    }
}

fn kv_plan() -> KvPlan {
    KvPlan {
        query_heads: 16,
        key_value_heads: 2,
        head_dim: 4,
        initial_cache_tokens: 3,
        cache_capacity: 10,
        key_value_width: 8,
        attention_bytes: 256,
        cache_bytes: 320,
        split_partials_bytes: 0,
        append_dispatch: [1, 1, 1],
        attention_dispatch: [2, 1, 1],
    }
}

fn plan() -> AttentionPlan {
    AttentionPlan {
        hidden_size: 6,
        query_heads: 16,
        key_value_heads: 2,
        head_dim: 4,
        rms_norm_epsilon: 1e-5_f32.to_bits(),
        query_width: 64,
        key_value_width: 8,
        rope_elements: 120,
        rms_norm_dispatch: [1, 1, 1],
        query_dispatch: [2, 1, 1],
        key_dispatch: [3, 1, 1],
        value_dispatch: [4, 1, 1],
        mrope_dispatch: [5, 1, 1],
        output_dispatch: [6, 1, 1],
        residual_dispatch: [7, 1, 1],
    }
}

fn transition() -> KvStepPlan {
    KvStepPlan {
        cache_tokens_before: 3,
        cache_tokens_after: 4,
        append_words: [1, 2, 3, 4],
        attention_words: [5, 6, 7, 8],
        append_dispatch: [9, 1, 1],
        attention_dispatch: [9, 1, 1],
        split_words: [[0; 4]; 2],
        split_partial_dispatch: [1, 1, 1],
        split_merge_dispatch: [1, 1, 1],
    }
}

fn limits() -> DeviceLimits {
    DeviceLimits {
        max_storage_buffers_per_shader_stage: 8,
        max_storage_buffer_binding_size: 4096,
        max_buffer_size: 8192,
        min_storage_buffer_offset_alignment: 256,
        max_compute_workgroups_per_dimension: 65535,
    }
}

const DESCRIPTOR: &str = "{\"schema_version\":1,\"hidden_size\":2,\"query_heads\":16,\
    \"key_value_heads\":2,\"head_dim\":4,\"query_width\":2048,\"key_value_width\":256,\
    \"prefix_tokens\":3,\"cache_capacity\":10,\"mrope_sections\":[16,24,24],\
    \"rms_norm_epsilon\":0.00001}";

#[test]
fn a_layer_descriptor_is_read() {
    let descriptor = parse_layer_descriptor_json(DESCRIPTOR, &pins()).unwrap();
    assert_eq!(layer_cache_geometry(&descriptor).prefix_tokens, descriptor.prefix_tokens);
    assert_eq!(layer_geometry(&descriptor).hidden_size, descriptor.hidden_size);
    assert_eq!(layer_geometry(&descriptor).cache_capacity, descriptor.cache_capacity);
    assert_eq!(descriptor.hidden_size, 2);
    assert_eq!(descriptor.prefix_tokens, 3);
    assert_eq!(descriptor.cache_capacity, 10);
    assert_eq!(descriptor.rms_norm_epsilon, 1e-5_f32.to_bits());
}

#[test]
fn a_bad_layer_descriptor_is_refused() {
    let lead = "invalid decoder layer session descriptor";
    let cases: [(&str, &str, &str); 9] = [
        ("\"hidden_size\":2", "\"hidden_size\":3", " geometry: field hidden_size drifted from the pinned decoder value"),
        ("\"query_width\":2048", "\"query_width\":2047", " geometry: field query_width drifted from the pinned decoder value"),
        ("[16,24,24]", "[16,24,23]", ": mrope_sections drifted from the pinned [16, 24, 24]"),
        ("[16,24,24]", "[16,24]", ": mrope_sections drifted from the pinned [16, 24, 24]"),
        ("[16,24,24]", "[16,24,-1]", ": mrope_sections entries must be unsigned integers"),
        ("[16,24,24]", "7", ": field mrope_sections must be an array"),
        ("0.00001", "\"x\"", ": field rms_norm_epsilon must be a number"),
        ("0.00001", "0.00002", ": rms_norm_epsilon drifted from the pinned decoder value"),
        (",\"rms_norm_epsilon\":0.00001", "", ": missing field rms_norm_epsilon"),
    ];
    for (from, to, message) in cases {
        let json = DESCRIPTOR.replace(from, to);
        assert_eq!(
            parse_layer_descriptor_json(&json, &pins()).err().unwrap(),
            format!("{}{}", lead, message)
        );
    }
}

#[test]
fn a_layer_session_is_refused_before_its_pack() {
    let refused = |poisoned, busy, json: &str, pack: Option<Vec<u8>>| {
        prepare_layer_begin(poisoned, busy, &pins(), json, pack, Some(vec![]), Some(vec![]))
            .err()
            .unwrap()
    };
    assert_eq!(
        refused(true, false, DESCRIPTOR, None),
        "decoder layer session is terminally poisoned"
    );
    assert_eq!(
        refused(false, false, DESCRIPTOR, None),
        "decoder layer weight pack must be a Uint8Array view"
    );
    assert_eq!(
        refused(false, false, DESCRIPTOR, Some(vec![0; 8])),
        "decoder layer weight pack is shorter than its header"
    );
    let (bytes, words) =
        prepare_hidden_row(Family::Layer, Some(vec![0, 0, 128, 63])).unwrap();
    assert_eq!(bytes, vec![0, 0, 128, 63]);
    assert_eq!(words, vec![0x3f80_0000]);
    assert_eq!(
        prepare_hidden_row(Family::Layer, None).err().unwrap(),
        "decoder layer session operand must be a Uint8Array view"
    );
}

#[test]
fn sizes_follow_the_plan() {
    let sizes = layer_sizes(&plan()).unwrap();
    assert_eq!(sizes.hidden, 24);
    assert_eq!(sizes.query, 256);
    assert_eq!(sizes.key_value, 32);
    assert_eq!(sizes.rope, 480);
    assert_eq!(sizes.q_weight, 64 * 6 * 4);
    assert_eq!(sizes.key_value_weight, 8 * 6 * 4);
    assert_eq!(sizes.o_weight, 64 * 6 * 4);
    let mut wide = plan();
    wide.query_width = usize::MAX;
    assert!(layer_sizes(&wide).is_err());
}

#[test]
fn a_device_must_be_able_to_run_the_layer() {
    let none = || AttentionVerdicts {
        rms_norm: None,
        query: None,
        key: None,
        value: None,
        mrope: None,
        append: None,
        attention: None,
        output: None,
        residual: None,
    };
    assert_eq!(validate_layer_capabilities(&limits(), &kv_plan(), &plan(), none()), Ok(()));
    let mut small = limits();
    small.max_storage_buffers_per_shader_stage = 1;
    assert!(validate_layer_capabilities(&small, &kv_plan(), &plan(), none()).is_err());
    let mut small = limits();
    small.max_storage_buffer_binding_size = 100;
    let error = validate_layer_capabilities(&small, &kv_plan(), &plan(), none()).err().unwrap();
    assert!(error.ends_with(" exceeds the adapter storage buffer binding limit"));
    let mut verdicts = none();
    verdicts.mrope = Some("deep".to_string());
    verdicts.output = Some("wide".to_string());
    assert_eq!(
        validate_layer_capabilities(&limits(), &kv_plan(), &plan(), verdicts).err().unwrap(),
        "decoder layer session exceeds adapter dispatch limits: deep"
    );
}

#[test]
fn layer_readbacks_are_whole_buffers() {
    let row = plan_layer_readbacks(&kv_plan(), &plan(), Operation::Step).unwrap();
    assert_eq!((row[0].buffer, row[0].bytes), (LAYER_LAYER_READBACK, 24));
    let caches = plan_layer_readbacks(&kv_plan(), &plan(), Operation::Finish).unwrap();
    assert_eq!(caches.len(), 2);
    assert_eq!(caches[1].buffer, LAYER_FINISH_VALUE_READBACK);
    assert_eq!(caches[1].bytes, kv_plan().cache_bytes);
    assert!(plan_layer_readbacks(&kv_plan(), &plan(), Operation::Logits).unwrap().is_empty());
}

#[test]
fn a_layer_session_has_its_buffers_and_bind_groups() {
    let sources = canonical_layer_sources(modules()).ok().unwrap();
    let resources = create_layer_resources(&kv_plan(), &plan(), &sources).ok().unwrap();
    assert_eq!(resources.cache_tokens, kv_plan().initial_cache_tokens);
    let kernels: Vec<&str> =
        resources.pipelines.iter().map(|pipeline| pipeline.kernel).collect();
    assert_eq!(
        kernels,
        vec![
            "rms_norm_f32",
            "gemv_f32",
            "decoder_mrope_f32",
            "decoder_kv_append_f32",
            "decoder_gqa_f32",
            "add_f32",
        ]
    );
    for (place, pipeline) in resources.pipelines.iter().enumerate() {
        assert_eq!(pipeline.place, place);
    }
    assert_eq!(resources.pipelines[2].source, sources.mrope);
    assert_eq!(resources.buffers.len(), 29);
    assert_eq!(resources.bind_groups.len(), 9);
    assert_eq!(resources.buffers[LAYER_Q_WEIGHT].size, 1536);
    assert_eq!(resources.buffers[LAYER_ROPE_SIN].size, 480);
    for group in &resources.bind_groups {
        for (index, binding) in group.bindings.iter().enumerate() {
            assert!(binding.size <= resources.buffers[binding.buffer].size);
            for other in &group.bindings[index + 1..] {
                assert_ne!(binding.buffer, other.buffer);
            }
        }
    }
    let shards: Vec<Vec<u8>> = (0..7).map(|i| vec![i as u8]).collect();
    let writes = upload_layer_operands(vec![9], vec![8], shards);
    assert_eq!(writes.len(), 9);
    assert_eq!((writes[0].buffer, writes[1].buffer), (LAYER_KEY_CACHE, LAYER_VALUE_CACHE));
    assert_eq!((writes[3].buffer, writes[3].bytes.clone()), (LAYER_Q_WEIGHT, vec![1]));
    assert_eq!((writes[8].buffer, writes[8].bytes.clone()), (LAYER_ROPE_SIN, vec![6]));
}

#[test]
fn a_layer_step_asks_for_its_gpu_work() {
    let step = AttentionStepPlan { stage_words: [[3; 4]; 7] };
    let encoding =
        encode_layer_step(&kv_plan(), &plan(), &transition(), &step, vec![0; 24]).ok().unwrap();
    assert_eq!(encoding.writes.len(), 10);
    assert_eq!(encoding.writes[0].buffer, LAYER_HIDDEN_TOKEN);
    assert_eq!(encoding.commands.len(), 10);
    let dispatches: Vec<u32> = encoding.commands[..9]
        .iter()
        .map(|command| match command {
            Command::Pass { dispatch, .. } => dispatch[0],
            Command::Copy { .. } => panic!(),
        })
        .collect();
    assert_eq!(dispatches, vec![1, 2, 3, 4, 5, 1, 2, 6, 7]);
    match &encoding.commands[9] {
        Command::Copy { source, destination, bytes, .. } => {
            assert_eq!((*source, *destination), (LAYER_ATTENTION_RESIDUAL, LAYER_LAYER_READBACK));
            assert_eq!(*bytes, 24);
        }
        Command::Pass { .. } => panic!(),
    }
    let finish = encode_layer_finish(&kv_plan());
    assert_eq!(finish.buffers.len(), 2);
    match &finish.commands[1] {
        Command::Copy { source, destination, bytes, .. } => {
            assert_eq!((*source, *destination), (LAYER_VALUE_CACHE, LAYER_FINISH_VALUE_READBACK));
            assert_eq!(*bytes, 320);
        }
        Command::Pass { .. } => panic!(),
    }
}

fn modules() -> LayerShaderModules {
    LayerShaderModules {
        rms_norm: Some("a".to_string()),
        gemv: Some("b".to_string()),
        mrope: Some("c".to_string()),
        append: Some("d".to_string()),
        attention: Some("e".to_string()),
        residual: Some("f".to_string()),
    }
}

#[test]
fn layer_reports_count_the_gpu_work() {
    let digests = layer_shader_digests(&canonical_layer_sources(modules()).ok().unwrap());
    assert_eq!(digests.residual, *blake3::hash(b"f").as_bytes());
    let created = layer_creation_diagnostics(&kv_plan(), &plan(), &digests);
    assert_eq!(created["buffer_count"], 29);
    assert_eq!(created["bind_group_count"], 9);
    assert_eq!(created["initial_upload_count"], 9);
    assert_eq!(created["shader_blake3"].as_object().unwrap().len(), 6);
    let stepped = layer_step_diagnostics(&plan(), &transition(), &digests).unwrap();
    assert_eq!(stepped["queue_write_count"], 10);
    assert_eq!(stepped["compute_pass_count"], 9);
    assert_eq!(stepped["readback_bytes"], 24);
    assert_eq!(stepped["effects"].as_array().unwrap().len(), 22);
    let finished = layer_finish_diagnostics(&kv_plan()).unwrap();
    assert_eq!(finished["readback_bytes"], 640);
    assert_eq!(finished["map_count"], 2);
    let mut large = kv_plan();
    large.cache_bytes = u64::MAX;
    assert_eq!(
        layer_finish_diagnostics_json(&large).err().unwrap(),
        "decoder layer finish readback overflowed"
    );
    for text in [
        layer_creation_diagnostics_json(&kv_plan(), &plan(), &digests).unwrap(),
        layer_step_diagnostics_json(&plan(), &transition(), &digests).unwrap(),
        layer_finish_diagnostics_json(&kv_plan()).unwrap(),
    ] {
        let value: serde_json::Value = serde_json::from_str(&text).unwrap();
        assert_eq!(value["schema_version"], 1);
    }
}

#[test]
fn layer_sources_are_listed_and_replaced() {
    let mut missing = modules();
    missing.mrope = None;
    assert_eq!(
        canonical_layer_sources(missing).err().unwrap(),
        "canonical decoder layer M-RoPE kernel is missing"
    );
    let sources = canonical_layer_sources(modules()).ok().unwrap();
    let text = layer_sources_json(&sources).unwrap();
    let value: serde_json::Value = serde_json::from_str(&text).unwrap();
    assert_eq!(value["schema_version"], 1);
    assert_eq!(value["sources"]["gemv_f32"], "b");
    assert_eq!(value["shader_blake3"].as_object().unwrap().len(), 6);
    assert_eq!(
        require_layer_override("nothing", "x"),
        Err("unknown decoder layer shader override kernel: nothing".to_string())
    );
    assert_eq!(
        require_layer_override("add_f32", ""),
        Err("decoder layer shader override source must not be empty".to_string())
    );
    let replaced = override_layer_source(sources, "add_f32", "new");
    assert_eq!(replaced.residual, "new");
    assert_eq!(replaced.gemv, "b");
}
