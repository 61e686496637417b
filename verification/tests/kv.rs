use pvlc_decoder_sessions::descriptor::{
    decoder_descriptor_from, optional_descriptor_u32, parse_decoder_descriptor_json,
    required_descriptor_u32,
};
use pvlc_decoder_sessions::family::Family;
use pvlc_decoder_sessions::geometry::kv_cache_geometry;
use pvlc_decoder_sessions::gpu::{BufferUsage, Command};
use pvlc_decoder_sessions::kv::{
    create_decoder_resources, encode_decoder_finish, encode_decoder_step, split_finish_readback,
    upload_initial_caches, validate_decoder_capabilities, KvPlan, KvStepOperands, KvStepPlan,
    KvVerdicts, KV_APPENDED_KEY, KV_APPENDED_VALUE, KV_APPEND_UNIFORM, KV_ATTENTION_OUTPUT,
    KV_ATTENTION_READBACK, KV_ATTENTION_UNIFORM, KV_FINISH_READBACK, KV_KEY_CACHE, KV_QUERY,
    KV_VALUE_CACHE,
};
use pvlc_decoder_sessions::kv_report::{
    canonical_decoder_sources, decoder_creation_diagnostics, decoder_creation_diagnostics_json,
    decoder_finish_diagnostics, decoder_finish_diagnostics_json, decoder_sources_json,
    decoder_step_diagnostics, decoder_step_diagnostics_json, override_decoder_source,
    require_decoder_override, KvSources,
};
use pvlc_decoder_sessions::lifecycle::Operation;
use pvlc_decoder_sessions::limits::DeviceLimits;
use pvlc_decoder_sessions::operands::{
    bytes_to_words, operand_to_bytes, pack_to_bytes, plan_refusal, prepare_decoder_begin,
    prepare_decoder_step, settle_decoder_step, PlanSite,
};
use pvlc_decoder_sessions::readback::plan_kv_readbacks;

fn plan() -> KvPlan {
    KvPlan {
        query_heads: 4,
        key_value_heads: 2,
        head_dim: 8,
        initial_cache_tokens: 3,
        cache_capacity: 10,
        key_value_width: 16,
        attention_bytes: 128,
        cache_bytes: 640,
        split_partials_bytes: 2048,
        append_dispatch: [1, 2, 3],
        attention_dispatch: [4, 5, 6],
    }
}

fn step() -> KvStepPlan {
    KvStepPlan {
        cache_tokens_before: 3,
        cache_tokens_after: 4,
        append_words: [1, 2, 3, 4],
        attention_words: [5, 6, 7, 0x0102_0304],
        append_dispatch: [7, 1, 1],
        attention_dispatch: [8, 1, 1],
        split_words: [[0; 4]; 2],
        split_partial_dispatch: [1, 1, 1],
        split_merge_dispatch: [1, 1, 1],
    }
}

fn limits() -> DeviceLimits {
    DeviceLimits {
        max_storage_buffers_per_shader_stage: 8,
        max_storage_buffer_binding_size: 4096,
        max_buffer_size: 8192,
        min_storage_buffer_offset_alignment: 256,
        max_compute_workgroups_per_dimension: 65535,
    }
}

const DESCRIPTOR: &str = "{\"schema_version\":1,\"query_heads\":4,\"key_value_heads\":2,\
    \"head_dim\":8,\"prefix_tokens\":3,\"cache_capacity\":10}";

#[test]
fn a_session_descriptor_is_read() {
    let descriptor = parse_decoder_descriptor_json(DESCRIPTOR).unwrap();
    let caches = kv_cache_geometry(&descriptor);
    assert_eq!(caches.query_heads, descriptor.query_heads);
    assert_eq!(caches.key_value_heads, descriptor.key_value_heads);
    assert_eq!(caches.prefix_tokens, descriptor.prefix_tokens);
    assert_eq!(descriptor.query_heads, 4);
    assert_eq!(descriptor.key_value_heads, 2);
    assert_eq!(descriptor.head_dim, 8);
    assert_eq!(descriptor.prefix_tokens, 3);
    assert_eq!(descriptor.cache_capacity, 10);
}

#[test]
fn a_bad_session_descriptor_is_refused() {
    let lead = "invalid decoder KV session descriptor";
    let refused = |json: &str| parse_decoder_descriptor_json(json).err().unwrap();
    assert!(refused("{").starts_with(&format!("{} json: ", lead)));
    assert_eq!(refused("7"), format!("{}: expected an object", lead));
    assert_eq!(
        refused(&DESCRIPTOR.replace("head_dim", "head_dims")),
        format!("{}: unknown field head_dims", lead)
    );
    assert_eq!(
        refused(&DESCRIPTOR.replace(",\"cache_capacity\":10", "")),
        format!("{}: missing field cache_capacity", lead)
    );
    assert_eq!(
        refused(&DESCRIPTOR.replace("\"schema_version\":1", "\"schema_version\":2")),
        format!("{} schema version", lead)
    );
    assert_eq!(
        refused(&DESCRIPTOR.replace("\"head_dim\":8", "\"head_dim\":-8")),
        format!("{}: field head_dim must be an unsigned integer", lead)
    );
    assert_eq!(
        refused(&DESCRIPTOR.replace("\"head_dim\":8", "\"head_dim\":4294967296")),
        format!("{}: field head_dim is out of range", lead)
    );
}

#[test]
fn descriptor_fields_are_read_one_by_one() {
    let value: serde_json::Value = serde_json::from_str("{\"a\":7,\"b\":\"x\"}").unwrap();
    let object = value.as_object().unwrap();
    assert_eq!(required_descriptor_u32(Family::Layer, object, "a"), Ok(7));
    assert_eq!(
        required_descriptor_u32(Family::Layer, object, "c"),
        Err("invalid decoder layer session descriptor: missing field c".to_string())
    );
    assert_eq!(optional_descriptor_u32(Family::Stack, object, "c"), Ok(0));
    assert_eq!(optional_descriptor_u32(Family::Stack, object, "a"), Ok(7));
    assert!(optional_descriptor_u32(Family::Stack, object, "b").is_err());
    assert!(decoder_descriptor_from(object).is_err());
}

#[test]
fn operands_must_be_whole() {
    assert_eq!(operand_to_bytes(Family::Kv, Some(vec![1, 2])), Ok(vec![1, 2]));
    assert_eq!(
        operand_to_bytes(Family::Kv, None),
        Err("decoder KV operand must be a Uint8Array view".to_string())
    );
    assert_eq!(
        pack_to_bytes(Family::Stack, None),
        Err("decoder stack weight pack must be a Uint8Array view".to_string())
    );
    assert_eq!(bytes_to_words(&[1, 0, 0, 0, 0, 0, 128, 63], "row"), Ok(vec![1, 0x3f80_0000]));
    assert_eq!(
        bytes_to_words(&[1, 0, 0], "row"),
        Err("row bytes are not a whole little-endian f32 sequence".to_string())
    );
    assert_eq!(
        plan_refusal(PlanSite::KvStep, "capacity"),
        "invalid decoder KV step operands or capacity: capacity"
    );
}

#[test]
fn a_session_is_admitted_with_its_caches() {
    let inputs = prepare_decoder_begin(
        false,
        false,
        DESCRIPTOR,
        Some(vec![0, 0, 128, 63]),
        Some(vec![0, 0, 0, 64]),
    )
    .ok()
    .unwrap();
    assert_eq!(inputs.descriptor.head_dim, 8);
    assert_eq!(inputs.key_words, vec![1.0_f32.to_bits()]);
    assert_eq!(inputs.value_words, vec![2.0_f32.to_bits()]);
    assert_eq!(inputs.value_cache_bytes, vec![0, 0, 0, 64]);
    let refused = |poisoned, busy, key: Option<Vec<u8>>, value: Option<Vec<u8>>| {
        prepare_decoder_begin(poisoned, busy, DESCRIPTOR, key, value).err().unwrap()
    };
    assert_eq!(
        refused(true, true, Some(vec![]), Some(vec![])),
        "decoder KV session is terminally poisoned"
    );
    assert_eq!(
        refused(false, true, Some(vec![]), Some(vec![])),
        "decoder KV session is already active or busy with another operation"
    );
    assert_eq!(
        refused(false, false, None, Some(vec![])),
        "decoder KV operand must be a Uint8Array view"
    );
    assert_eq!(
        refused(false, false, Some(vec![1]), Some(vec![1])),
        "initial K cache bytes are not a whole little-endian f32 sequence"
    );
    assert_eq!(
        refused(false, false, Some(vec![]), Some(vec![1])),
        "initial V cache bytes are not a whole little-endian f32 sequence"
    );
}

#[test]
fn a_step_is_admitted_with_its_rows() {
    let inputs = prepare_decoder_step(
        Some(vec![0; 4]),
        Some(vec![0, 0, 128, 63]),
        Some(vec![0, 0, 0, 64]),
    )
    .ok()
    .unwrap();
    assert_eq!(inputs.query_words, vec![0]);
    assert_eq!(inputs.appended_key_words, vec![0x3f80_0000]);
    assert_eq!(inputs.operands.appended_value_bytes, vec![0, 0, 0, 64]);
    assert!(prepare_decoder_step(Some(vec![0; 3]), Some(vec![]), Some(vec![])).is_err());
    assert!(prepare_decoder_step(Some(vec![]), None, Some(vec![])).is_err());
}

#[test]
fn a_device_must_be_able_to_run_the_session() {
    let none = || KvVerdicts { append: None, attention: None };
    assert_eq!(validate_decoder_capabilities(&limits(), &plan(), none()), Ok(()));
    let refused = |limits: DeviceLimits, plan: KvPlan, verdicts: KvVerdicts| {
        validate_decoder_capabilities(&limits, &plan, verdicts).err().unwrap()
    };
    let mut small = limits();
    small.max_storage_buffers_per_shader_stage = 3;
    assert_eq!(
        refused(small, plan(), none()),
        "decoder KV session requires four storage buffers per shader stage"
    );
    assert_eq!(
        refused(
            limits(),
            plan(),
            KvVerdicts { append: None, attention: Some("too wide".to_string()) }
        ),
        "decoder KV session exceeds adapter dispatch limits: too wide"
    );
    let mut small = limits();
    small.max_storage_buffer_binding_size = 639;
    assert_eq!(
        refused(small, plan(), none()),
        "decoder session compact cache exceeds the adapter storage buffer binding limit"
    );
    let mut small = limits();
    small.max_buffer_size = 1279;
    assert_eq!(
        refused(small, plan(), none()),
        "decoder KV session readback exceeds the adapter buffer size limit"
    );
    let mut large = plan();
    large.cache_bytes = u64::MAX;
    let mut ample = limits();
    ample.max_storage_buffer_binding_size = u64::MAX;
    assert_eq!(
        refused(ample, large, none()),
        "decoder KV cache readback byte size overflowed"
    );
    let both = KvVerdicts {
        append: Some("too deep".to_string()),
        attention: Some("too wide".to_string()),
    };
    assert_eq!(
        refused(limits(), plan(), both),
        "decoder KV session exceeds adapter dispatch limits: too deep"
    );
}

fn sources() -> KvSources {
    KvSources { append: "fn append() {}".to_string(), attention: "fn attend() {}".to_string() }
}

#[test]
fn a_session_has_its_pipelines() {
    let sources = sources();
    let resources = create_decoder_resources(&plan(), &sources).ok().unwrap();
    let found: Vec<(usize, &str, &str)> = resources
        .pipelines
        .iter()
        .map(|pipeline| (pipeline.place, pipeline.kernel, pipeline.source))
        .collect();
    assert_eq!(
        found,
        vec![
            (0, "decoder_kv_append_f32", "fn append() {}"),
            (1, "decoder_gqa_f32", "fn attend() {}"),
        ]
    );
    for (index, group) in resources.bind_groups.iter().enumerate() {
        assert_eq!(group.pipeline, index);
    }
}

#[test]
fn a_step_that_cannot_be_planned_is_refused() {
    let inputs =
        || prepare_decoder_step(Some(vec![0; 8]), Some(vec![0; 4]), Some(vec![0; 4])).ok().unwrap();
    let refused = settle_decoder_step(inputs(), Err("cache is full".to_string()));
    assert_eq!(
        refused.err().unwrap(),
        "invalid decoder KV step operands or capacity: cache is full"
    );
    let (planned, operands) = settle_decoder_step(inputs(), Ok(step())).ok().unwrap();
    assert_eq!(planned.cache_tokens_after, 4);
    assert_eq!(operands.query_bytes, vec![0; 8]);
    assert_eq!(
        prepare_decoder_step(Some(vec![0; 7]), Some(vec![0; 4]), Some(vec![0; 4])).err().unwrap(),
        "step query bytes are not a whole little-endian f32 sequence"
    );
}

#[test]
fn kv_readbacks_are_whole_buffers() {
    let row = plan_kv_readbacks(&plan(), Operation::Step).unwrap();
    let sources = sources();
    let resources = create_decoder_resources(&plan(), &sources).ok().unwrap();
    assert_eq!(row.len(), 1);
    assert_eq!(row[0].buffer, KV_ATTENTION_READBACK);
    assert_eq!(row[0].bytes, resources.buffers[KV_ATTENTION_READBACK].size);
    let caches = plan_kv_readbacks(&plan(), Operation::Finish).unwrap();
    assert_eq!((caches[0].buffer, caches[0].bytes), (KV_FINISH_READBACK, 1280));
    assert!(plan_kv_readbacks(&plan(), Operation::Begin).unwrap().is_empty());
    let mut vast = plan();
    vast.cache_bytes = u64::MAX;
    assert_eq!(
        plan_kv_readbacks(&vast, Operation::Finish).err().unwrap(),
        "decoder KV finish readback overflowed"
    );
}

#[test]
fn a_session_has_its_buffers_and_bind_groups() {
    let sources = sources();
    let resources = create_decoder_resources(&plan(), &sources).ok().unwrap();
    assert_eq!(resources.cache_tokens, plan().initial_cache_tokens);
    assert_eq!(resources.buffers.len(), 9);
    assert_eq!(resources.buffers[KV_KEY_CACHE].size, 640);
    assert_eq!(resources.buffers[KV_KEY_CACHE].usage, BufferUsage::StorageCache);
    assert_eq!(resources.buffers[KV_ATTENTION_UNIFORM].size, 16);
    assert_eq!(resources.buffers[KV_ATTENTION_READBACK].usage, BufferUsage::Readback);
    assert_eq!(resources.bind_groups.len(), 2);
    for group in &resources.bind_groups {
        for (index, binding) in group.bindings.iter().enumerate() {
            assert!(binding.size <= resources.buffers[binding.buffer].size);
            for other in &group.bindings[index + 1..] {
                assert_ne!(binding.buffer, other.buffer);
            }
        }
    }
    let writes = upload_initial_caches(vec![1], vec![2]);
    assert_eq!(writes[0].buffer, KV_KEY_CACHE);
    assert_eq!(writes[1].buffer, KV_VALUE_CACHE);
    assert_eq!(writes[1].bytes, vec![2]);
}

#[test]
fn a_step_asks_for_its_gpu_work() {
    let operands = KvStepOperands {
        query_bytes: vec![1; 128],
        appended_key_bytes: vec![2; 64],
        appended_value_bytes: vec![3; 64],
    };
    let encoding = encode_decoder_step(&plan(), &step(), operands);
    let places: Vec<usize> = encoding.writes.iter().map(|write| write.buffer).collect();
    assert_eq!(
        places,
        vec![KV_QUERY, KV_APPENDED_KEY, KV_APPENDED_VALUE, KV_APPEND_UNIFORM, KV_ATTENTION_UNIFORM]
    );
    assert_eq!(
        encoding.writes[4].bytes,
        vec![5, 0, 0, 0, 6, 0, 0, 0, 7, 0, 0, 0, 4, 3, 2, 1]
    );
    assert_eq!(encoding.commands.len(), 3);
    match &encoding.commands[0] {
        Command::Pass { pipeline, bind_group, dispatch, offsets } => {
            assert_eq!((*pipeline, *bind_group, *dispatch), (0, 0, [7, 1, 1]));
            assert!(offsets.is_empty());
        }
        Command::Copy { .. } => panic!(),
    }
    match &encoding.commands[2] {
        Command::Copy { source, source_offset, destination, destination_offset, bytes } => {
            assert_eq!((*source, *destination), (KV_ATTENTION_OUTPUT, KV_ATTENTION_READBACK));
            assert_eq!((*source_offset, *destination_offset, *bytes), (0, 0, 128));
        }
        Command::Pass { .. } => panic!(),
    }
}

#[test]
fn a_finish_brings_both_caches_back() {
    let encoding = encode_decoder_finish(&plan()).ok().unwrap();
    assert_eq!(encoding.buffers.len(), 1);
    assert_eq!(encoding.buffers[0].size, 1280);
    match &encoding.commands[1] {
        Command::Copy { source, destination, destination_offset, bytes, .. } => {
            assert_eq!((*source, *destination), (KV_VALUE_CACHE, KV_FINISH_READBACK));
            assert_eq!((*destination_offset, *bytes), (640, 640));
        }
        Command::Pass { .. } => panic!(),
    }
    let mut mapped = vec![1u8; 640];
    mapped.extend_from_slice(&[2u8; 640]);
    let (key_cache, value_cache) = split_finish_readback(mapped, &plan()).unwrap();
    assert_eq!(key_cache, vec![1u8; 640]);
    assert_eq!(value_cache, vec![2u8; 640]);
    let mut large = plan();
    large.cache_bytes = u64::MAX;
    assert_eq!(
        encode_decoder_finish(&large).err().unwrap(),
        "decoder KV finish readback overflowed"
    );
    assert_eq!(
        decoder_finish_diagnostics_json(&large).err().unwrap(),
        "decoder KV finish readback overflowed"
    );
}

#[test]
fn reports_count_the_gpu_work() {
    let created = decoder_creation_diagnostics(&plan(), &[1; 32], &[2; 32]);
    assert_eq!(created["buffer_count"], 9);
    assert_eq!(created["pipeline_count"], 2);
    assert_eq!(created["bind_group_count"], 2);
    assert_eq!(created["initial_cache_write_count"], 2);
    assert_eq!(created["shader_blake3"]["decoder_gqa_f32"], "02".repeat(32));
    assert_eq!(created["captured_errors"].as_array().unwrap().len(), 0);
    assert_eq!(created["checked_error_scopes"][1], "out_of_memory");
    let stepped = decoder_step_diagnostics(&plan(), &step(), &[1; 32], &[2; 32]);
    assert_eq!(stepped["queue_write_count"], 5);
    assert_eq!(stepped["dispatch_count"], 2);
    assert_eq!(stepped["copy_count"], 1);
    assert_eq!(stepped["readback_bytes"], 128);
    assert_eq!(stepped["effects"].as_array().unwrap().len(), 10);
    assert_eq!(stepped["effects"][9]["kind"], "map_attention");
    assert_eq!(stepped["effects"][9]["ordinal"], 10);
    assert_eq!(stepped["cache_tokens_after"], 4);
    let finished = decoder_finish_diagnostics(&plan()).unwrap();
    assert_eq!(finished["readback_bytes"], 1280);
    assert_eq!(finished["map_count"], 1);
    for text in [
        decoder_creation_diagnostics_json(&plan(), &[1; 32], &[2; 32]).unwrap(),
        decoder_step_diagnostics_json(&plan(), &step(), &[1; 32], &[2; 32]).unwrap(),
        decoder_finish_diagnostics_json(&plan()).unwrap(),
    ] {
        let value: serde_json::Value = serde_json::from_str(&text).unwrap();
        assert_eq!(value["schema_version"], 1);
    }
}

#[test]
fn shader_sources_are_listed_and_replaced() {
    let sources =
        canonical_decoder_sources(Some("fn a() {}".to_string()), Some("\"b\"".to_string()))
            .ok()
            .unwrap();
    assert_eq!(
        canonical_decoder_sources(None, None).err().unwrap(),
        "canonical decoder append kernel is missing"
    );
    assert_eq!(
        canonical_decoder_sources(Some(String::new()), None).err().unwrap(),
        "canonical decoder GQA kernel is missing"
    );
    let text = decoder_sources_json(&sources).unwrap();
    let value: serde_json::Value = serde_json::from_str(&text).unwrap();
    assert_eq!(value["sources"]["decoder_gqa_f32"], "\"b\"");
    assert_eq!(
        value["shader_blake3"]["decoder_kv_append_f32"],
        blake3::hash(b"fn a() {}").to_hex().to_string()
    );
    assert_eq!(require_decoder_override("decoder_gqa_f32", "x"), Ok(()));
    assert_eq!(
        require_decoder_override("other", "x"),
        Err("unknown decoder shader override kernel: other".to_string())
    );
    assert_eq!(
        require_decoder_override("decoder_gqa_f32", ""),
        Err("decoder shader override source must not be empty".to_string())
    );
    let replaced = override_decoder_source(sources, "decoder_gqa_f32", "c");
    assert_eq!(replaced.append, "fn a() {}");
    assert_eq!(replaced.attention, "c");
}
