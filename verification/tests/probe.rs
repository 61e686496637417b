use pvlc_decoder_sessions::gpu::Command;
use pvlc_decoder_sessions::probe::{
    create_probe_pipelines, decode_probe_output, m7q1_f32_json, m7q1_probe_elements, m7q1_probe_report,
    m7q1_probe_report_json, outputs_are_countable, plan_m7q1_weight_probe, require_m7q1_f16,
    require_m7q1_f32, require_probe_device, validate_m7q1_weight_probe, ProbeOutput, ProbeOutputs,
    ProjectionTiles, PROBE_GEMV_MATRIX_F16, PROBE_LINEAR_INPUT_MAJOR_READBACK, PROBE_RMS_UNIFORM,
    PROBE_VISION_OUTPUT,
};
use pvlc_decoder_sessions::probe_parse::{
    m7q1_f32, m7q1_f32_array, m7q1_field, m7q1_object, m7q1_string, m7q1_u16_array, m7q1_u32,
    m7q1_weight_probe_from, parse_m7q1_weight_probe, WeightProbe,
};
use pvlc_decoder_sessions::stack_report::{
    probe_m7q1_precision_admission, probe_m7q1_precision_admission_json,
};
use pvlc_decoder_sessions::stack_resources::{
    LAYOUT_GEMV, LAYOUT_PROJECTION, LAYOUT_RMS, PIPELINE_GEMV_TILED_F16, PIPELINE_PROJECTION,
    PIPELINE_PROJECTION_F16, PIPELINE_RMS_NORM_F16,
};
use pvlc_decoder_sessions::stack_sources::{canonical_stack_sources, StackShaderModules};

#[test]
fn a_probe_creates_the_pipelines_that_it_runs() {
    let text = |name: &str| Some(name.to_string());
    let modules = StackShaderModules {
        rms_norm: text("a"),
        gemv: text("b"),
        gemv_tiled: text("c"),
        rms_norm_f16_weights: text("d"),
        gemv_tiled_f16_weights: text("e"),
        linear_projection_f16_weights: text("f"),
        mrope: text("g"),
        append: text("h"),
        attention: text("i"),
        swiglu: text("j"),
        residual: text("k"),
        projection: text("l"),
        prefill_mrope: text("m"),
        kv_append_range: text("n"),
        prefill_gqa: text("o"),
        split_partial: text("p"),
        split_merge: text("q"),
    };
    let sources = canonical_stack_sources(modules).ok().unwrap();
    let found: Vec<(usize, usize, &str, &str)> = create_probe_pipelines(&sources)
        .iter()
        .map(|pipeline| (pipeline.place, pipeline.layout, pipeline.kernel, pipeline.source))
        .collect();
    assert_eq!(
        found,
        vec![
            (PIPELINE_RMS_NORM_F16, LAYOUT_RMS, "rms_norm_f16_weights", "d"),
            (PIPELINE_GEMV_TILED_F16, LAYOUT_GEMV, "gemv_tiled_f16_weights", "e"),
            (PIPELINE_PROJECTION_F16, LAYOUT_PROJECTION, "linear_projection_f16_weights", "f"),
            (PIPELINE_PROJECTION, LAYOUT_PROJECTION, "vision_patch_projection_f32", "l"),
        ]
    );
}

fn numbers(count: usize) -> String {
    let list: Vec<String> = (0..count).map(|i| format!("{}", i as f64 * 0.5)).collect();
    format!("[{}]", list.join(","))
}

fn halves(list: &[u16]) -> String {
    let texts: Vec<String> = list.iter().map(|value| value.to_string()).collect();
    format!("[{}]", texts.join(","))
}

fn fixture() -> String {
    let matrix: Vec<u16> = vec![0x3c00; 2 * 1024];
    format!(
        "{{\"precision_profile\":\"balanced\",\"checkpoint_blake3\":\"{}\",\
         \"checkpoint_partition\":{{\"f16_checkpoint_shards\":11,\"f32_rope_table_shards\":2}},\
         \"rms\":{{\"rows\":2,\"width\":3,\"epsilon\":0.5,\"input\":{},\"weight_f16\":{}}},\
         \"gemv\":{{\"rows\":2,\"columns\":1024,\"matrix_f16\":{},\"vector\":{}}},\
         \"linear\":{{\"tokens\":2,\"input_width\":3,\"output_width\":2,\"input\":{},\
         \"weight_f16\":{},\"bias\":{}}},\
         \"linear_input_major\":{{\"tokens\":2,\"input_width\":3,\"output_width\":2,\"input\":{},\
         \"weight_f16\":{},\"bias\":{}}},\
         \"vision\":{{\"patches\":2,\"input_width\":3,\"output_width\":2,\"input\":{},\
         \"weight\":{},\"bias\":{}}}}}",
        "cd".repeat(32),
        numbers(6),
        halves(&[1, 2, 3]),
        halves(&matrix),
        numbers(1024),
        numbers(6),
        halves(&[1, 2, 3, 4, 5, 6]),
        numbers(2),
        numbers(6),
        halves(&[1, 4, 2, 5, 3, 6]),
        numbers(2),
        numbers(6),
        numbers(6),
        numbers(2)
    )
}

fn probe() -> WeightProbe {
    parse_m7q1_weight_probe(&fixture()).ok().unwrap()
}

fn refused(probe: &WeightProbe) -> String {
    validate_m7q1_weight_probe(probe).err().unwrap()
}

#[test]
fn a_probe_is_read() {
    let probe = probe();
    assert_eq!(probe.precision_profile, "balanced");
    assert_eq!(probe.rms.epsilon, 0.5_f32.to_bits());
    assert_eq!(probe.rms.input[3], 1.5_f32.to_bits());
    assert_eq!(probe.rms.weight_f16, vec![1, 2, 3]);
    assert_eq!(probe.gemv.vector.len(), 1024);
    assert_eq!(probe.linear_input_major.weight_f16, vec![1, 4, 2, 5, 3, 6]);
    assert_eq!(probe.vision.bias, vec![0, 0.5_f32.to_bits()]);
    assert_eq!(validate_m7q1_weight_probe(&probe), Ok(()));
}

#[test]
fn a_bad_probe_is_not_read() {
    let error = |json: &str| parse_m7q1_weight_probe(json).err().unwrap();
    assert!(!error("{").is_empty());
    assert!(!error("[]").is_empty());
    assert!(!error(&fixture().replace("\"vision\"", "\"visions\"")).is_empty());
    assert!(!error(&fixture().replace("\"rows\":2,\"width\":3", "\"rows\":-2,\"width\":3")).is_empty());
    assert!(!error(&fixture().replace("[1,2,3]", "[1,2,65536]")).is_empty());
    assert!(!error(&fixture().replace("\"epsilon\":0.5", "\"epsilon\":\"x\"")).is_empty());
    let value: serde_json::Value = serde_json::from_str(&fixture()).unwrap();
    assert!(m7q1_weight_probe_from(&value).is_ok());
}

#[test]
fn probe_fields_are_read_one_by_one() {
    let value: serde_json::Value =
        serde_json::from_str("{\"a\":7,\"b\":\"t\",\"c\":[1,2.5],\"d\":[3],\"e\":1e39}").unwrap();
    let object = m7q1_object(&value, &["a", "b", "c", "d", "e"], "thing").ok().unwrap();
    assert!(m7q1_object(&value, &["a"], "thing").is_err());
    assert_eq!(m7q1_u32(object, "a", "thing"), Ok(7));
    assert_eq!(m7q1_string(object, "b", "thing"), Ok("t".to_string()));
    assert_eq!(m7q1_f32(object, "a", "thing"), Ok(7.0_f32.to_bits()));
    assert_eq!(
        m7q1_f32_array(object, "c", "thing"),
        Ok(vec![1.0_f32.to_bits(), 2.5_f32.to_bits()])
    );
    assert_eq!(m7q1_u16_array(object, "d", "thing"), Ok(vec![3]));
    assert!(m7q1_field(object, "z", "thing").is_err());
    assert!(m7q1_u32(object, "b", "thing").is_err());
    assert!(m7q1_u16_array(object, "c", "thing").is_err());
    assert!(m7q1_f32(object, "e", "thing").is_err());
}

#[test]
fn elements_are_counted() {
    assert_eq!(m7q1_probe_elements(&[3, 4], "grid"), Ok(12));
    assert_eq!(
        m7q1_probe_elements(&[3, 0], "grid"),
        Err("M7q1 grid has a zero dimension".to_string())
    );
    assert_eq!(
        m7q1_probe_elements(&[u32::MAX, u32::MAX, u32::MAX], "grid"),
        Err("M7q1 grid element count overflowed".to_string())
    );
    assert_eq!(require_m7q1_f32(&[0, 1], 2, "row"), Ok(()));
    assert_eq!(
        require_m7q1_f32(&[0], 2, "row"),
        Err("M7q1 row length drifted from its geometry".to_string())
    );
    assert_eq!(
        require_m7q1_f32(&[f32::NAN.to_bits()], 1, "row"),
        Err("M7q1 row contains a nonfinite f32 value".to_string())
    );
    assert_eq!(
        require_m7q1_f16(&[0x7c00], 1, "row"),
        Err("M7q1 row contains a nonfinite f16 value".to_string())
    );
    assert_eq!(
        require_m7q1_f16(&[], 1, "row"),
        Err("M7q1 row length drifted from its geometry".to_string())
    );
}

#[test]
fn an_unsound_probe_is_refused() {
    let mut bad = probe();
    bad.precision_profile = "fidelity".to_string();
    assert_eq!(refused(&bad), "M7q1 weight probe precision profile drifted");
    let mut bad = probe();
    bad.checkpoint_blake3 = "cd".to_string();
    assert!(refused(&bad).contains("M7q1 checkpoint_blake3"));
    let mut bad = probe();
    bad.partition.f32_rope_table_shards = 1;
    assert_eq!(refused(&bad), "M7q1 weight probe checkpoint partition drifted");
    let mut bad = probe();
    bad.rms.epsilon = 0;
    assert_eq!(refused(&bad), "M7q1 RMS epsilon is invalid");
    let mut bad = probe();
    bad.rms.epsilon = (-1.0_f32).to_bits();
    assert_eq!(refused(&bad), "M7q1 RMS epsilon is invalid");
    let mut bad = probe();
    bad.gemv.columns = 1000;
    assert_eq!(refused(&bad), "M7q1 GEMV columns are outside the tiled decoder lattice");
    let mut bad = probe();
    bad.linear.bias.pop();
    assert_eq!(refused(&bad), "M7q1 linear bias length drifted from its geometry");
    let mut bad = probe();
    bad.linear_input_major.bias[0] = 1.0_f32.to_bits();
    assert_eq!(refused(&bad), "M7q1 input-major linear probe logical inputs drifted");
    let mut bad = probe();
    bad.linear_input_major.weight_f16.swap(0, 1);
    assert_eq!(refused(&bad), "M7q1 input-major linear probe weight transpose drifted");
    let mut bad = probe();
    bad.vision.weight.push(0);
    assert_eq!(refused(&bad), "M7q1 vision weight length drifted from its geometry");
    let mut signed = probe();
    signed.linear_input_major.bias[0] = (-0.0_f32).to_bits();
    assert_eq!(validate_m7q1_weight_probe(&signed), Ok(()));
    assert_eq!(require_probe_device(true), Ok(()));
    assert_eq!(
        require_probe_device(false),
        Err("M7q1 FP16 weight probe requires shader-f16".to_string())
    );
}

#[test]
fn a_probe_asks_for_its_gpu_work() {
    assert!(outputs_are_countable(&probe()));
    let mut vast = probe();
    vast.vision.patches = u32::MAX;
    vast.vision.output_width = u32::MAX;
    assert!(!outputs_are_countable(&vast));
    let tiles = ProjectionTiles { half_columns: 4, tile: 8 };
    let plan = plan_m7q1_weight_probe(&probe(), &tiles);
    assert_eq!(plan.buffers.len(), 26);
    assert_eq!(plan.writes.len(), 16);
    assert_eq!(plan.bind_groups.len(), 5);
    assert_eq!(plan.buffers[PROBE_GEMV_MATRIX_F16].size, 4096);
    assert_eq!(plan.buffers[PROBE_VISION_OUTPUT].size, 16);
    for group in &plan.bind_groups {
        for binding in &group.bindings {
            assert!(binding.size <= plan.buffers[binding.buffer].size);
        }
    }
    for write in &plan.writes {
        assert_eq!(write.bytes.len() as u64, plan.buffers[write.buffer].size);
    }
    let uniform = plan.writes.iter().find(|write| write.buffer == PROBE_RMS_UNIFORM).unwrap();
    assert_eq!(uniform.bytes, vec![2, 0, 0, 0, 3, 0, 0, 0, 0, 0, 0, 63, 0, 0, 0, 0]);
    let dispatches: Vec<[u32; 3]> = plan.commands[..5]
        .iter()
        .map(|command| match command {
            Command::Pass { dispatch, .. } => *dispatch,
            Command::Copy { .. } => panic!(),
        })
        .collect();
    assert_eq!(
        dispatches,
        vec![[1, 1, 1], [1, 1, 1], [1, 1, 1], [1, 1, 1], [1, 1, 1]]
    );
    match &plan.commands[8] {
        Command::Copy { destination, bytes, .. } => {
            assert_eq!((*destination, *bytes), (PROBE_LINEAR_INPUT_MAJOR_READBACK, 16));
        }
        Command::Pass { .. } => panic!(),
    }
    let mut wide = probe();
    wide.rms.rows = 65;
    wide.gemv.rows = 17;
    wide.linear.output_width = 9;
    wide.linear.tokens = 17;
    let plan = plan_m7q1_weight_probe(&wide, &tiles);
    for (index, expected) in [(0usize, [2u32, 1, 1]), (1, [3, 1, 1]), (2, [3, 3, 1])] {
        match &plan.commands[index] {
            Command::Pass { dispatch, .. } => assert_eq!(*dispatch, expected),
            Command::Copy { .. } => panic!(),
        }
    }
}

#[test]
fn probe_outputs_are_reported() {
    let one = 1.5_f32.to_le_bytes();
    assert_eq!(decode_probe_output(ProbeOutput::Rms, &one), Ok(vec![1.5_f32.to_bits()]));
    assert_eq!(
        decode_probe_output(ProbeOutput::Gemv, &one[..3]),
        Err("M7q1 GEMV output bytes are not a whole little-endian f32 sequence".to_string())
    );
    let value = m7q1_f32_json(&vec![0.1_f32.to_bits()], ProbeOutput::Linear).unwrap();
    assert_eq!(value[0].as_f64(), Some(0.1_f32 as f64));
    assert_eq!(
        m7q1_f32_json(&vec![f32::NAN.to_bits()], ProbeOutput::Vision).err().unwrap(),
        "M7q1 vision output contains a nonfinite GPU result"
    );
    let outputs = ProbeOutputs {
        rms: vec![1.0_f32.to_bits()],
        gemv: vec![2.0_f32.to_bits()],
        linear: vec![3.0_f32.to_bits()],
        linear_input_major: vec![4.0_f32.to_bits()],
        vision: vec![5.0_f32.to_bits()],
    };
    let report = m7q1_probe_report(&probe(), &outputs).unwrap();
    assert_eq!(report["outputs"]["linear_input_major"][0].as_f64(), Some(4.0));
    assert_eq!(report["effects"]["buffer_creations"], 26);
    assert_eq!(report["effects"]["queue_writes"], 16);
    assert_eq!(report["resource_plan"]["f16_checkpoint_shards"], 11);
    assert_eq!(report["checkpoint_blake3"], "cd".repeat(32));
    let text = m7q1_probe_report_json(&probe(), &outputs).unwrap();
    let value: serde_json::Value = serde_json::from_str(&text).unwrap();
    assert_eq!(value, report);
}

#[test]
fn precision_admission_is_reported() {
    assert!(probe_m7q1_precision_admission("unknown", true).is_err());
    assert_eq!(
        probe_m7q1_precision_admission("unknown", true).err().unwrap(),
        "M7q1 precision probe profile is unsupported"
    );
    let fidelity = probe_m7q1_precision_admission_json("fidelity", false).unwrap();
    let value: serde_json::Value = serde_json::from_str(&fidelity).unwrap();
    assert!(value.is_object());
}
