use pvlc_decoder_sessions::family::{
    DecoderPins, Family, WeightStorage, PINNED_KEY_VALUE_WIDTH, PINNED_QUERY_WIDTH,
    PINNED_VOCAB_SIZE,
};
use pvlc_decoder_sessions::pack::{
    pack_align_up, pack_hex_digest, pack_hex_nibble, pack_padding_is_zero, pack_slice, pack_usize,
};
use pvlc_decoder_sessions::pack_descriptor::DescriptorRequest;
use pvlc_decoder_sessions::weight_pack::{
    expected_shard_bytes, parse_layer_weight_pack, parse_stack_weight_pack, parse_weight_pack,
    WeightPack,
};

const REVISION: &str = "66317acc4c9fc17bd154591ce650735cd2855f3e";
const LAYER_IDS: [&str; 7] = [
    "weights.input_layernorm",
    "weights.q_proj",
    "weights.k_proj",
    "weights.v_proj",
    "weights.o_proj",
    "weights.mrope_cos",
    "weights.mrope_sin",
];
const STACK_IDS: [&str; 13] = [
    "weights.input_layernorm",
    "weights.q_proj",
    "weights.k_proj",
    "weights.v_proj",
    "weights.o_proj",
    "weights.mrope_cos",
    "weights.mrope_sin",
    "weights.post_attention_layernorm",
    "weights.gate_proj",
    "weights.up_proj",
    "weights.down_proj",
    "weights.final_layernorm",
    "weights.lm_head",
];

fn pins() -> DecoderPins {
    DecoderPins {
        layers: 2,
        hidden_size: 2,
        intermediate_size: 3,
        query_heads: 16,
        key_value_heads: 2,
        head_dim: 4,
        mrope_sections: [16, 24, 24],
        rms_norm_epsilon: 1e-5_f32.to_bits(),
    }
}

struct Section {
    id: String,
    kind: u8,
    alignment: u32,
    payload: Vec<u8>,
}

fn manifest(profile: &str) -> String {
    format!(
        "{{\"compiler_build\":\"{}\",\"compiler_model_abi\":1,\"context_limit\":4096,\
         \"model_id\":\"PaddlePaddle/PaddleOCR-VL-1.6\",\"model_revision\":\"{}\",\
         \"precision_profile\":\"{}\",\"resolution_buckets\":[[28,56]]}}\n",
        "0123456789abcdef".repeat(4),
        REVISION,
        profile
    )
}

fn assemble(manifest: &str, sections: &[Section]) -> Vec<u8> {
    let mut directory_length = 0usize;
    for section in sections {
        directory_length += (56 + section.id.len()).div_ceil(8) * 8;
    }
    let directory_end = 32 + manifest.len() + directory_length;
    let mut directory: Vec<u8> = Vec::new();
    let mut body: Vec<u8> = Vec::new();
    for section in sections {
        let previous = directory_end + body.len();
        let offset = previous.div_ceil(section.alignment as usize) * section.alignment as usize;
        body.resize(offset - directory_end, 0);
        let start = directory.len();
        directory.extend_from_slice(&(section.id.len() as u16).to_le_bytes());
        directory.push(section.kind);
        directory.push(0);
        directory.extend_from_slice(&section.alignment.to_le_bytes());
        directory.extend_from_slice(&(offset as u64).to_le_bytes());
        directory.extend_from_slice(&(section.payload.len() as u64).to_le_bytes());
        directory.extend_from_slice(blake3::hash(&section.payload).as_bytes());
        directory.extend_from_slice(section.id.as_bytes());
        let padded = (directory.len() - start).div_ceil(8) * 8;
        directory.resize(start + padded, 0);
        body.extend_from_slice(&section.payload);
    }
    assert_eq!(directory.len(), directory_length);
    let mut pack: Vec<u8> = b"PVLCPK01".to_vec();
    pack.extend_from_slice(&1u32.to_le_bytes());
    pack.extend_from_slice(&(manifest.len() as u32).to_le_bytes());
    pack.extend_from_slice(&(directory_length as u32).to_le_bytes());
    pack.extend_from_slice(&(sections.len() as u32).to_le_bytes());
    pack.extend_from_slice(&((directory_end + body.len()) as u64).to_le_bytes());
    pack.extend_from_slice(manifest.as_bytes());
    pack.extend_from_slice(&directory);
    pack.extend_from_slice(&body);
    pack
}

fn weights(bytes: usize, storage: WeightStorage, seed: usize) -> Vec<u8> {
    match storage {
        WeightStorage::F32 => (0..bytes / 4)
            .flat_map(|i| (((i + seed) % 97) as f32 * 0.25 - 3.0).to_le_bytes())
            .collect(),
        WeightStorage::F16 => (0..bytes / 2)
            .flat_map(|i| (0x3c00u16 + ((i + seed) % 512) as u16).to_le_bytes())
            .collect(),
    }
}

fn shard_size(family: Family, shard: usize, capacity: u32, storage: WeightStorage) -> usize {
    expected_shard_bytes(family, &pins(), shard, capacity, storage).unwrap() as usize
}

fn sections_of(
    family: Family,
    ids: &[&str],
    prefix: u32,
    capacity: u32,
    storage: WeightStorage,
) -> Vec<Section> {
    let mut shards: Vec<Section> = Vec::new();
    let mut pinned: Vec<String> = Vec::new();
    for (index, id) in ids.iter().enumerate() {
        let stored = if index == 5 || index == 6 { WeightStorage::F32 } else { storage };
        let payload = weights(shard_size(family, index, capacity, storage), stored, index);
        let dtype = match (storage, stored) {
            (WeightStorage::F32, _) => "",
            (_, WeightStorage::F32) => ",\"dtype\":\"f32\"",
            (_, WeightStorage::F16) => ",\"dtype\":\"f16\"",
        };
        pinned.push(format!(
            "\"{}\":{{\"bytes\":{},\"blake3\":\"{}\"{}}}",
            id,
            payload.len(),
            blake3::hash(&payload).to_hex(),
            dtype
        ));
        shards.push(Section { id: id.to_string(), kind: 2, alignment: 256, payload });
    }
    let stack_fields = match family {
        Family::Layer => String::new(),
        _ => "\"layers\":2,\"intermediate_size\":3,".to_string(),
    };
    let storage_fields = match storage {
        WeightStorage::F32 => String::new(),
        WeightStorage::F16 => format!(
            "\"checkpoint_blake3\":\"{}\",\"checkpoint_bytes\":9,\"weight_storage\":\"f16\",",
            "ab".repeat(32)
        ),
    };
    let descriptor = format!(
        "{{\"schema_version\":1,\"oracle\":\"synthetic\",\"case_id\":\"unit\",\
         \"model_revision\":\"{}\",{}{}\"hidden_size\":2,\"query_heads\":16,\
         \"key_value_heads\":2,\"head_dim\":4,\"query_width\":2048,\"key_value_width\":256,\
         \"prefix_tokens\":{},\"cache_capacity\":{},\"rms_norm_epsilon\":0.00001,\
         \"mrope_sections\":[16,24,24],\"shards\":{{{}}}}}\n",
        REVISION,
        stack_fields,
        storage_fields,
        prefix,
        capacity,
        pinned.join(",")
    );
    let id = match family {
        Family::Layer => "ir.decoder_layer_00_attention_block",
        _ => "ir.decoder_stack_00",
    };
    let mut sections = vec![Section {
        id: id.to_string(),
        kind: 1,
        alignment: 8,
        payload: descriptor.into_bytes(),
    }];
    sections.append(&mut shards);
    sections
}

fn layer_sections() -> Vec<Section> {
    sections_of(Family::Layer, &LAYER_IDS, 2, 5, WeightStorage::F32)
}

fn layer_pack() -> Vec<u8> {
    assemble(&manifest("fidelity"), &layer_sections())
}

fn layer_error(pack: &[u8]) -> String {
    parse_layer_weight_pack(&pins(), pack, 2, 5).err().unwrap()
}

fn with_descriptor(from: &str, to: &str) -> Vec<u8> {
    let mut sections = layer_sections();
    let text = String::from_utf8(sections[0].payload.clone()).unwrap();
    assert!(text.contains(from));
    sections[0].payload = text.replace(from, to).into_bytes();
    assemble(&manifest("fidelity"), &sections)
}

fn with_manifest(from: &str, to: &str) -> Vec<u8> {
    let text = manifest("fidelity");
    assert!(text.contains(from));
    assemble(&text.replace(from, to), &layer_sections())
}

#[test]
fn a_sound_layer_pack_yields_its_shards() {
    let sections = layer_sections();
    let pack: WeightPack = parse_layer_weight_pack(&pins(), &layer_pack(), 2, 5).unwrap();
    assert_eq!(pack.weight_storage, WeightStorage::F32);
    assert_eq!(pack.checkpoint_blake3, None);
    assert_eq!(pack.shards.len(), 7);
    for index in 0..7 {
        assert_eq!(pack.shards[index], sections[index + 1].payload);
    }
}

#[test]
fn a_sound_stack_pack_yields_its_shards() {
    for (count, prefill) in [(11usize, false), (13, false), (11, true), (13, true)] {
        let prefix = if prefill { 0 } else { 2 };
        let sections =
            sections_of(Family::Stack, &STACK_IDS[..count], prefix, 5, WeightStorage::F32);
        let bytes = assemble(&manifest("fidelity"), &sections);
        let pack = parse_stack_weight_pack(&pins(), &bytes, prefix, 5, prefill).unwrap();
        assert_eq!(pack.shards.len(), count);
        for index in 0..count {
            assert_eq!(pack.shards[index], sections[index + 1].payload);
        }
    }
}

#[test]
fn a_half_precision_stack_pack_names_its_checkpoint() {
    let sections = sections_of(Family::Stack, &STACK_IDS, 2, 5, WeightStorage::F16);
    let bytes = assemble(&manifest("balanced"), &sections);
    let pack = parse_stack_weight_pack(&pins(), &bytes, 2, 5, false).unwrap();
    assert_eq!(pack.weight_storage, WeightStorage::F16);
    assert_eq!(pack.checkpoint_blake3, Some([0xab; 32]));
    assert_eq!(pack.shards[12].len(), 2 * 2 * PINNED_VOCAB_SIZE as usize);
    assert_eq!(pack.shards[5].len(), 3 * 5 * 4 * 4);
}

#[test]
fn a_layer_pack_admits_no_half_precision() {
    let bytes = assemble(&manifest("balanced"), &layer_sections());
    assert_eq!(
        layer_error(&bytes),
        "decoder layer weight pack manifest precision_profile drifted"
    );
    let sections = sections_of(Family::Stack, &STACK_IDS[..11], 2, 5, WeightStorage::F32);
    let stack = assemble(&manifest("turbo"), &sections);
    assert_eq!(
        parse_stack_weight_pack(&pins(), &stack, 2, 5, false).err().unwrap(),
        "decoder stack weight pack manifest precision_profile is unsupported"
    );
}

#[test]
fn the_header_of_a_pack_is_checked() {
    let good = layer_pack();
    assert_eq!(
        layer_error(&good[..31]),
        "decoder layer weight pack is shorter than its header"
    );
    let cases: [(usize, u8, &str); 4] = [
        (0, b'X', "decoder layer weight pack magic mismatch"),
        (8, 2, "decoder layer weight pack version is unsupported"),
        (20, 9, "decoder layer weight pack section count drifted"),
        (24, 0xff, "decoder layer weight pack declared length drifted"),
    ];
    for (place, byte, message) in cases {
        let mut pack = good.clone();
        pack[place] = byte;
        assert_eq!(layer_error(&pack), message);
    }
    let mut pack = good.clone();
    pack[19] = 0x7f;
    assert_eq!(
        layer_error(&pack),
        "decoder layer weight pack prefix exceeds the file"
    );
}

#[test]
fn every_changed_byte_of_a_pack_is_found() {
    let good = assemble(&manifest("fidelity"), &layer_sections());
    let word = |at: usize| {
        u32::from_le_bytes([good[at], good[at + 1], good[at + 2], good[at + 3]]) as usize
    };
    let directory_end = 32 + word(12) + word(16);
    assert!(parse_layer_weight_pack(&pins(), &good, 2, 5).is_ok());
    let step = (good.len() - directory_end) / 97 + 1;
    for place in (directory_end..good.len()).step_by(step) {
        let mut pack = good.clone();
        pack[place] ^= 1;
        assert!(parse_layer_weight_pack(&pins(), &pack, 2, 5).is_err());
    }
    let mut longer = good.clone();
    longer.push(0);
    assert!(parse_layer_weight_pack(&pins(), &longer, 2, 5).is_err());
    assert!(parse_layer_weight_pack(&pins(), &good[..good.len() - 1], 2, 5).is_err());
}

#[test]
fn the_manifest_of_a_pack_is_checked() {
    let cases: [(&str, &str, &str); 12] = [
        ("\n", "", "manifest is not newline-terminated canonical JSON"),
        ("\n", "\n\n", "manifest is not newline-terminated canonical JSON"),
        ("{\"compiler_build\"", "[{\"compiler_build\"", ""),
        ("\"context_limit\":4096,", "", "manifest is missing field context_limit"),
        ("\"context_limit\"", "\"context_limits\"", "manifest has unknown field context_limits"),
        ("PaddleOCR-VL-1.6", "PaddleOCR-VL-1.5", "manifest model_id drifted"),
        ("66317acc", "66317acd", "manifest model_revision drifted"),
        ("\"compiler_model_abi\":1", "\"compiler_model_abi\":2", "manifest compiler_model_abi drifted"),
        ("\"compiler_model_abi\":1", "\"compiler_model_abi\":-1", "manifest field compiler_model_abi must be an unsigned integer"),
        ("\"context_limit\":4096", "\"context_limit\":0", "manifest context_limit drifted"),
        ("[[28,56]]", "[]", "manifest resolution_buckets drifted"),
        ("[[28,56]]", "[[28,0]]", "manifest resolution bucket drifted"),
    ];
    for (from, to, message) in cases {
        let error = layer_error(&with_manifest(from, to));
        if message.is_empty() {
            assert!(error.starts_with("decoder layer weight pack manifest JSON is invalid: "));
        } else {
            assert_eq!(error, format!("decoder layer weight pack {}", message));
        }
    }
    assert_eq!(
        layer_error(&with_manifest("[[28,56]]", "[7]")),
        "decoder layer weight pack manifest resolution bucket must be a pair"
    );
    assert_eq!(
        layer_error(&with_manifest("[[28,56]]", "7")),
        "decoder layer weight pack manifest resolution_buckets must be an array"
    );
    assert_eq!(
        layer_error(&with_manifest("\"model_id\":\"PaddlePaddle/PaddleOCR-VL-1.6\"", "\"model_id\":7")),
        "decoder layer weight pack manifest field model_id must be a string"
    );
    let array = assemble("[1]\n", &layer_sections());
    assert_eq!(
        layer_error(&array),
        "decoder layer weight pack manifest must be a JSON object"
    );
}

#[test]
fn a_manifest_that_is_no_text_is_refused() {
    let mut pack = layer_pack();
    pack[40] = 0xff;
    let error = layer_error(&pack);
    assert_eq!(
        error,
        "decoder layer weight pack manifest UTF-8 is invalid: \
         invalid utf-8 sequence of 1 bytes from index 8"
    );
}

#[test]
fn the_directory_of_a_pack_is_checked() {
    let good = layer_pack();
    let start = 32 + manifest("fidelity").len();
    let first = "ir.decoder_layer_00_attention_block";
    let mut pack = good.clone();
    pack[start + 3] = 1;
    assert_eq!(
        layer_error(&pack),
        "decoder layer weight pack directory reserved byte is nonzero"
    );
    let mut pack = good.clone();
    pack[start + 2] = 2;
    assert_eq!(
        layer_error(&pack),
        format!("decoder layer weight pack section {} kind drifted", first)
    );
    for alignment in [0u32, 3, 8192] {
        let mut pack = good.clone();
        pack[start + 4..start + 8].copy_from_slice(&alignment.to_le_bytes());
        assert_eq!(
            layer_error(&pack),
            format!("decoder layer weight pack section {} alignment is invalid", first)
        );
    }
    let mut pack = good.clone();
    pack[start + 56] = b'x';
    assert_eq!(
        layer_error(&pack),
        format!("decoder layer weight pack section order drifted at {}", first)
    );
    let mut pack = good.clone();
    pack[start + 56] = 0xff;
    assert!(layer_error(&pack)
        .starts_with("decoder layer weight pack directory entry id UTF-8 is invalid: "));
    let mut pack = good.clone();
    pack[start + 56 + first.len()] = 1;
    assert_eq!(
        layer_error(&pack),
        format!("decoder layer weight pack directory entry {} contains nonzero padding", first)
    );
    let mut pack = good.clone();
    pack[start..start + 2].copy_from_slice(&0xffffu16.to_le_bytes());
    assert_eq!(
        layer_error(&pack),
        "decoder layer weight pack directory entry is truncated"
    );
}

#[test]
fn the_sections_of_a_pack_are_checked() {
    let good = layer_pack();
    let start = 32 + manifest("fidelity").len();
    let first = "ir.decoder_layer_00_attention_block";
    let mut pack = good.clone();
    pack[start + 8] ^= 8;
    assert_eq!(
        layer_error(&pack),
        format!("decoder layer weight pack section {} layout is invalid", first)
    );
    let mut pack = good.clone();
    let last = pack.len() - 1;
    pack[last] ^= 1;
    assert_eq!(
        layer_error(&pack),
        "decoder layer weight pack section weights.mrope_sin BLAKE3 digest mismatch"
    );
    let mut sections = layer_sections();
    sections[0].alignment = 4096;
    let mut pack = assemble(&manifest("fidelity"), &sections);
    pack[4095] = 1;
    assert_eq!(
        layer_error(&pack),
        format!(
            "decoder layer weight pack section {} leading alignment contains nonzero padding",
            first
        )
    );
    let mut pack = good.clone();
    pack.push(0);
    let length = (pack.len() as u64).to_le_bytes();
    pack[24..32].copy_from_slice(&length);
    assert_eq!(
        layer_error(&pack),
        "decoder layer weight pack has trailing or missing section bytes"
    );
}

#[test]
fn the_descriptor_of_a_pack_is_checked() {
    let cases: [(&str, &str, &str); 16] = [
        ("\"schema_version\":1", "\"schema_version\":2", "descriptor schema version drifted"),
        ("\"oracle\":\"synthetic\"", "\"oracle\":\"real\"", "descriptor oracle is unsupported"),
        ("\"case_id\":\"unit\"", "\"case_id\":\"\"", "descriptor case_id is empty"),
        ("66317acc", "66317acd", "descriptor model_revision drifted"),
        ("\"hidden_size\":2", "\"hidden_size\":3", "descriptor geometry field hidden_size drifted from the pinned decoder value"),
        ("\"query_width\":2048", "\"query_width\":2049", "descriptor geometry field query_width drifted from the pinned decoder value"),
        ("\"prefix_tokens\":2", "\"prefix_tokens\":0", "descriptor cache geometry is invalid"),
        ("\"prefix_tokens\":2", "\"prefix_tokens\":5", "descriptor cache geometry is invalid"),
        ("\"prefix_tokens\":2", "\"prefix_tokens\":3", "descriptor cache geometry does not match the session descriptor"),
        ("\"rms_norm_epsilon\":0.00001", "\"rms_norm_epsilon\":\"x\"", "descriptor rms_norm_epsilon must be a number"),
        ("\"rms_norm_epsilon\":0.00001", "\"rms_norm_epsilon\":0.00002", "descriptor rms_norm_epsilon drifted"),
        ("\"mrope_sections\":[16,24,24]", "\"mrope_sections\":7", "descriptor mrope_sections must be an array"),
        ("\"mrope_sections\":[16,24,24]", "\"mrope_sections\":[16,24,25]", "descriptor mrope_sections drifted"),
        ("\"shards\":{", "\"shards\":7,\"shards2\":{", "descriptor has unknown field shards2"),
        ("\"weights.q_proj\":", "\"weights.zz\":", "descriptor shards has unknown field weights.zz"),
        ("\"case_id\":\"unit\",", "", "descriptor is missing field case_id"),
    ];
    for (from, to, message) in cases {
        assert_eq!(
            layer_error(&with_descriptor(from, to)),
            format!("decoder layer weight pack {}", message)
        );
    }
}

#[test]
fn the_shards_of_a_pack_are_checked() {
    let norm = weights(8, WeightStorage::F32, 0);
    let hex = blake3::hash(&norm).to_hex().to_string();
    assert_eq!(
        layer_error(&with_descriptor("\"bytes\":8,", "\"bytes\":12,")),
        "decoder layer weight pack shard weights.input_layernorm declared length drifted"
    );
    assert_eq!(
        layer_error(&with_descriptor(&hex, &"00".repeat(32))),
        "decoder layer weight pack shard weights.input_layernorm BLAKE3 pin drifted"
    );
    assert_eq!(
        layer_error(&with_descriptor(&hex, "00")),
        "decoder layer weight pack shard pin blake3 is not a 64-digit BLAKE3 hex string"
    );
    let mut sections = layer_sections();
    let text = String::from_utf8(sections[0].payload.clone()).unwrap();
    sections[1].payload[0..4].copy_from_slice(&f32::NAN.to_le_bytes());
    let other = blake3::hash(&sections[1].payload).to_hex().to_string();
    sections[0].payload = text.replace(&hex, &other).into_bytes();
    assert_eq!(
        layer_error(&assemble(&manifest("fidelity"), &sections)),
        "decoder layer weight pack shard weights.input_layernorm contains a nonfinite f32 payload element"
    );
}

#[test]
fn half_precision_shards_are_checked() {
    let mut sections = sections_of(Family::Stack, &STACK_IDS[..11], 2, 5, WeightStorage::F16);
    let text = String::from_utf8(sections[0].payload.clone()).unwrap();
    let error = |sections: &[Section]| {
        parse_stack_weight_pack(&pins(), &assemble(&manifest("balanced"), sections), 2, 5, false)
            .err()
            .unwrap()
    };
    sections[0].payload = text.replacen("\"dtype\":\"f16\"", "\"dtype\":\"f32\"", 1).into_bytes();
    assert_eq!(
        error(&sections),
        "decoder stack weight pack shard weights.input_layernorm dtype drifted"
    );
    sections[0].payload = text.replace("\"checkpoint_bytes\":9", "\"checkpoint_bytes\":0").into_bytes();
    assert_eq!(
        error(&sections),
        "decoder stack weight pack descriptor checkpoint_bytes drifted"
    );
    sections[0].payload =
        text.replace("\"weight_storage\":\"f16\"", "\"weight_storage\":\"f32\"").into_bytes();
    assert_eq!(
        error(&sections),
        "decoder stack weight pack descriptor weight_storage drifted"
    );
    let before = blake3::hash(&sections[1].payload).to_hex().to_string();
    sections[1].payload[1] = 0x7c;
    let after = blake3::hash(&sections[1].payload).to_hex().to_string();
    sections[0].payload = text.replace(&before, &after).into_bytes();
    assert_eq!(
        error(&sections),
        "decoder stack weight pack shard weights.input_layernorm contains a nonfinite f16 payload element"
    );
}

#[test]
fn a_request_decides_which_pack_is_admitted() {
    let request = DescriptorRequest { prefix_tokens: 2, cache_capacity: 5, prefill_capable: false };
    let pack = parse_weight_pack(Family::Layer, &pins(), &layer_pack(), request).unwrap();
    assert_eq!(pack.shards.len(), 7);
    let error = parse_layer_weight_pack(&pins(), &layer_pack(), 1, 5).err().unwrap();
    assert_eq!(
        error,
        "decoder layer weight pack descriptor cache geometry does not match the session descriptor"
    );
}

#[test]
fn shard_sizes_follow_the_geometry() {
    let layer = |shard| expected_shard_bytes(Family::Layer, &pins(), shard, 5, WeightStorage::F32);
    assert_eq!(layer(0), Ok(8));
    assert_eq!(layer(1), Ok(PINNED_QUERY_WIDTH as u64 * 2 * 4));
    assert_eq!(layer(2), Ok(PINNED_KEY_VALUE_WIDTH as u64 * 2 * 4));
    assert_eq!(layer(4), Ok(PINNED_QUERY_WIDTH as u64 * 2 * 4));
    assert_eq!(layer(5), Ok(3 * 5 * 4 * 4));
    let stack = |shard, storage| expected_shard_bytes(Family::Stack, &pins(), shard, 5, storage);
    assert_eq!(stack(0, WeightStorage::F32), Ok(2 * 2 * 4));
    assert_eq!(stack(1, WeightStorage::F16), Ok(2048 * 2 * 2 * 2));
    assert_eq!(stack(5, WeightStorage::F16), Ok(240));
    assert_eq!(stack(8, WeightStorage::F32), Ok(3 * 2 * 2 * 4));
    assert_eq!(stack(11, WeightStorage::F16), Ok(4));
    assert_eq!(stack(12, WeightStorage::F32), Ok(103424 * 2 * 4));
}

#[test]
fn aligning_goes_up_to_the_next_multiple() {
    assert_eq!(pack_align_up(0, 8), 0);
    assert_eq!(pack_align_up(1, 8), 8);
    assert_eq!(pack_align_up(8, 8), 8);
    assert_eq!(pack_align_up(9, 256), 256);
    assert_eq!(pack_align_up(pack_align_up(9, 256), 256), 256);
}

#[test]
fn slices_of_a_pack_stay_inside_it() {
    let bytes = [1u8, 2, 3];
    assert_eq!(pack_slice(Family::Layer, &bytes, 1, 3, "part").unwrap(), &[2, 3]);
    assert!(pack_slice(Family::Layer, &bytes, 2, 4, "part").is_err());
    assert!(pack_slice(Family::Layer, &bytes, 3, 2, "part").is_err());
    assert_eq!(pack_usize(Family::Stack, 77, "part"), Ok(77));
    assert!(pack_padding_is_zero(&[0, 0]));
    assert!(!pack_padding_is_zero(&[0, 1]));
}

#[test]
fn digests_are_read_back_from_their_text() {
    let digest = *blake3::hash(b"abc").as_bytes();
    let hex = blake3::hash(b"abc").to_hex().to_string();
    assert_eq!(pack_hex_digest(Family::Stack, &hex, "pin"), Ok(digest));
    assert!(pack_hex_digest(Family::Stack, &hex.to_uppercase(), "pin").is_err());
    assert!(pack_hex_digest(Family::Stack, &hex[1..], "pin").is_err());
    assert_eq!(pack_hex_nibble(Family::Layer, b'a', "pin"), Ok(10));
    assert!(pack_hex_nibble(Family::Layer, b'g', "pin").is_err());
}
