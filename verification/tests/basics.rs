use pvlc_decoder_sessions::digest::{blake3_hex, source_blake3};
use pvlc_decoder_sessions::family::{family_noun, Family, WeightStorage};
use pvlc_decoder_sessions::ieee::{half_is_finite, single_equals, single_is_finite, widen};
use pvlc_decoder_sessions::limits::{require_bindings, require_dispatches};
use pvlc_decoder_sessions::sizes::{checked_u64_bytes, checked_u64_weight_bytes, checked_usize};
use pvlc_decoder_sessions::sources::{
    canonical_source, list_sources, listed_source, require_override,
};
use pvlc_decoder_sessions::stack_plan::decimal_text;
use pvlc_decoder_sessions::text::{join2, join5, listed, same, same_bytes};
use pvlc_decoder_sessions::words::{
    m7q1_f16_bytes, pack_u16_le, pack_u32_le, pack_u64_le, word_bytes,
};

#[test]
fn words_are_little_endian() {
    let bytes = [1u8, 2, 3, 4, 5, 6, 7, 8, 9];
    assert_eq!(pack_u16_le(&bytes, 1), 0x0302);
    assert_eq!(pack_u32_le(&bytes, 1), 0x0504_0302);
    assert_eq!(pack_u64_le(&bytes, 1), 0x0908_0706_0504_0302);
    assert_eq!(word_bytes(&[0x0102_0304, 5]), vec![4, 3, 2, 1, 5, 0, 0, 0]);
    assert_eq!(m7q1_f16_bytes(&[0x0102, 3]), vec![2, 1, 3, 0]);
    let written = word_bytes(&[0xdead_beef]);
    assert_eq!(pack_u32_le(&written, 0), 0xdead_beef);
}

#[test]
fn texts_are_joined_and_compared() {
    assert_eq!(join2("a", "b"), "ab");
    assert_eq!(join5("a", "b", "c", "d", "e"), "abcde");
    assert!(same("ä", "ä") && !same("a", "b") && !same("a", "ab"));
    assert!(same_bytes(&[1, 2], &[1, 2]) && !same_bytes(&[1], &[1, 2]));
    assert!(listed(&["x", "y"], "y") && !listed(&["x", "y"], "z"));
    assert_eq!(family_noun(Family::Kv), "decoder KV");
    for number in [0u64, 9, 10, 4096, u64::MAX] {
        assert_eq!(decimal_text(number), number.to_string());
    }
}

#[test]
fn digests_are_those_of_the_bytes() {
    let digest = source_blake3("fn main() {}");
    assert_eq!(digest, *blake3::hash(b"fn main() {}").as_bytes());
    assert_eq!(blake3_hex(&digest), blake3::hash(b"fn main() {}").to_hex().to_string());
}

#[test]
fn sizes_are_checked() {
    assert_eq!(checked_u64_bytes(6, "row"), Ok(24));
    assert_eq!(
        checked_u64_bytes(usize::MAX, "row"),
        Err("row byte size overflowed".to_string())
    );
    assert_eq!(checked_u64_weight_bytes(3, 5, "matrix"), Ok(60));
    assert_eq!(
        checked_u64_weight_bytes(usize::MAX, 2, "matrix"),
        Err("matrix element count overflowed".to_string())
    );
    assert_eq!(checked_usize(9, "cache"), Ok(9));
}

#[test]
fn weights_are_stored_in_two_ways() {
    assert_eq!(WeightStorage::F32.storage_bytes(6), Some(24));
    assert_eq!(WeightStorage::F16.storage_bytes(6), Some(12));
    assert_eq!(WeightStorage::F16.storage_bytes(u64::MAX), None);
    assert_eq!(WeightStorage::F16.from_f32_byte_offset(16), Some(8));
    assert_eq!(WeightStorage::F32.from_f32_byte_offset(16), Some(16));
    assert_eq!(WeightStorage::F16.from_f32_byte_offset(18), None);
    assert!(WeightStorage::F16.requires_shader_f16());
    assert!(!WeightStorage::F32.requires_shader_f16());
}

#[test]
fn floats_are_told_apart_by_their_bits() {
    for value in [0.0_f32, -0.0, 1.5, f32::MAX, f32::MIN_POSITIVE, 1e-45] {
        assert!(single_is_finite(value.to_bits()));
        assert_eq!(widen(value.to_bits()), (value as f64).to_bits());
        assert!(single_equals(value.to_bits(), value.to_bits()));
    }
    for value in [f32::INFINITY, f32::NEG_INFINITY, f32::NAN] {
        assert!(!single_is_finite(value.to_bits()));
    }
    assert!(single_equals(0.0_f32.to_bits(), (-0.0_f32).to_bits()));
    assert!(!single_equals(f32::NAN.to_bits(), f32::NAN.to_bits()));
    assert!(half_is_finite(0x7bff) && !half_is_finite(0x7c00) && !half_is_finite(0xfe00));
}

#[test]
fn limits_name_what_exceeds_them() {
    let sizes = vec![("cache", 10u64), ("row", 20)];
    assert_eq!(require_bindings(&sizes, 20), Ok(()));
    assert_eq!(
        require_bindings(&sizes, 19),
        Err("row exceeds the adapter storage buffer binding limit".to_string())
    );
    assert_eq!(require_dispatches(Family::Kv, &vec![None]), Ok(()));
    assert_eq!(
        require_dispatches(Family::Stack, &vec![None, Some("x".to_string())]),
        Err("decoder stack session exceeds adapter dispatch limits: x".to_string())
    );
}

#[test]
fn sources_are_listed_in_order() {
    assert_eq!(canonical_source(Some("s".to_string()), "k"), Ok("s".to_string()));
    assert_eq!(
        canonical_source(None, "k"),
        Err("canonical k kernel is missing".to_string())
    );
    let list = vec![listed_source("one", " first", "a\"b"), listed_source("two", " second", "c")];
    let text = list_sources(Family::Layer, &list, &vec![1, 0]).unwrap();
    assert!(text.starts_with("{\"schema_version\":1,\"sources\":{\"two\":\"c\",\"one\":\"a\\\"b\"}"));
    let value: serde_json::Value = serde_json::from_str(&text).unwrap();
    assert_eq!(value["shader_blake3"]["one"], blake3::hash(b"a\"b").to_hex().to_string());
    assert_eq!(require_override(Family::Stack, &["one"], "one", "x"), Ok(()));
    assert!(require_override(Family::Stack, &["one"], "two", "x").is_err());
}
