//! The JSON parts of a weight pack: its manifest and its descriptor.

use crate::family::{Family, WeightStorage};
use crate::json::{
    get_str, get_u64, json_as_array, json_as_object, json_as_u64, json_clone, json_get, json_parse,
    missing_key, unknown_key, JsonTree, Members,
};
use crate::pack::{pack_hex_digest, pack_subject};
use crate::text::{join2, join3, join5, same};
use vstd::prelude::*;
use vstd::string::StringSliceAdditionalSpecFns;

verus! {

/// Whether a byte string ends with one newline and no more.
pub open spec fn one_newline(payload: Seq<u8>) -> bool {
    payload.len() > 0 && payload.last() == 10 && !(payload.len() >= 2 && payload[payload.len()
        - 2] == 10)
}

/// The members of a JSON object that a pack holds, or why it is refused.
pub open spec fn object_outcome(family: Family, payload: Seq<u8>, label: Seq<char>) -> Result<
    Members,
    Seq<char>,
> {
    let subject = crate::pack::pack_noun(family) + label;
    if !vstd::utf8::valid_utf8(payload) {
        Err(subject + " UTF-8 is invalid: "@ + crate::text::utf8_error_text(payload))
    } else if !one_newline(payload) {
        Err(subject + " is not newline-terminated canonical JSON"@)
    } else {
        match crate::json::parsed_json(vstd::utf8::decode_utf8(payload)) {
            Err(message) => Err(subject + " JSON is invalid: "@ + message),
            Ok(tree) => match crate::json::tree_object(tree) {
                None => Err(subject + " must be a JSON object"@),
                Some(members) => Ok(members),
            },
        }
    }
}

/// A JSON object result with its members taken as plain data.
pub open spec fn object_said(
    outcome: Result<serde_json::Map<String, serde_json::Value>, String>,
) -> Result<Members, Seq<char>> {
    match outcome {
        Ok(object) => Ok(crate::json::object_members(object)),
        Err(message) => Err(message@),
    }
}

/// Reads a JSON object that a pack holds.
pub fn pack_json_object(family: Family, payload: &[u8], label: &str) -> (object: Result<
    serde_json::Map<String, serde_json::Value>,
    String,
>)
    ensures
        object_said(object) == object_outcome(family, payload@, label@),
{
    let subject: String = join2(pack_subject(family).as_str(), label);
    let text: &str = match crate::text::utf8_text(payload) {
        Ok(text) => text,
        Err(message) => {
            return Err(join3(subject.as_str(), " UTF-8 is invalid: ", message.as_str()));
        },
    };
    proof {
        crate::text::lemma_text_decodes(text);
    }
    let length: usize = payload.len();
    if length == 0 || payload[length - 1] != 10 || (length >= 2 && payload[length - 2] == 10) {
        return Err(join2(subject.as_str(), " is not newline-terminated canonical JSON"));
    }
    let value: serde_json::Value = match json_parse(text) {
        Ok(value) => value,
        Err(message) => {
            return Err(join3(subject.as_str(), " JSON is invalid: ", message.as_str()));
        },
    };
    match json_as_object(&value) {
        Some(object) => Ok(json_clone(object)),
        None => Err(join2(subject.as_str(), " must be a JSON object")),
    }
}

/// What is wrong with the names of an object that must have exactly the expected ones.
pub open spec fn keys_complaint(
    family: Family,
    members: Members,
    expected: Seq<Seq<char>>,
    label: Seq<char>,
) -> Option<Seq<char>> {
    let subject = crate::pack::pack_noun(family) + label;
    match crate::json::first_unknown(members, expected) {
        Some(key) => Some(subject + " has unknown field "@ + key),
        None => match crate::json::first_missing(expected, members) {
            Some(key) => Some(subject + " is missing field "@ + key),
            None => None,
        },
    }
}

/// Whether a payload holds a JSON object that has exactly the expected names.
pub open spec fn object_named(
    family: Family,
    payload: Seq<u8>,
    label: Seq<char>,
    expected: Seq<Seq<char>>,
) -> bool {
    object_outcome(family, payload, label) matches Ok(members) && members.dom()
        == expected.to_set()
}

/// Requires an object to have exactly the expected names.
pub fn require_pack_exact_keys(
    family: Family,
    object: &serde_json::Map<String, serde_json::Value>,
    expected: &[&str],
    label: &str,
) -> (outcome: Result<(), String>)
    ensures
        crate::text::complaint(outcome) == keys_complaint(
            family,
            crate::json::object_members(*object),
            crate::text::names(expected@),
            label@,
        ),
        outcome is Ok <==> crate::json::object_members(*object).dom() == crate::text::names(
            expected@,
        ).to_set(),
{
    let subject: String = join2(pack_subject(family).as_str(), label);
    if let Some(key) = unknown_key(object, expected) {
        return Err(join3(subject.as_str(), " has unknown field ", key.as_str()));
    }
    if let Some(key) = missing_key(object, expected) {
        return Err(join3(subject.as_str(), " is missing field ", key));
    }
    assert(crate::json::object_members(*object).dom() =~= crate::text::names(
        expected@,
    ).to_set());
    Ok(())
}

/// The unsigned integer of a name, or the message that there is none.
pub open spec fn u64_outcome(
    family: Family,
    members: Members,
    key: Seq<char>,
    label: Seq<char>,
) -> Result<u64, Seq<char>> {
    match crate::json::member_u64(members, key) {
        Some(integer) => Ok(integer),
        None => Err(
            crate::pack::pack_noun(family) + label + " field "@ + key
                + " must be an unsigned integer"@,
        ),
    }
}

/// The text of a name, or the message that there is none.
pub open spec fn text_outcome(
    family: Family,
    members: Members,
    key: Seq<char>,
    label: Seq<char>,
) -> Result<Seq<char>, Seq<char>> {
    match crate::json::member_text(members, key) {
        Some(text) => Ok(text),
        None => Err(
            crate::pack::pack_noun(family) + label + " field "@ + key + " must be a string"@,
        ),
    }
}

/// The unsigned integer of a name.
pub fn pack_json_u64(
    family: Family,
    object: &serde_json::Map<String, serde_json::Value>,
    key: &str,
    label: &str,
) -> (integer: Result<u64, String>)
    ensures
        crate::text::said(integer) == u64_outcome(
            family,
            crate::json::object_members(*object),
            key@,
            label@,
        ),
{
    match get_u64(object, key) {
        Some(integer) => Ok(integer),
        None => Err(
            join5(
                pack_subject(family).as_str(),
                label,
                " field ",
                key,
                " must be an unsigned integer",
            ),
        ),
    }
}

/// The text of a name.
pub fn pack_json_str<'a>(
    family: Family,
    object: &'a serde_json::Map<String, serde_json::Value>,
    key: &str,
    label: &str,
) -> (text: Result<&'a str, String>)
    ensures
        (match text {
            Ok(slice) => Ok(slice@),
            Err(message) => Err(message@),
        }) == text_outcome(family, crate::json::object_members(*object), key@, label@),
{
    match get_str(object, key) {
        Some(slice) => Ok(slice),
        None => Err(
            join5(pack_subject(family).as_str(), label, " field ", key, " must be a string"),
        ),
    }
}

/// What is wrong with a text that must be a given one.
pub open spec fn text_complaint(
    family: Family,
    members: Members,
    key: Seq<char>,
    label: Seq<char>,
    wanted: Seq<char>,
    drift: Seq<char>,
) -> Option<Seq<char>> {
    match text_outcome(family, members, key, label) {
        Err(message) => Some(message),
        Ok(text) => if text != wanted {
            Some(crate::pack::pack_noun(family) + drift)
        } else {
            None
        },
    }
}

/// What is wrong with an integer that must be a given one.
pub open spec fn u64_complaint(
    family: Family,
    members: Members,
    key: Seq<char>,
    label: Seq<char>,
    wanted: u64,
    drift: Seq<char>,
) -> Option<Seq<char>> {
    match u64_outcome(family, members, key, label) {
        Err(message) => Some(message),
        Ok(integer) => if integer != wanted {
            Some(crate::pack::pack_noun(family) + drift)
        } else {
            None
        },
    }
}

/// What is wrong with an integer that must not be zero.
pub open spec fn nonzero_complaint(
    family: Family,
    members: Members,
    key: Seq<char>,
    label: Seq<char>,
    drift: Seq<char>,
) -> Option<Seq<char>> {
    match u64_outcome(family, members, key, label) {
        Err(message) => Some(message),
        Ok(integer) => if integer == 0 {
            Some(crate::pack::pack_noun(family) + drift)
        } else {
            None
        },
    }
}

pub(crate) fn require_text(
    family: Family,
    object: &serde_json::Map<String, serde_json::Value>,
    key: &str,
    label: &str,
    wanted: &str,
    drift: &str,
) -> (outcome: Result<(), String>)
    ensures
        crate::text::complaint(outcome) == text_complaint(
            family,
            crate::json::object_members(*object),
            key@,
            label@,
            wanted@,
            drift@,
        ),
{
    match pack_json_str(family, object, key, label) {
        Err(message) => Err(message),
        Ok(text) => if same(text, wanted) {
            Ok(())
        } else {
            Err(join2(pack_subject(family).as_str(), drift))
        },
    }
}

pub(crate) fn require_u64(
    family: Family,
    object: &serde_json::Map<String, serde_json::Value>,
    key: &str,
    label: &str,
    wanted: u64,
    drift: &str,
) -> (outcome: Result<(), String>)
    ensures
        crate::text::complaint(outcome) == u64_complaint(
            family,
            crate::json::object_members(*object),
            key@,
            label@,
            wanted,
            drift@,
        ),
{
    match pack_json_u64(family, object, key, label) {
        Err(message) => Err(message),
        Ok(integer) => if integer == wanted {
            Ok(())
        } else {
            Err(join2(pack_subject(family).as_str(), drift))
        },
    }
}

pub(crate) fn require_nonzero(
    family: Family,
    object: &serde_json::Map<String, serde_json::Value>,
    key: &str,
    label: &str,
    drift: &str,
) -> (outcome: Result<(), String>)
    ensures
        crate::text::complaint(outcome) == nonzero_complaint(
            family,
            crate::json::object_members(*object),
            key@,
            label@,
            drift@,
        ),
{
    match pack_json_u64(family, object, key, label) {
        Err(message) => Err(message),
        Ok(integer) => if integer != 0 {
            Ok(())
        } else {
            Err(join2(pack_subject(family).as_str(), drift))
        },
    }
}

/// The names that a manifest has.
pub open spec fn manifest_fields() -> Seq<Seq<char>> {
    seq![
        "compiler_build"@,
        "compiler_model_abi"@,
        "context_limit"@,
        "model_id"@,
        "model_revision"@,
        "precision_profile"@,
        "resolution_buckets"@,
    ]
}

/// The model that packs are made for.
pub open spec fn model_id() -> Seq<char> {
    "PaddlePaddle/PaddleOCR-VL-1.6"@
}

/// The revision of the model that packs are made for.
pub open spec fn model_revision() -> Seq<char> {
    "66317acc4c9fc17bd154591ce650735cd2855f3e"@
}

/// The weight storage of a precision profile that a family admits.
pub open spec fn profile_storage(family: Family, profile: Seq<char>) -> Option<WeightStorage> {
    if profile == "fidelity"@ {
        Some(WeightStorage::F32)
    } else if family == Family::Stack && profile == "balanced"@ {
        Some(WeightStorage::F16)
    } else {
        None
    }
}

/// What is said of a profile that a family does not admit.
pub open spec fn profile_drift(family: Family) -> Seq<char> {
    match family {
        Family::Stack => crate::pack::pack_noun(family)
            + "manifest precision_profile is unsupported"@,
        _ => crate::pack::pack_noun(family) + "manifest precision_profile drifted"@,
    }
}

/// Whether a tree is a pair of integers above zero.
pub open spec fn is_resolution(pair: Seq<JsonTree>) -> bool {
    &&& pair.len() == 2
    &&& crate::json::tree_u64(pair[0]) matches Some(width) && width != 0
    &&& crate::json::tree_u64(pair[1]) matches Some(height) && height != 0
}

/// What is wrong with the resolution buckets from one of them on.
pub open spec fn buckets_complaint_from(family: Family, buckets: Seq<JsonTree>, index: int) -> Option<
    Seq<char>,
>
    decreases buckets.len() - index,
{
    if index >= buckets.len() {
        None
    } else {
        match crate::json::tree_array(buckets[index]) {
            None => Some(
                crate::pack::pack_noun(family) + "manifest resolution bucket must be a pair"@,
            ),
            Some(pair) => if !is_resolution(pair) {
                Some(crate::pack::pack_noun(family) + "manifest resolution bucket drifted"@)
            } else {
                buckets_complaint_from(family, buckets, index + 1)
            },
        }
    }
}

/// What is wrong with the resolution buckets of a manifest.
pub open spec fn buckets_complaint(family: Family, members: Members) -> Option<Seq<char>> {
    let buckets = match crate::json::member(members, "resolution_buckets"@) {
        Some(tree) => crate::json::tree_array(tree),
        None => None,
    };
    match buckets {
        None => Some(
            crate::pack::pack_noun(family) + "manifest resolution_buckets must be an array"@,
        ),
        Some(array) => if array.len() == 0 {
            Some(crate::pack::pack_noun(family) + "manifest resolution_buckets drifted"@)
        } else {
            buckets_complaint_from(family, array, 0)
        },
    }
}

fn require_buckets(family: Family, object: &serde_json::Map<String, serde_json::Value>) -> (outcome:
    Result<(), String>)
    ensures
        crate::text::complaint(outcome) == buckets_complaint(
            family,
            crate::json::object_members(*object),
        ),
{
    let subject: String = pack_subject(family);
    let found: Option<&Vec<serde_json::Value>> = match json_get(object, "resolution_buckets") {
        Some(value) => json_as_array(value),
        None => None,
    };
    let buckets: &Vec<serde_json::Value> = match found {
        Some(buckets) => buckets,
        None => {
            return Err(
                join2(subject.as_str(), "manifest resolution_buckets must be an array"),
            );
        },
    };
    if buckets.len() == 0 {
        return Err(join2(subject.as_str(), "manifest resolution_buckets drifted"));
    }
    let ghost array = crate::json::trees(buckets@);
    let mut index: usize = 0;
    while index < buckets.len()
        invariant
            index <= buckets.len(),
            array == crate::json::trees(buckets@),
            subject@ == crate::pack::pack_noun(family),
            buckets_complaint(family, crate::json::object_members(*object))
                == buckets_complaint_from(family, array, index as int),
        decreases buckets.len() - index,
    {
        assert(array[index as int] == crate::json::value_tree(buckets@[index as int]));
        match json_as_array(&buckets[index]) {
            None => {
                return Err(join2(subject.as_str(), "manifest resolution bucket must be a pair"));
            },
            Some(pair) => {
                let fits: bool = pair.len() == 2 && is_above_zero(json_as_u64(&pair[0]))
                    && is_above_zero(json_as_u64(&pair[1]));
                if !fits {
                    return Err(join2(subject.as_str(), "manifest resolution bucket drifted"));
                }
            },
        }
        index += 1;
    }
    Ok(())
}

fn is_above_zero(integer: Option<u64>) -> (above: bool)
    ensures
        above == (integer matches Some(value) && value != 0),
{
    match integer {
        Some(value) => value != 0,
        None => false,
    }
}

/// What is wrong with the compiler build of a manifest.
pub open spec fn build_complaint(family: Family, members: Members) -> Option<Seq<char>> {
    match text_outcome(family, members, "compiler_build"@, "manifest"@) {
        Err(message) => Some(message),
        Ok(build) => match crate::pack::hex_digest(family, build, "manifest compiler_build"@) {
            Err(message) => Some(message),
            Ok(_) => None,
        },
    }
}

/// What is wrong with the precision profile of a manifest.
pub open spec fn profile_complaint(family: Family, members: Members) -> Option<Seq<char>> {
    match text_outcome(family, members, "precision_profile"@, "manifest"@) {
        Err(message) => Some(message),
        Ok(profile) => if profile_storage(family, profile) is None {
            Some(profile_drift(family))
        } else {
            None
        },
    }
}

/// What is wrong with the members of a manifest: the first thing in the order of the
/// checks.
pub open spec fn manifest_complaint(family: Family, members: Members) -> Option<Seq<char>> {
    let label = "manifest"@;
    crate::text::earlier(
        keys_complaint(family, members, manifest_fields(), label),
        crate::text::earlier(
            text_complaint(
                family,
                members,
                "model_id"@,
                label,
                model_id(),
                "manifest model_id drifted"@,
            ),
            crate::text::earlier(
                text_complaint(
                    family,
                    members,
                    "model_revision"@,
                    label,
                    model_revision(),
                    "manifest model_revision drifted"@,
                ),
                crate::text::earlier(
                    u64_complaint(
                        family,
                        members,
                        "compiler_model_abi"@,
                        label,
                        1,
                        "manifest compiler_model_abi drifted"@,
                    ),
                    crate::text::earlier(
                        build_complaint(family, members),
                        crate::text::earlier(
                            profile_complaint(family, members),
                            crate::text::earlier(
                                nonzero_complaint(
                                    family,
                                    members,
                                    "context_limit"@,
                                    label,
                                    "manifest context_limit drifted"@,
                                ),
                                buckets_complaint(family, members),
                            ),
                        ),
                    ),
                ),
            ),
        ),
    )
}

/// The weight storage that a manifest announces, or why it is refused.
pub open spec fn manifest_outcome(family: Family, payload: Seq<u8>) -> Result<
    WeightStorage,
    Seq<char>,
> {
    match object_outcome(family, payload, "manifest"@) {
        Err(message) => Err(message),
        Ok(members) => match manifest_complaint(family, members) {
            Some(message) => Err(message),
            None => Ok(
                profile_storage(
                    family,
                    crate::json::member_text(members, "precision_profile"@)->0,
                )->0,
            ),
        },
    }
}

fn require_build(family: Family, manifest: &serde_json::Map<String, serde_json::Value>) -> (outcome:
    Result<(), String>)
    ensures
        crate::text::complaint(outcome) == build_complaint(
            family,
            crate::json::object_members(*manifest),
        ),
{
    match pack_json_str(family, manifest, "compiler_build", "manifest") {
        Err(message) => Err(message),
        Ok(build) => match pack_hex_digest(family, build, "manifest compiler_build") {
            Err(message) => Err(message),
            Ok(_) => Ok(()),
        },
    }
}

fn read_profile(family: Family, manifest: &serde_json::Map<String, serde_json::Value>) -> (storage:
    Result<WeightStorage, String>)
    ensures
        match storage {
            Ok(found) => profile_complaint(family, crate::json::object_members(*manifest)) is None
                && Some(found) == profile_storage(
                family,
                crate::json::member_text(
                    crate::json::object_members(*manifest),
                    "precision_profile"@,
                )->0,
            ),
            Err(message) => profile_complaint(family, crate::json::object_members(*manifest))
                == Some(message@),
        },
{
    let profile: &str = pack_json_str(family, manifest, "precision_profile", "manifest")?;
    if same(profile, "fidelity") {
        return Ok(WeightStorage::F32);
    }
    match family {
        Family::Stack => {
            if same(profile, "balanced") {
                Ok(WeightStorage::F16)
            } else {
                Err(
                    join2(
                        pack_subject(family).as_str(),
                        "manifest precision_profile is unsupported",
                    ),
                )
            }
        },
        _ => Err(join2(pack_subject(family).as_str(), "manifest precision_profile drifted")),
    }
}

/// Checks the manifest of a pack, and gives the weight storage that it announces.
pub fn validate_pack_manifest(family: Family, payload: &[u8]) -> (storage: Result<
    WeightStorage,
    String,
>)
    ensures
        crate::text::said(storage) == manifest_outcome(family, payload@),
        storage is Ok ==> object_named(family, payload@, "manifest"@, manifest_fields()),
{
    let manifest = pack_json_object(family, payload, "manifest")?;
    let fields: Vec<&str> = vec![
        "compiler_build",
        "compiler_model_abi",
        "context_limit",
        "model_id",
        "model_revision",
        "precision_profile",
        "resolution_buckets",
    ];
    assert(crate::text::names(fields@) =~= manifest_fields());
    require_pack_exact_keys(family, &manifest, fields.as_slice(), "manifest")?;
    require_text(
        family,
        &manifest,
        "model_id",
        "manifest",
        "PaddlePaddle/PaddleOCR-VL-1.6",
        "manifest model_id drifted",
    )?;
    require_text(
        family,
        &manifest,
        "model_revision",
        "manifest",
        "66317acc4c9fc17bd154591ce650735cd2855f3e",
        "manifest model_revision drifted",
    )?;
    require_u64(
        family,
        &manifest,
        "compiler_model_abi",
        "manifest",
        1,
        "manifest compiler_model_abi drifted",
    )?;
    require_build(family, &manifest)?;
    let storage: WeightStorage = read_profile(family, &manifest)?;
    require_nonzero(
        family,
        &manifest,
        "context_limit",
        "manifest",
        "manifest context_limit drifted",
    )?;
    require_buckets(family, &manifest)?;
    Ok(storage)
}

} // verus!
