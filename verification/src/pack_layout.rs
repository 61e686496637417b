//! The binary layout of a weight pack: header, directory and sections.

use crate::family::Family;
use crate::pack::{pack_align_up, pack_padding_is_zero, pack_subject, pack_usize};
use crate::text::{join2, join3, join4, same};
use crate::words::{pack_u16_le, pack_u32_le, pack_u64_le};
use vstd::arithmetic::power2::is_pow2;
use vstd::prelude::*;
use vstd::slice::slice_subrange;
use vstd::string::StringSliceAdditionalSpecFns;

verus! {

/// The bytes of the header.
pub const PACK_HEADER_BYTES: usize = 32;

/// The bytes of a directory entry before its section name.
pub const PACK_DIRECTORY_FIXED_BYTES: usize = 56;

/// The alignment of directory entries.
pub const PACK_DIRECTORY_ENTRY_ALIGNMENT: usize = 8;

/// The largest alignment that a section may ask for.
pub const PACK_MAX_ALIGNMENT: u64 = 4096;

/// The only version of the layout.
pub const PACK_VERSION: u32 = 1;

/// The sections of a layer pack: a descriptor and seven shards.
pub const LAYER_SECTION_COUNT: u32 = 8;

/// The sections of a stack pack without the logits weights.
pub const STACK_LEGACY_SECTION_COUNT: u32 = 12;

/// The sections of a stack pack with the logits weights.
pub const STACK_SECTION_COUNT: u32 = 14;

/// The first eight bytes of every pack: `PVLCPK01`.
pub open spec fn magic() -> Seq<u8> {
    seq![80u8, 86u8, 76u8, 67u8, 80u8, 75u8, 48u8, 49u8]
}

/// The section counts that a family admits.
pub open spec fn admitted_count(family: Family, count: u32) -> bool {
    match family {
        Family::Layer => count == LAYER_SECTION_COUNT,
        _ => count == STACK_LEGACY_SECTION_COUNT || count == STACK_SECTION_COUNT,
    }
}

/// What the header of a pack says.
#[derive(Clone, Copy, Debug)]
pub struct PackPrefix {
    /// The number of sections.
    pub section_count: u32,
    /// Where the manifest ends and the directory starts.
    pub manifest_end: usize,
    /// Where the directory ends.
    pub directory_end: usize,
}

/// What the header of a pack says, or why it is refused.
pub open spec fn prefix_outcome(family: Family, bytes: Seq<u8>) -> Result<PackPrefix, Seq<char>> {
    let subject = crate::pack::pack_noun(family);
    let count = crate::words::word32(bytes, 20);
    let manifest_end = PACK_HEADER_BYTES + crate::words::word32(bytes, 12);
    let directory_end = manifest_end + crate::words::word32(bytes, 16);
    if bytes.len() < PACK_HEADER_BYTES {
        Err(subject + "is shorter than its header"@)
    } else if bytes.subrange(0, 8) != magic() {
        Err(subject + "magic mismatch"@)
    } else if crate::words::word32(bytes, 8) != PACK_VERSION {
        Err(subject + "version is unsupported"@)
    } else if !admitted_count(family, count) {
        Err(subject + "section count drifted"@)
    } else if crate::words::word64(bytes, 24) != bytes.len() {
        Err(subject + "declared length drifted"@)
    } else if manifest_end > usize::MAX {
        Err(subject + "manifest"@ + " offset is too large"@)
    } else if directory_end > usize::MAX {
        Err(subject + "directory"@ + " offset is too large"@)
    } else if directory_end > bytes.len() {
        Err(subject + "prefix exceeds the file"@)
    } else {
        Ok(
            PackPrefix {
                section_count: count,
                manifest_end: manifest_end as usize,
                directory_end: directory_end as usize,
            },
        )
    }
}

fn magic_matches(pack: &[u8]) -> (matches: bool)
    requires
        pack.len() >= 8,
    ensures
        matches == (pack@.subrange(0, 8) == magic()),
{
    let matches: bool = pack[0] == 80 && pack[1] == 86 && pack[2] == 76 && pack[3] == 67 && pack[4]
        == 80 && pack[5] == 75 && pack[6] == 48 && pack[7] == 49;
    proof {
        let head = pack@.subrange(0, 8);
        if matches {
            assert(head =~= magic());
        } else if head == magic() {
            assert(head[0] == 80 && head[1] == 86 && head[2] == 76 && head[3] == 67);
            assert(head[4] == 80 && head[5] == 75 && head[6] == 48 && head[7] == 49);
        }
    }
    matches
}

/// Reads the header of a pack.
pub fn read_prefix(family: Family, pack: &[u8]) -> (prefix: Result<PackPrefix, String>)
    ensures
        crate::text::said(prefix) == prefix_outcome(family, pack@),
{
    let subject: String = pack_subject(family);
    if pack.len() < PACK_HEADER_BYTES {
        return Err(join2(subject.as_str(), "is shorter than its header"));
    }
    if !magic_matches(pack) {
        return Err(join2(subject.as_str(), "magic mismatch"));
    }
    if pack_u32_le(pack, 8) != PACK_VERSION {
        return Err(join2(subject.as_str(), "version is unsupported"));
    }
    let manifest_length: u64 = pack_u32_le(pack, 12) as u64;
    let directory_length: u64 = pack_u32_le(pack, 16) as u64;
    let count: u32 = pack_u32_le(pack, 20);
    let admitted: bool = match family {
        Family::Layer => count == LAYER_SECTION_COUNT,
        _ => count == STACK_LEGACY_SECTION_COUNT || count == STACK_SECTION_COUNT,
    };
    if !admitted {
        return Err(join2(subject.as_str(), "section count drifted"));
    }
    if pack_u64_le(pack, 24) != pack.len() as u64 {
        return Err(join2(subject.as_str(), "declared length drifted"));
    }
    let manifest_end: usize = pack_usize(
        family,
        PACK_HEADER_BYTES as u64 + manifest_length,
        "manifest",
    )?;
    let directory_end: usize = pack_usize(
        family,
        manifest_end as u64 + directory_length,
        "directory",
    )?;
    if directory_end > pack.len() {
        return Err(join2(subject.as_str(), "prefix exceeds the file"));
    }
    Ok(PackPrefix { section_count: count, manifest_end, directory_end })
}

/// One entry of the directory.
#[derive(Clone, Copy, Debug)]
pub struct PackEntry {
    pub offset: u64,
    pub byte_length: u64,
    pub alignment: u64,
    pub digest: [u8; 32],
}

/// One entry of the directory, as plain data.
#[verifier::ext_equal]
pub struct EntryModel {
    pub offset: u64,
    pub byte_length: u64,
    pub alignment: u64,
    pub digest: Seq<u8>,
}

/// An entry of the directory as plain data.
pub open spec fn entry_model(entry: PackEntry) -> EntryModel {
    EntryModel {
        offset: entry.offset,
        byte_length: entry.byte_length,
        alignment: entry.alignment,
        digest: entry.digest@,
    }
}

/// Entries of the directory as plain data.
pub open spec fn entry_models(entries: Seq<PackEntry>) -> Seq<EntryModel> {
    entries.map_values(|entry: PackEntry| entry_model(entry))
}

/// Whether a section may ask for an alignment.
pub open spec fn valid_alignment(alignment: u64) -> bool {
    0 < alignment <= PACK_MAX_ALIGNMENT && is_pow2(alignment as int)
}

/// Whether a section may ask for an alignment.
pub fn alignment_is_valid(alignment: u64) -> (valid: bool)
    ensures
        valid == valid_alignment(alignment),
{
    if alignment == 0 || alignment > PACK_MAX_ALIGNMENT {
        return false;
    }
    let mut rest: u64 = alignment;
    while rest % 2 == 0
        invariant
            rest > 0,
            is_pow2(rest as int) == is_pow2(alignment as int),
        decreases rest,
    {
        proof {
            reveal(is_pow2);
        }
        rest = rest / 2;
    }
    proof {
        reveal(is_pow2);
    }
    rest == 1
}

/// The entry of a section at a place in the directory, and the place after it, or why it
/// is refused.
pub open spec fn entry_outcome(
    family: Family,
    bytes: Seq<u8>,
    id: Seq<char>,
    kind: u8,
    cursor: int,
    directory_end: int,
) -> Result<(EntryModel, int), Seq<char>> {
    let subject = crate::pack::pack_noun(family);
    let fixed_end = cursor + PACK_DIRECTORY_FIXED_BYTES;
    let id_end = fixed_end + crate::words::word16(bytes, cursor);
    let entry_end = cursor + crate::pack::align_up(
        id_end - cursor,
        PACK_DIRECTORY_ENTRY_ALIGNMENT as int,
    );
    let alignment = crate::words::word32(bytes, cursor + 4) as u64;
    let name = bytes.subrange(fixed_end, id_end);
    if fixed_end > directory_end {
        Err(subject + "directory fixed entry is truncated"@)
    } else if bytes[cursor + 3] != 0 {
        Err(subject + "directory reserved byte is nonzero"@)
    } else if bytes[cursor + 2] != kind {
        Err(subject + "section "@ + id + " kind drifted"@)
    } else if !valid_alignment(alignment) {
        Err(subject + "section "@ + id + " alignment is invalid"@)
    } else if entry_end > directory_end {
        Err(subject + "directory entry is truncated"@)
    } else if !vstd::utf8::valid_utf8(name) {
        Err(
            subject + "directory entry id UTF-8 is invalid: "@ + crate::text::utf8_error_text(
                name,
            ),
        )
    } else if vstd::utf8::decode_utf8(name) != id {
        Err(subject + "section order drifted at "@ + id)
    } else if !crate::pack::all_zero(bytes.subrange(id_end, entry_end)) {
        Err(subject + "directory entry "@ + id + " contains nonzero padding"@)
    } else {
        Ok(
            (
                EntryModel {
                    offset: crate::words::word64(bytes, cursor + 8),
                    byte_length: crate::words::word64(bytes, cursor + 16),
                    alignment,
                    digest: bytes.subrange(cursor + 24, cursor + 56),
                },
                entry_end,
            ),
        )
    }
}

fn read_digest(pack: &[u8], start: usize) -> (digest: [u8; 32])
    requires
        start + 32 <= pack.len(),
    ensures
        digest@ == pack@.subrange(start as int, start + 32),
{
    let mut digest: [u8; 32] = [0u8; 32];
    let mut index: usize = 0;
    while index < 32
        invariant
            index <= 32,
            start + 32 <= pack.len(),
            forall|i: int| 0 <= i < index ==> digest@[i] == pack@[start + i],
        decreases 32 - index,
    {
        digest[index] = pack[start + index];
        index += 1;
    }
    assert(digest@ =~= pack@.subrange(start as int, start + 32));
    digest
}

/// Reads the entry of a section at a place in the directory.
pub fn read_entry(
    family: Family,
    pack: &[u8],
    id: &str,
    kind: u8,
    cursor: usize,
    directory_end: usize,
) -> (entry: Result<(PackEntry, usize), String>)
    requires
        cursor <= directory_end <= pack.len(),
    ensures
        (match entry {
            Ok((found, next)) => Ok((entry_model(found), next as int)),
            Err(message) => Err(message@),
        }) == entry_outcome(family, pack@, id@, kind, cursor as int, directory_end as int),
        entry matches Ok((found, next)) ==> cursor <= next <= directory_end && valid_alignment(
            found.alignment,
        ),
{
    let subject: String = pack_subject(family);
    let room: usize = directory_end - cursor;
    if room < PACK_DIRECTORY_FIXED_BYTES {
        return Err(join2(subject.as_str(), "directory fixed entry is truncated"));
    }
    let id_length: usize = pack_u16_le(pack, cursor) as usize;
    let alignment: u64 = pack_u32_le(pack, cursor + 4) as u64;
    if pack[cursor + 3] != 0 {
        return Err(join2(subject.as_str(), "directory reserved byte is nonzero"));
    }
    if pack[cursor + 2] != kind {
        return Err(join4(subject.as_str(), "section ", id, " kind drifted"));
    }
    if !alignment_is_valid(alignment) {
        return Err(join4(subject.as_str(), "section ", id, " alignment is invalid"));
    }
    let entry_length: usize = pack_align_up(
        PACK_DIRECTORY_FIXED_BYTES + id_length,
        PACK_DIRECTORY_ENTRY_ALIGNMENT,
    );
    if room < entry_length {
        return Err(join2(subject.as_str(), "directory entry is truncated"));
    }
    let fixed_end: usize = cursor + PACK_DIRECTORY_FIXED_BYTES;
    let id_end: usize = fixed_end + id_length;
    let entry_end: usize = cursor + entry_length;
    let name: &[u8] = slice_subrange(pack, fixed_end, id_end);
    match crate::text::utf8_text(name) {
        Ok(text) => {
            proof {
                crate::text::lemma_text_decodes(text);
            }
            if !same(text, id) {
                return Err(join3(subject.as_str(), "section order drifted at ", id));
            }
        },
        Err(message) => {
            return Err(
                join3(
                    subject.as_str(),
                    "directory entry id UTF-8 is invalid: ",
                    message.as_str(),
                ),
            );
        },
    }
    if !pack_padding_is_zero(slice_subrange(pack, id_end, entry_end)) {
        return Err(join4(subject.as_str(), "directory entry ", id, " contains nonzero padding"));
    }
    let entry: PackEntry = PackEntry {
        offset: pack_u64_le(pack, cursor + 8),
        byte_length: pack_u64_le(pack, cursor + 16),
        alignment,
        digest: read_digest(pack, cursor + 24),
    };
    Ok((entry, entry_end))
}

/// The kind byte of a section: the descriptor comes first, the shards after it.
pub open spec fn section_kind(index: int) -> u8 {
    if index == 0 {
        1
    } else {
        2
    }
}

/// The entries of a directory from one of its sections on, or the first refusal.
pub open spec fn directory_from(
    family: Family,
    bytes: Seq<u8>,
    ids: Seq<Seq<char>>,
    directory_end: int,
    index: int,
    cursor: int,
    read: Seq<EntryModel>,
) -> Result<Seq<EntryModel>, Seq<char>>
    decreases ids.len() - index,
{
    if index >= ids.len() {
        if cursor != directory_end {
            Err(crate::pack::pack_noun(family) + "directory length drifted"@)
        } else {
            Ok(read)
        }
    } else {
        match entry_outcome(family, bytes, ids[index], section_kind(index), cursor, directory_end) {
            Err(message) => Err(message),
            Ok((entry, next)) => directory_from(
                family,
                bytes,
                ids,
                directory_end,
                index + 1,
                next,
                read.push(entry),
            ),
        }
    }
}

/// Reads the directory of a pack.
pub fn read_directory(family: Family, pack: &[u8], ids: &[&str], prefix: &PackPrefix) -> (entries:
    Result<Vec<PackEntry>, String>)
    requires
        prefix.manifest_end <= prefix.directory_end <= pack.len(),
    ensures
        (match entries {
            Ok(found) => Ok(entry_models(found@)),
            Err(message) => Err(message@),
        }) == directory_from(
            family,
            pack@,
            crate::text::names(ids@),
            prefix.directory_end as int,
            0,
            prefix.manifest_end as int,
            Seq::empty(),
        ),
        entries matches Ok(found) ==> found.len() == ids.len() && forall|i: int|
            0 <= i < found.len() ==> valid_alignment(#[trigger] found@[i].alignment),
{
    let ghost wanted = crate::text::names(ids@);
    let mut entries: Vec<PackEntry> = Vec::new();
    let mut cursor: usize = prefix.manifest_end;
    let mut index: usize = 0;
    assert(entry_models(entries@) =~= Seq::<EntryModel>::empty());
    while index < ids.len()
        invariant
            index <= ids.len(),
            entries.len() == index,
            wanted == crate::text::names(ids@),
            cursor <= prefix.directory_end <= pack.len(),
            forall|i: int| 0 <= i < index ==> valid_alignment(#[trigger] entries@[i].alignment),
            directory_from(
                family,
                pack@,
                wanted,
                prefix.directory_end as int,
                0,
                prefix.manifest_end as int,
                Seq::empty(),
            ) == directory_from(
                family,
                pack@,
                wanted,
                prefix.directory_end as int,
                index as int,
                cursor as int,
                entry_models(entries@),
            ),
        decreases ids.len() - index,
    {
        let kind: u8 = if index == 0 {
            1
        } else {
            2
        };
        assert(wanted[index as int] == ids@[index as int]@);
        let ghost before = entries@;
        let (entry, next) = read_entry(
            family,
            pack,
            ids[index],
            kind,
            cursor,
            prefix.directory_end,
        )?;
        entries.push(entry);
        assert(entry_models(entries@) =~= entry_models(before).push(entry_model(entry)));
        cursor = next;
        index += 1;
    }
    if cursor != prefix.directory_end {
        return Err(join2(pack_subject(family).as_str(), "directory length drifted"));
    }
    Ok(entries)
}

/// Where a section ends that follows another one, or why it is refused.
pub open spec fn section_outcome(
    family: Family,
    bytes: Seq<u8>,
    id: Seq<char>,
    entry: EntryModel,
    previous_end: int,
) -> Result<int, Seq<char>> {
    let subject = crate::pack::pack_noun(family);
    let section_end = entry.offset + entry.byte_length;
    if entry.offset > usize::MAX {
        Err(subject + "section offset"@ + " offset is too large"@)
    } else if entry.byte_length > usize::MAX {
        Err(subject + "section length"@ + " offset is too large"@)
    } else if section_end > usize::MAX {
        Err(subject + "section length overflowed"@)
    } else if entry.offset != crate::pack::align_up(previous_end, entry.alignment as int)
        || section_end > bytes.len() {
        Err(subject + "section "@ + id + " layout is invalid"@)
    } else if !crate::pack::all_zero(bytes.subrange(previous_end, entry.offset as int)) {
        Err(subject + "section "@ + id + " leading alignment contains nonzero padding"@)
    } else if crate::digest::blake3_hash(bytes.subrange(entry.offset as int, section_end))
        != entry.digest {
        Err(subject + "section "@ + id + " BLAKE3 digest mismatch"@)
    } else {
        Ok(section_end)
    }
}

/// The payloads of the sections from one of them on, or the first refusal.
pub open spec fn sections_from(
    family: Family,
    bytes: Seq<u8>,
    ids: Seq<Seq<char>>,
    entries: Seq<EntryModel>,
    index: int,
    previous_end: int,
    read: Seq<Seq<u8>>,
) -> Result<Seq<Seq<u8>>, Seq<char>>
    decreases entries.len() - index,
{
    if index >= entries.len() {
        if previous_end != bytes.len() {
            Err(
                crate::pack::pack_noun(family) + "has trailing or missing section bytes"@,
            )
        } else {
            Ok(read)
        }
    } else {
        match section_outcome(family, bytes, ids[index], entries[index], previous_end) {
            Err(message) => Err(message),
            Ok(section_end) => sections_from(
                family,
                bytes,
                ids,
                entries,
                index + 1,
                section_end,
                read.push(bytes.subrange(entries[index].offset as int, section_end)),
            ),
        }
    }
}

/// Payloads as byte sequences.
pub open spec fn payload_bytes(payloads: Seq<&[u8]>) -> Seq<Seq<u8>> {
    payloads.map_values(|payload: &[u8]| payload@)
}

/// Checks one section, and gives its payload and its end.
fn read_section<'a>(
    family: Family,
    pack: &'a [u8],
    id: &str,
    entry: &PackEntry,
    previous_end: usize,
) -> (section: Result<(&'a [u8], usize), String>)
    requires
        previous_end <= pack.len(),
        valid_alignment(entry.alignment),
    ensures
        match section {
            Ok((payload, end)) => section_outcome(
                family,
                pack@,
                id@,
                entry_model(*entry),
                previous_end as int,
            ) == Ok::<int, Seq<char>>(end as int) && end <= pack.len() && payload@
                == pack@.subrange(entry.offset as int, end as int),
            Err(message) => section_outcome(
                family,
                pack@,
                id@,
                entry_model(*entry),
                previous_end as int,
            ) == Err::<int, Seq<char>>(message@),
        },
{
    let subject: String = pack_subject(family);
    let alignment: usize = entry.alignment as usize;
    let offset: usize = pack_usize(family, entry.offset, "section offset")?;
    let byte_length: usize = pack_usize(family, entry.byte_length, "section length")?;
    let section_end: usize = match offset.checked_add(byte_length) {
        Some(end) => end,
        None => {
            return Err(join2(subject.as_str(), "section length overflowed"));
        },
    };
    let remainder: usize = previous_end % alignment;
    let gap: usize = if remainder == 0 {
        0
    } else {
        alignment - remainder
    };
    if offset < previous_end || offset - previous_end != gap || section_end > pack.len() {
        return Err(join4(subject.as_str(), "section ", id, " layout is invalid"));
    }
    if !pack_padding_is_zero(slice_subrange(pack, previous_end, offset)) {
        return Err(
            join4(
                subject.as_str(),
                "section ",
                id,
                " leading alignment contains nonzero padding",
            ),
        );
    }
    let payload: &[u8] = slice_subrange(pack, offset, section_end);
    let digest: [u8; 32] = crate::digest::hash_bytes(payload);
    if !crate::text::same_bytes(digest.as_slice(), entry.digest.as_slice()) {
        return Err(join4(subject.as_str(), "section ", id, " BLAKE3 digest mismatch"));
    }
    Ok((payload, section_end))
}

/// Checks the sections of a pack against its directory, and gives their payloads.
pub fn read_sections<'a>(
    family: Family,
    pack: &'a [u8],
    ids: &[&str],
    entries: &Vec<PackEntry>,
    directory_end: usize,
) -> (payloads: Result<Vec<&'a [u8]>, String>)
    requires
        directory_end <= pack.len(),
        entries.len() == ids.len(),
        forall|i: int| 0 <= i < entries.len() ==> valid_alignment(#[trigger] entries@[i].alignment),
    ensures
        (match payloads {
            Ok(found) => Ok(payload_bytes(found@)),
            Err(message) => Err(message@),
        }) == sections_from(
            family,
            pack@,
            crate::text::names(ids@),
            entry_models(entries@),
            0,
            directory_end as int,
            Seq::empty(),
        ),
        payloads matches Ok(found) ==> found.len() == ids.len(),
{
    let ghost wanted = crate::text::names(ids@);
    let ghost models = entry_models(entries@);
    let mut payloads: Vec<&'a [u8]> = Vec::new();
    let mut previous_end: usize = directory_end;
    let mut index: usize = 0;
    assert(payload_bytes(payloads@) =~= Seq::<Seq<u8>>::empty());
    while index < entries.len()
        invariant
            index <= entries.len(),
            entries.len() == ids.len(),
            payloads.len() == index,
            previous_end <= pack.len(),
            wanted == crate::text::names(ids@),
            models == entry_models(entries@),
            forall|i: int|
                0 <= i < entries.len() ==> valid_alignment(#[trigger] entries@[i].alignment),
            sections_from(
                family,
                pack@,
                wanted,
                models,
                0,
                directory_end as int,
                Seq::empty(),
            ) == sections_from(
                family,
                pack@,
                wanted,
                models,
                index as int,
                previous_end as int,
                payload_bytes(payloads@),
            ),
        decreases entries.len() - index,
    {
        assert(wanted[index as int] == ids@[index as int]@);
        assert(models[index as int] == entry_model(entries@[index as int]));
        let ghost before = payloads@;
        let (payload, end) = read_section(
            family,
            pack,
            ids[index],
            &entries[index],
            previous_end,
        )?;
        payloads.push(payload);
        assert(payload_bytes(payloads@) =~= payload_bytes(before).push(payload@));
        previous_end = end;
        index += 1;
    }
    if previous_end != pack.len() {
        return Err(join2(pack_subject(family).as_str(), "has trailing or missing section bytes"));
    }
    Ok(payloads)
}

} // verus!
