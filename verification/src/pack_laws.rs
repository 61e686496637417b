//! What holds of every weight pack that is admitted.

use crate::family::{DecoderPins, Family, WeightStorage};
use crate::json::Members;
use crate::pack_descriptor::DescriptorRequest;
use crate::pack_layout::{EntryModel, PackPrefix};
use crate::weight_pack::PackModel;
use vstd::prelude::*;

verus! {

/// Where the section before one ends; before the first section, where the directory ends.
pub open spec fn end_before(entries: Seq<EntryModel>, directory_end: int, index: int) -> int {
    if index == 0 {
        directory_end
    } else {
        entries[index - 1].offset + entries[index - 1].byte_length
    }
}

/// The bytes of a section.
pub open spec fn section_bytes(bytes: Seq<u8>, entry: EntryModel) -> Seq<u8> {
    bytes.subrange(entry.offset as int, entry.offset + entry.byte_length)
}

/// Whether a section stands where the one before it asks for: aligned, behind zeros only,
/// inside the file, with the digest that the directory names.
pub open spec fn section_in_place(
    bytes: Seq<u8>,
    entries: Seq<EntryModel>,
    directory_end: int,
    index: int,
) -> bool {
    let entry = entries[index];
    let before = end_before(entries, directory_end, index);
    &&& entry.offset == crate::pack::align_up(before, entry.alignment as int)
    &&& before <= entry.offset
    &&& entry.offset + entry.byte_length <= bytes.len()
    &&& crate::pack::all_zero(bytes.subrange(before, entry.offset as int))
    &&& crate::digest::blake3_hash(section_bytes(bytes, entry)) == entry.digest
}

/// Whether sections fill a file from the directory to its last byte.
pub open spec fn tiles(bytes: Seq<u8>, entries: Seq<EntryModel>, directory_end: int) -> bool {
    &&& forall|i: int|
        0 <= i < entries.len() ==> #[trigger] section_in_place(bytes, entries, directory_end, i)
    &&& end_before(entries, directory_end, entries.len() as int) == bytes.len()
}

proof fn lemma_alignments_are_valid(
    family: Family,
    bytes: Seq<u8>,
    ids: Seq<Seq<char>>,
    directory_end: int,
    index: int,
    cursor: int,
    read: Seq<EntryModel>,
    entries: Seq<EntryModel>,
)
    requires
        0 <= index <= ids.len(),
        read.len() == index,
        forall|i: int|
            0 <= i < read.len() ==> crate::pack_layout::valid_alignment(
                #[trigger] read[i].alignment,
            ),
        crate::pack_layout::directory_from(
            family,
            bytes,
            ids,
            directory_end,
            index,
            cursor,
            read,
        ) == Ok::<Seq<EntryModel>, Seq<char>>(entries),
    ensures
        entries.len() == ids.len(),
        forall|i: int|
            0 <= i < entries.len() ==> crate::pack_layout::valid_alignment(
                #[trigger] entries[i].alignment,
            ),
    decreases ids.len() - index,
{
    if index < ids.len() {
        let outcome = crate::pack_layout::entry_outcome(
            family,
            bytes,
            ids[index],
            crate::pack_layout::section_kind(index),
            cursor,
            directory_end,
        );
        let (entry, next) = outcome->Ok_0;
        lemma_alignments_are_valid(
            family,
            bytes,
            ids,
            directory_end,
            index + 1,
            next,
            read.push(entry),
            entries,
        );
    }
}

proof fn lemma_sections_in_place(
    family: Family,
    bytes: Seq<u8>,
    ids: Seq<Seq<char>>,
    entries: Seq<EntryModel>,
    directory_end: int,
    index: int,
    previous_end: int,
    read: Seq<Seq<u8>>,
    payloads: Seq<Seq<u8>>,
)
    requires
        0 <= index <= entries.len(),
        0 <= previous_end <= bytes.len(),
        previous_end == end_before(entries, directory_end, index),
        forall|i: int|
            0 <= i < entries.len() ==> crate::pack_layout::valid_alignment(
                #[trigger] entries[i].alignment,
            ),
        read.len() == index,
        forall|i: int| 0 <= i < index ==> #[trigger] read[i] == section_bytes(bytes, entries[i]),
        forall|i: int|
            0 <= i < index ==> #[trigger] section_in_place(bytes, entries, directory_end, i),
        crate::pack_layout::sections_from(
            family,
            bytes,
            ids,
            entries,
            index,
            previous_end,
            read,
        ) == Ok::<Seq<Seq<u8>>, Seq<char>>(payloads),
    ensures
        tiles(bytes, entries, directory_end),
        payloads.len() == entries.len(),
        forall|i: int|
            0 <= i < entries.len() ==> #[trigger] payloads[i] == section_bytes(bytes, entries[i]),
    decreases entries.len() - index,
{
    if index < entries.len() {
        let entry = entries[index];
        let section_end = entry.offset + entry.byte_length;
        crate::pack::lemma_align_up_multiple(previous_end, entry.alignment as int);
        assert(section_in_place(bytes, entries, directory_end, index));
        lemma_sections_in_place(
            family,
            bytes,
            ids,
            entries,
            directory_end,
            index + 1,
            section_end,
            read.push(section_bytes(bytes, entry)),
            payloads,
        );
    }
}

/// The header that an admitted pack has.
pub open spec fn admitted_prefix(family: Family, bytes: Seq<u8>) -> PackPrefix {
    crate::pack_layout::prefix_outcome(family, bytes)->Ok_0
}

/// The directory that an admitted pack has.
pub open spec fn admitted_directory(family: Family, bytes: Seq<u8>) -> Seq<EntryModel> {
    let prefix = admitted_prefix(family, bytes);
    crate::pack_layout::directory_from(
        family,
        bytes,
        crate::weight_pack::section_names(family, prefix.section_count),
        prefix.directory_end as int,
        0,
        prefix.manifest_end as int,
        Seq::empty(),
    )->Ok_0
}

/// The payloads that the sections of an admitted pack have.
pub open spec fn admitted_payloads(family: Family, bytes: Seq<u8>) -> Seq<Seq<u8>> {
    let prefix = admitted_prefix(family, bytes);
    crate::pack_layout::sections_from(
        family,
        bytes,
        crate::weight_pack::section_names(family, prefix.section_count),
        admitted_directory(family, bytes),
        0,
        prefix.directory_end as int,
        Seq::empty(),
    )->Ok_0
}

proof fn lemma_admitted_parts(
    family: Family,
    pins: DecoderPins,
    bytes: Seq<u8>,
    request: DescriptorRequest,
    model: PackModel,
)
    requires
        crate::weight_pack::pack_outcome(family, pins, bytes, request) == Ok::<
            PackModel,
            Seq<char>,
        >(model),
    ensures
        ({
            let prefix = admitted_prefix(family, bytes);
            let ids = crate::weight_pack::section_names(family, prefix.section_count);
            let entries = admitted_directory(family, bytes);
            let payloads = admitted_payloads(family, bytes);
            &&& tiles(bytes, entries, prefix.directory_end as int)
            &&& entries.len() == ids.len()
            &&& payloads.len() == ids.len()
            &&& ids.len() >= 1
            &&& forall|i: int|
                0 <= i < entries.len() ==> #[trigger] payloads[i] == section_bytes(
                    bytes,
                    entries[i],
                )
            &&& model.shards == payloads.drop_first()
            &&& exists|shards: Members| #[trigger]
                crate::weight_pack::shards_complaint_from(
                    family,
                    pins,
                    shards,
                    ids,
                    entries,
                    payloads,
                    request.cache_capacity,
                    model.storage,
                    1,
                ) is None
        }),
{
    let prefix = admitted_prefix(family, bytes);
    let ids = crate::weight_pack::section_names(family, prefix.section_count);
    let entries = admitted_directory(family, bytes);
    lemma_alignments_are_valid(
        family,
        bytes,
        ids,
        prefix.directory_end as int,
        0,
        prefix.manifest_end as int,
        Seq::empty(),
        entries,
    );
    let payloads = admitted_payloads(family, bytes);
    lemma_sections_in_place(
        family,
        bytes,
        ids,
        entries,
        prefix.directory_end as int,
        0,
        prefix.directory_end as int,
        Seq::empty(),
        payloads,
    );
    let descriptor = crate::pack_descriptor::descriptor_outcome(
        family,
        pins,
        payloads[0],
        request,
        ids.drop_first(),
        model.storage,
    )->Ok_0;
    assert(crate::weight_pack::shards_complaint_from(
        family,
        pins,
        descriptor.shards,
        ids,
        entries,
        payloads,
        request.cache_capacity,
        model.storage,
        1,
    ) is None);
}

/// An admitted pack has no stray bytes: behind its directory, its sections follow one
/// another with nothing between them but the zeros that their alignments ask for, each with
/// the digest that the directory names, up to the last byte; and its shards are the
/// sections behind the first.
pub proof fn law_admitted_pack_is_tiled(
    family: Family,
    pins: DecoderPins,
    bytes: Seq<u8>,
    request: DescriptorRequest,
    model: PackModel,
)
    requires
        crate::weight_pack::pack_outcome(family, pins, bytes, request) == Ok::<
            PackModel,
            Seq<char>,
        >(model),
    ensures
        tiles(
            bytes,
            admitted_directory(family, bytes),
            admitted_prefix(family, bytes).directory_end as int,
        ),
        model.shards.len() + 1 == admitted_directory(family, bytes).len(),
        forall|i: int|
            0 <= i < model.shards.len() ==> #[trigger] model.shards[i] == section_bytes(
                bytes,
                admitted_directory(family, bytes)[i + 1],
            ),
{
    lemma_admitted_parts(family, pins, bytes, request, model);
}

proof fn lemma_every_shard_is_sound(
    family: Family,
    pins: DecoderPins,
    shards: Members,
    ids: Seq<Seq<char>>,
    entries: Seq<EntryModel>,
    payloads: Seq<Seq<u8>>,
    cache_capacity: u32,
    storage: WeightStorage,
    index: int,
    shard: int,
)
    requires
        1 <= index <= shard < ids.len(),
        crate::weight_pack::shards_complaint_from(
            family,
            pins,
            shards,
            ids,
            entries,
            payloads,
            cache_capacity,
            storage,
            index,
        ) is None,
    ensures
        crate::weight_pack::shard_complaint(
            family,
            shards,
            ids[shard],
            shard - 1,
            crate::weight_pack::shard_bytes(family, pins, shard - 1, cache_capacity, storage),
            entries[shard],
            payloads[shard],
            storage,
        ) is None,
    decreases shard - index,
{
    if index < shard {
        lemma_every_shard_is_sound(
            family,
            pins,
            shards,
            ids,
            entries,
            payloads,
            cache_capacity,
            storage,
            index + 1,
            shard,
        );
    }
}

/// Whether every element of a shard is finite.
pub open spec fn finite_elements(payload: Seq<u8>, storage: WeightStorage) -> bool {
    match storage {
        WeightStorage::F32 => forall|i: int|
            0 <= i < payload.len() / 4 ==> crate::ieee::single_finite(
                #[trigger] crate::words::words32(payload)[i],
            ),
        WeightStorage::F16 => forall|i: int|
            0 <= i < payload.len() / 2 ==> crate::ieee::half_finite(
                #[trigger] crate::words::words16(payload)[i],
            ),
    }
}

proof fn lemma_sound_shard(
    family: Family,
    shards: Members,
    id: Seq<char>,
    shard: int,
    expected: Result<u64, Seq<char>>,
    entry: EntryModel,
    payload: Seq<u8>,
    storage: WeightStorage,
)
    requires
        crate::weight_pack::shard_complaint(
            family,
            shards,
            id,
            shard,
            expected,
            entry,
            payload,
            storage,
        ) is None,
    ensures
        expected == Ok::<u64, Seq<char>>(entry.byte_length),
        entry.byte_length % crate::family::element_bytes(
            crate::weight_pack::shard_storage(shard, storage),
        ) == 0,
        finite_elements(payload, crate::weight_pack::shard_storage(shard, storage)),
{
}

/// Every shard of an admitted pack has the size that the pinned geometry gives it, is a
/// whole number of elements, and holds finite elements only.
pub proof fn law_admitted_shards_are_sound(
    family: Family,
    pins: DecoderPins,
    bytes: Seq<u8>,
    request: DescriptorRequest,
    model: PackModel,
    shard: int,
)
    requires
        crate::weight_pack::pack_outcome(family, pins, bytes, request) == Ok::<
            PackModel,
            Seq<char>,
        >(model),
        0 <= shard < model.shards.len(),
    ensures
        crate::weight_pack::shard_bytes(
            family,
            pins,
            shard,
            request.cache_capacity,
            model.storage,
        ) == Ok::<u64, Seq<char>>(model.shards[shard].len() as u64),
        model.shards[shard].len() % crate::family::element_bytes(
            crate::weight_pack::shard_storage(shard, model.storage),
        ) as nat == 0,
        finite_elements(
            model.shards[shard],
            crate::weight_pack::shard_storage(shard, model.storage),
        ),
{
    lemma_admitted_parts(family, pins, bytes, request, model);
    let prefix = admitted_prefix(family, bytes);
    let ids = crate::weight_pack::section_names(family, prefix.section_count);
    let entries = admitted_directory(family, bytes);
    let payloads = admitted_payloads(family, bytes);
    let shards = choose|shards: Members| #[trigger]
        crate::weight_pack::shards_complaint_from(
            family,
            pins,
            shards,
            ids,
            entries,
            payloads,
            request.cache_capacity,
            model.storage,
            1,
        ) is None;
    assert(section_in_place(bytes, entries, prefix.directory_end as int, shard + 1));
    lemma_every_shard_is_sound(
        family,
        pins,
        shards,
        ids,
        entries,
        payloads,
        request.cache_capacity,
        model.storage,
        1,
        shard + 1,
    );
    lemma_sound_shard(
        family,
        shards,
        ids[shard + 1],
        shard,
        crate::weight_pack::shard_bytes(
            family,
            pins,
            shard,
            request.cache_capacity,
            model.storage,
        ),
        entries[shard + 1],
        payloads[shard + 1],
        model.storage,
    );
}

/// Whether two byte strings agree up to an offset that lies in both.
pub open spec fn agree_until(left: Seq<u8>, right: Seq<u8>, end: int) -> bool {
    &&& 0 <= end <= left.len()
    &&& end <= right.len()
    &&& forall|i: int| 0 <= i < end ==> left[i] == right[i]
}

proof fn lemma_entry_agrees(
    family: Family,
    left: Seq<u8>,
    right: Seq<u8>,
    id: Seq<char>,
    kind: u8,
    cursor: int,
    directory_end: int,
)
    requires
        agree_until(left, right, directory_end),
        0 <= cursor <= directory_end,
    ensures
        crate::pack_layout::entry_outcome(family, left, id, kind, cursor, directory_end)
            == crate::pack_layout::entry_outcome(family, right, id, kind, cursor, directory_end),
        crate::pack_layout::entry_outcome(family, left, id, kind, cursor, directory_end) matches Ok(
            (_, next),
        ) ==> cursor <= next <= directory_end,
{
    let fixed_end = cursor + crate::pack_layout::PACK_DIRECTORY_FIXED_BYTES;
    if fixed_end <= directory_end {
        assert(crate::words::word16(left, cursor) == crate::words::word16(right, cursor));
        let id_end = fixed_end + crate::words::word16(left, cursor);
        let entry_end = cursor + crate::pack::align_up(id_end - cursor, 8);
        crate::pack::lemma_align_up_multiple(id_end - cursor, 8);
        assert(crate::words::word32(left, cursor + 4) == crate::words::word32(right, cursor + 4));
        if entry_end <= directory_end {
            assert(left.subrange(fixed_end, id_end) =~= right.subrange(fixed_end, id_end));
            assert(left.subrange(id_end, entry_end) =~= right.subrange(id_end, entry_end));
            assert(left.subrange(cursor + 24, cursor + 56) =~= right.subrange(
                cursor + 24,
                cursor + 56,
            ));
            assert(crate::words::word64(left, cursor + 8) == crate::words::word64(
                right,
                cursor + 8,
            ));
            assert(crate::words::word64(left, cursor + 16) == crate::words::word64(
                right,
                cursor + 16,
            ));
        }
    }
}

proof fn lemma_directory_agrees(
    family: Family,
    left: Seq<u8>,
    right: Seq<u8>,
    ids: Seq<Seq<char>>,
    directory_end: int,
    index: int,
    cursor: int,
    read: Seq<EntryModel>,
)
    requires
        agree_until(left, right, directory_end),
        0 <= cursor <= directory_end,
        0 <= index <= ids.len(),
    ensures
        crate::pack_layout::directory_from(family, left, ids, directory_end, index, cursor, read)
            == crate::pack_layout::directory_from(
            family,
            right,
            ids,
            directory_end,
            index,
            cursor,
            read,
        ),
    decreases ids.len() - index,
{
    if index < ids.len() {
        let kind = crate::pack_layout::section_kind(index);
        lemma_entry_agrees(family, left, right, ids[index], kind, cursor, directory_end);
        let outcome = crate::pack_layout::entry_outcome(
            family,
            left,
            ids[index],
            kind,
            cursor,
            directory_end,
        );
        if let Ok((entry, next)) = outcome {
            lemma_directory_agrees(
                family,
                left,
                right,
                ids,
                directory_end,
                index + 1,
                next,
                read.push(entry),
            );
        }
    }
}

proof fn lemma_prefix_agrees(family: Family, left: Seq<u8>, right: Seq<u8>)
    requires
        agree_until(left, right, crate::pack_layout::PACK_HEADER_BYTES as int),
        crate::pack_layout::prefix_outcome(family, left) is Ok,
        crate::pack_layout::prefix_outcome(family, right) is Ok,
    ensures
        left.len() == right.len(),
        crate::pack_layout::prefix_outcome(family, left) == crate::pack_layout::prefix_outcome(
            family,
            right,
        ),
{
    assert(crate::words::word32(left, 12) == crate::words::word32(right, 12));
    assert(crate::words::word32(left, 16) == crate::words::word32(right, 16));
    assert(crate::words::word32(left, 20) == crate::words::word32(right, 20));
    assert(crate::words::word64(left, 24) == crate::words::word64(right, 24));
}

/// Whether no section of a pack has two payloads, in two packs with the same directory, that
/// differ and have the same digest.
pub open spec fn no_collision(left: Seq<u8>, right: Seq<u8>, entries: Seq<EntryModel>) -> bool {
    forall|i: int|
        0 <= i < entries.len() && section_bytes(left, entries[i]) != section_bytes(
            right,
            entries[i],
        ) ==> crate::digest::blake3_hash(#[trigger] section_bytes(left, entries[i]))
            != crate::digest::blake3_hash(section_bytes(right, entries[i]))
}

proof fn lemma_tiled_packs_agree(
    left: Seq<u8>,
    right: Seq<u8>,
    entries: Seq<EntryModel>,
    directory_end: int,
    index: int,
)
    requires
        agree_until(left, right, directory_end),
        tiles(left, entries, directory_end),
        tiles(right, entries, directory_end),
        no_collision(left, right, entries),
        0 <= index <= entries.len(),
    ensures
        agree_until(left, right, end_before(entries, directory_end, index)),
    decreases index,
{
    if index > 0 {
        let last = index - 1;
        lemma_tiled_packs_agree(left, right, entries, directory_end, last);
        let entry = entries[last];
        let before = end_before(entries, directory_end, last);
        assert(section_in_place(left, entries, directory_end, last));
        assert(section_in_place(right, entries, directory_end, last));
        assert(section_bytes(left, entry) == section_bytes(right, entry));
        let end = entry.offset + entry.byte_length;
        assert forall|i: int| 0 <= i < end implies left[i] == right[i] by {
            if before <= i < entry.offset {
                assert(left.subrange(before, entry.offset as int)[i - before] == 0);
                assert(right.subrange(before, entry.offset as int)[i - before] == 0);
            } else if entry.offset <= i {
                assert(section_bytes(left, entry)[i - entry.offset] == left[i]);
                assert(section_bytes(right, entry)[i - entry.offset] == right[i]);
            }
        }
    }
}

/// A pack that differs from an admitted one anywhere behind its directory, in one byte of a
/// payload or in many, in padding, or by bytes that are cut off or added, is refused, for any pins
/// and any request, unless one of its payloads has the digest of another payload that it took the
/// place of.
pub proof fn law_altered_pack_is_refused(
    family: Family,
    pins: DecoderPins,
    bytes: Seq<u8>,
    request: DescriptorRequest,
    altered: Seq<u8>,
    other_pins: DecoderPins,
    other_request: DescriptorRequest,
)
    requires
        crate::weight_pack::pack_outcome(family, pins, bytes, request) is Ok,
        agree_until(bytes, altered, admitted_prefix(family, bytes).directory_end as int),
        altered != bytes,
        no_collision(bytes, altered, admitted_directory(family, bytes)),
    ensures
        crate::weight_pack::pack_outcome(family, other_pins, altered, other_request) is Err,
{
    let outcome = crate::weight_pack::pack_outcome(family, other_pins, altered, other_request);
    if outcome is Ok {
        let model = crate::weight_pack::pack_outcome(family, pins, bytes, request)->Ok_0;
        let prefix = admitted_prefix(family, bytes);
        let entries = admitted_directory(family, bytes);
        lemma_prefix_agrees(family, bytes, altered);
        lemma_directory_agrees(
            family,
            bytes,
            altered,
            crate::weight_pack::section_names(family, prefix.section_count),
            prefix.directory_end as int,
            0,
            prefix.manifest_end as int,
            Seq::empty(),
        );
        lemma_admitted_parts(family, pins, bytes, request, model);
        lemma_admitted_parts(family, other_pins, altered, other_request, outcome->Ok_0);
        lemma_tiled_packs_agree(
            bytes,
            altered,
            entries,
            prefix.directory_end as int,
            entries.len() as int,
        );
        assert(altered =~= bytes);
    }
}

proof fn lemma_sections_lie_behind_the_directory(
    bytes: Seq<u8>,
    entries: Seq<EntryModel>,
    directory_end: int,
    index: int,
)
    requires
        tiles(bytes, entries, directory_end),
        0 <= index <= entries.len(),
    ensures
        directory_end <= end_before(entries, directory_end, index),
    decreases index,
{
    if index > 0 {
        lemma_sections_lie_behind_the_directory(bytes, entries, directory_end, index - 1);
        assert(section_in_place(bytes, entries, directory_end, index - 1));
    }
}

/// A pack that differs from an admitted one in one byte of one payload is refused, for any pins
/// and any request, unless the two payloads have the same digest.
pub proof fn law_changed_payload_byte_is_refused(
    family: Family,
    pins: DecoderPins,
    bytes: Seq<u8>,
    request: DescriptorRequest,
    section: int,
    place: int,
    byte: u8,
    other_pins: DecoderPins,
    other_request: DescriptorRequest,
)
    requires
        crate::weight_pack::pack_outcome(family, pins, bytes, request) is Ok,
        0 <= section < admitted_directory(family, bytes).len(),
        ({
            let entry = admitted_directory(family, bytes)[section];
            &&& entry.offset <= place < entry.offset + entry.byte_length
            &&& byte != bytes[place]
            &&& crate::digest::blake3_hash(section_bytes(bytes, entry))
                != crate::digest::blake3_hash(section_bytes(bytes.update(place, byte), entry))
        }),
    ensures
        crate::weight_pack::pack_outcome(
            family,
            other_pins,
            bytes.update(place, byte),
            other_request,
        ) is Err,
{
    let model = crate::weight_pack::pack_outcome(family, pins, bytes, request)->Ok_0;
    lemma_admitted_parts(family, pins, bytes, request, model);
    let entries = admitted_directory(family, bytes);
    let directory_end = admitted_prefix(family, bytes).directory_end as int;
    let altered = bytes.update(place, byte);
    let entry = entries[section];
    assert(section_in_place(bytes, entries, directory_end, section));
    lemma_sections_lie_behind_the_directory(bytes, entries, directory_end, section);
    assert(altered[place] != bytes[place]);
    assert forall|i: int|
        0 <= i < entries.len() && section_bytes(bytes, entries[i]) != section_bytes(
            altered,
            entries[i],
        ) implies crate::digest::blake3_hash(#[trigger] section_bytes(bytes, entries[i]))
        != crate::digest::blake3_hash(section_bytes(altered, entries[i])) by {
        assert(section_in_place(bytes, entries, directory_end, i));
        if i < section {
            lemma_sections_are_apart(bytes, entries, directory_end, i, section);
            assert(section_bytes(bytes, entries[i]) =~= section_bytes(altered, entries[i]));
        } else if section < i {
            lemma_sections_are_apart(bytes, entries, directory_end, section, i);
            assert(section_bytes(bytes, entries[i]) =~= section_bytes(altered, entries[i]));
        }
    }
    law_altered_pack_is_refused(
        family,
        pins,
        bytes,
        request,
        altered,
        other_pins,
        other_request,
    );
}

proof fn lemma_sections_are_apart(
    bytes: Seq<u8>,
    entries: Seq<EntryModel>,
    directory_end: int,
    first: int,
    second: int,
)
    requires
        tiles(bytes, entries, directory_end),
        0 <= first < second < entries.len(),
    ensures
        entries[first].offset + entries[first].byte_length <= entries[second].offset,
    decreases second - first,
{
    assert(section_in_place(bytes, entries, directory_end, second));
    if first + 1 < second {
        lemma_sections_are_apart(bytes, entries, directory_end, first, second - 1);
    }
}

} // verus!
