//! What GPU work does to the bytes on a device.
//!
//! A device is taken as the bytes in its buffers and what its kernels make of the bytes that are
//! bound to them. What the kernels compute is up to the device, so what is said of all devices
//! says which bytes reach which kernel, in which order, and where its results go.

use crate::device_laws::Memory;
use crate::gpu::{BindGroupModel, Binding, BufferPlan, CommandModel, DerivedModel, WriteModel};
use crate::readback::Readback;
use crate::stack_resources::{BindingKind, LayoutEntry, PipelineModel};
use vstd::prelude::*;

verus! {

/// What the kernels of a device compute: the source of a shader, the dispatch, the bytes of the
/// bindings that it reads, which of the bindings that it stores into is meant, and the bytes
/// there before give the bytes there afterwards.
pub type Device = spec_fn(Seq<char>, [u32; 3], Seq<Seq<u8>>, int, Seq<u8>) -> Seq<u8>;

/// Whether the kernels of a device store inside the bindings that they are given.
pub open spec fn keeps_lengths(device: Device) -> bool {
    forall|source: Seq<char>, dispatch: [u32; 3], reads: Seq<Seq<u8>>, place: int, before: Seq<u8>|
        (#[trigger] device(source, dispatch, reads, place, before)).len() == before.len()
}

/// A range of bytes.
pub open spec fn range(bytes: Seq<u8>, offset: int, size: int) -> Seq<u8> {
    bytes.subrange(offset, offset + size)
}

/// Bytes with a part of them replaced.
pub open spec fn patched(bytes: Seq<u8>, offset: int, part: Seq<u8>) -> Seq<u8> {
    Seq::new(
        bytes.len(),
        |i: int|
            if offset <= i < offset + part.len() {
                part[i - offset]
            } else {
                bytes[i]
            },
    )
}

/// A memory once the queue has carried out a number of writes.
pub open spec fn written(writes: Seq<WriteModel>, memory: Memory, count: int) -> Memory
    decreases count,
{
    if count <= 0 {
        memory
    } else {
        let before = written(writes, memory, count - 1);
        let place = writes[count - 1].buffer as int;
        before.update(place, patched(before[place], 0, writes[count - 1].bytes))
    }
}

/// What passes run on: a device, the sources of its pipelines by their places, the bindings of
/// its layouts, and its bind groups.
pub struct Setup {
    pub device: Device,
    pub shaders: spec_fn(usize) -> Seq<char>,
    pub layouts: spec_fn(usize) -> Seq<LayoutEntry>,
    pub groups: Seq<BindGroupModel>,
}

/// Where a binding starts, given the offsets of a pass.
pub open spec fn entry_offset(entries: Seq<LayoutEntry>, offsets: Seq<u64>, place: int) -> int {
    if entries[place].dynamic {
        offsets[crate::stack_laws::dynamic_before(entries, place) as int] as int
    } else {
        0
    }
}

/// The bytes of a binding of a group.
pub open spec fn bound_bytes(
    group: BindGroupModel,
    entries: Seq<LayoutEntry>,
    offsets: Seq<u64>,
    memory: Memory,
    place: int,
) -> Seq<u8> {
    range(
        memory[group.bindings[place].buffer as int],
        entry_offset(entries, offsets, place),
        group.bindings[place].size as int,
    )
}

/// The bytes of the bindings before a place that a kernel only reads.
pub open spec fn read_before(
    group: BindGroupModel,
    entries: Seq<LayoutEntry>,
    offsets: Seq<u64>,
    memory: Memory,
    place: int,
) -> Seq<Seq<u8>>
    decreases place,
{
    if place <= 0 {
        Seq::empty()
    } else {
        let before = read_before(group, entries, offsets, memory, place - 1);
        if entries[place - 1].kind is Storage {
            before
        } else {
            before.push(bound_bytes(group, entries, offsets, memory, place - 1))
        }
    }
}

/// The number of bindings before a place that a kernel stores into.
pub open spec fn stores_before(entries: Seq<LayoutEntry>, place: int) -> int
    decreases place,
{
    if place <= 0 {
        0
    } else {
        stores_before(entries, place - 1) + (if entries[place - 1].kind is Storage {
            1int
        } else {
            0
        })
    }
}

/// A memory once a kernel has stored into the bindings before a place.
pub open spec fn stored(
    device: Device,
    source: Seq<char>,
    dispatch: [u32; 3],
    group: BindGroupModel,
    entries: Seq<LayoutEntry>,
    offsets: Seq<u64>,
    memory: Memory,
    place: int,
) -> Memory
    decreases place,
{
    if place <= 0 {
        memory
    } else {
        let before = stored(
            device,
            source,
            dispatch,
            group,
            entries,
            offsets,
            memory,
            place - 1,
        );
        if entries[place - 1].kind is Storage {
            let buffer = group.bindings[place - 1].buffer as int;
            before.update(
                buffer,
                patched(
                    before[buffer],
                    entry_offset(entries, offsets, place - 1),
                    device(
                        source,
                        dispatch,
                        read_before(
                            group,
                            entries,
                            offsets,
                            memory,
                            group.bindings.len() as int,
                        ),
                        stores_before(entries, place - 1),
                        bound_bytes(group, entries, offsets, memory, place - 1),
                    ),
                ),
            )
        } else {
            before
        }
    }
}

/// A memory once a command is carried out.
pub open spec fn carried_out(setup: Setup, command: CommandModel, memory: Memory) -> Memory {
    match command {
        CommandModel::Pass { pipeline, bind_group, dispatch, offsets } => {
            let group = setup.groups[bind_group as int];
            stored(
                setup.device,
                (setup.shaders)(pipeline),
                dispatch,
                group,
                (setup.layouts)(group.pipeline),
                offsets,
                memory,
                group.bindings.len() as int,
            )
        },
        CommandModel::Copy { source, source_offset, destination, destination_offset, bytes } =>
            memory.update(
            destination as int,
            patched(
                memory[destination as int],
                destination_offset as int,
                range(memory[source as int], source_offset as int, bytes as int),
            ),
        ),
    }
}

/// A memory once a number of commands are carried out, in order.
pub open spec fn after(
    setup: Setup,
    commands: Seq<CommandModel>,
    memory: Memory,
    count: int,
) -> Memory
    decreases count,
{
    if count <= 0 {
        memory
    } else {
        carried_out(setup, commands[count - 1], after(setup, commands, memory, count - 1))
    }
}

/// A memory once an operation is done: its writes, then its commands.
pub open spec fn performed(
    setup: Setup,
    writes: Seq<WriteModel>,
    commands: Seq<CommandModel>,
    memory: Memory,
) -> Memory {
    after(setup, commands, written(writes, memory, writes.len() as int), commands.len() as int)
}

/// The bytes that readbacks bring back from a memory, in order.
pub open spec fn brought_back(memory: Memory, readbacks: Seq<Readback>) -> Seq<Seq<u8>> {
    Seq::new(
        readbacks.len(),
        |i: int| range(memory[readbacks[i].buffer as int], 0, readbacks[i].bytes as int),
    )
}

/// The bindings of a layout that a device derives from a shader: no pass moves them.
pub open spec fn derived_entries(entries: Seq<LayoutEntry>) -> Seq<LayoutEntry> {
    Seq::new(entries.len(), |i: int| LayoutEntry { kind: entries[i].kind, dynamic: false })
}

/// The source of the pipeline with a derived layout that was created at a place.
pub open spec fn derived_source(pipelines: Seq<DerivedModel>, place: usize) -> Seq<char> {
    pipelines[choose|i: int|
        0 <= i < pipelines.len() && (#[trigger] pipelines[i]).place == place].source
}

/// The source of the pipeline that was created at a place.
pub open spec fn placed_source(pipelines: Seq<PipelineModel>, place: usize) -> Seq<char> {
    pipelines[choose|i: int|
        0 <= i < pipelines.len() && (#[trigger] pipelines[i]).place == place].source
}

/// The bytes of four uniform words.
pub open spec fn uniform(words: [u32; 4]) -> Seq<u8> {
    crate::words::bytes_of_words32(words@)
}

/// Whether bytes are the payload of a section of a pack. The first name is that of the
/// descriptor, which is not among the shards.
pub open spec fn holds_section(
    bytes: Seq<u8>,
    names: Seq<Seq<char>>,
    shards: Seq<Seq<u8>>,
    name: Seq<char>,
) -> bool {
    exists|i: int|
        0 <= i < shards.len() && i + 1 < names.len() && names[i + 1] == name && bytes
            == #[trigger] shards[i]
}

/// Ranges and patches of whole buffers.
pub proof fn lemma_whole()
    ensures
        forall|bytes: Seq<u8>, size: int|
            size == bytes.len() ==> #[trigger] range(bytes, 0, size) == bytes,
        forall|bytes: Seq<u8>, part: Seq<u8>|
            part.len() == bytes.len() ==> #[trigger] patched(bytes, 0, part) == part,
{
    assert forall|bytes: Seq<u8>, size: int| size == bytes.len() implies #[trigger] range(
        bytes,
        0,
        size,
    ) == bytes by {
        assert(range(bytes, 0, size) =~= bytes);
    }
    assert forall|bytes: Seq<u8>, part: Seq<u8>|
        part.len() == bytes.len() implies #[trigger] patched(bytes, 0, part) == part by {
        assert(patched(bytes, 0, part) =~= part);
    }
}

/// The range that was patched is the patch, and ranges beside it stay.
pub proof fn lemma_patched_range(bytes: Seq<u8>, offset: int, part: Seq<u8>)
    requires
        0 <= offset,
        offset + part.len() <= bytes.len(),
    ensures
        range(patched(bytes, offset, part), offset, part.len() as int) == part,
        forall|other: int, size: int|
            0 <= other && 0 <= size && other + size <= bytes.len() && (other + size <= offset
                || offset + part.len() <= other) ==> #[trigger] range(
                patched(bytes, offset, part),
                other,
                size,
            ) == range(bytes, other, size),
{
    assert(range(patched(bytes, offset, part), offset, part.len() as int) =~= part);
    assert forall|other: int, size: int|
        0 <= other && 0 <= size && other + size <= bytes.len() && (other + size <= offset || offset
            + part.len() <= other) implies #[trigger] range(
        patched(bytes, offset, part),
        other,
        size,
    ) == range(bytes, other, size) by {
        assert(range(patched(bytes, offset, part), other, size) =~= range(bytes, other, size));
    }
}

/// What writes to different buffers leave behind.
pub proof fn lemma_written(writes: Seq<WriteModel>, memory: Memory, count: int)
    requires
        0 <= count <= writes.len(),
        forall|i: int| 0 <= i < writes.len() ==> (#[trigger] writes[i]).buffer < memory.len(),
        forall|i: int, j: int|
            0 <= i < j < writes.len() ==> (#[trigger] writes[i]).buffer != (
            #[trigger] writes[j]).buffer,
    ensures
        written(writes, memory, count).len() == memory.len(),
        forall|i: int|
            0 <= i < count ==> written(writes, memory, count)[(
            #[trigger] writes[i]).buffer as int] == patched(
                memory[writes[i].buffer as int],
                0,
                writes[i].bytes,
            ),
        forall|place: int|
            0 <= place < memory.len() && (forall|i: int|
                0 <= i < count ==> (#[trigger] writes[i]).buffer != place)
                ==> #[trigger] written(writes, memory, count)[place] == memory[place],
        forall|place: int|
            0 <= place < memory.len() ==> (#[trigger] written(writes, memory, count)[place]).len()
                == memory[place].len(),
    decreases count,
{
    if count > 0 {
        lemma_written(writes, memory, count - 1);
        let before = written(writes, memory, count - 1);
        let now = written(writes, memory, count);
        let last = writes[count - 1].buffer as int;
        assert(before[last] == memory[last]);
        assert forall|i: int| 0 <= i < count implies now[(#[trigger] writes[i]).buffer as int]
            == patched(memory[writes[i].buffer as int], 0, writes[i].bytes) by {
            if i < count - 1 {
                assert(writes[i].buffer != writes[count - 1].buffer);
            }
        }
        assert forall|place: int|
            0 <= place < memory.len() && (forall|i: int|
                0 <= i < count ==> (
                #[trigger] writes[i]).buffer != place) implies #[trigger] now[place]
            == memory[place] by {
            assert(writes[count - 1].buffer != place);
            assert(before[place] == memory[place]);
        }
    }
}

/// Writes behind others are carried out on what those left.
pub proof fn lemma_written_both(
    first: Seq<WriteModel>,
    second: Seq<WriteModel>,
    memory: Memory,
    count: int,
)
    requires
        0 <= count <= second.len(),
    ensures
        written(first + second, memory, first.len() + count) == written(
            second,
            written(first, memory, first.len() as int),
            count,
        ),
    decreases count,
{
    if count > 0 {
        lemma_written_both(first, second, memory, count - 1);
        assert((first + second)[first.len() + count - 1] == second[count - 1]);
    } else {
        lemma_written_first(first, second, memory, first.len() as int);
    }
}

/// What comes behind a number of writes does not change what they do.
pub proof fn lemma_written_first(
    first: Seq<WriteModel>,
    second: Seq<WriteModel>,
    memory: Memory,
    count: int,
)
    requires
        0 <= count <= first.len(),
    ensures
        written(first + second, memory, count) == written(first, memory, count),
    decreases count,
{
    if count > 0 {
        lemma_written_first(first, second, memory, count - 1);
        assert((first + second)[count - 1] == first[count - 1]);
    }
}

/// Commands behind others are carried out on what those left.
pub proof fn lemma_after_both(
    setup: Setup,
    first: Seq<CommandModel>,
    second: Seq<CommandModel>,
    memory: Memory,
    count: int,
)
    requires
        0 <= count <= second.len(),
    ensures
        after(setup, first + second, memory, first.len() + count) == after(
            setup,
            second,
            after(setup, first, memory, first.len() as int),
            count,
        ),
    decreases count,
{
    if count > 0 {
        lemma_after_both(setup, first, second, memory, count - 1);
        assert((first + second)[first.len() + count - 1] == second[count - 1]);
    } else {
        lemma_after_first(setup, first, second, memory, first.len() as int);
    }
}

/// What comes behind a number of commands does not change what they do.
pub proof fn lemma_after_first(
    setup: Setup,
    first: Seq<CommandModel>,
    second: Seq<CommandModel>,
    memory: Memory,
    count: int,
)
    requires
        0 <= count <= first.len(),
    ensures
        after(setup, first + second, memory, count) == after(setup, first, memory, count),
    decreases count,
{
    if count > 0 {
        lemma_after_first(setup, first, second, memory, count - 1);
        assert((first + second)[count - 1] == first[count - 1]);
    }
}

/// The source of a pipeline, where every pipeline has a place of its own.
pub proof fn lemma_derived_source(pipelines: Seq<DerivedModel>, index: int)
    requires
        0 <= index < pipelines.len(),
        crate::gpu::derived_in_place(pipelines),
    ensures
        derived_source(pipelines, pipelines[index].place) == pipelines[index].source,
{
    let place = pipelines[index].place;
    let found = choose|i: int|
        0 <= i < pipelines.len() && (#[trigger] pipelines[i]).place == place;
    assert(pipelines[index].place == place);
    assert(found == index);
}

/// The source of a pipeline, where places go up.
pub proof fn lemma_placed_source(pipelines: Seq<PipelineModel>, index: int)
    requires
        0 <= index < pipelines.len(),
        forall|i: int, j: int|
            0 <= i < j < pipelines.len() ==> (#[trigger] pipelines[i]).place < (
            #[trigger] pipelines[j]).place,
    ensures
        placed_source(pipelines, pipelines[index].place) == pipelines[index].source,
{
    let place = pipelines[index].place;
    let found = choose|i: int|
        0 <= i < pipelines.len() && (#[trigger] pipelines[i]).place == place;
    assert(pipelines[index].place == place);
    assert(found == index) by {
        if found < index {
            assert(pipelines[found].place < pipelines[index].place);
        }
        if index < found {
            assert(pipelines[index].place < pipelines[found].place);
        }
    }
}

/// Whether bindings are read but for the third of four, which is stored into.
pub open spec fn third_of_four(entries: Seq<LayoutEntry>) -> bool {
    &&& entries.len() == 4
    &&& !(entries[0].kind is Storage)
    &&& !(entries[1].kind is Storage)
    &&& entries[2].kind is Storage
    &&& !(entries[3].kind is Storage)
}

/// What a pass does that stores into the third of four bindings.
pub proof fn lemma_third_of_four(
    setup: Setup,
    pipeline: usize,
    bind_group: usize,
    dispatch: [u32; 3],
    offsets: Seq<u64>,
    memory: Memory,
)
    requires
        setup.groups[bind_group as int].bindings.len() == 4,
        third_of_four((setup.layouts)(setup.groups[bind_group as int].pipeline)),
    ensures
        ({
            let group = setup.groups[bind_group as int];
            let entries = (setup.layouts)(group.pipeline);
            let bytes = |j: int| bound_bytes(group, entries, offsets, memory, j);
            let buffer = group.bindings[2].buffer as int;
            carried_out(
                setup,
                crate::gpu::pass_model(pipeline, bind_group, dispatch, offsets),
                memory,
            ) == memory.update(
                buffer,
                patched(
                    memory[buffer],
                    entry_offset(entries, offsets, 2),
                    (setup.device)(
                        (setup.shaders)(pipeline),
                        dispatch,
                        seq![bytes(0), bytes(1), bytes(3)],
                        0,
                        bytes(2),
                    ),
                ),
            )
        }),
{
    let group = setup.groups[bind_group as int];
    let entries = (setup.layouts)(group.pipeline);
    let source = (setup.shaders)(pipeline);
    let bytes = |j: int| bound_bytes(group, entries, offsets, memory, j);
    reveal_with_fuel(read_before, 5);
    reveal_with_fuel(stores_before, 5);
    reveal_with_fuel(stored, 5);
    assert(read_before(group, entries, offsets, memory, 4) =~= seq![bytes(0), bytes(1), bytes(3)]);
    assert(stores_before(entries, 2) == 0);
}

/// Whether bindings are read but for the fourth of five, which is stored into.
pub open spec fn fourth_of_five(entries: Seq<LayoutEntry>) -> bool {
    &&& entries.len() == 5
    &&& !(entries[0].kind is Storage)
    &&& !(entries[1].kind is Storage)
    &&& !(entries[2].kind is Storage)
    &&& entries[3].kind is Storage
    &&& !(entries[4].kind is Storage)
}

/// What a pass does that stores into the fourth of five bindings.
pub proof fn lemma_fourth_of_five(
    setup: Setup,
    pipeline: usize,
    bind_group: usize,
    dispatch: [u32; 3],
    offsets: Seq<u64>,
    memory: Memory,
)
    requires
        setup.groups[bind_group as int].bindings.len() == 5,
        fourth_of_five((setup.layouts)(setup.groups[bind_group as int].pipeline)),
    ensures
        ({
            let group = setup.groups[bind_group as int];
            let entries = (setup.layouts)(group.pipeline);
            let bytes = |j: int| bound_bytes(group, entries, offsets, memory, j);
            let buffer = group.bindings[3].buffer as int;
            carried_out(
                setup,
                crate::gpu::pass_model(pipeline, bind_group, dispatch, offsets),
                memory,
            ) == memory.update(
                buffer,
                patched(
                    memory[buffer],
                    entry_offset(entries, offsets, 3),
                    (setup.device)(
                        (setup.shaders)(pipeline),
                        dispatch,
                        seq![bytes(0), bytes(1), bytes(2), bytes(4)],
                        0,
                        bytes(3),
                    ),
                ),
            )
        }),
{
    let group = setup.groups[bind_group as int];
    let entries = (setup.layouts)(group.pipeline);
    let source = (setup.shaders)(pipeline);
    let bytes = |j: int| bound_bytes(group, entries, offsets, memory, j);
    reveal_with_fuel(read_before, 6);
    reveal_with_fuel(stores_before, 6);
    reveal_with_fuel(stored, 6);
    assert(read_before(group, entries, offsets, memory, 5) =~= seq![
        bytes(0),
        bytes(1),
        bytes(2),
        bytes(4),
    ]);
    assert(stores_before(entries, 3) == 0);
}

/// Whether bindings are read but for the third and the fourth of five, which are stored into.
pub open spec fn middle_of_five(entries: Seq<LayoutEntry>) -> bool {
    &&& entries.len() == 5
    &&& !(entries[0].kind is Storage)
    &&& !(entries[1].kind is Storage)
    &&& entries[2].kind is Storage
    &&& entries[3].kind is Storage
    &&& !(entries[4].kind is Storage)
}

/// What a pass does that stores into the third and the fourth of five bindings.
pub proof fn lemma_middle_of_five(
    setup: Setup,
    pipeline: usize,
    bind_group: usize,
    dispatch: [u32; 3],
    offsets: Seq<u64>,
    memory: Memory,
)
    requires
        setup.groups[bind_group as int].bindings.len() == 5,
        setup.groups[bind_group as int].bindings[2].buffer
            != setup.groups[bind_group as int].bindings[3].buffer,
        setup.groups[bind_group as int].bindings[2].buffer < memory.len(),
        setup.groups[bind_group as int].bindings[3].buffer < memory.len(),
        middle_of_five((setup.layouts)(setup.groups[bind_group as int].pipeline)),
    ensures
        ({
            let group = setup.groups[bind_group as int];
            let entries = (setup.layouts)(group.pipeline);
            let bytes = |j: int| bound_bytes(group, entries, offsets, memory, j);
            let third = group.bindings[2].buffer as int;
            let fourth = group.bindings[3].buffer as int;
            let reads = seq![bytes(0), bytes(1), bytes(4)];
            let source = (setup.shaders)(pipeline);
            carried_out(
                setup,
                crate::gpu::pass_model(pipeline, bind_group, dispatch, offsets),
                memory,
            ) == memory.update(
                third,
                patched(
                    memory[third],
                    entry_offset(entries, offsets, 2),
                    (setup.device)(source, dispatch, reads, 0, bytes(2)),
                ),
            ).update(
                fourth,
                patched(
                    memory[fourth],
                    entry_offset(entries, offsets, 3),
                    (setup.device)(source, dispatch, reads, 1, bytes(3)),
                ),
            )
        }),
{
    let group = setup.groups[bind_group as int];
    let entries = (setup.layouts)(group.pipeline);
    let source = (setup.shaders)(pipeline);
    let bytes = |j: int| bound_bytes(group, entries, offsets, memory, j);
    reveal_with_fuel(read_before, 6);
    reveal_with_fuel(stores_before, 6);
    reveal_with_fuel(stored, 6);
    assert(read_before(group, entries, offsets, memory, 5) =~= seq![bytes(0), bytes(1), bytes(4)]);
    assert(stores_before(entries, 2) == 0);
    assert(stores_before(entries, 3) == 1);
}

/// Whether bindings are read but for the fifth and the sixth of seven, which are stored into.
pub open spec fn late_of_seven(entries: Seq<LayoutEntry>) -> bool {
    &&& entries.len() == 7
    &&& !(entries[0].kind is Storage)
    &&& !(entries[1].kind is Storage)
    &&& !(entries[2].kind is Storage)
    &&& !(entries[3].kind is Storage)
    &&& entries[4].kind is Storage
    &&& entries[5].kind is Storage
    &&& !(entries[6].kind is Storage)
}

/// What a pass does that stores into the fifth and the sixth of seven bindings.
pub proof fn lemma_late_of_seven(
    setup: Setup,
    pipeline: usize,
    bind_group: usize,
    dispatch: [u32; 3],
    offsets: Seq<u64>,
    memory: Memory,
)
    requires
        setup.groups[bind_group as int].bindings.len() == 7,
        setup.groups[bind_group as int].bindings[4].buffer
            != setup.groups[bind_group as int].bindings[5].buffer,
        setup.groups[bind_group as int].bindings[4].buffer < memory.len(),
        setup.groups[bind_group as int].bindings[5].buffer < memory.len(),
        late_of_seven((setup.layouts)(setup.groups[bind_group as int].pipeline)),
    ensures
        ({
            let group = setup.groups[bind_group as int];
            let entries = (setup.layouts)(group.pipeline);
            let bytes = |j: int| bound_bytes(group, entries, offsets, memory, j);
            let fifth = group.bindings[4].buffer as int;
            let sixth = group.bindings[5].buffer as int;
            let reads = seq![bytes(0), bytes(1), bytes(2), bytes(3), bytes(6)];
            let source = (setup.shaders)(pipeline);
            carried_out(
                setup,
                crate::gpu::pass_model(pipeline, bind_group, dispatch, offsets),
                memory,
            ) == memory.update(
                fifth,
                patched(
                    memory[fifth],
                    entry_offset(entries, offsets, 4),
                    (setup.device)(source, dispatch, reads, 0, bytes(4)),
                ),
            ).update(
                sixth,
                patched(
                    memory[sixth],
                    entry_offset(entries, offsets, 5),
                    (setup.device)(source, dispatch, reads, 1, bytes(5)),
                ),
            )
        }),
{
    let group = setup.groups[bind_group as int];
    let entries = (setup.layouts)(group.pipeline);
    let source = (setup.shaders)(pipeline);
    let bytes = |j: int| bound_bytes(group, entries, offsets, memory, j);
    reveal_with_fuel(read_before, 8);
    reveal_with_fuel(stores_before, 8);
    reveal_with_fuel(stored, 8);
    assert(read_before(group, entries, offsets, memory, 7) =~= seq![
        bytes(0),
        bytes(1),
        bytes(2),
        bytes(3),
        bytes(6),
    ]);
    assert(stores_before(entries, 4) == 0);
    assert(stores_before(entries, 5) == 1);
}

/// What a pass does that stores into the second of two bindings.
pub proof fn lemma_second_of_two(
    setup: Setup,
    pipeline: usize,
    bind_group: usize,
    dispatch: [u32; 3],
    offsets: Seq<u64>,
    memory: Memory,
)
    requires
        setup.groups[bind_group as int].bindings.len() == 2,
        (setup.layouts)(setup.groups[bind_group as int].pipeline).len() == 2,
        !((setup.layouts)(setup.groups[bind_group as int].pipeline)[0].kind is Storage),
        (setup.layouts)(setup.groups[bind_group as int].pipeline)[1].kind is Storage,
    ensures
        ({
            let group = setup.groups[bind_group as int];
            let entries = (setup.layouts)(group.pipeline);
            let bytes = |j: int| bound_bytes(group, entries, offsets, memory, j);
            let buffer = group.bindings[1].buffer as int;
            carried_out(
                setup,
                crate::gpu::pass_model(pipeline, bind_group, dispatch, offsets),
                memory,
            ) == memory.update(
                buffer,
                patched(
                    memory[buffer],
                    entry_offset(entries, offsets, 1),
                    (setup.device)(
                        (setup.shaders)(pipeline),
                        dispatch,
                        seq![bytes(0)],
                        0,
                        bytes(1),
                    ),
                ),
            )
        }),
{
    let group = setup.groups[bind_group as int];
    let entries = (setup.layouts)(group.pipeline);
    let source = (setup.shaders)(pipeline);
    let bytes = |j: int| bound_bytes(group, entries, offsets, memory, j);
    reveal_with_fuel(read_before, 3);
    reveal_with_fuel(stores_before, 3);
    reveal_with_fuel(stored, 3);
    assert(read_before(group, entries, offsets, memory, 2) =~= seq![bytes(0)]);
    assert(stores_before(entries, 1) == 0);
}

} // verus!
