//! GPU work as plain data: what a session allocates, and what it asks the queue to do.
//!
//! A session names its buffers, pipelines and bind groups by their places in its plan.

use crate::words::word_bytes;
use vstd::prelude::*;

verus! {

/// What a buffer may be used for.
#[derive(Clone, Copy, Debug, PartialEq, Eq, Structural)]
pub enum BufferUsage {
    /// Read by shaders, written by the queue.
    StorageInput,
    /// Read and written by shaders, written by the queue, copied out.
    StorageCache,
    /// Written by shaders, copied out.
    StorageOutput,
    /// Uniform words, written by the queue.
    Uniform,
    /// Copied into, then mapped for reading.
    Readback,
}

impl BufferUsage {
    /// Whether shaders may bind the buffer.
    pub open spec fn bindable(self) -> bool {
        self != BufferUsage::Readback
    }

    /// Whether the queue may write the buffer or copy into it.
    pub open spec fn writable(self) -> bool {
        self != BufferUsage::StorageOutput
    }

    /// Whether the queue may copy out of the buffer.
    pub open spec fn copyable(self) -> bool {
        self == BufferUsage::StorageCache || self == BufferUsage::StorageOutput
    }
}

/// A buffer to allocate.
#[derive(Clone, Copy, Debug)]
pub struct BufferPlan {
    pub label: &'static str,
    pub size: u64,
    pub usage: BufferUsage,
}

/// A buffer to allocate.
pub fn buffer(label: &'static str, size: u64, usage: BufferUsage) -> (plan: BufferPlan)
    ensures
        plan == (BufferPlan { label, size, usage }),
{
    BufferPlan { label, size, usage }
}

/// A pipeline to create, with the layout that the device derives from its shader.
#[derive(Clone, Copy, Debug)]
pub struct DerivedPipeline<'a> {
    pub place: usize,
    /// The kernel that labels the pipeline and its shader.
    pub kernel: &'static str,
    pub source: &'a str,
}

/// A pipeline with a derived layout, as plain data.
pub struct DerivedModel {
    pub place: usize,
    pub kernel: Seq<char>,
    pub source: Seq<char>,
}

/// A pipeline with a derived layout, as plain data.
pub open spec fn derived_model(plan: DerivedPipeline<'_>) -> DerivedModel {
    DerivedModel { place: plan.place, kernel: plan.kernel@, source: plan.source@ }
}

/// Pipelines with derived layouts, as plain data.
pub open spec fn derived_models(plans: Seq<DerivedPipeline<'_>>) -> Seq<DerivedModel> {
    plans.map_values(|plan: DerivedPipeline<'_>| derived_model(plan))
}

/// A pipeline with a derived layout.
pub fn derived<'a>(place: usize, kernel: &'static str, source: &'a str) -> (plan: DerivedPipeline<
    'a,
>)
    ensures
        derived_model(plan) == (DerivedModel { place, kernel: kernel@, source: source@ }),
{
    DerivedPipeline { place, kernel, source }
}

/// Whether pipelines stand at their places, the first at place zero.
pub open spec fn derived_in_place(pipelines: Seq<DerivedModel>) -> bool {
    forall|i: int| 0 <= i < pipelines.len() ==> (#[trigger] pipelines[i]).place == i
}

/// Whether a command runs one of a number of pipelines on a bind group that is made for it.
pub open spec fn pass_in_place(
    command: CommandModel,
    pipelines: Seq<DerivedModel>,
    groups: Seq<BindGroupModel>,
) -> bool {
    match command {
        CommandModel::Pass { pipeline, bind_group, .. } => {
            &&& pipeline < pipelines.len()
            &&& bind_group < groups.len()
            &&& groups[bind_group as int].pipeline == pipeline
        },
        CommandModel::Copy { .. } => true,
    }
}

/// A range of a buffer, from its start, that a bind group gives to a shader.
#[derive(Clone, Copy, Debug)]
pub struct Binding {
    /// The place of the buffer.
    pub buffer: usize,
    /// The bytes of the range.
    pub size: u64,
}

/// A bind group to create.
#[derive(Debug)]
pub struct BindGroupPlan {
    pub label: &'static str,
    /// The place of the pipeline whose layout the group has, or of a layout that is shared.
    pub pipeline: usize,
    pub bindings: Vec<Binding>,
}

/// A bind group to create, as plain data.
#[verifier::ext_equal]
pub struct BindGroupModel {
    pub label: &'static str,
    pub pipeline: usize,
    pub bindings: Seq<Binding>,
}

/// A bind group as plain data.
pub open spec fn group_model(group: BindGroupPlan) -> BindGroupModel {
    BindGroupModel { label: group.label, pipeline: group.pipeline, bindings: group.bindings@ }
}

/// Bind groups as plain data.
pub open spec fn group_models(groups: Seq<BindGroupPlan>) -> Seq<BindGroupModel> {
    groups.map_values(|group: BindGroupPlan| group_model(group))
}

/// Bytes for the queue to write at the start of a buffer.
#[derive(Debug)]
pub struct WritePlan {
    /// The place of the buffer.
    pub buffer: usize,
    pub bytes: Vec<u8>,
}

/// A queue write as plain data.
#[verifier::ext_equal]
pub struct WriteModel {
    pub buffer: usize,
    pub bytes: Seq<u8>,
}

/// A queue write as plain data.
pub open spec fn write_model(write: WritePlan) -> WriteModel {
    WriteModel { buffer: write.buffer, bytes: write.bytes@ }
}

/// Queue writes as plain data.
pub open spec fn write_models(writes: Seq<WritePlan>) -> Seq<WriteModel> {
    writes.map_values(|write: WritePlan| write_model(write))
}

/// A queue write of given bytes.
pub open spec fn bytes_write(buffer: usize, bytes: Seq<u8>) -> WriteModel {
    WriteModel { buffer, bytes }
}

/// A queue write of the little-endian bytes of four uniform words.
pub open spec fn words_write(buffer: usize, words: [u32; 4]) -> WriteModel {
    WriteModel { buffer, bytes: crate::words::bytes_of_words32(words@) }
}

/// A queue write of given bytes.
pub fn write_of_bytes(buffer: usize, bytes: Vec<u8>) -> (write: WritePlan)
    ensures
        write_model(write) == bytes_write(buffer, bytes@),
{
    WritePlan { buffer, bytes }
}

/// A queue write of the little-endian bytes of four uniform words.
pub fn write_of_words(buffer: usize, words: &[u32; 4]) -> (write: WritePlan)
    ensures
        write_model(write) == words_write(buffer, *words),
{
    WritePlan { buffer, bytes: word_bytes(words.as_slice()) }
}

/// A command of an encoder.
#[derive(Debug)]
pub enum Command {
    /// One compute pass with one dispatch.
    Pass { pipeline: usize, bind_group: usize, dispatch: [u32; 3], offsets: Vec<u64> },
    /// A copy from one buffer to another.
    Copy {
        source: usize,
        source_offset: u64,
        destination: usize,
        destination_offset: u64,
        bytes: u64,
    },
}

/// A command of an encoder, as plain data.
#[verifier::ext_equal]
pub enum CommandModel {
    Pass { pipeline: usize, bind_group: usize, dispatch: [u32; 3], offsets: Seq<u64> },
    Copy {
        source: usize,
        source_offset: u64,
        destination: usize,
        destination_offset: u64,
        bytes: u64,
    },
}

/// A command as plain data.
pub open spec fn command_model(command: Command) -> CommandModel {
    match command {
        Command::Pass { pipeline, bind_group, dispatch, offsets } => CommandModel::Pass {
            pipeline,
            bind_group,
            dispatch,
            offsets: offsets@,
        },
        Command::Copy { source, source_offset, destination, destination_offset, bytes } =>
            CommandModel::Copy { source, source_offset, destination, destination_offset, bytes },
    }
}

/// Commands as plain data.
pub open spec fn command_models(commands: Seq<Command>) -> Seq<CommandModel> {
    commands.map_values(|command: Command| command_model(command))
}

/// A pass as plain data.
pub open spec fn pass_model(
    pipeline: usize,
    bind_group: usize,
    dispatch: [u32; 3],
    offsets: Seq<u64>,
) -> CommandModel {
    CommandModel::Pass { pipeline, bind_group, dispatch, offsets }
}

/// A copy as plain data.
pub open spec fn copy_model(
    source: usize,
    source_offset: u64,
    destination: usize,
    destination_offset: u64,
    bytes: u64,
) -> CommandModel {
    CommandModel::Copy { source, source_offset, destination, destination_offset, bytes }
}

/// A pass without dynamic offsets.
pub fn pass(pipeline: usize, bind_group: usize, dispatch: [u32; 3]) -> (command: Command)
    ensures
        command_model(command) == pass_model(pipeline, bind_group, dispatch, Seq::empty()),
{
    let offsets: Vec<u64> = Vec::new();
    assert(offsets@ =~= Seq::<u64>::empty());
    Command::Pass { pipeline, bind_group, dispatch, offsets }
}

/// A pass with one dynamic offset.
pub fn pass1(pipeline: usize, bind_group: usize, dispatch: [u32; 3], offset: u64) -> (command:
    Command)
    ensures
        command_model(command) == pass_model(pipeline, bind_group, dispatch, seq![offset]),
{
    let offsets: Vec<u64> = vec![offset];
    assert(offsets@ =~= seq![offset]);
    Command::Pass { pipeline, bind_group, dispatch, offsets }
}

/// A pass with two dynamic offsets.
pub fn pass2(
    pipeline: usize,
    bind_group: usize,
    dispatch: [u32; 3],
    first: u64,
    second: u64,
) -> (command: Command)
    ensures
        command_model(command) == pass_model(pipeline, bind_group, dispatch, seq![first, second]),
{
    let offsets: Vec<u64> = vec![first, second];
    assert(offsets@ =~= seq![first, second]);
    Command::Pass { pipeline, bind_group, dispatch, offsets }
}

/// A copy from one buffer to another.
pub fn copy(
    source: usize,
    source_offset: u64,
    destination: usize,
    destination_offset: u64,
    bytes: u64,
) -> (command: Command)
    ensures
        command_model(command) == copy_model(
            source,
            source_offset,
            destination,
            destination_offset,
            bytes,
        ),
{
    Command::Copy { source, source_offset, destination, destination_offset, bytes }
}

/// Whether the bindings of a group lie inside buffers that shaders may bind.
pub open spec fn group_fits(group: BindGroupModel, buffers: Seq<BufferPlan>) -> bool {
    forall|i: int|
        0 <= i < group.bindings.len() ==> {
            let binding = #[trigger] group.bindings[i];
            &&& binding.buffer < buffers.len()
            &&& binding.size <= buffers[binding.buffer as int].size
            &&& buffers[binding.buffer as int].usage.bindable()
        }
}

/// Whether a queue write lies inside a buffer that the queue may write.
pub open spec fn write_fits(write: WriteModel, buffers: Seq<BufferPlan>) -> bool {
    &&& write.buffer < buffers.len()
    &&& write.bytes.len() <= buffers[write.buffer as int].size
    &&& buffers[write.buffer as int].usage.writable()
}

/// Whether a copy lies inside both of its buffers and both may be used so.
pub open spec fn copy_fits(command: CommandModel, buffers: Seq<BufferPlan>) -> bool {
    match command {
        CommandModel::Pass { .. } => true,
        CommandModel::Copy { source, source_offset, destination, destination_offset, bytes } => {
            &&& source < buffers.len()
            &&& destination < buffers.len()
            &&& source != destination
            &&& source_offset + bytes <= buffers[source as int].size
            &&& destination_offset + bytes <= buffers[destination as int].size
            &&& buffers[source as int].usage.copyable()
            &&& buffers[destination as int].usage.writable()
        },
    }
}

/// Whether no two bindings of a group name the same buffer.
pub open spec fn distinct_buffers(group: BindGroupModel) -> bool {
    forall|i: int, j: int|
        0 <= i < j < group.bindings.len() ==> (#[trigger] group.bindings[i]).buffer != (
        #[trigger] group.bindings[j]).buffer
}

} // verus!
