//! What readouts bring back from a device.
//!
//! A device is taken as the bytes in its buffers and what its kernels make of the bytes that are
//! bound to them. The laws here hold of every device whose readout kernels compute what they store
//! from what they read: what those kernels compute is up to the device.

use crate::gpu::{BindGroupModel, BufferPlan, CommandModel};
use crate::lifecycle::Operation;
use crate::stack_encode::Readout;
use crate::stack_plan::{StackPlans, StackSizes, TOP1_RESULT_BYTES};
use crate::stack_resources::{
    BindingKind, LayoutEntry, GROUP_GEMV_LOGITS, GROUP_PREFILL_LOGITS_RMS, GROUP_STEP_LOGITS_RMS,
    GROUP_TOP1, LAYOUT_GEMV, LAYOUT_RMS, LAYOUT_TOP1, PIPELINE_TOP1, STACK_LOGITS,
    STACK_LOGITS_READBACK, STACK_NORMED_ROW, STACK_TOP1_READBACK, STACK_TOP1_RESULT,
};
use vstd::prelude::*;

verus! {

/// The bytes in the buffers of a session, by their places.
pub type Memory = Seq<Seq<u8>>;

/// What the kernels of a device do: the pipeline, the dispatch, the dynamic offsets and the bytes
/// in the buffers that are bound give the bytes in those buffers afterwards.
pub type Kernels = spec_fn(usize, [u32; 3], Seq<u64>, Seq<Seq<u8>>) -> Seq<Seq<u8>>;

/// The bytes in the buffers that a group binds.
pub open spec fn bound(group: BindGroupModel, memory: Memory) -> Seq<Seq<u8>> {
    Seq::new(group.bindings.len(), |j: int| memory[group.bindings[j].buffer as int])
}

/// A memory once a kernel has stored its results, from one binding of its group on. Only the
/// bindings that shaders may write change.
pub open spec fn stored_from(
    group: BindGroupModel,
    results: Seq<Seq<u8>>,
    memory: Memory,
    index: int,
) -> Memory
    decreases group.bindings.len() - index,
{
    if index >= group.bindings.len() {
        memory
    } else {
        let entry = crate::stack_resources::layout_entries(group.pipeline)[index];
        let next = if entry.kind is Storage {
            memory.update(group.bindings[index].buffer as int, results[index])
        } else {
            memory
        };
        stored_from(group, results, next, index + 1)
    }
}

/// A memory once a range of one buffer is copied over a range of another.
pub open spec fn copied(
    memory: Memory,
    source: int,
    source_offset: int,
    destination: int,
    destination_offset: int,
    bytes: int,
) -> Memory {
    let old = memory[destination];
    memory.update(
        destination,
        old.subrange(0, destination_offset) + memory[source].subrange(
            source_offset,
            source_offset + bytes,
        ) + old.subrange(destination_offset + bytes, old.len() as int),
    )
}

/// A memory once a command is carried out.
pub open spec fn carried_out(
    kernels: Kernels,
    groups: Seq<BindGroupModel>,
    command: CommandModel,
    memory: Memory,
) -> Memory {
    match command {
        CommandModel::Pass { pipeline, bind_group, dispatch, offsets } => {
            let group = groups[bind_group as int];
            stored_from(
                group,
                kernels(pipeline, dispatch, offsets, bound(group, memory)),
                memory,
                0,
            )
        },
        CommandModel::Copy { source, source_offset, destination, destination_offset, bytes } =>
            copied(
            memory,
            source as int,
            source_offset as int,
            destination as int,
            destination_offset as int,
            bytes as int,
        ),
    }
}

/// A memory once commands are carried out, in order.
pub open spec fn submitted(
    kernels: Kernels,
    groups: Seq<BindGroupModel>,
    commands: Seq<CommandModel>,
    memory: Memory,
) -> Memory
    decreases commands.len(),
{
    if commands.len() == 0 {
        memory
    } else {
        carried_out(
            kernels,
            groups,
            commands.last(),
            submitted(kernels, groups, commands.drop_last(), memory),
        )
    }
}

/// Whether two lists of bound bytes agree wherever shaders may not write, and are as long
/// everywhere else.
pub open spec fn same_inputs(
    entries: Seq<LayoutEntry>,
    left: Seq<Seq<u8>>,
    right: Seq<Seq<u8>>,
) -> bool {
    &&& left.len() == entries.len()
    &&& right.len() == entries.len()
    &&& forall|j: int|
        #![trigger left[j]]
        #![trigger right[j]]
        0 <= j < entries.len() ==> left[j].len() == right[j].len() && (!(entries[j].kind is Storage)
            ==> left[j] == right[j])
}

/// Whether a kernel with a layout computes what it stores from what it reads: what it stores does
/// not depend on what it overwrites, and fills the whole buffer.
pub open spec fn overwrites(kernels: Kernels, pipeline: usize, layout: usize) -> bool {
    let entries = crate::stack_resources::layout_entries(layout);
    &&& forall|dispatch: [u32; 3], offsets: Seq<u64>, left: Seq<Seq<u8>>, right: Seq<Seq<u8>>|
        same_inputs(entries, left, right) ==> #[trigger] kernels(
            pipeline,
            dispatch,
            offsets,
            left,
        ) == #[trigger] kernels(pipeline, dispatch, offsets, right)
    &&& forall|dispatch: [u32; 3], offsets: Seq<u64>, contents: Seq<Seq<u8>>, j: int|
        0 <= j < entries.len() && entries[j].kind is Storage && contents.len() == entries.len()
            ==> (#[trigger] kernels(pipeline, dispatch, offsets, contents)[j]).len()
            == contents[j].len()
}

/// Whether the kernels of the readouts of a session compute what they store from what they read.
pub open spec fn readouts_overwrite(kernels: Kernels, plans: StackPlans) -> bool {
    let pipelines = crate::stack_encode::weight_pipelines(plans.resources.storage);
    &&& overwrites(kernels, pipelines.rms_norm, LAYOUT_RMS)
    &&& overwrites(kernels, pipelines.gemv_tiled, LAYOUT_GEMV)
    &&& overwrites(kernels, PIPELINE_TOP1, LAYOUT_TOP1)
}

/// Whether the memory of a device has the buffers of a session.
pub open spec fn has_buffers(memory: Memory, buffers: Seq<BufferPlan>) -> bool {
    &&& memory.len() == buffers.len()
    &&& forall|i: int| 0 <= i < memory.len() ==> (#[trigger] memory[i]).len() == buffers[i].size
}

/// The buffers of a session that reads out logits.
pub open spec fn session_buffers(plans: StackPlans, sizes: StackSizes) -> Seq<BufferPlan> {
    crate::stack_laws::placed_buffers(
        plans,
        sizes,
        crate::stack_resources::logits_sizes(plans.resources, plans.lm_head),
    )
}

/// The bind groups of a session that reads out logits.
pub open spec fn session_groups(plans: StackPlans, sizes: StackSizes) -> Seq<BindGroupModel> {
    crate::stack_laws::placed_groups(
        plans,
        sizes,
        crate::stack_resources::logits_sizes(plans.resources, plans.lm_head),
    )
}

/// What a session has in its memory after a readout of logits.
pub open spec fn after_logits(
    kernels: Kernels,
    plans: StackPlans,
    sizes: StackSizes,
    readout: Readout,
    memory: Memory,
) -> Memory {
    submitted(
        kernels,
        session_groups(plans, sizes),
        crate::stack_encode::logits_commands(plans.resources, plans.lm_head, readout)->Ok_0,
        memory,
    )
}

/// What a session has in its memory after a token selection.
pub open spec fn after_top1(
    kernels: Kernels,
    plans: StackPlans,
    sizes: StackSizes,
    readout: Readout,
    memory: Memory,
) -> Memory {
    submitted(
        kernels,
        session_groups(plans, sizes),
        crate::stack_encode::top1_commands(plans.resources, plans.lm_head, readout)->Ok_0,
        memory,
    )
}

/// What a kernel stores in the third of four bindings.
proof fn lemma_third_binding_is_stored(
    group: BindGroupModel,
    results: Seq<Seq<u8>>,
    memory: Memory,
)
    requires
        group.pipeline == LAYOUT_RMS || group.pipeline == LAYOUT_GEMV,
        group.bindings.len() == 4,
    ensures
        stored_from(group, results, memory, 0) == memory.update(
            group.bindings[2].buffer as int,
            results[2],
        ),
{
    reveal_with_fuel(stored_from, 6);
}

/// What a kernel stores in the second of two bindings.
proof fn lemma_second_binding_is_stored(
    group: BindGroupModel,
    results: Seq<Seq<u8>>,
    memory: Memory,
)
    requires
        group.pipeline == LAYOUT_TOP1,
        group.bindings.len() == 2,
    ensures
        stored_from(group, results, memory, 0) == memory.update(
            group.bindings[1].buffer as int,
            results[1],
        ),
{
    reveal_with_fuel(stored_from, 4);
}

/// The places of the readout groups, and what they bind.
proof fn lemma_readout_groups(plans: StackPlans, sizes: StackSizes)
    ensures
        ({
            let groups = session_groups(plans, sizes);
            let logits = crate::stack_resources::logits_sizes(plans.resources, plans.lm_head);
            let of_logits = crate::stack_resources::logits_bind_groups(
                sizes,
                logits,
                plans.prefill_capable,
            );
            &&& groups[GROUP_PREFILL_LOGITS_RMS as int] == of_logits[0]
            &&& groups[GROUP_STEP_LOGITS_RMS as int] == of_logits[1]
            &&& groups[GROUP_GEMV_LOGITS as int] == of_logits[2]
            &&& groups[GROUP_TOP1 as int] == crate::stack_resources::top1_bind_group(logits)
        }),
{
}

/// A memory with the normed row and the logits of another one.
spec fn with_results(memory: Memory, results: Memory) -> Memory {
    memory.update(STACK_NORMED_ROW as int, results[STACK_NORMED_ROW as int]).update(
        STACK_LOGITS as int,
        results[STACK_LOGITS as int],
    )
}

/// What the two passes of a readout leave in a memory: the normed row and the logits, and all
/// else as it was. They depend on nothing that they write.
proof fn lemma_readout_passes(
    kernels: Kernels,
    plans: StackPlans,
    sizes: StackSizes,
    readout: Readout,
    top1: bool,
    memory: Memory,
    other: Memory,
)
    requires
        crate::stack_laws::logits_placed(plans),
        readouts_overwrite(kernels, plans),
        has_buffers(memory, session_buffers(plans, sizes)),
        has_buffers(other, session_buffers(plans, sizes)),
        forall|i: int|
            0 <= i < memory.len() && !is_result(i) ==> #[trigger] memory[i] == other[i],
    ensures
        ({
            let groups = session_groups(plans, sizes);
            let passes = crate::stack_encode::readout_passes(
                plans.resources,
                plans.lm_head,
                readout,
                top1,
            );
            let after = submitted(kernels, groups, passes->Ok_0, memory);
            let again = submitted(kernels, groups, passes->Ok_0, other);
            &&& passes is Ok
            &&& after == with_results(memory, after)
            &&& again == with_results(other, after)
            &&& after[STACK_LOGITS as int].len() == memory[STACK_LOGITS as int].len()
            &&& after[STACK_NORMED_ROW as int].len() == memory[STACK_NORMED_ROW as int].len()
        }),
{
    let groups = session_groups(plans, sizes);
    let passes = crate::stack_encode::readout_passes(
        plans.resources,
        plans.lm_head,
        readout,
        top1,
    )->Ok_0;
    lemma_readout_groups(plans, sizes);
    reveal_with_fuel(submitted, 4);
    assert(passes.drop_last() =~= seq![passes[0]]);
    assert(passes.drop_last().drop_last() =~= Seq::<CommandModel>::empty());
    let rms = groups[passes[0]->bind_group as int];
    let gemv = groups[GROUP_GEMV_LOGITS as int];
    let rms_pipeline = passes[0]->pipeline;
    let gemv_pipeline = passes[1]->pipeline;
    let rms_offsets = passes[0]->offsets;
    let gemv_offsets = passes[1]->offsets;
    let rms_dispatch = passes[0]->dispatch;
    let gemv_dispatch = passes[1]->dispatch;
    let row = kernels(rms_pipeline, rms_dispatch, rms_offsets, bound(rms, memory));
    let row_again = kernels(rms_pipeline, rms_dispatch, rms_offsets, bound(rms, other));
    let entries = crate::stack_resources::layout_entries(LAYOUT_RMS);
    assert(same_inputs(entries, bound(rms, memory), bound(rms, other)));
    assert(row == row_again);
    lemma_third_binding_is_stored(rms, row, memory);
    lemma_third_binding_is_stored(rms, row_again, other);
    let middle = memory.update(STACK_NORMED_ROW as int, row[2]);
    let middle_again = other.update(STACK_NORMED_ROW as int, row[2]);
    assert(submitted(kernels, groups, passes.drop_last(), memory) == middle);
    assert(submitted(kernels, groups, passes.drop_last(), other) == middle_again);
    let scores = kernels(gemv_pipeline, gemv_dispatch, gemv_offsets, bound(gemv, middle));
    let scores_again = kernels(
        gemv_pipeline,
        gemv_dispatch,
        gemv_offsets,
        bound(gemv, middle_again),
    );
    let gemv_entries = crate::stack_resources::layout_entries(LAYOUT_GEMV);
    assert(same_inputs(gemv_entries, bound(gemv, middle), bound(gemv, middle_again)));
    assert(scores == scores_again);
    lemma_third_binding_is_stored(gemv, scores, middle);
    lemma_third_binding_is_stored(gemv, scores_again, middle_again);
    let after = submitted(kernels, groups, passes, memory);
    assert(after == middle.update(STACK_LOGITS as int, scores[2]));
    assert(after[STACK_NORMED_ROW as int] == row[2]);
    assert(after[STACK_LOGITS as int] == scores[2]);
}

/// Whether a buffer is one that readouts write.
pub open spec fn is_result(place: int) -> bool {
    place == STACK_NORMED_ROW || place == STACK_LOGITS || place == STACK_LOGITS_READBACK || place
        == STACK_TOP1_RESULT || place == STACK_TOP1_READBACK
}

/// What a readout of logits reads back: the logits.
proof fn lemma_after_logits(
    kernels: Kernels,
    plans: StackPlans,
    sizes: StackSizes,
    readout: Readout,
    memory: Memory,
)
    requires
        crate::stack_laws::logits_placed(plans),
        readouts_overwrite(kernels, plans),
        has_buffers(memory, session_buffers(plans, sizes)),
    ensures
        ({
            let groups = session_groups(plans, sizes);
            let passes = crate::stack_encode::readout_passes(
                plans.resources,
                plans.lm_head,
                readout,
                false,
            )->Ok_0;
            let scored = submitted(kernels, groups, passes, memory);
            let after = after_logits(kernels, plans, sizes, readout, memory);
            &&& after == scored.update(
                STACK_LOGITS_READBACK as int,
                scored[STACK_LOGITS as int],
            )
            &&& has_buffers(after, session_buffers(plans, sizes))
        }),
{
    let groups = session_groups(plans, sizes);
    let passes = crate::stack_encode::readout_passes(
        plans.resources,
        plans.lm_head,
        readout,
        false,
    )->Ok_0;
    let commands = crate::stack_encode::logits_commands(
        plans.resources,
        plans.lm_head,
        readout,
    )->Ok_0;
    lemma_readout_passes(kernels, plans, sizes, readout, false, memory, memory);
    assert(commands.drop_last() =~= passes);
    let scored = submitted(kernels, groups, passes, memory);
    let bytes = plans.lm_head->Some_0.logits_bytes;
    let old = scored[STACK_LOGITS_READBACK as int];
    assert(memory[STACK_LOGITS as int].len() == bytes);
    assert(memory[STACK_LOGITS_READBACK as int].len() == bytes);
    assert(old.subrange(0, 0) + scored[STACK_LOGITS as int].subrange(0, 0 + bytes) + old.subrange(
        0 + bytes,
        old.len() as int,
    ) =~= scored[STACK_LOGITS as int]);
}

/// What a token selection reads back: what the selection makes of the logits.
proof fn lemma_after_top1(
    kernels: Kernels,
    plans: StackPlans,
    sizes: StackSizes,
    readout: Readout,
    memory: Memory,
)
    requires
        crate::stack_laws::logits_placed(plans),
        readouts_overwrite(kernels, plans),
        has_buffers(memory, session_buffers(plans, sizes)),
    ensures
        ({
            let groups = session_groups(plans, sizes);
            let passes = crate::stack_encode::readout_passes(
                plans.resources,
                plans.lm_head,
                readout,
                true,
            )->Ok_0;
            let scored = submitted(kernels, groups, passes, memory);
            let results = selection_results(kernels, plans, sizes, scored);
            let after = after_top1(kernels, plans, sizes, readout, memory);
            &&& after == scored.update(STACK_TOP1_RESULT as int, results[1]).update(
                STACK_TOP1_READBACK as int,
                results[1],
            )
            &&& results[1].len() == TOP1_RESULT_BYTES
            &&& has_buffers(after, session_buffers(plans, sizes))
        }),
{
    let groups = session_groups(plans, sizes);
    let passes = crate::stack_encode::readout_passes(
        plans.resources,
        plans.lm_head,
        readout,
        true,
    )->Ok_0;
    let commands = crate::stack_encode::top1_commands(
        plans.resources,
        plans.lm_head,
        readout,
    )->Ok_0;
    lemma_readout_passes(kernels, plans, sizes, readout, true, memory, memory);
    lemma_readout_groups(plans, sizes);
    let scored = submitted(kernels, groups, passes, memory);
    let selecting = commands.drop_last();
    assert(selecting.drop_last() =~= passes);
    let group = groups[GROUP_TOP1 as int];
    let results = selection_results(kernels, plans, sizes, scored);
    let entries = crate::stack_resources::layout_entries(LAYOUT_TOP1);
    assert(entries[1].kind is Storage);
    assert(memory[STACK_TOP1_RESULT as int].len() == TOP1_RESULT_BYTES);
    assert(memory[STACK_TOP1_READBACK as int].len() == TOP1_RESULT_BYTES);
    assert(bound(group, scored)[1].len() == TOP1_RESULT_BYTES);
    lemma_second_binding_is_stored(group, results, scored);
    let chosen = submitted(kernels, groups, selecting, memory);
    assert(chosen == scored.update(STACK_TOP1_RESULT as int, results[1]));
    let old = chosen[STACK_TOP1_READBACK as int];
    assert(old.subrange(0, 0) + results[1].subrange(0, 8) + old.subrange(
        8,
        old.len() as int,
    ) =~= results[1]);
}

/// What the selection kernel leaves in the buffers that are bound to it.
pub open spec fn selection_results(
    kernels: Kernels,
    plans: StackPlans,
    sizes: StackSizes,
    memory: Memory,
) -> Seq<Seq<u8>> {
    kernels(
        PIPELINE_TOP1,
        [1u32, 1, 1],
        Seq::empty(),
        bound(session_groups(plans, sizes)[GROUP_TOP1 as int], memory),
    )
}

/// Where a readout of a session that reads out logits finds its row, or why there is none.
pub open spec fn readout_of(
    plans: StackPlans,
    top1: bool,
    cache_tokens: u32,
    prefill_tokens: u32,
) -> Result<Readout, Seq<char>> {
    crate::stack_encode::readout_outcome(
        top1,
        true,
        plans.prefill_capable,
        cache_tokens,
        plans.kv.initial_cache_tokens,
        prefill_tokens,
    )
}

/// What a session has in its memory after a series of readouts of the same row, each a token
/// selection or a readout of logits.
pub open spec fn after_readouts(
    kernels: Kernels,
    plans: StackPlans,
    sizes: StackSizes,
    readout: Readout,
    selections: Seq<bool>,
    memory: Memory,
) -> Memory
    decreases selections.len(),
{
    if selections.len() == 0 {
        memory
    } else {
        let before = after_readouts(
            kernels,
            plans,
            sizes,
            readout,
            selections.drop_last(),
            memory,
        );
        if selections.last() {
            after_top1(kernels, plans, sizes, readout, before)
        } else {
            after_logits(kernels, plans, sizes, readout, before)
        }
    }
}

/// Readouts change nothing but their own results: the hidden row, the weights and the caches stay
/// as they are, after any number of them.
pub proof fn law_readouts_change_only_results(
    kernels: Kernels,
    plans: StackPlans,
    sizes: StackSizes,
    readout: Readout,
    selections: Seq<bool>,
    memory: Memory,
)
    requires
        crate::stack_laws::logits_placed(plans),
        readouts_overwrite(kernels, plans),
        has_buffers(memory, session_buffers(plans, sizes)),
    ensures
        ({
            let after = after_readouts(kernels, plans, sizes, readout, selections, memory);
            &&& has_buffers(after, session_buffers(plans, sizes))
            &&& forall|place: int|
                0 <= place < memory.len() && !is_result(place) ==> #[trigger] memory[place]
                    == after[place]
        }),
    decreases selections.len(),
{
    if selections.len() > 0 {
        let earlier = selections.drop_last();
        law_readouts_change_only_results(kernels, plans, sizes, readout, earlier, memory);
        let before = after_readouts(kernels, plans, sizes, readout, earlier, memory);
        if selections.last() {
            lemma_after_top1(kernels, plans, sizes, readout, before);
            lemma_readout_passes(kernels, plans, sizes, readout, true, before, before);
        } else {
            lemma_after_logits(kernels, plans, sizes, readout, before);
            lemma_readout_passes(kernels, plans, sizes, readout, false, before, before);
        }
    }
}

/// A readout gives the same bytes again, bit for bit, whatever readouts of either kind came in
/// between, on every device whose readout kernels compute what they store from what they read. No
/// readout moves the tokens of the session, so the next one, of either kind, is admitted and reads
/// the same row.
pub proof fn law_repeated_readouts_are_identical(
    kernels: Kernels,
    plans: StackPlans,
    sizes: StackSizes,
    cache_tokens: u32,
    prefill_tokens: u32,
    transition_after: u32,
    selections: Seq<bool>,
    memory: Memory,
)
    requires
        crate::stack_laws::logits_placed(plans),
        readouts_overwrite(kernels, plans),
        has_buffers(memory, session_buffers(plans, sizes)),
        readout_of(plans, false, cache_tokens, prefill_tokens) is Ok,
    ensures
        ({
            let readout = readout_of(plans, false, cache_tokens, prefill_tokens)->Ok_0;
            let later = after_readouts(kernels, plans, sizes, readout, selections, memory);
            let logits = after_logits(kernels, plans, sizes, readout, memory);
            let logits_again = after_logits(kernels, plans, sizes, readout, later);
            let token = after_top1(kernels, plans, sizes, readout, memory);
            let token_again = after_top1(kernels, plans, sizes, readout, later);
            &&& logits_again[STACK_LOGITS_READBACK as int] == logits[STACK_LOGITS_READBACK as int]
            &&& token_again[STACK_TOP1_READBACK as int] == token[STACK_TOP1_READBACK as int]
            &&& forall|operation: Operation, top1: bool|
                #![trigger crate::stack_encode::tokens_after(
                    operation,
                    cache_tokens,
                    transition_after,
                    prefill_tokens,
                ), readout_of(plans, top1, cache_tokens, prefill_tokens)]
                operation == Operation::Logits || operation == Operation::Top1 ==> {
                    &&& crate::stack_encode::tokens_after(
                        operation,
                        cache_tokens,
                        transition_after,
                        prefill_tokens,
                    ) == cache_tokens
                    &&& readout_of(plans, top1, cache_tokens, prefill_tokens) == Ok::<
                        Readout,
                        Seq<char>,
                    >(readout)
                }
        }),
{
    let readout = readout_of(plans, false, cache_tokens, prefill_tokens)->Ok_0;
    let groups = session_groups(plans, sizes);
    let later = after_readouts(kernels, plans, sizes, readout, selections, memory);
    law_readouts_change_only_results(kernels, plans, sizes, readout, selections, memory);
    lemma_after_logits(kernels, plans, sizes, readout, memory);
    lemma_after_logits(kernels, plans, sizes, readout, later);
    lemma_after_top1(kernels, plans, sizes, readout, memory);
    lemma_after_top1(kernels, plans, sizes, readout, later);
    lemma_readout_passes(kernels, plans, sizes, readout, false, memory, later);
    lemma_readout_passes(kernels, plans, sizes, readout, true, memory, later);
    let passes = crate::stack_encode::readout_passes(
        plans.resources,
        plans.lm_head,
        readout,
        true,
    )->Ok_0;
    let scored = submitted(kernels, groups, passes, memory);
    let scored_again = submitted(kernels, groups, passes, later);
    let group = groups[GROUP_TOP1 as int];
    lemma_readout_groups(plans, sizes);
    let entries = crate::stack_resources::layout_entries(LAYOUT_TOP1);
    assert(same_inputs(entries, bound(group, scored), bound(group, scored_again)));
}

/// Whether a device runs the selection kernel: it stores the token that the course of the kernel
/// leads to, and the bits of its logit.
pub open spec fn runs_selection(kernels: Kernels) -> bool {
    forall|dispatch: [u32; 3], offsets: Seq<u64>, contents: Seq<Seq<u8>>|
        contents.len() == 2 && contents[1].len() == TOP1_RESULT_BYTES ==> (#[trigger] kernels(
            PIPELINE_TOP1,
            dispatch,
            offsets,
            contents,
        ))[1] == selected_bytes(crate::words::words32(contents[0]))
}

/// The bytes of a selection: the token, and the bits of its logit.
pub open spec fn selected_bytes(logits: Seq<u32>) -> Seq<u8> {
    let token = crate::selection::kernel_choice(logits);
    crate::words::bytes_of_words32(seq![token as u32, logits[token]])
}

/// A token selection on a device that runs the selection kernel brings back the greedy choice
/// among the logits that a readout of the same row would bring back, and the bits of its logit:
/// no logit is above it in the total order, and every logit before it is below it. The logits are
/// those of the pinned vocabulary and finite.
pub proof fn law_selected_token_is_greedy(
    kernels: Kernels,
    plans: StackPlans,
    sizes: StackSizes,
    readout: Readout,
    memory: Memory,
)
    requires
        crate::stack_laws::logits_placed(plans),
        readouts_overwrite(kernels, plans),
        runs_selection(kernels),
        has_buffers(memory, session_buffers(plans, sizes)),
        plans.lm_head->Some_0.logits_bytes == 4 * crate::family::PINNED_VOCAB_SIZE,
        crate::stack_encode::all_finite(
            crate::words::words32(
                after_logits(kernels, plans, sizes, readout, memory)[STACK_LOGITS_READBACK as int],
            ),
        ),
    ensures
        ({
            let logits = crate::words::words32(
                after_logits(kernels, plans, sizes, readout, memory)[STACK_LOGITS_READBACK as int],
            );
            let selected = after_top1(kernels, plans, sizes, readout, memory);
            let output = selected[STACK_TOP1_READBACK as int];
            let outcome = crate::stack_encode::top1_outcome(output);
            &&& logits.len() == crate::family::PINNED_VOCAB_SIZE
            &&& output.len() == 8
            &&& outcome is Ok
            &&& crate::selection::greedy(logits, outcome->Ok_0.0 as int)
            &&& outcome->Ok_0.1 == logits[outcome->Ok_0.0 as int]
        }),
{
    let groups = session_groups(plans, sizes);
    let passes = crate::stack_encode::readout_passes(
        plans.resources,
        plans.lm_head,
        readout,
        true,
    )->Ok_0;
    lemma_after_logits(kernels, plans, sizes, readout, memory);
    lemma_after_top1(kernels, plans, sizes, readout, memory);
    lemma_readout_passes(kernels, plans, sizes, readout, true, memory, memory);
    lemma_readout_groups(plans, sizes);
    assert(passes == crate::stack_encode::readout_passes(
        plans.resources,
        plans.lm_head,
        readout,
        false,
    )->Ok_0);
    let scored = submitted(kernels, groups, passes, memory);
    let logits = crate::words::words32(scored[STACK_LOGITS as int]);
    assert(memory[STACK_LOGITS as int].len() == plans.lm_head->Some_0.logits_bytes);
    assert(memory[STACK_TOP1_RESULT as int].len() == TOP1_RESULT_BYTES);
    let group = groups[GROUP_TOP1 as int];
    let results = selection_results(kernels, plans, sizes, scored);
    assert(bound(group, scored)[0] == scored[STACK_LOGITS as int]);
    assert(bound(group, scored)[1].len() == TOP1_RESULT_BYTES);
    assert(results[1] == selected_bytes(logits));
    let token = crate::selection::kernel_choice(logits);
    crate::selection::law_kernel_choice_is_greedy(logits);
    let words = seq![token as u32, logits[token]];
    crate::words::law_words32_read_back(words);
    let output = results[1];
    assert(crate::words::words32(output)[0] == words[0]);
    assert(crate::words::words32(output)[1] == words[1]);
    assert(crate::words::word32(output, 0) == token);
    assert(crate::words::word32(output, 4) == logits[token]);
    assert(crate::ieee::single_finite(logits[token]));
}

} // verus!
