//! What the readouts of a stack session bring back from a device.

use crate::dataflow::{Device, Setup};
use crate::device_laws::Memory;
use crate::gpu::{BindGroupModel, BufferPlan, CommandModel, WriteModel};
use crate::kv::KvStepPlan;
use crate::lifecycle::Operation;
use crate::stack_encode::Readout;
use crate::stack_flow::StackRun;
use crate::stack_plan::{
    LmHeadPlan, PrefillPlan, StackPlans, StackSizes, StackStepPlan, PREFILL_ROW_BYTES,
    TOP1_RESULT_BYTES,
};
use crate::stack_resources::{
    Allocation, GROUP_GEMV_LOGITS, GROUP_PREFILL_LOGITS_RMS, GROUP_STEP_LOGITS_RMS, GROUP_TOP1,
    LOGITS_BUFFERS, PIPELINE_TOP1, STACK_FINAL_NORM_WEIGHT, STACK_FINISH_VALUE_READBACK,
    STACK_HIDDEN_PINGPONG, STACK_LM_HEAD, STACK_LOGITS, STACK_LOGITS_GEMV_UNIFORM,
    STACK_LOGITS_READBACK, STACK_LOGITS_RMS_UNIFORM, STACK_NORMED_ROW,
    STACK_PREFILL_HIDDEN_STORAGE, STACK_STACK_READBACK, STACK_TOP1_READBACK, STACK_TOP1_RESULT,
};
use vstd::prelude::*;

verus! {

/// A memory once the buffers of a session are created, with the uniform words that they are
/// created with.
pub open spec fn created(allocations: Seq<Allocation>, memory: Memory, count: int) -> Memory
    decreases count,
{
    if count <= 0 {
        memory
    } else {
        let before = created(allocations, memory, count - 1);
        match allocations[count - 1].words {
            Some(words) => before.update(
                allocations[count - 1].place as int,
                crate::dataflow::uniform(words),
            ),
            None => before,
        }
    }
}

/// Whether the uniform words of the readouts are in their buffers: those of the norm where the
/// norm reads them, and those of the projection where the projection does.
pub open spec fn readout_words_hold(memory: Memory, plan: LmHeadPlan) -> bool {
    &&& memory[STACK_LOGITS_RMS_UNIFORM as int] == crate::dataflow::uniform(plan.stage_words@[0])
    &&& memory[STACK_LOGITS_GEMV_UNIFORM as int] == crate::dataflow::uniform(plan.stage_words@[1])
}

/// What the buffers hold when those of some places are created.
spec fn places_created(memory: Memory, plan: LmHeadPlan, place: int, now: Memory) -> bool {
    &&& now.len() == memory.len()
    &&& place > STACK_LOGITS_RMS_UNIFORM ==> now[STACK_LOGITS_RMS_UNIFORM as int]
        == crate::dataflow::uniform(plan.stage_words@[0])
    &&& place > STACK_LOGITS_GEMV_UNIFORM ==> now[STACK_LOGITS_GEMV_UNIFORM as int]
        == crate::dataflow::uniform(plan.stage_words@[1])
    &&& forall|i: int|
        0 <= i < memory.len() && i != STACK_LOGITS_RMS_UNIFORM && i != STACK_LOGITS_GEMV_UNIFORM
            ==> #[trigger] now[i] == memory[i]
}

proof fn lemma_created_before(first: Seq<Allocation>, last: Allocation, memory: Memory, count: int)
    requires
        0 <= count <= first.len(),
    ensures
        created(first.push(last), memory, count) == created(first, memory, count),
    decreases count,
{
    if count > 0 {
        lemma_created_before(first, last, memory, count - 1);
        assert(first.push(last)[count - 1] == first[count - 1]);
    }
}

proof fn lemma_created_from(
    run: StackRun,
    plan: LmHeadPlan,
    hit: bool,
    memory: Memory,
    place: int,
    made: Seq<Allocation>,
)
    requires
        run.plans.lm_head == Some(plan),
        memory.len() == STACK_FINISH_VALUE_READBACK + 1,
        0 <= place <= LOGITS_BUFFERS,
        places_created(memory, plan, place, created(made, memory, made.len() as int)),
    ensures
        ({
            let all = crate::stack_resources::allocations_from(
                crate::stack_flow::run_buffers(run),
                run.plans.lm_head,
                run.plans.prefill_capable,
                hit,
                place,
                made,
            );
            places_created(
                memory,
                plan,
                LOGITS_BUFFERS as int,
                created(all, memory, all.len() as int),
            )
        }),
    decreases LOGITS_BUFFERS - place,
{
    if place < LOGITS_BUFFERS {
        let table = crate::stack_flow::run_buffers(run);
        if crate::stack_resources::created_place(place, run.plans.prefill_capable, true) {
            let added = crate::stack_resources::allocation(table, run.plans.lm_head, hit, place);
            lemma_created_before(made, added, memory, made.len() as int);
            assert(made.push(added)[made.len() as int] == added);
            lemma_created_from(run, plan, hit, memory, place + 1, made.push(added));
        } else {
            lemma_created_from(run, plan, hit, memory, place + 1, made);
        }
    }
}

/// A session that reads out logits is created with the uniform words of the norm where its norm
/// reads them, and those of the projection where its projection does; no other buffer is created
/// with bytes in it.
pub proof fn law_creation_sets_readout_words(
    run: StackRun,
    plan: LmHeadPlan,
    hit: bool,
    memory: Memory,
)
    requires
        run.plans.lm_head == Some(plan),
        memory.len() == STACK_FINISH_VALUE_READBACK + 1,
    ensures
        ({
            let all = crate::stack_resources::allocations_from(
                crate::stack_flow::run_buffers(run),
                run.plans.lm_head,
                run.plans.prefill_capable,
                hit,
                0,
                Seq::empty(),
            );
            let now = created(all, memory, all.len() as int);
            &&& now.len() == memory.len()
            &&& readout_words_hold(now, plan)
            &&& forall|i: int|
                0 <= i < memory.len() && i != STACK_LOGITS_RMS_UNIFORM && i
                    != STACK_LOGITS_GEMV_UNIFORM ==> #[trigger] now[i] == memory[i]
        }),
{
    lemma_created_from(run, plan, hit, memory, 0, Seq::empty());
}

/// The hidden row that a readout reads.
pub open spec fn readout_row(run: StackRun, readout: Readout, memory: Memory) -> Seq<u8> {
    crate::dataflow::range(
        memory[if readout.from_prefill {
            STACK_PREFILL_HIDDEN_STORAGE as int
        } else {
            STACK_HIDDEN_PINGPONG as int
        }],
        readout.row_offset as int,
        run.sizes.hidden as int,
    )
}

/// The hidden row, normed with the weights of the final norm. The norm runs with its own dispatch
/// and uniform words.
pub open spec fn normed_row(
    run: StackRun,
    plan: LmHeadPlan,
    readout: Readout,
    memory: Memory,
) -> Seq<u8> {
    (run.device)(
        crate::stack_flow::norm_source(run.sources, run.plans.resources.storage),
        plan.stage_dispatches@[0],
        seq![
            readout_row(run, readout, memory),
            memory[STACK_FINAL_NORM_WEIGHT as int],
            crate::dataflow::uniform(plan.stage_words@[0]),
        ],
        0,
        memory[STACK_NORMED_ROW as int],
    )
}

/// The logits of a hidden row: the normed row, projected by the LM head. The projection runs with
/// its own dispatch and uniform words.
pub open spec fn logits_of(
    run: StackRun,
    plan: LmHeadPlan,
    readout: Readout,
    memory: Memory,
) -> Seq<u8> {
    (run.device)(
        crate::stack_flow::gemv_source(run.sources, run.plans.resources.storage),
        plan.stage_dispatches@[1],
        seq![
            memory[STACK_LM_HEAD as int],
            normed_row(run, plan, readout, memory),
            crate::dataflow::uniform(plan.stage_words@[1]),
        ],
        0,
        memory[STACK_LOGITS as int],
    )
}

/// How long the buffers of the readouts are.
proof fn lemma_readout_sizes(run: StackRun, plan: LmHeadPlan, memory: Memory)
    requires
        run.plans.lm_head == Some(plan),
        crate::stack_laws::logits_placed(run.plans),
        crate::device_laws::has_buffers(memory, crate::stack_flow::run_buffers(run)),
    ensures
        memory.len() == STACK_FINISH_VALUE_READBACK + 1,
        memory[STACK_FINAL_NORM_WEIGHT as int].len()
            == run.plans.resources.final_norm_weight_bytes->Some_0,
        memory[STACK_LM_HEAD as int].len() == run.plans.resources.lm_head_weight_bytes->Some_0,
        memory[STACK_NORMED_ROW as int].len() == plan.normed_row_bytes,
        memory[STACK_LOGITS as int].len() == plan.logits_bytes,
        memory[STACK_LOGITS_READBACK as int].len() == plan.logits_bytes,
        memory[STACK_LOGITS_RMS_UNIFORM as int].len() == 16,
        memory[STACK_LOGITS_GEMV_UNIFORM as int].len() == 16,
        memory[STACK_TOP1_RESULT as int].len() == TOP1_RESULT_BYTES,
        memory[STACK_TOP1_READBACK as int].len() == TOP1_RESULT_BYTES,
{
    let buffers = crate::stack_flow::run_buffers(run);
    assert(buffers[STACK_FINAL_NORM_WEIGHT as int].size
        == run.plans.resources.final_norm_weight_bytes->Some_0);
    assert(buffers[STACK_LM_HEAD as int].size
        == run.plans.resources.lm_head_weight_bytes->Some_0);
    assert(buffers[STACK_NORMED_ROW as int].size == plan.normed_row_bytes);
    assert(buffers[STACK_LOGITS as int].size == plan.logits_bytes);
    assert(buffers[STACK_LOGITS_READBACK as int].size == plan.logits_bytes);
    assert(buffers[STACK_LOGITS_RMS_UNIFORM as int].size == 16);
    assert(buffers[STACK_LOGITS_GEMV_UNIFORM as int].size == 16);
    assert(buffers[STACK_TOP1_RESULT as int].size == TOP1_RESULT_BYTES);
    assert(buffers[STACK_TOP1_READBACK as int].size == TOP1_RESULT_BYTES);
}

/// What the two passes of a readout leave behind.
proof fn lemma_readout_passes(
    run: StackRun,
    plan: LmHeadPlan,
    readout: Readout,
    top1: bool,
    memory: Memory,
)
    requires
        crate::dataflow::keeps_lengths(run.device),
        run.plans.lm_head == Some(plan),
        crate::stack_laws::logits_placed(run.plans),
        crate::device_laws::has_buffers(memory, crate::stack_flow::run_buffers(run)),
        readout_words_hold(memory, plan),
        readout.from_prefill ==> run.plans.prefill_capable,
    ensures
        ({
            let passes = crate::stack_encode::readout_passes(
                run.plans.resources,
                run.plans.lm_head,
                readout,
                top1,
            );
            &&& passes is Ok
            &&& passes->Ok_0.len() == 2
            &&& crate::dataflow::after(
                crate::stack_flow::stack_setup(run),
                passes->Ok_0,
                memory,
                2,
            ) == memory.update(
                STACK_NORMED_ROW as int,
                normed_row(run, plan, readout, memory),
            ).update(STACK_LOGITS as int, logits_of(run, plan, readout, memory))
        }),
{
    let setup = crate::stack_flow::stack_setup(run);
    let passes = crate::stack_encode::readout_passes(
        run.plans.resources,
        run.plans.lm_head,
        readout,
        top1,
    )->Ok_0;
    let pipelines = crate::stack_encode::weight_pipelines(run.plans.resources.storage);
    let of_logits = crate::stack_resources::logits_bind_groups(
        run.sizes,
        crate::stack_resources::logits_sizes(run.plans.resources, run.plans.lm_head),
        run.plans.prefill_capable,
    );
    lemma_readout_sizes(run, plan, memory);
    crate::stack_flow::law_passes_run_their_shaders(run);
    crate::dataflow::lemma_whole();
    assert(setup.groups[GROUP_PREFILL_LOGITS_RMS as int] == of_logits[0]);
    assert(setup.groups[GROUP_STEP_LOGITS_RMS as int] == of_logits[1]);
    assert(setup.groups[GROUP_GEMV_LOGITS as int] == of_logits[2]);
    let m1 = crate::dataflow::after(setup, passes, memory, 1);
    let m2 = crate::dataflow::after(setup, passes, memory, 2);
    reveal_with_fuel(crate::dataflow::after, 3);
    let group = if readout.from_prefill {
        GROUP_PREFILL_LOGITS_RMS
    } else {
        GROUP_STEP_LOGITS_RMS
    };
    assert(m1 == memory.update(
        STACK_NORMED_ROW as int,
        normed_row(run, plan, readout, memory),
    )) by {
        assert(m1 == crate::dataflow::carried_out(setup, passes[0], memory));
        let offsets = seq![readout.row_offset, 0u64];
        crate::stack_flow::lemma_entry_offsets(offsets);
        crate::dataflow::lemma_third_of_four(
            setup,
            pipelines.rms_norm,
            group,
            plan.stage_dispatches@[0],
            offsets,
            memory,
        );
    }
    assert(m2 == m1.update(STACK_LOGITS as int, logits_of(run, plan, readout, memory))) by {
        assert(m2 == crate::dataflow::carried_out(setup, passes[1], m1));
        let offsets = seq![0u64];
        crate::stack_flow::lemma_entry_offsets(offsets);
        crate::dataflow::lemma_third_of_four(
            setup,
            pipelines.gemv_tiled,
            GROUP_GEMV_LOGITS,
            plan.stage_dispatches@[1],
            offsets,
            m1,
        );
    }
}

/// What is read back as logits is the hidden row, normed with the final norm and projected by the
/// LM head: the norm runs with the dispatch and the uniform words of the norm, the projection with
/// those of the projection.
pub proof fn law_logits_are_the_projected_normed_row(
    run: StackRun,
    plan: LmHeadPlan,
    readout: Readout,
    memory: Memory,
)
    requires
        crate::dataflow::keeps_lengths(run.device),
        run.plans.lm_head == Some(plan),
        crate::stack_laws::logits_placed(run.plans),
        crate::device_laws::has_buffers(memory, crate::stack_flow::run_buffers(run)),
        readout_words_hold(memory, plan),
        readout.from_prefill ==> run.plans.prefill_capable,
    ensures
        ({
            let outcome = crate::stack_encode::logits_commands(
                run.plans.resources,
                run.plans.lm_head,
                readout,
            );
            let now = crate::dataflow::performed(
                crate::stack_flow::stack_setup(run),
                Seq::empty(),
                outcome->Ok_0,
                memory,
            );
            &&& outcome is Ok
            &&& now[STACK_LOGITS_READBACK as int] == logits_of(run, plan, readout, memory)
            &&& now[STACK_LOGITS as int] == logits_of(run, plan, readout, memory)
        }),
{
    let setup = crate::stack_flow::stack_setup(run);
    lemma_readout_passes(run, plan, readout, false, memory);
    lemma_readout_sizes(run, plan, memory);
    let passes = crate::stack_encode::readout_passes(
        run.plans.resources,
        run.plans.lm_head,
        readout,
        false,
    )->Ok_0;
    let commands = crate::stack_encode::logits_commands(
        run.plans.resources,
        run.plans.lm_head,
        readout,
    )->Ok_0;
    let copied = seq![commands.last()];
    assert(commands =~= passes + copied);
    crate::dataflow::lemma_after_both(setup, passes, copied, memory, 1);
    crate::dataflow::lemma_whole();
    reveal_with_fuel(crate::dataflow::after, 2);
    reveal_with_fuel(crate::dataflow::written, 1);
}

/// What is read back as the selected token is what the selection makes of the logits of the hidden
/// row.
pub proof fn law_selection_reads_the_logits(
    run: StackRun,
    plan: LmHeadPlan,
    readout: Readout,
    memory: Memory,
)
    requires
        crate::dataflow::keeps_lengths(run.device),
        run.plans.lm_head == Some(plan),
        crate::stack_laws::logits_placed(run.plans),
        crate::device_laws::has_buffers(memory, crate::stack_flow::run_buffers(run)),
        readout_words_hold(memory, plan),
        readout.from_prefill ==> run.plans.prefill_capable,
    ensures
        ({
            let outcome = crate::stack_encode::top1_commands(
                run.plans.resources,
                run.plans.lm_head,
                readout,
            );
            let now = crate::dataflow::performed(
                crate::stack_flow::stack_setup(run),
                Seq::empty(),
                outcome->Ok_0,
                memory,
            );
            &&& outcome is Ok
            &&& now[STACK_TOP1_READBACK as int] == (run.device)(
                run.selection,
                [1u32, 1, 1],
                seq![logits_of(run, plan, readout, memory)],
                0,
                memory[STACK_TOP1_RESULT as int],
            )
        }),
{
    let setup = crate::stack_flow::stack_setup(run);
    lemma_readout_passes(run, plan, readout, true, memory);
    lemma_readout_sizes(run, plan, memory);
    let passes = crate::stack_encode::readout_passes(
        run.plans.resources,
        run.plans.lm_head,
        readout,
        true,
    )->Ok_0;
    let commands = crate::stack_encode::top1_commands(
        run.plans.resources,
        run.plans.lm_head,
        readout,
    )->Ok_0;
    let rest = seq![commands[2], commands[3]];
    assert(commands =~= passes + rest);
    crate::dataflow::lemma_after_both(setup, passes, rest, memory, 2);
    crate::stack_flow::law_passes_run_their_shaders(run);
    crate::dataflow::lemma_whole();
    reveal_with_fuel(crate::dataflow::after, 3);
    reveal_with_fuel(crate::dataflow::written, 1);
    let logits = logits_of(run, plan, readout, memory);
    let before = crate::dataflow::after(setup, passes, memory, 2);
    let picked = (run.device)(
        run.selection,
        [1u32, 1, 1],
        seq![logits],
        0,
        memory[STACK_TOP1_RESULT as int],
    );
    assert(setup.groups[GROUP_TOP1 as int] == crate::stack_resources::top1_bind_group(
        crate::stack_resources::logits_sizes(run.plans.resources, run.plans.lm_head),
    ));
    assert(crate::dataflow::carried_out(setup, rest[0], before) == before.update(
        STACK_TOP1_RESULT as int,
        picked,
    )) by {
        let none = Seq::<u64>::empty();
        crate::stack_flow::lemma_entry_offsets(none);
        crate::dataflow::lemma_second_of_two(
            setup,
            PIPELINE_TOP1,
            GROUP_TOP1,
            [1u32, 1, 1],
            none,
            before,
        );
    }
}

/// What a readout of logits hands back is the logits, and what a token selection hands back is what
/// the selection makes of them.
pub proof fn law_readouts_hand_back_their_results(
    run: StackRun,
    plan: LmHeadPlan,
    readout: Readout,
    memory: Memory,
)
    requires
        crate::dataflow::keeps_lengths(run.device),
        run.plans.lm_head == Some(plan),
        crate::stack_laws::logits_placed(run.plans),
        crate::device_laws::has_buffers(memory, crate::stack_flow::run_buffers(run)),
        readout_words_hold(memory, plan),
        readout.from_prefill ==> run.plans.prefill_capable,
    ensures
        ({
            let setup = crate::stack_flow::stack_setup(run);
            let none = Seq::<WriteModel>::empty();
            let read = crate::dataflow::performed(
                setup,
                none,
                crate::stack_encode::logits_commands(
                    run.plans.resources,
                    run.plans.lm_head,
                    readout,
                )->Ok_0,
                memory,
            );
            let selected = crate::dataflow::performed(
                setup,
                none,
                crate::stack_encode::top1_commands(
                    run.plans.resources,
                    run.plans.lm_head,
                    readout,
                )->Ok_0,
                memory,
            );
            let logits = logits_of(run, plan, readout, memory);
            &&& crate::dataflow::brought_back(
                read,
                crate::readback::stack_readbacks(run.plans, Operation::Logits)->Ok_0,
            ) == seq![logits]
            &&& crate::dataflow::brought_back(
                selected,
                crate::readback::stack_readbacks(run.plans, Operation::Top1)->Ok_0,
            ) == seq![
                (run.device)(
                    run.selection,
                    [1u32, 1, 1],
                    seq![logits],
                    0,
                    memory[STACK_TOP1_RESULT as int],
                ),
            ]
        }),
{
    law_logits_are_the_projected_normed_row(run, plan, readout, memory);
    law_selection_reads_the_logits(run, plan, readout, memory);
    lemma_readout_sizes(run, plan, memory);
    crate::dataflow::lemma_whole();
}

/// Right after a prefill, a readout reads the very row that the prefill read back.
pub proof fn law_readout_after_a_prefill_reads_its_row(
    run: StackRun,
    prefill: PrefillPlan,
    hidden_states: Seq<u8>,
    memory: Memory,
    top1: bool,
    initial_cache_tokens: u32,
)
    requires
        crate::dataflow::keeps_lengths(run.device),
        run.plans.prefill_capable,
        crate::stack_laws::well_placed(run.plans, run.sizes),
        crate::stack_laws::prefill_placed(run.plans, prefill),
        crate::device_laws::has_buffers(memory, crate::stack_flow::run_buffers(run)),
        crate::prefill_flow::prefill_forgets_earlier_work(run, prefill),
        1 <= prefill.tokens,
        hidden_states.len() == prefill.tokens * PREFILL_ROW_BYTES,
    ensures
        ({
            let readout = crate::stack_encode::readout_outcome(
                top1,
                true,
                run.plans.prefill_capable,
                prefill.tokens,
                initial_cache_tokens,
                prefill.tokens,
            );
            let now = crate::prefill_flow::after_prefill(run, prefill, hidden_states, memory);
            &&& readout is Ok
            &&& readout_row(run, readout->Ok_0, now) == now[STACK_STACK_READBACK as int]
        }),
{
    crate::prefill_flow::law_prefill_runs_all_layers(run, prefill, hidden_states, memory);
    assert((prefill.tokens - 1) * PREFILL_ROW_BYTES <= u64::MAX);
}

/// Right after a step of a stack with an even number of layers, a readout reads the very row that
/// the step read back.
pub proof fn law_readout_after_a_step_reads_its_row(
    run: StackRun,
    transition: KvStepPlan,
    step: StackStepPlan,
    hidden_row: Seq<u8>,
    memory: Memory,
    top1: bool,
    initial_cache_tokens: u32,
    prefill_tokens: u32,
)
    requires
        crate::dataflow::keeps_lengths(run.device),
        crate::stack_laws::well_placed(run.plans, run.sizes),
        crate::device_laws::has_buffers(memory, crate::stack_flow::run_buffers(run)),
        crate::step_flow::forgets_earlier_work(run, transition, step),
        hidden_row.len() == run.sizes.hidden,
        run.plans.stack.layers % 2 == 0,
        if run.plans.prefill_capable {
            prefill_tokens < transition.cache_tokens_after
        } else {
            initial_cache_tokens < transition.cache_tokens_after
        },
    ensures
        ({
            let readout = crate::stack_encode::readout_outcome(
                top1,
                true,
                run.plans.prefill_capable,
                transition.cache_tokens_after,
                initial_cache_tokens,
                prefill_tokens,
            );
            let now = crate::step_flow::after_step(run, transition, step, hidden_row, memory);
            &&& readout is Ok
            &&& readout_row(run, readout->Ok_0, now) == now[STACK_STACK_READBACK as int]
        }),
{
    crate::step_flow::law_step_runs_all_layers(run, transition, step, hidden_row, memory);
}

} // verus!
