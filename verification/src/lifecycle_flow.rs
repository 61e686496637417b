//! What an operation has done by the time it returns, and in which order.

use crate::family::Family;
use crate::lifecycle::{ActionModel, EventModel, Operation, Phase, RunModel};
use vstd::prelude::*;

verus! {

/// Whether a readback was mapped, read and unmapped.
pub open spec fn brought(actions: Seq<ActionModel>, readback: int) -> bool {
    &&& crate::lifecycle_laws::asked(actions, ActionModel::MapReadback(readback as usize))
    &&& crate::lifecycle_laws::asked(actions, ActionModel::Read(readback as usize))
    &&& crate::lifecycle_laws::asked(actions, ActionModel::Unmap(readback as usize))
}

/// Whether the first of a number of readbacks were mapped, read and unmapped.
pub open spec fn all_brought(actions: Seq<ActionModel>, readbacks: int) -> bool {
    forall|readback: int| 0 <= readback < readbacks ==> #[trigger] brought(actions, readback)
}

/// Whether the work of an operation on a leased session was done: encoded, awaited, and all of its
/// readbacks brought back and accepted.
pub open spec fn work_done(
    family: Family,
    operation: Operation,
    actions: Seq<ActionModel>,
) -> bool {
    &&& crate::lifecycle_laws::asked(actions, ActionModel::Encode)
    &&& crate::lifecycle_laws::asked(actions, ActionModel::AwaitQueue)
    &&& all_brought(actions, crate::lifecycle::readbacks(family, operation) as int)
    &&& crate::lifecycle_laws::asked(actions, ActionModel::Accept)
}

/// Whether a phase waits for the queue, or comes after that and before the scopes are drained.
pub open spec fn awaited(phase: Phase) -> bool {
    phase is Awaiting || phase is Mapping || phase is Fencing || phase is Reading
        || phase is Unmapping || phase is Accepting
}

/// Whether a phase has a readback at hand that is mapped.
pub open spec fn mapped(phase: Phase) -> bool {
    phase is Mapping || phase is Fencing || phase is Reading || phase is Unmapping
}

/// Whether a phase drains the scopes, or comes after that and before the end.
pub open spec fn draining(phase: Phase) -> bool {
    phase is Checking || phase is Waiting || phase is Popping || phase is Reporting
}

/// Whether what was asked for so far is in step with where an operation on a leased session stands.
pub open spec fn in_step(run: RunModel, actions: Seq<ActionModel>) -> bool {
    &&& run.phase is Encoding || awaited(run.phase) ==> crate::lifecycle_laws::asked(
        actions,
        ActionModel::Encode,
    )
    &&& awaited(run.phase) ==> crate::lifecycle_laws::asked(actions, ActionModel::AwaitQueue)
    &&& run.phase is Pushing || run.phase is Resolving || run.phase is Encoding
        || run.phase is Awaiting ==> run.readback == 0
    &&& mapped(run.phase) ==> {
        &&& crate::lifecycle_laws::asked(actions, ActionModel::MapReadback(run.readback))
        &&& all_brought(actions, run.readback as int)
        &&& run.readback < crate::lifecycle::readbacks(run.family, run.operation)
    }
    &&& run.phase is Reading || run.phase is Unmapping ==> crate::lifecycle_laws::asked(
        actions,
        ActionModel::Read(run.readback),
    )
    &&& run.phase is Unmapping ==> crate::lifecycle_laws::asked(
        actions,
        ActionModel::Unmap(run.readback),
    )
    &&& run.phase is Accepting ==> work_done(run.family, run.operation, actions)
    &&& draining(run.phase) && run.cause is Success ==> work_done(
        run.family,
        run.operation,
        actions,
    )
    &&& run.phase is Reporting ==> run.cause is Success
    &&& run.phase is Quieting ==> !(run.cause is Success)
    &&& (run.phase is Closing || run.phase is Returned) && run.ending is Ok ==> work_done(
        run.family,
        run.operation,
        actions,
    )
    &&& moved_on(actions) ==> work_done(run.family, run.operation, actions)
}

/// Whether a session was given back with the tokens that its operation leaves.
pub open spec fn moved_on(actions: Seq<ActionModel>) -> bool {
    ||| crate::lifecycle_laws::asked(
        actions,
        ActionModel::Restore { poisoned: false, advanced: true },
    )
    ||| crate::lifecycle_laws::asked(
        actions,
        ActionModel::Restore { poisoned: true, advanced: true },
    )
}

proof fn lemma_asked_more(actions: Seq<ActionModel>, action: ActionModel)
    ensures
        forall|wanted: ActionModel| #[trigger]
            crate::lifecycle_laws::asked(actions.push(action), wanted) == (
            crate::lifecycle_laws::asked(actions, wanted) || action == wanted),
        forall|readback: int|
            brought(actions, readback) ==> #[trigger] brought(actions.push(action), readback),
{
    let more = actions.push(action);
    assert forall|wanted: ActionModel| #[trigger]
        crate::lifecycle_laws::asked(more, wanted) == (crate::lifecycle_laws::asked(
            actions,
            wanted,
        ) || action == wanted) by {
        if crate::lifecycle_laws::asked(actions, wanted) {
            let i = choose|i: int| 0 <= i < actions.len() && actions[i] == wanted;
            assert(more[i] == wanted);
        }
        if action == wanted {
            assert(more[more.len() - 1] == wanted);
        }
    }
}

proof fn lemma_work_stays_done(
    family: Family,
    operation: Operation,
    actions: Seq<ActionModel>,
    action: ActionModel,
)
    requires
        work_done(family, operation, actions),
    ensures
        work_done(family, operation, actions.push(action)),
{
    lemma_asked_more(actions, action);
}

#[verifier::spinoff_prover]
#[verifier::rlimit(60)]
proof fn lemma_next_is_in_step(run: RunModel, actions: Seq<ActionModel>, event: EventModel)
    requires
        crate::lifecycle_laws::sound(run),
        run.operation != Operation::Begin,
        in_step(run, actions),
    ensures
        ({
            let (following, action) = crate::lifecycle::next(run, event);
            in_step(following, actions.push(action))
        }),
{
    let (following, action) = crate::lifecycle::next(run, event);
    let more = actions.push(action);
    lemma_asked_more(actions, action);
    if work_done(run.family, run.operation, actions) {
        lemma_work_stays_done(run.family, run.operation, actions, action);
    }
    if run.phase is Unmapping {
        assert(brought(actions, run.readback as int));
        assert(all_brought(more, run.readback + 1)) by {
            assert forall|readback: int| 0 <= readback < run.readback + 1 implies #[trigger] brought(
                more,
                readback,
            ) by {
                assert(brought(actions, readback));
            }
        }
    }
    if mapped(run.phase) {
        assert(all_brought(more, run.readback as int)) by {
            assert forall|readback: int| 0 <= readback < run.readback implies #[trigger] brought(
                more,
                readback,
            ) by {
                assert(brought(actions, readback));
            }
        }
    }
}

proof fn lemma_in_step(family: Family, operation: Operation, events: Seq<EventModel>)
    requires
        operation != Operation::Begin,
    ensures
        ({
            let (run, actions) = crate::lifecycle_laws::history(family, operation, None, events);
            in_step(run, actions)
        }),
    decreases events.len(),
{
    let (run, actions) = crate::lifecycle_laws::history(family, operation, None, events);
    if events.len() == 0 {
        let action = crate::lifecycle::started(family, operation, None).1;
        assert(actions =~= Seq::empty().push(action));
        lemma_asked_more(Seq::empty(), action);
    } else {
        lemma_in_step(family, operation, events.drop_last());
        crate::lifecycle_laws::lemma_history_is_sound(family, operation, None, events.drop_last());
        let (before, earlier) = crate::lifecycle_laws::history(
            family,
            operation,
            None,
            events.drop_last(),
        );
        lemma_next_is_in_step(before, earlier, events.last());
    }
}

/// An operation on a leased session that succeeds has encoded its work, has waited for the queue,
/// has mapped, read and unmapped every readback, and has taken what was read. Only an operation
/// that has done so gives its session back with other tokens.
pub proof fn law_success_means_the_work_is_done(
    family: Family,
    operation: Operation,
    events: Seq<EventModel>,
)
    requires
        operation != Operation::Begin,
    ensures
        ({
            let actions = crate::lifecycle_laws::history(family, operation, None, events).1;
            &&& actions.last() matches ActionModel::Return(ending) ==> ending is Ok ==> work_done(
                family,
                operation,
                actions,
            )
            &&& moved_on(actions) ==> work_done(family, operation, actions)
        }),
{
    lemma_in_step(family, operation, events);
    crate::lifecycle_laws::lemma_history_is_sound(family, operation, None, events);
    let (run, actions) = crate::lifecycle_laws::history(family, operation, None, events);
    if events.len() > 0 {
        crate::lifecycle_laws::lemma_history_is_sound(family, operation, None, events.drop_last());
    }
    if actions.last() is Return {
        assert(run.phase is Returned);
    }
}

/// The actions of an operation on a leased session come in their order: it waits for the queue only
/// behind the encoding, maps a readback only behind that wait and behind the readbacks before it,
/// reads only what is mapped, unmaps only what was read, and takes the bytes only once every
/// readback was brought back.
pub proof fn law_work_comes_in_order(
    family: Family,
    operation: Operation,
    events: Seq<EventModel>,
)
    requires
        operation != Operation::Begin,
        events.len() > 0,
    ensures
        ({
            let actions = crate::lifecycle_laws::history(family, operation, None, events).1;
            let earlier = actions.drop_last();
            match actions.last() {
                ActionModel::AwaitQueue => crate::lifecycle_laws::asked(
                    earlier,
                    ActionModel::Encode,
                ),
                ActionModel::MapReadback(readback) => crate::lifecycle_laws::asked(
                    earlier,
                    ActionModel::AwaitQueue,
                ) && all_brought(earlier, readback as int),
                ActionModel::Read(readback) => crate::lifecycle_laws::asked(
                    earlier,
                    ActionModel::MapReadback(readback),
                ) && all_brought(earlier, readback as int),
                ActionModel::Unmap(readback) => crate::lifecycle_laws::asked(
                    earlier,
                    ActionModel::Read(readback),
                ),
                ActionModel::Accept => all_brought(
                    earlier,
                    crate::lifecycle::readbacks(family, operation) as int,
                ),
                ActionModel::Report => work_done(family, operation, earlier),
                _ => true,
            }
        }),
{
    let (before, earlier) = crate::lifecycle_laws::history(
        family,
        operation,
        None,
        events.drop_last(),
    );
    let actions = crate::lifecycle_laws::history(family, operation, None, events).1;
    lemma_in_step(family, operation, events.drop_last());
    crate::lifecycle_laws::lemma_history_is_sound(family, operation, None, events.drop_last());
    assert(actions.drop_last() =~= earlier);
    if before.phase is Unmapping {
        assert(brought(earlier, before.readback as int));
        assert(all_brought(earlier, before.readback + 1));
    }
}

/// Whether a readback was unmapped, in one way or the other.
pub open spec fn let_go(actions: Seq<ActionModel>, readback: usize) -> bool {
    ||| crate::lifecycle_laws::asked(actions, ActionModel::Unmap(readback))
    ||| crate::lifecycle_laws::asked(actions, ActionModel::UnmapQuietly(readback))
}

/// Whether every readback that was mapped is let go of, but the one at hand while it is mapped.
pub open spec fn none_left_mapped(run: RunModel, actions: Seq<ActionModel>) -> bool {
    forall|readback: usize|
        crate::lifecycle_laws::asked(actions, ActionModel::MapReadback(readback)) ==> #[trigger]
            let_go(actions, readback) || (mapped(run.phase) && readback == run.readback)
}

proof fn lemma_none_left_mapped(family: Family, operation: Operation, events: Seq<EventModel>)
    requires
        operation != Operation::Begin,
    ensures
        ({
            let (run, actions) = crate::lifecycle_laws::history(family, operation, None, events);
            none_left_mapped(run, actions)
        }),
    decreases events.len(),
{
    let (run, actions) = crate::lifecycle_laws::history(family, operation, None, events);
    if events.len() == 0 {
        let action = crate::lifecycle::started(family, operation, None).1;
        assert(actions =~= Seq::empty().push(action));
        lemma_asked_more(Seq::empty(), action);
    } else {
        lemma_none_left_mapped(family, operation, events.drop_last());
        lemma_in_step(family, operation, events.drop_last());
        crate::lifecycle_laws::lemma_history_is_sound(family, operation, None, events.drop_last());
        let (before, earlier) = crate::lifecycle_laws::history(
            family,
            operation,
            None,
            events.drop_last(),
        );
        let action = crate::lifecycle::next(before, events.last()).1;
        lemma_asked_more(earlier, action);
        assert forall|readback: usize|
            crate::lifecycle_laws::asked(actions, ActionModel::MapReadback(readback)) implies
            #[trigger] let_go(actions, readback) || (mapped(run.phase) && readback
            == run.readback) by {
            assert(let_go(earlier, readback) ==> let_go(actions, readback));
        }
    }
}

/// An operation that returns leaves no readback mapped, whatever failed.
pub proof fn law_no_readback_stays_mapped(
    family: Family,
    operation: Operation,
    events: Seq<EventModel>,
    readback: usize,
)
    requires
        operation != Operation::Begin,
    ensures
        ({
            let actions = crate::lifecycle_laws::history(family, operation, None, events).1;
            actions.last() is Return && crate::lifecycle_laws::asked(
                actions,
                ActionModel::MapReadback(readback),
            ) ==> let_go(actions, readback)
        }),
{
    lemma_none_left_mapped(family, operation, events);
    crate::lifecycle_laws::lemma_history_is_sound(family, operation, None, events);
    let (run, actions) = crate::lifecycle_laws::history(family, operation, None, events);
    if events.len() > 0 {
        crate::lifecycle_laws::lemma_history_is_sound(family, operation, None, events.drop_last());
    }
    if actions.last() is Return {
        assert(run.phase is Returned);
    }
}

/// Whether an action must not fail.
pub open spec fn must_succeed(action: ActionModel) -> bool {
    action is Push || action is Resolve || action is Encode || action is Store
        || action is AwaitQueue || action is MapReadback || action is Read || action is Unmap
        || action is Accept || action is Pop || action is Report
}

/// Whether an operation is bound to end in an error.
pub open spec fn doomed(run: RunModel) -> bool {
    ||| !(run.cause is Success)
    ||| crate::lifecycle::captured_anything(run)
    ||| (run.phase is Closing || run.phase is Returned) && run.ending is Err
}

/// Which action a phase performs.
pub open spec fn performs(phase: Phase, action: ActionModel) -> bool {
    match phase {
        Phase::Pushing => action is Push,
        Phase::Resolving => action is Resolve,
        Phase::Encoding => action is Encode,
        Phase::Storing => action is Store,
        Phase::Awaiting => action is AwaitQueue,
        Phase::Mapping => action is MapReadback,
        Phase::Fencing => action is ReadGeneration,
        Phase::Reading => action is Read,
        Phase::Unmapping => action is Unmap,
        Phase::Quieting => action is UnmapQuietly,
        Phase::Accepting => action is Accept,
        Phase::Checking => action is ReadGeneration,
        Phase::Waiting => action is WaitIdle,
        Phase::Popping => action is Pop,
        Phase::Confirming => action is ReadGeneration,
        Phase::Readying => action is MarkReady,
        Phase::Reporting => action is Report,
        Phase::Closing => action is Restore || action is Release || action is PoisonStored,
        Phase::Returned => action is Return,
    }
}

/// Whether a phase drains the scopes or comes after that.
pub open spec fn wound_up(phase: Phase) -> bool {
    phase is Quieting || phase is Checking || phase is Waiting || phase is Popping
        || phase is Confirming || phase is Readying || phase is Reporting || phase is Closing
        || phase is Returned
}

/// Whether an operation has a cause to fail only from where it can.
pub open spec fn fails_late(run: RunModel) -> bool {
    let clean = run.cause is Success && !crate::lifecycle::captured_anything(run);
    &&& !wound_up(run.phase) ==> clean
    &&& run.phase is Confirming ==> run.cause is Success
    &&& run.phase is Readying || run.phase is Reporting ==> clean
    &&& (run.phase is Closing || run.phase is Returned) && run.ending is Ok ==> clean
}

proof fn lemma_fails_late(family: Family, operation: Operation, events: Seq<EventModel>)
    ensures
        ({
            let (run, actions) = crate::lifecycle_laws::history(family, operation, None, events);
            fails_late(run) && performs(run.phase, actions.last())
        }),
    decreases events.len(),
{
    if events.len() > 0 {
        lemma_fails_late(family, operation, events.drop_last());
        crate::lifecycle_laws::lemma_history_is_sound(family, operation, None, events.drop_last());
    }
}

proof fn lemma_next_is_doomed(run: RunModel, event: EventModel)
    requires
        crate::lifecycle_laws::sound(run),
        fails_late(run),
        doomed(run),
    ensures
        doomed(crate::lifecycle::next(run, event).0),
{
}

proof fn lemma_failure_dooms(run: RunModel, action: ActionModel, event: EventModel)
    requires
        crate::lifecycle_laws::sound(run),
        fails_late(run),
        performs(run.phase, action),
        must_succeed(action),
        crate::lifecycle::failure_of(event) is Some,
    ensures
        doomed(crate::lifecycle::next(run, event).0),
{
}

proof fn lemma_doomed(
    family: Family,
    operation: Operation,
    events: Seq<EventModel>,
    place: int,
)
    requires
        0 <= place < events.len(),
    ensures
        ({
            let (run, actions) = crate::lifecycle_laws::history(family, operation, None, events);
            must_succeed(actions[place]) && crate::lifecycle::failure_of(events[place]) is Some
                ==> doomed(run)
        }),
    decreases events.len(),
{
    let (before, earlier) = crate::lifecycle_laws::history(
        family,
        operation,
        None,
        events.drop_last(),
    );
    let (run, actions) = crate::lifecycle_laws::history(family, operation, None, events);
    lemma_fails_late(family, operation, events.drop_last());
    crate::lifecycle_laws::lemma_history_is_sound(family, operation, None, events.drop_last());
    assert(actions == earlier.push(actions.last()));
    assert(actions[place] == earlier[place]);
    if must_succeed(actions[place]) && crate::lifecycle::failure_of(events[place]) is Some {
        if place < events.len() - 1 {
            lemma_doomed(family, operation, events.drop_last(), place);
            assert(events.drop_last()[place] == events[place]);
            lemma_next_is_doomed(before, events.last());
        } else {
            lemma_failure_dooms(before, earlier.last(), events.last());
        }
    }
}

/// An operation that succeeds met no failure: whatever it asked for that must not fail was done, and
/// no scope that it popped held an error.
pub proof fn law_success_means_nothing_failed(
    family: Family,
    operation: Operation,
    events: Seq<EventModel>,
    place: int,
)
    requires
        0 <= place < events.len(),
    ensures
        ({
            let actions = crate::lifecycle_laws::history(family, operation, None, events).1;
            actions.last() matches ActionModel::Return(ending) ==> ending is Ok ==> must_succeed(
                actions[place],
            ) ==> crate::lifecycle::failure_of(events[place]) is None
        }),
{
    lemma_doomed(family, operation, events, place);
    lemma_fails_late(family, operation, events);
    crate::lifecycle_laws::lemma_history_is_sound(family, operation, None, events.drop_last());
    let (run, actions) = crate::lifecycle_laws::history(family, operation, None, events);
    if actions.last() is Return {
        assert(run.phase is Returned);
        assert(actions.last() == ActionModel::Return(run.ending));
    }
}

/// Whether an operation has learnt, before it read anything, that its generation was superseded.
pub open spec fn overtaken(run: RunModel) -> bool {
    &&& run.cause is Stale
    &&& run.operation != Operation::Begin
    &&& wound_up(run.phase)
    &&& !(run.phase is Reporting)
    &&& run.phase is Closing || run.phase is Returned ==> run.ending == Err::<
        Seq<char>,
        Seq<char>,
    >(crate::lifecycle::stale_message(run.family, run.operation))
}

/// An operation that learns, with its readback mapped and not yet read, that its generation was
/// superseded unmaps it, reads and takes nothing, does not give its session back, and returns the
/// message that it is stale.
pub proof fn law_overtaken_operation_takes_nothing(run: RunModel, event: EventModel)
    requires
        crate::lifecycle_laws::sound(run),
    ensures
        run.phase is Fencing && event is Superseded ==> {
            &&& overtaken(crate::lifecycle::next(run, event).0)
            &&& crate::lifecycle::next(run, event).1 == ActionModel::UnmapQuietly(run.readback)
        },
        overtaken(run) ==> {
            let (following, action) = crate::lifecycle::next(run, event);
            &&& overtaken(following)
            &&& !(action is Read || action is Accept || action is Report || action is Restore)
            &&& action matches ActionModel::Return(ending) ==> ending == Err::<
                Seq<char>,
                Seq<char>,
            >(crate::lifecycle::stale_message(run.family, run.operation))
        },
{
}

} // verus!
