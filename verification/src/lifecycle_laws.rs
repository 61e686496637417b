//! What holds of every operation, whatever the driver reports.

use crate::failure::SessionState;
use crate::family::Family;
use crate::kv::KvStepPlan;
use crate::lifecycle::{ActionModel, EventModel, Operation, Phase, RunModel, ScopeKind};
use vstd::prelude::*;

verus! {

/// Where an operation stands after a series of events, and the actions that it asked for. Its
/// inputs were refused, or admitted.
pub open spec fn history(
    family: Family,
    operation: Operation,
    refusal: Option<Seq<char>>,
    events: Seq<EventModel>,
) -> (RunModel, Seq<ActionModel>)
    decreases events.len(),
{
    if events.len() == 0 {
        let (run, action) = crate::lifecycle::started(family, operation, refusal);
        (run, seq![action])
    } else {
        let (run, actions) = history(family, operation, refusal, events.drop_last());
        let (following, action) = crate::lifecycle::next(run, events.last());
        (following, actions.push(action))
    }
}

/// The scopes that are left open after a series of actions, if every pop names the scope
/// that was pushed last among those still open.
pub open spec fn open_scopes(actions: Seq<ActionModel>) -> Option<Seq<ScopeKind>>
    decreases actions.len(),
{
    if actions.len() == 0 {
        Some(Seq::empty())
    } else {
        match open_scopes(actions.drop_last()) {
            None => None,
            Some(scopes) => match actions.last() {
                ActionModel::Push(scope) => Some(scopes.push(scope)),
                ActionModel::Pop(scope) => if scopes.len() > 0 && scopes.last() == scope {
                    Some(scopes.drop_last())
                } else {
                    None
                },
                _ => Some(scopes),
            },
        }
    }
}

/// Whether a phase comes after the scopes are drained.
pub open spec fn after_draining(phase: Phase) -> bool {
    phase is Confirming || phase is Readying || phase is Reporting || phase is Closing
        || phase is Returned
}

/// Whether a phase does GPU work.
pub open spec fn at_work(phase: Phase) -> bool {
    phase is Resolving || phase is Encoding || phase is Storing || phase is Awaiting
        || phase is Mapping || phase is Fencing || phase is Reading || phase is Unmapping
        || phase is Quieting || phase is Accepting
}

/// What holds of an operation between any two events.
pub open spec fn sound(run: RunModel) -> bool {
    &&& crate::lifecycle::well_formed(run)
    &&& (after_draining(run.phase) ==> run.ledger.len() == 0)
    &&& (at_work(run.phase) ==> run.ledger.len() == 3)
    &&& (run.operation != Operation::Begin ==> run.held && !(run.phase is Storing)
        && !(run.phase is Confirming) && !(run.phase is Readying))
    &&& (run.operation == Operation::Begin ==> !(run.phase is Awaiting || run.phase is Mapping
        || run.phase is Fencing || run.phase is Reading || run.phase is Unmapping
        || run.phase is Quieting || run.phase is Accepting) && !(run.cause is Stale))
}

proof fn lemma_next_is_sound(run: RunModel, event: EventModel)
    requires
        sound(run),
    ensures
        sound(crate::lifecycle::next(run, event).0),
{
    let scopes = crate::lifecycle::checked_scopes();
    if run.ledger.len() >= 1 {
        assert(run.ledger.drop_last() =~= scopes.subrange(0, run.ledger.len() - 1));
    }
    if run.ledger.len() < 3 {
        assert(run.ledger.push(scopes[run.ledger.len() as int]) =~= scopes.subrange(
            0,
            run.ledger.len() as int + 1,
        ));
    }
}

proof fn lemma_next_moves_scopes(run: RunModel, event: EventModel)
    requires
        sound(run),
    ensures
        ({
            let (following, action) = crate::lifecycle::next(run, event);
            &&& following.family == run.family
            &&& following.operation == run.operation
            &&& match action {
                ActionModel::Push(scope) => following.ledger == run.ledger.push(scope),
                ActionModel::Pop(scope) => run.ledger.len() > 0 && run.ledger.last() == scope
                    && following.ledger == run.ledger.drop_last(),
                _ => following.ledger == run.ledger,
            }
        }),
{
}

/// An operation is sound after any series of events, and its ledger is what its actions left open.
#[verifier::spinoff_prover]
#[verifier::rlimit(40)]
pub proof fn lemma_history_is_sound(
    family: Family,
    operation: Operation,
    refusal: Option<Seq<char>>,
    events: Seq<EventModel>,
)
    ensures
        sound(history(family, operation, refusal, events).0),
        history(family, operation, refusal, events).0.operation == operation,
        history(family, operation, refusal, events).0.family == family,
        history(family, operation, refusal, events).1.len() == events.len() + 1,
        open_scopes(history(family, operation, refusal, events).1) == Some(
            history(family, operation, refusal, events).0.ledger,
        ),
    decreases events.len(),
{
    let (run, actions) = history(family, operation, refusal, events);
    if events.len() == 0 {
        let scopes = crate::lifecycle::checked_scopes();
        assert(run.ledger =~= scopes.subrange(0, run.ledger.len() as int));
        assert(actions.drop_last() =~= Seq::<ActionModel>::empty());
        assert(open_scopes(actions.drop_last()) == Some(Seq::<ScopeKind>::empty()));
    } else {
        lemma_history_is_sound(family, operation, refusal, events.drop_last());
        let (before, earlier) = history(family, operation, refusal, events.drop_last());
        lemma_next_is_sound(before, events.last());
        lemma_next_moves_scopes(before, events.last());
        assert(actions.drop_last() =~= earlier);
    }
}

/// Every scope that an operation pushes is popped, the last pushed first, before it
/// returns.
pub proof fn law_scopes_drain_in_reverse(
    family: Family,
    operation: Operation,
    refusal: Option<Seq<char>>,
    events: Seq<EventModel>,
)
    ensures
        open_scopes(history(family, operation, refusal, events).1) is Some,
        history(family, operation, refusal, events).1.last() is Return ==> open_scopes(
            history(family, operation, refusal, events).1,
        ) == Some(Seq::<ScopeKind>::empty()),
{
    lemma_history_is_sound(family, operation, refusal, events);
    let (run, actions) = history(family, operation, refusal, events);
    if actions.last() is Return {
        if events.len() > 0 {
            lemma_history_is_sound(family, operation, refusal, events.drop_last());
        }
        assert(run.phase is Returned);
        assert(run.ledger =~= Seq::<ScopeKind>::empty());
    }
}

/// Whether an action touches the device, the queue or a readback.
pub open spec fn is_gpu_work(action: ActionModel) -> bool {
    action is Resolve || action is Encode || action is AwaitQueue || action is MapReadback
        || action is Read || action is Unmap || action is UnmapQuietly
}

/// All GPU work is done inside all three checked scopes.
pub proof fn law_gpu_work_is_scoped(
    family: Family,
    operation: Operation,
    refusal: Option<Seq<char>>,
    events: Seq<EventModel>,
)
    ensures
        is_gpu_work(history(family, operation, refusal, events).1.last()) ==> open_scopes(
            history(family, operation, refusal, events).1,
        ) == Some(crate::lifecycle::checked_scopes()),
{
    lemma_history_is_sound(family, operation, refusal, events);
    let (run, actions) = history(family, operation, refusal, events);
    if is_gpu_work(actions.last()) {
        if events.len() > 0 {
            lemma_history_is_sound(family, operation, refusal, events.drop_last());
        }
        assert(at_work(run.phase));
        assert(run.ledger =~= crate::lifecycle::checked_scopes());
    }
}

/// Whether any action of a series gives the leased session back in good order.
pub open spec fn restored_sound(actions: Seq<ActionModel>) -> bool {
    exists|i: int| 0 <= i < actions.len() && is_sound_restore(#[trigger] actions[i])
}

/// Whether an action gives the leased session back in good order.
pub open spec fn is_sound_restore(action: ActionModel) -> bool {
    match action {
        ActionModel::Restore { poisoned, .. } => !poisoned,
        _ => false,
    }
}

proof fn lemma_sound_restore_means_success(
    family: Family,
    operation: Operation,
    refusal: Option<Seq<char>>,
    events: Seq<EventModel>,
)
    requires
        refusal is None,
    ensures
        restored_sound(history(family, operation, refusal, events).1) ==> {
            let run = history(family, operation, refusal, events).0;
            (run.phase is Closing || run.phase is Returned) && run.ending is Ok
        },
    decreases events.len(),
{
    let (run, actions) = history(family, operation, refusal, events);
    if events.len() > 0 {
        lemma_sound_restore_means_success(family, operation, refusal, events.drop_last());
        lemma_history_is_sound(family, operation, refusal, events.drop_last());
        let (before, earlier) = history(family, operation, refusal, events.drop_last());
        let action = actions.last();
        if restored_sound(actions) && !restored_sound(earlier) {
            let i = choose|i: int|
                0 <= i < actions.len() && is_sound_restore(#[trigger] actions[i]);
            if i < earlier.len() {
                assert(earlier[i] == actions[i]);
            }
            assert(is_sound_restore(action));
        }
    } else {
        assert(!is_sound_restore(actions[0]));
    }
}

/// Whether a series of events brings the news that a generation was superseded.
pub open spec fn brings_news(events: Seq<EventModel>) -> bool {
    exists|i: int| 0 <= i < events.len() && #[trigger] events[i] is Superseded
}

/// Whether an action gives the leased session back poisoned.
pub open spec fn is_poisoned_restore(action: ActionModel) -> bool {
    match action {
        ActionModel::Restore { poisoned, .. } => poisoned,
        _ => false,
    }
}

/// Whether any action of a series gives the leased session back poisoned.
pub open spec fn restored_poisoned(actions: Seq<ActionModel>) -> bool {
    exists|i: int| 0 <= i < actions.len() && is_poisoned_restore(#[trigger] actions[i])
}

/// An operation on a leased session that was admitted and returns an error never gives the
/// session back in good order. It gives it back poisoned; only where the news came that its
/// generation was superseded, and it ends as stale, does it release the session.
pub proof fn law_failure_poisons_the_session(
    family: Family,
    operation: Operation,
    refusal: Option<Seq<char>>,
    events: Seq<EventModel>,
)
    requires
        operation != Operation::Begin,
        refusal is None,
    ensures
        history(family, operation, refusal, events).1.last() matches ActionModel::Return(ending)
            ==> {
            let actions = history(family, operation, refusal, events).1;
            let stale = Err::<Seq<char>, Seq<char>>(
                crate::lifecycle::stale_message(family, operation),
            );
            ending is Err ==> {
                &&& !restored_sound(actions)
                &&& !brings_news(events) ==> restored_poisoned(actions)
                &&& restored_poisoned(actions) || (ending == stale && asked(
                    actions,
                    ActionModel::Release,
                ))
            }
        },
{
    lemma_sound_restore_means_success(family, operation, refusal, events);
    lemma_history_is_sound(family, operation, refusal, events);
    lemma_closed_properly(family, operation, refusal, events);
    if events.len() > 0 {
        lemma_history_is_sound(family, operation, refusal, events.drop_last());
    }
}

proof fn lemma_closed_properly(
    family: Family,
    operation: Operation,
    refusal: Option<Seq<char>>,
    events: Seq<EventModel>,
)
    requires
        operation != Operation::Begin,
        refusal is None,
    ensures
        ({
            let (run, actions) = history(family, operation, refusal, events);
            let stale = Err::<Seq<char>, Seq<char>>(
                crate::lifecycle::stale_message(family, operation),
            );
            &&& run.cause is Stale ==> brings_news(events)
            &&& (run.phase is Closing || run.phase is Returned) && run.ending is Err ==> {
                ||| restored_poisoned(actions)
                ||| brings_news(events) && run.ending == stale && asked(
                    actions,
                    ActionModel::Release,
                )
            }
        }),
    decreases events.len(),
{
    if events.len() > 0 {
        lemma_closed_properly(family, operation, refusal, events.drop_last());
        lemma_history_is_sound(family, operation, refusal, events.drop_last());
        let (before, earlier) = history(family, operation, refusal, events.drop_last());
        let (run, actions) = history(family, operation, refusal, events);
        let action = actions.last();
        assert(actions[actions.len() - 1] == action);
        if brings_news(events.drop_last()) {
            let i = choose|i: int|
                0 <= i < events.len() - 1 && #[trigger] events.drop_last()[i] is Superseded;
            assert(events[i] is Superseded);
        }
        if events.last() is Superseded {
            assert(events[events.len() - 1] is Superseded);
        }
        if restored_poisoned(earlier) {
            let i = choose|i: int|
                0 <= i < earlier.len() && is_poisoned_restore(#[trigger] earlier[i]);
            assert(is_poisoned_restore(actions[i]));
        }
        if asked(earlier, ActionModel::Release) {
            let i = choose|i: int| 0 <= i < earlier.len() && earlier[i] == ActionModel::Release;
            assert(actions[i] == ActionModel::Release);
        }
        if is_poisoned_restore(action) {
            assert(restored_poisoned(actions));
        }
    }
}

proof fn lemma_refused_history(
    family: Family,
    operation: Operation,
    message: Seq<char>,
    events: Seq<EventModel>,
)
    ensures
        ({
            let (run, actions) = history(family, operation, Some(message), events);
            let ending = Err::<Seq<char>, Seq<char>>(message);
            &&& run.phase is Closing || run.phase is Returned
            &&& run.ending == ending
            &&& actions.len() == events.len() + 1
            &&& actions[0] == (if operation == Operation::Begin {
                ActionModel::Return(ending)
            } else {
                ActionModel::Restore { poisoned: false, advanced: false }
            })
            &&& forall|i: int|
                1 <= i < actions.len() ==> #[trigger] actions[i] == ActionModel::Return(ending)
        }),
    decreases events.len(),
{
    if events.len() > 0 {
        lemma_refused_history(family, operation, message, events.drop_last());
    }
}

/// An operation that is refused does nothing: a session that was leased for it is given back as
/// it was, sound, ready and with the same tokens, so that the next operation finds it usable; no
/// scope is pushed and no GPU work is done, and the operation returns with the refusal.
pub proof fn law_refused_operation_changes_nothing(
    family: Family,
    operation: Operation,
    message: Seq<char>,
    events: Seq<EventModel>,
    state: SessionState,
    tokens_after: u32,
)
    requires
        operation != Operation::Begin,
        crate::failure::acquisition_complaint(family, Some(state.flags)) is None,
    ensures
        ({
            let actions = history(family, operation, Some(message), events).1;
            &&& actions[0] matches ActionModel::Restore { poisoned, advanced }
            &&& crate::failure::given_back(state, tokens_after, poisoned, advanced) == state
            &&& crate::failure::acquisition_complaint(
                family,
                Some(
                    crate::failure::given_back(state, tokens_after, poisoned, advanced).flags,
                ),
            ) is None
            &&& forall|i: int|
                1 <= i < actions.len() ==> #[trigger] actions[i] == ActionModel::Return(
                    Err(message),
                )
        }),
{
    lemma_refused_history(family, operation, message, events);
}

/// A step of a key/value session that is refused, because an operand is no whole sequence of
/// single-precision words or because the planner refuses it, does nothing: the session goes back
/// as it was, and the next step finds it usable.
pub proof fn law_refused_kv_step_changes_nothing(
    query: Option<Seq<u8>>,
    appended_key: Option<Seq<u8>>,
    appended_value: Option<Seq<u8>>,
    planned: Result<KvStepPlan, Seq<char>>,
    events: Seq<EventModel>,
    state: SessionState,
    tokens_after: u32,
)
    requires
        crate::operands::kv_step_refusal(
            query,
            appended_key,
            appended_value,
            planned,
        ) is Some,
        crate::failure::acquisition_complaint(Family::Kv, Some(state.flags)) is None,
    ensures
        ({
            let refusal = crate::operands::kv_step_refusal(
                query,
                appended_key,
                appended_value,
                planned,
            );
            let actions = history(Family::Kv, Operation::Step, refusal, events).1;
            &&& actions[0] matches ActionModel::Restore { poisoned, advanced }
            &&& crate::failure::given_back(state, tokens_after, poisoned, advanced) == state
            &&& forall|i: int|
                1 <= i < actions.len() ==> #[trigger] actions[i] == ActionModel::Return(
                    Err(refusal->Some_0),
                )
        }),
{
    let refusal = crate::operands::kv_step_refusal(query, appended_key, appended_value, planned);
    law_refused_operation_changes_nothing(
        Family::Kv,
        Operation::Step,
        refusal->Some_0,
        events,
        state,
        tokens_after,
    );
}

/// A begin that is refused does nothing but return with the refusal.
pub proof fn law_refused_begin_does_nothing(
    family: Family,
    message: Seq<char>,
    events: Seq<EventModel>,
)
    ensures
        forall|i: int|
            0 <= i < history(family, Operation::Begin, Some(message), events).1.len()
                ==> #[trigger] history(family, Operation::Begin, Some(message), events).1[i]
                == ActionModel::Return(Err(message)),
{
    lemma_refused_history(family, Operation::Begin, message, events);
}

/// Whether an action gives the leased session back, or releases it.
pub open spec fn is_settlement(action: ActionModel) -> bool {
    action is Restore || action is Release
}

/// How often a series of actions gives the leased session back, or releases it.
pub open spec fn settlements(actions: Seq<ActionModel>) -> nat
    decreases actions.len(),
{
    if actions.len() == 0 {
        0
    } else if is_settlement(actions.last()) {
        settlements(actions.drop_last()) + 1
    } else {
        settlements(actions.drop_last())
    }
}

/// What an operation that succeeds does with its leased session: a finish releases it, every
/// other operation gives it back sound and advanced.
pub open spec fn good_settlement(operation: Operation) -> ActionModel {
    if operation == Operation::Finish {
        ActionModel::Release
    } else {
        ActionModel::Restore { poisoned: false, advanced: true }
    }
}

proof fn lemma_settled(
    family: Family,
    operation: Operation,
    refusal: Option<Seq<char>>,
    events: Seq<EventModel>,
)
    requires
        operation != Operation::Begin,
    ensures
        ({
            let (run, actions) = history(family, operation, refusal, events);
            let closed = run.phase is Closing || run.phase is Returned;
            &&& settlements(actions) == (if closed {
                1nat
            } else {
                0nat
            })
            &&& closed && run.ending is Ok ==> asked(actions, good_settlement(operation))
        }),
    decreases events.len(),
{
    let (run, actions) = history(family, operation, refusal, events);
    if events.len() == 0 {
        assert(actions.drop_last() =~= Seq::<ActionModel>::empty());
        assert(settlements(actions.drop_last()) == 0);
    } else {
        lemma_settled(family, operation, refusal, events.drop_last());
        lemma_history_is_sound(family, operation, refusal, events.drop_last());
        let (before, earlier) = history(family, operation, refusal, events.drop_last());
        assert(actions.drop_last() =~= earlier);
        if asked(earlier, good_settlement(operation)) {
            let i = choose|i: int|
                0 <= i < earlier.len() && earlier[i] == good_settlement(operation);
            assert(actions[i] == good_settlement(operation));
        }
        assert(actions[actions.len() - 1] == actions.last());
    }
}

/// Every operation on a leased session settles its lease exactly once before it returns, whatever
/// happens; one that succeeds gives the session back sound and advanced, or, where it is a
/// finish, releases it.
pub proof fn law_lease_is_settled_once(
    family: Family,
    operation: Operation,
    refusal: Option<Seq<char>>,
    events: Seq<EventModel>,
)
    requires
        operation != Operation::Begin,
    ensures
        settlements(history(family, operation, refusal, events).1) <= 1,
        history(family, operation, refusal, events).1.last() matches ActionModel::Return(ending)
            ==> {
            let actions = history(family, operation, refusal, events).1;
            &&& settlements(actions) == 1
            &&& (ending is Ok ==> asked(actions, good_settlement(operation)))
        },
{
    lemma_settled(family, operation, refusal, events);
    if events.len() > 0 {
        lemma_history_is_sound(family, operation, refusal, events.drop_last());
    }
}

/// Whether a series of actions has a given one.
pub open spec fn asked(actions: Seq<ActionModel>, action: ActionModel) -> bool {
    actions.contains(action)
}

/// What a begin has asked for so far is in step with where it stands: it marks its session
/// ready only after the scopes gave up nothing, and it poisons a session marked ready
/// before it returns an error.
proof fn lemma_begin_in_step(
    family: Family,
    refusal: Option<Seq<char>>,
    events: Seq<EventModel>,
)
    ensures
        ({
            let (run, actions) = history(family, Operation::Begin, refusal, events);
            &&& (asked(actions, ActionModel::MarkReady) ==> run.phase is Readying
                || run.phase is Reporting || run.phase is Closing || run.phase is Returned)
            &&& (asked(actions, ActionModel::MarkReady) && (run.phase is Closing
                || run.phase is Returned) && run.ending is Err ==> asked(
                actions,
                ActionModel::PoisonStored,
            ))
            &&& (run.phase is Returned && run.ending is Ok ==> asked(
                actions,
                ActionModel::MarkReady,
            ))
            &&& (run.phase is Readying || run.phase is Reporting ==> asked(
                actions,
                ActionModel::MarkReady,
            ))
            &&& (run.phase is Closing ==> run.ending is Err)
        }),
    decreases events.len(),
{
    let (run, actions) = history(family, Operation::Begin, refusal, events);
    if events.len() == 0 {
        assert(actions =~= seq![
            crate::lifecycle::started(family, Operation::Begin, refusal).1,
        ]);
        assert(!asked(actions, ActionModel::MarkReady));
    } else {
        lemma_begin_in_step(family, refusal, events.drop_last());
        lemma_history_is_sound(family, Operation::Begin, refusal, events.drop_last());
        let (before, earlier) = history(family, Operation::Begin, refusal, events.drop_last());
        let action = actions.last();
        assert(actions =~= earlier.push(action));
        assert forall|wanted: ActionModel| asked(actions, wanted) == (asked(earlier, wanted)
            || action == wanted) by {
            if asked(earlier, wanted) {
                let i = choose|i: int| 0 <= i < earlier.len() && earlier[i] == wanted;
                assert(actions[i] == wanted);
            }
            if action == wanted {
                assert(actions[actions.len() - 1] == wanted);
            }
        }
    }
}

/// A begin that succeeds leaves a ready session; one that fails after its session was
/// marked ready leaves it poisoned.
pub proof fn law_failed_begin_leaves_nothing_usable(
    family: Family,
    refusal: Option<Seq<char>>,
    events: Seq<EventModel>,
)
    ensures
        history(family, Operation::Begin, refusal, events).1.last() matches ActionModel::Return(ending)
            ==> {
            let actions = history(family, Operation::Begin, refusal, events).1;
            &&& (ending is Ok ==> asked(actions, ActionModel::MarkReady))
            &&& (ending is Err && asked(actions, ActionModel::MarkReady) ==> asked(
                actions,
                ActionModel::PoisonStored,
            ))
        },
{
    lemma_begin_in_step(family, refusal, events);
    lemma_history_is_sound(family, Operation::Begin, refusal, events);
}

/// A pop that follows the news that the generation of its operation was superseded comes
/// only after a wait for the newer lease to clear: every pop answers either the news that
/// the generation is still the current one, or the end of such a wait.
pub proof fn law_cancelled_generation_waits(run: RunModel, event: EventModel)
    requires
        sound(run),
        run.held,
    ensures
        crate::lifecycle::next(run, event).1 is Pop ==> (run.phase is Checking && !(
        event is Superseded)) || run.phase is Waiting,
        run.phase is Checking && event is Superseded ==> crate::lifecycle::next(run, event).1
            is WaitIdle,
        crate::lifecycle::next(run, event).0.phase is Waiting ==> crate::lifecycle::next(
            run,
            event,
        ).1 is WaitIdle,
        crate::lifecycle::next(run, event).0.phase is Checking ==> crate::lifecycle::next(
            run,
            event,
        ).1 is ReadGeneration,
{
}

/// How many more events an operation can take at most before it returns.
pub open spec fn remaining(run: RunModel) -> nat {
    match run.phase {
        Phase::Returned => 0,
        Phase::Closing => 1,
        Phase::Reporting => 2,
        Phase::Readying => 3,
        Phase::Confirming => 4,
        Phase::Waiting => (3 + 3 * run.ledger.len()) as nat,
        Phase::Checking => (4 + 3 * run.ledger.len()) as nat,
        Phase::Popping => (5 + 3 * run.ledger.len()) as nat,
        Phase::Quieting => 15,
        Phase::Accepting => 16,
        Phase::Unmapping => (17 + 4 * (1 - run.readback)) as nat,
        Phase::Reading => (18 + 4 * (1 - run.readback)) as nat,
        Phase::Fencing => (19 + 4 * (1 - run.readback)) as nat,
        Phase::Mapping => (20 + 4 * (1 - run.readback)) as nat,
        Phase::Awaiting => 25,
        Phase::Storing => 25,
        Phase::Encoding => 26,
        Phase::Resolving => 27,
        Phase::Pushing => (28 + (3 - run.ledger.len())) as nat,
    }
}

/// Every event brings an operation closer to its return.
pub proof fn law_every_operation_returns(run: RunModel, event: EventModel)
    requires
        sound(run),
        !(run.phase is Returned),
    ensures
        remaining(crate::lifecycle::next(run, event).0) < remaining(run),
        sound(crate::lifecycle::next(run, event).0),
{
    lemma_next_is_sound(run, event);
}

/// An operation that has returned asks for nothing more.
pub proof fn law_returned_operation_stays_returned(run: RunModel, event: EventModel)
    requires
        run.phase is Returned,
    ensures
        crate::lifecycle::next(run, event).0 == run,
        crate::lifecycle::next(run, event).1 == ActionModel::Return(run.ending),
{
}

} // verus!
