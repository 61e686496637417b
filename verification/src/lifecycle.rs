//! The life of one session operation.
//!
//! An operation pushes three error scopes, does its GPU work, drains the scopes from the
//! last pushed to the first, and gives its session back. The driver performs one action at
//! a time and reports what came of it; everything else is decided here.

use crate::failure::{captured_failure_message, drain_appended_message};
use crate::family::{family_noun, Family};
use crate::text::{join2, join4};
use vstd::prelude::*;

verus! {

/// A WebGPU error scope.
#[derive(Clone, Copy, Debug, PartialEq, Eq, Structural)]
pub enum ScopeKind {
    Internal,
    OutOfMemory,
    Validation,
}

/// An operation on a session.
#[derive(Clone, Copy, Debug, PartialEq, Eq, Structural)]
pub enum Operation {
    Begin,
    Step,
    Prefill,
    Logits,
    Top1,
    Finish,
}

/// What came of an action.
#[derive(Debug)]
pub enum Event {
    /// It was done; a popped scope was empty, a generation is still the current one.
    Done,
    /// It failed.
    Failed(String),
    /// A popped scope held an error.
    Captured(String),
    /// The generation that was asked for is no longer the current one.
    Superseded,
    /// The diagnostics of the operation.
    Reported(String),
}

/// What came of an action, as plain data.
pub enum EventModel {
    Done,
    Failed(Seq<char>),
    Captured(Seq<char>),
    Superseded,
    Reported(Seq<char>),
}

/// What came of an action, as plain data.
pub open spec fn event_model(event: Event) -> EventModel {
    match event {
        Event::Done => EventModel::Done,
        Event::Failed(message) => EventModel::Failed(message@),
        Event::Captured(message) => EventModel::Captured(message@),
        Event::Superseded => EventModel::Superseded,
        Event::Reported(text) => EventModel::Reported(text@),
    }
}

/// How an operation ended: its diagnostics, or a message.
pub type Ending = Result<String, String>;

/// How an operation ended, as plain data.
pub type EndingModel = Result<Seq<char>, Seq<char>>;

/// What the driver is to do next.
#[derive(Debug)]
pub enum Action {
    /// Push an error scope.
    Push(ScopeKind),
    /// Look up the raw device and queue.
    Resolve,
    /// Allocate, write, encode and submit.
    Encode,
    /// Store the new session as the current generation.
    Store,
    /// Wait until the queue has done the submitted work.
    AwaitQueue,
    /// Map a readback for reading.
    MapReadback(usize),
    /// Ask whether the generation of the operation is still the current one.
    ReadGeneration,
    /// Read a mapped readback.
    Read(usize),
    /// Unmap a readback.
    Unmap(usize),
    /// Unmap a readback, whatever comes of it.
    UnmapQuietly(usize),
    /// Take the bytes that were read.
    Accept,
    /// Wait until no lease is in flight.
    WaitIdle,
    /// Pop an error scope.
    Pop(ScopeKind),
    /// Poison the stored session.
    PoisonStored,
    /// Mark the stored session ready.
    MarkReady,
    /// Compose the diagnostics.
    Report,
    /// Give the leased session back.
    Restore { poisoned: bool, advanced: bool },
    /// Release the leased session for good.
    Release,
    /// Return.
    Return(Ending),
}

/// What the driver is to do next, as plain data.
pub enum ActionModel {
    Push(ScopeKind),
    Resolve,
    Encode,
    Store,
    AwaitQueue,
    MapReadback(usize),
    ReadGeneration,
    Read(usize),
    Unmap(usize),
    UnmapQuietly(usize),
    Accept,
    WaitIdle,
    Pop(ScopeKind),
    PoisonStored,
    MarkReady,
    Report,
    Restore { poisoned: bool, advanced: bool },
    Release,
    Return(EndingModel),
}

/// What the driver is to do next, as plain data.
pub open spec fn action_model(action: Action) -> ActionModel {
    match action {
        Action::Push(scope) => ActionModel::Push(scope),
        Action::Resolve => ActionModel::Resolve,
        Action::Encode => ActionModel::Encode,
        Action::Store => ActionModel::Store,
        Action::AwaitQueue => ActionModel::AwaitQueue,
        Action::MapReadback(readback) => ActionModel::MapReadback(readback),
        Action::ReadGeneration => ActionModel::ReadGeneration,
        Action::Read(readback) => ActionModel::Read(readback),
        Action::Unmap(readback) => ActionModel::Unmap(readback),
        Action::UnmapQuietly(readback) => ActionModel::UnmapQuietly(readback),
        Action::Accept => ActionModel::Accept,
        Action::WaitIdle => ActionModel::WaitIdle,
        Action::Pop(scope) => ActionModel::Pop(scope),
        Action::PoisonStored => ActionModel::PoisonStored,
        Action::MarkReady => ActionModel::MarkReady,
        Action::Report => ActionModel::Report,
        Action::Restore { poisoned, advanced } => ActionModel::Restore { poisoned, advanced },
        Action::Release => ActionModel::Release,
        Action::Return(ending) => ActionModel::Return(crate::text::said_text(ending)),
    }
}

/// Which action the driver is performing.
#[derive(Clone, Copy, Debug, PartialEq, Eq, Structural)]
pub enum Phase {
    Pushing,
    Resolving,
    Encoding,
    Storing,
    Awaiting,
    Mapping,
    Fencing,
    Reading,
    Unmapping,
    Quieting,
    Accepting,
    Checking,
    Waiting,
    Popping,
    Confirming,
    Readying,
    Reporting,
    Closing,
    Returned,
}

/// Why the scopes are drained.
#[derive(Debug)]
pub enum Cause {
    Success,
    Failure(String),
    Stale,
}

/// Why the scopes are drained, as plain data.
pub enum CauseModel {
    Success,
    Failure(Seq<char>),
    Stale,
}

/// An operation under way.
#[derive(Debug)]
pub struct Run {
    pub family: Family,
    pub operation: Operation,
    pub phase: Phase,
    /// The scopes that are pushed, the innermost last.
    pub ledger: Vec<ScopeKind>,
    pub captures: Vec<String>,
    pub failures: Vec<String>,
    pub cause: Cause,
    /// Whether the operation has a generation that can be superseded.
    pub held: bool,
    /// The readback that is at hand.
    pub readback: usize,
    pub ending: Ending,
}

/// An operation under way, as plain data.
#[verifier::ext_equal]
pub struct RunModel {
    pub family: Family,
    pub operation: Operation,
    pub phase: Phase,
    pub ledger: Seq<ScopeKind>,
    pub captures: Seq<Seq<char>>,
    pub failures: Seq<Seq<char>>,
    pub cause: CauseModel,
    pub held: bool,
    pub readback: usize,
    pub ending: EndingModel,
}

/// Why the scopes are drained, as plain data.
pub open spec fn cause_model(cause: Cause) -> CauseModel {
    match cause {
        Cause::Success => CauseModel::Success,
        Cause::Failure(message) => CauseModel::Failure(message@),
        Cause::Stale => CauseModel::Stale,
    }
}

/// An operation under way, as plain data.
pub open spec fn run_model(run: Run) -> RunModel {
    RunModel {
        family: run.family,
        operation: run.operation,
        phase: run.phase,
        ledger: run.ledger@,
        captures: crate::text::texts(run.captures@),
        failures: crate::text::texts(run.failures@),
        cause: cause_model(run.cause),
        held: run.held,
        readback: run.readback,
        ending: crate::text::said_text(run.ending),
    }
}

/// The scopes of an operation, in the order in which they are pushed.
pub open spec fn checked_scopes() -> Seq<ScopeKind> {
    seq![ScopeKind::Internal, ScopeKind::OutOfMemory, ScopeKind::Validation]
}

/// How messages name an operation.
pub open spec fn operation_word(operation: Operation) -> Seq<char> {
    match operation {
        Operation::Begin => "begin"@,
        Operation::Step => "step"@,
        Operation::Prefill => "prefill"@,
        Operation::Logits => "logits"@,
        Operation::Top1 => "GPU top-1"@,
        Operation::Finish => "finish"@,
    }
}

/// The message about an operation whose generation was cancelled.
pub open spec fn stale_message(family: Family, operation: Operation) -> Seq<char> {
    crate::family::noun(family) + " session "@ + operation_word(operation)
        + " is stale: its generation was cancelled"@
}

/// The message about a session that cannot be stored.
pub open spec fn active_message(family: Family) -> Seq<char> {
    crate::family::noun(family) + " session is already active"@
}

/// The readbacks of an operation: a finish of a layer or a stack reads both caches apart.
pub open spec fn readbacks(family: Family, operation: Operation) -> usize {
    if operation == Operation::Finish && family != Family::Kv {
        2
    } else {
        1
    }
}

/// The message of an event that says that something failed.
pub open spec fn failure_of(event: EventModel) -> Option<Seq<char>> {
    match event {
        EventModel::Failed(message) => Some(message),
        EventModel::Captured(message) => Some(message),
        _ => None,
    }
}

/// The diagnostics that an event carries.
pub open spec fn report_of(event: EventModel) -> Seq<char> {
    match event {
        EventModel::Reported(text) => text,
        _ => Seq::empty(),
    }
}

/// Whether anything came out of the scopes.
pub open spec fn captured_anything(run: RunModel) -> bool {
    run.captures.len() > 0 || run.failures.len() > 0
}

/// A run in another phase.
pub open spec fn at(run: RunModel, phase: Phase) -> RunModel {
    RunModel { phase, ..run }
}

/// Returns with an ending.
pub open spec fn returning(run: RunModel, ending: EndingModel) -> (RunModel, ActionModel) {
    (RunModel { phase: Phase::Returned, ending, ..run }, ActionModel::Return(ending))
}

/// Does one last thing, then returns with an ending.
pub open spec fn closing(
    run: RunModel,
    action: ActionModel,
    ending: EndingModel,
) -> (RunModel, ActionModel) {
    (RunModel { phase: Phase::Closing, ending, ..run }, action)
}

/// Pops the innermost scope.
pub open spec fn popping(run: RunModel) -> (RunModel, ActionModel) {
    (
        RunModel { phase: Phase::Popping, ledger: run.ledger.drop_last(), ..run },
        ActionModel::Pop(run.ledger.last()),
    )
}

/// What follows once all scopes are drained.
pub open spec fn drained(run: RunModel) -> (RunModel, ActionModel) {
    match run.cause {
        CauseModel::Failure(error) => {
            let ending = Err(
                crate::failure::drained_message(error, run.captures, run.failures),
            );
            if run.operation == Operation::Begin {
                returning(run, ending)
            } else {
                closing(run, ActionModel::Restore { poisoned: true, advanced: false }, ending)
            }
        },
        CauseModel::Stale => closing(
            run,
            ActionModel::Release,
            Err(stale_message(run.family, run.operation)),
        ),
        CauseModel::Success => if run.operation == Operation::Begin {
            (at(run, Phase::Confirming), ActionModel::ReadGeneration)
        } else if captured_anything(run) {
            closing(
                run,
                ActionModel::Restore { poisoned: true, advanced: true },
                Err(crate::failure::captured_message(run.family, run.captures, run.failures)),
            )
        } else {
            (at(run, Phase::Reporting), ActionModel::Report)
        },
    }
}

/// The next step of draining the scopes. A generation is looked at before every pop.
pub open spec fn draining(run: RunModel) -> (RunModel, ActionModel) {
    if run.ledger.len() == 0 {
        drained(run)
    } else if run.held {
        (at(run, Phase::Checking), ActionModel::ReadGeneration)
    } else {
        popping(run)
    }
}

/// Starts draining the scopes for a cause.
pub open spec fn draining_for(run: RunModel, cause: CauseModel) -> (RunModel, ActionModel) {
    draining(RunModel { cause, ..run })
}

/// Unmaps the readback at hand, then drains the scopes for a cause.
pub open spec fn quieting(run: RunModel, cause: CauseModel) -> (RunModel, ActionModel) {
    (
        RunModel { phase: Phase::Quieting, cause, ..run },
        ActionModel::UnmapQuietly(run.readback),
    )
}

/// Pushes the next scope. It is on the ledger from then on, whatever comes of the push.
pub open spec fn pushing(run: RunModel) -> (RunModel, ActionModel) {
    let scope = checked_scopes()[run.ledger.len() as int];
    (
        RunModel { phase: Phase::Pushing, ledger: run.ledger.push(scope), ..run },
        ActionModel::Push(scope),
    )
}

/// What follows once a readback is unmapped.
pub open spec fn unmapped(run: RunModel) -> (RunModel, ActionModel) {
    if run.readback + 1 < readbacks(run.family, run.operation) {
        (
            RunModel { phase: Phase::Mapping, readback: (run.readback + 1) as usize, ..run },
            ActionModel::MapReadback((run.readback + 1) as usize),
        )
    } else {
        (at(run, Phase::Accepting), ActionModel::Accept)
    }
}

/// A run with what a pop gave up.
pub open spec fn recorded(run: RunModel, event: EventModel) -> RunModel {
    match event {
        EventModel::Captured(message) => RunModel { captures: run.captures.push(message), ..run },
        EventModel::Failed(message) => RunModel { failures: run.failures.push(message), ..run },
        _ => run,
    }
}

/// What follows once a begun session is stored and its scopes are drained.
pub open spec fn confirmed(run: RunModel, event: EventModel) -> (RunModel, ActionModel) {
    if event is Superseded {
        returning(run, Err(stale_message(run.family, run.operation)))
    } else if captured_anything(run) {
        closing(
            run,
            ActionModel::PoisonStored,
            Err(crate::failure::captured_message(run.family, run.captures, run.failures)),
        )
    } else {
        (at(run, Phase::Readying), ActionModel::MarkReady)
    }
}

/// What follows once the diagnostics are composed, or cannot be.
pub open spec fn reported(run: RunModel, event: EventModel) -> (RunModel, ActionModel) {
    match failure_of(event) {
        Some(message) => if run.operation == Operation::Begin {
            closing(run, ActionModel::PoisonStored, Err(message))
        } else {
            closing(run, ActionModel::Restore { poisoned: true, advanced: true }, Err(message))
        },
        None => if run.operation == Operation::Begin {
            returning(run, Ok(report_of(event)))
        } else if run.operation == Operation::Finish {
            closing(run, ActionModel::Release, Ok(report_of(event)))
        } else {
            closing(
                run,
                ActionModel::Restore { poisoned: false, advanced: true },
                Ok(report_of(event)),
            )
        },
    }
}

/// What an operation does next, after an event.
pub open spec fn next(run: RunModel, event: EventModel) -> (RunModel, ActionModel) {
    match run.phase {
        Phase::Pushing => match failure_of(event) {
            Some(message) => draining_for(run, CauseModel::Failure(message)),
            None => if run.ledger.len() < 3 {
                pushing(run)
            } else {
                (at(run, Phase::Resolving), ActionModel::Resolve)
            },
        },
        Phase::Resolving => match failure_of(event) {
            Some(message) => draining_for(run, CauseModel::Failure(message)),
            None => (at(run, Phase::Encoding), ActionModel::Encode),
        },
        Phase::Encoding => match failure_of(event) {
            Some(message) => draining_for(run, CauseModel::Failure(message)),
            None => if run.operation == Operation::Begin {
                (at(run, Phase::Storing), ActionModel::Store)
            } else {
                (at(run, Phase::Awaiting), ActionModel::AwaitQueue)
            },
        },
        Phase::Storing => match failure_of(event) {
            Some(_) => draining_for(run, CauseModel::Failure(active_message(run.family))),
            None => draining_for(RunModel { held: true, ..run }, CauseModel::Success),
        },
        Phase::Awaiting => match failure_of(event) {
            Some(message) => draining_for(run, CauseModel::Failure(message)),
            None => (at(run, Phase::Mapping), ActionModel::MapReadback(run.readback)),
        },
        Phase::Mapping => match failure_of(event) {
            Some(message) => quieting(run, CauseModel::Failure(message)),
            None => if run.readback == 0 {
                (at(run, Phase::Fencing), ActionModel::ReadGeneration)
            } else {
                (at(run, Phase::Reading), ActionModel::Read(run.readback))
            },
        },
        Phase::Fencing => if event is Superseded {
            quieting(run, CauseModel::Stale)
        } else {
            (at(run, Phase::Reading), ActionModel::Read(run.readback))
        },
        Phase::Reading => match failure_of(event) {
            Some(message) => quieting(run, CauseModel::Failure(message)),
            None => (at(run, Phase::Unmapping), ActionModel::Unmap(run.readback)),
        },
        Phase::Unmapping => match failure_of(event) {
            Some(message) => draining_for(run, CauseModel::Failure(message)),
            None => unmapped(run),
        },
        Phase::Accepting => match failure_of(event) {
            Some(message) => draining_for(run, CauseModel::Failure(message)),
            None => draining_for(run, CauseModel::Success),
        },
        Phase::Quieting => draining(run),
        Phase::Checking => if event is Superseded {
            (at(run, Phase::Waiting), ActionModel::WaitIdle)
        } else {
            popping(run)
        },
        Phase::Waiting => popping(run),
        Phase::Popping => draining(recorded(run, event)),
        Phase::Confirming => confirmed(run, event),
        Phase::Readying => (at(run, Phase::Reporting), ActionModel::Report),
        Phase::Reporting => reported(run, event),
        Phase::Closing => returning(run, run.ending),
        Phase::Returned => returning(run, run.ending),
    }
}

/// A run before its first action.
pub open spec fn fresh(family: Family, operation: Operation) -> RunModel {
    RunModel {
        family,
        operation,
        phase: Phase::Pushing,
        ledger: Seq::empty(),
        captures: Seq::empty(),
        failures: Seq::empty(),
        cause: CauseModel::Success,
        held: operation != Operation::Begin,
        readback: 0,
        ending: Ok(Seq::empty()),
    }
}

/// How an operation starts. One whose inputs were refused asks for nothing but that its leased
/// session is given back as it was, and returns with the refusal; a begin leased none.
pub open spec fn started(
    family: Family,
    operation: Operation,
    refusal: Option<Seq<char>>,
) -> (RunModel, ActionModel) {
    let run = fresh(family, operation);
    match refusal {
        None => pushing(run),
        Some(message) => if operation == Operation::Begin {
            returning(run, Err(message))
        } else {
            closing(run, ActionModel::Restore { poisoned: false, advanced: false }, Err(message))
        },
    }
}

/// Whether the ledger of a run can be what its phase says.
pub open spec fn well_formed(run: RunModel) -> bool {
    &&& run.ledger == checked_scopes().subrange(0, run.ledger.len() as int)
    &&& run.ledger.len() <= 3
    &&& run.readback < 2
    &&& (run.phase is Pushing ==> run.ledger.len() >= 1)
    &&& (run.phase is Checking || run.phase is Waiting ==> run.ledger.len() >= 1)
}

impl Run {
    /// Whether the ledger of a run can be what its phase says.
    pub open spec fn wf(self) -> bool {
        well_formed(run_model(self))
    }

    /// Starts an operation with its first action, whether its inputs were admitted or refused.
    pub fn start(family: Family, operation: Operation, admitted: Result<(), String>) -> (first: (
        Run,
        Action,
    ))
        ensures
            (run_model(first.0), action_model(first.1)) == started(
                family,
                operation,
                crate::text::complaint(admitted),
            ),
            first.0.wf(),
    {
        let held: bool = match operation {
            Operation::Begin => false,
            _ => true,
        };
        let run: Run = Run {
            family,
            operation,
            phase: Phase::Pushing,
            ledger: Vec::new(),
            captures: Vec::new(),
            failures: Vec::new(),
            cause: Cause::Success,
            held,
            readback: 0,
            ending: Ok(String::new()),
        };
        proof {
            let model = run_model(run);
            let scopes = checked_scopes();
            assert(model.ledger =~= Seq::<ScopeKind>::empty());
            assert(model.captures =~= Seq::<Seq<char>>::empty());
            assert(model.failures =~= Seq::<Seq<char>>::empty());
            assert(model.ending->Ok_0 =~= Seq::<char>::empty());
            assert(model =~= fresh(family, operation));
            assert(model.ledger =~= scopes.subrange(0, 0));
            assert(model.ledger.push(scopes[0]) =~= scopes.subrange(0, 1));
        }
        match admitted {
            Ok(()) => run.push(),
            Err(message) => if run.is_begin() {
                run.end(Err(message))
            } else {
                run.close(Action::Restore { poisoned: false, advanced: false }, Err(message))
            },
        }
    }

    fn go(self, phase: Phase, action: Action) -> (following: (Run, Action))
        ensures
            run_model(following.0) == at(run_model(self), phase),
            following.1 == action,
    {
        let mut run: Run = self;
        run.phase = phase;
        (run, action)
    }

    fn end(self, ending: Ending) -> (following: (Run, Action))
        ensures
            (run_model(following.0), action_model(following.1)) == returning(
                run_model(self),
                crate::text::said_text(ending),
            ),
    {
        let mut run: Run = self;
        run.phase = Phase::Returned;
        let copy: Ending = match &ending {
            Ok(text) => Ok(text.clone()),
            Err(message) => Err(message.clone()),
        };
        run.ending = copy;
        (run, Action::Return(ending))
    }

    fn close(self, action: Action, ending: Ending) -> (following: (Run, Action))
        ensures
            (run_model(following.0), action_model(following.1)) == closing(
                run_model(self),
                action_model(action),
                crate::text::said_text(ending),
            ),
    {
        let mut run: Run = self;
        run.phase = Phase::Closing;
        run.ending = ending;
        (run, action)
    }

    fn pop(self) -> (following: (Run, Action))
        requires
            self.ledger.len() >= 1,
        ensures
            (run_model(following.0), action_model(following.1)) == popping(run_model(self)),
    {
        let mut run: Run = self;
        let last: usize = run.ledger.len() - 1;
        let scope: ScopeKind = run.ledger[last];
        run.ledger.truncate(last);
        run.phase = Phase::Popping;
        assert(run.ledger@ =~= self.ledger@.drop_last());
        (run, Action::Pop(scope))
    }

    fn stale(&self) -> (message: String)
        ensures
            message@ == stale_message(self.family, self.operation),
    {
        let word: &str = match self.operation {
            Operation::Begin => "begin",
            Operation::Step => "step",
            Operation::Prefill => "prefill",
            Operation::Logits => "logits",
            Operation::Top1 => "GPU top-1",
            Operation::Finish => "finish",
        };
        join4(
            family_noun(self.family),
            " session ",
            word,
            " is stale: its generation was cancelled",
        )
    }

    fn is_begin(&self) -> (begin: bool)
        ensures
            begin == (self.operation == Operation::Begin),
    {
        match self.operation {
            Operation::Begin => true,
            _ => false,
        }
    }

    fn drained(self) -> (following: (Run, Action))
        ensures
            (run_model(following.0), action_model(following.1)) == drained(run_model(self)),
    {
        let begin: bool = self.is_begin();
        let captured: bool = self.captures.len() > 0 || self.failures.len() > 0;
        match &self.cause {
            Cause::Failure(error) => {
                let message: String = drain_appended_message(
                    error.clone(),
                    &self.captures,
                    &self.failures,
                );
                if begin {
                    self.end(Err(message))
                } else {
                    self.close(
                        Action::Restore { poisoned: true, advanced: false },
                        Err(message),
                    )
                }
            },
            Cause::Stale => {
                let message: String = self.stale();
                self.close(Action::Release, Err(message))
            },
            Cause::Success => if begin {
                self.go(Phase::Confirming, Action::ReadGeneration)
            } else if captured {
                let message: String = captured_failure_message(
                    self.family,
                    &self.captures,
                    &self.failures,
                );
                self.close(Action::Restore { poisoned: true, advanced: true }, Err(message))
            } else {
                self.go(Phase::Reporting, Action::Report)
            },
        }
    }

    fn drain(self) -> (following: (Run, Action))
        ensures
            (run_model(following.0), action_model(following.1)) == draining(run_model(self)),
    {
        if self.ledger.len() == 0 {
            self.drained()
        } else if self.held {
            self.go(Phase::Checking, Action::ReadGeneration)
        } else {
            self.pop()
        }
    }

    fn drain_for(self, cause: Cause) -> (following: (Run, Action))
        ensures
            (run_model(following.0), action_model(following.1)) == draining_for(
                run_model(self),
                cause_model(cause),
            ),
    {
        let mut run: Run = self;
        run.cause = cause;
        run.drain()
    }

    fn quiet(self, cause: Cause) -> (following: (Run, Action))
        ensures
            (run_model(following.0), action_model(following.1)) == quieting(
                run_model(self),
                cause_model(cause),
            ),
    {
        let mut run: Run = self;
        run.cause = cause;
        run.phase = Phase::Quieting;
        let readback: usize = run.readback;
        (run, Action::UnmapQuietly(readback))
    }

    fn push(self) -> (following: (Run, Action))
        requires
            self.ledger.len() < 3,
        ensures
            (run_model(following.0), action_model(following.1)) == pushing(run_model(self)),
    {
        let scope: ScopeKind = if self.ledger.len() == 0 {
            ScopeKind::Internal
        } else if self.ledger.len() == 1 {
            ScopeKind::OutOfMemory
        } else {
            ScopeKind::Validation
        };
        let mut run: Run = self;
        run.ledger.push(scope);
        run.phase = Phase::Pushing;
        (run, Action::Push(scope))
    }

    fn unmap_done(self) -> (following: (Run, Action))
        requires
            self.readback < 2,
        ensures
            (run_model(following.0), action_model(following.1)) == unmapped(run_model(self)),
    {
        let apart: bool = match self.family {
            Family::Kv => false,
            _ => true,
        };
        let finish: bool = match self.operation {
            Operation::Finish => true,
            _ => false,
        };
        let count: usize = if finish && apart {
            2
        } else {
            1
        };
        if self.readback + 1 < count {
            let mut run: Run = self;
            run.readback = run.readback + 1;
            run.phase = Phase::Mapping;
            let readback: usize = run.readback;
            (run, Action::MapReadback(readback))
        } else {
            self.go(Phase::Accepting, Action::Accept)
        }
    }

    fn record(self, event: Event) -> (run: Run)
        ensures
            run_model(run) == recorded(run_model(self), event_model(event)),
    {
        let mut run: Run = self;
        match event {
            Event::Captured(message) => {
                run.captures.push(message);
                assert(crate::text::texts(run.captures@) =~= crate::text::texts(
                    self.captures@,
                ).push(message@));
            },
            Event::Failed(message) => {
                run.failures.push(message);
                assert(crate::text::texts(run.failures@) =~= crate::text::texts(
                    self.failures@,
                ).push(message@));
            },
            _ => {},
        }
        run
    }

    fn confirm(self, event: Event) -> (following: (Run, Action))
        ensures
            (run_model(following.0), action_model(following.1)) == confirmed(
                run_model(self),
                event_model(event),
            ),
    {
        if let Event::Superseded = event {
            let message: String = self.stale();
            return self.end(Err(message));
        }
        if self.captures.len() > 0 || self.failures.len() > 0 {
            let message: String = captured_failure_message(
                self.family,
                &self.captures,
                &self.failures,
            );
            self.close(Action::PoisonStored, Err(message))
        } else {
            self.go(Phase::Readying, Action::MarkReady)
        }
    }

    fn report(self, event: Event) -> (following: (Run, Action))
        ensures
            (run_model(following.0), action_model(following.1)) == reported(
                run_model(self),
                event_model(event),
            ),
    {
        let begin: bool = self.is_begin();
        match event {
            Event::Failed(message) | Event::Captured(message) => if begin {
                self.close(Action::PoisonStored, Err(message))
            } else {
                self.close(Action::Restore { poisoned: true, advanced: true }, Err(message))
            },
            Event::Reported(text) => self.succeed(text),
            _ => {
                let empty: String = String::new();
                assert(empty@ =~= Seq::<char>::empty());
                self.succeed(empty)
            },
        }
    }

    fn succeed(self, text: String) -> (following: (Run, Action))
        ensures
            (run_model(following.0), action_model(following.1)) == reported(
                run_model(self),
                EventModel::Reported(text@),
            ),
    {
        match self.operation {
            Operation::Begin => self.end(Ok(text)),
            Operation::Finish => self.close(Action::Release, Ok(text)),
            _ => self.close(Action::Restore { poisoned: false, advanced: true }, Ok(text)),
        }
    }

    fn conclude(self) -> (following: (Run, Action))
        ensures
            (run_model(following.0), action_model(following.1)) == returning(
                run_model(self),
                run_model(self).ending,
            ),
    {
        let ending: Ending = match &self.ending {
            Ok(text) => Ok(text.clone()),
            Err(message) => Err(message.clone()),
        };
        self.end(ending)
    }

    /// What an operation does next, after an event.
    pub fn advance(self, event: Event) -> (following: (Run, Action))
        requires
            self.wf(),
        ensures
            (run_model(following.0), action_model(following.1)) == next(
                run_model(self),
                event_model(event),
            ),
            following.0.wf(),
    {
        proof {
            lemma_next_keeps_form(run_model(self), event_model(event));
        }
        let superseded: bool = match &event {
            Event::Superseded => true,
            _ => false,
        };
        match self.phase {
            Phase::Quieting => {
                return self.drain();
            },
            Phase::Checking => {
                return if superseded {
                    self.go(Phase::Waiting, Action::WaitIdle)
                } else {
                    self.pop()
                };
            },
            Phase::Waiting => {
                return self.pop();
            },
            Phase::Popping => {
                return self.record(event).drain();
            },
            Phase::Confirming => {
                return self.confirm(event);
            },
            Phase::Readying => {
                return self.go(Phase::Reporting, Action::Report);
            },
            Phase::Reporting => {
                return self.report(event);
            },
            Phase::Closing | Phase::Returned => {
                return self.conclude();
            },
            Phase::Fencing => {
                let readback: usize = self.readback;
                return if superseded {
                    self.quiet(Cause::Stale)
                } else {
                    self.go(Phase::Reading, Action::Read(readback))
                };
            },
            _ => {},
        }
        match event {
            Event::Failed(message) | Event::Captured(message) => match self.phase {
                Phase::Storing => {
                    let active: String = join2(
                        family_noun(self.family),
                        " session is already active",
                    );
                    self.drain_for(Cause::Failure(active))
                },
                Phase::Mapping | Phase::Reading => self.quiet(Cause::Failure(message)),
                _ => self.drain_for(Cause::Failure(message)),
            },
            _ => self.proceed(),
        }
    }

    fn proceed(self) -> (following: (Run, Action))
        requires
            self.wf(),
            self.phase is Pushing || self.phase is Resolving || self.phase is Encoding
                || self.phase is Storing || self.phase is Awaiting || self.phase is Mapping
                || self.phase is Reading || self.phase is Unmapping || self.phase is Accepting,
        ensures
            (run_model(following.0), action_model(following.1)) == next(
                run_model(self),
                EventModel::Done,
            ),
    {
        let readback: usize = self.readback;
        match self.phase {
            Phase::Pushing => if self.ledger.len() < 3 {
                self.push()
            } else {
                self.go(Phase::Resolving, Action::Resolve)
            },
            Phase::Resolving => self.go(Phase::Encoding, Action::Encode),
            Phase::Encoding => if self.is_begin() {
                self.go(Phase::Storing, Action::Store)
            } else {
                self.go(Phase::Awaiting, Action::AwaitQueue)
            },
            Phase::Storing => {
                let mut run: Run = self;
                run.held = true;
                run.drain_for(Cause::Success)
            },
            Phase::Awaiting => self.go(Phase::Mapping, Action::MapReadback(readback)),
            Phase::Mapping => if readback == 0 {
                self.go(Phase::Fencing, Action::ReadGeneration)
            } else {
                self.go(Phase::Reading, Action::Read(readback))
            },
            Phase::Reading => self.go(Phase::Unmapping, Action::Unmap(readback)),
            Phase::Unmapping => self.unmap_done(),
            _ => self.drain_for(Cause::Success),
        }
    }
}

proof fn lemma_next_keeps_form(run: RunModel, event: EventModel)
    requires
        well_formed(run),
    ensures
        well_formed(next(run, event).0),
{
    let following = next(run, event).0;
    let scopes = checked_scopes();
    if run.ledger.len() >= 1 {
        assert(run.ledger.drop_last() =~= scopes.subrange(0, run.ledger.len() - 1));
    }
    if run.ledger.len() < 3 {
        assert(run.ledger.push(scopes[run.ledger.len() as int]) =~= scopes.subrange(
            0,
            run.ledger.len() as int + 1,
        ));
    }
}

} // verus!
