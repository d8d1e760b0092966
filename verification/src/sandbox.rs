//! The life cycle of one sandboxed run.
//!
//! The caller owns the isolated context and the process in it. It performs
//! one [`Action`] at a time and reports what came of it as an [`Event`];
//! [`step`] decides what to do next. Every path ends in a teardown of the
//! context, and only then is the result of the run handed out.

use crate::status::{ExecError, ExecutionResult, ExecutionResultView, ExitStatus};
use vstd::prelude::*;

verus! {

/// The stage that a run is in.
#[derive(Clone, Copy, Debug, PartialEq, Eq, Structural)]
pub enum Phase {
    /// The context is being set up; no process runs yet.
    Created,
    /// The process runs inside the context.
    Running,
    /// The process ended within its time; the context is still to be released.
    Completed,
    /// The process was cut off; the context is still to be released.
    TimedOut,
    /// The run could not be set up or driven; the context is still to be released.
    SetupFailed,
    /// The context is released. Nothing follows.
    TornDown,
}

/// What the caller reports after it has performed an action.
#[derive(Debug)]
pub enum Event {
    /// The isolated context exists.
    Created,
    /// The isolated context could not be created.
    CreateFailed,
    /// The process runs, with its input and output connected to pipes.
    Started,
    /// The process could not be started.
    StartFailed,
    /// The whole input was written and the pipe closed.
    Fed,
    /// Writing the input failed, for instance because the process had gone.
    FeedFailed,
    /// The process ended within its time, with this status and this output.
    Exited(ExitStatus, Vec<u8>),
    /// The time ran out while the process was still running.
    DeadlineExceeded,
    /// The process was ended by force; this is its status and the output
    /// captured until then.
    Killed(ExitStatus, Vec<u8>),
    /// Waiting for the process, or ending it, failed.
    WaitFailed,
    /// The isolated context is released.
    Released,
}

/// What the caller has to do next.
#[derive(Debug)]
pub enum Action {
    /// Create the isolated context for the request.
    Create,
    /// Start the process in the context, connected to pipes.
    Start,
    /// Write the input to the process and close the pipe.
    Feed,
    /// Wait for the process to end, for at most the time allowed.
    Wait,
    /// End the process by force and collect what it wrote.
    Kill,
    /// Release everything that the context holds.
    Teardown,
    /// The run is over: hand this out.
    Return(Result<ExecutionResult, ExecError>),
    /// The run was over before: there is nothing to do.
    Halt,
}

/// Where a run stands, with what it has produced so far.
#[derive(Debug)]
pub enum RunState {
    /// The context is being created.
    Creating,
    /// The context exists and the process is being started.
    Starting,
    /// The process runs and is being fed its input.
    Feeding,
    /// The process runs and is being waited for.
    Waiting,
    /// The time ran out and the process is being ended by force.
    Killing,
    /// The process ended in time; the context is being released.
    Completed(ExecutionResult),
    /// The process was cut off; the context is being released.
    TimedOut(ExecutionResult),
    /// The run failed; the context is being released.
    Failed(ExecError),
    /// The context is released.
    TornDown,
}

/// The mathematical value of an [`Event`].
pub enum EventView {
    Created,
    CreateFailed,
    Started,
    StartFailed,
    Fed,
    FeedFailed,
    Exited(ExitStatus, Seq<u8>),
    DeadlineExceeded,
    Killed(ExitStatus, Seq<u8>),
    WaitFailed,
    Released,
}

/// The mathematical value of an [`Action`].
pub enum ActionView {
    Create,
    Start,
    Feed,
    Wait,
    Kill,
    Teardown,
    Return(Result<ExecutionResultView, ExecError>),
    Halt,
}

/// The mathematical value of a [`RunState`].
pub enum RunStateView {
    Creating,
    Starting,
    Feeding,
    Waiting,
    Killing,
    Completed(ExecutionResultView),
    TimedOut(ExecutionResultView),
    Failed(ExecError),
    TornDown,
}

impl View for Event {
    type V = EventView;

    open spec fn view(&self) -> EventView {
        match *self {
            Event::Created => EventView::Created,
            Event::CreateFailed => EventView::CreateFailed,
            Event::Started => EventView::Started,
            Event::StartFailed => EventView::StartFailed,
            Event::Fed => EventView::Fed,
            Event::FeedFailed => EventView::FeedFailed,
            Event::Exited(status, output) => EventView::Exited(status, output@),
            Event::DeadlineExceeded => EventView::DeadlineExceeded,
            Event::Killed(status, output) => EventView::Killed(status, output@),
            Event::WaitFailed => EventView::WaitFailed,
            Event::Released => EventView::Released,
        }
    }
}

impl View for Action {
    type V = ActionView;

    open spec fn view(&self) -> ActionView {
        match *self {
            Action::Create => ActionView::Create,
            Action::Start => ActionView::Start,
            Action::Feed => ActionView::Feed,
            Action::Wait => ActionView::Wait,
            Action::Kill => ActionView::Kill,
            Action::Teardown => ActionView::Teardown,
            Action::Return(Ok(result)) => ActionView::Return(Ok(result@)),
            Action::Return(Err(error)) => ActionView::Return(Err(error)),
            Action::Halt => ActionView::Halt,
        }
    }
}

impl View for RunState {
    type V = RunStateView;

    open spec fn view(&self) -> RunStateView {
        match *self {
            RunState::Creating => RunStateView::Creating,
            RunState::Starting => RunStateView::Starting,
            RunState::Feeding => RunStateView::Feeding,
            RunState::Waiting => RunStateView::Waiting,
            RunState::Killing => RunStateView::Killing,
            RunState::Completed(result) => RunStateView::Completed(result@),
            RunState::TimedOut(result) => RunStateView::TimedOut(result@),
            RunState::Failed(error) => RunStateView::Failed(error),
            RunState::TornDown => RunStateView::TornDown,
        }
    }
}

impl RunStateView {
    /// The stage that the state belongs to.
    pub open spec fn phase(self) -> Phase {
        match self {
            RunStateView::Creating | RunStateView::Starting => Phase::Created,
            RunStateView::Feeding | RunStateView::Waiting | RunStateView::Killing => Phase::Running,
            RunStateView::Completed(_) => Phase::Completed,
            RunStateView::TimedOut(_) => Phase::TimedOut,
            RunStateView::Failed(_) => Phase::SetupFailed,
            RunStateView::TornDown => Phase::TornDown,
        }
    }

    /// The outcome is known and the context is being released.
    pub open spec fn releasing(self) -> bool {
        self is Completed || self is TimedOut || self is Failed
    }

    /// The number of steps that a run in this state can still take, at most.
    pub open spec fn steps_left(self) -> nat {
        match self {
            RunStateView::Creating => 7,
            RunStateView::Starting => 6,
            RunStateView::Feeding => 5,
            RunStateView::Waiting => 4,
            RunStateView::Killing => 3,
            RunStateView::Completed(_) => 2,
            RunStateView::TimedOut(_) => 2,
            RunStateView::Failed(_) => 2,
            RunStateView::TornDown => 0,
        }
    }
}

/// The state in which teardown is awaited after a failure, with the action
/// that starts it.
pub open spec fn fail(error: ExecError) -> (RunStateView, ActionView) {
    (RunStateView::Failed(error), ActionView::Teardown)
}

/// The rule of the life cycle: the state and the action that follow when
/// `event` is reported in `state`.
///
/// - The context is created, then the process started; a failure of either
///   is a setup failure.
/// - The input is written; a failure to write is tolerated and the run goes
///   on.
/// - The process is waited for. If it ends in time, its status and output are
///   the result. If the time runs out, it is ended by force, and its status
///   and the output captured until then are the result, marked as timed out.
/// - An event that the state does not expect, or a failure to wait, fails the
///   run.
/// - Whatever happened, the context is torn down next, and the result is handed
///   out when that is done. After that nothing happens.
pub open spec fn step_spec(state: RunStateView, event: EventView) -> (RunStateView, ActionView) {
    match state {
        RunStateView::Creating => match event {
            EventView::Created => (RunStateView::Starting, ActionView::Start),
            _ => fail(ExecError::SandboxSetup),
        },
        RunStateView::Starting => match event {
            EventView::Started => (RunStateView::Feeding, ActionView::Feed),
            _ => fail(ExecError::SandboxSetup),
        },
        RunStateView::Feeding => match event {
            EventView::Fed | EventView::FeedFailed => (RunStateView::Waiting, ActionView::Wait),
            _ => fail(ExecError::IoDelivery),
        },
        RunStateView::Waiting => match event {
            EventView::Exited(status, output) => (
                RunStateView::Completed(
                    ExecutionResultView { exit_status: status, output: output, timed_out: false },
                ),
                ActionView::Teardown,
            ),
            EventView::DeadlineExceeded => (RunStateView::Killing, ActionView::Kill),
            _ => fail(ExecError::IoDelivery),
        },
        RunStateView::Killing => match event {
            EventView::Killed(status, output) => (
                RunStateView::TimedOut(
                    ExecutionResultView { exit_status: status, output: output, timed_out: true },
                ),
                ActionView::Teardown,
            ),
            _ => fail(ExecError::IoDelivery),
        },
        RunStateView::Completed(result) => (RunStateView::TornDown, ActionView::Return(Ok(result))),
        RunStateView::TimedOut(result) => (RunStateView::TornDown, ActionView::Return(Ok(result))),
        RunStateView::Failed(error) => (RunStateView::TornDown, ActionView::Return(Err(error))),
        RunStateView::TornDown => (RunStateView::TornDown, ActionView::Halt),
    }
}

/// Opens a run: the state it starts in and the first thing to do.
pub fn begin() -> (first: (RunState, Action))
    ensures
        first.0@ == RunStateView::Creating,
        first.1@ == ActionView::Create,
{
    (RunState::Creating, Action::Create)
}

fn failed(error: ExecError) -> (next: (RunState, Action))
    ensures
        (next.0@, next.1@) == fail(error),
{
    (RunState::Failed(error), Action::Teardown)
}

/// Takes `event` in and says what follows, as [`step_spec`] has it.
pub fn step(state: RunState, event: Event) -> (next: (RunState, Action))
    ensures
        (next.0@, next.1@) == step_spec(state@, event@),
{
    match state {
        RunState::Creating => match event {
            Event::Created => (RunState::Starting, Action::Start),
            _ => failed(ExecError::SandboxSetup),
        },
        RunState::Starting => match event {
            Event::Started => (RunState::Feeding, Action::Feed),
            _ => failed(ExecError::SandboxSetup),
        },
        RunState::Feeding => match event {
            Event::Fed => (RunState::Waiting, Action::Wait),
            Event::FeedFailed => (RunState::Waiting, Action::Wait),
            _ => failed(ExecError::IoDelivery),
        },
        RunState::Waiting => match event {
            Event::Exited(status, output) => (
                RunState::Completed(
                    ExecutionResult { exit_status: status, output: output, timed_out: false },
                ),
                Action::Teardown,
            ),
            Event::DeadlineExceeded => (RunState::Killing, Action::Kill),
            _ => failed(ExecError::IoDelivery),
        },
        RunState::Killing => match event {
            Event::Killed(status, output) => (
                RunState::TimedOut(
                    ExecutionResult { exit_status: status, output: output, timed_out: true },
                ),
                Action::Teardown,
            ),
            _ => failed(ExecError::IoDelivery),
        },
        RunState::Completed(result) => (RunState::TornDown, Action::Return(Ok(result))),
        RunState::TimedOut(result) => (RunState::TornDown, Action::Return(Ok(result))),
        RunState::Failed(error) => (RunState::TornDown, Action::Return(Err(error))),
        RunState::TornDown => (RunState::TornDown, Action::Halt),
    }
}

impl RunState {
    /// The stage that the run is in.
    pub fn phase(&self) -> (phase: Phase)
        ensures
            phase == self@.phase(),
    {
        match self {
            RunState::Creating => Phase::Created,
            RunState::Starting => Phase::Created,
            RunState::Feeding => Phase::Running,
            RunState::Waiting => Phase::Running,
            RunState::Killing => Phase::Running,
            RunState::Completed(_) => Phase::Completed,
            RunState::TimedOut(_) => Phase::TimedOut,
            RunState::Failed(_) => Phase::SetupFailed,
            RunState::TornDown => Phase::TornDown,
        }
    }
}

/// The actions that a run in `state` is told to take as `events` come in
/// one after the other.
pub open spec fn actions_from(state: RunStateView, events: Seq<EventView>) -> Seq<ActionView>
    decreases events.len(),
{
    if events.len() == 0 {
        Seq::empty()
    } else {
        let next = step_spec(state, events[0]);
        seq![next.1] + actions_from(next.0, events.subrange(1, events.len() as int))
    }
}

/// The state that a run in `state` is in after `events`.
pub open spec fn state_after(state: RunStateView, events: Seq<EventView>) -> RunStateView
    decreases events.len(),
{
    if events.len() == 0 {
        state
    } else {
        state_after(step_spec(state, events[0]).0, events.subrange(1, events.len() as int))
    }
}

/// A result is handed out only by the step that ends a teardown, and a
/// teardown is ordered exactly when the outcome of the run has become known.
pub proof fn law_teardown_before_return(state: RunStateView, event: EventView)
    ensures
        step_spec(state, event).1 is Return <==> state.releasing(),
        state.releasing() ==> step_spec(state, event).0 is TornDown,
        step_spec(state, event).1 is Teardown <==> step_spec(state, event).0.releasing(),
        step_spec(state, event).1 is Teardown ==> !state.releasing() && !(state is TornDown),
{
}

/// After the teardown nothing is reachable: the state stays, and no action
/// is asked for.
pub proof fn law_torn_down_is_final(event: EventView)
    ensures
        step_spec(RunStateView::TornDown, event) == (RunStateView::TornDown, ActionView::Halt),
{
}

/// Every step of a run that is not over brings it closer to its end: a run
/// takes at most seven steps, whatever is reported.
pub proof fn law_progress(state: RunStateView, event: EventView)
    requires
        !(state is TornDown),
    ensures
        step_spec(state, event).0.steps_left() < state.steps_left(),
        state.steps_left() <= 7,
{
}

/// A run that was cut off is a failure, whatever status the killed process
/// reported, and it is marked as timed out.
pub proof fn law_timed_out_is_failure(state: RunStateView, event: EventView)
    requires
        state is Killing,
    ensures
        step_spec(state, event).0 matches RunStateView::TimedOut(result) ==> result.timed_out
            && !result.is_success(),
        step_spec(state, event).0 is TimedOut || step_spec(state, event).0 is Failed,
{
}

/// Once a run is torn down, whatever is reported, nothing is asked for.
pub proof fn lemma_halted(events: Seq<EventView>)
    ensures
        actions_from(RunStateView::TornDown, events).len() == events.len(),
        forall|i: int|
            0 <= i < events.len() ==> #[trigger] actions_from(RunStateView::TornDown, events)[i]
                == ActionView::Halt,
        state_after(RunStateView::TornDown, events) == RunStateView::TornDown,
    decreases events.len(),
{
    if events.len() > 0 {
        lemma_halted(events.subrange(1, events.len() as int));
    }
}

/// Over every sequence of events: a result is handed out only directly after
/// a teardown was ordered, and after a result nothing but `Halt` follows, so
/// that a run hands out at most one result.
pub proof fn law_single_use(state: RunStateView, events: Seq<EventView>)
    ensures
        actions_from(state, events).len() == events.len(),
        forall|i: int|
            0 <= i < events.len() && #[trigger] actions_from(state, events)[i] is Return ==> (i
                == 0 && state.releasing()) || (i > 0 && actions_from(state, events)[i - 1]
                is Teardown),
        forall|i: int, j: int|
            0 <= i < j < events.len() && #[trigger] actions_from(state, events)[i] is Return
                ==> #[trigger] actions_from(state, events)[j] == ActionView::Halt,
    decreases events.len(),
{
    if events.len() > 0 {
        let next = step_spec(state, events[0]);
        let rest = events.subrange(1, events.len() as int);
        let tail = actions_from(next.0, rest);
        let all = actions_from(state, events);
        law_single_use(next.0, rest);
        law_teardown_before_return(state, events[0]);
        assert(all == seq![next.1] + tail);
        assert(all[0] == next.1);
        assert forall|i: int| 1 <= i < events.len() implies #[trigger] all[i] == tail[i - 1] by {}
        if next.0 is TornDown {
            lemma_halted(rest);
        }
        assert forall|i: int| 0 <= i < events.len() && #[trigger] all[i] is Return implies (i == 0
            && state.releasing()) || (i > 0 && all[i - 1] is Teardown) by {
            if i > 0 {
                assert(all[i] == tail[i - 1]);
                if i - 1 > 0 {
                    assert(all[i - 1] == tail[i - 2]);
                }
            }
        }
        assert forall|i: int, j: int|
            0 <= i < j < events.len() && #[trigger] all[i] is Return implies #[trigger] all[j]
            == ActionView::Halt by {
            assert(all[j] == tail[j - 1]);
            if i > 0 {
                assert(all[i] == tail[i - 1]);
            }
        }
    }
}

/// A run whose process ends in time hands out the status and the output as
/// they were reported, byte for byte, not timed out, after a teardown. This
/// holds whether or not the input could be written.
pub proof fn law_completed_run(status: ExitStatus, output: Seq<u8>, fed: bool)
    ensures
        actions_from(
            RunStateView::Creating,
            seq![
                EventView::Created,
                EventView::Started,
                if fed {
                    EventView::Fed
                } else {
                    EventView::FeedFailed
                },
                EventView::Exited(status, output),
                EventView::Released,
            ],
        ) == seq![
            ActionView::Start,
            ActionView::Feed,
            ActionView::Wait,
            ActionView::Teardown,
            ActionView::Return(
                Ok(ExecutionResultView { exit_status: status, output: output, timed_out: false }),
            ),
        ],
{
    let feed = if fed {
        EventView::Fed
    } else {
        EventView::FeedFailed
    };
    let e0 = seq![
        EventView::Created,
        EventView::Started,
        feed,
        EventView::Exited(status, output),
        EventView::Released,
    ];
    let e1 = e0.subrange(1, 5);
    let e2 = e1.subrange(1, 4);
    let e3 = e2.subrange(1, 3);
    let e4 = e3.subrange(1, 2);
    let e5 = e4.subrange(1, 1);
    let result = ExecutionResultView { exit_status: status, output: output, timed_out: false };
    assert(actions_from(RunStateView::TornDown, e5) == Seq::<ActionView>::empty());
    assert(actions_from(RunStateView::Completed(result), e4) =~= seq![
        ActionView::Return(Ok(result)),
    ]);
    assert(actions_from(RunStateView::Waiting, e3) =~= seq![
        ActionView::Teardown,
        ActionView::Return(Ok(result)),
    ]);
    assert(actions_from(RunStateView::Feeding, e2) =~= seq![
        ActionView::Wait,
        ActionView::Teardown,
        ActionView::Return(Ok(result)),
    ]);
    assert(actions_from(RunStateView::Starting, e1) =~= seq![
        ActionView::Feed,
        ActionView::Wait,
        ActionView::Teardown,
        ActionView::Return(Ok(result)),
    ]);
    assert(actions_from(RunStateView::Creating, e0) =~= seq![
        ActionView::Start,
        ActionView::Feed,
        ActionView::Wait,
        ActionView::Teardown,
        ActionView::Return(Ok(result)),
    ]);
}

/// A run whose time runs out is ended by force, torn down, and hands out
/// the status and the output captured until then, marked as timed out.
pub proof fn law_timed_out_run(status: ExitStatus, output: Seq<u8>)
    ensures
        actions_from(
            RunStateView::Waiting,
            seq![EventView::DeadlineExceeded, EventView::Killed(status, output), EventView::Released],
        ) == seq![
            ActionView::Kill,
            ActionView::Teardown,
            ActionView::Return(
                Ok(ExecutionResultView { exit_status: status, output: output, timed_out: true }),
            ),
        ],
{
    let e0 = seq![
        EventView::DeadlineExceeded,
        EventView::Killed(status, output),
        EventView::Released,
    ];
    let e1 = e0.subrange(1, 3);
    let e2 = e1.subrange(1, 2);
    let e3 = e2.subrange(1, 1);
    let result = ExecutionResultView { exit_status: status, output: output, timed_out: true };
    assert(actions_from(RunStateView::TornDown, e3) == Seq::<ActionView>::empty());
    assert(actions_from(RunStateView::TimedOut(result), e2) =~= seq![
        ActionView::Return(Ok(result)),
    ]);
    assert(actions_from(RunStateView::Killing, e1) =~= seq![
        ActionView::Teardown,
        ActionView::Return(Ok(result)),
    ]);
    assert(actions_from(RunStateView::Waiting, e0) =~= seq![
        ActionView::Kill,
        ActionView::Teardown,
        ActionView::Return(Ok(result)),
    ]);
}

/// A context that cannot be created, or a process that cannot be started,
/// gives a setup failure at once: teardown, then the error.
pub proof fn law_setup_failure(created: bool)
    ensures
        created ==> actions_from(
            RunStateView::Creating,
            seq![EventView::Created, EventView::StartFailed, EventView::Released],
        ) == seq![
            ActionView::Start,
            ActionView::Teardown,
            ActionView::Return(Err(ExecError::SandboxSetup)),
        ],
        !created ==> actions_from(
            RunStateView::Creating,
            seq![EventView::CreateFailed, EventView::Released],
        ) == seq![ActionView::Teardown, ActionView::Return(Err(ExecError::SandboxSetup))],
{
    let failed = RunStateView::Failed(ExecError::SandboxSetup);
    let verdict = ActionView::Return(Err(ExecError::SandboxSetup));
    if created {
        let e0 = seq![EventView::Created, EventView::StartFailed, EventView::Released];
        let e1 = e0.subrange(1, 3);
        let e2 = e1.subrange(1, 2);
        let e3 = e2.subrange(1, 1);
        assert(actions_from(RunStateView::TornDown, e3) == Seq::<ActionView>::empty());
        assert(actions_from(failed, e2) =~= seq![verdict]);
        assert(actions_from(RunStateView::Starting, e1) =~= seq![ActionView::Teardown, verdict]);
        assert(actions_from(RunStateView::Creating, e0) =~= seq![
            ActionView::Start,
            ActionView::Teardown,
            verdict,
        ]);
    } else {
        let e0 = seq![EventView::CreateFailed, EventView::Released];
        let e1 = e0.subrange(1, 2);
        let e2 = e1.subrange(1, 1);
        assert(actions_from(RunStateView::TornDown, e2) == Seq::<ActionView>::empty());
        assert(actions_from(failed, e1) =~= seq![verdict]);
        assert(actions_from(RunStateView::Creating, e0) =~= seq![ActionView::Teardown, verdict]);
    }
}

} // verus!
