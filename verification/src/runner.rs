//! One render attempt, as a state machine.
//!
//! The attempt decides; its owner acts. Each [`Action`] names the one effect to
//! perform next, and the [`Event`] that reports how it went is fed back into
//! [`Attempt::step`]. The effects are, in order: resolving the branch of the
//! working directory, serializing the renderer's input, spawning the renderer,
//! writing the input to it, and awaiting its exit under the deadline. Whatever
//! goes wrong on the way ends the attempt with a [`Failure`].

use crate::gate::{JobView, StatusLineJob};
use crate::outcome::{outcome_view, reduced, Failure, FailureView, Outcome, OutcomeView};
use crate::request::{merged_input, InputView, StatusLineInput};
use crate::text::{diagnostic_of_output, line_of_output, shown_line, trim, utf8_lossy};
use vstd::prelude::*;

verus! {

/// The program and the arguments that `command` names.
pub open spec fn program_of(command: Seq<Seq<char>>) -> Seq<char> {
    command.first()
}

/// The arguments that `command` passes to its program.
pub open spec fn arguments_of(command: Seq<Seq<char>>) -> Seq<Seq<char>> {
    command.skip(1)
}

/// Splits an argv into the program and its arguments; nothing if it is empty.
pub fn split_command(command: Vec<String>) -> (split: Option<(String, Vec<String>)>)
    ensures
        split is None <==> command@.len() == 0,
        split matches Some((program, args)) ==> {
            &&& program@ == program_of(command.deep_view())
            &&& args.deep_view() == arguments_of(command.deep_view())
        },
{
    if command.len() == 0 {
        return None;
    }
    let mut args = command;
    let program = args.remove(0);
    assert(args.deep_view() =~= arguments_of(command.deep_view()));
    Some((program, args))
}

/// Where an attempt stands: the effect it waits for, and what it still needs
/// for the effects to come.
#[derive(Debug)]
pub enum Attempt<U> {
    /// The branch of the working directory is being resolved.
    ResolvingBranch { job: StatusLineJob<U> },
    /// The input is being serialized.
    Serializing { command: Vec<String>, timeout_ms: u64 },
    /// The renderer is being spawned.
    Spawning { payload: Vec<u8>, timeout_ms: u64 },
    /// The payload is being written to the renderer.
    Writing { timeout_ms: u64 },
    /// The renderer runs, and the deadline with it.
    Waiting { timeout_ms: u64 },
    /// The outcome was handed out.
    Finished,
}

/// Mathematical content of an [`Attempt`].
pub enum AttemptView<U> {
    ResolvingBranch { job: JobView<U> },
    Serializing { command: Seq<Seq<char>>, timeout_ms: u64 },
    Spawning { payload: Seq<u8>, timeout_ms: u64 },
    Writing { timeout_ms: u64 },
    Waiting { timeout_ms: u64 },
    Finished,
}

impl<U> View for Attempt<U> {
    type V = AttemptView<U>;

    open spec fn view(&self) -> AttemptView<U> {
        match *self {
            Attempt::ResolvingBranch { job } => AttemptView::ResolvingBranch { job: job@ },
            Attempt::Serializing { command, timeout_ms } => AttemptView::Serializing {
                command: command.deep_view(),
                timeout_ms,
            },
            Attempt::Spawning { payload, timeout_ms } => AttemptView::Spawning {
                payload: payload@,
                timeout_ms,
            },
            Attempt::Writing { timeout_ms } => AttemptView::Writing { timeout_ms },
            Attempt::Waiting { timeout_ms } => AttemptView::Waiting { timeout_ms },
            Attempt::Finished => AttemptView::Finished,
        }
    }
}

/// The one effect that the owner of an attempt performs next.
#[derive(Debug, PartialEq, Eq)]
pub enum Action<U> {
    /// Look up the branch of the repository that holds `cwd`.
    ResolveBranch { cwd: String },
    /// Serialize `input` to the wire format.
    Serialize { input: StatusLineInput<U> },
    /// Spawn `program` with `args`, its three streams piped, so that it is
    /// killed if the attempt is dropped.
    Spawn { program: String, args: Vec<String> },
    /// Write all of `payload` to the renderer's input.
    WriteInput { payload: Vec<u8> },
    /// Wait until the renderer exits, for at most `timeout_ms` milliseconds.
    AwaitExit { timeout_ms: u64 },
    /// Hand `outcome` to the host; the attempt is over.
    Deliver { outcome: Outcome },
    /// Nothing is left to do: the outcome was delivered before.
    Stop,
}

/// Mathematical content of an [`Action`].
pub enum ActionView<U> {
    ResolveBranch { cwd: Seq<char> },
    Serialize { input: InputView<U> },
    Spawn { program: Seq<char>, args: Seq<Seq<char>> },
    WriteInput { payload: Seq<u8> },
    AwaitExit { timeout_ms: u64 },
    Deliver { outcome: OutcomeView },
    Stop,
}

impl<U> View for Action<U> {
    type V = ActionView<U>;

    open spec fn view(&self) -> ActionView<U> {
        match *self {
            Action::ResolveBranch { cwd } => ActionView::ResolveBranch { cwd: cwd@ },
            Action::Serialize { input } => ActionView::Serialize { input: input@ },
            Action::Spawn { program, args } => ActionView::Spawn {
                program: program@,
                args: args.deep_view(),
            },
            Action::WriteInput { payload } => ActionView::WriteInput { payload: payload@ },
            Action::AwaitExit { timeout_ms } => ActionView::AwaitExit { timeout_ms },
            Action::Deliver { outcome } => ActionView::Deliver { outcome: outcome_view(outcome) },
            Action::Stop => ActionView::Stop,
        }
    }
}

/// How the effect that an action asked for went.
#[derive(Debug, PartialEq, Eq)]
pub enum Event {
    /// The branch lookup finished; a lookup that fails reports no branch.
    BranchResolved { branch: Option<String> },
    /// The input was serialized to `payload`.
    Serialized { payload: Vec<u8> },
    /// The input has no representation in the wire format.
    SerializationFailed { detail: String },
    /// The renderer runs. `stdin_open` tells whether its input can be written.
    Spawned { stdin_open: bool },
    /// The renderer could not be started.
    SpawnFailed { detail: String },
    /// The whole payload was written.
    InputWritten,
    /// Writing the payload failed.
    InputWriteFailed { detail: String },
    /// The renderer exited within the deadline. `code` is its exit status,
    /// absent if it was ended by a signal.
    Exited { code: Option<i32>, stdout: Vec<u8>, stderr: Vec<u8> },
    /// Waiting for the renderer failed.
    WaitFailed { detail: String },
    /// The deadline passed first; the renderer was ended.
    TimedOut,
}

/// Mathematical content of an [`Event`].
pub enum EventView {
    BranchResolved { branch: Option<Seq<char>> },
    Serialized { payload: Seq<u8> },
    SerializationFailed { detail: Seq<char> },
    Spawned { stdin_open: bool },
    SpawnFailed { detail: Seq<char> },
    InputWritten,
    InputWriteFailed { detail: Seq<char> },
    Exited { code: Option<i32>, stdout: Seq<u8>, stderr: Seq<u8> },
    WaitFailed { detail: Seq<char> },
    TimedOut,
}

impl View for Event {
    type V = EventView;

    open spec fn view(&self) -> EventView {
        match *self {
            Event::BranchResolved { branch } => EventView::BranchResolved {
                branch: branch.deep_view(),
            },
            Event::Serialized { payload } => EventView::Serialized { payload: payload@ },
            Event::SerializationFailed { detail } => EventView::SerializationFailed {
                detail: detail@,
            },
            Event::Spawned { stdin_open } => EventView::Spawned { stdin_open },
            Event::SpawnFailed { detail } => EventView::SpawnFailed { detail: detail@ },
            Event::InputWritten => EventView::InputWritten,
            Event::InputWriteFailed { detail } => EventView::InputWriteFailed { detail: detail@ },
            Event::Exited { code, stdout, stderr } => EventView::Exited {
                code,
                stdout: stdout@,
                stderr: stderr@,
            },
            Event::WaitFailed { detail } => EventView::WaitFailed { detail: detail@ },
            Event::TimedOut => EventView::TimedOut,
        }
    }
}

/// The end of an attempt that failed with `failure`.
pub open spec fn failed<U>(failure: FailureView) -> (AttemptView<U>, ActionView<U>) {
    (AttemptView::Finished, ActionView::Deliver { outcome: Err(failure) })
}

/// The outcome of a renderer that exited with `code`: only status zero makes
/// its output count, whatever it wrote.
pub open spec fn exit_outcome(code: Option<i32>, stdout: Seq<u8>, stderr: Seq<u8>) -> OutcomeView {
    if code == Some(0i32) {
        Ok(shown_line(utf8_lossy(stdout)))
    } else {
        Err(FailureView::NonZeroExit { code, stderr: trim(utf8_lossy(stderr)) })
    }
}

impl<U> AttemptView<U> {
    /// An attempt as it begins, and its first action.
    pub open spec fn begin(job: JobView<U>) -> (AttemptView<U>, ActionView<U>) {
        (AttemptView::ResolvingBranch { job }, ActionView::ResolveBranch { cwd: job.request.cwd })
    }

    /// The state and the action that follow `event`.
    pub open spec fn step(self, event: EventView) -> (AttemptView<U>, ActionView<U>) {
        match self {
            AttemptView::ResolvingBranch { job } => match event {
                EventView::BranchResolved { branch } => (
                    AttemptView::Serializing { command: job.command, timeout_ms: job.timeout_ms },
                    ActionView::Serialize { input: merged_input(job.request, branch) },
                ),
                _ => failed(FailureView::UnexpectedEvent),
            },
            AttemptView::Serializing { command, timeout_ms } => match event {
                EventView::Serialized { payload } => if command.len() == 0 {
                    failed(FailureView::EmptyCommand)
                } else {
                    (
                        AttemptView::Spawning { payload, timeout_ms },
                        ActionView::Spawn {
                            program: program_of(command),
                            args: arguments_of(command),
                        },
                    )
                },
                EventView::SerializationFailed { detail } => failed(
                    FailureView::Serialization { detail },
                ),
                _ => failed(FailureView::UnexpectedEvent),
            },
            AttemptView::Spawning { payload, timeout_ms } => match event {
                EventView::Spawned { stdin_open } => if stdin_open {
                    (AttemptView::Writing { timeout_ms }, ActionView::WriteInput { payload })
                } else {
                    (AttemptView::Waiting { timeout_ms }, ActionView::AwaitExit { timeout_ms })
                },
                EventView::SpawnFailed { detail } => failed(FailureView::Spawn { detail }),
                _ => failed(FailureView::UnexpectedEvent),
            },
            AttemptView::Writing { timeout_ms } => match event {
                EventView::InputWritten => (
                    AttemptView::Waiting { timeout_ms },
                    ActionView::AwaitExit { timeout_ms },
                ),
                EventView::InputWriteFailed { detail } => failed(
                    FailureView::InputWrite { detail },
                ),
                _ => failed(FailureView::UnexpectedEvent),
            },
            AttemptView::Waiting { timeout_ms } => match event {
                EventView::Exited { code, stdout, stderr } => (
                    AttemptView::Finished,
                    ActionView::Deliver { outcome: exit_outcome(code, stdout, stderr) },
                ),
                EventView::WaitFailed { detail } => failed(FailureView::Wait { detail }),
                EventView::TimedOut => failed(FailureView::Timeout { timeout_ms }),
                _ => failed(FailureView::UnexpectedEvent),
            },
            AttemptView::Finished => (AttemptView::Finished, ActionView::Stop),
        }
    }
}

impl<U> AttemptView<U> {
    /// Number of effects that may still lie before an attempt.
    pub open spec fn remaining_effects(self) -> nat {
        match self {
            AttemptView::ResolvingBranch { .. } => 5,
            AttemptView::Serializing { .. } => 4,
            AttemptView::Spawning { .. } => 3,
            AttemptView::Writing { .. } => 2,
            AttemptView::Waiting { .. } => 1,
            AttemptView::Finished => 0,
        }
    }
}

/// Every event brings an attempt that is not over closer to its end, and the
/// outcome is handed out by exactly the step that ends it: once per attempt,
/// after at most five events.
pub proof fn law_one_outcome<U>(attempt: AttemptView<U>, event: EventView)
    ensures
        !(attempt is Finished) ==> attempt.step(event).0.remaining_effects()
            < attempt.remaining_effects(),
        attempt.step(event).1 is Deliver <==> !(attempt is Finished) && attempt.step(
            event,
        ).0 is Finished,
        attempt is Finished ==> attempt.step(event) == (attempt, ActionView::<U>::Stop),
{
}

/// A renderer that exits with a status other than zero fails the attempt,
/// whatever it wrote; one that exits with zero never does.
pub proof fn law_exit_status_decides(code: Option<i32>, stdout: Seq<u8>, stderr: Seq<u8>)
    ensures
        exit_outcome(code, stdout, stderr) is Ok <==> code == Some(0i32),
        reduced(exit_outcome(code, stdout, stderr)) is Failed <==> code != Some(0i32),
{
}

/// Only a renderer that exited with status zero updates the status line: every
/// other end of an attempt reaches the host as the one `Failed`.
pub proof fn law_only_success_updates<U>(attempt: AttemptView<U>, event: EventView)
    requires
        attempt.step(event).1 matches ActionView::Deliver { outcome } && reduced(
            outcome,
        ) is Updated,
    ensures
        attempt is Waiting,
        event matches EventView::Exited { code, stdout, .. } && code == Some(0i32)
            && attempt.step(event).1 == (ActionView::<U>::Deliver {
            outcome: Ok(shown_line(utf8_lossy(stdout))),
        }),
{
}

/// The effects of an attempt that meets no failure come in a fixed order:
/// branch, serialization, spawn, write, wait. The renderer that is spawned is
/// the configured one, what is written to it is what was serialized, the wait
/// is bounded by the configured timeout, and the outcome is that of the exit.
pub proof fn law_effects_in_order<U>(
    job: JobView<U>,
    branch: Option<Seq<char>>,
    payload: Seq<u8>,
    code: Option<i32>,
    stdout: Seq<u8>,
    stderr: Seq<u8>,
)
    requires
        job.command.len() > 0,
    ensures
        ({
            let (resolving, resolve) = AttemptView::begin(job);
            let (serializing, serialize) = resolving.step(EventView::BranchResolved { branch });
            let (spawning, spawn) = serializing.step(EventView::Serialized { payload });
            let (writing, write) = spawning.step(EventView::Spawned { stdin_open: true });
            let (waiting, wait) = writing.step(EventView::InputWritten);
            let (finished, deliver) = waiting.step(EventView::Exited { code, stdout, stderr });
            &&& resolve == ActionView::<U>::ResolveBranch { cwd: job.request.cwd }
            &&& serialize == ActionView::<U>::Serialize { input: merged_input(job.request, branch) }
            &&& spawn == ActionView::<U>::Spawn {
                program: job.command[0],
                args: job.command.skip(1),
            }
            &&& write == ActionView::<U>::WriteInput { payload }
            &&& wait == ActionView::<U>::AwaitExit { timeout_ms: job.timeout_ms }
            &&& deliver == ActionView::<U>::Deliver { outcome: exit_outcome(code, stdout, stderr) }
            &&& finished is Finished
        }),
{
}

/// An attempt that was begun for a command with a program never fails for want
/// of one.
pub proof fn law_command_is_run<U>(command: Seq<Seq<char>>, timeout_ms: u64, payload: Seq<u8>)
    requires
        command.len() > 0,
    ensures
        (AttemptView::<U>::Serializing { command, timeout_ms }).step(
            EventView::Serialized { payload },
        ) == (
            AttemptView::<U>::Spawning { payload, timeout_ms },
            ActionView::<U>::Spawn { program: command[0], args: command.skip(1) },
        ),
{
}

/// The outcome of a renderer that exited with `code`, having written `stdout`
/// and `stderr`. Status zero yields the line to show; any other status fails,
/// whatever was written.
pub fn conclude_exit(code: Option<i32>, stdout: &[u8], stderr: &[u8]) -> (outcome: Outcome)
    ensures
        outcome_view(outcome) == exit_outcome(code, stdout@, stderr@),
{
    let succeeded = match code {
        Some(status) => status == 0,
        None => false,
    };
    if succeeded {
        Ok(line_of_output(stdout))
    } else {
        Err(Failure::NonZeroExit { code, stderr: diagnostic_of_output(stderr) })
    }
}

/// The end of an attempt that failed with `failure`.
fn fail<U>(failure: Failure) -> (end: (Attempt<U>, Action<U>))
    ensures
        (end.0@, end.1@) == failed::<U>(failure@),
{
    (Attempt::Finished, Action::Deliver { outcome: Err(failure) })
}

impl<U> Attempt<U> {
    /// Begins the attempt that the manager admitted as `job`. The first thing to
    /// do is to resolve the branch of the request's working directory.
    pub fn start(job: StatusLineJob<U>) -> (begun: (Self, Action<U>))
        ensures
            (begun.0@, begun.1@) == AttemptView::begin(job@),
    {
        let cwd = job.request.cwd.clone();
        (Attempt::ResolvingBranch { job }, Action::ResolveBranch { cwd })
    }

    /// Takes the report of the last action and says what to do next.
    ///
    /// Each effect that succeeds leads to the next one; the first that fails
    /// ends the attempt, and so does an event that does not answer the action
    /// that was outstanding. The attempt hands out its outcome once; after
    /// that every event is answered with [`Action::Stop`].
    pub fn step(self, event: Event) -> (next: (Self, Action<U>))
        ensures
            (next.0@, next.1@) == self@.step(event@),
    {
        match self {
            Attempt::ResolvingBranch { job } => match event {
                Event::BranchResolved { branch } => {
                    let StatusLineJob { command, request, timeout_ms } = job;
                    (
                        Attempt::Serializing { command, timeout_ms },
                        Action::Serialize { input: StatusLineInput::new(request, branch) },
                    )
                },
                _ => fail(Failure::UnexpectedEvent),
            },
            Attempt::Serializing { command, timeout_ms } => match event {
                Event::Serialized { payload } => match split_command(command) {
                    Some((program, args)) => (
                        Attempt::Spawning { payload, timeout_ms },
                        Action::Spawn { program, args },
                    ),
                    None => fail(Failure::EmptyCommand),
                },
                Event::SerializationFailed { detail } => fail(Failure::Serialization { detail }),
                _ => fail(Failure::UnexpectedEvent),
            },
            Attempt::Spawning { payload, timeout_ms } => match event {
                Event::Spawned { stdin_open } => if stdin_open {
                    (Attempt::Writing { timeout_ms }, Action::WriteInput { payload })
                } else {
                    (Attempt::Waiting { timeout_ms }, Action::AwaitExit { timeout_ms })
                },
                Event::SpawnFailed { detail } => fail(Failure::Spawn { detail }),
                _ => fail(Failure::UnexpectedEvent),
            },
            Attempt::Writing { timeout_ms } => match event {
                Event::InputWritten => (
                    Attempt::Waiting { timeout_ms },
                    Action::AwaitExit { timeout_ms },
                ),
                Event::InputWriteFailed { detail } => fail(Failure::InputWrite { detail }),
                _ => fail(Failure::UnexpectedEvent),
            },
            Attempt::Waiting { timeout_ms } => match event {
                Event::Exited { code, stdout, stderr } => (
                    Attempt::Finished,
                    Action::Deliver {
                        outcome: conclude_exit(code, stdout.as_slice(), stderr.as_slice()),
                    },
                ),
                Event::WaitFailed { detail } => fail(Failure::Wait { detail }),
                Event::TimedOut => fail(Failure::Timeout { timeout_ms }),
                _ => fail(Failure::UnexpectedEvent),
            },
            Attempt::Finished => (Attempt::Finished, Action::Stop),
        }
    }
}

} // verus!
