//! Starting the helper process.

use crate::error::unavailable;
use crate::error::Reason;
use crate::error::UnlockError;
use crate::protocol::HELPER_ARGUMENT;
use vstd::prelude::*;

verus! {

/// A pipe to the helper.
#[derive(Debug, Clone, Copy, PartialEq, Eq, Structural)]
pub enum HelperPipe {
    Stdin,
    Stdout,
}

impl HelperPipe {
    /// The text for a pipe that the started helper does not have.
    pub open spec fn missing(self) -> Seq<char> {
        match self {
            HelperPipe::Stdin => "failed to open biometric helper stdin"@,
            HelperPipe::Stdout => "failed to open biometric helper stdout"@,
        }
    }
}

/// How far the start of the helper has come; `E` tells why it failed.
#[derive(Debug)]
pub enum SpawnPhase<E> {
    /// The path of the running executable is wanted.
    Locate,
    /// The process is to be started.
    Launch,
    /// Its input pipe is to be taken.
    TakeStdin,
    /// Its output pipe is to be taken.
    TakeStdout,
    /// It lacks this pipe and is to be killed.
    Kill(HelperPipe),
    /// It lacks this pipe, has been killed and is to be waited for.
    Reap(HelperPipe),
    /// It runs, and both pipes are there.
    Running,
    /// There is no helper.
    Failed(E),
}

/// What came of a step of the start; `T` is the text of a failure.
#[derive(Debug)]
pub enum SpawnEvent<T> {
    Done,
    /// The pipe asked for is not there.
    Missing,
    Failed(T),
}

impl<T: View> View for SpawnEvent<T> {
    type V = SpawnEvent<T::V>;

    open spec fn view(&self) -> SpawnEvent<T::V> {
        match self {
            SpawnEvent::Done => SpawnEvent::Done,
            SpawnEvent::Missing => SpawnEvent::Missing,
            SpawnEvent::Failed(text) => SpawnEvent::Failed(text@),
        }
    }
}

/// What is to be done next to start the helper.
#[derive(Debug, Clone, Copy)]
pub enum SpawnAction {
    LocateExecutable,
    /// Start the executable with this one argument, its input and output piped.
    Launch(&'static str),
    TakePipe(HelperPipe),
    Kill,
    Reap,
    Finish,
}

/// What is to be done in a phase.
pub open spec fn spawn_action<E>(phase: SpawnPhase<E>) -> SpawnAction {
    match phase {
        SpawnPhase::Locate => SpawnAction::LocateExecutable,
        SpawnPhase::Launch => SpawnAction::Launch(HELPER_ARGUMENT),
        SpawnPhase::TakeStdin => SpawnAction::TakePipe(HelperPipe::Stdin),
        SpawnPhase::TakeStdout => SpawnAction::TakePipe(HelperPipe::Stdout),
        SpawnPhase::Kill(_) => SpawnAction::Kill,
        SpawnPhase::Reap(_) => SpawnAction::Reap,
        SpawnPhase::Running | SpawnPhase::Failed(_) => SpawnAction::Finish,
    }
}

/// The phase after an event. What comes of killing and of waiting is not looked
/// at; elsewhere an event that does not answer the phase's action is ignored.
pub open spec fn spawn_step(phase: SpawnPhase<Reason>, event: SpawnEvent<Seq<char>>) -> SpawnPhase<
    Reason,
> {
    match (phase, event) {
        (SpawnPhase::Locate, SpawnEvent::Done) => SpawnPhase::Launch,
        (SpawnPhase::Launch, SpawnEvent::Done) => SpawnPhase::TakeStdin,
        (SpawnPhase::Locate | SpawnPhase::Launch, SpawnEvent::Failed(text)) => SpawnPhase::Failed(
            Reason::Unavailable(text),
        ),
        (SpawnPhase::TakeStdin, SpawnEvent::Done) => SpawnPhase::TakeStdout,
        (SpawnPhase::TakeStdin, SpawnEvent::Missing) => SpawnPhase::Kill(HelperPipe::Stdin),
        (SpawnPhase::TakeStdout, SpawnEvent::Done) => SpawnPhase::Running,
        (SpawnPhase::TakeStdout, SpawnEvent::Missing) => SpawnPhase::Kill(HelperPipe::Stdout),
        (SpawnPhase::Kill(pipe), _) => SpawnPhase::Reap(pipe),
        (SpawnPhase::Reap(pipe), _) => SpawnPhase::Failed(Reason::Unavailable(pipe.missing())),
        (phase, _) => phase,
    }
}

/// The start of the helper process.
pub struct Spawning {
    phase: SpawnPhase<UnlockError>,
}

impl View for Spawning {
    type V = SpawnPhase<Reason>;

    closed spec fn view(&self) -> SpawnPhase<Reason> {
        match self.phase {
            SpawnPhase::Locate => SpawnPhase::Locate,
            SpawnPhase::Launch => SpawnPhase::Launch,
            SpawnPhase::TakeStdin => SpawnPhase::TakeStdin,
            SpawnPhase::TakeStdout => SpawnPhase::TakeStdout,
            SpawnPhase::Kill(pipe) => SpawnPhase::Kill(pipe),
            SpawnPhase::Reap(pipe) => SpawnPhase::Reap(pipe),
            SpawnPhase::Running => SpawnPhase::Running,
            SpawnPhase::Failed(error) => SpawnPhase::Failed(error@),
        }
    }
}

impl Spawning {
    /// Begins with nothing started.
    pub fn spawn() -> (spawning: Spawning)
        ensures
            spawning@ == SpawnPhase::<Reason>::Locate,
    {
        Spawning { phase: SpawnPhase::Locate }
    }

    /// What is to be done next.
    pub fn action(&self) -> (action: SpawnAction)
        ensures
            action == spawn_action(self@),
    {
        match self.phase {
            SpawnPhase::Locate => SpawnAction::LocateExecutable,
            SpawnPhase::Launch => SpawnAction::Launch(HELPER_ARGUMENT),
            SpawnPhase::TakeStdin => SpawnAction::TakePipe(HelperPipe::Stdin),
            SpawnPhase::TakeStdout => SpawnAction::TakePipe(HelperPipe::Stdout),
            SpawnPhase::Kill(_) => SpawnAction::Kill,
            SpawnPhase::Reap(_) => SpawnAction::Reap,
            SpawnPhase::Running | SpawnPhase::Failed(_) => SpawnAction::Finish,
        }
    }

    /// Goes on with what came of the action.
    pub fn step(self, event: SpawnEvent<String>) -> (next: Spawning)
        ensures
            next@ == spawn_step(self@, event@),
    {
        let phase = match (self.phase, event) {
            (SpawnPhase::Locate, SpawnEvent::Done) => SpawnPhase::Launch,
            (SpawnPhase::Launch, SpawnEvent::Done) => SpawnPhase::TakeStdin,
            (SpawnPhase::Locate, SpawnEvent::Failed(text)) => SpawnPhase::Failed(
                unavailable(text.as_str()),
            ),
            (SpawnPhase::Launch, SpawnEvent::Failed(text)) => SpawnPhase::Failed(
                unavailable(text.as_str()),
            ),
            (SpawnPhase::TakeStdin, SpawnEvent::Done) => SpawnPhase::TakeStdout,
            (SpawnPhase::TakeStdin, SpawnEvent::Missing) => SpawnPhase::Kill(HelperPipe::Stdin),
            (SpawnPhase::TakeStdout, SpawnEvent::Done) => SpawnPhase::Running,
            (SpawnPhase::TakeStdout, SpawnEvent::Missing) => SpawnPhase::Kill(HelperPipe::Stdout),
            (SpawnPhase::Kill(pipe), _) => SpawnPhase::Reap(pipe),
            (SpawnPhase::Reap(HelperPipe::Stdin), _) => SpawnPhase::Failed(
                unavailable("failed to open biometric helper stdin"),
            ),
            (SpawnPhase::Reap(HelperPipe::Stdout), _) => SpawnPhase::Failed(
                unavailable("failed to open biometric helper stdout"),
            ),
            (phase, _) => phase,
        };
        Spawning { phase }
    }

    /// The outcome, once there is one.
    pub fn finish(self) -> (outcome: Option<Result<(), UnlockError>>)
        ensures
            match self@ {
                SpawnPhase::Running => outcome == Some(Ok::<(), UnlockError>(())),
                SpawnPhase::Failed(reason) => outcome matches Some(Err(error)) && error@ == reason,
                _ => outcome is None,
            },
    {
        match self.phase {
            SpawnPhase::Running => Some(Ok(())),
            SpawnPhase::Failed(error) => Some(Err(error)),
            _ => None,
        }
    }
}

/// What has happened to the process in the course of a start.
pub struct SpawnHistory {
    pub phase: SpawnPhase<Reason>,
    pub launched: bool,
    pub killed: bool,
    pub reaped: bool,
}

/// The course of a start over `events`.
pub open spec fn spawn_run(events: Seq<SpawnEvent<Seq<char>>>) -> SpawnHistory
    decreases events.len(),
{
    if events.len() == 0 {
        SpawnHistory { phase: SpawnPhase::Locate, launched: false, killed: false, reaped: false }
    } else {
        let before = spawn_run(events.drop_last());
        let event = events.last();
        SpawnHistory {
            phase: spawn_step(before.phase, event),
            launched: before.launched || (before.phase is Launch && event is Done),
            killed: before.killed || before.phase is Kill,
            reaped: before.reaped || (before.killed && before.phase is Reap),
        }
    }
}

/// No helper is left behind: a start that fails after the process was launched
/// has killed it and then waited for it, and one that succeeds has a process
/// that was not killed.
pub proof fn no_helper_is_left_behind(events: Seq<SpawnEvent<Seq<char>>>)
    ensures
        spawn_run(events).phase is Failed && spawn_run(events).launched ==> spawn_run(events).killed
            && spawn_run(events).reaped,
        spawn_run(events).phase is Running ==> spawn_run(events).launched && !spawn_run(
            events,
        ).killed,
        match spawn_run(events).phase {
            SpawnPhase::Locate | SpawnPhase::Launch => !spawn_run(events).launched && !spawn_run(
                events,
            ).killed,
            SpawnPhase::TakeStdin | SpawnPhase::TakeStdout | SpawnPhase::Kill(_) => spawn_run(
                events,
            ).launched && !spawn_run(events).killed,
            SpawnPhase::Reap(_) => spawn_run(events).launched && spawn_run(events).killed,
            _ => true,
        },
    decreases events.len(),
{
    if events.len() != 0 {
        no_helper_is_left_behind(events.drop_last());
    }
}

/// A start in which every step succeeds has a running helper. On the way it asks
/// for the running executable, starts that with the argument that makes it the
/// helper, and takes the two pipes.
pub proof fn starting_succeeds()
    ensures
        ({
            let done = SpawnEvent::<Seq<char>>::Done;
            &&& spawn_action(spawn_run(seq![]).phase) == SpawnAction::LocateExecutable
            &&& spawn_action(spawn_run(seq![done]).phase) matches SpawnAction::Launch(argument)
            &&& argument@ == "--biometric-helper"@
            &&& spawn_action(spawn_run(seq![done, done]).phase) == SpawnAction::TakePipe(
                HelperPipe::Stdin,
            )
            &&& spawn_action(spawn_run(seq![done, done, done]).phase) == SpawnAction::TakePipe(
                HelperPipe::Stdout,
            )
            &&& spawn_run(seq![done, done, done, done]).phase == SpawnPhase::<Reason>::Running
            &&& spawn_action(spawn_run(seq![done, done, done, done]).phase) == SpawnAction::Finish
        }),
{
    reveal_with_fuel(spawn_run, 6);
    let done = SpawnEvent::<Seq<char>>::Done;
    assert(seq![done].drop_last() =~= seq![]);
    assert(seq![done, done].drop_last() =~= seq![done]);
    assert(seq![done, done, done].drop_last() =~= seq![done, done]);
    assert(seq![done, done, done, done].drop_last() =~= seq![done, done, done]);
}

/// A start fails with its step: with the text of the failure if the executable is
/// not found or not started; and with the pipe that is missing, once the process
/// has been killed and waited for, whatever came of that.
pub proof fn starting_fails_with_its_step(
    events: Seq<SpawnEvent<Seq<char>>>,
    text: Seq<char>,
    killed: SpawnEvent<Seq<char>>,
    reaped: SpawnEvent<Seq<char>>,
)
    ensures
        ({
            let gone = spawn_run(events.push(SpawnEvent::Missing).push(killed).push(reaped));
            match spawn_action(spawn_run(events).phase) {
                SpawnAction::LocateExecutable | SpawnAction::Launch(_) => spawn_run(
                    events.push(SpawnEvent::Failed(text)),
                ).phase == SpawnPhase::<Reason>::Failed(Reason::Unavailable(text)),
                SpawnAction::TakePipe(pipe) => {
                    &&& spawn_action(spawn_run(events.push(SpawnEvent::Missing)).phase)
                        == SpawnAction::Kill
                    &&& spawn_action(
                        spawn_run(events.push(SpawnEvent::Missing).push(killed)).phase,
                    ) == SpawnAction::Reap
                    &&& gone.phase == SpawnPhase::<Reason>::Failed(
                        Reason::Unavailable(
                            match pipe {
                                HelperPipe::Stdin => "failed to open biometric helper stdin"@,
                                HelperPipe::Stdout => "failed to open biometric helper stdout"@,
                            },
                        ),
                    )
                },
                _ => true,
            }
        }),
{
    reveal_with_fuel(spawn_run, 4);
    let missing = events.push(SpawnEvent::Missing);
    assert(events.push(SpawnEvent::Failed(text)).drop_last() =~= events);
    assert(missing.drop_last() =~= events);
    assert(missing.push(killed).drop_last() =~= missing);
    assert(missing.push(killed).push(reaped).drop_last() =~= missing.push(killed));
}

/// A start fails only if a step failed or a pipe was missing, and a start that has
/// ended stays as it is.
pub proof fn starting_fails_only_for_a_cause(events: Seq<SpawnEvent<Seq<char>>>)
    ensures
        (forall|i: int| 0 <= i < events.len() ==> (#[trigger] events[i]) is Done)
            ==> match spawn_run(events).phase {
            SpawnPhase::Kill(_) | SpawnPhase::Reap(_) | SpawnPhase::Failed(_) => false,
            _ => true,
        },
        forall|event: SpawnEvent<Seq<char>>|
            spawn_action(spawn_run(events).phase) == SpawnAction::Finish ==> (#[trigger] spawn_step(
                spawn_run(events).phase,
                event,
            )) == spawn_run(events).phase,
    decreases events.len(),
{
    if events.len() != 0 {
        let before = events.drop_last();
        starting_fails_only_for_a_cause(before);
        assert(events[events.len() - 1] == events.last());
        assert(forall|i: int| 0 <= i < before.len() ==> #[trigger] before[i] == events[i]);
    }
}

/// What a start did not ask for changes nothing: it stands where it stood,
/// whatever it is told that does not answer its last action. Killing and waiting
/// are answered by anything.
pub proof fn starting_ignores_what_it_did_not_ask(
    events: Seq<SpawnEvent<Seq<char>>>,
    event: SpawnEvent<Seq<char>>,
)
    ensures
        match spawn_action(spawn_run(events).phase) {
            SpawnAction::LocateExecutable
            | SpawnAction::Launch(_) => event is Done || event is Failed,
            SpawnAction::TakePipe(_) => event is Done || event is Missing,
            SpawnAction::Kill | SpawnAction::Reap => true,
            SpawnAction::Finish => false,
        } || spawn_run(events.push(event)).phase == spawn_run(events).phase,
{
    assert(events.push(event).drop_last() =~= events);
}

/// What is told to a start and what the mathematics says of it are the same thing.
pub proof fn spawn_views_are_faithful(event: SpawnEvent<String>)
    ensures
        event is Done <==> event@ is Done,
        event is Missing <==> event@ is Missing,
        event matches SpawnEvent::Failed(text) ==> event@ == SpawnEvent::<Seq<char>>::Failed(text@),
{
}

} // verus!
