//! The cache-aware executor as a machine that never touches the outside
//! world itself. It names the next [`Action`]; whoever drives it carries the
//! action out and reports what happened as an [`Event`].

use crate::clock::{whole_seconds_between, Timestamp};
use crate::freshness::{judge, verdict_of, Verdict};
use crate::text::{decode_lossy, lossy_utf8, reads_as};
use vstd::prelude::*;

verus! {

/// Why an invocation ended without an answer. Every failure is final: nothing
/// is retried, and no output is produced.
#[derive(Clone, Copy, Debug, PartialEq, Eq, Structural)]
pub enum Failure {
    /// The metadata of the cache file could not be read.
    MetadataUnreadable,
    /// The metadata does not tell when the cache file was created.
    CreationTimeUnreadable,
    /// The cache file was created after the current time, so it has no age.
    AgeUnknown,
    /// The cache file is fresh but could not be read.
    ContentUnreadable,
    /// The stale cache file could not be removed.
    RemovalFailed,
    /// The shell could not be launched.
    SpawnFailed,
    /// The captured output could not be written to the cache file.
    WriteFailed,
    /// The event does not answer the action that was asked for.
    UnexpectedEvent,
}

impl Failure {
    /// The diagnostic that goes with this failure.
    pub open spec fn diagnostic(self) -> Seq<char> {
        match self {
            Failure::MetadataUnreadable => "Unable to read metadata of cache file"@,
            Failure::CreationTimeUnreadable => "Unable to read created date of cache file"@,
            Failure::AgeUnknown => "Unable to calculate elapsed time"@,
            Failure::ContentUnreadable => "Unable to read cache file"@,
            Failure::RemovalFailed => "Unable to remove cache file"@,
            Failure::SpawnFailed => "failed to execute process"@,
            Failure::WriteFailed => "Unable to write cache file"@,
            Failure::UnexpectedEvent => "event does not answer the action asked for"@,
        }
    }

    /// The diagnostic to end the invocation with.
    pub fn message(&self) -> (text: &'static str)
        ensures
            text@ == self.diagnostic(),
    {
        match self {
            Failure::MetadataUnreadable => "Unable to read metadata of cache file",
            Failure::CreationTimeUnreadable => "Unable to read created date of cache file",
            Failure::AgeUnknown => "Unable to calculate elapsed time",
            Failure::ContentUnreadable => "Unable to read cache file",
            Failure::RemovalFailed => "Unable to remove cache file",
            Failure::SpawnFailed => "failed to execute process",
            Failure::WriteFailed => "Unable to write cache file",
            Failure::UnexpectedEvent => "event does not answer the action asked for",
        }
    }
}

/// What the driver is asked to do next.
#[derive(Debug, PartialEq, Eq)]
pub enum Action {
    /// Find out whether a regular file lies at the cache location.
    Probe,
    /// Read the creation time of the cache file, and the current time.
    ReadStamps,
    /// Read the whole cache file.
    ReadContent,
    /// Remove the cache file.
    Remove,
    /// Hand `command` to a shell as one command line, wait for it to end,
    /// and capture what it wrote to standard output.
    Run { command: String },
    /// Write `bytes` to the cache file, creating it.
    Store { bytes: Vec<u8> },
    /// The invocation is over: `text` is its answer.
    Return { text: String },
    /// The invocation is over: it failed.
    Abort { failure: Failure },
}

/// What the driver reports after carrying out an action.
#[derive(Debug, PartialEq, Eq)]
pub enum Event {
    /// Answers [`Action::Probe`].
    Probed { is_regular_file: bool },
    /// Answers [`Action::ReadStamps`].
    Stamped { created: Timestamp, now: Timestamp },
    /// Answers [`Action::ReadContent`].
    ContentRead { bytes: Vec<u8> },
    /// Answers [`Action::Remove`].
    Removed,
    /// Answers [`Action::Run`], whatever the exit status of the command.
    Finished { stdout: Vec<u8> },
    /// Answers [`Action::Store`].
    Stored,
    /// The action could not be carried out.
    Failed { failure: Failure },
}

/// Where an invocation stands: the answer it waits for.
#[derive(Debug, PartialEq, Eq)]
pub enum Phase {
    AwaitProbe,
    AwaitStamps,
    AwaitContent,
    AwaitRemoval,
    AwaitOutput,
    AwaitStore { output: Vec<u8> },
    Done,
}

/// One invocation of the executor on a command.
#[derive(Debug, PartialEq, Eq)]
pub struct Invocation {
    command: String,
    ttl: u64,
    force_renew: bool,
    phase: Phase,
}

/// An [`Action`] as a mathematical value.
pub enum ActionView {
    Probe,
    ReadStamps,
    ReadContent,
    Remove,
    Run { command: Seq<char> },
    Store { bytes: Seq<u8> },
    Return { text: Seq<char> },
    Abort { failure: Failure },
}

/// An [`Event`] as a mathematical value, with times in nanoseconds since the
/// Unix epoch.
pub enum EventView {
    Probed { is_regular_file: bool },
    Stamped { created: int, now: int },
    ContentRead { bytes: Seq<u8> },
    Removed,
    Finished { stdout: Seq<u8> },
    Stored,
    Failed { failure: Failure },
}

/// A [`Phase`] as a mathematical value.
pub enum PhaseView {
    AwaitProbe,
    AwaitStamps,
    AwaitContent,
    AwaitRemoval,
    AwaitOutput,
    AwaitStore { output: Seq<u8> },
    Done,
}

/// An [`Invocation`] as a mathematical value.
pub struct InvocationView {
    pub command: Seq<char>,
    pub ttl: nat,
    pub force_renew: bool,
    pub phase: PhaseView,
}

impl View for Action {
    type V = ActionView;

    open spec fn view(&self) -> ActionView {
        match *self {
            Action::Probe => ActionView::Probe,
            Action::ReadStamps => ActionView::ReadStamps,
            Action::ReadContent => ActionView::ReadContent,
            Action::Remove => ActionView::Remove,
            Action::Run { command } => ActionView::Run { command: command@ },
            Action::Store { bytes } => ActionView::Store { bytes: bytes@ },
            Action::Return { text } => ActionView::Return { text: text@ },
            Action::Abort { failure } => ActionView::Abort { failure },
        }
    }
}

impl View for Event {
    type V = EventView;

    open spec fn view(&self) -> EventView {
        match *self {
            Event::Probed { is_regular_file } => EventView::Probed { is_regular_file },
            Event::Stamped { created, now } => EventView::Stamped { created: created@, now: now@ },
            Event::ContentRead { bytes } => EventView::ContentRead { bytes: bytes@ },
            Event::Removed => EventView::Removed,
            Event::Finished { stdout } => EventView::Finished { stdout: stdout@ },
            Event::Stored => EventView::Stored,
            Event::Failed { failure } => EventView::Failed { failure },
        }
    }
}

impl View for Phase {
    type V = PhaseView;

    open spec fn view(&self) -> PhaseView {
        match *self {
            Phase::AwaitProbe => PhaseView::AwaitProbe,
            Phase::AwaitStamps => PhaseView::AwaitStamps,
            Phase::AwaitContent => PhaseView::AwaitContent,
            Phase::AwaitRemoval => PhaseView::AwaitRemoval,
            Phase::AwaitOutput => PhaseView::AwaitOutput,
            Phase::AwaitStore { output } => PhaseView::AwaitStore { output: output@ },
            Phase::Done => PhaseView::Done,
        }
    }
}

impl View for Invocation {
    type V = InvocationView;

    closed spec fn view(&self) -> InvocationView {
        InvocationView {
            command: self.command@,
            ttl: self.ttl as nat,
            force_renew: self.force_renew,
            phase: self.phase@,
        }
    }
}

impl InvocationView {
    /// An invocation before anything has happened: it waits to learn whether
    /// a cache file exists.
    pub open spec fn initial(command: Seq<char>, ttl: nat, force_renew: bool) -> InvocationView {
        InvocationView { command, ttl, force_renew, phase: PhaseView::AwaitProbe }
    }

    /// This invocation in another phase.
    pub open spec fn at(self, phase: PhaseView) -> InvocationView {
        InvocationView { phase, ..self }
    }

    /// The invocation ends with a failure.
    pub open spec fn abort(self, failure: Failure) -> (InvocationView, ActionView) {
        (self.at(PhaseView::Done), ActionView::Abort { failure })
    }

    /// The invocation ends with the text that `bytes` read as.
    pub open spec fn answer(self, bytes: Seq<u8>) -> (InvocationView, ActionView) {
        (self.at(PhaseView::Done), ActionView::Return { text: lossy_utf8(bytes) })
    }

    /// The command is handed to the shell, verbatim.
    pub open spec fn run(self) -> (InvocationView, ActionView) {
        (self.at(PhaseView::AwaitOutput), ActionView::Run { command: self.command })
    }

    /// What follows once the age of the existing cache file is known: a fresh
    /// file is read unless renewal is forced, any other is removed.
    pub open spec fn weigh(self, age: Option<nat>) -> (InvocationView, ActionView) {
        match age {
            None => self.abort(Failure::AgeUnknown),
            Some(secs) => match verdict_of(secs, self.ttl, self.force_renew) {
                Verdict::Serve => (self.at(PhaseView::AwaitContent), ActionView::ReadContent),
                Verdict::Renew => (self.at(PhaseView::AwaitRemoval), ActionView::Remove),
            },
        }
    }
}

/// The executor's rule: the invocation and the action that follow when
/// invocation `s` learns of event `e`.
///
/// Without a cache file the command runs at once. With one, its age decides:
/// fresh and not forced, its content is the answer and nothing runs; else it
/// is removed before the command runs. What the command wrote is stored
/// verbatim, and only then given as the answer. A reported failure ends the
/// invocation, and so does an event that nobody asked for.
pub open spec fn transition(s: InvocationView, e: EventView) -> (InvocationView, ActionView) {
    match (s.phase, e) {
        (PhaseView::Done, _) => s.abort(Failure::UnexpectedEvent),
        (_, EventView::Failed { failure }) => s.abort(failure),
        (PhaseView::AwaitProbe, EventView::Probed { is_regular_file }) => if is_regular_file {
            (s.at(PhaseView::AwaitStamps), ActionView::ReadStamps)
        } else {
            s.run()
        },
        (PhaseView::AwaitStamps, EventView::Stamped { created, now }) => s.weigh(
            whole_seconds_between(created, now),
        ),
        (PhaseView::AwaitContent, EventView::ContentRead { bytes }) => s.answer(bytes),
        (PhaseView::AwaitRemoval, EventView::Removed) => s.run(),
        (PhaseView::AwaitOutput, EventView::Finished { stdout }) => (
            s.at(PhaseView::AwaitStore { output: stdout }),
            ActionView::Store { bytes: stdout },
        ),
        (PhaseView::AwaitStore { output }, EventView::Stored) => s.answer(output),
        _ => s.abort(Failure::UnexpectedEvent),
    }
}

/// The bytes that become the answer, where event `e` brings invocation `s`
/// to one.
pub open spec fn answered_bytes(s: InvocationView, e: EventView) -> Option<Seq<u8>> {
    match (s.phase, e) {
        (PhaseView::AwaitContent, EventView::ContentRead { bytes }) => Some(bytes),
        (PhaseView::AwaitStore { output }, EventView::Stored) => Some(output),
        _ => None,
    }
}

impl Invocation {
    /// Starts an invocation. The first thing to find out is whether a cache
    /// file exists.
    pub fn begin(command: &str, ttl: u64, force_renew: bool) -> (start: (Invocation, Action))
        ensures
            start.0@ == InvocationView::initial(command@, ttl as nat, force_renew),
            start.1@ == ActionView::Probe,
    {
        let invocation = Invocation {
            command: command.to_owned(),
            ttl,
            force_renew,
            phase: Phase::AwaitProbe,
        };
        (invocation, Action::Probe)
    }

    fn abort(self, failure: Failure) -> (next: (Invocation, Action))
        ensures
            (next.0@, next.1@) == self@.abort(failure),
    {
        self.ask(Phase::Done, Action::Abort { failure })
    }

    fn answer(self, text: String) -> (next: (Invocation, Action))
        ensures
            next.0@ == self@.at(PhaseView::Done),
            next.1@ == (ActionView::Return { text: text@ }),
    {
        self.ask(Phase::Done, Action::Return { text })
    }

    fn run(self) -> (next: (Invocation, Action))
        ensures
            (next.0@, next.1@) == self@.run(),
    {
        let command = self.command.clone();
        self.ask(Phase::AwaitOutput, Action::Run { command })
    }

    fn ask(self, phase: Phase, action: Action) -> (next: (Invocation, Action))
        ensures
            next.0@ == self@.at(phase@),
            next.1 == action,
    {
        let Invocation { command, ttl, force_renew, phase: _ } = self;
        (Invocation { command, ttl, force_renew, phase }, action)
    }

    fn weigh(self, created: &Timestamp, now: &Timestamp) -> (next: (Invocation, Action))
        ensures
            (next.0@, next.1@) == self@.weigh(whole_seconds_between(created@, now@)),
    {
        match now.whole_seconds_since(created) {
            None => self.abort(Failure::AgeUnknown),
            Some(age) => match judge(age, self.ttl, self.force_renew) {
                Verdict::Serve => self.ask(Phase::AwaitContent, Action::ReadContent),
                Verdict::Renew => self.ask(Phase::AwaitRemoval, Action::Remove),
            },
        }
    }

    /// Where the invocation stands.
    pub fn phase(&self) -> (phase: &Phase)
        ensures
            phase@ == self@.phase,
    {
        &self.phase
    }

    /// Takes the invocation one step further: `event` is what came of the
    /// action asked for last, and the action returned is what to do next.
    /// After [`Action::Return`] or [`Action::Abort`] the invocation is over.
    ///
    /// The text of an answer is a lossy reading of the bytes it comes from;
    /// where those are well-formed UTF-8, it is exactly what they encode.
    pub fn step(self, event: Event) -> (next: (Invocation, Action))
        ensures
            (next.0@, next.1@) == transition(self@, event@),
            answered_bytes(self@, event@) matches Some(bytes) ==> next.1@ matches ActionView::Return {
                text,
            } && reads_as(bytes, text),
    {
        match (&self.phase, event) {
            (Phase::Done, _) => self.abort(Failure::UnexpectedEvent),
            (_, Event::Failed { failure }) => self.abort(failure),
            (Phase::AwaitProbe, Event::Probed { is_regular_file }) => if is_regular_file {
                self.ask(Phase::AwaitStamps, Action::ReadStamps)
            } else {
                self.run()
            },
            (Phase::AwaitStamps, Event::Stamped { created, now }) => self.weigh(&created, &now),
            (Phase::AwaitContent, Event::ContentRead { bytes }) => {
                let text = decode_lossy(&bytes);
                self.answer(text)
            },
            (Phase::AwaitRemoval, Event::Removed) => self.run(),
            (Phase::AwaitOutput, Event::Finished { stdout }) => {
                let bytes = stdout.clone();
                self.ask(Phase::AwaitStore { output: stdout }, Action::Store { bytes })
            },
            (Phase::AwaitStore { output }, Event::Stored) => {
                let text = decode_lossy(output);
                self.answer(text)
            },
            _ => self.abort(Failure::UnexpectedEvent),
        }
    }
}

} // verus!
