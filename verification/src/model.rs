//! The executor in a world where nothing fails: a model of the cache file,
//! the clock and the shell, the outcome of an invocation in that world, and
//! what the executor guarantees there.

use crate::clock::whole_seconds_between;
use crate::executor::{transition, ActionView, EventView, Failure, InvocationView};
use crate::freshness::{verdict_of, Verdict};
use crate::text::lossy_utf8;
use vstd::prelude::*;

verus! {

/// A cache file: the bytes it holds, and when it was created, in nanoseconds
/// since the Unix epoch.
pub struct Entry {
    pub content: Seq<u8>,
    pub created: int,
}

/// What surrounds one invocation.
pub struct World {
    /// The cache file, where there is one.
    pub entry: Option<Entry>,
    /// The time read when the age of the cache file is computed.
    pub now: int,
    /// The creation time that a cache file written by this invocation gets.
    pub written_at: int,
    /// What each command writes to standard output when the shell runs it.
    pub stdout_of: spec_fn(Seq<char>) -> Seq<u8>,
}

/// How an invocation ended.
pub struct Outcome {
    /// The world it left behind.
    pub world: World,
    /// Its answer, or why there is none.
    pub result: Result<Seq<char>, Failure>,
    /// Whether the command was run.
    pub ran: bool,
}

impl World {
    /// Time does not run backwards between reading the clock and writing the
    /// cache file.
    pub open spec fn clock_advances(self) -> bool {
        self.now <= self.written_at
    }

    /// This world with `entry` as its cache file.
    pub open spec fn with_entry(self, entry: Option<Entry>) -> World {
        World { entry, ..self }
    }

    /// The age of the cache file in whole seconds, where it has one.
    pub open spec fn age(self) -> Option<nat> {
        match self.entry {
            Some(entry) => whole_seconds_between(entry.created, self.now),
            None => None,
        }
    }

    /// What comes of carrying out `action` in this world: the event to
    /// report, and the world afterwards. Only a file that is there can be
    /// examined, read or removed.
    pub open spec fn respond(self, action: ActionView) -> (EventView, World) {
        match action {
            ActionView::Probe => (EventView::Probed { is_regular_file: self.entry is Some }, self),
            ActionView::ReadStamps => match self.entry {
                Some(entry) => (EventView::Stamped { created: entry.created, now: self.now }, self),
                None => (EventView::Failed { failure: Failure::MetadataUnreadable }, self),
            },
            ActionView::ReadContent => match self.entry {
                Some(entry) => (EventView::ContentRead { bytes: entry.content }, self),
                None => (EventView::Failed { failure: Failure::ContentUnreadable }, self),
            },
            ActionView::Remove => match self.entry {
                Some(_) => (EventView::Removed, self.with_entry(None)),
                None => (EventView::Failed { failure: Failure::RemovalFailed }, self),
            },
            ActionView::Run { command } => (
                EventView::Finished { stdout: (self.stdout_of)(command) },
                self,
            ),
            ActionView::Store { bytes } => (
                EventView::Stored,
                self.with_entry(Some(Entry { content: bytes, created: self.written_at })),
            ),
            ActionView::Return { .. } | ActionView::Abort { .. } => (
                EventView::Failed { failure: Failure::UnexpectedEvent },
                self,
            ),
        }
    }

    /// The world after the command was run anew: the cache file holds what
    /// the command wrote, and is as old as the write.
    pub open spec fn renewed(self, command: Seq<char>) -> World {
        self.with_entry(
            Some(Entry { content: (self.stdout_of)(command), created: self.written_at }),
        )
    }
}

/// The most actions that an invocation asks for before it ends.
pub open spec fn longest_run() -> nat {
    5
}

/// Drives an invocation to its end: carries out `action` in world `w`,
/// reports the event to invocation `s`, and goes on with what `s` asks for
/// next, for at most `fuel` actions.
pub open spec fn drive(s: InvocationView, action: ActionView, w: World, ran: bool, fuel: nat) -> Outcome
    decreases fuel,
{
    match action {
        ActionView::Return { text } => Outcome { world: w, result: Ok(text), ran },
        ActionView::Abort { failure } => Outcome { world: w, result: Err(failure), ran },
        _ => if fuel == 0 {
            Outcome { world: w, result: Err(Failure::UnexpectedEvent), ran }
        } else {
            let (event, after) = w.respond(action);
            let (next, asked) = transition(s, event);
            drive(next, asked, after, ran || action is Run, (fuel - 1) as nat)
        },
    }
}

/// The outcome of invoking the executor on `command` in world `w`, as the
/// machine brings it about.
pub open spec fn invoke(w: World, command: Seq<char>, ttl: nat, force_renew: bool) -> Outcome {
    drive(
        InvocationView::initial(command, ttl, force_renew),
        ActionView::Probe,
        w,
        false,
        longest_run(),
    )
}

/// The outcome of running the command anew in world `w`.
pub open spec fn executed(w: World, command: Seq<char>) -> Outcome {
    Outcome {
        world: w.renewed(command),
        result: Ok(lossy_utf8((w.stdout_of)(command))),
        ran: true,
    }
}

/// The outcome of serving the cache file `entry` of world `w`.
pub open spec fn served(w: World, entry: Entry) -> Outcome {
    Outcome { world: w, result: Ok(lossy_utf8(entry.content)), ran: false }
}

/// The outcome that an invocation is meant to have. Without a cache file
/// the command runs. A cache file that is younger than the time-to-live is
/// served, unless renewal is forced; any other gives way to a new run. A
/// cache file from the future ends the invocation.
pub open spec fn outcome(w: World, command: Seq<char>, ttl: nat, force_renew: bool) -> Outcome {
    match w.entry {
        None => executed(w, command),
        Some(entry) => match w.age() {
            None => Outcome { world: w, result: Err(Failure::AgeUnknown), ran: false },
            Some(age) => match verdict_of(age, ttl, force_renew) {
                Verdict::Serve => served(w, entry),
                Verdict::Renew => executed(w, command),
            },
        },
    }
}

/// The machine brings about the outcome that is meant, in every world and
/// for every command, time-to-live and flag.
pub proof fn lemma_invoke_gives_outcome(w: World, command: Seq<char>, ttl: nat, force_renew: bool)
    ensures
        invoke(w, command, ttl, force_renew) == outcome(w, command, ttl, force_renew),
{
    reveal_with_fuel(drive, 6);
}

/// A cache file younger than the time-to-live is served when renewal is not
/// forced: the answer is its content read as text, the command is not run,
/// and nothing changes.
pub proof fn lemma_fresh_entry_is_served(w: World, entry: Entry, age: nat, command: Seq<char>, ttl: nat)
    requires
        w.entry == Some(entry),
        w.age() == Some(age),
        age < ttl,
    ensures
        invoke(w, command, ttl, false).result == Ok::<Seq<char>, Failure>(
            lossy_utf8(entry.content),
        ),
        !invoke(w, command, ttl, false).ran,
        invoke(w, command, ttl, false).world == w,
{
    lemma_invoke_gives_outcome(w, command, ttl, false);
}

/// Without a cache file the command is run, whatever the time-to-live and
/// the flag: the answer is what it wrote to standard output, read as text,
/// and the cache file then holds those bytes verbatim.
pub proof fn lemma_cold_start_executes(w: World, command: Seq<char>, ttl: nat, force_renew: bool)
    requires
        w.entry is None,
    ensures
        invoke(w, command, ttl, force_renew).ran,
        invoke(w, command, ttl, force_renew).result == Ok::<Seq<char>, Failure>(
            lossy_utf8((w.stdout_of)(command)),
        ),
        invoke(w, command, ttl, force_renew).world == w.renewed(command),
{
    lemma_invoke_gives_outcome(w, command, ttl, force_renew);
}

/// A cache file that has reached the time-to-live gives way: the command is
/// run, the answer is its new output and owes nothing to the stale content,
/// and the cache file then holds the new output.
pub proof fn lemma_expired_entry_is_renewed(
    w: World,
    age: nat,
    command: Seq<char>,
    ttl: nat,
    force_renew: bool,
)
    requires
        w.age() == Some(age),
        age >= ttl,
    ensures
        invoke(w, command, ttl, force_renew).ran,
        invoke(w, command, ttl, force_renew).result == Ok::<Seq<char>, Failure>(
            lossy_utf8((w.stdout_of)(command)),
        ),
        invoke(w, command, ttl, force_renew).world == w.renewed(command),
{
    lemma_invoke_gives_outcome(w, command, ttl, force_renew);
}

/// With a time-to-live of zero every cache file is stale.
pub proof fn lemma_zero_ttl_always_executes(w: World, command: Seq<char>, force_renew: bool)
    requires
        w.entry is Some ==> w.age() is Some,
    ensures
        invoke(w, command, 0, force_renew) == executed(w, command),
{
    lemma_invoke_gives_outcome(w, command, 0, force_renew);
}

/// Renewing an expired cache file never makes it older, and makes it
/// strictly newer unless no time has passed at all since it was created,
/// which only a time-to-live of zero lets happen.
pub proof fn lemma_renewal_advances_creation_time(
    w: World,
    entry: Entry,
    age: nat,
    command: Seq<char>,
    ttl: nat,
    force_renew: bool,
)
    requires
        w.clock_advances(),
        w.entry == Some(entry),
        w.age() == Some(age),
        age >= ttl,
    ensures
        invoke(w, command, ttl, force_renew).world.entry matches Some(renewed) && {
            ||| renewed.created > entry.created
            ||| ttl == 0 && renewed.created == entry.created && w.now == entry.created
        },
        ttl > 0 ==> invoke(w, command, ttl, force_renew).world.entry->0.created > entry.created,
{
    lemma_invoke_gives_outcome(w, command, ttl, force_renew);
    if ttl > 0 {
        assert(w.now - entry.created >= 1_000_000_000) by (nonlinear_arith)
            requires
                (w.now - entry.created) / 1_000_000_000 >= 1,
        ;
    }
}

/// Forced renewal runs the command even where the cache file is fresh: the
/// answer is the new output, not the stored content, and the new output is
/// stored in its place.
pub proof fn lemma_forced_renewal_executes(w: World, command: Seq<char>, ttl: nat)
    requires
        w.age() is Some,
    ensures
        invoke(w, command, ttl, true) == executed(w, command),
{
    lemma_invoke_gives_outcome(w, command, ttl, true);
}

/// A cold start followed by an invocation that finds the cache file fresh:
/// the second gives the answer of the first, which is the stored output read
/// as text, without running the command, and leaves the cache file alone.
pub proof fn lemma_cold_start_is_repeatable(
    first: World,
    second: World,
    age: nat,
    command: Seq<char>,
    ttl: nat,
    force_renew: bool,
)
    requires
        first.entry is None,
        second.entry == invoke(first, command, ttl, force_renew).world.entry,
        second.age() == Some(age),
        age < ttl,
    ensures
        invoke(second, command, ttl, false).result == invoke(
            first,
            command,
            ttl,
            force_renew,
        ).result,
        second.entry matches Some(stored) && invoke(second, command, ttl, false).result == Ok::<
            Seq<char>,
            Failure,
        >(lossy_utf8(stored.content)),
        !invoke(second, command, ttl, false).ran,
        invoke(second, command, ttl, false).world == second,
{
    lemma_invoke_gives_outcome(first, command, ttl, force_renew);
    lemma_invoke_gives_outcome(second, command, ttl, false);
}

/// The command is run only when no cache file is in its way: where none was
/// found, or once the one found has been removed. A stale file is never
/// written over in place.
pub proof fn lemma_run_follows_absence(s: InvocationView, e: EventView)
    requires
        transition(s, e).1 is Run,
    ensures
        transition(s, e).1 == (ActionView::Run { command: s.command }),
        (s.phase is AwaitProbe && e == EventView::Probed { is_regular_file: false }) || (
        s.phase is AwaitRemoval && e is Removed),
{
}

/// A failure is final: the invocation is over, and whatever is reported to
/// it afterwards, it asks for nothing more.
pub proof fn lemma_failure_is_final(s: InvocationView, failure: Failure, later: EventView)
    ensures
        transition(s, EventView::Failed { failure }).1 is Abort,
        transition(s, EventView::Failed { failure }).0.phase is Done,
        transition(transition(s, EventView::Failed { failure }).0, later).1 is Abort,
{
}

} // verus!
