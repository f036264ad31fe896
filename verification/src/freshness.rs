//! The freshness rule: when a stored entry may be served in place of a run.

use vstd::prelude::*;

verus! {

/// The time-to-live, in seconds, where none is asked for: one hour.
pub const DEFAULT_TTL_SECS: u64 = 3600;

/// What to do with an entry that exists at the cache location.
#[derive(Clone, Copy, Debug, PartialEq, Eq, Structural)]
pub enum Verdict {
    /// The entry is young enough: its content is the answer.
    Serve,
    /// The entry is removed and the command runs again.
    Renew,
}

/// An entry is fresh while its age in whole seconds is below the time-to-live.
/// A time-to-live of zero makes every entry stale.
pub open spec fn is_fresh(age_secs: nat, ttl: nat) -> bool {
    age_secs < ttl
}

/// The verdict on an entry of the given age: it is served exactly when it is
/// fresh and no renewal is forced.
pub open spec fn verdict_of(age_secs: nat, ttl: nat, force_renew: bool) -> Verdict {
    if is_fresh(age_secs, ttl) && !force_renew {
        Verdict::Serve
    } else {
        Verdict::Renew
    }
}

/// Decides whether an existing entry is served or renewed.
pub fn judge(age_secs: u64, ttl: u64, force_renew: bool) -> (verdict: Verdict)
    ensures
        verdict == verdict_of(age_secs as nat, ttl as nat, force_renew),
{
    if age_secs < ttl && !force_renew {
        Verdict::Serve
    } else {
        Verdict::Renew
    }
}

} // verus!
