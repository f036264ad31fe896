//! Points in time, and the age of an entry in whole seconds.

use vstd::arithmetic::div_mod::lemma_fundamental_div_mod_converse;
use vstd::prelude::*;

verus! {

/// Nanoseconds in one second.
pub const NANOS_PER_SEC: u32 = 1_000_000_000;

/// The magnitude of the earliest second a [`Timestamp`] can hold.
pub const EARLIEST_SECS_BEFORE_EPOCH: u64 = 0x8000_0000_0000_0000;

/// The whole seconds that lie between two points in time, each given in
/// nanoseconds since the Unix epoch. A fraction of a second is dropped, not
/// rounded. There is no age when the later point precedes the earlier one.
pub open spec fn whole_seconds_between(earlier: int, later: int) -> Option<nat> {
    if later < earlier {
        None
    } else {
        Some(((later - earlier) / (NANOS_PER_SEC as int)) as nat)
    }
}

/// A point in time: whole seconds since the Unix epoch, negative before it,
/// and the nanoseconds into that second. Points are ordered as they follow
/// each other in time.
#[derive(Clone, Copy, Debug, PartialEq, Eq, PartialOrd, Ord, Structural)]
pub struct Timestamp {
    secs: i64,
    nanos: u32,
}

impl View for Timestamp {
    type V = int;

    /// Nanoseconds since the Unix epoch.
    closed spec fn view(&self) -> int {
        self.secs * NANOS_PER_SEC + self.nanos
    }
}

impl Timestamp {
    #[verifier::type_invariant]
    spec fn within_second(self) -> bool {
        self.nanos < NANOS_PER_SEC
    }

    /// The point `nanos` nanoseconds into second `secs`. There is none when
    /// `nanos` does not lie within one second.
    pub fn new(secs: i64, nanos: u32) -> (point: Option<Timestamp>)
        ensures
            point is Some <==> nanos < NANOS_PER_SEC,
            point matches Some(t) ==> t@ == secs * NANOS_PER_SEC + nanos,
    {
        if nanos < NANOS_PER_SEC {
            Some(Timestamp { secs, nanos })
        } else {
            None
        }
    }

    /// The point that lies `secs` seconds and `nanos` nanoseconds after the
    /// epoch, where it can be held.
    pub fn after_epoch(secs: u64, nanos: u32) -> (point: Option<Timestamp>)
        ensures
            point is Some <==> nanos < NANOS_PER_SEC && secs <= i64::MAX,
            point matches Some(t) ==> t@ == secs * NANOS_PER_SEC + nanos,
    {
        if nanos < NANOS_PER_SEC && secs <= i64::MAX as u64 {
            Some(Timestamp { secs: secs as i64, nanos })
        } else {
            None
        }
    }

    /// The point that lies `secs` seconds and `nanos` nanoseconds before the
    /// epoch, where it can be held.
    pub fn before_epoch(secs: u64, nanos: u32) -> (point: Option<Timestamp>)
        ensures
            point is Some <==> nanos < NANOS_PER_SEC && secs * NANOS_PER_SEC + nanos
                <= EARLIEST_SECS_BEFORE_EPOCH * NANOS_PER_SEC,
            point matches Some(t) ==> t@ == -(secs * NANOS_PER_SEC + nanos),
    {
        if nanos >= NANOS_PER_SEC {
            None
        } else if nanos == 0 {
            if secs < EARLIEST_SECS_BEFORE_EPOCH {
                Some(Timestamp { secs: -(secs as i64), nanos: 0 })
            } else if secs == EARLIEST_SECS_BEFORE_EPOCH {
                Some(Timestamp { secs: i64::MIN, nanos: 0 })
            } else {
                None
            }
        } else if secs < EARLIEST_SECS_BEFORE_EPOCH {
            Some(Timestamp { secs: -(secs as i64) - 1, nanos: NANOS_PER_SEC - nanos })
        } else {
            None
        }
    }

    /// The age, at this point, of something made at `earlier`: the whole
    /// seconds between the two, or nothing when this point precedes `earlier`.
    pub fn whole_seconds_since(&self, earlier: &Timestamp) -> (age: Option<u64>)
        ensures
            match age {
                Some(secs) => whole_seconds_between(earlier@, self@) == Some(secs as nat),
                None => whole_seconds_between(earlier@, self@) is None,
            },
    {
        proof {
            use_type_invariant(self);
            use_type_invariant(earlier);
        }
        if self.secs < earlier.secs || (self.secs == earlier.secs && self.nanos < earlier.nanos) {
            return None;
        }
        let gap: i128 = self.secs as i128 - earlier.secs as i128;
        let whole: i128 = if self.nanos < earlier.nanos {
            gap - 1
        } else {
            gap
        };
        proof {
            let rest: int = if self.nanos < earlier.nanos {
                NANOS_PER_SEC + self.nanos - earlier.nanos
            } else {
                self.nanos - earlier.nanos
            };
            lemma_fundamental_div_mod_converse(
                self@ - earlier@,
                NANOS_PER_SEC as int,
                whole as int,
                rest,
            );
        }
        Some(whole as u64)
    }

    /// The second this point lies in, counted from the epoch.
    pub fn secs(&self) -> (secs: i64)
        ensures
            secs == self@ / (NANOS_PER_SEC as int),
    {
        proof {
            use_type_invariant(self);
            lemma_fundamental_div_mod_converse(
                self@,
                NANOS_PER_SEC as int,
                self.secs as int,
                self.nanos as int,
            );
        }
        self.secs
    }

    /// The nanoseconds that this point lies into its second.
    pub fn subsec_nanos(&self) -> (nanos: u32)
        ensures
            nanos == self@ % (NANOS_PER_SEC as int),
    {
        proof {
            use_type_invariant(self);
            lemma_fundamental_div_mod_converse(
                self@,
                NANOS_PER_SEC as int,
                self.secs as int,
                self.nanos as int,
            );
        }
        self.nanos
    }
}

} // verus!
