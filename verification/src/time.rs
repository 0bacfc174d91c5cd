//! Points in time, as the reload policy compares them.

use vstd::prelude::*;

verus! {

/// The number of nanoseconds in a second.
pub const NANOS_PER_SEC: i128 = 1_000_000_000;

/// A point in time: the nanoseconds that lie between the Unix epoch and it,
/// negative where it lies before the epoch.
#[derive(Clone, Copy, Debug, PartialEq, Eq, Structural)]
pub struct Timestamp {
    nanos: i128,
}

impl View for Timestamp {
    type V = int;

    closed spec fn view(&self) -> int {
        self.nanos as int
    }
}

impl Timestamp {
    /// The point in time `nanos` nanoseconds after the Unix epoch.
    pub fn from_nanos(nanos: i128) -> (t: Timestamp)
        ensures
            t@ == nanos,
    {
        Timestamp { nanos }
    }

    /// The point in time `secs` seconds after the Unix epoch.
    pub fn from_secs(secs: i64) -> (t: Timestamp)
        ensures
            t@ == secs * NANOS_PER_SEC,
    {
        Timestamp { nanos: (secs as i128) * NANOS_PER_SEC }
    }

    /// The nanoseconds between the Unix epoch and this point in time.
    pub fn as_nanos(&self) -> (nanos: i128)
        ensures
            nanos == self@,
    {
        self.nanos
    }

    /// Whether this point in time lies after `other`.
    pub fn is_after(&self, other: Timestamp) -> (b: bool)
        ensures
            b == (self@ > other@),
    {
        self.nanos > other.nanos
    }

    /// Whether at least `secs` seconds lie between `earlier` and this point
    /// in time. Where `earlier` lies after this point in time, none do.
    pub fn is_at_least_secs_after(&self, earlier: Timestamp, secs: u64) -> (b: bool)
        ensures
            b == (self@ - earlier@ >= secs * NANOS_PER_SEC),
    {
        let needed: i128 = (secs as i128) * NANOS_PER_SEC;
        match self.nanos.checked_sub(earlier.nanos) {
            Some(elapsed) => elapsed >= needed,
            // The difference does not fit: it is far larger than any
            // interval, or far below zero.
            None => self.nanos > earlier.nanos,
        }
    }
}

} // verus!
