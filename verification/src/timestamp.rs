//! Instants on the wall clock, counted in nanoseconds from the Unix epoch.

use vstd::prelude::*;

verus! {

/// Nanoseconds in one second.
pub const NANOS_PER_SEC: i128 = 1_000_000_000;

/// An instant, before or after the Unix epoch.
#[derive(Clone, Copy, Debug, PartialEq, Eq, Structural)]
pub struct Timestamp {
    /// Nanoseconds since the epoch; negative before it.
    pub nanos: i128,
}

impl View for Timestamp {
    type V = int;

    /// Nanoseconds since the epoch; negative before it.
    open spec fn view(&self) -> int {
        self.nanos as int
    }
}

impl Timestamp {
    /// The instant `nanos` nanoseconds after the epoch, or before it where
    /// `nanos` is negative.
    pub fn from_nanos(nanos: i128) -> (t: Timestamp)
        ensures
            t@ == nanos,
    {
        Timestamp { nanos }
    }

    /// The instant `secs` seconds and `nanos` nanoseconds after the epoch.
    pub fn from_parts(secs: u64, nanos: u32) -> (t: Timestamp)
        ensures
            t@ == secs as int * NANOS_PER_SEC as int + nanos as int,
    {
        let whole: i128 = secs as i128;
        let scaled: i128 = whole * NANOS_PER_SEC;
        let fraction: i128 = nanos as i128;
        Timestamp { nanos: scaled + fraction }
    }

    /// Nanoseconds since the epoch.
    pub fn as_nanos(&self) -> (n: i128)
        ensures
            n == self@,
    {
        self.nanos
    }

    /// Whole seconds since the epoch, rounded towards the past.
    pub fn secs(&self) -> (s: i128)
        ensures
            s == self@ / NANOS_PER_SEC as int,
    {
        if self.nanos >= 0 {
            self.nanos / NANOS_PER_SEC
        } else {
            // One more than the instant is never below the least number held.
            let short: i128 = self.nanos + 1;
            let back: i128 = -short;
            let whole: i128 = back / NANOS_PER_SEC;
            -whole - 1
        }
    }

    /// Nanoseconds into the running second.
    pub fn subsec_nanos(&self) -> (n: u32)
        ensures
            n == self@ % NANOS_PER_SEC as int,
    {
        if self.nanos >= 0 {
            let rest: i128 = self.nanos % NANOS_PER_SEC;
            rest as u32
        } else {
            let short: i128 = self.nanos + 1;
            let back: i128 = -short;
            let rest: i128 = back % NANOS_PER_SEC;
            let into: i128 = NANOS_PER_SEC - 1 - rest;
            into as u32
        }
    }

    /// Whether this instant lies strictly before `other`.
    pub fn is_before(&self, other: &Timestamp) -> (b: bool)
        ensures
            b == (self@ < other@),
    {
        self.nanos < other.nanos
    }
}

} // verus!
