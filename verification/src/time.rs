//! Instants and delays, with the arithmetic the delivery schedule needs.
use vstd::prelude::*;

verus! {

/// Nanoseconds in one second.
pub const NANOS_PER_SEC: u32 = 1_000_000_000;

/// The latest second that the calendar library represents (the end of year 262142).
pub const MAX_TIMESTAMP_SECS: i64 = 8_210_266_876_799;

/// The earliest second that the calendar library represents (the start of its first day, in year -262143).
pub const MIN_TIMESTAMP_SECS: i64 = -8_334_601_228_800;

/// An instant in UTC: whole seconds since the Unix epoch, and nanoseconds
/// within that second.
#[derive(Clone, Copy, Debug, PartialEq, Eq, Structural)]
pub struct Timestamp {
    pub secs: i64,
    pub nanos: u32,
}

/// A non-negative span of time: whole seconds and nanoseconds within a second.
#[derive(Clone, Copy, Debug, PartialEq, Eq, Structural)]
pub struct Delay {
    pub secs: u64,
    pub nanos: u32,
}

impl Timestamp {
    /// Nanoseconds within a second, and a second within the calendar's range.
    pub open spec fn wf(self) -> bool {
        &&& self.nanos < NANOS_PER_SEC
        &&& MIN_TIMESTAMP_SECS <= self.secs <= MAX_TIMESTAMP_SECS
    }

    /// The instant as nanoseconds since the epoch.
    pub open spec fn total_nanos(self) -> int {
        self.secs * 1_000_000_000 + self.nanos
    }

    /// Whether `self` is strictly earlier than `other`.
    pub fn is_before(&self, other: &Timestamp) -> (r: bool)
        ensures
            self.wf() && other.wf() ==> (r <==> self.total_nanos() < other.total_nanos()),
            r <==> (self.secs < other.secs || (self.secs == other.secs && self.nanos
                < other.nanos)),
    {
        self.secs < other.secs || (self.secs == other.secs && self.nanos < other.nanos)
    }

    /// The instant `secs` seconds later (earlier when `secs` is negative).
    pub fn plus_seconds(&self, secs: i64) -> (r: Timestamp)
        requires
            self.wf(),
            MIN_TIMESTAMP_SECS <= self.secs + secs <= MAX_TIMESTAMP_SECS,
        ensures
            r.wf(),
            r.secs == self.secs + secs,
            r.nanos == self.nanos,
            r.total_nanos() == self.total_nanos() + secs * 1_000_000_000,
    {
        Timestamp { secs: self.secs + secs, nanos: self.nanos }
    }

    /// The delay from `now` until `self`, or `None` when `self` is earlier
    /// than `now`.
    pub fn delay_since(&self, now: &Timestamp) -> (r: Option<Delay>)
        requires
            self.wf(),
            now.wf(),
        ensures
            r is None <==> self.total_nanos() < now.total_nanos(),
            r is Some ==> r->Some_0.wf() && r->Some_0.total_nanos() == self.total_nanos()
                - now.total_nanos(),
    {
        let mut secs: i64 = self.secs - now.secs;
        let nanos: u32;
        if self.nanos >= now.nanos {
            nanos = self.nanos - now.nanos;
        } else {
            secs = secs - 1;
            nanos = NANOS_PER_SEC - now.nanos + self.nanos;
        }
        if secs < 0 {
            None
        } else {
            Some(Delay { secs: secs as u64, nanos })
        }
    }
}

impl Delay {
    pub open spec fn wf(self) -> bool {
        self.nanos < NANOS_PER_SEC
    }

    pub open spec fn total_nanos(self) -> int {
        self.secs * 1_000_000_000 + self.nanos
    }
}

} // verus!
