use vstd::prelude::*;

verus! {

/// A length of time: whole seconds, and the nanoseconds beyond them.
#[derive(Clone, Copy, Debug, PartialEq, Eq, PartialOrd, Ord, Hash, Default)]
pub struct TimeSpan {
    pub secs: u64,
    pub nanos: u32,
}

impl TimeSpan {
    /// The nanoseconds stay below one second.
    pub open spec fn wf(&self) -> bool {
        self.nanos < 1_000_000_000
    }

    /// `secs` whole seconds.
    pub fn from_secs(secs: u64) -> (r: Self)
        ensures
            r.wf(),
            r.secs == secs,
            r.nanos == 0,
    {
        TimeSpan { secs, nanos: 0 }
    }

    /// `millis` milliseconds.
    pub fn from_millis(millis: u64) -> (r: Self)
        ensures
            r.wf(),
            r.secs == millis / 1000,
            r.nanos == (millis % 1000) * 1_000_000,
    {
        TimeSpan { secs: millis / 1000, nanos: ((millis % 1000) as u32) * 1_000_000 }
    }

    /// The whole seconds.
    pub fn as_secs(&self) -> (r: u64)
        ensures
            r == self.secs,
    {
        self.secs
    }
}

} // verus!
