use vstd::prelude::*;

pub mod backoff;
pub mod estimator;
pub mod parse;
pub mod retry;
pub mod rng;

verus! {

/// The base unit of delay for the exponential backoff computation, measured
/// in nanoseconds.  A user-specified slot time is pinned by configuration and
/// never changes; an auto-generated one is a running average of observed
/// command latencies, maintained by the estimator.
#[derive(Clone, Copy, Debug, PartialEq, Eq, Structural)]
pub enum SlotTime {
    UserSpecified(u64),
    AutoGenerated(u64),
}

impl SlotTime {
    /// The duration carried by either variant, in nanoseconds.
    pub open spec fn spec_nanos(self) -> u64 {
        match self {
            SlotTime::UserSpecified(d) => d,
            SlotTime::AutoGenerated(d) => d,
        }
    }

    pub fn nanos(&self) -> (r: u64)
        ensures
            r == self.spec_nanos(),
    {
        match self {
            SlotTime::UserSpecified(d) => *d,
            SlotTime::AutoGenerated(d) => *d,
        }
    }
}

/// The conditions under which a run cannot proceed: no command to execute,
/// the child killed by a signal, or an attempt limit that does not parse.
#[derive(Debug, PartialEq, Eq)]
pub enum Error {
    NoCommandGiven,
    ChildProcessTerminatedWithSignal,
    InvalidMaxValue(String),
}

} // verus!
