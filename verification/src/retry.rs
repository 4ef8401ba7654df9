use vstd::prelude::*;
use crate::SlotTime;
use crate::backoff::{delay_nanos, wait_size_truncated, JITTER_SCALE};
use crate::estimator::{update, updated_slot};
use crate::rng::sample_jitter;

verus! {

/// How one completed execution of the command ended: exit code zero, a
/// nonzero exit code, or termination by a signal with no exit code at all.
/// This is a closed set; no other termination mode exists.
#[derive(Clone, Copy, Debug, PartialEq, Eq, Structural)]
pub enum ExitClassification {
    Success,
    Failure(i32),
    SignalTerminated,
}

/// One completed execution as the loop sees it: its classification paired
/// with its wall-clock duration in nanoseconds.
#[derive(Clone, Copy, Debug, PartialEq, Eq, Structural)]
pub struct AttemptRecord {
    pub classification: ExitClassification,
    pub elapsed_nanos: u64,
}

/// What the caller should do after recording one completed attempt: stop
/// with the given verdict, or sleep for the computed delay and try again.
#[derive(Clone, Copy, Debug, PartialEq, Eq, Structural)]
pub enum AttemptOutcome {
    Succeeded,
    FatalSignal,
    Exhausted,
    RetryAfter(u64),
}

/// The status of a whole run: still running (more attempts are allowed and
/// none has settled the matter), or one of the three terminal verdicts.
#[derive(Clone, Copy, Debug, PartialEq, Eq, Structural)]
pub enum RetryStatus {
    Running,
    Succeeded,
    Fatal,
    Exhausted,
}

/// The state the orchestrator threads through the run: the immutable
/// configuration (attempt cap and exponent ceiling) and the two mutable
/// values, the attempt counter and the slot-time estimate.
#[derive(Clone, Copy, Debug, PartialEq, Eq, Structural)]
pub struct RetryLoop {
    pub max: Option<u32>,
    pub exponent_max: u32,
    pub attempts: u32,
    pub slot_time: Option<SlotTime>,
}

/// The exponent ceiling used when the caller does not choose one: at most
/// `2^10 - 1` slot times of maximum jitter window.
pub const DEFAULT_EXPONENT_MAX: u32 = 10;

/// Whether a finite attempt cap has been reached.
pub open spec fn reached_max(max: Option<u32>, attempts: u32) -> bool {
    match max {
        Some(m) => attempts >= m,
        None => false,
    }
}

/// The state a run starts from: no attempts made, and the slot time pinned
/// to the user's choice when one was configured, otherwise left for the
/// estimator to seed.
pub open spec fn initial_state(
    max: Option<u32>,
    user_slot_nanos: Option<u64>,
    exponent_max: u32,
) -> RetryLoop {
    RetryLoop {
        max,
        exponent_max,
        attempts: 0,
        slot_time: match user_slot_nanos {
            Some(d) => Some(SlotTime::UserSpecified(d)),
            None => None,
        },
    }
}

/// One transition of the state machine, after one completed execution.  The
/// attempt counter always advances.  Success and signal termination are
/// terminal at once, the latter skipping backoff entirely; a failure whose
/// attempt was the last one allowed stops as exhausted without computing a
/// delay; any other failure folds the observed latency into the slot-time
/// estimate and prices the next delay from the updated estimate, the
/// post-increment attempt counter and the configured ceiling.
pub open spec fn step_result(s: RetryLoop, rec: AttemptRecord, jitter: u64) -> (RetryLoop, AttemptOutcome)
    recommends
        s.attempts < u32::MAX,
{
    let a2: u32 = (s.attempts + 1) as u32;
    match rec.classification {
        ExitClassification::Success => (
            RetryLoop { attempts: a2, ..s },
            AttemptOutcome::Succeeded,
        ),
        ExitClassification::SignalTerminated => (
            RetryLoop { attempts: a2, ..s },
            AttemptOutcome::FatalSignal,
        ),
        ExitClassification::Failure(_) => {
            if reached_max(s.max, a2) {
                (RetryLoop { attempts: a2, ..s }, AttemptOutcome::Exhausted)
            } else {
                let slot2 = updated_slot(s.slot_time, a2, rec.elapsed_nanos);
                let d: nat = delay_nanos(
                    slot2.spec_nanos() as nat,
                    a2 as nat,
                    s.exponent_max as nat,
                    jitter as nat,
                );
                (
                    RetryLoop { attempts: a2, slot_time: Some(slot2), ..s },
                    AttemptOutcome::RetryAfter(d as u64),
                )
            }
        },
    }
}

impl RetryLoop {
    pub fn new(max: Option<u32>, user_slot_nanos: Option<u64>, exponent_max: u32) -> (r:
        RetryLoop)
        ensures
            r == initial_state(max, user_slot_nanos, exponent_max),
    {
        RetryLoop {
            max,
            exponent_max,
            attempts: 0,
            slot_time: match user_slot_nanos {
                Some(d) => Some(SlotTime::UserSpecified(d)),
                None => None,
            },
        }
    }

    /// The check made before each attempt: whether a configured cap on
    /// attempts has been reached, so that the loop must stop as exhausted.
    pub fn exhausted(&self) -> (r: bool)
        ensures
            r == reached_max(self.max, self.attempts),
    {
        match self.max {
            Some(m) => self.attempts >= m,
            None => false,
        }
    }

    /// Records one completed execution, with the jitter fraction for the
    /// next delay supplied by the caller.  The new state and the outcome
    /// are exactly those of the `step_result` transition.
    pub fn record_attempt_with_jitter(
        &mut self,
        classification: ExitClassification,
        elapsed_nanos: u64,
        jitter: u64,
    ) -> (r: AttemptOutcome)
        requires
            old(self).attempts < u32::MAX,
            jitter <= JITTER_SCALE,
        ensures
            *final(self) == step_result(
                *old(self),
                (AttemptRecord { classification, elapsed_nanos }),
                jitter,
            ).0,
            r == step_result(
                *old(self),
                (AttemptRecord { classification, elapsed_nanos }),
                jitter,
            ).1,
    {
        let a2: u32 = self.attempts + 1;
        self.attempts = a2;
        match classification {
            ExitClassification::Success => AttemptOutcome::Succeeded,
            ExitClassification::SignalTerminated => AttemptOutcome::FatalSignal,
            ExitClassification::Failure(_) => {
                if self.exhausted() {
                    AttemptOutcome::Exhausted
                } else {
                    let slot2 = update(self.slot_time, a2, elapsed_nanos);
                    self.slot_time = Some(slot2);
                    let d: u64 = wait_size_truncated(slot2.nanos(), a2, self.exponent_max, jitter);
                    AttemptOutcome::RetryAfter(d)
                }
            },
        }
    }

    /// Records one completed execution, drawing the jitter fraction from
    /// the thread's generator.  The transition taken is `step_result` for
    /// some jitter below the scale; nothing more is promised of which one.
    pub fn record_attempt(
        &mut self,
        classification: ExitClassification,
        elapsed_nanos: u64,
        rng: &mut rand::rngs::ThreadRng,
    ) -> (r: AttemptOutcome)
        requires
            old(self).attempts < u32::MAX,
        ensures
            exists|j: u64|
                j < JITTER_SCALE && (*final(self) == step_result(
                    *old(self),
                    (AttemptRecord { classification, elapsed_nanos }),
                    j,
                ).0 && r == step_result(
                    *old(self),
                    (AttemptRecord { classification, elapsed_nanos }),
                    j,
                ).1),
    {
        let j: u64 = sample_jitter(rng);
        let r: AttemptOutcome = self.record_attempt_with_jitter(classification, elapsed_nanos, j);
        r
    }
}

/// What a whole run produces, given the sequence of execution results it
/// would observe: the final state, the delays slept between attempts, and
/// the status it ends in.  `Running` means the sequence ran out while the
/// loop would still have gone on.
pub open spec fn script_model(s: RetryLoop, events: Seq<AttemptRecord>, jitter: u64) -> (
    RetryLoop,
    Seq<u64>,
    RetryStatus,
)
    decreases events.len(),
{
    if reached_max(s.max, s.attempts) {
        (s, Seq::<u64>::empty(), RetryStatus::Exhausted)
    } else if events.len() == 0 {
        (s, Seq::<u64>::empty(), RetryStatus::Running)
    } else {
        let stepped = step_result(s, events[0], jitter);
        match stepped.1 {
            AttemptOutcome::Succeeded => (stepped.0, Seq::<u64>::empty(), RetryStatus::Succeeded),
            AttemptOutcome::FatalSignal => (stepped.0, Seq::<u64>::empty(), RetryStatus::Fatal),
            AttemptOutcome::Exhausted => (stepped.0, Seq::<u64>::empty(), RetryStatus::Exhausted),
            AttemptOutcome::RetryAfter(d) => {
                let rest = script_model(stepped.0, events.drop_first(), jitter);
                (rest.0, seq![d] + rest.1, rest.2)
            },
        }
    }
}

/// The result of driving a run to its end (or to the end of the supplied
/// results): how many attempts were made, the delays computed for the
/// continuing iterations in order, and the status the run stopped in.
pub struct RunReport {
    pub attempts: u32,
    pub delays: Vec<u64>,
    pub status: RetryStatus,
}

/// Drives the retry loop over a given sequence of execution results with a
/// fixed jitter fraction, and reports exactly what the state machine's
/// model prescribes: the attempt count and delays of `script_model` from
/// the initial state.
pub fn run_script(
    max: Option<u32>,
    user_slot_nanos: Option<u64>,
    exponent_max: u32,
    jitter: u64,
    events: &Vec<AttemptRecord>,
) -> (report: RunReport)
    requires
        jitter <= JITTER_SCALE,
        events@.len() < u32::MAX,
    ensures
        ({
            let whole = script_model(
                initial_state(max, user_slot_nanos, exponent_max),
                events@,
                jitter,
            );
            report.attempts == whole.0.attempts && report.delays@ == whole.1 && report.status
                == whole.2
        }),
{
    let mut engine = RetryLoop::new(max, user_slot_nanos, exponent_max);
    let mut delays: Vec<u64> = Vec::new();
    let mut status = RetryStatus::Running;
    let mut i: usize = 0;
    let ghost whole = script_model(initial_state(max, user_slot_nanos, exponent_max), events@, jitter);
    proof {
        assert(events@.skip(0) =~= events@);
        assert(delays@ + script_model(engine, events@, jitter).1 =~= script_model(
            engine,
            events@,
            jitter,
        ).1);
    }
    loop
        invariant_except_break
            ({
                let rest = script_model(engine, events@.skip(i as int), jitter);
                whole == (rest.0, delays@ + rest.1, rest.2)
            }),
        invariant
            jitter <= JITTER_SCALE,
            i <= events@.len() < u32::MAX,
            engine.attempts == i,
        ensures
            whole == (engine, delays@, status),
        decreases events@.len() - i,
    {
        if engine.exhausted() {
            status = RetryStatus::Exhausted;
            proof {
                assert(delays@ + Seq::<u64>::empty() =~= delays@);
            }
            break;
        }
        if i == events.len() {
            status = RetryStatus::Running;
            proof {
                assert(events@.skip(i as int).len() == 0);
                assert(delays@ + Seq::<u64>::empty() =~= delays@);
            }
            break;
        }
        let ghost i_pre: int = i as int;
        let rec = events[i];
        let out = engine.record_attempt_with_jitter(rec.classification, rec.elapsed_nanos, jitter);
        i = i + 1;
        proof {
            assert(events@.skip(i_pre)[0] == events@[i_pre]);
            assert(events@.skip(i_pre).drop_first() =~= events@.skip(i_pre + 1));
        }
        match out {
            AttemptOutcome::Succeeded => {
                status = RetryStatus::Succeeded;
                proof {
                    assert(delays@ + Seq::<u64>::empty() =~= delays@);
                }
                break;
            },
            AttemptOutcome::FatalSignal => {
                status = RetryStatus::Fatal;
                proof {
                    assert(delays@ + Seq::<u64>::empty() =~= delays@);
                }
                break;
            },
            AttemptOutcome::Exhausted => {
                status = RetryStatus::Exhausted;
                proof {
                    assert(delays@ + Seq::<u64>::empty() =~= delays@);
                }
                break;
            },
            AttemptOutcome::RetryAfter(d) => {
                let ghost delays_pre = delays@;
                delays.push(d);
                proof {
                    let rest = script_model(engine, events@.skip(i as int), jitter);
                    assert(delays_pre + (seq![d] + rest.1) =~= delays@ + rest.1);
                }
            },
        }
    }
    RunReport { attempts: engine.attempts, delays, status }
}

} // verus!
