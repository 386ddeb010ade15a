//! The fusion cycle as a state machine.
//!
//! The task that owns the filter alternates between waiting for a sample and
//! fusing it. It tells the machine what happened and does what the machine
//! answers; the machine never waits, reads or writes anything itself.

use vstd::prelude::*;
use crate::error::FusionError;
use crate::period::{remainder_of, Period};

verus! {

/// Where the task stands in its cycle.
#[derive(Clone, Copy, Debug, PartialEq, Eq, Structural)]
pub enum Phase {
    /// Suspended until the source delivers the next sample.
    AwaitingSample,
    /// A sample is in hand: the filter runs and the result is emitted.
    Fusing,
}

/// How the fusing of one sample ended.
#[derive(Clone, Copy, Debug, PartialEq, Eq, Structural)]
pub enum CycleOutcome {
    /// The orientation was handed to the sink.
    Published,
    /// The sink refused the orientation.
    PublishFailed,
    /// A value that is not finite turned up; nothing was emitted.
    Unstable,
}

/// What the task reports to the machine.
#[derive(Clone, Copy, Debug, PartialEq, Eq, Structural)]
pub enum Event {
    /// The source delivered a sample.
    SampleArrived,
    /// The source is closed or failed.
    SampleUnavailable,
    /// The fusing of the sample in hand is over, `elapsed_ms` after the
    /// sample arrived.
    CycleFinished { outcome: CycleOutcome, elapsed_ms: u64 },
}

/// What the machine tells the task to do next.
#[derive(Clone, Copy, Debug, PartialEq, Eq, Structural)]
pub enum Action {
    /// Scale the sample, run the filter on it, convert and emit the result.
    Fuse,
    /// Rest for `sleep_ms`, then wait for the next sample. `overrun` says
    /// that the cycle took longer than the period; `notice` names a failure
    /// of the cycle that is to be reported and survived. On
    /// `NumericInstability` the filter is to be set back to its initial
    /// state before the next sample.
    Rest { sleep_ms: u64, overrun: bool, notice: Option<FusionError> },
    /// The source failed and may fail a few times more: give up the cycle,
    /// wait for `backoff_ms` and ask the source again.
    Retry { backoff_ms: u64 },
    /// Give up and hand the error to whoever started the task.
    Halt(FusionError),
    /// The event does not belong to the phase; nothing is to be done.
    Ignore,
}

/// The failure that the outcome of a cycle leaves to report, if any.
pub open spec fn notice_of(outcome: CycleOutcome) -> Option<FusionError> {
    match outcome {
        CycleOutcome::Published => None,
        CycleOutcome::PublishFailed => Some(FusionError::PublishFailure),
        CycleOutcome::Unstable => Some(FusionError::NumericInstability),
    }
}

/// The phase that follows `phase` on `event`.
pub open spec fn next_phase(phase: Phase, event: Event) -> Phase {
    match (phase, event) {
        (Phase::AwaitingSample, Event::SampleArrived) => Phase::Fusing,
        (Phase::Fusing, Event::CycleFinished { .. }) => Phase::AwaitingSample,
        _ => phase,
    }
}

/// The number of failures of the source in a row after `event`, when it was
/// `failures` before and at most `limit` of them are forgiven: a sample sets
/// it back to zero, a failure that is forgiven adds one, and nothing else
/// touches it.
pub open spec fn next_failures(phase: Phase, failures: nat, limit: nat, event: Event) -> nat {
    match (phase, event) {
        (Phase::AwaitingSample, Event::SampleArrived) => 0,
        (Phase::AwaitingSample, Event::SampleUnavailable) => if failures < limit {
            failures + 1
        } else {
            failures
        },
        _ => failures,
    }
}

/// The answer to `event` in `phase` when the period is `period` milliseconds
/// and the source has failed `failures` times in a row, of which at most
/// `limit` are forgiven.
pub open spec fn action_for(
    phase: Phase,
    period: int,
    failures: nat,
    limit: nat,
    event: Event,
) -> Action {
    match (phase, event) {
        (Phase::AwaitingSample, Event::SampleArrived) => Action::Fuse,
        (Phase::AwaitingSample, Event::SampleUnavailable) => if failures < limit {
            Action::Retry { backoff_ms: period as u64 }
        } else {
            Action::Halt(FusionError::SampleUnavailable)
        },
        (Phase::Fusing, Event::CycleFinished { outcome, elapsed_ms }) => Action::Rest {
            sleep_ms: remainder_of(period, elapsed_ms as int) as u64,
            overrun: elapsed_ms > period,
            notice: notice_of(outcome),
        },
        _ => Action::Ignore,
    }
}

/// The number of failures in a row that the machine has counted once the
/// source has failed `n` times running since the last sample.
pub open spec fn failures_after(limit: nat, n: nat) -> nat
    decreases n,
{
    if n == 0 {
        0
    } else {
        next_failures(
            Phase::AwaitingSample,
            failures_after(limit, (n - 1) as nat),
            limit,
            Event::SampleUnavailable,
        )
    }
}

/// The machine: a period and a number of forgiven failures, both fixed for
/// good, the current phase, and the failures of the source in a row.
#[derive(Clone, Copy, Debug, PartialEq, Eq, Structural)]
pub struct FusionLoop {
    period: Period,
    phase: Phase,
    retry_limit: u32,
    failures: u32,
}

impl FusionLoop {
    #[verifier::type_invariant]
    spec fn within_limit(self) -> bool {
        self.failures <= self.retry_limit
    }

    /// The period in milliseconds.
    pub closed spec fn period_ms(&self) -> int {
        self.period@
    }

    /// The current phase.
    pub closed spec fn phase(&self) -> Phase {
        self.phase
    }

    /// How many failures of the source in a row are forgiven.
    pub closed spec fn retry_limit(&self) -> nat {
        self.retry_limit as nat
    }

    /// How often the source has failed in a row.
    pub closed spec fn failures(&self) -> nat {
        self.failures as nat
    }

    /// A machine that waits for its first sample and forgives the source no
    /// failure, or the refusal of a period that is zero or negative.
    pub fn new(period_ms: i64) -> (r: Result<FusionLoop, FusionError>)
        ensures
            period_ms > 0 <==> r is Ok,
            period_ms <= 0 <==> r == Err::<FusionLoop, FusionError>(
                FusionError::InvalidConfiguration,
            ),
            r is Ok ==> {
                &&& r->Ok_0.period_ms() == period_ms
                &&& r->Ok_0.phase() == Phase::AwaitingSample
                &&& r->Ok_0.retry_limit() == 0
                &&& r->Ok_0.failures() == 0
            },
    {
        Self::with_retries(period_ms, 0)
    }

    /// A machine that waits for its first sample and forgives the source
    /// `retry_limit` failures in a row, or the refusal of a period that is
    /// zero or negative.
    pub fn with_retries(period_ms: i64, retry_limit: u32) -> (r: Result<FusionLoop, FusionError>)
        ensures
            period_ms > 0 <==> r is Ok,
            period_ms <= 0 <==> r == Err::<FusionLoop, FusionError>(
                FusionError::InvalidConfiguration,
            ),
            r is Ok ==> {
                &&& r->Ok_0.period_ms() == period_ms
                &&& r->Ok_0.phase() == Phase::AwaitingSample
                &&& r->Ok_0.retry_limit() == retry_limit
                &&& r->Ok_0.failures() == 0
            },
    {
        match Period::from_millis(period_ms) {
            Ok(period) => Ok(
                FusionLoop { period, phase: Phase::AwaitingSample, retry_limit, failures: 0 },
            ),
            Err(_) => Err(FusionError::InvalidConfiguration),
        }
    }

    /// The period, which is both the cadence of the loop and the step over
    /// which the filter integrates.
    pub fn period(&self) -> (r: Period)
        ensures
            r@ == self.period_ms(),
    {
        self.period
    }

    /// The current phase.
    pub fn current_phase(&self) -> (r: Phase)
        ensures
            r == self.phase(),
    {
        self.phase
    }

    /// How often the source has failed in a row; never more than is
    /// forgiven.
    pub fn failures_in_a_row(&self) -> (r: u32)
        ensures
            r == self.failures(),
            r <= self.retry_limit(),
    {
        proof {
            use_type_invariant(self);
        }
        self.failures
    }

    /// Takes one event, moves to the next phase and answers with what is to
    /// be done. The period and the number of forgiven failures never change.
    pub fn step(&mut self, event: Event) -> (r: Action)
        ensures
            r == action_for(
                old(self).phase(),
                old(self).period_ms(),
                old(self).failures(),
                old(self).retry_limit(),
                event,
            ),
            final(self).phase() == next_phase(old(self).phase(), event),
            final(self).failures() == next_failures(
                old(self).phase(),
                old(self).failures(),
                old(self).retry_limit(),
                event,
            ),
            final(self).period_ms() == old(self).period_ms(),
            final(self).retry_limit() == old(self).retry_limit(),
    {
        proof {
            use_type_invariant(&*self);
        }
        match self.phase {
            Phase::AwaitingSample => match event {
                Event::SampleArrived => {
                    self.failures = 0;
                    self.phase = Phase::Fusing;
                    Action::Fuse
                },
                Event::SampleUnavailable => {
                    if self.failures < self.retry_limit {
                        self.failures = self.failures + 1;
                        Action::Retry { backoff_ms: self.period.as_millis() }
                    } else {
                        Action::Halt(FusionError::SampleUnavailable)
                    }
                },
                Event::CycleFinished { .. } => Action::Ignore,
            },
            Phase::Fusing => match event {
                Event::CycleFinished { outcome, elapsed_ms } => {
                    let sleep_ms: u64 = self.period.remaining(elapsed_ms);
                    let overrun = self.period.overrun(elapsed_ms);
                    let notice = match outcome {
                        CycleOutcome::Published => None,
                        CycleOutcome::PublishFailed => Some(FusionError::PublishFailure),
                        CycleOutcome::Unstable => Some(FusionError::NumericInstability),
                    };
                    self.phase = Phase::AwaitingSample;
                    Action::Rest { sleep_ms, overrun, notice }
                },
                _ => Action::Ignore,
            },
        }
    }
}

/// A sample that arrives while the machine waits is fused, and the end of
/// that cycle, however it went, brings the machine back to waiting with an
/// order to rest: the cycle has no other way out.
pub proof fn lemma_cycle_closes(
    period: int,
    failures: nat,
    limit: nat,
    outcome: CycleOutcome,
    elapsed_ms: u64,
)
    requires
        period > 0,
    ensures
        action_for(Phase::AwaitingSample, period, failures, limit, Event::SampleArrived)
            == Action::Fuse,
        next_phase(Phase::AwaitingSample, Event::SampleArrived) == Phase::Fusing,
        next_failures(Phase::AwaitingSample, failures, limit, Event::SampleArrived) == 0,
        action_for(
            Phase::Fusing,
            period,
            0,
            limit,
            Event::CycleFinished { outcome, elapsed_ms },
        ) is Rest,
        next_phase(Phase::Fusing, Event::CycleFinished { outcome, elapsed_ms })
            == Phase::AwaitingSample,
{
}

/// The machine gives up in one case only: the source fails while a sample is
/// awaited and every forgiven failure is used up. No outcome of a cycle, no
/// overrun and no misplaced event ends the task.
pub proof fn lemma_halts_only_without_sample(
    phase: Phase,
    period: int,
    failures: nat,
    limit: nat,
    event: Event,
)
    requires
        failures <= limit,
    ensures
        action_for(phase, period, failures, limit, event) is Halt <==> phase
            == Phase::AwaitingSample && event == Event::SampleUnavailable && failures == limit,
        action_for(phase, period, failures, limit, event) is Halt ==> action_for(
            phase,
            period,
            failures,
            limit,
            event,
        ) == Action::Halt(FusionError::SampleUnavailable),
        action_for(phase, period, failures, limit, event) is Retry <==> phase
            == Phase::AwaitingSample && event == Event::SampleUnavailable && failures < limit,
        next_failures(phase, failures, limit, event) <= limit,
{
}

/// When the source fails time after time, the machine counts the failures up
/// to the number it forgives and no further: after `n` failures in a row the
/// count is the smaller of `n` and `limit`. So the first `limit` failures are
/// answered with a retry after one period, and the next one ends the task.
pub proof fn lemma_retries_are_bounded(period: int, limit: nat, n: nat)
    requires
        0 < period <= u64::MAX,
    ensures
        failures_after(limit, n) == if n < limit {
            n
        } else {
            limit
        },
        n < limit ==> action_for(
            Phase::AwaitingSample,
            period,
            failures_after(limit, n),
            limit,
            Event::SampleUnavailable,
        ) == (Action::Retry { backoff_ms: period as u64 }),
        n >= limit ==> action_for(
            Phase::AwaitingSample,
            period,
            failures_after(limit, n),
            limit,
            Event::SampleUnavailable,
        ) == Action::Halt(FusionError::SampleUnavailable),
    decreases n,
{
    if n > 0 {
        lemma_retries_are_bounded(period, limit, (n - 1) as nat);
    }
}

/// The rest that the machine orders and the time that the cycle took add up
/// to the period, unless the cycle overran it; then the rest is zero and the
/// overrun is flagged. A failure that the order carries is never a fatal one.
pub proof fn lemma_rest_keeps_cadence(
    period: int,
    failures: nat,
    limit: nat,
    outcome: CycleOutcome,
    elapsed_ms: u64,
)
    requires
        0 < period <= u64::MAX,
    ensures
        ({
            let a = action_for(
                Phase::Fusing,
                period,
                failures,
                limit,
                Event::CycleFinished { outcome, elapsed_ms },
            );
            &&& a is Rest
            &&& a->overrun == (elapsed_ms > period)
            &&& !a->overrun ==> a->sleep_ms + elapsed_ms == period
            &&& a->overrun ==> a->sleep_ms == 0
            &&& a->notice == notice_of(outcome)
            &&& a->notice is Some ==> !a->notice->Some_0.fatal()
        }),
{
}

/// An event that does not belong to the phase, and the failure that ends the
/// task, change nothing.
pub proof fn lemma_misplaced_event_ignored(
    phase: Phase,
    period: int,
    failures: nat,
    limit: nat,
    event: Event,
)
    ensures
        action_for(phase, period, failures, limit, event) == Action::Ignore ==> next_phase(
            phase,
            event,
        ) == phase && next_failures(phase, failures, limit, event) == failures,
        action_for(phase, period, failures, limit, event) is Halt ==> next_phase(phase, event)
            == phase && next_failures(phase, failures, limit, event) == failures,
{
}

} // verus!
