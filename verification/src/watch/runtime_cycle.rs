//! Where the watch loop learns of changes: live observations, or regular scans where those
//! are not to be had. Times are in milliseconds.

use crate::text::quoted;
use vstd::prelude::*;

verus! {

use crate::arith::{max_int, min_int};

/// The longest that a request may have to wait for the loop.
pub const CONTROL_RESPONSE_SLICE_MS: u64 = 16;

/// How the loop waits, by the interval that it was started with.
#[derive(Clone, Copy, Debug, PartialEq, Eq, Structural)]
pub struct CycleTimes {
    pub poll_interval: u64,
    pub observer_wait_slice: u64,
    pub initial_snapshot_timeout: u64,
    pub fallback_scan_interval: u64,
}

pub fn cycle_times(interval_ms: u64) -> (r: CycleTimes)
    ensures
        r.poll_interval == max_int(interval_ms as int, 1),
        r.observer_wait_slice == min_int(r.poll_interval as int, CONTROL_RESPONSE_SLICE_MS as int),
        r.initial_snapshot_timeout == max_int(interval_ms as int, 5000),
        r.fallback_scan_interval == max_int(interval_ms as int, 1000),
{
    let poll_interval: u64 = if interval_ms < 1 {
        1
    } else {
        interval_ms
    };
    CycleTimes {
        poll_interval,
        observer_wait_slice: if poll_interval < CONTROL_RESPONSE_SLICE_MS {
            poll_interval
        } else {
            CONTROL_RESPONSE_SLICE_MS
        },
        initial_snapshot_timeout: if interval_ms < 5000 {
            5000
        } else {
            interval_ms
        },
        fallback_scan_interval: if interval_ms < 1000 {
            1000
        } else {
            interval_ms
        },
    }
}

/// Whether live observations are to be had, and when the next scan is due otherwise.
#[derive(Clone, Copy, Debug, PartialEq, Eq, Structural)]
pub struct CycleState {
    pub observing: bool,
    pub next_poll_deadline: u64,
}

/// What a cycle starts with.
#[derive(Clone, Copy, Debug, PartialEq, Eq, Structural)]
pub enum CycleStep {
    /// Wait at most so long for an observation.
    Observe { millis: u64 },
    /// The next scan is not due: sleep so long. The cycle is over.
    Sleep { millis: u64 },
    /// Scan all windows.
    Scan,
}

/// What waiting for an observation came to.
#[derive(Clone, Debug, PartialEq, Eq)]
pub enum ObservationOutcome {
    Received,
    Timeout,
    Lost(String),
}

/// What follows.
#[derive(Clone, Debug, PartialEq, Eq)]
pub enum AfterObservation {
    /// Apply the observation.
    Apply,
    /// There is nothing to do: the cycle is over.
    NoWork,
    /// Tell the user why there will be no more observations, and scan all windows.
    Scan { warning: String },
}

/// What applying an observation or scanning came to.
#[derive(Clone, Copy, Debug, PartialEq, Eq, Structural)]
pub enum CycleOutcome {
    Reported,
    NothingNew,
    Failed,
}

/// How the loop goes on after a cycle.
#[derive(Clone, Copy, Debug, PartialEq, Eq, Structural)]
pub enum RuntimeCycleFlow {
    NoWork,
    IterationRecorded,
    Exit(u8),
}

impl CycleState {
    pub open spec fn first_step(self, times: CycleTimes, now: u64) -> CycleStep {
        if self.observing {
            CycleStep::Observe { millis: times.observer_wait_slice }
        } else if now < self.next_poll_deadline {
            CycleStep::Sleep {
                millis: min_int(
                    self.next_poll_deadline - now,
                    CONTROL_RESPONSE_SLICE_MS as int,
                ) as u64,
            }
        } else {
            CycleStep::Scan
        }
    }

    /// Starts a cycle.
    pub fn begin_cycle(&self, times: CycleTimes, now: u64) -> (r: CycleStep)
        ensures
            r == self.first_step(times, now),
    {
        if self.observing {
            return CycleStep::Observe { millis: times.observer_wait_slice };
        }
        if now < self.next_poll_deadline {
            let remaining: u64 = self.next_poll_deadline - now;
            return CycleStep::Sleep {
                millis: if remaining < CONTROL_RESPONSE_SLICE_MS {
                    remaining
                } else {
                    CONTROL_RESPONSE_SLICE_MS
                },
            };
        }
        CycleStep::Scan
    }

    /// Goes on after a wait for an observation. Observations that are lost do not come back.
    pub fn after_observation(&mut self, outcome: ObservationOutcome) -> (r: AfterObservation)
        ensures
            final(self).next_poll_deadline == old(self).next_poll_deadline,
            match outcome {
                ObservationOutcome::Received => r is Apply && final(self).observing == old(
                    self,
                ).observing,
                ObservationOutcome::Timeout => r is NoWork && final(self).observing == old(
                    self,
                ).observing,
                ObservationOutcome::Lost(error) => !final(self).observing && r is Scan
                    && (r->warning)@ == "live observation became unavailable: "@ + error@
                    + "; switching to polling"@,
            },
    {
        match outcome {
            ObservationOutcome::Received => AfterObservation::Apply,
            ObservationOutcome::Timeout => AfterObservation::NoWork,
            ObservationOutcome::Lost(error) => {
                self.observing = false;
                AfterObservation::Scan {
                    warning: quoted(
                        "live observation became unavailable: ",
                        error.as_str(),
                        "; switching to polling",
                    ),
                }
            },
        }
    }

    /// Ends a cycle that scanned the windows or applied an observation. A scan that reported
    /// something sets the time of the next one.
    pub fn finish_cycle(
        &mut self,
        times: CycleTimes,
        scanned: bool,
        outcome: CycleOutcome,
        now: u64,
    ) -> (r: RuntimeCycleFlow)
        requires
            outcome is Reported && scanned && !old(self).observing ==> now + times.poll_interval
                <= u64::MAX,
        ensures
            r == (match outcome {
                CycleOutcome::Reported => RuntimeCycleFlow::IterationRecorded,
                CycleOutcome::NothingNew => RuntimeCycleFlow::NoWork,
                CycleOutcome::Failed => RuntimeCycleFlow::Exit(1),
            }),
            final(self).observing == old(self).observing,
            final(self).next_poll_deadline == (if outcome is Reported && scanned && !old(
                self,
            ).observing {
                (now + times.poll_interval) as u64
            } else {
                old(self).next_poll_deadline
            }),
    {
        match outcome {
            CycleOutcome::Reported => {
                if !self.observing && scanned {
                    self.next_poll_deadline = now + times.poll_interval;
                }
                RuntimeCycleFlow::IterationRecorded
            },
            CycleOutcome::NothingNew => RuntimeCycleFlow::NoWork,
            CycleOutcome::Failed => RuntimeCycleFlow::Exit(1),
        }
    }

    /// Goes on after the wait for the first observation. Without one the loop scans instead,
    /// and the user is told why.
    pub fn after_initial_observation(&mut self, outcome: ObservationOutcome) -> (r: Option<String>)
        ensures
            final(self).next_poll_deadline == old(self).next_poll_deadline,
            match outcome {
                ObservationOutcome::Received => r is None && final(self).observing == old(
                    self,
                ).observing,
                ObservationOutcome::Timeout => !final(self).observing && r is Some && (r->0)@
                    == "live observation did not produce an initial snapshot in time; falling back to polling"@,
                ObservationOutcome::Lost(error) => !final(self).observing && r is Some
                    && (r->0)@ == "live observation failed during startup: "@ + error@
                    + "; falling back to polling"@,
            },
    {
        match outcome {
            ObservationOutcome::Received => None,
            ObservationOutcome::Timeout => {
                self.observing = false;
                Some(
                    "live observation did not produce an initial snapshot in time; falling back to polling".to_owned(),
                )
            },
            ObservationOutcome::Lost(error) => {
                self.observing = false;
                Some(
                    quoted(
                        "live observation failed during startup: ",
                        error.as_str(),
                        "; falling back to polling",
                    ),
                )
            },
        }
    }
}

/// No wait of a cycle is longer than a request may have to wait, however the loop learns of
/// changes; and a scan is made no sooner than it is due.
pub proof fn law_cycles_stay_responsive(state: CycleState, times: CycleTimes, now: u64)
    requires
        times.observer_wait_slice <= CONTROL_RESPONSE_SLICE_MS,
    ensures
        match state.first_step(times, now) {
            CycleStep::Observe { millis } => state.observing && millis
                <= CONTROL_RESPONSE_SLICE_MS,
            CycleStep::Sleep { millis } => !state.observing && 0 < millis
                <= CONTROL_RESPONSE_SLICE_MS && now + millis <= state.next_poll_deadline,
            CycleStep::Scan => !state.observing && now >= state.next_poll_deadline,
        },
{
}

/// The times of a cycle follow from the interval: a scan at most every millisecond, waits of at
/// most 16 milliseconds, at least five seconds for the first snapshot and at least one between
/// the observer's own scans.
pub proof fn law_times_follow_the_interval(interval_ms: u64, times: CycleTimes)
    requires
        call_ensures(cycle_times, (interval_ms,), times),
    ensures
        interval_ms > 0 ==> times.poll_interval == interval_ms,
        interval_ms == 0 ==> times.poll_interval == 1,
        times.observer_wait_slice <= 16 && times.observer_wait_slice <= times.poll_interval,
        times.observer_wait_slice == 16 || times.observer_wait_slice == times.poll_interval,
        times.initial_snapshot_timeout >= 5000 && times.initial_snapshot_timeout >= interval_ms,
        times.initial_snapshot_timeout == 5000 || times.initial_snapshot_timeout == interval_ms,
        times.fallback_scan_interval >= 1000 && times.fallback_scan_interval >= interval_ms,
        times.fallback_scan_interval == 1000 || times.fallback_scan_interval == interval_ms,
{
}

/// A cycle waits for an observation where there are any; else it scans once the scan is due and
/// sleeps until then, but never longer than 16 milliseconds.
pub proof fn law_cycles_observe_scan_or_sleep(state: CycleState, times: CycleTimes, now: u64)
    ensures
        ({
            let step = state.first_step(times, now);
            &&& state.observing ==> step == (CycleStep::Observe {
                millis: times.observer_wait_slice,
            })
            &&& !state.observing && now >= state.next_poll_deadline ==> step == CycleStep::Scan
            &&& !state.observing && now < state.next_poll_deadline ==> (
            step matches CycleStep::Sleep { millis } && millis <= 16 && now + millis
                <= state.next_poll_deadline && (millis == 16 || now + millis
                == state.next_poll_deadline))
        }),
{
}

/// An observation is applied; without one the cycle is over; and where observing fails the
/// windows are scanned from then on, and the user is told why.
pub proof fn law_lost_observation_is_replaced_by_scans(
    state: &mut CycleState,
    outcome: ObservationOutcome,
    r: AfterObservation,
)
    requires
        call_ensures(CycleState::after_observation, (state, outcome), r),
    ensures
        outcome is Received ==> r is Apply && final(state).observing == old(state).observing,
        outcome is Timeout ==> r is NoWork && final(state).observing == old(state).observing,
        outcome matches ObservationOutcome::Lost(error) ==> !final(state).observing && (
        r matches AfterObservation::Scan { warning } && warning@
            == "live observation became unavailable: "@ + error@ + "; switching to polling"@),
        final(state).next_poll_deadline == old(state).next_poll_deadline,
{
}

/// Observing goes on only where the first observation has come in time.
pub proof fn law_the_first_observation_must_come(
    state: &mut CycleState,
    outcome: ObservationOutcome,
    r: Option<String>,
)
    requires
        call_ensures(CycleState::after_initial_observation, (state, outcome), r),
    ensures
        outcome is Received ==> r is None && final(state).observing == old(state).observing,
        outcome is Timeout ==> !final(state).observing && (r matches Some(text) && text@
            == "live observation did not produce an initial snapshot in time; falling back to polling"@),
        outcome matches ObservationOutcome::Lost(error) ==> !final(state).observing && (
        r matches Some(text) && text@ == "live observation failed during startup: "@ + error@
            + "; falling back to polling"@),
        final(state).next_poll_deadline == old(state).next_poll_deadline,
{
}

/// A cycle that reported is counted, one with nothing new is not, and one that failed ends the
/// daemon. The next scan is put off by the interval only after a scan that reported while
/// nothing is observed.
pub proof fn law_cycles_end_with_their_outcome(
    state: &mut CycleState,
    times: CycleTimes,
    scanned: bool,
    outcome: CycleOutcome,
    now: u64,
    r: RuntimeCycleFlow,
)
    requires
        call_ensures(CycleState::finish_cycle, (state, times, scanned, outcome, now), r),
        now + times.poll_interval <= u64::MAX,
    ensures
        outcome is Reported ==> r is IterationRecorded,
        outcome is NothingNew ==> r is NoWork,
        outcome is Failed ==> r == RuntimeCycleFlow::Exit(1),
        final(state).observing == old(state).observing,
        outcome is Reported && scanned && !old(state).observing ==> final(state).next_poll_deadline
            == now + times.poll_interval,
        !(outcome is Reported && scanned && !old(state).observing)
            ==> final(state).next_poll_deadline == old(state).next_poll_deadline,
{
}

} // verus!
