//! One tracking attempt for one process, and what each input does to it.

use vstd::prelude::*;
use crate::accumulator::{
    advance, advance_spec, anchor_before, credit, elapsed_between, lemma_credit_twice,
    total_elapsed,
};
use crate::sample::{DurationSample, ProcessStatus};

verus! {

/// The period of a sampler's timer: 200 milliseconds.
pub const REFRESH_INTERVAL: u64 = 200_000_000;

/// The state of one tracking attempt.
#[derive(Clone, Copy, Debug, PartialEq, Eq, Structural)]
pub struct TrackedSession {
    /// The operating system's identifier of the tracked process.
    pub process_id: u32,
    /// The identity of the sampler that serves this session.
    pub cancellation_handle: u64,
    /// The running time credited so far.
    pub accumulated_duration: u64,
    /// The instant from which the next credit is measured.
    pub last_sample_instant: u64,
    /// While set, nothing is credited.
    pub paused: bool,
    /// Set for good once the process has been seen absent.
    pub ended: bool,
}

/// What a sampler does on one timer tick.
#[derive(Clone, Copy, Debug, PartialEq, Eq, Structural)]
pub enum TickPlan {
    /// Leave the loop: the sampler is cancelled, stale, or its process is gone.
    Exit,
    /// Tracking is paused: take no sample and wait for the next tick.
    Idle,
    /// Probe the process and hand in the sample.
    Probe,
}

/// An input to a session, for stating what holds of whole histories.
pub enum SessionInput {
    /// A timer tick at the given instant.
    Tick(u64),
    /// A probe result.
    Sample(DurationSample),
    Pause,
    /// A resume command issued at the given instant.
    Resume(u64),
}

impl TrackedSession {
    /// A fresh session: nothing credited, anchored at `now`, not paused.
    pub open spec fn begun(process_id: u32, cancellation_handle: u64, now: u64) -> Self {
        TrackedSession {
            process_id,
            cancellation_handle,
            accumulated_duration: 0,
            last_sample_instant: now,
            paused: false,
            ended: false,
        }
    }

    /// Pausing freezes a live session; an ended one is left alone.
    pub open spec fn after_pause(self) -> Self {
        if self.ended {
            self
        } else {
            TrackedSession { paused: true, ..self }
        }
    }

    /// Resuming a paused live session moves the anchor to the resume instant,
    /// so that nothing from before it is credited. Otherwise nothing changes.
    pub open spec fn after_resume(self, now: u64) -> Self {
        if !self.ended && self.paused {
            TrackedSession { paused: false, last_sample_instant: now, ..self }
        } else {
            self
        }
    }

    /// What the sampler does on a tick.
    pub open spec fn tick_plan(self) -> TickPlan {
        if self.ended {
            TickPlan::Exit
        } else if self.paused {
            TickPlan::Idle
        } else {
            TickPlan::Probe
        }
    }

    /// A tick moves the anchor of a paused live session and does nothing else.
    pub open spec fn after_tick(self, now: u64) -> Self {
        if !self.ended && self.paused {
            TrackedSession { last_sample_instant: now, ..self }
        } else {
            self
        }
    }

    /// A sample runs one accumulator step on a live session; an `Absent` one
    /// ends it, and a single one is enough. An ended session ignores every
    /// sample.
    pub open spec fn after_sample(self, sample: DurationSample) -> Self {
        if self.ended {
            self
        } else {
            let next = advance_spec(
                self.accumulated_duration,
                self.last_sample_instant,
                self.paused,
                sample,
            );
            if next.terminate {
                TrackedSession { ended: true, ..self }
            } else {
                TrackedSession {
                    accumulated_duration: next.duration,
                    last_sample_instant: next.instant,
                    ..self
                }
            }
        }
    }

    /// The session after one input.
    pub open spec fn after_input(self, input: SessionInput) -> Self {
        match input {
            SessionInput::Tick(now) => self.after_tick(now),
            SessionInput::Sample(sample) => self.after_sample(sample),
            SessionInput::Pause => self.after_pause(),
            SessionInput::Resume(now) => self.after_resume(now),
        }
    }

    /// The session after a history of inputs, oldest first.
    pub open spec fn after_inputs(self, inputs: Seq<SessionInput>) -> Self
        decreases inputs.len(),
    {
        if inputs.len() == 0 {
            self
        } else {
            self.after_inputs(inputs.drop_last()).after_input(inputs.last())
        }
    }

    /// The session after a history of samples, oldest first.
    pub open spec fn after_samples(self, samples: Seq<DurationSample>) -> Self
        decreases samples.len(),
    {
        if samples.len() == 0 {
            self
        } else {
            self.after_samples(samples.drop_last()).after_sample(samples.last())
        }
    }

    /// Starts a session for `process_id` at `now`.
    pub fn begin(process_id: u32, cancellation_handle: u64, now: u64) -> (session: Self)
        ensures
            session == Self::begun(process_id, cancellation_handle, now),
    {
        TrackedSession {
            process_id,
            cancellation_handle,
            accumulated_duration: 0,
            last_sample_instant: now,
            paused: false,
            ended: false,
        }
    }

    /// Freezes accumulation.
    pub fn pause(&mut self)
        ensures
            *final(self) == old(self).after_pause(),
    {
        if !self.ended {
            self.paused = true;
        }
    }

    /// Lifts a pause at `now`.
    pub fn resume(&mut self, now: u64)
        ensures
            *final(self) == old(self).after_resume(now),
    {
        if !self.ended && self.paused {
            self.paused = false;
            self.last_sample_instant = now;
        }
    }

    /// Handles a timer tick at `now` and says what the sampler does next.
    pub fn tick(&mut self, now: u64) -> (plan: TickPlan)
        ensures
            *final(self) == old(self).after_tick(now),
            plan == old(self).tick_plan(),
    {
        if self.ended {
            TickPlan::Exit
        } else if self.paused {
            self.last_sample_instant = now;
            TickPlan::Idle
        } else {
            TickPlan::Probe
        }
    }

    /// Takes in a probe result. Returns whether the session is still live.
    pub fn absorb(&mut self, sample: DurationSample) -> (live: bool)
        ensures
            *final(self) == old(self).after_sample(sample),
            live == !final(self).ended,
    {
        if self.ended {
            return false;
        }
        let next = advance(
            self.accumulated_duration,
            self.last_sample_instant,
            self.paused,
            sample,
        );
        if next.terminate {
            self.ended = true;
            false
        } else {
            self.accumulated_duration = next.duration;
            self.last_sample_instant = next.instant;
            true
        }
    }
}

/// No input lowers the accumulated duration, and none but a sample changes it.
pub proof fn law_input_never_decreases(session: TrackedSession, input: SessionInput)
    ensures
        session.after_input(input).accumulated_duration >= session.accumulated_duration,
        !(input is Sample) ==> session.after_input(input).accumulated_duration
            == session.accumulated_duration,
        session.after_input(input).process_id == session.process_id,
        session.after_input(input).cancellation_handle == session.cancellation_handle,
        session.ended ==> session.after_input(input) == session,
{
}

/// Over any history of inputs the accumulated duration never decreases: the
/// total after the first `k` inputs is at most the total after all of them.
pub proof fn law_accumulated_never_decreases(
    session: TrackedSession,
    inputs: Seq<SessionInput>,
    k: int,
)
    requires
        0 <= k <= inputs.len(),
    ensures
        session.after_inputs(inputs.take(k)).accumulated_duration <= session.after_inputs(
            inputs,
        ).accumulated_duration,
    decreases inputs.len(),
{
    if k == inputs.len() {
        assert(inputs.take(k) =~= inputs);
    } else {
        let front = inputs.drop_last();
        assert(front.take(k) =~= inputs.take(k));
        law_accumulated_never_decreases(session, front, k);
        law_input_never_decreases(session.after_inputs(front), inputs.last());
    }
}

/// While tracking is not paused and every sample finds the process running,
/// the accumulated duration is the starting total plus the sum of the clock
/// deltas between consecutive samples (held at the largest representable
/// value), the anchor follows the latest sample, and the total after the first
/// `k` samples is at most the total after all of them.
pub proof fn law_running_time_is_credited(
    session: TrackedSession,
    samples: Seq<DurationSample>,
    k: int,
)
    requires
        !session.ended,
        !session.paused,
        forall|i: int| 0 <= i < samples.len() ==> samples[i].status == ProcessStatus::Running,
        0 <= k <= samples.len(),
    ensures
        session.after_samples(samples).accumulated_duration == credit(
            session.accumulated_duration,
            total_elapsed(session.last_sample_instant, samples),
        ),
        session.after_samples(samples).last_sample_instant == anchor_before(
            session.last_sample_instant,
            samples,
            samples.len() as int,
        ),
        !session.after_samples(samples).ended,
        !session.after_samples(samples).paused,
        session.after_samples(samples.take(k)).accumulated_duration <= session.after_samples(
            samples,
        ).accumulated_duration,
    decreases samples.len(),
{
    if samples.len() == 0 {
        assert(samples.take(k) =~= samples);
    } else {
        let front = samples.drop_last();
        let j = if k == samples.len() {
            k - 1
        } else {
            k
        };
        law_running_time_is_credited(session, front, j);
        let mid = session.after_samples(front);
        lemma_credit_twice(
            session.accumulated_duration,
            total_elapsed(session.last_sample_instant, front),
            elapsed_between(mid.last_sample_instant, samples.last().timestamp),
        );
        assert(mid.last_sample_instant == anchor_before(
            session.last_sample_instant,
            samples,
            samples.len() - 1,
        )) by {
            if front.len() > 0 {
                assert(front[front.len() - 1] == samples[samples.len() - 2]);
            }
        }
        if k == samples.len() {
            assert(samples.take(k) =~= samples);
        } else {
            assert(front.take(k) =~= samples.take(k));
        }
    }
}

/// Nothing is credited between a pause and the next resume, however long
/// the pause lasts and whatever the probes report meanwhile. A session that
/// is still live at the resume is then anchored at the resume instant.
pub proof fn law_pause_credits_nothing(
    session: TrackedSession,
    during: Seq<SessionInput>,
    resume_at: u64,
)
    requires
        forall|i: int| 0 <= i < during.len() ==> !(during[i] is Resume),
    ensures
        session.after_pause().after_inputs(during).accumulated_duration
            == session.accumulated_duration,
        session.after_pause().after_inputs(during).after_resume(resume_at).accumulated_duration
            == session.accumulated_duration,
        !session.ended ==> session.after_pause().after_inputs(during).paused,
        !session.after_pause().after_inputs(during).ended ==> {
            let resumed = session.after_pause().after_inputs(during).after_resume(resume_at);
            &&& !resumed.paused
            &&& resumed.last_sample_instant == resume_at
        },
    decreases during.len(),
{
    if during.len() > 0 {
        let front = during.drop_last();
        assert forall|i: int| 0 <= i < front.len() implies !(front[i] is Resume) by {
            assert(front[i] == during[i]);
        }
        law_pause_credits_nothing(session, front, resume_at);
        lemma_ended_stays(session.after_pause(), front);
    }
}

/// An ended session was ended by its history only if it is ended afterwards:
/// no input revives a session.
pub proof fn lemma_ended_stays(session: TrackedSession, inputs: Seq<SessionInput>)
    ensures
        session.ended ==> session.after_inputs(inputs) == session,
        session.after_inputs(inputs).ended || !session.ended,
        !session.after_inputs(inputs).ended ==> !session.ended,
    decreases inputs.len(),
{
    if inputs.len() > 0 {
        lemma_ended_stays(session, inputs.drop_last());
    }
}

/// After a pause and a resume, the next sample is measured from the resume
/// instant, not from the last sample before the pause: a running sample
/// credits exactly the time since the resume, and any other credits nothing.
pub proof fn law_resume_anchors_next_sample(
    session: TrackedSession,
    during: Seq<SessionInput>,
    resume_at: u64,
    sample: DurationSample,
)
    requires
        forall|i: int| 0 <= i < during.len() ==> !(during[i] is Resume),
        !session.after_pause().after_inputs(during).ended,
    ensures
        ({
            let resumed = session.after_pause().after_inputs(during).after_resume(resume_at);
            let next = resumed.after_sample(sample);
            &&& resumed.last_sample_instant == resume_at
            &&& sample.status == ProcessStatus::Running ==> next.accumulated_duration == credit(
                session.accumulated_duration,
                elapsed_between(resume_at, sample.timestamp),
            )
            &&& sample.status != ProcessStatus::Running ==> next.accumulated_duration
                == session.accumulated_duration
        }),
{
    law_pause_credits_nothing(session, during, resume_at);
}

/// A sample that finds the process absent ends a live session without
/// changing its total, and an ended session ignores every later input.
pub proof fn law_absent_sample_ends_session(
    session: TrackedSession,
    sample: DurationSample,
    later: Seq<SessionInput>,
)
    requires
        !session.ended,
        sample.status == ProcessStatus::Absent,
    ensures
        session.after_sample(sample).ended,
        session.after_sample(sample).accumulated_duration == session.accumulated_duration,
        session.after_sample(sample).after_inputs(later) == session.after_sample(sample),
{
    lemma_ended_stays(session.after_sample(sample), later);
}

} // verus!
