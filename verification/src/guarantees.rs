//! What holds of the controller over every history of inputs.

use vstd::prelude::*;
use crate::accumulator::{credit, elapsed_between, total_elapsed};
use crate::controller::{
    ControllerInput, ControllerState, LoopState, StartOutcome, TickOutcome,
};
use crate::publisher::DurationPublisher;
use crate::sample::{DurationSample, ProcessStatus};
use crate::session::{
    law_input_never_decreases, law_pause_credits_nothing, law_running_time_is_credited,
    SessionInput, TickPlan, TrackedSession,
};

verus! {

/// The input that a controller input is to the session served by `handle`,
/// if it reaches that session at all.
pub open spec fn session_input(handle: u64, input: ControllerInput) -> Option<SessionInput> {
    match input {
        ControllerInput::Pause => Some(SessionInput::Pause),
        ControllerInput::Resume { now } => Some(SessionInput::Resume(now)),
        ControllerInput::Tick { handle: from, now } => if from == handle {
            Some(SessionInput::Tick(now))
        } else {
            None
        },
        ControllerInput::Sample { handle: from, sample } => if from == handle {
            Some(SessionInput::Sample(sample))
        } else {
            None
        },
        _ => None,
    }
}

/// The inputs of a history that reach the session served by `handle`, in
/// their order.
pub open spec fn session_inputs(handle: u64, inputs: Seq<ControllerInput>) -> Seq<SessionInput>
    decreases inputs.len(),
{
    if inputs.len() == 0 {
        Seq::empty()
    } else {
        let front = session_inputs(handle, inputs.drop_last());
        match session_input(handle, inputs.last()) {
            Some(input) => front.push(input),
            None => front,
        }
    }
}

/// Whether a history holds neither a start nor a stop request.
pub open spec fn within_one_session(inputs: Seq<ControllerInput>) -> bool {
    forall|i: int| 0 <= i < inputs.len() ==> !(inputs[i] is Start) && !(inputs[i] is Stop)
}

/// The sample inputs by which the sampler `handle` hands in `samples`.
pub open spec fn samples_from(handle: u64, samples: Seq<DurationSample>) -> Seq<ControllerInput> {
    Seq::new(samples.len(), |i: int| ControllerInput::Sample { handle, sample: samples[i] })
}

/// Every input keeps the controller valid.
pub proof fn law_inputs_preserve_validity(state: ControllerState, input: ControllerInput)
    requires
        state.valid(),
    ensures
        state.after_input(input).valid(),
{
}

/// Every history keeps the controller valid, and the controller that tracks
/// nothing is valid.
pub proof fn law_histories_preserve_validity(state: ControllerState, inputs: Seq<ControllerInput>)
    requires
        state.valid(),
    ensures
        state.after_inputs(inputs).valid(),
        ControllerState::initial().valid(),
    decreases inputs.len(),
{
    if inputs.len() > 0 {
        law_histories_preserve_validity(state, inputs.drop_last());
        law_inputs_preserve_validity(state.after_inputs(inputs.drop_last()), inputs.last());
    }
}

/// At most one sampler is active at any time, and no sampler is at once
/// active and cancelling.
pub proof fn law_at_most_one_active_sampler(state: ControllerState, first: u64, second: u64)
    requires
        state.valid(),
        state.loop_state(first) == LoopState::Active,
        state.loop_state(second) == LoopState::Active,
    ensures
        first == second,
        !state.retiring.contains(first),
{
}

/// Whatever arrives from a sampler that is not active leaves the session and
/// the publisher as they are, and tells that sampler to exit.
pub proof fn law_inactive_sampler_changes_nothing(
    state: ControllerState,
    handle: u64,
    now: u64,
    sample: DurationSample,
)
    requires
        state.loop_state(handle) != LoopState::Active,
    ensures
        state.after_tick(handle, now).session == state.session,
        state.after_tick(handle, now).publisher == state.publisher,
        state.tick_plan(handle) == TickPlan::Exit,
        state.after_sample(handle, sample).session == state.session,
        state.after_sample(handle, sample).publisher == state.publisher,
        state.tick_outcome(handle, sample) == TickOutcome::Exit,
        state.after_acknowledge(handle).session == state.session,
        state.after_acknowledge(handle).publisher == state.publisher,
{
}

/// Starting a session for another process while a sampler is active retires
/// that sampler at once: until it reports back it is cancelling, and a late
/// tick or sample of it changes neither the new session nor what is
/// published for it.
pub proof fn law_session_isolation(
    state: ControllerState,
    process_id: u32,
    now: u64,
    late_tick: u64,
    late_sample: DurationSample,
)
    requires
        state.valid(),
        state.active_handle() is Some,
        state.start_outcome(process_id) is Started,
    ensures
        ({
            let old_handle = state.active_handle()->Some_0;
            let next = state.after_start(process_id, now);
            &&& state.start_outcome(process_id) == StartOutcome::Started {
                handle: state.next_handle,
                retired: Some(old_handle),
            }
            &&& old_handle != state.next_handle
            &&& next.session == Some(TrackedSession::begun(process_id, state.next_handle, now))
            &&& next.publisher == DurationPublisher::opened(state.next_handle)
            &&& next.loop_state(state.next_handle) == LoopState::Active
            &&& next.loop_state(old_handle) == LoopState::Cancelling
            &&& next.after_sample(old_handle, late_sample).session == next.session
            &&& next.after_sample(old_handle, late_sample).publisher == next.publisher
            &&& next.tick_outcome(old_handle, late_sample) == TickOutcome::Exit
            &&& next.after_tick(old_handle, late_tick).session == next.session
            &&& next.after_tick(old_handle, late_tick).publisher == next.publisher
            &&& next.tick_plan(old_handle) == TickPlan::Exit
            &&& next.after_sample(old_handle, late_sample).loop_state(old_handle)
                == LoopState::Terminated
        }),
{
}

/// Within one session the tracked session changes exactly as its own inputs
/// say: after any history without a start or a stop, it is the session that
/// the history's inputs to it lead to. The inputs of other samplers do not
/// count.
pub proof fn law_session_follows_its_inputs(
    state: ControllerState,
    session: TrackedSession,
    inputs: Seq<ControllerInput>,
)
    requires
        state.session == Some(session),
        within_one_session(inputs),
    ensures
        state.after_inputs(inputs).session == Some(
            session.after_inputs(session_inputs(session.cancellation_handle, inputs)),
        ),
    decreases inputs.len(),
{
    if inputs.len() > 0 {
        let front = inputs.drop_last();
        let last = inputs.last();
        assert forall|i: int| 0 <= i < front.len() implies !(front[i] is Start) && !(
        front[i] is Stop) by {
            assert(front[i] == inputs[i]);
        }
        law_session_follows_its_inputs(state, session, front);
        let handle = session.cancellation_handle;
        let reached = session_inputs(handle, front);
        lemma_handle_stays(session, reached);
        match session_input(handle, last) {
            Some(input) => {
                assert(reached.push(input).drop_last() =~= reached);
                assert(reached.push(input).last() == input);
            },
            None => {},
        }
    }
}

/// No input changes which process a session tracks or which sampler serves it.
pub proof fn lemma_handle_stays(session: TrackedSession, inputs: Seq<SessionInput>)
    ensures
        session.after_inputs(inputs).cancellation_handle == session.cancellation_handle,
        session.after_inputs(inputs).process_id == session.process_id,
    decreases inputs.len(),
{
    if inputs.len() > 0 {
        lemma_handle_stays(session, inputs.drop_last());
        law_input_never_decreases(session.after_inputs(inputs.drop_last()), inputs.last());
    }
}

/// Within one session neither the accumulated duration nor the published one
/// ever goes back, whatever the input.
pub proof fn law_display_never_goes_back(state: ControllerState, input: ControllerInput)
    requires
        state.valid(),
        !(input is Start),
        !(input is Stop),
    ensures
        state.after_input(input).publisher.writer == state.publisher.writer,
        state.session matches Some(before) ==> state.after_input(input).session matches Some(after)
            && before.cancellation_handle == after.cancellation_handle
            && before.accumulated_duration <= after.accumulated_duration,
        state.publisher.latest matches Some(before) ==> state.after_input(
            input,
        ).publisher.latest matches Some(after) && before <= after,
{
}

/// While tracking is not paused and the active sampler hands in samples that
/// all find the process running, the session's total is the starting total
/// plus the sum of the clock deltas between consecutive samples (held at the
/// largest representable value), and that total is what is published.
pub proof fn law_running_samples_are_credited(
    state: ControllerState,
    session: TrackedSession,
    samples: Seq<DurationSample>,
)
    requires
        state.valid(),
        state.session == Some(session),
        !session.ended,
        !session.paused,
        forall|i: int| 0 <= i < samples.len() ==> samples[i].status == ProcessStatus::Running,
    ensures
        ({
            let end = state.after_inputs(samples_from(session.cancellation_handle, samples));
            &&& end.valid()
            &&& end.session == Some(session.after_samples(samples))
            &&& end.session->Some_0.accumulated_duration == credit(
                session.accumulated_duration,
                total_elapsed(session.last_sample_instant, samples),
            )
            &&& samples.len() > 0 ==> end.publisher.latest == Some(
                end.session->Some_0.accumulated_duration,
            )
        }),
    decreases samples.len(),
{
    let handle = session.cancellation_handle;
    let inputs = samples_from(handle, samples);
    law_running_time_is_credited(session, samples, 0);
    if samples.len() > 0 {
        let front = samples.drop_last();
        assert(inputs.drop_last() =~= samples_from(handle, front));
        assert(inputs.last() == ControllerInput::Sample { handle, sample: samples.last() });
        law_running_samples_are_credited(state, session, front);
        law_running_time_is_credited(session, front, 0);
        lemma_samples_keep_identity(session, front);
        let mid = state.after_inputs(samples_from(handle, front));
        assert(mid.loop_state(handle) == LoopState::Active);
        assert(state.after_inputs(inputs) == mid.after_sample(handle, samples.last()));
        law_inputs_preserve_validity(mid, inputs.last());
    }
}

/// No sample changes which process a session tracks or which sampler
/// serves it.
pub proof fn lemma_samples_keep_identity(session: TrackedSession, samples: Seq<DurationSample>)
    ensures
        session.after_samples(samples).cancellation_handle == session.cancellation_handle,
        session.after_samples(samples).process_id == session.process_id,
    decreases samples.len(),
{
    if samples.len() > 0 {
        lemma_samples_keep_identity(session, samples.drop_last());
    }
}

/// Nothing is credited between a pause and the next resume, whatever the
/// samplers hand in meanwhile, and nothing new is published: the session's
/// total after the pause, any history without a resume, and the resume is
/// the total before the pause. A session that is still live is then
/// anchored at the resume instant.
pub proof fn law_pause_window_credits_nothing(
    state: ControllerState,
    session: TrackedSession,
    during: Seq<ControllerInput>,
    resume_at: u64,
)
    requires
        state.session == Some(session),
        within_one_session(during),
        forall|i: int| 0 <= i < during.len() ==> !(during[i] is Resume),
    ensures
        ({
            let frozen = state.after_pause().after_inputs(during);
            let resumed = frozen.after_resume(resume_at);
            &&& frozen.session matches Some(paused)
            &&& paused.accumulated_duration == session.accumulated_duration
            &&& resumed.session matches Some(running)
            &&& running.accumulated_duration == session.accumulated_duration
            &&& !paused.ended ==> !running.paused && running.last_sample_instant == resume_at
        }),
{
    let handle = session.cancellation_handle;
    let start = state.after_pause();
    law_session_follows_its_inputs(start, session.after_pause(), during);
    let reached = session_inputs(handle, during);
    lemma_no_resume_reaches(handle, during);
    law_pause_credits_nothing(session, reached, resume_at);
}

/// After a pause and a resume, the first sample of the active sampler is
/// measured from the resume instant, not from the last sample before the
/// pause: where it finds the process running, the session's total is the
/// total before the pause plus the time since the resume, and that total is
/// published.
pub proof fn law_resume_anchors_next_sample(
    state: ControllerState,
    session: TrackedSession,
    during: Seq<ControllerInput>,
    resume_at: u64,
    sample: DurationSample,
)
    requires
        state.valid(),
        state.session == Some(session),
        within_one_session(during),
        forall|i: int| 0 <= i < during.len() ==> !(during[i] is Resume),
        state.after_pause().after_inputs(during).active_handle() is Some,
        sample.status == ProcessStatus::Running,
    ensures
        ({
            let resumed = state.after_pause().after_inputs(during).after_resume(resume_at);
            let next = resumed.after_sample(session.cancellation_handle, sample);
            let total = credit(
                session.accumulated_duration,
                elapsed_between(resume_at, sample.timestamp),
            );
            &&& resumed.loop_state(session.cancellation_handle) == LoopState::Active
            &&& next.session matches Some(credited)
            &&& credited.accumulated_duration == total
            &&& credited.last_sample_instant == sample.timestamp
            &&& next.publisher.latest == Some(total)
        }),
{
    let handle = session.cancellation_handle;
    law_inputs_preserve_validity(state, ControllerInput::Pause);
    law_histories_preserve_validity(state.after_pause(), during);
    let frozen = state.after_pause().after_inputs(during);
    law_inputs_preserve_validity(frozen, ControllerInput::Resume { now: resume_at });
    law_pause_window_credits_nothing(state, session, during, resume_at);
    law_session_follows_its_inputs(state.after_pause(), session.after_pause(), during);
    lemma_handle_stays(session.after_pause(), session_inputs(handle, during));
}

/// A history without a resume request hands no resume to any session.
pub proof fn lemma_no_resume_reaches(handle: u64, inputs: Seq<ControllerInput>)
    requires
        forall|i: int| 0 <= i < inputs.len() ==> !(inputs[i] is Resume),
    ensures
        forall|i: int|
            0 <= i < session_inputs(handle, inputs).len() ==> !(session_inputs(
                handle,
                inputs,
            )[i] is Resume),
    decreases inputs.len(),
{
    if inputs.len() > 0 {
        let front = inputs.drop_last();
        assert forall|i: int| 0 <= i < front.len() implies !(front[i] is Resume) by {
            assert(front[i] == inputs[i]);
        }
        lemma_no_resume_reaches(handle, front);
    }
}

/// A sample of the active sampler that finds the process absent ends the
/// session: the consumer is told so, the sampler is terminated, the total
/// stays, and until the next start or stop no input changes the session's
/// total or what is published, late samples included.
pub proof fn law_absence_ends_session(
    state: ControllerState,
    handle: u64,
    sample: DurationSample,
    later: Seq<ControllerInput>,
)
    requires
        state.valid(),
        state.active_handle() == Some(handle),
        sample.status == ProcessStatus::Absent,
        within_one_session(later),
    ensures
        ({
            let ended = state.after_sample(handle, sample);
            &&& state.tick_outcome(handle, sample) == TickOutcome::Ended
            &&& ended.publisher.session_ended()
            &&& ended.publisher.latest == state.publisher.latest
            &&& ended.loop_state(handle) == LoopState::Terminated
            &&& ended.active_handle() is None
            &&& ended.session matches Some(last)
            &&& last.ended
            &&& last.accumulated_duration == state.session->Some_0.accumulated_duration
            &&& ended.after_inputs(later).session == ended.session
            &&& ended.after_inputs(later).publisher == ended.publisher
        }),
    decreases later.len(),
{
    if later.len() > 0 {
        let front = later.drop_last();
        assert forall|i: int| 0 <= i < front.len() implies !(front[i] is Start) && !(
        front[i] is Stop) by {
            assert(front[i] == later[i]);
        }
        law_absence_ends_session(state, handle, sample, front);
    }
}

/// Stopping while nothing is tracked changes nothing and names no sampler
/// to cancel; so do pausing and resuming. Stopping twice is stopping once.
pub proof fn law_stop_without_session_is_noop(state: ControllerState, now: u64)
    ensures
        state.session is None ==> state.after_stop() == state,
        state.session is None ==> state.active_handle() is None,
        state.session is None ==> state.after_pause() == state,
        state.session is None ==> state.after_resume(now) == state,
        state.after_stop().after_stop() == state.after_stop(),
        state.after_stop().session is None,
        state.valid() ==> state.after_stop().publisher == DurationPublisher::idle(),
{
}

} // verus!
