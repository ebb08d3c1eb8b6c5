//! The session controller: the one place that starts, pauses, resumes and
//! stops sessions, hears from the samplers, and feeds the publisher.
//!
//! Every sampler is known by a handle that is issued once and never again. A
//! sampler is `Active` while it serves the live session, `Cancelling` from the
//! moment the controller retires it until it reports back, and `Terminated`
//! otherwise. Whatever arrives from a sampler that is not `Active` touches
//! neither the session nor the publisher.

use vstd::prelude::*;
use crate::publisher::DurationPublisher;
use crate::sample::DurationSample;
use crate::session::{TickPlan, TrackedSession};

verus! {

/// The state of one sampler, as the controller sees it.
#[derive(Clone, Copy, Debug, PartialEq, Eq, Structural)]
pub enum LoopState {
    /// It serves the live session.
    Active,
    /// Its cancellation was requested and it has not reported back yet.
    Cancelling,
    /// It has finished, or its handle was never issued.
    Terminated,
}

/// What a request to start a session did.
#[derive(Clone, Copy, Debug, PartialEq, Eq, Structural)]
pub enum StartOutcome {
    /// The process is the tracked one already; nothing changed.
    AlreadyTracked,
    /// Every handle has been issued; nothing changed.
    HandlesExhausted,
    /// A session was created. The host cancels the sampler `retired`, if
    /// there is one, and spawns a sampler for `handle`.
    Started { handle: u64, retired: Option<u64> },
}

/// What the sampler does after handing in a sample.
#[derive(Clone, Copy, Debug, PartialEq, Eq, Structural)]
pub enum TickOutcome {
    /// Leave the loop: the sampler is cancelled or stale.
    Exit,
    /// The process is gone: the session has ended, leave the loop.
    Ended,
    /// The total was published; `display_changed` says whether the whole
    /// seconds on display differ from those shown before.
    Published { display_changed: bool },
}

/// The controller as a mathematical value.
#[verifier::ext_equal]
pub struct ControllerState {
    /// The handle that the next session gets.
    pub next_handle: u64,
    /// The tracked session, live or ended.
    pub session: Option<TrackedSession>,
    /// The handles of the samplers that are `Cancelling`.
    pub retiring: Set<u64>,
    pub publisher: DurationPublisher,
}

/// An input to the controller, for stating what holds of whole histories.
pub enum ControllerInput {
    Start { process_id: u32, now: u64 },
    Pause,
    Resume { now: u64 },
    Stop,
    Tick { handle: u64, now: u64 },
    Sample { handle: u64, sample: DurationSample },
    Acknowledge { handle: u64 },
}

impl ControllerState {
    /// Nothing tracked, no handle issued.
    pub open spec fn initial() -> Self {
        Self::initial_from(0)
    }

    /// Nothing tracked, and `first_handle` the first handle to be issued.
    pub open spec fn initial_from(first_handle: u64) -> Self {
        ControllerState {
            next_handle: first_handle,
            session: None,
            retiring: Set::empty(),
            publisher: DurationPublisher::idle(),
        }
    }

    /// The invariant of the controller: every handle in use was issued, the
    /// tracked session's sampler is not among the retiring ones, and the
    /// publisher is open for exactly the tracked session and shows nothing
    /// but that session's total.
    pub open spec fn valid(self) -> bool {
        &&& self.retiring.finite()
        &&& forall|handle: u64| self.retiring.contains(handle) ==> handle < self.next_handle
        &&& match self.session {
            Some(session) => {
                &&& session.cancellation_handle < self.next_handle
                &&& !self.retiring.contains(session.cancellation_handle)
                &&& self.publisher.writer == Some(session.cancellation_handle)
                &&& self.publisher.ended == session.ended
                &&& (self.publisher.latest is None || self.publisher.latest == Some(
                    session.accumulated_duration,
                ))
            },
            None => self.publisher == DurationPublisher::idle(),
        }
    }

    /// The handle of the sampler that serves the live session, if any.
    pub open spec fn active_handle(self) -> Option<u64> {
        match self.session {
            Some(session) => if session.ended {
                None
            } else {
                Some(session.cancellation_handle)
            },
            None => None,
        }
    }

    /// The state of the sampler known by `handle`.
    pub open spec fn loop_state(self, handle: u64) -> LoopState {
        if self.active_handle() == Some(handle) {
            LoopState::Active
        } else if self.retiring.contains(handle) {
            LoopState::Cancelling
        } else {
            LoopState::Terminated
        }
    }

    /// The retiring handles once the active sampler has joined them.
    pub open spec fn retiring_with_active(self) -> Set<u64> {
        match self.active_handle() {
            Some(handle) => self.retiring.insert(handle),
            None => self.retiring,
        }
    }

    /// Whether `process_id` is the tracked process.
    pub open spec fn tracks(self, process_id: u32) -> bool {
        self.session matches Some(session) && session.process_id == process_id
    }

    /// What a start request for `process_id` does.
    pub open spec fn start_outcome(self, process_id: u32) -> StartOutcome {
        if self.tracks(process_id) {
            StartOutcome::AlreadyTracked
        } else if self.next_handle == u64::MAX {
            StartOutcome::HandlesExhausted
        } else {
            StartOutcome::Started { handle: self.next_handle, retired: self.active_handle() }
        }
    }

    /// The controller after a start request: unless the process is tracked
    /// already, the active sampler is retired and a fresh, unpaused session
    /// with a new handle takes over the publisher.
    pub open spec fn after_start(self, process_id: u32, now: u64) -> Self {
        if self.start_outcome(process_id) is Started {
            ControllerState {
                next_handle: (self.next_handle + 1) as u64,
                session: Some(TrackedSession::begun(process_id, self.next_handle, now)),
                retiring: self.retiring_with_active(),
                publisher: DurationPublisher::opened(self.next_handle),
            }
        } else {
            self
        }
    }

    /// The controller after a pause request.
    pub open spec fn after_pause(self) -> Self {
        match self.session {
            Some(session) => ControllerState { session: Some(session.after_pause()), ..self },
            None => self,
        }
    }

    /// The controller after a resume request issued at `now`.
    pub open spec fn after_resume(self, now: u64) -> Self {
        match self.session {
            Some(session) => ControllerState { session: Some(session.after_resume(now)), ..self },
            None => self,
        }
    }

    /// The controller after a pause toggle at `now`: a resume where the
    /// session is paused, a pause otherwise.
    pub open spec fn after_toggle_pause(self, now: u64) -> Self {
        if self.session matches Some(session) && session.paused {
            self.after_resume(now)
        } else {
            self.after_pause()
        }
    }

    /// The controller after a stop request: the active sampler is retired,
    /// the session is dropped and the publisher is emptied.
    pub open spec fn after_stop(self) -> Self {
        match self.session {
            Some(_) => ControllerState {
                session: None,
                retiring: self.retiring_with_active(),
                publisher: DurationPublisher::idle(),
                ..self
            },
            None => self,
        }
    }

    /// What the sampler `handle` does on a timer tick.
    pub open spec fn tick_plan(self, handle: u64) -> TickPlan {
        match (self.loop_state(handle), self.session) {
            (LoopState::Active, Some(session)) => session.tick_plan(),
            _ => TickPlan::Exit,
        }
    }

    /// The controller after the sampler `handle` has reported back.
    pub open spec fn after_acknowledge(self, handle: u64) -> Self {
        ControllerState { retiring: self.retiring.remove(handle), ..self }
    }

    /// The controller after a timer tick of the sampler `handle` at `now`. An
    /// active sampler's tick goes to the session; a cancelled sampler's tick
    /// counts as its report; any other changes nothing.
    pub open spec fn after_tick(self, handle: u64, now: u64) -> Self {
        match (self.loop_state(handle), self.session) {
            (LoopState::Active, Some(session)) => ControllerState {
                session: Some(session.after_tick(now)),
                ..self
            },
            _ => self.after_acknowledge(handle),
        }
    }

    /// What the sampler `handle` does after handing in `sample`.
    pub open spec fn tick_outcome(self, handle: u64, sample: DurationSample) -> TickOutcome {
        match (self.loop_state(handle), self.session) {
            (LoopState::Active, Some(session)) => {
                let next = session.after_sample(sample);
                if next.ended {
                    TickOutcome::Ended
                } else {
                    TickOutcome::Published {
                        display_changed: self.publisher.displayed_seconds()
                            != self.publisher.after_publish(
                            handle,
                            next.accumulated_duration,
                        ).displayed_seconds(),
                    }
                }
            },
            _ => TickOutcome::Exit,
        }
    }

    /// The controller after the sampler `handle` has handed in `sample`. An
    /// active sampler's sample goes to the session, and the new total, or the
    /// end of the session, to the publisher; a cancelled sampler's sample
    /// counts as its report; any other changes nothing.
    pub open spec fn after_sample(self, handle: u64, sample: DurationSample) -> Self {
        match (self.loop_state(handle), self.session) {
            (LoopState::Active, Some(session)) => {
                let next = session.after_sample(sample);
                ControllerState {
                    session: Some(next),
                    publisher: if next.ended {
                        self.publisher.after_end(handle)
                    } else {
                        self.publisher.after_publish(handle, next.accumulated_duration)
                    },
                    ..self
                }
            },
            _ => self.after_acknowledge(handle),
        }
    }

    /// The controller after one input.
    pub open spec fn after_input(self, input: ControllerInput) -> Self {
        match input {
            ControllerInput::Start { process_id, now } => self.after_start(process_id, now),
            ControllerInput::Pause => self.after_pause(),
            ControllerInput::Resume { now } => self.after_resume(now),
            ControllerInput::Stop => self.after_stop(),
            ControllerInput::Tick { handle, now } => self.after_tick(handle, now),
            ControllerInput::Sample { handle, sample } => self.after_sample(handle, sample),
            ControllerInput::Acknowledge { handle } => self.after_acknowledge(handle),
        }
    }

    /// The controller after a history of inputs, oldest first.
    pub open spec fn after_inputs(self, inputs: Seq<ControllerInput>) -> Self
        decreases inputs.len(),
    {
        if inputs.len() == 0 {
            self
        } else {
            self.after_inputs(inputs.drop_last()).after_input(inputs.last())
        }
    }
}

/// The session controller.
pub struct SessionController {
    next_handle: u64,
    session: Option<TrackedSession>,
    retiring: Vec<u64>,
    publisher: DurationPublisher,
}

impl View for SessionController {
    type V = ControllerState;

    closed spec fn view(&self) -> ControllerState {
        ControllerState {
            next_handle: self.next_handle,
            session: self.session,
            retiring: self.retiring@.to_set(),
            publisher: self.publisher,
        }
    }
}

/// Removes `handle` from a list without repeats. Returns whether it was there.
fn remove_handle(handles: &mut Vec<u64>, handle: u64) -> (found: bool)
    requires
        old(handles)@.no_duplicates(),
    ensures
        final(handles)@.no_duplicates(),
        final(handles)@.to_set() =~= old(handles)@.to_set().remove(handle),
        found == old(handles)@.to_set().contains(handle),
{
    let mut i: usize = 0;
    while i < handles.len()
        invariant
            i <= handles.len(),
            handles@ == old(handles)@,
            handles@.no_duplicates(),
            forall|j: int| 0 <= j < i ==> handles@[j] != handle,
        decreases handles.len() - i,
    {
        if handles[i] == handle {
            handles.remove(i);
            proof {
                let before = old(handles)@;
                let after = handles@;
                let at = i as int;
                assert forall|a: int, b: int|
                    0 <= a < after.len() && 0 <= b < after.len() && a != b implies after[a]
                    != after[b] by {
                    let a0 = if a < at {
                        a
                    } else {
                        a + 1
                    };
                    let b0 = if b < at {
                        b
                    } else {
                        b + 1
                    };
                    assert(after[a] == before[a0]);
                    assert(after[b] == before[b0]);
                }
                assert forall|value: u64|
                    after.to_set().contains(value) <==> before.to_set().remove(handle).contains(
                        value,
                    ) by {
                    if after.contains(value) {
                        let a = choose|a: int| 0 <= a < after.len() && after[a] == value;
                        let a0 = if a < at {
                            a
                        } else {
                            a + 1
                        };
                        assert(before[a0] == value);
                        assert(before.contains(value));
                        assert(a0 != at);
                    }
                    if before.contains(value) && value != handle {
                        let b = choose|b: int| 0 <= b < before.len() && before[b] == value;
                        let b1 = if b < at {
                            b
                        } else {
                            b - 1
                        };
                        assert(after[b1] == value);
                    }
                }
                assert(before[at] == handle);
                assert(before.contains(handle));
            }
            return true;
        }
        i += 1;
    }
    proof {
        assert(!handles@.contains(handle));
        assert(handles@.to_set() =~= handles@.to_set().remove(handle));
    }
    false
}

impl SessionController {
    /// Whether the controller's data is in order.
    pub closed spec fn wf(&self) -> bool {
        &&& self.retiring@.no_duplicates()
        &&& self@.valid()
    }

    /// A well-formed controller is a valid one.
    pub proof fn lemma_wf_is_valid(&self)
        requires
            self.wf(),
        ensures
            self@.valid(),
    {
    }

    /// A controller that tracks nothing.
    pub fn new() -> (controller: Self)
        ensures
            controller.wf(),
            controller@ == ControllerState::initial(),
    {
        Self::with_first_handle(0)
    }

    /// A controller that tracks nothing and issues handles from
    /// `first_handle` on.
    pub fn with_first_handle(first_handle: u64) -> (controller: Self)
        ensures
            controller.wf(),
            controller@ == ControllerState::initial_from(first_handle),
    {
        let controller = SessionController {
            next_handle: first_handle,
            session: None,
            retiring: Vec::new(),
            publisher: DurationPublisher::new(),
        };
        assert(controller@ =~= ControllerState::initial_from(first_handle));
        controller
    }

    /// Moves the active sampler, if there is one, to the retiring ones.
    fn retire_active(&mut self) -> (retired: Option<u64>)
        requires
            old(self).wf(),
        ensures
            retired == old(self)@.active_handle(),
            final(self).retiring@.no_duplicates(),
            final(self).retiring@.to_set() =~= old(self)@.retiring_with_active(),
            final(self).next_handle == old(self).next_handle,
            final(self).session == old(self).session,
            final(self).publisher == old(self).publisher,
    {
        match self.session {
            Some(session) => {
                if session.ended {
                    None
                } else {
                    proof {
                        self.retiring@.lemma_push_to_set_commute(session.cancellation_handle);
                        assert(!self.retiring@.contains(session.cancellation_handle));
                    }
                    self.retiring.push(session.cancellation_handle);
                    Some(session.cancellation_handle)
                }
            },
            None => None,
        }
    }

    /// Starts tracking `process_id` at `now`.
    ///
    /// Nothing happens where the process is the tracked one already. Otherwise
    /// the active sampler is retired and a fresh session takes over; the
    /// outcome names the sampler to cancel and the one to spawn.
    pub fn start_session(&mut self, process_id: u32, now: u64) -> (outcome: StartOutcome)
        requires
            old(self).wf(),
        ensures
            final(self).wf(),
            final(self)@ == old(self)@.after_start(process_id, now),
            outcome == old(self)@.start_outcome(process_id),
    {
        let already = match self.session {
            Some(session) => session.process_id == process_id,
            None => false,
        };
        if already {
            return StartOutcome::AlreadyTracked;
        }
        if self.next_handle == u64::MAX {
            return StartOutcome::HandlesExhausted;
        }
        let retired = self.retire_active();
        let handle = self.next_handle;
        self.session = Some(TrackedSession::begin(process_id, handle, now));
        self.publisher.open(handle);
        self.next_handle = handle + 1;
        assert(self@ =~= old(self)@.after_start(process_id, now));
        StartOutcome::Started { handle, retired }
    }

    /// Freezes accumulation. Nothing happens where no session is live.
    pub fn pause(&mut self)
        requires
            old(self).wf(),
        ensures
            final(self).wf(),
            final(self)@ == old(self)@.after_pause(),
    {
        match self.session {
            Some(mut session) => {
                session.pause();
                self.session = Some(session);
            },
            None => {},
        }
        assert(self@ =~= old(self)@.after_pause());
    }

    /// Lifts a pause at `now`; the next credit is measured from `now`.
    /// Nothing happens where no session is live and paused.
    pub fn resume(&mut self, now: u64)
        requires
            old(self).wf(),
        ensures
            final(self).wf(),
            final(self)@ == old(self)@.after_resume(now),
    {
        match self.session {
            Some(mut session) => {
                session.resume(now);
                self.session = Some(session);
            },
            None => {},
        }
        assert(self@ =~= old(self)@.after_resume(now));
    }

    /// Pauses a running session, resumes a paused one at `now`.
    pub fn toggle_pause(&mut self, now: u64)
        requires
            old(self).wf(),
        ensures
            final(self).wf(),
            final(self)@ == old(self)@.after_toggle_pause(now),
    {
        if self.is_paused() {
            self.resume(now);
        } else {
            self.pause();
        }
    }

    /// Stops tracking. Returns the handle of the sampler to cancel, if one
    /// was active. Nothing happens where nothing is tracked.
    pub fn stop(&mut self) -> (retired: Option<u64>)
        requires
            old(self).wf(),
        ensures
            final(self).wf(),
            final(self)@ == old(self)@.after_stop(),
            retired == old(self)@.active_handle(),
    {
        if self.session.is_none() {
            return None;
        }
        let retired = self.retire_active();
        self.session = None;
        self.publisher.close();
        assert(self@ =~= old(self)@.after_stop());
        retired
    }

    /// Stops tracking for good and lists the samplers that the host has to
    /// cancel and wait for: all that have not reported back.
    pub fn shutdown(&mut self) -> (pending: Vec<u64>)
        requires
            old(self).wf(),
        ensures
            final(self).wf(),
            final(self)@ == old(self)@.after_stop(),
            pending@.no_duplicates(),
            pending@.to_set() == final(self)@.retiring,
    {
        let _ = self.stop();
        let mut pending: Vec<u64> = Vec::new();
        let mut i: usize = 0;
        while i < self.retiring.len()
            invariant
                i <= self.retiring.len(),
                pending@ == self.retiring@.take(i as int),
            decreases self.retiring.len() - i,
        {
            pending.push(self.retiring[i]);
            assert(pending@ =~= self.retiring@.take(i + 1));
            i += 1;
        }
        assert(pending@ =~= self.retiring@);
        pending
    }

    /// Handles a timer tick of the sampler `handle` at `now` and says what
    /// the sampler does next. A cancelled sampler is told to exit, without
    /// sampling; a paused session is re-anchored at `now`.
    pub fn begin_tick(&mut self, handle: u64, now: u64) -> (plan: TickPlan)
        requires
            old(self).wf(),
        ensures
            final(self).wf(),
            final(self)@ == old(self)@.after_tick(handle, now),
            plan == old(self)@.tick_plan(handle),
    {
        match (self.loop_state(handle), self.session) {
            (LoopState::Active, Some(mut session)) => {
                let plan = session.tick(now);
                self.session = Some(session);
                assert(self@ =~= old(self)@.after_tick(handle, now));
                plan
            },
            _ => {
                let _ = remove_handle(&mut self.retiring, handle);
                assert(self@ =~= old(self)@.after_tick(handle, now));
                TickPlan::Exit
            },
        }
    }

    /// Takes in the sample that the sampler `handle` has probed: credits the
    /// session, publishes the new total, and ends the session where the
    /// process is gone. A sample from a sampler that is not active is dropped.
    pub fn complete_tick(&mut self, handle: u64, sample: DurationSample) -> (outcome: TickOutcome)
        requires
            old(self).wf(),
        ensures
            final(self).wf(),
            final(self)@ == old(self)@.after_sample(handle, sample),
            outcome == old(self)@.tick_outcome(handle, sample),
    {
        match (self.loop_state(handle), self.session) {
            (LoopState::Active, Some(mut session)) => {
                let shown = self.publisher.shown_seconds();
                let live = session.absorb(sample);
                self.session = Some(session);
                let outcome = if live {
                    let _ = self.publisher.publish(handle, session.accumulated_duration);
                    let display_changed = match (shown, self.publisher.shown_seconds()) {
                        (Some(before), Some(after)) => before != after,
                        (None, None) => false,
                        _ => true,
                    };
                    TickOutcome::Published { display_changed }
                } else {
                    let _ = self.publisher.mark_ended(handle);
                    TickOutcome::Ended
                };
                assert(self@ =~= old(self)@.after_sample(handle, sample));
                outcome
            },
            _ => {
                let _ = remove_handle(&mut self.retiring, handle);
                assert(self@ =~= old(self)@.after_sample(handle, sample));
                TickOutcome::Exit
            },
        }
    }

    /// Records that the sampler `handle` has seen its cancellation and left
    /// its loop. Returns whether the controller was waiting for it.
    pub fn acknowledge(&mut self, handle: u64) -> (awaited: bool)
        requires
            old(self).wf(),
        ensures
            final(self).wf(),
            final(self)@ == old(self)@.after_acknowledge(handle),
            awaited == old(self)@.retiring.contains(handle),
    {
        let awaited = remove_handle(&mut self.retiring, handle);
        assert(self@ =~= old(self)@.after_acknowledge(handle));
        awaited
    }

    /// The state of the sampler `handle`.
    pub fn loop_state(&self, handle: u64) -> (state: LoopState)
        requires
            self.wf(),
        ensures
            state == self@.loop_state(handle),
    {
        let active = match self.session {
            Some(session) => !session.ended && session.cancellation_handle == handle,
            None => false,
        };
        if active {
            return LoopState::Active;
        }
        let mut i: usize = 0;
        while i < self.retiring.len()
            invariant
                i <= self.retiring.len(),
                self@.active_handle() != Some(handle),
                forall|j: int| 0 <= j < i ==> self.retiring@[j] != handle,
            decreases self.retiring.len() - i,
        {
            if self.retiring[i] == handle {
                assert(self.retiring@.contains(handle));
                return LoopState::Cancelling;
            }
            i += 1;
        }
        assert(!self.retiring@.contains(handle));
        LoopState::Terminated
    }

    /// The tracked session, live or ended.
    pub fn session(&self) -> (session: Option<TrackedSession>)
        ensures
            session == self@.session,
    {
        self.session
    }

    /// The tracked process.
    pub fn tracked_process(&self) -> (process_id: Option<u32>)
        ensures
            process_id == match self@.session {
                Some(session) => Some(session.process_id),
                None => None,
            },
    {
        match self.session {
            Some(session) => Some(session.process_id),
            None => None,
        }
    }

    /// Whether a session is tracked and paused.
    pub fn is_paused(&self) -> (paused: bool)
        ensures
            paused == (self@.session matches Some(session) && session.paused),
    {
        match self.session {
            Some(session) => session.paused,
            None => false,
        }
    }

    /// The publisher, as the consumer reads it.
    pub fn publisher(&self) -> (slot: DurationPublisher)
        ensures
            slot == self@.publisher,
    {
        self.publisher
    }

    /// The text on display: `HH:MM:SS`, or the placeholder while nothing
    /// has been published.
    pub fn current_duration_text(&self) -> (text: String)
        ensures
            text@ == self@.publisher.text(),
    {
        self.publisher.current_duration_text()
    }

    /// Whether the tracked process has disappeared. True from the sample that
    /// found it absent until the next started session or stop.
    pub fn is_session_ended(&self) -> (ended: bool)
        ensures
            ended == self@.publisher.session_ended(),
    {
        self.publisher.is_session_ended()
    }

    /// The number of samplers that were cancelled and have not reported back.
    pub fn pending_cancellations(&self) -> (count: usize)
        requires
            self.wf(),
        ensures
            count == self@.retiring.len(),
    {
        proof {
            self.retiring@.unique_seq_to_set();
        }
        self.retiring.len()
    }
}

} // verus!
