//! The hand-off slot between the sampler and whoever shows the duration.
//!
//! It keeps the latest published duration of the session that is open, and
//! whether that session has ended. Every write carries the handle of the
//! sampler that makes it; a write from any other sampler is refused.

use vstd::prelude::*;
use crate::accumulator::{whole_seconds, whole_seconds_of};
use crate::format::{clock_text, format_duration, idle_placeholder, idle_text};

verus! {

/// The single-slot store that the consumer reads.
#[derive(Clone, Copy, Debug, PartialEq, Eq, Structural)]
pub struct DurationPublisher {
    /// The handle of the one sampler that may write, if a session is open.
    pub writer: Option<u64>,
    /// The latest duration published for the open session.
    pub latest: Option<u64>,
    /// Whether the open session has ended.
    pub ended: bool,
}

impl DurationPublisher {
    /// The slot while nothing is tracked.
    pub open spec fn idle() -> Self {
        DurationPublisher { writer: None, latest: None, ended: false }
    }

    /// The slot of a session that has just been opened for `handle`.
    pub open spec fn opened(handle: u64) -> Self {
        DurationPublisher { writer: Some(handle), latest: None, ended: false }
    }

    /// Whether a write of `duration` by `handle` is taken: the writer must be
    /// the open session's, the session must not have ended, and the duration
    /// must not be older than the one already there.
    pub open spec fn accepts(self, handle: u64, duration: u64) -> bool {
        &&& self.writer == Some(handle)
        &&& !self.ended
        &&& match self.latest {
            Some(shown) => shown <= duration,
            None => true,
        }
    }

    /// The slot after `handle` has tried to publish `duration`.
    pub open spec fn after_publish(self, handle: u64, duration: u64) -> Self {
        if self.accepts(handle, duration) {
            DurationPublisher { latest: Some(duration), ..self }
        } else {
            self
        }
    }

    /// The slot after `handle` has tried to report the end of its session.
    pub open spec fn after_end(self, handle: u64) -> Self {
        if self.writer == Some(handle) {
            DurationPublisher { ended: true, ..self }
        } else {
            self
        }
    }

    /// The whole seconds that the consumer is shown, if any.
    pub open spec fn displayed_seconds(self) -> Option<u64> {
        match (self.writer, self.latest) {
            (Some(_), Some(duration)) => Some(whole_seconds_of(duration)),
            _ => None,
        }
    }

    /// The text that the consumer is shown: the clock text of the latest
    /// duration, or the placeholder while there is none.
    pub open spec fn text(self) -> Seq<char> {
        match self.displayed_seconds() {
            Some(seconds) => clock_text(seconds as nat),
            None => idle_text(),
        }
    }

    /// Whether the consumer is told that the session has ended.
    pub open spec fn session_ended(self) -> bool {
        self.writer is Some && self.ended
    }

    /// A slot with no session.
    pub fn new() -> (slot: Self)
        ensures
            slot == Self::idle(),
    {
        DurationPublisher { writer: None, latest: None, ended: false }
    }

    /// Opens the slot for the session served by `handle`, dropping whatever
    /// an earlier session left.
    pub fn open(&mut self, handle: u64)
        ensures
            *final(self) == Self::opened(handle),
    {
        self.writer = Some(handle);
        self.latest = None;
        self.ended = false;
    }

    /// Empties the slot.
    pub fn close(&mut self)
        ensures
            *final(self) == Self::idle(),
    {
        self.writer = None;
        self.latest = None;
        self.ended = false;
    }

    /// Publishes `duration` on behalf of `handle`. Returns whether the write
    /// was taken; a refused write changes nothing.
    pub fn publish(&mut self, handle: u64, duration: u64) -> (taken: bool)
        ensures
            taken == old(self).accepts(handle, duration),
            *final(self) == old(self).after_publish(handle, duration),
    {
        let current = match self.writer {
            Some(writer) => writer == handle,
            None => false,
        };
        let fresh = match self.latest {
            Some(shown) => shown <= duration,
            None => true,
        };
        if current && !self.ended && fresh {
            self.latest = Some(duration);
            true
        } else {
            false
        }
    }

    /// Reports on behalf of `handle` that its session has ended. Returns
    /// whether `handle` is the open session's writer.
    pub fn mark_ended(&mut self, handle: u64) -> (taken: bool)
        ensures
            taken == (old(self).writer == Some(handle)),
            *final(self) == old(self).after_end(handle),
    {
        let current = match self.writer {
            Some(writer) => writer == handle,
            None => false,
        };
        if current {
            self.ended = true;
        }
        current
    }

    /// The whole seconds on display, if a duration has been published.
    pub fn shown_seconds(&self) -> (seconds: Option<u64>)
        ensures
            seconds == self.displayed_seconds(),
    {
        match (self.writer, self.latest) {
            (Some(_), Some(duration)) => Some(whole_seconds(duration)),
            _ => None,
        }
    }

    /// The text on display.
    pub fn current_duration_text(&self) -> (text: String)
        ensures
            text@ == self.text(),
    {
        match self.shown_seconds() {
            Some(seconds) => format_duration(seconds),
            None => idle_placeholder(),
        }
    }

    /// Whether the open session has ended.
    pub fn is_session_ended(&self) -> (ended: bool)
        ensures
            ended == self.session_ended(),
    {
        self.writer.is_some() && self.ended
    }
}

/// A write from a sampler that is not the open session's changes nothing.
pub proof fn law_stale_write_is_refused(slot: DurationPublisher, handle: u64, duration: u64)
    requires
        slot.writer != Some(handle),
    ensures
        slot.after_publish(handle, duration) == slot,
        slot.after_end(handle) == slot,
{
}

/// Within one session the published duration never goes back, whoever
/// writes and whatever is written.
pub proof fn law_published_never_decreases(slot: DurationPublisher, handle: u64, duration: u64)
    ensures
        slot.after_publish(handle, duration).writer == slot.writer,
        slot.latest matches Some(before) ==> slot.after_publish(handle, duration).latest matches Some(
            after,
        ) && before <= after,
{
}

/// Once a session has ended, no write changes what is shown.
pub proof fn law_nothing_published_after_end(slot: DurationPublisher, handle: u64, duration: u64)
    requires
        slot.ended,
    ensures
        slot.after_publish(handle, duration) == slot,
{
}

} // verus!
