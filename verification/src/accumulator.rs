//! The duration accumulator: a pure step from the previous total, the previous
//! anchor instant, the pause flag and one sample to the next total and anchor.

use vstd::prelude::*;
use crate::sample::{DurationSample, ProcessStatus};

verus! {

pub const NANOS_PER_SECOND: u64 = 1_000_000_000;

/// The result of one accumulation step.
#[derive(Clone, Copy, Debug, PartialEq, Eq, Structural)]
pub struct Advance {
    /// The accumulated duration after the step.
    pub duration: u64,
    /// The instant from which the next step measures.
    pub instant: u64,
    /// Whether the session has to end.
    pub terminate: bool,
}

/// Time from `earlier` to `later`, or zero where the clock went backwards.
pub open spec fn elapsed_between(earlier: u64, later: u64) -> nat {
    if later >= earlier {
        (later - earlier) as nat
    } else {
        0
    }
}

/// `duration` increased by `delta`, held at the largest representable value.
pub open spec fn credit(duration: u64, delta: nat) -> u64 {
    if duration + delta >= u64::MAX {
        u64::MAX
    } else {
        (duration + delta) as u64
    }
}

/// One step of the accumulator.
///
/// An `Absent` sample asks for termination and changes nothing. Otherwise the
/// anchor moves to the sample's timestamp, and the time since the previous
/// anchor is credited only where the sample is `Running` and tracking is not
/// paused.
pub open spec fn advance_spec(
    prev_duration: u64,
    prev_instant: u64,
    paused: bool,
    sample: DurationSample,
) -> Advance {
    if sample.status == ProcessStatus::Absent {
        Advance { duration: prev_duration, instant: prev_instant, terminate: true }
    } else if !paused && sample.status == ProcessStatus::Running {
        Advance {
            duration: credit(prev_duration, elapsed_between(prev_instant, sample.timestamp)),
            instant: sample.timestamp,
            terminate: false,
        }
    } else {
        Advance { duration: prev_duration, instant: sample.timestamp, terminate: false }
    }
}

/// Time from `earlier` to `later`, clamped to zero.
pub fn elapsed(earlier: u64, later: u64) -> (delta: u64)
    ensures
        delta == elapsed_between(earlier, later),
{
    if later >= earlier {
        later - earlier
    } else {
        0
    }
}

/// Computes one accumulation step.
pub fn advance(prev_duration: u64, prev_instant: u64, paused: bool, sample: DurationSample) -> (next:
    Advance)
    ensures
        next == advance_spec(prev_duration, prev_instant, paused, sample),
{
    match sample.status {
        ProcessStatus::Absent => Advance {
            duration: prev_duration,
            instant: prev_instant,
            terminate: true,
        },
        ProcessStatus::Running => {
            if paused {
                Advance { duration: prev_duration, instant: sample.timestamp, terminate: false }
            } else {
                let delta = elapsed(prev_instant, sample.timestamp);
                Advance {
                    duration: prev_duration.saturating_add(delta),
                    instant: sample.timestamp,
                    terminate: false,
                }
            }
        },
        ProcessStatus::NotRunning => Advance {
            duration: prev_duration,
            instant: sample.timestamp,
            terminate: false,
        },
    }
}

/// The number of whole seconds in `duration`.
pub open spec fn whole_seconds_of(duration: u64) -> u64 {
    duration / NANOS_PER_SECOND
}

/// Truncates a duration to whole seconds.
pub fn whole_seconds(duration: u64) -> (seconds: u64)
    ensures
        seconds == whole_seconds_of(duration),
{
    duration / NANOS_PER_SECOND
}

/// The instant from which sample `i` of a history is measured: the starting
/// anchor for the first sample, the previous sample's timestamp after that.
pub open spec fn anchor_before(anchor: u64, samples: Seq<DurationSample>, i: int) -> u64 {
    if i <= 0 {
        anchor
    } else {
        samples[i - 1].timestamp
    }
}

/// The sum of the clock deltas between consecutive samples of a history that
/// starts at `anchor`, each delta clamped to zero.
pub open spec fn total_elapsed(anchor: u64, samples: Seq<DurationSample>) -> nat
    decreases samples.len(),
{
    if samples.len() == 0 {
        0
    } else {
        total_elapsed(anchor, samples.drop_last()) + elapsed_between(
            anchor_before(anchor, samples, samples.len() - 1),
            samples.last().timestamp,
        )
    }
}

/// Crediting two deltas one after the other is crediting their sum.
pub proof fn lemma_credit_twice(duration: u64, first: nat, second: nat)
    ensures
        credit(credit(duration, first), second) == credit(duration, first + second),
{
}

/// One step of the accumulator never lowers the total, whatever the sample
/// and the pause flag.
pub proof fn law_advance_never_decreases(
    prev_duration: u64,
    prev_instant: u64,
    paused: bool,
    sample: DurationSample,
)
    ensures
        advance_spec(prev_duration, prev_instant, paused, sample).duration >= prev_duration,
{
}

/// Where the clock never goes backwards over a history, the deltas between
/// consecutive samples add up to the time from the anchor to the last sample.
pub proof fn law_total_elapsed_telescopes(anchor: u64, samples: Seq<DurationSample>)
    requires
        samples.len() > 0,
        forall|i: int|
            0 <= i < samples.len() ==> anchor_before(anchor, samples, i)
                <= #[trigger] samples[i].timestamp,
    ensures
        total_elapsed(anchor, samples) == samples.last().timestamp - anchor,
    decreases samples.len(),
{
    let front = samples.drop_last();
    if front.len() == 0 {
        assert(total_elapsed(anchor, front) == 0);
    } else {
        assert forall|i: int| 0 <= i < front.len() implies anchor_before(anchor, front, i)
            <= #[trigger] front[i].timestamp by {
            assert(front[i] == samples[i]);
            assert(anchor_before(anchor, front, i) == anchor_before(anchor, samples, i));
        }
        law_total_elapsed_telescopes(anchor, front);
        assert(front.last() == samples[samples.len() - 2]);
    }
}

} // verus!
