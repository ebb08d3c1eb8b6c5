//! Probe readings and the three-valued status that the accumulator consumes.

use vstd::prelude::*;

verus! {

/// The scheduling state that the operating system reports for a live process.
#[derive(Clone, Copy, Debug, PartialEq, Eq, Structural)]
pub enum SchedulerState {
    Idle,
    Run,
    Sleep,
    Stop,
    Zombie,
    Tracing,
    Dead,
    Wakekill,
    Waking,
    Parked,
    LockBlocked,
    UninterruptibleDiskSleep,
    Suspended,
    Unknown(u32),
}

/// What one probe says about the tracked process.
#[derive(Clone, Copy, Debug, PartialEq, Eq, Structural)]
pub enum ProcessStatus {
    /// The process exists and is scheduled.
    Running,
    /// The process exists but is in some other state.
    NotRunning,
    /// The process identifier no longer resolves to a live process.
    Absent,
}

/// A single probe result.
#[derive(Clone, Copy, Debug, PartialEq, Eq, Structural)]
pub struct DurationSample {
    /// When the probe was taken.
    pub timestamp: u64,
    pub status: ProcessStatus,
}

/// The status that a probe reading stands for: a missing process is `Absent`
/// (a failed query is reported as missing too), a process in the `Run` state
/// is `Running`, and every other state is `NotRunning`.
pub open spec fn classify(reading: Option<SchedulerState>) -> ProcessStatus {
    match reading {
        None => ProcessStatus::Absent,
        Some(SchedulerState::Run) => ProcessStatus::Running,
        Some(_) => ProcessStatus::NotRunning,
    }
}

impl ProcessStatus {
    /// Classifies a probe reading; `None` means that the lookup found nothing.
    pub fn from_probe(reading: Option<SchedulerState>) -> (status: ProcessStatus)
        ensures
            status == classify(reading),
    {
        match reading {
            None => ProcessStatus::Absent,
            Some(SchedulerState::Run) => ProcessStatus::Running,
            Some(_) => ProcessStatus::NotRunning,
        }
    }
}

impl DurationSample {
    /// The sample for a probe reading taken at `timestamp`.
    pub fn from_probe(reading: Option<SchedulerState>, timestamp: u64) -> (sample: DurationSample)
        ensures
            sample.timestamp == timestamp,
            sample.status == classify(reading),
    {
        DurationSample { timestamp, status: ProcessStatus::from_probe(reading) }
    }
}

} // verus!
