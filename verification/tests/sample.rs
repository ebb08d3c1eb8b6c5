use time_tracker::sample::{DurationSample, ProcessStatus, SchedulerState};

#[test]
fn missing_process_is_absent() {
    assert_eq!(ProcessStatus::from_probe(None), ProcessStatus::Absent);
}

#[test]
fn only_the_run_state_is_running() {
    assert_eq!(ProcessStatus::from_probe(Some(SchedulerState::Run)), ProcessStatus::Running);
    let others = [
        SchedulerState::Idle,
        SchedulerState::Sleep,
        SchedulerState::Stop,
        SchedulerState::Zombie,
        SchedulerState::Tracing,
        SchedulerState::Dead,
        SchedulerState::Wakekill,
        SchedulerState::Waking,
        SchedulerState::Parked,
        SchedulerState::LockBlocked,
        SchedulerState::UninterruptibleDiskSleep,
        SchedulerState::Suspended,
        SchedulerState::Unknown(0),
        SchedulerState::Unknown(42),
    ];
    for state in others {
        assert_eq!(ProcessStatus::from_probe(Some(state)), ProcessStatus::NotRunning);
    }
}

#[test]
fn sample_carries_timestamp_and_status() {
    let sample = DurationSample::from_probe(Some(SchedulerState::Run), 1_234);
    assert_eq!(sample, DurationSample { timestamp: 1_234, status: ProcessStatus::Running });
    let gone = DurationSample::from_probe(None, 5);
    assert_eq!(gone, DurationSample { timestamp: 5, status: ProcessStatus::Absent });
    let asleep = DurationSample::from_probe(Some(SchedulerState::Sleep), 6);
    assert_eq!(asleep, DurationSample { timestamp: 6, status: ProcessStatus::NotRunning });
}
