use time_tracker::sample::{DurationSample, ProcessStatus};
use time_tracker::session::{TickPlan, TrackedSession, REFRESH_INTERVAL};

fn running(timestamp: u64) -> DurationSample {
    DurationSample { timestamp, status: ProcessStatus::Running }
}

#[test]
fn refresh_interval_is_200_milliseconds() {
    assert_eq!(REFRESH_INTERVAL, 200_000_000);
}

#[test]
fn fresh_session_has_nothing_credited() {
    let session = TrackedSession::begin(100, 3, 5_000);
    assert_eq!(
        session,
        TrackedSession {
            process_id: 100,
            cancellation_handle: 3,
            accumulated_duration: 0,
            last_sample_instant: 5_000,
            paused: false,
            ended: false,
        }
    );
}

#[test]
fn tick_of_a_running_session_asks_for_a_probe() {
    let mut session = TrackedSession::begin(100, 0, 5_000);
    assert_eq!(session.tick(5_200), TickPlan::Probe);
    assert_eq!(session.last_sample_instant, 5_000);
}

#[test]
fn tick_of_a_paused_session_moves_the_anchor() {
    let mut session = TrackedSession::begin(100, 0, 5_000);
    session.pause();
    assert!(session.paused);
    assert_eq!(session.tick(5_200), TickPlan::Idle);
    assert_eq!(session.last_sample_instant, 5_200);
    assert_eq!(session.accumulated_duration, 0);
}

#[test]
fn paused_interval_contributes_nothing() {
    let mut session = TrackedSession::begin(100, 0, 0);
    assert!(session.absorb(running(1_000)));
    assert_eq!(session.accumulated_duration, 1_000);
    session.pause();
    // A long pause, with ticks and even samples arriving meanwhile.
    assert_eq!(session.tick(2_000), TickPlan::Idle);
    assert!(session.absorb(running(500_000)));
    assert!(session.absorb(DurationSample { timestamp: 900_000, status: ProcessStatus::NotRunning }));
    assert_eq!(session.tick(1_000_000), TickPlan::Idle);
    assert_eq!(session.accumulated_duration, 1_000);
    session.resume(10_000_000);
    assert_eq!(session.accumulated_duration, 1_000);
    assert!(!session.paused);
    assert_eq!(session.last_sample_instant, 10_000_000);
}

#[test]
fn first_sample_after_resume_is_measured_from_the_resume() {
    let mut session = TrackedSession::begin(100, 0, 0);
    assert!(session.absorb(running(1_000)));
    session.pause();
    session.resume(1_000_000_000);
    assert!(session.absorb(running(1_000_000_200)));
    // 200 since the resume, not 1_000_000_200 - 1_000 since the last sample.
    assert_eq!(session.accumulated_duration, 1_200);
}

#[test]
fn pause_and_resume_between_two_ticks_drop_the_interval_before_the_resume() {
    let mut session = TrackedSession::begin(100, 0, 0);
    assert!(session.absorb(running(1_000)));
    session.pause();
    session.resume(1_100);
    assert!(session.absorb(running(1_200)));
    assert_eq!(session.accumulated_duration, 1_100);
}

#[test]
fn resume_without_pause_keeps_the_anchor() {
    let mut session = TrackedSession::begin(100, 0, 0);
    session.resume(700);
    assert_eq!(session.last_sample_instant, 0);
    assert!(session.absorb(running(1_000)));
    assert_eq!(session.accumulated_duration, 1_000);
}

#[test]
fn absent_sample_ends_the_session_for_good() {
    let mut session = TrackedSession::begin(100, 0, 0);
    assert!(session.absorb(running(1_000)));
    assert!(!session.absorb(DurationSample { timestamp: 2_000, status: ProcessStatus::Absent }));
    assert!(session.ended);
    assert_eq!(session.accumulated_duration, 1_000);
    assert_eq!(session.last_sample_instant, 1_000);
    let ended = session;
    // Late samples, ticks and commands change nothing.
    assert!(!session.absorb(running(3_000)));
    assert_eq!(session.tick(4_000), TickPlan::Exit);
    session.pause();
    session.resume(5_000);
    assert_eq!(session, ended);
}

#[test]
fn a_single_absent_sample_suffices_to_end() {
    let mut session = TrackedSession::begin(100, 0, 0);
    assert!(!session.absorb(DurationSample { timestamp: 1, status: ProcessStatus::Absent }));
    assert!(session.ended);
}

#[test]
fn absent_sample_ends_a_paused_session_too() {
    let mut session = TrackedSession::begin(100, 0, 0);
    session.pause();
    assert!(!session.absorb(DurationSample { timestamp: 1, status: ProcessStatus::Absent }));
    assert!(session.ended);
}
