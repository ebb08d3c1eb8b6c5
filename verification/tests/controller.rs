use time_tracker::controller::{LoopState, SessionController, StartOutcome, TickOutcome};
use time_tracker::publisher::DurationPublisher;
use time_tracker::sample::{DurationSample, ProcessStatus};
use time_tracker::session::{TickPlan, TrackedSession};

const SECOND: u64 = 1_000_000_000;
const TICK: u64 = 200_000_000;

fn running(timestamp: u64) -> DurationSample {
    DurationSample { timestamp, status: ProcessStatus::Running }
}

fn absent(timestamp: u64) -> DurationSample {
    DurationSample { timestamp, status: ProcessStatus::Absent }
}

fn accumulated(controller: &SessionController) -> u64 {
    controller.session().unwrap().accumulated_duration
}

#[test]
fn new_controller_is_idle() {
    let controller = SessionController::new();
    assert_eq!(controller.session(), None);
    assert_eq!(controller.tracked_process(), None);
    assert!(!controller.is_paused());
    assert!(!controller.is_session_ended());
    assert_eq!(controller.current_duration_text(), "--:--:--");
    assert_eq!(controller.publisher(), DurationPublisher::new());
    assert_eq!(controller.pending_cancellations(), 0);
    assert_eq!(controller.loop_state(0), LoopState::Terminated);
}

#[test]
fn track_pause_resume_scenario() {
    let mut controller = SessionController::new();
    let started = controller.start_session(100, 0);
    assert_eq!(started, StartOutcome::Started { handle: 0, retired: None });
    for step in 1..=5u64 {
        assert_eq!(controller.begin_tick(0, step * TICK), TickPlan::Probe);
        let outcome = controller.complete_tick(0, running(step * TICK));
        assert!(matches!(outcome, TickOutcome::Published { .. }));
    }
    assert_eq!(accumulated(&controller), SECOND);
    assert_eq!(controller.current_duration_text(), "00:00:01");

    controller.pause();
    let mut now = SECOND;
    while now < 11 * SECOND {
        now += TICK;
        assert_eq!(controller.begin_tick(0, now), TickPlan::Idle);
    }
    controller.resume(11 * SECOND);
    assert_eq!(controller.current_duration_text(), "00:00:01");
    assert_eq!(accumulated(&controller), SECOND);

    assert_eq!(controller.begin_tick(0, 11 * SECOND + TICK), TickPlan::Probe);
    let outcome = controller.complete_tick(0, running(11 * SECOND + TICK));
    assert_eq!(outcome, TickOutcome::Published { display_changed: false });
    assert_eq!(accumulated(&controller), SECOND + TICK);
    assert_eq!(controller.current_duration_text(), "00:00:01");
}

#[test]
fn display_change_is_reported_when_the_seconds_change() {
    let mut controller = SessionController::new();
    controller.start_session(100, 0);
    assert_eq!(controller.current_duration_text(), "--:--:--");
    // The first write replaces the placeholder.
    assert_eq!(controller.complete_tick(0, running(TICK)), TickOutcome::Published { display_changed: true });
    assert_eq!(controller.current_duration_text(), "00:00:00");
    assert_eq!(controller.complete_tick(0, running(2 * TICK)), TickOutcome::Published { display_changed: false });
    assert_eq!(controller.complete_tick(0, running(SECOND)), TickOutcome::Published { display_changed: true });
    assert_eq!(controller.current_duration_text(), "00:00:01");
    let idle = DurationSample { timestamp: 5 * SECOND, status: ProcessStatus::NotRunning };
    assert_eq!(controller.complete_tick(0, idle), TickOutcome::Published { display_changed: false });
    assert_eq!(accumulated(&controller), SECOND);
}

#[test]
fn starting_the_tracked_process_again_is_a_noop() {
    let mut controller = SessionController::new();
    controller.start_session(100, 0);
    controller.complete_tick(0, running(3 * SECOND));
    controller.pause();
    let before = controller.session();
    assert_eq!(controller.start_session(100, 9 * SECOND), StartOutcome::AlreadyTracked);
    assert_eq!(controller.session(), before);
    assert!(controller.is_paused());
    assert_eq!(controller.loop_state(0), LoopState::Active);
    assert_eq!(controller.pending_cancellations(), 0);
    assert_eq!(controller.current_duration_text(), "00:00:03");
}

#[test]
fn new_session_resets_pause_and_total() {
    let mut controller = SessionController::new();
    controller.start_session(100, 0);
    controller.complete_tick(0, running(3 * SECOND));
    controller.pause();
    let started = controller.start_session(200, 4 * SECOND);
    assert_eq!(started, StartOutcome::Started { handle: 1, retired: Some(0) });
    assert_eq!(controller.session(), Some(TrackedSession::begin(200, 1, 4 * SECOND)));
    assert!(!controller.is_paused());
    assert_eq!(controller.tracked_process(), Some(200));
    assert_eq!(controller.current_duration_text(), "--:--:--");
}

#[test]
fn late_sample_of_the_old_sampler_does_not_touch_the_new_session() {
    let mut controller = SessionController::new();
    controller.start_session(100, 0);
    controller.complete_tick(0, running(2 * SECOND));
    let started = controller.start_session(200, 3 * SECOND);
    assert_eq!(started, StartOutcome::Started { handle: 1, retired: Some(0) });
    assert_eq!(controller.loop_state(0), LoopState::Cancelling);
    assert_eq!(controller.loop_state(1), LoopState::Active);
    assert_eq!(controller.pending_cancellations(), 1);

    controller.complete_tick(1, running(3 * SECOND + TICK));
    let session = controller.session();
    let slot = controller.publisher();

    // The old sampler was in the middle of a probe when it was retired.
    assert_eq!(controller.complete_tick(0, running(60 * SECOND)), TickOutcome::Exit);
    assert_eq!(controller.session(), session);
    assert_eq!(controller.publisher(), slot);
    assert_eq!(accumulated(&controller), TICK);
    assert_eq!(controller.loop_state(0), LoopState::Terminated);
    assert_eq!(controller.pending_cancellations(), 0);

    // Whatever else it sends is dropped as well.
    assert_eq!(controller.begin_tick(0, 61 * SECOND), TickPlan::Exit);
    assert_eq!(controller.complete_tick(0, absent(62 * SECOND)), TickOutcome::Exit);
    assert!(!controller.acknowledge(0));
    assert_eq!(controller.session(), session);
    assert_eq!(controller.publisher(), slot);
    assert!(!controller.is_session_ended());
}

#[test]
fn cancelled_sampler_exits_on_its_next_tick_without_sampling() {
    let mut controller = SessionController::new();
    controller.start_session(100, 0);
    assert_eq!(controller.stop(), Some(0));
    assert_eq!(controller.loop_state(0), LoopState::Cancelling);
    assert_eq!(controller.begin_tick(0, TICK), TickPlan::Exit);
    assert_eq!(controller.loop_state(0), LoopState::Terminated);
}

#[test]
fn acknowledge_finishes_a_cancellation_once() {
    let mut controller = SessionController::new();
    controller.start_session(100, 0);
    controller.start_session(200, 1);
    controller.start_session(300, 2);
    assert_eq!(controller.pending_cancellations(), 2);
    assert_eq!(controller.loop_state(0), LoopState::Cancelling);
    assert_eq!(controller.loop_state(1), LoopState::Cancelling);
    assert_eq!(controller.loop_state(2), LoopState::Active);
    assert!(controller.acknowledge(0));
    assert!(!controller.acknowledge(0));
    assert_eq!(controller.pending_cancellations(), 1);
    assert_eq!(controller.loop_state(0), LoopState::Terminated);
    assert_eq!(controller.loop_state(1), LoopState::Cancelling);
    // The active sampler is not waited for.
    assert!(!controller.acknowledge(2));
    assert_eq!(controller.loop_state(2), LoopState::Active);
    assert!(controller.acknowledge(1));
    assert_eq!(controller.pending_cancellations(), 0);
}

#[test]
fn absent_sample_ends_the_session() {
    let mut controller = SessionController::new();
    controller.start_session(100, 0);
    controller.complete_tick(0, running(2 * SECOND));
    assert!(!controller.is_session_ended());
    assert_eq!(controller.complete_tick(0, absent(3 * SECOND)), TickOutcome::Ended);
    assert!(controller.is_session_ended());
    assert_eq!(controller.loop_state(0), LoopState::Terminated);
    assert_eq!(controller.tracked_process(), Some(100));
    assert_eq!(accumulated(&controller), 2 * SECOND);
    assert_eq!(controller.current_duration_text(), "00:00:02");

    // Stale samples and ticks after the end change nothing.
    let session = controller.session();
    let slot = controller.publisher();
    assert_eq!(controller.complete_tick(0, running(9 * SECOND)), TickOutcome::Exit);
    assert_eq!(controller.begin_tick(0, 10 * SECOND), TickPlan::Exit);
    controller.pause();
    controller.resume(11 * SECOND);
    assert_eq!(controller.session(), session);
    assert_eq!(controller.publisher(), slot);
    assert!(controller.is_session_ended());
}

#[test]
fn ended_flag_is_cleared_by_stop_and_by_a_new_session() {
    let mut controller = SessionController::new();
    controller.start_session(100, 0);
    controller.complete_tick(0, absent(SECOND));
    assert!(controller.is_session_ended());
    // The sampler has left by itself: there is nothing to cancel.
    assert_eq!(controller.stop(), None);
    assert!(!controller.is_session_ended());
    assert_eq!(controller.pending_cancellations(), 0);

    controller.start_session(100, 2 * SECOND);
    controller.complete_tick(1, absent(3 * SECOND));
    assert!(controller.is_session_ended());
    let started = controller.start_session(200, 4 * SECOND);
    assert_eq!(started, StartOutcome::Started { handle: 2, retired: None });
    assert!(!controller.is_session_ended());
}

#[test]
fn stop_without_a_session_is_a_noop() {
    let mut controller = SessionController::new();
    assert_eq!(controller.stop(), None);
    assert_eq!(controller.stop(), None);
    assert_eq!(controller.session(), None);
    assert_eq!(controller.publisher(), DurationPublisher::new());
    assert_eq!(controller.pending_cancellations(), 0);
    // The next session still gets the first handle.
    assert_eq!(controller.start_session(5, 0), StartOutcome::Started { handle: 0, retired: None });
}

#[test]
fn stop_drops_the_session_and_shows_the_placeholder() {
    let mut controller = SessionController::new();
    controller.start_session(100, 0);
    controller.complete_tick(0, running(5 * SECOND));
    assert_eq!(controller.current_duration_text(), "00:00:05");
    assert_eq!(controller.stop(), Some(0));
    assert_eq!(controller.session(), None);
    assert_eq!(controller.tracked_process(), None);
    assert_eq!(controller.current_duration_text(), "--:--:--");
    assert_eq!(controller.stop(), None);
    // The same process can be tracked again, from zero.
    let started = controller.start_session(100, 6 * SECOND);
    assert_eq!(started, StartOutcome::Started { handle: 1, retired: None });
    assert_eq!(accumulated(&controller), 0);
}

#[test]
fn pause_and_resume_without_a_session_do_nothing() {
    let mut controller = SessionController::new();
    controller.pause();
    assert!(!controller.is_paused());
    controller.resume(SECOND);
    controller.toggle_pause(SECOND);
    assert!(!controller.is_paused());
    assert_eq!(controller.session(), None);
    controller.start_session(100, 2 * SECOND);
    assert!(!controller.is_paused());
}

#[test]
fn toggle_pause_alternates() {
    let mut controller = SessionController::new();
    controller.start_session(100, 0);
    controller.complete_tick(0, running(SECOND));
    controller.toggle_pause(2 * SECOND);
    assert!(controller.is_paused());
    assert_eq!(controller.session().unwrap().last_sample_instant, SECOND);
    controller.toggle_pause(50 * SECOND);
    assert!(!controller.is_paused());
    assert_eq!(controller.session().unwrap().last_sample_instant, 50 * SECOND);
    controller.complete_tick(0, running(50 * SECOND + TICK));
    assert_eq!(accumulated(&controller), SECOND + TICK);
}

#[test]
fn sample_arriving_after_a_pause_is_not_credited() {
    let mut controller = SessionController::new();
    controller.start_session(100, 0);
    assert_eq!(controller.begin_tick(0, TICK), TickPlan::Probe);
    // The pause lands between the tick and the probe's result.
    controller.pause();
    assert_eq!(controller.complete_tick(0, running(TICK)), TickOutcome::Published { display_changed: true });
    assert_eq!(accumulated(&controller), 0);
    assert_eq!(controller.session().unwrap().last_sample_instant, TICK);
}

#[test]
fn shutdown_lists_every_sampler_that_has_not_reported_back() {
    let mut controller = SessionController::new();
    controller.start_session(100, 0);
    controller.start_session(200, 1);
    controller.start_session(300, 2);
    assert!(controller.acknowledge(0));
    let mut pending = controller.shutdown();
    pending.sort();
    assert_eq!(pending, vec![1, 2]);
    assert_eq!(controller.session(), None);
    assert_eq!(controller.current_duration_text(), "--:--:--");
    assert_eq!(controller.pending_cancellations(), 2);
    assert!(controller.acknowledge(2));
    assert!(controller.acknowledge(1));
    assert_eq!(controller.pending_cancellations(), 0);
    assert_eq!(controller.shutdown(), Vec::<u64>::new());
}

#[test]
fn handles_are_never_reused() {
    let mut controller = SessionController::with_first_handle(u64::MAX - 2);
    assert_eq!(
        controller.start_session(1, 0),
        StartOutcome::Started { handle: u64::MAX - 2, retired: None }
    );
    assert_eq!(
        controller.start_session(2, 0),
        StartOutcome::Started { handle: u64::MAX - 1, retired: Some(u64::MAX - 2) }
    );
    let before = controller.session();
    assert_eq!(controller.start_session(3, 0), StartOutcome::HandlesExhausted);
    assert_eq!(controller.session(), before);
    assert_eq!(controller.loop_state(u64::MAX - 1), LoopState::Active);
    assert_eq!(controller.start_session(2, 0), StartOutcome::AlreadyTracked);
    assert_eq!(controller.stop(), Some(u64::MAX - 1));
    assert_eq!(controller.start_session(3, 0), StartOutcome::HandlesExhausted);
    assert_eq!(controller.session(), None);
}

#[test]
fn published_duration_never_goes_back() {
    let mut controller = SessionController::new();
    controller.start_session(100, 10 * SECOND);
    let stamps: [u64; 6] = [11 * SECOND, 9 * SECOND, 12 * SECOND, 12 * SECOND, 3 * SECOND, 20 * SECOND];
    let mut shown: u64 = 0;
    for stamp in stamps {
        controller.complete_tick(0, running(stamp));
        let latest = controller.publisher().latest.unwrap();
        assert!(latest >= shown);
        assert_eq!(latest, accumulated(&controller));
        shown = latest;
    }
    // 1 + 0 + 3 + 0 + 0 + 17 seconds: backward jumps of the clock credit nothing.
    assert_eq!(shown, 21 * SECOND);
    assert_eq!(controller.current_duration_text(), "00:00:21");
}
