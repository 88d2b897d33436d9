use ui_core::progress::{
    share_of, Advance, ProgressState, SignalHandle, DEFAULT_DURATION_MS, MIN_INTERVAL_MS, UNIT,
};
use ui_core::progress_runs::ProgressStep;

#[test]
fn new_progress_is_idle() {
    let p = ProgressState::new();
    assert_eq!(p.values(), (UNIT, 0));
    assert!(!p.running());
    assert!(!p.completed());
    assert_eq!(p.duration(), DEFAULT_DURATION_MS);
    assert_eq!(p.duration(), 15000);
    assert_eq!(p.id(), "");
    let d = ProgressState::default();
    assert_eq!(d.values(), (1_000_000, 0));
}

#[test]
fn timed_progress_runs_to_completion_and_signals_once() {
    let mut p = ProgressState::new();
    p.timed("p", 1000, Some(SignalHandle(7)));
    assert_eq!(p.id(), "p");
    assert!(p.running());
    assert_eq!(p.value(), 0);
    assert_eq!(p.values(), (UNIT, 0));

    let a = p.advance_by(500);
    assert_eq!(a, Advance { completed: false, fired: None });
    assert_eq!(p.value(), 500_000);

    let b = p.advance_by(1200);
    assert_eq!(b, Advance { completed: true, fired: Some(SignalHandle(7)) });
    assert_eq!(p.value(), UNIT);
    assert!(p.completed());

    let c = p.advance_by(1300);
    assert_eq!(c, Advance { completed: true, fired: None });
    assert_eq!(p.value(), UNIT);
}

#[test]
fn timed_progress_at_time_zero() {
    let mut p = ProgressState::new();
    p.timed("p", 1000, None);
    let a = p.advance_by(0);
    assert_eq!(a, Advance { completed: false, fired: None });
    assert_eq!(p.value(), 0);
}

#[test]
fn clock_poll_moves_forward_only() {
    let mut p = ProgressState::new();
    p.timed("p", 3_600_000, None);
    let a = p.advance();
    assert!(!a.completed);
    let first = p.value();
    assert!(first < UNIT);
    let b = p.advance();
    assert!(!b.completed);
    assert!(p.value() >= first);
}

#[test]
fn clock_poll_of_an_instant_run_completes() {
    let mut p = ProgressState::new();
    p.timed("p", 0, Some(SignalHandle(1)));
    let a = p.advance();
    assert_eq!(a, Advance { completed: true, fired: Some(SignalHandle(1)) });
    let b = p.advance();
    assert_eq!(b, Advance { completed: true, fired: None });
}

#[test]
fn poll_without_timer_does_nothing() {
    let mut p = ProgressState::new();
    p.start("job", 100, 10, Some(SignalHandle(3)));
    let a = p.advance_by(1_000_000);
    assert_eq!(a, Advance { completed: false, fired: None });
    assert_eq!(p.values(), (100, 10));
    let b = p.advance();
    assert_eq!(b, Advance { completed: false, fired: None });
}

#[test]
fn poll_of_a_stopped_progress_does_nothing() {
    let mut p = ProgressState::new();
    p.timed("p", 1000, None);
    p.reset();
    let a = p.advance_by(2000);
    assert_eq!(a, Advance { completed: false, fired: None });
    assert_eq!(p.value(), 0);
}

#[test]
fn start_sets_fields_and_holds_value_to_max() {
    let mut p = ProgressState::new();
    p.start("job", 100, 40, None);
    assert_eq!(p.id(), "job");
    assert_eq!(p.values(), (100, 40));
    assert!(p.running());
    p.start("job", 100, 400, None);
    assert_eq!(p.values(), (100, 100));
}

#[test]
fn set_completes_at_max_and_signals_once() {
    let mut p = ProgressState::new();
    p.start("job", 100, 0, Some(SignalHandle(9)));
    assert_eq!(p.set(50), None);
    assert_eq!(p.value(), 50);
    assert!(!p.completed());
    assert_eq!(p.set(250), Some(SignalHandle(9)));
    assert_eq!(p.value(), 100);
    assert!(p.completed());
    assert_eq!(p.set(100), None);
    assert_eq!(p.complete(), None);
    assert_eq!(p.signal(), None);
}

#[test]
fn reset_rearms_the_signal() {
    let mut p = ProgressState::new();
    p.start("job", 100, 0, Some(SignalHandle(9)));
    assert_eq!(p.complete(), Some(SignalHandle(9)));
    assert_eq!(p.complete(), None);
    p.reset();
    assert_eq!(p.value(), 0);
    assert!(!p.running());
    assert_eq!(p.complete(), Some(SignalHandle(9)));
}

#[test]
fn completion_without_listener_raises_nothing() {
    let mut p = ProgressState::new();
    p.start("job", 100, 0, None);
    assert_eq!(p.complete(), None);
    assert_eq!(p.value(), 100);
}

#[test]
fn interval_is_a_fraction_of_the_duration() {
    let mut p = ProgressState::new();
    assert_eq!(p.interval(), 30);
    p.timed("p", 1000, None);
    assert_eq!(p.interval(), 2);
    p.timed("p", 100_000, None);
    assert_eq!(p.interval(), 50);
    assert_eq!(MIN_INTERVAL_MS, 50);
}

#[test]
fn elapsed_share_values() {
    assert_eq!(share_of(500, 1000), 500_000);
    assert_eq!(share_of(1, 3), 333_333);
    assert_eq!(share_of(0, 1000), 0);
    assert_eq!(share_of(1000, 1000), UNIT);
    assert_eq!(share_of(5000, 1000), UNIT);
    assert_eq!(share_of(0, 0), UNIT);
    assert_eq!(share_of(u64::MAX - 1, u64::MAX), 999_999);
}

#[test]
fn successive_polls_never_lower_the_value() {
    let mut p = ProgressState::new();
    p.timed("p", 977, None);
    let mut last = 0;
    let mut t = 0;
    while t < 1200 {
        p.advance_by(t);
        assert!(p.value() >= last);
        last = p.value();
        t += 37;
    }
    assert_eq!(last, UNIT);
}

#[test]
fn a_run_of_steps_raises_the_signal_once() {
    let mut p = ProgressState::new();
    p.timed("p", 1000, Some(SignalHandle(4)));
    let steps = [
        ProgressStep::Poll(100),
        ProgressStep::SetValue(10),
        ProgressStep::Poll(2000),
        ProgressStep::Complete,
        ProgressStep::Signal,
        ProgressStep::SetValue(UNIT),
        ProgressStep::Poll(3000),
    ];
    let mut raised = 0;
    for s in steps {
        if p.apply(s).is_some() {
            raised += 1;
        }
    }
    assert_eq!(raised, 1);
}

#[test]
fn clone_keeps_the_state() {
    let mut p = ProgressState::new();
    p.start("job", 100, 40, None);
    let q = p.clone();
    assert_eq!(q.values(), (100, 40));
    assert_eq!(q.id(), "job");
}

#[test]
fn timer_start_is_the_instant_given() {
    let t0 = std::time::Instant::now();
    let mut p = ProgressState::new();
    assert_eq!(p.started_at(), None);
    p.timed_at("p", 1000, Some(SignalHandle(2)), t0);
    assert_eq!(p.started_at(), Some(t0));
    assert_eq!(p.values(), (UNIT, 0));
    assert!(p.running());
    p.advance_by(100);
    p.set(5);
    p.signal();
    p.complete();
    p.start("q", 10, 1, None);
    p.apply(ProgressStep::Poll(3));
    assert_eq!(p.started_at(), Some(t0));
}

#[test]
fn reset_restarts_a_started_timer_only() {
    let t0 = std::time::Instant::now();
    let t1 = t0 + std::time::Duration::from_millis(250);
    let mut idle = ProgressState::new();
    idle.reset_at(t1);
    assert_eq!(idle.started_at(), None);
    idle.reset();
    assert_eq!(idle.started_at(), None);
    let mut p = ProgressState::new();
    p.timed_at("p", 1000, None, t0);
    p.advance_by(400);
    p.reset_at(t1);
    assert_eq!(p.started_at(), Some(t1));
    assert_eq!(p.value(), 0);
    assert!(!p.running());
    p.reset();
    assert!(p.started_at().unwrap() >= t0);
}

#[test]
fn timed_reads_the_clock() {
    let before = std::time::Instant::now();
    let mut p = ProgressState::new();
    p.timed("p", 1000, None);
    let after = std::time::Instant::now();
    let start = p.started_at().unwrap();
    assert!(before <= start && start <= after);
}
