use n8n_supervisor::probe::{
    status_is_success, AttemptOutcome, ProbeAction, ProbePhase, ReadinessProbe, TimeoutError,
    POLL_INTERVAL_MS,
};

/// Runs a probe against outcomes that take no time. `outcome_of(n)` is what
/// the `n`-th attempt comes to, counted from 1. Gives the last action, the
/// clock's reading at the end and the number of attempts.
fn drive(
    start_ms: u64,
    timeout_ms: u64,
    outcome_of: fn(u64) -> AttemptOutcome,
) -> (ProbeAction, u64, u64) {
    let mut probe = ReadinessProbe::start("http://localhost:5678", start_ms, timeout_ms);
    let mut now = start_ms;
    let mut attempts = 0;
    let mut action = ProbeAction::Request;
    loop {
        action = match action {
            ProbeAction::Request => {
                attempts += 1;
                probe.on_attempt(outcome_of(attempts))
            }
            ProbeAction::Pause { millis } => {
                now += millis;
                probe.on_pause_over(now)
            }
            last => return (last, now, attempts),
        };
        assert!(attempts < 1000);
    }
}

fn always_unavailable(_: u64) -> AttemptOutcome {
    AttemptOutcome::Status(503)
}

fn never_answers(_: u64) -> AttemptOutcome {
    AttemptOutcome::NoAnswer
}

fn ready_on_third(n: u64) -> AttemptOutcome {
    if n >= 3 {
        AttemptOutcome::Status(200)
    } else {
        AttemptOutcome::Status(503)
    }
}

fn ready_at_once(_: u64) -> AttemptOutcome {
    AttemptOutcome::Status(204)
}

#[test]
fn poll_interval_value() {
    assert_eq!(POLL_INTERVAL_MS, 250);
}

#[test]
fn success_class_is_200_to_299() {
    assert!(!status_is_success(0));
    assert!(!status_is_success(199));
    assert!(status_is_success(200));
    assert!(status_is_success(204));
    assert!(status_is_success(299));
    assert!(!status_is_success(300));
    assert!(!status_is_success(404));
    assert!(!status_is_success(503));
    assert!(!status_is_success(65535));
}

#[test]
fn outcome_readiness() {
    assert!(AttemptOutcome::Status(200).is_ready());
    assert!(!AttemptOutcome::Status(503).is_ready());
    assert!(!AttemptOutcome::NoAnswer.is_ready());
}

#[test]
fn probe_targets_the_health_endpoint() {
    let probe = ReadinessProbe::start("http://localhost:15000", 10, 2000);
    assert_eq!(probe.target, "http://localhost:15000/healthz");
    assert_eq!(probe.started_at_ms, 10);
    assert_eq!(probe.timeout_ms, 2000);
    assert_eq!(probe.phase, ProbePhase::Attempting);
    assert_eq!(probe.last_failure, None);
    assert_eq!(probe.result(), None);
}

#[test]
fn always_unavailable_times_out_after_two_seconds() {
    let (action, now, attempts) = drive(0, 2000, always_unavailable);
    assert_eq!(
        action,
        ProbeAction::Fail(TimeoutError {
            elapsed_ms: 2250,
            last_failure: Some(AttemptOutcome::Status(503)),
        })
    );
    assert_eq!(now, 2250);
    assert_eq!(attempts, 9);
    assert!(now >= 2000 - 250 && now <= 2000 + 250);
}

#[test]
fn timeout_is_counted_from_the_start_reading() {
    let (action, now, attempts) = drive(1_000_000, 2000, never_answers);
    assert_eq!(
        action,
        ProbeAction::Fail(TimeoutError {
            elapsed_ms: 2250,
            last_failure: Some(AttemptOutcome::NoAnswer),
        })
    );
    assert_eq!(now, 1_002_250);
    assert_eq!(attempts, 9);
}

#[test]
fn ready_on_third_attempt_succeeds_after_half_a_second() {
    let (action, now, attempts) = drive(0, 2000, ready_on_third);
    assert_eq!(action, ProbeAction::Succeed);
    assert_eq!(attempts, 3);
    assert_eq!(now, 500);
    assert!(now >= 500 && now <= 750);
}

#[test]
fn ready_at_once_needs_one_attempt() {
    let (action, now, attempts) = drive(7, 2000, ready_at_once);
    assert_eq!(action, ProbeAction::Succeed);
    assert_eq!(attempts, 1);
    assert_eq!(now, 7);
}

#[test]
fn zero_timeout_still_makes_one_attempt() {
    let (action, now, attempts) = drive(0, 0, always_unavailable);
    assert_eq!(
        action,
        ProbeAction::Fail(TimeoutError {
            elapsed_ms: 250,
            last_failure: Some(AttemptOutcome::Status(503)),
        })
    );
    assert_eq!(now, 250);
    assert_eq!(attempts, 1);
}

#[test]
fn reading_at_the_deadline_is_not_past_it() {
    let mut probe = ReadinessProbe::start("http://localhost:5678", 100, 2000);
    assert_eq!(
        probe.on_attempt(AttemptOutcome::NoAnswer),
        ProbeAction::Pause { millis: 250 }
    );
    assert_eq!(probe.phase, ProbePhase::Pausing);
    assert_eq!(probe.on_pause_over(2100), ProbeAction::Request);
    assert_eq!(probe.phase, ProbePhase::Attempting);
    assert_eq!(
        probe.on_attempt(AttemptOutcome::Status(500)),
        ProbeAction::Pause { millis: 250 }
    );
    assert_eq!(
        probe.on_pause_over(2101),
        ProbeAction::Fail(TimeoutError {
            elapsed_ms: 2001,
            last_failure: Some(AttemptOutcome::Status(500)),
        })
    );
    assert_eq!(probe.phase, ProbePhase::TimedOut);
    assert_eq!(probe.result(), Some(false));
}

#[test]
fn slow_attempts_delay_the_timeout() {
    let mut probe = ReadinessProbe::start("http://localhost:5678", 0, 2000);
    assert_eq!(
        probe.on_attempt(AttemptOutcome::NoAnswer),
        ProbeAction::Pause { millis: 250 }
    );
    assert_eq!(
        probe.on_pause_over(30_250),
        ProbeAction::Fail(TimeoutError {
            elapsed_ms: 30_250,
            last_failure: Some(AttemptOutcome::NoAnswer),
        })
    );
}

#[test]
fn clock_behind_the_start_counts_as_no_time() {
    let mut probe = ReadinessProbe::start("http://localhost:5678", 5000, 0);
    probe.on_attempt(AttemptOutcome::NoAnswer);
    assert_eq!(probe.on_pause_over(10), ProbeAction::Request);
}

#[test]
fn largest_readings_do_not_overflow() {
    let mut probe = ReadinessProbe::start("http://localhost:5678", u64::MAX, u64::MAX);
    probe.on_attempt(AttemptOutcome::NoAnswer);
    assert_eq!(probe.on_pause_over(u64::MAX), ProbeAction::Request);
    let mut probe = ReadinessProbe::start("http://localhost:5678", 0, u64::MAX);
    probe.on_attempt(AttemptOutcome::NoAnswer);
    assert_eq!(probe.on_pause_over(u64::MAX), ProbeAction::Request);
    let mut probe = ReadinessProbe::start("http://localhost:5678", 0, u64::MAX - 1);
    probe.on_attempt(AttemptOutcome::NoAnswer);
    assert_eq!(
        probe.on_pause_over(u64::MAX),
        ProbeAction::Fail(TimeoutError {
            elapsed_ms: u64::MAX,
            last_failure: Some(AttemptOutcome::NoAnswer),
        })
    );
}

#[test]
fn success_ends_the_probe() {
    let mut probe = ReadinessProbe::start("http://localhost:5678", 0, 2000);
    assert_eq!(probe.on_attempt(AttemptOutcome::Status(200)), ProbeAction::Succeed);
    assert_eq!(probe.phase, ProbePhase::Ready);
    assert_eq!(probe.result(), Some(true));
    assert_eq!(probe.on_attempt(AttemptOutcome::Status(503)), ProbeAction::Ignore);
    assert_eq!(probe.on_pause_over(9999), ProbeAction::Ignore);
    assert_eq!(probe.phase, ProbePhase::Ready);
}

#[test]
fn reports_that_do_not_fit_are_ignored() {
    let mut probe = ReadinessProbe::start("http://localhost:5678", 0, 2000);
    let before = probe.clone();
    assert_eq!(probe.on_pause_over(5000), ProbeAction::Ignore);
    assert_eq!(probe, before);
    probe.on_attempt(AttemptOutcome::NoAnswer);
    let pausing = probe.clone();
    assert_eq!(probe.on_attempt(AttemptOutcome::Status(200)), ProbeAction::Ignore);
    assert_eq!(probe, pausing);
}
