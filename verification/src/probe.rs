//! Waiting for the backend to answer on its health endpoint.
//!
//! The probe is a state machine. Its caller performs the requests and the
//! sleeps, reads the clock, and tells the probe what happened; the probe
//! says what to do next. Time is a reading of a monotonic clock in
//! milliseconds.

use crate::address::{health_url, health_url_text};
use vstd::prelude::*;

verus! {

/// The pause between a failed attempt and the next one, in milliseconds.
pub const POLL_INTERVAL_MS: u64 = 250;

/// What one request to the health endpoint came to.
#[derive(Clone, Copy, Debug, PartialEq, Eq, Structural)]
pub enum AttemptOutcome {
    /// The backend answered with this HTTP status code.
    Status(u16),
    /// No answer was received: connection refused, name not resolved, the
    /// request timed out.
    NoAnswer,
}

/// Where the probe stands.
#[derive(Clone, Copy, Debug, PartialEq, Eq, Structural)]
pub enum ProbePhase {
    /// A request is due or under way.
    Attempting,
    /// The last request failed; the probe pauses before the next one.
    Pausing,
    /// The backend answered with success. Final.
    Ready,
    /// The deadline passed without success. Final.
    TimedOut,
}

/// The backend did not become ready before the deadline.
#[derive(Clone, Copy, Debug, PartialEq, Eq, Structural)]
pub struct TimeoutError {
    /// The time since the probe started at which the deadline was found to
    /// have passed, in milliseconds.
    pub elapsed_ms: u64,
    /// What the last attempt came to.
    pub last_failure: Option<AttemptOutcome>,
}

/// What the caller of the probe does next.
#[derive(Clone, Copy, Debug, PartialEq, Eq, Structural)]
pub enum ProbeAction {
    /// Send a GET request to the probe's target and report its outcome.
    Request,
    /// Sleep for this many milliseconds, then report the clock's reading.
    Pause { millis: u64 },
    /// The backend is ready: stop.
    Succeed,
    /// The backend did not become ready in time: stop.
    Fail(TimeoutError),
    /// The report did not fit the probe's phase and changed nothing.
    Ignore,
}

/// A probe of one backend.
#[derive(Clone, Debug, PartialEq, Eq)]
pub struct ReadinessProbe {
    /// The address of the health endpoint.
    pub target: String,
    /// The clock's reading when the probe started.
    pub started_at_ms: u64,
    /// How long the probe waits for success.
    pub timeout_ms: u64,
    pub phase: ProbePhase,
    /// What the last failed attempt came to.
    pub last_failure: Option<AttemptOutcome>,
}

/// A probe as mathematical data.
pub struct ProbeView {
    pub target: Seq<char>,
    pub started_at: nat,
    pub timeout: nat,
    pub phase: ProbePhase,
    pub last_failure: Option<AttemptOutcome>,
}

impl View for ReadinessProbe {
    type V = ProbeView;

    open spec fn view(&self) -> ProbeView {
        ProbeView {
            target: self.target@,
            started_at: self.started_at_ms as nat,
            timeout: self.timeout_ms as nat,
            phase: self.phase,
            last_failure: self.last_failure,
        }
    }
}

/// Whether an HTTP status code is of the success class.
pub open spec fn is_success_status(code: u16) -> bool {
    200 <= code <= 299
}

/// Whether an attempt shows that the backend is ready.
pub open spec fn is_ready_outcome(outcome: AttemptOutcome) -> bool {
    match outcome {
        AttemptOutcome::Status(code) => is_success_status(code),
        AttemptOutcome::NoAnswer => false,
    }
}

/// The time between the probe's start and the reading `now`.
pub open spec fn elapsed(started_at: nat, now: nat) -> nat {
    if now >= started_at {
        (now - started_at) as nat
    } else {
        0
    }
}

/// The instant after which the probe gives up.
pub open spec fn deadline(p: ProbeView) -> nat {
    p.started_at + p.timeout
}

/// A probe that starts at the reading `now` on the backend at `url`.
pub open spec fn started(url: Seq<char>, now: nat, timeout: nat) -> ProbeView {
    ProbeView {
        target: health_url_text(url),
        started_at: now,
        timeout,
        phase: ProbePhase::Attempting,
        last_failure: None,
    }
}

/// The probe and the next action after an attempt's outcome was reported.
pub open spec fn after_attempt(p: ProbeView, outcome: AttemptOutcome) -> (ProbeView, ProbeAction) {
    if p.phase != ProbePhase::Attempting {
        (p, ProbeAction::Ignore)
    } else if is_ready_outcome(outcome) {
        (ProbeView { phase: ProbePhase::Ready, ..p }, ProbeAction::Succeed)
    } else {
        (
            ProbeView { phase: ProbePhase::Pausing, last_failure: Some(outcome), ..p },
            ProbeAction::Pause { millis: POLL_INTERVAL_MS },
        )
    }
}

/// The probe and the next action after a pause, at the reading `now`.
pub open spec fn after_pause(p: ProbeView, now: nat) -> (ProbeView, ProbeAction) {
    if p.phase != ProbePhase::Pausing {
        (p, ProbeAction::Ignore)
    } else if now > deadline(p) {
        (
            ProbeView { phase: ProbePhase::TimedOut, ..p },
            ProbeAction::Fail(
                TimeoutError {
                    elapsed_ms: elapsed(p.started_at, now) as u64,
                    last_failure: p.last_failure,
                },
            ),
        )
    } else {
        (ProbeView { phase: ProbePhase::Attempting, ..p }, ProbeAction::Request)
    }
}

/// Whether the probe has come to its result.
pub open spec fn is_finished(p: ProbeView) -> bool {
    p.phase == ProbePhase::Ready || p.phase == ProbePhase::TimedOut
}

/// The probe after a run of rounds without success: in round `i` the attempt
/// comes to `outcomes[i]`, and the pause that follows ends at the reading
/// `wakes[i]`.
pub open spec fn after_failed_rounds(
    p: ProbeView,
    outcomes: Seq<AttemptOutcome>,
    wakes: Seq<nat>,
) -> ProbeView
    decreases wakes.len(),
{
    if wakes.len() == 0 {
        p
    } else {
        let before = after_failed_rounds(p, outcomes.drop_last(), wakes.drop_last());
        after_pause(after_attempt(before, outcomes.last()).0, wakes.last()).0
    }
}

/// The action that the last round of such a run ends with.
pub open spec fn last_action_of_failed_rounds(
    p: ProbeView,
    outcomes: Seq<AttemptOutcome>,
    wakes: Seq<nat>,
) -> ProbeAction {
    let before = after_failed_rounds(p, outcomes.drop_last(), wakes.drop_last());
    after_pause(after_attempt(before, outcomes.last()).0, wakes.last()).1
}

/// While no reading is past the deadline, a probe whose attempts all fail
/// goes on: after every round the next request is due, and the probe
/// remembers the last failure.
pub proof fn lemma_probe_goes_on_until_deadline(
    p: ProbeView,
    outcomes: Seq<AttemptOutcome>,
    wakes: Seq<nat>,
)
    requires
        p.phase == ProbePhase::Attempting,
        outcomes.len() == wakes.len(),
        forall|i: int| 0 <= i < outcomes.len() ==> !is_ready_outcome(#[trigger] outcomes[i]),
        forall|i: int| 0 <= i < wakes.len() ==> #[trigger] wakes[i] <= deadline(p),
    ensures
        after_failed_rounds(p, outcomes, wakes) == (ProbeView {
            phase: ProbePhase::Attempting,
            last_failure: if outcomes.len() == 0 {
                p.last_failure
            } else {
                Some(outcomes.last())
            },
            ..p
        }),
    decreases wakes.len(),
{
    if wakes.len() > 0 {
        lemma_probe_goes_on_until_deadline(p, outcomes.drop_last(), wakes.drop_last());
    }
}

/// A probe whose attempts all fail gives up in time, and not before its
/// first attempt has failed.
///
/// The run starts at the reading `start`. Each round ends with a reading of
/// the clock; readings never go back, and each is at most `slack` after the
/// one before it (the first at most `slack` after `start`). The last
/// reading is the first one past the deadline. Then the probe is under way
/// after every round but the last, gives up in the last round, and does so
/// at most `slack` after the deadline. Where attempts take no time, `slack`
/// is the pause between attempts.
pub proof fn lemma_timeout_is_timely(
    url: Seq<char>,
    start: nat,
    timeout: nat,
    slack: nat,
    outcomes: Seq<AttemptOutcome>,
    wakes: Seq<nat>,
)
    requires
        wakes.len() >= 1,
        outcomes.len() == wakes.len(),
        forall|i: int| 0 <= i < outcomes.len() ==> !is_ready_outcome(#[trigger] outcomes[i]),
        start <= wakes[0] <= start + slack,
        forall|i: int|
            0 <= i < wakes.len() - 1 ==> (#[trigger] wakes[i]) <= wakes[i + 1] <= wakes[i] + slack,
        forall|i: int| 0 <= i < wakes.len() - 1 ==> #[trigger] wakes[i] <= start + timeout,
        wakes.last() > start + timeout,
    ensures
        forall|k: int|
            0 <= k < wakes.len() ==> (#[trigger] after_failed_rounds(
                started(url, start, timeout),
                outcomes.take(k),
                wakes.take(k),
            )).phase == ProbePhase::Attempting,
        after_failed_rounds(started(url, start, timeout), outcomes, wakes).phase
            == ProbePhase::TimedOut,
        last_action_of_failed_rounds(started(url, start, timeout), outcomes, wakes)
            == ProbeAction::Fail(
            TimeoutError {
                elapsed_ms: (wakes.last() - start) as u64,
                last_failure: Some(outcomes.last()),
            },
        ),
        start + timeout < wakes.last() <= start + timeout + slack,
{
    let p = started(url, start, timeout);
    let n = wakes.len() as int;
    assert forall|k: int| 0 <= k < n implies (#[trigger] after_failed_rounds(
        p,
        outcomes.take(k),
        wakes.take(k),
    )).phase == ProbePhase::Attempting by {
        lemma_probe_goes_on_until_deadline(p, outcomes.take(k), wakes.take(k));
    }
    lemma_probe_goes_on_until_deadline(p, outcomes.take(n - 1), wakes.take(n - 1));
}

/// The readings of a clock on which attempts take no time and every pause
/// takes exactly the pause between attempts: the `i`-th pause ends `i + 1`
/// pauses after `start`.
pub open spec fn punctual_wakes(start: nat, rounds: nat) -> Seq<nat> {
    Seq::new(rounds, |i: int| (start + (i + 1) * POLL_INTERVAL_MS) as nat)
}

/// With attempts that take no time and all fail, the probe gives up no
/// later than one pause after the deadline.
///
/// It makes `timeout / pause + 1` attempts, one at the start and one after
/// each pause that ends at or before the deadline, and gives up after the
/// pause that follows the last of them.
pub proof fn lemma_timeout_with_instant_attempts(
    url: Seq<char>,
    start: nat,
    timeout: nat,
    outcomes: Seq<AttemptOutcome>,
)
    requires
        outcomes.len() == timeout / (POLL_INTERVAL_MS as nat) + 1,
        forall|i: int| 0 <= i < outcomes.len() ==> !is_ready_outcome(#[trigger] outcomes[i]),
    ensures
        ({
            let wakes = punctual_wakes(start, outcomes.len());
            let given_up_at = wakes.last();
            &&& forall|k: int|
                0 <= k < wakes.len() ==> (#[trigger] after_failed_rounds(
                    started(url, start, timeout),
                    outcomes.take(k),
                    wakes.take(k),
                )).phase == ProbePhase::Attempting
            &&& after_failed_rounds(started(url, start, timeout), outcomes, wakes).phase
                == ProbePhase::TimedOut
            &&& given_up_at == start + (timeout / (POLL_INTERVAL_MS as nat) + 1) * POLL_INTERVAL_MS
            &&& start + timeout < given_up_at <= start + timeout + POLL_INTERVAL_MS
        }),
{
    let pause = POLL_INTERVAL_MS as nat;
    let full = timeout / pause;
    let wakes = punctual_wakes(start, outcomes.len());
    assert(timeout == pause * full + timeout % pause && timeout % pause < pause) by {
        vstd::arithmetic::div_mod::lemma_fundamental_div_mod(timeout as int, pause as int);
        vstd::arithmetic::div_mod::lemma_mod_bound(timeout as int, pause as int);
    }
    assert forall|i: int| 0 <= i < wakes.len() - 1 implies (#[trigger] wakes[i]) <= start
        + timeout && wakes[i] <= wakes[i + 1] <= wakes[i] + pause by {}
    lemma_timeout_is_timely(url, start, timeout, pause, outcomes, wakes);
}

/// What is reported to a probe.
pub enum ProbeReport {
    /// The request that was due came to this outcome.
    Attempt(AttemptOutcome),
    /// The pause is over, at this reading of the clock.
    PauseOver(nat),
}

/// The probe and the next action after a report.
pub open spec fn after_report(p: ProbeView, report: ProbeReport) -> (ProbeView, ProbeAction) {
    match report {
        ProbeReport::Attempt(outcome) => after_attempt(p, outcome),
        ProbeReport::PauseOver(now) => after_pause(p, now),
    }
}

/// The probe after a run of reports.
pub open spec fn after_reports(p: ProbeView, reports: Seq<ProbeReport>) -> ProbeView
    decreases reports.len(),
{
    if reports.len() == 0 {
        p
    } else {
        after_report(after_reports(p, reports.drop_last()), reports.last()).0
    }
}

/// What holds of a probe at all times: while it pauses, and once it has
/// given up, it remembers an attempt that failed.
pub open spec fn remembers_failure(p: ProbeView) -> bool {
    &&& p.phase == ProbePhase::Pausing || p.phase == ProbePhase::TimedOut ==> p.last_failure
        is Some
    &&& p.last_failure matches Some(outcome) ==> !is_ready_outcome(outcome)
}

/// Whatever is reported to a probe, in whatever order, it keeps its target,
/// its start and its timeout, and it remembers a failure while it pauses
/// and once it has given up.
pub proof fn lemma_probe_keeps_its_bearings(
    url: Seq<char>,
    start: nat,
    timeout: nat,
    reports: Seq<ProbeReport>,
)
    ensures
        ({
            let p = after_reports(started(url, start, timeout), reports);
            &&& p.target == health_url_text(url)
            &&& p.started_at == start
            &&& p.timeout == timeout
            &&& remembers_failure(p)
        }),
    decreases reports.len(),
{
    if reports.len() > 0 {
        lemma_probe_keeps_its_bearings(url, start, timeout, reports.drop_last());
    }
}

/// A probe gives up only past its deadline and only after an attempt has
/// failed; it reports success only on an outcome of the success class; and
/// once it has come to its result nothing changes it.
pub proof fn lemma_probe_never_gives_up_early(
    url: Seq<char>,
    start: nat,
    timeout: nat,
    reports: Seq<ProbeReport>,
    report: ProbeReport,
)
    ensures
        ({
            let p = after_reports(started(url, start, timeout), reports);
            let (q, action) = after_report(p, report);
            &&& action is Fail ==> {
                &&& report matches ProbeReport::PauseOver(now)
                &&& now > start + timeout
                &&& p.phase == ProbePhase::Pausing
                &&& p.last_failure is Some
                &&& action == ProbeAction::Fail(
                    TimeoutError { elapsed_ms: (now - start) as u64, last_failure: p.last_failure },
                )
            }
            &&& action is Succeed ==> {
                &&& report matches ProbeReport::Attempt(outcome)
                &&& is_ready_outcome(outcome)
            }
            &&& q.phase == ProbePhase::TimedOut <==> p.phase == ProbePhase::TimedOut || action
                is Fail
            &&& q.phase == ProbePhase::Ready <==> p.phase == ProbePhase::Ready || action
                is Succeed
            &&& is_finished(p) ==> q == p && action == ProbeAction::Ignore
        }),
{
    lemma_probe_keeps_its_bearings(url, start, timeout, reports);
}

/// Whether `code` is an HTTP status code of the success class.
pub fn status_is_success(code: u16) -> (b: bool)
    ensures
        b == is_success_status(code),
{
    200 <= code && code <= 299
}

impl AttemptOutcome {
    /// Whether this outcome shows that the backend is ready.
    pub fn is_ready(&self) -> (b: bool)
        ensures
            b == is_ready_outcome(*self),
    {
        match self {
            AttemptOutcome::Status(code) => status_is_success(*code),
            AttemptOutcome::NoAnswer => false,
        }
    }
}

impl ReadinessProbe {
    /// Starts a probe of the backend at `url` at the clock's reading
    /// `now_ms`. The first request is due at once.
    pub fn start(url: &str, now_ms: u64, timeout_ms: u64) -> (probe: ReadinessProbe)
        ensures
            probe@ == started(url@, now_ms as nat, timeout_ms as nat),
    {
        ReadinessProbe {
            target: health_url(url),
            started_at_ms: now_ms,
            timeout_ms,
            phase: ProbePhase::Attempting,
            last_failure: None,
        }
    }

    /// Takes the outcome of the request that was due. Success ends the
    /// probe; anything else is followed by a pause.
    pub fn on_attempt(&mut self, outcome: AttemptOutcome) -> (action: ProbeAction)
        ensures
            (final(self)@, action) == after_attempt(old(self)@, outcome),
    {
        match self.phase {
            ProbePhase::Attempting => {
                if outcome.is_ready() {
                    self.phase = ProbePhase::Ready;
                    ProbeAction::Succeed
                } else {
                    self.phase = ProbePhase::Pausing;
                    self.last_failure = Some(outcome);
                    ProbeAction::Pause { millis: POLL_INTERVAL_MS }
                }
            },
            _ => ProbeAction::Ignore,
        }
    }

    /// Takes the clock's reading after the pause. Past the deadline the
    /// probe gives up; before it the next request is due.
    pub fn on_pause_over(&mut self, now_ms: u64) -> (action: ProbeAction)
        ensures
            (final(self)@, action) == after_pause(old(self)@, now_ms as nat),
    {
        match self.phase {
            ProbePhase::Pausing => {
                let waited: u64 = if now_ms >= self.started_at_ms {
                    now_ms - self.started_at_ms
                } else {
                    0
                };
                if waited > self.timeout_ms {
                    self.phase = ProbePhase::TimedOut;
                    ProbeAction::Fail(
                        TimeoutError { elapsed_ms: waited, last_failure: self.last_failure },
                    )
                } else {
                    self.phase = ProbePhase::Attempting;
                    ProbeAction::Request
                }
            },
            _ => ProbeAction::Ignore,
        }
    }

    /// The probe's result: `None` while it is under way.
    pub fn result(&self) -> (r: Option<bool>)
        ensures
            r == match self.phase {
                ProbePhase::Ready => Some(true),
                ProbePhase::TimedOut => Some(false),
                _ => None::<bool>,
            },
    {
        match self.phase {
            ProbePhase::Ready => Some(true),
            ProbePhase::TimedOut => Some(false),
            _ => None,
        }
    }
}

} // verus!
