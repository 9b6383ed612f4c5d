//! The startup sequence of the backend, as a state machine.
//!
//! The supervisor decides; its caller acts. The caller picks the port,
//! fetches the secret, creates the process and runs the readiness probe,
//! and reports each result as an event. The supervisor answers with the
//! next action and, once the backend counts as started, holds its address
//! for client queries.

use crate::address::{placeholder_url_text, server_url, server_url_text};
use crate::launch::LaunchError;
use crate::port::DEFAULT_PORT;
use crate::probe::TimeoutError;
use crate::registry::{current_url_text, ServerRegistry};
use crate::secret::{Secret, SecretStoreError, SecretView};
use vstd::prelude::*;

verus! {

/// How long the backend is given to become ready, in milliseconds.
pub const READINESS_TIMEOUT_MS: u64 = 60000;

/// Where the startup sequence stands.
#[derive(Clone, Copy, Debug, PartialEq, Eq, Structural)]
pub enum SupervisorPhase {
    /// Nothing has happened yet: the port is to be picked.
    Idle,
    /// The port is known: the secret is to be fetched.
    PortSelected,
    /// The secret is known: the process is to be created.
    SecretReady,
    /// The process exists: the readiness probe is to be started.
    ProcessLaunched,
    /// The readiness probe is under way.
    Probing,
    /// The backend's address is published. Final.
    Ready,
    /// The startup was given up. Final.
    Failed,
}

/// What is done with the address when the backend does not become ready in
/// time.
#[derive(Clone, Copy, Debug, PartialEq, Eq, Structural)]
pub enum TimeoutPolicy {
    /// The startup fails and the address is not published.
    Withhold,
    /// The timeout is reported and the address is published all the same:
    /// the backend may yet come up.
    PublishAnyway,
}

/// Why the user is notified.
#[derive(Clone, Copy, Debug, PartialEq, Eq, Structural)]
pub enum FailureCause {
    SecretStore(SecretStoreError),
    Launch(LaunchError),
    ProbeTimeout(TimeoutError),
}

/// What the caller reports to the supervisor.
#[derive(Debug, PartialEq, Eq)]
pub enum SupervisorEvent {
    /// The port was picked.
    PortPicked(u16),
    /// The secret was fetched, or could not be.
    SecretResolved(Result<Secret, SecretStoreError>),
    /// The process was created, or could not be.
    LaunchFinished(Result<(), LaunchError>),
    /// The readiness probe was started.
    ProbeStarted,
    /// The readiness probe came to its result.
    ProbeFinished(Result<(), TimeoutError>),
}

/// What the caller does next.
#[derive(Clone, Debug, PartialEq, Eq)]
pub enum SupervisorAction {
    /// Fetch the secret and report it.
    EnsureSecret,
    /// Create the backend process on `port` with `secret` and report it.
    Launch { port: u16, secret: Secret },
    /// Start the readiness probe of the backend at `url` and report that it
    /// was started.
    Probe { url: String, timeout_ms: u64 },
    /// Wait for the readiness probe and report its result.
    AwaitProbe,
    /// The backend is ready and its address is published: nothing is left
    /// to do.
    Serve,
    /// Tell the user of `cause`; nothing else is left to do.
    Notify(FailureCause),
    /// The event did not fit the phase and changed nothing.
    Ignore,
}

/// An event as mathematical data.
pub enum EventView {
    PortPicked(u16),
    SecretResolved(Result<SecretView, SecretStoreError>),
    LaunchFinished(Result<(), LaunchError>),
    ProbeStarted,
    ProbeFinished(Result<(), TimeoutError>),
}

/// An action as mathematical data.
pub enum ActionView {
    EnsureSecret,
    Launch { port: u16, secret: SecretView },
    Probe { url: Seq<char>, timeout_ms: u64 },
    AwaitProbe,
    Serve,
    Notify(FailureCause),
    Ignore,
}

impl View for SupervisorEvent {
    type V = EventView;

    open spec fn view(&self) -> EventView {
        match *self {
            SupervisorEvent::PortPicked(port) => EventView::PortPicked(port),
            SupervisorEvent::SecretResolved(Ok(secret)) => EventView::SecretResolved(Ok(secret@)),
            SupervisorEvent::SecretResolved(Err(e)) => EventView::SecretResolved(Err(e)),
            SupervisorEvent::LaunchFinished(r) => EventView::LaunchFinished(r),
            SupervisorEvent::ProbeStarted => EventView::ProbeStarted,
            SupervisorEvent::ProbeFinished(r) => EventView::ProbeFinished(r),
        }
    }
}

impl View for SupervisorAction {
    type V = ActionView;

    open spec fn view(&self) -> ActionView {
        match *self {
            SupervisorAction::EnsureSecret => ActionView::EnsureSecret,
            SupervisorAction::Launch { port, secret } => ActionView::Launch { port, secret: secret@ },
            SupervisorAction::Probe { url, timeout_ms } => ActionView::Probe { url: url@, timeout_ms },
            SupervisorAction::AwaitProbe => ActionView::AwaitProbe,
            SupervisorAction::Serve => ActionView::Serve,
            SupervisorAction::Notify(cause) => ActionView::Notify(cause),
            SupervisorAction::Ignore => ActionView::Ignore,
        }
    }
}

/// A supervisor as mathematical data.
pub struct SupervisorView {
    pub phase: SupervisorPhase,
    /// The port of the backend; the default until one was picked.
    pub port: u16,
    /// The published address.
    pub url: Option<Seq<char>>,
    pub policy: TimeoutPolicy,
    /// What the user was notified of.
    pub notice: Option<FailureCause>,
}

/// The supervisor before anything has happened.
pub open spec fn initial(policy: TimeoutPolicy) -> SupervisorView {
    SupervisorView {
        phase: SupervisorPhase::Idle,
        port: DEFAULT_PORT,
        url: None,
        policy,
        notice: None,
    }
}

/// The supervisor after it gave up for `cause`, and the notification.
pub open spec fn failed(s: SupervisorView, cause: FailureCause) -> (SupervisorView, ActionView) {
    (
        SupervisorView { phase: SupervisorPhase::Failed, notice: Some(cause), ..s },
        ActionView::Notify(cause),
    )
}

/// The supervisor with the backend's address published.
pub open spec fn published(s: SupervisorView) -> SupervisorView {
    SupervisorView {
        phase: SupervisorPhase::Ready,
        url: Some(server_url_text(s.port as nat)),
        ..s
    }
}

/// The supervisor after `event`, and the action that follows.
pub open spec fn next(s: SupervisorView, event: EventView) -> (SupervisorView, ActionView) {
    match (s.phase, event) {
        (SupervisorPhase::Idle, EventView::PortPicked(port)) => (
            SupervisorView { phase: SupervisorPhase::PortSelected, port, ..s },
            ActionView::EnsureSecret,
        ),
        (SupervisorPhase::PortSelected, EventView::SecretResolved(Ok(secret))) => (
            SupervisorView { phase: SupervisorPhase::SecretReady, ..s },
            ActionView::Launch { port: s.port, secret },
        ),
        (SupervisorPhase::PortSelected, EventView::SecretResolved(Err(e))) => failed(
            s,
            FailureCause::SecretStore(e),
        ),
        (SupervisorPhase::SecretReady, EventView::LaunchFinished(Ok(_))) => (
            SupervisorView { phase: SupervisorPhase::ProcessLaunched, ..s },
            ActionView::Probe {
                url: server_url_text(s.port as nat),
                timeout_ms: READINESS_TIMEOUT_MS,
            },
        ),
        (SupervisorPhase::SecretReady, EventView::LaunchFinished(Err(e))) => failed(
            s,
            FailureCause::Launch(e),
        ),
        (SupervisorPhase::ProcessLaunched, EventView::ProbeStarted) => (
            SupervisorView { phase: SupervisorPhase::Probing, ..s },
            ActionView::AwaitProbe,
        ),
        (SupervisorPhase::Probing, EventView::ProbeFinished(Ok(_))) => (
            published(s),
            ActionView::Serve,
        ),
        (SupervisorPhase::Probing, EventView::ProbeFinished(Err(e))) => {
            let cause = FailureCause::ProbeTimeout(e);
            match s.policy {
                TimeoutPolicy::Withhold => failed(s, cause),
                TimeoutPolicy::PublishAnyway => (
                    SupervisorView { notice: Some(cause), ..published(s) },
                    ActionView::Notify(cause),
                ),
            }
        },
        _ => (s, ActionView::Ignore),
    }
}

/// What holds of a supervisor at all times: an address is published in the
/// ready phase and in no other, it is the address of the backend's port,
/// and the user was notified if the startup failed, and was not while it
/// was under way.
pub open spec fn is_consistent(s: SupervisorView) -> bool {
    &&& s.url is Some <==> s.phase == SupervisorPhase::Ready
    &&& s.url matches Some(url) ==> url == server_url_text(s.port as nat)
    &&& s.phase == SupervisorPhase::Failed ==> s.notice is Some
    &&& s.phase != SupervisorPhase::Failed && s.phase != SupervisorPhase::Ready ==> s.notice is None
}

/// The supervisor after a run of events.
pub open spec fn run(s: SupervisorView, events: Seq<EventView>) -> SupervisorView
    decreases events.len(),
{
    if events.len() == 0 {
        s
    } else {
        next(run(s, events.drop_last()), events.last()).0
    }
}

/// The number of notifications that a run of events leads to.
pub open spec fn notifications(s: SupervisorView, events: Seq<EventView>) -> nat
    decreases events.len(),
{
    if events.len() == 0 {
        0
    } else {
        let before = run(s, events.drop_last());
        let earlier = notifications(s, events.drop_last());
        if next(before, events.last()).1 is Notify {
            earlier + 1
        } else {
            earlier
        }
    }
}

/// The place of a phase in the startup sequence.
pub open spec fn phase_rank(phase: SupervisorPhase) -> nat {
    match phase {
        SupervisorPhase::Idle => 0,
        SupervisorPhase::PortSelected => 1,
        SupervisorPhase::SecretReady => 2,
        SupervisorPhase::ProcessLaunched => 3,
        SupervisorPhase::Probing => 4,
        SupervisorPhase::Ready => 5,
        SupervisorPhase::Failed => 5,
    }
}

/// Whether a phase is final.
pub open spec fn is_final(phase: SupervisorPhase) -> bool {
    phase == SupervisorPhase::Ready || phase == SupervisorPhase::Failed
}

/// An event keeps what holds of a supervisor at all times.
pub proof fn lemma_next_keeps_consistency(s: SupervisorView, event: EventView)
    requires
        is_consistent(s),
    ensures
        is_consistent(next(s, event).0),
{
}

/// What holds of a supervisor at all times holds after every run of events.
pub proof fn lemma_run_is_consistent(policy: TimeoutPolicy, events: Seq<EventView>)
    ensures
        is_consistent(run(initial(policy), events)),
    decreases events.len(),
{
    if events.len() > 0 {
        lemma_run_is_consistent(policy, events.drop_last());
        lemma_next_keeps_consistency(run(initial(policy), events.drop_last()), events.last());
    }
}

/// The phases are passed in their order: an event leaves the phase as it
/// is, leads to the phase that comes next, or ends the startup as failed.
/// The address is published from the probing phase only, and the startup
/// fails from a phase that is under way only.
pub proof fn lemma_phases_in_order(s: SupervisorView, event: EventView)
    ensures
        ({
            let t = next(s, event).0;
            ||| t.phase == s.phase
            ||| t.phase == SupervisorPhase::Failed && !is_final(s.phase) && s.phase
                != SupervisorPhase::Idle && s.phase != SupervisorPhase::ProcessLaunched
            ||| t.phase != SupervisorPhase::Failed && phase_rank(t.phase) == phase_rank(s.phase)
                + 1
        }),
{
}

/// A final phase is final: every event is ignored and changes nothing.
pub proof fn lemma_final_phase_is_kept(s: SupervisorView, event: EventView)
    requires
        is_final(s.phase),
    ensures
        next(s, event) == (s, ActionView::Ignore),
{
}

/// Once picked, the port stays: no event changes it after the idle phase.
pub proof fn lemma_port_is_kept(s: SupervisorView, events: Seq<EventView>)
    requires
        s.phase != SupervisorPhase::Idle,
    ensures
        run(s, events).port == s.port,
        run(s, events).phase != SupervisorPhase::Idle,
    decreases events.len(),
{
    if events.len() > 0 {
        lemma_port_is_kept(s, events.drop_last());
    }
}

/// A run of events is the run of its first part followed by the run of the
/// rest.
pub proof fn lemma_run_in_two_parts(s: SupervisorView, first: Seq<EventView>, rest: Seq<EventView>)
    ensures
        run(s, first + rest) == run(run(s, first), rest),
    decreases rest.len(),
{
    if rest.len() == 0 {
        assert(first + rest =~= first);
    } else {
        lemma_run_in_two_parts(s, first, rest.drop_last());
        assert((first + rest).drop_last() =~= first + rest.drop_last());
    }
}

/// The run of one event is the step that the event leads to.
pub proof fn lemma_run_of_one(s: SupervisorView, event: EventView)
    ensures
        run(s, seq![event]) == next(s, event).0,
{
    reveal_with_fuel(run, 2);
    assert(seq![event].drop_last() =~= Seq::<EventView>::empty());
}

/// An idle supervisor waits for the port: it stays as it is until it is
/// told that a port was picked.
pub proof fn lemma_idle_until_port_picked(s: SupervisorView, events: Seq<EventView>)
    requires
        s.phase == SupervisorPhase::Idle,
        forall|j: int| 0 <= j < events.len() ==> !(#[trigger] events[j] is PortPicked),
    ensures
        run(s, events) == s,
    decreases events.len(),
{
    if events.len() > 0 {
        lemma_idle_until_port_picked(s, events.drop_last());
    }
}

/// After a startup that succeeded, a client is given the address of the
/// port that was picked.
///
/// The supervisor starts idle. The `i`-th event is the first that tells it
/// of a picked port, and that port is `port`. If the events lead the
/// supervisor to the ready phase, the address it answers with is that of
/// the local host and `port`.
pub proof fn lemma_ready_url_is_of_picked_port(
    policy: TimeoutPolicy,
    events: Seq<EventView>,
    i: int,
    port: u16,
)
    requires
        0 <= i < events.len(),
        events[i] == EventView::PortPicked(port),
        forall|j: int| 0 <= j < i ==> !(#[trigger] events[j] is PortPicked),
        run(initial(policy), events).phase == SupervisorPhase::Ready,
    ensures
        run(initial(policy), events).port == port,
        run(initial(policy), events).url == Some(server_url_text(port as nat)),
        current_url_text(run(initial(policy), events).url) == server_url_text(port as nat),
{
    let before = events.take(i);
    let from = events.skip(i);
    let after = events.skip(i + 1);
    assert(events =~= before + from);
    assert(from =~= seq![events[i]] + after);
    lemma_run_is_consistent(policy, events);
    lemma_run_in_two_parts(initial(policy), before, from);
    lemma_idle_until_port_picked(initial(policy), before);
    let picked = next(initial(policy), events[i]).0;
    lemma_run_of_one(initial(policy), events[i]);
    lemma_run_in_two_parts(initial(policy), seq![events[i]], after);
    lemma_port_is_kept(picked, after);
}

/// Before the startup has succeeded, a client is given the placeholder:
/// after every run of events that has not led to the ready phase, the
/// supervisor holds no address and answers with the placeholder.
pub proof fn lemma_placeholder_until_ready(policy: TimeoutPolicy, events: Seq<EventView>)
    requires
        run(initial(policy), events).phase != SupervisorPhase::Ready,
    ensures
        run(initial(policy), events).url is None,
        current_url_text(run(initial(policy), events).url) == placeholder_url_text(),
{
    lemma_run_is_consistent(policy, events);
}

/// The address is written once: an address that is published is never
/// replaced or taken back.
pub proof fn lemma_address_is_written_once(s: SupervisorView, event: EventView)
    requires
        is_consistent(s),
        s.url is Some,
    ensures
        next(s, event).0.url == s.url,
{
}

/// The user is notified at most once in a startup: exactly once where it
/// failed, and not at all where it succeeded without a timeout.
pub proof fn lemma_one_notification(policy: TimeoutPolicy, events: Seq<EventView>)
    ensures
        notifications(initial(policy), events) == if run(initial(policy), events).notice is Some {
            1nat
        } else {
            0nat
        },
        run(initial(policy), events).phase == SupervisorPhase::Failed ==> notifications(
            initial(policy),
            events,
        ) == 1,
    decreases events.len(),
{
    lemma_run_is_consistent(policy, events);
    if events.len() > 0 {
        lemma_one_notification(policy, events.drop_last());
        lemma_run_is_consistent(policy, events.drop_last());
    }
}

/// A startup that failed stays failed: whatever is reported afterwards, the
/// supervisor does not move, asks for nothing and publishes nothing. So a
/// launch that failed is never followed by a probe.
pub proof fn lemma_failure_ends_the_startup(s: SupervisorView, events: Seq<EventView>)
    requires
        is_consistent(s),
        s.phase == SupervisorPhase::Failed,
    ensures
        run(s, events) == s,
        run(s, events).url is None,
        notifications(s, events) == 0,
    decreases events.len(),
{
    if events.len() > 0 {
        lemma_failure_ends_the_startup(s, events.drop_last());
    }
}

/// A launch that failed, for want of an executable or because the process
/// was not created, fails the startup with one notification of its cause.
pub proof fn lemma_failed_launch_fails_the_startup(s: SupervisorView, e: LaunchError)
    requires
        is_consistent(s),
        s.phase == SupervisorPhase::SecretReady,
    ensures
        next(s, EventView::LaunchFinished(Err(e))) == failed(s, FailureCause::Launch(e)),
        next(s, EventView::LaunchFinished(Err(e))).0.phase == SupervisorPhase::Failed,
        is_consistent(next(s, EventView::LaunchFinished(Err(e))).0),
{
}

/// Under the withholding policy a probe that timed out never leads to a
/// published address: the startup fails and the placeholder stays.
pub proof fn lemma_timeout_withholds_address(s: SupervisorView, e: TimeoutError)
    requires
        is_consistent(s),
        s.phase == SupervisorPhase::Probing,
        s.policy == TimeoutPolicy::Withhold,
    ensures
        next(s, EventView::ProbeFinished(Err(e))).0.phase == SupervisorPhase::Failed,
        next(s, EventView::ProbeFinished(Err(e))).0.url is None,
        next(s, EventView::ProbeFinished(Err(e))).1 == ActionView::Notify(
            FailureCause::ProbeTimeout(e),
        ),
{
}

/// The supervisor that runs the startup sequence and holds the backend's
/// address.
#[derive(Debug)]
pub struct Supervisor {
    phase: SupervisorPhase,
    port: u16,
    registry: ServerRegistry,
    policy: TimeoutPolicy,
    notice: Option<FailureCause>,
}

impl View for Supervisor {
    type V = SupervisorView;

    closed spec fn view(&self) -> SupervisorView {
        SupervisorView {
            phase: self.phase,
            port: self.port,
            url: self.registry@,
            policy: self.policy,
            notice: self.notice,
        }
    }
}

impl Supervisor {
    #[verifier::type_invariant]
    spec fn holds_together(self) -> bool {
        is_consistent(self@)
    }

    /// A supervisor before anything has happened.
    pub fn new(policy: TimeoutPolicy) -> (supervisor: Supervisor)
        ensures
            supervisor@ == initial(policy),
    {
        Supervisor {
            phase: SupervisorPhase::Idle,
            port: DEFAULT_PORT,
            registry: ServerRegistry::new(),
            policy,
            notice: None,
        }
    }

    /// Where the startup sequence stands.
    pub fn phase(&self) -> (phase: SupervisorPhase)
        ensures
            phase == self@.phase,
    {
        self.phase
    }

    /// The port of the backend, once it was picked.
    pub fn port(&self) -> (port: Option<u16>)
        ensures
            port == if self@.phase == SupervisorPhase::Idle {
                None
            } else {
                Some(self@.port)
            },
    {
        match self.phase {
            SupervisorPhase::Idle => None,
            _ => Some(self.port),
        }
    }

    /// What the user was notified of, if of anything.
    pub fn notice(&self) -> (notice: Option<FailureCause>)
        ensures
            notice == self@.notice,
    {
        self.notice
    }

    /// The holder of the backend's address.
    pub fn registry(&self) -> (registry: &ServerRegistry)
        ensures
            registry@ == self@.url,
    {
        &self.registry
    }

    /// The backend's address for a client: the published one in the ready
    /// phase, the placeholder in every other.
    pub fn get_url(&self) -> (url: String)
        ensures
            is_consistent(self@),
            url@ == current_url_text(self@.url),
            self@.phase == SupervisorPhase::Ready ==> url@ == server_url_text(self@.port as nat),
            self@.phase != SupervisorPhase::Ready ==> url@ == placeholder_url_text(),
    {
        proof {
            use_type_invariant(self);
        }
        self.registry.get()
    }

    fn fail(&mut self, cause: FailureCause) -> (action: SupervisorAction)
        requires
            !is_final(old(self)@.phase),
        ensures
            (final(self)@, action@) == failed(old(self)@, cause),
    {
        proof {
            use_type_invariant(&*self);
        }
        *self = Supervisor {
            phase: SupervisorPhase::Failed,
            port: self.port,
            registry: ServerRegistry::new(),
            policy: self.policy,
            notice: Some(cause),
        };
        SupervisorAction::Notify(cause)
    }

    fn publish(&mut self, notice: Option<FailureCause>)
        requires
            !is_final(old(self)@.phase),
        ensures
            final(self)@ == (SupervisorView { notice, ..published(old(self)@) }),
    {
        proof {
            use_type_invariant(&*self);
        }
        let mut registry = ServerRegistry::new();
        registry.set(server_url(self.port));
        *self = Supervisor {
            phase: SupervisorPhase::Ready,
            port: self.port,
            registry,
            policy: self.policy,
            notice,
        };
    }

    /// Takes an event and says what is done next. An event that does not
    /// fit the phase changes nothing.
    pub fn step(&mut self, event: SupervisorEvent) -> (action: SupervisorAction)
        ensures
            (final(self)@, action@) == next(old(self)@, event@),
            is_consistent(final(self)@),
    {
        proof {
            use_type_invariant(&*self);
        }
        match (self.phase, event) {
            (SupervisorPhase::Idle, SupervisorEvent::PortPicked(port)) => {
                self.port = port;
                self.phase = SupervisorPhase::PortSelected;
                SupervisorAction::EnsureSecret
            },
            (SupervisorPhase::PortSelected, SupervisorEvent::SecretResolved(Ok(secret))) => {
                self.phase = SupervisorPhase::SecretReady;
                SupervisorAction::Launch { port: self.port, secret }
            },
            (SupervisorPhase::PortSelected, SupervisorEvent::SecretResolved(Err(e))) => {
                self.fail(FailureCause::SecretStore(e))
            },
            (SupervisorPhase::SecretReady, SupervisorEvent::LaunchFinished(Ok(_))) => {
                self.phase = SupervisorPhase::ProcessLaunched;
                SupervisorAction::Probe {
                    url: server_url(self.port),
                    timeout_ms: READINESS_TIMEOUT_MS,
                }
            },
            (SupervisorPhase::SecretReady, SupervisorEvent::LaunchFinished(Err(e))) => {
                self.fail(FailureCause::Launch(e))
            },
            (SupervisorPhase::ProcessLaunched, SupervisorEvent::ProbeStarted) => {
                self.phase = SupervisorPhase::Probing;
                SupervisorAction::AwaitProbe
            },
            (SupervisorPhase::Probing, SupervisorEvent::ProbeFinished(Ok(_))) => {
                self.publish(None);
                SupervisorAction::Serve
            },
            (SupervisorPhase::Probing, SupervisorEvent::ProbeFinished(Err(e))) => {
                let cause = FailureCause::ProbeTimeout(e);
                match self.policy {
                    TimeoutPolicy::Withhold => self.fail(cause),
                    TimeoutPolicy::PublishAnyway => {
                        self.publish(Some(cause));
                        SupervisorAction::Notify(cause)
                    },
                }
            },
            _ => SupervisorAction::Ignore,
        }
    }
}

} // verus!
