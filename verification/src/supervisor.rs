//! The supervision of peer proxy sessions: retries with backoff, counters and events.
//!
//! The caller runs the sessions, sleeps and reads the clock. [`Supervisor`] decides when the next
//! session starts and what is reported.
use vstd::prelude::*;

use crate::addr::SocketAddress;
use crate::duration;
use crate::duration::Duration;
use crate::peer_proxy::{PeerProxyConfig, PeerProxyError, PeerProxyOutcome};

verus! {

/// How sessions are run and retried.
#[derive(Debug, PartialEq, Eq)]
pub struct SupervisorConfig {
    pub peer_proxy: PeerProxyConfig,
    /// The delay after the first attempt that was not stable.
    pub initial_backoff: Duration,
    /// The longest delay, jitter included.
    pub max_backoff: Duration,
    /// How long a session must relay datagrams to count as stable.
    pub stable_session: Duration,
}

impl Clone for SupervisorConfig {
    fn clone(&self) -> (copy: SupervisorConfig)
        ensures
            copy.peer_proxy.same_settings(self.peer_proxy),
            copy.initial_backoff == self.initial_backoff,
            copy.max_backoff == self.max_backoff,
            copy.stable_session == self.stable_session,
    {
        SupervisorConfig {
            peer_proxy: self.peer_proxy.clone(),
            initial_backoff: self.initial_backoff,
            max_backoff: self.max_backoff,
            stable_session: self.stable_session,
        }
    }
}

/// How many sessions were started, and how they ended.
#[derive(Debug, PartialEq, Eq)]
pub struct SupervisorSummary {
    pub attempts: u64,
    pub completed_sessions: u64,
    pub failed_attempts: u64,
}

impl Clone for SupervisorSummary {
    fn clone(&self) -> (copy: SupervisorSummary)
        ensures
            copy == *self,
    {
        SupervisorSummary {
            attempts: self.attempts,
            completed_sessions: self.completed_sessions,
            failed_attempts: self.failed_attempts,
        }
    }
}

impl Default for SupervisorSummary {
    fn default() -> (summary: SupervisorSummary)
        ensures
            summary == (SupervisorSummary {
                attempts: 0,
                completed_sessions: 0,
                failed_attempts: 0,
            }),
    {
        SupervisorSummary { attempts: 0, completed_sessions: 0, failed_attempts: 0 }
    }
}

/// What a supervised peer proxy reports.
#[derive(Debug, PartialEq, Eq)]
pub enum SupervisorEvent {
    AttemptStarted { attempt: u64 },
    /// A consumer's WebRTC connection reached the connected state. `remote` is the consumer's
    /// address, where the selected candidate pair tells it.
    PeerConnected { session_id: String, remote: Option<SocketAddress> },
    /// A consumer that had connected is gone. Reported once per connected session.
    PeerDisconnected { session_id: String },
    SessionEnded { attempt: u64, outcome: PeerProxyOutcome, duration: Duration, retry_in: Duration },
    AttemptFailed { attempt: u64, error: String, duration: Duration, retry_in: Duration },
    Stopped { summary: SupervisorSummary },
}

/// An event of one slot of a pool.
#[derive(Debug, PartialEq, Eq)]
pub struct PoolEvent {
    pub slot: usize,
    pub event: SupervisorEvent,
}

/// The event `event` of the slot `slot`.
pub fn tagged(slot: usize, event: SupervisorEvent) -> (tagged: PoolEvent)
    ensures
        tagged == (PoolEvent { slot, event }),
{
    PoolEvent { slot, event }
}

/// The summaries of a pool's slots, in the order of the slots.
#[derive(Debug, Clone, PartialEq, Eq)]
pub struct SupervisorPoolSummary {
    pub workers: Vec<SupervisorSummary>,
}

/// The sessions started by all of `workers`.
pub open spec fn total_attempts(workers: Seq<SupervisorSummary>) -> nat
    decreases workers.len(),
{
    if workers.len() == 0 {
        0
    } else {
        total_attempts(workers.drop_last()) + workers.last().attempts as nat
    }
}

/// The sessions completed by all of `workers`.
pub open spec fn total_completed(workers: Seq<SupervisorSummary>) -> nat
    decreases workers.len(),
{
    if workers.len() == 0 {
        0
    } else {
        total_completed(workers.drop_last()) + workers.last().completed_sessions as nat
    }
}

/// The attempts of all of `workers` that failed.
pub open spec fn total_failed(workers: Seq<SupervisorSummary>) -> nat
    decreases workers.len(),
{
    if workers.len() == 0 {
        0
    } else {
        total_failed(workers.drop_last()) + workers.last().failed_attempts as nat
    }
}

/// A part of the workers has started, completed and failed no more than all of them.
proof fn lemma_totals_grow(workers: Seq<SupervisorSummary>, count: int)
    requires
        0 <= count <= workers.len(),
    ensures
        total_attempts(workers.take(count)) <= total_attempts(workers),
        total_completed(workers.take(count)) <= total_completed(workers),
        total_failed(workers.take(count)) <= total_failed(workers),
    decreases workers.len(),
{
    if count < workers.len() {
        lemma_totals_grow(workers.drop_last(), count);
        assert(workers.drop_last().take(count) =~= workers.take(count));
    } else {
        assert(workers.take(count) =~= workers);
    }
}

impl SupervisorPoolSummary {
    /// The sessions started by all slots together.
    pub fn attempts(&self) -> (total: u64)
        requires
            total_attempts(self.workers@) <= u64::MAX,
        ensures
            total == total_attempts(self.workers@),
    {
        let mut total: u64 = 0;
        let mut i: usize = 0;
        while i < self.workers.len()
            invariant
                i <= self.workers@.len(),
                total == total_attempts(self.workers@.take(i as int)),
                total_attempts(self.workers@) <= u64::MAX,
            decreases self.workers@.len() - i,
        {
            proof {
                lemma_totals_grow(self.workers@, i + 1);
                assert(self.workers@.take(i + 1).drop_last() =~= self.workers@.take(i as int));
            }
            total = total + self.workers[i].attempts;
            i = i + 1;
        }
        assert(self.workers@.take(i as int) =~= self.workers@);
        total
    }

    /// The sessions completed by all slots together.
    pub fn completed_sessions(&self) -> (total: u64)
        requires
            total_completed(self.workers@) <= u64::MAX,
        ensures
            total == total_completed(self.workers@),
    {
        let mut total: u64 = 0;
        let mut i: usize = 0;
        while i < self.workers.len()
            invariant
                i <= self.workers@.len(),
                total == total_completed(self.workers@.take(i as int)),
                total_completed(self.workers@) <= u64::MAX,
            decreases self.workers@.len() - i,
        {
            proof {
                lemma_totals_grow(self.workers@, i + 1);
                assert(self.workers@.take(i + 1).drop_last() =~= self.workers@.take(i as int));
            }
            total = total + self.workers[i].completed_sessions;
            i = i + 1;
        }
        assert(self.workers@.take(i as int) =~= self.workers@);
        total
    }

    /// The failed attempts of all slots together.
    pub fn failed_attempts(&self) -> (total: u64)
        requires
            total_failed(self.workers@) <= u64::MAX,
        ensures
            total == total_failed(self.workers@),
    {
        let mut total: u64 = 0;
        let mut i: usize = 0;
        while i < self.workers.len()
            invariant
                i <= self.workers@.len(),
                total == total_failed(self.workers@.take(i as int)),
                total_failed(self.workers@) <= u64::MAX,
            decreases self.workers@.len() - i,
        {
            proof {
                lemma_totals_grow(self.workers@, i + 1);
                assert(self.workers@.take(i + 1).drop_last() =~= self.workers@.take(i as int));
            }
            total = total + self.workers[i].failed_attempts;
            i = i + 1;
        }
        assert(self.workers@.take(i as int) =~= self.workers@);
        total
    }
}

/// A pool has at least one slot.
pub fn pool_slots(slots: usize) -> (count: usize)
    ensures
        count == (if slots == 0 {
            1
        } else {
            slots
        }),
{
    if slots == 0 {
        1
    } else {
        slots
    }
}

/// The supervisors of a pool's slots, all of them with the same settings. A pool has at least one
/// slot.
pub fn pool_supervisors(config: &SupervisorConfig, slots: usize) -> (supervisors: Vec<Supervisor>)
    ensures
        supervisors@.len() == (if slots == 0 {
            1
        } else {
            slots
        }),
        forall|i: int|
            0 <= i < supervisors@.len() ==> (#[trigger] supervisors@[i]).wf()
                && supervisors@[i].idle() && supervisors@[i].is_new(*config),
{
    let count: usize = pool_slots(slots);
    let mut supervisors: Vec<Supervisor> = Vec::new();
    while supervisors.len() < count
        invariant
            supervisors@.len() <= count,
            forall|i: int|
                0 <= i < supervisors@.len() ==> (#[trigger] supervisors@[i]).wf()
                    && supervisors@[i].idle() && supervisors@[i].is_new(*config),
        decreases count - supervisors@.len(),
    {
        supervisors.push(Supervisor::new(config));
    }
    supervisors
}

/// A delay of one millisecond in place of none.
pub fn nonzero(duration: Duration) -> (delay: Duration)
    ensures
        delay@ == (if duration@ == 0 {
            1_000_000
        } else {
            duration@
        }),
{
    if duration.is_zero() {
        Duration::from_millis(1)
    } else {
        duration
    }
}

/// A number to choose the jitter of an attempt by: the low 64 bits of the clock, in nanoseconds
/// since the epoch, mixed with the number of the attempt.
pub open spec fn spec_entropy(now: nat, attempt: u64) -> u64 {
    (now % 0x1_0000_0000_0000_0000) as u64 ^ attempt.wrapping_mul(0x9e37_79b9_7f4a_7c15)
}

/// A number to choose the jitter of an attempt by: the clock, in nanoseconds since the epoch,
/// mixed with the number of the attempt.
pub fn entropy(now: Duration, attempt: u64) -> (entropy: u64)
    ensures
        entropy == spec_entropy(now@, attempt),
{
    let nanos: u64 = (now.as_nanos() % 0x1_0000_0000_0000_0000) as u64;
    nanos ^ attempt.wrapping_mul(0x9e37_79b9_7f4a_7c15)
}

/// The length of a delay with jitter: between 80 and 120 percent of `base`, as `entropy` chooses.
pub open spec fn jittered_length(base: nat, entropy: u64) -> nat {
    duration::shorter(base * (80 + entropy as nat % 41) / 100, u64::MAX as nat)
}

/// The delay `base` with jitter: between 80 and 120 percent of it, as `entropy` chooses.
pub fn jittered(base: Duration, entropy: u64) -> (delay: Duration)
    ensures
        delay@ == jittered_length(base@, entropy),
{
    let percent: u128 = 80 + (entropy % 41) as u128;
    let nanos: u128 = base.as_nanos();
    assert(0 <= nanos * percent <= duration::MAX_NANOS * 120) by (nonlinear_arith)
        requires
            0 <= nanos <= duration::MAX_NANOS,
            0 <= percent <= 120,
    ;
    let scaled: u128 = nanos * percent / 100;
    if scaled <= u64::MAX as u128 {
        Duration::from_nanos(scaled as u64)
    } else {
        Duration::from_nanos(u64::MAX)
    }
}

/// A session that failed: why, and in the words of the report.
#[derive(Debug)]
pub struct SessionFailure {
    pub error: PeerProxyError,
    pub text: String,
}

/// What the supervisor does after a session.
#[derive(Debug, PartialEq, Eq)]
pub enum SupervisorStep {
    /// Stop: the session was cut short by the shutdown.
    Stop,
    /// Report the event, and start the next session after the delay.
    Retry { event: SupervisorEvent, retry_in: Duration },
}

/// The supervision of one slot.
#[derive(Debug, PartialEq, Eq)]
pub struct Supervisor {
    /// How every session of the slot is run.
    pub peer_proxy: PeerProxyConfig,
    pub initial_backoff: Duration,
    pub max_backoff: Duration,
    pub stable_session: Duration,
    /// The delay after the next attempt, before jitter, unless it is stable.
    pub backoff: Duration,
    pub summary: SupervisorSummary,
}

/// How long a session relayed datagrams, if it got that far.
pub open spec fn relay_duration(
    result: Result<PeerProxyOutcome, SessionFailure>,
) -> Option<Duration> {
    match result {
        Ok(outcome) => Some(outcome.relay_duration),
        Err(failure) => failure.error.spec_relay_duration(),
    }
}

/// The backoff after a session: a stable session resets it, any other doubles it up to the
/// longest delay.
pub open spec fn next_backoff(initial: nat, max: nat, backoff: nat, stable: bool) -> nat {
    if stable {
        initial
    } else {
        duration::shorter(2 * backoff, max)
    }
}

/// A session that has ended, and whether the shutdown was on by then.
#[derive(Debug)]
pub struct SupervisedSession {
    pub result: Result<PeerProxyOutcome, SessionFailure>,
    pub cancelled: bool,
}

impl SupervisedSession {
    /// Whether the session was cut short by the shutdown.
    pub open spec fn is_cut_short(self) -> bool {
        self.result is Err && self.cancelled
    }
}

/// The counters once a session has ended. One that was cut short is counted neither as completed
/// nor as failed.
pub open spec fn counted(summary: SupervisorSummary, session: SupervisedSession) -> SupervisorSummary {
    if session.is_cut_short() {
        summary
    } else if session.result is Ok {
        SupervisorSummary {
            completed_sessions: (summary.completed_sessions + 1) as u64,
            ..summary
        }
    } else {
        SupervisorSummary { failed_attempts: (summary.failed_attempts + 1) as u64, ..summary }
    }
}

impl Supervisor {
    /// The backoff stays within its bounds, and a session is counted as ended at most once.
    pub open spec fn wf(&self) -> bool {
        &&& 0 < self.initial_backoff@ <= self.backoff@ <= self.max_backoff@
        &&& self.idle() || self.running()
    }

    /// Every session that was started has ended.
    pub open spec fn idle(&self) -> bool {
        self.summary.attempts == self.summary.completed_sessions + self.summary.failed_attempts
    }

    /// One session that was started has not ended, or was cut short.
    pub open spec fn running(&self) -> bool {
        self.summary.attempts == self.summary.completed_sessions + self.summary.failed_attempts + 1
    }

    /// Whether a session relayed datagrams long enough to count as stable.
    pub open spec fn is_stable(&self, result: Result<PeerProxyOutcome, SessionFailure>) -> bool {
        relay_duration(result) matches Some(duration) && duration@ >= self.stable_session@
    }

    /// The delay after a session, before jitter: a stable session starts over.
    pub open spec fn delay_after(&self, stable: bool) -> nat {
        if stable {
            self.initial_backoff@
        } else {
            self.backoff@
        }
    }

    /// The backoff after a session: a stable session resets it, any other doubles it up to the
    /// longest delay.
    pub open spec fn backoff_after(&self, stable: bool) -> nat {
        next_backoff(self.initial_backoff@, self.max_backoff@, self.backoff@, stable)
    }

    /// Whether `session`, which took `duration` and ended at `now`, leaves the supervisor as `after`
    /// and is followed by `step`.
    pub open spec fn finishes(
        &self,
        session: SupervisedSession,
        duration: Duration,
        now: Duration,
        after: Supervisor,
        step: SupervisorStep,
    ) -> bool {
        if session.is_cut_short() {
            step is Stop && after == *self
        } else {
            let stable = self.is_stable(session.result);
            let attempt = self.summary.attempts;
            &&& after.peer_proxy == self.peer_proxy
            &&& after.initial_backoff == self.initial_backoff
            &&& after.max_backoff == self.max_backoff
            &&& after.stable_session == self.stable_session
            &&& after.summary == counted(self.summary, session)
            &&& after.backoff@ == self.backoff_after(stable)
            &&& step matches SupervisorStep::Retry { event, retry_in }
            &&& retry_in@ == duration::shorter(
                jittered_length(self.delay_after(stable), spec_entropy(now@, attempt)),
                self.max_backoff@,
            )
            &&& event == match session.result {
                Ok(outcome) => SupervisorEvent::SessionEnded {
                    attempt,
                    outcome,
                    duration,
                    retry_in,
                },
                Err(failure) => SupervisorEvent::AttemptFailed {
                    attempt,
                    error: failure.text,
                    duration,
                    retry_in,
                },
            }
        }
    }

    /// Whether the supervisor runs sessions as `config` says and has not started one yet.
    pub open spec fn is_new(&self, config: SupervisorConfig) -> bool {
        &&& self.peer_proxy.same_settings(config.peer_proxy)
        &&& self.initial_backoff@ == (if config.initial_backoff@ == 0 {
            1_000_000
        } else {
            config.initial_backoff@
        })
        &&& self.max_backoff@ == duration::longer(config.max_backoff@, self.initial_backoff@)
        &&& self.stable_session == config.stable_session
        &&& self.backoff@ == self.initial_backoff@
        &&& self.summary == (SupervisorSummary {
            attempts: 0,
            completed_sessions: 0,
            failed_attempts: 0,
        })
    }

    /// A supervisor that has not started a session yet.
    pub fn new(config: &SupervisorConfig) -> (supervisor: Supervisor)
        ensures
            supervisor.wf(),
            supervisor.idle(),
            supervisor.is_new(*config),
    {
        let initial_backoff = nonzero(config.initial_backoff);
        let max_backoff = config.max_backoff.at_least(initial_backoff);
        Supervisor {
            peer_proxy: config.peer_proxy.clone(),
            initial_backoff,
            max_backoff,
            stable_session: config.stable_session,
            backoff: initial_backoff,
            summary: SupervisorSummary::default(),
        }
    }

    /// How the next session is run: as the first and every other.
    pub fn session_config(&self) -> (config: PeerProxyConfig)
        ensures
            config.same_settings(self.peer_proxy),
    {
        self.peer_proxy.clone()
    }

    /// Whether the start of a session, or the shutdown in its place, leaves the supervisor as `after`
    /// and is reported as `event`.
    pub open spec fn begins(
        &self,
        cancelled: bool,
        after: Supervisor,
        event: Option<SupervisorEvent>,
    ) -> bool {
        if cancelled {
            event is None && after == *self
        } else {
            &&& after == with_one_more_attempt(*self)
            &&& event == Some(
                SupervisorEvent::AttemptStarted { attempt: (self.summary.attempts + 1) as u64 },
            )
        }
    }

    /// Counts the start of a session, unless the supervisor is being shut down.
    pub fn begin(&mut self, cancelled: bool) -> (event: Option<SupervisorEvent>)
        requires
            old(self).wf(),
            !cancelled ==> old(self).idle() && old(self).summary.attempts < u64::MAX,
        ensures
            final(self).wf(),
            old(self).begins(cancelled, *final(self), event),
            cancelled ==> event is None && *final(self) == *old(self),
            !cancelled ==> {
                &&& final(self).running()
                &&& *final(self) == (Supervisor {
                    summary: SupervisorSummary {
                        attempts: (old(self).summary.attempts + 1) as u64,
                        ..old(self).summary
                    },
                    ..*old(self)
                })
                &&& event == Some(
                    SupervisorEvent::AttemptStarted {
                        attempt: (old(self).summary.attempts + 1) as u64,
                    },
                )
            },
    {
        if cancelled {
            return None;
        }
        self.summary.attempts = self.summary.attempts + 1;
        Some(SupervisorEvent::AttemptStarted { attempt: self.summary.attempts })
    }

    /// Counts the end of a session that took `duration`, and decides what follows. A failure
    /// while the supervisor is being shut down is no failure: it only stops the supervisor. `now`
    /// is the clock, as the time since the epoch.
    pub fn finish(
        &mut self,
        result: Result<PeerProxyOutcome, SessionFailure>,
        cancelled: bool,
        duration: Duration,
        now: Duration,
    ) -> (step: SupervisorStep)
        requires
            old(self).wf(),
            old(self).running(),
        ensures
            final(self).wf(),
            final(self).peer_proxy == old(self).peer_proxy,
            final(self).initial_backoff == old(self).initial_backoff,
            final(self).max_backoff == old(self).max_backoff,
            final(self).stable_session == old(self).stable_session,
            final(self).summary == counted(
                old(self).summary,
                (SupervisedSession { result, cancelled }),
            ),
            old(self).finishes(
                (SupervisedSession { result, cancelled }),
                duration,
                now,
                *final(self),
                step,
            ),
            result is Err && cancelled ==> step is Stop && *final(self) == *old(self),
            !(result is Err && cancelled) ==> {
                let stable = old(self).is_stable(result);
                &&& final(self).idle()
                &&& final(self).backoff@ == old(self).backoff_after(stable)
                &&& step matches SupervisorStep::Retry { event, retry_in }
                &&& retry_in@ == duration::shorter(
                    jittered_length(
                        old(self).delay_after(stable),
                        spec_entropy(now@, old(self).summary.attempts),
                    ),
                    old(self).max_backoff@,
                )
                &&& match result {
                    Ok(outcome) => event == (SupervisorEvent::SessionEnded {
                        attempt: old(self).summary.attempts,
                        outcome,
                        duration,
                        retry_in,
                    }),
                    Err(failure) => event == (SupervisorEvent::AttemptFailed {
                        attempt: old(self).summary.attempts,
                        error: failure.text,
                        duration,
                        retry_in,
                    }),
                }
            },
    {
        if result.is_err() && cancelled {
            return SupervisorStep::Stop;
        }
        let relayed = match &result {
            Ok(outcome) => Some(outcome.relay_duration),
            Err(failure) => failure.error.relay_duration(),
        };
        let stable = match relayed {
            Some(relayed) => relayed.as_nanos() >= self.stable_session.as_nanos(),
            None => false,
        };
        if stable {
            self.backoff = self.initial_backoff;
        }
        let attempt: u64 = self.summary.attempts;
        let retry_in = jittered(self.backoff, entropy(now, attempt)).at_most(self.max_backoff);
        let event = match result {
            Ok(outcome) => {
                self.summary.completed_sessions = self.summary.completed_sessions + 1;
                SupervisorEvent::SessionEnded { attempt, outcome, duration, retry_in }
            },
            Err(failure) => {
                self.summary.failed_attempts = self.summary.failed_attempts + 1;
                SupervisorEvent::AttemptFailed { attempt, error: failure.text, duration, retry_in }
            },
        };
        if !stable {
            self.backoff = self.backoff.saturating_mul(2).at_most(self.max_backoff);
        }
        SupervisorStep::Retry { event, retry_in }
    }

    /// The last report of a supervisor.
    pub fn stopped(&self) -> (event: SupervisorEvent)
        ensures
            event == (SupervisorEvent::Stopped { summary: self.summary }),
    {
        SupervisorEvent::Stopped { summary: self.summary.clone() }
    }
}

/// The counters after a run of sessions, each of them started and ended.
pub open spec fn summary_after(
    summary: SupervisorSummary,
    sessions: Seq<SupervisedSession>,
) -> SupervisorSummary
    decreases sessions.len(),
{
    if sessions.len() == 0 {
        summary
    } else {
        let before = summary_after(summary, sessions.drop_last());
        counted(
            SupervisorSummary { attempts: (before.attempts + 1) as u64, ..before },
            sessions.last(),
        )
    }
}

/// Every session is counted as started, and every one as completed or as failed but a last one that
/// was cut short by the shutdown, which is no failure.
pub proof fn law_every_session_is_counted_once(
    summary: SupervisorSummary,
    sessions: Seq<SupervisedSession>,
)
    requires
        summary.attempts == summary.completed_sessions + summary.failed_attempts,
        summary.attempts + sessions.len() <= u64::MAX,
        forall|i: int| 0 <= i < sessions.len() - 1 ==> !(#[trigger] sessions[i]).is_cut_short(),
    ensures
        ({
            let after = summary_after(summary, sessions);
            &&& after.attempts == summary.attempts + sessions.len()
            &&& after.attempts == after.completed_sessions + after.failed_attempts
                + if sessions.len() > 0 && sessions.last().is_cut_short() {
                1int
            } else {
                0int
            }
        }),
    decreases sessions.len(),
{
    if sessions.len() > 0 {
        let before = sessions.drop_last();
        assert forall|i: int| 0 <= i < before.len() implies !(#[trigger] before[i]).is_cut_short() by {
            assert(before[i] == sessions[i]);
        }
        law_every_session_is_counted_once(summary, before);
    }
}

/// Jitter changes a delay by at most twenty percent either way, as long as the delay can be told
/// in 64 bits of nanoseconds.
pub proof fn law_jitter_is_within_twenty_percent(base: nat, entropy: u64)
    ensures
        jittered_length(base, entropy) <= base * 120 / 100,
        jittered_length(base, entropy) >= duration::shorter(base * 80 / 100, u64::MAX as nat),
{
    let percent = 80 + entropy as nat % 41;
    assert(base * 80 <= base * percent <= base * 120) by (nonlinear_arith)
        requires
            80 <= percent <= 120,
    ;
}

/// No delay is longer than the longest delay, jitter included, whatever the jitter is, and none
/// is longer than 120 percent of the backoff.
pub proof fn law_retry_delay_is_bounded(supervisor: Supervisor, stable: bool, entropy: u64)
    requires
        supervisor.wf(),
    ensures
        duration::shorter(
            jittered_length(supervisor.delay_after(stable), entropy),
            supervisor.max_backoff@,
        ) <= duration::shorter(
            supervisor.delay_after(stable) * 120 / 100,
            supervisor.max_backoff@,
        ),
{
    law_jitter_is_within_twenty_percent(supervisor.delay_after(stable), entropy);
}

/// The backoff after a run of sessions, each of them stable or not.
pub open spec fn backoff_after_all(
    initial: nat,
    max: nat,
    backoff: nat,
    sessions: Seq<bool>,
) -> nat
    decreases sessions.len(),
{
    if sessions.len() == 0 {
        backoff
    } else {
        next_backoff(
            initial,
            max,
            backoff_after_all(initial, max, backoff, sessions.drop_last()),
            sessions.last(),
        )
    }
}

/// The backoff never leaves its bounds.
pub proof fn law_backoff_stays_within_bounds(
    initial: nat,
    max: nat,
    backoff: nat,
    sessions: Seq<bool>,
)
    requires
        0 < initial <= backoff <= max,
    ensures
        initial <= backoff_after_all(initial, max, backoff, sessions) <= max,
    decreases sessions.len(),
{
    if sessions.len() > 0 {
        law_backoff_stays_within_bounds(initial, max, backoff, sessions.drop_last());
    }
}

/// A stable session resets the backoff, whatever came before it.
pub proof fn law_stable_session_resets_backoff(
    initial: nat,
    max: nat,
    backoff: nat,
    sessions: Seq<bool>,
)
    requires
        sessions.len() > 0,
        sessions.last(),
    ensures
        backoff_after_all(initial, max, backoff, sessions) == initial,
{
}

/// The number of sessions since the last stable one, or of all if none was stable.
pub open spec fn unstable_since(sessions: Seq<bool>) -> nat
    decreases sessions.len(),
{
    if sessions.len() == 0 || sessions.last() {
        0
    } else {
        unstable_since(sessions.drop_last()) + 1
    }
}

/// The backoff is exponential in the sessions since the last stable one: it starts over with every
/// stable session, and doubles with each of the others until it reaches the longest delay.
pub proof fn law_backoff_is_exponential(initial: nat, max: nat, sessions: Seq<bool>)
    requires
        0 < initial <= max,
    ensures
        backoff_after_all(initial, max, initial, sessions) == duration::shorter(
            initial * vstd::arithmetic::power2::pow2(unstable_since(sessions)),
            max,
        ),
    decreases sessions.len(),
{
    if sessions.len() == 0 || sessions.last() {
        vstd::arithmetic::power2::lemma2_to64();
        assert(initial * vstd::arithmetic::power2::pow2(0) == initial);
    } else {
        law_backoff_is_exponential(initial, max, sessions.drop_last());
        let count = unstable_since(sessions);
        vstd::arithmetic::power2::lemma_pow2_unfold(count);
        let factor = vstd::arithmetic::power2::pow2(count);
        let factor_before = vstd::arithmetic::power2::pow2((count - 1) as nat);
        assert(2 * (initial * factor_before) == initial * factor) by (nonlinear_arith)
            requires
                factor == 2 * factor_before,
        ;
    }
}

/// Whether `results` holds one summary for each of the slots from zero on.
pub open spec fn covers_slots(results: Seq<(usize, SupervisorSummary)>) -> bool {
    &&& forall|i: int| 0 <= i < results.len() ==> (#[trigger] results[i]).0 < results.len()
    &&& forall|i: int, j: int|
        0 <= i < j < results.len() ==> (#[trigger] results[i]).0 != (#[trigger] results[j]).0
}

/// The summary of a pool whose slots ended with `results`, in whatever order they ended.
pub fn pool_summary(results: Vec<(usize, SupervisorSummary)>) -> (summary: SupervisorPoolSummary)
    requires
        covers_slots(results@),
    ensures
        summary.workers@.len() == results@.len(),
        forall|i: int|
            0 <= i < results@.len() ==> summary.workers@[(#[trigger] results@[i]).0 as int]
                == results@[i].1,
{
    let mut workers: Vec<SupervisorSummary> = Vec::new();
    let mut slot: usize = 0;
    while slot < results.len()
        invariant
            slot <= results@.len(),
            workers@.len() == slot,
            covers_slots(results@),
            forall|i: int|
                0 <= i < results@.len() && (#[trigger] results@[i]).0 < slot
                    ==> workers@[results@[i].0 as int] == results@[i].1,
        decreases results@.len() - slot,
    {
        let mut found: SupervisorSummary = SupervisorSummary::default();
        let mut i: usize = 0;
        while i < results.len()
            invariant
                i <= results@.len(),
                covers_slots(results@),
                forall|j: int|
                    0 <= j < i && (#[trigger] results@[j]).0 == slot ==> found == results@[j].1,
            decreases results@.len() - i,
        {
            if results[i].0 == slot {
                found = results[i].1.clone();
            }
            i = i + 1;
        }
        workers.push(found);
        slot = slot + 1;
    }
    SupervisorPoolSummary { workers }
}

/// Whether a session relayed datagrams for at least `needed`, however it ended. One that never came
/// to relaying did not, whatever `needed` is.
pub open spec fn relayed_for(
    result: Result<PeerProxyOutcome, SessionFailure>,
    needed: Duration,
) -> bool {
    ||| result matches Ok(outcome) && outcome.relay_duration@ >= needed@
    ||| result matches Err(failure) && failure.error matches PeerProxyError::Relay {
        relay_duration,
        ..
    } && relay_duration@ >= needed@
}

/// Only a session that relayed datagrams for as long as a stable session must starts the backoff
/// over: one that completed sooner is retried like a failed one, after the backoff that there was,
/// and doubles it up to the longest delay. A session that failed after relaying that long starts it
/// over as well.
pub proof fn law_only_a_long_relay_starts_over(
    supervisor: Supervisor,
    session: SupervisedSession,
    duration: Duration,
    now: Duration,
    after: Supervisor,
    step: SupervisorStep,
)
    requires
        supervisor.wf(),
        supervisor.running(),
        session.result is Ok || !session.cancelled,
        supervisor.finishes(session, duration, now, after, step),
    ensures
        step matches SupervisorStep::Retry { retry_in, .. } && {
            if relayed_for(session.result, supervisor.stable_session) {
                &&& after.backoff@ == supervisor.initial_backoff@
                &&& 100 * retry_in@ <= 120 * supervisor.initial_backoff@
            } else {
                &&& after.backoff@ <= 2 * supervisor.backoff@
                &&& after.backoff@ <= supervisor.max_backoff@
                &&& after.backoff@ == 2 * supervisor.backoff@ || after.backoff@
                    == supervisor.max_backoff@
                &&& 100 * retry_in@ <= 120 * supervisor.backoff@
                &&& 100 * (retry_in@ + 1) > 80 * supervisor.backoff@ || retry_in@
                    == supervisor.max_backoff@ || retry_in@ == u64::MAX
            }
        },
{
    let stable = supervisor.is_stable(session.result);
    let base = supervisor.delay_after(stable);
    let entropy = spec_entropy(now@, supervisor.summary.attempts);
    let percent = 80 + entropy as nat % 41;
    assert(base * 80 <= base * percent <= base * 120) by (nonlinear_arith)
        requires
            80 <= percent <= 120,
    ;
}

/// The delay before the next session is that percentage of the backoff, rounded down to a
/// nanosecond, that the clock and the number of the attempt choose between 80 and 120, unless it is
/// longer than the longest delay or than 64 bits of nanoseconds can tell.
pub proof fn law_delay_is_the_chosen_percentage(
    supervisor: Supervisor,
    session: SupervisedSession,
    duration: Duration,
    now: Duration,
    after: Supervisor,
    step: SupervisorStep,
)
    requires
        supervisor.wf(),
        supervisor.running(),
        session.result is Ok || !session.cancelled,
        supervisor.finishes(session, duration, now, after, step),
    ensures
        step matches SupervisorStep::Retry { retry_in, .. } && ({
            let base = if relayed_for(session.result, supervisor.stable_session) {
                supervisor.initial_backoff@
            } else {
                supervisor.backoff@
            };
            let clock = (now@ % 0x1_0000_0000_0000_0000) as u64;
            let chosen = clock ^ (supervisor.summary.attempts * 0x9e37_79b9_7f4a_7c15
                % 0x1_0000_0000_0000_0000) as u64;
            let percent = 80 + chosen as nat % 41;
            &&& retry_in@ <= supervisor.max_backoff@
            &&& retry_in@ <= u64::MAX
            &&& 100 * retry_in@ <= base * percent
            &&& base * percent < 100 * retry_in@ + 100 || retry_in@ == supervisor.max_backoff@
                || retry_in@ == u64::MAX
        }),
{
    let attempts = supervisor.summary.attempts;
    assert(attempts.wrapping_mul(0x9e37_79b9_7f4a_7c15) == (attempts * 0x9e37_79b9_7f4a_7c15
        % 0x1_0000_0000_0000_0000) as u64);
}

/// A session that has ended is reported with its own number, its own outcome or the words of its
/// failure, how long it took, and the delay that follows. Only a failure during the shutdown stops
/// the supervisor, and it changes nothing.
pub proof fn law_every_session_is_reported(
    supervisor: Supervisor,
    session: SupervisedSession,
    duration: Duration,
    now: Duration,
    after: Supervisor,
    step: SupervisorStep,
)
    requires
        supervisor.finishes(session, duration, now, after, step),
    ensures
        step is Stop <==> session.result is Err && session.cancelled,
        step is Stop ==> after == supervisor,
        step matches SupervisorStep::Retry { event, retry_in } ==> match event {
            SupervisorEvent::SessionEnded { attempt, outcome, duration: took, retry_in: delay } => {
                &&& session.result matches Ok(ended)
                &&& outcome == ended && attempt == supervisor.summary.attempts && took == duration
                    && delay == retry_in
            },
            SupervisorEvent::AttemptFailed { attempt, error, duration: took, retry_in: delay } => {
                &&& session.result matches Err(failure)
                &&& error == failure.text && attempt == supervisor.summary.attempts && took
                    == duration && delay == retry_in
            },
            _ => false,
        },
{
}

/// The sessions of a run that completed.
pub open spec fn completed(sessions: Seq<SupervisedSession>) -> nat {
    sessions.filter(|session: SupervisedSession| session.result is Ok).len()
}

/// The sessions of a run that failed before the shutdown.
pub open spec fn failed(sessions: Seq<SupervisedSession>) -> nat {
    sessions.filter(
        |session: SupervisedSession| session.result is Err && !session.cancelled,
    ).len()
}

/// The counters grow by the sessions that were started, by those that completed, and by those that
/// failed before the shutdown.
pub proof fn law_counters_tell_how_sessions_ended(
    summary: SupervisorSummary,
    sessions: Seq<SupervisedSession>,
)
    requires
        summary.attempts + sessions.len() <= u64::MAX,
        summary.completed_sessions + sessions.len() <= u64::MAX,
        summary.failed_attempts + sessions.len() <= u64::MAX,
    ensures
        summary_after(summary, sessions).attempts == summary.attempts + sessions.len(),
        summary_after(summary, sessions).completed_sessions == summary.completed_sessions
            + completed(sessions),
        summary_after(summary, sessions).failed_attempts == summary.failed_attempts + failed(
            sessions,
        ),
        completed(sessions) <= sessions.len(),
        failed(sessions) <= sessions.len(),
    decreases sessions.len(),
{
    reveal(Seq::filter);
    if sessions.len() > 0 {
        law_counters_tell_how_sessions_ended(summary, sessions.drop_last());
    }
}

/// One slot's summary counts for what it holds in a pool's totals, wherever it stands.
pub proof fn law_totals_count_every_slot(
    before: Seq<SupervisorSummary>,
    slot: SupervisorSummary,
    behind: Seq<SupervisorSummary>,
)
    ensures
        total_attempts(before + seq![slot] + behind) == total_attempts(before + behind)
            + slot.attempts,
        total_completed(before + seq![slot] + behind) == total_completed(before + behind)
            + slot.completed_sessions,
        total_failed(before + seq![slot] + behind) == total_failed(before + behind)
            + slot.failed_attempts,
        total_attempts(Seq::empty()) == 0,
        total_completed(Seq::empty()) == 0,
        total_failed(Seq::empty()) == 0,
    decreases behind.len(),
{
    if behind.len() == 0 {
        assert((before + seq![slot] + behind).drop_last() =~= before + behind);
    } else {
        let start = behind.drop_last();
        law_totals_count_every_slot(before, slot, start);
        assert((before + seq![slot] + behind).drop_last() =~= before + seq![slot] + start);
        assert((before + behind).drop_last() =~= before + start);
    }
}

/// A new supervisor waits at first for the configured time, or for a millisecond if that is none,
/// and never longer than the longest delay, which is at least as long.
pub proof fn law_new_supervisor_has_the_configured_delays(
    supervisor: Supervisor,
    config: SupervisorConfig,
)
    requires
        supervisor.is_new(config),
    ensures
        supervisor.backoff@ == supervisor.initial_backoff@,
        config.initial_backoff@ > 0 ==> supervisor.initial_backoff@ == config.initial_backoff@,
        config.initial_backoff@ == 0 ==> supervisor.initial_backoff@ == 1_000_000,
        supervisor.max_backoff@ >= supervisor.initial_backoff@,
        supervisor.max_backoff@ >= config.max_backoff@,
        supervisor.max_backoff@ == supervisor.initial_backoff@ || supervisor.max_backoff@
            == config.max_backoff@,
        supervisor.stable_session == config.stable_session,
        supervisor.summary.attempts == 0,
        supervisor.summary.completed_sessions == 0,
        supervisor.summary.failed_attempts == 0,
        supervisor.peer_proxy.egress_url == config.peer_proxy.egress_url,
        supervisor.peer_proxy.stun_urls@ == config.peer_proxy.stun_urls@,
        supervisor.peer_proxy.nat_timeout == config.peer_proxy.nat_timeout,
        supervisor.peer_proxy.enable_ipv6 == config.peer_proxy.enable_ipv6,
        supervisor.peer_proxy.randomize_dtls == config.peer_proxy.randomize_dtls,
{
}

/// A session that has ended, with the time that it took and the clock at its end.
#[derive(Debug)]
pub struct TimedSession {
    pub session: SupervisedSession,
    pub duration: Duration,
    pub now: Duration,
}

/// Whether the supervisor, once it has run `ended` after `before`, is `after`.
pub open spec fn leads_to(before: Supervisor, ended: TimedSession, after: Supervisor) -> bool {
    exists|step: SupervisorStep| #[trigger]
        with_one_more_attempt(before).finishes(
            ended.session,
            ended.duration,
            ended.now,
            after,
            step,
        )
}

/// Whether `states` are the supervisor's states over the sessions of `run`: it starts each session
/// by counting it, and the state after it is what the session leaves.
pub open spec fn is_supervised_run(states: Seq<Supervisor>, run: Seq<TimedSession>) -> bool {
    &&& states.len() == run.len() + 1
    &&& forall|i: int|
        0 <= i < run.len() ==> #[trigger] leads_to(states[i], run[i], states[i + 1])
}

/// The supervisor once it has counted the start of a session.
pub open spec fn with_one_more_attempt(supervisor: Supervisor) -> Supervisor {
    Supervisor {
        summary: SupervisorSummary {
            attempts: (supervisor.summary.attempts + 1) as u64,
            ..supervisor.summary
        },
        ..supervisor
    }
}

/// The number of sessions at the end of a run none of which relayed for as long as `needed`.
pub open spec fn short_since(run: Seq<TimedSession>, needed: Duration) -> nat
    decreases run.len(),
{
    if run.len() == 0 || relayed_for(run.last().session.result, needed) {
        0
    } else {
        short_since(run.drop_last(), needed) + 1
    }
}

/// Over any run of sessions none of which the shutdown cut short, the backoff has doubled once for
/// every session since the last one that relayed long enough, completed or not, up to the longest
/// delay.
pub proof fn law_backoff_counts_short_sessions(states: Seq<Supervisor>, run: Seq<TimedSession>)
    requires
        is_supervised_run(states, run),
        states[0].wf(),
        states[0].backoff@ == states[0].initial_backoff@,
        forall|i: int|
            0 <= i < run.len() ==> (#[trigger] run[i]).session.result is Ok
                || !run[i].session.cancelled,
    ensures
        ({
            let doubled = states[0].initial_backoff@ * vstd::arithmetic::power2::pow2(
                short_since(run, states[0].stable_session),
            );
            &&& states.last().backoff@ <= doubled
            &&& states.last().backoff@ <= states[0].max_backoff@
            &&& states.last().backoff@ == doubled || states.last().backoff@
                == states[0].max_backoff@
        }),
        states.last().initial_backoff == states[0].initial_backoff,
        states.last().max_backoff == states[0].max_backoff,
        states.last().stable_session == states[0].stable_session,
    decreases run.len(),
{
    vstd::arithmetic::power2::lemma2_to64();
    let initial = states[0].initial_backoff@;
    if run.len() > 0 {
        let (before, start) = (states.drop_last(), run.drop_last());
        assert forall|i: int| 0 <= i < start.len() implies #[trigger] leads_to(
            before[i],
            start[i],
            before[i + 1],
        ) by {
            assert(leads_to(states[i], run[i], states[i + 1]));
        }
        assert forall|i: int| 0 <= i < start.len() implies (#[trigger] start[i]).session.result is Ok
            || !start[i].session.cancelled by {
            assert(start[i] == run[i]);
        }
        law_backoff_counts_short_sessions(before, start);
        let n = run.len() - 1;
        let (last, next) = (states[n], states[n + 1]);
        assert(before.last() == last);
        assert(leads_to(last, run[n], next));
        assert(run[n].session.result is Ok || !run[n].session.cancelled);
        let count = short_since(run, states[0].stable_session);
        if count > 0 {
            vstd::arithmetic::power2::lemma_pow2_unfold(count);
            let factor = vstd::arithmetic::power2::pow2(count);
            let factor_before = vstd::arithmetic::power2::pow2((count - 1) as nat);
            assert(2 * (initial * factor_before) == initial * factor) by (nonlinear_arith)
                requires
                    factor == 2 * factor_before,
            ;
        }
    }
    assert(initial * vstd::arithmetic::power2::pow2(0) == initial);
}

/// A delay is never none: a delay of no length becomes a millisecond, and any other stays as it is.
pub proof fn law_no_delay_is_none(duration: Duration, delay: Duration)
    requires
        call_ensures(nonzero, (duration,), delay),
    ensures
        delay@ > 0,
        duration@ > 0 ==> delay@ == duration@,
        duration@ == 0 ==> delay@ == 1_000_000,
{
}

/// A pool has as many slots as it was asked for, or one if it was asked for none, and an event of a
/// slot is reported as that slot's and as it is.
pub proof fn law_pool_has_its_slots(
    slots: usize,
    count: usize,
    slot: usize,
    event: SupervisorEvent,
    reported: PoolEvent,
)
    requires
        call_ensures(pool_slots, (slots,), count),
        call_ensures(tagged, (slot, event), reported),
    ensures
        count >= 1,
        slots >= 1 ==> count == slots,
        slots == 0 ==> count == 1,
        reported.slot == slot,
        reported.event == event,
{
}

/// A pool's supervisors are all set up alike, one for each of its slots, and none has started a
/// session.
pub proof fn law_pool_supervisors_are_alike(
    config: SupervisorConfig,
    slots: usize,
    supervisors: Vec<Supervisor>,
    i: int,
)
    requires
        call_ensures(pool_supervisors, (&config, slots), supervisors),
        0 <= i < supervisors@.len(),
    ensures
        supervisors@.len() == slots || slots == 0 && supervisors@.len() == 1,
        supervisors@[i].summary.attempts == 0,
        supervisors@[i].stable_session == config.stable_session,
        supervisors@[i].backoff@ == supervisors@[0].backoff@,
        supervisors@[i].max_backoff@ == supervisors@[0].max_backoff@,
        supervisors@[i].peer_proxy.egress_url == config.peer_proxy.egress_url,
        supervisors@[i].peer_proxy.stun_urls@ == config.peer_proxy.stun_urls@,
        supervisors@[i].peer_proxy.nat_timeout == config.peer_proxy.nat_timeout,
{
    assert(supervisors@[0].is_new(config));
    assert(supervisors@[i].is_new(config));
}

/// A session that starts is counted, and reported under the number that it is counted as, which
/// follows the number before it. Nothing else changes, and during the shutdown nothing starts.
pub proof fn law_sessions_are_numbered_in_order(
    supervisor: Supervisor,
    cancelled: bool,
    after: Supervisor,
    event: Option<SupervisorEvent>,
)
    requires
        supervisor.summary.attempts < u64::MAX,
        supervisor.begins(cancelled, after, event),
    ensures
        event is None <==> cancelled,
        after.summary.attempts == supervisor.summary.attempts + if cancelled {
            0int
        } else {
            1int
        },
        event matches Some(event) ==> event == (SupervisorEvent::AttemptStarted {
            attempt: after.summary.attempts,
        }),
        after == (Supervisor {
            summary: SupervisorSummary {
                attempts: after.summary.attempts,
                ..supervisor.summary
            },
            ..supervisor
        }),
{
}

/// Whatever order the slots of a pool end in, each slot's summary stands in its own place.
pub proof fn law_every_slot_has_its_summary(
    results: Vec<(usize, SupervisorSummary)>,
    summary: SupervisorPoolSummary,
    i: int,
)
    requires
        covers_slots(results@),
        call_ensures(pool_summary, (results,), summary),
        0 <= i < results@.len(),
    ensures
        summary.workers@.len() == results@.len(),
        summary.workers@[results@[i].0 as int] == results@[i].1,
{
}

} // verus!
