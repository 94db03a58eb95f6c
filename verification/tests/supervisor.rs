use lantern_unbounded::duration::Duration;
use lantern_unbounded::peer_proxy::{PeerProxyConfig, PeerProxyError, PeerProxyOutcome};
use lantern_unbounded::relay::{RelayEnd, RelayError};
use lantern_unbounded::supervisor::{
    entropy, jittered, nonzero, pool_slots, pool_summary, pool_supervisors, tagged,
    SessionFailure, Supervisor,
    SupervisorConfig, SupervisorEvent, SupervisorPoolSummary, SupervisorStep, SupervisorSummary,
};

fn test_config() -> SupervisorConfig {
    SupervisorConfig {
        peer_proxy: PeerProxyConfig {
            egress_url: "ws://127.0.0.1:1/ws".into(),
            stun_urls: Vec::new(),
            nat_timeout: Duration::from_millis(1),
            enable_ipv6: false,
            randomize_dtls: false,
        },
        initial_backoff: Duration::from_millis(1),
        max_backoff: Duration::from_millis(2),
        stable_session: Duration::from_secs(1),
    }
}

fn failure(error: PeerProxyError) -> Result<PeerProxyOutcome, SessionFailure> {
    Err(SessionFailure { error, text: "failed".into() })
}

fn outcome(relay_duration: Duration) -> Result<PeerProxyOutcome, SessionFailure> {
    Ok(PeerProxyOutcome {
        consumer_session_id: "session-42".into(),
        relay_end: RelayEnd::PeerClosed,
        relay_duration,
    })
}

/// A clock that gives the attempt this entropy.
fn clock(attempt: u64, entropy: u64) -> Duration {
    Duration::from_nanos(entropy ^ attempt.wrapping_mul(0x9e37_79b9_7f4a_7c15))
}

fn retry(step: SupervisorStep) -> Duration {
    match step {
        SupervisorStep::Retry { retry_in, .. } => retry_in,
        SupervisorStep::Stop => panic!("expected a retry"),
    }
}

#[test]
fn jitter_stays_within_twenty_percent() {
    let base = Duration::from_secs(10);
    for seed in 0..100 {
        let delay = jittered(base, seed);
        assert!(delay >= Duration::from_secs(8));
        assert!(delay <= Duration::from_secs(12));
    }
}

#[test]
fn jitter_is_chosen_by_entropy() {
    let base = Duration::from_secs(10);
    assert_eq!(jittered(base, 0), Duration::from_secs(8));
    assert_eq!(jittered(base, 20), Duration::from_secs(10));
    assert_eq!(jittered(base, 40), Duration::from_secs(12));
    assert_eq!(jittered(base, 41), Duration::from_secs(8));
    assert_eq!(jittered(Duration::from_nanos(101), 21), Duration::from_nanos(102));
    assert_eq!(jittered(Duration::from_secs(u64::MAX), 7), Duration::from_nanos(u64::MAX));
}

#[test]
fn zero_backoff_is_made_nonzero() {
    assert_eq!(nonzero(Duration::from_secs(0)), Duration::from_millis(1));
}

#[test]
fn nonzero_backoff_is_kept() {
    assert_eq!(nonzero(Duration::from_nanos(1)), Duration::from_nanos(1));
}

#[test]
fn entropy_mixes_clock_and_attempt() {
    assert_eq!(entropy(Duration::from_nanos(5), 0), 5);
    assert_eq!(entropy(Duration::from_nanos(0), 1), 0x9e37_79b9_7f4a_7c15);
    assert_eq!(
        entropy(Duration::from_secs(1_700_000_000_000), 3),
        (1_700_000_000_000_000_000_000_u128 % (1 << 64)) as u64
            ^ 3_u64.wrapping_mul(0x9e37_79b9_7f4a_7c15)
    );
}

#[test]
fn retries_failures_and_stops_cleanly_on_cancellation() {
    let mut supervisor = Supervisor::new(&test_config());
    for _ in 0..2 {
        supervisor.begin(false);
        let step = supervisor.finish(
            failure(PeerProxyError::MissingResponse("test response")),
            false,
            Duration::from_millis(1),
            Duration::from_secs(0),
        );
        assert!(matches!(step, SupervisorStep::Retry { .. }));
    }
    supervisor.begin(false);
    let step = supervisor.finish(
        failure(PeerProxyError::Cancelled),
        true,
        Duration::from_millis(1),
        Duration::from_secs(0),
    );
    assert_eq!(step, SupervisorStep::Stop);

    let summary = supervisor.summary;
    assert_eq!(summary.attempts, 3);
    assert_eq!(summary.failed_attempts, 2);
    assert_eq!(summary.completed_sessions, 0);
}

#[test]
fn shutdown_race_does_not_count_a_transport_failure() {
    let mut supervisor = Supervisor::new(&test_config());
    supervisor.begin(false);
    let step = supervisor.finish(
        failure(PeerProxyError::MissingResponse("shutdown race")),
        true,
        Duration::from_millis(1),
        Duration::from_secs(0),
    );
    assert_eq!(step, SupervisorStep::Stop);

    let summary = supervisor.summary;
    assert_eq!(summary.attempts, 1);
    assert_eq!(summary.failed_attempts, 0);
    assert_eq!(summary.completed_sessions, 0);
}

#[test]
fn stable_relay_resets_backoff_even_when_transport_fails() {
    let mut config = test_config();
    config.initial_backoff = Duration::from_millis(10);
    config.max_backoff = Duration::from_millis(40);
    config.stable_session = Duration::from_secs(30);
    let mut supervisor = Supervisor::new(&config);

    supervisor.begin(false);
    supervisor.finish(
        failure(PeerProxyError::Relay {
            relay_duration: Duration::from_secs(31),
            source: RelayError::Peer("test relay failure".into()),
        }),
        false,
        Duration::from_secs(31),
        clock(1, 40),
    );
    supervisor.begin(false);
    let second_retry = retry(supervisor.finish(
        failure(PeerProxyError::MissingResponse("test response")),
        false,
        Duration::from_millis(1),
        clock(2, 40),
    ));
    assert_eq!(second_retry, Duration::from_millis(12));
    assert!(second_retry <= Duration::from_millis(12));
}

#[test]
fn backoff_doubles_up_to_its_bound_and_resets() {
    let mut config = test_config();
    config.initial_backoff = Duration::from_millis(10);
    config.max_backoff = Duration::from_millis(35);
    let mut supervisor = Supervisor::new(&config);
    let mut delays = Vec::new();
    for attempt in 1..=4 {
        supervisor.begin(false);
        delays.push(retry(supervisor.finish(
            failure(PeerProxyError::NatTimeout),
            false,
            Duration::from_millis(1),
            clock(attempt, 20),
        )));
    }
    assert_eq!(
        delays,
        [10, 20, 35, 35].map(Duration::from_millis)
    );
    supervisor.begin(false);
    let longest = retry(supervisor.finish(
        failure(PeerProxyError::NatTimeout),
        false,
        Duration::from_millis(1),
        clock(5, 40),
    ));
    assert_eq!(longest, Duration::from_millis(35));
    supervisor.begin(false);
    let stable = retry(supervisor.finish(
        outcome(Duration::from_secs(1)),
        false,
        Duration::from_secs(2),
        clock(6, 20),
    ));
    assert_eq!(stable, Duration::from_millis(10));
    assert_eq!(supervisor.backoff, Duration::from_millis(10));
    for (attempt, backoff) in [(7, 20), (8, 35)] {
        supervisor.begin(false);
        supervisor.finish(
            failure(PeerProxyError::NatTimeout),
            false,
            Duration::from_millis(1),
            clock(attempt, 20),
        );
        assert_eq!(supervisor.backoff, Duration::from_millis(backoff));
    }
}

#[test]
fn longest_delay_is_never_below_the_first() {
    let mut config = test_config();
    config.initial_backoff = Duration::from_secs(0);
    config.max_backoff = Duration::from_secs(0);
    let supervisor = Supervisor::new(&config);
    assert_eq!(supervisor.initial_backoff, Duration::from_millis(1));
    assert_eq!(supervisor.max_backoff, Duration::from_millis(1));
}

#[test]
fn reports_carry_attempt_and_delay() {
    let mut supervisor = Supervisor::new(&test_config());
    assert_eq!(supervisor.begin(true), None);
    assert_eq!(supervisor.begin(false), Some(SupervisorEvent::AttemptStarted { attempt: 1 }));
    let duration = Duration::from_millis(7);
    match supervisor.finish(outcome(Duration::from_millis(1)), true, duration, clock(1, 20)) {
        SupervisorStep::Retry { event, retry_in } => assert_eq!(
            event,
            SupervisorEvent::SessionEnded {
                attempt: 1,
                outcome: outcome(Duration::from_millis(1)).unwrap(),
                duration,
                retry_in,
            }
        ),
        SupervisorStep::Stop => panic!("a completed session is counted"),
    }
    supervisor.begin(false);
    match supervisor.finish(failure(PeerProxyError::NatTimeout), false, duration, clock(2, 20)) {
        SupervisorStep::Retry { event, retry_in } => assert_eq!(
            event,
            SupervisorEvent::AttemptFailed {
                attempt: 2,
                error: "failed".into(),
                duration,
                retry_in,
            }
        ),
        SupervisorStep::Stop => panic!("expected a retry"),
    }
    assert_eq!(
        supervisor.stopped(),
        SupervisorEvent::Stopped {
            summary: SupervisorSummary {
                attempts: 2,
                completed_sessions: 1,
                failed_attempts: 1,
            }
        }
    );
}

#[test]
fn every_session_runs_with_the_same_settings() {
    let mut config = test_config();
    config.peer_proxy.stun_urls = vec!["stun:one".into(), "stun:two".into()];
    let mut supervisor = Supervisor::new(&config);
    for attempt in 1..4 {
        supervisor.begin(false);
        assert_eq!(supervisor.session_config(), config.peer_proxy);
        supervisor.finish(
            failure(PeerProxyError::NatTimeout),
            false,
            Duration::from_millis(1),
            clock(attempt, 20),
        );
    }
    assert_eq!(supervisor.session_config(), config.peer_proxy);
    assert_eq!(config.clone(), config);
}

#[test]
fn pool_starts_one_supervisor_for_each_slot() {
    let config = test_config();
    assert_eq!(pool_supervisors(&config, 0).len(), 1);
    let supervisors = pool_supervisors(&config, 3);
    assert_eq!(supervisors.len(), 3);
    for supervisor in supervisors {
        assert_eq!(supervisor, Supervisor::new(&config));
    }
    let event = tagged(2, SupervisorEvent::AttemptStarted { attempt: 7 });
    assert_eq!(event.slot, 2);
    assert_eq!(event.event, SupervisorEvent::AttemptStarted { attempt: 7 });
}

#[test]
fn pool_summary_aggregates_worker_counts() {
    let summary = SupervisorPoolSummary {
        workers: vec![
            SupervisorSummary {
                attempts: 4,
                completed_sessions: 2,
                failed_attempts: 2,
            },
            SupervisorSummary {
                attempts: 3,
                completed_sessions: 1,
                failed_attempts: 2,
            },
        ],
    };

    assert_eq!(summary.attempts(), 7);
    assert_eq!(summary.completed_sessions(), 3);
    assert_eq!(summary.failed_attempts(), 4);
}

#[test]
fn pool_summary_is_in_slot_order() {
    let worker = |attempts: u64| SupervisorSummary {
        attempts,
        completed_sessions: 0,
        failed_attempts: 0,
    };
    let summary = pool_summary(vec![(2, worker(12)), (0, worker(10)), (1, worker(11))]);
    assert_eq!(summary.workers, [worker(10), worker(11), worker(12)]);
    assert_eq!(pool_summary(Vec::new()).workers, []);
    assert_eq!(SupervisorSummary::default(), worker(0));
    assert_eq!(pool_slots(0), 1);
    assert_eq!(pool_slots(5), 5);
}
