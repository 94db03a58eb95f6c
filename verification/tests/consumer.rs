use lantern_unbounded::addr::SocketAddress;
use lantern_unbounded::consumer::{
    expect_signal, ice_payload, offer_payload, ConsumerConfig, ConsumerError, ConsumerEvent,
    ConsumerIceCandidate, ConsumerOutcome, ConsumerSession, ConsumerSessionAction,
    ConsumerSessionEvent, ConsumerSessionStage, ConsumerStep, ConsumerSummary, ConsumerSupervisor,
    ConsumerSupervisorConfig, GenesisAction, GenesisEvent, GenesisSelection,
};
use lantern_unbounded::consumer_path::{
    ConsumerPathEnd, ConsumerPathError, SyntheticPathAllocator, CGNAT_HOSTS,
};
use lantern_unbounded::duration::Duration;
use lantern_unbounded::peer_proxy::DataChannelOutcome;
use lantern_unbounded::protocol::{SignalMessage, SignalMessageType};
use lantern_unbounded::rtc::{IceCandidate, IceCandidateType, IceProtocol, PeerConnectionState};
use lantern_unbounded::signaling::SignalingError;

fn candidate() -> IceCandidate {
    IceCandidate {
        foundation: "1234".into(),
        priority: 1_694_498_815,
        address: "203.0.113.8".into(),
        protocol: IceProtocol::Udp,
        port: 54_321,
        typ: IceCandidateType::Srflx,
        component: 1,
        related_address: "192.168.1.20".into(),
        related_port: 60_000,
        tcp_type: String::new(),
    }
}

#[test]
fn serializes_pion_compatible_candidate_protocol_numbers() {
    let candidate = candidate();
    let encoded: serde_json::Value =
        serde_json::from_str(&ConsumerIceCandidate::from_candidate(&candidate).to_json()).unwrap();
    assert_eq!(encoded["protocol"], 1);
    assert_eq!(encoded["type"], "srflx");
    assert_eq!(encoded["relatedAddress"], "192.168.1.20");
    assert!(encoded.get("sdpMid").is_none());
}

#[test]
fn candidate_fields_stand_in_order() {
    assert_eq!(
        ConsumerIceCandidate::from_candidate(&candidate()).to_json(),
        r#"{"foundation":"1234","priority":1694498815,"address":"203.0.113.8","protocol":1,"port":54321,"type":"srflx","component":1,"relatedAddress":"192.168.1.20","relatedPort":60000,"tcpType":""}"#
    );
    let protocols = [
        (IceProtocol::Unspecified, 0),
        (IceProtocol::Udp, 1),
        (IceProtocol::Tcp, 2),
    ];
    for (protocol, number) in protocols {
        let encoded =
            ConsumerIceCandidate::from_candidate(&IceCandidate { protocol, ..candidate() });
        assert_eq!(encoded.protocol, number);
        assert_eq!(IceProtocol::from_number(number), protocol);
    }
    assert_eq!(IceProtocol::from_number(3), IceProtocol::Unspecified);
}

#[test]
fn candidate_types_have_their_names() {
    let types = [
        (IceCandidateType::Unspecified, "Unspecified"),
        (IceCandidateType::Host, "host"),
        (IceCandidateType::Srflx, "srflx"),
        (IceCandidateType::Prflx, "prflx"),
        (IceCandidateType::Relay, "relay"),
    ];
    for (typ, name) in types {
        let encoded =
            ConsumerIceCandidate::from_candidate(&IceCandidate { typ, ..candidate() }).to_json();
        let fields: serde_json::Value = serde_json::from_str(&encoded).unwrap();
        assert_eq!(fields["type"], name);
    }
}

#[test]
fn ice_and_offer_payloads() {
    assert_eq!(
        ice_payload(&Vec::new(), "stable-consumer-id"),
        r#"{"Candidates":[],"ConsumerSessionID":"stable-consumer-id"}"#
    );
    let two = vec![candidate(), candidate()];
    let payload: serde_json::Value = serde_json::from_str(&ice_payload(&two, "id\"")).unwrap();
    assert_eq!(payload["Candidates"].as_array().unwrap().len(), 2);
    assert_eq!(payload["Candidates"][1]["foundation"], "1234");
    assert_eq!(payload["ConsumerSessionID"], "id\"");
    assert_eq!(
        offer_payload("{\"type\":\"offer\"}", "tag\\"),
        "{\"SDP\":{\"type\":\"offer\"},\"Tag\":\"tag\\\\\"}"
    );
}

#[test]
fn config_defaults() {
    let config = ConsumerConfig::new("stable-consumer-id".into());
    assert_eq!(config.consumer_session_id, "stable-consumer-id");
    assert!(config.stun_urls.is_empty());
    assert_eq!(config.tag, "");
    assert_eq!(config.patience, Duration::from_millis(500));
    assert_eq!(config.nat_timeout, Duration::from_secs(5));
    assert_eq!(config.path_queue_capacity, 4096);
    assert!(!config.enable_ipv6);
}

fn signal(reply_to: &str, kind: SignalMessageType, payload: &str) -> SignalMessage {
    SignalMessage { reply_to: reply_to.into(), kind, payload: payload.into() }
}

fn advertised(reply_to: &str, kind: SignalMessageType) -> GenesisEvent {
    GenesisEvent::Advertisement(Ok(Some(signal(reply_to, kind, "{}"))))
}

#[test]
fn selects_one_of_the_advertised_peers() {
    let patience = Duration::from_millis(500);
    let mut seen = Vec::new();
    for _ in 0..200 {
        let mut selection = GenesisSelection::new(patience);
        assert!(matches!(
            selection.step(advertised("offer", SignalMessageType::Offer)),
            GenesisAction::Read
        ));
        assert!(matches!(
            selection.step(advertised("one", SignalMessageType::Genesis)),
            GenesisAction::ReadFor(time) if time == patience
        ));
        assert!(matches!(
            selection.step(advertised("two", SignalMessageType::Genesis)),
            GenesisAction::Read
        ));
        assert!(matches!(
            selection.step(advertised("ice", SignalMessageType::Ice)),
            GenesisAction::Read
        ));
        match selection.step(GenesisEvent::PatienceOver) {
            GenesisAction::Select(message) => {
                assert_eq!(message.kind, SignalMessageType::Genesis);
                seen.push(message.reply_to);
            }
            other => panic!("expected a selection, got {other:?}"),
        }
    }
    assert!(seen.iter().all(|peer| peer == "one" || peer == "two"));
    assert!(seen.contains(&"one".to_owned()));
    assert!(seen.contains(&"two".to_owned()));
}

#[test]
fn selection_ends_with_the_advertisements() {
    let mut selection = GenesisSelection::new(Duration::from_secs(1));
    assert!(matches!(
        selection.step(GenesisEvent::Advertisement(Ok(None))),
        GenesisAction::Fail(ConsumerError::NoGenesis)
    ));
    selection.step(advertised("one", SignalMessageType::Genesis));
    assert!(matches!(
        selection.step(GenesisEvent::Advertisement(Ok(None))),
        GenesisAction::Select(message) if message.reply_to == "one"
    ));
    assert!(matches!(
        selection.step(GenesisEvent::Advertisement(Err(SignalingError::Http(500)))),
        GenesisAction::Fail(ConsumerError::Signaling(SignalingError::Http(500)))
    ));
    assert!(matches!(
        selection.step(GenesisEvent::Cancelled),
        GenesisAction::Fail(ConsumerError::Cancelled)
    ));
}

fn config() -> ConsumerConfig {
    let mut config = ConsumerConfig::new("stable-consumer-id".into());
    config.patience = Duration::from_secs(0);
    config
}

fn genesis() -> ConsumerSessionEvent {
    ConsumerSessionEvent::GenesisSelected(Ok(signal(
        "genesis-request",
        SignalMessageType::Genesis,
        "{}",
    )))
}

fn reply(reply_to: &str, kind: SignalMessageType, payload: &str) -> ConsumerSessionEvent {
    ConsumerSessionEvent::Signal(Ok(Some(signal(reply_to, kind, payload))))
}

fn path_address(last_octet: u8) -> SocketAddress {
    SocketAddress::V4 { ip: u32::from_be_bytes([100, 64, 0, last_octet]), port: 443 }
}

#[test]
fn completes_consumer_signaling_and_opens_a_peer_path() {
    let mut allocator = SyntheticPathAllocator::new();
    let (session, action) = ConsumerSession::start(config());
    assert!(matches!(
        action,
        ConsumerSessionAction::SelectGenesis { patience } if patience == Duration::from_secs(0)
    ));
    let (session, action) = session.step(genesis(), &mut allocator);
    assert!(matches!(action, ConsumerSessionAction::CreateOffer));
    let (session, action) =
        session.step(ConsumerSessionEvent::OfferCreated("{}".into()), &mut allocator);
    assert!(matches!(
        action,
        ConsumerSessionAction::Exchange { send_to, kind: SignalMessageType::Offer, payload }
            if send_to == "genesis-request" && payload == "{\"SDP\":{},\"Tag\":\"\"}"
    ));
    let (session, action) =
        session.step(reply("ice-request", SignalMessageType::Answer, "answer"), &mut allocator);
    assert!(matches!(
        action,
        ConsumerSessionAction::ApplyAnswer { payload } if payload == "answer"
    ));
    let (session, action) = session.step(
        ConsumerSessionEvent::CandidatesGathered(vec![candidate()]),
        &mut allocator,
    );
    match action {
        ConsumerSessionAction::Exchange { send_to, kind, payload } => {
            assert_eq!(send_to, "ice-request");
            assert_eq!(kind, SignalMessageType::Ice);
            let ice: serde_json::Value = serde_json::from_str(&payload).unwrap();
            assert_eq!(ice["ConsumerSessionID"], "stable-consumer-id");
        }
        other => panic!("unexpected {other:?}"),
    }
    let (session, action) = session.step(ConsumerSessionEvent::Signal(Ok(None)), &mut allocator);
    assert!(matches!(
        action,
        ConsumerSessionAction::AwaitDataChannel { timeout } if timeout == Duration::from_secs(5)
    ));
    let (session, action) = session.step(
        ConsumerSessionEvent::DataChannel(DataChannelOutcome::Opened),
        &mut allocator,
    );
    assert!(matches!(
        action,
        ConsumerSessionAction::RunPath { remote, queue_capacity: 4096 } if remote == path_address(2)
    ));
    let (session, action) = session.step(
        ConsumerSessionEvent::PathEnded(Ok(ConsumerPathEnd::PeerClosed)),
        &mut allocator,
    );
    match action {
        ConsumerSessionAction::Finish(Ok(outcome)) => {
            assert_eq!(outcome.remote, path_address(2));
            assert_eq!(outcome.path_end, ConsumerPathEnd::PeerClosed);
        }
        other => panic!("unexpected {other:?}"),
    }
    assert_eq!(session.stage, ConsumerSessionStage::Finished);
    assert_eq!(session.config, config());
    assert_eq!(allocator.allocate().unwrap(), path_address(3));
}

fn failure(
    events: Vec<ConsumerSessionEvent>,
    allocator: &mut SyntheticPathAllocator,
) -> ConsumerError {
    let (mut session, mut action) = ConsumerSession::start(config());
    for event in events {
        let next = session.step(event, allocator);
        session = next.0;
        action = next.1;
    }
    assert_eq!(session.stage, ConsumerSessionStage::Finished);
    match action {
        ConsumerSessionAction::Finish(Err(error)) => error,
        other => panic!("expected a failure, got {other:?}"),
    }
}

fn up_to(stage: usize, last: ConsumerSessionEvent) -> Vec<ConsumerSessionEvent> {
    let mut events = vec![
        genesis(),
        ConsumerSessionEvent::OfferCreated("{}".into()),
        reply("ice-request", SignalMessageType::Answer, "answer"),
        ConsumerSessionEvent::CandidatesGathered(Vec::new()),
        ConsumerSessionEvent::Signal(Ok(None)),
        ConsumerSessionEvent::DataChannel(DataChannelOutcome::Opened),
    ];
    events.truncate(stage);
    events.push(last);
    events
}

#[test]
fn consumer_failures_end_the_session() {
    let mut allocator = SyntheticPathAllocator::new();
    let mut fails = |stage: usize, event: ConsumerSessionEvent| {
        failure(up_to(stage, event), &mut allocator)
    };
    assert!(matches!(
        fails(0, ConsumerSessionEvent::GenesisSelected(Err(ConsumerError::NoGenesis))),
        ConsumerError::NoGenesis
    ));
    for stage in [1, 3] {
        assert!(matches!(
            fails(stage, ConsumerSessionEvent::JsonFailed("bad".into())),
            ConsumerError::Json(error) if error == "bad"
        ));
        assert!(matches!(
            fails(
                stage,
                ConsumerSessionEvent::WebRtcFailed(webrtc::Error::ErrConnectionClosed)
            ),
            ConsumerError::WebRtc(webrtc::Error::ErrConnectionClosed)
        ));
    }
    assert!(matches!(
        fails(2, ConsumerSessionEvent::Signal(Ok(None))),
        ConsumerError::MissingAnswer
    ));
    assert!(matches!(
        fails(2, reply("", SignalMessageType::Offer, "")),
        ConsumerError::UnexpectedSignal {
            expected: SignalMessageType::Answer,
            actual: SignalMessageType::Offer,
        }
    ));
    for stage in [2, 4] {
        assert!(matches!(
            fails(stage, ConsumerSessionEvent::Signal(Err(SignalingError::RecipientGone))),
            ConsumerError::Signaling(SignalingError::RecipientGone)
        ));
    }
    assert!(matches!(
        fails(5, ConsumerSessionEvent::DataChannel(DataChannelOutcome::TimedOut)),
        ConsumerError::NatTimeout
    ));
    assert!(matches!(
        fails(5, ConsumerSessionEvent::DataChannel(DataChannelOutcome::Abandoned)),
        ConsumerError::DataChannelClosed
    ));
    assert!(matches!(
        fails(
            5,
            ConsumerSessionEvent::DataChannel(DataChannelOutcome::PeerEnded(
                PeerConnectionState::Closed
            ))
        ),
        ConsumerError::PeerConnectionEnded(PeerConnectionState::Closed)
    ));
    assert!(matches!(
        fails(
            6,
            ConsumerSessionEvent::PathEnded(Err(ConsumerPathError::EmptySource))
        ),
        ConsumerError::Path(ConsumerPathError::EmptySource)
    ));
    for stage in 0..=6 {
        assert!(matches!(
            fails(stage, ConsumerSessionEvent::Cancelled),
            ConsumerError::Cancelled
        ));
    }
}

#[test]
fn exhausted_addresses_fail_the_session() {
    let mut allocator = SyntheticPathAllocator { next_host: CGNAT_HOSTS };
    let opened = ConsumerSessionEvent::DataChannel(DataChannelOutcome::Opened);
    assert!(matches!(
        failure(up_to(5, opened), &mut allocator),
        ConsumerError::Path(ConsumerPathError::AddressSpaceExhausted)
    ));
}

#[test]
fn consumer_ignores_events_out_of_turn() {
    let mut allocator = SyntheticPathAllocator::new();
    let (session, _) = ConsumerSession::start(config());
    let opened = ConsumerSessionEvent::DataChannel(DataChannelOutcome::Opened);
    let (session, action) = session.step(opened, &mut allocator);
    assert!(matches!(action, ConsumerSessionAction::Ignore));
    assert_eq!(session.stage, ConsumerSessionStage::SelectingGenesis);
    assert_eq!(allocator, SyntheticPathAllocator::new());
}

#[test]
fn consumer_rejects_unexpected_signaling_step() {
    let signal = signal("request", SignalMessageType::Genesis, "{}");
    assert!(expect_signal(&signal, SignalMessageType::Genesis).is_ok());
    assert!(matches!(
        expect_signal(&signal, SignalMessageType::Answer),
        Err(ConsumerError::UnexpectedSignal { .. })
    ));
}

#[test]
fn supervisor_keeps_paths_coming() {
    let retry_delay = Duration::from_secs(3);
    let mut supervisor = ConsumerSupervisor::new(&ConsumerSupervisorConfig {
        consumer: config(),
        retry_delay,
    });
    let outcome = |path_end: ConsumerPathEnd| ConsumerOutcome { remote: path_address(2), path_end };

    assert_eq!(supervisor.begin(true), None);
    assert_eq!(supervisor.begin(false), Some(ConsumerEvent::AttemptStarted { attempt: 1 }));
    assert_eq!(
        supervisor.finish(Ok(outcome(ConsumerPathEnd::PeerClosed)), true),
        ConsumerStep::Continue {
            event: ConsumerEvent::PathEnded {
                attempt: 1,
                outcome: outcome(ConsumerPathEnd::PeerClosed),
            },
            retry_in: None,
        }
    );
    supervisor.begin(false);
    assert_eq!(
        supervisor.finish(Err("no peer".into()), false),
        ConsumerStep::Continue {
            event: ConsumerEvent::AttemptFailed { attempt: 2, error: "no peer".into() },
            retry_in: Some(retry_delay),
        }
    );
    supervisor.begin(false);
    assert_eq!(supervisor.finish(Err("shutdown".into()), true), ConsumerStep::Stop);
    assert_eq!(
        supervisor.stopped(),
        ConsumerEvent::Stopped {
            summary: ConsumerSummary { attempts: 3, completed_paths: 1, failed_attempts: 1 }
        }
    );
}

#[test]
fn cancelled_path_stops_the_supervisor() {
    let mut supervisor = ConsumerSupervisor::new(&ConsumerSupervisorConfig {
        consumer: config(),
        retry_delay: Duration::from_secs(3),
    });
    supervisor.begin(false);
    let outcome = ConsumerOutcome {
        remote: path_address(2),
        path_end: ConsumerPathEnd::Cancelled,
    };
    assert_eq!(supervisor.finish(Ok(outcome), false), ConsumerStep::Stop);
    assert_eq!(
        supervisor.summary,
        ConsumerSummary { attempts: 1, ..ConsumerSummary::default() }
    );
}

#[test]
fn every_session_carries_the_same_session_id() {
    let mut consumer = config();
    consumer.stun_urls = vec!["stun:one".into()];
    let mut supervisor = ConsumerSupervisor::new(&ConsumerSupervisorConfig {
        consumer: consumer.clone(),
        retry_delay: Duration::from_secs(3),
    });
    let mut allocator = SyntheticPathAllocator::new();
    let mut remotes = Vec::new();
    for _ in 0..3 {
        supervisor.begin(false);
        let (session, action) = supervisor.session();
        assert!(matches!(
            action,
            ConsumerSessionAction::SelectGenesis { patience } if patience == consumer.patience
        ));
        assert_eq!(session.config, consumer);
        let genesis = signal("genesis-request", SignalMessageType::Genesis, "{}");
        let (session, _) =
            session.step(ConsumerSessionEvent::GenesisSelected(Ok(genesis)), &mut allocator);
        let (session, _) =
            session.step(ConsumerSessionEvent::OfferCreated("{}".into()), &mut allocator);
        let answer = signal("answer-request", SignalMessageType::Answer, "{}");
        let (session, _) =
            session.step(ConsumerSessionEvent::Signal(Ok(Some(answer))), &mut allocator);
        let (session, action) =
            session.step(ConsumerSessionEvent::CandidatesGathered(Vec::new()), &mut allocator);
        assert!(matches!(
            action,
            ConsumerSessionAction::Exchange { kind: SignalMessageType::Ice, payload, .. }
                if payload == r#"{"Candidates":[],"ConsumerSessionID":"stable-consumer-id"}"#
        ));
        let (session, _) = session.step(ConsumerSessionEvent::Signal(Ok(None)), &mut allocator);
        let opened = ConsumerSessionEvent::DataChannel(DataChannelOutcome::Opened);
        match session.step(opened, &mut allocator).1 {
            ConsumerSessionAction::RunPath { remote, .. } => remotes.push(remote),
            other => panic!("expected a path, got {other:?}"),
        }
        let outcome = ConsumerOutcome {
            remote: remotes[0],
            path_end: ConsumerPathEnd::PeerClosed,
        };
        supervisor.finish(Ok(outcome), false);
    }
    assert_ne!(remotes[0], remotes[1]);
    assert_ne!(remotes[1], remotes[2]);
    assert_eq!(supervisor.summary.attempts, 3);
    assert_eq!(supervisor.summary.completed_paths, 3);
}
