use lantern_unbounded::addr::{IpAddress, SocketAddress};
use lantern_unbounded::duration::Duration;
use lantern_unbounded::egress::EgressError;
use lantern_unbounded::peer_proxy::{
    expect_signal, DataChannelOutcome, IceMessage, PeerProxyConfig, PeerProxyError, PeerSession,
    PeerSessionAction, PeerSessionEvent, PeerSessionStage, PionIceCandidate,
};
use lantern_unbounded::peer_watch::{
    fail_data_channel_wait, is_disconnect_state, peer_connected_event, peer_disconnected_event,
    socket_addr_from_candidate, DataChannelWait, PeerWatch, RemoteCandidate,
};
use lantern_unbounded::protocol::{SignalMessage, SignalMessageType};
use lantern_unbounded::relay::{RelayEnd, RelayError};
use lantern_unbounded::rtc::{is_terminal_peer_state, IceCandidateType, PeerConnectionState};
use lantern_unbounded::signaling::SignalingError;
use lantern_unbounded::supervisor::SupervisorEvent;

fn candidate_type(name: &str) -> IceCandidateType {
    match name {
        "host" => IceCandidateType::Host,
        "srflx" => IceCandidateType::Srflx,
        "prflx" => IceCandidateType::Prflx,
        "relay" => IceCandidateType::Relay,
        _ => IceCandidateType::Unspecified,
    }
}

fn pion_candidate(raw: &str) -> PionIceCandidate {
    let fields: serde_json::Value = serde_json::from_str(raw).unwrap();
    let text = |name: &str| fields[name].as_str().unwrap().to_owned();
    let number = |name: &str| fields[name].as_u64().unwrap();
    PionIceCandidate {
        foundation: text("foundation"),
        priority: number("priority") as u32,
        address: text("address"),
        protocol: number("protocol") as u8,
        port: number("port") as u16,
        typ: candidate_type(&text("type")),
        component: number("component") as u16,
        related_address: text("relatedAddress"),
        related_port: number("relatedPort") as u16,
        tcp_type: text("tcpType"),
        sdp_mid: fields["sdpMid"].as_str().map(str::to_owned),
        sdp_mline_index: fields["sdpMLineIndex"].as_u64().map(|index| index as u16),
    }
}

#[test]
fn decodes_pion_candidate_and_builds_rust_candidate_init() {
    let raw = r#"{
        "foundation":"1234",
        "priority":1694498815,
        "address":"203.0.113.8",
        "protocol":1,
        "port":54321,
        "type":"srflx",
        "component":1,
        "relatedAddress":"192.168.1.20",
        "relatedPort":60000,
        "tcpType":"",
        "sdpMid":"0",
        "sdpMLineIndex":0
    }"#;
    let candidate = pion_candidate(raw);
    let init = candidate.to_init().unwrap();

    assert!(init.candidate.starts_with("candidate:1234 1 udp"));
    assert!(init.candidate.contains("203.0.113.8 54321 typ srflx"));
    assert_eq!(init.sdp_mid.as_deref(), Some("0"));
    assert_eq!(init.sdp_mline_index, Some(0));
}

#[test]
fn preserves_absent_pion_candidate_metadata() {
    let raw = r#"{
        "foundation":"1234",
        "priority":1694498815,
        "address":"203.0.113.8",
        "protocol":1,
        "port":54321,
        "type":"host",
        "component":1,
        "relatedAddress":"",
        "relatedPort":0,
        "tcpType":""
    }"#;
    let candidate = pion_candidate(raw);
    let init = candidate.to_init().unwrap();

    assert_eq!(init.sdp_mid, None);
    assert_eq!(init.sdp_mline_index, None);
}

fn host_candidate(address: &str, typ: IceCandidateType) -> PionIceCandidate {
    PionIceCandidate {
        foundation: "1".into(),
        priority: 7,
        address: address.into(),
        protocol: 1,
        port: 9,
        typ,
        component: 1,
        related_address: String::new(),
        related_port: 0,
        tcp_type: String::new(),
        sdp_mid: None,
        sdp_mline_index: None,
    }
}

#[test]
fn candidate_strings_name_protocol_and_priority() {
    let udp = host_candidate("192.0.2.1", IceCandidateType::Host);
    assert_eq!(udp.to_init().unwrap().candidate, "candidate:1 1 udp 7 192.0.2.1 9 typ host");
    assert!(host_candidate("192.0.2.1", IceCandidateType::Unspecified).to_init().is_err());
    assert!(host_candidate("not an address", IceCandidateType::Host).to_init().is_err());

    let mut without_priority = host_candidate("192.0.2.1", IceCandidateType::Host);
    without_priority.priority = 0;
    assert!(without_priority.has_priority());
    without_priority.component = 257;
    assert!(!without_priority.has_priority());
    without_priority.typ = IceCandidateType::Unspecified;
    assert!(without_priority.has_priority());
}

fn test_candidate(address: Option<IpAddress>, port: u16) -> RemoteCandidate {
    RemoteCandidate { address, port }
}

fn v4(a: u8, b: u8, c: u8, d: u8) -> IpAddress {
    IpAddress::V4(u32::from_be_bytes([a, b, c, d]))
}

#[test]
fn reads_remote_socket_addr_from_ipv4_candidate() {
    let candidate = test_candidate(Some(v4(203, 0, 113, 8)), 54321);
    assert_eq!(
        socket_addr_from_candidate(&candidate),
        Some(SocketAddress::V4 { ip: u32::from_be_bytes([203, 0, 113, 8]), port: 54321 })
    );
}

#[test]
fn reads_remote_socket_addr_from_ipv6_candidate() {
    let ip: u128 = 0x2001_0db8_0000_0000_0000_0000_0000_0001;
    let candidate = test_candidate(Some(IpAddress::V6(ip)), 443);
    assert_eq!(
        socket_addr_from_candidate(&candidate),
        Some(SocketAddress::V6 { ip, port: 443, flowinfo: 0, scope_id: 0 })
    );
}

#[test]
fn unparseable_candidate_address_yields_no_remote() {
    // mDNS candidates carry a ".local" hostname rather than an IP literal.
    let candidate = test_candidate(None, 54321);
    assert_eq!(socket_addr_from_candidate(&candidate), None);
}

#[test]
fn peer_connected_event_carries_session_id_and_remote() {
    let remote = test_candidate(Some(v4(203, 0, 113, 8)), 54321);
    let event = peer_connected_event("session-42".to_string(), Some(remote));
    match event {
        SupervisorEvent::PeerConnected { session_id, remote } => {
            assert_eq!(session_id, "session-42");
            assert_eq!(remote, Some(SocketAddress::new(v4(203, 0, 113, 8), 54321)));
        }
        other => panic!("expected PeerConnected, got {other:?}"),
    }
}

#[test]
fn peer_connected_event_without_pair_has_no_remote() {
    let event = peer_connected_event("session-42".to_string(), None);
    match event {
        SupervisorEvent::PeerConnected { session_id, remote } => {
            assert_eq!(session_id, "session-42");
            assert_eq!(remote, None);
        }
        other => panic!("expected PeerConnected, got {other:?}"),
    }
}

#[test]
fn peer_disconnected_event_carries_session_id() {
    let event = peer_disconnected_event("session-42".to_string());
    match event {
        SupervisorEvent::PeerDisconnected { session_id } => {
            assert_eq!(session_id, "session-42");
        }
        other => panic!("expected PeerDisconnected, got {other:?}"),
    }
}

#[test]
fn only_terminal_states_are_disconnects() {
    assert!(is_disconnect_state(PeerConnectionState::Disconnected));
    assert!(is_disconnect_state(PeerConnectionState::Failed));
    assert!(is_disconnect_state(PeerConnectionState::Closed));
    assert!(!is_disconnect_state(PeerConnectionState::Connected));
    assert!(!is_disconnect_state(PeerConnectionState::Connecting));
    assert!(!is_disconnect_state(PeerConnectionState::New));
}

#[test]
fn identifies_terminal_peer_states() {
    assert!(is_terminal_peer_state(PeerConnectionState::Disconnected));
    assert!(is_terminal_peer_state(PeerConnectionState::Failed));
    assert!(is_terminal_peer_state(PeerConnectionState::Closed));
    assert!(!is_terminal_peer_state(PeerConnectionState::New));
    assert!(!is_terminal_peer_state(PeerConnectionState::Connecting));
    assert!(!is_terminal_peer_state(PeerConnectionState::Connected));
}

#[test]
fn terminal_peer_state_wakes_data_channel_wait() {
    let mut wait = DataChannelWait::new();
    assert_eq!(
        fail_data_channel_wait(PeerConnectionState::Failed, &mut wait),
        Some(PeerConnectionState::Failed)
    );
}

#[test]
fn data_channel_wait_ends_once() {
    let mut wait = DataChannelWait::new();
    assert_eq!(fail_data_channel_wait(PeerConnectionState::Connected, &mut wait), None);
    assert!(wait.channel_opened());
    assert!(!wait.channel_opened());
    assert_eq!(fail_data_channel_wait(PeerConnectionState::Closed, &mut wait), None);
}

#[test]
fn watch_reports_one_disconnect_per_connected_session() {
    let mut watch = PeerWatch::new();
    assert_eq!(watch.on_state(PeerConnectionState::Connected, None), None);
    watch.publish("session-42".to_owned());
    assert_eq!(watch.on_state(PeerConnectionState::Failed, None), None);
    assert_eq!(
        watch.on_state(PeerConnectionState::Connected, None),
        Some(peer_connected_event("session-42".to_owned(), None))
    );
    assert_eq!(watch.on_state(PeerConnectionState::Connecting, None), None);
    assert_eq!(
        watch.on_state(PeerConnectionState::Disconnected, None),
        Some(peer_disconnected_event("session-42".to_owned()))
    );
    assert_eq!(watch.on_state(PeerConnectionState::Failed, None), None);
    assert_eq!(watch.on_state(PeerConnectionState::Closed, None), None);
}

#[test]
fn rejects_unexpected_signaling_step() {
    let signal = SignalMessage {
        reply_to: "request".into(),
        kind: SignalMessageType::Answer,
        payload: "{}".into(),
    };
    assert!(matches!(
        expect_signal(&signal, SignalMessageType::Offer),
        Err(PeerProxyError::UnexpectedSignal { .. })
    ));
}

fn config() -> PeerProxyConfig {
    PeerProxyConfig {
        egress_url: "ws://127.0.0.1:1/ws".into(),
        stun_urls: Vec::new(),
        nat_timeout: Duration::from_secs(1),
        enable_ipv6: false,
        randomize_dtls: false,
    }
}

fn signal(reply_to: &str, kind: SignalMessageType, payload: &str) -> PeerSessionEvent {
    PeerSessionEvent::Signal(Ok(Some(SignalMessage {
        reply_to: reply_to.into(),
        kind,
        payload: payload.into(),
    })))
}

fn ice(session_id: &str, candidates: Vec<PionIceCandidate>) -> PeerSessionEvent {
    PeerSessionEvent::Ice(IceMessage {
        candidates,
        consumer_session_id: session_id.into(),
    })
}

fn run(events: Vec<PeerSessionEvent>) -> (PeerSession, PeerSessionAction) {
    let (mut session, mut action) = PeerSession::start(config());
    for event in events {
        let next = session.step(event);
        session = next.0;
        action = next.1;
    }
    (session, action)
}

fn until_ice() -> Vec<PeerSessionEvent> {
    vec![
        signal("offer-request", SignalMessageType::Offer, "{\"SDP\":{}}"),
        PeerSessionEvent::LocalDescription(Some("answer".into())),
        signal("ice-request", SignalMessageType::Ice, "ice payload"),
    ]
}

fn until_candidates(candidates: Vec<PionIceCandidate>) -> Vec<PeerSessionEvent> {
    let mut events = until_ice();
    events.push(ice("session-42", candidates));
    events.push(PeerSessionEvent::SessionIdPublished);
    events
}

fn until_relay() -> Vec<PeerSessionEvent> {
    let mut events = until_candidates(Vec::new());
    events.push(PeerSessionEvent::DataChannel(DataChannelOutcome::Opened));
    events.push(PeerSessionEvent::Egress(Ok(())));
    events
}

fn failure(events: Vec<PeerSessionEvent>) -> PeerProxyError {
    match run(events).1 {
        PeerSessionAction::Finish(Err(error)) => error,
        other => panic!("expected a failure, got {other:?}"),
    }
}

#[test]
fn cancellation_interrupts_signaling_and_closes_the_session() {
    let (session, action) = PeerSession::start(config());
    assert!(matches!(
        action,
        PeerSessionAction::Exchange { send_to, kind: SignalMessageType::Genesis, .. }
            if send_to == "genesis"
    ));
    let (session, action) = session.step(PeerSessionEvent::Cancelled);
    assert!(matches!(
        action,
        PeerSessionAction::Finish(Err(PeerProxyError::Cancelled))
    ));
    let (session, action) = session.step(PeerSessionEvent::Cancelled);
    assert!(matches!(action, PeerSessionAction::Ignore));
    assert_eq!(session.stage, PeerSessionStage::Finished);
}

#[test]
fn cancellation_interrupts_the_relay() {
    let mut events = until_relay();
    events.push(PeerSessionEvent::Cancelled);
    assert!(matches!(failure(events), PeerProxyError::Cancelled));
}

#[test]
fn session_runs_from_genesis_to_relay() {
    let (session, action) = PeerSession::start(config());
    match action {
        PeerSessionAction::Exchange { send_to, kind, payload } => {
            assert_eq!(send_to, "genesis");
            assert_eq!(kind, SignalMessageType::Genesis);
            assert_eq!(
                payload,
                r#"{"PathAssertion":{"Allow":[{"Host":"$","Distance":1}],"Deny":null,"JITUnavailable":false}}"#
            );
        }
        other => panic!("unexpected {other:?}"),
    }
    let (session, action) =
        session.step(signal("offer-request", SignalMessageType::Offer, "{\"SDP\":{}}"));
    assert!(matches!(
        action,
        PeerSessionAction::AnswerOffer { payload } if payload == "{\"SDP\":{}}"
    ));
    let (session, action) =
        session.step(PeerSessionEvent::LocalDescription(Some("answer".into())));
    assert!(matches!(
        action,
        PeerSessionAction::Exchange { send_to, kind: SignalMessageType::Answer, payload }
            if send_to == "offer-request" && payload == "answer"
    ));
    let (session, action) = session.step(signal("", SignalMessageType::Ice, "ice payload"));
    assert!(matches!(
        action,
        PeerSessionAction::DecodeIce { payload } if payload == "ice payload"
    ));
    let candidates = vec![
        host_candidate("192.0.2.1", IceCandidateType::Host),
        host_candidate("192.0.2.2", IceCandidateType::Host),
    ];
    let (session, action) = session.step(ice("session-42", candidates));
    assert!(matches!(
        action,
        PeerSessionAction::PublishSessionId { session_id } if session_id == "session-42"
    ));
    let (session, action) = session.step(PeerSessionEvent::SessionIdPublished);
    assert!(matches!(
        action,
        PeerSessionAction::AddCandidate { candidate }
            if candidate.candidate == "candidate:1 1 udp 7 192.0.2.1 9 typ host"
    ));
    let (session, action) = session.step(PeerSessionEvent::CandidateAdded);
    assert!(matches!(
        action,
        PeerSessionAction::AddCandidate { candidate }
            if candidate.candidate == "candidate:1 1 udp 7 192.0.2.2 9 typ host"
    ));
    let (session, action) = session.step(PeerSessionEvent::CandidateAdded);
    assert!(matches!(
        action,
        PeerSessionAction::AwaitDataChannel { timeout } if timeout == Duration::from_secs(1)
    ));
    let (session, action) = session.step(PeerSessionEvent::DataChannel(DataChannelOutcome::Opened));
    assert!(matches!(
        action,
        PeerSessionAction::ConnectEgress { url, session_id }
            if url == "ws://127.0.0.1:1/ws" && session_id == "session-42"
    ));
    let (session, action) = session.step(PeerSessionEvent::Egress(Ok(())));
    assert!(matches!(action, PeerSessionAction::Relay));
    let (session, action) = session.step(PeerSessionEvent::RelayEnded {
        result: Ok(RelayEnd::EgressClosed),
        duration: Duration::from_secs(31),
    });
    match action {
        PeerSessionAction::Finish(Ok(outcome)) => {
            assert_eq!(outcome.consumer_session_id, "session-42");
            assert_eq!(outcome.relay_end, RelayEnd::EgressClosed);
            assert_eq!(outcome.relay_duration, Duration::from_secs(31));
        }
        other => panic!("unexpected {other:?}"),
    }
    assert_eq!(session.stage, PeerSessionStage::Finished);
}

#[test]
fn signaling_failures_end_the_session() {
    assert!(matches!(
        failure(vec![PeerSessionEvent::Signal(Ok(None))]),
        PeerProxyError::MissingResponse("offer")
    ));
    assert!(matches!(
        failure(vec![PeerSessionEvent::Signal(Err(SignalingError::Http(500)))]),
        PeerProxyError::Signaling(SignalingError::Http(500))
    ));
    assert!(matches!(
        failure(vec![signal("", SignalMessageType::Ice, "")]),
        PeerProxyError::UnexpectedSignal {
            expected: SignalMessageType::Offer,
            actual: SignalMessageType::Ice,
        }
    ));

    let offer = || signal("offer-request", SignalMessageType::Offer, "");
    assert!(matches!(
        failure(vec![offer(), PeerSessionEvent::Undecodable("bad".into())]),
        PeerProxyError::Decode { step: "offer", source } if source == "bad"
    ));
    assert!(matches!(
        failure(vec![offer(), PeerSessionEvent::Unencodable("bad".into())]),
        PeerProxyError::Signaling(SignalingError::Decode(source)) if source == "bad"
    ));
    assert!(matches!(
        failure(vec![offer(), PeerSessionEvent::LocalDescription(None)]),
        PeerProxyError::MissingResponse("local ICE gathering")
    ));
    assert!(matches!(
        failure(vec![
            offer(),
            PeerSessionEvent::WebRtcFailed(webrtc::Error::ErrConnectionClosed)
        ]),
        PeerProxyError::WebRtc(webrtc::Error::ErrConnectionClosed)
    ));

    let answered = || vec![offer(), PeerSessionEvent::LocalDescription(Some(String::new()))];
    let mut events = answered();
    events.push(PeerSessionEvent::Signal(Ok(None)));
    assert!(matches!(
        failure(events),
        PeerProxyError::MissingResponse("consumer ICE candidates")
    ));
    let mut events = answered();
    events.push(signal("", SignalMessageType::Answer, ""));
    assert!(matches!(
        failure(events),
        PeerProxyError::UnexpectedSignal {
            expected: SignalMessageType::Ice,
            actual: SignalMessageType::Answer,
        }
    ));
    let mut events = until_ice();
    events.push(PeerSessionEvent::Undecodable("bad".into()));
    assert!(matches!(
        failure(events),
        PeerProxyError::Decode { step: "ICE", source } if source == "bad"
    ));
}

#[test]
fn session_id_must_be_a_clean_token() {
    let mut events = until_ice();
    events.push(ice("", Vec::new()));
    assert!(matches!(failure(events), PeerProxyError::MissingConsumerSessionId));
    for id in ["csid, injected", "new\nline", "id\u{e9}"] {
        let mut events = until_ice();
        events.push(ice(id, Vec::new()));
        assert!(matches!(failure(events), PeerProxyError::InvalidConsumerSessionId));
    }
}

#[test]
fn candidate_failures_end_the_session() {
    let bad = host_candidate("not an address", IceCandidateType::Host);
    assert!(matches!(
        failure(until_candidates(vec![bad])),
        PeerProxyError::InvalidIceCandidate(_)
    ));
    let good = host_candidate("192.0.2.1", IceCandidateType::Host);
    let mut events = until_candidates(vec![good]);
    events.push(PeerSessionEvent::WebRtcFailed(webrtc::Error::ErrConnectionClosed));
    assert!(matches!(failure(events), PeerProxyError::WebRtc(_)));
}

#[test]
fn candidate_without_a_priority_is_not_admitted() {
    let good = host_candidate("192.0.2.1", IceCandidateType::Host);
    let unusable = PionIceCandidate { priority: 0, component: 300, ..good.clone() };
    let published = PeerSessionEvent::SessionIdPublished;
    let added = PeerSessionEvent::CandidateAdded;
    let publishing = |candidates: Vec<PionIceCandidate>| {
        let mut events = until_ice();
        events.push(ice("session-42", candidates));
        run(events).0
    };
    assert!(publishing(Vec::new()).admits(&published));
    assert!(publishing(vec![good.clone()]).admits(&published));
    assert!(!publishing(vec![unusable.clone()]).admits(&published));
    assert!(publishing(vec![unusable.clone()]).admits(&PeerSessionEvent::Cancelled));
    let session = run(until_candidates(vec![good.clone(), unusable.clone()])).0;
    assert!(!session.admits(&added));
    assert!(session.admits(&PeerSessionEvent::Cancelled));
    assert!(run(until_candidates(vec![good])).0.admits(&added));

    // Without a session ID its candidates do not matter.
    let mut events = until_ice();
    events.push(ice("", vec![unusable]));
    assert!(matches!(failure(events), PeerProxyError::MissingConsumerSessionId));
}

#[test]
fn session_id_is_published_before_candidates_are_added() {
    let good = host_candidate("192.0.2.1", IceCandidateType::Host);
    let mut events = until_ice();
    events.push(ice("session-42", vec![good]));
    let (session, action) = run(events);
    assert!(matches!(
        action,
        PeerSessionAction::PublishSessionId { session_id } if session_id == "session-42"
    ));
    let (session, action) = session.step(PeerSessionEvent::CandidateAdded);
    assert!(matches!(action, PeerSessionAction::Ignore));
    let (_, action) = session.step(PeerSessionEvent::SessionIdPublished);
    assert!(matches!(action, PeerSessionAction::AddCandidate { .. }));
}

#[test]
fn nat_traversal_and_egress_failures_end_the_session() {
    let after = |event: PeerSessionEvent| {
        let mut events = until_candidates(Vec::new());
        events.push(event);
        failure(events)
    };
    assert!(matches!(
        after(PeerSessionEvent::DataChannel(DataChannelOutcome::TimedOut)),
        PeerProxyError::NatTimeout
    ));
    assert!(matches!(
        after(PeerSessionEvent::DataChannel(DataChannelOutcome::Abandoned)),
        PeerProxyError::DataChannelClosed
    ));
    assert!(matches!(
        after(PeerSessionEvent::DataChannel(DataChannelOutcome::PeerEnded(
            PeerConnectionState::Failed
        ))),
        PeerProxyError::PeerConnectionEnded(PeerConnectionState::Failed)
    ));
    let mut events = until_candidates(Vec::new());
    events.push(PeerSessionEvent::DataChannel(DataChannelOutcome::Opened));
    events.push(PeerSessionEvent::Egress(Err(EgressError::MissingSubprotocol)));
    assert!(matches!(
        failure(events),
        PeerProxyError::Egress(EgressError::MissingSubprotocol)
    ));
}

#[test]
fn relay_failure_keeps_its_duration() {
    let mut events = until_relay();
    events.push(PeerSessionEvent::RelayEnded {
        result: Err(RelayError::Peer("reset".into())),
        duration: Duration::from_millis(1500),
    });
    let error = failure(events);
    assert_eq!(error.relay_duration(), Some(Duration::from_millis(1500)));
    assert_eq!(PeerProxyError::NatTimeout.relay_duration(), None);
}

#[test]
fn events_out_of_turn_are_ignored() {
    let (session, action) = run(vec![
        PeerSessionEvent::CandidateAdded,
        PeerSessionEvent::Egress(Ok(())),
        PeerSessionEvent::DataChannel(DataChannelOutcome::Opened),
    ]);
    assert!(matches!(action, PeerSessionAction::Ignore));
    assert_eq!(session.stage, PeerSessionStage::AwaitingOffer);
}
