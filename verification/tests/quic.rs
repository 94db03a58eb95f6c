use lantern_unbounded::addr::SocketAddress;
use lantern_unbounded::consumer_quic::{
    consumer_transport_config, AcceptAction, AcceptEvent, BrokerAction, BrokerEvent,
    ConsumerQuicBroker, ConsumerQuicDialer, ConsumerQuicError, ConsumerQuicServer, DialAction,
    DialEvent, CONSUMER_QUIC_ALPN,
};
use lantern_unbounded::consumer_socks5::{
    open_failed, socks5_connect, ConsumerSocks5Error, Socks5Action, Socks5Event, Socks5Handshake,
    Socks5Stage, Socks5Target,
};
use lantern_unbounded::duration::Duration;

#[test]
fn transport_matches_the_egress() {
    let settings = consumer_transport_config();
    assert_eq!(settings.max_concurrent_bidi_streams, 131_072);
    assert_eq!(settings.max_concurrent_uni_streams, 131_072);
    assert_eq!(settings.max_idle_timeout, Duration::from_secs(60));
    assert_eq!(settings.keep_alive_interval, Duration::from_secs(15));
    assert_eq!(settings.initial_mtu, 1200);
    assert_eq!(settings.min_mtu, 1200);
    assert!(!settings.mtu_discovery);
    assert_eq!(CONSUMER_QUIC_ALPN, "broflake");
}

#[test]
fn quic_dial_wait_is_cancellable_before_egress_connects() {
    let (dialer, action) = ConsumerQuicDialer::Looking.open_bi(DialEvent::Current(false));
    assert_eq!(action, DialAction::AwaitChange);
    let (_, action) = dialer.open_bi(DialEvent::Cancelled);
    assert!(matches!(
        action,
        DialAction::Finish(Err(ConsumerQuicError::Cancelled))
    ));
}

#[test]
fn socks5_connect_reports_precancellation_as_cancelled() {
    let (_, action) = ConsumerQuicDialer::Looking.open_bi(DialEvent::Cancelled);
    let error = match action {
        DialAction::Finish(Err(error)) => error,
        other => panic!("expected a failure, got {other:?}"),
    };
    // A pre-open cancellation must be reported as Cancelled, not Quic(Cancelled).
    assert!(matches!(open_failed(error), ConsumerSocks5Error::Cancelled));
}

#[test]
fn other_open_failures_stay_quic_errors() {
    assert_eq!(
        open_failed(ConsumerQuicError::BrokerStopped),
        ConsumerSocks5Error::Quic(ConsumerQuicError::BrokerStopped)
    );
}

#[test]
fn quic_dial_waits_for_replacement_egress_connection() {
    let broker = ConsumerQuicBroker::new();
    let (broker, action) = broker.run(BrokerEvent::Accepted(Ok(())));
    assert_eq!(action, BrokerAction::Publish);
    let (dialer, action) = ConsumerQuicDialer::Looking.open_bi(DialEvent::Current(true));
    assert_eq!(action, DialAction::Open);

    let (broker, action) = broker.run(BrokerEvent::ConnectionClosed);
    assert_eq!(action, BrokerAction::Clear);
    let (dialer, action) = dialer.open_bi(DialEvent::OpenFailed {
        error: "closed".into(),
        connection_closed: true,
    });
    assert_eq!(action, DialAction::AwaitChange);

    let (broker, action) = broker.run(BrokerEvent::Accepted(Ok(())));
    assert_eq!(action, BrokerAction::Publish);
    let (dialer, action) = dialer.open_bi(DialEvent::Changed(true));
    assert_eq!(action, DialAction::Look);
    let (dialer, action) = dialer.open_bi(DialEvent::Current(true));
    assert_eq!(action, DialAction::Open);
    let (dialer, action) = dialer.open_bi(DialEvent::Opened);
    assert_eq!(action, DialAction::Finish(Ok(())));
    assert_eq!(dialer.open_bi(DialEvent::Cancelled).1, DialAction::Ignore);

    let (broker, action) = broker.run(BrokerEvent::Cancelled);
    assert_eq!(action, BrokerAction::Shutdown);
    assert_eq!(broker.run(BrokerEvent::Accepted(Ok(()))).1, BrokerAction::Ignore);
}

#[test]
fn dial_failures() {
    let (_, action) = ConsumerQuicDialer::Opening.open_bi(DialEvent::OpenFailed {
        error: "limit".into(),
        connection_closed: false,
    });
    assert_eq!(action, DialAction::Finish(Err(ConsumerQuicError::Stream("limit".into()))));
    let (_, action) = ConsumerQuicDialer::Waiting.open_bi(DialEvent::Changed(false));
    assert_eq!(action, DialAction::Finish(Err(ConsumerQuicError::BrokerStopped)));
    assert_eq!(
        ConsumerQuicDialer::Opening.open_bi(DialEvent::Changed(true)),
        (ConsumerQuicDialer::Opening, DialAction::Ignore)
    );
}

#[test]
fn broker_failures() {
    let broker = ConsumerQuicBroker::new();
    assert_eq!(
        broker.run(BrokerEvent::Accepted(Err(ConsumerQuicError::Cancelled))),
        (ConsumerQuicBroker::Stopped, BrokerAction::Shutdown)
    );
    assert_eq!(
        broker.run(BrokerEvent::Accepted(Err(ConsumerQuicError::Closed))),
        (ConsumerQuicBroker::Stopped, BrokerAction::Fail(ConsumerQuicError::Closed))
    );
    assert_eq!(
        broker.run(BrokerEvent::ConnectionClosed),
        (ConsumerQuicBroker::Accepting, BrokerAction::Ignore)
    );
}

#[test]
fn accepts_connections() {
    let server = ConsumerQuicServer::AwaitingIncoming;
    let (handshaking, action) = server.accept(AcceptEvent::Incoming(true));
    assert_eq!(action, AcceptAction::AwaitHandshake);
    assert_eq!(
        handshaking.accept(AcceptEvent::Handshake(Ok(()))).1,
        AcceptAction::Finish(Ok(()))
    );
    assert_eq!(
        handshaking.accept(AcceptEvent::Handshake(Err("timed out".into()))).1,
        AcceptAction::Finish(Err(ConsumerQuicError::Handshake("timed out".into())))
    );
    assert_eq!(
        handshaking.accept(AcceptEvent::Cancelled).1,
        AcceptAction::Finish(Err(ConsumerQuicError::Cancelled))
    );
    assert_eq!(
        server.accept(AcceptEvent::Incoming(false)).1,
        AcceptAction::Finish(Err(ConsumerQuicError::Closed))
    );
    assert_eq!(
        server.accept(AcceptEvent::Cancelled).1,
        AcceptAction::Finish(Err(ConsumerQuicError::Cancelled))
    );
    assert_eq!(
        server.accept(AcceptEvent::Handshake(Ok(()))),
        (server, AcceptAction::AwaitIncoming)
    );
}

/// A server at the other end of the stream: what it has read, and what it will write.
struct Server {
    received: Vec<u8>,
    written: Vec<u8>,
    position: usize,
}

/// Runs the handshake against what the server writes.
fn handshake(target: Socks5Target, written: &[u8]) -> (Result<(), ConsumerSocks5Error>, Server) {
    let mut server = Server { received: Vec::new(), written: written.to_vec(), position: 0 };
    let (mut handshake, mut action) = socks5_connect(target);
    loop {
        let read = match action {
            Socks5Action::Send { bytes, read } => {
                server.received.extend_from_slice(&bytes);
                read
            }
            Socks5Action::Read(read) => read,
            Socks5Action::Finish(result) => return (result, server),
            Socks5Action::Ignore => panic!("the handshake ignored what it asked for"),
        };
        let end = server.position + read;
        let event = if end <= server.written.len() {
            let bytes = server.written[server.position..end].to_vec();
            server.position = end;
            Socks5Event::Read(bytes)
        } else {
            Socks5Event::IoFailed("early end".into())
        };
        let next = handshake.step(event);
        handshake = next.0;
        action = next.1;
    }
}

fn serve_success(target: Socks5Target, expected_request: Vec<u8>) {
    let mut written = vec![0x05, 0x00];
    written.extend_from_slice(&[0x05, 0x00, 0x00, 0x01, 127, 0, 0, 1, 0x1f, 0x90]);
    written.extend_from_slice(b"application");
    let (result, server) = handshake(target, &written);
    assert_eq!(result, Ok(()));
    assert_eq!(server.received[..3], [0x05, 0x01, 0x00]);
    assert_eq!(server.received[3..], expected_request);
    assert_eq!(&server.written[server.position..], b"application");
}

fn v4(a: u8, b: u8, c: u8, d: u8, port: u16) -> SocketAddress {
    SocketAddress::V4 { ip: u32::from_be_bytes([a, b, c, d]), port }
}

#[test]
fn handshakes_ipv4_target() {
    serve_success(
        Socks5Target::Ip(v4(192, 0, 2, 10, 443)),
        vec![0x05, 0x01, 0x00, 0x01, 192, 0, 2, 10, 0x01, 0xbb],
    );
}

#[test]
fn handshakes_ipv6_target_and_consumes_domain_reply() {
    let target = Socks5Target::Ip(SocketAddress::V6 { ip: 1, port: 53, flowinfo: 7, scope_id: 9 });
    let mut written = vec![0x05, 0x00];
    written.extend_from_slice(&[0x05, 0x00, 0x00, 0x03, 0x03, b'e', b'x', b't', 0, 80]);
    written.extend_from_slice(b"rest");
    let (result, server) = handshake(target, &written);
    assert_eq!(result, Ok(()));
    let request = &server.received[3..];
    assert_eq!(request.len(), 22);
    assert_eq!(&request[..4], &[0x05, 0x01, 0x00, 0x04]);
    assert_eq!(&request[4..20], &1_u128.to_be_bytes());
    assert_eq!(&request[20..], &53_u16.to_be_bytes());
    assert_eq!(&server.written[server.position..], b"rest");
}

#[test]
fn handshakes_domain_target() {
    let target = Socks5Target::Domain {
        host: "example.com".into(),
        port: 8443,
    };
    let mut request = vec![0x05, 0x01, 0x00, 0x03, 11];
    request.extend_from_slice(b"example.com");
    request.extend_from_slice(&8443_u16.to_be_bytes());
    serve_success(target, request);
}

#[test]
fn rejects_failed_connect_response() {
    let (result, server) = handshake(
        Socks5Target::from(v4(127, 0, 0, 1, 80)),
        &[0x05, 0x00, 0x05, 0x05, 0x00, 0x01],
    );
    assert!(matches!(result, Err(ConsumerSocks5Error::ConnectRejected(0x05))));
    assert_eq!(server.received.len(), 3 + 10);
}

#[test]
fn rejects_empty_domain_before_writing_connect_request() {
    let (result, server) = handshake(
        Socks5Target::Domain {
            host: String::new(),
            port: 80,
        },
        &[0x05, 0x00],
    );
    assert!(matches!(result, Err(ConsumerSocks5Error::EmptyDomain)));
    assert_eq!(server.received, [0x05, 0x01, 0x00]);
}

#[test]
fn domain_length_is_counted_in_bytes() {
    let domain = |host: String| Socks5Target::Domain { host, port: 80 };
    let longest = "\u{e9}".repeat(127) + "a";
    let (_, server) = handshake(domain(longest.clone()), &[0x05, 0x00]);
    assert_eq!(server.received[3..8], [0x05, 0x01, 0x00, 0x03, 255]);
    assert_eq!(&server.received[8..263], longest.as_bytes());

    let (result, server) = handshake(domain("\u{e9}".repeat(128)), &[0x05, 0x00]);
    assert_eq!(result, Err(ConsumerSocks5Error::DomainTooLong(256)));
    assert_eq!(server.received, [0x05, 0x01, 0x00]);
}

#[test]
fn rejects_malformed_server_answers() {
    let target = || Socks5Target::from(v4(127, 0, 0, 1, 80));
    let error = |written: &[u8]| handshake(target(), written).0.unwrap_err();
    assert_eq!(error(&[0x04, 0x00]), ConsumerSocks5Error::InvalidVersion(0x04));
    assert_eq!(error(&[0x05, 0xff]), ConsumerSocks5Error::UnsupportedAuth(0xff));
    assert_eq!(
        error(&[0x05, 0x00, 0x04, 0x00, 0x00, 0x01]),
        ConsumerSocks5Error::InvalidVersion(0x04)
    );
    assert_eq!(
        error(&[0x05, 0x00, 0x05, 0x00, 0x07, 0x01]),
        ConsumerSocks5Error::InvalidReserved(0x07)
    );
    assert_eq!(
        error(&[0x05, 0x00, 0x05, 0x00, 0x00, 0x02]),
        ConsumerSocks5Error::InvalidAddressType(0x02)
    );
    assert_eq!(error(&[0x05]), ConsumerSocks5Error::Io("early end".into()));
}

#[test]
fn handshake_consumes_every_kind_of_bound_address() {
    let replies: [&[u8]; 4] = [
        &[0x05, 0x00, 0x00, 0x01, 1, 2, 3, 4, 5, 6],
        &[0x05, 0x00, 0x00, 0x04, 1, 2, 3, 4, 5, 6, 7, 8, 9, 10, 11, 12, 13, 14, 15, 16, 17, 18],
        &[0x05, 0x00, 0x00, 0x03, 0, 5, 6],
        &[0x05, 0x00, 0x00, 0x03, 2, b'a', b'b', 5, 6],
    ];
    for reply in replies {
        let mut written = vec![0x05, 0x00];
        written.extend_from_slice(reply);
        written.extend_from_slice(b"rest");
        let (result, server) = handshake(Socks5Target::from(v4(127, 0, 0, 1, 80)), &written);
        assert_eq!(result, Ok(()));
        assert_eq!(&server.written[server.position..], b"rest");
    }
}

#[test]
fn handshake_can_be_cancelled() {
    let (started, _) = socks5_connect(Socks5Target::from(v4(127, 0, 0, 1, 80)));
    let (finished, action) = started.step(Socks5Event::Cancelled);
    assert_eq!(action, Socks5Action::Finish(Err(ConsumerSocks5Error::Cancelled)));
    assert_eq!(
        finished,
        Socks5Handshake {
            target: Socks5Target::from(v4(127, 0, 0, 1, 80)),
            stage: Socks5Stage::Finished,
        }
    );
    assert_eq!(finished.step(Socks5Event::Cancelled).1, Socks5Action::Ignore);
}
