use lantern_unbounded::addr::SocketAddress;
use lantern_unbounded::consumer_path::{
    ConsumerPath, ConsumerPathAction, ConsumerPathEnd, ConsumerPathError, ConsumerPathEvent,
    PacketDecodeError, PacketEnvelope, SyntheticPathAllocator, CGNAT_HOSTS,
};
use lantern_unbounded::protocol::UnboundedPacket;
use lantern_unbounded::virtual_udp::{PathReceiveError, SocketReceive, VirtualUdpSocket};

fn cgnat(a: u8, b: u8, c: u8, d: u8, port: u16) -> SocketAddress {
    SocketAddress::V4 { ip: u32::from_be_bytes([a, b, c, d]), port }
}

fn local_addr() -> SocketAddress {
    cgnat(100, 64, 0, 1, 7000)
}

#[test]
fn allocates_distinct_cgnat_path_addresses() {
    let mut allocator = SyntheticPathAllocator::new();
    assert_eq!(allocator.allocate().unwrap(), cgnat(100, 64, 0, 2, 443));
    assert_eq!(allocator.allocate().unwrap(), cgnat(100, 64, 0, 3, 443));
}

#[test]
fn allocates_the_final_cgnat_address_then_reports_exhaustion() {
    let mut allocator = SyntheticPathAllocator {
        next_host: CGNAT_HOSTS - 1,
    };
    assert_eq!(allocator.allocate().unwrap(), cgnat(100, 127, 255, 255, 443));
    assert!(matches!(
        allocator.allocate(),
        Err(ConsumerPathError::AddressSpaceExhausted)
    ));
}

#[test]
fn allocator_hands_out_the_whole_block_once() {
    let mut allocator = SyntheticPathAllocator::new();
    let mut last = local_addr();
    let mut count = 0;
    while let Ok(address) = allocator.allocate() {
        match (last, address) {
            (SocketAddress::V4 { ip: before, .. }, SocketAddress::V4 { ip, .. }) => {
                assert_eq!(ip, before + 1);
            }
            _ => panic!("expected IPv4 addresses"),
        }
        last = address;
        count += 1;
    }
    assert_eq!(count, (1 << 22) - 2);
    for _ in 0..3 {
        assert!(matches!(
            allocator.allocate(),
            Err(ConsumerPathError::AddressSpaceExhausted)
        ));
    }
}

#[test]
fn allocator_starts_at_the_same_address_by_default() {
    assert_eq!(SyntheticPathAllocator::default(), SyntheticPathAllocator::new());
}

/// Reads a packet as the peer's transport delivers it.
fn received(packet: &UnboundedPacket) -> ConsumerPathEvent {
    let fields: serde_json::Value = serde_json::from_str(&packet.to_json()).unwrap();
    ConsumerPathEvent::PeerReceived(Ok(Some(Ok(PacketEnvelope {
        source_addr: fields["SourceAddr"].as_str().unwrap().to_owned(),
        payload: fields["Payload"].as_str().unwrap().to_owned(),
    }))))
}

fn packet(source: &str, payload: &[u8]) -> ConsumerPathEvent {
    received(&UnboundedPacket::new(source.to_owned(), payload.to_vec()))
}

#[test]
fn translates_enveloped_ingress_and_raw_egress() {
    let mut socket = VirtualUdpSocket::new(local_addr());
    let remote = cgnat(100, 64, 0, 2, 443);
    let mut path = ConsumerPath::open(&mut socket, remote, 8);

    let action = path.step(&mut socket, packet("egress-path-a", b"incoming"));
    assert!(matches!(action, ConsumerPathAction::Wait));
    match socket.poll_recv(1, 1, 64) {
        SocketReceive::Datagram { bytes, meta } => {
            assert_eq!(bytes, b"incoming");
            assert_eq!(meta.addr, remote);
        }
        other => panic!("expected a datagram, got {other:?}"),
    }

    socket.try_send(remote, b"outgoing").unwrap();
    let outgoing = path.path.next_outgoing(&mut socket);
    let action = path.step(&mut socket, ConsumerPathEvent::Outgoing(outgoing));
    assert!(matches!(
        action,
        ConsumerPathAction::SendToPeer(packet) if packet == b"outgoing"
    ));
    let action = path.step(&mut socket, ConsumerPathEvent::PeerSent(Ok(())));
    assert!(matches!(action, ConsumerPathAction::Wait));

    let action = path.step(&mut socket, ConsumerPathEvent::Cancelled);
    assert!(matches!(
        action,
        ConsumerPathAction::Finish(Ok(ConsumerPathEnd::Cancelled))
    ));
    path.close(&mut socket);
    assert_eq!(socket.path_count(), 0);
}

#[test]
fn rejects_a_source_change_within_one_peer_path() {
    let mut socket = VirtualUdpSocket::new(local_addr());
    let remote = cgnat(100, 64, 0, 2, 443);
    let mut path = ConsumerPath::open(&mut socket, remote, 8);

    let first = path.step(&mut socket, packet("egress-path-a", b"packet"));
    assert!(matches!(first, ConsumerPathAction::Wait));
    let second = path.step(&mut socket, packet("egress-path-b", b"packet"));
    assert!(matches!(
        second,
        ConsumerPathAction::Finish(Err(ConsumerPathError::SourceChanged { expected, actual }))
            if expected == "egress-path-a" && actual == "egress-path-b"
    ));
}

#[test]
fn malformed_packets_end_the_path() {
    let mut socket = VirtualUdpSocket::new(local_addr());
    let mut path = ConsumerPath::open(&mut socket, cgnat(100, 64, 0, 2, 443), 8);
    assert!(matches!(
        path.step(&mut socket, packet("", b"packet")),
        ConsumerPathAction::Finish(Err(ConsumerPathError::EmptySource))
    ));
    let undecodable = PacketEnvelope { source_addr: String::new(), payload: "%".into() };
    assert!(matches!(
        path.step(&mut socket, ConsumerPathEvent::PeerReceived(Ok(Some(Ok(undecodable))))),
        ConsumerPathAction::Finish(Err(ConsumerPathError::Decode(PacketDecodeError::Payload(_))))
    ));
    assert!(matches!(
        path.step(&mut socket, ConsumerPathEvent::PeerReceived(Ok(Some(Err("no JSON".into()))))),
        ConsumerPathAction::Finish(Err(ConsumerPathError::Decode(PacketDecodeError::Envelope(
            error
        )))) if error == "no JSON"
    ));
    assert!(matches!(
        path.step(&mut socket, packet("egress-path-a", &[0; 1453])),
        ConsumerPathAction::Finish(Err(ConsumerPathError::Receive(PathReceiveError::Oversize {
            actual: 1453,
            mtu: 1452,
        })))
    ));
}

#[test]
fn transport_ends_and_failures_end_the_path() {
    let mut socket = VirtualUdpSocket::new(local_addr());
    let mut path = ConsumerPath::open(&mut socket, cgnat(100, 64, 0, 2, 443), 8);
    assert!(matches!(
        path.step(&mut socket, ConsumerPathEvent::PeerReceived(Ok(None))),
        ConsumerPathAction::Finish(Ok(ConsumerPathEnd::PeerClosed))
    ));
    assert!(matches!(
        path.step(&mut socket, ConsumerPathEvent::PeerReceived(Err("reset".into()))),
        ConsumerPathAction::Finish(Err(ConsumerPathError::Transport(error))) if error == "reset"
    ));
    assert!(matches!(
        path.step(&mut socket, ConsumerPathEvent::PeerSent(Err("reset".into()))),
        ConsumerPathAction::Finish(Err(ConsumerPathError::Transport(error))) if error == "reset"
    ));
    assert!(matches!(
        path.step(&mut socket, ConsumerPathEvent::Outgoing(None)),
        ConsumerPathAction::Finish(Ok(ConsumerPathEnd::SocketClosed))
    ));
}

#[test]
fn full_socket_loses_packets_and_closed_socket_ends_the_path() {
    let mut socket = VirtualUdpSocket::with_options(local_addr(), 1452, 1);
    let mut path = ConsumerPath::open(&mut socket, cgnat(100, 64, 0, 2, 443), 8);
    for _ in 0..3 {
        assert!(matches!(
            path.step(&mut socket, packet("egress-path-a", b"packet")),
            ConsumerPathAction::Wait
        ));
    }
    assert!(matches!(socket.poll_recv(1, 1, 64), SocketReceive::Datagram { .. }));
    assert_eq!(socket.poll_recv(1, 1, 64), SocketReceive::Pending);
    socket.close();
    assert!(matches!(
        path.step(&mut socket, packet("egress-path-a", b"packet")),
        ConsumerPathAction::Finish(Ok(ConsumerPathEnd::SocketClosed))
    ));
}
