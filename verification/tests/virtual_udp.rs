use lantern_unbounded::addr::{IpAddress, SocketAddress};
use lantern_unbounded::virtual_udp::{
    OversizeDatagram, PathReceiveError, SocketReceive, VirtualUdpSocket, DEFAULT_PATH_MTU,
};

fn addr(last_octet: u8, port: u16) -> SocketAddress {
    SocketAddress::new(
        IpAddress::V4(u32::from_be_bytes([100, 64, 0, last_octet])),
        port,
    )
}

fn read(socket: &mut VirtualUdpSocket, buffer_len: usize) -> (Vec<u8>, SocketAddress) {
    match socket.poll_recv(1, 1, buffer_len) {
        SocketReceive::Datagram { bytes, meta } => {
            assert_eq!(meta.len, bytes.len());
            assert_eq!(meta.stride, bytes.len());
            assert_eq!(meta.dst_ip, IpAddress::V4(u32::from_be_bytes([100, 64, 0, 1])));
            (bytes, meta.addr)
        }
        other => panic!("expected a datagram, got {other:?}"),
    }
}

#[test]
fn path_preserves_datagram_and_remote_address() {
    let mut socket = VirtualUdpSocket::new(addr(1, 7000));
    let path = socket.add_path(addr(2, 8000), 8);
    path.try_receive(&mut socket, b"quic packet".to_vec()).unwrap();

    let (bytes, remote) = read(&mut socket, 64);
    assert_eq!(bytes, b"quic packet");
    assert_eq!(remote, addr(2, 8000));
    assert_eq!(path.remote_addr(), addr(2, 8000));
}

#[test]
fn outgoing_datagram_is_routed_by_quinn_destination() {
    let mut socket = VirtualUdpSocket::new(addr(1, 7000));
    let path = socket.add_path(addr(2, 8000), 8);
    socket.try_send(addr(2, 8000), b"path response").unwrap();

    assert_eq!(path.next_outgoing(&mut socket).unwrap(), b"path response");
}

#[test]
fn losing_one_path_does_not_close_the_socket() {
    let mut socket = VirtualUdpSocket::new(addr(1, 7000));
    let path_a = socket.add_path(addr(2, 8000), 8);
    let path_b = socket.add_path(addr(3, 8001), 8);
    assert_eq!(socket.path_count(), 2);
    path_a.close(&mut socket);
    assert_eq!(socket.path_count(), 1);
    assert_eq!(socket.local_addr(), addr(1, 7000));
    path_b.close(&mut socket);
    assert_eq!(socket.path_count(), 0);
    assert_eq!(socket.local_addr(), addr(1, 7000));
}

#[test]
fn path_mtu_rejects_oversize_ingress() {
    let mut socket = VirtualUdpSocket::with_options(addr(1, 7000), 1200, 8);
    let path = socket.add_path(addr(2, 8000), 8);
    assert_eq!(
        path.try_receive(&mut socket, vec![0; 1201]),
        Err(PathReceiveError::Oversize {
            actual: 1201,
            mtu: 1200
        })
    );
}

#[test]
fn default_path_accepts_every_egress_probe() {
    assert_eq!(DEFAULT_PATH_MTU, 1452);
    let mut socket = VirtualUdpSocket::new(addr(1, 7000));
    let path = socket.add_path(addr(2, 8000), 8);
    assert_eq!(path.try_receive(&mut socket, vec![1; 1280]), Ok(()));
    assert_eq!(path.try_receive(&mut socket, vec![2; 1452]), Ok(()));
    assert_eq!(
        path.try_receive(&mut socket, vec![3; 1453]),
        Err(PathReceiveError::Oversize { actual: 1453, mtu: 1452 })
    );
    assert_eq!(read(&mut socket, 2000).0, vec![1; 1280]);
    assert_eq!(read(&mut socket, 2000).0, vec![2; 1452]);
}

#[test]
fn oversize_egress_is_an_error_and_lost_egress_is_not() {
    let mut socket = VirtualUdpSocket::with_options(addr(1, 7000), 4, 8);
    let path = socket.add_path(addr(2, 8000), 1);
    assert_eq!(
        socket.try_send(addr(2, 8000), b"12345"),
        Err(OversizeDatagram { actual: 5, mtu: 4 })
    );
    assert_eq!(socket.try_send(addr(9, 9000), b"1234"), Ok(()));
    assert_eq!(socket.try_send(addr(2, 8000), b"one"), Ok(()));
    assert_eq!(socket.try_send(addr(2, 8000), b"two"), Ok(()));
    assert_eq!(path.next_outgoing(&mut socket), Some(b"one".to_vec()));
    assert_eq!(path.next_outgoing(&mut socket), None);
}

#[test]
fn replaced_path_keeps_the_replacement_routed() {
    let mut socket = VirtualUdpSocket::new(addr(1, 7000));
    let stale = socket.add_path(addr(2, 8000), 8);
    socket.try_send(addr(2, 8000), b"before").unwrap();
    let replacement = socket.add_path(addr(2, 8000), 8);
    assert_eq!(socket.path_count(), 1);
    assert_eq!(stale.next_outgoing(&mut socket), Some(b"before".to_vec()));
    stale.close(&mut socket);
    assert_eq!(socket.path_count(), 1);
    socket.try_send(addr(2, 8000), b"after").unwrap();
    assert_eq!(replacement.next_outgoing(&mut socket), Some(b"after".to_vec()));
    replacement.close(&mut socket);
    assert_eq!(socket.path_count(), 0);
}

#[test]
fn lost_path_leaves_the_others_their_datagrams() {
    let mut socket = VirtualUdpSocket::new(addr(1, 7000));
    let path_a = socket.add_path(addr(2, 8000), 8);
    let path_b = socket.add_path(addr(3, 8001), 8);
    socket.try_send(addr(3, 8001), b"for b").unwrap();
    path_a.try_receive(&mut socket, b"from a".to_vec()).unwrap();
    path_a.close(&mut socket);
    assert_eq!(path_b.next_outgoing(&mut socket), Some(b"for b".to_vec()));
    assert_eq!(read(&mut socket, 64), (b"from a".to_vec(), addr(2, 8000)));
}

#[test]
fn full_and_closed_sockets_turn_datagrams_away() {
    let mut socket = VirtualUdpSocket::with_options(addr(1, 7000), 100, 1);
    let path = socket.add_path(addr(2, 8000), 8);
    assert_eq!(path.try_receive(&mut socket, b"one".to_vec()), Ok(()));
    assert_eq!(
        path.try_receive(&mut socket, b"two".to_vec()),
        Err(PathReceiveError::QueueFull)
    );
    socket.close();
    assert_eq!(
        path.try_receive(&mut socket, b"three".to_vec()),
        Err(PathReceiveError::Closed)
    );
}

#[test]
fn short_buffer_truncates_and_no_buffer_reads_nothing() {
    let mut socket = VirtualUdpSocket::new(addr(1, 7000));
    let path = socket.add_path(addr(2, 8000), 8);
    assert_eq!(socket.poll_recv(1, 1, 64), SocketReceive::Pending);
    path.try_receive(&mut socket, b"quic packet".to_vec()).unwrap();
    assert_eq!(socket.poll_recv(0, 1, 64), SocketReceive::NoBuffer);
    assert_eq!(socket.poll_recv(1, 0, 64), SocketReceive::NoBuffer);
    assert_eq!(read(&mut socket, 4).0, b"quic");
    assert_eq!(socket.poll_recv(1, 1, 64), SocketReceive::Pending);
}
