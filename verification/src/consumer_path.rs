//! One peer path of a consumer: its synthetic address and the packets it carries.
//!
//! Packets from the egress arrive in envelopes that name the egress path they came through;
//! packets to the egress leave as they are.
use vstd::prelude::*;

use crate::addr::SocketAddress;
use crate::base64_payload;
use crate::protocol::UnboundedPacket;
use crate::virtual_udp;
use crate::virtual_udp::{PathReceiveError, VirtualPath, VirtualUdpSocket};

verus! {

/// The first address of the block that synthetic addresses are taken from: 100.64.0.0.
pub const CGNAT_BASE: u32 = 0x6440_0000;

/// The number of addresses in the block.
pub const CGNAT_HOSTS: u32 = 0x40_0000;

/// The first address of the block that stands for a path.
pub const FIRST_PATH_HOST: u32 = 2;

/// The port of every synthetic address.
pub const SYNTHETIC_PATH_PORT: u16 = 443;

/// Hands out a fresh address for every peer path.
#[derive(Debug, PartialEq, Eq)]
pub struct SyntheticPathAllocator {
    /// The address, counted from the start of the block, that is handed out next.
    pub next_host: u32,
}

impl Default for SyntheticPathAllocator {
    fn default() -> (allocator: SyntheticPathAllocator)
        ensures
            allocator.next_host == FIRST_PATH_HOST,
    {
        SyntheticPathAllocator::new()
    }
}

/// The synthetic address with the given place in the block.
pub open spec fn path_address(host: u32) -> SocketAddress {
    SocketAddress::V4 { ip: (CGNAT_BASE + host) as u32, port: SYNTHETIC_PATH_PORT }
}

impl SyntheticPathAllocator {
    /// An allocator that has handed out nothing.
    pub fn new() -> (allocator: SyntheticPathAllocator)
        ensures
            allocator.next_host == FIRST_PATH_HOST,
    {
        SyntheticPathAllocator { next_host: FIRST_PATH_HOST }
    }

    /// The address that is handed out next, unless the block is used up.
    pub open spec fn spec_address(self) -> Option<SocketAddress> {
        if self.next_host < CGNAT_HOSTS {
            Some(path_address(self.next_host))
        } else {
            None
        }
    }

    /// The allocator once it has been asked for an address.
    pub open spec fn spec_next(self) -> SyntheticPathAllocator {
        if self.next_host < CGNAT_HOSTS {
            SyntheticPathAllocator { next_host: (self.next_host + 1) as u32 }
        } else {
            self
        }
    }

    /// The next address of the block, until the block is used up.
    pub fn allocate(&mut self) -> (address: Result<SocketAddress, ConsumerPathError>)
        ensures
            match address {
                Ok(address) => old(self).spec_address() == Some(address),
                Err(error) => old(self).spec_address() is None && error is AddressSpaceExhausted,
            },
            *final(self) == old(self).spec_next(),
    {
        let host: u32 = self.next_host;
        if host < CGNAT_HOSTS {
            self.next_host = host + 1;
            Ok(SocketAddress::V4 { ip: CGNAT_BASE + host, port: SYNTHETIC_PATH_PORT })
        } else {
            Err(ConsumerPathError::AddressSpaceExhausted)
        }
    }
}

/// Different places in the block give different addresses, so that a replacement path is seen to
/// come from a new address. All of them lie in 100.64.0.0/10.
pub proof fn law_path_addresses_are_distinct(a: u32, b: u32)
    requires
        FIRST_PATH_HOST <= a < CGNAT_HOSTS,
        FIRST_PATH_HOST <= b < CGNAT_HOSTS,
    ensures
        path_address(a) == path_address(b) <==> a == b,
        path_address(a) matches SocketAddress::V4 { ip, .. } && 0x6440_0002 <= ip <= 0x647f_ffff,
{
}

/// The allocator once it has been asked for an address `calls` times.
pub open spec fn allocator_after(
    allocator: SyntheticPathAllocator,
    calls: nat,
) -> SyntheticPathAllocator
    decreases calls,
{
    if calls == 0 {
        allocator
    } else {
        allocator_after(allocator, (calls - 1) as nat).spec_next()
    }
}

/// The addresses that `calls` calls hand out, in order.
pub open spec fn handed_out(allocator: SyntheticPathAllocator, calls: nat) -> Seq<SocketAddress>
    decreases calls,
{
    if calls == 0 {
        Seq::empty()
    } else {
        let before = handed_out(allocator, (calls - 1) as nat);
        match allocator_after(allocator, (calls - 1) as nat).spec_address() {
            Some(address) => before.push(address),
            None => before,
        }
    }
}

/// Calls hand out the addresses from the next on, one after the other.
proof fn lemma_handed_out(allocator: SyntheticPathAllocator, calls: nat)
    requires
        allocator.next_host <= CGNAT_HOSTS,
    ensures
        ({
            let left = CGNAT_HOSTS - allocator.next_host;
            let count = if calls < left {
                calls as int
            } else {
                left
            };
            &&& allocator_after(allocator, calls).next_host == allocator.next_host + count
            &&& handed_out(allocator, calls) == Seq::new(
                count as nat,
                |i: int| path_address((allocator.next_host + i) as u32),
            )
        }),
    decreases calls,
{
    if calls > 0 {
        lemma_handed_out(allocator, (calls - 1) as nat);
    }
}

/// However often an allocator is asked, it never hands out an address twice, and it hands out all
/// that are left in the block: a new one exactly 4 194 302, which is two less than the block holds.
/// Only then does it refuse.
pub proof fn law_every_allocated_address_is_new(allocator: SyntheticPathAllocator, calls: nat)
    requires
        FIRST_PATH_HOST <= allocator.next_host <= CGNAT_HOSTS,
    ensures
        handed_out(allocator, calls).no_duplicates(),
        handed_out(allocator, calls).len() == (if calls < CGNAT_HOSTS - allocator.next_host {
            calls as int
        } else {
            CGNAT_HOSTS - allocator.next_host
        }),
        allocator.next_host == FIRST_PATH_HOST && calls >= 4_194_302 ==> handed_out(
            allocator,
            calls,
        ).len() == 4_194_302,
        allocator_after(allocator, calls).spec_address() is None <==> calls >= CGNAT_HOSTS
            - allocator.next_host,
{
    lemma_handed_out(allocator, calls);
}

/// An allocator that has handed out the whole block refuses every call from then on.
pub proof fn law_exhausted_allocator_stays_exhausted(
    allocator: SyntheticPathAllocator,
    calls: nat,
)
    requires
        allocator.spec_address() is None,
    ensures
        allocator_after(allocator, calls) == allocator,
        handed_out(allocator, calls) == Seq::<SocketAddress>::empty(),
    decreases calls,
{
    if calls > 0 {
        law_exhausted_allocator_stays_exhausted(allocator, (calls - 1) as nat);
    }
}

/// How a path ended in an orderly way.
#[derive(Debug, Clone, Copy, PartialEq, Eq, Structural)]
pub enum ConsumerPathEnd {
    PeerClosed,
    SocketClosed,
    Cancelled,
}

/// Why a packet from the peer could not be decoded.
#[derive(Debug)]
pub enum PacketDecodeError {
    /// The packet is no envelope.
    Envelope(String),
    /// The payload in the envelope is not standard padded base64.
    Payload(base64::DecodeError),
}

/// Why a path failed.
#[derive(Debug)]
pub enum ConsumerPathError {
    Transport(String),
    Decode(PacketDecodeError),
    /// Packets of one path came through two egress paths.
    SourceChanged { expected: String, actual: String },
    EmptySource,
    Receive(PathReceiveError),
    AddressSpaceExhausted,
}

/// The fields of a packet's envelope.
#[derive(Debug, PartialEq, Eq)]
pub struct PacketEnvelope {
    pub source_addr: String,
    /// The payload in base64.
    pub payload: String,
}

/// What happens on a path.
#[derive(Debug)]
pub enum ConsumerPathEvent {
    /// The path is to stop.
    Cancelled,
    /// The peer sent a packet, which is an envelope or could not be read as one. Nothing says that
    /// the peer has closed.
    PeerReceived(Result<Option<Result<PacketEnvelope, String>>, String>),
    /// The socket sends a datagram through the path. Nothing says that the socket is gone.
    Outgoing(Option<Vec<u8>>),
    PeerSent(Result<(), String>),
}

/// What a path does next.
#[derive(Debug)]
pub enum ConsumerPathAction {
    /// Wait for the next packet from either side.
    Wait,
    SendToPeer(Vec<u8>),
    /// Give the path up. This is its result.
    Finish(Result<ConsumerPathEnd, ConsumerPathError>),
}

/// A peer path of the socket, and the egress path that its packets come through, once known.
#[derive(Debug, PartialEq, Eq)]
pub struct ConsumerPath {
    pub path: VirtualPath,
    pub source: Option<String>,
}

impl ConsumerPath {
    /// Whether a packet that came through `source_addr` may follow on this path.
    pub open spec fn accepts_source(&self, source_addr: Seq<char>) -> bool {
        source_addr.len() > 0 && (self.source matches Some(expected) ==> expected@ == source_addr)
    }

    /// Whether `action` is what the path does on `event`, with the socket in the state `socket`.
    pub open spec fn performs(
        &self,
        socket: VirtualUdpSocket,
        event: ConsumerPathEvent,
        action: ConsumerPathAction,
    ) -> bool {
        match event {
            ConsumerPathEvent::Cancelled => action == ends(ConsumerPathEnd::Cancelled),
            ConsumerPathEvent::PeerReceived(Err(error)) => action == fails(
                ConsumerPathError::Transport(error),
            ),
            ConsumerPathEvent::PeerReceived(Ok(None)) => action == ends(
                ConsumerPathEnd::PeerClosed,
            ),
            ConsumerPathEvent::PeerReceived(Ok(Some(Err(error)))) => action == fails(
                ConsumerPathError::Decode(PacketDecodeError::Envelope(error)),
            ),
            ConsumerPathEvent::PeerReceived(Ok(Some(Ok(packet)))) => self.performs_packet(
                socket,
                packet,
                action,
            ),
            ConsumerPathEvent::Outgoing(Some(packet)) => action == ConsumerPathAction::SendToPeer(
                packet,
            ),
            ConsumerPathEvent::Outgoing(None) => action == ends(ConsumerPathEnd::SocketClosed),
            ConsumerPathEvent::PeerSent(Ok(_)) => action is Wait,
            ConsumerPathEvent::PeerSent(Err(error)) => action == fails(
                ConsumerPathError::Transport(error),
            ),
        }
    }

    /// Whether `action` is what the path does on a packet: it goes on if the socket took the
    /// packet or had no room for it, and ends if the packet is malformed, names another egress
    /// path or none, is too large, or finds the socket closed.
    pub open spec fn performs_packet(
        &self,
        socket: VirtualUdpSocket,
        packet: PacketEnvelope,
        action: ConsumerPathAction,
    ) -> bool {
        match base64_payload::base64_bytes(packet.payload@) {
            None => action matches ConsumerPathAction::Finish(
                Err(ConsumerPathError::Decode(PacketDecodeError::Payload(_))),
            ),
            Some(payload) => if packet.source_addr@.len() == 0 {
                action == fails(ConsumerPathError::EmptySource)
            } else if !self.accepts_source(packet.source_addr@) {
                action == fails(
                    ConsumerPathError::SourceChanged {
                        expected: self.source->0,
                        actual: packet.source_addr,
                    },
                )
            } else {
                match self.path.receive_result(socket, payload.len()) {
                    Ok(_) | Err(PathReceiveError::QueueFull) => action is Wait,
                    Err(PathReceiveError::Closed) => action == ends(ConsumerPathEnd::SocketClosed),
                    Err(error) => action == fails(ConsumerPathError::Receive(error)),
                }
            },
        }
    }

    /// The payload that the socket is handed on `event`, if it is handed one.
    pub open spec fn handed_over(&self, event: ConsumerPathEvent) -> Option<Seq<u8>> {
        match event {
            ConsumerPathEvent::PeerReceived(Ok(Some(Ok(packet)))) => if self.accepts_source(
                packet.source_addr@,
            ) {
                base64_payload::base64_bytes(packet.payload@)
            } else {
                None
            },
            _ => None,
        }
    }

    /// Whether `event` leads from this path and the state `socket` of its socket to `after` and
    /// `socket_after`, and `action` is what the path does.
    pub open spec fn takes_step(
        &self,
        socket: VirtualUdpSocket,
        event: ConsumerPathEvent,
        action: ConsumerPathAction,
        after: ConsumerPath,
        socket_after: VirtualUdpSocket,
    ) -> bool {
        &&& self.performs(socket, event, action)
        &&& after.path == self.path
        &&& self.source is Some ==> after.source == self.source
        &&& match self.handed_over(event) {
            Some(payload) => {
                &&& self.path.receives(socket, socket_after, payload)
                &&& after.source matches Some(source)
                &&& event matches ConsumerPathEvent::PeerReceived(Ok(Some(Ok(packet))))
                &&& source@ == packet.source_addr@
            },
            None => socket_after == socket && after.source == self.source,
        }
    }

    /// Opens a path to `remote` on the socket.
    pub fn open(socket: &mut VirtualUdpSocket, remote: SocketAddress, queue_capacity: usize) -> (path:
        ConsumerPath)
        requires
            old(socket).wf(),
            old(socket).next_path < u64::MAX,
            queue_capacity > 0,
        ensures
            final(socket).wf(),
            path.source is None,
            path.path.id == old(socket).next_path,
            path.path.remote == remote,
            path.path.mtu == old(socket).mtu,
            exists|entry: virtual_udp::PathEntry|
                final(socket).paths@ == #[trigger] virtual_udp::with_path(old(socket).paths@, entry)
                    && entry.id == path.path.id && entry.remote == remote && entry.routed
                    && entry.outgoing@.len() == 0 && entry.outgoing.spec_capacity()
                    == queue_capacity,
            final(socket).local_addr == old(socket).local_addr,
            final(socket).mtu == old(socket).mtu,
            final(socket).incoming == old(socket).incoming,
            final(socket).closed == old(socket).closed,
            final(socket).next_path == old(socket).next_path + 1,
    {
        let path = socket.add_path(remote, queue_capacity);
        ConsumerPath { path, source: None }
    }

    /// Decides what the path does on `event`. A packet from the peer is handed to the socket. The
    /// first packet fixes the egress path that all others must come through.
    pub fn step(&mut self, socket: &mut VirtualUdpSocket, event: ConsumerPathEvent) -> (action:
        ConsumerPathAction)
        requires
            old(socket).wf(),
        ensures
            old(self).takes_step(*old(socket), event, action, *final(self), *final(socket)),
            old(self).performs(*old(socket), event, action),
            final(self).path == old(self).path,
            match old(self).handed_over(event) {
                Some(payload) => {
                    &&& old(self).path.receives(*old(socket), *final(socket), payload)
                    &&& final(self).source matches Some(source)
                    &&& event matches ConsumerPathEvent::PeerReceived(Ok(Some(Ok(packet))))
                    &&& source@ == packet.source_addr@
                },
                None => *final(socket) == *old(socket) && final(self).source == old(self).source,
            },
            old(self).source is Some ==> final(self).source == old(self).source,
            final(socket).wf(),
    {
        match event {
            ConsumerPathEvent::Cancelled => ConsumerPathAction::Finish(
                Ok(ConsumerPathEnd::Cancelled),
            ),
            ConsumerPathEvent::PeerReceived(received) => match received {
                Err(error) => ConsumerPathAction::Finish(Err(ConsumerPathError::Transport(error))),
                Ok(None) => ConsumerPathAction::Finish(Ok(ConsumerPathEnd::PeerClosed)),
                Ok(Some(Err(error))) => ConsumerPathAction::Finish(
                    Err(ConsumerPathError::Decode(PacketDecodeError::Envelope(error))),
                ),
                Ok(Some(Ok(packet))) => self.receive(socket, packet),
            },
            ConsumerPathEvent::Outgoing(outgoing) => match outgoing {
                Some(packet) => ConsumerPathAction::SendToPeer(packet),
                None => ConsumerPathAction::Finish(Ok(ConsumerPathEnd::SocketClosed)),
            },
            ConsumerPathEvent::PeerSent(sent) => match sent {
                Ok(_) => ConsumerPathAction::Wait,
                Err(error) => ConsumerPathAction::Finish(Err(ConsumerPathError::Transport(error))),
            },
        }
    }

    /// Hands a packet from the peer to the socket.
    fn receive(&mut self, socket: &mut VirtualUdpSocket, packet: PacketEnvelope) -> (action:
        ConsumerPathAction)
        requires
            old(socket).wf(),
        ensures
            old(self).performs_packet(*old(socket), packet, action),
            final(self).path == old(self).path,
            match base64_payload::base64_bytes(packet.payload@) {
                Some(payload) if old(self).accepts_source(packet.source_addr@) => {
                    &&& old(self).path.receives(*old(socket), *final(socket), payload)
                    &&& final(self).source matches Some(source)
                    &&& source@ == packet.source_addr@
                },
                _ => *final(socket) == *old(socket) && final(self).source == old(self).source,
            },
            old(self).source is Some ==> final(self).source == old(self).source,
            final(socket).wf(),
    {
        let packet = match UnboundedPacket::from_envelope(
            packet.source_addr,
            packet.payload.as_str(),
        ) {
            Ok(packet) => packet,
            Err(error) => {
                return ConsumerPathAction::Finish(
                    Err(ConsumerPathError::Decode(PacketDecodeError::Payload(error))),
                );
            },
        };
        if packet.source_addr.as_str().is_empty() {
            return ConsumerPathAction::Finish(Err(ConsumerPathError::EmptySource));
        }
        match &self.source {
            Some(expected) => {
                if *expected != packet.source_addr {
                    let expected = expected.clone();
                    return ConsumerPathAction::Finish(
                        Err(
                            ConsumerPathError::SourceChanged {
                                expected,
                                actual: packet.source_addr,
                            },
                        ),
                    );
                }
            },
            None => {
                self.source = Some(packet.source_addr);
            },
        }
        match self.path.try_receive(socket, packet.payload) {
            Ok(_) | Err(PathReceiveError::QueueFull) => ConsumerPathAction::Wait,
            Err(PathReceiveError::Closed) => ConsumerPathAction::Finish(
                Ok(ConsumerPathEnd::SocketClosed),
            ),
            Err(error) => ConsumerPathAction::Finish(Err(ConsumerPathError::Receive(error))),
        }
    }

    /// Gives the path up, and with it its route.
    pub fn close(self, socket: &mut VirtualUdpSocket)
        requires
            old(socket).wf(),
        ensures
            final(socket).wf(),
            final(socket).paths@ == virtual_udp::without_path(old(socket).paths@, self.path.id),
            final(socket).local_addr == old(socket).local_addr,
            final(socket).mtu == old(socket).mtu,
            final(socket).incoming == old(socket).incoming,
            final(socket).closed == old(socket).closed,
            final(socket).next_path == old(socket).next_path,
    {
        self.path.close(socket)
    }
}

/// The end of a path in an orderly way.
pub open spec fn ends(end: ConsumerPathEnd) -> ConsumerPathAction {
    ConsumerPathAction::Finish(Ok(end))
}

/// The end of a path that failed.
pub open spec fn fails(error: ConsumerPathError) -> ConsumerPathAction {
    ConsumerPathAction::Finish(Err(error))
}

/// The first address that is handed out is 100.64.0.2, and each of the others is the one after the
/// address before it. All of them have the port 443.
pub proof fn law_addresses_are_handed_out_in_order(calls: nat, i: int)
    requires
        0 <= i < calls <= 0x3f_fffe,
    ensures
        handed_out(SyntheticPathAllocator { next_host: FIRST_PATH_HOST }, calls).len() == calls,
        handed_out(SyntheticPathAllocator { next_host: FIRST_PATH_HOST }, calls)[i] == (
        SocketAddress::V4 { ip: (0x6440_0002 + i) as u32, port: 443 }),
{
    lemma_handed_out(SyntheticPathAllocator { next_host: FIRST_PATH_HOST }, calls);
}

/// One step of a path: the path and its socket before it, what happened, and what the path did.
#[derive(Debug)]
pub struct ConsumerPathStep {
    pub path: ConsumerPath,
    pub socket: VirtualUdpSocket,
    pub event: ConsumerPathEvent,
    pub action: ConsumerPathAction,
}

/// Whether a path did in each of `steps` what it does.
pub open spec fn is_run(steps: Seq<ConsumerPathStep>) -> bool {
    forall|i: int|
        0 <= i < steps.len() ==> (#[trigger] steps[i]).path.performs(
            steps[i].socket,
            steps[i].event,
            steps[i].action,
        )
}

/// The datagrams that the socket sends through the path during `steps`, in order.
pub open spec fn sent_by_the_socket(steps: Seq<ConsumerPathStep>) -> Seq<Seq<u8>>
    decreases steps.len(),
{
    if steps.len() == 0 {
        Seq::empty()
    } else {
        let before = sent_by_the_socket(steps.drop_last());
        match steps.last().event {
            ConsumerPathEvent::Outgoing(Some(datagram)) => before.push(datagram@),
            _ => before,
        }
    }
}

/// The datagrams that the path sends to the peer during `steps`, in order.
pub open spec fn sent_to_the_peer(steps: Seq<ConsumerPathStep>) -> Seq<Seq<u8>>
    decreases steps.len(),
{
    if steps.len() == 0 {
        Seq::empty()
    } else {
        let before = sent_to_the_peer(steps.drop_last());
        match steps.last().action {
            ConsumerPathAction::SendToPeer(datagram) => before.push(datagram@),
            _ => before,
        }
    }
}

/// Whatever happens on a path, the peer is sent exactly the datagrams that the socket sends through
/// it: every one of them, of any length, unchanged and in order, and no others.
pub proof fn law_every_outgoing_datagram_is_sent(steps: Seq<ConsumerPathStep>)
    requires
        is_run(steps),
    ensures
        sent_to_the_peer(steps) == sent_by_the_socket(steps),
    decreases steps.len(),
{
    if steps.len() > 0 {
        let before = steps.drop_last();
        assert forall|i: int| 0 <= i < before.len() implies (#[trigger] before[i]).path.performs(
            before[i].socket,
            before[i].event,
            before[i].action,
        ) by {
            assert(before[i] == steps[i]);
        }
        law_every_outgoing_datagram_is_sent(before);
        let last = steps[steps.len() - 1];
        assert(last.path.performs(last.socket, last.event, last.action));
    }
}

/// A packet from the peer reaches the socket with the bytes that the peer put into it, as coming
/// from the path's address, if it is no larger than the path carries, names the path's egress path
/// or the first one, and finds the socket open and with room. Nothing else that waits is touched.
pub proof fn law_incoming_packet_reaches_the_socket(
    path: ConsumerPath,
    socket: VirtualUdpSocket,
    packet: PacketEnvelope,
    bytes: Seq<u8>,
    action: ConsumerPathAction,
    after: ConsumerPath,
    socket_after: VirtualUdpSocket,
)
    requires
        path.takes_step(
            socket,
            ConsumerPathEvent::PeerReceived(Ok(Some(Ok(packet)))),
            action,
            after,
            socket_after,
        ),
        packet.payload@ == base64_payload::base64_text(bytes),
        packet.source_addr@.len() > 0,
        path.source matches Some(source) ==> source@ == packet.source_addr@,
        bytes.len() <= path.path.mtu,
        !socket.closed,
        socket.incoming@.len() < socket.incoming.spec_capacity(),
    ensures
        action is Wait,
        socket_after.incoming@.len() == socket.incoming@.len() + 1,
        socket_after.incoming@.drop_last() == socket.incoming@,
        socket_after.incoming@.last().remote == path.path.remote,
        socket_after.incoming@.last().payload@ == bytes,
        socket_after.paths == socket.paths,
        after.source matches Some(source) && source@ == packet.source_addr@,
{
    base64_payload::law_base64_round_trip(bytes, packet.payload@);
}

/// A packet that cannot be handed to the socket leaves it as it was. The path only goes on after
/// one if the socket had no room; otherwise it ends, and says what was wrong with the packet.
pub proof fn law_unfit_packet_is_turned_away(
    path: ConsumerPath,
    socket: VirtualUdpSocket,
    packet: PacketEnvelope,
    bytes: Seq<u8>,
    action: ConsumerPathAction,
    after: ConsumerPath,
    socket_after: VirtualUdpSocket,
)
    requires
        path.takes_step(
            socket,
            ConsumerPathEvent::PeerReceived(Ok(Some(Ok(packet)))),
            action,
            after,
            socket_after,
        ),
    ensures
        (forall|bytes: Seq<u8>| #[trigger]
            base64_payload::base64_text(bytes) != packet.payload@) ==> {
            &&& action matches ConsumerPathAction::Finish(
                Err(ConsumerPathError::Decode(PacketDecodeError::Payload(_))),
            )
            &&& socket_after == socket
            &&& after.source == path.source
        },
        packet.payload@ == base64_payload::base64_text(bytes) ==> {
            if packet.source_addr@.len() == 0 {
                &&& action == ConsumerPathAction::Finish(Err(ConsumerPathError::EmptySource))
                &&& socket_after == socket
                &&& after.source == path.source
            } else if path.source is Some && path.source->0@ != packet.source_addr@ {
                &&& action == ConsumerPathAction::Finish(
                    Err(
                        ConsumerPathError::SourceChanged {
                            expected: path.source->0,
                            actual: packet.source_addr,
                        },
                    ),
                )
                &&& socket_after == socket
                &&& after.source == path.source
            } else if bytes.len() > path.path.mtu {
                &&& action == ConsumerPathAction::Finish(
                    Err(
                        ConsumerPathError::Receive(
                            PathReceiveError::Oversize {
                                actual: bytes.len() as usize,
                                mtu: path.path.mtu,
                            },
                        ),
                    ),
                )
                &&& socket_after.incoming@ == socket.incoming@
            } else if socket.closed {
                &&& action == ConsumerPathAction::Finish(Ok(ConsumerPathEnd::SocketClosed))
                &&& socket_after.incoming@ == socket.incoming@
            } else if socket.incoming@.len() == socket.incoming.spec_capacity() {
                &&& action is Wait
                &&& socket_after.incoming@ == socket.incoming@
            } else {
                action is Wait
            }
        },
{
    base64_payload::law_base64_round_trip(bytes, packet.payload@);
}

/// Whether `steps` follow each other on one path: each of them starts with the path that the one
/// before it left.
pub open spec fn is_one_path(steps: Seq<ConsumerPathStep>) -> bool {
    forall|i: int, j: int|
        0 <= i < j < steps.len() && j == i + 1 ==> exists|socket_after: VirtualUdpSocket|
            (#[trigger] steps[i]).path.takes_step(
                steps[i].socket,
                steps[i].event,
                steps[i].action,
                (#[trigger] steps[j]).path,
                socket_after,
            )
}

/// Whether `step` hands a packet that came through `source` to the socket.
pub open spec fn lets_through(step: ConsumerPathStep, source: Seq<char>) -> bool {
    &&& step.event matches ConsumerPathEvent::PeerReceived(Ok(Some(Ok(packet))))
    &&& packet.source_addr@ == source
    &&& step.action is Wait
}

/// Once a path knows its egress path, it knows the same one from then on.
proof fn lemma_source_stays(steps: Seq<ConsumerPathStep>, i: int, j: int)
    requires
        is_one_path(steps),
        0 <= i <= j < steps.len(),
        steps[i].path.source is Some,
    ensures
        steps[j].path.source == steps[i].path.source,
    decreases j - i,
{
    if i < j {
        lemma_source_stays(steps, i, j - 1);
        let (before, next) = (steps[j - 1], steps[j]);
        let socket_after = choose|socket_after: VirtualUdpSocket|
            before.path.takes_step(
                before.socket,
                before.event,
                before.action,
                next.path,
                socket_after,
            );
        assert(before.path.takes_step(
            before.socket,
            before.event,
            before.action,
            next.path,
            socket_after,
        ));
    }
}

/// All packets that one path lets through to the socket came through the same egress path.
pub proof fn law_one_egress_path_per_path(
    steps: Seq<ConsumerPathStep>,
    i: int,
    j: int,
    first: Seq<char>,
    second: Seq<char>,
)
    requires
        is_run(steps),
        is_one_path(steps),
        0 <= i < j < steps.len(),
        lets_through(steps[i], first),
        lets_through(steps[j], second),
    ensures
        first == second,
        first.len() > 0,
{
    let (before, next) = (steps[i], steps[i + 1]);
    let socket_after = choose|socket_after: VirtualUdpSocket|
        before.path.takes_step(
            before.socket,
            before.event,
            before.action,
            next.path,
            socket_after,
        );
    assert(before.path.takes_step(
        before.socket,
        before.event,
        before.action,
        next.path,
        socket_after,
    ));
    lemma_source_stays(steps, i + 1, j);
}

/// Everything but a packet and an outgoing datagram is answered by itself: a cancellation, the end
/// of either side and a transport error end the path with what they are, and a datagram that was
/// sent lets it go on. Nothing else ends the path as cancelled, as closed by the peer or with a
/// transport error.
pub proof fn law_every_end_has_its_cause(
    path: ConsumerPath,
    socket: VirtualUdpSocket,
    event: ConsumerPathEvent,
    action: ConsumerPathAction,
    after: ConsumerPath,
    socket_after: VirtualUdpSocket,
)
    requires
        path.takes_step(socket, event, action, after, socket_after),
    ensures
        action == ConsumerPathAction::Finish(Ok(ConsumerPathEnd::Cancelled)) <==> event is Cancelled,
        action == ConsumerPathAction::Finish(Ok(ConsumerPathEnd::PeerClosed)) <==> (event matches
            ConsumerPathEvent::PeerReceived(Ok(received)) && received is None),
        event matches ConsumerPathEvent::Outgoing(None) ==> action
            == ConsumerPathAction::Finish(Ok(ConsumerPathEnd::SocketClosed)),
        event matches ConsumerPathEvent::PeerReceived(Err(error)) ==> action
            == ConsumerPathAction::Finish(Err(ConsumerPathError::Transport(error))),
        event matches ConsumerPathEvent::PeerSent(Err(error)) ==> action
            == ConsumerPathAction::Finish(Err(ConsumerPathError::Transport(error))),
        action matches ConsumerPathAction::Finish(Err(ConsumerPathError::Transport(error))) ==> event
            == ConsumerPathEvent::PeerReceived(Err(error)) || event
            == ConsumerPathEvent::PeerSent(Err(error)),
        event matches ConsumerPathEvent::PeerReceived(Ok(Some(Err(error)))) ==> action
            == ConsumerPathAction::Finish(
            Err(ConsumerPathError::Decode(PacketDecodeError::Envelope(error))),
        ),
        action matches ConsumerPathAction::Finish(
            Err(ConsumerPathError::Decode(PacketDecodeError::Envelope(error))),
        ) ==> event == ConsumerPathEvent::PeerReceived(Ok(Some(Err(error)))),
        event matches ConsumerPathEvent::PeerSent(Ok(_)) ==> action is Wait,
        event matches ConsumerPathEvent::Outgoing(Some(_)) ==> action is SendToPeer,
        !(event matches ConsumerPathEvent::PeerReceived(Ok(Some(Ok(_))))) ==> socket_after == socket
            && after == path,
{
    assert(after.path == path.path && after.source == path.source ==> after == path);
}

} // verus!
