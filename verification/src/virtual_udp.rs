//! A UDP socket whose remote addresses stand for peer paths.
//!
//! The socket outlives its paths: a path that is lost takes its own route with it and nothing
//! else. Datagrams that find no route or no room are lost, as on any network.
use vstd::prelude::*;

use crate::addr::{IpAddress, SocketAddress};
use crate::queue::BoundedQueue;

verus! {

/// The number of datagrams that wait to be read, on the socket and on a path.
pub const DEFAULT_QUEUE_CAPACITY: usize = 4096;

/// The largest datagram that a path carries. Egress connections start with packets of 1280 bytes
/// and probe for packets of up to 1452 bytes, all of which must be accepted.
pub const DEFAULT_PATH_MTU: usize = 1452;

/// Why a datagram from a peer did not enter the socket.
#[derive(Debug, Clone, Copy, PartialEq, Eq, Structural)]
pub enum PathReceiveError {
    Oversize { actual: usize, mtu: usize },
    QueueFull,
    Closed,
}

/// A datagram that is larger than a path carries.
#[derive(Debug, Clone, Copy, PartialEq, Eq, Structural)]
pub struct OversizeDatagram {
    pub actual: usize,
    pub mtu: usize,
}

/// A datagram with the address of the path that it came through.
#[derive(Debug, PartialEq, Eq)]
pub struct ReceivedDatagram {
    pub remote: SocketAddress,
    pub payload: Vec<u8>,
}

/// What is said about a datagram that was read.
#[derive(Debug, Clone, Copy, PartialEq, Eq, Structural)]
pub struct ReceivedMeta {
    pub addr: SocketAddress,
    pub len: usize,
    pub stride: usize,
    pub dst_ip: IpAddress,
}

/// What a read gives.
#[derive(Debug, PartialEq, Eq)]
pub enum SocketReceive {
    /// There is no room to read into.
    NoBuffer,
    /// Nothing has arrived.
    Pending,
    /// A datagram, as far as the buffer holds it.
    Datagram { bytes: Vec<u8>, meta: ReceivedMeta },
}

/// A path of a socket: what waits to be sent through it, and whether datagrams for its address
/// are routed to it.
#[derive(Debug)]
pub struct PathEntry {
    pub id: u64,
    pub remote: SocketAddress,
    pub routed: bool,
    pub outgoing: BoundedQueue<Vec<u8>>,
}

impl PathEntry {
    /// Whether datagrams for `remote` go to this path.
    pub open spec fn is_route_to(&self, remote: SocketAddress) -> bool {
        self.routed && self.remote == remote
    }

    /// The path without its route if it was the route to `remote`.
    pub open spec fn unrouted_from(self, remote: SocketAddress) -> PathEntry {
        if self.remote == remote {
            PathEntry { routed: false, ..self }
        } else {
            self
        }
    }

    /// Whether this is the path `before`, with `outgoing` waiting to be sent through it.
    pub open spec fn is_with_outgoing(&self, before: PathEntry, outgoing: Seq<Vec<u8>>) -> bool {
        &&& self.id == before.id
        &&& self.remote == before.remote
        &&& self.routed == before.routed
        &&& self.outgoing.spec_capacity() == before.outgoing.spec_capacity()
        &&& self.outgoing@ == outgoing
    }
}

/// Whether the paths of a socket are in order: no two have the same number, and no address has
/// two routes.
pub open spec fn paths_wf(paths: Seq<PathEntry>) -> bool {
    &&& forall|i: int| 0 <= i < paths.len() ==> (#[trigger] paths[i]).outgoing.wf()
    &&& forall|i: int, j: int|
        0 <= i < j < paths.len() ==> (#[trigger] paths[i]).id != (#[trigger] paths[j]).id
    &&& forall|i: int, j: int|
        0 <= i < j < paths.len() && (#[trigger] paths[i]).routed && (#[trigger] paths[j]).routed
            ==> paths[i].remote != paths[j].remote
}

/// The paths once `entry` has been added: it takes over the route to its address.
pub open spec fn with_path(paths: Seq<PathEntry>, entry: PathEntry) -> Seq<PathEntry> {
    paths.map_values(|path: PathEntry| path.unrouted_from(entry.remote)).push(entry)
}

/// The paths without the path `id`.
pub open spec fn without_path(paths: Seq<PathEntry>, id: u64) -> Seq<PathEntry> {
    paths.filter(|path: PathEntry| path.id != id)
}

/// The number of addresses that have a route.
pub open spec fn route_count(paths: Seq<PathEntry>) -> nat {
    paths.filter(|path: PathEntry| path.routed).len()
}

/// A socket over any number of peer paths.
#[derive(Debug)]
pub struct VirtualUdpSocket {
    pub local_addr: SocketAddress,
    pub mtu: usize,
    pub incoming: BoundedQueue<ReceivedDatagram>,
    pub paths: Vec<PathEntry>,
    /// The number of the path that is added next.
    pub next_path: u64,
    /// Nobody reads from the socket any more.
    pub closed: bool,
}

impl VirtualUdpSocket {
    /// The socket's queues and paths are in order, and path numbers are not used again.
    pub open spec fn wf(&self) -> bool {
        &&& self.mtu > 0
        &&& self.incoming.wf()
        &&& paths_wf(self.paths@)
        &&& forall|i: int| 0 <= i < self.paths@.len() ==> (#[trigger] self.paths@[i]).id < self.next_path
    }

    /// Whether sending `contents` to `destination` came out as `sent` and left the socket as `after`.
    pub open spec fn sends(
        &self,
        destination: SocketAddress,
        contents: Seq<u8>,
        sent: Result<(), OversizeDatagram>,
        after: VirtualUdpSocket,
    ) -> bool {
        &&& sent == (if contents.len() > self.mtu {
            Err(OversizeDatagram { actual: contents.len() as usize, mtu: self.mtu })
        } else {
            Ok(())
        })
        &&& after.mtu == self.mtu
        &&& after.incoming == self.incoming
        &&& after.paths@.len() == self.paths@.len()
        &&& forall|i: int|
            0 <= i < self.paths@.len() ==> {
                let path = #[trigger] self.paths@[i];
                let path_after = after.paths@[i];
                if sent is Err || !path.is_route_to(destination) || path.outgoing@.len()
                    == path.outgoing.spec_capacity() {
                    path_after == path
                } else {
                    &&& path_after.is_with_outgoing(path, path_after.outgoing@)
                    &&& path_after.outgoing@.len() > 0
                    &&& path_after.outgoing@.drop_last() == path.outgoing@
                    &&& path_after.outgoing@.last()@ == contents
                }
            }
    }

    /// Whether reading into `buffers` buffers of `buffer_len` bytes, with `metas` places to describe
    /// a datagram, gave `received` and left the socket as `after`.
    pub open spec fn reads(
        &self,
        buffers: usize,
        metas: usize,
        buffer_len: usize,
        received: SocketReceive,
        after: VirtualUdpSocket,
    ) -> bool {
        &&& after.paths == self.paths
        &&& match received {
            SocketReceive::NoBuffer => (buffers == 0 || metas == 0) && after.incoming@
                == self.incoming@,
            SocketReceive::Pending => buffers > 0 && metas > 0 && self.incoming@.len() == 0
                && after.incoming@ == self.incoming@,
            SocketReceive::Datagram { bytes, meta } => {
                let datagram = self.incoming@[0];
                let len = if datagram.payload@.len() <= buffer_len {
                    datagram.payload@.len() as usize
                } else {
                    buffer_len
                };
                &&& buffers > 0 && metas > 0
                &&& self.incoming@.len() > 0
                &&& after.incoming@ == self.incoming@.drop_first()
                &&& bytes@ == datagram.payload@.take(len as int)
                &&& meta == (ReceivedMeta {
                    addr: datagram.remote,
                    len,
                    stride: len,
                    dst_ip: self.local_addr.spec_ip(),
                })
            },
        }
    }

    /// Whether opening `path` to `remote`, with room for `queue_capacity` datagrams, left the socket
    /// as `after`.
    pub open spec fn opens(
        &self,
        remote: SocketAddress,
        queue_capacity: usize,
        path: VirtualPath,
        after: VirtualUdpSocket,
    ) -> bool {
        &&& path.id == self.next_path
        &&& path.remote == remote
        &&& path.mtu == self.mtu
        &&& after.next_path == self.next_path + 1
        &&& after.local_addr == self.local_addr
        &&& after.mtu == self.mtu
        &&& after.incoming == self.incoming
        &&& after.closed == self.closed
        &&& exists|entry: PathEntry|
            after.paths@ == #[trigger] with_path(self.paths@, entry) && entry.id == path.id
                && entry.remote == remote && entry.routed && entry.outgoing@.len() == 0
                && entry.outgoing.spec_capacity() == queue_capacity
    }

    /// A socket without paths at `local_addr`.
    pub fn new(local_addr: SocketAddress) -> (socket: VirtualUdpSocket)
        ensures
            socket.wf(),
            socket.local_addr == local_addr,
            socket.mtu == DEFAULT_PATH_MTU,
            socket.incoming.spec_capacity() == DEFAULT_QUEUE_CAPACITY,
            socket.incoming@ == Seq::<ReceivedDatagram>::empty(),
            socket.paths@ == Seq::<PathEntry>::empty(),
            socket.next_path == 0,
            !socket.closed,
    {
        VirtualUdpSocket::with_options(local_addr, DEFAULT_PATH_MTU, DEFAULT_QUEUE_CAPACITY)
    }

    /// A socket without paths at `local_addr` that carries datagrams of up to `mtu` bytes and lets
    /// `queue_capacity` of them wait to be read.
    pub fn with_options(
        local_addr: SocketAddress,
        mtu: usize,
        queue_capacity: usize,
    ) -> (socket: VirtualUdpSocket)
        requires
            mtu > 0,
            queue_capacity > 0,
        ensures
            socket.wf(),
            socket.local_addr == local_addr,
            socket.mtu == mtu,
            socket.incoming.spec_capacity() == queue_capacity,
            socket.incoming@ == Seq::<ReceivedDatagram>::empty(),
            socket.paths@ == Seq::<PathEntry>::empty(),
            socket.next_path == 0,
            !socket.closed,
    {
        VirtualUdpSocket {
            local_addr,
            mtu,
            incoming: BoundedQueue::new(queue_capacity),
            paths: Vec::new(),
            next_path: 0,
            closed: false,
        }
    }

    /// The address of the socket itself.
    pub fn local_addr(&self) -> (address: SocketAddress)
        ensures
            address == self.local_addr,
    {
        self.local_addr
    }

    /// Opens a path to `remote` that lets `queue_capacity` datagrams wait to be sent. It takes
    /// over the route to `remote`.
    pub fn add_path(&mut self, remote: SocketAddress, queue_capacity: usize) -> (path: VirtualPath)
        requires
            old(self).wf(),
            old(self).next_path < u64::MAX,
            queue_capacity > 0,
        ensures
            final(self).wf(),
            old(self).opens(remote, queue_capacity, path, *final(self)),
            path.id == old(self).next_path,
            path.remote == remote,
            path.mtu == old(self).mtu,
            exists|entry: PathEntry|
                final(self).paths@ == #[trigger] with_path(old(self).paths@, entry) && entry.id
                    == path.id && entry.remote == remote && entry.routed && entry.outgoing@.len()
                    == 0 && entry.outgoing.spec_capacity() == queue_capacity,
            final(self).local_addr == old(self).local_addr,
            final(self).mtu == old(self).mtu,
            final(self).incoming == old(self).incoming,
            final(self).closed == old(self).closed,
            final(self).next_path == old(self).next_path + 1,
    {
        let id: u64 = self.next_path;
        let mut i: usize = 0;
        while i < self.paths.len()
            invariant
                i <= self.paths@.len() == old(self).paths@.len(),
                forall|j: int|
                    0 <= j < i ==> self.paths@[j] == old(self).paths@[j].unrouted_from(remote),
                forall|j: int| i <= j < self.paths@.len() ==> self.paths@[j] == old(self).paths@[j],
                self.local_addr == old(self).local_addr,
                self.mtu == old(self).mtu,
                self.incoming == old(self).incoming,
                self.closed == old(self).closed,
                self.next_path == old(self).next_path,
            decreases self.paths@.len() - i,
        {
            if self.paths[i].remote == remote {
                self.paths[i].routed = false;
            }
            i = i + 1;
        }
        let entry = PathEntry {
            id,
            remote,
            routed: true,
            outgoing: BoundedQueue::new(queue_capacity),
        };
        let ghost added = entry;
        self.paths.push(entry);
        self.next_path = id + 1;
        assert(self.paths@ =~= with_path(old(self).paths@, added));
        VirtualPath { id, remote, mtu: self.mtu }
    }

    /// The number of addresses that have a route.
    pub fn path_count(&self) -> (count: usize)
        ensures
            count == route_count(self.paths@),
    {
        let mut count: usize = 0;
        let mut i: usize = 0;
        while i < self.paths.len()
            invariant
                i <= self.paths@.len(),
                count <= i,
                count == route_count(self.paths@.take(i as int)),
            decreases self.paths@.len() - i,
        {
            proof {
                let taken = self.paths@.take(i + 1);
                assert(taken.drop_last() =~= self.paths@.take(i as int));
                reveal(Seq::filter);
            }
            if self.paths[i].routed {
                count = count + 1;
            }
            i = i + 1;
        }
        assert(self.paths@.take(i as int) =~= self.paths@);
        count
    }

    /// Sends a datagram to the path that `destination` is routed to. A datagram without a route,
    /// or without room on its path, is lost. Only a datagram that is too large is an error.
    pub fn try_send(&mut self, destination: SocketAddress, contents: &[u8]) -> (sent: Result<
        (),
        OversizeDatagram,
    >)
        requires
            old(self).wf(),
        ensures
            final(self).wf(),
            old(self).sends(destination, contents@, sent, *final(self)),
            sent == (if contents@.len() > old(self).mtu {
                Err(OversizeDatagram { actual: contents@.len() as usize, mtu: old(self).mtu })
            } else {
                Ok(())
            }),
            final(self).local_addr == old(self).local_addr,
            final(self).mtu == old(self).mtu,
            final(self).incoming == old(self).incoming,
            final(self).closed == old(self).closed,
            final(self).next_path == old(self).next_path,
            final(self).paths@.len() == old(self).paths@.len(),
            forall|i: int|
                0 <= i < old(self).paths@.len() ==> {
                    let before = #[trigger] old(self).paths@[i];
                    let after = final(self).paths@[i];
                    if sent is Err || !before.is_route_to(destination) || before.outgoing@.len()
                        == before.outgoing.spec_capacity() {
                        after == before
                    } else {
                        &&& after.is_with_outgoing(before, after.outgoing@)
                        &&& after.outgoing@.drop_last() == before.outgoing@
                        &&& after.outgoing@.len() > 0
                        &&& after.outgoing@.last()@ == contents@
                    }
                },
    {
        if contents.len() > self.mtu {
            return Err(OversizeDatagram { actual: contents.len(), mtu: self.mtu });
        }
        let mut i: usize = 0;
        while i < self.paths.len()
            invariant
                i <= self.paths@.len(),
                *self == *old(self),
                self.wf(),
                contents@.len() <= self.mtu,
                forall|j: int| 0 <= j < i ==> !(#[trigger] self.paths@[j]).is_route_to(destination),
            decreases self.paths@.len() - i,
        {
            if self.paths[i].routed && self.paths[i].remote == destination {
                if !self.paths[i].outgoing.is_full() {
                    let packet = vstd::slice::slice_to_vec(contents);
                    let _ = self.paths[i].outgoing.try_push(packet);
                    assert(self.paths@[i as int].outgoing@.drop_last()
                        =~= old(self).paths@[i as int].outgoing@);
                }
                return Ok(());
            }
            i = i + 1;
        }
        Ok(())
    }

    /// Reads the next datagram into a buffer of `buffer_len` bytes. What the buffer does not hold
    /// is lost. Without a buffer, or without a place to describe the datagram, nothing is read.
    pub fn poll_recv(&mut self, buffers: usize, metas: usize, buffer_len: usize) -> (received:
        SocketReceive)
        requires
            old(self).wf(),
        ensures
            final(self).wf(),
            final(self).local_addr == old(self).local_addr,
            final(self).mtu == old(self).mtu,
            final(self).paths == old(self).paths,
            final(self).closed == old(self).closed,
            final(self).next_path == old(self).next_path,
            old(self).reads(buffers, metas, buffer_len, received, *final(self)),
            final(self).incoming.spec_capacity() == old(self).incoming.spec_capacity(),
            match received {
                SocketReceive::NoBuffer => (buffers == 0 || metas == 0) && final(self).incoming@
                    == old(self).incoming@,
                SocketReceive::Pending => buffers > 0 && metas > 0 && old(self).incoming@.len() == 0
                    && final(self).incoming@ == old(self).incoming@,
                SocketReceive::Datagram { bytes, meta } => {
                    let datagram = old(self).incoming@[0];
                    let len = if datagram.payload@.len() <= buffer_len {
                        datagram.payload@.len() as usize
                    } else {
                        buffer_len
                    };
                    &&& buffers > 0 && metas > 0
                    &&& old(self).incoming@.len() > 0
                    &&& final(self).incoming@ == old(self).incoming@.drop_first()
                    &&& bytes@ == datagram.payload@.take(len as int)
                    &&& meta == (ReceivedMeta {
                        addr: datagram.remote,
                        len,
                        stride: len,
                        dst_ip: old(self).local_addr.spec_ip(),
                    })
                },
            },
    {
        if buffers == 0 || metas == 0 {
            return SocketReceive::NoBuffer;
        }
        match self.incoming.pop() {
            Some(datagram) => {
                let mut bytes = datagram.payload;
                let len: usize = if bytes.len() <= buffer_len {
                    bytes.len()
                } else {
                    buffer_len
                };
                bytes.truncate(len);
                let meta = ReceivedMeta {
                    addr: datagram.remote,
                    len,
                    stride: len,
                    dst_ip: self.local_addr.ip(),
                };
                SocketReceive::Datagram { bytes, meta }
            },
            None => SocketReceive::Pending,
        }
    }

    /// Ends the socket: nobody reads from it any more.
    pub fn close(&mut self)
        requires
            old(self).wf(),
        ensures
            final(self).wf(),
            *final(self) == (VirtualUdpSocket { closed: true, ..*old(self) }),
    {
        self.closed = true;
    }
}

/// One path of a socket.
#[derive(Debug, PartialEq, Eq)]
pub struct VirtualPath {
    pub id: u64,
    pub remote: SocketAddress,
    pub mtu: usize,
}

impl VirtualPath {
    /// The address that the path is known by.
    pub fn remote_addr(&self) -> (address: SocketAddress)
        ensures
            address == self.remote,
    {
        self.remote
    }

    /// What comes of a datagram of `length` bytes from the peer.
    pub open spec fn receive_result(&self, socket: VirtualUdpSocket, length: nat) -> Result<
        (),
        PathReceiveError,
    > {
        if length > self.mtu {
            Err(PathReceiveError::Oversize { actual: length as usize, mtu: self.mtu })
        } else if socket.closed {
            Err(PathReceiveError::Closed)
        } else if socket.incoming@.len() == socket.incoming.spec_capacity() {
            Err(PathReceiveError::QueueFull)
        } else {
            Ok(())
        }
    }

    /// Whether `after` is the socket `before` once the peer has sent `payload`: the datagram waits
    /// to be read, as coming from the path's address, unless it was turned away. Nothing else has
    /// changed.
    pub open spec fn receives(
        &self,
        before: VirtualUdpSocket,
        after: VirtualUdpSocket,
        payload: Seq<u8>,
    ) -> bool {
        &&& after.wf()
        &&& after.local_addr == before.local_addr
        &&& after.mtu == before.mtu
        &&& after.paths == before.paths
        &&& after.closed == before.closed
        &&& after.next_path == before.next_path
        &&& after.incoming.spec_capacity() == before.incoming.spec_capacity()
        &&& if self.receive_result(before, payload.len()) is Ok {
            &&& after.incoming@.len() == before.incoming@.len() + 1
            &&& after.incoming@.drop_last() == before.incoming@
            &&& after.incoming@.last().remote == self.remote
            &&& after.incoming@.last().payload@ == payload
        } else {
            after.incoming@ == before.incoming@
        }
    }

    /// Hands a datagram from the peer to the socket, which sees it come from the path's address.
    pub fn try_receive(&self, socket: &mut VirtualUdpSocket, payload: Vec<u8>) -> (received: Result<
        (),
        PathReceiveError,
    >)
        requires
            old(socket).wf(),
        ensures
            received == self.receive_result(*old(socket), payload@.len()),
            self.receives(*old(socket), *final(socket), payload@),
    {
        if payload.len() > self.mtu {
            return Err(PathReceiveError::Oversize { actual: payload.len(), mtu: self.mtu });
        }
        if socket.closed {
            return Err(PathReceiveError::Closed);
        }
        if socket.incoming.try_push(ReceivedDatagram { remote: self.remote, payload }) {
            assert(socket.incoming@.drop_last() =~= old(socket).incoming@);
            Ok(())
        } else {
            Err(PathReceiveError::QueueFull)
        }
    }

    /// Whether `packet` is what was taken from `before` to be sent through this path, which left the
    /// socket as `after`.
    pub open spec fn takes(
        &self,
        before: VirtualUdpSocket,
        packet: Option<Vec<u8>>,
        after: VirtualUdpSocket,
    ) -> bool {
        &&& after.paths@.len() == before.paths@.len()
        &&& forall|i: int|
            0 <= i < before.paths@.len() ==> {
                let path = #[trigger] before.paths@[i];
                let path_after = after.paths@[i];
                if path.id != self.id {
                    path_after == path
                } else if path.outgoing@.len() > 0 {
                    &&& packet == Some(path.outgoing@[0])
                    &&& path_after.is_with_outgoing(path, path.outgoing@.drop_first())
                } else {
                    packet is None && path_after.is_with_outgoing(path, path.outgoing@)
                }
            }
    }

    /// Takes the next datagram that the socket sends through this path, if one waits.
    pub fn next_outgoing(&self, socket: &mut VirtualUdpSocket) -> (packet: Option<Vec<u8>>)
        requires
            old(socket).wf(),
        ensures
            final(socket).wf(),
            final(socket).local_addr == old(socket).local_addr,
            final(socket).mtu == old(socket).mtu,
            final(socket).incoming == old(socket).incoming,
            final(socket).closed == old(socket).closed,
            final(socket).next_path == old(socket).next_path,
            final(socket).paths@.len() == old(socket).paths@.len(),
            self.takes(*old(socket), packet, *final(socket)),
            packet is Some ==> exists|i: int|
                0 <= i < old(socket).paths@.len() && (#[trigger] old(socket).paths@[i]).id
                    == self.id,
            forall|i: int|
                0 <= i < old(socket).paths@.len() ==> {
                    let before = #[trigger] old(socket).paths@[i];
                    let after = final(socket).paths@[i];
                    if before.id == self.id && before.outgoing@.len() > 0 {
                        &&& packet == Some(before.outgoing@[0])
                        &&& after.is_with_outgoing(before, before.outgoing@.drop_first())
                    } else if before.id == self.id {
                        packet is None && after.is_with_outgoing(before, before.outgoing@)
                    } else {
                        after == before
                    }
                },
    {
        let mut i: usize = 0;
        while i < socket.paths.len()
            invariant
                i <= socket.paths@.len(),
                *socket == *old(socket),
                socket.wf(),
                forall|j: int| 0 <= j < i ==> (#[trigger] socket.paths@[j]).id != self.id,
            decreases socket.paths@.len() - i,
        {
            if socket.paths[i].id == self.id {
                return socket.paths[i].outgoing.pop();
            }
            i = i + 1;
        }
        None
    }

    /// Gives the path up. Its route goes with it, unless another path has taken the route over.
    /// Nothing else changes.
    pub fn close(self, socket: &mut VirtualUdpSocket)
        requires
            old(socket).wf(),
        ensures
            final(socket).wf(),
            final(socket).paths@ == without_path(old(socket).paths@, self.id),
            final(socket).local_addr == old(socket).local_addr,
            final(socket).mtu == old(socket).mtu,
            final(socket).incoming == old(socket).incoming,
            final(socket).closed == old(socket).closed,
            final(socket).next_path == old(socket).next_path,
    {
        let mut i: usize = 0;
        while i < socket.paths.len()
            invariant
                i <= socket.paths@.len(),
                *socket == *old(socket),
                socket.wf(),
                forall|j: int| 0 <= j < i ==> (#[trigger] socket.paths@[j]).id != self.id,
            decreases socket.paths@.len() - i,
        {
            if socket.paths[i].id == self.id {
                let _ = socket.paths.remove(i);
                proof {
                    lemma_without_path(old(socket).paths@, i as int);
                }
                return;
            }
            i = i + 1;
        }
        proof {
            lemma_without_unknown_path(socket.paths@, self.id);
        }
    }
}

/// Leaving out a path that a socket does not have changes nothing.
proof fn lemma_without_unknown_path(paths: Seq<PathEntry>, id: u64)
    requires
        forall|i: int| 0 <= i < paths.len() ==> (#[trigger] paths[i]).id != id,
    ensures
        without_path(paths, id) == paths,
    decreases paths.len(),
{
    reveal(Seq::filter);
    if paths.len() > 0 {
        let last = paths.last();
        assert(paths[paths.len() - 1] == last);
        lemma_without_unknown_path(paths.drop_last(), id);
        assert(paths =~= paths.drop_last().push(last));
    }
}

/// Leaving out the path at `at` keeps every other path, in order.
proof fn lemma_without_path(paths: Seq<PathEntry>, at: int)
    requires
        paths_wf(paths),
        0 <= at < paths.len(),
    ensures
        without_path(paths, paths[at].id) == paths.remove(at),
    decreases paths.len(),
{
    reveal(Seq::filter);
    let id = paths[at].id;
    let start = paths.drop_last();
    if at == paths.len() - 1 {
        lemma_without_unknown_path(start, id);
        assert(paths.remove(at) =~= start);
    } else {
        assert(paths_wf(start));
        lemma_without_path(start, at);
        assert(paths[paths.len() - 1].id != id);
        assert(paths.remove(at) =~= start.remove(at).push(paths.last()));
    }
}

/// Losing a path leaves every other path as it was, route and waiting datagrams included.
pub proof fn law_losing_a_path_keeps_the_others(paths: Seq<PathEntry>, id: u64, other: PathEntry)
    requires
        paths_wf(paths),
    ensures
        without_path(paths, id).contains(other) <==> paths.contains(other) && other.id != id,
{
    let keep = |path: PathEntry| path.id != id;
    if without_path(paths, id).contains(other) {
        paths.lemma_filter_contains_rev(keep, other);
        let at = choose|i: int|
            0 <= i < without_path(paths, id).len() && without_path(paths, id)[i] == other;
        paths.lemma_filter_pred(keep, at);
    }
    if paths.contains(other) && other.id != id {
        let at = choose|i: int| 0 <= i < paths.len() && paths[i] == other;
        paths.lemma_filter_contains(keep, at);
    }
}

/// A path that replaced another on the same address keeps its route when the replaced path is
/// given up late.
pub proof fn law_stale_path_does_not_take_the_route(
    paths: Seq<PathEntry>,
    stale: PathEntry,
    replacement: PathEntry,
)
    requires
        stale.id != replacement.id,
        stale.remote == replacement.remote,
        replacement.routed,
    ensures
        ({
            let left = without_path(with_path(with_path(paths, stale), replacement), stale.id);
            left.contains(replacement) && replacement.is_route_to(stale.remote)
        }),
{
    let both = with_path(with_path(paths, stale), replacement);
    assert(both[both.len() - 1] == replacement);
    both.lemma_filter_contains(|path: PathEntry| path.id != stale.id, both.len() - 1);
}

/// When the path that an address is routed to is given up, nothing is routed to that address any
/// more.
pub proof fn law_lost_route_is_gone(paths: Seq<PathEntry>, at: int)
    requires
        paths_wf(paths),
        0 <= at < paths.len(),
        paths[at].routed,
    ensures
        forall|left: PathEntry| #[trigger]
            without_path(paths, paths[at].id).contains(left) ==> !left.is_route_to(
                paths[at].remote,
            ),
{
    assert forall|left: PathEntry| #[trigger]
        without_path(paths, paths[at].id).contains(left) implies !left.is_route_to(
        paths[at].remote,
    ) by {
        law_losing_a_path_keeps_the_others(paths, paths[at].id, left);
        let i = choose|i: int| 0 <= i < paths.len() && paths[i] == left;
        assert(i != at);
    }
}

/// A new path adds a route if its address had none, and otherwise takes the place of the route
/// there was.
pub proof fn law_new_path_counts_once(paths: Seq<PathEntry>, entry: PathEntry)
    requires
        paths_wf(paths),
        entry.routed,
    ensures
        route_count(with_path(paths, entry)) == route_count(paths) + if exists|i: int|
            0 <= i < paths.len() && (#[trigger] paths[i]).is_route_to(entry.remote) {
            0nat
        } else {
            1nat
        },
{
    let kept = paths.map_values(|path: PathEntry| path.unrouted_from(entry.remote));
    lemma_unrouted_count(paths, entry.remote);
    reveal(Seq::filter);
    assert(with_path(paths, entry).drop_last() =~= kept);
}

/// Giving up a path takes one route away if the path had its route, and none otherwise.
pub proof fn law_lost_path_counts_once(paths: Seq<PathEntry>, at: int)
    requires
        paths_wf(paths),
        0 <= at < paths.len(),
    ensures
        route_count(without_path(paths, paths[at].id)) == route_count(paths) - if paths[at].routed {
            1int
        } else {
            0int
        },
{
    lemma_without_path(paths, at);
    lemma_removed_count(paths, at);
}

proof fn lemma_removed_count(paths: Seq<PathEntry>, at: int)
    requires
        0 <= at < paths.len(),
    ensures
        route_count(paths.remove(at)) == route_count(paths) - if paths[at].routed {
            1int
        } else {
            0int
        },
    decreases paths.len(),
{
    reveal(Seq::filter);
    let start = paths.drop_last();
    if at == paths.len() - 1 {
        assert(paths.remove(at) =~= start);
    } else {
        lemma_removed_count(start, at);
        assert(paths.remove(at).drop_last() =~= start.remove(at));
        assert(paths.remove(at).last() == paths.last());
    }
}

proof fn lemma_unrouted_count(paths: Seq<PathEntry>, remote: SocketAddress)
    requires
        paths_wf(paths),
    ensures
        route_count(paths.map_values(|path: PathEntry| path.unrouted_from(remote)))
            == route_count(paths) - if exists|i: int|
            0 <= i < paths.len() && (#[trigger] paths[i]).is_route_to(remote) {
            1int
        } else {
            0int
        },
    decreases paths.len(),
{
    reveal(Seq::filter);
    let kept = paths.map_values(|path: PathEntry| path.unrouted_from(remote));
    if paths.len() > 0 {
        let start = paths.drop_last();
        let last = paths[paths.len() - 1];
        assert(paths_wf(start));
        lemma_unrouted_count(start, remote);
        assert(kept.drop_last() =~= start.map_values(
            |path: PathEntry| path.unrouted_from(remote),
        ));
        if exists|i: int| 0 <= i < start.len() && (#[trigger] start[i]).is_route_to(remote) {
            let i = choose|i: int| 0 <= i < start.len() && (#[trigger] start[i]).is_route_to(remote);
            assert(paths[i].is_route_to(remote));
            assert(!last.is_route_to(remote));
        } else if last.is_route_to(remote) {
            assert(paths[paths.len() - 1].is_route_to(remote));
        } else {
            assert forall|i: int| 0 <= i < paths.len() implies !(#[trigger] paths[i]).is_route_to(
                remote,
            ) by {
                if i < start.len() {
                    assert(start[i] == paths[i]);
                }
            }
        }
    }
}

/// A datagram that is sent to an address comes out of the path that the address is routed to, with
/// the same bytes whatever its length is, behind the datagrams that waited there before it. It needs
/// only to be no larger than the socket carries and to find room.
pub proof fn law_sent_datagram_comes_out_of_its_path(
    socket: VirtualUdpSocket,
    destination: SocketAddress,
    contents: Seq<u8>,
    sent: Result<(), OversizeDatagram>,
    between: VirtualUdpSocket,
    path: VirtualPath,
    at: int,
    packet: Option<Vec<u8>>,
    after: VirtualUdpSocket,
)
    requires
        socket.sends(destination, contents, sent, between),
        path.takes(between, packet, after),
        contents.len() <= socket.mtu,
        0 <= at < socket.paths@.len(),
        socket.paths@[at].routed,
        socket.paths@[at].remote == destination,
        socket.paths@[at].id == path.id,
        socket.paths@[at].outgoing@.len() < socket.paths@[at].outgoing.spec_capacity(),
    ensures
        sent is Ok,
        ({
            let waited = socket.paths@[at].outgoing@;
            let wait = after.paths@[at].outgoing@;
            &&& packet matches Some(packet)
            &&& waited.len() == 0 ==> packet@ == contents && wait.len() == 0
            &&& waited.len() > 0 ==> {
                &&& packet == waited[0]
                &&& wait.len() == waited.len()
                &&& wait.last()@ == contents
                &&& forall|i: int| 0 <= i < wait.len() - 1 ==> #[trigger] wait[i] == waited[i + 1]
            }
        }),
{
    let waited = socket.paths@[at].outgoing@;
    let then = between.paths@[at].outgoing@;
    assert(between.paths@[at].id == path.id);
    assert forall|i: int| 0 <= i < waited.len() implies then[i] == #[trigger] waited[i] by {
        assert(then.drop_last()[i] == waited[i]);
    }
}

/// A datagram goes through no path that its destination is not routed to, and one that is larger
/// than the socket carries goes through none: it is refused with its length and what is carried.
pub proof fn law_datagram_takes_no_other_path(
    socket: VirtualUdpSocket,
    destination: SocketAddress,
    contents: Seq<u8>,
    sent: Result<(), OversizeDatagram>,
    after: VirtualUdpSocket,
    at: int,
)
    requires
        socket.sends(destination, contents, sent, after),
        0 <= at < socket.paths@.len(),
    ensures
        !socket.paths@[at].routed || socket.paths@[at].remote != destination || contents.len()
            > socket.mtu ==> after.paths@[at] == socket.paths@[at],
        contents.len() > socket.mtu <==> sent is Err,
        sent matches Err(oversize) ==> oversize.actual == contents.len() as usize && oversize.mtu
            == socket.mtu,
{
}

/// A datagram that a path received is read from the socket, as far as the buffer holds it, as coming
/// from that path's address and as sent to the socket's own. Datagrams are read in the order in
/// which they were received.
pub proof fn law_received_datagram_is_read(
    socket: VirtualUdpSocket,
    path: VirtualPath,
    payload: Seq<u8>,
    between: VirtualUdpSocket,
    buffers: usize,
    metas: usize,
    buffer_len: usize,
    received: SocketReceive,
    after: VirtualUdpSocket,
)
    requires
        path.receives(socket, between, payload),
        between.reads(buffers, metas, buffer_len, received, after),
        payload.len() <= path.mtu,
        !socket.closed,
        socket.incoming@.len() < socket.incoming.spec_capacity(),
        buffers > 0,
        metas > 0,
    ensures
        received matches SocketReceive::Datagram { bytes, meta } && {
            &&& meta.len == bytes@.len() && meta.stride == bytes@.len()
            &&& meta.dst_ip == match socket.local_addr {
                SocketAddress::V4 { ip, .. } => IpAddress::V4(ip),
                SocketAddress::V6 { ip, .. } => IpAddress::V6(ip),
            }
            &&& if socket.incoming@.len() == 0 {
                &&& meta.addr == path.remote
                &&& payload.len() <= buffer_len ==> bytes@ == payload
                &&& payload.len() > buffer_len ==> bytes@ == payload.take(buffer_len as int)
                &&& after.incoming@.len() == 0
            } else {
                let first = socket.incoming@[0];
                &&& meta.addr == first.remote
                &&& first.payload@.len() <= buffer_len ==> bytes@ == first.payload@
                &&& after.incoming@.len() == socket.incoming@.len()
                &&& after.incoming@.last().remote == path.remote
                &&& after.incoming@.last().payload@ == payload
            }
        },
{
    let then = between.incoming@;
    if socket.incoming@.len() > 0 {
        assert(then.drop_last()[0] == socket.incoming@[0]);
    }
    assert(then[0].payload@.take(then[0].payload@.len() as int) =~= then[0].payload@);
}

/// Nothing is read without a buffer or a place to describe a datagram, and nothing has arrived
/// exactly if no datagram waits; neither changes what waits.
pub proof fn law_when_nothing_is_read(
    socket: VirtualUdpSocket,
    buffers: usize,
    metas: usize,
    buffer_len: usize,
    received: SocketReceive,
    after: VirtualUdpSocket,
)
    requires
        socket.reads(buffers, metas, buffer_len, received, after),
    ensures
        received is NoBuffer <==> buffers == 0 || metas == 0,
        received is Pending <==> buffers > 0 && metas > 0 && socket.incoming@.len() == 0,
        received !is Datagram ==> after.incoming@ == socket.incoming@,
{
}

/// A datagram from the peer enters the socket exactly if it is no larger than the path carries and
/// finds the socket open and with room; otherwise the reason is named.
pub proof fn law_what_a_path_lets_in(path: VirtualPath, socket: VirtualUdpSocket, length: nat)
    ensures
        match path.receive_result(socket, length) {
            Ok(_) => length <= path.mtu && !socket.closed && socket.incoming@.len()
                != socket.incoming.spec_capacity(),
            Err(PathReceiveError::Oversize { actual, mtu }) => length > path.mtu && actual
                == length as usize && mtu == path.mtu,
            Err(PathReceiveError::Closed) => length <= path.mtu && socket.closed,
            Err(PathReceiveError::QueueFull) => length <= path.mtu && !socket.closed
                && socket.incoming@.len() == socket.incoming.spec_capacity(),
        },
{
}

/// A new path has the route to its address, and takes it from every other path. What else there is
/// to a path stays as it was: its number, its address and what waits to be sent through it, and its
/// route if it is to another address.
pub proof fn law_new_path_takes_only_the_route(paths: Seq<PathEntry>, entry: PathEntry, at: int)
    requires
        0 <= at < paths.len(),
    ensures
        with_path(paths, entry).len() == paths.len() + 1,
        with_path(paths, entry).last() == entry,
        ({
            let (before, after) = (paths[at], with_path(paths, entry)[at]);
            &&& after.id == before.id
            &&& after.remote == before.remote
            &&& after.outgoing == before.outgoing
            &&& after.routed <==> before.routed && before.remote != entry.remote
        }),
{
}

/// Each path that is routed counts for one route, and no other path counts.
pub proof fn law_every_route_is_counted(paths: Seq<PathEntry>, path: PathEntry)
    ensures
        route_count(Seq::empty()) == 0,
        route_count(paths.push(path)) == route_count(paths) + if path.routed {
            1nat
        } else {
            0nat
        },
{
    reveal(Seq::filter);
    assert(paths.push(path).drop_last() =~= paths);
}

/// What is sent to an address goes through the path that was opened to it last, whatever paths there
/// were before, and comes out of that path as it was sent.
pub proof fn law_last_path_carries_what_is_sent(
    socket: VirtualUdpSocket,
    remote: SocketAddress,
    queue_capacity: usize,
    path: VirtualPath,
    opened: VirtualUdpSocket,
    contents: Seq<u8>,
    sent: Result<(), OversizeDatagram>,
    between: VirtualUdpSocket,
    packet: Option<Vec<u8>>,
    after: VirtualUdpSocket,
)
    requires
        queue_capacity > 0,
        contents.len() <= socket.mtu,
        socket.opens(remote, queue_capacity, path, opened),
        opened.sends(remote, contents, sent, between),
        path.takes(between, packet, after),
    ensures
        sent is Ok,
        packet matches Some(packet) && packet@ == contents,
        forall|i: int|
            0 <= i < socket.paths@.len() ==> (#[trigger] between.paths@[i]).outgoing
                == socket.paths@[i].outgoing,
{
    let entry = choose|entry: PathEntry|
        opened.paths@ == #[trigger] with_path(socket.paths@, entry) && entry.id == path.id
            && entry.remote == remote && entry.routed && entry.outgoing@.len() == 0
            && entry.outgoing.spec_capacity() == queue_capacity;
    let at = socket.paths@.len() as int;
    assert(opened.paths@[at] == entry);
    law_sent_datagram_comes_out_of_its_path(
        opened,
        remote,
        contents,
        sent,
        between,
        path,
        at,
        packet,
        after,
    );
    assert forall|i: int| 0 <= i < socket.paths@.len() implies (
    #[trigger] between.paths@[i]).outgoing == socket.paths@[i].outgoing by {
        law_new_path_takes_only_the_route(socket.paths@, entry, i);
        assert(!opened.paths@[i].is_route_to(remote));
    }
}

/// A path that is opened lets in every datagram that the socket carries, as long as the socket is
/// open and has room, and the socket then sees it come from the address that the path was opened to.
/// No path that was there before has its number.
pub proof fn law_new_path_lets_in_what_the_socket_carries(
    socket: VirtualUdpSocket,
    remote: SocketAddress,
    queue_capacity: usize,
    path: VirtualPath,
    opened: VirtualUdpSocket,
    payload: Seq<u8>,
    after: VirtualUdpSocket,
)
    requires
        socket.wf(),
        socket.opens(remote, queue_capacity, path, opened),
        path.receives(opened, after, payload),
        payload.len() <= socket.mtu,
        !socket.closed,
        socket.incoming@.len() < socket.incoming.spec_capacity(),
    ensures
        after.incoming@.len() == socket.incoming@.len() + 1,
        after.incoming@.last().remote == remote,
        after.incoming@.last().payload@ == payload,
        forall|i: int| 0 <= i < socket.paths@.len() ==> (#[trigger] socket.paths@[i]).id != path.id,
{
}

} // verus!
