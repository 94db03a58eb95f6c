//! The SOCKS5 handshake that routes a stream to its target.
//!
//! The stream belongs to the caller, which writes and reads exactly what [`Socks5Handshake`] asks
//! for. What follows the server's reply on the stream is left untouched.
use vstd::prelude::*;

use crate::addr::SocketAddress;
use crate::consumer_quic::ConsumerQuicError;

verus! {

/// Where a stream is to be routed.
#[derive(Debug, Clone, PartialEq, Eq)]
pub enum Socks5Target {
    Ip(SocketAddress),
    Domain { host: String, port: u16 },
}

impl From<SocketAddress> for Socks5Target {
    fn from(value: SocketAddress) -> (target: Socks5Target) {
        Socks5Target::Ip(value)
    }
}

impl vstd::std_specs::convert::FromSpecImpl<SocketAddress> for Socks5Target {
    open spec fn obeys_from_spec() -> bool {
        true
    }

    open spec fn from_spec(value: SocketAddress) -> Socks5Target {
        Socks5Target::Ip(value)
    }
}

/// Why a stream could not be routed.
#[derive(Debug, PartialEq, Eq)]
pub enum ConsumerSocks5Error {
    Quic(ConsumerQuicError),
    Cancelled,
    Io(String),
    /// The domain has this many bytes, more than a request holds.
    DomainTooLong(usize),
    EmptyDomain,
    UnsupportedAuth(u8),
    InvalidVersion(u8),
    ConnectRejected(u8),
    InvalidReserved(u8),
    InvalidAddressType(u8),
}

/// The error of a stream that could not be opened. A cancellation stays a cancellation.
pub fn open_failed(error: ConsumerQuicError) -> (failed: ConsumerSocks5Error)
    ensures
        failed == (if error is Cancelled {
            ConsumerSocks5Error::Cancelled
        } else {
            ConsumerSocks5Error::Quic(error)
        }),
{
    match error {
        ConsumerQuicError::Cancelled => ConsumerSocks5Error::Cancelled,
        error => ConsumerSocks5Error::Quic(error),
    }
}

/// The last `count` base-256 digits of `number`, most significant first.
pub open spec fn be_bytes(number: nat, count: nat) -> Seq<u8>
    decreases count,
{
    if count == 0 {
        Seq::empty()
    } else {
        be_bytes(number / 256, (count - 1) as nat).push((number % 256) as u8)
    }
}

/// The number that `bytes` spell in base 256, most significant first.
pub open spec fn be_value(bytes: Seq<u8>) -> nat
    decreases bytes.len(),
{
    if bytes.len() == 0 {
        0
    } else {
        be_value(bytes.drop_last()) * 256 + bytes.last() as nat
    }
}

/// The last `count` base-256 digits of `number`, most significant first.
fn write_be(number: u128, count: usize) -> (bytes: Vec<u8>)
    ensures
        bytes@ == be_bytes(number as nat, count as nat),
    decreases count,
{
    if count == 0 {
        Vec::new()
    } else {
        let mut bytes = write_be(number / 256, count - 1);
        bytes.push((number % 256) as u8);
        bytes
    }
}

/// The greeting that offers no authentication.
pub open spec fn greeting() -> Seq<u8> {
    seq![0x05, 0x01, 0x00]
}

/// The request to connect to `target`, or the reason why there is none: an address or a domain
/// name, then the port.
pub open spec fn request(target: Socks5Target) -> Result<Seq<u8>, ConsumerSocks5Error> {
    match target {
        Socks5Target::Ip(SocketAddress::V4 { ip, port }) => Ok(
            seq![0x05u8, 0x01, 0x00, 0x01] + be_bytes(ip as nat, 4) + be_bytes(port as nat, 2),
        ),
        Socks5Target::Ip(SocketAddress::V6 { ip, port, .. }) => Ok(
            seq![0x05u8, 0x01, 0x00, 0x04] + be_bytes(ip as nat, 16) + be_bytes(port as nat, 2),
        ),
        Socks5Target::Domain { host, port } => {
            let name = vstd::utf8::encode_utf8(host@);
            if host@.len() == 0 {
                Err(ConsumerSocks5Error::EmptyDomain)
            } else if name.len() > 255 {
                Err(ConsumerSocks5Error::DomainTooLong(name.len() as usize))
            } else {
                Ok(
                    seq![0x05u8, 0x01, 0x00, 0x03, name.len() as u8] + name + be_bytes(
                        port as nat,
                        2,
                    ),
                )
            }
        },
    }
}

/// The request to connect to `target`.
fn write_request(target: &Socks5Target) -> (written: Result<Vec<u8>, ConsumerSocks5Error>)
    ensures
        match request(*target) {
            Ok(bytes) => written matches Ok(written) && written@ == bytes,
            Err(error) => written == Err::<Vec<u8>, ConsumerSocks5Error>(error),
        },
{
    match target {
        Socks5Target::Ip(SocketAddress::V4 { ip, port }) => {
            let mut bytes: Vec<u8> = vec![0x05, 0x01, 0x00, 0x01];
            bytes.append(&mut write_be(*ip as u128, 4));
            bytes.append(&mut write_be(*port as u128, 2));
            Ok(bytes)
        },
        Socks5Target::Ip(SocketAddress::V6 { ip, port, .. }) => {
            let mut bytes: Vec<u8> = vec![0x05, 0x01, 0x00, 0x04];
            bytes.append(&mut write_be(*ip, 16));
            bytes.append(&mut write_be(*port as u128, 2));
            Ok(bytes)
        },
        Socks5Target::Domain { host, port } => {
            if host.as_str().is_empty() {
                return Err(ConsumerSocks5Error::EmptyDomain);
            }
            let name = host.as_str().as_bytes();
            if name.len() > 255 {
                return Err(ConsumerSocks5Error::DomainTooLong(name.len()));
            }
            let mut bytes: Vec<u8> = vec![0x05, 0x01, 0x00, 0x03, name.len() as u8];
            bytes.extend_from_slice(name);
            bytes.append(&mut write_be(*port as u128, 2));
            Ok(bytes)
        },
    }
}

/// What the handshake waits for.
#[derive(Debug, Clone, Copy, PartialEq, Eq, Structural)]
pub enum Socks5Stage {
    /// The authentication method that the server selects.
    AwaitingMethod,
    /// The start of the server's reply, up to the kind of its bound address.
    AwaitingReply,
    /// The length of a domain name in the reply.
    AwaitingDomainLength,
    /// The rest of the reply: this many bytes.
    AwaitingBound(usize),
    Finished,
}

impl Socks5Stage {
    /// The number of bytes that are read at this stage.
    pub open spec fn wanted(self) -> nat {
        match self {
            Socks5Stage::AwaitingMethod => 2,
            Socks5Stage::AwaitingReply => 4,
            Socks5Stage::AwaitingDomainLength => 1,
            Socks5Stage::AwaitingBound(length) => length as nat,
            Socks5Stage::Finished => 0,
        }
    }
}

/// Where the bytes that were read lead to.
#[derive(Debug, PartialEq, Eq)]
pub enum Socks5Progress {
    /// To another stage.
    Next(Socks5Stage),
    /// To the end of the handshake.
    Done(Result<(), ConsumerSocks5Error>),
}

/// Where `bytes`, as many as the stage wants, lead to. The server must answer every message in
/// protocol version 5, without authentication, with success, with a zero in the reserved place and
/// with an address of a known kind. Its bound address and port are read and not looked at.
pub open spec fn advance(stage: Socks5Stage, target: Socks5Target, bytes: Seq<u8>) -> Socks5Progress {
    match stage {
        Socks5Stage::AwaitingMethod => if bytes[0] != 0x05 {
            Socks5Progress::Done(Err(ConsumerSocks5Error::InvalidVersion(bytes[0])))
        } else if bytes[1] != 0x00 {
            Socks5Progress::Done(Err(ConsumerSocks5Error::UnsupportedAuth(bytes[1])))
        } else {
            match request(target) {
                Ok(_) => Socks5Progress::Next(Socks5Stage::AwaitingReply),
                Err(error) => Socks5Progress::Done(Err(error)),
            }
        },
        Socks5Stage::AwaitingReply => if bytes[0] != 0x05 {
            Socks5Progress::Done(Err(ConsumerSocks5Error::InvalidVersion(bytes[0])))
        } else if bytes[1] != 0x00 {
            Socks5Progress::Done(Err(ConsumerSocks5Error::ConnectRejected(bytes[1])))
        } else if bytes[2] != 0x00 {
            Socks5Progress::Done(Err(ConsumerSocks5Error::InvalidReserved(bytes[2])))
        } else if bytes[3] == 0x01 {
            Socks5Progress::Next(Socks5Stage::AwaitingBound(6))
        } else if bytes[3] == 0x04 {
            Socks5Progress::Next(Socks5Stage::AwaitingBound(18))
        } else if bytes[3] == 0x03 {
            Socks5Progress::Next(Socks5Stage::AwaitingDomainLength)
        } else {
            Socks5Progress::Done(Err(ConsumerSocks5Error::InvalidAddressType(bytes[3])))
        },
        Socks5Stage::AwaitingDomainLength => Socks5Progress::Next(
            Socks5Stage::AwaitingBound((bytes[0] + 2) as usize),
        ),
        Socks5Stage::AwaitingBound(_) | Socks5Stage::Finished => Socks5Progress::Done(Ok(())),
    }
}

/// What happens on the stream.
#[derive(Debug)]
pub enum Socks5Event {
    Read(Vec<u8>),
    IoFailed(String),
    Cancelled,
}

/// What the handshake does next.
#[derive(Debug, PartialEq, Eq)]
pub enum Socks5Action {
    /// Write `bytes`, then read this many bytes.
    Send { bytes: Vec<u8>, read: usize },
    /// Read this many bytes.
    Read(usize),
    /// The stream is ready for the application, or there is none.
    Finish(Result<(), ConsumerSocks5Error>),
    /// Nothing: the event does not belong to what the handshake waits for.
    Ignore,
}

/// A handshake for a target.
#[derive(Debug, PartialEq, Eq)]
pub struct Socks5Handshake {
    pub target: Socks5Target,
    pub stage: Socks5Stage,
}

impl Socks5Handshake {
    /// The stage after `event`.
    pub open spec fn spec_next(self, event: Socks5Event) -> Socks5Stage {
        match (self.stage, event) {
            (Socks5Stage::Finished, _) => self.stage,
            (_, Socks5Event::IoFailed(_) | Socks5Event::Cancelled) => Socks5Stage::Finished,
            (_, Socks5Event::Read(bytes)) => if bytes@.len() != self.stage.wanted() {
                self.stage
            } else {
                match advance(self.stage, self.target, bytes@) {
                    Socks5Progress::Next(stage) => stage,
                    Socks5Progress::Done(_) => Socks5Stage::Finished,
                }
            },
        }
    }

    /// Whether `action` is what the handshake does on `event`: it writes the request once the
    /// server has selected its method, and otherwise reads what the next stage wants.
    pub open spec fn performs(self, event: Socks5Event, action: Socks5Action) -> bool {
        match (self.stage, event) {
            (Socks5Stage::Finished, _) => action is Ignore,
            (_, Socks5Event::IoFailed(error)) => action == Socks5Action::Finish(
                Err(ConsumerSocks5Error::Io(error)),
            ),
            (_, Socks5Event::Cancelled) => action == Socks5Action::Finish(
                Err(ConsumerSocks5Error::Cancelled),
            ),
            (_, Socks5Event::Read(bytes)) => if bytes@.len() != self.stage.wanted() {
                action is Ignore
            } else {
                match advance(self.stage, self.target, bytes@) {
                    Socks5Progress::Done(result) => action == Socks5Action::Finish(result),
                    Socks5Progress::Next(stage) => if self.stage is AwaitingMethod {
                        &&& action matches Socks5Action::Send { bytes, read }
                        &&& Ok::<Seq<u8>, ConsumerSocks5Error>(bytes@) == request(self.target)
                        &&& read == stage.wanted()
                    } else {
                        action matches Socks5Action::Read(read) && read == stage.wanted()
                    },
                }
            },
        }
    }

    /// Decides what the handshake does on `event`.
    pub fn step(self, event: Socks5Event) -> (next: (Socks5Handshake, Socks5Action))
        ensures
            next.0 == (Socks5Handshake { target: self.target, stage: self.spec_next(event) }),
            self.performs(event, next.1),
    {
        let target = self.target;
        let bytes = match event {
            Socks5Event::Read(bytes) => bytes,
            Socks5Event::IoFailed(error) => {
                return Socks5Handshake::interrupt(
                    target,
                    self.stage,
                    ConsumerSocks5Error::Io(error),
                );
            },
            Socks5Event::Cancelled => {
                return Socks5Handshake::interrupt(
                    target,
                    self.stage,
                    ConsumerSocks5Error::Cancelled,
                );
            },
        };
        match self.stage {
            Socks5Stage::AwaitingMethod if bytes.len() == 2 => {
                if bytes[0] != 0x05 {
                    return Socks5Handshake::fail(
                        target,
                        ConsumerSocks5Error::InvalidVersion(bytes[0]),
                    );
                }
                if bytes[1] != 0x00 {
                    return Socks5Handshake::fail(
                        target,
                        ConsumerSocks5Error::UnsupportedAuth(bytes[1]),
                    );
                }
                match write_request(&target) {
                    Ok(request) => (
                        Socks5Handshake { target, stage: Socks5Stage::AwaitingReply },
                        Socks5Action::Send { bytes: request, read: 4 },
                    ),
                    Err(error) => Socks5Handshake::fail(target, error),
                }
            },
            Socks5Stage::AwaitingReply if bytes.len() == 4 => {
                if bytes[0] != 0x05 {
                    return Socks5Handshake::fail(
                        target,
                        ConsumerSocks5Error::InvalidVersion(bytes[0]),
                    );
                }
                if bytes[1] != 0x00 {
                    return Socks5Handshake::fail(
                        target,
                        ConsumerSocks5Error::ConnectRejected(bytes[1]),
                    );
                }
                if bytes[2] != 0x00 {
                    return Socks5Handshake::fail(
                        target,
                        ConsumerSocks5Error::InvalidReserved(bytes[2]),
                    );
                }
                match bytes[3] {
                    0x01 => (
                        Socks5Handshake { target, stage: Socks5Stage::AwaitingBound(6) },
                        Socks5Action::Read(6),
                    ),
                    0x04 => (
                        Socks5Handshake { target, stage: Socks5Stage::AwaitingBound(18) },
                        Socks5Action::Read(18),
                    ),
                    0x03 => (
                        Socks5Handshake { target, stage: Socks5Stage::AwaitingDomainLength },
                        Socks5Action::Read(1),
                    ),
                    kind => Socks5Handshake::fail(
                        target,
                        ConsumerSocks5Error::InvalidAddressType(kind),
                    ),
                }
            },
            Socks5Stage::AwaitingDomainLength if bytes.len() == 1 => {
                let length: usize = bytes[0] as usize + 2;
                (
                    Socks5Handshake { target, stage: Socks5Stage::AwaitingBound(length) },
                    Socks5Action::Read(length),
                )
            },
            Socks5Stage::AwaitingBound(length) if bytes.len() == length => (
                Socks5Handshake { target, stage: Socks5Stage::Finished },
                Socks5Action::Finish(Ok(())),
            ),
            stage => (Socks5Handshake { target, stage }, Socks5Action::Ignore),
        }
    }

    fn fail(target: Socks5Target, error: ConsumerSocks5Error) -> (next: (
        Socks5Handshake,
        Socks5Action,
    ))
        ensures
            next.0 == (Socks5Handshake { target, stage: Socks5Stage::Finished }),
            next.1 == Socks5Action::Finish(Err(error)),
    {
        (
            Socks5Handshake { target, stage: Socks5Stage::Finished },
            Socks5Action::Finish(Err(error)),
        )
    }

    /// Ends a handshake that has not ended yet.
    fn interrupt(target: Socks5Target, stage: Socks5Stage, error: ConsumerSocks5Error) -> (next: (
        Socks5Handshake,
        Socks5Action,
    ))
        ensures
            next.0 == (Socks5Handshake { target, stage: Socks5Stage::Finished }),
            next.1 == (if stage is Finished {
                Socks5Action::Ignore
            } else {
                Socks5Action::Finish(Err(error))
            }),
    {
        match stage {
            Socks5Stage::Finished => (
                Socks5Handshake { target, stage: Socks5Stage::Finished },
                Socks5Action::Ignore,
            ),
            _ => Socks5Handshake::fail(target, error),
        }
    }
}

/// Starts a handshake for `target` with the greeting.
pub fn socks5_connect(target: Socks5Target) -> (started: (Socks5Handshake, Socks5Action))
    ensures
        started.0 == (Socks5Handshake { target, stage: Socks5Stage::AwaitingMethod }),
        started.1 matches Socks5Action::Send { bytes, read } && bytes@ == greeting() && read == 2,
{
    (
        Socks5Handshake { target, stage: Socks5Stage::AwaitingMethod },
        Socks5Action::Send { bytes: vec![0x05, 0x01, 0x00], read: 2 },
    )
}

/// How the handshake comes out on what the server writes, and how many bytes of it are read.
/// `None` says that the server has not written enough.
pub open spec fn handshake(stage: Socks5Stage, target: Socks5Target, written: Seq<u8>) -> Option<
    (Result<(), ConsumerSocks5Error>, nat),
>
    decreases stages_left(stage),
{
    let wanted = stage.wanted();
    if written.len() < wanted {
        None
    } else {
        match advance(stage, target, written.take(wanted as int)) {
            Socks5Progress::Done(result) => Some((result, wanted)),
            Socks5Progress::Next(next) => match handshake(
                next,
                target,
                written.skip(wanted as int),
            ) {
                Some((result, read)) => Some((result, wanted + read)),
                None => None,
            },
        }
    }
}

/// The number of stages that can follow.
pub open spec fn stages_left(stage: Socks5Stage) -> nat {
    match stage {
        Socks5Stage::AwaitingMethod => 4,
        Socks5Stage::AwaitingReply => 3,
        Socks5Stage::AwaitingDomainLength => 2,
        Socks5Stage::AwaitingBound(_) => 1,
        Socks5Stage::Finished => 0,
    }
}

/// The length of a successful reply with a bound address of the given kind. The length of a
/// domain name follows the kind.
pub open spec fn reply_length(kind: u8, domain_length: u8) -> int {
    if kind == 0x01 {
        10
    } else if kind == 0x04 {
        22
    } else {
        7 + domain_length
    }
}

/// Whether `reply` is a whole reply of success, whatever its bound address is.
pub open spec fn is_success(reply: Seq<u8>) -> bool {
    &&& reply.len() >= 5
    &&& reply[0] == 0x05 && reply[1] == 0x00 && reply[2] == 0x00
    &&& reply[3] == 0x01 || reply[3] == 0x03 || reply[3] == 0x04
    &&& reply.len() == reply_length(reply[3], reply[4])
}

/// After a successful reply the stream is ready, and exactly the server's answers have been read:
/// the first byte that the application reads is the first byte after them.
pub proof fn law_handshake_reads_exactly_the_reply(
    target: Socks5Target,
    reply: Seq<u8>,
    application: Seq<u8>,
)
    requires
        request(target) is Ok,
        is_success(reply),
    ensures
        handshake(
            Socks5Stage::AwaitingMethod,
            target,
            seq![0x05u8, 0x00] + reply + application,
        ) == Some((Ok::<(), ConsumerSocks5Error>(()), 2 + reply.len())),
{
    let written = seq![0x05u8, 0x00] + reply + application;
    let after_method = written.skip(2);
    let after_start = after_method.skip(4);
    assert(after_method =~= reply + application);
    assert(after_start =~= reply.skip(4) + application);
    reveal_with_fuel(handshake, 4);
    assert(written.take(2) =~= seq![0x05u8, 0x00]);
    assert(after_method.take(4) =~= reply.take(4));
    if reply[3] == 0x03 {
        let after_length = after_start.skip(1);
        assert(after_start.take(1)[0] == reply[4]);
        assert(after_length =~= reply.skip(5) + application);
    }
}

/// A domain without a name, or with one that a request cannot hold, is turned away before the
/// request is written.
pub proof fn law_unusable_domain_is_never_requested(
    host: String,
    port: u16,
    method: Vec<u8>,
    action: Socks5Action,
)
    requires
        method@ == seq![0x05u8, 0x00],
        host@.len() == 0 || vstd::utf8::encode_utf8(host@).len() > 255,
        (Socks5Handshake {
            target: Socks5Target::Domain { host, port },
            stage: Socks5Stage::AwaitingMethod,
        }).performs(Socks5Event::Read(method), action),
    ensures
        action matches Socks5Action::Finish(
            Err(ConsumerSocks5Error::EmptyDomain | ConsumerSocks5Error::DomainTooLong(_)),
        ),
{
}

/// Big-endian bytes spell the number that they were made from, if there are enough of them.
pub proof fn law_be_bytes_spell_the_number(number: nat, count: nat)
    requires
        number < vstd::arithmetic::power::pow(256, count),
    ensures
        be_bytes(number, count).len() == count,
        be_value(be_bytes(number, count)) == number,
    decreases count,
{
    reveal(vstd::arithmetic::power::pow);
    if count > 0 {
        let fewer = (count - 1) as nat;
        let start = be_bytes(number / 256, fewer);
        assert(number / 256 < vstd::arithmetic::power::pow(256, fewer));
        law_be_bytes_spell_the_number(number / 256, fewer);
        assert(be_bytes(number, count).drop_last() =~= start);
    }
}

/// The request for an IPv4 or IPv6 target spells its address and its port.
pub proof fn law_request_spells_the_address(target: Socks5Target)
    requires
        target is Ip,
    ensures
        request(target) matches Ok(bytes) && match target {
            Socks5Target::Ip(SocketAddress::V4 { ip, port }) => bytes.len() == 10 && be_value(
                bytes.subrange(4, 8),
            ) == ip && be_value(bytes.subrange(8, 10)) == port,
            Socks5Target::Ip(SocketAddress::V6 { ip, port, .. }) => bytes.len() == 22 && be_value(
                bytes.subrange(4, 20),
            ) == ip && be_value(bytes.subrange(20, 22)) == port,
            _ => false,
        },
{
    assert(vstd::arithmetic::power::pow(256, 2) == 0x1_0000
        && vstd::arithmetic::power::pow(256, 4) == 0x1_0000_0000
        && vstd::arithmetic::power::pow(256, 16)
        == 0x1_0000_0000_0000_0000_0000_0000_0000_0000int) by {
        reveal_with_fuel(vstd::arithmetic::power::pow, 17);
    }
    let bytes = request(target)->Ok_0;
    match target {
        Socks5Target::Ip(SocketAddress::V4 { ip, port }) => {
            law_be_bytes_spell_the_number(ip as nat, 4);
            law_be_bytes_spell_the_number(port as nat, 2);
            assert(bytes.subrange(4, 8) =~= be_bytes(ip as nat, 4));
            assert(bytes.subrange(8, 10) =~= be_bytes(port as nat, 2));
        },
        Socks5Target::Ip(SocketAddress::V6 { ip, port, .. }) => {
            law_be_bytes_spell_the_number(ip as nat, 16);
            law_be_bytes_spell_the_number(port as nat, 2);
            assert(bytes.subrange(4, 20) =~= be_bytes(ip as nat, 16));
            assert(bytes.subrange(20, 22) =~= be_bytes(port as nat, 2));
        },
        _ => {},
    }
}

proof fn lemma_two_bytes_spell(number: nat)
    requires
        number < 0x1_0000,
    ensures
        be_bytes(number, 2).len() == 2,
        be_bytes(number, 2)[0] as int * 256 + be_bytes(number, 2)[1] as int == number,
{
    reveal_with_fuel(be_bytes, 3);
    assert(be_bytes(number, 2) =~= seq![(number / 256 % 256) as u8, (number % 256) as u8]);
}

/// Every request asks in version 5 for a connection, with a zero in the reserved place and then the
/// kind of its target, and ends with the port, high byte first, whatever the port is.
pub proof fn law_request_ends_with_the_port(target: Socks5Target)
    ensures
        request(target) matches Ok(bytes) ==> {
            &&& bytes.len() >= 7
            &&& bytes[0] == 5
            &&& bytes[1] == 1
            &&& bytes[2] == 0
            &&& bytes[bytes.len() - 2] as int * 256 + bytes[bytes.len() - 1] as int == match target {
                Socks5Target::Ip(SocketAddress::V4 { port, .. }) => port as int,
                Socks5Target::Ip(SocketAddress::V6 { port, .. }) => port as int,
                Socks5Target::Domain { port, .. } => port as int,
            }
            &&& bytes[3] == match target {
                Socks5Target::Ip(SocketAddress::V4 { .. }) => 1u8,
                Socks5Target::Ip(SocketAddress::V6 { .. }) => 4u8,
                Socks5Target::Domain { .. } => 3u8,
            }
        },
{
    let port = match target {
        Socks5Target::Ip(SocketAddress::V4 { port, .. }) => port as nat,
        Socks5Target::Ip(SocketAddress::V6 { port, .. }) => port as nat,
        Socks5Target::Domain { port, .. } => port as nat,
    };
    lemma_two_bytes_spell(port);
    if target is Ip {
        law_request_spells_the_address(target);
    }
}

/// A name of 1 to 255 bytes is requested as it is: the request holds its length, then its bytes,
/// and then the port as it was given.
pub proof fn law_request_spells_the_domain(host: String, port: u16)
    requires
        host@.len() > 0,
        vstd::utf8::encode_utf8(host@).len() <= 255,
    ensures
        ({
            let name = vstd::utf8::encode_utf8(host@);
            &&& request(Socks5Target::Domain { host, port }) matches Ok(bytes)
            &&& bytes.len() == name.len() + 7
            &&& bytes.take(4) == seq![5u8, 1, 0, 3]
            &&& bytes[4] as int == name.len()
            &&& bytes.subrange(5, 5 + name.len() as int) == name
            &&& bytes[5 + name.len() as int] as int * 256 + bytes[6 + name.len() as int] as int == port
        }),
{
    let name = vstd::utf8::encode_utf8(host@);
    let bytes = request(Socks5Target::Domain { host, port })->Ok_0;
    lemma_two_bytes_spell(port as nat);
    assert(bytes.take(4) =~= seq![5u8, 1, 0, 3]);
    assert(bytes.subrange(5, 5 + name.len() as int) =~= name);
}

/// There is no request for a domain without a name or with more than 255 bytes, and for every other
/// target there is one.
pub proof fn law_which_targets_can_be_requested(target: Socks5Target)
    ensures
        request(target) == Err::<Seq<u8>, ConsumerSocks5Error>(ConsumerSocks5Error::EmptyDomain)
            <==> (target matches Socks5Target::Domain { host, .. } && host@.len() == 0),
        request(target) matches Err(error) ==> match error {
            ConsumerSocks5Error::EmptyDomain => true,
            ConsumerSocks5Error::DomainTooLong(length) => target matches Socks5Target::Domain {
                host,
                ..
            } && (vstd::utf8::encode_utf8(host@).len() > 255 && length
                == vstd::utf8::encode_utf8(host@).len() as usize),
            _ => false,
        },
        target matches Socks5Target::Domain { host, .. } && vstd::utf8::encode_utf8(host@).len()
            > 255 ==> request(target) is Err,
        target is Ip ==> request(target) is Ok,
{
    if let Socks5Target::Domain { host, .. } = target {
        if host@.len() == 0 {
            reveal_with_fuel(vstd::utf8::encode_utf8, 2);
        }
    }
}

/// Two targets with the same request are the same, but for what only an IPv6 address has besides
/// its bytes and its port.
pub proof fn law_request_tells_the_target(a: Socks5Target, b: Socks5Target)
    requires
        request(a) is Ok,
        request(a) == request(b),
    ensures
        match (a, b) {
            (
                Socks5Target::Ip(SocketAddress::V4 { ip, port }),
                Socks5Target::Ip(SocketAddress::V4 { ip: other_ip, port: other_port }),
            ) => ip == other_ip && port == other_port,
            (
                Socks5Target::Ip(SocketAddress::V6 { ip, port, .. }),
                Socks5Target::Ip(SocketAddress::V6 { ip: other_ip, port: other_port, .. }),
            ) => ip == other_ip && port == other_port,
            (
                Socks5Target::Domain { host, port },
                Socks5Target::Domain { host: other_host, port: other_port },
            ) => vstd::utf8::encode_utf8(host@) == vstd::utf8::encode_utf8(other_host@) && port
                == other_port,
            _ => false,
        },
{
    law_request_ends_with_the_port(a);
    law_request_ends_with_the_port(b);
    match (a, b) {
        (Socks5Target::Ip(_), Socks5Target::Ip(_)) => {
            law_request_spells_the_address(a);
            law_request_spells_the_address(b);
        },
        (
            Socks5Target::Domain { host, port },
            Socks5Target::Domain { host: other_host, port: other_port },
        ) => {
            law_request_spells_the_domain(host, port);
            law_request_spells_the_domain(other_host, other_port);
        },
        _ => {},
    }
}

/// The greeting offers one method in version 5, and that method is no authentication.
pub proof fn law_greeting_offers_one_method()
    ensures
        greeting().len() == 2 + greeting()[1],
        greeting()[0] == 5,
        greeting()[1] == 1,
        greeting()[2] == 0,
{
}

/// One step of a handshake: what happened, and what the handshake did.
#[derive(Debug)]
pub struct Socks5Step {
    pub event: Socks5Event,
    pub action: Socks5Action,
}

/// The handshake after `steps`, from its start on.
pub open spec fn handshake_after(target: Socks5Target, steps: Seq<Socks5Step>) -> Socks5Handshake
    decreases steps.len(),
{
    if steps.len() == 0 {
        Socks5Handshake { target, stage: Socks5Stage::AwaitingMethod }
    } else {
        let before = handshake_after(target, steps.drop_last());
        Socks5Handshake { target, stage: before.spec_next(steps.last().event) }
    }
}

/// Whether `steps` are what a handshake does from its start on.
pub open spec fn is_run(target: Socks5Target, steps: Seq<Socks5Step>) -> bool
    decreases steps.len(),
{
    steps.len() == 0 || {
        &&& is_run(target, steps.drop_last())
        &&& handshake_after(target, steps.drop_last()).performs(
            steps.last().event,
            steps.last().action,
        )
    }
}

/// The bytes that `steps` read from the stream, in order.
pub open spec fn bytes_read(steps: Seq<Socks5Step>) -> Seq<u8>
    decreases steps.len(),
{
    if steps.len() == 0 {
        Seq::empty()
    } else {
        let before = bytes_read(steps.drop_last());
        match (steps.last().event, steps.last().action) {
            (_, Socks5Action::Ignore) => before,
            (Socks5Event::Read(bytes), _) => before + bytes@,
            _ => before,
        }
    }
}

/// The bytes that `steps` write to the stream, in order.
pub open spec fn bytes_written(steps: Seq<Socks5Step>) -> Seq<u8>
    decreases steps.len(),
{
    if steps.len() == 0 {
        Seq::empty()
    } else {
        let before = bytes_written(steps.drop_last());
        match steps.last().action {
            Socks5Action::Send { bytes, .. } => before + bytes@,
            _ => before,
        }
    }
}

/// What a handshake has read and written when it waits at `stage`.
spec fn is_history(target: Socks5Target, stage: Socks5Stage, read: Seq<u8>, written: Seq<u8>) -> bool {
    let asked = request(target) == Ok::<Seq<u8>, ConsumerSocks5Error>(written);
    match stage {
        Socks5Stage::AwaitingMethod => read.len() == 0 && written.len() == 0,
        Socks5Stage::AwaitingReply => read == seq![5u8, 0] && asked,
        Socks5Stage::AwaitingDomainLength => read == seq![5u8, 0, 5, 0, 0, 3] && asked,
        Socks5Stage::AwaitingBound(length) => {
            &&& asked
            &&& read.len() >= 6
            &&& read.take(5) == seq![5u8, 0, 5, 0, 0]
            &&& {
                ||| read.len() == 6 && read[5] == 1 && length == 6
                ||| read.len() == 6 && read[5] == 4 && length == 18
                ||| read.len() == 7 && read[5] == 3 && length == read[6] + 2
            }
        },
        Socks5Stage::Finished => true,
    }
}

proof fn lemma_history(target: Socks5Target, steps: Seq<Socks5Step>)
    requires
        is_run(target, steps),
    ensures
        is_history(
            target,
            handshake_after(target, steps).stage,
            bytes_read(steps),
            bytes_written(steps),
        ),
    decreases steps.len(),
{
    if steps.len() > 0 {
        let before = steps.drop_last();
        lemma_history(target, before);
        let handshake = handshake_after(target, before);
        let next = handshake_after(target, steps);
        let (read, read_before) = (bytes_read(steps), bytes_read(before));
        let (written, written_before) = (bytes_written(steps), bytes_written(before));
        if !(next.stage is Finished) {
            match handshake.stage {
                Socks5Stage::AwaitingMethod => {
                    if next.stage is AwaitingReply {
                        assert(read =~= seq![5u8, 0]);
                        let bytes = steps.last().action->Send_bytes@;
                        assert(written =~= bytes);
                    }
                },
                Socks5Stage::AwaitingReply => {
                    if next.stage is AwaitingDomainLength {
                        assert(read =~= seq![5u8, 0, 5, 0, 0, 3]);
                    } else if next.stage is AwaitingBound {
                        assert(read.take(5) =~= seq![5u8, 0, 5, 0, 0]);
                    }
                },
                Socks5Stage::AwaitingDomainLength => {
                    if next.stage is AwaitingBound {
                        assert(read.take(5) =~= seq![5u8, 0, 5, 0, 0]);
                    }
                },
                _ => {},
            }
        }
    }
}

/// A handshake that succeeds has written exactly the request for its target, and has read exactly
/// the selection of no authentication and a whole reply of success.
pub proof fn law_success_takes_a_successful_reply(target: Socks5Target, steps: Seq<Socks5Step>)
    requires
        is_run(target, steps),
        steps.len() > 0,
        steps.last().action matches Socks5Action::Finish(result) && result is Ok,
    ensures
        Ok::<Seq<u8>, ConsumerSocks5Error>(bytes_written(steps)) == request(target),
        bytes_read(steps).len() >= 2,
        bytes_read(steps).take(2) == seq![5u8, 0],
        is_success(bytes_read(steps).skip(2)),
{
    let before = steps.drop_last();
    lemma_history(target, before);
    let handshake = handshake_after(target, before);
    let last = steps.last();
    assert(handshake.performs(last.event, last.action));
    assert(handshake.stage is AwaitingBound);
    let (read, read_before) = (bytes_read(steps), bytes_read(before));
    assert(read.take(2) =~= seq![5u8, 0]) by {
        assert(read_before.take(5)[0] == 5 && read_before.take(5)[1] == 0);
    }
    let reply = read.skip(2);
    assert(reply[0] == 5 && reply[1] == 0 && reply[2] == 0) by {
        assert(read_before.take(5)[2] == 5);
        assert(read_before.take(5)[3] == 0);
        assert(read_before.take(5)[4] == 0);
    }
    assert(bytes_written(steps) =~= bytes_written(before));
}

/// A handshake fails only for a reason that the error names: the byte that is wrong, the name that
/// cannot be requested, or what happened to the stream.
pub proof fn law_every_failure_has_its_cause(
    handshake: Socks5Handshake,
    event: Socks5Event,
    action: Socks5Action,
)
    requires
        handshake.performs(event, action),
    ensures
        action matches Socks5Action::Finish(Err(error)) ==> match (error, event) {
            (ConsumerSocks5Error::Io(text), Socks5Event::IoFailed(cause)) => text == cause,
            (ConsumerSocks5Error::Cancelled, Socks5Event::Cancelled) => true,
            (ConsumerSocks5Error::InvalidVersion(version), Socks5Event::Read(bytes)) => {
                &&& handshake.stage is AwaitingMethod && bytes@.len() == 2
                    || handshake.stage is AwaitingReply && bytes@.len() == 4
                &&& bytes@[0] == version && version != 5
            },
            (ConsumerSocks5Error::UnsupportedAuth(method), Socks5Event::Read(bytes)) => {
                &&& handshake.stage is AwaitingMethod
                &&& bytes@ == seq![5u8, method] && method != 0
            },
            (ConsumerSocks5Error::EmptyDomain, Socks5Event::Read(bytes)) => {
                &&& handshake.stage is AwaitingMethod
                &&& bytes@ == seq![5u8, 0]
                &&& handshake.target matches Socks5Target::Domain { host, .. } && host@.len() == 0
            },
            (ConsumerSocks5Error::DomainTooLong(length), Socks5Event::Read(bytes)) => {
                &&& handshake.stage is AwaitingMethod
                &&& bytes@ == seq![5u8, 0]
                &&& handshake.target matches Socks5Target::Domain { host, .. }
                    && vstd::utf8::encode_utf8(host@).len() > 255 && length
                    == vstd::utf8::encode_utf8(host@).len() as usize
            },
            (ConsumerSocks5Error::ConnectRejected(code), Socks5Event::Read(bytes)) => {
                &&& handshake.stage is AwaitingReply
                &&& bytes@.take(2) == seq![5u8, code] && code != 0
            },
            (ConsumerSocks5Error::InvalidReserved(reserved), Socks5Event::Read(bytes)) => {
                &&& handshake.stage is AwaitingReply
                &&& bytes@.take(3) == seq![5u8, 0, reserved] && reserved != 0
            },
            (ConsumerSocks5Error::InvalidAddressType(kind), Socks5Event::Read(bytes)) => {
                &&& handshake.stage is AwaitingReply
                &&& bytes@ == seq![5u8, 0, 0, kind] && kind != 1 && kind != 3 && kind != 4
            },
            _ => false,
        },
{
    if handshake.stage is AwaitingMethod {
        law_which_targets_can_be_requested(handshake.target);
    }
    if let Socks5Event::Read(bytes) = event {
        if bytes@.len() == 2 {
            assert(bytes@ =~= seq![bytes@[0], bytes@[1]]);
        }
        if bytes@.len() == 4 {
            assert(bytes@ =~= seq![bytes@[0], bytes@[1], bytes@[2], bytes@[3]]);
            assert(bytes@.take(2) =~= seq![bytes@[0], bytes@[1]]);
            assert(bytes@.take(3) =~= seq![bytes@[0], bytes@[1], bytes@[2]]);
        }
    }
}

/// What the handshake asks for is what it takes next: as many bytes as it said it would read, and
/// nothing else. An interruption is never ignored until the handshake has ended, and from then on
/// everything is.
pub proof fn law_handshake_reads_what_it_asked_for(
    handshake: Socks5Handshake,
    event: Socks5Event,
    action: Socks5Action,
    then_event: Socks5Event,
    then_action: Socks5Action,
)
    requires
        handshake.performs(event, action),
        (Socks5Handshake { target: handshake.target, stage: handshake.spec_next(event) }).performs(
            then_event,
            then_action,
        ),
    ensures
        match action {
            Socks5Action::Send { read, .. } | Socks5Action::Read(read) => match then_event {
                Socks5Event::Read(bytes) => then_action is Ignore <==> bytes@.len() != read,
                _ => then_action is Finish,
            },
            Socks5Action::Finish(_) => then_action is Ignore,
            Socks5Action::Ignore => handshake.spec_next(event) == handshake.stage,
        },
        action is Send <==> handshake.stage is AwaitingMethod && handshake.spec_next(event)
            is AwaitingReply,
{
}

/// Every message of the server is taken as soon as it is whole: a handshake that has not ended
/// ignores neither it nor an interruption.
pub proof fn law_nothing_awaited_is_ignored(
    handshake: Socks5Handshake,
    event: Socks5Event,
    action: Socks5Action,
)
    requires
        handshake.performs(event, action),
    ensures
        action is Ignore <==> handshake.stage is Finished || (event matches Socks5Event::Read(bytes)
            && bytes@.len() != match handshake.stage {
            Socks5Stage::AwaitingMethod => 2int,
            Socks5Stage::AwaitingReply => 4,
            Socks5Stage::AwaitingDomainLength => 1,
            Socks5Stage::AwaitingBound(length) => length as int,
            Socks5Stage::Finished => 0,
        }),
        event is IoFailed && !(handshake.stage is Finished) ==> action
            == Socks5Action::Finish(Err(ConsumerSocks5Error::Io(event->IoFailed_0))),
        event is Cancelled && !(handshake.stage is Finished) ==> action
            == Socks5Action::Finish(Err(ConsumerSocks5Error::Cancelled)),
{
}

/// A stream that could not be opened because of a cancellation counts as cancelled, and any other
/// error is passed on as it is.
pub proof fn law_open_failure_is_passed_on(
    error: ConsumerQuicError,
    failed: ConsumerSocks5Error,
)
    requires
        call_ensures(open_failed, (error,), failed),
    ensures
        failed is Cancelled <==> error is Cancelled,
        failed !is Cancelled ==> failed == ConsumerSocks5Error::Quic(error),
{
}

/// A handshake starts by offering no authentication in version 5, waits for two bytes, and is for
/// the target that it was started for.
pub proof fn law_handshake_starts_with_the_greeting(
    target: Socks5Target,
    started: (Socks5Handshake, Socks5Action),
    event: Socks5Event,
    action: Socks5Action,
)
    requires
        call_ensures(socks5_connect, (target,), started),
        started.0.performs(event, action),
    ensures
        started.1 matches Socks5Action::Send { bytes, read } && bytes@ == seq![5u8, 1, 0] && read
            == 2,
        started.0 == handshake_after(target, Seq::empty()),
        event matches Socks5Event::Read(bytes) ==> (action is Ignore <==> bytes@.len() != 2),
{
}

} // verus!
