//! The QUIC side of a consumer: transport settings, the accept loop and the opening of streams.
//!
//! The endpoint and its connections belong to the caller. The types here decide which of them to
//! wait for, which connection is the current one, and what a failure means.
use vstd::prelude::*;

use crate::duration::Duration;

verus! {

/// The application protocol that the consumer's TLS configuration must offer.
pub const CONSUMER_QUIC_ALPN: &'static str = "broflake";

/// The number of streams that the other side may open, in each direction.
pub const CONSUMER_MAX_INCOMING_STREAMS: u32 = 131_072;

/// The seconds without a packet after which a connection is given up.
pub const CONSUMER_MAX_IDLE_TIMEOUT_SECS: u64 = 60;

/// The seconds between packets that keep a connection alive.
pub const CONSUMER_KEEP_ALIVE_INTERVAL_SECS: u64 = 15;

/// The size of the packets that the consumer sends.
pub const CONSUMER_PACKET_SIZE: u16 = 1200;

/// The settings of the consumer's QUIC transport.
#[derive(Debug, Clone, Copy, PartialEq, Eq, Structural)]
pub struct TransportSettings {
    pub max_concurrent_bidi_streams: u32,
    pub max_concurrent_uni_streams: u32,
    pub max_idle_timeout: Duration,
    pub keep_alive_interval: Duration,
    pub initial_mtu: u16,
    pub min_mtu: u16,
    /// Whether the transport looks for a larger packet size.
    pub mtu_discovery: bool,
}

/// The settings that the egress expects.
pub fn consumer_transport_config() -> (settings: TransportSettings)
    ensures
        settings.max_concurrent_bidi_streams == 131_072,
        settings.max_concurrent_uni_streams == 131_072,
        settings.max_idle_timeout@ == 60_000_000_000,
        settings.keep_alive_interval@ == 15_000_000_000,
        settings.initial_mtu == 1200,
        settings.min_mtu == 1200,
        !settings.mtu_discovery,
{
    TransportSettings {
        max_concurrent_bidi_streams: CONSUMER_MAX_INCOMING_STREAMS,
        max_concurrent_uni_streams: CONSUMER_MAX_INCOMING_STREAMS,
        max_idle_timeout: Duration::from_secs(CONSUMER_MAX_IDLE_TIMEOUT_SECS),
        keep_alive_interval: Duration::from_secs(CONSUMER_KEEP_ALIVE_INTERVAL_SECS),
        initial_mtu: CONSUMER_PACKET_SIZE,
        min_mtu: CONSUMER_PACKET_SIZE,
        mtu_discovery: false,
    }
}

/// Why a connection or a stream could not be had.
#[derive(Debug, PartialEq, Eq)]
pub enum ConsumerQuicError {
    Endpoint(String),
    /// The endpoint takes no connections any more.
    Closed,
    Cancelled,
    Handshake(String),
    /// Nobody looks for connections any more.
    BrokerStopped,
    Stream(String),
}

/// What happens while a connection is accepted.
#[derive(Debug)]
pub enum AcceptEvent {
    Cancelled,
    /// A connection comes in, or none will any more.
    Incoming(bool),
    /// The incoming connection's handshake has ended.
    Handshake(Result<(), String>),
}

/// What the acceptance of a connection does next.
#[derive(Debug, PartialEq, Eq)]
pub enum AcceptAction {
    /// Wait for an incoming connection.
    AwaitIncoming,
    /// Wait for the incoming connection's handshake.
    AwaitHandshake,
    /// The connection is there, or there is none.
    Finish(Result<(), ConsumerQuicError>),
}

/// The acceptance of one connection.
#[derive(Debug, Clone, Copy, PartialEq, Eq, Structural)]
pub enum ConsumerQuicServer {
    AwaitingIncoming,
    AwaitingHandshake,
}

impl ConsumerQuicServer {
    /// What is done on `event`. An event out of turn changes nothing.
    pub open spec fn spec_accept(self, event: AcceptEvent) -> (ConsumerQuicServer, AcceptAction) {
        match (self, event) {
            (_, AcceptEvent::Cancelled) => (
                self,
                AcceptAction::Finish(Err(ConsumerQuicError::Cancelled)),
            ),
            (ConsumerQuicServer::AwaitingIncoming, AcceptEvent::Incoming(true)) => (
                ConsumerQuicServer::AwaitingHandshake,
                AcceptAction::AwaitHandshake,
            ),
            (ConsumerQuicServer::AwaitingIncoming, AcceptEvent::Incoming(false)) => (
                self,
                AcceptAction::Finish(Err(ConsumerQuicError::Closed)),
            ),
            (ConsumerQuicServer::AwaitingIncoming, _) => (self, AcceptAction::AwaitIncoming),
            (ConsumerQuicServer::AwaitingHandshake, AcceptEvent::Handshake(Ok(_))) => (
                self,
                AcceptAction::Finish(Ok(())),
            ),
            (ConsumerQuicServer::AwaitingHandshake, AcceptEvent::Handshake(Err(error))) => (
                self,
                AcceptAction::Finish(Err(ConsumerQuicError::Handshake(error))),
            ),
            (ConsumerQuicServer::AwaitingHandshake, _) => (self, AcceptAction::AwaitHandshake),
        }
    }

    /// Decides what the acceptance does on `event`.
    pub fn accept(self, event: AcceptEvent) -> (next: (ConsumerQuicServer, AcceptAction))
        ensures
            next == self.spec_accept(event),
    {
        match (self, event) {
            (_, AcceptEvent::Cancelled) => (
                self,
                AcceptAction::Finish(Err(ConsumerQuicError::Cancelled)),
            ),
            (ConsumerQuicServer::AwaitingIncoming, AcceptEvent::Incoming(incoming)) => {
                if incoming {
                    (ConsumerQuicServer::AwaitingHandshake, AcceptAction::AwaitHandshake)
                } else {
                    (self, AcceptAction::Finish(Err(ConsumerQuicError::Closed)))
                }
            },
            (ConsumerQuicServer::AwaitingIncoming, _) => (self, AcceptAction::AwaitIncoming),
            (ConsumerQuicServer::AwaitingHandshake, AcceptEvent::Handshake(result)) => match result {
                Ok(_) => (self, AcceptAction::Finish(Ok(()))),
                Err(error) => (
                    self,
                    AcceptAction::Finish(Err(ConsumerQuicError::Handshake(error))),
                ),
            },
            (ConsumerQuicServer::AwaitingHandshake, _) => (self, AcceptAction::AwaitHandshake),
        }
    }
}

/// What happens to the broker.
#[derive(Debug)]
pub enum BrokerEvent {
    /// The wait for a connection has ended.
    Accepted(Result<(), ConsumerQuicError>),
    /// The current connection has closed.
    ConnectionClosed,
    Cancelled,
}

/// What the broker does next.
#[derive(Debug, PartialEq, Eq)]
pub enum BrokerAction {
    /// Make the accepted connection the current one, and wait until it closes.
    Publish,
    /// There is no current connection any more: wait for the next.
    Clear,
    /// Close the endpoint. There is no current connection any more, and the broker is done.
    Shutdown,
    /// The broker is done because of this error.
    Fail(ConsumerQuicError),
    /// Nothing: the event does not belong to what the broker waits for.
    Ignore,
}

/// The broker that keeps the current connection.
#[derive(Debug, Clone, Copy, PartialEq, Eq, Structural)]
pub enum ConsumerQuicBroker {
    /// It waits for a connection. There is no current one.
    Accepting,
    /// It waits for the current connection to close.
    Serving,
    Stopped,
}

impl ConsumerQuicBroker {
    /// What the broker does on `event`.
    pub open spec fn spec_run(self, event: BrokerEvent) -> (ConsumerQuicBroker, BrokerAction) {
        match (self, event) {
            (ConsumerQuicBroker::Stopped, _) => (self, BrokerAction::Ignore),
            (_, BrokerEvent::Cancelled) => (ConsumerQuicBroker::Stopped, BrokerAction::Shutdown),
            (ConsumerQuicBroker::Accepting, BrokerEvent::Accepted(Ok(_))) => (
                ConsumerQuicBroker::Serving,
                BrokerAction::Publish,
            ),
            (
                ConsumerQuicBroker::Accepting,
                BrokerEvent::Accepted(Err(ConsumerQuicError::Cancelled)),
            ) => (ConsumerQuicBroker::Stopped, BrokerAction::Shutdown),
            (ConsumerQuicBroker::Accepting, BrokerEvent::Accepted(Err(error))) => (
                ConsumerQuicBroker::Stopped,
                BrokerAction::Fail(error),
            ),
            (ConsumerQuicBroker::Serving, BrokerEvent::ConnectionClosed) => (
                ConsumerQuicBroker::Accepting,
                BrokerAction::Clear,
            ),
            _ => (self, BrokerAction::Ignore),
        }
    }

    /// A broker that waits for its first connection.
    pub fn new() -> (broker: ConsumerQuicBroker)
        ensures
            broker is Accepting,
    {
        ConsumerQuicBroker::Accepting
    }

    /// Decides what the broker does on `event`.
    pub fn run(self, event: BrokerEvent) -> (next: (ConsumerQuicBroker, BrokerAction))
        ensures
            next == self.spec_run(event),
    {
        match (self, event) {
            (ConsumerQuicBroker::Stopped, _) => (self, BrokerAction::Ignore),
            (_, BrokerEvent::Cancelled) => (ConsumerQuicBroker::Stopped, BrokerAction::Shutdown),
            (ConsumerQuicBroker::Accepting, BrokerEvent::Accepted(accepted)) => match accepted {
                Ok(_) => (ConsumerQuicBroker::Serving, BrokerAction::Publish),
                Err(ConsumerQuicError::Cancelled) => (
                    ConsumerQuicBroker::Stopped,
                    BrokerAction::Shutdown,
                ),
                Err(error) => (ConsumerQuicBroker::Stopped, BrokerAction::Fail(error)),
            },
            (ConsumerQuicBroker::Serving, BrokerEvent::ConnectionClosed) => (
                ConsumerQuicBroker::Accepting,
                BrokerAction::Clear,
            ),
            _ => (self, BrokerAction::Ignore),
        }
    }
}

/// Whether there is a current connection after an action of the broker, which makes one current,
/// clears it or leaves it as it was before.
pub open spec fn published(before: bool, action: BrokerAction) -> bool {
    match action {
        BrokerAction::Publish => true,
        BrokerAction::Clear | BrokerAction::Shutdown => false,
        BrokerAction::Fail(_) | BrokerAction::Ignore => before,
    }
}

/// The broker after a run of events, and whether there is a current connection then.
pub open spec fn broker_after(events: Seq<BrokerEvent>) -> (ConsumerQuicBroker, bool)
    decreases events.len(),
{
    if events.len() == 0 {
        (ConsumerQuicBroker::Accepting, false)
    } else {
        let (broker, current) = broker_after(events.drop_last());
        let (next, action) = broker.spec_run(events.last());
        (next, published(current, action))
    }
}

/// There is a current connection exactly while the broker serves one. A connection that has
/// closed is never current, and neither is any after the broker has stopped.
pub proof fn law_current_connection_is_being_served(events: Seq<BrokerEvent>)
    ensures
        broker_after(events).1 <==> broker_after(events).0 is Serving,
    decreases events.len(),
{
    if events.len() > 0 {
        law_current_connection_is_being_served(events.drop_last());
    }
}

/// What happens while a stream is opened.
#[derive(Debug)]
pub enum DialEvent {
    Cancelled,
    /// Whether there is a current connection now.
    Current(bool),
    Opened,
    /// The stream could not be opened, and whether the connection has closed.
    OpenFailed { error: String, connection_closed: bool },
    /// The current connection has changed, or will not any more.
    Changed(bool),
}

/// What the opening of a stream does next.
#[derive(Debug, PartialEq, Eq)]
pub enum DialAction {
    /// Look for the current connection.
    Look,
    /// Open a stream on the current connection.
    Open,
    /// Wait until the current connection changes.
    AwaitChange,
    /// The stream is there, or there is none.
    Finish(Result<(), ConsumerQuicError>),
    /// Nothing: the event does not belong to what is waited for.
    Ignore,
}

/// The opening of one stream.
#[derive(Debug, Clone, Copy, PartialEq, Eq, Structural)]
pub enum ConsumerQuicDialer {
    Looking,
    Opening,
    Waiting,
    Finished,
}

impl ConsumerQuicDialer {
    /// What is done on `event`. Without a connection, or with one that has closed, the next one is
    /// waited for.
    pub open spec fn spec_open_bi(self, event: DialEvent) -> (ConsumerQuicDialer, DialAction) {
        match (self, event) {
            (ConsumerQuicDialer::Finished, _) => (self, DialAction::Ignore),
            (_, DialEvent::Cancelled) => (
                ConsumerQuicDialer::Finished,
                DialAction::Finish(Err(ConsumerQuicError::Cancelled)),
            ),
            (ConsumerQuicDialer::Looking, DialEvent::Current(true)) => (
                ConsumerQuicDialer::Opening,
                DialAction::Open,
            ),
            (ConsumerQuicDialer::Looking, DialEvent::Current(false)) => (
                ConsumerQuicDialer::Waiting,
                DialAction::AwaitChange,
            ),
            (ConsumerQuicDialer::Opening, DialEvent::Opened) => (
                ConsumerQuicDialer::Finished,
                DialAction::Finish(Ok(())),
            ),
            (ConsumerQuicDialer::Opening, DialEvent::OpenFailed { error, connection_closed }) =>
                if connection_closed {
                    (ConsumerQuicDialer::Waiting, DialAction::AwaitChange)
                } else {
                    (
                        ConsumerQuicDialer::Finished,
                        DialAction::Finish(Err(ConsumerQuicError::Stream(error))),
                    )
                },
            (ConsumerQuicDialer::Waiting, DialEvent::Changed(true)) => (
                ConsumerQuicDialer::Looking,
                DialAction::Look,
            ),
            (ConsumerQuicDialer::Waiting, DialEvent::Changed(false)) => (
                ConsumerQuicDialer::Finished,
                DialAction::Finish(Err(ConsumerQuicError::BrokerStopped)),
            ),
            _ => (self, DialAction::Ignore),
        }
    }

    /// Decides what the opening of a stream does on `event`.
    pub fn open_bi(self, event: DialEvent) -> (next: (ConsumerQuicDialer, DialAction))
        ensures
            next == self.spec_open_bi(event),
    {
        match (self, event) {
            (ConsumerQuicDialer::Finished, _) => (self, DialAction::Ignore),
            (_, DialEvent::Cancelled) => (
                ConsumerQuicDialer::Finished,
                DialAction::Finish(Err(ConsumerQuicError::Cancelled)),
            ),
            (ConsumerQuicDialer::Looking, DialEvent::Current(current)) => {
                if current {
                    (ConsumerQuicDialer::Opening, DialAction::Open)
                } else {
                    (ConsumerQuicDialer::Waiting, DialAction::AwaitChange)
                }
            },
            (ConsumerQuicDialer::Opening, DialEvent::Opened) => (
                ConsumerQuicDialer::Finished,
                DialAction::Finish(Ok(())),
            ),
            (ConsumerQuicDialer::Opening, DialEvent::OpenFailed { error, connection_closed }) => {
                if connection_closed {
                    (ConsumerQuicDialer::Waiting, DialAction::AwaitChange)
                } else {
                    (
                        ConsumerQuicDialer::Finished,
                        DialAction::Finish(Err(ConsumerQuicError::Stream(error))),
                    )
                }
            },
            (ConsumerQuicDialer::Waiting, DialEvent::Changed(changed)) => {
                if changed {
                    (ConsumerQuicDialer::Looking, DialAction::Look)
                } else {
                    (
                        ConsumerQuicDialer::Finished,
                        DialAction::Finish(Err(ConsumerQuicError::BrokerStopped)),
                    )
                }
            },
            _ => (self, DialAction::Ignore),
        }
    }
}

/// A connection that closes under a stream being opened is no failure: the opening looks for the
/// replacement, and opens the stream there.
pub proof fn law_stream_opens_on_the_replacement(error: String)
    ensures
        ({
            let closed = DialEvent::OpenFailed { error, connection_closed: true };
            let waiting = ConsumerQuicDialer::Opening.spec_open_bi(closed).0;
            let looking = waiting.spec_open_bi(DialEvent::Changed(true)).0;
            let opening = looking.spec_open_bi(DialEvent::Current(true)).0;
            opening.spec_open_bi(DialEvent::Opened).1 == DialAction::Finish(Ok(()))
        }),
{
}

/// The opening of a stream can be cancelled whatever it waits for.
pub proof fn law_opening_can_be_cancelled(dialer: ConsumerQuicDialer)
    requires
        dialer !is Finished,
    ensures
        dialer.spec_open_bi(DialEvent::Cancelled).1 == DialAction::Finish(
            Err(ConsumerQuicError::Cancelled),
        ),
{
}

/// A connection is accepted only once one has come in and its handshake has succeeded. The
/// acceptance ends in no other way than by that, by a cancellation, by the end of the endpoint or by
/// the handshake's own error, and until then it waits for what it waited for.
pub proof fn law_accepting_ends_for_a_reason(server: ConsumerQuicServer, event: AcceptEvent)
    ensures
        match server.spec_accept(event).1 {
            AcceptAction::Finish(Ok(_)) => server is AwaitingHandshake && (event matches
                AcceptEvent::Handshake(result) && result is Ok),
            AcceptAction::Finish(Err(ConsumerQuicError::Cancelled)) => event is Cancelled,
            AcceptAction::Finish(Err(ConsumerQuicError::Closed)) => server is AwaitingIncoming
                && event == AcceptEvent::Incoming(false),
            AcceptAction::Finish(Err(ConsumerQuicError::Handshake(error))) => server
                is AwaitingHandshake && event == AcceptEvent::Handshake(Err(error)),
            AcceptAction::Finish(Err(_)) => false,
            AcceptAction::AwaitIncoming => server is AwaitingIncoming && event is Handshake,
            AcceptAction::AwaitHandshake => if server is AwaitingIncoming {
                event == AcceptEvent::Incoming(true)
            } else {
                event is Incoming
            },
        },
        server.spec_accept(event).0 is AwaitingHandshake <==> server is AwaitingHandshake || event
            == AcceptEvent::Incoming(true),
{
}

/// A broker does each thing for one reason only: it makes a connection current that was accepted,
/// clears it when it has closed, shuts down when it is cancelled, and fails with the error that the
/// wait for a connection ended with. Once it has stopped it does nothing.
pub proof fn law_every_broker_action_has_its_cause(broker: ConsumerQuicBroker, event: BrokerEvent)
    ensures
        match broker.spec_run(event).1 {
            BrokerAction::Publish => broker is Accepting && (event matches BrokerEvent::Accepted(
                accepted,
            ) && accepted is Ok),
            BrokerAction::Clear => broker is Serving && event is ConnectionClosed,
            BrokerAction::Shutdown => broker !is Stopped && (event is Cancelled || broker
                is Accepting && event == BrokerEvent::Accepted(Err(ConsumerQuicError::Cancelled))),
            BrokerAction::Fail(error) => broker is Accepting && error !is Cancelled && event
                == BrokerEvent::Accepted(Err(error)),
            BrokerAction::Ignore => {
                ||| broker is Stopped
                ||| broker is Accepting && event is ConnectionClosed
                ||| broker is Serving && event is Accepted
            },
        },
        broker.spec_run(event).0 == match broker.spec_run(event).1 {
            BrokerAction::Publish => ConsumerQuicBroker::Serving,
            BrokerAction::Clear => ConsumerQuicBroker::Accepting,
            BrokerAction::Shutdown | BrokerAction::Fail(_) => ConsumerQuicBroker::Stopped,
            BrokerAction::Ignore => broker,
        },
{
}

/// The opening of a stream does each thing for one reason only: it opens the stream on a current
/// connection, waits for a change where there is none or where it closed, looks again after a
/// change, and ends with the stream, with the stream's own error, with the broker or by a
/// cancellation.
pub proof fn law_every_dial_action_has_its_cause(dialer: ConsumerQuicDialer, event: DialEvent)
    ensures
        match dialer.spec_open_bi(event).1 {
            DialAction::Open => dialer is Looking && event == DialEvent::Current(true),
            DialAction::AwaitChange => {
                ||| dialer is Looking && event == DialEvent::Current(false)
                ||| dialer is Opening && (event matches DialEvent::OpenFailed {
                    connection_closed,
                    ..
                } && connection_closed)
            },
            DialAction::Look => dialer is Waiting && event == DialEvent::Changed(true),
            DialAction::Finish(Ok(_)) => dialer is Opening && event is Opened,
            DialAction::Finish(Err(ConsumerQuicError::Stream(error))) => dialer is Opening && event
                == (DialEvent::OpenFailed { error, connection_closed: false }),
            DialAction::Finish(Err(ConsumerQuicError::BrokerStopped)) => dialer is Waiting && event
                == DialEvent::Changed(false),
            DialAction::Finish(Err(ConsumerQuicError::Cancelled)) => dialer !is Finished && event
                is Cancelled,
            DialAction::Finish(Err(_)) => false,
            DialAction::Ignore => {
                ||| dialer is Finished
                ||| dialer is Looking && event !is Current && event !is Cancelled
                ||| dialer is Opening && event !is Opened && event !is OpenFailed && event
                    !is Cancelled
                ||| dialer is Waiting && event !is Changed && event !is Cancelled
            },
        },
        dialer.spec_open_bi(event).0 == match dialer.spec_open_bi(event).1 {
            DialAction::Open => ConsumerQuicDialer::Opening,
            DialAction::AwaitChange => ConsumerQuicDialer::Waiting,
            DialAction::Look => ConsumerQuicDialer::Looking,
            DialAction::Finish(_) => ConsumerQuicDialer::Finished,
            DialAction::Ignore => dialer,
        },
{
}

} // verus!
