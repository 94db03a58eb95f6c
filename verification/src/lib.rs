//! The pieces of the Unbounded network that a consumer and a peer proxy run.
//!
//! A consumer is a censored user. It keeps a QUIC server over a virtual UDP socket whose paths
//! lead through peers. A peer proxy is a sharing user. It relays opaque QUIC datagrams between a
//! WebRTC data channel and the egress's WebSocket.
//!
//! This crate decides; it does no I/O of its own. Each protocol is a state machine or a function
//! that takes what has happened and answers with what to do.
pub mod addr;
pub mod base64_payload;
pub mod consumer;
pub mod consumer_path;
pub mod consumer_quic;
pub mod consumer_socks5;
pub mod duration;
pub mod egress;
pub mod json;
pub mod peer_proxy;
pub mod peer_watch;
pub mod protocol;
pub mod queue;
pub mod relay;
pub mod rtc;
pub mod settings;
pub mod signaling;
pub mod supervisor;
pub mod text;
pub mod virtual_udp;

pub use consumer::{
    ConsumerConfig, ConsumerError, ConsumerEvent, ConsumerOutcome, ConsumerSummary,
    ConsumerSupervisorConfig,
};
pub use consumer_path::{ConsumerPathEnd, ConsumerPathError, SyntheticPathAllocator};
pub use consumer_quic::{
    consumer_transport_config, ConsumerQuicBroker, ConsumerQuicDialer, ConsumerQuicError,
    ConsumerQuicServer, CONSUMER_QUIC_ALPN,
};
pub use consumer_socks5::{socks5_connect, ConsumerSocks5Error, Socks5Target};
pub use protocol::{SignalMessage, SignalMessageType, UnboundedPacket};
pub use virtual_udp::{VirtualPath, VirtualUdpSocket};
