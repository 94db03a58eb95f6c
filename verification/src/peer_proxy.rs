//! One session of a peer proxy: signaling, NAT traversal, the egress tunnel and the relay.
//!
//! [`PeerSession`] decides what a session does. The caller performs its actions on the signaling
//! service, the WebRTC connection and the egress, and reports what came of them.
use vstd::prelude::*;

use crate::duration::Duration;
use crate::egress::EgressError;
use crate::json;
use crate::protocol;
use crate::protocol::{GenesisMessage, PathAssertion, SignalMessage, SignalMessageType};
use crate::relay::{RelayEnd, RelayError};
use crate::rtc;
use crate::rtc::{IceCandidate, IceCandidateType, IceProtocol, PeerConnectionState};
use crate::signaling::SignalingError;
use crate::text;

verus! {

/// How a peer proxy reaches the egress and its consumers.
#[derive(Debug, PartialEq, Eq)]
pub struct PeerProxyConfig {
    pub egress_url: String,
    pub stun_urls: Vec<String>,
    /// The time allowed for the data channel to open.
    pub nat_timeout: Duration,
    pub enable_ipv6: bool,
    pub randomize_dtls: bool,
}

impl PeerProxyConfig {
    /// Whether every setting is the same.
    pub open spec fn same_settings(&self, other: PeerProxyConfig) -> bool {
        &&& self.egress_url == other.egress_url
        &&& self.stun_urls@ == other.stun_urls@
        &&& self.nat_timeout == other.nat_timeout
        &&& self.enable_ipv6 == other.enable_ipv6
        &&& self.randomize_dtls == other.randomize_dtls
    }
}

impl Clone for PeerProxyConfig {
    fn clone(&self) -> (copy: PeerProxyConfig)
        ensures
            copy.same_settings(*self),
    {
        PeerProxyConfig {
            egress_url: self.egress_url.clone(),
            stun_urls: text::copy_texts(&self.stun_urls),
            nat_timeout: self.nat_timeout,
            enable_ipv6: self.enable_ipv6,
            randomize_dtls: self.randomize_dtls,
        }
    }
}

/// A session that relayed datagrams until one side closed.
#[derive(Debug, Clone, PartialEq, Eq)]
pub struct PeerProxyOutcome {
    pub consumer_session_id: String,
    pub relay_end: RelayEnd,
    pub relay_duration: Duration,
}

/// Why a session failed.
#[derive(Debug)]
pub enum PeerProxyError {
    Signaling(SignalingError),
    WebRtc(webrtc::Error),
    /// The payload of a signaling message is not what the step needs.
    Decode { step: &'static str, source: String },
    MissingResponse(&'static str),
    UnexpectedSignal { expected: SignalMessageType, actual: SignalMessageType },
    MissingConsumerSessionId,
    InvalidConsumerSessionId,
    InvalidIceCandidate(webrtc::Error),
    /// The data channel did not open in time.
    NatTimeout,
    /// Nothing is left that could open the data channel.
    DataChannelClosed,
    /// The connection ended in this state before the data channel opened.
    PeerConnectionEnded(PeerConnectionState),
    Egress(EgressError),
    Relay { relay_duration: Duration, source: RelayError },
    Cancelled,
}

impl PeerProxyError {
    /// How long the session relayed datagrams before it failed, if it got that far.
    pub open spec fn spec_relay_duration(&self) -> Option<Duration> {
        match *self {
            PeerProxyError::Relay { relay_duration, .. } => Some(relay_duration),
            _ => None,
        }
    }

    /// How long the session relayed datagrams before it failed, if it got that far.
    pub fn relay_duration(&self) -> (duration: Option<Duration>)
        ensures
            duration == self.spec_relay_duration(),
    {
        match self {
            PeerProxyError::Relay { relay_duration, .. } => Some(*relay_duration),
            _ => None,
        }
    }
}

/// Accepts a signaling message of the expected kind.
pub fn expect_signal(signal: &SignalMessage, expected: SignalMessageType) -> (accepted: Result<
    (),
    PeerProxyError,
>)
    ensures
        accepted == (if signal.kind == expected {
            Ok(())
        } else {
            Err(PeerProxyError::UnexpectedSignal { expected, actual: signal.kind })
        }),
{
    if signal.kind == expected {
        Ok(())
    } else {
        Err(PeerProxyError::UnexpectedSignal { expected, actual: signal.kind })
    }
}

/// An ICE candidate as consumers send it, with its protocol as a number.
#[derive(Debug, Clone, PartialEq, Eq)]
pub struct PionIceCandidate {
    pub foundation: String,
    pub priority: u32,
    pub address: String,
    pub protocol: u8,
    pub port: u16,
    pub typ: IceCandidateType,
    pub component: u16,
    pub related_address: String,
    pub related_port: u16,
    pub tcp_type: String,
    pub sdp_mid: Option<String>,
    pub sdp_mline_index: Option<u16>,
}

/// A candidate in the form that a connection takes it in.
#[derive(Debug, PartialEq, Eq)]
pub struct IceCandidateInit {
    pub candidate: String,
    pub sdp_mid: Option<String>,
    pub sdp_mline_index: Option<u16>,
}

impl PionIceCandidate {
    /// The W3C candidate string of this candidate, if the WebRTC stack accepts it.
    pub open spec fn spec_w3c(&self) -> Option<Seq<char>> {
        rtc::w3c_candidate(
            self.foundation@,
            self.priority,
            self.address@,
            IceProtocol::spec_from_number(self.protocol).spec_name(),
            self.port,
            self.typ.spec_name(),
            self.component,
            self.related_address@,
            self.related_port,
        )
    }

    /// Whether the WebRTC stack can compute the candidate's priority.
    pub open spec fn spec_has_priority(&self) -> bool {
        self.priority != 0 || self.component <= 256 || self.typ is Unspecified
    }

    /// Whether the WebRTC stack can compute the candidate's priority.
    pub fn has_priority(&self) -> (has_priority: bool)
        ensures
            has_priority == self.spec_has_priority(),
    {
        self.priority != 0 || self.component <= 256 || matches!(
            self.typ,
            IceCandidateType::Unspecified
        )
    }

    /// The candidate with its protocol by name.
    pub open spec fn spec_rust_candidate(&self) -> IceCandidate {
        IceCandidate {
            foundation: self.foundation,
            priority: self.priority,
            address: self.address,
            protocol: IceProtocol::spec_from_number(self.protocol),
            port: self.port,
            typ: self.typ,
            component: self.component,
            related_address: self.related_address,
            related_port: self.related_port,
            tcp_type: self.tcp_type,
        }
    }

    /// The candidate with its protocol by name.
    pub fn to_rust_candidate(&self) -> (candidate: IceCandidate)
        ensures
            candidate == self.spec_rust_candidate(),
    {
        IceCandidate {
            foundation: self.foundation.clone(),
            priority: self.priority,
            address: self.address.clone(),
            protocol: IceProtocol::from_number(self.protocol),
            port: self.port,
            typ: self.typ,
            component: self.component,
            related_address: self.related_address.clone(),
            related_port: self.related_port,
            tcp_type: self.tcp_type.clone(),
        }
    }

    /// The candidate in the form that a connection takes it in. Its media description is kept as
    /// it is, and stays absent where it was absent.
    pub fn to_init(&self) -> (init: Result<IceCandidateInit, webrtc::Error>)
        requires
            self.spec_has_priority(),
        ensures
            match init {
                Ok(init) => self.spec_w3c() == Some(init.candidate@) && init.sdp_mid == self.sdp_mid
                    && init.sdp_mline_index == self.sdp_mline_index,
                Err(_) => self.spec_w3c() is None,
            },
    {
        match self.to_rust_candidate().to_w3c() {
            Ok(candidate) => Ok(
                IceCandidateInit {
                    candidate,
                    sdp_mid: match &self.sdp_mid {
                        Some(sdp_mid) => Some(sdp_mid.clone()),
                        None => None,
                    },
                    sdp_mline_index: self.sdp_mline_index,
                },
            ),
            Err(error) => Err(error),
        }
    }
}

/// The last signaling message of a consumer: its candidates and its session ID.
#[derive(Debug, Clone, PartialEq, Eq)]
pub struct IceMessage {
    pub candidates: Vec<PionIceCandidate>,
    pub consumer_session_id: String,
}

impl IceMessage {
    /// The candidate at `index`, if there are that many.
    pub open spec fn candidate_at(&self, index: int) -> Option<PionIceCandidate> {
        if 0 <= index < self.candidates@.len() {
            Some(self.candidates@[index])
        } else {
            None
        }
    }
}

/// The announcement that every session starts with.
pub open spec fn genesis_text() -> Seq<char> {
    "{\"PathAssertion\":{\"Allow\":[{\"Host\":\"$\",\"Distance\":1}],\"Deny\":null,\"JITUnavailable\":false}}"@
}

/// The announcement that every session starts with: every host, connected to on request.
pub fn genesis_payload() -> (payload: String)
    ensures
        payload@ == genesis_text(),
{
    let genesis = GenesisMessage { path_assertion: PathAssertion::all_hosts_on_request() };
    proof {
        reveal_strlit("$");
        reveal_strlit("{\"Host\":");
        reveal_strlit(",\"Distance\":");
        reveal_strlit("}");
        reveal_strlit("[");
        reveal_strlit("]");
        reveal_strlit("null");
        reveal_strlit("false");
        reveal_strlit("{\"Allow\":");
        reveal_strlit(",\"Deny\":");
        reveal_strlit(",\"JITUnavailable\":");
        reveal_strlit("{\"PathAssertion\":");
        reveal_strlit(
            "{\"PathAssertion\":{\"Allow\":[{\"Host\":\"$\",\"Distance\":1}],\"Deny\":null,\"JITUnavailable\":false}}",
        );
        json::law_plain_text_is_only_quoted("$"@);
        assert(json::json_string("$"@) =~= seq!['"', '$', '"']);
        assert(json::decimal(1) =~= seq!['1']);
        assert(genesis.spec_json() =~= genesis_text());
    }
    genesis.to_json()
}

/// How the wait for the data channel came out.
#[derive(Debug, Clone, Copy, PartialEq, Eq, Structural)]
pub enum DataChannelOutcome {
    Opened,
    TimedOut,
    /// Nothing is left that could open the channel.
    Abandoned,
    /// The connection ended in this state first.
    PeerEnded(PeerConnectionState),
}

/// What came of the action that a session asked for last.
#[derive(Debug)]
pub enum PeerSessionEvent {
    /// The reply to a signaling message, if a peer replied in time.
    Signal(Result<Option<SignalMessage>, SignalingError>),
    /// The payload to work on could not be decoded.
    Undecodable(String),
    /// The local description could not be encoded.
    Unencodable(String),
    /// The local description with its candidates, encoded, if there is one.
    LocalDescription(Option<String>),
    Ice(IceMessage),
    SessionIdPublished,
    CandidateAdded,
    /// The WebRTC connection failed.
    WebRtcFailed(webrtc::Error),
    DataChannel(DataChannelOutcome),
    Egress(Result<(), EgressError>),
    RelayEnded { result: Result<RelayEnd, RelayError>, duration: Duration },
    /// The session is to stop.
    Cancelled,
}

/// What a session does next.
#[derive(Debug)]
pub enum PeerSessionAction {
    /// Send a signaling message and wait for the reply.
    Exchange { send_to: String, kind: SignalMessageType, payload: String },
    /// Decode the offer, apply it, and answer it with a description that holds every candidate.
    AnswerOffer { payload: String },
    /// Decode the consumer's candidates and session ID.
    DecodeIce { payload: String },
    /// Make the session ID known to those that report on the connection.
    PublishSessionId { session_id: String },
    AddCandidate { candidate: IceCandidateInit },
    /// Wait for the data channel, at most for this long.
    AwaitDataChannel { timeout: Duration },
    ConnectEgress { url: String, session_id: String },
    Relay,
    /// Close the WebRTC connection. This is the session's result.
    Finish(Result<PeerProxyOutcome, PeerProxyError>),
    /// Nothing: the event does not belong to what the session waits for.
    Ignore,
}

/// What a session waits for.
#[derive(Debug, PartialEq, Eq)]
pub enum PeerSessionStage {
    AwaitingOffer,
    Answering { reply_to: String },
    AwaitingIce,
    DecodingIce,
    Publishing { message: IceMessage },
    /// The connection takes in the candidate at `index`.
    AddingCandidates { message: IceMessage, index: usize },
    AwaitingDataChannel { session_id: String },
    ConnectingEgress { session_id: String },
    Relaying { session_id: String },
    Finished,
}

/// One session of a peer proxy, once its WebRTC connection exists.
#[derive(Debug, PartialEq, Eq)]
pub struct PeerSession {
    pub egress_url: String,
    pub nat_timeout: Duration,
    pub stage: PeerSessionStage,
}

impl PeerSession {
    /// From the moment a session ID is taken over it is a token.
    pub open spec fn wf(&self) -> bool {
        match self.stage {
            PeerSessionStage::Publishing { message } => protocol::is_token(
                message.consumer_session_id@,
            ),
            PeerSessionStage::AddingCandidates { message, index } => protocol::is_token(
                message.consumer_session_id@,
            ) && index < message.candidates@.len(),
            PeerSessionStage::AwaitingDataChannel { session_id } => protocol::is_token(session_id@),
            PeerSessionStage::ConnectingEgress { session_id } => protocol::is_token(session_id@),
            PeerSessionStage::Relaying { session_id } => protocol::is_token(session_id@),
            _ => true,
        }
    }

    /// The candidate that is next to be handed to the connection on `event`, if there is one.
    pub open spec fn next_candidate(self, event: PeerSessionEvent) -> Option<PionIceCandidate> {
        match (self.stage, event) {
            (PeerSessionStage::Publishing { message }, PeerSessionEvent::SessionIdPublished) =>
                message.candidate_at(0),
            (
                PeerSessionStage::AddingCandidates { message, index },
                PeerSessionEvent::CandidateAdded,
            ) => message.candidate_at(index + 1),
            _ => None,
        }
    }

    /// Whether the WebRTC stack can compute the priority of the candidate that is next to be
    /// handed over on `event`, if there is one.
    pub open spec fn spec_admits(self, event: PeerSessionEvent) -> bool {
        self.next_candidate(event) matches Some(candidate) ==> candidate.spec_has_priority()
    }

    /// The session in another stage.
    pub open spec fn at(self, stage: PeerSessionStage) -> PeerSession {
        PeerSession { stage, ..self }
    }

    /// The session once the connection has taken in the candidates before `index`.
    pub open spec fn spec_add_from(self, message: IceMessage, index: int) -> PeerSession {
        if index >= message.candidates@.len() {
            self.at(
                PeerSessionStage::AwaitingDataChannel { session_id: message.consumer_session_id },
            )
        } else if message.candidates@[index].spec_w3c() is Some {
            self.at(PeerSessionStage::AddingCandidates { message, index: index as usize })
        } else {
            self.at(PeerSessionStage::Finished)
        }
    }

    /// The session after `event`. An event that does not belong to the stage changes nothing.
    pub open spec fn spec_next(self, event: PeerSessionEvent) -> PeerSession {
        match (self.stage, event) {
            (PeerSessionStage::Finished, _) => self,
            (_, PeerSessionEvent::Cancelled) => self.at(PeerSessionStage::Finished),
            (PeerSessionStage::AwaitingOffer, PeerSessionEvent::Signal(reply)) => match reply {
                Ok(Some(signal)) if signal.kind == SignalMessageType::Offer => self.at(
                    PeerSessionStage::Answering { reply_to: signal.reply_to },
                ),
                _ => self.at(PeerSessionStage::Finished),
            },
            (
                PeerSessionStage::Answering { .. },
                PeerSessionEvent::LocalDescription(Some(_)),
            ) => self.at(PeerSessionStage::AwaitingIce),
            (
                PeerSessionStage::Answering { .. },
                PeerSessionEvent::LocalDescription(None)
                | PeerSessionEvent::Undecodable(_)
                | PeerSessionEvent::Unencodable(_)
                | PeerSessionEvent::WebRtcFailed(_),
            ) => self.at(PeerSessionStage::Finished),
            (PeerSessionStage::AwaitingIce, PeerSessionEvent::Signal(reply)) => match reply {
                Ok(Some(signal)) if signal.kind == SignalMessageType::Ice => self.at(
                    PeerSessionStage::DecodingIce,
                ),
                _ => self.at(PeerSessionStage::Finished),
            },
            (PeerSessionStage::DecodingIce, PeerSessionEvent::Undecodable(_)) => self.at(
                PeerSessionStage::Finished,
            ),
            (PeerSessionStage::DecodingIce, PeerSessionEvent::Ice(message)) => if protocol::is_token(
                message.consumer_session_id@,
            ) {
                self.at(PeerSessionStage::Publishing { message })
            } else {
                self.at(PeerSessionStage::Finished)
            },
            (PeerSessionStage::Publishing { message }, PeerSessionEvent::SessionIdPublished) =>
                self.spec_add_from(message, 0),
            (
                PeerSessionStage::AddingCandidates { message, index },
                PeerSessionEvent::CandidateAdded,
            ) => self.spec_add_from(message, index + 1),
            (PeerSessionStage::AddingCandidates { .. }, PeerSessionEvent::WebRtcFailed(_)) =>
                self.at(PeerSessionStage::Finished),
            (
                PeerSessionStage::AwaitingDataChannel { session_id },
                PeerSessionEvent::DataChannel(outcome),
            ) => if outcome is Opened {
                self.at(PeerSessionStage::ConnectingEgress { session_id })
            } else {
                self.at(PeerSessionStage::Finished)
            },
            (PeerSessionStage::ConnectingEgress { session_id }, PeerSessionEvent::Egress(result)) =>
                if result is Ok {
                    self.at(PeerSessionStage::Relaying { session_id })
                } else {
                    self.at(PeerSessionStage::Finished)
                },
            (PeerSessionStage::Relaying { .. }, PeerSessionEvent::RelayEnded { .. }) => self.at(
                PeerSessionStage::Finished,
            ),
            _ => self,
        }
    }

    /// Whether `action` is what a session does once the connection has taken in the candidates
    /// before `index`: it hands over the next candidate as a W3C string, fails if there is no such
    /// string, and after the last candidate waits for the data channel.
    pub open spec fn performs_add_from(
        self,
        message: IceMessage,
        index: int,
        action: PeerSessionAction,
    ) -> bool {
        if index >= message.candidates@.len() {
            action == (PeerSessionAction::AwaitDataChannel { timeout: self.nat_timeout })
        } else {
            let next = message.candidates@[index];
            match next.spec_w3c() {
                Some(text) => {
                    &&& action matches PeerSessionAction::AddCandidate { candidate }
                    &&& candidate.candidate@ == text
                    &&& candidate.sdp_mid == next.sdp_mid
                    &&& candidate.sdp_mline_index == next.sdp_mline_index
                },
                None => action matches PeerSessionAction::Finish(
                    Err(PeerProxyError::InvalidIceCandidate(_)),
                ),
            }
        }
    }

    /// Whether `action` is what the session does on `event`.
    pub open spec fn performs(self, event: PeerSessionEvent, action: PeerSessionAction) -> bool {
        match (self.stage, event) {
            (PeerSessionStage::Finished, _) => action is Ignore,
            (_, PeerSessionEvent::Cancelled) => action == fails(PeerProxyError::Cancelled),
            (PeerSessionStage::AwaitingOffer, PeerSessionEvent::Signal(reply)) => match reply {
                Err(error) => action == fails(PeerProxyError::Signaling(error)),
                Ok(None) => action == fails(PeerProxyError::MissingResponse("offer")),
                Ok(Some(signal)) => if signal.kind == SignalMessageType::Offer {
                    action == (PeerSessionAction::AnswerOffer { payload: signal.payload })
                } else {
                    action == fails(unexpected(SignalMessageType::Offer, signal.kind))
                },
            },
            (
                PeerSessionStage::Answering { .. },
                PeerSessionEvent::Undecodable(source),
            ) => action == fails(PeerProxyError::Decode { step: "offer", source }),
            (PeerSessionStage::Answering { .. }, PeerSessionEvent::WebRtcFailed(error)) => action
                == fails(PeerProxyError::WebRtc(error)),
            (PeerSessionStage::Answering { .. }, PeerSessionEvent::Unencodable(error)) => action
                == fails(PeerProxyError::Signaling(SignalingError::Decode(error))),
            (PeerSessionStage::Answering { .. }, PeerSessionEvent::LocalDescription(None)) => action
                == fails(PeerProxyError::MissingResponse("local ICE gathering")),
            (
                PeerSessionStage::Answering { reply_to },
                PeerSessionEvent::LocalDescription(Some(payload)),
            ) => action == (PeerSessionAction::Exchange {
                send_to: reply_to,
                kind: SignalMessageType::Answer,
                payload,
            }),
            (PeerSessionStage::AwaitingIce, PeerSessionEvent::Signal(reply)) => match reply {
                Err(error) => action == fails(PeerProxyError::Signaling(error)),
                Ok(None) => action == fails(
                    PeerProxyError::MissingResponse("consumer ICE candidates"),
                ),
                Ok(Some(signal)) => if signal.kind == SignalMessageType::Ice {
                    action == (PeerSessionAction::DecodeIce { payload: signal.payload })
                } else {
                    action == fails(unexpected(SignalMessageType::Ice, signal.kind))
                },
            },
            (PeerSessionStage::DecodingIce, PeerSessionEvent::Undecodable(source)) => action
                == fails(PeerProxyError::Decode { step: "ICE", source }),
            (
                PeerSessionStage::DecodingIce,
                PeerSessionEvent::Ice(message),
            ) => if message.consumer_session_id@.len() == 0 {
                action == fails(PeerProxyError::MissingConsumerSessionId)
            } else if !protocol::is_token(message.consumer_session_id@) {
                action == fails(PeerProxyError::InvalidConsumerSessionId)
            } else {
                action == (PeerSessionAction::PublishSessionId {
                    session_id: message.consumer_session_id,
                })
            },
            (PeerSessionStage::Publishing { message }, PeerSessionEvent::SessionIdPublished) =>
                self.performs_add_from(message, 0, action),
            (
                PeerSessionStage::AddingCandidates { message, index },
                PeerSessionEvent::CandidateAdded,
            ) => self.performs_add_from(message, index + 1, action),
            (PeerSessionStage::AddingCandidates { .. }, PeerSessionEvent::WebRtcFailed(error)) =>
                action == fails(PeerProxyError::WebRtc(error)),
            (
                PeerSessionStage::AwaitingDataChannel { session_id },
                PeerSessionEvent::DataChannel(outcome),
            ) => match outcome {
                DataChannelOutcome::Opened => action == (PeerSessionAction::ConnectEgress {
                    url: self.egress_url,
                    session_id,
                }),
                DataChannelOutcome::TimedOut => action == fails(PeerProxyError::NatTimeout),
                DataChannelOutcome::Abandoned => action == fails(
                    PeerProxyError::DataChannelClosed,
                ),
                DataChannelOutcome::PeerEnded(state) => action == fails(
                    PeerProxyError::PeerConnectionEnded(state),
                ),
            },
            (PeerSessionStage::ConnectingEgress { .. }, PeerSessionEvent::Egress(result)) =>
                match result {
                    Ok(_) => action is Relay,
                    Err(error) => action == fails(PeerProxyError::Egress(error)),
                },
            (
                PeerSessionStage::Relaying { session_id },
                PeerSessionEvent::RelayEnded { result, duration },
            ) => match result {
                Ok(relay_end) => action == PeerSessionAction::Finish(
                    Ok(
                        PeerProxyOutcome {
                            consumer_session_id: session_id,
                            relay_end,
                            relay_duration: duration,
                        },
                    ),
                ),
                Err(source) => action == fails(
                    PeerProxyError::Relay { relay_duration: duration, source },
                ),
            },
            _ => action is Ignore,
        }
    }
}

/// The end of a session that failed.
pub open spec fn fails(error: PeerProxyError) -> PeerSessionAction {
    PeerSessionAction::Finish(Err(error))
}

/// The error for a signaling message of the wrong kind.
pub open spec fn unexpected(
    expected: SignalMessageType,
    actual: SignalMessageType,
) -> PeerProxyError {
    PeerProxyError::UnexpectedSignal { expected, actual }
}

impl PeerSession {
    /// A session at its start, and the announcement that starts it.
    pub fn start(config: PeerProxyConfig) -> (started: (PeerSession, PeerSessionAction))
        ensures
            started.0 == (PeerSession {
                egress_url: config.egress_url,
                nat_timeout: config.nat_timeout,
                stage: PeerSessionStage::AwaitingOffer,
            }),
            started.0.wf(),
            started.1 matches PeerSessionAction::Exchange { send_to, kind, payload } && send_to@
                == "genesis"@ && kind == SignalMessageType::Genesis && payload@ == genesis_text(),
    {
        let session = PeerSession {
            egress_url: config.egress_url,
            nat_timeout: config.nat_timeout,
            stage: PeerSessionStage::AwaitingOffer,
        };
        let action = PeerSessionAction::Exchange {
            send_to: "genesis".to_owned(),
            kind: SignalMessageType::Genesis,
            payload: genesis_payload(),
        };
        (session, action)
    }

    fn finish(egress_url: String, nat_timeout: Duration, error: PeerProxyError) -> (next: (
        PeerSession,
        PeerSessionAction,
    ))
        ensures
            next.0 == (PeerSession { egress_url, nat_timeout, stage: PeerSessionStage::Finished }),
            next.1 == fails(error),
    {
        (
            PeerSession { egress_url, nat_timeout, stage: PeerSessionStage::Finished },
            PeerSessionAction::Finish(Err(error)),
        )
    }

    /// Whether the WebRTC stack can compute the priority of the candidate that is next to be
    /// handed over on `event`, if there is one.
    pub fn admits(&self, event: &PeerSessionEvent) -> (admitted: bool)
        ensures
            admitted == self.spec_admits(*event),
    {
        match (&self.stage, event) {
            (PeerSessionStage::Publishing { message }, PeerSessionEvent::SessionIdPublished) =>
                message.candidates.len() == 0 || message.candidates[0].has_priority(),
            (
                PeerSessionStage::AddingCandidates { message, index },
                PeerSessionEvent::CandidateAdded,
            ) => *index >= message.candidates.len() || *index + 1 >= message.candidates.len()
                || message.candidates[*index + 1].has_priority(),
            _ => true,
        }
    }

    /// Goes on once the connection has taken in the candidates before `index`.
    fn add_from(self, message: IceMessage, index: usize) -> (next: (
        PeerSession,
        PeerSessionAction,
    ))
        requires
            protocol::is_token(message.consumer_session_id@),
            message.candidate_at(index as int) matches Some(candidate)
                ==> candidate.spec_has_priority(),
        ensures
            next.0 == self.spec_add_from(message, index as int),
            next.0.wf(),
            self.performs_add_from(message, index as int, next.1),
    {
        let egress_url = self.egress_url;
        let nat_timeout = self.nat_timeout;
        if index >= message.candidates.len() {
            let session_id = message.consumer_session_id;
            return (
                PeerSession {
                    egress_url,
                    nat_timeout,
                    stage: PeerSessionStage::AwaitingDataChannel { session_id },
                },
                PeerSessionAction::AwaitDataChannel { timeout: nat_timeout },
            );
        }
        match message.candidates[index].to_init() {
            Ok(candidate) => (
                PeerSession {
                    egress_url,
                    nat_timeout,
                    stage: PeerSessionStage::AddingCandidates { message, index },
                },
                PeerSessionAction::AddCandidate { candidate },
            ),
            Err(error) => PeerSession::finish(
                egress_url,
                nat_timeout,
                PeerProxyError::InvalidIceCandidate(error),
            ),
        }
    }

    /// Decides what the session does on `event`, and what it waits for next. The WebRTC stack must
    /// be able to compute the priority of a candidate that is handed over.
    pub fn step(self, event: PeerSessionEvent) -> (next: (PeerSession, PeerSessionAction))
        requires
            self.wf(),
            self.spec_admits(event),
        ensures
            next.0 == self.spec_next(event),
            next.0.wf(),
            self.performs(event, next.1),
    {
        let egress_url = self.egress_url;
        let nat_timeout = self.nat_timeout;
        match (self.stage, event) {
            (PeerSessionStage::Finished, _) => (
                PeerSession { egress_url, nat_timeout, stage: PeerSessionStage::Finished },
                PeerSessionAction::Ignore,
            ),
            (_, PeerSessionEvent::Cancelled) => PeerSession::finish(
                egress_url,
                nat_timeout,
                PeerProxyError::Cancelled,
            ),
            (PeerSessionStage::AwaitingOffer, PeerSessionEvent::Signal(reply)) => match reply {
                Err(error) => PeerSession::finish(
                    egress_url,
                    nat_timeout,
                    PeerProxyError::Signaling(error),
                ),
                Ok(None) => PeerSession::finish(
                    egress_url,
                    nat_timeout,
                    PeerProxyError::MissingResponse("offer"),
                ),
                Ok(Some(signal)) => match expect_signal(&signal, SignalMessageType::Offer) {
                    Ok(_) => (
                        PeerSession {
                            egress_url,
                            nat_timeout,
                            stage: PeerSessionStage::Answering { reply_to: signal.reply_to },
                        },
                        PeerSessionAction::AnswerOffer { payload: signal.payload },
                    ),
                    Err(error) => PeerSession::finish(egress_url, nat_timeout, error),
                },
            },
            (PeerSessionStage::Answering { .. }, PeerSessionEvent::Undecodable(source)) =>
                PeerSession::finish(
                    egress_url,
                    nat_timeout,
                    PeerProxyError::Decode { step: "offer", source },
                ),
            (PeerSessionStage::Answering { .. }, PeerSessionEvent::WebRtcFailed(error)) =>
                PeerSession::finish(egress_url, nat_timeout, PeerProxyError::WebRtc(error)),
            (PeerSessionStage::Answering { .. }, PeerSessionEvent::Unencodable(error)) =>
                PeerSession::finish(
                    egress_url,
                    nat_timeout,
                    PeerProxyError::Signaling(SignalingError::Decode(error)),
                ),
            (PeerSessionStage::Answering { reply_to }, PeerSessionEvent::LocalDescription(local)) =>
                match local {
                    Some(payload) => (
                        PeerSession {
                            egress_url,
                            nat_timeout,
                            stage: PeerSessionStage::AwaitingIce,
                        },
                        PeerSessionAction::Exchange {
                            send_to: reply_to,
                            kind: SignalMessageType::Answer,
                            payload,
                        },
                    ),
                    None => PeerSession::finish(
                        egress_url,
                        nat_timeout,
                        PeerProxyError::MissingResponse("local ICE gathering"),
                    ),
                },
            (PeerSessionStage::AwaitingIce, PeerSessionEvent::Signal(reply)) => match reply {
                Err(error) => PeerSession::finish(
                    egress_url,
                    nat_timeout,
                    PeerProxyError::Signaling(error),
                ),
                Ok(None) => PeerSession::finish(
                    egress_url,
                    nat_timeout,
                    PeerProxyError::MissingResponse("consumer ICE candidates"),
                ),
                Ok(Some(signal)) => match expect_signal(&signal, SignalMessageType::Ice) {
                    Ok(_) => (
                        PeerSession {
                            egress_url,
                            nat_timeout,
                            stage: PeerSessionStage::DecodingIce,
                        },
                        PeerSessionAction::DecodeIce { payload: signal.payload },
                    ),
                    Err(error) => PeerSession::finish(egress_url, nat_timeout, error),
                },
            },
            (PeerSessionStage::DecodingIce, PeerSessionEvent::Undecodable(source)) =>
                PeerSession::finish(
                    egress_url,
                    nat_timeout,
                    PeerProxyError::Decode { step: "ICE", source },
                ),
            (PeerSessionStage::DecodingIce, PeerSessionEvent::Ice(message)) => {
                if message.consumer_session_id.as_str().is_empty() {
                    return PeerSession::finish(
                        egress_url,
                        nat_timeout,
                        PeerProxyError::MissingConsumerSessionId,
                    );
                }
                // The session ID comes from the peer and goes into reported events. Anything that
                // is not a clean token is turned away before it is published.
                if !protocol::is_subprotocol_token(message.consumer_session_id.as_str()) {
                    return PeerSession::finish(
                        egress_url,
                        nat_timeout,
                        PeerProxyError::InvalidConsumerSessionId,
                    );
                }
                let session_id = message.consumer_session_id.clone();
                (
                    PeerSession {
                        egress_url,
                        nat_timeout,
                        stage: PeerSessionStage::Publishing { message },
                    },
                    PeerSessionAction::PublishSessionId { session_id },
                )
            },
            (PeerSessionStage::Publishing { message }, PeerSessionEvent::SessionIdPublished) => {
                let session = PeerSession {
                    egress_url,
                    nat_timeout,
                    stage: PeerSessionStage::Finished,
                };
                session.add_from(message, 0)
            },
            (
                PeerSessionStage::AddingCandidates { message, index },
                PeerSessionEvent::CandidateAdded,
            ) => {
                let session = PeerSession {
                    egress_url,
                    nat_timeout,
                    stage: PeerSessionStage::Finished,
                };
                assert(index < message.candidates.len());
                session.add_from(message, index + 1)
            },
            (PeerSessionStage::AddingCandidates { .. }, PeerSessionEvent::WebRtcFailed(error)) =>
                PeerSession::finish(egress_url, nat_timeout, PeerProxyError::WebRtc(error)),
            (
                PeerSessionStage::AwaitingDataChannel { session_id },
                PeerSessionEvent::DataChannel(outcome),
            ) => match outcome {
                DataChannelOutcome::Opened => {
                    let url = egress_url.clone();
                    let dialed = session_id.clone();
                    (
                        PeerSession {
                            egress_url,
                            nat_timeout,
                            stage: PeerSessionStage::ConnectingEgress { session_id },
                        },
                        PeerSessionAction::ConnectEgress { url, session_id: dialed },
                    )
                },
                DataChannelOutcome::TimedOut => PeerSession::finish(
                    egress_url,
                    nat_timeout,
                    PeerProxyError::NatTimeout,
                ),
                DataChannelOutcome::Abandoned => PeerSession::finish(
                    egress_url,
                    nat_timeout,
                    PeerProxyError::DataChannelClosed,
                ),
                DataChannelOutcome::PeerEnded(state) => PeerSession::finish(
                    egress_url,
                    nat_timeout,
                    PeerProxyError::PeerConnectionEnded(state),
                ),
            },
            (PeerSessionStage::ConnectingEgress { session_id }, PeerSessionEvent::Egress(result)) =>
                match result {
                    Ok(_) => (
                        PeerSession {
                            egress_url,
                            nat_timeout,
                            stage: PeerSessionStage::Relaying { session_id },
                        },
                        PeerSessionAction::Relay,
                    ),
                    Err(error) => PeerSession::finish(
                        egress_url,
                        nat_timeout,
                        PeerProxyError::Egress(error),
                    ),
                },
            (
                PeerSessionStage::Relaying { session_id },
                PeerSessionEvent::RelayEnded { result, duration },
            ) => match result {
                Ok(relay_end) => (
                    PeerSession { egress_url, nat_timeout, stage: PeerSessionStage::Finished },
                    PeerSessionAction::Finish(
                        Ok(
                            PeerProxyOutcome {
                                consumer_session_id: session_id,
                                relay_end,
                                relay_duration: duration,
                            },
                        ),
                    ),
                ),
                Err(source) => PeerSession::finish(
                    egress_url,
                    nat_timeout,
                    PeerProxyError::Relay { relay_duration: duration, source },
                ),
            },
            (stage, _) => (
                PeerSession { egress_url, nat_timeout, stage },
                PeerSessionAction::Ignore,
            ),
        }
    }
}

/// How far a session has come.
pub open spec fn progress(stage: PeerSessionStage) -> int {
    match stage {
        PeerSessionStage::AwaitingOffer => 0,
        PeerSessionStage::Answering { .. } => 1,
        PeerSessionStage::AwaitingIce => 2,
        PeerSessionStage::DecodingIce => 3,
        PeerSessionStage::Publishing { .. } => 4,
        PeerSessionStage::AddingCandidates { .. } => 5,
        PeerSessionStage::AwaitingDataChannel { .. } => 6,
        PeerSessionStage::ConnectingEgress { .. } => 7,
        PeerSessionStage::Relaying { .. } => 8,
        PeerSessionStage::Finished => 9,
    }
}

/// A session only moves forward. An event that it takes notice of brings it to a later stage, or
/// to the next candidate; any other event changes nothing and asks for nothing. A session ends
/// exactly when it gives its result.
pub proof fn law_session_moves_forward(
    session: PeerSession,
    event: PeerSessionEvent,
    action: PeerSessionAction,
)
    requires
        session.wf(),
        session.performs(event, action),
    ensures
        action is Ignore ==> session.spec_next(event) == session,
        action !is Ignore ==> {
            ||| progress(session.spec_next(event).stage) > progress(session.stage)
            ||| {
                &&& session.stage matches PeerSessionStage::AddingCandidates { message, index }
                &&& session.spec_next(event).stage == (PeerSessionStage::AddingCandidates {
                    message,
                    index: (index + 1) as usize,
                })
            }
        },
        action is Finish <==> session.stage !is Finished && session.spec_next(event).stage is Finished,
{
}

/// Cancellation ends a session from every stage, and its result is that it was cancelled.
pub proof fn law_cancellation_ends_every_session(session: PeerSession, action: PeerSessionAction)
    requires
        session.wf(),
        session.stage !is Finished,
    ensures
        session.spec_next(PeerSessionEvent::Cancelled).stage is Finished,
        session.performs(PeerSessionEvent::Cancelled, action) <==> action == fails(
            PeerProxyError::Cancelled,
        ),
{
}

/// The session after a run of events.
pub open spec fn session_after(
    session: PeerSession,
    events: Seq<PeerSessionEvent>,
) -> PeerSession
    decreases events.len(),
{
    if events.len() == 0 {
        session
    } else {
        session_after(session, events.drop_last()).spec_next(events.last())
    }
}

/// A session that has given its result stays as it is, whatever happens then.
pub proof fn law_finished_session_stays_finished(
    session: PeerSession,
    events: Seq<PeerSessionEvent>,
)
    requires
        session.stage is Finished,
    ensures
        session_after(session, events) == session,
    decreases events.len(),
{
    if events.len() > 0 {
        law_finished_session_stays_finished(session, events.drop_last());
    }
}

/// Whether the consumer of session `session_id` has sent its candidates at this point.
pub open spec fn heard_at(events: Seq<PeerSessionEvent>, at: int, session_id: String) -> bool {
    0 <= at < events.len() && (events[at] matches PeerSessionEvent::Ice(message)
        && message.consumer_session_id == session_id)
}

/// Whether the data channel has opened at this point.
pub open spec fn opened_at(events: Seq<PeerSessionEvent>, at: int) -> bool {
    0 <= at < events.len() && events[at] == PeerSessionEvent::DataChannel(
        DataChannelOutcome::Opened,
    )
}

/// Whether the tunnel to the egress has opened at this point.
pub open spec fn connected_at(events: Seq<PeerSessionEvent>, at: int) -> bool {
    0 <= at < events.len() && (events[at] matches PeerSessionEvent::Egress(result) && result is Ok)
}

/// Whether the consumer of session `session_id` has sent its candidates.
pub open spec fn heard(events: Seq<PeerSessionEvent>, session_id: String) -> bool {
    exists|heard: int| #[trigger] heard_at(events, heard, session_id)
}

/// Whether the data channel has opened after that.
pub open spec fn opened_after_heard(events: Seq<PeerSessionEvent>, session_id: String) -> bool {
    exists|heard: int, opened: int|
        heard < opened && #[trigger] heard_at(events, heard, session_id) && #[trigger] opened_at(
            events,
            opened,
        )
}

/// Whether the tunnel to the egress has opened after both.
pub open spec fn connected_after_opened(events: Seq<PeerSessionEvent>, session_id: String) -> bool {
    exists|heard: int, opened: int, connected: int|
        heard < opened && opened < connected && #[trigger] heard_at(events, heard, session_id)
            && #[trigger] opened_at(events, opened) && #[trigger] connected_at(events, connected)
}

/// A session relays datagrams only for a consumer that sent its session ID, a token, and only
/// after that, in this order, the data channel and the tunnel to the egress have opened.
pub proof fn law_relay_follows_the_whole_exchange(
    session: PeerSession,
    events: Seq<PeerSessionEvent>,
)
    requires
        session.stage is AwaitingOffer,
    ensures
        session_after(session, events).stage matches PeerSessionStage::Relaying { session_id }
            ==> protocol::is_token(session_id@) && connected_after_opened(events, session_id),
{
    lemma_exchange_so_far(session, events);
}

/// Whether the session ID has been made known.
pub open spec fn is_published(events: Seq<PeerSessionEvent>) -> bool {
    exists|at: int| 0 <= at < events.len() && #[trigger] events[at] is SessionIdPublished
}

/// The session ID has been made known before the connection takes in the first candidate, and so
/// before it can come up.
pub proof fn law_session_id_is_published_before_candidates(
    session: PeerSession,
    events: Seq<PeerSessionEvent>,
)
    requires
        session.stage is AwaitingOffer,
    ensures
        ({
            let stage = session_after(session, events).stage;
            stage is AddingCandidates || stage is AwaitingDataChannel || stage is ConnectingEgress
                || stage is Relaying ==> is_published(events)
        }),
    decreases events.len(),
{
    if events.len() > 0 {
        let before = events.drop_last();
        law_session_id_is_published_before_candidates(session, before);
        if is_published(before) {
            let at = choose|at: int|
                0 <= at < before.len() && #[trigger] before[at] is SessionIdPublished;
            assert(events[at] is SessionIdPublished);
        }
        assert(events[events.len() - 1] == events.last());
    }
}

/// What has happened by the time a session is in its stage.
spec fn exchange_so_far(events: Seq<PeerSessionEvent>, stage: PeerSessionStage) -> bool {
    match stage {
        PeerSessionStage::Publishing { message } => protocol::is_token(message.consumer_session_id@)
            && heard(events, message.consumer_session_id),
        PeerSessionStage::AddingCandidates { message, .. } => protocol::is_token(
            message.consumer_session_id@,
        ) && heard(events, message.consumer_session_id),
        PeerSessionStage::AwaitingDataChannel { session_id } => protocol::is_token(session_id@)
            && heard(events, session_id),
        PeerSessionStage::ConnectingEgress { session_id } => protocol::is_token(session_id@)
            && opened_after_heard(events, session_id),
        PeerSessionStage::Relaying { session_id } => protocol::is_token(session_id@)
            && connected_after_opened(events, session_id),
        _ => true,
    }
}

/// What has happened stays true when more happens.
proof fn lemma_exchange_grows(events: Seq<PeerSessionEvent>, stage: PeerSessionStage)
    requires
        events.len() > 0,
        exchange_so_far(events.drop_last(), stage),
    ensures
        exchange_so_far(events, stage),
{
    let before = events.drop_last();
    assert forall|at: int, session_id: String| #[trigger]
        heard_at(before, at, session_id) implies heard_at(events, at, session_id) by {}
    assert forall|at: int| #[trigger] opened_at(before, at) implies opened_at(events, at) by {}
    assert forall|at: int| #[trigger] connected_at(before, at) implies connected_at(
        events,
        at,
    ) by {}
}

proof fn lemma_exchange_so_far(session: PeerSession, events: Seq<PeerSessionEvent>)
    requires
        session.stage is AwaitingOffer,
    ensures
        exchange_so_far(events, session_after(session, events).stage),
    decreases events.len(),
{
    if events.len() > 0 {
        lemma_exchange_so_far(session, events.drop_last());
        let stage = session_after(session, events.drop_last()).stage;
        lemma_exchange_grows(events, stage);
        let last = events.len() - 1;
        match (stage, events.last()) {
            (PeerSessionStage::DecodingIce, PeerSessionEvent::Ice(message)) => {
                assert(heard_at(events, last, message.consumer_session_id));
            },
            (
                PeerSessionStage::AwaitingDataChannel { session_id },
                PeerSessionEvent::DataChannel(outcome),
            ) => {
                if outcome is Opened {
                    let heard = choose|heard: int| #[trigger] heard_at(events, heard, session_id);
                    assert(opened_at(events, last));
                    assert(heard_at(events, heard, session_id) && heard < last);
                    assert(opened_after_heard(events, session_id));
                }
            },
            (PeerSessionStage::ConnectingEgress { session_id }, PeerSessionEvent::Egress(result)) => {
                if result is Ok {
                    let (heard, opened) = choose|heard: int, opened: int|
                        heard < opened && #[trigger] heard_at(events, heard, session_id)
                            && #[trigger] opened_at(events, opened);
                    assert(connected_at(events, last));
                    assert(opened_at(events, opened) && opened < last);
                    assert(heard_at(events, heard, session_id) && heard < opened);
                    assert(connected_after_opened(events, session_id));
                }
            },
            _ => {},
        }
    }
}

/// One event of a session, and what the session did on it.
#[derive(Debug)]
pub struct PeerSessionStep {
    pub event: PeerSessionEvent,
    pub action: PeerSessionAction,
}

/// Whether `steps` is what can happen to a session, one after the other.
pub open spec fn is_run(session: PeerSession, steps: Seq<PeerSessionStep>) -> bool
    decreases steps.len(),
{
    steps.len() > 0 ==> session.performs(steps[0].event, steps[0].action) && is_run(
        session.spec_next(steps[0].event),
        steps.drop_first(),
    )
}

/// The session after `steps`.
pub open spec fn end_of(session: PeerSession, steps: Seq<PeerSessionStep>) -> PeerSession
    decreases steps.len(),
{
    if steps.len() == 0 {
        session
    } else {
        end_of(session.spec_next(steps[0].event), steps.drop_first())
    }
}

/// The candidates that were handed to the connection, in order.
pub open spec fn handed_over(steps: Seq<PeerSessionStep>) -> Seq<IceCandidateInit>
    decreases steps.len(),
{
    if steps.len() == 0 {
        Seq::empty()
    } else {
        match steps[0].action {
            PeerSessionAction::AddCandidate { candidate } => seq![candidate] + handed_over(
                steps.drop_first(),
            ),
            _ => handed_over(steps.drop_first()),
        }
    }
}

/// How long the data channel was waited for, each time that a wait began.
pub open spec fn channel_waits(steps: Seq<PeerSessionStep>) -> Seq<Duration>
    decreases steps.len(),
{
    if steps.len() == 0 {
        Seq::empty()
    } else {
        match steps[0].action {
            PeerSessionAction::AwaitDataChannel { timeout } => seq![timeout] + channel_waits(
                steps.drop_first(),
            ),
            _ => channel_waits(steps.drop_first()),
        }
    }
}

/// The name of a candidate's protocol, from its number in a signaling message.
pub open spec fn protocol_name(number: u8) -> Seq<char> {
    match number {
        1 => "udp"@,
        2 => "tcp"@,
        _ => "Unspecified"@,
    }
}

/// The name of a candidate's kind.
pub open spec fn kind_name(typ: IceCandidateType) -> Seq<char> {
    match typ {
        IceCandidateType::Unspecified => "Unspecified"@,
        IceCandidateType::Host => "host"@,
        IceCandidateType::Srflx => "srflx"@,
        IceCandidateType::Prflx => "prflx"@,
        IceCandidateType::Relay => "relay"@,
    }
}

/// The WebRTC stack's candidate string for the fields of `candidate`, if it has one.
pub open spec fn candidate_string(candidate: PionIceCandidate) -> Option<Seq<char>> {
    rtc::w3c_candidate(
        candidate.foundation@,
        candidate.priority,
        candidate.address@,
        protocol_name(candidate.protocol),
        candidate.port,
        kind_name(candidate.typ),
        candidate.component,
        candidate.related_address@,
        candidate.related_port,
    )
}

/// Whether `init` is `candidate` as a connection takes it in: its candidate string, and its media
/// description as it came.
pub open spec fn is_taken_in_as(candidate: PionIceCandidate, init: IceCandidateInit) -> bool {
    &&& candidate_string(candidate) == Some(init.candidate@)
    &&& init.sdp_mid == candidate.sdp_mid
    &&& init.sdp_mline_index == candidate.sdp_mline_index
}

/// A session never goes back.
proof fn lemma_run_moves_forward(session: PeerSession, steps: Seq<PeerSessionStep>)
    requires
        session.wf(),
        is_run(session, steps),
    ensures
        progress(end_of(session, steps).stage) >= progress(session.stage),
        end_of(session, steps).wf(),
        end_of(session, steps).egress_url == session.egress_url,
        end_of(session, steps).nat_timeout == session.nat_timeout,
    decreases steps.len(),
{
    if steps.len() > 0 {
        law_session_moves_forward(session, steps[0].event, steps[0].action);
        lemma_run_moves_forward(session.spec_next(steps[0].event), steps.drop_first());
    }
}

/// The candidate that is handed over next, if a session stands before the wait for the channel.
spec fn next_index(stage: PeerSessionStage) -> int {
    match stage {
        PeerSessionStage::AddingCandidates { index, .. } => index + 1,
        _ => 0,
    }
}

spec fn message_of(stage: PeerSessionStage) -> IceMessage {
    match stage {
        PeerSessionStage::Publishing { message } => message,
        PeerSessionStage::AddingCandidates { message, .. } => message,
        _ => arbitrary(),
    }
}

proof fn lemma_rest_is_handed_over(session: PeerSession, steps: Seq<PeerSessionStep>)
    requires
        session.wf(),
        session.stage is Publishing || session.stage is AddingCandidates
            || session.stage is AwaitingDataChannel,
        is_run(session, steps),
        end_of(session, steps).stage is AwaitingDataChannel,
    ensures
        session.stage is AwaitingDataChannel ==> {
            &&& handed_over(steps).len() == 0
            &&& channel_waits(steps).len() == 0
            &&& end_of(session, steps).stage == session.stage
        },
        session.stage !is AwaitingDataChannel ==> {
            let message = message_of(session.stage);
            let from = next_index(session.stage);
            &&& handed_over(steps).len() == message.candidates@.len() - from
            &&& forall|i: int|
                0 <= i < handed_over(steps).len() ==> is_taken_in_as(
                    message.candidates@[from + i],
                    #[trigger] handed_over(steps)[i],
                )
            &&& channel_waits(steps) == seq![session.nat_timeout]
            &&& end_of(session, steps).stage == (PeerSessionStage::AwaitingDataChannel {
                session_id: message.consumer_session_id,
            })
        },
    decreases steps.len(),
{
    if steps.len() > 0 {
        let (event, action) = (steps[0].event, steps[0].action);
        let next = session.spec_next(event);
        let rest = steps.drop_first();
        law_session_moves_forward(session, event, action);
        lemma_run_moves_forward(next, rest);
        lemma_rest_is_handed_over(next, rest);
        if session.stage !is AwaitingDataChannel && action !is Ignore {
            let message = message_of(session.stage);
            let from = next_index(session.stage);
            if action is AddCandidate {
                let first = action->candidate;
                assert(is_taken_in_as(message.candidates@[from], first));
                assert(handed_over(steps) == seq![first] + handed_over(rest));
                assert(from < message.candidates.len());
                assert(next.stage == (PeerSessionStage::AddingCandidates {
                    message,
                    index: from as usize,
                }));
                assert forall|i: int| 0 <= i < handed_over(steps).len() implies is_taken_in_as(
                    message.candidates@[from + i],
                    #[trigger] handed_over(steps)[i],
                ) by {
                    if i > 0 {
                        assert(handed_over(steps)[i] == handed_over(rest)[i - 1]);
                        assert(next_index(next.stage) + (i - 1) == from + i);
                        assert(is_taken_in_as(
                            message_of(next.stage).candidates@[next_index(next.stage) + (i - 1)],
                            handed_over(rest)[i - 1],
                        ));
                    }
                }
            } else {
                assert(channel_waits(steps) =~= seq![session.nat_timeout]);
            }
        }
    }
}

/// A connection is told of every candidate that the consumer sent, each of them once and in order,
/// before the wait for the data channel begins, which then lasts as long as the session allows. Each
/// candidate is handed over as the WebRTC stack's string for its own fields, with its media
/// description as it came.
pub proof fn law_every_candidate_is_handed_over(
    session: PeerSession,
    message: IceMessage,
    steps: Seq<PeerSessionStep>,
)
    requires
        session.wf(),
        session.stage == (PeerSessionStage::Publishing { message }),
        is_run(session, steps),
        end_of(session, steps).stage is AwaitingDataChannel,
    ensures
        handed_over(steps).len() == message.candidates@.len(),
        forall|i: int|
            0 <= i < message.candidates@.len() ==> is_taken_in_as(
                message.candidates@[i],
                #[trigger] handed_over(steps)[i],
            ),
        channel_waits(steps) == seq![session.nat_timeout],
        end_of(session, steps).stage == (PeerSessionStage::AwaitingDataChannel {
            session_id: message.consumer_session_id,
        }),
{
    lemma_rest_is_handed_over(session, steps);
}

/// While candidates are handed over, each one that the connection takes in is followed by the next,
/// or by the wait for the data channel after the last; only a candidate that the WebRTC stack has no
/// string for ends the session.
pub proof fn law_next_candidate_follows(
    session: PeerSession,
    message: IceMessage,
    index: usize,
    action: PeerSessionAction,
)
    requires
        session.wf(),
        session.stage == (PeerSessionStage::AddingCandidates { message, index }),
        session.performs(PeerSessionEvent::CandidateAdded, action),
    ensures
        index + 1 == message.candidates@.len() ==> action == (
        PeerSessionAction::AwaitDataChannel { timeout: session.nat_timeout }),
        index + 1 < message.candidates@.len() && candidate_string(
            message.candidates@[index + 1],
        ) is Some ==> (action matches PeerSessionAction::AddCandidate { candidate }
            && is_taken_in_as(message.candidates@[index + 1], candidate)),
        index + 1 < message.candidates@.len() && candidate_string(
            message.candidates@[index + 1],
        ) is None ==> action matches PeerSessionAction::Finish(
            Err(PeerProxyError::InvalidIceCandidate(_)),
        ),
{
}

/// The offer is answered where it came from, with the description that the connection gave; the
/// consumer's last message is decoded, and its session ID made known. The session then has that
/// message to work on.
pub proof fn law_offer_is_answered(
    session: PeerSession,
    offer: SignalMessage,
    description: String,
    ice: SignalMessage,
    message: IceMessage,
    actions: Seq<PeerSessionAction>,
)
    requires
        session.stage is AwaitingOffer,
        offer.kind == SignalMessageType::Offer,
        ice.kind == SignalMessageType::Ice,
        protocol::is_token(message.consumer_session_id@),
        actions.len() == 4,
        is_run(
            session,
            seq![
                PeerSessionStep {
                    event: PeerSessionEvent::Signal(Ok(Some(offer))),
                    action: actions[0],
                },
                PeerSessionStep {
                    event: PeerSessionEvent::LocalDescription(Some(description)),
                    action: actions[1],
                },
                PeerSessionStep {
                    event: PeerSessionEvent::Signal(Ok(Some(ice))),
                    action: actions[2],
                },
                PeerSessionStep { event: PeerSessionEvent::Ice(message), action: actions[3] },
            ],
        ),
    ensures
        actions[0] == (PeerSessionAction::AnswerOffer { payload: offer.payload }),
        actions[1] == (PeerSessionAction::Exchange {
            send_to: offer.reply_to,
            kind: SignalMessageType::Answer,
            payload: description,
        }),
        actions[2] == (PeerSessionAction::DecodeIce { payload: ice.payload }),
        actions[3] == (PeerSessionAction::PublishSessionId {
            session_id: message.consumer_session_id,
        }),
        session.spec_next(PeerSessionEvent::Signal(Ok(Some(offer)))).spec_next(
            PeerSessionEvent::LocalDescription(Some(description)),
        ).spec_next(PeerSessionEvent::Signal(Ok(Some(ice)))).spec_next(
            PeerSessionEvent::Ice(message),
        ) == (PeerSession {
            egress_url: session.egress_url,
            nat_timeout: session.nat_timeout,
            stage: PeerSessionStage::Publishing { message },
        }),
{
    let steps = seq![
        PeerSessionStep { event: PeerSessionEvent::Signal(Ok(Some(offer))), action: actions[0] },
        PeerSessionStep {
            event: PeerSessionEvent::LocalDescription(Some(description)),
            action: actions[1],
        },
        PeerSessionStep { event: PeerSessionEvent::Signal(Ok(Some(ice))), action: actions[2] },
        PeerSessionStep { event: PeerSessionEvent::Ice(message), action: actions[3] },
    ];
    reveal_with_fuel(is_run, 5);
    let after_offer = steps.drop_first();
    let after_description = after_offer.drop_first();
    let after_ice = after_description.drop_first();
    assert(after_offer[0] == steps[1]);
    assert(after_description[0] == steps[2]);
    assert(after_ice[0] == steps[3]);
}

/// Once the data channel is open, the tunnel is opened to the session's egress under the consumer's
/// ID; once that is open, datagrams are relayed; and the outcome names the consumer, the side that
/// ended the relay and how long it lasted.
pub proof fn law_open_channel_leads_to_the_outcome(
    session: PeerSession,
    session_id: String,
    relay_end: RelayEnd,
    duration: Duration,
    actions: Seq<PeerSessionAction>,
)
    requires
        session.stage == (PeerSessionStage::AwaitingDataChannel { session_id }),
        actions.len() == 3,
        is_run(
            session,
            seq![
                PeerSessionStep {
                    event: PeerSessionEvent::DataChannel(DataChannelOutcome::Opened),
                    action: actions[0],
                },
                PeerSessionStep { event: PeerSessionEvent::Egress(Ok(())), action: actions[1] },
                PeerSessionStep {
                    event: PeerSessionEvent::RelayEnded { result: Ok(relay_end), duration },
                    action: actions[2],
                },
            ],
        ),
    ensures
        actions[0] == (PeerSessionAction::ConnectEgress { url: session.egress_url, session_id }),
        actions[1] is Relay,
        actions[2] == PeerSessionAction::Finish(
            Ok(
                PeerProxyOutcome {
                    consumer_session_id: session_id,
                    relay_end,
                    relay_duration: duration,
                },
            ),
        ),
{
    let steps = seq![
        PeerSessionStep {
            event: PeerSessionEvent::DataChannel(DataChannelOutcome::Opened),
            action: actions[0],
        },
        PeerSessionStep { event: PeerSessionEvent::Egress(Ok(())), action: actions[1] },
        PeerSessionStep {
            event: PeerSessionEvent::RelayEnded { result: Ok(relay_end), duration },
            action: actions[2],
        },
    ];
    reveal_with_fuel(is_run, 4);
    assert(steps.drop_first()[0] == steps[1]);
    assert(steps.drop_first().drop_first()[0] == steps[2]);
}

/// Every failure has its cause, and says what it was: an error that was reported is passed on as it
/// came, a signal of the wrong kind is named with the kind that was waited for, and a session ID is
/// turned away only if it is missing or no token.
pub proof fn law_every_failure_has_its_cause(
    session: PeerSession,
    event: PeerSessionEvent,
    error: PeerProxyError,
)
    requires
        session.performs(event, PeerSessionAction::Finish(Err(error))),
    ensures
        match error {
            PeerProxyError::Signaling(cause) => event == PeerSessionEvent::Signal(Err(cause)) || (
            event matches PeerSessionEvent::Unencodable(text) && cause == SignalingError::Decode(
                text,
            )),
            PeerProxyError::WebRtc(cause) => event == PeerSessionEvent::WebRtcFailed(cause),
            PeerProxyError::Decode { step, source } => event == PeerSessionEvent::Undecodable(
                source,
            ) && (session.stage is Answering && step == "offer" || session.stage is DecodingIce
                && step == "ICE"),
            PeerProxyError::MissingResponse(what) => {
                ||| session.stage is AwaitingOffer && event == PeerSessionEvent::Signal(Ok(None))
                    && what == "offer"
                ||| session.stage is AwaitingIce && event == PeerSessionEvent::Signal(Ok(None))
                    && what == "consumer ICE candidates"
                ||| session.stage is Answering && event == PeerSessionEvent::LocalDescription(None)
                    && what == "local ICE gathering"
            },
            PeerProxyError::UnexpectedSignal { expected, actual } => {
                &&& event matches PeerSessionEvent::Signal(Ok(Some(signal)))
                &&& signal.kind == actual
                &&& actual != expected
                &&& session.stage is AwaitingOffer && expected == SignalMessageType::Offer
                    || session.stage is AwaitingIce && expected == SignalMessageType::Ice
            },
            PeerProxyError::MissingConsumerSessionId => event matches PeerSessionEvent::Ice(message)
                && message.consumer_session_id@.len() == 0,
            PeerProxyError::InvalidConsumerSessionId => event matches PeerSessionEvent::Ice(message)
                && message.consumer_session_id@.len() > 0 && !protocol::is_token(
                message.consumer_session_id@,
            ),
            PeerProxyError::InvalidIceCandidate(_) => match session.stage {
                PeerSessionStage::Publishing { message } => event is SessionIdPublished
                    && message.candidates@.len() > 0 && candidate_string(message.candidates@[0])
                    is None,
                PeerSessionStage::AddingCandidates { message, index } => event is CandidateAdded
                    && index + 1 < message.candidates@.len() && candidate_string(
                    message.candidates@[index + 1],
                ) is None,
                _ => false,
            },
            PeerProxyError::NatTimeout => event == PeerSessionEvent::DataChannel(
                DataChannelOutcome::TimedOut,
            ),
            PeerProxyError::DataChannelClosed => event == PeerSessionEvent::DataChannel(
                DataChannelOutcome::Abandoned,
            ),
            PeerProxyError::PeerConnectionEnded(state) => event == PeerSessionEvent::DataChannel(
                DataChannelOutcome::PeerEnded(state),
            ),
            PeerProxyError::Egress(cause) => event == PeerSessionEvent::Egress(Err(cause)),
            PeerProxyError::Relay { relay_duration, source } => event == (
            PeerSessionEvent::RelayEnded { result: Err(source), duration: relay_duration }),
            PeerProxyError::Cancelled => event is Cancelled,
        },
{
}

/// Whether `event` is the failure of what a session in this stage waits for.
pub open spec fn is_failure(stage: PeerSessionStage, event: PeerSessionEvent) -> bool {
    match stage {
        PeerSessionStage::AwaitingOffer => event matches PeerSessionEvent::Signal(reply) && !(
        reply matches Ok(Some(signal)) && signal.kind == SignalMessageType::Offer),
        PeerSessionStage::Answering { .. } => event is Undecodable || event is Unencodable || event
            is WebRtcFailed || event == PeerSessionEvent::LocalDescription(None),
        PeerSessionStage::AwaitingIce => event matches PeerSessionEvent::Signal(reply) && !(
        reply matches Ok(Some(signal)) && signal.kind == SignalMessageType::Ice),
        PeerSessionStage::DecodingIce => event is Undecodable || (
        event matches PeerSessionEvent::Ice(message) && !protocol::is_token(
            message.consumer_session_id@,
        )),
        PeerSessionStage::Publishing { .. } => false,
        PeerSessionStage::AddingCandidates { .. } => event is WebRtcFailed,
        PeerSessionStage::AwaitingDataChannel { .. } => event matches PeerSessionEvent::DataChannel(
            outcome,
        ) && outcome !is Opened,
        PeerSessionStage::ConnectingEgress { .. } => event matches PeerSessionEvent::Egress(result)
            && result is Err,
        PeerSessionStage::Relaying { .. } => event matches PeerSessionEvent::RelayEnded {
            result,
            ..
        } && result is Err,
        PeerSessionStage::Finished => false,
    }
}

/// A failure of what a session waits for ends the session with an error; nothing but that, a
/// cancellation or a candidate without a string does.
pub proof fn law_failures_end_the_session(
    session: PeerSession,
    event: PeerSessionEvent,
    action: PeerSessionAction,
)
    requires
        session.performs(event, action),
    ensures
        is_failure(session.stage, event) ==> action matches PeerSessionAction::Finish(Err(_)),
        action matches PeerSessionAction::Finish(Err(error)) ==> is_failure(session.stage, event)
            || error is Cancelled || error is InvalidIceCandidate,
{
    if is_failure(session.stage, event) && event is Ice {
        let id = event->Ice_0.consumer_session_id@;
        assert(id.len() == 0 || !protocol::is_token(id));
    }
}

/// A session asks for each thing only when its turn has come: it never sends, applies, publishes,
/// dials or relays anything on an event that does not call for it.
pub proof fn law_every_action_has_its_turn(
    session: PeerSession,
    event: PeerSessionEvent,
    action: PeerSessionAction,
)
    requires
        session.performs(event, action),
    ensures
        match action {
            PeerSessionAction::Exchange { send_to, kind, payload } => {
                &&& session.stage matches PeerSessionStage::Answering { reply_to }
                &&& send_to == reply_to
                &&& kind == SignalMessageType::Answer
                &&& event matches PeerSessionEvent::LocalDescription(Some(description))
                &&& payload == description
            },
            PeerSessionAction::AnswerOffer { payload } => session.stage is AwaitingOffer && (
            event matches PeerSessionEvent::Signal(Ok(Some(signal))) && signal.kind
                == SignalMessageType::Offer && signal.payload == payload),
            PeerSessionAction::DecodeIce { payload } => session.stage is AwaitingIce && (
            event matches PeerSessionEvent::Signal(Ok(Some(signal))) && signal.kind
                == SignalMessageType::Ice && signal.payload == payload),
            PeerSessionAction::PublishSessionId { session_id } => session.stage is DecodingIce && (
            event matches PeerSessionEvent::Ice(message) && message.consumer_session_id
                == session_id && protocol::is_token(session_id@)),
            PeerSessionAction::AddCandidate { .. } => session.stage is Publishing && event
                is SessionIdPublished || session.stage is AddingCandidates && event
                is CandidateAdded,
            PeerSessionAction::AwaitDataChannel { timeout } => timeout == session.nat_timeout && (
            session.stage is Publishing && event is SessionIdPublished || session.stage
                is AddingCandidates && event is CandidateAdded),
            PeerSessionAction::ConnectEgress { url, session_id } => url == session.egress_url
                && session.stage == (PeerSessionStage::AwaitingDataChannel { session_id })
                && event == PeerSessionEvent::DataChannel(DataChannelOutcome::Opened),
            PeerSessionAction::Relay => session.stage is ConnectingEgress && (
            event matches PeerSessionEvent::Egress(result) && result is Ok),
            PeerSessionAction::Finish(Ok(outcome)) => session.stage == (
            PeerSessionStage::Relaying { session_id: outcome.consumer_session_id }) && event == (
            PeerSessionEvent::RelayEnded {
                result: Ok(outcome.relay_end),
                duration: outcome.relay_duration,
            }),
            PeerSessionAction::Finish(Err(_)) | PeerSessionAction::Ignore => true,
        },
{
}

/// An event that hands over no candidate is always admitted, and so is one that hands over a
/// candidate with a priority of its own, or with a component that fits into the priority that it is
/// given.
pub proof fn law_what_is_admitted(session: PeerSession, event: PeerSessionEvent)
    ensures
        event !is SessionIdPublished && event !is CandidateAdded ==> session.spec_admits(event),
        session.stage !is Publishing && session.stage !is AddingCandidates ==> session.spec_admits(
            event,
        ),
        session.stage matches PeerSessionStage::Publishing { message } ==> (
        message.candidates@.len() == 0 || message.candidates@[0].priority != 0
            || message.candidates@[0].component <= 256) ==> session.spec_admits(event),
        session.stage matches PeerSessionStage::AddingCandidates { message, index } ==> (index + 1
            >= message.candidates@.len() || message.candidates@[index + 1].priority != 0
            || message.candidates@[index + 1].component <= 256) ==> session.spec_admits(event),
{
}

/// Whether `event` tells a session in this stage what came of its last action.
pub open spec fn is_awaited(stage: PeerSessionStage, event: PeerSessionEvent) -> bool {
    match stage {
        PeerSessionStage::AwaitingOffer | PeerSessionStage::AwaitingIce => event is Signal,
        PeerSessionStage::Answering { .. } => event is LocalDescription || event is Undecodable
            || event is Unencodable || event is WebRtcFailed,
        PeerSessionStage::DecodingIce => event is Ice || event is Undecodable,
        PeerSessionStage::Publishing { .. } => event is SessionIdPublished,
        PeerSessionStage::AddingCandidates { .. } => event is CandidateAdded || event
            is WebRtcFailed,
        PeerSessionStage::AwaitingDataChannel { .. } => event is DataChannel,
        PeerSessionStage::ConnectingEgress { .. } => event is Egress,
        PeerSessionStage::Relaying { .. } => event is RelayEnded,
        PeerSessionStage::Finished => false,
    }
}

/// A session passes over exactly the events that tell it nothing that it waits for: what came of its
/// last action, and a cancellation before its end, never go unheeded.
pub proof fn law_nothing_awaited_is_ignored(
    session: PeerSession,
    event: PeerSessionEvent,
    action: PeerSessionAction,
)
    requires
        session.performs(event, action),
    ensures
        action is Ignore <==> !is_awaited(session.stage, event) && !(event is Cancelled
            && session.stage !is Finished),
{
}

/// A candidate keeps every field when its protocol is given by name, whatever else the message says
/// of it: 1 is UDP, 2 is TCP, and every other number is unspecified. The WebRTC stack has the same
/// string for both.
pub proof fn law_candidate_keeps_its_fields(candidate: PionIceCandidate)
    ensures
        ({
            let named = candidate.spec_rust_candidate();
            &&& named.foundation == candidate.foundation
            &&& named.priority == candidate.priority
            &&& named.address == candidate.address
            &&& named.protocol is Udp <==> candidate.protocol == 1
            &&& named.protocol is Tcp <==> candidate.protocol == 2
            &&& named.port == candidate.port
            &&& named.typ == candidate.typ
            &&& named.component == candidate.component
            &&& named.related_address == candidate.related_address
            &&& named.related_port == candidate.related_port
            &&& named.tcp_type == candidate.tcp_type
            &&& named.spec_w3c() == candidate_string(candidate)
        }),
        candidate.spec_w3c() == candidate_string(candidate),
        !candidate.spec_has_priority() <==> candidate.priority == 0 && candidate.component > 256
            && candidate.typ !is Unspecified,
{
}

/// Two configurations with the same settings go to the same egress with the same servers, time,
/// address families and fingerprint.
pub proof fn law_same_settings_are_the_same(a: PeerProxyConfig, b: PeerProxyConfig)
    requires
        a.same_settings(b),
    ensures
        a.egress_url == b.egress_url,
        a.stun_urls@ == b.stun_urls@,
        a.nat_timeout == b.nat_timeout,
        a.enable_ipv6 == b.enable_ipv6,
        a.randomize_dtls == b.randomize_dtls,
{
}

/// A session starts by announcing itself to whoever listens, and goes to the egress and waits for
/// the data channel as its configuration says.
pub proof fn law_session_starts_with_the_announcement(
    config: PeerProxyConfig,
    started: (PeerSession, PeerSessionAction),
)
    requires
        call_ensures(PeerSession::start, (config,), started),
    ensures
        started.0.stage is AwaitingOffer,
        started.0.egress_url == config.egress_url,
        started.0.nat_timeout == config.nat_timeout,
        started.1 matches PeerSessionAction::Exchange { send_to, kind, payload } && send_to@
            == "genesis"@ && kind is Genesis && payload@ == genesis_text(),
{
}

/// A signal is accepted exactly if it is of the expected kind; otherwise both kinds are named.
pub proof fn law_only_the_expected_signal_is_accepted(
    signal: SignalMessage,
    expected: SignalMessageType,
    accepted: Result<(), PeerProxyError>,
)
    requires
        call_ensures(expect_signal, (&signal, expected), accepted),
    ensures
        accepted is Ok <==> signal.kind == expected,
        accepted is Err ==> accepted->Err_0 == (PeerProxyError::UnexpectedSignal {
            expected,
            actual: signal.kind,
        }),
{
}

} // verus!
