//! The sessions of a consumer: finding a peer proxy, offering it a path, and keeping paths coming.
//!
//! [`GenesisSelection`], [`ConsumerSession`] and [`ConsumerSupervisor`] decide. The caller talks to
//! the signaling service and the WebRTC connection, sleeps, and reports what came of it.
use rand::seq::IndexedRandom;
use vstd::prelude::*;
use vstd::string::StringExecFns;

use crate::addr::SocketAddress;
use crate::consumer_path;
use crate::consumer_path::{ConsumerPathEnd, ConsumerPathError, SyntheticPathAllocator};
use crate::duration::Duration;
use crate::json;
use crate::json::JsonValue;
use crate::peer_proxy;
use crate::peer_proxy::{DataChannelOutcome, PionIceCandidate};
use crate::protocol::{SignalMessage, SignalMessageType};
use crate::rtc::{IceCandidate, IceCandidateType, IceProtocol, PeerConnectionState};
use crate::signaling::SignalingError;
use crate::text;
use crate::virtual_udp::DEFAULT_QUEUE_CAPACITY;

verus! {

/// How a consumer finds peers and opens paths through them.
#[derive(Debug, PartialEq, Eq)]
pub struct ConsumerConfig {
    /// The identity of the consumer, the same for every path.
    pub consumer_session_id: String,
    pub stun_urls: Vec<String>,
    pub tag: String,
    /// How long advertisements are collected after the first.
    pub patience: Duration,
    /// The time allowed for the data channel to open.
    pub nat_timeout: Duration,
    pub path_queue_capacity: usize,
    pub enable_ipv6: bool,
}

impl ConsumerConfig {
    /// The defaults for a consumer session.
    pub fn new(consumer_session_id: String) -> (config: ConsumerConfig)
        ensures
            config.consumer_session_id == consumer_session_id,
            config.stun_urls@ == Seq::<String>::empty(),
            config.tag@ == Seq::<char>::empty(),
            config.patience@ == 500_000_000,
            config.nat_timeout@ == 5_000_000_000,
            config.path_queue_capacity == DEFAULT_QUEUE_CAPACITY,
            !config.enable_ipv6,
    {
        ConsumerConfig {
            consumer_session_id,
            stun_urls: Vec::new(),
            tag: String::new(),
            patience: Duration::from_millis(500),
            nat_timeout: Duration::from_secs(5),
            path_queue_capacity: DEFAULT_QUEUE_CAPACITY,
            enable_ipv6: false,
        }
    }
}

impl ConsumerConfig {
    /// Whether this is the same consumer, with the same identity and the same settings.
    pub open spec fn same_consumer(&self, other: ConsumerConfig) -> bool {
        &&& self.consumer_session_id == other.consumer_session_id
        &&& self.stun_urls@ == other.stun_urls@
        &&& self.tag == other.tag
        &&& self.patience == other.patience
        &&& self.nat_timeout == other.nat_timeout
        &&& self.path_queue_capacity == other.path_queue_capacity
        &&& self.enable_ipv6 == other.enable_ipv6
    }
}

impl Clone for ConsumerConfig {
    fn clone(&self) -> (copy: ConsumerConfig)
        ensures
            copy.same_consumer(*self),
    {
        ConsumerConfig {
            consumer_session_id: self.consumer_session_id.clone(),
            stun_urls: text::copy_texts(&self.stun_urls),
            tag: self.tag.clone(),
            patience: self.patience,
            nat_timeout: self.nat_timeout,
            path_queue_capacity: self.path_queue_capacity,
            enable_ipv6: self.enable_ipv6,
        }
    }
}

/// A path that was opened and has ended in an orderly way.
#[derive(Debug, Clone, Copy, PartialEq, Eq, Structural)]
pub struct ConsumerOutcome {
    pub remote: SocketAddress,
    pub path_end: ConsumerPathEnd,
}

/// How sessions are run and retried.
#[derive(Debug, Clone, PartialEq, Eq)]
pub struct ConsumerSupervisorConfig {
    pub consumer: ConsumerConfig,
    pub retry_delay: Duration,
}

/// How many sessions were started, and how they ended.
#[derive(Debug, PartialEq, Eq)]
pub struct ConsumerSummary {
    pub attempts: u64,
    pub completed_paths: u64,
    pub failed_attempts: u64,
}

impl Clone for ConsumerSummary {
    fn clone(&self) -> (copy: ConsumerSummary)
        ensures
            copy == *self,
    {
        ConsumerSummary {
            attempts: self.attempts,
            completed_paths: self.completed_paths,
            failed_attempts: self.failed_attempts,
        }
    }
}

impl Default for ConsumerSummary {
    fn default() -> (summary: ConsumerSummary)
        ensures
            summary == (ConsumerSummary { attempts: 0, completed_paths: 0, failed_attempts: 0 }),
    {
        ConsumerSummary { attempts: 0, completed_paths: 0, failed_attempts: 0 }
    }
}

/// What a supervised consumer reports.
#[derive(Debug, PartialEq, Eq)]
pub enum ConsumerEvent {
    AttemptStarted { attempt: u64 },
    PathEnded { attempt: u64, outcome: ConsumerOutcome },
    AttemptFailed { attempt: u64, error: String },
    Stopped { summary: ConsumerSummary },
}

/// Why a session failed.
#[derive(Debug)]
pub enum ConsumerError {
    Signaling(SignalingError),
    WebRtc(webrtc::Error),
    /// A signaling payload could not be encoded or decoded.
    Json(String),
    /// The advertisements ended without a peer.
    NoGenesis,
    UnexpectedSignal { expected: SignalMessageType, actual: SignalMessageType },
    MissingAnswer,
    /// The data channel did not open in time.
    NatTimeout,
    /// Nothing is left that could open the data channel.
    DataChannelClosed,
    /// The connection ended in this state before the data channel opened.
    PeerConnectionEnded(PeerConnectionState),
    Path(ConsumerPathError),
    Cancelled,
}

/// Accepts a signaling message of the expected kind.
pub fn expect_signal(signal: &SignalMessage, expected: SignalMessageType) -> (accepted: Result<
    (),
    ConsumerError,
>)
    ensures
        accepted == (if signal.kind == expected {
            Ok(())
        } else {
            Err(ConsumerError::UnexpectedSignal { expected, actual: signal.kind })
        }),
{
    if signal.kind == expected {
        Ok(())
    } else {
        Err(ConsumerError::UnexpectedSignal { expected, actual: signal.kind })
    }
}

/// An ICE candidate as peer proxies expect it, with its protocol as a number.
#[derive(Debug, PartialEq, Eq)]
pub struct ConsumerIceCandidate {
    pub foundation: String,
    pub priority: u32,
    pub address: String,
    pub protocol: u8,
    pub port: u16,
    pub typ: IceCandidateType,
    pub component: u16,
    pub related_address: String,
    pub related_port: u16,
    pub tcp_type: String,
}

impl ConsumerIceCandidate {
    /// The candidate with its protocol as a number.
    pub open spec fn spec_from(candidate: IceCandidate) -> ConsumerIceCandidate {
        ConsumerIceCandidate {
            foundation: candidate.foundation,
            priority: candidate.priority,
            address: candidate.address,
            protocol: candidate.protocol.spec_number(),
            port: candidate.port,
            typ: candidate.typ,
            component: candidate.component,
            related_address: candidate.related_address,
            related_port: candidate.related_port,
            tcp_type: candidate.tcp_type,
        }
    }

    /// The candidate with its protocol as a number.
    pub fn from_candidate(candidate: &IceCandidate) -> (encoded: ConsumerIceCandidate)
        ensures
            encoded == ConsumerIceCandidate::spec_from(*candidate),
    {
        ConsumerIceCandidate {
            foundation: candidate.foundation.clone(),
            priority: candidate.priority,
            address: candidate.address.clone(),
            protocol: candidate.protocol.number(),
            port: candidate.port,
            typ: candidate.typ,
            component: candidate.component,
            related_address: candidate.related_address.clone(),
            related_port: candidate.related_port,
            tcp_type: candidate.tcp_type.clone(),
        }
    }

    /// The candidate as a JSON object.
    pub open spec fn spec_json(&self) -> Seq<char> {
        "{\"foundation\":"@ + json::json_string(self.foundation@) + ",\"priority\":"@
            + json::decimal(self.priority as nat) + ",\"address\":"@ + json::json_string(
            self.address@,
        ) + ",\"protocol\":"@ + json::decimal(self.protocol as nat) + ",\"port\":"@ + json::decimal(
            self.port as nat,
        ) + ",\"type\":"@ + json::json_string(self.typ.spec_name()) + ",\"component\":"@
            + json::decimal(self.component as nat) + ",\"relatedAddress\":"@ + json::json_string(
            self.related_address@,
        ) + ",\"relatedPort\":"@ + json::decimal(self.related_port as nat) + ",\"tcpType\":"@
            + json::json_string(self.tcp_type@) + "}"@
    }

    /// The candidate as a JSON object.
    pub fn to_json(&self) -> (json: String)
        ensures
            json@ == self.spec_json(),
    {
        let mut text = "{\"foundation\":".to_owned();
        text.append(json::quote(self.foundation.as_str()).as_str());
        text.append(",\"priority\":");
        text.append(json::number_text(self.priority).as_str());
        text.append(",\"address\":");
        text.append(json::quote(self.address.as_str()).as_str());
        text.append(",\"protocol\":");
        text.append(json::number_text(self.protocol as u32).as_str());
        text.append(",\"port\":");
        text.append(json::number_text(self.port as u32).as_str());
        text.append(",\"type\":");
        text.append(json::quote(self.typ.name()).as_str());
        text.append(",\"component\":");
        text.append(json::number_text(self.component as u32).as_str());
        text.append(",\"relatedAddress\":");
        text.append(json::quote(self.related_address.as_str()).as_str());
        text.append(",\"relatedPort\":");
        text.append(json::number_text(self.related_port as u32).as_str());
        text.append(",\"tcpType\":");
        text.append(json::quote(self.tcp_type.as_str()).as_str());
        text.append("}");
        text
    }
}

/// The candidate that a peer proxy reads from the fields of a consumer's candidate.
pub open spec fn read_by_peer(candidate: ConsumerIceCandidate) -> PionIceCandidate {
    PionIceCandidate {
        foundation: candidate.foundation,
        priority: candidate.priority,
        address: candidate.address,
        protocol: candidate.protocol,
        port: candidate.port,
        typ: candidate.typ,
        component: candidate.component,
        related_address: candidate.related_address,
        related_port: candidate.related_port,
        tcp_type: candidate.tcp_type,
        sdp_mid: None,
        sdp_mline_index: None,
    }
}

/// A peer proxy sees the consumer's candidate as it was gathered.
pub proof fn law_candidate_survives_signaling(candidate: IceCandidate)
    ensures
        read_by_peer(ConsumerIceCandidate::spec_from(candidate)).spec_rust_candidate() == candidate,
        read_by_peer(ConsumerIceCandidate::spec_from(candidate)).spec_w3c() == candidate.spec_w3c(),
{
}

/// The JSON objects of `candidates`, separated by commas.
pub open spec fn candidates_json(candidates: Seq<IceCandidate>) -> Seq<char>
    decreases candidates.len(),
{
    if candidates.len() == 0 {
        Seq::empty()
    } else {
        let last = ConsumerIceCandidate::spec_from(candidates.last()).spec_json();
        if candidates.len() == 1 {
            last
        } else {
            candidates_json(candidates.drop_last()) + ","@ + last
        }
    }
}

/// The payload of the message that sends candidates to a peer proxy.
pub open spec fn ice_json(candidates: Seq<IceCandidate>, session_id: Seq<char>) -> Seq<char> {
    "{\"Candidates\":["@ + candidates_json(candidates) + "],\"ConsumerSessionID\":"@
        + json::json_string(session_id) + "}"@
}

/// The payload of the message that sends candidates to a peer proxy.
pub fn ice_payload(candidates: &Vec<IceCandidate>, session_id: &str) -> (payload: String)
    ensures
        payload@ == ice_json(candidates@, session_id@),
{
    let mut objects = String::new();
    let mut i: usize = 0;
    while i < candidates.len()
        invariant
            i <= candidates@.len(),
            objects@ == candidates_json(candidates@.take(i as int)),
        decreases candidates@.len() - i,
    {
        let ghost taken = candidates@.take(i as int + 1);
        assert(taken.drop_last() =~= candidates@.take(i as int));
        if i > 0 {
            objects.append(",");
        }
        let candidate = ConsumerIceCandidate::from_candidate(&candidates[i]);
        objects.append(candidate.to_json().as_str());
        assert(objects@ =~= candidates_json(taken));
        i = i + 1;
    }
    assert(candidates@.take(i as int) =~= candidates@);
    let mut text = "{\"Candidates\":[".to_owned();
    text.append(objects.as_str());
    text.append("],\"ConsumerSessionID\":");
    text.append(json::quote(session_id).as_str());
    text.append("}");
    text
}

/// The payload of an offer: the session description, already in JSON, and the consumer's tag.
pub open spec fn offer_json(description: Seq<char>, tag: Seq<char>) -> Seq<char> {
    "{\"SDP\":"@ + description + ",\"Tag\":"@ + json::json_string(tag) + "}"@
}

/// The payload of an offer: the session description, already in JSON, and the consumer's tag.
pub fn offer_payload(description: &str, tag: &str) -> (payload: String)
    ensures
        payload@ == offer_json(description@, tag@),
{
    let mut text = "{\"SDP\":".to_owned();
    text.append(description);
    text.append(",\"Tag\":");
    text.append(json::quote(tag).as_str());
    text.append("}");
    text
}

/// Calls `rand`'s `IndexedRandom::choose` with the thread's generator: the result is one of the
/// items, and there is none exactly if there are no items. Nothing is said about which one it is.
#[verifier::external_body]
fn choose_item<T>(items: &Vec<T>) -> (item: Option<&T>)
    ensures
        match item {
            Some(item) => items@.contains(*item),
            None => items@.len() == 0,
        },
{
    items.choose(&mut rand::rng())
}

/// What happens while advertisements are read.
#[derive(Debug)]
pub enum GenesisEvent {
    /// The next advertisement. Nothing says that there are no more.
    Advertisement(Result<Option<SignalMessage>, SignalingError>),
    /// Enough time has passed since the first peer was found.
    PatienceOver,
    /// The session is to stop.
    Cancelled,
}

/// What the search for a peer does next.
#[derive(Debug)]
pub enum GenesisAction {
    /// Read the next advertisement.
    Read,
    /// Read on for this long: the first peer has been found.
    ReadFor(Duration),
    /// This is the peer.
    Select(SignalMessage),
    Fail(ConsumerError),
}

/// The search for a peer among the advertisements: the peers found so far.
#[derive(Debug, PartialEq, Eq)]
pub struct GenesisSelection {
    pub patience: Duration,
    pub candidates: Vec<SignalMessage>,
}

impl GenesisSelection {
    /// The peers found after `event`: an advertisement of a peer adds one.
    pub open spec fn spec_next(&self, event: GenesisEvent) -> Seq<SignalMessage> {
        match event {
            GenesisEvent::Advertisement(Ok(Some(message))) => if message.kind
                == SignalMessageType::Genesis {
                self.candidates@.push(message)
            } else {
                self.candidates@
            },
            _ => self.candidates@,
        }
    }

    /// Whether `action` is what the search does on `event`. With the first peer the wait for
    /// others begins. When the wait is over, or there are no more advertisements, one of the peers
    /// that were found is selected.
    pub open spec fn performs(&self, event: GenesisEvent, action: GenesisAction) -> bool {
        match event {
            GenesisEvent::Cancelled => action == GenesisAction::Fail(ConsumerError::Cancelled),
            GenesisEvent::Advertisement(Err(error)) => action == GenesisAction::Fail(
                ConsumerError::Signaling(error),
            ),
            GenesisEvent::Advertisement(Ok(Some(message))) => if message.kind
                == SignalMessageType::Genesis && self.candidates@.len() == 0 {
                action == GenesisAction::ReadFor(self.patience)
            } else {
                action is Read
            },
            GenesisEvent::Advertisement(Ok(None)) => if self.candidates@.len() == 0 {
                action == GenesisAction::Fail(ConsumerError::NoGenesis)
            } else {
                action matches GenesisAction::Select(message) && self.candidates@.contains(message)
            },
            GenesisEvent::PatienceOver => if self.candidates@.len() == 0 {
                action is Read
            } else {
                action matches GenesisAction::Select(message) && self.candidates@.contains(message)
            },
        }
    }

    /// Only peers are candidates.
    pub open spec fn wf(&self) -> bool {
        forall|i: int|
            0 <= i < self.candidates@.len() ==> (#[trigger] self.candidates@[i]).kind
                == SignalMessageType::Genesis
    }

    /// A search that has found nothing yet.
    pub fn new(patience: Duration) -> (selection: GenesisSelection)
        ensures
            selection.wf(),
            selection.patience == patience,
            selection.candidates@ == Seq::<SignalMessage>::empty(),
    {
        GenesisSelection { patience, candidates: Vec::new() }
    }

    /// Decides what the search does on `event`. Only a peer is ever selected.
    pub fn step(&mut self, event: GenesisEvent) -> (action: GenesisAction)
        requires
            old(self).wf(),
        ensures
            final(self).wf(),
            final(self).patience == old(self).patience,
            final(self).candidates@ == old(self).spec_next(event),
            old(self).performs(event, action),
            action matches GenesisAction::Select(message) ==> message.kind
                == SignalMessageType::Genesis,
    {
        match event {
            GenesisEvent::Cancelled => GenesisAction::Fail(ConsumerError::Cancelled),
            GenesisEvent::PatienceOver => match self.select() {
                Some(message) => GenesisAction::Select(message),
                None => GenesisAction::Read,
            },
            GenesisEvent::Advertisement(advertisement) => match advertisement {
                Err(error) => GenesisAction::Fail(ConsumerError::Signaling(error)),
                Ok(None) => match self.select() {
                    Some(message) => GenesisAction::Select(message),
                    None => GenesisAction::Fail(ConsumerError::NoGenesis),
                },
                Ok(Some(message)) => {
                    if message.kind == SignalMessageType::Genesis {
                        let first = self.candidates.len() == 0;
                        self.candidates.push(message);
                        if first {
                            return GenesisAction::ReadFor(self.patience);
                        }
                    }
                    GenesisAction::Read
                },
            },
        }
    }

    /// One of the peers that were found.
    fn select(&self) -> (selected: Option<SignalMessage>)
        requires
            self.wf(),
        ensures
            match selected {
                Some(message) => self.candidates@.contains(message) && message.kind
                    == SignalMessageType::Genesis,
                None => self.candidates@.len() == 0,
            },
    {
        match choose_item(&self.candidates) {
            Some(message) => {
                proof {
                    let i = choose|i: int|
                        0 <= i < self.candidates@.len() && self.candidates@[i] == *message;
                    assert(self.candidates@[i].kind == SignalMessageType::Genesis);
                }
                Some(message.clone())
            },
            None => None,
        }
    }
}

/// What came of the action that a session asked for last.
#[derive(Debug)]
pub enum ConsumerSessionEvent {
    GenesisSelected(Result<SignalMessage, ConsumerError>),
    /// The offer's session description, in JSON.
    OfferCreated(String),
    /// The reply to a signaling message, if a peer replied in time.
    Signal(Result<Option<SignalMessage>, SignalingError>),
    /// A payload could not be encoded or decoded.
    JsonFailed(String),
    /// The WebRTC connection failed.
    WebRtcFailed(webrtc::Error),
    /// The answer has been applied, and these are the candidates of the connection.
    CandidatesGathered(Vec<IceCandidate>),
    DataChannel(DataChannelOutcome),
    PathEnded(Result<ConsumerPathEnd, ConsumerPathError>),
    /// The session is to stop.
    Cancelled,
}

/// What a session does next.
#[derive(Debug)]
pub enum ConsumerSessionAction {
    /// Search the advertisements for a peer.
    SelectGenesis { patience: Duration },
    CreateOffer,
    /// Send a signaling message and wait for the reply.
    Exchange { send_to: String, kind: SignalMessageType, payload: String },
    /// Decode the answer, apply it to the connection and gather candidates.
    ApplyAnswer { payload: String },
    /// Wait for the data channel, at most for this long.
    AwaitDataChannel { timeout: Duration },
    /// Carry packets between the data channel and the socket.
    RunPath { remote: SocketAddress, queue_capacity: usize },
    /// Close the WebRTC connection. This is the session's result.
    Finish(Result<ConsumerOutcome, ConsumerError>),
    /// Nothing: the event does not belong to what the session waits for.
    Ignore,
}

/// What a session waits for.
#[derive(Debug, PartialEq, Eq)]
pub enum ConsumerSessionStage {
    SelectingGenesis,
    CreatingOffer { reply_to: String },
    AwaitingAnswer,
    ApplyingAnswer { reply_to: String },
    SendingCandidates,
    AwaitingDataChannel,
    RunningPath { remote: SocketAddress },
    Finished,
}

/// One session of a consumer, once its WebRTC connection and data channel exist.
#[derive(Debug, PartialEq, Eq)]
pub struct ConsumerSession {
    pub config: ConsumerConfig,
    pub stage: ConsumerSessionStage,
}

/// The end of a session that failed.
pub open spec fn fails(error: ConsumerError) -> ConsumerSessionAction {
    ConsumerSessionAction::Finish(Err(error))
}

/// The error for a signaling message of the wrong kind.
pub open spec fn unexpected(
    expected: SignalMessageType,
    actual: SignalMessageType,
) -> ConsumerError {
    ConsumerError::UnexpectedSignal { expected, actual }
}

impl ConsumerSession {
    /// The session in another stage.
    pub open spec fn at(self, stage: ConsumerSessionStage) -> ConsumerSession {
        ConsumerSession { stage, ..self }
    }

    /// The session after `event`, with the next synthetic address at `next_host`. An event that
    /// does not belong to the stage changes nothing.
    pub open spec fn spec_next(
        self,
        event: ConsumerSessionEvent,
        next_host: u32,
    ) -> ConsumerSession {
        match (self.stage, event) {
            (ConsumerSessionStage::Finished, _) => self,
            (_, ConsumerSessionEvent::Cancelled) => self.at(ConsumerSessionStage::Finished),
            (
                ConsumerSessionStage::SelectingGenesis,
                ConsumerSessionEvent::GenesisSelected(selected),
            ) => match selected {
                Ok(genesis) => self.at(
                    ConsumerSessionStage::CreatingOffer { reply_to: genesis.reply_to },
                ),
                Err(_) => self.at(ConsumerSessionStage::Finished),
            },
            (
                ConsumerSessionStage::CreatingOffer { .. },
                ConsumerSessionEvent::OfferCreated(_),
            ) => self.at(ConsumerSessionStage::AwaitingAnswer),
            (
                ConsumerSessionStage::CreatingOffer { .. }
                | ConsumerSessionStage::ApplyingAnswer { .. },
                ConsumerSessionEvent::WebRtcFailed(_) | ConsumerSessionEvent::JsonFailed(_),
            ) => self.at(ConsumerSessionStage::Finished),
            (ConsumerSessionStage::AwaitingAnswer, ConsumerSessionEvent::Signal(reply)) =>
                match reply {
                    Ok(Some(signal)) if signal.kind == SignalMessageType::Answer => self.at(
                        ConsumerSessionStage::ApplyingAnswer { reply_to: signal.reply_to },
                    ),
                    _ => self.at(ConsumerSessionStage::Finished),
                },
            (
                ConsumerSessionStage::ApplyingAnswer { .. },
                ConsumerSessionEvent::CandidatesGathered(_),
            ) => self.at(ConsumerSessionStage::SendingCandidates),
            (ConsumerSessionStage::SendingCandidates, ConsumerSessionEvent::Signal(reply)) =>
                if reply is Ok {
                    self.at(ConsumerSessionStage::AwaitingDataChannel)
                } else {
                    self.at(ConsumerSessionStage::Finished)
                },
            (
                ConsumerSessionStage::AwaitingDataChannel,
                ConsumerSessionEvent::DataChannel(outcome),
            ) => if outcome is Opened && next_host < consumer_path::CGNAT_HOSTS {
                self.at(
                    ConsumerSessionStage::RunningPath {
                        remote: consumer_path::path_address(next_host),
                    },
                )
            } else {
                self.at(ConsumerSessionStage::Finished)
            },
            (ConsumerSessionStage::RunningPath { .. }, ConsumerSessionEvent::PathEnded(_)) =>
                self.at(ConsumerSessionStage::Finished),
            _ => self,
        }
    }

    /// Whether `event` opens a path, and so takes a synthetic address.
    pub open spec fn takes_address(&self, event: ConsumerSessionEvent) -> bool {
        self.stage is AwaitingDataChannel && event == ConsumerSessionEvent::DataChannel(
            DataChannelOutcome::Opened,
        )
    }

    /// Whether `action` is what the session does on `event`, with the next synthetic address at
    /// `next_host`.
    pub open spec fn performs(
        self,
        event: ConsumerSessionEvent,
        next_host: u32,
        action: ConsumerSessionAction,
    ) -> bool {
        match (self.stage, event) {
            (ConsumerSessionStage::Finished, _) => action is Ignore,
            (_, ConsumerSessionEvent::Cancelled) => action == fails(ConsumerError::Cancelled),
            (
                ConsumerSessionStage::SelectingGenesis,
                ConsumerSessionEvent::GenesisSelected(selected),
            ) => match selected {
                Ok(_) => action is CreateOffer,
                Err(error) => action == fails(error),
            },
            (
                ConsumerSessionStage::CreatingOffer { reply_to },
                ConsumerSessionEvent::OfferCreated(description),
            ) => {
                &&& action matches ConsumerSessionAction::Exchange { send_to, kind, payload }
                &&& send_to == reply_to
                &&& kind == SignalMessageType::Offer
                &&& payload@ == offer_json(description@, self.config.tag@)
            },
            (
                ConsumerSessionStage::CreatingOffer { .. }
                | ConsumerSessionStage::ApplyingAnswer { .. },
                ConsumerSessionEvent::WebRtcFailed(error),
            ) => action == fails(ConsumerError::WebRtc(error)),
            (
                ConsumerSessionStage::CreatingOffer { .. }
                | ConsumerSessionStage::ApplyingAnswer { .. },
                ConsumerSessionEvent::JsonFailed(error),
            ) => action == fails(ConsumerError::Json(error)),
            (ConsumerSessionStage::AwaitingAnswer, ConsumerSessionEvent::Signal(reply)) =>
                match reply {
                    Err(error) => action == fails(ConsumerError::Signaling(error)),
                    Ok(None) => action == fails(ConsumerError::MissingAnswer),
                    Ok(Some(signal)) => if signal.kind == SignalMessageType::Answer {
                        action == (ConsumerSessionAction::ApplyAnswer { payload: signal.payload })
                    } else {
                        action == fails(unexpected(SignalMessageType::Answer, signal.kind))
                    },
                },
            (
                ConsumerSessionStage::ApplyingAnswer { reply_to },
                ConsumerSessionEvent::CandidatesGathered(candidates),
            ) => {
                &&& action matches ConsumerSessionAction::Exchange { send_to, kind, payload }
                &&& send_to == reply_to
                &&& kind == SignalMessageType::Ice
                &&& payload@ == ice_json(candidates@, self.config.consumer_session_id@)
            },
            (ConsumerSessionStage::SendingCandidates, ConsumerSessionEvent::Signal(reply)) =>
                match reply {
                    Err(error) => action == fails(ConsumerError::Signaling(error)),
                    Ok(_) => action == (ConsumerSessionAction::AwaitDataChannel {
                        timeout: self.config.nat_timeout,
                    }),
                },
            (
                ConsumerSessionStage::AwaitingDataChannel,
                ConsumerSessionEvent::DataChannel(outcome),
            ) => match outcome {
                DataChannelOutcome::Opened => if next_host < consumer_path::CGNAT_HOSTS {
                    action == (ConsumerSessionAction::RunPath {
                        remote: consumer_path::path_address(next_host),
                        queue_capacity: self.config.path_queue_capacity,
                    })
                } else {
                    action == fails(ConsumerError::Path(ConsumerPathError::AddressSpaceExhausted))
                },
                DataChannelOutcome::TimedOut => action == fails(ConsumerError::NatTimeout),
                DataChannelOutcome::Abandoned => action == fails(ConsumerError::DataChannelClosed),
                DataChannelOutcome::PeerEnded(state) => action == fails(
                    ConsumerError::PeerConnectionEnded(state),
                ),
            },
            (
                ConsumerSessionStage::RunningPath { remote },
                ConsumerSessionEvent::PathEnded(result),
            ) => match result {
                Ok(path_end) => action == ConsumerSessionAction::Finish(
                    Ok(ConsumerOutcome { remote, path_end }),
                ),
                Err(error) => action == fails(ConsumerError::Path(error)),
            },
            _ => action is Ignore,
        }
    }

    /// A session at its start, and the search for a peer that starts it.
    pub fn start(config: ConsumerConfig) -> (started: (ConsumerSession, ConsumerSessionAction))
        ensures
            started.0 == (ConsumerSession {
                config,
                stage: ConsumerSessionStage::SelectingGenesis,
            }),
            started.1 == (ConsumerSessionAction::SelectGenesis { patience: config.patience }),
    {
        let patience = config.patience;
        (
            ConsumerSession { config, stage: ConsumerSessionStage::SelectingGenesis },
            ConsumerSessionAction::SelectGenesis { patience },
        )
    }

    fn finish(config: ConsumerConfig, error: ConsumerError) -> (next: (
        ConsumerSession,
        ConsumerSessionAction,
    ))
        ensures
            next.0 == (ConsumerSession { config, stage: ConsumerSessionStage::Finished }),
            next.1 == fails(error),
    {
        (
            ConsumerSession { config, stage: ConsumerSessionStage::Finished },
            ConsumerSessionAction::Finish(Err(error)),
        )
    }

    /// Decides what the session does on `event`, and what it waits for next. A path that opens is
    /// given the allocator's next address.
    pub fn step(self, event: ConsumerSessionEvent, allocator: &mut SyntheticPathAllocator) -> (next:
        (ConsumerSession, ConsumerSessionAction))
        ensures
            next.0 == self.spec_next(event, old(allocator).next_host),
            self.performs(event, old(allocator).next_host, next.1),
            final(allocator).next_host == old(allocator).next_host + if self.takes_address(event)
                && old(allocator).next_host < consumer_path::CGNAT_HOSTS {
                1int
            } else {
                0int
            },
    {
        let config = self.config;
        match (self.stage, event) {
            (ConsumerSessionStage::Finished, _) => (
                ConsumerSession { config, stage: ConsumerSessionStage::Finished },
                ConsumerSessionAction::Ignore,
            ),
            (_, ConsumerSessionEvent::Cancelled) => ConsumerSession::finish(
                config,
                ConsumerError::Cancelled,
            ),
            (
                ConsumerSessionStage::SelectingGenesis,
                ConsumerSessionEvent::GenesisSelected(selected),
            ) => match selected {
                Ok(genesis) => (
                    ConsumerSession {
                        config,
                        stage: ConsumerSessionStage::CreatingOffer { reply_to: genesis.reply_to },
                    },
                    ConsumerSessionAction::CreateOffer,
                ),
                Err(error) => ConsumerSession::finish(config, error),
            },
            (
                ConsumerSessionStage::CreatingOffer { reply_to },
                ConsumerSessionEvent::OfferCreated(description),
            ) => {
                let payload = offer_payload(description.as_str(), config.tag.as_str());
                (
                    ConsumerSession { config, stage: ConsumerSessionStage::AwaitingAnswer },
                    ConsumerSessionAction::Exchange {
                        send_to: reply_to,
                        kind: SignalMessageType::Offer,
                        payload,
                    },
                )
            },
            (
                ConsumerSessionStage::CreatingOffer { .. }
                | ConsumerSessionStage::ApplyingAnswer { .. },
                ConsumerSessionEvent::WebRtcFailed(error),
            ) => ConsumerSession::finish(config, ConsumerError::WebRtc(error)),
            (
                ConsumerSessionStage::CreatingOffer { .. }
                | ConsumerSessionStage::ApplyingAnswer { .. },
                ConsumerSessionEvent::JsonFailed(error),
            ) => ConsumerSession::finish(config, ConsumerError::Json(error)),
            (ConsumerSessionStage::AwaitingAnswer, ConsumerSessionEvent::Signal(reply)) =>
                match reply {
                    Err(error) => ConsumerSession::finish(config, ConsumerError::Signaling(error)),
                    Ok(None) => ConsumerSession::finish(config, ConsumerError::MissingAnswer),
                    Ok(Some(signal)) => match expect_signal(&signal, SignalMessageType::Answer) {
                        Ok(_) => (
                            ConsumerSession {
                                config,
                                stage: ConsumerSessionStage::ApplyingAnswer {
                                    reply_to: signal.reply_to,
                                },
                            },
                            ConsumerSessionAction::ApplyAnswer { payload: signal.payload },
                        ),
                        Err(error) => ConsumerSession::finish(config, error),
                    },
                },
            (
                ConsumerSessionStage::ApplyingAnswer { reply_to },
                ConsumerSessionEvent::CandidatesGathered(candidates),
            ) => {
                let payload = ice_payload(&candidates, config.consumer_session_id.as_str());
                (
                    ConsumerSession { config, stage: ConsumerSessionStage::SendingCandidates },
                    ConsumerSessionAction::Exchange {
                        send_to: reply_to,
                        kind: SignalMessageType::Ice,
                        payload,
                    },
                )
            },
            (ConsumerSessionStage::SendingCandidates, ConsumerSessionEvent::Signal(reply)) =>
                match reply {
                    Err(error) => ConsumerSession::finish(config, ConsumerError::Signaling(error)),
                    Ok(_) => {
                        let timeout = config.nat_timeout;
                        (
                            ConsumerSession {
                                config,
                                stage: ConsumerSessionStage::AwaitingDataChannel,
                            },
                            ConsumerSessionAction::AwaitDataChannel { timeout },
                        )
                    },
                },
            (
                ConsumerSessionStage::AwaitingDataChannel,
                ConsumerSessionEvent::DataChannel(outcome),
            ) => match outcome {
                DataChannelOutcome::Opened => match allocator.allocate() {
                    Ok(remote) => {
                        let queue_capacity: usize = config.path_queue_capacity;
                        (
                            ConsumerSession {
                                config,
                                stage: ConsumerSessionStage::RunningPath { remote },
                            },
                            ConsumerSessionAction::RunPath { remote, queue_capacity },
                        )
                    },
                    Err(error) => ConsumerSession::finish(config, ConsumerError::Path(error)),
                },
                DataChannelOutcome::TimedOut => ConsumerSession::finish(
                    config,
                    ConsumerError::NatTimeout,
                ),
                DataChannelOutcome::Abandoned => ConsumerSession::finish(
                    config,
                    ConsumerError::DataChannelClosed,
                ),
                DataChannelOutcome::PeerEnded(state) => ConsumerSession::finish(
                    config,
                    ConsumerError::PeerConnectionEnded(state),
                ),
            },
            (
                ConsumerSessionStage::RunningPath { remote },
                ConsumerSessionEvent::PathEnded(result),
            ) => match result {
                Ok(path_end) => (
                    ConsumerSession { config, stage: ConsumerSessionStage::Finished },
                    ConsumerSessionAction::Finish(Ok(ConsumerOutcome { remote, path_end })),
                ),
                Err(error) => ConsumerSession::finish(config, ConsumerError::Path(error)),
            },
            (stage, _) => (ConsumerSession { config, stage }, ConsumerSessionAction::Ignore),
        }
    }
}

/// How far a session has come.
pub open spec fn progress(stage: ConsumerSessionStage) -> int {
    match stage {
        ConsumerSessionStage::SelectingGenesis => 0,
        ConsumerSessionStage::CreatingOffer { .. } => 1,
        ConsumerSessionStage::AwaitingAnswer => 2,
        ConsumerSessionStage::ApplyingAnswer { .. } => 3,
        ConsumerSessionStage::SendingCandidates => 4,
        ConsumerSessionStage::AwaitingDataChannel => 5,
        ConsumerSessionStage::RunningPath { .. } => 6,
        ConsumerSessionStage::Finished => 7,
    }
}

/// A session only moves forward, and keeps its configuration, the consumer's identity with it. An
/// event that it takes notice of brings it to the next stage or ends it; any other event changes
/// nothing and asks for nothing. A session ends exactly when it gives its result.
pub proof fn law_session_moves_forward(
    session: ConsumerSession,
    event: ConsumerSessionEvent,
    next_host: u32,
    action: ConsumerSessionAction,
)
    requires
        session.performs(event, next_host, action),
    ensures
        session.spec_next(event, next_host).config == session.config,
        action is Ignore ==> session.spec_next(event, next_host) == session,
        action !is Ignore ==> {
            ||| session.spec_next(event, next_host).stage is Finished
            ||| progress(session.spec_next(event, next_host).stage) == progress(session.stage) + 1
        },
        action is Finish <==> session.stage !is Finished && session.spec_next(
            event,
            next_host,
        ).stage is Finished,
{
}

/// Cancellation ends a session from every stage, and its result is that it was cancelled.
pub proof fn law_cancellation_ends_every_session(
    session: ConsumerSession,
    next_host: u32,
    action: ConsumerSessionAction,
)
    requires
        session.stage !is Finished,
    ensures
        session.spec_next(ConsumerSessionEvent::Cancelled, next_host).stage is Finished,
        session.performs(ConsumerSessionEvent::Cancelled, next_host, action) <==> action == fails(
            ConsumerError::Cancelled,
        ),
{
}

/// What the supervisor does after a session.
#[derive(Debug, PartialEq, Eq)]
pub enum ConsumerStep {
    /// Stop: the session was cut short by the shutdown.
    Stop,
    /// Report the event, and start the next session after the delay, if there is one.
    Continue { event: ConsumerEvent, retry_in: Option<Duration> },
}

/// The supervision of a consumer, which keeps one path coming after another. Every session is run
/// for the same consumer. The socket and the address allocator belong to the caller, and outlive the
/// sessions.
#[derive(Debug, PartialEq, Eq)]
pub struct ConsumerSupervisor {
    /// The consumer that every session is run for.
    pub consumer: ConsumerConfig,
    pub retry_delay: Duration,
    pub summary: ConsumerSummary,
}

impl ConsumerSupervisor {
    /// Every session that was started has ended.
    pub open spec fn idle(&self) -> bool {
        self.summary.attempts == self.summary.completed_paths + self.summary.failed_attempts
    }

    /// One session that was started has not ended, or was cut short.
    pub open spec fn running(&self) -> bool {
        self.summary.attempts == self.summary.completed_paths + self.summary.failed_attempts + 1
    }

    /// A supervisor that has not started a session yet.
    pub fn new(config: &ConsumerSupervisorConfig) -> (supervisor: ConsumerSupervisor)
        ensures
            supervisor.idle(),
            supervisor.consumer.same_consumer(config.consumer),
            supervisor.retry_delay == config.retry_delay,
            supervisor.summary == (ConsumerSummary {
                attempts: 0,
                completed_paths: 0,
                failed_attempts: 0,
            }),
    {
        ConsumerSupervisor {
            consumer: config.consumer.clone(),
            retry_delay: config.retry_delay,
            summary: ConsumerSummary::default(),
        }
    }

    /// The supervisor once another session has been started.
    pub open spec fn spec_begin(self) -> ConsumerSupervisor {
        ConsumerSupervisor {
            summary: ConsumerSummary {
                attempts: (self.summary.attempts + 1) as u64,
                ..self.summary
            },
            ..self
        }
    }

    /// Whether the start of a session, or the shutdown in its place, leaves the supervisor as `after`
    /// and is reported as `event`.
    pub open spec fn begins(
        self,
        cancelled: bool,
        after: ConsumerSupervisor,
        event: Option<ConsumerEvent>,
    ) -> bool {
        if cancelled {
            event is None && after == self
        } else {
            &&& after == self.spec_begin()
            &&& event == Some(
                ConsumerEvent::AttemptStarted { attempt: (self.summary.attempts + 1) as u64 },
            )
        }
    }

    /// Counts the start of a session, unless the supervisor is being shut down.
    pub fn begin(&mut self, cancelled: bool) -> (event: Option<ConsumerEvent>)
        requires
            !cancelled ==> old(self).idle() && old(self).summary.attempts < u64::MAX,
        ensures
            old(self).begins(cancelled, *final(self), event),
            cancelled ==> event is None && *final(self) == *old(self),
            !cancelled ==> {
                &&& final(self).running()
                &&& *final(self) == old(self).spec_begin()
                &&& event == Some(
                    ConsumerEvent::AttemptStarted {
                        attempt: (old(self).summary.attempts + 1) as u64,
                    },
                )
            },
    {
        if cancelled {
            return None;
        }
        self.summary.attempts = self.summary.attempts + 1;
        Some(ConsumerEvent::AttemptStarted { attempt: self.summary.attempts })
    }

    /// The session that has been started, and the search for a peer that starts it. It is run for
    /// the consumer that every other session is run for.
    pub fn session(&self) -> (started: (ConsumerSession, ConsumerSessionAction))
        ensures
            started.0.config.same_consumer(self.consumer),
            started.0.stage is SelectingGenesis,
            started.1 == (ConsumerSessionAction::SelectGenesis {
                patience: self.consumer.patience,
            }),
    {
        ConsumerSession::start(self.consumer.clone())
    }

    /// Whether a session was cut short by the shutdown: it failed while the shutdown was on, or
    /// its path says so.
    pub open spec fn is_cut_short(
        result: Result<ConsumerOutcome, String>,
        cancelled: bool,
    ) -> bool {
        match result {
            Ok(outcome) => outcome.path_end == ConsumerPathEnd::Cancelled,
            Err(_) => cancelled,
        }
    }

    /// The supervisor once a session has ended. One that was cut short is counted neither as a
    /// path nor as a failure.
    pub open spec fn spec_finish(
        self,
        result: Result<ConsumerOutcome, String>,
        cancelled: bool,
    ) -> ConsumerSupervisor {
        let summary = self.summary;
        if ConsumerSupervisor::is_cut_short(result, cancelled) {
            self
        } else if result is Ok {
            ConsumerSupervisor {
                summary: ConsumerSummary {
                    completed_paths: (summary.completed_paths + 1) as u64,
                    ..summary
                },
                ..self
            }
        } else {
            ConsumerSupervisor {
                summary: ConsumerSummary {
                    failed_attempts: (summary.failed_attempts + 1) as u64,
                    ..summary
                },
                ..self
            }
        }
    }

    /// Whether `step` is what the supervisor does once a session has ended.
    pub open spec fn spec_follows(
        self,
        result: Result<ConsumerOutcome, String>,
        cancelled: bool,
        step: ConsumerStep,
    ) -> bool {
        let attempt = self.summary.attempts;
        if ConsumerSupervisor::is_cut_short(result, cancelled) {
            step is Stop
        } else {
            step == match result {
                Ok(outcome) => ConsumerStep::Continue {
                    event: ConsumerEvent::PathEnded { attempt, outcome },
                    retry_in: None,
                },
                Err(error) => ConsumerStep::Continue {
                    event: ConsumerEvent::AttemptFailed { attempt, error },
                    retry_in: Some(self.retry_delay),
                },
            }
        }
    }

    /// Counts the end of a session, and decides what follows. A path that ended is followed by
    /// another at once, a failed attempt after the delay. A failure comes with the words of the
    /// report.
    pub fn finish(&mut self, result: Result<ConsumerOutcome, String>, cancelled: bool) -> (step:
        ConsumerStep)
        requires
            old(self).running(),
        ensures
            *final(self) == old(self).spec_finish(result, cancelled),
            old(self).spec_follows(result, cancelled, step),
            ConsumerSupervisor::is_cut_short(result, cancelled) ==> step is Stop,
            !ConsumerSupervisor::is_cut_short(result, cancelled) ==> {
                &&& final(self).idle()
                &&& match result {
                    Ok(outcome) => step == (ConsumerStep::Continue {
                        event: ConsumerEvent::PathEnded {
                            attempt: old(self).summary.attempts,
                            outcome,
                        },
                        retry_in: None,
                    }),
                    Err(error) => step == (ConsumerStep::Continue {
                        event: ConsumerEvent::AttemptFailed {
                            attempt: old(self).summary.attempts,
                            error,
                        },
                        retry_in: Some(old(self).retry_delay),
                    }),
                }
            },
    {
        let attempt: u64 = self.summary.attempts;
        match result {
            Ok(outcome) => {
                if outcome.path_end == ConsumerPathEnd::Cancelled {
                    return ConsumerStep::Stop;
                }
                self.summary.completed_paths = self.summary.completed_paths + 1;
                ConsumerStep::Continue {
                    event: ConsumerEvent::PathEnded { attempt, outcome },
                    retry_in: None,
                }
            },
            Err(error) => {
                if cancelled {
                    return ConsumerStep::Stop;
                }
                self.summary.failed_attempts = self.summary.failed_attempts + 1;
                ConsumerStep::Continue {
                    event: ConsumerEvent::AttemptFailed { attempt, error },
                    retry_in: Some(self.retry_delay),
                }
            },
        }
    }

    /// The last report of a supervisor.
    pub fn stopped(&self) -> (event: ConsumerEvent)
        ensures
            event == (ConsumerEvent::Stopped { summary: self.summary }),
    {
        ConsumerEvent::Stopped { summary: self.summary.clone() }
    }
}

/// How one session came out, and whether the shutdown was on by then.
#[derive(Debug)]
pub struct EndedSession {
    pub result: Result<ConsumerOutcome, String>,
    pub cancelled: bool,
}

impl EndedSession {
    /// Whether the session was cut short by the shutdown.
    pub open spec fn is_cut_short(self) -> bool {
        ConsumerSupervisor::is_cut_short(self.result, self.cancelled)
    }
}

/// The supervisor after a run of sessions, each of them started and ended.
pub open spec fn supervisor_after(
    supervisor: ConsumerSupervisor,
    sessions: Seq<EndedSession>,
) -> ConsumerSupervisor
    decreases sessions.len(),
{
    if sessions.len() == 0 {
        supervisor
    } else {
        let last = sessions.last();
        supervisor_after(supervisor, sessions.drop_last()).spec_begin().spec_finish(
            last.result,
            last.cancelled,
        )
    }
}

/// Whether `sessions` is a run of a supervisor: a session that was cut short is the last.
pub open spec fn is_run(sessions: Seq<EndedSession>) -> bool {
    forall|i: int| 0 <= i < sessions.len() - 1 ==> !(#[trigger] sessions[i]).is_cut_short()
}

/// The consumer stays the same from session to session, whatever becomes of them. Every session is
/// counted as started, and every one as a path or as a failure but a last one that was cut short.
pub proof fn law_every_session_is_counted_once(
    supervisor: ConsumerSupervisor,
    sessions: Seq<EndedSession>,
)
    requires
        supervisor.idle(),
        supervisor.summary.attempts + sessions.len() <= u64::MAX,
        is_run(sessions),
    ensures
        ({
            let after = supervisor_after(supervisor, sessions);
            &&& after.consumer == supervisor.consumer
            &&& after.retry_delay == supervisor.retry_delay
            &&& after.summary.attempts == supervisor.summary.attempts + sessions.len()
            &&& after.summary.attempts == after.summary.completed_paths
                + after.summary.failed_attempts + if sessions.len() > 0
                && sessions.last().is_cut_short() {
                1int
            } else {
                0int
            }
        }),
    decreases sessions.len(),
{
    if sessions.len() > 0 {
        let before = sessions.drop_last();
        assert forall|i: int| 0 <= i < before.len() implies !(#[trigger] before[i]).is_cut_short() by {
            assert(before[i] == sessions[i]);
        }
        law_every_session_is_counted_once(supervisor, before);
    }
}

/// What happens in a session, with the place of the next synthetic address then.
#[derive(Debug)]
pub struct SessionInput {
    pub event: ConsumerSessionEvent,
    pub next_host: u32,
}

/// A session after a run of events.
pub open spec fn session_after(
    session: ConsumerSession,
    inputs: Seq<SessionInput>,
) -> ConsumerSession
    decreases inputs.len(),
{
    if inputs.len() == 0 {
        session
    } else {
        session_after(session, inputs.drop_last()).spec_next(
            inputs.last().event,
            inputs.last().next_host,
        )
    }
}

proof fn lemma_session_keeps_its_config(session: ConsumerSession, inputs: Seq<SessionInput>)
    ensures
        session_after(session, inputs).config == session.config,
    decreases inputs.len(),
{
    if inputs.len() > 0 {
        lemma_session_keeps_its_config(session, inputs.drop_last());
    }
}

/// Every session carries the one session ID that the supervisor was given: whatever sessions came
/// before, and whatever has happened in this one, the candidates that it sends go out under that
/// ID.
pub proof fn law_every_session_carries_the_session_id(
    supervisor: ConsumerSupervisor,
    sessions: Seq<EndedSession>,
    session: ConsumerSession,
    inputs: Seq<SessionInput>,
    input: SessionInput,
    action: ConsumerSessionAction,
)
    requires
        supervisor.idle(),
        supervisor.summary.attempts + sessions.len() <= u64::MAX,
        is_run(sessions),
        session.config.same_consumer(supervisor_after(supervisor, sessions).consumer),
        session.stage is SelectingGenesis,
        session_after(session, inputs).performs(input.event, input.next_host, action),
    ensures
        action matches ConsumerSessionAction::Exchange { kind, payload, .. } ==> kind
            == SignalMessageType::Ice ==> (input.event matches
            ConsumerSessionEvent::CandidatesGathered(candidates) && payload@ == ice_json(
            candidates@,
            supervisor.consumer.consumer_session_id@,
        )),
{
    law_every_session_is_counted_once(supervisor, sessions);
    lemma_session_keeps_its_config(session, inputs);
}

/// A path that opens after another is given another address, so that it is seen to come from
/// somewhere else. The sessions may be the same or not; what counts is that the allocator has
/// moved on in between.
pub proof fn law_replacement_path_has_another_address(
    session: ConsumerSession,
    input: SessionInput,
    action: ConsumerSessionAction,
    later_session: ConsumerSession,
    later_input: SessionInput,
    later_action: ConsumerSessionAction,
)
    requires
        session.performs(input.event, input.next_host, action),
        later_session.performs(later_input.event, later_input.next_host, later_action),
        consumer_path::FIRST_PATH_HOST <= input.next_host < later_input.next_host,
    ensures
        action matches ConsumerSessionAction::RunPath { remote, .. } ==> later_action matches
            ConsumerSessionAction::RunPath { remote: later_remote, .. } ==> remote
            != later_remote,
{
    if action is RunPath && later_action is RunPath {
        consumer_path::law_path_addresses_are_distinct(input.next_host, later_input.next_host);
    }
}

/// The members of a candidate's JSON object: its ten fields by name.
pub open spec fn candidate_members(candidate: ConsumerIceCandidate) -> Seq<
    (Seq<char>, JsonValue),
> {
    seq![
        ("foundation"@, JsonValue::Text(candidate.foundation@)),
        ("priority"@, JsonValue::Number(candidate.priority as nat)),
        ("address"@, JsonValue::Text(candidate.address@)),
        ("protocol"@, JsonValue::Number(candidate.protocol as nat)),
        ("port"@, JsonValue::Number(candidate.port as nat)),
        ("type"@, JsonValue::Text(peer_proxy::kind_name(candidate.typ))),
        ("component"@, JsonValue::Number(candidate.component as nat)),
        ("relatedAddress"@, JsonValue::Text(candidate.related_address@)),
        ("relatedPort"@, JsonValue::Number(candidate.related_port as nat)),
        ("tcpType"@, JsonValue::Text(candidate.tcp_type@)),
    ]
}

/// A candidate's JSON object holds each of its fields under its own name, whatever its kind is.
pub proof fn law_candidate_object_names_its_fields(candidate: ConsumerIceCandidate)
    ensures
        candidate.spec_json() == json::object_json(candidate_members(candidate)),
{
    let members = candidate_members(candidate);
    let t1 = "{\"foundation\":"@ + json::json_string(candidate.foundation@);
    assert(t1 == seq!['{'] + json::members_json(members.take(1))) by {
        reveal_strlit("foundation");
        reveal_strlit("{\"foundation\":");
        let none = Seq::<(Seq<char>, JsonValue)>::empty();
        json::lemma_one_more_member(none, members[0]);
        assert(none.push(members[0]) =~= members.take(1));
        assert(t1 =~= seq!['{'] + json::members_json(members.take(1)));
    }
    let t2 = t1 + ",\"priority\":"@ + json::decimal(candidate.priority as nat);
    assert(t2 == seq!['{'] + json::members_json(members.take(2))) by {
        assert(",\"priority\":"@ =~= seq![',', '"'] + "priority"@ + seq!['"', ':']) by {
            reveal_strlit("priority");
            reveal_strlit(",\"priority\":");
        }
        json::lemma_object_goes_on(t1, members.take(1), ",\"priority\":"@, members[1]);
        assert(members.take(1).push(members[1]) =~= members.take(2));
    }
    let t3 = t2 + ",\"address\":"@ + json::json_string(candidate.address@);
    assert(t3 == seq!['{'] + json::members_json(members.take(3))) by {
        assert(",\"address\":"@ =~= seq![',', '"'] + "address"@ + seq!['"', ':']) by {
            reveal_strlit("address");
            reveal_strlit(",\"address\":");
        }
        json::lemma_object_goes_on(t2, members.take(2), ",\"address\":"@, members[2]);
        assert(members.take(2).push(members[2]) =~= members.take(3));
    }
    let t4 = t3 + ",\"protocol\":"@ + json::decimal(candidate.protocol as nat);
    assert(t4 == seq!['{'] + json::members_json(members.take(4))) by {
        assert(",\"protocol\":"@ =~= seq![',', '"'] + "protocol"@ + seq!['"', ':']) by {
            reveal_strlit("protocol");
            reveal_strlit(",\"protocol\":");
        }
        json::lemma_object_goes_on(t3, members.take(3), ",\"protocol\":"@, members[3]);
        assert(members.take(3).push(members[3]) =~= members.take(4));
    }
    let t5 = t4 + ",\"port\":"@ + json::decimal(candidate.port as nat);
    assert(t5 == seq!['{'] + json::members_json(members.take(5))) by {
        assert(",\"port\":"@ =~= seq![',', '"'] + "port"@ + seq!['"', ':']) by {
            reveal_strlit("port");
            reveal_strlit(",\"port\":");
        }
        json::lemma_object_goes_on(t4, members.take(4), ",\"port\":"@, members[4]);
        assert(members.take(4).push(members[4]) =~= members.take(5));
    }
    let t6 = t5 + ",\"type\":"@ + json::json_string(peer_proxy::kind_name(candidate.typ));
    assert(t6 == seq!['{'] + json::members_json(members.take(6))) by {
        assert(",\"type\":"@ =~= seq![',', '"'] + "type"@ + seq!['"', ':']) by {
            reveal_strlit("type");
            reveal_strlit(",\"type\":");
        }
        json::lemma_object_goes_on(t5, members.take(5), ",\"type\":"@, members[5]);
        assert(members.take(5).push(members[5]) =~= members.take(6));
    }
    let t7 = t6 + ",\"component\":"@ + json::decimal(candidate.component as nat);
    assert(t7 == seq!['{'] + json::members_json(members.take(7))) by {
        assert(",\"component\":"@ =~= seq![',', '"'] + "component"@ + seq!['"', ':']) by {
            reveal_strlit("component");
            reveal_strlit(",\"component\":");
        }
        json::lemma_object_goes_on(t6, members.take(6), ",\"component\":"@, members[6]);
        assert(members.take(6).push(members[6]) =~= members.take(7));
    }
    let t8 = t7 + ",\"relatedAddress\":"@ + json::json_string(candidate.related_address@);
    assert(t8 == seq!['{'] + json::members_json(members.take(8))) by {
        assert(",\"relatedAddress\":"@ =~= seq![',', '"'] + "relatedAddress"@ + seq!['"', ':']) by {
            reveal_strlit("relatedAddress");
            reveal_strlit(",\"relatedAddress\":");
        }
        json::lemma_object_goes_on(t7, members.take(7), ",\"relatedAddress\":"@, members[7]);
        assert(members.take(7).push(members[7]) =~= members.take(8));
    }
    let t9 = t8 + ",\"relatedPort\":"@ + json::decimal(candidate.related_port as nat);
    assert(t9 == seq!['{'] + json::members_json(members.take(9))) by {
        assert(",\"relatedPort\":"@ =~= seq![',', '"'] + "relatedPort"@ + seq!['"', ':']) by {
            reveal_strlit("relatedPort");
            reveal_strlit(",\"relatedPort\":");
        }
        json::lemma_object_goes_on(t8, members.take(8), ",\"relatedPort\":"@, members[8]);
        assert(members.take(8).push(members[8]) =~= members.take(9));
    }
    let t10 = t9 + ",\"tcpType\":"@ + json::json_string(candidate.tcp_type@);
    assert(t10 == seq!['{'] + json::members_json(members.take(10))) by {
        assert(",\"tcpType\":"@ =~= seq![',', '"'] + "tcpType"@ + seq!['"', ':']) by {
            reveal_strlit("tcpType");
            reveal_strlit(",\"tcpType\":");
        }
        json::lemma_object_goes_on(t9, members.take(9), ",\"tcpType\":"@, members[9]);
        assert(members.take(9).push(members[9]) =~= members.take(10));
    }
    assert(members.take(10) =~= members);
    assert("}"@ =~= seq!['}']) by {
        reveal_strlit("}");
    }
    assert(candidate.spec_json() == t10 + "}"@);
}

/// A candidate's JSON object tells the candidate: two candidates with the same object are the same in
/// every field.
pub proof fn law_candidate_object_tells_the_candidate(
    candidate: ConsumerIceCandidate,
    other: ConsumerIceCandidate,
)
    requires
        candidate.spec_json() == other.spec_json(),
    ensures
        candidate.foundation@ == other.foundation@,
        candidate.priority == other.priority,
        candidate.address@ == other.address@,
        candidate.protocol == other.protocol,
        candidate.port == other.port,
        candidate.typ == other.typ,
        candidate.component == other.component,
        candidate.related_address@ == other.related_address@,
        candidate.related_port == other.related_port,
        candidate.tcp_type@ == other.tcp_type@,
{
    law_candidate_object_names_its_fields(candidate);
    law_candidate_object_names_its_fields(other);
    let (a, b) = (candidate_members(candidate), candidate_members(other));
    json::law_object_tells_its_members(a, b);
    assert(a[0].1 == b[0].1 && a[1].1 == b[1].1 && a[2].1 == b[2].1 && a[3].1 == b[3].1);
    assert(a[4].1 == b[4].1 && a[5].1 == b[5].1 && a[6].1 == b[6].1 && a[7].1 == b[7].1);
    assert(a[8].1 == b[8].1 && a[9].1 == b[9].1);
    lemma_kind_names_are_distinct(candidate.typ, other.typ);
}

proof fn lemma_kind_names_are_distinct(a: IceCandidateType, b: IceCandidateType)
    requires
        peer_proxy::kind_name(a) == peer_proxy::kind_name(b),
    ensures
        a == b,
{
    reveal_strlit("Unspecified");
    reveal_strlit("host");
    reveal_strlit("srflx");
    reveal_strlit("prflx");
    reveal_strlit("relay");
    let (x, y) = (peer_proxy::kind_name(a), peer_proxy::kind_name(b));
    assert(x.len() == y.len());
    assert(x[0] == y[0]);
}

/// A candidate is sent as it was gathered, every field of it, with UDP as 1, TCP as 2 and an
/// unspecified protocol as 0.
pub proof fn law_candidate_is_sent_as_gathered(candidate: IceCandidate)
    ensures
        ({
            let sent = ConsumerIceCandidate::spec_from(candidate);
            &&& sent.foundation == candidate.foundation
            &&& sent.priority == candidate.priority
            &&& sent.address == candidate.address
            &&& sent.protocol == (match candidate.protocol {
                IceProtocol::Udp => 1u8,
                IceProtocol::Tcp => 2u8,
                IceProtocol::Unspecified => 0u8,
            })
            &&& sent.port == candidate.port
            &&& sent.typ == candidate.typ
            &&& sent.component == candidate.component
            &&& sent.related_address == candidate.related_address
            &&& sent.related_port == candidate.related_port
            &&& sent.tcp_type == candidate.tcp_type
        }),
{
}

/// The objects of candidates as they are sent.
pub open spec fn candidate_objects(candidates: Seq<IceCandidate>) -> Seq<Seq<char>> {
    Seq::new(
        candidates.len(),
        |i: int|
            json::object_json(candidate_members(ConsumerIceCandidate::spec_from(candidates[i]))),
    )
}

proof fn lemma_candidates_are_joined(candidates: Seq<IceCandidate>)
    ensures
        candidates_json(candidates) == json::joined(candidate_objects(candidates)),
    decreases candidates.len(),
{
    reveal_strlit(",");
    let objects = candidate_objects(candidates);
    if candidates.len() > 0 {
        let last = ConsumerIceCandidate::spec_from(candidates.last());
        law_candidate_object_names_its_fields(last);
        assert(objects.last() == last.spec_json());
        if candidates.len() > 1 {
            lemma_candidates_are_joined(candidates.drop_last());
            assert(objects.drop_last() =~= candidate_objects(candidates.drop_last()));
            assert(candidates_json(candidates) =~= json::joined(objects));
        }
    }
}

/// The message that sends candidates is a JSON object: under `Candidates` the objects of all of them,
/// in order, and under `ConsumerSessionID` the session ID.
pub proof fn law_ice_message_lists_every_candidate(
    candidates: Seq<IceCandidate>,
    session_id: Seq<char>,
)
    ensures
        ice_json(candidates, session_id) == json::object_json(
            seq![
                (
                    "Candidates"@,
                    JsonValue::Json(
                        seq!['['] + json::joined(candidate_objects(candidates)) + seq![']'],
                    ),
                ),
                ("ConsumerSessionID"@, JsonValue::Text(session_id)),
            ],
        ),
{
    lemma_candidates_are_joined(candidates);
    reveal_strlit("Candidates");
    reveal_strlit("{\"Candidates\":[");
    reveal_strlit("ConsumerSessionID");
    reveal_strlit("],\"ConsumerSessionID\":");
    reveal_strlit("}");
    let none = Seq::<(Seq<char>, JsonValue)>::empty();
    let array = seq!['['] + json::joined(candidate_objects(candidates)) + seq![']'];
    let m1 = ("Candidates"@, JsonValue::Json(array));
    let f1 = none.push(m1);
    json::lemma_one_more_member(none, m1);
    let t1 = "{\"Candidates\":["@ + json::joined(candidate_objects(candidates)) + seq![']'];
    assert(t1 =~= seq!['{'] + json::members_json(f1));
    let m2 = ("ConsumerSessionID"@, JsonValue::Text(session_id));
    let f2 = f1.push(m2);
    json::lemma_one_more_member(f1, m2);
    let t2 = t1 + "],\"ConsumerSessionID\":"@.skip(1) + json::json_string(session_id);
    assert(t2 =~= seq!['{'] + json::members_json(f2));
    assert(f2 =~= seq![m1, m2]);
    assert(ice_json(candidates, session_id) =~= t2 + "}"@);
    assert(ice_json(candidates, session_id) =~= json::object_json(f2));
}

/// An offer is a JSON object: under `SDP` the session description, and under `Tag` the consumer's
/// tag.
pub proof fn law_offer_is_an_object(description: Seq<char>, tag: Seq<char>)
    ensures
        offer_json(description, tag) == json::object_json(
            seq![
                ("SDP"@, JsonValue::Json(description)),
                ("Tag"@, JsonValue::Text(tag)),
            ],
        ),
{
    reveal_strlit("SDP");
    reveal_strlit("{\"SDP\":");
    reveal_strlit("Tag");
    reveal_strlit(",\"Tag\":");
    reveal_strlit("}");
    let none = Seq::<(Seq<char>, JsonValue)>::empty();
    let m1 = ("SDP"@, JsonValue::Json(description));
    let f1 = none.push(m1);
    json::lemma_one_more_member(none, m1);
    let t1 = "{\"SDP\":"@ + description;
    assert(t1 =~= seq!['{'] + json::members_json(f1));
    let m2 = ("Tag"@, JsonValue::Text(tag));
    let f2 = f1.push(m2);
    json::lemma_one_more_member(f1, m2);
    let t2 = t1 + ",\"Tag\":"@ + json::json_string(tag);
    assert(t2 =~= seq!['{'] + json::members_json(f2));
    assert(f2 =~= seq![m1, m2]);
    assert(offer_json(description, tag) =~= t2 + "}"@);
    assert(offer_json(description, tag) =~= json::object_json(f2));
}

/// One step of a session: what happened, with the place of the next synthetic address then, and
/// what the session did on it.
#[derive(Debug)]
pub struct ConsumerSessionStep {
    pub input: SessionInput,
    pub action: ConsumerSessionAction,
}

/// Whether `steps` is what can happen to a session, one after the other.
pub open spec fn is_session_run(
    session: ConsumerSession,
    steps: Seq<ConsumerSessionStep>,
) -> bool
    decreases steps.len(),
{
    steps.len() > 0 ==> {
        let input = steps[0].input;
        &&& session.performs(input.event, input.next_host, steps[0].action)
        &&& is_session_run(session.spec_next(input.event, input.next_host), steps.drop_first())
    }
}

/// The steps of a session that comes to the end of its path, with the given actions.
pub open spec fn whole_exchange(
    genesis: SignalMessage,
    description: String,
    answer: SignalMessage,
    candidates: Vec<IceCandidate>,
    reply: Option<SignalMessage>,
    path_end: ConsumerPathEnd,
    next_host: u32,
    actions: Seq<ConsumerSessionAction>,
) -> Seq<ConsumerSessionStep> {
    let events = seq![
        ConsumerSessionEvent::GenesisSelected(Ok(genesis)),
        ConsumerSessionEvent::OfferCreated(description),
        ConsumerSessionEvent::Signal(Ok(Some(answer))),
        ConsumerSessionEvent::CandidatesGathered(candidates),
        ConsumerSessionEvent::Signal(Ok(reply)),
        ConsumerSessionEvent::DataChannel(DataChannelOutcome::Opened),
        ConsumerSessionEvent::PathEnded(Ok(path_end)),
    ];
    Seq::new(
        7,
        |i: int|
            ConsumerSessionStep {
                input: SessionInput { event: events[i], next_host },
                action: actions[i],
            },
    )
}

/// A session makes its offer to the peer that was selected, with the connection's description and
/// the consumer's tag; applies the answer; sends all of its candidates where the answer came from,
/// under the consumer's ID; waits for the data channel for as long as it is allowed to, whatever the
/// peer replied; and runs a path at the next synthetic address with the configured room, whose
/// outcome it reports.
pub proof fn law_session_comes_to_its_path(
    session: ConsumerSession,
    genesis: SignalMessage,
    description: String,
    answer: SignalMessage,
    candidates: Vec<IceCandidate>,
    reply: Option<SignalMessage>,
    path_end: ConsumerPathEnd,
    next_host: u32,
    actions: Seq<ConsumerSessionAction>,
)
    requires
        session.stage is SelectingGenesis,
        answer.kind == SignalMessageType::Answer,
        next_host < 0x40_0000,
        is_session_run(
            session,
            whole_exchange(
                genesis,
                description,
                answer,
                candidates,
                reply,
                path_end,
                next_host,
                actions,
            ),
        ),
    ensures
        actions[0] is CreateOffer,
        actions[1] matches ConsumerSessionAction::Exchange { send_to, kind, payload } && {
            &&& send_to == genesis.reply_to
            &&& kind == SignalMessageType::Offer
            &&& payload@ == json::object_json(
                seq![
                    ("SDP"@, JsonValue::Json(description@)),
                    ("Tag"@, JsonValue::Text(session.config.tag@)),
                ],
            )
        },
        actions[2] == (ConsumerSessionAction::ApplyAnswer { payload: answer.payload }),
        actions[3] matches ConsumerSessionAction::Exchange { send_to, kind, payload } && {
            &&& send_to == answer.reply_to
            &&& kind == SignalMessageType::Ice
            &&& payload@ == json::object_json(
                seq![
                    (
                        "Candidates"@,
                        JsonValue::Json(
                            seq!['['] + json::joined(candidate_objects(candidates@)) + seq![']'],
                        ),
                    ),
                    (
                        "ConsumerSessionID"@,
                        JsonValue::Text(session.config.consumer_session_id@),
                    ),
                ],
            )
        },
        actions[4] == (ConsumerSessionAction::AwaitDataChannel {
            timeout: session.config.nat_timeout,
        }),
        actions[5] == (ConsumerSessionAction::RunPath {
            remote: SocketAddress::V4 { ip: (0x6440_0000 + next_host) as u32, port: 443 },
            queue_capacity: session.config.path_queue_capacity,
        }),
        actions[6] == ConsumerSessionAction::Finish(
            Ok(
                ConsumerOutcome {
                    remote: SocketAddress::V4 { ip: (0x6440_0000 + next_host) as u32, port: 443 },
                    path_end,
                },
            ),
        ),
{
    let steps = whole_exchange(
        genesis,
        description,
        answer,
        candidates,
        reply,
        path_end,
        next_host,
        actions,
    );
    reveal_with_fuel(is_session_run, 8);
    let s1 = steps.drop_first();
    let s2 = s1.drop_first();
    let s3 = s2.drop_first();
    let s4 = s3.drop_first();
    let s5 = s4.drop_first();
    let s6 = s5.drop_first();
    assert(s1[0] == steps[1]);
    assert(s2[0] == steps[2]);
    assert(s3[0] == steps[3]);
    assert(s4[0] == steps[4]);
    assert(s5[0] == steps[5]);
    assert(s6[0] == steps[6]);
    law_offer_is_an_object(description@, session.config.tag@);
    law_ice_message_lists_every_candidate(candidates@, session.config.consumer_session_id@);
}

/// Every failure has its cause, and says what it was: an error that was reported is passed on as it
/// came, and a signal of the wrong kind is named with the kind that was waited for.
pub proof fn law_every_failure_has_its_cause(
    session: ConsumerSession,
    event: ConsumerSessionEvent,
    next_host: u32,
    error: ConsumerError,
)
    requires
        session.performs(event, next_host, ConsumerSessionAction::Finish(Err(error))),
    ensures
        event == ConsumerSessionEvent::GenesisSelected(Err(error)) || match error {
            ConsumerError::Signaling(cause) => event == ConsumerSessionEvent::Signal(Err(cause)),
            ConsumerError::WebRtc(cause) => event == ConsumerSessionEvent::WebRtcFailed(cause),
            ConsumerError::Json(cause) => event == ConsumerSessionEvent::JsonFailed(cause),
            ConsumerError::NoGenesis => false,
            ConsumerError::UnexpectedSignal { expected, actual } => {
                &&& session.stage is AwaitingAnswer
                &&& event matches ConsumerSessionEvent::Signal(Ok(Some(signal)))
                &&& signal.kind == actual
                &&& expected == SignalMessageType::Answer
                &&& actual != expected
            },
            ConsumerError::MissingAnswer => session.stage is AwaitingAnswer && event
                == ConsumerSessionEvent::Signal(Ok(None)),
            ConsumerError::NatTimeout => event == ConsumerSessionEvent::DataChannel(
                DataChannelOutcome::TimedOut,
            ),
            ConsumerError::DataChannelClosed => event == ConsumerSessionEvent::DataChannel(
                DataChannelOutcome::Abandoned,
            ),
            ConsumerError::PeerConnectionEnded(state) => event
                == ConsumerSessionEvent::DataChannel(DataChannelOutcome::PeerEnded(state)),
            ConsumerError::Path(cause) => event == ConsumerSessionEvent::PathEnded(Err(cause)) || (
            cause is AddressSpaceExhausted && event == ConsumerSessionEvent::DataChannel(
                DataChannelOutcome::Opened,
            ) && next_host >= 0x40_0000),
            ConsumerError::Cancelled => event is Cancelled,
        },
{
}

/// Whether `event` is the failure of what a session in this stage waits for, with the next synthetic
/// address at `next_host`.
pub open spec fn is_failure(
    stage: ConsumerSessionStage,
    event: ConsumerSessionEvent,
    next_host: u32,
) -> bool {
    match stage {
        ConsumerSessionStage::SelectingGenesis => event matches
            ConsumerSessionEvent::GenesisSelected(selected) && selected is Err,
        ConsumerSessionStage::CreatingOffer { .. } | ConsumerSessionStage::ApplyingAnswer {
            ..
        } => event is WebRtcFailed || event is JsonFailed,
        ConsumerSessionStage::AwaitingAnswer => event matches ConsumerSessionEvent::Signal(reply)
            && !(reply matches Ok(Some(signal)) && signal.kind == SignalMessageType::Answer),
        ConsumerSessionStage::SendingCandidates => event matches ConsumerSessionEvent::Signal(reply)
            && reply is Err,
        ConsumerSessionStage::AwaitingDataChannel => event matches
            ConsumerSessionEvent::DataChannel(outcome) && (outcome !is Opened || next_host
            >= 0x40_0000),
        ConsumerSessionStage::RunningPath { .. } => event matches ConsumerSessionEvent::PathEnded(
            result,
        ) && result is Err,
        ConsumerSessionStage::Finished => false,
    }
}

/// A failure of what a session waits for ends the session with an error; nothing but that and a
/// cancellation does.
pub proof fn law_failures_end_the_session(
    session: ConsumerSession,
    event: ConsumerSessionEvent,
    next_host: u32,
    action: ConsumerSessionAction,
)
    requires
        session.performs(event, next_host, action),
    ensures
        action matches ConsumerSessionAction::Finish(result) && result is Err <==> is_failure(
            session.stage,
            event,
            next_host,
        ) || event is Cancelled && session.stage !is Finished,
{
}

/// A session asks for each thing only when its turn has come: it never offers, applies, sends, waits
/// or opens a path on an event that does not call for it.
pub proof fn law_every_action_has_its_turn(
    session: ConsumerSession,
    event: ConsumerSessionEvent,
    next_host: u32,
    action: ConsumerSessionAction,
)
    requires
        session.performs(event, next_host, action),
    ensures
        match action {
            ConsumerSessionAction::SelectGenesis { .. } => false,
            ConsumerSessionAction::CreateOffer => session.stage is SelectingGenesis && (event
                matches ConsumerSessionEvent::GenesisSelected(selected) && selected is Ok),
            ConsumerSessionAction::Exchange { send_to, kind, .. } => {
                ||| session.stage == (ConsumerSessionStage::CreatingOffer { reply_to: send_to })
                    && event is OfferCreated && kind == SignalMessageType::Offer
                ||| session.stage == (ConsumerSessionStage::ApplyingAnswer { reply_to: send_to })
                    && event is CandidatesGathered && kind == SignalMessageType::Ice
            },
            ConsumerSessionAction::ApplyAnswer { payload } => session.stage is AwaitingAnswer && (
            event matches ConsumerSessionEvent::Signal(Ok(Some(signal))) && signal.kind
                == SignalMessageType::Answer && signal.payload == payload),
            ConsumerSessionAction::AwaitDataChannel { timeout } => session.stage
                is SendingCandidates && (event matches ConsumerSessionEvent::Signal(reply) && reply
                is Ok) && timeout == session.config.nat_timeout,
            ConsumerSessionAction::RunPath { remote, queue_capacity } => {
                &&& session.stage is AwaitingDataChannel
                &&& event == ConsumerSessionEvent::DataChannel(DataChannelOutcome::Opened)
                &&& next_host < 0x40_0000
                &&& remote == (SocketAddress::V4 {
                    ip: (0x6440_0000 + next_host) as u32,
                    port: 443,
                })
                &&& queue_capacity == session.config.path_queue_capacity
            },
            ConsumerSessionAction::Finish(Ok(outcome)) => session.stage == (
            ConsumerSessionStage::RunningPath { remote: outcome.remote }) && event
                == ConsumerSessionEvent::PathEnded(Ok(outcome.path_end)),
            ConsumerSessionAction::Finish(Err(_)) | ConsumerSessionAction::Ignore => true,
        },
{
}

/// Whether `event` tells a session in this stage what came of its last action.
pub open spec fn is_awaited(stage: ConsumerSessionStage, event: ConsumerSessionEvent) -> bool {
    match stage {
        ConsumerSessionStage::SelectingGenesis => event is GenesisSelected,
        ConsumerSessionStage::CreatingOffer { .. } => event is OfferCreated || event is WebRtcFailed
            || event is JsonFailed,
        ConsumerSessionStage::AwaitingAnswer | ConsumerSessionStage::SendingCandidates => event
            is Signal,
        ConsumerSessionStage::ApplyingAnswer { .. } => event is CandidatesGathered || event
            is WebRtcFailed || event is JsonFailed,
        ConsumerSessionStage::AwaitingDataChannel => event is DataChannel,
        ConsumerSessionStage::RunningPath { .. } => event is PathEnded,
        ConsumerSessionStage::Finished => false,
    }
}

/// A session passes over exactly the events that tell it nothing that it waits for: what came of its
/// last action, and a cancellation before its end, never go unheeded.
pub proof fn law_nothing_awaited_is_ignored(
    session: ConsumerSession,
    event: ConsumerSessionEvent,
    next_host: u32,
    action: ConsumerSessionAction,
)
    requires
        session.performs(event, next_host, action),
    ensures
        action is Ignore <==> !is_awaited(session.stage, event) && !(event is Cancelled
            && session.stage !is Finished),
{
}

/// A session takes an address from the allocator exactly when it runs a path.
pub proof fn law_every_path_takes_an_address(
    session: ConsumerSession,
    event: ConsumerSessionEvent,
    next_host: u32,
    action: ConsumerSessionAction,
)
    requires
        session.performs(event, next_host, action),
        next_host < 0x40_0000,
    ensures
        session.takes_address(event) <==> action is RunPath,
{
}

/// The peers among the advertisements that were read, in order.
pub open spec fn peers_advertised(events: Seq<GenesisEvent>) -> Seq<SignalMessage>
    decreases events.len(),
{
    if events.len() == 0 {
        Seq::empty()
    } else {
        let before = peers_advertised(events.drop_last());
        match events.last() {
            GenesisEvent::Advertisement(Ok(Some(message))) if message.kind
                == SignalMessageType::Genesis => before.push(message),
            _ => before,
        }
    }
}

/// Whether `searches` are the states of a new search over `events`.
pub open spec fn is_search(searches: Seq<GenesisSelection>, events: Seq<GenesisEvent>) -> bool {
    &&& searches.len() == events.len() + 1
    &&& searches[0].candidates@.len() == 0
    &&& forall|i: int|
        0 <= i < events.len() ==> finds(#[trigger] searches[i], events[i], searches[i + 1])
}

/// Whether `after` is the search `before` once `event` has happened.
pub open spec fn finds(
    before: GenesisSelection,
    event: GenesisEvent,
    after: GenesisSelection,
) -> bool {
    after.candidates@ == before.spec_next(event) && after.patience == before.patience
}

proof fn lemma_search_finds_the_peers(searches: Seq<GenesisSelection>, events: Seq<GenesisEvent>)
    requires
        is_search(searches, events),
    ensures
        searches.last().candidates@ == peers_advertised(events),
        searches.last().patience == searches[0].patience,
    decreases events.len(),
{
    if events.len() > 0 {
        let (before, start) = (searches.drop_last(), events.drop_last());
        assert forall|i: int| 0 <= i < start.len() implies finds(
            #[trigger] before[i],
            start[i],
            before[i + 1],
        ) by {
            assert(finds(searches[i], events[i], searches[i + 1]));
        }
        lemma_search_finds_the_peers(before, start);
        let n = events.len() - 1;
        assert(finds(searches[n], events[n], searches[n + 1]));
    } else {
        assert(searches.last().candidates@ =~= peers_advertised(events));
    }
}

/// A search selects one of the peers that were advertised to it, and no other message. It does so as
/// soon as there are no more advertisements, or the time that starts with the first peer is over.
/// It fails only if it is cancelled, if the advertisements cannot be read, or if they end without a
/// peer.
pub proof fn law_search_selects_an_advertised_peer(
    searches: Seq<GenesisSelection>,
    events: Seq<GenesisEvent>,
    event: GenesisEvent,
    action: GenesisAction,
)
    requires
        is_search(searches, events),
        searches.last().performs(event, action),
    ensures
        ({
            let found = peers_advertised(events);
            let over = event is PatienceOver || event == GenesisEvent::Advertisement(Ok(None));
            match action {
                GenesisAction::Select(message) => over && found.contains(message),
                GenesisAction::ReadFor(patience) => {
                    &&& patience == searches[0].patience
                    &&& found.len() == 0
                    &&& peers_advertised(events.push(event)).len() == 1
                },
                GenesisAction::Read => {
                    ||| event is PatienceOver && found.len() == 0
                    ||| event matches GenesisEvent::Advertisement(Ok(Some(message))) && (found.len()
                        > 0 || message.kind != SignalMessageType::Genesis)
                },
                GenesisAction::Fail(error) => {
                    ||| error is Cancelled && event is Cancelled
                    ||| error is NoGenesis && event == GenesisEvent::Advertisement(Ok(None))
                        && found.len() == 0
                    ||| event matches GenesisEvent::Advertisement(Err(cause)) && error
                        == ConsumerError::Signaling(cause)
                },
            }
        }),
{
    lemma_search_finds_the_peers(searches, events);
    assert(events.push(event).drop_last() =~= events);
}

/// The paths of a run of sessions that ended by themselves.
pub open spec fn completed(sessions: Seq<EndedSession>) -> nat {
    sessions.filter(
        |session: EndedSession|
            session.result matches Ok(outcome) && outcome.path_end != ConsumerPathEnd::Cancelled,
    ).len()
}

/// The sessions of a run that failed before the shutdown.
pub open spec fn failed(sessions: Seq<EndedSession>) -> nat {
    sessions.filter(|session: EndedSession| session.result is Err && !session.cancelled).len()
}

/// The counters grow by the sessions that were started, by the paths that ended by themselves, and
/// by the sessions that failed before the shutdown.
pub proof fn law_counters_tell_how_sessions_ended(
    supervisor: ConsumerSupervisor,
    sessions: Seq<EndedSession>,
)
    requires
        supervisor.summary.attempts + sessions.len() <= u64::MAX,
        supervisor.summary.completed_paths + sessions.len() <= u64::MAX,
        supervisor.summary.failed_attempts + sessions.len() <= u64::MAX,
    ensures
        ({
            let after = supervisor_after(supervisor, sessions);
            &&& after.summary.attempts == supervisor.summary.attempts + sessions.len()
            &&& after.summary.completed_paths == supervisor.summary.completed_paths + completed(
                sessions,
            )
            &&& after.summary.failed_attempts == supervisor.summary.failed_attempts + failed(
                sessions,
            )
            &&& after.consumer == supervisor.consumer
            &&& after.retry_delay == supervisor.retry_delay
        }),
        completed(sessions) <= sessions.len(),
        failed(sessions) <= sessions.len(),
    decreases sessions.len(),
{
    reveal(Seq::filter);
    if sessions.len() > 0 {
        law_counters_tell_how_sessions_ended(supervisor, sessions.drop_last());
    }
}

/// A path that ended by itself is reported with its outcome and followed by the next session at
/// once, a failure with its words after the configured delay, and each under the number of its
/// session. A path that says it was cancelled, or a failure during the shutdown, ends the
/// supervision without a report.
pub proof fn law_every_session_is_reported(
    supervisor: ConsumerSupervisor,
    session: EndedSession,
    step: ConsumerStep,
)
    requires
        supervisor.spec_follows(session.result, session.cancelled, step),
    ensures
        step is Stop <==> match session.result {
            Ok(outcome) => outcome.path_end is Cancelled,
            Err(_) => session.cancelled,
        },
        step matches ConsumerStep::Continue { event, retry_in } ==> match event {
            ConsumerEvent::PathEnded { attempt, outcome } => session.result == Ok::<
                ConsumerOutcome,
                String,
            >(outcome) && attempt == supervisor.summary.attempts && retry_in is None,
            ConsumerEvent::AttemptFailed { attempt, error } => session.result == Err::<
                ConsumerOutcome,
                String,
            >(error) && attempt == supervisor.summary.attempts && retry_in == Some(
                supervisor.retry_delay,
            ),
            _ => false,
        },
{
}

/// The same consumer has the same identity, tag, servers, times, room and address families.
pub proof fn law_same_consumer_has_the_same_settings(a: ConsumerConfig, b: ConsumerConfig)
    requires
        a.same_consumer(b),
    ensures
        a.consumer_session_id == b.consumer_session_id,
        a.stun_urls@ == b.stun_urls@,
        a.tag == b.tag,
        a.patience == b.patience,
        a.nat_timeout == b.nat_timeout,
        a.path_queue_capacity == b.path_queue_capacity,
        a.enable_ipv6 == b.enable_ipv6,
{
}

/// A session starts by searching for a peer, for as long as its configuration says, and keeps its
/// configuration.
pub proof fn law_session_starts_with_the_search(
    config: ConsumerConfig,
    started: (ConsumerSession, ConsumerSessionAction),
)
    requires
        call_ensures(ConsumerSession::start, (config,), started),
    ensures
        started.0.stage is SelectingGenesis,
        started.0.config == config,
        started.1 == (ConsumerSessionAction::SelectGenesis { patience: config.patience }),
{
}

/// A signal is accepted exactly if it is of the expected kind; otherwise both kinds are named.
pub proof fn law_only_the_expected_signal_is_accepted(
    signal: SignalMessage,
    expected: SignalMessageType,
    accepted: Result<(), ConsumerError>,
)
    requires
        call_ensures(expect_signal, (&signal, expected), accepted),
    ensures
        accepted is Ok <==> signal.kind == expected,
        accepted is Err ==> accepted->Err_0 == (ConsumerError::UnexpectedSignal {
            expected,
            actual: signal.kind,
        }),
{
}

/// A session that starts is counted, and reported under the number that it is counted as, which
/// follows the number before it. Nothing else changes, and during the shutdown nothing starts.
pub proof fn law_sessions_are_numbered_in_order(
    supervisor: ConsumerSupervisor,
    cancelled: bool,
    after: ConsumerSupervisor,
    event: Option<ConsumerEvent>,
)
    requires
        supervisor.summary.attempts < u64::MAX,
        supervisor.begins(cancelled, after, event),
    ensures
        event is None <==> cancelled,
        after.summary.attempts == supervisor.summary.attempts + if cancelled {
            0int
        } else {
            1int
        },
        event matches Some(event) ==> event == (ConsumerEvent::AttemptStarted {
            attempt: after.summary.attempts,
        }),
        after == (ConsumerSupervisor {
            summary: ConsumerSummary { attempts: after.summary.attempts, ..supervisor.summary },
            ..supervisor
        }),
{
}

} // verus!
