//! The WebRTC side of a path: connection settings, ICE candidates and the data channel.
use rand::seq::SliceRandom;
use vstd::prelude::*;
use webrtc::ice_transport::ice_candidate::RTCIceCandidate;
use webrtc::ice_transport::ice_candidate_type::RTCIceCandidateType;
use webrtc::ice_transport::ice_protocol::RTCIceProtocol;

use crate::queue::BoundedQueue;

verus! {

/// The label of the data channel that carries datagrams.
pub const DATA_CHANNEL_LABEL: &'static str = "data";

/// The number of data channel events that wait to be read.
pub const DEFAULT_DATA_CHANNEL_QUEUE: usize = 4096;

/// The states of a peer connection.
#[derive(Debug, Clone, Copy, PartialEq, Eq, Structural)]
pub enum PeerConnectionState {
    Unspecified,
    New,
    Connecting,
    Connected,
    Disconnected,
    Failed,
    Closed,
}

/// Whether a connection in this state will carry no more datagrams.
pub open spec fn is_terminal(state: PeerConnectionState) -> bool {
    state is Disconnected || state is Failed || state is Closed
}

/// Whether a connection in this state will carry no more datagrams.
pub fn is_terminal_peer_state(state: PeerConnectionState) -> (terminal: bool)
    ensures
        terminal == is_terminal(state),
{
    matches!(
        state,
        PeerConnectionState::Disconnected | PeerConnectionState::Failed
            | PeerConnectionState::Closed
    )
}

/// The kinds of network interface that ICE candidates are gathered on.
#[derive(Debug, Clone, Copy, PartialEq, Eq, Structural)]
pub enum NetworkType {
    Udp4,
    Udp6,
}

/// How a WebRTC stack is set up.
#[derive(Debug, Clone, PartialEq, Eq)]
pub struct ApiSettings {
    pub network_types: Vec<NetworkType>,
    /// Reorder cipher suites and extensions on each ClientHello flight.
    pub randomize_dtls: bool,
}

/// Settings that gather candidates on every network and hide the DTLS fingerprint.
pub fn build_api() -> (settings: ApiSettings)
    ensures
        settings.network_types@ == seq![NetworkType::Udp4, NetworkType::Udp6],
        settings.randomize_dtls,
{
    build_api_with_options(true, true)
}

/// Settings that hide the DTLS fingerprint, with or without IPv6 candidates.
pub fn build_api_with_ipv6(enable_ipv6: bool) -> (settings: ApiSettings)
    ensures
        settings.network_types@ == spec_network_types(enable_ipv6),
        settings.randomize_dtls,
{
    build_api_with_options(enable_ipv6, true)
}

/// IPv4 always, and IPv6 after it where it is enabled.
pub open spec fn spec_network_types(enable_ipv6: bool) -> Seq<NetworkType> {
    if enable_ipv6 {
        seq![NetworkType::Udp4, NetworkType::Udp6]
    } else {
        seq![NetworkType::Udp4]
    }
}

/// Settings for the given choices.
pub fn build_api_with_options(enable_ipv6: bool, randomize_dtls: bool) -> (settings: ApiSettings)
    ensures
        settings.network_types@ == spec_network_types(enable_ipv6),
        settings.randomize_dtls == randomize_dtls,
{
    let mut network_types = vec![NetworkType::Udp4];
    if enable_ipv6 {
        network_types.push(NetworkType::Udp6);
    }
    ApiSettings { network_types, randomize_dtls }
}

/// Calls `rand::seq::SliceRandom::shuffle` with the thread's generator: the items stay, each as
/// often as before, and nothing is said about their order.
#[verifier::external_body]
fn shuffle<T>(items: &mut Vec<T>)
    ensures
        final(items)@.to_multiset() == old(items)@.to_multiset(),
{
    items.shuffle(&mut rand::rng());
}

/// Whether `order` names each of the places below `count` once.
pub open spec fn is_order(order: Seq<usize>, count: nat) -> bool {
    &&& order.len() == count
    &&& forall|i: int| 0 <= i < order.len() ==> (#[trigger] order[i]) < count
    &&& forall|i: int, j: int|
        0 <= i < j < order.len() ==> (#[trigger] order[i]) != (#[trigger] order[j])
}

/// The items in the given order: the item at each place is the one that the order names there.
pub open spec fn in_order<T>(items: Seq<T>, order: Seq<usize>) -> Seq<T> {
    Seq::new(order.len(), |i: int| items[order[i] as int])
}

/// The items in the given order.
pub fn reorder<T>(items: Vec<T>, order: &Vec<usize>) -> (reordered: Vec<T>)
    requires
        is_order(order@, items@.len()),
    ensures
        reordered@ == in_order(items@, order@),
{
    let ghost all = items@;
    let count: usize = items.len();
    let mut items = items;
    // The items from the last to the first.
    let mut slots: Vec<Option<T>> = Vec::new();
    while items.len() > 0
        invariant
            all.len() == count,
            items@.len() + slots@.len() == count,
            items@ == all.take(items@.len() as int),
            forall|k: int|
                0 <= k < slots@.len() ==> #[trigger] slots@[k] == Some(all[count - 1 - k]),
        decreases items@.len(),
    {
        if let Some(item) = items.pop() {
            slots.push(Some(item));
        }
    }
    let mut reordered: Vec<T> = Vec::new();
    let mut i: usize = 0;
    while i < count
        invariant
            all.len() == count,
            slots@.len() == count,
            i <= count,
            is_order(order@, all.len()),
            reordered@ == in_order(all, order@).take(i as int),
            forall|j: int|
                i <= j < count ==> slots@[count - 1 - #[trigger] order@[j]] == Some(
                    all[order@[j] as int],
                ),
        decreases count - i,
    {
        let at: usize = count - 1 - order[i];
        assert(slots@[at as int] == Some(all[order@[i as int] as int]));
        let mut slot: Option<T> = None;
        std::mem::swap(&mut slot, &mut slots[at]);
        if let Some(item) = slot {
            reordered.push(item);
        }
        i = i + 1;
    }
    reordered
}

/// The order in which nothing changes its place.
pub open spec fn identity(count: nat) -> Seq<usize> {
    Seq::new(count, |i: int| i as usize)
}

/// Orders that name the same places put the same items into them, each as often.
proof fn lemma_orders_keep_the_items<T>(items: Seq<T>, order: Seq<usize>, other: Seq<usize>)
    requires
        order.to_multiset() == other.to_multiset(),
    ensures
        in_order(items, order).to_multiset() == in_order(items, other).to_multiset(),
    decreases order.len(),
{
    broadcast use vstd::seq_lib::group_to_multiset_ensures;

    assert(order.len() == order.to_multiset().len() && other.len() == other.to_multiset().len());
    if order.len() == 0 {
        assert(in_order(items, order) =~= in_order(items, other));
    } else {
        let place = order.last();
        let rest = order.drop_last();
        assert(rest =~= order.remove(order.len() - 1));
        assert(order.to_multiset().contains(place));
        let at = choose|at: int| 0 <= at < other.len() && other[at] == place;
        let other_rest = other.remove(at);
        lemma_orders_keep_the_items(items, rest, other_rest);
        let (kept, other_kept) = (in_order(items, order), in_order(items, other));
        assert(in_order(items, rest) =~= kept.remove(kept.len() - 1));
        assert(in_order(items, other_rest) =~= other_kept.remove(at));
        assert(kept.to_multiset() =~= kept.remove(kept.len() - 1).to_multiset().insert(
            items[place as int],
        ));
        assert(other_kept.to_multiset() =~= other_kept.remove(at).to_multiset().insert(
            items[place as int],
        ));
    }
}

/// An order of `count` items, drawn at random.
fn draw_order(count: usize) -> (order: Vec<usize>)
    ensures
        is_order(order@, count as nat),
        order@.to_multiset() == identity(count as nat).to_multiset(),
{
    let mut order: Vec<usize> = Vec::new();
    let mut i: usize = 0;
    while i < count
        invariant
            i <= count,
            order@ == identity(i as nat),
        decreases count - i,
    {
        order.push(i);
        i = i + 1;
    }
    shuffle(&mut order);
    proof {
        let places = identity(count as nat);
        broadcast use vstd::seq_lib::group_to_multiset_ensures;

        assert(places.no_duplicates());
        places.lemma_multiset_has_no_duplicates();
        assert(order@.to_multiset() == places.to_multiset());
        order@.lemma_multiset_has_no_duplicates_conv();
        assert(order@.len() == order@.to_multiset().len() && places.len()
            == places.to_multiset().len());
        assert forall|j: int| 0 <= j < order@.len() implies #[trigger] order@[j] < count by {
            assert(order@.to_multiset().contains(order@[j]));
            assert(places.contains(order@[j]));
        }
    }
    order
}

/// The items in an order that is drawn at random.
fn randomize<T>(items: Vec<T>) -> (randomized: Vec<T>)
    ensures
        is_reordered(items@, randomized@),
        randomized@.to_multiset() == items@.to_multiset(),
{
    let order = draw_order(items.len());
    proof {
        lemma_orders_keep_the_items(items@, order@, identity(items@.len()));
        assert(in_order(items@, identity(items@.len())) =~= items@);
    }
    reorder(items, &order)
}

/// Whether `reordered` holds the items in another order, or in the same.
pub open spec fn is_reordered<T>(items: Seq<T>, reordered: Seq<T>) -> bool {
    exists|order: Seq<usize>|
        is_order(order, items.len()) && reordered == #[trigger] in_order(items, order)
}

/// Reorders the cipher suites and the extensions of a ClientHello independently of each other.
/// What is offered stays the same; only its order changes.
pub fn randomize_client_hello<C, E>(cipher_suites: Vec<C>, extensions: Vec<E>) -> (hello: (
    Vec<C>,
    Vec<E>,
))
    ensures
        is_reordered(cipher_suites@, hello.0@),
        is_reordered(extensions@, hello.1@),
        hello.0@.to_multiset() == cipher_suites@.to_multiset(),
        hello.1@.to_multiset() == extensions@.to_multiset(),
{
    (randomize(cipher_suites), randomize(extensions))
}

impl ApiSettings {
    /// The cipher suites and the extensions of a ClientHello as they are sent: reordered where the
    /// DTLS fingerprint is hidden, and otherwise as they came.
    pub fn client_hello<C, E>(&self, cipher_suites: Vec<C>, extensions: Vec<E>) -> (hello: (
        Vec<C>,
        Vec<E>,
    ))
        ensures
            !self.randomize_dtls ==> hello == (cipher_suites, extensions),
            self.randomize_dtls ==> {
                &&& is_reordered(cipher_suites@, hello.0@)
                &&& is_reordered(extensions@, hello.1@)
                &&& hello.0@.to_multiset() == cipher_suites@.to_multiset()
                &&& hello.1@.to_multiset() == extensions@.to_multiset()
            },
    {
        if self.randomize_dtls {
            randomize_client_hello(cipher_suites, extensions)
        } else {
            (cipher_suites, extensions)
        }
    }
}

/// A server that helps to find ICE candidates.
#[derive(Debug, Clone, PartialEq, Eq)]
pub struct IceServer {
    pub urls: Vec<String>,
}

/// The ICE servers of a connection: one that lists every STUN address, or none where there are no
/// addresses.
pub fn ice_servers(stun_urls: Vec<String>) -> (servers: Vec<IceServer>)
    ensures
        servers@ == (if stun_urls@.len() == 0 {
            Seq::empty()
        } else {
            seq![IceServer { urls: stun_urls }]
        }),
{
    if stun_urls.is_empty() {
        Vec::new()
    } else {
        vec![IceServer { urls: stun_urls }]
    }
}

/// How the data channel is created.
#[derive(Debug, Clone, Copy, PartialEq, Eq)]
pub struct DataChannelSettings {
    pub label: &'static str,
    pub ordered: bool,
    pub max_retransmits: Option<u16>,
}

/// An unordered channel without retransmission: ordering and recovery are left to QUIC.
pub fn unreliable_data_channel() -> (settings: DataChannelSettings)
    ensures
        settings.label@ == DATA_CHANNEL_LABEL@,
        !settings.ordered,
        settings.max_retransmits == Some(0u16),
{
    DataChannelSettings { label: DATA_CHANNEL_LABEL, ordered: false, max_retransmits: Some(0) }
}

/// The transport protocol of an ICE candidate.
#[derive(Debug, Clone, Copy, PartialEq, Eq, Structural)]
pub enum IceProtocol {
    Unspecified,
    Udp,
    Tcp,
}

impl IceProtocol {
    pub open spec fn spec_name(self) -> Seq<char> {
        match self {
            IceProtocol::Unspecified => "Unspecified"@,
            IceProtocol::Udp => "udp"@,
            IceProtocol::Tcp => "tcp"@,
        }
    }

    /// The name that the WebRTC stack knows the protocol by.
    pub fn name(self) -> (name: &'static str)
        ensures
            name@ == self.spec_name(),
    {
        match self {
            IceProtocol::Unspecified => "Unspecified",
            IceProtocol::Udp => "udp",
            IceProtocol::Tcp => "tcp",
        }
    }

    pub open spec fn spec_number(self) -> u8 {
        match self {
            IceProtocol::Unspecified => 0,
            IceProtocol::Udp => 1,
            IceProtocol::Tcp => 2,
        }
    }

    /// The number that stands for the protocol in a signaling message.
    pub fn number(self) -> (number: u8)
        ensures
            number == self.spec_number(),
    {
        match self {
            IceProtocol::Unspecified => 0,
            IceProtocol::Udp => 1,
            IceProtocol::Tcp => 2,
        }
    }

    /// The protocol that a number in a signaling message stands for. Every number but those of
    /// UDP and TCP is unspecified.
    pub open spec fn spec_from_number(number: u8) -> IceProtocol {
        if number == 1 {
            IceProtocol::Udp
        } else if number == 2 {
            IceProtocol::Tcp
        } else {
            IceProtocol::Unspecified
        }
    }

    /// The protocol that a number in a signaling message stands for.
    pub fn from_number(number: u8) -> (protocol: IceProtocol)
        ensures
            protocol == IceProtocol::spec_from_number(number),
    {
        match number {
            1 => IceProtocol::Udp,
            2 => IceProtocol::Tcp,
            _ => IceProtocol::Unspecified,
        }
    }
}

/// Reading a protocol's number gives the protocol back.
pub proof fn law_ice_protocol_number_round_trip(protocol: IceProtocol)
    ensures
        IceProtocol::spec_from_number(protocol.spec_number()) == protocol,
{
}

/// The kind of an ICE candidate.
#[derive(Debug, Clone, Copy, PartialEq, Eq, Structural)]
pub enum IceCandidateType {
    Unspecified,
    Host,
    Srflx,
    Prflx,
    Relay,
}

impl IceCandidateType {
    pub open spec fn spec_name(self) -> Seq<char> {
        match self {
            IceCandidateType::Unspecified => "Unspecified"@,
            IceCandidateType::Host => "host"@,
            IceCandidateType::Srflx => "srflx"@,
            IceCandidateType::Prflx => "prflx"@,
            IceCandidateType::Relay => "relay"@,
        }
    }

    /// The name of the kind in signaling messages and in the WebRTC stack.
    pub fn name(self) -> (name: &'static str)
        ensures
            name@ == self.spec_name(),
    {
        match self {
            IceCandidateType::Unspecified => "Unspecified",
            IceCandidateType::Host => "host",
            IceCandidateType::Srflx => "srflx",
            IceCandidateType::Prflx => "prflx",
            IceCandidateType::Relay => "relay",
        }
    }
}

/// An ICE candidate: one way to reach a peer.
#[derive(Debug, Clone, PartialEq, Eq)]
pub struct IceCandidate {
    pub foundation: String,
    pub priority: u32,
    pub address: String,
    pub protocol: IceProtocol,
    pub port: u16,
    pub typ: IceCandidateType,
    pub component: u16,
    pub related_address: String,
    pub related_port: u16,
    pub tcp_type: String,
}

/// The error of the WebRTC stack.
#[verifier::external_type_specification]
#[verifier::external_body]
pub struct ExWebRtcError(webrtc::Error);

/// The W3C candidate string that `webrtc`'s `RTCIceCandidate::to_json` gives for a candidate with
/// these fields, if it accepts the candidate. Protocol and kind are given by name.
pub uninterp spec fn w3c_candidate(
    foundation: Seq<char>,
    priority: u32,
    address: Seq<char>,
    protocol: Seq<char>,
    port: u16,
    typ: Seq<char>,
    component: u16,
    related_address: Seq<char>,
    related_port: u16,
) -> Option<Seq<char>>;

impl IceCandidate {
    /// The W3C candidate string of this candidate, if the WebRTC stack accepts it.
    pub open spec fn spec_w3c(&self) -> Option<Seq<char>> {
        w3c_candidate(
            self.foundation@,
            self.priority,
            self.address@,
            self.protocol.spec_name(),
            self.port,
            self.typ.spec_name(),
            self.component,
            self.related_address@,
            self.related_port,
        )
    }

    /// Whether the WebRTC stack can compute the candidate's priority. A candidate without a
    /// priority of its own is given one that needs a component of at most 256.
    pub open spec fn spec_has_priority(&self) -> bool {
        self.priority != 0 || self.component <= 256 || self.typ is Unspecified
    }

    /// Whether the WebRTC stack can compute the candidate's priority.
    pub fn has_priority(&self) -> (has_priority: bool)
        ensures
            has_priority == self.spec_has_priority(),
    {
        self.priority != 0 || self.component <= 256 || matches!(
            self.typ,
            IceCandidateType::Unspecified
        )
    }

    /// The W3C candidate string of this candidate, or the WebRTC stack's error if it does not
    /// accept the candidate.
    pub fn to_w3c(&self) -> (candidate: Result<String, webrtc::Error>)
        requires
            self.spec_has_priority(),
        ensures
            match candidate {
                Ok(candidate) => self.spec_w3c() == Some(candidate@),
                Err(_) => self.spec_w3c() is None,
            },
    {
        rtc_candidate_to_json(self, self.protocol.name(), self.typ.name())
    }
}

/// Calls `webrtc`'s `RTCIceCandidate::to_json` on a candidate with these fields, its protocol and
/// kind read from their names: the result is the candidate string, which depends on the fields
/// named here alone. For a candidate of a known kind whose priority is zero the call subtracts the
/// component from 256, so it must not be larger.
#[verifier::external_body]
fn rtc_candidate_to_json(candidate: &IceCandidate, protocol: &str, typ: &str) -> (json: Result<
    String,
    webrtc::Error,
>)
    requires
        candidate.priority != 0 || candidate.component <= 256 || typ@ == "Unspecified"@,
    ensures
        w3c_candidate(
            candidate.foundation@,
            candidate.priority,
            candidate.address@,
            protocol@,
            candidate.port,
            typ@,
            candidate.component,
            candidate.related_address@,
            candidate.related_port,
        ) == (match json {
            Ok(text) => Some(text@),
            Err(_) => None,
        }),
{
    let rtc = RTCIceCandidate {
        foundation: candidate.foundation.clone(),
        priority: candidate.priority,
        address: candidate.address.clone(),
        protocol: RTCIceProtocol::from(protocol),
        port: candidate.port,
        typ: RTCIceCandidateType::from(typ),
        component: candidate.component,
        related_address: candidate.related_address.clone(),
        related_port: candidate.related_port,
        tcp_type: candidate.tcp_type.clone(),
        ..Default::default()
    };
    rtc.to_json().map(|init| init.candidate)
}

/// Why a datagram could not be read or sent.
#[derive(Debug)]
pub enum WebRtcDatagramError {
    /// The peer sent text where only binary packets belong.
    TextMessage,
    /// The data channel failed.
    WebRtc(webrtc::Error),
}

/// What happened on a data channel.
#[derive(Debug, PartialEq, Eq)]
pub enum ChannelEvent {
    Packet(Vec<u8>),
    Text,
    Closed,
}

/// The datagrams that have arrived on a data channel and wait to be read.
///
/// The view is what has happened and has not been read yet, in order.
#[derive(Debug)]
pub struct WebRtcDatagrams {
    events: BoundedQueue<ChannelEvent>,
    /// How often the channel has closed while the queue had no room to say so.
    closes: u64,
}

impl View for WebRtcDatagrams {
    type V = Seq<ChannelEvent>;

    closed spec fn view(&self) -> Seq<ChannelEvent> {
        self.events@ + closed_times(self.closes as nat)
    }
}

/// What is done to the datagrams of a data channel.
#[derive(Debug, PartialEq, Eq)]
pub enum ChannelStep {
    Message { is_string: bool, data: Vec<u8> },
    Close,
    Receive,
}

/// What waits to be read after a step. A message without room is lost; a close never is.
pub open spec fn waiting_after(
    capacity: nat,
    waiting: Seq<ChannelEvent>,
    step: ChannelStep,
) -> Seq<ChannelEvent> {
    match step {
        ChannelStep::Message { is_string, data } => if waiting.len() >= capacity {
            waiting
        } else if is_string {
            waiting.push(ChannelEvent::Text)
        } else {
            waiting.push(ChannelEvent::Packet(data))
        },
        ChannelStep::Close => waiting.push(ChannelEvent::Closed),
        ChannelStep::Receive => if waiting.len() > 0 {
            waiting.drop_first()
        } else {
            waiting
        },
    }
}

/// Whether `received` is what a read gives of `event`.
pub open spec fn is_read_as(
    event: ChannelEvent,
    received: Result<Option<Vec<u8>>, WebRtcDatagramError>,
) -> bool {
    match event {
        ChannelEvent::Packet(packet) => received == Ok::<_, WebRtcDatagramError>(Some(packet)),
        ChannelEvent::Text => received matches Err(WebRtcDatagramError::TextMessage),
        ChannelEvent::Closed => received == Ok::<Option<Vec<u8>>, WebRtcDatagramError>(None),
    }
}

/// The close of a channel, `times` over.
pub open spec fn closed_times(times: nat) -> Seq<ChannelEvent> {
    Seq::new(times, |i: int| ChannelEvent::Closed)
}

impl WebRtcDatagrams {
    /// The number of events that wait at most, but for closes of the channel.
    pub closed spec fn spec_capacity(&self) -> nat {
        self.events.spec_capacity()
    }

    /// The number of closes that wait without room.
    pub open spec fn spec_waiting_closes(&self) -> nat {
        if self@.len() > self.spec_capacity() {
            (self@.len() - self.spec_capacity()) as nat
        } else {
            0
        }
    }

    /// No more waits than there is room for. Closes of the channel alone wait without room.
    pub closed spec fn wf(&self) -> bool {
        &&& self.events.wf()
        &&& self.closes > 0 ==> self.events@.len() == self.events.spec_capacity()
    }

    /// A reader with room for the default number of events.
    pub fn new() -> (datagrams: WebRtcDatagrams)
        ensures
            datagrams.wf(),
            datagrams@ == Seq::<ChannelEvent>::empty(),
            datagrams.spec_capacity() == DEFAULT_DATA_CHANNEL_QUEUE,
    {
        WebRtcDatagrams::with_capacity(DEFAULT_DATA_CHANNEL_QUEUE)
    }

    /// A reader with room for `capacity` events.
    pub fn with_capacity(capacity: usize) -> (datagrams: WebRtcDatagrams)
        requires
            capacity > 0,
        ensures
            datagrams.wf(),
            datagrams@ == Seq::<ChannelEvent>::empty(),
            datagrams.spec_capacity() == capacity,
    {
        WebRtcDatagrams { events: BoundedQueue::new(capacity), closes: 0 }
    }

    /// Takes note of a message from the peer. Without room the message is lost: congestion here is
    /// packet loss, which QUIC recovers from.
    pub fn on_message(&mut self, is_string: bool, data: Vec<u8>)
        requires
            old(self).wf(),
        ensures
            final(self).wf(),
            final(self).spec_capacity() == old(self).spec_capacity(),
            final(self)@ == waiting_after(
                old(self).spec_capacity(),
                old(self)@,
                ChannelStep::Message { is_string, data },
            ),
            final(self)@ == (if old(self)@.len() >= old(self).spec_capacity() {
                old(self)@
            } else if is_string {
                old(self)@.push(ChannelEvent::Text)
            } else {
                old(self)@.push(ChannelEvent::Packet(data))
            }),
    {
        let event = if is_string {
            ChannelEvent::Text
        } else {
            ChannelEvent::Packet(data)
        };
        let _ = self.events.try_push(event);
    }

    /// The number of closes that wait without room.
    pub fn waiting_closes(&self) -> (closes: u64)
        requires
            self.wf(),
        ensures
            closes == self.spec_waiting_closes(),
    {
        self.closes
    }

    /// Takes note that the channel has closed. This is never lost: without room it waits.
    pub fn on_close(&mut self)
        requires
            old(self).wf(),
            old(self).spec_waiting_closes() < u64::MAX,
        ensures
            final(self).wf(),
            final(self).spec_capacity() == old(self).spec_capacity(),
            final(self)@ == waiting_after(
                old(self).spec_capacity(),
                old(self)@,
                ChannelStep::Close,
            ),
            final(self)@ == old(self)@.push(ChannelEvent::Closed),
    {
        if !self.events.try_push(ChannelEvent::Closed) {
            self.closes = self.closes + 1;
        }
        assert(self@ =~= old(self)@.push(ChannelEvent::Closed));
    }

    /// Reads the next datagram. `Some(Ok(None))` is the close of the channel, and `None` says
    /// that nothing has arrived yet.
    pub fn recv_packet(&mut self) -> (received: Option<
        Result<Option<Vec<u8>>, WebRtcDatagramError>,
    >)
        requires
            old(self).wf(),
        ensures
            final(self).wf(),
            final(self).spec_capacity() == old(self).spec_capacity(),
            final(self)@ == waiting_after(
                old(self).spec_capacity(),
                old(self)@,
                ChannelStep::Receive,
            ),
            received matches Some(received) ==> is_read_as(old(self)@[0], received),
            received is None <==> old(self)@.len() == 0,
            received is None ==> final(self)@ == old(self)@,
            received is Some ==> {
                &&& final(self)@ == old(self)@.drop_first()
                &&& match old(self)@[0] {
                    ChannelEvent::Packet(packet) => received == Some(
                        Ok::<_, WebRtcDatagramError>(Some(packet)),
                    ),
                    ChannelEvent::Text => received matches Some(
                        Err(WebRtcDatagramError::TextMessage),
                    ),
                    ChannelEvent::Closed => received == Some(
                        Ok::<Option<Vec<u8>>, WebRtcDatagramError>(None),
                    ),
                }
            },
    {
        let event = self.events.pop();
        if self.closes > 0 {
            let _ = self.events.try_push(ChannelEvent::Closed);
            self.closes = self.closes - 1;
        }
        assert(event is Some ==> self@ =~= old(self)@.drop_first());
        match event {
            Some(ChannelEvent::Packet(packet)) => Some(Ok(Some(packet))),
            Some(ChannelEvent::Text) => Some(Err(WebRtcDatagramError::TextMessage)),
            Some(ChannelEvent::Closed) => Some(Ok(None)),
            None => None,
        }
    }
}

/// A read gives a datagram for a binary message with the same bytes, an error for text, and the end
/// for a close, and never one for another.
pub proof fn law_read_tells_the_event(
    event: ChannelEvent,
    received: Result<Option<Vec<u8>>, WebRtcDatagramError>,
)
    requires
        is_read_as(event, received),
    ensures
        match received {
            Ok(Some(packet)) => event == ChannelEvent::Packet(packet),
            Ok(None) => event is Closed,
            Err(error) => event is Text && error is TextMessage,
        },
{
}

/// What is left to be read after `steps`.
pub open spec fn left_after(
    capacity: nat,
    waiting: Seq<ChannelEvent>,
    steps: Seq<ChannelStep>,
) -> Seq<ChannelEvent>
    decreases steps.len(),
{
    if steps.len() == 0 {
        waiting
    } else {
        left_after(capacity, waiting_after(capacity, waiting, steps[0]), steps.drop_first())
    }
}

/// What happens on the channel during `steps` and is not lost: every close, and every message that
/// finds fewer events waiting than there is room for.
pub open spec fn noted(
    capacity: nat,
    waiting: Seq<ChannelEvent>,
    steps: Seq<ChannelStep>,
) -> Seq<ChannelEvent>
    decreases steps.len(),
{
    if steps.len() == 0 {
        Seq::empty()
    } else {
        let rest = noted(
            capacity,
            waiting_after(capacity, waiting, steps[0]),
            steps.drop_first(),
        );
        match steps[0] {
            ChannelStep::Message { is_string: false, data } if waiting.len() < capacity => seq![
                ChannelEvent::Packet(data),
            ] + rest,
            ChannelStep::Message { is_string: true, .. } if waiting.len() < capacity => seq![
                ChannelEvent::Text,
            ] + rest,
            ChannelStep::Close => seq![ChannelEvent::Closed] + rest,
            _ => rest,
        }
    }
}

/// What the reads among `steps` read, in order.
pub open spec fn read_during(
    capacity: nat,
    waiting: Seq<ChannelEvent>,
    steps: Seq<ChannelStep>,
) -> Seq<ChannelEvent>
    decreases steps.len(),
{
    if steps.len() == 0 {
        Seq::empty()
    } else {
        let rest = read_during(
            capacity,
            waiting_after(capacity, waiting, steps[0]),
            steps.drop_first(),
        );
        if steps[0] is Receive && waiting.len() > 0 {
            seq![waiting[0]] + rest
        } else {
            rest
        }
    }
}

/// What happens on a channel is read in the order in which it happened, each of it once: what waited
/// and what was not lost is what has been read and what is left. Nothing but a message without room
/// is lost.
pub proof fn law_channel_is_read_in_order(
    capacity: nat,
    waiting: Seq<ChannelEvent>,
    steps: Seq<ChannelStep>,
)
    ensures
        waiting + noted(capacity, waiting, steps) == read_during(capacity, waiting, steps)
            + left_after(capacity, waiting, steps),
    decreases steps.len(),
{
    if steps.len() > 0 {
        let next = waiting_after(capacity, waiting, steps[0]);
        let rest = steps.drop_first();
        law_channel_is_read_in_order(capacity, next, rest);
        let both = read_during(capacity, next, rest) + left_after(capacity, next, rest);
        if steps[0] is Receive {
            if waiting.len() > 0 {
                assert(waiting =~= seq![waiting[0]] + next);
                assert(waiting + noted(capacity, waiting, steps) =~= seq![waiting[0]] + (next
                    + noted(capacity, next, rest)));
                assert(read_during(capacity, waiting, steps) + left_after(
                    capacity,
                    waiting,
                    steps,
                ) =~= seq![waiting[0]] + both);
            }
        } else {
            assert(waiting + noted(capacity, waiting, steps) =~= next + noted(
                capacity,
                next,
                rest,
            ));
        }
    }
}

/// A connection carries no more datagrams exactly if it is disconnected, failed or closed.
pub proof fn law_terminal_states(state: PeerConnectionState)
    ensures
        is_terminal(state) <==> match state {
            PeerConnectionState::Disconnected
            | PeerConnectionState::Failed
            | PeerConnectionState::Closed => true,
            PeerConnectionState::Unspecified
            | PeerConnectionState::New
            | PeerConnectionState::Connecting
            | PeerConnectionState::Connected => false,
        },
{
}

/// IPv4 is always gathered on, first and once; IPv6 exactly if it is enabled, once and after it.
pub proof fn law_networks_that_are_gathered_on(enable_ipv6: bool)
    ensures
        spec_network_types(enable_ipv6)[0] == NetworkType::Udp4,
        spec_network_types(enable_ipv6).contains(NetworkType::Udp6) <==> enable_ipv6,
        spec_network_types(enable_ipv6).no_duplicates(),
{
    let types = spec_network_types(enable_ipv6);
    if enable_ipv6 {
        assert(types[1] == NetworkType::Udp6);
    }
}

/// A number stands for UDP exactly if it is 1, and for TCP exactly if it is 2.
pub proof fn law_protocol_numbers(number: u8)
    ensures
        IceProtocol::spec_from_number(number) is Udp <==> number == 1,
        IceProtocol::spec_from_number(number) is Tcp <==> number == 2,
        IceProtocol::Udp.spec_number() == 1,
        IceProtocol::Tcp.spec_number() == 2,
{
}

/// The WebRTC stack computes a priority for every candidate but one of a known kind that has none of
/// its own and whose component is above 256.
pub proof fn law_which_candidates_have_a_priority(candidate: IceCandidate)
    ensures
        !candidate.spec_has_priority() <==> candidate.priority == 0 && candidate.component > 256
            && candidate.typ !is Unspecified,
{
}

/// Reordered items stand where the order says: at each place the item that the order names there.
pub proof fn law_reordered_items_follow_the_order<T>(items: Seq<T>, order: Seq<usize>, at: int)
    requires
        is_order(order, items.len()),
        0 <= at < items.len(),
    ensures
        in_order(items, order).len() == items.len(),
        in_order(items, order)[at] == items[order[at] as int],
{
}

/// A connection is told of every STUN address, in order, by one server, or of no server where there
/// is no address.
pub proof fn law_every_stun_address_is_listed(stun_urls: Vec<String>, servers: Vec<IceServer>)
    requires
        call_ensures(ice_servers, (stun_urls,), servers),
    ensures
        stun_urls@.len() == 0 <==> servers@.len() == 0,
        stun_urls@.len() > 0 ==> servers@.len() == 1 && servers@[0].urls@ == stun_urls@,
{
}

/// A stack gathers on IPv4, and on IPv6 exactly if that is enabled, and hides its fingerprint exactly
/// if that was asked for.
pub proof fn law_stack_is_set_up_as_asked(
    enable_ipv6: bool,
    randomize_dtls: bool,
    settings: ApiSettings,
)
    requires
        call_ensures(build_api_with_options, (enable_ipv6, randomize_dtls), settings),
    ensures
        settings.network_types@.contains(NetworkType::Udp4),
        settings.network_types@.contains(NetworkType::Udp6) <==> enable_ipv6,
        settings.randomize_dtls == randomize_dtls,
{
    law_networks_that_are_gathered_on(enable_ipv6);
    assert(settings.network_types@[0] == NetworkType::Udp4);
}

} // verus!
