//! What a peer proxy notices of its consumer's WebRTC connection while a session runs.
//!
//! [`PeerWatch`] turns changes of the connection's state into reports, and [`DataChannelWait`]
//! decides what ends the wait for the data channel.
use vstd::prelude::*;

use crate::addr;
use crate::addr::{IpAddress, SocketAddress};
use crate::rtc;
use crate::rtc::PeerConnectionState;
use crate::supervisor::SupervisorEvent;

verus! {

/// Whether a connection in this state has lost a peer that had connected.
pub fn is_disconnect_state(state: PeerConnectionState) -> (disconnected: bool)
    ensures
        disconnected == rtc::is_terminal(state),
{
    rtc::is_terminal_peer_state(state)
}

/// The remote candidate of the selected pair: its address, where that is an IP address and no
/// host name, and its port.
#[derive(Debug, Clone, Copy, PartialEq, Eq, Structural)]
pub struct RemoteCandidate {
    pub address: Option<IpAddress>,
    pub port: u16,
}

/// The address that a candidate is reached at, if it has an IP address.
pub open spec fn candidate_address(candidate: RemoteCandidate) -> Option<SocketAddress> {
    match candidate.address {
        Some(ip) => Some(addr::socket_address(ip, candidate.port)),
        None => None,
    }
}

/// The address that a candidate is reached at. There is none where the candidate has a host name.
pub fn socket_addr_from_candidate(candidate: &RemoteCandidate) -> (address: Option<SocketAddress>)
    ensures
        address == candidate_address(*candidate),
{
    match candidate.address {
        Some(ip) => Some(SocketAddress::new(ip, candidate.port)),
        None => None,
    }
}

/// The report that a session's consumer has connected.
pub open spec fn connected_event(
    session_id: String,
    selected: Option<RemoteCandidate>,
) -> SupervisorEvent {
    SupervisorEvent::PeerConnected {
        session_id,
        remote: match selected {
            Some(candidate) => candidate_address(candidate),
            None => None,
        },
    }
}

/// The report that a session's consumer has connected, with its address where the selected
/// candidate pair tells it.
pub fn peer_connected_event(session_id: String, selected: Option<RemoteCandidate>) -> (event:
    SupervisorEvent)
    ensures
        event == connected_event(session_id, selected),
{
    let remote = match selected {
        Some(candidate) => socket_addr_from_candidate(&candidate),
        None => None,
    };
    SupervisorEvent::PeerConnected { session_id, remote }
}

/// The report that a session's consumer is gone.
pub fn peer_disconnected_event(session_id: String) -> (event: SupervisorEvent)
    ensures
        event == (SupervisorEvent::PeerDisconnected { session_id }),
{
    SupervisorEvent::PeerDisconnected { session_id }
}

/// What is reported about the consumer of one session.
#[derive(Debug, PartialEq, Eq)]
pub struct PeerWatch {
    /// The consumer's session ID, once it is known.
    pub session_id: Option<String>,
    /// The consumer has been reported as connected.
    pub connected: bool,
    /// The consumer has been reported as gone.
    pub disconnected: bool,
}

/// What happens to a connection while it is watched.
#[derive(Debug)]
pub enum WatchInput {
    /// The session ID has become known.
    Published(String),
    /// The connection has changed its state, with the remote candidate that is selected then.
    State(PeerConnectionState, Option<RemoteCandidate>),
}

impl PeerWatch {
    /// The watch after an input. Until the session ID is known, changes of state leave no trace.
    pub open spec fn spec_next(self, input: WatchInput) -> PeerWatch {
        match input {
            WatchInput::Published(session_id) => PeerWatch { session_id: Some(session_id), ..self },
            WatchInput::State(state, _) => if self.session_id is None {
                self
            } else if state is Connected {
                PeerWatch { connected: true, ..self }
            } else if rtc::is_terminal(state) && self.connected {
                PeerWatch { disconnected: true, ..self }
            } else {
                self
            },
        }
    }

    /// What is reported on an input: a connected consumer, and the first loss of a consumer that
    /// had connected.
    pub open spec fn spec_report(self, input: WatchInput) -> Option<SupervisorEvent> {
        match (self.session_id, input) {
            (Some(session_id), WatchInput::State(state, selected)) => if state is Connected {
                Some(connected_event(session_id, selected))
            } else if rtc::is_terminal(state) && self.connected && !self.disconnected {
                Some(SupervisorEvent::PeerDisconnected { session_id })
            } else {
                None
            },
            _ => None,
        }
    }

    /// A watch over a connection whose consumer is not known yet.
    pub fn new() -> (watch: PeerWatch)
        ensures
            watch == (PeerWatch { session_id: None, connected: false, disconnected: false }),
    {
        PeerWatch { session_id: None, connected: false, disconnected: false }
    }

    /// Takes note of the consumer's session ID.
    pub fn publish(&mut self, session_id: String)
        ensures
            *final(self) == old(self).spec_next(WatchInput::Published(session_id)),
    {
        self.session_id = Some(session_id);
    }

    /// Takes note of a change of the connection's state, and says what is to be reported.
    pub fn on_state(
        &mut self,
        state: PeerConnectionState,
        selected: Option<RemoteCandidate>,
    ) -> (event: Option<SupervisorEvent>)
        ensures
            *final(self) == old(self).spec_next(WatchInput::State(state, selected)),
            event == old(self).spec_report(WatchInput::State(state, selected)),
    {
        let session_id = match &self.session_id {
            Some(session_id) => session_id.clone(),
            None => return None,
        };
        if matches!(state, PeerConnectionState::Connected) {
            self.connected = true;
            Some(peer_connected_event(session_id, selected))
        } else if is_disconnect_state(state) && self.connected {
            let first = !self.disconnected;
            self.disconnected = true;
            if first {
                Some(peer_disconnected_event(session_id))
            } else {
                None
            }
        } else {
            None
        }
    }
}

/// The wait for the data channel, which ends once: with the channel, or with the loss of the
/// connection.
#[derive(Debug, Clone, Copy, PartialEq, Eq, Structural)]
pub struct DataChannelWait {
    pub waiting: bool,
}

/// What can end the wait for the data channel.
#[derive(Debug, Clone, Copy, PartialEq, Eq, Structural)]
pub enum WaitInput {
    ChannelOpened,
    State(PeerConnectionState),
}

/// Whether an input ends a wait that is on.
pub open spec fn ends_wait(input: WaitInput) -> bool {
    match input {
        WaitInput::ChannelOpened => true,
        WaitInput::State(state) => rtc::is_terminal(state),
    }
}

impl DataChannelWait {
    /// The wait after an input.
    pub open spec fn spec_next(self, input: WaitInput) -> DataChannelWait {
        DataChannelWait { waiting: self.waiting && !ends_wait(input) }
    }

    /// A wait that has just begun.
    pub fn new() -> (wait: DataChannelWait)
        ensures
            wait.waiting,
    {
        DataChannelWait { waiting: true }
    }

    /// Ends the wait because the channel has opened. Says whether the wait was still on.
    pub fn channel_opened(&mut self) -> (ended: bool)
        ensures
            ended == old(self).waiting,
            *final(self) == old(self).spec_next(WaitInput::ChannelOpened),
    {
        let ended = self.waiting;
        self.waiting = false;
        ended
    }
}

/// The state that a wait is said to have ended in when the connection comes to `state`, if it ends
/// by that.
pub open spec fn ended_in(wait: DataChannelWait, state: PeerConnectionState) -> Option<
    PeerConnectionState,
> {
    if wait.waiting && ends_wait(WaitInput::State(state)) {
        Some(state)
    } else {
        None
    }
}

/// Ends the wait for the data channel if the connection cannot come up any more, and says in which
/// state it ended. Nothing is said if the wait was over before.
pub fn fail_data_channel_wait(state: PeerConnectionState, wait: &mut DataChannelWait) -> (ended:
    Option<PeerConnectionState>)
    ensures
        ended == ended_in(*old(wait), state),
        ended == (if rtc::is_terminal(state) && old(wait).waiting {
            Some(state)
        } else {
            None
        }),
        *final(wait) == old(wait).spec_next(WaitInput::State(state)),
{
    if rtc::is_terminal_peer_state(state) && wait.waiting {
        wait.waiting = false;
        Some(state)
    } else {
        None
    }
}

/// Everything that is reported about a connection.
pub open spec fn reports(watch: PeerWatch, inputs: Seq<WatchInput>) -> Seq<SupervisorEvent>
    decreases inputs.len(),
{
    if inputs.len() == 0 {
        Seq::empty()
    } else {
        let rest = reports(watch.spec_next(inputs[0]), inputs.drop_first());
        match watch.spec_report(inputs[0]) {
            Some(event) => seq![event] + rest,
            None => rest,
        }
    }
}

/// How many of `events` say that the consumer is gone.
pub open spec fn disconnects(events: Seq<SupervisorEvent>) -> nat
    decreases events.len(),
{
    if events.len() == 0 {
        0
    } else {
        disconnects(events.drop_first()) + if events[0] is PeerDisconnected {
            1nat
        } else {
            0nat
        }
    }
}

/// A consumer is reported as gone at most once, and never again once that has been reported.
pub proof fn law_disconnect_is_reported_at_most_once(watch: PeerWatch, inputs: Seq<WatchInput>)
    ensures
        disconnects(reports(watch, inputs)) <= 1,
        watch.disconnected ==> disconnects(reports(watch, inputs)) == 0,
    decreases inputs.len(),
{
    if inputs.len() > 0 {
        let rest = reports(watch.spec_next(inputs[0]), inputs.drop_first());
        law_disconnect_is_reported_at_most_once(watch.spec_next(inputs[0]), inputs.drop_first());
        if let Some(event) = watch.spec_report(inputs[0]) {
            assert((seq![event] + rest).drop_first() =~= rest);
        }
    }
}

/// A consumer that never connected is never reported as gone: before the first such report there
/// is one that it connected.
pub proof fn law_disconnect_follows_connect(watch: PeerWatch, inputs: Seq<WatchInput>, at: int)
    requires
        !watch.connected,
        0 <= at < reports(watch, inputs).len(),
        reports(watch, inputs)[at] is PeerDisconnected,
    ensures
        exists|i: int| 0 <= i < at && #[trigger] reports(watch, inputs)[i] is PeerConnected,
    decreases inputs.len(),
{
    let next = watch.spec_next(inputs[0]);
    let rest = reports(next, inputs.drop_first());
    match watch.spec_report(inputs[0]) {
        Some(event) => {
            assert(event is PeerConnected);
            assert(reports(watch, inputs)[0] == event);
        },
        None => {
            law_disconnect_follows_connect(next, inputs.drop_first(), at);
            let i = choose|i: int| 0 <= i < at && #[trigger] rest[i] is PeerConnected;
            assert(reports(watch, inputs)[i] is PeerConnected);
        },
    }
}

/// The session ID that a report names, if it is about a consumer.
pub open spec fn reported_session_id(event: SupervisorEvent) -> Option<String> {
    match event {
        SupervisorEvent::PeerConnected { session_id, .. } => Some(session_id),
        SupervisorEvent::PeerDisconnected { session_id } => Some(session_id),
        _ => None,
    }
}

/// Nothing is reported before the session ID is known, and every report names a session ID that
/// was published.
pub proof fn law_reports_name_a_published_session(
    watch: PeerWatch,
    inputs: Seq<WatchInput>,
    at: int,
)
    requires
        watch.session_id is None,
        0 <= at < reports(watch, inputs).len(),
    ensures
        exists|i: int|
            0 <= i < inputs.len() && (#[trigger] inputs[i] matches WatchInput::Published(session_id)
                && reported_session_id(reports(watch, inputs)[at]) == Some(session_id)),
{
    lemma_reports_name_a_known_session(watch, inputs, at);
}

proof fn lemma_reports_name_a_known_session(watch: PeerWatch, inputs: Seq<WatchInput>, at: int)
    requires
        0 <= at < reports(watch, inputs).len(),
    ensures
        reported_session_id(reports(watch, inputs)[at]) is Some,
        reported_session_id(reports(watch, inputs)[at]) == watch.session_id || exists|i: int|
            0 <= i < inputs.len() && (#[trigger] inputs[i] matches WatchInput::Published(session_id)
                && reported_session_id(reports(watch, inputs)[at]) == Some(session_id)),
    decreases inputs.len(),
{
    let next = watch.spec_next(inputs[0]);
    let rest = reports(next, inputs.drop_first());
    let report = watch.spec_report(inputs[0]);
    if report is Some && at == 0 {
        assert(reports(watch, inputs)[0] == report->0);
    } else {
        let later = if report is Some {
            at - 1
        } else {
            at
        };
        assert(reports(watch, inputs)[at] == rest[later]);
        lemma_reports_name_a_known_session(next, inputs.drop_first(), later);
        let name = reported_session_id(rest[later]);
        if name == next.session_id {
            if inputs[0] is Published {
                assert(inputs[0] matches WatchInput::Published(session_id) && name == Some(
                    session_id,
                ));
            }
        } else {
            let i = choose|i: int|
                0 <= i < inputs.drop_first().len() && (#[trigger] inputs.drop_first()[i] matches
                    WatchInput::Published(session_id) && name == Some(session_id));
            assert(inputs[i + 1] == inputs.drop_first()[i]);
        }
    }
}

/// A consumer that connected once its session ID was known, and was then lost, is reported as gone
/// exactly once.
pub proof fn law_lost_consumer_is_reported(
    watch: PeerWatch,
    inputs: Seq<WatchInput>,
    published: int,
    connected: int,
    lost: int,
)
    requires
        !watch.disconnected,
        watch.session_id is Some || (0 <= published < connected && inputs[published] is Published),
        0 <= connected < lost < inputs.len(),
        inputs[connected] matches WatchInput::State(state, _) && state is Connected,
        inputs[lost] matches WatchInput::State(state, _) && rtc::is_terminal(state),
    ensures
        disconnects(reports(watch, inputs)) == 1,
{
    law_disconnect_is_reported_at_most_once(watch, inputs);
    lemma_lost_consumer_is_reported(watch, inputs, published, connected, lost);
}

proof fn lemma_lost_consumer_is_reported(
    watch: PeerWatch,
    inputs: Seq<WatchInput>,
    published: int,
    connected: int,
    lost: int,
)
    requires
        !watch.disconnected,
        watch.session_id is Some || (0 <= published < connected && inputs[published] is Published),
        (watch.session_id is Some && watch.connected) || (0 <= connected < lost && (
        inputs[connected] matches WatchInput::State(state, _) && state is Connected)),
        0 <= lost < inputs.len(),
        inputs[lost] matches WatchInput::State(state, _) && rtc::is_terminal(state),
    ensures
        disconnects(reports(watch, inputs)) >= 1,
    decreases inputs.len(),
{
    let next = watch.spec_next(inputs[0]);
    let rest = reports(next, inputs.drop_first());
    let report = watch.spec_report(inputs[0]);
    if let Some(event) = report {
        assert((seq![event] + rest).drop_first() =~= rest);
    }
    if !(report matches Some(event) && event is PeerDisconnected) {
        assert(lost > 0);
        lemma_lost_consumer_is_reported(
            next,
            inputs.drop_first(),
            published - 1,
            connected - 1,
            lost - 1,
        );
    }
}

/// How many of `inputs` end the wait.
pub open spec fn wait_ends(wait: DataChannelWait, inputs: Seq<WaitInput>) -> nat
    decreases inputs.len(),
{
    if inputs.len() == 0 {
        0
    } else {
        wait_ends(wait.spec_next(inputs[0]), inputs.drop_first()) + if wait.waiting && ends_wait(
            inputs[0],
        ) {
            1nat
        } else {
            0nat
        }
    }
}

/// A wait that is on ends exactly once if anything ends it: what comes first decides, and nothing
/// that comes later counts.
pub proof fn law_wait_ends_once(wait: DataChannelWait, inputs: Seq<WaitInput>)
    ensures
        wait_ends(wait, inputs) == (if wait.waiting && exists|i: int|
            0 <= i < inputs.len() && ends_wait(#[trigger] inputs[i]) {
            1nat
        } else {
            0nat
        }),
    decreases inputs.len(),
{
    if inputs.len() > 0 {
        let rest = inputs.drop_first();
        law_wait_ends_once(wait.spec_next(inputs[0]), rest);
        if exists|i: int| 0 <= i < inputs.len() && ends_wait(#[trigger] inputs[i]) {
            let i = choose|i: int| 0 <= i < inputs.len() && ends_wait(#[trigger] inputs[i]);
            if i > 0 {
                assert(ends_wait(rest[i - 1]));
            }
        }
        if exists|i: int| 0 <= i < rest.len() && ends_wait(#[trigger] rest[i]) {
            let i = choose|i: int| 0 <= i < rest.len() && ends_wait(#[trigger] rest[i]);
            assert(ends_wait(inputs[i + 1]));
        }
    }
}

/// A consumer whose session ID is known is reported as connected each time that its connection comes
/// up, with the address of the selected candidate where that is an IP address, and no other report
/// says so. Only a connection that is disconnected, failed or closed is reported as gone.
pub proof fn law_reports_tell_the_state(
    watch: PeerWatch,
    state: PeerConnectionState,
    selected: Option<RemoteCandidate>,
)
    ensures
        ({
            let report = watch.spec_report(WatchInput::State(state, selected));
            let remote = match selected {
                Some(RemoteCandidate { address: Some(IpAddress::V4(ip)), port }) => Some(
                    SocketAddress::V4 { ip, port },
                ),
                Some(RemoteCandidate { address: Some(IpAddress::V6(ip)), port }) => Some(
                    SocketAddress::V6 { ip, port, flowinfo: 0, scope_id: 0 },
                ),
                _ => None,
            };
            &&& watch.session_id is None ==> report is None
            &&& watch.session_id matches Some(session_id) ==> match state {
                PeerConnectionState::Connected => report == Some(
                    SupervisorEvent::PeerConnected { session_id, remote },
                ),
                PeerConnectionState::Disconnected
                | PeerConnectionState::Failed
                | PeerConnectionState::Closed => if watch.connected && !watch.disconnected {
                    report == Some(SupervisorEvent::PeerDisconnected { session_id })
                } else {
                    report is None
                },
                _ => report is None,
            }
        }),
{
}

/// How many of `events` say that the consumer has connected.
pub open spec fn connects(events: Seq<SupervisorEvent>) -> nat
    decreases events.len(),
{
    if events.len() == 0 {
        0
    } else {
        connects(events.drop_first()) + if events[0] is PeerConnected {
            1nat
        } else {
            0nat
        }
    }
}

/// How often a connection comes up once the session ID is known, which it is at first if `known`.
pub open spec fn times_up(known: bool, inputs: Seq<WatchInput>) -> nat
    decreases inputs.len(),
{
    if inputs.len() == 0 {
        0
    } else {
        match inputs[0] {
            WatchInput::Published(_) => times_up(true, inputs.drop_first()),
            WatchInput::State(state, _) => times_up(known, inputs.drop_first()) + if known && state
                is Connected {
                1nat
            } else {
                0nat
            },
        }
    }
}

/// Whatever happens to a connection, its consumer is reported as connected exactly as often as the
/// connection comes up once the session ID is known.
pub proof fn law_every_connection_is_reported(watch: PeerWatch, inputs: Seq<WatchInput>)
    ensures
        connects(reports(watch, inputs)) == times_up(watch.session_id is Some, inputs),
    decreases inputs.len(),
{
    if inputs.len() > 0 {
        let next = watch.spec_next(inputs[0]);
        let rest = reports(next, inputs.drop_first());
        law_every_connection_is_reported(next, inputs.drop_first());
        if let Some(event) = watch.spec_report(inputs[0]) {
            assert((seq![event] + rest).drop_first() =~= rest);
        }
    }
}

/// The wait for the data channel is ended by the channel, and by a connection that is disconnected,
/// failed or closed, and by nothing else.
pub proof fn law_what_ends_the_wait(input: WaitInput)
    ensures
        ends_wait(input) <==> match input {
            WaitInput::ChannelOpened => true,
            WaitInput::State(state) => match state {
                PeerConnectionState::Disconnected
                | PeerConnectionState::Failed
                | PeerConnectionState::Closed => true,
                PeerConnectionState::Unspecified
                | PeerConnectionState::New
                | PeerConnectionState::Connecting
                | PeerConnectionState::Connected => false,
            },
        },
{
}

/// A watch remembers the session ID that was published last, and from the time that it is known
/// whether the consumer has ever connected, and whether it was ever lost after that. It forgets
/// nothing.
pub proof fn law_watch_forgets_nothing(watch: PeerWatch, input: WatchInput)
    ensures
        ({
            let next = watch.spec_next(input);
            match input {
                WatchInput::Published(session_id) => {
                    &&& next.session_id == Some(session_id)
                    &&& next.connected == watch.connected
                    &&& next.disconnected == watch.disconnected
                },
                WatchInput::State(state, _) => {
                    let known = watch.session_id is Some;
                    &&& next.session_id == watch.session_id
                    &&& next.connected <==> watch.connected || known && state is Connected
                    &&& next.disconnected <==> watch.disconnected || known && watch.connected && (
                    state is Disconnected || state is Failed || state is Closed)
                },
            }
        }),
{
}

/// A wait that ends with the connection is said to have ended in the very state that the connection
/// came to, which is disconnected, failed or closed, and nothing is said of a wait that is over.
pub proof fn law_wait_tells_how_it_ended(wait: DataChannelWait, state: PeerConnectionState)
    ensures
        ended_in(wait, state) is Some <==> wait.waiting && (state is Disconnected || state is Failed
            || state is Closed),
        ended_in(wait, state) matches Some(ended) ==> ended == state && !wait.spec_next(
            WaitInput::State(state),
        ).waiting,
        ended_in(wait, state) is None ==> wait.spec_next(WaitInput::State(state)) == wait,
{
}

} // verus!
