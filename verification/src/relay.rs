//! The relay of opaque datagrams between a WebRTC peer and the egress.
//!
//! The transports belong to the caller. It reports every receive and every send that completed
//! as a [`RelayEvent`], and performs the [`RelayAction`] that [`relay`] answers with.
use vstd::prelude::*;

verus! {

/// The side that ended a relay in an orderly way.
#[derive(Debug, Clone, Copy, PartialEq, Eq, Structural)]
pub enum RelayEnd {
    PeerClosed,
    EgressClosed,
}

/// The side whose transport failed, and how.
#[derive(Debug, PartialEq, Eq)]
pub enum RelayError {
    Peer(String),
    Egress(String),
}

/// What one side of the relay has just done. A receive yields a datagram, or nothing once that
/// side has closed.
#[derive(Debug)]
pub enum RelayEvent {
    PeerReceived(Result<Option<Vec<u8>>, String>),
    EgressReceived(Result<Option<Vec<u8>>, String>),
    EgressSent(Result<(), String>),
    PeerSent(Result<(), String>),
}

/// What the relay does next.
#[derive(Debug, PartialEq, Eq)]
pub enum RelayAction {
    /// Wait for a datagram from either side.
    Receive,
    SendToEgress(Vec<u8>),
    SendToPeer(Vec<u8>),
    Finish(Result<RelayEnd, RelayError>),
}

/// The answer to an event: a datagram goes on unchanged to the other side, a completed send is
/// followed by the next receive, and a closed or failed side ends the relay.
pub open spec fn spec_relay(event: RelayEvent) -> RelayAction {
    match event {
        RelayEvent::PeerReceived(Ok(Some(packet))) => RelayAction::SendToEgress(packet),
        RelayEvent::EgressReceived(Ok(Some(packet))) => RelayAction::SendToPeer(packet),
        RelayEvent::PeerReceived(Ok(None)) => RelayAction::Finish(Ok(RelayEnd::PeerClosed)),
        RelayEvent::EgressReceived(Ok(None)) => RelayAction::Finish(Ok(RelayEnd::EgressClosed)),
        RelayEvent::EgressSent(Ok(_)) | RelayEvent::PeerSent(Ok(_)) => RelayAction::Receive,
        RelayEvent::PeerReceived(Err(error)) | RelayEvent::PeerSent(Err(error)) =>
            RelayAction::Finish(Err(RelayError::Peer(error))),
        RelayEvent::EgressReceived(Err(error)) | RelayEvent::EgressSent(Err(error)) =>
            RelayAction::Finish(Err(RelayError::Egress(error))),
    }
}

/// Decides what the relay does after `event`.
pub fn relay(event: RelayEvent) -> (action: RelayAction)
    ensures
        action == spec_relay(event),
{
    match event {
        RelayEvent::PeerReceived(received) => match received {
            Ok(Some(packet)) => RelayAction::SendToEgress(packet),
            Ok(None) => RelayAction::Finish(Ok(RelayEnd::PeerClosed)),
            Err(error) => RelayAction::Finish(Err(RelayError::Peer(error))),
        },
        RelayEvent::EgressReceived(received) => match received {
            Ok(Some(packet)) => RelayAction::SendToPeer(packet),
            Ok(None) => RelayAction::Finish(Ok(RelayEnd::EgressClosed)),
            Err(error) => RelayAction::Finish(Err(RelayError::Egress(error))),
        },
        RelayEvent::EgressSent(sent) => match sent {
            Ok(_) => RelayAction::Receive,
            Err(error) => RelayAction::Finish(Err(RelayError::Egress(error))),
        },
        RelayEvent::PeerSent(sent) => match sent {
            Ok(_) => RelayAction::Receive,
            Err(error) => RelayAction::Finish(Err(RelayError::Peer(error))),
        },
    }
}

/// The events that a relay takes notice of: those up to and with the first that ends it.
pub open spec fn relayed(events: Seq<RelayEvent>) -> Seq<RelayEvent>
    decreases events.len(),
{
    if events.len() == 0 {
        Seq::empty()
    } else if spec_relay(events.first()) is Finish {
        seq![events.first()]
    } else {
        seq![events.first()] + relayed(events.drop_first())
    }
}

/// The datagrams that the relay hands to the egress over a run of events.
pub open spec fn sent_to_egress(events: Seq<RelayEvent>) -> Seq<Vec<u8>>
    decreases events.len(),
{
    if events.len() == 0 {
        Seq::empty()
    } else {
        match spec_relay(events.first()) {
            RelayAction::Finish(_) => Seq::empty(),
            RelayAction::SendToEgress(packet) => seq![packet] + sent_to_egress(
                events.drop_first(),
            ),
            _ => sent_to_egress(events.drop_first()),
        }
    }
}

/// The datagrams that the relay hands to the peer over a run of events.
pub open spec fn sent_to_peer(events: Seq<RelayEvent>) -> Seq<Vec<u8>>
    decreases events.len(),
{
    if events.len() == 0 {
        Seq::empty()
    } else {
        match spec_relay(events.first()) {
            RelayAction::Finish(_) => Seq::empty(),
            RelayAction::SendToPeer(packet) => seq![packet] + sent_to_peer(events.drop_first()),
            _ => sent_to_peer(events.drop_first()),
        }
    }
}

/// The datagrams received from the peer in `events`.
pub open spec fn received_from_peer(events: Seq<RelayEvent>) -> Seq<Vec<u8>>
    decreases events.len(),
{
    if events.len() == 0 {
        Seq::empty()
    } else {
        match events.first() {
            RelayEvent::PeerReceived(Ok(Some(packet))) => seq![packet] + received_from_peer(
                events.drop_first(),
            ),
            _ => received_from_peer(events.drop_first()),
        }
    }
}

/// The datagrams received from the egress in `events`.
pub open spec fn received_from_egress(events: Seq<RelayEvent>) -> Seq<Vec<u8>>
    decreases events.len(),
{
    if events.len() == 0 {
        Seq::empty()
    } else {
        match events.first() {
            RelayEvent::EgressReceived(Ok(Some(packet))) => seq![packet] + received_from_egress(
                events.drop_first(),
            ),
            _ => received_from_egress(events.drop_first()),
        }
    }
}

/// Until it ends, a relay hands each side exactly the datagrams received from the other side,
/// unchanged and in the order in which they came.
pub proof fn law_relay_is_transparent(events: Seq<RelayEvent>)
    ensures
        sent_to_egress(events) == received_from_peer(relayed(events)),
        sent_to_peer(events) == received_from_egress(relayed(events)),
    decreases events.len(),
{
    if events.len() > 0 {
        let first = events.first();
        let rest = events.drop_first();
        law_relay_is_transparent(rest);
        assert(seq![first].drop_first() =~= Seq::<RelayEvent>::empty());
        assert((seq![first] + relayed(rest)).drop_first() =~= relayed(rest));
        assert(received_from_peer(Seq::<RelayEvent>::empty()) =~= Seq::<Vec<u8>>::empty());
        assert(received_from_egress(Seq::<RelayEvent>::empty()) =~= Seq::<Vec<u8>>::empty());
        reveal_with_fuel(received_from_peer, 2);
        reveal_with_fuel(received_from_egress, 2);
    }
}

/// A relay does each thing for one reason only: it sends on what it received and nothing else, waits
/// after a send that completed, and ends with the side that closed or failed, and with that side's
/// own error.
pub proof fn law_every_relay_action_has_its_cause(event: RelayEvent)
    ensures
        match spec_relay(event) {
            RelayAction::SendToEgress(packet) => event == RelayEvent::PeerReceived(Ok(Some(packet))),
            RelayAction::SendToPeer(packet) => event == RelayEvent::EgressReceived(Ok(Some(packet))),
            RelayAction::Receive => {
                ||| event matches RelayEvent::EgressSent(sent) && sent is Ok
                ||| event matches RelayEvent::PeerSent(sent) && sent is Ok
            },
            RelayAction::Finish(Ok(RelayEnd::PeerClosed)) => event == RelayEvent::PeerReceived(
                Ok(None),
            ),
            RelayAction::Finish(Ok(RelayEnd::EgressClosed)) => event == RelayEvent::EgressReceived(
                Ok(None),
            ),
            RelayAction::Finish(Err(RelayError::Peer(error))) => event == RelayEvent::PeerReceived(
                Err(error),
            ) || event == RelayEvent::PeerSent(Err(error)),
            RelayAction::Finish(Err(RelayError::Egress(error))) => event
                == RelayEvent::EgressReceived(Err(error)) || event == RelayEvent::EgressSent(
                Err(error),
            ),
        },
{
}

/// Whether a side has closed or failed by `event`.
pub open spec fn is_end(event: RelayEvent) -> bool {
    match event {
        RelayEvent::PeerReceived(received) => received is Err || received->Ok_0 is None,
        RelayEvent::EgressReceived(received) => received is Err || received->Ok_0 is None,
        RelayEvent::EgressSent(sent) => sent is Err,
        RelayEvent::PeerSent(sent) => sent is Err,
    }
}

/// As long as neither side has closed or failed, a relay goes on: each side has then been handed all
/// that was received from the other.
pub proof fn law_relay_goes_on_until_an_end(events: Seq<RelayEvent>)
    requires
        forall|i: int| 0 <= i < events.len() ==> !is_end(#[trigger] events[i]),
    ensures
        sent_to_egress(events) == received_from_peer(events),
        sent_to_peer(events) == received_from_egress(events),
    decreases events.len(),
{
    if events.len() > 0 {
        let rest = events.drop_first();
        assert(!is_end(events[0]));
        assert forall|i: int| 0 <= i < rest.len() implies !is_end(#[trigger] rest[i]) by {
            assert(rest[i] == events[i + 1]);
        }
        law_relay_goes_on_until_an_end(rest);
    }
}

} // verus!
