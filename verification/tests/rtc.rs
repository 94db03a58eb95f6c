use lantern_unbounded::relay::{relay, RelayAction, RelayEnd, RelayError, RelayEvent};
use lantern_unbounded::queue::BoundedQueue;
use lantern_unbounded::rtc::{
    build_api, build_api_with_ipv6, build_api_with_options, ice_servers, randomize_client_hello,
    reorder, unreliable_data_channel, IceCandidate, IceCandidateType, IceProtocol, NetworkType,
    WebRtcDatagramError, WebRtcDatagrams, DATA_CHANNEL_LABEL,
};

#[test]
fn relays_opaque_packets_in_both_directions() {
    let action = relay(RelayEvent::PeerReceived(Ok(Some(b"consumer to egress".to_vec()))));
    assert_eq!(action, RelayAction::SendToEgress(b"consumer to egress".to_vec()));
    assert_eq!(relay(RelayEvent::EgressSent(Ok(()))), RelayAction::Receive);

    let action = relay(RelayEvent::EgressReceived(Ok(Some(b"egress to consumer".to_vec()))));
    assert_eq!(action, RelayAction::SendToPeer(b"egress to consumer".to_vec()));
    assert_eq!(relay(RelayEvent::PeerSent(Ok(()))), RelayAction::Receive);

    assert_eq!(
        relay(RelayEvent::PeerReceived(Ok(None))),
        RelayAction::Finish(Ok(RelayEnd::PeerClosed))
    );
}

#[test]
fn relay_names_the_side_that_ended_or_failed() {
    assert_eq!(
        relay(RelayEvent::EgressReceived(Ok(None))),
        RelayAction::Finish(Ok(RelayEnd::EgressClosed))
    );
    let peer = || RelayAction::Finish(Err(RelayError::Peer("reset".into())));
    let egress = || RelayAction::Finish(Err(RelayError::Egress("reset".into())));
    assert_eq!(relay(RelayEvent::PeerReceived(Err("reset".into()))), peer());
    assert_eq!(relay(RelayEvent::PeerSent(Err("reset".into()))), peer());
    assert_eq!(relay(RelayEvent::EgressReceived(Err("reset".into()))), egress());
    assert_eq!(relay(RelayEvent::EgressSent(Err("reset".into()))), egress());
}

#[test]
fn covert_dtls_can_be_disabled_for_diagnostics() {
    let settings = build_api_with_options(false, false);
    assert!(!settings.randomize_dtls);
    assert_eq!(settings.network_types, [NetworkType::Udp4]);
}

#[test]
fn api_hides_the_fingerprint_unless_told_otherwise() {
    assert!(build_api().randomize_dtls);
    assert_eq!(build_api().network_types, [NetworkType::Udp4, NetworkType::Udp6]);
    assert!(build_api_with_ipv6(false).randomize_dtls);
    assert_eq!(build_api_with_ipv6(false).network_types, [NetworkType::Udp4]);
    assert_eq!(
        build_api_with_ipv6(true).network_types,
        [NetworkType::Udp4, NetworkType::Udp6]
    );
}

#[test]
fn client_hello_is_reordered_and_complete() {
    let offered: Vec<u16> = (0..200).collect();
    let (mut suites, mut extensions) = randomize_client_hello(offered.clone(), offered.clone());
    assert_ne!(suites, offered);
    assert_ne!(extensions, offered);
    assert_ne!(suites, extensions);
    suites.sort();
    extensions.sort();
    assert_eq!(suites, offered);
    assert_eq!(extensions, offered);
}

#[test]
fn client_hello_is_reordered_only_where_asked_for() {
    let offered: Vec<u16> = (0..200).collect();
    let plain = build_api_with_options(false, false);
    assert_eq!(
        plain.client_hello(offered.clone(), vec!["a", "b"]),
        (offered.clone(), vec!["a", "b"])
    );
    let covert = build_api_with_options(false, true);
    let (mut suites, extensions) = covert.client_hello(offered.clone(), vec!["a"]);
    assert_ne!(suites, offered);
    suites.sort();
    assert_eq!(suites, offered);
    assert_eq!(extensions, ["a"]);
}

#[test]
fn items_follow_a_drawn_order() {
    let items = vec!["a".to_owned(), "b".to_owned(), "c".to_owned()];
    assert_eq!(reorder(items.clone(), &vec![2, 0, 1]), ["c", "a", "b"]);
    assert_eq!(reorder(items.clone(), &vec![0, 1, 2]), items);
    assert!(reorder(Vec::<u8>::new(), &Vec::new()).is_empty());
}

#[test]
fn unreliable_unordered_channel_relays_binary_datagrams() {
    let settings = unreliable_data_channel();
    assert_eq!(settings.label, DATA_CHANNEL_LABEL);
    assert_eq!(settings.label, "data");
    assert!(!settings.ordered);
    assert_eq!(settings.max_retransmits, Some(0));

    let mut answer_datagrams = WebRtcDatagrams::new();
    answer_datagrams.on_message(false, b"consumer packet".to_vec());
    assert_eq!(
        answer_datagrams.recv_packet().unwrap().unwrap(),
        Some(b"consumer packet".to_vec())
    );
    let mut offer_datagrams = WebRtcDatagrams::new();
    offer_datagrams.on_message(false, b"egress packet".to_vec());
    assert_eq!(
        offer_datagrams.recv_packet().unwrap().unwrap(),
        Some(b"egress packet".to_vec())
    );
    assert!(offer_datagrams.recv_packet().is_none());
}

#[test]
fn full_queue_loses_datagrams_but_not_the_close() {
    let mut datagrams = WebRtcDatagrams::with_capacity(1);
    datagrams.on_message(false, b"one".to_vec());
    datagrams.on_message(false, b"two".to_vec());
    datagrams.on_close();
    datagrams.on_message(false, b"three".to_vec());
    assert_eq!(datagrams.recv_packet().unwrap().unwrap(), Some(b"one".to_vec()));
    assert_eq!(datagrams.recv_packet().unwrap().unwrap(), None);
    assert!(datagrams.recv_packet().is_none());
}

#[test]
fn every_close_waits_for_room() {
    let mut datagrams = WebRtcDatagrams::with_capacity(1);
    datagrams.on_message(false, b"one".to_vec());
    datagrams.on_close();
    datagrams.on_close();
    assert_eq!(datagrams.waiting_closes(), 2);
    assert_eq!(datagrams.recv_packet().unwrap().unwrap(), Some(b"one".to_vec()));
    assert_eq!(datagrams.waiting_closes(), 1);
    datagrams.on_message(false, b"two".to_vec());
    assert_eq!(datagrams.recv_packet().unwrap().unwrap(), None);
    assert_eq!(datagrams.waiting_closes(), 0);
    assert_eq!(datagrams.recv_packet().unwrap().unwrap(), None);
    assert!(datagrams.recv_packet().is_none());
}

#[test]
fn text_on_the_packet_path_is_an_error() {
    let mut datagrams = WebRtcDatagrams::with_capacity(8);
    datagrams.on_message(true, b"text".to_vec());
    datagrams.on_close();
    assert!(matches!(
        datagrams.recv_packet(),
        Some(Err(WebRtcDatagramError::TextMessage))
    ));
    assert_eq!(datagrams.recv_packet().unwrap().unwrap(), None);
}

#[test]
fn stun_addresses_make_one_ice_server() {
    assert!(ice_servers(Vec::new()).is_empty());
    let urls = vec!["stun:a:3478".to_owned(), "stun:b:3478".to_owned()];
    let servers = ice_servers(urls.clone());
    assert_eq!(servers.len(), 1);
    assert_eq!(servers[0].urls, urls);
}

#[test]
fn candidate_string_is_the_w3c_form() {
    let candidate = IceCandidate {
        foundation: "1234".into(),
        priority: 1_694_498_815,
        address: "203.0.113.8".into(),
        protocol: IceProtocol::Udp,
        port: 54_321,
        typ: IceCandidateType::Srflx,
        component: 1,
        related_address: "192.168.1.20".into(),
        related_port: 60_000,
        tcp_type: String::new(),
    };
    assert!(candidate.has_priority());
    assert_eq!(
        candidate.to_w3c().unwrap(),
        "candidate:1234 1 udp 1694498815 203.0.113.8 54321 typ srflx raddr 192.168.1.20 rport 60000"
    );
}

#[test]
fn queue_is_first_in_first_out_and_bounded() {
    let mut queue = BoundedQueue::new(2);
    assert!(queue.try_push(1));
    assert!(queue.try_push(2));
    assert!(queue.is_full());
    assert!(!queue.try_push(3));
    assert_eq!(queue.pop(), Some(1));
    assert!(queue.try_push(4));
    assert_eq!(queue.pop(), Some(2));
    assert_eq!(queue.pop(), Some(4));
    assert_eq!(queue.pop(), None);
}
