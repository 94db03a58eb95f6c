use lantern_unbounded::duration::Duration;
use lantern_unbounded::egress::{
    default_egress_connect_timeout, egress_request, subprotocol_header, EgressError,
    EgressHandshake, EgressMessage, EgressReceived, EgressTunnel, SelectedSubprotocol,
};
use lantern_unbounded::protocol::egress_subprotocols;

fn connected(selected: &str) -> Result<EgressTunnel, EgressError> {
    EgressTunnel::connect(
        EgressHandshake::Completed(SelectedSubprotocol::Text(selected.to_owned())),
        default_egress_connect_timeout(),
    )
}

#[test]
fn sends_csid_subprotocols_and_relays_binary_packets() {
    assert_eq!(
        subprotocol_header("consumer-session-id").unwrap(),
        "un80und3d, consumer-session-id, v2.3.0"
    );
    let tunnel = connected("un80und3d").unwrap();

    let echoed = EgressMessage::Binary(b"opaque QUIC packet".to_vec());
    assert!(matches!(
        tunnel.recv(Some(Ok(echoed))),
        EgressReceived::Packet(packet) if packet == b"opaque QUIC packet"
    ));
    assert!(matches!(
        tunnel.recv(Some(Ok(EgressMessage::Close))),
        EgressReceived::Closed
    ));
}

#[test]
fn times_out_a_stalled_egress_handshake() {
    let timeout = Duration::from_millis(20);
    let error = EgressTunnel::connect(EgressHandshake::TimedOut, timeout).unwrap_err();
    assert!(matches!(error, EgressError::ConnectTimeout(value) if value == timeout));
}

#[test]
fn only_the_magic_cookie_opens_the_tunnel() {
    let timeout = default_egress_connect_timeout();
    assert_eq!(timeout, Duration::from_secs(10));
    assert!(matches!(
        EgressTunnel::connect(EgressHandshake::Completed(SelectedSubprotocol::Missing), timeout),
        Err(EgressError::MissingSubprotocol)
    ));
    assert!(matches!(
        EgressTunnel::connect(EgressHandshake::Completed(SelectedSubprotocol::NotText), timeout),
        Err(EgressError::UnexpectedSubprotocol(selected)) if selected == "non-ASCII"
    ));
    assert!(matches!(
        connected("v2.3.0"),
        Err(EgressError::UnexpectedSubprotocol(selected)) if selected == "v2.3.0"
    ));
    assert!(matches!(
        EgressTunnel::connect(EgressHandshake::Failed("refused".to_owned()), timeout),
        Err(EgressError::WebSocket(error)) if error == "refused"
    ));
}

#[test]
fn header_takes_what_http_takes() {
    assert!(matches!(subprotocol_header("new\nline"), Err(EgressError::Header(_))));
    assert!(matches!(subprotocol_header("\u{7f}"), Err(EgressError::Header(_))));
    assert!(matches!(subprotocol_header("\u{1f}"), Err(EgressError::Header(_))));
    assert_eq!(subprotocol_header("tab\there").unwrap(), "un80und3d, tab\there, v2.3.0");
    assert_eq!(subprotocol_header("\u{e9}").unwrap(), "un80und3d, \u{e9}, v2.3.0");
    assert_eq!(subprotocol_header("").unwrap(), "un80und3d, , v2.3.0");
}

#[test]
fn header_of_a_token_has_three_items() {
    let header = subprotocol_header("a1B2/c3+d4=").unwrap();
    let items: Vec<&str> = header.split(',').map(str::trim).collect();
    assert_eq!(items, ["un80und3d", "a1B2/c3+d4=", "v2.3.0"]);

    let header = egress_subprotocols("a1B2/c3+d4=", "v3-beta").join(", ");
    let items: Vec<&str> = header.split(',').map(str::trim).collect();
    assert_eq!(items, ["un80und3d", "a1B2/c3+d4=", "v3-beta"]);
}

#[test]
fn control_messages_are_passed_over_and_text_is_an_error() {
    let tunnel = connected("un80und3d").unwrap();
    for message in [EgressMessage::Ping, EgressMessage::Pong, EgressMessage::Frame] {
        assert!(matches!(tunnel.recv(Some(Ok(message))), EgressReceived::Skipped));
    }
    assert!(matches!(
        tunnel.recv(Some(Ok(EgressMessage::Text))),
        EgressReceived::Failed(EgressError::TextMessage)
    ));
    assert!(matches!(
        tunnel.recv(Some(Err("reset".to_owned()))),
        EgressReceived::Failed(EgressError::WebSocket(error)) if error == "reset"
    ));
    assert!(matches!(tunnel.recv(None), EgressReceived::Closed));
}

#[test]
fn address_is_judged_before_the_session_id() {
    assert_eq!(
        egress_request("ws://127.0.0.1:1/ws", "consumer-session-id").unwrap(),
        "un80und3d, consumer-session-id, v2.3.0"
    );
    assert!(egress_request("wss://egress.example.org/ws", "id").is_ok());
    assert!(matches!(
        egress_request("ws://127.0.0.1:1/ws", "new\nline"),
        Err(EgressError::Header(_))
    ));
    for url in ["", "not a url", "/ws", "ws://"] {
        assert!(matches!(egress_request(url, "id"), Err(EgressError::Request(_))));
        assert!(matches!(egress_request(url, "new\nline"), Err(EgressError::Request(_))));
    }
}
