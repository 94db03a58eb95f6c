use lantern_unbounded::base64_payload;
use lantern_unbounded::json;
use lantern_unbounded::protocol::{
    egress_subprotocols, is_subprotocol_token, parse_egress_subprotocols, Endpoint, GenesisMessage,
    PathAssertion, SignalMessage, SignalMessageType, UnboundedPacket, PROTOCOL_VERSION,
    SUBPROTOCOL_MAGIC_COOKIE, VERSION_HEADER,
};

#[test]
fn packet_matches_go_encoding_json() {
    let packet = UnboundedPacket::new("WebSocket connection test".to_owned(), vec![0, 1, 2, 255]);
    let encoded = packet.to_json();
    assert_eq!(
        encoded,
        r#"{"SourceAddr":"WebSocket connection test","Payload":"AAEC/w=="}"#
    );
    let fields: serde_json::Value = serde_json::from_str(&encoded).unwrap();
    assert_eq!(
        UnboundedPacket::from_envelope(
            fields["SourceAddr"].as_str().unwrap().to_owned(),
            fields["Payload"].as_str().unwrap(),
        )
        .unwrap(),
        packet
    );
}

#[test]
fn signal_envelope_matches_go_encoding_json() {
    let message = SignalMessage {
        reply_to: "request-42".into(),
        kind: SignalMessageType::Ice,
        payload: r#"{"ConsumerSessionID":"abc"}"#.into(),
    };
    assert_eq!(
        message.to_json(),
        r#"{"ReplyTo":"request-42","Type":3,"Payload":"{\"ConsumerSessionID\":\"abc\"}"}"#
    );
}

#[test]
fn genesis_matches_go_encoding_json() {
    let genesis = GenesisMessage {
        path_assertion: PathAssertion::all_hosts_on_request(),
    };
    assert_eq!(
        genesis.to_json(),
        r#"{"PathAssertion":{"Allow":[{"Host":"$","Distance":1}],"Deny":null,"JITUnavailable":false}}"#
    );
}

#[test]
fn path_assertion_lists_every_endpoint() {
    let assertion = PathAssertion {
        allow: Some(Vec::new()),
        deny: Some(vec![
            Endpoint { host: "a.example".into(), distance: 0 },
            Endpoint { host: "b\"\n".into(), distance: 4_294_967_295 },
        ]),
        jit_unavailable: true,
    };
    assert_eq!(
        assertion.to_json(),
        r#"{"Allow":[],"Deny":[{"Host":"a.example","Distance":0},{"Host":"b\"\n","Distance":4294967295}],"JITUnavailable":true}"#
    );
}

#[test]
fn egress_subprotocols_match_go_order() {
    let values = egress_subprotocols("session-id", PROTOCOL_VERSION);
    assert_eq!(values, ["un80und3d", "session-id", "v2.3.0"]);
    assert_eq!(
        parse_egress_subprotocols(&values),
        Some(("session-id", "v2.3.0"))
    );
}

#[test]
fn parser_preserves_current_go_cookie_behavior() {
    let values = ["anything".to_owned(), "session-id".to_owned(), "v2.3.0".to_owned()];
    assert_eq!(
        parse_egress_subprotocols(&values),
        Some(("session-id", "v2.3.0"))
    );
}

#[test]
fn parser_requires_exactly_three_values() {
    let values = vec!["a".to_owned(); 4];
    assert_eq!(parse_egress_subprotocols(&values), None);
    assert_eq!(parse_egress_subprotocols(&values[..2]), None);
    assert_eq!(parse_egress_subprotocols(&[]), None);
}

#[test]
fn subprotocol_token_accepts_ids_but_rejects_list_injection() {
    assert!(is_subprotocol_token("consumer-session-id"));
    assert!(is_subprotocol_token("a1B2/c3+d4="));
    assert!(is_subprotocol_token("550e8400-e29b-41d4-a716-446655440000"));
    assert!(!is_subprotocol_token(""));
    assert!(!is_subprotocol_token("csid, injected"));
    assert!(!is_subprotocol_token("has space"));
    assert!(!is_subprotocol_token("tab\there"));
    assert!(!is_subprotocol_token("new\nline"));
}

#[test]
fn subprotocol_token_edges() {
    assert!(is_subprotocol_token("!"));
    assert!(is_subprotocol_token("~"));
    assert!(!is_subprotocol_token(","));
    assert!(!is_subprotocol_token("\u{7f}"));
    assert!(!is_subprotocol_token("id\u{e9}"));
    assert!(!is_subprotocol_token("\u{1f600}"));
}

#[test]
fn constants_match_the_wire() {
    assert_eq!(PROTOCOL_VERSION, "v2.3.0");
    assert_eq!(SUBPROTOCOL_MAGIC_COOKIE, "un80und3d");
    assert_eq!(VERSION_HEADER, "X-BF-Version");
}

#[test]
fn signal_codes_round_trip() {
    let kinds = [
        SignalMessageType::Genesis,
        SignalMessageType::Offer,
        SignalMessageType::Answer,
        SignalMessageType::Ice,
    ];
    for (code, kind) in kinds.into_iter().enumerate() {
        assert_eq!(kind.code() as usize, code);
        assert_eq!(SignalMessageType::from_code(code as u8), Some(kind));
    }
    assert_eq!(SignalMessageType::from_code(4), None);
    assert_eq!(SignalMessageType::from_code(255), None);
}

#[test]
fn base64_payload_round_trips_and_rejects_malformed_text() {
    assert_eq!(base64_payload::serialize(b"example"), "ZXhhbXBsZQ==");
    assert_eq!(base64_payload::serialize(b""), "");
    assert_eq!(base64_payload::deserialize("ZXhhbXBsZQ==").unwrap(), b"example");
    assert!(base64_payload::deserialize("ZXhhbXBsZQ").is_err());
    assert!(base64_payload::deserialize("not base64!").is_err());
    assert!(UnboundedPacket::from_envelope("path".into(), "%").is_err());
}

#[test]
fn packet_envelope_escapes_its_source() {
    let packet = UnboundedPacket::new("a\"b\\c\u{1}".into(), b"example".to_vec());
    let encoded = packet.to_json();
    assert_eq!(
        encoded,
        "{\"SourceAddr\":\"a\\\"b\\\\c\\u0001\",\"Payload\":\"ZXhhbXBsZQ==\"}"
    );
    let fields: serde_json::Value = serde_json::from_str(&encoded).unwrap();
    assert_eq!(fields["SourceAddr"], "a\"b\\c\u{1}");
}

#[test]
fn signal_envelope_stays_on_one_line() {
    let message = SignalMessage {
        reply_to: "line\nbreak".into(),
        kind: SignalMessageType::Genesis,
        payload: "\r\n\u{0}".into(),
    };
    let encoded = message.to_json();
    assert!(!encoded.contains('\n'));
    let fields: serde_json::Value = serde_json::from_str(&encoded).unwrap();
    assert_eq!(fields["ReplyTo"], "line\nbreak");
    assert_eq!(fields["Payload"], "\r\n\u{0}");
}

#[test]
fn json_strings_and_numbers() {
    assert_eq!(json::quote(""), "\"\"");
    assert_eq!(json::quote("plain text"), "\"plain text\"");
    assert_eq!(
        json::quote("\u{8}\t\n\u{c}\r\"\\/\u{1f}\u{7f}\u{e9}"),
        "\"\\b\\t\\n\\f\\r\\\"\\\\/\\u001f\u{7f}\u{e9}\""
    );
    assert_ne!(json::quote("a\nb"), json::quote("a\\nb"));
    assert_eq!(json::number_text(0), "0");
    assert_eq!(json::number_text(1_694_498_815), "1694498815");
    assert_eq!(json::number_text(u32::MAX), "4294967295");
}

#[test]
fn envelopes_tell_their_fields_apart() {
    let one = UnboundedPacket::new("a\",\"Payload\":\"".into(), Vec::new());
    let two = UnboundedPacket::new("a".into(), Vec::new());
    assert_ne!(one.to_json(), two.to_json());
    assert_eq!(
        one.to_json(),
        r#"{"SourceAddr":"a\",\"Payload\":\"","Payload":""}"#
    );

    let message = |reply_to: &str, payload: &str| SignalMessage {
        reply_to: reply_to.into(),
        kind: SignalMessageType::Genesis,
        payload: payload.into(),
    };
    let split = "a\",\"Type\":0,\"Payload\":\"b";
    assert_ne!(message(split, "c").to_json(), message("a", "b").to_json());
}

/// Four characters for every three bytes, digit by digit.
fn base64_by_hand(bytes: &[u8]) -> String {
    let alphabet: Vec<char> = ('A'..='Z').chain('a'..='z').chain('0'..='9').chain(['+', '/']).collect();
    let mut text = String::new();
    for group in bytes.chunks(3) {
        let byte = |i: usize| group.get(i).copied().unwrap_or(0) as usize;
        let number = byte(0) * 65536 + byte(1) * 256 + byte(2);
        text.push(alphabet[number / 262144]);
        text.push(alphabet[number / 4096 % 64]);
        text.push(if group.len() > 1 { alphabet[number / 64 % 64] } else { '=' });
        text.push(if group.len() > 2 { alphabet[number % 64] } else { '=' });
    }
    text
}

#[test]
fn base64_is_written_digit_by_digit() {
    let bytes: Vec<u8> = (0..=255).chain((0..=255).rev()).collect();
    for length in 0..bytes.len() {
        let text = base64_payload::serialize(&bytes[..length]);
        assert_eq!(text, base64_by_hand(&bytes[..length]));
        assert_eq!(base64_payload::deserialize(&text).unwrap(), &bytes[..length]);
    }
    for first in 0..=255 {
        assert_eq!(base64_payload::serialize(&[first]), base64_by_hand(&[first]));
        assert_eq!(base64_payload::serialize(&[7, first]), base64_by_hand(&[7, first]));
    }
}

#[test]
fn only_canonical_base64_is_read() {
    for text in ["ZR==", "ZXh=", "Zg=", "Zg", "Zg===", "=", "====", "Zg==Zg==", "Z g=", "Zg-_", "Zg==\n"] {
        assert!(base64_payload::deserialize(text).is_err(), "{text}");
    }
    assert_eq!(base64_payload::deserialize("Zg==").unwrap(), b"f");
    assert_eq!(base64_payload::deserialize("").unwrap(), b"");
}
