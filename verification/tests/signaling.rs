use lantern_unbounded::duration::Duration;
use lantern_unbounded::protocol::{
    GenesisMessage, PathAssertion, SignalMessage, SignalMessageType, PROTOCOL_VERSION,
};
use lantern_unbounded::signaling::{
    default_connect_timeout, exchange_reply, AdvertisementStream, FreddieClient, SignalingError,
};

fn decode(body: &[u8]) -> SignalMessage {
    let fields: serde_json::Value = serde_json::from_slice(body).unwrap();
    SignalMessage {
        reply_to: fields["ReplyTo"].as_str().unwrap().to_owned(),
        kind: SignalMessageType::from_code(fields["Type"].as_u64().unwrap() as u8).unwrap(),
        payload: fields["Payload"].as_str().unwrap().to_owned(),
    }
}

fn client() -> FreddieClient {
    FreddieClient::new("http://127.0.0.1:9000/v1/signal").unwrap()
}

fn open_stream() -> AdvertisementStream {
    client().advertisements(200).unwrap()
}

#[test]
fn posts_the_go_form_and_decodes_the_reply() {
    let body = "{\"ReplyTo\":\"offer-request\",\"Type\":1,\"Payload\":\"{\\\"SDP\\\":{}}\"}\n";
    let client = client();
    let genesis = GenesisMessage {
        path_assertion: PathAssertion::all_hosts_on_request(),
    };
    let request = client.exchange("genesis", SignalMessageType::Genesis, &genesis.to_json());
    assert!(client.exchange_status(200).is_ok());
    let reply = decode(&exchange_reply(body.as_bytes().to_vec()).unwrap());

    assert_eq!(reply.kind, SignalMessageType::Offer);
    assert_eq!(reply.reply_to, "offer-request");
    assert_eq!(request.endpoint, "http://127.0.0.1:9000/v1/signal");
    assert_eq!(request.version, PROTOCOL_VERSION);
    let form: Vec<(&str, &str)> = request
        .fields
        .iter()
        .map(|field| (field.name, field.value.as_str()))
        .collect();
    assert_eq!(
        form,
        [
            (
                "data",
                r#"{"PathAssertion":{"Allow":[{"Host":"$","Distance":1}],"Deny":null,"JITUnavailable":false}}"#
            ),
            ("send-to", "genesis"),
            ("type", "0"),
        ]
    );
}

#[test]
fn form_carries_every_message_type() {
    let client = client();
    let kinds = [
        (SignalMessageType::Genesis, "0"),
        (SignalMessageType::Offer, "1"),
        (SignalMessageType::Answer, "2"),
        (SignalMessageType::Ice, "3"),
    ];
    for (kind, digit) in kinds {
        let request = client.exchange("request", kind, "{}");
        assert_eq!(request.fields[2].value, digit);
    }
}

#[test]
fn maps_freddie_status_codes() {
    let error = client().exchange_status(418).unwrap_err();
    assert!(matches!(error, SignalingError::ProtocolVersion(_)));

    let error = client().exchange_status(404).unwrap_err();
    assert!(matches!(error, SignalingError::RecipientGone));
}

#[test]
fn maps_other_status_codes() {
    assert!(matches!(client().exchange_status(500), Err(SignalingError::Http(500))));
    assert!(matches!(client().exchange_status(204), Err(SignalingError::Http(204))));
    assert!(matches!(client().advertisements(404), Err(SignalingError::Http(404))));
    let custom = FreddieClient::with_client("http://127.0.0.1/", "v9".to_owned()).unwrap();
    assert!(matches!(
        custom.advertisements(418),
        Err(SignalingError::ProtocolVersion(version)) if version == "v9"
    ));
}

#[test]
fn endpoint_is_normalized_and_must_be_a_url() {
    let client = FreddieClient::new("HTTP://Example.COM/v1/signal").unwrap();
    assert_eq!(client.endpoint(), "http://example.com/v1/signal");
    assert_eq!(client.version(), "v2.3.0");
    assert!(matches!(
        FreddieClient::new("no url"),
        Err(SignalingError::InvalidEndpoint(_))
    ));
}

#[test]
fn empty_success_body_is_a_timeout_without_a_reply() {
    assert!(client().exchange_status(200).is_ok());
    assert!(exchange_reply(b"\n".to_vec()).is_none());
}

#[test]
fn only_ascii_whitespace_is_blank() {
    assert!(exchange_reply(Vec::new()).is_none());
    assert!(exchange_reply(b" \t\n\x0c\r".to_vec()).is_none());
    assert_eq!(exchange_reply(b"\x0b".to_vec()), Some(b"\x0b".to_vec()));
    assert_eq!(exchange_reply(b" {} ".to_vec()), Some(b" {} ".to_vec()));
}

#[test]
fn reads_newline_delimited_genesis_advertisements() {
    let mut stream = open_stream();
    stream.chunk(
        concat(&[
            "{\"ReplyTo\":\"one\",\"Type\":0,\"Payload\":\"{}\"}\n",
            "{\"ReplyTo\":\"two\",\"Type\":0,\"Payload\":\"{}\"}\n",
        ])
        .as_bytes(),
    );
    assert_eq!(decode(&stream.next().unwrap()).reply_to, "one");
    assert_eq!(decode(&stream.next().unwrap()).reply_to, "two");
    assert!(stream.next().is_none());
    assert!(stream.finish().is_none());
}

fn concat(parts: &[&str]) -> String {
    parts.concat()
}

fn read_all(chunks: &[&[u8]]) -> Vec<Vec<u8>> {
    let mut stream = open_stream();
    let mut lines = Vec::new();
    for chunk in chunks {
        while let Some(line) = stream.next() {
            lines.push(line);
        }
        stream.chunk(chunk);
    }
    while let Some(line) = stream.next() {
        lines.push(line);
    }
    lines.extend(stream.finish());
    lines
}

#[test]
fn chunks_do_not_change_the_messages() {
    let body: &[u8] = b"one\n\n  \ntwo\nthree";
    let expected = vec![b"one".to_vec(), b"two".to_vec(), b"three".to_vec()];
    assert_eq!(read_all(&[body]), expected);
    for cut in 0..body.len() {
        assert_eq!(read_all(&[&body[..cut], &body[cut..]]), expected);
    }
    let bytes: Vec<&[u8]> = body.chunks(1).collect();
    assert_eq!(read_all(&bytes), expected);
}

#[test]
fn last_message_needs_no_line_feed() {
    assert_eq!(read_all(&[b"one"]), vec![b"one".to_vec()]);
    assert_eq!(read_all(&[b"one\n \t"]), vec![b"one".to_vec()]);
    assert_eq!(read_all(&[]), Vec::<Vec<u8>>::new());
}

#[test]
fn connect_timeout_is_ten_seconds() {
    assert_eq!(default_connect_timeout(), Duration::from_secs(10));
}
