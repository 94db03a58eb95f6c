//! The WebSocket tunnel to the egress: its handshake and the messages it carries.
//!
//! The socket belongs to the caller, which opens the connection with the header given here and
//! reports what the other side answered and sent.
use tokio_tungstenite::tungstenite::client::IntoClientRequest;
use vstd::prelude::*;
use vstd::string::StringExecFns;

use crate::duration::Duration;
use crate::protocol;
use crate::protocol::{PROTOCOL_VERSION, SUBPROTOCOL_MAGIC_COOKIE};
use crate::text;

verus! {

/// The seconds allowed for the connection to the egress.
pub const DEFAULT_EGRESS_CONNECT_TIMEOUT_SECS: u64 = 10;

/// The time allowed for the connection to the egress.
pub fn default_egress_connect_timeout() -> (timeout: Duration)
    ensures
        timeout@ == 10_000_000_000,
{
    Duration::from_secs(DEFAULT_EGRESS_CONNECT_TIMEOUT_SECS)
}

/// Why the tunnel to the egress failed.
#[derive(Debug)]
pub enum EgressError {
    /// The configured address cannot be requested.
    Request(tokio_tungstenite::tungstenite::Error),
    /// The subprotocols do not fit into a header.
    Header(tokio_tungstenite::tungstenite::http::header::InvalidHeaderValue),
    /// The WebSocket failed.
    WebSocket(String),
    /// The connection took longer than this.
    ConnectTimeout(Duration),
    /// The egress selected no subprotocol.
    MissingSubprotocol,
    /// The egress selected this subprotocol in place of the magic cookie.
    UnexpectedSubprotocol(String),
    /// The egress sent text where only binary packets belong.
    TextMessage,
}

/// The error of the WebSocket client.
#[verifier::external_type_specification]
#[verifier::external_body]
pub struct ExWebSocketError(tokio_tungstenite::tungstenite::Error);

/// Whether `tungstenite`'s `IntoClientRequest::into_client_request` makes a request of `url`.
pub uninterp spec fn is_request_url(url: Seq<char>) -> bool;

/// Calls `tungstenite`'s `IntoClientRequest::into_client_request` on a text: whether it makes a
/// request depends on the text alone. The request itself holds a key that is drawn anew each time,
/// and is not kept.
#[verifier::external_body]
fn check_request(url: &str) -> (checked: Result<(), tokio_tungstenite::tungstenite::Error>)
    ensures
        checked is Ok <==> is_request_url(url@),
{
    url.into_client_request().map(|_| ())
}

/// The error for a text that cannot be a header's value.
#[verifier::external_type_specification]
#[verifier::external_body]
pub struct ExInvalidHeaderValue(
    tokio_tungstenite::tungstenite::http::header::InvalidHeaderValue,
);

/// Whether `c` may stand in a header's value: a tab, or anything but a control character.
pub open spec fn is_header_char(c: char) -> bool {
    c == '\t' || (c >= ' ' && c != '\u{7f}')
}

/// Whether `text` may be a header's value.
pub open spec fn is_header_value(text: Seq<char>) -> bool {
    forall|i: int| 0 <= i < text.len() ==> is_header_char(#[trigger] text[i])
}

/// Calls `http`'s `HeaderValue::from_str`: it accepts exactly the texts whose UTF-8 bytes are tabs
/// or anything from the space on but the delete character.
#[verifier::external_body]
fn check_header_value(text: &str) -> (checked: Result<
    (),
    tokio_tungstenite::tungstenite::http::header::InvalidHeaderValue,
>)
    ensures
        checked is Ok <==> is_header_value(text@),
{
    tokio_tungstenite::tungstenite::http::HeaderValue::from_str(text).map(|_| ())
}

/// A header that offers subprotocols: the magic cookie, the consumer session ID and a protocol
/// version, separated by commas and spaces.
pub open spec fn listed_subprotocols(csid: Seq<char>, version: Seq<char>) -> Seq<char> {
    SUBPROTOCOL_MAGIC_COOKIE@ + ", "@ + csid + ", "@ + version
}

/// The header that offers the subprotocols of the consumer session `csid` in this crate's protocol
/// version.
pub open spec fn subprotocol_list(csid: Seq<char>) -> Seq<char> {
    listed_subprotocols(csid, PROTOCOL_VERSION@)
}

/// The header that offers the subprotocols of the consumer session `csid`.
pub fn subprotocol_header(csid: &str) -> (header: Result<String, EgressError>)
    ensures
        match header {
            Ok(header) => is_header_value(csid@) && header@ == subprotocol_list(csid@),
            Err(error) => !is_header_value(csid@) && error is Header,
        },
{
    let values = protocol::egress_subprotocols(csid, PROTOCOL_VERSION);
    let mut header = values[0].clone();
    header.append(", ");
    header.append(values[1].as_str());
    header.append(", ");
    header.append(values[2].as_str());
    proof {
        let offered = protocol::texts(values@);
        assert(offered[0] == values@[0]@ && offered[1] == values@[1]@ && offered[2]
            == values@[2]@);
        lemma_list_is_a_header_value(csid@);
    }
    match check_header_value(header.as_str()) {
        Ok(_) => Ok(header),
        Err(error) => Err(EgressError::Header(error)),
    }
}

/// The header that a request to the egress at `url` offers the subprotocols of the consumer session
/// `csid` with. The address is looked at first, and then the session ID.
pub fn egress_request(url: &str, csid: &str) -> (header: Result<String, EgressError>)
    ensures
        match header {
            Ok(header) => is_request_url(url@) && is_header_value(csid@) && header@
                == subprotocol_list(csid@),
            Err(EgressError::Request(_)) => !is_request_url(url@),
            Err(EgressError::Header(_)) => is_request_url(url@) && !is_header_value(csid@),
            Err(_) => false,
        },
{
    match check_request(url) {
        Ok(_) => subprotocol_header(csid),
        Err(error) => Err(EgressError::Request(error)),
    }
}

/// The list of subprotocols can be a header's value exactly if the session ID can.
proof fn lemma_list_is_a_header_value(csid: Seq<char>)
    ensures
        is_header_value(subprotocol_list(csid)) <==> is_header_value(csid),
{
    reveal_strlit("un80und3d");
    reveal_strlit(", ");
    reveal_strlit("v2.3.0");
    let list = subprotocol_list(csid);
    assert forall|i: int| 0 <= i < csid.len() implies #[trigger] csid[i] == list[i + 11] by {}
    assert forall|i: int| 0 <= i < list.len() && !(11 <= i < 11 + csid.len()) implies is_header_char(
        #[trigger] list[i],
    ) by {}
    if is_header_value(list) {
        assert forall|i: int| 0 <= i < csid.len() implies is_header_char(#[trigger] csid[i]) by {
            assert(is_header_char(list[i + 11]));
        }
    }
    if is_header_value(csid) {
        assert forall|i: int| 0 <= i < list.len() implies is_header_char(#[trigger] list[i]) by {
            if 11 <= i < 11 + csid.len() {
                assert(is_header_char(csid[i - 11]));
            }
        }
    }
}

/// The subprotocol in the egress's answer to the handshake.
#[derive(Debug, PartialEq, Eq)]
pub enum SelectedSubprotocol {
    Missing,
    /// A value that is not visible ASCII text.
    NotText,
    Text(String),
}

/// How an attempt to connect to the egress came out.
#[derive(Debug, PartialEq, Eq)]
pub enum EgressHandshake {
    TimedOut,
    Failed(String),
    Completed(SelectedSubprotocol),
}

/// An open tunnel to the egress.
#[derive(Debug, PartialEq, Eq)]
pub struct EgressTunnel {
    open: (),
}

/// A WebSocket message from the egress.
#[derive(Debug, PartialEq, Eq)]
pub enum EgressMessage {
    Binary(Vec<u8>),
    Text,
    Ping,
    Pong,
    Frame,
    Close,
}

/// What a message from the egress means for the tunnel.
#[derive(Debug)]
pub enum EgressReceived {
    /// A datagram for the peer.
    Packet(Vec<u8>),
    /// The egress has closed the tunnel.
    Closed,
    /// The message concerns the WebSocket alone.
    Skipped,
    Failed(EgressError),
}

/// What the next message means: a binary message is one datagram, the end of the stream or a
/// close message ends the tunnel, text is an error, and everything else is passed over.
pub open spec fn spec_recv(next: Option<Result<EgressMessage, String>>) -> EgressReceived {
    match next {
        None => EgressReceived::Closed,
        Some(Err(error)) => EgressReceived::Failed(EgressError::WebSocket(error)),
        Some(Ok(EgressMessage::Binary(packet))) => EgressReceived::Packet(packet),
        Some(Ok(EgressMessage::Close)) => EgressReceived::Closed,
        Some(Ok(EgressMessage::Text)) => EgressReceived::Failed(EgressError::TextMessage),
        Some(Ok(EgressMessage::Ping)) | Some(Ok(EgressMessage::Pong)) | Some(
            Ok(EgressMessage::Frame),
        ) => EgressReceived::Skipped,
    }
}

impl EgressTunnel {
    /// The tunnel that a handshake opened, if it opened one: the egress must have answered in time
    /// and selected the magic cookie.
    pub fn connect(handshake: EgressHandshake, connect_timeout: Duration) -> (connected: Result<
        EgressTunnel,
        EgressError,
    >)
        ensures
            match handshake {
                EgressHandshake::TimedOut => connected == Err::<EgressTunnel, EgressError>(
                    EgressError::ConnectTimeout(connect_timeout),
                ),
                EgressHandshake::Failed(error) => connected == Err::<EgressTunnel, EgressError>(
                    EgressError::WebSocket(error),
                ),
                EgressHandshake::Completed(SelectedSubprotocol::Missing) => connected == Err::<
                    EgressTunnel,
                    EgressError,
                >(EgressError::MissingSubprotocol),
                EgressHandshake::Completed(SelectedSubprotocol::NotText) => connected matches Err(
                    EgressError::UnexpectedSubprotocol(selected),
                ) && selected@ == "non-ASCII"@,
                EgressHandshake::Completed(SelectedSubprotocol::Text(selected)) => if selected@
                    == SUBPROTOCOL_MAGIC_COOKIE@ {
                    connected is Ok
                } else {
                    connected == Err::<EgressTunnel, EgressError>(
                        EgressError::UnexpectedSubprotocol(selected),
                    )
                },
            },
    {
        match handshake {
            EgressHandshake::TimedOut => Err(EgressError::ConnectTimeout(connect_timeout)),
            EgressHandshake::Failed(error) => Err(EgressError::WebSocket(error)),
            EgressHandshake::Completed(selected) => match selected {
                SelectedSubprotocol::Missing => Err(EgressError::MissingSubprotocol),
                SelectedSubprotocol::NotText => Err(
                    EgressError::UnexpectedSubprotocol("non-ASCII".to_owned()),
                ),
                SelectedSubprotocol::Text(selected) => if selected
                    == SUBPROTOCOL_MAGIC_COOKIE.to_owned() {
                    Ok(EgressTunnel { open: () })
                } else {
                    Err(EgressError::UnexpectedSubprotocol(selected))
                },
            },
        }
    }

    /// Decides what the next message from the egress means, or the end of its stream.
    pub fn recv(&self, next: Option<Result<EgressMessage, String>>) -> (received: EgressReceived)
        ensures
            received == spec_recv(next),
    {
        match next {
            None => EgressReceived::Closed,
            Some(Err(error)) => EgressReceived::Failed(EgressError::WebSocket(error)),
            Some(Ok(message)) => match message {
                EgressMessage::Binary(packet) => EgressReceived::Packet(packet),
                EgressMessage::Close => EgressReceived::Closed,
                EgressMessage::Text => EgressReceived::Failed(EgressError::TextMessage),
                EgressMessage::Ping | EgressMessage::Pong | EgressMessage::Frame => {
                    EgressReceived::Skipped
                },
            },
        }
    }
}

/// Whether `c` is a space or a tab.
pub open spec fn is_blank_char(c: char) -> bool {
    c == ' ' || c == '\t'
}

/// The items of a comma-separated header, each without the blanks around it.
pub open spec fn header_items(text: Seq<char>) -> Seq<Seq<char>> {
    text::list_items(text, |c: char| is_blank_char(c))
}

/// A token, after one space or none, is what is left of it without blanks.
proof fn lemma_trimmed_token(token: Seq<char>)
    requires
        protocol::is_token(token),
    ensures
        text::trimmed(token, |c: char| is_blank_char(c)) == token,
        text::trimmed(seq![' '] + token, |c: char| is_blank_char(c)) == token,
{
    assert(protocol::is_token_char(token[0]) && protocol::is_token_char(token.last()));
    assert((seq![' '] + token).drop_first() =~= token);
}

/// The egress reads exactly three subprotocols out of the header, in order: the magic cookie, the
/// session ID and the protocol version as they were given. No session ID and no version that is a
/// token can add another.
pub proof fn law_header_lists_exactly_three_subprotocols(csid: Seq<char>, version: Seq<char>)
    requires
        protocol::is_token(csid),
        protocol::is_token(version),
    ensures
        header_items(listed_subprotocols(csid, version)) == protocol::subprotocols(csid, version),
{
    reveal_strlit("un80und3d");
    reveal_strlit(", ");
    let cookie = SUBPROTOCOL_MAGIC_COOKIE@;
    let header = listed_subprotocols(csid, version);
    let second = seq![' '] + csid + ", "@ + version;
    let third = seq![' '] + version;
    assert(protocol::is_token(cookie));
    lemma_trimmed_token(cookie);
    lemma_trimmed_token(csid);
    lemma_trimmed_token(version);

    assert(header.take(9) =~= cookie);
    assert(header.skip(10) =~= second);
    text::lemma_comma(header, 9);

    assert forall|i: int| 0 <= i < 1 + csid.len() implies second[i] != ',' by {
        if i > 0 {
            assert(second[i] == csid[i - 1]);
            assert(protocol::is_token_char(csid[i - 1]));
        }
    }
    text::lemma_comma(second, 1 + csid.len() as int);
    assert(second.take(1 + csid.len() as int) =~= seq![' '] + csid);
    assert(second.skip(2 + csid.len() as int) =~= third);

    assert forall|i: int| 0 <= i < third.len() implies third[i] != ',' by {
        if i > 0 {
            assert(third[i] == version[i - 1]);
            assert(protocol::is_token_char(version[i - 1]));
        }
    }
    text::lemma_comma(third, third.len() as int);
    reveal_with_fuel(text::list_items, 3);
    assert(header_items(header) =~= protocol::subprotocols(csid, version));
}

/// This crate's protocol version is a token, so that its own header lists exactly three
/// subprotocols for every session ID that is a token.
pub proof fn law_own_header_lists_exactly_three_subprotocols(csid: Seq<char>)
    requires
        protocol::is_token(csid),
    ensures
        header_items(subprotocol_list(csid)) == protocol::subprotocols(csid, PROTOCOL_VERSION@),
{
    reveal_strlit("v2.3.0");
    assert(protocol::is_token(PROTOCOL_VERSION@));
    law_header_lists_exactly_three_subprotocols(csid, PROTOCOL_VERSION@);
}

/// A session ID that is a token always fits into the header.
pub proof fn law_token_fits_the_header(csid: Seq<char>)
    requires
        protocol::is_token(csid),
    ensures
        is_header_value(csid),
{
    assert forall|i: int| 0 <= i < csid.len() implies is_header_char(#[trigger] csid[i]) by {
        assert(protocol::is_token_char(csid[i]));
    }
}

/// A tunnel means by each thing that it reports exactly what the egress sent: a datagram for a
/// binary message with the same bytes, the end for a close message or the end of the stream, and
/// an error for text or for what the WebSocket itself reports.
pub proof fn law_every_report_has_its_message(next: Option<Result<EgressMessage, String>>)
    ensures
        match spec_recv(next) {
            EgressReceived::Packet(packet) => next == Some(
                Ok::<EgressMessage, String>(EgressMessage::Binary(packet)),
            ),
            EgressReceived::Closed => next is None || (next matches Some(Ok(message)) && message
                is Close),
            EgressReceived::Skipped => next matches Some(Ok(message)) && (message is Ping || message
                is Pong || message is Frame),
            EgressReceived::Failed(EgressError::WebSocket(error)) => next == Some(
                Err::<EgressMessage, String>(error),
            ),
            EgressReceived::Failed(EgressError::TextMessage) => next matches Some(Ok(message))
                && message is Text,
            EgressReceived::Failed(_) => false,
        },
{
}

/// The datagrams that a tunnel hands to the peer while it reads `messages`.
pub open spec fn packets_read(messages: Seq<EgressMessage>) -> Seq<Seq<u8>>
    decreases messages.len(),
{
    if messages.len() == 0 {
        Seq::empty()
    } else {
        let before = packets_read(messages.drop_last());
        match spec_recv(Some(Ok(messages.last()))) {
            EgressReceived::Packet(packet) => before.push(packet@),
            _ => before,
        }
    }
}

/// The contents of the binary messages among `messages`.
pub open spec fn binary_contents(messages: Seq<EgressMessage>) -> Seq<Seq<u8>>
    decreases messages.len(),
{
    if messages.len() == 0 {
        Seq::empty()
    } else {
        let before = binary_contents(messages.drop_last());
        match messages.last() {
            EgressMessage::Binary(contents) => before.push(contents@),
            _ => before,
        }
    }
}

/// A tunnel hands on every binary message of the egress, of any length, unchanged and in order, and
/// nothing else.
pub proof fn law_every_binary_message_is_handed_on(messages: Seq<EgressMessage>)
    ensures
        packets_read(messages) == binary_contents(messages),
    decreases messages.len(),
{
    if messages.len() > 0 {
        law_every_binary_message_is_handed_on(messages.drop_last());
    }
}

/// One more character keeps a text a header's value exactly if it is the tab, or no control
/// character and not the delete character.
pub proof fn law_what_a_header_may_hold(text: Seq<char>, c: char)
    ensures
        is_header_value(Seq::empty()),
        is_header_value(text.push(c)) <==> is_header_value(text) && (c as int == 9 || (c as int >= 32
            && c as int != 127)),
{
    let more = text.push(c);
    assert(more[text.len() as int] == c);
    if is_header_value(more) {
        assert(is_header_char(more[text.len() as int]));
        assert forall|i: int| 0 <= i < text.len() implies is_header_char(#[trigger] text[i]) by {
            assert(is_header_char(more[i]));
        }
    }
    if is_header_value(text) && is_header_char(c) {
        assert forall|i: int| 0 <= i < more.len() implies is_header_char(#[trigger] more[i]) by {
            if i < text.len() {
                assert(more[i] == text[i]);
            }
        }
    }
}

/// A tunnel is open exactly if the egress answered in time and selected the magic cookie. Each way
/// to fail has its own error, which passes on what the handshake said.
pub proof fn law_only_the_cookie_opens_a_tunnel(
    handshake: EgressHandshake,
    connect_timeout: Duration,
    connected: Result<EgressTunnel, EgressError>,
)
    requires
        call_ensures(EgressTunnel::connect, (handshake, connect_timeout), connected),
    ensures
        connected is Ok <==> (handshake matches EgressHandshake::Completed(
            SelectedSubprotocol::Text(selected),
        ) && selected@ == "un80und3d"@),
        connected matches Err(error) ==> match error {
            EgressError::ConnectTimeout(timeout) => handshake is TimedOut && timeout
                == connect_timeout,
            EgressError::WebSocket(cause) => handshake == EgressHandshake::Failed(cause),
            EgressError::MissingSubprotocol => handshake == EgressHandshake::Completed(
                SelectedSubprotocol::Missing,
            ),
            EgressError::UnexpectedSubprotocol(selected) => {
                ||| handshake == EgressHandshake::Completed(SelectedSubprotocol::Text(selected))
                ||| handshake == EgressHandshake::Completed(SelectedSubprotocol::NotText)
            },
            _ => false,
        },
{
}

/// For every session ID that is a token there is a header, from which the egress reads back the magic
/// cookie, that ID and this crate's version, in this order and nothing else.
pub proof fn law_header_carries_the_session_id(csid: &str, header: Result<String, EgressError>)
    requires
        call_ensures(subprotocol_header, (csid,), header),
        protocol::is_token(csid@),
    ensures
        header matches Ok(header) && header_items(header@) == seq!["un80und3d"@, csid@, "v2.3.0"@],
{
    law_token_fits_the_header(csid@);
    law_own_header_lists_exactly_three_subprotocols(csid@);
    assert(header_items(header->Ok_0@) =~= seq!["un80und3d"@, csid@, "v2.3.0"@]);
}

/// A request is refused for its address before it is refused for its session ID, and for nothing
/// else. Otherwise it offers what the header for the session ID offers.
pub proof fn law_request_offers_the_header(
    url: &str,
    csid: &str,
    offered: Result<String, EgressError>,
    header: Result<String, EgressError>,
)
    requires
        call_ensures(egress_request, (url, csid), offered),
        call_ensures(subprotocol_header, (csid,), header),
    ensures
        !is_request_url(url@) ==> offered matches Err(EgressError::Request(_)),
        is_request_url(url@) ==> (offered is Ok <==> header is Ok),
        is_request_url(url@) && header is Ok ==> offered->Ok_0@ == header->Ok_0@,
        is_request_url(url@) && header is Err ==> offered matches Err(EgressError::Header(_)),
{
}

} // verus!
