//! The signaling service's HTTP interface: requests, replies and the advertisement stream.
//!
//! The HTTP connection belongs to the caller, which sends the requests described here and hands
//! back status codes and body bytes.
use vstd::prelude::*;

use crate::duration::Duration;
use crate::json;
use crate::protocol::{SignalMessageType, PROTOCOL_VERSION};

verus! {

/// The seconds allowed for a connection to the signaling service.
pub const DEFAULT_CONNECT_TIMEOUT_SECS: u64 = 10;

/// The time allowed for a connection to the signaling service.
pub fn default_connect_timeout() -> (timeout: Duration)
    ensures
        timeout@ == 10_000_000_000,
{
    Duration::from_secs(DEFAULT_CONNECT_TIMEOUT_SECS)
}

/// Why an exchange with the signaling service failed.
#[derive(Debug)]
pub enum SignalingError {
    /// The configured endpoint is no URL.
    InvalidEndpoint(url::ParseError),
    /// The HTTP client failed.
    NativeTransport(String),
    /// Another signaling transport failed.
    Transport(String),
    /// The service rejected this protocol version.
    ProtocolVersion(String),
    /// The request that the message answers has expired.
    RecipientGone,
    /// The service answered with this status code.
    Http(u16),
    /// The service answered with something other than a signaling message.
    Decode(String),
}

/// The error of the URL parser.
#[verifier::external_type_specification]
#[verifier::external_body]
pub struct ExUrlParseError(url::ParseError);

/// The serialization of the absolute URL that `url::Url::parse` reads from `text`, if it reads one.
pub uninterp spec fn url_text(text: Seq<char>) -> Option<Seq<char>>;

/// Calls `url::Url::parse`: it succeeds exactly on the texts that hold an absolute URL, and the
/// result is the serialization of that URL.
#[verifier::external_body]
fn parse_url(text: &str) -> (url: Result<String, url::ParseError>)
    ensures
        url_text(text@) == (match url {
            Ok(url) => Some(url@),
            Err(_) => None,
        }),
{
    url::Url::parse(text).map(String::from)
}

/// One field of a form.
#[derive(Debug, PartialEq, Eq)]
pub struct FormField {
    pub name: &'static str,
    pub value: String,
}

/// A signaling message on its way to the service: a form posted to `endpoint`, with the protocol
/// version in a header.
#[derive(Debug, PartialEq, Eq)]
pub struct ExchangeRequest {
    pub endpoint: String,
    pub version: String,
    pub fields: Vec<FormField>,
}

/// The service's endpoint and the protocol version that requests announce.
#[derive(Debug, Clone)]
pub struct FreddieClient {
    endpoint: String,
    version: String,
}

impl FreddieClient {
    /// The serialized URL that requests go to.
    pub closed spec fn spec_endpoint(&self) -> Seq<char> {
        self.endpoint@
    }

    /// The protocol version that requests announce.
    pub closed spec fn spec_version(&self) -> Seq<char> {
        self.version@
    }

    /// A client for the service at `endpoint` that speaks this crate's protocol version.
    pub fn new(endpoint: &str) -> (client: Result<FreddieClient, SignalingError>)
        ensures
            match client {
                Ok(client) => url_text(endpoint@) == Some(client.spec_endpoint())
                    && client.spec_version() == PROTOCOL_VERSION@,
                Err(error) => url_text(endpoint@) is None && error is InvalidEndpoint,
            },
    {
        FreddieClient::with_client(endpoint, PROTOCOL_VERSION.to_owned())
    }

    /// A client for the service at `endpoint` that announces `version`.
    pub fn with_client(endpoint: &str, version: String) -> (client: Result<
        FreddieClient,
        SignalingError,
    >)
        ensures
            match client {
                Ok(client) => url_text(endpoint@) == Some(client.spec_endpoint())
                    && client.spec_version() == version@,
                Err(error) => url_text(endpoint@) is None && error is InvalidEndpoint,
            },
    {
        match parse_url(endpoint) {
            Ok(endpoint) => Ok(FreddieClient { endpoint, version }),
            Err(error) => Err(SignalingError::InvalidEndpoint(error)),
        }
    }

    /// The serialized URL that requests go to.
    pub fn endpoint(&self) -> (endpoint: &str)
        ensures
            endpoint@ == self.spec_endpoint(),
    {
        self.endpoint.as_str()
    }

    /// The protocol version that requests announce.
    pub fn version(&self) -> (version: &str)
        ensures
            version@ == self.spec_version(),
    {
        self.version.as_str()
    }

    /// The request that sends `payload` to the request `send_to` as a message of the given kind.
    pub fn exchange(&self, send_to: &str, kind: SignalMessageType, payload: &str) -> (request:
        ExchangeRequest)
        ensures
            request.endpoint@ == self.spec_endpoint(),
            request.version@ == self.spec_version(),
            request.fields@.len() == 3,
            request.fields@[0].name@ == "data"@ && request.fields@[0].value@ == payload@,
            request.fields@[1].name@ == "send-to"@ && request.fields@[1].value@ == send_to@,
            request.fields@[2].name@ == "type"@ && request.fields@[2].value@ == json::decimal(
                kind.spec_code() as nat,
            ),
    {
        ExchangeRequest {
            endpoint: self.endpoint.clone(),
            version: self.version.clone(),
            fields: vec![
                FormField { name: "data", value: payload.to_owned() },
                FormField { name: "send-to", value: send_to.to_owned() },
                FormField { name: "type", value: json::number_text(kind.code() as u32) },
            ],
        }
    }

    /// What the status of an exchange's response means: 200 goes on to the body, 418 rejects the
    /// protocol version, 404 says that the recipient is gone, and anything else is an error.
    pub fn exchange_status(&self, status: u16) -> (accepted: Result<(), SignalingError>)
        ensures
            status == 200 ==> accepted is Ok,
            status == 418 ==> (accepted matches Err(SignalingError::ProtocolVersion(version))
                && version@ == self.spec_version()),
            status == 404 ==> accepted matches Err(SignalingError::RecipientGone),
            status != 200 && status != 418 && status != 404 ==> accepted == Err::<
                (),
                SignalingError,
            >(SignalingError::Http(status)),
    {
        match status {
            200 => Ok(()),
            418 => Err(SignalingError::ProtocolVersion(self.version.clone())),
            404 => Err(SignalingError::RecipientGone),
            status => Err(SignalingError::Http(status)),
        }
    }

    /// What the status of an advertisement stream's response means: 200 opens the stream, 418
    /// rejects the protocol version, and anything else is an error.
    pub fn advertisements(&self, status: u16) -> (stream: Result<
        AdvertisementStream,
        SignalingError,
    >)
        ensures
            status == 200 ==> (stream matches Ok(stream) && stream@ == Seq::<u8>::empty()),
            status == 418 ==> (stream matches Err(SignalingError::ProtocolVersion(version))
                && version@ == self.spec_version()),
            status != 200 && status != 418 ==> stream == Err::<
                AdvertisementStream,
                SignalingError,
            >(SignalingError::Http(status)),
    {
        match status {
            200 => Ok(AdvertisementStream { buffered: Vec::new() }),
            418 => Err(SignalingError::ProtocolVersion(self.version.clone())),
            status => Err(SignalingError::Http(status)),
        }
    }
}

/// Whether `byte` is a space, tab, line feed, form feed or carriage return.
pub open spec fn is_whitespace(byte: u8) -> bool {
    byte == 0x20 || byte == 0x09 || byte == 0x0a || byte == 0x0c || byte == 0x0d
}

/// Whether `bytes` holds nothing but whitespace.
pub open spec fn is_blank(bytes: Seq<u8>) -> bool {
    forall|i: int| 0 <= i < bytes.len() ==> is_whitespace(#[trigger] bytes[i])
}

/// Whether `bytes` holds nothing but whitespace.
fn blank(bytes: &[u8]) -> (is_blank: bool)
    ensures
        is_blank == self::is_blank(bytes@),
{
    let mut i: usize = 0;
    while i < bytes.len()
        invariant
            i <= bytes@.len(),
            forall|j: int| 0 <= j < i ==> is_whitespace(#[trigger] bytes@[j]),
        decreases bytes@.len() - i,
    {
        let byte: u8 = bytes[i];
        if !(byte == 0x20 || byte == 0x09 || byte == 0x0a || byte == 0x0c || byte == 0x0d) {
            assert(!is_whitespace(bytes@[i as int]));
            return false;
        }
        i = i + 1;
    }
    true
}

/// The signaling message in the body of an accepted exchange, still encoded. A blank body means
/// that no peer replied in time.
pub fn exchange_reply(body: Vec<u8>) -> (reply: Option<Vec<u8>>)
    ensures
        reply == (if is_blank(body@) {
            None
        } else {
            Some(body)
        }),
{
    if blank(body.as_slice()) {
        None
    } else {
        Some(body)
    }
}

/// How many bytes stand before the first line feed, or in all of `bytes` if there is none.
pub open spec fn line_length(bytes: Seq<u8>) -> nat
    decreases bytes.len(),
{
    if bytes.len() == 0 || bytes[0] == 0x0a {
        0
    } else {
        1 + line_length(bytes.drop_first())
    }
}

/// The first complete line that is not blank, without its line feed, and the bytes after it. If
/// there is none, the bytes after the last line feed.
pub open spec fn next_line(bytes: Seq<u8>) -> (Option<Seq<u8>>, Seq<u8>)
    decreases bytes.len(),
{
    let length = line_length(bytes);
    if length >= bytes.len() {
        (None, bytes)
    } else if is_blank(bytes.take(length as int)) {
        next_line(bytes.skip(length as int + 1))
    } else {
        (Some(bytes.take(length as int)), bytes.skip(length as int + 1))
    }
}

/// A stream of newline-delimited signaling messages.
///
/// The view is the bytes that have arrived and have not been read.
#[derive(Debug)]
pub struct AdvertisementStream {
    buffered: Vec<u8>,
}

impl View for AdvertisementStream {
    type V = Seq<u8>;

    closed spec fn view(&self) -> Seq<u8> {
        self.buffered@
    }
}

impl AdvertisementStream {
    /// Takes the next complete message out of what has arrived, still encoded. Blank lines are
    /// passed over. If no message is complete, more of the body is needed.
    pub fn next(&mut self) -> (line: Option<Vec<u8>>)
        ensures
            next_line(old(self)@) == (
                match line {
                    Some(line) => Some(line@),
                    None => None,
                },
                final(self)@,
            ),
    {
        loop
            invariant
                next_line(self@) == next_line(old(self)@),
            decreases self@.len(),
        {
            let ghost before = self.buffered@;
            let mut newline: usize = 0;
            while newline < self.buffered.len() && self.buffered[newline] != 0x0a
                invariant
                    self.buffered@ == before,
                    newline <= before.len(),
                    forall|j: int| 0 <= j < newline ==> before[j] != 0x0a,
                decreases before.len() - newline,
            {
                newline = newline + 1;
            }
            proof {
                lemma_line_length(before, newline as int);
            }
            if newline >= self.buffered.len() {
                return None;
            }
            let rest = self.buffered.split_off(newline + 1);
            let mut line = Vec::new();
            std::mem::swap(&mut line, &mut self.buffered);
            self.buffered = rest;
            line.pop();
            assert(line@ =~= before.take(newline as int));
            assert(self.buffered@ =~= before.skip(newline + 1));
            if !blank(line.as_slice()) {
                return Some(line);
            }
        }
    }

    /// Adds a chunk of the body to what has arrived.
    pub fn chunk(&mut self, chunk: &[u8])
        ensures
            final(self)@ == old(self)@ + chunk@,
    {
        self.buffered.extend_from_slice(chunk);
        assert(self.buffered@ =~= old(self)@ + chunk@);
    }

    /// Whether the end of the body, with these bytes not read, gives `line` as the last message and
    /// leaves `after` unread.
    pub open spec fn spec_finish(
        unread: Seq<u8>,
        line: Option<Vec<u8>>,
        after: Seq<u8>,
    ) -> bool {
        match line {
            Some(line) => !is_blank(unread) && line@ == unread && after.len() == 0,
            None => is_blank(unread) && after == unread,
        }
    }

    /// Takes the last message at the end of the body, which needs no line feed, still encoded.
    /// There is none if nothing but whitespace is left.
    pub fn finish(&mut self) -> (line: Option<Vec<u8>>)
        ensures
            AdvertisementStream::spec_finish(old(self)@, line, final(self)@),
            match line {
                Some(line) => !is_blank(old(self)@) && line@ == old(self)@ && final(self)@
                    == Seq::<u8>::empty(),
                None => is_blank(old(self)@) && final(self)@ == old(self)@,
            },
    {
        if blank(self.buffered.as_slice()) {
            None
        } else {
            let mut line = Vec::new();
            std::mem::swap(&mut line, &mut self.buffered);
            Some(line)
        }
    }
}

/// A position is the end of the first line if no line feed stands before it and either a line
/// feed or the end of the bytes stands at it.
proof fn lemma_line_length(bytes: Seq<u8>, end: int)
    requires
        0 <= end <= bytes.len(),
        forall|j: int| 0 <= j < end ==> bytes[j] != 0x0a,
        end < bytes.len() ==> bytes[end] == 0x0a,
    ensures
        line_length(bytes) == end,
    decreases bytes.len(),
{
    if end > 0 {
        lemma_line_length(bytes.drop_first(), end - 1);
    }
}

/// What follows a line is shorter than the bytes that the line was found in.
pub proof fn lemma_next_line_shrinks(bytes: Seq<u8>)
    ensures
        next_line(bytes).0 is Some ==> next_line(bytes).1.len() < bytes.len(),
        next_line(bytes).1.len() <= bytes.len(),
    decreases bytes.len(),
{
    let length = line_length(bytes);
    if length < bytes.len() && is_blank(bytes.take(length as int)) {
        lemma_next_line_shrinks(bytes.skip(length as int + 1));
    }
}

/// The messages in a whole body: its lines that are not blank. The last needs no line feed.
pub open spec fn messages(body: Seq<u8>) -> Seq<Seq<u8>>
    decreases body.len(),
{
    proof {
        lemma_next_line_shrinks(body);
    }
    match next_line(body) {
        (Some(line), rest) => seq![line] + messages(rest),
        (None, rest) => if is_blank(rest) {
            Seq::empty()
        } else {
            seq![rest]
        },
    }
}

/// The messages that a stream hands out, still encoded, when `buffered` has arrived and `chunks`
/// are what is left of the body.
pub open spec fn stream_messages(buffered: Seq<u8>, chunks: Seq<Seq<u8>>) -> Seq<Seq<u8>>
    decreases chunks.len(), buffered.len(),
{
    proof {
        lemma_next_line_shrinks(buffered);
    }
    match next_line(buffered) {
        (Some(line), rest) => seq![line] + stream_messages(rest, chunks),
        (None, rest) => if chunks.len() > 0 {
            stream_messages(rest + chunks[0], chunks.drop_first())
        } else if is_blank(rest) {
            Seq::empty()
        } else {
            seq![rest]
        },
    }
}

/// What has arrived later does not change the lines that were complete before.
proof fn lemma_next_line_of_concatenation(start: Seq<u8>, end: Seq<u8>)
    ensures
        next_line(start).0 is Some ==> next_line(start + end) == (
            next_line(start).0,
            next_line(start).1 + end,
        ),
        next_line(start).0 is None ==> next_line(start + end) == next_line(
            next_line(start).1 + end,
        ),
    decreases start.len(),
{
    let length = line_length(start);
    if length < start.len() {
        lemma_line_length_is_a_line(start);
        lemma_line_length(start + end, length as int);
        assert((start + end).take(length as int) =~= start.take(length as int));
        assert((start + end).skip(length as int + 1) =~= start.skip(length as int + 1) + end);
        if is_blank(start.take(length as int)) {
            lemma_next_line_of_concatenation(start.skip(length as int + 1), end);
        }
    }
}

/// The first line ends at its length.
proof fn lemma_line_length_is_a_line(bytes: Seq<u8>)
    ensures
        line_length(bytes) <= bytes.len(),
        forall|j: int| 0 <= j < line_length(bytes) ==> bytes[j] != 0x0a,
        line_length(bytes) < bytes.len() ==> bytes[line_length(bytes) as int] == 0x0a,
    decreases bytes.len(),
{
    if bytes.len() > 0 && bytes[0] != 0x0a {
        lemma_line_length_is_a_line(bytes.drop_first());
        assert forall|j: int| 0 <= j < line_length(bytes) implies bytes[j] != 0x0a by {
            if j > 0 {
                assert(bytes.drop_first()[j - 1] == bytes[j]);
            }
        }
    }
}

/// However the body is cut into chunks, the stream hands out the same messages: those of the
/// whole body.
pub proof fn law_chunks_do_not_matter(buffered: Seq<u8>, chunks: Seq<Seq<u8>>)
    ensures
        stream_messages(buffered, chunks) == messages(buffered + chunks.flatten()),
    decreases chunks.len(), buffered.len(),
{
    lemma_next_line_shrinks(buffered);
    lemma_next_line_of_concatenation(buffered, chunks.flatten());
    match next_line(buffered) {
        (Some(line), rest) => {
            law_chunks_do_not_matter(rest, chunks);
        },
        (None, rest) => {
            if chunks.len() > 0 {
                law_chunks_do_not_matter(rest + chunks[0], chunks.drop_first());
                assert(rest + chunks[0] + chunks.drop_first().flatten() =~= rest
                    + chunks.flatten());
            } else {
                assert(chunks.flatten() =~= Seq::empty());
                assert(buffered + chunks.flatten() =~= buffered);
            }
        },
    }
}

/// The body in which each of `lines` is followed by a line feed.
pub open spec fn framed(lines: Seq<Seq<u8>>) -> Seq<u8>
    decreases lines.len(),
{
    if lines.len() == 0 {
        Seq::empty()
    } else {
        lines[0].push(0x0a) + framed(lines.drop_first())
    }
}

/// A body of lines gives back exactly those lines as messages, in order, if each of them has a
/// byte that is not whitespace and none has a line feed.
pub proof fn law_framed_lines_are_read_back(lines: Seq<Seq<u8>>)
    requires
        forall|i: int|
            0 <= i < lines.len() ==> !is_blank(#[trigger] lines[i]) && !lines[i].contains(0x0a),
    ensures
        messages(framed(lines)) == lines,
    decreases lines.len(),
{
    let body = framed(lines);
    if lines.len() > 0 {
        let line = lines[0];
        assert(body.take(line.len() as int) =~= line);
        assert(body.skip(line.len() as int + 1) =~= framed(lines.drop_first()));
        assert forall|j: int| 0 <= j < line.len() implies body[j] != 0x0a by {
            assert(body[j] == line[j]);
        }
        lemma_line_length(body, line.len() as int);
        law_framed_lines_are_read_back(lines.drop_first());
        assert(seq![line] + lines.drop_first() =~= lines);
    }
}

/// Whether `line` has a byte that is no space, tab, line feed, form feed or carriage return.
pub open spec fn has_text(line: Seq<u8>) -> bool {
    exists|i: int|
        0 <= i < line.len() && {
            let byte = #[trigger] line[i] as int;
            byte != 32 && byte != 9 && byte != 10 && byte != 12 && byte != 13
        }
}

proof fn lemma_text_is_not_blank(line: Seq<u8>)
    ensures
        has_text(line) <==> !is_blank(line),
{
    if has_text(line) {
        let i = choose|i: int|
            0 <= i < line.len() && {
                let byte = #[trigger] line[i] as int;
                byte != 32 && byte != 9 && byte != 10 && byte != 12 && byte != 13
            };
        assert(!is_whitespace(line[i]));
    } else {
        assert forall|i: int| 0 <= i < line.len() implies is_whitespace(#[trigger] line[i]) by {}
    }
}

/// The lines of `lines` that have text, in order.
pub open spec fn lines_with_text(lines: Seq<Seq<u8>>) -> Seq<Seq<u8>>
    decreases lines.len(),
{
    if lines.len() == 0 {
        Seq::empty()
    } else {
        let rest = lines_with_text(lines.drop_first());
        if has_text(lines[0]) {
            seq![lines[0]] + rest
        } else {
            rest
        }
    }
}

/// A body of any lines gives back exactly those that have text, unchanged and in order, whatever
/// their length is and wherever blank lines stand. What follows the last line feed is a line as
/// well.
pub proof fn law_every_line_with_text_is_a_message(lines: Seq<Seq<u8>>, last: Seq<u8>)
    requires
        forall|i: int| 0 <= i < lines.len() ==> !(#[trigger] lines[i]).contains(0x0a),
        !last.contains(0x0a),
    ensures
        messages(framed(lines) + last) == lines_with_text(lines) + (if has_text(last) {
            seq![last]
        } else {
            Seq::empty()
        }),
    decreases lines.len(),
{
    let body = framed(lines) + last;
    if lines.len() == 0 {
        assert(body =~= last);
        lemma_line_length(last, last.len() as int);
        lemma_text_is_not_blank(last);
    } else {
        let line = lines[0];
        let rest = lines.drop_first();
        assert(!lines[0].contains(0x0a));
        assert(body.take(line.len() as int) =~= line);
        assert(body.skip(line.len() as int + 1) =~= framed(rest) + last);
        assert forall|j: int| 0 <= j < line.len() implies body[j] != 0x0a by {
            assert(body[j] == line[j]);
        }
        lemma_line_length(body, line.len() as int);
        lemma_text_is_not_blank(line);
        assert forall|i: int| 0 <= i < rest.len() implies !(#[trigger] rest[i]).contains(0x0a) by {
            assert(rest[i] == lines[i + 1]);
        }
        law_every_line_with_text_is_a_message(rest, last);
        if has_text(line) {
            assert(messages(body) == seq![line] + messages(framed(rest) + last));
        } else {
            lemma_next_line_shrinks(framed(rest) + last);
            assert(next_line(body) == next_line(framed(rest) + last));
        }
    }
}

/// A request carries the message that it was made for, to where it was meant: two requests with the
/// same fields carry the same payload of the same kind to the same recipient.
pub proof fn law_request_carries_its_message(
    client: FreddieClient,
    send_to: &str,
    kind: SignalMessageType,
    payload: &str,
    request: ExchangeRequest,
)
    requires
        call_ensures(FreddieClient::exchange, (&client, send_to, kind, payload), request),
    ensures
        request.endpoint@ == client.spec_endpoint(),
        request.version@ == client.spec_version(),
        request.fields@.len() == 3,
        forall|i: int|
            0 <= i < 3 ==> ((#[trigger] request.fields@[i]).name@ == "data"@
                && request.fields@[i].value@ == payload@) || (request.fields@[i].name@ == "send-to"@
                && request.fields@[i].value@ == send_to@) || (request.fields@[i].name@ == "type"@
                && request.fields@[i].value@ == json::decimal(
                match kind {
                    SignalMessageType::Genesis => 0nat,
                    SignalMessageType::Offer => 1,
                    SignalMessageType::Answer => 2,
                    SignalMessageType::Ice => 3,
                },
            )),
        request.fields@[0].name@ != request.fields@[1].name@,
        request.fields@[1].name@ != request.fields@[2].name@,
        request.fields@[0].name@ != request.fields@[2].name@,
{
    reveal_strlit("data");
    reveal_strlit("send-to");
    reveal_strlit("type");
    assert("data"@[0] == 'd' && "type"@[0] == 't');
    assert("data"@.len() == 4 && "type"@.len() == 4 && "send-to"@.len() == 7);
}

/// An exchange is accepted exactly with status 200. Every other status is an error that tells it: 418
/// the version that was announced, 404 that the recipient is gone, and all others the status itself.
pub proof fn law_only_success_is_accepted(
    client: FreddieClient,
    status: u16,
    accepted: Result<(), SignalingError>,
)
    requires
        call_ensures(FreddieClient::exchange_status, (&client, status), accepted),
    ensures
        accepted is Ok <==> status == 200,
        accepted matches Err(error) ==> match error {
            SignalingError::ProtocolVersion(version) => status == 418 && version@
                == client.spec_version(),
            SignalingError::RecipientGone => status == 404,
            SignalingError::Http(code) => code == status && status != 418 && status != 404,
            _ => false,
        },
{
}

/// A stream of advertisements opens exactly with status 200, and with nothing read. Every other
/// status is an error that tells it: 418 the version that was announced, and all others the status
/// itself.
pub proof fn law_only_success_opens_the_stream(
    client: FreddieClient,
    status: u16,
    stream: Result<AdvertisementStream, SignalingError>,
)
    requires
        call_ensures(FreddieClient::advertisements, (&client, status), stream),
    ensures
        stream is Ok <==> status == 200,
        stream matches Ok(stream) ==> stream@.len() == 0,
        stream matches Err(error) ==> match error {
            SignalingError::ProtocolVersion(version) => status == 418 && version@
                == client.spec_version(),
            SignalingError::Http(code) => code == status && status != 418,
            _ => false,
        },
{
}

/// The reply to an exchange is its whole body, and there is none exactly if the body has no text.
pub proof fn law_reply_is_the_whole_body(body: Vec<u8>, reply: Option<Vec<u8>>)
    requires
        call_ensures(exchange_reply, (body,), reply),
    ensures
        reply is Some <==> has_text(body@),
        reply matches Some(reply) ==> reply == body,
{
    lemma_text_is_not_blank(body@);
}

/// At the end of the body, what has not been read is the last message exactly if it has text: all of
/// it, and only once.
pub proof fn law_rest_of_the_body_is_a_message(
    unread: Seq<u8>,
    line: Option<Vec<u8>>,
    after: Seq<u8>,
    again: Option<Vec<u8>>,
    end: Seq<u8>,
)
    requires
        AdvertisementStream::spec_finish(unread, line, after),
        AdvertisementStream::spec_finish(after, again, end),
    ensures
        line is Some <==> has_text(unread),
        line matches Some(line) ==> line@ == unread,
        line is Some ==> messages(unread).len() >= 1,
        again is None,
{
    lemma_text_is_not_blank(unread);
    lemma_text_is_not_blank(after);
    if line is Some {
        lemma_text_makes_a_message(unread);
    }
}

/// Bytes that have text hold a message.
proof fn lemma_text_makes_a_message(bytes: Seq<u8>)
    requires
        !is_blank(bytes),
    ensures
        messages(bytes).len() >= 1,
    decreases bytes.len(),
{
    let length = line_length(bytes);
    lemma_next_line_shrinks(bytes);
    lemma_line_length_is_a_line(bytes);
    if length < bytes.len() && is_blank(bytes.take(length as int)) {
        let rest = bytes.skip(length as int + 1);
        let i = choose|i: int| 0 <= i < bytes.len() && !is_whitespace(#[trigger] bytes[i]);
        if i < length {
            assert(is_whitespace(bytes.take(length as int)[i]));
        }
        assert(bytes[length as int] == 0x0a);
        assert(rest[i - length - 1] == bytes[i]);
        lemma_text_makes_a_message(rest);
        assert(next_line(bytes) == next_line(rest));
    }
}

/// A client goes to the endpoint that it was made for, in this crate's version of the protocol, and
/// there is none exactly if the endpoint is no URL.
pub proof fn law_client_speaks_this_version(
    endpoint: &str,
    client: Result<FreddieClient, SignalingError>,
)
    requires
        call_ensures(FreddieClient::new, (endpoint,), client),
    ensures
        client is Ok <==> url_text(endpoint@) is Some,
        client matches Ok(client) ==> Some(client.spec_endpoint()) == url_text(endpoint@)
            && client.spec_version() == "v2.3.0"@,
        client matches Err(error) ==> error is InvalidEndpoint,
{
}

} // verus!
