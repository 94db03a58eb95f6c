//! The messages and constants shared with the signaling service, the egress and other peers.
use vstd::prelude::*;
use vstd::string::StringExecFns;

use crate::base64_payload;
use crate::json;
use crate::json::JsonValue;

verus! {

/// The protocol version that every request announces.
pub const PROTOCOL_VERSION: &'static str = "v2.3.0";

/// The first WebSocket subprotocol of an egress connection.
pub const SUBPROTOCOL_MAGIC_COOKIE: &'static str = "un80und3d";

/// The HTTP header that carries the protocol version.
pub const VERSION_HEADER: &'static str = "X-BF-Version";

/// A datagram on its way from the egress to the consumer, with the identity of the egress
/// path it came through.
#[derive(Debug, Clone, PartialEq, Eq)]
pub struct UnboundedPacket {
    pub source_addr: String,
    pub payload: Vec<u8>,
}

impl UnboundedPacket {
    pub fn new(source_addr: String, payload: Vec<u8>) -> (packet: UnboundedPacket)
        ensures
            packet.source_addr == source_addr,
            packet.payload == payload,
    {
        UnboundedPacket { source_addr, payload }
    }

    /// The packet in a JSON envelope, its payload in base64.
    pub open spec fn spec_json(&self) -> Seq<char> {
        packet_json(self.source_addr@, base64_payload::base64_text(self.payload@))
    }

    /// The packet in a JSON envelope, its payload in base64.
    pub fn to_json(&self) -> (json: String)
        requires
            base64_payload::base64_length(self.payload@.len()) <= isize::MAX,
        ensures
            json@ == self.spec_json(),
            base64_payload::base64_bytes(base64_payload::base64_text(self.payload@)) == Some(
                self.payload@,
            ),
    {
        let mut text = "{\"SourceAddr\":".to_owned();
        text.append(json::quote(self.source_addr.as_str()).as_str());
        text.append(",\"Payload\":");
        let payload = base64_payload::serialize(self.payload.as_slice());
        text.append(json::quote(payload.as_str()).as_str());
        text.append("}");
        text
    }

    /// The packet with the fields of a JSON envelope, or the decoder's error if the payload is
    /// not standard padded base64.
    pub fn from_envelope(source_addr: String, payload: &str) -> (packet: Result<
        UnboundedPacket,
        base64::DecodeError,
    >)
        ensures
            match packet {
                Ok(packet) => packet.source_addr == source_addr && base64_payload::base64_bytes(
                    payload@,
                ) == Some(packet.payload@),
                Err(_) => base64_payload::base64_bytes(payload@) is None,
            },
    {
        match base64_payload::deserialize(payload) {
            Ok(payload) => Ok(UnboundedPacket { source_addr, payload }),
            Err(error) => Err(error),
        }
    }
}

/// A packet's JSON envelope with the given fields.
pub open spec fn packet_json(source_addr: Seq<char>, payload: Seq<char>) -> Seq<char> {
    "{\"SourceAddr\":"@ + json::json_string(source_addr) + ",\"Payload\":"@ + json::json_string(
        payload,
    ) + "}"@
}

/// The step of the signaling exchange that a message belongs to.
#[derive(Debug, Clone, Copy, PartialEq, Eq, Structural)]
pub enum SignalMessageType {
    Genesis,
    Offer,
    Answer,
    Ice,
}

impl SignalMessageType {
    /// The number that stands for the step on the wire.
    pub open spec fn spec_code(self) -> u8 {
        match self {
            SignalMessageType::Genesis => 0,
            SignalMessageType::Offer => 1,
            SignalMessageType::Answer => 2,
            SignalMessageType::Ice => 3,
        }
    }

    /// The number that stands for the step on the wire.
    pub fn code(self) -> (code: u8)
        ensures
            code == self.spec_code(),
    {
        match self {
            SignalMessageType::Genesis => 0,
            SignalMessageType::Offer => 1,
            SignalMessageType::Answer => 2,
            SignalMessageType::Ice => 3,
        }
    }

    /// The step that `code` stands for on the wire, if it stands for one.
    pub fn from_code(code: u8) -> (kind: Option<SignalMessageType>)
        ensures
            match kind {
                Some(kind) => kind.spec_code() == code,
                None => forall|kind: SignalMessageType| kind.spec_code() != code,
            },
    {
        match code {
            0 => Some(SignalMessageType::Genesis),
            1 => Some(SignalMessageType::Offer),
            2 => Some(SignalMessageType::Answer),
            3 => Some(SignalMessageType::Ice),
            _ => None,
        }
    }
}

/// One message of the signaling exchange.
#[derive(Debug, PartialEq, Eq)]
pub struct SignalMessage {
    pub reply_to: String,
    pub kind: SignalMessageType,
    pub payload: String,
}

impl Clone for SignalMessage {
    fn clone(&self) -> (copy: SignalMessage)
        ensures
            copy == *self,
    {
        SignalMessage {
            reply_to: self.reply_to.clone(),
            kind: self.kind,
            payload: self.payload.clone(),
        }
    }
}

impl SignalMessage {
    /// The message in its JSON envelope.
    pub open spec fn spec_json(&self) -> Seq<char> {
        "{\"ReplyTo\":"@ + json::json_string(self.reply_to@) + ",\"Type\":"@
            + json::decimal(self.kind.spec_code() as nat) + ",\"Payload\":"@ + json::json_string(
            self.payload@,
        ) + "}"@
    }

    /// The message in its JSON envelope.
    pub fn to_json(&self) -> (json: String)
        ensures
            json@ == self.spec_json(),
    {
        let mut text = "{\"ReplyTo\":".to_owned();
        text.append(json::quote(self.reply_to.as_str()).as_str());
        text.append(",\"Type\":");
        text.append(json::number_text(self.kind.code() as u32).as_str());
        text.append(",\"Payload\":");
        text.append(json::quote(self.payload.as_str()).as_str());
        text.append("}");
        text
    }
}

/// A destination and how far away it is.
#[derive(Debug, Clone, PartialEq, Eq)]
pub struct Endpoint {
    pub host: String,
    pub distance: u32,
}

impl Endpoint {
    /// The destination as a JSON object.
    pub open spec fn spec_json(&self) -> Seq<char> {
        "{\"Host\":"@ + json::json_string(self.host@) + ",\"Distance\":"@ + json::decimal(
            self.distance as nat,
        ) + "}"@
    }

    /// The destination as a JSON object.
    pub fn to_json(&self) -> (json: String)
        ensures
            json@ == self.spec_json(),
    {
        let mut text = "{\"Host\":".to_owned();
        text.append(json::quote(self.host.as_str()).as_str());
        text.append(",\"Distance\":");
        text.append(json::number_text(self.distance).as_str());
        text.append("}");
        text
    }
}

/// The JSON objects of `endpoints`, separated by commas.
pub open spec fn endpoints_json(endpoints: Seq<Endpoint>) -> Seq<char>
    decreases endpoints.len(),
{
    if endpoints.len() == 0 {
        Seq::empty()
    } else if endpoints.len() == 1 {
        endpoints[0].spec_json()
    } else {
        endpoints_json(endpoints.drop_last()) + ","@ + endpoints.last().spec_json()
    }
}

/// A list of destinations as JSON: an array, or `null` where there is no list.
pub open spec fn endpoint_list_json(endpoints: Option<Vec<Endpoint>>) -> Seq<char> {
    match endpoints {
        Some(endpoints) => "["@ + endpoints_json(endpoints@) + "]"@,
        None => "null"@,
    }
}

/// A list of destinations as JSON: an array, or `null` where there is no list.
fn write_endpoint_list(endpoints: &Option<Vec<Endpoint>>) -> (json: String)
    ensures
        json@ == endpoint_list_json(*endpoints),
{
    match endpoints {
        Some(endpoints) => {
            let mut objects = String::new();
            let mut i: usize = 0;
            while i < endpoints.len()
                invariant
                    i <= endpoints@.len(),
                    objects@ == endpoints_json(endpoints@.take(i as int)),
                decreases endpoints@.len() - i,
            {
                let ghost taken = endpoints@.take(i as int + 1);
                assert(taken.drop_last() =~= endpoints@.take(i as int));
                if i > 0 {
                    objects.append(",");
                }
                objects.append(endpoints[i].to_json().as_str());
                assert(objects@ =~= endpoints_json(taken));
                i = i + 1;
            }
            assert(endpoints@.take(i as int) =~= endpoints@);
            let mut text = "[".to_owned();
            text.append(objects.as_str());
            text.append("]");
            text
        },
        None => "null".to_owned(),
    }
}

/// The destinations that a peer proxy offers to reach.
#[derive(Debug, Clone, PartialEq, Eq)]
pub struct PathAssertion {
    pub allow: Option<Vec<Endpoint>>,
    pub deny: Option<Vec<Endpoint>>,
    pub jit_unavailable: bool,
}

impl PathAssertion {
    /// Every host, at distance one, connected to on request.
    pub fn all_hosts_on_request() -> (assertion: PathAssertion)
        ensures
            assertion.allow matches Some(allow) && allow@.len() == 1 && allow@[0].host@ == "$"@
                && allow@[0].distance == 1,
            assertion.deny is None,
            !assertion.jit_unavailable,
    {
        PathAssertion {
            allow: Some(vec![Endpoint { host: "$".to_owned(), distance: 1 }]),
            deny: None,
            jit_unavailable: false,
        }
    }

    /// The offer as a JSON object.
    pub open spec fn spec_json(&self) -> Seq<char> {
        "{\"Allow\":"@ + endpoint_list_json(self.allow) + ",\"Deny\":"@ + endpoint_list_json(
            self.deny,
        ) + ",\"JITUnavailable\":"@ + (if self.jit_unavailable {
            "true"@
        } else {
            "false"@
        }) + "}"@
    }

    /// The offer as a JSON object.
    pub fn to_json(&self) -> (json: String)
        ensures
            json@ == self.spec_json(),
    {
        let mut text = "{\"Allow\":".to_owned();
        text.append(write_endpoint_list(&self.allow).as_str());
        text.append(",\"Deny\":");
        text.append(write_endpoint_list(&self.deny).as_str());
        text.append(",\"JITUnavailable\":");
        text.append(
            if self.jit_unavailable {
                "true"
            } else {
                "false"
            },
        );
        text.append("}");
        text
    }
}

/// The announcement that a peer proxy is ready to serve a consumer.
#[derive(Debug, Clone, PartialEq, Eq)]
pub struct GenesisMessage {
    pub path_assertion: PathAssertion,
}

impl GenesisMessage {
    /// The announcement as a JSON object.
    pub open spec fn spec_json(&self) -> Seq<char> {
        "{\"PathAssertion\":"@ + self.path_assertion.spec_json() + "}"@
    }

    /// The announcement as a JSON object.
    pub fn to_json(&self) -> (json: String)
        ensures
            json@ == self.spec_json(),
    {
        let mut text = "{\"PathAssertion\":".to_owned();
        text.append(self.path_assertion.to_json().as_str());
        text.append("}");
        text
    }
}

/// The characters of each of `values`.
pub open spec fn texts(values: Seq<String>) -> Seq<Seq<char>> {
    Seq::new(values.len(), |i: int| values[i]@)
}

/// The three WebSocket subprotocols of an egress connection, in order: the magic cookie, the
/// consumer session ID and the protocol version.
pub open spec fn subprotocols(csid: Seq<char>, version: Seq<char>) -> Seq<Seq<char>> {
    seq![SUBPROTOCOL_MAGIC_COOKIE@, csid, version]
}

/// The three WebSocket subprotocols of an egress connection, in order: the magic cookie, the
/// consumer session ID and the protocol version.
pub fn egress_subprotocols(csid: &str, version: &str) -> (values: [String; 3])
    ensures
        texts(values@) == subprotocols(csid@, version@),
{
    [SUBPROTOCOL_MAGIC_COOKIE.to_owned(), csid.to_owned(), version.to_owned()]
}

/// The consumer session ID and the protocol version among the subprotocols of an egress
/// connection. Exactly three values are required; the first is not looked at.
pub open spec fn parsed_subprotocols(values: Seq<Seq<char>>) -> Option<(Seq<char>, Seq<char>)> {
    if values.len() == 3 {
        Some((values[1], values[2]))
    } else {
        None
    }
}

/// The consumer session ID and the protocol version among the subprotocols of an egress
/// connection, if there are exactly three values.
pub fn parse_egress_subprotocols(values: &[String]) -> (parsed: Option<(&str, &str)>)
    ensures
        parsed_subprotocols(texts(values@)) == (match parsed {
            Some((csid, version)) => Some((csid@, version@)),
            None => None,
        }),
{
    if values.len() != 3 {
        return None;
    }
    Some((values[1].as_str(), values[2].as_str()))
}

/// Parsing the subprotocols of an egress connection gives back the session ID and the version
/// that they were made from.
pub proof fn law_subprotocols_round_trip(csid: Seq<char>, version: Seq<char>)
    ensures
        parsed_subprotocols(subprotocols(csid, version)) == Some((csid, version)),
{
}

/// Two steps with the same number on the wire are the same step.
pub proof fn law_signal_codes_are_distinct(a: SignalMessageType, b: SignalMessageType)
    requires
        a.spec_code() == b.spec_code(),
    ensures
        a == b,
{
}

/// A signaling envelope stands on one line, so that a line feed can follow it as a separator.
pub proof fn law_signal_envelope_is_one_line(message: SignalMessage)
    ensures
        !message.spec_json().contains('\n'),
{
    reveal_strlit("{\"ReplyTo\":");
    reveal_strlit(",\"Type\":");
    reveal_strlit(",\"Payload\":");
    reveal_strlit("}");
    json::law_json_string_is_one_line(message.reply_to@);
    json::law_json_string_is_one_line(message.payload@);
    let text = message.spec_json();
    let reply_to = json::json_string(message.reply_to@);
    let payload = json::json_string(message.payload@);
    let code = json::decimal(message.kind.spec_code() as nat);
    assert forall|i: int| 0 <= i < text.len() implies text[i] != '\n' by {
        let start = 11 + reply_to.len();
        if 11 <= i < start {
            assert(text[i] == reply_to[i - 11]);
        } else if start + 8 <= i < start + 9 {
            assert(text[i] == code[0]);
        } else if start + 20 <= i < start + 20 + payload.len() {
            assert(text[i] == payload[i - start - 20]);
        }
    }
}

/// A packet's envelope tells its fields: no other fields have the same envelope.
pub proof fn law_packet_envelope_tells_its_fields(
    source_addr: Seq<char>,
    payload: Seq<char>,
    other_source_addr: Seq<char>,
    other_payload: Seq<char>,
)
    requires
        packet_json(source_addr, payload) == packet_json(other_source_addr, other_payload),
    ensures
        source_addr == other_source_addr,
        payload == other_payload,
{
    let whole = packet_json(source_addr, payload);
    let start = "{\"SourceAddr\":"@;
    let middle = ",\"Payload\":"@;
    let rest = middle + json::json_string(payload) + "}"@;
    let other_rest = middle + json::json_string(other_payload) + "}"@;
    assert(json::json_string(source_addr) + rest =~= whole.skip(start.len() as int));
    assert(json::json_string(other_source_addr) + other_rest =~= whole.skip(start.len() as int));
    json::law_json_string_shows_its_end(source_addr, rest, other_source_addr, other_rest);
    assert(json::json_string(payload) + "}"@ =~= rest.skip(middle.len() as int));
    assert(json::json_string(other_payload) + "}"@ =~= rest.skip(middle.len() as int));
    json::law_json_string_shows_its_end(payload, "}"@, other_payload, "}"@);
}

/// A packet's envelope tells the packet: no other packet has the same envelope.
pub proof fn law_packet_envelope_tells_its_packet(packet: UnboundedPacket, other: UnboundedPacket)
    requires
        packet.spec_json() == other.spec_json(),
    ensures
        packet.source_addr@ == other.source_addr@,
        packet.payload@ == other.payload@,
{
    law_packet_envelope_tells_its_fields(
        packet.source_addr@,
        base64_payload::base64_text(packet.payload@),
        other.source_addr@,
        base64_payload::base64_text(other.payload@),
    );
    base64_payload::law_base64_is_injective(packet.payload@, other.payload@);
}

/// A signaling envelope tells its message: no other message has the same envelope.
pub proof fn law_signal_envelope_tells_its_message(message: SignalMessage, other: SignalMessage)
    requires
        message.spec_json() == other.spec_json(),
    ensures
        message.reply_to@ == other.reply_to@,
        message.kind == other.kind,
        message.payload@ == other.payload@,
{
    let whole = message.spec_json();
    let start = "{\"ReplyTo\":"@;
    let code = json::decimal(message.kind.spec_code() as nat);
    let other_code = json::decimal(other.kind.spec_code() as nat);
    let payload = ",\"Payload\":"@ + json::json_string(message.payload@) + "}"@;
    let other_payload = ",\"Payload\":"@ + json::json_string(other.payload@) + "}"@;
    let rest = ",\"Type\":"@ + code + payload;
    let other_rest = ",\"Type\":"@ + other_code + other_payload;
    assert(json::json_string(message.reply_to@) + rest =~= whole.skip(start.len() as int));
    assert(json::json_string(other.reply_to@) + other_rest =~= whole.skip(start.len() as int));
    json::law_json_string_shows_its_end(message.reply_to@, rest, other.reply_to@, other_rest);
    let type_length = ",\"Type\":"@.len() as int;
    assert(rest[type_length] == code[0] && other_rest[type_length] == other_code[0]);
    assert(payload =~= rest.skip(type_length + 1));
    assert(other_payload =~= rest.skip(type_length + 1));
    let payload_length = ",\"Payload\":"@.len() as int;
    assert(json::json_string(message.payload@) + "}"@ =~= payload.skip(payload_length));
    assert(json::json_string(other.payload@) + "}"@ =~= payload.skip(payload_length));
    json::law_json_string_shows_its_end(message.payload@, "}"@, other.payload@, "}"@);
}

/// Whether `c` is a visible ASCII character other than the list separator.
pub open spec fn is_token_char(c: char) -> bool {
    '!' <= c && c <= '~' && c != ','
}

/// Whether `value` is one or more visible ASCII characters, none of them the list separator.
pub open spec fn is_token(value: Seq<char>) -> bool {
    &&& value.len() > 0
    &&& forall|i: int| 0 <= i < value.len() ==> is_token_char(#[trigger] value[i])
}

/// Whether `c` occurs in base64, hexadecimal or UUID session IDs.
pub open spec fn is_common_id_char(c: char) -> bool {
    ||| 'a' <= c <= 'z'
    ||| 'A' <= c <= 'Z'
    ||| '0' <= c <= '9'
    ||| c == '/' || c == '+' || c == '=' || c == '-' || c == '_'
}

/// Session IDs in base64, hexadecimal or UUID form are tokens.
pub proof fn law_common_ids_are_tokens(id: Seq<char>)
    requires
        id.len() > 0,
        forall|i: int| 0 <= i < id.len() ==> is_common_id_char(#[trigger] id[i]),
    ensures
        is_token(id),
{
    assert forall|i: int| 0 <= i < id.len() implies is_token_char(#[trigger] id[i]) by {
        assert(is_common_id_char(id[i]));
    }
}

/// Returns true if `value` is safe to use as a single `Sec-WebSocket-Protocol` token: not empty,
/// and free of the list separator and of any whitespace, control or non-ASCII character.
pub fn is_subprotocol_token(value: &str) -> (safe: bool)
    ensures
        safe == is_token(value@),
{
    if value.is_empty() {
        return false;
    }
    if !value.is_ascii() {
        proof {
            let i = choose|i: int|
                0 <= i < value@.len() && !('\0' <= #[trigger] value@[i] <= '\u{7f}');
            assert(!is_token_char(value@[i]));
        }
        return false;
    }
    let bytes = value.as_bytes();
    let mut i: usize = 0;
    while i < bytes.len()
        invariant
            i <= bytes@.len() == value@.len(),
            forall|j: int| 0 <= j < value@.len() ==> bytes@[j] == value@[j] as u8,
            vstd::utf8::is_ascii_chars(value@),
            forall|j: int| 0 <= j < i ==> is_token_char(#[trigger] value@[j]),
        decreases bytes@.len() - i,
    {
        let byte: u8 = bytes[i];
        assert(byte == value@[i as int] as u8);
        if byte < 0x21 || byte > 0x7e || byte == 0x2c {
            assert(!is_token_char(value@[i as int]));
            return false;
        }
        i = i + 1;
    }
    true
}

/// A packet's envelope is a JSON object: under `SourceAddr` the egress path, and under `Payload` the
/// payload's base64 text.
pub proof fn law_packet_envelope_is_an_object(source_addr: Seq<char>, payload: Seq<char>)
    ensures
        packet_json(source_addr, payload) == json::object_json(
            seq![
                ("SourceAddr"@, JsonValue::Text(source_addr)),
                ("Payload"@, JsonValue::Text(payload)),
            ],
        ),
{
    reveal_strlit("SourceAddr");
    reveal_strlit("{\"SourceAddr\":");
    reveal_strlit("Payload");
    reveal_strlit(",\"Payload\":");
    reveal_strlit("}");
    let none = Seq::<(Seq<char>, JsonValue)>::empty();
    let m1 = ("SourceAddr"@, JsonValue::Text(source_addr));
    let f1 = none.push(m1);
    json::lemma_one_more_member(none, m1);
    let t1 = "{\"SourceAddr\":"@ + json::json_string(source_addr);
    assert(t1 =~= seq!['{'] + json::members_json(f1));
    let m2 = ("Payload"@, JsonValue::Text(payload));
    let f2 = f1.push(m2);
    json::lemma_one_more_member(f1, m2);
    let t2 = t1 + ",\"Payload\":"@ + json::json_string(payload);
    assert(t2 =~= seq!['{'] + json::members_json(f2));
    assert(f2 =~= seq![m1, m2]);
    assert(packet_json(source_addr, payload) =~= t2 + "}"@);
    assert(packet_json(source_addr, payload) =~= json::object_json(f2));
}

/// A signaling envelope is a JSON object: under `ReplyTo` where to reply, under `Type` the number of
/// the step, and under `Payload` the payload.
pub proof fn law_signal_envelope_is_an_object(message: SignalMessage)
    ensures
        message.spec_json() == json::object_json(
            seq![
                ("ReplyTo"@, JsonValue::Text(message.reply_to@)),
                ("Type"@, JsonValue::Number(message.kind.spec_code() as nat)),
                ("Payload"@, JsonValue::Text(message.payload@)),
            ],
        ),
{
    reveal_strlit("ReplyTo");
    reveal_strlit("{\"ReplyTo\":");
    reveal_strlit("Type");
    reveal_strlit(",\"Type\":");
    reveal_strlit("Payload");
    reveal_strlit(",\"Payload\":");
    reveal_strlit("}");
    let none = Seq::<(Seq<char>, JsonValue)>::empty();
    let m1 = ("ReplyTo"@, JsonValue::Text(message.reply_to@));
    let f1 = none.push(m1);
    json::lemma_one_more_member(none, m1);
    let t1 = "{\"ReplyTo\":"@ + json::json_string(message.reply_to@);
    assert(t1 =~= seq!['{'] + json::members_json(f1));
    let m2 = ("Type"@, JsonValue::Number(message.kind.spec_code() as nat));
    let f2 = f1.push(m2);
    json::lemma_one_more_member(f1, m2);
    let t2 = t1 + ",\"Type\":"@ + json::decimal(message.kind.spec_code() as nat);
    assert(t2 =~= seq!['{'] + json::members_json(f2));
    let m3 = ("Payload"@, JsonValue::Text(message.payload@));
    let f3 = f2.push(m3);
    json::lemma_one_more_member(f2, m3);
    let t3 = t2 + ",\"Payload\":"@ + json::json_string(message.payload@);
    assert(t3 =~= seq!['{'] + json::members_json(f3));
    assert(f3 =~= seq![m1, m2, m3]);
    assert(message.spec_json() =~= t3 + "}"@);
    assert(message.spec_json() =~= json::object_json(f3));
}

/// A destination is a JSON object: under `Host` its host, and under `Distance` how far away it is.
pub proof fn law_endpoint_is_an_object(endpoint: Endpoint)
    ensures
        endpoint.spec_json() == json::object_json(
            seq![
                ("Host"@, JsonValue::Text(endpoint.host@)),
                ("Distance"@, JsonValue::Number(endpoint.distance as nat)),
            ],
        ),
{
    reveal_strlit("Host");
    reveal_strlit("{\"Host\":");
    reveal_strlit("Distance");
    reveal_strlit(",\"Distance\":");
    reveal_strlit("}");
    let none = Seq::<(Seq<char>, JsonValue)>::empty();
    let m1 = ("Host"@, JsonValue::Text(endpoint.host@));
    let f1 = none.push(m1);
    json::lemma_one_more_member(none, m1);
    let t1 = "{\"Host\":"@ + json::json_string(endpoint.host@);
    assert(t1 =~= seq!['{'] + json::members_json(f1));
    let m2 = ("Distance"@, JsonValue::Number(endpoint.distance as nat));
    let f2 = f1.push(m2);
    json::lemma_one_more_member(f1, m2);
    let t2 = t1 + ",\"Distance\":"@ + json::decimal(endpoint.distance as nat);
    assert(t2 =~= seq!['{'] + json::members_json(f2));
    assert(f2 =~= seq![m1, m2]);
    assert(endpoint.spec_json() =~= t2 + "}"@);
    assert(endpoint.spec_json() =~= json::object_json(f2));
}

/// A list of destinations is a JSON array of their objects, in order, and `null` where there is none.
pub proof fn law_endpoint_list_is_an_array(endpoints: Option<Vec<Endpoint>>)
    ensures
        endpoints is None ==> endpoint_list_json(endpoints) == seq!['n', 'u', 'l', 'l'],
        endpoints matches Some(endpoints) ==> endpoint_list_json(Some(endpoints)) == seq!['[']
            + json::joined(Seq::new(endpoints@.len(), |i: int| endpoints@[i].spec_json()))
            + seq![']'],
{
    reveal_strlit("null");
    reveal_strlit("[");
    reveal_strlit("]");
    if endpoints is Some {
        lemma_endpoints_are_joined(endpoints->0@);
    }
}

proof fn lemma_endpoints_are_joined(endpoints: Seq<Endpoint>)
    ensures
        endpoints_json(endpoints) == json::joined(
            Seq::new(endpoints.len(), |i: int| endpoints[i].spec_json()),
        ),
    decreases endpoints.len(),
{
    reveal_strlit(",");
    let parts = Seq::new(endpoints.len(), |i: int| endpoints[i].spec_json());
    if endpoints.len() > 1 {
        let start = endpoints.drop_last();
        lemma_endpoints_are_joined(start);
        assert(parts.drop_last() =~= Seq::new(start.len(), |i: int| start[i].spec_json()));
        assert(endpoints_json(endpoints) =~= json::joined(parts));
    }
}

/// An offer of destinations is a JSON object: under `Allow` and `Deny` its two lists, and under
/// `JITUnavailable` whether connecting on request is switched off.
pub proof fn law_offered_destinations_are_an_object(assertion: PathAssertion)
    ensures
        assertion.spec_json() == json::object_json(
            seq![
                ("Allow"@, JsonValue::Json(endpoint_list_json(assertion.allow))),
                ("Deny"@, JsonValue::Json(endpoint_list_json(assertion.deny))),
                (
                    "JITUnavailable"@,
                    JsonValue::Json(
                        if assertion.jit_unavailable {
                            "true"@
                        } else {
                            "false"@
                        },
                    ),
                ),
            ],
        ),
{
    reveal_strlit("Allow");
    reveal_strlit("{\"Allow\":");
    reveal_strlit("Deny");
    reveal_strlit(",\"Deny\":");
    reveal_strlit("JITUnavailable");
    reveal_strlit(",\"JITUnavailable\":");
    reveal_strlit("}");
    let none = Seq::<(Seq<char>, JsonValue)>::empty();
    let m1 = ("Allow"@, JsonValue::Json(endpoint_list_json(assertion.allow)));
    let f1 = none.push(m1);
    json::lemma_one_more_member(none, m1);
    let t1 = "{\"Allow\":"@ + endpoint_list_json(assertion.allow);
    assert(t1 =~= seq!['{'] + json::members_json(f1));
    let m2 = ("Deny"@, JsonValue::Json(endpoint_list_json(assertion.deny)));
    let f2 = f1.push(m2);
    json::lemma_one_more_member(f1, m2);
    let t2 = t1 + ",\"Deny\":"@ + endpoint_list_json(assertion.deny);
    assert(t2 =~= seq!['{'] + json::members_json(f2));
    let unavailable = if assertion.jit_unavailable {
        "true"@
    } else {
        "false"@
    };
    let m3 = ("JITUnavailable"@, JsonValue::Json(unavailable));
    let f3 = f2.push(m3);
    json::lemma_one_more_member(f2, m3);
    let t3 = t2 + ",\"JITUnavailable\":"@ + unavailable;
    assert(t3 =~= seq!['{'] + json::members_json(f3));
    assert(f3 =~= seq![m1, m2, m3]);
    assert(assertion.spec_json() =~= t3 + "}"@);
    assert(assertion.spec_json() =~= json::object_json(f3));
}

/// An announcement is a JSON object that holds its offer of destinations under `PathAssertion`.
pub proof fn law_genesis_is_an_object(genesis: GenesisMessage)
    ensures
        genesis.spec_json() == json::object_json(
            seq![
                ("PathAssertion"@, JsonValue::Json(genesis.path_assertion.spec_json())),
            ],
        ),
{
    reveal_strlit("PathAssertion");
    reveal_strlit("{\"PathAssertion\":");
    reveal_strlit("}");
    let none = Seq::<(Seq<char>, JsonValue)>::empty();
    let m1 = ("PathAssertion"@, JsonValue::Json(genesis.path_assertion.spec_json()));
    let f1 = none.push(m1);
    json::lemma_one_more_member(none, m1);
    let t1 = "{\"PathAssertion\":"@ + genesis.path_assertion.spec_json();
    assert(t1 =~= seq!['{'] + json::members_json(f1));
    assert(f1 =~= seq![m1]);
    assert(genesis.spec_json() =~= t1 + "}"@);
    assert(genesis.spec_json() =~= json::object_json(f1));
}

/// The steps have their numbers on the wire: an announcement 0, an offer 1, an answer 2 and
/// candidates 3.
pub proof fn law_signal_codes_are_in_order(kind: SignalMessageType)
    ensures
        kind is Genesis <==> kind.spec_code() == 0,
        kind is Offer <==> kind.spec_code() == 1,
        kind is Answer <==> kind.spec_code() == 2,
        kind is Ice <==> kind.spec_code() == 3,
{
}

/// A token is a text that has a character, and whose characters are all visible ASCII and no commas:
/// one more character keeps it a token exactly if that character lies between 33 and 126 and is not
/// 44.
pub proof fn law_tokens_are_visible_ascii(value: Seq<char>, c: char)
    ensures
        !is_token(Seq::empty()),
        is_token(value.push(c)) <==> (value.len() == 0 || is_token(value)) && 33 <= c as int <= 126
            && c as int != 44,
{
    let more = value.push(c);
    assert(more[value.len() as int] == c);
    if is_token(more) {
        assert(is_token_char(more[value.len() as int]));
        assert forall|i: int| 0 <= i < value.len() implies is_token_char(#[trigger] value[i]) by {
            assert(is_token_char(more[i]));
        }
    }
    if (value.len() == 0 || is_token(value)) && 33 <= c as int <= 126 && c as int != 44 {
        assert forall|i: int| 0 <= i < more.len() implies is_token_char(#[trigger] more[i]) by {
            if i < value.len() {
                assert(more[i] == value[i]);
                assert(is_token_char(value[i]));
            }
        }
    }
}

/// The subprotocols of an egress connection are exactly three: the magic cookie, the session ID and
/// the version, each as it was given. Any other number of them cannot be read.
pub proof fn law_subprotocols_are_three(
    csid: Seq<char>,
    version: Seq<char>,
    values: Seq<Seq<char>>,
)
    ensures
        subprotocols(csid, version).len() == 3,
        subprotocols(csid, version)[0] == "un80und3d"@,
        subprotocols(csid, version)[1] == csid,
        subprotocols(csid, version)[2] == version,
        parsed_subprotocols(values) is Some <==> values.len() == 3,
        parsed_subprotocols(values) matches Some(parsed) ==> parsed.0 == values[1] && parsed.1
            == values[2],
{
}

/// A step is read back from its own number, and a number above 3 stands for none.
pub proof fn law_signal_code_is_read_back(
    kind: SignalMessageType,
    code: u8,
    read: Option<SignalMessageType>,
)
    requires
        call_ensures(SignalMessageType::from_code, (code,), read),
    ensures
        code == kind.spec_code() ==> read == Some(kind),
        code > 3 <==> read is None,
{
    if read is Some && code == kind.spec_code() {
        law_signal_codes_are_distinct(kind, read->0);
    }
    if read is None {
        assert(SignalMessageType::Genesis.spec_code() != code);
        assert(SignalMessageType::Offer.spec_code() != code);
        assert(SignalMessageType::Answer.spec_code() != code);
        assert(SignalMessageType::Ice.spec_code() != code);
    }
}

/// A packet that was put into an envelope is read back from the envelope's fields, whatever its
/// payload and its source are.
pub proof fn law_packet_is_read_back(
    packet: UnboundedPacket,
    payload: &str,
    read: Result<UnboundedPacket, base64::DecodeError>,
)
    requires
        payload@ == base64_payload::base64_text(packet.payload@),
        call_ensures(UnboundedPacket::from_envelope, (packet.source_addr, payload), read),
    ensures
        read matches Ok(read) && read.source_addr == packet.source_addr && read.payload@
            == packet.payload@,
{
    base64_payload::law_base64_round_trip(packet.payload@, payload@);
}

} // verus!
