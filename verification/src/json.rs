//! JSON text of strings, numbers and lists.
use vstd::prelude::*;
use vstd::string::StringExecFns;

verus! {

/// The lowercase hexadecimal digit of a number below sixteen.
pub open spec fn hex_digit(number: int) -> char {
    if number < 10 {
        (number + '0' as int) as char
    } else {
        (number - 10 + 'a' as int) as char
    }
}

/// How `c` is written inside a JSON string: quotes, backslashes and control characters are
/// escaped, everything else stands for itself.
pub open spec fn escaped(c: char) -> Seq<char> {
    if c == '"' || c == '\\' {
        seq!['\\', c]
    } else if c == '\u{8}' {
        seq!['\\', 'b']
    } else if c == '\t' {
        seq!['\\', 't']
    } else if c == '\n' {
        seq!['\\', 'n']
    } else if c == '\u{c}' {
        seq!['\\', 'f']
    } else if c == '\r' {
        seq!['\\', 'r']
    } else if ' ' > c {
        seq!['\\', 'u', '0', '0', hex_digit(c as int / 16), hex_digit(c as int % 16)]
    } else {
        seq![c]
    }
}

/// The characters of `text`, each as it is written inside a JSON string.
pub open spec fn escape(text: Seq<char>) -> Seq<char>
    decreases text.len(),
{
    if text.len() == 0 {
        Seq::empty()
    } else {
        escape(text.drop_last()) + escaped(text.last())
    }
}

/// The JSON string that stands for `text`.
pub open spec fn json_string(text: Seq<char>) -> Seq<char> {
    seq!['"'] + escape(text) + seq!['"']
}

/// The error of the JSON writer.
#[verifier::external_type_specification]
#[verifier::external_body]
pub struct ExJsonError(serde_json::Error);

/// Calls `serde_json::to_string` on a string: it succeeds, and the result is the JSON string with
/// exactly the escapes that [`escaped`] lists.
#[verifier::external_body]
fn string_to_json(text: &str) -> (json: Result<String, serde_json::Error>)
    ensures
        json matches Ok(json) && json@ == json_string(text@),
{
    serde_json::to_string(text)
}

/// The JSON string that stands for `text`.
pub fn quote(text: &str) -> (json: String)
    ensures
        json@ == json_string(text@),
{
    string_to_json(text).unwrap()
}

/// The decimal digit of a number below ten.
pub open spec fn digit(number: int) -> char {
    (number + '0' as int) as char
}

/// The decimal digits of `number`, without leading zeros.
pub open spec fn decimal(number: nat) -> Seq<char>
    decreases number,
{
    if number < 10 {
        seq![digit(number as int)]
    } else {
        decimal(number / 10).push(digit(number as int % 10))
    }
}

/// The text of one decimal digit.
fn digit_text(number: u32) -> (text: &'static str)
    requires
        number < 10,
    ensures
        text@ == seq![digit(number as int)],
{
    proof {
        reveal_strlit("0");
        reveal_strlit("1");
        reveal_strlit("2");
        reveal_strlit("3");
        reveal_strlit("4");
        reveal_strlit("5");
        reveal_strlit("6");
        reveal_strlit("7");
        reveal_strlit("8");
        reveal_strlit("9");
    }
    match number {
        0 => "0",
        1 => "1",
        2 => "2",
        3 => "3",
        4 => "4",
        5 => "5",
        6 => "6",
        7 => "7",
        8 => "8",
        _ => "9",
    }
}

/// The JSON number that stands for `number`.
pub fn number_text(number: u32) -> (text: String)
    ensures
        text@ == decimal(number as nat),
    decreases number,
{
    if number < 10 {
        digit_text(number).to_owned()
    } else {
        let mut text = number_text(number / 10);
        text.append(digit_text(number % 10));
        assert(text@ =~= decimal((number / 10) as nat).push(digit(number as int % 10)));
        text
    }
}

/// Whether every character of `text` stands for itself in a JSON string.
pub open spec fn is_plain(text: Seq<char>) -> bool {
    forall|i: int|
        0 <= i < text.len() ==> #[trigger] text[i] >= ' ' && text[i] != '"' && text[i] != '\\'
}

/// A text without quotes, backslashes and control characters is written as it is, in quotes.
pub proof fn law_plain_text_is_only_quoted(text: Seq<char>)
    requires
        is_plain(text),
    ensures
        json_string(text) == seq!['"'] + text + seq!['"'],
{
    lemma_plain_text_is_not_escaped(text);
}

proof fn lemma_plain_text_is_not_escaped(text: Seq<char>)
    requires
        is_plain(text),
    ensures
        escape(text) == text,
    decreases text.len(),
{
    if text.len() > 0 {
        lemma_plain_text_is_not_escaped(text.drop_last());
        assert(text =~= text.drop_last().push(text.last()));
    }
}

/// A JSON string never holds a line feed or another control character, whatever text it stands
/// for.
pub proof fn law_json_string_is_one_line(text: Seq<char>)
    ensures
        forall|i: int| 0 <= i < json_string(text).len() ==> #[trigger] json_string(text)[i] >= ' ',
{
    lemma_escape_has_no_control_characters(text);
}

proof fn lemma_escaped_has_no_control_characters(c: char)
    ensures
        forall|i: int| 0 <= i < escaped(c).len() ==> #[trigger] escaped(c)[i] >= ' ',
{
    assert(0 <= c as int % 16 < 16);
    if ' ' > c {
        assert(0 <= c as int / 16 < 2);
    }
}

proof fn lemma_escape_has_no_control_characters(text: Seq<char>)
    ensures
        forall|i: int| 0 <= i < escape(text).len() ==> #[trigger] escape(text)[i] >= ' ',
    decreases text.len(),
{
    if text.len() > 0 {
        lemma_escape_has_no_control_characters(text.drop_last());
        let c = text.last();
        let start = escape(text.drop_last());
        lemma_escaped_has_no_control_characters(c);
        assert forall|i: int| 0 <= i < escape(text).len() implies #[trigger] escape(text)[i]
            >= ' ' by {
            if i < start.len() {
                assert(escape(text)[i] == start[i]);
            } else {
                assert(escape(text)[i] == escaped(c)[i - start.len()]);
            }
        }
    }
}

/// The characters of `text`, each as it is written inside a JSON string, from the front.
proof fn lemma_escape_from_the_front(text: Seq<char>)
    requires
        text.len() > 0,
    ensures
        escape(text) == escaped(text[0]) + escape(text.drop_first()),
    decreases text.len(),
{
    if text.len() > 1 {
        lemma_escape_from_the_front(text.drop_last());
        assert(text.drop_first().drop_last() =~= text.drop_last().drop_first());
    } else {
        assert(text.drop_last() =~= Seq::empty());
        assert(text.drop_first() =~= Seq::empty());
        reveal_with_fuel(escape, 2);
        assert(escape(text) =~= escaped(text[0]));
    }
}

proof fn lemma_hex_digit_is_injective(a: int, b: int)
    requires
        0 <= a < 16,
        0 <= b < 16,
        hex_digit(a) == hex_digit(b),
    ensures
        a == b,
{
    assert(hex_digit(a) as int == if a < 10 {
        a + 48
    } else {
        a + 87
    });
    assert(hex_digit(b) as int == if b < 10 {
        b + 48
    } else {
        b + 87
    });
}

proof fn lemma_escaped_is_injective(c: char, d: char)
    requires
        escaped(c) == escaped(d),
    ensures
        c == d,
{
    assert(escaped(c)[0] == escaped(d)[0]);
    if escaped(c).len() > 1 {
        assert(escaped(c)[1] == escaped(d)[1]);
    }
    if escaped(c).len() > 2 {
        assert(escaped(c)[4] == escaped(d)[4]);
        assert(escaped(c)[5] == escaped(d)[5]);
        lemma_hex_digit_is_injective(c as int / 16, d as int / 16);
        lemma_hex_digit_is_injective(c as int % 16, d as int % 16);
    } else if escaped(c).len() == 1 {
        assert(escaped(c)[0] == c);
        assert(escaped(d)[0] == d);
    }
}

proof fn lemma_escape_shows_its_end(a: Seq<char>, x: Seq<char>, b: Seq<char>, y: Seq<char>)
    requires
        escape(a) + seq!['"'] + x == escape(b) + seq!['"'] + y,
    ensures
        a == b,
        x == y,
    decreases a.len(),
{
    let whole = escape(a) + seq!['"'] + x;
    if a.len() == 0 && b.len() == 0 {
        assert(x =~= whole.skip(1));
        assert(y =~= whole.skip(1));
    } else if a.len() == 0 {
        lemma_escape_from_the_front(b);
        assert(whole[0] == '"' && whole[0] == escaped(b[0])[0]);
    } else if b.len() == 0 {
        lemma_escape_from_the_front(a);
        assert(whole[0] == '"' && whole[0] == escaped(a[0])[0]);
    } else {
        lemma_escape_from_the_front(a);
        lemma_escape_from_the_front(b);
        let (c, d) = (escaped(a[0]), escaped(b[0]));
        assert(whole[0] == c[0] && whole[0] == d[0]);
        if c.len() > 1 {
            assert(whole[1] == c[1]);
        }
        if d.len() > 1 {
            assert(whole[1] == d[1]);
        }
        assert(c.len() == d.len());
        assert(c =~= whole.take(c.len() as int));
        assert(d =~= whole.take(d.len() as int));
        lemma_escaped_is_injective(a[0], b[0]);
        assert(escape(a.drop_first()) + seq!['"'] + x =~= whole.skip(c.len() as int));
        assert(escape(b.drop_first()) + seq!['"'] + y =~= whole.skip(d.len() as int));
        lemma_escape_shows_its_end(a.drop_first(), x, b.drop_first(), y);
        assert(a =~= seq![a[0]] + a.drop_first());
        assert(b =~= seq![b[0]] + b.drop_first());
    }
}

/// A JSON string shows where it ends: if two texts are the same, and each starts with a JSON
/// string, they start with the same one and go on in the same way.
pub proof fn law_json_string_shows_its_end(a: Seq<char>, x: Seq<char>, b: Seq<char>, y: Seq<char>)
    requires
        json_string(a) + x == json_string(b) + y,
    ensures
        a == b,
        x == y,
{
    let whole = json_string(a) + x;
    assert(escape(a) + seq!['"'] + x =~= whole.skip(1));
    assert(escape(b) + seq!['"'] + y =~= whole.skip(1));
    lemma_escape_shows_its_end(a, x, b, y);
}

/// Two texts with the same JSON string are the same text.
pub proof fn law_json_string_is_injective(a: Seq<char>, b: Seq<char>)
    requires
        json_string(a) == json_string(b),
    ensures
        a == b,
{
    law_json_string_shows_its_end(a, Seq::empty(), b, Seq::empty());
}

/// Whether `c` is a decimal digit.
pub open spec fn is_decimal_digit(c: char) -> bool {
    48 <= c as int <= 57
}

proof fn lemma_digit(number: int)
    requires
        0 <= number < 10,
    ensures
        digit(number) as int == number + 48,
        is_decimal_digit(digit(number)),
{
}

/// A decimal number is one or more digits.
proof fn lemma_decimal_is_digits(number: nat)
    ensures
        decimal(number).len() > 0,
        forall|i: int|
            0 <= i < decimal(number).len() ==> is_decimal_digit(#[trigger] decimal(number)[i]),
    decreases number,
{
    lemma_digit(number as int % 10);
    if number >= 10 {
        lemma_decimal_is_digits(number / 10);
    }
}

/// Two numbers with the same decimal digits are the same number.
pub proof fn law_decimal_is_injective(a: nat, b: nat)
    requires
        decimal(a) == decimal(b),
    ensures
        a == b,
    decreases a,
{
    lemma_digit(a as int % 10);
    lemma_digit(b as int % 10);
    lemma_decimal_is_digits(a / 10);
    lemma_decimal_is_digits(b / 10);
    assert(decimal(a).last() == digit(a as int % 10));
    assert(decimal(b).last() == digit(b as int % 10));
    assert(a as int % 10 == b as int % 10);
    assert(decimal(a).len() == 1 <==> a < 10);
    assert(decimal(b).len() == 1 <==> b < 10);
    if a >= 10 && b >= 10 {
        assert(decimal(a / 10) =~= decimal(a).drop_last());
        assert(decimal(b / 10) =~= decimal(b).drop_last());
        law_decimal_is_injective(a / 10, b / 10);
    }
}

/// A decimal number shows where it ends: if two texts are the same, and each is a number and then
/// something that starts with no digit, the numbers are the same and so is what follows.
pub proof fn law_decimal_shows_its_end(a: nat, x: Seq<char>, b: nat, y: Seq<char>)
    requires
        decimal(a) + x == decimal(b) + y,
        x.len() > 0 && !is_decimal_digit(x[0]),
        y.len() > 0 && !is_decimal_digit(y[0]),
    ensures
        a == b,
        x == y,
{
    let whole = decimal(a) + x;
    lemma_decimal_is_digits(a);
    lemma_decimal_is_digits(b);
    let (m, n) = (decimal(a).len() as int, decimal(b).len() as int);
    assert(whole[m] == x[0] && whole[n] == y[0]);
    if m < n {
        assert(whole[m] == decimal(b)[m]);
    } else if n < m {
        assert(whole[n] == decimal(a)[n]);
    }
    assert(decimal(a) =~= whole.take(m));
    assert(decimal(b) =~= whole.take(n));
    assert(x =~= whole.skip(m));
    assert(y =~= whole.skip(n));
    law_decimal_is_injective(a, b);
}

/// A value in a JSON object.
pub enum JsonValue {
    Text(Seq<char>),
    Number(nat),
    /// A value that is in JSON already.
    Json(Seq<char>),
}

/// The JSON of a value.
pub open spec fn value_json(value: JsonValue) -> Seq<char> {
    match value {
        JsonValue::Text(text) => json_string(text),
        JsonValue::Number(number) => decimal(number),
        JsonValue::Json(json) => json,
    }
}

/// A member of an object: its name in quotes, a colon and its value.
pub open spec fn member_json(member: (Seq<char>, JsonValue)) -> Seq<char> {
    seq!['"'] + member.0 + seq!['"', ':'] + value_json(member.1)
}

/// Parts with commas between them.
pub open spec fn joined(parts: Seq<Seq<char>>) -> Seq<char>
    decreases parts.len(),
{
    if parts.len() == 0 {
        Seq::empty()
    } else if parts.len() == 1 {
        parts[0]
    } else {
        joined(parts.drop_last()) + seq![','] + parts.last()
    }
}

/// The JSON of members, with commas between them.
pub open spec fn members_json(members: Seq<(Seq<char>, JsonValue)>) -> Seq<char> {
    joined(Seq::new(members.len(), |i: int| member_json(members[i])))
}

/// A JSON object with the given members, in order.
pub open spec fn object_json(members: Seq<(Seq<char>, JsonValue)>) -> Seq<char> {
    seq!['{'] + members_json(members) + seq!['}']
}

/// One more member is written behind a comma.
pub proof fn lemma_one_more_member(
    members: Seq<(Seq<char>, JsonValue)>,
    member: (Seq<char>, JsonValue),
)
    ensures
        members_json(members.push(member)) == (if members.len() == 0 {
            member_json(member)
        } else {
            members_json(members) + seq![','] + member_json(member)
        }),
{
    let parts = Seq::new(members.len(), |i: int| member_json(members[i]));
    let more = Seq::new(
        members.push(member).len(),
        |i: int| member_json(members.push(member)[i]),
    );
    assert(more.drop_last() =~= parts);
    assert(more.last() == member_json(member));
}

/// An object that is written up to some of its members goes on with the next one's key and value.
pub proof fn lemma_object_goes_on(
    text: Seq<char>,
    members: Seq<(Seq<char>, JsonValue)>,
    key: Seq<char>,
    member: (Seq<char>, JsonValue),
)
    requires
        members.len() > 0,
        text == seq!['{'] + members_json(members),
        key == seq![',', '"'] + member.0 + seq!['"', ':'],
    ensures
        text + key + value_json(member.1) == seq!['{'] + members_json(members.push(member)),
{
    lemma_one_more_member(members, member);
    assert(text + key + value_json(member.1) =~= seq!['{'] + members_json(members.push(member)));
}

/// The first part is followed by a comma and the others.
proof fn lemma_joined_from_the_front(parts: Seq<Seq<char>>)
    requires
        parts.len() > 1,
    ensures
        joined(parts) == parts[0] + seq![','] + joined(parts.drop_first()),
    decreases parts.len(),
{
    if parts.len() == 2 {
        assert(parts.drop_last().len() == 1);
        assert(joined(parts.drop_last()) == parts[0]);
        assert(joined(parts.drop_first()) == parts[1]);
    } else {
        lemma_joined_from_the_front(parts.drop_last());
        assert(parts.drop_last().drop_first() =~= parts.drop_first().drop_last());
        assert(joined(parts) =~= parts[0] + seq![','] + joined(parts.drop_first()));
    }
}

/// Whether two lists of members have the same names and the same kinds of value.
pub open spec fn same_shape(
    a: Seq<(Seq<char>, JsonValue)>,
    b: Seq<(Seq<char>, JsonValue)>,
) -> bool {
    &&& a.len() == b.len()
    &&& forall|i: int|
        0 <= i < a.len() ==> (#[trigger] a[i]).0 == b[i].0 && match (a[i].1, b[i].1) {
            (JsonValue::Text(_), JsonValue::Text(_)) => true,
            (JsonValue::Number(_), JsonValue::Number(_)) => true,
            _ => false,
        }
}

/// A member shows where it ends, if something that is no digit follows it.
proof fn lemma_member_shows_its_end(
    a: (Seq<char>, JsonValue),
    x: Seq<char>,
    b: (Seq<char>, JsonValue),
    y: Seq<char>,
)
    requires
        member_json(a) + x == member_json(b) + y,
        x.len() > 0 && !is_decimal_digit(x[0]),
        y.len() > 0 && !is_decimal_digit(y[0]),
        a.0 == b.0,
        a.1 is Text && b.1 is Text || a.1 is Number && b.1 is Number,
    ensures
        a == b,
        x == y,
{
    let whole = member_json(a) + x;
    let start = a.0.len() as int + 3;
    assert(value_json(a.1) + x =~= whole.skip(start));
    assert(value_json(b.1) + y =~= whole.skip(start));
    if a.1 is Text {
        law_json_string_shows_its_end(a.1->Text_0, x, b.1->Text_0, y);
    } else {
        law_decimal_shows_its_end(a.1->Number_0, x, b.1->Number_0, y);
    }
}

proof fn lemma_members_tell_themselves(
    a: Seq<(Seq<char>, JsonValue)>,
    b: Seq<(Seq<char>, JsonValue)>,
)
    requires
        same_shape(a, b),
        a.len() > 0,
        members_json(a) + seq!['}'] == members_json(b) + seq!['}'],
    ensures
        a == b,
    decreases a.len(),
{
    let whole = members_json(a) + seq!['}'];
    let (first, other_first) = (a[0], b[0]);
    let (rest, other_rest) = (a.drop_first(), b.drop_first());
    let parts = Seq::new(a.len(), |i: int| member_json(a[i]));
    let other_parts = Seq::new(b.len(), |i: int| member_json(b[i]));
    if a.len() == 1 {
        lemma_member_shows_its_end(first, seq!['}'], other_first, seq!['}']);
        assert(a =~= b);
    } else {
        lemma_joined_from_the_front(parts);
        lemma_joined_from_the_front(other_parts);
        assert(parts.drop_first() =~= Seq::new(rest.len(), |i: int| member_json(rest[i])));
        assert(other_parts.drop_first() =~= Seq::new(
            other_rest.len(),
            |i: int| member_json(other_rest[i]),
        ));
        let follows = seq![','] + members_json(rest) + seq!['}'];
        let other_follows = seq![','] + members_json(other_rest) + seq!['}'];
        assert(member_json(first) + follows =~= whole);
        assert(member_json(other_first) + other_follows =~= whole);
        lemma_member_shows_its_end(first, follows, other_first, other_follows);
        assert(members_json(rest) + seq!['}'] =~= follows.skip(1));
        assert(members_json(other_rest) + seq!['}'] =~= other_follows.skip(1));
        assert forall|i: int| 0 <= i < rest.len() implies (#[trigger] rest[i]).0 == other_rest[i].0
            && match (rest[i].1, other_rest[i].1) {
            (JsonValue::Text(_), JsonValue::Text(_)) => true,
            (JsonValue::Number(_), JsonValue::Number(_)) => true,
            _ => false,
        } by {
            assert(rest[i] == a[i + 1] && other_rest[i] == b[i + 1]);
        }
        lemma_members_tell_themselves(rest, other_rest);
        assert(a =~= seq![first] + rest);
        assert(b =~= seq![other_first] + other_rest);
    }
}

/// An object of texts and numbers tells its members: two such objects with the same names that are
/// the same text have the same values.
pub proof fn law_object_tells_its_members(
    a: Seq<(Seq<char>, JsonValue)>,
    b: Seq<(Seq<char>, JsonValue)>,
)
    requires
        same_shape(a, b),
        object_json(a) == object_json(b),
    ensures
        a == b,
{
    if a.len() > 0 {
        assert(members_json(a) + seq!['}'] =~= object_json(a).skip(1));
        assert(members_json(b) + seq!['}'] =~= object_json(b).skip(1));
        lemma_members_tell_themselves(a, b);
    } else {
        assert(a =~= b);
    }
}

} // verus!
