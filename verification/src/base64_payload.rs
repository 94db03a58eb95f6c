//! Packet payloads as they stand in a JSON envelope: standard padded base64.
use base64::Engine;
use vstd::prelude::*;

verus! {

/// The character of the standard alphabet that stands for a number below sixty-four.
pub open spec fn base64_digit(number: int) -> char {
    if number < 26 {
        (number + 'A' as int) as char
    } else if number < 52 {
        (number - 26 + 'a' as int) as char
    } else if number < 62 {
        (number - 52 + '0' as int) as char
    } else if number == 62 {
        '+'
    } else {
        '/'
    }
}

/// The four characters that stand for one, two or three bytes: the bytes, with zeros in place of
/// those that are missing, spell a number whose four base-64 digits are written down. A digit that
/// no byte reaches into is written as padding.
pub open spec fn base64_group(bytes: Seq<u8>) -> Seq<char> {
    let second = if bytes.len() > 1 {
        bytes[1] as int
    } else {
        0
    };
    let third = if bytes.len() > 2 {
        bytes[2] as int
    } else {
        0
    };
    let number = bytes[0] as int * 65536 + second * 256 + third;
    seq![
        base64_digit(number / 262144),
        base64_digit(number / 4096 % 64),
        if bytes.len() > 1 {
            base64_digit(number / 64 % 64)
        } else {
            '='
        },
        if bytes.len() > 2 {
            base64_digit(number % 64)
        } else {
            '='
        },
    ]
}

/// The standard padded base64 text of `bytes`: four characters for every three bytes, and four for
/// what is left.
pub open spec fn base64_text(bytes: Seq<u8>) -> Seq<char>
    decreases bytes.len(),
{
    if bytes.len() == 0 {
        Seq::empty()
    } else if bytes.len() <= 3 {
        base64_group(bytes)
    } else {
        base64_group(bytes.take(3)) + base64_text(bytes.skip(3))
    }
}

/// The bytes whose base64 text is `text`, if it is the text of any.
pub open spec fn base64_bytes(text: Seq<char>) -> Option<Seq<u8>> {
    if exists|bytes: Seq<u8>| #[trigger] base64_text(bytes) == text {
        Some(choose|bytes: Seq<u8>| #[trigger] base64_text(bytes) == text)
    } else {
        None
    }
}

/// How long the base64 text of `length` bytes is: four characters for every three bytes, rounded
/// up.
pub open spec fn base64_length(length: nat) -> nat {
    (length + 2) / 3 * 4
}

/// The decoder's error.
#[verifier::external_type_specification]
#[verifier::external_body]
pub struct ExDecodeError(base64::DecodeError);

/// Calls `base64::Engine::encode` on the `STANDARD` engine: the result is the standard padded
/// base64 text of `bytes`. The call needs room for the text, which an allocation of at most
/// `isize::MAX` bytes must hold.
#[verifier::external_body]
fn encode_standard(bytes: &[u8]) -> (text: String)
    requires
        base64_length(bytes@.len()) <= isize::MAX,
    ensures
        text@ == base64_text(bytes@),
{
    base64::engine::general_purpose::STANDARD.encode(bytes)
}

/// Calls `base64::Engine::decode` on the `STANDARD` engine, which requires canonical padding and no
/// stray bits: it accepts exactly the texts that the engine writes, with the bytes that it writes
/// them for.
#[verifier::external_body]
fn decode_standard(text: &str) -> (decoded: Result<Vec<u8>, base64::DecodeError>)
    ensures
        match decoded {
            Ok(bytes) => base64_text(bytes@) == text@,
            Err(_) => forall|bytes: Seq<u8>| #[trigger] base64_text(bytes) != text@,
        },
{
    base64::engine::general_purpose::STANDARD.decode(text)
}

proof fn lemma_digit_is_injective(a: int, b: int)
    requires
        0 <= a < 64,
        0 <= b < 64,
        base64_digit(a) == base64_digit(b),
    ensures
        a == b,
{
    lemma_digit_code(a);
    lemma_digit_code(b);
}

proof fn lemma_digit_code(number: int)
    requires
        0 <= number < 64,
    ensures
        base64_digit(number) as int == (if number < 26 {
            number + 65
        } else if number < 52 {
            number + 71
        } else if number < 62 {
            number - 4
        } else if number == 62 {
            43
        } else {
            47
        }),
        base64_digit(number) != '=',
{
}

/// Four characters stand for one stretch of bytes only.
proof fn lemma_group_is_injective(a: Seq<u8>, b: Seq<u8>)
    requires
        1 <= a.len() <= 3,
        1 <= b.len() <= 3,
        base64_group(a) == base64_group(b),
    ensures
        a == b,
{
    let (a1, a2) = (
        if a.len() > 1 {
            a[1] as int
        } else {
            0
        },
        if a.len() > 2 {
            a[2] as int
        } else {
            0
        },
    );
    let (b1, b2) = (
        if b.len() > 1 {
            b[1] as int
        } else {
            0
        },
        if b.len() > 2 {
            b[2] as int
        } else {
            0
        },
    );
    let x = a[0] as int * 65536 + a1 * 256 + a2;
    let y = b[0] as int * 65536 + b1 * 256 + b2;
    let (g, h) = (base64_group(a), base64_group(b));
    assert(g[0] == h[0] && g[1] == h[1] && g[2] == h[2] && g[3] == h[3]);
    lemma_digit_code(x / 64 % 64);
    lemma_digit_code(y / 64 % 64);
    lemma_digit_code(x % 64);
    lemma_digit_code(y % 64);
    assert(a.len() == b.len());
    lemma_digit_is_injective(x / 262144, y / 262144);
    lemma_digit_is_injective(x / 4096 % 64, y / 4096 % 64);
    if a.len() > 1 {
        lemma_digit_is_injective(x / 64 % 64, y / 64 % 64);
    }
    if a.len() > 2 {
        lemma_digit_is_injective(x % 64, y % 64);
    }
    assert(a =~= b);
}

/// Two stretches of bytes with the same base64 text are the same.
pub proof fn law_base64_is_injective(a: Seq<u8>, b: Seq<u8>)
    requires
        base64_text(a) == base64_text(b),
    ensures
        a == b,
    decreases a.len(),
{
    lemma_text_length(a);
    lemma_text_length(b);
    if a.len() == 0 || b.len() == 0 {
        assert(a =~= b);
    } else {
        let (first, other_first) = (a.take(shorter_group(a)), b.take(shorter_group(b)));
        let (rest, other_rest) = (a.skip(shorter_group(a)), b.skip(shorter_group(b)));
        lemma_text_from_the_front(a);
        lemma_text_from_the_front(b);
        assert(base64_group(first) =~= base64_text(a).take(4));
        assert(base64_group(other_first) =~= base64_text(b).take(4));
        lemma_group_is_injective(first, other_first);
        assert(base64_text(rest) =~= base64_text(a).skip(4));
        assert(base64_text(other_rest) =~= base64_text(b).skip(4));
        law_base64_is_injective(rest, other_rest);
        assert(a =~= first + rest);
        assert(b =~= other_first + other_rest);
    }
}

/// The number of bytes in the first group.
spec fn shorter_group(bytes: Seq<u8>) -> int {
    if bytes.len() <= 3 {
        bytes.len() as int
    } else {
        3
    }
}

proof fn lemma_text_from_the_front(bytes: Seq<u8>)
    requires
        bytes.len() > 0,
    ensures
        base64_text(bytes) == base64_group(bytes.take(shorter_group(bytes))) + base64_text(
            bytes.skip(shorter_group(bytes)),
        ),
{
    if bytes.len() <= 3 {
        assert(bytes.take(bytes.len() as int) =~= bytes);
        assert(base64_text(bytes.skip(bytes.len() as int)) =~= Seq::empty());
        assert(base64_text(bytes) =~= base64_group(bytes) + Seq::empty());
    }
}

proof fn lemma_text_length(bytes: Seq<u8>)
    ensures
        base64_text(bytes).len() == base64_length(bytes.len()),
    decreases bytes.len(),
{
    if bytes.len() > 3 {
        lemma_text_length(bytes.skip(3));
    }
}

/// Reading the base64 text of some bytes gives the bytes back, and no other text is read as them.
pub proof fn law_base64_round_trip(bytes: Seq<u8>, text: Seq<char>)
    ensures
        base64_bytes(text) == Some(bytes) <==> text == base64_text(bytes),
{
    if text == base64_text(bytes) {
        let read = choose|read: Seq<u8>| #[trigger] base64_text(read) == text;
        law_base64_is_injective(read, bytes);
    }
}

/// The text that stands for `bytes` in a packet envelope.
pub fn serialize(bytes: &[u8]) -> (text: String)
    requires
        base64_length(bytes@.len()) <= isize::MAX,
    ensures
        text@ == base64_text(bytes@),
        base64_bytes(text@) == Some(bytes@),
{
    proof {
        law_base64_round_trip(bytes@, base64_text(bytes@));
    }
    encode_standard(bytes)
}

/// The bytes that `text` stands for in a packet envelope, or the decoder's error if it is not
/// standard padded base64.
pub fn deserialize(text: &str) -> (bytes: Result<Vec<u8>, base64::DecodeError>)
    ensures
        match bytes {
            Ok(bytes) => base64_bytes(text@) == Some(bytes@),
            Err(_) => base64_bytes(text@) is None,
        },
{
    let decoded = decode_standard(text);
    proof {
        if decoded is Ok {
            law_base64_round_trip(decoded->Ok_0@, text@);
        }
    }
    decoded
}

} // verus!
