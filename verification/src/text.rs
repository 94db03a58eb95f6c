//! Lists and numbers in plain text.
use vstd::prelude::*;
use vstd::string::StrSliceExecFns;

use crate::json;
use crate::protocol;

verus! {

/// The number of characters before the first comma, or of all if there is none.
pub open spec fn comma(text: Seq<char>) -> nat
    decreases text.len(),
{
    if text.len() == 0 || text[0] == ',' {
        0
    } else {
        1 + comma(text.drop_first())
    }
}

/// A position is that of the first comma if no comma stands before it and either a comma or the
/// end of the text stands at it.
pub proof fn lemma_comma(text: Seq<char>, end: int)
    requires
        0 <= end <= text.len(),
        forall|i: int| 0 <= i < end ==> text[i] != ',',
        end < text.len() ==> text[end] == ',',
    ensures
        comma(text) == end,
    decreases text.len(),
{
    if end > 0 {
        lemma_comma(text.drop_first(), end - 1);
    }
}

/// The text without the blanks around it.
pub open spec fn trimmed(text: Seq<char>, blank: spec_fn(char) -> bool) -> Seq<char>
    decreases text.len(),
{
    if text.len() > 0 && blank(text[0]) {
        trimmed(text.drop_first(), blank)
    } else if text.len() > 0 && blank(text.last()) {
        trimmed(text.drop_last(), blank)
    } else {
        text
    }
}

/// The items of a comma-separated list, each without the blanks around it.
pub open spec fn list_items(text: Seq<char>, blank: spec_fn(char) -> bool) -> Seq<Seq<char>>
    decreases text.len(),
{
    let end = comma(text);
    if end >= text.len() {
        seq![trimmed(text, blank)]
    } else {
        seq![trimmed(text.take(end as int), blank)] + list_items(
            text.skip(end as int + 1),
            blank,
        )
    }
}

/// The characters of `text`.
pub fn characters(text: &str) -> (characters: Vec<char>)
    ensures
        characters@ == text@,
{
    let mut characters: Vec<char> = Vec::new();
    for c in iter: text.chars()
        invariant
            iter.seq() == text@,
            characters@ == iter.seq().take(iter.index() as int),
    {
        characters.push(c);
    }
    characters
}

/// The same texts once more.
pub fn copy_texts(texts: &Vec<String>) -> (copy: Vec<String>)
    ensures
        copy@ == texts@,
{
    let mut copy: Vec<String> = Vec::new();
    let mut i: usize = 0;
    while i < texts.len()
        invariant
            i <= texts@.len(),
            copy@ == texts@.take(i as int),
        decreases texts@.len() - i,
    {
        copy.push(texts[i].clone());
        i = i + 1;
    }
    copy
}

/// Whether `c` is white space in Unicode.
pub open spec fn is_white_space(c: char) -> bool {
    ||| '\t' <= c <= '\r'
    ||| c == ' '
    ||| c == '\u{85}'
    ||| c == '\u{a0}'
    ||| c == '\u{1680}'
    ||| '\u{2000}' <= c <= '\u{200a}'
    ||| c == '\u{2028}'
    ||| c == '\u{2029}'
    ||| c == '\u{202f}'
    ||| c == '\u{205f}'
    ||| c == '\u{3000}'
}

/// Whether `c` is white space in Unicode.
pub fn white_space(c: char) -> (white: bool)
    ensures
        white == is_white_space(c),
{
    ('\t' <= c && c <= '\r') || c == ' ' || c == '\u{85}' || c == '\u{a0}' || c == '\u{1680}' || (
    '\u{2000}' <= c && c <= '\u{200a}') || c == '\u{2028}' || c == '\u{2029}' || c == '\u{202f}' || c
        == '\u{205f}' || c == '\u{3000}'
}

/// The items of a comma-separated list that are not empty, each without the white space around
/// it.
pub open spec fn nonempty_items(text: Seq<char>) -> Seq<Seq<char>> {
    list_items(text, |c: char| is_white_space(c)).filter(|item: Seq<char>| item.len() > 0)
}

/// One more item adds itself to the nonempty items if it is not empty.
proof fn lemma_filter_one_more(items: Seq<Seq<char>>, item: Seq<char>)
    ensures
        items.push(item).filter(|item: Seq<char>| item.len() > 0) == (if item.len() > 0 {
            items.filter(|item: Seq<char>| item.len() > 0).push(item)
        } else {
            items.filter(|item: Seq<char>| item.len() > 0)
        }),
{
    reveal(Seq::filter);
    assert(items.push(item).drop_last() =~= items);
}

/// Trimming a stretch of a text gives the stretch between its first and its last character that
/// are not blank.
proof fn lemma_trimmed_stretch(text: Seq<char>, blank: spec_fn(char) -> bool, from: int, to: int)
    requires
        0 <= from <= to <= text.len(),
        forall|i: int| 0 <= i < from ==> blank(text[i]),
        forall|i: int| to <= i < text.len() ==> blank(text[i]),
        from < to ==> !blank(text[from]) && !blank(text[to - 1]),
    ensures
        trimmed(text, blank) == text.subrange(from, to),
    decreases text.len(),
{
    if from > 0 {
        lemma_trimmed_stretch(text.drop_first(), blank, from - 1, to - 1);
        assert(text.drop_first().subrange(from - 1, to - 1) =~= text.subrange(from, to));
    } else if to < text.len() {
        if text.len() > 0 && blank(text[0]) {
            assert(to == 0);
            lemma_trimmed_stretch(text.drop_first(), blank, 0, 0);
            assert(text.drop_first().subrange(0, 0) =~= text.subrange(0, 0));
        } else {
            lemma_trimmed_stretch(text.drop_last(), blank, from, to);
            assert(text.drop_last().subrange(from, to) =~= text.subrange(from, to));
        }
    } else {
        assert(text.subrange(from, to) =~= text);
    }
}

/// The first item of a list ends at the first comma, and the others follow it.
proof fn lemma_list_items_split(
    before: Seq<Seq<char>>,
    rest: Seq<char>,
    end: int,
    blank: spec_fn(char) -> bool,
)
    requires
        0 <= end < rest.len(),
        comma(rest) == end,
    ensures
        before + list_items(rest, blank) == before.push(trimmed(rest.take(end), blank))
            + list_items(rest.skip(end + 1), blank),
{
    assert(before + list_items(rest, blank) =~= before.push(trimmed(rest.take(end), blank))
        + list_items(rest.skip(end + 1), blank));
}

/// The items of a comma-separated list that are not empty, each without the white space around
/// it.
pub fn split_nonempty(text: &str) -> (items: Vec<String>)
    ensures
        protocol::texts(items@) == nonempty_items(text@),
{
    let ghost blank = |c: char| is_white_space(c);
    let ghost nonempty = |item: Seq<char>| item.len() > 0;
    let characters = characters(text);
    let mut items: Vec<String> = Vec::new();
    let ghost mut before = Seq::<Seq<char>>::empty();
    let mut start: usize = 0;
    assert(before.filter(nonempty) =~= Seq::empty()) by {
        reveal(Seq::filter);
    }
    assert(text@.skip(0) =~= text@);
    assert(before + list_items(text@, blank) =~= list_items(text@, blank));
    loop
        invariant
            start <= characters@.len(),
            characters@ == text@,
            blank == |c: char| is_white_space(c),
            nonempty == |item: Seq<char>| item.len() > 0,
            protocol::texts(items@) == before.filter(nonempty),
            before + list_items(text@.skip(start as int), blank) == list_items(text@, blank),
        decreases characters@.len() - start,
    {
        let ghost rest = text@.skip(start as int);
        let mut end: usize = start;
        while end < characters.len() && characters[end] != ','
            invariant
                start <= end <= characters@.len(),
                forall|i: int| start <= i < end ==> characters@[i] != ',',
            decreases characters@.len() - end,
        {
            end = end + 1;
        }
        let ghost item = rest.take(end - start);
        proof {
            lemma_comma(rest, end - start);
        }
        let mut from: usize = start;
        while from < end && white_space(characters[from])
            invariant
                start <= from <= end <= characters@.len(),
                forall|i: int| start <= i < from ==> is_white_space(characters@[i]),
            decreases end - from,
        {
            from = from + 1;
        }
        let mut to: usize = end;
        while from < to && white_space(characters[to - 1])
            invariant
                start <= from <= to <= end <= characters@.len(),
                forall|i: int| to <= i < end ==> is_white_space(characters@[i]),
            decreases to - from,
        {
            to = to - 1;
        }
        let ghost stretch = text@.subrange(from as int, to as int);
        proof {
            lemma_trimmed_stretch(item, blank, from - start, to - start);
            assert(item.subrange(from - start, to - start) =~= stretch);
            lemma_filter_one_more(before, stretch);
        }
        let ghost texts_before = protocol::texts(items@);
        if from < to {
            items.push(text.substring_char(from, to).to_owned());
            assert(protocol::texts(items@) =~= texts_before.push(stretch));
        }
        if end == characters.len() {
            proof {
                assert(rest.take(end - start) =~= rest);
                assert(before + list_items(rest, blank) =~= before.push(stretch));
            }
            return items;
        }
        proof {
            lemma_list_items_split(before, rest, end - start, blank);
            assert(rest.skip(end - start + 1) =~= text@.skip(end + 1));
            before = before.push(stretch);
        }
        start = end + 1;
    }
}

/// Whether `c` is a decimal digit.
pub open spec fn is_digit(c: char) -> bool {
    '0' <= c <= '9'
}

/// The number that decimal digits spell.
pub open spec fn digits_value(digits: Seq<char>) -> nat
    decreases digits.len(),
{
    if digits.len() == 0 {
        0
    } else {
        (digits_value(digits.drop_last()) * 10 + (digits.last() as int - '0' as int)) as nat
    }
}

/// The digits of a number, without the plus sign that may stand before them.
pub open spec fn unsigned(text: Seq<char>) -> Seq<char> {
    if text.len() > 0 && text[0] == '+' {
        text.drop_first()
    } else {
        text
    }
}

/// The number that `text` spells: one or more decimal digits, after a plus sign or none, and no
/// more than `max`.
pub open spec fn number(text: Seq<char>, max: nat) -> Option<nat> {
    let digits = unsigned(text);
    if digits.len() > 0 && (forall|i: int| 0 <= i < digits.len() ==> is_digit(#[trigger] digits[i]))
        && digits_value(digits) <= max {
        Some(digits_value(digits))
    } else {
        None
    }
}

/// More digits never spell a smaller number.
proof fn lemma_digits_value_grows(digits: Seq<char>, count: int)
    requires
        0 <= count <= digits.len(),
        forall|i: int| 0 <= i < digits.len() ==> is_digit(#[trigger] digits[i]),
    ensures
        digits_value(digits.take(count)) <= digits_value(digits),
    decreases digits.len(),
{
    if count < digits.len() {
        assert(is_digit(digits[digits.len() - 1]));
        lemma_digits_value_grows(digits.drop_last(), count);
        assert(digits.drop_last().take(count) =~= digits.take(count));
    } else {
        assert(digits.take(count) =~= digits);
    }
}

/// The number that `text` spells, if it spells one that is no more than `max`.
pub fn parse_number(text: &str, max: u64) -> (parsed: Option<u64>)
    ensures
        number(text@, max as nat) == (match parsed {
            Some(parsed) => Some(parsed as nat),
            None => None,
        }),
{
    let characters = characters(text);
    let start: usize = if characters.len() > 0 && characters[0] == '+' {
        1
    } else {
        0
    };
    let ghost digits = unsigned(text@);
    assert(digits =~= text@.skip(start as int));
    if start == characters.len() {
        return None;
    }
    let mut value: u64 = 0;
    let mut i: usize = start;
    while i < characters.len()
        invariant
            start <= i <= characters@.len(),
            characters@ == text@,
            digits == unsigned(text@),
            digits == text@.skip(start as int),
            value <= max,
            value == digits_value(digits.take(i - start)),
            forall|j: int| 0 <= j < i - start ==> is_digit(#[trigger] digits[j]),
        decreases characters@.len() - i,
    {
        let c: char = characters[i];
        let ghost at = i - start;
        assert(digits[at] == c);
        if c < '0' || '9' < c {
            assert(!is_digit(digits[at]));
            return None;
        }
        let digit: u64 = c as u64 - '0' as u64;
        assert(digits.take(at + 1).drop_last() =~= digits.take(at));
        assert(digits_value(digits.take(at + 1)) == value * 10 + digit);
        if value as u128 * 10 + digit as u128 > max as u128 {
            proof {
                if forall|j: int| 0 <= j < digits.len() ==> is_digit(#[trigger] digits[j]) {
                    lemma_digits_value_grows(digits, at + 1);
                }
            }
            return None;
        }
        value = value * 10 + digit;
        i = i + 1;
    }
    assert(digits.take(i - start) =~= digits);
    Some(value)
}

/// `c` as a lowercase letter if it is an uppercase ASCII letter.
pub open spec fn lowercase(c: char) -> char {
    if 'A' <= c <= 'Z' {
        (c as int - 'A' as int + 'a' as int) as char
    } else {
        c
    }
}

/// Whether two texts are the same but for the case of ASCII letters.
pub open spec fn same_ignoring_case(a: Seq<char>, b: Seq<char>) -> bool {
    &&& a.len() == b.len()
    &&& forall|i: int| 0 <= i < a.len() ==> lowercase(#[trigger] a[i]) == lowercase(b[i])
}

/// The number of `c`, or of its lowercase letter if it is an uppercase ASCII letter.
fn lowercase_code(c: char) -> (code: u32)
    ensures
        code == lowercase(c) as u32,
{
    if 'A' <= c && c <= 'Z' {
        c as u32 - 'A' as u32 + 'a' as u32
    } else {
        c as u32
    }
}

/// Whether two texts are the same but for the case of ASCII letters.
pub fn eq_ignore_ascii_case(a: &str, b: &str) -> (same: bool)
    ensures
        same == same_ignoring_case(a@, b@),
{
    let left = characters(a);
    let right = characters(b);
    if left.len() != right.len() {
        return false;
    }
    let mut i: usize = 0;
    while i < left.len()
        invariant
            i <= left@.len() == right@.len(),
            left@ == a@,
            right@ == b@,
            forall|j: int| 0 <= j < i ==> lowercase(#[trigger] a@[j]) == lowercase(b@[j]),
        decreases left@.len() - i,
    {
        if lowercase_code(left[i]) != lowercase_code(right[i]) {
            assert(lowercase(a@[i as int]) != lowercase(b@[i as int]));
            return false;
        }
        i = i + 1;
    }
    true
}

/// White space is exactly the twenty-five characters that Unicode says are.
pub proof fn law_white_space_characters(c: char)
    ensures
        ({
            let code = c as int;
            is_white_space(c) <==> {
                ||| 9 <= code <= 13
                ||| code == 32 || code == 133 || code == 160 || code == 5760
                ||| 8192 <= code <= 8202
                ||| code == 8232 || code == 8233 || code == 8239 || code == 8287 || code == 12288
            }
        }),
{
}

/// Two texts stay the same but for the case of ASCII letters exactly if the next characters are the
/// same, or are one letter from A to Z in both its cases.
pub proof fn law_case_is_all_that_may_differ(a: Seq<char>, b: Seq<char>, x: char, y: char)
    ensures
        same_ignoring_case(Seq::empty(), Seq::empty()),
        same_ignoring_case(a, b) ==> a.len() == b.len(),
        a.len() == b.len() ==> (same_ignoring_case(a.push(x), b.push(y)) <==> same_ignoring_case(
            a,
            b,
        ) && (x == y || (65 <= x as int <= 90 && y as int == x as int + 32) || (65 <= y as int <= 90
            && x as int == y as int + 32))),
{
    if a.len() == b.len() {
        let (more, other) = (a.push(x), b.push(y));
        let n = a.len() as int;
        assert(more[n] == x && other[n] == y);
        if same_ignoring_case(more, other) {
            assert(lowercase(more[n]) == lowercase(other[n]));
            assert forall|i: int| 0 <= i < a.len() implies lowercase(#[trigger] a[i]) == lowercase(
                b[i],
            ) by {
                assert(lowercase(more[i]) == lowercase(other[i]));
            }
        }
        if same_ignoring_case(a, b) && lowercase(x) == lowercase(y) {
            assert forall|i: int| 0 <= i < more.len() implies lowercase(#[trigger] more[i])
                == lowercase(other[i]) by {
                if i < a.len() {
                    assert(lowercase(a[i]) == lowercase(b[i]));
                }
            }
        }
    }
}

/// `count` zeros.
pub open spec fn zeros(count: nat) -> Seq<char> {
    Seq::new(count, |i: int| '0')
}

proof fn lemma_zeros_spell_nothing(count: nat)
    ensures
        digits_value(zeros(count)) == 0,
    decreases count,
{
    if count > 0 {
        lemma_zeros_spell_nothing((count - 1) as nat);
        assert(zeros(count).drop_last() =~= zeros((count - 1) as nat));
    }
}

proof fn lemma_padded_decimal(count: nat, n: nat)
    ensures
        digits_value(zeros(count) + json::decimal(n)) == n,
        json::decimal(n).len() > 0,
        forall|i: int|
            0 <= i < json::decimal(n).len() ==> is_digit(#[trigger] json::decimal(n)[i]),
    decreases n,
{
    let text = zeros(count) + json::decimal(n);
    if n < 10 {
        lemma_zeros_spell_nothing(count);
        assert(text.drop_last() =~= zeros(count));
        assert(text.last() == json::digit(n as int));
    } else {
        lemma_padded_decimal(count, n / 10);
        assert(text.drop_last() =~= zeros(count) + json::decimal(n / 10));
        assert(text.last() == json::digit(n as int % 10));
    }
}

/// A number is read as what its decimal digits say, whatever it is: with any number of zeros before
/// them, and with a plus sign or none. A number that is too large is none.
pub proof fn law_decimal_text_is_read_back(n: nat, count: nat, max: nat)
    ensures
        number(zeros(count) + json::decimal(n), max) == (if n <= max {
            Some(n)
        } else {
            None
        }),
        number(seq!['+'] + zeros(count) + json::decimal(n), max) == (if n <= max {
            Some(n)
        } else {
            None
        }),
{
    lemma_padded_decimal(count, n);
    let digits = zeros(count) + json::decimal(n);
    assert forall|i: int| 0 <= i < digits.len() implies is_digit(#[trigger] digits[i]) by {
        if i >= count {
            assert(digits[i] == json::decimal(n)[i - count]);
        }
    }
    assert(is_digit(digits[0]));
    assert(unsigned(digits) == digits);
    let signed = seq!['+'] + zeros(count) + json::decimal(n);
    assert(signed.drop_first() =~= digits);
    assert(unsigned(signed) == digits);
}

/// Only decimal digits are read as a number, at least one of them, after at most one plus sign.
pub proof fn law_only_digits_are_read(text: Seq<char>, max: nat)
    ensures
        number(text, max) matches Some(n) ==> {
            &&& n <= max
            &&& text.len() > 0
            &&& 48 <= text.last() as int <= 57
            &&& 48 <= text[0] as int <= 57 || text[0] as int == 43 && text.len() > 1
            &&& forall|i: int| 1 <= i < text.len() ==> 48 <= #[trigger] text[i] as int <= 57
        },
{
    if number(text, max) is Some {
        let digits = unsigned(text);
        assert(is_digit(digits[0]) && is_digit(digits[digits.len() - 1]));
        assert forall|i: int| 1 <= i < text.len() implies 48 <= #[trigger] text[i] as int <= 57 by {
            if text[0] == '+' {
                assert(is_digit(digits[i - 1]));
            } else {
                assert(is_digit(digits[i]));
            }
        }
    }
}

/// An item of a list with the white space around it.
pub struct PaddedItem {
    pub before: Seq<char>,
    pub item: Seq<char>,
    pub after: Seq<char>,
}

impl PaddedItem {
    /// The item as it stands in the list.
    pub open spec fn text(self) -> Seq<char> {
        self.before + self.item + self.after
    }

    /// Whether this is an item: nothing but white space stands around it, no white space at its ends,
    /// and no comma in it.
    pub open spec fn wf(self) -> bool {
        &&& forall|i: int| 0 <= i < self.before.len() ==> is_white_space(#[trigger] self.before[i])
        &&& forall|i: int| 0 <= i < self.after.len() ==> is_white_space(#[trigger] self.after[i])
        &&& !self.item.contains(',')
        &&& self.item.len() > 0 ==> !is_white_space(self.item[0]) && !is_white_space(
            self.item.last(),
        )
    }
}

/// A list as it is written: its items with the white space around them, separated by commas.
pub open spec fn written(items: Seq<PaddedItem>) -> Seq<char>
    decreases items.len(),
{
    if items.len() == 0 {
        Seq::empty()
    } else if items.len() == 1 {
        items[0].text()
    } else {
        items[0].text() + seq![','] + written(items.drop_first())
    }
}

/// The items of a written list that are not empty, in order.
pub open spec fn items_with_text(items: Seq<PaddedItem>) -> Seq<Seq<char>>
    decreases items.len(),
{
    if items.len() == 0 {
        Seq::empty()
    } else {
        let rest = items_with_text(items.drop_first());
        if items[0].item.len() > 0 {
            seq![items[0].item] + rest
        } else {
            rest
        }
    }
}

proof fn lemma_padding_is_trimmed(item: PaddedItem)
    requires
        item.wf(),
    ensures
        trimmed(item.text(), |c: char| is_white_space(c)) == item.item,
        forall|i: int| 0 <= i < item.text().len() ==> item.text()[i] != ',',
{
    let blank = |c: char| is_white_space(c);
    let text = item.text();
    let (from, to) = (item.before.len() as int, (item.before + item.item).len() as int);
    assert forall|i: int| 0 <= i < text.len() implies text[i] != ',' by {
        if i < from {
            assert(is_white_space(item.before[i]));
        } else if i < to {
            assert(item.item.contains(item.item[i - from]));
        } else {
            assert(is_white_space(item.after[i - to]));
        }
    }
    assert forall|i: int| 0 <= i < from implies blank(text[i]) by {
        assert(is_white_space(item.before[i]));
    }
    assert forall|i: int| to <= i < text.len() implies blank(text[i]) by {
        assert(is_white_space(item.after[i - to]));
    }
    lemma_trimmed_stretch(text, blank, from, to);
    assert(text.subrange(from, to) =~= item.item);
}

proof fn lemma_filter_from_the_front(first: Seq<char>, rest: Seq<Seq<char>>)
    ensures
        (seq![first] + rest).filter(|item: Seq<char>| item.len() > 0) == (if first.len() > 0 {
            seq![first] + rest.filter(|item: Seq<char>| item.len() > 0)
        } else {
            rest.filter(|item: Seq<char>| item.len() > 0)
        }),
    decreases rest.len(),
{
    let nonempty = |item: Seq<char>| item.len() > 0;
    reveal(Seq::filter);
    let all = seq![first] + rest;
    if rest.len() == 0 {
        assert(all.drop_last() =~= Seq::empty());
        assert(all.last() == first);
        assert(all.drop_last().filter(nonempty) =~= Seq::empty());
        assert(rest.filter(nonempty) =~= Seq::empty());
        assert(all.filter(nonempty) =~= if first.len() > 0 {
            seq![first]
        } else {
            Seq::empty()
        });
    } else {
        lemma_filter_from_the_front(first, rest.drop_last());
        assert(all.drop_last() =~= seq![first] + rest.drop_last());
        assert(all.last() == rest.last());
        assert(all.filter(nonempty) =~= if first.len() > 0 {
            seq![first] + rest.filter(nonempty)
        } else {
            rest.filter(nonempty)
        });
    }
}

/// A list that was written down is read back: every item that is not empty, in order, without the
/// white space around it and with all that it has in itself.
pub proof fn law_written_list_is_read_back(items: Seq<PaddedItem>)
    requires
        items.len() > 0,
        forall|i: int| 0 <= i < items.len() ==> (#[trigger] items[i]).wf(),
    ensures
        nonempty_items(written(items)) == items_with_text(items),
    decreases items.len(),
{
    let blank = |c: char| is_white_space(c);
    let nonempty = |item: Seq<char>| item.len() > 0;
    let text = written(items);
    let first = items[0].text();
    lemma_padding_is_trimmed(items[0]);
    if items.len() == 1 {
        lemma_comma(text, text.len() as int);
        assert(list_items(text, blank) =~= seq![items[0].item] + Seq::empty());
        lemma_filter_from_the_front(items[0].item, Seq::empty());
        assert(Seq::<Seq<char>>::empty().filter(nonempty) =~= Seq::empty()) by {
            reveal(Seq::filter);
        }
        assert(items_with_text(items.drop_first()) =~= Seq::empty());
    } else {
        let rest = items.drop_first();
        assert forall|i: int| 0 <= i < rest.len() implies (#[trigger] rest[i]).wf() by {
            assert(rest[i] == items[i + 1]);
        }
        law_written_list_is_read_back(rest);
        assert forall|i: int| 0 <= i < first.len() implies text[i] != ',' by {
            assert(text[i] == first[i]);
        }
        lemma_comma(text, first.len() as int);
        assert(text.take(first.len() as int) =~= first);
        assert(text.skip(first.len() as int + 1) =~= written(rest));
        lemma_filter_from_the_front(items[0].item, list_items(written(rest), blank));
    }
}

} // verus!
