//! JSON text.

use vstd::prelude::*;

use crate::text::digit_value;

verus! {

/// `serde_json::Value`, a JSON value.
#[verifier::external_type_specification]
#[verifier::external_body]
pub struct ExValue(serde_json::Value);

/// The text of a JSON value, written without blanks.
pub uninterp spec fn json_text(value: serde_json::Value) -> Seq<char>;

/// A hexadecimal digit, in lower case.
pub open spec fn hex_digit(d: int) -> char {
    if d < 10 {
        (0x30 + d) as char
    } else {
        (0x61 + d - 10) as char
    }
}

/// How `c` is written in a JSON string.
pub open spec fn json_char(c: char) -> Seq<char> {
    if c == '"' || c == '\\' {
        seq!['\\', c]
    } else if c as u32 == 0x08 {
        seq!['\\', 'b']
    } else if c as u32 == 0x09 {
        seq!['\\', 't']
    } else if c as u32 == 0x0a {
        seq!['\\', 'n']
    } else if c as u32 == 0x0c {
        seq!['\\', 'f']
    } else if c as u32 == 0x0d {
        seq!['\\', 'r']
    } else if (c as u32) < 0x20 {
        seq!['\\', 'u', '0', '0', hex_digit(c as int / 16), hex_digit(c as int % 16)]
    } else {
        seq![c]
    }
}

/// How `s` is written in a JSON string, between the quotes.
pub open spec fn json_escaped(s: Seq<char>) -> Seq<char>
    decreases s.len(),
{
    if s.len() == 0 {
        Seq::empty()
    } else {
        json_char(s[0]) + json_escaped(s.skip(1))
    }
}

/// The JSON string that stands for `s`.
pub open spec fn json_string(s: Seq<char>) -> Seq<char> {
    seq!['"'] + json_escaped(s) + seq!['"']
}

/// `items` with commas between them.
pub open spec fn listed(items: Seq<Seq<char>>) -> Seq<char>
    decreases items.len(),
{
    if items.len() == 0 {
        Seq::empty()
    } else if items.len() == 1 {
        items[0]
    } else {
        listed(items.drop_last()) + seq![','] + items.last()
    }
}

/// The JSON array of the values with the texts `items`.
pub open spec fn json_array(items: Seq<Seq<char>>) -> Seq<char> {
    seq!['['] + listed(items) + seq![']']
}

/// The JSON object with `members`, each a key and the text of its value.
pub open spec fn json_object(members: Seq<(Seq<char>, Seq<char>)>) -> Seq<char> {
    seq!['{'] + listed(
        members.map_values(
            |member: (Seq<char>, Seq<char>)| json_string(member.0) + seq![':'] + member.1,
        ),
    ) + seq!['}']
}

/// Whether `a` comes before `b` in the order of strings, by code points.
pub open spec fn comes_before(a: Seq<char>, b: Seq<char>) -> bool {
    exists|at: int|
        0 <= at <= a.len() && at < b.len() && #[trigger] a.take(at) == b.take(at) && (at == a.len()
            || a[at] < b[at])
}

/// Makes a `serde_json::Value::String`. Its text is the JSON string that stands for `text`: quotes,
/// backslashes and control characters are escaped, and nothing else is.
#[verifier::external_body]
pub(crate) fn string_value(text: &str) -> (value: serde_json::Value)
    ensures
        json_text(value) == json_string(text@),
{
    serde_json::Value::String(text.to_owned())
}

/// Makes a `serde_json::Value::Array`. Its text lists the items' texts in their order.
#[verifier::external_body]
pub(crate) fn array_value(items: Vec<serde_json::Value>) -> (value: serde_json::Value)
    ensures
        json_text(value) == json_array(
            items@.map_values(|item: serde_json::Value| json_text(item)),
        ),
{
    serde_json::Value::Array(items)
}

/// Makes a `serde_json::Value::Object`. Its map holds the keys in ascending order, which is the
/// order in which the members are given here, so its text lists them in that order.
#[verifier::external_body]
pub(crate) fn object_value(members: Vec<(&str, serde_json::Value)>) -> (value: serde_json::Value)
    requires
        forall|i: int, j: int|
            0 <= i < j < members@.len() ==> comes_before(
                (#[trigger] members@[i]).0@,
                (#[trigger] members@[j]).0@,
            ),
    ensures
        json_text(value) == json_object(
            members@.map_values(
                |member: (&str, serde_json::Value)| (member.0@, json_text(member.1)),
            ),
        ),
{
    serde_json::Value::Object(
        members.into_iter().map(|(key, value)| (key.to_owned(), value)).collect(),
    )
}

/// Calls `serde_json::to_string`, which writes the value without blanks. It fails only where a
/// map's keys are no strings or a value refuses to be written, and a `serde_json::Value` is
/// neither.
#[verifier::external_body]
pub(crate) fn write_json(value: &serde_json::Value) -> (text: Option<String>)
    ensures
        text is Some,
        text->0@ == json_text(*value),
{
    serde_json::to_string(value).ok()
}

/// The character that `\u` and four hexadecimal digits stand for, where they stand for one.
pub open spec fn unicode_escape(digits: Seq<char>) -> Option<char> {
    match (
        digit_value(digits[0]),
        digit_value(digits[1]),
        digit_value(digits[2]),
        digit_value(digits[3]),
    ) {
        (Some(a), Some(b), Some(c), Some(d)) => {
            let code = ((a * 16 + b) * 16 + c) * 16 + d;
            if code < 0xd800 || 0xdfff < code {
                Some(code as char)
            } else {
                None
            }
        },
        _ => None,
    }
}

/// The character at the front of `text`, inside a JSON string, and how many characters stand for
/// it. Two halves of a character written apart are not read here.
pub open spec fn read_char(text: Seq<char>) -> Option<(char, nat)> {
    if text.len() == 0 || (text[0] as u32) < 0x20 {
        None
    } else if text[0] != '\\' {
        Some((text[0], 1))
    } else if text.len() < 2 {
        None
    } else if text[1] == '"' || text[1] == '\\' || text[1] == '/' {
        Some((text[1], 2))
    } else if text[1] == 'b' {
        Some((0x08 as char, 2))
    } else if text[1] == 'f' {
        Some((0x0c as char, 2))
    } else if text[1] == 'n' {
        Some(('\n', 2))
    } else if text[1] == 'r' {
        Some(('\r', 2))
    } else if text[1] == 't' {
        Some(('\t', 2))
    } else if text[1] == 'u' && text.len() >= 6 {
        match unicode_escape(text.subrange(2, 6)) {
            Some(c) => Some((c, 6)),
            None => None,
        }
    } else {
        None
    }
}

/// The rest of a JSON string, from behind its opening quote or a character of it: what it stands
/// for up to its closing quote, and what follows that.
pub open spec fn read_rest(text: Seq<char>) -> Option<(Seq<char>, Seq<char>)>
    decreases text.len(),
{
    if text.len() > 0 && text[0] == '"' {
        Some((Seq::empty(), text.skip(1)))
    } else {
        match read_char(text) {
            Some((c, n)) => if 0 < n <= text.len() {
                match read_rest(text.skip(n as int)) {
                    Some((s, after)) => Some((seq![c] + s, after)),
                    None => None,
                }
            } else {
                None
            },
            None => None,
        }
    }
}

/// The JSON string at the front of `text`: what it stands for, and what follows it.
pub open spec fn read_string(text: Seq<char>) -> Option<(Seq<char>, Seq<char>)> {
    if text.len() > 0 && text[0] == '"' {
        read_rest(text.skip(1))
    } else {
        None
    }
}

proof fn lemma_read_char(c: char, after: Seq<char>)
    ensures
        read_char(json_char(c) + after) == Some((c, json_char(c).len())),
        json_char(c)[0] != '"',
        0 < json_char(c).len(),
{
    let text = json_char(c) + after;
    if (c as u32) < 0x20 && json_char(c).len() == 6 {
        let hi = c as int / 16;
        let lo = c as int % 16;
        let digits = text.subrange(2, 6);
        assert(digits[0] == '0');
        assert(digits[1] == '0');
        assert(digits[2] == hex_digit(hi));
        assert(digits[3] == hex_digit(lo));
        assert(0 <= hi < 2);
        assert(0 <= lo < 16);
        assert(digit_value(hex_digit(hi)) == Some(hi as nat));
        assert(digit_value(hex_digit(lo)) == Some(lo as nat));
    }
}

proof fn lemma_read_rest(s: Seq<char>, after: Seq<char>)
    ensures
        read_rest(json_escaped(s) + seq!['"'] + after) == Some((s, after)),
    decreases s.len(),
{
    let text = json_escaped(s) + seq!['"'] + after;
    if s.len() == 0 {
        assert(text.skip(1) == after);
        assert(s == Seq::<char>::empty());
    } else {
        let tail = json_escaped(s.skip(1)) + seq!['"'] + after;
        let head = json_char(s[0]);
        assert(text == head + tail);
        lemma_read_char(s[0], tail);
        assert(text[0] == head[0]);
        assert(text.skip(head.len() as int) == tail);
        lemma_read_rest(s.skip(1), after);
        assert(seq![s[0]] + s.skip(1) == s);
    }
}

/// Whatever `s` holds, the JSON string that stands for it is read back as `s`, and what follows
/// the string is left as it is: nothing in `s` can end the string before its end.
pub proof fn law_string_is_read_back(s: Seq<char>, after: Seq<char>)
    ensures
        read_string(json_string(s) + after) == Some((s, after)),
{
    lemma_read_rest(s, after);
    assert((json_string(s) + after).skip(1) == json_escaped(s) + seq!['"'] + after);
}

} // verus!
