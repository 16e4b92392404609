//! Reading and writing plain text, one character at a time.

use vstd::prelude::*;

verus! {

/// `String::push` appends one character to the end of the string.
pub assume_specification[ String::push ](s: &mut String, c: char)
    ensures
        final(s)@ == old(s)@.push(c),
;

/// The characters that have the Unicode property `White_Space`.
pub open spec fn is_white(c: char) -> bool {
    ||| 0x09 <= c as u32 <= 0x0d
    ||| c as u32 == 0x20
    ||| c as u32 == 0x85
    ||| c as u32 == 0xa0
    ||| c as u32 == 0x1680
    ||| 0x2000 <= c as u32 <= 0x200a
    ||| c as u32 == 0x2028
    ||| c as u32 == 0x2029
    ||| c as u32 == 0x202f
    ||| c as u32 == 0x205f
    ||| c as u32 == 0x3000
}

/// Whether `c` is white space.
pub fn is_whitespace(c: char) -> (white: bool)
    ensures
        white == is_white(c),
{
    let n: u32 = c as u32;
    (0x09 <= n && n <= 0x0d) || n == 0x20 || n == 0x85 || n == 0xa0 || n == 0x1680 || (0x2000 <= n
        && n <= 0x200a) || n == 0x2028 || n == 0x2029 || n == 0x202f || n == 0x205f || n == 0x3000
}

/// Whether every character of `s` is white space.
pub open spec fn all_white(s: Seq<char>) -> bool {
    forall|i: int| 0 <= i < s.len() ==> is_white(#[trigger] s[i])
}

/// The characters of `s`.
pub fn to_chars(s: &str) -> (chars: Vec<char>)
    ensures
        chars@ == s@,
{
    let mut chars: Vec<char> = Vec::new();
    for c in it: s.chars()
        invariant
            it.seq() == s@,
            chars@ == it.seq().take(it.index() as int),
    {
        chars.push(c);
    }
    chars
}

/// The string that holds `chars[from]` up to `chars[to]`, the last one not included.
pub fn from_chars(chars: &[char], from: usize, to: usize) -> (s: String)
    requires
        from <= to <= chars@.len(),
    ensures
        s@ == chars@.subrange(from as int, to as int),
{
    let mut s: String = String::new();
    let mut i: usize = from;
    while i < to
        invariant
            from <= i <= to <= chars@.len(),
            s@ == chars@.subrange(from as int, i as int),
        decreases to - i,
    {
        s.push(chars[i]);
        i = i + 1;
    }
    s
}

/// How many characters stand before the first line feed of `s`, or in `s` where it has none.
pub open spec fn line_len(s: Seq<char>) -> nat
    decreases s.len(),
{
    if s.len() == 0 || s[0] == '\n' {
        0
    } else {
        1 + line_len(s.skip(1))
    }
}

/// `s` without the carriage return at its end.
pub open spec fn strip_cr(s: Seq<char>) -> Seq<char> {
    if s.len() > 0 && s.last() == '\r' {
        s.drop_last()
    } else {
        s
    }
}

/// The lines of `s`, without their terminators: a line feed, or a carriage return and a line
/// feed. The last line needs no terminator.
pub open spec fn lines(s: Seq<char>) -> Seq<Seq<char>>
    decreases s.len(),
{
    let n = line_len(s);
    if s.len() == 0 {
        Seq::empty()
    } else if n >= s.len() {
        seq![s]
    } else {
        seq![strip_cr(s.take(n as int))] + lines(s.skip(n as int + 1))
    }
}

/// The length of the longest prefix of `s` without white space.
pub open spec fn word_len(s: Seq<char>) -> nat
    decreases s.len(),
{
    if s.len() == 0 || is_white(s[0]) {
        0
    } else {
        1 + word_len(s.skip(1))
    }
}

/// The parts of `s` between white space, none of them empty.
pub open spec fn fields(s: Seq<char>) -> Seq<Seq<char>>
    decreases s.len(),
{
    if s.len() == 0 {
        Seq::empty()
    } else if is_white(s[0]) {
        fields(s.skip(1))
    } else {
        proof {
            lemma_word_len_bound(s);
        }
        seq![s.take(word_len(s) as int)] + fields(s.skip(word_len(s) as int))
    }
}

proof fn lemma_line_len(s: Seq<char>, n: int)
    requires
        0 <= n <= s.len(),
        forall|i: int| 0 <= i < n ==> s[i] != '\n',
        n == s.len() || s[n] == '\n',
    ensures
        line_len(s) == n,
    decreases s.len(),
{
    if n > 0 {
        lemma_line_len(s.skip(1), n - 1);
    }
}

/// A prefix of `s` is no longer than `s`.
pub proof fn lemma_word_len_bound(s: Seq<char>)
    ensures
        word_len(s) <= s.len(),
    decreases s.len(),
{
    if s.len() > 0 && !is_white(s[0]) {
        lemma_word_len_bound(s.skip(1));
    }
}

proof fn lemma_word_len(s: Seq<char>, n: int)
    requires
        0 <= n <= s.len(),
        forall|i: int| 0 <= i < n ==> !is_white(#[trigger] s[i]),
        n == s.len() || is_white(s[n]),
    ensures
        word_len(s) == n,
    decreases s.len(),
{
    if n > 0 {
        assert forall|i: int| 0 <= i < n - 1 implies !is_white(#[trigger] s.skip(1)[i]) by {
            assert(s.skip(1)[i] == s[i + 1]);
        }
        lemma_word_len(s.skip(1), n - 1);
    }
}

/// Where the line that starts at `chars[from]` ends: at its line feed, or at the end of `chars`.
pub fn line_end(chars: &[char], from: usize) -> (end: usize)
    requires
        from <= chars@.len(),
    ensures
        from <= end <= chars@.len(),
        end - from == line_len(chars@.skip(from as int)),
        end < chars@.len() ==> chars@[end as int] == '\n',
{
    let mut end: usize = from;
    while end < chars.len() && chars[end] != '\n'
        invariant
            from <= end <= chars@.len(),
            forall|i: int| from <= i < end ==> chars@[i] != '\n',
        decreases chars@.len() - end,
    {
        end = end + 1;
    }
    proof {
        lemma_line_len(chars@.skip(from as int), end - from);
    }
    end
}

/// Whether `spans` marks the parts `parts` of `chars`.
pub open spec fn spans_mark(
    spans: Seq<(usize, usize)>,
    chars: Seq<char>,
    parts: Seq<Seq<char>>,
) -> bool {
    &&& spans.len() == parts.len()
    &&& forall|k: int|
        0 <= k < spans.len() ==> {
            &&& (#[trigger] spans[k]).0 <= spans[k].1 <= chars.len()
            &&& parts[k] == chars.subrange(spans[k].0 as int, spans[k].1 as int)
        }
}

/// Where the parts between white space of `chars[from]` up to `chars[to]` start and end.
pub fn split_fields(chars: &[char], from: usize, to: usize) -> (spans: Vec<(usize, usize)>)
    requires
        from <= to <= chars@.len(),
    ensures
        spans_mark(spans@, chars@, fields(chars@.subrange(from as int, to as int))),
{
    let mut spans: Vec<(usize, usize)> = Vec::new();
    let mut pos: usize = from;
    let ghost all = fields(chars@.subrange(from as int, to as int));
    let ghost mut done: Seq<Seq<char>> = Seq::empty();
    while pos < to
        invariant
            from <= pos <= to <= chars@.len(),
            spans_mark(spans@, chars@, done),
            all == done + fields(chars@.subrange(pos as int, to as int)),
        decreases to - pos,
    {
        let ghost rest = chars@.subrange(pos as int, to as int);
        if is_whitespace(chars[pos]) {
            pos = pos + 1;
            assert(rest.skip(1) == chars@.subrange(pos as int, to as int));
        } else {
            let start: usize = pos;
            while pos < to && !is_whitespace(chars[pos])
                invariant
                    start <= pos <= to <= chars@.len(),
                    forall|i: int| start <= i < pos ==> !is_white(#[trigger] chars@[i]),
                decreases to - pos,
            {
                pos = pos + 1;
            }
            proof {
                let n = pos - start;
                assert forall|i: int| 0 <= i < n implies !is_white(#[trigger] rest[i]) by {
                    assert(rest[i] == chars@[start + i]);
                }
                lemma_word_len(rest, n);
                assert(n > 0);
                assert(rest.take(n) == chars@.subrange(start as int, pos as int));
                assert(rest.skip(n) == chars@.subrange(pos as int, to as int));
                assert(fields(rest) == seq![rest.take(n)] + fields(rest.skip(n)));
                assert(done + fields(rest) == done.push(rest.take(n)) + fields(rest.skip(n)));
                done = done.push(rest.take(n));
            }
            spans.push((start, pos));
        }
    }
    proof {
        assert(chars@.subrange(pos as int, to as int).len() == 0);
        assert(done + Seq::<Seq<char>>::empty() == done);
    }
    spans
}

/// What follows the last `c` of `s`, where `s` holds a `c`.
pub open spec fn after_last(s: Seq<char>, c: char) -> Option<Seq<char>>
    decreases s.len(),
{
    if s.len() == 0 {
        None
    } else if s.last() == c {
        Some(Seq::empty())
    } else {
        match after_last(s.drop_last(), c) {
            Some(tail) => Some(tail.push(s.last())),
            None => None,
        }
    }
}

proof fn lemma_after_last(s: Seq<char>, c: char, at: int)
    requires
        -1 <= at < s.len(),
        at >= 0 ==> s[at] == c,
        forall|i: int| at < i < s.len() ==> s[i] != c,
    ensures
        after_last(s, c) == if at >= 0 {
            Some(s.skip(at + 1))
        } else {
            None::<Seq<char>>
        },
    decreases s.len(),
{
    if s.len() > 0 {
        if at == s.len() - 1 {
            assert(s.skip(at + 1) == Seq::<char>::empty());
        } else {
            lemma_after_last(s.drop_last(), c, at);
            if at >= 0 {
                assert(s.drop_last().skip(at + 1).push(s.last()) == s.skip(at + 1));
            }
        }
    }
}

/// Where the text after the last `c` of `chars[from]` up to `chars[to]` starts.
pub fn find_after_last(chars: &[char], from: usize, to: usize, c: char) -> (start: Option<usize>)
    requires
        from <= to <= chars@.len(),
    ensures
        match after_last(chars@.subrange(from as int, to as int), c) {
            Some(tail) => start matches Some(at) && from < at <= to && tail == chars@.subrange(
                at as int,
                to as int,
            ),
            None => start is None,
        },
{
    let ghost s = chars@.subrange(from as int, to as int);
    let mut at: usize = to;
    while at > from
        invariant
            from <= at <= to <= chars@.len(),
            s == chars@.subrange(from as int, to as int),
            forall|i: int| at - from <= i < s.len() ==> s[i] != c,
        decreases at,
    {
        if chars[at - 1] == c {
            proof {
                lemma_after_last(s, c, at - from - 1);
                assert(s.skip(at - from) == chars@.subrange(at as int, to as int));
            }
            return Some(at);
        }
        at = at - 1;
    }
    proof {
        lemma_after_last(s, c, -1);
    }
    None
}

/// The value of the digit `c` in the bases up to sixteen.
pub open spec fn digit_value(c: char) -> Option<nat> {
    if '0' <= c <= '9' {
        Some((c as u32 - '0' as u32) as nat)
    } else if 'a' <= c <= 'f' {
        Some((c as u32 - 'a' as u32 + 10) as nat)
    } else if 'A' <= c <= 'F' {
        Some((c as u32 - 'A' as u32 + 10) as nat)
    } else {
        None
    }
}

/// Whether `s` holds only digits of the base `radix`, and at least one.
pub open spec fn is_numeral(s: Seq<char>, radix: nat) -> bool {
    &&& s.len() > 0
    &&& forall|i: int|
        0 <= i < s.len() ==> (digit_value(#[trigger] s[i]) matches Some(d) && d < radix)
}

/// What the digits `s` stand for in the base `radix`.
pub open spec fn numeral_value(s: Seq<char>, radix: nat) -> nat
    decreases s.len(),
{
    if s.len() == 0 {
        0
    } else {
        numeral_value(s.drop_last(), radix) * radix + digit_value(s.last())->0
    }
}

/// `s` without the plus sign that may stand before a number.
pub open spec fn unsigned(s: Seq<char>) -> Seq<char> {
    if s.len() > 0 && s[0] == '+' {
        s.skip(1)
    } else {
        s
    }
}

/// The number that `s` writes in the base `radix`, with or without a plus sign, where `s` is such
/// a number and it does not exceed `max`.
pub open spec fn number(s: Seq<char>, radix: nat, max: nat) -> Option<nat> {
    if is_numeral(unsigned(s), radix) && numeral_value(unsigned(s), radix) <= max {
        Some(numeral_value(unsigned(s), radix))
    } else {
        None
    }
}

proof fn lemma_numeral_value_grows(s: Seq<char>, radix: nat, n: int)
    requires
        0 <= n <= s.len(),
        radix >= 1,
    ensures
        numeral_value(s.take(n), radix) <= numeral_value(s, radix),
    decreases s.len() - n,
{
    if n < s.len() {
        lemma_numeral_value_grows(s, radix, n + 1);
        assert(s.take(n + 1).drop_last() == s.take(n));
        let v = numeral_value(s.take(n), radix);
        assert(v <= v * radix) by (nonlinear_arith)
            requires
                radix >= 1,
                v >= 0,
        ;
    } else {
        assert(s.take(n) == s);
    }
}

/// The value of the digit `c`.
pub fn digit_of(c: char) -> (value: Option<u32>)
    ensures
        match digit_value(c) {
            Some(d) => value == Some(d as u32) && d < 16,
            None => value is None,
        },
{
    if '0' <= c && c <= '9' {
        Some(c as u32 - '0' as u32)
    } else if 'a' <= c && c <= 'f' {
        Some(c as u32 - 'a' as u32 + 10)
    } else if 'A' <= c && c <= 'F' {
        Some(c as u32 - 'A' as u32 + 10)
    } else {
        None
    }
}

/// The number that `chars[from]` up to `chars[to]` writes in the base `radix`, unless it exceeds
/// `max`.
pub fn parse_number(chars: &[char], from: usize, to: usize, radix: u32, max: u64) -> (value: Option<
    u64,
>)
    requires
        from <= to <= chars@.len(),
        2 <= radix <= 16,
    ensures
        match number(chars@.subrange(from as int, to as int), radix as nat, max as nat) {
            Some(n) => value == Some(n as u64) && n <= max,
            None => value is None,
        },
{
    let mut start: usize = from;
    if from < to && chars[from] == '+' {
        start = from + 1;
    }
    let ghost s = chars@.subrange(start as int, to as int);
    let ghost whole = chars@.subrange(from as int, to as int);
    assert(unsigned(whole) == s);
    if start == to {
        return None;
    }
    let mut acc: u128 = 0;
    let mut i: usize = start;
    assert(s.take(0) == Seq::<char>::empty());
    while i < to
        invariant
            from <= start <= i <= to <= chars@.len(),
            start < to,
            2 <= radix <= 16,
            s == chars@.subrange(start as int, to as int),
            whole == chars@.subrange(from as int, to as int),
            unsigned(whole) == s,
            forall|k: int|
                0 <= k < i - start ==> (digit_value(#[trigger] s[k]) matches Some(d) && d < radix),
            acc == numeral_value(s.take(i - start), radix as nat),
            acc <= max,
        decreases to - i,
    {
        let ghost k = i - start;
        assert(s[k] == chars@[i as int]);
        match digit_of(chars[i]) {
            Some(d) => {
                if d >= radix {
                    return None;
                }
                assert(s.take(k + 1).drop_last() == s.take(k));
                assert(s.take(k + 1).last() == s[k]);
                assert(acc * radix + d <= 0x1_0000_0000_0000_0000 * 16 + 16) by (nonlinear_arith)
                    requires
                        acc <= 0xffff_ffff_ffff_ffff,
                        0 <= radix <= 16,
                        0 <= d <= 16,
                ;
                assert(acc * radix >= 0) by (nonlinear_arith)
                    requires
                        acc >= 0,
                        radix >= 0,
                ;
                acc = acc * (radix as u128) + (d as u128);
                if acc > max as u128 {
                    proof {
                        lemma_numeral_value_grows(s, radix as nat, k + 1);
                    }
                    return None;
                }
                i = i + 1;
            },
            None => {
                return None;
            },
        }
    }
    assert(s.take(i - start) == s);
    Some(acc as u64)
}

/// Whether `chars[from]` up to `chars[to]` is the text `literal`.
pub fn span_is(chars: &[char], from: usize, to: usize, literal: &str) -> (same: bool)
    requires
        from <= to <= chars@.len(),
    ensures
        same == (chars@.subrange(from as int, to as int) == literal@),
{
    let want = to_chars(literal);
    let ghost span = chars@.subrange(from as int, to as int);
    if want.len() != to - from {
        return false;
    }
    let mut i: usize = 0;
    while i < want.len()
        invariant
            from <= to <= chars@.len(),
            want@.len() == to - from,
            want@ == literal@,
            span == chars@.subrange(from as int, to as int),
            0 <= i <= want@.len(),
            forall|k: int| 0 <= k < i ==> span[k] == want@[k],
        decreases want@.len() - i,
    {
        if chars[from + i] != want[i] {
            assert(span[i as int] != literal@[i as int]);
            return false;
        }
        i = i + 1;
    }
    assert(span == literal@);
    true
}

/// What follows `prefix` in `s`, where `s` starts with it.
pub open spec fn without_prefix(s: Seq<char>, prefix: Seq<char>) -> Option<Seq<char>> {
    if prefix.is_prefix_of(s) {
        Some(s.skip(prefix.len() as int))
    } else {
        None
    }
}

/// Where the text after `prefix` starts in `chars`, where `chars` starts with it.
pub fn strip_prefix(chars: &[char], prefix: &str) -> (start: Option<usize>)
    ensures
        match without_prefix(chars@, prefix@) {
            Some(tail) => start matches Some(at) && at == prefix@.len() && at <= chars@.len()
                && tail == chars@.skip(at as int),
            None => start is None,
        },
{
    let n: usize = prefix.unicode_len();
    if n <= chars.len() && span_is(chars, 0, n, prefix) {
        assert(chars@.subrange(0, n as int) == prefix@);
        Some(n)
    } else {
        None
    }
}

/// The digit `d`, which is below ten.
pub open spec fn digit(d: int) -> char {
    (0x30 + d) as char
}

/// `n` in decimal, without leading zeros.
pub open spec fn decimal(n: nat) -> Seq<char>
    decreases n,
{
    if n < 10 {
        seq![digit(n as int)]
    } else {
        decimal(n / 10).push(digit((n % 10) as int))
    }
}

/// `n` in decimal, behind a minus sign where it is negative.
pub open spec fn signed_decimal(n: int) -> Seq<char> {
    if n < 0 {
        seq!['-'] + decimal((-n) as nat)
    } else {
        decimal(n as nat)
    }
}

/// Appends `n` in decimal to `out`.
pub fn push_decimal(out: &mut String, n: u128)
    ensures
        final(out)@ == old(out)@ + decimal(n as nat),
    decreases n,
{
    if n >= 10 {
        push_decimal(out, n / 10);
    }
    let d: u8 = (n % 10) as u8;
    out.push((0x30u8 + d) as char);
}

/// Appends `n` in decimal to `out`, behind a minus sign where it is negative.
pub fn push_signed_decimal(out: &mut String, n: i32)
    ensures
        final(out)@ == old(out)@ + signed_decimal(n as int),
{
    let wide: i64 = n as i64;
    if wide < 0 {
        out.push('-');
        push_decimal(out, (-wide) as u128);
        assert(out@ == old(out)@ + (seq!['-'] + decimal((-n) as nat)));
    } else {
        push_decimal(out, wide as u128);
    }
}

/// The blanks that bring `s` to `width` characters; none where it has as many or more.
pub open spec fn padding(s: Seq<char>, width: nat) -> Seq<char> {
    Seq::new(
        if s.len() < width {
            (width - s.len()) as nat
        } else {
            0
        },
        |i: int| ' ',
    )
}

/// `s` with blanks behind it, up to `width` characters.
pub open spec fn pad_right(s: Seq<char>, width: nat) -> Seq<char> {
    s + padding(s, width)
}

/// `s` with blanks before it, up to `width` characters.
pub open spec fn pad_left(s: Seq<char>, width: nat) -> Seq<char> {
    padding(s, width) + s
}

/// Appends the blanks that bring `s` to `width` characters to `out`.
pub fn push_padding(out: &mut String, s: &str, width: usize)
    ensures
        final(out)@ == old(out)@ + padding(s@, width as nat),
{
    let len: usize = s.unicode_len();
    let mut i: usize = len;
    while i < width
        invariant
            len == s@.len(),
            len <= i,
            i <= width || i == len,
            out@ == old(out)@ + Seq::new((i - len) as nat, |k: int| ' '),
        decreases width - i,
    {
        out.push(' ');
        i = i + 1;
        assert(out@ == old(out)@ + Seq::new((i - len) as nat, |k: int| ' '));
    }
    assert(out@ == old(out)@ + padding(s@, width as nat));
}

/// Whether `part` stands somewhere in `s`.
pub open spec fn holds(s: Seq<char>, part: Seq<char>) -> bool {
    exists|at: int| #[trigger] stands_at(s, part, at)
}

/// Whether `part` stands in `s` from `s[at]` on.
pub open spec fn stands_at(s: Seq<char>, part: Seq<char>, at: int) -> bool {
    0 <= at && at + part.len() <= s.len() && s.subrange(at, at + part.len()) == part
}

/// Whether `part` stands somewhere in `chars`.
pub fn contains(chars: &[char], part: &str) -> (found: bool)
    ensures
        found == holds(chars@, part@),
{
    let n: usize = part.unicode_len();
    let mut at: usize = 0;
    while at <= chars.len() && n <= chars.len() - at
        invariant
            n == part@.len(),
            0 <= at <= chars@.len() + 1,
            forall|k: int| 0 <= k < at ==> !#[trigger] stands_at(chars@, part@, k),
        decreases chars@.len() + 1 - at,
    {
        if span_is(chars, at, at + n, part) {
            assert(stands_at(chars@, part@, at as int));
            return true;
        }
        assert(!stands_at(chars@, part@, at as int));
        if at == chars.len() {
            return false;
        }
        at = at + 1;
    }
    false
}

/// White space is exactly these twenty-five characters: the blanks and line ends of ASCII, the
/// next line, the no-break space, and the separators of Unicode.
pub proof fn law_white_space(c: char)
    ensures
        is_white(c) == ({
            let n = c as u32;
            n == 0x09 || n == 0x0a || n == 0x0b || n == 0x0c || n == 0x0d || n == 0x20 || n == 0x85
                || n == 0xa0 || n == 0x1680 || n == 0x2000 || n == 0x2001 || n == 0x2002 || n
                == 0x2003 || n == 0x2004 || n == 0x2005 || n == 0x2006 || n == 0x2007 || n == 0x2008
                || n == 0x2009 || n == 0x200a || n == 0x2028 || n == 0x2029 || n == 0x202f || n
                == 0x205f || n == 0x3000
        }),
{
}

/// Nothing at all is blank, and one character more keeps a text blank exactly where it is white
/// space, wherever it is put.
pub proof fn law_blank_text(front: Seq<char>, c: char, back: Seq<char>)
    ensures
        all_white(Seq::<char>::empty()),
        all_white(front + seq![c] + back) == (all_white(front) && is_white(c) && all_white(back)),
{
    let s = front + seq![c] + back;
    if all_white(s) {
        assert forall|i: int| 0 <= i < front.len() implies is_white(#[trigger] front[i]) by {
            assert(s[i] == front[i]);
        }
        assert(s[front.len() as int] == c);
        assert forall|i: int| 0 <= i < back.len() implies is_white(#[trigger] back[i]) by {
            assert(s[front.len() + 1 + i] == back[i]);
        }
    }
}

/// A text is its lines with their ends between them. A line ends at a line feed, and a carriage
/// return right before the line feed belongs to the end and not to the line. What follows the last
/// line feed is a line of its own, unless it is empty, and keeps its carriage return.
pub proof fn law_lines(line: Seq<char>, rest: Seq<char>)
    requires
        !line.contains('\n'),
    ensures
        lines(line + seq!['\r', '\n'] + rest) == seq![line] + lines(rest),
        (line.len() == 0 || line.last() != '\r') ==> lines(line + seq!['\n'] + rest) == seq![line]
            + lines(rest),
        line.len() > 0 ==> lines(line) == seq![line],
        lines(Seq::<char>::empty()) == Seq::<Seq<char>>::empty(),
{
    assert forall|i: int| 0 <= i < line.len() implies line[i] != '\n' by {
        assert(line.contains(line[i]));
    }
    let n = line.len() as int;
    let dos = line + seq!['\r', '\n'] + rest;
    lemma_line_len(dos, n + 1);
    assert(dos.take(n + 1) == line.push('\r'));
    assert(line.push('\r').drop_last() == line);
    assert(dos.skip(n + 2) == rest);
    let unix = line + seq!['\n'] + rest;
    lemma_line_len(unix, n);
    assert(unix.take(n) == line);
    assert(unix.skip(n + 1) == rest);
    lemma_line_len(line, n);
}

/// A text's fields are its words, the longest runs without white space, in their order: white space
/// before a word counts for nothing, and a word ends where white space or the end follows.
pub proof fn law_fields(blank: char, word: Seq<char>, rest: Seq<char>)
    requires
        is_white(blank),
        word.len() > 0,
        forall|i: int| 0 <= i < word.len() ==> !is_white(#[trigger] word[i]),
    ensures
        fields(Seq::<char>::empty()) == Seq::<Seq<char>>::empty(),
        fields(seq![blank] + rest) == fields(rest),
        fields(word) == seq![word],
        fields(word + seq![blank] + rest) == seq![word] + fields(rest),
{
    assert((seq![blank] + rest).skip(1) == rest);
    assert(!is_white(word[0]));
    lemma_word_len(word, word.len() as int);
    assert(word.take(word.len() as int) == word);
    assert(word.skip(word.len() as int) == Seq::<char>::empty());
    assert(fields(word) == seq![word] + fields(Seq::<char>::empty()));
    assert(seq![word] + Seq::<Seq<char>>::empty() == seq![word]);
    let s = word + seq![blank] + rest;
    assert forall|i: int| 0 <= i < word.len() implies !is_white(#[trigger] s[i]) by {
        assert(s[i] == word[i]);
    }
    lemma_word_len(s, word.len() as int);
    assert(s.take(word.len() as int) == word);
    assert(s.skip(word.len() as int) == seq![blank] + rest);
    assert(s[0] == word[0]);
    assert(fields(s) == seq![word] + fields(seq![blank] + rest));
}

/// The fields of two texts with white space between them are those of the one and those of the
/// other.
pub proof fn law_fields_of_two_texts(front: Seq<char>, blank: char, back: Seq<char>)
    requires
        is_white(blank),
    ensures
        fields(front + seq![blank] + back) == fields(front) + fields(back),
    decreases front.len(),
{
    let s = front + seq![blank] + back;
    if front.len() == 0 {
        assert(s.skip(1) == back);
        assert(fields(front) + fields(back) == fields(back));
    } else if is_white(front[0]) {
        law_fields_of_two_texts(front.skip(1), blank, back);
        assert(s.skip(1) == front.skip(1) + seq![blank] + back);
    } else {
        let n = word_len(front) as int;
        lemma_word_len_bound(front);
        lemma_word_len_meaning(front);
        assert forall|i: int| 0 <= i < n implies !is_white(#[trigger] s[i]) by {
            assert(s[i] == front[i]);
        }
        assert(s[n] == if n < front.len() {
            front[n]
        } else {
            blank
        });
        lemma_word_len(s, n);
        law_fields_of_two_texts(front.skip(n), blank, back);
        assert(s.take(n) == front.take(n));
        assert(s.skip(n) == front.skip(n) + seq![blank] + back);
        assert(fields(s) == seq![front.take(n)] + (fields(front.skip(n)) + fields(back)));
        assert(fields(front) == seq![front.take(n)] + fields(front.skip(n)));
    }
}

proof fn lemma_word_len_meaning(s: Seq<char>)
    ensures
        word_len(s) <= s.len(),
        forall|i: int| 0 <= i < word_len(s) ==> !is_white(#[trigger] s[i]),
        word_len(s) < s.len() ==> is_white(s[word_len(s) as int]),
        s.len() > 0 && !is_white(s[0]) ==> word_len(s) > 0,
    decreases s.len(),
{
    if s.len() > 0 && !is_white(s[0]) {
        let rest = s.skip(1);
        lemma_word_len_meaning(rest);
        assert forall|i: int| 0 <= i < word_len(s) implies !is_white(#[trigger] s[i]) by {
            if i > 0 {
                assert(rest[i - 1] == s[i]);
            }
        }
        if word_len(s) < s.len() {
            assert(rest[word_len(rest) as int] == s[word_len(s) as int]);
        }
    }
}

/// What follows the last of a character is found behind it, whatever stands before, and where the
/// character is missing there is nothing.
pub proof fn law_after_last(front: Seq<char>, c: char, back: Seq<char>)
    requires
        !back.contains(c),
    ensures
        after_last(front + seq![c] + back, c) == Some(back),
        after_last(back, c) is None,
{
    assert forall|i: int| 0 <= i < back.len() implies back[i] != c by {
        assert(back.contains(back[i]));
    }
    let s = front + seq![c] + back;
    lemma_after_last(s, c, front.len() as int);
    assert(s.skip(front.len() as int + 1) == back);
    lemma_after_last(back, c, -1);
}

/// The digits are those of ASCII, with the letters from a to f in either case behind nine, and
/// nothing else is a digit.
pub proof fn law_digits(c: char)
    ensures
        digit_value(c) == match c {
            '0' => Some(0nat),
            '1' => Some(1nat),
            '2' => Some(2nat),
            '3' => Some(3nat),
            '4' => Some(4nat),
            '5' => Some(5nat),
            '6' => Some(6nat),
            '7' => Some(7nat),
            '8' => Some(8nat),
            '9' => Some(9nat),
            'a' => Some(10nat),
            'A' => Some(10nat),
            'b' => Some(11nat),
            'B' => Some(11nat),
            'c' => Some(12nat),
            'C' => Some(12nat),
            'd' => Some(13nat),
            'D' => Some(13nat),
            'e' => Some(14nat),
            'E' => Some(14nat),
            'f' => Some(15nat),
            'F' => Some(15nat),
            _ => None,
        },
{
}

/// A numeral is read digit by digit: it takes at least one, one more at its end counts for one of
/// its own, and what is no digit of the base makes it no numeral. One plus sign may stand before it.
pub proof fn law_numerals(s: Seq<char>, c: char, radix: nat, max: nat)
    requires
        2 <= radix <= 16,
        s.len() > 0,
        s[0] != '+',
    ensures
        number(Seq::<char>::empty(), radix, max) is None,
        number(seq!['+'], radix, max) is None,
        number(seq!['+'] + s, radix, max) == number(s, radix, max),
        number(seq!['+', '+'] + s, radix, max) is None,
        c != '+' ==> number(seq![c], radix, max) == match digit_value(c) {
            Some(d) => if d < radix && d <= max {
                Some(d)
            } else {
                None
            },
            None => None,
        },
        number(s.push(c), radix, max) == match (number(s, radix, max), digit_value(c)) {
            (Some(n), Some(d)) => if d < radix && n * radix + d <= max {
                Some((n * radix + d) as nat)
            } else {
                None
            },
            _ => None,
        },
{
    assert((seq!['+'] + s).skip(1) == s);
    let twice = seq!['+', '+'] + s;
    assert(unsigned(twice)[0] == '+');
    assert(seq!['+'].skip(1) == Seq::<char>::empty());
    assert(seq![c].drop_last() == Seq::<char>::empty());
    assert(seq![c][0] == c);
    assert(unsigned(seq![c]) == if c == '+' {
        Seq::<char>::empty()
    } else {
        seq![c]
    });
    if c != '+' {
        assert(is_numeral(seq![c], radix) == (digit_value(c) matches Some(d) && d < radix));
        assert(numeral_value(seq![c], radix) == digit_value(c)->0) by {
            assert(0 * radix == 0) by (nonlinear_arith);
        }
    }
    let longer = s.push(c);
    assert(longer[0] == s[0]);
    assert(longer.drop_last() == s);
    if is_numeral(longer, radix) {
        assert forall|i: int| 0 <= i < s.len() implies (digit_value(#[trigger] s[i]) matches Some(d)
            && d < radix) by {
            assert(longer[i] == s[i]);
        }
        assert(longer[s.len() as int] == c);
    }
    if is_numeral(s, radix) && (digit_value(c) matches Some(d) && d < radix) {
        assert forall|i: int| 0 <= i < longer.len() implies (digit_value(#[trigger] longer[i])
            matches Some(d) && d < radix) by {
            if i < s.len() {
                assert(longer[i] == s[i]);
            }
        }
    }
    let v = numeral_value(s, radix);
    assert(v <= v * radix) by (nonlinear_arith)
        requires
            radix >= 2,
            v >= 0,
    ;
}

/// A number that is written in decimal is read back as the same number, and it is written without
/// a sign and without zeros before it.
pub proof fn law_decimal_is_read_back(n: nat, max: nat)
    requires
        n <= max,
    ensures
        number(decimal(n), 10, max) == Some(n),
        '0' <= decimal(n)[0] <= '9',
        decimal(n).len() > 1 ==> decimal(n)[0] != '0',
        decimal(n).len() > 0,
        forall|i: int| 0 <= i < decimal(n).len() ==> '0' <= #[trigger] decimal(n)[i] <= '9',
    decreases n,
{
    if n < 10 {
        let c = decimal(n)[0];
        assert(decimal(n) =~= seq![c]);
        law_numerals(seq![c], c, 10, max);
    } else {
        law_decimal_is_read_back(n / 10, max);
        let c = digit((n % 10) as int);
        law_numerals(decimal(n / 10), c, 10, max);
        assert(decimal(n) == decimal(n / 10).push(c));
        assert(decimal(n)[0] == decimal(n / 10)[0]);
        assert(n == (n / 10) * 10 + n % 10);
        assert forall|i: int| 0 <= i < decimal(n).len() implies '0' <= #[trigger] decimal(n)[i]
            <= '9' by {
            if i < decimal(n / 10).len() {
                assert(decimal(n)[i] == decimal(n / 10)[i]);
            }
        }
        if decimal(n / 10).len() == 1 {
            assert(decimal(n / 10)[0] != '0') by {
                if n / 10 >= 10 {
                    law_decimal_is_read_back(n / 10 / 10, max);
                    assert(decimal(n / 10) == decimal(n / 10 / 10).push(
                        digit((n / 10 % 10) as int),
                    ));
                }
            }
        }
    }
}

/// A negative number is its absolute value behind a minus sign, and no other number has one.
pub proof fn law_sign(n: nat)
    ensures
        signed_decimal(n as int) == decimal(n),
        n > 0 ==> signed_decimal(-n) == seq!['-'] + decimal(n),
{
}

/// What stands in a text stands there between something before and something behind, and the other
/// way round.
pub proof fn law_part_of_a_text(s: Seq<char>, front: Seq<char>, part: Seq<char>, back: Seq<char>)
    ensures
        holds(front + part + back, part),
        holds(s, part) ==> exists|at: int|
            0 <= at <= s.len() - part.len() && s == #[trigger] s.take(at) + part + s.skip(
                at + part.len(),
            ),
{
    let whole = front + part + back;
    assert(whole.subrange(front.len() as int, front.len() as int + part.len()) == part);
    assert(stands_at(whole, part, front.len() as int));
    if holds(s, part) {
        let at = choose|at: int| #[trigger] stands_at(s, part, at);
        assert(s.take(at) + part + s.skip(at + part.len()) =~= s) by {
            assert forall|i: int| 0 <= i < s.len() implies (s.take(at) + part + s.skip(
                at + part.len(),
            ))[i] == s[i] by {
                if at <= i < at + part.len() {
                    assert(s.subrange(at, at + part.len())[i - at] == s[i]);
                }
            }
        }
    }
}

/// A prefix is taken off where it stands, once, and a text without it has none to take off.
pub proof fn law_prefix(prefix: Seq<char>, rest: Seq<char>, s: Seq<char>)
    ensures
        without_prefix(prefix + rest, prefix) == Some(rest),
        without_prefix(s, prefix) matches Some(tail) ==> s == prefix + tail,
{
    assert((prefix + rest).skip(prefix.len() as int) == rest);
    assert((prefix + rest).subrange(0, prefix.len() as int) == prefix);
    if prefix.is_prefix_of(s) {
        assert(s == prefix + s.skip(prefix.len() as int));
    }
}

/// Padding brings a text to its width with blanks alone, behind it or before it, and leaves alone
/// what is as wide already.
pub proof fn law_padding(s: Seq<char>, width: nat)
    ensures
        s.len() >= width ==> pad_right(s, width) == s && pad_left(s, width) == s,
        s.len() < width ==> {
            let gap = width - s.len();
            let right = pad_right(s, width);
            let left = pad_left(s, width);
            &&& right.len() == width && left.len() == width
            &&& right.take(s.len() as int) == s && left.skip(gap) == s
            &&& forall|i: int| s.len() <= i < width ==> #[trigger] right[i] == ' '
            &&& forall|i: int| 0 <= i < gap ==> #[trigger] left[i] == ' '
        },
{
    let gap = width - s.len();
    if s.len() >= width {
        assert(pad_right(s, width) == s);
        assert(pad_left(s, width) == s);
    } else {
        assert(pad_right(s, width).take(s.len() as int) == s);
        assert(pad_left(s, width).skip(gap) == s);
    }
}

} // verus!
