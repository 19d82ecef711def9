//! Text as sequences of characters: splitting, trimming, words and numbers.
//!
//! The definitions speak of a whole text; the executable functions work on
//! a window `[from, to)` of a vector of characters, so that a caller can cut
//! a text into pieces without copying it.

use vstd::prelude::*;
use vstd::string::*;

verus! {

/// The characters of a string, in order.
pub fn chars_of(s: &str) -> (chars: Vec<char>)
    ensures
        chars@ == s@,
{
    let mut chars: Vec<char> = Vec::new();
    for c in it: s.chars()
        invariant
            it.seq() == s@,
            chars@ == s@.take(it.index() as int),
    {
        chars.push(c);
    }
    assert(s@.take(s@.len() as int) == s@);
    chars
}

/// The texts of a list of strings.
pub open spec fn strings_view(strings: Seq<String>) -> Seq<Seq<char>> {
    strings.map_values(|s: String| s@)
}

/// Whether a character is white space, as Unicode's `White_Space` property
/// has it.
pub open spec fn is_whitespace(c: char) -> bool {
    let u = c as u32;
    ||| 0x09 <= u <= 0x0d
    ||| u == 0x20
    ||| u == 0x85
    ||| u == 0xa0
    ||| u == 0x1680
    ||| 0x2000 <= u <= 0x200a
    ||| u == 0x2028
    ||| u == 0x2029
    ||| u == 0x202f
    ||| u == 0x205f
    ||| u == 0x3000
}

pub fn char_is_whitespace(c: char) -> (b: bool)
    ensures
        b == is_whitespace(c),
{
    let u: u32 = c as u32;
    (0x09 <= u && u <= 0x0d) || u == 0x20 || u == 0x85 || u == 0xa0 || u == 0x1680 || (0x2000 <= u
        && u <= 0x200a) || u == 0x2028 || u == 0x2029 || u == 0x202f || u == 0x205f || u == 0x3000
}

/// The position of the first `c` in `s`, or the length of `s` where it holds
/// none.
pub open spec fn find(s: Seq<char>, c: char) -> int
    decreases s.len(),
{
    if s.len() == 0 || s[0] == c {
        0
    } else {
        1 + find(s.drop_first(), c)
    }
}

/// The pieces of `s` between the occurrences of `sep`. A text without `sep`
/// is one piece; a text that ends in `sep` ends in an empty piece.
pub open spec fn split(s: Seq<char>, sep: char) -> Seq<Seq<char>>
    decreases s.len(),
{
    let i = find(s, sep);
    if 0 <= i < s.len() {
        seq![s.take(i)] + split(s.skip(i + 1), sep)
    } else {
        seq![s]
    }
}

/// `s` without the white space at its start.
pub open spec fn trim_start(s: Seq<char>) -> Seq<char>
    decreases s.len(),
{
    if s.len() > 0 && is_whitespace(s[0]) {
        trim_start(s.drop_first())
    } else {
        s
    }
}

/// `s` without the white space at its end.
pub open spec fn trim_end(s: Seq<char>) -> Seq<char>
    decreases s.len(),
{
    if s.len() > 0 && is_whitespace(s.last()) {
        trim_end(s.drop_last())
    } else {
        s
    }
}

/// `s` without the white space at both ends.
pub open spec fn trim(s: Seq<char>) -> Seq<char> {
    trim_end(trim_start(s))
}

/// How many characters at the start of `s` are not white space.
pub open spec fn word_len(s: Seq<char>) -> int
    decreases s.len(),
{
    if s.len() > 0 && !is_whitespace(s[0]) {
        1 + word_len(s.drop_first())
    } else {
        0
    }
}

/// The words of `s`: its maximal runs of characters that are not white space.
pub open spec fn words(s: Seq<char>) -> Seq<Seq<char>>
    decreases s.len(),
{
    let t = trim_start(s);
    let n = word_len(t);
    // The test fails only where nothing but white space is left; its bounds
    // on the lengths are what shows that the definition comes to an end.
    if 0 < n <= t.len() && t.len() <= s.len() {
        seq![t.take(n)] + words(t.skip(n))
    } else {
        Seq::empty()
    }
}

/// A window of a text.
pub struct Span {
    pub from: usize,
    pub to: usize,
}

impl Span {
    /// Whether the window lies inside a text of `len` characters.
    pub open spec fn within(self, len: nat) -> bool {
        self.from <= self.to <= len
    }

    /// The part of `s` that the window shows.
    pub open spec fn of(self, s: Seq<char>) -> Seq<char> {
        s.subrange(self.from as int, self.to as int)
    }
}

/// The windows of a list as the texts they show.
pub open spec fn spans_of(spans: Seq<Span>, s: Seq<char>) -> Seq<Seq<char>> {
    spans.map_values(|w: Span| w.of(s))
}

/// Whether every window of a list lies inside a text of `len` characters.
pub open spec fn spans_within(spans: Seq<Span>, len: nat) -> bool {
    forall|i: int| 0 <= i < spans.len() ==> (#[trigger] spans[i]).within(len)
}

proof fn lemma_find(s: Seq<char>, c: char, n: int)
    requires
        0 <= n <= s.len(),
        forall|j: int| 0 <= j < n ==> s[j] != c,
        n == s.len() || s[n] == c,
    ensures
        find(s, c) == n,
    decreases n,
{
    if n > 0 {
        let rest = s.drop_first();
        assert forall|j: int| 0 <= j < n - 1 implies rest[j] != c by {
            assert(rest[j] == s[j + 1]);
        }
        lemma_find(rest, c, n - 1);
    }
}

/// Cuts the window `w` of `text` at every `sep`.
pub(crate) fn split_span(text: &Vec<char>, w: &Span, sep: char) -> (pieces: Vec<Span>)
    requires
        w.within(text@.len()),
    ensures
        spans_of(pieces@, text@) == split(w.of(text@), sep),
        spans_within(pieces@, text@.len()),
        forall|i: int| 0 <= i < pieces@.len() ==> w.from <= (#[trigger] pieces@[i]).from
            && pieces@[i].to <= w.to,
{
    let mut pieces: Vec<Span> = Vec::new();
    let mut start: usize = w.from;
    let mut i: usize = w.from;
    let ghost whole = w.of(text@);
    assert(whole.skip(0) =~= whole);
    assert(spans_of(pieces@, text@) =~= Seq::empty());
    while i < w.to
        invariant
            w.within(text@.len()),
            whole == w.of(text@),
            w.from <= start <= i <= w.to,
            forall|j: int| start <= j < i ==> text@[j] != sep,
            split(whole, sep) == spans_of(pieces@, text@) + split(
                whole.skip(start - w.from),
                sep,
            ),
            spans_within(pieces@, text@.len()),
            forall|k: int| 0 <= k < pieces@.len() ==> w.from <= (#[trigger] pieces@[k]).from
                && pieces@[k].to <= w.to,
        decreases w.to - i,
    {
        if text[i] == sep {
            let ghost rest = whole.skip(start - w.from);
            proof {
                assert forall|j: int| 0 <= j < i - start implies rest[j] != sep by {
                    assert(rest[j] == text@[start + j]);
                }
                assert(rest[i - start] == text@[i as int]);
                lemma_find(rest, sep, i - start);
                assert(rest.take(i - start) =~= text@.subrange(start as int, i as int));
                assert(rest.skip(i - start + 1) =~= whole.skip(i + 1 - w.from));
            }
            let ghost before = pieces@;
            let piece = Span { from: start, to: i };
            pieces.push(piece);
            assert(spans_of(pieces@, text@) =~= spans_of(before, text@) + seq![
                text@.subrange(start as int, i as int),
            ]);
            start = i + 1;
        }
        i += 1;
    }
    let ghost rest = whole.skip(start - w.from);
    proof {
        assert forall|j: int| 0 <= j < w.to - start implies rest[j] != sep by {
            assert(rest[j] == text@[start + j]);
        }
        lemma_find(rest, sep, w.to - start);
        assert(rest =~= text@.subrange(start as int, w.to as int));
    }
    let ghost before = pieces@;
    pieces.push(Span { from: start, to: w.to });
    assert(spans_of(pieces@, text@) =~= spans_of(before, text@) + seq![rest]);
    pieces
}

proof fn lemma_trim_start(s: Seq<char>, n: int)
    requires
        0 <= n <= s.len(),
        forall|j: int| 0 <= j < n ==> is_whitespace(s[j]),
        n == s.len() || !is_whitespace(s[n]),
    ensures
        trim_start(s) == s.skip(n),
    decreases n,
{
    if n > 0 {
        let rest = s.drop_first();
        assert forall|j: int| 0 <= j < n - 1 implies is_whitespace(rest[j]) by {
            assert(rest[j] == s[j + 1]);
        }
        lemma_trim_start(rest, n - 1);
        assert(rest.skip(n - 1) =~= s.skip(n));
    } else {
        assert(s.skip(0) =~= s);
    }
}

proof fn lemma_trim_end(s: Seq<char>, n: int)
    requires
        0 <= n <= s.len(),
        forall|j: int| n <= j < s.len() ==> is_whitespace(s[j]),
        n == 0 || !is_whitespace(s[n - 1]),
    ensures
        trim_end(s) == s.take(n),
    decreases s.len() - n,
{
    if n < s.len() {
        let rest = s.drop_last();
        assert forall|j: int| n <= j < rest.len() implies is_whitespace(rest[j]) by {
            assert(rest[j] == s[j]);
        }
        lemma_trim_end(rest, n);
        assert(rest.take(n) =~= s.take(n));
    } else {
        assert(s.take(n) =~= s);
    }
}

proof fn lemma_word_len(s: Seq<char>, n: int)
    requires
        0 <= n <= s.len(),
        forall|j: int| 0 <= j < n ==> !is_whitespace(s[j]),
        n == s.len() || is_whitespace(s[n]),
    ensures
        word_len(s) == n,
    decreases n,
{
    if n > 0 {
        let rest = s.drop_first();
        assert forall|j: int| 0 <= j < n - 1 implies !is_whitespace(rest[j]) by {
            assert(rest[j] == s[j + 1]);
        }
        lemma_word_len(rest, n - 1);
    }
}

/// The window `w` of `text` without the white space at its start.
pub(crate) fn trim_start_span(text: &Vec<char>, w: &Span) -> (t: Span)
    requires
        w.within(text@.len()),
    ensures
        t.to == w.to,
        w.from <= t.from <= t.to,
        t.of(text@) == trim_start(w.of(text@)),
{
    let mut from: usize = w.from;
    while from < w.to && char_is_whitespace(text[from])
        invariant
            w.within(text@.len()),
            w.from <= from <= w.to,
            forall|j: int| w.from <= j < from ==> is_whitespace(text@[j]),
        decreases w.to - from,
    {
        from += 1;
    }
    proof {
        let whole = w.of(text@);
        assert forall|j: int| 0 <= j < from - w.from implies is_whitespace(whole[j]) by {
            assert(whole[j] == text@[w.from + j]);
        }
        lemma_trim_start(whole, from - w.from);
        assert(whole.skip(from - w.from) =~= text@.subrange(from as int, w.to as int));
    }
    Span { from, to: w.to }
}

/// The window `w` of `text` without the white space at its end.
pub(crate) fn trim_end_span(text: &Vec<char>, w: &Span) -> (t: Span)
    requires
        w.within(text@.len()),
    ensures
        t.from == w.from,
        t.from <= t.to <= w.to,
        t.of(text@) == trim_end(w.of(text@)),
{
    let mut to: usize = w.to;
    while to > w.from && char_is_whitespace(text[to - 1])
        invariant
            w.within(text@.len()),
            w.from <= to <= w.to,
            forall|j: int| to <= j < w.to ==> is_whitespace(text@[j]),
        decreases to - w.from,
    {
        to -= 1;
    }
    proof {
        let whole = w.of(text@);
        assert forall|j: int| to - w.from <= j < whole.len() implies is_whitespace(whole[j]) by {
            assert(whole[j] == text@[w.from + j]);
        }
        lemma_trim_end(whole, to - w.from);
        assert(whole.take(to - w.from) =~= text@.subrange(w.from as int, to as int));
    }
    Span { from: w.from, to }
}

/// The window `w` of `text` without the white space at both ends.
pub(crate) fn trim_span(text: &Vec<char>, w: &Span) -> (t: Span)
    requires
        w.within(text@.len()),
    ensures
        w.from <= t.from <= t.to <= w.to,
        t.of(text@) == trim(w.of(text@)),
{
    let t = trim_start_span(text, w);
    trim_end_span(text, &t)
}

/// The words in the window `w` of `text`.
pub(crate) fn words_span(text: &Vec<char>, w: &Span) -> (found: Vec<Span>)
    requires
        w.within(text@.len()),
    ensures
        spans_of(found@, text@) == words(w.of(text@)),
        spans_within(found@, text@.len()),
{
    let mut found: Vec<Span> = Vec::new();
    let mut rest = Span { from: w.from, to: w.to };
    assert(spans_of(found@, text@) =~= Seq::empty());
    loop
        invariant_except_break
            w.within(text@.len()),
            rest.to == w.to,
            w.from <= rest.from <= rest.to,
            words(w.of(text@)) == spans_of(found@, text@) + words(rest.of(text@)),
            spans_within(found@, text@.len()),
        ensures
            spans_of(found@, text@) == words(w.of(text@)),
            spans_within(found@, text@.len()),
        decreases rest.to - rest.from,
    {
        let t = trim_start_span(text, &rest);
        let mut end: usize = t.from;
        while end < t.to && !char_is_whitespace(text[end])
            invariant
                t.from <= end <= t.to <= text@.len(),
                forall|j: int| t.from <= j < end ==> !is_whitespace(text@[j]),
            decreases t.to - end,
        {
            end += 1;
        }
        let ghost trimmed = t.of(text@);
        proof {
            assert forall|j: int| 0 <= j < end - t.from implies !is_whitespace(trimmed[j]) by {
                assert(trimmed[j] == text@[t.from + j]);
            }
            if end < t.to {
                assert(trimmed[end - t.from] == text@[end as int]);
            }
            lemma_word_len(trimmed, end - t.from);
        }
        if end == t.from {
            assert(words(rest.of(text@)) =~= Seq::empty());
            break ;
        }
        let ghost before = found@;
        found.push(Span { from: t.from, to: end });
        proof {
            assert(trimmed.take(end - t.from) =~= text@.subrange(t.from as int, end as int));
            assert(trimmed.skip(end - t.from) =~= text@.subrange(end as int, w.to as int));
            assert(spans_of(found@, text@) =~= spans_of(before, text@) + seq![
                text@.subrange(t.from as int, end as int),
            ]);
        }
        rest = Span { from: end, to: w.to };
    }
    found
}

/// Whether the window `w` of `text` starts with `prefix`.
pub(crate) fn span_starts_with(text: &Vec<char>, w: &Span, prefix: &Vec<char>) -> (b: bool)
    requires
        w.within(text@.len()),
    ensures
        b == prefix@.is_prefix_of(w.of(text@)),
{
    if prefix.len() > w.to - w.from {
        return false;
    }
    let mut i: usize = 0;
    while i < prefix.len()
        invariant
            w.within(text@.len()),
            prefix@.len() <= w.to - w.from,
            i <= prefix@.len(),
            forall|j: int| 0 <= j < i ==> prefix@[j] == text@[w.from + j],
        decreases prefix.len() - i,
    {
        if prefix[i] != text[w.from + i] {
            proof {
                let whole = w.of(text@);
                assert(whole[i as int] == text@[w.from + i]);
                if prefix@.is_prefix_of(whole) {
                    assert(whole.subrange(0, prefix@.len() as int)[i as int] == whole[i as int]);
                }
            }
            return false;
        }
        i += 1;
    }
    proof {
        let whole = w.of(text@);
        assert(prefix@ =~= whole.subrange(0, prefix@.len() as int));
    }
    true
}

/// The text that the window `w` of `source` shows, as a string. `chars` are
/// the characters of `source`.
pub(crate) fn span_to_string(source: &str, w: &Span) -> (s: String)
    requires
        w.within(source@.len()),
    ensures
        s@ == w.of(source@),
{
    source.substring_char(w.from, w.to).to_owned()
}

/// Whether a character is one of the digits `0` to `9`.
pub open spec fn is_digit(c: char) -> bool {
    0x30 <= c as u32 <= 0x39
}

/// The value of a digit; 0 for any other character.
pub open spec fn digit_of(c: char) -> nat {
    if is_digit(c) {
        (c as u32 - 0x30) as nat
    } else {
        0
    }
}

/// The number that a run of digits writes in base ten.
pub open spec fn digits_value(s: Seq<char>) -> nat
    decreases s.len(),
{
    if s.len() == 0 {
        0
    } else {
        digits_value(s.drop_last()) * 10 + digit_of(s.last())
    }
}

/// Whether `s` is a run of at least one digit.
pub open spec fn all_digits(s: Seq<char>) -> bool {
    s.len() > 0 && forall|i: int| 0 <= i < s.len() ==> is_digit(#[trigger] s[i])
}

/// `s` without a plus sign at its start.
pub open spec fn unsigned_body(s: Seq<char>) -> Seq<char> {
    if s.len() > 0 && s[0] == '+' {
        s.drop_first()
    } else {
        s
    }
}

/// The number that `s` writes, where `s` is a run of digits, with or without
/// a plus sign in front, that writes a number of at most `max`.
pub open spec fn parse_unsigned(s: Seq<char>, max: nat) -> Option<nat> {
    let body = unsigned_body(s);
    if all_digits(body) && digits_value(body) <= max {
        Some(digits_value(body))
    } else {
        None
    }
}

proof fn lemma_digits_value_grows(s: Seq<char>, k: int)
    requires
        0 <= k <= s.len(),
    ensures
        digits_value(s.take(k)) <= digits_value(s),
    decreases s.len() - k,
{
    if k < s.len() {
        let shorter = s.drop_last();
        lemma_digits_value_grows(shorter, k);
        assert(shorter.take(k) =~= s.take(k));
        assert(digits_value(shorter) <= digits_value(s));
    } else {
        assert(s.take(k) =~= s);
    }
}

/// Reads the window `w` of `text` as a number of at most `max`.
pub(crate) fn parse_unsigned_span(text: &Vec<char>, w: &Span, max: u64) -> (value: Option<u64>)
    requires
        w.within(text@.len()),
    ensures
        value is Some <==> parse_unsigned(w.of(text@), max as nat) is Some,
        value matches Some(v) ==> parse_unsigned(w.of(text@), max as nat) == Some(v as nat),
{
    let mut from: usize = w.from;
    if from < w.to && text[from] == '+' {
        from += 1;
    }
    let ghost body = unsigned_body(w.of(text@));
    assert(body =~= text@.subrange(from as int, w.to as int)) by {
        if w.from < w.to {
            assert(w.of(text@)[0] == text@[w.from as int]);
        }
    }
    if from == w.to {
        return None;
    }
    let mut acc: u64 = 0;
    let mut i: usize = from;
    assert(body.take(0) =~= Seq::empty());
    while i < w.to
        invariant
            w.within(text@.len()),
            from <= i <= w.to,
            from < w.to,
            body == unsigned_body(w.of(text@)),
            body == text@.subrange(from as int, w.to as int),
            forall|j: int| 0 <= j < i - from ==> is_digit(#[trigger] body[j]),
            acc == digits_value(body.take(i - from)),
            acc <= max,
        decreases w.to - i,
    {
        let c = text[i];
        let u: u32 = c as u32;
        assert(body[i - from] == c);
        if u < 0x30 || u > 0x39 {
            assert(!is_digit(body[i - from]));
            return None;
        }
        let d: u64 = (u - 0x30) as u64;
        let ghost longer = body.take(i - from + 1);
        proof {
            assert(longer.drop_last() =~= body.take(i - from));
            assert(longer.last() == c);
            assert(digits_value(longer) == acc * 10 + d);
            lemma_digits_value_grows(body, i - from + 1);
        }
        let wide: u128 = acc as u128 * 10 + d as u128;
        if wide > max as u128 {
            return None;
        }
        acc = acc * 10 + d;
        i += 1;
    }
    assert(body.take(w.to - from) =~= body);
    Some(acc)
}

/// Whether the window `w` of `text` shows exactly `word`.
pub(crate) fn span_equals(text: &Vec<char>, w: &Span, word: &Vec<char>) -> (b: bool)
    requires
        w.within(text@.len()),
    ensures
        b == (w.of(text@) == word@),
{
    if word.len() != w.to - w.from {
        return false;
    }
    let b = span_starts_with(text, w, word);
    proof {
        let whole = w.of(text@);
        assert(whole.subrange(0, whole.len() as int) =~= whole);
    }
    b
}

/// The character of a digit below ten.
pub open spec fn digit_char(d: nat) -> char {
    (0x30 + d) as u8 as char
}

/// A number as std shows it: in base ten, without leading zeros.
pub open spec fn decimal(n: nat) -> Seq<char>
    decreases n,
{
    if n < 10 {
        seq![digit_char(n)]
    } else {
        decimal(n / 10).push(digit_char(n % 10))
    }
}

/// The text of one digit.
fn digit_text(d: u64) -> (text: &'static str)
    requires
        d < 10,
    ensures
        text@ == seq![digit_char(d as nat)],
{
    proof {
        reveal_strlit("0");
        reveal_strlit("1");
        reveal_strlit("2");
        reveal_strlit("3");
        reveal_strlit("4");
        reveal_strlit("5");
        reveal_strlit("6");
        reveal_strlit("7");
        reveal_strlit("8");
        reveal_strlit("9");
    }
    let text = if d == 0 {
        "0"
    } else if d == 1 {
        "1"
    } else if d == 2 {
        "2"
    } else if d == 3 {
        "3"
    } else if d == 4 {
        "4"
    } else if d == 5 {
        "5"
    } else if d == 6 {
        "6"
    } else if d == 7 {
        "7"
    } else if d == 8 {
        "8"
    } else {
        "9"
    };
    assert(text@ =~= seq![digit_char(d as nat)]);
    text
}

/// Writes a number in base ten at the end of `text`.
pub fn push_decimal(text: &mut String, n: u64)
    ensures
        final(text)@ == old(text)@ + decimal(n as nat),
    decreases n,
{
    if n >= 10 {
        push_decimal(text, n / 10);
    }
    let ghost before = text@;
    text.append(digit_text(n % 10));
    proof {
        if n >= 10 {
            assert(before + seq![digit_char((n % 10) as nat)] =~= old(text)@ + decimal(
                (n / 10) as nat,
            ).push(digit_char((n % 10) as nat)));
        }
    }
}

} // verus!
