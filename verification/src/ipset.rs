//! The membership store of the packet filter: named sets of client addresses,
//! as the `ipset` command prints them.

use vstd::prelude::*;
use vstd::string::*;
use crate::error::Error;
use crate::text::{
    chars_of, decimal, parse_unsigned, parse_unsigned_span, push_decimal, span_equals,
    span_to_string, spans_of, spans_within, split, split_span, strings_view, Span,
};
use crate::time::Interval;

verus! {

/// One member of a set.
#[derive(Debug, PartialEq, Eq)]
pub struct Entry {
    pub ip: String,
    /// How long the member stays in the set.
    pub timeout: Option<Interval>,
    /// How many bytes the member has sent.
    pub bytes: Option<usize>,
}

/// What a member holds.
pub struct EntryView {
    pub ip: Seq<char>,
    pub timeout: Option<Interval>,
    pub bytes: Option<usize>,
}

impl View for Entry {
    type V = EntryView;

    open spec fn view(&self) -> EntryView {
        EntryView { ip: self.ip@, timeout: self.timeout, bytes: self.bytes }
    }
}

impl Clone for Entry {
    fn clone(&self) -> (e: Entry)
        ensures
            e@ == self@,
    {
        Entry { ip: self.ip.clone(), timeout: self.timeout, bytes: self.bytes }
    }
}

/// The members of a list.
pub open spec fn entries_view(entries: Seq<Entry>) -> Seq<EntryView> {
    entries.map_values(|e: Entry| e@)
}

/// A number of seconds as a span of time.
pub open spec fn seconds(value: Option<nat>) -> Option<Interval> {
    match value {
        Some(secs) => Some(Interval { secs: secs as u64, nanos: 0 }),
        None => None,
    }
}

/// A number as a count of bytes.
pub open spec fn count(value: Option<nat>) -> Option<usize> {
    match value {
        Some(n) => Some(n as usize),
        None => None,
    }
}

/// The options that the words after a member's address set, read from the
/// left: `timeout` and `bytes` each take the word after them as their value,
/// and a value that is no number clears the option; any other word is passed
/// over, as is a last word that has nothing after it.
pub open spec fn tail_options(
    tail: Seq<Seq<char>>,
    timeout: Option<Interval>,
    bytes: Option<usize>,
) -> (Option<Interval>, Option<usize>)
    decreases tail.len(),
{
    if tail.len() <= 1 {
        (timeout, bytes)
    } else if tail[0] == "timeout"@ {
        tail_options(tail.skip(2), seconds(parse_unsigned(tail[1], u64::MAX as nat)), bytes)
    } else if tail[0] == "bytes"@ {
        tail_options(tail.skip(2), timeout, count(parse_unsigned(tail[1], usize::MAX as nat)))
    } else {
        tail_options(tail.skip(1), timeout, bytes)
    }
}

/// What one line of the listing says.
pub enum Line {
    /// The header of a set, or an empty line.
    Ignored,
    /// A member.
    Add(EntryView),
    /// Anything else.
    Malformed,
}

/// Reads one line of the listing, cut at single spaces: `add`, the set's
/// name, the address and then options is a member; a line that begins with
/// `create` and an empty line say nothing; any other line is malformed.
pub open spec fn read_line(line: Seq<char>) -> Line {
    let words = split(line, ' ');
    if words.len() >= 3 && words[0] == "add"@ {
        let options = tail_options(words.skip(3), None, None);
        Line::Add(EntryView { ip: words[2], timeout: options.0, bytes: options.1 })
    } else if words[0] == "create"@ {
        Line::Ignored
    } else if words.len() == 1 && words[0].len() == 0 {
        Line::Ignored
    } else {
        Line::Malformed
    }
}

/// The members that the lines hold, in order, or `None` where a line is
/// malformed.
pub open spec fn read_lines(lines: Seq<Seq<char>>) -> Option<Seq<EntryView>>
    decreases lines.len(),
{
    if lines.len() == 0 {
        Some(Seq::empty())
    } else {
        match (read_lines(lines.drop_last()), read_line(lines.last())) {
            (Some(entries), Line::Add(e)) => Some(entries.push(e)),
            (Some(entries), Line::Ignored) => Some(entries),
            _ => None,
        }
    }
}

/// The members that a listing holds.
pub open spec fn entries_of(output: Seq<char>) -> Option<Seq<EntryView>> {
    read_lines(split(output, '\n'))
}

/// A named set.
#[derive(Debug, PartialEq, Eq)]
pub struct IPSet {
    name: String,
}

impl View for IPSet {
    type V = Seq<char>;

    closed spec fn view(&self) -> Seq<char> {
        self.name@
    }
}

enum ReadLine {
    Ignored,
    Add(Entry),
    Malformed,
}

impl ReadLine {
    spec fn line(self) -> Line {
        match self {
            ReadLine::Ignored => Line::Ignored,
            ReadLine::Add(e) => Line::Add(e@),
            ReadLine::Malformed => Line::Malformed,
        }
    }
}

proof fn lemma_malformed_line_spoils(lines: Seq<Seq<char>>, i: int, k: int)
    requires
        0 <= i < k <= lines.len(),
        read_line(lines[i]) is Malformed,
    ensures
        read_lines(lines.take(k)) is None,
    decreases k,
{
    let upto = lines.take(k);
    assert(upto.last() == lines[k - 1]);
    assert(upto.drop_last() =~= lines.take(k - 1));
    if i < k - 1 {
        lemma_malformed_line_spoils(lines, i, k - 1);
    }
}

fn read_options(text: &Vec<char>, words: &Vec<Span>) -> (options: (Option<Interval>, Option<usize>))
    requires
        spans_within(words@, text@.len()),
        words@.len() >= 3,
    ensures
        options == tail_options(spans_of(words@, text@).skip(3), None, None),
{
    let timeout_word = chars_of("timeout");
    let bytes_word = chars_of("bytes");
    let ghost all = spans_of(words@, text@);
    let mut timeout: Option<Interval> = None;
    let mut bytes: Option<usize> = None;
    let mut i: usize = 3;
    while words.len() - i > 1
        invariant
            spans_within(words@, text@.len()),
            all == spans_of(words@, text@),
            3 <= i <= words@.len(),
            timeout_word@ == "timeout"@,
            bytes_word@ == "bytes"@,
            tail_options(all.skip(3), None, None) == tail_options(all.skip(i as int), timeout, bytes),
        decreases words.len() - i,
    {
        let ghost tail = all.skip(i as int);
        assert(tail[0] == words@[i as int].of(text@));
        assert(tail[1] == words@[i + 1].of(text@));
        if span_equals(text, &words[i], &timeout_word) {
            assert(tail.skip(2) =~= all.skip(i + 2));
            timeout = match parse_unsigned_span(text, &words[i + 1], u64::MAX) {
                Some(secs) => Some(Interval::from_secs(secs)),
                None => None,
            };
            i += 2;
        } else if span_equals(text, &words[i], &bytes_word) {
            assert(tail.skip(2) =~= all.skip(i + 2));
            bytes = match parse_unsigned_span(text, &words[i + 1], usize::MAX as u64) {
                Some(n) => Some(n as usize),
                None => None,
            };
            i += 2;
        } else {
            assert(tail.skip(1) =~= all.skip(i + 1));
            i += 1;
        }
    }
    (timeout, bytes)
}

fn read_line_span(source: &str, text: &Vec<char>, line: &Span) -> (read: ReadLine)
    requires
        text@ == source@,
        line.within(text@.len()),
    ensures
        read.line() == read_line(line.of(text@)),
{
    let words = split_span(text, line, ' ');
    let add_word = chars_of("add");
    let create_word = chars_of("create");
    assert(words@.len() >= 1) by {
        assert(spans_of(words@, text@).len() == words@.len());
        assert(split(line.of(text@), ' ').len() >= 1);
    }
    assert(spans_of(words@, text@)[0] == words@[0].of(text@));
    if words.len() >= 3 && span_equals(text, &words[0], &add_word) {
        let options = read_options(text, &words);
        assert(spans_of(words@, text@)[2] == words@[2].of(text@));
        ReadLine::Add(
            Entry { ip: span_to_string(source, &words[2]), timeout: options.0, bytes: options.1 },
        )
    } else if span_equals(text, &words[0], &create_word) {
        ReadLine::Ignored
    } else if words.len() == 1 && words[0].from == words[0].to {
        ReadLine::Ignored
    } else {
        ReadLine::Malformed
    }
}

impl IPSet {
    pub fn new(name: &str) -> (set: Self)
        ensures
            set@ == name@,
    {
        Self { name: name.to_owned() }
    }

    /// The name of the set.
    pub fn name(&self) -> (name: &str)
        ensures
            name@ == self@,
    {
        self.name.as_str()
    }

    /// The arguments with which `ipset` lists the set.
    pub fn save_args(&self) -> (args: Vec<String>)
        ensures
            args@.len() == 2,
            args@[0]@ == "save"@,
            args@[1]@ == self@,
    {
        let mut args: Vec<String> = Vec::new();
        args.push(String::from_str("save"));
        args.push(self.name.clone());
        args
    }

    /// The arguments with which `ipset` adds `entry` to the set.
    pub fn add(&self, entry: &str) -> (args: Vec<String>)
        ensures
            args@.len() == 3,
            args@[0]@ == "add"@,
            args@[1]@ == self@,
            args@[2]@ == entry@,
    {
        let mut args: Vec<String> = Vec::new();
        args.push(String::from_str("add"));
        args.push(self.name.clone());
        args.push(String::from_str(entry));
        args
    }

    /// The arguments with which `ipset` adds `entry` to the set for `timeout`
    /// seconds, or for good where no timeout is given.
    pub fn add_with_timeout(&self, entry: &str, timeout: Option<u64>) -> (args: Vec<String>)
        ensures
            strings_view(args@) == match timeout {
                Some(secs) => seq!["add"@, self@, entry@, "timeout"@, decimal(secs as nat)],
                None => seq!["add"@, self@, entry@],
            },
    {
        let mut args = self.add(entry);
        assert(strings_view(args@) =~= seq!["add"@, self@, entry@]);
        match timeout {
            Some(secs) => {
                args.push(String::from_str("timeout"));
                let mut shown = String::new();
                push_decimal(&mut shown, secs);
                assert(shown@ =~= decimal(secs as nat));
                args.push(shown);
                assert(strings_view(args@) =~= seq![
                    "add"@,
                    self@,
                    entry@,
                    "timeout"@,
                    decimal(secs as nat),
                ]);
            },
            None => {},
        }
        args
    }

    /// Settles a run of the command that adds a member: a run that ended
    /// with a non-zero status is a failure.
    pub fn added(success: bool) -> (result: Result<(), Error>)
        ensures
            success ==> result is Ok,
            !success ==> result == Err::<(), Error>(Error::IoFailure),
    {
        if success {
            Ok(())
        } else {
            Err(Error::IoFailure)
        }
    }

    /// The members of the set, read from what `ipset save` printed.
    pub fn entries(&self, output: &str) -> (result: Result<Vec<Entry>, Error>)
        ensures
            result is Ok <==> entries_of(output@) is Some,
            result matches Ok(entries) ==> entries_of(output@) == Some(entries_view(entries@)),
            result matches Err(e) ==> e == Error::ParseFailure,
    {
        let text = chars_of(output);
        let whole = Span { from: 0, to: text.len() };
        assert(whole.of(text@) =~= text@);
        let lines = split_span(&text, &whole, '\n');
        let ghost all = spans_of(lines@, text@);
        let mut entries: Vec<Entry> = Vec::new();
        let mut i: usize = 0;
        assert(all.take(0) =~= Seq::empty());
        assert(entries_view(entries@) =~= Seq::empty());
        while i < lines.len()
            invariant
                text@ == output@,
                all == spans_of(lines@, text@),
                all == split(output@, '\n'),
                spans_within(lines@, text@.len()),
                i <= lines@.len(),
                read_lines(all.take(i as int)) == Some(entries_view(entries@)),
            decreases lines.len() - i,
        {
            let read = read_line_span(output, &text, &lines[i]);
            proof {
                assert(all[i as int] == lines@[i as int].of(text@));
                assert(all.take(i + 1).drop_last() =~= all.take(i as int));
                assert(all.take(i + 1).last() == all[i as int]);
            }
            match read {
                ReadLine::Ignored => {},
                ReadLine::Add(entry) => {
                    let ghost before = entries@;
                    entries.push(entry);
                    assert(entries_view(entries@) =~= entries_view(before).push(entry@));
                },
                ReadLine::Malformed => {
                    proof {
                        lemma_malformed_line_spoils(all, i as int, all.len() as int);
                        assert(all.take(all.len() as int) =~= all);
                    }
                    return Err(Error::ParseFailure);
                },
            }
            i += 1;
        }
        assert(all.take(i as int) =~= all);
        Ok(entries)
    }
}

} // verus!
