//! The prepaid-balance pipeline of the mobile provider: decoding the modem's
//! reply, finding the balance in it, retrying, and the rule for changing the
//! tariff.

use vstd::prelude::*;
use vstd::string::*;
use vstd::utf8::{decode_utf8, encode_utf8, valid_utf8};
use std::collections::VecDeque;
use crate::error::Error;
use crate::number::Number;
use crate::persistent_state::{Mutation, MutationView, PersistentState, PersistentStateView};
use crate::time::{Interval, Timestamp};
use crate::text::{
    chars_of, span_starts_with, span_to_string, spans_of, spans_within, split, split_span,
    strings_view, trim, trim_span, words, words_span, Span,
};

verus! {

/// The value of a hexadecimal digit, in either case.
pub open spec fn hex_digit(b: u8) -> Option<u8> {
    if 0x30 <= b <= 0x39 {
        Some((b - 0x30) as u8)
    } else if 0x61 <= b <= 0x66 {
        Some((b - 0x61 + 10) as u8)
    } else if 0x41 <= b <= 0x46 {
        Some((b - 0x41 + 10) as u8)
    } else {
        None
    }
}

/// The byte that the `i`-th pair of hexadecimal digits of `hex` writes.
pub open spec fn hex_pair(hex: Seq<u8>, i: int) -> Option<u8> {
    match (hex_digit(hex[2 * i]), hex_digit(hex[2 * i + 1])) {
        (Some(high), Some(low)) => Some((16 * high + low) as u8),
        _ => None,
    }
}

/// Whether `hex` consists of pairs of hexadecimal digits.
pub open spec fn hex_valid(hex: Seq<u8>) -> bool {
    forall|i: int| 0 <= i < hex.len() / 2 ==> (#[trigger] hex_pair(hex, i)) is Some
}

/// The bytes that the pairs of hexadecimal digits of `hex` write.
pub open spec fn hex_decoded(hex: Seq<u8>) -> Seq<u8> {
    Seq::new((hex.len() / 2) as nat, |i: int| hex_pair(hex, i).unwrap())
}

/// `hex` cut down to whole groups of `group` bytes.
pub open spec fn whole_groups(hex: Seq<u8>, group: nat) -> Seq<u8> {
    hex.take((hex.len() - hex.len() % group) as int)
}

/// The 16-bit units that `bytes` hold, most significant byte first.
pub open spec fn big_endian_units(bytes: Seq<u8>) -> Seq<u16> {
    Seq::new((bytes.len() / 2) as nat, |i: int| (bytes[2 * i] * 256 + bytes[2 * i + 1]) as u16)
}

pub open spec fn is_high_surrogate(unit: u16) -> bool {
    0xd800 <= unit <= 0xdbff
}

pub open spec fn is_low_surrogate(unit: u16) -> bool {
    0xdc00 <= unit <= 0xdfff
}

/// The text that UTF-16 `units` encode: a unit outside the surrogate range
/// is a character by itself, a high surrogate and the low surrogate after it
/// are one character, and any other surrogate makes the whole invalid.
pub open spec fn utf16_text(units: Seq<u16>) -> Option<Seq<char>>
    decreases units.len(),
{
    if units.len() == 0 {
        Some(Seq::empty())
    } else if !is_high_surrogate(units[0]) && !is_low_surrogate(units[0]) {
        match utf16_text(units.skip(1)) {
            Some(rest) => Some(seq![units[0] as char] + rest),
            None => None,
        }
    } else if is_high_surrogate(units[0]) && units.len() >= 2 && is_low_surrogate(units[1]) {
        match utf16_text(units.skip(2)) {
            Some(rest) => Some(
                seq![(0x10000 + (units[0] - 0xd800) * 0x400 + (units[1] - 0xdc00)) as char] + rest,
            ),
            None => None,
        }
    } else {
        None
    }
}

/// The text of a payload of hexadecimal digits that write UCS-2, or `None`
/// where the payload is no such thing. Digits beyond the last whole group of
/// four are ignored.
pub open spec fn ucs2_in_hex(hex: Seq<u8>) -> Option<Seq<char>> {
    let kept = whole_groups(hex, 4);
    if hex_valid(kept) {
        utf16_text(big_endian_units(hex_decoded(kept)))
    } else {
        None
    }
}

/// The text of a payload of hexadecimal digits that write UTF-8, or `None`
/// where the payload is no such thing. A digit beyond the last whole pair is
/// ignored.
pub open spec fn utf8_in_hex(hex: Seq<u8>) -> Option<Seq<char>> {
    let kept = whole_groups(hex, 2);
    if hex_valid(kept) && valid_utf8(hex_decoded(kept)) {
        Some(decode_utf8(hex_decoded(kept)))
    } else {
        None
    }
}

/// `String::from_utf16` of std: the text that the UTF-16 units encode, or
/// nothing where they hold an unpaired surrogate.
#[verifier::external_body]
fn text_from_utf16(units: &Vec<u16>) -> (text: Option<String>)
    ensures
        text is Some <==> utf16_text(units@) is Some,
        text matches Some(s) ==> utf16_text(units@) == Some(s@),
{
    match String::from_utf16(units) {
        Ok(s) => Some(s),
        Err(_) => None,
    }
}

/// `String::from_utf8` of std: the text that the bytes encode, or nothing
/// where they are not valid UTF-8.
#[verifier::external_body]
fn text_from_utf8(bytes: Vec<u8>) -> (text: Option<String>)
    ensures
        text is Some <==> valid_utf8(bytes@),
        text matches Some(s) ==> s@ == decode_utf8(bytes@),
{
    match String::from_utf8(bytes) {
        Ok(s) => Some(s),
        Err(_) => None,
    }
}

fn hex_digit_value(b: u8) -> (v: Option<u8>)
    ensures
        v == hex_digit(b),
{
    if 0x30 <= b && b <= 0x39 {
        Some(b - 0x30)
    } else if 0x61 <= b && b <= 0x66 {
        Some(b - 0x61 + 10)
    } else if 0x41 <= b && b <= 0x46 {
        Some(b - 0x41 + 10)
    } else {
        None
    }
}

/// Reads the first `len` bytes of `hex` as pairs of hexadecimal digits.
fn hex_to_bytes(hex: &[u8], len: usize) -> (bytes: Option<Vec<u8>>)
    requires
        len <= hex@.len(),
        len % 2 == 0,
    ensures
        bytes is Some <==> hex_valid(hex@.take(len as int)),
        bytes matches Some(v) ==> v@ == hex_decoded(hex@.take(len as int)),
{
    let ghost kept = hex@.take(len as int);
    let mut bytes: Vec<u8> = Vec::new();
    let mut i: usize = 0;
    while i < len / 2
        invariant
            len <= hex@.len(),
            len % 2 == 0,
            kept == hex@.take(len as int),
            i <= len / 2,
            bytes@.len() == i,
            forall|j: int| 0 <= j < i ==> (#[trigger] hex_pair(kept, j)) == Some(bytes@[j]),
        decreases len / 2 - i,
    {
        let high = hex_digit_value(hex[2 * i]);
        let low = hex_digit_value(hex[2 * i + 1]);
        assert(kept[2 * i] == hex@[2 * i]);
        assert(kept[2 * i + 1] == hex@[2 * i + 1]);
        match (high, low) {
            (Some(h), Some(l)) => {
                bytes.push(16 * h + l);
            },
            _ => {
                assert(hex_pair(kept, i as int) is None);
                return None;
            },
        }
        i += 1;
    }
    assert(bytes@ =~= hex_decoded(kept));
    Some(bytes)
}

/// Decodes a payload of hexadecimal digits that write UCS-2 text.
pub fn decode_ucs2_in_hex(hex: &str) -> (text: Result<String, Error>)
    ensures
        text is Ok <==> ucs2_in_hex(hex.spec_bytes()) is Some,
        text matches Ok(s) ==> ucs2_in_hex(hex.spec_bytes()) == Some(s@),
        text matches Err(e) ==> e == Error::DecodeFailure,
{
    let raw = hex.as_bytes();
    let len = raw.len() - raw.len() % 4;
    let bytes = match hex_to_bytes(raw, len) {
        Some(bytes) => bytes,
        None => {
            return Err(Error::DecodeFailure);
        },
    };
    let mut units: Vec<u16> = Vec::new();
    let mut i: usize = 0;
    while i < bytes.len() / 2
        invariant
            i <= bytes@.len() / 2,
            units@.len() == i,
            forall|j: int|
                0 <= j < i ==> units@[j] == (bytes@[2 * j] * 256 + bytes@[2 * j + 1]) as u16,
        decreases bytes.len() / 2 - i,
    {
        let high: u16 = bytes[2 * i] as u16;
        let low: u16 = bytes[2 * i + 1] as u16;
        units.push(high * 256 + low);
        i += 1;
    }
    assert(units@ =~= big_endian_units(bytes@));
    match text_from_utf16(&units) {
        Some(s) => Ok(s),
        None => Err(Error::DecodeFailure),
    }
}

/// Decodes a payload of hexadecimal digits that write UTF-8 text.
pub fn decode_utf8_in_hex(hex: &str) -> (text: Result<String, Error>)
    ensures
        text is Ok <==> utf8_in_hex(hex.spec_bytes()) is Some,
        text matches Ok(s) ==> utf8_in_hex(hex.spec_bytes()) == Some(s@),
        text matches Err(e) ==> e == Error::DecodeFailure,
{
    let raw = hex.as_bytes();
    let len = raw.len() - raw.len() % 2;
    let bytes = match hex_to_bytes(raw, len) {
        Some(bytes) => bytes,
        None => {
            return Err(Error::DecodeFailure);
        },
    };
    match text_from_utf8(bytes) {
        Some(s) => Ok(s),
        None => Err(Error::DecodeFailure),
    }
}

/// An optional value as a sequence of at most one value.
pub open spec fn option_seq<T>(value: Option<T>) -> Seq<T> {
    match value {
        Some(v) => seq![v],
        None => Seq::empty(),
    }
}

/// The first line, white space at its ends removed, that starts with the
/// marker of the provider's reply.
pub open spec fn response_line(lines: Seq<Seq<char>>) -> Option<Seq<char>>
    decreases lines.len(),
{
    if lines.len() == 0 {
        None
    } else if "+CUSD: "@.is_prefix_of(trim(lines[0])) {
        Some(trim(lines[0]))
    } else {
        response_line(lines.skip(1))
    }
}

/// The payload of the provider's reply in the output of the balance command:
/// what stands between the first and the second double quote of the reply
/// line, or after the first one where there is no second.
pub open spec fn payload_of(output: Seq<char>) -> Option<Seq<char>> {
    match response_line(split(output, '\n')) {
        Some(line) => {
            let parts = split(line, '"');
            if parts.len() >= 2 {
                Some(parts[1])
            } else {
                None
            }
        },
        None => None,
    }
}

/// The word of a decoded reply that should be the balance: the second word
/// of a reply that starts with `Баланс `, the third of one that starts with
/// `You have `.
pub open spec fn token_of(message: Seq<char>) -> Option<Seq<char>> {
    let found = words(message);
    if "Баланс "@.is_prefix_of(message) {
        if found.len() > 1 {
            Some(found[1])
        } else {
            None
        }
    } else if "You have "@.is_prefix_of(message) {
        if found.len() > 2 {
            Some(found[2])
        } else {
            None
        }
    } else {
        None
    }
}

/// The balance word of one way to decode the payload, if that way decodes it
/// and the decoded reply has such a word.
pub open spec fn candidate_token(decoded: Option<Seq<char>>) -> Seq<Seq<char>> {
    match decoded {
        Some(message) => option_seq(token_of(message)),
        None => Seq::empty(),
    }
}

/// The words of a payload that may be the balance, in the order in which
/// they are to be tried: the one of the UCS-2 reading, then the one of the
/// UTF-8 reading.
pub open spec fn tokens_of_payload(payload: Seq<char>) -> Seq<Seq<char>> {
    candidate_token(ucs2_in_hex(encode_utf8(payload))) + candidate_token(
        utf8_in_hex(encode_utf8(payload)),
    )
}

/// The words in the output of the balance command that may be the balance,
/// or `None` where the output holds no reply of the provider.
pub open spec fn tokens_in(output: Seq<char>) -> Option<Seq<Seq<char>>> {
    match payload_of(output) {
        Some(payload) => Some(tokens_of_payload(payload)),
        None => None,
    }
}

/// Finds the payload of the provider's reply in the output of the balance
/// command.
pub fn response_payload(output: &str) -> (payload: Result<String, Error>)
    ensures
        payload is Ok <==> payload_of(output@) is Some,
        payload matches Ok(p) ==> payload_of(output@) == Some(p@),
        payload matches Err(e) ==> e == Error::ParseFailure,
{
    let text = chars_of(output);
    let marker = chars_of("+CUSD: ");
    let whole = Span { from: 0, to: text.len() };
    assert(whole.of(text@) =~= text@);
    let lines = split_span(&text, &whole, '\n');
    let ghost all = spans_of(lines@, text@);
    let mut i: usize = 0;
    assert(all.skip(0) =~= all);
    while i < lines.len()
        invariant
            text@ == output@,
            marker@ == "+CUSD: "@,
            all == spans_of(lines@, text@),
            all == split(output@, '\n'),
            spans_within(lines@, text@.len()),
            i <= lines@.len(),
            response_line(all) == response_line(all.skip(i as int)),
        decreases lines.len() - i,
    {
        let ghost rest = all.skip(i as int);
        assert(rest[0] == lines@[i as int].of(text@));
        assert(rest.skip(1) =~= all.skip(i + 1));
        let line = trim_span(&text, &lines[i]);
        if span_starts_with(&text, &line, &marker) {
            let parts = split_span(&text, &line, '"');
            if parts.len() >= 2 {
                assert(spans_of(parts@, text@)[1] == parts@[1].of(text@));
                return Ok(span_to_string(output, &parts[1]));
            } else {
                assert(spans_of(parts@, text@).len() == parts@.len());
                return Err(Error::ParseFailure);
            }
        }
        i += 1;
    }
    assert(all.skip(i as int).len() == 0);
    Err(Error::ParseFailure)
}

/// Finds the word of a decoded reply that should be the balance.
pub fn balance_token(message: &str) -> (token: Option<String>)
    ensures
        token is Some <==> token_of(message@) is Some,
        token matches Some(t) ==> token_of(message@) == Some(t@),
{
    let text = chars_of(message);
    let whole = Span { from: 0, to: text.len() };
    assert(whole.of(text@) =~= text@);
    let local = chars_of("Баланс ");
    let english = chars_of("You have ");
    let position: usize = if span_starts_with(&text, &whole, &local) {
        1
    } else if span_starts_with(&text, &whole, &english) {
        2
    } else {
        return None;
    };
    let found = words_span(&text, &whole);
    assert(spans_of(found@, text@).len() == found@.len());
    if found.len() > position {
        assert(spans_of(found@, text@)[position as int] == found@[position as int].of(text@));
        Some(span_to_string(message, &found[position]))
    } else {
        None
    }
}

/// Finds, in the output of the balance command, the words that may be the
/// balance, in the order in which they are to be tried.
pub fn balance_tokens(output: &str) -> (tokens: Result<Vec<String>, Error>)
    ensures
        tokens is Ok <==> tokens_in(output@) is Some,
        tokens matches Ok(t) ==> tokens_in(output@) == Some(strings_view(t@)),
        tokens matches Err(e) ==> e == Error::ParseFailure,
{
    let payload = match response_payload(output) {
        Ok(payload) => payload,
        Err(e) => {
            return Err(e);
        },
    };
    let mut tokens: Vec<String> = Vec::new();
    assert(strings_view(tokens@) =~= Seq::empty());
    match decode_ucs2_in_hex(payload.as_str()) {
        Ok(message) => {
            match balance_token(message.as_str()) {
                Some(token) => {
                    tokens.push(token);
                    assert(strings_view(tokens@) =~= seq![token@]);
                },
                None => {},
            }
        },
        Err(_) => {},
    }
    let ghost first = strings_view(tokens@);
    assert(first == candidate_token(ucs2_in_hex(encode_utf8(payload@))));
    match decode_utf8_in_hex(payload.as_str()) {
        Ok(message) => {
            match balance_token(message.as_str()) {
                Some(token) => {
                    tokens.push(token);
                    assert(strings_view(tokens@) =~= first + seq![token@]);
                },
                None => {
                    assert(strings_view(tokens@) =~= first + Seq::empty());
                },
            }
        },
        Err(_) => {
            assert(strings_view(tokens@) =~= first + Seq::empty());
        },
    }
    Ok(tokens)
}

/// The settings of the mobile provider.
#[derive(Clone, Debug, PartialEq, Eq)]
pub struct MobileProvider {
    pub update_tariff_command: String,
    pub get_balance_command: String,
    pub get_balance_crontab: Option<String>,
    pub low_balance_threshold: Number,
    pub low_download_speed_threshold: Number,
    pub min_update_tariff_interval: Interval,
    pub telegram_chat_ids: Vec<String>,
    pub phone_number: String,
    pub get_balance_retry_count: u8,
    pub get_balance_retry_interval: Interval,
    pub restart_lte_command: String,
}

/// What the pipeline asks its caller to do next.
#[derive(Debug, PartialEq, Eq)]
pub enum BalanceAction {
    /// Run this shell command and report what it printed.
    Query(String),
    /// Read this word as a number and report the number.
    Parse(String),
    /// Wait this long and report back.
    Sleep(Interval),
    /// Run this shell command, which restarts the modem, and report back.
    Restart(String),
    /// The pipeline has ended with this result.
    Finish(Result<Number, Error>),
}

/// What the caller reports to the pipeline.
#[derive(Debug, PartialEq, Eq)]
pub enum BalanceEvent {
    /// What the balance command printed, or `None` where it could not be run
    /// or printed no text.
    Output(Option<String>),
    /// The number that the word is, or `None` where it is none.
    Parsed(Option<Number>),
    /// The wait is over.
    Slept,
    /// The restart command has been run, whether it succeeded or not.
    Restarted,
}

pub enum BalanceActionView {
    Query(Seq<char>),
    Parse(Seq<char>),
    Sleep(Interval),
    Restart(Seq<char>),
    Finish(Result<Number, Error>),
}

pub enum BalanceEventView {
    Output(Option<Seq<char>>),
    Parsed(Option<Number>),
    Slept,
    Restarted,
}

impl View for BalanceAction {
    type V = BalanceActionView;

    open spec fn view(&self) -> BalanceActionView {
        match *self {
            BalanceAction::Query(command) => BalanceActionView::Query(command@),
            BalanceAction::Parse(token) => BalanceActionView::Parse(token@),
            BalanceAction::Sleep(interval) => BalanceActionView::Sleep(interval),
            BalanceAction::Restart(command) => BalanceActionView::Restart(command@),
            BalanceAction::Finish(result) => BalanceActionView::Finish(result),
        }
    }
}

impl View for BalanceEvent {
    type V = BalanceEventView;

    open spec fn view(&self) -> BalanceEventView {
        match *self {
            BalanceEvent::Output(Some(output)) => BalanceEventView::Output(Some(output@)),
            BalanceEvent::Output(None) => BalanceEventView::Output(None),
            BalanceEvent::Parsed(number) => BalanceEventView::Parsed(number),
            BalanceEvent::Slept => BalanceEventView::Slept,
            BalanceEvent::Restarted => BalanceEventView::Restarted,
        }
    }
}

/// Where the pipeline stands.
pub enum PhaseView {
    /// The balance command is running.
    Querying,
    /// A word is being read as a number; `remaining` are the words to try
    /// after it.
    Parsing { remaining: Seq<Seq<char>> },
    /// The pipeline waits after a failed attempt.
    Sleeping,
    /// The modem is being restarted.
    Restarting,
    /// The result has been handed out.
    Finished,
}

/// What a run of the pipeline holds.
pub struct BalanceRunView {
    pub query_command: Seq<char>,
    pub restart_command: Seq<char>,
    pub retry_interval: Interval,
    /// How many attempts have not been started yet.
    pub attempts_left: nat,
    pub phase: PhaseView,
    /// The balance, once an attempt has found it.
    pub balance: Option<Number>,
}

/// The result of a run: the balance, or the failure of every attempt.
pub open spec fn outcome(balance: Option<Number>) -> Result<Number, Error> {
    match balance {
        Some(n) => Ok(n),
        None => Err(Error::BalanceUnavailable),
    }
}

/// An attempt has failed: the pipeline waits.
pub open spec fn attempt_failed(run: BalanceRunView) -> (BalanceRunView, BalanceActionView) {
    (
        BalanceRunView { phase: PhaseView::Sleeping, ..run },
        BalanceActionView::Sleep(run.retry_interval),
    )
}

/// The pipeline starts the next attempt, or restarts the modem where none is
/// left.
pub open spec fn proceed(run: BalanceRunView) -> (BalanceRunView, BalanceActionView) {
    if run.attempts_left > 0 {
        (
            BalanceRunView {
                attempts_left: (run.attempts_left - 1) as nat,
                phase: PhaseView::Querying,
                ..run
            },
            BalanceActionView::Query(run.query_command),
        )
    } else {
        (
            BalanceRunView { phase: PhaseView::Restarting, ..run },
            BalanceActionView::Restart(run.restart_command),
        )
    }
}

/// The pipeline tries the first of `tokens`; with none to try, the attempt
/// has failed.
pub open spec fn try_tokens(run: BalanceRunView, tokens: Seq<Seq<char>>) -> (
    BalanceRunView,
    BalanceActionView,
) {
    if tokens.len() > 0 {
        (
            BalanceRunView { phase: PhaseView::Parsing { remaining: tokens.skip(1) }, ..run },
            BalanceActionView::Parse(tokens[0]),
        )
    } else {
        attempt_failed(run)
    }
}

/// One step of the pipeline. A report that does not answer what the pipeline
/// asked for counts as the failure of what it asked for.
pub open spec fn next(run: BalanceRunView, event: BalanceEventView) -> (
    BalanceRunView,
    BalanceActionView,
) {
    match run.phase {
        PhaseView::Querying => match event {
            BalanceEventView::Output(Some(output)) => match tokens_in(output) {
                Some(tokens) => try_tokens(run, tokens),
                None => attempt_failed(run),
            },
            _ => attempt_failed(run),
        },
        PhaseView::Parsing { remaining } => match event {
            BalanceEventView::Parsed(Some(number)) => (
                BalanceRunView { balance: Some(number), phase: PhaseView::Restarting, ..run },
                BalanceActionView::Restart(run.restart_command),
            ),
            _ => try_tokens(run, remaining),
        },
        PhaseView::Sleeping => proceed(run),
        PhaseView::Restarting => (
            BalanceRunView { phase: PhaseView::Finished, ..run },
            BalanceActionView::Finish(outcome(run.balance)),
        ),
        PhaseView::Finished => (run, BalanceActionView::Finish(outcome(run.balance))),
    }
}

/// The run of a provider before its first attempt.
pub open spec fn fresh_run(provider: &MobileProvider) -> BalanceRunView {
    BalanceRunView {
        query_command: provider.get_balance_command@,
        restart_command: provider.restart_lte_command@,
        retry_interval: provider.get_balance_retry_interval,
        attempts_left: provider.get_balance_retry_count as nat,
        phase: PhaseView::Sleeping,
        balance: None,
    }
}

#[derive(Debug, PartialEq, Eq)]
enum Phase {
    Querying,
    Parsing { remaining: VecDeque<String> },
    Sleeping,
    Restarting,
    Finished,
}

impl View for Phase {
    type V = PhaseView;

    closed spec fn view(&self) -> PhaseView {
        match *self {
            Phase::Querying => PhaseView::Querying,
            Phase::Parsing { remaining } => PhaseView::Parsing {
                remaining: strings_view(remaining@),
            },
            Phase::Sleeping => PhaseView::Sleeping,
            Phase::Restarting => PhaseView::Restarting,
            Phase::Finished => PhaseView::Finished,
        }
    }
}

/// A run of the balance pipeline.
#[derive(Debug, PartialEq, Eq)]
pub struct BalanceRun {
    query_command: String,
    restart_command: String,
    retry_interval: Interval,
    attempts_left: u8,
    phase: Phase,
    balance: Option<Number>,
}

impl View for BalanceRun {
    type V = BalanceRunView;

    closed spec fn view(&self) -> BalanceRunView {
        BalanceRunView {
            query_command: self.query_command@,
            restart_command: self.restart_command@,
            retry_interval: self.retry_interval,
            attempts_left: self.attempts_left as nat,
            phase: self.phase@,
            balance: self.balance,
        }
    }
}

impl BalanceRun {
    fn attempt_failed(&mut self) -> (action: BalanceAction)
        ensures
            (final(self)@, action@) == attempt_failed(old(self)@),
    {
        self.phase = Phase::Sleeping;
        BalanceAction::Sleep(self.retry_interval)
    }

    fn proceed(&mut self) -> (action: BalanceAction)
        ensures
            (final(self)@, action@) == proceed(old(self)@),
    {
        if self.attempts_left > 0 {
            self.attempts_left = self.attempts_left - 1;
            self.phase = Phase::Querying;
            BalanceAction::Query(self.query_command.clone())
        } else {
            self.phase = Phase::Restarting;
            BalanceAction::Restart(self.restart_command.clone())
        }
    }

    fn try_tokens(&mut self, tokens: VecDeque<String>) -> (action: BalanceAction)
        ensures
            (final(self)@, action@) == try_tokens(old(self)@, strings_view(tokens@)),
    {
        let mut tokens = tokens;
        let ghost all = tokens@;
        match tokens.pop_front() {
            Some(token) => {
                assert(strings_view(tokens@) =~= strings_view(all).skip(1));
                assert(strings_view(all)[0] == token@);
                self.phase = Phase::Parsing { remaining: tokens };
                BalanceAction::Parse(token)
            },
            None => {
                assert(strings_view(all).len() == 0);
                self.attempt_failed()
            },
        }
    }

    /// One step of the pipeline: takes the report on what the previous step
    /// asked for, and says what to do next.
    pub fn step(&mut self, event: BalanceEvent) -> (action: BalanceAction)
        ensures
            (final(self)@, action@) == next(old(self)@, event@),
    {
        let mut phase = Phase::Finished;
        std::mem::swap(&mut self.phase, &mut phase);
        match phase {
            Phase::Querying => {
                self.phase = Phase::Querying;
                match event {
                    BalanceEvent::Output(Some(output)) => {
                        match balance_tokens(output.as_str()) {
                            Ok(tokens) => {
                                let queue = to_queue(tokens);
                                self.try_tokens(queue)
                            },
                            Err(_) => self.attempt_failed(),
                        }
                    },
                    _ => self.attempt_failed(),
                }
            },
            Phase::Parsing { remaining } => {
                match event {
                    BalanceEvent::Parsed(Some(number)) => {
                        self.balance = Some(number);
                        self.phase = Phase::Restarting;
                        BalanceAction::Restart(self.restart_command.clone())
                    },
                    _ => {
                        self.phase = Phase::Sleeping;
                        self.try_tokens(remaining)
                    },
                }
            },
            Phase::Sleeping => {
                self.phase = Phase::Sleeping;
                self.proceed()
            },
            Phase::Restarting => {
                self.phase = Phase::Finished;
                BalanceAction::Finish(self.result())
            },
            Phase::Finished => {
                BalanceAction::Finish(self.result())
            },
        }
    }

    /// The result that the run would end with now.
    pub fn result(&self) -> (result: Result<Number, Error>)
        ensures
            result == outcome(self@.balance),
    {
        match self.balance {
            Some(n) => Ok(n),
            None => Err(Error::BalanceUnavailable),
        }
    }

    /// Whether the run has handed out its result.
    pub fn is_finished(&self) -> (finished: bool)
        ensures
            finished == (self@.phase is Finished),
    {
        match self.phase {
            Phase::Finished => true,
            _ => false,
        }
    }
}

fn to_queue(tokens: Vec<String>) -> (queue: VecDeque<String>)
    ensures
        queue@ == tokens@,
{
    let mut queue: VecDeque<String> = VecDeque::new();
    let ghost all = tokens@;
    for token in it: tokens
        invariant
            it.seq() == all,
            queue@ == all.take(it.index() as int),
    {
        queue.push_back(token);
    }
    assert(all.take(all.len() as int) == all);
    queue
}

impl MobileProvider {
    /// Starts a run of the balance pipeline and says what to do first. The
    /// run makes up to `get_balance_retry_count` attempts, waits
    /// `get_balance_retry_interval` after each failed one, and restarts the
    /// modem before it ends, whether an attempt succeeded or not.
    pub fn get_balance(&self) -> (started: (BalanceRun, BalanceAction))
        ensures
            (started.0@, started.1@) == proceed(fresh_run(self)),
    {
        let mut run = BalanceRun {
            query_command: self.get_balance_command.clone(),
            restart_command: self.restart_lte_command.clone(),
            retry_interval: self.get_balance_retry_interval,
            attempts_left: self.get_balance_retry_count,
            phase: Phase::Sleeping,
            balance: None,
        };
        let action = run.proceed();
        (run, action)
    }
}

/// What a caller reports when nothing works: the balance command cannot be
/// run, and no word is a number.
pub open spec fn failing_report(action: BalanceActionView) -> BalanceEventView {
    match action {
        BalanceActionView::Query(_) => BalanceEventView::Output(None),
        BalanceActionView::Parse(_) => BalanceEventView::Parsed(None),
        BalanceActionView::Sleep(_) => BalanceEventView::Slept,
        BalanceActionView::Restart(_) => BalanceEventView::Restarted,
        BalanceActionView::Finish(_) => BalanceEventView::Restarted,
    }
}

/// What the pipeline asks for, from `action` on, during at most `steps` more
/// steps or until it ends, when nothing works.
pub open spec fn failing_trace(
    run: BalanceRunView,
    action: BalanceActionView,
    steps: nat,
) -> Seq<BalanceActionView>
    decreases steps,
{
    if steps == 0 || action is Finish {
        seq![action]
    } else {
        let after = next(run, failing_report(action));
        seq![action] + failing_trace(after.0, after.1, (steps - 1) as nat)
    }
}

/// What a pipeline with `attempts` attempts asks for when nothing works:
/// each attempt and the wait after it, then one restart of the modem, then
/// the end without a balance.
pub open spec fn exhausted_trace(
    attempts: nat,
    query_command: Seq<char>,
    retry_interval: Interval,
    restart_command: Seq<char>,
) -> Seq<BalanceActionView>
    decreases attempts,
{
    if attempts == 0 {
        seq![
            BalanceActionView::Restart(restart_command),
            BalanceActionView::Finish(Err(Error::BalanceUnavailable)),
        ]
    } else {
        seq![BalanceActionView::Query(query_command), BalanceActionView::Sleep(retry_interval)]
            + exhausted_trace(
            (attempts - 1) as nat,
            query_command,
            retry_interval,
            restart_command,
        )
    }
}

/// How many of `actions` run the balance command.
pub open spec fn queries_in(actions: Seq<BalanceActionView>) -> nat
    decreases actions.len(),
{
    if actions.len() == 0 {
        0
    } else {
        queries_in(actions.drop_last()) + if actions.last() is Query {
            1nat
        } else {
            0nat
        }
    }
}

/// How many of `actions` restart the modem.
pub open spec fn restarts_in(actions: Seq<BalanceActionView>) -> nat
    decreases actions.len(),
{
    if actions.len() == 0 {
        0
    } else {
        restarts_in(actions.drop_last()) + if actions.last() is Restart {
            1nat
        } else {
            0nat
        }
    }
}

proof fn lemma_counts_of_prefixed(head: Seq<BalanceActionView>, tail: Seq<BalanceActionView>)
    ensures
        queries_in(head + tail) == queries_in(head) + queries_in(tail),
        restarts_in(head + tail) == restarts_in(head) + restarts_in(tail),
    decreases tail.len(),
{
    if tail.len() == 0 {
        assert(head + tail =~= head);
    } else {
        lemma_counts_of_prefixed(head, tail.drop_last());
        assert((head + tail).drop_last() =~= head + tail.drop_last());
        assert((head + tail).last() == tail.last());
    }
}

proof fn lemma_counts_of_one(action: BalanceActionView)
    ensures
        queries_in(seq![action]) == if action is Query {
            1nat
        } else {
            0nat
        },
        restarts_in(seq![action]) == if action is Restart {
            1nat
        } else {
            0nat
        },
{
    let one = seq![action];
    let none = one.drop_last();
    assert(none.len() == 0);
    assert(queries_in(none) == 0);
    assert(restarts_in(none) == 0);
    assert(one.last() == action);
}

proof fn lemma_exhausted_run(run: BalanceRunView)
    requires
        run.balance is None,
    ensures
        failing_trace(proceed(run).0, proceed(run).1, 2 * run.attempts_left + 1)
            == exhausted_trace(
            run.attempts_left,
            run.query_command,
            run.retry_interval,
            run.restart_command,
        ),
    decreases run.attempts_left,
{
    let n = run.attempts_left;
    let started = proceed(run);
    if n == 0 {
        let ended = next(started.0, failing_report(started.1));
        assert(failing_trace(ended.0, ended.1, 0) == seq![ended.1]);
        assert(failing_trace(started.0, started.1, 1) =~= seq![started.1] + seq![ended.1]);
        assert(seq![started.1] + seq![ended.1] =~= exhausted_trace(
            0,
            run.query_command,
            run.retry_interval,
            run.restart_command,
        ));
    } else {
        let failed = next(started.0, failing_report(started.1));
        let resumed = next(failed.0, failing_report(failed.1));
        assert(resumed == proceed(failed.0));
        lemma_exhausted_run(failed.0);
        let rest = failing_trace(resumed.0, resumed.1, (2 * n - 1) as nat);
        assert(failing_trace(failed.0, failed.1, (2 * n) as nat) == seq![failed.1] + rest);
        assert(failing_trace(started.0, started.1, 2 * n + 1) == seq![started.1] + (seq![
            failed.1,
        ] + rest));
        assert(seq![started.1] + (seq![failed.1] + rest) =~= seq![started.1, failed.1] + rest);
    }
}

proof fn lemma_exhausted_counts(
    attempts: nat,
    query_command: Seq<char>,
    retry_interval: Interval,
    restart_command: Seq<char>,
)
    ensures
        queries_in(exhausted_trace(attempts, query_command, retry_interval, restart_command))
            == attempts,
        restarts_in(exhausted_trace(attempts, query_command, retry_interval, restart_command))
            == 1,
        exhausted_trace(attempts, query_command, retry_interval, restart_command).last()
            == BalanceActionView::Finish(Err(Error::BalanceUnavailable)),
    decreases attempts,
{
    let restart = BalanceActionView::Restart(restart_command);
    let finish = BalanceActionView::Finish(Err(Error::BalanceUnavailable));
    if attempts == 0 {
        let end = seq![restart, finish];
        assert(end =~= seq![restart] + seq![finish]);
        lemma_counts_of_one(restart);
        lemma_counts_of_one(finish);
        lemma_counts_of_prefixed(seq![restart], seq![finish]);
    } else {
        let head = seq![
            BalanceActionView::Query(query_command),
            BalanceActionView::Sleep(retry_interval),
        ];
        let tail = exhausted_trace(
            (attempts - 1) as nat,
            query_command,
            retry_interval,
            restart_command,
        );
        lemma_exhausted_counts(
            (attempts - 1) as nat,
            query_command,
            retry_interval,
            restart_command,
        );
        lemma_counts_of_prefixed(head, tail);
        let query = BalanceActionView::Query(query_command);
        let sleep = BalanceActionView::Sleep(retry_interval);
        assert(head =~= seq![query] + seq![sleep]);
        lemma_counts_of_one(query);
        lemma_counts_of_one(sleep);
        lemma_counts_of_prefixed(seq![query], seq![sleep]);
        assert((head + tail).last() == tail.last());
    }
}

/// Retries are bounded and the recovery is unconditional: when the balance
/// command fails every time, a pipeline set up for `n` attempts runs the
/// command exactly `n` times, waiting after each, then restarts the modem
/// exactly once, and then ends with `BalanceUnavailable`.
pub proof fn law_exhausted_pipeline_restarts_once(provider: &MobileProvider)
    ensures
        failing_trace(
            proceed(fresh_run(provider)).0,
            proceed(fresh_run(provider)).1,
            2 * (provider.get_balance_retry_count as nat) + 1,
        ) == exhausted_trace(
            provider.get_balance_retry_count as nat,
            provider.get_balance_command@,
            provider.get_balance_retry_interval,
            provider.restart_lte_command@,
        ),
        queries_in(
            exhausted_trace(
                provider.get_balance_retry_count as nat,
                provider.get_balance_command@,
                provider.get_balance_retry_interval,
                provider.restart_lte_command@,
            ),
        ) == provider.get_balance_retry_count,
        restarts_in(
            exhausted_trace(
                provider.get_balance_retry_count as nat,
                provider.get_balance_command@,
                provider.get_balance_retry_interval,
                provider.restart_lte_command@,
            ),
        ) == 1,
        exhausted_trace(
            provider.get_balance_retry_count as nat,
            provider.get_balance_command@,
            provider.get_balance_retry_interval,
            provider.restart_lte_command@,
        ).last() == BalanceActionView::Finish(Err(Error::BalanceUnavailable)),
{
    lemma_exhausted_run(fresh_run(provider));
    lemma_exhausted_counts(
        provider.get_balance_retry_count as nat,
        provider.get_balance_command@,
        provider.get_balance_retry_interval,
        provider.restart_lte_command@,
    );
}

/// The modem is restarted on every path: whatever is reported, the pipeline
/// hands out a result only after it has asked for the restart, and the first
/// number that is reported is the result.
pub proof fn law_result_follows_restart(run: BalanceRunView, event: BalanceEventView)
    ensures
        next(run, event).1 is Finish ==> run.phase is Restarting || run.phase is Finished,
        next(run, event).0.phase is Restarting ==> next(run, event).1 == BalanceActionView::Restart(
            run.restart_command,
        ),
        next(run, event).1 matches BalanceActionView::Finish(result) ==> result == outcome(
            run.balance,
        ),
        run.phase is Parsing ==> (event matches BalanceEventView::Parsed(Some(number)) ==> next(
            run,
            event,
        ).0.balance == Some(number)),
{
}

/// What the tariff rule decides.
#[derive(Clone, Copy, Debug, PartialEq, Eq, Structural)]
pub enum TariffDecision {
    /// No benchmark has been recorded: nothing to judge by.
    NoSpeedTest,
    /// The last benchmark is above the threshold.
    SpeedIsGood,
    /// The tariff was changed less than the minimum interval ago.
    TooRecent,
    /// The tariff is to be changed.
    Update,
}

/// The tariff rule: the tariff is changed when the last benchmark's download
/// rate is not above the threshold, unless the last change is less than the
/// minimum interval old.
pub open spec fn tariff_decision(
    threshold: Number,
    min_interval: Interval,
    state: PersistentStateView,
    now: Timestamp,
) -> TariffDecision {
    match state.speedtest {
        None => TariffDecision::NoSpeedTest,
        Some(speedtest) => if threshold.less_than(speedtest.download) {
            TariffDecision::SpeedIsGood
        } else {
            match state.last_tariff_update {
                Some(last) => if now.as_nanos() - last.as_nanos() < min_interval.as_nanos() {
                    TariffDecision::TooRecent
                } else {
                    TariffDecision::Update
                },
                None => TariffDecision::Update,
            }
        },
    }
}

/// The text of the alert on a low balance.
pub open spec fn balance_alert_text(
    balance: Seq<char>,
    phone_number: Seq<char>,
    threshold: Seq<char>,
) -> Seq<char> {
    "Низкий остаток: "@ + balance + " сом. Необходимо пополнить номер "@ + phone_number
        + ". Уведомления приходят, если баланс менее "@ + threshold + " сом."@
}

/// What follows a run of the tariff command.
#[derive(Debug, PartialEq, Eq)]
pub struct TariffFollowUp {
    /// The alert to send, if any.
    pub alert: Option<String>,
    /// The change to the record, if any.
    pub mutation: Option<Mutation>,
}

impl MobileProvider {
    /// Decides at instant `now`, on the record `state`, whether the tariff is
    /// to be changed.
    pub fn update_tariff(&self, state: &PersistentState, now: Timestamp) -> (decision:
        TariffDecision)
        ensures
            decision == tariff_decision(
                self.low_download_speed_threshold,
                self.min_update_tariff_interval,
                state@,
                now,
            ),
    {
        let speedtest = match state.speedtest {
            None => {
                return TariffDecision::NoSpeedTest;
            },
            Some(speedtest) => speedtest,
        };
        if speedtest.download.gt(&self.low_download_speed_threshold) {
            return TariffDecision::SpeedIsGood;
        }
        match state.last_tariff_update {
            Some(last) => {
                if now.elapsed_below(&last, &self.min_update_tariff_interval) {
                    return TariffDecision::TooRecent;
                }
            },
            None => {},
        }
        TariffDecision::Update
    }

    /// What follows the tariff command, at instant `now`: where the command
    /// could not be run, nothing; where it ran, the record notes the change,
    /// and where notifications are configured an alert goes out.
    pub fn after_tariff_command(&self, ran: bool, notify: bool, now: Timestamp) -> (follow_up:
        TariffFollowUp)
        ensures
            !ran ==> follow_up.alert is None && follow_up.mutation is None,
            ran ==> follow_up.mutation is Some && follow_up.mutation->0@
                == MutationView::SetLastTariffUpdate(now),
            ran && notify ==> follow_up.alert is Some && follow_up.alert->0@
                == "Скорость интернета ниже порога. Обновление тарифа..."@,
            ran && !notify ==> follow_up.alert is None,
    {
        if !ran {
            TariffFollowUp { alert: None, mutation: None }
        } else {
            let alert = if notify {
                Some(Self::alert_update_tariff())
            } else {
                None
            };
            TariffFollowUp { alert, mutation: Some(Mutation::SetLastTariffUpdate(now)) }
        }
    }

    /// The text of the alert on a tariff change.
    pub fn alert_update_tariff() -> (text: String)
        ensures
            text@ == "Скорость интернета ниже порога. Обновление тарифа..."@,
    {
        String::from_str("Скорость интернета ниже порога. Обновление тарифа...")
    }

    /// The text of the alert on a low balance. `balance` and `threshold` are
    /// the two numbers as they are to be shown.
    pub fn alert_balance(&self, balance: &str, threshold: &str) -> (text: String)
        ensures
            text@ == balance_alert_text(balance@, self.phone_number@, threshold@),
    {
        let mut text = String::from_str("Низкий остаток: ");
        text.append(balance);
        text.append(" сом. Необходимо пополнить номер ");
        text.append(self.phone_number.as_str());
        text.append(". Уведомления приходят, если баланс менее ");
        text.append(threshold);
        text.append(" сом.");
        text
    }

    /// The alert that a freshly learnt balance calls for: one is due when the
    /// balance is below the threshold and notifications are configured.
    /// `shown` and `threshold_shown` are the balance and the threshold as they
    /// are to be shown.
    pub fn get_and_alert_balance(
        &self,
        balance: Number,
        shown: &str,
        threshold_shown: &str,
        notify: bool,
    ) -> (alert: Option<String>)
        ensures
            alert is Some <==> balance.less_than(self.low_balance_threshold) && notify,
            alert matches Some(text) ==> text@ == balance_alert_text(
                shown@,
                self.phone_number@,
                threshold_shown@,
            ),
    {
        if balance.lt(&self.low_balance_threshold) && notify {
            Some(self.alert_balance(shown, threshold_shown))
        } else {
            None
        }
    }
}

} // verus!
