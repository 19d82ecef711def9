//! The notification dispatcher: one delivery attempt per destination, and a
//! durable queue of what could not be delivered, retried until it times out.
//!
//! The library decides; the caller performs each delivery and reports how it
//! went.

use vstd::prelude::*;
use vstd::string::*;
use std::collections::VecDeque;
use crate::error::Error;
use crate::persistent_state::{
    queue_view, updated, FileObservation, Mutation, MutationView, PersistentStateGuard,
    TelegramMessage, TelegramMessageView, UpdateOutcome,
};
use crate::time::{Interval, Timestamp};

verus! {

/// The settings of the dispatcher.
#[derive(Clone, Debug, PartialEq, Eq)]
pub struct Telegram {
    pub bot_token: String,
    /// How long a queued message is worth delivering.
    pub message_timeout: Interval,
    pub retry_crontab: String,
}

/// One delivery for the caller to attempt.
#[derive(Clone, Debug, PartialEq, Eq)]
pub struct Delivery {
    pub chat_id: String,
    pub text: String,
}

/// The text of a retried message: the text as first sent and, where the instant
/// of the first attempt could be rendered, a line that tells it.
pub open spec fn retry_text_spec(text: Seq<char>, sent_at: Option<Seq<char>>) -> Seq<char> {
    match sent_at {
        Some(stamp) => text + "\n\nЭто сообщение было отправлено в "@ + stamp + "."@,
        None => text,
    }
}

/// Whether `actual` is the text with which `message` is retried: its text
/// followed by the line that tells some rendering of the instant at which it
/// was enqueued, wherever that instant can be shown as a date and a time, and
/// its bare text otherwise.
pub open spec fn is_retry_text(actual: Seq<char>, message: TelegramMessageView) -> bool {
    if message.timestamp.is_representable() {
        exists|stamp: Seq<char>| actual == #[trigger] retry_text_spec(message.text, Some(stamp))
    } else {
        actual == message.text
    }
}

/// The characters of an optional rendering.
pub open spec fn stamp_view(sent_at: Option<&str>) -> Option<Seq<char>> {
    match sent_at {
        Some(stamp) => Some(stamp@),
        None => None,
    }
}

/// Composes the text of a retried message.
pub fn retry_text(text: &str, sent_at: Option<&str>) -> (out: String)
    ensures
        out@ == retry_text_spec(text@, stamp_view(sent_at)),
{
    let mut out = String::from_str(text);
    match sent_at {
        Some(stamp) => {
            out.append("\n\nЭто сообщение было отправлено в ");
            out.append(stamp);
            out.append(".");
        },
        None => {},
    }
    out
}

/// Whether a message enqueued at `m.timestamp` is too old to deliver at `now`.
pub open spec fn expired(m: TelegramMessageView, now: Timestamp, timeout: Interval) -> bool {
    now.as_nanos() - m.timestamp.as_nanos() > timeout.as_nanos()
}

/// Checks a queued message against its deadline at instant `now`: a message
/// that was enqueued more than `timeout` ago has timed out.
pub fn check_deadline(message: &TelegramMessage, now: Timestamp, timeout: &Interval) -> (result:
    Result<(), Error>)
    ensures
        result is Err <==> expired(message@, now, *timeout),
        result matches Err(e) ==> e == Error::Timeout,
{
    if now.elapsed_exceeds(&message.timestamp, timeout) {
        Err(Error::Timeout)
    } else {
        Ok(())
    }
}

/// What a retry run holds.
pub struct QueueRunView {
    /// The drained messages that have not been looked at, oldest first.
    pub pending: Seq<TelegramMessageView>,
    /// The message whose delivery the caller is attempting.
    pub in_flight: Option<TelegramMessageView>,
    /// The messages whose delivery failed, in the order in which they failed.
    pub failed: Seq<TelegramMessageView>,
    /// The messages that timed out, in the order in which they were dropped.
    pub dropped: Seq<TelegramMessageView>,
    pub timeout: Interval,
}

/// The run after the outcome of the outstanding attempt is known: a message
/// that was not delivered joins the failed ones.
pub open spec fn settled(run: QueueRunView, delivered: bool) -> QueueRunView {
    match run.in_flight {
        Some(m) => QueueRunView {
            in_flight: None,
            failed: if delivered {
                run.failed
            } else {
                run.failed.push(m)
            },
            ..run
        },
        None => run,
    }
}

/// How many messages at the head of `pending` have timed out at `now`.
pub open spec fn expired_prefix(
    pending: Seq<TelegramMessageView>,
    now: Timestamp,
    timeout: Interval,
) -> nat
    decreases pending.len(),
{
    if pending.len() > 0 && expired(pending[0], now, timeout) {
        1 + expired_prefix(pending.drop_first(), now, timeout)
    } else {
        0
    }
}

/// The run after one step at instant `now`: the outstanding attempt is
/// settled, the timed-out messages at the head are dropped, and the first
/// message that is still in time, if there is one, is in flight.
pub open spec fn advanced(run: QueueRunView, delivered: bool, now: Timestamp) -> QueueRunView {
    let s = settled(run, delivered);
    let k = expired_prefix(s.pending, now, s.timeout) as int;
    QueueRunView {
        pending: if k < s.pending.len() {
            s.pending.skip(k + 1)
        } else {
            Seq::empty()
        },
        in_flight: if k < s.pending.len() {
            Some(s.pending[k])
        } else {
            None
        },
        failed: s.failed,
        dropped: s.dropped + s.pending.take(k),
        timeout: s.timeout,
    }
}

/// A retry run over a drained queue.
#[derive(Debug, PartialEq, Eq)]
pub struct QueueRun {
    pending: VecDeque<TelegramMessage>,
    in_flight: Option<TelegramMessage>,
    failed: Vec<TelegramMessage>,
    dropped: Vec<TelegramMessage>,
    timeout: Interval,
}

impl View for QueueRun {
    type V = QueueRunView;

    closed spec fn view(&self) -> QueueRunView {
        QueueRunView {
            pending: queue_view(self.pending@),
            in_flight: match self.in_flight {
                Some(m) => Some(m@),
                None => None,
            },
            failed: queue_view(self.failed@),
            dropped: queue_view(self.dropped@),
            timeout: self.timeout,
        }
    }
}

impl Telegram {
    /// Starts a retry run over the messages that a drain of the queue gave.
    pub fn process_queue(&self, drained: Vec<TelegramMessage>) -> (run: QueueRun)
        ensures
            run@ == (QueueRunView {
                pending: queue_view(drained@),
                in_flight: None,
                failed: Seq::empty(),
                dropped: Seq::empty(),
                timeout: self.message_timeout,
            }),
    {
        let mut pending: VecDeque<TelegramMessage> = VecDeque::new();
        let ghost all = drained@;
        for m in it: drained
            invariant
                it.seq() == all,
                pending@ == all.take(it.index() as int),
        {
            pending.push_back(m);
        }
        assert(all.take(all.len() as int) == all);
        let run = QueueRun {
            pending,
            in_flight: None,
            failed: Vec::new(),
            dropped: Vec::new(),
            timeout: self.message_timeout,
        };
        assert(queue_view(run.failed@) =~= Seq::empty());
        assert(queue_view(run.dropped@) =~= Seq::empty());
        run
    }
}

impl QueueRun {
    /// One step of the run, at instant `now`. `delivered` tells how the
    /// delivery that the previous step asked for went; it is ignored where
    /// none is outstanding. The step settles that delivery, drops the
    /// messages at the head of the queue that have timed out, and asks for
    /// the delivery of the first one that is still in time. `None` ends the
    /// run.
    pub fn step(&mut self, delivered: bool, now: Timestamp) -> (next: Option<Delivery>)
        ensures
            final(self)@ == advanced(old(self)@, delivered, now),
            next is Some <==> final(self)@.in_flight is Some,
            next matches Some(d) ==> d.chat_id@ == final(self)@.in_flight->0.chat_id
                && is_retry_text(d.text@, final(self)@.in_flight->0),
    {
        let outstanding = self.in_flight.take();
        match outstanding {
            Some(m) => {
                if !delivered {
                    self.failed.push(m);
                    assert(queue_view(self.failed@) =~= queue_view(old(self).failed@).push(m@));
                }
            },
            None => {},
        }
        let ghost s = self@;
        assert(s == settled(old(self)@, delivered));
        let ghost mut k: int = 0;
        let mut next: Option<Delivery> = None;
        assert(s.pending.skip(0) =~= s.pending);
        assert(s.dropped + s.pending.take(0) =~= s.dropped);
        loop
            invariant_except_break
                next is None,
                self@.in_flight is None,
                s == settled(old(self)@, delivered),
                self@.failed == s.failed,
                self@.timeout == s.timeout,
                0 <= k <= s.pending.len(),
                self@.pending == s.pending.skip(k),
                self@.dropped == s.dropped + s.pending.take(k),
                expired_prefix(s.pending, now, s.timeout) == k + expired_prefix(
                    s.pending.skip(k),
                    now,
                    s.timeout,
                ),
            ensures
                self@ == advanced(old(self)@, delivered, now),
                next is Some <==> self@.in_flight is Some,
                next matches Some(d) ==> d.chat_id@ == self@.in_flight->0.chat_id && is_retry_text(
                    d.text@,
                    self@.in_flight->0,
                ),
            decreases self.pending.len(),
        {
            let ghost before = self.pending@;
            match self.pending.pop_front() {
                None => {
                    assert(s.pending.skip(k).len() == 0);
                    assert(k == s.pending.len());
                    assert(expired_prefix(s.pending.skip(k), now, s.timeout) == 0);
                    assert(self@.pending =~= Seq::empty());
                    break ;
                },
                Some(m) => {
                    assert(m@ == s.pending[k]) by {
                        assert(queue_view(before)[0] == before[0]@);
                        assert(s.pending.skip(k)[0] == s.pending[k]);
                    }
                    assert(queue_view(self.pending@) =~= s.pending.skip(k + 1)) by {
                        assert(queue_view(self.pending@) =~= queue_view(before).drop_first());
                        assert(s.pending.skip(k).drop_first() =~= s.pending.skip(k + 1));
                    }
                    assert(s.pending.skip(k).drop_first() =~= s.pending.skip(k + 1));
                    if check_deadline(&m, now, &self.timeout).is_err() {
                        let ghost dropped_before = self.dropped@;
                        self.dropped.push(m);
                        assert(queue_view(self.dropped@) =~= queue_view(dropped_before).push(m@));
                        assert(s.pending.take(k + 1) =~= s.pending.take(k).push(s.pending[k]));
                        assert(queue_view(self.dropped@) =~= s.dropped + s.pending.take(k + 1));
                        proof {
                            k = k + 1;
                        }
                    } else {
                        let text = match m.timestamp.to_local_text() {
                            Some(stamp) => {
                                let text = retry_text(m.text.as_str(), Some(stamp.as_str()));
                                assert(m@.timestamp.is_representable());
                                assert(text@ == retry_text_spec(m@.text, Some(stamp@)));
                                text
                            },
                            None => {
                                let text = retry_text(m.text.as_str(), None);
                                assert(!m@.timestamp.is_representable());
                                assert(text@ == m@.text);
                                text
                            },
                        };
                        assert(is_retry_text(text@, m@));
                        next = Some(Delivery { chat_id: m.chat_id.clone(), text });
                        self.in_flight = Some(m);
                        assert(expired_prefix(s.pending.skip(k), now, s.timeout) == 0);
                        break ;
                    }
                },
            }
        }
        next
    }

    /// Whether the run has looked at every message and waits for no report.
    pub fn is_done(&self) -> (done: bool)
        ensures
            done == (self@.in_flight is None && self@.pending.len() == 0),
    {
        self.in_flight.is_none() && self.pending.len() == 0
    }

    /// The messages that timed out so far.
    pub fn dropped(&self) -> (dropped: &Vec<TelegramMessage>)
        ensures
            queue_view(dropped@) == self@.dropped,
    {
        &self.dropped
    }

    /// The messages whose delivery failed so far.
    pub fn failed(&self) -> (failed: &Vec<TelegramMessage>)
        ensures
            queue_view(failed@) == self@.failed,
    {
        &self.failed
    }

    /// Ends the run and hands out the messages whose delivery failed: what
    /// the caller puts back into the queue.
    pub fn into_failed(self) -> (failed: Vec<TelegramMessage>)
        ensures
            queue_view(failed@) == self@.failed,
    {
        self.failed
    }
}

impl Telegram {
    /// The address to which a message is posted.
    pub fn send_url(&self) -> (url: String)
        ensures
            url@ == "https://api.telegram.org/bot"@ + self.bot_token@ + "/sendMessage"@,
    {
        let mut url = String::from_str("https://api.telegram.org/bot");
        url.append(self.bot_token.as_str());
        url.append("/sendMessage");
        url
    }

    /// Settles one delivery attempt of a new message to `chat_id`, made at
    /// instant `now`: a message that was delivered leaves no trace; one that
    /// was not is appended to the queue in the store, and the record to write
    /// is handed back. Nothing is retried here.
    pub fn send_message(
        &self,
        store: &mut PersistentStateGuard,
        file: FileObservation,
        now: Timestamp,
        chat_id: &str,
        text: &str,
        delivered: bool,
    ) -> (outcome: Option<UpdateOutcome>)
        ensures
            delivered ==> outcome is None && final(store)@ == old(store)@,
            !delivered ==> outcome is Some && final(store)@ == updated(
                old(store)@,
                file@,
                now,
                MutationView::Enqueue(
                    TelegramMessageView { chat_id: chat_id@, text: text@, timestamp: now },
                ),
            ) && outcome->0.record@ == final(store)@.state,
    {
        if delivered {
            None
        } else {
            let message = TelegramMessage {
                chat_id: String::from_str(chat_id),
                text: String::from_str(text),
                timestamp: now,
            };
            Some(store.update(file, now, Mutation::Enqueue(message)))
        }
    }
}

/// The message in flight as a sequence of at most one message.
pub open spec fn in_flight_seq(run: QueueRunView) -> Seq<TelegramMessageView> {
    match run.in_flight {
        Some(m) => seq![m],
        None => Seq::empty(),
    }
}

proof fn lemma_expired_prefix(pending: Seq<TelegramMessageView>, now: Timestamp, timeout: Interval)
    ensures
        expired_prefix(pending, now, timeout) <= pending.len(),
        forall|i: int|
            0 <= i < expired_prefix(pending, now, timeout) ==> expired(
                #[trigger] pending[i],
                now,
                timeout,
            ),
        expired_prefix(pending, now, timeout) < pending.len() ==> !expired(
            pending[expired_prefix(pending, now, timeout) as int],
            now,
            timeout,
        ),
    decreases pending.len(),
{
    if pending.len() > 0 && expired(pending[0], now, timeout) {
        let rest = pending.drop_first();
        lemma_expired_prefix(rest, now, timeout);
        assert forall|i: int| 0 <= i < expired_prefix(pending, now, timeout) implies expired(
            #[trigger] pending[i],
            now,
            timeout,
        ) by {
            if i > 0 {
                assert(pending[i] == rest[i - 1]);
            }
        }
        let k = expired_prefix(rest, now, timeout) as int;
        if k < rest.len() {
            assert(pending[k + 1] == rest[k]);
        }
    }
}

/// A message that has timed out is dropped and never delivered: a step asks
/// for the delivery of a message only while the message is in time, every
/// message that a step drops has timed out, and no dropped message joins the
/// messages that are queued again.
pub proof fn law_expired_message_is_dropped(run: QueueRunView, delivered: bool, now: Timestamp)
    ensures
        advanced(run, delivered, now).in_flight matches Some(m) ==> !expired(m, now, run.timeout),
        run.dropped.len() <= advanced(run, delivered, now).dropped.len(),
        forall|i: int|
            run.dropped.len() <= i < advanced(run, delivered, now).dropped.len() ==> expired(
                #[trigger] advanced(run, delivered, now).dropped[i],
                now,
                run.timeout,
            ),
        advanced(run, delivered, now).failed == settled(run, delivered).failed,
        advanced(run, delivered, now).in_flight is None ==> advanced(
            run,
            delivered,
            now,
        ).pending.len() == 0,
{
    let s = settled(run, delivered);
    lemma_expired_prefix(s.pending, now, s.timeout);
    let k = expired_prefix(s.pending, now, s.timeout) as int;
    let after = advanced(run, delivered, now);
    assert forall|i: int| run.dropped.len() <= i < after.dropped.len() implies expired(
        #[trigger] after.dropped[i],
        now,
        run.timeout,
    ) by {
        assert(after.dropped[i] == s.pending[i - run.dropped.len()]);
    }
}

/// A message retried in time is delivered or remains queued: once the
/// delivery of the message in flight is reported, the message is gone if it
/// was delivered and is the last of the failed messages if it was not; it is
/// never dropped. Failed messages stay failed, and putting them back appends
/// all of them to whatever the queue holds by then.
pub proof fn law_timely_message_is_delivered_or_requeued(
    run: QueueRunView,
    delivered: bool,
    now: Timestamp,
    m: TelegramMessageView,
    queue: crate::persistent_state::PersistentStateView,
)
    requires
        run.in_flight == Some(m),
    ensures
        delivered ==> advanced(run, delivered, now).failed == run.failed,
        !delivered ==> advanced(run, delivered, now).failed == run.failed.push(m),
        advanced(run, delivered, now).dropped == run.dropped + run.pending.take(
            expired_prefix(run.pending, now, run.timeout) as int,
        ),
        crate::persistent_state::applied(
            queue,
            MutationView::Requeue(advanced(run, delivered, now).failed),
        ).telegram_queue == queue.telegram_queue + advanced(run, delivered, now).failed,
{
}

/// No message is lost: the messages that a step finds, in their order, are
/// the ones it drops, then the one it puts in flight, then the ones it
/// leaves pending.
pub proof fn law_step_accounts_for_every_message(
    run: QueueRunView,
    delivered: bool,
    now: Timestamp,
)
    ensures
        run.dropped.len() <= advanced(run, delivered, now).dropped.len(),
        run.pending == advanced(run, delivered, now).dropped.skip(run.dropped.len() as int)
            + in_flight_seq(advanced(run, delivered, now)) + advanced(
            run,
            delivered,
            now,
        ).pending,
{
    let s = settled(run, delivered);
    lemma_expired_prefix(s.pending, now, s.timeout);
    let k = expired_prefix(s.pending, now, s.timeout) as int;
    let after = advanced(run, delivered, now);
    assert(after.dropped.skip(run.dropped.len() as int) =~= s.pending.take(k));
    assert(run.pending =~= s.pending.take(k) + in_flight_seq(after) + after.pending);
}

/// No message is lost where a retry run begins: the run begins over
/// everything that the drain took out of the record, whether or not the
/// drained record could be written, and its first step drops, puts in flight
/// or leaves pending every one of those messages, in their order.
pub proof fn law_run_begins_with_the_whole_queue(
    state: crate::persistent_state::PersistentStateView,
    timeout: Interval,
    delivered: bool,
    now: Timestamp,
)
    ensures
        ({
            let run = QueueRunView {
                pending: crate::persistent_state::drained_by(state, MutationView::DrainQueue),
                in_flight: None,
                failed: Seq::empty(),
                dropped: Seq::empty(),
                timeout,
            };
            &&& run.pending == state.telegram_queue
            &&& advanced(run, delivered, now).failed == Seq::<TelegramMessageView>::empty()
            &&& state.telegram_queue == advanced(run, delivered, now).dropped + in_flight_seq(
                advanced(run, delivered, now),
            ) + advanced(run, delivered, now).pending
        }),
{
    let run = QueueRunView {
        pending: state.telegram_queue,
        in_flight: None,
        failed: Seq::empty(),
        dropped: Seq::empty(),
        timeout,
    };
    law_step_accounts_for_every_message(run, delivered, now);
    assert(advanced(run, delivered, now).dropped.skip(0) =~= advanced(run, delivered, now).dropped);
}

} // verus!
