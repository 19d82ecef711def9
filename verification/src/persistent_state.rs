//! The durable record of the daemon and the store that guards it.
//!
//! The store keeps the record in memory and mirrors it to one file. It never
//! touches the file itself: before each operation the caller observes the file
//! (its modification time and, where it was read, the record it holds) and
//! hands that observation in; after an update the caller writes the record
//! that the store hands back.

use vstd::prelude::*;
use crate::number::Number;
use crate::speedtest::SpeedTest;
use crate::time::Timestamp;

verus! {

/// A notification that could not be delivered and waits for a retry.
#[derive(Debug, PartialEq, Eq)]
pub struct TelegramMessage {
    pub chat_id: String,
    pub text: String,
    pub timestamp: Timestamp,
}

/// What a queued notification holds.
pub struct TelegramMessageView {
    pub chat_id: Seq<char>,
    pub text: Seq<char>,
    pub timestamp: Timestamp,
}

impl View for TelegramMessage {
    type V = TelegramMessageView;

    open spec fn view(&self) -> TelegramMessageView {
        TelegramMessageView {
            chat_id: self.chat_id@,
            text: self.text@,
            timestamp: self.timestamp,
        }
    }
}

impl Clone for TelegramMessage {
    fn clone(&self) -> (m: TelegramMessage)
        ensures
            m@ == self@,
    {
        TelegramMessage {
            chat_id: self.chat_id.clone(),
            text: self.text.clone(),
            timestamp: self.timestamp,
        }
    }
}

/// The messages of a queue, oldest first.
pub open spec fn queue_view(queue: Seq<TelegramMessage>) -> Seq<TelegramMessageView> {
    queue.map_values(|m: TelegramMessage| m@)
}

/// A deep copy of a queue.
pub fn clone_queue(queue: &Vec<TelegramMessage>) -> (copy: Vec<TelegramMessage>)
    ensures
        queue_view(copy@) == queue_view(queue@),
{
    let mut copy: Vec<TelegramMessage> = Vec::new();
    let mut i: usize = 0;
    while i < queue.len()
        invariant
            i <= queue.len(),
            copy@.len() == i,
            forall|j: int| 0 <= j < i ==> (#[trigger] copy@[j])@ == queue@[j]@,
        decreases queue.len() - i,
    {
        copy.push(queue[i].clone());
        i += 1;
    }
    assert(queue_view(copy@) =~= queue_view(queue@));
    copy
}

/// The single durable record.
#[derive(Debug, PartialEq, Eq)]
pub struct PersistentState {
    pub is_wide_network_available: Option<bool>,
    pub speedtest: Option<SpeedTest>,
    pub last_speedtest_check: Option<Timestamp>,
    pub last_tariff_update: Option<Timestamp>,
    pub balance: Option<Number>,
    pub telegram_queue: Vec<TelegramMessage>,
}

/// What the durable record holds.
pub struct PersistentStateView {
    pub is_wide_network_available: Option<bool>,
    pub speedtest: Option<SpeedTest>,
    pub last_speedtest_check: Option<Timestamp>,
    pub last_tariff_update: Option<Timestamp>,
    pub balance: Option<Number>,
    pub telegram_queue: Seq<TelegramMessageView>,
}

impl PersistentStateView {
    /// The record of a daemon that has not learnt anything yet.
    pub open spec fn empty() -> PersistentStateView {
        PersistentStateView {
            is_wide_network_available: None,
            speedtest: None,
            last_speedtest_check: None,
            last_tariff_update: None,
            balance: None,
            telegram_queue: Seq::empty(),
        }
    }
}

impl View for PersistentState {
    type V = PersistentStateView;

    open spec fn view(&self) -> PersistentStateView {
        PersistentStateView {
            is_wide_network_available: self.is_wide_network_available,
            speedtest: self.speedtest,
            last_speedtest_check: self.last_speedtest_check,
            last_tariff_update: self.last_tariff_update,
            balance: self.balance,
            telegram_queue: queue_view(self.telegram_queue@),
        }
    }
}

impl Clone for PersistentState {
    fn clone(&self) -> (copy: PersistentState)
        ensures
            copy@ == self@,
    {
        PersistentState {
            is_wide_network_available: self.is_wide_network_available,
            speedtest: self.speedtest,
            last_speedtest_check: self.last_speedtest_check,
            last_tariff_update: self.last_tariff_update,
            balance: self.balance,
            telegram_queue: clone_queue(&self.telegram_queue),
        }
    }
}

impl Default for PersistentState {
    fn default() -> (state: PersistentState)
        ensures
            state@ == PersistentStateView::empty(),
    {
        let state = PersistentState {
            is_wide_network_available: None,
            speedtest: None,
            last_speedtest_check: None,
            last_tariff_update: None,
            balance: None,
            telegram_queue: Vec::new(),
        };
        assert(queue_view(state.telegram_queue@) =~= Seq::empty());
        state
    }
}

/// What an optional record holds.
pub open spec fn record_view(record: Option<PersistentState>) -> Option<PersistentStateView> {
    match record {
        Some(state) => Some(state@),
        None => None,
    }
}

/// The record that a load yields: the one that was read, or the empty record
/// where the file was missing or malformed.
pub open spec fn loaded(record: Option<PersistentStateView>) -> PersistentStateView {
    match record {
        Some(state) => state,
        None => PersistentStateView::empty(),
    }
}

impl PersistentState {
    /// Settles a load: `record` is what reading and parsing the file gave, or
    /// `None` where either failed. A failed load degrades to the empty record.
    pub fn load_from_yaml(record: Option<PersistentState>) -> (state: PersistentState)
        ensures
            state@ == loaded(record_view(record)),
    {
        match record {
            Some(state) => state,
            None => PersistentState::default(),
        }
    }
}

/// A change to the record, as the scheduled jobs and the dispatcher make it.
#[derive(Debug, PartialEq, Eq)]
pub enum Mutation {
    /// Leaves the record as it is; the update still writes it out.
    Identity,
    /// Stores the result of a reachability probe.
    SetWideNetworkAvailable(bool),
    /// Stores a benchmark result and the instant at which it was taken.
    SetSpeedTest { result: SpeedTest, at: Timestamp },
    /// Stores the prepaid balance.
    SetBalance(Number),
    /// Marks the instant of a tariff change.
    SetLastTariffUpdate(Timestamp),
    /// Appends a notification that could not be delivered.
    Enqueue(TelegramMessage),
    /// Takes every queued notification out of the record.
    DrainQueue,
    /// Appends the notifications that a retry run could not deliver. What was
    /// enqueued since the drain stays ahead of them.
    Requeue(Vec<TelegramMessage>),
}

/// What a mutation holds.
pub enum MutationView {
    Identity,
    SetWideNetworkAvailable(bool),
    SetSpeedTest { result: SpeedTest, at: Timestamp },
    SetBalance(Number),
    SetLastTariffUpdate(Timestamp),
    Enqueue(TelegramMessageView),
    DrainQueue,
    Requeue(Seq<TelegramMessageView>),
}

impl View for Mutation {
    type V = MutationView;

    open spec fn view(&self) -> MutationView {
        match *self {
            Mutation::Identity => MutationView::Identity,
            Mutation::SetWideNetworkAvailable(b) => MutationView::SetWideNetworkAvailable(b),
            Mutation::SetSpeedTest { result, at } => MutationView::SetSpeedTest { result, at },
            Mutation::SetBalance(n) => MutationView::SetBalance(n),
            Mutation::SetLastTariffUpdate(t) => MutationView::SetLastTariffUpdate(t),
            Mutation::Enqueue(m) => MutationView::Enqueue(m@),
            Mutation::DrainQueue => MutationView::DrainQueue,
            Mutation::Requeue(q) => MutationView::Requeue(queue_view(q@)),
        }
    }
}

/// The record after a mutation.
pub open spec fn applied(state: PersistentStateView, mutation: MutationView) -> PersistentStateView {
    match mutation {
        MutationView::Identity => state,
        MutationView::SetWideNetworkAvailable(b) => PersistentStateView {
            is_wide_network_available: Some(b),
            ..state
        },
        MutationView::SetSpeedTest { result, at } => PersistentStateView {
            speedtest: Some(result),
            last_speedtest_check: Some(at),
            ..state
        },
        MutationView::SetBalance(n) => PersistentStateView { balance: Some(n), ..state },
        MutationView::SetLastTariffUpdate(t) => PersistentStateView {
            last_tariff_update: Some(t),
            ..state
        },
        MutationView::Enqueue(m) => PersistentStateView {
            telegram_queue: state.telegram_queue.push(m),
            ..state
        },
        MutationView::DrainQueue => PersistentStateView { telegram_queue: Seq::empty(), ..state },
        MutationView::Requeue(q) => PersistentStateView {
            telegram_queue: state.telegram_queue + q,
            ..state
        },
    }
}

/// What a mutation hands back: the queue as it was for a drain, nothing for
/// any other.
pub open spec fn drained_by(
    state: PersistentStateView,
    mutation: MutationView,
) -> Seq<TelegramMessageView> {
    match mutation {
        MutationView::DrainQueue => state.telegram_queue,
        _ => Seq::empty(),
    }
}

impl Mutation {
    /// Applies the mutation to `state` and returns what it took out.
    pub fn apply(self, state: &mut PersistentState) -> (drained: Vec<TelegramMessage>)
        ensures
            final(state)@ == applied(old(state)@, self@),
            queue_view(drained@) == drained_by(old(state)@, self@),
    {
        let mut drained: Vec<TelegramMessage> = Vec::new();
        assert(queue_view(drained@) =~= Seq::empty());
        match self {
            Mutation::Identity => {},
            Mutation::SetWideNetworkAvailable(b) => {
                state.is_wide_network_available = Some(b);
            },
            Mutation::SetSpeedTest { result, at } => {
                state.speedtest = Some(result);
                state.last_speedtest_check = Some(at);
            },
            Mutation::SetBalance(n) => {
                state.balance = Some(n);
            },
            Mutation::SetLastTariffUpdate(t) => {
                state.last_tariff_update = Some(t);
            },
            Mutation::Enqueue(m) => {
                state.telegram_queue.push(m);
                assert(queue_view(state.telegram_queue@) =~= queue_view(
                    old(state).telegram_queue@,
                ).push(m@));
            },
            Mutation::DrainQueue => {
                drained = clone_queue(&state.telegram_queue);
                state.telegram_queue = Vec::new();
                assert(queue_view(state.telegram_queue@) =~= Seq::empty());
            },
            Mutation::Requeue(q) => {
                let mut q = q;
                let ghost added = q@;
                state.telegram_queue.append(&mut q);
                assert(queue_view(state.telegram_queue@) =~= queue_view(
                    old(state).telegram_queue@,
                ) + queue_view(added));
            },
        }
        drained
    }
}

/// What the caller saw of the backing file just before an operation.
#[derive(Debug, PartialEq, Eq)]
pub struct FileObservation {
    /// The file's modification time; `None` where its metadata could not be
    /// read (the file is missing, for one).
    pub modified: Option<Timestamp>,
    /// The record that reading and parsing the file gave; `None` where either
    /// failed. The store looks at it only when the file has changed, so a
    /// caller may leave it out otherwise.
    pub record: Option<PersistentState>,
}

/// What an observation of the file holds.
pub struct FileView {
    pub modified: Option<Timestamp>,
    pub record: Option<PersistentStateView>,
}

impl View for FileObservation {
    type V = FileView;

    open spec fn view(&self) -> FileView {
        FileView { modified: self.modified, record: record_view(self.record) }
    }
}

/// The store: the record in memory and the instant of the last load.
#[derive(Debug, PartialEq, Eq)]
pub struct PersistentStateGuard {
    state: PersistentState,
    last_read_time: Timestamp,
}

/// What the store holds.
pub struct GuardView {
    pub state: PersistentStateView,
    pub last_read_time: Timestamp,
}

impl View for PersistentStateGuard {
    type V = GuardView;

    closed spec fn view(&self) -> GuardView {
        GuardView { state: self.state@, last_read_time: self.last_read_time }
    }
}

/// Whether the file was modified after the store last read it. A file whose
/// modification time is unknown counts as unchanged.
pub open spec fn changed_on_disk(last_read_time: Timestamp, modified: Option<Timestamp>) -> bool {
    match modified {
        Some(t) => t.as_nanos() > last_read_time.as_nanos(),
        None => false,
    }
}

/// The store after the staleness check at instant `now`: where the file has
/// changed, the store holds what the file gave and remembers `now`.
pub open spec fn reloaded(store: GuardView, file: FileView, now: Timestamp) -> GuardView {
    if changed_on_disk(store.last_read_time, file.modified) {
        GuardView { state: loaded(file.record), last_read_time: now }
    } else {
        store
    }
}

/// The store after an update: the staleness check, then the mutation.
pub open spec fn updated(
    store: GuardView,
    file: FileView,
    now: Timestamp,
    mutation: MutationView,
) -> GuardView {
    let fresh = reloaded(store, file, now);
    GuardView { state: applied(fresh.state, mutation), last_read_time: fresh.last_read_time }
}

/// What an update hands to its caller.
#[derive(Debug, PartialEq, Eq)]
pub struct UpdateOutcome {
    /// What the mutation took out of the record.
    pub drained: Vec<TelegramMessage>,
    /// The full record as it stands after the mutation: what the caller has
    /// to write to the backing file, replacing its content.
    pub record: PersistentState,
}

impl UpdateOutcome {
    /// Settles the update once the caller has tried to write the record:
    /// the mutation's result where the write succeeded, an I/O failure where
    /// it did not. Either way the mutation stands in memory. What the
    /// mutation took out is not handed out with the failure: a caller that
    /// needs it whatever becomes of the write takes `drained` first.
    pub fn finish(self, written: bool) -> (result: Result<Vec<TelegramMessage>, crate::error::Error>)
        ensures
            written ==> result is Ok && result->Ok_0 == self.drained,
            !written ==> result == Err::<Vec<TelegramMessage>, crate::error::Error>(
                crate::error::Error::IoFailure,
            ),
    {
        if written {
            Ok(self.drained)
        } else {
            Err(crate::error::Error::IoFailure)
        }
    }
}

impl PersistentStateGuard {
    /// Starts a store at instant `now` from what loading the file gave.
    pub fn load_from_yaml(record: Option<PersistentState>, now: Timestamp) -> (store: Self)
        ensures
            store@ == (GuardView { state: loaded(record_view(record)), last_read_time: now }),
    {
        PersistentStateGuard { state: PersistentState::load_from_yaml(record), last_read_time: now }
    }

    /// Whether the file, last modified at `modified`, has to be read again.
    pub fn is_changed_on_disk(&self, modified: Option<Timestamp>) -> (changed: bool)
        ensures
            changed == changed_on_disk(self@.last_read_time, modified),
    {
        match modified {
            Some(t) => t.is_after(&self.last_read_time),
            None => false,
        }
    }

    /// The staleness check: takes over what the file holds where it changed
    /// since the last load.
    pub fn reload(&mut self, file: FileObservation, now: Timestamp)
        ensures
            final(self)@ == reloaded(old(self)@, file@, now),
    {
        if self.is_changed_on_disk(file.modified) {
            self.state = PersistentState::load_from_yaml(file.record);
            self.last_read_time = now;
        }
    }

    /// A deep copy of the current record, after the staleness check.
    pub fn get(&mut self, file: FileObservation, now: Timestamp) -> (snapshot: PersistentState)
        ensures
            final(self)@ == reloaded(old(self)@, file@, now),
            snapshot@ == final(self)@.state,
    {
        self.reload(file, now);
        self.state.clone()
    }

    /// Applies `mutation` to the record after the staleness check, and hands
    /// back its result together with the full record for the caller to write.
    pub fn update(&mut self, file: FileObservation, now: Timestamp, mutation: Mutation) -> (outcome:
        UpdateOutcome)
        ensures
            final(self)@ == updated(old(self)@, file@, now, mutation@),
            outcome.record@ == final(self)@.state,
            queue_view(outcome.drained@) == drained_by(
                reloaded(old(self)@, file@, now).state,
                mutation@,
            ),
    {
        self.reload(file, now);
        let drained = mutation.apply(&mut self.state);
        UpdateOutcome { drained, record: self.state.clone() }
    }
}

/// One call on the store, as a value.
pub enum Op {
    Get { file: FileView, now: Timestamp },
    Update { file: FileView, now: Timestamp, mutation: MutationView },
}

impl Op {
    /// The observation of the file that the call was given.
    pub open spec fn file(self) -> FileView {
        match self {
            Op::Get { file, .. } => file,
            Op::Update { file, .. } => file,
        }
    }
}

/// The store after one call.
pub open spec fn step(store: GuardView, op: Op) -> GuardView {
    match op {
        Op::Get { file, now } => reloaded(store, file, now),
        Op::Update { file, now, mutation } => updated(store, file, now, mutation),
    }
}

/// The store after a sequence of calls.
pub open spec fn run(store: GuardView, ops: Seq<Op>) -> GuardView
    decreases ops.len(),
{
    if ops.len() == 0 {
        store
    } else {
        step(run(store, ops.drop_last()), ops.last())
    }
}

/// Whether `value` is a record that came into being as a whole during the
/// calls `ops` on a store that began as `store`: the record the store began
/// with, the record that stood when one of the updates completed, or a record
/// that one of the calls loaded from the file.
pub open spec fn produced(store: GuardView, ops: Seq<Op>, value: PersistentStateView) -> bool {
    ||| value == store.state
    ||| exists|j: int|
        0 <= j < ops.len() && ops[j] is Update && value == #[trigger] run(
            store,
            ops.take(j + 1),
        ).state
    ||| exists|j: int|
        0 <= j < ops.len() && changed_on_disk(
            run(store, ops.take(j)).last_read_time,
            ops[j].file().modified,
        ) && value == loaded((#[trigger] ops[j]).file().record)
}

proof fn lemma_produced_grows(store: GuardView, ops: Seq<Op>, op: Op, value: PersistentStateView)
    requires
        produced(store, ops, value),
    ensures
        produced(store, ops.push(op), value),
{
    let more = ops.push(op);
    if value == store.state {
    } else if exists|j: int|
        0 <= j < ops.len() && ops[j] is Update && value == #[trigger] run(
            store,
            ops.take(j + 1),
        ).state {
        let j = choose|j: int|
            0 <= j < ops.len() && ops[j] is Update && value == #[trigger] run(
                store,
                ops.take(j + 1),
            ).state;
        assert(more.take(j + 1) =~= ops.take(j + 1));
        assert(more[j] is Update);
    } else {
        let j = choose|j: int|
            0 <= j < ops.len() && changed_on_disk(
                run(store, ops.take(j)).last_read_time,
                ops[j].file().modified,
            ) && value == loaded((#[trigger] ops[j]).file().record);
        assert(more.take(j) =~= ops.take(j));
        assert(more[j] == ops[j]);
    }
}

/// After any sequence of calls the store holds a record that came into being
/// as a whole.
pub proof fn lemma_state_is_produced(store: GuardView, ops: Seq<Op>)
    ensures
        produced(store, ops, run(store, ops).state),
    decreases ops.len(),
{
    if ops.len() > 0 {
        let before = ops.drop_last();
        let op = ops.last();
        let j = ops.len() - 1;
        assert(before.push(op) =~= ops);
        assert(ops.take(j) =~= before);
        assert(ops.take(j + 1) =~= ops);
        lemma_state_is_produced(store, before);
        let prior = run(store, before);
        match op {
            Op::Get { file, now } => {
                if changed_on_disk(prior.last_read_time, file.modified) {
                    assert(ops[j].file() == file);
                } else {
                    lemma_produced_grows(store, before, op, prior.state);
                }
            },
            Op::Update { .. } => {
                assert(ops[j] is Update);
            },
        }
    }
}

/// Every `get` returns a whole record: in any sequence of `get` and `update`
/// calls, what the call at position `i` returns, if it is a `get`, is the
/// record the store began with, the record that stood when an earlier update
/// completed, or a record loaded from the file. It is never a mixture.
pub proof fn law_get_returns_whole_record(store: GuardView, ops: Seq<Op>, i: int)
    requires
        0 <= i < ops.len(),
        ops[i] is Get,
    ensures
        produced(store, ops.take(i + 1), run(store, ops.take(i + 1)).state),
{
    lemma_state_is_produced(store, ops.take(i + 1));
}

/// Reading is idempotent: two `get` calls in a row that see the same file
/// return the same record, whatever the instants at which they are made.
pub proof fn law_get_is_idempotent(
    store: GuardView,
    file: FileView,
    first: Timestamp,
    second: Timestamp,
)
    ensures
        reloaded(reloaded(store, file, first), file, second).state == reloaded(
            store,
            file,
            first,
        ).state,
{
}

/// A restart loses nothing: when an update has handed out its record and
/// the file holds that record, a store that starts anew from the file holds
/// what the old store held, and so does every `get` on the new store that
/// sees that file, whether it reads the file again or not. This holds for
/// every mutation; after the identity, the record is the one that stood
/// before the update.
pub proof fn law_record_survives_restart(
    store: GuardView,
    file: FileView,
    now: Timestamp,
    mutation: MutationView,
    restart: Timestamp,
    modified: Option<Timestamp>,
    later: Timestamp,
)
    ensures
        loaded(Some(updated(store, file, now, mutation).state)) == updated(
            store,
            file,
            now,
            mutation,
        ).state,
        reloaded(
            GuardView {
                state: loaded(Some(updated(store, file, now, mutation).state)),
                last_read_time: restart,
            },
            FileView { modified, record: Some(updated(store, file, now, mutation).state) },
            later,
        ).state == updated(store, file, now, mutation).state,
        updated(store, file, now, MutationView::Identity).state == reloaded(store, file, now).state,
{
}

/// The mutations of a sequence of calls, in order.
pub open spec fn mutations(ops: Seq<Op>) -> Seq<MutationView>
    decreases ops.len(),
{
    if ops.len() == 0 {
        Seq::empty()
    } else {
        match ops.last() {
            Op::Get { .. } => mutations(ops.drop_last()),
            Op::Update { mutation, .. } => mutations(ops.drop_last()).push(mutation),
        }
    }
}

/// A record after a sequence of mutations.
pub open spec fn applied_all(state: PersistentStateView, mutations: Seq<MutationView>) -> PersistentStateView
    decreases mutations.len(),
{
    if mutations.len() == 0 {
        state
    } else {
        applied(applied_all(state, mutations.drop_last()), mutations.last())
    }
}

/// Whether no call of `ops` finds the file changed.
pub open spec fn undisturbed(store: GuardView, ops: Seq<Op>) -> bool {
    forall|j: int|
        0 <= j < ops.len() ==> !changed_on_disk(store.last_read_time, (#[trigger] ops[j]).file().modified)
}

/// Updates are applied one after the other and none is lost: while nobody
/// else edits the file, the record after any sequence of calls is the first
/// record with every mutation applied to it in the order of the calls.
pub proof fn law_updates_accumulate_in_order(store: GuardView, ops: Seq<Op>)
    requires
        undisturbed(store, ops),
    ensures
        run(store, ops).state == applied_all(store.state, mutations(ops)),
        run(store, ops).last_read_time == store.last_read_time,
    decreases ops.len(),
{
    if ops.len() > 0 {
        let before = ops.drop_last();
        assert forall|j: int| 0 <= j < before.len() implies !changed_on_disk(
            store.last_read_time,
            (#[trigger] before[j]).file().modified,
        ) by {
            assert(before[j] == ops[j]);
        }
        law_updates_accumulate_in_order(store, before);
        assert(ops.last() == ops[ops.len() - 1]);
        match ops.last() {
            Op::Get { .. } => {},
            Op::Update { mutation, .. } => {
                assert(mutations(ops).drop_last() =~= mutations(before));
            },
        }
    }
}

/// A record after the messages `arrivals` were enqueued one by one.
pub open spec fn enqueued(
    state: PersistentStateView,
    arrivals: Seq<TelegramMessageView>,
) -> PersistentStateView
    decreases arrivals.len(),
{
    if arrivals.len() == 0 {
        state
    } else {
        applied(enqueued(state, arrivals.drop_last()), MutationView::Enqueue(arrivals.last()))
    }
}

proof fn lemma_enqueued_appends(state: PersistentStateView, arrivals: Seq<TelegramMessageView>)
    ensures
        enqueued(state, arrivals).telegram_queue == state.telegram_queue + arrivals,
    decreases arrivals.len(),
{
    if arrivals.len() > 0 {
        lemma_enqueued_appends(state, arrivals.drop_last());
        assert(arrivals.drop_last().push(arrivals.last()) =~= arrivals);
        assert(state.telegram_queue + arrivals =~= (state.telegram_queue
            + arrivals.drop_last()).push(arrivals.last()));
    } else {
        assert(state.telegram_queue + arrivals =~= state.telegram_queue);
    }
}

/// A retry run loses no new arrival: a drain hands out the whole queue and
/// leaves it empty; whatever is enqueued between the drain and the end of the
/// run is still there, in order, after the failed messages are put back, and
/// the failed messages follow it.
pub proof fn law_requeue_keeps_arrivals(
    state: PersistentStateView,
    arrivals: Seq<TelegramMessageView>,
    failed: Seq<TelegramMessageView>,
)
    ensures
        drained_by(state, MutationView::DrainQueue) == state.telegram_queue,
        applied(state, MutationView::DrainQueue).telegram_queue == Seq::<
            TelegramMessageView,
        >::empty(),
        applied(
            enqueued(applied(state, MutationView::DrainQueue), arrivals),
            MutationView::Requeue(failed),
        ).telegram_queue == arrivals + failed,
{
    let emptied = applied(state, MutationView::DrainQueue);
    lemma_enqueued_appends(emptied, arrivals);
    assert(emptied.telegram_queue + arrivals =~= arrivals);
}

} // verus!
