//! The shared state of the daemon and the plan of its scheduled jobs.

use vstd::prelude::*;
use vstd::string::*;
use crate::config::Config;
use crate::error::Error;
use crate::mobile_provider::{
    fresh_run, proceed, tariff_decision, BalanceAction, BalanceRun, TariffDecision,
};
use crate::number::Number;
use crate::persistent_state::{
    changed_on_disk, drained_by, loaded, queue_view, record_view, reloaded, updated, FileObservation, GuardView, Mutation,
    MutationView, PersistentState, PersistentStateGuard, TelegramMessageView, UpdateOutcome,
};
use crate::speedtest::SpeedTest;
use crate::telegram::{QueueRun, QueueRunView};
use crate::time::{Interval, Timestamp};

verus! {

/// How many probes one reachability check sends at most.
pub const PROBE_ATTEMPTS: u16 = 3;

/// How long a whole reachability check may take, in seconds.
pub const PROBE_TIMEOUT_SECS: u64 = 10;

/// How long the check waits after a probe that failed, in seconds.
pub const PROBE_PAUSE_SECS: u64 = 1;

/// What a reachability check is doing.
#[derive(Clone, Copy, Debug, PartialEq, Eq, Structural)]
pub enum ProbePhase {
    /// The probe with this sequence number is under way.
    Probing(u16),
    /// The check waits; the probe with this sequence number comes next.
    Pausing(u16),
    /// The check has ended with this result.
    Done(bool),
}

/// Where a reachability check stands.
#[derive(Clone, Copy, Debug, PartialEq, Eq, Structural)]
pub struct ProbeState {
    /// The instant at which the check began.
    pub started: Timestamp,
    pub phase: ProbePhase,
}

/// What a reachability check asks its caller to do next.
#[derive(Clone, Copy, Debug, PartialEq, Eq, Structural)]
pub enum ProbeAction {
    /// Send the probe with this sequence number, wait for its reply no longer
    /// than `timeout`, and report whether the reply came.
    Probe { sequence: u16, timeout: Interval },
    /// Wait this long and report back.
    Pause(Interval),
    /// The check has ended: the wide network is reachable or not.
    Finish(bool),
}

/// The time that a whole check may take, in nanoseconds.
pub open spec fn probe_ceiling() -> int {
    PROBE_TIMEOUT_SECS * 1_000_000_000
}

/// The time that is left at instant `now` to a check that began at `started`,
/// in nanoseconds: the ceiling less what has passed, and nothing once the
/// ceiling is reached.
pub open spec fn probe_time_left(started: Timestamp, now: Timestamp) -> int {
    let passed = now.as_nanos() - started.as_nanos();
    if passed <= 0 {
        probe_ceiling()
    } else if passed >= probe_ceiling() {
        0
    } else {
        probe_ceiling() - passed
    }
}

/// How long the check waits after a failed probe when `left` nanoseconds are
/// left: the pause, or what is left where that is less.
pub open spec fn probe_pause(left: int) -> int {
    if left < PROBE_PAUSE_SECS * 1_000_000_000 {
        left
    } else {
        PROBE_PAUSE_SECS * 1_000_000_000
    }
}

/// The check at its beginning, at instant `now`, and what it asks for first.
pub open spec fn probe_start(now: Timestamp) -> (ProbeState, ProbeAction) {
    (
        ProbeState { started: now, phase: ProbePhase::Probing(0) },
        ProbeAction::Probe { sequence: 0, timeout: Interval::of_nanos(probe_ceiling()) },
    )
}

/// The end of a check.
pub open spec fn probe_end(state: ProbeState, result: bool) -> (ProbeState, ProbeAction) {
    (ProbeState { started: state.started, phase: ProbePhase::Done(result) }, ProbeAction::Finish(result))
}

/// One step of a reachability check, at instant `now`. `replied` tells
/// whether the probe that was asked for got its reply; after a wait it is
/// ignored. While time is left, one reply ends the check with success, and a
/// probe without one is followed by a wait and then by the next probe, until
/// the last probe has failed. Each probe and each wait is given no more than
/// the time that is left, and once none is left the check ends without
/// success.
pub open spec fn probe_next(state: ProbeState, replied: bool, now: Timestamp) -> (
    ProbeState,
    ProbeAction,
) {
    let left = probe_time_left(state.started, now);
    match state.phase {
        ProbePhase::Probing(sequence) => if left == 0 {
            probe_end(state, false)
        } else if replied {
            probe_end(state, true)
        } else {
            (
                ProbeState {
                    started: state.started,
                    phase: ProbePhase::Pausing(
                        if sequence < PROBE_ATTEMPTS {
                            (sequence + 1) as u16
                        } else {
                            PROBE_ATTEMPTS
                        },
                    ),
                },
                ProbeAction::Pause(Interval::of_nanos(probe_pause(left))),
            )
        },
        ProbePhase::Pausing(sequence) => if sequence < PROBE_ATTEMPTS && left > 0 {
            (
                ProbeState { started: state.started, phase: ProbePhase::Probing(sequence) },
                ProbeAction::Probe { sequence, timeout: Interval::of_nanos(left) },
            )
        } else {
            probe_end(state, false)
        },
        ProbePhase::Done(result) => (state, ProbeAction::Finish(result)),
    }
}

/// Starts a reachability check at instant `now`.
pub fn check_is_wide_internet_available(now: Timestamp) -> (started: (ProbeState, ProbeAction))
    ensures
        started == probe_start(now),
{
    (
        ProbeState { started: now, phase: ProbePhase::Probing(0) },
        ProbeAction::Probe {
            sequence: 0,
            timeout: Interval::from_nanos(PROBE_TIMEOUT_SECS * 1_000_000_000),
        },
    )
}

impl ProbeState {
    /// The time that is left to the check at instant `now`, in nanoseconds.
    pub fn time_left(&self, now: Timestamp) -> (left: u64)
        ensures
            left == probe_time_left(self.started, now),
    {
        let ceiling: i128 = (PROBE_TIMEOUT_SECS * 1_000_000_000) as i128;
        let passed = now.nanos_since(&self.started);
        if passed <= 0 {
            PROBE_TIMEOUT_SECS * 1_000_000_000
        } else if passed >= ceiling {
            0
        } else {
            (ceiling - passed) as u64
        }
    }

    /// One step of the check, at instant `now`.
    pub fn step(self, replied: bool, now: Timestamp) -> (stepped: (ProbeState, ProbeAction))
        ensures
            stepped == probe_next(self, replied, now),
    {
        let left = self.time_left(now);
        let failed = (
            ProbeState { started: self.started, phase: ProbePhase::Done(false) },
            ProbeAction::Finish(false),
        );
        match self.phase {
            ProbePhase::Probing(sequence) => {
                if left == 0 {
                    failed
                } else if replied {
                    (
                        ProbeState { started: self.started, phase: ProbePhase::Done(true) },
                        ProbeAction::Finish(true),
                    )
                } else {
                    let following: u16 = if sequence < PROBE_ATTEMPTS {
                        sequence + 1
                    } else {
                        PROBE_ATTEMPTS
                    };
                    let pause: u64 = if left < PROBE_PAUSE_SECS * 1_000_000_000 {
                        left
                    } else {
                        PROBE_PAUSE_SECS * 1_000_000_000
                    };
                    (
                        ProbeState { started: self.started, phase: ProbePhase::Pausing(following) },
                        ProbeAction::Pause(Interval::from_nanos(pause)),
                    )
                }
            },
            ProbePhase::Pausing(sequence) => {
                if sequence < PROBE_ATTEMPTS && left > 0 {
                    (
                        ProbeState { started: self.started, phase: ProbePhase::Probing(sequence) },
                        ProbeAction::Probe { sequence, timeout: Interval::from_nanos(left) },
                    )
                } else {
                    failed
                }
            },
            ProbePhase::Done(result) => (self, ProbeAction::Finish(result)),
        }
    }
}

/// The length of what a check asks for, in nanoseconds: the time that a probe
/// may wait for its reply, the length of a wait, and nothing for the end.
pub open spec fn probe_span(action: ProbeAction) -> int {
    match action {
        ProbeAction::Probe { timeout, .. } => timeout.as_nanos(),
        ProbeAction::Pause(pause) => pause.as_nanos(),
        ProbeAction::Finish(_) => 0,
    }
}

/// A whole check keeps within its ceiling: whatever a step asks for at an
/// instant takes no longer than the time that is left at that instant, so
/// that it is over when the ceiling is reached; and a step at or after that
/// instant ends the check, without success unless it had ended before.
pub proof fn law_probe_keeps_within_ceiling(state: ProbeState, replied: bool, now: Timestamp)
    ensures
        probe_next(state, replied, now).0.started == state.started,
        0 <= probe_span(probe_next(state, replied, now).1) <= probe_time_left(state.started, now),
        probe_span(probe_start(now).1) == probe_ceiling(),
        probe_time_left(state.started, now) == 0 ==> probe_next(state, replied, now).1 is Finish,
        probe_time_left(state.started, now) == 0 && !(state.phase is Done) ==> probe_next(
            state,
            replied,
            now,
        ).1 == ProbeAction::Finish(false),
        now.as_nanos() - state.started.as_nanos() >= probe_ceiling() ==> probe_time_left(
            state.started,
            now,
        ) == 0,
{
}

/// Whether `action` asks for the probe with the sequence number `sequence`.
pub open spec fn asks_for_probe(action: ProbeAction, sequence: u16) -> bool {
    action is Probe && action->sequence == sequence
}

/// The step after a probe and, where the probe failed, the step after the
/// wait that follows it, all at instant `now`.
pub open spec fn after_probe(state: ProbeState, replied: bool, now: Timestamp) -> (
    ProbeState,
    ProbeAction,
) {
    let stepped = probe_next(state, replied, now);
    if stepped.1 is Pause {
        probe_next(stepped.0, false, now)
    } else {
        stepped
    }
}

/// While time is left, the wide network counts as reachable exactly when one
/// of the three probes gets a reply: a check whose probes get the replies
/// `first`, `second` and `third` sends them with the sequence numbers 0, 1
/// and 2, stops at the first reply, and ends with success if and only if
/// there was one.
pub proof fn law_probe_succeeds_on_any_reply(
    began: Timestamp,
    now: Timestamp,
    first: bool,
    second: bool,
    third: bool,
)
    requires
        probe_time_left(began, now) > 0,
    ensures
        asks_for_probe(probe_start(began).1, 0),
        first ==> after_probe(probe_start(began).0, first, now).1 == ProbeAction::Finish(true),
        !first ==> asks_for_probe(after_probe(probe_start(began).0, first, now).1, 1),
        !first && second ==> after_probe(
            after_probe(probe_start(began).0, first, now).0,
            second,
            now,
        ).1 == ProbeAction::Finish(true),
        !first && !second ==> asks_for_probe(
            after_probe(after_probe(probe_start(began).0, first, now).0, second, now).1,
            2,
        ),
        !first && !second ==> after_probe(
            after_probe(after_probe(probe_start(began).0, first, now).0, second, now).0,
            third,
            now,
        ).1 == ProbeAction::Finish(third),
{
}

/// The scheduled jobs of the daemon.
#[derive(Clone, Copy, Debug, PartialEq, Eq, Structural)]
pub enum JobKind {
    /// Probes whether the wide network is reachable.
    Reachability,
    /// Benchmarks the uplink, then checks the tariff.
    SpeedTest,
    /// Learns the prepaid balance.
    BalanceCheck,
    /// Retries the queued notifications.
    QueueRetry,
}

/// A job and the cron expression on which it fires.
#[derive(Clone, Debug, PartialEq, Eq)]
pub struct ScheduledJob {
    pub kind: JobKind,
    pub crontab: String,
}

/// What a scheduled job holds.
pub struct ScheduledJobView {
    pub kind: JobKind,
    pub crontab: Seq<char>,
}

impl View for ScheduledJob {
    type V = ScheduledJobView;

    open spec fn view(&self) -> ScheduledJobView {
        ScheduledJobView { kind: self.kind, crontab: self.crontab@ }
    }
}

/// The jobs of a list.
pub open spec fn jobs_view(jobs: Seq<ScheduledJob>) -> Seq<ScheduledJobView> {
    jobs.map_values(|j: ScheduledJob| j@)
}

/// The balance job of a configuration: there is one where a mobile provider
/// is configured and names a cron expression for it.
pub open spec fn balance_job(config: &Config) -> Seq<ScheduledJobView> {
    match config.mobile_provider {
        Some(provider) => match provider.get_balance_crontab {
            Some(crontab) => seq![
                ScheduledJobView { kind: JobKind::BalanceCheck, crontab: crontab@ },
            ],
            None => Seq::empty(),
        },
        None => Seq::empty(),
    }
}

/// The queue job of a configuration: there is one where notifications are
/// configured.
pub open spec fn queue_job(config: &Config) -> Seq<ScheduledJobView> {
    match config.telegram {
        Some(telegram) => seq![
            ScheduledJobView { kind: JobKind::QueueRetry, crontab: telegram.retry_crontab@ },
        ],
        None => Seq::empty(),
    }
}

/// The jobs that a configuration calls for, in the order in which they are
/// registered: the reachability probe and the benchmark always, then the
/// balance job and the queue job where they are configured.
pub open spec fn job_plan(config: &Config) -> Seq<ScheduledJobView> {
    seq![
        ScheduledJobView { kind: JobKind::Reachability, crontab: config.ping.crontab@ },
        ScheduledJobView { kind: JobKind::SpeedTest, crontab: config.speedtest.crontab@ },
    ] + balance_job(config) + queue_job(config)
}

/// Whether a job is under way.
#[derive(Clone, Copy, Debug, PartialEq, Eq, Structural)]
pub enum JobState {
    Idle,
    Running,
}

impl JobState {
    /// The job's cron expression fires: an idle job starts, a running one is
    /// not entered again. Returns the new state and whether the job starts.
    pub fn fire(self) -> (fired: (JobState, bool))
        ensures
            fired.0 == JobState::Running,
            fired.1 == (self == JobState::Idle),
    {
        match self {
            JobState::Idle => (JobState::Running, true),
            JobState::Running => (JobState::Running, false),
        }
    }

    /// The job's run has ended.
    pub fn finish(self) -> (state: JobState)
        ensures
            state == JobState::Idle,
    {
        JobState::Idle
    }
}

/// The daemon's shared state: its settings and the store.
#[derive(Debug, PartialEq, Eq)]
pub struct State {
    config: Config,
    persistent_state: PersistentStateGuard,
}

impl State {
    /// The settings.
    pub closed spec fn settings(&self) -> &Config {
        &self.config
    }

    /// The store.
    pub closed spec fn store(&self) -> GuardView {
        self.persistent_state@
    }

    /// The state of a daemon that starts at instant `now` with the settings
    /// `config` and with what loading the state file gave.
    pub fn new(config: Config, record: Option<PersistentState>, now: Timestamp) -> (state: State)
        ensures
            *state.settings() == config,
            state.store() == (GuardView { state: loaded(record_view(record)), last_read_time: now }),
    {
        State { config, persistent_state: PersistentStateGuard::load_from_yaml(record, now) }
    }

    pub fn config(&self) -> (config: &Config)
        ensures
            config == self.settings(),
    {
        &self.config
    }

    /// Whether the state file, last modified at `modified`, has to be read
    /// again.
    pub fn is_changed_on_disk(&self, modified: Option<Timestamp>) -> (changed: bool)
        ensures
            changed == changed_on_disk(self.store().last_read_time, modified),
    {
        self.persistent_state.is_changed_on_disk(modified)
    }

    /// A copy of the current record, after the staleness check.
    pub fn persistent_state(&mut self, file: FileObservation, now: Timestamp) -> (snapshot:
        PersistentState)
        ensures
            final(self).settings() == old(self).settings(),
            final(self).store() == reloaded(old(self).store(), file@, now),
            snapshot@ == final(self).store().state,
    {
        self.persistent_state.get(file, now)
    }

    /// Applies `mutation` to the record through the store, and hands back
    /// what the mutation took out together with the full record to write.
    pub fn update(&mut self, file: FileObservation, now: Timestamp, mutation: Mutation) -> (outcome:
        UpdateOutcome)
        ensures
            final(self).settings() == old(self).settings(),
            final(self).store() == updated(old(self).store(), file@, now, mutation@),
            outcome.record@ == final(self).store().state,
            queue_view(outcome.drained@) == drained_by(
                reloaded(old(self).store(), file@, now).state,
                mutation@,
            ),
    {
        self.persistent_state.update(file, now, mutation)
    }

    /// Settles one delivery attempt of a new message through the configured
    /// dispatcher: a message that was not delivered is queued in the store.
    /// Without a dispatcher nothing happens.
    pub fn send_message(
        &mut self,
        file: FileObservation,
        now: Timestamp,
        chat_id: &str,
        text: &str,
        delivered: bool,
    ) -> (outcome: Option<UpdateOutcome>)
        ensures
            final(self).settings() == old(self).settings(),
            old(self).settings().telegram is None || delivered ==> outcome is None
                && final(self).store() == old(self).store(),
            old(self).settings().telegram is Some && !delivered ==> outcome is Some
                && final(self).store() == updated(
                old(self).store(),
                file@,
                now,
                MutationView::Enqueue(
                    TelegramMessageView { chat_id: chat_id@, text: text@, timestamp: now },
                ),
            ) && outcome->0.record@ == final(self).store().state,
    {
        match &self.config.telegram {
            Some(telegram) => telegram.send_message(
                &mut self.persistent_state,
                file,
                now,
                chat_id,
                text,
                delivered,
            ),
            None => None,
        }
    }

    /// Begins a retry run through the configured dispatcher: takes every
    /// queued notification out of the store and hands back the run over them
    /// together with the record to write. The run holds the messages from
    /// then on, whether the write succeeds or not. Without a dispatcher
    /// nothing happens.
    pub fn process_queue(&mut self, file: FileObservation, now: Timestamp) -> (begun: Option<
        (QueueRun, PersistentState),
    >)
        ensures
            final(self).settings() == old(self).settings(),
            old(self).settings().telegram is None ==> begun is None && final(self).store() == old(
                self,
            ).store(),
            old(self).settings().telegram is Some ==> begun is Some && final(self).store()
                == updated(old(self).store(), file@, now, MutationView::DrainQueue),
            begun matches Some(pair) ==> pair.1@ == final(self).store().state && pair.0@
                == (QueueRunView {
                pending: reloaded(old(self).store(), file@, now).state.telegram_queue,
                in_flight: None,
                failed: Seq::empty(),
                dropped: Seq::empty(),
                timeout: old(self).settings().telegram->0.message_timeout,
            }),
    {
        match &self.config.telegram {
            Some(telegram) => {
                let outcome = self.persistent_state.update(file, now, Mutation::DrainQueue);
                let run = telegram.process_queue(outcome.drained);
                Some((run, outcome.record))
            },
            None => None,
        }
    }

    /// Ends a retry run: puts the messages whose delivery failed back into
    /// the store, behind whatever was enqueued since the run began.
    pub fn requeue(&mut self, file: FileObservation, now: Timestamp, run: QueueRun) -> (outcome:
        UpdateOutcome)
        ensures
            final(self).settings() == old(self).settings(),
            final(self).store() == updated(
                old(self).store(),
                file@,
                now,
                MutationView::Requeue(run@.failed),
            ),
            outcome.record@ == final(self).store().state,
    {
        self.persistent_state.update(file, now, Mutation::Requeue(run.into_failed()))
    }

    /// The jobs to register with the scheduler, in order.
    pub fn init_cronjobs(&self) -> (jobs: Vec<ScheduledJob>)
        ensures
            jobs_view(jobs@) == job_plan(self.settings()),
    {
        let mut jobs: Vec<ScheduledJob> = Vec::new();
        jobs.push(
            ScheduledJob { kind: JobKind::Reachability, crontab: self.config.ping.crontab.clone() },
        );
        jobs.push(
            ScheduledJob { kind: JobKind::SpeedTest, crontab: self.config.speedtest.crontab.clone() },
        );
        let ghost fixed = jobs_view(jobs@);
        assert(fixed =~= seq![
            ScheduledJobView { kind: JobKind::Reachability, crontab: self.config.ping.crontab@ },
            ScheduledJobView { kind: JobKind::SpeedTest, crontab: self.config.speedtest.crontab@ },
        ]);
        match &self.config.mobile_provider {
            Some(provider) => {
                match &provider.get_balance_crontab {
                    Some(crontab) => {
                        jobs.push(
                            ScheduledJob { kind: JobKind::BalanceCheck, crontab: crontab.clone() },
                        );
                    },
                    None => {},
                }
            },
            None => {},
        }
        let ghost with_balance = jobs_view(jobs@);
        assert(with_balance =~= fixed + balance_job(&self.config));
        match &self.config.telegram {
            Some(telegram) => {
                jobs.push(
                    ScheduledJob {
                        kind: JobKind::QueueRetry,
                        crontab: telegram.retry_crontab.clone(),
                    },
                );
            },
            None => {},
        }
        assert(jobs_view(jobs@) =~= with_balance + queue_job(&self.config));
        jobs
    }

    /// Starts the balance pipeline of the configured provider; without a
    /// provider there is nothing to ask.
    pub fn get_balance(&self) -> (started: Result<(BalanceRun, BalanceAction), Error>)
        ensures
            started is Ok <==> self.settings().mobile_provider is Some,
            started matches Ok(run) ==> (run.0@, run.1@) == proceed(
                fresh_run(&self.settings().mobile_provider->0),
            ),
            started matches Err(e) ==> e == Error::ConfigurationMissing,
    {
        match &self.config.mobile_provider {
            Some(provider) => Ok(provider.get_balance()),
            None => Err(Error::ConfigurationMissing),
        }
    }

    /// Records the balance that the pipeline found.
    pub fn commit_balance(&mut self, file: FileObservation, now: Timestamp, balance: Number) -> (outcome:
        UpdateOutcome)
        ensures
            final(self).settings() == old(self).settings(),
            final(self).store() == updated(
                old(self).store(),
                file@,
                now,
                MutationView::SetBalance(balance),
            ),
            outcome.record@ == final(self).store().state,
    {
        self.persistent_state.update(file, now, Mutation::SetBalance(balance))
    }

    /// Records the result of a benchmark taken at instant `now`.
    pub fn get_speedtest(&mut self, file: FileObservation, now: Timestamp, result: SpeedTest) -> (outcome:
        UpdateOutcome)
        ensures
            final(self).settings() == old(self).settings(),
            final(self).store() == updated(
                old(self).store(),
                file@,
                now,
                MutationView::SetSpeedTest { result, at: now },
            ),
            outcome.record@ == final(self).store().state,
    {
        self.persistent_state.update(file, now, Mutation::SetSpeedTest { result, at: now })
    }

    /// Records the result of a reachability check.
    pub fn commit_reachability(
        &mut self,
        file: FileObservation,
        now: Timestamp,
        available: bool,
    ) -> (outcome: UpdateOutcome)
        ensures
            final(self).settings() == old(self).settings(),
            final(self).store() == updated(
                old(self).store(),
                file@,
                now,
                MutationView::SetWideNetworkAvailable(available),
            ),
            outcome.record@ == final(self).store().state,
    {
        self.persistent_state.update(file, now, Mutation::SetWideNetworkAvailable(available))
    }

    /// The tariff check that follows a benchmark: with a provider configured,
    /// the rule is applied to the current record; without one there is
    /// nothing to decide.
    pub fn tariff_check(&mut self, file: FileObservation, now: Timestamp) -> (decision: Option<
        TariffDecision,
    >)
        ensures
            final(self).settings() == old(self).settings(),
            final(self).store() == reloaded(old(self).store(), file@, now),
            decision is Some <==> old(self).settings().mobile_provider is Some,
            decision matches Some(d) ==> d == tariff_decision(
                old(self).settings().mobile_provider->0.low_download_speed_threshold,
                old(self).settings().mobile_provider->0.min_update_tariff_interval,
                final(self).store().state,
                now,
            ),
    {
        let snapshot = self.persistent_state.get(file, now);
        match &self.config.mobile_provider {
            Some(provider) => Some(provider.update_tariff(&snapshot, now)),
            None => None,
        }
    }
}

} // verus!
