use ala_archa_backend::config::{Config, LogLevel, Ping, SpeedTest as SpeedTestConfig};
use ala_archa_backend::error::Error;
use ala_archa_backend::mobile_provider::{BalanceAction, MobileProvider, TariffDecision};
use ala_archa_backend::number::Number;
use ala_archa_backend::persistent_state::{FileObservation, Mutation, PersistentState};
use ala_archa_backend::speedtest::SpeedTest;
use ala_archa_backend::persistent_state::TelegramMessage;
use ala_archa_backend::state::{
    check_is_wide_internet_available, JobKind, JobState, ProbeAction, ProbePhase, ProbeState,
    ScheduledJob, State, PROBE_ATTEMPTS, PROBE_PAUSE_SECS, PROBE_TIMEOUT_SECS,
};
use ala_archa_backend::telegram::Telegram;
use ala_archa_backend::time::{Interval, Timestamp};

fn n(x: f64) -> Number {
    Number::from_bits(x.to_bits())
}

fn at(secs: i64) -> Timestamp {
    Timestamp::new(secs, 0)
}

fn missing() -> FileObservation {
    FileObservation { modified: None, record: None }
}

fn provider(crontab: Option<&str>) -> MobileProvider {
    MobileProvider {
        update_tariff_command: "update-tariff".to_string(),
        get_balance_command: "get-balance".to_string(),
        get_balance_crontab: crontab.map(|c| c.to_string()),
        low_balance_threshold: n(100.0),
        low_download_speed_threshold: n(5.0),
        min_update_tariff_interval: Interval::from_secs(3600),
        telegram_chat_ids: vec!["1".to_string()],
        phone_number: "+996700000000".to_string(),
        get_balance_retry_count: 2,
        get_balance_retry_interval: Interval::from_secs(7),
        restart_lte_command: "restart-lte".to_string(),
    }
}

fn telegram() -> Telegram {
    Telegram {
        bot_token: "t".to_string(),
        message_timeout: Interval::from_secs(60),
        retry_crontab: "retry".to_string(),
    }
}

fn config(telegram: Option<Telegram>, mobile_provider: Option<MobileProvider>) -> Config {
    Config {
        log_level: LogLevel::Debug,
        ipset_shaper_name: "shaper".to_string(),
        ipset_acl_name: "acl".to_string(),
        ipset_no_shape_name: "noshape".to_string(),
        http_listen: "127.0.0.1:8080".to_string(),
        bytes_unlimited_limit: 1,
        dhcpd_leases: "leases".to_string(),
        blacklisted_macs: Vec::new(),
        no_shaping_ips: Vec::new(),
        no_shaping_timeout: 1,
        shaping_timeout: 2,
        speedtest: SpeedTestConfig { speedtest_cli_path: "cli".to_string(), crontab: "speed".to_string() },
        ping: Ping { server: "8.8.8.8".to_string(), crontab: "ping".to_string() },
        telegram,
        mobile_provider,
        persistent_state_path: "state.yaml".to_string(),
    }
}

fn job(kind: JobKind, crontab: &str) -> ScheduledJob {
    ScheduledJob { kind, crontab: crontab.to_string() }
}

#[test]
fn the_probe_and_the_benchmark_are_always_scheduled() {
    let state = State::new(config(None, None), None, at(0));
    assert_eq!(
        state.init_cronjobs(),
        vec![job(JobKind::Reachability, "ping"), job(JobKind::SpeedTest, "speed")]
    );
    let state = State::new(config(None, Some(provider(None))), None, at(0));
    assert_eq!(
        state.init_cronjobs(),
        vec![job(JobKind::Reachability, "ping"), job(JobKind::SpeedTest, "speed")]
    );
}

#[test]
fn the_optional_jobs_are_scheduled_where_they_are_configured() {
    let state = State::new(config(Some(telegram()), Some(provider(Some("balance")))), None, at(0));
    assert_eq!(
        state.init_cronjobs(),
        vec![
            job(JobKind::Reachability, "ping"),
            job(JobKind::SpeedTest, "speed"),
            job(JobKind::BalanceCheck, "balance"),
            job(JobKind::QueueRetry, "retry"),
        ]
    );
    let state = State::new(config(Some(telegram()), None), None, at(0));
    assert_eq!(
        state.init_cronjobs(),
        vec![
            job(JobKind::Reachability, "ping"),
            job(JobKind::SpeedTest, "speed"),
            job(JobKind::QueueRetry, "retry"),
        ]
    );
    assert_eq!(state.config(), &config(Some(telegram()), None));
}

#[test]
fn a_running_job_is_not_entered_again() {
    assert_eq!(JobState::Idle.fire(), (JobState::Running, true));
    assert_eq!(JobState::Running.fire(), (JobState::Running, false));
    assert_eq!(JobState::Running.finish(), JobState::Idle);
    assert_eq!(JobState::Idle.finish(), JobState::Idle);
}

fn probe(replies: [bool; 3], took_secs: i64) -> (Vec<ProbeAction>, bool) {
    let mut clock = at(1_000);
    let (mut state, mut action) = check_is_wide_internet_available(clock);
    let mut trace = Vec::new();
    loop {
        trace.push(action);
        let replied = match action {
            ProbeAction::Probe { sequence, timeout } => {
                let replied = replies[sequence as usize];
                clock.secs += if replied { 0 } else { took_secs.min(timeout.secs as i64) };
                replied
            }
            ProbeAction::Pause(pause) => {
                clock.secs += pause.secs as i64;
                true
            }
            ProbeAction::Finish(result) => {
                assert_eq!(state.phase, ProbePhase::Done(result));
                assert_eq!(state.step(true, clock), (state, action));
                assert!(clock.secs <= 1_000 + PROBE_TIMEOUT_SECS as i64);
                return (trace, result);
            }
        };
        (state, action) = state.step(replied, clock);
    }
}

fn ask(sequence: u16, secs_left: u64) -> ProbeAction {
    ProbeAction::Probe { sequence, timeout: Interval::from_secs(secs_left) }
}

#[test]
fn one_reply_out_of_three_probes_is_enough() {
    let pause = ProbeAction::Pause(Interval::from_secs(1));
    assert_eq!(PROBE_ATTEMPTS, 3);
    assert_eq!(PROBE_TIMEOUT_SECS, 10);
    assert_eq!(PROBE_PAUSE_SECS, 1);
    assert_eq!(probe([true, false, false], 1), (vec![ask(0, 10), ProbeAction::Finish(true)], true));
    assert_eq!(
        probe([false, true, true], 1),
        (vec![ask(0, 10), pause, ask(1, 8), ProbeAction::Finish(true)], true)
    );
    assert_eq!(
        probe([false, false, true], 2),
        (vec![ask(0, 10), pause, ask(1, 7), pause, ask(2, 4), ProbeAction::Finish(true)], true)
    );
    assert_eq!(
        probe([false, false, false], 1),
        (
            vec![ask(0, 10), pause, ask(1, 8), pause, ask(2, 6), pause, ProbeAction::Finish(false)],
            false
        )
    );
}

#[test]
fn a_check_without_replies_ends_within_ten_seconds() {
    let pause = ProbeAction::Pause(Interval::from_secs(1));
    assert_eq!(
        probe([false, false, false], 10),
        (vec![ask(0, 10), ProbeAction::Finish(false)], false)
    );
    assert_eq!(
        probe([false, false, false], 4),
        (
            vec![ask(0, 10), pause, ask(1, 5), pause, ProbeAction::Finish(false)],
            false
        )
    );
    assert_eq!(
        probe([false, false, false], 3),
        (
            vec![ask(0, 10), pause, ask(1, 6), pause, ask(2, 2), ProbeAction::Finish(false)],
            false
        )
    );
}

#[test]
fn each_probe_and_each_wait_gets_no_more_than_the_time_that_is_left() {
    let (state, _) = check_is_wide_internet_available(at(100));
    assert_eq!(state, ProbeState { started: at(100), phase: ProbePhase::Probing(0) });
    assert_eq!(state.time_left(at(100)), 10_000_000_000);
    assert_eq!(state.time_left(at(50)), 10_000_000_000);
    assert_eq!(state.time_left(Timestamp::new(109, 999_999_999)), 1);
    assert_eq!(state.time_left(at(110)), 0);
    assert_eq!(state.time_left(at(5_000)), 0);

    let late = Timestamp::new(109, 400_000_000);
    let (paused, action) = state.step(false, late);
    assert_eq!(action, ProbeAction::Pause(Interval::new(0, 600_000_000)));
    assert_eq!(paused.phase, ProbePhase::Pausing(1));
    let (probing, action) = paused.step(false, Timestamp::new(109, 750_000_000));
    assert_eq!(
        action,
        ProbeAction::Probe { sequence: 1, timeout: Interval::new(0, 250_000_000) }
    );
    assert_eq!(probing.step(true, at(110)).1, ProbeAction::Finish(false));
    assert_eq!(probing.step(true, Timestamp::new(109, 999_999_999)).1, ProbeAction::Finish(true));
    assert_eq!(paused.step(false, at(110)).1, ProbeAction::Finish(false));
    assert_eq!(
        ProbeState { started: at(100), phase: ProbePhase::Probing(u16::MAX) }.step(false, at(101)),
        (
            ProbeState { started: at(100), phase: ProbePhase::Pausing(3) },
            ProbeAction::Pause(Interval::from_secs(1))
        )
    );
    assert_eq!(
        ProbeState { started: at(100), phase: ProbePhase::Pausing(3) }.step(false, at(101)).1,
        ProbeAction::Finish(false)
    );
}

#[test]
fn the_balance_needs_a_provider() {
    let state = State::new(config(None, None), None, at(0));
    assert_eq!(state.get_balance().err(), Some(Error::ConfigurationMissing));
    let state = State::new(config(None, Some(provider(None))), None, at(0));
    let (_, action) = state.get_balance().unwrap();
    assert_eq!(action, BalanceAction::Query("get-balance".to_string()));
}

#[test]
fn the_results_of_the_jobs_are_committed_through_the_store() {
    let mut state = State::new(config(None, Some(provider(None))), None, at(0));
    let speed = SpeedTest::new(n(4.0), n(1.0), n(30.0));
    let mut expected = PersistentState::default();

    expected.is_wide_network_available = Some(true);
    assert_eq!(state.commit_reachability(missing(), at(1), true).record, expected);

    expected.speedtest = Some(speed);
    expected.last_speedtest_check = Some(at(2));
    assert_eq!(state.get_speedtest(missing(), at(2), speed).record, expected);

    expected.balance = Some(n(398.08));
    assert_eq!(state.commit_balance(missing(), at(3), n(398.08)).record, expected);
    assert_eq!(state.persistent_state(missing(), at(4)), expected);

    assert_eq!(state.tariff_check(missing(), at(5)), Some(TariffDecision::Update));
    expected.last_tariff_update = Some(at(5));
    assert_eq!(state.update(missing(), at(5), Mutation::SetLastTariffUpdate(at(5))).record, expected);
    assert_eq!(state.tariff_check(missing(), at(6)), Some(TariffDecision::TooRecent));

    let mut bare = State::new(config(None, None), Some(expected), at(0));
    assert_eq!(bare.tariff_check(missing(), at(7)), None);
}

fn queued(chat_id: &str, text: &str, secs: i64) -> TelegramMessage {
    TelegramMessage { chat_id: chat_id.to_string(), text: text.to_string(), timestamp: at(secs) }
}

#[test]
fn an_update_through_the_state_hands_out_what_the_mutation_took() {
    let mut record = PersistentState::default();
    record.telegram_queue = vec![queued("1", "a", 10), queued("2", "b", 20)];
    let mut state = State::new(config(Some(telegram()), None), Some(record), at(0));
    let outcome = state.update(missing(), at(30), Mutation::DrainQueue);
    assert_eq!(outcome.drained, vec![queued("1", "a", 10), queued("2", "b", 20)]);
    assert!(outcome.record.telegram_queue.is_empty());
    let outcome = state.update(missing(), at(31), Mutation::SetWideNetworkAvailable(true));
    assert!(outcome.drained.is_empty());
}

#[test]
fn a_failed_write_of_the_drain_loses_no_message() {
    let mut record = PersistentState::default();
    record.telegram_queue = vec![queued("1", "old", 0), queued("2", "fresh", 990)];
    let mut state = State::new(config(Some(telegram()), None), Some(record), at(0));

    let (mut run, written) = state.process_queue(missing(), at(1000)).unwrap();
    assert!(written.telegram_queue.is_empty());
    // The caller could not write the record: the run goes on all the same.
    let delivery = run.step(false, at(1000)).unwrap();
    assert_eq!(delivery.chat_id, "2");
    assert_eq!(run.dropped(), &vec![queued("1", "old", 0)]);
    assert_eq!(run.step(false, at(1001)), None);
    let outcome = state.requeue(missing(), at(1002), run);
    assert_eq!(outcome.record.telegram_queue, vec![queued("2", "fresh", 990)]);
    assert_eq!(outcome.finish(false), Err(Error::IoFailure));
    assert_eq!(
        state.persistent_state(missing(), at(1003)).telegram_queue,
        vec![queued("2", "fresh", 990)]
    );
}

#[test]
fn without_a_dispatcher_there_is_no_retry_run() {
    let mut record = PersistentState::default();
    record.telegram_queue = vec![queued("1", "a", 10)];
    let mut state = State::new(config(None, None), Some(record), at(0));
    assert!(state.process_queue(missing(), at(1)).is_none());
    assert_eq!(state.persistent_state(missing(), at(2)).telegram_queue, vec![queued("1", "a", 10)]);
    assert_eq!(state.send_message(missing(), at(3), "1", "x", false), None);
}
