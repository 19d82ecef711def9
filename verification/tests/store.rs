use ala_archa_backend::error::Error;
use ala_archa_backend::number::Number;
use ala_archa_backend::persistent_state::{
    FileObservation, Mutation, PersistentState, PersistentStateGuard, TelegramMessage,
};
use ala_archa_backend::speedtest::SpeedTest;
use ala_archa_backend::time::Timestamp;

fn at(secs: i64) -> Timestamp {
    Timestamp::new(secs, 0)
}

fn message(chat_id: &str, text: &str, secs: i64) -> TelegramMessage {
    TelegramMessage { chat_id: chat_id.to_string(), text: text.to_string(), timestamp: at(secs) }
}

fn missing() -> FileObservation {
    FileObservation { modified: None, record: None }
}

fn unchanged(secs: i64) -> FileObservation {
    FileObservation { modified: Some(at(secs)), record: None }
}

fn sample() -> PersistentState {
    PersistentState {
        is_wide_network_available: Some(true),
        speedtest: Some(SpeedTest::new(
            Number::from_bits(12.5f64.to_bits()),
            Number::from_bits(3.25f64.to_bits()),
            Number::from_bits(40.0f64.to_bits()),
        )),
        last_speedtest_check: Some(at(90)),
        last_tariff_update: Some(at(50)),
        balance: Some(Number::from_bits(398.08f64.to_bits())),
        telegram_queue: vec![message("1", "hello", 10)],
    }
}

#[test]
fn a_failed_load_gives_the_empty_record() {
    assert_eq!(PersistentState::load_from_yaml(None), PersistentState::default());
    let state = PersistentState::default();
    assert_eq!(state.is_wide_network_available, None);
    assert_eq!(state.speedtest, None);
    assert_eq!(state.last_speedtest_check, None);
    assert_eq!(state.last_tariff_update, None);
    assert_eq!(state.balance, None);
    assert!(state.telegram_queue.is_empty());
    assert_eq!(PersistentState::load_from_yaml(Some(sample())), sample());
}

#[test]
fn deleted_file_then_get_then_update_recreates_the_full_record() {
    let mut store = PersistentStateGuard::load_from_yaml(None, at(100));
    let snapshot = store.get(missing(), at(101));
    assert_eq!(snapshot, PersistentState::default());
    let outcome = store.update(missing(), at(102), Mutation::SetWideNetworkAvailable(true));
    let mut expected = PersistentState::default();
    expected.is_wide_network_available = Some(true);
    assert_eq!(outcome.record, expected);
    assert!(outcome.drained.is_empty());
    assert_eq!(store.get(missing(), at(103)), expected);
}

#[test]
fn a_deleted_file_does_not_disturb_the_cached_record() {
    let mut store = PersistentStateGuard::load_from_yaml(Some(sample()), at(100));
    assert_eq!(store.get(missing(), at(101)), sample());
}

#[test]
fn get_reloads_only_when_the_file_is_newer_than_the_last_load() {
    let mut store = PersistentStateGuard::load_from_yaml(None, at(100));
    let older = FileObservation { modified: Some(at(99)), record: Some(sample()) };
    assert_eq!(store.get(older, at(101)), PersistentState::default());
    let same = FileObservation { modified: Some(at(100)), record: Some(sample()) };
    assert_eq!(store.get(same, at(101)), PersistentState::default());
    assert!(!store.is_changed_on_disk(Some(at(100))));
    assert!(store.is_changed_on_disk(Some(Timestamp::new(100, 1))));
    assert!(!store.is_changed_on_disk(None));
    let newer = FileObservation { modified: Some(Timestamp::new(100, 1)), record: Some(sample()) };
    assert_eq!(store.get(newer, at(200)), sample());
    assert!(!store.is_changed_on_disk(Some(at(150))));
    assert!(store.is_changed_on_disk(Some(at(201))));
}

#[test]
fn a_changed_file_that_cannot_be_read_gives_the_empty_record() {
    let mut store = PersistentStateGuard::load_from_yaml(Some(sample()), at(100));
    let broken = FileObservation { modified: Some(at(150)), record: None };
    assert_eq!(store.get(broken, at(160)), PersistentState::default());
}

#[test]
fn get_twice_returns_identical_snapshots() {
    let mut store = PersistentStateGuard::load_from_yaml(None, at(100));
    let first = store.get(
        FileObservation { modified: Some(at(500)), record: Some(sample()) },
        at(110),
    );
    let second = store.get(
        FileObservation { modified: Some(at(500)), record: Some(sample()) },
        at(120),
    );
    assert_eq!(first, second);
    assert_eq!(first, sample());
}

#[test]
fn identity_update_survives_a_restart() {
    let mut store = PersistentStateGuard::load_from_yaml(Some(sample()), at(100));
    let before = store.get(unchanged(100), at(101));
    let outcome = store.update(unchanged(100), at(102), Mutation::Identity);
    assert_eq!(outcome.record, before);
    let mut restarted = PersistentStateGuard::load_from_yaml(Some(outcome.record), at(200));
    assert_eq!(restarted.get(unchanged(102), at(201)), before);
}

#[test]
fn every_mutation_changes_its_own_field_only() {
    let mut store = PersistentStateGuard::load_from_yaml(Some(sample()), at(100));
    let speed = SpeedTest::new(Number::from_bits(1), Number::from_bits(2), Number::from_bits(3));
    let mut expected = sample();

    expected.is_wide_network_available = Some(false);
    let record = store.update(missing(), at(101), Mutation::SetWideNetworkAvailable(false)).record;
    assert_eq!(record, expected);

    expected.speedtest = Some(speed);
    expected.last_speedtest_check = Some(at(77));
    let record =
        store.update(missing(), at(102), Mutation::SetSpeedTest { result: speed, at: at(77) }).record;
    assert_eq!(record, expected);

    expected.balance = Some(Number::from_bits(9));
    let record = store.update(missing(), at(103), Mutation::SetBalance(Number::from_bits(9))).record;
    assert_eq!(record, expected);

    expected.last_tariff_update = Some(at(88));
    let record = store.update(missing(), at(104), Mutation::SetLastTariffUpdate(at(88))).record;
    assert_eq!(record, expected);

    expected.telegram_queue.push(message("2", "second", 20));
    let record =
        store.update(missing(), at(105), Mutation::Enqueue(message("2", "second", 20))).record;
    assert_eq!(record, expected);
    assert_eq!(store.get(missing(), at(106)), expected);
}

#[test]
fn drain_hands_out_the_queue_and_requeue_keeps_new_arrivals() {
    let mut store = PersistentStateGuard::load_from_yaml(Some(sample()), at(100));
    store.update(missing(), at(101), Mutation::Enqueue(message("2", "second", 20)));
    let drained = store.update(missing(), at(102), Mutation::DrainQueue);
    assert_eq!(drained.drained, vec![message("1", "hello", 10), message("2", "second", 20)]);
    assert!(drained.record.telegram_queue.is_empty());
    store.update(missing(), at(103), Mutation::Enqueue(message("3", "arrived meanwhile", 30)));
    let requeued =
        store.update(missing(), at(104), Mutation::Requeue(vec![message("2", "second", 20)]));
    assert_eq!(
        requeued.record.telegram_queue,
        vec![message("3", "arrived meanwhile", 30), message("2", "second", 20)]
    );
    assert!(requeued.drained.is_empty());
}

#[test]
fn updates_of_two_jobs_accumulate_in_the_order_of_the_calls() {
    let mut store = PersistentStateGuard::load_from_yaml(None, at(100));
    store.update(missing(), at(101), Mutation::SetBalance(Number::from_bits(5)));
    store.update(missing(), at(102), Mutation::SetWideNetworkAvailable(true));
    let last = store.update(missing(), at(103), Mutation::SetBalance(Number::from_bits(6)));
    let mut expected = PersistentState::default();
    expected.balance = Some(Number::from_bits(6));
    expected.is_wide_network_available = Some(true);
    assert_eq!(last.record, expected);
}

#[test]
fn update_applies_the_staleness_reload_before_the_mutation() {
    let mut store = PersistentStateGuard::load_from_yaml(None, at(100));
    let edited = FileObservation { modified: Some(at(150)), record: Some(sample()) };
    let outcome = store.update(edited, at(160), Mutation::SetBalance(Number::from_bits(1)));
    let mut expected = sample();
    expected.balance = Some(Number::from_bits(1));
    assert_eq!(outcome.record, expected);
}

#[test]
fn a_failed_write_is_an_io_failure_and_the_mutation_stands() {
    let mut store = PersistentStateGuard::load_from_yaml(Some(sample()), at(100));
    let outcome = store.update(missing(), at(101), Mutation::DrainQueue);
    assert_eq!(outcome.finish(false), Err(Error::IoFailure));
    assert!(store.get(missing(), at(102)).telegram_queue.is_empty());

    let mut store = PersistentStateGuard::load_from_yaml(Some(sample()), at(100));
    let outcome = store.update(missing(), at(101), Mutation::DrainQueue);
    assert_eq!(outcome.finish(true), Ok(vec![message("1", "hello", 10)]));
}

#[test]
fn a_snapshot_is_a_deep_copy() {
    let mut store = PersistentStateGuard::load_from_yaml(Some(sample()), at(100));
    let mut snapshot = store.get(missing(), at(101));
    snapshot.telegram_queue.clear();
    snapshot.balance = None;
    assert_eq!(store.get(missing(), at(102)), sample());
}
