//! The discovery poller: what it watches, what it schedules and what it
//! records.

use grid_operator::clock::Moment;
use grid_operator::name_map::NameMap;
use grid_operator::poller::{
    attempt_is_recent, start_is_recent, ModelDiscoveryPoller, RunAction, RunEvent, WatchEvent,
};
use grid_operator::resource::{
    InferenceProvider, InferenceProviderSpec, InferenceProviderStatus, ModelDiscoveryConfig, ModelDiscoverySource,
    ModelDiscoveryStatus, ObjectMeta, ProviderPhase, SelectorConfig,
};

const SECOND: u128 = 1_000_000_000;

fn test_provider(name: &str) -> InferenceProvider {
    InferenceProvider {
        metadata: ObjectMeta {
            name: Some(name.to_owned()),
            generation: None,
            resource_version: None,
            labels: None,
        },
        spec: InferenceProviderSpec {
            grid_network_ref: "net".to_owned(),
            auth: None,
            endpoint: "http://localhost:8000".to_owned(),
            health_check: None,
            models: Vec::new(),
            model_discovery: None,
            metrics_config: None,
            site_selector: SelectorConfig { match_labels: NameMap::new() },
        },
        status: None,
    }
}

fn discovery_provider(name: &str) -> InferenceProvider {
    let mut provider = test_provider(name);
    provider.spec.model_discovery = Some(ModelDiscoveryConfig {
        source: ModelDiscoverySource::OpenAiModels,
        endpoint: None,
        interval_seconds: 60,
        timeout_seconds: 5,
        tls: None,
    });
    provider.metadata.generation = Some(3);
    provider
}

fn discovery_test_provider() -> InferenceProvider {
    discovery_provider("backend")
}

fn with_discovery(mut provider: InferenceProvider, discovery: ModelDiscoveryStatus) -> InferenceProvider {
    provider.status = Some(InferenceProviderStatus {
        matching_sites: Vec::new(),
        observed_generation: 3,
        phase: ProviderPhase::Available,
        reason: None,
        model_discovery: Some(discovery),
    });
    provider
}

fn set_attempt(provider: &mut InferenceProvider, time: &str) {
    if let Some(status) = provider.status.as_mut().and_then(|status| status.model_discovery.as_mut()) {
        status.last_attempt_time = Some(time.to_owned());
    }
}

fn at(utc_nanos: i128, monotonic_nanos: u128) -> Moment {
    Moment { utc_nanos, monotonic_nanos }
}

fn names(providers: &[InferenceProvider]) -> Vec<String> {
    providers.iter().filter_map(|provider| provider.metadata.name.clone()).collect()
}

// ---------------------------------------------------------------------------
// What a poll leaves in the status
// ---------------------------------------------------------------------------

#[test]
fn discovery_success_empty_and_failure_retention() {
    let first = ModelDiscoveryPoller::status_after_poll(None, 3, Ok(vec!["model-a".to_owned()]));
    assert_eq!(first.models, vec!["model-a"]);
    assert!(first.last_successful_time.is_some());
    assert!(first.last_failure_reason.is_none());

    let failed = ModelDiscoveryPoller::status_after_poll(Some(&first), 3, Err("HttpStatus"));
    assert_eq!(failed.models, first.models);
    assert_eq!(failed.last_successful_time, first.last_successful_time);
    assert_eq!(failed.last_failure_reason.as_deref(), Some("HttpStatus"));

    let empty = ModelDiscoveryPoller::status_after_poll(Some(&failed), 3, Ok(Vec::new()));
    assert!(empty.models.is_empty());
    assert!(empty.last_failure_reason.is_none());
    assert!(empty.last_successful_time.is_some());
}

#[test]
fn discovery_spec_change_invalidates_last_good_observation() {
    let previous = ModelDiscoveryPoller::status_after_poll(None, 3, Ok(vec!["old-model".to_owned()]));
    let next = ModelDiscoveryPoller::status_after_poll(Some(&previous), 4, Err("HttpStatus"));
    assert!(next.models.is_empty());
    assert!(next.last_successful_time.is_none());
    assert_eq!(next.observed_generation, 4);
}

#[test]
fn status_after_poll_at_given_times() {
    let time = |text: &str| Some(text.to_owned());
    let first = ModelDiscoveryPoller::status_after_poll_at(None, 1, Ok(vec!["m".to_owned()]), time("t1"), time("t2"));
    assert_eq!(
        first,
        ModelDiscoveryStatus {
            models: vec!["m".to_owned()],
            observed_generation: 1,
            last_attempt_time: time("t1"),
            last_successful_time: time("t2"),
            last_failure_reason: None,
        }
    );
    let second = ModelDiscoveryPoller::status_after_poll_at(Some(&first), 1, Err("Timeout"), time("t3"), time("t4"));
    assert_eq!(
        second,
        ModelDiscoveryStatus {
            last_attempt_time: time("t3"),
            last_failure_reason: Some("Timeout".to_owned()),
            ..first
        }
    );
}

#[test]
fn attempt_time_is_written_in_rfc_3339() {
    let status = ModelDiscoveryPoller::status_after_poll(None, 3, Err("Timeout"));
    let text = status.last_attempt_time.unwrap_or_default();
    assert!(text.ends_with('Z'), "{text}");
    assert_eq!(text.as_bytes().get(10), Some(&b'T'));
    let format = time::format_description::well_known::Rfc3339;
    let written = time::OffsetDateTime::parse(&text, &format).map(|time| time.year());
    assert!(written.is_ok_and(|year| year >= 2024));
}

#[test]
fn patch_names_the_polled_version_and_the_discovery_result_only() {
    let mut provider = discovery_test_provider();
    provider.metadata.resource_version = Some("42".to_owned());
    let patch = ModelDiscoveryPoller::poll_and_record_models(&provider, Err("Transport"));
    let patch = patch.unwrap_or_else(|| panic!("a patch is written"));
    assert_eq!(patch.name, "backend");
    assert_eq!(patch.resource_version.as_deref(), Some("42"));
    assert_eq!(patch.discovery.observed_generation, 3);
    assert_eq!(patch.discovery.last_failure_reason.as_deref(), Some("Transport"));

    provider.metadata.name = None;
    assert!(ModelDiscoveryPoller::poll_and_record_models(&provider, Err("Transport")).is_none());
    let unconfigured = test_provider("backend");
    assert!(ModelDiscoveryPoller::poll_and_record_models(&unconfigured, Ok(Vec::new())).is_none());
}

#[test]
fn patch_keeps_the_models_of_the_last_success() {
    let first = ModelDiscoveryPoller::status_after_poll(None, 3, Ok(vec!["model-a".to_owned()]));
    let provider = with_discovery(discovery_test_provider(), first);
    let patch = ModelDiscoveryPoller::poll_and_record_models(&provider, Err("Transport"));
    assert_eq!(patch.map(|patch| patch.discovery.models), Some(vec!["model-a".to_owned()]));
}

// ---------------------------------------------------------------------------
// When a provider is due
// ---------------------------------------------------------------------------

#[test]
fn discovery_status_watch_does_not_trigger_an_immediate_second_poll() {
    let poller = ModelDiscoveryPoller::new();
    let mut provider = with_discovery(
        discovery_test_provider(),
        ModelDiscoveryPoller::status_after_poll(None, 3, Err("HttpStatus")),
    );
    assert!(!poller.poll_due(&provider));
    provider.metadata.generation = Some(4);
    assert!(poller.poll_due(&provider));
    provider.metadata.generation = Some(3);
    set_attempt(&mut provider, "2020-01-01T00:00:00Z");
    assert!(poller.poll_due(&provider));
}

#[test]
fn discovery_poller_selects_only_due_providers() {
    let mut provider = test_provider("backend");
    let mut poller = ModelDiscoveryPoller::new();
    assert!(!poller.poll_due(&provider));
    provider = discovery_test_provider();
    assert!(poller.poll_due(&provider));
    poller.last_started.insert("backend".to_owned(), (3, 0));
    assert!(!poller.poll_due(&provider));
    provider = with_discovery(
        provider,
        ModelDiscoveryPoller::status_after_poll(None, 3, Ok(vec!["model-a".to_owned()])),
    );
    assert!(!poller.poll_due(&provider));
    provider.metadata.generation = Some(4);
    assert!(poller.poll_due(&provider));
}

#[test]
fn recorded_attempt_counts_until_the_interval_is_over() {
    let poller = ModelDiscoveryPoller::new();
    let mut provider = with_discovery(
        discovery_test_provider(),
        ModelDiscoveryPoller::status_after_poll(None, 3, Err("HttpStatus")),
    );
    set_attempt(&mut provider, "1970-01-01T00:01:40.5Z");
    let attempt: i128 = 100_500_000_000;
    let interval: i128 = 60_000_000_000;
    assert!(poller.poll_due_at(&provider, at(attempt, 0)), "an attempt right now does not count");
    assert!(!poller.poll_due_at(&provider, at(attempt + 1, 0)));
    assert!(!poller.poll_due_at(&provider, at(attempt + interval - 1, 0)));
    assert!(poller.poll_due_at(&provider, at(attempt + interval, 0)));
    assert!(poller.poll_due_at(&provider, at(attempt - 1, 0)), "an attempt in the future does not count");
    set_attempt(&mut provider, "1970-01-01T01:01:40.5+01:00");
    assert!(!poller.poll_due_at(&provider, at(attempt + 1, 0)));
    set_attempt(&mut provider, "yesterday");
    assert!(poller.poll_due_at(&provider, at(attempt + 1, 0)));
}

#[test]
fn recorded_start_counts_for_its_generation_until_the_interval_is_over() {
    let mut poller = ModelDiscoveryPoller::new();
    let mut provider = discovery_test_provider();
    poller.last_started.insert("backend".to_owned(), (3, 5 * SECOND));
    assert!(!poller.poll_due_at(&provider, at(0, 5 * SECOND)));
    assert!(!poller.poll_due_at(&provider, at(0, 0)));
    assert!(!poller.poll_due_at(&provider, at(0, 65 * SECOND - 1)));
    assert!(poller.poll_due_at(&provider, at(0, 65 * SECOND)));
    provider.metadata.generation = Some(2);
    assert!(poller.poll_due_at(&provider, at(0, 5 * SECOND)));
    provider.metadata.name = None;
    assert!(!poller.poll_due_at(&provider, at(0, 5 * SECOND)));
}

#[test]
fn due_check_takes_the_attempt_as_given() {
    let poller = ModelDiscoveryPoller::new();
    let provider = discovery_test_provider();
    assert!(poller.poll_due_given(&provider, None, at(0, 0)));
    assert!(!poller.poll_due_given(&provider, Some(-1), at(0, 0)));
    assert!(poller.poll_due_given(&provider, Some(0), at(0, 0)));
}

#[test]
fn recency_at_the_limits() {
    assert!(!attempt_is_recent(10, 10, 1));
    assert!(attempt_is_recent(10, 9, 1));
    assert!(!attempt_is_recent(10, 9, 0));
    assert!(attempt_is_recent(i128::MIN + 1, i128::MIN, u32::MAX));
    assert!(!attempt_is_recent(i128::MAX, i128::MIN, u32::MAX));
    assert!(start_is_recent(0, u128::MAX, 1));
    assert!(!start_is_recent(0, 0, 0));
    assert!(!start_is_recent(u128::MAX, 0, u32::MAX));
}

// ---------------------------------------------------------------------------
// What is watched
// ---------------------------------------------------------------------------

#[test]
fn discovery_poller_replaces_and_updates_watched_sources() {
    let mut poller = ModelDiscoveryPoller::new();
    poller.apply_watch_event(WatchEvent::Apply(test_provider("old")));
    assert!(poller.providers.contains_key("old"));
    poller.apply_watch_event(WatchEvent::Init);
    poller.apply_watch_event(WatchEvent::InitApply(test_provider("new")));
    poller.apply_watch_event(WatchEvent::InitDone);
    assert!(!poller.providers.contains_key("old"));
    assert!(poller.providers.contains_key("new"));
    poller.apply_watch_event(WatchEvent::Delete(test_provider("new")));
    assert!(poller.providers.is_empty());
}

#[test]
fn discovery_poller_waits_for_a_complete_snapshot_and_avoids_repeat_rounds() {
    let mut poller = ModelDiscoveryPoller::new();
    poller.apply_watch_event(WatchEvent::Init);
    poller.apply_watch_event(WatchEvent::InitApply(discovery_test_provider()));
    assert!(poller.take_due().is_empty());
    poller.apply_watch_event(WatchEvent::InitDone);
    assert_eq!(poller.take_due().len(), 1);
    assert!(poller.take_due().is_empty());
}

#[test]
fn complete_list_keeps_starts_of_its_providers_only() {
    let mut poller = ModelDiscoveryPoller::new();
    for name in ["a", "b"] {
        poller.apply_watch_event(WatchEvent::Apply(discovery_provider(name)));
    }
    assert_eq!(names(&poller.take_due_at(7, &[at(0, 7), at(0, 7)])), vec!["a", "b"]);
    poller.apply_watch_event(WatchEvent::Init);
    poller.apply_watch_event(WatchEvent::InitApply(discovery_provider("b")));
    assert!(poller.providers.contains_key("a"), "the snapshot stays until the list is complete");
    poller.apply_watch_event(WatchEvent::InitDone);
    assert_eq!(poller.last_started.get("a"), None);
    assert_eq!(poller.last_started.get("b"), Some(&(3, 7)));
    assert!(poller.initializing.is_none());
}

#[test]
fn stray_and_nameless_events_change_nothing() {
    let mut poller = ModelDiscoveryPoller::new();
    poller.apply_watch_event(WatchEvent::InitApply(test_provider("stray")));
    poller.apply_watch_event(WatchEvent::InitDone);
    let mut nameless = test_provider("x");
    nameless.metadata.name = None;
    poller.apply_watch_event(WatchEvent::Apply(nameless.clone()));
    poller.apply_watch_event(WatchEvent::Delete(nameless));
    assert!(poller.providers.is_empty());
    assert!(poller.initializing.is_none());
}

#[test]
fn deleted_provider_is_due_again_when_it_returns() {
    let mut poller = ModelDiscoveryPoller::new();
    poller.apply_watch_event(WatchEvent::Apply(discovery_test_provider()));
    assert_eq!(poller.take_due_at(0, &[at(0, 0)]).len(), 1);
    poller.apply_watch_event(WatchEvent::Delete(discovery_test_provider()));
    poller.apply_watch_event(WatchEvent::Apply(discovery_test_provider()));
    assert_eq!(poller.take_due_at(1, &[at(0, 1)]).len(), 1);
}

#[test]
fn rounds_go_by_name_and_start_each_provider_once_per_interval() {
    let mut poller = ModelDiscoveryPoller::new();
    for name in ["m", "z", "a"] {
        poller.apply_watch_event(WatchEvent::Apply(discovery_provider(name)));
    }
    poller.apply_watch_event(WatchEvent::Apply(test_provider("k")));
    let readings = |nanos: u128| vec![at(0, nanos); 4];
    let first = poller.take_due_at(SECOND, &readings(SECOND));
    assert_eq!(names(&first), vec!["a", "m", "z"]);
    assert!(first.iter().all(|provider| *provider == discovery_provider(provider.metadata.name.as_deref().unwrap_or(""))));
    assert!(poller.take_due_at(2 * SECOND, &readings(2 * SECOND)).is_empty());
    poller.apply_watch_event(WatchEvent::Apply(discovery_provider("b")));
    let mut later = readings(3 * SECOND);
    later.push(at(0, 3 * SECOND));
    assert_eq!(names(&poller.take_due_at(3 * SECOND, &later)), vec!["b"]);
    let mut much_later = readings(61 * SECOND);
    much_later.push(at(0, 61 * SECOND));
    assert_eq!(names(&poller.take_due_at(61 * SECOND, &much_later)), vec!["a", "m", "z"]);
}

#[test]
fn fan_out_is_at_least_one() {
    let mut poller = ModelDiscoveryPoller::new();
    assert_eq!(poller.fan_out(), 8);
    poller.concurrency = 0;
    assert_eq!(poller.fan_out(), 1);
    poller.concurrency = 3;
    assert_eq!(poller.fan_out(), 3);
}

#[test]
fn loop_polls_on_ticks_and_ends_on_shutdown_or_a_closed_watch() {
    let mut poller = ModelDiscoveryPoller::new();
    let change = WatchEvent::Apply(discovery_test_provider());
    assert!(matches!(poller.run(RunEvent::Watch(change)), RunAction::Wait));
    assert!(poller.providers.contains_key("backend"));
    assert!(matches!(poller.run(RunEvent::WatchFailed), RunAction::Wait));
    match poller.run(RunEvent::Tick) {
        RunAction::Poll { due, fan_out } => {
            assert_eq!(names(&due), vec!["backend"]);
            assert_eq!(fan_out, 8);
        }
        _ => panic!("a tick starts a round"),
    }
    match poller.run(RunEvent::Tick) {
        RunAction::Poll { due, .. } => assert!(due.is_empty()),
        _ => panic!("a tick starts a round"),
    }
    assert!(matches!(poller.run(RunEvent::Shutdown), RunAction::Stop));
    assert!(matches!(poller.run(RunEvent::WatchClosed), RunAction::Fail));
    assert!(poller.providers.contains_key("backend"));
}

// ---------------------------------------------------------------------------
// The map of names
// ---------------------------------------------------------------------------

#[test]
fn name_map_keeps_names_in_order() {
    let mut map: NameMap<u32> = NameMap::new();
    assert!(map.is_empty());
    for (value, name) in (0u32..).zip(["m", "a", "z", "é", "M", ""]) {
        map.insert(name.to_owned(), value);
    }
    map.insert("a".to_owned(), 7);
    assert_eq!(map.len(), 6);
    let keys: Vec<&str> = (0..map.len()).map(|i| map.key_at(i)).collect();
    assert_eq!(keys, vec!["", "M", "a", "m", "z", "é"]);
    assert_eq!(map.get("a"), Some(&7));
    assert_eq!(map.get("b"), None);
    map.remove("m");
    map.remove("absent");
    let mut other: NameMap<()> = NameMap::new();
    other.insert("z".to_owned(), ());
    other.insert("a".to_owned(), ());
    map.retain_keys_of(&other);
    let entries: Vec<(&str, u32)> = (0..map.len()).map(|i| (map.key_at(i), *map.value_at(i))).collect();
    assert_eq!(entries, vec![("a", 7), ("z", 2)]);
    assert_eq!(map.clone(), map);
}
