//! Reconciliation of a provider: validation, site selection, probe, requeue
//! and status.

use grid_operator::duration::Duration;
use grid_operator::name_map::NameMap;
use grid_operator::phase::{phase_from_probe, validate_provider_config, ProbeOutcome, TlsFailureReason};
use grid_operator::probe::{
    begin_probe, error_policy, finish_probe, parse_probe_timeout, probe_url_for_provider,
    requeue_interval_for_provider, ProbeReply, DEFAULT_PROBE_TIMEOUT_SECS, REQUEUE_INTERVAL_SECS,
    TLS_REQUEUE_INTERVAL_SECS,
};
use grid_operator::resolve::{resolve_phase_and_sites, resolve_step, Answer, Resolution, ResolveState};
use grid_operator::resource::{
    AuthConfig, GridSite, HealthCheckConfig, InferenceProvider, InferenceProviderSpec, InferenceProviderStatus, MetricsConfig,
    ModelDiscoveryConfig, ModelDiscoverySource, ModelDiscoveryStatus, ModelInfo, ObjectMeta, ProviderPhase,
    SecretRef, SelectorConfig, TlsConfig,
};
use grid_operator::sites::{list_sites_for_network, sites_matching_selector};
use grid_operator::status::{inference_provider_status_needs_update, reconcile, update_status, StatusPatch};

// ---------------------------------------------------------------------------
// Test utilities
// ---------------------------------------------------------------------------

fn labels(pairs: &[(&str, &str)]) -> NameMap<String> {
    let mut map = NameMap::new();
    for (key, value) in pairs {
        map.insert((*key).to_owned(), (*value).to_owned());
    }
    map
}

fn meta(name: &str) -> ObjectMeta {
    ObjectMeta { name: Some(name.to_owned()), generation: None, resource_version: None, labels: None }
}

fn spec(network: &str, endpoint: &str, models: &[&str]) -> InferenceProviderSpec {
    InferenceProviderSpec {
        grid_network_ref: network.to_owned(),
        auth: None,
        endpoint: endpoint.to_owned(),
        health_check: None,
        models: models.iter().map(|name| ModelInfo { name: (*name).to_owned() }).collect(),
        model_discovery: None,
        metrics_config: None,
        site_selector: SelectorConfig { match_labels: NameMap::new() },
    }
}

fn test_provider(name: &str, network: &str, models: &[&str]) -> InferenceProvider {
    InferenceProvider {
        metadata: meta(name),
        spec: spec(network, "http://localhost:8000", models),
        status: None,
    }
}

fn test_provider_with_selector(name: &str, network: &str, selector: &[(&str, &str)]) -> InferenceProvider {
    let mut provider = test_provider(name, network, &["model"]);
    provider.spec.site_selector.match_labels = labels(selector);
    provider
}

fn test_site(name: &str, network: &str) -> GridSite {
    GridSite { metadata: meta(name), grid_network_ref: network.to_owned() }
}

fn test_site_with_labels(name: &str, network: &str, pairs: &[(&str, &str)]) -> GridSite {
    let mut site = test_site(name, network);
    site.metadata.labels = Some(labels(pairs));
    site
}

fn health_check(
    endpoint: Option<&str>,
    interval: Option<&str>,
    path: Option<&str>,
    timeout: Option<&str>,
) -> HealthCheckConfig {
    HealthCheckConfig {
        endpoint: endpoint.map(str::to_owned),
        interval: interval.map(str::to_owned),
        path: path.map(str::to_owned),
        timeout: timeout.map(str::to_owned),
        tls: None,
    }
}

fn tls() -> TlsConfig {
    TlsConfig {
        ca_secret_ref: SecretRef { name: "ca".to_owned(), namespace: "ns".to_owned() },
        client_certificate_secret_ref: None,
    }
}

fn make_spec(endpoint: &str, health_path: Option<&str>, timeout: Option<&str>) -> InferenceProviderSpec {
    let mut spec = spec("net", endpoint, &["model-a"]);
    if health_path.is_some() || timeout.is_some() {
        spec.health_check = Some(health_check(None, None, health_path, timeout));
    }
    spec
}

fn make_spec_with_health_check(
    endpoint: &str,
    health_path: Option<&str>,
    timeout: Option<&str>,
) -> InferenceProviderSpec {
    let mut spec = spec("net", endpoint, &["model-a"]);
    spec.health_check = Some(health_check(None, None, health_path, timeout));
    spec
}

fn make_spec_with_health_check_config(
    endpoint: &str,
    health_check: Option<HealthCheckConfig>,
) -> InferenceProviderSpec {
    let mut spec = spec("net", endpoint, &["model-a"]);
    spec.health_check = health_check;
    spec
}

fn discovery_config(interval_seconds: u32) -> ModelDiscoveryConfig {
    ModelDiscoveryConfig {
        source: ModelDiscoverySource::OpenAiModels,
        endpoint: None,
        interval_seconds,
        timeout_seconds: 5,
        tls: None,
    }
}

fn requeue_interval() -> Duration {
    Duration::from_secs(REQUEUE_INTERVAL_SECS)
}

fn tls_requeue_interval() -> Duration {
    Duration::from_secs(TLS_REQUEUE_INTERVAL_SECS)
}

fn default_probe_timeout() -> Duration {
    Duration::from_secs(DEFAULT_PROBE_TIMEOUT_SECS)
}

/// Probe a URL that would be answered with `reply`.
fn probe(url: &str, has_tls: bool, reply: ProbeReply) -> ProbeOutcome {
    match begin_probe(url, has_tls) {
        Some(outcome) => outcome,
        None => finish_probe(reply),
    }
}

/// Drive a resolution with the given answers.
fn resolve(provider: &InferenceProvider, answers: Vec<Answer>) -> ResolveState {
    let mut state = resolve_phase_and_sites(provider);
    for answer in answers {
        state = resolve_step(provider, state, answer);
    }
    state
}

fn resolution(provider: &InferenceProvider, answers: Vec<Answer>) -> Resolution {
    match resolve(provider, answers) {
        ResolveState::Done(resolution) => resolution,
        state => panic!("not resolved: {state:?}"),
    }
}

/// The answers up to the sites, where nothing is wrong.
fn accessible(sites: Vec<GridSite>) -> Vec<Answer> {
    vec![
        Answer::CredentialPlan(None),
        Answer::CredentialAccess(None),
        Answer::Network(true),
        Answer::Sites(sites),
    ]
}

// ---------------------------------------------------------------------------
// validate_provider_config
// ---------------------------------------------------------------------------

#[test]
fn blank_endpoint_maps_to_unavailable() {
    let mut provider = test_provider("prov", "net", &["model"]);
    provider.spec.endpoint = String::new();
    let err = validate_provider_config(&provider);
    assert!(err.is_some(), "blank endpoint must fail static validation");
    assert!(err.unwrap_or_default().contains("endpoint"), "error must mention endpoint");
}

#[test]
fn whitespace_only_endpoint_maps_to_unavailable() {
    let mut provider = test_provider("prov", "net", &["model"]);
    provider.spec.endpoint = "   ".to_owned();
    assert!(
        validate_provider_config(&provider).is_some(),
        "whitespace-only endpoint must fail validation"
    );
}

#[test]
fn blank_model_name_maps_to_unavailable() {
    let provider = test_provider("prov", "net", &[""]);
    let err = validate_provider_config(&provider);
    assert!(err.is_some(), "blank model name must fail static validation");
    assert!(err.unwrap_or_default().contains("model"), "error must mention model");
}

#[test]
fn second_model_blank_maps_to_unavailable() {
    let provider = test_provider("prov", "net", &["model-ok", ""]);
    assert!(
        validate_provider_config(&provider).is_some(),
        "any blank model name must fail validation"
    );
}

#[test]
fn valid_config_passes_static_validation() {
    let provider = test_provider("prov", "net", &["model-a", "model-b"]);
    assert!(
        validate_provider_config(&provider).is_none(),
        "valid provider config must pass static validation"
    );
}

#[test]
fn blank_endpoint_comes_before_blank_model() {
    let mut provider = test_provider("prov", "net", &["\t"]);
    assert_eq!(validate_provider_config(&provider), Some("blank model name"));
    provider.spec.endpoint = "\u{2003}\n".to_owned();
    assert_eq!(validate_provider_config(&provider), Some("blank endpoint"));
    provider.spec.models.clear();
    provider.spec.endpoint = " x ".to_owned();
    assert_eq!(validate_provider_config(&provider), None);
}

#[test]
fn static_config_failure_precedes_probe_result() {
    let mut provider = test_provider("bad", "net", &["model"]);
    provider.spec.endpoint = String::new();
    let config_error = validate_provider_config(&provider);
    assert!(
        config_error.is_some(),
        "blank endpoint must fail static validation before any probe result applies"
    );
    let resolved = resolution(&provider, vec![Answer::Probed(ProbeOutcome::Healthy)]);
    assert_eq!(resolved.phase, ProviderPhase::Unavailable);
}

#[test]
fn blank_endpoint_short_circuits_before_probe() {
    let mut provider = test_provider("bad", "net", &["model"]);
    provider.spec.endpoint = String::new();
    provider.spec.health_check = Some(health_check(None, None, Some("/health"), None));
    let err = validate_provider_config(&provider);
    assert!(err.is_some(), "blank endpoint must fail static validation before probe runs");
    assert_eq!(
        resolution(&provider, Vec::new()),
        Resolution { phase: ProviderPhase::Unavailable, matching_sites: Vec::new(), reason: None }
    );
}

// ---------------------------------------------------------------------------
// sites_matching_selector
// ---------------------------------------------------------------------------

#[test]
fn empty_selector_matches_all_passed_sites() {
    let provider = test_provider("prov", "net", &["model"]);
    let sites = vec![test_site("site-a", "net"), test_site("site-b", "net")];
    let matching = sites_matching_selector(&provider, &sites);
    assert_eq!(
        matching,
        vec!["site-a", "site-b"],
        "empty selector must match all pre-filtered sites"
    );
}

#[test]
fn label_selector_matches_only_matching_labels() {
    let provider = test_provider_with_selector("prov", "net", &[("hw", "gpu")]);
    let sites = vec![
        test_site_with_labels("gpu-site", "net", &[("hw", "gpu")]),
        test_site_with_labels("cpu-site", "net", &[("hw", "cpu")]),
    ];
    let matching = sites_matching_selector(&provider, &sites);
    assert_eq!(matching, vec!["gpu-site"], "only gpu-site should match");
}

#[test]
fn matching_sites_are_sorted_deterministically() {
    let provider = test_provider("prov", "net", &["model"]);
    let sites = vec![
        test_site("zebra-site", "net"),
        test_site("alpha-site", "net"),
        test_site("mango-site", "net"),
    ];
    let matching = sites_matching_selector(&provider, &sites);
    assert_eq!(
        matching,
        vec!["alpha-site", "mango-site", "zebra-site"],
        "matching sites must be sorted alphabetically"
    );
}

#[test]
fn sites_from_other_network_match_empty_selector() {
    let provider = test_provider("prov", "net", &["model"]);
    let sites = vec![test_site("site-other", "other-net")];
    let matching = sites_matching_selector(&provider, &sites);
    assert_eq!(
        matching,
        vec!["site-other"],
        "empty selector matches any site; network filtering is the controller's responsibility"
    );
}

#[test]
fn no_matching_sites_returns_empty() {
    let provider = test_provider_with_selector("prov", "net", &[("hw", "gpu")]);
    let sites = vec![test_site_with_labels("cpu-site", "net", &[("hw", "cpu")])];
    let matching = sites_matching_selector(&provider, &sites);
    assert!(matching.is_empty(), "no matching sites should return empty");
}

#[test]
fn multi_key_selector_requires_all_keys_to_match() {
    let provider = test_provider_with_selector("prov", "net", &[("hw", "gpu"), ("region", "us-east")]);
    let both = test_site_with_labels(
        "full-match",
        "net",
        &[("hw", "gpu"), ("region", "us-east"), ("extra", "ignored")],
    );
    let partial = test_site_with_labels("partial", "net", &[("hw", "gpu")]);
    let sites = vec![both, partial];
    let matching = sites_matching_selector(&provider, &sites);
    assert_eq!(
        matching,
        vec!["full-match"],
        "multi-key selector requires ALL keys to match (AND semantics)"
    );
}

#[test]
fn site_with_extra_labels_still_matches() {
    let provider = test_provider_with_selector("prov", "net", &[("hw", "gpu")]);
    let site = test_site_with_labels("gpu-site", "net", &[("hw", "gpu"), ("zone", "us-east-1a")]);
    let matching = sites_matching_selector(&provider, &[site]);
    assert_eq!(matching, vec!["gpu-site"], "extra labels on site must not prevent matching");
}

#[test]
fn selector_wrong_value_does_not_match() {
    let provider = test_provider_with_selector("prov", "net", &[("hw", "gpu")]);
    let site = test_site_with_labels("site", "net", &[("hw", "cpu")]);
    let matching = sites_matching_selector(&provider, &[site]);
    assert!(matching.is_empty(), "wrong label value must not match the selector");
}

#[test]
fn selector_missing_key_does_not_match() {
    let provider = test_provider_with_selector("prov", "net", &[("hw", "gpu")]);
    let site = test_site_with_labels("site", "net", &[("zone", "us-east")]);
    let matching = sites_matching_selector(&provider, &[site]);
    assert!(matching.is_empty(), "missing selector key on site must not match");
}

#[test]
fn empty_selector_with_no_sites_returns_empty() {
    let mut provider = test_provider("p", "net", &[]);
    provider.spec.endpoint = "http://vllm:8000".to_owned();
    let matching = sites_matching_selector(&provider, &[]);
    assert!(
        matching.is_empty(),
        "passing an empty sites slice must return an empty result"
    );
}

#[test]
fn selector_needs_labels_and_sites_need_names() {
    let provider = test_provider_with_selector("prov", "net", &[("hw", "gpu")]);
    assert!(sites_matching_selector(&provider, &[test_site("bare", "net")]).is_empty());
    let mut nameless = test_site_with_labels("x", "net", &[("hw", "gpu")]);
    nameless.metadata.name = None;
    assert!(sites_matching_selector(&provider, &[nameless]).is_empty());
}

#[test]
fn matching_sites_keep_repeated_names_and_byte_order() {
    let provider = test_provider("prov", "net", &["model"]);
    let sites = vec![
        test_site("b", "net"),
        test_site("é", "net"),
        test_site("B", "net"),
        test_site("b", "net"),
        test_site("b1", "net"),
        test_site("", "net"),
    ];
    assert_eq!(
        sites_matching_selector(&provider, &sites),
        vec!["", "B", "b", "b", "b1", "é"]
    );
}

#[test]
fn matching_sites_do_not_depend_on_the_listing_order() {
    let provider = test_provider_with_selector("prov", "net", &[("hw", "gpu")]);
    let gpu = |name: &str| test_site_with_labels(name, "net", &[("hw", "gpu")]);
    let forwards = [gpu("c"), gpu("a"), test_site("x", "net"), gpu("b")];
    let backwards = [gpu("b"), test_site("x", "net"), gpu("a"), gpu("c")];
    assert_eq!(sites_matching_selector(&provider, &forwards), vec!["a", "b", "c"]);
    assert_eq!(sites_matching_selector(&provider, &backwards), vec!["a", "b", "c"]);
}

#[test]
fn only_sites_of_the_network_are_listed() {
    let all = vec![test_site("b", "net"), test_site("x", "other"), test_site("a", "net")];
    let listed = list_sites_for_network(all, "net");
    let names: Vec<Option<String>> = listed.into_iter().map(|site| site.metadata.name).collect();
    assert_eq!(names, vec![Some("b".to_owned()), Some("a".to_owned())]);
}

// ---------------------------------------------------------------------------
// parse_probe_timeout
// ---------------------------------------------------------------------------

#[test]
fn timeout_from_health_check_config() {
    let hc = health_check(None, None, None, Some("10s"));
    assert_eq!(
        parse_probe_timeout(Some(&hc)),
        Duration::from_secs(10),
        "must respect configured timeout"
    );
}

#[test]
fn timeout_defaults_when_absent() {
    assert_eq!(
        parse_probe_timeout(None),
        default_probe_timeout(),
        "absent health_check must use default timeout"
    );
}

#[test]
fn timeout_defaults_when_field_absent() {
    let hc = health_check(None, None, None, None);
    assert_eq!(
        parse_probe_timeout(Some(&hc)),
        default_probe_timeout(),
        "absent timeout field must use default"
    );
}

#[test]
fn timeout_defaults_on_unparseable_value() {
    let hc = health_check(None, None, None, Some("invalid"));
    assert_eq!(
        parse_probe_timeout(Some(&hc)),
        default_probe_timeout(),
        "unparseable timeout must fall back to default"
    );
}

#[test]
fn default_intervals_have_their_documented_lengths() {
    assert_eq!(requeue_interval(), Duration::from_secs(300));
    assert_eq!(tls_requeue_interval(), Duration::from_secs(60));
    assert_eq!(default_probe_timeout(), Duration::from_secs(5));
    assert_eq!(error_policy(), Duration::from_secs(30));
}

// ---------------------------------------------------------------------------
// requeue_interval_for_provider
// ---------------------------------------------------------------------------

#[test]
fn requeue_uses_default_when_no_health_check() {
    let spec = make_spec("http://vllm:8000", None, None);
    assert_eq!(
        requeue_interval_for_provider(&spec),
        requeue_interval(),
        "absent health_check must yield the default requeue interval (300s)"
    );
}

#[test]
fn requeue_uses_default_when_interval_field_absent() {
    let spec = make_spec_with_health_check("http://vllm:8000", None, None);
    assert_eq!(
        requeue_interval_for_provider(&spec),
        requeue_interval(),
        "health_check without interval must yield default requeue interval"
    );
}

#[test]
fn requeue_uses_configured_seconds_interval() {
    let hc = health_check(None, Some("30s"), None, None);
    let spec = make_spec_with_health_check_config("http://vllm:8000", Some(hc));
    assert_eq!(
        requeue_interval_for_provider(&spec),
        Duration::from_secs(30),
        "healthCheck.interval \"30s\" must requeue after 30 seconds"
    );
}

#[test]
fn requeue_uses_configured_milliseconds_interval() {
    let hc = health_check(None, Some("500ms"), None, None);
    let spec = make_spec_with_health_check_config("http://vllm:8000", Some(hc));
    assert_eq!(
        requeue_interval_for_provider(&spec),
        Duration::from_millis(500),
        "healthCheck.interval \"500ms\" must requeue after 500ms"
    );
}

#[test]
fn requeue_uses_default_for_invalid_interval_format() {
    let hc = health_check(None, Some("5m"), None, None);
    let spec = make_spec_with_health_check_config("http://vllm:8000", Some(hc));
    assert_eq!(
        requeue_interval_for_provider(&spec),
        requeue_interval(),
        "unparseable interval (\"5m\") must fall back to default 300s"
    );
}

#[test]
fn requeue_uses_default_for_bare_number_interval() {
    let hc = health_check(None, Some("30"), None, None);
    let spec = make_spec_with_health_check_config("http://vllm:8000", Some(hc));
    assert_eq!(
        requeue_interval_for_provider(&spec),
        requeue_interval(),
        "bare number without suffix (\"30\") must fall back to default"
    );
}

#[test]
fn requeue_interval_and_probe_timeout_are_independent() {
    let hc = health_check(None, Some("60s"), Some("/health"), Some("3s"));
    let spec = make_spec_with_health_check_config("http://vllm:8000", Some(hc));
    assert_eq!(
        requeue_interval_for_provider(&spec),
        Duration::from_secs(60),
        "requeue interval must use the interval field"
    );
    assert_eq!(
        parse_probe_timeout(spec.health_check.as_ref()),
        Duration::from_secs(3),
        "probe timeout must use the timeout field"
    );
}

#[test]
fn requeue_interval_does_not_use_timeout_field() {
    let hc = health_check(None, None, None, Some("10s"));
    let spec = make_spec_with_health_check_config("http://vllm:8000", Some(hc));
    assert_eq!(
        requeue_interval_for_provider(&spec),
        requeue_interval(),
        "timeout field must not affect the requeue interval"
    );
}

#[test]
fn requeue_uses_tls_interval_when_metrics_tls_configured() {
    let mut spec = spec("net", "https://vllm:8443", &["model"]);
    spec.metrics_config = Some(MetricsConfig { tls: Some(tls()) });
    assert_eq!(
        requeue_interval_for_provider(&spec),
        tls_requeue_interval(),
        "provider with metricsConfig.tls must use shorter TLS requeue interval"
    );
}

#[test]
fn requeue_interval_below_tls_bound_passes_through() {
    let mut spec = spec("net", "https://vllm:8443", &["model"]);
    spec.health_check = Some(health_check(None, Some("30s"), None, None));
    spec.metrics_config = Some(MetricsConfig { tls: Some(tls()) });
    assert_eq!(
        requeue_interval_for_provider(&spec),
        Duration::from_secs(30),
        "healthCheck.interval below TLS bound must pass through unchanged"
    );
}

#[test]
fn requeue_interval_above_tls_bound_is_capped() {
    let mut spec = spec("net", "https://vllm:8443", &["model"]);
    spec.health_check = Some(health_check(None, Some("120s"), None, None));
    spec.metrics_config = Some(MetricsConfig { tls: Some(tls()) });
    assert_eq!(
        requeue_interval_for_provider(&spec),
        tls_requeue_interval(),
        "healthCheck.interval exceeding TLS bound must be capped to 60s"
    );
}

#[test]
fn requeue_uses_tls_interval_for_health_check_tls() {
    let mut spec = spec("net", "https://vllm:8443", &["model"]);
    let mut hc = health_check(None, None, Some("/health"), None);
    hc.tls = Some(tls());
    spec.health_check = Some(hc);
    assert_eq!(
        requeue_interval_for_provider(&spec),
        tls_requeue_interval(),
        "provider with healthCheck.tls must use shorter TLS requeue interval"
    );
}

#[test]
fn requeue_interval_below_hc_tls_bound_passes_through() {
    let mut spec = spec("net", "https://vllm:8443", &["model"]);
    let mut hc = health_check(None, Some("30s"), Some("/health"), None);
    hc.tls = Some(tls());
    spec.health_check = Some(hc);
    assert_eq!(
        requeue_interval_for_provider(&spec),
        Duration::from_secs(30),
        "healthCheck.interval below TLS bound must pass through unchanged (healthCheck.tls)"
    );
}

#[test]
fn metrics_without_tls_do_not_shorten_the_requeue_interval() {
    let mut spec = spec("net", "https://vllm:8443", &["model"]);
    spec.metrics_config = Some(MetricsConfig { tls: None });
    spec.health_check = Some(health_check(None, Some("400s"), None, None));
    assert_eq!(requeue_interval_for_provider(&spec), Duration::from_secs(400));
}

#[test]
fn discovery_interval_does_not_change_health_requeue() {
    let mut spec = make_spec_with_health_check_config("http://backend:8000", None);
    spec.model_discovery = Some(discovery_config(20));
    assert_eq!(requeue_interval_for_provider(&spec), requeue_interval());
    if let Some(config) = spec.model_discovery.as_mut() {
        config.interval_seconds = 60;
    }
    assert_eq!(requeue_interval_for_provider(&spec), requeue_interval());
}

// ---------------------------------------------------------------------------
// probe_url_for_provider
// ---------------------------------------------------------------------------

#[test]
fn probe_url_absent_health_check_returns_none() {
    let spec = make_spec("http://vllm:8000", None, None);
    assert!(
        probe_url_for_provider(&spec).is_none(),
        "no health_check config must yield None (NotProbed)"
    );
}

#[test]
fn probe_url_uses_default_path() {
    let spec = make_spec_with_health_check("http://vllm:8000", None, None);
    assert_eq!(
        probe_url_for_provider(&spec).as_deref(),
        Some("http://vllm:8000/health"),
        "must append default /health when path is absent"
    );
}

#[test]
fn probe_url_uses_custom_path() {
    let spec = make_spec("http://vllm:8000", Some("/v1/models"), None);
    assert_eq!(
        probe_url_for_provider(&spec).as_deref(),
        Some("http://vllm:8000/v1/models"),
        "custom path must be used verbatim"
    );
}

#[test]
fn probe_url_adds_leading_slash_to_custom_path() {
    let spec = make_spec("http://vllm:8000", Some("ready"), None);
    assert_eq!(
        probe_url_for_provider(&spec).as_deref(),
        Some("http://vllm:8000/ready"),
        "custom path without leading slash must be normalized"
    );
}

#[test]
fn probe_url_strips_trailing_slash_from_endpoint() {
    let spec = make_spec("http://vllm:8000/", Some("/health"), None);
    assert_eq!(
        probe_url_for_provider(&spec).as_deref(),
        Some("http://vllm:8000/health"),
        "trailing slash on endpoint must be stripped before appending path"
    );
}

#[test]
fn probe_url_strips_every_trailing_slash() {
    let spec = make_spec("http://vllm:8000///", Some("/health/"), None);
    assert_eq!(
        probe_url_for_provider(&spec).as_deref(),
        Some("http://vllm:8000/health/")
    );
}

#[test]
fn probe_url_passes_https_through() {
    let spec = make_spec("https://api.example.com", Some("/health"), None);
    assert!(probe_url_for_provider(&spec).is_some(), "https URL is returned");
}

#[test]
fn probe_url_uses_health_check_endpoint_override() {
    let mut spec = spec("net", "http://backend:8080", &["model-a"]);
    spec.health_check = Some(health_check(Some("https://epp-service:9090"), None, Some("/healthz"), None));
    assert_eq!(
        probe_url_for_provider(&spec).as_deref(),
        Some("https://epp-service:9090/healthz"),
        "healthCheck.endpoint must override spec.endpoint"
    );
}

#[test]
fn probe_url_falls_back_to_spec_endpoint_when_override_absent() {
    let mut spec = spec("net", "http://backend:8080", &["model-a"]);
    spec.health_check = Some(health_check(None, None, Some("/healthz"), None));
    assert_eq!(
        probe_url_for_provider(&spec).as_deref(),
        Some("http://backend:8080/healthz"),
        "absent healthCheck.endpoint must fall back to spec.endpoint"
    );
}

#[test]
fn probe_url_blank_health_check_endpoint_passes_through() {
    let mut spec = spec("net", "http://backend:8080", &["model-a"]);
    spec.health_check = Some(health_check(Some("   "), None, Some("/health"), None));
    let url = probe_url_for_provider(&spec);
    assert!(
        url.is_some(),
        "blank healthCheck.endpoint must pass through (the probe will reject it)"
    );
    let outcome = probe(&url.unwrap_or_default(), false, ProbeReply::Status(200));
    assert_eq!(outcome, ProbeOutcome::Unavailable);
}

#[test]
fn probe_url_endpoint_override_strips_trailing_slash() {
    let mut spec = spec("net", "http://backend:8080", &["model-a"]);
    spec.health_check = Some(health_check(Some("https://epp:9090/"), None, Some("/healthz"), None));
    assert_eq!(
        probe_url_for_provider(&spec).as_deref(),
        Some("https://epp:9090/healthz"),
        "trailing slash on healthCheck.endpoint must be stripped"
    );
}

#[test]
fn no_health_check_config_means_not_probed() {
    let spec = make_spec("http://vllm:8000", None, None);
    assert!(
        probe_url_for_provider(&spec).is_none(),
        "absent health_check must yield NotProbed path"
    );
    let phase = phase_from_probe(ProbeOutcome::NotProbed, ProviderPhase::Available);
    assert_eq!(phase, ProviderPhase::Available, "NotProbed must preserve Available");
}

// ---------------------------------------------------------------------------
// The probe
// ---------------------------------------------------------------------------

#[test]
fn probe_http_200_yields_healthy() {
    let result = probe("http://127.0.0.1:8000", false, ProbeReply::Status(200));
    assert_eq!(result, ProbeOutcome::Healthy, "HTTP 200 response must yield Healthy");
}

#[test]
fn probe_http_204_yields_healthy() {
    let result = probe("http://127.0.0.1:8000", false, ProbeReply::Status(204));
    assert_eq!(result, ProbeOutcome::Healthy, "HTTP 204 response must yield Healthy");
}

#[test]
fn probe_http_500_yields_degraded() {
    let result = probe("http://127.0.0.1:8000", false, ProbeReply::Status(500));
    assert_eq!(result, ProbeOutcome::Degraded, "HTTP 500 response must yield Degraded");
}

#[test]
fn probe_http_503_yields_degraded() {
    let result = probe("http://127.0.0.1:8000", false, ProbeReply::Status(503));
    assert_eq!(result, ProbeOutcome::Degraded, "HTTP 503 must yield Degraded");
}

#[test]
fn probe_http_404_yields_degraded() {
    let result = probe("http://127.0.0.1:8000", false, ProbeReply::Status(404));
    assert_eq!(result, ProbeOutcome::Degraded, "HTTP 404 must yield Degraded");
}

#[test]
fn probe_http_301_yields_degraded() {
    let result = probe("http://127.0.0.1:8000", false, ProbeReply::Status(301));
    assert_eq!(result, ProbeOutcome::Degraded, "HTTP 301 (redirect) must yield Degraded");
}

#[test]
fn probe_unreachable_endpoint_yields_unavailable() {
    let result = probe("http://127.0.0.1:1", false, ProbeReply::TransportFailed);
    assert_eq!(result, ProbeOutcome::Unavailable, "connection refused must yield Unavailable");
}

#[test]
fn probe_https_tls_handshake_failure_yields_unavailable() {
    assert_eq!(begin_probe("https://127.0.0.1:8443", false), None, "HTTPS is attempted");
    let result = probe("https://127.0.0.1:8443", false, ProbeReply::TransportFailed);
    assert_eq!(
        result,
        ProbeOutcome::Unavailable,
        "TLS handshake failure must yield Unavailable"
    );
}

#[test]
fn probe_unsupported_scheme_ftp_yields_unavailable() {
    let result = probe("ftp://example.com/file", false, ProbeReply::Status(200));
    assert_eq!(result, ProbeOutcome::Unavailable, "ftp:// must yield Unavailable");
}

#[test]
fn probe_unsupported_scheme_file_yields_unavailable() {
    let result = probe("file:///etc/passwd", false, ProbeReply::Status(200));
    assert_eq!(result, ProbeOutcome::Unavailable, "file:// must yield Unavailable");
}

#[test]
fn probe_no_scheme_yields_unavailable() {
    let result = probe("/just/a/path", false, ProbeReply::Status(200));
    assert_eq!(result, ProbeOutcome::Unavailable, "no-scheme URL must yield Unavailable");
}

#[test]
fn probe_unparseable_url_yields_unavailable() {
    let result = probe("not-a-url", false, ProbeReply::Status(200));
    assert_eq!(result, ProbeOutcome::Unavailable, "unparseable URL must yield Unavailable");
}

#[test]
fn probe_timeout_yields_unavailable() {
    let result = probe("http://127.0.0.1:8000", false, ProbeReply::TimedOut);
    assert_eq!(result, ProbeOutcome::Unavailable, "timeout must yield Unavailable");
}

#[test]
fn probe_http_url_with_tls_config_yields_unavailable() {
    let result = probe("http://127.0.0.1:8000", true, ProbeReply::Status(200));
    assert_eq!(
        result,
        ProbeOutcome::Unavailable,
        "http:// URL with TLS config must yield Unavailable (fail-closed)"
    );
    assert_eq!(probe("https://127.0.0.1:8000", true, ProbeReply::Status(200)), ProbeOutcome::Healthy);
}

#[test]
fn probe_tls_with_matching_ca_yields_healthy() {
    let result = probe("https://localhost:8443", true, ProbeReply::Status(200));
    assert_eq!(
        result,
        ProbeOutcome::Healthy,
        "TLS probe with matching CA must yield Healthy"
    );
}

#[test]
fn probe_tls_with_wrong_ca_yields_unavailable() {
    let result = probe("https://localhost:8443", true, ProbeReply::TransportFailed);
    assert_eq!(
        result,
        ProbeOutcome::Unavailable,
        "TLS probe with wrong CA must yield Unavailable"
    );
}

#[test]
fn probe_http_two_sequential_probes_use_independent_state() {
    let r1 = probe("http://127.0.0.1:8001", false, ProbeReply::Status(200));
    let r2 = probe("http://127.0.0.1:8002", false, ProbeReply::Status(200));
    assert_eq!(r1, ProbeOutcome::Healthy, "first sequential probe must yield Healthy");
    assert_eq!(r2, ProbeOutcome::Healthy, "second sequential probe must yield Healthy");
}

#[test]
fn probe_http_then_https_failure_are_independent() {
    let plain_outcome = probe("http://127.0.0.1:8001", false, ProbeReply::Status(200));
    let tls_outcome = probe("https://127.0.0.1:8002", false, ProbeReply::TransportFailed);
    assert_eq!(plain_outcome, ProbeOutcome::Healthy, "HTTP probe must succeed independently");
    assert_eq!(
        tls_outcome,
        ProbeOutcome::Unavailable,
        "HTTPS TLS error must yield Unavailable independently"
    );
}

#[test]
fn probe_without_connector_or_request_yields_unavailable() {
    assert_eq!(finish_probe(ProbeReply::NoConnector), ProbeOutcome::Unavailable);
    assert_eq!(finish_probe(ProbeReply::NoRequest), ProbeOutcome::Unavailable);
}

#[test]
fn probe_scheme_is_read_in_any_case() {
    assert_eq!(begin_probe("HTTP://Example.com", false), None);
    assert_eq!(begin_probe("HttpS://Example.com", true), None);
    assert_eq!(begin_probe("", false), Some(ProbeOutcome::Unavailable));
    assert_eq!(begin_probe("http://", false), Some(ProbeOutcome::Unavailable));
}

// ---------------------------------------------------------------------------
// Resolution
// ---------------------------------------------------------------------------

fn provider_with_health_check_tls(network: &str) -> InferenceProvider {
    let mut provider = test_provider("prov", network, &["model"]);
    let mut hc = health_check(None, None, None, None);
    hc.tls = Some(tls());
    provider.spec.health_check = Some(hc);
    provider
}

#[test]
fn resolve_phase_and_sites_health_check_key_absent_from_existing_secret_yields_degraded_key_missing() {
    let provider = provider_with_health_check_tls("net-1");
    let mut answers = accessible(Vec::new());
    answers.push(Answer::HealthTls(Err(TlsFailureReason::KeyMissing)));
    let resolved = resolution(&provider, answers);
    assert_eq!(resolved.phase, ProviderPhase::Degraded);
    assert!(resolved.matching_sites.is_empty(), "no GridSites exist in this fixture");
    assert_eq!(resolved.reason.as_deref(), Some("HealthCheckTlsKeyMissing"));
}

#[test]
fn resolve_phase_and_sites_health_check_secret_absent_yields_degraded_secret_missing() {
    let provider = provider_with_health_check_tls("net-1");
    let mut answers = accessible(Vec::new());
    answers.push(Answer::HealthTls(Err(TlsFailureReason::SecretMissing)));
    let resolved = resolution(&provider, answers);
    assert_eq!(resolved.phase, ProviderPhase::Degraded);
    assert_eq!(resolved.reason.as_deref(), Some("HealthCheckTlsSecretMissing"));
}

#[test]
fn health_tls_failure_keeps_the_matching_sites() {
    let provider = provider_with_health_check_tls("net-1");
    let mut answers = accessible(vec![
        test_site("b", "net-1"),
        test_site("x", "net-2"),
        test_site("a", "net-1"),
    ]);
    answers.push(Answer::HealthTls(Err(TlsFailureReason::MaterialInvalid)));
    let resolved = resolution(&provider, answers);
    assert_eq!(resolved.matching_sites, vec!["a", "b"]);
    assert_eq!(resolved.reason.as_deref(), Some("HealthCheckTlsMaterialInvalid"));
}

#[test]
fn invalid_auth_precedes_network_and_sites() {
    let provider = test_provider("prov", "net", &["model"]);
    let resolved = resolution(
        &provider,
        vec![Answer::CredentialPlan(Some("UnsupportedStrategy".to_owned()))],
    );
    assert_eq!(
        resolved,
        Resolution {
            phase: ProviderPhase::Unavailable,
            matching_sites: Vec::new(),
            reason: Some("UnsupportedStrategy".to_owned()),
        }
    );
    let resolved = resolution(
        &provider,
        vec![
            Answer::CredentialPlan(None),
            Answer::CredentialAccess(Some("SecretNotFound".to_owned())),
        ],
    );
    assert_eq!(resolved.phase, ProviderPhase::Unavailable);
    assert_eq!(resolved.reason.as_deref(), Some("SecretNotFound"));
}

#[test]
fn missing_network_is_unavailable_without_a_reason() {
    let provider = test_provider("prov", "net", &["model"]);
    let resolved = resolution(
        &provider,
        vec![
            Answer::CredentialPlan(None),
            Answer::CredentialAccess(None),
            Answer::Network(false),
        ],
    );
    assert_eq!(resolved.phase, ProviderPhase::Unavailable);
    assert_eq!(resolved.reason, None);
}

#[test]
fn resolution_without_health_check_follows_the_sites() {
    let provider = test_provider("prov", "net", &["model"]);
    let resolved = resolution(&provider, accessible(vec![test_site("s", "net")]));
    assert_eq!(resolved.phase, ProviderPhase::Available);
    assert_eq!(resolved.matching_sites, vec!["s"]);
    let resolved = resolution(&provider, accessible(vec![test_site("s", "other")]));
    assert_eq!(resolved.phase, ProviderPhase::Pending);
    assert!(resolved.matching_sites.is_empty());
}

#[test]
fn resolution_asks_for_a_probe_of_the_right_url() {
    let mut provider = test_provider("prov", "net", &["model"]);
    provider.spec.health_check = Some(health_check(None, None, Some("ready"), Some("250ms")));
    let state = resolve(&provider, accessible(vec![test_site("s", "net")]));
    assert_eq!(
        state,
        ResolveState::Probe {
            matching: vec!["s".to_owned()],
            url: "http://localhost:8000/ready".to_owned(),
            timeout: Duration::from_millis(250),
            has_tls: false,
        }
    );
    let state = resolve_step(&provider, state, Answer::Probed(ProbeOutcome::Unavailable));
    assert_eq!(
        state,
        ResolveState::Done(Resolution {
            phase: ProviderPhase::Unavailable,
            matching_sites: vec!["s".to_owned()],
            reason: None,
        })
    );
}

#[test]
fn metrics_tls_matters_with_and_without_sites() {
    let mut provider = test_provider("prov", "net", &["model"]);
    provider.spec.metrics_config = Some(MetricsConfig { tls: Some(tls()) });
    for (sites, phase) in [
        (Vec::new(), ProviderPhase::Pending),
        (vec!["s"], ProviderPhase::Available),
    ] {
        let listed = || sites.iter().map(|name| test_site(name, "net")).collect::<Vec<GridSite>>();

        let mut answers = accessible(listed());
        answers.push(Answer::MetricsTls(Some("MetricsTlsKeyMissing".to_owned())));
        let resolved = resolution(&provider, answers);
        assert_eq!(resolved.phase, ProviderPhase::Degraded);
        assert_eq!(resolved.matching_sites, sites);
        assert_eq!(resolved.reason.as_deref(), Some("MetricsTlsKeyMissing"));

        let mut answers = accessible(listed());
        answers.push(Answer::MetricsTls(None));
        let resolved = resolution(&provider, answers);
        assert_eq!(resolved.phase, phase);
        assert_eq!(resolved.matching_sites, sites);
        assert_eq!(resolved.reason, None);

        let mut answers = accessible(listed());
        answers.push(Answer::ApiFailed);
        assert_eq!(resolve(&provider, answers), ResolveState::Failed);
    }
}

#[test]
fn metrics_tls_does_not_matter_after_an_impairing_probe() {
    let mut provider = test_provider("prov", "net", &["model"]);
    provider.spec.metrics_config = Some(MetricsConfig { tls: Some(tls()) });
    provider.spec.health_check = Some(health_check(None, None, None, None));
    for (outcome, phase) in [
        (ProbeOutcome::Degraded, ProviderPhase::Degraded),
        (ProbeOutcome::Unavailable, ProviderPhase::Unavailable),
    ] {
        let mut answers = accessible(vec![test_site("s", "net")]);
        answers.push(Answer::Probed(outcome));
        let resolved = resolution(&provider, answers);
        assert_eq!(resolved.phase, phase);
        assert_eq!(resolved.reason, None);
    }
    let mut answers = accessible(Vec::new());
    answers.push(Answer::Probed(ProbeOutcome::Healthy));
    answers.push(Answer::MetricsTls(Some("why".to_owned())));
    assert_eq!(resolution(&provider, answers).phase, ProviderPhase::Degraded);
}

#[test]
fn questions_are_about_their_own_part_of_the_spec() {
    let named = |name: &str| TlsConfig {
        ca_secret_ref: SecretRef { name: name.to_owned(), namespace: "ns".to_owned() },
        client_certificate_secret_ref: None,
    };
    let mut provider = test_provider("prov", "net-7", &["model"]);
    assert_eq!(provider.network_name(), "net-7");
    assert_eq!(provider.auth(), None);
    assert_eq!(provider.health_tls(), None);
    assert_eq!(provider.metrics_tls(), None);
    assert_eq!(provider.discovery_tls(), None);

    let auth = || AuthConfig { strategy: "bearer_token".to_owned(), secret_ref: None };
    provider.spec.auth = Some(auth());
    let mut hc = health_check(None, None, None, None);
    hc.tls = Some(named("health"));
    provider.spec.health_check = Some(hc);
    provider.spec.metrics_config = Some(MetricsConfig { tls: Some(named("metrics")) });
    let mut discovery = discovery_config(60);
    discovery.tls = Some(named("discovery"));
    provider.spec.model_discovery = Some(discovery);
    assert_eq!(provider.auth(), Some(&auth()));
    assert_eq!(provider.health_tls(), Some(&named("health")));
    assert_eq!(provider.metrics_tls(), Some(&named("metrics")));
    assert_eq!(provider.discovery_tls(), Some(&named("discovery")));
}

#[test]
fn loaded_tls_material_goes_with_the_probe() {
    let provider = provider_with_health_check_tls("net-1");
    for loaded in [true, false] {
        let mut answers = accessible(vec![test_site("s", "net-1")]);
        answers.push(Answer::HealthTls(Ok(loaded)));
        match resolve(&provider, answers) {
            ResolveState::Probe { url, has_tls, .. } => {
                assert_eq!(has_tls, loaded);
                let expected = if loaded { ProbeOutcome::Unavailable } else { ProbeOutcome::Healthy };
                assert_eq!(probe(&url, has_tls, ProbeReply::Status(200)), expected);
            }
            state => panic!("not probed: {state:?}"),
        }
    }
}

#[test]
fn api_failure_ends_the_resolution() {
    let provider = test_provider("prov", "net", &["model"]);
    let state = resolve(&provider, vec![Answer::CredentialPlan(None), Answer::ApiFailed]);
    assert_eq!(state, ResolveState::Failed);
    assert_eq!(resolve_step(&provider, state, Answer::Network(true)), ResolveState::Failed);
    let state = resolve(&provider, vec![Answer::ApiFailed]);
    assert_eq!(state, ResolveState::CredentialPlan, "the plan is made without the API server");
}

#[test]
fn resolved_provider_stays_resolved() {
    let provider = test_provider("prov", "net", &["model"]);
    let mut answers = accessible(vec![test_site("s", "net")]);
    answers.push(Answer::ApiFailed);
    answers.push(Answer::Probed(ProbeOutcome::Unavailable));
    answers.push(Answer::MetricsTls(Some("late".to_owned())));
    assert_eq!(
        resolution(&provider, answers),
        Resolution {
            phase: ProviderPhase::Available,
            matching_sites: vec!["s".to_owned()],
            reason: None,
        }
    );
}

#[test]
fn answers_to_other_questions_change_nothing() {
    let provider = test_provider("prov", "net", &["model"]);
    let state = resolve(&provider, vec![Answer::Probed(ProbeOutcome::Degraded), Answer::Network(false)]);
    assert_eq!(state, ResolveState::CredentialPlan);
}

// ---------------------------------------------------------------------------
// Status
// ---------------------------------------------------------------------------

fn discovery_status() -> ModelDiscoveryStatus {
    ModelDiscoveryStatus {
        models: vec!["model-a".to_owned()],
        observed_generation: 2,
        last_attempt_time: Some("2024-01-01T00:00:00Z".to_owned()),
        last_successful_time: None,
        last_failure_reason: None,
    }
}

fn baseline() -> InferenceProviderStatus {
    InferenceProviderStatus {
        matching_sites: vec!["site-a".to_owned()],
        observed_generation: 2,
        phase: ProviderPhase::Available,
        reason: None,
        model_discovery: None,
    }
}

#[test]
fn provider_status_update_is_skipped_when_semantically_unchanged() {
    let baseline = baseline();
    assert!(!inference_provider_status_needs_update(Some(&baseline), &baseline));
    let changed = InferenceProviderStatus { phase: ProviderPhase::Degraded, ..baseline.clone() };
    assert!(inference_provider_status_needs_update(Some(&baseline), &changed));
    assert!(inference_provider_status_needs_update(None, &baseline));
}

#[test]
fn every_field_of_the_status_counts() {
    let changes = [
        InferenceProviderStatus { matching_sites: Vec::new(), ..baseline() },
        InferenceProviderStatus { matching_sites: vec!["site-b".to_owned()], ..baseline() },
        InferenceProviderStatus { observed_generation: 3, ..baseline() },
        InferenceProviderStatus { reason: Some("r".to_owned()), ..baseline() },
        InferenceProviderStatus { model_discovery: Some(discovery_status()), ..baseline() },
    ];
    for changed in &changes {
        assert!(inference_provider_status_needs_update(Some(&baseline()), changed));
    }
}

#[test]
fn status_patch_clears_discovery_where_none_is_configured() {
    let mut provider = test_provider("prov", "net", &["model"]);
    provider.status = Some(InferenceProviderStatus { model_discovery: Some(discovery_status()), ..baseline() });
    let patch = update_status(&provider, ProviderPhase::Available, vec!["site-a".to_owned()], 2, None);
    assert_eq!(
        patch,
        Some(StatusPatch {
            matching_sites: vec!["site-a".to_owned()],
            observed_generation: 2,
            phase: ProviderPhase::Available,
            reason: None,
            clear_model_discovery: true,
        })
    );
    provider.spec.model_discovery = Some(discovery_config(60));
    let patch = update_status(&provider, ProviderPhase::Available, vec!["site-a".to_owned()], 2, None);
    assert_eq!(patch, None, "the discovery result is part of the desired status");
    let patch = update_status(&provider, ProviderPhase::Pending, Vec::new(), 2, Some("why".to_owned()));
    assert_eq!(
        patch,
        Some(StatusPatch {
            matching_sites: Vec::new(),
            observed_generation: 2,
            phase: ProviderPhase::Pending,
            reason: Some("why".to_owned()),
            clear_model_discovery: false,
        })
    );
}

#[test]
fn reconcile_writes_the_current_generation_and_requeues() {
    let mut provider = test_provider("prov", "net", &["model"]);
    provider.metadata.generation = Some(7);
    provider.spec.health_check = Some(health_check(None, Some("45s"), None, None));
    let resolved = Resolution { phase: ProviderPhase::Pending, matching_sites: Vec::new(), reason: None };
    let reconciled = reconcile(&provider, resolved);
    assert_eq!(reconciled.requeue_after, Duration::from_secs(45));
    assert_eq!(reconciled.patch.map(|patch| patch.observed_generation), Some(7));

    provider.metadata.generation = None;
    let resolved = Resolution { phase: ProviderPhase::Pending, matching_sites: Vec::new(), reason: None };
    assert_eq!(reconcile(&provider, resolved).patch.map(|patch| patch.observed_generation), Some(0));
}

#[test]
fn second_reconcile_of_the_same_resolution_writes_nothing() {
    let mut provider = test_provider("prov", "net", &["model"]);
    provider.metadata.generation = Some(2);
    provider.status = Some(baseline());
    let resolved = Resolution {
        phase: ProviderPhase::Available,
        matching_sites: vec!["site-a".to_owned()],
        reason: None,
    };
    assert_eq!(reconcile(&provider, resolved).patch, None);
}
