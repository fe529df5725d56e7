//! Model discovery: the model-list URL, response normalization and the course
//! of one poll.

use grid_operator::discovery::{
    accept_uri, models_url, parse_models, DiscoveryFailure, HttpUri, ModelEntry, ModelsResponse, MAX_MODELS,
    MAX_MODEL_ID_BYTES, MAX_RESPONSE_BYTES,
};
use grid_operator::name_map::NameMap;
use grid_operator::duration::Duration;
use grid_operator::poll::{begin_poll, poll_from_uri, poll_open_ai_models, poll_step, poll_timeout, PollAnswer, PollState};
use grid_operator::resource::{
    InferenceProvider, InferenceProviderSpec, ModelDiscoveryConfig, ModelDiscoverySource, ObjectMeta, SelectorConfig,
};
use grid_operator::uri::UriParts;

/// Decode a body as a model list.
fn decode(body: &[u8]) -> Option<ModelsResponse> {
    let value: serde_json::Value = serde_json::from_slice(body).ok()?;
    let mut data = Vec::new();
    for entry in value.get("data")?.as_array()? {
        data.push(ModelEntry { id: entry.get("id")?.as_str()?.to_owned() });
    }
    Some(ModelsResponse { data })
}

fn parse(body: &[u8]) -> Result<Vec<String>, DiscoveryFailure> {
    parse_models(body, decode(body))
}

fn listed(ids: &[&str]) -> Option<ModelsResponse> {
    Some(ModelsResponse { data: ids.iter().map(|id| ModelEntry { id: (*id).to_owned() }).collect() })
}

fn config(endpoint: Option<&str>) -> ModelDiscoveryConfig {
    ModelDiscoveryConfig {
        source: ModelDiscoverySource::OpenAiModels,
        endpoint: endpoint.map(str::to_owned),
        interval_seconds: 60,
        timeout_seconds: 5,
        tls: None,
    }
}

fn provider(endpoint: &str, model_discovery: Option<ModelDiscoveryConfig>) -> InferenceProvider {
    InferenceProvider {
        metadata: ObjectMeta {
            name: Some("backend".to_owned()),
            generation: Some(3),
            resource_version: None,
            labels: None,
        },
        spec: InferenceProviderSpec {
            grid_network_ref: "net".to_owned(),
            auth: None,
            endpoint: endpoint.to_owned(),
            health_check: None,
            models: Vec::new(),
            model_discovery,
            metrics_config: None,
            site_selector: SelectorConfig { match_labels: NameMap::new() },
        },
        status: None,
    }
}

/// Drive a poll with the given answers.
fn drive(mut state: PollState, answers: Vec<PollAnswer>) -> PollState {
    for answer in answers {
        state = poll_step(state, answer);
    }
    state
}

fn observed(state: PollState) -> Result<Vec<String>, &'static str> {
    match state {
        PollState::Done(observation) => observation,
        _ => panic!("the poll has not ended"),
    }
}

fn http_poll() -> PollState {
    poll_open_ai_models(&provider("http://backend:8000", Some(config(None))))
}

fn https_poll() -> PollState {
    poll_open_ai_models(&provider("https://backend:8443", Some(config(None))))
}

// ---------------------------------------------------------------------------
// parse_models
// ---------------------------------------------------------------------------

#[test]
fn parses_sorted_models_and_empty_success() {
    let models = parse(br#"{"data":[{"id":"z"},{"id":"a"}]}"#).unwrap_or_default();
    assert_eq!(models, vec!["a", "z"]);
    assert_eq!(parse(br#"{"data":[]}"#), Ok(Vec::new()));
}

#[test]
fn rejects_malformed_and_duplicate_models_without_clearing() {
    assert_eq!(
        parse(br#"{"data":[{"id":"a"},{"id":"a"}]}"#),
        Err(DiscoveryFailure::InvalidResponse)
    );
    assert_eq!(parse(br#"{"data":[{"id":" "}]}"#), Err(DiscoveryFailure::InvalidResponse));
    assert_eq!(parse(br#"{"wrong":[]}"#), Err(DiscoveryFailure::InvalidResponse));
    assert_eq!(parse(br#"{"data":null}"#), Err(DiscoveryFailure::InvalidResponse));
}

#[test]
fn rejects_untrimmed_and_empty_ids() {
    for id in ["", "\t", " a", "a ", "a\u{a0}"] {
        assert_eq!(parse_models(b"", listed(&["ok", id])), Err(DiscoveryFailure::InvalidResponse));
    }
    assert_eq!(parse_models(b"", listed(&["a b"])), Ok(vec!["a b".to_owned()]));
}

#[test]
fn duplicates_are_found_wherever_they_stand() {
    assert_eq!(
        parse_models(b"", listed(&["b", "a", "c", "b"])),
        Err(DiscoveryFailure::InvalidResponse)
    );
    assert_eq!(
        parse_models(b"", listed(&["b", "A", "a", "B"])),
        Ok(vec!["A".to_owned(), "B".to_owned(), "a".to_owned(), "b".to_owned()])
    );
}

#[test]
fn models_do_not_depend_on_the_response_order() {
    let expected = Ok(vec!["a".to_owned(), "b".to_owned(), "c".to_owned()]);
    assert_eq!(parse_models(b"", listed(&["c", "a", "b"])), expected);
    assert_eq!(parse_models(b"", listed(&["b", "c", "a"])), expected);
}

#[test]
fn id_length_is_bounded_in_bytes() {
    let longest = "x".repeat(MAX_MODEL_ID_BYTES);
    assert_eq!(parse_models(b"", listed(&[longest.as_str()])), Ok(vec![longest.clone()]));
    let longer = "x".repeat(MAX_MODEL_ID_BYTES + 1);
    assert_eq!(parse_models(b"", listed(&[longer.as_str()])), Err(DiscoveryFailure::InvalidResponse));
    let wide = "é".repeat(129);
    assert_eq!(parse_models(b"", listed(&[wide.as_str()])), Err(DiscoveryFailure::InvalidResponse));
}

#[test]
fn number_of_models_is_bounded() {
    let ids: Vec<String> = (0..=MAX_MODELS).map(|n| format!("m{n:03}")).collect();
    let all: Vec<&str> = ids.iter().map(String::as_str).collect();
    assert_eq!(parse_models(b"", listed(&all)), Err(DiscoveryFailure::TooLarge));
    assert_eq!(parse_models(b"", listed(&all[1..])).map(|models| models.len()), Ok(MAX_MODELS));
}

#[test]
fn body_size_is_bounded_before_its_content_matters() {
    assert_eq!(MAX_RESPONSE_BYTES, 128 * 1024);
    let body = vec![b' '; MAX_RESPONSE_BYTES + 1];
    assert_eq!(parse_models(&body, listed(&["a"])), Err(DiscoveryFailure::TooLarge));
    assert_eq!(parse_models(&body, None), Err(DiscoveryFailure::TooLarge));
    assert_eq!(parse_models(&body[1..], listed(&["a"])), Ok(vec!["a".to_owned()]));
}

#[test]
fn failure_reasons_are_stable() {
    let reasons = [
        (DiscoveryFailure::InvalidConfig, "InvalidConfig"),
        (DiscoveryFailure::Transport, "Transport"),
        (DiscoveryFailure::Timeout, "Timeout"),
        (DiscoveryFailure::HttpStatus, "HttpStatus"),
        (DiscoveryFailure::TooLarge, "TooLarge"),
        (DiscoveryFailure::InvalidResponse, "InvalidResponse"),
    ];
    for (failure, reason) in reasons {
        assert_eq!(failure.as_str(), reason);
    }
}

// ---------------------------------------------------------------------------
// models_url
// ---------------------------------------------------------------------------

#[test]
fn models_url_joins_base_and_path() {
    assert_eq!(
        models_url("http://backend:8000/", &config(None)),
        Ok(HttpUri { text: "http://backend:8000/v1/models".to_owned(), https: false })
    );
    assert_eq!(
        models_url("http://backend:8000", &config(Some("https://models:9000//"))),
        Ok(HttpUri { text: "https://models:9000/v1/models".to_owned(), https: true })
    );
}

#[test]
fn models_url_rejects_other_schemes_and_missing_authority() {
    for endpoint in ["ftp://backend", "", "   ", "backend:8000", "/relative", "http://", "http://a b"] {
        assert_eq!(
            models_url(endpoint, &config(None)),
            Err(DiscoveryFailure::InvalidConfig),
            "{endpoint:?}"
        );
    }
}

#[test]
fn uri_needs_scheme_and_authority() {
    let parts = |scheme: Option<&str>, has_authority: bool| {
        Some(UriParts { scheme: scheme.map(str::to_owned), has_authority })
    };
    let text = || "u".to_owned();
    assert_eq!(accept_uri(text(), parts(Some("http"), true)), Ok(HttpUri { text: text(), https: false }));
    assert_eq!(accept_uri(text(), parts(Some("https"), true)), Ok(HttpUri { text: text(), https: true }));
    for refused in [
        None,
        parts(None, true),
        parts(Some("http"), false),
        parts(Some("https"), false),
        parts(Some("ftp"), true),
        parts(Some("HTTP"), true),
    ] {
        assert_eq!(accept_uri(text(), refused), Err(DiscoveryFailure::InvalidConfig));
    }
}

// ---------------------------------------------------------------------------
// The course of a poll
// ---------------------------------------------------------------------------

#[test]
fn polls_each_endpoint_with_bearer_auth_and_reports_http_error() {
    let state = drive(
        http_poll(),
        vec![
            PollAnswer::Tls(Some(false)),
            PollAnswer::CredentialPlan(Some(true)),
            PollAnswer::Token(Some("secret".to_owned())),
            PollAnswer::Connector(true),
        ],
    );
    match &state {
        PollState::Response { url, authorization } => {
            assert_eq!(url, "http://backend:8000/v1/models");
            assert_eq!(authorization.as_deref(), Some(&b"Bearer secret"[..]));
        }
        _ => panic!("the request must be sent"),
    }
    let body = br#"{"data": [{"id": "model-a"}]}"#;
    let success = drive(
        state,
        vec![
            PollAnswer::Response(Some(200)),
            PollAnswer::Body(body.to_vec()),
            PollAnswer::Decoded(decode(body)),
        ],
    );
    assert_eq!(observed(success), Ok(vec!["model-a".to_owned()]));

    let state = drive(
        http_poll(),
        vec![
            PollAnswer::Tls(Some(false)),
            PollAnswer::CredentialPlan(Some(false)),
            PollAnswer::Connector(true),
        ],
    );
    match &state {
        PollState::Response { authorization, .. } => assert_eq!(*authorization, None),
        _ => panic!("the request must be sent"),
    }
    let failure = drive(state, vec![PollAnswer::Response(Some(503))]);
    assert_eq!(observed(failure), Err(DiscoveryFailure::HttpStatus.as_str()));
}

#[test]
fn poll_begins_with_its_time_limit() {
    let mut slow = config(None);
    slow.timeout_seconds = 7;
    assert_eq!(poll_timeout(&slow), Duration::from_secs(7));
    match begin_poll(&provider("http://backend:8000", Some(slow))) {
        Some(poll) => {
            assert_eq!(poll.timeout, Duration::from_secs(7));
            match poll.state {
                PollState::Tls { uri } => assert_eq!(uri.text, "http://backend:8000/v1/models"),
                _ => panic!("the TLS material is asked for first"),
            }
        }
        None => panic!("the provider is polled"),
    }
    match begin_poll(&provider("ftp://backend", Some(config(None)))) {
        Some(poll) => assert_eq!(observed(poll.state), Err("InvalidConfig")),
        None => panic!("an invalid URL is recorded"),
    }
}

#[test]
fn nameless_and_unconfigured_providers_are_not_polled() {
    assert!(begin_poll(&provider("http://backend:8000", None)).is_none());
    let mut nameless = provider("http://backend:8000", Some(config(None)));
    nameless.metadata.name = None;
    assert!(begin_poll(&nameless).is_none());
}

#[test]
fn poll_needs_a_valid_configuration() {
    let state = poll_open_ai_models(&provider("http://backend:8000", None));
    assert_eq!(observed(state), Err("InvalidConfig"));
    let state = poll_open_ai_models(&provider("ftp://backend:8000", Some(config(None))));
    assert_eq!(observed(state), Err("InvalidConfig"));
    assert_eq!(observed(poll_from_uri(Err(DiscoveryFailure::InvalidConfig))), Err("InvalidConfig"));
}

#[test]
fn poll_reports_missing_tls_material_and_credentials() {
    assert_eq!(observed(drive(http_poll(), vec![PollAnswer::Tls(None)])), Err("TlsUnavailable"));
    assert_eq!(
        observed(drive(http_poll(), vec![PollAnswer::Tls(Some(false)), PollAnswer::CredentialPlan(None)])),
        Err("CredentialUnavailable")
    );
    assert_eq!(
        observed(drive(
            http_poll(),
            vec![
                PollAnswer::Tls(Some(false)),
                PollAnswer::CredentialPlan(Some(true)),
                PollAnswer::Token(None)
            ]
        )),
        Err("CredentialUnavailable")
    );
}

#[test]
fn poll_uses_tls_material_with_https_only() {
    let answers = || vec![PollAnswer::Tls(Some(true)), PollAnswer::CredentialPlan(Some(false))];
    assert_eq!(observed(drive(http_poll(), answers())), Err("InvalidConfig"));
    assert!(matches!(
        drive(https_poll(), answers()),
        PollState::Connector { has_tls: true, token: None, .. }
    ));
}

#[test]
fn poll_fails_without_connector_or_request() {
    let ready = || drive(http_poll(), vec![PollAnswer::Tls(Some(false)), PollAnswer::CredentialPlan(Some(false))]);
    assert_eq!(observed(poll_step(ready(), PollAnswer::Connector(false))), Err("InvalidConfig"));
    assert_eq!(
        observed(drive(ready(), vec![PollAnswer::Connector(true), PollAnswer::RequestInvalid])),
        Err("InvalidConfig")
    );
}

#[test]
fn token_must_fit_into_a_header() {
    let with_token = |token: &str| {
        drive(
            http_poll(),
            vec![
                PollAnswer::Tls(Some(false)),
                PollAnswer::CredentialPlan(Some(true)),
                PollAnswer::Token(Some(token.to_owned())),
                PollAnswer::Connector(true),
            ],
        )
    };
    for token in ["line\nbreak", "nul\0", "del\u{7f}"] {
        assert_eq!(observed(with_token(token)), Err("InvalidConfig"));
    }
    match with_token("tab\té") {
        PollState::Response { authorization, .. } => {
            assert_eq!(authorization, Some("Bearer tab\té".as_bytes().to_vec()));
        }
        _ => panic!("the request must be sent"),
    }
}

#[test]
fn poll_reports_how_the_request_failed() {
    let sent = || {
        drive(
            http_poll(),
            vec![
                PollAnswer::Tls(Some(false)),
                PollAnswer::CredentialPlan(Some(false)),
                PollAnswer::Connector(true),
            ],
        )
    };
    assert_eq!(observed(poll_step(sent(), PollAnswer::Response(None))), Err("Transport"));
    assert_eq!(observed(poll_step(sent(), PollAnswer::Response(Some(300)))), Err("HttpStatus"));
    assert_eq!(observed(poll_step(sent(), PollAnswer::Response(Some(199)))), Err("HttpStatus"));
    let answered = || poll_step(sent(), PollAnswer::Response(Some(299)));
    assert_eq!(observed(poll_step(answered(), PollAnswer::BodyTooLarge)), Err("TooLarge"));
    assert_eq!(observed(poll_step(answered(), PollAnswer::BodyFailed)), Err("Transport"));
    assert_eq!(
        observed(poll_step(answered(), PollAnswer::Body(vec![0; MAX_RESPONSE_BYTES + 1]))),
        Err("TooLarge")
    );
    let read = || poll_step(answered(), PollAnswer::Body(b"{}".to_vec()));
    assert_eq!(observed(poll_step(read(), PollAnswer::Decoded(None))), Err("InvalidResponse"));
    assert_eq!(
        observed(poll_step(read(), PollAnswer::Decoded(listed(&["b", "a"])))),
        Ok(vec!["a".to_owned(), "b".to_owned()])
    );
}

#[test]
fn poll_times_out_wherever_it_is() {
    assert_eq!(observed(poll_step(http_poll(), PollAnswer::Elapsed)), Err("Timeout"));
    let state = drive(http_poll(), vec![PollAnswer::Tls(Some(false)), PollAnswer::Elapsed]);
    assert_eq!(observed(poll_step(state, PollAnswer::Connector(true))), Err("Timeout"));
    let done = poll_step(http_poll(), PollAnswer::Tls(None));
    assert_eq!(observed(poll_step(done, PollAnswer::Elapsed)), Err("TlsUnavailable"));
}

#[test]
fn token_does_not_show_in_the_result() {
    let result = |token: &str| {
        observed(drive(
            http_poll(),
            vec![
                PollAnswer::Tls(Some(false)),
                PollAnswer::CredentialPlan(Some(true)),
                PollAnswer::Token(Some(token.to_owned())),
                PollAnswer::Connector(true),
                PollAnswer::Response(Some(401)),
            ],
        ))
    };
    assert_eq!(result("one"), result("another"));
}
