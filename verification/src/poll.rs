//! One poll of a provider's model list, from its TLS material to its models.
//!
//! Each state of [`PollState`] but the last waits for one answer from outside.
//! The states and answers that carry a bearer token have no textual form, so
//! that it does not end up in a log.

use crate::discovery::{
    self, models_url, parse_models, DiscoveryFailure, HttpUri, ModelsResponse,
    MAX_RESPONSE_BYTES,
};
use crate::duration::Duration;
use crate::ordering;
use crate::phase;
use crate::resource::{self, InferenceProvider, ModelDiscoveryConfig, ModelDiscoverySource};
use crate::uri::{self, header_value};
use vstd::prelude::*;
use vstd::string::*;

verus! {

/// How far a poll has come.
pub enum PollState {
    /// Waits for the TLS material of the discovery endpoint, which
    /// [`InferenceProvider::discovery_tls`] refers to.
    Tls {
        /// URL of the model list.
        uri: HttpUri,
    },
    /// Waits for the credential plan of [`InferenceProvider::auth`].
    CredentialPlan {
        /// URL of the model list.
        uri: HttpUri,
        /// Whether there is custom TLS material.
        has_tls: bool,
    },
    /// Waits for the bearer token.
    Token {
        /// URL of the model list.
        uri: HttpUri,
        /// Whether there is custom TLS material.
        has_tls: bool,
    },
    /// Waits for a connector.
    Connector {
        /// URL of the model list.
        uri: HttpUri,
        /// Whether there is custom TLS material.
        has_tls: bool,
        /// Bearer token to send.
        token: Option<String>,
    },
    /// Waits for the response to a `GET` request.
    Response {
        /// URL of the request.
        url: String,
        /// Value of its `Authorization` header, if it has one.
        authorization: Option<Vec<u8>>,
    },
    /// Waits for the body of the response.
    Body,
    /// Waits for the body to be decoded as a model list.
    Decode {
        /// The body.
        body: Vec<u8>,
    },
    /// The poll has ended with the models in order, or with a reason.
    Done(Result<Vec<String>, &'static str>),
}

/// View of [`PollState`].
#[verifier::ext_equal]
pub enum PollStateView {
    Tls { uri: discovery::HttpUriView },
    CredentialPlan { uri: discovery::HttpUriView, has_tls: bool },
    Token { uri: discovery::HttpUriView, has_tls: bool },
    Connector { uri: discovery::HttpUriView, has_tls: bool, token: Option<Seq<char>> },
    Response { url: Seq<char>, authorization: Option<Seq<u8>> },
    Body,
    Decode { body: Seq<u8> },
    Done(Result<Seq<Seq<char>>, Seq<char>>),
}

/// The view of what a poll observed.
pub open spec fn observation_view(observation: Result<Vec<String>, &'static str>) -> Result<
    Seq<Seq<char>>,
    Seq<char>,
> {
    match observation {
        Ok(models) => Ok(ordering::texts(models@)),
        Err(reason) => Err(reason@),
    }
}

impl View for PollState {
    type V = PollStateView;

    open spec fn view(&self) -> PollStateView {
        match self {
            PollState::Tls { uri } => PollStateView::Tls { uri: uri@ },
            PollState::CredentialPlan { uri, has_tls } => PollStateView::CredentialPlan {
                uri: uri@,
                has_tls: *has_tls,
            },
            PollState::Token { uri, has_tls } => PollStateView::Token {
                uri: uri@,
                has_tls: *has_tls,
            },
            PollState::Connector { uri, has_tls, token } => PollStateView::Connector {
                uri: uri@,
                has_tls: *has_tls,
                token: resource::optional_text(*token),
            },
            PollState::Response { url, authorization } => PollStateView::Response {
                url: url@,
                authorization: match authorization {
                    Some(value) => Some(value@),
                    None => None,
                },
            },
            PollState::Body => PollStateView::Body,
            PollState::Decode { body } => PollStateView::Decode { body: body@ },
            PollState::Done(observation) => PollStateView::Done(observation_view(*observation)),
        }
    }
}

/// An answer from outside.
pub enum PollAnswer {
    /// Whether the configuration gives custom TLS material, or `None` where
    /// the material is unusable.
    Tls(Option<bool>),
    /// Whether `spec.auth` asks for a bearer token, or `None` where it is
    /// invalid.
    CredentialPlan(Option<bool>),
    /// The bearer token, or `None` where it cannot be read.
    Token(Option<String>),
    /// Whether a connector could be made.
    Connector(bool),
    /// The request could not be built.
    RequestInvalid,
    /// The status code of the response, or `None` where the request failed.
    Response(Option<u16>),
    /// The whole body of the response.
    Body(Vec<u8>),
    /// The body of the response exceeds the byte limit.
    BodyTooLarge,
    /// The body of the response could not be read.
    BodyFailed,
    /// The body decoded as a model list, or `None` where it is none.
    Decoded(Option<ModelsResponse>),
    /// The time for the poll is over.
    Elapsed,
}

/// View of [`PollAnswer`].
#[verifier::ext_equal]
pub enum PollAnswerView {
    Tls(Option<bool>),
    CredentialPlan(Option<bool>),
    Token(Option<Seq<char>>),
    Connector(bool),
    RequestInvalid,
    Response(Option<u16>),
    Body(Seq<u8>),
    BodyTooLarge,
    BodyFailed,
    Decoded(Option<Seq<Seq<char>>>),
    Elapsed,
}

impl View for PollAnswer {
    type V = PollAnswerView;

    open spec fn view(&self) -> PollAnswerView {
        match self {
            PollAnswer::Tls(custom) => PollAnswerView::Tls(*custom),
            PollAnswer::CredentialPlan(bearer) => PollAnswerView::CredentialPlan(*bearer),
            PollAnswer::Token(token) => PollAnswerView::Token(resource::optional_text(*token)),
            PollAnswer::Connector(made) => PollAnswerView::Connector(*made),
            PollAnswer::RequestInvalid => PollAnswerView::RequestInvalid,
            PollAnswer::Response(status) => PollAnswerView::Response(*status),
            PollAnswer::Body(body) => PollAnswerView::Body(body@),
            PollAnswer::BodyTooLarge => PollAnswerView::BodyTooLarge,
            PollAnswer::BodyFailed => PollAnswerView::BodyFailed,
            PollAnswer::Decoded(response) => PollAnswerView::Decoded(
                discovery::optional_response(*response),
            ),
            PollAnswer::Elapsed => PollAnswerView::Elapsed,
        }
    }
}

/// A poll that ended with a discovery failure.
pub open spec fn failed(failure: DiscoveryFailure) -> PollStateView {
    PollStateView::Done(Err(discovery::failure_reason(failure)))
}

/// The value of the `Authorization` header for a token.
pub open spec fn bearer_text(token: Seq<char>) -> Seq<char> {
    "Bearer "@ + token
}

/// The poll with the URL of the model list.
pub open spec fn poll_of_uri(
    uri: Result<discovery::HttpUriView, DiscoveryFailure>,
) -> PollStateView {
    match uri {
        Ok(uri) => PollStateView::Tls { uri },
        Err(failure) => failed(failure),
    }
}

/// The first question of a poll, or its end where the configuration is
/// invalid.
pub open spec fn first_poll(provider: resource::InferenceProviderView) -> PollStateView {
    match provider.spec.model_discovery {
        Some(config) => {
            let url = discovery::models_text(provider.spec.endpoint, config);
            poll_of_uri(discovery::accepted(url, uri::uri_in(url)))
        },
        None => failed(DiscoveryFailure::InvalidConfig),
    }
}

/// The poll once the credential is settled: custom TLS material is used with
/// `https` only.
pub open spec fn with_credential(
    uri: discovery::HttpUriView,
    has_tls: bool,
    token: Option<Seq<char>>,
) -> PollStateView {
    if has_tls && !uri.https {
        failed(DiscoveryFailure::InvalidConfig)
    } else {
        PollStateView::Connector { uri, has_tls, token }
    }
}

/// The poll once there is a connector.
pub open spec fn with_connector(
    uri: discovery::HttpUriView,
    token: Option<Seq<char>>,
) -> PollStateView {
    match token {
        None => PollStateView::Response { url: uri.text, authorization: None },
        Some(token) => if uri::is_header_text(bearer_text(token)) {
            PollStateView::Response {
                url: uri.text,
                authorization: Some(vstd::utf8::encode_utf8(bearer_text(token))),
            }
        } else {
            failed(DiscoveryFailure::InvalidConfig)
        },
    }
}

/// The state that an answer leads to. An answer to a question that was not
/// asked changes nothing.
pub open spec fn next_poll(state: PollStateView, answer: PollAnswerView) -> PollStateView {
    match (state, answer) {
        (PollStateView::Done(_), _) => state,
        (_, PollAnswerView::Elapsed) => failed(DiscoveryFailure::Timeout),
        (PollStateView::Tls { uri }, PollAnswerView::Tls(custom)) => match custom {
            Some(has_tls) => PollStateView::CredentialPlan { uri, has_tls },
            None => PollStateView::Done(Err("TlsUnavailable"@)),
        },
        (PollStateView::CredentialPlan { uri, has_tls }, PollAnswerView::CredentialPlan(
            bearer,
        )) => match bearer {
            Some(true) => PollStateView::Token { uri, has_tls },
            Some(false) => with_credential(uri, has_tls, None),
            None => PollStateView::Done(Err("CredentialUnavailable"@)),
        },
        (PollStateView::Token { uri, has_tls }, PollAnswerView::Token(token)) => match token {
            Some(token) => with_credential(uri, has_tls, Some(token)),
            None => PollStateView::Done(Err("CredentialUnavailable"@)),
        },
        (PollStateView::Connector { uri, token, .. }, PollAnswerView::Connector(made)) => if made {
            with_connector(uri, token)
        } else {
            failed(DiscoveryFailure::InvalidConfig)
        },
        (PollStateView::Response { .. }, PollAnswerView::RequestInvalid) => failed(
            DiscoveryFailure::InvalidConfig,
        ),
        (PollStateView::Response { .. }, PollAnswerView::Response(status)) => match status {
            Some(status) => if phase::is_success_status(status) {
                PollStateView::Body
            } else {
                failed(DiscoveryFailure::HttpStatus)
            },
            None => failed(DiscoveryFailure::Transport),
        },
        (PollStateView::Body, PollAnswerView::Body(body)) => if body.len() > MAX_RESPONSE_BYTES {
            failed(DiscoveryFailure::TooLarge)
        } else {
            PollStateView::Decode { body }
        },
        (PollStateView::Body, PollAnswerView::BodyTooLarge) => failed(DiscoveryFailure::TooLarge),
        (PollStateView::Body, PollAnswerView::BodyFailed) => failed(DiscoveryFailure::Transport),
        (PollStateView::Decode { body }, PollAnswerView::Decoded(ids)) => match discovery::listed_models(
            body.len(),
            ids,
        ) {
            Ok(models) => PollStateView::Done(Ok(models)),
            Err(failure) => failed(failure),
        },
        _ => state,
    }
}

fn done_failed(failure: DiscoveryFailure) -> (res: PollState)
    ensures
        res@ == failed(failure),
{
    PollState::Done(Err(failure.as_str()))
}

/// Begin a poll with the URL of the model list.
pub fn poll_from_uri(uri: Result<HttpUri, DiscoveryFailure>) -> (res: PollState)
    ensures
        res@ == poll_of_uri(discovery::accepted_view(uri)),
{
    match uri {
        Ok(uri) => PollState::Tls { uri },
        Err(failure) => done_failed(failure),
    }
}

/// Begin a poll of a provider's model list.
pub fn poll_open_ai_models(provider: &InferenceProvider) -> (res: PollState)
    ensures
        res@ == first_poll(provider@),
{
    match &provider.spec.model_discovery {
        Some(config) => {
            let uri = models_url(provider.spec.endpoint.as_str(), config);
            poll_from_uri(uri)
        },
        None => done_failed(DiscoveryFailure::InvalidConfig),
    }
}

/// The time after which a poll is given up.
pub fn poll_timeout(config: &ModelDiscoveryConfig) -> (res: Duration)
    ensures
        res@ == config.timeout_seconds * 1000,
{
    Duration::from_secs(config.timeout_seconds as u64)
}

/// A poll to make.
pub struct Poll {
    /// First state of the poll.
    pub state: PollState,
    /// Time after which the poll is given up.
    pub timeout: Duration,
}

/// Begin the poll of a provider with the configured source and time limit.
///
/// A provider that has no name or no discovery configured is not polled.
pub fn begin_poll(provider: &InferenceProvider) -> (res: Option<Poll>)
    ensures
        res is None <==> provider@.metadata.name is None || provider@.spec.model_discovery is None,
        res matches Some(poll) ==> {
            &&& poll.state@ == first_poll(provider@)
            &&& provider@.spec.model_discovery matches Some(config) && poll.timeout@
                == config.timeout_seconds * 1000
        },
{
    match (&provider.metadata.name, &provider.spec.model_discovery) {
        (Some(_), Some(config)) => {
            let state = match config.source {
                ModelDiscoverySource::OpenAiModels => poll_open_ai_models(provider),
            };
            Some(Poll { state, timeout: poll_timeout(config) })
        },
        _ => None,
    }
}

fn continue_with_credential(uri: HttpUri, has_tls: bool, token: Option<String>) -> (res: PollState)
    ensures
        res@ == with_credential(uri@, has_tls, resource::optional_text(token)),
{
    if has_tls && !uri.https {
        done_failed(DiscoveryFailure::InvalidConfig)
    } else {
        PollState::Connector { uri, has_tls, token }
    }
}

fn continue_with_connector(uri: HttpUri, token: Option<String>) -> (res: PollState)
    ensures
        res@ == with_connector(uri@, resource::optional_text(token)),
{
    match token {
        None => PollState::Response { url: uri.text, authorization: None },
        Some(token) => {
            let mut value = "Bearer ".to_owned();
            value.append(token.as_str());
            match header_value(value.as_str()) {
                Some(bytes) => PollState::Response { url: uri.text, authorization: Some(bytes) },
                None => done_failed(DiscoveryFailure::InvalidConfig),
            }
        },
    }
}

/// Go on with a poll after an answer from outside.
pub fn poll_step(state: PollState, answer: PollAnswer) -> (res: PollState)
    ensures
        res@ == next_poll(state@, answer@),
{
    match (state, answer) {
        (PollState::Done(observation), _) => PollState::Done(observation),
        (_, PollAnswer::Elapsed) => done_failed(DiscoveryFailure::Timeout),
        (PollState::Tls { uri }, PollAnswer::Tls(custom)) => match custom {
            Some(has_tls) => PollState::CredentialPlan { uri, has_tls },
            None => PollState::Done(Err("TlsUnavailable")),
        },
        (PollState::CredentialPlan { uri, has_tls }, PollAnswer::CredentialPlan(
            bearer,
        )) => match bearer {
            Some(true) => PollState::Token { uri, has_tls },
            Some(false) => continue_with_credential(uri, has_tls, None),
            None => PollState::Done(Err("CredentialUnavailable")),
        },
        (PollState::Token { uri, has_tls }, PollAnswer::Token(token)) => match token {
            Some(token) => continue_with_credential(uri, has_tls, Some(token)),
            None => PollState::Done(Err("CredentialUnavailable")),
        },
        (PollState::Connector { uri, token, .. }, PollAnswer::Connector(made)) => if made {
            continue_with_connector(uri, token)
        } else {
            done_failed(DiscoveryFailure::InvalidConfig)
        },
        (PollState::Response { .. }, PollAnswer::RequestInvalid) => done_failed(
            DiscoveryFailure::InvalidConfig,
        ),
        (PollState::Response { .. }, PollAnswer::Response(status)) => match status {
            Some(status) => if 200 <= status && status < 300 {
                PollState::Body
            } else {
                done_failed(DiscoveryFailure::HttpStatus)
            },
            None => done_failed(DiscoveryFailure::Transport),
        },
        (PollState::Body, PollAnswer::Body(body)) => if body.len() > MAX_RESPONSE_BYTES {
            done_failed(DiscoveryFailure::TooLarge)
        } else {
            PollState::Decode { body }
        },
        (PollState::Body, PollAnswer::BodyTooLarge) => done_failed(DiscoveryFailure::TooLarge),
        (PollState::Body, PollAnswer::BodyFailed) => done_failed(DiscoveryFailure::Transport),
        (PollState::Decode { body }, PollAnswer::Decoded(response)) => match parse_models(
            body.as_slice(),
            response,
        ) {
            Ok(models) => PollState::Done(Ok(models)),
            Err(failure) => done_failed(failure),
        },
        (state, _) => state,
    }
}

/// What the outside answers to each question of a poll, where the time for it
/// suffices.
pub struct PollOutside {
    /// Whether there is custom TLS material, or `None` where it is unusable.
    pub tls: Option<bool>,
    /// Whether a bearer token is asked for, or `None` where `spec.auth` is
    /// invalid.
    pub bearer: Option<bool>,
    /// The bearer token, or `None` where it cannot be read.
    pub token: Option<Seq<char>>,
    /// Whether a connector can be made.
    pub connector: bool,
    /// The status code of the response, or `None` where the request fails.
    pub response: Option<u16>,
    /// The body of the response, or why there is none.
    pub body: Result<Seq<u8>, BodyFailure>,
    /// The body decoded as a model list, or `None` where it is none.
    pub decoded: Option<Seq<Seq<char>>>,
}

/// Why the body of a response is missing.
pub enum BodyFailure {
    /// It exceeds the byte limit.
    TooLarge,
    /// It could not be read.
    Broken,
}

impl PollOutside {
    /// The answer to the question of a state.
    pub open spec fn answer(self, state: PollStateView) -> PollAnswerView {
        match state {
            PollStateView::Tls { .. } => PollAnswerView::Tls(self.tls),
            PollStateView::CredentialPlan { .. } => PollAnswerView::CredentialPlan(self.bearer),
            PollStateView::Token { .. } => PollAnswerView::Token(self.token),
            PollStateView::Connector { .. } => PollAnswerView::Connector(self.connector),
            PollStateView::Response { .. } => PollAnswerView::Response(self.response),
            PollStateView::Body => match self.body {
                Ok(body) => PollAnswerView::Body(body),
                Err(BodyFailure::TooLarge) => PollAnswerView::BodyTooLarge,
                Err(BodyFailure::Broken) => PollAnswerView::BodyFailed,
            },
            PollStateView::Decode { .. } => PollAnswerView::Decoded(self.decoded),
            PollStateView::Done(_) => PollAnswerView::Elapsed,
        }
    }

    /// The token that the request carries.
    pub open spec fn sent_token(self) -> Option<Seq<char>> {
        if self.bearer == Some(true) {
            self.token
        } else {
            None
        }
    }

    /// What a poll of a URL observes.
    pub open spec fn observation(
        self,
        uri: Result<discovery::HttpUriView, DiscoveryFailure>,
    ) -> Result<Seq<Seq<char>>, Seq<char>> {
        if uri is Err {
            Err(discovery::failure_reason(uri->Err_0))
        } else if self.tls is None {
            Err("TlsUnavailable"@)
        } else if self.bearer is None || self.bearer == Some(true) && self.token is None {
            Err("CredentialUnavailable"@)
        } else if self.tls == Some(true) && !uri->Ok_0.https || !self.connector || (
        self.sent_token() matches Some(token) && !uri::is_header_text(bearer_text(token))) {
            Err(discovery::failure_reason(DiscoveryFailure::InvalidConfig))
        } else if self.response is None {
            Err(discovery::failure_reason(DiscoveryFailure::Transport))
        } else if !phase::is_success_status(self.response->0) {
            Err(discovery::failure_reason(DiscoveryFailure::HttpStatus))
        } else {
            match self.body {
                Err(BodyFailure::TooLarge) => Err(
                    discovery::failure_reason(DiscoveryFailure::TooLarge),
                ),
                Err(BodyFailure::Broken) => Err(
                    discovery::failure_reason(DiscoveryFailure::Transport),
                ),
                Ok(body) => match discovery::listed_models(body.len(), self.decoded) {
                    Ok(models) => Ok(models),
                    Err(failure) => Err(discovery::failure_reason(failure)),
                },
            }
        }
    }
}

/// The state of a poll after `n` questions have been answered.
pub open spec fn poll_after(
    uri: Result<discovery::HttpUriView, DiscoveryFailure>,
    outside: PollOutside,
    n: nat,
) -> PollStateView
    decreases n,
{
    if n == 0 {
        poll_of_uri(uri)
    } else {
        let state = poll_after(uri, outside, (n - 1) as nat);
        next_poll(state, outside.answer(state))
    }
}

/// After at most seven answers a poll has observed what the outside gives, and
/// nothing changes that any more.
pub proof fn law_poll_ends_with_the_observation(
    uri: Result<discovery::HttpUriView, DiscoveryFailure>,
    outside: PollOutside,
    n: nat,
)
    requires
        n >= 7,
    ensures
        poll_after(uri, outside, n) == PollStateView::Done(outside.observation(uri)),
    decreases n,
{
    if n == 7 {
        reveal_with_fuel(poll_after, 8);
    } else {
        law_poll_ends_with_the_observation(uri, outside, (n - 1) as nat);
    }
}

/// A poll that has ended stays as it is, whatever is answered.
pub proof fn law_poll_end_is_final(state: PollStateView, answer: PollAnswerView)
    requires
        state is Done,
    ensures
        next_poll(state, answer) == state,
{
}

/// A poll that has not ended when its time is over fails with `Timeout`.
pub proof fn law_elapsed_poll_times_out(state: PollStateView)
    requires
        !(state is Done),
    ensures
        next_poll(state, PollAnswerView::Elapsed) == PollStateView::Done(Err("Timeout"@)),
{
}

/// Custom TLS material is never used with a URL that is not `https`.
pub proof fn law_tls_needs_https(state: PollStateView, answer: PollAnswerView)
    requires
        !(state is Connector),
    ensures
        next_poll(state, answer) matches PollStateView::Connector { uri, has_tls, .. } ==> has_tls
            ==> uri.https,
{
}

/// Models come out of a poll only where a complete, bounded response to a
/// successful request lists them.
pub proof fn law_models_come_from_a_valid_response(
    uri: Result<discovery::HttpUriView, DiscoveryFailure>,
    outside: PollOutside,
)
    ensures
        outside.observation(uri) matches Ok(models) ==> {
            &&& outside.response matches Some(status) && phase::is_success_status(status)
            &&& outside.body matches Ok(body) && body.len() <= MAX_RESPONSE_BYTES
            &&& outside.decoded matches Some(ids) && models == ordering::in_order(ids)
        },
{
}

/// A token that may stand in the `Authorization` header.
pub open spec fn is_sendable(token: Seq<char>) -> bool {
    uri::is_header_text(bearer_text(token))
}

/// Two states that differ in the bearer token only, where both tokens can be
/// sent or neither can.
pub open spec fn same_but_for_token(a: PollStateView, b: PollStateView) -> bool {
    match (a, b) {
        (
            PollStateView::Connector { uri, has_tls, token },
            PollStateView::Connector { uri: other_uri, has_tls: other_tls, token: other_token },
        ) => {
            &&& uri == other_uri
            &&& has_tls == other_tls
            &&& match (token, other_token) {
                (Some(token), Some(other_token)) => is_sendable(token) == is_sendable(other_token),
                (None, None) => true,
                _ => false,
            }
        },
        (
            PollStateView::Response { url, authorization },
            PollStateView::Response { url: other_url, authorization: other_authorization },
        ) => url == other_url && authorization is Some == other_authorization is Some,
        _ => a == b,
    }
}

/// The bearer token goes into the request and nowhere else: polls that differ
/// in it only go on to differ in it only, and so end with the same result.
pub proof fn law_token_stays_out_of_the_result(
    a: PollStateView,
    b: PollStateView,
    answer: PollAnswerView,
    token: Seq<char>,
    other_token: Seq<char>,
)
    requires
        same_but_for_token(a, b),
        is_sendable(token) == is_sendable(other_token),
    ensures
        same_but_for_token(next_poll(a, answer), next_poll(b, answer)),
        same_but_for_token(
            next_poll(a, PollAnswerView::Token(Some(token))),
            next_poll(b, PollAnswerView::Token(Some(other_token))),
        ),
        a is Done ==> a == b,
{
}

/// A request carries the token that was read for it, in full and whatever the
/// URL, and no other header value; without a token it carries none.
pub proof fn law_request_carries_the_token(
    uri: discovery::HttpUriView,
    has_tls: bool,
    token: Seq<char>,
)
    ensures
        uri::is_header_text("Bearer "@ + token) ==> next_poll(
            PollStateView::Connector { uri, has_tls, token: Some(token) },
            PollAnswerView::Connector(true),
        ) == (PollStateView::Response {
            url: uri.text,
            authorization: Some(vstd::utf8::encode_utf8("Bearer "@ + token)),
        }),
        next_poll(
            PollStateView::Connector { uri, has_tls, token: None },
            PollAnswerView::Connector(true),
        ) == (PollStateView::Response { url: uri.text, authorization: None }),
{
}

/// What a state may hold on the way to a request: the URL, the TLS material and
/// the token that the poll was given, and nothing else.
spec fn holds_given(
    state: PollStateView,
    given: discovery::HttpUriView,
    outside: PollOutside,
) -> bool {
    let token = if outside.bearer == Some(true) {
        outside.token
    } else {
        None
    };
    match state {
        PollStateView::Tls { uri } => uri == given,
        PollStateView::CredentialPlan { uri, has_tls } => uri == given && outside.tls == Some(
            has_tls,
        ),
        PollStateView::Token { uri, has_tls } => uri == given && outside.tls == Some(has_tls)
            && outside.bearer == Some(true),
        PollStateView::Connector { uri, has_tls, token: held } => uri == given && outside.tls
            == Some(has_tls) && held == token && outside.bearer is Some && (outside.bearer == Some(
            true,
        ) ==> outside.token is Some),
        PollStateView::Response { url, authorization } => url == given.text && outside.bearer is Some
            && (token is Some <==> outside.bearer == Some(true)) && match token {
            Some(token) => authorization == Some(vstd::utf8::encode_utf8("Bearer "@ + token)),
            None => authorization is None,
        },
        _ => true,
    }
}

/// In every course of a poll, the request goes to the URL of the model list. It
/// is authorized by the bearer token exactly if the credential plan asks for
/// one, which was then read, and is not authorized otherwise.
pub proof fn law_every_request_is_authorized_as_planned(
    uri: Result<discovery::HttpUriView, DiscoveryFailure>,
    outside: PollOutside,
    n: nat,
)
    ensures
        poll_after(uri, outside, n) matches PollStateView::Response { url, authorization } ==> {
            &&& uri matches Ok(given) && url == given.text
            &&& outside.bearer == Some(true) ==> (outside.token matches Some(token)
                && authorization == Some(vstd::utf8::encode_utf8("Bearer "@ + token)))
            &&& outside.bearer != Some(true) ==> authorization is None
        },
{
    match uri {
        Ok(given) => {
            lemma_given_is_held(given, outside, n);
        },
        Err(_) => {
            lemma_refused_uri_ends_the_poll(uri, outside, n);
        },
    }
}

proof fn lemma_given_is_held(given: discovery::HttpUriView, outside: PollOutside, n: nat)
    ensures
        holds_given(
            poll_after(Ok::<discovery::HttpUriView, DiscoveryFailure>(given), outside, n),
            given,
            outside,
        ),
    decreases n,
{
    if n > 0 {
        lemma_given_is_held(given, outside, (n - 1) as nat);
    }
}

proof fn lemma_refused_uri_ends_the_poll(
    uri: Result<discovery::HttpUriView, DiscoveryFailure>,
    outside: PollOutside,
    n: nat,
)
    requires
        uri is Err,
    ensures
        poll_after(uri, outside, n) is Done,
    decreases n,
{
    if n > 0 {
        lemma_refused_uri_ends_the_poll(uri, outside, (n - 1) as nat);
    }
}

impl PollOutside {
    /// A request can be sent: TLS material, credential and connector are there,
    /// custom material goes with `https`, and the token may stand in a header.
    pub open spec fn can_send(self, uri: discovery::HttpUriView) -> bool {
        &&& self.tls is Some
        &&& self.tls == Some(true) ==> uri.https
        &&& self.connector
        &&& self.bearer == Some(false) || self.bearer == Some(true) && (
        self.token matches Some(token) && uri::is_header_text("Bearer "@ + token))
    }
}

/// A poll that can send its request ends as the response says: with the models
/// of a successful, complete and valid response, and with the failure that
/// stands in the way of one otherwise.
pub proof fn law_poll_ends_as_the_response_says(
    uri: discovery::HttpUriView,
    outside: PollOutside,
    body: Seq<u8>,
    status: u16,
)
    requires
        outside.can_send(uri),
    ensures
        ({
            let seen = outside.observation(Ok::<discovery::HttpUriView, DiscoveryFailure>(uri));
            let answered = outside.response == Some(status) && 200 <= status <= 299;
            &&& outside.response is None ==> seen == Err::<Seq<Seq<char>>, Seq<char>>(
                "Transport"@,
            )
            &&& outside.response == Some(status) && !(200 <= status <= 299) ==> seen == Err::<
                Seq<Seq<char>>,
                Seq<char>,
            >("HttpStatus"@)
            &&& answered && outside.body == Err::<Seq<u8>, BodyFailure>(BodyFailure::TooLarge)
                ==> seen == Err::<Seq<Seq<char>>, Seq<char>>("TooLarge"@)
            &&& answered && outside.body == Err::<Seq<u8>, BodyFailure>(BodyFailure::Broken)
                ==> seen == Err::<Seq<Seq<char>>, Seq<char>>("Transport"@)
            &&& answered && outside.body == Ok::<Seq<u8>, BodyFailure>(body)
                ==> match discovery::listed_models(body.len(), outside.decoded) {
                Ok(models) => seen == Ok::<Seq<Seq<char>>, Seq<char>>(models),
                Err(failure) => seen == Err::<Seq<Seq<char>>, Seq<char>>(
                    discovery::failure_reason(failure),
                ),
            }
        }),
{
}

/// A poll that cannot send its request ends with what is missing: the TLS
/// material first, then the credential, then the rest of the configuration.
pub proof fn law_unsendable_poll_names_what_is_missing(
    uri: discovery::HttpUriView,
    outside: PollOutside,
)
    requires
        !outside.can_send(uri),
    ensures
        ({
            let seen = outside.observation(Ok::<discovery::HttpUriView, DiscoveryFailure>(uri));
            let credential = outside.bearer == Some(false) || outside.bearer == Some(true)
                && outside.token is Some;
            &&& outside.tls is None ==> seen == Err::<Seq<Seq<char>>, Seq<char>>(
                "TlsUnavailable"@,
            )
            &&& outside.tls is Some && !credential ==> seen == Err::<Seq<Seq<char>>, Seq<char>>(
                "CredentialUnavailable"@,
            )
            &&& outside.tls is Some && credential ==> seen == Err::<Seq<Seq<char>>, Seq<char>>(
                "InvalidConfig"@,
            )
        }),
{
    match outside.bearer {
        Some(true) => {},
        Some(false) => {},
        None => {},
    }
}

/// A poll begins with the URL of the model list where it is accepted, and ends
/// with an invalid configuration where it is not or where there is none.
pub proof fn law_poll_begins_with_the_models_url(
    provider: resource::InferenceProviderView,
    config: resource::ModelDiscoveryConfigView,
)
    ensures
        provider.spec.model_discovery is None ==> first_poll(provider) == PollStateView::Done(
            Err("InvalidConfig"@),
        ),
        provider.spec.model_discovery == Some(config) ==> ({
            let url = discovery::models_text(provider.spec.endpoint, config);
            match discovery::accepted(url, uri::uri_in(url)) {
                Ok(accepted) => first_poll(provider) == (PollStateView::Tls { uri: accepted })
                    && accepted.text == url,
                Err(_) => first_poll(provider) == PollStateView::Done(Err("InvalidConfig"@)),
            }
        }),
{
    let url = discovery::models_text(provider.spec.endpoint, config);
    discovery::law_http_urls_are_accepted(url, uri::uri_in(url));
}

/// Only the answer to the question of a state changes it, or the end of its
/// time.
pub proof fn law_unasked_poll_answers_change_nothing(state: PollStateView, answer: PollAnswerView)
    ensures
        next_poll(state, answer) != state ==> {
            ||| answer is Elapsed
            ||| state is Tls && answer is Tls
            ||| state is CredentialPlan && answer is CredentialPlan
            ||| state is Token && answer is Token
            ||| state is Connector && answer is Connector
            ||| state is Response && (answer is Response || answer is RequestInvalid)
            ||| state is Body && (answer is Body || answer is BodyTooLarge || answer is BodyFailed)
            ||| state is Decode && answer is Decoded
        },
        state is Response ==> next_poll(state, PollAnswerView::RequestInvalid)
            == PollStateView::Done(Err("InvalidConfig"@)),
{
}

/// The body that is decoded is the body that was read, and it is within its
/// bound.
pub proof fn law_body_is_decoded_as_read(state: PollStateView, answer: PollAnswerView)
    requires
        !(state is Decode),
    ensures
        next_poll(state, answer) matches PollStateView::Decode { body } ==> answer
            == PollAnswerView::Body(body) && body.len() <= 131072,
{
}

/// The view of a state shows what the state holds.
pub proof fn law_poll_state_is_shown_in_full(state: PollState)
    ensures
        match state {
            PollState::Tls { uri } => state@ == (PollStateView::Tls { uri: uri@ }),
            PollState::CredentialPlan { uri, has_tls } => state@
                == (PollStateView::CredentialPlan { uri: uri@, has_tls }),
            PollState::Token { uri, has_tls } => state@ == (PollStateView::Token {
                uri: uri@,
                has_tls,
            }),
            PollState::Connector { uri, has_tls, token } => {
                &&& state@ is Connector && state@->Connector_uri == uri@
                &&& state@->Connector_has_tls == has_tls
                &&& state@->Connector_token is Some <==> token is Some
                &&& token is Some ==> state@->Connector_token->0 == token->0@
            },
            PollState::Response { url, authorization } => {
                &&& state@ is Response && state@->url == url@
                &&& state@->authorization is Some <==> authorization is Some
                &&& authorization is Some ==> state@->authorization->0 == authorization->0@
            },
            PollState::Body => state@ is Body,
            PollState::Decode { body } => state@ == (PollStateView::Decode { body: body@ }),
            PollState::Done(Ok(models)) => {
                &&& state@ is Done && state@->0 is Ok
                &&& state@->0->Ok_0.len() == models@.len()
                &&& forall|i: int|
                    0 <= i < models@.len() ==> #[trigger] state@->0->Ok_0[i] == models@[i]@
            },
            PollState::Done(Err(reason)) => state@ == PollStateView::Done(Err(reason@)),
        },
{
}

} // verus!
