//! How the phase and the matching sites of a provider are found out.
//!
//! Static checks come first and end the matter where they fail. Then follow
//! the credential, the grid network, its sites, the TLS material of the health
//! check, the health probe, and the TLS material of the metrics endpoint. Each
//! of these is a question to the outside, and each state of [`ResolveState`]
//! but the last two waits for the answer to one. The TLS material of the metrics
//! endpoint is asked for where the probe has not impaired the provider.
//!
//! | Condition | Phase |
//! |-----------|-------|
//! | `spec.endpoint` is blank | `Unavailable` |
//! | Any `spec.models[].name` is blank | `Unavailable` |
//! | `spec.auth` is invalid or its Secret is inaccessible | `Unavailable` |
//! | `spec.gridNetworkRef` not found | `Unavailable` |
//! | Probe returns transport failure | `Unavailable` |
//! | Probe returns degraded response | `Degraded` |
//! | `healthCheck.tls` material unusable | `Degraded` |
//! | `metricsConfig.tls` material unusable | `Degraded` |
//! | Probe healthy or not run, no matching sites | `Pending` |
//! | Probe healthy or not run, at least one matching site | `Available` |

use crate::duration::Duration;
use crate::ordering;
use crate::phase::{
    self, phase_from_matching, phase_from_probe, validate_provider_config, ProbeOutcome,
    TlsFailureReason,
};
use crate::probe::{self, parse_probe_timeout, probe_url_for_provider, ProbeReply};
use crate::resource::{self, GridSite, InferenceProvider, ProviderPhase};
use crate::sites::{self, list_sites_for_network, sites_matching_selector};
use crate::uri;
use vstd::prelude::*;
use vstd::string::*;

verus! {

/// What was found out about a provider.
#[derive(Debug, PartialEq, Eq)]
pub struct Resolution {
    /// Phase of the provider.
    pub phase: ProviderPhase,
    /// Names of the sites that the provider serves, in order.
    pub matching_sites: Vec<String>,
    /// Why the provider is in its phase, where there is a reason to give.
    pub reason: Option<String>,
}

/// View of [`Resolution`].
#[verifier::ext_equal]
pub struct ResolutionView {
    pub phase: ProviderPhase,
    pub matching_sites: Seq<Seq<char>>,
    pub reason: Option<Seq<char>>,
}

impl View for Resolution {
    type V = ResolutionView;

    open spec fn view(&self) -> ResolutionView {
        ResolutionView {
            phase: self.phase,
            matching_sites: ordering::texts(self.matching_sites@),
            reason: resource::optional_text(self.reason),
        }
    }
}

/// How far the resolution of a provider has come.
#[derive(Debug, PartialEq, Eq)]
pub enum ResolveState {
    /// Waits for the credential plan of [`InferenceProvider::auth`].
    CredentialPlan,
    /// Waits for whether the planned credential is accessible.
    CredentialAccess,
    /// Waits for whether the grid network [`InferenceProvider::network_name`]
    /// exists.
    Network,
    /// Waits for the list of all sites.
    Sites,
    /// Waits for the TLS material of the health check, which
    /// [`InferenceProvider::health_tls`] refers to.
    HealthTls {
        /// Names of the matching sites, in order.
        matching: Vec<String>,
    },
    /// Waits for the outcome of a probe.
    Probe {
        /// Names of the matching sites, in order.
        matching: Vec<String>,
        /// URL to probe.
        url: String,
        /// Time after which the probe is given up.
        timeout: Duration,
        /// Whether TLS material goes with the probe.
        has_tls: bool,
    },
    /// Waits for the TLS material of the metrics endpoint, which
    /// [`InferenceProvider::metrics_tls`] refers to.
    MetricsTls {
        /// Names of the matching sites, in order.
        matching: Vec<String>,
    },
    /// The provider is resolved.
    Done(Resolution),
    /// The API server failed, and nothing is known of the provider.
    Failed,
}

/// View of [`ResolveState`].
#[verifier::ext_equal]
pub enum ResolveStateView {
    CredentialPlan,
    CredentialAccess,
    Network,
    Sites,
    HealthTls { matching: Seq<Seq<char>> },
    Probe { matching: Seq<Seq<char>>, url: Seq<char>, timeout: nat, has_tls: bool },
    MetricsTls { matching: Seq<Seq<char>> },
    Done(ResolutionView),
    Failed,
}

impl View for ResolveState {
    type V = ResolveStateView;

    open spec fn view(&self) -> ResolveStateView {
        match self {
            ResolveState::CredentialPlan => ResolveStateView::CredentialPlan,
            ResolveState::CredentialAccess => ResolveStateView::CredentialAccess,
            ResolveState::Network => ResolveStateView::Network,
            ResolveState::Sites => ResolveStateView::Sites,
            ResolveState::HealthTls { matching } => ResolveStateView::HealthTls {
                matching: ordering::texts(matching@),
            },
            ResolveState::Probe { matching, url, timeout, has_tls } => ResolveStateView::Probe {
                matching: ordering::texts(matching@),
                url: url@,
                timeout: timeout@,
                has_tls: *has_tls,
            },
            ResolveState::MetricsTls { matching } => ResolveStateView::MetricsTls {
                matching: ordering::texts(matching@),
            },
            ResolveState::Done(resolution) => ResolveStateView::Done(resolution@),
            ResolveState::Failed => ResolveStateView::Failed,
        }
    }
}

/// An answer from outside.
#[derive(Debug, PartialEq, Eq)]
pub enum Answer {
    /// `spec.auth` gives a plan, or is invalid for a reason.
    CredentialPlan(Option<String>),
    /// The planned credential is accessible, or is not for a reason.
    CredentialAccess(Option<String>),
    /// Whether the grid network exists.
    Network(bool),
    /// All sites.
    Sites(Vec<GridSite>),
    /// Whether TLS material was loaded for the health check, or the reason why
    /// it is unusable.
    HealthTls(Result<bool, TlsFailureReason>),
    /// The outcome of the probe.
    Probed(ProbeOutcome),
    /// The TLS material of the metrics endpoint is usable, or is not for a
    /// reason.
    MetricsTls(Option<String>),
    /// The API server failed to answer.
    ApiFailed,
}

/// View of [`Answer`].
#[verifier::ext_equal]
pub enum AnswerView {
    CredentialPlan(Option<Seq<char>>),
    CredentialAccess(Option<Seq<char>>),
    Network(bool),
    Sites(Seq<resource::GridSiteView>),
    HealthTls(Result<bool, TlsFailureReason>),
    Probed(ProbeOutcome),
    MetricsTls(Option<Seq<char>>),
    ApiFailed,
}

impl View for Answer {
    type V = AnswerView;

    open spec fn view(&self) -> AnswerView {
        match self {
            Answer::CredentialPlan(failure) => AnswerView::CredentialPlan(
                resource::optional_text(*failure),
            ),
            Answer::CredentialAccess(failure) => AnswerView::CredentialAccess(
                resource::optional_text(*failure),
            ),
            Answer::Network(found) => AnswerView::Network(*found),
            Answer::Sites(sites) => AnswerView::Sites(resource::site_views(sites@)),
            Answer::HealthTls(loaded) => AnswerView::HealthTls(*loaded),
            Answer::Probed(outcome) => AnswerView::Probed(*outcome),
            Answer::MetricsTls(failure) => AnswerView::MetricsTls(
                resource::optional_text(*failure),
            ),
            Answer::ApiFailed => AnswerView::ApiFailed,
        }
    }
}

/// An unusable provider: no site is listed for it.
pub open spec fn unavailable(reason: Option<Seq<char>>) -> ResolutionView {
    ResolutionView {
        phase: ProviderPhase::Unavailable,
        matching_sites: Seq::empty(),
        reason,
    }
}

/// A provider that keeps its sites but is degraded for a reason.
pub open spec fn degraded(matching: Seq<Seq<char>>, reason: Seq<char>) -> ResolutionView {
    ResolutionView {
        phase: ProviderPhase::Degraded,
        matching_sites: matching,
        reason: Some(reason),
    }
}

/// Whether a phase leaves room for the TLS material of the metrics endpoint to
/// matter: a probe has not impaired the provider.
pub open spec fn is_unimpaired(phase: ProviderPhase) -> bool {
    phase == ProviderPhase::Available || phase == ProviderPhase::Pending
}

/// What resolution comes to once the probe has an outcome.
pub open spec fn after_probe(
    spec: resource::InferenceProviderSpecView,
    matching: Seq<Seq<char>>,
    outcome: ProbeOutcome,
) -> ResolveStateView {
    let phase = phase::probed_phase(outcome, phase::site_phase(matching.len()));
    if is_unimpaired(phase) && spec.metrics_tls() is Some {
        ResolveStateView::MetricsTls { matching }
    } else {
        ResolveStateView::Done(ResolutionView { phase, matching_sites: matching, reason: None })
    }
}

/// What resolution comes to once the TLS material of the health check is
/// settled: `has_tls` tells whether there is any.
pub open spec fn after_health_tls(
    spec: resource::InferenceProviderSpecView,
    matching: Seq<Seq<char>>,
    has_tls: bool,
) -> ResolveStateView {
    match probe::probe_url(spec) {
        Some(url) => ResolveStateView::Probe {
            matching,
            url,
            timeout: probe::probe_timeout(spec.health_check),
            has_tls,
        },
        None => after_probe(spec, matching, ProbeOutcome::NotProbed),
    }
}

/// The first question of a resolution, or its end where static checks fail.
pub open spec fn first_state(provider: resource::InferenceProviderView) -> ResolveStateView {
    if phase::config_error(provider.spec) is Some {
        ResolveStateView::Done(unavailable(None))
    } else {
        ResolveStateView::CredentialPlan
    }
}

/// The state that an answer leads to. An answer to a question that was not
/// asked changes nothing.
pub open spec fn next_state(
    provider: resource::InferenceProviderView,
    state: ResolveStateView,
    answer: AnswerView,
) -> ResolveStateView {
    let spec = provider.spec;
    match (state, answer) {
        (ResolveStateView::CredentialPlan, AnswerView::CredentialPlan(failure)) => match failure {
            Some(reason) => ResolveStateView::Done(unavailable(Some(reason))),
            None => ResolveStateView::CredentialAccess,
        },
        (ResolveStateView::CredentialAccess, AnswerView::CredentialAccess(
            failure,
        )) => match failure {
            Some(reason) => ResolveStateView::Done(unavailable(Some(reason))),
            None => ResolveStateView::Network,
        },
        (ResolveStateView::Network, AnswerView::Network(found)) => if found {
            ResolveStateView::Sites
        } else {
            ResolveStateView::Done(unavailable(None))
        },
        (ResolveStateView::Sites, AnswerView::Sites(all)) => {
            let matching = sites::matching_names(
                sites::sites_of_network(all, spec.grid_network_ref),
                spec,
            );
            if spec.health_tls() is Some {
                ResolveStateView::HealthTls { matching }
            } else {
                after_health_tls(spec, matching, false)
            }
        },
        (ResolveStateView::HealthTls { matching }, AnswerView::HealthTls(loaded)) => match loaded {
            Err(reason) => ResolveStateView::Done(
                degraded(matching, "HealthCheck"@ + phase::tls_failure_name(reason)),
            ),
            Ok(has_tls) => after_health_tls(spec, matching, has_tls),
        },
        (ResolveStateView::Probe { matching, .. }, AnswerView::Probed(outcome)) => after_probe(
            spec,
            matching,
            outcome,
        ),
        (ResolveStateView::MetricsTls { matching }, AnswerView::MetricsTls(
            failure,
        )) => match failure {
            Some(reason) => ResolveStateView::Done(degraded(matching, reason)),
            None => ResolveStateView::Done(
                ResolutionView {
                    phase: phase::site_phase(matching.len()),
                    matching_sites: matching,
                    reason: None,
                },
            ),
        },
        (ResolveStateView::CredentialAccess, AnswerView::ApiFailed) => ResolveStateView::Failed,
        (ResolveStateView::Network, AnswerView::ApiFailed) => ResolveStateView::Failed,
        (ResolveStateView::Sites, AnswerView::ApiFailed) => ResolveStateView::Failed,
        (ResolveStateView::MetricsTls { .. }, AnswerView::ApiFailed) => ResolveStateView::Failed,
        _ => state,
    }
}

fn done_unavailable(reason: Option<String>) -> (res: ResolveState)
    ensures
        res@ == ResolveStateView::Done(unavailable(resource::optional_text(reason))),
{
    let matching_sites: Vec<String> = Vec::new();
    assert(ordering::texts(matching_sites@) =~= Seq::empty());
    ResolveState::Done(
        Resolution { phase: ProviderPhase::Unavailable, matching_sites, reason },
    )
}

fn continue_after_probe(
    provider: &InferenceProvider,
    matching: Vec<String>,
    outcome: ProbeOutcome,
) -> (res: ResolveState)
    ensures
        res@ == after_probe(provider@.spec, ordering::texts(matching@), outcome),
{
    let phase = phase_from_probe(outcome, phase_from_matching(matching.as_slice()));
    if (phase == ProviderPhase::Available || phase == ProviderPhase::Pending)
        && provider.metrics_tls().is_some() {
        ResolveState::MetricsTls { matching }
    } else {
        ResolveState::Done(Resolution { phase, matching_sites: matching, reason: None })
    }
}

fn continue_after_health_tls(
    provider: &InferenceProvider,
    matching: Vec<String>,
    has_tls: bool,
) -> (res: ResolveState)
    ensures
        res@ == after_health_tls(provider@.spec, ordering::texts(matching@), has_tls),
{
    match probe_url_for_provider(&provider.spec) {
        Some(url) => {
            let timeout = parse_probe_timeout(provider.spec.health_check.as_ref());
            ResolveState::Probe { matching, url, timeout, has_tls }
        },
        None => continue_after_probe(provider, matching, ProbeOutcome::NotProbed),
    }
}

/// Begin to determine the phase, the matching sites and the optional failure
/// reason of a provider.
pub fn resolve_phase_and_sites(provider: &InferenceProvider) -> (res: ResolveState)
    ensures
        res@ == first_state(provider@),
{
    if validate_provider_config(provider).is_some() {
        return done_unavailable(None);
    }
    ResolveState::CredentialPlan
}

/// Go on with the resolution of a provider after an answer from outside.
pub fn resolve_step(provider: &InferenceProvider, state: ResolveState, answer: Answer) -> (res:
    ResolveState)
    ensures
        res@ == next_state(provider@, state@, answer@),
{
    match (state, answer) {
        (ResolveState::CredentialPlan, Answer::CredentialPlan(failure)) => match failure {
            Some(reason) => done_unavailable(Some(reason)),
            None => ResolveState::CredentialAccess,
        },
        (ResolveState::CredentialAccess, Answer::CredentialAccess(failure)) => match failure {
            Some(reason) => done_unavailable(Some(reason)),
            None => ResolveState::Network,
        },
        (ResolveState::Network, Answer::Network(found)) => if found {
            ResolveState::Sites
        } else {
            done_unavailable(None)
        },
        (ResolveState::Sites, Answer::Sites(all)) => {
            let in_network = list_sites_for_network(all, provider.network_name());
            let matching = sites_matching_selector(provider, in_network.as_slice());
            if provider.health_tls().is_some() {
                ResolveState::HealthTls { matching }
            } else {
                continue_after_health_tls(provider, matching, false)
            }
        },
        (ResolveState::HealthTls { matching }, Answer::HealthTls(loaded)) => match loaded {
            Err(reason) => {
                let reason = reason.as_status_reason("HealthCheck");
                ResolveState::Done(
                    Resolution {
                        phase: ProviderPhase::Degraded,
                        matching_sites: matching,
                        reason: Some(reason),
                    },
                )
            },
            Ok(has_tls) => continue_after_health_tls(provider, matching, has_tls),
        },
        (ResolveState::Probe { matching, .. }, Answer::Probed(outcome)) => {
            continue_after_probe(provider, matching, outcome)
        },
        (ResolveState::MetricsTls { matching }, Answer::MetricsTls(failure)) => match failure {
            Some(reason) => ResolveState::Done(
                Resolution {
                    phase: ProviderPhase::Degraded,
                    matching_sites: matching,
                    reason: Some(reason),
                },
            ),
            None => {
                let phase = phase_from_matching(matching.as_slice());
                ResolveState::Done(Resolution { phase, matching_sites: matching, reason: None })
            },
        },
        (ResolveState::CredentialAccess, Answer::ApiFailed) => ResolveState::Failed,
        (ResolveState::Network, Answer::ApiFailed) => ResolveState::Failed,
        (ResolveState::Sites, Answer::ApiFailed) => ResolveState::Failed,
        (ResolveState::MetricsTls { .. }, Answer::ApiFailed) => ResolveState::Failed,
        (state, _) => state,
    }
}

/// What the outside answers to each question. `None` stands for a failure of
/// the API server where a question goes to it.
pub struct Outside {
    /// Why `spec.auth` is invalid, if it is.
    pub plan_failure: Option<Seq<char>>,
    /// Why the planned credential is inaccessible, if it is.
    pub access_failure: Option<Option<Seq<char>>>,
    /// Whether the grid network exists.
    pub network: Option<bool>,
    /// All sites.
    pub sites: Option<Seq<resource::GridSiteView>>,
    /// Whether TLS material can be loaded for the health check, or the reason
    /// why it is unusable.
    pub health_tls: Result<bool, TlsFailureReason>,
    /// The outcome of the probe.
    pub probe: ProbeOutcome,
    /// Why the TLS material of the metrics endpoint is unusable, if it is.
    pub metrics_tls_failure: Option<Option<Seq<char>>>,
}

impl Outside {
    /// The answer to the question of a state.
    pub open spec fn answer(self, state: ResolveStateView) -> AnswerView {
        match state {
            ResolveStateView::CredentialPlan => AnswerView::CredentialPlan(self.plan_failure),
            ResolveStateView::CredentialAccess => match self.access_failure {
                Some(failure) => AnswerView::CredentialAccess(failure),
                None => AnswerView::ApiFailed,
            },
            ResolveStateView::Network => match self.network {
                Some(found) => AnswerView::Network(found),
                None => AnswerView::ApiFailed,
            },
            ResolveStateView::Sites => match self.sites {
                Some(sites) => AnswerView::Sites(sites),
                None => AnswerView::ApiFailed,
            },
            ResolveStateView::HealthTls { .. } => AnswerView::HealthTls(self.health_tls),
            ResolveStateView::Probe { .. } => AnswerView::Probed(self.probe),
            ResolveStateView::MetricsTls { .. } => match self.metrics_tls_failure {
                Some(failure) => AnswerView::MetricsTls(failure),
                None => AnswerView::ApiFailed,
            },
            _ => AnswerView::ApiFailed,
        }
    }

    /// The sites that a provider matches.
    pub open spec fn matching(self, provider: resource::InferenceProviderView) -> Seq<Seq<char>> {
        match self.sites {
            Some(all) => sites::matching_names(
                sites::sites_of_network(all, provider.spec.grid_network_ref),
                provider.spec,
            ),
            None => Seq::empty(),
        }
    }

    /// The outcome of the probe, which is made only where a health check is
    /// configured.
    pub open spec fn outcome(self, provider: resource::InferenceProviderView) -> ProbeOutcome {
        if provider.spec.health_check is Some {
            self.probe
        } else {
            ProbeOutcome::NotProbed
        }
    }

    /// What becomes of a provider, or `None` where the API server fails at a
    /// question that is asked.
    pub open spec fn resolution(self, provider: resource::InferenceProviderView) -> Option<
        ResolutionView,
    > {
        let spec = provider.spec;
        let matching = self.matching(provider);
        let phase = phase::probed_phase(
            self.outcome(provider),
            phase::site_phase(matching.len()),
        );
        let resolved = ResolutionView { phase, matching_sites: matching, reason: None };
        if phase::config_error(spec) is Some {
            Some(unavailable(None))
        } else if self.plan_failure is Some {
            Some(unavailable(self.plan_failure))
        } else if self.access_failure is None {
            None
        } else if self.access_failure->0 is Some {
            Some(unavailable(self.access_failure->0))
        } else if self.network is None {
            None
        } else if !self.network->0 {
            Some(unavailable(None))
        } else if self.sites is None {
            None
        } else if spec.health_tls() is Some && self.health_tls is Err {
            Some(
                degraded(
                    matching,
                    "HealthCheck"@ + phase::tls_failure_name(self.health_tls->Err_0),
                ),
            )
        } else if !is_unimpaired(phase) || spec.metrics_tls() is None {
            Some(resolved)
        } else if self.metrics_tls_failure is None {
            None
        } else if self.metrics_tls_failure->0 is Some {
            Some(degraded(matching, self.metrics_tls_failure->0->0))
        } else {
            Some(resolved)
        }
    }
}

/// The state after `n` questions have been answered.
pub open spec fn state_after(
    provider: resource::InferenceProviderView,
    outside: Outside,
    n: nat,
) -> ResolveStateView
    decreases n,
{
    if n == 0 {
        first_state(provider)
    } else {
        let state = state_after(provider, outside, (n - 1) as nat);
        next_state(provider, state, outside.answer(state))
    }
}

/// After at most seven answers a provider is resolved as the table says, and
/// remains so.
pub proof fn law_resolution_follows_the_table(
    provider: resource::InferenceProviderView,
    outside: Outside,
    n: nat,
)
    requires
        n >= 7,
    ensures
        state_after(provider, outside, n) == match outside.resolution(provider) {
            Some(resolution) => ResolveStateView::Done(resolution),
            None => ResolveStateView::Failed,
        },
    decreases n,
{
    if n == 7 {
        reveal_with_fuel(state_after, 8);
    } else {
        law_resolution_follows_the_table(provider, outside, (n - 1) as nat);
    }
}

/// A resolution that has ended stays as it is, whatever is answered.
pub proof fn law_end_is_final(
    provider: resource::InferenceProviderView,
    state: ResolveStateView,
    answer: AnswerView,
)
    requires
        state is Done || state is Failed,
    ensures
        next_state(provider, state, answer) == state,
{
}

/// A provider whose static configuration is invalid is unavailable, whatever
/// the outside would answer: no probe outcome can rescue it.
pub proof fn law_static_failure_precedes_everything(
    provider: resource::InferenceProviderView,
    outside: Outside,
)
    requires
        phase::config_error(provider.spec) is Some,
    ensures
        first_state(provider) == ResolveStateView::Done(unavailable(None)),
        outside.resolution(provider) == Some(unavailable(None)),
{
}

/// Invalid authentication surfaces before the network, the sites and the probe
/// matter.
pub proof fn law_auth_failure_precedes_lookups(
    provider: resource::InferenceProviderView,
    outside: Outside,
)
    requires
        phase::config_error(provider.spec) is None,
        outside.plan_failure is Some || outside.access_failure matches Some(Some(_)),
    ensures
        outside.resolution(provider) matches Some(resolution) && resolution.phase
            == ProviderPhase::Unavailable && resolution.matching_sites.len() == 0
            && resolution.reason is Some,
{
}

/// A provider is available exactly if nothing is wrong with it and at least
/// one site matches.
pub proof fn law_available_means_everything_holds(
    provider: resource::InferenceProviderView,
    outside: Outside,
)
    ensures
        (outside.resolution(provider) matches Some(resolution) && resolution.phase
            == ProviderPhase::Available) <==> {
            &&& phase::config_error(provider.spec) is None
            &&& outside.plan_failure is None
            &&& outside.access_failure == Some(None::<Seq<char>>)
            &&& outside.network == Some(true)
            &&& outside.sites is Some
            &&& outside.matching(provider).len() >= 1
            &&& provider.spec.health_tls() is Some ==> outside.health_tls is Ok
            &&& outside.outcome(provider) == ProbeOutcome::Healthy || outside.outcome(provider)
                == ProbeOutcome::NotProbed
            &&& provider.spec.metrics_tls() is Some ==> outside.metrics_tls_failure == Some(
                None::<Seq<char>>,
            )
        },
{
}

/// An available or pending provider has no reason in its status. A provider is
/// pending only if it has no site, and available only if it has one.
pub proof fn law_reason_means_impaired(
    provider: resource::InferenceProviderView,
    outside: Outside,
)
    ensures
        outside.resolution(provider) matches Some(resolution) ==> {
            &&& resolution.reason is Some ==> resolution.phase == ProviderPhase::Unavailable
                || resolution.phase == ProviderPhase::Degraded
            &&& resolution.phase == ProviderPhase::Pending ==> resolution.matching_sites.len() == 0
            &&& resolution.phase == ProviderPhase::Available ==> resolution.matching_sites.len()
                >= 1
        },
{
}

/// The listed sites stand in order, in every phase.
pub proof fn law_listed_sites_are_ordered(
    provider: resource::InferenceProviderView,
    outside: Outside,
)
    ensures
        outside.resolution(provider) matches Some(resolution) ==> ordering::ordered(
            resolution.matching_sites,
        ),
{
    if let Some(all) = outside.sites {
        let in_network = sites::sites_of_network(all, provider.spec.grid_network_ref);
        ordering::lemma_in_order(
            sites::names_meeting(in_network, provider.spec.match_labels),
        );
    }
}

/// Unusable TLS material of the health check is reported with its own reason,
/// and the sites stay listed.
pub proof fn law_health_tls_failure_degrades(
    provider: resource::InferenceProviderView,
    outside: Outside,
    reason: TlsFailureReason,
)
    requires
        phase::config_error(provider.spec) is None,
        outside.plan_failure is None,
        outside.access_failure == Some(None::<Seq<char>>),
        outside.network == Some(true),
        outside.sites is Some,
        provider.spec.health_tls() is Some,
        outside.health_tls == Err::<bool, TlsFailureReason>(reason),
    ensures
        outside.resolution(provider) == Some(
            degraded(
                outside.matching(provider),
                "HealthCheck"@ + phase::tls_failure_name(reason),
            ),
        ),
{
}

/// Unusable TLS material of the metrics endpoint degrades a provider that the
/// probe has not impaired, whether a site matches or not. It is reported with
/// its own reason, and the sites stay listed.
pub proof fn law_metrics_tls_failure_degrades(
    provider: resource::InferenceProviderView,
    outside: Outside,
    reason: Seq<char>,
)
    requires
        phase::config_error(provider.spec) is None,
        outside.plan_failure is None,
        outside.access_failure == Some(None::<Seq<char>>),
        outside.network == Some(true),
        outside.sites is Some,
        provider.spec.health_tls() is Some ==> outside.health_tls is Ok,
        outside.outcome(provider) == ProbeOutcome::Healthy || outside.outcome(provider)
            == ProbeOutcome::NotProbed,
        provider.spec.metrics_tls() is Some,
        outside.metrics_tls_failure == Some(Some(reason)),
    ensures
        outside.resolution(provider) == Some(degraded(outside.matching(provider), reason)),
{
}

/// TLS material is asked for only where the provider refers to some, and a probe
/// only of the URL and with the timeout that its health check gives.
pub proof fn law_questions_have_a_subject(
    provider: resource::InferenceProviderView,
    state: ResolveStateView,
    answer: AnswerView,
)
    requires
        !(state is HealthTls),
        !(state is MetricsTls),
        !(state is Probe),
    ensures
        next_state(provider, state, answer) is HealthTls ==> provider.spec.health_tls() is Some,
        next_state(provider, state, answer) is MetricsTls ==> provider.spec.metrics_tls() is Some,
        next_state(provider, state, answer) matches ResolveStateView::Probe {
            url,
            timeout,
            ..
        } ==> probe::probe_url(provider.spec) == Some(url) && timeout == probe::probe_timeout(
            provider.spec.health_check,
        ),
{
}

/// TLS material of the health check goes with the probe exactly if it was
/// loaded.
pub proof fn law_probe_carries_loaded_tls(
    provider: resource::InferenceProviderView,
    state: ResolveStateView,
    answer: AnswerView,
)
    requires
        !(state is Probe),
    ensures
        next_state(provider, state, answer) matches ResolveStateView::Probe { has_tls, .. } ==> (
        has_tls <==> answer == AnswerView::HealthTls(Ok(true))),
{
}

/// A health check whose TLS material was loaded is never probed over anything
/// but `https`: the provider is unavailable then, whatever would have been
/// replied.
pub proof fn law_health_tls_needs_https(
    provider: resource::InferenceProviderView,
    outside: Outside,
    url: Seq<char>,
    reply: ProbeReply,
)
    requires
        phase::config_error(provider.spec) is None,
        outside.plan_failure is None,
        outside.access_failure == Some(None::<Seq<char>>),
        outside.network == Some(true),
        outside.sites is Some,
        provider.spec.health_tls() is Some,
        outside.health_tls == Ok::<bool, TlsFailureReason>(true),
        probe::probe_url(provider.spec) == Some(url),
        !(uri::uri_in(url) matches Some(parts) && parts.scheme == Some("https"@)),
        outside.probe == probe::probe_outcome(uri::uri_in(url), true, reply),
    ensures
        outside.resolution(provider) == Some(
            ResolutionView {
                phase: ProviderPhase::Unavailable,
                matching_sites: outside.matching(provider),
                reason: None,
            },
        ),
{
}

/// A credential failure is reported with the reason that was given for it, and
/// lists no site.
pub proof fn law_credential_failure_gives_its_reason(
    provider: resource::InferenceProviderView,
    outside: Outside,
    reason: Seq<char>,
)
    requires
        phase::config_error(provider.spec) is None,
        outside.plan_failure == Some(reason) || outside.plan_failure is None
            && outside.access_failure == Some(Some(reason)),
    ensures
        outside.resolution(provider) == Some(
            ResolutionView {
                phase: ProviderPhase::Unavailable,
                matching_sites: Seq::empty(),
                reason: Some(reason),
            },
        ),
{
}

/// A provider whose grid network is missing is unavailable without a reason,
/// and lists no site.
pub proof fn law_missing_network_is_unavailable(
    provider: resource::InferenceProviderView,
    outside: Outside,
)
    requires
        phase::config_error(provider.spec) is None,
        outside.plan_failure is None,
        outside.access_failure == Some(None::<Seq<char>>),
        outside.network == Some(false),
    ensures
        outside.resolution(provider) == Some(
            ResolutionView {
                phase: ProviderPhase::Unavailable,
                matching_sites: Seq::empty(),
                reason: None,
            },
        ),
{
}

impl Outside {
    /// Nothing stands against a provider up to its sites, and the TLS material
    /// of its health check is usable where it refers to some.
    pub open spec fn lets_through(self, provider: resource::InferenceProviderView) -> bool {
        &&& phase::config_error(provider.spec) is None
        &&& self.plan_failure is None
        &&& self.access_failure == Some(None::<Seq<char>>)
        &&& self.network == Some(true)
        &&& self.sites is Some
        &&& provider.spec.health_tls() is Some ==> self.health_tls is Ok
    }

    /// No probe impairs a provider: it has no health check, or its probe does
    /// not.
    pub open spec fn probes_well(self, provider: resource::InferenceProviderView) -> bool {
        provider.spec.health_check is None || self.probe == ProbeOutcome::Healthy || self.probe
            == ProbeOutcome::NotProbed
    }
}

/// A configured health check whose probe impairs the provider decides its
/// phase, whether a site matches or not and whatever the metrics material is.
/// The sites stay listed.
pub proof fn law_impairing_probe_decides(
    provider: resource::InferenceProviderView,
    outside: Outside,
)
    requires
        outside.lets_through(provider),
        provider.spec.health_check is Some,
    ensures
        outside.probe == ProbeOutcome::Degraded ==> outside.resolution(provider) == Some(
            ResolutionView {
                phase: ProviderPhase::Degraded,
                matching_sites: outside.matching(provider),
                reason: None,
            },
        ),
        outside.probe == ProbeOutcome::Unavailable ==> outside.resolution(provider) == Some(
            ResolutionView {
                phase: ProviderPhase::Unavailable,
                matching_sites: outside.matching(provider),
                reason: None,
            },
        ),
{
}

/// A provider that nothing stands against and no probe impairs follows its
/// sites: it is available with at least one and pending with none. Unusable
/// metrics material degrades it either way.
pub proof fn law_unimpaired_provider_follows_its_sites(
    provider: resource::InferenceProviderView,
    outside: Outside,
    reason: Seq<char>,
)
    requires
        outside.lets_through(provider),
        outside.probes_well(provider),
    ensures
        provider.spec.metrics_tls() is None || outside.metrics_tls_failure == Some(
            None::<Seq<char>>,
        ) ==> outside.resolution(provider) == Some(
            ResolutionView {
                phase: if outside.matching(provider).len() == 0 {
                    ProviderPhase::Pending
                } else {
                    ProviderPhase::Available
                },
                matching_sites: outside.matching(provider),
                reason: None,
            },
        ),
        provider.spec.metrics_tls() is Some && outside.metrics_tls_failure == Some(Some(reason))
            ==> outside.resolution(provider) == Some(
            ResolutionView {
                phase: ProviderPhase::Degraded,
                matching_sites: outside.matching(provider),
                reason: Some(reason),
            },
        ),
{
}

/// Nothing is known of a provider exactly if the API server fails at a question
/// that is asked: access to the credential, the network, the sites, and the
/// metrics material, each where everything before it went well.
pub proof fn law_api_failure_leaves_a_provider_unresolved(
    provider: resource::InferenceProviderView,
    outside: Outside,
)
    ensures
        outside.resolution(provider) is None <==> {
            &&& phase::config_error(provider.spec) is None
            &&& outside.plan_failure is None
            &&& {
                ||| outside.access_failure is None
                ||| outside.access_failure == Some(None::<Seq<char>>) && outside.network is None
                ||| outside.access_failure == Some(None::<Seq<char>>) && outside.network == Some(
                    true,
                ) && outside.sites is None
                ||| outside.lets_through(provider) && outside.probes_well(provider)
                    && provider.spec.metrics_tls() is Some && outside.metrics_tls_failure is None
            }
        },
{
}

/// A name is among the sites of a provider exactly if some listed site has it,
/// belongs to the provider's network, and has every label that the provider
/// selects by.
pub proof fn law_matching_sites_are_selected_sites_of_the_network(
    provider: resource::InferenceProviderView,
    outside: Outside,
    all: Seq<resource::GridSiteView>,
    name: Seq<char>,
)
    requires
        outside.sites == Some(all),
    ensures
        outside.matching(provider).contains(name) <==> exists|i: int|
            0 <= i < all.len() && (#[trigger] all[i]).metadata.name == Some(name)
                && all[i].grid_network_ref == provider.spec.grid_network_ref && sites::meets(
                all[i].metadata.labels,
                provider.spec.match_labels,
            ),
        ordering::ordered(outside.matching(provider)),
{
    let network = provider.spec.grid_network_ref;
    let listed = sites::sites_of_network(all, network);
    sites::law_matching_sites_meet_the_selector(listed, provider.spec);
    if outside.matching(provider).contains(name) {
        let k = choose|k: int|
            0 <= k < listed.len() && (#[trigger] listed[k]).metadata.name == Some(name)
                && sites::meets(listed[k].metadata.labels, provider.spec.match_labels);
        sites::law_listed_sites_belong_to_the_network(all, network, listed[k]);
        assert(listed.contains(listed[k]));
        let i = choose|i: int| 0 <= i < all.len() && all[i] == listed[k];
        assert(all[i].metadata.name == Some(name));
    }
    if exists|i: int|
        0 <= i < all.len() && (#[trigger] all[i]).metadata.name == Some(name)
            && all[i].grid_network_ref == network && sites::meets(
            all[i].metadata.labels,
            provider.spec.match_labels,
        ) {
        let i = choose|i: int|
            0 <= i < all.len() && (#[trigger] all[i]).metadata.name == Some(name)
                && all[i].grid_network_ref == network && sites::meets(
                all[i].metadata.labels,
                provider.spec.match_labels,
            );
        sites::law_listed_sites_belong_to_the_network(all, network, all[i]);
        assert(all.contains(all[i]));
        let k = choose|k: int| 0 <= k < listed.len() && listed[k] == all[i];
        assert(listed[k].metadata.name == Some(name));
    }
}

/// The answer to the list of sites settles which sites match: later states of a
/// resolution carry them on unchanged, and its end shows them.
pub proof fn law_matching_sites_are_carried_on(
    provider: resource::InferenceProviderView,
    state: ResolveStateView,
    answer: AnswerView,
    matching: Seq<Seq<char>>,
)
    requires
        carries(state, matching),
    ensures
        carries(next_state(provider, state, answer), matching) || next_state(
            provider,
            state,
            answer,
        ) is Failed,
{
}

/// Whether a state after the list of sites holds these matching sites.
pub open spec fn carries(state: ResolveStateView, matching: Seq<Seq<char>>) -> bool {
    match state {
        ResolveStateView::HealthTls { matching: held } => held == matching,
        ResolveStateView::Probe { matching: held, .. } => held == matching,
        ResolveStateView::MetricsTls { matching: held } => held == matching,
        ResolveStateView::Done(resolution) => resolution.matching_sites == matching,
        _ => false,
    }
}

/// Only the answer to the question of a state changes it, and a failure of the
/// API server only where the question goes to it.
pub proof fn law_unasked_answers_change_nothing(
    provider: resource::InferenceProviderView,
    state: ResolveStateView,
    answer: AnswerView,
)
    ensures
        next_state(provider, state, answer) != state ==> {
            ||| state is CredentialPlan && answer is CredentialPlan
            ||| state is CredentialAccess && (answer is CredentialAccess || answer is ApiFailed)
            ||| state is Network && (answer is Network || answer is ApiFailed)
            ||| state is Sites && (answer is Sites || answer is ApiFailed)
            ||| state is HealthTls && answer is HealthTls
            ||| state is Probe && answer is Probed
            ||| state is MetricsTls && (answer is MetricsTls || answer is ApiFailed)
        },
{
}

/// A question is asked once: no answer leads back to the question that it
/// answers or to an earlier one.
pub proof fn law_questions_come_in_order(
    provider: resource::InferenceProviderView,
    state: ResolveStateView,
    answer: AnswerView,
)
    ensures
        next_state(provider, state, answer) == state || place(state) < place(
            next_state(provider, state, answer),
        ),
        place(first_state(provider)) == 0 || first_state(provider) is Done,
{
}

/// The place of a state in the order of the questions.
pub open spec fn place(state: ResolveStateView) -> int {
    match state {
        ResolveStateView::CredentialPlan => 0,
        ResolveStateView::CredentialAccess => 1,
        ResolveStateView::Network => 2,
        ResolveStateView::Sites => 3,
        ResolveStateView::HealthTls { .. } => 4,
        ResolveStateView::Probe { .. } => 5,
        ResolveStateView::MetricsTls { .. } => 6,
        ResolveStateView::Done(_) => 7,
        ResolveStateView::Failed => 7,
    }
}

/// A health check with usable material is probed, as is one without any; a
/// provider without a health check is not.
pub proof fn law_health_check_is_probed(
    provider: resource::InferenceProviderView,
    matching: Seq<Seq<char>>,
    all: Seq<resource::GridSiteView>,
    loaded: bool,
)
    ensures
        provider.spec.health_tls() is Some ==> next_state(
            provider,
            ResolveStateView::Sites,
            AnswerView::Sites(all),
        ) is HealthTls && next_state(
            provider,
            ResolveStateView::HealthTls { matching },
            AnswerView::HealthTls(Ok(loaded)),
        ) is Probe,
        provider.spec.health_check is Some && provider.spec.health_tls() is None ==> next_state(
            provider,
            ResolveStateView::Sites,
            AnswerView::Sites(all),
        ) is Probe,
        provider.spec.health_check is None ==> !(next_state(
            provider,
            ResolveStateView::Sites,
            AnswerView::Sites(all),
        ) is Probe) && !(next_state(
            provider,
            ResolveStateView::Sites,
            AnswerView::Sites(all),
        ) is HealthTls),
{
}

/// The views of a resolution and of a state show what they hold.
pub proof fn law_resolution_is_shown_in_full(resolution: Resolution, state: ResolveState)
    ensures
        resolution@.phase == resolution.phase,
        resolution@.matching_sites == ordering::texts(resolution.matching_sites@),
        resolution@.reason is Some <==> resolution.reason is Some,
        resolution.reason is Some ==> resolution@.reason->0 == resolution.reason->0@,
        match state {
            ResolveState::CredentialPlan => state@ is CredentialPlan,
            ResolveState::CredentialAccess => state@ is CredentialAccess,
            ResolveState::Network => state@ is Network,
            ResolveState::Sites => state@ is Sites,
            ResolveState::HealthTls { matching } => state@ == (ResolveStateView::HealthTls {
                matching: ordering::texts(matching@),
            }),
            ResolveState::Probe { matching, url, timeout, has_tls } => state@
                == (ResolveStateView::Probe {
                matching: ordering::texts(matching@),
                url: url@,
                timeout: timeout@,
                has_tls,
            }),
            ResolveState::MetricsTls { matching } => state@ == (ResolveStateView::MetricsTls {
                matching: ordering::texts(matching@),
            }),
            ResolveState::Done(done) => state@ == ResolveStateView::Done(done@),
            ResolveState::Failed => state@ is Failed,
        },
{
}

} // verus!
