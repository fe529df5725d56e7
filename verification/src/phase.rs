//! Static validation of a provider, and how its phase follows from matching
//! sites and from a health probe.

use crate::resource::{self, InferenceProvider, ProviderPhase};
use crate::text::{self, blank};
use vstd::prelude::*;
use vstd::string::*;

verus! {

/// The error in a provider's static configuration, if it has one: a blank
/// endpoint comes before a blank model name.
pub open spec fn config_error(spec: resource::InferenceProviderSpecView) -> Option<Seq<char>> {
    if text::is_blank(spec.endpoint) {
        Some("blank endpoint"@)
    } else if exists|i: int| 0 <= i < spec.models.len() && text::is_blank(#[trigger] spec.models[i]) {
        Some("blank model name"@)
    } else {
        None
    }
}

/// Validate the static configuration of a provider.
///
/// Returns the reason if the provider has a configuration error, which maps to
/// [`ProviderPhase::Unavailable`], or `None` if static validation passes.
///
/// Checked:
/// - `spec.endpoint` is not blank.
/// - No `spec.models[].name` is blank.
///
/// Whether the referenced grid network exists is not checked here.
pub fn validate_provider_config(provider: &InferenceProvider) -> (res: Option<&'static str>)
    ensures
        match res {
            Some(reason) => config_error(provider@.spec) == Some(reason@),
            None => config_error(provider@.spec) is None,
        },
{
    if blank(provider.spec.endpoint.as_str()) {
        return Some("blank endpoint");
    }
    let ghost names = provider@.spec.models;
    let mut i: usize = 0;
    while i < provider.spec.models.len()
        invariant
            names == resource::model_names(provider.spec.models@),
            names == provider@.spec.models,
            !text::is_blank(provider@.spec.endpoint),
            i <= names.len(),
            forall|k: int| 0 <= k < i ==> !text::is_blank(#[trigger] names[k]),
        decreases names.len() - i,
    {
        assert(names[i as int] == provider.spec.models@[i as int].name@);
        if blank(provider.spec.models[i].name.as_str()) {
            return Some("blank model name");
        }
        i = i + 1;
    }
    None
}

/// The outcome of a health probe against a provider's endpoint.
///
/// Pass it to [`phase_from_probe`] to merge it with the site-matching phase.
#[derive(Clone, Copy, Debug, PartialEq, Eq, Structural)]
pub enum ProbeOutcome {
    /// The endpoint responded successfully (for example HTTP 200).
    Healthy,
    /// The endpoint responded but signalled a degraded state (for example
    /// HTTP 5xx).
    Degraded,
    /// The endpoint was unreachable: transport failure, connection refused, or
    /// DNS resolution error.
    Unavailable,
    /// No probe was attempted. Preserves the site-matching phase.
    NotProbed,
}

/// The HTTP status codes that report success.
pub open spec fn is_success_status(status: u16) -> bool {
    200 <= status < 300
}

impl ProbeOutcome {
    /// Derive an outcome from the HTTP status code returned by a health probe.
    ///
    /// A 2xx status means that the endpoint is healthy. Any other status means
    /// that it is reachable but degraded. A transport failure has no status
    /// code; it is [`ProbeOutcome::Unavailable`].
    #[must_use]
    pub fn from_http_status(status: u16) -> (res: Self)
        ensures
            res == if is_success_status(status) {
                ProbeOutcome::Healthy
            } else {
                ProbeOutcome::Degraded
            },
    {
        if 200 <= status && status < 300 {
            ProbeOutcome::Healthy
        } else {
            ProbeOutcome::Degraded
        }
    }
}

/// The phase that a probe outcome makes of a site-matching phase.
pub open spec fn probed_phase(outcome: ProbeOutcome, site_phase: ProviderPhase) -> ProviderPhase {
    match outcome {
        ProbeOutcome::Healthy | ProbeOutcome::NotProbed => site_phase,
        ProbeOutcome::Degraded => ProviderPhase::Degraded,
        ProbeOutcome::Unavailable => ProviderPhase::Unavailable,
    }
}

/// Apply a health probe outcome on top of a site-matching phase.
///
/// | Probe outcome | Result |
/// |---------------|--------|
/// | `Healthy` | site-matching phase unchanged |
/// | `NotProbed` | site-matching phase unchanged |
/// | `Degraded` | [`ProviderPhase::Degraded`] |
/// | `Unavailable` | [`ProviderPhase::Unavailable`] |
pub fn phase_from_probe(outcome: ProbeOutcome, site_phase: ProviderPhase) -> (res: ProviderPhase)
    ensures
        res == probed_phase(outcome, site_phase),
{
    match outcome {
        ProbeOutcome::Healthy | ProbeOutcome::NotProbed => site_phase,
        ProbeOutcome::Degraded => ProviderPhase::Degraded,
        ProbeOutcome::Unavailable => ProviderPhase::Unavailable,
    }
}

/// The phase that a number of matching sites gives.
pub open spec fn site_phase(matching: nat) -> ProviderPhase {
    if matching == 0 {
        ProviderPhase::Pending
    } else {
        ProviderPhase::Available
    }
}

/// Compute the provider phase from site matching results.
///
/// Returns [`ProviderPhase::Pending`] when no sites match, and
/// [`ProviderPhase::Available`] when at least one site matches.
pub fn phase_from_matching(matching: &[String]) -> (res: ProviderPhase)
    ensures
        res == site_phase(matching@.len()),
{
    if matching.len() == 0 {
        ProviderPhase::Pending
    } else {
        ProviderPhase::Available
    }
}

/// Why TLS material for an endpoint could not be used.
#[derive(Clone, Copy, Debug, PartialEq, Eq, Structural)]
pub enum TlsFailureReason {
    /// A referenced Secret does not exist.
    SecretMissing,
    /// A referenced Secret lacks the key.
    KeyMissing,
    /// The material is not valid PEM.
    MaterialInvalid,
    /// The private key does not belong to the certificate.
    IdentityMismatch,
}

/// The part of a status reason that names a TLS failure.
pub open spec fn tls_failure_name(reason: TlsFailureReason) -> Seq<char> {
    match reason {
        TlsFailureReason::SecretMissing => "TlsSecretMissing"@,
        TlsFailureReason::KeyMissing => "TlsKeyMissing"@,
        TlsFailureReason::MaterialInvalid => "TlsMaterialInvalid"@,
        TlsFailureReason::IdentityMismatch => "TlsIdentityMismatch"@,
    }
}

impl TlsFailureReason {
    /// The reason as the provider's status shows it, after the name of the
    /// configuration block that it concerns.
    pub fn as_status_reason(self, prefix: &str) -> (res: String)
        ensures
            res@ == prefix@ + tls_failure_name(self),
    {
        let name = match self {
            TlsFailureReason::SecretMissing => "TlsSecretMissing",
            TlsFailureReason::KeyMissing => "TlsKeyMissing",
            TlsFailureReason::MaterialInvalid => "TlsMaterialInvalid",
            TlsFailureReason::IdentityMismatch => "TlsIdentityMismatch",
        };
        let mut res = prefix.to_owned();
        res.append(name);
        res
    }
}

/// Site matching alone never makes a provider degraded or unavailable.
pub proof fn law_site_phase_is_pending_or_available(matching: nat)
    ensures
        site_phase(matching) == ProviderPhase::Pending || site_phase(matching)
            == ProviderPhase::Available,
        site_phase(matching) == ProviderPhase::Available <==> matching >= 1,
{
}

/// A probe never improves a phase: its result is the site-matching phase, or
/// one of the two impaired phases.
pub proof fn law_probe_only_tightens(outcome: ProbeOutcome, site_phase: ProviderPhase)
    ensures
        probed_phase(outcome, site_phase) == ProviderPhase::Available ==> site_phase
            == ProviderPhase::Available,
        probed_phase(outcome, site_phase) == ProviderPhase::Pending ==> site_phase
            == ProviderPhase::Pending,
        probed_phase(outcome, site_phase) != site_phase ==> outcome == ProbeOutcome::Degraded
            || outcome == ProbeOutcome::Unavailable,
{
}

/// Status reasons tell the four TLS failures apart under every prefix.
pub proof fn law_tls_reasons_are_distinct(
    prefix: Seq<char>,
    a: TlsFailureReason,
    b: TlsFailureReason,
)
    requires
        prefix + tls_failure_name(a) == prefix + tls_failure_name(b),
    ensures
        a == b,
{
    reveal_strlit("TlsSecretMissing");
    reveal_strlit("TlsKeyMissing");
    reveal_strlit("TlsMaterialInvalid");
    reveal_strlit("TlsIdentityMismatch");
    let n = prefix.len() as int;
    let (x, y) = (prefix + tls_failure_name(a), prefix + tls_failure_name(b));
    assert(x[n + 3] == tls_failure_name(a)[3]);
    assert(y[n + 3] == tls_failure_name(b)[3]);
}

/// A static configuration is in error exactly if nothing is left of the
/// endpoint or of some model name once white space is taken away. A blank
/// endpoint is reported first.
pub proof fn law_blank_names_are_config_errors(spec: resource::InferenceProviderSpecView)
    ensures
        text::trimmed(spec.endpoint).len() == 0 ==> config_error(spec) == Some("blank endpoint"@),
        text::trimmed(spec.endpoint).len() > 0 && (exists|i: int|
            0 <= i < spec.models.len() && text::trimmed(#[trigger] spec.models[i]).len() == 0)
            ==> config_error(spec) == Some("blank model name"@),
        config_error(spec) is Some ==> text::trimmed(spec.endpoint).len() == 0 || exists|i: int|
            0 <= i < spec.models.len() && text::trimmed(#[trigger] spec.models[i]).len() == 0,
{
    text::lemma_blank_iff_trimmed_empty(spec.endpoint);
    assert forall|i: int| 0 <= i < spec.models.len() implies (text::is_blank(
        #[trigger] spec.models[i],
    ) <==> text::trimmed(spec.models[i]).len() == 0) by {
        text::lemma_blank_iff_trimmed_empty(spec.models[i]);
    }
}

/// The successful status codes are the two hundreds.
pub proof fn law_success_is_a_two_hundred(status: u16)
    ensures
        is_success_status(status) <==> status / 100 == 2,
{
}

/// An impairing probe outcome is the phase; any other leaves the phase alone.
pub proof fn law_impairing_outcome_is_the_phase(site_phase: ProviderPhase)
    ensures
        probed_phase(ProbeOutcome::Degraded, site_phase) == ProviderPhase::Degraded,
        probed_phase(ProbeOutcome::Unavailable, site_phase) == ProviderPhase::Unavailable,
        probed_phase(ProbeOutcome::Healthy, site_phase) == site_phase,
        probed_phase(ProbeOutcome::NotProbed, site_phase) == site_phase,
{
}

/// A TLS failure is named after its kind, behind `Tls`.
pub proof fn law_tls_failures_have_their_names()
    ensures
        tls_failure_name(TlsFailureReason::SecretMissing) == "Tls"@ + "SecretMissing"@,
        tls_failure_name(TlsFailureReason::KeyMissing) == "Tls"@ + "KeyMissing"@,
        tls_failure_name(TlsFailureReason::MaterialInvalid) == "Tls"@ + "MaterialInvalid"@,
        tls_failure_name(TlsFailureReason::IdentityMismatch) == "Tls"@ + "IdentityMismatch"@,
{
    reveal_strlit("Tls");
    reveal_strlit("SecretMissing");
    reveal_strlit("KeyMissing");
    reveal_strlit("MaterialInvalid");
    reveal_strlit("IdentityMismatch");
    reveal_strlit("TlsSecretMissing");
    reveal_strlit("TlsKeyMissing");
    reveal_strlit("TlsMaterialInvalid");
    reveal_strlit("TlsIdentityMismatch");
    assert("TlsSecretMissing"@ =~= "Tls"@ + "SecretMissing"@);
    assert("TlsKeyMissing"@ =~= "Tls"@ + "KeyMissing"@);
    assert("TlsMaterialInvalid"@ =~= "Tls"@ + "MaterialInvalid"@);
    assert("TlsIdentityMismatch"@ =~= "Tls"@ + "IdentityMismatch"@);
}

} // verus!
