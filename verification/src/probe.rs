//! The health probe: what is asked of a provider's endpoint, how often, and
//! what its answer means.

use crate::duration::{self, parse_duration_str, Duration};
use crate::phase::{self, ProbeOutcome};
use crate::resource::{self, HealthCheckConfig, InferenceProviderSpec};
use crate::text::{self, starts_with_char, trim_end_char};
use crate::uri::{self, parse_uri, scheme_is, UriParts};
use vstd::prelude::*;
use vstd::string::*;

verus! {

/// Seconds until the next reconciliation when no `healthCheck.interval` is set.
pub const REQUEUE_INTERVAL_SECS: u64 = 300;

/// Most seconds until the next reconciliation of a provider with
/// `metricsConfig.tls` or `healthCheck.tls`.
///
/// The operator detects rotated TLS material by reconciling again.
pub const TLS_REQUEUE_INTERVAL_SECS: u64 = 60;

/// Seconds until the next reconciliation after a failed one.
pub const ERROR_REQUEUE_INTERVAL_SECS: u64 = 30;

/// Probe timeout in seconds when `healthCheck.timeout` is absent.
pub const DEFAULT_PROBE_TIMEOUT_SECS: u64 = 5;

/// The URL that a provider's health check asks, if it has one.
///
/// The base is `healthCheck.endpoint` or else the provider's endpoint, without
/// trailing slashes. The path is `healthCheck.path` or else `/health`. Exactly
/// one slash is put between them where the path does not begin with one.
pub open spec fn probe_url(spec: resource::InferenceProviderSpecView) -> Option<Seq<char>> {
    match spec.health_check {
        Some(hc) => {
            let base = match hc.endpoint {
                Some(endpoint) => endpoint,
                None => spec.endpoint,
            };
            let path = match hc.path {
                Some(path) => path,
                None => "/health"@,
            };
            Some(joined(base, path))
        },
        None => None,
    }
}

/// A base without its trailing slashes, then a path, with a slash before it
/// unless it has one.
pub open spec fn joined(base: Seq<char>, path: Seq<char>) -> Seq<char> {
    let separator = if path.len() > 0 && path.first() == '/' {
        Seq::<char>::empty()
    } else {
        seq!['/']
    };
    text::without_trailing(base, '/') + separator + path
}

/// Build the URL to probe for a provider's health check.
///
/// Returns `None` when no health check is configured: the provider is not
/// probed then. A blank `healthCheck.endpoint` is passed through as it is, and
/// the probe rejects the URL.
pub fn probe_url_for_provider(spec: &InferenceProviderSpec) -> (res: Option<String>)
    ensures
        resource::optional_text(res) == probe_url(spec@),
{
    match &spec.health_check {
        None => None,
        Some(hc) => {
            let path = match &hc.path {
                Some(path) => path.as_str(),
                None => "/health",
            };
            let base = match &hc.endpoint {
                Some(endpoint) => endpoint.as_str(),
                None => spec.endpoint.as_str(),
            };
            let endpoint = trim_end_char(base, '/');
            let mut url = endpoint.to_owned();
            if !starts_with_char(path, '/') {
                proof {
                    reveal_strlit("/");
                    assert("/"@ =~= seq!['/']);
                }
                url.append("/");
                url.append(path);
            } else {
                url.append(path);
                assert(url@ =~= endpoint@ + Seq::<char>::empty() + path@);
            }
            Some(url)
        },
    }
}

/// The length in milliseconds that an optional duration text gives.
pub open spec fn configured(s: Option<Seq<char>>) -> Option<nat> {
    match s {
        Some(s) => duration::duration_in(s),
        None => None,
    }
}

/// The probe timeout in milliseconds that a health check gives.
pub open spec fn probe_timeout(hc: Option<resource::HealthCheckView>) -> nat {
    match hc {
        Some(hc) => match configured(hc.timeout) {
            Some(millis) => millis,
            None => DEFAULT_PROBE_TIMEOUT_SECS as nat * 1000,
        },
        None => DEFAULT_PROBE_TIMEOUT_SECS as nat * 1000,
    }
}

/// Derive the probe timeout from a health check.
///
/// Parses `healthCheck.timeout` as `"<n>s"` (seconds) or `"<n>ms"`
/// (milliseconds). The timeout is five seconds when the field is absent or
/// cannot be parsed.
pub fn parse_probe_timeout(hc: Option<&HealthCheckConfig>) -> (res: Duration)
    ensures
        res@ == probe_timeout(
            match hc {
                Some(hc) => Some(hc@),
                None => None,
            },
        ),
{
    if let Some(hc) = hc {
        if let Some(timeout) = &hc.timeout {
            if let Some(duration) = parse_duration_str(timeout.as_str()) {
                return duration;
            }
        }
    }
    Duration::from_secs(DEFAULT_PROBE_TIMEOUT_SECS)
}

/// The interval in milliseconds that a provider's health check asks for.
pub open spec fn check_interval(spec: resource::InferenceProviderSpecView) -> Option<nat> {
    match spec.health_check {
        Some(hc) => configured(hc.interval),
        None => None,
    }
}

/// Whether a provider's health check or metrics use TLS material.
pub open spec fn uses_tls(spec: resource::InferenceProviderSpecView) -> bool {
    ||| spec.metrics_config matches Some(config) && config.tls is Some
    ||| spec.health_check matches Some(hc) && hc.tls is Some
}

/// Milliseconds until a provider is reconciled again.
pub open spec fn requeue_interval(spec: resource::InferenceProviderSpecView) -> nat {
    let bound = TLS_REQUEUE_INTERVAL_SECS as nat * 1000;
    match check_interval(spec) {
        Some(interval) => if uses_tls(spec) && bound < interval {
            bound
        } else {
            interval
        },
        None => if uses_tls(spec) {
            bound
        } else {
            REQUEUE_INTERVAL_SECS as nat * 1000
        },
    }
}

/// Derive the interval after which a provider is reconciled again.
///
/// A configured `healthCheck.interval` that can be parsed is used, capped at
/// [`TLS_REQUEUE_INTERVAL_SECS`] where the provider uses TLS material. Without
/// one the interval is [`TLS_REQUEUE_INTERVAL_SECS`] with TLS material and
/// [`REQUEUE_INTERVAL_SECS`] otherwise.
pub fn requeue_interval_for_provider(spec: &InferenceProviderSpec) -> (res: Duration)
    ensures
        res@ == requeue_interval(spec@),
{
    let configured_interval: Option<Duration> = match &spec.health_check {
        Some(hc) => match &hc.interval {
            Some(interval) => parse_duration_str(interval.as_str()),
            None => None,
        },
        None => None,
    };
    let metrics_tls = match &spec.metrics_config {
        Some(config) => config.tls.is_some(),
        None => false,
    };
    let health_tls = match &spec.health_check {
        Some(hc) => hc.tls.is_some(),
        None => false,
    };
    let bound = Duration::from_secs(TLS_REQUEUE_INTERVAL_SECS);
    match (configured_interval, metrics_tls || health_tls) {
        (Some(interval), true) => interval.min(bound),
        (Some(interval), false) => interval,
        (None, true) => bound,
        (None, false) => Duration::from_secs(REQUEUE_INTERVAL_SECS),
    }
}

/// The interval after which a failed reconciliation is tried again.
pub fn error_policy() -> (res: Duration)
    ensures
        res@ == 30_000,
{
    Duration::from_secs(ERROR_REQUEUE_INTERVAL_SECS)
}

/// Whether a probe of a URL with these parts is sent: the scheme is `http` or
/// `https`, and it is `https` where the probe has TLS material.
pub open spec fn probe_admitted(parts: Option<uri::UriPartsView>, has_tls: bool) -> bool {
    match parts {
        Some(parts) => {
            ||| parts.scheme == Some("https"@)
            ||| parts.scheme == Some("http"@) && !has_tls
        },
        None => false,
    }
}

/// Decide whether a probe is sent, from the parts of its URL.
///
/// TLS material with a URL that is not `https` is a misconfiguration, and the
/// probe is not sent.
pub fn admit_probe(parts: &Option<UriParts>, has_tls: bool) -> (res: bool)
    ensures
        res == probe_admitted(uri::optional_parts(*parts), has_tls),
{
    match parts {
        Some(parts) => {
            proof {
                reveal_strlit("http");
                reveal_strlit("https");
            }
            let https = scheme_is(parts, "https");
            let http = scheme_is(parts, "http");
            https || (http && !has_tls)
        },
        None => false,
    }
}

/// Begin a probe of a URL: its outcome where it is not sent, `None` where it
/// is. The URL that a blank base gives is rejected.
pub fn begin_probe(url: &str, has_tls: bool) -> (res: Option<ProbeOutcome>)
    ensures
        res == if probe_admitted(uri::uri_in(url@), has_tls) {
            None
        } else {
            Some(ProbeOutcome::Unavailable)
        },
        forall|reply: ProbeReply| #[trigger]
            probe_outcome(uri::uri_in(url@), has_tls, reply) == match res {
                Some(outcome) => outcome,
                None => reply_outcome(reply),
            },
        res is None ==> uri::opens_with(url@, "http://"@) || uri::opens_with(url@, "https://"@),
        res is None && has_tls ==> uri::opens_with(url@, "https://"@),
        forall|base: Seq<char>, path: Seq<char>|
            text::is_blank(base) && url@ == #[trigger] joined(base, path) ==> res == Some(
                ProbeOutcome::Unavailable,
            ),
{
    proof {
        assert forall|base: Seq<char>, path: Seq<char>|
            text::is_blank(base) && url@ == #[trigger] joined(base, path) implies !uri::opens_with(
            url@,
            "http://"@,
        ) && !uri::opens_with(url@, "https://"@) by {
            law_blank_base_is_no_http_url(base, path);
        }
    }
    let parts = parse_uri(url);
    if admit_probe(&parts, has_tls) {
        None
    } else {
        Some(ProbeOutcome::Unavailable)
    }
}

/// How sending a probe went.
#[derive(Clone, Copy, Debug, PartialEq, Eq, Structural)]
pub enum ProbeReply {
    /// No connector could be made from the TLS material or the native roots.
    NoConnector,
    /// The request could not be built.
    NoRequest,
    /// No response arrived in time.
    TimedOut,
    /// The connection failed.
    TransportFailed,
    /// A response arrived with this status code.
    Status(u16),
}

/// The outcome that a reply to a probe means.
pub open spec fn reply_outcome(reply: ProbeReply) -> ProbeOutcome {
    match reply {
        ProbeReply::Status(status) => if phase::is_success_status(status) {
            ProbeOutcome::Healthy
        } else {
            ProbeOutcome::Degraded
        },
        _ => ProbeOutcome::Unavailable,
    }
}

/// The outcome of a probe of a URL with these parts, where sending it would go
/// as `reply` says: a probe that is not admitted is not sent.
pub open spec fn probe_outcome(
    parts: Option<uri::UriPartsView>,
    has_tls: bool,
    reply: ProbeReply,
) -> ProbeOutcome {
    if probe_admitted(parts, has_tls) {
        reply_outcome(reply)
    } else {
        ProbeOutcome::Unavailable
    }
}

/// Conclude a probe from how sending it went.
pub fn finish_probe(reply: ProbeReply) -> (res: ProbeOutcome)
    ensures
        res == reply_outcome(reply),
{
    match reply {
        ProbeReply::Status(status) => ProbeOutcome::from_http_status(status),
        ProbeReply::NoConnector => ProbeOutcome::Unavailable,
        ProbeReply::NoRequest => ProbeOutcome::Unavailable,
        ProbeReply::TimedOut => ProbeOutcome::Unavailable,
        ProbeReply::TransportFailed => ProbeOutcome::Unavailable,
    }
}

/// A provider that uses TLS material is reconciled again within a minute.
pub proof fn law_tls_bounds_requeue(spec: resource::InferenceProviderSpecView)
    requires
        uses_tls(spec),
    ensures
        requeue_interval(spec) <= TLS_REQUEUE_INTERVAL_SECS * 1000,
{
}

/// A configured interval is never lengthened.
pub proof fn law_requeue_keeps_configured_interval(spec: resource::InferenceProviderSpecView)
    ensures
        check_interval(spec) matches Some(interval) ==> {
            &&& requeue_interval(spec) <= interval
            &&& !uses_tls(spec) ==> requeue_interval(spec) == interval
            &&& interval <= TLS_REQUEUE_INTERVAL_SECS * 1000 ==> requeue_interval(spec) == interval
        },
{
}

/// Another probe timeout leaves the requeue interval as it is, and another
/// check interval leaves the probe timeout as it is.
pub proof fn law_interval_and_timeout_are_independent(
    spec: resource::InferenceProviderSpecView,
    hc: resource::HealthCheckView,
    interval: Option<Seq<char>>,
    timeout: Option<Seq<char>>,
)
    requires
        spec.health_check == Some(hc),
    ensures
        requeue_interval(
            resource::InferenceProviderSpecView {
                health_check: Some(resource::HealthCheckView { timeout, ..hc }),
                ..spec
            },
        ) == requeue_interval(spec),
        probe_timeout(Some(resource::HealthCheckView { interval, ..hc })) == probe_timeout(
            spec.health_check,
        ),
{
}

/// Model discovery leaves the requeue interval as it is.
pub proof fn law_discovery_leaves_requeue(
    spec: resource::InferenceProviderSpecView,
    model_discovery: Option<resource::ModelDiscoveryConfigView>,
)
    ensures
        requeue_interval(resource::InferenceProviderSpecView { model_discovery, ..spec })
            == requeue_interval(spec),
{
}

/// Slashes at the end of the base make no difference to the probed URL.
pub proof fn law_trailing_slashes_are_ignored(base: Seq<char>, path: Seq<char>)
    ensures
        joined(base.push('/'), path) == joined(base, path),
{
    assert(base.push('/').drop_last() =~= base);
}

/// The URL that a blank base gives begins with no scheme that a probe accepts,
/// so that a blank `healthCheck.endpoint` makes the probe fail.
pub proof fn law_blank_base_is_no_http_url(base: Seq<char>, path: Seq<char>)
    requires
        text::is_blank(base),
    ensures
        !uri::opens_with(joined(base, path), "http://"@),
        !uri::opens_with(joined(base, path), "https://"@),
{
    reveal_strlit("http://");
    reveal_strlit("https://");
    let url = joined(base, path);
    if base.len() > 0 {
        assert(text::is_white_space(base.last()));
        assert(text::without_trailing(base, '/') == base);
        assert(url[0] == base[0]);
        assert(text::is_white_space(base[0]));
    } else {
        assert(url[0] == '/');
    }
    assert(uri::ascii_lower(url[0]) != 'h');
}

/// The probed URL is the base up to its trailing slashes, then a slash, then
/// the path: `n` characters of the base are kept, and a slash of the path is
/// not doubled.
pub proof fn law_joined_url_has_one_slash(base: Seq<char>, path: Seq<char>) -> (n: int)
    ensures
        0 <= n <= base.len(),
        n > 0 ==> base[n - 1] != '/',
        forall|i: int| n <= i < base.len() ==> #[trigger] base[i] == '/',
        path.len() > 0 && path[0] == '/' ==> joined(base, path) == base.take(n) + path,
        !(path.len() > 0 && path[0] == '/') ==> joined(base, path) == base.take(n).push('/') + path,
{
    let n = text::law_only_trailing_occurrences_go(base, '/');
    if path.len() > 0 && path[0] == '/' {
        assert(joined(base, path) =~= base.take(n) + path);
    } else {
        assert(joined(base, path) =~= base.take(n).push('/') + path);
    }
    n
}

/// A provider is probed exactly if it has a health check. An endpoint of the
/// health check is probed in place of the provider's, whatever path is set.
pub proof fn law_probe_url_prefers_the_override(spec: resource::InferenceProviderSpecView)
    ensures
        probe_url(spec) is Some <==> spec.health_check is Some,
        spec.health_check matches Some(hc) ==> {
            &&& hc.endpoint is Some && hc.path is Some ==> probe_url(spec) == Some(
                joined(hc.endpoint->0, hc.path->0),
            )
            &&& hc.endpoint is Some && hc.path is None ==> probe_url(spec) == Some(
                joined(hc.endpoint->0, "/health"@),
            )
            &&& hc.endpoint is None && hc.path is Some ==> probe_url(spec) == Some(
                joined(spec.endpoint, hc.path->0),
            )
            &&& hc.endpoint is None && hc.path is None ==> probe_url(spec) == Some(
                joined(spec.endpoint, "/health"@),
            )
        },
{
}

/// With an endpoint of its own, a health check is probed at the same URL
/// whatever the rest of the spec says; without one, the provider's endpoint
/// takes its place.
pub proof fn law_probe_url_depends_on_one_base(
    a: resource::InferenceProviderSpecView,
    b: resource::InferenceProviderSpecView,
    hc: resource::HealthCheckView,
    endpoint: Seq<char>,
)
    requires
        a.health_check == Some(hc),
        hc.endpoint == Some(endpoint),
    ensures
        b.health_check == Some(hc) ==> probe_url(a) == probe_url(b),
        b.health_check == Some(resource::HealthCheckView { endpoint: None, ..hc }) && b.endpoint
            == endpoint ==> probe_url(a) == probe_url(b),
{
}

/// A timeout that can be read is used as it is; in every other case the probe
/// is given up after five seconds.
pub proof fn law_readable_timeout_is_used(hc: resource::HealthCheckView, text: Seq<char>)
    ensures
        hc.timeout == Some(text) && duration::duration_in(text) is Some ==> Some(
            probe_timeout(Some(hc)),
        ) == duration::duration_in(text),
        hc.timeout == Some(text) && duration::duration_in(text) is None ==> probe_timeout(Some(hc))
            == 5000,
        hc.timeout is None ==> probe_timeout(Some(hc)) == 5000,
        probe_timeout(None) == 5000,
{
}

/// The requeue interval: the one that the health check asks for where it can be
/// read, at most a minute where a TLS block of the health check or of metrics
/// collection is there, and five minutes where nothing is said.
pub proof fn law_requeue_interval_by_case(spec: resource::InferenceProviderSpecView, asked: nat)
    ensures
        ({
            let tls = spec.metrics_tls() is Some || spec.health_tls() is Some;
            let asks = spec.health_check matches Some(hc) && hc.interval matches Some(text)
                && duration::duration_in(text) == Some(asked);
            let silent = !(spec.health_check matches Some(hc) && hc.interval matches Some(text)
                && duration::duration_in(text) is Some);
            &&& asks && !tls ==> requeue_interval(spec) == asked
            &&& asks && tls && asked <= 60_000 ==> requeue_interval(spec) == asked
            &&& asks && tls && asked > 60_000 ==> requeue_interval(spec) == 60_000
            &&& silent && tls ==> requeue_interval(spec) == 60_000
            &&& silent && !tls ==> requeue_interval(spec) == 300_000
        }),
{
}

/// TLS material never admits a probe that would be refused without it. Without
/// material `http` and `https` are admitted and nothing else is; with material
/// `https` alone is.
pub proof fn law_admission_by_scheme(parts: uri::UriPartsView)
    ensures
        probe_admitted(Some(parts), true) ==> probe_admitted(Some(parts), false),
        probe_admitted(Some(parts), true) <==> parts.scheme == Some("https"@),
        probe_admitted(Some(parts), false) && !probe_admitted(Some(parts), true) <==> parts.scheme
            == Some("http"@),
        !probe_admitted(None, true) && !probe_admitted(None, false),
{
    reveal_strlit("http");
    reveal_strlit("https");
    assert("http"@.len() == 4);
    assert("https"@.len() == 5);
}

/// A reply with a status code shows that the endpoint is reachable, and healthy
/// exactly in the two hundreds. Every other reply means that it is not.
pub proof fn law_reply_tells_reachability(reply: ProbeReply)
    ensures
        reply_outcome(reply) == ProbeOutcome::Unavailable <==> !(reply is Status),
        reply_outcome(reply) == ProbeOutcome::Healthy <==> (reply matches ProbeReply::Status(s)
            && 200 <= s <= 299),
        reply_outcome(reply) != ProbeOutcome::NotProbed,
{
}

} // verus!
