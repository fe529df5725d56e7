//! Phases from matching sites, probe outcomes and HTTP status codes.

use grid_operator::phase::{phase_from_matching, phase_from_probe, ProbeOutcome, TlsFailureReason};
use grid_operator::resource::ProviderPhase;

#[test]
fn no_matching_sites_yields_pending() {
    let phase = phase_from_matching(&[]);
    assert_eq!(phase, ProviderPhase::Pending, "empty matching yields Pending");
}

#[test]
fn one_matching_site_yields_available() {
    let phase = phase_from_matching(&["site-a".to_owned()]);
    assert_eq!(phase, ProviderPhase::Available, "one match yields Available");
}

#[test]
fn multiple_matching_sites_yields_available() {
    let phase = phase_from_matching(&["site-a".to_owned(), "site-b".to_owned()]);
    assert_eq!(phase, ProviderPhase::Available, "multiple matches yield Available");
}

#[test]
fn phase_from_matching_never_emits_degraded() {
    let empty_phase = phase_from_matching(&[]);
    let some_phase = phase_from_matching(&["site-x".to_owned()]);
    assert!(matches!(empty_phase, ProviderPhase::Pending), "empty matching must yield Pending");
    assert!(matches!(some_phase, ProviderPhase::Available), "non-empty matching must yield Available");
    assert_ne!(empty_phase, ProviderPhase::Degraded, "Degraded unreachable from phase_from_matching");
    assert_ne!(some_phase, ProviderPhase::Degraded, "Degraded unreachable from phase_from_matching");
}

#[test]
fn healthy_probe_preserves_available() {
    let result = phase_from_probe(ProbeOutcome::Healthy, ProviderPhase::Available);
    assert_eq!(result, ProviderPhase::Available, "Healthy probe must preserve Available");
}

#[test]
fn healthy_probe_preserves_pending() {
    let result = phase_from_probe(ProbeOutcome::Healthy, ProviderPhase::Pending);
    assert_eq!(result, ProviderPhase::Pending, "Healthy probe must preserve Pending");
}

#[test]
fn not_probed_preserves_available() {
    let result = phase_from_probe(ProbeOutcome::NotProbed, ProviderPhase::Available);
    assert_eq!(result, ProviderPhase::Available, "NotProbed must preserve Available");
}

#[test]
fn not_probed_preserves_pending() {
    let result = phase_from_probe(ProbeOutcome::NotProbed, ProviderPhase::Pending);
    assert_eq!(result, ProviderPhase::Pending, "NotProbed must preserve Pending");
}

#[test]
fn degraded_probe_overrides_available() {
    let result = phase_from_probe(ProbeOutcome::Degraded, ProviderPhase::Available);
    assert_eq!(result, ProviderPhase::Degraded, "Degraded probe must override Available");
}

#[test]
fn degraded_probe_overrides_pending() {
    let result = phase_from_probe(ProbeOutcome::Degraded, ProviderPhase::Pending);
    assert_eq!(result, ProviderPhase::Degraded, "Degraded probe must override Pending");
}

#[test]
fn unavailable_probe_overrides_available() {
    let result = phase_from_probe(ProbeOutcome::Unavailable, ProviderPhase::Available);
    assert_eq!(result, ProviderPhase::Unavailable, "Unavailable probe must override Available");
}

#[test]
fn unavailable_probe_overrides_pending() {
    let result = phase_from_probe(ProbeOutcome::Unavailable, ProviderPhase::Pending);
    assert_eq!(result, ProviderPhase::Unavailable, "Unavailable probe must override Pending");
}

#[test]
fn degraded_is_reachable_via_phase_from_probe() {
    let result = phase_from_probe(ProbeOutcome::Degraded, ProviderPhase::Available);
    assert_eq!(result, ProviderPhase::Degraded, "Degraded must be reachable via phase_from_probe");
}

#[test]
fn probes_never_improve_an_impaired_phase() {
    for outcome in [
        ProbeOutcome::Healthy,
        ProbeOutcome::Degraded,
        ProbeOutcome::Unavailable,
        ProbeOutcome::NotProbed,
    ] {
        for phase in [ProviderPhase::Degraded, ProviderPhase::Unavailable] {
            let merged = phase_from_probe(outcome, phase);
            assert_ne!(merged, ProviderPhase::Available);
            assert_ne!(merged, ProviderPhase::Pending);
        }
    }
}

#[test]
fn http_200_yields_healthy() {
    assert_eq!(ProbeOutcome::from_http_status(200), ProbeOutcome::Healthy, "HTTP 200 must yield Healthy");
}

#[test]
fn http_204_yields_healthy() {
    assert_eq!(
        ProbeOutcome::from_http_status(204),
        ProbeOutcome::Healthy,
        "HTTP 204 No Content must yield Healthy"
    );
}

#[test]
fn http_299_is_last_healthy_status() {
    assert_eq!(
        ProbeOutcome::from_http_status(299),
        ProbeOutcome::Healthy,
        "HTTP 299 must still be within the healthy range"
    );
}

#[test]
fn http_300_yields_degraded() {
    assert_eq!(
        ProbeOutcome::from_http_status(300),
        ProbeOutcome::Degraded,
        "HTTP 300 (redirect) is outside 2xx range and must yield Degraded"
    );
}

#[test]
fn http_400_yields_degraded() {
    assert_eq!(ProbeOutcome::from_http_status(400), ProbeOutcome::Degraded, "HTTP 400 must yield Degraded");
}

#[test]
fn http_429_yields_degraded() {
    assert_eq!(
        ProbeOutcome::from_http_status(429),
        ProbeOutcome::Degraded,
        "HTTP 429 Too Many Requests must yield Degraded"
    );
}

#[test]
fn http_500_yields_degraded() {
    assert_eq!(ProbeOutcome::from_http_status(500), ProbeOutcome::Degraded, "HTTP 500 must yield Degraded");
}

#[test]
fn http_503_yields_degraded() {
    assert_eq!(
        ProbeOutcome::from_http_status(503),
        ProbeOutcome::Degraded,
        "HTTP 503 Service Unavailable must yield Degraded"
    );
}

#[test]
fn http_status_zero_yields_degraded() {
    assert_eq!(ProbeOutcome::from_http_status(0), ProbeOutcome::Degraded, "invalid status 0 must yield Degraded");
}

#[test]
fn http_2xx_boundary_is_inclusive_exclusive() {
    assert_eq!(ProbeOutcome::from_http_status(200), ProbeOutcome::Healthy);
    assert_eq!(ProbeOutcome::from_http_status(299), ProbeOutcome::Healthy);
    assert_eq!(ProbeOutcome::from_http_status(300), ProbeOutcome::Degraded);
}

#[test]
fn http_199_yields_degraded() {
    assert_eq!(
        ProbeOutcome::from_http_status(199),
        ProbeOutcome::Degraded,
        "HTTP 199 is below 2xx range and must yield Degraded"
    );
}

#[test]
fn tls_failure_reason_health_check_prefix_stable_values() {
    assert_eq!(
        TlsFailureReason::SecretMissing.as_status_reason("HealthCheck"),
        "HealthCheckTlsSecretMissing",
        "stable status reason code"
    );
    assert_eq!(
        TlsFailureReason::KeyMissing.as_status_reason("HealthCheck"),
        "HealthCheckTlsKeyMissing",
        "stable status reason code"
    );
    assert_eq!(
        TlsFailureReason::MaterialInvalid.as_status_reason("HealthCheck"),
        "HealthCheckTlsMaterialInvalid",
        "stable status reason code"
    );
    assert_eq!(
        TlsFailureReason::IdentityMismatch.as_status_reason("HealthCheck"),
        "HealthCheckTlsIdentityMismatch",
        "stable status reason code"
    );
}
