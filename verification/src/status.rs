//! The status that a reconciliation writes, and when it writes one.

use crate::duration::Duration;
use crate::ordering;
use crate::probe::{self, requeue_interval_for_provider};
use crate::resolve::{self, Resolution};
use crate::resource::{
    self, clone_optional_discovery, InferenceProvider, InferenceProviderStatus, ProviderPhase,
};
use vstd::prelude::*;
use vstd::string::*;

verus! {

/// A merge patch of a provider's status.
#[derive(Debug, PartialEq, Eq)]
pub struct StatusPatch {
    /// New `status.matchingSites`.
    pub matching_sites: Vec<String>,
    /// New `status.observedGeneration`.
    pub observed_generation: i64,
    /// New `status.phase`.
    pub phase: ProviderPhase,
    /// New `status.reason`; `None` takes the field away.
    pub reason: Option<String>,
    /// Whether `status.modelDiscovery` is taken away. It is left alone
    /// otherwise.
    pub clear_model_discovery: bool,
}

/// View of [`StatusPatch`].
#[verifier::ext_equal]
pub struct StatusPatchView {
    pub matching_sites: Seq<Seq<char>>,
    pub observed_generation: i64,
    pub phase: ProviderPhase,
    pub reason: Option<Seq<char>>,
    pub clear_model_discovery: bool,
}

impl View for StatusPatch {
    type V = StatusPatchView;

    open spec fn view(&self) -> StatusPatchView {
        StatusPatchView {
            matching_sites: ordering::texts(self.matching_sites@),
            observed_generation: self.observed_generation,
            phase: self.phase,
            reason: resource::optional_text(self.reason),
            clear_model_discovery: self.clear_model_discovery,
        }
    }
}

impl StatusPatchView {
    /// The status that the patch makes of the current one: every field of the
    /// patch replaces the field of the status, and the discovery result stays
    /// unless the patch clears it.
    pub open spec fn applied_to(
        self,
        current: Option<resource::InferenceProviderStatusView>,
    ) -> resource::InferenceProviderStatusView {
        resource::InferenceProviderStatusView {
            matching_sites: self.matching_sites,
            observed_generation: self.observed_generation,
            phase: self.phase,
            reason: self.reason,
            model_discovery: if self.clear_model_discovery {
                None
            } else {
                match current {
                    Some(status) => status.model_discovery,
                    None => None,
                }
            },
        }
    }
}

/// The status that a provider should have. The discovery result is kept as
/// long as discovery is configured.
pub open spec fn desired_status(
    provider: resource::InferenceProviderView,
    resolution: resolve::ResolutionView,
    observed_generation: i64,
) -> resource::InferenceProviderStatusView {
    resource::InferenceProviderStatusView {
        matching_sites: resolution.matching_sites,
        observed_generation,
        phase: resolution.phase,
        reason: resolution.reason,
        model_discovery: if provider.spec.model_discovery is Some {
            provider.discovery()
        } else {
            None
        },
    }
}

/// The patch of a provider's status, if its status is not the desired one.
pub open spec fn status_patch(
    provider: resource::InferenceProviderView,
    resolution: resolve::ResolutionView,
    observed_generation: i64,
) -> Option<StatusPatchView> {
    if provider.status == Some(desired_status(provider, resolution, observed_generation)) {
        None
    } else {
        Some(
            StatusPatchView {
                matching_sites: resolution.matching_sites,
                observed_generation,
                phase: resolution.phase,
                reason: resolution.reason,
                clear_model_discovery: provider.spec.model_discovery is None,
            },
        )
    }
}

/// Whether the status differs from the desired status.
pub fn inference_provider_status_needs_update(
    current: Option<&InferenceProviderStatus>,
    desired: &InferenceProviderStatus,
) -> (res: bool)
    ensures
        res == match current {
            Some(current) => current@ != desired@,
            None => true,
        },
{
    match current {
        Some(current) => !current.same_as(desired),
        None => true,
    }
}

/// Build the patch of a provider's status, or `None` where the status needs no
/// update.
pub fn update_status(
    provider: &InferenceProvider,
    phase: ProviderPhase,
    matching_sites: Vec<String>,
    observed_generation: i64,
    reason: Option<String>,
) -> (res: Option<StatusPatch>)
    ensures
        (match res {
            Some(patch) => Some(patch@),
            None => None,
        }) == status_patch(
            provider@,
            (resolve::ResolutionView {
                phase,
                matching_sites: ordering::texts(matching_sites@),
                reason: resource::optional_text(reason),
            }),
            observed_generation,
        ),
{
    let model_discovery = match &provider.spec.model_discovery {
        Some(_) => match &provider.status {
            Some(status) => clone_optional_discovery(&status.model_discovery),
            None => None,
        },
        None => None,
    };
    let status = InferenceProviderStatus {
        matching_sites,
        observed_generation,
        phase,
        reason,
        model_discovery,
    };
    if !inference_provider_status_needs_update(provider.status.as_ref(), &status) {
        return None;
    }
    Some(
        StatusPatch {
            matching_sites: status.matching_sites,
            observed_generation: status.observed_generation,
            phase: status.phase,
            reason: status.reason,
            clear_model_discovery: provider.spec.model_discovery.is_none(),
        },
    )
}

/// What a reconciliation ends with.
#[derive(Debug, PartialEq, Eq)]
pub struct Reconciled {
    /// Patch of the provider's status, if it needs one.
    pub patch: Option<StatusPatch>,
    /// Time until the provider is reconciled again.
    pub requeue_after: Duration,
}

/// Conclude the reconciliation of a provider that is resolved: its status is
/// brought up to the current generation of its spec, and it is reconciled
/// again after its requeue interval.
pub fn reconcile(provider: &InferenceProvider, resolution: Resolution) -> (res: Reconciled)
    ensures
        (match res.patch {
            Some(patch) => Some(patch@),
            None => None,
        }) == status_patch(provider@, resolution@, provider@.generation()),
        res.requeue_after@ == probe::requeue_interval(provider@.spec),
{
    let generation: i64 = provider.generation();
    let patch = update_status(
        provider,
        resolution.phase,
        resolution.matching_sites,
        generation,
        resolution.reason,
    );
    Reconciled { patch, requeue_after: requeue_interval_for_provider(&provider.spec) }
}

/// A written patch makes the status the desired one.
pub proof fn law_patch_reaches_desired_status(
    provider: resource::InferenceProviderView,
    resolution: resolve::ResolutionView,
    observed_generation: i64,
)
    ensures
        status_patch(provider, resolution, observed_generation) matches Some(patch) ==> {
            patch.applied_to(provider.status) == desired_status(
                provider,
                resolution,
                observed_generation,
            )
        },
{
}

/// Once the status is the desired one, the same resolution writes nothing.
pub proof fn law_second_update_is_skipped(
    provider: resource::InferenceProviderView,
    resolution: resolve::ResolutionView,
    observed_generation: i64,
    patch: StatusPatchView,
)
    requires
        status_patch(provider, resolution, observed_generation) == Some(patch),
    ensures
        status_patch(
            resource::InferenceProviderView {
                status: Some(patch.applied_to(provider.status)),
                ..provider
            },
            resolution,
            observed_generation,
        ) is None,
{
}

/// A reconciliation never changes a discovery result while discovery is
/// configured, and takes it away otherwise.
pub proof fn law_reconcile_keeps_discovery(
    provider: resource::InferenceProviderView,
    resolution: resolve::ResolutionView,
    observed_generation: i64,
    patch: StatusPatchView,
)
    requires
        status_patch(provider, resolution, observed_generation) == Some(patch),
    ensures
        patch.applied_to(provider.status).model_discovery == if provider.spec.model_discovery is Some {
            provider.discovery()
        } else {
            None
        },
{
}

/// No patch is written only if the status already says what was resolved, for
/// the generation, with the discovery result that it should have.
pub proof fn law_skipped_update_changes_nothing(
    provider: resource::InferenceProviderView,
    resolution: resolve::ResolutionView,
    observed_generation: i64,
)
    ensures
        status_patch(provider, resolution, observed_generation) is None <==> (
        provider.status matches Some(current) && {
            &&& current.matching_sites == resolution.matching_sites
            &&& current.phase == resolution.phase
            &&& current.reason == resolution.reason
            &&& current.observed_generation == observed_generation
            &&& provider.spec.model_discovery is Some || current.model_discovery is None
        }),
{
    if let Some(current) = provider.status {
        if provider.spec.model_discovery is Some || current.model_discovery is None {
            if current.matching_sites == resolution.matching_sites && current.phase
                == resolution.phase && current.reason == resolution.reason
                && current.observed_generation == observed_generation {
                assert(current == desired_status(provider, resolution, observed_generation));
            }
        }
    }
}

/// A patch writes what was resolved, all of it and for the generation, and
/// clears the discovery result exactly where no discovery is configured.
pub proof fn law_patch_writes_the_resolution(
    provider: resource::InferenceProviderView,
    resolution: resolve::ResolutionView,
    observed_generation: i64,
)
    ensures
        status_patch(provider, resolution, observed_generation) matches Some(patch) ==> {
            &&& patch.matching_sites == resolution.matching_sites
            &&& patch.phase == resolution.phase
            &&& patch.reason == resolution.reason
            &&& patch.observed_generation == observed_generation
            &&& patch.clear_model_discovery <==> provider.spec.model_discovery is None
        },
{
}

/// The status after a patch: the patched fields, and the discovery result of
/// before unless it was cleared.
pub proof fn law_patched_status_has_the_patched_fields(
    patch: StatusPatchView,
    current: resource::InferenceProviderStatusView,
)
    ensures
        ({
            let after = patch.applied_to(Some(current));
            &&& after.matching_sites == patch.matching_sites
            &&& after.observed_generation == patch.observed_generation
            &&& after.phase == patch.phase
            &&& after.reason == patch.reason
            &&& patch.clear_model_discovery ==> after.model_discovery is None
            &&& !patch.clear_model_discovery ==> after.model_discovery == current.model_discovery
        }),
        patch.applied_to(None).model_discovery is None,
        patch.applied_to(None).phase == patch.phase,
        patch.applied_to(None).matching_sites == patch.matching_sites,
        patch.applied_to(None).observed_generation == patch.observed_generation,
        patch.applied_to(None).reason == patch.reason,
{
}

/// The view of a patch shows its fields.
pub proof fn law_patch_view_shows_its_fields(patch: StatusPatch)
    ensures
        patch@.matching_sites == ordering::texts(patch.matching_sites@),
        patch@.observed_generation == patch.observed_generation,
        patch@.phase == patch.phase,
        patch@.reason is Some <==> patch.reason is Some,
        patch.reason is Some ==> patch@.reason->0 == patch.reason->0@,
        patch@.clear_model_discovery == patch.clear_model_discovery,
{
}

} // verus!
