//! When providers with model discovery are polled, and what a poll leaves in
//! their status.

use crate::clock::{self, format_rfc3339, nanos_since, parse_rfc3339, utc_now_nanos, Moment};
use crate::name_map::{self, NameMap};
use crate::ordering;
use crate::poll;
use crate::resource::{
    self, clone_optional_text, InferenceProvider, ModelDiscoveryStatus,
};
use crate::status;
use std::time::Instant;
use vstd::prelude::*;
use vstd::string::*;

verus! {

/// Number of providers that are polled at the same time.
pub const DEFAULT_CONCURRENCY: usize = 8;

/// Nanoseconds in a second.
pub const NANOS_PER_SECOND: u64 = 1_000_000_000;

/// A change in the watched set of providers.
pub enum WatchEvent {
    /// The watch starts over, and a complete list follows.
    Init,
    /// One provider of the list.
    InitApply(InferenceProvider),
    /// The list is complete.
    InitDone,
    /// A provider was added or modified.
    Apply(InferenceProvider),
    /// A provider was deleted.
    Delete(InferenceProvider),
}

/// View of [`WatchEvent`].
pub enum WatchEventView {
    Init,
    InitApply(resource::InferenceProviderView),
    InitDone,
    Apply(resource::InferenceProviderView),
    Delete(resource::InferenceProviderView),
}

impl View for WatchEvent {
    type V = WatchEventView;

    open spec fn view(&self) -> WatchEventView {
        match self {
            WatchEvent::Init => WatchEventView::Init,
            WatchEvent::InitApply(provider) => WatchEventView::InitApply(provider@),
            WatchEvent::InitDone => WatchEventView::InitDone,
            WatchEvent::Apply(provider) => WatchEventView::Apply(provider@),
            WatchEvent::Delete(provider) => WatchEventView::Delete(provider@),
        }
    }
}

/// Decides which providers are due for a poll.
pub struct ModelDiscoveryPoller {
    /// Complete provider snapshot from the watch.
    pub providers: NameMap<InferenceProvider>,
    /// Replacement snapshot being built during watch initialization.
    pub initializing: Option<NameMap<InferenceProvider>>,
    /// Generation and local start of the last attempt, in nanoseconds since
    /// the poller was made. It covers the time until the status shows it.
    pub last_started: NameMap<(i64, u128)>,
    /// Maximum number of providers polled concurrently.
    pub concurrency: usize,
    /// When the poller was made.
    pub origin: Instant,
}

/// View of [`ModelDiscoveryPoller`].
#[verifier::ext_equal]
pub struct PollerView {
    pub providers: Map<Seq<char>, resource::InferenceProviderView>,
    pub initializing: Option<Map<Seq<char>, resource::InferenceProviderView>>,
    pub last_started: Map<Seq<char>, (i64, u128)>,
}

impl PollerView {
    /// Every provider stands under its own name, and starts are recorded of
    /// providers in the snapshot only.
    pub open spec fn is_consistent(self) -> bool {
        &&& names_agree(self.providers)
        &&& self.initializing matches Some(pending) ==> names_agree(pending)
        &&& self.last_started.dom().subset_of(self.providers.dom())
    }
}

/// Every provider stands under its own name.
pub open spec fn names_agree(
    providers: Map<Seq<char>, resource::InferenceProviderView>,
) -> bool {
    forall|name: Seq<char>| #[trigger]
        providers.dom().contains(name) ==> providers[name].metadata.name == Some(name)
}

/// The views of providers by name.
pub open spec fn provider_map(
    providers: Map<Seq<char>, InferenceProvider>,
) -> Map<Seq<char>, resource::InferenceProviderView> {
    providers.map_values(|provider: InferenceProvider| provider@)
}

/// The views of a list of providers.
pub open spec fn provider_views(providers: Seq<InferenceProvider>) -> Seq<
    resource::InferenceProviderView,
> {
    Seq::new(providers.len(), |i: int| providers[i]@)
}

impl View for ModelDiscoveryPoller {
    type V = PollerView;

    open spec fn view(&self) -> PollerView {
        PollerView {
            providers: provider_map(self.providers@),
            initializing: match self.initializing {
                Some(pending) => Some(provider_map(pending@)),
                None => None,
            },
            last_started: self.last_started@,
        }
    }
}

/// The time of the last attempt that a provider's status shows for the current
/// generation of its spec.
pub open spec fn attempt_text(provider: resource::InferenceProviderView) -> Option<Seq<char>> {
    match provider.discovery() {
        Some(status) if status.observed_generation == provider.generation() => {
            status.last_attempt_time
        },
        _ => None,
    }
}

/// The last attempt in nanoseconds since the Unix epoch, where the status
/// shows one for the current generation and its time can be read.
pub open spec fn last_attempt(provider: resource::InferenceProviderView) -> Option<i128> {
    match attempt_text(provider) {
        Some(text) => clock::rfc3339_nanos(text),
        None => None,
    }
}

/// An attempt is recent from right after it until the interval is over.
pub open spec fn is_recent_attempt(now: i128, attempt: i128, interval_seconds: u32) -> bool {
    0 < now - attempt < interval_seconds * NANOS_PER_SECOND
}

/// A start is recent until the interval is over. A start that lies ahead of
/// the clock counts as now.
pub open spec fn is_recent_start(now: u128, started: u128, interval_seconds: u32) -> bool {
    (if now >= started {
        now - started
    } else {
        0
    }) < interval_seconds * NANOS_PER_SECOND
}

/// A provider is due if it is named, has discovery configured, and was not
/// attempted within the last interval: neither by its status nor, for the same
/// generation, by the poller's own record.
pub open spec fn is_due(
    last_started: Map<Seq<char>, (i64, u128)>,
    provider: resource::InferenceProviderView,
    attempt: Option<i128>,
    moment: Moment,
) -> bool {
    match (provider.metadata.name, provider.spec.model_discovery) {
        (Some(name), Some(config)) => {
            &&& !(attempt matches Some(attempt) && is_recent_attempt(
                moment.utc_nanos,
                attempt,
                config.interval_seconds,
            ))
            &&& !(last_started.dom().contains(name) && last_started[name].0
                == provider.generation() && is_recent_start(
                moment.monotonic_nanos,
                last_started[name].1,
                config.interval_seconds,
            ))
        },
        _ => false,
    }
}

/// The providers among `providers` that are due, each at the moment of its own
/// reading, in the same order.
pub open spec fn due_among(
    last_started: Map<Seq<char>, (i64, u128)>,
    providers: Seq<resource::InferenceProviderView>,
    readings: Seq<Moment>,
) -> Seq<resource::InferenceProviderView>
    decreases providers.len(),
{
    if providers.len() == 0 {
        Seq::empty()
    } else {
        let due = due_among(last_started, providers.drop_last(), readings.drop_last());
        let provider = providers.last();
        if is_due(last_started, provider, last_attempt(provider), readings.last()) {
            due.push(provider)
        } else {
            due
        }
    }
}

/// The record of starts with a start of each of `due` added.
pub open spec fn with_starts(
    last_started: Map<Seq<char>, (i64, u128)>,
    due: Seq<resource::InferenceProviderView>,
    started: u128,
) -> Map<Seq<char>, (i64, u128)>
    decreases due.len(),
{
    if due.len() == 0 {
        last_started
    } else {
        let before = with_starts(last_started, due.drop_last(), started);
        match due.last().metadata.name {
            Some(name) => before.insert(name, (due.last().generation(), started)),
            None => before,
        }
    }
}

/// The poller after a change in the watched set. A list that is being built
/// replaces the snapshot when it is complete, and the record of starts keeps
/// only the providers in it.
pub open spec fn watched(poller: PollerView, event: WatchEventView) -> PollerView {
    match event {
        WatchEventView::Init => PollerView { initializing: Some(Map::empty()), ..poller },
        WatchEventView::InitApply(provider) => match (provider.metadata.name, poller.initializing) {
            (Some(name), Some(pending)) => PollerView {
                initializing: Some(pending.insert(name, provider)),
                ..poller
            },
            _ => poller,
        },
        WatchEventView::InitDone => match poller.initializing {
            Some(pending) => PollerView {
                providers: pending,
                initializing: None,
                last_started: poller.last_started.restrict(pending.dom()),
            },
            None => poller,
        },
        WatchEventView::Apply(provider) => match provider.metadata.name {
            Some(name) => PollerView {
                providers: poller.providers.insert(name, provider),
                ..poller
            },
            None => poller,
        },
        WatchEventView::Delete(provider) => match provider.metadata.name {
            Some(name) => PollerView {
                providers: poller.providers.remove(name),
                last_started: poller.last_started.remove(name),
                ..poller
            },
            None => poller,
        },
    }
}

/// The outcome of one round: nothing while a list is being built, and
/// otherwise the due providers, whose starts are recorded.
pub open spec fn is_round(
    before: PollerView,
    in_order: Seq<resource::InferenceProviderView>,
    started: u128,
    readings: Seq<Moment>,
    after: PollerView,
    due: Seq<resource::InferenceProviderView>,
) -> bool {
    if before.initializing is Some {
        due.len() == 0 && after == before
    } else {
        &&& readings.len() == in_order.len()
        &&& due == due_among(before.last_started, in_order, readings)
        &&& after == PollerView {
            last_started: with_starts(before.last_started, due, started),
            ..before
        }
    }
}

/// The outcome of one round at whatever the clocks showed.
pub open spec fn is_round_now(
    before: PollerView,
    in_order: Seq<resource::InferenceProviderView>,
    after: PollerView,
    due: Seq<resource::InferenceProviderView>,
) -> bool {
    exists|started: u128, readings: Seq<Moment>| #[trigger]
        is_round(before, in_order, started, readings, after, due)
}

/// The view of an optional discovery result.
pub open spec fn borrowed_discovery(status: Option<&ModelDiscoveryStatus>) -> Option<
    resource::ModelDiscoveryStatusView,
> {
    match status {
        Some(status) => Some(status@),
        None => None,
    }
}

/// The discovery result after a poll. The previous result counts as long as it
/// is of the same generation: a failed poll keeps its models and the time of
/// its success.
pub open spec fn polled_status(
    previous: Option<resource::ModelDiscoveryStatusView>,
    generation: i64,
    observation: Result<Seq<Seq<char>>, Seq<char>>,
    attempt_time: Option<Seq<char>>,
    success_time: Option<Seq<char>>,
) -> resource::ModelDiscoveryStatusView {
    let kept = match previous {
        Some(status) if status.observed_generation == generation => status,
        _ => resource::ModelDiscoveryStatusView {
            models: Seq::empty(),
            observed_generation: generation,
            last_attempt_time: None,
            last_successful_time: None,
            last_failure_reason: None,
        },
    };
    match observation {
        Ok(models) => resource::ModelDiscoveryStatusView {
            models,
            observed_generation: generation,
            last_attempt_time: attempt_time,
            last_successful_time: success_time,
            last_failure_reason: None,
        },
        Err(reason) => resource::ModelDiscoveryStatusView {
            last_attempt_time: attempt_time,
            last_failure_reason: Some(reason),
            ..kept
        },
    }
}

/// The discovery result after a poll, with the times of two readings of the
/// clock. The time of the attempt can be read again.
pub open spec fn is_polled_at(
    status: resource::ModelDiscoveryStatusView,
    previous: Option<resource::ModelDiscoveryStatusView>,
    generation: i64,
    observation: Result<Seq<Seq<char>>, Seq<char>>,
    attempted: i128,
    succeeded: i128,
) -> bool {
    &&& status == polled_status(
        previous,
        generation,
        observation,
        clock::rfc3339_text(attempted),
        clock::rfc3339_text(succeeded),
    )
    &&& clock::rfc3339_text(attempted) matches Some(text) ==> clock::rfc3339_nanos(text) == Some(
        attempted,
    )
}

/// A merge patch of a provider's discovery result. It names the version of the
/// provider that was polled, so that it fails if the provider has changed, and
/// touches no other field of the status.
#[derive(Debug, PartialEq, Eq)]
pub struct DiscoveryPatch {
    /// Name of the provider.
    pub name: String,
    /// Version of the provider that was polled.
    pub resource_version: Option<String>,
    /// New `status.modelDiscovery`.
    pub discovery: ModelDiscoveryStatus,
}

/// View of [`DiscoveryPatch`].
#[verifier::ext_equal]
pub struct DiscoveryPatchView {
    pub name: Seq<char>,
    pub resource_version: Option<Seq<char>>,
    pub discovery: resource::ModelDiscoveryStatusView,
}

impl View for DiscoveryPatch {
    type V = DiscoveryPatchView;

    open spec fn view(&self) -> DiscoveryPatchView {
        DiscoveryPatchView {
            name: self.name@,
            resource_version: resource::optional_text(self.resource_version),
            discovery: self.discovery@,
        }
    }
}

impl DiscoveryPatchView {
    /// The status that the patch makes of the current one.
    pub open spec fn applied_to(
        self,
        current: resource::InferenceProviderStatusView,
    ) -> resource::InferenceProviderStatusView {
        resource::InferenceProviderStatusView { model_discovery: Some(self.discovery), ..current }
    }
}

/// Whether a patch, or its absence, is what a poll of a provider gives, where
/// `discovery` is the discovery result to write.
pub open spec fn is_patch_of(
    patch: Option<DiscoveryPatch>,
    provider: resource::InferenceProviderView,
    discovery: resource::ModelDiscoveryStatusView,
) -> bool {
    match (provider.metadata.name, provider.spec.model_discovery) {
        (Some(name), Some(_)) => patch matches Some(patch) && patch@ == (DiscoveryPatchView {
            name,
            resource_version: provider.metadata.resource_version,
            discovery,
        }),
        _ => patch is None,
    }
}

/// What the poller's loop wakes up for.
pub enum RunEvent {
    /// Shutdown was triggered, also while a round was under way.
    Shutdown,
    /// The watch reports a change.
    Watch(WatchEvent),
    /// The watch failed and is retried.
    WatchFailed,
    /// The watch ended unexpectedly.
    WatchClosed,
    /// It is time for a round.
    Tick,
}

/// What the poller's loop does next.
pub enum RunAction {
    /// Wait for the next event.
    Wait,
    /// Poll these providers, at most `fan_out` of them at the same time.
    Poll {
        /// Providers to poll.
        due: Vec<InferenceProvider>,
        /// Number of providers to poll at the same time.
        fan_out: usize,
    },
    /// End successfully.
    Stop,
    /// End with an error: the watch is closed.
    Fail,
}

/// Whether an attempt is recent.
pub fn attempt_is_recent(now: i128, attempt: i128, interval_seconds: u32) -> (res: bool)
    ensures
        res == is_recent_attempt(now, attempt, interval_seconds),
{
    if now <= attempt {
        return false;
    }
    let interval: i128 = (interval_seconds as u64 * NANOS_PER_SECOND) as i128;
    match now.checked_sub(interval) {
        Some(bound) => bound < attempt,
        None => true,
    }
}

/// Whether a start is recent.
pub fn start_is_recent(now: u128, started: u128, interval_seconds: u32) -> (res: bool)
    ensures
        res == is_recent_start(now, started, interval_seconds),
{
    let interval: u128 = (interval_seconds as u64 * NANOS_PER_SECOND) as u128;
    let elapsed: u128 = if now >= started {
        now - started
    } else {
        0
    };
    elapsed < interval
}

/// Read the last attempt that a provider's status shows.
fn read_last_attempt(provider: &InferenceProvider) -> (res: Option<i128>)
    ensures
        res == last_attempt(provider@),
{
    match provider.discovery() {
        Some(status) => if status.observed_generation == provider.generation() {
            match &status.last_attempt_time {
                Some(time) => parse_rfc3339(time.as_str()),
                None => None,
            }
        } else {
            None
        },
        None => None,
    }
}

impl ModelDiscoveryPoller {
    /// Build a poller that knows no provider.
    #[must_use]
    pub fn new() -> (res: Self)
        ensures
            res@ == (PollerView {
                providers: Map::empty(),
                initializing: None,
                last_started: Map::empty(),
            }),
            res@.is_consistent(),
            res.concurrency == 8,
    {
        let res = ModelDiscoveryPoller {
            providers: NameMap::new(),
            initializing: None,
            last_started: NameMap::new(),
            concurrency: DEFAULT_CONCURRENCY,
            origin: Instant::now(),
        };
        assert(res@.providers =~= Map::empty());
        res
    }

    /// How many providers are polled at the same time: at least one.
    pub fn fan_out(&self) -> (res: usize)
        ensures
            res == if self.concurrency >= 1 {
                self.concurrency
            } else {
                1
            },
    {
        if self.concurrency >= 1 {
            self.concurrency
        } else {
            1
        }
    }

    /// Read both clocks.
    fn moment(&self) -> Moment {
        Moment { utc_nanos: utc_now_nanos(), monotonic_nanos: nanos_since(&self.origin) }
    }

    /// Check the last attempt and the local record of starts before scheduling
    /// a provider.
    pub fn poll_due_given(
        &self,
        provider: &InferenceProvider,
        attempt: Option<i128>,
        moment: Moment,
    ) -> (res: bool)
        ensures
            res == is_due(self@.last_started, provider@, attempt, moment),
    {
        let name = match &provider.metadata.name {
            Some(name) => name.as_str(),
            None => {
                return false;
            },
        };
        let interval: u32 = match &provider.spec.model_discovery {
            Some(config) => config.interval_seconds,
            None => {
                return false;
            },
        };
        if let Some(attempt) = attempt {
            if attempt_is_recent(moment.utc_nanos, attempt, interval) {
                return false;
            }
        }
        match self.last_started.get(name) {
            Some(start) => {
                let generation: i64 = start.0;
                let started: u128 = start.1;
                if generation == provider.generation() {
                    !start_is_recent(moment.monotonic_nanos, started, interval)
                } else {
                    true
                }
            },
            None => true,
        }
    }

    /// Check status and local attempt time at a moment before scheduling a
    /// provider.
    pub fn poll_due_at(&self, provider: &InferenceProvider, moment: Moment) -> (res: bool)
        ensures
            res == is_due(self@.last_started, provider@, last_attempt(provider@), moment),
    {
        let attempt = read_last_attempt(provider);
        self.poll_due_given(provider, attempt, moment)
    }

    /// Check status and local attempt time before scheduling a provider.
    pub fn poll_due(&self, provider: &InferenceProvider) -> (res: bool)
        ensures
            exists|moment: Moment|
                res == #[trigger] is_due(
                    self@.last_started,
                    provider@,
                    last_attempt(provider@),
                    moment,
                ),
            provider@.metadata.name is None || provider@.spec.model_discovery is None ==> !res,
    {
        let moment = self.moment();
        self.poll_due_at(provider, moment)
    }

    /// Take a snapshot of the due providers and remember each start, which is
    /// given as `started`. There is one reading of the clocks for each
    /// provider in the snapshot, in the order of the names.
    pub fn take_due_at(&mut self, started: u128, readings: &[Moment]) -> (res: Vec<
        InferenceProvider,
    >)
        requires
            readings@.len() == old(self).providers.values().len(),
        ensures
            is_round(
                old(self)@,
                provider_views(old(self).providers.values()),
                started,
                readings@,
                final(self)@,
                provider_views(res@),
            ),
            final(self).providers == old(self).providers,
            final(self).concurrency == old(self).concurrency,
            final(self).origin == old(self).origin,
            old(self)@.is_consistent() ==> final(self)@.is_consistent() && distinctly_named(
                provider_views(res@),
            ),
    {
        let mut due: Vec<InferenceProvider> = Vec::new();
        assert(provider_views(due@) =~= Seq::empty());
        if self.initializing.is_some() {
            return due;
        }
        let count: usize = self.providers.len();
        let ghost in_order = provider_views(self.providers.values());
        let ghost starts = self.last_started@;
        let mut i: usize = 0;
        assert(in_order.take(0) =~= Seq::empty());
        while i < count
            invariant
                *self == *old(self),
                starts == self.last_started@,
                count == self.providers.values().len(),
                count == readings@.len(),
                in_order == provider_views(self.providers.values()),
                i <= count,
                provider_views(due@) == due_among(
                    starts,
                    in_order.take(i as int),
                    readings@.take(i as int),
                ),
            decreases count - i,
        {
            let provider = self.providers.value_at(i);
            let ghost before = provider_views(due@);
            proof {
                assert(in_order.take(i + 1).drop_last() =~= in_order.take(i as int));
                assert(readings@.take(i + 1).drop_last() =~= readings@.take(i as int));
                assert(in_order.take(i + 1).last() == provider@);
                assert(readings@.take(i + 1).last() == readings@[i as int]);
            }
            if self.poll_due_at(provider, readings[i]) {
                due.push(provider.clone());
                assert(provider_views(due@) =~= before.push(provider@));
            }
            i = i + 1;
        }
        proof {
            assert(in_order.take(count as int) =~= in_order);
            assert(readings@.take(count as int) =~= readings@);
        }
        let ghost listed = provider_views(due@);
        let mut k: usize = 0;
        assert(listed.take(0) =~= Seq::empty());
        while k < due.len()
            invariant
                k <= due@.len(),
                listed == provider_views(due@),
                self.providers == old(self).providers,
                self.initializing == old(self).initializing,
                self.concurrency == old(self).concurrency,
                self.origin == old(self).origin,
                self.last_started@ == with_starts(starts, listed.take(k as int), started),
            decreases due@.len() - k,
        {
            proof {
                assert(listed.take(k + 1).drop_last() =~= listed.take(k as int));
                assert(listed.take(k + 1).last() == due@[k as int]@);
            }
            let generation: i64 = due[k].generation();
            if let Some(name) = &due[k].metadata.name {
                self.last_started.insert(name.clone(), (generation, started));
            }
            k = k + 1;
        }
        assert(listed.take(listed.len() as int) =~= listed);
        proof {
            if old(self)@.is_consistent() {
                name_map::lemma_paired(self.providers.keys(), self.providers.values());
                assert forall|i: int| 0 <= i < in_order.len() implies (
                #[trigger] in_order[i].metadata.name matches Some(name) && name
                    == self.providers.keys()[i] && old(self)@.providers.dom().contains(name)) by {
                    let name = self.providers.keys()[i];
                    assert(self.providers@.dom().contains(name));
                    assert(old(self)@.providers.dom().contains(name));
                    assert(old(self)@.providers[name] == in_order[i]);
                }
                lemma_round_keeps_consistency(old(self)@, in_order, readings@, started);
                assert forall|i: int, j: int| 0 <= i < j < in_order.len() implies (
                #[trigger] in_order[i]).metadata.name != (
                #[trigger] in_order[j]).metadata.name by {
                    let (a, b) = (self.providers.keys()[i], self.providers.keys()[j]);
                    assert(ordering::before(a, b));
                    ordering::lemma_before_irreflexive(a);
                    assert(old(self)@.providers[a] == in_order[i]);
                    assert(old(self)@.providers[b] == in_order[j]);
                }
                lemma_due_distinctly_named(starts, in_order, readings@);
            }
        }
        due
    }

    /// Take a snapshot of due sources and remember each attempt before polling.
    pub fn take_due(&mut self) -> (res: Vec<InferenceProvider>)
        ensures
            is_round_now(
                old(self)@,
                provider_views(old(self).providers.values()),
                final(self)@,
                provider_views(res@),
            ),
            old(self)@.initializing is Some ==> res@.len() == 0 && final(self)@ == old(self)@,
            final(self).providers == old(self).providers,
            final(self).concurrency == old(self).concurrency,
            final(self).origin == old(self).origin,
            old(self)@.is_consistent() ==> final(self)@.is_consistent() && distinctly_named(
                provider_views(res@),
            ),
    {
        let started: u128 = nanos_since(&self.origin);
        let count: usize = self.providers.len();
        let mut readings: Vec<Moment> = Vec::new();
        let mut i: usize = 0;
        while i < count
            invariant
                i <= count,
                readings@.len() == i,
            decreases count - i,
        {
            readings.push(self.moment());
            i = i + 1;
        }
        let res = self.take_due_at(started, readings.as_slice());
        res
    }

    /// Apply a provider event, replacing the snapshot after initial sync.
    pub fn apply_watch_event(&mut self, event: WatchEvent)
        ensures
            final(self)@ == watched(old(self)@, event@),
            final(self).concurrency == old(self).concurrency,
            final(self).origin == old(self).origin,
            old(self)@.is_consistent() ==> final(self)@.is_consistent(),
    {
        match event {
            WatchEvent::Init => {
                let pending: NameMap<InferenceProvider> = NameMap::new();
                assert(provider_map(pending@) =~= Map::empty());
                self.initializing = Some(pending);
            },
            WatchEvent::InitApply(provider) => {
                let name = clone_optional_text(&provider.metadata.name);
                if let Some(name) = name {
                    if let Some(pending) = self.initializing.take() {
                        let mut pending = pending;
                        let ghost listed = pending@;
                        pending.insert(name, provider);
                        assert(provider_map(pending@) =~= provider_map(listed).insert(
                            name@,
                            provider@,
                        ));
                        self.initializing = Some(pending);
                    }
                }
            },
            WatchEvent::InitDone => {
                if let Some(pending) = self.initializing.take() {
                    self.last_started.retain_keys_of(&pending);
                    assert(pending@.dom() =~= provider_map(pending@).dom());
                    self.providers = pending;
                }
            },
            WatchEvent::Apply(provider) => {
                let name = clone_optional_text(&provider.metadata.name);
                if let Some(name) = name {
                    let ghost listed = self.providers@;
                    self.providers.insert(name, provider);
                    assert(provider_map(self.providers@) =~= provider_map(listed).insert(
                        name@,
                        provider@,
                    ));
                }
            },
            WatchEvent::Delete(provider) => {
                if let Some(name) = &provider.metadata.name {
                    let ghost listed = self.providers@;
                    self.providers.remove(name.as_str());
                    assert(provider_map(self.providers@) =~= provider_map(listed).remove(name@));
                    self.last_started.remove(name.as_str());
                }
            },
        }
    }

    /// One turn of the loop that watches providers and polls due sources until
    /// shutdown. A failed watch is retried; a closed one ends the loop with an
    /// error.
    pub fn run(&mut self, event: RunEvent) -> (res: RunAction)
        ensures
            event is Shutdown ==> res is Stop && final(self)@ == old(self)@,
            event matches RunEvent::Watch(change) ==> res is Wait && final(self)@ == watched(
                old(self)@,
                change@,
            ),
            event is WatchFailed ==> res is Wait && final(self)@ == old(self)@,
            event is WatchClosed ==> res is Fail && final(self)@ == old(self)@,
            event is Tick ==> (res matches RunAction::Poll { due, fan_out } && fan_out == (if old(
                self,
            ).concurrency >= 1 {
                old(self).concurrency
            } else {
                1
            }) && is_round_now(
                old(self)@,
                provider_views(old(self).providers.values()),
                final(self)@,
                provider_views(due@),
            )),
            final(self).concurrency == old(self).concurrency,
            final(self).origin == old(self).origin,
            old(self)@.is_consistent() ==> final(self)@.is_consistent(),
    {
        match event {
            RunEvent::Shutdown => RunAction::Stop,
            RunEvent::Watch(event) => {
                self.apply_watch_event(event);
                RunAction::Wait
            },
            RunEvent::WatchFailed => RunAction::Wait,
            RunEvent::WatchClosed => RunAction::Fail,
            RunEvent::Tick => {
                let due = self.take_due();
                RunAction::Poll { due, fan_out: self.fan_out() }
            },
        }
    }

    /// Apply one poll result at given times without treating a failure as an
    /// empty model set.
    pub fn status_after_poll_at(
        previous: Option<&ModelDiscoveryStatus>,
        generation: i64,
        result: Result<Vec<String>, &'static str>,
        attempt_time: Option<String>,
        success_time: Option<String>,
    ) -> (res: ModelDiscoveryStatus)
        ensures
            res@ == polled_status(
                borrowed_discovery(previous),
                generation,
                poll::observation_view(result),
                resource::optional_text(attempt_time),
                resource::optional_text(success_time),
            ),
    {
        let empty = ModelDiscoveryStatus {
            models: Vec::new(),
            observed_generation: generation,
            last_attempt_time: None,
            last_successful_time: None,
            last_failure_reason: None,
        };
        assert(empty@.models =~= Seq::empty());
        let mut status = match previous {
            Some(previous) => if previous.observed_generation == generation {
                previous.clone()
            } else {
                empty
            },
            None => empty,
        };
        status.last_attempt_time = attempt_time;
        match result {
            Ok(models) => {
                status.models = models;
                status.last_successful_time = success_time;
                status.last_failure_reason = None;
            },
            Err(reason) => {
                status.last_failure_reason = Some(reason.to_owned());
            },
        }
        status
    }

    /// Apply one poll result without treating a failure as an empty model set.
    pub fn status_after_poll(
        previous: Option<&ModelDiscoveryStatus>,
        generation: i64,
        result: Result<Vec<String>, &'static str>,
    ) -> (res: ModelDiscoveryStatus)
        ensures
            exists|attempted: i128, succeeded: i128| #[trigger]
                is_polled_at(
                    res@,
                    borrowed_discovery(previous),
                    generation,
                    poll::observation_view(result),
                    attempted,
                    succeeded,
                ),
    {
        let attempted: i128 = utc_now_nanos();
        let attempt_time = format_rfc3339(attempted);
        let succeeded: i128 = if result.is_ok() {
            utc_now_nanos()
        } else {
            attempted
        };
        let success_time = if result.is_ok() {
            format_rfc3339(succeeded)
        } else {
            None
        };
        let res = Self::status_after_poll_at(
            previous,
            generation,
            result,
            attempt_time,
            success_time,
        );
        proof {
            assert(is_polled_at(
                res@,
                borrowed_discovery(previous),
                generation,
                poll::observation_view(result),
                attempted,
                succeeded,
            ));
        }
        res
    }

    /// Build the patch that writes a provider's discovery result. There is none
    /// for a provider that has no name or no discovery configured.
    pub fn record_models(provider: &InferenceProvider, discovery: ModelDiscoveryStatus) -> (res:
        Option<DiscoveryPatch>)
        ensures
            is_patch_of(res, provider@, discovery@),
    {
        match (&provider.metadata.name, &provider.spec.model_discovery) {
            (Some(name), Some(_)) => Some(
                DiscoveryPatch {
                    name: name.clone(),
                    resource_version: clone_optional_text(&provider.metadata.resource_version),
                    discovery,
                },
            ),
            _ => None,
        }
    }

    /// Build the patch that records a poll of a provider: it updates only the
    /// discovery result.
    pub fn poll_and_record_models(
        provider: &InferenceProvider,
        observation: Result<Vec<String>, &'static str>,
    ) -> (res: Option<DiscoveryPatch>)
        ensures
            exists|status: resource::ModelDiscoveryStatusView, attempted: i128, succeeded: i128|
                is_patch_of(res, provider@, status) && #[trigger] is_polled_at(
                    status,
                    provider@.discovery(),
                    provider@.generation(),
                    poll::observation_view(observation),
                    attempted,
                    succeeded,
                ),
    {
        let discovery = Self::status_after_poll(
            provider.discovery(),
            provider.generation(),
            observation,
        );
        Self::record_models(provider, discovery)
    }
}

/// Every provider of a round is one of the snapshot that is due.
pub proof fn lemma_due_among_listed(
    last_started: Map<Seq<char>, (i64, u128)>,
    providers: Seq<resource::InferenceProviderView>,
    readings: Seq<Moment>,
    k: int,
) -> (i: int)
    requires
        providers.len() == readings.len(),
        0 <= k < due_among(last_started, providers, readings).len(),
    ensures
        0 <= i < providers.len(),
        providers[i] == due_among(last_started, providers, readings)[k],
        is_due(last_started, providers[i], last_attempt(providers[i]), readings[i]),
    decreases providers.len(),
{
    let rest = providers.drop_last();
    let rest_readings = readings.drop_last();
    let rest_due = due_among(last_started, rest, rest_readings);
    if k < rest_due.len() {
        lemma_due_among_listed(last_started, rest, rest_readings, k)
    } else {
        providers.len() - 1
    }
}

proof fn lemma_due_distinctly_named(
    last_started: Map<Seq<char>, (i64, u128)>,
    providers: Seq<resource::InferenceProviderView>,
    readings: Seq<Moment>,
)
    requires
        providers.len() == readings.len(),
        distinctly_named(providers),
    ensures
        distinctly_named(due_among(last_started, providers, readings)),
    decreases providers.len(),
{
    if providers.len() > 0 {
        let rest = providers.drop_last();
        let rest_readings = readings.drop_last();
        let due = due_among(last_started, providers, readings);
        let rest_due = due_among(last_started, rest, rest_readings);
        lemma_rest_distinctly_named(providers);
        lemma_due_distinctly_named(last_started, rest, rest_readings);
        if due.len() > rest_due.len() {
            let last = providers.len() - 1;
            assert forall|a: int| 0 <= a < due.len() implies #[trigger] due[a].metadata.name is Some by {
                if a < rest_due.len() {
                    assert(due[a] == rest_due[a]);
                } else {
                    assert(due[a] == providers[last]);
                }
            }
            assert forall|a: int, b: int| 0 <= a < b < due.len() implies (
            #[trigger] due[a]).metadata.name != (#[trigger] due[b]).metadata.name by {
                assert(due[a] == rest_due[a]);
                if b < rest_due.len() {
                    assert(due[b] == rest_due[b]);
                } else {
                    let i = lemma_due_among_listed(last_started, rest, rest_readings, a);
                    assert(providers[i] == rest[i]);
                    assert(due[b] == providers[last]);
                    assert(providers[i].metadata.name != providers[last].metadata.name);
                }
            }
        }
    }
}

proof fn lemma_rest_distinctly_named(providers: Seq<resource::InferenceProviderView>)
    requires
        distinctly_named(providers),
        providers.len() > 0,
    ensures
        distinctly_named(providers.drop_last()),
{
    let rest = providers.drop_last();
    assert forall|a: int| 0 <= a < rest.len() implies #[trigger] rest[a].metadata.name is Some by {
        assert(rest[a] == providers[a]);
    }
    assert forall|a: int, b: int| 0 <= a < b < rest.len() implies (
    #[trigger] rest[a]).metadata.name != (#[trigger] rest[b]).metadata.name by {
        assert(rest[a] == providers[a] && rest[b] == providers[b]);
    }
}

proof fn lemma_with_starts_domain(
    last_started: Map<Seq<char>, (i64, u128)>,
    due: Seq<resource::InferenceProviderView>,
    started: u128,
    name: Seq<char>,
)
    requires
        with_starts(last_started, due, started).dom().contains(name),
    ensures
        last_started.dom().contains(name) || exists|k: int|
            0 <= k < due.len() && (#[trigger] due[k]).metadata.name == Some(name),
    decreases due.len(),
{
    if due.len() > 0 {
        let rest = due.drop_last();
        if due.last().metadata.name == Some(name) {
            assert(due[due.len() - 1].metadata.name == Some(name));
        } else {
            lemma_with_starts_domain(last_started, rest, started, name);
            if !last_started.dom().contains(name) {
                let k = choose|k: int|
                    0 <= k < rest.len() && (#[trigger] rest[k]).metadata.name == Some(name);
                assert(due[k] == rest[k]);
            }
        }
    }
}

proof fn lemma_round_keeps_consistency(
    poller: PollerView,
    in_order: Seq<resource::InferenceProviderView>,
    readings: Seq<Moment>,
    started: u128,
)
    requires
        poller.is_consistent(),
        in_order.len() == readings.len(),
        forall|i: int|
            0 <= i < in_order.len() ==> (#[trigger] in_order[i].metadata.name matches Some(name)
                && poller.providers.dom().contains(name)),
    ensures
        with_starts(
            poller.last_started,
            due_among(poller.last_started, in_order, readings),
            started,
        ).dom().subset_of(poller.providers.dom()),
{
    let due = due_among(poller.last_started, in_order, readings);
    let starts = with_starts(poller.last_started, due, started);
    assert forall|name: Seq<char>| starts.dom().contains(name) implies poller.providers.dom().contains(
        name,
    ) by {
        lemma_with_starts_domain(poller.last_started, due, started, name);
        if !poller.last_started.dom().contains(name) {
            let k = choose|k: int|
                0 <= k < due.len() && (#[trigger] due[k]).metadata.name == Some(name);
            let i = lemma_due_among_listed(poller.last_started, in_order, readings, k);
            assert(in_order[i].metadata.name == Some(name));
        }
    }
}

/// A provider without a name or without discovery is never due.
pub proof fn law_only_configured_providers_are_due(
    last_started: Map<Seq<char>, (i64, u128)>,
    provider: resource::InferenceProviderView,
    attempt: Option<i128>,
    moment: Moment,
)
    ensures
        is_due(last_started, provider, attempt, moment) ==> provider.metadata.name is Some
            && provider.spec.model_discovery is Some,
{
}

/// A failed poll keeps the models and the time of the last success, and does
/// not turn into an empty model set.
pub proof fn law_failed_poll_keeps_models(
    previous: resource::ModelDiscoveryStatusView,
    reason: Seq<char>,
    attempt_time: Option<Seq<char>>,
    success_time: Option<Seq<char>>,
)
    ensures
        ({
            let status = polled_status(
                Some(previous),
                previous.observed_generation,
                Err(reason),
                attempt_time,
                success_time,
            );
            &&& status.models == previous.models
            &&& status.last_successful_time == previous.last_successful_time
            &&& status.last_failure_reason == Some(reason)
            &&& status.last_attempt_time == attempt_time
        }),
{
}

/// What was observed of another generation of the spec is forgotten.
pub proof fn law_new_generation_forgets_models(
    previous: resource::ModelDiscoveryStatusView,
    generation: i64,
    observation: Result<Seq<Seq<char>>, Seq<char>>,
    attempt_time: Option<Seq<char>>,
    success_time: Option<Seq<char>>,
)
    requires
        previous.observed_generation != generation,
    ensures
        polled_status(Some(previous), generation, observation, attempt_time, success_time)
            == polled_status(None, generation, observation, attempt_time, success_time),
        observation is Err ==> {
            let status = polled_status(
                Some(previous),
                generation,
                observation,
                attempt_time,
                success_time,
            );
            status.models.len() == 0 && status.last_successful_time is None
        },
{
}

/// A successful poll replaces the models, even by none, and clears the failure.
pub proof fn law_successful_poll_replaces_models(
    previous: Option<resource::ModelDiscoveryStatusView>,
    generation: i64,
    models: Seq<Seq<char>>,
    attempt_time: Option<Seq<char>>,
    success_time: Option<Seq<char>>,
)
    ensures
        ({
            let status = polled_status(
                previous,
                generation,
                Ok(models),
                attempt_time,
                success_time,
            );
            &&& status.models == models
            &&& status.observed_generation == generation
            &&& status.last_failure_reason is None
            &&& status.last_successful_time == success_time
        }),
{
}

/// The patch of a poll and the patch of a reconciliation do not get in each
/// other's way: while discovery is configured, they may be applied in either
/// order.
pub proof fn law_patches_commute(
    patch: status::StatusPatchView,
    discovery: DiscoveryPatchView,
    current: resource::InferenceProviderStatusView,
)
    requires
        !patch.clear_model_discovery,
    ensures
        patch.applied_to(Some(discovery.applied_to(current))) == discovery.applied_to(
            patch.applied_to(Some(current)),
        ),
{
}

/// A poll whose result is in the status is not repeated until its interval is
/// over, even by a poller that has no record of it.
pub proof fn law_recorded_attempt_is_not_repeated(
    last_started: Map<Seq<char>, (i64, u128)>,
    provider: resource::InferenceProviderView,
    config: resource::ModelDiscoveryConfigView,
    previous: Option<resource::ModelDiscoveryStatusView>,
    observation: Result<Seq<Seq<char>>, Seq<char>>,
    attempted: i128,
    succeeded: i128,
    moment: Moment,
)
    requires
        provider.spec.model_discovery == Some(config),
        provider.discovery() matches Some(status) && is_polled_at(
            status,
            previous,
            provider.generation(),
            observation,
            attempted,
            succeeded,
        ),
        clock::rfc3339_text(attempted) is Some,
        is_recent_attempt(moment.utc_nanos, attempted, config.interval_seconds),
    ensures
        !is_due(last_started, provider, last_attempt(provider), moment),
{
}

/// A new generation of the spec is due at once: attempts at another generation
/// do not count.
pub proof fn law_new_generation_is_due(
    last_started: Map<Seq<char>, (i64, u128)>,
    provider: resource::InferenceProviderView,
    name: Seq<char>,
    moment: Moment,
)
    requires
        provider.metadata.name == Some(name),
        provider.spec.model_discovery is Some,
        provider.discovery() matches Some(status) ==> status.observed_generation
            != provider.generation(),
        last_started.dom().contains(name) ==> last_started[name].0 != provider.generation(),
    ensures
        is_due(last_started, provider, last_attempt(provider), moment),
{
}

/// Names in a list of providers, each of which occurs once.
pub open spec fn distinctly_named(providers: Seq<resource::InferenceProviderView>) -> bool {
    &&& forall|i: int| 0 <= i < providers.len() ==> #[trigger] providers[i].metadata.name is Some
    &&& forall|i: int, j: int|
        0 <= i < j < providers.len() ==> (#[trigger] providers[i]).metadata.name != (
        #[trigger] providers[j]).metadata.name
}

/// A provider that a round started is not due again until its interval is over,
/// whatever its status shows by then.
pub proof fn law_started_provider_is_not_repeated(
    last_started: Map<Seq<char>, (i64, u128)>,
    due: Seq<resource::InferenceProviderView>,
    started: u128,
    i: int,
    status: Option<resource::InferenceProviderStatusView>,
    moment: Moment,
)
    requires
        distinctly_named(due),
        0 <= i < due.len(),
        due[i].spec.model_discovery matches Some(config) && is_recent_start(
            moment.monotonic_nanos,
            started,
            config.interval_seconds,
        ),
    ensures
        ({
            let later = resource::InferenceProviderView { status, ..due[i] };
            !is_due(with_starts(last_started, due, started), later, last_attempt(later), moment)
        }),
{
    lemma_start_is_recorded(last_started, due, started, i);
}

/// A second round that follows before the interval of any provider is over
/// starts none that the first one started.
pub proof fn law_rounds_do_not_repeat(
    before: PollerView,
    in_order: Seq<resource::InferenceProviderView>,
    started: u128,
    readings: Seq<Moment>,
    between: PollerView,
    due: Seq<resource::InferenceProviderView>,
    started_again: u128,
    later_readings: Seq<Moment>,
    after: PollerView,
    due_again: Seq<resource::InferenceProviderView>,
)
    requires
        distinctly_named(in_order),
        is_round(before, in_order, started, readings, between, due),
        is_round(between, in_order, started_again, later_readings, after, due_again),
        forall|i: int|
            0 <= i < in_order.len() ==> (
            #[trigger] in_order[i].spec.model_discovery matches Some(config) ==> is_recent_start(
                later_readings[i].monotonic_nanos,
                started,
                config.interval_seconds,
            )),
    ensures
        forall|k: int| 0 <= k < due.len() ==> !due_again.contains(#[trigger] due[k]),
{
    if before.initializing is None {
        lemma_due_distinctly_named(before.last_started, in_order, readings);
        assert forall|k: int| 0 <= k < due.len() implies !due_again.contains(#[trigger] due[k]) by {
            if due_again.contains(due[k]) {
                let m = choose|m: int| 0 <= m < due_again.len() && due_again[m] == due[k];
                let i = lemma_due_among_listed(
                    between.last_started,
                    in_order,
                    later_readings,
                    m,
                );
                assert(in_order[i] == due[k]);
                assert(in_order[i].spec.model_discovery is Some);
                law_started_provider_is_not_repeated(
                    before.last_started,
                    due,
                    started,
                    k,
                    due[k].status,
                    later_readings[i],
                );
            }
        }
    }
}

proof fn lemma_start_is_recorded(
    last_started: Map<Seq<char>, (i64, u128)>,
    due: Seq<resource::InferenceProviderView>,
    started: u128,
    i: int,
)
    requires
        distinctly_named(due),
        0 <= i < due.len(),
    ensures
        due[i].metadata.name matches Some(name) && with_starts(
            last_started,
            due,
            started,
        ).dom().contains(name) && with_starts(last_started, due, started)[name] == (
            due[i].generation(),
            started,
        ),
    decreases due.len(),
{
    let rest = due.drop_last();
    if i < rest.len() {
        assert(rest[i] == due[i]);
        lemma_rest_distinctly_named(due);
        lemma_start_is_recorded(last_started, rest, started, i);
        assert(due[i].metadata.name != due[due.len() - 1].metadata.name);
    } else {
        assert(due[i] == due.last());
        assert(due.last().metadata.name is Some);
    }
}

/// A deleted provider is in neither the snapshot nor the record of starts.
pub proof fn law_deleted_provider_is_forgotten(
    poller: PollerView,
    provider: resource::InferenceProviderView,
    name: Seq<char>,
)
    requires
        provider.metadata.name == Some(name),
    ensures
        ({
            let after = watched(poller, WatchEventView::Delete(provider));
            !after.providers.dom().contains(name) && !after.last_started.dom().contains(name)
        }),
{
}

/// The poller after a series of events.
pub open spec fn watched_all(poller: PollerView, events: Seq<WatchEventView>) -> PollerView
    decreases events.len(),
{
    if events.len() == 0 {
        poller
    } else {
        watched(watched_all(poller, events.drop_last()), events.last())
    }
}

/// The providers of a list by name; of two with the same name, the later one.
pub open spec fn snapshot(
    listed: Seq<resource::InferenceProviderView>,
) -> Map<Seq<char>, resource::InferenceProviderView>
    decreases listed.len(),
{
    if listed.len() == 0 {
        Map::empty()
    } else {
        let before = snapshot(listed.drop_last());
        match listed.last().metadata.name {
            Some(name) => before.insert(name, listed.last()),
            None => before,
        }
    }
}

/// The events by which a watch hands out a complete list.
pub open spec fn listing(listed: Seq<resource::InferenceProviderView>) -> Seq<WatchEventView> {
    seq![WatchEventView::Init] + Seq::new(
        listed.len(),
        |i: int| WatchEventView::InitApply(listed[i]),
    )
}

/// A complete list replaces the snapshot: providers that it lacks are gone,
/// starts are kept for the providers in it only, and until it is complete the
/// snapshot stays as it was.
pub proof fn law_complete_list_replaces_snapshot(
    poller: PollerView,
    listed: Seq<resource::InferenceProviderView>,
)
    ensures
        watched_all(poller, listing(listed)) == (PollerView {
            initializing: Some(snapshot(listed)),
            ..poller
        }),
        watched_all(poller, listing(listed).push(WatchEventView::InitDone)) == (PollerView {
            providers: snapshot(listed),
            initializing: None,
            last_started: poller.last_started.restrict(snapshot(listed).dom()),
        }),
    decreases listed.len(),
{
    let events = listing(listed);
    assert(events.push(WatchEventView::InitDone).drop_last() =~= events);
    if listed.len() == 0 {
        assert(events.drop_last() =~= Seq::empty());
        reveal_with_fuel(watched_all, 2);
    } else {
        let rest = listed.drop_last();
        law_complete_list_replaces_snapshot(poller, rest);
        assert(events.drop_last() =~= listing(rest));
        assert(events.last() == WatchEventView::InitApply(listed.last()));
    }
}

/// A named provider with discovery is due exactly if neither an attempt lies
/// within the interval, in seconds, before now, nor a start that is recorded for
/// its generation. Nothing else of it counts.
pub proof fn law_due_once_the_interval_is_over(
    last_started: Map<Seq<char>, (i64, u128)>,
    provider: resource::InferenceProviderView,
    name: Seq<char>,
    config: resource::ModelDiscoveryConfigView,
    attempt: Option<i128>,
    moment: Moment,
)
    requires
        provider.metadata.name == Some(name),
        provider.spec.model_discovery == Some(config),
    ensures
        ({
            let interval = config.interval_seconds * 1_000_000_000;
            let generation: i64 = match provider.metadata.generation {
                Some(generation) => generation,
                None => 0,
            };
            let attempted = attempt is Some && 0 < moment.utc_nanos - attempt->0 < interval;
            let started = last_started.dom().contains(name) && last_started[name].0 == generation
                && interval > 0 && moment.monotonic_nanos - last_started[name].1 < interval;
            is_due(last_started, provider, attempt, moment) <==> !attempted && !started
        }),
{
}

/// The last attempt is the one that the status shows for the current
/// generation, whether it succeeded or failed and whatever models it found.
pub proof fn law_last_attempt_is_the_recorded_one(provider: resource::InferenceProviderView)
    ensures
        ({
            let generation: i64 = match provider.metadata.generation {
                Some(generation) => generation,
                None => 0,
            };
            match provider.status {
                Some(status) => match status.model_discovery {
                    Some(discovery) => match discovery.last_attempt_time {
                        Some(text) => if discovery.observed_generation == generation {
                            last_attempt(provider) == clock::rfc3339_nanos(text)
                        } else {
                            last_attempt(provider) is None
                        },
                        None => last_attempt(provider) is None,
                    },
                    None => last_attempt(provider) is None,
                },
                None => last_attempt(provider) is None,
            }
        }),
{
}

/// A provider is due again as soon as its interval is over since the attempt
/// that its status shows and since the start that the poller has recorded,
/// whatever else its status says.
pub proof fn law_provider_becomes_due_again(
    last_started: Map<Seq<char>, (i64, u128)>,
    provider: resource::InferenceProviderView,
    name: Seq<char>,
    config: resource::ModelDiscoveryConfigView,
    moment: Moment,
)
    requires
        provider.metadata.name == Some(name),
        provider.spec.model_discovery == Some(config),
        provider.status is Some && provider.status->0.model_discovery is Some
            && provider.status->0.model_discovery->0.last_attempt_time is Some
            && clock::rfc3339_nanos(
            provider.status->0.model_discovery->0.last_attempt_time->0,
        ) is Some ==> moment.utc_nanos - clock::rfc3339_nanos(
            provider.status->0.model_discovery->0.last_attempt_time->0,
        )->0 >= config.interval_seconds * 1_000_000_000,
        last_started.dom().contains(name) ==> moment.monotonic_nanos - last_started[name].1
            >= config.interval_seconds * 1_000_000_000,
    ensures
        is_due(last_started, provider, last_attempt(provider), moment),
{
}

/// A round takes the due providers, all of them and no others, in the order of
/// the list: the `k`-th of them stands at the place `at[k]`.
pub proof fn law_round_takes_exactly_the_due(
    last_started: Map<Seq<char>, (i64, u128)>,
    providers: Seq<resource::InferenceProviderView>,
    readings: Seq<Moment>,
) -> (at: Seq<int>)
    requires
        providers.len() == readings.len(),
    ensures
        at.len() == due_among(last_started, providers, readings).len(),
        forall|k: int|
            0 <= k < at.len() ==> 0 <= #[trigger] at[k] < providers.len() && is_due(
                last_started,
                providers[at[k]],
                last_attempt(providers[at[k]]),
                readings[at[k]],
            ) && due_among(last_started, providers, readings)[k] == providers[at[k]],
        forall|j: int, k: int| 0 <= j < k < at.len() ==> #[trigger] at[j] < #[trigger] at[k],
        forall|i: int|
            0 <= i < providers.len() && #[trigger] is_due(
                last_started,
                providers[i],
                last_attempt(providers[i]),
                readings[i],
            ) ==> at.contains(i),
    decreases providers.len(),
{
    if providers.len() == 0 {
        Seq::empty()
    } else {
        let last = providers.len() - 1;
        let rest = providers.drop_last();
        let rest_readings = readings.drop_last();
        let before = law_round_takes_exactly_the_due(last_started, rest, rest_readings);
        let taken = is_due(
            last_started,
            providers[last],
            last_attempt(providers[last]),
            readings[last],
        );
        let at = if taken {
            before.push(last)
        } else {
            before
        };
        assert forall|i: int|
            0 <= i < providers.len() && #[trigger] is_due(
                last_started,
                providers[i],
                last_attempt(providers[i]),
                readings[i],
            ) implies at.contains(i) by {
            if i < last {
                assert(is_due(last_started, rest[i], last_attempt(rest[i]), rest_readings[i]));
                let k = choose|k: int| 0 <= k < before.len() && before[k] == i;
                assert(at[k] == i);
            } else {
                assert(at[at.len() - 1] == i);
            }
        }
        at
    }
}

/// A round records the start of every provider that it takes, for its
/// generation, and leaves the starts of all others as they were.
pub proof fn law_round_records_its_starts(
    last_started: Map<Seq<char>, (i64, u128)>,
    due: Seq<resource::InferenceProviderView>,
    started: u128,
    name: Seq<char>,
)
    requires
        distinctly_named(due),
    ensures
        ({
            let after = with_starts(last_started, due, started);
            &&& forall|k: int|
                0 <= k < due.len() && (#[trigger] due[k]).metadata.name == Some(name)
                    ==> after.dom().contains(name) && after[name] == (
                    match due[k].metadata.generation {
                        Some(generation) => generation,
                        None => 0,
                    },
                    started,
                )
            &&& (forall|k: int|
                0 <= k < due.len() ==> (#[trigger] due[k]).metadata.name != Some(name)) ==> {
                &&& after.dom().contains(name) <==> last_started.dom().contains(name)
                &&& last_started.dom().contains(name) ==> after[name] == last_started[name]
            }
        }),
    decreases due.len(),
{
    assert forall|k: int|
        0 <= k < due.len() && (#[trigger] due[k]).metadata.name == Some(name) implies with_starts(
        last_started,
        due,
        started,
    ).dom().contains(name) && with_starts(last_started, due, started)[name] == (
        match due[k].metadata.generation {
            Some(generation) => generation,
            None => 0,
        },
        started,
    ) by {
        lemma_start_is_recorded(last_started, due, started, k);
    }
    if due.len() > 0 && (forall|k: int|
        0 <= k < due.len() ==> (#[trigger] due[k]).metadata.name != Some(name)) {
        let rest = due.drop_last();
        lemma_rest_distinctly_named(due);
        assert forall|k: int| 0 <= k < rest.len() implies (#[trigger] rest[k]).metadata.name
            != Some(name) by {
            assert(rest[k] == due[k]);
        }
        assert(due[due.len() - 1].metadata.name != Some(name));
        law_round_records_its_starts(last_started, rest, started, name);
    }
}

/// While a list is being built a round does nothing. Otherwise it takes the due
/// providers and changes nothing but the record of starts.
pub proof fn law_round_changes_only_the_starts(
    before: PollerView,
    in_order: Seq<resource::InferenceProviderView>,
    started: u128,
    readings: Seq<Moment>,
    after: PollerView,
    due: Seq<resource::InferenceProviderView>,
)
    requires
        is_round(before, in_order, started, readings, after, due),
    ensures
        after.providers == before.providers,
        after.initializing == before.initializing,
        before.initializing is Some ==> due.len() == 0 && after.last_started
            == before.last_started,
        before.initializing is None ==> {
            &&& readings.len() == in_order.len()
            &&& due == due_among(before.last_started, in_order, readings)
            &&& after.last_started == with_starts(before.last_started, due, started)
        },
{
}

/// Outside of the building of a list, a round takes every provider of the
/// snapshot that is due, each with the reading of its own place.
pub proof fn law_round_misses_no_due_provider(
    before: PollerView,
    in_order: Seq<resource::InferenceProviderView>,
    started: u128,
    readings: Seq<Moment>,
    after: PollerView,
    due: Seq<resource::InferenceProviderView>,
    i: int,
)
    requires
        is_round(before, in_order, started, readings, after, due),
        before.initializing is None,
        0 <= i < in_order.len(),
        is_due(before.last_started, in_order[i], last_attempt(in_order[i]), readings[i]),
    ensures
        due.contains(in_order[i]),
{
    let at = law_round_takes_exactly_the_due(before.last_started, in_order, readings);
    let k = choose|k: int| 0 <= k < at.len() && at[k] == i;
    assert(due[k] == in_order[i]);
}

/// An added or modified provider stands in the snapshot under its name, and
/// nothing else changes.
pub proof fn law_applied_provider_is_in_the_snapshot(
    poller: PollerView,
    provider: resource::InferenceProviderView,
    name: Seq<char>,
    other: Seq<char>,
)
    requires
        provider.metadata.name == Some(name),
        other != name,
    ensures
        ({
            let after = watched(poller, WatchEventView::Apply(provider));
            &&& after.providers.dom().contains(name) && after.providers[name] == provider
            &&& after.providers.dom().contains(other) <==> poller.providers.dom().contains(other)
            &&& poller.providers.dom().contains(other) ==> after.providers[other]
                == poller.providers[other]
            &&& after.initializing == poller.initializing
            &&& after.last_started == poller.last_started
        }),
{
}

/// The deletion of a provider touches no other one.
pub proof fn law_deletion_touches_no_other_provider(
    poller: PollerView,
    provider: resource::InferenceProviderView,
    name: Seq<char>,
    other: Seq<char>,
)
    requires
        provider.metadata.name == Some(name),
        other != name,
    ensures
        ({
            let after = watched(poller, WatchEventView::Delete(provider));
            &&& !after.providers.dom().contains(name) && !after.last_started.dom().contains(name)
            &&& after.providers.dom().contains(other) <==> poller.providers.dom().contains(other)
            &&& poller.providers.dom().contains(other) ==> after.providers[other]
                == poller.providers[other]
            &&& after.last_started.dom().contains(other) <==> poller.last_started.dom().contains(
                other,
            )
            &&& poller.last_started.dom().contains(other) ==> after.last_started[other]
                == poller.last_started[other]
            &&& after.initializing == poller.initializing
        }),
{
}

/// A list is built beside the snapshot, provider by provider, from an empty one.
pub proof fn law_list_is_built_beside_the_snapshot(
    poller: PollerView,
    pending: Map<Seq<char>, resource::InferenceProviderView>,
    provider: resource::InferenceProviderView,
    name: Seq<char>,
    other: Seq<char>,
)
    requires
        provider.metadata.name == Some(name),
        other != name,
    ensures
        ({
            let begun = watched(poller, WatchEventView::Init);
            let building = PollerView { initializing: Some(pending), ..poller };
            let added = watched(building, WatchEventView::InitApply(provider));
            &&& begun.initializing is Some && !begun.initializing->0.dom().contains(other)
            &&& begun.providers == poller.providers && begun.last_started == poller.last_started
            &&& added.providers == poller.providers && added.last_started == poller.last_started
            &&& added.initializing is Some
            &&& added.initializing->0.dom().contains(name) && added.initializing->0[name]
                == provider
            &&& added.initializing->0.dom().contains(other) <==> pending.dom().contains(other)
            &&& pending.dom().contains(other) ==> added.initializing->0[other] == pending[other]
        }),
{
}

/// A complete list becomes the snapshot as it is. Of the starts, those of its
/// providers stay.
pub proof fn law_complete_list_keeps_the_starts_of_its_providers(
    poller: PollerView,
    pending: Map<Seq<char>, resource::InferenceProviderView>,
    name: Seq<char>,
)
    requires
        poller.initializing == Some(pending),
    ensures
        ({
            let after = watched(poller, WatchEventView::InitDone);
            &&& after.providers == pending
            &&& after.initializing is None
            &&& after.last_started.dom().contains(name) <==> poller.last_started.dom().contains(
                name,
            ) && pending.dom().contains(name)
            &&& after.last_started.dom().contains(name) ==> after.last_started[name]
                == poller.last_started[name]
        }),
{
}

/// A provider without a name, and a part of a list that no watch has begun,
/// change nothing.
pub proof fn law_other_events_change_nothing(
    poller: PollerView,
    provider: resource::InferenceProviderView,
)
    ensures
        provider.metadata.name is None ==> {
            &&& watched(poller, WatchEventView::InitApply(provider)) == poller
            &&& watched(poller, WatchEventView::Apply(provider)) == poller
            &&& watched(poller, WatchEventView::Delete(provider)) == poller
        },
        poller.initializing is None ==> {
            &&& watched(poller, WatchEventView::InitApply(provider)) == poller
            &&& watched(poller, WatchEventView::InitDone) == poller
        },
{
}

/// In a consistent poller every provider stands under its own name, and starts
/// are recorded of providers in the snapshot only.
pub proof fn law_consistent_poller_names_its_providers(poller: PollerView, name: Seq<char>)
    requires
        poller.is_consistent(),
    ensures
        poller.providers.dom().contains(name) ==> poller.providers[name].metadata.name == Some(
            name,
        ),
        poller.initializing is Some && poller.initializing->0.dom().contains(name)
            ==> poller.initializing->0[name].metadata.name == Some(name),
        poller.last_started.dom().contains(name) ==> poller.providers.dom().contains(name),
{
}

/// No name occurs twice in a list of distinctly named providers.
pub proof fn law_distinct_names_differ(
    providers: Seq<resource::InferenceProviderView>,
    i: int,
    j: int,
)
    requires
        distinctly_named(providers),
        0 <= i < providers.len(),
        0 <= j < providers.len(),
    ensures
        providers[i].metadata.name is Some,
        providers[i].metadata.name == providers[j].metadata.name ==> i == j,
{
    if i < j {
        assert(providers[i].metadata.name != providers[j].metadata.name);
    } else if j < i {
        assert(providers[j].metadata.name != providers[i].metadata.name);
    }
}

/// The view of a poller shows its snapshot, the list that is being built and its
/// starts.
pub proof fn law_poller_view_shows_its_parts(poller: ModelDiscoveryPoller, name: Seq<char>)
    ensures
        poller@.providers.dom().contains(name) <==> poller.providers@.dom().contains(name),
        poller.providers@.dom().contains(name) ==> poller@.providers[name]
            == poller.providers@[name]@,
        poller@.initializing is Some <==> poller.initializing is Some,
        poller.initializing is Some ==> {
            &&& poller@.initializing->0.dom().contains(name)
                <==> poller.initializing->0@.dom().contains(name)
            &&& poller.initializing->0@.dom().contains(name) ==> poller@.initializing->0[name]
                == poller.initializing->0@[name]@
        },
        poller@.last_started == poller.last_started@,
{
}

/// A list of providers is shown in its order.
pub proof fn law_providers_are_shown_in_place(providers: Seq<InferenceProvider>, i: int)
    requires
        0 <= i < providers.len(),
    ensures
        provider_views(providers).len() == providers.len(),
        provider_views(providers)[i] == providers[i]@,
{
}

/// What a poll leaves in the status. Its generation and the time of the attempt
/// are always those of the poll. A success brings the models and the time of
/// the success. A failure brings its reason and keeps what was observed before
/// of the same generation, or nothing if there is nothing of it.
pub proof fn law_poll_leaves_its_result(
    previous: Option<resource::ModelDiscoveryStatusView>,
    generation: i64,
    observation: Result<Seq<Seq<char>>, Seq<char>>,
    attempt_time: Option<Seq<char>>,
    success_time: Option<Seq<char>>,
)
    ensures
        ({
            let status = polled_status(
                previous,
                generation,
                observation,
                attempt_time,
                success_time,
            );
            let kept = previous is Some && previous->0.observed_generation == generation;
            &&& status.observed_generation == generation
            &&& status.last_attempt_time == attempt_time
            &&& observation is Ok ==> {
                &&& status.models == observation->Ok_0
                &&& status.last_successful_time == success_time
                &&& status.last_failure_reason is None
            }
            &&& observation is Err ==> {
                &&& status.last_failure_reason == Some(observation->Err_0)
                &&& kept ==> status.models == previous->0.models && status.last_successful_time
                    == previous->0.last_successful_time
                &&& !kept ==> status.models.len() == 0 && status.last_successful_time is None
            }
        }),
{
}

/// The times in a poll's result are the texts of the readings of the clock.
pub proof fn law_poll_shows_the_time_of_the_attempt(
    status: resource::ModelDiscoveryStatusView,
    previous: Option<resource::ModelDiscoveryStatusView>,
    generation: i64,
    observation: Result<Seq<Seq<char>>, Seq<char>>,
    attempted: i128,
    succeeded: i128,
)
    requires
        is_polled_at(status, previous, generation, observation, attempted, succeeded),
    ensures
        status.observed_generation == generation,
        status.last_attempt_time == clock::rfc3339_text(attempted),
        status.last_attempt_time is Some ==> clock::rfc3339_nanos(status.last_attempt_time->0)
            == Some(attempted),
        observation is Ok ==> status.models == observation->Ok_0 && status.last_successful_time
            == clock::rfc3339_text(succeeded) && status.last_failure_reason is None,
        observation is Err ==> status.last_failure_reason == Some(observation->Err_0),
{
}

/// There is a patch exactly for a named provider with discovery. It names the
/// provider and the version that was polled, and writes the result.
pub proof fn law_poll_is_recorded_for_configured_providers(
    patch: Option<DiscoveryPatch>,
    provider: resource::InferenceProviderView,
    discovery: resource::ModelDiscoveryStatusView,
)
    requires
        is_patch_of(patch, provider, discovery),
    ensures
        patch is Some <==> provider.metadata.name is Some && provider.spec.model_discovery is Some,
        patch is Some ==> {
            &&& provider.metadata.name == Some(patch->0.name@)
            &&& provider.metadata.resource_version == resource::optional_text(
                patch->0.resource_version,
            )
            &&& patch->0.discovery@ == discovery
        },
{
}

/// A patch of the discovery result replaces it and leaves the rest of the status
/// as it is.
pub proof fn law_discovery_patch_leaves_the_rest(
    patch: DiscoveryPatchView,
    current: resource::InferenceProviderStatusView,
)
    ensures
        patch.applied_to(current).model_discovery == Some(patch.discovery),
        patch.applied_to(current) == (resource::InferenceProviderStatusView {
            model_discovery: Some(patch.discovery),
            ..current
        }),
{
}

/// The view of a patch shows its fields, and the previous result is shown where
/// there is one.
pub proof fn law_discovery_patch_is_shown_in_full(
    patch: DiscoveryPatch,
    previous: Option<&ModelDiscoveryStatus>,
)
    ensures
        patch@.name == patch.name@,
        patch@.resource_version == resource::optional_text(patch.resource_version),
        patch@.discovery == patch.discovery@,
        borrowed_discovery(previous) is Some <==> previous is Some,
        previous is Some ==> borrowed_discovery(previous)->0 == previous->0@,
{
}

} // verus!
