//! The resources that the operator reads and the status that it writes.
//!
//! Each type holds the fields that decisions are made on. Its view gives the
//! same fields with texts as character sequences, lists as sequences and label
//! sets as maps.

use crate::name_map::NameMap;
use crate::ordering::{self, same_text};
use vstd::prelude::*;
use vstd::string::*;

verus! {

/// The text of an optional string.
pub open spec fn optional_text(s: Option<String>) -> Option<Seq<char>> {
    match s {
        Some(s) => Some(s@),
        None => None,
    }
}

/// The texts of a map of labels.
pub open spec fn label_texts(labels: Map<Seq<char>, String>) -> Map<Seq<char>, Seq<char>> {
    labels.map_values(|value: String| value@)
}

/// Copy an optional string.
pub(crate) fn clone_optional_text(s: &Option<String>) -> (res: Option<String>)
    ensures
        res == *s,
{
    match s {
        Some(s) => Some(s.clone()),
        None => None,
    }
}

/// Copy a list of strings.
pub(crate) fn clone_texts(names: &Vec<String>) -> (res: Vec<String>)
    ensures
        ordering::texts(res@) == ordering::texts(names@),
{
    let mut res: Vec<String> = Vec::new();
    let mut i: usize = 0;
    while i < names.len()
        invariant
            i <= names@.len(),
            res@.len() == i,
            forall|k: int| 0 <= k < i ==> (#[trigger] res@[k])@ == names@[k]@,
        decreases names@.len() - i,
    {
        res.push(names[i].clone());
        i = i + 1;
    }
    assert(ordering::texts(res@) =~= ordering::texts(names@));
    res
}

/// Whether two optional strings hold the same text.
pub(crate) fn same_optional_text(a: &Option<String>, b: &Option<String>) -> (res: bool)
    ensures
        res == (optional_text(*a) == optional_text(*b)),
{
    match (a, b) {
        (Some(x), Some(y)) => same_text(x.as_str(), y.as_str()),
        (None, None) => true,
        _ => false,
    }
}

/// Whether two lists of strings hold the same texts in the same places.
pub(crate) fn same_texts(a: &Vec<String>, b: &Vec<String>) -> (res: bool)
    ensures
        res == (ordering::texts(a@) == ordering::texts(b@)),
{
    if a.len() != b.len() {
        assert(ordering::texts(a@).len() != ordering::texts(b@).len());
        return false;
    }
    let mut i: usize = 0;
    while i < a.len()
        invariant
            a@.len() == b@.len(),
            i <= a@.len(),
            forall|k: int| 0 <= k < i ==> (#[trigger] a@[k])@ == b@[k]@,
        decreases a@.len() - i,
    {
        if !same_text(a[i].as_str(), b[i].as_str()) {
            assert(ordering::texts(a@)[i as int] != ordering::texts(b@)[i as int]);
            return false;
        }
        i = i + 1;
    }
    assert(ordering::texts(a@) =~= ordering::texts(b@));
    true
}

/// Lifecycle phase of an inference provider.
#[derive(Clone, Copy, Debug, PartialEq, Eq, Structural)]
pub enum ProviderPhase {
    /// The configuration is valid and no site matches.
    Pending,
    /// The provider serves at least one site.
    Available,
    /// The provider is reachable but impaired.
    Degraded,
    /// The provider cannot be used.
    Unavailable,
}

/// Object metadata.
#[derive(Debug, PartialEq, Eq)]
pub struct ObjectMeta {
    /// Name of the object.
    pub name: Option<String>,
    /// Generation of the object's spec.
    pub generation: Option<i64>,
    /// Version of the object at the API server.
    pub resource_version: Option<String>,
    /// Labels of the object.
    pub labels: Option<NameMap<String>>,
}

/// View of [`ObjectMeta`].
#[verifier::ext_equal]
pub struct ObjectMetaView {
    pub name: Option<Seq<char>>,
    pub generation: Option<i64>,
    pub resource_version: Option<Seq<char>>,
    pub labels: Option<Map<Seq<char>, Seq<char>>>,
}

impl View for ObjectMeta {
    type V = ObjectMetaView;

    open spec fn view(&self) -> ObjectMetaView {
        ObjectMetaView {
            name: optional_text(self.name),
            generation: self.generation,
            resource_version: optional_text(self.resource_version),
            labels: match self.labels {
                Some(labels) => Some(label_texts(labels@)),
                None => None,
            },
        }
    }
}

/// Reference to a Secret.
#[derive(Debug, PartialEq, Eq)]
pub struct SecretRef {
    /// Name of the Secret.
    pub name: String,
    /// Namespace of the Secret.
    pub namespace: String,
}

/// Reference to a Secret that holds a client certificate.
#[derive(Debug, PartialEq, Eq)]
pub struct ClientCertificateSecretRef {
    /// Name of the Secret.
    pub name: String,
    /// Namespace of the Secret.
    pub namespace: String,
    /// Key of the certificate in the Secret.
    pub certificate_key: String,
    /// Key of the private key in the Secret.
    pub private_key_key: String,
}

/// TLS material for a connection to an endpoint.
#[derive(Debug, PartialEq, Eq)]
pub struct TlsConfig {
    /// Secret with the certificate authority.
    pub ca_secret_ref: SecretRef,
    /// Secret with the client certificate, for mutual TLS.
    pub client_certificate_secret_ref: Option<ClientCertificateSecretRef>,
}

/// Reference to one key of a Secret.
#[derive(Debug, PartialEq, Eq)]
pub struct SecretKeyRef {
    /// Name of the Secret.
    pub name: String,
    /// Namespace of the Secret.
    pub namespace: String,
    /// Key in the Secret.
    pub key: String,
}

/// How requests to a provider are authenticated.
#[derive(Debug, PartialEq, Eq)]
pub struct AuthConfig {
    /// Name of the authentication strategy.
    pub strategy: String,
    /// Secret key that holds the credential.
    pub secret_ref: Option<SecretKeyRef>,
}

/// Health check of a provider.
#[derive(Debug, PartialEq, Eq)]
pub struct HealthCheckConfig {
    /// Base URL to probe in place of the provider's endpoint.
    pub endpoint: Option<String>,
    /// Time between two checks.
    pub interval: Option<String>,
    /// Path to probe.
    pub path: Option<String>,
    /// Time after which a probe is given up.
    pub timeout: Option<String>,
    /// TLS material for the probe.
    pub tls: Option<TlsConfig>,
}

/// View of [`HealthCheckConfig`].
pub struct HealthCheckView {
    pub endpoint: Option<Seq<char>>,
    pub interval: Option<Seq<char>>,
    pub path: Option<Seq<char>>,
    pub timeout: Option<Seq<char>>,
    pub tls: Option<TlsConfig>,
}

impl View for HealthCheckConfig {
    type V = HealthCheckView;

    open spec fn view(&self) -> HealthCheckView {
        HealthCheckView {
            endpoint: optional_text(self.endpoint),
            interval: optional_text(self.interval),
            path: optional_text(self.path),
            timeout: optional_text(self.timeout),
            tls: self.tls,
        }
    }
}

/// Metrics collection from a provider.
#[derive(Debug, PartialEq, Eq)]
pub struct MetricsConfig {
    /// TLS material for the metrics endpoint.
    pub tls: Option<TlsConfig>,
}

/// Where served models are discovered.
#[derive(Clone, Copy, Debug, PartialEq, Eq, Structural)]
pub enum ModelDiscoverySource {
    /// The OpenAI-compatible model list.
    OpenAiModels,
}

/// Discovery of the models that a provider serves.
#[derive(Debug, PartialEq, Eq)]
pub struct ModelDiscoveryConfig {
    /// Where served models are discovered.
    pub source: ModelDiscoverySource,
    /// Base URL to ask in place of the provider's endpoint.
    pub endpoint: Option<String>,
    /// Time between two polls in seconds, with the default filled in.
    pub interval_seconds: u32,
    /// Time after which a poll is given up, in seconds.
    pub timeout_seconds: u32,
    /// TLS material for the poll.
    pub tls: Option<TlsConfig>,
}

/// View of [`ModelDiscoveryConfig`].
pub struct ModelDiscoveryConfigView {
    pub source: ModelDiscoverySource,
    pub endpoint: Option<Seq<char>>,
    pub interval_seconds: u32,
    pub timeout_seconds: u32,
    pub tls: Option<TlsConfig>,
}

impl View for ModelDiscoveryConfig {
    type V = ModelDiscoveryConfigView;

    open spec fn view(&self) -> ModelDiscoveryConfigView {
        ModelDiscoveryConfigView {
            source: self.source,
            endpoint: optional_text(self.endpoint),
            interval_seconds: self.interval_seconds,
            timeout_seconds: self.timeout_seconds,
            tls: self.tls,
        }
    }
}

/// A model that a provider serves.
#[derive(Debug, PartialEq, Eq)]
pub struct ModelInfo {
    /// Name of the model.
    pub name: String,
}

/// Selection of objects by label.
#[derive(Debug, PartialEq, Eq)]
pub struct SelectorConfig {
    /// Labels that a selected object has.
    pub match_labels: NameMap<String>,
}

/// Spec of an inference provider.
#[derive(Debug, PartialEq, Eq)]
pub struct InferenceProviderSpec {
    /// Name of the grid network that the provider belongs to.
    pub grid_network_ref: String,
    /// Authentication of requests to the provider.
    pub auth: Option<AuthConfig>,
    /// Base URL of the provider.
    pub endpoint: String,
    /// Health check of the provider.
    pub health_check: Option<HealthCheckConfig>,
    /// Models that the provider is declared to serve.
    pub models: Vec<ModelInfo>,
    /// Discovery of served models.
    pub model_discovery: Option<ModelDiscoveryConfig>,
    /// Metrics collection.
    pub metrics_config: Option<MetricsConfig>,
    /// Sites that the provider serves.
    pub site_selector: SelectorConfig,
}

/// View of [`InferenceProviderSpec`].
#[verifier::ext_equal]
pub struct InferenceProviderSpecView {
    pub grid_network_ref: Seq<char>,
    pub auth: Option<AuthConfig>,
    pub endpoint: Seq<char>,
    pub health_check: Option<HealthCheckView>,
    pub models: Seq<Seq<char>>,
    pub model_discovery: Option<ModelDiscoveryConfigView>,
    pub metrics_config: Option<MetricsConfig>,
    pub match_labels: Map<Seq<char>, Seq<char>>,
}

/// The names of a list of models.
pub open spec fn model_names(models: Seq<ModelInfo>) -> Seq<Seq<char>> {
    Seq::new(models.len(), |i: int| models[i].name@)
}

impl View for InferenceProviderSpec {
    type V = InferenceProviderSpecView;

    open spec fn view(&self) -> InferenceProviderSpecView {
        InferenceProviderSpecView {
            grid_network_ref: self.grid_network_ref@,
            auth: self.auth,
            endpoint: self.endpoint@,
            health_check: match self.health_check {
                Some(hc) => Some(hc@),
                None => None,
            },
            models: model_names(self.models@),
            model_discovery: match self.model_discovery {
                Some(config) => Some(config@),
                None => None,
            },
            metrics_config: self.metrics_config,
            match_labels: label_texts(self.site_selector.match_labels@),
        }
    }
}

/// Result of model discovery, as the provider's status shows it.
#[derive(Debug, PartialEq, Eq)]
pub struct ModelDiscoveryStatus {
    /// Models of the last successful poll.
    pub models: Vec<String>,
    /// Generation of the spec that was polled.
    pub observed_generation: i64,
    /// When the last poll was made.
    pub last_attempt_time: Option<String>,
    /// When the last successful poll was made.
    pub last_successful_time: Option<String>,
    /// Why the last poll failed, if it did.
    pub last_failure_reason: Option<String>,
}

/// View of [`ModelDiscoveryStatus`].
#[verifier::ext_equal]
pub struct ModelDiscoveryStatusView {
    pub models: Seq<Seq<char>>,
    pub observed_generation: i64,
    pub last_attempt_time: Option<Seq<char>>,
    pub last_successful_time: Option<Seq<char>>,
    pub last_failure_reason: Option<Seq<char>>,
}

impl View for ModelDiscoveryStatus {
    type V = ModelDiscoveryStatusView;

    open spec fn view(&self) -> ModelDiscoveryStatusView {
        ModelDiscoveryStatusView {
            models: ordering::texts(self.models@),
            observed_generation: self.observed_generation,
            last_attempt_time: optional_text(self.last_attempt_time),
            last_successful_time: optional_text(self.last_successful_time),
            last_failure_reason: optional_text(self.last_failure_reason),
        }
    }
}

/// Status of an inference provider.
#[derive(Debug, PartialEq, Eq)]
pub struct InferenceProviderStatus {
    /// Names of the sites that the provider serves, in order.
    pub matching_sites: Vec<String>,
    /// Generation of the spec that the status was made for.
    pub observed_generation: i64,
    /// Phase of the provider.
    pub phase: ProviderPhase,
    /// Why the provider is in its phase, where there is a reason to give.
    pub reason: Option<String>,
    /// Result of model discovery.
    pub model_discovery: Option<ModelDiscoveryStatus>,
}

/// View of [`InferenceProviderStatus`].
#[verifier::ext_equal]
pub struct InferenceProviderStatusView {
    pub matching_sites: Seq<Seq<char>>,
    pub observed_generation: i64,
    pub phase: ProviderPhase,
    pub reason: Option<Seq<char>>,
    pub model_discovery: Option<ModelDiscoveryStatusView>,
}

/// The view of an optional discovery status.
pub open spec fn optional_discovery(
    status: Option<ModelDiscoveryStatus>,
) -> Option<ModelDiscoveryStatusView> {
    match status {
        Some(status) => Some(status@),
        None => None,
    }
}

impl View for InferenceProviderStatus {
    type V = InferenceProviderStatusView;

    open spec fn view(&self) -> InferenceProviderStatusView {
        InferenceProviderStatusView {
            matching_sites: ordering::texts(self.matching_sites@),
            observed_generation: self.observed_generation,
            phase: self.phase,
            reason: optional_text(self.reason),
            model_discovery: optional_discovery(self.model_discovery),
        }
    }
}

/// An inference provider.
#[derive(Debug, PartialEq, Eq)]
pub struct InferenceProvider {
    /// Metadata of the provider.
    pub metadata: ObjectMeta,
    /// Desired configuration.
    pub spec: InferenceProviderSpec,
    /// Observed status.
    pub status: Option<InferenceProviderStatus>,
}

/// View of [`InferenceProvider`].
#[verifier::ext_equal]
pub struct InferenceProviderView {
    pub metadata: ObjectMetaView,
    pub spec: InferenceProviderSpecView,
    pub status: Option<InferenceProviderStatusView>,
}

/// The view of an optional provider status.
pub open spec fn optional_status(
    status: Option<InferenceProviderStatus>,
) -> Option<InferenceProviderStatusView> {
    match status {
        Some(status) => Some(status@),
        None => None,
    }
}

impl View for InferenceProvider {
    type V = InferenceProviderView;

    open spec fn view(&self) -> InferenceProviderView {
        InferenceProviderView {
            metadata: self.metadata@,
            spec: self.spec@,
            status: optional_status(self.status),
        }
    }
}

/// A site of a grid network.
#[derive(Debug, PartialEq, Eq)]
pub struct GridSite {
    /// Metadata of the site.
    pub metadata: ObjectMeta,
    /// Name of the grid network that the site belongs to.
    pub grid_network_ref: String,
}

/// View of [`GridSite`].
#[verifier::ext_equal]
pub struct GridSiteView {
    pub metadata: ObjectMetaView,
    pub grid_network_ref: Seq<char>,
}

impl View for GridSite {
    type V = GridSiteView;

    open spec fn view(&self) -> GridSiteView {
        GridSiteView { metadata: self.metadata@, grid_network_ref: self.grid_network_ref@ }
    }
}

/// The views of a list of sites.
pub open spec fn site_views(sites: Seq<GridSite>) -> Seq<GridSiteView> {
    Seq::new(sites.len(), |i: int| sites[i]@)
}

impl InferenceProviderSpecView {
    /// The TLS block of the health check.
    pub open spec fn health_tls(self) -> Option<TlsConfig> {
        match self.health_check {
            Some(hc) => hc.tls,
            None => None,
        }
    }

    /// The TLS block of metrics collection.
    pub open spec fn metrics_tls(self) -> Option<TlsConfig> {
        match self.metrics_config {
            Some(config) => config.tls,
            None => None,
        }
    }

    /// The TLS block of model discovery.
    pub open spec fn discovery_tls(self) -> Option<TlsConfig> {
        match self.model_discovery {
            Some(config) => config.tls,
            None => None,
        }
    }
}

impl InferenceProviderView {
    /// The generation of the spec, where 0 stands for none.
    pub open spec fn generation(self) -> i64 {
        match self.metadata.generation {
            Some(generation) => generation,
            None => 0,
        }
    }

    /// The discovery result in the provider's status.
    pub open spec fn discovery(self) -> Option<ModelDiscoveryStatusView> {
        match self.status {
            Some(status) => status.model_discovery,
            None => None,
        }
    }
}

impl InferenceProvider {
    /// The generation of the spec, where 0 stands for none.
    pub fn generation(&self) -> (res: i64)
        ensures
            res == self@.generation(),
    {
        match self.metadata.generation {
            Some(generation) => generation,
            None => 0,
        }
    }

    /// The grid network that the provider refers to.
    pub fn network_name(&self) -> (res: &str)
        ensures
            res@ == self@.spec.grid_network_ref,
    {
        self.spec.grid_network_ref.as_str()
    }

    /// The authentication of requests to the provider.
    pub fn auth(&self) -> (res: Option<&AuthConfig>)
        ensures
            match res {
                Some(auth) => self@.spec.auth == Some(*auth),
                None => self@.spec.auth is None,
            },
    {
        self.spec.auth.as_ref()
    }

    /// The TLS block of the health check.
    pub fn health_tls(&self) -> (res: Option<&TlsConfig>)
        ensures
            match res {
                Some(tls) => self@.spec.health_tls() == Some(*tls),
                None => self@.spec.health_tls() is None,
            },
    {
        match &self.spec.health_check {
            Some(hc) => hc.tls.as_ref(),
            None => None,
        }
    }

    /// The TLS block of metrics collection.
    pub fn metrics_tls(&self) -> (res: Option<&TlsConfig>)
        ensures
            match res {
                Some(tls) => self@.spec.metrics_tls() == Some(*tls),
                None => self@.spec.metrics_tls() is None,
            },
    {
        match &self.spec.metrics_config {
            Some(config) => config.tls.as_ref(),
            None => None,
        }
    }

    /// The TLS block of model discovery.
    pub fn discovery_tls(&self) -> (res: Option<&TlsConfig>)
        ensures
            match res {
                Some(tls) => self@.spec.discovery_tls() == Some(*tls),
                None => self@.spec.discovery_tls() is None,
            },
    {
        match &self.spec.model_discovery {
            Some(config) => config.tls.as_ref(),
            None => None,
        }
    }

    /// The discovery result in the provider's status.
    pub fn discovery(&self) -> (res: Option<&ModelDiscoveryStatus>)
        ensures
            match res {
                Some(status) => self@.discovery() == Some(status@),
                None => self@.discovery() is None,
            },
    {
        match &self.status {
            Some(status) => status.model_discovery.as_ref(),
            None => None,
        }
    }
}

fn clone_labels(labels: &NameMap<String>) -> (res: NameMap<String>)
    ensures
        res@ == labels@,
{
    let res = labels.clone();
    assert(res.values() =~= labels.values());
    res
}

impl Clone for ObjectMeta {
    fn clone(&self) -> (res: Self)
        ensures
            res@ == self@,
    {
        ObjectMeta {
            name: clone_optional_text(&self.name),
            generation: self.generation,
            resource_version: clone_optional_text(&self.resource_version),
            labels: match &self.labels {
                Some(labels) => Some(clone_labels(labels)),
                None => None,
            },
        }
    }
}

impl Clone for SecretRef {
    fn clone(&self) -> (res: Self)
        ensures
            res == *self,
    {
        SecretRef { name: self.name.clone(), namespace: self.namespace.clone() }
    }
}

impl Clone for ClientCertificateSecretRef {
    fn clone(&self) -> (res: Self)
        ensures
            res == *self,
    {
        ClientCertificateSecretRef {
            name: self.name.clone(),
            namespace: self.namespace.clone(),
            certificate_key: self.certificate_key.clone(),
            private_key_key: self.private_key_key.clone(),
        }
    }
}

impl Clone for TlsConfig {
    fn clone(&self) -> (res: Self)
        ensures
            res == *self,
    {
        TlsConfig {
            ca_secret_ref: self.ca_secret_ref.clone(),
            client_certificate_secret_ref: match &self.client_certificate_secret_ref {
                Some(reference) => Some(reference.clone()),
                None => None,
            },
        }
    }
}

fn clone_tls(tls: &Option<TlsConfig>) -> (res: Option<TlsConfig>)
    ensures
        res == *tls,
{
    match tls {
        Some(tls) => Some(tls.clone()),
        None => None,
    }
}

impl Clone for SecretKeyRef {
    fn clone(&self) -> (res: Self)
        ensures
            res == *self,
    {
        SecretKeyRef {
            name: self.name.clone(),
            namespace: self.namespace.clone(),
            key: self.key.clone(),
        }
    }
}

impl Clone for AuthConfig {
    fn clone(&self) -> (res: Self)
        ensures
            res == *self,
    {
        AuthConfig {
            strategy: self.strategy.clone(),
            secret_ref: match &self.secret_ref {
                Some(reference) => Some(reference.clone()),
                None => None,
            },
        }
    }
}

impl Clone for HealthCheckConfig {
    fn clone(&self) -> (res: Self)
        ensures
            res@ == self@,
    {
        HealthCheckConfig {
            endpoint: clone_optional_text(&self.endpoint),
            interval: clone_optional_text(&self.interval),
            path: clone_optional_text(&self.path),
            timeout: clone_optional_text(&self.timeout),
            tls: clone_tls(&self.tls),
        }
    }
}

impl Clone for MetricsConfig {
    fn clone(&self) -> (res: Self)
        ensures
            res == *self,
    {
        MetricsConfig { tls: clone_tls(&self.tls) }
    }
}

impl Clone for ModelDiscoveryConfig {
    fn clone(&self) -> (res: Self)
        ensures
            res@ == self@,
    {
        ModelDiscoveryConfig {
            source: self.source,
            endpoint: clone_optional_text(&self.endpoint),
            interval_seconds: self.interval_seconds,
            timeout_seconds: self.timeout_seconds,
            tls: clone_tls(&self.tls),
        }
    }
}

fn clone_models(models: &Vec<ModelInfo>) -> (res: Vec<ModelInfo>)
    ensures
        model_names(res@) == model_names(models@),
{
    let mut res: Vec<ModelInfo> = Vec::new();
    let mut i: usize = 0;
    while i < models.len()
        invariant
            i <= models@.len(),
            res@.len() == i,
            forall|k: int| 0 <= k < i ==> (#[trigger] res@[k]).name@ == models@[k].name@,
        decreases models@.len() - i,
    {
        res.push(ModelInfo { name: models[i].name.clone() });
        i = i + 1;
    }
    assert(model_names(res@) =~= model_names(models@));
    res
}

impl Clone for InferenceProviderSpec {
    fn clone(&self) -> (res: Self)
        ensures
            res@ == self@,
    {
        InferenceProviderSpec {
            grid_network_ref: self.grid_network_ref.clone(),
            auth: match &self.auth {
                Some(auth) => Some(auth.clone()),
                None => None,
            },
            endpoint: self.endpoint.clone(),
            health_check: match &self.health_check {
                Some(hc) => Some(hc.clone()),
                None => None,
            },
            models: clone_models(&self.models),
            model_discovery: match &self.model_discovery {
                Some(config) => Some(config.clone()),
                None => None,
            },
            metrics_config: match &self.metrics_config {
                Some(config) => Some(config.clone()),
                None => None,
            },
            site_selector: SelectorConfig {
                match_labels: clone_labels(&self.site_selector.match_labels),
            },
        }
    }
}

impl Clone for ModelDiscoveryStatus {
    fn clone(&self) -> (res: Self)
        ensures
            res@ == self@,
    {
        ModelDiscoveryStatus {
            models: clone_texts(&self.models),
            observed_generation: self.observed_generation,
            last_attempt_time: clone_optional_text(&self.last_attempt_time),
            last_successful_time: clone_optional_text(&self.last_successful_time),
            last_failure_reason: clone_optional_text(&self.last_failure_reason),
        }
    }
}

pub(crate) fn clone_optional_discovery(
    status: &Option<ModelDiscoveryStatus>,
) -> (res: Option<ModelDiscoveryStatus>)
    ensures
        optional_discovery(res) == optional_discovery(*status),
{
    match status {
        Some(status) => Some(status.clone()),
        None => None,
    }
}

impl Clone for InferenceProviderStatus {
    fn clone(&self) -> (res: Self)
        ensures
            res@ == self@,
    {
        InferenceProviderStatus {
            matching_sites: clone_texts(&self.matching_sites),
            observed_generation: self.observed_generation,
            phase: self.phase,
            reason: clone_optional_text(&self.reason),
            model_discovery: clone_optional_discovery(&self.model_discovery),
        }
    }
}

impl Clone for InferenceProvider {
    fn clone(&self) -> (res: Self)
        ensures
            res@ == self@,
    {
        InferenceProvider {
            metadata: self.metadata.clone(),
            spec: self.spec.clone(),
            status: match &self.status {
                Some(status) => Some(status.clone()),
                None => None,
            },
        }
    }
}

impl ModelDiscoveryStatus {
    /// Whether two discovery results are the same in every field.
    pub fn same_as(&self, other: &Self) -> (res: bool)
        ensures
            res == (self@ == other@),
    {
        same_texts(&self.models, &other.models) && self.observed_generation
            == other.observed_generation && same_optional_text(
            &self.last_attempt_time,
            &other.last_attempt_time,
        ) && same_optional_text(&self.last_successful_time, &other.last_successful_time)
            && same_optional_text(&self.last_failure_reason, &other.last_failure_reason)
    }
}

impl InferenceProviderStatus {
    /// Whether two statuses are the same in every field.
    pub fn same_as(&self, other: &Self) -> (res: bool)
        ensures
            res == (self@ == other@),
    {
        let same_discovery = match (&self.model_discovery, &other.model_discovery) {
            (Some(a), Some(b)) => a.same_as(b),
            (None, None) => true,
            _ => false,
        };
        same_discovery && same_texts(&self.matching_sites, &other.matching_sites)
            && self.observed_generation == other.observed_generation && self.phase == other.phase
            && same_optional_text(&self.reason, &other.reason)
    }
}

/// The generation and the discovery result of a provider are those of its
/// metadata and of its status, where these have one.
pub proof fn law_provider_parts(
    provider: InferenceProviderView,
    generation: i64,
    status: InferenceProviderStatusView,
)
    ensures
        provider.metadata.generation == Some(generation) ==> provider.generation() == generation,
        provider.metadata.generation is None ==> provider.generation() == 0,
        provider.status == Some(status) ==> provider.discovery() == status.model_discovery,
        provider.status is None ==> provider.discovery() is None,
{
}

/// Each TLS block belongs to one part of the spec: another health check, other
/// metrics and other discovery leave the other two blocks alone.
pub proof fn law_tls_blocks_are_separate(
    spec: InferenceProviderSpecView,
    hc: HealthCheckView,
    metrics: MetricsConfig,
    discovery: ModelDiscoveryConfigView,
)
    ensures
        spec.health_check == Some(hc) ==> spec.health_tls() == hc.tls,
        spec.health_check is None ==> spec.health_tls() is None,
        spec.metrics_config == Some(metrics) ==> spec.metrics_tls() == metrics.tls,
        spec.metrics_config is None ==> spec.metrics_tls() is None,
        spec.model_discovery == Some(discovery) ==> spec.discovery_tls() == discovery.tls,
        spec.model_discovery is None ==> spec.discovery_tls() is None,
{
}

/// Two statuses with the same view are the same in every field.
pub proof fn law_equal_status_views_agree(a: InferenceProviderStatus, b: InferenceProviderStatus)
    requires
        a@ == b@,
    ensures
        a.phase == b.phase,
        a.observed_generation == b.observed_generation,
        optional_text(a.reason) == optional_text(b.reason),
        a.matching_sites@.len() == b.matching_sites@.len(),
        forall|i: int|
            0 <= i < a.matching_sites@.len() ==> (#[trigger] a.matching_sites@[i])@
                == b.matching_sites@[i]@,
        a.model_discovery is Some <==> b.model_discovery is Some,
        a.model_discovery matches Some(x) ==> (b.model_discovery matches Some(y) && x@ == y@),
{
    assert(ordering::texts(a.matching_sites@).len() == a.matching_sites@.len());
    assert forall|i: int| 0 <= i < a.matching_sites@.len() implies (
    #[trigger] a.matching_sites@[i])@ == b.matching_sites@[i]@ by {
        assert(ordering::texts(a.matching_sites@)[i] == ordering::texts(b.matching_sites@)[i]);
    }
}

/// Two discovery results with the same view are the same in every field.
pub proof fn law_equal_discovery_views_agree(a: ModelDiscoveryStatus, b: ModelDiscoveryStatus)
    requires
        a@ == b@,
    ensures
        a.observed_generation == b.observed_generation,
        optional_text(a.last_attempt_time) == optional_text(b.last_attempt_time),
        optional_text(a.last_successful_time) == optional_text(b.last_successful_time),
        optional_text(a.last_failure_reason) == optional_text(b.last_failure_reason),
        a.models@.len() == b.models@.len(),
        forall|i: int|
            0 <= i < a.models@.len() ==> (#[trigger] a.models@[i])@ == b.models@[i]@,
{
    assert(ordering::texts(a.models@).len() == a.models@.len());
    assert forall|i: int| 0 <= i < a.models@.len() implies (#[trigger] a.models@[i])@
        == b.models@[i]@ by {
        assert(ordering::texts(a.models@)[i] == ordering::texts(b.models@)[i]);
    }
}

/// An optional text shows its string, and labels show the strings of their
/// values under the same keys.
pub proof fn law_texts_are_shown(s: String, labels: Map<Seq<char>, String>, key: Seq<char>)
    ensures
        optional_text(Some(s)) == Some(s@),
        optional_text(None) is None,
        label_texts(labels).dom() == labels.dom(),
        labels.dom().contains(key) ==> label_texts(labels)[key] == labels[key]@,
{
    assert(label_texts(labels).dom() =~= labels.dom());
}

/// A provider's view shows the fields of its metadata and its spec.
pub proof fn law_provider_view_shows_its_fields(provider: InferenceProvider)
    ensures
        provider@.metadata.name == optional_text(provider.metadata.name),
        provider@.metadata.generation == provider.metadata.generation,
        provider@.metadata.resource_version == optional_text(provider.metadata.resource_version),
        provider@.spec.grid_network_ref == provider.spec.grid_network_ref@,
        provider@.spec.endpoint == provider.spec.endpoint@,
        provider@.spec.auth == provider.spec.auth,
        provider@.spec.metrics_config == provider.spec.metrics_config,
        provider@.spec.match_labels == label_texts(provider.spec.site_selector.match_labels@),
        provider@.spec.models.len() == provider.spec.models@.len(),
        forall|i: int|
            0 <= i < provider.spec.models@.len() ==> #[trigger] provider@.spec.models[i]
                == provider.spec.models@[i].name@,
        provider.status is Some <==> provider@.status is Some,
        provider.spec.health_check is Some <==> provider@.spec.health_check is Some,
        provider.spec.model_discovery is Some <==> provider@.spec.model_discovery is Some,
{
}

/// The views of a health check and of a discovery configuration show their
/// fields.
pub proof fn law_config_views_show_their_fields(hc: HealthCheckConfig, config: ModelDiscoveryConfig)
    ensures
        hc@.endpoint == optional_text(hc.endpoint),
        hc@.interval == optional_text(hc.interval),
        hc@.path == optional_text(hc.path),
        hc@.timeout == optional_text(hc.timeout),
        hc@.tls == hc.tls,
        config@.endpoint == optional_text(config.endpoint),
        config@.interval_seconds == config.interval_seconds,
        config@.timeout_seconds == config.timeout_seconds,
        config@.tls == config.tls,
{
}

/// A site's view shows its name, its network and its labels.
pub proof fn law_site_views_show_their_fields(sites: Seq<GridSite>, i: int)
    requires
        0 <= i < sites.len(),
    ensures
        site_views(sites).len() == sites.len(),
        site_views(sites)[i].grid_network_ref == sites[i].grid_network_ref@,
        site_views(sites)[i].metadata.name == optional_text(sites[i].metadata.name),
        sites[i].metadata.labels matches Some(labels) ==> site_views(sites)[i].metadata.labels
            == Some(label_texts(labels@)),
        sites[i].metadata.labels is None ==> site_views(sites)[i].metadata.labels is None,
{
}

} // verus!
