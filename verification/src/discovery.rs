//! Discovery of the models that a provider serves: one bounded poll of its
//! OpenAI-compatible model list.

use crate::ordering::{self, same_text, sort_names};
use crate::resource::{self, ModelDiscoveryConfig};
use crate::text::{self, blank, trim_end_char};
use crate::uri::{self, parse_uri, scheme_is, UriParts};
use vstd::prelude::*;
use vstd::string::*;

verus! {

/// Maximum number of models accepted from one provider.
pub const MAX_MODELS: usize = 256;

/// Maximum UTF-8 byte length of one model ID.
pub const MAX_MODEL_ID_BYTES: usize = 256;

/// Maximum bytes read from one model-list response.
pub const MAX_RESPONSE_BYTES: usize = 131072;

/// A safe, machine-readable discovery failure.
#[derive(Clone, Copy, Debug, PartialEq, Eq, Structural)]
pub enum DiscoveryFailure {
    /// Endpoint or configuration is invalid.
    InvalidConfig,
    /// Request could not complete, including DNS and TLS failures.
    Transport,
    /// Request exceeded its timeout.
    Timeout,
    /// Endpoint returned a non-success status.
    HttpStatus,
    /// Response exceeded the byte limit.
    TooLarge,
    /// Response JSON or model IDs are invalid.
    InvalidResponse,
}

/// The reason that the status gives for a failure.
pub open spec fn failure_reason(failure: DiscoveryFailure) -> Seq<char> {
    match failure {
        DiscoveryFailure::InvalidConfig => "InvalidConfig"@,
        DiscoveryFailure::Transport => "Transport"@,
        DiscoveryFailure::Timeout => "Timeout"@,
        DiscoveryFailure::HttpStatus => "HttpStatus"@,
        DiscoveryFailure::TooLarge => "TooLarge"@,
        DiscoveryFailure::InvalidResponse => "InvalidResponse"@,
    }
}

impl DiscoveryFailure {
    /// Stable reason written to `status.modelDiscovery`.
    #[must_use]
    pub fn as_str(self) -> (res: &'static str)
        ensures
            res@ == failure_reason(self),
    {
        match self {
            DiscoveryFailure::InvalidConfig => "InvalidConfig",
            DiscoveryFailure::Transport => "Transport",
            DiscoveryFailure::Timeout => "Timeout",
            DiscoveryFailure::HttpStatus => "HttpStatus",
            DiscoveryFailure::TooLarge => "TooLarge",
            DiscoveryFailure::InvalidResponse => "InvalidResponse",
        }
    }
}

/// One model-list item.
#[derive(Debug, PartialEq, Eq)]
pub struct ModelEntry {
    /// Raw served-model identifier.
    pub id: String,
}

/// OpenAI-compatible model-list envelope.
#[derive(Debug, PartialEq, Eq)]
pub struct ModelsResponse {
    /// Returned model entries.
    pub data: Vec<ModelEntry>,
}

/// The identifiers in a list of entries.
pub open spec fn entry_ids(entries: Seq<ModelEntry>) -> Seq<Seq<char>> {
    Seq::new(entries.len(), |i: int| entries[i].id@)
}

impl View for ModelsResponse {
    type V = Seq<Seq<char>>;

    open spec fn view(&self) -> Seq<Seq<char>> {
        entry_ids(self.data@)
    }
}

/// The view of an optional response.
pub open spec fn optional_response(response: Option<ModelsResponse>) -> Option<Seq<Seq<char>>> {
    match response {
        Some(response) => Some(response@),
        None => None,
    }
}

/// An `http` or `https` URL.
#[derive(Debug, PartialEq, Eq)]
pub struct HttpUri {
    /// The URL.
    pub text: String,
    /// Whether its scheme is `https`.
    pub https: bool,
}

/// View of [`HttpUri`].
pub struct HttpUriView {
    pub text: Seq<char>,
    pub https: bool,
}

impl View for HttpUri {
    type V = HttpUriView;

    open spec fn view(&self) -> HttpUriView {
        HttpUriView { text: self.text@, https: self.https }
    }
}

/// The view of the outcome of accepting a URL.
pub open spec fn accepted_view(uri: Result<HttpUri, DiscoveryFailure>) -> Result<
    HttpUriView,
    DiscoveryFailure,
> {
    match uri {
        Ok(uri) => Ok(uri@),
        Err(failure) => Err(failure),
    }
}

/// The model-list URL: the configured base or else the provider's endpoint,
/// without trailing slashes, and the path of the list.
pub open spec fn models_text(
    provider_endpoint: Seq<char>,
    config: resource::ModelDiscoveryConfigView,
) -> Seq<char> {
    let base = match config.endpoint {
        Some(endpoint) => endpoint,
        None => provider_endpoint,
    };
    text::without_trailing(base, '/') + "/v1/models"@
}

/// A URL with these parts is accepted if its scheme is `http` or `https` and
/// it names an authority.
pub open spec fn accepted(text: Seq<char>, parts: Option<uri::UriPartsView>) -> Result<
    HttpUriView,
    DiscoveryFailure,
> {
    match parts {
        Some(parts) if parts.has_authority && (parts.scheme == Some("http"@) || parts.scheme
            == Some("https"@)) => Ok(
            HttpUriView { text, https: parts.scheme == Some("https"@) },
        ),
        _ => Err(DiscoveryFailure::InvalidConfig),
    }
}

/// Accept a URL by its parts.
pub fn accept_uri(text: String, parts: Option<UriParts>) -> (res: Result<
    HttpUri,
    DiscoveryFailure,
>)
    ensures
        accepted_view(res) == accepted(text@, uri::optional_parts(parts)),
{
    match parts {
        Some(parts) => {
            let https = scheme_is(&parts, "https");
            let http = scheme_is(&parts, "http");
            if (http || https) && parts.has_authority {
                Ok(HttpUri { text, https })
            } else {
                Err(DiscoveryFailure::InvalidConfig)
            }
        },
        None => Err(DiscoveryFailure::InvalidConfig),
    }
}

/// Build the OpenAI-compatible model-list URL from the configured base.
pub fn models_url(provider_endpoint: &str, config: &ModelDiscoveryConfig) -> (res: Result<
    HttpUri,
    DiscoveryFailure,
>)
    ensures
        accepted_view(res) == accepted(
            models_text(provider_endpoint@, config@),
            uri::uri_in(models_text(provider_endpoint@, config@)),
        ),
        res matches Ok(uri) ==> uri::opens_with(uri.text@, "http://"@) || uri::opens_with(
            uri.text@,
            "https://"@,
        ),
{
    let base = match &config.endpoint {
        Some(endpoint) => trim_end_char(endpoint.as_str(), '/'),
        None => trim_end_char(provider_endpoint, '/'),
    };
    let mut url = base.to_owned();
    url.append("/v1/models");
    let parts = parse_uri(url.as_str());
    accept_uri(url, parts)
}

/// A model identifier that is accepted: it is not blank, has no white space
/// around it and is not too long.
pub open spec fn is_model_id(id: Seq<char>) -> bool {
    &&& !text::is_blank(id)
    &&& vstd::utf8::encode_utf8(id).len() <= MAX_MODEL_ID_BYTES
    &&& text::trimmed(id) == id
}

/// The models that a response lists, or why it is refused: `size` is the size
/// of its body in bytes, and `ids` the identifiers in it, where it is a model
/// list.
pub open spec fn listed_models(size: nat, ids: Option<Seq<Seq<char>>>) -> Result<
    Seq<Seq<char>>,
    DiscoveryFailure,
> {
    if size > MAX_RESPONSE_BYTES {
        Err(DiscoveryFailure::TooLarge)
    } else {
        match ids {
            None => Err(DiscoveryFailure::InvalidResponse),
            Some(ids) => if ids.len() > MAX_MODELS {
                Err(DiscoveryFailure::TooLarge)
            } else if (forall|i: int| 0 <= i < ids.len() ==> is_model_id(#[trigger] ids[i]))
                && ids.no_duplicates() {
                Ok(ordering::in_order(ids))
            } else {
                Err(DiscoveryFailure::InvalidResponse)
            },
        }
    }
}

/// The view of a list of models or a failure.
pub open spec fn models_view(models: Result<Vec<String>, DiscoveryFailure>) -> Result<
    Seq<Seq<char>>,
    DiscoveryFailure,
> {
    match models {
        Ok(models) => Ok(ordering::texts(models@)),
        Err(failure) => Err(failure),
    }
}

fn model_id_accepted(id: &str) -> (res: bool)
    ensures
        res == is_model_id(id@),
{
    !blank(id) && id.as_bytes().len() <= MAX_MODEL_ID_BYTES && same_text(id.trim(), id)
}

/// Whether no name in an ordered list is followed by itself.
fn no_repeats(names: &Vec<String>) -> (res: bool)
    requires
        ordering::ordered(ordering::texts(names@)),
    ensures
        res == ordering::texts(names@).no_duplicates(),
{
    let ghost listed = ordering::texts(names@);
    let mut i: usize = 1;
    while i < names.len()
        invariant
            listed == ordering::texts(names@),
            ordering::ordered(listed),
            1 <= i,
            forall|k: int| 0 <= k < listed.len() - 1 && k < i - 1 ==> #[trigger] listed[k]
                != listed[k + 1],
        decreases names@.len() - i,
    {
        if same_text(names[i - 1].as_str(), names[i].as_str()) {
            assert(listed[i - 1] == listed[i as int]);
            return false;
        }
        assert(listed[i - 1] != listed[i as int]);
        i = i + 1;
    }
    proof {
        assert forall|a: int, b: int| 0 <= a < b < listed.len() implies listed[a] != listed[b] by {
            assert(listed[a] != listed[a + 1]);
            assert(ordering::at_or_before(listed[a], listed[a + 1]));
            if a + 1 < b {
                assert(ordering::at_or_before(listed[a + 1], listed[b]));
                if listed[a] == listed[b] {
                    ordering::lemma_before_total(listed[a], listed[a + 1]);
                }
            }
        }
    }
    true
}

proof fn lemma_duplicates_by_multiset(a: Seq<Seq<char>>, b: Seq<Seq<char>>)
    requires
        a.to_multiset() == b.to_multiset(),
        a.no_duplicates(),
    ensures
        b.no_duplicates(),
{
    a.lemma_multiset_has_no_duplicates();
    b.lemma_multiset_has_no_duplicates_conv();
}

/// Normalize a bounded OpenAI-compatible model-list response.
///
/// `response` is the body decoded as a model list, or `None` where it is none.
pub fn parse_models(body: &[u8], response: Option<ModelsResponse>) -> (res: Result<
    Vec<String>,
    DiscoveryFailure,
>)
    ensures
        models_view(res) == listed_models(body@.len(), optional_response(response)),
{
    if body.len() > MAX_RESPONSE_BYTES {
        return Err(DiscoveryFailure::TooLarge);
    }
    let entries: Vec<ModelEntry> = match response {
        Some(response) => response.data,
        None => {
            return Err(DiscoveryFailure::InvalidResponse);
        },
    };
    if entries.len() > MAX_MODELS {
        return Err(DiscoveryFailure::TooLarge);
    }
    let ghost ids = entry_ids(entries@);
    let mut models: Vec<String> = Vec::new();
    let mut i: usize = 0;
    while i < entries.len()
        invariant
            ids == entry_ids(entries@),
            i <= entries@.len(),
            models@.len() == i,
            forall|k: int| 0 <= k < i ==> (#[trigger] models@[k])@ == ids[k],
            forall|k: int| 0 <= k < i ==> is_model_id(#[trigger] ids[k]),
            entries@.len() <= MAX_MODELS,
            body@.len() <= MAX_RESPONSE_BYTES,
            optional_response(response) == Some(ids),
        decreases entries@.len() - i,
    {
        assert(ids[i as int] == entries@[i as int].id@);
        if !model_id_accepted(entries[i].id.as_str()) {
            assert(!is_model_id(ids[i as int]));
            return Err(DiscoveryFailure::InvalidResponse);
        }
        models.push(entries[i].id.clone());
        i = i + 1;
    }
    assert(ordering::texts(models@) =~= ids);
    let models = sort_names(models);
    proof {
        ordering::lemma_in_order(ids);
        if ids.no_duplicates() {
            lemma_duplicates_by_multiset(ids, ordering::texts(models@));
        }
        if ordering::texts(models@).no_duplicates() {
            lemma_duplicates_by_multiset(ordering::texts(models@), ids);
        }
    }
    if no_repeats(&models) {
        Ok(models)
    } else {
        Err(DiscoveryFailure::InvalidResponse)
    }
}

/// The reasons in the status tell all discovery failures apart.
pub proof fn law_failure_reasons_are_distinct(a: DiscoveryFailure, b: DiscoveryFailure)
    requires
        failure_reason(a) == failure_reason(b),
    ensures
        a == b,
{
    reveal_strlit("InvalidConfig");
    reveal_strlit("Transport");
    reveal_strlit("Timeout");
    reveal_strlit("HttpStatus");
    reveal_strlit("TooLarge");
    reveal_strlit("InvalidResponse");
    assert("InvalidConfig"@.len() == 13);
    assert("Transport"@.len() == 9);
    assert("Timeout"@.len() == 7);
    assert("HttpStatus"@.len() == 10);
    assert("TooLarge"@.len() == 8);
    assert("InvalidResponse"@.len() == 15);
    assert(failure_reason(a).len() == failure_reason(b).len());
}

/// Accepted models are the identifiers of the response, each once and in
/// order; they are bounded in number and each is a well-formed identifier.
pub proof fn law_models_are_normalized(size: nat, ids: Seq<Seq<char>>)
    ensures
        listed_models(size, Some(ids)) matches Ok(models) ==> {
            &&& ordering::strictly_ordered(models)
            &&& models.len() <= MAX_MODELS
            &&& forall|i: int| 0 <= i < models.len() ==> is_model_id(#[trigger] models[i])
            &&& forall|id: Seq<char>| #[trigger] models.contains(id) <==> ids.contains(id)
        },
{
    broadcast use vstd::seq_lib::group_to_multiset_ensures;

    if let Ok(models) = listed_models(size, Some(ids)) {
        ordering::lemma_in_order(ids);
        lemma_duplicates_by_multiset(ids, models);
        assert forall|id: Seq<char>| #[trigger] models.contains(id) <==> ids.contains(id) by {
            assert(models.contains(id) <==> models.to_multiset().count(id) > 0);
            assert(ids.contains(id) <==> ids.to_multiset().count(id) > 0);
        }
        assert(models.len() == models.to_multiset().len());
        assert(ids.len() == ids.to_multiset().len());
        assert forall|i: int| 0 <= i < models.len() implies is_model_id(#[trigger] models[i]) by {
            assert(models.contains(models[i]));
            assert(ids.contains(models[i]));
            let k = choose|k: int| 0 <= k < ids.len() && ids[k] == models[i];
            assert(is_model_id(ids[k]));
        }
    }
}

/// The order in which a response lists its models makes no difference.
pub proof fn law_models_ignore_response_order(
    size: nat,
    ids: Seq<Seq<char>>,
    others: Seq<Seq<char>>,
)
    requires
        ids.to_multiset() == others.to_multiset(),
    ensures
        listed_models(size, Some(ids)) == listed_models(size, Some(others)),
{
    broadcast use vstd::seq_lib::group_to_multiset_ensures;

    assert(ids.len() == ids.to_multiset().len());
    assert(others.len() == others.to_multiset().len());
    ordering::lemma_in_order(ids);
    ordering::lemma_in_order(others);
    ordering::law_ordering_is_unique(ordering::in_order(ids), ordering::in_order(others));
    if ids.no_duplicates() {
        lemma_duplicates_by_multiset(ids, others);
    }
    if others.no_duplicates() {
        lemma_duplicates_by_multiset(others, ids);
    }
    if forall|i: int| 0 <= i < ids.len() ==> is_model_id(#[trigger] ids[i]) {
        lemma_ids_by_multiset(ids, others);
    }
    if forall|i: int| 0 <= i < others.len() ==> is_model_id(#[trigger] others[i]) {
        lemma_ids_by_multiset(others, ids);
    }
}

proof fn lemma_ids_by_multiset(ids: Seq<Seq<char>>, others: Seq<Seq<char>>)
    requires
        ids.to_multiset() == others.to_multiset(),
        forall|i: int| 0 <= i < ids.len() ==> is_model_id(#[trigger] ids[i]),
    ensures
        forall|i: int| 0 <= i < others.len() ==> is_model_id(#[trigger] others[i]),
{
    broadcast use vstd::seq_lib::group_to_multiset_ensures;

    assert forall|i: int| 0 <= i < others.len() implies is_model_id(#[trigger] others[i]) by {
        let id = others[i];
        assert(others.contains(id));
        assert(others.to_multiset().count(id) > 0);
        assert(ids.contains(id));
        let k = choose|k: int| 0 <= k < ids.len() && ids[k] == id;
        assert(is_model_id(ids[k]));
    }
}

/// The model list is asked for below one base, which is taken up to its
/// trailing slashes: `n` characters of it are kept. The base is the endpoint of
/// the discovery configuration where it has one, and the provider's otherwise.
pub proof fn law_models_are_asked_for_below_the_base(
    provider_endpoint: Seq<char>,
    config: resource::ModelDiscoveryConfigView,
    base: Seq<char>,
) -> (n: int)
    requires
        config.endpoint == Some(base) || config.endpoint is None && provider_endpoint == base,
    ensures
        0 <= n <= base.len(),
        n > 0 ==> base[n - 1] != '/',
        forall|i: int| n <= i < base.len() ==> #[trigger] base[i] == '/',
        models_text(provider_endpoint, config) == base.take(n) + "/v1/models"@,
{
    text::law_only_trailing_occurrences_go(base, '/')
}

/// A URL is accepted exactly if it names an authority and has the scheme `http`
/// or `https`. It is kept as it is, and every other one is an invalid
/// configuration.
pub proof fn law_http_urls_are_accepted(text: Seq<char>, parts: Option<uri::UriPartsView>)
    ensures
        accepted(text, parts) is Ok <==> (parts matches Some(p) && p.has_authority && (p.scheme
            == Some("http"@) || p.scheme == Some("https"@))),
        accepted(text, parts) matches Ok(uri) ==> uri.text == text && (uri.https <==> (
        parts matches Some(p) && p.scheme == Some("https"@))),
        accepted(text, parts) matches Err(failure) ==> failure == DiscoveryFailure::InvalidConfig,
{
}

/// A model identifier is a text of at most 256 bytes that is not empty and
/// neither begins nor ends with white space.
pub proof fn law_model_ids_are_trimmed_and_short(id: Seq<char>)
    ensures
        is_model_id(id) <==> id.len() > 0 && !text::is_white_space(id.first())
            && !text::is_white_space(id.last()) && vstd::utf8::encode_utf8(id).len() <= 256,
{
    text::lemma_blank_iff_trimmed_empty(id);
    let around = text::law_trim_leaves_the_core(id);
    if id.len() > 0 && !text::is_white_space(id.first()) && !text::is_white_space(id.last()) {
        let none = Seq::<char>::empty();
        text::lemma_trim_surrounded(none, id, none);
        assert(none + id + none =~= id);
    }
}

/// A response is judged by its size, by whether it is a model list, by the
/// number of its entries, and by the entries themselves, in this order.
pub proof fn law_response_is_judged_in_order(size: nat, ids: Seq<Seq<char>>)
    ensures
        size > 131072 ==> listed_models(size, Some(ids)) == Err::<
            Seq<Seq<char>>,
            DiscoveryFailure,
        >(DiscoveryFailure::TooLarge) && listed_models(size, None) == Err::<
            Seq<Seq<char>>,
            DiscoveryFailure,
        >(DiscoveryFailure::TooLarge),
        size <= 131072 ==> {
            &&& listed_models(size, None) == Err::<Seq<Seq<char>>, DiscoveryFailure>(
                DiscoveryFailure::InvalidResponse,
            )
            &&& ids.len() > 256 ==> listed_models(size, Some(ids)) == Err::<
                Seq<Seq<char>>,
                DiscoveryFailure,
            >(DiscoveryFailure::TooLarge)
            &&& ids.len() <= 256 && (exists|i: int|
                0 <= i < ids.len() && !is_model_id(#[trigger] ids[i])) ==> listed_models(
                size,
                Some(ids),
            ) == Err::<Seq<Seq<char>>, DiscoveryFailure>(DiscoveryFailure::InvalidResponse)
            &&& ids.len() <= 256 && (exists|i: int, j: int|
                0 <= i < j < ids.len() && #[trigger] ids[i] == #[trigger] ids[j])
                ==> listed_models(size, Some(ids)) == Err::<Seq<Seq<char>>, DiscoveryFailure>(
                DiscoveryFailure::InvalidResponse,
            )
        },
{
}

/// A well-formed response within its bounds is accepted.
pub proof fn law_well_formed_response_is_accepted(size: nat, ids: Seq<Seq<char>>)
    requires
        size <= 131072,
        ids.len() <= 256,
        forall|i: int| 0 <= i < ids.len() ==> is_model_id(#[trigger] ids[i]),
        forall|i: int, j: int|
            0 <= i < j < ids.len() ==> #[trigger] ids[i] != #[trigger] ids[j],
    ensures
        listed_models(size, Some(ids)) matches Ok(models) && models.to_multiset()
            == ids.to_multiset() && ordering::strictly_ordered(models),
{
    ordering::lemma_in_order(ids);
    law_models_are_normalized(size, ids);
}

/// The views of a URL and of a decoded response show their parts, and the models
/// are shown in their order.
pub proof fn law_discovery_views_show_their_parts(
    uri: HttpUri,
    response: ModelsResponse,
    models: Vec<String>,
    i: int,
)
    ensures
        uri@.text == uri.text@,
        uri@.https == uri.https,
        accepted_view(Ok::<HttpUri, DiscoveryFailure>(uri)) == Ok::<HttpUriView, DiscoveryFailure>(
            uri@,
        ),
        optional_response(Some(response)) == Some(response@),
        optional_response(None) is None,
        response@.len() == response.data@.len(),
        0 <= i < response.data@.len() ==> response@[i] == response.data@[i].id@,
        models_view(Ok::<Vec<String>, DiscoveryFailure>(models)) is Ok,
        models_view(Ok::<Vec<String>, DiscoveryFailure>(models))->Ok_0.len() == models@.len(),
        0 <= i < models@.len() ==> models_view(
            Ok::<Vec<String>, DiscoveryFailure>(models),
        )->Ok_0[i] == models@[i]@,
{
}

} // verus!
