//! Which sites of a grid network a provider serves.

use crate::name_map::{self, NameMap};
use crate::ordering::{self, same_text, sort_names};
use crate::resource::{self, GridSite, InferenceProvider};
use vstd::prelude::*;
use vstd::string::*;

verus! {

/// A label set meets a selector when it has every label of it. The empty
/// selector is met by every label set, and by none at all.
pub open spec fn meets(
    labels: Option<Map<Seq<char>, Seq<char>>>,
    selector: Map<Seq<char>, Seq<char>>,
) -> bool {
    forall|key: Seq<char>| #[trigger]
        selector.dom().contains(key) ==> (labels matches Some(labels) && labels.dom().contains(key)
            && labels[key] == selector[key])
}

/// The names of the sites that meet a selector, in the order of the sites. A
/// site without a name is left out.
pub open spec fn names_meeting(
    sites: Seq<resource::GridSiteView>,
    selector: Map<Seq<char>, Seq<char>>,
) -> Seq<Seq<char>>
    decreases sites.len(),
{
    if sites.len() == 0 {
        Seq::empty()
    } else {
        let names = names_meeting(sites.drop_last(), selector);
        let site = sites.last();
        match site.metadata.name {
            Some(name) if meets(site.metadata.labels, selector) => names.push(name),
            _ => names,
        }
    }
}

/// The names of the sites that a provider selects, in order.
pub open spec fn matching_names(
    sites: Seq<resource::GridSiteView>,
    spec: resource::InferenceProviderSpecView,
) -> Seq<Seq<char>> {
    ordering::in_order(names_meeting(sites, spec.match_labels))
}

/// The sites of a grid network among `sites`, in the same order.
pub open spec fn sites_of_network(
    sites: Seq<resource::GridSiteView>,
    network: Seq<char>,
) -> Seq<resource::GridSiteView> {
    sites.filter(|site: resource::GridSiteView| site.grid_network_ref == network)
}

/// Whether a label set meets a selector.
fn labels_meet(labels: &Option<NameMap<String>>, selector: &NameMap<String>) -> (res: bool)
    ensures
        res == meets(
            match labels {
                Some(labels) => Some(resource::label_texts(labels@)),
                None => None,
            },
            resource::label_texts(selector@),
        ),
{
    let count: usize = selector.len();
    let ghost wanted = resource::label_texts(selector@);
    let ghost found = match labels {
        Some(labels) => Some(resource::label_texts(labels@)),
        None => None,
    };
    proof {
        name_map::lemma_paired(selector.keys(), selector.values());
    }
    let mut i: usize = 0;
    while i < count
        invariant
            count == selector.keys().len(),
            count == selector.values().len(),
            wanted == resource::label_texts(selector@),
            found == match labels {
                Some(labels) => Some(resource::label_texts(labels@)),
                None => None,
            },
            forall|k: int|
                0 <= k < count ==> {
                    &&& selector@.dom().contains(#[trigger] selector.keys()[k])
                    &&& selector@[selector.keys()[k]] == selector.values()[k]
                },
            i <= count,
            forall|k: int|
                0 <= k < i ==> (found matches Some(found) && found.dom().contains(
                    #[trigger] selector.keys()[k],
                ) && found[selector.keys()[k]] == wanted[selector.keys()[k]]),
        decreases count - i,
    {
        let key = selector.key_at(i);
        let value = selector.value_at(i);
        assert(selector@.dom().contains(selector.keys()[i as int]));
        assert(wanted.dom().contains(key@));
        assert(wanted[key@] == value@);
        let has_label = match labels {
            Some(labels) => match labels.get(key) {
                Some(label) => same_text(label.as_str(), value.as_str()),
                None => false,
            },
            None => false,
        };
        if !has_label {
            return false;
        }
        i = i + 1;
    }
    assert forall|key: Seq<char>| #[trigger] wanted.dom().contains(key) implies (found matches Some(
        found,
    ) && found.dom().contains(key) && found[key] == wanted[key]) by {
        assert(selector@.dom().contains(key));
        let k = choose|k: int| 0 <= k < selector.keys().len() && selector.keys()[k] == key;
        assert(selector.keys()[k] == key);
    }
    true
}

/// The sites of a grid network among all sites.
pub fn list_sites_for_network(all: Vec<GridSite>, network_ref: &str) -> (res: Vec<GridSite>)
    ensures
        resource::site_views(res@) == sites_of_network(resource::site_views(all@), network_ref@),
{
    let ghost views = resource::site_views(all@);
    let ghost of_network = |site: resource::GridSiteView| site.grid_network_ref == network_ref@;
    let mut res: Vec<GridSite> = Vec::new();
    proof {
        assert(views.take(0) =~= Seq::empty());
        reveal(Seq::filter);
        assert(resource::site_views(res@) =~= views.take(0).filter(of_network));
    }
    for site in iter: all
        invariant
            views == resource::site_views(iter.seq()),
            of_network == (|site: resource::GridSiteView| site.grid_network_ref == network_ref@),
            resource::site_views(res@) == views.take(iter.index()).filter(of_network),
    {
        let ghost at = iter.index();
        let ghost before = resource::site_views(res@);
        proof {
            assert(views.take(at + 1).drop_last() =~= views.take(at));
            assert(views.take(at + 1).last() == site@);
            reveal(Seq::filter);
        }
        if same_text(site.grid_network_ref.as_str(), network_ref) {
            let ghost view = site@;
            res.push(site);
            assert(resource::site_views(res@) =~= before.push(view));
        }
    }
    assert(views.take(views.len() as int) =~= views);
    res
}

/// Apply `siteSelector.matchLabels` to the supplied sites.
///
/// An empty selector matches all sites. All configured labels must match;
/// extra labels on the site are ignored. Returns the names of the matching
/// sites in order.
///
/// Sites are not filtered by network here: pass only sites of the relevant
/// network.
pub fn sites_matching_selector(provider: &InferenceProvider, sites: &[GridSite]) -> (res: Vec<
    String,
>)
    ensures
        ordering::texts(res@) == matching_names(resource::site_views(sites@), provider@.spec),
{
    let selector = &provider.spec.site_selector.match_labels;
    let ghost views = resource::site_views(sites@);
    let ghost wanted = provider@.spec.match_labels;
    let mut names: Vec<String> = Vec::new();
    assert(ordering::texts(names@) =~= names_meeting(views.take(0), wanted));
    let mut i: usize = 0;
    while i < sites.len()
        invariant
            views == resource::site_views(sites@),
            wanted == resource::label_texts(selector@),
            i <= sites@.len(),
            ordering::texts(names@) == names_meeting(views.take(i as int), wanted),
        decreases sites@.len() - i,
    {
        let site = &sites[i];
        let ghost before = ordering::texts(names@);
        proof {
            assert(views.take(i + 1).drop_last() =~= views.take(i as int));
            assert(views.take(i + 1).last() == site@);
        }
        if labels_meet(&site.metadata.labels, selector) {
            if let Some(name) = &site.metadata.name {
                names.push(name.clone());
                assert(ordering::texts(names@) =~= before.push(name@));
            }
        }
        i = i + 1;
    }
    assert(views.take(views.len() as int) =~= views);
    sort_names(names)
}

/// The empty selector is met by every site.
pub proof fn law_empty_selector_matches_every_site(labels: Option<Map<Seq<char>, Seq<char>>>)
    ensures
        meets(labels, Map::empty()),
{
}

/// A further label in the selector is a further condition.
pub proof fn law_selector_labels_are_conjoined(
    labels: Map<Seq<char>, Seq<char>>,
    selector: Map<Seq<char>, Seq<char>>,
    key: Seq<char>,
    value: Seq<char>,
)
    requires
        !selector.dom().contains(key),
    ensures
        meets(Some(labels), selector.insert(key, value)) <==> meets(Some(labels), selector)
            && labels.dom().contains(key) && labels[key] == value,
{
    let wider = selector.insert(key, value);
    if meets(Some(labels), wider) {
        assert(wider.dom().contains(key));
        assert forall|k: Seq<char>| #[trigger] selector.dom().contains(k) implies labels.dom().contains(
            k,
        ) && labels[k] == selector[k] by {
            assert(wider.dom().contains(k));
        }
    }
}

/// A label of the site that the selector does not name changes nothing.
pub proof fn law_extra_labels_are_ignored(
    labels: Map<Seq<char>, Seq<char>>,
    selector: Map<Seq<char>, Seq<char>>,
    key: Seq<char>,
    value: Seq<char>,
)
    requires
        !selector.dom().contains(key),
    ensures
        meets(Some(labels.insert(key, value)), selector) <==> meets(Some(labels), selector),
{
    let more = labels.insert(key, value);
    if meets(Some(more), selector) {
        assert forall|k: Seq<char>| #[trigger] selector.dom().contains(k) implies labels.dom().contains(
            k,
        ) && labels[k] == selector[k] by {
            assert(more.dom().contains(k) && more[k] == selector[k]);
        }
    }
}

/// A site of another network is never listed.
pub proof fn law_other_networks_are_ignored(
    sites: Seq<resource::GridSiteView>,
    site: resource::GridSiteView,
    network: Seq<char>,
)
    requires
        site.grid_network_ref != network,
    ensures
        sites_of_network(sites.push(site), network) == sites_of_network(sites, network),
{
    reveal(Seq::filter);
    assert(sites.push(site).drop_last() =~= sites);
}

/// The list of matching sites does not depend on the order in which the sites
/// are listed.
pub proof fn law_matching_ignores_listing_order(
    sites: Seq<resource::GridSiteView>,
    others: Seq<resource::GridSiteView>,
    spec: resource::InferenceProviderSpecView,
)
    requires
        sites.to_multiset() == others.to_multiset(),
    ensures
        matching_names(sites, spec) == matching_names(others, spec),
{
    let (names, other_names) = (
        names_meeting(sites, spec.match_labels),
        names_meeting(others, spec.match_labels),
    );
    lemma_names_of_permutation(sites, others, spec.match_labels);
    ordering::lemma_in_order(names);
    ordering::lemma_in_order(other_names);
    ordering::law_ordering_is_unique(matching_names(sites, spec), matching_names(others, spec));
}

/// The matching sites are the named sites that meet the selector, listed in
/// the order of their names.
pub proof fn law_matching_sites_meet_the_selector(
    sites: Seq<resource::GridSiteView>,
    spec: resource::InferenceProviderSpecView,
)
    ensures
        ordering::ordered(matching_names(sites, spec)),
        forall|name: Seq<char>| #[trigger]
            matching_names(sites, spec).contains(name) <==> exists|i: int|
                0 <= i < sites.len() && (#[trigger] sites[i]).metadata.name == Some(name) && meets(
                    sites[i].metadata.labels,
                    spec.match_labels,
                ),
{
    broadcast use vstd::seq_lib::group_to_multiset_ensures;

    let names = names_meeting(sites, spec.match_labels);
    let matching = matching_names(sites, spec);
    ordering::lemma_in_order(names);
    assert forall|name: Seq<char>| #[trigger] matching.contains(name) <==> exists|i: int|
        0 <= i < sites.len() && (#[trigger] sites[i]).metadata.name == Some(name) && meets(
            sites[i].metadata.labels,
            spec.match_labels,
        ) by {
        assert(matching.contains(name) <==> matching.to_multiset().count(name) > 0);
        assert(names.contains(name) <==> names.to_multiset().count(name) > 0);
        lemma_names_contain(sites, spec.match_labels, name);
    }
}

proof fn lemma_names_contain(
    sites: Seq<resource::GridSiteView>,
    selector: Map<Seq<char>, Seq<char>>,
    name: Seq<char>,
)
    ensures
        names_meeting(sites, selector).contains(name) <==> exists|i: int|
            0 <= i < sites.len() && (#[trigger] sites[i]).metadata.name == Some(name) && meets(
                sites[i].metadata.labels,
                selector,
            ),
    decreases sites.len(),
{
    if sites.len() > 0 {
        let rest = sites.drop_last();
        let site = sites.last();
        lemma_names_contain(rest, selector, name);
        let (before, names) = (names_meeting(rest, selector), names_meeting(sites, selector));
        let added = site.metadata.name == Some(name) && meets(site.metadata.labels, selector);
        if names.contains(name) {
            let k = choose|k: int| 0 <= k < names.len() && names[k] == name;
            if k < before.len() {
                assert(before[k] == name);
                assert(before.contains(name));
                let i = choose|i: int|
                    0 <= i < rest.len() && (#[trigger] rest[i]).metadata.name == Some(name)
                        && meets(rest[i].metadata.labels, selector);
                assert(sites[i] == rest[i]);
            } else {
                assert(added);
                assert(sites[sites.len() - 1] == site);
            }
        }
        if exists|i: int|
            0 <= i < sites.len() && (#[trigger] sites[i]).metadata.name == Some(name) && meets(
                sites[i].metadata.labels,
                selector,
            ) {
            let i = choose|i: int|
                0 <= i < sites.len() && (#[trigger] sites[i]).metadata.name == Some(name) && meets(
                    sites[i].metadata.labels,
                    selector,
                );
            if i < rest.len() {
                assert(rest[i] == sites[i]);
                assert(before.contains(name));
                let k = choose|k: int| 0 <= k < before.len() && before[k] == name;
                assert(names[k] == name);
            } else {
                assert(names[names.len() - 1] == name);
            }
        }
    }
}

/// The names that one site adds to the list.
spec fn names_of_site(
    site: resource::GridSiteView,
    selector: Map<Seq<char>, Seq<char>>,
) -> vstd::multiset::Multiset<Seq<char>> {
    names_meeting(seq![site], selector).to_multiset()
}

proof fn lemma_names_push(
    sites: Seq<resource::GridSiteView>,
    site: resource::GridSiteView,
    selector: Map<Seq<char>, Seq<char>>,
)
    ensures
        names_meeting(sites.push(site), selector).to_multiset() == names_meeting(
            sites,
            selector,
        ).to_multiset().add(names_of_site(site, selector)),
{
    broadcast use vstd::seq_lib::group_to_multiset_ensures;

    let one = seq![site];
    assert(sites.push(site).drop_last() =~= sites);
    assert(one.drop_last() =~= Seq::empty());
    assert(names_meeting(one.drop_last(), selector) =~= Seq::empty());
    let empty = Seq::<Seq<char>>::empty();
    assert(empty.to_multiset() =~= vstd::multiset::Multiset::empty());
    assert(names_meeting(sites.push(site), selector).to_multiset() =~= names_meeting(
        sites,
        selector,
    ).to_multiset().add(names_of_site(site, selector)));
}

proof fn lemma_names_remove(
    sites: Seq<resource::GridSiteView>,
    at: int,
    selector: Map<Seq<char>, Seq<char>>,
)
    requires
        0 <= at < sites.len(),
    ensures
        names_meeting(sites, selector).to_multiset() == names_meeting(
            sites.remove(at),
            selector,
        ).to_multiset().add(names_of_site(sites[at], selector)),
    decreases sites.len(),
{
    let last = sites.last();
    let rest = sites.drop_last();
    assert(rest.push(last) =~= sites);
    lemma_names_push(rest, last, selector);
    if at == sites.len() - 1 {
        assert(sites.remove(at) =~= rest);
    } else {
        lemma_names_remove(rest, at, selector);
        assert(sites.remove(at) =~= rest.remove(at).push(last));
        lemma_names_push(rest.remove(at), last, selector);
        assert(names_meeting(sites, selector).to_multiset() =~= names_meeting(
            sites.remove(at),
            selector,
        ).to_multiset().add(names_of_site(sites[at], selector)));
    }
}

proof fn lemma_names_of_permutation(
    sites: Seq<resource::GridSiteView>,
    others: Seq<resource::GridSiteView>,
    selector: Map<Seq<char>, Seq<char>>,
)
    requires
        sites.to_multiset() == others.to_multiset(),
    ensures
        names_meeting(sites, selector).to_multiset() == names_meeting(
            others,
            selector,
        ).to_multiset(),
    decreases sites.len(),
{
    broadcast use vstd::seq_lib::group_to_multiset_ensures;

    assert(sites.len() == sites.to_multiset().len());
    assert(others.len() == others.to_multiset().len());
    if sites.len() > 0 {
        let last = sites.last();
        let rest = sites.drop_last();
        assert(sites.contains(last));
        assert(others.to_multiset().count(last) > 0);
        assert(others.contains(last));
        let at = choose|i: int| 0 <= i < others.len() && others[i] == last;
        assert(sites.remove(sites.len() - 1) =~= rest);
        assert(rest.to_multiset() =~= sites.to_multiset().remove(last));
        assert(others.remove(at).to_multiset() =~= others.to_multiset().remove(last));
        lemma_names_of_permutation(rest, others.remove(at), selector);
        lemma_names_remove(sites, sites.len() - 1, selector);
        lemma_names_remove(others, at, selector);
    } else {
        assert(others =~= sites);
    }
}

/// A site without labels meets the empty selector only.
pub proof fn law_unlabelled_site_meets_no_label(selector: Map<Seq<char>, Seq<char>>)
    ensures
        meets(None, selector) <==> selector == Map::<Seq<char>, Seq<char>>::empty(),
{
    if meets(None, selector) {
        assert(selector =~= Map::empty());
    }
}

/// A site meets a selector exactly if it has every label of it, with the same
/// value.
pub proof fn law_selected_site_has_every_label(
    labels: Map<Seq<char>, Seq<char>>,
    selector: Map<Seq<char>, Seq<char>>,
)
    ensures
        meets(Some(labels), selector) <==> selector.submap_of(labels),
{
    if meets(Some(labels), selector) {
        assert forall|key: Seq<char>| #[trigger] selector.dom().contains(key) implies
            #[trigger] labels.dom().contains(key) && selector[key] == labels[key] by {}
    }
    if selector.submap_of(labels) {
        assert forall|key: Seq<char>| #[trigger] selector.dom().contains(key) implies
            labels.dom().contains(key) && labels[key] == selector[key] by {
            assert(labels.dom().contains(key));
        }
    }
}

/// A site of the network is listed behind the others, whatever else it has.
pub proof fn law_every_site_of_the_network_is_listed(
    sites: Seq<resource::GridSiteView>,
    site: resource::GridSiteView,
)
    ensures
        sites_of_network(sites.push(site), site.grid_network_ref) == sites_of_network(
            sites,
            site.grid_network_ref,
        ).push(site),
        sites_of_network(Seq::empty(), site.grid_network_ref).len() == 0,
{
    reveal(Seq::filter);
    assert(sites.push(site).drop_last() =~= sites);
}

/// A site is listed for a network exactly if it is among the sites and belongs
/// to the network.
pub proof fn law_listed_sites_belong_to_the_network(
    sites: Seq<resource::GridSiteView>,
    network: Seq<char>,
    site: resource::GridSiteView,
)
    ensures
        sites_of_network(sites, network).contains(site) <==> sites.contains(site)
            && site.grid_network_ref == network,
    decreases sites.len(),
{
    let listed = sites_of_network(sites, network);
    if sites.len() == 0 {
        reveal(Seq::filter);
        assert(listed =~= Seq::empty());
    } else {
        let rest = sites.drop_last();
        let last = sites.last();
        let rest_listed = sites_of_network(rest, network);
        law_listed_sites_belong_to_the_network(rest, network, site);
        assert(sites =~= rest.push(last));
        assert(sites.contains(site) <==> rest.contains(site) || last == site) by {
            if sites.contains(site) {
                let i = choose|i: int| 0 <= i < sites.len() && sites[i] == site;
                if i < rest.len() {
                    assert(rest[i] == site);
                }
            }
            if rest.contains(site) {
                let i = choose|i: int| 0 <= i < rest.len() && rest[i] == site;
                assert(sites[i] == site);
            }
            if last == site {
                assert(sites[sites.len() - 1] == site);
            }
        }
        if last.grid_network_ref == network {
            law_every_site_of_the_network_is_listed(rest, last);
            assert(listed == rest_listed.push(last));
            if listed.contains(site) {
                let i = choose|i: int| 0 <= i < listed.len() && listed[i] == site;
                if i < rest_listed.len() {
                    assert(rest_listed[i] == site);
                }
            }
            if rest_listed.contains(site) {
                let i = choose|i: int| 0 <= i < rest_listed.len() && rest_listed[i] == site;
                assert(listed[i] == site);
            }
            if last == site {
                assert(listed[listed.len() - 1] == site);
            }
        } else {
            law_other_networks_are_ignored(rest, last, network);
        }
    }
}

/// A further site adds its name to the matching names once if it has a name and
/// meets the selector, and nothing otherwise.
pub proof fn law_each_site_counts_once(
    sites: Seq<resource::GridSiteView>,
    site: resource::GridSiteView,
    spec: resource::InferenceProviderSpecView,
)
    ensures
        matching_names(sites.push(site), spec).to_multiset() == (match site.metadata.name {
            Some(name) if meets(site.metadata.labels, spec.match_labels) => matching_names(
                sites,
                spec,
            ).to_multiset().insert(name),
            _ => matching_names(sites, spec).to_multiset(),
        }),
        matching_names(Seq::empty(), spec).len() == 0,
{
    broadcast use vstd::seq_lib::group_to_multiset_ensures;

    let selector = spec.match_labels;
    assert(sites.push(site).drop_last() =~= sites);
    ordering::lemma_in_order(names_meeting(sites, selector));
    ordering::lemma_in_order(names_meeting(sites.push(site), selector));
    ordering::law_in_order_keeps_every_name(names_meeting(Seq::empty(), selector));
}

} // verus!
