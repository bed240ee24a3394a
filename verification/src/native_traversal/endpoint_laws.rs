//! In which order endpoints are tried, and which are kept: stated on what is known of two of them.
use vstd::prelude::*;

use crate::connectivity::ConnectivityEndpoint;
use crate::native_traversal::endpoints::{
    all_distinct, lemma_placed_at, policy_order, policy_order_is_ranked, policy_order_is_stable,
    priority, retained, stands_at, with_report, with_success, EndpointFreshness, EndpointScope,
    EndpointValidationState, EndpointView, SightingView,
};

verus! {

/// One endpoint has to be tried before another. A local endpoint goes before a public one. Of the
/// same scope, one with an authenticated success goes before one without. Of two with a success the
/// later success goes first, and of two without one the later sighting.
pub open spec fn is_preferred(left: EndpointView, right: EndpointView) -> bool {
    if left.scope != right.scope {
        left.scope == EndpointScope::Lan
    } else {
        match (left.last_success, right.last_success) {
            (Some(one), Some(two)) => one > two,
            (Some(_), None) => true,
            (None, Some(_)) => false,
            (None, None) => left.last_seen > right.last_seen,
        }
    }
}

/// Neither of two endpoints goes before the other.
pub open spec fn is_alike(left: EndpointView, right: EndpointView) -> bool {
    !is_preferred(left, right) && !is_preferred(right, left)
}

/// How old a success is counts from the success on: up to a day it is fresh, up to a week stale,
/// and old after that. A success that lies ahead is fresh, and without one there is no freshness.
pub proof fn freshness_is_a_day_and_a_week(candidate: EndpointView, now_millis: u64)
    ensures
        candidate.last_success is None <==> candidate.freshness(now_millis) is None,
        candidate.last_success matches Some(success) ==> {
            &&& now_millis <= success + 86_400_000 <==> candidate.freshness(now_millis) == Some(
                EndpointFreshness::Fresh,
            )
            &&& success + 86_400_000 < now_millis <= success + 604_800_000
                <==> candidate.freshness(now_millis) == Some(EndpointFreshness::Stale)
            &&& success + 604_800_000 < now_millis <==> candidate.freshness(now_millis) == Some(
                EndpointFreshness::Old,
            )
        },
        candidate.validation() == EndpointValidationState::PathValidated
            <==> candidate.last_success is Some,
{
}

/// The candidates are tried in order of preference: none stands before one that goes before it.
pub proof fn order_follows_preference(candidates: Seq<EndpointView>, now_millis: u64, i: int, j: int)
    requires
        0 <= i < j < policy_order(candidates, now_millis).len(),
    ensures
        !is_preferred(
            policy_order(candidates, now_millis)[j],
            policy_order(candidates, now_millis)[i],
        ),
{
    policy_order_is_ranked(candidates, now_millis);
    let ordered = policy_order(candidates, now_millis);
    let one = priority(ordered[i], now_millis);
    let two = priority(ordered[j], now_millis);
}

/// Of two validated endpoints of one scope, the one with the later success is tried first, and of
/// two that were only reported, the one that was seen later.
pub proof fn newer_endpoint_is_tried_first(
    candidates: Seq<EndpointView>,
    now_millis: u64,
    i: int,
    j: int,
)
    requires
        0 <= i < j < policy_order(candidates, now_millis).len(),
    ensures
        ({
            let first = policy_order(candidates, now_millis)[i];
            let second = policy_order(candidates, now_millis)[j];
            &&& second.scope == EndpointScope::Lan ==> first.scope == EndpointScope::Lan
            &&& first.scope == second.scope && second.last_success is Some ==> first.last_success
                is Some && first.last_success->0 >= second.last_success->0
            &&& first.scope == second.scope && first.last_success is None ==> second.last_success
                is None && first.last_seen >= second.last_seen
        }),
{
    order_follows_preference(candidates, now_millis, i, j);
}

/// Ordering neither loses nor invents an endpoint.
pub proof fn order_is_a_rearrangement(candidates: Seq<EndpointView>, now_millis: u64)
    ensures
        policy_order(candidates, now_millis).to_multiset() == candidates.to_multiset(),
        policy_order(candidates, now_millis).len() == candidates.len(),
    decreases candidates.len(),
{
    broadcast use vstd::seq_lib::group_to_multiset_ensures;

    if candidates.len() > 0 {
        let shorter = candidates.drop_last();
        let last = candidates.last();
        order_is_a_rearrangement(shorter, now_millis);
        let before = policy_order(shorter, now_millis);
        let at = lemma_placed_at(before, last, now_millis);
        assert(before.insert(at, last).to_multiset() =~= before.to_multiset().insert(last));
        assert(shorter.push(last) == candidates);
        assert(candidates.to_multiset() =~= shorter.to_multiset().insert(last));
    } else {
        assert(policy_order(candidates, now_millis) == candidates);
    }
}

/// Endpoints of which none goes before the other keep the order in which they stand.
pub proof fn order_keeps_alike_endpoints(
    candidates: Seq<EndpointView>,
    now_millis: u64,
    example: EndpointView,
)
    ensures
        policy_order(candidates, now_millis).filter(
            |candidate: EndpointView| is_alike(candidate, example),
        ) == candidates.filter(|candidate: EndpointView| is_alike(candidate, example)),
{
    let rank = priority(example, now_millis);
    policy_order_is_stable(candidates, rank, now_millis);
    let of_rank = |candidate: EndpointView| priority(candidate, now_millis) == rank;
    let alike = |candidate: EndpointView| is_alike(candidate, example);
    assert forall|candidate: EndpointView| #[trigger] of_rank(candidate) == alike(candidate) by {}
    lemma_same_filter(candidates, of_rank, alike);
    lemma_same_filter(policy_order(candidates, now_millis), of_rank, alike);
}

proof fn lemma_same_filter(
    candidates: Seq<EndpointView>,
    one: spec_fn(EndpointView) -> bool,
    two: spec_fn(EndpointView) -> bool,
)
    requires
        forall|candidate: EndpointView| #[trigger] one(candidate) == two(candidate),
    ensures
        candidates.filter(one) == candidates.filter(two),
    decreases candidates.len(),
{
    reveal(Seq::filter);
    if candidates.len() > 0 {
        lemma_same_filter(candidates.drop_last(), one, two);
        assert(one(candidates.last()) == two(candidates.last()));
    }
}

/// At most four endpoints are kept, and all of them where there are no more.
pub proof fn four_endpoints_are_kept(candidates: Seq<EndpointView>, now_millis: u64)
    ensures
        retained(candidates, now_millis).len() == (if candidates.len() <= 4 {
            candidates.len()
        } else {
            4
        }),
        candidates.len() <= 4 ==> retained(candidates, now_millis).to_multiset()
            == candidates.to_multiset(),
        forall|i: int|
            0 <= i < retained(candidates, now_millis).len() ==> candidates.contains(
                #[trigger] retained(candidates, now_millis)[i],
            ),
{
    broadcast use vstd::seq_lib::group_to_multiset_ensures;

    order_is_a_rearrangement(candidates, now_millis);
    let kept = retained(candidates, now_millis);
    let ordered = policy_order(candidates, now_millis);
    assert forall|i: int| 0 <= i < kept.len() implies candidates.contains(#[trigger] kept[i]) by {
        assert(kept[i] == ordered[i]);
        assert(ordered.contains(ordered[i]));
        assert(ordered.to_multiset().count(ordered[i]) > 0);
    }
}

/// What is kept stands in order of preference.
pub proof fn kept_endpoints_stand_in_order(
    candidates: Seq<EndpointView>,
    now_millis: u64,
    i: int,
    j: int,
)
    requires
        0 <= i < j < retained(candidates, now_millis).len(),
    ensures
        !is_preferred(
            retained(candidates, now_millis)[j],
            retained(candidates, now_millis)[i],
        ),
{
    order_is_a_rearrangement(candidates, now_millis);
    order_follows_preference(candidates, now_millis, i, j);
}

/// No endpoint is dropped for one that it goes before: of equals, the one with the oldest success
/// or sighting goes first.
pub proof fn dropped_endpoint_is_never_preferred(
    candidates: Seq<EndpointView>,
    now_millis: u64,
    dropped: EndpointView,
    kept: int,
)
    requires
        candidates.contains(dropped),
        !retained(candidates, now_millis).contains(dropped),
        0 <= kept < retained(candidates, now_millis).len(),
    ensures
        !is_preferred(dropped, retained(candidates, now_millis)[kept]),
{
    broadcast use vstd::seq_lib::group_to_multiset_ensures;

    order_is_a_rearrangement(candidates, now_millis);
    let ordered = policy_order(candidates, now_millis);
    assert(candidates.to_multiset().count(dropped) > 0);
    assert(ordered.to_multiset().count(dropped) > 0);
    assert(ordered.contains(dropped));
    let at = choose|at: int| 0 <= at < ordered.len() && ordered[at] == dropped;
    if at < retained(candidates, now_millis).len() {
        assert(retained(candidates, now_millis)[at] == dropped);
    }
    order_follows_preference(candidates, now_millis, kept, at);
}

/// A report of a known endpoint renews its scope, its source, its network and when it was last seen,
/// and keeps when it was first seen and its last success. Every other endpoint stays as it is.
pub proof fn report_renews_a_known_endpoint(
    candidates: Seq<EndpointView>,
    endpoint: ConnectivityEndpoint,
    sighting: SightingView,
    at: int,
)
    requires
        all_distinct(candidates),
        stands_at(candidates, endpoint, at),
    ensures
        ({
            let after = with_report(candidates, endpoint, sighting);
            &&& after.len() == candidates.len()
            &&& after[at].endpoint == endpoint
            &&& after[at].scope == sighting.scope
            &&& after[at].provenance == sighting.provenance
            &&& after[at].network_epoch == sighting.network_epoch
            &&& after[at].last_seen == sighting.now
            &&& after[at].first_seen == candidates[at].first_seen
            &&& after[at].last_success == candidates[at].last_success
            &&& forall|i: int|
                0 <= i < candidates.len() && i != at ==> #[trigger] after[i] == candidates[i]
        }),
{
    lemma_stands_once(candidates, endpoint, at);
}

/// A report of an unknown endpoint adds it, seen for the first time and without any success. Every
/// other endpoint stays as it is.
pub proof fn report_adds_an_unknown_endpoint(
    candidates: Seq<EndpointView>,
    endpoint: ConnectivityEndpoint,
    sighting: SightingView,
)
    requires
        forall|at: int| !(#[trigger] stands_at(candidates, endpoint, at)),
    ensures
        ({
            let after = with_report(candidates, endpoint, sighting);
            let added = after.last();
            &&& after.len() == candidates.len() + 1
            &&& after.drop_last() == candidates
            &&& added.endpoint == endpoint
            &&& added.scope == sighting.scope
            &&& added.provenance == sighting.provenance
            &&& added.network_epoch == sighting.network_epoch
            &&& added.first_seen == sighting.now
            &&& added.last_seen == sighting.now
            &&& added.last_success is None
        }),
{
    let after = with_report(candidates, endpoint, sighting);
    assert(after.drop_last() =~= candidates);
}

/// An authenticated success on a known endpoint renews it as a report does, and its last success is
/// now. Every other endpoint stays as it is.
pub proof fn success_renews_a_known_endpoint(
    candidates: Seq<EndpointView>,
    endpoint: ConnectivityEndpoint,
    sighting: SightingView,
    at: int,
)
    requires
        all_distinct(candidates),
        stands_at(candidates, endpoint, at),
    ensures
        ({
            let after = with_success(candidates, endpoint, sighting);
            &&& after.len() == candidates.len()
            &&& after[at].endpoint == endpoint
            &&& after[at].scope == sighting.scope
            &&& after[at].provenance == sighting.provenance
            &&& after[at].network_epoch == sighting.network_epoch
            &&& after[at].last_seen == sighting.now
            &&& after[at].first_seen == candidates[at].first_seen
            &&& after[at].last_success == Some(sighting.now)
            &&& forall|i: int|
                0 <= i < candidates.len() && i != at ==> #[trigger] after[i] == candidates[i]
        }),
{
    lemma_stands_once(candidates, endpoint, at);
}

/// An authenticated success on an unknown endpoint adds it, seen and validated now. Every other
/// endpoint stays as it is.
pub proof fn success_adds_an_unknown_endpoint(
    candidates: Seq<EndpointView>,
    endpoint: ConnectivityEndpoint,
    sighting: SightingView,
)
    requires
        forall|at: int| !(#[trigger] stands_at(candidates, endpoint, at)),
    ensures
        ({
            let after = with_success(candidates, endpoint, sighting);
            let added = after.last();
            &&& after.len() == candidates.len() + 1
            &&& after.drop_last() == candidates
            &&& added.endpoint == endpoint
            &&& added.scope == sighting.scope
            &&& added.provenance == sighting.provenance
            &&& added.network_epoch == sighting.network_epoch
            &&& added.first_seen == sighting.now
            &&& added.last_seen == sighting.now
            &&& added.last_success == Some(sighting.now)
        }),
{
    let after = with_success(candidates, endpoint, sighting);
    assert(after.drop_last() =~= candidates);
}

proof fn lemma_stands_once(
    candidates: Seq<EndpointView>,
    endpoint: ConnectivityEndpoint,
    at: int,
)
    requires
        all_distinct(candidates),
        stands_at(candidates, endpoint, at),
    ensures
        (choose|other: int| #[trigger] stands_at(candidates, endpoint, other)) == at,
{
    let other = choose|other: int| #[trigger] stands_at(candidates, endpoint, other);
    assert(candidates[other].endpoint == candidates[at].endpoint);
}

/// The endpoint that goes before every other is kept, and stands first.
pub proof fn best_endpoint_is_kept(candidates: Seq<EndpointView>, now_millis: u64, best: int)
    requires
        0 <= best < candidates.len(),
        forall|i: int| 0 <= i < candidates.len() && i != best ==> is_preferred(
            candidates[best],
            #[trigger] candidates[i],
        ),
    ensures
        retained(candidates, now_millis).contains(candidates[best]),
        retained(candidates, now_millis)[0] == candidates[best],
{
    broadcast use vstd::seq_lib::group_to_multiset_ensures;

    order_is_a_rearrangement(candidates, now_millis);
    four_endpoints_are_kept(candidates, now_millis);
    let ordered = policy_order(candidates, now_millis);
    let kept = retained(candidates, now_millis);
    let first = kept[0];
    assert(kept[0] == ordered[0]);
    assert(candidates.contains(first));
    let at = choose|at: int| 0 <= at < candidates.len() && candidates[at] == first;
    if at != best {
        assert(is_preferred(candidates[best], candidates[at]));
        assert(candidates.to_multiset().count(candidates[best]) > 0);
        assert(ordered.contains(candidates[best]));
        let place = choose|place: int|
            0 <= place < ordered.len() && ordered[place] == candidates[best];
        if place > 0 {
            order_follows_preference(candidates, now_millis, 0, place);
        }
    }
}

} // verus!
