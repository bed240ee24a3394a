//! The endpoints of a peer that are worth keeping, and the order in which to try them.
//!
//! Order and age are routing policy only: no endpoint is trusted for its place in the list.
use vstd::prelude::*;

use crate::bytes::same_bytes;
use crate::connectivity::{ConnectivityEndpoint, IpAddr};

verus! {

/// Maximum endpoint hints retained for one peer.
pub const MAX_RETAINED_ENDPOINTS_PER_PEER: usize = 4;

/// Last authenticated success remains fresh for this long.
pub const ENDPOINT_FRESH_MILLIS: u64 = 86_400_000;

/// Last authenticated success is old after this long.
pub const ENDPOINT_OLD_MILLIS: u64 = 604_800_000;

/// Address family recorded explicitly with one retained endpoint candidate.
#[derive(Clone, Copy, PartialEq, Eq, Structural, Hash, Debug)]
pub enum EndpointAddressFamily {
    /// IPv4 endpoint.
    Ipv4,
    /// IPv6 endpoint.
    Ipv6,
}

/// Product routing scope for one retained endpoint candidate.
#[derive(Clone, Copy, PartialEq, Eq, Structural, Hash, Debug)]
pub enum EndpointScope {
    /// Candidate is expected on the peer's local LAN.
    Lan,
    /// Candidate is expected through direct Internet reachability.
    Public,
}

/// How one retained endpoint candidate was learned.
#[derive(Clone, Copy, PartialEq, Eq, Structural, Hash, Debug)]
pub enum EndpointProvenance {
    /// Local LAN discovery produced the endpoint.
    LanDiscovery,
    /// UDP receive metadata exposed the remote source endpoint.
    DirectSocketObserved,
    /// An authenticated peer reported the endpoint as routing metadata.
    AuthenticatedPeerReported,
    /// The owner supplied the endpoint for cold recovery.
    ManualBootstrap,
}

/// Durable validation state for one retained endpoint candidate.
#[derive(Clone, Copy, PartialEq, Eq, Structural, Hash, Debug)]
pub enum EndpointValidationState {
    /// Candidate is routing metadata but has not completed authenticated path validation.
    Reported,
    /// Candidate completed transport plus session authentication on this endpoint.
    PathValidated,
}

/// Freshness derived only from the age of the last authenticated successful use.
#[derive(Clone, Copy, PartialEq, Eq, PartialOrd, Ord, Structural, Hash, Debug)]
pub enum EndpointFreshness {
    /// Last authenticated success is at most 24 hours old.
    Fresh,
    /// Last authenticated success is older than 24 hours but not older than seven days.
    Stale,
    /// Last authenticated success is older than seven days.
    Old,
}

/// Privacy-preserving opaque peer network generation identifier. It contains no SSID, carrier,
/// location, ASN or other descriptive network metadata.
#[derive(Clone, Copy, Eq, Hash, Debug)]
pub struct NetworkEpoch {
    bytes: [u8; 16],
}

impl View for NetworkEpoch {
    type V = Seq<u8>;

    closed spec fn view(&self) -> Seq<u8> {
        self.bytes@
    }
}

impl PartialEq for NetworkEpoch {
    fn eq(&self, other: &Self) -> (same: bool) {
        same_bytes(&self.bytes, &other.bytes)
    }
}

impl vstd::std_specs::cmp::PartialEqSpecImpl for NetworkEpoch {
    open spec fn obeys_eq_spec() -> bool {
        true
    }

    open spec fn eq_spec(&self, other: &Self) -> bool {
        self@ == other@
    }
}

impl NetworkEpoch {
    /// Wraps one caller-provided opaque network-generation value.
    pub fn from_bytes(bytes: [u8; 16]) -> (epoch: NetworkEpoch)
        ensures
            epoch@ == bytes@,
    {
        NetworkEpoch { bytes }
    }

    /// Returns the opaque bytes.
    pub fn as_bytes(&self) -> (bytes: &[u8; 16])
        ensures
            bytes@ == self@,
    {
        &self.bytes
    }
}

/// Minimal retained routing metadata for one peer endpoint. Times are milliseconds of the
/// caller's clock.
#[derive(Clone, Copy, PartialEq, Eq, Debug)]
pub struct PeerEndpointCandidate {
    endpoint: ConnectivityEndpoint,
    address_family: EndpointAddressFamily,
    scope: EndpointScope,
    provenance: EndpointProvenance,
    validation_state: EndpointValidationState,
    network_epoch: NetworkEpoch,
    first_seen_at_millis: u64,
    last_seen_at_millis: u64,
    last_success_at_millis: Option<u64>,
}

/// What a [`PeerEndpointCandidate`] says.
pub struct EndpointView {
    pub endpoint: ConnectivityEndpoint,
    pub scope: EndpointScope,
    pub provenance: EndpointProvenance,
    pub network_epoch: Seq<u8>,
    pub first_seen: u64,
    pub last_seen: u64,
    /// The last authenticated success, if there was one.
    pub last_success: Option<u64>,
}

impl View for PeerEndpointCandidate {
    type V = EndpointView;

    closed spec fn view(&self) -> EndpointView {
        EndpointView {
            endpoint: self.endpoint,
            scope: self.scope,
            provenance: self.provenance,
            network_epoch: self.network_epoch@,
            first_seen: self.first_seen_at_millis,
            last_seen: self.last_seen_at_millis,
            last_success: self.last_success_at_millis,
        }
    }
}

/// The family of an endpoint's address.
pub open spec fn family_of(endpoint: ConnectivityEndpoint) -> EndpointAddressFamily {
    match endpoint.spec_address() {
        IpAddr::V4(_) => EndpointAddressFamily::Ipv4,
        IpAddr::V6(_) => EndpointAddressFamily::Ipv6,
    }
}

fn address_family(endpoint: ConnectivityEndpoint) -> (family: EndpointAddressFamily)
    ensures
        family == family_of(endpoint),
{
    match endpoint.address() {
        IpAddr::V4(_) => EndpointAddressFamily::Ipv4,
        IpAddr::V6(_) => EndpointAddressFamily::Ipv6,
    }
}

/// One sighting of an endpoint.
pub struct SightingView {
    pub scope: EndpointScope,
    pub provenance: EndpointProvenance,
    pub network_epoch: Seq<u8>,
    pub now: u64,
}

impl EndpointView {
    /// An endpoint seen for the first time and not yet validated.
    pub open spec fn reported(endpoint: ConnectivityEndpoint, sighting: SightingView) -> EndpointView {
        EndpointView {
            endpoint,
            scope: sighting.scope,
            provenance: sighting.provenance,
            network_epoch: sighting.network_epoch,
            first_seen: sighting.now,
            last_seen: sighting.now,
            last_success: None,
        }
    }

    /// The same endpoint seen again.
    pub open spec fn seen(self, sighting: SightingView) -> EndpointView {
        EndpointView {
            scope: sighting.scope,
            provenance: sighting.provenance,
            network_epoch: sighting.network_epoch,
            last_seen: sighting.now,
            ..self
        }
    }

    /// The same endpoint after an authenticated success on it.
    pub open spec fn succeeded(self, sighting: SightingView) -> EndpointView {
        EndpointView { last_success: Some(sighting.now), ..self.seen(sighting) }
    }

    /// A path is validated exactly when there was an authenticated success on it.
    pub open spec fn validation(self) -> EndpointValidationState {
        if self.last_success is Some {
            EndpointValidationState::PathValidated
        } else {
            EndpointValidationState::Reported
        }
    }

    /// How long ago the last success was; nothing of the future counts as older than now.
    pub open spec fn age(self, now_millis: u64) -> int {
        if now_millis >= self.last_success->0 {
            now_millis - self.last_success->0
        } else {
            0
        }
    }

    /// Freshness from authenticated success alone.
    pub open spec fn freshness(self, now_millis: u64) -> Option<EndpointFreshness> {
        if self.last_success is None {
            None
        } else if self.age(now_millis) > ENDPOINT_OLD_MILLIS {
            Some(EndpointFreshness::Old)
        } else if self.age(now_millis) > ENDPOINT_FRESH_MILLIS {
            Some(EndpointFreshness::Stale)
        } else {
            Some(EndpointFreshness::Fresh)
        }
    }

    /// The moment by which equally ranked endpoints are ordered, newest first.
    pub open spec fn recency(self) -> u64 {
        match self.last_success {
            Some(moment) => moment,
            None => self.last_seen,
        }
    }
}

/// The rank of an endpoint: local before public, validated before reported, fresher first, newer
/// first.
pub open spec fn priority(candidate: EndpointView, now_millis: u64) -> (int, int, int, int) {
    (
        if candidate.scope == EndpointScope::Lan {
            0
        } else {
            1
        },
        if candidate.validation() == EndpointValidationState::PathValidated {
            0
        } else {
            1
        },
        match candidate.freshness(now_millis) {
            Some(EndpointFreshness::Fresh) => 0,
            Some(EndpointFreshness::Stale) => 1,
            Some(EndpointFreshness::Old) => 2,
            None => 3,
        },
        u64::MAX - candidate.recency(),
    )
}

/// The order of ranks, field by field.
pub open spec fn not_after(left: (int, int, int, int), right: (int, int, int, int)) -> bool {
    ||| left.0 < right.0
    ||| left.0 == right.0 && left.1 < right.1
    ||| left.0 == right.0 && left.1 == right.1 && left.2 < right.2
    ||| left.0 == right.0 && left.1 == right.1 && left.2 == right.2 && left.3 <= right.3
}

impl PeerEndpointCandidate {
    /// The redundant fields say what the others say.
    pub closed spec fn wf(&self) -> bool {
        &&& self.address_family == family_of(self.endpoint)
        &&& self.validation_state == self@.validation()
    }

    fn reported(
        endpoint: ConnectivityEndpoint,
        scope: EndpointScope,
        provenance: EndpointProvenance,
        network_epoch: NetworkEpoch,
        now_millis: u64,
    ) -> (candidate: PeerEndpointCandidate)
        ensures
            candidate.wf(),
            candidate@ == EndpointView::reported(
                endpoint,
                (SightingView { scope, provenance, network_epoch: network_epoch@, now: now_millis }),
            ),
    {
        PeerEndpointCandidate {
            endpoint,
            address_family: address_family(endpoint),
            scope,
            provenance,
            validation_state: EndpointValidationState::Reported,
            network_epoch,
            first_seen_at_millis: now_millis,
            last_seen_at_millis: now_millis,
            last_success_at_millis: None,
        }
    }

    /// Returns the explicit IP/UDP endpoint.
    pub fn endpoint(self) -> (endpoint: ConnectivityEndpoint)
        ensures
            endpoint == self@.endpoint,
    {
        self.endpoint
    }

    /// Returns the explicitly recorded address family.
    pub fn address_family(self) -> (family: EndpointAddressFamily)
        requires
            self.wf(),
        ensures
            family == family_of(self@.endpoint),
            family == EndpointAddressFamily::Ipv4 <==> self@.endpoint.spec_address() is V4,
    {
        self.address_family
    }

    /// Returns LAN/public routing scope.
    pub fn scope(self) -> (scope: EndpointScope)
        ensures
            scope == self@.scope,
    {
        self.scope
    }

    /// Returns how the current routing observation was learned.
    pub fn provenance(self) -> (provenance: EndpointProvenance)
        ensures
            provenance == self@.provenance,
    {
        self.provenance
    }

    /// Returns durable validation state.
    pub fn validation_state(self) -> (state: EndpointValidationState)
        requires
            self.wf(),
        ensures
            state == self@.validation(),
            state == EndpointValidationState::PathValidated <==> self@.last_success is Some,
    {
        self.validation_state
    }

    /// Returns the opaque peer network epoch.
    pub fn network_epoch(self) -> (epoch: NetworkEpoch)
        ensures
            epoch@ == self@.network_epoch,
    {
        self.network_epoch
    }

    /// Returns first-observed policy timestamp.
    pub fn first_seen_at_millis(self) -> (moment: u64)
        ensures
            moment == self@.first_seen,
    {
        self.first_seen_at_millis
    }

    /// Returns most-recently-observed policy timestamp.
    pub fn last_seen_at_millis(self) -> (moment: u64)
        ensures
            moment == self@.last_seen,
    {
        self.last_seen_at_millis
    }

    /// Returns most recent authenticated successful-use timestamp, when any.
    pub fn last_success_at_millis(self) -> (moment: Option<u64>)
        ensures
            moment == self@.last_success,
    {
        self.last_success_at_millis
    }

    /// Classifies freshness from authenticated success only.
    pub fn freshness(self, now_millis: u64) -> (freshness: Option<EndpointFreshness>)
        ensures
            freshness == self@.freshness(now_millis),
    {
        let last_success: u64 = match self.last_success_at_millis {
            Some(moment) => moment,
            None => {
                return None;
            },
        };
        let age: u64 = now_millis.saturating_sub(last_success);
        if age > ENDPOINT_OLD_MILLIS {
            Some(EndpointFreshness::Old)
        } else if age > ENDPOINT_FRESH_MILLIS {
            Some(EndpointFreshness::Stale)
        } else {
            Some(EndpointFreshness::Fresh)
        }
    }

    fn record_seen(
        &mut self,
        scope: EndpointScope,
        provenance: EndpointProvenance,
        network_epoch: NetworkEpoch,
        now_millis: u64,
    )
        requires
            old(self).wf(),
        ensures
            final(self).wf(),
            final(self)@ == old(self)@.seen(
                (SightingView { scope, provenance, network_epoch: network_epoch@, now: now_millis }),
            ),
    {
        self.scope = scope;
        self.provenance = provenance;
        self.network_epoch = network_epoch;
        self.last_seen_at_millis = now_millis;
    }

    fn record_authenticated_success(
        &mut self,
        scope: EndpointScope,
        provenance: EndpointProvenance,
        network_epoch: NetworkEpoch,
        now_millis: u64,
    )
        requires
            old(self).wf(),
        ensures
            final(self).wf(),
            final(self)@ == old(self)@.succeeded(
                (SightingView { scope, provenance, network_epoch: network_epoch@, now: now_millis }),
            ),
    {
        self.record_seen(scope, provenance, network_epoch, now_millis);
        self.validation_state = EndpointValidationState::PathValidated;
        self.last_success_at_millis = Some(now_millis);
    }

    fn priority_recency(self) -> (moment: u64)
        ensures
            moment == self@.recency(),
    {
        match self.last_success_at_millis {
            Some(moment) => moment,
            None => self.last_seen_at_millis,
        }
    }
}

fn endpoint_priority_key(candidate: PeerEndpointCandidate, now_millis: u64) -> (key: (u8, u8, u8, u64))
    requires
        candidate.wf(),
    ensures
        (key.0 as int, key.1 as int, key.2 as int, key.3 as int) == priority(
            candidate@,
            now_millis,
        ),
{
    let scope_rank: u8 = match candidate.scope {
        EndpointScope::Lan => 0,
        EndpointScope::Public => 1,
    };
    let validation_rank: u8 = match candidate.validation_state {
        EndpointValidationState::PathValidated => 0,
        EndpointValidationState::Reported => 1,
    };
    let freshness_rank: u8 = match candidate.freshness(now_millis) {
        Some(EndpointFreshness::Fresh) => 0,
        Some(EndpointFreshness::Stale) => 1,
        Some(EndpointFreshness::Old) => 2,
        None => 3,
    };
    let newest_first: u64 = u64::MAX - candidate.priority_recency();
    (scope_rank, validation_rank, freshness_rank, newest_first)
}

fn key_not_after(left: (u8, u8, u8, u64), right: (u8, u8, u8, u64)) -> (ordered: bool)
    ensures
        ordered == not_after(
            (left.0 as int, left.1 as int, left.2 as int, left.3 as int),
            (right.0 as int, right.1 as int, right.2 as int, right.3 as int),
        ),
{
    if left.0 != right.0 {
        left.0 < right.0
    } else if left.1 != right.1 {
        left.1 < right.1
    } else if left.2 != right.2 {
        left.2 < right.2
    } else {
        left.3 <= right.3
    }
}

/// A ranked list with one more endpoint, after all that do not rank behind it.
pub open spec fn placed(ordered: Seq<EndpointView>, candidate: EndpointView, now_millis: u64) -> Seq<
    EndpointView,
>
    decreases ordered.len(),
{
    if ordered.len() == 0 || not_after(
        priority(ordered.last(), now_millis),
        priority(candidate, now_millis),
    ) {
        ordered.push(candidate)
    } else {
        placed(ordered.drop_last(), candidate, now_millis).push(ordered.last())
    }
}

/// The endpoints by rank, those of equal rank in the order in which they stand.
pub open spec fn policy_order(candidates: Seq<EndpointView>, now_millis: u64) -> Seq<EndpointView>
    decreases candidates.len(),
{
    if candidates.len() == 0 {
        candidates
    } else {
        placed(policy_order(candidates.drop_last(), now_millis), candidates.last(), now_millis)
    }
}

/// The endpoints that are kept: the first few by rank.
pub open spec fn retained(candidates: Seq<EndpointView>, now_millis: u64) -> Seq<EndpointView> {
    let ordered = policy_order(candidates, now_millis);
    if ordered.len() <= MAX_RETAINED_ENDPOINTS_PER_PEER {
        ordered
    } else {
        ordered.take(MAX_RETAINED_ENDPOINTS_PER_PEER as int)
    }
}

/// Where an endpoint stands in a list.
pub open spec fn stands_at(candidates: Seq<EndpointView>, endpoint: ConnectivityEndpoint, at: int) -> bool {
    0 <= at < candidates.len() && candidates[at].endpoint == endpoint
}

/// Whether an endpoint stands in a list.
pub open spec fn is_known(candidates: Seq<EndpointView>, endpoint: ConnectivityEndpoint) -> bool {
    exists|at: int| #[trigger] stands_at(candidates, endpoint, at)
}

/// No endpoint stands in a list twice.
pub open spec fn all_distinct(candidates: Seq<EndpointView>) -> bool {
    forall|i: int, j: int|
        0 <= i < candidates.len() && 0 <= j < candidates.len() && i != j ==> (
        #[trigger] candidates[i]).endpoint != (#[trigger] candidates[j]).endpoint
}

/// The list after a report of an endpoint, before it is ranked and cut.
pub open spec fn with_report(
    candidates: Seq<EndpointView>,
    endpoint: ConnectivityEndpoint,
    sighting: SightingView,
) -> Seq<EndpointView> {
    if is_known(candidates, endpoint) {
        let at = choose|at: int| #[trigger] stands_at(candidates, endpoint, at);
        candidates.update(at, candidates[at].seen(sighting))
    } else {
        candidates.push(EndpointView::reported(endpoint, sighting))
    }
}

/// The list after an authenticated success on an endpoint, before it is ranked and cut.
pub open spec fn with_success(
    candidates: Seq<EndpointView>,
    endpoint: ConnectivityEndpoint,
    sighting: SightingView,
) -> Seq<EndpointView> {
    if is_known(candidates, endpoint) {
        let at = choose|at: int| #[trigger] stands_at(candidates, endpoint, at);
        candidates.update(at, candidates[at].succeeded(sighting))
    } else {
        candidates.push(EndpointView::reported(endpoint, sighting).succeeded(sighting))
    }
}

/// What a list of candidates says.
pub open spec fn candidate_views(candidates: Seq<PeerEndpointCandidate>) -> Seq<EndpointView> {
    Seq::new(candidates.len(), |i: int| candidates[i]@)
}

/// Every candidate of a list is well formed.
pub open spec fn all_wf(candidates: Seq<PeerEndpointCandidate>) -> bool {
    forall|i: int| 0 <= i < candidates.len() ==> (#[trigger] candidates[i]).wf()
}

fn find_endpoint(candidates: &Vec<PeerEndpointCandidate>, endpoint: ConnectivityEndpoint) -> (found:
    Option<usize>)
    requires
        all_distinct(candidate_views(candidates@)),
    ensures
        match found {
            Some(at) => {
                &&& at < candidates.len()
                &&& is_known(candidate_views(candidates@), endpoint)
                &&& (choose|other: int| #[trigger]
                    stands_at(candidate_views(candidates@), endpoint, other)) == at
                &&& candidates@[at as int]@.endpoint == endpoint
            },
            None => !is_known(candidate_views(candidates@), endpoint),
        },
{
    let mut i: usize = 0;
    while i < candidates.len()
        invariant
            i <= candidates.len(),
            all_distinct(candidate_views(candidates@)),
            forall|j: int| 0 <= j < i ==> (#[trigger] candidates@[j])@.endpoint != endpoint,
        decreases candidates.len() - i,
    {
        if candidates[i].endpoint == endpoint {
            proof {
                let views = candidate_views(candidates@);
                assert(stands_at(views, endpoint, i as int));
                let other = choose|other: int| #[trigger] stands_at(views, endpoint, other);
                assert(views[other].endpoint == views[i as int].endpoint);
            }
            return Some(i);
        }
        i = i + 1;
    }
    assert forall|at: int| !(#[trigger] stands_at(candidate_views(candidates@), endpoint, at)) by {
        if stands_at(candidate_views(candidates@), endpoint, at) {
            assert(candidates@[at]@.endpoint == endpoint);
        }
    }
    None
}

proof fn lemma_placed_skips(
    ordered: Seq<EndpointView>,
    candidate: EndpointView,
    now_millis: u64,
    at: int,
)
    requires
        0 <= at <= ordered.len(),
        forall|j: int|
            at <= j < ordered.len() ==> !not_after(
                priority(#[trigger] ordered[j], now_millis),
                priority(candidate, now_millis),
            ),
    ensures
        placed(ordered, candidate, now_millis) == placed(ordered.take(at), candidate, now_millis)
            + ordered.skip(at),
    decreases ordered.len() - at,
{
    if at == ordered.len() {
        assert(ordered.take(at) == ordered);
        assert(placed(ordered, candidate, now_millis) + ordered.skip(at) == placed(
            ordered,
            candidate,
            now_millis,
        ));
    } else {
        let last = ordered.len() - 1;
        assert(ordered.last() == ordered[last]);
        let shorter = ordered.drop_last();
        assert forall|j: int| at <= j < shorter.len() implies !not_after(
            priority(#[trigger] shorter[j], now_millis),
            priority(candidate, now_millis),
        ) by {
            assert(shorter[j] == ordered[j]);
        }
        lemma_placed_skips(shorter, candidate, now_millis, at);
        assert(shorter.take(at) == ordered.take(at));
        assert(shorter.skip(at).push(ordered.last()) == ordered.skip(at));
        assert((placed(ordered.take(at), candidate, now_millis) + shorter.skip(at)).push(
            ordered.last(),
        ) == placed(ordered.take(at), candidate, now_millis) + shorter.skip(at).push(
            ordered.last(),
        ));
    }
}

/// The candidates in the order of policy.
fn sorted_by_policy(candidates: &Vec<PeerEndpointCandidate>, now_millis: u64) -> (ordered: Vec<
    PeerEndpointCandidate,
>)
    requires
        all_wf(candidates@),
    ensures
        all_wf(ordered@),
        candidate_views(ordered@) == policy_order(candidate_views(candidates@), now_millis),
{
    let mut ordered: Vec<PeerEndpointCandidate> = Vec::new();
    let mut i: usize = 0;
    assert(candidate_views(ordered@) == candidate_views(candidates@).take(0));
    while i < candidates.len()
        invariant
            i <= candidates.len(),
            all_wf(candidates@),
            all_wf(ordered@),
            candidate_views(ordered@) == policy_order(
                candidate_views(candidates@).take(i as int),
                now_millis,
            ),
        decreases candidates.len() - i,
    {
        let candidate = candidates[i];
        let key = endpoint_priority_key(candidate, now_millis);
        let mut at: usize = ordered.len();
        while at > 0 && !key_not_after(endpoint_priority_key(ordered[at - 1], now_millis), key)
            invariant
                at <= ordered.len(),
                all_wf(ordered@),
                (key.0 as int, key.1 as int, key.2 as int, key.3 as int) == priority(
                    candidate@,
                    now_millis,
                ),
                forall|j: int|
                    at <= j < ordered.len() ==> !not_after(
                        priority((#[trigger] ordered@[j])@, now_millis),
                        priority(candidate@, now_millis),
                    ),
            decreases at,
        {
            at = at - 1;
        }
        proof {
            let views = candidate_views(candidates@);
            let before = candidate_views(ordered@);
            assert forall|j: int| at <= j < before.len() implies !not_after(
                priority(#[trigger] before[j], now_millis),
                priority(candidate@, now_millis),
            ) by {
                assert(before[j] == ordered@[j]@);
            }
            lemma_placed_skips(before, candidate@, now_millis, at as int);
            if at > 0 {
                assert(before.take(at as int).last() == ordered@[at - 1]@);
            }
            assert(placed(before.take(at as int), candidate@, now_millis) == before.take(
                at as int,
            ).push(candidate@));
            assert(views.take(i + 1).drop_last() == views.take(i as int));
            assert(views.take(i + 1).last() == candidate@);
            assert(candidate_views(ordered@.insert(at as int, candidate)) == before.take(
                at as int,
            ).push(candidate@) + before.skip(at as int));
        }
        ordered.insert(at, candidate);
        i = i + 1;
    }
    assert(candidate_views(candidates@).take(candidates.len() as int) == candidate_views(
        candidates@,
    ));
    ordered
}

/// Bounded per-peer endpoint cache. Its order is recomputed from policy at every change.
#[derive(PartialEq, Eq, Debug)]
pub struct EndpointCandidateCache {
    entries: Vec<PeerEndpointCandidate>,
}

impl View for EndpointCandidateCache {
    type V = Seq<EndpointView>;

    closed spec fn view(&self) -> Seq<EndpointView> {
        candidate_views(self.entries@)
    }
}

impl Clone for EndpointCandidateCache {
    fn clone(&self) -> (copy: Self)
        ensures
            copy@ == self@,
            copy.wf() == self.wf(),
    {
        let mut entries: Vec<PeerEndpointCandidate> = Vec::new();
        let mut i: usize = 0;
        while i < self.entries.len()
            invariant
                i <= self.entries.len(),
                entries@ == self.entries@.take(i as int),
            decreases self.entries.len() - i,
        {
            entries.push(self.entries[i]);
            i = i + 1;
            assert(entries@ =~= self.entries@.take(i as int));
        }
        assert(entries@ =~= self.entries@);
        EndpointCandidateCache { entries }
    }
}

impl Default for EndpointCandidateCache {
    fn default() -> (cache: EndpointCandidateCache)
        ensures
            cache.wf(),
            cache@ == Seq::<EndpointView>::empty(),
    {
        EndpointCandidateCache::new()
    }
}

impl EndpointCandidateCache {
    /// At most four endpoints, none of them twice.
    pub closed spec fn wf(&self) -> bool {
        &&& all_wf(self.entries@)
        &&& all_distinct(self@)
        &&& self@.len() <= MAX_RETAINED_ENDPOINTS_PER_PEER
    }

    /// Creates an empty peer endpoint cache.
    pub fn new() -> (cache: EndpointCandidateCache)
        ensures
            cache.wf(),
            cache@ == Seq::<EndpointView>::empty(),
    {
        EndpointCandidateCache { entries: Vec::new() }
    }

    /// Returns retained candidate count.
    pub fn len(&self) -> (count: usize)
        requires
            self.wf(),
        ensures
            count == self@.len(),
            count <= MAX_RETAINED_ENDPOINTS_PER_PEER,
    {
        self.entries.len()
    }

    /// Returns whether no endpoint hints are retained.
    pub fn is_empty(&self) -> (empty: bool)
        ensures
            empty == (self@.len() == 0),
    {
        self.entries.len() == 0
    }

    /// Returns retained entries in their current stored order.
    pub fn entries(&self) -> (entries: &[PeerEndpointCandidate])
        requires
            self.wf(),
        ensures
            candidate_views(entries@) == self@,
            all_wf(entries@),
            all_distinct(self@),
    {
        self.entries.as_slice()
    }

    /// Inserts or refreshes an unvalidated routing observation. A validated candidate is never
    /// downgraded by a later report.
    pub fn observe_reported(
        &mut self,
        endpoint: ConnectivityEndpoint,
        scope: EndpointScope,
        provenance: EndpointProvenance,
        network_epoch: NetworkEpoch,
        now_millis: u64,
    )
        requires
            old(self).wf(),
        ensures
            final(self).wf(),
            final(self)@ == retained(
                with_report(
                    old(self)@,
                    endpoint,
                    (SightingView {
                        scope,
                        provenance,
                        network_epoch: network_epoch@,
                        now: now_millis,
                    }),
                ),
                now_millis,
            ),
    {
        let ghost sighting = SightingView {
            scope,
            provenance,
            network_epoch: network_epoch@,
            now: now_millis,
        };
        match find_endpoint(&self.entries, endpoint) {
            Some(at) => {
                let mut existing = self.entries[at];
                existing.record_seen(scope, provenance, network_epoch, now_millis);
                self.entries.set(at, existing);
            },
            None => {
                self.entries.push(
                    PeerEndpointCandidate::reported(
                        endpoint,
                        scope,
                        provenance,
                        network_epoch,
                        now_millis,
                    ),
                );
            },
        }
        proof {
            assert(self@ == with_report(old(self)@, endpoint, sighting));
            lemma_updates_stay_distinct(old(self)@, endpoint, sighting);
        }
        self.trim_to_policy(now_millis);
    }

    /// Records authenticated success and promotes or refreshes one endpoint to `PathValidated`.
    pub fn record_authenticated_success(
        &mut self,
        endpoint: ConnectivityEndpoint,
        scope: EndpointScope,
        provenance: EndpointProvenance,
        network_epoch: NetworkEpoch,
        now_millis: u64,
    )
        requires
            old(self).wf(),
        ensures
            final(self).wf(),
            final(self)@ == retained(
                with_success(
                    old(self)@,
                    endpoint,
                    (SightingView {
                        scope,
                        provenance,
                        network_epoch: network_epoch@,
                        now: now_millis,
                    }),
                ),
                now_millis,
            ),
    {
        let ghost sighting = SightingView {
            scope,
            provenance,
            network_epoch: network_epoch@,
            now: now_millis,
        };
        match find_endpoint(&self.entries, endpoint) {
            Some(at) => {
                let mut existing = self.entries[at];
                existing.record_authenticated_success(scope, provenance, network_epoch, now_millis);
                self.entries.set(at, existing);
            },
            None => {
                let mut candidate = PeerEndpointCandidate::reported(
                    endpoint,
                    scope,
                    provenance,
                    network_epoch,
                    now_millis,
                );
                candidate.record_authenticated_success(
                    scope,
                    provenance,
                    network_epoch,
                    now_millis,
                );
                self.entries.push(candidate);
            },
        }
        proof {
            assert(self@ == with_success(old(self)@, endpoint, sighting));
            lemma_updates_stay_distinct(old(self)@, endpoint, sighting);
        }
        self.trim_to_policy(now_millis);
    }

    /// Returns a reconnect-ordered copy without granting reachability or authorization.
    pub fn ordered_candidates(&self, now_millis: u64) -> (ordered: Vec<PeerEndpointCandidate>)
        requires
            self.wf(),
        ensures
            candidate_views(ordered@) == policy_order(self@, now_millis),
            all_wf(ordered@),
    {
        sorted_by_policy(&self.entries, now_millis)
    }

    /// Removes all retained endpoint hints, as required by unpair and revoke.
    pub fn clear(&mut self)
        ensures
            final(self).wf(),
            final(self)@ == Seq::<EndpointView>::empty(),
    {
        self.entries.clear();
    }

    fn trim_to_policy(&mut self, now_millis: u64)
        requires
            all_wf(old(self).entries@),
            all_distinct(old(self)@),
        ensures
            final(self).wf(),
            final(self)@ == retained(old(self)@, now_millis),
    {
        proof {
            lemma_order_keeps_distinct(self@, now_millis);
        }
        self.entries = sorted_by_policy(&self.entries, now_millis);
        let ghost ordered = self.entries@;
        self.entries.truncate(MAX_RETAINED_ENDPOINTS_PER_PEER);
        proof {
            if ordered.len() > MAX_RETAINED_ENDPOINTS_PER_PEER {
                assert(self@ == candidate_views(ordered).take(
                    MAX_RETAINED_ENDPOINTS_PER_PEER as int,
                ));
            } else {
                assert(self.entries@ == ordered);
            }
        }
    }
}

proof fn lemma_updates_stay_distinct(
    candidates: Seq<EndpointView>,
    endpoint: ConnectivityEndpoint,
    sighting: SightingView,
)
    requires
        all_distinct(candidates),
    ensures
        all_distinct(with_report(candidates, endpoint, sighting)),
        all_distinct(with_success(candidates, endpoint, sighting)),
{
    if !is_known(candidates, endpoint) {
        assert forall|i: int| 0 <= i < candidates.len() implies (
        #[trigger] candidates[i]).endpoint != endpoint by {
            assert(!stands_at(candidates, endpoint, i));
        }
    }
}

/// Where the new endpoint lands, and that the others keep their places around it.
pub proof fn lemma_placed_at(ordered: Seq<EndpointView>, candidate: EndpointView, now_millis: u64) -> (at: int)
    ensures
        0 <= at <= ordered.len(),
        placed(ordered, candidate, now_millis) == ordered.insert(at, candidate),
        at > 0 ==> not_after(
            priority(ordered[at - 1], now_millis),
            priority(candidate, now_millis),
        ),
        forall|j: int|
            at <= j < ordered.len() ==> !not_after(
                priority(#[trigger] ordered[j], now_millis),
                priority(candidate, now_millis),
            ),
    decreases ordered.len(),
{
    if ordered.len() == 0 || not_after(
        priority(ordered.last(), now_millis),
        priority(candidate, now_millis),
    ) {
        assert(ordered.push(candidate) == ordered.insert(ordered.len() as int, candidate));
        ordered.len() as int
    } else {
        let shorter = ordered.drop_last();
        let at = lemma_placed_at(shorter, candidate, now_millis);
        assert(shorter.insert(at, candidate).push(ordered.last()) == ordered.insert(at, candidate));
        assert forall|j: int| at <= j < ordered.len() implies !not_after(
            priority(#[trigger] ordered[j], now_millis),
            priority(candidate, now_millis),
        ) by {
            if j < shorter.len() {
                assert(shorter[j] == ordered[j]);
            }
        }
        at
    }
}

proof fn lemma_order_keeps_distinct(candidates: Seq<EndpointView>, now_millis: u64)
    requires
        all_distinct(candidates),
    ensures
        all_distinct(policy_order(candidates, now_millis)),
        policy_order(candidates, now_millis).len() == candidates.len(),
        forall|endpoint: ConnectivityEndpoint| #[trigger]
            is_known(policy_order(candidates, now_millis), endpoint) ==> is_known(
                candidates,
                endpoint,
            ),
    decreases candidates.len(),
{
    if candidates.len() > 0 {
        let shorter = candidates.drop_last();
        let before = policy_order(shorter, now_millis);
        let last = candidates.last();
        lemma_order_keeps_distinct(shorter, now_millis);
        let at = lemma_placed_at(before, last, now_millis);
        let after = before.insert(at, last);
        assert forall|i: int| 0 <= i < before.len() implies (#[trigger] before[i]).endpoint
            != last.endpoint by {
            assert(stands_at(before, before[i].endpoint, i));
            assert(is_known(before, before[i].endpoint));
            let j = choose|j: int| #[trigger] stands_at(shorter, before[i].endpoint, j);
            assert(shorter[j] == candidates[j]);
            assert(candidates[candidates.len() - 1] == last);
        }
        assert forall|endpoint: ConnectivityEndpoint| #[trigger]
            is_known(after, endpoint) implies is_known(candidates, endpoint) by {
            let i = choose|i: int| #[trigger] stands_at(after, endpoint, i);
            if i == at {
                assert(stands_at(candidates, endpoint, candidates.len() - 1));
            } else {
                let k = if i < at {
                    i
                } else {
                    i - 1
                };
                assert(stands_at(before, endpoint, k));
                assert(is_known(before, endpoint));
                let j = choose|j: int| #[trigger] stands_at(shorter, endpoint, j);
                assert(stands_at(candidates, endpoint, j));
            }
        }
    }
}

/// The order of policy ranks: nothing stands before what ranks ahead of it.
pub proof fn policy_order_is_ranked(candidates: Seq<EndpointView>, now_millis: u64)
    ensures
        forall|i: int, j: int|
            0 <= i <= j < policy_order(candidates, now_millis).len() ==> not_after(
                priority(#[trigger] policy_order(candidates, now_millis)[i], now_millis),
                priority(#[trigger] policy_order(candidates, now_millis)[j], now_millis),
            ),
    decreases candidates.len(),
{
    if candidates.len() > 0 {
        let before = policy_order(candidates.drop_last(), now_millis);
        policy_order_is_ranked(candidates.drop_last(), now_millis);
        let at = lemma_placed_at(before, candidates.last(), now_millis);
        let after = before.insert(at, candidates.last());
        assert forall|i: int, j: int| 0 <= i <= j < after.len() implies not_after(
            priority(#[trigger] after[i], now_millis),
            priority(#[trigger] after[j], now_millis),
        ) by {
            if i < at && at > 0 {
                assert(not_after(
                    priority(before[i], now_millis),
                    priority(before[at - 1], now_millis),
                ));
            }
        }
    }
}

/// The endpoints of one rank, in the order in which they stand.
pub open spec fn of_rank(
    candidates: Seq<EndpointView>,
    rank: (int, int, int, int),
    now_millis: u64,
) -> Seq<EndpointView> {
    candidates.filter(|candidate: EndpointView| priority(candidate, now_millis) == rank)
}

/// The order of policy keeps every endpoint, and endpoints of equal rank keep their order.
pub proof fn policy_order_is_stable(
    candidates: Seq<EndpointView>,
    rank: (int, int, int, int),
    now_millis: u64,
)
    ensures
        of_rank(policy_order(candidates, now_millis), rank, now_millis) == of_rank(
            candidates,
            rank,
            now_millis,
        ),
    decreases candidates.len(),
{
    let is_of_rank = |candidate: EndpointView| priority(candidate, now_millis) == rank;
    if candidates.len() > 0 {
        let before = policy_order(candidates.drop_last(), now_millis);
        let last = candidates.last();
        policy_order_is_stable(candidates.drop_last(), rank, now_millis);
        let at = lemma_placed_at(before, last, now_millis);
        let head = before.take(at);
        let tail = before.skip(at);
        assert(before == head + tail);
        assert(before.insert(at, last) == head.push(last) + tail);
        Seq::filter_distributes_over_add(head, tail, is_of_rank);
        Seq::filter_distributes_over_add(head.push(last), tail, is_of_rank);
        lemma_filter_push(head, is_of_rank, last);
        lemma_filter_push(candidates.drop_last(), is_of_rank, last);
        assert(candidates.drop_last().push(last) == candidates);
        if is_of_rank(last) {
            assert forall|j: int| 0 <= j < tail.len() implies !is_of_rank(#[trigger] tail[j]) by {
                assert(tail[j] == before[at + j]);
            }
            lemma_filter_of_none(tail, is_of_rank);
            assert((head.filter(is_of_rank).push(last)) + Seq::<EndpointView>::empty()
                == head.filter(is_of_rank).push(last));
            assert(head.filter(is_of_rank) + Seq::<EndpointView>::empty() == head.filter(
                is_of_rank,
            ));
        }
    }
}

proof fn lemma_filter_push(
    candidates: Seq<EndpointView>,
    keep: spec_fn(EndpointView) -> bool,
    candidate: EndpointView,
)
    ensures
        candidates.push(candidate).filter(keep) == (if keep(candidate) {
            candidates.filter(keep).push(candidate)
        } else {
            candidates.filter(keep)
        }),
{
    reveal(Seq::filter);
    assert(candidates.push(candidate).drop_last() == candidates);
}

proof fn lemma_filter_of_none(
    candidates: Seq<EndpointView>,
    keep: spec_fn(EndpointView) -> bool,
)
    requires
        forall|j: int| 0 <= j < candidates.len() ==> !keep(#[trigger] candidates[j]),
    ensures
        candidates.filter(keep) == Seq::<EndpointView>::empty(),
    decreases candidates.len(),
{
    reveal(Seq::filter);
    if candidates.len() > 0 {
        let shorter = candidates.drop_last();
        assert forall|j: int| 0 <= j < shorter.len() implies !keep(#[trigger] shorter[j]) by {
            assert(shorter[j] == candidates[j]);
        }
        lemma_filter_of_none(shorter, keep);
        assert(candidates.last() == candidates[candidates.len() - 1]);
    }
}

/// A report changes the validation and the last success of no endpoint that is known already.
pub proof fn reports_never_downgrade(
    candidates: Seq<EndpointView>,
    endpoint: ConnectivityEndpoint,
    sighting: SightingView,
    at: int,
)
    requires
        0 <= at < candidates.len(),
    ensures
        ({
            let after = with_report(candidates, endpoint, sighting);
            &&& after[at].endpoint == candidates[at].endpoint
            &&& after[at].validation() == candidates[at].validation()
            &&& after[at].last_success == candidates[at].last_success
            &&& after[at].first_seen == candidates[at].first_seen
        }),
{
}

/// A report of an unknown public endpoint leaves a full cache of validated paths as it was, but
/// for its order.
pub proof fn reports_do_not_displace_validated_paths(
    candidates: Seq<EndpointView>,
    endpoint: ConnectivityEndpoint,
    sighting: SightingView,
    now_millis: u64,
)
    requires
        candidates.len() == MAX_RETAINED_ENDPOINTS_PER_PEER,
        forall|i: int|
            0 <= i < candidates.len() ==> (#[trigger] candidates[i]).validation()
                == EndpointValidationState::PathValidated,
        !is_known(candidates, endpoint),
        sighting.scope == EndpointScope::Public,
    ensures
        retained(with_report(candidates, endpoint, sighting), now_millis) == policy_order(
            candidates,
            now_millis,
        ),
{
    let report = EndpointView::reported(endpoint, sighting);
    let after = candidates.push(report);
    assert(after.drop_last() == candidates);
    let ordered = policy_order(candidates, now_millis);
    lemma_order_keeps_validated(candidates, now_millis);
    assert(not_after(priority(ordered.last(), now_millis), priority(report, now_millis)));
    assert(policy_order(after, now_millis) == ordered.push(report));
    assert(ordered.push(report).take(MAX_RETAINED_ENDPOINTS_PER_PEER as int) == ordered);
}

proof fn lemma_order_keeps_validated(candidates: Seq<EndpointView>, now_millis: u64)
    requires
        forall|i: int|
            0 <= i < candidates.len() ==> (#[trigger] candidates[i]).validation()
                == EndpointValidationState::PathValidated,
    ensures
        policy_order(candidates, now_millis).len() == candidates.len(),
        forall|i: int|
            0 <= i < candidates.len() ==> (#[trigger] policy_order(
                candidates,
                now_millis,
            )[i]).validation() == EndpointValidationState::PathValidated,
    decreases candidates.len(),
{
    if candidates.len() > 0 {
        let shorter = candidates.drop_last();
        assert forall|i: int| 0 <= i < shorter.len() implies (#[trigger] shorter[i]).validation()
            == EndpointValidationState::PathValidated by {
            assert(shorter[i] == candidates[i]);
        }
        lemma_order_keeps_validated(shorter, now_millis);
        assert(candidates.last() == candidates[candidates.len() - 1]);
        let at = lemma_placed_at(policy_order(shorter, now_millis), candidates.last(), now_millis);
    }
}

/// How fresh a success counts, as a number.
pub open spec fn staleness(freshness: Option<EndpointFreshness>) -> int {
    match freshness {
        Some(EndpointFreshness::Fresh) => 0,
        Some(EndpointFreshness::Stale) => 1,
        Some(EndpointFreshness::Old) => 2,
        None => 3,
    }
}

/// With time an endpoint only grows staler, and sightings alone never make it fresher.
pub proof fn freshness_comes_from_success_alone(
    candidate: EndpointView,
    sighting: SightingView,
    now_millis: u64,
    later_millis: u64,
)
    requires
        now_millis <= later_millis,
    ensures
        staleness(candidate.freshness(now_millis)) <= staleness(candidate.freshness(later_millis)),
        candidate.seen(sighting).freshness(now_millis) == candidate.freshness(now_millis),
        candidate.succeeded(sighting).freshness(sighting.now) == Some(EndpointFreshness::Fresh),
        candidate.freshness(now_millis) is None <==> candidate.validation()
            == EndpointValidationState::Reported,
{
}

} // verus!
