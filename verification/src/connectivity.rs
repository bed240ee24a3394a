//! Candidates for reaching a peer, and what is known of them.
//!
//! The types hold as much of a candidate as traversal reads. Their form and the texts of the errors
//! are this library's own choice.
use vstd::prelude::*;

use crate::bytes::same_bytes;
use crate::domain::{DeviceId, TransportIdentity};

verus! {

/// An Internet address, by its bytes.
#[derive(Clone, Copy, Eq, Debug)]
pub enum IpAddr {
    V4([u8; 4]),
    V6([u8; 16]),
}

impl PartialEq for IpAddr {
    fn eq(&self, other: &Self) -> (same: bool) {
        match (self, other) {
            (IpAddr::V4(left), IpAddr::V4(right)) => {
                assert(left =~= right <==> left@ =~= right@);
                same_bytes(left, right)
            },
            (IpAddr::V6(left), IpAddr::V6(right)) => {
                assert(left =~= right <==> left@ =~= right@);
                same_bytes(left, right)
            },
            _ => false,
        }
    }
}

impl vstd::std_specs::cmp::PartialEqSpecImpl for IpAddr {
    open spec fn obeys_eq_spec() -> bool {
        true
    }

    open spec fn eq_spec(&self, other: &Self) -> bool {
        *self == *other
    }
}

/// Where a datagram goes to or came from. Flow and scope belong to version 6 addresses and are
/// zero otherwise.
#[derive(Clone, Copy, PartialEq, Eq, Debug)]
pub struct SocketAddr {
    pub ip: IpAddr,
    pub port: u16,
    pub flowinfo: u32,
    pub scope_id: u32,
}

impl SocketAddr {
    pub fn new(ip: IpAddr, port: u16) -> (address: SocketAddr)
        ensures
            address == (SocketAddr { ip, port, flowinfo: 0, scope_id: 0 }),
    {
        SocketAddr { ip, port, flowinfo: 0, scope_id: 0 }
    }

    pub fn port(self) -> (port: u16)
        ensures
            port == self.port,
    {
        self.port
    }
}

/// A rule about candidates rejected something. The rules and their texts are this library's own
/// choice.
#[derive(Clone, Copy, PartialEq, Eq, Structural, Debug)]
pub enum ConnectivityError {
    ZeroCandidateId,
    ZeroPort,
    DuplicateCandidate,
    UnknownCandidate,
}

impl ConnectivityError {
    /// The text shown to people for this error.
    pub open spec fn text(self) -> Seq<char> {
        match self {
            ConnectivityError::ZeroCandidateId => "candidate identifier is zero"@,
            ConnectivityError::ZeroPort => "endpoint port is zero"@,
            ConnectivityError::DuplicateCandidate => "candidate is listed twice"@,
            ConnectivityError::UnknownCandidate => "candidate is unknown"@,
        }
    }

    pub fn message(&self) -> (text: &'static str)
        ensures
            text@ == self.text(),
    {
        match self {
            ConnectivityError::ZeroCandidateId => "candidate identifier is zero",
            ConnectivityError::ZeroPort => "endpoint port is zero",
            ConnectivityError::DuplicateCandidate => "candidate is listed twice",
            ConnectivityError::UnknownCandidate => "candidate is unknown",
        }
    }
}

/// Names a candidate within a plan. Never zero.
#[derive(Clone, Copy, PartialEq, Eq, Structural, Debug)]
pub struct CandidateId {
    value: u64,
}

impl CandidateId {
    #[verifier::type_invariant]
    spec fn is_not_zero(self) -> bool {
        self.value != 0
    }

    pub closed spec fn number(self) -> u64 {
        self.value
    }

    /// Accepts every number but zero.
    pub fn new(value: u64) -> (id: Result<CandidateId, ConnectivityError>)
        ensures
            match id {
                Ok(accepted) => value != 0 && accepted.number() == value,
                Err(error) => value == 0 && error == ConnectivityError::ZeroCandidateId,
            },
    {
        if value == 0 {
            Err(ConnectivityError::ZeroCandidateId)
        } else {
            Ok(CandidateId { value })
        }
    }

    pub fn get(self) -> (value: u64)
        ensures
            value == self.number(),
            value != 0,
    {
        proof {
            use_type_invariant(&self);
        }
        self.value
    }
}

/// How a candidate is reached.
#[derive(Clone, Copy, PartialEq, Eq, Structural, Debug)]
pub enum ConnectivityPathKind {
    LanDirect,
    InternetDirect,
    Relay,
}

/// An address and a port that is never zero.
#[derive(Clone, Copy, Eq, Debug)]
pub struct ConnectivityEndpoint {
    address: IpAddr,
    port: u16,
}

impl PartialEq for ConnectivityEndpoint {
    fn eq(&self, other: &Self) -> (same: bool) {
        self.address == other.address && self.port == other.port
    }
}

impl vstd::std_specs::cmp::PartialEqSpecImpl for ConnectivityEndpoint {
    open spec fn obeys_eq_spec() -> bool {
        true
    }

    open spec fn eq_spec(&self, other: &Self) -> bool {
        *self == *other
    }
}

impl ConnectivityEndpoint {
    #[verifier::type_invariant]
    spec fn has_a_port(self) -> bool {
        self.port != 0
    }

    pub closed spec fn spec_address(self) -> IpAddr {
        self.address
    }

    pub closed spec fn spec_port(self) -> u16 {
        self.port
    }

    /// Accepts every port but zero.
    pub fn new(address: IpAddr, port: u16) -> (endpoint: Result<
        ConnectivityEndpoint,
        ConnectivityError,
    >)
        ensures
            match endpoint {
                Ok(accepted) => port != 0 && accepted.spec_address() == address
                    && accepted.spec_port() == port,
                Err(error) => port == 0 && error == ConnectivityError::ZeroPort,
            },
    {
        if port == 0 {
            Err(ConnectivityError::ZeroPort)
        } else {
            Ok(ConnectivityEndpoint { address, port })
        }
    }

    pub fn address(self) -> (address: IpAddr)
        ensures
            address == self.spec_address(),
    {
        self.address
    }

    pub fn port(self) -> (port: u16)
        ensures
            port == self.spec_port(),
            port != 0,
    {
        proof {
            use_type_invariant(&self);
        }
        self.port
    }
}

/// One way in which a peer may be reached.
#[derive(Clone, Copy, PartialEq, Eq, Debug)]
pub struct ConnectivityCandidate {
    pub id: CandidateId,
    pub kind: ConnectivityPathKind,
    pub endpoint: ConnectivityEndpoint,
}

impl ConnectivityCandidate {
    pub fn new(id: CandidateId, kind: ConnectivityPathKind, endpoint: ConnectivityEndpoint) -> (candidate:
        ConnectivityCandidate)
        ensures
            candidate == (ConnectivityCandidate { id, kind, endpoint }),
    {
        ConnectivityCandidate { id, kind, endpoint }
    }

    pub fn id(self) -> (id: CandidateId)
        ensures
            id == self.id,
    {
        self.id
    }

    pub fn kind(self) -> (kind: ConnectivityPathKind)
        ensures
            kind == self.kind,
    {
        self.kind
    }

    pub fn endpoint(self) -> (endpoint: ConnectivityEndpoint)
        ensures
            endpoint == self.endpoint,
    {
        self.endpoint
    }
}

/// What is known about reaching a candidate.
#[derive(Clone, Copy, PartialEq, Eq, Structural, Debug)]
pub enum ReachabilityObservation {
    Unknown,
    Reachable,
    Unreachable,
}

/// Which peer a plan is for.
#[derive(PartialEq, Eq, Debug)]
pub struct PeerConnectivityIdentity {
    pub device_id: DeviceId,
    pub transport_identity: TransportIdentity,
}

impl PeerConnectivityIdentity {
    pub fn new(device_id: DeviceId, transport_identity: TransportIdentity) -> (identity:
        PeerConnectivityIdentity)
        ensures
            identity.device_id == device_id,
            identity.transport_identity == transport_identity,
    {
        PeerConnectivityIdentity { device_id, transport_identity }
    }
}

/// The candidates of a peer, each listed once, with what is known about reaching them.
#[derive(PartialEq, Eq, Debug)]
pub struct PeerConnectivityPlan {
    peer: PeerConnectivityIdentity,
    entries: Vec<(ConnectivityCandidate, ReachabilityObservation)>,
}

impl View for PeerConnectivityPlan {
    type V = Seq<(ConnectivityCandidate, ReachabilityObservation)>;

    closed spec fn view(&self) -> Seq<(ConnectivityCandidate, ReachabilityObservation)> {
        self.entries@
    }
}

/// No candidate is listed twice.
pub open spec fn lists_each_once(entries: Seq<(ConnectivityCandidate, ReachabilityObservation)>) -> bool {
    forall|i: int, j: int|
        0 <= i < entries.len() && 0 <= j < entries.len() && i != j ==> (#[trigger] entries[i]).0.id
            != (#[trigger] entries[j]).0.id
}

/// Where a candidate stands in the list.
pub open spec fn is_listed_at(
    entries: Seq<(ConnectivityCandidate, ReachabilityObservation)>,
    id: CandidateId,
    at: int,
) -> bool {
    0 <= at < entries.len() && entries[at].0.id == id
}

impl PeerConnectivityPlan {
    pub closed spec fn spec_peer(&self) -> PeerConnectivityIdentity {
        self.peer
    }

    /// Takes the candidates in the given order, nothing known of any of them.
    pub fn new(peer: PeerConnectivityIdentity, candidates: Vec<ConnectivityCandidate>) -> (plan: Result<
        PeerConnectivityPlan,
        ConnectivityError,
    >)
        ensures
            match plan {
                Ok(made) => made.spec_peer() == peer && made@ == candidates@.map_values(
                    |candidate: ConnectivityCandidate|
                        (candidate, ReachabilityObservation::Unknown),
                ) && lists_each_once(made@),
                Err(error) => error == ConnectivityError::DuplicateCandidate && exists|i: int, j: int|
                    0 <= i < j < candidates@.len() && (#[trigger] candidates@[i]).id == (
                    #[trigger] candidates@[j]).id,
            },
    {
        let mut entries: Vec<(ConnectivityCandidate, ReachabilityObservation)> = Vec::new();
        let mut i: usize = 0;
        while i < candidates.len()
            invariant
                i <= candidates.len(),
                entries@ == candidates@.take(i as int).map_values(
                    |candidate: ConnectivityCandidate|
                        (candidate, ReachabilityObservation::Unknown),
                ),
                lists_each_once(entries@),
            decreases candidates.len() - i,
        {
            let mut j: usize = 0;
            while j < i
                invariant
                    j <= i < candidates.len(),
                    forall|k: int|
                        0 <= k < j ==> (#[trigger] candidates@[k]).id != candidates@[i as int].id,
                decreases i - j,
            {
                if candidates[j].id == candidates[i].id {
                    assert(candidates@[j as int].id == candidates@[i as int].id);
                    return Err(ConnectivityError::DuplicateCandidate);
                }
                j = j + 1;
            }
            let ghost before = entries@;
            entries.push((candidates[i], ReachabilityObservation::Unknown));
            proof {
                assert forall|a: int, b: int|
                    0 <= a < entries@.len() && 0 <= b < entries@.len() && a != b implies (
                #[trigger] entries@[a]).0.id != (#[trigger] entries@[b]).0.id by {
                    if a < i && b < i {
                        assert(before[a].0.id != before[b].0.id);
                    } else if a < i {
                        assert(entries@[a].0 == candidates@[a]);
                    } else {
                        assert(entries@[b].0 == candidates@[b]);
                    }
                }
                assert(candidates@.take(i + 1).map_values(
                    |candidate: ConnectivityCandidate|
                        (candidate, ReachabilityObservation::Unknown),
                ) =~= before.push((candidates@[i as int], ReachabilityObservation::Unknown)));
            }
            i = i + 1;
        }
        assert(candidates@.take(candidates@.len() as int) =~= candidates@);
        Ok(PeerConnectivityPlan { peer, entries })
    }

    /// What is known about reaching a candidate, if the plan lists it.
    pub fn observation(&self, id: CandidateId) -> (observation: Option<ReachabilityObservation>)
        ensures
            match observation {
                Some(known) => exists|at: int| #[trigger]
                    is_listed_at(self@, id, at) && self@[at].1 == known,
                None => forall|at: int| !(#[trigger] is_listed_at(self@, id, at)),
            },
            observation matches Some(known) ==> exists|i: int|
                0 <= i < self@.len() && (#[trigger] self@[i]).0.id == id && self@[i].1 == known,
            observation is None ==> forall|i: int|
                0 <= i < self@.len() ==> (#[trigger] self@[i]).0.id != id,
    {
        let mut i: usize = 0;
        while i < self.entries.len()
            invariant
                i <= self.entries.len(),
                forall|at: int| at < i ==> !(#[trigger] is_listed_at(self@, id, at)),
            decreases self.entries.len() - i,
        {
            if self.entries[i].0.id == id {
                assert(is_listed_at(self@, id, i as int));
                return Some(self.entries[i].1);
            }
            i = i + 1;
        }
        assert forall|at: int| 0 <= at < self@.len() implies (#[trigger] self@[at]).0.id != id by {
            assert(!is_listed_at(self@, id, at));
        }
        None
    }

    /// Records what is known about reaching a candidate that the plan lists. Nothing else in the
    /// plan changes.
    pub fn set_observation(&mut self, id: CandidateId, observation: ReachabilityObservation) -> (recorded:
        Result<(), ConnectivityError>)
        ensures
            final(self).spec_peer() == old(self).spec_peer(),
            lists_each_once(old(self)@) ==> lists_each_once(final(self)@),
            match recorded {
                Ok(_) => exists|at: int| #[trigger]
                    is_listed_at(old(self)@, id, at) && final(self)@ == old(self)@.update(
                        at,
                        (old(self)@[at].0, observation),
                    ),
                Err(error) => error == ConnectivityError::UnknownCandidate && final(self)@ == old(
                    self,
                )@ && forall|at: int| !(#[trigger] is_listed_at(old(self)@, id, at)),
            },
            final(self)@.len() == old(self)@.len(),
            forall|i: int|
                0 <= i < old(self)@.len() ==> (#[trigger] final(self)@[i]).0 == old(self)@[i].0,
            forall|i: int|
                0 <= i < old(self)@.len() && old(self)@[i].0.id != id ==> #[trigger] final(self)@[i]
                    == old(self)@[i],
            recorded is Ok <==> exists|i: int|
                0 <= i < old(self)@.len() && (#[trigger] old(self)@[i]).0.id == id,
            recorded is Ok ==> exists|i: int|
                0 <= i < old(self)@.len() && (#[trigger] final(self)@[i]).0.id == id
                    && final(self)@[i].1 == observation,
    {
        let mut i: usize = 0;
        while i < self.entries.len()
            invariant
                i <= self.entries.len(),
                *self == *old(self),
                forall|at: int| at < i ==> !(#[trigger] is_listed_at(self@, id, at)),
            decreases self.entries.len() - i,
        {
            if self.entries[i].0.id == id {
                assert(is_listed_at(self@, id, i as int));
                let candidate = self.entries[i].0;
                self.entries.set(i, (candidate, observation));
                assert(old(self)@[i as int].0.id == id);
                assert(self@[i as int].0.id == id && self@[i as int].1 == observation);
                return Ok(());
            }
            i = i + 1;
        }
        assert forall|at: int| 0 <= at < self@.len() implies (#[trigger] self@[at]).0.id != id by {
            assert(!is_listed_at(self@, id, at));
        }
        Err(ConnectivityError::UnknownCandidate)
    }
}

} // verus!
