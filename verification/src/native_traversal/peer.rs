//! The traversal state of one peer.
//!
//! Probing shows at most that packets arrive. A path counts as validated only after the transport
//! and then the session were authenticated over it.
use vstd::prelude::*;

use crate::connectivity::{
    is_listed_at, ConnectivityCandidate, ConnectivityError, ConnectivityPathKind,
    PeerConnectivityPlan, ReachabilityObservation, SocketAddr,
};
use crate::native_traversal::error::TraversalError;
use crate::native_traversal::ledger::{
    after_ack, after_record, is_outstanding, record_error, LedgerView, ProbeLedger,
};
use crate::native_traversal::probe::{
    header_error, wire_determines_packet, PacketView, ProbeMessageKind, ProbeNonce, ProbePacket,
    RoutingTag,
};
use crate::native_traversal::routing_tags::{saturating_sum, ReceiveRoutingTags, TagsView};

verus! {

/// Initial bounded probe-attempt offsets.
pub const PROBE_SCHEDULE_MILLIS: [u64; 3] = [0, 250, 750];

/// One outbound traversal datagram.
#[derive(Clone, Copy, PartialEq, Eq, Debug)]
pub struct TraversalDatagram {
    destination: SocketAddr,
    packet: ProbePacket,
}

/// What a [`TraversalDatagram`] says.
pub struct DatagramView {
    pub destination: SocketAddr,
    pub packet: PacketView,
}

impl View for TraversalDatagram {
    type V = DatagramView;

    closed spec fn view(&self) -> DatagramView {
        DatagramView { destination: self.destination, packet: self.packet@ }
    }
}

impl TraversalDatagram {
    /// Returns the explicit destination supplied by the current peer candidate or source
    /// observation.
    pub fn destination(self) -> (destination: SocketAddr)
        ensures
            destination == self@.destination,
    {
        self.destination
    }

    /// Returns the typed probe packet.
    pub fn packet(self) -> (packet: ProbePacket)
        ensures
            packet@ == self@.packet,
    {
        self.packet
    }
}

/// A bounded series of probes to one candidate.
#[derive(Clone, Copy, PartialEq, Eq, Debug)]
struct ProbeAttempt {
    candidate: ConnectivityCandidate,
    started_at_millis: u64,
    next_probe_index: usize,
}

/// What an attempt holds: its candidate, when it began, and how many probes were sent.
pub struct AttemptView {
    pub candidate: ConnectivityCandidate,
    pub started: u64,
    pub sent: nat,
}

impl AttemptView {
    /// When the next probe is due, until all have been sent.
    pub open spec fn next_due(self) -> Option<u64> {
        if self.sent < 3 {
            Some(saturating_sum(self.started, PROBE_SCHEDULE_MILLIS@[self.sent as int]))
        } else {
            None
        }
    }
}

impl ProbeAttempt {
    spec fn spec_view(self) -> AttemptView {
        AttemptView {
            candidate: self.candidate,
            started: self.started_at_millis,
            sent: self.next_probe_index as nat,
        }
    }

    fn new(candidate: ConnectivityCandidate, started_at_millis: u64) -> (attempt: ProbeAttempt)
        ensures
            attempt.spec_view() == (AttemptView { candidate, started: started_at_millis, sent: 0 }),
    {
        ProbeAttempt { candidate, started_at_millis, next_probe_index: 0 }
    }

    fn next_due_millis(self) -> (due: Option<u64>)
        ensures
            due == self.spec_view().next_due(),
    {
        if self.next_probe_index < 3 {
            Some(
                self.started_at_millis.saturating_add(
                    PROBE_SCHEDULE_MILLIS[self.next_probe_index],
                ),
            )
        } else {
            None
        }
    }

    fn is_exhausted(self) -> (exhausted: bool)
        ensures
            exhausted == (self.spec_view().sent >= 3),
    {
        self.next_probe_index >= 3
    }
}

/// Explicit native traversal state. `PathValidated` is out of reach until transport
/// authentication and session authorization have both succeeded.
#[derive(Clone, Copy, PartialEq, Eq, Structural, Debug)]
pub enum TraversalState {
    /// No prepared candidate.
    Idle,
    /// A direct candidate is prepared but probing has not started.
    CandidatesReady,
    /// Bounded native UDP probes are active.
    Probing,
    /// A nonce-correlated ACK proved only current packet reachability.
    ProbeResponsive,
    /// Caller has started QUIC establishment.
    QuicHandshake,
    /// QUIC/TLS/mTLS and expected current transport identity succeeded.
    TransportAuthenticated,
    /// Application and session authorization succeeded.
    SessionAuthenticated,
    /// The endpoint may now become authoritative reachable routing data.
    PathValidated,
    /// Authenticated application path is active.
    Active,
    /// No current usable candidate or path.
    Offline,
}

/// Result of consuming one inbound UDP datagram.
#[derive(Clone, Copy, PartialEq, Eq, Debug)]
pub enum InboundDisposition {
    /// Malformed, unknown, stale or context-mismatched input caused no response or promotion.
    Ignored,
    /// One valid inbound probe may receive exactly one equal-size ACK.
    Acknowledge {
        /// ACK datagram to send to the observed source endpoint.
        datagram: TraversalDatagram,
        /// Actual UDP source observed by the runtime adapter.
        observed_source: SocketAddr,
        /// Whether an independently active local attempt still has outbound probe budget.
        reverse_probe_eligible: bool,
    },
    /// A currently outstanding nonce was acknowledged for the active candidate.
    ProbeResponsive {
        /// Candidate whose attempt nonce was acknowledged.
        candidate: ConnectivityCandidate,
        /// Actual source endpoint of the ACK.
        observed_source: SocketAddr,
    },
}

/// What an [`InboundDisposition`] says.
pub enum DispositionView {
    Ignored,
    Acknowledge { datagram: DatagramView, observed_source: SocketAddr, reverse_probe_eligible: bool },
    ProbeResponsive { candidate: ConnectivityCandidate, observed_source: SocketAddr },
}

impl View for InboundDisposition {
    type V = DispositionView;

    open spec fn view(&self) -> DispositionView {
        match *self {
            InboundDisposition::Ignored => DispositionView::Ignored,
            InboundDisposition::Acknowledge { datagram, observed_source, reverse_probe_eligible } =>
                DispositionView::Acknowledge {
                datagram: datagram@,
                observed_source,
                reverse_probe_eligible,
            },
            InboundDisposition::ProbeResponsive { candidate, observed_source } =>
                DispositionView::ProbeResponsive { candidate, observed_source },
        }
    }
}

/// Where a candidate's probes go: its address and port, with no flow and no scope.
pub open spec fn candidate_address(candidate: ConnectivityCandidate) -> SocketAddr {
    SocketAddr {
        ip: candidate.endpoint.spec_address(),
        port: candidate.endpoint.spec_port(),
        flowinfo: 0,
        scope_id: 0,
    }
}

fn socket_addr(candidate: ConnectivityCandidate) -> (address: SocketAddr)
    ensures
        address == candidate_address(candidate),
{
    let endpoint = candidate.endpoint();
    SocketAddr::new(endpoint.address(), endpoint.port())
}

/// The packet that bytes stand for, if they are well formed.
pub open spec fn decoded_packet(input: Seq<u8>) -> Option<PacketView> {
    if header_error(input) is None {
        Some(choose|packet: PacketView| #[trigger] packet.wire() == input)
    } else {
        None
    }
}

/// What a [`PeerTraversal`] holds.
pub struct PeerView {
    pub tags: TagsView,
    pub peer_tag: RoutingTag,
    pub prepared: Option<ConnectivityCandidate>,
    pub attempt: Option<AttemptView>,
    pub outstanding: LedgerView,
    pub state: TraversalState,
}

impl PeerView {
    /// The state before anything happened.
    pub open spec fn initial(local_tag: RoutingTag, peer_tag: RoutingTag) -> PeerView {
        PeerView {
            tags: TagsView { current: Some(local_tag), previous: None, pending: None },
            peer_tag,
            prepared: None,
            attempt: None,
            outstanding: LedgerView::empty(),
            state: TraversalState::Idle,
        }
    }

    /// Without candidate, attempt and outstanding probes, in the given state.
    pub open spec fn cleared(self, state: TraversalState) -> PeerView {
        PeerView {
            prepared: None,
            attempt: None,
            outstanding: LedgerView::empty(),
            state,
            ..self
        }
    }

    /// With one direct candidate prepared.
    pub open spec fn with_candidate(self, candidate: ConnectivityCandidate) -> PeerView {
        PeerView {
            prepared: Some(candidate),
            attempt: None,
            outstanding: LedgerView::empty(),
            state: TraversalState::CandidatesReady,
            ..self
        }
    }

    /// With an attempt on the prepared candidate begun.
    pub open spec fn with_attempt(self, now_millis: u64) -> PeerView {
        PeerView {
            attempt: Some(
                AttemptView { candidate: self.prepared->0, started: now_millis, sent: 0 },
            ),
            outstanding: LedgerView::empty(),
            state: TraversalState::Probing,
            ..self
        }
    }

    /// Whether a probe is due.
    pub open spec fn probe_is_due(self, now_millis: u64) -> bool {
        self.attempt matches Some(attempt) && attempt.next_due() matches Some(due) && due
            <= now_millis
    }

    /// The state after a poll for a due probe, and what the poll gives.
    pub open spec fn polled(self, now_millis: u64, nonce: ProbeNonce) -> (
        PeerView,
        Result<Option<DatagramView>, TraversalError>,
    ) {
        if self.state != TraversalState::Probing || self.attempt is None {
            (self, Err(TraversalError::InvalidStateTransition))
        } else if !self.probe_is_due(now_millis) {
            (self, Ok(None))
        } else {
            let attempt = self.attempt->0;
            let outstanding = after_record(
                self.outstanding,
                nonce,
                attempt.candidate.id,
                now_millis,
            );
            match record_error(self.outstanding, nonce, now_millis) {
                Some(error) => (PeerView { outstanding, ..self }, Err(error)),
                None => (
                    PeerView {
                        outstanding,
                        attempt: Some(AttemptView { sent: attempt.sent + 1, ..attempt }),
                        ..self
                    },
                    Ok(
                        Some(
                            DatagramView {
                                destination: candidate_address(attempt.candidate),
                                packet: PacketView {
                                    kind: ProbeMessageKind::Probe,
                                    destination_tag: self.peer_tag,
                                    nonce,
                                },
                            },
                        ),
                    ),
                ),
            }
        }
    }

    /// The state after an acknowledgement with an accepted tag, and what is made of it.
    pub open spec fn acknowledged(self, nonce: ProbeNonce, source: SocketAddr, now_millis: u64) -> (
        PeerView,
        DispositionView,
    ) {
        if self.state != TraversalState::Probing || self.attempt is None {
            (self, DispositionView::Ignored)
        } else {
            let candidate = self.attempt->0.candidate;
            let outstanding = after_ack(self.outstanding, nonce, candidate.id, now_millis);
            if is_outstanding(self.outstanding, nonce, candidate.id, now_millis) {
                (
                    PeerView { outstanding, state: TraversalState::ProbeResponsive, ..self },
                    DispositionView::ProbeResponsive { candidate, observed_source: source },
                )
            } else {
                (PeerView { outstanding, ..self }, DispositionView::Ignored)
            }
        }
    }

    /// The state after a datagram, and what is made of it. Nothing malformed and nothing under
    /// a tag that is not accepted has any effect but the retirement of an expired tag.
    pub open spec fn received(self, input: Seq<u8>, source: SocketAddr, now_millis: u64) -> (
        PeerView,
        DispositionView,
    ) {
        match decoded_packet(input) {
            None => (self, DispositionView::Ignored),
            Some(packet) => {
                let current = PeerView { tags: self.tags.at(now_millis), ..self };
                if !self.tags.accepts(packet.destination_tag, now_millis) {
                    (current, DispositionView::Ignored)
                } else {
                    match packet.kind {
                        ProbeMessageKind::Probe => (
                            current,
                            DispositionView::Acknowledge {
                                datagram: DatagramView {
                                    destination: source,
                                    packet: PacketView {
                                        kind: ProbeMessageKind::Ack,
                                        destination_tag: self.peer_tag,
                                        nonce: packet.nonce,
                                    },
                                },
                                observed_source: source,
                                reverse_probe_eligible: self.state == TraversalState::Probing && (
                                self.attempt matches Some(attempt) && attempt.sent < 3),
                            },
                        ),
                        ProbeMessageKind::Ack => current.acknowledged(
                            packet.nonce,
                            source,
                            now_millis,
                        ),
                    }
                }
            },
        }
    }
}

/// Per-peer native traversal coordinator with no network I/O ownership.
#[derive(PartialEq, Eq, Debug)]
pub struct PeerTraversal {
    receive_tags: ReceiveRoutingTags,
    peer_destination_tag: RoutingTag,
    prepared_candidate: Option<ConnectivityCandidate>,
    attempt: Option<ProbeAttempt>,
    outstanding: ProbeLedger,
    state: TraversalState,
}

impl View for PeerTraversal {
    type V = PeerView;

    closed spec fn view(&self) -> PeerView {
        PeerView {
            tags: self.receive_tags@,
            peer_tag: self.peer_destination_tag,
            prepared: self.prepared_candidate,
            attempt: match self.attempt {
                Some(attempt) => Some(attempt.spec_view()),
                None => None,
            },
            outstanding: self.outstanding@,
            state: self.state,
        }
    }
}

/// What holds in every state: a prepared candidate is direct, an attempt is on the prepared
/// candidate, and states that need them have them.
pub open spec fn is_coherent(view: PeerView) -> bool {
    &&& view.prepared matches Some(candidate) ==> candidate.kind != ConnectivityPathKind::Relay
    &&& view.attempt matches Some(attempt) ==> view.prepared == Some(attempt.candidate)
        && attempt.sent <= 3
    &&& match view.state {
        TraversalState::Idle | TraversalState::Offline => view.prepared is None && view.attempt
            is None,
        TraversalState::CandidatesReady => view.prepared is Some && view.attempt is None,
        _ => view.attempt is Some,
    }
}

impl Clone for PeerTraversal {
    fn clone(&self) -> (copy: Self)
        ensures
            copy@ == self@,
            copy.wf() == self.wf(),
    {
        PeerTraversal {
            receive_tags: self.receive_tags.clone(),
            peer_destination_tag: self.peer_destination_tag,
            prepared_candidate: self.prepared_candidate,
            attempt: self.attempt,
            outstanding: self.outstanding.clone(),
            state: self.state,
        }
    }
}

impl PeerTraversal {
    pub closed spec fn wf(&self) -> bool {
        self.outstanding.wf() && is_coherent(self@)
    }

    /// Creates traversal state for one already-paired peer relationship.
    pub fn new(local_receive_tag: RoutingTag, peer_destination_tag: RoutingTag) -> (peer: PeerTraversal)
        ensures
            peer.wf(),
            peer@ == PeerView::initial(local_receive_tag, peer_destination_tag),
    {
        PeerTraversal {
            receive_tags: ReceiveRoutingTags::new(local_receive_tag),
            peer_destination_tag,
            prepared_candidate: None,
            attempt: None,
            outstanding: ProbeLedger::new(),
            state: TraversalState::Idle,
        }
    }

    /// Returns the current traversal state.
    pub fn state(&self) -> (state: TraversalState)
        ensures
            state == self@.state,
    {
        self.state
    }

    /// Returns the number of currently outstanding bounded probe nonces.
    pub fn outstanding_probe_count(&self) -> (count: usize)
        requires
            self.wf(),
        ensures
            count == self@.outstanding.dom().len(),
    {
        self.outstanding.len()
    }

    /// Returns the next locally scheduled probe time for the active attempt.
    pub fn next_probe_due_millis(&self) -> (due: Option<u64>)
        ensures
            due == (match self@.attempt {
                Some(attempt) => attempt.next_due(),
                None => None,
            }),
    {
        match self.attempt {
            Some(attempt) => attempt.next_due_millis(),
            None => None,
        }
    }

    /// Returns whether the active attempt spent all three initial probe slots.
    pub fn probe_attempt_exhausted(&self) -> (exhausted: bool)
        ensures
            exhausted == (self@.attempt matches Some(attempt) && attempt.sent >= 3),
    {
        match self.attempt {
            Some(attempt) => attempt.is_exhausted(),
            None => false,
        }
    }

    /// Updates the peer's committed receive-side tag learned through an authenticated channel.
    pub fn set_peer_destination_tag(&mut self, tag: RoutingTag)
        requires
            old(self).wf(),
        ensures
            final(self).wf(),
            final(self)@ == (PeerView { peer_tag: tag, ..old(self)@ }),
    {
        self.peer_destination_tag = tag;
    }

    /// Starts local receive-tag rotation.
    pub fn begin_receive_tag_rotation(&mut self, replacement: RoutingTag) -> (begun: Result<
        (),
        TraversalError,
    >)
        requires
            old(self).wf(),
        ensures
            final(self).wf(),
            match begun {
                Ok(_) => old(self)@.tags.begin_error(replacement) is None && final(self)@ == (
                PeerView {
                    tags: TagsView { pending: Some(replacement), ..old(self)@.tags },
                    ..old(self)@
                }),
                Err(error) => old(self)@.tags.begin_error(replacement) == Some(error) && final(self)@ == old(self)@,
            },
    {
        self.receive_tags.begin_rotation(replacement)
    }

    /// Commits local receive-tag rotation after authenticated peer acknowledgement.
    pub fn acknowledge_receive_tag_rotation(&mut self, replacement: RoutingTag, now_millis: u64) -> (committed:
        Result<(), TraversalError>)
        requires
            old(self).wf(),
        ensures
            final(self).wf(),
            match committed {
                Ok(_) => old(self)@.tags.commit_error(replacement) is None && final(self)@ == (
                PeerView {
                    tags: old(self)@.tags.committed(replacement, now_millis),
                    ..old(self)@
                }),
                Err(error) => old(self)@.tags.commit_error(replacement) == Some(error) && final(self)@ == old(self)@,
            },
    {
        self.receive_tags.acknowledge_rotation(replacement, now_millis)
    }

    /// Cancels an incomplete local receive-tag replacement.
    pub fn cancel_receive_tag_rotation(&mut self)
        requires
            old(self).wf(),
        ensures
            final(self).wf(),
            final(self)@ == (PeerView {
                tags: TagsView { pending: None, ..old(self)@.tags },
                ..old(self)@
            }),
    {
        self.receive_tags.cancel_rotation();
    }

    /// Revokes all receive-side routing tags for this peer.
    pub fn revoke_receive_tags(&mut self)
        requires
            old(self).wf(),
        ensures
            final(self).wf(),
            final(self)@ == (PeerView {
                tags: TagsView { current: None, previous: None, pending: None },
                ..old(self)@
            }),
    {
        self.receive_tags.revoke();
    }

    /// Prepares one direct candidate for a bounded probe attempt. A relay candidate is refused and
    /// changes nothing.
    pub fn prepare_candidate(&mut self, candidate: ConnectivityCandidate) -> (prepared: Result<
        (),
        TraversalError,
    >)
        requires
            old(self).wf(),
        ensures
            final(self).wf(),
            match prepared {
                Ok(_) => candidate.kind != ConnectivityPathKind::Relay && final(self)@ == old(self)@.with_candidate(candidate),
                Err(error) => candidate.kind == ConnectivityPathKind::Relay && error
                    == TraversalError::RelayCandidateUnsupported && final(self)@ == old(self)@,
            },
    {
        if candidate.kind() == ConnectivityPathKind::Relay {
            return Err(TraversalError::RelayCandidateUnsupported);
        }
        self.prepared_candidate = Some(candidate);
        self.attempt = None;
        self.outstanding.clear();
        self.state = TraversalState::CandidatesReady;
        Ok(())
    }

    /// Starts probing the prepared candidate.
    pub fn start_probing(&mut self, now_millis: u64) -> (started: Result<(), TraversalError>)
        requires
            old(self).wf(),
        ensures
            final(self).wf(),
            match started {
                Ok(_) => old(self)@.state == TraversalState::CandidatesReady && final(self)@ == old(self)@.with_attempt(now_millis),
                Err(error) => old(self)@.state != TraversalState::CandidatesReady && error
                    == TraversalError::InvalidStateTransition && final(self)@ == old(self)@,
            },
    {
        if self.state != TraversalState::CandidatesReady {
            return Err(TraversalError::InvalidStateTransition);
        }
        let candidate = match self.prepared_candidate {
            Some(candidate) => candidate,
            None => {
                return Err(TraversalError::InvalidStateTransition);
            },
        };
        self.attempt = Some(ProbeAttempt::new(candidate, now_millis));
        self.outstanding.clear();
        self.state = TraversalState::Probing;
        Ok(())
    }

    /// Emits at most one currently due probe and records its nonce.
    pub fn poll_probe(&mut self, now_millis: u64, nonce: ProbeNonce) -> (polled: Result<
        Option<TraversalDatagram>,
        TraversalError,
    >)
        requires
            old(self).wf(),
        ensures
            final(self).wf(),
            final(self)@ == old(self)@.polled(now_millis, nonce).0,
            (match polled {
                Ok(Some(datagram)) => Ok(Some(datagram@)),
                Ok(None) => Ok(None),
                Err(error) => Err(error),
            }) == old(self)@.polled(now_millis, nonce).1,
            polled matches Ok(Some(datagram)) ==> {
                &&& old(self)@.attempt matches Some(attempt)
                &&& datagram@.destination.ip == attempt.candidate.endpoint.spec_address()
                &&& datagram@.destination.port == attempt.candidate.endpoint.spec_port()
                &&& datagram@.packet.kind == ProbeMessageKind::Probe
                &&& datagram@.packet.destination_tag == old(self)@.peer_tag
                &&& datagram@.packet.nonce == nonce
            },
    {
        if self.state != TraversalState::Probing {
            return Err(TraversalError::InvalidStateTransition);
        }
        let mut attempt = match self.attempt {
            Some(attempt) => attempt,
            None => {
                return Err(TraversalError::InvalidStateTransition);
            },
        };
        let due: u64 = match attempt.next_due_millis() {
            Some(due) => due,
            None => {
                return Ok(None);
            },
        };
        if now_millis < due {
            return Ok(None);
        }
        if let Err(error) = self.outstanding.record(nonce, attempt.candidate.id(), now_millis) {
            return Err(error);
        }
        attempt.next_probe_index = attempt.next_probe_index + 1;
        self.attempt = Some(attempt);
        Ok(
            Some(
                TraversalDatagram {
                    destination: socket_addr(attempt.candidate),
                    packet: ProbePacket::probe(self.peer_destination_tag, nonce),
                },
            ),
        )
    }

    /// Consumes one UDP datagram supplied by the runtime adapter. Malformed packets and unknown
    /// routing tags are ignored, so unauthenticated input learns nothing from an error.
    pub fn handle_datagram(&mut self, input: &[u8], observed_source: SocketAddr, now_millis: u64) -> (disposition:
        InboundDisposition)
        requires
            old(self).wf(),
        ensures
            final(self).wf(),
            final(self)@ == old(self)@.received(input@, observed_source, now_millis).0,
            disposition@ == old(self)@.received(input@, observed_source, now_millis).1,
            disposition matches InboundDisposition::Acknowledge {
                datagram,
                observed_source: source,
                ..
            } ==> {
                &&& source == observed_source
                &&& datagram@.destination == observed_source
                &&& datagram@.packet.kind == ProbeMessageKind::Ack
                &&& datagram@.packet.destination_tag == old(self)@.peer_tag
            },
            disposition matches InboundDisposition::ProbeResponsive {
                candidate,
                observed_source: source,
            } ==> source == observed_source && old(self)@.prepared == Some(candidate)
                && final(self)@.state == TraversalState::ProbeResponsive,
    {
        let packet = match ProbePacket::decode(input) {
            Ok(packet) => packet,
            Err(_) => {
                return InboundDisposition::Ignored;
            },
        };
        proof {
            wire_determines_packet(decoded_packet(input@)->0, packet@);
        }
        if !self.receive_tags.accepts(packet.destination_tag(), now_millis) {
            return InboundDisposition::Ignored;
        }
        match packet.kind() {
            ProbeMessageKind::Probe => {
                let reverse_probe_eligible = self.state == TraversalState::Probing && (
                match self.attempt {
                    Some(attempt) => !attempt.is_exhausted(),
                    None => false,
                });
                InboundDisposition::Acknowledge {
                    datagram: TraversalDatagram {
                        destination: observed_source,
                        packet: ProbePacket::ack(self.peer_destination_tag, packet.nonce()),
                    },
                    observed_source,
                    reverse_probe_eligible,
                }
            },
            ProbeMessageKind::Ack => self.handle_ack(packet, observed_source, now_millis),
        }
    }

    fn handle_ack(&mut self, packet: ProbePacket, observed_source: SocketAddr, now_millis: u64) -> (disposition:
        InboundDisposition)
        requires
            old(self).wf(),
        ensures
            final(self).wf(),
            final(self)@ == old(self)@.acknowledged(
                packet@.nonce,
                observed_source,
                now_millis,
            ).0,
            disposition@ == old(self)@.acknowledged(packet@.nonce, observed_source, now_millis).1,
    {
        if self.state != TraversalState::Probing {
            return InboundDisposition::Ignored;
        }
        let attempt = match self.attempt {
            Some(attempt) => attempt,
            None => {
                return InboundDisposition::Ignored;
            },
        };
        if !self.outstanding.consume_ack(packet.nonce(), attempt.candidate.id(), now_millis) {
            return InboundDisposition::Ignored;
        }
        self.state = TraversalState::ProbeResponsive;
        InboundDisposition::ProbeResponsive { candidate: attempt.candidate, observed_source }
    }

    fn transition(&mut self, expected: TraversalState, next: TraversalState) -> (moved: Result<
        (),
        TraversalError,
    >)
        requires
            old(self).wf(),
            !(expected is Idle) && !(expected is Offline) && !(expected is CandidatesReady),
            !(next is Idle) && !(next is Offline) && !(next is CandidatesReady),
        ensures
            final(self).wf(),
            moved_on(old(self)@, expected, next, final(self)@, moved),
    {
        if self.state != expected {
            return Err(TraversalError::InvalidStateTransition);
        }
        self.state = next;
        Ok(())
    }

    /// Moves from probe responsiveness to the QUIC handshake boundary.
    pub fn begin_quic_handshake(&mut self) -> (moved: Result<(), TraversalError>)
        requires
            old(self).wf(),
        ensures
            final(self).wf(),
            moved_on(
                old(self)@,
                TraversalState::ProbeResponsive,
                TraversalState::QuicHandshake,
                final(self)@,
                moved,
            ),
    {
        self.transition(TraversalState::ProbeResponsive, TraversalState::QuicHandshake)
    }

    /// Records successful QUIC/TLS/mTLS/current-transport-identity authentication.
    pub fn confirm_transport_authenticated(&mut self) -> (moved: Result<(), TraversalError>)
        requires
            old(self).wf(),
        ensures
            final(self).wf(),
            moved_on(
                old(self)@,
                TraversalState::QuicHandshake,
                TraversalState::TransportAuthenticated,
                final(self)@,
                moved,
            ),
    {
        self.transition(TraversalState::QuicHandshake, TraversalState::TransportAuthenticated)
    }

    /// Records successful session and application authorization.
    pub fn confirm_session_authenticated(&mut self) -> (moved: Result<(), TraversalError>)
        requires
            old(self).wf(),
        ensures
            final(self).wf(),
            moved_on(
                old(self)@,
                TraversalState::TransportAuthenticated,
                TraversalState::SessionAuthenticated,
                final(self)@,
                moved,
            ),
    {
        self.transition(
            TraversalState::TransportAuthenticated,
            TraversalState::SessionAuthenticated,
        )
    }

    /// Promotes the active candidate only after transport and session authentication succeeded,
    /// and records it as reachable in the plan. On any failure neither the peer nor the plan
    /// changes.
    pub fn promote_path_validated(&mut self, plan: &mut PeerConnectivityPlan) -> (promoted: Result<
        (),
        TraversalError,
    >)
        requires
            old(self).wf(),
        ensures
            final(self).wf(),
            final(plan).spec_peer() == old(plan).spec_peer(),
            match promoted {
                Ok(_) => {
                    &&& old(self)@.state == TraversalState::SessionAuthenticated
                    &&& final(self)@ == (PeerView {
                        state: TraversalState::PathValidated,
                        ..old(self)@
                    })
                    &&& exists|at: int| #[trigger]
                        is_listed_at(old(plan)@, old(self)@.attempt->0.candidate.id, at) && final(plan)@ == old(plan)@.update(
                            at,
                            (old(plan)@[at].0, ReachabilityObservation::Reachable),
                        )
                },
                Err(error) => {
                    &&& final(self)@ == old(self)@
                    &&& final(plan)@ == old(plan)@
                    &&& if old(self)@.state != TraversalState::SessionAuthenticated {
                        error == TraversalError::InvalidStateTransition
                    } else {
                        error == TraversalError::Connectivity(ConnectivityError::UnknownCandidate)
                            && forall|at: int|
                            !(#[trigger] is_listed_at(
                                old(plan)@,
                                old(self)@.attempt->0.candidate.id,
                                at,
                            ))
                    }
                },
            },
            promoted is Ok ==> {
                let id = old(self)@.attempt->0.candidate.id;
                &&& final(plan)@.len() == old(plan)@.len()
                &&& forall|i: int|
                    0 <= i < old(plan)@.len() && old(plan)@[i].0.id != id
                        ==> #[trigger] final(plan)@[i] == old(plan)@[i]
                &&& exists|i: int|
                    0 <= i < final(plan)@.len() && (#[trigger] final(plan)@[i]).0.id == id
                        && final(plan)@[i].1 == ReachabilityObservation::Reachable
            },
    {
        if self.state != TraversalState::SessionAuthenticated {
            return Err(TraversalError::InvalidStateTransition);
        }
        let attempt = match self.attempt {
            Some(attempt) => attempt,
            None => {
                return Err(TraversalError::InvalidStateTransition);
            },
        };
        match plan.set_observation(attempt.candidate.id(), ReachabilityObservation::Reachable) {
            Ok(_) => {
                self.state = TraversalState::PathValidated;
                Ok(())
            },
            Err(error) => Err(TraversalError::Connectivity(error)),
        }
    }

    /// Marks an already validated path active.
    pub fn activate(&mut self) -> (moved: Result<(), TraversalError>)
        requires
            old(self).wf(),
        ensures
            final(self).wf(),
            moved_on(
                old(self)@,
                TraversalState::PathValidated,
                TraversalState::Active,
                final(self)@,
                moved,
            ),
    {
        self.transition(TraversalState::PathValidated, TraversalState::Active)
    }

    /// Clears transient attempt and nonce state and reports no current path.
    pub fn mark_offline(&mut self)
        requires
            old(self).wf(),
        ensures
            final(self).wf(),
            final(self)@ == old(self)@.cleared(TraversalState::Offline),
    {
        self.prepared_candidate = None;
        self.attempt = None;
        self.outstanding.clear();
        self.state = TraversalState::Offline;
    }

    /// Clears transient network assumptions after a material local-network change.
    pub fn reset_for_network_change(&mut self)
        requires
            old(self).wf(),
        ensures
            final(self).wf(),
            final(self)@ == old(self)@.cleared(TraversalState::Idle),
    {
        self.prepared_candidate = None;
        self.attempt = None;
        self.outstanding.clear();
        self.state = TraversalState::Idle;
    }
}

/// A step from one exact state to the next, refused from every other.
pub open spec fn moved_on(
    before: PeerView,
    expected: TraversalState,
    next: TraversalState,
    after: PeerView,
    moved: Result<(), TraversalError>,
) -> bool {
    match moved {
        Ok(_) => before.state == expected && after == (PeerView { state: next, ..before }),
        Err(error) => before.state != expected && after == before && error
            == TraversalError::InvalidStateTransition,
    }
}

/// Something that happens to a peer.
pub enum PeerEvent {
    TagChange(TagsView),
    PeerTagChange(RoutingTag),
    Prepare(ConnectivityCandidate),
    StartProbing(u64),
    Poll(u64, ProbeNonce),
    Datagram(Seq<u8>, SocketAddr, u64),
    BeginQuic,
    ConfirmTransport,
    ConfirmSession,
    /// The plan accepts or refuses the promotion.
    Promote(bool),
    Activate,
    Offline,
    NetworkChange,
}

/// The state after an event, as the operations above define it.
pub open spec fn after_event(view: PeerView, event: PeerEvent) -> PeerView {
    match event {
        PeerEvent::TagChange(tags) => PeerView { tags, ..view },
        PeerEvent::PeerTagChange(peer_tag) => PeerView { peer_tag, ..view },
        PeerEvent::Prepare(candidate) => if candidate.kind == ConnectivityPathKind::Relay {
            view
        } else {
            view.with_candidate(candidate)
        },
        PeerEvent::StartProbing(now) => if view.state == TraversalState::CandidatesReady {
            view.with_attempt(now)
        } else {
            view
        },
        PeerEvent::Poll(now, nonce) => view.polled(now, nonce).0,
        PeerEvent::Datagram(input, source, now) => view.received(input, source, now).0,
        PeerEvent::BeginQuic => stepped(
            view,
            TraversalState::ProbeResponsive,
            TraversalState::QuicHandshake,
        ),
        PeerEvent::ConfirmTransport => stepped(
            view,
            TraversalState::QuicHandshake,
            TraversalState::TransportAuthenticated,
        ),
        PeerEvent::ConfirmSession => stepped(
            view,
            TraversalState::TransportAuthenticated,
            TraversalState::SessionAuthenticated,
        ),
        PeerEvent::Promote(accepted) => if accepted {
            stepped(view, TraversalState::SessionAuthenticated, TraversalState::PathValidated)
        } else {
            view
        },
        PeerEvent::Activate => stepped(view, TraversalState::PathValidated, TraversalState::Active),
        PeerEvent::Offline => view.cleared(TraversalState::Offline),
        PeerEvent::NetworkChange => view.cleared(TraversalState::Idle),
    }
}

pub open spec fn stepped(view: PeerView, expected: TraversalState, next: TraversalState) -> PeerView {
    if view.state == expected {
        PeerView { state: next, ..view }
    } else {
        view
    }
}

/// The state after a series of events.
pub open spec fn after_events(view: PeerView, events: Seq<PeerEvent>) -> PeerView
    decreases events.len(),
{
    if events.len() == 0 {
        view
    } else {
        after_event(after_events(view, events.drop_last()), events.last())
    }
}

/// The event at some place of a series.
pub open spec fn happens_at(events: Seq<PeerEvent>, event: PeerEvent, at: int) -> bool {
    0 <= at < events.len() && events[at] == event
}

/// However things go, a path is validated or active only after the transport was authenticated,
/// after that the session, and after that the plan accepted the promotion.
pub proof fn validation_follows_authentication(
    local_tag: RoutingTag,
    peer_tag: RoutingTag,
    events: Seq<PeerEvent>,
)
    ensures
        ({
            let state = after_events(PeerView::initial(local_tag, peer_tag), events).state;
            state == TraversalState::PathValidated || state == TraversalState::Active ==> exists|
                transport: int,
                session: int,
                promotion: int,
            |
                {
                    &&& transport < session < promotion
                    &&& #[trigger] happens_at(events, PeerEvent::ConfirmTransport, transport)
                    &&& #[trigger] happens_at(events, PeerEvent::ConfirmSession, session)
                    &&& #[trigger] happens_at(events, PeerEvent::Promote(true), promotion)
                }
        }),
{
    lemma_authentication_order(local_tag, peer_tag, events);
}

/// What each state says about the events that led to it.
proof fn lemma_authentication_order(
    local_tag: RoutingTag,
    peer_tag: RoutingTag,
    events: Seq<PeerEvent>,
)
    ensures
        ({
            let state = after_events(PeerView::initial(local_tag, peer_tag), events).state;
            &&& state == TraversalState::TransportAuthenticated ==> exists|transport: int|
                #[trigger] happens_at(events, PeerEvent::ConfirmTransport, transport)
            &&& state == TraversalState::SessionAuthenticated ==> exists|transport: int, session: int|
                {
                    &&& transport < session
                    &&& #[trigger] happens_at(events, PeerEvent::ConfirmTransport, transport)
                    &&& #[trigger] happens_at(events, PeerEvent::ConfirmSession, session)
                }
            &&& state == TraversalState::PathValidated || state == TraversalState::Active
                ==> exists|transport: int, session: int, promotion: int|
                {
                    &&& transport < session < promotion
                    &&& #[trigger] happens_at(events, PeerEvent::ConfirmTransport, transport)
                    &&& #[trigger] happens_at(events, PeerEvent::ConfirmSession, session)
                    &&& #[trigger] happens_at(events, PeerEvent::Promote(true), promotion)
                }
        }),
    decreases events.len(),
{
    if events.len() > 0 {
        let earlier = events.drop_last();
        let last = events.len() - 1;
        lemma_authentication_order(local_tag, peer_tag, earlier);
        assert forall|event: PeerEvent, at: int| #[trigger]
            happens_at(earlier, event, at) implies happens_at(events, event, at) by {}
        assert(happens_at(events, events.last(), last));
        let before = after_events(PeerView::initial(local_tag, peer_tag), earlier);
        let after = after_events(PeerView::initial(local_tag, peer_tag), events);
        if after.state == TraversalState::TransportAuthenticated && before.state
            == TraversalState::TransportAuthenticated {
            let t = choose|t: int| #[trigger] happens_at(earlier, PeerEvent::ConfirmTransport, t);
            assert(happens_at(events, PeerEvent::ConfirmTransport, t));
        }
        if after.state == TraversalState::SessionAuthenticated {
            if before.state == TraversalState::TransportAuthenticated {
                let t = choose|t: int| #[trigger]
                    happens_at(earlier, PeerEvent::ConfirmTransport, t);
                assert(happens_at(events, PeerEvent::ConfirmTransport, t));
                assert(happens_at(events, PeerEvent::ConfirmSession, last));
            } else {
                let (t, s) = choose|t: int, s: int|
                    {
                        &&& t < s
                        &&& #[trigger] happens_at(earlier, PeerEvent::ConfirmTransport, t)
                        &&& #[trigger] happens_at(earlier, PeerEvent::ConfirmSession, s)
                    };
                assert(happens_at(events, PeerEvent::ConfirmTransport, t));
                assert(happens_at(events, PeerEvent::ConfirmSession, s));
            }
        }
        if after.state == TraversalState::PathValidated || after.state == TraversalState::Active {
            if before.state == TraversalState::SessionAuthenticated {
                let (t, s) = choose|t: int, s: int|
                    {
                        &&& t < s
                        &&& #[trigger] happens_at(earlier, PeerEvent::ConfirmTransport, t)
                        &&& #[trigger] happens_at(earlier, PeerEvent::ConfirmSession, s)
                    };
                assert(happens_at(events, PeerEvent::ConfirmTransport, t));
                assert(happens_at(events, PeerEvent::ConfirmSession, s));
                assert(happens_at(events, PeerEvent::Promote(true), last));
            } else {
                let (t, s, p) = choose|t: int, s: int, p: int|
                    {
                        &&& t < s < p
                        &&& #[trigger] happens_at(earlier, PeerEvent::ConfirmTransport, t)
                        &&& #[trigger] happens_at(earlier, PeerEvent::ConfirmSession, s)
                        &&& #[trigger] happens_at(earlier, PeerEvent::Promote(true), p)
                    };
                assert(happens_at(events, PeerEvent::ConfirmTransport, t));
                assert(happens_at(events, PeerEvent::ConfirmSession, s));
                assert(happens_at(events, PeerEvent::Promote(true), p));
            }
        }
    }
}

/// A datagram from the network moves the state at most from probing to responsive, and never
/// changes the candidate, the attempt or the peer's tag.
pub proof fn datagrams_prove_at_most_responsiveness(
    view: PeerView,
    input: Seq<u8>,
    source: SocketAddr,
    now_millis: u64,
)
    ensures
        ({
            let after = view.received(input, source, now_millis).0;
            &&& after.state == view.state || (view.state == TraversalState::Probing && after.state
                == TraversalState::ProbeResponsive)
            &&& after.prepared == view.prepared
            &&& after.attempt == view.attempt
            &&& after.peer_tag == view.peer_tag
        }),
{
}

/// An attempt sends at most three probes, whatever is polled and whenever.
pub proof fn attempt_is_bounded(view: PeerView, event: PeerEvent)
    requires
        is_coherent(view),
    ensures
        is_coherent(after_event(view, event)),
        after_event(view, event).attempt matches Some(attempt) ==> attempt.sent <= 3,
{
}

/// A candidate of a relay is never probed: in every state that operations lead to, the candidate
/// of an attempt is a direct one.
pub proof fn only_direct_candidates_are_probed(
    local_tag: RoutingTag,
    peer_tag: RoutingTag,
    events: Seq<PeerEvent>,
)
    ensures
        ({
            let view = after_events(PeerView::initial(local_tag, peer_tag), events);
            &&& is_coherent(view)
            &&& view.attempt matches Some(attempt) ==> attempt.candidate.kind
                != ConnectivityPathKind::Relay
        }),
    decreases events.len(),
{
    if events.len() > 0 {
        only_direct_candidates_are_probed(local_tag, peer_tag, events.drop_last());
        attempt_is_bounded(
            after_events(PeerView::initial(local_tag, peer_tag), events.drop_last()),
            events.last(),
        );
    }
}

/// A change of network forgets candidate, attempt and outstanding probes and keeps every tag.
pub proof fn network_change_keeps_tags(view: PeerView)
    ensures
        ({
            let after = after_event(view, PeerEvent::NetworkChange);
            &&& after.tags == view.tags
            &&& after.peer_tag == view.peer_tag
            &&& after.prepared is None
            &&& after.attempt is None
            &&& after.outstanding == LedgerView::empty()
            &&& after.state == TraversalState::Idle
        }),
{
}

/// Every well-formed peer is in a coherent state. So a probe from the network is answered with the
/// offer of a reverse probe exactly while the peer is probing and its attempt is not exhausted.
pub proof fn reverse_probes_are_offered_while_probing(
    peer: PeerTraversal,
    input: Seq<u8>,
    source: SocketAddr,
    now_millis: u64,
)
    requires
        peer.wf(),
    ensures
        is_coherent(peer@),
        peer@.received(input, source, now_millis).1 matches DispositionView::Acknowledge {
            reverse_probe_eligible,
            ..
        } ==> reverse_probe_eligible == (peer@.state == TraversalState::Probing
            && peer@.attempt->0.sent < 3),
{
}

} // verus!
