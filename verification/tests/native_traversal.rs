//! Packets, routing tags, probes, the state of a peer, kept endpoints and reconnecting.
use ownspace::connectivity::{
    CandidateId, ConnectivityCandidate, ConnectivityEndpoint, ConnectivityError,
    ConnectivityPathKind, IpAddr, PeerConnectivityIdentity, PeerConnectivityPlan,
    ReachabilityObservation, SocketAddr,
};
use ownspace::domain::{DeviceId, TransportIdentity};
use ownspace::native_traversal::endpoints::{
    EndpointAddressFamily, EndpointCandidateCache, EndpointFreshness, EndpointProvenance,
    EndpointScope, EndpointValidationState, NetworkEpoch, ENDPOINT_FRESH_MILLIS,
    ENDPOINT_OLD_MILLIS, MAX_RETAINED_ENDPOINTS_PER_PEER,
};
use ownspace::native_traversal::error::TraversalError;
use ownspace::native_traversal::ledger::{
    ProbeLedger, MAX_OUTSTANDING_PROBES_PER_PEER, PROBE_NONCE_TTL_MILLIS,
};
use ownspace::native_traversal::peer::{InboundDisposition, PeerTraversal, TraversalState};
use ownspace::native_traversal::probe::{
    ProbeMessageKind, ProbeNonce, ProbePacket, RoutingTag, PROBE_NONCE_LEN, PROBE_PACKET_LEN,
    ROUTING_TAG_LEN,
};
use ownspace::native_traversal::reconnect::{ActivePathIdlePolicy, AndroidReconnectBackoff};
use ownspace::native_traversal::routing_tags::{ReceiveRoutingTags, ROUTING_TAG_OVERLAP_MILLIS};

fn tag(seed: u8) -> RoutingTag {
    RoutingTag::from_bytes([seed; ROUTING_TAG_LEN])
}

fn nonce(seed: u8) -> ProbeNonce {
    ProbeNonce::from_bytes([seed; PROBE_NONCE_LEN])
}

fn candidate(id: u64, port: u16) -> ConnectivityCandidate {
    ConnectivityCandidate::new(
        CandidateId::new(id).expect("non-zero candidate id"),
        ConnectivityPathKind::InternetDirect,
        ConnectivityEndpoint::new(IpAddr::V4([127, 0, 0, 1]), port).expect("valid test endpoint"),
    )
}

fn relay_candidate(id: u64, port: u16) -> ConnectivityCandidate {
    ConnectivityCandidate::new(
        CandidateId::new(id).expect("non-zero candidate id"),
        ConnectivityPathKind::Relay,
        ConnectivityEndpoint::new(IpAddr::V4([127, 0, 0, 1]), port).expect("valid test endpoint"),
    )
}

fn plan(candidate: ConnectivityCandidate) -> PeerConnectivityPlan {
    let peer = PeerConnectivityIdentity::new(
        DeviceId::new("native-peer".to_owned()).expect("device id"),
        TransportIdentity::new([7; 32]).expect("transport identity"),
    );
    PeerConnectivityPlan::new(peer, vec![candidate]).expect("peer plan")
}

#[test]
fn probe_v1_has_exact_wire_vector_and_round_trips() {
    let packet = ProbePacket::probe(tag(0x11), nonce(0x22));
    let encoded = packet.encode();

    assert_eq!(encoded.len(), PROBE_PACKET_LEN);
    assert_eq!(&encoded[0..4], &[80, 82, 87, 80]);
    assert_eq!(encoded[4], 1);
    assert_eq!(encoded[5], 1);
    assert_eq!(&encoded[6..8], &[0, 0]);
    assert_eq!(&encoded[8..24], &[0x11; 16]);
    assert_eq!(&encoded[24..40], &[0x22; 16]);
    assert_eq!(ProbePacket::decode(&encoded), Ok(packet));

    let ack = ProbePacket::ack(tag(0x33), nonce(0x44));
    assert_eq!(ack.encode().len(), PROBE_PACKET_LEN);
    assert_eq!(ProbePacket::decode(&ack.encode()), Ok(ack));
}

#[test]
fn malformed_probe_headers_fail_closed() {
    let packet = ProbePacket::probe(tag(1), nonce(2)).encode();

    assert_eq!(
        ProbePacket::decode(&packet[..39]),
        Err(TraversalError::InvalidPacketLength)
    );

    let mut wrong_magic = packet;
    wrong_magic[0] = b'X';
    assert_eq!(
        ProbePacket::decode(&wrong_magic),
        Err(TraversalError::InvalidPacketMagic)
    );

    let mut wrong_version = packet;
    wrong_version[4] = 2;
    assert_eq!(
        ProbePacket::decode(&wrong_version),
        Err(TraversalError::UnsupportedProbeVersion)
    );

    let mut wrong_type = packet;
    wrong_type[5] = 9;
    assert_eq!(
        ProbePacket::decode(&wrong_type),
        Err(TraversalError::UnsupportedProbeType)
    );

    let mut wrong_flags = packet;
    wrong_flags[7] = 1;
    assert_eq!(
        ProbePacket::decode(&wrong_flags),
        Err(TraversalError::UnsupportedProbeFlags)
    );
}

#[test]
fn routing_tag_rotation_is_transactional_and_overlap_is_bounded() {
    let mut tags = ReceiveRoutingTags::new(tag(1));

    tags.begin_rotation(tag(2)).expect("begin rotation");
    assert_eq!(tags.current(), Some(tag(1)));
    assert_eq!(tags.pending(), Some(tag(2)));
    assert!(tags.accepts(tag(1), 10));
    assert!(!tags.accepts(tag(2), 10));

    assert_eq!(
        tags.acknowledge_rotation(tag(3), 10),
        Err(TraversalError::RoutingTagRotationMismatch)
    );
    assert_eq!(tags.current(), Some(tag(1)));

    tags.acknowledge_rotation(tag(2), 10)
        .expect("commit rotation");
    assert!(tags.accepts(tag(1), 10 + ROUTING_TAG_OVERLAP_MILLIS));
    assert!(tags.accepts(tag(2), 10 + ROUTING_TAG_OVERLAP_MILLIS));
    assert!(!tags.accepts(tag(1), 11 + ROUTING_TAG_OVERLAP_MILLIS));
    assert!(tags.accepts(tag(2), 11 + ROUTING_TAG_OVERLAP_MILLIS));

    tags.revoke();
    assert!(!tags.accepts(tag(2), 12 + ROUTING_TAG_OVERLAP_MILLIS));
    assert_eq!(
        tags.begin_rotation(tag(4)),
        Err(TraversalError::RoutingTagRevoked)
    );
}

#[test]
fn cancelled_rotation_preserves_committed_tag() {
    let mut tags = ReceiveRoutingTags::new(tag(1));
    tags.begin_rotation(tag(2)).expect("begin");
    tags.cancel_rotation();
    assert_eq!(tags.current(), Some(tag(1)));
    assert_eq!(tags.pending(), None);
    assert!(tags.accepts(tag(1), 0));
}

#[test]
fn outstanding_nonce_state_is_bounded_and_replay_fails_closed() {
    let candidate_id = CandidateId::new(1).expect("candidate id");
    let mut ledger = ProbeLedger::default();

    for value in 0..MAX_OUTSTANDING_PROBES_PER_PEER {
        let seed = u8::try_from(value).expect("test bound fits u8");
        ledger
            .record(nonce(seed), candidate_id, 0)
            .expect("within capacity");
    }
    assert_eq!(ledger.len(), MAX_OUTSTANDING_PROBES_PER_PEER);
    assert_eq!(
        ledger.record(nonce(200), candidate_id, 0),
        Err(TraversalError::OutstandingProbeCapacity)
    );

    assert!(ledger.consume_ack(nonce(1), candidate_id, 1));
    assert!(!ledger.consume_ack(nonce(1), candidate_id, 1));
    assert!(!ledger.consume_ack(nonce(2), candidate_id, PROBE_NONCE_TTL_MILLIS));
}

#[test]
fn duplicate_live_nonce_is_rejected() {
    let candidate_id = CandidateId::new(1).expect("candidate id");
    let mut ledger = ProbeLedger::default();
    ledger.record(nonce(1), candidate_id, 0).expect("first");
    assert_eq!(
        ledger.record(nonce(1), candidate_id, 1),
        Err(TraversalError::DuplicateOutstandingNonce)
    );
}

#[test]
fn probe_schedule_emits_only_three_bounded_packets() {
    let candidate = candidate(1, 63636);
    let mut peer = PeerTraversal::new(tag(1), tag(2));
    peer.prepare_candidate(candidate).expect("candidate");
    peer.start_probing(1_000).expect("start");

    assert_eq!(peer.next_probe_due_millis(), Some(1_000));
    let first = peer
        .poll_probe(1_000, nonce(1))
        .expect("poll")
        .expect("first");
    assert_eq!(first.destination().port(), 63636);
    assert_eq!(peer.poll_probe(1_100, nonce(2)).expect("early"), None);
    assert!(peer.poll_probe(1_250, nonce(2)).expect("second").is_some());
    assert!(peer.poll_probe(1_749, nonce(3)).expect("early").is_none());
    assert!(peer.poll_probe(1_750, nonce(3)).expect("third").is_some());
    assert!(peer.probe_attempt_exhausted());
    assert_eq!(peer.poll_probe(2_000, nonce(4)).expect("done"), None);
    assert_eq!(peer.outstanding_probe_count(), 3);
}

#[test]
fn unknown_directional_tag_produces_no_ack_or_promotion() {
    let mut peer = PeerTraversal::new(tag(1), tag(2));
    let source = SocketAddr::new(IpAddr::V4([198, 51, 100, 20]), 63636);
    let wrong_direction = ProbePacket::probe(tag(2), nonce(9)).encode();

    assert_eq!(
        peer.handle_datagram(&wrong_direction, source, 0),
        InboundDisposition::Ignored
    );
    assert_eq!(peer.state(), TraversalState::Idle);
}

#[test]
fn inbound_probe_gets_one_equal_size_ack_without_creating_reverse_budget() {
    let mut peer = PeerTraversal::new(tag(1), tag(2));
    let source = SocketAddr::new(IpAddr::V4([198, 51, 100, 20]), 63636);
    let inbound = ProbePacket::probe(tag(1), nonce(9)).encode();

    let InboundDisposition::Acknowledge {
        datagram,
        observed_source,
        reverse_probe_eligible,
    } = peer.handle_datagram(&inbound, source, 0)
    else {
        panic!("expected acknowledgement");
    };

    assert_eq!(observed_source, source);
    assert_eq!(datagram.destination(), source);
    assert_eq!(datagram.packet().kind(), ProbeMessageKind::Ack);
    assert_eq!(datagram.packet().nonce(), nonce(9));
    assert_eq!(datagram.packet().destination_tag(), tag(2));
    assert_eq!(datagram.packet().encode().len(), PROBE_PACKET_LEN);
    assert!(!reverse_probe_eligible);
}

#[test]
fn active_local_attempt_may_expose_only_reverse_probe_eligibility() {
    let candidate = candidate(1, 63636);
    let mut peer = PeerTraversal::new(tag(1), tag(2));
    peer.prepare_candidate(candidate).expect("candidate");
    peer.start_probing(0).expect("start");

    let source = SocketAddr::new(IpAddr::V4([198, 51, 100, 20]), 63636);
    let inbound = ProbePacket::probe(tag(1), nonce(9)).encode();

    let InboundDisposition::Acknowledge {
        reverse_probe_eligible,
        ..
    } = peer.handle_datagram(&inbound, source, 0)
    else {
        panic!("expected acknowledgement");
    };
    assert!(reverse_probe_eligible);
    assert_eq!(peer.outstanding_probe_count(), 0);
}

#[test]
fn nonce_correlated_ack_reaches_only_probe_responsive() {
    let candidate = candidate(1, 63636);
    let mut peer = PeerTraversal::new(tag(1), tag(2));
    peer.prepare_candidate(candidate).expect("candidate");
    peer.start_probing(0).expect("start");
    peer.poll_probe(0, nonce(7)).expect("probe").expect("due");

    let source = SocketAddr::new(IpAddr::V4([198, 51, 100, 20]), 63636);
    let wrong = ProbePacket::ack(tag(1), nonce(8)).encode();
    assert_eq!(
        peer.handle_datagram(&wrong, source, 1),
        InboundDisposition::Ignored
    );
    assert_eq!(peer.state(), TraversalState::Probing);

    let correct = ProbePacket::ack(tag(1), nonce(7)).encode();
    let InboundDisposition::ProbeResponsive {
        candidate: responsive,
        observed_source,
    } = peer.handle_datagram(&correct, source, 2)
    else {
        panic!("expected responsive path");
    };
    assert_eq!(responsive, candidate);
    assert_eq!(observed_source, source);
    assert_eq!(peer.state(), TraversalState::ProbeResponsive);

    assert_eq!(
        peer.handle_datagram(&correct, source, 3),
        InboundDisposition::Ignored
    );
}

#[test]
fn path_becomes_reachable_only_after_transport_and_session_authentication() {
    let candidate = candidate(1, 63636);
    let mut plan = plan(candidate);
    let mut peer = PeerTraversal::new(tag(1), tag(2));
    peer.prepare_candidate(candidate).expect("candidate");
    peer.start_probing(0).expect("start");
    peer.poll_probe(0, nonce(7)).expect("probe").expect("due");

    let source = SocketAddr::new(IpAddr::V4([198, 51, 100, 20]), 63636);
    let ack = ProbePacket::ack(tag(1), nonce(7)).encode();
    assert!(matches!(
        peer.handle_datagram(&ack, source, 1),
        InboundDisposition::ProbeResponsive { .. }
    ));
    assert_eq!(
        plan.observation(candidate.id()),
        Some(ReachabilityObservation::Unknown)
    );

    peer.begin_quic_handshake().expect("quic");
    peer.confirm_transport_authenticated().expect("transport");
    assert_eq!(
        plan.observation(candidate.id()),
        Some(ReachabilityObservation::Unknown)
    );
    assert_eq!(
        peer.promote_path_validated(&mut plan),
        Err(TraversalError::InvalidStateTransition)
    );

    peer.confirm_session_authenticated().expect("session");
    assert_eq!(
        plan.observation(candidate.id()),
        Some(ReachabilityObservation::Unknown)
    );
    peer.promote_path_validated(&mut plan).expect("validated");
    assert_eq!(peer.state(), TraversalState::PathValidated);
    assert_eq!(
        plan.observation(candidate.id()),
        Some(ReachabilityObservation::Reachable)
    );

    peer.activate().expect("active");
    assert_eq!(peer.state(), TraversalState::Active);
}

#[test]
fn invalid_authentication_order_fails_closed() {
    let mut peer = PeerTraversal::new(tag(1), tag(2));
    assert_eq!(
        peer.confirm_transport_authenticated(),
        Err(TraversalError::InvalidStateTransition)
    );
    assert_eq!(
        peer.confirm_session_authenticated(),
        Err(TraversalError::InvalidStateTransition)
    );
    assert_eq!(peer.activate(), Err(TraversalError::InvalidStateTransition));
}

#[test]
fn native_traversal_rejects_relay_candidates() {
    let mut peer = PeerTraversal::new(tag(1), tag(2));
    assert_eq!(
        peer.prepare_candidate(relay_candidate(1, 63636)),
        Err(TraversalError::RelayCandidateUnsupported)
    );
    assert_eq!(peer.state(), TraversalState::Idle);
}

#[test]
fn network_change_clears_only_transient_attempt_state() {
    let candidate = candidate(1, 63636);
    let mut peer = PeerTraversal::new(tag(1), tag(2));
    peer.prepare_candidate(candidate).expect("candidate");
    peer.start_probing(0).expect("start");
    peer.poll_probe(0, nonce(1)).expect("probe").expect("due");
    assert_eq!(peer.outstanding_probe_count(), 1);

    peer.reset_for_network_change();

    assert_eq!(peer.state(), TraversalState::Idle);
    assert_eq!(peer.outstanding_probe_count(), 0);
    assert_eq!(peer.next_probe_due_millis(), None);
}

fn cached_endpoint(last_octet: u8, port: u16) -> ConnectivityEndpoint {
    ConnectivityEndpoint::new(IpAddr::V4([198, 51, 100, last_octet]), port)
        .expect("valid cached endpoint")
}

fn epoch(seed: u8) -> NetworkEpoch {
    NetworkEpoch::from_bytes([seed; 16])
}

#[test]
fn endpoint_freshness_uses_only_authenticated_success_age() {
    let endpoint = cached_endpoint(1, 63636);
    let mut cache = EndpointCandidateCache::new();

    cache.observe_reported(
        endpoint,
        EndpointScope::Public,
        EndpointProvenance::ManualBootstrap,
        epoch(1),
        100,
    );
    let reported = cache.entries()[0];
    assert_eq!(
        reported.validation_state(),
        EndpointValidationState::Reported
    );
    assert_eq!(reported.freshness(100 + ENDPOINT_OLD_MILLIS + 1), None);

    cache.record_authenticated_success(
        endpoint,
        EndpointScope::Public,
        EndpointProvenance::DirectSocketObserved,
        epoch(1),
        1_000,
    );
    let validated = cache.entries()[0];
    assert_eq!(
        validated.validation_state(),
        EndpointValidationState::PathValidated
    );
    assert_eq!(
        validated.freshness(1_000 + ENDPOINT_FRESH_MILLIS),
        Some(EndpointFreshness::Fresh)
    );
    assert_eq!(
        validated.freshness(1_001 + ENDPOINT_FRESH_MILLIS),
        Some(EndpointFreshness::Stale)
    );
    assert_eq!(
        validated.freshness(1_000 + ENDPOINT_OLD_MILLIS),
        Some(EndpointFreshness::Stale)
    );
    assert_eq!(
        validated.freshness(1_001 + ENDPOINT_OLD_MILLIS),
        Some(EndpointFreshness::Old)
    );
}

#[test]
fn cache_is_bounded_and_reported_public_candidate_does_not_displace_proven_paths() {
    let mut cache = EndpointCandidateCache::new();

    for value in 1..=4 {
        cache.record_authenticated_success(
            cached_endpoint(value, 63636),
            EndpointScope::Public,
            EndpointProvenance::DirectSocketObserved,
            epoch(value),
            u64::from(value) * 100,
        );
    }
    assert_eq!(cache.len(), MAX_RETAINED_ENDPOINTS_PER_PEER);

    let reported = cached_endpoint(9, 63636);
    cache.observe_reported(
        reported,
        EndpointScope::Public,
        EndpointProvenance::AuthenticatedPeerReported,
        epoch(9),
        10_000,
    );

    assert_eq!(cache.len(), MAX_RETAINED_ENDPOINTS_PER_PEER);
    assert!(
        cache
            .entries()
            .iter()
            .all(|candidate| candidate.endpoint() != reported)
    );

    let lan = cached_endpoint(10, 63636);
    cache.observe_reported(
        lan,
        EndpointScope::Lan,
        EndpointProvenance::LanDiscovery,
        epoch(10),
        10_001,
    );
    let ordered = cache.ordered_candidates(10_001);
    assert_eq!(ordered.len(), MAX_RETAINED_ENDPOINTS_PER_PEER);
    assert_eq!(ordered[0].endpoint(), lan);
    assert_eq!(ordered[0].scope(), EndpointScope::Lan);
    assert_eq!(
        ordered[0].validation_state(),
        EndpointValidationState::Reported
    );
}

#[test]
fn cache_keeps_minimal_metadata_and_clears_on_unpair_or_revoke() {
    let endpoint = cached_endpoint(20, 63636);
    let mut cache = EndpointCandidateCache::new();
    cache.observe_reported(
        endpoint,
        EndpointScope::Public,
        EndpointProvenance::ManualBootstrap,
        epoch(7),
        500,
    );

    let candidate = cache.entries()[0];
    assert_eq!(candidate.endpoint(), endpoint);
    assert_eq!(candidate.address_family(), EndpointAddressFamily::Ipv4);
    assert_eq!(candidate.scope(), EndpointScope::Public);
    assert_eq!(candidate.provenance(), EndpointProvenance::ManualBootstrap);
    assert_eq!(candidate.network_epoch(), epoch(7));
    assert_eq!(candidate.first_seen_at_millis(), 500);
    assert_eq!(candidate.last_seen_at_millis(), 500);
    assert_eq!(candidate.last_success_at_millis(), None);

    cache.clear();
    assert!(cache.is_empty());
}

#[test]
fn authenticated_success_upgrades_existing_report_without_new_identity_trust() {
    let endpoint = cached_endpoint(21, 63636);
    let mut cache = EndpointCandidateCache::new();
    cache.observe_reported(
        endpoint,
        EndpointScope::Public,
        EndpointProvenance::AuthenticatedPeerReported,
        epoch(1),
        100,
    );
    cache.record_authenticated_success(
        endpoint,
        EndpointScope::Public,
        EndpointProvenance::DirectSocketObserved,
        epoch(2),
        200,
    );

    assert_eq!(cache.len(), 1);
    let candidate = cache.entries()[0];
    assert_eq!(
        candidate.validation_state(),
        EndpointValidationState::PathValidated
    );
    assert_eq!(
        candidate.provenance(),
        EndpointProvenance::DirectSocketObserved
    );
    assert_eq!(candidate.network_epoch(), epoch(2));
    assert_eq!(candidate.first_seen_at_millis(), 100);
    assert_eq!(candidate.last_seen_at_millis(), 200);
    assert_eq!(candidate.last_success_at_millis(), Some(200));
}

#[test]
fn android_reconnect_backoff_matches_locked_schedule_and_resets() {
    let mut backoff = AndroidReconnectBackoff::new();
    let expected = [0, 1_000, 2_000, 5_000, 10_000, 30_000, 60_000, 60_000];

    for delay in expected {
        assert_eq!(backoff.next_delay_millis(), delay);
        backoff.record_failure();
    }

    backoff.reset_for_network_change();
    assert_eq!(backoff.next_delay_millis(), 0);
    backoff.record_failure();
    assert_eq!(backoff.next_delay_millis(), 1_000);

    backoff.reset_for_user_action();
    assert_eq!(backoff.next_delay_millis(), 0);
    backoff.record_failure();
    backoff.reset_after_success();
    assert_eq!(backoff.next_delay_millis(), 0);
}

#[test]
fn active_path_keepalive_waits_25_seconds_and_valid_traffic_resets_idle() {
    let mut idle = ActivePathIdlePolicy::new(1_000);

    assert!(!idle.should_emit_keepalive(25_999));
    assert!(idle.should_emit_keepalive(26_000));

    idle.record_valid_traffic(20_000);
    assert!(!idle.should_emit_keepalive(44_999));
    assert!(idle.should_emit_keepalive(45_000));

    idle.record_keepalive_emitted(45_000);
    assert!(!idle.should_emit_keepalive(69_999));
    assert!(idle.should_emit_keepalive(70_000));
}

#[test]
fn unknown_candidate_is_not_promoted_and_changes_nothing() {
    let other = candidate(2, 63636);
    let mut plan = plan(other);
    let mut peer = PeerTraversal::new(tag(1), tag(2));
    peer.prepare_candidate(candidate(1, 63636)).expect("candidate");
    peer.start_probing(0).expect("start");
    peer.poll_probe(0, nonce(7)).expect("probe").expect("due");
    let source = SocketAddr::new(IpAddr::V4([198, 51, 100, 20]), 63636);
    peer.handle_datagram(&ProbePacket::ack(tag(1), nonce(7)).encode(), source, 1);
    peer.begin_quic_handshake().expect("quic");
    peer.confirm_transport_authenticated().expect("transport");
    peer.confirm_session_authenticated().expect("session");

    assert_eq!(
        peer.promote_path_validated(&mut plan),
        Err(TraversalError::Connectivity(ConnectivityError::UnknownCandidate))
    );
    assert_eq!(peer.state(), TraversalState::SessionAuthenticated);
    assert_eq!(
        plan.observation(other.id()),
        Some(ReachabilityObservation::Unknown)
    );
}

#[test]
fn probe_goes_to_the_candidate_with_the_peers_tag() {
    let mut peer = PeerTraversal::new(tag(1), tag(2));
    peer.prepare_candidate(candidate(1, 4242)).expect("candidate");
    peer.start_probing(0).expect("start");
    peer.set_peer_destination_tag(tag(9));
    let datagram = peer.poll_probe(0, nonce(3)).expect("poll").expect("due");
    assert_eq!(
        datagram.destination(),
        SocketAddr::new(IpAddr::V4([127, 0, 0, 1]), 4242)
    );
    assert_eq!(datagram.packet(), ProbePacket::probe(tag(9), nonce(3)));
    assert_eq!(
        peer.poll_probe(250, nonce(3)),
        Err(TraversalError::DuplicateOutstandingNonce)
    );
    assert_eq!(peer.next_probe_due_millis(), Some(250));
}

#[test]
fn expired_ack_and_offline_peer_stay_unpromoted() {
    let mut peer = PeerTraversal::new(tag(1), tag(2));
    peer.prepare_candidate(candidate(1, 63636)).expect("candidate");
    peer.start_probing(0).expect("start");
    peer.poll_probe(0, nonce(7)).expect("probe").expect("due");
    let source = SocketAddr::new(IpAddr::V4([198, 51, 100, 20]), 63636);
    let ack = ProbePacket::ack(tag(1), nonce(7)).encode();
    assert_eq!(
        peer.handle_datagram(&ack, source, PROBE_NONCE_TTL_MILLIS),
        InboundDisposition::Ignored
    );
    assert_eq!(peer.state(), TraversalState::Probing);
    peer.mark_offline();
    assert_eq!(peer.state(), TraversalState::Offline);
    assert_eq!(
        peer.start_probing(1),
        Err(TraversalError::InvalidStateTransition)
    );
}

#[test]
fn tag_rotation_of_a_peer_reports_each_error() {
    let mut peer = PeerTraversal::new(tag(1), tag(2));
    assert_eq!(
        peer.acknowledge_receive_tag_rotation(tag(3), 0),
        Err(TraversalError::RoutingTagRotationMissing)
    );
    assert_eq!(
        peer.begin_receive_tag_rotation(tag(1)),
        Err(TraversalError::RoutingTagAlreadyKnown)
    );
    assert_eq!(peer.begin_receive_tag_rotation(tag(3)), Ok(()));
    assert_eq!(
        peer.begin_receive_tag_rotation(tag(4)),
        Err(TraversalError::RoutingTagRotationInProgress)
    );
    peer.cancel_receive_tag_rotation();
    assert_eq!(peer.begin_receive_tag_rotation(tag(4)), Ok(()));
    assert_eq!(peer.acknowledge_receive_tag_rotation(tag(4), 5), Ok(()));
    peer.revoke_receive_tags();
    assert_eq!(
        peer.begin_receive_tag_rotation(tag(5)),
        Err(TraversalError::RoutingTagRevoked)
    );
    assert_eq!(
        TraversalError::Connectivity(ConnectivityError::ZeroPort).message(),
        "connectivity update failed: endpoint port is zero"
    );
    assert_eq!(
        TraversalError::OutstandingProbeCapacity.message(),
        "outstanding probe nonce capacity exceeded"
    );
}

#[test]
fn equal_ranks_keep_their_order() {
    let mut cache = EndpointCandidateCache::new();
    for value in 1..=3 {
        cache.observe_reported(
            cached_endpoint(value, 63636),
            EndpointScope::Public,
            EndpointProvenance::ManualBootstrap,
            epoch(value),
            100,
        );
    }
    let ordered = cache.ordered_candidates(100);
    assert_eq!(ordered[0].endpoint(), cached_endpoint(1, 63636));
    assert_eq!(ordered[1].endpoint(), cached_endpoint(2, 63636));
    assert_eq!(ordered[2].endpoint(), cached_endpoint(3, 63636));

    cache.record_authenticated_success(
        cached_endpoint(3, 63636),
        EndpointScope::Public,
        EndpointProvenance::DirectSocketObserved,
        epoch(3),
        50,
    );
    assert_eq!(cache.entries()[0].endpoint(), cached_endpoint(3, 63636));
    cache.observe_reported(
        cached_endpoint(3, 63636),
        EndpointScope::Public,
        EndpointProvenance::AuthenticatedPeerReported,
        epoch(4),
        200,
    );
    assert_eq!(
        cache.entries()[0].validation_state(),
        EndpointValidationState::PathValidated
    );
    assert_eq!(cache.entries()[0].last_success_at_millis(), Some(50));
    assert_eq!(cache.entries()[0].last_seen_at_millis(), 200);
    assert_eq!(cache.entries()[0].network_epoch().as_bytes(), &[4; 16]);
}

#[test]
fn version_six_endpoint_has_its_family() {
    let mut cache = EndpointCandidateCache::default();
    cache.observe_reported(
        ConnectivityEndpoint::new(IpAddr::V6([1; 16]), 9).expect("endpoint"),
        EndpointScope::Lan,
        EndpointProvenance::LanDiscovery,
        epoch(1),
        1,
    );
    assert_eq!(
        cache.entries()[0].address_family(),
        EndpointAddressFamily::Ipv6
    );
}

#[test]
fn connectivity_values_reject_zero_and_duplicates() {
    assert_eq!(CandidateId::new(0), Err(ConnectivityError::ZeroCandidateId));
    assert_eq!(CandidateId::new(5).expect("id").get(), 5);
    assert_eq!(
        ConnectivityEndpoint::new(IpAddr::V4([1, 2, 3, 4]), 0),
        Err(ConnectivityError::ZeroPort)
    );
    let peer = PeerConnectivityIdentity::new(
        DeviceId::new("native-peer".to_owned()).expect("device id"),
        TransportIdentity::new([7; 32]).expect("transport identity"),
    );
    assert!(matches!(
        PeerConnectivityPlan::new(peer, vec![candidate(1, 2), candidate(1, 3)]),
        Err(ConnectivityError::DuplicateCandidate)
    ));
}

#[test]
fn pending_tag_stays_unaccepted_and_revocation_stays_final() {
    let mut tags = ReceiveRoutingTags::new(tag(1));
    tags.begin_rotation(tag(2)).expect("first rotation");
    tags.acknowledge_rotation(tag(2), 10).expect("first commit");
    tags.begin_rotation(tag(3)).expect("second rotation");
    tags.cancel_rotation();
    tags.begin_rotation(tag(4)).expect("third rotation");
    assert_eq!(tags.pending(), Some(tag(4)));
    assert_ne!(tags.current(), tags.pending());
    assert!(tags.accepts(tag(1), 11));
    assert!(tags.accepts(tag(2), 11));
    assert!(!tags.accepts(tag(4), 11));
    assert!(!tags.accepts(tag(4), u64::MAX));

    tags.revoke();
    assert_eq!(
        tags.begin_rotation(tag(5)),
        Err(TraversalError::RoutingTagRevoked)
    );
    assert_eq!(
        tags.acknowledge_rotation(tag(4), 12),
        Err(TraversalError::RoutingTagRevoked)
    );
    tags.cancel_rotation();
    assert_eq!(tags.current(), None);
    assert_eq!(tags.pending(), None);
    for seed in 1..=5 {
        assert!(!tags.accepts(tag(seed), 13));
    }
}

#[test]
fn ack_counts_for_a_minute_and_for_its_own_attempt_only() {
    let source = SocketAddr::new(IpAddr::V4([198, 51, 100, 20]), 63636);
    let ack = |seed: u8| ProbePacket::ack(tag(1), nonce(seed)).encode();
    let mut peer = PeerTraversal::new(tag(1), tag(2));
    peer.prepare_candidate(candidate(1, 63636)).expect("candidate");
    peer.start_probing(0).expect("start");
    peer.poll_probe(0, nonce(7)).expect("probe").expect("due");
    peer.poll_probe(250, nonce(8)).expect("probe").expect("due");

    let mut late = peer.clone();
    assert_eq!(
        late.handle_datagram(&ack(7), source, 60_000),
        InboundDisposition::Ignored
    );
    assert_eq!(late.state(), TraversalState::Probing);
    assert!(matches!(
        late.handle_datagram(&ack(8), source, 60_249),
        InboundDisposition::ProbeResponsive { .. }
    ));

    let mut early = peer.clone();
    assert!(matches!(
        early.handle_datagram(&ack(7), source, 59_999),
        InboundDisposition::ProbeResponsive { .. }
    ));
    assert_eq!(
        early.handle_datagram(&ack(7), source, 60_000),
        InboundDisposition::Ignored
    );

    peer.prepare_candidate(candidate(1, 63636)).expect("candidate");
    peer.start_probing(300).expect("start again");
    assert_eq!(
        peer.handle_datagram(&ack(7), source, 301),
        InboundDisposition::Ignored
    );
    assert_eq!(peer.state(), TraversalState::Probing);
}

#[test]
fn copies_hold_the_same_and_go_their_own_way() {
    let mut tags = ReceiveRoutingTags::new(tag(1));
    tags.begin_rotation(tag(2)).expect("rotation");
    let mut copied_tags = tags.clone();
    assert_eq!(copied_tags.current(), Some(tag(1)));
    assert_eq!(copied_tags.pending(), Some(tag(2)));
    copied_tags.revoke();
    assert_eq!(tags.current(), Some(tag(1)));

    let mut ledger = ProbeLedger::new();
    let target = CandidateId::new(4).expect("candidate id");
    ledger.record(nonce(3), target, 10).expect("recorded");
    let mut copied_ledger = ledger.clone();
    assert_eq!(copied_ledger.len(), 1);
    assert!(copied_ledger.consume_ack(nonce(3), target, 11));
    assert_eq!((ledger.len(), copied_ledger.len()), (1, 0));

    let mut cache = EndpointCandidateCache::new();
    cache.observe_reported(
        cached_endpoint(9, 63636),
        EndpointScope::Public,
        EndpointProvenance::ManualBootstrap,
        epoch(2),
        50,
    );
    let mut copied_cache = cache.clone();
    assert_eq!(copied_cache.entries(), cache.entries());
    copied_cache.clear();
    assert_eq!((cache.len(), copied_cache.len()), (1, 0));
}
