//! What tags, outstanding probes, probing and answering are for, stated on what they are given and
//! what they leave.
use vstd::prelude::*;

use crate::connectivity::{CandidateId, ConnectivityCandidate, SocketAddr};
use crate::native_traversal::error::TraversalError;
use crate::native_traversal::ledger::{
    after_ack, after_record, is_outstanding, live, record_error, LedgerView,
};
use crate::native_traversal::peer::{
    decoded_packet, is_coherent, moved_on, AttemptView, DatagramView, DispositionView, PeerView,
    TraversalState,
};
use crate::native_traversal::probe::{
    encoded_packet_is_well_formed, header_error, lemma_field_lengths, wire_determines_packet,
    PacketView, ProbeMessageKind, ProbeNonce, RoutingTag, PROBE_MAGIC,
};
use crate::native_traversal::reconnect::{delay_after, IdleView};
use crate::native_traversal::routing_tags::TagsView;

verus! {

/// Where everything stands in a packet: the letters `PRWP`, version 1, the kind, two zero bytes, the
/// tag and the nonce.
pub proof fn packet_has_its_fields_in_place(packet: PacketView)
    ensures
        ({
            let wire = packet.wire();
            &&& wire.len() == 40
            &&& wire[0] == 80 && wire[1] == 82 && wire[2] == 87 && wire[3] == 80
            &&& wire[4] == 1
            &&& wire[5] == 1 <==> packet.kind == ProbeMessageKind::Probe
            &&& wire[5] == 2 <==> packet.kind == ProbeMessageKind::Ack
            &&& wire[6] == 0 && wire[7] == 0
            &&& wire.subrange(8, 24) == packet.destination_tag.spec_bytes()
            &&& wire.subrange(24, 40) == packet.nonce.spec_bytes()
        }),
{
    encoded_packet_is_well_formed(packet);
    let wire = packet.wire();
    let tag = packet.destination_tag.spec_bytes();
    let nonce = packet.nonce.spec_bytes();
    lemma_field_lengths(packet);
    assert(wire.subrange(8, 24) =~= tag);
    assert(wire.subrange(24, 40) =~= nonce);
}

/// Bytes are a packet exactly when there are forty, they begin as every packet does, name one of the
/// two kinds and have no flag. Otherwise the first of these that fails is reported.
pub proof fn bytes_are_judged_in_order(input: Seq<u8>)
    ensures
        input.len() != 40 <==> header_error(input) == Some(TraversalError::InvalidPacketLength),
        input.len() == 40 ==> {
            let magic = input[0] == 80 && input[1] == 82 && input[2] == 87 && input[3] == 80;
            let kind = input[5] == 1 || input[5] == 2;
            let flags = input[6] == 0 && input[7] == 0;
            &&& !magic <==> header_error(input) == Some(TraversalError::InvalidPacketMagic)
            &&& magic && input[4] != 1 <==> header_error(input) == Some(
                TraversalError::UnsupportedProbeVersion,
            )
            &&& magic && input[4] == 1 && !kind <==> header_error(input) == Some(
                TraversalError::UnsupportedProbeType,
            )
            &&& magic && input[4] == 1 && kind && !flags <==> header_error(input) == Some(
                TraversalError::UnsupportedProbeFlags,
            )
            &&& magic && input[4] == 1 && kind && flags <==> header_error(input) is None
        },
{
    if input.len() == 40 {
        let head = input.subrange(0, 4);
        assert(head.len() == 4);
        assert(head[0] == input[0] && head[1] == input[1] && head[2] == input[2] && head[3]
            == input[3]);
        if input[0] == 80 && input[1] == 82 && input[2] == 87 && input[3] == 80 {
            assert(head =~= PROBE_MAGIC@);
        }
    }
}

/// A tag counts at a moment exactly when it is the committed one, or the one before it and its time
/// is not over. Forgetting a tag whose time is over changes nothing else.
pub proof fn committed_and_overlapping_tags_count(tags: TagsView, tag: RoutingTag, now_millis: u64)
    ensures
        tags.accepts(tag, now_millis) <==> tags.current == Some(tag) || (tags.previous matches Some(
            previous,
        ) && previous.0 == tag && now_millis <= previous.1),
        tags.at(now_millis).current == tags.current,
        tags.at(now_millis).pending == tags.pending,
        tags.previous matches Some(previous) && now_millis <= previous.1 ==> tags.at(
            now_millis,
        ).previous == tags.previous,
        tags.previous matches Some(previous) && now_millis > previous.1 ==> tags.at(
            now_millis,
        ).previous is None,
        tags.previous is None ==> tags.at(now_millis).previous is None,
{
}

/// A rotation begins exactly where a tag is committed, none is pending and the replacement is
/// neither of the known ones. Otherwise the first of these that fails is reported.
pub proof fn rotation_begins_with_a_new_tag(tags: TagsView, replacement: RoutingTag)
    ensures
        tags.current is None <==> tags.begin_error(replacement) == Some(
            TraversalError::RoutingTagRevoked,
        ),
        tags.current is Some && tags.pending is Some <==> tags.begin_error(replacement) == Some(
            TraversalError::RoutingTagRotationInProgress,
        ),
        tags.current is Some && tags.pending is None && (tags.current == Some(replacement) || (
        tags.previous matches Some(previous) && previous.0 == replacement))
            <==> tags.begin_error(replacement) == Some(TraversalError::RoutingTagAlreadyKnown),
        tags.current is Some && tags.pending is None && tags.current != Some(replacement) && (
        tags.previous matches Some(previous) ==> previous.0 != replacement)
            <==> tags.begin_error(replacement) is None,
{
}

/// A rotation is committed exactly with the pending tag. That is the committed one from there on,
/// nothing is pending, and the one before counts for one more hour.
pub proof fn rotation_commits_the_pending_tag(
    tags: TagsView,
    replacement: RoutingTag,
    now_millis: u64,
)
    ensures
        tags.current is None <==> tags.commit_error(replacement) == Some(
            TraversalError::RoutingTagRevoked,
        ),
        tags.current is Some && tags.pending is None <==> tags.commit_error(replacement) == Some(
            TraversalError::RoutingTagRotationMissing,
        ),
        tags.current is Some && tags.pending is Some && tags.pending != Some(replacement)
            <==> tags.commit_error(replacement) == Some(TraversalError::RoutingTagRotationMismatch),
        tags.current is Some && tags.pending == Some(replacement) <==> tags.commit_error(
            replacement,
        ) is None,
        tags.commit_error(replacement) is None ==> {
            let after = tags.committed(replacement, now_millis);
            &&& after.current == Some(replacement)
            &&& after.pending is None
            &&& after.previous matches Some(previous)
            &&& Some(previous.0) == tags.current
            &&& now_millis <= u64::MAX - 3_600_000 ==> previous.1 == now_millis + 3_600_000
            &&& now_millis > u64::MAX - 3_600_000 ==> previous.1 == u64::MAX
        },
{
}

/// A probe is outstanding at a moment exactly when it is in the ledger and has not expired.
pub proof fn expired_probes_do_not_count(ledger: LedgerView, nonce: ProbeNonce, now_millis: u64)
    ensures
        live(ledger, now_millis).contains_key(nonce) <==> ledger.contains_key(nonce)
            && ledger[nonce].expires > now_millis,
        live(ledger, now_millis).contains_key(nonce) ==> live(ledger, now_millis)[nonce]
            == ledger[nonce],
{
}

/// A probe is recorded unless its nonce is outstanding or 64 probes are. It is then outstanding for
/// its candidate for a minute, and everything else that is outstanding stays so.
pub proof fn probe_is_recorded_for_a_minute(
    ledger: LedgerView,
    nonce: ProbeNonce,
    candidate: CandidateId,
    now_millis: u64,
)
    ensures
        ledger.contains_key(nonce) && ledger[nonce].expires > now_millis <==> record_error(
            ledger,
            nonce,
            now_millis,
        ) == Some(TraversalError::DuplicateOutstandingNonce),
        !(ledger.contains_key(nonce) && ledger[nonce].expires > now_millis) && live(
            ledger,
            now_millis,
        ).dom().len() >= 64 <==> record_error(ledger, nonce, now_millis) == Some(
            TraversalError::OutstandingProbeCapacity,
        ),
        !(ledger.contains_key(nonce) && ledger[nonce].expires > now_millis) && live(
            ledger,
            now_millis,
        ).dom().len() < 64 <==> record_error(ledger, nonce, now_millis) is None,
        record_error(ledger, nonce, now_millis) is None ==> {
            let after = after_record(ledger, nonce, candidate, now_millis);
            &&& after.contains_key(nonce)
            &&& after[nonce].candidate == candidate
            &&& now_millis <= u64::MAX - 60_000 ==> after[nonce].expires == now_millis + 60_000
            &&& now_millis > u64::MAX - 60_000 ==> after[nonce].expires == u64::MAX
        },
        forall|other: ProbeNonce|
            #![trigger ledger.contains_key(other)]
            other != nonce || record_error(ledger, nonce, now_millis) is Some ==> {
                let after = after_record(ledger, nonce, candidate, now_millis);
                &&& after.contains_key(other) <==> ledger.contains_key(other)
                    && ledger[other].expires > now_millis
                &&& after.contains_key(other) ==> after[other] == ledger[other]
            },
{
}

/// An acknowledgement belongs to a probe exactly when the nonce is outstanding for the candidate.
/// It then takes that probe, and everything else that is outstanding stays so.
pub proof fn ack_takes_its_probe(
    ledger: LedgerView,
    nonce: ProbeNonce,
    candidate: CandidateId,
    now_millis: u64,
)
    ensures
        is_outstanding(ledger, nonce, candidate, now_millis) <==> ledger.contains_key(nonce)
            && ledger[nonce].expires > now_millis && ledger[nonce].candidate == candidate,
        is_outstanding(ledger, nonce, candidate, now_millis) ==> !after_ack(
            ledger,
            nonce,
            candidate,
            now_millis,
        ).contains_key(nonce),
        forall|other: ProbeNonce|
            #![trigger ledger.contains_key(other)]
            other != nonce || !is_outstanding(ledger, nonce, candidate, now_millis) ==> {
                let after = after_ack(ledger, nonce, candidate, now_millis);
                &&& after.contains_key(other) <==> ledger.contains_key(other)
                    && ledger[other].expires > now_millis
                &&& after.contains_key(other) ==> after[other] == ledger[other]
            },
{
}

/// The three probes of an attempt are due at once, after a quarter and after three quarters of a
/// second, and then none is due any more.
pub proof fn probes_are_due_on_schedule(attempt: AttemptView)
    ensures
        attempt.sent == 0 ==> attempt.next_due() == Some(attempt.started),
        attempt.sent == 1 ==> (attempt.next_due() matches Some(due) && due == (if attempt.started
            <= u64::MAX - 250 {
            attempt.started + 250
        } else {
            u64::MAX as int
        })),
        attempt.sent == 2 ==> (attempt.next_due() matches Some(due) && due == (if attempt.started
            <= u64::MAX - 750 {
            attempt.started + 750
        } else {
            u64::MAX as int
        })),
        attempt.sent >= 3 ==> attempt.next_due() is None,
{
}

/// Every datagram that a poll emits goes to the address of the prepared candidate, and holds a probe
/// with the given nonce under the peer's destination tag, whichever of the three it is. The poll
/// then counts one probe more and keeps its nonce for the candidate, and changes nothing else.
pub proof fn emitted_probe_goes_to_the_candidate(
    view: PeerView,
    now_millis: u64,
    nonce: ProbeNonce,
    datagram: DatagramView,
)
    requires
        is_coherent(view),
        view.polled(now_millis, nonce).1 == Ok::<_, TraversalError>(Some(datagram)),
    ensures
        view.state == TraversalState::Probing,
        view.prepared matches Some(candidate) && {
            &&& datagram.destination.ip == candidate.endpoint.spec_address()
            &&& datagram.destination.port == candidate.endpoint.spec_port()
        },
        datagram.packet.kind == ProbeMessageKind::Probe,
        datagram.packet.nonce == nonce,
        datagram.packet.destination_tag == view.peer_tag,
        view.attempt is Some && view.attempt->0.sent < 3 && now_millis >= view.attempt->0.started,
        ({
            let after = view.polled(now_millis, nonce).0;
            &&& after.attempt matches Some(attempt)
            &&& attempt.sent == view.attempt->0.sent + 1
            &&& attempt.candidate == view.attempt->0.candidate
            &&& attempt.started == view.attempt->0.started
            &&& after.outstanding.contains_key(nonce)
            &&& after.outstanding[nonce].candidate == view.prepared->0.id
            &&& after.outstanding[nonce].expires > now_millis || now_millis == u64::MAX
            &&& forall|other: ProbeNonce|
                #![trigger view.outstanding.contains_key(other)]
                view.outstanding.contains_key(other) && view.outstanding[other].expires > now_millis
                    ==> other != nonce && after.outstanding.contains_key(other)
                    && after.outstanding[other] == view.outstanding[other]
            &&& after.state == view.state
            &&& after.prepared == view.prepared
            &&& after.tags == view.tags
            &&& after.peer_tag == view.peer_tag
        }),
{
}

/// A poll emits a probe exactly while the peer is probing, one of the three is due, and its nonce
/// can be kept. Outside of probing it is refused, and before the next one is due nothing is emitted;
/// in both cases nothing changes.
pub proof fn poll_emits_what_is_due(view: PeerView, now_millis: u64, nonce: ProbeNonce)
    requires
        is_coherent(view),
    ensures
        ({
            let (after, polled) = view.polled(now_millis, nonce);
            let attempt = view.attempt->0;
            let due = attempt.next_due() matches Some(moment) && moment <= now_millis;
            &&& view.state != TraversalState::Probing ==> after == view && polled == Err::<
                Option<DatagramView>,
                _,
            >(TraversalError::InvalidStateTransition)
            &&& view.state == TraversalState::Probing && !due ==> after == view && polled == Ok::<
                Option<DatagramView>,
                TraversalError,
            >(None)
            &&& view.state == TraversalState::Probing && due && record_error(
                view.outstanding,
                nonce,
                now_millis,
            ) is None ==> polled is Ok && polled->Ok_0 is Some
            &&& view.state == TraversalState::Probing && due && record_error(
                view.outstanding,
                nonce,
                now_millis,
            ) is Some ==> polled is Err && record_error(view.outstanding, nonce, now_millis) == Some(
                polled->Err_0,
            ) && after.attempt == view.attempt && after.state == view.state && (forall|other: ProbeNonce|
                #![trigger view.outstanding.contains_key(other)]
                view.outstanding.contains_key(other) && view.outstanding[other].expires > now_millis
                    ==> after.outstanding.contains_key(other))
        }),
{
}

/// The bytes of a packet stand for exactly that packet.
pub proof fn bytes_stand_for_one_packet(packet: PacketView)
    ensures
        decoded_packet(packet.wire()) == Some(packet),
{
    encoded_packet_is_well_formed(packet);
    let found = decoded_packet(packet.wire())->0;
    assert(packet.wire() == packet.wire());
    wire_determines_packet(found, packet);
}

/// A probe under a tag that counts is acknowledged, whatever the state of the peer: to the source
/// that it came from, with its nonce, and under the peer's destination tag. Nothing changes but that
/// an expired tag may be forgotten.
pub proof fn probe_is_acknowledged_to_its_source(
    view: PeerView,
    probe: PacketView,
    source: SocketAddr,
    now_millis: u64,
)
    requires
        probe.kind == ProbeMessageKind::Probe,
        view.tags.current == Some(probe.destination_tag) || (view.tags.previous matches Some(
            previous,
        ) && previous.0 == probe.destination_tag && now_millis <= previous.1),
    ensures
        ({
            let (after, disposition) = view.received(probe.wire(), source, now_millis);
            &&& disposition matches DispositionView::Acknowledge {
                datagram,
                observed_source,
                reverse_probe_eligible,
            }
            &&& datagram.destination == source
            &&& datagram.packet.kind == ProbeMessageKind::Ack
            &&& datagram.packet.nonce == probe.nonce
            &&& datagram.packet.destination_tag == view.peer_tag
            &&& observed_source == source
            &&& reverse_probe_eligible <==> view.state == TraversalState::Probing && (
            view.attempt matches Some(attempt) && attempt.sent < 3)
            &&& after.state == view.state
            &&& after.attempt == view.attempt
            &&& after.prepared == view.prepared
            &&& after.outstanding == view.outstanding
            &&& after.peer_tag == view.peer_tag
            &&& after.tags.current == view.tags.current
            &&& after.tags.pending == view.tags.pending
        }),
{
    bytes_stand_for_one_packet(probe);
}

/// An acknowledgement under a tag that counts makes a probing peer responsive exactly when its
/// nonce is outstanding for the candidate of the attempt: the disposition names that candidate and
/// the source. Every other one is ignored and leaves the state as it was.
pub proof fn awaited_ack_is_matched_to_its_probe(
    view: PeerView,
    ack: PacketView,
    source: SocketAddr,
    now_millis: u64,
)
    requires
        is_coherent(view),
        ack.kind == ProbeMessageKind::Ack,
        view.tags.current == Some(ack.destination_tag) || (view.tags.previous matches Some(previous)
            && previous.0 == ack.destination_tag && now_millis <= previous.1),
    ensures
        ({
            let after = view.received(ack.wire(), source, now_millis).0;
            let disposition = view.received(ack.wire(), source, now_millis).1;
            let awaited = view.state == TraversalState::Probing
                && view.outstanding.contains_key(ack.nonce) && view.outstanding[ack.nonce].expires
                > now_millis && view.outstanding[ack.nonce].candidate == view.prepared->0.id;
            &&& awaited ==> disposition == DispositionView::ProbeResponsive {
                candidate: view.prepared->0,
                observed_source: source,
            }
            &&& awaited ==> after.state == TraversalState::ProbeResponsive
            &&& awaited ==> !after.outstanding.contains_key(ack.nonce)
            &&& !awaited ==> disposition == DispositionView::Ignored
            &&& !awaited ==> after.state == view.state
            &&& forall|other: ProbeNonce|
                #![trigger view.outstanding.contains_key(other)]
                view.outstanding.contains_key(other) && view.outstanding[other].expires > now_millis
                    && (other != ack.nonce || !awaited) ==> after.outstanding.contains_key(other)
                    && after.outstanding[other] == view.outstanding[other]
            &&& after.outstanding.dom().subset_of(view.outstanding.dom())
            &&& after.attempt == view.attempt
            &&& after.prepared == view.prepared
            &&& after.peer_tag == view.peer_tag
            &&& after.tags.current == view.tags.current
            &&& after.tags.pending == view.tags.pending
        }),
{
    bytes_stand_for_one_packet(ack);
}

/// Bytes that are no packet are ignored, and change nothing.
pub proof fn malformed_input_is_ignored(
    view: PeerView,
    input: Seq<u8>,
    source: SocketAddr,
    now_millis: u64,
)
    requires
        header_error(input) is Some,
    ensures
        view.received(input, source, now_millis) == (view, DispositionView::Ignored),
{
}

/// A packet under a tag that does not count is ignored: nothing changes but that an expired tag may
/// be forgotten.
pub proof fn stray_packet_is_ignored(
    view: PeerView,
    packet: PacketView,
    source: SocketAddr,
    now_millis: u64,
)
    requires
        view.tags.current != Some(packet.destination_tag),
        view.tags.previous matches Some(previous) ==> previous.0 != packet.destination_tag
            || now_millis > previous.1,
    ensures
        ({
            let (after, disposition) = view.received(packet.wire(), source, now_millis);
            &&& disposition == DispositionView::Ignored
            &&& after.state == view.state
            &&& after.attempt == view.attempt
            &&& after.prepared == view.prepared
            &&& after.outstanding == view.outstanding
            &&& after.peer_tag == view.peer_tag
            &&& after.tags.current == view.tags.current
            &&& after.tags.pending == view.tags.pending
        }),
{
    bytes_stand_for_one_packet(packet);
}

/// Preparing a candidate makes the peer ready for exactly that one, with no attempt and nothing
/// outstanding, and keeps every tag.
pub proof fn prepared_candidate_is_ready(view: PeerView, candidate: ConnectivityCandidate)
    ensures
        ({
            let after = view.with_candidate(candidate);
            &&& after.state == TraversalState::CandidatesReady
            &&& after.prepared == Some(candidate)
            &&& after.attempt is None
            &&& after.outstanding == LedgerView::empty()
            &&& after.tags == view.tags
            &&& after.peer_tag == view.peer_tag
        }),
{
}

/// Starting begins an attempt on the prepared candidate at that moment, with no probe sent and
/// nothing outstanding, and keeps every tag.
pub proof fn started_attempt_is_on_the_prepared_candidate(view: PeerView, now_millis: u64)
    requires
        view.prepared is Some,
    ensures
        ({
            let after = view.with_attempt(now_millis);
            &&& after.state == TraversalState::Probing
            &&& after.prepared == view.prepared
            &&& after.attempt matches Some(attempt)
            &&& Some(attempt.candidate) == view.prepared
            &&& attempt.started == now_millis
            &&& attempt.sent == 0
            &&& after.outstanding == LedgerView::empty()
            &&& after.tags == view.tags
            &&& after.peer_tag == view.peer_tag
        }),
{
}

/// Clearing forgets the candidate, the attempt and everything outstanding, and keeps every tag.
pub proof fn cleared_peer_keeps_its_tags(view: PeerView, state: TraversalState)
    ensures
        ({
            let after = view.cleared(state);
            &&& after.state == state
            &&& after.prepared is None
            &&& after.attempt is None
            &&& after.outstanding == LedgerView::empty()
            &&& after.tags == view.tags
            &&& after.peer_tag == view.peer_tag
        }),
{
}

/// A new peer is idle, accepts its own tag alone, and answers under the peer's.
pub proof fn new_peer_is_idle(local_tag: RoutingTag, peer_tag: RoutingTag)
    ensures
        ({
            let view = PeerView::initial(local_tag, peer_tag);
            &&& view.state == TraversalState::Idle
            &&& view.prepared is None
            &&& view.attempt is None
            &&& view.outstanding == LedgerView::empty()
            &&& view.peer_tag == peer_tag
            &&& view.tags.current == Some(local_tag)
            &&& view.tags.previous is None
            &&& view.tags.pending is None
        }),
{
}

/// A step is taken exactly from its own state, and changes the state alone.
pub proof fn step_is_taken_from_its_state(
    before: PeerView,
    expected: TraversalState,
    next: TraversalState,
    after: PeerView,
    moved: Result<(), TraversalError>,
)
    requires
        moved_on(before, expected, next, after, moved),
    ensures
        moved is Ok <==> before.state == expected,
        moved is Ok ==> after.state == next,
        moved is Err ==> moved == Err::<(), _>(TraversalError::InvalidStateTransition)
            && after.state == before.state,
        after.prepared == before.prepared,
        after.attempt == before.attempt,
        after.outstanding == before.outstanding,
        after.tags == before.tags,
        after.peer_tag == before.peer_tag,
{
}

/// The first attempt is immediate; each failure puts the next one off further, up to a minute.
pub proof fn delays_are_as_listed(failures: nat)
    ensures
        failures == 0 ==> delay_after(failures) == 0,
        failures == 1 ==> delay_after(failures) == 1_000,
        failures == 2 ==> delay_after(failures) == 2_000,
        failures == 3 ==> delay_after(failures) == 5_000,
        failures == 4 ==> delay_after(failures) == 10_000,
        failures == 5 ==> delay_after(failures) == 30_000,
        failures >= 6 ==> delay_after(failures) == 60_000,
{
}

/// A keepalive is due exactly when the last traffic and the last keepalive are both at least 25
/// seconds ago.
pub proof fn keepalive_is_due_after_silence(view: IdleView, now_millis: u64)
    ensures
        view.is_due(now_millis) <==> now_millis >= view.last_traffic + 25_000 && now_millis
            >= view.last_keepalive + 25_000,
{
}

} // verus!
