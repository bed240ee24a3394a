//! What an acknowledgement proves, over everything that happened to a peer.
use vstd::prelude::*;

use crate::connectivity::{ConnectivityPathKind, SocketAddr};
use crate::native_traversal::ledger::{live, LedgerView, PROBE_NONCE_TTL_MILLIS};
use crate::native_traversal::peer::{
    after_event, after_events, decoded_packet, is_coherent, only_direct_candidates_are_probed,
    DispositionView, PeerEvent, PeerView, TraversalState,
};
use crate::native_traversal::probe::{ProbeMessageKind, ProbeNonce, RoutingTag};

verus! {

/// The moment at which an event happens, for those that are told one.
pub open spec fn event_time(event: PeerEvent) -> Option<u64> {
    match event {
        PeerEvent::StartProbing(now) => Some(now),
        PeerEvent::Poll(now, _) => Some(now),
        PeerEvent::Datagram(_, _, now) => Some(now),
        _ => None,
    }
}

/// Times never decrease, and none is so late that a minute more does not fit.
pub open spec fn times_ascend(events: Seq<PeerEvent>) -> bool {
    &&& forall|i: int|
        0 <= i < events.len() ==> ((#[trigger] event_time(events[i])) matches Some(now) ==> now
            < u64::MAX - PROBE_NONCE_TTL_MILLIS)
    &&& forall|i: int, j: int|
        0 <= i < j < events.len() ==> ((#[trigger] event_time(events[i])) matches Some(earlier) ==> (
        (#[trigger] event_time(events[j])) matches Some(later) ==> earlier <= later))
}

/// Whether an event begins another attempt, or drops the one there is.
pub open spec fn replaces_attempt(view: PeerView, event: PeerEvent) -> bool {
    match event {
        PeerEvent::Prepare(candidate) => candidate.kind != ConnectivityPathKind::Relay,
        PeerEvent::StartProbing(_) => view.state == TraversalState::CandidatesReady,
        PeerEvent::Offline | PeerEvent::NetworkChange => true,
        _ => false,
    }
}

/// The event at a place of a series is a poll that emitted a probe with this nonce.
pub open spec fn emitted_at(
    start: PeerView,
    events: Seq<PeerEvent>,
    nonce: ProbeNonce,
    at: int,
) -> bool {
    &&& 0 <= at < events.len()
    &&& events[at] matches PeerEvent::Poll(now, polled) && polled == nonce && (after_events(
        start,
        events.take(at),
    ).polled(now, nonce).1 matches Ok(Some(_)))
}

/// Since the event at a place, no other attempt was begun and none was dropped.
pub open spec fn in_current_attempt(start: PeerView, events: Seq<PeerEvent>, at: int) -> bool {
    forall|k: int|
        at < k < events.len() ==> !replaces_attempt(
            after_events(start, events.take(k)),
            #[trigger] events[k],
        )
}

/// The current attempt emitted a probe with this nonce at a place of the series, less than a
/// minute before a moment.
pub open spec fn recently_emitted_at(
    start: PeerView,
    events: Seq<PeerEvent>,
    nonce: ProbeNonce,
    now_millis: u64,
    at: int,
) -> bool {
    &&& emitted_at(start, events, nonce, at)
    &&& in_current_attempt(start, events, at)
    &&& now_millis < event_time(events[at])->0 + PROBE_NONCE_TTL_MILLIS
}

/// The ledger holds a probe of the current attempt as it was emitted.
spec fn entry_was_emitted(start: PeerView, events: Seq<PeerEvent>, nonce: ProbeNonce) -> bool {
    let view = after_events(start, events);
    &&& view.outstanding[nonce].candidate == view.attempt->0.candidate.id
    &&& exists|at: int|
        {
            &&& #[trigger] emitted_at(start, events, nonce, at)
            &&& in_current_attempt(start, events, at)
            &&& view.outstanding[nonce].expires == event_time(events[at])->0
                + PROBE_NONCE_TTL_MILLIS
        }
}

/// A minute went by after a moment.
spec fn minute_passed(events: Seq<PeerEvent>, since: u64, k: int) -> bool {
    0 <= k < events.len() && (event_time(events[k]) matches Some(now) && now >= since
        + PROBE_NONCE_TTL_MILLIS)
}

/// A probe of the current attempt is in the ledger for its minute.
spec fn emitted_is_kept(
    start: PeerView,
    events: Seq<PeerEvent>,
    nonce: ProbeNonce,
    at: int,
) -> bool {
    let view = after_events(start, events);
    let since = event_time(events[at])->0;
    ||| view.outstanding.contains_key(nonce) && view.outstanding[nonce].expires >= since
        + PROBE_NONCE_TTL_MILLIS
    ||| exists|k: int| #[trigger] minute_passed(events, since, k)
}

spec fn ledger_follows_polls(start: PeerView, events: Seq<PeerEvent>) -> bool {
    let view = after_events(start, events);
    view.state == TraversalState::Probing ==> {
        &&& forall|nonce: ProbeNonce| #[trigger]
            view.outstanding.contains_key(nonce) ==> entry_was_emitted(start, events, nonce)
        &&& forall|nonce: ProbeNonce, at: int| #[trigger]
            emitted_at(start, events, nonce, at) && in_current_attempt(start, events, at)
                ==> emitted_is_kept(start, events, nonce, at)
    }
}

/// One event more says nothing new of the polls before it.
proof fn lemma_earlier_polls(start: PeerView, events: Seq<PeerEvent>)
    requires
        events.len() > 0,
    ensures
        forall|nonce: ProbeNonce, at: int|
            0 <= at < events.len() - 1 ==> #[trigger] emitted_at(start, events, nonce, at) == emitted_at(
                start,
                events.drop_last(),
                nonce,
                at,
            ),
        forall|at: int|
            0 <= at < events.len() - 1 ==> #[trigger] in_current_attempt(start, events, at) == (
            in_current_attempt(start, events.drop_last(), at) && !replaces_attempt(
                after_events(start, events.drop_last()),
                events.last(),
            )),
{
    let earlier = events.drop_last();
    let last = events.len() - 1;
    assert forall|nonce: ProbeNonce, at: int| 0 <= at < last implies #[trigger] emitted_at(
        start,
        events,
        nonce,
        at,
    ) == emitted_at(start, earlier, nonce, at) by {
        assert(events.take(at) =~= earlier.take(at));
    }
    assert(events.take(last) =~= earlier);
    assert forall|at: int| 0 <= at < last implies #[trigger] in_current_attempt(start, events, at) == (
    in_current_attempt(start, earlier, at) && !replaces_attempt(
        after_events(start, earlier),
        events.last(),
    )) by {
        assert forall|k: int| 0 <= k < last implies #[trigger] events[k] == earlier[k]
            && events.take(k) == earlier.take(k) by {
            assert(events.take(k) =~= earlier.take(k));
        }
        if in_current_attempt(start, events, at) {
            assert(!replaces_attempt(after_events(start, events.take(last)), events[last]));
            assert forall|k: int| at < k < earlier.len() implies !replaces_attempt(
                after_events(start, earlier.take(k)),
                #[trigger] earlier[k],
            ) by {
                assert(!replaces_attempt(after_events(start, events.take(k)), events[k]));
            }
        }
    }
}

/// The event is a poll that emits a probe with this nonce.
spec fn emits(view: PeerView, event: PeerEvent, nonce: ProbeNonce) -> bool {
    event matches PeerEvent::Poll(now, polled) && polled == nonce && (view.polled(now, nonce).1
        matches Ok(Some(_)))
}

/// While an attempt goes on, the ledger gains what is polled and loses what expires.
proof fn lemma_ledger_step(view: PeerView, event: PeerEvent)
    requires
        is_coherent(view),
        !replaces_attempt(view, event),
        after_event(view, event).state == TraversalState::Probing,
        event_time(event) matches Some(now) ==> now < u64::MAX - PROBE_NONCE_TTL_MILLIS,
    ensures
        view.state == TraversalState::Probing,
        after_event(view, event).attempt->0.candidate == view.attempt->0.candidate,
        ({
            let before = view.outstanding;
            let after = after_event(view, event).outstanding;
            &&& forall|nonce: ProbeNonce| #[trigger]
                after.contains_key(nonce) ==> (before.contains_key(nonce) && after[nonce]
                    == before[nonce]) || (emits(view, event, nonce) && after[nonce].candidate
                    == view.attempt->0.candidate.id && after[nonce].expires == event_time(event)->0
                    + PROBE_NONCE_TTL_MILLIS)
            &&& forall|nonce: ProbeNonce| #[trigger]
                before.contains_key(nonce) ==> (after.contains_key(nonce) && after[nonce]
                    == before[nonce]) || (event_time(event) matches Some(now)
                    && before[nonce].expires <= now)
            &&& forall|nonce: ProbeNonce| #[trigger]
                emits(view, event, nonce) ==> after.contains_key(nonce) && after[nonce].expires
                    == event_time(event)->0 + PROBE_NONCE_TTL_MILLIS
        }),
{
    match event {
        PeerEvent::Poll(now, nonce) => {
            assert(live(view.outstanding, now).dom().subset_of(view.outstanding.dom()));
            assert(forall|other: ProbeNonce| #[trigger]
                view.outstanding.contains_key(other) ==> live(view.outstanding, now).contains_key(
                    other,
                ) || view.outstanding[other].expires <= now);
        },
        PeerEvent::Datagram(input, _, now) => {
            assert(live(view.outstanding, now).dom().subset_of(view.outstanding.dom()));
            assert(forall|other: ProbeNonce| #[trigger]
                view.outstanding.contains_key(other) ==> live(view.outstanding, now).contains_key(
                    other,
                ) || view.outstanding[other].expires <= now);
        },
        _ => {},
    }
}

proof fn lemma_ledger_follows_polls(
    local_tag: RoutingTag,
    peer_tag: RoutingTag,
    events: Seq<PeerEvent>,
)
    requires
        times_ascend(events),
    ensures
        ledger_follows_polls(PeerView::initial(local_tag, peer_tag), events),
    decreases events.len(),
{
    let start = PeerView::initial(local_tag, peer_tag);
    let view = after_events(start, events);
    if events.len() > 0 && view.state == TraversalState::Probing {
        let earlier = events.drop_last();
        let last = events.len() - 1;
        let before = after_events(start, earlier);
        let event = events.last();
        assert(events.take(last) =~= earlier);
        assert(event_time(events[last]) == event_time(event));
        assert forall|i: int| 0 <= i < earlier.len() implies earlier[i] == #[trigger] events[i] by {}
        assert(times_ascend(earlier)) by {
            assert forall|i: int| 0 <= i < earlier.len() implies (
            (#[trigger] event_time(earlier[i])) matches Some(now) ==> now < u64::MAX
                - PROBE_NONCE_TTL_MILLIS) by {
                assert(event_time(earlier[i]) == event_time(events[i]));
            }
            assert forall|i: int, j: int| 0 <= i < j < earlier.len() implies (
            (#[trigger] event_time(earlier[i])) matches Some(sooner) ==> (
            (#[trigger] event_time(earlier[j])) matches Some(later) ==> sooner <= later)) by {
                assert(event_time(earlier[i]) == event_time(events[i]));
                assert(event_time(earlier[j]) == event_time(events[j]));
            }
        }
        lemma_ledger_follows_polls(local_tag, peer_tag, earlier);
        only_direct_candidates_are_probed(local_tag, peer_tag, earlier);
        lemma_earlier_polls(start, events);
        if replaces_attempt(before, event) {
            assert(view.outstanding == LedgerView::empty());
            assert forall|nonce: ProbeNonce, at: int| #[trigger]
                emitted_at(start, events, nonce, at) && in_current_attempt(
                    start,
                    events,
                    at,
                ) implies emitted_is_kept(start, events, nonce, at) by {
                assert(at == last);
                assert(events[at] == event);
            }
        } else {
            lemma_ledger_step(before, event);
            assert forall|nonce: ProbeNonce| #[trigger]
                view.outstanding.contains_key(nonce) implies entry_was_emitted(
                start,
                events,
                nonce,
            ) by {
                if emits(before, event, nonce) && view.outstanding[nonce].expires == event_time(
                    event,
                )->0 + PROBE_NONCE_TTL_MILLIS && view.outstanding[nonce].candidate
                    == before.attempt->0.candidate.id {
                    assert(emitted_at(start, events, nonce, last));
                    assert(in_current_attempt(start, events, last));
                } else {
                    assert(before.outstanding.contains_key(nonce));
                    assert(entry_was_emitted(start, earlier, nonce));
                    let at = choose|at: int|
                        {
                            &&& #[trigger] emitted_at(start, earlier, nonce, at)
                            &&& in_current_attempt(start, earlier, at)
                            &&& before.outstanding[nonce].expires == event_time(earlier[at])->0
                                + PROBE_NONCE_TTL_MILLIS
                        };
                    assert(emitted_at(start, events, nonce, at));
                    assert(in_current_attempt(start, events, at));
                    assert(events[at] == earlier[at]);
                }
            }
            assert forall|nonce: ProbeNonce, at: int| #[trigger]
                emitted_at(start, events, nonce, at) && in_current_attempt(
                    start,
                    events,
                    at,
                ) implies emitted_is_kept(start, events, nonce, at) by {
                let since = event_time(events[at])->0;
                if at == last {
                    assert(emits(before, event, nonce));
                } else {
                    assert(emitted_at(start, earlier, nonce, at));
                    assert(in_current_attempt(start, earlier, at));
                    assert(emitted_is_kept(start, earlier, nonce, at));
                    assert(events[at] == earlier[at]);
                    if exists|k: int| #[trigger] minute_passed(earlier, since, k) {
                        let k = choose|k: int| #[trigger] minute_passed(earlier, since, k);
                        assert(events[k] == earlier[k]);
                        assert(minute_passed(events, since, k));
                    } else {
                        assert(before.outstanding.contains_key(nonce));
                        if let Some(now) = event_time(event) {
                            if before.outstanding[nonce].expires <= now {
                                assert(minute_passed(events, since, last));
                            }
                        }
                    }
                }
            }
        }
    }
}

/// A datagram is the acknowledgement that a peer waits for: well formed, under an accepted tag,
/// while the peer is probing, and with a nonce that the current attempt emitted less than a minute
/// before.
pub open spec fn is_awaited_ack(
    start: PeerView,
    events: Seq<PeerEvent>,
    input: Seq<u8>,
    now_millis: u64,
) -> bool {
    let view = after_events(start, events);
    &&& decoded_packet(input) matches Some(packet)
    &&& packet.kind == ProbeMessageKind::Ack
    &&& view.tags.accepts(packet.destination_tag, now_millis)
    &&& view.state == TraversalState::Probing
    &&& exists|at: int| #[trigger]
        recently_emitted_at(start, events, packet.nonce, now_millis, at)
}

/// Whatever happened to a peer before, as long as time does not run backwards: a datagram makes
/// the peer responsive exactly when it is the awaited acknowledgement. The candidate is then that
/// of the attempt, and the same datagram is ignored ever after. Malformed input, an unknown tag
/// and every other acknowledgement are ignored and leave the state as it was.
pub proof fn awaited_ack_makes_responsive(
    local_tag: RoutingTag,
    peer_tag: RoutingTag,
    events: Seq<PeerEvent>,
    input: Seq<u8>,
    source: SocketAddr,
    now_millis: u64,
)
    requires
        times_ascend(events.push(PeerEvent::Datagram(input, source, now_millis))),
    ensures
        ({
            let start = PeerView::initial(local_tag, peer_tag);
            let view = after_events(start, events);
            let (after, disposition) = view.received(input, source, now_millis);
            &&& disposition is ProbeResponsive <==> is_awaited_ack(
                start,
                events,
                input,
                now_millis,
            )
            &&& disposition is ProbeResponsive ==> {
                &&& disposition == DispositionView::ProbeResponsive {
                    candidate: view.attempt->0.candidate,
                    observed_source: source,
                }
                &&& after.state == TraversalState::ProbeResponsive
                &&& forall|other: SocketAddr, later: u64|
                    {
                        let replayed = #[trigger] after.received(input, other, later);
                        replayed.1 == DispositionView::Ignored && replayed.0.state == after.state
                    }
            }
            &&& !(disposition is ProbeResponsive) ==> after.state == view.state
            &&& {
                ||| decoded_packet(input) is None
                ||| !view.tags.accepts(decoded_packet(input)->0.destination_tag, now_millis)
                ||| decoded_packet(input)->0.kind == ProbeMessageKind::Ack && !is_awaited_ack(
                    start,
                    events,
                    input,
                    now_millis,
                )
            } ==> disposition == DispositionView::Ignored
        }),
{
    let start = PeerView::initial(local_tag, peer_tag);
    let view = after_events(start, events);
    let all = events.push(PeerEvent::Datagram(input, source, now_millis));
    let last = all.len() - 1;
    assert(event_time(all[last]) == Some(now_millis));
    assert forall|i: int| 0 <= i < events.len() implies event_time(#[trigger] events[i])
        == event_time(all[i]) by {}
    assert(times_ascend(events)) by {
        assert forall|i: int| 0 <= i < events.len() implies ((#[trigger] event_time(events[i]))
            matches Some(now) ==> now < u64::MAX - PROBE_NONCE_TTL_MILLIS) by {
            assert(event_time(events[i]) == event_time(all[i]));
        }
        assert forall|i: int, j: int| 0 <= i < j < events.len() implies (
        (#[trigger] event_time(events[i])) matches Some(sooner) ==> (
        (#[trigger] event_time(events[j])) matches Some(later) ==> sooner <= later)) by {
            assert(event_time(events[i]) == event_time(all[i]));
            assert(event_time(events[j]) == event_time(all[j]));
        }
    }
    lemma_ledger_follows_polls(local_tag, peer_tag, events);
    only_direct_candidates_are_probed(local_tag, peer_tag, events);
    if let Some(packet) = decoded_packet(input) {
        if view.state == TraversalState::Probing && packet.kind == ProbeMessageKind::Ack
            && view.tags.accepts(packet.destination_tag, now_millis) {
            let nonce = packet.nonce;
            if live(view.outstanding, now_millis).contains_key(nonce) {
                assert(view.outstanding.contains_key(nonce));
                assert(entry_was_emitted(start, events, nonce));
                let at = choose|at: int|
                    {
                        &&& #[trigger] emitted_at(start, events, nonce, at)
                        &&& in_current_attempt(start, events, at)
                        &&& view.outstanding[nonce].expires == event_time(events[at])->0
                            + PROBE_NONCE_TTL_MILLIS
                    };
                assert(recently_emitted_at(start, events, nonce, now_millis, at));
            }
            if exists|at: int| #[trigger]
                recently_emitted_at(start, events, nonce, now_millis, at) {
                let at = choose|at: int| #[trigger]
                    recently_emitted_at(start, events, nonce, now_millis, at);
                assert(emitted_is_kept(start, events, nonce, at));
                let since = event_time(events[at])->0;
                assert forall|k: int| !(#[trigger] minute_passed(events, since, k)) by {
                    if 0 <= k < events.len() {
                        assert(event_time(events[k]) == event_time(all[k]));
                        assert(event_time(all[last]) == Some(now_millis));
                    }
                }
                assert(view.outstanding.contains_key(nonce));
                assert(entry_was_emitted(start, events, nonce));
                assert(live(view.outstanding, now_millis).contains_key(nonce));
            }
        }
    }
}

} // verus!
