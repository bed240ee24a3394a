//! The probes that are still waiting for an acknowledgement.
use vstd::prelude::*;

use crate::connectivity::CandidateId;
use crate::native_traversal::error::TraversalError;
use crate::native_traversal::probe::ProbeNonce;
use crate::native_traversal::routing_tags::saturating_sum;

verus! {

/// Maximum active outbound probe nonces retained for one peer.
pub const MAX_OUTSTANDING_PROBES_PER_PEER: usize = 64;

/// Maximum lifetime of one outstanding probe nonce.
pub const PROBE_NONCE_TTL_MILLIS: u64 = 60_000;

#[derive(Clone, Copy, PartialEq, Eq, Debug)]
struct OutstandingProbe {
    nonce: ProbeNonce,
    candidate_id: CandidateId,
    expires_at_millis: u64,
}

/// The outstanding probes of one peer.
#[derive(PartialEq, Eq, Debug)]
pub struct ProbeLedger {
    entries: Vec<OutstandingProbe>,
}

/// What is known of an outstanding nonce: the candidate it was sent to, and when it expires.
pub struct OutstandingView {
    pub candidate: CandidateId,
    pub expires: u64,
}

pub type LedgerView = Map<ProbeNonce, OutstandingView>;

spec fn has_nonce(entries: Seq<OutstandingProbe>, nonce: ProbeNonce) -> bool {
    exists|i: int| 0 <= i < entries.len() && (#[trigger] entries[i]).nonce == nonce
}

spec fn position(entries: Seq<OutstandingProbe>, nonce: ProbeNonce) -> int {
    choose|i: int| 0 <= i < entries.len() && (#[trigger] entries[i]).nonce == nonce
}

spec fn distinct(entries: Seq<OutstandingProbe>) -> bool {
    forall|i: int, j: int|
        0 <= i < entries.len() && 0 <= j < entries.len() && i != j ==> (
        #[trigger] entries[i]).nonce != (#[trigger] entries[j]).nonce
}

spec fn as_map(entries: Seq<OutstandingProbe>) -> LedgerView {
    Map::new(
        |nonce: ProbeNonce| has_nonce(entries, nonce),
        |nonce: ProbeNonce|
            OutstandingView {
                candidate: entries[position(entries, nonce)].candidate_id,
                expires: entries[position(entries, nonce)].expires_at_millis,
            },
    )
}

impl View for ProbeLedger {
    type V = LedgerView;

    closed spec fn view(&self) -> LedgerView {
        as_map(self.entries@)
    }
}

/// The probes that have not expired at a moment.
pub open spec fn live(ledger: LedgerView, now_millis: u64) -> LedgerView {
    ledger.restrict(
        Set::new(
            |nonce: ProbeNonce| ledger.contains_key(nonce) && ledger[nonce].expires > now_millis,
        ),
    )
}

/// Why a probe cannot be recorded, if so: its nonce is still outstanding, or the ledger is full.
pub open spec fn record_error(ledger: LedgerView, nonce: ProbeNonce, now_millis: u64) -> Option<
    TraversalError,
> {
    if live(ledger, now_millis).contains_key(nonce) {
        Some(TraversalError::DuplicateOutstandingNonce)
    } else if live(ledger, now_millis).dom().len() >= MAX_OUTSTANDING_PROBES_PER_PEER {
        Some(TraversalError::OutstandingProbeCapacity)
    } else {
        None
    }
}

/// The ledger after an attempt to record a probe.
pub open spec fn after_record(
    ledger: LedgerView,
    nonce: ProbeNonce,
    candidate: CandidateId,
    now_millis: u64,
) -> LedgerView {
    if record_error(ledger, nonce, now_millis) is Some {
        live(ledger, now_millis)
    } else {
        live(ledger, now_millis).insert(
            nonce,
            OutstandingView {
                candidate,
                expires: saturating_sum(now_millis, PROBE_NONCE_TTL_MILLIS),
            },
        )
    }
}

/// Whether an acknowledgement belongs to a live probe of the candidate.
pub open spec fn is_outstanding(
    ledger: LedgerView,
    nonce: ProbeNonce,
    candidate: CandidateId,
    now_millis: u64,
) -> bool {
    let alive = live(ledger, now_millis);
    alive.contains_key(nonce) && alive[nonce].candidate == candidate
}

/// The ledger after an acknowledgement arrived.
pub open spec fn after_ack(
    ledger: LedgerView,
    nonce: ProbeNonce,
    candidate: CandidateId,
    now_millis: u64,
) -> LedgerView {
    if is_outstanding(ledger, nonce, candidate, now_millis) {
        live(ledger, now_millis).remove(nonce)
    } else {
        live(ledger, now_millis)
    }
}

proof fn lemma_lookup(entries: Seq<OutstandingProbe>, i: int)
    requires
        distinct(entries),
        0 <= i < entries.len(),
    ensures
        has_nonce(entries, entries[i].nonce),
        position(entries, entries[i].nonce) == i,
        as_map(entries).contains_key(entries[i].nonce),
        as_map(entries)[entries[i].nonce] == (OutstandingView {
            candidate: entries[i].candidate_id,
            expires: entries[i].expires_at_millis,
        }),
{
    let at = position(entries, entries[i].nonce);
    assert(0 <= at < entries.len() && entries[at].nonce == entries[i].nonce);
}

proof fn lemma_size(entries: Seq<OutstandingProbe>)
    requires
        distinct(entries),
    ensures
        as_map(entries).dom().finite(),
        as_map(entries).dom().len() == entries.len(),
{
    let nonces = Seq::new(entries.len(), |i: int| entries[i].nonce);
    assert(nonces.no_duplicates()) by {
        assert forall|i: int, j: int|
            0 <= i < nonces.len() && 0 <= j < nonces.len() && i != j implies nonces[i]
            != nonces[j] by {
            assert(entries[i].nonce != entries[j].nonce);
        }
    }
    nonces.unique_seq_to_set();
    assert(nonces.to_set() =~= as_map(entries).dom()) by {
        assert forall|nonce: ProbeNonce| nonces.to_set().contains(nonce) <==> as_map(
            entries,
        ).dom().contains(nonce) by {
            if nonces.to_set().contains(nonce) {
                let i = choose|i: int| 0 <= i < nonces.len() && nonces[i] == nonce;
                assert(entries[i].nonce == nonce);
            }
            if has_nonce(entries, nonce) {
                let i = position(entries, nonce);
                assert(nonces[i] == nonce);
            }
        }
    }
}

/// The map of one more entry.
proof fn lemma_push(entries: Seq<OutstandingProbe>, entry: OutstandingProbe)
    requires
        distinct(entries),
        !has_nonce(entries, entry.nonce),
    ensures
        distinct(entries.push(entry)),
        as_map(entries.push(entry)) == as_map(entries).insert(
            entry.nonce,
            OutstandingView { candidate: entry.candidate_id, expires: entry.expires_at_millis },
        ),
{
    let more = entries.push(entry);
    assert forall|i: int, j: int|
        0 <= i < more.len() && 0 <= j < more.len() && i != j implies (#[trigger] more[i]).nonce != (
    #[trigger] more[j]).nonce by {
        if i < entries.len() && j < entries.len() {
            assert(entries[i].nonce != entries[j].nonce);
        } else if i < entries.len() {
            assert(entries[i].nonce == more[i].nonce);
        } else {
            assert(entries[j].nonce == more[j].nonce);
        }
    }
    let expected = as_map(entries).insert(
        entry.nonce,
        OutstandingView { candidate: entry.candidate_id, expires: entry.expires_at_millis },
    );
    assert forall|nonce: ProbeNonce| #[trigger] as_map(more).dom().contains(nonce)
        <==> expected.dom().contains(nonce) by {
        if has_nonce(more, nonce) {
            let i = position(more, nonce);
            if i < entries.len() {
                assert(entries[i].nonce == nonce);
            }
        }
        if has_nonce(entries, nonce) {
            assert(more[position(entries, nonce)].nonce == nonce);
        }
        if nonce == entry.nonce {
            assert(more[entries.len() as int].nonce == nonce);
        }
    }
    assert forall|nonce: ProbeNonce| #[trigger] as_map(more).dom().contains(nonce) implies as_map(
        more,
    )[nonce] == expected[nonce] by {
        let i = position(more, nonce);
        lemma_lookup(more, i);
        if i < entries.len() {
            lemma_lookup(entries, i);
        }
    }
    assert(as_map(more) =~= expected);
}

impl Clone for ProbeLedger {
    fn clone(&self) -> (copy: Self)
        ensures
            copy@ == self@,
            copy.wf() == self.wf(),
    {
        let mut entries: Vec<OutstandingProbe> = Vec::new();
        let mut i: usize = 0;
        while i < self.entries.len()
            invariant
                i <= self.entries.len(),
                entries@ == self.entries@.take(i as int),
            decreases self.entries.len() - i,
        {
            entries.push(self.entries[i]);
            i = i + 1;
            assert(entries@ =~= self.entries@.take(i as int));
        }
        assert(entries@ =~= self.entries@);
        ProbeLedger { entries }
    }
}

impl Default for ProbeLedger {
    fn default() -> (ledger: ProbeLedger)
        ensures
            ledger.wf(),
            ledger@ == LedgerView::empty(),
    {
        ProbeLedger::new()
    }
}

impl ProbeLedger {
    /// No nonce is outstanding twice, and there are never more than the bound.
    pub closed spec fn wf(&self) -> bool {
        distinct(self.entries@) && self.entries@.len() <= MAX_OUTSTANDING_PROBES_PER_PEER
    }

    pub fn new() -> (ledger: ProbeLedger)
        ensures
            ledger.wf(),
            ledger@ == LedgerView::empty(),
    {
        let ledger = ProbeLedger { entries: Vec::new() };
        assert(ledger@ =~= LedgerView::empty());
        ledger
    }

    /// Records one outbound probe, forgetting expired ones first.
    pub fn record(&mut self, nonce: ProbeNonce, candidate_id: CandidateId, now_millis: u64) -> (recorded:
        Result<(), TraversalError>)
        requires
            old(self).wf(),
        ensures
            final(self).wf(),
            final(self)@ == after_record(old(self)@, nonce, candidate_id, now_millis),
            match recorded {
                Ok(_) => record_error(old(self)@, nonce, now_millis) is None,
                Err(error) => record_error(old(self)@, nonce, now_millis) == Some(error),
            },
    {
        self.prune(now_millis);
        proof {
            lemma_size(self.entries@);
        }
        let mut i: usize = 0;
        while i < self.entries.len()
            invariant
                i <= self.entries.len(),
                self.wf(),
                self@ == live(old(self)@, now_millis),
                self@.dom().len() == self.entries@.len(),
                forall|j: int| 0 <= j < i ==> (#[trigger] self.entries@[j]).nonce != nonce,
            decreases self.entries.len() - i,
        {
            if self.entries[i].nonce == nonce {
                assert(has_nonce(self.entries@, nonce));
                return Err(TraversalError::DuplicateOutstandingNonce);
            }
            i = i + 1;
        }
        if self.entries.len() >= MAX_OUTSTANDING_PROBES_PER_PEER {
            return Err(TraversalError::OutstandingProbeCapacity);
        }
        let entry = OutstandingProbe {
            nonce,
            candidate_id,
            expires_at_millis: now_millis.saturating_add(PROBE_NONCE_TTL_MILLIS),
        };
        proof {
            lemma_push(self.entries@, entry);
        }
        self.entries.push(entry);
        Ok(())
    }

    /// Takes the probe that an acknowledgement belongs to, if one is live.
    pub fn consume_ack(&mut self, nonce: ProbeNonce, candidate_id: CandidateId, now_millis: u64) -> (consumed:
        bool)
        requires
            old(self).wf(),
        ensures
            final(self).wf(),
            consumed == is_outstanding(old(self)@, nonce, candidate_id, now_millis),
            final(self)@ == after_ack(old(self)@, nonce, candidate_id, now_millis),
    {
        self.prune(now_millis);
        let mut i: usize = 0;
        while i < self.entries.len()
            invariant
                i <= self.entries.len(),
                self.wf(),
                self@ == live(old(self)@, now_millis),
                forall|j: int|
                    0 <= j < i ==> (#[trigger] self.entries@[j]).nonce != nonce
                        || self.entries@[j].candidate_id != candidate_id,
            decreases self.entries.len() - i,
        {
            if self.entries[i].nonce == nonce && self.entries[i].candidate_id == candidate_id {
                proof {
                    lemma_lookup(self.entries@, i as int);
                    lemma_swap_remove(self.entries@, i as int);
                }
                let _ = self.entries.swap_remove(i);
                return true;
            }
            i = i + 1;
        }
        proof {
            if has_nonce(self.entries@, nonce) {
                lemma_lookup(self.entries@, position(self.entries@, nonce));
            }
        }
        false
    }

    /// Forgets every outstanding probe.
    pub fn clear(&mut self)
        ensures
            final(self).wf(),
            final(self)@ == LedgerView::empty(),
    {
        self.entries.clear();
        assert(self@ =~= LedgerView::empty());
    }

    /// How many probes are outstanding, expired ones counted until they are forgotten.
    pub fn len(&self) -> (len: usize)
        requires
            self.wf(),
        ensures
            len == self@.dom().len(),
            len <= MAX_OUTSTANDING_PROBES_PER_PEER,
    {
        proof {
            lemma_size(self.entries@);
        }
        self.entries.len()
    }

    fn prune(&mut self, now_millis: u64)
        requires
            old(self).wf(),
        ensures
            final(self).wf(),
            final(self)@ == live(old(self)@, now_millis),
    {
        let mut kept: Vec<OutstandingProbe> = Vec::new();
        let mut i: usize = 0;
        while i < self.entries.len()
            invariant
                i <= self.entries.len(),
                kept@.len() <= i,
                *self == *old(self),
                distinct(self.entries@),
                distinct(kept@),
                as_map(kept@) == live(as_map(self.entries@.take(i as int)), now_millis),
                forall|j: int| 0 <= j < kept@.len() ==> has_nonce(
                    self.entries@.take(i as int),
                    (#[trigger] kept@[j]).nonce,
                ),
            decreases self.entries.len() - i,
        {
            let entry = self.entries[i];
            proof {
                lemma_take(self.entries@, i as int);
                lemma_push(self.entries@.take(i as int), entry);
                assert(self.entries@.take(i + 1) =~= self.entries@.take(i as int).push(entry));
                if has_nonce(kept@, entry.nonce) {
                    let j = position(kept@, entry.nonce);
                    assert(has_nonce(self.entries@.take(i as int), kept@[j].nonce));
                }
                lemma_live_push(
                    as_map(self.entries@.take(i as int)),
                    entry.nonce,
                    OutstandingView {
                        candidate: entry.candidate_id,
                        expires: entry.expires_at_millis,
                    },
                    now_millis,
                );
            }
            let ghost before = kept@;
            if entry.expires_at_millis > now_millis {
                proof {
                    lemma_push(kept@, entry);
                }
                kept.push(entry);
            }
            proof {
                assert forall|j: int| 0 <= j < kept@.len() implies has_nonce(
                    self.entries@.take(i + 1),
                    (#[trigger] kept@[j]).nonce,
                ) by {
                    if j < before.len() {
                        assert(before[j] == kept@[j]);
                        let at = position(self.entries@.take(i as int), kept@[j].nonce);
                        assert(self.entries@.take(i + 1)[at] == self.entries@.take(i as int)[at]);
                    } else {
                        assert(self.entries@.take(i + 1)[i as int].nonce == kept@[j].nonce);
                    }
                }
            }
            i = i + 1;
        }
        assert(self.entries@.take(self.entries@.len() as int) =~= self.entries@);
        self.entries = kept;
    }
}

/// A new entry either joins the live ones or does not count.
proof fn lemma_live_push(
    ledger: LedgerView,
    nonce: ProbeNonce,
    view: OutstandingView,
    now_millis: u64,
)
    requires
        !ledger.contains_key(nonce),
    ensures
        live(ledger.insert(nonce, view), now_millis) == (if view.expires > now_millis {
            live(ledger, now_millis).insert(nonce, view)
        } else {
            live(ledger, now_millis)
        }),
{
    let expected = if view.expires > now_millis {
        live(ledger, now_millis).insert(nonce, view)
    } else {
        live(ledger, now_millis)
    };
    assert(live(ledger.insert(nonce, view), now_millis) =~= expected);
}

proof fn lemma_take(entries: Seq<OutstandingProbe>, i: int)
    requires
        distinct(entries),
        0 <= i < entries.len(),
    ensures
        distinct(entries.take(i)),
        !has_nonce(entries.take(i), entries[i].nonce),
{
    assert forall|a: int, b: int|
        0 <= a < i && 0 <= b < i && a != b implies (#[trigger] entries.take(i)[a]).nonce != (
    #[trigger] entries.take(i)[b]).nonce by {
        assert(entries[a].nonce != entries[b].nonce);
    }
    if has_nonce(entries.take(i), entries[i].nonce) {
        let at = position(entries.take(i), entries[i].nonce);
        assert(entries[at].nonce == entries[i].nonce);
    }
}

/// Taking one entry out removes its nonce and nothing else.
proof fn lemma_swap_remove(entries: Seq<OutstandingProbe>, i: int)
    requires
        distinct(entries),
        0 <= i < entries.len(),
    ensures
        distinct(entries.update(i, entries.last()).drop_last()),
        as_map(entries.update(i, entries.last()).drop_last()) == as_map(entries).remove(
            entries[i].nonce,
        ),
{
    let fewer = entries.update(i, entries.last()).drop_last();
    let source = |j: int|
        if j == i {
            entries.len() - 1
        } else {
            j
        };
    assert forall|j: int| 0 <= j < fewer.len() implies #[trigger] fewer[j] == entries[source(j)] by {}
    assert forall|a: int, b: int|
        0 <= a < fewer.len() && 0 <= b < fewer.len() && a != b implies (#[trigger] fewer[a]).nonce
        != (#[trigger] fewer[b]).nonce by {
        assert(entries[source(a)].nonce != entries[source(b)].nonce);
    }
    let expected = as_map(entries).remove(entries[i].nonce);
    assert forall|nonce: ProbeNonce| #[trigger] as_map(fewer).dom().contains(nonce)
        <==> expected.dom().contains(nonce) by {
        if has_nonce(fewer, nonce) {
            let j = position(fewer, nonce);
            assert(fewer[j] == entries[source(j)]);
            assert(entries[source(j)].nonce == nonce);
            assert(entries[source(j)].nonce != entries[i].nonce);
        }
        if has_nonce(entries, nonce) && nonce != entries[i].nonce {
            let k = position(entries, nonce);
            let j = if k == entries.len() - 1 {
                i
            } else {
                k
            };
            assert(fewer[j] == entries[k]);
        }
    }
    assert forall|nonce: ProbeNonce| #[trigger] as_map(fewer).dom().contains(nonce) implies as_map(
        fewer,
    )[nonce] == expected[nonce] by {
        let j = position(fewer, nonce);
        lemma_lookup(fewer, j);
        assert(fewer[j] == entries[source(j)]);
        lemma_lookup(entries, source(j));
    }
    assert(as_map(fewer) =~= expected);
}

/// A nonce that was acknowledged is no longer outstanding: a second acknowledgement of it is not
/// accepted, now or later.
pub proof fn replayed_ack_is_refused(
    ledger: LedgerView,
    nonce: ProbeNonce,
    candidate: CandidateId,
    now_millis: u64,
    later: u64,
)
    requires
        is_outstanding(ledger, nonce, candidate, now_millis),
    ensures
        !is_outstanding(
            after_ack(ledger, nonce, candidate, now_millis),
            nonce,
            candidate,
            later,
        ),
{
}

/// A recorded probe can be acknowledged for its candidate for one minute, and not after.
pub proof fn recorded_probe_lives_one_minute(
    ledger: LedgerView,
    nonce: ProbeNonce,
    candidate: CandidateId,
    now_millis: u64,
    later: u64,
)
    requires
        record_error(ledger, nonce, now_millis) is None,
    ensures
        is_outstanding(after_record(ledger, nonce, candidate, now_millis), nonce, candidate, later)
            <==> later < saturating_sum(now_millis, PROBE_NONCE_TTL_MILLIS),
{
}

} // verus!
