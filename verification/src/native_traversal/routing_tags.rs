//! The tags under which a peer's packets are accepted, and their rotation.
use vstd::prelude::*;

use crate::native_traversal::error::TraversalError;
use crate::native_traversal::probe::RoutingTag;

verus! {

/// Previous receive-side tag overlap after committed rotation.
pub const ROUTING_TAG_OVERLAP_MILLIS: u64 = 3_600_000;

#[derive(Clone, Copy, PartialEq, Eq, Debug)]
struct PreviousRoutingTag {
    tag: RoutingTag,
    valid_until_millis: u64,
}

/// Receive-side routing-tag state with transactional one-tag rotation.
#[derive(PartialEq, Eq, Debug)]
pub struct ReceiveRoutingTags {
    current: Option<RoutingTag>,
    previous: Option<PreviousRoutingTag>,
    pending: Option<RoutingTag>,
}

/// What a [`ReceiveRoutingTags`] holds: the committed tag, the one before it with the last moment
/// at which it still counts, and a replacement that is not committed yet.
pub struct TagsView {
    pub current: Option<RoutingTag>,
    pub previous: Option<(RoutingTag, u64)>,
    pub pending: Option<RoutingTag>,
}

impl View for ReceiveRoutingTags {
    type V = TagsView;

    closed spec fn view(&self) -> TagsView {
        TagsView {
            current: self.current,
            previous: match self.previous {
                Some(previous) => Some((previous.tag, previous.valid_until_millis)),
                None => None,
            },
            pending: self.pending,
        }
    }
}

/// The sum, or the greatest value when the sum does not fit.
pub open spec fn saturating_sum(left: u64, right: u64) -> u64 {
    if left + right > u64::MAX {
        u64::MAX
    } else {
        (left + right) as u64
    }
}

impl TagsView {
    /// The state once a previous tag whose time is over is forgotten.
    pub open spec fn at(self, now_millis: u64) -> TagsView {
        TagsView {
            previous: match self.previous {
                Some((tag, until)) => if now_millis > until {
                    None
                } else {
                    Some((tag, until))
                },
                None => None,
            },
            ..self
        }
    }

    /// The tags that count at a moment: the committed one, and the one before it while its time
    /// lasts.
    pub open spec fn accepts(self, tag: RoutingTag, now_millis: u64) -> bool {
        ||| self.current == Some(tag)
        ||| self.previous matches Some((previous, until)) && previous == tag && now_millis <= until
    }

    /// Why a rotation cannot begin, if so.
    pub open spec fn begin_error(self, replacement: RoutingTag) -> Option<TraversalError> {
        if self.current is None {
            Some(TraversalError::RoutingTagRevoked)
        } else if self.pending is Some {
            Some(TraversalError::RoutingTagRotationInProgress)
        } else if self.current == Some(replacement) || (self.previous matches Some((tag, _)) && tag
            == replacement) {
            Some(TraversalError::RoutingTagAlreadyKnown)
        } else {
            None
        }
    }

    /// Why a rotation cannot be committed, if so.
    pub open spec fn commit_error(self, replacement: RoutingTag) -> Option<TraversalError> {
        if self.current is None {
            Some(TraversalError::RoutingTagRevoked)
        } else {
            match self.pending {
                None => Some(TraversalError::RoutingTagRotationMissing),
                Some(pending) => if pending != replacement {
                    Some(TraversalError::RoutingTagRotationMismatch)
                } else {
                    None
                },
            }
        }
    }

    /// The state after a rotation was committed.
    pub open spec fn committed(self, replacement: RoutingTag, now_millis: u64) -> TagsView {
        TagsView {
            current: Some(replacement),
            previous: Some(
                (self.current->0, saturating_sum(now_millis, ROUTING_TAG_OVERLAP_MILLIS)),
            ),
            pending: None,
        }
    }
}

impl Clone for ReceiveRoutingTags {
    fn clone(&self) -> (copy: Self)
        ensures
            copy@ == self@,
    {
        ReceiveRoutingTags {
            current: self.current,
            previous: self.previous,
            pending: self.pending,
        }
    }
}

impl ReceiveRoutingTags {
    /// Creates active receive-side routing state.
    pub fn new(current: RoutingTag) -> (tags: ReceiveRoutingTags)
        ensures
            tags@ == (TagsView { current: Some(current), previous: None, pending: None }),
    {
        ReceiveRoutingTags { current: Some(current), previous: None, pending: None }
    }

    /// Returns the current committed tag, or None after revocation.
    pub fn current(&self) -> (tag: Option<RoutingTag>)
        ensures
            tag == self@.current,
    {
        self.current
    }

    /// Returns a not-yet-committed replacement tag.
    pub fn pending(&self) -> (tag: Option<RoutingTag>)
        ensures
            tag == self@.pending,
    {
        self.pending
    }

    /// Starts a transactional rotation. Refused after revocation, while another rotation is
    /// pending, and for a tag that is already known; nothing changes then.
    pub fn begin_rotation(&mut self, replacement: RoutingTag) -> (begun: Result<(), TraversalError>)
        ensures
            match begun {
                Ok(_) => old(self)@.begin_error(replacement) is None && final(self)@ == (TagsView {
                    pending: Some(replacement),
                    ..old(self)@
                }),
                Err(error) => old(self)@.begin_error(replacement) == Some(error) && final(self)@
                    == old(self)@,
            },
    {
        let current = match self.current {
            Some(current) => current,
            None => {
                return Err(TraversalError::RoutingTagRevoked);
            },
        };
        if self.pending.is_some() {
            return Err(TraversalError::RoutingTagRotationInProgress);
        }
        if replacement == current {
            return Err(TraversalError::RoutingTagAlreadyKnown);
        }
        if let Some(previous) = self.previous {
            if previous.tag == replacement {
                return Err(TraversalError::RoutingTagAlreadyKnown);
            }
        }
        self.pending = Some(replacement);
        Ok(())
    }

    /// Commits the exact pending replacement after the peer acknowledged durable storage.
    pub fn acknowledge_rotation(&mut self, replacement: RoutingTag, now_millis: u64) -> (committed: Result<
        (),
        TraversalError,
    >)
        ensures
            match committed {
                Ok(_) => old(self)@.commit_error(replacement) is None && final(self)@ == old(
                    self,
                )@.committed(replacement, now_millis),
                Err(error) => old(self)@.commit_error(replacement) == Some(error) && final(self)@
                    == old(self)@,
            },
    {
        let current = match self.current {
            Some(current) => current,
            None => {
                return Err(TraversalError::RoutingTagRevoked);
            },
        };
        match self.pending {
            None => {
                return Err(TraversalError::RoutingTagRotationMissing);
            },
            Some(pending) => {
                if pending != replacement {
                    return Err(TraversalError::RoutingTagRotationMismatch);
                }
            },
        }
        self.previous = Some(
            PreviousRoutingTag {
                tag: current,
                valid_until_millis: now_millis.saturating_add(ROUTING_TAG_OVERLAP_MILLIS),
            },
        );
        self.current = Some(replacement);
        self.pending = None;
        Ok(())
    }

    /// Cancels an incomplete replacement while keeping the last committed tag.
    pub fn cancel_rotation(&mut self)
        ensures
            final(self)@ == (TagsView { pending: None, ..old(self)@ }),
    {
        self.pending = None;
    }

    /// Returns whether a tag is currently accepted, retiring an expired previous tag first.
    pub fn accepts(&mut self, tag: RoutingTag, now_millis: u64) -> (accepted: bool)
        ensures
            accepted == old(self)@.accepts(tag, now_millis),
            final(self)@ == old(self)@.at(now_millis),
    {
        self.retire_expired_previous(now_millis);
        if self.current == Some(tag) {
            return true;
        }
        match self.previous {
            Some(previous) => previous.tag == tag,
            None => false,
        }
    }

    /// Revokes all current, previous and pending receive-side tags.
    pub fn revoke(&mut self)
        ensures
            final(self)@ == (TagsView { current: None, previous: None, pending: None }),
    {
        self.current = None;
        self.previous = None;
        self.pending = None;
    }

    fn retire_expired_previous(&mut self, now_millis: u64)
        ensures
            final(self)@ == old(self)@.at(now_millis),
    {
        if let Some(previous) = self.previous {
            if now_millis > previous.valid_until_millis {
                self.previous = None;
            }
        }
    }
}

/// Until it is committed, a rotation changes nothing about which tags are accepted, and cancelling
/// it leaves the state from before it began.
pub proof fn rotation_is_transactional(
    tags: TagsView,
    replacement: RoutingTag,
    tag: RoutingTag,
    now_millis: u64,
)
    requires
        tags.begin_error(replacement) is None,
    ensures
        ({
            let begun = TagsView { pending: Some(replacement), ..tags };
            &&& begun.accepts(tag, now_millis) == tags.accepts(tag, now_millis)
            &&& TagsView { pending: None, ..begun } == tags
        }),
{
}

/// After a committed rotation the replacement is accepted at any time, the tag before it for
/// exactly one more hour, and no other tag.
pub proof fn overlap_is_bounded(
    tags: TagsView,
    replacement: RoutingTag,
    committed_at: u64,
    tag: RoutingTag,
    now_millis: u64,
)
    requires
        tags.commit_error(replacement) is None,
    ensures
        tags.committed(replacement, committed_at).accepts(tag, now_millis) <==> tag == replacement
            || (tags.current == Some(tag) && now_millis <= saturating_sum(
            committed_at,
            ROUTING_TAG_OVERLAP_MILLIS,
        )),
{
}

/// Once revoked, no tag is accepted at any time and no rotation can begin or be committed.
pub proof fn revoked_tags_accept_nothing(tag: RoutingTag, now_millis: u64)
    ensures
        ({
            let revoked = TagsView { current: None, previous: None, pending: None };
            &&& !revoked.accepts(tag, now_millis)
            &&& revoked.begin_error(tag) == Some(TraversalError::RoutingTagRevoked)
            &&& revoked.commit_error(tag) == Some(TraversalError::RoutingTagRevoked)
        }),
{
}

/// Retiring an expired tag changes nothing about which tags are accepted from then on.
pub proof fn retirement_is_unobservable(tags: TagsView, at: u64, tag: RoutingTag, later: u64)
    requires
        at <= later,
    ensures
        tags.at(at).accepts(tag, later) == tags.accepts(tag, later),
{
}

/// One call of a method that can change the tags.
pub enum TagEvent {
    Begin(RoutingTag),
    Acknowledge(RoutingTag, u64),
    Cancel,
    Accepts(RoutingTag, u64),
    Revoke,
}

/// The state after a call, as the methods above define it.
pub open spec fn after_tag_event(tags: TagsView, event: TagEvent) -> TagsView {
    match event {
        TagEvent::Begin(replacement) => if tags.begin_error(replacement) is None {
            TagsView { pending: Some(replacement), ..tags }
        } else {
            tags
        },
        TagEvent::Acknowledge(replacement, now_millis) => if tags.commit_error(replacement) is None {
            tags.committed(replacement, now_millis)
        } else {
            tags
        },
        TagEvent::Cancel => TagsView { pending: None, ..tags },
        TagEvent::Accepts(_, now_millis) => tags.at(now_millis),
        TagEvent::Revoke => TagsView { current: None, previous: None, pending: None },
    }
}

/// The state after a series of calls.
pub open spec fn after_tag_events(tags: TagsView, events: Seq<TagEvent>) -> TagsView
    decreases events.len(),
{
    if events.len() == 0 {
        tags
    } else {
        after_tag_event(after_tag_events(tags, events.drop_last()), events.last())
    }
}

/// Whatever was called since the tags were made, a pending replacement differs from the committed
/// tag and is accepted at no time.
pub proof fn pending_tag_is_not_accepted(first: RoutingTag, events: Seq<TagEvent>, now_millis: u64)
    ensures
        ({
            let tags = after_tag_events(
                TagsView { current: Some(first), previous: None, pending: None },
                events,
            );
            tags.pending matches Some(pending) ==> tags.current != Some(pending) && !tags.accepts(
                pending,
                now_millis,
            )
        }),
{
    lemma_pending_is_fresh(first, events);
}

proof fn lemma_pending_is_fresh(first: RoutingTag, events: Seq<TagEvent>)
    ensures
        ({
            let tags = after_tag_events(
                TagsView { current: Some(first), previous: None, pending: None },
                events,
            );
            tags.pending matches Some(pending) ==> tags.current != Some(pending) && (
            tags.previous matches Some((previous, _)) ==> previous != pending)
        }),
    decreases events.len(),
{
    if events.len() > 0 {
        lemma_pending_is_fresh(first, events.drop_last());
    }
}

/// A revocation is final: whatever is called afterwards, no tag is committed or pending, none is
/// accepted at any time, and no rotation can begin or be committed.
pub proof fn revocation_is_final(
    tags: TagsView,
    events: Seq<TagEvent>,
    tag: RoutingTag,
    now_millis: u64,
)
    ensures
        ({
            let revoked = after_tag_event(tags, TagEvent::Revoke);
            let later = after_tag_events(revoked, events);
            &&& later == revoked
            &&& later.current is None
            &&& later.pending is None
            &&& !later.accepts(tag, now_millis)
            &&& later.begin_error(tag) == Some(TraversalError::RoutingTagRevoked)
            &&& later.commit_error(tag) == Some(TraversalError::RoutingTagRevoked)
        }),
    decreases events.len(),
{
    if events.len() > 0 {
        revocation_is_final(tags, events.drop_last(), tag, now_millis);
    }
}

} // verus!
