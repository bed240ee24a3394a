//! The setup intent: which transport custody the owner chose, before anything is provisioned.
//!
//! The choice is kept as one of two exact tokens in a private record. Writing it happens once and
//! never replaces anything; reading it accepts nothing but the two tokens in a trusted file; and
//! it is taken away again only after the setup it was made for succeeded.
use vstd::prelude::*;
use vstd::string::*;
use vstd::utf8::*;

use crate::bytes::same_bytes;
use crate::custody::{
    ensure_private_directory, ensure_private_directory_plan, is_same_object, publish, publish_plan,
    read_record, read_record_plan, require_private_directory, require_private_directory_plan,
    same_object, state_root_plan, validate_state_root, RecordKind,
};
use crate::durable_registry_sqlite_store::OwnerPcLocalAuthorityBootstrapOutcome;
use crate::environment::HostEnvironment;
use crate::outside::{
    look_up, perform, reply_views, seen, went_along, FileMetadata, HostPlan, Lookup, OutsideReply,
    OutsideRequest, Place, Replies,
};
use crate::owner_first_setup_custody_policy_orchestration::OwnerFirstSetupTransportCustodySelection;
use crate::paths::{is_absolute_path, path_is_absolute};
use crate::plan::{and_then, bind, follow, lemma_follow_bind, Plan, Progress};

verus! {

/// Non-secret first-run transport-custody intent record location.
pub const OWNER_FIRST_RUN_TRANSPORT_CUSTODY_INTENT_RELATIVE_PATH: &'static str =
    "private-remote-workspace/setup/owner-first-run-transport-custody-intent-v1";

pub const PREFERRED_DEFAULT_INTENT: &'static str = "preferred-default-v1\n";

pub const EXPLICIT_HOST_KEY_ONLY_FALLBACK_INTENT: &'static str =
    "explicit-host-key-only-fallback-v1\n";

/// Result of ensuring the first-run setup-intent record exists once.
#[derive(Clone, Copy, PartialEq, Eq, Structural, Debug)]
pub enum OwnerFirstRunSetupIntentWriteOutcome {
    /// This call atomically created the canonical record.
    Created(OwnerFirstSetupTransportCustodySelection),
    /// The exact requested canonical selection already existed and was reused.
    Existing(OwnerFirstSetupTransportCustodySelection),
}

impl OwnerFirstRunSetupIntentWriteOutcome {
    /// Returns the exact authoritative typed selection represented by the record.
    pub fn selection(self) -> (selection: OwnerFirstSetupTransportCustodySelection)
        ensures
            self == OwnerFirstRunSetupIntentWriteOutcome::Created(selection) || self
                == OwnerFirstRunSetupIntentWriteOutcome::Existing(selection),
    {
        match self {
            OwnerFirstRunSetupIntentWriteOutcome::Created(selection) => selection,
            OwnerFirstRunSetupIntentWriteOutcome::Existing(selection) => selection,
        }
    }

    /// Reports whether this call created persistent setup-intent state.
    pub fn was_created(self) -> (created: bool)
        ensures
            created == (self is Created),
    {
        match self {
            OwnerFirstRunSetupIntentWriteOutcome::Created(_) => true,
            OwnerFirstRunSetupIntentWriteOutcome::Existing(_) => false,
        }
    }
}

/// Result of one post-success setup-intent retirement attempt.
#[derive(Clone, Copy, PartialEq, Eq, Structural, Debug)]
pub enum OwnerFirstRunSetupIntentRetirementOutcome {
    /// The exact validated matching setup-intent record was removed.
    Retired(OwnerFirstSetupTransportCustodySelection),
    /// The fixed record was already absent in the caller's post-success context.
    AlreadyRetired,
}

/// Validated startup-dispatch presence of the fixed first-run setup-intent record.
#[derive(Clone, Copy, PartialEq, Eq, Structural, Debug)]
pub enum OwnerFirstRunSetupIntentPresence {
    /// A present record passed the exact custody and canonical-token validation.
    Present,
    /// The fixed record is absent beneath an otherwise valid established setup custody path.
    Absent,
}

/// Fail-closed error for the first-run setup-intent record.
#[derive(Clone, Copy, PartialEq, Eq, Structural, Debug)]
pub enum OwnerFirstRunSetupIntentError {
    /// XDG or HOME could not resolve to an absolute state root.
    InvalidStateRoot,
    /// State root was missing, symlinked, foreign-owned, or group/world writable.
    InsecureStateRoot,
    /// The application directory was absent or insecure.
    InsecureApplicationDirectory,
    /// The setup directory was absent or insecure.
    InsecureSetupDirectory,
    /// The exact setup-intent record was absent or could not be opened safely.
    IntentRecordUnavailable,
    /// The record was symlinked, non-regular, foreign-owned, wrong-mode, or wrong-size.
    IntentRecordInsecure,
    /// The bounded record read failed.
    IntentRecordReadFailed,
    /// Record bytes were not one exact canonical token.
    MalformedIntentRecord,
    /// A required private setup directory could not be created safely.
    DirectoryCreationFailed,
    /// Temporary canonical record creation, write, validation, or durability failed.
    IntentRecordWriteFailed,
    /// A valid existing record carries the other selection.
    ConflictingIntentRecord,
    /// Atomic no-replace publication or final record verification failed.
    IntentRecordCommitFailed,
    /// Exact matching record removal or post-remove verification failed.
    IntentRecordRetirementFailed,
    /// Final setup-directory durability synchronization failed.
    DirectorySyncFailed,
}

impl OwnerFirstRunSetupIntentError {
    /// The text shown to people for this error.
    pub open spec fn text(self) -> Seq<char> {
        match self {
            OwnerFirstRunSetupIntentError::InvalidStateRoot => "owner first-run setup-intent state root invalid"@,
            OwnerFirstRunSetupIntentError::InsecureStateRoot => "owner first-run setup-intent state root insecure"@,
            OwnerFirstRunSetupIntentError::InsecureApplicationDirectory => "owner first-run setup-intent application directory insecure"@,
            OwnerFirstRunSetupIntentError::InsecureSetupDirectory => "owner first-run setup-intent directory insecure"@,
            OwnerFirstRunSetupIntentError::IntentRecordUnavailable => "owner first-run setup-intent record unavailable"@,
            OwnerFirstRunSetupIntentError::IntentRecordInsecure => "owner first-run setup-intent record insecure"@,
            OwnerFirstRunSetupIntentError::IntentRecordReadFailed => "owner first-run setup-intent record read failed"@,
            OwnerFirstRunSetupIntentError::MalformedIntentRecord => "owner first-run setup-intent record malformed"@,
            OwnerFirstRunSetupIntentError::DirectoryCreationFailed => "owner first-run setup-intent directory creation failed"@,
            OwnerFirstRunSetupIntentError::IntentRecordWriteFailed => "owner first-run setup-intent record write failed"@,
            OwnerFirstRunSetupIntentError::ConflictingIntentRecord => "owner first-run setup-intent record conflicts with requested selection"@,
            OwnerFirstRunSetupIntentError::IntentRecordCommitFailed => "owner first-run setup-intent record commit failed"@,
            OwnerFirstRunSetupIntentError::IntentRecordRetirementFailed => "owner first-run setup-intent record retirement failed"@,
            OwnerFirstRunSetupIntentError::DirectorySyncFailed => "owner first-run setup-intent directory sync failed"@,
        }
    }

    pub fn message(&self) -> (text: &'static str)
        ensures
            text@ == self.text(),
    {
        match self {
            OwnerFirstRunSetupIntentError::InvalidStateRoot => "owner first-run setup-intent state root invalid",
            OwnerFirstRunSetupIntentError::InsecureStateRoot => "owner first-run setup-intent state root insecure",
            OwnerFirstRunSetupIntentError::InsecureApplicationDirectory => "owner first-run setup-intent application directory insecure",
            OwnerFirstRunSetupIntentError::InsecureSetupDirectory => "owner first-run setup-intent directory insecure",
            OwnerFirstRunSetupIntentError::IntentRecordUnavailable => "owner first-run setup-intent record unavailable",
            OwnerFirstRunSetupIntentError::IntentRecordInsecure => "owner first-run setup-intent record insecure",
            OwnerFirstRunSetupIntentError::IntentRecordReadFailed => "owner first-run setup-intent record read failed",
            OwnerFirstRunSetupIntentError::MalformedIntentRecord => "owner first-run setup-intent record malformed",
            OwnerFirstRunSetupIntentError::DirectoryCreationFailed => "owner first-run setup-intent directory creation failed",
            OwnerFirstRunSetupIntentError::IntentRecordWriteFailed => "owner first-run setup-intent record write failed",
            OwnerFirstRunSetupIntentError::ConflictingIntentRecord => "owner first-run setup-intent record conflicts with requested selection",
            OwnerFirstRunSetupIntentError::IntentRecordCommitFailed => "owner first-run setup-intent record commit failed",
            OwnerFirstRunSetupIntentError::IntentRecordRetirementFailed => "owner first-run setup-intent record retirement failed",
            OwnerFirstRunSetupIntentError::DirectorySyncFailed => "owner first-run setup-intent directory sync failed",
        }
    }
}

/// The one token of a selection.
pub open spec fn intent_token(selection: OwnerFirstSetupTransportCustodySelection) -> Seq<u8> {
    match selection {
        OwnerFirstSetupTransportCustodySelection::PreferredDefault => encode_utf8(
            PREFERRED_DEFAULT_INTENT@,
        ),
        OwnerFirstSetupTransportCustodySelection::ExplicitHostKeyOnlyFallback => encode_utf8(
            EXPLICIT_HOST_KEY_ONLY_FALLBACK_INTENT@,
        ),
    }
}

/// The selection whose token the bytes are.
pub open spec fn decoded_intent(bytes: Seq<u8>) -> Result<
    OwnerFirstSetupTransportCustodySelection,
    OwnerFirstRunSetupIntentError,
> {
    if bytes == intent_token(OwnerFirstSetupTransportCustodySelection::PreferredDefault) {
        Ok(OwnerFirstSetupTransportCustodySelection::PreferredDefault)
    } else if bytes == intent_token(
        OwnerFirstSetupTransportCustodySelection::ExplicitHostKeyOnlyFallback,
    ) {
        Ok(OwnerFirstSetupTransportCustodySelection::ExplicitHostKeyOnlyFallback)
    } else {
        Err(OwnerFirstRunSetupIntentError::MalformedIntentRecord)
    }
}

/// Each selection's token has the size that the record rule expects, and decodes to that
/// selection alone.
pub proof fn lemma_intent_token_round_trip(selection: OwnerFirstSetupTransportCustodySelection)
    ensures
        decoded_intent(intent_token(selection)) == Ok::<
            OwnerFirstSetupTransportCustodySelection,
            OwnerFirstRunSetupIntentError,
        >(selection),
        RecordKind::Intent.allows_size(intent_token(selection).len() as int),
{
    reveal_strlit("preferred-default-v1\n");
    reveal_strlit("explicit-host-key-only-fallback-v1\n");
    assert(PREFERRED_DEFAULT_INTENT@.len() == 21);
    assert(EXPLICIT_HOST_KEY_ONLY_FALLBACK_INTENT@.len() == 35);
    is_ascii_chars_encode_utf8(PREFERRED_DEFAULT_INTENT@);
    is_ascii_chars_encode_utf8(EXPLICIT_HOST_KEY_ONLY_FALLBACK_INTENT@);
}

/// Accepts one of the two exact tokens and nothing else.
pub fn decode_owner_first_run_transport_custody_intent(input: &[u8]) -> (decoded: Result<
    OwnerFirstSetupTransportCustodySelection,
    OwnerFirstRunSetupIntentError,
>)
    ensures
        decoded == decoded_intent(input@),
{
    if same_bytes(input, PREFERRED_DEFAULT_INTENT.as_bytes()) {
        Ok(OwnerFirstSetupTransportCustodySelection::PreferredDefault)
    } else if same_bytes(input, EXPLICIT_HOST_KEY_ONLY_FALLBACK_INTENT.as_bytes()) {
        Ok(OwnerFirstSetupTransportCustodySelection::ExplicitHostKeyOnlyFallback)
    } else {
        Err(OwnerFirstRunSetupIntentError::MalformedIntentRecord)
    }
}

/// The token to write for a selection.
pub fn canonical_owner_first_run_transport_custody_intent(
    selection: OwnerFirstSetupTransportCustodySelection,
) -> (token: &'static [u8])
    ensures
        token@ == intent_token(selection),
{
    match selection {
        OwnerFirstSetupTransportCustodySelection::PreferredDefault =>
            PREFERRED_DEFAULT_INTENT.as_bytes(),
        OwnerFirstSetupTransportCustodySelection::ExplicitHostKeyOnlyFallback =>
            EXPLICIT_HOST_KEY_ONLY_FALLBACK_INTENT.as_bytes(),
    }
}

pub const INTENT_READ_LIMIT: u64 = 36;

/// The root and the two directories above the record are trusted.
pub open spec fn intent_directories_plan(absolute: bool, uid: u32) -> HostPlan<
    Result<(), OwnerFirstRunSetupIntentError>,
> {
    and_then(
        state_root_plan(
            absolute,
            uid,
            OwnerFirstRunSetupIntentError::InvalidStateRoot,
            OwnerFirstRunSetupIntentError::InsecureStateRoot,
        ),
        |_root: ()|
            and_then(
                require_private_directory_plan(
                    Place::ApplicationDirectory,
                    uid,
                    OwnerFirstRunSetupIntentError::InsecureApplicationDirectory,
                ),
                |_application: ()|
                    require_private_directory_plan(
                        Place::SetupDirectory,
                        uid,
                        OwnerFirstRunSetupIntentError::InsecureSetupDirectory,
                    ),
            ),
    )
}

fn validate_intent_directories(replies: &mut Replies<'_>, absolute: bool, uid: u32) -> (checked: Result<
    Result<(), OwnerFirstRunSetupIntentError>,
    OutsideRequest<Vec<u8>>,
>)
    requires
        old(replies).wf(),
    ensures
        went_along(
            intent_directories_plan(absolute, uid),
            *old(replies),
            seen(checked),
            *final(replies),
        ),
{
    broadcast use lemma_follow_bind;

    if let Err(error) = validate_state_root(
        replies,
        absolute,
        uid,
        OwnerFirstRunSetupIntentError::InvalidStateRoot,
        OwnerFirstRunSetupIntentError::InsecureStateRoot,
    )? {
        return Ok(Err(error));
    }
    if let Err(error) = require_private_directory(
        replies,
        Place::ApplicationDirectory,
        uid,
        OwnerFirstRunSetupIntentError::InsecureApplicationDirectory,
    )? {
        return Ok(Err(error));
    }
    require_private_directory(
        replies,
        Place::SetupDirectory,
        uid,
        OwnerFirstRunSetupIntentError::InsecureSetupDirectory,
    )
}

/// Load the selection below a state root.
pub open spec fn load_intent_plan(absolute: bool, uid: u32) -> HostPlan<
    Result<OwnerFirstSetupTransportCustodySelection, OwnerFirstRunSetupIntentError>,
> {
    and_then(
        intent_directories_plan(absolute, uid),
        |_directories: ()|
            and_then(
                read_record_plan(
                    Place::IntentRecord,
                    RecordKind::Intent,
                    uid,
                    INTENT_READ_LIMIT,
                    OwnerFirstRunSetupIntentError::IntentRecordUnavailable,
                    OwnerFirstRunSetupIntentError::IntentRecordInsecure,
                    OwnerFirstRunSetupIntentError::IntentRecordReadFailed,
                ),
                |bytes: Seq<u8>| Plan::Finish(decoded_intent(bytes)),
            ),
    )
}

fn load_intent(replies: &mut Replies<'_>, absolute: bool, uid: u32) -> (loaded: Result<
    Result<OwnerFirstSetupTransportCustodySelection, OwnerFirstRunSetupIntentError>,
    OutsideRequest<Vec<u8>>,
>)
    requires
        old(replies).wf(),
    ensures
        went_along(load_intent_plan(absolute, uid), *old(replies), seen(loaded), *final(replies)),
{
    broadcast use lemma_follow_bind;

    if let Err(error) = validate_intent_directories(replies, absolute, uid)? {
        return Ok(Err(error));
    }
    match read_record(
        replies,
        Place::IntentRecord,
        RecordKind::Intent,
        uid,
        INTENT_READ_LIMIT,
        OwnerFirstRunSetupIntentError::IntentRecordUnavailable,
        OwnerFirstRunSetupIntentError::IntentRecordInsecure,
        OwnerFirstRunSetupIntentError::IntentRecordReadFailed,
    )? {
        Err(error) => Ok(Err(error)),
        Ok(bytes) => Ok(decode_owner_first_run_transport_custody_intent(bytes.as_slice())),
    }
}

/// Tell a valid pending intent from the exact absence of one.
pub open spec fn inspect_intent_plan(absolute: bool, uid: u32) -> HostPlan<
    Result<OwnerFirstRunSetupIntentPresence, OwnerFirstRunSetupIntentError>,
> {
    and_then(
        intent_directories_plan(absolute, uid),
        |_directories: ()|
            bind(
                look_up(Place::IntentRecord),
                |found: Lookup|
                    match found {
                        Lookup::Missing => Plan::Finish(
                            Ok(OwnerFirstRunSetupIntentPresence::Absent),
                        ),
                        Lookup::Unreadable => Plan::Finish(
                            Err(OwnerFirstRunSetupIntentError::IntentRecordUnavailable),
                        ),
                        Lookup::Found(_) => and_then(
                            load_intent_plan(absolute, uid),
                            |_selection: OwnerFirstSetupTransportCustodySelection|
                                Plan::Finish(Ok(OwnerFirstRunSetupIntentPresence::Present)),
                        ),
                    },
            ),
    )
}

fn inspect_intent(replies: &mut Replies<'_>, absolute: bool, uid: u32) -> (presence: Result<
    Result<OwnerFirstRunSetupIntentPresence, OwnerFirstRunSetupIntentError>,
    OutsideRequest<Vec<u8>>,
>)
    requires
        old(replies).wf(),
    ensures
        went_along(
            inspect_intent_plan(absolute, uid),
            *old(replies),
            seen(presence),
            *final(replies),
        ),
{
    broadcast use lemma_follow_bind;

    if let Err(error) = validate_intent_directories(replies, absolute, uid)? {
        return Ok(Err(error));
    }
    match replies.look_up(Place::IntentRecord)? {
        Lookup::Missing => Ok(Ok(OwnerFirstRunSetupIntentPresence::Absent)),
        Lookup::Unreadable => Ok(Err(OwnerFirstRunSetupIntentError::IntentRecordUnavailable)),
        Lookup::Found(_) => match load_intent(replies, absolute, uid)? {
            Err(error) => Ok(Err(error)),
            Ok(_) => Ok(Ok(OwnerFirstRunSetupIntentPresence::Present)),
        },
    }
}

/// Make the two directories above the record where they are missing.
pub open spec fn ensure_intent_directories_plan(absolute: bool, uid: u32) -> HostPlan<
    Result<(), OwnerFirstRunSetupIntentError>,
> {
    and_then(
        state_root_plan(
            absolute,
            uid,
            OwnerFirstRunSetupIntentError::InvalidStateRoot,
            OwnerFirstRunSetupIntentError::InsecureStateRoot,
        ),
        |_root: ()|
            and_then(
                ensure_private_directory_plan(
                    Place::ApplicationDirectory,
                    uid,
                    OwnerFirstRunSetupIntentError::DirectoryCreationFailed,
                    OwnerFirstRunSetupIntentError::InsecureApplicationDirectory,
                ),
                |_application: ()|
                    ensure_private_directory_plan(
                        Place::SetupDirectory,
                        uid,
                        OwnerFirstRunSetupIntentError::DirectoryCreationFailed,
                        OwnerFirstRunSetupIntentError::InsecureSetupDirectory,
                    ),
            ),
    )
}

fn ensure_intent_directories(replies: &mut Replies<'_>, absolute: bool, uid: u32) -> (ensured: Result<
    Result<(), OwnerFirstRunSetupIntentError>,
    OutsideRequest<Vec<u8>>,
>)
    requires
        old(replies).wf(),
    ensures
        went_along(
            ensure_intent_directories_plan(absolute, uid),
            *old(replies),
            seen(ensured),
            *final(replies),
        ),
{
    broadcast use lemma_follow_bind;

    if let Err(error) = validate_state_root(
        replies,
        absolute,
        uid,
        OwnerFirstRunSetupIntentError::InvalidStateRoot,
        OwnerFirstRunSetupIntentError::InsecureStateRoot,
    )? {
        return Ok(Err(error));
    }
    if let Err(error) = ensure_private_directory(
        replies,
        Place::ApplicationDirectory,
        uid,
        OwnerFirstRunSetupIntentError::DirectoryCreationFailed,
        OwnerFirstRunSetupIntentError::InsecureApplicationDirectory,
    )? {
        return Ok(Err(error));
    }
    ensure_private_directory(
        replies,
        Place::SetupDirectory,
        uid,
        OwnerFirstRunSetupIntentError::DirectoryCreationFailed,
        OwnerFirstRunSetupIntentError::InsecureSetupDirectory,
    )
}

/// The intent exists below a state root: the same selection already there, or published now. A
/// different selection that is already there is a conflict.
pub open spec fn ensure_intent_plan(
    absolute: bool,
    uid: u32,
    selection: OwnerFirstSetupTransportCustodySelection,
) -> HostPlan<Result<OwnerFirstRunSetupIntentWriteOutcome, OwnerFirstRunSetupIntentError>> {
    and_then(
        ensure_intent_directories_plan(absolute, uid),
        |_directories: ()| ensure_intent_record_plan(absolute, uid, selection),
    )
}

/// The same, once the directories are there.
pub open spec fn ensure_intent_record_plan(
    absolute: bool,
    uid: u32,
    selection: OwnerFirstSetupTransportCustodySelection,
) -> HostPlan<Result<OwnerFirstRunSetupIntentWriteOutcome, OwnerFirstRunSetupIntentError>> {
    bind(
        look_up(Place::IntentRecord),
        |found: Lookup|
            match found {
                Lookup::Found(_) => replay_intent_plan(absolute, uid, selection),
                Lookup::Missing => publish_intent_plan(uid, selection),
                Lookup::Unreadable => Plan::Finish(
                    Err(OwnerFirstRunSetupIntentError::IntentRecordInsecure),
                ),
            },
    )
}

/// Accept an existing intent if it is the same selection.
pub open spec fn replay_intent_plan(
    absolute: bool,
    uid: u32,
    selection: OwnerFirstSetupTransportCustodySelection,
) -> HostPlan<Result<OwnerFirstRunSetupIntentWriteOutcome, OwnerFirstRunSetupIntentError>> {
    and_then(
        load_intent_plan(absolute, uid),
        |existing: OwnerFirstSetupTransportCustodySelection|
            Plan::Finish(
                if existing == selection {
                    Ok(OwnerFirstRunSetupIntentWriteOutcome::Existing(existing))
                } else {
                    Err(OwnerFirstRunSetupIntentError::ConflictingIntentRecord)
                },
            ),
    )
}

pub open spec fn publish_intent_plan(
    uid: u32,
    selection: OwnerFirstSetupTransportCustodySelection,
) -> HostPlan<Result<OwnerFirstRunSetupIntentWriteOutcome, OwnerFirstRunSetupIntentError>> {
    and_then(
        publish_plan(
            Place::IntentTemporary,
            Place::IntentRecord,
            Place::SetupDirectory,
            intent_token(selection),
            RecordKind::Intent,
            uid,
            OwnerFirstRunSetupIntentError::IntentRecordWriteFailed,
            OwnerFirstRunSetupIntentError::IntentRecordCommitFailed,
            OwnerFirstRunSetupIntentError::DirectorySyncFailed,
        ),
        |_published: ()|
            Plan::Finish(Ok(OwnerFirstRunSetupIntentWriteOutcome::Created(selection))),
    )
}

fn ensure_intent(
    replies: &mut Replies<'_>,
    absolute: bool,
    uid: u32,
    selection: OwnerFirstSetupTransportCustodySelection,
) -> (ensured: Result<
    Result<OwnerFirstRunSetupIntentWriteOutcome, OwnerFirstRunSetupIntentError>,
    OutsideRequest<Vec<u8>>,
>)
    requires
        old(replies).wf(),
    ensures
        went_along(
            ensure_intent_plan(absolute, uid, selection),
            *old(replies),
            seen(ensured),
            *final(replies),
        ),
{
    broadcast use lemma_follow_bind;

    if let Err(error) = ensure_intent_directories(replies, absolute, uid)? {
        return Ok(Err(error));
    }
    match replies.look_up(Place::IntentRecord)? {
        Lookup::Found(_) => match load_intent(replies, absolute, uid)? {
            Err(error) => Ok(Err(error)),
            Ok(existing) => if existing == selection {
                Ok(Ok(OwnerFirstRunSetupIntentWriteOutcome::Existing(existing)))
            } else {
                Ok(Err(OwnerFirstRunSetupIntentError::ConflictingIntentRecord))
            },
        },
        Lookup::Missing => match publish(
            replies,
            Place::IntentTemporary,
            Place::IntentRecord,
            Place::SetupDirectory,
            canonical_owner_first_run_transport_custody_intent(selection),
            RecordKind::Intent,
            uid,
            OwnerFirstRunSetupIntentError::IntentRecordWriteFailed,
            OwnerFirstRunSetupIntentError::IntentRecordCommitFailed,
            OwnerFirstRunSetupIntentError::DirectorySyncFailed,
        )? {
            Err(error) => Ok(Err(error)),
            Ok(_) => Ok(Ok(OwnerFirstRunSetupIntentWriteOutcome::Created(selection))),
        },
        Lookup::Unreadable => Ok(Err(OwnerFirstRunSetupIntentError::IntentRecordInsecure)),
    }
}

/// Take the intent away if it is exactly the expected one.
pub open spec fn retire_intent_plan(
    absolute: bool,
    uid: u32,
    expected: OwnerFirstSetupTransportCustodySelection,
) -> HostPlan<Result<OwnerFirstRunSetupIntentRetirementOutcome, OwnerFirstRunSetupIntentError>> {
    and_then(
        intent_directories_plan(absolute, uid),
        |_directories: ()|
            bind(
                look_up(Place::IntentRecord),
                |found: Lookup|
                    match found {
                        Lookup::Missing => Plan::Finish(
                            Ok(OwnerFirstRunSetupIntentRetirementOutcome::AlreadyRetired),
                        ),
                        Lookup::Unreadable => Plan::Finish(
                            Err(OwnerFirstRunSetupIntentError::IntentRecordUnavailable),
                        ),
                        Lookup::Found(before) => if !RecordKind::Intent.accepts(before, uid) {
                            Plan::Finish(Err(OwnerFirstRunSetupIntentError::IntentRecordInsecure))
                        } else {
                            and_then(
                                load_intent_plan(absolute, uid),
                                |existing: OwnerFirstSetupTransportCustodySelection|
                                    if existing != expected {
                                        Plan::Finish(
                                            Err(
                                                OwnerFirstRunSetupIntentError::ConflictingIntentRecord,
                                            ),
                                        )
                                    } else {
                                        remove_intent_plan(before, uid, existing)
                                    },
                            )
                        },
                    },
            ),
    )
}

/// Remove the record that was validated, see that it is gone, and make that durable.
pub open spec fn remove_intent_plan(
    before: FileMetadata,
    uid: u32,
    existing: OwnerFirstSetupTransportCustodySelection,
) -> HostPlan<Result<OwnerFirstRunSetupIntentRetirementOutcome, OwnerFirstRunSetupIntentError>> {
    bind(
        look_up(Place::IntentRecord),
        |found: Lookup|
            match found {
                Lookup::Found(still) => if !RecordKind::Intent.accepts(still, uid)
                    || !is_same_object(before, still) {
                    Plan::Finish(Err(OwnerFirstRunSetupIntentError::IntentRecordInsecure))
                } else {
                    bind(
                        perform(OutsideRequest::Remove(Place::IntentRecord)),
                        |removed: bool|
                            if !removed {
                                Plan::Finish(
                                    Err(OwnerFirstRunSetupIntentError::IntentRecordRetirementFailed),
                                )
                            } else {
                                confirm_removal_plan(existing)
                            },
                    )
                },
                _ => Plan::Finish(
                    Err(OwnerFirstRunSetupIntentError::IntentRecordRetirementFailed),
                ),
            },
    )
}

pub open spec fn confirm_removal_plan(
    existing: OwnerFirstSetupTransportCustodySelection,
) -> HostPlan<Result<OwnerFirstRunSetupIntentRetirementOutcome, OwnerFirstRunSetupIntentError>> {
    bind(
        look_up(Place::IntentRecord),
        |found: Lookup|
            if found is Missing {
                bind(
                    perform(OutsideRequest::SyncDirectory(Place::SetupDirectory)),
                    |synced: bool|
                        Plan::Finish(
                            if synced {
                                Ok(OwnerFirstRunSetupIntentRetirementOutcome::Retired(existing))
                            } else {
                                Err(OwnerFirstRunSetupIntentError::DirectorySyncFailed)
                            },
                        ),
                )
            } else {
                Plan::Finish(Err(OwnerFirstRunSetupIntentError::IntentRecordRetirementFailed))
            },
    )
}

fn remove_intent(
    replies: &mut Replies<'_>,
    before: &FileMetadata,
    uid: u32,
    existing: OwnerFirstSetupTransportCustodySelection,
) -> (removed: Result<
    Result<OwnerFirstRunSetupIntentRetirementOutcome, OwnerFirstRunSetupIntentError>,
    OutsideRequest<Vec<u8>>,
>)
    requires
        old(replies).wf(),
    ensures
        went_along(
            remove_intent_plan(*before, uid, existing),
            *old(replies),
            seen(removed),
            *final(replies),
        ),
{
    broadcast use lemma_follow_bind;

    match replies.look_up(Place::IntentRecord)? {
        Lookup::Found(still) => {
            if !RecordKind::Intent.record_is_secure(&still, uid) || !same_object(before, &still) {
                return Ok(Err(OwnerFirstRunSetupIntentError::IntentRecordInsecure));
            }
        },
        _ => {
            return Ok(Err(OwnerFirstRunSetupIntentError::IntentRecordRetirementFailed));
        },
    }
    if !replies.perform(OutsideRequest::Remove(Place::IntentRecord))? {
        return Ok(Err(OwnerFirstRunSetupIntentError::IntentRecordRetirementFailed));
    }
    match replies.look_up(Place::IntentRecord)? {
        Lookup::Missing => {},
        _ => {
            return Ok(Err(OwnerFirstRunSetupIntentError::IntentRecordRetirementFailed));
        },
    }
    if !replies.perform(OutsideRequest::SyncDirectory(Place::SetupDirectory))? {
        return Ok(Err(OwnerFirstRunSetupIntentError::DirectorySyncFailed));
    }
    Ok(Ok(OwnerFirstRunSetupIntentRetirementOutcome::Retired(existing)))
}

fn retire_intent(
    replies: &mut Replies<'_>,
    absolute: bool,
    uid: u32,
    expected: OwnerFirstSetupTransportCustodySelection,
) -> (retired: Result<
    Result<OwnerFirstRunSetupIntentRetirementOutcome, OwnerFirstRunSetupIntentError>,
    OutsideRequest<Vec<u8>>,
>)
    requires
        old(replies).wf(),
    ensures
        went_along(
            retire_intent_plan(absolute, uid, expected),
            *old(replies),
            seen(retired),
            *final(replies),
        ),
{
    broadcast use lemma_follow_bind;

    if let Err(error) = validate_intent_directories(replies, absolute, uid)? {
        return Ok(Err(error));
    }
    let before = match replies.look_up(Place::IntentRecord)? {
        Lookup::Found(before) => before,
        Lookup::Missing => {
            return Ok(Ok(OwnerFirstRunSetupIntentRetirementOutcome::AlreadyRetired));
        },
        Lookup::Unreadable => {
            return Ok(Err(OwnerFirstRunSetupIntentError::IntentRecordUnavailable));
        },
    };
    if !RecordKind::Intent.record_is_secure(&before, uid) {
        return Ok(Err(OwnerFirstRunSetupIntentError::IntentRecordInsecure));
    }
    match load_intent(replies, absolute, uid)? {
        Err(error) => Ok(Err(error)),
        Ok(existing) => if existing != expected {
            Ok(Err(OwnerFirstRunSetupIntentError::ConflictingIntentRecord))
        } else {
            remove_intent(replies, &before, uid, existing)
        },
    }
}

/// Progress as the plans see it.
pub open spec fn intent_progress<R>(
    progress: Progress<OutsideRequest<Vec<u8>>, Result<R, OwnerFirstRunSetupIntentError>>,
) -> Progress<OutsideRequest<Seq<u8>>, Result<R, OwnerFirstRunSetupIntentError>> {
    match progress {
        Progress::Done(result) => Progress::Done(result),
        Progress::Waiting(request) => Progress::Waiting(request@),
    }
}

/// An operation below the state root of the environment, when one resolves.
pub open spec fn intent_from_environment<R>(
    environment: HostEnvironment,
    plan: HostPlan<Result<R, OwnerFirstRunSetupIntentError>>,
) -> HostPlan<Result<R, OwnerFirstRunSetupIntentError>> {
    match environment.state_root_path() {
        None => Plan::Finish(Err(OwnerFirstRunSetupIntentError::InvalidStateRoot)),
        Some(_) => plan,
    }
}

/// Loads the selection below a state root, as far as the replies go. Read-only.
pub fn load_owner_first_run_transport_custody_selection_from_state_root(
    state_root: &[u8],
    uid: u32,
    replies: &Vec<OutsideReply<Vec<u8>>>,
) -> (progress: Progress<
    OutsideRequest<Vec<u8>>,
    Result<OwnerFirstSetupTransportCustodySelection, OwnerFirstRunSetupIntentError>,
>)
    ensures
        intent_progress(progress) == follow(
            load_intent_plan(is_absolute_path(state_root@), uid),
            reply_views(replies@),
        ).0,
{
    let mut cursor = Replies::new(replies);
    match load_intent(&mut cursor, path_is_absolute(state_root), uid) {
        Ok(result) => Progress::Done(result),
        Err(request) => Progress::Waiting(request),
    }
}

/// Loads the selection below the state root of the environment, as far as the replies go.
pub fn load_owner_first_run_transport_custody_selection_from_env(
    environment: &HostEnvironment,
    replies: &Vec<OutsideReply<Vec<u8>>>,
) -> (progress: Progress<
    OutsideRequest<Vec<u8>>,
    Result<OwnerFirstSetupTransportCustodySelection, OwnerFirstRunSetupIntentError>,
>)
    ensures
        intent_progress(progress) == follow(
            intent_from_environment(*environment, load_intent_plan(true, environment.euid)),
            reply_views(replies@),
        ).0,
{
    match environment.state_root() {
        None => Progress::Done(Err(OwnerFirstRunSetupIntentError::InvalidStateRoot)),
        Some(state_root) => {
            proof {
                crate::environment::lemma_state_root_is_absolute(*environment);
            }
            load_owner_first_run_transport_custody_selection_from_state_root(
                state_root.as_slice(),
                environment.euid,
                replies,
            )
        },
    }
}

/// Classifies a valid pending intent against exact absence below a state root, as far as the
/// replies go. Nothing malformed or insecure counts as absent.
pub fn inspect_owner_first_run_setup_intent_presence_at_state_root(
    state_root: &[u8],
    uid: u32,
    replies: &Vec<OutsideReply<Vec<u8>>>,
) -> (progress: Progress<
    OutsideRequest<Vec<u8>>,
    Result<OwnerFirstRunSetupIntentPresence, OwnerFirstRunSetupIntentError>,
>)
    ensures
        intent_progress(progress) == follow(
            inspect_intent_plan(is_absolute_path(state_root@), uid),
            reply_views(replies@),
        ).0,
{
    let mut cursor = Replies::new(replies);
    match inspect_intent(&mut cursor, path_is_absolute(state_root), uid) {
        Ok(result) => Progress::Done(result),
        Err(request) => Progress::Waiting(request),
    }
}

/// Classifies the intent below the state root of the environment, as far as the replies go.
pub fn inspect_owner_first_run_setup_intent_presence_from_env(
    environment: &HostEnvironment,
    replies: &Vec<OutsideReply<Vec<u8>>>,
) -> (progress: Progress<
    OutsideRequest<Vec<u8>>,
    Result<OwnerFirstRunSetupIntentPresence, OwnerFirstRunSetupIntentError>,
>)
    ensures
        intent_progress(progress) == follow(
            intent_from_environment(*environment, inspect_intent_plan(true, environment.euid)),
            reply_views(replies@),
        ).0,
{
    match environment.state_root() {
        None => Progress::Done(Err(OwnerFirstRunSetupIntentError::InvalidStateRoot)),
        Some(state_root) => {
            proof {
                crate::environment::lemma_state_root_is_absolute(*environment);
            }
            inspect_owner_first_run_setup_intent_presence_at_state_root(
                state_root.as_slice(),
                environment.euid,
                replies,
            )
        },
    }
}

/// Ensures that the intent exists once below a state root, as far as the replies go.
pub fn ensure_owner_first_run_transport_custody_intent_at_state_root(
    state_root: &[u8],
    uid: u32,
    selection: OwnerFirstSetupTransportCustodySelection,
    replies: &Vec<OutsideReply<Vec<u8>>>,
) -> (progress: Progress<
    OutsideRequest<Vec<u8>>,
    Result<OwnerFirstRunSetupIntentWriteOutcome, OwnerFirstRunSetupIntentError>,
>)
    ensures
        intent_progress(progress) == follow(
            ensure_intent_plan(is_absolute_path(state_root@), uid, selection),
            reply_views(replies@),
        ).0,
{
    let mut cursor = Replies::new(replies);
    match ensure_intent(&mut cursor, path_is_absolute(state_root), uid, selection) {
        Ok(result) => Progress::Done(result),
        Err(request) => Progress::Waiting(request),
    }
}

/// Ensures that the intent exists once below the state root of the environment, as far as the
/// replies go.
pub fn ensure_owner_first_run_transport_custody_intent_from_env(
    environment: &HostEnvironment,
    selection: OwnerFirstSetupTransportCustodySelection,
    replies: &Vec<OutsideReply<Vec<u8>>>,
) -> (progress: Progress<
    OutsideRequest<Vec<u8>>,
    Result<OwnerFirstRunSetupIntentWriteOutcome, OwnerFirstRunSetupIntentError>,
>)
    ensures
        intent_progress(progress) == follow(
            intent_from_environment(*environment, ensure_intent_plan(true, environment.euid, selection)),
            reply_views(replies@),
        ).0,
{
    match environment.state_root() {
        None => Progress::Done(Err(OwnerFirstRunSetupIntentError::InvalidStateRoot)),
        Some(state_root) => {
            proof {
                crate::environment::lemma_state_root_is_absolute(*environment);
            }
            ensure_owner_first_run_transport_custody_intent_at_state_root(
                state_root.as_slice(),
                environment.euid,
                selection,
                replies,
            )
        },
    }
}

/// Takes the intent below a state root away if it is exactly the expected one, as far as the
/// replies go.
pub fn retire_owner_first_run_transport_custody_intent_at_state_root(
    state_root: &[u8],
    uid: u32,
    selection: OwnerFirstSetupTransportCustodySelection,
    replies: &Vec<OutsideReply<Vec<u8>>>,
) -> (progress: Progress<
    OutsideRequest<Vec<u8>>,
    Result<OwnerFirstRunSetupIntentRetirementOutcome, OwnerFirstRunSetupIntentError>,
>)
    ensures
        intent_progress(progress) == follow(
            retire_intent_plan(is_absolute_path(state_root@), uid, selection),
            reply_views(replies@),
        ).0,
{
    let mut cursor = Replies::new(replies);
    match retire_intent(&mut cursor, path_is_absolute(state_root), uid, selection) {
        Ok(result) => Progress::Done(result),
        Err(request) => Progress::Waiting(request),
    }
}

/// Takes the intent away after the local authority was bootstrapped for the same selection, as
/// far as the replies go. Either outcome of that bootstrap is a success.
pub fn retire_owner_first_run_transport_custody_intent_after_local_authority_success_from_env(
    environment: &HostEnvironment,
    selection: OwnerFirstSetupTransportCustodySelection,
    local_authority_outcome: OwnerPcLocalAuthorityBootstrapOutcome,
    replies: &Vec<OutsideReply<Vec<u8>>>,
) -> (progress: Progress<
    OutsideRequest<Vec<u8>>,
    Result<OwnerFirstRunSetupIntentRetirementOutcome, OwnerFirstRunSetupIntentError>,
>)
    ensures
        intent_progress(progress) == follow(
            intent_from_environment(
                *environment,
                retire_intent_plan(true, environment.euid, selection),
            ),
            reply_views(replies@),
        ).0,
{
    match local_authority_outcome {
        OwnerPcLocalAuthorityBootstrapOutcome::Initialized => {},
        OwnerPcLocalAuthorityBootstrapOutcome::AlreadyCurrent => {},
    }
    match environment.state_root() {
        None => Progress::Done(Err(OwnerFirstRunSetupIntentError::InvalidStateRoot)),
        Some(state_root) => {
            proof {
                crate::environment::lemma_state_root_is_absolute(*environment);
            }
            retire_owner_first_run_transport_custody_intent_at_state_root(
                state_root.as_slice(),
                environment.euid,
                selection,
                replies,
            )
        },
    }
}

/// Reads the intent as part of a longer operation.
pub(crate) fn load_intent_in(
    environment: &HostEnvironment,
    replies: &mut Replies<'_>,
) -> (outcome: Result<
    Result<OwnerFirstSetupTransportCustodySelection, OwnerFirstRunSetupIntentError>,
    OutsideRequest<Vec<u8>>,
>)
    requires
        old(replies).wf(),
    ensures
        went_along(
            intent_from_environment(*environment, load_intent_plan(true, environment.euid)),
            *old(replies),
            seen(outcome),
            *final(replies),
        ),
{
    match environment.state_root() {
        None => Ok(Err(OwnerFirstRunSetupIntentError::InvalidStateRoot)),
        Some(_) => load_intent(replies, true, environment.euid),
    }
}

/// Classifies the intent as part of a longer operation.
pub(crate) fn inspect_intent_in(
    environment: &HostEnvironment,
    replies: &mut Replies<'_>,
) -> (outcome: Result<
    Result<OwnerFirstRunSetupIntentPresence, OwnerFirstRunSetupIntentError>,
    OutsideRequest<Vec<u8>>,
>)
    requires
        old(replies).wf(),
    ensures
        went_along(
            intent_from_environment(*environment, inspect_intent_plan(true, environment.euid)),
            *old(replies),
            seen(outcome),
            *final(replies),
        ),
{
    match environment.state_root() {
        None => Ok(Err(OwnerFirstRunSetupIntentError::InvalidStateRoot)),
        Some(_) => inspect_intent(replies, true, environment.euid),
    }
}

/// Retires the intent as part of a longer operation.
pub(crate) fn retire_intent_in(
    environment: &HostEnvironment,
    selection: OwnerFirstSetupTransportCustodySelection,
    replies: &mut Replies<'_>,
) -> (outcome: Result<
    Result<OwnerFirstRunSetupIntentRetirementOutcome, OwnerFirstRunSetupIntentError>,
    OutsideRequest<Vec<u8>>,
>)
    requires
        old(replies).wf(),
    ensures
        went_along(
            intent_from_environment(*environment, retire_intent_plan(true, environment.euid, selection)),
            *old(replies),
            seen(outcome),
            *final(replies),
        ),
{
    match environment.state_root() {
        None => Ok(Err(OwnerFirstRunSetupIntentError::InvalidStateRoot)),
        Some(_) => retire_intent(replies, true, environment.euid, selection),
    }
}

} // verus!
