//! What the setup-intent operations do to the host.
use vstd::prelude::*;

use crate::custody::RecordKind;
use crate::host::{
    ends, group_custody_steps, group_host_steps, lemma_others_stay, lemma_private_directory_stays,
    lemma_user_directory_stays, same_but, Host,
};
use crate::outside::Place;
use crate::reliable_host::{
    ends_reliably, group_reliable_reads, group_reliable_steps, lemma_bind, lemma_finish,
    lemma_record_decides,
};
use crate::owner_first_run_setup_intent::{
    decoded_intent, ensure_intent_directories_plan, ensure_intent_plan, ensure_intent_record_plan,
    inspect_intent_plan, intent_directories_plan, intent_token, lemma_intent_token_round_trip,
    load_intent_plan, publish_intent_plan, remove_intent_plan, replay_intent_plan,
    retire_intent_plan, OwnerFirstRunSetupIntentError, OwnerFirstRunSetupIntentPresence,
    OwnerFirstRunSetupIntentRetirementOutcome, OwnerFirstRunSetupIntentWriteOutcome,
};
use crate::owner_first_setup_custody_policy_orchestration::OwnerFirstSetupTransportCustodySelection;
use crate::working_host::{
    ends_working, group_working_steps, lemma_ensure_private_directory_working,
    lemma_publish_working, lemma_state_root_working, lemma_working_host,
};

verus! {

/// The selection that the host's record holds, if it holds one.
pub open spec fn stored_intent(host: Host) -> Option<OwnerFirstSetupTransportCustodySelection> {
    match host.content(Place::IntentRecord) {
        Some(content) => match decoded_intent(content) {
            Ok(selection) => Some(selection),
            Err(_) => None,
        },
        None => None,
    }
}

/// The record holds a selection and everything above it is trusted.
pub open spec fn has_sound_intent(
    host: Host,
    absolute: bool,
    uid: u32,
    selection: OwnerFirstSetupTransportCustodySelection,
) -> bool {
    &&& absolute
    &&& host.has_user_directory(Place::StateRoot, uid)
    &&& host.has_private_directory(Place::ApplicationDirectory, uid)
    &&& host.has_private_directory(Place::SetupDirectory, uid)
    &&& host.has_record(Place::IntentRecord, RecordKind::Intent, uid)
    &&& stored_intent(host) == Some(selection)
}

broadcast proof fn lemma_directories_end(
    absolute: bool,
    uid: u32,
    host: Host,
    result: Result<(), OwnerFirstRunSetupIntentError>,
    after: Host,
)
    requires
        #[trigger] ends(intent_directories_plan(absolute, uid), host, result, after),
    ensures
        after == host,
        result is Ok ==> absolute && host.has_user_directory(Place::StateRoot, uid)
            && host.has_private_directory(Place::ApplicationDirectory, uid)
            && host.has_private_directory(Place::SetupDirectory, uid),
{
    broadcast use {group_host_steps, group_custody_steps};

}

/// Loading changes nothing on the host, and loads what the record holds.
pub broadcast proof fn loading_reads_the_stored_intent(
    absolute: bool,
    uid: u32,
    host: Host,
    result: Result<OwnerFirstSetupTransportCustodySelection, OwnerFirstRunSetupIntentError>,
    after: Host,
)
    requires
        #[trigger] ends(load_intent_plan(absolute, uid), host, result, after),
    ensures
        after == host,
        result matches Ok(selection) ==> has_sound_intent(host, absolute, uid, selection),
{
    broadcast use {group_host_steps, group_custody_steps, lemma_directories_end};

    lemma_intent_token_round_trip(OwnerFirstSetupTransportCustodySelection::PreferredDefault);
    lemma_intent_token_round_trip(
        OwnerFirstSetupTransportCustodySelection::ExplicitHostKeyOnlyFallback,
    );
}

/// Inspection changes nothing on the host. It reports a pending intent only where a record holds
/// one, and the absence of one only where no record is at all: a record that is there and invalid
/// is never taken for absent.
pub broadcast proof fn inspection_tells_present_from_absent(
    absolute: bool,
    uid: u32,
    host: Host,
    result: Result<OwnerFirstRunSetupIntentPresence, OwnerFirstRunSetupIntentError>,
    after: Host,
)
    requires
        #[trigger] ends(inspect_intent_plan(absolute, uid), host, result, after),
    ensures
        after == host,
        result == Ok::<_, OwnerFirstRunSetupIntentError>(OwnerFirstRunSetupIntentPresence::Present)
            ==> stored_intent(host) is Some,
        result == Ok::<_, OwnerFirstRunSetupIntentError>(OwnerFirstRunSetupIntentPresence::Absent)
            ==> !host.files.contains_key(Place::IntentRecord),
{
    broadcast use {
        group_host_steps,
        group_custody_steps,
        lemma_directories_end,
        loading_reads_the_stored_intent,
    };

}

broadcast proof fn lemma_ensured_directories_end(
    absolute: bool,
    uid: u32,
    host: Host,
    result: Result<(), OwnerFirstRunSetupIntentError>,
    after: Host,
)
    requires
        #[trigger] ends(ensure_intent_directories_plan(absolute, uid), host, result, after),
    ensures
        same_but(host, after, set![Place::ApplicationDirectory, Place::SetupDirectory]),
        result is Ok ==> absolute && after.has_user_directory(Place::StateRoot, uid)
            && after.has_private_directory(Place::ApplicationDirectory, uid)
            && after.has_private_directory(Place::SetupDirectory, uid),
{
    broadcast use {group_host_steps, group_custody_steps, lemma_others_stay};
}

broadcast proof fn lemma_replay_ends(
    absolute: bool,
    uid: u32,
    selection: OwnerFirstSetupTransportCustodySelection,
    host: Host,
    result: Result<OwnerFirstRunSetupIntentWriteOutcome, OwnerFirstRunSetupIntentError>,
    after: Host,
)
    requires
        #[trigger] ends(replay_intent_plan(absolute, uid, selection), host, result, after),
    ensures
        after == host,
        result matches Ok(outcome) ==> outcome == OwnerFirstRunSetupIntentWriteOutcome::Existing(
            selection,
        ) && has_sound_intent(host, absolute, uid, selection),
{
    broadcast use {group_host_steps, loading_reads_the_stored_intent};

}

broadcast proof fn lemma_publish_intent_ends(
    uid: u32,
    selection: OwnerFirstSetupTransportCustodySelection,
    host: Host,
    result: Result<OwnerFirstRunSetupIntentWriteOutcome, OwnerFirstRunSetupIntentError>,
    after: Host,
)
    requires
        #[trigger] ends(publish_intent_plan(uid, selection), host, result, after),
    ensures
        host.files.contains_key(Place::IntentRecord) ==> result is Err && after.files.contains_key(
            Place::IntentRecord,
        ) && after.files[Place::IntentRecord] == host.files[Place::IntentRecord],
        result matches Ok(outcome) ==> outcome == OwnerFirstRunSetupIntentWriteOutcome::Created(
            selection,
        ) && stored_intent(after) == Some(selection) && after.has_record(
            Place::IntentRecord,
            RecordKind::Intent,
            uid,
        ),
        same_but(host, after, set![Place::IntentTemporary, Place::IntentRecord]),
{
    broadcast use {group_host_steps, group_custody_steps};

    lemma_intent_token_round_trip(selection);
}

broadcast proof fn lemma_ensure_record_ends(
    absolute: bool,
    uid: u32,
    selection: OwnerFirstSetupTransportCustodySelection,
    host: Host,
    result: Result<OwnerFirstRunSetupIntentWriteOutcome, OwnerFirstRunSetupIntentError>,
    after: Host,
)
    requires
        #[trigger] ends(ensure_intent_record_plan(absolute, uid, selection), host, result, after),
    ensures
        host.files.contains_key(Place::IntentRecord) ==> after.files.contains_key(
            Place::IntentRecord,
        ) && after.files[Place::IntentRecord] == host.files[Place::IntentRecord],
        result matches Ok(outcome) ==> {
            &&& stored_intent(after) == Some(selection)
            &&& after.has_record(Place::IntentRecord, RecordKind::Intent, uid)
            &&& match outcome {
                OwnerFirstRunSetupIntentWriteOutcome::Created(created) => created == selection
                    && !host.files.contains_key(Place::IntentRecord),
                OwnerFirstRunSetupIntentWriteOutcome::Existing(existing) => existing == selection
                    && stored_intent(host) == Some(selection),
            }
        },
        same_but(host, after, set![Place::IntentTemporary, Place::IntentRecord]),
{
    broadcast use {group_host_steps, lemma_replay_ends, lemma_publish_intent_ends};

}

/// An intent is written once. Whatever the outcome, a record that was there is still there,
/// unchanged. Success means that the record holds the selection: it did before, or it was absent
/// and was created now. Nothing but the record, the temporary file beside it and the two
/// directories above it is touched.
pub broadcast proof fn intent_is_written_once(
    absolute: bool,
    uid: u32,
    selection: OwnerFirstSetupTransportCustodySelection,
    host: Host,
    result: Result<OwnerFirstRunSetupIntentWriteOutcome, OwnerFirstRunSetupIntentError>,
    after: Host,
)
    requires
        #[trigger] ends(ensure_intent_plan(absolute, uid, selection), host, result, after),
    ensures
        host.files.contains_key(Place::IntentRecord) ==> after.files.contains_key(
            Place::IntentRecord,
        ) && after.files[Place::IntentRecord] == host.files[Place::IntentRecord],
        result matches Ok(outcome) ==> {
            &&& has_sound_intent(after, absolute, uid, selection)
            &&& match outcome {
                OwnerFirstRunSetupIntentWriteOutcome::Created(created) => created == selection
                    && !host.files.contains_key(Place::IntentRecord),
                OwnerFirstRunSetupIntentWriteOutcome::Existing(existing) => existing == selection
                    && stored_intent(host) == Some(selection),
            }
        },
        same_but(
            host,
            after,
            set![
                Place::ApplicationDirectory,
                Place::SetupDirectory,
                Place::IntentTemporary,
                Place::IntentRecord,
            ],
        ),
{
    broadcast use {
        group_host_steps,
        lemma_ensured_directories_end,
        lemma_ensure_record_ends,
        lemma_user_directory_stays,
        lemma_private_directory_stays,
    };

    let directories = set![Place::ApplicationDirectory, Place::SetupDirectory];
    let files = set![Place::IntentTemporary, Place::IntentRecord];
    assert forall|place: Place|
        !directories.contains(place) && !files.contains(place) implies (
    #[trigger] after.files.contains_key(place) == host.files.contains_key(place) && (
    host.files.contains_key(place) ==> after.files[place] == host.files[place])) by {}
}

broadcast proof fn lemma_sound_directories_are_accepted(
    absolute: bool,
    uid: u32,
    host: Host,
    result: Result<(), OwnerFirstRunSetupIntentError>,
    after: Host,
)
    requires
        #[trigger] ends_reliably(intent_directories_plan(absolute, uid), host, result, after),
        absolute,
        host.has_user_directory(Place::StateRoot, uid),
        host.has_private_directory(Place::ApplicationDirectory, uid),
        host.has_private_directory(Place::SetupDirectory, uid),
    ensures
        after == host,
        result is Ok,
{
    broadcast use group_reliable_reads;

}

/// A selection that was written is read back: on a host that does not fail, every load after a
/// successful write gives the selection, until something else changes the host.
pub proof fn written_intent_is_read_back(
    absolute: bool,
    uid: u32,
    selection: OwnerFirstSetupTransportCustodySelection,
    host: Host,
    outcome: OwnerFirstRunSetupIntentWriteOutcome,
    middle: Host,
    loaded: Result<OwnerFirstSetupTransportCustodySelection, OwnerFirstRunSetupIntentError>,
    after: Host,
)
    requires
        ends(ensure_intent_plan(absolute, uid, selection), host, Ok(outcome), middle),
        ends_reliably(load_intent_plan(absolute, uid), middle, loaded, after),
    ensures
        loaded == Ok::<_, OwnerFirstRunSetupIntentError>(selection),
        after == middle,
{
    broadcast use {group_reliable_reads, lemma_sound_directories_are_accepted};

    intent_is_written_once(absolute, uid, selection, host, Ok(outcome), middle);
    lemma_intent_token_round_trip(selection);
    assert(middle.files[Place::IntentRecord].content == intent_token(selection));
}

/// The place of an intent can be used: the root is trusted, and each directory below it is either
/// trusted or absent.
pub open spec fn intent_place_is_usable(host: Host, absolute: bool, uid: u32) -> bool {
    &&& absolute
    &&& host.has_user_directory(Place::StateRoot, uid)
    &&& host.files.contains_key(Place::ApplicationDirectory) ==> host.has_private_directory(
        Place::ApplicationDirectory,
        uid,
    )
    &&& host.files.contains_key(Place::SetupDirectory) ==> host.has_private_directory(
        Place::SetupDirectory,
        uid,
    )
}

broadcast proof fn lemma_usable_directories_are_ensured(
    absolute: bool,
    uid: u32,
    host: Host,
    result: Result<(), OwnerFirstRunSetupIntentError>,
    after: Host,
)
    requires
        #[trigger] ends_working(
            uid,
            ensure_intent_directories_plan(absolute, uid),
            host,
            result,
            after,
        ),
        intent_place_is_usable(host, absolute, uid),
    ensures
        result is Ok,
        intent_place_is_trusted(after, absolute, uid),
        same_but(host, after, set![Place::ApplicationDirectory, Place::SetupDirectory]),
        host.files.contains_key(Place::ApplicationDirectory) && host.files.contains_key(
            Place::SetupDirectory,
        ) ==> after == host,
{
    broadcast use {
        group_working_steps,
        lemma_state_root_working,
        lemma_ensure_private_directory_working,
        lemma_others_stay,
    };

}

/// The intent's directories are trusted.
pub open spec fn intent_place_is_trusted(host: Host, absolute: bool, uid: u32) -> bool {
    &&& absolute
    &&& host.has_user_directory(Place::StateRoot, uid)
    &&& host.has_private_directory(Place::ApplicationDirectory, uid)
    &&& host.has_private_directory(Place::SetupDirectory, uid)
}

/// What loading the intent comes to: the record has to be there, be trusted, and hold a token.
pub open spec fn loaded_intent(host: Host, uid: u32) -> Result<
    OwnerFirstSetupTransportCustodySelection,
    OwnerFirstRunSetupIntentError,
> {
    if !host.files.contains_key(Place::IntentRecord) {
        Err(OwnerFirstRunSetupIntentError::IntentRecordUnavailable)
    } else if !host.has_record(Place::IntentRecord, RecordKind::Intent, uid) {
        Err(OwnerFirstRunSetupIntentError::IntentRecordInsecure)
    } else {
        match stored_intent(host) {
            Some(selection) => Ok(selection),
            None => Err(OwnerFirstRunSetupIntentError::MalformedIntentRecord),
        }
    }
}

/// On a host that does not fail, loading gives exactly what the record decides: its selection, or
/// that it is missing, not trusted or malformed. Nothing changes.
pub broadcast proof fn loading_is_decided_by_the_record(
    absolute: bool,
    uid: u32,
    host: Host,
    result: Result<OwnerFirstSetupTransportCustodySelection, OwnerFirstRunSetupIntentError>,
    after: Host,
)
    requires
        #[trigger] ends_reliably(load_intent_plan(absolute, uid), host, result, after),
        intent_place_is_trusted(host, absolute, uid),
    ensures
        after == host,
        result == loaded_intent(host, uid),
{
    broadcast use {
        lemma_finish,
        lemma_bind,
        lemma_record_decides,
        lemma_sound_directories_are_accepted,
    };

    lemma_intent_token_round_trip(OwnerFirstSetupTransportCustodySelection::PreferredDefault);
    lemma_intent_token_round_trip(
        OwnerFirstSetupTransportCustodySelection::ExplicitHostKeyOnlyFallback,
    );
}

/// On a host that does not fail, inspection tells exactly whether an intent is pending, and
/// refuses a record that is not trusted or malformed. Nothing changes.
pub proof fn inspection_is_decided_by_the_record(
    absolute: bool,
    uid: u32,
    host: Host,
    result: Result<OwnerFirstRunSetupIntentPresence, OwnerFirstRunSetupIntentError>,
    after: Host,
)
    requires
        ends_reliably(inspect_intent_plan(absolute, uid), host, result, after),
        intent_place_is_trusted(host, absolute, uid),
    ensures
        after == host,
        result == (if !host.files.contains_key(Place::IntentRecord) {
            Ok(OwnerFirstRunSetupIntentPresence::Absent)
        } else {
            match loaded_intent(host, uid) {
                Ok(_) => Ok(OwnerFirstRunSetupIntentPresence::Present),
                Err(error) => Err(error),
            }
        }),
{
    broadcast use {
        group_reliable_steps,
        lemma_sound_directories_are_accepted,
        loading_is_decided_by_the_record,
    };

}

/// What writing an intent over an existing record comes to: the same selection is found existing,
/// another one is in conflict, and a record that is not trusted or malformed is refused.
pub open spec fn written_over(
    host: Host,
    uid: u32,
    selection: OwnerFirstSetupTransportCustodySelection,
) -> Result<OwnerFirstRunSetupIntentWriteOutcome, OwnerFirstRunSetupIntentError> {
    match loaded_intent(host, uid) {
        Err(error) => Err(error),
        Ok(existing) => if existing == selection {
            Ok(OwnerFirstRunSetupIntentWriteOutcome::Existing(selection))
        } else {
            Err(OwnerFirstRunSetupIntentError::ConflictingIntentRecord)
        },
    }
}

/// On a host that works, an existing record decides what writing comes to, and stays as it is: no
/// more than the two directories above it can change, and those only where one was missing.
pub proof fn existing_intent_decides_the_write(
    absolute: bool,
    uid: u32,
    selection: OwnerFirstSetupTransportCustodySelection,
    host: Host,
    result: Result<OwnerFirstRunSetupIntentWriteOutcome, OwnerFirstRunSetupIntentError>,
    after: Host,
)
    requires
        ends_working(uid, ensure_intent_plan(absolute, uid, selection), host, result, after),
        intent_place_is_usable(host, absolute, uid),
        host.files.contains_key(Place::IntentRecord),
    ensures
        result == written_over(host, uid, selection),
        same_but(host, after, set![Place::ApplicationDirectory, Place::SetupDirectory]),
        after.files.contains_key(Place::IntentRecord) && after.files[Place::IntentRecord]
            == host.files[Place::IntentRecord],
        intent_place_is_trusted(host, absolute, uid) ==> after == host,
{
    broadcast use {
        group_working_steps,
        lemma_usable_directories_are_ensured,
        lemma_replay_is_decided,
    };

    let directories = set![Place::ApplicationDirectory, Place::SetupDirectory];
    assert(!directories.contains(Place::IntentRecord));
}

broadcast proof fn lemma_replay_is_decided(
    absolute: bool,
    uid: u32,
    selection: OwnerFirstSetupTransportCustodySelection,
    host: Host,
    result: Result<OwnerFirstRunSetupIntentWriteOutcome, OwnerFirstRunSetupIntentError>,
    after: Host,
)
    requires
        #[trigger] ends_working(
            uid,
            replay_intent_plan(absolute, uid, selection),
            host,
            result,
            after,
        ),
        intent_place_is_trusted(host, absolute, uid),
    ensures
        after == host,
        result == written_over(host, uid, selection),
{
    broadcast use {lemma_finish, lemma_bind, loading_is_decided_by_the_record};

    lemma_working_host(uid, replay_intent_plan(absolute, uid, selection), host, result, after);
}

/// What retiring an intent comes to.
pub open spec fn retirement_outcome(
    host: Host,
    uid: u32,
    expected: OwnerFirstSetupTransportCustodySelection,
) -> Result<OwnerFirstRunSetupIntentRetirementOutcome, OwnerFirstRunSetupIntentError> {
    if !host.files.contains_key(Place::IntentRecord) {
        Ok(OwnerFirstRunSetupIntentRetirementOutcome::AlreadyRetired)
    } else {
        match loaded_intent(host, uid) {
            Err(error) => Err(error),
            Ok(existing) => if existing == expected {
                Ok(OwnerFirstRunSetupIntentRetirementOutcome::Retired(expected))
            } else {
                Err(OwnerFirstRunSetupIntentError::ConflictingIntentRecord)
            },
        }
    }
}

/// On a host that works, a record that holds the expected intent is retired: it is removed and
/// nothing else changes. Where there is none it is retired already, and every other record stays
/// and is refused by its own error.
pub proof fn retirement_is_decided_by_the_record(
    absolute: bool,
    uid: u32,
    expected: OwnerFirstSetupTransportCustodySelection,
    host: Host,
    result: Result<OwnerFirstRunSetupIntentRetirementOutcome, OwnerFirstRunSetupIntentError>,
    after: Host,
)
    requires
        ends_working(uid, retire_intent_plan(absolute, uid, expected), host, result, after),
        intent_place_is_trusted(host, absolute, uid),
    ensures
        result == retirement_outcome(host, uid, expected),
        after == (if result == Ok::<_, OwnerFirstRunSetupIntentError>(
            OwnerFirstRunSetupIntentRetirementOutcome::Retired(expected),
        ) {
            Host { files: host.files.remove(Place::IntentRecord), ..host }
        } else {
            host
        }),
{
    broadcast use {
        group_working_steps,
        lemma_directories_are_accepted_working,
        lemma_load_is_decided_working,
        lemma_removal_working,
    };

}

broadcast proof fn lemma_directories_are_accepted_working(
    absolute: bool,
    uid: u32,
    host: Host,
    result: Result<(), OwnerFirstRunSetupIntentError>,
    after: Host,
)
    requires
        #[trigger] ends_working(uid, intent_directories_plan(absolute, uid), host, result, after),
        intent_place_is_trusted(host, absolute, uid),
    ensures
        after == host,
        result is Ok,
{
    lemma_working_host(uid, intent_directories_plan(absolute, uid), host, result, after);
    lemma_sound_directories_are_accepted(absolute, uid, host, result, after);
}

broadcast proof fn lemma_load_is_decided_working(
    absolute: bool,
    uid: u32,
    host: Host,
    result: Result<OwnerFirstSetupTransportCustodySelection, OwnerFirstRunSetupIntentError>,
    after: Host,
)
    requires
        #[trigger] ends_working(uid, load_intent_plan(absolute, uid), host, result, after),
        intent_place_is_trusted(host, absolute, uid),
    ensures
        after == host,
        result == loaded_intent(host, uid),
{
    lemma_working_host(uid, load_intent_plan(absolute, uid), host, result, after);
    loading_is_decided_by_the_record(absolute, uid, host, result, after);
}

broadcast proof fn lemma_removal_working(
    before: crate::outside::FileMetadata,
    uid: u32,
    existing: OwnerFirstSetupTransportCustodySelection,
    host: Host,
    result: Result<OwnerFirstRunSetupIntentRetirementOutcome, OwnerFirstRunSetupIntentError>,
    after: Host,
)
    requires
        #[trigger] ends_working(
            uid,
            remove_intent_plan(before, uid, existing),
            host,
            result,
            after,
        ),
        host.has_record(Place::IntentRecord, RecordKind::Intent, uid),
        host.files[Place::IntentRecord].metadata == before,
        host.files.contains_key(Place::SetupDirectory),
    ensures
        result == Ok::<_, OwnerFirstRunSetupIntentError>(
            OwnerFirstRunSetupIntentRetirementOutcome::Retired(existing),
        ),
        after == (Host { files: host.files.remove(Place::IntentRecord), ..host }),
{
    broadcast use group_working_steps;

}

/// On a host that works, an intent that is absent is created, and every repeat finds it existing
/// and changes nothing.
pub proof fn absent_intent_is_created_and_then_found(
    absolute: bool,
    uid: u32,
    selection: OwnerFirstSetupTransportCustodySelection,
    host: Host,
    first: Result<OwnerFirstRunSetupIntentWriteOutcome, OwnerFirstRunSetupIntentError>,
    middle: Host,
    second: Result<OwnerFirstRunSetupIntentWriteOutcome, OwnerFirstRunSetupIntentError>,
    after: Host,
)
    requires
        intent_place_is_usable(host, absolute, uid),
        !host.files.contains_key(Place::IntentRecord),
        !host.files.contains_key(Place::IntentTemporary),
        ends_working(uid, ensure_intent_plan(absolute, uid, selection), host, first, middle),
        ends_working(uid, ensure_intent_plan(absolute, uid, selection), middle, second, after),
    ensures
        first == Ok::<_, OwnerFirstRunSetupIntentError>(
            OwnerFirstRunSetupIntentWriteOutcome::Created(selection),
        ),
        has_sound_intent(middle, absolute, uid, selection),
        second == Ok::<_, OwnerFirstRunSetupIntentError>(
            OwnerFirstRunSetupIntentWriteOutcome::Existing(selection),
        ),
        after == middle,
{
    lemma_absent_intent_is_created(absolute, uid, selection, host, first, middle);
    existing_intent_decides_the_write(absolute, uid, selection, middle, second, after);
}

pub proof fn lemma_absent_intent_is_created(
    absolute: bool,
    uid: u32,
    selection: OwnerFirstSetupTransportCustodySelection,
    host: Host,
    result: Result<OwnerFirstRunSetupIntentWriteOutcome, OwnerFirstRunSetupIntentError>,
    after: Host,
)
    requires
        intent_place_is_usable(host, absolute, uid),
        !host.files.contains_key(Place::IntentRecord),
        !host.files.contains_key(Place::IntentTemporary),
        ends_working(uid, ensure_intent_plan(absolute, uid, selection), host, result, after),
    ensures
        result == Ok::<_, OwnerFirstRunSetupIntentError>(
            OwnerFirstRunSetupIntentWriteOutcome::Created(selection),
        ),
        has_sound_intent(after, absolute, uid, selection),
{
    broadcast use {
        group_working_steps,
        lemma_usable_directories_are_ensured,
        lemma_publish_working,
    };

    lemma_intent_token_round_trip(selection);
    let directories = set![Place::ApplicationDirectory, Place::SetupDirectory];
    assert(!directories.contains(Place::IntentRecord));
    assert(!directories.contains(Place::IntentTemporary));
    lemma_working_host(uid, ensure_intent_plan(absolute, uid, selection), host, result, after);
    intent_is_written_once(absolute, uid, selection, host, result, after);
}

/// A selection that was written is not overruled: writing the other selection afterwards fails,
/// and writing the same one again changes no record.
pub proof fn written_intent_is_not_overruled(
    absolute: bool,
    uid: u32,
    first: OwnerFirstSetupTransportCustodySelection,
    second: OwnerFirstSetupTransportCustodySelection,
    host: Host,
    outcome: OwnerFirstRunSetupIntentWriteOutcome,
    middle: Host,
    result: Result<OwnerFirstRunSetupIntentWriteOutcome, OwnerFirstRunSetupIntentError>,
    after: Host,
)
    requires
        ends(ensure_intent_plan(absolute, uid, first), host, Ok(outcome), middle),
        ends(ensure_intent_plan(absolute, uid, second), middle, result, after),
    ensures
        stored_intent(after) == Some(first),
        second != first ==> result is Err,
        result matches Ok(again) ==> again == OwnerFirstRunSetupIntentWriteOutcome::Existing(first),
{
    intent_is_written_once(absolute, uid, first, host, Ok(outcome), middle);
    intent_is_written_once(absolute, uid, second, middle, result, after);
}

broadcast proof fn lemma_remove_ends(
    before: crate::outside::FileMetadata,
    uid: u32,
    existing: OwnerFirstSetupTransportCustodySelection,
    host: Host,
    result: Result<OwnerFirstRunSetupIntentRetirementOutcome, OwnerFirstRunSetupIntentError>,
    after: Host,
)
    requires
        #[trigger] ends(remove_intent_plan(before, uid, existing), host, result, after),
    ensures
        after == host || after == (Host { files: host.files.remove(Place::IntentRecord), ..host }),
        result matches Ok(outcome) ==> outcome
            == OwnerFirstRunSetupIntentRetirementOutcome::Retired(existing)
            && !after.files.contains_key(Place::IntentRecord),
{
    broadcast use group_host_steps;

}

/// Retirement takes away exactly the expected intent. A record that holds anything else stays,
/// and with it the whole host. Success means that no record is left: the expected one was removed,
/// or there was none.
pub broadcast proof fn retirement_removes_only_the_expected_intent(
    absolute: bool,
    uid: u32,
    expected: OwnerFirstSetupTransportCustodySelection,
    host: Host,
    result: Result<OwnerFirstRunSetupIntentRetirementOutcome, OwnerFirstRunSetupIntentError>,
    after: Host,
)
    requires
        #[trigger] ends(retire_intent_plan(absolute, uid, expected), host, result, after),
    ensures
        after == host || after == (Host { files: host.files.remove(Place::IntentRecord), ..host }),
        stored_intent(host) != Some(expected) ==> after == host,
        result is Ok ==> !after.files.contains_key(Place::IntentRecord),
        result matches Ok(OwnerFirstRunSetupIntentRetirementOutcome::Retired(retired)) ==> retired
            == expected && stored_intent(host) == Some(expected),
        result == Ok::<_, OwnerFirstRunSetupIntentError>(
            OwnerFirstRunSetupIntentRetirementOutcome::AlreadyRetired,
        ) ==> !host.files.contains_key(Place::IntentRecord) && after == host,
{
    broadcast use {
        group_host_steps,
        lemma_directories_end,
        loading_reads_the_stored_intent,
        lemma_remove_ends,
    };

}

/// Once an intent is retired, inspection never reports a pending one, and a second retirement
/// changes nothing.
pub proof fn retired_intent_stays_retired(
    absolute: bool,
    uid: u32,
    expected: OwnerFirstSetupTransportCustodySelection,
    host: Host,
    outcome: OwnerFirstRunSetupIntentRetirementOutcome,
    middle: Host,
    presence: OwnerFirstRunSetupIntentPresence,
    inspected: Host,
    again: Result<OwnerFirstRunSetupIntentRetirementOutcome, OwnerFirstRunSetupIntentError>,
    after: Host,
)
    requires
        ends(retire_intent_plan(absolute, uid, expected), host, Ok(outcome), middle),
        ends(inspect_intent_plan(absolute, uid), middle, Ok(presence), inspected),
        ends(retire_intent_plan(absolute, uid, expected), inspected, again, after),
    ensures
        presence == OwnerFirstRunSetupIntentPresence::Absent,
        inspected == middle,
        after == middle,
        again matches Ok(outcome) ==> outcome
            == OwnerFirstRunSetupIntentRetirementOutcome::AlreadyRetired,
{
    retirement_removes_only_the_expected_intent(
        absolute,
        uid,
        expected,
        host,
        Ok(outcome),
        middle,
    );
    inspection_tells_present_from_absent(absolute, uid, middle, Ok(presence), inspected);
    retirement_removes_only_the_expected_intent(absolute, uid, expected, inspected, again, after);
}

} // verus!
