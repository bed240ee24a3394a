//! What the records of the setup decide, stated on their bytes and metadata.
use vstd::prelude::*;
use vstd::utf8::encode_utf8;

use crate::custody::RecordKind;
use crate::custody_laws::{
    private_means_closed_to_others, token_names_its_selection,
    trusted_record_is_private_and_of_its_size,
};
use crate::domain::PublicIdentityView;
use crate::environment::HostEnvironment;
use crate::host::{lemma_finish_ends, Host};
use crate::installation::{ends, group_startup_steps, Installation};
use crate::outside::Place;
use crate::owner_first_run_orchestration::{
    orchestration_and_retirement_plan, OwnerFirstRunOrchestrationAndRetirementOutcome,
    OwnerFirstRunOrchestrationError,
};
use crate::owner_first_run_setup_intent::{
    ensure_intent_plan, inspect_intent_plan, load_intent_plan, retire_intent_plan,
    OwnerFirstRunSetupIntentError, OwnerFirstRunSetupIntentPresence,
    OwnerFirstRunSetupIntentRetirementOutcome, OwnerFirstRunSetupIntentWriteOutcome,
};
use crate::owner_first_setup_bootstrap_inputs::{
    ensure_identity_plan, load_identity_plan, IdentityOutcomeView,
    OwnerFirstSetupBootstrapInputError, OwnerIdentityView,
};
use crate::owner_first_setup_custody_policy_orchestration::OwnerFirstSetupTransportCustodySelection;
use crate::owner_identity_laws::{existing_identity_decides, identity_place_is_trusted};
use crate::owner_setup_laws::record_is_read_as_its_identity;
use crate::reliable_host::ends_reliably;
use crate::setup_intent_laws::{
    existing_intent_decides_the_write, has_sound_intent, inspection_is_decided_by_the_record,
    intent_place_is_trusted, loading_reads_the_stored_intent, retirement_is_decided_by_the_record,
};
use crate::working_host::ends_working;

verus! {

/// A regular file of the user that nobody else may use is at the place.
pub open spec fn has_private_file(host: Host, place: Place, uid: u32) -> bool {
    &&& host.files.contains_key(place)
    &&& !host.files[place].metadata.is_symlink
    &&& host.files[place].metadata.is_file
    &&& host.files[place].metadata.uid == uid
    &&& host.files[place].metadata.mode & 0o777 == 0o600
}

/// The words for a selection in its record.
pub open spec fn words_of(selection: OwnerFirstSetupTransportCustodySelection) -> Seq<u8> {
    match selection {
        OwnerFirstSetupTransportCustodySelection::PreferredDefault => encode_utf8(
            "preferred-default-v1\n"@,
        ),
        OwnerFirstSetupTransportCustodySelection::ExplicitHostKeyOnlyFallback => encode_utf8(
            "explicit-host-key-only-fallback-v1\n"@,
        ),
    }
}

/// The intent is there as a private file of a size that an intent can have.
pub open spec fn has_intent_file(host: Host, uid: u32) -> bool {
    &&& has_private_file(host, Place::IntentRecord, uid)
    &&& host.files[Place::IntentRecord].metadata.len == 21
        || host.files[Place::IntentRecord].metadata.len == 35
}

proof fn lemma_intent_file(host: Host, uid: u32)
    ensures
        has_intent_file(host, uid) <==> host.has_record(
            Place::IntentRecord,
            RecordKind::Intent,
            uid,
        ),
{
    if host.files.contains_key(Place::IntentRecord) {
        let metadata = host.files[Place::IntentRecord].metadata;
        private_means_closed_to_others(metadata, metadata, uid);
        trusted_record_is_private_and_of_its_size(metadata, uid);
    }
}

/// On a host that does not fail, below trusted directories, the intent is loaded as the selection
/// whose words it holds. A record that is missing, not a private file of its size, or that holds
/// anything else is each refused by its own error.
pub proof fn intent_is_loaded_as_its_words(
    uid: u32,
    selection: OwnerFirstSetupTransportCustodySelection,
    host: Host,
    result: Result<OwnerFirstSetupTransportCustodySelection, OwnerFirstRunSetupIntentError>,
    after: Host,
)
    requires
        ends_reliably(load_intent_plan(true, uid), host, result, after),
        intent_place_is_trusted(host, true, uid),
    ensures
        after == host,
        !host.files.contains_key(Place::IntentRecord) ==> result == Err::<
            OwnerFirstSetupTransportCustodySelection,
            _,
        >(OwnerFirstRunSetupIntentError::IntentRecordUnavailable),
        host.files.contains_key(Place::IntentRecord) && !has_intent_file(host, uid) ==> result
            == Err::<OwnerFirstSetupTransportCustodySelection, _>(
            OwnerFirstRunSetupIntentError::IntentRecordInsecure,
        ),
        has_intent_file(host, uid) ==> (result == Ok::<_, OwnerFirstRunSetupIntentError>(selection)
            <==> host.files[Place::IntentRecord].content == words_of(selection)),
        has_intent_file(host, uid) && result is Err ==> result == Err::<
            OwnerFirstSetupTransportCustodySelection,
            _,
        >(OwnerFirstRunSetupIntentError::MalformedIntentRecord),
{
    lemma_intent_file(host, uid);
    crate::setup_intent_laws::loading_is_decided_by_the_record(true, uid, host, result, after);
    token_names_its_selection(host.files[Place::IntentRecord].content);
}

/// On a host that does not fail, below trusted directories, an intent is reported as present exactly
/// when it can be loaded, and as absent exactly when there is no record.
pub proof fn presence_is_told_by_the_record(
    uid: u32,
    host: Host,
    result: Result<OwnerFirstRunSetupIntentPresence, OwnerFirstRunSetupIntentError>,
    after: Host,
)
    requires
        ends_reliably(inspect_intent_plan(true, uid), host, result, after),
        intent_place_is_trusted(host, true, uid),
    ensures
        after == host,
        result == Ok::<_, OwnerFirstRunSetupIntentError>(OwnerFirstRunSetupIntentPresence::Absent)
            <==> !host.files.contains_key(Place::IntentRecord),
        result == Ok::<_, OwnerFirstRunSetupIntentError>(OwnerFirstRunSetupIntentPresence::Present)
            <==> has_intent_file(host, uid) && (host.files[Place::IntentRecord].content == words_of(
            OwnerFirstSetupTransportCustodySelection::PreferredDefault,
        ) || host.files[Place::IntentRecord].content == words_of(
            OwnerFirstSetupTransportCustodySelection::ExplicitHostKeyOnlyFallback,
        )),
{
    lemma_intent_file(host, uid);
    inspection_is_decided_by_the_record(true, uid, host, result, after);
    token_names_its_selection(host.files[Place::IntentRecord].content);
}

/// On a host that works, below trusted directories, writing an intent over one that is there succeeds
/// exactly for the same selection, is in conflict with the other one, and never changes the record.
pub proof fn intent_is_not_written_over_another(
    uid: u32,
    stored: OwnerFirstSetupTransportCustodySelection,
    selection: OwnerFirstSetupTransportCustodySelection,
    host: Host,
    result: Result<OwnerFirstRunSetupIntentWriteOutcome, OwnerFirstRunSetupIntentError>,
    after: Host,
)
    requires
        ends_working(uid, ensure_intent_plan(true, uid, selection), host, result, after),
        intent_place_is_trusted(host, true, uid),
        has_intent_file(host, uid),
        host.files[Place::IntentRecord].content == words_of(stored),
    ensures
        after == host,
        stored == selection ==> result == Ok::<_, OwnerFirstRunSetupIntentError>(
            OwnerFirstRunSetupIntentWriteOutcome::Existing(selection),
        ),
        stored != selection ==> result == Err::<OwnerFirstRunSetupIntentWriteOutcome, _>(
            OwnerFirstRunSetupIntentError::ConflictingIntentRecord,
        ),
{
    lemma_intent_file(host, uid);
    token_names_its_selection(host.files[Place::IntentRecord].content);
    existing_intent_decides_the_write(true, uid, selection, host, result, after);
}

/// On a host that works, below trusted directories, an intent is retired exactly when it is the
/// expected one: its record is then gone and nothing else changed. The other one is in conflict and
/// stays, and where there is none it was retired already.
pub proof fn only_the_expected_intent_is_retired(
    uid: u32,
    stored: OwnerFirstSetupTransportCustodySelection,
    expected: OwnerFirstSetupTransportCustodySelection,
    host: Host,
    result: Result<OwnerFirstRunSetupIntentRetirementOutcome, OwnerFirstRunSetupIntentError>,
    after: Host,
)
    requires
        ends_working(uid, retire_intent_plan(true, uid, expected), host, result, after),
        intent_place_is_trusted(host, true, uid),
    ensures
        !host.files.contains_key(Place::IntentRecord) ==> after == host && result == Ok::<
            _,
            OwnerFirstRunSetupIntentError,
        >(OwnerFirstRunSetupIntentRetirementOutcome::AlreadyRetired),
        has_intent_file(host, uid) && host.files[Place::IntentRecord].content == words_of(stored)
            ==> {
            &&& stored == expected ==> {
                &&& result == Ok::<_, OwnerFirstRunSetupIntentError>(
                    OwnerFirstRunSetupIntentRetirementOutcome::Retired(expected),
                )
                &&& after.files == host.files.remove(Place::IntentRecord)
            }
            &&& stored != expected ==> {
                &&& result == Err::<OwnerFirstRunSetupIntentRetirementOutcome, _>(
                    OwnerFirstRunSetupIntentError::ConflictingIntentRecord,
                )
                &&& after == host
            }
        },
{
    lemma_intent_file(host, uid);
    if host.files.contains_key(Place::IntentRecord) {
        token_names_its_selection(host.files[Place::IntentRecord].content);
    }
    retirement_is_decided_by_the_record(true, uid, expected, host, result, after);
}

/// The identity is there as a private file of 110 bytes.
pub open spec fn has_identity_file(host: Host, uid: u32) -> bool {
    &&& has_private_file(host, Place::IdentityRecord, uid)
    &&& host.files[Place::IdentityRecord].metadata.len == 110
}

proof fn lemma_identity_file(host: Host, uid: u32)
    ensures
        has_identity_file(host, uid) <==> host.has_record(
            Place::IdentityRecord,
            RecordKind::Identity,
            uid,
        ),
{
    if host.files.contains_key(Place::IdentityRecord) {
        let metadata = host.files[Place::IdentityRecord].metadata;
        private_means_closed_to_others(metadata, metadata, uid);
        trusted_record_is_private_and_of_its_size(metadata, uid);
    }
}

/// On a host that does not fail, below trusted directories, the identity is loaded as the one whose
/// record it is. A record that is missing, not a private file of its size, or malformed is each
/// refused by its own error.
pub proof fn identity_is_loaded_as_its_record(
    uid: u32,
    identity: OwnerIdentityView,
    host: Host,
    result: Result<OwnerIdentityView, OwnerFirstSetupBootstrapInputError>,
    after: Host,
)
    requires
        ends_reliably(load_identity_plan(true, uid), host, result, after),
        identity_place_is_trusted(host, true, uid),
    ensures
        after == host,
        !host.files.contains_key(Place::IdentityRecord) ==> result == Err::<OwnerIdentityView, _>(
            OwnerFirstSetupBootstrapInputError::LogicalIdentityRecordUnavailable,
        ),
        host.files.contains_key(Place::IdentityRecord) && !has_identity_file(host, uid) ==> result
            == Err::<OwnerIdentityView, _>(
            OwnerFirstSetupBootstrapInputError::LogicalIdentityRecordInsecure,
        ),
        has_identity_file(host, uid) ==> (result == Ok::<_, OwnerFirstSetupBootstrapInputError>(
            identity,
        ) <==> identity.is_canonical() && host.files[Place::IdentityRecord].content
            == identity.encoded()),
        has_identity_file(host, uid) && result is Err ==> result == Err::<OwnerIdentityView, _>(
            OwnerFirstSetupBootstrapInputError::MalformedLogicalIdentityRecord,
        ),
{
    lemma_identity_file(host, uid);
    crate::owner_identity_laws::loading_is_decided_by_the_record(true, uid, host, result, after);
    record_is_read_as_its_identity(host.files[Place::IdentityRecord].content, identity);
}

/// On a host that works, below trusted directories, an identity that is there is found as it is, and
/// one that cannot be used is refused and never replaced.
pub proof fn identity_is_never_replaced(
    uid: u32,
    identity: OwnerIdentityView,
    host: Host,
    result: Result<IdentityOutcomeView, OwnerFirstSetupBootstrapInputError>,
    after: Host,
)
    requires
        ends_working(uid, ensure_identity_plan(true, uid), host, result, after),
        identity_place_is_trusted(host, true, uid),
        host.files.contains_key(Place::IdentityRecord),
    ensures
        after == host,
        !has_identity_file(host, uid) ==> result == Err::<IdentityOutcomeView, _>(
            OwnerFirstSetupBootstrapInputError::LogicalIdentityRecordInsecure,
        ),
        has_identity_file(host, uid) && identity.is_canonical()
            && host.files[Place::IdentityRecord].content == identity.encoded() ==> result == Ok::<
            _,
            OwnerFirstSetupBootstrapInputError,
        >(IdentityOutcomeView::Existing(identity)),
        has_identity_file(host, uid) && result is Err ==> result == Err::<IdentityOutcomeView, _>(
            OwnerFirstSetupBootstrapInputError::MalformedLogicalIdentityRecord,
        ),
        result matches Ok(outcome) ==> outcome is Existing,
{
    lemma_identity_file(host, uid);
    existing_identity_decides(true, uid, host, result, after);
    record_is_read_as_its_identity(host.files[Place::IdentityRecord].content, identity);
}

/// A first run that was completed ran an intent that was sound for the effective user.
pub proof fn completed_first_run_had_a_sound_intent(
    public_device_identity: PublicIdentityView,
    environment: HostEnvironment,
    before: Installation,
    result: Result<OwnerFirstRunOrchestrationAndRetirementOutcome, OwnerFirstRunOrchestrationError>,
    after: Installation,
)
    requires
        ends(
            orchestration_and_retirement_plan(public_device_identity, environment),
            before,
            result,
            after,
        ),
        result is Ok,
    ensures
        exists|selection: OwnerFirstSetupTransportCustodySelection| #[trigger]
            has_sound_intent(before.host, true, environment.euid, selection),
{
    broadcast use {group_startup_steps, loading_reads_the_stored_intent, lemma_finish_ends};

}

} // verus!
