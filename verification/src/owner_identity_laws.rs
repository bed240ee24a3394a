//! What the operations on the owner's identity record and on the database's place do to the host.
use vstd::prelude::*;

use crate::custody::{RecordKind, IDENTITY_RECORD_BYTES};
use crate::durable_registry_sqlite_custody::{
    existing_path_plan, harden_database_plan, prepare_path_plan, DurableRegistrySqliteCustodyError,
};
use crate::host::{
    changed_only, ends, group_custody_steps, group_host_steps, lemma_others_stay,
    lemma_private_directory_stays, lemma_user_directory_stays, same_but, Host,
};
use crate::outside::Place;
use crate::owner_first_setup_bootstrap_inputs::{
    create_identity_plan, decoded_identity, ensure_bootstrap_directories_plan,
    ensure_identity_plan, ensure_record_plan, entropy_plan, identity_from_entropy,
    lemma_decoded_identity, lemma_encoding_is_a_record, lemma_identity_from_entropy_is_canonical,
    lemma_record_has_an_identity,
    load_identity_plan, publish_identity_plan,
    replay_identity_plan, IdentityOutcomeView, OwnerFirstSetupBootstrapInputError,
    OwnerIdentityView,
};
use crate::plan::can_end;
use crate::reliable_host::{
    ends_reliably, group_reliable_reads, lemma_bind, lemma_finish,
    lemma_private_directory_is_accepted, lemma_record_decides, lemma_state_root_is_accepted,
};
use crate::working_host::{
    ends_working, group_working_steps, lemma_ensure_private_directory_working,
    lemma_publish_working, lemma_state_root_working, lemma_working_host,
};

verus! {

/// The identity that the host's record holds, if it holds one.
pub open spec fn stored_identity(host: Host) -> Option<OwnerIdentityView> {
    match host.content(Place::IdentityRecord) {
        Some(content) => match decoded_identity(content) {
            Ok(identity) => Some(identity),
            Err(_) => None,
        },
        None => None,
    }
}

/// The record holds an identity and everything above it is trusted.
pub open spec fn has_sound_identity(
    host: Host,
    absolute: bool,
    uid: u32,
    identity: OwnerIdentityView,
) -> bool {
    &&& absolute
    &&& host.has_user_directory(Place::StateRoot, uid)
    &&& host.has_private_directory(Place::ApplicationDirectory, uid)
    &&& host.has_private_directory(Place::BootstrapDirectory, uid)
    &&& host.has_record(Place::IdentityRecord, RecordKind::Identity, uid)
    &&& stored_identity(host) == Some(identity)
}

/// Loading changes nothing on the host, and loads what the record holds.
pub broadcast proof fn loading_reads_the_stored_identity(
    absolute: bool,
    uid: u32,
    host: Host,
    result: Result<OwnerIdentityView, OwnerFirstSetupBootstrapInputError>,
    after: Host,
)
    requires
        #[trigger] ends(load_identity_plan(absolute, uid), host, result, after),
    ensures
        after == host,
        result matches Ok(identity) ==> has_sound_identity(host, absolute, uid, identity),
{
    broadcast use {group_host_steps, group_custody_steps};

}

broadcast proof fn lemma_replay_identity_ends(
    absolute: bool,
    uid: u32,
    host: Host,
    result: Result<IdentityOutcomeView, OwnerFirstSetupBootstrapInputError>,
    after: Host,
)
    requires
        #[trigger] ends(replay_identity_plan(absolute, uid), host, result, after),
    ensures
        after == host,
        result matches Ok(outcome) ==> outcome matches IdentityOutcomeView::Existing(identity)
            && has_sound_identity(host, absolute, uid, identity),
{
    broadcast use {group_host_steps, loading_reads_the_stored_identity};

}

broadcast proof fn lemma_bootstrap_directories_end(
    absolute: bool,
    uid: u32,
    host: Host,
    result: Result<(), OwnerFirstSetupBootstrapInputError>,
    after: Host,
)
    requires
        #[trigger] ends(ensure_bootstrap_directories_plan(absolute, uid), host, result, after),
    ensures
        same_but(host, after, set![Place::ApplicationDirectory, Place::BootstrapDirectory]),
        result is Ok ==> absolute && after.has_user_directory(Place::StateRoot, uid)
            && after.has_private_directory(Place::ApplicationDirectory, uid)
            && after.has_private_directory(Place::BootstrapDirectory, uid),
{
    broadcast use {group_host_steps, group_custody_steps, lemma_others_stay};

}

broadcast proof fn lemma_publish_identity_ends(
    identity: OwnerIdentityView,
    uid: u32,
    host: Host,
    result: Result<IdentityOutcomeView, OwnerFirstSetupBootstrapInputError>,
    after: Host,
)
    requires
        #[trigger] ends(publish_identity_plan(identity, uid), host, result, after),
        identity.is_canonical(),
    ensures
        host.files.contains_key(Place::IdentityRecord) ==> result is Err
            && after.files.contains_key(Place::IdentityRecord)
            && after.files[Place::IdentityRecord] == host.files[Place::IdentityRecord],
        result matches Ok(outcome) ==> outcome == IdentityOutcomeView::Created(identity)
            && stored_identity(after) == Some(identity) && after.has_record(
            Place::IdentityRecord,
            RecordKind::Identity,
            uid,
        ),
        same_but(host, after, set![Place::IdentityTemporary, Place::IdentityRecord]),
{
    broadcast use {group_host_steps, group_custody_steps};

    lemma_decoded_identity(identity);
}

broadcast proof fn lemma_entropy_ends(
    host: Host,
    drawn: Option<(Seq<u8>, Seq<u8>, Seq<u8>)>,
    after: Host,
)
    requires
        #[trigger] ends(entropy_plan(), host, drawn, after),
    ensures
        after == host,
        drawn matches Some(values) ==> values.0.len() == 16 && values.1.len() == 16
            && values.2.len() == 16,
{
    reveal_with_fuel(can_end, 2);
}

broadcast proof fn lemma_create_identity_ends(
    uid: u32,
    host: Host,
    result: Result<IdentityOutcomeView, OwnerFirstSetupBootstrapInputError>,
    after: Host,
)
    requires
        #[trigger] ends(create_identity_plan(uid), host, result, after),
    ensures
        host.files.contains_key(Place::IdentityRecord) ==> result is Err
            && after.files.contains_key(Place::IdentityRecord)
            && after.files[Place::IdentityRecord] == host.files[Place::IdentityRecord],
        result matches Ok(outcome) ==> outcome matches IdentityOutcomeView::Created(identity)
            && stored_identity(after) == Some(identity) && after.has_record(
            Place::IdentityRecord,
            RecordKind::Identity,
            uid,
        ),
        same_but(host, after, set![Place::IdentityTemporary, Place::IdentityRecord]),
{
    broadcast use {group_host_steps, lemma_entropy_ends, lemma_publish_identity_ends};

    assert forall|workspace: Seq<u8>, user: Seq<u8>, device: Seq<u8>|
        workspace.len() == 16 && user.len() == 16 && device.len() == 16 implies (
    #[trigger] identity_from_entropy(
        workspace,
        user,
        device,
    )).is_canonical() by {
        lemma_identity_from_entropy_is_canonical(workspace, user, device);
    }
}

broadcast proof fn lemma_ensure_record_ends(
    absolute: bool,
    uid: u32,
    host: Host,
    result: Result<IdentityOutcomeView, OwnerFirstSetupBootstrapInputError>,
    after: Host,
)
    requires
        #[trigger] ends(ensure_record_plan(absolute, uid), host, result, after),
    ensures
        host.files.contains_key(Place::IdentityRecord) ==> after.files.contains_key(
            Place::IdentityRecord,
        ) && after.files[Place::IdentityRecord] == host.files[Place::IdentityRecord],
        result matches Ok(outcome) ==> match outcome {
            IdentityOutcomeView::Created(identity) => !host.files.contains_key(
                Place::IdentityRecord,
            ) && stored_identity(after) == Some(identity) && after.has_record(
                Place::IdentityRecord,
                RecordKind::Identity,
                uid,
            ),
            IdentityOutcomeView::Existing(identity) => stored_identity(host) == Some(identity)
                && has_sound_identity(after, absolute, uid, identity),
        },
        same_but(host, after, set![Place::IdentityTemporary, Place::IdentityRecord]),
{
    broadcast use {group_host_steps, lemma_create_identity_ends, lemma_replay_identity_ends};

}

/// An identity is created once. Whatever the outcome, a record that was there is still there,
/// unchanged. Success means that the record holds the identity: it did before, or it was absent
/// and was created now. Nothing but the record, the temporary file beside it and the two
/// directories above it is touched.
#[verifier::spinoff_prover]
pub broadcast proof fn identity_is_created_once(
    absolute: bool,
    uid: u32,
    host: Host,
    result: Result<IdentityOutcomeView, OwnerFirstSetupBootstrapInputError>,
    after: Host,
)
    requires
        #[trigger] ends(ensure_identity_plan(absolute, uid), host, result, after),
    ensures
        host.files.contains_key(Place::IdentityRecord) ==> after.files.contains_key(
            Place::IdentityRecord,
        ) && after.files[Place::IdentityRecord] == host.files[Place::IdentityRecord],
        result matches Ok(outcome) ==> match outcome {
            IdentityOutcomeView::Created(identity) => !host.files.contains_key(
                Place::IdentityRecord,
            ) && has_sound_identity(after, absolute, uid, identity),
            IdentityOutcomeView::Existing(identity) => stored_identity(host) == Some(identity)
                && has_sound_identity(after, absolute, uid, identity),
        },
        same_but(
            host,
            after,
            set![
                Place::ApplicationDirectory,
                Place::BootstrapDirectory,
                Place::IdentityTemporary,
                Place::IdentityRecord,
            ],
        ),
{
    broadcast use {
        group_host_steps,
        lemma_bootstrap_directories_end,
        lemma_ensure_record_ends,
        lemma_user_directory_stays,
        lemma_private_directory_stays,
    };

    let directories = set![Place::ApplicationDirectory, Place::BootstrapDirectory];
    let files = set![Place::IdentityTemporary, Place::IdentityRecord];
    assert forall|place: Place|
        !directories.contains(place) && !files.contains(place) implies (
    #[trigger] after.files.contains_key(place) == host.files.contains_key(place) && (
    host.files.contains_key(place) ==> after.files[place] == host.files[place])) by {}
}

/// Every later run gives the identity that the first run gave, and so does every later load on a
/// host that does not fail.
pub proof fn identity_is_replayed_exactly(
    absolute: bool,
    uid: u32,
    host: Host,
    first: IdentityOutcomeView,
    middle: Host,
    second: IdentityOutcomeView,
    then: Host,
    loaded: Result<OwnerIdentityView, OwnerFirstSetupBootstrapInputError>,
    after: Host,
)
    requires
        ends(ensure_identity_plan(absolute, uid), host, Ok(first), middle),
        ends(ensure_identity_plan(absolute, uid), middle, Ok(second), then),
        ends_reliably(load_identity_plan(absolute, uid), then, loaded, after),
    ensures
        second == IdentityOutcomeView::Existing(first.identity()),
        loaded == Ok::<_, OwnerFirstSetupBootstrapInputError>(first.identity()),
{
    broadcast use group_reliable_reads;

    identity_is_created_once(absolute, uid, host, Ok(first), middle);
    identity_is_created_once(absolute, uid, middle, Ok(second), then);
}

/// The place of an identity can be used: the root is trusted, and each directory below it is
/// either trusted or absent.
pub open spec fn identity_place_is_usable(host: Host, absolute: bool, uid: u32) -> bool {
    &&& absolute
    &&& host.has_user_directory(Place::StateRoot, uid)
    &&& host.files.contains_key(Place::ApplicationDirectory) ==> host.has_private_directory(
        Place::ApplicationDirectory,
        uid,
    )
    &&& host.files.contains_key(Place::BootstrapDirectory) ==> host.has_private_directory(
        Place::BootstrapDirectory,
        uid,
    )
}

broadcast proof fn lemma_usable_directories_are_ensured(
    absolute: bool,
    uid: u32,
    host: Host,
    result: Result<(), OwnerFirstSetupBootstrapInputError>,
    after: Host,
)
    requires
        #[trigger] ends_working(
            uid,
            ensure_bootstrap_directories_plan(absolute, uid),
            host,
            result,
            after,
        ),
        identity_place_is_usable(host, absolute, uid),
    ensures
        result is Ok,
        identity_place_is_trusted(after, absolute, uid),
        same_but(host, after, set![Place::ApplicationDirectory, Place::BootstrapDirectory]),
        host.files.contains_key(Place::ApplicationDirectory) && host.files.contains_key(
            Place::BootstrapDirectory,
        ) ==> after == host,
{
    broadcast use {
        group_working_steps,
        lemma_state_root_working,
        lemma_ensure_private_directory_working,
        lemma_others_stay,
    };

}

broadcast proof fn lemma_entropy_is_drawn(
    uid: u32,
    host: Host,
    drawn: Option<(Seq<u8>, Seq<u8>, Seq<u8>)>,
    after: Host,
)
    requires
        #[trigger] ends_working(uid, entropy_plan(), host, drawn, after),
    ensures
        after == host,
        drawn matches Some(values) && values.0.len() == 16 && values.1.len() == 16
            && values.2.len() == 16,
{
    reveal_with_fuel(can_end, 2);
}

broadcast proof fn lemma_absent_identity_is_published(
    uid: u32,
    host: Host,
    result: Result<IdentityOutcomeView, OwnerFirstSetupBootstrapInputError>,
    after: Host,
)
    requires
        #[trigger] ends_working(uid, create_identity_plan(uid), host, result, after),
        !host.files.contains_key(Place::IdentityRecord),
        !host.files.contains_key(Place::IdentityTemporary),
        host.files.contains_key(Place::BootstrapDirectory),
    ensures
        result matches Ok(IdentityOutcomeView::Created(_)),
{
    broadcast use {group_working_steps, lemma_entropy_is_drawn, lemma_publish_working};

    assert forall|workspace: Seq<u8>, user: Seq<u8>, device: Seq<u8>|
        workspace.len() == 16 && user.len() == 16 && device.len() == 16 implies (
    #[trigger] identity_from_entropy(workspace, user, device)).encoded().len()
        == IDENTITY_RECORD_BYTES by {
        lemma_identity_from_entropy_is_canonical(workspace, user, device);
        lemma_encoding_is_a_record(identity_from_entropy(workspace, user, device));
    }
}

/// The identity's directories are trusted.
pub open spec fn identity_place_is_trusted(host: Host, absolute: bool, uid: u32) -> bool {
    &&& absolute
    &&& host.has_user_directory(Place::StateRoot, uid)
    &&& host.has_private_directory(Place::ApplicationDirectory, uid)
    &&& host.has_private_directory(Place::BootstrapDirectory, uid)
}

/// What loading the identity comes to: the record has to be there, be trusted, and be well formed.
pub open spec fn loaded_identity(host: Host, uid: u32) -> Result<
    OwnerIdentityView,
    OwnerFirstSetupBootstrapInputError,
> {
    if !host.files.contains_key(Place::IdentityRecord) {
        Err(OwnerFirstSetupBootstrapInputError::LogicalIdentityRecordUnavailable)
    } else if !host.has_record(Place::IdentityRecord, RecordKind::Identity, uid) {
        Err(OwnerFirstSetupBootstrapInputError::LogicalIdentityRecordInsecure)
    } else {
        match stored_identity(host) {
            Some(identity) => Ok(identity),
            None => Err(OwnerFirstSetupBootstrapInputError::MalformedLogicalIdentityRecord),
        }
    }
}

/// On a host that does not fail, loading gives exactly what the record decides: its identity, or
/// that it is missing, not trusted or malformed. Nothing changes.
pub broadcast proof fn loading_is_decided_by_the_record(
    absolute: bool,
    uid: u32,
    host: Host,
    result: Result<OwnerIdentityView, OwnerFirstSetupBootstrapInputError>,
    after: Host,
)
    requires
        #[trigger] ends_reliably(load_identity_plan(absolute, uid), host, result, after),
        identity_place_is_trusted(host, absolute, uid),
    ensures
        after == host,
        result == loaded_identity(host, uid),
{
    broadcast use {
        lemma_finish,
        lemma_bind,
        lemma_state_root_is_accepted,
        lemma_private_directory_is_accepted,
        lemma_record_decides,
    };

}

/// On a host that works, an existing record decides what ensuring an identity comes to, and stays
/// as it is: a trusted and well-formed one is found existing and never made anew, a malformed one
/// is refused as malformed, and one that is not trusted as insecure. No more than the two
/// directories above it can change, and those only where one was missing.
pub proof fn existing_identity_decides(
    absolute: bool,
    uid: u32,
    host: Host,
    result: Result<IdentityOutcomeView, OwnerFirstSetupBootstrapInputError>,
    after: Host,
)
    requires
        ends_working(uid, ensure_identity_plan(absolute, uid), host, result, after),
        identity_place_is_usable(host, absolute, uid),
        host.files.contains_key(Place::IdentityRecord),
    ensures
        result == (match loaded_identity(host, uid) {
            Ok(identity) => Ok(IdentityOutcomeView::Existing(identity)),
            Err(error) => Err(error),
        }),
        same_but(host, after, set![Place::ApplicationDirectory, Place::BootstrapDirectory]),
        after.files.contains_key(Place::IdentityRecord) && after.files[Place::IdentityRecord]
            == host.files[Place::IdentityRecord],
        identity_place_is_trusted(host, absolute, uid) ==> after == host,
{
    broadcast use {
        group_working_steps,
        lemma_usable_directories_are_ensured,
        lemma_replay_is_decided,
    };

    let directories = set![Place::ApplicationDirectory, Place::BootstrapDirectory];
    assert(!directories.contains(Place::IdentityRecord));
}

broadcast proof fn lemma_replay_is_decided(
    absolute: bool,
    uid: u32,
    host: Host,
    result: Result<IdentityOutcomeView, OwnerFirstSetupBootstrapInputError>,
    after: Host,
)
    requires
        #[trigger] ends_working(uid, replay_identity_plan(absolute, uid), host, result, after),
        identity_place_is_trusted(host, absolute, uid),
    ensures
        after == host,
        result == (match loaded_identity(host, uid) {
            Ok(identity) => Ok(IdentityOutcomeView::Existing(identity)),
            Err(error) => Err(error),
        }),
{
    broadcast use {lemma_finish, lemma_bind, loading_is_decided_by_the_record};

    lemma_working_host(uid, replay_identity_plan(absolute, uid), host, result, after);
}

/// On a host that works, an identity that is absent is created, the file is its encoding, and every
/// repeat finds exactly that identity existing and changes nothing.
pub proof fn absent_identity_is_created_and_then_found(
    absolute: bool,
    uid: u32,
    host: Host,
    first: Result<IdentityOutcomeView, OwnerFirstSetupBootstrapInputError>,
    middle: Host,
    second: Result<IdentityOutcomeView, OwnerFirstSetupBootstrapInputError>,
    after: Host,
)
    requires
        identity_place_is_usable(host, absolute, uid),
        !host.files.contains_key(Place::IdentityRecord),
        !host.files.contains_key(Place::IdentityTemporary),
        ends_working(uid, ensure_identity_plan(absolute, uid), host, first, middle),
        ends_working(uid, ensure_identity_plan(absolute, uid), middle, second, after),
    ensures
        first matches Ok(IdentityOutcomeView::Created(identity)) && has_sound_identity(
            middle,
            absolute,
            uid,
            identity,
        ) && middle.content(Place::IdentityRecord) == Some(identity.encoded()) && second == Ok::<_, OwnerFirstSetupBootstrapInputError>(
            IdentityOutcomeView::Existing(identity),
        ),
        after == middle,
{
    lemma_absent_identity_is_created(absolute, uid, host, first, middle);
    existing_identity_decides(absolute, uid, middle, second, after);
    let content = middle.files[Place::IdentityRecord].content;
    lemma_record_has_an_identity(content);
}

pub proof fn lemma_absent_identity_is_created(
    absolute: bool,
    uid: u32,
    host: Host,
    result: Result<IdentityOutcomeView, OwnerFirstSetupBootstrapInputError>,
    after: Host,
)
    requires
        identity_place_is_usable(host, absolute, uid),
        !host.files.contains_key(Place::IdentityRecord),
        !host.files.contains_key(Place::IdentityTemporary),
        ends_working(uid, ensure_identity_plan(absolute, uid), host, result, after),
    ensures
        result matches Ok(IdentityOutcomeView::Created(identity)) && has_sound_identity(
            after,
            absolute,
            uid,
            identity,
        ),
{
    broadcast use {
        group_working_steps,
        lemma_usable_directories_are_ensured,
        lemma_absent_identity_is_published,
    };

    let directories = set![Place::ApplicationDirectory, Place::BootstrapDirectory];
    assert(!directories.contains(Place::IdentityRecord));
    assert(!directories.contains(Place::IdentityTemporary));
    lemma_working_host(uid, ensure_identity_plan(absolute, uid), host, result, after);
    identity_is_created_once(absolute, uid, host, result, after);
}

/// Checking the established place of the database creates and changes nothing.
pub broadcast proof fn established_database_place_is_only_checked(
    absolute: bool,
    uid: u32,
    host: Host,
    result: Result<(), DurableRegistrySqliteCustodyError>,
    after: Host,
)
    requires
        #[trigger] ends(existing_path_plan(absolute, uid), host, result, after),
    ensures
        after == host,
        result is Ok ==> host.files.contains_key(Place::Database),
{
    broadcast use {group_host_steps, group_custody_steps};

}

/// Preparing the place of the database makes its two directories at most. It never creates,
/// changes or removes the database.
pub broadcast proof fn preparing_the_database_place_makes_directories_only(
    absolute: bool,
    uid: u32,
    host: Host,
    result: Result<(), DurableRegistrySqliteCustodyError>,
    after: Host,
)
    requires
        #[trigger] ends(prepare_path_plan(absolute, uid), host, result, after),
    ensures
        same_but(host, after, set![Place::ApplicationDirectory, Place::DatabaseDirectory]),
{
    broadcast use {group_host_steps, group_custody_steps, lemma_others_stay};

}

/// Closing the database to others keeps what it holds and touches nothing else.
pub broadcast proof fn hardening_keeps_the_database(
    uid: u32,
    host: Host,
    result: Result<(), DurableRegistrySqliteCustodyError>,
    after: Host,
)
    requires
        #[trigger] ends(harden_database_plan(uid), host, result, after),
    ensures
        changed_only(host, after, Place::Database),
        after.content(Place::Database) == host.content(Place::Database),
{
    broadcast use group_host_steps;

}

} // verus!
