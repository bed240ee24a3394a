//! The single steps of custody: what is asked of the host in which order, and what is done when a
//! file turns out to be another than the one that was looked at.
use vstd::prelude::*;

use crate::custody::{
    create_directory_plan, ensure_private_directory_plan, ensure_user_directory_plan,
    prepare_private_directory_plan, publish_plan, settle_plan, withdraw_plan,
    write_temporary_plan, RecordKind,
};
use crate::domain::TransportIdentity;
use crate::durable_registry_sqlite_custody::{
    harden_database_plan, DurableRegistrySqliteCustodyError,
};
use crate::outside::{FileMetadata, Lookup, OutsideReply, OutsideRequest, Place};
use crate::owner_first_run_setup_intent::{
    remove_intent_plan, OwnerFirstRunSetupIntentError, OwnerFirstRunSetupIntentRetirementOutcome,
};
use crate::owner_first_setup_bootstrap_inputs::{
    create_identity_plan, identity_from_entropy, IdentityOutcomeView,
    OwnerFirstSetupBootstrapInputError,
};
use crate::owner_first_setup_custody_policy_orchestration::OwnerFirstSetupTransportCustodySelection;
use crate::plan::{follow, lemma_follow_bind, Progress};
use crate::transport_identity_custody::derived_identity;
use crate::transport_identity_provisioning::{
    generate_key_plan, hardened_ciphertext, opened_ciphertext, TransportIdentityProvisioningError,
    TransportIdentityRecoveryError,
};
use crate::transport_identity_recovery::decrypt_plan;

verus! {

pub type HostReply = OutsideReply<Seq<u8>>;

pub type Course<R> = Progress<OutsideRequest<Seq<u8>>, R>;

proof fn lemma_rest(one: HostReply, two: HostReply, three: HostReply)
    ensures
        seq![one, two, three].drop_first() == seq![two, three],
        seq![two, three].drop_first() == seq![three],
        seq![one, two].drop_first() == seq![two],
        seq![one].drop_first() == Seq::<HostReply>::empty(),
        seq![two].drop_first() == Seq::<HostReply>::empty(),
        seq![three].drop_first() == Seq::<HostReply>::empty(),
{
    assert(seq![one, two, three].drop_first() =~= seq![two, three]);
    assert(seq![two, three].drop_first() =~= seq![three]);
    assert(seq![one, two].drop_first() =~= seq![two]);
    assert(seq![one].drop_first() =~= Seq::<HostReply>::empty());
    assert(seq![two].drop_first() =~= Seq::<HostReply>::empty());
    assert(seq![three].drop_first() =~= Seq::<HostReply>::empty());
}

/// A directory is made and then closed to everybody else; it is made exactly when both were done.
pub proof fn directory_is_made_private(place: Place, made: HostReply, closed_off: HostReply)
    ensures
        follow(create_directory_plan(place), Seq::empty()).0 == Course::<bool>::Waiting(
            OutsideRequest::CreateDirectory(place),
        ),
        made is Completed ==> follow(create_directory_plan(place), seq![made]).0 == Course::<
            bool,
        >::Waiting(OutsideRequest::SetMode(place, 0o700)),
        follow(create_directory_plan(place), seq![made, closed_off]).0 == Course::<bool>::Done(
            made is Completed && closed_off is Completed,
        ),
{
    broadcast use lemma_follow_bind;

    reveal_with_fuel(follow, 3);
    lemma_rest(made, closed_off, made);
}

/// A temporary record is created for the user alone, closed to everybody else before anything is
/// written, and then written and forced to disk.
pub proof fn temporary_record_is_private_before_it_is_written<E>(
    temporary: Place,
    payload: Seq<u8>,
    kind: RecordKind,
    uid: u32,
    write_failed: E,
    metadata: FileMetadata,
)
    ensures
        ({
            let plan = write_temporary_plan(temporary, payload, kind, uid, write_failed);
            let done = HostReply::Completed;
            &&& follow(plan, Seq::empty()).0 == Course::<Result<FileMetadata, E>>::Waiting(
                OutsideRequest::CreateNew(temporary, 0o600),
            )
            &&& follow(plan, seq![done]).0 == Course::<Result<FileMetadata, E>>::Waiting(
                OutsideRequest::SetOpenedMode(temporary, 0o600),
            )
            &&& follow(plan, seq![done, done]).0 == Course::<Result<FileMetadata, E>>::Waiting(
                OutsideRequest::WriteAndSync(temporary, payload),
            )
            &&& follow(plan, seq![done, done, done]).0 == Course::<Result<FileMetadata, E>>::Waiting(
                OutsideRequest::OpenedMetadata(temporary),
            )
            &&& follow(plan, seq![done, done, done] + seq![HostReply::Metadata(metadata)]).0
                == Course::<Result<FileMetadata, E>>::Done(
                if kind.accepts(metadata, uid) {
                    Ok(metadata)
                } else {
                    Err(write_failed)
                },
            )
        }),
{
    broadcast use lemma_follow_bind;

    reveal_with_fuel(follow, 3);
    let done = HostReply::Completed;
    lemma_rest(done, done, done);
    let all = seq![done, done, done] + seq![HostReply::Metadata(metadata)];
    assert(all.drop_first() =~= seq![done, done, HostReply::Metadata(metadata)]);
    lemma_rest(done, done, HostReply::Metadata(metadata));
}

/// A finished record is renamed into place without replacing anything. It stays exactly when what is
/// in place then is trusted, is the very file that was written, and the directory was made durable;
/// otherwise it is taken away again.
pub proof fn settled_record_is_the_written_one<E>(
    from: Place,
    to: Place,
    directory: Place,
    written: FileMetadata,
    kind: RecordKind,
    uid: u32,
    commit_failed: E,
    sync_failed: E,
    settled: FileMetadata,
    other: HostReply,
)
    ensures
        ({
            let plan = settle_plan(
                from,
                to,
                directory,
                written,
                kind,
                uid,
                commit_failed,
                sync_failed,
            );
            let done = HostReply::Completed;
            let found = HostReply::Metadata(settled);
            let kept = kind.accepts(settled, uid) && settled.device == written.device
                && settled.inode == written.inode;
            &&& follow(plan, Seq::empty()).0 == Course::<Result<(), E>>::Waiting(
                OutsideRequest::RenameNoReplace(from, to),
            )
            &&& !(other is Completed) ==> {
                &&& follow(plan, seq![other]).0 == Course::<Result<(), E>>::Waiting(
                    OutsideRequest::Remove(from),
                )
                &&& follow(plan, seq![other, done]).0 == Course::<Result<(), E>>::Done(
                    Err(commit_failed),
                )
            }
            &&& follow(plan, seq![done]).0 == Course::<Result<(), E>>::Waiting(
                OutsideRequest::Metadata(to),
            )
            &&& kept ==> {
                &&& follow(plan, seq![done, found]).0 == Course::<Result<(), E>>::Waiting(
                    OutsideRequest::SyncDirectory(directory),
                )
                &&& follow(plan, seq![done, found, done]).0 == Course::<Result<(), E>>::Done(Ok(()))
                &&& !(other is Completed) ==> follow(plan, seq![done, found, other]).0 == Course::<
                    Result<(), E>,
                >::Waiting(OutsideRequest::Remove(to))
            }
            &&& !kept ==> follow(plan, seq![done, found]).0 == Course::<Result<(), E>>::Waiting(
                OutsideRequest::Remove(to),
            )
        }),
{
    broadcast use lemma_follow_bind;

    reveal_with_fuel(follow, 3);
    let done = HostReply::Completed;
    let found = HostReply::Metadata(settled);
    lemma_rest(done, found, done);
    lemma_rest(done, found, other);
    lemma_rest(other, done, done);
}

/// A record that is taken away is removed and its directory made durable, and the failure stands
/// whatever comes of that.
pub proof fn withdrawn_record_fails_all_the_same<R, E>(
    place: Place,
    directory: Place,
    error: E,
    removed: HostReply,
    synced: HostReply,
)
    ensures
        follow(withdraw_plan::<R, E>(place, directory, error), Seq::empty()).0 == Course::<
            Result<R, E>,
        >::Waiting(OutsideRequest::Remove(place)),
        follow(withdraw_plan::<R, E>(place, directory, error), seq![removed]).0 == Course::<
            Result<R, E>,
        >::Waiting(OutsideRequest::SyncDirectory(directory)),
        follow(withdraw_plan::<R, E>(place, directory, error), seq![removed, synced]).0 == Course::<
            Result<R, E>,
        >::Done(Err(error)),
{
    broadcast use lemma_follow_bind;

    reveal_with_fuel(follow, 3);
    lemma_rest(removed, synced, removed);
}

/// An intent is removed only when it is still trusted and still the very file that was read. One that
/// was exchanged is refused and stays.
pub proof fn exchanged_intent_is_not_removed(
    before: FileMetadata,
    still: FileMetadata,
    uid: u32,
    selection: OwnerFirstSetupTransportCustodySelection,
)
    ensures
        follow(remove_intent_plan(before, uid, selection), seq![HostReply::Metadata(still)]).0 == (
        if RecordKind::Intent.accepts(still, uid) && still.device == before.device && still.inode
            == before.inode {
            Progress::Waiting(OutsideRequest::Remove(Place::IntentRecord))
        } else {
            Course::<
                Result<OwnerFirstRunSetupIntentRetirementOutcome, OwnerFirstRunSetupIntentError>,
            >::Done(Err(OwnerFirstRunSetupIntentError::IntentRecordInsecure))
        }),
{
    broadcast use lemma_follow_bind;

    reveal_with_fuel(follow, 3);
    lemma_rest(HostReply::Metadata(still), HostReply::Completed, HostReply::Completed);
}

/// A removed intent has to be gone, and its directory made durable, before it counts as retired.
pub proof fn retired_intent_is_seen_to_be_gone(
    before: FileMetadata,
    uid: u32,
    selection: OwnerFirstSetupTransportCustodySelection,
    found: HostReply,
    synced: HostReply,
)
    requires
        RecordKind::Intent.accepts(before, uid),
    ensures
        ({
            let plan = remove_intent_plan(before, uid, selection);
            let removed = seq![HostReply::Metadata(before), HostReply::Completed];
            &&& follow(plan, removed).0 == Course::<
                Result<OwnerFirstRunSetupIntentRetirementOutcome, OwnerFirstRunSetupIntentError>,
            >::Waiting(OutsideRequest::Metadata(Place::IntentRecord))
            &&& follow(plan, removed + seq![found, synced]).0 == Course::<
                Result<OwnerFirstRunSetupIntentRetirementOutcome, OwnerFirstRunSetupIntentError>,
            >::Done(
                if !(found is NotFound) {
                    Err(OwnerFirstRunSetupIntentError::IntentRecordRetirementFailed)
                } else if synced is Completed {
                    Ok(OwnerFirstRunSetupIntentRetirementOutcome::Retired(selection))
                } else {
                    Err(OwnerFirstRunSetupIntentError::DirectorySyncFailed)
                },
            )
        }),
{
    broadcast use lemma_follow_bind;

    reveal_with_fuel(follow, 3);
    let first = HostReply::Metadata(before);
    let done = HostReply::Completed;
    lemma_rest(first, done, done);
    let all = seq![first, done] + seq![found, synced];
    assert(all.drop_first() =~= seq![done, found, synced]);
    lemma_rest(done, found, synced);
}

/// The ciphertext that the helper wrote is accepted exactly when it is the file that was looked at
/// before, and it is hardened when it is still that file and private.
pub proof fn exchanged_ciphertext_is_refused(before: FileMetadata, after: FileMetadata, uid: u32)
    ensures
        opened_ciphertext(before, Lookup::Found(after), uid) == Ok::<
            _,
            TransportIdentityProvisioningError,
        >(after) <==> !after.is_symlink && after.is_file && after.uid == uid && after.mode & 0o133
            == 0 && 0 < after.len <= 65_536 && before.device == after.device && before.inode
            == after.inode,
        hardened_ciphertext(before, Lookup::Found(after), uid) == Ok::<
            _,
            TransportIdentityProvisioningError,
        >(after) <==> !after.is_symlink && after.is_file && after.uid == uid && after.mode & 0o777
            == 0o600 && 0 < after.len <= 65_536 && before.device == after.device && before.inode
            == after.inode,
        opened_ciphertext(before, Lookup::Missing, uid) is Err,
        opened_ciphertext(before, Lookup::Unreadable, uid) is Err,
        hardened_ciphertext(before, Lookup::Missing, uid) is Err,
        hardened_ciphertext(before, Lookup::Unreadable, uid) is Err,
        opened_ciphertext(before, Lookup::Found(after), uid) matches Ok(found) ==> found == after,
        hardened_ciphertext(before, Lookup::Found(after), uid) matches Ok(found) ==> found == after,
{
}

/// The database file is closed to everybody else, and looked at again, before it is accepted.
pub proof fn database_is_closed_before_it_is_accepted(
    uid: u32,
    before: FileMetadata,
    after: FileMetadata,
)
    requires
        !before.is_symlink,
        before.is_file,
        before.uid == uid,
    ensures
        ({
            let plan = harden_database_plan(uid);
            let found = HostReply::Metadata(before);
            &&& follow(plan, Seq::empty()).0 == Course::<
                Result<(), DurableRegistrySqliteCustodyError>,
            >::Waiting(OutsideRequest::Metadata(Place::Database))
            &&& follow(plan, seq![found]).0 == Course::<
                Result<(), DurableRegistrySqliteCustodyError>,
            >::Waiting(OutsideRequest::SetMode(Place::Database, 0o600))
            &&& follow(plan, seq![found, HostReply::Completed, HostReply::Metadata(after)]).0
                == Course::<Result<(), DurableRegistrySqliteCustodyError>>::Done(
                if !after.is_symlink && after.is_file && after.uid == uid && after.mode & 0o777
                    == 0o600 {
                    Ok(())
                } else {
                    Err(DurableRegistrySqliteCustodyError::InsecureDatabaseFile)
                },
            )
        }),
{
    broadcast use lemma_follow_bind;

    reveal_with_fuel(follow, 3);
    lemma_rest(
        HostReply::Metadata(before),
        HostReply::Completed,
        HostReply::Metadata(after),
    );
}

/// A record is published only where nothing is at its temporary place.
pub proof fn temporary_place_has_to_be_free<E>(
    temporary: Place,
    to: Place,
    directory: Place,
    payload: Seq<u8>,
    kind: RecordKind,
    uid: u32,
    write_failed: E,
    commit_failed: E,
    sync_failed: E,
    found: HostReply,
)
    ensures
        ({
            let plan = publish_plan(
                temporary,
                to,
                directory,
                payload,
                kind,
                uid,
                write_failed,
                commit_failed,
                sync_failed,
            );
            &&& follow(plan, Seq::empty()).0 == Course::<Result<(), E>>::Waiting(
                OutsideRequest::Metadata(temporary),
            )
            &&& follow(plan, seq![found]).0 == (if found is NotFound {
                Progress::Waiting(OutsideRequest::CreateNew(temporary, 0o600))
            } else {
                Course::<Result<(), E>>::Done(Err(write_failed))
            })
            &&& follow(plan, seq![HostReply::NotFound, HostReply::Failed]).0 == Course::<
                Result<(), E>,
            >::Waiting(OutsideRequest::Remove(temporary))
            &&& follow(plan, seq![HostReply::NotFound, HostReply::Failed, found]).0 == Course::<
                Result<(), E>,
            >::Done(Err(write_failed))
        }),
{
    broadcast use lemma_follow_bind;

    reveal_with_fuel(follow, 3);
    lemma_rest(found, found, found);
    lemma_rest(HostReply::NotFound, HostReply::Failed, found);
}

/// A directory that is missing is made and closed to everybody else, and then looked at: it is
/// accepted exactly when it is private. One that could not be made is refused as such.
pub proof fn made_directory_is_looked_at<E>(
    place: Place,
    uid: u32,
    creation_failed: E,
    insecure: E,
    made: FileMetadata,
)
    ensures
        ({
            let ensured = ensure_private_directory_plan(place, uid, creation_failed, insecure);
            let prepared = prepare_private_directory_plan(place, uid, creation_failed, insecure);
            let shared = ensure_user_directory_plan(place, uid, creation_failed, insecure);
            let done = HostReply::Completed;
            let replies = seq![HostReply::NotFound, done, done] + seq![HostReply::Metadata(made)];
            let private = !made.is_symlink && made.is_dir && made.uid == uid && made.mode & 0o777
                == 0o700;
            let own = !made.is_symlink && made.is_dir && made.uid == uid && made.mode & 0o022 == 0;
            let refused = seq![HostReply::NotFound, HostReply::Failed];
            &&& follow(ensured, replies).0 == Course::<Result<(), E>>::Done(
                if private {
                    Ok(())
                } else {
                    Err(insecure)
                },
            )
            &&& follow(prepared, replies).0 == Course::<Result<(), E>>::Done(
                if private {
                    Ok(())
                } else {
                    Err(insecure)
                },
            )
            &&& follow(shared, replies).0 == Course::<Result<(), E>>::Done(
                if own {
                    Ok(())
                } else {
                    Err(insecure)
                },
            )
            &&& follow(ensured, refused).0 == Course::<Result<(), E>>::Done(Err(creation_failed))
            &&& follow(prepared, refused).0 == Course::<Result<(), E>>::Done(Err(creation_failed))
            &&& follow(shared, refused).0 == Course::<Result<(), E>>::Done(Err(creation_failed))
        }),
{
    broadcast use lemma_follow_bind;

    reveal_with_fuel(follow, 3);
    let done = HostReply::Completed;
    let found = HostReply::Metadata(made);
    let all = seq![HostReply::NotFound, done, done] + seq![found];
    assert(all.drop_first() =~= seq![done, done, found]);
    lemma_rest(done, done, found);
    lemma_rest(HostReply::NotFound, HostReply::Failed, done);
}

/// A key that was made is reported by its identity; one that was rejected is told from one that could
/// not be made.
pub proof fn made_key_is_told_by_its_identity(reply: HostReply)
    ensures
        follow(generate_key_plan(), Seq::empty()).0 == Course::<
            Result<TransportIdentity, TransportIdentityProvisioningError>,
        >::Waiting(OutsideRequest::GenerateTransportKey),
        follow(generate_key_plan(), seq![reply]).0 == Course::<
            Result<TransportIdentity, TransportIdentityProvisioningError>,
        >::Done(
            match reply {
                OutsideReply::Identity(identity) => Ok(identity),
                OutsideReply::Rejected => Err(
                    TransportIdentityProvisioningError::GeneratedIdentityInvalid,
                ),
                _ => Err(TransportIdentityProvisioningError::KeyGenerationFailed),
            },
        ),
{
    reveal_with_fuel(follow, 3);
    lemma_rest(reply, reply, reply);
}

/// A new identity is made of the three values that were drawn, and it is their record that is
/// written. Without the values nothing is written.
pub proof fn drawn_values_are_written_as_the_identity(
    uid: u32,
    workspace: [u8; 16],
    user: [u8; 16],
    device: [u8; 16],
    other: HostReply,
)
    ensures
        ({
            let plan = create_identity_plan(uid);
            let drawn = HostReply::Entropy(workspace, user, device);
            let done = HostReply::Completed;
            &&& follow(plan, Seq::empty()).0 == Course::<
                Result<IdentityOutcomeView, OwnerFirstSetupBootstrapInputError>,
            >::Waiting(OutsideRequest::OwnerEntropy)
            &&& !(other is Entropy) ==> follow(plan, seq![other]).0 == Course::<
                Result<IdentityOutcomeView, OwnerFirstSetupBootstrapInputError>,
            >::Done(Err(OwnerFirstSetupBootstrapInputError::RandomUnavailable))
            &&& follow(plan, seq![drawn, HostReply::NotFound, done] + seq![done]).0 == Course::<
                Result<IdentityOutcomeView, OwnerFirstSetupBootstrapInputError>,
            >::Waiting(
                OutsideRequest::WriteAndSync(
                    Place::IdentityTemporary,
                    identity_from_entropy(workspace@, user@, device@).encoded(),
                ),
            )
        }),
{
    broadcast use lemma_follow_bind;

    reveal_with_fuel(follow, 3);
    let drawn = HostReply::Entropy(workspace, user, device);
    let done = HostReply::Completed;
    let all = seq![drawn, HostReply::NotFound, done] + seq![done];
    assert(all.drop_first() =~= seq![HostReply::NotFound, done, done]);
    lemma_rest(HostReply::NotFound, done, done);
    lemma_rest(other, other, other);
}

/// A decrypted credential that is empty or longer than 4096 bytes is given up at once. Otherwise the
/// helper has to end in success, and then the credential gives its identity or is invalid.
pub proof fn decrypted_credential_is_judged(
    helper: FileMetadata,
    plaintext: Seq<u8>,
    ended: HostReply,
)
    requires
        !helper.is_symlink,
        helper.is_file,
        helper.uid == 0,
        helper.mode & 0o022 == 0,
        helper.mode & 0o111 != 0,
    ensures
        ({
            let plan = decrypt_plan();
            let found = HostReply::Metadata(helper);
            let allowed = 0 < plaintext.len() <= 4_096;
            &&& follow(plan, seq![found]).0 == Course::<
                Result<Seq<u8>, TransportIdentityRecoveryError>,
            >::Waiting(OutsideRequest::StartDecryption(Place::Ciphertext, 4_097))
            &&& follow(plan, seq![found, HostReply::Failed]).0 == Course::<
                Result<Seq<u8>, TransportIdentityRecoveryError>,
            >::Done(Err(TransportIdentityRecoveryError::CredentialDecryptionFailed))
            &&& !allowed ==> {
                &&& follow(plan, seq![found, HostReply::Bytes(plaintext)]).0 == Course::<
                    Result<Seq<u8>, TransportIdentityRecoveryError>,
                >::Waiting(OutsideRequest::AbortDecryption)
                &&& follow(plan, seq![found, HostReply::Bytes(plaintext), ended]).0 == Course::<
                    Result<Seq<u8>, TransportIdentityRecoveryError>,
                >::Done(Err(TransportIdentityRecoveryError::DecryptedCredentialOutOfBounds))
            }
            &&& allowed ==> {
                &&& follow(plan, seq![found, HostReply::Bytes(plaintext)]).0 == Course::<
                    Result<Seq<u8>, TransportIdentityRecoveryError>,
                >::Waiting(OutsideRequest::FinishDecryption)
                &&& follow(plan, seq![found, HostReply::Bytes(plaintext), ended]).0 == Course::<
                    Result<Seq<u8>, TransportIdentityRecoveryError>,
                >::Done(
                    if ended != HostReply::Exit(Some(0)) {
                        Err(TransportIdentityRecoveryError::CredentialDecryptionFailed)
                    } else {
                        match derived_identity(plaintext) {
                            Ok(identity) => Ok(identity),
                            Err(_) => Err(TransportIdentityRecoveryError::InvalidPrivateCredential),
                        }
                    },
                )
            }
        }),
{
    broadcast use lemma_follow_bind;

    reveal_with_fuel(follow, 3);
    let found = HostReply::Metadata(helper);
    lemma_rest(found, HostReply::Bytes(plaintext), ended);
    lemma_rest(found, HostReply::Failed, ended);
}

} // verus!
