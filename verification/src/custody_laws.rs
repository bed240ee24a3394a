//! What is trusted, and what is refused: stated on metadata, on the replies of a host, and on a host
//! that does not fail.
use vstd::prelude::*;
use vstd::utf8::encode_utf8;

use crate::custody::{
    is_private_directory, is_private_file, is_same_object, is_user_directory, open_record_plan,
    require_private_directory_plan, state_root_plan, user_directory_plan, RecordKind,
};
use crate::domain::all_zero;
use crate::durable_registry_sqlite_custody::{
    existing_path_plan, is_own_file, DurableRegistrySqliteCustodyError,
};
use crate::host::Host;
use crate::outside::{FileMetadata, Lookup, OutsideReply, OutsideRequest, Place};
use crate::owner_first_run_setup_intent::{
    decoded_intent, inspect_intent_plan, intent_directories_plan, intent_token, load_intent_plan,
    retire_intent_plan, OwnerFirstRunSetupIntentError, OwnerFirstRunSetupIntentPresence,
    OwnerFirstRunSetupIntentRetirementOutcome,
};
use crate::owner_first_setup_bootstrap_inputs::{
    load_identity_plan, OwnerFirstSetupBootstrapInputError, OwnerIdentityView,
};
use crate::owner_first_setup_custody_policy_orchestration::OwnerFirstSetupTransportCustodySelection;
use crate::owner_identity_laws::loaded_identity;
use crate::plan::{follow, lemma_follow_bind, Progress};
use crate::reliable_host::{
    ends_reliably, group_reliable_steps, lemma_record_decides,
};
use crate::setup_intent_laws::intent_place_is_trusted;
use crate::transport_identity_custody::{
    derived_identity, directory_verdict, environment_credential_plan, found_verdict,
    judged_identity, load_credential_plan, opened_verdict, UbuntuTransportIdentityCustodyError,
};
use crate::transport_identity_provisioning::{
    ciphertext_verdict, exit_success, host_secret_verdict, is_initial_ciphertext,
    is_secure_system_program, tpm2_verdict, TransportIdentityProvisioningError,
    TransportIdentityProvisioningPolicy,
};

verus! {

/// What a directory of the user, a private directory and a private file are, and when two reports
/// are of one file.
pub proof fn private_means_closed_to_others(metadata: FileMetadata, other: FileMetadata, uid: u32)
    ensures
        is_user_directory(metadata, uid) <==> !metadata.is_symlink && metadata.is_dir
            && metadata.uid == uid && metadata.mode & 0o022 == 0,
        is_private_directory(metadata, uid) <==> !metadata.is_symlink && metadata.is_dir
            && metadata.uid == uid && metadata.mode & 0o777 == 0o700,
        is_private_file(metadata, uid) <==> !metadata.is_symlink && metadata.is_file
            && metadata.uid == uid && metadata.mode & 0o777 == 0o600,
        is_own_file(metadata, uid) <==> !metadata.is_symlink && metadata.is_file && metadata.uid
            == uid,
        is_same_object(metadata, other) <==> metadata.device == other.device && metadata.inode
            == other.inode,
{
}

/// A record is trusted exactly when it is a private file of the user with a size of its kind: an
/// intent has 21 or 35 bytes, an identity 110, a binding up to 4096 and a ciphertext up to 65536.
pub proof fn trusted_record_is_private_and_of_its_size(metadata: FileMetadata, uid: u32)
    ensures
        RecordKind::Intent.accepts(metadata, uid) <==> is_private_file(metadata, uid) && (
        metadata.len == 21 || metadata.len == 35),
        RecordKind::Identity.accepts(metadata, uid) <==> is_private_file(metadata, uid)
            && metadata.len == 110,
        RecordKind::Dropin.accepts(metadata, uid) <==> is_private_file(metadata, uid) && 0
            < metadata.len <= 4_096,
        RecordKind::Ciphertext.accepts(metadata, uid) <==> is_private_file(metadata, uid) && 0
            < metadata.len <= 65_536,
{
}

/// A helper is trusted exactly when it is a regular executable of root that nobody else may write
/// to, and so is the host secret, which need not be executable but must not be empty.
pub proof fn helper_belongs_to_root(metadata: FileMetadata)
    ensures
        is_secure_system_program(metadata) <==> !metadata.is_symlink && metadata.is_file
            && metadata.uid == 0 && metadata.mode & 0o022 == 0 && metadata.mode & 0o111 != 0,
        host_secret_verdict(Lookup::Found(metadata)) is Ok <==> !metadata.is_symlink
            && metadata.is_file && metadata.uid == 0 && metadata.mode & 0o022 == 0 && metadata.len
            > 0,
        host_secret_verdict(Lookup::Found(metadata)) is Err ==> host_secret_verdict(
            Lookup::Found(metadata),
        ) == Err::<(), _>(TransportIdentityProvisioningError::HostSecretInsecure),
        host_secret_verdict(Lookup::Missing) == Err::<(), _>(
            TransportIdentityProvisioningError::HostSecretUnavailable,
        ),
        host_secret_verdict(Lookup::Unreadable) == Err::<(), _>(
            TransportIdentityProvisioningError::HostSecretUnavailable,
        ),
{
}

/// The preferred policy needs a usable TPM2, the fallback is allowed only without one, and without
/// an answer neither is.
pub proof fn tpm2_decides_the_policy(
    policy: TransportIdentityProvisioningPolicy,
    usable: Option<bool>,
)
    ensures
        tpm2_verdict(policy, usable) is Ok <==> usable == Some(policy is Preferred),
        usable is None ==> tpm2_verdict(policy, usable) == Err::<(), _>(
            TransportIdentityProvisioningError::SystemdAnalyzeUnavailable,
        ),
        usable == Some(true) && policy is HostKeyOnly ==> tpm2_verdict(policy, usable) == Err::<
            (),
            _,
        >(TransportIdentityProvisioningError::HostKeyOnlyFallbackForbidden),
        usable == Some(false) && policy is Preferred ==> tpm2_verdict(policy, usable) == Err::<
            (),
            _,
        >(TransportIdentityProvisioningError::Tpm2Unavailable),
{
}

/// A process succeeded exactly when it ended with code zero. One that did not end by itself gives no
/// answer.
pub proof fn success_is_exit_code_zero(reply: OutsideReply<Seq<u8>>, code: i32)
    ensures
        exit_success(OutsideReply::Exit(Some(code))) == Some(code == 0),
        exit_success(OutsideReply::Exit(None)) is None,
        !(reply is Exit) ==> exit_success(reply) is None,
{
}

/// A fresh ciphertext may be readable by others, but it is a regular file of the user that is
/// neither executable nor writable by others; its size is that of a ciphertext.
pub proof fn fresh_ciphertext_is_not_executable(metadata: FileMetadata, uid: u32, private: bool)
    ensures
        is_initial_ciphertext(metadata, uid) <==> !metadata.is_symlink && metadata.is_file
            && metadata.uid == uid && metadata.mode & 0o133 == 0,
        ciphertext_verdict(metadata, private) is Ok <==> private && 0 < metadata.len <= 65_536,
        !private ==> ciphertext_verdict(metadata, private) == Err::<(), _>(
            TransportIdentityProvisioningError::CiphertextWriteFailed,
        ),
        private && !(0 < metadata.len <= 65_536) ==> ciphertext_verdict(metadata, private) == Err::<
            (),
            _,
        >(TransportIdentityProvisioningError::EncryptedCredentialOutOfBounds),
{
}

/// A record is opened exactly when it is trusted before it is opened and once it is open, and is the
/// same file both times. One that was exchanged in between is refused.
pub proof fn exchanged_record_is_refused<E>(
    place: Place,
    kind: RecordKind,
    uid: u32,
    unavailable: E,
    insecure: E,
    before: FileMetadata,
    after: FileMetadata,
)
    ensures
        ({
            let opened = follow(
                open_record_plan(place, kind, uid, unavailable, insecure),
                seq![
                    OutsideReply::Metadata(before),
                    OutsideReply::Completed,
                    OutsideReply::Metadata(after),
                ],
            ).0;
            if kind.accepts(before, uid) && kind.accepts(after, uid) && before.device
                == after.device && before.inode == after.inode {
                opened == Progress::<OutsideRequest<Seq<u8>>, Result<(), E>>::Done(Ok(()))
            } else {
                opened == Progress::<OutsideRequest<Seq<u8>>, Result<(), E>>::Done(Err(insecure))
            }
        }),
        follow(
            open_record_plan(place, kind, uid, unavailable, insecure),
            seq![OutsideReply::NotFound],
        ).0 == Progress::<OutsideRequest<Seq<u8>>, Result<(), E>>::Done(Err(unavailable)),
{
    broadcast use lemma_follow_bind;

    reveal_with_fuel(follow, 3);
    let replies = seq![
        OutsideReply::<Seq<u8>>::Metadata(before),
        OutsideReply::Completed,
        OutsideReply::Metadata(after),
    ];
    assert(replies.drop_first() =~= seq![OutsideReply::Completed, OutsideReply::Metadata(after)]);
    assert(replies.drop_first().drop_first() =~= seq![OutsideReply::Metadata(after)]);
}

pub broadcast proof fn lemma_user_directory_is_decided<E>(
    place: Place,
    uid: u32,
    insecure: E,
    host: Host,
    result: Result<(), E>,
    after: Host,
)
    requires
        #[trigger] ends_reliably(user_directory_plan(place, uid, insecure), host, result, after),
    ensures
        after == host,
        result == (if host.has_user_directory(place, uid) {
            Ok::<(), E>(())
        } else {
            Err(insecure)
        }),
{
    broadcast use group_reliable_steps;

}

pub broadcast proof fn lemma_private_directory_is_decided<E>(
    place: Place,
    uid: u32,
    insecure: E,
    host: Host,
    result: Result<(), E>,
    after: Host,
)
    requires
        #[trigger] ends_reliably(
            require_private_directory_plan(place, uid, insecure),
            host,
            result,
            after,
        ),
    ensures
        after == host,
        result == (if host.has_private_directory(place, uid) {
            Ok::<(), E>(())
        } else {
            Err(insecure)
        }),
{
    broadcast use group_reliable_steps;

}

pub broadcast proof fn lemma_state_root_is_decided<E>(
    absolute: bool,
    uid: u32,
    invalid: E,
    insecure: E,
    host: Host,
    result: Result<(), E>,
    after: Host,
)
    requires
        #[trigger] ends_reliably(
            state_root_plan(absolute, uid, invalid, insecure),
            host,
            result,
            after,
        ),
    ensures
        after == host,
        result == (if !absolute {
            Err::<(), E>(invalid)
        } else if host.has_user_directory(Place::StateRoot, uid) {
            Ok(())
        } else {
            Err(insecure)
        }),
{
    broadcast use {group_reliable_steps, lemma_user_directory_is_decided};

}

pub broadcast group group_decided_places {
    lemma_user_directory_is_decided,
    lemma_private_directory_is_decided,
    lemma_state_root_is_decided,
}

/// Only the two exact tokens stand for a selection.
pub proof fn token_names_its_selection(bytes: Seq<u8>)
    ensures
        bytes == encode_utf8("preferred-default-v1\n"@) <==> decoded_intent(bytes) == Ok::<
            _,
            OwnerFirstRunSetupIntentError,
        >(OwnerFirstSetupTransportCustodySelection::PreferredDefault),
        bytes == encode_utf8("explicit-host-key-only-fallback-v1\n"@) <==> decoded_intent(bytes)
            == Ok::<_, OwnerFirstRunSetupIntentError>(
            OwnerFirstSetupTransportCustodySelection::ExplicitHostKeyOnlyFallback,
        ),
        bytes != encode_utf8("preferred-default-v1\n"@) && bytes != encode_utf8(
            "explicit-host-key-only-fallback-v1\n"@,
        ) ==> decoded_intent(bytes) == Err::<OwnerFirstSetupTransportCustodySelection, _>(
            OwnerFirstRunSetupIntentError::MalformedIntentRecord,
        ),
        intent_token(OwnerFirstSetupTransportCustodySelection::PreferredDefault) == encode_utf8(
            "preferred-default-v1\n"@,
        ),
        intent_token(OwnerFirstSetupTransportCustodySelection::ExplicitHostKeyOnlyFallback)
            == encode_utf8("explicit-host-key-only-fallback-v1\n"@),
{
    crate::owner_first_run_setup_intent::lemma_intent_token_round_trip(
        OwnerFirstSetupTransportCustodySelection::ExplicitHostKeyOnlyFallback,
    );
}

/// The first place above the intent that is not trusted is refused by its own error.
pub broadcast proof fn untrusted_intent_place_is_refused(
    absolute: bool,
    uid: u32,
    host: Host,
    result: Result<(), OwnerFirstRunSetupIntentError>,
    after: Host,
)
    requires
        #[trigger] ends_reliably(intent_directories_plan(absolute, uid), host, result, after),
    ensures
        after == host,
        result == (if !absolute {
            Err(OwnerFirstRunSetupIntentError::InvalidStateRoot)
        } else if !host.has_user_directory(Place::StateRoot, uid) {
            Err(OwnerFirstRunSetupIntentError::InsecureStateRoot)
        } else if !host.has_private_directory(Place::ApplicationDirectory, uid) {
            Err(OwnerFirstRunSetupIntentError::InsecureApplicationDirectory)
        } else if !host.has_private_directory(Place::SetupDirectory, uid) {
            Err(OwnerFirstRunSetupIntentError::InsecureSetupDirectory)
        } else {
            Ok(())
        }),
{
    broadcast use {group_reliable_steps, group_decided_places};

}

/// Loading, inspecting and retiring an intent all refuse a place that is not trusted, by the error
/// of the first one, and change nothing then.
pub proof fn intent_is_not_sought_in_an_untrusted_place(
    absolute: bool,
    uid: u32,
    expected: OwnerFirstSetupTransportCustodySelection,
    host: Host,
    loaded: Result<OwnerFirstSetupTransportCustodySelection, OwnerFirstRunSetupIntentError>,
    inspected: Result<OwnerFirstRunSetupIntentPresence, OwnerFirstRunSetupIntentError>,
    retired: Result<OwnerFirstRunSetupIntentRetirementOutcome, OwnerFirstRunSetupIntentError>,
    after_loading: Host,
    after_inspecting: Host,
    after_retiring: Host,
)
    requires
        !intent_place_is_trusted(host, absolute, uid),
        ends_reliably(load_intent_plan(absolute, uid), host, loaded, after_loading),
        ends_reliably(inspect_intent_plan(absolute, uid), host, inspected, after_inspecting),
        ends_reliably(retire_intent_plan(absolute, uid, expected), host, retired, after_retiring),
    ensures
        ({
            let error = if !absolute {
                OwnerFirstRunSetupIntentError::InvalidStateRoot
            } else if !host.has_user_directory(Place::StateRoot, uid) {
                OwnerFirstRunSetupIntentError::InsecureStateRoot
            } else if !host.has_private_directory(Place::ApplicationDirectory, uid) {
                OwnerFirstRunSetupIntentError::InsecureApplicationDirectory
            } else {
                OwnerFirstRunSetupIntentError::InsecureSetupDirectory
            };
            &&& loaded == Err::<OwnerFirstSetupTransportCustodySelection, _>(error)
            &&& inspected == Err::<OwnerFirstRunSetupIntentPresence, _>(error)
            &&& retired == Err::<OwnerFirstRunSetupIntentRetirementOutcome, _>(error)
            &&& after_loading == host
            &&& after_inspecting == host
            &&& after_retiring == host
        }),
{
    broadcast use {group_reliable_steps, untrusted_intent_place_is_refused};

}

/// Loading the owner's identity refuses the first place that is not trusted by its own error, and
/// otherwise gives what the record decides. Nothing changes.
pub proof fn identity_is_loaded_from_trusted_places_only(
    absolute: bool,
    uid: u32,
    host: Host,
    result: Result<OwnerIdentityView, OwnerFirstSetupBootstrapInputError>,
    after: Host,
)
    requires
        ends_reliably(load_identity_plan(absolute, uid), host, result, after),
    ensures
        after == host,
        result == (if !absolute {
            Err(OwnerFirstSetupBootstrapInputError::InvalidStateRoot)
        } else if !host.has_user_directory(Place::StateRoot, uid) {
            Err(OwnerFirstSetupBootstrapInputError::InsecureStateRoot)
        } else if !host.has_private_directory(Place::ApplicationDirectory, uid) {
            Err(OwnerFirstSetupBootstrapInputError::InsecureApplicationDirectory)
        } else if !host.has_private_directory(Place::BootstrapDirectory, uid) {
            Err(OwnerFirstSetupBootstrapInputError::InsecureBootstrapDirectory)
        } else {
            loaded_identity(host, uid)
        }),
{
    broadcast use {
        group_reliable_steps,
        group_decided_places,
        crate::owner_identity_laws::loading_is_decided_by_the_record,
        lemma_record_decides,
    };

}

/// An established database is accepted exactly when the root, both directories and the file are
/// trusted; the first that is not is refused by its own error. Nothing changes.
pub proof fn established_database_is_accepted_when_trusted(
    absolute: bool,
    uid: u32,
    host: Host,
    result: Result<(), DurableRegistrySqliteCustodyError>,
    after: Host,
)
    requires
        ends_reliably(existing_path_plan(absolute, uid), host, result, after),
    ensures
        after == host,
        result == (if !absolute {
            Err(DurableRegistrySqliteCustodyError::InvalidStateRoot)
        } else if !host.has_user_directory(Place::StateRoot, uid) {
            Err(DurableRegistrySqliteCustodyError::InsecureStateRoot)
        } else if !host.has_private_directory(Place::ApplicationDirectory, uid) {
            Err(DurableRegistrySqliteCustodyError::InsecureApplicationDirectory)
        } else if !host.has_private_directory(Place::DatabaseDirectory, uid) {
            Err(DurableRegistrySqliteCustodyError::InsecureDatabaseDirectory)
        } else if host.files.contains_key(Place::Database) && is_private_file(
            host.files[Place::Database].metadata,
            uid,
        ) {
            Ok(())
        } else {
            Err(DurableRegistrySqliteCustodyError::InsecureDatabaseFile)
        }),
{
    broadcast use {group_reliable_steps, group_decided_places};

}

/// The directory of the runtime credential is accepted exactly when it is a directory of the user
/// that nobody else may write to and that the user may enter and list.
pub proof fn credential_directory_is_judged(metadata: FileMetadata, uid: u32)
    ensures
        directory_verdict(Lookup::Found(metadata), uid) == (if metadata.is_symlink
            || !metadata.is_dir {
            Err(UbuntuTransportIdentityCustodyError::CredentialsDirectoryInvalid)
        } else if metadata.uid == uid && metadata.mode & 0o022 == 0 && metadata.mode & 0o500
            == 0o500 {
            Ok(())
        } else {
            Err(UbuntuTransportIdentityCustodyError::CredentialsDirectoryNotSecure)
        }),
        directory_verdict(Lookup::Missing, uid) == Err::<(), _>(
            UbuntuTransportIdentityCustodyError::CredentialsDirectoryMissing,
        ),
        directory_verdict(Lookup::Unreadable, uid) == Err::<(), _>(
            UbuntuTransportIdentityCustodyError::CredentialsDirectoryInvalid,
        ),
{
}

/// The runtime credential is accepted exactly when it is a regular file of the user, readable by the
/// user, not executable, not writable by others, and of at most 4096 bytes.
pub proof fn credential_file_is_judged(metadata: FileMetadata, uid: u32)
    ensures
        found_verdict(Lookup::Found(metadata), uid) == (if metadata.is_symlink
            || !metadata.is_file {
            Err(UbuntuTransportIdentityCustodyError::CredentialNotRegular)
        } else if metadata.uid != uid {
            Err(UbuntuTransportIdentityCustodyError::CredentialOwnershipMismatch)
        } else if metadata.mode & 0o022 != 0 || metadata.mode & 0o111 != 0 || metadata.mode & 0o400
            == 0 {
            Err(UbuntuTransportIdentityCustodyError::CredentialPermissionsInsecure)
        } else if metadata.len > 4_096 {
            Err(UbuntuTransportIdentityCustodyError::CredentialSizeOutOfBounds)
        } else {
            Ok(metadata)
        }),
        found_verdict(Lookup::Missing, uid) == Err::<FileMetadata, _>(
            UbuntuTransportIdentityCustodyError::CredentialUnavailable,
        ),
        found_verdict(Lookup::Unreadable, uid) == Err::<FileMetadata, _>(
            UbuntuTransportIdentityCustodyError::CredentialUnavailable,
        ),
{
}

/// Once it is open, the runtime credential has to be the same regular file, still of the user and
/// still with the same permissions.
pub proof fn opened_credential_is_judged(before: FileMetadata, after: FileMetadata, uid: u32)
    ensures
        opened_verdict(before, Lookup::Found(after), uid) == (if !after.is_file || before.device
            != after.device || before.inode != after.inode {
            Err(UbuntuTransportIdentityCustodyError::CredentialNotRegular)
        } else if after.uid != uid {
            Err(UbuntuTransportIdentityCustodyError::CredentialOwnershipMismatch)
        } else if after.mode & 0o022 != 0 || after.mode & 0o111 != 0 || after.mode & 0o400 == 0 {
            Err(UbuntuTransportIdentityCustodyError::CredentialPermissionsInsecure)
        } else {
            Ok(())
        }),
        opened_verdict(before, Lookup::Missing, uid) == Err::<(), _>(
            UbuntuTransportIdentityCustodyError::CredentialUnavailable,
        ),
        opened_verdict(before, Lookup::Unreadable, uid) == Err::<(), _>(
            UbuntuTransportIdentityCustodyError::CredentialUnavailable,
        ),
{
}

/// A credential stands for the fingerprint of its public key exactly when it has at most 4096 bytes,
/// is its own canonical encoding, and the fingerprint exists and is not zero.
pub proof fn credential_is_its_canonical_encoding(
    credential: Seq<u8>,
    canonical: Option<Seq<u8>>,
    fingerprint: Option<Seq<u8>>,
)
    ensures
        judged_identity(credential, canonical, fingerprint) == (if credential.len() == 0
            || credential.len() > 4_096 {
            Err(UbuntuTransportIdentityCustodyError::CredentialSizeOutOfBounds)
        } else if canonical != Some(credential) {
            Err(UbuntuTransportIdentityCustodyError::InvalidPrivateCredential)
        } else if fingerprint is None {
            Err(UbuntuTransportIdentityCustodyError::PublicIdentityDerivationFailed)
        } else if all_zero(fingerprint->0) {
            Err(UbuntuTransportIdentityCustodyError::InvalidTransportIdentity)
        } else {
            Ok(fingerprint->0)
        }),
{
}

/// The identity of a credential is the digest of its public key.
pub proof fn identity_is_the_digest_of_the_public_key(credential: Seq<u8>)
    ensures
        derived_identity(credential) matches Ok(identity) ==> {
            &&& 0 < credential.len() <= 4_096
            &&& crate::transport_identity_custody::p256_pkcs8_v1(credential) == Some(credential)
            &&& crate::transport_identity_custody::p256_public_spki(credential) matches Some(spki)
            &&& identity == crate::transport_identity_custody::sha256(spki)
            &&& !all_zero(identity)
        },
{
}

/// On a host that does not fail, the runtime credential is loaded exactly from a directory and a file
/// that are trusted, and gives the identity of its content. Nothing changes.
pub proof fn runtime_credential_is_loaded_when_trusted(
    absolute: bool,
    uid: u32,
    host: Host,
    result: Result<Seq<u8>, UbuntuTransportIdentityCustodyError>,
    after: Host,
)
    requires
        ends_reliably(load_credential_plan(absolute, uid), host, result, after),
        host.files.contains_key(Place::RuntimeCredentialDirectory),
        host.files.contains_key(Place::RuntimeCredential),
        host.files[Place::RuntimeCredential].content.len() <= 4_096,
    ensures
        after == host,
        ({
            let directory = host.files[Place::RuntimeCredentialDirectory].metadata;
            let file = host.files[Place::RuntimeCredential].metadata;
            let trusted = absolute && !directory.is_symlink && directory.is_dir && directory.uid
                == uid && directory.mode & 0o022 == 0 && directory.mode & 0o500 == 0o500
                && !file.is_symlink && file.is_file && file.uid == uid && file.mode & 0o022 == 0
                && file.mode & 0o111 == 0 && file.mode & 0o400 != 0 && file.len <= 4_096;
            &&& trusted ==> result == derived_identity(
                host.files[Place::RuntimeCredential].content,
            )
            &&& !trusted ==> result is Err
        }),
{
    broadcast use group_reliable_steps;

}

/// Without a directory in the environment there is no credential, and a relative one is invalid.
pub proof fn credential_directory_comes_from_the_environment(
    directory: Option<Seq<u8>>,
    uid: u32,
    host: Host,
    result: Result<Seq<u8>, UbuntuTransportIdentityCustodyError>,
    after: Host,
)
    requires
        ends_reliably(environment_credential_plan(directory, uid), host, result, after),
    ensures
        directory is None || directory->0.len() == 0 ==> result == Err::<Seq<u8>, _>(
            UbuntuTransportIdentityCustodyError::CredentialsDirectoryMissing,
        ),
        directory matches Some(path) && path.len() > 0 && path[0] != 47 ==> result == Err::<
            Seq<u8>,
            _,
        >(UbuntuTransportIdentityCustodyError::CredentialsDirectoryInvalid),
        directory matches Some(path) && path.len() > 0 && path[0] == 47 ==> ends_reliably(
            load_credential_plan(true, uid),
            host,
            result,
            after,
        ),
{
    broadcast use group_reliable_steps;

}

} // verus!
