//! Nothing is done in a place that is not trusted, and nothing succeeds there.
use vstd::prelude::*;

use crate::capable_host::{custody_is_trusted, ends_capably, lemma_capable_host};
use crate::custody::{
    ensure_private_directory_plan, is_private_file, prepare_private_directory_plan,
};
use crate::custody_laws::{established_database_is_accepted_when_trusted, group_decided_places};
use crate::domain::PublicIdentityView;
use crate::durable_registry_sqlite_custody::{
    existing_path_plan, harden_database_plan, is_own_file, open_existing_authority_plan,
    prepare_path_plan, DurableRegistrySqliteCustodyError,
};
use crate::environment::HostEnvironment;
use crate::host::Host;
use crate::installation::Installation;
use crate::outside::Place;
use crate::owner_established_startup_authority::{
    verify_established_plan, OwnerEstablishedStartupAuthorityError,
    OwnerEstablishedStartupAuthorityProof,
};
use crate::owner_first_run_setup_intent::{
    ensure_intent_plan, OwnerFirstRunSetupIntentError, OwnerFirstRunSetupIntentWriteOutcome,
};
use crate::owner_first_setup_bootstrap_inputs::{
    ensure_identity_plan, load_identity_from_environment, IdentityOutcomeView,
    OwnerFirstSetupBootstrapInputError, OwnerIdentityView,
};
use crate::owner_first_setup_custody_policy_orchestration::OwnerFirstSetupTransportCustodySelection;
use crate::owner_identity_laws::{has_sound_identity, identity_place_is_trusted, stored_identity};
use crate::reliable_host::{ends_reliably, group_reliable_steps};
use crate::setup_intent_laws::intent_place_is_trusted;
use crate::transport_identity_provisioning::{
    TransportIdentityProvisioningPolicy, TransportIdentityRecoveryError,
};
use crate::transport_identity_recovery::recover_established_plan;
use crate::transport_refusal_laws::recovery_from_the_binding_needs_trusted_custody;
use crate::working_installation::{ends_well, group_well_steps};
use crate::working_startup_laws::database_is_trusted;

verus! {

broadcast proof fn lemma_present_directory_is_not_replaced<E>(
    place: Place,
    uid: u32,
    creation_failed: E,
    insecure: E,
    host: Host,
    result: Result<(), E>,
    after: Host,
)
    requires
        #[trigger] ends_reliably(
            ensure_private_directory_plan(place, uid, creation_failed, insecure),
            host,
            result,
            after,
        ),
        host.files.contains_key(place),
    ensures
        after == host,
        result == (if host.has_private_directory(place, uid) {
            Ok::<(), E>(())
        } else {
            Err(insecure)
        }),
{
    broadcast use {group_reliable_steps, group_decided_places};

}

broadcast proof fn lemma_prepared_directory_is_not_replaced<E>(
    place: Place,
    uid: u32,
    creation_failed: E,
    insecure: E,
    host: Host,
    result: Result<(), E>,
    after: Host,
)
    requires
        #[trigger] ends_reliably(
            prepare_private_directory_plan(place, uid, creation_failed, insecure),
            host,
            result,
            after,
        ),
        host.files.contains_key(place),
    ensures
        after == host,
        result == (if host.has_private_directory(place, uid) {
            Ok::<(), E>(())
        } else {
            Err(insecure)
        }),
{
    broadcast use group_reliable_steps;

}

/// Writing an intent refuses the first place that is there and not trusted by its own error, and
/// changes nothing then.
pub proof fn intent_is_not_written_to_an_untrusted_place(
    absolute: bool,
    uid: u32,
    selection: OwnerFirstSetupTransportCustodySelection,
    host: Host,
    result: Result<OwnerFirstRunSetupIntentWriteOutcome, OwnerFirstRunSetupIntentError>,
    after: Host,
)
    requires
        ends_reliably(ensure_intent_plan(absolute, uid, selection), host, result, after),
        host.files.contains_key(Place::ApplicationDirectory),
        host.files.contains_key(Place::SetupDirectory),
        !intent_place_is_trusted(host, absolute, uid),
    ensures
        result == Err::<OwnerFirstRunSetupIntentWriteOutcome, _>(
            if !absolute {
                OwnerFirstRunSetupIntentError::InvalidStateRoot
            } else if !host.has_user_directory(Place::StateRoot, uid) {
                OwnerFirstRunSetupIntentError::InsecureStateRoot
            } else if !host.has_private_directory(Place::ApplicationDirectory, uid) {
                OwnerFirstRunSetupIntentError::InsecureApplicationDirectory
            } else {
                OwnerFirstRunSetupIntentError::InsecureSetupDirectory
            },
        ),
        after == host,
{
    broadcast use {
        group_reliable_steps,
        group_decided_places,
        lemma_present_directory_is_not_replaced,
    };

}

/// Making an identity refuses the first place that is there and not trusted by its own error, and
/// changes nothing then.
pub proof fn identity_is_not_made_in_an_untrusted_place(
    absolute: bool,
    uid: u32,
    host: Host,
    result: Result<IdentityOutcomeView, OwnerFirstSetupBootstrapInputError>,
    after: Host,
)
    requires
        ends_reliably(ensure_identity_plan(absolute, uid), host, result, after),
        host.files.contains_key(Place::ApplicationDirectory),
        host.files.contains_key(Place::BootstrapDirectory),
        !identity_place_is_trusted(host, absolute, uid),
    ensures
        result == Err::<IdentityOutcomeView, _>(
            if !absolute {
                OwnerFirstSetupBootstrapInputError::InvalidStateRoot
            } else if !host.has_user_directory(Place::StateRoot, uid) {
                OwnerFirstSetupBootstrapInputError::InsecureStateRoot
            } else if !host.has_private_directory(Place::ApplicationDirectory, uid) {
                OwnerFirstSetupBootstrapInputError::InsecureApplicationDirectory
            } else {
                OwnerFirstSetupBootstrapInputError::InsecureBootstrapDirectory
            },
        ),
        after == host,
{
    broadcast use {
        group_reliable_steps,
        group_decided_places,
        lemma_present_directory_is_not_replaced,
    };

}

/// Preparing the place of the database refuses the first place that is there and not trusted by its
/// own error, and changes nothing then. With both directories there it is accepted exactly when they
/// are trusted and the database is absent or trusted.
pub proof fn database_is_not_prepared_in_an_untrusted_place(
    absolute: bool,
    uid: u32,
    host: Host,
    result: Result<(), DurableRegistrySqliteCustodyError>,
    after: Host,
)
    requires
        ends_reliably(prepare_path_plan(absolute, uid), host, result, after),
        host.files.contains_key(Place::ApplicationDirectory),
        host.files.contains_key(Place::DatabaseDirectory),
    ensures
        after == host,
        result == (if !absolute {
            Err(DurableRegistrySqliteCustodyError::InvalidStateRoot)
        } else if !host.has_user_directory(Place::StateRoot, uid) {
            Err(DurableRegistrySqliteCustodyError::InsecureStateRoot)
        } else if !host.has_private_directory(Place::ApplicationDirectory, uid) {
            Err(DurableRegistrySqliteCustodyError::InsecureApplicationDirectory)
        } else if !host.has_private_directory(Place::DatabaseDirectory, uid) {
            Err(DurableRegistrySqliteCustodyError::InsecureDatabaseDirectory)
        } else if host.files.contains_key(Place::Database) && !is_private_file(
            host.files[Place::Database].metadata,
            uid,
        ) {
            Err(DurableRegistrySqliteCustodyError::InsecureDatabaseFile)
        } else {
            Ok(())
        }),
{
    broadcast use {
        group_reliable_steps,
        group_decided_places,
        lemma_prepared_directory_is_not_replaced,
    };

}

/// A database file that is missing, or not a regular file of the user, is not hardened.
pub proof fn foreign_database_is_not_hardened(
    uid: u32,
    host: Host,
    result: Result<(), DurableRegistrySqliteCustodyError>,
    after: Host,
)
    requires
        ends_reliably(harden_database_plan(uid), host, result, after),
        !(host.files.contains_key(Place::Database) && is_own_file(
            host.files[Place::Database].metadata,
            uid,
        )),
    ensures
        result == Err::<(), _>(DurableRegistrySqliteCustodyError::InsecureDatabaseFile),
        after == host,
{
    broadcast use group_reliable_steps;

}

broadcast proof fn lemma_existing_path_needs_trust(
    uid: u32,
    tpm2: bool,
    user: u32,
    host: Host,
    result: Result<(), DurableRegistrySqliteCustodyError>,
    after: Host,
)
    requires
        #[trigger] ends_capably(uid, tpm2, existing_path_plan(true, user), host, result, after),
    ensures
        after == host,
        result is Ok <==> database_is_trusted(host, user),
{
    lemma_capable_host(uid, tpm2, existing_path_plan(true, user), host, result, after);
    established_database_is_accepted_when_trusted(true, user, host, result, after);
}

/// The existing authority is opened only where the database and everything above it is trusted.
pub broadcast proof fn existing_authority_is_opened_only_when_trusted(
    uid: u32,
    tpm2: bool,
    environment: HostEnvironment,
    before: Installation,
    result: Result<(), DurableRegistrySqliteCustodyError>,
    after: Installation,
)
    requires
        #[trigger] ends_well(
            uid,
            tpm2,
            open_existing_authority_plan(environment),
            before,
            result,
            after,
        ),
    ensures
        result is Ok ==> environment.state_root_path() is Some && database_is_trusted(
            before.host,
            environment.uid,
        ),
        environment.state_root_path() is None ==> result == Err::<(), _>(
            DurableRegistrySqliteCustodyError::InvalidStateRoot,
        ) && after == before,
        !database_is_trusted(before.host, environment.uid) ==> after == before,
{
    broadcast use {group_well_steps, lemma_existing_path_needs_trust};

}

broadcast proof fn lemma_identity_needs_trust(
    uid: u32,
    tpm2: bool,
    environment: HostEnvironment,
    host: Host,
    result: Result<OwnerIdentityView, OwnerFirstSetupBootstrapInputError>,
    after: Host,
)
    requires
        #[trigger] ends_capably(
            uid,
            tpm2,
            load_identity_from_environment(environment),
            host,
            result,
            after,
        ),
    ensures
        after == host,
        result matches Ok(owner) ==> environment.state_root_path() is Some && has_sound_identity(
            host,
            true,
            environment.euid,
            owner,
        ),
{
    let plan = load_identity_from_environment(environment);
    lemma_capable_host(uid, tpm2, plan, host, result, after);
    if environment.state_root_path() is Some {
        crate::owner_identity_laws::loading_reads_the_stored_identity(
            true,
            environment.euid,
            host,
            result,
            after,
        );
    }
}

/// A restart is verified only where everything that it reads is trusted: the identity for the
/// effective user, and the custody and the database for the real one.
pub proof fn restart_is_verified_only_when_trusted(
    uid: u32,
    tpm2: bool,
    public_device_identity: PublicIdentityView,
    environment: HostEnvironment,
    before: Installation,
    result: Result<OwnerEstablishedStartupAuthorityProof, OwnerEstablishedStartupAuthorityError>,
    after: Installation,
)
    requires
        ends_well(
            uid,
            tpm2,
            verify_established_plan(public_device_identity, environment),
            before,
            result,
            after,
        ),
    ensures
        result is Ok ==> {
            &&& stored_identity(before.host) matches Some(owner)
            &&& has_sound_identity(before.host, true, environment.euid, owner)
            &&& custody_is_trusted(before.host, environment.uid)
            &&& database_is_trusted(before.host, environment.uid)
        },
{
    broadcast use {
        group_well_steps,
        lemma_identity_needs_trust,
        existing_authority_is_opened_only_when_trusted,
    };
    broadcast use crate::capable_host::lemma_finish;

    assert forall|
        path: Seq<u8>,
        recovered: Result<
            (TransportIdentityProvisioningPolicy, Seq<u8>),
            TransportIdentityRecoveryError,
        >,
        host: Host,
    | #[trigger]
        ends_capably(
            uid,
            tpm2,
            recover_established_plan(path, environment.uid),
            before.host,
            recovered,
            host,
        ) implies (recovered is Ok ==> custody_is_trusted(before.host, environment.uid)) && host
        == before.host by {
        let plan = recover_established_plan(path, environment.uid);
        lemma_capable_host(uid, tpm2, plan, before.host, recovered, host);
        recovery_from_the_binding_needs_trusted_custody(
            path,
            environment.uid,
            before.host,
            recovered,
            host,
        );
        crate::transport_custody_laws::established_recovery_reports_the_persisted_policy(
            path,
            environment.uid,
            before.host,
            recovered,
            host,
        );
    }
}

} // verus!
