//! What starting up comes to on an installation that works.
use vstd::prelude::*;

use crate::capable_host::{
    custody_is_trusted, ends_capably, group_capable_steps, is_kept, lemma_capable_host,
    lemma_private_directory_is_prepared, trusted_custody_is_recovered_from_its_binding,
};
use crate::custody::is_private_file;
use crate::domain::{transport_identity_of, PublicIdentityView, TransportIdentity};
use crate::durable_registry_sqlite_custody::{
    custody_root_plan, existing_path_plan, harden_database_plan, is_own_file, open_authority_plan,
    open_existing_authority_plan, optional_database_plan, prepare_path_plan,
    DurableRegistrySqliteCustodyError,
};
use crate::durable_registry_sqlite_store::{
    configure_plan, create_schema_plan, migrate_plan, open_existing_plan, open_plan,
    registry_integer, registry_journal, registry_perform, verify_schema_plan,
    DurableRegistrySqliteOpenError, RegistryPlan, RegistryReply, RegistryRequest,
};
use crate::environment::HostEnvironment;
use crate::host::{changed_only, lemma_others_stay, same_but, Host};
use crate::installation::{lemma_registry_part, only_wrote_database_file, Installation};
use crate::outside::Place;
use crate::owner_established_startup_authority::{
    lemma_proof_of, verify_authority_plan, verify_established_plan, verify_records_plan,
    OwnerEstablishedStartupAuthorityError, OwnerEstablishedStartupAuthorityProof,
};
use crate::owner_first_setup_bootstrap_inputs::{
    load_identity_from_environment, OwnerFirstSetupBootstrapInputError, OwnerIdentityView,
};
use crate::owner_identity_laws::{
    identity_place_is_trusted, loaded_identity,
    preparing_the_database_place_makes_directories_only,
};
use crate::plan::{bind, can_end, lemma_can_end_bind, Plan};
use crate::registry_laws::holds_owner;
use crate::reliable_host::{
    group_reliable_steps, lemma_private_directory_is_accepted, lemma_state_root_is_accepted,
};
use crate::startup_laws::{
    authority_places, enrolled, is_established, opening_the_authority_changes_no_record,
    opening_the_existing_authority_changes_nothing, verified_restart_found_everything_established,
};
use crate::transport_custody_laws::sealed_identity;
use crate::transport_identity_provisioning::{
    ciphertext_path_below, rendered_dropin, TransportIdentityProvisioningPolicy,
    TransportIdentityRecoveryError,
};
use crate::transport_identity_recovery::recover_established_plan;
use crate::working_installation::{
    ends_well, group_well_steps, is_empty, lemma_working_installation,
    lemma_working_registry_part, registry_ends_well, working_installation_answers,
    working_installation_rules,
};
use crate::working_registry::{device_is_read, membership_is_read};

verus! {

broadcast proof fn lemma_finish<R>(
    uid: u32,
    value: R,
    before: Installation,
    result: R,
    after: Installation,
)
    requires
        #[trigger] registry_ends_well(uid, Plan::Finish(value), before, result, after),
    ensures
        value == result,
        before == after,
{
}

broadcast proof fn lemma_bind<R, S>(
    uid: u32,
    plan: RegistryPlan<R>,
    next: spec_fn(R) -> RegistryPlan<S>,
    before: Installation,
    result: S,
    after: Installation,
)
    requires
        #[trigger] registry_ends_well(uid, bind(plan, next), before, result, after),
    ensures
        exists|value: R, middle: Installation| #[trigger]
            registry_ends_well(uid, plan, before, value, middle) && registry_ends_well(
                uid,
                next(value),
                middle,
                result,
                after,
            ),
{
    let rules = working_installation_rules(uid);
    lemma_can_end_bind(plan, next, rules, before, result, after);
    let (value, middle) = choose|value: R, middle: Installation| #[trigger]
        can_end(plan, rules, before, value, middle) && can_end(
            next(value),
            rules,
            middle,
            result,
            after,
        );
    assert(registry_ends_well(uid, plan, before, value, middle));
}

broadcast proof fn lemma_perform(
    uid: u32,
    request: RegistryRequest<Seq<char>, Seq<u8>>,
    before: Installation,
    done: bool,
    after: Installation,
)
    requires
        #[trigger] registry_ends_well(uid, registry_perform(request), before, done, after),
    ensures
        exists|reply: RegistryReply<Seq<char>, Seq<u8>>| #[trigger]
            working_installation_answers(uid, before, request, reply, after) && done == (reply
                is Completed),
{
    reveal_with_fuel(can_end, 2);
    let rules = working_installation_rules(uid);
    let (reply, next) = choose|reply: RegistryReply<Seq<char>, Seq<u8>>, next: Installation|
        #[trigger] rules(before, request, reply, next) && can_end(
            Plan::Finish(reply is Completed),
            rules,
            next,
            done,
            after,
        );
    assert(working_installation_answers(uid, before, request, reply, after));
}

broadcast proof fn lemma_version(
    uid: u32,
    before: Installation,
    version: Option<i64>,
    after: Installation,
)
    requires
        #[trigger] registry_ends_well(
            uid,
            registry_integer(RegistryRequest::QueryUserVersion),
            before,
            version,
            after,
        ),
    ensures
        after == before,
        version == Some(1i64) || version == Some(0i64) && is_empty(before.database.committed),
{
    reveal_with_fuel(can_end, 2);
}

broadcast proof fn lemma_foreign_keys(
    uid: u32,
    before: Installation,
    enforced: Option<i64>,
    after: Installation,
)
    requires
        #[trigger] registry_ends_well(
            uid,
            registry_integer(RegistryRequest::QueryForeignKeys),
            before,
            enforced,
            after,
        ),
    ensures
        after == before,
        enforced == Some(1i64),
{
    reveal_with_fuel(can_end, 2);
}

broadcast proof fn lemma_journal(
    uid: u32,
    request: RegistryRequest<Seq<char>, Seq<u8>>,
    before: Installation,
    write_ahead: bool,
    after: Installation,
)
    requires
        #[trigger] registry_ends_well(uid, registry_journal(request), before, write_ahead, after),
        request is SetWriteAheadJournal || request is QueryJournalMode,
    ensures
        write_ahead,
        after.database == before.database,
        only_wrote_database_file(before.host, after.host),
{
    reveal_with_fuel(can_end, 2);
}

broadcast group group_opening_steps {
    lemma_finish,
    lemma_bind,
    lemma_perform,
    lemma_version,
    lemma_foreign_keys,
    lemma_journal,
}

broadcast proof fn lemma_schema_is_verified(
    uid: u32,
    before: Installation,
    result: Result<(), DurableRegistrySqliteOpenError>,
    after: Installation,
)
    requires
        #[trigger] registry_ends_well(uid, verify_schema_plan(), before, result, after),
    ensures
        result is Ok,
        after == before,
{
    broadcast use group_opening_steps;

}

broadcast proof fn lemma_database_is_opened_for_reading(
    uid: u32,
    before: Installation,
    result: Result<(), DurableRegistrySqliteOpenError>,
    after: Installation,
)
    requires
        #[trigger] registry_ends_well(uid, open_existing_plan(), before, result, after),
        before.host.files.contains_key(Place::Database),
        !is_empty(before.database.committed),
    ensures
        result is Ok,
{
    broadcast use {group_opening_steps, lemma_schema_is_verified};

}

/// The database and the directories above it are there and trusted.
pub open spec fn database_is_trusted(host: Host, uid: u32) -> bool {
    &&& host.has_user_directory(Place::StateRoot, uid)
    &&& host.has_private_directory(Place::ApplicationDirectory, uid)
    &&& host.has_private_directory(Place::DatabaseDirectory, uid)
    &&& host.files.contains_key(Place::Database)
    &&& is_private_file(host.files[Place::Database].metadata, uid)
}

broadcast proof fn lemma_trusted_database_is_accepted(
    uid: u32,
    tpm2: bool,
    host: Host,
    result: Result<(), DurableRegistrySqliteCustodyError>,
    after: Host,
)
    requires
        #[trigger] ends_capably(uid, tpm2, existing_path_plan(true, uid), host, result, after),
        database_is_trusted(host, uid),
    ensures
        after == host,
        result is Ok,
{
    broadcast use {
        group_reliable_steps,
        lemma_state_root_is_accepted,
        lemma_private_directory_is_accepted,
    };

    lemma_capable_host(uid, tpm2, existing_path_plan(true, uid), host, result, after);
}

pub broadcast proof fn lemma_existing_authority_is_opened(
    uid: u32,
    tpm2: bool,
    environment: HostEnvironment,
    before: Installation,
    result: Result<(), DurableRegistrySqliteCustodyError>,
    after: Installation,
)
    requires
        #[trigger] ends_well(
            uid,
            tpm2,
            open_existing_authority_plan(environment),
            before,
            result,
            after,
        ),
        environment.uid == uid,
        environment.state_root_path() is Some,
        database_is_trusted(before.host, uid),
        !is_empty(before.database.committed),
    ensures
        result is Ok,
        after.host == before.host,
        after.database.committed == before.database.committed,
        after.database.open is None,
{
    broadcast use {
        group_well_steps,
        lemma_trusted_database_is_accepted,
        lemma_database_is_opened_for_reading,
    };

    lemma_working_installation(
        uid,
        tpm2,
        open_existing_authority_plan(environment),
        before,
        result,
        after,
    );
    opening_the_existing_authority_changes_nothing(environment, before, result, after);
}

broadcast proof fn lemma_current_records_are_verified(
    uid: u32,
    tpm2: bool,
    owner: OwnerIdentityView,
    public_device_identity: PublicIdentityView,
    policy: TransportIdentityProvisioningPolicy,
    identity: TransportIdentity,
    before: Installation,
    result: Result<OwnerEstablishedStartupAuthorityProof, OwnerEstablishedStartupAuthorityError>,
    after: Installation,
)
    requires
        #[trigger] ends_well(
            uid,
            tpm2,
            verify_records_plan(owner, public_device_identity, policy, identity),
            before,
            result,
            after,
        ),
        before.database.open is None,
        holds_owner(before.database.committed, enrolled(owner, public_device_identity), identity),
    ensures
        result matches Ok(proof) && proof.policy() == policy,
{
    broadcast use {
        group_well_steps,
        lemma_working_registry_part,
        membership_is_read,
        device_is_read,
        lemma_proof_of,
    };

}

/// The host's part of what a restart reads is there and trusted, and the environment says where it
/// is. The process runs as one user. The path has to fit a binding of the preferred policy, with
/// which every binding is compared first.
pub open spec fn restart_is_trusted(host: Host, environment: HostEnvironment) -> bool {
    &&& environment.euid == environment.uid
    &&& environment.config_root_path() is Some
    &&& environment.state_root_path() matches Some(state_root)
    &&& rendered_dropin(
        ciphertext_path_below(state_root),
        TransportIdentityProvisioningPolicy::Preferred.tier(),
    ) is Some
    &&& identity_place_is_trusted(host, true, environment.uid)
    &&& loaded_identity(host, environment.uid) is Ok
    &&& custody_is_trusted(host, environment.uid)
    &&& database_is_trusted(host, environment.uid)
}

pub broadcast proof fn lemma_trusted_identity_is_loaded(
    uid: u32,
    tpm2: bool,
    environment: HostEnvironment,
    host: Host,
    result: Result<OwnerIdentityView, OwnerFirstSetupBootstrapInputError>,
    after: Host,
)
    requires
        #[trigger] ends_capably(
            uid,
            tpm2,
            load_identity_from_environment(environment),
            host,
            result,
            after,
        ),
        environment.euid == uid,
        environment.state_root_path() is Some,
        identity_place_is_trusted(host, true, uid),
    ensures
        after == host,
        result == loaded_identity(host, uid),
{
    lemma_capable_host(
        uid,
        tpm2,
        load_identity_from_environment(environment),
        host,
        result,
        after,
    );
    crate::owner_identity_laws::loading_is_decided_by_the_record(true, uid, host, result, after);
}

broadcast proof fn lemma_current_authority_is_verified(
    uid: u32,
    tpm2: bool,
    owner: OwnerIdentityView,
    public_device_identity: PublicIdentityView,
    recovered: (TransportIdentityProvisioningPolicy, Seq<u8>),
    environment: HostEnvironment,
    before: Installation,
    result: Result<OwnerEstablishedStartupAuthorityProof, OwnerEstablishedStartupAuthorityError>,
    after: Installation,
)
    requires
        #[trigger] ends_well(
            uid,
            tpm2,
            verify_authority_plan(owner, public_device_identity, recovered, environment),
            before,
            result,
            after,
        ),
        environment.uid == uid,
        environment.state_root_path() is Some,
        database_is_trusted(before.host, uid),
        holds_owner(
            before.database.committed,
            enrolled(owner, public_device_identity),
            transport_identity_of(recovered.1),
        ),
    ensures
        result matches Ok(proof) && proof.policy() == recovered.0,
{
    broadcast use {
        group_well_steps,
        lemma_existing_authority_is_opened,
        lemma_current_records_are_verified,
    };

    assert(before.database.committed.device_record(owner.device) is Some);
}

/// On a working installation, what is established and trusted is verified at a restart, under the
/// established policy, and nothing changes.
pub proof fn established_restart_is_verified(
    tpm2: bool,
    public_device_identity: PublicIdentityView,
    policy: TransportIdentityProvisioningPolicy,
    environment: HostEnvironment,
    before: Installation,
    result: Result<OwnerEstablishedStartupAuthorityProof, OwnerEstablishedStartupAuthorityError>,
    after: Installation,
)
    requires
        ends_well(
            environment.uid,
            tpm2,
            verify_established_plan(public_device_identity, environment),
            before,
            result,
            after,
        ),
        is_established(before, public_device_identity, policy, environment),
        restart_is_trusted(before.host, environment),
    ensures
        result matches Ok(proof) && proof.policy() == policy,
        after.host == before.host,
        after.database.committed == before.database.committed,
{
    broadcast use {
        group_well_steps,
        lemma_trusted_identity_is_loaded,
        lemma_current_authority_is_verified,
    };

    let uid = environment.uid;
    let path = ciphertext_path_below(environment.state_root_path()->0);
    let plan = verify_established_plan(public_device_identity, environment);
    lemma_working_installation(uid, tpm2, plan, before, result, after);
    verified_restart_found_everything_established(
        public_device_identity,
        environment,
        before,
        result,
        after,
    );
    assert forall|
        recovered: Result<
            (TransportIdentityProvisioningPolicy, Seq<u8>),
            TransportIdentityRecoveryError,
        >,
        host: Host,
    | #[trigger]
        ends_capably(
            uid,
            tpm2,
            recover_established_plan(path, uid),
            before.host,
            recovered,
            host,
        ) implies recovered == Ok::<_, TransportIdentityRecoveryError>(
        (policy, sealed_identity(before.host)->0),
    ) && host == before.host by {
        trusted_custody_is_recovered_from_its_binding(
            policy,
            path,
            uid,
            tpm2,
            before.host,
            recovered,
            host,
        );
    }
}

broadcast proof fn lemma_schema_is_created(
    uid: u32,
    before: Installation,
    result: Result<(), DurableRegistrySqliteOpenError>,
    after: Installation,
)
    requires
        #[trigger] registry_ends_well(uid, create_schema_plan(), before, result, after),
    ensures
        result is Ok,
{
    broadcast use group_opening_steps;

}

broadcast proof fn lemma_schema_is_brought_up(
    uid: u32,
    before: Installation,
    result: Result<(), DurableRegistrySqliteOpenError>,
    after: Installation,
)
    requires
        #[trigger] registry_ends_well(uid, migrate_plan(), before, result, after),
    ensures
        result is Ok,
        only_wrote_database_file(before.host, after.host),
{
    broadcast use {group_opening_steps, lemma_schema_is_created, lemma_schema_is_verified};

    lemma_working_registry_part(uid, migrate_plan(), before, result, after);
    lemma_registry_part(migrate_plan(), before, result, after);
}

broadcast proof fn lemma_database_is_configured(
    uid: u32,
    before: Installation,
    result: Result<(), DurableRegistrySqliteOpenError>,
    after: Installation,
)
    requires
        #[trigger] registry_ends_well(uid, configure_plan(), before, result, after),
    ensures
        result is Ok,
        only_wrote_database_file(before.host, after.host),
{
    broadcast use group_opening_steps;

    lemma_working_registry_part(uid, configure_plan(), before, result, after);
    lemma_registry_part(configure_plan(), before, result, after);
}

/// The file of the database is that of the user or absent.
pub open spec fn database_file_is_own(host: Host, uid: u32) -> bool {
    host.files.contains_key(Place::Database) ==> is_own_file(
        host.files[Place::Database].metadata,
        uid,
    )
}

broadcast proof fn lemma_database_is_opened(
    uid: u32,
    before: Installation,
    result: Result<(), DurableRegistrySqliteOpenError>,
    after: Installation,
)
    requires
        #[trigger] registry_ends_well(uid, open_plan(), before, result, after),
        database_file_is_own(before.host, uid),
    ensures
        result is Ok,
        is_kept(before.host, after.host, Place::StateRoot),
        is_kept(before.host, after.host, Place::ApplicationDirectory),
        is_kept(before.host, after.host, Place::DatabaseDirectory),
        after.host.files.contains_key(Place::Database),
        database_file_is_own(after.host, uid),
{
    broadcast use {group_opening_steps, lemma_database_is_configured, lemma_schema_is_brought_up};

    lemma_working_registry_part(uid, open_plan(), before, result, after);
    lemma_registry_part(open_plan(), before, result, after);
}

/// The directories above the database are trusted or absent, and so is the database.
pub open spec fn database_place_is_usable(host: Host, uid: u32) -> bool {
    &&& host.has_user_directory(Place::StateRoot, uid)
    &&& host.files.contains_key(Place::ApplicationDirectory) ==> host.has_private_directory(
        Place::ApplicationDirectory,
        uid,
    )
    &&& host.files.contains_key(Place::DatabaseDirectory) ==> host.has_private_directory(
        Place::DatabaseDirectory,
        uid,
    )
    &&& host.files.contains_key(Place::Database) ==> is_private_file(
        host.files[Place::Database].metadata,
        uid,
    )
}

broadcast proof fn lemma_usable_root_is_accepted(
    uid: u32,
    tpm2: bool,
    host: Host,
    result: Result<(), DurableRegistrySqliteCustodyError>,
    after: Host,
)
    requires
        #[trigger] ends_capably(uid, tpm2, custody_root_plan(true, uid), host, result, after),
        host.has_user_directory(Place::StateRoot, uid),
    ensures
        after == host,
        result is Ok,
{
    broadcast use lemma_state_root_is_accepted;

    lemma_capable_host(uid, tpm2, custody_root_plan(true, uid), host, result, after);
}

broadcast proof fn lemma_usable_database_is_accepted(
    uid: u32,
    tpm2: bool,
    host: Host,
    result: Result<(), DurableRegistrySqliteCustodyError>,
    after: Host,
)
    requires
        #[trigger] ends_capably(uid, tpm2, optional_database_plan(uid), host, result, after),
        host.files.contains_key(Place::Database) ==> is_private_file(
            host.files[Place::Database].metadata,
            uid,
        ),
    ensures
        after == host,
        result is Ok,
{
    broadcast use group_capable_steps;

}

broadcast proof fn lemma_database_place_is_prepared(
    uid: u32,
    tpm2: bool,
    host: Host,
    result: Result<(), DurableRegistrySqliteCustodyError>,
    after: Host,
)
    requires
        #[trigger] ends_capably(uid, tpm2, prepare_path_plan(true, uid), host, result, after),
        database_place_is_usable(host, uid),
    ensures
        result is Ok,
        database_place_is_usable(after, uid),
        after.files.contains_key(Place::ApplicationDirectory),
        after.files.contains_key(Place::DatabaseDirectory),
{
    broadcast use {
        group_capable_steps,
        lemma_usable_root_is_accepted,
        lemma_private_directory_is_prepared,
        lemma_usable_database_is_accepted,
        lemma_others_stay,
    };

    lemma_capable_host(uid, tpm2, prepare_path_plan(true, uid), host, result, after);
    preparing_the_database_place_makes_directories_only(true, uid, host, result, after);
    let directories = set![Place::ApplicationDirectory, Place::DatabaseDirectory];
    assert(!directories.contains(Place::StateRoot));
    assert(!directories.contains(Place::Database));
    assert(is_kept(host, after, Place::StateRoot));
    assert(is_kept(host, after, Place::Database));
}

broadcast proof fn lemma_own_database_is_hardened(
    uid: u32,
    tpm2: bool,
    host: Host,
    result: Result<(), DurableRegistrySqliteCustodyError>,
    after: Host,
)
    requires
        #[trigger] ends_capably(uid, tpm2, harden_database_plan(uid), host, result, after),
        host.files.contains_key(Place::Database),
        database_file_is_own(host, uid),
    ensures
        result is Ok,
        changed_only(host, after, Place::Database),
        after.files.contains_key(Place::Database),
        is_private_file(after.files[Place::Database].metadata, uid),
{
    broadcast use group_capable_steps;

    assert(0o600u32 & 0o777u32 == 0o600u32) by (bit_vector);
}

/// On a working installation the authority is opened where its place is usable, and is trusted
/// from there on. No record is written.
pub broadcast proof fn usable_authority_is_opened(
    uid: u32,
    tpm2: bool,
    environment: HostEnvironment,
    before: Installation,
    result: Result<(), DurableRegistrySqliteCustodyError>,
    after: Installation,
)
    requires
        #[trigger] ends_well(uid, tpm2, open_authority_plan(environment), before, result, after),
        environment.uid == uid,
        environment.state_root_path() is Some,
        database_place_is_usable(before.host, uid),
    ensures
        result is Ok,
        database_is_trusted(after.host, uid),
        after.database.committed == before.database.committed,
        same_but(before.host, after.host, authority_places()),
{
    broadcast use {
        group_well_steps,
        lemma_database_place_is_prepared,
        lemma_database_is_opened,
        lemma_own_database_is_hardened,
        lemma_others_stay,
    };

    let plan = open_authority_plan(environment);
    lemma_working_installation(uid, tpm2, plan, before, result, after);
    opening_the_authority_changes_no_record(environment, before, result, after);
}

} // verus!
