//! What a first run comes to on an installation that works.
use vstd::prelude::*;

use crate::capable_host::{
    binding_places_are_kept, custody_is_trusted, ends_capably, group_capable_steps, inspection_is_decided_by_the_artifacts,
    is_kept, is_ready_for_provisioning, lemma_capable_host, provisioning_succeeds_on_a_capable_host,
    trusted_custody_is_recovered,
};
use crate::domain::{
    transport_identity_of, DeviceLifecycle, PublicIdentityView, TransportIdentity,
};
use crate::durable_registry_codec::fits;
use crate::durable_registry_sqlite_custody::{
    open_authority_plan, DurableRegistrySqliteCustodyError,
};
use crate::durable_registry_sqlite_store::OwnerPcLocalAuthorityBootstrapOutcome;
use crate::environment::HostEnvironment;
use crate::host::Host;
use crate::installation::{lemma_registry_part, Installation};
use crate::outside::Place;
use crate::owner_established_startup_authority::{
    verify_established_plan, OwnerEstablishedStartupAuthorityError,
    OwnerEstablishedStartupAuthorityProof,
};
use crate::owner_first_run_orchestration::{
    orchestration_and_retirement_plan, orchestration_for_plan, orchestration_plan,
    OwnerFirstRunOrchestrationAndRetirementOutcome, OwnerFirstRunOrchestrationError,
};
use crate::owner_first_run_setup_intent::{
    inspect_intent_plan, load_intent_plan, retire_intent_plan, OwnerFirstRunSetupIntentError,
    OwnerFirstRunSetupIntentPresence, OwnerFirstRunSetupIntentRetirementOutcome,
};
use crate::owner_first_setup_bootstrap_input_composition::inputs_for;
use crate::owner_first_setup_bootstrap_inputs::{
    ensure_identity_from_environment, lemma_record_has_an_identity, IdentityOutcomeView,
    InputsView, OwnerFirstSetupBootstrapInputError, OwnerIdentityView,
};
use crate::owner_first_setup_custody_policy_orchestration::OwnerFirstSetupTransportCustodySelection;
use crate::owner_first_setup_execution_composition::create_inputs_plan;
use crate::owner_first_setup_local_authority_bootstrap_execution::{
    bootstrap_composed_plan, bootstrap_inputs_plan, bootstrap_opened_plan, local_authority_plan,
    OwnerFirstSetupLocalAuthorityBootstrapError,
};
use crate::owner_first_setup_retry_call_site_composition::{
    retry_inputs_plan, OwnerFirstSetupRetryCallSiteError,
};
use crate::owner_first_setup_transport_identity_recovery::{
    recover_setup_identity_plan, OwnerFirstSetupTransportIdentityRecoveryError,
};
use crate::owner_identity_laws::{
    existing_identity_decides, identity_is_created_once, identity_place_is_trusted,
    identity_place_is_usable, lemma_absent_identity_is_created, loaded_identity, stored_identity,
};
use crate::owner_startup_state_dispatch::{
    dispatch_plan, OwnerStartupStateDispatchError, OwnerStartupStateDispatchOutcome,
};
use crate::registry_laws::{holds_owner, Tables};
use crate::setup_intent_laws::{
    inspection_is_decided_by_the_record, intent_place_is_trusted, loaded_intent, retirement_is_decided_by_the_record,
};
use crate::startup_laws::{
    authority_places, completed_first_run_retires_its_intent, enrolled, identity_places,
    inputs_are_those_of_the_custody, is_established, is_unchanged, is_valid, lemma_files_stay,
};
use crate::transport_custody_laws::{provisioned_places, same_files_but, sealed_identity};
use crate::transport_identity_provisioning::{
    ciphertext_path_below, provision_plan, rendered_dropin, TransportIdentityPersistentState,
    TransportIdentityProvisioningError, TransportIdentityProvisioningPolicy,
    TransportIdentityRecoveryError,
};
use crate::transport_identity_recovery::{inspect_plan, recover_plan};
use crate::working_installation::{
    ends_well, group_well_steps, is_empty, lemma_working_installation,
    lemma_working_registry_part,
};
use crate::working_registry::{bootstrap_is_decided_by_the_records, owner_is_encodable};
use crate::working_startup_laws::{
    database_is_trusted, database_place_is_usable, established_restart_is_verified,
    lemma_trusted_identity_is_loaded, restart_is_trusted, usable_authority_is_opened,
};

verus! {

/// The identifiers of a stored identity are never too long for a record.
proof fn lemma_stored_owner_is_encodable(
    host: Host,
    owner: OwnerIdentityView,
    public_device_identity: PublicIdentityView,
    identity: TransportIdentity,
)
    requires
        stored_identity(host) == Some(owner),
        fits(public_device_identity.bytes),
    ensures
        owner_is_encodable(enrolled(owner, public_device_identity), identity),
{
    let content = host.content(Place::IdentityRecord)->0;
    lemma_record_has_an_identity(content);
    assert(owner.encoded() == content);
    assert(content.len() == 110);
}

proof fn lemma_owner_is_bootstrapped(
    uid: u32,
    tpm2: bool,
    opened: Result<(), DurableRegistrySqliteCustodyError>,
    inputs: InputsView,
    before: Installation,
    result: Result<
        OwnerPcLocalAuthorityBootstrapOutcome,
        OwnerFirstSetupLocalAuthorityBootstrapError,
    >,
    after: Installation,
)
    requires
        ends_well(
            uid,
            tpm2,
            bootstrap_opened_plan(opened, inputs),
            before,
            result,
            after,
        ),
        opened is Ok,
        database_is_trusted(before.host, uid),
        inputs.binding.lifecycle == DeviceLifecycle::Enrolled,
        owner_is_encodable(
            inputs.binding,
            transport_identity_of(inputs.transport_identity),
        ),
        is_empty(before.database.committed) || holds_owner(
            before.database.committed,
            inputs.binding,
            transport_identity_of(inputs.transport_identity),
        ),
    ensures
        result == Ok::<_, OwnerFirstSetupLocalAuthorityBootstrapError>(
            ready_outcome(before.database.committed),
        ),
        database_is_trusted(after.host, uid),
        same_files_but(before.host, after.host, authority_places()),
{
    broadcast use {
        group_well_steps,
        lemma_working_registry_part,
        lemma_registry_part,
        bootstrap_is_decided_by_the_records,
    };

    let tables = before.database.committed;
    let binding = inputs.binding;
    assert(tables.device_record(binding.device) is Some || tables.device(binding.device) is None);
    assert(after.host.files.contains_key(Place::StateRoot) == before.host.files.contains_key(
        Place::StateRoot,
    ));
    assert(after.host.files.contains_key(Place::ApplicationDirectory)
        == before.host.files.contains_key(Place::ApplicationDirectory));
    assert(after.host.files.contains_key(Place::DatabaseDirectory)
        == before.host.files.contains_key(Place::DatabaseDirectory));
}

/// The custody of a policy is in place and trusted.
pub open spec fn custody_is_in_place(
    host: Host,
    policy: TransportIdentityProvisioningPolicy,
    ciphertext_path: Seq<u8>,
    uid: u32,
) -> bool {
    &&& custody_is_trusted(host, uid)
    &&& host.content(Place::Dropin) == rendered_dropin(ciphertext_path, policy.tier())
    &&& sealed_identity(host) is Some
}

broadcast proof fn lemma_custody_is_inspected(
    uid: u32,
    tpm2: bool,
    policy: TransportIdentityProvisioningPolicy,
    ciphertext_path: Seq<u8>,
    host: Host,
    result: Result<TransportIdentityPersistentState, TransportIdentityRecoveryError>,
    after: Host,
)
    requires
        #[trigger] ends_capably(
            uid,
            tpm2,
            inspect_plan(policy, ciphertext_path, uid),
            host,
            result,
            after,
        ),
        is_ready_for_provisioning(host, uid) || custody_is_in_place(
            host,
            policy,
            ciphertext_path,
            uid,
        ),
    ensures
        after == host,
        result == Ok::<_, TransportIdentityRecoveryError>(
            if is_ready_for_provisioning(host, uid) {
                TransportIdentityPersistentState::Absent
            } else {
                TransportIdentityPersistentState::Established
            },
        ),
{
    lemma_capable_host(
        uid,
        tpm2,
        inspect_plan(policy, ciphertext_path, uid),
        host,
        result,
        after,
    );
    inspection_is_decided_by_the_artifacts(policy, ciphertext_path, uid, host, result, after);
}

broadcast proof fn lemma_custody_is_provisioned(
    uid: u32,
    tpm2: bool,
    policy: TransportIdentityProvisioningPolicy,
    ciphertext_path: Seq<u8>,
    host: Host,
    result: Result<TransportIdentity, TransportIdentityProvisioningError>,
    after: Host,
)
    requires
        #[trigger] ends_capably(
            uid,
            tpm2,
            provision_plan(policy, ciphertext_path, uid),
            host,
            result,
            after,
        ),
        tpm2 == (policy is Preferred),
        is_ready_for_provisioning(host, uid),
        rendered_dropin(ciphertext_path, policy.tier()) is Some,
    ensures
        result matches Ok(identity) && sealed_identity(after) == Some(identity@),
        custody_is_in_place(after, policy, ciphertext_path, uid),
{
    provisioning_succeeds_on_a_capable_host(policy, ciphertext_path, uid, host, result, after);
}

broadcast proof fn lemma_custody_is_recovered(
    uid: u32,
    tpm2: bool,
    policy: TransportIdentityProvisioningPolicy,
    ciphertext_path: Seq<u8>,
    host: Host,
    result: Result<Seq<u8>, TransportIdentityRecoveryError>,
    after: Host,
)
    requires
        #[trigger] ends_capably(
            uid,
            tpm2,
            recover_plan(policy, ciphertext_path, uid),
            host,
            result,
            after,
        ),
        custody_is_in_place(host, policy, ciphertext_path, uid),
    ensures
        result == Ok::<Seq<u8>, TransportIdentityRecoveryError>(sealed_identity(host)->0),
        after == host,
{
    trusted_custody_is_recovered(policy, ciphertext_path, uid, tpm2, host, result, after);
}

/// The process runs as one user, and the environment says where things are. A binding of the policy
/// can be rendered for the place of the ciphertext.
pub open spec fn environment_is_usable(
    environment: HostEnvironment,
    policy: TransportIdentityProvisioningPolicy,
) -> bool {
    &&& environment.euid == environment.uid
    &&& environment.config_root_path() is Some
    &&& environment.state_root_path() matches Some(state_root)
    &&& rendered_dropin(ciphertext_path_below(state_root), policy.tier()) is Some
}

broadcast proof fn lemma_inputs_are_created(
    uid: u32,
    tpm2: bool,
    owner: OwnerIdentityView,
    policy: TransportIdentityProvisioningPolicy,
    public_device_identity: PublicIdentityView,
    environment: HostEnvironment,
    host: Host,
    result: Result<InputsView, TransportIdentityProvisioningError>,
    after: Host,
)
    requires
        #[trigger] ends_capably(
            uid,
            tpm2,
            create_inputs_plan(owner, policy, public_device_identity, environment),
            host,
            result,
            after,
        ),
        environment.uid == uid,
        environment_is_usable(environment, policy),
        tpm2 == (policy is Preferred),
        is_ready_for_provisioning(host, uid),
    ensures
        result == Ok::<_, TransportIdentityProvisioningError>(
            inputs_for(owner, public_device_identity, sealed_identity(after)->0),
        ),
        custody_is_in_place(
            after,
            policy,
            ciphertext_path_below(environment.state_root_path()->0),
            uid,
        ),
{
    broadcast use {group_capable_steps, lemma_custody_is_provisioned};

}

broadcast proof fn lemma_setup_identity_is_recovered(
    uid: u32,
    tpm2: bool,
    owner: OwnerIdentityView,
    policy: TransportIdentityProvisioningPolicy,
    environment: HostEnvironment,
    host: Host,
    result: Result<Seq<u8>, OwnerFirstSetupTransportIdentityRecoveryError>,
    after: Host,
)
    requires
        #[trigger] ends_capably(
            uid,
            tpm2,
            recover_setup_identity_plan(owner, policy, environment),
            host,
            result,
            after,
        ),
        environment.uid == uid,
        environment_is_usable(environment, policy),
        identity_place_is_trusted(host, true, uid),
        loaded_identity(host, uid) is Ok,
        loaded_identity(host, uid)->Ok_0 == owner,
        custody_is_in_place(
            host,
            policy,
            ciphertext_path_below(environment.state_root_path()->0),
            uid,
        ),
    ensures
        after == host,
        result == Ok::<_, OwnerFirstSetupTransportIdentityRecoveryError>(sealed_identity(host)->0),
{
    broadcast use {
        group_capable_steps,
        lemma_trusted_identity_is_loaded,
        lemma_custody_is_recovered,
    };

}

/// On a capable host the inputs of a first run are composed, whether the custody is still to be
/// made or already there: afterwards it is in place, and the inputs name what it seals.
pub proof fn inputs_are_composed(
    uid: u32,
    owner: OwnerIdentityView,
    policy: TransportIdentityProvisioningPolicy,
    public_device_identity: PublicIdentityView,
    environment: HostEnvironment,
    host: Host,
    result: Result<InputsView, OwnerFirstSetupRetryCallSiteError>,
    after: Host,
)
    requires
        ends_capably(
            uid,
            policy is Preferred,
            retry_inputs_plan(owner, policy, public_device_identity, environment),
            host,
            result,
            after,
        ),
        environment.uid == uid,
        environment_is_usable(environment, policy),
        identity_place_is_trusted(host, true, uid),
        loaded_identity(host, uid) is Ok,
        loaded_identity(host, uid)->Ok_0 == owner,
        is_ready_for_provisioning(host, uid) || custody_is_in_place(
            host,
            policy,
            ciphertext_path_below(environment.state_root_path()->0),
            uid,
        ),
    ensures
        result == Ok::<_, OwnerFirstSetupRetryCallSiteError>(
            inputs_for(owner, public_device_identity, sealed_identity(after)->0),
        ),
        custody_is_in_place(
            after,
            policy,
            ciphertext_path_below(environment.state_root_path()->0),
            uid,
        ),
        !is_ready_for_provisioning(host, uid) ==> after == host,
        same_files_but(host, after, provisioned_places()),
{
    broadcast use {
        group_capable_steps,
        lemma_trusted_identity_is_loaded,
        lemma_custody_is_inspected,
        lemma_inputs_are_created,
        lemma_setup_identity_is_recovered,
    };

    let plan = retry_inputs_plan(owner, policy, public_device_identity, environment);
    lemma_capable_host(uid, policy is Preferred, plan, host, result, after);
    inputs_are_those_of_the_custody(
        owner,
        policy,
        public_device_identity,
        environment,
        host,
        result,
        after,
    );
}

/// Everything that the custody needs, besides the directory of the application, is as it was.
pub open spec fn custody_places_are_kept(before: Host, after: Host) -> bool {
    &&& is_kept(before, after, Place::StateRoot)
    &&& is_kept(before, after, Place::CredentialDirectory)
    &&& is_kept(before, after, Place::Ciphertext)
    &&& is_kept(before, after, Place::CiphertextTemporary)
    &&& is_kept(before, after, Place::SystemdCreds)
    &&& is_kept(before, after, Place::SystemdAnalyze)
    &&& is_kept(before, after, Place::HostSecret)
    &&& binding_places_are_kept(before, after)
}

/// Everything that the database needs, besides the directory of the application, is as it was.
pub open spec fn database_places_are_kept(before: Host, after: Host) -> bool {
    &&& is_kept(before, after, Place::StateRoot)
    &&& is_kept(before, after, Place::DatabaseDirectory)
    &&& is_kept(before, after, Place::Database)
}

/// Everything that the identity needs, besides the directory of the application, is as it was.
pub open spec fn identity_places_are_kept(before: Host, after: Host) -> bool {
    &&& is_kept(before, after, Place::StateRoot)
    &&& is_kept(before, after, Place::BootstrapDirectory)
    &&& is_kept(before, after, Place::IdentityRecord)
}

/// Everything that the intent needs, besides the directory of the application, is as it was.
pub open spec fn intent_places_are_kept(before: Host, after: Host) -> bool {
    &&& is_kept(before, after, Place::StateRoot)
    &&& is_kept(before, after, Place::SetupDirectory)
    &&& is_kept(before, after, Place::IntentRecord)
}

proof fn lemma_place_is_kept(before: Host, after: Host, changed: Set<Place>, place: Place)
    requires
        same_files_but(before, after, changed),
        !changed.contains(place),
    ensures
        is_kept(before, after, place),
{
    assert(after.files.contains_key(place) == before.files.contains_key(place));
}

/// Making the custody touches neither the intent nor the identity nor the database.
proof fn lemma_custody_leaves_the_rest(before: Host, after: Host)
    requires
        same_files_but(before, after, provisioned_places()),
    ensures
        intent_places_are_kept(before, after),
        identity_places_are_kept(before, after),
        database_places_are_kept(before, after),
{
    let changed = provisioned_places();
    lemma_place_is_kept(before, after, changed, Place::StateRoot);
    lemma_place_is_kept(before, after, changed, Place::SetupDirectory);
    lemma_place_is_kept(before, after, changed, Place::IntentRecord);
    lemma_place_is_kept(before, after, changed, Place::BootstrapDirectory);
    lemma_place_is_kept(before, after, changed, Place::IdentityRecord);
    lemma_place_is_kept(before, after, changed, Place::DatabaseDirectory);
    lemma_place_is_kept(before, after, changed, Place::Database);
}

proof fn lemma_custody_places_are_kept(before: Host, after: Host, changed: Set<Place>)
    requires
        same_files_but(before, after, changed),
        changed == authority_places() || changed == identity_places(),
    ensures
        custody_places_are_kept(before, after),
        intent_places_are_kept(before, after),
{
    lemma_place_is_kept(before, after, changed, Place::StateRoot);
    lemma_place_is_kept(before, after, changed, Place::SetupDirectory);
    lemma_place_is_kept(before, after, changed, Place::IntentRecord);
    lemma_place_is_kept(before, after, changed, Place::CredentialDirectory);
    lemma_place_is_kept(before, after, changed, Place::Ciphertext);
    lemma_place_is_kept(before, after, changed, Place::CiphertextTemporary);
    lemma_place_is_kept(before, after, changed, Place::SystemdCreds);
    lemma_place_is_kept(before, after, changed, Place::SystemdAnalyze);
    lemma_place_is_kept(before, after, changed, Place::HostSecret);
    lemma_place_is_kept(before, after, changed, Place::ConfigRoot);
    lemma_place_is_kept(before, after, changed, Place::SystemdDirectory);
    lemma_place_is_kept(before, after, changed, Place::SystemdUserDirectory);
    lemma_place_is_kept(before, after, changed, Place::DropinDirectory);
    lemma_place_is_kept(before, after, changed, Place::Dropin);
    lemma_place_is_kept(before, after, changed, Place::DropinTemporary);
}

/// Making the database touches neither the intent nor the identity nor the custody.
proof fn lemma_database_leaves_the_rest(before: Host, after: Host)
    requires
        same_files_but(before, after, authority_places()),
    ensures
        intent_places_are_kept(before, after),
        identity_places_are_kept(before, after),
        custody_places_are_kept(before, after),
{
    let changed = authority_places();
    lemma_custody_places_are_kept(before, after, changed);
    lemma_place_is_kept(before, after, changed, Place::BootstrapDirectory);
    lemma_place_is_kept(before, after, changed, Place::IdentityRecord);
}

/// Making the identity touches neither the intent nor the custody nor the database.
proof fn lemma_identity_leaves_the_rest(before: Host, after: Host)
    requires
        same_files_but(before, after, identity_places()),
    ensures
        intent_places_are_kept(before, after),
        custody_places_are_kept(before, after),
        database_places_are_kept(before, after),
{
    let changed = identity_places();
    lemma_custody_places_are_kept(before, after, changed);
    lemma_place_is_kept(before, after, changed, Place::DatabaseDirectory);
    lemma_place_is_kept(before, after, changed, Place::Database);
}

/// The records are ready for the owner: there are none, or they are already those of the stored
/// identity with the sealed key.
pub open spec fn records_are_ready(
    installation: Installation,
    public_device_identity: PublicIdentityView,
) -> bool {
    ||| is_empty(installation.database.committed)
    ||| {
        &&& stored_identity(installation.host) is Some
        &&& sealed_identity(installation.host) is Some
        &&& holds_owner(
            installation.database.committed,
            enrolled(stored_identity(installation.host)->0, public_device_identity),
            transport_identity_of(sealed_identity(installation.host)->0),
        )
    }
}

/// What bootstrapping comes to: the records are made where there are none, and are current
/// otherwise.
pub open spec fn ready_outcome(tables: Tables) -> OwnerPcLocalAuthorityBootstrapOutcome {
    if is_empty(tables) {
        OwnerPcLocalAuthorityBootstrapOutcome::Initialized
    } else {
        OwnerPcLocalAuthorityBootstrapOutcome::AlreadyCurrent
    }
}

proof fn lemma_composed_authority_is_bootstrapped(
    uid: u32,
    tpm2: bool,
    inputs: InputsView,
    environment: HostEnvironment,
    before: Installation,
    result: Result<
        OwnerPcLocalAuthorityBootstrapOutcome,
        OwnerFirstSetupLocalAuthorityBootstrapError,
    >,
    after: Installation,
)
    requires
        ends_well(
            uid,
            tpm2,
            bootstrap_inputs_plan(inputs, environment),
            before,
            result,
            after,
        ),
        environment.uid == uid,
        environment.state_root_path() is Some,
        database_place_is_usable(before.host, uid),
        inputs.binding.lifecycle == DeviceLifecycle::Enrolled,
        owner_is_encodable(
            inputs.binding,
            transport_identity_of(inputs.transport_identity),
        ),
        is_empty(before.database.committed) || holds_owner(
            before.database.committed,
            inputs.binding,
            transport_identity_of(inputs.transport_identity),
        ),
    ensures
        result == Ok::<_, OwnerFirstSetupLocalAuthorityBootstrapError>(
            ready_outcome(before.database.committed),
        ),
        database_is_trusted(after.host, uid),
        same_files_but(before.host, after.host, authority_places()),
{
    broadcast use group_well_steps;

    let (opened, middle) = choose|
        opened: Result<(), DurableRegistrySqliteCustodyError>,
        middle: Installation,
    | #[trigger]
        ends_well(uid, tpm2, open_authority_plan(environment), before, opened, middle)
            && ends_well(
            uid,
            tpm2,
            bootstrap_opened_plan(opened, inputs),
            middle,
            result,
            after,
        );
    usable_authority_is_opened(uid, tpm2, environment, before, opened, middle);
    lemma_owner_is_bootstrapped(uid, tpm2, opened, inputs, middle, result, after);
    lemma_files_stay(
        before.host,
        middle.host,
        after.host,
        authority_places(),
        authority_places(),
        authority_places(),
    );
}

/// The identity, the custody and the database are ready for the local authority of the owner.
pub open spec fn authority_is_ready(
    installation: Installation,
    owner: OwnerIdentityView,
    policy: TransportIdentityProvisioningPolicy,
    public_device_identity: PublicIdentityView,
    environment: HostEnvironment,
) -> bool {
    let host = installation.host;
    let uid = environment.uid;
    &&& environment_is_usable(environment, policy)
    &&& identity_place_is_trusted(host, true, uid)
    &&& loaded_identity(host, uid) is Ok
    &&& loaded_identity(host, uid)->Ok_0 == owner
    &&& is_ready_for_provisioning(host, uid) || custody_is_in_place(
        host,
        policy,
        ciphertext_path_below(environment.state_root_path()->0),
        uid,
    )
    &&& database_place_is_usable(host, uid)
    &&& records_are_ready(installation, public_device_identity)
    &&& fits(public_device_identity.bytes)
}

/// On a working installation that is ready for it, the local authority of the owner is
/// bootstrapped, and everything that it rests on is trusted from there on.
pub proof fn local_authority_is_bootstrapped(
    owner: OwnerIdentityView,
    policy: TransportIdentityProvisioningPolicy,
    public_device_identity: PublicIdentityView,
    environment: HostEnvironment,
    before: Installation,
    result: Result<
        OwnerPcLocalAuthorityBootstrapOutcome,
        OwnerFirstSetupLocalAuthorityBootstrapError,
    >,
    after: Installation,
)
    requires
        ends_well(
            environment.uid,
            policy is Preferred,
            local_authority_plan(owner, policy, public_device_identity, environment),
            before,
            result,
            after,
        ),
        authority_is_ready(before, owner, policy, public_device_identity, environment),
    ensures
        result == Ok::<_, OwnerFirstSetupLocalAuthorityBootstrapError>(
            ready_outcome(before.database.committed),
        ),
        identity_place_is_trusted(after.host, true, environment.uid),
        loaded_identity(after.host, environment.uid) == loaded_identity(
            before.host,
            environment.uid,
        ),
        custody_is_in_place(
            after.host,
            policy,
            ciphertext_path_below(environment.state_root_path()->0),
            environment.uid,
        ),
        database_is_trusted(after.host, environment.uid),
        intent_places_are_kept(before.host, after.host),
{
    broadcast use group_well_steps;

    let uid = environment.uid;
    let tpm2 = policy is Preferred;
    let (composed, host) = choose|
        composed: Result<InputsView, OwnerFirstSetupRetryCallSiteError>,
        host: Host,
    | #[trigger]
        ends_capably(
            uid,
            tpm2,
            retry_inputs_plan(owner, policy, public_device_identity, environment),
            before.host,
            composed,
            host,
        ) && ends_well(
            uid,
            tpm2,
            bootstrap_composed_plan(composed, environment),
            Installation { host, ..before },
            result,
            after,
        );
    let middle = Installation { host, ..before };
    inputs_are_composed(
        uid,
        owner,
        policy,
        public_device_identity,
        environment,
        before.host,
        composed,
        host,
    );
    lemma_custody_leaves_the_rest(before.host, host);
    let inputs = composed->Ok_0;
    lemma_stored_owner_is_encodable(
        before.host,
        owner,
        public_device_identity,
        transport_identity_of(inputs.transport_identity),
    );
    lemma_composed_authority_is_bootstrapped(
        uid,
        tpm2,
        inputs,
        environment,
        middle,
        result,
        after,
    );
    lemma_database_leaves_the_rest(host, after.host);
}

/// The identity is there, trusted and well formed, or it can be made.
pub open spec fn identity_is_ready(host: Host, uid: u32) -> bool {
    &&& identity_place_is_usable(host, true, uid)
    &&& if host.files.contains_key(Place::IdentityRecord) {
        loaded_identity(host, uid) is Ok
    } else {
        !host.files.contains_key(Place::IdentityTemporary)
    }
}

proof fn lemma_identity_is_ensured(
    uid: u32,
    tpm2: bool,
    environment: HostEnvironment,
    host: Host,
    result: Result<IdentityOutcomeView, OwnerFirstSetupBootstrapInputError>,
    after: Host,
)
    requires
        ends_capably(
            uid,
            tpm2,
            ensure_identity_from_environment(environment),
            host,
            result,
            after,
        ),
        environment.euid == uid,
        environment.state_root_path() is Some,
        identity_is_ready(host, uid),
    ensures
        result is Ok,
        identity_place_is_trusted(after, true, uid),
        loaded_identity(after, uid) == Ok::<_, OwnerFirstSetupBootstrapInputError>(
            result->Ok_0.identity(),
        ),
        stored_identity(host) is Some ==> stored_identity(after) == stored_identity(host),
        same_files_but(host, after, identity_places()),
{
    let plan = ensure_identity_from_environment(environment);
    lemma_capable_host(uid, tpm2, plan, host, result, after);
    identity_is_created_once(true, uid, host, result, after);
    if host.files.contains_key(Place::IdentityRecord) {
        existing_identity_decides(true, uid, host, result, after);
    } else {
        lemma_absent_identity_is_created(true, uid, host, result, after);
    }
}

/// The intent is there and trusted, and everything else that a first run needs is ready: each part
/// is in place and trusted already, or it can be made.
pub open spec fn first_run_is_ready(
    installation: Installation,
    selection: OwnerFirstSetupTransportCustodySelection,
    public_device_identity: PublicIdentityView,
    environment: HostEnvironment,
) -> bool {
    let host = installation.host;
    let uid = environment.uid;
    &&& environment_is_usable(environment, selection.policy())
    &&& intent_place_is_trusted(host, true, uid)
    &&& loaded_intent(host, uid) == Ok::<_, OwnerFirstRunSetupIntentError>(selection)
    &&& identity_is_ready(host, uid)
    &&& is_ready_for_provisioning(host, uid) || custody_is_in_place(
        host,
        selection.policy(),
        ciphertext_path_below(environment.state_root_path()->0),
        uid,
    )
    &&& database_place_is_usable(host, uid)
    &&& records_are_ready(installation, public_device_identity)
    &&& fits(public_device_identity.bytes)
}

/// Everything that a first run makes is in place and trusted.
pub open spec fn first_run_is_in_place(
    host: Host,
    policy: TransportIdentityProvisioningPolicy,
    environment: HostEnvironment,
) -> bool {
    let uid = environment.uid;
    &&& identity_place_is_trusted(host, true, uid)
    &&& loaded_identity(host, uid) is Ok
    &&& custody_is_in_place(
        host,
        policy,
        ciphertext_path_below(environment.state_root_path()->0),
        uid,
    )
    &&& database_is_trusted(host, uid)
}

/// On a working installation that is ready for it, a first run succeeds under the selection. It
/// does not touch the intent.
pub proof fn first_run_succeeds(
    selection: OwnerFirstSetupTransportCustodySelection,
    public_device_identity: PublicIdentityView,
    environment: HostEnvironment,
    before: Installation,
    result: Result<OwnerPcLocalAuthorityBootstrapOutcome, OwnerFirstRunOrchestrationError>,
    after: Installation,
)
    requires
        ends_well(
            environment.uid,
            selection.policy() is Preferred,
            orchestration_plan(selection, public_device_identity, environment),
            before,
            result,
            after,
        ),
        first_run_is_ready(before, selection, public_device_identity, environment),
    ensures
        result == Ok::<_, OwnerFirstRunOrchestrationError>(
            ready_outcome(before.database.committed),
        ),
        first_run_is_in_place(after.host, selection.policy(), environment),
        intent_places_are_kept(before.host, after.host),
{
    broadcast use group_well_steps;

    let uid = environment.uid;
    let policy = selection.policy();
    let tpm2 = policy is Preferred;
    let (ensured, host) = choose|
        ensured: Result<IdentityOutcomeView, OwnerFirstSetupBootstrapInputError>,
        host: Host,
    | #[trigger]
        ends_capably(
            uid,
            tpm2,
            ensure_identity_from_environment(environment),
            before.host,
            ensured,
            host,
        ) && ends_well(
            uid,
            tpm2,
            orchestration_for_plan(ensured, selection, public_device_identity, environment),
            Installation { host, ..before },
            result,
            after,
        );
    let middle = Installation { host, ..before };
    lemma_identity_is_ensured(uid, tpm2, environment, before.host, ensured, host);
    lemma_identity_leaves_the_rest(before.host, host);
    let owner = ensured->Ok_0.identity();
    assert(authority_is_ready(middle, owner, policy, public_device_identity, environment));
    assert forall|
        bootstrapped: Result<
            OwnerPcLocalAuthorityBootstrapOutcome,
            OwnerFirstSetupLocalAuthorityBootstrapError,
        >,
        end: Installation,
    | #[trigger]
        ends_well(
            uid,
            tpm2,
            local_authority_plan(owner, policy, public_device_identity, environment),
            middle,
            bootstrapped,
            end,
        ) implies bootstrapped == Ok::<_, OwnerFirstSetupLocalAuthorityBootstrapError>(
        ready_outcome(before.database.committed),
    ) && first_run_is_in_place(end.host, policy, environment) && intent_places_are_kept(
        before.host,
        end.host,
    ) by {
        local_authority_is_bootstrapped(
            owner,
            policy,
            public_device_identity,
            environment,
            middle,
            bootstrapped,
            end,
        );
    }
}

broadcast proof fn lemma_intent_is_loaded(
    uid: u32,
    tpm2: bool,
    host: Host,
    result: Result<OwnerFirstSetupTransportCustodySelection, OwnerFirstRunSetupIntentError>,
    after: Host,
)
    requires
        #[trigger] ends_capably(uid, tpm2, load_intent_plan(true, uid), host, result, after),
        intent_place_is_trusted(host, true, uid),
    ensures
        after == host,
        result == loaded_intent(host, uid),
{
    lemma_capable_host(uid, tpm2, load_intent_plan(true, uid), host, result, after);
    crate::setup_intent_laws::loading_is_decided_by_the_record(true, uid, host, result, after);
}

broadcast proof fn lemma_intent_is_retired(
    uid: u32,
    tpm2: bool,
    selection: OwnerFirstSetupTransportCustodySelection,
    host: Host,
    result: Result<OwnerFirstRunSetupIntentRetirementOutcome, OwnerFirstRunSetupIntentError>,
    after: Host,
)
    requires
        #[trigger] ends_capably(
            uid,
            tpm2,
            retire_intent_plan(true, uid, selection),
            host,
            result,
            after,
        ),
        intent_place_is_trusted(host, true, uid),
        loaded_intent(host, uid) == Ok::<_, OwnerFirstRunSetupIntentError>(selection),
    ensures
        result == Ok::<_, OwnerFirstRunSetupIntentError>(
            OwnerFirstRunSetupIntentRetirementOutcome::Retired(selection),
        ),
        after == (Host { files: host.files.remove(Place::IntentRecord), ..host }),
{
    lemma_capable_host(uid, tpm2, retire_intent_plan(true, uid, selection), host, result, after);
    retirement_is_decided_by_the_record(true, uid, selection, host, result, after);
}

/// On a working installation that is ready for it, a first run is completed: it succeeds, its
/// intent is retired, and everything is established under the selection and trusted. It does not
/// matter how far an earlier attempt came.
pub proof fn ready_first_run_is_completed(
    selection: OwnerFirstSetupTransportCustodySelection,
    public_device_identity: PublicIdentityView,
    environment: HostEnvironment,
    before: Installation,
    result: Result<OwnerFirstRunOrchestrationAndRetirementOutcome, OwnerFirstRunOrchestrationError>,
    after: Installation,
)
    requires
        ends_well(
            environment.uid,
            selection.policy() is Preferred,
            orchestration_and_retirement_plan(public_device_identity, environment),
            before,
            result,
            after,
        ),
        first_run_is_ready(before, selection, public_device_identity, environment),
        is_valid(before, public_device_identity),
    ensures
        result == Ok::<_, OwnerFirstRunOrchestrationError>(
            OwnerFirstRunOrchestrationAndRetirementOutcome {
                local_authority_outcome: ready_outcome(before.database.committed),
                setup_intent_retirement_outcome:
                    OwnerFirstRunSetupIntentRetirementOutcome::Retired(selection),
            },
        ),
        is_established(after, public_device_identity, selection.policy(), environment),
        first_run_is_in_place(after.host, selection.policy(), environment),
        intent_place_is_trusted(after.host, true, environment.uid),
        !after.host.files.contains_key(Place::IntentRecord),
{
    broadcast use {group_well_steps, lemma_intent_is_loaded, lemma_intent_is_retired};

    let uid = environment.uid;
    let tpm2 = selection.policy() is Preferred;
    assert forall|
        executed: Result<OwnerPcLocalAuthorityBootstrapOutcome, OwnerFirstRunOrchestrationError>,
        middle: Installation,
    | #[trigger]
        ends_well(
            uid,
            tpm2,
            orchestration_plan(selection, public_device_identity, environment),
            before,
            executed,
            middle,
        ) implies executed == Ok::<_, OwnerFirstRunOrchestrationError>(
        ready_outcome(before.database.committed),
    ) && first_run_is_in_place(middle.host, selection.policy(), environment)
        && intent_places_are_kept(before.host, middle.host) by {
        first_run_succeeds(
            selection,
            public_device_identity,
            environment,
            before,
            executed,
            middle,
        );
    }
    let plan = orchestration_and_retirement_plan(public_device_identity, environment);
    lemma_working_installation(uid, tpm2, plan, before, result, after);
    completed_first_run_retires_its_intent(
        public_device_identity,
        environment,
        before,
        result,
        after,
    );
}

broadcast proof fn lemma_intent_is_inspected(
    uid: u32,
    tpm2: bool,
    host: Host,
    result: Result<OwnerFirstRunSetupIntentPresence, OwnerFirstRunSetupIntentError>,
    after: Host,
)
    requires
        #[trigger] ends_capably(uid, tpm2, inspect_intent_plan(true, uid), host, result, after),
        intent_place_is_trusted(host, true, uid),
        host.files.contains_key(Place::IntentRecord) ==> loaded_intent(host, uid) is Ok,
    ensures
        after == host,
        result == Ok::<_, OwnerFirstRunSetupIntentError>(
            if host.files.contains_key(Place::IntentRecord) {
                OwnerFirstRunSetupIntentPresence::Present
            } else {
                OwnerFirstRunSetupIntentPresence::Absent
            },
        ),
{
    lemma_capable_host(uid, tpm2, inspect_intent_plan(true, uid), host, result, after);
    inspection_is_decided_by_the_record(true, uid, host, result, after);
}

/// On a working installation that is ready for it, startup completes the first run.
pub proof fn startup_completes_a_ready_first_run(
    selection: OwnerFirstSetupTransportCustodySelection,
    public_device_identity: PublicIdentityView,
    environment: HostEnvironment,
    before: Installation,
    result: Result<OwnerStartupStateDispatchOutcome, OwnerStartupStateDispatchError>,
    after: Installation,
)
    requires
        ends_well(
            environment.uid,
            selection.policy() is Preferred,
            dispatch_plan(public_device_identity, environment),
            before,
            result,
            after,
        ),
        first_run_is_ready(before, selection, public_device_identity, environment),
        is_valid(before, public_device_identity),
    ensures
        result == Ok::<_, OwnerStartupStateDispatchError>(
            OwnerStartupStateDispatchOutcome::FirstRunCompleted(
                OwnerFirstRunOrchestrationAndRetirementOutcome {
                    local_authority_outcome: ready_outcome(before.database.committed),
                    setup_intent_retirement_outcome:
                        OwnerFirstRunSetupIntentRetirementOutcome::Retired(selection),
                },
            ),
        ),
        is_established(after, public_device_identity, selection.policy(), environment),
        first_run_is_in_place(after.host, selection.policy(), environment),
        intent_place_is_trusted(after.host, true, environment.uid),
        !after.host.files.contains_key(Place::IntentRecord),
{
    broadcast use {group_well_steps, lemma_intent_is_inspected};

    let uid = environment.uid;
    let tpm2 = selection.policy() is Preferred;
    assert forall|
        executed: Result<
            OwnerFirstRunOrchestrationAndRetirementOutcome,
            OwnerFirstRunOrchestrationError,
        >,
        end: Installation,
    | #[trigger]
        ends_well(
            uid,
            tpm2,
            orchestration_and_retirement_plan(public_device_identity, environment),
            before,
            executed,
            end,
        ) implies executed == Ok::<_, OwnerFirstRunOrchestrationError>(
        OwnerFirstRunOrchestrationAndRetirementOutcome {
            local_authority_outcome: ready_outcome(before.database.committed),
            setup_intent_retirement_outcome: OwnerFirstRunSetupIntentRetirementOutcome::Retired(
                selection,
            ),
        },
    ) && is_established(end, public_device_identity, selection.policy(), environment)
        && first_run_is_in_place(end.host, selection.policy(), environment)
        && intent_place_is_trusted(end.host, true, uid) && !end.host.files.contains_key(
        Place::IntentRecord,
    ) by {
        ready_first_run_is_completed(
            selection,
            public_device_identity,
            environment,
            before,
            executed,
            end,
        );
    }
}

/// On a working installation without an intent, where everything is established and trusted,
/// startup verifies the restart under the established policy, and changes nothing.
pub proof fn startup_verifies_an_established_restart(
    tpm2: bool,
    policy: TransportIdentityProvisioningPolicy,
    public_device_identity: PublicIdentityView,
    environment: HostEnvironment,
    before: Installation,
    result: Result<OwnerStartupStateDispatchOutcome, OwnerStartupStateDispatchError>,
    after: Installation,
)
    requires
        ends_well(
            environment.uid,
            tpm2,
            dispatch_plan(public_device_identity, environment),
            before,
            result,
            after,
        ),
        intent_place_is_trusted(before.host, true, environment.uid),
        !before.host.files.contains_key(Place::IntentRecord),
        is_established(before, public_device_identity, policy, environment),
        restart_is_trusted(before.host, environment),
    ensures
        result matches Ok(OwnerStartupStateDispatchOutcome::EstablishedRestartVerified(proof))
            && proof.policy() == policy,
        is_unchanged(before, after),
{
    broadcast use {group_well_steps, lemma_intent_is_inspected};

    let uid = environment.uid;
    assert forall|
        verified: Result<
            OwnerEstablishedStartupAuthorityProof,
            OwnerEstablishedStartupAuthorityError,
        >,
        end: Installation,
    | #[trigger]
        ends_well(
            uid,
            tpm2,
            verify_established_plan(public_device_identity, environment),
            before,
            verified,
            end,
        ) implies (verified matches Ok(proof) && proof.policy() == policy) && is_unchanged(
        before,
        end,
    ) by {
        established_restart_is_verified(
            tpm2,
            public_device_identity,
            policy,
            environment,
            before,
            verified,
            end,
        );
    }
}

/// On a working installation that is ready for it, one start completes the first run and the next
/// one verifies the restart under the selection, and changes nothing.
pub proof fn ready_first_run_is_verified_at_the_next_start(
    selection: OwnerFirstSetupTransportCustodySelection,
    tpm2: bool,
    public_device_identity: PublicIdentityView,
    environment: HostEnvironment,
    before: Installation,
    first: Result<OwnerStartupStateDispatchOutcome, OwnerStartupStateDispatchError>,
    middle: Installation,
    second: Result<OwnerStartupStateDispatchOutcome, OwnerStartupStateDispatchError>,
    after: Installation,
)
    requires
        ends_well(
            environment.uid,
            selection.policy() is Preferred,
            dispatch_plan(public_device_identity, environment),
            before,
            first,
            middle,
        ),
        ends_well(
            environment.uid,
            tpm2,
            dispatch_plan(public_device_identity, environment),
            middle,
            second,
            after,
        ),
        first_run_is_ready(before, selection, public_device_identity, environment),
        is_valid(before, public_device_identity),
        environment_is_usable(environment, TransportIdentityProvisioningPolicy::Preferred),
    ensures
        first matches Ok(OwnerStartupStateDispatchOutcome::FirstRunCompleted(_)),
        second matches Ok(OwnerStartupStateDispatchOutcome::EstablishedRestartVerified(proof))
            && proof.policy() == selection.policy(),
        is_unchanged(middle, after),
{
    startup_completes_a_ready_first_run(
        selection,
        public_device_identity,
        environment,
        before,
        first,
        middle,
    );
    startup_verifies_an_established_restart(
        tpm2,
        selection.policy(),
        public_device_identity,
        environment,
        middle,
        second,
        after,
    );
}

} // verus!
