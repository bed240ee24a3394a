//! What starting up does to an installation.
use vstd::prelude::*;

use crate::domain::{
    all_zero, transport_identity_of, BindingView, PublicIdentityView, TransportIdentity,
};
use crate::durable_registry_authority::DurableRegistryAuthorityError;
use crate::durable_registry_codec::is_storable;
use crate::durable_registry_sqlite_custody::{
    open_authority_plan, open_existing_authority_plan, DurableRegistrySqliteCustodyError,
};
use crate::durable_registry_sqlite_store::{
    load_device_plan, load_membership_plan, open_existing_plan, owner_device,
    OwnerPcLocalAuthorityBootstrapOutcome,
};
use crate::environment::HostEnvironment;
use crate::host::{group_host_steps, lemma_others_stay, same_but, Host};
use crate::installation::{
    ends, group_startup_steps, is_reading, lemma_reading_bind, lemma_reading_keeps_the_host,
    lemma_registry_part, Installation,
};
use crate::outside::Place;
use crate::owner_established_startup_authority::{
    lemma_proof_of, verify_established_plan, verify_records_plan,
    OwnerEstablishedStartupAuthorityError, OwnerEstablishedStartupAuthorityProof,
};
use crate::owner_first_run_orchestration::{
    orchestration_and_retirement_plan, orchestration_for_plan, orchestration_plan,
    retirement_plan, selected_first_run_plan,
    OwnerFirstRunOrchestrationAndRetirementOutcome, OwnerFirstRunOrchestrationError,
};
use crate::owner_first_setup_bootstrap_input_composition::inputs_for;
use crate::owner_first_setup_bootstrap_inputs::{
    ensure_identity_from_environment, lemma_record_has_an_identity, IdentityOutcomeView,
    InputsView, OwnerFirstSetupBootstrapInputError, OwnerIdentityView,
};
use crate::owner_first_setup_custody_policy_orchestration::OwnerFirstSetupTransportCustodySelection;
use crate::owner_first_setup_execution_composition::create_inputs_plan;
use crate::owner_first_setup_local_authority_bootstrap_execution::{
    bootstrap_composed_plan, bootstrap_inputs_plan, bootstrap_opened_plan, local_authority_plan,
    OwnerFirstSetupLocalAuthorityBootstrapError,
};
use crate::owner_first_setup_retry_call_site_composition::{
    retry_inputs_plan, OwnerFirstSetupRetryCallSiteError,
};
use crate::owner_first_setup_transport_identity_recovery::{
    recover_setup_identity_plan, OwnerFirstSetupTransportIdentityRecoveryError,
};
use crate::owner_identity_laws::{
    established_database_place_is_only_checked, hardening_keeps_the_database,
    identity_is_created_once, loading_reads_the_stored_identity,
    preparing_the_database_place_makes_directories_only, stored_identity,
};
use crate::owner_startup_state_dispatch::{
    dispatch_plan, first_run_plan, restart_plan, OwnerStartupStateDispatchError,
    OwnerStartupStateDispatchOutcome,
};
use crate::registry_laws::{
    bootstrap_is_all_or_nothing, holds_owner, lemma_load_device_ends, lemma_load_membership_ends,
    opening_for_reading_changes_nothing, opening_keeps_the_records,
};
use crate::setup_intent_laws::{
    inspection_tells_present_from_absent, loading_reads_the_stored_intent,
    retirement_removes_only_the_expected_intent, stored_intent,
};
use crate::transport_custody_laws::{
    bindings_tell_policies_apart, established_recovery_reports_the_persisted_policy, inspection_requires_the_complete_pair,
    provisioned_places, provisioning_happens_once, recovery_only_reads, same_files_but,
    sealed_identity,
};
use crate::transport_identity_provisioning::{
    ciphertext_path_below, rendered_dropin, TransportIdentityProvisioningError,
    TransportIdentityProvisioningPolicy,
};

verus! {

/// Opening the owner's authority commits no record, and on the host it makes the database and the
/// two directories above it at most.
pub broadcast proof fn opening_the_authority_changes_no_record(
    environment: HostEnvironment,
    before: Installation,
    result: Result<(), DurableRegistrySqliteCustodyError>,
    after: Installation,
)
    requires
        #[trigger] ends(open_authority_plan(environment), before, result, after),
    ensures
        after.database.committed == before.database.committed,
        same_but(
            before.host,
            after.host,
            set![Place::ApplicationDirectory, Place::DatabaseDirectory, Place::Database],
        ),
{
    broadcast use {
        group_startup_steps,
        lemma_registry_part,
        opening_keeps_the_records,
        preparing_the_database_place_makes_directories_only,
        hardening_keeps_the_database,
        lemma_others_stay,
    };

    let directories = set![Place::ApplicationDirectory, Place::DatabaseDirectory];
    let files = set![Place::Database];
    assert forall|place: Place|
        !directories.contains(place) && !files.contains(place) implies (
    #[trigger] after.host.files.contains_key(place) == before.host.files.contains_key(place) && (
    before.host.files.contains_key(place) ==> after.host.files[place]
        == before.host.files[place])) by {}
}

proof fn lemma_open_existing_is_reading()
    ensures
        is_reading(open_existing_plan()),
{
    broadcast use lemma_reading_bind;

    reveal_with_fuel(is_reading, 3);
}

/// Opening the existing authority changes nothing.
pub broadcast proof fn opening_the_existing_authority_changes_nothing(
    environment: HostEnvironment,
    before: Installation,
    result: Result<(), DurableRegistrySqliteCustodyError>,
    after: Installation,
)
    requires
        #[trigger] ends(open_existing_authority_plan(environment), before, result, after),
    ensures
        after.host == before.host,
        after.database.committed == before.database.committed,
        result is Ok ==> after.database.open is None,
{
    broadcast use {
        group_startup_steps,
        lemma_registry_part,
        lemma_reading_keeps_the_host,
        opening_for_reading_changes_nothing,
        established_database_place_is_only_checked,
    };

    lemma_open_existing_is_reading();
}

/// The owner's binding with a device key, enrolled.
pub open spec fn enrolled(owner: OwnerIdentityView, public_device_identity: PublicIdentityView) -> BindingView {
    inputs_for(owner, public_device_identity, Seq::empty()).binding
}

/// The identity record, the transport custody and the authority of an installation agree: they are
/// those of one owner with this device key, and the custody is of this policy.
pub open spec fn is_established(
    installation: Installation,
    public_device_identity: PublicIdentityView,
    policy: TransportIdentityProvisioningPolicy,
    environment: HostEnvironment,
) -> bool {
    &&& environment.state_root_path() matches Some(state_root)
    &&& stored_identity(installation.host) matches Some(owner)
    &&& sealed_identity(installation.host) matches Some(fingerprint)
    &&& installation.host.content(Place::Dropin) is Some
    &&& installation.host.content(Place::Dropin) == rendered_dropin(
        ciphertext_path_below(state_root),
        policy.tier(),
    )
    &&& holds_owner(
        installation.database.committed,
        enrolled(owner, public_device_identity),
        transport_identity_of(fingerprint),
    )
}

proof fn lemma_loads_are_reading(owner: OwnerIdentityView)
    ensures
        is_reading(load_membership_plan(owner.workspace, owner.user)),
        is_reading(load_device_plan(owner.device)),
{
    broadcast use lemma_reading_bind;

    reveal_with_fuel(is_reading, 3);
}

/// Looking for the owner changes nothing. Success means that the owner's two records are there;
/// and where they are, nothing but a failure to read leads to another result.
broadcast proof fn lemma_verify_records_ends(
    owner: OwnerIdentityView,
    public_device_identity: PublicIdentityView,
    policy: TransportIdentityProvisioningPolicy,
    identity: TransportIdentity,
    before: Installation,
    result: Result<OwnerEstablishedStartupAuthorityProof, OwnerEstablishedStartupAuthorityError>,
    after: Installation,
)
    requires
        #[trigger] ends(
            verify_records_plan(owner, public_device_identity, policy, identity),
            before,
            result,
            after,
        ),
        before.database.open is None,
    ensures
        after == before,
        result matches Ok(proof) ==> proof.policy() == policy && holds_owner(
            before.database.committed,
            enrolled(owner, public_device_identity),
            identity,
        ),
        holds_owner(before.database.committed, enrolled(owner, public_device_identity), identity)
            ==> (result matches Err(error) ==> error
            == OwnerEstablishedStartupAuthorityError::AuthorityRead(
            DurableRegistryAuthorityError::ReadUnavailable,
        )),
{
    broadcast use {
        group_startup_steps,
        lemma_registry_part,
        lemma_reading_keeps_the_host,
        lemma_load_membership_ends,
        lemma_load_device_ends,
        lemma_proof_of,
    };

    lemma_loads_are_reading(owner);
}

/// A verified restart changes nothing, and found everything established under the policy that it
/// reports.
pub broadcast proof fn verified_restart_found_everything_established(
    public_device_identity: PublicIdentityView,
    environment: HostEnvironment,
    before: Installation,
    result: Result<OwnerEstablishedStartupAuthorityProof, OwnerEstablishedStartupAuthorityError>,
    after: Installation,
)
    requires
        #[trigger] ends(
            verify_established_plan(public_device_identity, environment),
            before,
            result,
            after,
        ),
    ensures
        after.host == before.host,
        after.database.committed == before.database.committed,
        result matches Ok(proof) ==> is_established(
            before,
            public_device_identity,
            proof.policy(),
            environment,
        ),
{
    broadcast use {
        group_startup_steps,
        loading_reads_the_stored_identity,
        established_recovery_reports_the_persisted_policy,
        opening_the_existing_authority_changes_nothing,
        lemma_verify_records_ends,
    };
    broadcast use crate::host::lemma_finish_ends;

}

/// Something that had to be read could not be: a failure of the host or of the database, as opposed
/// to a finding about the owner.
pub open spec fn is_reading_failure(error: OwnerEstablishedStartupAuthorityError) -> bool {
    match error {
        OwnerEstablishedStartupAuthorityError::OwnerIdentity(_)
        | OwnerEstablishedStartupAuthorityError::TransportIdentity(_)
        | OwnerEstablishedStartupAuthorityError::DatabaseCustody(_) => true,
        OwnerEstablishedStartupAuthorityError::AuthorityRead(cause) => cause
            == DurableRegistryAuthorityError::ReadUnavailable,
        _ => false,
    }
}

/// Where everything is established, a restart is verified under the established policy unless
/// something cannot be read: the owner is never reported as missing or as not current.
pub proof fn established_owner_is_recognised(
    public_device_identity: PublicIdentityView,
    policy: TransportIdentityProvisioningPolicy,
    environment: HostEnvironment,
    before: Installation,
    result: Result<OwnerEstablishedStartupAuthorityProof, OwnerEstablishedStartupAuthorityError>,
    after: Installation,
)
    requires
        is_established(before, public_device_identity, policy, environment),
        ends(verify_established_plan(public_device_identity, environment), before, result, after),
    ensures
        match result {
            Ok(proof) => proof.policy() == policy,
            Err(error) => is_reading_failure(error),
        },
{
    broadcast use {
        group_startup_steps,
        loading_reads_the_stored_identity,
        established_recovery_reports_the_persisted_policy,
        opening_the_existing_authority_changes_nothing,
        lemma_verify_records_ends,
    };
    broadcast use crate::host::lemma_finish_ends;

    bindings_tell_policies_apart(ciphertext_path_below(environment.state_root_path()->0));
}

/// A custody of a policy is in place below the state root, with this fingerprint.
pub open spec fn has_custody(
    host: Host,
    policy: TransportIdentityProvisioningPolicy,
    environment: HostEnvironment,
    fingerprint: Seq<u8>,
) -> bool {
    &&& environment.state_root_path() matches Some(state_root)
    &&& sealed_identity(host) == Some(fingerprint)
    &&& host.content(Place::Dropin) is Some
    &&& host.content(Place::Dropin) == rendered_dropin(
        ciphertext_path_below(state_root),
        policy.tier(),
    )
}

/// A fingerprint as a transport identity can have one.
pub open spec fn is_fingerprint(fingerprint: Seq<u8>) -> bool {
    exists|identity: TransportIdentity| #[trigger] identity@ == fingerprint
}

broadcast proof fn lemma_create_inputs_ends(
    owner: OwnerIdentityView,
    policy: TransportIdentityProvisioningPolicy,
    public_device_identity: PublicIdentityView,
    environment: HostEnvironment,
    host: Host,
    result: Result<InputsView, TransportIdentityProvisioningError>,
    after: Host,
)
    requires
        #[trigger] crate::host::ends(
            create_inputs_plan(owner, policy, public_device_identity, environment),
            host,
            result,
            after,
        ),
    ensures
        same_files_but(host, after, provisioned_places()),
        result matches Ok(inputs) ==> has_custody(
            after,
            policy,
            environment,
            inputs.transport_identity,
        ) && is_fingerprint(inputs.transport_identity) && inputs == inputs_for(
            owner,
            public_device_identity,
            inputs.transport_identity,
        ),
{
    broadcast use {group_host_steps, provisioning_happens_once};

}

broadcast proof fn lemma_recover_setup_identity_ends(
    owner: OwnerIdentityView,
    policy: TransportIdentityProvisioningPolicy,
    environment: HostEnvironment,
    host: Host,
    result: Result<Seq<u8>, OwnerFirstSetupTransportIdentityRecoveryError>,
    after: Host,
)
    requires
        #[trigger] crate::host::ends(
            recover_setup_identity_plan(owner, policy, environment),
            host,
            result,
            after,
        ),
    ensures
        after == host,
        result matches Ok(fingerprint) ==> has_custody(host, policy, environment, fingerprint),
{
    broadcast use {group_host_steps, loading_reads_the_stored_identity, recovery_only_reads};

}

/// Composing the inputs touches nothing but the transport custody. Success means that the custody
/// of exactly this policy is in place and that its fingerprint is the one in the inputs.
pub broadcast proof fn inputs_are_those_of_the_custody(
    owner: OwnerIdentityView,
    policy: TransportIdentityProvisioningPolicy,
    public_device_identity: PublicIdentityView,
    environment: HostEnvironment,
    host: Host,
    result: Result<InputsView, OwnerFirstSetupRetryCallSiteError>,
    after: Host,
)
    requires
        #[trigger] crate::host::ends(
            retry_inputs_plan(owner, policy, public_device_identity, environment),
            host,
            result,
            after,
        ),
    ensures
        same_files_but(host, after, provisioned_places()),
        result matches Ok(inputs) ==> {
            &&& stored_identity(host) == Some(owner)
            &&& has_custody(after, policy, environment, inputs.transport_identity)
            &&& inputs == inputs_for(owner, public_device_identity, inputs.transport_identity)
            &&& is_fingerprint(inputs.transport_identity) || sealed_identity(host) == Some(
                inputs.transport_identity,
            )
        },
{
    broadcast use {
        group_host_steps,
        loading_reads_the_stored_identity,
        inspection_requires_the_complete_pair,
        lemma_create_inputs_ends,
        lemma_recover_setup_identity_ends,
    };

}

/// The places where a first run may leave something, besides the intent.
pub open spec fn first_run_places() -> Set<Place> {
    provisioned_places().union(
        set![
            Place::BootstrapDirectory,
            Place::IdentityRecord,
            Place::IdentityTemporary,
            Place::DatabaseDirectory,
            Place::Database,
        ],
    )
}

/// What the types guarantee of the values at hand: a device key has bytes, and what the ciphertext
/// seals has a fingerprint.
pub open spec fn is_valid(installation: Installation, public_device_identity: PublicIdentityView) -> bool {
    &&& public_device_identity.bytes.len() > 0
    &&& sealed_identity(installation.host) matches Some(fingerprint) ==> is_fingerprint(fingerprint)
}

proof fn lemma_owner_device_is_storable(
    host: Host,
    owner: OwnerIdentityView,
    public_device_identity: PublicIdentityView,
    sealing: Host,
    fingerprint: Seq<u8>,
)
    requires
        stored_identity(host) == Some(owner),
        public_device_identity.bytes.len() > 0,
        sealed_identity(sealing) == Some(fingerprint),
        is_fingerprint(fingerprint),
    ensures
        is_storable(
            owner_device(
                enrolled(owner, public_device_identity),
                transport_identity_of(fingerprint),
            ),
        ),
{
    lemma_record_has_an_identity(host.content(Place::IdentityRecord)->0);
    assert(!all_zero(fingerprint));
}

/// Whatever changed from one state to the next changed within one of two sets.
pub proof fn lemma_files_stay(
    before: Host,
    middle: Host,
    after: Host,
    first: Set<Place>,
    second: Set<Place>,
    all: Set<Place>,
)
    requires
        same_files_but(before, middle, first),
        same_files_but(middle, after, second),
        first.subset_of(all),
        second.subset_of(all),
    ensures
        same_files_but(before, after, all),
{
    assert forall|place: Place| !all.contains(place) implies (
    #[trigger] after.files.contains_key(place) == before.files.contains_key(place) && (
    before.files.contains_key(place) ==> after.files[place] == before.files[place])) by {
        assert(!first.contains(place));
        assert(!second.contains(place));
        assert(middle.files.contains_key(place) == before.files.contains_key(place));
        assert(after.files.contains_key(place) == middle.files.contains_key(place));
    }
}

/// The places that opening and bootstrapping the authority may touch.
pub open spec fn authority_places() -> Set<Place> {
    set![Place::ApplicationDirectory, Place::DatabaseDirectory, Place::Database]
}

proof fn lemma_bootstrap_opened_ends(
    opened: Result<(), DurableRegistrySqliteCustodyError>,
    inputs: InputsView,
    before: Installation,
    result: Result<
        OwnerPcLocalAuthorityBootstrapOutcome,
        OwnerFirstSetupLocalAuthorityBootstrapError,
    >,
    after: Installation,
)
    requires
        ends(bootstrap_opened_plan(opened, inputs), before, result, after),
        is_storable(
            owner_device(inputs.binding, transport_identity_of(inputs.transport_identity)),
        ),
    ensures
        same_files_but(before.host, after.host, set![Place::Database]),
        result is Ok ==> holds_owner(
            after.database.committed,
            inputs.binding,
            transport_identity_of(inputs.transport_identity),
        ),
{
    broadcast use {group_startup_steps, lemma_registry_part, bootstrap_is_all_or_nothing};

}

proof fn lemma_bootstrap_inputs_end(
    inputs: InputsView,
    environment: HostEnvironment,
    before: Installation,
    result: Result<
        OwnerPcLocalAuthorityBootstrapOutcome,
        OwnerFirstSetupLocalAuthorityBootstrapError,
    >,
    after: Installation,
)
    requires
        ends(bootstrap_inputs_plan(inputs, environment), before, result, after),
        is_storable(
            owner_device(inputs.binding, transport_identity_of(inputs.transport_identity)),
        ),
    ensures
        same_files_but(before.host, after.host, authority_places()),
        result is Ok ==> holds_owner(
            after.database.committed,
            inputs.binding,
            transport_identity_of(inputs.transport_identity),
        ),
{
    broadcast use group_startup_steps;

    let (opened, middle) = choose|
        opened: Result<(), DurableRegistrySqliteCustodyError>,
        middle: Installation,
    | #[trigger]
        ends(open_authority_plan(environment), before, opened, middle) && ends(
            bootstrap_opened_plan(opened, inputs),
            middle,
            result,
            after,
        );
    opening_the_authority_changes_no_record(environment, before, opened, middle);
    lemma_bootstrap_opened_ends(opened, inputs, middle, result, after);
    lemma_files_stay(
        before.host,
        middle.host,
        after.host,
        authority_places(),
        set![Place::Database],
        authority_places(),
    );
}

proof fn lemma_custody_stays(
    before: Host,
    after: Host,
    policy: TransportIdentityProvisioningPolicy,
    environment: HostEnvironment,
    fingerprint: Seq<u8>,
)
    requires
        has_custody(before, policy, environment, fingerprint),
        same_files_but(before, after, authority_places()),
    ensures
        has_custody(after, policy, environment, fingerprint),
{
    assert(!authority_places().contains(Place::Ciphertext));
    assert(!authority_places().contains(Place::Dropin));
    assert(after.files.contains_key(Place::Ciphertext) == before.files.contains_key(
        Place::Ciphertext,
    ));
    assert(after.files.contains_key(Place::Dropin) == before.files.contains_key(Place::Dropin));
}

proof fn lemma_identity_stays(before: Host, after: Host, changed: Set<Place>)
    requires
        same_files_but(before, after, changed),
        !changed.contains(Place::IdentityRecord),
    ensures
        stored_identity(after) == stored_identity(before),
{
    assert(after.files.contains_key(Place::IdentityRecord) == before.files.contains_key(
        Place::IdentityRecord,
    ));
}

/// Bootstrapping the local authority touches nothing but the transport custody and the database.
/// Success means that everything is established under exactly the policy.
pub broadcast proof fn local_authority_is_established(
    owner: OwnerIdentityView,
    policy: TransportIdentityProvisioningPolicy,
    public_device_identity: PublicIdentityView,
    environment: HostEnvironment,
    before: Installation,
    result: Result<
        OwnerPcLocalAuthorityBootstrapOutcome,
        OwnerFirstSetupLocalAuthorityBootstrapError,
    >,
    after: Installation,
)
    requires
        #[trigger] ends(
            local_authority_plan(owner, policy, public_device_identity, environment),
            before,
            result,
            after,
        ),
        is_valid(before, public_device_identity),
    ensures
        same_files_but(before.host, after.host, first_run_places()),
        result is Ok ==> is_established(after, public_device_identity, policy, environment),
{
    broadcast use group_startup_steps;

    let (composed, host) = choose|
        composed: Result<InputsView, OwnerFirstSetupRetryCallSiteError>,
        host: Host,
    | #[trigger]
        crate::host::ends(
            retry_inputs_plan(owner, policy, public_device_identity, environment),
            before.host,
            composed,
            host,
        ) && ends(
            bootstrap_composed_plan(composed, environment),
            Installation { host, ..before },
            result,
            after,
        );
    let middle = Installation { host, ..before };
    inputs_are_those_of_the_custody(
        owner,
        policy,
        public_device_identity,
        environment,
        before.host,
        composed,
        host,
    );
    if let Ok(inputs) = composed {
        lemma_owner_device_is_storable(
            before.host,
            owner,
            public_device_identity,
            host,
            inputs.transport_identity,
        );
        lemma_bootstrap_inputs_end(inputs, environment, middle, result, after);
        lemma_files_stay(
            before.host,
            host,
            after.host,
            provisioned_places(),
            authority_places(),
            first_run_places(),
        );
        lemma_custody_stays(host, after.host, policy, environment, inputs.transport_identity);
        lemma_identity_stays(before.host, host, provisioned_places());
        lemma_identity_stays(host, after.host, authority_places());
    }
}

/// The places that ensuring the owner's identity may touch.
pub open spec fn identity_places() -> Set<Place> {
    set![
        Place::ApplicationDirectory,
        Place::BootstrapDirectory,
        Place::IdentityTemporary,
        Place::IdentityRecord,
    ]
}

proof fn lemma_orchestration_for_ends(
    ensured: Result<IdentityOutcomeView, OwnerFirstSetupBootstrapInputError>,
    selection: OwnerFirstSetupTransportCustodySelection,
    public_device_identity: PublicIdentityView,
    environment: HostEnvironment,
    before: Installation,
    result: Result<OwnerPcLocalAuthorityBootstrapOutcome, OwnerFirstRunOrchestrationError>,
    after: Installation,
)
    requires
        ends(
            orchestration_for_plan(ensured, selection, public_device_identity, environment),
            before,
            result,
            after,
        ),
        is_valid(before, public_device_identity),
    ensures
        same_files_but(before.host, after.host, first_run_places()),
        result is Ok ==> is_established(
            after,
            public_device_identity,
            selection.policy(),
            environment,
        ),
        result matches Err(error) ==> error !is SetupIntentRetirement,
{
    broadcast use {group_startup_steps, local_authority_is_established};

}

/// A first run touches nothing but the identity, the transport custody and the database, and in
/// particular not the intent. Success means that everything is established under the policy of
/// exactly the selection.
pub broadcast proof fn first_run_establishes_the_owner(
    selection: OwnerFirstSetupTransportCustodySelection,
    public_device_identity: PublicIdentityView,
    environment: HostEnvironment,
    before: Installation,
    result: Result<OwnerPcLocalAuthorityBootstrapOutcome, OwnerFirstRunOrchestrationError>,
    after: Installation,
)
    requires
        #[trigger] ends(
            orchestration_plan(selection, public_device_identity, environment),
            before,
            result,
            after,
        ),
        is_valid(before, public_device_identity),
    ensures
        same_files_but(before.host, after.host, first_run_places()),
        result is Ok ==> is_established(
            after,
            public_device_identity,
            selection.policy(),
            environment,
        ),
        result matches Err(error) ==> error !is SetupIntentRetirement,
{
    broadcast use group_startup_steps;

    let (ensured, host) = choose|
        ensured: Result<IdentityOutcomeView, OwnerFirstSetupBootstrapInputError>,
        host: Host,
    | #[trigger]
        crate::host::ends(
            ensure_identity_from_environment(environment),
            before.host,
            ensured,
            host,
        ) && ends(
            orchestration_for_plan(ensured, selection, public_device_identity, environment),
            Installation { host, ..before },
            result,
            after,
        );
    let middle = Installation { host, ..before };
    assert(same_files_but(before.host, host, identity_places())) by {
        broadcast use {identity_is_created_once, crate::host::lemma_finish_ends};

    }
    assert(host.files.contains_key(Place::Ciphertext) == before.host.files.contains_key(
        Place::Ciphertext,
    ));
    assert(sealed_identity(host) == sealed_identity(before.host));
    lemma_orchestration_for_ends(
        ensured,
        selection,
        public_device_identity,
        environment,
        middle,
        result,
        after,
    );
    lemma_files_stay(
        before.host,
        host,
        after.host,
        identity_places(),
        first_run_places(),
        first_run_places(),
    );
}

proof fn lemma_retirement_ends(
    selection: OwnerFirstSetupTransportCustodySelection,
    executed: Result<OwnerPcLocalAuthorityBootstrapOutcome, OwnerFirstRunOrchestrationError>,
    public_device_identity: PublicIdentityView,
    environment: HostEnvironment,
    before: Installation,
    result: Result<OwnerFirstRunOrchestrationAndRetirementOutcome, OwnerFirstRunOrchestrationError>,
    after: Installation,
)
    requires
        ends(retirement_plan(selection, executed, environment), before, result, after),
        executed is Ok ==> is_established(
            before,
            public_device_identity,
            selection.policy(),
            environment,
        ),
        executed matches Err(error) ==> error !is SetupIntentRetirement,
    ensures
        after.database == before.database,
        after.host == before.host || after.host == (Host {
            files: before.host.files.remove(Place::IntentRecord),
            ..before.host
        }),
        result is Ok ==> !after.host.files.contains_key(Place::IntentRecord) && is_established(
            after,
            public_device_identity,
            selection.policy(),
            environment,
        ),
        result matches Err(error) ==> error is SetupIntentRetirement || after == before,
{
    broadcast use {
        group_startup_steps,
        retirement_removes_only_the_expected_intent,
        crate::host::lemma_finish_ends,
    };

}

proof fn lemma_selected_first_run_ends(
    selection: OwnerFirstSetupTransportCustodySelection,
    public_device_identity: PublicIdentityView,
    environment: HostEnvironment,
    before: Installation,
    result: Result<OwnerFirstRunOrchestrationAndRetirementOutcome, OwnerFirstRunOrchestrationError>,
    after: Installation,
)
    requires
        ends(
            selected_first_run_plan(selection, public_device_identity, environment),
            before,
            result,
            after,
        ),
        is_valid(before, public_device_identity),
    ensures
        result is Ok ==> !after.host.files.contains_key(Place::IntentRecord) && is_established(
            after,
            public_device_identity,
            selection.policy(),
            environment,
        ),
        result matches Err(error) ==> error is SetupIntentRetirement || (
        after.host.files.contains_key(Place::IntentRecord) == before.host.files.contains_key(
            Place::IntentRecord,
        ) && after.host.content(Place::IntentRecord) == before.host.content(Place::IntentRecord)),
{
    broadcast use group_startup_steps;

    let (executed, middle) = choose|
        executed: Result<OwnerPcLocalAuthorityBootstrapOutcome, OwnerFirstRunOrchestrationError>,
        middle: Installation,
    | #[trigger]
        ends(
            orchestration_plan(selection, public_device_identity, environment),
            before,
            executed,
            middle,
        ) && ends(retirement_plan(selection, executed, environment), middle, result, after);
    first_run_establishes_the_owner(
        selection,
        public_device_identity,
        environment,
        before,
        executed,
        middle,
    );
    assert(middle.host.files.contains_key(Place::IntentRecord) == before.host.files.contains_key(
        Place::IntentRecord,
    ));
    lemma_retirement_ends(
        selection,
        executed,
        public_device_identity,
        environment,
        middle,
        result,
        after,
    );
}

/// A completed first run ran exactly the stored intent: everything is established under its policy,
/// and the intent is gone. Until then the intent stays, so that a first run that failed is tried
/// again with the same selection.
pub broadcast proof fn completed_first_run_retires_its_intent(
    public_device_identity: PublicIdentityView,
    environment: HostEnvironment,
    before: Installation,
    result: Result<OwnerFirstRunOrchestrationAndRetirementOutcome, OwnerFirstRunOrchestrationError>,
    after: Installation,
)
    requires
        #[trigger] ends(
            orchestration_and_retirement_plan(public_device_identity, environment),
            before,
            result,
            after,
        ),
        is_valid(before, public_device_identity),
    ensures
        result is Ok ==> {
            &&& !after.host.files.contains_key(Place::IntentRecord)
            &&& stored_intent(before.host) matches Some(selection)
            &&& is_established(after, public_device_identity, selection.policy(), environment)
        },
        result matches Err(error) ==> error is SetupIntentRetirement || (
        after.host.files.contains_key(Place::IntentRecord) == before.host.files.contains_key(
            Place::IntentRecord,
        ) && stored_intent(after.host) == stored_intent(before.host)),
{
    broadcast use {group_startup_steps, loading_reads_the_stored_intent};
    broadcast use crate::host::lemma_finish_ends;

    assert forall|selection: OwnerFirstSetupTransportCustodySelection, middle: Installation|
        middle == before && #[trigger] ends(
            selected_first_run_plan(selection, public_device_identity, environment),
            middle,
            result,
            after,
        ) implies (result is Ok ==> !after.host.files.contains_key(Place::IntentRecord)
        && is_established(after, public_device_identity, selection.policy(), environment)) && (
    result matches Err(error) ==> error is SetupIntentRetirement || (
    after.host.files.contains_key(Place::IntentRecord) == before.host.files.contains_key(
        Place::IntentRecord,
    ) && after.host.content(Place::IntentRecord) == before.host.content(Place::IntentRecord))) by {
        lemma_selected_first_run_ends(
            selection,
            public_device_identity,
            environment,
            before,
            result,
            after,
        );
    }
}

/// Nothing changed on the host, and no record in the database.
pub open spec fn is_unchanged(before: Installation, after: Installation) -> bool {
    after.host == before.host && after.database.committed == before.database.committed
}

broadcast proof fn lemma_first_run_path_ends(
    public_device_identity: PublicIdentityView,
    environment: HostEnvironment,
    before: Installation,
    result: Result<OwnerStartupStateDispatchOutcome, OwnerStartupStateDispatchError>,
    after: Installation,
)
    requires
        #[trigger] ends(
            first_run_plan(public_device_identity, environment),
            before,
            result,
            after,
        ),
        is_valid(before, public_device_identity),
    ensures
        match result {
            Ok(outcome) => {
                &&& outcome is FirstRunCompleted
                &&& !after.host.files.contains_key(Place::IntentRecord)
                &&& stored_intent(before.host) matches Some(selection)
                &&& is_established(after, public_device_identity, selection.policy(), environment)
            },
            Err(error) => error is FirstRun,
        },
{
    broadcast use {group_startup_steps, completed_first_run_retires_its_intent};

}

broadcast proof fn lemma_restart_path_ends(
    public_device_identity: PublicIdentityView,
    environment: HostEnvironment,
    before: Installation,
    result: Result<OwnerStartupStateDispatchOutcome, OwnerStartupStateDispatchError>,
    after: Installation,
)
    requires
        #[trigger] ends(restart_plan(public_device_identity, environment), before, result, after),
    ensures
        is_unchanged(before, after),
        match result {
            Ok(outcome) => outcome matches
                OwnerStartupStateDispatchOutcome::EstablishedRestartVerified(proof)
                && is_established(before, public_device_identity, proof.policy(), environment),
            Err(error) => error is EstablishedRestart,
        },
{
    broadcast use {group_startup_steps, verified_restart_found_everything_established};

}

/// Startup takes the one path that the intent names. With an intent it can only complete or fail
/// the first run; without one it can only verify or fail the restart, and changes nothing. Where
/// the intent cannot be classified nothing happens.
pub proof fn startup_takes_the_path_that_the_intent_names(
    public_device_identity: PublicIdentityView,
    environment: HostEnvironment,
    before: Installation,
    result: Result<OwnerStartupStateDispatchOutcome, OwnerStartupStateDispatchError>,
    after: Installation,
)
    requires
        ends(dispatch_plan(public_device_identity, environment), before, result, after),
        is_valid(before, public_device_identity),
    ensures
        match result {
            Ok(OwnerStartupStateDispatchOutcome::FirstRunCompleted(_)) => {
                &&& !after.host.files.contains_key(Place::IntentRecord)
                &&& stored_intent(before.host) matches Some(selection)
                &&& is_established(after, public_device_identity, selection.policy(), environment)
            },
            Ok(OwnerStartupStateDispatchOutcome::EstablishedRestartVerified(proof)) => {
                &&& !before.host.files.contains_key(Place::IntentRecord)
                &&& is_unchanged(before, after)
                &&& is_established(before, public_device_identity, proof.policy(), environment)
            },
            Err(OwnerStartupStateDispatchError::FirstRun(_)) => stored_intent(before.host) is Some,
            Err(OwnerStartupStateDispatchError::EstablishedRestart(_)) => {
                &&& !before.host.files.contains_key(Place::IntentRecord)
                &&& is_unchanged(before, after)
            },
            Err(OwnerStartupStateDispatchError::SetupIntentClassification(_)) => is_unchanged(
                before,
                after,
            ),
        },
{
    broadcast use {
        group_startup_steps,
        inspection_tells_present_from_absent,
        lemma_first_run_path_ends,
        lemma_restart_path_ends,
    };
    broadcast use crate::host::lemma_finish_ends;

}

broadcast proof fn lemma_established_restart_ends(
    public_device_identity: PublicIdentityView,
    policy: TransportIdentityProvisioningPolicy,
    environment: HostEnvironment,
    before: Installation,
    result: Result<OwnerStartupStateDispatchOutcome, OwnerStartupStateDispatchError>,
    after: Installation,
)
    requires
        #[trigger] ends(restart_plan(public_device_identity, environment), before, result, after),
        #[trigger] is_established(before, public_device_identity, policy, environment),
    ensures
        match result {
            Ok(outcome) => outcome matches
                OwnerStartupStateDispatchOutcome::EstablishedRestartVerified(proof)
                && proof.policy() == policy,
            Err(error) => error matches OwnerStartupStateDispatchError::EstablishedRestart(cause)
                && is_reading_failure(cause),
        },
{
    broadcast use group_startup_steps;

    assert forall|
        verified: Result<
            OwnerEstablishedStartupAuthorityProof,
            OwnerEstablishedStartupAuthorityError,
        >,
        middle: Installation,
    | #[trigger]
        ends(
            verify_established_plan(public_device_identity, environment),
            before,
            verified,
            middle,
        ) implies (match verified {
        Ok(proof) => proof.policy() == policy,
        Err(error) => is_reading_failure(error),
    }) by {
        established_owner_is_recognised(
            public_device_identity,
            policy,
            environment,
            before,
            verified,
            middle,
        );
    }
}

/// What a first run established is recognised at the next start. That start changes nothing, and
/// verifies the restart under the policy that was selected, unless something cannot be read: the
/// first run is not repeated, and the owner is neither missing nor out of date.
pub proof fn completed_first_run_is_recognised_at_the_next_start(
    public_device_identity: PublicIdentityView,
    environment: HostEnvironment,
    before: Installation,
    outcome: OwnerFirstRunOrchestrationAndRetirementOutcome,
    middle: Installation,
    result: Result<OwnerStartupStateDispatchOutcome, OwnerStartupStateDispatchError>,
    after: Installation,
)
    requires
        is_valid(before, public_device_identity),
        ends(
            dispatch_plan(public_device_identity, environment),
            before,
            Ok(OwnerStartupStateDispatchOutcome::FirstRunCompleted(outcome)),
            middle,
        ),
        ends(dispatch_plan(public_device_identity, environment), middle, result, after),
    ensures
        is_unchanged(middle, after),
        match result {
            Ok(OwnerStartupStateDispatchOutcome::FirstRunCompleted(_)) => false,
            Ok(OwnerStartupStateDispatchOutcome::EstablishedRestartVerified(proof)) => stored_intent(
                before.host,
            ) matches Some(selection) && proof.policy() == selection.policy(),
            Err(OwnerStartupStateDispatchError::SetupIntentClassification(_)) => true,
            Err(OwnerStartupStateDispatchError::FirstRun(_)) => false,
            Err(OwnerStartupStateDispatchError::EstablishedRestart(error)) => is_reading_failure(
                error,
            ),
        },
{
    startup_takes_the_path_that_the_intent_names(
        public_device_identity,
        environment,
        before,
        Ok(OwnerStartupStateDispatchOutcome::FirstRunCompleted(outcome)),
        middle,
    );
    let selection = stored_intent(before.host)->0;
    assert(is_established(
        middle,
        public_device_identity,
        selection.policy(),
        environment,
    ));
    broadcast use {
        group_startup_steps,
        inspection_tells_present_from_absent,
        lemma_established_restart_ends,
        lemma_restart_path_ends,
    };
    broadcast use crate::host::lemma_finish_ends;

}

} // verus!
