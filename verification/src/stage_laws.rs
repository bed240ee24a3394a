//! A failure names the stage that failed, with that stage's own reason.
use vstd::prelude::*;

use crate::domain::{transport_identity_of, PublicIdentityView};
use crate::durable_registry_sqlite_custody::{open_authority_plan, open_existing_authority_plan};
use crate::durable_registry_sqlite_store::{bootstrap_plan, OwnerPcLocalAuthorityBootstrapOutcome};
use crate::environment::HostEnvironment;
use crate::host::Host;
use crate::installation::{ends, group_startup_steps, registry_ends, Installation};
use crate::outside::HostPlan;
use crate::owner_established_startup_authority::{
    verify_established_plan, OwnerEstablishedStartupAuthorityError,
    OwnerEstablishedStartupAuthorityProof,
};
use crate::owner_first_run_orchestration::{
    orchestration_and_retirement_plan, orchestration_from_intent_plan, orchestration_plan,
    OwnerFirstRunOrchestrationAndRetirementOutcome, OwnerFirstRunOrchestrationError,
};
use crate::owner_first_run_setup_intent::{
    inspect_intent_plan, intent_from_environment, load_intent_plan, retire_intent_plan,
    OwnerFirstRunSetupIntentPresence, OwnerFirstRunSetupIntentRetirementOutcome,
};
use crate::owner_first_setup_bootstrap_inputs::{
    ensure_identity_from_environment, load_identity_from_environment, IdentityOutcomeView,
    InputsView, OwnerFirstSetupBootstrapInputError, OwnerIdentityView,
};
use crate::owner_first_setup_custody_policy_orchestration::OwnerFirstSetupTransportCustodySelection;
use crate::owner_first_setup_execution_composition::create_inputs_plan;
use crate::owner_first_setup_local_authority_bootstrap_execution::{
    local_authority_plan, OwnerFirstSetupLocalAuthorityBootstrapError,
};
use crate::owner_first_setup_retry_call_site_composition::{
    retry_inputs_plan, OwnerFirstSetupRetryCallSiteError,
};
use crate::owner_first_setup_transport_identity_recovery::{
    recover_setup_identity_plan, OwnerFirstSetupTransportIdentityRecoveryError,
};
use crate::owner_startup_state_dispatch::{
    dispatch_plan, OwnerStartupStateDispatchError, OwnerStartupStateDispatchOutcome,
};
use crate::transport_identity_provisioning::{
    TransportIdentityPersistentState, TransportIdentityProvisioningPolicy,
    TransportIdentityRecoveryError,
};
use crate::transport_identity_recovery::{
    inspect_plan, recover_established_plan, recover_plan, with_roots,
};

verus! {

/// Inspecting the custody below the roots of an environment.
pub open spec fn inspection_below_the_roots(
    policy: TransportIdentityProvisioningPolicy,
    environment: HostEnvironment,
) -> HostPlan<Result<TransportIdentityPersistentState, TransportIdentityRecoveryError>> {
    with_roots(environment, |path: Seq<u8>| inspect_plan(policy, path, environment.uid))
}

/// Recovering the custody of a policy below the roots of an environment.
pub open spec fn recovery_below_the_roots(
    policy: TransportIdentityProvisioningPolicy,
    environment: HostEnvironment,
) -> HostPlan<Result<Seq<u8>, TransportIdentityRecoveryError>> {
    with_roots(environment, |path: Seq<u8>| recover_plan(policy, path, environment.uid))
}

/// Recovering the custody from its binding below the roots of an environment.
pub open spec fn established_recovery_below_the_roots(environment: HostEnvironment) -> HostPlan<
    Result<(TransportIdentityProvisioningPolicy, Seq<u8>), TransportIdentityRecoveryError>,
> {
    with_roots(environment, |path: Seq<u8>| recover_established_plan(path, environment.uid))
}

/// A first run fails because its identity could not be ensured or its authority not bootstrapped, and
/// says which, with that reason.
pub proof fn first_run_failure_names_its_stage(
    selection: OwnerFirstSetupTransportCustodySelection,
    public_device_identity: PublicIdentityView,
    environment: HostEnvironment,
    before: Installation,
    error: OwnerFirstRunOrchestrationError,
    after: Installation,
)
    requires
        ends(
            orchestration_plan(selection, public_device_identity, environment),
            before,
            Err::<OwnerPcLocalAuthorityBootstrapOutcome, _>(error),
            after,
        ),
    ensures
        match error {
            OwnerFirstRunOrchestrationError::OwnerIdentity(cause) => crate::host::ends(
                ensure_identity_from_environment(environment),
                before.host,
                Err::<IdentityOutcomeView, _>(cause),
                after.host,
            ),
            OwnerFirstRunOrchestrationError::LocalAuthority(cause) => exists|
                owner: OwnerIdentityView,
                middle: Installation,
            | #[trigger]
                ends(
                    local_authority_plan(
                        owner,
                        selection.policy(),
                        public_device_identity,
                        environment,
                    ),
                    middle,
                    Err::<OwnerPcLocalAuthorityBootstrapOutcome, _>(cause),
                    after,
                ),
            _ => false,
        },
{
    broadcast use group_startup_steps;

}

/// A first run from the intent fails because the intent could not be loaded, or as the first run of
/// the loaded selection does.
pub proof fn failed_intent_stops_the_first_run(
    public_device_identity: PublicIdentityView,
    environment: HostEnvironment,
    before: Installation,
    error: OwnerFirstRunOrchestrationError,
    after: Installation,
)
    requires
        ends(
            orchestration_from_intent_plan(public_device_identity, environment),
            before,
            Err::<OwnerPcLocalAuthorityBootstrapOutcome, _>(error),
            after,
        ),
    ensures
        match error {
            OwnerFirstRunOrchestrationError::SetupIntent(cause) => after.database
                == before.database && crate::host::ends(
                intent_from_environment(environment, load_intent_plan(true, environment.euid)),
                before.host,
                Err::<OwnerFirstSetupTransportCustodySelection, _>(cause),
                after.host,
            ),
            OwnerFirstRunOrchestrationError::SetupIntentRetirement(_) => false,
            _ => exists|
                selection: OwnerFirstSetupTransportCustodySelection,
                middle: Installation,
            | #[trigger]
                ends(
                    orchestration_plan(selection, public_device_identity, environment),
                    middle,
                    Err::<OwnerPcLocalAuthorityBootstrapOutcome, _>(error),
                    after,
                ),
        },
{
    broadcast use group_startup_steps;

    assert forall|
        selection: OwnerFirstSetupTransportCustodySelection,
        middle: Installation,
    | #[trigger]
        ends(
            orchestration_plan(selection, public_device_identity, environment),
            middle,
            Err::<OwnerPcLocalAuthorityBootstrapOutcome, _>(error),
            after,
        ) implies error is OwnerIdentity || error is LocalAuthority by {
        first_run_failure_names_its_stage(
            selection,
            public_device_identity,
            environment,
            middle,
            error,
            after,
        );
    }
}

/// A first run with its retirement fails because the intent could not be loaded, as the first run
/// does, or because the intent could not be retired after it.
pub proof fn retirement_failure_follows_a_success(
    public_device_identity: PublicIdentityView,
    environment: HostEnvironment,
    before: Installation,
    error: OwnerFirstRunOrchestrationError,
    after: Installation,
)
    requires
        ends(
            orchestration_and_retirement_plan(public_device_identity, environment),
            before,
            Err::<OwnerFirstRunOrchestrationAndRetirementOutcome, _>(error),
            after,
        ),
    ensures
        match error {
            OwnerFirstRunOrchestrationError::SetupIntent(cause) => after.database
                == before.database && crate::host::ends(
                intent_from_environment(environment, load_intent_plan(true, environment.euid)),
                before.host,
                Err::<OwnerFirstSetupTransportCustodySelection, _>(cause),
                after.host,
            ),
            OwnerFirstRunOrchestrationError::SetupIntentRetirement(cause) => exists|
                selection: OwnerFirstSetupTransportCustodySelection,
                middle: Host,
            | #[trigger]
                crate::host::ends(
                    intent_from_environment(
                        environment,
                        retire_intent_plan(true, environment.euid, selection),
                    ),
                    middle,
                    Err::<OwnerFirstRunSetupIntentRetirementOutcome, _>(cause),
                    after.host,
                ),
            _ => exists|
                selection: OwnerFirstSetupTransportCustodySelection,
                middle: Installation,
            | #[trigger]
                ends(
                    orchestration_plan(selection, public_device_identity, environment),
                    middle,
                    Err::<OwnerPcLocalAuthorityBootstrapOutcome, _>(error),
                    after,
                ),
        },
{
    broadcast use group_startup_steps;

    assert forall|
        selection: OwnerFirstSetupTransportCustodySelection,
        middle: Installation,
        end: Installation,
    | #[trigger]
        ends(
            orchestration_plan(selection, public_device_identity, environment),
            middle,
            Err::<OwnerPcLocalAuthorityBootstrapOutcome, _>(error),
            end,
        ) implies error is OwnerIdentity || error is LocalAuthority by {
        first_run_failure_names_its_stage(
            selection,
            public_device_identity,
            environment,
            middle,
            error,
            end,
        );
    }
}

/// The authority is not bootstrapped because its inputs could not be composed, the database not be
/// opened, or the records not be written, and the failure says which, with that reason.
pub proof fn bootstrap_failure_names_its_stage(
    owner: OwnerIdentityView,
    policy: TransportIdentityProvisioningPolicy,
    public_device_identity: PublicIdentityView,
    environment: HostEnvironment,
    before: Installation,
    error: OwnerFirstSetupLocalAuthorityBootstrapError,
    after: Installation,
)
    requires
        ends(
            local_authority_plan(owner, policy, public_device_identity, environment),
            before,
            Err::<OwnerPcLocalAuthorityBootstrapOutcome, _>(error),
            after,
        ),
    ensures
        match error {
            OwnerFirstSetupLocalAuthorityBootstrapError::BootstrapInputs(cause) => after.database
                == before.database && crate::host::ends(
                retry_inputs_plan(owner, policy, public_device_identity, environment),
                before.host,
                Err::<InputsView, _>(cause),
                after.host,
            ),
            OwnerFirstSetupLocalAuthorityBootstrapError::DatabaseCustody(cause) => exists|
                middle: Installation,
            | #[trigger]
                ends(open_authority_plan(environment), middle, Err::<(), _>(cause), after),
            OwnerFirstSetupLocalAuthorityBootstrapError::AuthorityBootstrap(cause) => exists|
                inputs: InputsView,
                middle: Installation,
            | #[trigger]
                registry_ends(
                    bootstrap_plan(
                        inputs.binding,
                        transport_identity_of(inputs.transport_identity),
                    ),
                    middle,
                    Err::<OwnerPcLocalAuthorityBootstrapOutcome, _>(cause),
                    after,
                ),
        },
{
    broadcast use group_startup_steps;

}

/// The inputs are not composed because the identity could not be loaded, is another owner's, the
/// custody could not be inspected, made or recovered, and the failure says which, with that reason.
#[verifier::rlimit(40)]
pub proof fn composition_failure_names_its_stage(
    owner: OwnerIdentityView,
    policy: TransportIdentityProvisioningPolicy,
    public_device_identity: PublicIdentityView,
    environment: HostEnvironment,
    before: Host,
    error: OwnerFirstSetupRetryCallSiteError,
    after: Host,
)
    requires
        crate::host::ends(
            retry_inputs_plan(owner, policy, public_device_identity, environment),
            before,
            Err::<InputsView, _>(error),
            after,
        ),
    ensures
        match error {
            OwnerFirstSetupRetryCallSiteError::OwnerIdentity(cause) => crate::host::ends(
                load_identity_from_environment(environment),
                before,
                Err::<OwnerIdentityView, _>(cause),
                after,
            ),
            OwnerFirstSetupRetryCallSiteError::OwnerIdentityMismatch => exists|
                stored: OwnerIdentityView,
            |
                stored != owner && #[trigger] crate::host::ends(
                    load_identity_from_environment(environment),
                    before,
                    Ok::<_, OwnerFirstSetupBootstrapInputError>(stored),
                    after,
                ),
            OwnerFirstSetupRetryCallSiteError::StateInspection(cause) => exists|middle: Host|
                #[trigger] crate::host::ends(
                    inspection_below_the_roots(policy, environment),
                    middle,
                    Err::<TransportIdentityPersistentState, _>(cause),
                    after,
                ),
            OwnerFirstSetupRetryCallSiteError::Provisioning(cause) => exists|middle: Host|
                #[trigger] crate::host::ends(
                    create_inputs_plan(owner, policy, public_device_identity, environment),
                    middle,
                    Err::<InputsView, _>(cause),
                    after,
                ),
            OwnerFirstSetupRetryCallSiteError::Recovery(cause) => exists|middle: Host| #[trigger]
                crate::host::ends(
                    recover_setup_identity_plan(owner, policy, environment),
                    middle,
                    Err::<Seq<u8>, _>(cause),
                    after,
                ),
        },
{
    broadcast use {crate::host::lemma_finish_ends, crate::host::lemma_bind_ends};

}

/// Recovery for a plan fails because the identity could not be loaded, is another owner's, or the
/// custody could not be recovered, and says which, with that reason.
#[verifier::rlimit(40)]
pub proof fn recovery_failure_names_its_stage(
    owner: OwnerIdentityView,
    policy: TransportIdentityProvisioningPolicy,
    environment: HostEnvironment,
    before: Host,
    error: OwnerFirstSetupTransportIdentityRecoveryError,
    after: Host,
)
    requires
        crate::host::ends(
            recover_setup_identity_plan(owner, policy, environment),
            before,
            Err::<Seq<u8>, _>(error),
            after,
        ),
    ensures
        match error {
            OwnerFirstSetupTransportIdentityRecoveryError::OwnerIdentity(cause) =>
                crate::host::ends(
                load_identity_from_environment(environment),
                before,
                Err::<OwnerIdentityView, _>(cause),
                after,
            ),
            OwnerFirstSetupTransportIdentityRecoveryError::OwnerIdentityMismatch => exists|
                stored: OwnerIdentityView,
            |
                stored != owner && #[trigger] crate::host::ends(
                    load_identity_from_environment(environment),
                    before,
                    Ok::<_, OwnerFirstSetupBootstrapInputError>(stored),
                    after,
                ),
            OwnerFirstSetupTransportIdentityRecoveryError::TransportIdentity(cause) => exists|
                middle: Host,
            | #[trigger]
                crate::host::ends(
                    recovery_below_the_roots(policy, environment),
                    middle,
                    Err::<Seq<u8>, _>(cause),
                    after,
                ),
        },
{
    broadcast use {crate::host::lemma_finish_ends, crate::host::lemma_bind_ends};

}

/// A restart fails because the identity could not be loaded, the custody not be recovered, the
/// database not be opened, or for what the records say, and the failure says which, with that reason.
#[verifier::rlimit(40)]
pub proof fn restart_failure_names_its_stage(
    public_device_identity: PublicIdentityView,
    environment: HostEnvironment,
    before: Installation,
    error: OwnerEstablishedStartupAuthorityError,
    after: Installation,
)
    requires
        ends(
            verify_established_plan(public_device_identity, environment),
            before,
            Err::<OwnerEstablishedStartupAuthorityProof, _>(error),
            after,
        ),
    ensures
        match error {
            OwnerEstablishedStartupAuthorityError::OwnerIdentity(cause) => crate::host::ends(
                load_identity_from_environment(environment),
                before.host,
                Err::<OwnerIdentityView, _>(cause),
                after.host,
            ),
            OwnerEstablishedStartupAuthorityError::TransportIdentity(cause) => exists|middle: Host|
                #[trigger] crate::host::ends(
                    established_recovery_below_the_roots(environment),
                    middle,
                    Err::<(TransportIdentityProvisioningPolicy, Seq<u8>), _>(cause),
                    after.host,
                ),
            OwnerEstablishedStartupAuthorityError::DatabaseCustody(cause) => exists|
                middle: Installation,
            | #[trigger]
                ends(open_existing_authority_plan(environment), middle, Err::<(), _>(cause), after),
            _ => true,
        },
{
    broadcast use group_startup_steps;

}

/// Startup fails because the intent could not be classified, or on the one path that it names, and
/// says which, with that reason.
pub proof fn startup_failure_names_its_path(
    public_device_identity: PublicIdentityView,
    environment: HostEnvironment,
    before: Installation,
    error: OwnerStartupStateDispatchError,
    after: Installation,
)
    requires
        ends(
            dispatch_plan(public_device_identity, environment),
            before,
            Err::<OwnerStartupStateDispatchOutcome, _>(error),
            after,
        ),
    ensures
        match error {
            OwnerStartupStateDispatchError::SetupIntentClassification(cause) => crate::host::ends(
                intent_from_environment(environment, inspect_intent_plan(true, environment.euid)),
                before.host,
                Err::<OwnerFirstRunSetupIntentPresence, _>(cause),
                after.host,
            ),
            OwnerStartupStateDispatchError::FirstRun(cause) => exists|middle: Installation|
                #[trigger] ends(
                    orchestration_and_retirement_plan(public_device_identity, environment),
                    middle,
                    Err::<OwnerFirstRunOrchestrationAndRetirementOutcome, _>(cause),
                    after,
                ),
            OwnerStartupStateDispatchError::EstablishedRestart(cause) => exists|
                middle: Installation,
            | #[trigger]
                ends(
                    verify_established_plan(public_device_identity, environment),
                    middle,
                    Err::<OwnerEstablishedStartupAuthorityProof, _>(cause),
                    after,
                ),
        },
{
    broadcast use group_startup_steps;

}

} // verus!
