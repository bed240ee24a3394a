//! The bootstrap of the local authority at the end of the owner's first setup.
use vstd::prelude::*;
use vstd::string::*;

use crate::domain::{
    lemma_transport_identity_of, transport_identity_of, PublicIdentityMaterial, PublicIdentityView,
};
use crate::durable_registry_authority::DurableRegistryAuthorityError;
use crate::durable_registry_sqlite_custody::{
    open_authority_in, open_authority_plan, DurableRegistrySqliteCustodyError,
};
use crate::durable_registry_sqlite_store::{
    bootstrap_plan, bootstrap_steps, registry_reply_views, OwnerPcLocalAuthorityBootstrapOutcome,
    RegistryReply,
};
use crate::environment::HostEnvironment;
use crate::outside::{reply_views, OutsideReply};
use crate::owner_first_setup_bootstrap_inputs::{
    InputsView, OwnerFirstSetupBootstrapInputs, OwnerIdentityView,
};
use crate::owner_first_setup_custody_policy_orchestration::OwnerFirstSetupCustodyPolicyPlan;
use crate::owner_first_setup_retry_call_site_composition::{
    retry_inputs_in, retry_inputs_plan, OwnerFirstSetupRetryCallSiteError,
};
use crate::plan::Progress;
use crate::startup_plan::{
    follow_startup, from_host, from_registry, group_follow_startup, on_host, on_registry,
    startup_bind, startup_progress, startup_went_along, StartupPlan, StartupReplies,
    StartupRequest,
};
use crate::transport_identity_provisioning::TransportIdentityProvisioningPolicy;

verus! {

/// Fail-closed error for the local-authority bootstrap.
#[derive(Clone, Copy, PartialEq, Eq, Structural, Debug)]
pub enum OwnerFirstSetupLocalAuthorityBootstrapError {
    /// No exact authoritative bootstrap inputs could be produced.
    BootstrapInputs(OwnerFirstSetupRetryCallSiteError),
    /// The fixed owner-PC database could not be opened safely.
    DatabaseCustody(DurableRegistrySqliteCustodyError),
    /// The atomic owner-authority bootstrap transaction failed.
    AuthorityBootstrap(DurableRegistryAuthorityError),
}

impl OwnerFirstSetupLocalAuthorityBootstrapError {
    /// The text shown to people for this error.
    pub open spec fn text(self) -> Seq<char> {
        match self {
            OwnerFirstSetupLocalAuthorityBootstrapError::BootstrapInputs(error) => "owner bootstrap input execution failed: "@ + error.text(),
            OwnerFirstSetupLocalAuthorityBootstrapError::DatabaseCustody(error) => "owner SQLite authority custody failed: "@ + error.text(),
            OwnerFirstSetupLocalAuthorityBootstrapError::AuthorityBootstrap(error) => "owner SQLite authority bootstrap failed: "@ + error.text(),
        }
    }

    pub fn message(&self) -> (text: String)
        ensures
            text@ == self.text(),
    {
        match self {
            OwnerFirstSetupLocalAuthorityBootstrapError::BootstrapInputs(error) => "owner bootstrap input execution failed: ".to_owned().concat(error.message().as_str()),
            OwnerFirstSetupLocalAuthorityBootstrapError::DatabaseCustody(error) => "owner SQLite authority custody failed: ".to_owned().concat(error.message()),
            OwnerFirstSetupLocalAuthorityBootstrapError::AuthorityBootstrap(error) => "owner SQLite authority bootstrap failed: ".to_owned().concat(error.message().as_str()),
        }
    }
}

/// Produces the inputs, opens the authority and bootstraps it, in this order. The first step that
/// fails ends it with its error; no step is repeated and no other authority is tried.
pub fn execute_local_authority_bootstrap_with<C, O, B, S>(
    plan: &OwnerFirstSetupCustodyPolicyPlan,
    public_device_identity: &PublicIdentityMaterial,
    compose_inputs: C,
    open_authority: O,
    bootstrap_authority: B,
) -> (executed: Result<
    OwnerPcLocalAuthorityBootstrapOutcome,
    OwnerFirstSetupLocalAuthorityBootstrapError,
>) where
    C: FnOnce(&OwnerFirstSetupCustodyPolicyPlan, &PublicIdentityMaterial) -> Result<
        OwnerFirstSetupBootstrapInputs,
        OwnerFirstSetupRetryCallSiteError,
    >,
    O: FnOnce() -> Result<S, DurableRegistrySqliteCustodyError>,
    B: FnOnce(S, OwnerFirstSetupBootstrapInputs) -> Result<
        OwnerPcLocalAuthorityBootstrapOutcome,
        DurableRegistryAuthorityError,
    >,

    requires
        call_requires(compose_inputs, (plan, public_device_identity)),
        forall|inputs: OwnerFirstSetupBootstrapInputs| #[trigger]
            call_ensures(
                compose_inputs,
                (plan, public_device_identity),
                Ok::<OwnerFirstSetupBootstrapInputs, OwnerFirstSetupRetryCallSiteError>(inputs),
            ) ==> call_requires(open_authority, ()),
        forall|authority: S, inputs: OwnerFirstSetupBootstrapInputs|
            call_ensures(
                compose_inputs,
                (plan, public_device_identity),
                Ok::<OwnerFirstSetupBootstrapInputs, OwnerFirstSetupRetryCallSiteError>(inputs),
            ) && call_ensures(
                open_authority,
                (),
                Ok::<S, DurableRegistrySqliteCustodyError>(authority),
            ) ==> #[trigger] call_requires(bootstrap_authority, (authority, inputs)),
    ensures
        exists|composed: Result<OwnerFirstSetupBootstrapInputs, OwnerFirstSetupRetryCallSiteError>|
            {
                &&& #[trigger] call_ensures(
                    compose_inputs,
                    (plan, public_device_identity),
                    composed,
                )
                &&& match composed {
                    Err(error) => executed matches Err(stage) && stage
                        == OwnerFirstSetupLocalAuthorityBootstrapError::BootstrapInputs(error),
                    Ok(inputs) => exists|opened: Result<S, DurableRegistrySqliteCustodyError>|
                        {
                            &&& #[trigger] call_ensures(open_authority, (), opened)
                            &&& match opened {
                                Err(error) => executed matches Err(stage) && stage
                                    == OwnerFirstSetupLocalAuthorityBootstrapError::DatabaseCustody(
                                    error,
                                ),
                                Ok(authority) => match executed {
                                    Ok(outcome) => call_ensures(
                                        bootstrap_authority,
                                        (authority, inputs),
                                        Ok(outcome),
                                    ),
                                    Err(stage) => stage matches
                                        OwnerFirstSetupLocalAuthorityBootstrapError::AuthorityBootstrap(
                                        cause,
                                    ) && call_ensures(
                                        bootstrap_authority,
                                        (authority, inputs),
                                        Err(cause),
                                    ),
                                },
                            }
                        },
                }
            },
{
    let inputs = match compose_inputs(plan, public_device_identity) {
        Ok(inputs) => inputs,
        Err(error) => {
            assert(call_ensures(compose_inputs, (plan, public_device_identity), Err(error)));
            return Err(OwnerFirstSetupLocalAuthorityBootstrapError::BootstrapInputs(error));
        },
    };
    assert(call_ensures(compose_inputs, (plan, public_device_identity), Ok(inputs)));
    let authority = match open_authority() {
        Ok(authority) => authority,
        Err(error) => {
            assert(call_ensures(open_authority, (), Err(error)));
            return Err(OwnerFirstSetupLocalAuthorityBootstrapError::DatabaseCustody(error));
        },
    };
    assert(call_ensures(open_authority, (), Ok(authority)));
    match bootstrap_authority(authority, inputs) {
        Ok(outcome) => Ok(outcome),
        Err(cause) => Err(OwnerFirstSetupLocalAuthorityBootstrapError::AuthorityBootstrap(cause)),
    }
}

/// Bootstrap the authority, given what opening it came to.
pub open spec fn bootstrap_opened_plan(
    opened: Result<(), DurableRegistrySqliteCustodyError>,
    inputs: InputsView,
) -> StartupPlan<
    Result<OwnerPcLocalAuthorityBootstrapOutcome, OwnerFirstSetupLocalAuthorityBootstrapError>,
> {
    match opened {
        Err(error) => StartupPlan::Finish(
            Err(OwnerFirstSetupLocalAuthorityBootstrapError::DatabaseCustody(error)),
        ),
        Ok(_) => on_registry(
            bootstrap_plan(inputs.binding, transport_identity_of(inputs.transport_identity)),
            |bootstrapped: Result<
                OwnerPcLocalAuthorityBootstrapOutcome,
                DurableRegistryAuthorityError,
            >|
                StartupPlan::Finish(
                    match bootstrapped {
                        Ok(outcome) => Ok(outcome),
                        Err(error) => Err(
                            OwnerFirstSetupLocalAuthorityBootstrapError::AuthorityBootstrap(error),
                        ),
                    },
                ),
        ),
    }
}

/// Open the authority, and bootstrap it from the inputs.
pub open spec fn bootstrap_inputs_plan(inputs: InputsView, environment: HostEnvironment) -> StartupPlan<
    Result<OwnerPcLocalAuthorityBootstrapOutcome, OwnerFirstSetupLocalAuthorityBootstrapError>,
> {
    startup_bind(
        open_authority_plan(environment),
        |opened: Result<(), DurableRegistrySqliteCustodyError>| bootstrap_opened_plan(opened, inputs),
    )
}

/// Bootstrap the authority, given what composing the inputs came to.
pub open spec fn bootstrap_composed_plan(
    composed: Result<InputsView, OwnerFirstSetupRetryCallSiteError>,
    environment: HostEnvironment,
) -> StartupPlan<
    Result<OwnerPcLocalAuthorityBootstrapOutcome, OwnerFirstSetupLocalAuthorityBootstrapError>,
> {
    match composed {
        Err(error) => StartupPlan::Finish(
            Err(OwnerFirstSetupLocalAuthorityBootstrapError::BootstrapInputs(error)),
        ),
        Ok(inputs) => bootstrap_inputs_plan(inputs, environment),
    }
}

/// Create or recover the inputs, open the authority, and bootstrap it.
pub open spec fn local_authority_plan(
    owner: OwnerIdentityView,
    policy: TransportIdentityProvisioningPolicy,
    public_device_identity: PublicIdentityView,
    environment: HostEnvironment,
) -> StartupPlan<
    Result<OwnerPcLocalAuthorityBootstrapOutcome, OwnerFirstSetupLocalAuthorityBootstrapError>,
> {
    on_host(
        retry_inputs_plan(owner, policy, public_device_identity, environment),
        |composed: Result<InputsView, OwnerFirstSetupRetryCallSiteError>|
            bootstrap_composed_plan(composed, environment),
    )
}

/// Bootstraps the authority as part of a longer operation.
pub(crate) fn local_authority_in(
    plan: &OwnerFirstSetupCustodyPolicyPlan,
    public_device_identity: &PublicIdentityMaterial,
    environment: &HostEnvironment,
    replies: &mut StartupReplies<'_>,
) -> (outcome: Result<
    Result<OwnerPcLocalAuthorityBootstrapOutcome, OwnerFirstSetupLocalAuthorityBootstrapError>,
    StartupRequest<String, Vec<u8>>,
>)
    requires
        old(replies).wf(),
    ensures
        startup_went_along(
            local_authority_plan(
                plan.owner(),
                plan.selection().policy(),
                public_device_identity@,
                *environment,
            ),
            *old(replies),
            outcome,
            *final(replies),
        ),
{
    broadcast use group_follow_startup;

    let inputs = match from_host(
        retry_inputs_in(plan, public_device_identity, environment, &mut replies.host),
    )? {
        Ok(inputs) => inputs,
        Err(error) => {
            return Ok(Err(OwnerFirstSetupLocalAuthorityBootstrapError::BootstrapInputs(error)));
        },
    };
    if let Err(error) = open_authority_in(environment, replies)? {
        return Ok(Err(OwnerFirstSetupLocalAuthorityBootstrapError::DatabaseCustody(error)));
    }
    let (binding, transport_identity) = inputs.into_parts();
    proof {
        lemma_transport_identity_of(transport_identity);
    }
    match from_registry(
        bootstrap_steps(&mut replies.registry, &binding, transport_identity),
    )? {
        Ok(outcome) => Ok(Ok(outcome)),
        Err(error) => Ok(Err(OwnerFirstSetupLocalAuthorityBootstrapError::AuthorityBootstrap(error))),
    }
}

/// Creates or recovers the plan's transport identity, opens the owner's database and bootstraps
/// the authority in it, as far as the replies go.
pub fn execute_owner_first_setup_retry_and_bootstrap_local_authority(
    plan: &OwnerFirstSetupCustodyPolicyPlan,
    public_device_identity: &PublicIdentityMaterial,
    environment: &HostEnvironment,
    host: &Vec<OutsideReply<Vec<u8>>>,
    registry: &Vec<RegistryReply<String, Vec<u8>>>,
) -> (progress: Progress<
    StartupRequest<String, Vec<u8>>,
    Result<OwnerPcLocalAuthorityBootstrapOutcome, OwnerFirstSetupLocalAuthorityBootstrapError>,
>)
    ensures
        startup_progress(progress) == follow_startup(
            local_authority_plan(
                plan.owner(),
                plan.selection().policy(),
                public_device_identity@,
                *environment,
            ),
            reply_views(host@),
            registry_reply_views(registry@),
        ).progress,
{
    let mut replies = StartupReplies::new(host, registry);
    match local_authority_in(plan, public_device_identity, environment, &mut replies) {
        Ok(result) => Progress::Done(result),
        Err(request) => Progress::Waiting(request),
    }
}

} // verus!
