//! Provisioning of the transport identity followed by composition of the bootstrap input.
use vstd::prelude::*;

use crate::domain::{PublicIdentityMaterial, PublicIdentityView, TransportIdentity};
use crate::environment::HostEnvironment;
use crate::outside::{
    reply_views, went_along, HostPlan, OutsideReply, OutsideRequest, Replies,
};
use crate::owner_first_setup_bootstrap_input_composition::{
    compose_owner_first_setup_bootstrap_inputs_from_plan, composed_from_plan, inputs_for,
    inputs_view,
};
use crate::owner_first_setup_bootstrap_inputs::{
    InputsView, OwnerFirstSetupBootstrapInputs, OwnerIdentityView,
};
use crate::owner_first_setup_custody_policy_orchestration::OwnerFirstSetupCustodyPolicyPlan;
use crate::plan::{and_then, follow, lemma_follow_bind, Plan, Progress};
use crate::transport_identity_provisioning::{
    provision_from_environment, provision_in, ProvisionedView, TransportIdentityProvisioningError,
    TransportIdentityProvisioningPolicy,
};

verus! {

/// Provisions once and composes the result. A provisioning error is returned as it is, and
/// nothing is composed then.
pub fn execute_and_compose_with_transport_identity<F>(
    plan: &OwnerFirstSetupCustodyPolicyPlan,
    public_device_identity: &PublicIdentityMaterial,
    provision_transport_identity: F,
) -> (composed: Result<OwnerFirstSetupBootstrapInputs, TransportIdentityProvisioningError>) where
    F: FnOnce(&OwnerFirstSetupCustodyPolicyPlan) -> Result<
        TransportIdentity,
        TransportIdentityProvisioningError,
    >,

    requires
        call_requires(provision_transport_identity, (plan,)),
    ensures
        match composed {
            Ok(inputs) => exists|identity: TransportIdentity|
                {
                    &&& #[trigger] call_ensures(provision_transport_identity, (plan,), Ok(identity))
                    &&& composed_from_plan(inputs, *plan, *public_device_identity, identity)
                },
            Err(error) => call_ensures(provision_transport_identity, (plan,), Err(error)),
        },
{
    match provision_transport_identity(plan) {
        Ok(identity) => {
            assert(call_ensures(provision_transport_identity, (plan,), Ok(identity)));
            Ok(
                compose_owner_first_setup_bootstrap_inputs_from_plan(
                    plan,
                    public_device_identity,
                    identity,
                ),
            )
        },
        Err(error) => Err(error),
    }
}

/// Provision under the policy, and compose the inputs from what was provisioned.
pub open spec fn create_inputs_plan(
    owner: OwnerIdentityView,
    policy: TransportIdentityProvisioningPolicy,
    public_device_identity: PublicIdentityView,
    environment: HostEnvironment,
) -> HostPlan<Result<InputsView, TransportIdentityProvisioningError>> {
    and_then(
        provision_from_environment(policy, environment),
        |provisioned: ProvisionedView|
            Plan::Finish(
                Ok(inputs_for(owner, public_device_identity, provisioned.transport_identity)),
            ),
    )
}

/// Provisions and composes as part of a longer operation.
pub(crate) fn create_inputs_in(
    plan: &OwnerFirstSetupCustodyPolicyPlan,
    public_device_identity: &PublicIdentityMaterial,
    environment: &HostEnvironment,
    replies: &mut Replies<'_>,
) -> (outcome: Result<
    Result<OwnerFirstSetupBootstrapInputs, TransportIdentityProvisioningError>,
    OutsideRequest<Vec<u8>>,
>)
    requires
        old(replies).wf(),
    ensures
        went_along(
            create_inputs_plan(
                plan.owner(),
                plan.selection().policy(),
                public_device_identity@,
                *environment,
            ),
            *old(replies),
            match outcome {
                Ok(inputs) => Ok(inputs_view(inputs)),
                Err(request) => Err(request@),
            },
            *final(replies),
        ),
{
    broadcast use lemma_follow_bind;

    match provision_in(plan.transport_provisioning_policy(), environment, replies)? {
        Err(error) => Ok(Err(error)),
        Ok(provisioned) => Ok(
            Ok(
                compose_owner_first_setup_bootstrap_inputs_from_plan(
                    plan,
                    public_device_identity,
                    *provisioned.transport_identity(),
                ),
            ),
        ),
    }
}

/// Provisions the plan's transport identity and composes the bootstrap inputs, as far as the
/// replies go.
pub fn execute_owner_first_setup_transport_provisioning_and_compose_bootstrap_inputs(
    plan: &OwnerFirstSetupCustodyPolicyPlan,
    public_device_identity: &PublicIdentityMaterial,
    environment: &HostEnvironment,
    replies: &Vec<OutsideReply<Vec<u8>>>,
) -> (progress: Progress<
    OutsideRequest<Vec<u8>>,
    Result<OwnerFirstSetupBootstrapInputs, TransportIdentityProvisioningError>,
>)
    ensures
        (match progress {
            Progress::Done(inputs) => Progress::Done(inputs_view(inputs)),
            Progress::Waiting(request) => Progress::Waiting(request@),
        }) == follow(
            create_inputs_plan(
                plan.owner(),
                plan.selection().policy(),
                public_device_identity@,
                *environment,
            ),
            reply_views(replies@),
        ).0,
{
    let mut cursor = Replies::new(replies);
    match create_inputs_in(plan, public_device_identity, environment, &mut cursor) {
        Ok(inputs) => Progress::Done(inputs),
        Err(request) => Progress::Waiting(request),
    }
}

} // verus!
