//! Composition of the bootstrap input from a custody-policy plan.
use vstd::prelude::*;

use crate::domain::{
    BindingView, DeviceLifecycle, PublicIdentityMaterial, PublicIdentityView, TransportIdentity,
};
use crate::owner_first_setup_bootstrap_inputs::{
    compose_owner_first_setup_bootstrap_inputs_from_identity_parts, InputsView,
    OwnerFirstSetupBootstrapInputs, OwnerIdentityView,
};
use crate::owner_first_setup_custody_policy_orchestration::OwnerFirstSetupCustodyPolicyPlan;

verus! {

/// The inputs are the plan's owner, enrolled, with this device identity and this transport
/// identity.
pub open spec fn composed_from_plan(
    inputs: OwnerFirstSetupBootstrapInputs,
    plan: OwnerFirstSetupCustodyPolicyPlan,
    public_device_identity: PublicIdentityMaterial,
    transport_identity: TransportIdentity,
) -> bool {
    &&& inputs.spec_binding() == (BindingView {
        workspace: plan.owner().workspace,
        user: plan.owner().user,
        device: plan.owner().device,
        public_identity: public_device_identity@,
        lifecycle: DeviceLifecycle::Enrolled,
    })
    &&& inputs.spec_transport_identity() == transport_identity
}

/// Purely composes the final fresh-owner bootstrap input from already-authoritative values.
pub fn compose_owner_first_setup_bootstrap_inputs_from_plan(
    plan: &OwnerFirstSetupCustodyPolicyPlan,
    public_device_identity: &PublicIdentityMaterial,
    transport_identity: TransportIdentity,
) -> (inputs: OwnerFirstSetupBootstrapInputs)
    ensures
        composed_from_plan(inputs, *plan, *public_device_identity, transport_identity),
        inputs.spec_binding().workspace == plan.owner().workspace,
        inputs.spec_binding().user == plan.owner().user,
        inputs.spec_binding().device == plan.owner().device,
        inputs.spec_binding().public_identity == public_device_identity@,
        inputs.spec_binding().lifecycle == DeviceLifecycle::Enrolled,
        inputs.spec_transport_identity() == transport_identity,
{
    compose_owner_first_setup_bootstrap_inputs_from_identity_parts(
        plan.workspace_id(),
        plan.user_id(),
        plan.device_id(),
        public_device_identity,
        transport_identity,
    )
}

/// The inputs for an owner, enrolled, with this device identity and this transport fingerprint.
pub open spec fn inputs_for(
    owner: OwnerIdentityView,
    public_device_identity: PublicIdentityView,
    transport_identity: Seq<u8>,
) -> InputsView {
    InputsView {
        binding: BindingView {
            workspace: owner.workspace,
            user: owner.user,
            device: owner.device,
            public_identity: public_device_identity,
            lifecycle: DeviceLifecycle::Enrolled,
        },
        transport_identity,
    }
}

/// What a composition came to, as the plans see it.
pub open spec fn inputs_view<E>(inputs: Result<OwnerFirstSetupBootstrapInputs, E>) -> Result<
    InputsView,
    E,
> {
    match inputs {
        Ok(value) => Ok(value.parts()),
        Err(error) => Err(error),
    }
}

} // verus!
