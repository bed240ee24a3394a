//! The custody policy of the owner's first setup: a pure plan, made before anything happens.
use vstd::prelude::*;

use crate::domain::{DeviceId, UserId, WorkspaceId};
use crate::owner_first_setup_bootstrap_inputs::{OwnerIdentityView, OwnerLogicalIdentityRecord};
use crate::transport_identity_provisioning::TransportIdentityProvisioningPolicy;

verus! {

/// Explicit first-time-setup transport custody selection. The fallback is never an automatic
/// downgrade.
#[derive(Clone, Copy, PartialEq, Eq, Structural, Debug)]
pub enum OwnerFirstSetupTransportCustodySelection {
    /// Preferred TPM2-plus-host-secret policy.
    PreferredDefault,
    /// Explicit lower-tier host-key-only fallback.
    ExplicitHostKeyOnlyFallback,
}

impl OwnerFirstSetupTransportCustodySelection {
    /// The provisioning policy that a selection stands for.
    pub open spec fn policy(self) -> TransportIdentityProvisioningPolicy {
        match self {
            OwnerFirstSetupTransportCustodySelection::PreferredDefault =>
                TransportIdentityProvisioningPolicy::Preferred,
            OwnerFirstSetupTransportCustodySelection::ExplicitHostKeyOnlyFallback =>
                TransportIdentityProvisioningPolicy::HostKeyOnly,
        }
    }

    /// Maps setup intent to the single authoritative provisioning policy type.
    pub fn provisioning_policy(self) -> (policy: TransportIdentityProvisioningPolicy)
        ensures
            policy == self.policy(),
    {
        match self {
            OwnerFirstSetupTransportCustodySelection::PreferredDefault =>
                TransportIdentityProvisioningPolicy::Preferred,
            OwnerFirstSetupTransportCustodySelection::ExplicitHostKeyOnlyFallback =>
                TransportIdentityProvisioningPolicy::HostKeyOnly,
        }
    }
}

/// Pure non-secret first-time-setup plan produced before any provisioning: the owner's exact
/// logical identity and one selected custody policy.
#[derive(PartialEq, Eq, Debug)]
pub struct OwnerFirstSetupCustodyPolicyPlan {
    workspace_id: WorkspaceId,
    user_id: UserId,
    device_id: DeviceId,
    transport_selection: OwnerFirstSetupTransportCustodySelection,
}

impl OwnerFirstSetupCustodyPolicyPlan {
    /// The owner's identity that the plan is for.
    pub closed spec fn owner(&self) -> OwnerIdentityView {
        OwnerIdentityView {
            workspace: self.workspace_id@,
            user: self.user_id@,
            device: self.device_id@,
        }
    }

    /// The selection that the plan carries.
    pub closed spec fn selection(&self) -> OwnerFirstSetupTransportCustodySelection {
        self.transport_selection
    }

    /// Returns the exact owner workspace identifier copied from the bootstrap record.
    pub fn workspace_id(&self) -> (id: &WorkspaceId)
        ensures
            id@ == self.owner().workspace,
    {
        &self.workspace_id
    }

    /// Returns the exact owner user identifier copied from the bootstrap record.
    pub fn user_id(&self) -> (id: &UserId)
        ensures
            id@ == self.owner().user,
    {
        &self.user_id
    }

    /// Returns the exact owner-PC device identifier copied from the bootstrap record.
    pub fn device_id(&self) -> (id: &DeviceId)
        ensures
            id@ == self.owner().device,
    {
        &self.device_id
    }

    /// Returns the explicit first-time-setup custody selection.
    pub fn transport_selection(&self) -> (selection: OwnerFirstSetupTransportCustodySelection)
        ensures
            selection == self.selection(),
    {
        self.transport_selection
    }

    /// Returns the authoritative transport provisioning policy represented by this plan.
    pub fn transport_provisioning_policy(&self) -> (policy: TransportIdentityProvisioningPolicy)
        ensures
            policy == self.selection().policy(),
    {
        self.transport_selection.provisioning_policy()
    }
}

/// Composes one pure first-time-setup custody-policy plan from an authoritative identity record
/// and an explicit selection.
pub fn compose_owner_first_setup_custody_policy_plan(
    record: &OwnerLogicalIdentityRecord,
    transport_selection: OwnerFirstSetupTransportCustodySelection,
) -> (plan: OwnerFirstSetupCustodyPolicyPlan)
    ensures
        plan.owner() == record@,
        plan.selection() == transport_selection,
{
    OwnerFirstSetupCustodyPolicyPlan {
        workspace_id: record.workspace_id().clone(),
        user_id: record.user_id().clone(),
        device_id: record.device_id().clone(),
        transport_selection,
    }
}

} // verus!
