//! Execution of exactly the provisioner that a setup plan selects.
use vstd::prelude::*;

use crate::environment::HostEnvironment;
use crate::outside::{reply_views, OutsideReply, OutsideRequest};
use crate::owner_first_setup_custody_policy_orchestration::OwnerFirstSetupCustodyPolicyPlan;
use crate::plan::{follow, Progress};
use crate::transport_identity_provisioning::{
    provision_first_ubuntu_transport_identity_host_key_only,
    provision_first_ubuntu_transport_identity_preferred, provision_from_environment,
    provisioning_progress, ProvisionedTransportIdentity, TransportIdentityProvisioningError,
    TransportIdentityProvisioningPolicy,
};

verus! {

/// Provisions under the one policy of the plan, as far as the replies go. A failure is returned
/// as it is; the other policy is never tried.
pub fn execute_owner_first_setup_transport_identity_provisioning(
    plan: &OwnerFirstSetupCustodyPolicyPlan,
    environment: &HostEnvironment,
    replies: &Vec<OutsideReply<Vec<u8>>>,
) -> (progress: Progress<
    OutsideRequest<Vec<u8>>,
    Result<ProvisionedTransportIdentity, TransportIdentityProvisioningError>,
>)
    ensures
        provisioning_progress(progress) == follow(
            provision_from_environment(plan.selection().policy(), *environment),
            reply_views(replies@),
        ).0,
{
    match plan.transport_provisioning_policy() {
        TransportIdentityProvisioningPolicy::Preferred => {
            provision_first_ubuntu_transport_identity_preferred(environment, replies)
        },
        TransportIdentityProvisioningPolicy::HostKeyOnly => {
            provision_first_ubuntu_transport_identity_host_key_only(environment, replies)
        },
    }
}

} // verus!
