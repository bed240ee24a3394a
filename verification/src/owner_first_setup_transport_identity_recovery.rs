//! Recovery of an established transport identity for the exact owner of a setup plan.
use vstd::prelude::*;
use vstd::string::*;

use crate::domain::TransportIdentity;
use crate::environment::HostEnvironment;
use crate::outside::{
    reply_views, went_along, HostPlan, OutsideReply, OutsideRequest, Replies,
};
use crate::owner_first_setup_bootstrap_inputs::{
    load_identity_from_environment, load_identity_in, OwnerFirstSetupBootstrapInputError,
    OwnerIdentityView, OwnerLogicalIdentityRecord,
};
use crate::owner_first_setup_custody_policy_orchestration::OwnerFirstSetupCustodyPolicyPlan;
use crate::plan::{bind, follow, lemma_follow_bind, Plan, Progress};
use crate::transport_identity_provisioning::{
    TransportIdentityProvisioningPolicy, TransportIdentityRecoveryError,
};
use crate::transport_identity_recovery::{recover_in, recover_plan, with_roots};

verus! {

/// Fail-closed error for owner first-time-setup transport recovery.
#[derive(Clone, Copy, PartialEq, Eq, Structural, Debug)]
pub enum OwnerFirstSetupTransportIdentityRecoveryError {
    /// The authoritative persisted owner logical-identity record could not be loaded.
    OwnerIdentity(OwnerFirstSetupBootstrapInputError),
    /// The supplied plan does not carry the exact persisted owner identity tuple.
    OwnerIdentityMismatch,
    /// Established encrypted transport custody could not be validated and recovered.
    TransportIdentity(TransportIdentityRecoveryError),
}

impl OwnerFirstSetupTransportIdentityRecoveryError {
    /// The text shown to people for this error.
    pub open spec fn text(self) -> Seq<char> {
        match self {
            OwnerFirstSetupTransportIdentityRecoveryError::OwnerIdentity(error) => "owner logical identity recovery failed: "@ + error.text(),
            OwnerFirstSetupTransportIdentityRecoveryError::OwnerIdentityMismatch => "first-time-setup plan does not match owner logical identity"@,
            OwnerFirstSetupTransportIdentityRecoveryError::TransportIdentity(error) => "transport identity recovery failed: "@ + error.text(),
        }
    }

    pub fn message(&self) -> (text: String)
        ensures
            text@ == self.text(),
    {
        match self {
            OwnerFirstSetupTransportIdentityRecoveryError::OwnerIdentity(error) => "owner logical identity recovery failed: ".to_owned().concat(error.message().as_str()),
            OwnerFirstSetupTransportIdentityRecoveryError::OwnerIdentityMismatch => "first-time-setup plan does not match owner logical identity".to_owned(),
            OwnerFirstSetupTransportIdentityRecoveryError::TransportIdentity(error) => "transport identity recovery failed: ".to_owned().concat(error.message()),
        }
    }
}

/// The plan has to be for the owner of the record.
pub fn validate_plan_owner_identity(
    plan: &OwnerFirstSetupCustodyPolicyPlan,
    record: &OwnerLogicalIdentityRecord,
) -> (verdict: Result<(), OwnerFirstSetupTransportIdentityRecoveryError>)
    ensures
        verdict == (if plan.owner() == record@ {
            Ok(())
        } else {
            Err(OwnerFirstSetupTransportIdentityRecoveryError::OwnerIdentityMismatch)
        }),
{
    if plan.workspace_id() != record.workspace_id() || plan.user_id() != record.user_id()
        || plan.device_id() != record.device_id() {
        return Err(OwnerFirstSetupTransportIdentityRecoveryError::OwnerIdentityMismatch);
    }
    Ok(())
}

/// Load the owner's record, compare it, and only then recover under the policy.
pub open spec fn recover_setup_identity_plan(
    owner: OwnerIdentityView,
    policy: TransportIdentityProvisioningPolicy,
    environment: HostEnvironment,
) -> HostPlan<Result<Seq<u8>, OwnerFirstSetupTransportIdentityRecoveryError>> {
    bind(
        load_identity_from_environment(environment),
        |loaded: Result<OwnerIdentityView, OwnerFirstSetupBootstrapInputError>|
            match loaded {
                Err(error) => Plan::Finish(
                    Err(OwnerFirstSetupTransportIdentityRecoveryError::OwnerIdentity(error)),
                ),
                Ok(record) => if record != owner {
                    Plan::Finish(
                        Err(OwnerFirstSetupTransportIdentityRecoveryError::OwnerIdentityMismatch),
                    )
                } else {
                    bind(
                        with_roots(
                            environment,
                            |path: Seq<u8>| recover_plan(policy, path, environment.uid),
                        ),
                        |recovered: Result<Seq<u8>, TransportIdentityRecoveryError>|
                            Plan::Finish(
                                match recovered {
                                    Ok(identity) => Ok(identity),
                                    Err(error) => Err(
                                        OwnerFirstSetupTransportIdentityRecoveryError::TransportIdentity(
                                            error,
                                        ),
                                    ),
                                },
                            ),
                    )
                },
            },
    )
}

/// The fingerprint that was recovered.
pub open spec fn recovered_fingerprint(
    recovered: Result<TransportIdentity, OwnerFirstSetupTransportIdentityRecoveryError>,
) -> Result<Seq<u8>, OwnerFirstSetupTransportIdentityRecoveryError> {
    match recovered {
        Ok(identity) => Ok(identity@),
        Err(error) => Err(error),
    }
}

/// Recovers for a setup plan as part of a longer operation.
pub(crate) fn recover_setup_identity_in(
    plan: &OwnerFirstSetupCustodyPolicyPlan,
    environment: &HostEnvironment,
    replies: &mut Replies<'_>,
) -> (outcome: Result<
    Result<TransportIdentity, OwnerFirstSetupTransportIdentityRecoveryError>,
    OutsideRequest<Vec<u8>>,
>)
    requires
        old(replies).wf(),
    ensures
        went_along(
            recover_setup_identity_plan(plan.owner(), plan.selection().policy(), *environment),
            *old(replies),
            match outcome {
                Ok(recovered) => Ok(recovered_fingerprint(recovered)),
                Err(request) => Err(request@),
            },
            *final(replies),
        ),
{
    broadcast use lemma_follow_bind;

    let record = match load_identity_in(environment, replies)? {
        Ok(record) => record,
        Err(error) => {
            return Ok(Err(OwnerFirstSetupTransportIdentityRecoveryError::OwnerIdentity(error)));
        },
    };
    if let Err(error) = validate_plan_owner_identity(plan, &record) {
        return Ok(Err(error));
    }
    match recover_in(plan.transport_provisioning_policy(), environment, replies)? {
        Ok(identity) => Ok(Ok(identity)),
        Err(error) => Ok(
            Err(OwnerFirstSetupTransportIdentityRecoveryError::TransportIdentity(error)),
        ),
    }
}

/// Recovers the established transport identity for the exact owner and policy of the plan, as far
/// as the replies go.
pub fn recover_owner_first_setup_transport_identity(
    plan: &OwnerFirstSetupCustodyPolicyPlan,
    environment: &HostEnvironment,
    replies: &Vec<OutsideReply<Vec<u8>>>,
) -> (progress: Progress<
    OutsideRequest<Vec<u8>>,
    Result<TransportIdentity, OwnerFirstSetupTransportIdentityRecoveryError>,
>)
    ensures
        (match progress {
            Progress::Done(recovered) => Progress::Done(recovered_fingerprint(recovered)),
            Progress::Waiting(request) => Progress::Waiting(request@),
        }) == follow(
            recover_setup_identity_plan(plan.owner(), plan.selection().policy(), *environment),
            reply_views(replies@),
        ).0,
{
    let mut cursor = Replies::new(replies);
    match recover_setup_identity_in(plan, environment, &mut cursor) {
        Ok(recovered) => Progress::Done(recovered),
        Err(request) => Progress::Waiting(request),
    }
}

} // verus!
