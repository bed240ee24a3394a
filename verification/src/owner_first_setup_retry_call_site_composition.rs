//! The choice between creating and recovering the transport identity of a setup plan.
use vstd::prelude::*;
use vstd::string::*;

use crate::domain::{PublicIdentityMaterial, PublicIdentityView, TransportIdentity};
use crate::environment::HostEnvironment;
use crate::outside::{
    reply_views, went_along, HostPlan, OutsideReply, OutsideRequest, Replies,
};
use crate::owner_first_setup_bootstrap_input_composition::{
    compose_owner_first_setup_bootstrap_inputs_from_plan, composed_from_plan, inputs_for,
    inputs_view,
};
use crate::owner_first_setup_bootstrap_inputs::{
    load_identity_from_environment, load_identity_in, InputsView,
    OwnerFirstSetupBootstrapInputError, OwnerFirstSetupBootstrapInputs, OwnerIdentityView,
    OwnerLogicalIdentityRecord,
};
use crate::owner_first_setup_custody_policy_orchestration::OwnerFirstSetupCustodyPolicyPlan;
use crate::owner_first_setup_execution_composition::{create_inputs_in, create_inputs_plan};
use crate::owner_first_setup_transport_identity_recovery::{
    recover_setup_identity_in, recover_setup_identity_plan,
    OwnerFirstSetupTransportIdentityRecoveryError,
};
use crate::plan::{bind, follow, lemma_follow_bind, Plan, Progress};
use crate::transport_identity_provisioning::{
    TransportIdentityPersistentState, TransportIdentityProvisioningError,
    TransportIdentityProvisioningPolicy, TransportIdentityRecoveryError,
};
use crate::transport_identity_recovery::{inspect_in, inspect_plan, with_roots};

verus! {

/// Fail-closed error for first-time-setup retry dispatch.
#[derive(Clone, Copy, PartialEq, Eq, Structural, Debug)]
pub enum OwnerFirstSetupRetryCallSiteError {
    /// The authoritative persisted owner logical-identity record could not be loaded.
    OwnerIdentity(OwnerFirstSetupBootstrapInputError),
    /// The supplied plan does not carry the exact persisted owner identity tuple.
    OwnerIdentityMismatch,
    /// The fixed transport-custody artifact pair could not be safely classified.
    StateInspection(TransportIdentityRecoveryError),
    /// The selected absent-state creation branch failed.
    Provisioning(TransportIdentityProvisioningError),
    /// The selected established-state recovery branch failed.
    Recovery(OwnerFirstSetupTransportIdentityRecoveryError),
}

impl OwnerFirstSetupRetryCallSiteError {
    /// The text shown to people for this error.
    pub open spec fn text(self) -> Seq<char> {
        match self {
            OwnerFirstSetupRetryCallSiteError::OwnerIdentity(error) => "owner logical identity retry validation failed: "@ + error.text(),
            OwnerFirstSetupRetryCallSiteError::OwnerIdentityMismatch => "first-time-setup retry plan does not match owner identity"@,
            OwnerFirstSetupRetryCallSiteError::StateInspection(error) => "transport custody retry-state inspection failed: "@ + error.text(),
            OwnerFirstSetupRetryCallSiteError::Provisioning(error) => "first-time transport provisioning failed: "@ + error.text(),
            OwnerFirstSetupRetryCallSiteError::Recovery(error) => "established transport recovery failed: "@ + error.text(),
        }
    }

    pub fn message(&self) -> (text: String)
        ensures
            text@ == self.text(),
    {
        match self {
            OwnerFirstSetupRetryCallSiteError::OwnerIdentity(error) => "owner logical identity retry validation failed: ".to_owned().concat(error.message().as_str()),
            OwnerFirstSetupRetryCallSiteError::OwnerIdentityMismatch => "first-time-setup retry plan does not match owner identity".to_owned(),
            OwnerFirstSetupRetryCallSiteError::StateInspection(error) => "transport custody retry-state inspection failed: ".to_owned().concat(error.message()),
            OwnerFirstSetupRetryCallSiteError::Provisioning(error) => "first-time transport provisioning failed: ".to_owned().concat(error.message()),
            OwnerFirstSetupRetryCallSiteError::Recovery(error) => "established transport recovery failed: ".to_owned().concat(error.message().as_str()),
        }
    }
}

/// The plan has to be for the owner of the record.
pub fn validate_plan_owner_identity(
    plan: &OwnerFirstSetupCustodyPolicyPlan,
    record: &OwnerLogicalIdentityRecord,
) -> (verdict: Result<(), OwnerFirstSetupRetryCallSiteError>)
    ensures
        verdict == (if plan.owner() == record@ {
            Ok(())
        } else {
            Err(OwnerFirstSetupRetryCallSiteError::OwnerIdentityMismatch)
        }),
{
    if plan.workspace_id() != record.workspace_id() || plan.user_id() != record.user_id()
        || plan.device_id() != record.device_id() {
        return Err(OwnerFirstSetupRetryCallSiteError::OwnerIdentityMismatch);
    }
    Ok(())
}

/// What the branch of an absent custody may come to.
pub open spec fn created_inputs<C>(
    plan: &OwnerFirstSetupCustodyPolicyPlan,
    public_device_identity: &PublicIdentityMaterial,
    create: C,
    executed: Result<OwnerFirstSetupBootstrapInputs, OwnerFirstSetupRetryCallSiteError>,
) -> bool where
    C: FnOnce(&OwnerFirstSetupCustodyPolicyPlan, &PublicIdentityMaterial) -> Result<
        OwnerFirstSetupBootstrapInputs,
        TransportIdentityProvisioningError,
    >,
 {
    match executed {
        Ok(inputs) => call_ensures(create, (plan, public_device_identity), Ok(inputs)),
        Err(error) => error matches OwnerFirstSetupRetryCallSiteError::Provisioning(cause)
            && call_ensures(create, (plan, public_device_identity), Err(cause)),
    }
}

/// What the branch of an established custody may come to.
pub open spec fn recovered_inputs<R>(
    plan: &OwnerFirstSetupCustodyPolicyPlan,
    public_device_identity: &PublicIdentityMaterial,
    recover: R,
    executed: Result<OwnerFirstSetupBootstrapInputs, OwnerFirstSetupRetryCallSiteError>,
) -> bool where
    R: FnOnce(&OwnerFirstSetupCustodyPolicyPlan) -> Result<
        TransportIdentity,
        OwnerFirstSetupTransportIdentityRecoveryError,
    >,
 {
    match executed {
        Ok(inputs) => exists|identity: TransportIdentity|
            {
                &&& #[trigger] call_ensures(recover, (plan,), Ok(identity))
                &&& composed_from_plan(inputs, *plan, *public_device_identity, identity)
            },
        Err(error) => error matches OwnerFirstSetupRetryCallSiteError::Recovery(cause)
            && call_ensures(recover, (plan,), Err(cause)),
    }
}

/// Takes exactly one branch: absent custody is created, established custody is recovered.
pub fn execute_retry_branch_with<C, R>(
    state: TransportIdentityPersistentState,
    plan: &OwnerFirstSetupCustodyPolicyPlan,
    public_device_identity: &PublicIdentityMaterial,
    create: C,
    recover: R,
) -> (executed: Result<OwnerFirstSetupBootstrapInputs, OwnerFirstSetupRetryCallSiteError>) where
    C: FnOnce(&OwnerFirstSetupCustodyPolicyPlan, &PublicIdentityMaterial) -> Result<
        OwnerFirstSetupBootstrapInputs,
        TransportIdentityProvisioningError,
    >,
    R: FnOnce(&OwnerFirstSetupCustodyPolicyPlan) -> Result<
        TransportIdentity,
        OwnerFirstSetupTransportIdentityRecoveryError,
    >,

    requires
        state is Absent ==> call_requires(create, (plan, public_device_identity)),
        state is Established ==> call_requires(recover, (plan,)),
    ensures
        match state {
            TransportIdentityPersistentState::Absent => created_inputs(
                plan,
                public_device_identity,
                create,
                executed,
            ),
            TransportIdentityPersistentState::Established => recovered_inputs(
                plan,
                public_device_identity,
                recover,
                executed,
            ),
        },
        state is Absent ==> match executed {
            Ok(inputs) => call_ensures(create, (plan, public_device_identity), Ok(inputs)),
            Err(error) => error is Provisioning && call_ensures(
                create,
                (plan, public_device_identity),
                Err(error->Provisioning_0),
            ),
        },
        state is Established ==> match executed {
            Ok(inputs) => exists|identity: TransportIdentity|
                {
                    &&& #[trigger] call_ensures(recover, (plan,), Ok(identity))
                    &&& inputs.spec_transport_identity() == identity
                    &&& inputs.spec_binding().workspace == plan.owner().workspace
                    &&& inputs.spec_binding().user == plan.owner().user
                    &&& inputs.spec_binding().device == plan.owner().device
                    &&& inputs.spec_binding().public_identity == public_device_identity@
                },
            Err(error) => error is Recovery && call_ensures(
                recover,
                (plan,),
                Err(error->Recovery_0),
            ),
        },
{
    match state {
        TransportIdentityPersistentState::Absent => match create(plan, public_device_identity) {
            Ok(inputs) => Ok(inputs),
            Err(cause) => Err(OwnerFirstSetupRetryCallSiteError::Provisioning(cause)),
        },
        TransportIdentityPersistentState::Established => match recover(plan) {
            Ok(identity) => {
                assert(call_ensures(recover, (plan,), Ok(identity)));
                Ok(
                    compose_owner_first_setup_bootstrap_inputs_from_plan(
                        plan,
                        public_device_identity,
                        identity,
                    ),
                )
            },
            Err(cause) => Err(OwnerFirstSetupRetryCallSiteError::Recovery(cause)),
        },
    }
}

/// The branch that the state names: create what is absent, recover what is established.
pub open spec fn retry_branch_plan(
    state: TransportIdentityPersistentState,
    owner: OwnerIdentityView,
    policy: TransportIdentityProvisioningPolicy,
    public_device_identity: PublicIdentityView,
    environment: HostEnvironment,
) -> HostPlan<Result<InputsView, OwnerFirstSetupRetryCallSiteError>> {
    match state {
        TransportIdentityPersistentState::Absent => bind(
            create_inputs_plan(owner, policy, public_device_identity, environment),
            |created: Result<InputsView, TransportIdentityProvisioningError>|
                Plan::Finish(
                    match created {
                        Ok(inputs) => Ok(inputs),
                        Err(error) => Err(OwnerFirstSetupRetryCallSiteError::Provisioning(error)),
                    },
                ),
        ),
        TransportIdentityPersistentState::Established => bind(
            recover_setup_identity_plan(owner, policy, environment),
            |recovered: Result<Seq<u8>, OwnerFirstSetupTransportIdentityRecoveryError>|
                Plan::Finish(
                    match recovered {
                        Ok(identity) => Ok(inputs_for(owner, public_device_identity, identity)),
                        Err(error) => Err(OwnerFirstSetupRetryCallSiteError::Recovery(error)),
                    },
                ),
        ),
    }
}

/// Load the owner's record, compare it, classify the custody, and take the one branch.
pub open spec fn retry_inputs_plan(
    owner: OwnerIdentityView,
    policy: TransportIdentityProvisioningPolicy,
    public_device_identity: PublicIdentityView,
    environment: HostEnvironment,
) -> HostPlan<Result<InputsView, OwnerFirstSetupRetryCallSiteError>> {
    bind(
        load_identity_from_environment(environment),
        |loaded: Result<OwnerIdentityView, OwnerFirstSetupBootstrapInputError>|
            match loaded {
                Err(error) => Plan::Finish(
                    Err(OwnerFirstSetupRetryCallSiteError::OwnerIdentity(error)),
                ),
                Ok(record) => if record != owner {
                    Plan::Finish(Err(OwnerFirstSetupRetryCallSiteError::OwnerIdentityMismatch))
                } else {
                    bind(
                        with_roots(
                            environment,
                            |path: Seq<u8>| inspect_plan(policy, path, environment.uid),
                        ),
                        |inspected: Result<
                            TransportIdentityPersistentState,
                            TransportIdentityRecoveryError,
                        >|
                            match inspected {
                                Err(error) => Plan::Finish(
                                    Err(OwnerFirstSetupRetryCallSiteError::StateInspection(error)),
                                ),
                                Ok(state) => retry_branch_plan(
                                    state,
                                    owner,
                                    policy,
                                    public_device_identity,
                                    environment,
                                ),
                            },
                    )
                },
            },
    )
}

fn retry_branch_in(
    state: TransportIdentityPersistentState,
    plan: &OwnerFirstSetupCustodyPolicyPlan,
    public_device_identity: &PublicIdentityMaterial,
    environment: &HostEnvironment,
    replies: &mut Replies<'_>,
) -> (outcome: Result<
    Result<OwnerFirstSetupBootstrapInputs, OwnerFirstSetupRetryCallSiteError>,
    OutsideRequest<Vec<u8>>,
>)
    requires
        old(replies).wf(),
    ensures
        went_along(
            retry_branch_plan(
                state,
                plan.owner(),
                plan.selection().policy(),
                public_device_identity@,
                *environment,
            ),
            *old(replies),
            match outcome {
                Ok(inputs) => Ok(inputs_view(inputs)),
                Err(request) => Err(request@),
            },
            *final(replies),
        ),
{
    broadcast use lemma_follow_bind;

    match state {
        TransportIdentityPersistentState::Absent => match create_inputs_in(
            plan,
            public_device_identity,
            environment,
            replies,
        )? {
            Ok(inputs) => Ok(Ok(inputs)),
            Err(error) => Ok(Err(OwnerFirstSetupRetryCallSiteError::Provisioning(error))),
        },
        TransportIdentityPersistentState::Established => match recover_setup_identity_in(
            plan,
            environment,
            replies,
        )? {
            Ok(identity) => Ok(
                Ok(
                    compose_owner_first_setup_bootstrap_inputs_from_plan(
                        plan,
                        public_device_identity,
                        identity,
                    ),
                ),
            ),
            Err(error) => Ok(Err(OwnerFirstSetupRetryCallSiteError::Recovery(error))),
        },
    }
}

/// Creates or recovers, and composes, as part of a longer operation.
pub(crate) fn retry_inputs_in(
    plan: &OwnerFirstSetupCustodyPolicyPlan,
    public_device_identity: &PublicIdentityMaterial,
    environment: &HostEnvironment,
    replies: &mut Replies<'_>,
) -> (outcome: Result<
    Result<OwnerFirstSetupBootstrapInputs, OwnerFirstSetupRetryCallSiteError>,
    OutsideRequest<Vec<u8>>,
>)
    requires
        old(replies).wf(),
    ensures
        went_along(
            retry_inputs_plan(
                plan.owner(),
                plan.selection().policy(),
                public_device_identity@,
                *environment,
            ),
            *old(replies),
            match outcome {
                Ok(inputs) => Ok(inputs_view(inputs)),
                Err(request) => Err(request@),
            },
            *final(replies),
        ),
{
    broadcast use lemma_follow_bind;

    let record = match load_identity_in(environment, replies)? {
        Ok(record) => record,
        Err(error) => {
            return Ok(Err(OwnerFirstSetupRetryCallSiteError::OwnerIdentity(error)));
        },
    };
    if let Err(error) = validate_plan_owner_identity(plan, &record) {
        return Ok(Err(error));
    }
    match inspect_in(plan.transport_provisioning_policy(), environment, replies)? {
        Err(error) => Ok(Err(OwnerFirstSetupRetryCallSiteError::StateInspection(error))),
        Ok(state) => retry_branch_in(state, plan, public_device_identity, environment, replies),
    }
}

/// Creates or recovers the plan's transport identity and composes the bootstrap inputs, as far as
/// the replies go.
pub fn execute_owner_first_setup_retry_and_compose_bootstrap_inputs(
    plan: &OwnerFirstSetupCustodyPolicyPlan,
    public_device_identity: &PublicIdentityMaterial,
    environment: &HostEnvironment,
    replies: &Vec<OutsideReply<Vec<u8>>>,
) -> (progress: Progress<
    OutsideRequest<Vec<u8>>,
    Result<OwnerFirstSetupBootstrapInputs, OwnerFirstSetupRetryCallSiteError>,
>)
    ensures
        (match progress {
            Progress::Done(inputs) => Progress::Done(inputs_view(inputs)),
            Progress::Waiting(request) => Progress::Waiting(request@),
        }) == follow(
            retry_inputs_plan(
                plan.owner(),
                plan.selection().policy(),
                public_device_identity@,
                *environment,
            ),
            reply_views(replies@),
        ).0,
{
    let mut cursor = Replies::new(replies);
    match retry_inputs_in(plan, public_device_identity, environment, &mut cursor) {
        Ok(inputs) => Progress::Done(inputs),
        Err(request) => Progress::Waiting(request),
    }
}

} // verus!
