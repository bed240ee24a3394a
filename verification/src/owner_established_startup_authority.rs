//! Proof that a restarted owner PC still has its established authority.
use vstd::prelude::*;
use vstd::string::*;

use crate::domain::{
    lemma_transport_identity_of, transport_identity_of, BindingView, DeviceId, DeviceIdentityBinding, DeviceLifecycle, PublicIdentityMaterial,
    PublicIdentityView, TransportIdentity, UserId, WorkspaceId,
};
use crate::durable_registry_authority::DurableRegistryAuthorityError;
use crate::durable_registry_sqlite_custody::{
    open_existing_authority_in, open_existing_authority_plan, DurableRegistrySqliteCustodyError,
};
use crate::durable_registry_sqlite_store::{
    device_read, load_device, load_device_plan, load_membership, load_membership_plan,
    membership_read, registry_reply_views, RegistryReply,
};
use crate::environment::HostEnvironment;
use crate::outside::{reply_views, OutsideReply};
use crate::owner_first_setup_bootstrap_inputs::{
    load_identity_from_environment, load_identity_in,
    OwnerFirstSetupBootstrapInputError, OwnerIdentityView, OwnerLogicalIdentityRecord,
};
use crate::plan::Progress;
use crate::registry::{
    DeviceView, MembershipLifecycle, MembershipView, RegisteredDevice, WorkspaceMembership,
    WorkspaceRole,
};
use crate::startup_plan::{
    follow_startup, from_host, from_registry, group_follow_startup, on_host, on_registry,
    startup_bind, startup_progress, startup_went_along, StartupPlan, StartupReplies,
    StartupRequest,
};
use crate::transport_identity_provisioning::{
    TransportIdentityProvisioningPolicy, TransportIdentityRecoveryError,
};
use crate::transport_identity_recovery::{
    recover_established_in, recover_established_plan, with_roots,
};

verus! {

/// Successful read-only proof that post-first-run local startup authority is established.
#[derive(Clone, Copy, PartialEq, Eq, Structural, Debug)]
pub struct OwnerEstablishedStartupAuthorityProof {
    transport_policy: TransportIdentityProvisioningPolicy,
}

impl OwnerEstablishedStartupAuthorityProof {
    pub closed spec fn policy(self) -> TransportIdentityProvisioningPolicy {
        self.transport_policy
    }

    /// The proof for an established policy.
    pub closed spec fn of(policy: TransportIdentityProvisioningPolicy) -> Self {
        OwnerEstablishedStartupAuthorityProof { transport_policy: policy }
    }

    /// Returns the canonical established transport policy read from persisted custody.
    pub fn transport_policy(self) -> (policy: TransportIdentityProvisioningPolicy)
        ensures
            policy == self.policy(),
    {
        self.transport_policy
    }
}

pub broadcast proof fn lemma_proof_of(policy: TransportIdentityProvisioningPolicy)
    ensures
        #[trigger] OwnerEstablishedStartupAuthorityProof::of(policy).policy() == policy,
{
}

/// Fail-closed established-startup authority verification error.
#[derive(Clone, Copy, PartialEq, Eq, Structural, Debug)]
pub enum OwnerEstablishedStartupAuthorityError {
    /// The authoritative owner logical-identity record was absent, insecure, or malformed.
    OwnerIdentity(OwnerFirstSetupBootstrapInputError),
    /// Canonical established transport custody could not be validated and recovered.
    TransportIdentity(TransportIdentityRecoveryError),
    /// The existing owner-PC database could not be opened read-only.
    DatabaseCustody(DurableRegistrySqliteCustodyError),
    /// Registry record reads failed.
    AuthorityRead(DurableRegistryAuthorityError),
    /// The exact owner membership record is absent.
    OwnerMembershipMissing,
    /// The exact owner membership is not current Owner/Active state.
    OwnerMembershipNotCurrent,
    /// The exact owner device record is absent.
    OwnerDeviceMissing,
    /// The exact owner device binding or current transport identity does not match established state.
    OwnerDeviceNotCurrent,
}

impl OwnerEstablishedStartupAuthorityError {
    /// The text shown to people for this error.
    pub open spec fn text(self) -> Seq<char> {
        match self {
            OwnerEstablishedStartupAuthorityError::OwnerIdentity(error) => "established owner identity validation failed: "@ + error.text(),
            OwnerEstablishedStartupAuthorityError::TransportIdentity(error) => "established transport custody validation failed: "@ + error.text(),
            OwnerEstablishedStartupAuthorityError::DatabaseCustody(error) => "established SQLite custody validation failed: "@ + error.text(),
            OwnerEstablishedStartupAuthorityError::AuthorityRead(error) => "established SQLite authority read failed: "@ + error.text(),
            OwnerEstablishedStartupAuthorityError::OwnerMembershipMissing => "established owner membership is missing"@,
            OwnerEstablishedStartupAuthorityError::OwnerMembershipNotCurrent => "established owner membership is not current"@,
            OwnerEstablishedStartupAuthorityError::OwnerDeviceMissing => "established owner device is missing"@,
            OwnerEstablishedStartupAuthorityError::OwnerDeviceNotCurrent => "established owner device is not current"@,
        }
    }

    pub fn message(&self) -> (text: String)
        ensures
            text@ == self.text(),
    {
        match self {
            OwnerEstablishedStartupAuthorityError::OwnerIdentity(error) => "established owner identity validation failed: ".to_owned().concat(error.message().as_str()),
            OwnerEstablishedStartupAuthorityError::TransportIdentity(error) => "established transport custody validation failed: ".to_owned().concat(error.message()),
            OwnerEstablishedStartupAuthorityError::DatabaseCustody(error) => "established SQLite custody validation failed: ".to_owned().concat(error.message()),
            OwnerEstablishedStartupAuthorityError::AuthorityRead(error) => "established SQLite authority read failed: ".to_owned().concat(error.message().as_str()),
            OwnerEstablishedStartupAuthorityError::OwnerMembershipMissing => "established owner membership is missing".to_owned(),
            OwnerEstablishedStartupAuthorityError::OwnerMembershipNotCurrent => "established owner membership is not current".to_owned(),
            OwnerEstablishedStartupAuthorityError::OwnerDeviceMissing => "established owner device is missing".to_owned(),
            OwnerEstablishedStartupAuthorityError::OwnerDeviceNotCurrent => "established owner device is not current".to_owned(),
        }
    }
}

/// The owner's membership has to be there, be the owner's own, and be an active owner's.
pub open spec fn membership_verdict(
    owner: OwnerIdentityView,
    read: Result<Option<MembershipView>, DurableRegistryAuthorityError>,
) -> Result<(), OwnerEstablishedStartupAuthorityError> {
    match read {
        Err(error) => Err(OwnerEstablishedStartupAuthorityError::AuthorityRead(error)),
        Ok(None) => Err(OwnerEstablishedStartupAuthorityError::OwnerMembershipMissing),
        Ok(Some(membership)) => if membership == (MembershipView {
            workspace: owner.workspace,
            user: owner.user,
            role: WorkspaceRole::Owner,
            lifecycle: MembershipLifecycle::Active,
        }) {
            Ok(())
        } else {
            Err(OwnerEstablishedStartupAuthorityError::OwnerMembershipNotCurrent)
        },
    }
}

pub fn judge_owner_membership(
    owner: &OwnerLogicalIdentityRecord,
    read: Result<Option<WorkspaceMembership>, DurableRegistryAuthorityError>,
) -> (verdict: Result<(), OwnerEstablishedStartupAuthorityError>)
    ensures
        verdict == membership_verdict(owner@, membership_read(read)),
{
    match read {
        Err(error) => Err(OwnerEstablishedStartupAuthorityError::AuthorityRead(error)),
        Ok(None) => Err(OwnerEstablishedStartupAuthorityError::OwnerMembershipMissing),
        Ok(Some(membership)) => {
            if membership.workspace_id() != owner.workspace_id() || membership.user_id()
                != owner.user_id() || membership.role() != WorkspaceRole::Owner
                || membership.lifecycle() != MembershipLifecycle::Active {
                return Err(OwnerEstablishedStartupAuthorityError::OwnerMembershipNotCurrent);
            }
            Ok(())
        },
    }
}

/// The owner's device has to be there, enrolled under exactly this key, with exactly this
/// transport identity.
pub open spec fn device_verdict(
    owner: OwnerIdentityView,
    public_device_identity: PublicIdentityView,
    transport_identity: TransportIdentity,
    read: Result<Option<DeviceView>, DurableRegistryAuthorityError>,
) -> Result<(), OwnerEstablishedStartupAuthorityError> {
    match read {
        Err(error) => Err(OwnerEstablishedStartupAuthorityError::AuthorityRead(error)),
        Ok(None) => Err(OwnerEstablishedStartupAuthorityError::OwnerDeviceMissing),
        Ok(Some(device)) => if device == (DeviceView {
            binding: BindingView {
                workspace: owner.workspace,
                user: owner.user,
                device: owner.device,
                public_identity: public_device_identity,
                lifecycle: DeviceLifecycle::Enrolled,
            },
            transport_identity: Some(transport_identity),
        }) {
            Ok(())
        } else {
            Err(OwnerEstablishedStartupAuthorityError::OwnerDeviceNotCurrent)
        },
    }
}

pub fn judge_owner_device(
    owner: &OwnerLogicalIdentityRecord,
    public_device_identity: &PublicIdentityMaterial,
    transport_identity: TransportIdentity,
    read: Result<Option<RegisteredDevice>, DurableRegistryAuthorityError>,
) -> (verdict: Result<(), OwnerEstablishedStartupAuthorityError>)
    ensures
        verdict == device_verdict(
            owner@,
            public_device_identity@,
            transport_identity,
            device_read(read),
        ),
{
    match read {
        Err(error) => Err(OwnerEstablishedStartupAuthorityError::AuthorityRead(error)),
        Ok(None) => Err(OwnerEstablishedStartupAuthorityError::OwnerDeviceMissing),
        Ok(Some(device)) => {
            let expected_binding = DeviceIdentityBinding {
                workspace_id: owner.workspace_id().clone(),
                user_id: owner.user_id().clone(),
                device_id: owner.device_id().clone(),
                public_identity: public_device_identity.clone(),
                lifecycle: DeviceLifecycle::Enrolled,
            };
            if device.binding() != &expected_binding || device.transport_identity() != Some(
                transport_identity,
            ) {
                return Err(OwnerEstablishedStartupAuthorityError::OwnerDeviceNotCurrent);
            }
            Ok(())
        },
    }
}

/// Proves that the authority holds exactly this owner: the membership is read and judged first,
/// and the device is read only when the membership is current.
pub fn verify_established_owner_startup_authority_with_store<M, D>(
    read_membership: M,
    read_device: D,
    owner: &OwnerLogicalIdentityRecord,
    public_device_identity: &PublicIdentityMaterial,
    transport_policy: TransportIdentityProvisioningPolicy,
    transport_identity: TransportIdentity,
) -> (proved: Result<OwnerEstablishedStartupAuthorityProof, OwnerEstablishedStartupAuthorityError>) where
    M: FnOnce(&WorkspaceId, &UserId) -> Result<
        Option<WorkspaceMembership>,
        DurableRegistryAuthorityError,
    >,
    D: FnOnce(&DeviceId) -> Result<Option<RegisteredDevice>, DurableRegistryAuthorityError>,

    requires
        forall|workspace: &WorkspaceId, user: &UserId|
            workspace@ == owner@.workspace && user@ == owner@.user ==> #[trigger] call_requires(
                read_membership,
                (workspace, user),
            ),
        forall|
            workspace: &WorkspaceId,
            user: &UserId,
            membership: Result<Option<WorkspaceMembership>, DurableRegistryAuthorityError>,
            device: &DeviceId,
        |
            {
                &&& workspace@ == owner@.workspace
                &&& user@ == owner@.user
                &&& #[trigger] call_ensures(read_membership, (workspace, user), membership)
                &&& membership_verdict(owner@, membership_read(membership)) is Ok
                &&& device@ == owner@.device
            } ==> #[trigger] call_requires(read_device, (device,)),
    ensures
        exists|
            workspace: &WorkspaceId,
            user: &UserId,
            membership: Result<Option<WorkspaceMembership>, DurableRegistryAuthorityError>,
        |
            {
                &&& workspace@ == owner@.workspace
                &&& user@ == owner@.user
                &&& #[trigger] call_ensures(read_membership, (workspace, user), membership)
                &&& match membership_verdict(owner@, membership_read(membership)) {
                    Err(error) => proved matches Err(stage) && stage == error,
                    Ok(_) => exists|
                        name: &DeviceId,
                        device: Result<Option<RegisteredDevice>, DurableRegistryAuthorityError>,
                    |
                        {
                            &&& name@ == owner@.device
                            &&& #[trigger] call_ensures(read_device, (name,), device)
                            &&& match device_verdict(
                                owner@,
                                public_device_identity@,
                                transport_identity,
                                device_read(device),
                            ) {
                                Err(error) => proved matches Err(stage) && stage == error,
                                Ok(_) => proved matches Ok(proof) && proof.policy()
                                    == transport_policy,
                            }
                        },
                }
            },
{
    let membership = read_membership(owner.workspace_id(), owner.user_id());
    if let Err(error) = judge_owner_membership(owner, membership) {
        return Err(error);
    }
    let device = read_device(owner.device_id());
    match judge_owner_device(owner, public_device_identity, transport_identity, device) {
        Err(error) => Err(error),
        Ok(_) => Ok(OwnerEstablishedStartupAuthorityProof { transport_policy }),
    }
}

/// Read and judge the membership, and only then the device.
pub open spec fn verify_records_plan(
    owner: OwnerIdentityView,
    public_device_identity: PublicIdentityView,
    transport_policy: TransportIdentityProvisioningPolicy,
    transport_identity: TransportIdentity,
) -> StartupPlan<
    Result<OwnerEstablishedStartupAuthorityProof, OwnerEstablishedStartupAuthorityError>,
> {
    on_registry(
        load_membership_plan(owner.workspace, owner.user),
        |membership: Result<Option<MembershipView>, DurableRegistryAuthorityError>|
            match membership_verdict(owner, membership) {
                Err(error) => StartupPlan::Finish(Err(error)),
                Ok(_) => on_registry(
                    load_device_plan(owner.device),
                    |device: Result<Option<DeviceView>, DurableRegistryAuthorityError>|
                        StartupPlan::Finish(
                            match device_verdict(
                                owner,
                                public_device_identity,
                                transport_identity,
                                device,
                            ) {
                                Err(error) => Err(error),
                                Ok(_) => Ok(
                                    OwnerEstablishedStartupAuthorityProof::of(transport_policy),
                                ),
                            },
                        ),
                ),
            },
    )
}

/// Open the existing authority, and look in it for exactly this owner.
pub open spec fn verify_authority_plan(
    owner: OwnerIdentityView,
    public_device_identity: PublicIdentityView,
    recovered: (TransportIdentityProvisioningPolicy, Seq<u8>),
    environment: HostEnvironment,
) -> StartupPlan<
    Result<OwnerEstablishedStartupAuthorityProof, OwnerEstablishedStartupAuthorityError>,
> {
    startup_bind(
        open_existing_authority_plan(environment),
        |opened: Result<(), DurableRegistrySqliteCustodyError>|
            match opened {
                Err(error) => StartupPlan::Finish(
                    Err(OwnerEstablishedStartupAuthorityError::DatabaseCustody(error)),
                ),
                Ok(_) => verify_records_plan(
                    owner,
                    public_device_identity,
                    recovered.0,
                    transport_identity_of(recovered.1),
                ),
            },
    )
}

/// Load the owner, recover the transport identity, open the existing authority, and look in it
/// for exactly these.
pub open spec fn verify_established_plan(
    public_device_identity: PublicIdentityView,
    environment: HostEnvironment,
) -> StartupPlan<
    Result<OwnerEstablishedStartupAuthorityProof, OwnerEstablishedStartupAuthorityError>,
> {
    on_host(
        load_identity_from_environment(environment),
        |loaded: Result<OwnerIdentityView, OwnerFirstSetupBootstrapInputError>|
            match loaded {
                Err(error) => StartupPlan::Finish(
                    Err(OwnerEstablishedStartupAuthorityError::OwnerIdentity(error)),
                ),
                Ok(owner) => on_host(
                    with_roots(
                        environment,
                        |path: Seq<u8>| recover_established_plan(path, environment.uid),
                    ),
                    |recovered: Result<
                        (TransportIdentityProvisioningPolicy, Seq<u8>),
                        TransportIdentityRecoveryError,
                    >|
                        match recovered {
                            Err(error) => StartupPlan::Finish(
                                Err(OwnerEstablishedStartupAuthorityError::TransportIdentity(error)),
                            ),
                            Ok(transport) => verify_authority_plan(
                                owner,
                                public_device_identity,
                                transport,
                                environment,
                            ),
                        },
                ),
            },
    )
}

fn verify_records_in(
    owner: &OwnerLogicalIdentityRecord,
    public_device_identity: &PublicIdentityMaterial,
    transport_policy: TransportIdentityProvisioningPolicy,
    transport_identity: TransportIdentity,
    replies: &mut StartupReplies<'_>,
) -> (outcome: Result<
    Result<OwnerEstablishedStartupAuthorityProof, OwnerEstablishedStartupAuthorityError>,
    StartupRequest<String, Vec<u8>>,
>)
    requires
        old(replies).wf(),
    ensures
        startup_went_along(
            verify_records_plan(
                owner@,
                public_device_identity@,
                transport_policy,
                transport_identity,
            ),
            *old(replies),
            outcome,
            *final(replies),
        ),
{
    broadcast use group_follow_startup;

    let membership = from_registry(
        load_membership(&mut replies.registry, owner.workspace_id(), owner.user_id()),
    )?;
    if let Err(error) = judge_owner_membership(owner, membership) {
        return Ok(Err(error));
    }
    let device = from_registry(load_device(&mut replies.registry, owner.device_id()))?;
    match judge_owner_device(owner, public_device_identity, transport_identity, device) {
        Err(error) => Ok(Err(error)),
        Ok(_) => Ok(Ok(OwnerEstablishedStartupAuthorityProof { transport_policy })),
    }
}

/// Verifies the established authority as part of a longer operation.
pub(crate) fn verify_established_in(
    public_device_identity: &PublicIdentityMaterial,
    environment: &HostEnvironment,
    replies: &mut StartupReplies<'_>,
) -> (outcome: Result<
    Result<OwnerEstablishedStartupAuthorityProof, OwnerEstablishedStartupAuthorityError>,
    StartupRequest<String, Vec<u8>>,
>)
    requires
        old(replies).wf(),
    ensures
        startup_went_along(
            verify_established_plan(public_device_identity@, *environment),
            *old(replies),
            outcome,
            *final(replies),
        ),
{
    broadcast use group_follow_startup;

    let owner = match from_host(load_identity_in(environment, &mut replies.host))? {
        Ok(owner) => owner,
        Err(error) => {
            return Ok(Err(OwnerEstablishedStartupAuthorityError::OwnerIdentity(error)));
        },
    };
    let transport = match from_host(recover_established_in(environment, &mut replies.host))? {
        Ok(transport) => transport,
        Err(error) => {
            return Ok(Err(OwnerEstablishedStartupAuthorityError::TransportIdentity(error)));
        },
    };
    if let Err(error) = open_existing_authority_in(environment, replies)? {
        return Ok(Err(OwnerEstablishedStartupAuthorityError::DatabaseCustody(error)));
    }
    proof {
        lemma_transport_identity_of(transport.spec_identity());
    }
    verify_records_in(
        &owner,
        public_device_identity,
        transport.policy(),
        transport.transport_identity(),
        replies,
    )
}

/// Proves, without changing anything, that the owner's identity, its transport custody and its
/// authority are established and agree, as far as the replies go.
pub fn verify_established_owner_startup_authority(
    public_device_identity: &PublicIdentityMaterial,
    environment: &HostEnvironment,
    host: &Vec<OutsideReply<Vec<u8>>>,
    registry: &Vec<RegistryReply<String, Vec<u8>>>,
) -> (progress: Progress<
    StartupRequest<String, Vec<u8>>,
    Result<OwnerEstablishedStartupAuthorityProof, OwnerEstablishedStartupAuthorityError>,
>)
    ensures
        startup_progress(progress) == follow_startup(
            verify_established_plan(public_device_identity@, *environment),
            reply_views(host@),
            registry_reply_views(registry@),
        ).progress,
{
    let mut replies = StartupReplies::new(host, registry);
    match verify_established_in(public_device_identity, environment, &mut replies) {
        Ok(result) => Progress::Done(result),
        Err(request) => Progress::Waiting(request),
    }
}

} // verus!
