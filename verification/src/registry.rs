//! Memberships, registered devices, and what can be wrong with them.
use vstd::prelude::*;

use crate::domain::{
    BindingView, DeviceId, DeviceIdentityBinding, PublicIdentityMaterial, PublicIdentityView,
    TransportIdentity, UserId, WorkspaceId,
};

verus! {

/// What a person may do in a workspace.
#[derive(Clone, Copy, PartialEq, Eq, Structural, Debug)]
pub enum WorkspaceRole {
    Owner,
    Member,
}

/// Where a membership stands in its life.
#[derive(Clone, Copy, PartialEq, Eq, Structural, Debug)]
pub enum MembershipLifecycle {
    Active,
    Suspended,
    /// Terminal.
    Removed,
}

/// A rule of the registry rejected an observation or a change. The texts are this library's own
/// choice.
#[derive(Clone, Copy, PartialEq, Eq, Structural, Debug)]
pub enum RegistryError {
    MembershipAlreadyExists,
    MembershipUnknown,
    MembershipNotActive,
    MembershipRemoved,
    InvalidMembershipTransition,
    DeviceAlreadyExists,
    DeviceUnknown,
    DeviceNotEnrolled,
    DeviceRevoked,
    TransportIdentityMissing,
    TransportIdentityMismatch,
    TransportIdentityAlreadyBound,
    TransportIdentityUnchanged,
    SessionBindingMismatch,
}

impl RegistryError {
    /// The text shown to people for this error.
    pub open spec fn text(self) -> Seq<char> {
        match self {
            RegistryError::MembershipAlreadyExists => "membership already exists"@,
            RegistryError::MembershipUnknown => "membership is unknown"@,
            RegistryError::MembershipNotActive => "membership is not active"@,
            RegistryError::MembershipRemoved => "membership is removed"@,
            RegistryError::InvalidMembershipTransition => "membership transition is invalid"@,
            RegistryError::DeviceAlreadyExists => "device already exists"@,
            RegistryError::DeviceUnknown => "device is unknown"@,
            RegistryError::DeviceNotEnrolled => "device is not enrolled"@,
            RegistryError::DeviceRevoked => "device is revoked"@,
            RegistryError::TransportIdentityMissing => "transport identity is missing"@,
            RegistryError::TransportIdentityMismatch => "transport identity does not match"@,
            RegistryError::TransportIdentityAlreadyBound => "transport identity is already bound"@,
            RegistryError::TransportIdentityUnchanged => "transport identity is unchanged"@,
            RegistryError::SessionBindingMismatch => "session does not match the device binding"@,
        }
    }

    pub fn message(&self) -> (text: &'static str)
        ensures
            text@ == self.text(),
    {
        match self {
            RegistryError::MembershipAlreadyExists => "membership already exists",
            RegistryError::MembershipUnknown => "membership is unknown",
            RegistryError::MembershipNotActive => "membership is not active",
            RegistryError::MembershipRemoved => "membership is removed",
            RegistryError::InvalidMembershipTransition => "membership transition is invalid",
            RegistryError::DeviceAlreadyExists => "device already exists",
            RegistryError::DeviceUnknown => "device is unknown",
            RegistryError::DeviceNotEnrolled => "device is not enrolled",
            RegistryError::DeviceRevoked => "device is revoked",
            RegistryError::TransportIdentityMissing => "transport identity is missing",
            RegistryError::TransportIdentityMismatch => "transport identity does not match",
            RegistryError::TransportIdentityAlreadyBound => "transport identity is already bound",
            RegistryError::TransportIdentityUnchanged => "transport identity is unchanged",
            RegistryError::SessionBindingMismatch => "session does not match the device binding",
        }
    }
}

/// One person's membership of one workspace.
#[derive(PartialEq, Eq, Debug)]
pub struct WorkspaceMembership {
    pub workspace_id: WorkspaceId,
    pub user_id: UserId,
    pub role: WorkspaceRole,
    pub lifecycle: MembershipLifecycle,
}

/// What a [`WorkspaceMembership`] says.
pub struct MembershipView {
    pub workspace: Seq<char>,
    pub user: Seq<char>,
    pub role: WorkspaceRole,
    pub lifecycle: MembershipLifecycle,
}

impl View for WorkspaceMembership {
    type V = MembershipView;

    open spec fn view(&self) -> MembershipView {
        MembershipView {
            workspace: self.workspace_id@,
            user: self.user_id@,
            role: self.role,
            lifecycle: self.lifecycle,
        }
    }
}

impl WorkspaceMembership {
    pub fn workspace_id(&self) -> (id: &WorkspaceId)
        ensures
            id@ == self@.workspace,
    {
        &self.workspace_id
    }

    pub fn user_id(&self) -> (id: &UserId)
        ensures
            id@ == self@.user,
    {
        &self.user_id
    }

    pub fn role(&self) -> (role: WorkspaceRole)
        ensures
            role == self@.role,
    {
        self.role
    }

    pub fn lifecycle(&self) -> (lifecycle: MembershipLifecycle)
        ensures
            lifecycle == self@.lifecycle,
    {
        self.lifecycle
    }
}

impl Clone for WorkspaceMembership {
    fn clone(&self) -> (copy: Self)
        ensures
            copy@ == self@,
    {
        WorkspaceMembership {
            workspace_id: self.workspace_id.clone(),
            user_id: self.user_id.clone(),
            role: self.role,
            lifecycle: self.lifecycle,
        }
    }
}

/// A device known to the registry, with its current transport identity once one is bound.
#[derive(PartialEq, Eq, Debug)]
pub struct RegisteredDevice {
    pub binding: DeviceIdentityBinding,
    pub transport_identity: Option<TransportIdentity>,
}

/// What a [`RegisteredDevice`] says.
pub struct DeviceView {
    pub binding: BindingView,
    pub transport_identity: Option<TransportIdentity>,
}

impl View for RegisteredDevice {
    type V = DeviceView;

    open spec fn view(&self) -> DeviceView {
        DeviceView { binding: self.binding@, transport_identity: self.transport_identity }
    }
}

impl RegisteredDevice {
    pub fn binding(&self) -> (binding: &DeviceIdentityBinding)
        ensures
            binding@ == self@.binding,
    {
        &self.binding
    }

    pub fn transport_identity(&self) -> (identity: Option<TransportIdentity>)
        ensures
            identity == self@.transport_identity,
    {
        self.transport_identity
    }
}

impl Clone for RegisteredDevice {
    fn clone(&self) -> (copy: Self)
        ensures
            copy@ == self@,
    {
        RegisteredDevice {
            binding: self.binding.clone(),
            transport_identity: self.transport_identity,
        }
    }
}

/// A device session whose authentication has been checked.
#[derive(PartialEq, Eq, Debug)]
pub struct AuthenticatedDeviceSession {
    pub workspace_id: WorkspaceId,
    pub user_id: UserId,
    pub device_id: DeviceId,
    pub public_identity: PublicIdentityMaterial,
}

/// What an [`AuthenticatedDeviceSession`] says.
pub struct SessionView {
    pub workspace: Seq<char>,
    pub user: Seq<char>,
    pub device: Seq<char>,
    pub public_identity: PublicIdentityView,
}

impl View for AuthenticatedDeviceSession {
    type V = SessionView;

    open spec fn view(&self) -> SessionView {
        SessionView {
            workspace: self.workspace_id@,
            user: self.user_id@,
            device: self.device_id@,
            public_identity: self.public_identity@,
        }
    }
}

/// A principal whom the registry stands behind.
#[derive(PartialEq, Eq, Debug)]
pub struct RegistryValidatedPrincipal {
    pub workspace_id: WorkspaceId,
    pub user_id: UserId,
    pub device_id: DeviceId,
    pub public_identity: PublicIdentityMaterial,
    pub role: WorkspaceRole,
}

/// What a [`RegistryValidatedPrincipal`] says.
pub struct PrincipalView {
    pub session: SessionView,
    pub role: WorkspaceRole,
}

impl View for RegistryValidatedPrincipal {
    type V = PrincipalView;

    open spec fn view(&self) -> PrincipalView {
        PrincipalView {
            session: SessionView {
                workspace: self.workspace_id@,
                user: self.user_id@,
                device: self.device_id@,
                public_identity: self.public_identity@,
            },
            role: self.role,
        }
    }
}

} // verus!
