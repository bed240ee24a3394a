//! What becomes of a record when it changes: the rules for successors, apart from where the
//! records are kept.
use vstd::prelude::*;

use crate::domain::{BindingView, DeviceLifecycle, TransportIdentity};
use crate::durable_registry_authority::DurableRegistryAuthorityError;
use crate::durable_registry_semantics::{enrolled_verdict, ensure_enrolled_device};
use crate::registry::{
    DeviceView, MembershipLifecycle, MembershipView, RegisteredDevice, RegistryError,
    WorkspaceMembership,
};

verus! {

/// A change of a membership.
#[derive(Clone, Copy, PartialEq, Eq, Structural, Debug)]
pub enum MembershipChange {
    Suspend,
    Remove,
}

/// A change of a device.
#[derive(Clone, Copy, PartialEq, Eq, Debug)]
pub enum DeviceChange {
    BindTransport(TransportIdentity),
    RotateTransport(TransportIdentity, TransportIdentity),
    Revoke,
}

/// Only an active membership can be suspended.
pub open spec fn suspended_membership(current: MembershipView) -> Result<
    MembershipView,
    DurableRegistryAuthorityError,
> {
    match current.lifecycle {
        MembershipLifecycle::Active => Ok(
            MembershipView { lifecycle: MembershipLifecycle::Suspended, ..current },
        ),
        MembershipLifecycle::Suspended => Err(
            DurableRegistryAuthorityError::Semantic(RegistryError::InvalidMembershipTransition),
        ),
        MembershipLifecycle::Removed => Err(
            DurableRegistryAuthorityError::Semantic(RegistryError::MembershipRemoved),
        ),
    }
}

/// Every membership that is not removed yet can be removed.
pub open spec fn removed_membership(current: MembershipView) -> Result<
    MembershipView,
    DurableRegistryAuthorityError,
> {
    match current.lifecycle {
        MembershipLifecycle::Removed => Err(
            DurableRegistryAuthorityError::Semantic(RegistryError::MembershipRemoved),
        ),
        _ => Ok(MembershipView { lifecycle: MembershipLifecycle::Removed, ..current }),
    }
}

pub open spec fn changed_membership(current: MembershipView, change: MembershipChange) -> Result<
    MembershipView,
    DurableRegistryAuthorityError,
> {
    match change {
        MembershipChange::Suspend => suspended_membership(current),
        MembershipChange::Remove => removed_membership(current),
    }
}

/// Only an enrolled device without a transport identity can be given its first.
pub open spec fn bound_device(current: DeviceView, identity: TransportIdentity) -> Result<
    DeviceView,
    DurableRegistryAuthorityError,
> {
    match enrolled_verdict(current) {
        Err(error) => Err(error),
        Ok(_) => if current.transport_identity is Some {
            Err(DurableRegistryAuthorityError::Semantic(RegistryError::TransportIdentityAlreadyBound))
        } else {
            Ok(DeviceView { transport_identity: Some(identity), ..current })
        },
    }
}

/// A transport identity is replaced only when it is the expected one and the new one differs.
pub open spec fn rotated_device(
    current: DeviceView,
    expected: TransportIdentity,
    replacement: TransportIdentity,
) -> Result<DeviceView, DurableRegistryAuthorityError> {
    if expected == replacement {
        Err(DurableRegistryAuthorityError::Semantic(RegistryError::TransportIdentityUnchanged))
    } else {
        match enrolled_verdict(current) {
            Err(error) => Err(error),
            Ok(_) => match current.transport_identity {
                None => Err(
                    DurableRegistryAuthorityError::Semantic(
                        RegistryError::TransportIdentityMissing,
                    ),
                ),
                Some(existing) => if existing == expected {
                    Ok(DeviceView { transport_identity: Some(replacement), ..current })
                } else {
                    Err(
                        DurableRegistryAuthorityError::Semantic(
                            RegistryError::TransportIdentityMismatch,
                        ),
                    )
                },
            },
        }
    }
}

/// Only an enrolled device can be revoked; everything but its lifecycle stays.
pub open spec fn revoked_device(current: DeviceView) -> Result<
    DeviceView,
    DurableRegistryAuthorityError,
> {
    match enrolled_verdict(current) {
        Err(error) => Err(error),
        Ok(_) => Ok(
            DeviceView {
                binding: BindingView { lifecycle: DeviceLifecycle::Revoked, ..current.binding },
                ..current
            },
        ),
    }
}

pub open spec fn changed_device(current: DeviceView, change: DeviceChange) -> Result<
    DeviceView,
    DurableRegistryAuthorityError,
> {
    match change {
        DeviceChange::BindTransport(identity) => bound_device(current, identity),
        DeviceChange::RotateTransport(expected, replacement) => rotated_device(
            current,
            expected,
            replacement,
        ),
        DeviceChange::Revoke => revoked_device(current),
    }
}

/// The successor membership, or the error, as the rules see it.
pub open spec fn membership_view(
    successor: Result<WorkspaceMembership, DurableRegistryAuthorityError>,
) -> Result<MembershipView, DurableRegistryAuthorityError> {
    match successor {
        Ok(value) => Ok(value@),
        Err(error) => Err(error),
    }
}

/// The successor device, or the error, as the rules see it.
pub open spec fn device_view(
    successor: Result<RegisteredDevice, DurableRegistryAuthorityError>,
) -> Result<DeviceView, DurableRegistryAuthorityError> {
    match successor {
        Ok(value) => Ok(value@),
        Err(error) => Err(error),
    }
}

pub fn suspend_membership_successor(current: &WorkspaceMembership) -> (successor: Result<
    WorkspaceMembership,
    DurableRegistryAuthorityError,
>)
    ensures
        membership_view(successor) == suspended_membership(current@),
        successor is Ok <==> current@.lifecycle == MembershipLifecycle::Active,
        successor matches Ok(suspended) ==> suspended@.lifecycle == MembershipLifecycle::Suspended
            && suspended@.workspace == current@.workspace && suspended@.user == current@.user
            && suspended@.role == current@.role,
        current@.lifecycle == MembershipLifecycle::Suspended ==> successor == Err::<
            WorkspaceMembership,
            _,
        >(DurableRegistryAuthorityError::Semantic(RegistryError::InvalidMembershipTransition)),
        current@.lifecycle == MembershipLifecycle::Removed ==> successor == Err::<
            WorkspaceMembership,
            _,
        >(DurableRegistryAuthorityError::Semantic(RegistryError::MembershipRemoved)),
{
    match current.lifecycle() {
        MembershipLifecycle::Active => {
            let mut successor = current.clone();
            successor.lifecycle = MembershipLifecycle::Suspended;
            Ok(successor)
        },
        MembershipLifecycle::Suspended => Err(
            DurableRegistryAuthorityError::Semantic(RegistryError::InvalidMembershipTransition),
        ),
        MembershipLifecycle::Removed => Err(
            DurableRegistryAuthorityError::Semantic(RegistryError::MembershipRemoved),
        ),
    }
}

pub fn remove_membership_successor(current: &WorkspaceMembership) -> (successor: Result<
    WorkspaceMembership,
    DurableRegistryAuthorityError,
>)
    ensures
        membership_view(successor) == removed_membership(current@),
        successor is Ok <==> current@.lifecycle == MembershipLifecycle::Active
            || current@.lifecycle == MembershipLifecycle::Suspended,
        successor matches Ok(removed) ==> removed@.lifecycle == MembershipLifecycle::Removed
            && removed@.workspace == current@.workspace && removed@.user == current@.user
            && removed@.role == current@.role,
        successor matches Err(error) ==> error == DurableRegistryAuthorityError::Semantic(
            RegistryError::MembershipRemoved,
        ),
{
    match current.lifecycle() {
        MembershipLifecycle::Active | MembershipLifecycle::Suspended => {
            let mut successor = current.clone();
            successor.lifecycle = MembershipLifecycle::Removed;
            Ok(successor)
        },
        MembershipLifecycle::Removed => Err(
            DurableRegistryAuthorityError::Semantic(RegistryError::MembershipRemoved),
        ),
    }
}

pub fn bind_transport_successor(current: &RegisteredDevice, identity: TransportIdentity) -> (successor:
    Result<RegisteredDevice, DurableRegistryAuthorityError>)
    ensures
        device_view(successor) == bound_device(current@, identity),
        successor is Ok <==> current@.binding.lifecycle == DeviceLifecycle::Enrolled
            && current@.transport_identity is None,
        successor matches Ok(bound) ==> bound@.transport_identity == Some(identity)
            && bound@.binding == current@.binding,
{
    if let Err(error) = ensure_enrolled_device(current) {
        return Err(error);
    }
    if current.transport_identity().is_some() {
        return Err(
            DurableRegistryAuthorityError::Semantic(RegistryError::TransportIdentityAlreadyBound),
        );
    }
    let mut successor = current.clone();
    successor.transport_identity = Some(identity);
    Ok(successor)
}

pub fn rotate_transport_successor(
    current: &RegisteredDevice,
    expected_current: TransportIdentity,
    replacement: TransportIdentity,
) -> (successor: Result<RegisteredDevice, DurableRegistryAuthorityError>)
    ensures
        device_view(successor) == rotated_device(current@, expected_current, replacement),
        successor is Ok <==> current@.binding.lifecycle == DeviceLifecycle::Enrolled
            && current@.transport_identity == Some(expected_current) && expected_current
            != replacement,
        successor matches Ok(rotated) ==> rotated@.transport_identity == Some(replacement)
            && rotated@.binding == current@.binding,
{
    if expected_current == replacement {
        return Err(
            DurableRegistryAuthorityError::Semantic(RegistryError::TransportIdentityUnchanged),
        );
    }
    if let Err(error) = ensure_enrolled_device(current) {
        return Err(error);
    }
    let existing = match current.transport_identity() {
        Some(existing) => existing,
        None => {
            return Err(
                DurableRegistryAuthorityError::Semantic(RegistryError::TransportIdentityMissing),
            );
        },
    };
    if existing != expected_current {
        return Err(
            DurableRegistryAuthorityError::Semantic(RegistryError::TransportIdentityMismatch),
        );
    }
    let mut successor = current.clone();
    successor.transport_identity = Some(replacement);
    Ok(successor)
}

pub fn revoke_device_successor(current: &RegisteredDevice) -> (successor: Result<
    RegisteredDevice,
    DurableRegistryAuthorityError,
>)
    ensures
        device_view(successor) == revoked_device(current@),
        successor is Ok <==> current@.binding.lifecycle == DeviceLifecycle::Enrolled,
        successor matches Ok(revoked) ==> revoked@.binding.lifecycle == DeviceLifecycle::Revoked
            && is_same_device(revoked@, current@) && revoked@.transport_identity
            == current@.transport_identity,
{
    match current.binding().lifecycle {
        DeviceLifecycle::Enrolled => {
            let mut successor = current.clone();
            successor.binding.lifecycle = DeviceLifecycle::Revoked;
            Ok(successor)
        },
        DeviceLifecycle::Revoked => Err(
            DurableRegistryAuthorityError::Semantic(RegistryError::DeviceRevoked),
        ),
        DeviceLifecycle::PendingEnrollment => Err(DurableRegistryAuthorityError::InvalidAuthority),
    }
}

/// Both records are of one device: everything but lifecycle and transport identity agrees.
pub open spec fn is_same_device(left: DeviceView, right: DeviceView) -> bool {
    &&& left.binding.workspace == right.binding.workspace
    &&& left.binding.user == right.binding.user
    &&& left.binding.device == right.binding.device
    &&& left.binding.public_identity == right.binding.public_identity
}

pub fn same_device_immutable_tuple(left: &RegisteredDevice, right: &RegisteredDevice) -> (same: bool)
    ensures
        same == is_same_device(left@, right@),
        same <==> left@.binding.workspace == right@.binding.workspace && left@.binding.user
            == right@.binding.user && left@.binding.device == right@.binding.device
            && left@.binding.public_identity == right@.binding.public_identity,
{
    let left = left.binding();
    let right = right.binding();
    left.workspace_id == right.workspace_id && left.user_id == right.user_id && left.device_id
        == right.device_id && left.public_identity == right.public_identity
}

/// Applies one change to a membership.
pub fn membership_successor(current: &WorkspaceMembership, change: MembershipChange) -> (successor: Result<
    WorkspaceMembership,
    DurableRegistryAuthorityError,
>)
    ensures
        membership_view(successor) == changed_membership(current@, change),
{
    match change {
        MembershipChange::Suspend => suspend_membership_successor(current),
        MembershipChange::Remove => remove_membership_successor(current),
    }
}

/// Applies one change to a device.
pub fn device_successor(current: &RegisteredDevice, change: DeviceChange) -> (successor: Result<
    RegisteredDevice,
    DurableRegistryAuthorityError,
>)
    ensures
        device_view(successor) == changed_device(current@, change),
{
    match change {
        DeviceChange::BindTransport(identity) => bind_transport_successor(current, identity),
        DeviceChange::RotateTransport(expected, replacement) => rotate_transport_successor(
            current,
            expected,
            replacement,
        ),
        DeviceChange::Revoke => revoke_device_successor(current),
    }
}

/// Removal is terminal: a removed membership has no successor.
pub proof fn removed_membership_is_terminal(current: MembershipView, change: MembershipChange)
    requires
        current.lifecycle == MembershipLifecycle::Removed,
    ensures
        changed_membership(current, change) == Err::<MembershipView, DurableRegistryAuthorityError>(
            DurableRegistryAuthorityError::Semantic(RegistryError::MembershipRemoved),
        ),
{
}

/// No change of a membership touches whose it is, where it is, or its role.
pub proof fn membership_change_keeps_identity(current: MembershipView, change: MembershipChange)
    ensures
        changed_membership(current, change) matches Ok(successor) ==> successor.workspace
            == current.workspace && successor.user == current.user && successor.role
            == current.role,
{
}

/// Revocation is terminal: a revoked device has no successor.
pub proof fn revoked_device_is_terminal(current: DeviceView, change: DeviceChange)
    requires
        current.binding.lifecycle == DeviceLifecycle::Revoked,
    ensures
        changed_device(current, change) is Err,
{
}

/// No change of a device touches the identity that it was registered with, and revoking one keeps
/// its transport identity too.
pub proof fn device_change_keeps_identity(current: DeviceView, change: DeviceChange)
    ensures
        changed_device(current, change) matches Ok(successor) ==> is_same_device(successor, current)
            && (change is Revoke ==> successor.transport_identity == current.transport_identity)
            && (!(change is Revoke) ==> successor.binding == current.binding),
{
}

} // verus!
