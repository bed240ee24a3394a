//! What the registry's records allow: the rules by which reads are judged, apart from where the
//! records are kept.
use vstd::prelude::*;

use crate::domain::{
    DeviceId, DeviceLifecycle, PublicIdentityMaterial, TransportIdentity, UserId, WorkspaceId,
};
use crate::durable_registry_authority::DurableRegistryAuthorityError;
use crate::registry::{
    DeviceView, MembershipLifecycle, MembershipView, PrincipalView, RegisteredDevice, RegistryError,
    RegistryValidatedPrincipal, SessionView, WorkspaceMembership,
};

verus! {

/// Only an enrolled device passes.
pub open spec fn enrolled_verdict(device: DeviceView) -> Result<(), DurableRegistryAuthorityError> {
    match device.binding.lifecycle {
        DeviceLifecycle::Enrolled => Ok(()),
        DeviceLifecycle::Revoked => Err(
            DurableRegistryAuthorityError::Semantic(RegistryError::DeviceRevoked),
        ),
        DeviceLifecycle::PendingEnrollment => Err(DurableRegistryAuthorityError::InvalidAuthority),
    }
}

pub fn ensure_enrolled_device(device: &RegisteredDevice) -> (verdict: Result<
    (),
    DurableRegistryAuthorityError,
>)
    ensures
        verdict == enrolled_verdict(device@),
        verdict is Ok <==> device@.binding.lifecycle == DeviceLifecycle::Enrolled,
{
    match device.binding().lifecycle {
        DeviceLifecycle::Enrolled => Ok(()),
        DeviceLifecycle::Revoked => Err(
            DurableRegistryAuthorityError::Semantic(RegistryError::DeviceRevoked),
        ),
        DeviceLifecycle::PendingEnrollment => Err(DurableRegistryAuthorityError::InvalidAuthority),
    }
}

/// The transport identity of an enrolled device that has one.
pub open spec fn current_transport(device: DeviceView) -> Result<
    TransportIdentity,
    DurableRegistryAuthorityError,
> {
    match enrolled_verdict(device) {
        Err(error) => Err(error),
        Ok(_) => match device.transport_identity {
            Some(identity) => Ok(identity),
            None => Err(
                DurableRegistryAuthorityError::Semantic(RegistryError::TransportIdentityMissing),
            ),
        },
    }
}

pub fn current_transport_from_device(device: &RegisteredDevice) -> (identity: Result<
    TransportIdentity,
    DurableRegistryAuthorityError,
>)
    ensures
        identity == current_transport(device@),
        identity matches Ok(current) ==> device@.transport_identity == Some(current),
        identity is Ok <==> device@.binding.lifecycle == DeviceLifecycle::Enrolled
            && device@.transport_identity is Some,
{
    if let Err(error) = ensure_enrolled_device(device) {
        return Err(error);
    }
    match device.transport_identity() {
        Some(identity) => Ok(identity),
        None => Err(DurableRegistryAuthorityError::Semantic(RegistryError::TransportIdentityMissing)),
    }
}

/// The presented identity has to be the current one.
pub open spec fn presented_verdict(device: DeviceView, presented: TransportIdentity) -> Result<
    (),
    DurableRegistryAuthorityError,
> {
    match current_transport(device) {
        Err(error) => Err(error),
        Ok(current) => if current == presented {
            Ok(())
        } else {
            Err(DurableRegistryAuthorityError::Semantic(RegistryError::TransportIdentityMismatch))
        },
    }
}

pub fn validate_presented_transport_from_device(
    device: &RegisteredDevice,
    presented: TransportIdentity,
) -> (verdict: Result<(), DurableRegistryAuthorityError>)
    ensures
        verdict == presented_verdict(device@, presented),
        verdict is Ok <==> device@.binding.lifecycle == DeviceLifecycle::Enrolled
            && device@.transport_identity == Some(presented),
{
    let current = match current_transport_from_device(device) {
        Ok(current) => current,
        Err(error) => {
            return Err(error);
        },
    };
    if current != presented {
        return Err(
            DurableRegistryAuthorityError::Semantic(RegistryError::TransportIdentityMismatch),
        );
    }
    Ok(())
}

/// A session stands for a principal when its membership is active, its device is enrolled, and
/// the device's binding is exactly the session's.
pub open spec fn session_principal(
    session: SessionView,
    membership: MembershipView,
    device: DeviceView,
) -> Result<PrincipalView, DurableRegistryAuthorityError> {
    if membership.lifecycle != MembershipLifecycle::Active {
        Err(DurableRegistryAuthorityError::Semantic(RegistryError::MembershipNotActive))
    } else {
        match enrolled_verdict(device) {
            Err(error) => Err(error),
            Ok(_) => if device.binding.workspace == session.workspace && device.binding.user
                == session.user && device.binding.device == session.device
                && device.binding.public_identity == session.public_identity {
                Ok(PrincipalView { session, role: membership.role })
            } else {
                Err(DurableRegistryAuthorityError::Semantic(RegistryError::SessionBindingMismatch))
            },
        }
    }
}

/// The principal, or the error, as the rules see it.
pub open spec fn principal_view(
    principal: Result<RegistryValidatedPrincipal, DurableRegistryAuthorityError>,
) -> Result<PrincipalView, DurableRegistryAuthorityError> {
    match principal {
        Ok(value) => Ok(value@),
        Err(error) => Err(error),
    }
}

pub fn validate_session_records(
    workspace_id: &WorkspaceId,
    user_id: &UserId,
    device_id: &DeviceId,
    public_identity: &PublicIdentityMaterial,
    membership: &WorkspaceMembership,
    device: &RegisteredDevice,
) -> (principal: Result<RegistryValidatedPrincipal, DurableRegistryAuthorityError>)
    ensures
        principal_view(principal) == session_principal(
            SessionView {
                workspace: workspace_id@,
                user: user_id@,
                device: device_id@,
                public_identity: public_identity@,
            },
            membership@,
            device@,
        ),
        principal is Ok <==> {
            &&& membership@.lifecycle == MembershipLifecycle::Active
            &&& device@.binding.lifecycle == DeviceLifecycle::Enrolled
            &&& device@.binding.workspace == workspace_id@
            &&& device@.binding.user == user_id@
            &&& device@.binding.device == device_id@
            &&& device@.binding.public_identity == public_identity@
        },
        principal matches Ok(valid) ==> {
            &&& valid@.session.workspace == workspace_id@
            &&& valid@.session.user == user_id@
            &&& valid@.session.device == device_id@
            &&& valid@.session.public_identity == public_identity@
            &&& valid@.role == membership@.role
        },
{
    if membership.lifecycle() != MembershipLifecycle::Active {
        return Err(DurableRegistryAuthorityError::Semantic(RegistryError::MembershipNotActive));
    }
    if let Err(error) = ensure_enrolled_device(device) {
        return Err(error);
    }
    let binding = device.binding();
    if &binding.workspace_id != workspace_id || &binding.user_id != user_id || &binding.device_id
        != device_id || &binding.public_identity != public_identity {
        return Err(DurableRegistryAuthorityError::Semantic(RegistryError::SessionBindingMismatch));
    }
    Ok(
        RegistryValidatedPrincipal {
            workspace_id: workspace_id.clone(),
            user_id: user_id.clone(),
            device_id: device_id.clone(),
            public_identity: public_identity.clone(),
            role: membership.role(),
        },
    )
}

} // verus!
