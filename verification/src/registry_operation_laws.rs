//! What each operation of the registry is for: what is stored before and after it, and what the
//! next one then finds. The database is one whose statements all succeed.
use vstd::prelude::*;
use vstd::utf8::encode_utf8;

use crate::domain::{all_zero, BindingView, DeviceLifecycle, TransportIdentity};
use crate::durable_registry_authority::DurableRegistryAuthorityError;
use crate::durable_registry_codec::{encoded_device, encoded_membership, is_storable};
use crate::durable_registry_mutation_semantics::{DeviceChange, MembershipChange};
use crate::durable_registry_sqlite_store::{
    add_membership_plan, bootstrap_plan, current_transport_plan, lemma_decoded_device,
    lemma_decoded_membership, load_device_plan, load_membership_plan, register_device_plan,
    update_device_plan, update_membership_plan, validate_session_plan,
    OwnerPcLocalAuthorityBootstrapOutcome,
};
use crate::registry::{
    DeviceView, MembershipLifecycle, MembershipView, PrincipalView, RegistryError, SessionView,
    WorkspaceRole,
};
use crate::registry_laws::{Database, Tables};
use crate::working_registry::{
    addition_is_decided_by_the_record, bootstrap_is_decided_by_the_records,
    current_transport_is_read, device_change_is_decided_by_the_record, device_is_read,
    ends_working, membership_change_is_decided_by_the_record, membership_is_read,
    registration_is_decided_by_the_records, session_is_decided_by_the_records,
};

verus! {

/// No record changed but at most the membership of one workspace and user.
pub open spec fn changed_one_membership(
    before: Tables,
    workspace: Seq<char>,
    user: Seq<char>,
    after: Tables,
) -> bool {
    &&& forall|device: Seq<char>| #[trigger]
        after.device_record(device) == before.device_record(device)
    &&& forall|other: Seq<char>, person: Seq<char>|
        (other, person) != (workspace, user) ==> #[trigger] after.membership_record(other, person)
            == before.membership_record(other, person)
}

/// No record changed but at most that of one device.
pub open spec fn changed_one_device(before: Tables, device: Seq<char>, after: Tables) -> bool {
    &&& forall|other: Seq<char>|
        other != device ==> #[trigger] after.device_record(other) == before.device_record(other)
    &&& forall|workspace: Seq<char>, user: Seq<char>| #[trigger]
        after.membership_record(workspace, user) == before.membership_record(workspace, user)
}

/// A semantic refusal.
pub open spec fn refused(error: RegistryError) -> Result<(), DurableRegistryAuthorityError> {
    Err(DurableRegistryAuthorityError::Semantic(error))
}

/// Why a membership that cannot be read is not there.
pub open spec fn membership_missing(tables: Tables, workspace: Seq<char>, user: Seq<char>) -> Result<
    (),
    DurableRegistryAuthorityError,
> {
    if tables.membership_record(workspace, user) is None {
        refused(RegistryError::MembershipUnknown)
    } else {
        Err(DurableRegistryAuthorityError::InvalidAuthority)
    }
}

/// Why a device that cannot be read is not there.
pub open spec fn device_missing(tables: Tables, device: Seq<char>) -> Result<
    (),
    DurableRegistryAuthorityError,
> {
    if tables.device_record(device) is None {
        refused(RegistryError::DeviceUnknown)
    } else {
        Err(DurableRegistryAuthorityError::InvalidAuthority)
    }
}

proof fn lemma_stored_membership(tables: Tables, workspace: Seq<char>, user: Seq<char>)
    ensures
        tables.membership(workspace, user) matches Some(stored) ==> {
            &&& stored.workspace == workspace
            &&& stored.user == user
            &&& encode_utf8(workspace).len() <= 65_535
            &&& encode_utf8(user).len() <= 65_535
        },
{
}

proof fn lemma_stored_device(tables: Tables, device: Seq<char>)
    ensures
        tables.device(device) matches Some(stored) ==> {
            &&& stored.binding.device == device
            &&& is_storable(stored)
            &&& encoded_device(stored) is Some
        },
{
}

proof fn lemma_membership_is_stored(tables: Tables, membership: MembershipView)
    requires
        encoded_membership(membership) is Some,
    ensures
        ({
            let after = tables.with_membership(
                membership.workspace,
                membership.user,
                encoded_membership(membership)->0,
            );
            &&& after.membership(membership.workspace, membership.user) == Some(membership)
            &&& changed_one_membership(tables, membership.workspace, membership.user, after)
        }),
{
    lemma_decoded_membership(membership, encoded_membership(membership)->0);
}

proof fn lemma_device_is_stored(tables: Tables, device: DeviceView)
    requires
        is_storable(device),
        encoded_device(device) is Some,
    ensures
        ({
            let name = device.binding.device;
            let after = tables.with_device(name, encoded_device(device)->0);
            &&& after.device(name) == Some(device)
            &&& changed_one_device(tables, name, after)
        }),
{
    lemma_decoded_device(device, encoded_device(device)->0);
}

/// Removing takes an active or suspended membership to a removed one, and keeps everything else of
/// it. A removed one is refused. No other record changes.
pub proof fn removal_removes(
    workspace: Seq<char>,
    user: Seq<char>,
    database: Database,
    result: Result<(), DurableRegistryAuthorityError>,
    after: Database,
)
    requires
        ends_working(
            update_membership_plan(workspace, user, MembershipChange::Remove),
            database,
            result,
            after,
        ),
    ensures
        match database.committed.membership(workspace, user) {
            Some(stored) => if stored.lifecycle == MembershipLifecycle::Removed {
                &&& result == refused(RegistryError::MembershipRemoved)
                &&& after.committed == database.committed
            } else {
                &&& result is Ok
                &&& after.committed.membership(workspace, user) matches Some(removed)
                &&& removed.lifecycle == MembershipLifecycle::Removed
                &&& removed.workspace == stored.workspace
                &&& removed.user == stored.user
                &&& removed.role == stored.role
            },
            None => {
                &&& result == membership_missing(database.committed, workspace, user)
                &&& after.committed == database.committed
            },
        },
        changed_one_membership(database.committed, workspace, user, after.committed),
{
    membership_change_is_decided_by_the_record(
        workspace,
        user,
        MembershipChange::Remove,
        database,
        result,
        after,
    );
    lemma_stored_membership(database.committed, workspace, user);
    if let Some(stored) = database.committed.membership(workspace, user) {
        lemma_membership_is_stored(
            database.committed,
            MembershipView { lifecycle: MembershipLifecycle::Removed, ..stored },
        );
    }
}

/// Suspending takes an active membership to a suspended one, and keeps everything else of it. Every
/// other membership is refused. No other record changes.
pub proof fn suspension_suspends(
    workspace: Seq<char>,
    user: Seq<char>,
    database: Database,
    result: Result<(), DurableRegistryAuthorityError>,
    after: Database,
)
    requires
        ends_working(
            update_membership_plan(workspace, user, MembershipChange::Suspend),
            database,
            result,
            after,
        ),
    ensures
        match database.committed.membership(workspace, user) {
            Some(stored) => match stored.lifecycle {
                MembershipLifecycle::Active => {
                    &&& result is Ok
                    &&& after.committed.membership(workspace, user) matches Some(suspended)
                    &&& suspended.lifecycle == MembershipLifecycle::Suspended
                    &&& suspended.workspace == stored.workspace
                    &&& suspended.user == stored.user
                    &&& suspended.role == stored.role
                },
                MembershipLifecycle::Suspended => {
                    &&& result == refused(RegistryError::InvalidMembershipTransition)
                    &&& after.committed == database.committed
                },
                MembershipLifecycle::Removed => {
                    &&& result == refused(RegistryError::MembershipRemoved)
                    &&& after.committed == database.committed
                },
            },
            None => {
                &&& result == membership_missing(database.committed, workspace, user)
                &&& after.committed == database.committed
            },
        },
        changed_one_membership(database.committed, workspace, user, after.committed),
{
    membership_change_is_decided_by_the_record(
        workspace,
        user,
        MembershipChange::Suspend,
        database,
        result,
        after,
    );
    lemma_stored_membership(database.committed, workspace, user);
    if let Some(stored) = database.committed.membership(workspace, user) {
        lemma_membership_is_stored(
            database.committed,
            MembershipView { lifecycle: MembershipLifecycle::Suspended, ..stored },
        );
    }
}

/// Adding a membership stores exactly it where nothing was stored, as long as both identifiers have
/// at most 65535 bytes. What is there already is refused. No other record changes.
pub proof fn addition_stores(
    membership: MembershipView,
    database: Database,
    result: Result<(), DurableRegistryAuthorityError>,
    after: Database,
)
    requires
        ends_working(add_membership_plan(membership), database, result, after),
    ensures
        if database.committed.membership(membership.workspace, membership.user) is Some {
            &&& result == refused(RegistryError::MembershipAlreadyExists)
            &&& after.committed == database.committed
        } else if database.committed.membership_record(membership.workspace, membership.user) is None
            && encode_utf8(membership.workspace).len() <= 65_535 && encode_utf8(
            membership.user,
        ).len() <= 65_535 {
            &&& result is Ok
            &&& after.committed.membership(membership.workspace, membership.user) == Some(
                membership,
            )
        } else {
            &&& result == Err::<(), _>(DurableRegistryAuthorityError::InvalidAuthority)
            &&& after.committed == database.committed
        },
        changed_one_membership(
            database.committed,
            membership.workspace,
            membership.user,
            after.committed,
        ),
{
    addition_is_decided_by_the_record(membership, database, result, after);
    if encoded_membership(membership) is Some {
        lemma_membership_is_stored(database.committed, membership);
    }
}

/// Binding gives an enrolled device without a transport identity exactly this one, and keeps its
/// binding. Every other device is refused. No other record changes.
pub proof fn binding_binds(
    device: Seq<char>,
    identity: TransportIdentity,
    database: Database,
    result: Result<(), DurableRegistryAuthorityError>,
    after: Database,
)
    requires
        ends_working(
            update_device_plan(device, DeviceChange::BindTransport(identity)),
            database,
            result,
            after,
        ),
        !all_zero(identity@),
    ensures
        match database.committed.device(device) {
            Some(stored) => if stored.binding.lifecycle == DeviceLifecycle::Enrolled
                && stored.transport_identity is None {
                &&& result is Ok
                &&& after.committed.device(device) matches Some(bound)
                &&& bound.binding == stored.binding
                &&& bound.transport_identity == Some(identity)
            } else {
                &&& result == (match stored.binding.lifecycle {
                    DeviceLifecycle::Enrolled => refused(
                        RegistryError::TransportIdentityAlreadyBound,
                    ),
                    DeviceLifecycle::Revoked => refused(RegistryError::DeviceRevoked),
                    DeviceLifecycle::PendingEnrollment => Err(
                        DurableRegistryAuthorityError::InvalidAuthority,
                    ),
                })
                &&& after.committed == database.committed
            },
            None => {
                &&& result == device_missing(database.committed, device)
                &&& after.committed == database.committed
            },
        },
        changed_one_device(database.committed, device, after.committed),
{
    device_change_is_decided_by_the_record(
        device,
        DeviceChange::BindTransport(identity),
        database,
        result,
        after,
    );
    lemma_stored_device(database.committed, device);
    if let Some(stored) = database.committed.device(device) {
        lemma_device_is_stored(
            database.committed,
            DeviceView { transport_identity: Some(identity), ..stored },
        );
    }
}

/// Rotating replaces the transport identity of an enrolled device, when the expected one is bound
/// and the replacement differs, and keeps its binding. Everything else is refused, by the first
/// reason in this order. No other record changes.
pub proof fn rotation_replaces(
    device: Seq<char>,
    expected: TransportIdentity,
    replacement: TransportIdentity,
    database: Database,
    result: Result<(), DurableRegistryAuthorityError>,
    after: Database,
)
    requires
        ends_working(
            update_device_plan(device, DeviceChange::RotateTransport(expected, replacement)),
            database,
            result,
            after,
        ),
        !all_zero(replacement@),
    ensures
        match database.committed.device(device) {
            Some(stored) => if expected != replacement && stored.binding.lifecycle
                == DeviceLifecycle::Enrolled && stored.transport_identity == Some(expected) {
                &&& result is Ok
                &&& after.committed.device(device) matches Some(rotated)
                &&& rotated.binding == stored.binding
                &&& rotated.transport_identity == Some(replacement)
            } else {
                &&& result == (if expected == replacement {
                    refused(RegistryError::TransportIdentityUnchanged)
                } else if stored.binding.lifecycle == DeviceLifecycle::Revoked {
                    refused(RegistryError::DeviceRevoked)
                } else if stored.binding.lifecycle == DeviceLifecycle::PendingEnrollment {
                    Err(DurableRegistryAuthorityError::InvalidAuthority)
                } else if stored.transport_identity is None {
                    refused(RegistryError::TransportIdentityMissing)
                } else {
                    refused(RegistryError::TransportIdentityMismatch)
                })
                &&& after.committed == database.committed
            },
            None => {
                &&& result == device_missing(database.committed, device)
                &&& after.committed == database.committed
            },
        },
        changed_one_device(database.committed, device, after.committed),
{
    device_change_is_decided_by_the_record(
        device,
        DeviceChange::RotateTransport(expected, replacement),
        database,
        result,
        after,
    );
    lemma_stored_device(database.committed, device);
    if let Some(stored) = database.committed.device(device) {
        lemma_device_is_stored(
            database.committed,
            DeviceView { transport_identity: Some(replacement), ..stored },
        );
    }
}

/// Revoking takes an enrolled device to a revoked one, and keeps whose it is, its key and its
/// transport identity. Every other device is refused. No other record changes.
pub proof fn revocation_revokes(
    device: Seq<char>,
    database: Database,
    result: Result<(), DurableRegistryAuthorityError>,
    after: Database,
)
    requires
        ends_working(update_device_plan(device, DeviceChange::Revoke), database, result, after),
    ensures
        match database.committed.device(device) {
            Some(stored) => match stored.binding.lifecycle {
                DeviceLifecycle::Enrolled => {
                    &&& result is Ok
                    &&& after.committed.device(device) matches Some(revoked)
                    &&& revoked.binding.lifecycle == DeviceLifecycle::Revoked
                    &&& revoked.binding.workspace == stored.binding.workspace
                    &&& revoked.binding.user == stored.binding.user
                    &&& revoked.binding.device == stored.binding.device
                    &&& revoked.binding.public_identity == stored.binding.public_identity
                    &&& revoked.transport_identity == stored.transport_identity
                },
                DeviceLifecycle::Revoked => {
                    &&& result == refused(RegistryError::DeviceRevoked)
                    &&& after.committed == database.committed
                },
                DeviceLifecycle::PendingEnrollment => {
                    &&& result == Err::<(), _>(DurableRegistryAuthorityError::InvalidAuthority)
                    &&& after.committed == database.committed
                },
            },
            None => {
                &&& result == device_missing(database.committed, device)
                &&& after.committed == database.committed
            },
        },
        changed_one_device(database.committed, device, after.committed),
{
    device_change_is_decided_by_the_record(device, DeviceChange::Revoke, database, result, after);
    lemma_stored_device(database.committed, device);
    if let Some(stored) = database.committed.device(device) {
        lemma_device_is_stored(
            database.committed,
            DeviceView {
                binding: BindingView { lifecycle: DeviceLifecycle::Revoked, ..stored.binding },
                ..stored
            },
        );
    }
}

/// What the types guarantee of a binding: its identifiers and its key are not empty.
pub open spec fn is_named(binding: BindingView) -> bool {
    &&& binding.workspace.len() > 0
    &&& binding.user.len() > 0
    &&& binding.public_identity.bytes.len() > 0
}

/// No identifier and no key of a binding has more than 65535 bytes.
pub open spec fn is_short(binding: BindingView) -> bool {
    &&& encode_utf8(binding.workspace).len() <= 65_535
    &&& encode_utf8(binding.user).len() <= 65_535
    &&& encode_utf8(binding.device).len() <= 65_535
    &&& binding.public_identity.bytes.len() <= 65_535
}

/// Registering stores an enrolled device without a transport identity, exactly under an active
/// membership and where nothing was stored. Everything else is refused, by the first reason in this
/// order. No other record changes.
pub proof fn registration_stores(
    binding: BindingView,
    database: Database,
    result: Result<(), DurableRegistryAuthorityError>,
    after: Database,
)
    requires
        ends_working(register_device_plan(binding), database, result, after),
        is_named(binding),
    ensures
        result == (if binding.lifecycle != DeviceLifecycle::Enrolled {
            refused(RegistryError::DeviceNotEnrolled)
        } else if database.committed.membership(binding.workspace, binding.user) is None {
            membership_missing(database.committed, binding.workspace, binding.user)
        } else if database.committed.membership(binding.workspace, binding.user)->0.lifecycle
            != MembershipLifecycle::Active {
            refused(RegistryError::MembershipNotActive)
        } else if database.committed.device(binding.device) is Some {
            refused(RegistryError::DeviceAlreadyExists)
        } else if database.committed.device_record(binding.device) is Some || !is_short(binding) {
            Err(DurableRegistryAuthorityError::InvalidAuthority)
        } else {
            Ok(())
        }),
        if result is Ok {
            &&& after.committed.device(binding.device) matches Some(registered)
            &&& registered.binding == binding
            &&& registered.transport_identity is None
        } else {
            after.committed == database.committed
        },
        changed_one_device(database.committed, binding.device, after.committed),
{
    registration_is_decided_by_the_records(binding, database, result, after);
    let registered = DeviceView { binding, transport_identity: None };
    if encoded_device(registered) is Some {
        lemma_device_is_stored(database.committed, registered);
    }
}

/// A session is validated exactly when its member is active and its device is enrolled, is bound to
/// exactly what the session claims, and has the presented transport identity. The principal is then
/// the session with the member's role. Nothing committed changes.
pub proof fn session_is_validated_exactly_when_current(
    session: SessionView,
    presented: TransportIdentity,
    database: Database,
    result: Result<PrincipalView, DurableRegistryAuthorityError>,
    after: Database,
)
    requires
        ends_working(validate_session_plan(session, presented), database, result, after),
    ensures
        after.committed == database.committed,
        result is Ok <==> {
            &&& database.committed.membership(session.workspace, session.user) matches Some(member)
            &&& member.lifecycle == MembershipLifecycle::Active
            &&& database.committed.device(session.device) matches Some(device)
            &&& device.binding.lifecycle == DeviceLifecycle::Enrolled
            &&& device.binding.workspace == session.workspace
            &&& device.binding.user == session.user
            &&& device.binding.public_identity == session.public_identity
            &&& device.transport_identity == Some(presented)
        },
        result matches Ok(principal) ==> principal.session == session && principal.role
            == database.committed.membership(session.workspace, session.user)->0.role,
        database.committed.membership(session.workspace, session.user) matches Some(member)
            && member.lifecycle != MembershipLifecycle::Active ==> result == Err::<
            PrincipalView,
            _,
        >(DurableRegistryAuthorityError::Semantic(RegistryError::MembershipNotActive)),
        database.committed.membership_record(session.workspace, session.user) is None ==> result
            == Err::<PrincipalView, _>(
            DurableRegistryAuthorityError::Semantic(RegistryError::MembershipUnknown),
        ),
        database.committed.membership(session.workspace, session.user) matches Some(member)
            && member.lifecycle == MembershipLifecycle::Active ==> {
            &&& database.committed.device_record(session.device) is None ==> result == Err::<
                PrincipalView,
                _,
            >(DurableRegistryAuthorityError::Semantic(RegistryError::DeviceUnknown))
            &&& database.committed.device(session.device) matches Some(device) ==> {
                &&& device.binding.lifecycle == DeviceLifecycle::Revoked ==> result == Err::<
                    PrincipalView,
                    _,
                >(DurableRegistryAuthorityError::Semantic(RegistryError::DeviceRevoked))
                &&& device.binding.lifecycle == DeviceLifecycle::Enrolled && (
                device.binding.workspace != session.workspace || device.binding.user != session.user
                    || device.binding.public_identity != session.public_identity) ==> result
                    == Err::<PrincipalView, _>(
                    DurableRegistryAuthorityError::Semantic(RegistryError::SessionBindingMismatch),
                )
                &&& device.binding.lifecycle == DeviceLifecycle::Enrolled
                    && device.binding.workspace == session.workspace && device.binding.user
                    == session.user && device.binding.public_identity == session.public_identity
                    ==> {
                    &&& device.transport_identity is None ==> result == Err::<PrincipalView, _>(
                        DurableRegistryAuthorityError::Semantic(
                            RegistryError::TransportIdentityMissing,
                        ),
                    )
                    &&& device.transport_identity is Some && device.transport_identity != Some(
                        presented,
                    ) ==> result == Err::<PrincipalView, _>(
                        DurableRegistryAuthorityError::Semantic(
                            RegistryError::TransportIdentityMismatch,
                        ),
                    )
                }
            }
        },
{
    session_is_decided_by_the_records(session, presented, database, result, after);
    lemma_stored_device(database.committed, session.device);
}

/// Bootstrapping an enrolled device where neither record is stored stores both: the user as the
/// active owner of the workspace, and the device with its transport identity. Where exactly these
/// are stored it is current already, every other valid state is in conflict, and in both cases
/// nothing changes.
pub proof fn bootstrap_stores_the_owner(
    binding: BindingView,
    identity: TransportIdentity,
    database: Database,
    result: Result<OwnerPcLocalAuthorityBootstrapOutcome, DurableRegistryAuthorityError>,
    after: Database,
)
    requires
        ends_working(bootstrap_plan(binding, identity), database, result, after),
        is_named(binding),
        is_short(binding),
        !all_zero(identity@),
    ensures
        result is Ok ==> {
            &&& binding.lifecycle == DeviceLifecycle::Enrolled
            &&& after.committed.membership(binding.workspace, binding.user) matches Some(owner)
            &&& owner.workspace == binding.workspace
            &&& owner.user == binding.user
            &&& owner.role == WorkspaceRole::Owner
            &&& owner.lifecycle == MembershipLifecycle::Active
            &&& after.committed.device(binding.device) matches Some(device)
            &&& device.binding == binding
            &&& device.transport_identity == Some(identity)
        },
        binding.lifecycle != DeviceLifecycle::Enrolled ==> result == Err::<
            OwnerPcLocalAuthorityBootstrapOutcome,
            _,
        >(DurableRegistryAuthorityError::Semantic(RegistryError::DeviceNotEnrolled)),
        binding.lifecycle == DeviceLifecycle::Enrolled && database.committed.membership_record(
            binding.workspace,
            binding.user,
        ) is None && database.committed.device_record(binding.device) is None ==> result == Ok::<
            _,
            DurableRegistryAuthorityError,
        >(OwnerPcLocalAuthorityBootstrapOutcome::Initialized),
        binding.lifecycle == DeviceLifecycle::Enrolled && (database.committed.membership(
            binding.workspace,
            binding.user,
        ) matches Some(owner) && owner.role == WorkspaceRole::Owner && owner.lifecycle
            == MembershipLifecycle::Active) && (database.committed.device(binding.device) matches Some(
            device,
        ) && device.binding == binding && device.transport_identity == Some(identity)) ==> result
            == Ok::<_, DurableRegistryAuthorityError>(
            OwnerPcLocalAuthorityBootstrapOutcome::AlreadyCurrent,
        ),
        binding.lifecycle == DeviceLifecycle::Enrolled && (database.committed.membership(
            binding.workspace,
            binding.user,
        ) is Some || database.committed.membership_record(binding.workspace, binding.user) is None)
            && (database.committed.device(binding.device) is Some
            || database.committed.device_record(binding.device) is None) ==> result is Ok || result
            == Err::<OwnerPcLocalAuthorityBootstrapOutcome, _>(
            DurableRegistryAuthorityError::CurrentnessConflict,
        ),
        result != Ok::<_, DurableRegistryAuthorityError>(
            OwnerPcLocalAuthorityBootstrapOutcome::Initialized,
        ) ==> after.committed == database.committed,
        forall|other: Seq<char>|
            other != binding.device ==> #[trigger] after.committed.device_record(other)
                == database.committed.device_record(other),
        forall|workspace: Seq<char>, user: Seq<char>|
            (workspace, user) != (binding.workspace, binding.user)
                ==> #[trigger] after.committed.membership_record(workspace, user)
                == database.committed.membership_record(workspace, user),
{
    bootstrap_is_decided_by_the_records(binding, identity, database, result, after);
    lemma_stored_membership(database.committed, binding.workspace, binding.user);
    let owner = MembershipView {
        workspace: binding.workspace,
        user: binding.user,
        role: WorkspaceRole::Owner,
        lifecycle: MembershipLifecycle::Active,
    };
    let device = DeviceView { binding, transport_identity: Some(identity) };
    lemma_decoded_membership(owner, encoded_membership(owner)->0);
    lemma_decoded_device(device, encoded_device(device)->0);
}

/// A member who was suspended or removed has no valid session any more.
pub proof fn former_member_has_no_session(
    workspace: Seq<char>,
    user: Seq<char>,
    change: MembershipChange,
    session: SessionView,
    presented: TransportIdentity,
    database: Database,
    middle: Database,
    result: Result<PrincipalView, DurableRegistryAuthorityError>,
    after: Database,
)
    requires
        ends_working(update_membership_plan(workspace, user, change), database, Ok(()), middle),
        ends_working(validate_session_plan(session, presented), middle, result, after),
        session.workspace == workspace,
        session.user == user,
    ensures
        result == Err::<PrincipalView, _>(
            DurableRegistryAuthorityError::Semantic(RegistryError::MembershipNotActive),
        ),
{
    match change {
        MembershipChange::Remove => removal_removes(workspace, user, database, Ok(()), middle),
        MembershipChange::Suspend => suspension_suspends(workspace, user, database, Ok(()), middle),
    }
    session_is_validated_exactly_when_current(session, presented, middle, result, after);
}

/// A device that was revoked has no current transport identity and no valid session any more.
pub proof fn revoked_device_is_locked_out(
    device: Seq<char>,
    session: SessionView,
    presented: TransportIdentity,
    database: Database,
    middle: Database,
    current: Result<TransportIdentity, DurableRegistryAuthorityError>,
    reading: Database,
    principal: Result<PrincipalView, DurableRegistryAuthorityError>,
    after: Database,
)
    requires
        ends_working(update_device_plan(device, DeviceChange::Revoke), database, Ok(()), middle),
        ends_working(current_transport_plan(device), Database { open: None, ..middle }, current, reading),
        ends_working(validate_session_plan(session, presented), middle, principal, after),
        session.device == device,
    ensures
        current == Err::<TransportIdentity, _>(
            DurableRegistryAuthorityError::Semantic(RegistryError::DeviceRevoked),
        ),
        principal is Err,
{
    revocation_revokes(device, database, Ok(()), middle);
    current_transport_is_read(device, Database { open: None, ..middle }, current, reading);
    session_is_validated_exactly_when_current(session, presented, middle, principal, after);
}

/// A transport identity that was bound is the current one, and so is one that replaced another.
pub proof fn given_identity_is_current(
    device: Seq<char>,
    change: DeviceChange,
    identity: TransportIdentity,
    database: Database,
    middle: Database,
    current: Result<TransportIdentity, DurableRegistryAuthorityError>,
    after: Database,
)
    requires
        ends_working(update_device_plan(device, change), database, Ok(()), middle),
        ends_working(current_transport_plan(device), Database { open: None, ..middle }, current, after),
        match change {
            DeviceChange::BindTransport(bound) => bound == identity,
            DeviceChange::RotateTransport(_, replacement) => replacement == identity,
            DeviceChange::Revoke => false,
        },
        !all_zero(identity@),
    ensures
        current == Ok::<_, DurableRegistryAuthorityError>(identity),
{
    match change {
        DeviceChange::BindTransport(bound) => binding_binds(
            device,
            bound,
            database,
            Ok(()),
            middle,
        ),
        DeviceChange::RotateTransport(expected, replacement) => rotation_replaces(
            device,
            expected,
            replacement,
            database,
            Ok(()),
            middle,
        ),
        DeviceChange::Revoke => {},
    }
    current_transport_is_read(device, Database { open: None, ..middle }, current, after);
}

/// A membership that was added is read back, active and with its role.
pub proof fn added_membership_is_read_back(
    membership: MembershipView,
    database: Database,
    middle: Database,
    read: Result<Option<MembershipView>, DurableRegistryAuthorityError>,
    after: Database,
)
    requires
        ends_working(add_membership_plan(membership), database, Ok(()), middle),
        ends_working(
            load_membership_plan(membership.workspace, membership.user),
            Database { open: None, ..middle },
            read,
            after,
        ),
    ensures
        read == Ok::<_, DurableRegistryAuthorityError>(Some(membership)),
{
    addition_stores(membership, database, Ok(()), middle);
    membership_is_read(
        membership.workspace,
        membership.user,
        Database { open: None, ..middle },
        read,
        after,
    );
}

/// A device that was registered is read back, with its binding and without a transport identity.
pub proof fn registered_device_is_read_back(
    binding: BindingView,
    database: Database,
    middle: Database,
    read: Result<Option<DeviceView>, DurableRegistryAuthorityError>,
    after: Database,
)
    requires
        ends_working(register_device_plan(binding), database, Ok(()), middle),
        ends_working(
            load_device_plan(binding.device),
            Database { open: None, ..middle },
            read,
            after,
        ),
        is_named(binding),
    ensures
        read matches Ok(Some(registered)) && registered.binding == binding
            && registered.transport_identity is None,
{
    registration_stores(binding, database, Ok(()), middle);
    device_is_read(binding.device, Database { open: None, ..middle }, read, after);
}

} // verus!
