//! What the registry's operations come to on a database whose statements all succeed.
//!
//! Each operation has exactly one outcome there, which the stored records decide, and it leaves
//! exactly one state of the tables.
use vstd::prelude::*;

use crate::domain::{BindingView, DeviceLifecycle, TransportIdentity};
use crate::durable_registry_authority::DurableRegistryAuthorityError;
use crate::durable_registry_codec::{encoded_device, encoded_membership, is_storable};
use crate::durable_registry_mutation_semantics::{
    changed_device, changed_membership, DeviceChange, MembershipChange,
};
use crate::durable_registry_sqlite_store::{
    add_membership_plan, begin_plan, bootstrap_plan, commit_plan, current_transport_plan, initialize_plan,
    insert_membership_plan, lemma_decoded_device, lemma_decoded_membership, load_device_plan,
    load_membership_plan, owner_device, owner_membership, register_device_plan,
    register_under_membership_plan, registry_perform, registry_row, registry_write,
    replace_device_plan, replace_membership_plan, update_device_plan, update_membership_plan,
    validate_session_device_plan, validate_session_plan, OwnerPcLocalAuthorityBootstrapOutcome,
    RegistryPlan, RegistryReply, RegistryRequest,
};
use crate::plan::{bind, can_end, lemma_can_end_bind, Plan};
use crate::registry::{
    DeviceView, MembershipLifecycle, MembershipView, PrincipalView, RegistryError, SessionView,
};
use crate::registry_laws::{database_answers, holds_owner, with_owner, Database, Tables};

verus! {

/// The database answers as it can, and no statement fails that can succeed.
pub open spec fn working_database_answers(
    before: Database,
    request: RegistryRequest<Seq<char>, Seq<u8>>,
    reply: RegistryReply<Seq<char>, Seq<u8>>,
    after: Database,
) -> bool {
    &&& database_answers(before, request, reply, after)
    &&& match request {
        RegistryRequest::BeginImmediate | RegistryRequest::BeginDeferred => reply is Completed,
        RegistryRequest::Commit => before.open is Some ==> reply is Completed,
        RegistryRequest::SelectMembership(_, _) | RegistryRequest::SelectDevice(_) => reply is Row,
        RegistryRequest::InsertMembership(workspace, user, _) => before.open is Some
            && before.visible().membership_record(workspace, user) is None ==> reply
            == RegistryReply::<Seq<char>, Seq<u8>>::Changed(1),
        RegistryRequest::InsertDevice(device, _) => before.open is Some
            && before.visible().device_record(device) is None ==> reply == RegistryReply::<
            Seq<char>,
            Seq<u8>,
        >::Changed(1),
        RegistryRequest::UpdateMembership(workspace, user, _) => before.open is Some
            && before.visible().membership_record(workspace, user) is Some ==> reply
            == RegistryReply::<Seq<char>, Seq<u8>>::Changed(1),
        RegistryRequest::UpdateDevice(device, _) => before.open is Some
            && before.visible().device_record(device) is Some ==> reply == RegistryReply::<
            Seq<char>,
            Seq<u8>,
        >::Changed(1),
        _ => true,
    }
}

pub open spec fn working_database_rules() -> spec_fn(
    Database,
    RegistryRequest<Seq<char>, Seq<u8>>,
    RegistryReply<Seq<char>, Seq<u8>>,
    Database,
) -> bool {
    |
        before: Database,
        request: RegistryRequest<Seq<char>, Seq<u8>>,
        reply: RegistryReply<Seq<char>, Seq<u8>>,
        after: Database,
    |
        working_database_answers(before, request, reply, after)
}

/// Whether an operation on a working database can end with a result and leave the database in a
/// state.
pub open spec fn ends_working<R>(
    plan: RegistryPlan<R>,
    database: Database,
    result: R,
    after: Database,
) -> bool {
    can_end(plan, working_database_rules(), database, result, after)
}

broadcast proof fn lemma_finish<R>(value: R, database: Database, result: R, after: Database)
    requires
        #[trigger] ends_working(Plan::Finish(value), database, result, after),
    ensures
        value == result,
        database == after,
{
}

broadcast proof fn lemma_bind<R, S>(
    plan: RegistryPlan<R>,
    next: spec_fn(R) -> RegistryPlan<S>,
    database: Database,
    result: S,
    after: Database,
)
    requires
        #[trigger] ends_working(bind(plan, next), database, result, after),
    ensures
        exists|value: R, middle: Database| #[trigger]
            ends_working(plan, database, value, middle) && ends_working(
                next(value),
                middle,
                result,
                after,
            ),
{
    lemma_can_end_bind(plan, next, working_database_rules(), database, result, after);
    let (value, middle) = choose|value: R, middle: Database| #[trigger]
        can_end(plan, working_database_rules(), database, value, middle) && can_end(
            next(value),
            working_database_rules(),
            middle,
            result,
            after,
        );
    assert(ends_working(plan, database, value, middle));
}

broadcast proof fn lemma_perform(
    request: RegistryRequest<Seq<char>, Seq<u8>>,
    database: Database,
    done: bool,
    after: Database,
)
    requires
        #[trigger] ends_working(registry_perform(request), database, done, after),
    ensures
        exists|reply: RegistryReply<Seq<char>, Seq<u8>>| #[trigger]
            working_database_answers(database, request, reply, after) && done == (reply
                is Completed),
{
    reveal_with_fuel(can_end, 2);
    let rules = working_database_rules();
    let (reply, next) = choose|reply: RegistryReply<Seq<char>, Seq<u8>>, next: Database| #[trigger]
        rules(database, request, reply, next) && can_end(
            Plan::Finish(reply is Completed),
            rules,
            next,
            done,
            after,
        );
    assert(working_database_answers(database, request, reply, after));
}

broadcast proof fn lemma_row(
    request: RegistryRequest<Seq<char>, Seq<u8>>,
    database: Database,
    row: Option<Option<Seq<u8>>>,
    after: Database,
)
    requires
        #[trigger] ends_working(registry_row(request), database, row, after),
    ensures
        exists|reply: RegistryReply<Seq<char>, Seq<u8>>| #[trigger]
            working_database_answers(database, request, reply, after) && row == (match reply {
                RegistryReply::Row(found) => Some(found),
                _ => None,
            }),
{
    reveal_with_fuel(can_end, 2);
    let rules = working_database_rules();
    let (reply, next) = choose|reply: RegistryReply<Seq<char>, Seq<u8>>, next: Database| #[trigger]
        rules(database, request, reply, next) && can_end(
            Plan::Finish(
                match reply {
                    RegistryReply::Row(found) => Some(found),
                    _ => None,
                },
            ),
            rules,
            next,
            row,
            after,
        );
    assert(working_database_answers(database, request, reply, after));
}

broadcast proof fn lemma_write(
    request: RegistryRequest<Seq<char>, Seq<u8>>,
    database: Database,
    rows: Option<u64>,
    after: Database,
)
    requires
        #[trigger] ends_working(registry_write(request), database, rows, after),
    ensures
        exists|reply: RegistryReply<Seq<char>, Seq<u8>>| #[trigger]
            working_database_answers(database, request, reply, after) && rows == (match reply {
                RegistryReply::Changed(changed) => Some(changed),
                _ => None,
            }),
{
    reveal_with_fuel(can_end, 2);
    let rules = working_database_rules();
    let (reply, next) = choose|reply: RegistryReply<Seq<char>, Seq<u8>>, next: Database| #[trigger]
        rules(database, request, reply, next) && can_end(
            Plan::Finish(
                match reply {
                    RegistryReply::Changed(changed) => Some(changed),
                    _ => None,
                },
            ),
            rules,
            next,
            rows,
            after,
        );
    assert(working_database_answers(database, request, reply, after));
}

broadcast group group_working_steps {
    lemma_finish,
    lemma_bind,
    lemma_perform,
    lemma_row,
    lemma_write,
}

/// What reading a membership gives: none where there is no record, the one that the record holds,
/// or an error where the record is not valid.
pub open spec fn membership_found(tables: Tables, workspace: Seq<char>, user: Seq<char>) -> Result<
    Option<MembershipView>,
    DurableRegistryAuthorityError,
> {
    if tables.membership_record(workspace, user) is None {
        Ok(None)
    } else {
        match tables.membership(workspace, user) {
            Some(membership) => Ok(Some(membership)),
            None => Err(DurableRegistryAuthorityError::InvalidAuthority),
        }
    }
}

/// What reading a device gives, likewise.
pub open spec fn device_found(tables: Tables, device: Seq<char>) -> Result<
    Option<DeviceView>,
    DurableRegistryAuthorityError,
> {
    if tables.device_record(device) is None {
        Ok(None)
    } else {
        match tables.device(device) {
            Some(found) => Ok(Some(found)),
            None => Err(DurableRegistryAuthorityError::InvalidAuthority),
        }
    }
}

broadcast proof fn lemma_begin(
    database: Database,
    result: Result<(), DurableRegistryAuthorityError>,
    after: Database,
)
    requires
        #[trigger] ends_working(begin_plan(), database, result, after),
    ensures
        result is Ok,
        after == (Database { open: Some(database.committed), ..database }),
{
    broadcast use group_working_steps;

}

broadcast proof fn lemma_commit(
    database: Database,
    result: Result<(), DurableRegistryAuthorityError>,
    after: Database,
)
    requires
        #[trigger] ends_working(commit_plan(), database, result, after),
        database.open is Some,
    ensures
        result is Ok,
        database.open == Some(after.committed),
{
    broadcast use group_working_steps;

}

/// Reading a membership gives exactly what is stored and changes nothing.
pub broadcast proof fn membership_is_read(
    workspace: Seq<char>,
    user: Seq<char>,
    database: Database,
    result: Result<Option<MembershipView>, DurableRegistryAuthorityError>,
    after: Database,
)
    requires
        #[trigger] ends_working(load_membership_plan(workspace, user), database, result, after),
    ensures
        after == database,
        result == membership_found(database.visible(), workspace, user),
{
    broadcast use group_working_steps;

}

/// Reading a device gives exactly what is stored and changes nothing.
pub broadcast proof fn device_is_read(
    device: Seq<char>,
    database: Database,
    result: Result<Option<DeviceView>, DurableRegistryAuthorityError>,
    after: Database,
)
    requires
        #[trigger] ends_working(load_device_plan(device), database, result, after),
    ensures
        after == database,
        result == device_found(database.visible(), device),
{
    broadcast use group_working_steps;

}

broadcast proof fn lemma_initialize(
    binding: BindingView,
    transport_identity: TransportIdentity,
    database: Database,
    result: Result<OwnerPcLocalAuthorityBootstrapOutcome, DurableRegistryAuthorityError>,
    after: Database,
)
    requires
        #[trigger] ends_working(
            initialize_plan(binding, transport_identity),
            database,
            result,
            after,
        ),
        database.open == Some(database.committed),
        database.committed.membership_record(binding.workspace, binding.user) is None,
        database.committed.device_record(binding.device) is None,
    ensures
        if owner_is_encodable(binding, transport_identity) {
            &&& result == Ok::<_, DurableRegistryAuthorityError>(
                OwnerPcLocalAuthorityBootstrapOutcome::Initialized,
            )
            &&& after.committed == with_owner(database.committed, binding, transport_identity)
        } else {
            &&& result == Err::<OwnerPcLocalAuthorityBootstrapOutcome, _>(
                DurableRegistryAuthorityError::InvalidAuthority,
            )
            &&& after == database
        },
{
    broadcast use {group_working_steps, lemma_commit};

}

/// No identifier and no key of the owner is too long for a record.
pub open spec fn owner_is_encodable(
    binding: BindingView,
    transport_identity: TransportIdentity,
) -> bool {
    encoded_membership(owner_membership(binding)) is Some && encoded_device(
        owner_device(binding, transport_identity),
    ) is Some
}

/// What the bootstrap of the owner's authority comes to. Only an enrolled device is bootstrapped.
/// Records that are not valid are refused. Where there is neither record both are written, exactly
/// the owner's records are current already, and everything else is in conflict.
pub open spec fn bootstrap_outcome(
    tables: Tables,
    binding: BindingView,
    transport_identity: TransportIdentity,
) -> Result<OwnerPcLocalAuthorityBootstrapOutcome, DurableRegistryAuthorityError> {
    let membership = membership_found(tables, binding.workspace, binding.user);
    let device = device_found(tables, binding.device);
    if binding.lifecycle != DeviceLifecycle::Enrolled {
        Err(DurableRegistryAuthorityError::Semantic(RegistryError::DeviceNotEnrolled))
    } else if membership is Err || device is Err {
        Err(DurableRegistryAuthorityError::InvalidAuthority)
    } else if membership == Ok::<_, DurableRegistryAuthorityError>(None::<MembershipView>) && device
        == Ok::<_, DurableRegistryAuthorityError>(None::<DeviceView>) {
        if owner_is_encodable(binding, transport_identity) {
            Ok(OwnerPcLocalAuthorityBootstrapOutcome::Initialized)
        } else {
            Err(DurableRegistryAuthorityError::InvalidAuthority)
        }
    } else if holds_owner(tables, binding, transport_identity) {
        Ok(OwnerPcLocalAuthorityBootstrapOutcome::AlreadyCurrent)
    } else {
        Err(DurableRegistryAuthorityError::CurrentnessConflict)
    }
}

/// On a working database the bootstrap comes to exactly what the stored records decide, and only
/// an initialization changes them: it adds both records of the owner.
pub broadcast proof fn bootstrap_is_decided_by_the_records(
    binding: BindingView,
    transport_identity: TransportIdentity,
    database: Database,
    result: Result<OwnerPcLocalAuthorityBootstrapOutcome, DurableRegistryAuthorityError>,
    after: Database,
)
    requires
        #[trigger] ends_working(bootstrap_plan(binding, transport_identity), database, result, after),
    ensures
        result == bootstrap_outcome(database.committed, binding, transport_identity),
        after.committed == (if result == Ok::<_, DurableRegistryAuthorityError>(
            OwnerPcLocalAuthorityBootstrapOutcome::Initialized,
        ) {
            with_owner(database.committed, binding, transport_identity)
        } else {
            database.committed
        }),
{
    broadcast use {
        group_working_steps,
        lemma_begin,
        membership_is_read,
        device_is_read,
        lemma_initialize,
    };

}

/// On a working database a bootstrap that succeeded is found current by every repeat, which
/// changes nothing.
pub proof fn repeated_bootstrap_is_already_current(
    binding: BindingView,
    transport_identity: TransportIdentity,
    database: Database,
    outcome: OwnerPcLocalAuthorityBootstrapOutcome,
    middle: Database,
    result: Result<OwnerPcLocalAuthorityBootstrapOutcome, DurableRegistryAuthorityError>,
    after: Database,
)
    requires
        ends_working(bootstrap_plan(binding, transport_identity), database, Ok(outcome), middle),
        ends_working(bootstrap_plan(binding, transport_identity), middle, result, after),
        is_storable(owner_device(binding, transport_identity)),
    ensures
        result == Ok::<_, DurableRegistryAuthorityError>(
            OwnerPcLocalAuthorityBootstrapOutcome::AlreadyCurrent,
        ),
        after.committed == middle.committed,
{
    bootstrap_is_decided_by_the_records(binding, transport_identity, database, Ok(outcome), middle);
    bootstrap_is_decided_by_the_records(binding, transport_identity, middle, result, after);
    if outcome == OwnerPcLocalAuthorityBootstrapOutcome::Initialized {
        let membership = owner_membership(binding);
        let device = owner_device(binding, transport_identity);
        lemma_decoded_membership(membership, encoded_membership(membership)->0);
        lemma_decoded_device(device, encoded_device(device)->0);
    }
}

/// What the validation of a session comes to, by the first check that fails: the membership is
/// there, valid and active; the device is there, valid and enrolled; it is bound to exactly what
/// the session claims; and the presented transport identity is its current one.
pub open spec fn session_outcome(tables: Tables, session: SessionView, presented: TransportIdentity) -> Result<
    PrincipalView,
    DurableRegistryAuthorityError,
> {
    match membership_found(tables, session.workspace, session.user) {
        Err(error) => Err(error),
        Ok(None) => Err(DurableRegistryAuthorityError::Semantic(RegistryError::MembershipUnknown)),
        Ok(Some(membership)) => if membership.lifecycle != MembershipLifecycle::Active {
            Err(DurableRegistryAuthorityError::Semantic(RegistryError::MembershipNotActive))
        } else {
            match device_found(tables, session.device) {
                Err(error) => Err(error),
                Ok(None) => Err(
                    DurableRegistryAuthorityError::Semantic(RegistryError::DeviceUnknown),
                ),
                Ok(Some(device)) => if device.binding.lifecycle == DeviceLifecycle::Revoked {
                    Err(DurableRegistryAuthorityError::Semantic(RegistryError::DeviceRevoked))
                } else if device.binding.lifecycle != DeviceLifecycle::Enrolled {
                    Err(DurableRegistryAuthorityError::InvalidAuthority)
                } else if device.binding != session_binding(session) {
                    Err(
                        DurableRegistryAuthorityError::Semantic(
                            RegistryError::SessionBindingMismatch,
                        ),
                    )
                } else if device.transport_identity is None {
                    Err(
                        DurableRegistryAuthorityError::Semantic(
                            RegistryError::TransportIdentityMissing,
                        ),
                    )
                } else if device.transport_identity != Some(presented) {
                    Err(
                        DurableRegistryAuthorityError::Semantic(
                            RegistryError::TransportIdentityMismatch,
                        ),
                    )
                } else {
                    Ok(PrincipalView { session, role: membership.role })
                },
            }
        },
    }
}

/// The binding of an enrolled device that a session claims.
pub open spec fn session_binding(session: SessionView) -> BindingView {
    BindingView {
        workspace: session.workspace,
        user: session.user,
        device: session.device,
        public_identity: session.public_identity,
        lifecycle: DeviceLifecycle::Enrolled,
    }
}

/// On a working database the validation of a session comes to exactly what the stored records
/// decide, and changes nothing that is committed.
pub proof fn session_is_decided_by_the_records(
    session: SessionView,
    presented: TransportIdentity,
    database: Database,
    result: Result<PrincipalView, DurableRegistryAuthorityError>,
    after: Database,
)
    requires
        ends_working(validate_session_plan(session, presented), database, result, after),
    ensures
        result == session_outcome(database.committed, session, presented),
        after.committed == database.committed,
{
    broadcast use {
        group_working_steps,
        membership_is_read,
        device_is_read,
        lemma_session_device,
    };

}

broadcast proof fn lemma_session_device(
    session: SessionView,
    membership: MembershipView,
    presented: TransportIdentity,
    database: Database,
    result: Result<PrincipalView, DurableRegistryAuthorityError>,
    after: Database,
)
    requires
        #[trigger] ends_working(
            validate_session_device_plan(session, membership, presented),
            database,
            result,
            after,
        ),
        membership_found(database.visible(), session.workspace, session.user) == Ok::<
            _,
            DurableRegistryAuthorityError,
        >(Some(membership)),
        membership.lifecycle == MembershipLifecycle::Active,
    ensures
        after == database,
        result == session_outcome(database.visible(), session, presented),
{
    broadcast use {group_working_steps, device_is_read};

}

/// What adding a membership comes to.
pub open spec fn addition_outcome(tables: Tables, membership: MembershipView) -> Result<
    (),
    DurableRegistryAuthorityError,
> {
    match membership_found(tables, membership.workspace, membership.user) {
        Err(error) => Err(error),
        Ok(Some(_)) => Err(
            DurableRegistryAuthorityError::Semantic(RegistryError::MembershipAlreadyExists),
        ),
        Ok(None) => if encoded_membership(membership) is None {
            Err(DurableRegistryAuthorityError::InvalidAuthority)
        } else {
            Ok(())
        },
    }
}

broadcast proof fn lemma_insert_membership(
    membership: MembershipView,
    database: Database,
    result: Result<(), DurableRegistryAuthorityError>,
    after: Database,
)
    requires
        #[trigger] ends_working(insert_membership_plan(membership), database, result, after),
        database.open == Some(database.committed),
        database.committed.membership_record(membership.workspace, membership.user) is None,
    ensures
        match encoded_membership(membership) {
            Some(record) => result is Ok && after.committed == database.committed.with_membership(
                membership.workspace,
                membership.user,
                record,
            ),
            None => result == Err::<(), _>(DurableRegistryAuthorityError::InvalidAuthority) && after
                == database,
        },
{
    broadcast use {group_working_steps, lemma_commit};

}

/// On a working database adding a membership comes to exactly what the stored record decides.
/// Success stores the membership; nothing else changes.
pub proof fn addition_is_decided_by_the_record(
    membership: MembershipView,
    database: Database,
    result: Result<(), DurableRegistryAuthorityError>,
    after: Database,
)
    requires
        ends_working(add_membership_plan(membership), database, result, after),
    ensures
        result == addition_outcome(database.committed, membership),
        after.committed == (if result is Ok {
            database.committed.with_membership(
                membership.workspace,
                membership.user,
                encoded_membership(membership)->0,
            )
        } else {
            database.committed
        }),
{
    broadcast use {
        group_working_steps,
        lemma_begin,
        membership_is_read,
        lemma_insert_membership,
    };

}

/// What changing a membership comes to: its successor, or why there is none.
pub open spec fn membership_change_outcome(
    tables: Tables,
    workspace: Seq<char>,
    user: Seq<char>,
    change: MembershipChange,
) -> Result<MembershipView, DurableRegistryAuthorityError> {
    match membership_found(tables, workspace, user) {
        Err(error) => Err(error),
        Ok(None) => Err(DurableRegistryAuthorityError::Semantic(RegistryError::MembershipUnknown)),
        Ok(Some(current)) => match changed_membership(current, change) {
            Err(error) => Err(error),
            Ok(successor) => if encoded_membership(successor) is None {
                Err(DurableRegistryAuthorityError::InvalidAuthority)
            } else {
                Ok(successor)
            },
        },
    }
}

broadcast proof fn lemma_replace_membership(
    workspace: Seq<char>,
    user: Seq<char>,
    successor: MembershipView,
    database: Database,
    result: Result<(), DurableRegistryAuthorityError>,
    after: Database,
)
    requires
        #[trigger] ends_working(
            replace_membership_plan(workspace, user, successor),
            database,
            result,
            after,
        ),
        database.open == Some(database.committed),
        database.committed.membership_record(workspace, user) is Some,
    ensures
        match encoded_membership(successor) {
            Some(record) => result is Ok && after.committed == database.committed.with_membership(
                workspace,
                user,
                record,
            ),
            None => result == Err::<(), _>(DurableRegistryAuthorityError::InvalidAuthority) && after
                == database,
        },
{
    broadcast use {group_working_steps, lemma_commit};

}

/// On a working database changing a membership comes to exactly what the stored record and the
/// lifecycle rules decide. Success stores the successor; nothing else changes.
pub proof fn membership_change_is_decided_by_the_record(
    workspace: Seq<char>,
    user: Seq<char>,
    change: MembershipChange,
    database: Database,
    result: Result<(), DurableRegistryAuthorityError>,
    after: Database,
)
    requires
        ends_working(update_membership_plan(workspace, user, change), database, result, after),
    ensures
        match membership_change_outcome(database.committed, workspace, user, change) {
            Ok(successor) => result is Ok && after.committed == database.committed.with_membership(
                workspace,
                user,
                encoded_membership(successor)->0,
            ),
            Err(error) => result == Err::<(), _>(error) && after.committed == database.committed,
        },
{
    broadcast use {
        group_working_steps,
        lemma_begin,
        membership_is_read,
        lemma_replace_membership,
    };

}

/// What changing a device comes to: its successor, or why there is none.
pub open spec fn device_change_outcome(tables: Tables, device: Seq<char>, change: DeviceChange) -> Result<
    DeviceView,
    DurableRegistryAuthorityError,
> {
    match device_found(tables, device) {
        Err(error) => Err(error),
        Ok(None) => Err(DurableRegistryAuthorityError::Semantic(RegistryError::DeviceUnknown)),
        Ok(Some(current)) => match changed_device(current, change) {
            Err(error) => Err(error),
            Ok(successor) => if encoded_device(successor) is None {
                Err(DurableRegistryAuthorityError::InvalidAuthority)
            } else {
                Ok(successor)
            },
        },
    }
}

broadcast proof fn lemma_replace_device(
    device: Seq<char>,
    successor: DeviceView,
    database: Database,
    result: Result<(), DurableRegistryAuthorityError>,
    after: Database,
)
    requires
        #[trigger] ends_working(replace_device_plan(device, successor), database, result, after),
        database.open == Some(database.committed),
        database.committed.device_record(device) is Some,
    ensures
        match encoded_device(successor) {
            Some(record) => result is Ok && after.committed == database.committed.with_device(
                device,
                record,
            ),
            None => result == Err::<(), _>(DurableRegistryAuthorityError::InvalidAuthority) && after
                == database,
        },
{
    broadcast use {group_working_steps, lemma_commit};

}

/// On a working database changing a device comes to exactly what the stored record and the
/// lifecycle rules decide. Success stores the successor; nothing else changes.
pub proof fn device_change_is_decided_by_the_record(
    device: Seq<char>,
    change: DeviceChange,
    database: Database,
    result: Result<(), DurableRegistryAuthorityError>,
    after: Database,
)
    requires
        ends_working(update_device_plan(device, change), database, result, after),
    ensures
        match device_change_outcome(database.committed, device, change) {
            Ok(successor) => result is Ok && after.committed == database.committed.with_device(
                device,
                encoded_device(successor)->0,
            ),
            Err(error) => result == Err::<(), _>(error) && after.committed == database.committed,
        },
{
    broadcast use {group_working_steps, lemma_begin, device_is_read, lemma_replace_device};

}

/// What registering a device comes to, by the first check that fails: the binding is enrolled, the
/// membership is there, valid and active, and the device is not there yet.
pub open spec fn registration_outcome(tables: Tables, binding: BindingView) -> Result<
    (),
    DurableRegistryAuthorityError,
> {
    if binding.lifecycle != DeviceLifecycle::Enrolled {
        Err(DurableRegistryAuthorityError::Semantic(RegistryError::DeviceNotEnrolled))
    } else {
        match membership_found(tables, binding.workspace, binding.user) {
            Err(error) => Err(error),
            Ok(None) => Err(
                DurableRegistryAuthorityError::Semantic(RegistryError::MembershipUnknown),
            ),
            Ok(Some(membership)) => if membership.lifecycle != MembershipLifecycle::Active {
                Err(DurableRegistryAuthorityError::Semantic(RegistryError::MembershipNotActive))
            } else {
                match device_found(tables, binding.device) {
                    Err(error) => Err(error),
                    Ok(Some(_)) => Err(
                        DurableRegistryAuthorityError::Semantic(RegistryError::DeviceAlreadyExists),
                    ),
                    Ok(None) => if encoded_device(DeviceView { binding, transport_identity: None })
                        is None {
                        Err(DurableRegistryAuthorityError::InvalidAuthority)
                    } else {
                        Ok(())
                    },
                }
            },
        }
    }
}

broadcast proof fn lemma_register_under_membership(
    binding: BindingView,
    database: Database,
    result: Result<(), DurableRegistryAuthorityError>,
    after: Database,
)
    requires
        #[trigger] ends_working(register_under_membership_plan(binding), database, result, after),
        database.open == Some(database.committed),
        binding.lifecycle == DeviceLifecycle::Enrolled,
        membership_found(database.committed, binding.workspace, binding.user) matches Ok(
            Some(membership),
        ) && membership.lifecycle == MembershipLifecycle::Active,
    ensures
        result == registration_outcome(database.committed, binding),
        after.committed == (if result is Ok {
            database.committed.with_device(
                binding.device,
                encoded_device(DeviceView { binding, transport_identity: None })->0,
            )
        } else {
            database.committed
        }),
{
    broadcast use {group_working_steps, lemma_commit, device_is_read};

}

/// On a working database registering a device comes to exactly what the stored records decide.
/// Success stores the device without a transport identity; nothing else changes.
pub proof fn registration_is_decided_by_the_records(
    binding: BindingView,
    database: Database,
    result: Result<(), DurableRegistryAuthorityError>,
    after: Database,
)
    requires
        ends_working(register_device_plan(binding), database, result, after),
    ensures
        result == registration_outcome(database.committed, binding),
        after.committed == (if result is Ok {
            database.committed.with_device(
                binding.device,
                encoded_device(DeviceView { binding, transport_identity: None })->0,
            )
        } else {
            database.committed
        }),
{
    broadcast use {
        group_working_steps,
        lemma_begin,
        membership_is_read,
        lemma_register_under_membership,
    };

}

/// On a working database the current transport identity of a device is the one that is stored with
/// it, and only an enrolled device has one. Nothing changes.
pub proof fn current_transport_is_read(
    device: Seq<char>,
    database: Database,
    result: Result<TransportIdentity, DurableRegistryAuthorityError>,
    after: Database,
)
    requires
        ends_working(current_transport_plan(device), database, result, after),
        database.open is None,
    ensures
        after == database,
        match database.committed.device(device) {
            Some(stored) => match stored.binding.lifecycle {
                DeviceLifecycle::Enrolled => match stored.transport_identity {
                    Some(identity) => result == Ok::<_, DurableRegistryAuthorityError>(identity),
                    None => result == Err::<TransportIdentity, _>(
                        DurableRegistryAuthorityError::Semantic(
                            RegistryError::TransportIdentityMissing,
                        ),
                    ),
                },
                DeviceLifecycle::Revoked => result == Err::<TransportIdentity, _>(
                    DurableRegistryAuthorityError::Semantic(RegistryError::DeviceRevoked),
                ),
                DeviceLifecycle::PendingEnrollment => result == Err::<TransportIdentity, _>(
                    DurableRegistryAuthorityError::InvalidAuthority,
                ),
            },
            None => result == Err::<TransportIdentity, _>(
                if database.committed.device_record(device) is None {
                    DurableRegistryAuthorityError::Semantic(RegistryError::DeviceUnknown)
                } else {
                    DurableRegistryAuthorityError::InvalidAuthority
                },
            ),
        },
{
    broadcast use {group_working_steps, device_is_read};

}

} // verus!
