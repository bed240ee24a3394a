//! A model of the database, and what the registry operations do to it.
//!
//! What counts is what is committed. An operation that ends without a commit leaves that as it
//! was, whatever it wrote before.
use vstd::prelude::*;

use crate::domain::{all_zero, BindingView, DeviceLifecycle, TransportIdentity};
use crate::durable_registry_authority::DurableRegistryAuthorityError;
use crate::durable_registry_codec::{encoded_device, encoded_membership, is_storable};
use crate::durable_registry_mutation_semantics::{
    changed_device, changed_membership, DeviceChange, MembershipChange,
};
use crate::durable_registry_sqlite_store::{
    add_membership_plan, begin_plan, bootstrap_plan, commit_plan, create_schema_plan,
    decoded_device, decoded_membership, initialize_plan, insert_membership_plan,
    lemma_decoded_device, lemma_decoded_membership, load_device_plan, load_membership_plan,
    open_existing_plan, open_plan, owner_device, owner_membership, register_device_plan,
    register_under_membership_plan, registry_integer, registry_journal, registry_perform,
    registry_row, registry_write, replace_device_plan, replace_membership_plan, update_device_plan,
    update_membership_plan, validate_session_plan, verify_schema_plan,
    DurableRegistrySqliteOpenError, OwnerPcLocalAuthorityBootstrapOutcome, RegistryPlan,
    RegistryReply, RegistryRequest,
};
use crate::plan::{bind, can_end, lemma_can_end_bind, Plan};
use crate::registry::{
    DeviceView, MembershipLifecycle, MembershipView, PrincipalView, SessionView,
};

verus! {

/// The two tables: memberships by workspace and user, devices by device.
pub struct Tables {
    pub memberships: Map<(Seq<char>, Seq<char>), Seq<u8>>,
    pub devices: Map<Seq<char>, Seq<u8>>,
}

/// The database: what is committed, and what the open transaction sees.
pub struct Database {
    pub committed: Tables,
    pub open: Option<Tables>,
}

impl Database {
    /// What a statement sees.
    pub open spec fn visible(self) -> Tables {
        match self.open {
            Some(tables) => tables,
            None => self.committed,
        }
    }
}

impl Tables {
    /// The record of a workspace and a user, if there is one.
    pub open spec fn membership_record(self, workspace: Seq<char>, user: Seq<char>) -> Option<
        Seq<u8>,
    > {
        if self.memberships.contains_key((workspace, user)) {
            Some(self.memberships[(workspace, user)])
        } else {
            None
        }
    }

    /// The record of a device, if there is one.
    pub open spec fn device_record(self, device: Seq<char>) -> Option<Seq<u8>> {
        if self.devices.contains_key(device) {
            Some(self.devices[device])
        } else {
            None
        }
    }

    /// The membership of a workspace and a user, if there is a record and it is valid.
    pub open spec fn membership(self, workspace: Seq<char>, user: Seq<char>) -> Option<
        MembershipView,
    > {
        match self.membership_record(workspace, user) {
            Some(record) => decoded_membership(record, workspace, user),
            None => None,
        }
    }

    /// The device of an identifier, if there is a record and it is valid.
    pub open spec fn device(self, device: Seq<char>) -> Option<DeviceView> {
        match self.device_record(device) {
            Some(record) => decoded_device(record, device),
            None => None,
        }
    }

    pub open spec fn with_membership(
        self,
        workspace: Seq<char>,
        user: Seq<char>,
        record: Seq<u8>,
    ) -> Tables {
        Tables { memberships: self.memberships.insert((workspace, user), record), ..self }
    }

    pub open spec fn with_device(self, device: Seq<char>, record: Seq<u8>) -> Tables {
        Tables { devices: self.devices.insert(device, record), ..self }
    }
}

/// A write of one statement: it changed one row, no row, or failed.
pub open spec fn writes(
    before: Database,
    reply: RegistryReply<Seq<char>, Seq<u8>>,
    after: Database,
    possible: bool,
    written: Tables,
) -> bool {
    &&& after.committed == before.committed
    &&& match reply {
        RegistryReply::Changed(rows) => if rows == 1 {
            possible && before.open is Some && after.open == Some(written)
        } else {
            rows == 0 && !possible && after.open == before.open
        },
        _ => true,
    }
}

/// Which replies the database can give to a request, and how it changes. Whether a commit that is
/// reported as failed took effect is not known.
pub open spec fn database_answers(
    before: Database,
    request: RegistryRequest<Seq<char>, Seq<u8>>,
    reply: RegistryReply<Seq<char>, Seq<u8>>,
    after: Database,
) -> bool {
    match request {
        RegistryRequest::BeginImmediate | RegistryRequest::BeginDeferred => after.committed
            == before.committed && (reply is Completed ==> after.open == Some(before.committed)),
        RegistryRequest::SelectMembership(workspace, user) => after == before && (
        reply matches RegistryReply::Row(row) ==> row == before.visible().membership_record(
            workspace,
            user,
        )),
        RegistryRequest::SelectDevice(device) => after == before && (
        reply matches RegistryReply::Row(row) ==> row == before.visible().device_record(device)),
        RegistryRequest::InsertMembership(workspace, user, record) => writes(
            before,
            reply,
            after,
            before.visible().membership_record(workspace, user) is None,
            before.visible().with_membership(workspace, user, record),
        ),
        RegistryRequest::InsertDevice(device, record) => writes(
            before,
            reply,
            after,
            before.visible().device_record(device) is None,
            before.visible().with_device(device, record),
        ),
        RegistryRequest::UpdateMembership(workspace, user, record) => writes(
            before,
            reply,
            after,
            before.visible().membership_record(workspace, user) is Some,
            before.visible().with_membership(workspace, user, record),
        ),
        RegistryRequest::UpdateDevice(device, record) => writes(
            before,
            reply,
            after,
            before.visible().device_record(device) is Some,
            before.visible().with_device(device, record),
        ),
        RegistryRequest::Commit => if reply is Completed {
            before.open == Some(after.committed)
        } else {
            after.committed == before.committed || before.open == Some(after.committed)
        },
        RegistryRequest::OpenReadWrite | RegistryRequest::OpenReadOnly => after == (Database {
            open: None,
            ..before
        }),
        _ => after == before,
    }
}

pub open spec fn database_rules() -> spec_fn(
    Database,
    RegistryRequest<Seq<char>, Seq<u8>>,
    RegistryReply<Seq<char>, Seq<u8>>,
    Database,
) -> bool {
    |
        before: Database,
        request: RegistryRequest<Seq<char>, Seq<u8>>,
        reply: RegistryReply<Seq<char>, Seq<u8>>,
        after: Database,
    |
        database_answers(before, request, reply, after)
}

/// Whether an operation can end with a result and leave the database in a state.
pub open spec fn ends<R>(plan: RegistryPlan<R>, database: Database, result: R, after: Database) -> bool {
    can_end(plan, database_rules(), database, result, after)
}

broadcast proof fn lemma_finish_ends<R>(value: R, database: Database, result: R, after: Database)
    requires
        #[trigger] ends(Plan::Finish(value), database, result, after),
    ensures
        value == result,
        database == after,
{
}

broadcast proof fn lemma_bind_ends<R, S>(
    plan: RegistryPlan<R>,
    next: spec_fn(R) -> RegistryPlan<S>,
    database: Database,
    result: S,
    after: Database,
)
    requires
        #[trigger] ends(bind(plan, next), database, result, after),
    ensures
        exists|value: R, middle: Database| #[trigger]
            ends(plan, database, value, middle) && ends(next(value), middle, result, after),
{
    lemma_can_end_bind(plan, next, database_rules(), database, result, after);
    let (value, middle) = choose|value: R, middle: Database| #[trigger]
        can_end(plan, database_rules(), database, value, middle) && can_end(
            next(value),
            database_rules(),
            middle,
            result,
            after,
        );
    assert(ends(plan, database, value, middle));
}

broadcast proof fn lemma_perform_ends(
    request: RegistryRequest<Seq<char>, Seq<u8>>,
    database: Database,
    done: bool,
    after: Database,
)
    requires
        #[trigger] ends(registry_perform(request), database, done, after),
    ensures
        exists|reply: RegistryReply<Seq<char>, Seq<u8>>| #[trigger]
            database_answers(database, request, reply, after) && done == (reply is Completed),
{
    reveal_with_fuel(can_end, 2);
    let rules = database_rules();
    let (reply, next) = choose|reply: RegistryReply<Seq<char>, Seq<u8>>, next: Database| #[trigger]
        rules(database, request, reply, next) && can_end(
            Plan::Finish(reply is Completed),
            rules,
            next,
            done,
            after,
        );
    assert(database_answers(database, request, reply, after));
}

broadcast proof fn lemma_row_ends(
    request: RegistryRequest<Seq<char>, Seq<u8>>,
    database: Database,
    row: Option<Option<Seq<u8>>>,
    after: Database,
)
    requires
        #[trigger] ends(registry_row(request), database, row, after),
    ensures
        exists|reply: RegistryReply<Seq<char>, Seq<u8>>| #[trigger]
            database_answers(database, request, reply, after) && row == (match reply {
                RegistryReply::Row(found) => Some(found),
                _ => None,
            }),
{
    reveal_with_fuel(can_end, 2);
    let rules = database_rules();
    let (reply, next) = choose|reply: RegistryReply<Seq<char>, Seq<u8>>, next: Database| #[trigger]
        rules(database, request, reply, next) && can_end(
            Plan::Finish(
                match reply {
                    RegistryReply::Row(found) => Some(found),
                    _ => None,
                },
            ),
            rules,
            next,
            row,
            after,
        );
    assert(database_answers(database, request, reply, after));
}

broadcast proof fn lemma_write_ends(
    request: RegistryRequest<Seq<char>, Seq<u8>>,
    database: Database,
    rows: Option<u64>,
    after: Database,
)
    requires
        #[trigger] ends(registry_write(request), database, rows, after),
    ensures
        exists|reply: RegistryReply<Seq<char>, Seq<u8>>| #[trigger]
            database_answers(database, request, reply, after) && rows == (match reply {
                RegistryReply::Changed(changed) => Some(changed),
                _ => None,
            }),
{
    reveal_with_fuel(can_end, 2);
    let rules = database_rules();
    let (reply, next) = choose|reply: RegistryReply<Seq<char>, Seq<u8>>, next: Database| #[trigger]
        rules(database, request, reply, next) && can_end(
            Plan::Finish(
                match reply {
                    RegistryReply::Changed(changed) => Some(changed),
                    _ => None,
                },
            ),
            rules,
            next,
            rows,
            after,
        );
    assert(database_answers(database, request, reply, after));
}

broadcast proof fn lemma_integer_ends(
    request: RegistryRequest<Seq<char>, Seq<u8>>,
    database: Database,
    value: Option<i64>,
    after: Database,
)
    requires
        #[trigger] ends(registry_integer(request), database, value, after),
    ensures
        exists|reply: RegistryReply<Seq<char>, Seq<u8>>| #[trigger]
            database_answers(database, request, reply, after),
{
    reveal_with_fuel(can_end, 2);
    let rules = database_rules();
    let (reply, next) = choose|reply: RegistryReply<Seq<char>, Seq<u8>>, next: Database| #[trigger]
        rules(database, request, reply, next) && next == after;
    assert(database_answers(database, request, reply, after));
}

broadcast proof fn lemma_journal_ends(
    request: RegistryRequest<Seq<char>, Seq<u8>>,
    database: Database,
    write_ahead: bool,
    after: Database,
)
    requires
        #[trigger] ends(registry_journal(request), database, write_ahead, after),
    ensures
        exists|reply: RegistryReply<Seq<char>, Seq<u8>>| #[trigger]
            database_answers(database, request, reply, after),
{
    reveal_with_fuel(can_end, 2);
    let rules = database_rules();
    let (reply, next) = choose|reply: RegistryReply<Seq<char>, Seq<u8>>, next: Database| #[trigger]
        rules(database, request, reply, next) && next == after;
    assert(database_answers(database, request, reply, after));
}

broadcast group group_database_steps {
    lemma_finish_ends,
    lemma_bind_ends,
    lemma_perform_ends,
    lemma_integer_ends,
    lemma_journal_ends,
    lemma_row_ends,
    lemma_write_ends,
}

/// Opening the database commits no record.
pub broadcast proof fn opening_keeps_the_records(
    database: Database,
    result: Result<(), DurableRegistrySqliteOpenError>,
    after: Database,
)
    requires
        #[trigger] ends(open_plan(), database, result, after),
    ensures
        after.committed == database.committed,
{
    broadcast use {group_database_steps, lemma_verify_schema_ends, lemma_create_schema_ends};

}

broadcast proof fn lemma_verify_schema_ends(
    database: Database,
    result: Result<(), DurableRegistrySqliteOpenError>,
    after: Database,
)
    requires
        #[trigger] ends(verify_schema_plan(), database, result, after),
    ensures
        after == database,
{
    broadcast use group_database_steps;

}

broadcast proof fn lemma_create_schema_ends(
    database: Database,
    result: Result<(), DurableRegistrySqliteOpenError>,
    after: Database,
)
    requires
        #[trigger] ends(create_schema_plan(), database, result, after),
    ensures
        after.committed == database.committed,
{
    broadcast use group_database_steps;

}

/// Opening the existing database commits nothing and leaves no transaction open.
pub broadcast proof fn opening_for_reading_changes_nothing(
    database: Database,
    result: Result<(), DurableRegistrySqliteOpenError>,
    after: Database,
)
    requires
        #[trigger] ends(open_existing_plan(), database, result, after),
    ensures
        after == (Database { open: None, ..database }),
{
    broadcast use {group_database_steps, lemma_verify_schema_ends};

}

broadcast proof fn lemma_begin_ends(
    database: Database,
    result: Result<(), DurableRegistryAuthorityError>,
    after: Database,
)
    requires
        #[trigger] ends(begin_plan(), database, result, after),
    ensures
        after.committed == database.committed,
        result is Ok ==> after.open == Some(database.committed),
        result matches Err(error) ==> error == DurableRegistryAuthorityError::MutationIndeterminate,
{
    broadcast use group_database_steps;

}

broadcast proof fn lemma_commit_ends(
    database: Database,
    result: Result<(), DurableRegistryAuthorityError>,
    after: Database,
)
    requires
        #[trigger] ends(commit_plan(), database, result, after),
    ensures
        after.committed == database.committed || database.open == Some(after.committed),
        result is Ok ==> database.open == Some(after.committed),
        result matches Err(error) ==> error == DurableRegistryAuthorityError::MutationIndeterminate,
{
    broadcast use group_database_steps;

}

pub broadcast proof fn lemma_load_membership_ends(
    workspace: Seq<char>,
    user: Seq<char>,
    database: Database,
    result: Result<Option<MembershipView>, DurableRegistryAuthorityError>,
    after: Database,
)
    requires
        #[trigger] ends(load_membership_plan(workspace, user), database, result, after),
    ensures
        after == database,
        result matches Ok(found) ==> found == database.visible().membership(workspace, user) && (
        found is None ==> database.visible().membership_record(workspace, user) is None),
        result matches Err(error) ==> error == DurableRegistryAuthorityError::ReadUnavailable || (
        error == DurableRegistryAuthorityError::InvalidAuthority && database.visible().membership(
            workspace,
            user,
        ) is None),
{
    broadcast use group_database_steps;

}

pub broadcast proof fn lemma_load_device_ends(
    device: Seq<char>,
    database: Database,
    result: Result<Option<DeviceView>, DurableRegistryAuthorityError>,
    after: Database,
)
    requires
        #[trigger] ends(load_device_plan(device), database, result, after),
    ensures
        after == database,
        result matches Ok(found) ==> found == database.visible().device(device) && (found is None
            ==> database.visible().device_record(device) is None),
        result matches Err(error) ==> error == DurableRegistryAuthorityError::ReadUnavailable || (
        error == DurableRegistryAuthorityError::InvalidAuthority && database.visible().device(device)
            is None),
{
    broadcast use group_database_steps;

}

broadcast proof fn lemma_insert_membership_ends(
    membership: MembershipView,
    database: Database,
    result: Result<(), DurableRegistryAuthorityError>,
    after: Database,
)
    requires
        #[trigger] ends(insert_membership_plan(membership), database, result, after),
        database.open == Some(database.committed),
    ensures
        result matches Err(error) ==> error == DurableRegistryAuthorityError::MutationIndeterminate
            || after.committed == database.committed,
        result is Ok ==> database.committed.membership_record(
            membership.workspace,
            membership.user,
        ) is None,
        result is Ok || after.committed != database.committed ==> encoded_membership(membership)
            is Some && after.committed == database.committed.with_membership(
            membership.workspace,
            membership.user,
            encoded_membership(membership)->0,
        ),
{
    broadcast use {group_database_steps, lemma_commit_ends};

}

broadcast proof fn lemma_replace_membership_ends(
    workspace: Seq<char>,
    user: Seq<char>,
    successor: MembershipView,
    database: Database,
    result: Result<(), DurableRegistryAuthorityError>,
    after: Database,
)
    requires
        #[trigger] ends(replace_membership_plan(workspace, user, successor), database, result, after),
        database.open == Some(database.committed),
    ensures
        result matches Err(error) ==> error == DurableRegistryAuthorityError::MutationIndeterminate
            || after.committed == database.committed,
        result is Ok || after.committed != database.committed ==> encoded_membership(successor)
            is Some && after.committed == database.committed.with_membership(
            workspace,
            user,
            encoded_membership(successor)->0,
        ),
{
    broadcast use {group_database_steps, lemma_commit_ends};

}

broadcast proof fn lemma_replace_device_ends(
    device: Seq<char>,
    successor: DeviceView,
    database: Database,
    result: Result<(), DurableRegistryAuthorityError>,
    after: Database,
)
    requires
        #[trigger] ends(replace_device_plan(device, successor), database, result, after),
        database.open == Some(database.committed),
    ensures
        result matches Err(error) ==> error == DurableRegistryAuthorityError::MutationIndeterminate
            || after.committed == database.committed,
        result is Ok || after.committed != database.committed ==> encoded_device(successor) is Some
            && after.committed == database.committed.with_device(
            device,
            encoded_device(successor)->0,
        ),
{
    broadcast use {group_database_steps, lemma_commit_ends};

}

/// Reading a membership changes nothing and gives what is stored.
pub proof fn reading_a_membership_changes_nothing(
    workspace: Seq<char>,
    user: Seq<char>,
    database: Database,
    result: Result<Option<MembershipView>, DurableRegistryAuthorityError>,
    after: Database,
)
    requires
        ends(load_membership_plan(workspace, user), database, result, after),
        database.open is None,
    ensures
        after == database,
        result matches Ok(found) ==> found == database.committed.membership(workspace, user),
{
    lemma_load_membership_ends(workspace, user, database, result, after);
}

/// Validation of a session changes nothing that is committed. It succeeds only for an active
/// member and an enrolled device that is bound to exactly what the session claims and to the
/// presented transport identity, and gives the session with the member's role.
pub proof fn validating_a_session_changes_nothing(
    session: SessionView,
    presented: TransportIdentity,
    database: Database,
    result: Result<PrincipalView, DurableRegistryAuthorityError>,
    after: Database,
)
    requires
        ends(validate_session_plan(session, presented), database, result, after),
    ensures
        after.committed == database.committed,
        result is Ok ==> {
            &&& database.committed.membership(session.workspace, session.user) matches Some(
                membership,
            ) && membership.lifecycle == MembershipLifecycle::Active && result == Ok::<
                PrincipalView,
                DurableRegistryAuthorityError,
            >(PrincipalView { session, role: membership.role })
            &&& database.committed.device(session.device) matches Some(device)
                && device.transport_identity == Some(presented) && device.binding == (BindingView {
                workspace: session.workspace,
                user: session.user,
                device: session.device,
                public_identity: session.public_identity,
                lifecycle: DeviceLifecycle::Enrolled,
            })
        },
{
    broadcast use {group_database_steps, lemma_load_membership_ends, lemma_load_device_ends};

}

/// A membership is added where there was none, and nothing else changes. Unless the outcome is
/// unknown, a failure leaves everything as it was.
pub broadcast proof fn adding_a_membership_is_atomic(
    membership: MembershipView,
    database: Database,
    result: Result<(), DurableRegistryAuthorityError>,
    after: Database,
)
    requires
        #[trigger] ends(add_membership_plan(membership), database, result, after),
    ensures
        result matches Err(error) ==> error == DurableRegistryAuthorityError::MutationIndeterminate
            || after.committed == database.committed,
        result is Ok || after.committed != database.committed ==> {
            &&& database.committed.membership_record(membership.workspace, membership.user) is None
            &&& encoded_membership(membership) is Some
            &&& after.committed == database.committed.with_membership(
                membership.workspace,
                membership.user,
                encoded_membership(membership)->0,
            )
            &&& after.committed.membership(membership.workspace, membership.user) == Some(
                membership,
            )
        },
{
    broadcast use {
        group_database_steps,
        lemma_begin_ends,
        lemma_load_membership_ends,
        lemma_insert_membership_ends,
    };

    if encoded_membership(membership) is Some {
        lemma_decoded_membership(membership, encoded_membership(membership)->0);
    }
}

/// A change of a membership takes the stored membership to its successor and touches nothing
/// else. Unless the outcome is unknown, a failure leaves everything as it was.
pub broadcast proof fn changing_a_membership_is_atomic(
    workspace: Seq<char>,
    user: Seq<char>,
    change: MembershipChange,
    database: Database,
    result: Result<(), DurableRegistryAuthorityError>,
    after: Database,
)
    requires
        #[trigger] ends(update_membership_plan(workspace, user, change), database, result, after),
    ensures
        result matches Err(error) ==> error == DurableRegistryAuthorityError::MutationIndeterminate
            || after.committed == database.committed,
        result is Ok || after.committed != database.committed ==> {
            &&& database.committed.membership(workspace, user) matches Some(current)
            &&& changed_membership(current, change) matches Ok(successor)
            &&& after.committed.membership(workspace, user) == Some(successor)
            &&& after.committed.devices == database.committed.devices
            &&& after.committed.memberships.remove((workspace, user))
                =~= database.committed.memberships.remove((workspace, user))
        },
{
    broadcast use {
        group_database_steps,
        lemma_begin_ends,
        lemma_load_membership_ends,
        lemma_replace_membership_ends,
    };

    if database.committed.membership(workspace, user) is Some {
        let current = database.committed.membership(workspace, user)->0;
        if changed_membership(current, change) is Ok {
            let successor = changed_membership(current, change)->Ok_0;
            if encoded_membership(successor) is Some {
                lemma_decoded_membership(successor, encoded_membership(successor)->0);
            }
        }
    }
}

/// The transport identity that a change brings, if any, is not zero: every value of the type is.
pub open spec fn brings_valid_identity(change: DeviceChange) -> bool {
    match change {
        DeviceChange::BindTransport(identity) => !all_zero(identity@),
        DeviceChange::RotateTransport(_, replacement) => !all_zero(replacement@),
        DeviceChange::Revoke => true,
    }
}

/// A change of a device takes the stored device to its successor and touches nothing else. Unless
/// the outcome is unknown, a failure leaves everything as it was.
pub broadcast proof fn changing_a_device_is_atomic(
    device: Seq<char>,
    change: DeviceChange,
    database: Database,
    result: Result<(), DurableRegistryAuthorityError>,
    after: Database,
)
    requires
        #[trigger] ends(update_device_plan(device, change), database, result, after),
        brings_valid_identity(change),
    ensures
        result matches Err(error) ==> error == DurableRegistryAuthorityError::MutationIndeterminate
            || after.committed == database.committed,
        result is Ok || after.committed != database.committed ==> {
            &&& database.committed.device(device) matches Some(current)
            &&& changed_device(current, change) matches Ok(successor)
            &&& after.committed.device(device) == Some(successor)
            &&& after.committed.memberships == database.committed.memberships
            &&& after.committed.devices.remove(device) =~= database.committed.devices.remove(device)
        },
{
    broadcast use {
        group_database_steps,
        lemma_begin_ends,
        lemma_load_device_ends,
        lemma_replace_device_ends,
    };

    if database.committed.device(device) is Some {
        let current = database.committed.device(device)->0;
        if changed_device(current, change) is Ok {
            let successor = changed_device(current, change)->Ok_0;
            if encoded_device(successor) is Some {
                lemma_decoded_device(successor, encoded_device(successor)->0);
            }
        }
    }
}

/// A membership that was removed stays removed: no later change of it succeeds.
pub proof fn removed_membership_stays_removed(
    workspace: Seq<char>,
    user: Seq<char>,
    change: MembershipChange,
    database: Database,
    middle: Database,
    result: Result<(), DurableRegistryAuthorityError>,
    after: Database,
)
    requires
        ends(
            update_membership_plan(workspace, user, MembershipChange::Remove),
            database,
            Ok(()),
            middle,
        ),
        ends(update_membership_plan(workspace, user, change), middle, result, after),
    ensures
        result is Err,
        after.committed == middle.committed,
{
    changing_a_membership_is_atomic(
        workspace,
        user,
        MembershipChange::Remove,
        database,
        Ok(()),
        middle,
    );
    changing_a_membership_is_atomic(workspace, user, change, middle, result, after);
}

/// A device that was revoked stays revoked: no later change of it succeeds.
pub proof fn revoked_device_stays_revoked(
    device: Seq<char>,
    change: DeviceChange,
    database: Database,
    middle: Database,
    result: Result<(), DurableRegistryAuthorityError>,
    after: Database,
)
    requires
        ends(update_device_plan(device, DeviceChange::Revoke), database, Ok(()), middle),
        ends(update_device_plan(device, change), middle, result, after),
        brings_valid_identity(change),
    ensures
        result is Err,
        after.committed == middle.committed,
{
    changing_a_device_is_atomic(device, DeviceChange::Revoke, database, Ok(()), middle);
    changing_a_device_is_atomic(device, change, middle, result, after);
}

broadcast proof fn lemma_register_under_membership_ends(
    binding: BindingView,
    database: Database,
    result: Result<(), DurableRegistryAuthorityError>,
    after: Database,
)
    requires
        #[trigger] ends(register_under_membership_plan(binding), database, result, after),
        database.open == Some(database.committed),
    ensures
        result matches Err(error) ==> error == DurableRegistryAuthorityError::MutationIndeterminate
            || after.committed == database.committed,
        result is Ok || after.committed != database.committed ==> {
            let registered = DeviceView { binding, transport_identity: None };
            &&& database.committed.device_record(binding.device) is None
            &&& encoded_device(registered) is Some
            &&& after.committed == database.committed.with_device(
                binding.device,
                encoded_device(registered)->0,
            )
        },
{
    broadcast use {group_database_steps, lemma_commit_ends, lemma_load_device_ends};

}

/// A device is registered under an active membership where there was none, without a transport
/// identity, and nothing else changes. Unless the outcome is unknown, a failure leaves everything
/// as it was.
pub proof fn registering_a_device_is_atomic(
    binding: BindingView,
    database: Database,
    result: Result<(), DurableRegistryAuthorityError>,
    after: Database,
)
    requires
        ends(register_device_plan(binding), database, result, after),
    ensures
        result matches Err(error) ==> error == DurableRegistryAuthorityError::MutationIndeterminate
            || after.committed == database.committed,
        result is Ok || after.committed != database.committed ==> {
            let registered = DeviceView { binding, transport_identity: None };
            &&& database.committed.device_record(binding.device) is None
            &&& database.committed.membership(binding.workspace, binding.user) matches Some(
                membership,
            ) && membership.lifecycle == MembershipLifecycle::Active
            &&& encoded_device(registered) is Some
            &&& after.committed == database.committed.with_device(
                binding.device,
                encoded_device(registered)->0,
            )
        },
{
    broadcast use {
        group_database_steps,
        lemma_begin_ends,
        lemma_load_membership_ends,
        lemma_register_under_membership_ends,
    };

}

/// Both records of the owner, as the bootstrap writes them.
pub open spec fn with_owner(
    tables: Tables,
    binding: BindingView,
    transport_identity: TransportIdentity,
) -> Tables {
    tables.with_membership(
        binding.workspace,
        binding.user,
        encoded_membership(owner_membership(binding))->0,
    ).with_device(binding.device, encoded_device(owner_device(binding, transport_identity))->0)
}

broadcast proof fn lemma_initialize_ends(
    binding: BindingView,
    transport_identity: TransportIdentity,
    database: Database,
    result: Result<OwnerPcLocalAuthorityBootstrapOutcome, DurableRegistryAuthorityError>,
    after: Database,
)
    requires
        #[trigger] ends(initialize_plan(binding, transport_identity), database, result, after),
        database.open == Some(database.committed),
    ensures
        result matches Err(error) ==> error == DurableRegistryAuthorityError::MutationIndeterminate
            || after.committed == database.committed,
        result matches Ok(outcome) ==> outcome
            == OwnerPcLocalAuthorityBootstrapOutcome::Initialized,
        result is Ok || after.committed != database.committed ==> encoded_membership(
            owner_membership(binding),
        ) is Some && encoded_device(owner_device(binding, transport_identity)) is Some
            && after.committed == with_owner(database.committed, binding, transport_identity),
{
    broadcast use {group_database_steps, lemma_commit_ends};

}

/// The tables hold exactly the owner's membership and device.
pub open spec fn holds_owner(
    tables: Tables,
    binding: BindingView,
    transport_identity: TransportIdentity,
) -> bool {
    &&& tables.membership(binding.workspace, binding.user) == Some(owner_membership(binding))
    &&& tables.device(binding.device) == Some(owner_device(binding, transport_identity))
}

/// The bootstrap of the owner's authority is all or nothing. Either nothing that is committed
/// changes, or both records are written where neither was. Success means that the tables hold
/// exactly the owner's records, and `AlreadyCurrent` that they did before. Unless the outcome is
/// unknown, a failure leaves everything as it was, so a conflict is refused without any change.
pub broadcast proof fn bootstrap_is_all_or_nothing(
    binding: BindingView,
    transport_identity: TransportIdentity,
    database: Database,
    result: Result<OwnerPcLocalAuthorityBootstrapOutcome, DurableRegistryAuthorityError>,
    after: Database,
)
    requires
        #[trigger] ends(bootstrap_plan(binding, transport_identity), database, result, after),
        is_storable(owner_device(binding, transport_identity)),
    ensures
        result matches Err(error) ==> error == DurableRegistryAuthorityError::MutationIndeterminate
            || after.committed == database.committed,
        after.committed != database.committed ==> {
            &&& database.committed.membership_record(binding.workspace, binding.user) is None
            &&& database.committed.device_record(binding.device) is None
            &&& after.committed == with_owner(database.committed, binding, transport_identity)
        },
        result is Ok ==> holds_owner(after.committed, binding, transport_identity),
        result == Ok::<_, DurableRegistryAuthorityError>(
            OwnerPcLocalAuthorityBootstrapOutcome::AlreadyCurrent,
        ) ==> after.committed == database.committed,
{
    broadcast use {
        group_database_steps,
        lemma_begin_ends,
        lemma_load_membership_ends,
        lemma_load_device_ends,
        lemma_initialize_ends,
    };

    if encoded_membership(owner_membership(binding)) is Some {
        lemma_decoded_membership(
            owner_membership(binding),
            encoded_membership(owner_membership(binding))->0,
        );
    }
    let device = owner_device(binding, transport_identity);
    if encoded_device(device) is Some {
        lemma_decoded_device(device, encoded_device(device)->0);
    }
    lemma_membership_is_of_its_key(
        database.committed,
        binding.workspace,
        binding.user,
    );
}

proof fn lemma_membership_is_of_its_key(tables: Tables, workspace: Seq<char>, user: Seq<char>)
    ensures
        tables.membership(workspace, user) matches Some(membership) ==> membership.workspace
            == workspace && membership.user == user,
{
}

/// Bootstrapping again with the same owner changes nothing and initializes nothing; with another
/// transport identity it never succeeds.
pub proof fn bootstrap_is_exactly_idempotent(
    binding: BindingView,
    first: TransportIdentity,
    second: TransportIdentity,
    database: Database,
    outcome: OwnerPcLocalAuthorityBootstrapOutcome,
    middle: Database,
    result: Result<OwnerPcLocalAuthorityBootstrapOutcome, DurableRegistryAuthorityError>,
    after: Database,
)
    requires
        ends(bootstrap_plan(binding, first), database, Ok(outcome), middle),
        ends(bootstrap_plan(binding, second), middle, result, after),
        is_storable(owner_device(binding, first)),
        is_storable(owner_device(binding, second)),
    ensures
        after.committed == middle.committed,
        result matches Ok(again) ==> second == first && again
            == OwnerPcLocalAuthorityBootstrapOutcome::AlreadyCurrent,
{
    broadcast use {
        group_database_steps,
        lemma_begin_ends,
        lemma_load_membership_ends,
        lemma_load_device_ends,
        lemma_initialize_ends,
    };

    bootstrap_is_all_or_nothing(binding, first, database, Ok(outcome), middle);
    bootstrap_is_all_or_nothing(binding, second, middle, result, after);
}

} // verus!
