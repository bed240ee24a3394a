//! Operations on the owner's local registry database.
//!
//! The registry is two tables of records: memberships by workspace and user, devices by device.
//! Each operation here asks the database for what it needs and decides what is written; a write
//! counts only once its transaction is committed, and an operation that ends without a commit
//! leaves the tables as they were.
use vstd::prelude::*;
use vstd::string::*;

use crate::domain::{
    BindingView, DeviceId, DeviceIdentityBinding, DeviceLifecycle, TransportIdentity, UserId,
    WorkspaceId,
};
use crate::durable_registry_authority::DurableRegistryAuthorityError;
use crate::durable_registry_codec::{
    decode_bound_device_record, decode_bound_membership_record, encode_device_value,
    encode_membership_value, encoded_device, encoded_membership, is_storable,
};
use crate::durable_registry_mutation_semantics::{
    changed_device, changed_membership, device_successor, membership_successor, DeviceChange,
    MembershipChange,
};
use crate::durable_registry_semantics::{
    current_transport, current_transport_from_device, presented_verdict, session_principal,
    validate_presented_transport_from_device, validate_session_records,
};
use crate::plan::{and_then, bind, follow, lemma_follow_bind, Plan, Progress};
use crate::registry::{
    AuthenticatedDeviceSession, DeviceView, MembershipLifecycle, MembershipView, PrincipalView,
    RegisteredDevice, RegistryError, RegistryValidatedPrincipal, SessionView, WorkspaceMembership,
    WorkspaceRole,
};

verus! {

pub const SQLITE_SCHEMA_VERSION: i64 = 1;

/// Failure while opening or configuring the local registry database.
#[derive(Clone, Copy, PartialEq, Eq, Structural, Debug)]
pub enum DurableRegistrySqliteOpenError {
    Open,
    Configure,
    Migration,
    UnsupportedSchemaVersion,
}

impl DurableRegistrySqliteOpenError {
    /// The text shown to people for this error.
    pub open spec fn text(self) -> Seq<char> {
        match self {
            DurableRegistrySqliteOpenError::Open => "local registry database open failed"@,
            DurableRegistrySqliteOpenError::Configure => "local registry database configuration failed"@,
            DurableRegistrySqliteOpenError::Migration => "local registry database migration failed"@,
            DurableRegistrySqliteOpenError::UnsupportedSchemaVersion => "local registry database schema version unsupported"@,
        }
    }

    pub fn message(&self) -> (text: &'static str)
        ensures
            text@ == self.text(),
    {
        match self {
            DurableRegistrySqliteOpenError::Open => "local registry database open failed",
            DurableRegistrySqliteOpenError::Configure => "local registry database configuration failed",
            DurableRegistrySqliteOpenError::Migration => "local registry database migration failed",
            DurableRegistrySqliteOpenError::UnsupportedSchemaVersion => "local registry database schema version unsupported",
        }
    }
}

/// Result of one fresh-install owner authority bootstrap attempt.
#[derive(Clone, Copy, PartialEq, Eq, Structural, Debug)]
pub enum OwnerPcLocalAuthorityBootstrapOutcome {
    /// The empty local authority was initialized atomically.
    Initialized,
    /// The exact same owner membership, device binding, and transport identity were already current.
    AlreadyCurrent,
}

/// One thing the database is asked to do. `S` is the type of texts, `B` that of byte strings.
pub enum RegistryRequest<S, B> {
    /// Open the database, creating it when missing, and refusing a symbolic link.
    OpenReadWrite,
    /// Open an existing database for reading, refusing a symbolic link.
    OpenReadOnly,
    /// Turn the enforcement of foreign keys on.
    EnableForeignKeys,
    /// Ask for the write-ahead journal; the reply is the mode then in force.
    SetWriteAheadJournal,
    /// The journal mode in force.
    QueryJournalMode,
    /// Whether foreign keys are enforced, as a number.
    QueryForeignKeys,
    /// The schema version stored in the database.
    QueryUserVersion,
    /// Create both tables and set the schema version to 1.
    CreateSchema,
    /// Prepare a query over every column of the membership table.
    ProbeMemberships,
    /// Prepare a query over every column of the device table.
    ProbeDevices,
    /// Begin a transaction that may write.
    BeginImmediate,
    /// Begin a transaction that only reads.
    BeginDeferred,
    /// The record of a workspace and a user.
    SelectMembership(S, S),
    /// The record of a device.
    SelectDevice(S),
    /// Insert a record for a workspace and a user.
    InsertMembership(S, S, B),
    /// Insert a record for a device.
    InsertDevice(S, B),
    /// Replace the record of a workspace and a user.
    UpdateMembership(S, S, B),
    /// Replace the record of a device.
    UpdateDevice(S, B),
    /// Commit the transaction. Without it, everything done in it is rolled back.
    Commit,
}

/// What came of a request.
pub enum RegistryReply<S, B> {
    /// The record looked for, if there is one.
    Row(Option<B>),
    /// How many rows a write changed.
    Changed(u64),
    Integer(i64),
    Text(S),
    Completed,
    Failed,
}

pub type RegistryPlan<R> = Plan<
    RegistryRequest<Seq<char>, Seq<u8>>,
    RegistryReply<Seq<char>, Seq<u8>>,
    R,
>;

impl RegistryRequest<String, Vec<u8>> {
    pub open spec fn view(&self) -> RegistryRequest<Seq<char>, Seq<u8>> {
        match *self {
            RegistryRequest::OpenReadWrite => RegistryRequest::OpenReadWrite,
            RegistryRequest::OpenReadOnly => RegistryRequest::OpenReadOnly,
            RegistryRequest::EnableForeignKeys => RegistryRequest::EnableForeignKeys,
            RegistryRequest::SetWriteAheadJournal => RegistryRequest::SetWriteAheadJournal,
            RegistryRequest::QueryJournalMode => RegistryRequest::QueryJournalMode,
            RegistryRequest::QueryForeignKeys => RegistryRequest::QueryForeignKeys,
            RegistryRequest::QueryUserVersion => RegistryRequest::QueryUserVersion,
            RegistryRequest::CreateSchema => RegistryRequest::CreateSchema,
            RegistryRequest::ProbeMemberships => RegistryRequest::ProbeMemberships,
            RegistryRequest::ProbeDevices => RegistryRequest::ProbeDevices,
            RegistryRequest::BeginImmediate => RegistryRequest::BeginImmediate,
            RegistryRequest::BeginDeferred => RegistryRequest::BeginDeferred,
            RegistryRequest::SelectMembership(a, b) => RegistryRequest::SelectMembership(a@, b@),
            RegistryRequest::SelectDevice(a) => RegistryRequest::SelectDevice(a@),
            RegistryRequest::InsertMembership(a, b, c) => RegistryRequest::InsertMembership(a@, b@, c@),
            RegistryRequest::InsertDevice(a, b) => RegistryRequest::InsertDevice(a@, b@),
            RegistryRequest::UpdateMembership(a, b, c) => RegistryRequest::UpdateMembership(a@, b@, c@),
            RegistryRequest::UpdateDevice(a, b) => RegistryRequest::UpdateDevice(a@, b@),
            RegistryRequest::Commit => RegistryRequest::Commit,
        }
    }
}

impl RegistryReply<String, Vec<u8>> {
    pub open spec fn view(&self) -> RegistryReply<Seq<char>, Seq<u8>> {
        match *self {
            RegistryReply::Row(Some(bytes)) => RegistryReply::Row(Some(bytes@)),
            RegistryReply::Row(None) => RegistryReply::Row(None),
            RegistryReply::Changed(rows) => RegistryReply::Changed(rows),
            RegistryReply::Integer(value) => RegistryReply::Integer(value),
            RegistryReply::Text(text) => RegistryReply::Text(text@),
            RegistryReply::Completed => RegistryReply::Completed,
            RegistryReply::Failed => RegistryReply::Failed,
        }
    }
}

/// The replies as the plans see them.
pub open spec fn registry_reply_views(replies: Seq<RegistryReply<String, Vec<u8>>>) -> Seq<
    RegistryReply<Seq<char>, Seq<u8>>,
> {
    replies.map_values(|reply: RegistryReply<String, Vec<u8>>| reply@)
}

/// The database's replies so far, and how many of them have been used.
pub struct RegistryReplies<'a> {
    all: &'a Vec<RegistryReply<String, Vec<u8>>>,
    next: usize,
}

/// An operation went along `plan` from `before` to `after` and came to `outcome`: a value, or
/// the request that has to be performed first.
pub open spec fn registry_went_along<R>(
    plan: RegistryPlan<R>,
    before: RegistryReplies<'_>,
    outcome: Result<R, RegistryRequest<Seq<char>, Seq<u8>>>,
    after: RegistryReplies<'_>,
) -> bool {
    &&& after.wf()
    &&& follow(plan, before.rest()) == (
        match outcome {
            Ok(value) => Progress::Done(value),
            Err(request) => Progress::Waiting(request),
        },
        after.rest(),
    )
}

/// The outcome with the request as the plans see it.
pub open spec fn registry_seen<R>(outcome: Result<R, RegistryRequest<String, Vec<u8>>>) -> Result<
    R,
    RegistryRequest<Seq<char>, Seq<u8>>,
> {
    match outcome {
        Ok(value) => Ok(value),
        Err(request) => Err(request@),
    }
}

/// Ask for something that is either done or not.
pub open spec fn registry_perform(request: RegistryRequest<Seq<char>, Seq<u8>>) -> RegistryPlan<bool> {
    Plan::Ask(request, |reply: RegistryReply<Seq<char>, Seq<u8>>| Plan::Finish(reply is Completed))
}

/// Ask for a number.
pub open spec fn registry_integer(request: RegistryRequest<Seq<char>, Seq<u8>>) -> RegistryPlan<
    Option<i64>,
> {
    Plan::Ask(
        request,
        |reply: RegistryReply<Seq<char>, Seq<u8>>|
            Plan::Finish(
                match reply {
                    RegistryReply::Integer(value) => Some(value),
                    _ => None,
                },
            ),
    )
}

/// Ask for the journal mode; whether it is the write-ahead journal.
pub open spec fn registry_journal(request: RegistryRequest<Seq<char>, Seq<u8>>) -> RegistryPlan<bool> {
    Plan::Ask(
        request,
        |reply: RegistryReply<Seq<char>, Seq<u8>>|
            Plan::Finish(
                match reply {
                    RegistryReply::Text(mode) => is_write_ahead(mode),
                    _ => false,
                },
            ),
    )
}

/// Ask for a write; how many rows it changed.
pub open spec fn registry_write(request: RegistryRequest<Seq<char>, Seq<u8>>) -> RegistryPlan<
    Option<u64>,
> {
    Plan::Ask(
        request,
        |reply: RegistryReply<Seq<char>, Seq<u8>>|
            Plan::Finish(
                match reply {
                    RegistryReply::Changed(rows) => Some(rows),
                    _ => None,
                },
            ),
    )
}

/// Ask for a record; `None` when it cannot be read.
pub open spec fn registry_row(request: RegistryRequest<Seq<char>, Seq<u8>>) -> RegistryPlan<
    Option<Option<Seq<u8>>>,
> {
    Plan::Ask(
        request,
        |reply: RegistryReply<Seq<char>, Seq<u8>>|
            Plan::Finish(
                match reply {
                    RegistryReply::Row(row) => Some(row),
                    _ => None,
                },
            ),
    )
}

/// The journal mode is `wal`, in upper or lower case.
pub open spec fn is_write_ahead(mode: Seq<char>) -> bool {
    &&& mode.len() == 3
    &&& mode[0] == 'w' || mode[0] == 'W'
    &&& mode[1] == 'a' || mode[1] == 'A'
    &&& mode[2] == 'l' || mode[2] == 'L'
}

fn journal_is_write_ahead(mode: &str) -> (write_ahead: bool)
    ensures
        write_ahead == is_write_ahead(mode@),
{
    mode.unicode_len() == 3 && (mode.get_char(0) == 'w' || mode.get_char(0) == 'W') && (
    mode.get_char(1) == 'a' || mode.get_char(1) == 'A') && (mode.get_char(2) == 'l'
        || mode.get_char(2) == 'L')
}

impl<'a> RegistryReplies<'a> {
    pub closed spec fn wf(&self) -> bool {
        self.next <= self.all@.len()
    }

    /// The replies not used yet.
    pub closed spec fn rest(&self) -> Seq<RegistryReply<Seq<char>, Seq<u8>>> {
        registry_reply_views(self.all@).skip(self.next as int)
    }

    pub fn new(all: &'a Vec<RegistryReply<String, Vec<u8>>>) -> (replies: RegistryReplies<'a>)
        ensures
            replies.wf(),
            replies.rest() == registry_reply_views(all@),
    {
        let replies = RegistryReplies { all, next: 0 };
        assert(replies.rest() =~= registry_reply_views(all@));
        replies
    }

    /// Take the next reply, if one is there.
    pub fn take(&mut self) -> (reply: Option<&'a RegistryReply<String, Vec<u8>>>)
        requires
            old(self).wf(),
        ensures
            final(self).wf(),
            match reply {
                Some(taken) => old(self).rest().len() > 0 && taken@ == old(self).rest()[0]
                    && final(self).rest() == old(self).rest().drop_first(),
                None => old(self).rest().len() == 0 && final(self).rest() == old(self).rest(),
            },
    {
        if self.next < self.all.len() {
            let taken = &self.all[self.next];
            self.next = self.next + 1;
            assert(self.rest() =~= old(self).rest().drop_first());
            Some(taken)
        } else {
            None
        }
    }

    pub fn perform(&mut self, request: RegistryRequest<String, Vec<u8>>) -> (done: Result<
        bool,
        RegistryRequest<String, Vec<u8>>,
    >)
        requires
            old(self).wf(),
        ensures
            registry_went_along(
                registry_perform(request@),
                *old(self),
                registry_seen(done),
                *final(self),
            ),
    {
        proof {
            reveal_with_fuel(follow, 2);
        }
        match self.take() {
            None => Err(request),
            Some(RegistryReply::Completed) => Ok(true),
            Some(_) => Ok(false),
        }
    }

    pub fn integer(&mut self, request: RegistryRequest<String, Vec<u8>>) -> (value: Result<
        Option<i64>,
        RegistryRequest<String, Vec<u8>>,
    >)
        requires
            old(self).wf(),
        ensures
            registry_went_along(
                registry_integer(request@),
                *old(self),
                registry_seen(value),
                *final(self),
            ),
    {
        proof {
            reveal_with_fuel(follow, 2);
        }
        match self.take() {
            None => Err(request),
            Some(RegistryReply::Integer(value)) => Ok(Some(*value)),
            Some(_) => Ok(None),
        }
    }

    pub fn journal(&mut self, request: RegistryRequest<String, Vec<u8>>) -> (write_ahead: Result<
        bool,
        RegistryRequest<String, Vec<u8>>,
    >)
        requires
            old(self).wf(),
        ensures
            registry_went_along(
                registry_journal(request@),
                *old(self),
                registry_seen(write_ahead),
                *final(self),
            ),
    {
        proof {
            reveal_with_fuel(follow, 2);
        }
        match self.take() {
            None => Err(request),
            Some(RegistryReply::Text(mode)) => Ok(journal_is_write_ahead(mode.as_str())),
            Some(_) => Ok(false),
        }
    }

    pub fn write(&mut self, request: RegistryRequest<String, Vec<u8>>) -> (rows: Result<
        Option<u64>,
        RegistryRequest<String, Vec<u8>>,
    >)
        requires
            old(self).wf(),
        ensures
            registry_went_along(
                registry_write(request@),
                *old(self),
                registry_seen(rows),
                *final(self),
            ),
    {
        proof {
            reveal_with_fuel(follow, 2);
        }
        match self.take() {
            None => Err(request),
            Some(RegistryReply::Changed(rows)) => Ok(Some(*rows)),
            Some(_) => Ok(None),
        }
    }

    pub fn row(&mut self, request: RegistryRequest<String, Vec<u8>>) -> (row: Result<
        Option<Option<&'a Vec<u8>>>,
        RegistryRequest<String, Vec<u8>>,
    >)
        requires
            old(self).wf(),
        ensures
            registry_went_along(
                registry_row(request@),
                *old(self),
                match row {
                    Ok(Some(Some(bytes))) => Ok(Some(Some(bytes@))),
                    Ok(Some(None)) => Ok(Some(None)),
                    Ok(None) => Ok(None),
                    Err(pending) => Err(pending@),
                },
                *final(self),
            ),
    {
        proof {
            reveal_with_fuel(follow, 2);
        }
        match self.take() {
            None => Err(request),
            Some(RegistryReply::Row(Some(bytes))) => Ok(Some(Some(bytes))),
            Some(RegistryReply::Row(None)) => Ok(Some(None)),
            Some(_) => Ok(None),
        }
    }
}

/// Both tables have the columns of schema version 1.
pub open spec fn verify_schema_plan() -> RegistryPlan<Result<(), DurableRegistrySqliteOpenError>> {
    bind(
        registry_perform(RegistryRequest::ProbeMemberships),
        |memberships: bool|
            if !memberships {
                Plan::Finish(Err(DurableRegistrySqliteOpenError::Migration))
            } else {
                bind(
                    registry_perform(RegistryRequest::ProbeDevices),
                    |devices: bool|
                        Plan::Finish(
                            if devices {
                                Ok(())
                            } else {
                                Err(DurableRegistrySqliteOpenError::Migration)
                            },
                        ),
                )
            },
    )
}

fn verify_schema_v1(replies: &mut RegistryReplies<'_>) -> (verified: Result<
    Result<(), DurableRegistrySqliteOpenError>,
    RegistryRequest<String, Vec<u8>>,
>)
    requires
        old(replies).wf(),
    ensures
        registry_went_along(
            verify_schema_plan(),
            *old(replies),
            registry_seen(verified),
            *final(replies),
        ),
{
    broadcast use lemma_follow_bind;

    if !replies.perform(RegistryRequest::ProbeMemberships)? {
        return Ok(Err(DurableRegistrySqliteOpenError::Migration));
    }
    if !replies.perform(RegistryRequest::ProbeDevices)? {
        return Ok(Err(DurableRegistrySqliteOpenError::Migration));
    }
    Ok(Ok(()))
}

/// Create the tables in one transaction.
pub open spec fn create_schema_plan() -> RegistryPlan<Result<(), DurableRegistrySqliteOpenError>> {
    bind(
        registry_perform(RegistryRequest::BeginImmediate),
        |begun: bool|
            if !begun {
                Plan::Finish(Err(DurableRegistrySqliteOpenError::Migration))
            } else {
                bind(
                    registry_perform(RegistryRequest::CreateSchema),
                    |created: bool|
                        if !created {
                            Plan::Finish(Err(DurableRegistrySqliteOpenError::Migration))
                        } else {
                            bind(
                                registry_perform(RegistryRequest::Commit),
                                |committed: bool|
                                    Plan::Finish(
                                        if committed {
                                            Ok(())
                                        } else {
                                            Err(DurableRegistrySqliteOpenError::Migration)
                                        },
                                    ),
                            )
                        },
                )
            },
    )
}

/// Bring the schema to version 1: create it in a new database, verify it in a current one, and
/// refuse any other.
pub open spec fn migrate_plan() -> RegistryPlan<Result<(), DurableRegistrySqliteOpenError>> {
    bind(
        registry_integer(RegistryRequest::QueryUserVersion),
        |version: Option<i64>|
            match version {
                None => Plan::Finish(Err(DurableRegistrySqliteOpenError::Migration)),
                Some(found) => if found == 0 {
                    create_schema_plan()
                } else if found == SQLITE_SCHEMA_VERSION {
                    verify_schema_plan()
                } else {
                    Plan::Finish(Err(DurableRegistrySqliteOpenError::UnsupportedSchemaVersion))
                },
            },
    )
}

fn migrate_schema(replies: &mut RegistryReplies<'_>) -> (migrated: Result<
    Result<(), DurableRegistrySqliteOpenError>,
    RegistryRequest<String, Vec<u8>>,
>)
    requires
        old(replies).wf(),
    ensures
        registry_went_along(
            migrate_plan(),
            *old(replies),
            registry_seen(migrated),
            *final(replies),
        ),
{
    broadcast use lemma_follow_bind;

    let version: i64 = match replies.integer(RegistryRequest::QueryUserVersion)? {
        Some(version) => version,
        None => {
            return Ok(Err(DurableRegistrySqliteOpenError::Migration));
        },
    };
    if version == 0 {
        if !replies.perform(RegistryRequest::BeginImmediate)? {
            return Ok(Err(DurableRegistrySqliteOpenError::Migration));
        }
        if !replies.perform(RegistryRequest::CreateSchema)? {
            return Ok(Err(DurableRegistrySqliteOpenError::Migration));
        }
        if !replies.perform(RegistryRequest::Commit)? {
            return Ok(Err(DurableRegistrySqliteOpenError::Migration));
        }
        return Ok(Ok(()));
    }
    if version == SQLITE_SCHEMA_VERSION {
        return verify_schema_v1(replies);
    }
    Ok(Err(DurableRegistrySqliteOpenError::UnsupportedSchemaVersion))
}

/// Open the database for reading and writing, with the write-ahead journal and foreign keys on,
/// and bring its schema up.
pub open spec fn open_plan() -> RegistryPlan<Result<(), DurableRegistrySqliteOpenError>> {
    bind(
        registry_perform(RegistryRequest::OpenReadWrite),
        |opened: bool|
            if !opened {
                Plan::Finish(Err(DurableRegistrySqliteOpenError::Open))
            } else {
                and_then(configure_plan(), |_configured: ()| migrate_plan())
            },
    )
}

pub open spec fn configure_plan() -> RegistryPlan<Result<(), DurableRegistrySqliteOpenError>> {
    bind(
        registry_perform(RegistryRequest::EnableForeignKeys),
        |enabled: bool|
            if !enabled {
                Plan::Finish(Err(DurableRegistrySqliteOpenError::Configure))
            } else {
                bind(
                    registry_journal(RegistryRequest::SetWriteAheadJournal),
                    |write_ahead: bool|
                        if !write_ahead {
                            Plan::Finish(Err(DurableRegistrySqliteOpenError::Configure))
                        } else {
                            bind(
                                registry_integer(RegistryRequest::QueryForeignKeys),
                                |foreign_keys: Option<i64>|
                                    Plan::Finish(
                                        if foreign_keys == Some(1i64) {
                                            Ok(())
                                        } else {
                                            Err(DurableRegistrySqliteOpenError::Configure)
                                        },
                                    ),
                            )
                        },
                )
            },
    )
}

fn configure(replies: &mut RegistryReplies<'_>) -> (configured: Result<
    Result<(), DurableRegistrySqliteOpenError>,
    RegistryRequest<String, Vec<u8>>,
>)
    requires
        old(replies).wf(),
    ensures
        registry_went_along(
            configure_plan(),
            *old(replies),
            registry_seen(configured),
            *final(replies),
        ),
{
    broadcast use lemma_follow_bind;

    if !replies.perform(RegistryRequest::EnableForeignKeys)? {
        return Ok(Err(DurableRegistrySqliteOpenError::Configure));
    }
    if !replies.journal(RegistryRequest::SetWriteAheadJournal)? {
        return Ok(Err(DurableRegistrySqliteOpenError::Configure));
    }
    match replies.integer(RegistryRequest::QueryForeignKeys)? {
        Some(1) => Ok(Ok(())),
        _ => Ok(Err(DurableRegistrySqliteOpenError::Configure)),
    }
}

/// Open an existing database for reading only; nothing is created, changed or migrated.
pub open spec fn open_existing_plan() -> RegistryPlan<Result<(), DurableRegistrySqliteOpenError>> {
    bind(
        registry_perform(RegistryRequest::OpenReadOnly),
        |opened: bool|
            if !opened {
                Plan::Finish(Err(DurableRegistrySqliteOpenError::Open))
            } else {
                bind(
                    registry_journal(RegistryRequest::QueryJournalMode),
                    |write_ahead: bool|
                        if !write_ahead {
                            Plan::Finish(Err(DurableRegistrySqliteOpenError::Configure))
                        } else {
                            bind(
                                registry_integer(RegistryRequest::QueryUserVersion),
                                |version: Option<i64>|
                                    match version {
                                        None => Plan::Finish(
                                            Err(DurableRegistrySqliteOpenError::Configure),
                                        ),
                                        Some(found) => if found == SQLITE_SCHEMA_VERSION {
                                            verify_schema_plan()
                                        } else {
                                            Plan::Finish(
                                                Err(
                                                    DurableRegistrySqliteOpenError::UnsupportedSchemaVersion,
                                                ),
                                            )
                                        },
                                    },
                            )
                        },
                )
            },
    )
}

pub(crate) fn open_steps(replies: &mut RegistryReplies<'_>) -> (opened: Result<
    Result<(), DurableRegistrySqliteOpenError>,
    RegistryRequest<String, Vec<u8>>,
>)
    requires
        old(replies).wf(),
    ensures
        registry_went_along(open_plan(), *old(replies), registry_seen(opened), *final(replies)),
{
    broadcast use lemma_follow_bind;

    if !replies.perform(RegistryRequest::OpenReadWrite)? {
        return Ok(Err(DurableRegistrySqliteOpenError::Open));
    }
    if let Err(error) = configure(replies)? {
        return Ok(Err(error));
    }
    migrate_schema(replies)
}

pub(crate) fn open_existing_steps(replies: &mut RegistryReplies<'_>) -> (opened: Result<
    Result<(), DurableRegistrySqliteOpenError>,
    RegistryRequest<String, Vec<u8>>,
>)
    requires
        old(replies).wf(),
    ensures
        registry_went_along(
            open_existing_plan(),
            *old(replies),
            registry_seen(opened),
            *final(replies),
        ),
{
    broadcast use lemma_follow_bind;

    if !replies.perform(RegistryRequest::OpenReadOnly)? {
        return Ok(Err(DurableRegistrySqliteOpenError::Open));
    }
    if !replies.journal(RegistryRequest::QueryJournalMode)? {
        return Ok(Err(DurableRegistrySqliteOpenError::Configure));
    }
    match replies.integer(RegistryRequest::QueryUserVersion)? {
        None => Ok(Err(DurableRegistrySqliteOpenError::Configure)),
        Some(version) => if version == SQLITE_SCHEMA_VERSION {
            verify_schema_v1(replies)
        } else {
            Ok(Err(DurableRegistrySqliteOpenError::UnsupportedSchemaVersion))
        },
    }
}

/// The membership that a stored record stands for, under the identifiers it is kept under.
pub open spec fn decoded_membership(record: Seq<u8>, workspace: Seq<char>, user: Seq<char>) -> Option<
    MembershipView,
> {
    if exists|membership: MembershipView|
        membership.workspace == workspace && membership.user == user
            && #[trigger] encoded_membership(membership) == Some(record) {
        Some(
            choose|membership: MembershipView|
                membership.workspace == workspace && membership.user == user
                    && #[trigger] encoded_membership(membership) == Some(record),
        )
    } else {
        None
    }
}

/// The device that a stored record stands for, under the identifier it is kept under.
pub open spec fn decoded_device(record: Seq<u8>, device: Seq<char>) -> Option<DeviceView> {
    if exists|found: DeviceView|
        found.binding.device == device && is_storable(found) && #[trigger] encoded_device(found)
            == Some(record) {
        Some(
            choose|found: DeviceView|
                found.binding.device == device && is_storable(found) && #[trigger] encoded_device(
                    found,
                ) == Some(record),
        )
    } else {
        None
    }
}

/// A stored membership decodes to the membership that was stored.
pub proof fn lemma_decoded_membership(membership: MembershipView, record: Seq<u8>)
    requires
        encoded_membership(membership) == Some(record),
    ensures
        decoded_membership(record, membership.workspace, membership.user) == Some(membership),
{
    let found = decoded_membership(record, membership.workspace, membership.user)->0;
    crate::durable_registry_codec::lemma_membership_encoding_is_injective(found, membership);
}

/// A stored device decodes to the device that was stored.
pub proof fn lemma_decoded_device(device: DeviceView, record: Seq<u8>)
    requires
        is_storable(device),
        encoded_device(device) == Some(record),
    ensures
        decoded_device(record, device.binding.device) == Some(device),
{
    let found = decoded_device(record, device.binding.device)->0;
    crate::durable_registry_codec::lemma_device_encoding_is_injective(found, device);
}

/// Read one membership.
pub open spec fn load_membership_plan(workspace: Seq<char>, user: Seq<char>) -> RegistryPlan<
    Result<Option<MembershipView>, DurableRegistryAuthorityError>,
> {
    bind(
        registry_row(RegistryRequest::SelectMembership(workspace, user)),
        |row: Option<Option<Seq<u8>>>|
            Plan::Finish(
                match row {
                    None => Err(DurableRegistryAuthorityError::ReadUnavailable),
                    Some(None) => Ok(None),
                    Some(Some(record)) => match decoded_membership(record, workspace, user) {
                        Some(membership) => Ok(Some(membership)),
                        None => Err(DurableRegistryAuthorityError::InvalidAuthority),
                    },
                },
            ),
    )
}

/// Read one device.
pub open spec fn load_device_plan(device: Seq<char>) -> RegistryPlan<
    Result<Option<DeviceView>, DurableRegistryAuthorityError>,
> {
    bind(
        registry_row(RegistryRequest::SelectDevice(device)),
        |row: Option<Option<Seq<u8>>>|
            Plan::Finish(
                match row {
                    None => Err(DurableRegistryAuthorityError::ReadUnavailable),
                    Some(None) => Ok(None),
                    Some(Some(record)) => match decoded_device(record, device) {
                        Some(found) => Ok(Some(found)),
                        None => Err(DurableRegistryAuthorityError::InvalidAuthority),
                    },
                },
            ),
    )
}

/// A membership that was read, as the plans see it.
pub open spec fn membership_read(
    read: Result<Option<WorkspaceMembership>, DurableRegistryAuthorityError>,
) -> Result<Option<MembershipView>, DurableRegistryAuthorityError> {
    match read {
        Ok(Some(membership)) => Ok(Some(membership@)),
        Ok(None) => Ok(None),
        Err(error) => Err(error),
    }
}

/// A device that was read, as the plans see it.
pub open spec fn device_read(read: Result<Option<RegisteredDevice>, DurableRegistryAuthorityError>) -> Result<
    Option<DeviceView>,
    DurableRegistryAuthorityError,
> {
    match read {
        Ok(Some(device)) => Ok(Some(device@)),
        Ok(None) => Ok(None),
        Err(error) => Err(error),
    }
}

pub(crate) fn load_membership(
    replies: &mut RegistryReplies<'_>,
    workspace_id: &WorkspaceId,
    user_id: &UserId,
) -> (loaded: Result<
    Result<Option<WorkspaceMembership>, DurableRegistryAuthorityError>,
    RegistryRequest<String, Vec<u8>>,
>)
    requires
        old(replies).wf(),
    ensures
        registry_went_along(
            load_membership_plan(workspace_id@, user_id@),
            *old(replies),
            match loaded {
                Ok(read) => Ok(membership_read(read)),
                Err(request) => Err(request@),
            },
            *final(replies),
        ),
{
    broadcast use lemma_follow_bind;

    let request = RegistryRequest::SelectMembership(
        workspace_id.as_str().to_owned(),
        user_id.as_str().to_owned(),
    );
    match replies.row(request)? {
        None => Ok(Err(DurableRegistryAuthorityError::ReadUnavailable)),
        Some(None) => Ok(Ok(None)),
        Some(Some(record)) => match decode_bound_membership_record(
            record.as_slice(),
            workspace_id,
            user_id,
        ) {
            Ok(membership) => {
                proof {
                    lemma_decoded_membership(membership@, record@);
                }
                Ok(Ok(Some(membership)))
            },
            Err(_) => Ok(Err(DurableRegistryAuthorityError::InvalidAuthority)),
        },
    }
}

pub(crate) fn load_device(replies: &mut RegistryReplies<'_>, device_id: &DeviceId) -> (loaded: Result<
    Result<Option<RegisteredDevice>, DurableRegistryAuthorityError>,
    RegistryRequest<String, Vec<u8>>,
>)
    requires
        old(replies).wf(),
    ensures
        registry_went_along(
            load_device_plan(device_id@),
            *old(replies),
            match loaded {
                Ok(read) => Ok(device_read(read)),
                Err(request) => Err(request@),
            },
            *final(replies),
        ),
{
    broadcast use lemma_follow_bind;

    match replies.row(RegistryRequest::SelectDevice(device_id.as_str().to_owned()))? {
        None => Ok(Err(DurableRegistryAuthorityError::ReadUnavailable)),
        Some(None) => Ok(Ok(None)),
        Some(Some(record)) => match decode_bound_device_record(record.as_slice(), device_id) {
            Ok(device) => {
                proof {
                    lemma_decoded_device(device@, record@);
                }
                Ok(Ok(Some(device)))
            },
            Err(_) => Ok(Err(DurableRegistryAuthorityError::InvalidAuthority)),
        },
    }
}

/// Begin a transaction that may write.
pub open spec fn begin_plan() -> RegistryPlan<Result<(), DurableRegistryAuthorityError>> {
    bind(
        registry_perform(RegistryRequest::BeginImmediate),
        |begun: bool|
            Plan::Finish(
                if begun {
                    Ok(())
                } else {
                    Err(DurableRegistryAuthorityError::MutationIndeterminate)
                },
            ),
    )
}

/// Commit what was written.
pub open spec fn commit_plan() -> RegistryPlan<Result<(), DurableRegistryAuthorityError>> {
    bind(
        registry_perform(RegistryRequest::Commit),
        |committed: bool|
            Plan::Finish(
                if committed {
                    Ok(())
                } else {
                    Err(DurableRegistryAuthorityError::MutationIndeterminate)
                },
            ),
    )
}

/// Write one row; `unexpected` when it is not exactly one.
pub open spec fn write_one_plan(
    request: RegistryRequest<Seq<char>, Seq<u8>>,
    unexpected: DurableRegistryAuthorityError,
) -> RegistryPlan<Result<(), DurableRegistryAuthorityError>> {
    bind(
        registry_write(request),
        |rows: Option<u64>|
            Plan::Finish(
                match rows {
                    None => Err(DurableRegistryAuthorityError::MutationIndeterminate),
                    Some(changed) => if changed == 1 {
                        Ok(())
                    } else {
                        Err(unexpected)
                    },
                },
            ),
    )
}

fn begin(replies: &mut RegistryReplies<'_>) -> (begun: Result<
    Result<(), DurableRegistryAuthorityError>,
    RegistryRequest<String, Vec<u8>>,
>)
    requires
        old(replies).wf(),
    ensures
        registry_went_along(begin_plan(), *old(replies), registry_seen(begun), *final(replies)),
{
    broadcast use lemma_follow_bind;

    if replies.perform(RegistryRequest::BeginImmediate)? {
        Ok(Ok(()))
    } else {
        Ok(Err(DurableRegistryAuthorityError::MutationIndeterminate))
    }
}

fn commit(replies: &mut RegistryReplies<'_>) -> (committed: Result<
    Result<(), DurableRegistryAuthorityError>,
    RegistryRequest<String, Vec<u8>>,
>)
    requires
        old(replies).wf(),
    ensures
        registry_went_along(commit_plan(), *old(replies), registry_seen(committed), *final(replies)),
{
    broadcast use lemma_follow_bind;

    if replies.perform(RegistryRequest::Commit)? {
        Ok(Ok(()))
    } else {
        Ok(Err(DurableRegistryAuthorityError::MutationIndeterminate))
    }
}

fn write_one(
    replies: &mut RegistryReplies<'_>,
    request: RegistryRequest<String, Vec<u8>>,
    unexpected: DurableRegistryAuthorityError,
) -> (written: Result<Result<(), DurableRegistryAuthorityError>, RegistryRequest<String, Vec<u8>>>)
    requires
        old(replies).wf(),
    ensures
        registry_went_along(
            write_one_plan(request@, unexpected),
            *old(replies),
            registry_seen(written),
            *final(replies),
        ),
{
    broadcast use lemma_follow_bind;

    match replies.write(request)? {
        None => Ok(Err(DurableRegistryAuthorityError::MutationIndeterminate)),
        Some(rows) => if rows == 1 {
            Ok(Ok(()))
        } else {
            Ok(Err(unexpected))
        },
    }
}

/// Create an active membership where there is none.
pub open spec fn add_membership_plan(membership: MembershipView) -> RegistryPlan<
    Result<(), DurableRegistryAuthorityError>,
> {
    and_then(
        begin_plan(),
        |_begun: ()|
            and_then(
                load_membership_plan(membership.workspace, membership.user),
                |existing: Option<MembershipView>|
                    if existing is Some {
                        Plan::Finish(
                            Err(
                                DurableRegistryAuthorityError::Semantic(
                                    RegistryError::MembershipAlreadyExists,
                                ),
                            ),
                        )
                    } else {
                        insert_membership_plan(membership)
                    },
            ),
    )
}

pub open spec fn insert_membership_plan(membership: MembershipView) -> RegistryPlan<
    Result<(), DurableRegistryAuthorityError>,
> {
    match encoded_membership(membership) {
        None => Plan::Finish(Err(DurableRegistryAuthorityError::InvalidAuthority)),
        Some(record) => and_then(
            write_one_plan(
                RegistryRequest::InsertMembership(membership.workspace, membership.user, record),
                DurableRegistryAuthorityError::InvalidAuthority,
            ),
            |_written: ()| commit_plan(),
        ),
    }
}

fn insert_membership(replies: &mut RegistryReplies<'_>, membership: &WorkspaceMembership) -> (inserted: Result<
    Result<(), DurableRegistryAuthorityError>,
    RegistryRequest<String, Vec<u8>>,
>)
    requires
        old(replies).wf(),
    ensures
        registry_went_along(
            insert_membership_plan(membership@),
            *old(replies),
            registry_seen(inserted),
            *final(replies),
        ),
{
    broadcast use lemma_follow_bind;

    let record = match encode_membership_value(membership) {
        Ok(record) => record,
        Err(_) => {
            return Ok(Err(DurableRegistryAuthorityError::InvalidAuthority));
        },
    };
    let request = RegistryRequest::InsertMembership(
        membership.workspace_id().as_str().to_owned(),
        membership.user_id().as_str().to_owned(),
        record,
    );
    if let Err(error) = write_one(replies, request, DurableRegistryAuthorityError::InvalidAuthority)? {
        return Ok(Err(error));
    }
    commit(replies)
}

fn add_membership_steps(replies: &mut RegistryReplies<'_>, membership: &WorkspaceMembership) -> (added: Result<
    Result<(), DurableRegistryAuthorityError>,
    RegistryRequest<String, Vec<u8>>,
>)
    requires
        old(replies).wf(),
    ensures
        registry_went_along(
            add_membership_plan(membership@),
            *old(replies),
            registry_seen(added),
            *final(replies),
        ),
{
    broadcast use lemma_follow_bind;

    if let Err(error) = begin(replies)? {
        return Ok(Err(error));
    }
    match load_membership(replies, membership.workspace_id(), membership.user_id())? {
        Err(error) => Ok(Err(error)),
        Ok(Some(_)) => Ok(
            Err(DurableRegistryAuthorityError::Semantic(RegistryError::MembershipAlreadyExists)),
        ),
        Ok(None) => insert_membership(replies, membership),
    }
}

/// Apply one change to a membership that exists.
pub open spec fn update_membership_plan(
    workspace: Seq<char>,
    user: Seq<char>,
    change: MembershipChange,
) -> RegistryPlan<Result<(), DurableRegistryAuthorityError>> {
    and_then(
        begin_plan(),
        |_begun: ()|
            and_then(
                load_membership_plan(workspace, user),
                |found: Option<MembershipView>|
                    match found {
                        None => Plan::Finish(
                            Err(
                                DurableRegistryAuthorityError::Semantic(
                                    RegistryError::MembershipUnknown,
                                ),
                            ),
                        ),
                        Some(current) => match changed_membership(current, change) {
                            Err(error) => Plan::Finish(Err(error)),
                            Ok(successor) => replace_membership_plan(workspace, user, successor),
                        },
                    },
            ),
    )
}

pub open spec fn replace_membership_plan(
    workspace: Seq<char>,
    user: Seq<char>,
    successor: MembershipView,
) -> RegistryPlan<Result<(), DurableRegistryAuthorityError>> {
    match encoded_membership(successor) {
        None => Plan::Finish(Err(DurableRegistryAuthorityError::InvalidAuthority)),
        Some(record) => and_then(
            write_one_plan(
                RegistryRequest::UpdateMembership(workspace, user, record),
                DurableRegistryAuthorityError::CurrentnessConflict,
            ),
            |_written: ()| commit_plan(),
        ),
    }
}

fn replace_membership(
    replies: &mut RegistryReplies<'_>,
    workspace_id: &WorkspaceId,
    user_id: &UserId,
    successor: &WorkspaceMembership,
) -> (replaced: Result<Result<(), DurableRegistryAuthorityError>, RegistryRequest<String, Vec<u8>>>)
    requires
        old(replies).wf(),
    ensures
        registry_went_along(
            replace_membership_plan(workspace_id@, user_id@, successor@),
            *old(replies),
            registry_seen(replaced),
            *final(replies),
        ),
{
    broadcast use lemma_follow_bind;

    let record = match encode_membership_value(successor) {
        Ok(record) => record,
        Err(_) => {
            return Ok(Err(DurableRegistryAuthorityError::InvalidAuthority));
        },
    };
    let request = RegistryRequest::UpdateMembership(
        workspace_id.as_str().to_owned(),
        user_id.as_str().to_owned(),
        record,
    );
    if let Err(error) = write_one(
        replies,
        request,
        DurableRegistryAuthorityError::CurrentnessConflict,
    )? {
        return Ok(Err(error));
    }
    commit(replies)
}

fn update_membership_steps(
    replies: &mut RegistryReplies<'_>,
    workspace_id: &WorkspaceId,
    user_id: &UserId,
    change: MembershipChange,
) -> (updated: Result<Result<(), DurableRegistryAuthorityError>, RegistryRequest<String, Vec<u8>>>)
    requires
        old(replies).wf(),
    ensures
        registry_went_along(
            update_membership_plan(workspace_id@, user_id@, change),
            *old(replies),
            registry_seen(updated),
            *final(replies),
        ),
{
    broadcast use lemma_follow_bind;

    if let Err(error) = begin(replies)? {
        return Ok(Err(error));
    }
    match load_membership(replies, workspace_id, user_id)? {
        Err(error) => Ok(Err(error)),
        Ok(None) => Ok(
            Err(DurableRegistryAuthorityError::Semantic(RegistryError::MembershipUnknown)),
        ),
        Ok(Some(current)) => match membership_successor(&current, change) {
            Err(error) => Ok(Err(error)),
            Ok(successor) => replace_membership(replies, workspace_id, user_id, &successor),
        },
    }
}

/// Apply one change to a device that exists.
pub open spec fn update_device_plan(device: Seq<char>, change: DeviceChange) -> RegistryPlan<
    Result<(), DurableRegistryAuthorityError>,
> {
    and_then(
        begin_plan(),
        |_begun: ()|
            and_then(
                load_device_plan(device),
                |found: Option<DeviceView>|
                    match found {
                        None => Plan::Finish(
                            Err(
                                DurableRegistryAuthorityError::Semantic(RegistryError::DeviceUnknown),
                            ),
                        ),
                        Some(current) => match changed_device(current, change) {
                            Err(error) => Plan::Finish(Err(error)),
                            Ok(successor) => replace_device_plan(device, successor),
                        },
                    },
            ),
    )
}

pub open spec fn replace_device_plan(device: Seq<char>, successor: DeviceView) -> RegistryPlan<
    Result<(), DurableRegistryAuthorityError>,
> {
    match encoded_device(successor) {
        None => Plan::Finish(Err(DurableRegistryAuthorityError::InvalidAuthority)),
        Some(record) => and_then(
            write_one_plan(
                RegistryRequest::UpdateDevice(device, record),
                DurableRegistryAuthorityError::CurrentnessConflict,
            ),
            |_written: ()| commit_plan(),
        ),
    }
}

fn replace_device(
    replies: &mut RegistryReplies<'_>,
    device_id: &DeviceId,
    successor: &RegisteredDevice,
) -> (replaced: Result<Result<(), DurableRegistryAuthorityError>, RegistryRequest<String, Vec<u8>>>)
    requires
        old(replies).wf(),
    ensures
        registry_went_along(
            replace_device_plan(device_id@, successor@),
            *old(replies),
            registry_seen(replaced),
            *final(replies),
        ),
{
    broadcast use lemma_follow_bind;

    let record = match encode_device_value(successor) {
        Ok(record) => record,
        Err(_) => {
            return Ok(Err(DurableRegistryAuthorityError::InvalidAuthority));
        },
    };
    let request = RegistryRequest::UpdateDevice(device_id.as_str().to_owned(), record);
    if let Err(error) = write_one(
        replies,
        request,
        DurableRegistryAuthorityError::CurrentnessConflict,
    )? {
        return Ok(Err(error));
    }
    commit(replies)
}

fn update_device_steps(
    replies: &mut RegistryReplies<'_>,
    device_id: &DeviceId,
    change: DeviceChange,
) -> (updated: Result<Result<(), DurableRegistryAuthorityError>, RegistryRequest<String, Vec<u8>>>)
    requires
        old(replies).wf(),
    ensures
        registry_went_along(
            update_device_plan(device_id@, change),
            *old(replies),
            registry_seen(updated),
            *final(replies),
        ),
{
    broadcast use lemma_follow_bind;

    if let Err(error) = begin(replies)? {
        return Ok(Err(error));
    }
    match load_device(replies, device_id)? {
        Err(error) => Ok(Err(error)),
        Ok(None) => Ok(Err(DurableRegistryAuthorityError::Semantic(RegistryError::DeviceUnknown))),
        Ok(Some(current)) => match device_successor(&current, change) {
            Err(error) => Ok(Err(error)),
            Ok(successor) => replace_device(replies, device_id, &successor),
        },
    }
}

/// Register an enrolled device without a transport identity under an active membership.
pub open spec fn register_device_plan(binding: BindingView) -> RegistryPlan<
    Result<(), DurableRegistryAuthorityError>,
> {
    if binding.lifecycle != DeviceLifecycle::Enrolled {
        Plan::Finish(
            Err(DurableRegistryAuthorityError::Semantic(RegistryError::DeviceNotEnrolled)),
        )
    } else {
        and_then(
            begin_plan(),
            |_begun: ()|
                and_then(
                    load_membership_plan(binding.workspace, binding.user),
                    |found: Option<MembershipView>|
                        match found {
                            None => Plan::Finish(
                                Err(
                                    DurableRegistryAuthorityError::Semantic(
                                        RegistryError::MembershipUnknown,
                                    ),
                                ),
                            ),
                            Some(membership) => if membership.lifecycle
                                != MembershipLifecycle::Active {
                                Plan::Finish(
                                    Err(
                                        DurableRegistryAuthorityError::Semantic(
                                            RegistryError::MembershipNotActive,
                                        ),
                                    ),
                                )
                            } else {
                                register_under_membership_plan(binding)
                            },
                        },
                ),
        )
    }
}

pub open spec fn register_under_membership_plan(binding: BindingView) -> RegistryPlan<
    Result<(), DurableRegistryAuthorityError>,
> {
    and_then(
        load_device_plan(binding.device),
        |existing: Option<DeviceView>|
            if existing is Some {
                Plan::Finish(
                    Err(DurableRegistryAuthorityError::Semantic(RegistryError::DeviceAlreadyExists)),
                )
            } else {
                match encoded_device(DeviceView { binding, transport_identity: None }) {
                    None => Plan::Finish(Err(DurableRegistryAuthorityError::InvalidAuthority)),
                    Some(record) => and_then(
                        write_one_plan(
                            RegistryRequest::InsertDevice(binding.device, record),
                            DurableRegistryAuthorityError::InvalidAuthority,
                        ),
                        |_written: ()| commit_plan(),
                    ),
                }
            },
    )
}

fn register_under_membership(replies: &mut RegistryReplies<'_>, device: &RegisteredDevice) -> (registered: Result<
    Result<(), DurableRegistryAuthorityError>,
    RegistryRequest<String, Vec<u8>>,
>)
    requires
        old(replies).wf(),
        device@.transport_identity is None,
    ensures
        registry_went_along(
            register_under_membership_plan(device@.binding),
            *old(replies),
            registry_seen(registered),
            *final(replies),
        ),
{
    broadcast use lemma_follow_bind;

    let device_id = &device.binding().device_id;
    match load_device(replies, device_id)? {
        Err(error) => {
            return Ok(Err(error));
        },
        Ok(Some(_)) => {
            return Ok(
                Err(DurableRegistryAuthorityError::Semantic(RegistryError::DeviceAlreadyExists)),
            );
        },
        Ok(None) => {},
    }
    let record = match encode_device_value(device) {
        Ok(record) => record,
        Err(_) => {
            return Ok(Err(DurableRegistryAuthorityError::InvalidAuthority));
        },
    };
    let request = RegistryRequest::InsertDevice(device_id.as_str().to_owned(), record);
    if let Err(error) = write_one(replies, request, DurableRegistryAuthorityError::InvalidAuthority)? {
        return Ok(Err(error));
    }
    commit(replies)
}

fn register_device_steps(replies: &mut RegistryReplies<'_>, device: &RegisteredDevice) -> (registered: Result<
    Result<(), DurableRegistryAuthorityError>,
    RegistryRequest<String, Vec<u8>>,
>)
    requires
        old(replies).wf(),
        device@.transport_identity is None,
    ensures
        registry_went_along(
            register_device_plan(device@.binding),
            *old(replies),
            registry_seen(registered),
            *final(replies),
        ),
{
    broadcast use lemma_follow_bind;

    let binding = device.binding();
    if binding.lifecycle != DeviceLifecycle::Enrolled {
        return Ok(Err(DurableRegistryAuthorityError::Semantic(RegistryError::DeviceNotEnrolled)));
    }
    if let Err(error) = begin(replies)? {
        return Ok(Err(error));
    }
    match load_membership(replies, &binding.workspace_id, &binding.user_id)? {
        Err(error) => Ok(Err(error)),
        Ok(None) => Ok(
            Err(DurableRegistryAuthorityError::Semantic(RegistryError::MembershipUnknown)),
        ),
        Ok(Some(membership)) => if membership.lifecycle() != MembershipLifecycle::Active {
            Ok(Err(DurableRegistryAuthorityError::Semantic(RegistryError::MembershipNotActive)))
        } else {
            register_under_membership(replies, device)
        },
    }
}

/// Read the current transport identity of a device.
pub open spec fn current_transport_plan(device: Seq<char>) -> RegistryPlan<
    Result<TransportIdentity, DurableRegistryAuthorityError>,
> {
    and_then(
        load_device_plan(device),
        |found: Option<DeviceView>|
            Plan::Finish(
                match found {
                    None => Err(
                        DurableRegistryAuthorityError::Semantic(RegistryError::DeviceUnknown),
                    ),
                    Some(current) => current_transport(current),
                },
            ),
    )
}

fn current_transport_steps(replies: &mut RegistryReplies<'_>, device_id: &DeviceId) -> (current: Result<
    Result<TransportIdentity, DurableRegistryAuthorityError>,
    RegistryRequest<String, Vec<u8>>,
>)
    requires
        old(replies).wf(),
    ensures
        registry_went_along(
            current_transport_plan(device_id@),
            *old(replies),
            registry_seen(current),
            *final(replies),
        ),
{
    broadcast use lemma_follow_bind;

    match load_device(replies, device_id)? {
        Err(error) => Ok(Err(error)),
        Ok(None) => Ok(Err(DurableRegistryAuthorityError::Semantic(RegistryError::DeviceUnknown))),
        Ok(Some(device)) => Ok(current_transport_from_device(&device)),
    }
}

/// Revalidate a session and the transport identity it presents, within one reading transaction.
/// A membership that is not active ends it before the device is read.
pub open spec fn validate_session_plan(session: SessionView, presented: TransportIdentity) -> RegistryPlan<
    Result<PrincipalView, DurableRegistryAuthorityError>,
> {
    bind(
        registry_perform(RegistryRequest::BeginDeferred),
        |begun: bool|
            if !begun {
                Plan::Finish(Err(DurableRegistryAuthorityError::ReadUnavailable))
            } else {
                and_then(
                    load_membership_plan(session.workspace, session.user),
                    |found: Option<MembershipView>|
                        match found {
                            None => Plan::Finish(
                                Err(
                                    DurableRegistryAuthorityError::Semantic(
                                        RegistryError::MembershipUnknown,
                                    ),
                                ),
                            ),
                            Some(membership) => if membership.lifecycle
                                != MembershipLifecycle::Active {
                                Plan::Finish(
                                    Err(
                                        DurableRegistryAuthorityError::Semantic(
                                            RegistryError::MembershipNotActive,
                                        ),
                                    ),
                                )
                            } else {
                                validate_session_device_plan(session, membership, presented)
                            },
                        },
                )
            },
    )
}

pub open spec fn validate_session_device_plan(
    session: SessionView,
    membership: MembershipView,
    presented: TransportIdentity,
) -> RegistryPlan<Result<PrincipalView, DurableRegistryAuthorityError>> {
    and_then(
        load_device_plan(session.device),
        |found: Option<DeviceView>|
            Plan::Finish(
                match found {
                    None => Err(
                        DurableRegistryAuthorityError::Semantic(RegistryError::DeviceUnknown),
                    ),
                    Some(device) => validated_principal(session, membership, device, presented),
                },
            ),
    )
}

/// The principal of a session whose records agree and whose transport identity is current.
pub open spec fn validated_principal(
    session: SessionView,
    membership: MembershipView,
    device: DeviceView,
    presented: TransportIdentity,
) -> Result<PrincipalView, DurableRegistryAuthorityError> {
    match session_principal(session, membership, device) {
        Err(error) => Err(error),
        Ok(principal) => match presented_verdict(device, presented) {
            Err(error) => Err(error),
            Ok(_) => Ok(principal),
        },
    }
}

fn validate_session_device(
    replies: &mut RegistryReplies<'_>,
    session: &AuthenticatedDeviceSession,
    membership: &WorkspaceMembership,
    presented: TransportIdentity,
) -> (validated: Result<
    Result<RegistryValidatedPrincipal, DurableRegistryAuthorityError>,
    RegistryRequest<String, Vec<u8>>,
>)
    requires
        old(replies).wf(),
    ensures
        registry_went_along(
            validate_session_device_plan(session@, membership@, presented),
            *old(replies),
            match validated {
                Ok(principal) => Ok(
                    crate::durable_registry_semantics::principal_view(principal),
                ),
                Err(request) => Err(request@),
            },
            *final(replies),
        ),
{
    broadcast use lemma_follow_bind;

    let device = match load_device(replies, &session.device_id)? {
        Err(error) => {
            return Ok(Err(error));
        },
        Ok(None) => {
            return Ok(Err(DurableRegistryAuthorityError::Semantic(RegistryError::DeviceUnknown)));
        },
        Ok(Some(device)) => device,
    };
    let principal = match validate_session_records(
        &session.workspace_id,
        &session.user_id,
        &session.device_id,
        &session.public_identity,
        membership,
        &device,
    ) {
        Ok(principal) => principal,
        Err(error) => {
            return Ok(Err(error));
        },
    };
    match validate_presented_transport_from_device(&device, presented) {
        Ok(_) => Ok(Ok(principal)),
        Err(error) => Ok(Err(error)),
    }
}

fn validate_session_steps(
    replies: &mut RegistryReplies<'_>,
    session: &AuthenticatedDeviceSession,
    presented: TransportIdentity,
) -> (validated: Result<
    Result<RegistryValidatedPrincipal, DurableRegistryAuthorityError>,
    RegistryRequest<String, Vec<u8>>,
>)
    requires
        old(replies).wf(),
    ensures
        registry_went_along(
            validate_session_plan(session@, presented),
            *old(replies),
            match validated {
                Ok(principal) => Ok(
                    crate::durable_registry_semantics::principal_view(principal),
                ),
                Err(request) => Err(request@),
            },
            *final(replies),
        ),
{
    broadcast use lemma_follow_bind;

    if !replies.perform(RegistryRequest::BeginDeferred)? {
        return Ok(Err(DurableRegistryAuthorityError::ReadUnavailable));
    }
    match load_membership(replies, &session.workspace_id, &session.user_id)? {
        Err(error) => Ok(Err(error)),
        Ok(None) => Ok(
            Err(DurableRegistryAuthorityError::Semantic(RegistryError::MembershipUnknown)),
        ),
        Ok(Some(membership)) => if membership.lifecycle() != MembershipLifecycle::Active {
            Ok(Err(DurableRegistryAuthorityError::Semantic(RegistryError::MembershipNotActive)))
        } else {
            validate_session_device(replies, session, &membership, presented)
        },
    }
}

/// The owner's membership that the bootstrap creates.
pub open spec fn owner_membership(binding: BindingView) -> MembershipView {
    MembershipView {
        workspace: binding.workspace,
        user: binding.user,
        role: WorkspaceRole::Owner,
        lifecycle: MembershipLifecycle::Active,
    }
}

/// The owner's device that the bootstrap creates.
pub open spec fn owner_device(binding: BindingView, transport_identity: TransportIdentity) -> DeviceView {
    DeviceView { binding, transport_identity: Some(transport_identity) }
}

/// Initialise the authority for the owner: create both records where there are none, accept them
/// where they are exactly the same already, and refuse everything else.
pub open spec fn bootstrap_plan(binding: BindingView, transport_identity: TransportIdentity) -> RegistryPlan<
    Result<OwnerPcLocalAuthorityBootstrapOutcome, DurableRegistryAuthorityError>,
> {
    if binding.lifecycle != DeviceLifecycle::Enrolled {
        Plan::Finish(
            Err(DurableRegistryAuthorityError::Semantic(RegistryError::DeviceNotEnrolled)),
        )
    } else {
        and_then(
            begin_plan(),
            |_begun: ()|
                and_then(
                    load_membership_plan(binding.workspace, binding.user),
                    |membership: Option<MembershipView>|
                        and_then(
                            load_device_plan(binding.device),
                            |device: Option<DeviceView>|
                                match (membership, device) {
                                    (None, None) => initialize_plan(binding, transport_identity),
                                    _ => Plan::Finish(
                                        existing_authority_verdict(
                                            binding,
                                            transport_identity,
                                            membership,
                                            device,
                                        ),
                                    ),
                                },
                        ),
                ),
        )
    }
}

/// What an authority that is not empty means for the bootstrap. A membership is read under the
/// binding's own workspace and user.
pub open spec fn existing_authority_verdict(
    binding: BindingView,
    transport_identity: TransportIdentity,
    membership: Option<MembershipView>,
    device: Option<DeviceView>,
) -> Result<OwnerPcLocalAuthorityBootstrapOutcome, DurableRegistryAuthorityError> {
    match (membership, device) {
        (Some(member), Some(found)) => if member.role == WorkspaceRole::Owner && member.lifecycle
            == MembershipLifecycle::Active && found == owner_device(binding, transport_identity) {
            Ok(OwnerPcLocalAuthorityBootstrapOutcome::AlreadyCurrent)
        } else {
            Err(DurableRegistryAuthorityError::CurrentnessConflict)
        },
        _ => Err(DurableRegistryAuthorityError::CurrentnessConflict),
    }
}

fn judge_existing_authority(
    binding: &DeviceIdentityBinding,
    transport_identity: TransportIdentity,
    membership: &Option<WorkspaceMembership>,
    device: &Option<RegisteredDevice>,
) -> (verdict: Result<OwnerPcLocalAuthorityBootstrapOutcome, DurableRegistryAuthorityError>)
    ensures
        verdict == existing_authority_verdict(
            binding@,
            transport_identity,
            match *membership {
                Some(value) => Some(value@),
                None => None,
            },
            match *device {
                Some(value) => Some(value@),
                None => None,
            },
        ),
{
    match (membership, device) {
        (Some(member), Some(found)) => if member.role() == WorkspaceRole::Owner
            && member.lifecycle() == MembershipLifecycle::Active && found.binding() == binding
            && found.transport_identity() == Some(transport_identity) {
            Ok(OwnerPcLocalAuthorityBootstrapOutcome::AlreadyCurrent)
        } else {
            Err(DurableRegistryAuthorityError::CurrentnessConflict)
        },
        _ => Err(DurableRegistryAuthorityError::CurrentnessConflict),
    }
}

/// Write both records and commit them together.
pub open spec fn initialize_plan(binding: BindingView, transport_identity: TransportIdentity) -> RegistryPlan<
    Result<OwnerPcLocalAuthorityBootstrapOutcome, DurableRegistryAuthorityError>,
> {
    match (
        encoded_membership(owner_membership(binding)),
        encoded_device(owner_device(binding, transport_identity)),
    ) {
        (Some(membership_record), Some(device_record)) => bind(
            registry_write(
                RegistryRequest::InsertMembership(
                    binding.workspace,
                    binding.user,
                    membership_record,
                ),
            ),
            |membership_rows: Option<u64>|
                match membership_rows {
                    None => Plan::Finish(Err(DurableRegistryAuthorityError::MutationIndeterminate)),
                    Some(membership_changed) => bind(
                        registry_write(RegistryRequest::InsertDevice(binding.device, device_record)),
                        |device_rows: Option<u64>|
                            match device_rows {
                                None => Plan::Finish(
                                    Err(DurableRegistryAuthorityError::MutationIndeterminate),
                                ),
                                Some(device_changed) => if membership_changed != 1 || device_changed
                                    != 1 {
                                    Plan::Finish(
                                        Err(DurableRegistryAuthorityError::InvalidAuthority),
                                    )
                                } else {
                                    and_then(
                                        commit_plan(),
                                        |_committed: ()|
                                            Plan::Finish(
                                                Ok(
                                                    OwnerPcLocalAuthorityBootstrapOutcome::Initialized,
                                                ),
                                            ),
                                    )
                                },
                            },
                    ),
                },
        ),
        _ => Plan::Finish(Err(DurableRegistryAuthorityError::InvalidAuthority)),
    }
}

fn initialize(
    replies: &mut RegistryReplies<'_>,
    binding: &DeviceIdentityBinding,
    transport_identity: TransportIdentity,
) -> (initialized: Result<
    Result<OwnerPcLocalAuthorityBootstrapOutcome, DurableRegistryAuthorityError>,
    RegistryRequest<String, Vec<u8>>,
>)
    requires
        old(replies).wf(),
    ensures
        registry_went_along(
            initialize_plan(binding@, transport_identity),
            *old(replies),
            registry_seen(initialized),
            *final(replies),
        ),
{
    broadcast use lemma_follow_bind;

    let membership = WorkspaceMembership {
        workspace_id: binding.workspace_id.clone(),
        user_id: binding.user_id.clone(),
        role: WorkspaceRole::Owner,
        lifecycle: MembershipLifecycle::Active,
    };
    let device = RegisteredDevice {
        binding: binding.clone(),
        transport_identity: Some(transport_identity),
    };
    assert(membership@ == owner_membership(binding@));
    assert(device@ == owner_device(binding@, transport_identity));
    let membership_record = match encode_membership_value(&membership) {
        Ok(record) => record,
        Err(_) => {
            return Ok(Err(DurableRegistryAuthorityError::InvalidAuthority));
        },
    };
    let device_record = match encode_device_value(&device) {
        Ok(record) => record,
        Err(_) => {
            return Ok(Err(DurableRegistryAuthorityError::InvalidAuthority));
        },
    };
    let insert_membership = RegistryRequest::InsertMembership(
        binding.workspace_id.as_str().to_owned(),
        binding.user_id.as_str().to_owned(),
        membership_record,
    );
    let membership_changed: u64 = match replies.write(insert_membership)? {
        Some(rows) => rows,
        None => {
            return Ok(Err(DurableRegistryAuthorityError::MutationIndeterminate));
        },
    };
    let insert_device = RegistryRequest::InsertDevice(
        binding.device_id.as_str().to_owned(),
        device_record,
    );
    let device_changed: u64 = match replies.write(insert_device)? {
        Some(rows) => rows,
        None => {
            return Ok(Err(DurableRegistryAuthorityError::MutationIndeterminate));
        },
    };
    if membership_changed != 1 || device_changed != 1 {
        return Ok(Err(DurableRegistryAuthorityError::InvalidAuthority));
    }
    match commit(replies)? {
        Err(error) => Ok(Err(error)),
        Ok(_) => Ok(Ok(OwnerPcLocalAuthorityBootstrapOutcome::Initialized)),
    }
}

pub(crate) fn bootstrap_steps(
    replies: &mut RegistryReplies<'_>,
    binding: &DeviceIdentityBinding,
    transport_identity: TransportIdentity,
) -> (bootstrapped: Result<
    Result<OwnerPcLocalAuthorityBootstrapOutcome, DurableRegistryAuthorityError>,
    RegistryRequest<String, Vec<u8>>,
>)
    requires
        old(replies).wf(),
    ensures
        registry_went_along(
            bootstrap_plan(binding@, transport_identity),
            *old(replies),
            registry_seen(bootstrapped),
            *final(replies),
        ),
{
    broadcast use lemma_follow_bind;

    if binding.lifecycle != DeviceLifecycle::Enrolled {
        return Ok(Err(DurableRegistryAuthorityError::Semantic(RegistryError::DeviceNotEnrolled)));
    }
    if let Err(error) = begin(replies)? {
        return Ok(Err(error));
    }
    let membership = match load_membership(replies, &binding.workspace_id, &binding.user_id)? {
        Ok(membership) => membership,
        Err(error) => {
            return Ok(Err(error));
        },
    };
    let device = match load_device(replies, &binding.device_id)? {
        Ok(device) => device,
        Err(error) => {
            return Ok(Err(error));
        },
    };
    if membership.is_none() && device.is_none() {
        initialize(replies, binding, transport_identity)
    } else {
        Ok(judge_existing_authority(binding, transport_identity, &membership, &device))
    }
}

/// Operations on the registry database. Each takes the database's replies so far and says what to
/// ask next, or what came of it.
pub struct DurableRegistrySqliteStore;

/// Progress as the plans see it.
pub open spec fn registry_progress<R>(progress: Progress<RegistryRequest<String, Vec<u8>>, R>) -> Progress<
    RegistryRequest<Seq<char>, Seq<u8>>,
    R,
> {
    match progress {
        Progress::Done(result) => Progress::Done(result),
        Progress::Waiting(request) => Progress::Waiting(request@),
    }
}

impl DurableRegistrySqliteStore {
    /// Opens the owner's local database with the write-ahead journal and foreign keys on, and
    /// initialises schema version 1 when the database is new.
    pub fn open(replies: &Vec<RegistryReply<String, Vec<u8>>>) -> (progress: Progress<
        RegistryRequest<String, Vec<u8>>,
        Result<(), DurableRegistrySqliteOpenError>,
    >)
        ensures
            registry_progress(progress) == follow(open_plan(), registry_reply_views(replies@)).0,
    {
        let mut cursor = RegistryReplies::new(replies);
        match open_steps(&mut cursor) {
            Ok(result) => Progress::Done(result),
            Err(request) => Progress::Waiting(request),
        }
    }

    /// Opens an existing database for reading, without creating or migrating anything.
    pub fn open_existing_read_only(replies: &Vec<RegistryReply<String, Vec<u8>>>) -> (progress: Progress<
        RegistryRequest<String, Vec<u8>>,
        Result<(), DurableRegistrySqliteOpenError>,
    >)
        ensures
            registry_progress(progress) == follow(
                open_existing_plan(),
                registry_reply_views(replies@),
            ).0,
    {
        let mut cursor = RegistryReplies::new(replies);
        match open_existing_steps(&mut cursor) {
            Ok(result) => Progress::Done(result),
            Err(request) => Progress::Waiting(request),
        }
    }

    /// Loads one exact current membership.
    pub fn membership(
        workspace_id: &WorkspaceId,
        user_id: &UserId,
        replies: &Vec<RegistryReply<String, Vec<u8>>>,
    ) -> (progress: Progress<
        RegistryRequest<String, Vec<u8>>,
        Result<Option<WorkspaceMembership>, DurableRegistryAuthorityError>,
    >)
        ensures
            (match progress {
                Progress::Done(read) => Progress::Done(membership_read(read)),
                Progress::Waiting(request) => Progress::Waiting(request@),
            }) == follow(
                load_membership_plan(workspace_id@, user_id@),
                registry_reply_views(replies@),
            ).0,
    {
        let mut cursor = RegistryReplies::new(replies);
        match load_membership(&mut cursor, workspace_id, user_id) {
            Ok(result) => Progress::Done(result),
            Err(request) => Progress::Waiting(request),
        }
    }

    /// Loads one exact current registered device.
    pub fn device(device_id: &DeviceId, replies: &Vec<RegistryReply<String, Vec<u8>>>) -> (progress: Progress<
        RegistryRequest<String, Vec<u8>>,
        Result<Option<RegisteredDevice>, DurableRegistryAuthorityError>,
    >)
        ensures
            (match progress {
                Progress::Done(read) => Progress::Done(device_read(read)),
                Progress::Waiting(request) => Progress::Waiting(request@),
            }) == follow(load_device_plan(device_id@), registry_reply_views(replies@)).0,
    {
        let mut cursor = RegistryReplies::new(replies);
        match load_device(&mut cursor, device_id) {
            Ok(result) => Progress::Done(result),
            Err(request) => Progress::Waiting(request),
        }
    }

    /// Creates one active membership only when there is none, and gives it back.
    pub fn add_membership(
        workspace_id: &WorkspaceId,
        user_id: &UserId,
        role: WorkspaceRole,
        replies: &Vec<RegistryReply<String, Vec<u8>>>,
    ) -> (progress: Progress<
        RegistryRequest<String, Vec<u8>>,
        Result<WorkspaceMembership, DurableRegistryAuthorityError>,
    >)
        ensures
            ({
                let membership = MembershipView {
                    workspace: workspace_id@,
                    user: user_id@,
                    role,
                    lifecycle: MembershipLifecycle::Active,
                };
                (match progress {
                    Progress::Done(Ok(added)) => Progress::Done(Ok(added@)),
                    Progress::Done(Err(error)) => Progress::Done(Err(error)),
                    Progress::Waiting(request) => Progress::Waiting(request@),
                }) == follow(
                    and_then(
                        add_membership_plan(membership),
                        |_added: ()| Plan::Finish(Ok(membership)),
                    ),
                    registry_reply_views(replies@),
                ).0
            }),
    {
        broadcast use lemma_follow_bind;

        let membership = WorkspaceMembership {
            workspace_id: workspace_id.clone(),
            user_id: user_id.clone(),
            role,
            lifecycle: MembershipLifecycle::Active,
        };
        let mut cursor = RegistryReplies::new(replies);
        match add_membership_steps(&mut cursor, &membership) {
            Ok(Ok(_)) => Progress::Done(Ok(membership)),
            Ok(Err(error)) => Progress::Done(Err(error)),
            Err(request) => Progress::Waiting(request),
        }
    }

    /// Suspends one exact active membership.
    pub fn suspend_membership(
        workspace_id: &WorkspaceId,
        user_id: &UserId,
        replies: &Vec<RegistryReply<String, Vec<u8>>>,
    ) -> (progress: Progress<
        RegistryRequest<String, Vec<u8>>,
        Result<(), DurableRegistryAuthorityError>,
    >)
        ensures
            registry_progress(progress) == follow(
                update_membership_plan(workspace_id@, user_id@, MembershipChange::Suspend),
                registry_reply_views(replies@),
            ).0,
    {
        let mut cursor = RegistryReplies::new(replies);
        match update_membership_steps(
            &mut cursor,
            workspace_id,
            user_id,
            MembershipChange::Suspend,
        ) {
            Ok(result) => Progress::Done(result),
            Err(request) => Progress::Waiting(request),
        }
    }

    /// Terminally removes one exact active or suspended membership.
    pub fn remove_membership(
        workspace_id: &WorkspaceId,
        user_id: &UserId,
        replies: &Vec<RegistryReply<String, Vec<u8>>>,
    ) -> (progress: Progress<
        RegistryRequest<String, Vec<u8>>,
        Result<(), DurableRegistryAuthorityError>,
    >)
        ensures
            registry_progress(progress) == follow(
                update_membership_plan(workspace_id@, user_id@, MembershipChange::Remove),
                registry_reply_views(replies@),
            ).0,
    {
        let mut cursor = RegistryReplies::new(replies);
        match update_membership_steps(&mut cursor, workspace_id, user_id, MembershipChange::Remove) {
            Ok(result) => Progress::Done(result),
            Err(request) => Progress::Waiting(request),
        }
    }

    /// Registers one enrolled device without a transport identity under one exact active
    /// membership, and gives it back.
    pub fn register_device(
        binding: &DeviceIdentityBinding,
        replies: &Vec<RegistryReply<String, Vec<u8>>>,
    ) -> (progress: Progress<
        RegistryRequest<String, Vec<u8>>,
        Result<RegisteredDevice, DurableRegistryAuthorityError>,
    >)
        ensures
            (match progress {
                Progress::Done(Ok(registered)) => Progress::Done(Ok(registered@)),
                Progress::Done(Err(error)) => Progress::Done(Err(error)),
                Progress::Waiting(request) => Progress::Waiting(request@),
            }) == follow(
                and_then(
                    register_device_plan(binding@),
                    |_registered: ()|
                        Plan::Finish(
                            Ok(DeviceView { binding: binding@, transport_identity: None }),
                        ),
                ),
                registry_reply_views(replies@),
            ).0,
    {
        broadcast use lemma_follow_bind;

        let device = RegisteredDevice { binding: binding.clone(), transport_identity: None };
        let mut cursor = RegistryReplies::new(replies);
        match register_device_steps(&mut cursor, &device) {
            Ok(Ok(_)) => Progress::Done(Ok(device)),
            Ok(Err(error)) => Progress::Done(Err(error)),
            Err(request) => Progress::Waiting(request),
        }
    }

    /// Binds the first transport identity to one exact enrolled device.
    pub fn bind_transport_identity(
        device_id: &DeviceId,
        identity: TransportIdentity,
        replies: &Vec<RegistryReply<String, Vec<u8>>>,
    ) -> (progress: Progress<
        RegistryRequest<String, Vec<u8>>,
        Result<(), DurableRegistryAuthorityError>,
    >)
        ensures
            registry_progress(progress) == follow(
                update_device_plan(device_id@, DeviceChange::BindTransport(identity)),
                registry_reply_views(replies@),
            ).0,
    {
        let mut cursor = RegistryReplies::new(replies);
        match update_device_steps(&mut cursor, device_id, DeviceChange::BindTransport(identity)) {
            Ok(result) => Progress::Done(result),
            Err(request) => Progress::Waiting(request),
        }
    }

    /// Rotates the transport identity when the expected one is still current.
    pub fn rotate_transport_identity(
        device_id: &DeviceId,
        expected_current: TransportIdentity,
        replacement: TransportIdentity,
        replies: &Vec<RegistryReply<String, Vec<u8>>>,
    ) -> (progress: Progress<
        RegistryRequest<String, Vec<u8>>,
        Result<(), DurableRegistryAuthorityError>,
    >)
        ensures
            registry_progress(progress) == follow(
                update_device_plan(
                    device_id@,
                    DeviceChange::RotateTransport(expected_current, replacement),
                ),
                registry_reply_views(replies@),
            ).0,
    {
        let mut cursor = RegistryReplies::new(replies);
        match update_device_steps(
            &mut cursor,
            device_id,
            DeviceChange::RotateTransport(expected_current, replacement),
        ) {
            Ok(result) => Progress::Done(result),
            Err(request) => Progress::Waiting(request),
        }
    }

    /// Terminally revokes one enrolled device, keeping its identity and transport data.
    pub fn revoke_device(device_id: &DeviceId, replies: &Vec<RegistryReply<String, Vec<u8>>>) -> (progress:
        Progress<RegistryRequest<String, Vec<u8>>, Result<(), DurableRegistryAuthorityError>>)
        ensures
            registry_progress(progress) == follow(
                update_device_plan(device_id@, DeviceChange::Revoke),
                registry_reply_views(replies@),
            ).0,
    {
        let mut cursor = RegistryReplies::new(replies);
        match update_device_steps(&mut cursor, device_id, DeviceChange::Revoke) {
            Ok(result) => Progress::Done(result),
            Err(request) => Progress::Waiting(request),
        }
    }

    /// Returns the current transport identity of one enrolled device.
    pub fn current_transport_identity(
        device_id: &DeviceId,
        replies: &Vec<RegistryReply<String, Vec<u8>>>,
    ) -> (progress: Progress<
        RegistryRequest<String, Vec<u8>>,
        Result<TransportIdentity, DurableRegistryAuthorityError>,
    >)
        ensures
            registry_progress(progress) == follow(
                current_transport_plan(device_id@),
                registry_reply_views(replies@),
            ).0,
    {
        let mut cursor = RegistryReplies::new(replies);
        match current_transport_steps(&mut cursor, device_id) {
            Ok(result) => Progress::Done(result),
            Err(request) => Progress::Waiting(request),
        }
    }

    /// Revalidates one authenticated session and the transport identity it presents.
    pub fn validate_authenticated_session_and_transport_identity(
        session: &AuthenticatedDeviceSession,
        presented: TransportIdentity,
        replies: &Vec<RegistryReply<String, Vec<u8>>>,
    ) -> (progress: Progress<
        RegistryRequest<String, Vec<u8>>,
        Result<RegistryValidatedPrincipal, DurableRegistryAuthorityError>,
    >)
        ensures
            (match progress {
                Progress::Done(principal) => Progress::Done(
                    crate::durable_registry_semantics::principal_view(principal),
                ),
                Progress::Waiting(request) => Progress::Waiting(request@),
            }) == follow(
                validate_session_plan(session@, presented),
                registry_reply_views(replies@),
            ).0,
    {
        let mut cursor = RegistryReplies::new(replies);
        match validate_session_steps(&mut cursor, session, presented) {
            Ok(result) => Progress::Done(result),
            Err(request) => Progress::Waiting(request),
        }
    }

    /// Atomically initialises the authority for one enrolled owner device. Repeating it with the
    /// same input changes nothing; any other state that is already there is refused unchanged.
    pub fn bootstrap_fresh_owner_authority(
        binding: &DeviceIdentityBinding,
        transport_identity: TransportIdentity,
        replies: &Vec<RegistryReply<String, Vec<u8>>>,
    ) -> (progress: Progress<
        RegistryRequest<String, Vec<u8>>,
        Result<OwnerPcLocalAuthorityBootstrapOutcome, DurableRegistryAuthorityError>,
    >)
        ensures
            registry_progress(progress) == follow(
                bootstrap_plan(binding@, transport_identity),
                registry_reply_views(replies@),
            ).0,
    {
        let mut cursor = RegistryReplies::new(replies);
        match bootstrap_steps(&mut cursor, binding, transport_identity) {
            Ok(result) => Progress::Done(result),
            Err(request) => Progress::Waiting(request),
        }
    }
}

} // verus!
