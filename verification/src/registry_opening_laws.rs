//! How the database is opened: what is asked in which order, and what comes of each reply.
use vstd::prelude::*;

use crate::durable_registry_sqlite_store::{
    is_write_ahead, open_existing_plan, open_plan, DurableRegistrySqliteOpenError, RegistryReply,
    RegistryRequest,
};
use crate::plan::{follow, lemma_follow_bind, Progress};

verus! {

pub type Reply = RegistryReply<Seq<char>, Seq<u8>>;

pub type Opening = Progress<
    RegistryRequest<Seq<char>, Seq<u8>>,
    Result<(), DurableRegistrySqliteOpenError>,
>;

/// Opening failed in this way.
pub open spec fn failed(error: DurableRegistrySqliteOpenError) -> Opening {
    Progress::Done(Err(error))
}

/// Opening is waiting for the reply to this request.
pub open spec fn asks(request: RegistryRequest<Seq<char>, Seq<u8>>) -> Opening {
    Progress::Waiting(request)
}

/// The write-ahead journal is in force exactly when the mode says `wal`, in capitals or not.
pub proof fn journal_mode_is_wal(mode: Seq<char>)
    ensures
        is_write_ahead(mode) <==> mode.len() == 3 && (mode[0] == 'w' || mode[0] == 'W') && (mode[1]
            == 'a' || mode[1] == 'A') && (mode[2] == 'l' || mode[2] == 'L'),
{
}

proof fn lemma_first(first: Reply, rest: Seq<Reply>)
    ensures
        (seq![first] + rest).drop_first() == rest,
        (seq![first] + rest)[0] == first,
{
    assert((seq![first] + rest).drop_first() =~= rest);
}

/// Opening for writing asks for the file, for foreign keys, for the write-ahead journal, whether
/// foreign keys are on, and for the version, one after the other, and stops at the first reply that
/// will not do.
pub proof fn opening_is_configured_first(
    file: Reply,
    enabled: Reply,
    journal: Reply,
    enforced: Reply,
    rest: Seq<Reply>,
)
    ensures
        follow(open_plan(), Seq::empty()).0 == asks(RegistryRequest::OpenReadWrite),
        !(file is Completed) ==> follow(open_plan(), seq![file] + rest).0 == failed(
            DurableRegistrySqliteOpenError::Open,
        ),
        file is Completed ==> follow(open_plan(), seq![file] + Seq::empty()).0 == asks(
            RegistryRequest::EnableForeignKeys,
        ),
        file is Completed && !(enabled is Completed) ==> follow(
            open_plan(),
            seq![file] + (seq![enabled] + rest),
        ).0 == failed(DurableRegistrySqliteOpenError::Configure),
        file is Completed && enabled is Completed ==> follow(
            open_plan(),
            seq![file] + (seq![enabled] + Seq::empty()),
        ).0 == asks(RegistryRequest::SetWriteAheadJournal),
        file is Completed && enabled is Completed && !(journal matches RegistryReply::Text(mode)
            && is_write_ahead(mode)) ==> follow(
            open_plan(),
            seq![file] + (seq![enabled] + (seq![journal] + rest)),
        ).0 == failed(DurableRegistrySqliteOpenError::Configure),
        file is Completed && enabled is Completed && (journal matches RegistryReply::Text(mode)
            && is_write_ahead(mode)) ==> {
            &&& follow(
                open_plan(),
                seq![file] + (seq![enabled] + (seq![journal] + Seq::empty())),
            ).0 == asks(RegistryRequest::QueryForeignKeys)
            &&& enforced != RegistryReply::<Seq<char>, Seq<u8>>::Integer(1) ==> follow(
                open_plan(),
                seq![file] + (seq![enabled] + (seq![journal] + (seq![enforced] + rest))),
            ).0 == failed(DurableRegistrySqliteOpenError::Configure)
            &&& enforced == RegistryReply::<Seq<char>, Seq<u8>>::Integer(1) ==> follow(
                open_plan(),
                seq![file] + (seq![enabled] + (seq![journal] + (seq![enforced] + Seq::empty()))),
            ).0 == asks(RegistryRequest::QueryUserVersion)
        },
{
    broadcast use lemma_follow_bind;

    reveal_with_fuel(follow, 3);
    let empty = Seq::<Reply>::empty();
    lemma_first(file, rest);
    lemma_first(file, empty);
    lemma_first(enabled, rest);
    lemma_first(enabled, empty);
    lemma_first(journal, rest);
    lemma_first(journal, empty);
    lemma_first(enforced, rest);
    lemma_first(enforced, empty);
    lemma_first(file, seq![enabled] + rest);
    lemma_first(file, seq![enabled] + empty);
    lemma_first(enabled, seq![journal] + rest);
    lemma_first(enabled, seq![journal] + empty);
    lemma_first(file, seq![enabled] + (seq![journal] + rest));
    lemma_first(file, seq![enabled] + (seq![journal] + empty));
    lemma_first(journal, seq![enforced] + rest);
    lemma_first(journal, seq![enforced] + empty);
    lemma_first(enabled, seq![journal] + (seq![enforced] + rest));
    lemma_first(enabled, seq![journal] + (seq![enforced] + empty));
    lemma_first(file, seq![enabled] + (seq![journal] + (seq![enforced] + rest)));
    lemma_first(file, seq![enabled] + (seq![journal] + (seq![enforced] + empty)));
}

/// Once the database is configured, its version decides: at version 0 both tables are created in one
/// transaction, at version 1 both are looked at, and every other version is refused.
pub proof fn version_decides_the_opening(
    mode: Seq<char>,
    version: Reply,
    one: Reply,
    two: Reply,
    three: Reply,
)
    requires
        is_write_ahead(mode),
    ensures
        ({
            let configured = configured_replies(mode);
            let opened = follow(open_plan(), configured + seq![version, one, two, three]).0;
            match version {
                RegistryReply::Integer(number) => if number == 0 {
                    opened == (if one is Completed && two is Completed && three is Completed {
                        Progress::Done(Ok(()))
                    } else {
                        failed(DurableRegistrySqliteOpenError::Migration)
                    })
                } else if number == 1 {
                    opened == (if one is Completed && two is Completed {
                        Progress::Done(Ok(()))
                    } else {
                        failed(DurableRegistrySqliteOpenError::Migration)
                    })
                } else {
                    opened == failed(DurableRegistrySqliteOpenError::UnsupportedSchemaVersion)
                },
                _ => opened == failed(DurableRegistrySqliteOpenError::Migration),
            }
        }),
        ({
            let fresh = configured_replies(mode) + seq![Reply::Integer(0)];
            &&& follow(open_plan(), fresh).0 == asks(RegistryRequest::BeginImmediate)
            &&& follow(open_plan(), fresh + seq![Reply::Completed]).0 == asks(
                RegistryRequest::CreateSchema,
            )
            &&& follow(open_plan(), fresh + seq![Reply::Completed, Reply::Completed]).0 == asks(
                RegistryRequest::Commit,
            )
        }),
        ({
            let current = configured_replies(mode) + seq![Reply::Integer(1)];
            &&& follow(open_plan(), current).0 == asks(RegistryRequest::ProbeMemberships)
            &&& follow(open_plan(), current + seq![Reply::Completed]).0 == asks(
                RegistryRequest::ProbeDevices,
            )
        }),
{
    broadcast use lemma_follow_bind;

    lemma_configured(mode, seq![version, one, two, three]);
    lemma_configured(mode, seq![Reply::Integer(0)]);
    lemma_configured(mode, seq![Reply::Integer(0), Reply::Completed]);
    lemma_configured(mode, seq![Reply::Integer(0), Reply::Completed, Reply::Completed]);
    lemma_configured(mode, seq![Reply::Integer(1)]);
    lemma_configured(mode, seq![Reply::Integer(1), Reply::Completed]);
    let configured = configured_replies(mode);
    assert(configured + seq![Reply::Integer(0)] + seq![Reply::Completed] =~= configured + seq![
        Reply::Integer(0),
        Reply::Completed,
    ]);
    assert(configured + seq![Reply::Integer(0)] + seq![Reply::Completed, Reply::Completed]
        =~= configured + seq![Reply::Integer(0), Reply::Completed, Reply::Completed]);
    assert(configured + seq![Reply::Integer(1)] + seq![Reply::Completed] =~= configured + seq![
        Reply::Integer(1),
        Reply::Completed,
    ]);
    reveal_with_fuel(follow, 3);
    assert(seq![version, one, two, three].drop_first() =~= seq![one, two, three]);
    assert(seq![one, two, three].drop_first() =~= seq![two, three]);
    assert(seq![two, three].drop_first() =~= seq![three]);
    assert(seq![three].drop_first() =~= Seq::<Reply>::empty());
    assert(seq![Reply::Integer(0)].drop_first() =~= Seq::<Reply>::empty());
    assert(seq![Reply::Integer(0), Reply::Completed].drop_first() =~= seq![Reply::Completed]);
    assert(seq![Reply::Integer(0), Reply::Completed, Reply::Completed].drop_first() =~= seq![
        Reply::Completed,
        Reply::Completed,
    ]);
    assert(seq![Reply::Completed, Reply::Completed].drop_first() =~= seq![Reply::Completed]);
    assert(seq![Reply::Completed].drop_first() =~= Seq::<Reply>::empty());
    assert(seq![Reply::Integer(1)].drop_first() =~= Seq::<Reply>::empty());
    assert(seq![Reply::Integer(1), Reply::Completed].drop_first() =~= seq![Reply::Completed]);
}

/// The replies of a database that was opened and configured.
pub open spec fn configured_replies(mode: Seq<char>) -> Seq<Reply> {
    seq![
        RegistryReply::Completed,
        RegistryReply::Completed,
        RegistryReply::Text(mode),
        RegistryReply::Integer(1),
    ]
}

proof fn lemma_configured(mode: Seq<char>, rest: Seq<Reply>)
    requires
        is_write_ahead(mode),
    ensures
        follow(open_plan(), configured_replies(mode) + rest) == follow(
            crate::durable_registry_sqlite_store::migrate_plan(),
            rest,
        ),
{
    broadcast use lemma_follow_bind;

    reveal_with_fuel(follow, 3);
    let all = configured_replies(mode) + rest;
    let second = all.drop_first();
    let third = second.drop_first();
    let fourth = third.drop_first();
    assert(all[0] == Reply::Completed);
    assert(second[0] == Reply::Completed);
    assert(third[0] == Reply::Text(mode));
    assert(fourth[0] == Reply::Integer(1));
    assert(fourth.drop_first() =~= rest);
}

/// Opening for reading asks for the file, the journal, the version and both tables, one after the
/// other. It succeeds exactly with the write-ahead journal, version 1 and both tables, and stops at
/// the first reply that will not do.
pub proof fn opening_for_reading_checks_everything(
    file: Reply,
    journal: Reply,
    version: Reply,
    memberships: Reply,
    devices: Reply,
)
    ensures
        follow(open_existing_plan(), seq![file, journal, version, memberships, devices]).0 == (
        if !(file is Completed) {
            failed(DurableRegistrySqliteOpenError::Open)
        } else if !(journal matches RegistryReply::Text(mode) && is_write_ahead(mode)) {
            failed(DurableRegistrySqliteOpenError::Configure)
        } else if !(version is Integer) {
            failed(DurableRegistrySqliteOpenError::Configure)
        } else if version != Reply::Integer(1) {
            failed(DurableRegistrySqliteOpenError::UnsupportedSchemaVersion)
        } else if memberships is Completed && devices is Completed {
            Progress::Done(Ok(()))
        } else {
            failed(DurableRegistrySqliteOpenError::Migration)
        }),
        follow(open_existing_plan(), Seq::empty()).0 == asks(RegistryRequest::OpenReadOnly),
        file is Completed ==> follow(open_existing_plan(), seq![file]).0 == asks(
            RegistryRequest::QueryJournalMode,
        ),
        file is Completed && (journal matches RegistryReply::Text(mode) && is_write_ahead(mode))
            ==> follow(open_existing_plan(), seq![file, journal]).0 == asks(
            RegistryRequest::QueryUserVersion,
        ),
{
    broadcast use lemma_follow_bind;

    reveal_with_fuel(follow, 3);
    let all = seq![file, journal, version, memberships, devices];
    assert(all.drop_first() =~= seq![journal, version, memberships, devices]);
    assert(seq![journal, version, memberships, devices].drop_first() =~= seq![
        version,
        memberships,
        devices,
    ]);
    assert(seq![version, memberships, devices].drop_first() =~= seq![memberships, devices]);
    assert(seq![memberships, devices].drop_first() =~= seq![devices]);
    assert(seq![file].drop_first() =~= Seq::<Reply>::empty());
    assert(seq![file, journal].drop_first() =~= seq![journal]);
    assert(seq![journal].drop_first() =~= Seq::<Reply>::empty());
}

} // verus!
