//! An installation that works: a capable host, and a database whose statements succeed.
use vstd::prelude::*;

use crate::capable_host::{capable_answers, capable_rules, ends_capably};
use crate::durable_registry_sqlite_custody::is_own_file;
use crate::durable_registry_sqlite_store::{
    is_write_ahead, RegistryPlan, RegistryReply, RegistryRequest,
};
use crate::host::Host;
use crate::installation::{
    ends, installation_answers, installation_rules, registry_ends, Installation,
};
use crate::outside::{HostPlan, OutsideReply, Place};
use crate::plan::{can_end, lemma_can_end_under, Plan};
use crate::registry_laws::{Database, Tables};
use crate::startup_plan::{on_host, on_registry, startup_bind, StartupPlan};
use crate::working_registry::{working_database_answers, working_database_rules};

verus! {

/// No record is stored.
pub open spec fn is_empty(tables: Tables) -> bool {
    &&& forall|workspace: Seq<char>, user: Seq<char>|
        #[trigger] tables.membership_record(workspace, user) is None
    &&& forall|device: Seq<char>| #[trigger] tables.device_record(device) is None
}

/// The database of an installation answers as it can, and no statement fails that can succeed. It
/// can be opened, which makes its file where it was missing. It keeps a write-ahead journal and
/// foreign keys, and its schema is of version 1, or still to be created where nothing is stored.
pub open spec fn working_installation_answers(
    uid: u32,
    before: Installation,
    request: RegistryRequest<Seq<char>, Seq<u8>>,
    reply: RegistryReply<Seq<char>, Seq<u8>>,
    after: Installation,
) -> bool {
    &&& installation_answers(before, request, reply, after)
    &&& working_database_answers(before.database, request, reply, after.database)
    &&& match request {
        RegistryRequest::OpenReadWrite => {
            &&& reply is Completed
            &&& after.host.files.contains_key(Place::Database)
            &&& !before.host.files.contains_key(Place::Database) ==> is_own_file(
                after.host.files[Place::Database].metadata,
                uid,
            )
        },
        RegistryRequest::OpenReadOnly => before.host.files.contains_key(Place::Database) ==> reply
            is Completed,
        RegistryRequest::EnableForeignKeys
        | RegistryRequest::ProbeMemberships
        | RegistryRequest::ProbeDevices => reply is Completed,
        RegistryRequest::CreateSchema => before.database.open is Some ==> reply is Completed,
        RegistryRequest::SetWriteAheadJournal | RegistryRequest::QueryJournalMode => reply matches
            RegistryReply::Text(mode) && is_write_ahead(mode),
        RegistryRequest::QueryForeignKeys => reply == RegistryReply::<Seq<char>, Seq<u8>>::Integer(
            1,
        ),
        RegistryRequest::QueryUserVersion => reply matches RegistryReply::Integer(version) && (
        version == 1 || version == 0 && is_empty(before.database.committed)),
        _ => true,
    }
}

pub open spec fn working_installation_rules(uid: u32) -> spec_fn(
    Installation,
    RegistryRequest<Seq<char>, Seq<u8>>,
    RegistryReply<Seq<char>, Seq<u8>>,
    Installation,
) -> bool {
    |
        before: Installation,
        request: RegistryRequest<Seq<char>, Seq<u8>>,
        reply: RegistryReply<Seq<char>, Seq<u8>>,
        after: Installation,
    |
        working_installation_answers(uid, before, request, reply, after)
}

/// Whether a course of work can end with a result and leave the working installation in a state.
pub open spec fn ends_well<R>(
    uid: u32,
    tpm2: bool,
    plan: StartupPlan<R>,
    before: Installation,
    result: R,
    after: Installation,
) -> bool
    decreases plan,
{
    match plan {
        StartupPlan::Finish(value) => value == result && before == after,
        StartupPlan::AskHost(request, step) => exists|reply: OutsideReply<Seq<u8>>, next: Host|
            #[trigger] capable_answers(uid, tpm2, before.host, request, reply, next) && ends_well(
                uid,
                tpm2,
                step(reply),
                Installation { host: next, ..before },
                result,
                after,
            ),
        StartupPlan::AskRegistry(request, step) => exists|
            reply: RegistryReply<Seq<char>, Seq<u8>>,
            next: Installation,
        | #[trigger]
            working_installation_answers(uid, before, request, reply, next) && ends_well(
                uid,
                tpm2,
                step(reply),
                next,
                result,
                after,
            ),
    }
}

/// Whether an operation on the working database can end with a result and leave the installation
/// in a state.
pub open spec fn registry_ends_well<R>(
    uid: u32,
    plan: RegistryPlan<R>,
    before: Installation,
    result: R,
    after: Installation,
) -> bool {
    can_end(plan, working_installation_rules(uid), before, result, after)
}

/// What holds of every installation holds of a working one.
pub proof fn lemma_working_installation<R>(
    uid: u32,
    tpm2: bool,
    plan: StartupPlan<R>,
    before: Installation,
    result: R,
    after: Installation,
)
    requires
        ends_well(uid, tpm2, plan, before, result, after),
    ensures
        ends(plan, before, result, after),
    decreases plan,
{
    match plan {
        StartupPlan::Finish(value) => {},
        StartupPlan::AskHost(request, step) => {
            let (reply, next) = choose|reply: OutsideReply<Seq<u8>>, next: Host| #[trigger]
                capable_answers(uid, tpm2, before.host, request, reply, next) && ends_well(
                    uid,
                    tpm2,
                    step(reply),
                    Installation { host: next, ..before },
                    result,
                    after,
                );
            let then = Installation { host: next, ..before };
            lemma_working_installation(uid, tpm2, step(reply), then, result, after);
            assert(crate::host::host_answers(before.host, request, reply, next));
        },
        StartupPlan::AskRegistry(request, step) => {
            let (reply, next) = choose|
                reply: RegistryReply<Seq<char>, Seq<u8>>,
                next: Installation,
            | #[trigger]
                working_installation_answers(uid, before, request, reply, next) && ends_well(
                    uid,
                    tpm2,
                    step(reply),
                    next,
                    result,
                    after,
                );
            lemma_working_installation(uid, tpm2, step(reply), next, result, after);
            assert(installation_answers(before, request, reply, next));
        },
    }
}

pub broadcast proof fn lemma_finish_well<R>(
    uid: u32,
    tpm2: bool,
    value: R,
    before: Installation,
    result: R,
    after: Installation,
)
    requires
        #[trigger] ends_well(uid, tpm2, StartupPlan::Finish(value), before, result, after),
    ensures
        value == result,
        before == after,
{
}

pub broadcast proof fn lemma_on_host_well<R, S>(
    uid: u32,
    tpm2: bool,
    plan: HostPlan<R>,
    next: spec_fn(R) -> StartupPlan<S>,
    before: Installation,
    result: S,
    after: Installation,
)
    requires
        #[trigger] ends_well(uid, tpm2, on_host(plan, next), before, result, after),
    ensures
        exists|value: R, middle: Host| #[trigger]
            ends_capably(uid, tpm2, plan, before.host, value, middle) && ends_well(
                uid,
                tpm2,
                next(value),
                Installation { host: middle, ..before },
                result,
                after,
            ),
    decreases plan,
{
    match plan {
        Plan::Finish(value) => {
            assert(ends_capably(uid, tpm2, plan, before.host, value, before.host));
            assert(Installation { host: before.host, ..before } == before);
        },
        Plan::Ask(request, step) => {
            let (reply, then) = choose|reply: OutsideReply<Seq<u8>>, then: Host| #[trigger]
                capable_answers(uid, tpm2, before.host, request, reply, then) && ends_well(
                    uid,
                    tpm2,
                    on_host(step(reply), next),
                    Installation { host: then, ..before },
                    result,
                    after,
                );
            let between = Installation { host: then, ..before };
            lemma_on_host_well(uid, tpm2, step(reply), next, between, result, after);
            let (value, middle) = choose|value: R, middle: Host| #[trigger]
                ends_capably(uid, tpm2, step(reply), then, value, middle) && ends_well(
                    uid,
                    tpm2,
                    next(value),
                    Installation { host: middle, ..between },
                    result,
                    after,
                );
            let rules = capable_rules(uid, tpm2);
            assert(rules(before.host, request, reply, then));
            assert(ends_capably(uid, tpm2, plan, before.host, value, middle));
            assert(Installation { host: middle, ..between } == Installation {
                host: middle,
                ..before
            });
        },
    }
}

pub broadcast proof fn lemma_on_registry_well<R, S>(
    uid: u32,
    tpm2: bool,
    plan: RegistryPlan<R>,
    next: spec_fn(R) -> StartupPlan<S>,
    before: Installation,
    result: S,
    after: Installation,
)
    requires
        #[trigger] ends_well(uid, tpm2, on_registry(plan, next), before, result, after),
    ensures
        exists|value: R, middle: Installation| #[trigger]
            registry_ends_well(uid, plan, before, value, middle) && ends_well(
                uid,
                tpm2,
                next(value),
                middle,
                result,
                after,
            ),
    decreases plan,
{
    match plan {
        Plan::Finish(value) => {
            assert(registry_ends_well(uid, plan, before, value, before));
        },
        Plan::Ask(request, step) => {
            let (reply, then) = choose|
                reply: RegistryReply<Seq<char>, Seq<u8>>,
                then: Installation,
            | #[trigger]
                working_installation_answers(uid, before, request, reply, then) && ends_well(
                    uid,
                    tpm2,
                    on_registry(step(reply), next),
                    then,
                    result,
                    after,
                );
            lemma_on_registry_well(uid, tpm2, step(reply), next, then, result, after);
            let (value, middle) = choose|value: R, middle: Installation| #[trigger]
                registry_ends_well(uid, step(reply), then, value, middle) && ends_well(
                    uid,
                    tpm2,
                    next(value),
                    middle,
                    result,
                    after,
                );
            let rules = working_installation_rules(uid);
            assert(rules(before, request, reply, then));
            assert(registry_ends_well(uid, plan, before, value, middle));
        },
    }
}

pub broadcast proof fn lemma_startup_bind_well<R, S>(
    uid: u32,
    tpm2: bool,
    plan: StartupPlan<R>,
    next: spec_fn(R) -> StartupPlan<S>,
    before: Installation,
    result: S,
    after: Installation,
)
    requires
        #[trigger] ends_well(uid, tpm2, startup_bind(plan, next), before, result, after),
    ensures
        exists|value: R, middle: Installation| #[trigger]
            ends_well(uid, tpm2, plan, before, value, middle) && ends_well(
                uid,
                tpm2,
                next(value),
                middle,
                result,
                after,
            ),
    decreases plan,
{
    match plan {
        StartupPlan::Finish(value) => {
            assert(ends_well(uid, tpm2, plan, before, value, before));
        },
        StartupPlan::AskHost(request, step) => {
            let (reply, then) = choose|reply: OutsideReply<Seq<u8>>, then: Host| #[trigger]
                capable_answers(uid, tpm2, before.host, request, reply, then) && ends_well(
                    uid,
                    tpm2,
                    startup_bind(step(reply), next),
                    Installation { host: then, ..before },
                    result,
                    after,
                );
            let between = Installation { host: then, ..before };
            lemma_startup_bind_well(uid, tpm2, step(reply), next, between, result, after);
            let (value, middle) = choose|value: R, middle: Installation| #[trigger]
                ends_well(uid, tpm2, step(reply), between, value, middle) && ends_well(
                    uid,
                    tpm2,
                    next(value),
                    middle,
                    result,
                    after,
                );
            assert(ends_well(uid, tpm2, plan, before, value, middle));
        },
        StartupPlan::AskRegistry(request, step) => {
            let (reply, then) = choose|
                reply: RegistryReply<Seq<char>, Seq<u8>>,
                then: Installation,
            | #[trigger]
                working_installation_answers(uid, before, request, reply, then) && ends_well(
                    uid,
                    tpm2,
                    startup_bind(step(reply), next),
                    then,
                    result,
                    after,
                );
            lemma_startup_bind_well(uid, tpm2, step(reply), next, then, result, after);
            let (value, middle) = choose|value: R, middle: Installation| #[trigger]
                ends_well(uid, tpm2, step(reply), then, value, middle) && ends_well(
                    uid,
                    tpm2,
                    next(value),
                    middle,
                    result,
                    after,
                );
            assert(ends_well(uid, tpm2, plan, before, value, middle));
        },
    }
}

pub broadcast group group_well_steps {
    lemma_finish_well,
    lemma_on_host_well,
    lemma_on_registry_well,
    lemma_startup_bind_well,
}

/// What an operation does to the database of a working installation is what it does to a working
/// database.
pub broadcast proof fn lemma_working_registry_part<R>(
    uid: u32,
    plan: RegistryPlan<R>,
    before: Installation,
    result: R,
    after: Installation,
)
    requires
        #[trigger] registry_ends_well(uid, plan, before, result, after),
    ensures
        crate::working_registry::ends_working(plan, before.database, result, after.database),
        registry_ends(plan, before, result, after),
    decreases plan,
{
    lemma_can_end_under(
        plan,
        working_installation_rules(uid),
        installation_rules(),
        before,
        result,
        after,
    );
    match plan {
        Plan::Finish(value) => {},
        Plan::Ask(request, step) => {
            let rules = working_installation_rules(uid);
            let (reply, then) = choose|
                reply: RegistryReply<Seq<char>, Seq<u8>>,
                then: Installation,
            | #[trigger]
                rules(before, request, reply, then) && can_end(
                    step(reply),
                    rules,
                    then,
                    result,
                    after,
                );
            assert(registry_ends_well(uid, step(reply), then, result, after));
            lemma_working_registry_part(uid, step(reply), then, result, after);
            let database = working_database_rules();
            assert(database(before.database, request, reply, then.database));
        },
    }
}

} // verus!
