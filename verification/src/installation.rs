//! A model of an installation: the host and the database together.
use vstd::prelude::*;

use crate::durable_registry_sqlite_store::{RegistryPlan, RegistryReply, RegistryRequest};
use crate::host::{host_answers, host_rules, same_but, Host};
use crate::outside::{FileMetadata, HostPlan, OutsideReply, Place};
use crate::plan::{bind, can_end, Plan, Progress};
use crate::registry_laws::{database_answers, database_rules, Database};
use crate::startup_plan::{
    follow_startup, on_host, on_registry, startup_bind, StartupPlan, StartupRequest,
};

verus! {

/// The host and the database of one owner.
pub struct Installation {
    pub host: Host,
    pub database: Database,
}

/// The database wrote to its file and to nothing else on the host.
pub open spec fn only_wrote_database_file(before: Host, after: Host) -> bool {
    &&& same_but(before, after, set![Place::Database])
    &&& before.files.contains_key(Place::Database) ==> {
        &&& after.files.contains_key(Place::Database)
        &&& after.files[Place::Database].metadata == (FileMetadata {
            len: after.files[Place::Database].metadata.len,
            ..before.files[Place::Database].metadata
        })
    }
}

/// The request asks the database for information only.
pub open spec fn only_reads(request: RegistryRequest<Seq<char>, Seq<u8>>) -> bool {
    match request {
        RegistryRequest::OpenReadOnly
        | RegistryRequest::QueryJournalMode
        | RegistryRequest::QueryForeignKeys
        | RegistryRequest::QueryUserVersion
        | RegistryRequest::ProbeMemberships
        | RegistryRequest::ProbeDevices
        | RegistryRequest::BeginDeferred
        | RegistryRequest::SelectMembership(_, _)
        | RegistryRequest::SelectDevice(_) => true,
        _ => false,
    }
}

/// Which replies the database of an installation can give, and how the installation changes.
pub open spec fn installation_answers(
    before: Installation,
    request: RegistryRequest<Seq<char>, Seq<u8>>,
    reply: RegistryReply<Seq<char>, Seq<u8>>,
    after: Installation,
) -> bool {
    &&& database_answers(before.database, request, reply, after.database)
    &&& if only_reads(request) {
        after.host == before.host
    } else {
        only_wrote_database_file(before.host, after.host)
    }
}

pub open spec fn installation_rules() -> spec_fn(
    Installation,
    RegistryRequest<Seq<char>, Seq<u8>>,
    RegistryReply<Seq<char>, Seq<u8>>,
    Installation,
) -> bool {
    |
        before: Installation,
        request: RegistryRequest<Seq<char>, Seq<u8>>,
        reply: RegistryReply<Seq<char>, Seq<u8>>,
        after: Installation,
    |
        installation_answers(before, request, reply, after)
}

/// Whether a course of work can end with a result and leave the installation in a state.
pub open spec fn ends<R>(
    plan: StartupPlan<R>,
    before: Installation,
    result: R,
    after: Installation,
) -> bool
    decreases plan,
{
    match plan {
        StartupPlan::Finish(value) => value == result && before == after,
        StartupPlan::AskHost(request, step) => exists|reply: OutsideReply<Seq<u8>>, next: Host|
            #[trigger] host_answers(before.host, request, reply, next) && ends(
                step(reply),
                Installation { host: next, ..before },
                result,
                after,
            ),
        StartupPlan::AskRegistry(request, step) => exists|
            reply: RegistryReply<Seq<char>, Seq<u8>>,
            next: Installation,
        | #[trigger]
            installation_answers(before, request, reply, next) && ends(
                step(reply),
                next,
                result,
                after,
            ),
    }
}

/// Whether an operation on the database can end with a result and leave the installation in a
/// state.
pub open spec fn registry_ends<R>(
    plan: RegistryPlan<R>,
    before: Installation,
    result: R,
    after: Installation,
) -> bool {
    can_end(plan, installation_rules(), before, result, after)
}

pub broadcast proof fn lemma_finish_ends<R>(
    value: R,
    before: Installation,
    result: R,
    after: Installation,
)
    requires
        #[trigger] ends(StartupPlan::Finish(value), before, result, after),
    ensures
        value == result,
        before == after,
{
}

pub broadcast proof fn lemma_on_host_ends<R, S>(
    plan: HostPlan<R>,
    next: spec_fn(R) -> StartupPlan<S>,
    before: Installation,
    result: S,
    after: Installation,
)
    requires
        #[trigger] ends(on_host(plan, next), before, result, after),
    ensures
        exists|value: R, middle: Host| #[trigger]
            crate::host::ends(plan, before.host, value, middle) && ends(
                next(value),
                Installation { host: middle, ..before },
                result,
                after,
            ),
    decreases plan,
{
    match plan {
        Plan::Finish(value) => {
            assert(crate::host::ends(plan, before.host, value, before.host));
            assert(Installation { host: before.host, ..before } == before);
        },
        Plan::Ask(request, step) => {
            let (reply, then) = choose|reply: OutsideReply<Seq<u8>>, then: Host| #[trigger]
                host_answers(before.host, request, reply, then) && ends(
                    on_host(step(reply), next),
                    Installation { host: then, ..before },
                    result,
                    after,
                );
            let between = Installation { host: then, ..before };
            lemma_on_host_ends(step(reply), next, between, result, after);
            let (value, middle) = choose|value: R, middle: Host| #[trigger]
                crate::host::ends(step(reply), then, value, middle) && ends(
                    next(value),
                    Installation { host: middle, ..between },
                    result,
                    after,
                );
            let rules = host_rules();
            assert(rules(before.host, request, reply, then));
            assert(crate::host::ends(plan, before.host, value, middle));
            assert(Installation { host: middle, ..between } == Installation {
                host: middle,
                ..before
            });
        },
    }
}

pub broadcast proof fn lemma_on_registry_ends<R, S>(
    plan: RegistryPlan<R>,
    next: spec_fn(R) -> StartupPlan<S>,
    before: Installation,
    result: S,
    after: Installation,
)
    requires
        #[trigger] ends(on_registry(plan, next), before, result, after),
    ensures
        exists|value: R, middle: Installation| #[trigger]
            registry_ends(plan, before, value, middle) && ends(next(value), middle, result, after),
    decreases plan,
{
    match plan {
        Plan::Finish(value) => {
            assert(registry_ends(plan, before, value, before));
        },
        Plan::Ask(request, step) => {
            let (reply, then) = choose|
                reply: RegistryReply<Seq<char>, Seq<u8>>,
                then: Installation,
            | #[trigger]
                installation_answers(before, request, reply, then) && ends(
                    on_registry(step(reply), next),
                    then,
                    result,
                    after,
                );
            lemma_on_registry_ends(step(reply), next, then, result, after);
            let (value, middle) = choose|value: R, middle: Installation| #[trigger]
                registry_ends(step(reply), then, value, middle) && ends(
                    next(value),
                    middle,
                    result,
                    after,
                );
            let rules = installation_rules();
            assert(rules(before, request, reply, then));
            assert(registry_ends(plan, before, value, middle));
        },
    }
}

pub broadcast proof fn lemma_startup_bind_ends<R, S>(
    plan: StartupPlan<R>,
    next: spec_fn(R) -> StartupPlan<S>,
    before: Installation,
    result: S,
    after: Installation,
)
    requires
        #[trigger] ends(startup_bind(plan, next), before, result, after),
    ensures
        exists|value: R, middle: Installation| #[trigger]
            ends(plan, before, value, middle) && ends(next(value), middle, result, after),
    decreases plan,
{
    match plan {
        StartupPlan::Finish(value) => {
            assert(ends(plan, before, value, before));
        },
        StartupPlan::AskHost(request, step) => {
            let (reply, then) = choose|reply: OutsideReply<Seq<u8>>, then: Host| #[trigger]
                host_answers(before.host, request, reply, then) && ends(
                    startup_bind(step(reply), next),
                    Installation { host: then, ..before },
                    result,
                    after,
                );
            let between = Installation { host: then, ..before };
            lemma_startup_bind_ends(step(reply), next, between, result, after);
            let (value, middle) = choose|value: R, middle: Installation| #[trigger]
                ends(step(reply), between, value, middle) && ends(
                    next(value),
                    middle,
                    result,
                    after,
                );
            assert(ends(plan, before, value, middle));
        },
        StartupPlan::AskRegistry(request, step) => {
            let (reply, then) = choose|
                reply: RegistryReply<Seq<char>, Seq<u8>>,
                then: Installation,
            | #[trigger]
                installation_answers(before, request, reply, then) && ends(
                    startup_bind(step(reply), next),
                    then,
                    result,
                    after,
                );
            lemma_startup_bind_ends(step(reply), next, then, result, after);
            let (value, middle) = choose|value: R, middle: Installation| #[trigger]
                ends(step(reply), then, value, middle) && ends(next(value), middle, result, after);
            assert(ends(plan, before, value, middle));
        },
    }
}

pub broadcast group group_startup_steps {
    lemma_finish_ends,
    lemma_on_host_ends,
    lemma_on_registry_ends,
    lemma_startup_bind_ends,
}

/// What an operation does to the database is what it does to the database of an installation,
/// and on the host it writes to the database file at most.
pub broadcast proof fn lemma_registry_part<R>(
    plan: RegistryPlan<R>,
    before: Installation,
    result: R,
    after: Installation,
)
    requires
        #[trigger] registry_ends(plan, before, result, after),
    ensures
        crate::registry_laws::ends(plan, before.database, result, after.database),
        only_wrote_database_file(before.host, after.host),
    decreases plan,
{
    match plan {
        Plan::Finish(value) => {},
        Plan::Ask(request, step) => {
            let rules = installation_rules();
            let (reply, then) = choose|
                reply: RegistryReply<Seq<char>, Seq<u8>>,
                then: Installation,
            | #[trigger]
                rules(before, request, reply, then) && can_end(
                    step(reply),
                    rules,
                    then,
                    result,
                    after,
                );
            assert(registry_ends(step(reply), then, result, after));
            lemma_registry_part(step(reply), then, result, after);
            let database = database_rules();
            assert(database(before.database, request, reply, then.database));
            assert(only_wrote_database_file(before.host, after.host)) by {
                assert(only_wrote_database_file(before.host, then.host));
                assert forall|place: Place| !set![Place::Database].contains(place) implies (
                #[trigger] after.host.files.contains_key(place) == before.host.files.contains_key(
                    place,
                ) && (before.host.files.contains_key(place) ==> after.host.files[place]
                    == before.host.files[place])) by {
                    assert(then.host.files.contains_key(place) == before.host.files.contains_key(
                        place,
                    ));
                }
            }
        },
    }
}

/// A plan all of whose requests ask for information only.
pub open spec fn is_reading<R>(plan: RegistryPlan<R>) -> bool
    decreases plan,
{
    match plan {
        Plan::Finish(_) => true,
        Plan::Ask(request, step) => only_reads(request) && forall|
            reply: RegistryReply<Seq<char>, Seq<u8>>,
        |
            is_reading(#[trigger] step(reply)),
    }
}

pub broadcast proof fn lemma_reading_bind<R, S>(plan: RegistryPlan<R>, next: spec_fn(R) -> RegistryPlan<S>)
    requires
        is_reading(plan),
        forall|value: R| is_reading(#[trigger] next(value)),
    ensures
        #[trigger] is_reading(bind(plan, next)),
    decreases plan,
{
    match plan {
        Plan::Finish(value) => {},
        Plan::Ask(request, step) => {
            if let Plan::Ask(_, then) = bind(plan, next) {
                assert forall|reply: RegistryReply<Seq<char>, Seq<u8>>| is_reading(
                    #[trigger] then(reply),
                ) by {
                    lemma_reading_bind(step(reply), next);
                }
            }
        },
    }
}

/// Reading leaves the whole host as it is.
pub broadcast proof fn lemma_reading_keeps_the_host<R>(
    plan: RegistryPlan<R>,
    before: Installation,
    result: R,
    after: Installation,
)
    requires
        #[trigger] registry_ends(plan, before, result, after),
        is_reading(plan),
    ensures
        after.host == before.host,
    decreases plan,
{
    match plan {
        Plan::Finish(value) => {},
        Plan::Ask(request, step) => {
            let rules = installation_rules();
            let (reply, then) = choose|
                reply: RegistryReply<Seq<char>, Seq<u8>>,
                then: Installation,
            | #[trigger]
                rules(before, request, reply, then) && can_end(
                    step(reply),
                    rules,
                    then,
                    result,
                    after,
                );
            assert(registry_ends(step(reply), then, result, after));
            lemma_reading_keeps_the_host(step(reply), then, result, after);
        },
    }
}

/// One reply that came in, from either party.
pub enum StartupStep {
    Host(OutsideReply<Seq<u8>>),
    Registry(RegistryReply<Seq<char>, Seq<u8>>),
}

/// The host's replies among the steps, in their order.
pub open spec fn host_replies(steps: Seq<StartupStep>) -> Seq<OutsideReply<Seq<u8>>>
    decreases steps.len(),
{
    if steps.len() == 0 {
        Seq::empty()
    } else {
        match steps[0] {
            StartupStep::Host(reply) => seq![reply] + host_replies(steps.drop_first()),
            StartupStep::Registry(_) => host_replies(steps.drop_first()),
        }
    }
}

/// The database's replies among the steps, in their order.
pub open spec fn registry_replies(steps: Seq<StartupStep>) -> Seq<RegistryReply<Seq<char>, Seq<u8>>>
    decreases steps.len(),
{
    if steps.len() == 0 {
        Seq::empty()
    } else {
        match steps[0] {
            StartupStep::Host(_) => registry_replies(steps.drop_first()),
            StartupStep::Registry(reply) => seq![reply] + registry_replies(steps.drop_first()),
        }
    }
}

/// Every request of the plan was answered by its party, from one state of the installation to the
/// next, until the plan was finished.
pub open spec fn is_startup_run<R>(
    plan: StartupPlan<R>,
    states: Seq<Installation>,
    steps: Seq<StartupStep>,
) -> bool
    decreases steps.len(),
{
    &&& states.len() == steps.len() + 1
    &&& match plan {
        StartupPlan::Finish(_) => steps.len() == 0,
        StartupPlan::AskHost(request, step) => steps.len() > 0 && match steps[0] {
            StartupStep::Host(reply) => {
                &&& host_answers(states[0].host, request, reply, states[1].host)
                &&& states[1].database == states[0].database
                &&& is_startup_run(step(reply), states.drop_first(), steps.drop_first())
            },
            StartupStep::Registry(_) => false,
        },
        StartupPlan::AskRegistry(request, step) => steps.len() > 0 && match steps[0] {
            StartupStep::Host(_) => false,
            StartupStep::Registry(reply) => {
                &&& installation_answers(states[0], request, reply, states[1])
                &&& is_startup_run(step(reply), states.drop_first(), steps.drop_first())
            },
        },
    }
}

/// What is known of where a course of work can end holds of every run of it: a run that was
/// answered to the end comes to a result, and the plan can end there.
pub proof fn startup_runs_end_where_plans_can<R>(
    plan: StartupPlan<R>,
    states: Seq<Installation>,
    steps: Seq<StartupStep>,
) -> (result: R)
    requires
        is_startup_run(plan, states, steps),
    ensures
        follow_startup(plan, host_replies(steps), registry_replies(steps)).progress
            == Progress::<StartupRequest<Seq<char>, Seq<u8>>, R>::Done(result),
        ends(plan, states[0], result, states.last()),
    decreases steps.len(),
{
    match plan {
        StartupPlan::Finish(value) => value,
        StartupPlan::AskHost(request, step) => {
            let reply = steps[0]->Host_0;
            let result = startup_runs_end_where_plans_can(
                step(reply),
                states.drop_first(),
                steps.drop_first(),
            );
            let replies = host_replies(steps);
            assert(replies[0] == reply);
            assert(replies.drop_first() =~= host_replies(steps.drop_first()));
            assert(states[1] == Installation { host: states[1].host, ..states[0] });
            assert(host_answers(states[0].host, request, reply, states[1].host));
            result
        },
        StartupPlan::AskRegistry(request, step) => {
            let reply = steps[0]->Registry_0;
            let result = startup_runs_end_where_plans_can(
                step(reply),
                states.drop_first(),
                steps.drop_first(),
            );
            let replies = registry_replies(steps);
            assert(replies[0] == reply);
            assert(replies.drop_first() =~= registry_replies(steps.drop_first()));
            assert(installation_answers(states[0], request, reply, states[1]));
            result
        },
    }
}

} // verus!
