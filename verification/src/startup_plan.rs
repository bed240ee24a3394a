//! Courses of work that consult both the host and the database.
//!
//! Starting up needs files and helper processes as well as the registry. A [`StartupPlan`] is a
//! [`Plan`] with two parties to ask, each with its own replies in the order in which they came.
use vstd::prelude::*;

use crate::durable_registry_sqlite_store::{
    registry_reply_views, RegistryPlan, RegistryReplies, RegistryReply, RegistryRequest,
};
use crate::outside::{reply_views, HostPlan, OutsideReply, OutsideRequest, Replies};
use crate::plan::{follow, Plan, Progress};

verus! {

/// One thing that is asked of the host or of the database.
pub enum StartupRequest<S, B> {
    Host(OutsideRequest<B>),
    Registry(RegistryRequest<S, B>),
}

impl StartupRequest<String, Vec<u8>> {
    pub open spec fn view(&self) -> StartupRequest<Seq<char>, Seq<u8>> {
        match *self {
            StartupRequest::Host(request) => StartupRequest::Host(request@),
            StartupRequest::Registry(request) => StartupRequest::Registry(request@),
        }
    }
}

/// A course of work that asks the host and the database.
#[verifier::reject_recursive_types(R)]
pub enum StartupPlan<R> {
    Finish(R),
    AskHost(OutsideRequest<Seq<u8>>, spec_fn(OutsideReply<Seq<u8>>) -> StartupPlan<R>),
    AskRegistry(
        RegistryRequest<Seq<char>, Seq<u8>>,
        spec_fn(RegistryReply<Seq<char>, Seq<u8>>) -> StartupPlan<R>,
    ),
}

/// First a plan that only asks the host, and with its result the plan that `next` gives.
pub open spec fn on_host<R, S>(plan: HostPlan<R>, next: spec_fn(R) -> StartupPlan<S>) -> StartupPlan<S>
    decreases plan,
{
    match plan {
        Plan::Finish(result) => next(result),
        Plan::Ask(request, step) => StartupPlan::AskHost(
            request,
            |reply: OutsideReply<Seq<u8>>| on_host(step(reply), next),
        ),
    }
}

/// First a plan that only asks the database, and with its result the plan that `next` gives.
pub open spec fn on_registry<R, S>(plan: RegistryPlan<R>, next: spec_fn(R) -> StartupPlan<S>) -> StartupPlan<S>
    decreases plan,
{
    match plan {
        Plan::Finish(result) => next(result),
        Plan::Ask(request, step) => StartupPlan::AskRegistry(
            request,
            |reply: RegistryReply<Seq<char>, Seq<u8>>| on_registry(step(reply), next),
        ),
    }
}

/// First `plan`, and with its result the plan that `next` gives.
pub open spec fn startup_bind<R, S>(plan: StartupPlan<R>, next: spec_fn(R) -> StartupPlan<S>) -> StartupPlan<S>
    decreases plan,
{
    match plan {
        StartupPlan::Finish(result) => next(result),
        StartupPlan::AskHost(request, step) => StartupPlan::AskHost(
            request,
            |reply: OutsideReply<Seq<u8>>| startup_bind(step(reply), next),
        ),
        StartupPlan::AskRegistry(request, step) => StartupPlan::AskRegistry(
            request,
            |reply: RegistryReply<Seq<char>, Seq<u8>>| startup_bind(step(reply), next),
        ),
    }
}

/// Where a plan stands: the progress made, and the replies of each party that were not consumed.
pub struct Standing<R> {
    pub progress: Progress<StartupRequest<Seq<char>, Seq<u8>>, R>,
    pub host: Seq<OutsideReply<Seq<u8>>>,
    pub registry: Seq<RegistryReply<Seq<char>, Seq<u8>>>,
}

/// Walk `plan` along the replies of both parties.
pub open spec fn follow_startup<R>(
    plan: StartupPlan<R>,
    host: Seq<OutsideReply<Seq<u8>>>,
    registry: Seq<RegistryReply<Seq<char>, Seq<u8>>>,
) -> Standing<R>
    decreases host.len() + registry.len(),
{
    match plan {
        StartupPlan::Finish(result) => Standing { progress: Progress::Done(result), host, registry },
        StartupPlan::AskHost(request, step) => if host.len() == 0 {
            Standing { progress: Progress::Waiting(StartupRequest::Host(request)), host, registry }
        } else {
            follow_startup(step(host[0]), host.drop_first(), registry)
        },
        StartupPlan::AskRegistry(request, step) => if registry.len() == 0 {
            Standing {
                progress: Progress::Waiting(StartupRequest::Registry(request)),
                host,
                registry,
            }
        } else {
            follow_startup(step(registry[0]), host, registry.drop_first())
        },
    }
}

pub broadcast proof fn lemma_follow_on_host<R, S>(
    plan: HostPlan<R>,
    next: spec_fn(R) -> StartupPlan<S>,
    host: Seq<OutsideReply<Seq<u8>>>,
    registry: Seq<RegistryReply<Seq<char>, Seq<u8>>>,
)
    ensures
        #[trigger] follow_startup(on_host(plan, next), host, registry) == (match follow(plan, host) {
            (Progress::Done(result), rest) => follow_startup(next(result), rest, registry),
            (Progress::Waiting(request), rest) => Standing {
                progress: Progress::Waiting(StartupRequest::Host(request)),
                host: rest,
                registry,
            },
        }),
    decreases host.len(),
{
    match plan {
        Plan::Finish(result) => {},
        Plan::Ask(request, step) => {
            if host.len() > 0 {
                lemma_follow_on_host(step(host[0]), next, host.drop_first(), registry);
            }
        },
    }
}

pub broadcast proof fn lemma_follow_on_registry<R, S>(
    plan: RegistryPlan<R>,
    next: spec_fn(R) -> StartupPlan<S>,
    host: Seq<OutsideReply<Seq<u8>>>,
    registry: Seq<RegistryReply<Seq<char>, Seq<u8>>>,
)
    ensures
        #[trigger] follow_startup(on_registry(plan, next), host, registry) == (match follow(
            plan,
            registry,
        ) {
            (Progress::Done(result), rest) => follow_startup(next(result), host, rest),
            (Progress::Waiting(request), rest) => Standing {
                progress: Progress::Waiting(StartupRequest::Registry(request)),
                host,
                registry: rest,
            },
        }),
    decreases registry.len(),
{
    match plan {
        Plan::Finish(result) => {},
        Plan::Ask(request, step) => {
            if registry.len() > 0 {
                lemma_follow_on_registry(step(registry[0]), next, host, registry.drop_first());
            }
        },
    }
}

pub broadcast proof fn lemma_follow_startup_bind<R, S>(
    plan: StartupPlan<R>,
    next: spec_fn(R) -> StartupPlan<S>,
    host: Seq<OutsideReply<Seq<u8>>>,
    registry: Seq<RegistryReply<Seq<char>, Seq<u8>>>,
)
    ensures
        #[trigger] follow_startup(startup_bind(plan, next), host, registry) == ({
            let first = follow_startup(plan, host, registry);
            match first.progress {
                Progress::Done(result) => follow_startup(next(result), first.host, first.registry),
                Progress::Waiting(request) => Standing {
                    progress: Progress::Waiting(request),
                    host: first.host,
                    registry: first.registry,
                },
            }
        }),
    decreases host.len() + registry.len(),
{
    match plan {
        StartupPlan::Finish(result) => {},
        StartupPlan::AskHost(request, step) => {
            if host.len() > 0 {
                lemma_follow_startup_bind(step(host[0]), next, host.drop_first(), registry);
            }
        },
        StartupPlan::AskRegistry(request, step) => {
            if registry.len() > 0 {
                lemma_follow_startup_bind(step(registry[0]), next, host, registry.drop_first());
            }
        },
    }
}

pub broadcast group group_follow_startup {
    lemma_follow_on_host,
    lemma_follow_on_registry,
    lemma_follow_startup_bind,
}

/// The replies of both parties received so far, and how many of each have been used.
pub struct StartupReplies<'a> {
    pub host: Replies<'a>,
    pub registry: RegistryReplies<'a>,
}

impl<'a> StartupReplies<'a> {
    pub open spec fn wf(&self) -> bool {
        self.host.wf() && self.registry.wf()
    }

    pub fn new(
        host: &'a Vec<OutsideReply<Vec<u8>>>,
        registry: &'a Vec<RegistryReply<String, Vec<u8>>>,
    ) -> (replies: StartupReplies<'a>)
        ensures
            replies.wf(),
            replies.host.rest() == reply_views(host@),
            replies.registry.rest() == registry_reply_views(registry@),
    {
        StartupReplies { host: Replies::new(host), registry: RegistryReplies::new(registry) }
    }
}

/// An operation went along `plan` from `before` to `after` and came to `outcome`: a value, or
/// the request that has to be performed first.
pub open spec fn startup_went_along<R>(
    plan: StartupPlan<R>,
    before: StartupReplies<'_>,
    outcome: Result<R, StartupRequest<String, Vec<u8>>>,
    after: StartupReplies<'_>,
) -> bool {
    &&& after.wf()
    &&& follow_startup(plan, before.host.rest(), before.registry.rest()) == (Standing {
        progress: match outcome {
            Ok(value) => Progress::Done(value),
            Err(request) => Progress::Waiting(request@),
        },
        host: after.host.rest(),
        registry: after.registry.rest(),
    })
}

/// What an operation has come to with the replies at hand.
pub open spec fn startup_progress<R>(progress: Progress<StartupRequest<String, Vec<u8>>, R>) -> Progress<
    StartupRequest<Seq<char>, Seq<u8>>,
    R,
> {
    match progress {
        Progress::Done(result) => Progress::Done(result),
        Progress::Waiting(request) => Progress::Waiting(request@),
    }
}

/// The outcome of a part that only asked the host.
pub fn from_host<R>(outcome: Result<R, OutsideRequest<Vec<u8>>>) -> (lifted: Result<
    R,
    StartupRequest<String, Vec<u8>>,
>)
    ensures
        lifted == (match outcome {
            Ok(value) => Ok(value),
            Err(request) => Err(StartupRequest::<String, Vec<u8>>::Host(request)),
        }),
{
    match outcome {
        Ok(value) => Ok(value),
        Err(request) => Err(StartupRequest::Host(request)),
    }
}

/// The outcome of a part that only asked the database.
pub fn from_registry<R>(outcome: Result<R, RegistryRequest<String, Vec<u8>>>) -> (lifted: Result<
    R,
    StartupRequest<String, Vec<u8>>,
>)
    ensures
        lifted == (match outcome {
            Ok(value) => Ok(value),
            Err(request) => Err(StartupRequest::<String, Vec<u8>>::Registry(request)),
        }),
{
    match outcome {
        Ok(value) => Ok(value),
        Err(request) => Err(StartupRequest::Registry(request)),
    }
}

} // verus!
