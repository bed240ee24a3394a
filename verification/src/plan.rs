//! Outside work described as data.
//!
//! An operation that has to consult the outside world (a file system, a database, a helper
//! process) is a [`Plan`]: either a finished result, or one request together with what to do
//! for each possible reply. The executable form of an operation never performs a request
//! itself. It is handed the replies received so far and answers with the next request or with
//! the result ([`Progress`]), so the caller performs requests and the decisions stay here.
use vstd::prelude::*;

verus! {

/// A course of outside work: requests of type `Q`, replies of type `A`, a result of type `R`.
#[verifier::reject_recursive_types(Q)]
#[verifier::reject_recursive_types(A)]
#[verifier::reject_recursive_types(R)]
pub enum Plan<Q, A, R> {
    Finish(R),
    Ask(Q, spec_fn(A) -> Plan<Q, A, R>),
}

/// How far an operation came with the replies at hand.
pub enum Progress<Q, R> {
    Done(R),
    Waiting(Q),
}

/// First `plan`, and with its result the plan that `next` gives.
pub open spec fn bind<Q, A, R, S>(plan: Plan<Q, A, R>, next: spec_fn(R) -> Plan<Q, A, S>) -> Plan<Q, A, S>
    decreases plan,
{
    match plan {
        Plan::Finish(result) => next(result),
        Plan::Ask(request, step) => Plan::Ask(request, |reply: A| bind(step(reply), next)),
    }
}

/// First `plan`, and if it succeeds the plan that `next` gives for its value.
pub open spec fn and_then<Q, A, R, S, E>(
    plan: Plan<Q, A, Result<R, E>>,
    next: spec_fn(R) -> Plan<Q, A, Result<S, E>>,
) -> Plan<Q, A, Result<S, E>> {
    bind(
        plan,
        |outcome: Result<R, E>|
            match outcome {
                Ok(value) => next(value),
                Err(error) => Plan::Finish(Err(error)),
            },
    )
}

/// Walk `plan` along `replies`: the progress made, and the replies that were not consumed.
pub open spec fn follow<Q, A, R>(plan: Plan<Q, A, R>, replies: Seq<A>) -> (Progress<Q, R>, Seq<A>)
    decreases replies.len(),
{
    match plan {
        Plan::Finish(result) => (Progress::Done(result), replies),
        Plan::Ask(request, step) => if replies.len() == 0 {
            (Progress::Waiting(request), replies)
        } else {
            follow(step(replies[0]), replies.drop_first())
        },
    }
}

pub broadcast proof fn lemma_follow_bind<Q, A, R, S>(
    plan: Plan<Q, A, R>,
    next: spec_fn(R) -> Plan<Q, A, S>,
    replies: Seq<A>,
)
    ensures
        #[trigger] follow(bind(plan, next), replies) == (match follow(plan, replies) {
            (Progress::Done(result), rest) => follow(next(result), rest),
            (Progress::Waiting(request), rest) => (Progress::Waiting(request), rest),
        }),
    decreases replies.len(),
{
    match plan {
        Plan::Finish(result) => {},
        Plan::Ask(request, step) => {
            if replies.len() > 0 {
                lemma_follow_bind(step(replies[0]), next, replies.drop_first());
            }
        },
    }
}

/// Whether the plan can end with a result and leave the world in a state, where `rules` says which
/// replies a world can give to a request and which world then follows.
pub open spec fn can_end<Q, A, R, W>(
    plan: Plan<Q, A, R>,
    rules: spec_fn(W, Q, A, W) -> bool,
    world: W,
    result: R,
    after: W,
) -> bool
    decreases plan,
{
    match plan {
        Plan::Finish(value) => value == result && world == after,
        Plan::Ask(request, step) => exists|reply: A, next: W| #[trigger]
            rules(world, request, reply, next) && can_end(step(reply), rules, next, result, after),
    }
}

/// The first part of a plan ends somewhere, and the second goes on from there.
pub broadcast proof fn lemma_can_end_bind<Q, A, R, S, W>(
    plan: Plan<Q, A, R>,
    next: spec_fn(R) -> Plan<Q, A, S>,
    rules: spec_fn(W, Q, A, W) -> bool,
    world: W,
    result: S,
    after: W,
)
    requires
        #[trigger] can_end(bind(plan, next), rules, world, result, after),
    ensures
        exists|value: R, middle: W| #[trigger]
            can_end(plan, rules, world, value, middle) && can_end(
                next(value),
                rules,
                middle,
                result,
                after,
            ),
    decreases plan,
{
    match plan {
        Plan::Finish(value) => {
            assert(can_end(plan, rules, world, value, world));
        },
        Plan::Ask(request, step) => {
            let (reply, then) = choose|reply: A, then: W| #[trigger]
                rules(world, request, reply, then) && can_end(
                    bind(step(reply), next),
                    rules,
                    then,
                    result,
                    after,
                );
            lemma_can_end_bind(step(reply), next, rules, then, result, after);
            let (value, middle) = choose|value: R, middle: W| #[trigger]
                can_end(step(reply), rules, then, value, middle) && can_end(
                    next(value),
                    rules,
                    middle,
                    result,
                    after,
                );
            assert(can_end(plan, rules, world, value, middle));
        },
    }
}

/// Where a plan can end under some rules, it can end under any that allow more.
pub proof fn lemma_can_end_under<Q, A, R, W>(
    plan: Plan<Q, A, R>,
    narrow: spec_fn(W, Q, A, W) -> bool,
    wide: spec_fn(W, Q, A, W) -> bool,
    world: W,
    result: R,
    after: W,
)
    requires
        can_end(plan, narrow, world, result, after),
        forall|before: W, request: Q, reply: A, then: W| #[trigger]
            narrow(before, request, reply, then) ==> wide(before, request, reply, then),
    ensures
        can_end(plan, wide, world, result, after),
    decreases plan,
{
    match plan {
        Plan::Finish(_) => {},
        Plan::Ask(request, step) => {
            let (reply, then) = choose|reply: A, then: W| #[trigger]
                narrow(world, request, reply, then) && can_end(
                    step(reply),
                    narrow,
                    then,
                    result,
                    after,
                );
            lemma_can_end_under(step(reply), narrow, wide, then, result, after);
            assert(wide(world, request, reply, then));
        },
    }
}

/// Every request along the replies was answered by the rules, from one world to the next.
pub open spec fn is_run<Q, A, R, W>(
    plan: Plan<Q, A, R>,
    rules: spec_fn(W, Q, A, W) -> bool,
    worlds: Seq<W>,
    replies: Seq<A>,
) -> bool {
    &&& worlds.len() == replies.len() + 1
    &&& forall|i: int|
        0 <= i < replies.len() ==> (follow(plan, #[trigger] replies.take(i)).0 matches Progress::Waiting(
            request,
        ) && rules(worlds[i], request, replies[i], worlds[i + 1]))
}

/// What is known of where a plan can end holds of every run of it: an operation that came to a
/// result along replies which a world gave ends where its plan can end.
pub proof fn runs_end_where_plans_can<Q, A, R, W>(
    plan: Plan<Q, A, R>,
    rules: spec_fn(W, Q, A, W) -> bool,
    worlds: Seq<W>,
    replies: Seq<A>,
    result: R,
)
    requires
        is_run(plan, rules, worlds, replies),
        follow(plan, replies).0 == Progress::<Q, R>::Done(result),
    ensures
        can_end(plan, rules, worlds[0], result, worlds.last()),
    decreases replies.len(),
{
    match plan {
        Plan::Finish(value) => {
            if replies.len() > 0 {
                assert(follow(plan, replies.take(0)).0 is Waiting);
            }
        },
        Plan::Ask(request, step) => {
            assert(replies.len() > 0);
            assert(replies.take(0).len() == 0);
            assert(follow(plan, replies.take(0)).0 == Progress::<Q, R>::Waiting(request));
            let next = step(replies[0]);
            let rest = replies.drop_first();
            let later = worlds.drop_first();
            assert forall|i: int| 0 <= i < rest.len() implies (follow(
                next,
                #[trigger] rest.take(i),
            ).0 matches Progress::Waiting(asked) && rules(later[i], asked, rest[i], later[i + 1])) by {
                let taken = replies.take(i + 1);
                assert(taken.drop_first() == rest.take(i));
                assert(taken[0] == replies[0]);
                assert(follow(plan, taken).0 is Waiting);
            }
            runs_end_where_plans_can(next, rules, later, rest, result);
            assert(rules(worlds[0], request, replies[0], worlds[1]));
        },
    }
}

} // verus!
