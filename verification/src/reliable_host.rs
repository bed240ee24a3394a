//! A host that does not fail: what it is asked about is reported, what is there can be opened and
//! read. On such a host a record that was written is read back.
use vstd::prelude::*;

use crate::custody::{read_record_plan, require_private_directory_plan, state_root_plan, RecordKind};
use crate::host::{first_bytes, host_answers, Host, HostRules};
use crate::outside::{
    look_up, look_up_opened, obtain, perform, HostPlan, Lookup, OutsideReply, OutsideRequest,
    Place,
};
use crate::plan::{bind, can_end, lemma_can_end_bind, Plan};

verus! {

/// The host answers as it can, and does not fail to report, open or read.
pub open spec fn reliable_answers(
    before: Host,
    request: OutsideRequest<Seq<u8>>,
    reply: OutsideReply<Seq<u8>>,
    after: Host,
) -> bool {
    &&& host_answers(before, request, reply, after)
    &&& match request {
        OutsideRequest::Metadata(_) => reply is Metadata || reply is NotFound,
        OutsideRequest::OpenedMetadata(_) => reply is Metadata || reply is NotFound,
        OutsideRequest::Exists(place) => reply == OutsideReply::<Seq<u8>>::Flag(
            before.files.contains_key(place),
        ) || (before.files.contains_key(place) && before.files[place].metadata.is_symlink),
        OutsideRequest::Open(place) => before.files.contains_key(place) ==> reply is Completed,
        OutsideRequest::Read(place, _) => before.files.contains_key(place) ==> reply is Bytes,
        _ => true,
    }
}

pub open spec fn reliable_rules() -> HostRules {
    |before: Host, request: OutsideRequest<Seq<u8>>, reply: OutsideReply<Seq<u8>>, after: Host|
        reliable_answers(before, request, reply, after)
}

/// Whether an operation on a host that does not fail can end with a result.
pub open spec fn ends_reliably<R>(plan: HostPlan<R>, host: Host, result: R, after: Host) -> bool {
    can_end(plan, reliable_rules(), host, result, after)
}

pub broadcast proof fn lemma_finish<R>(value: R, host: Host, result: R, after: Host)
    requires
        #[trigger] ends_reliably(Plan::Finish(value), host, result, after),
    ensures
        value == result,
        host == after,
{
}

pub broadcast proof fn lemma_bind<R, S>(
    plan: HostPlan<R>,
    next: spec_fn(R) -> HostPlan<S>,
    host: Host,
    result: S,
    after: Host,
)
    requires
        #[trigger] ends_reliably(bind(plan, next), host, result, after),
    ensures
        exists|value: R, middle: Host| #[trigger]
            ends_reliably(plan, host, value, middle) && ends_reliably(
                next(value),
                middle,
                result,
                after,
            ),
{
    lemma_can_end_bind(plan, next, reliable_rules(), host, result, after);
    let (value, middle) = choose|value: R, middle: Host| #[trigger]
        can_end(plan, reliable_rules(), host, value, middle) && can_end(
            next(value),
            reliable_rules(),
            middle,
            result,
            after,
        );
    assert(ends_reliably(plan, host, value, middle));
}

pub broadcast proof fn lemma_look_up(place: Place, host: Host, found: Lookup, after: Host)
    requires
        #[trigger] ends_reliably(look_up(place), host, found, after),
    ensures
        after == host,
        found == (if host.files.contains_key(place) {
            Lookup::Found(host.files[place].metadata)
        } else {
            Lookup::Missing
        }),
{
    reveal_with_fuel(can_end, 2);
}

pub broadcast proof fn lemma_look_up_opened(place: Place, host: Host, found: Lookup, after: Host)
    requires
        #[trigger] ends_reliably(look_up_opened(place), host, found, after),
    ensures
        after == host,
        found == (if host.files.contains_key(place) {
            Lookup::Found(host.files[place].metadata)
        } else {
            Lookup::Missing
        }),
{
    reveal_with_fuel(can_end, 2);
}

pub broadcast proof fn lemma_open(place: Place, host: Host, opened: bool, after: Host)
    requires
        #[trigger] ends_reliably(perform(OutsideRequest::Open(place)), host, opened, after),
        host.files.contains_key(place),
    ensures
        after == host,
        opened,
{
    reveal_with_fuel(can_end, 2);
}

pub broadcast proof fn lemma_read(
    place: Place,
    limit: u64,
    host: Host,
    bytes: Option<Seq<u8>>,
    after: Host,
)
    requires
        #[trigger] ends_reliably(obtain(OutsideRequest::Read(place, limit)), host, bytes, after),
        host.files.contains_key(place),
    ensures
        after == host,
        bytes == Some(first_bytes(host.files[place].content, limit as int)),
{
    reveal_with_fuel(can_end, 2);
}

pub broadcast group group_reliable_steps {
    lemma_finish,
    lemma_bind,
    lemma_look_up,
    lemma_look_up_opened,
    lemma_open,
    lemma_read,
}

/// A trusted root is accepted.
pub broadcast proof fn lemma_state_root_is_accepted<E>(
    absolute: bool,
    uid: u32,
    invalid: E,
    insecure: E,
    host: Host,
    result: Result<(), E>,
    after: Host,
)
    requires
        #[trigger] ends_reliably(
            state_root_plan(absolute, uid, invalid, insecure),
            host,
            result,
            after,
        ),
        absolute,
        host.has_user_directory(Place::StateRoot, uid),
    ensures
        after == host,
        result is Ok,
{
    broadcast use group_reliable_steps;

}

/// A private directory is accepted.
pub broadcast proof fn lemma_private_directory_is_accepted<E>(
    place: Place,
    uid: u32,
    insecure: E,
    host: Host,
    result: Result<(), E>,
    after: Host,
)
    requires
        #[trigger] ends_reliably(
            require_private_directory_plan(place, uid, insecure),
            host,
            result,
            after,
        ),
        host.has_private_directory(place, uid),
    ensures
        after == host,
        result is Ok,
{
    broadcast use group_reliable_steps;

}

/// A trusted record is read.
pub broadcast proof fn lemma_record_is_read<E>(
    place: Place,
    kind: RecordKind,
    uid: u32,
    limit: u64,
    unavailable: E,
    insecure: E,
    read_failed: E,
    host: Host,
    result: Result<Seq<u8>, E>,
    after: Host,
)
    requires
        #[trigger] ends_reliably(
            read_record_plan(place, kind, uid, limit, unavailable, insecure, read_failed),
            host,
            result,
            after,
        ),
        host.has_record(place, kind, uid),
    ensures
        after == host,
        result == Ok::<Seq<u8>, E>(first_bytes(host.files[place].content, limit as int)),
{
    broadcast use group_reliable_steps;

}

/// What opening and reading a record comes to: it has to be there and be trusted.
pub broadcast proof fn lemma_record_decides<E>(
    place: Place,
    kind: RecordKind,
    uid: u32,
    limit: u64,
    unavailable: E,
    insecure: E,
    read_failed: E,
    host: Host,
    result: Result<Seq<u8>, E>,
    after: Host,
)
    requires
        #[trigger] ends_reliably(
            read_record_plan(place, kind, uid, limit, unavailable, insecure, read_failed),
            host,
            result,
            after,
        ),
    ensures
        after == host,
        result == (if !host.files.contains_key(place) {
            Err::<Seq<u8>, E>(unavailable)
        } else if !host.has_record(place, kind, uid) {
            Err(insecure)
        } else {
            Ok(first_bytes(host.files[place].content, limit as int))
        }),
{
    broadcast use group_reliable_steps;

}

pub broadcast group group_reliable_reads {
    lemma_finish,
    lemma_bind,
    lemma_state_root_is_accepted,
    lemma_private_directory_is_accepted,
    lemma_record_is_read,
}

} // verus!
