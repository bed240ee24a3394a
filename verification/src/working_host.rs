//! Two hosts that do better than the host at large.
//!
//! On a tidy host a file that is there can be removed. On a working host everything that a record
//! takes works too: what is there is reported, opened and read, what is absent can be created, and
//! what is written stays written. On a working host a record that was absent is created.
use vstd::prelude::*;

use crate::custody::{
    create_directory_plan, ensure_private_directory_plan, publish_plan, require_absent_plan,
    settle_plan, state_root_plan, withdraw_plan, write_temporary_plan, RecordKind, PERMISSION_BITS,
};
use crate::host::{
    changed_only, ends, host_answers, host_rules, lemma_create_directory_ends, lemma_others_stay,
    lemma_publish_ends, lemma_require_absent_ends, lemma_write_temporary_ends, same_but, Host,
    HostRules,
};
use crate::outside::{
    look_up, look_up_opened, perform, FileMetadata, HostPlan, Lookup, OutsideReply, OutsideRequest,
    Place,
};
use crate::plan::{bind, can_end, lemma_can_end_bind, lemma_can_end_under, Plan};
use crate::reliable_host::{
    ends_reliably, lemma_look_up, lemma_look_up_opened, lemma_state_root_is_accepted,
    reliable_answers, reliable_rules,
};

verus! {

/// The host answers as it can, and removes what is there when it is asked to.
pub open spec fn tidy_answers(
    before: Host,
    request: OutsideRequest<Seq<u8>>,
    reply: OutsideReply<Seq<u8>>,
    after: Host,
) -> bool {
    &&& host_answers(before, request, reply, after)
    &&& request matches OutsideRequest::Remove(place) ==> before.files.contains_key(place) ==> reply
        is Completed
}

pub open spec fn tidy_rules() -> HostRules {
    |before: Host, request: OutsideRequest<Seq<u8>>, reply: OutsideReply<Seq<u8>>, after: Host|
        tidy_answers(before, request, reply, after)
}

/// Whether an operation on a host where removals work can end with a result.
pub open spec fn ends_tidily<R>(plan: HostPlan<R>, host: Host, result: R, after: Host) -> bool {
    can_end(plan, tidy_rules(), host, result, after)
}

/// What holds of every host holds of a tidy one.
pub proof fn lemma_tidy_host<R>(plan: HostPlan<R>, host: Host, result: R, after: Host)
    requires
        ends_tidily(plan, host, result, after),
    ensures
        ends(plan, host, result, after),
{
    lemma_can_end_under(plan, tidy_rules(), host_rules(), host, result, after);
}

pub broadcast proof fn lemma_finish_tidily<R>(value: R, host: Host, result: R, after: Host)
    requires
        #[trigger] ends_tidily(Plan::Finish(value), host, result, after),
    ensures
        value == result,
        host == after,
{
}

pub broadcast proof fn lemma_bind_tidily<R, S>(
    plan: HostPlan<R>,
    next: spec_fn(R) -> HostPlan<S>,
    host: Host,
    result: S,
    after: Host,
)
    requires
        #[trigger] ends_tidily(bind(plan, next), host, result, after),
    ensures
        exists|value: R, middle: Host| #[trigger]
            ends_tidily(plan, host, value, middle) && ends_tidily(
                next(value),
                middle,
                result,
                after,
            ),
{
    lemma_can_end_bind(plan, next, tidy_rules(), host, result, after);
    let (value, middle) = choose|value: R, middle: Host| #[trigger]
        can_end(plan, tidy_rules(), host, value, middle) && can_end(
            next(value),
            tidy_rules(),
            middle,
            result,
            after,
        );
    assert(ends_tidily(plan, host, value, middle));
}

pub broadcast proof fn lemma_look_up_tidily(place: Place, host: Host, found: Lookup, after: Host)
    requires
        #[trigger] ends_tidily(look_up(place), host, found, after),
    ensures
        after == host,
{
    reveal_with_fuel(can_end, 2);
}

pub broadcast proof fn lemma_perform_tidily(
    request: OutsideRequest<Seq<u8>>,
    host: Host,
    done: bool,
    after: Host,
)
    requires
        #[trigger] ends_tidily(perform(request), host, done, after),
    ensures
        exists|reply: OutsideReply<Seq<u8>>| #[trigger]
            tidy_answers(host, request, reply, after) && done == (reply is Completed),
{
    reveal_with_fuel(can_end, 2);
    let rules = tidy_rules();
    let (reply, next) = choose|reply: OutsideReply<Seq<u8>>, next: Host| #[trigger]
        rules(host, request, reply, next) && can_end(
            Plan::Finish(reply is Completed),
            rules,
            next,
            done,
            after,
        );
    assert(tidy_answers(host, request, reply, after));
}

/// After a removal nothing is at the place.
pub broadcast proof fn lemma_remove_tidily(place: Place, host: Host, done: bool, after: Host)
    requires
        #[trigger] ends_tidily(perform(OutsideRequest::Remove(place)), host, done, after),
    ensures
        after == (Host { files: host.files.remove(place), ..host }),
{
    lemma_perform_tidily(OutsideRequest::Remove(place), host, done, after);
    assert(!host.files.contains_key(place) ==> host.files.remove(place) =~= host.files);
}

pub broadcast proof fn lemma_require_absent_tidily<E>(
    place: Place,
    present: E,
    host: Host,
    result: Result<(), E>,
    after: Host,
)
    requires
        #[trigger] ends_tidily(require_absent_plan(place, present), host, result, after),
    ensures
        after == host,
        result is Ok ==> !host.files.contains_key(place),
{
    lemma_tidy_host(require_absent_plan(place, present), host, result, after);
    lemma_require_absent_ends(place, present, host, result, after);
}

pub broadcast group group_tidy_steps {
    lemma_finish_tidily,
    lemma_bind_tidily,
    lemma_look_up_tidily,
    lemma_perform_tidily,
    lemma_remove_tidily,
    lemma_require_absent_tidily,
}

pub broadcast proof fn lemma_withdraw_tidily<R, E>(
    place: Place,
    directory: Place,
    error: E,
    host: Host,
    result: Result<R, E>,
    after: Host,
)
    requires
        #[trigger] ends_tidily(withdraw_plan::<R, E>(place, directory, error), host, result, after),
    ensures
        result == Err::<R, E>(error),
        after == (Host { files: host.files.remove(place), ..host }),
{
    broadcast use group_tidy_steps;

}

/// A file that could not be settled is left in neither place.
pub broadcast proof fn lemma_settle_tidily<E>(
    from: Place,
    to: Place,
    directory: Place,
    written: FileMetadata,
    kind: RecordKind,
    uid: u32,
    commit_failed: E,
    sync_failed: E,
    host: Host,
    result: Result<(), E>,
    after: Host,
)
    requires
        #[trigger] ends_tidily(
            settle_plan(from, to, directory, written, kind, uid, commit_failed, sync_failed),
            host,
            result,
            after,
        ),
    ensures
        !after.files.contains_key(from) || from == to,
        result is Err && !host.files.contains_key(to) ==> !after.files.contains_key(to),
{
    broadcast use {group_tidy_steps, lemma_withdraw_tidily};

}

/// A record that could not be published is not left behind, and neither is its temporary file.
pub broadcast proof fn lemma_publish_tidily<E>(
    temporary: Place,
    to: Place,
    directory: Place,
    payload: Seq<u8>,
    kind: RecordKind,
    uid: u32,
    write_failed: E,
    commit_failed: E,
    sync_failed: E,
    host: Host,
    result: Result<(), E>,
    after: Host,
)
    requires
        #[trigger] ends_tidily(
            publish_plan(
                temporary,
                to,
                directory,
                payload,
                kind,
                uid,
                write_failed,
                commit_failed,
                sync_failed,
            ),
            host,
            result,
            after,
        ),
        temporary != to,
    ensures
        result is Err && !host.files.contains_key(to) ==> !after.files.contains_key(to),
        !host.files.contains_key(temporary) ==> !after.files.contains_key(temporary),
        same_but(host, after, set![temporary, to]),
{
    broadcast use {
        group_tidy_steps,
        lemma_write_temporary_tidily,
        lemma_settle_tidily,
        lemma_others_stay,
    };

    let plan = publish_plan(
        temporary,
        to,
        directory,
        payload,
        kind,
        uid,
        write_failed,
        commit_failed,
        sync_failed,
    );
    lemma_tidy_host(plan, host, result, after);
    lemma_publish_ends(
        temporary,
        to,
        directory,
        payload,
        kind,
        uid,
        write_failed,
        commit_failed,
        sync_failed,
        host,
        result,
        after,
    );
}

broadcast proof fn lemma_write_temporary_tidily<E>(
    temporary: Place,
    payload: Seq<u8>,
    kind: RecordKind,
    uid: u32,
    write_failed: E,
    host: Host,
    result: Result<FileMetadata, E>,
    after: Host,
)
    requires
        #[trigger] ends_tidily(
            write_temporary_plan(temporary, payload, kind, uid, write_failed),
            host,
            result,
            after,
        ),
    ensures
        changed_only(host, after, temporary),
{
    lemma_tidy_host(
        write_temporary_plan(temporary, payload, kind, uid, write_failed),
        host,
        result,
        after,
    );
    lemma_write_temporary_ends(temporary, payload, kind, uid, write_failed, host, result, after);
}

/// Permission bits were set and nothing else of the metadata changed.
pub open spec fn mode_was_set(before: FileMetadata, mode: u32, after: FileMetadata) -> bool {
    &&& after == (FileMetadata { mode: after.mode, ..before })
    &&& after.mode & PERMISSION_BITS == mode & PERMISSION_BITS
}

/// The host of this user works: it does not fail to report, open or read, what is absent can be
/// created, and what is there can be written, renamed and removed. Random values can be drawn.
pub open spec fn working_answers(
    uid: u32,
    before: Host,
    request: OutsideRequest<Seq<u8>>,
    reply: OutsideReply<Seq<u8>>,
    after: Host,
) -> bool {
    &&& reliable_answers(before, request, reply, after)
    &&& match request {
        OutsideRequest::CreateDirectory(place) => !before.files.contains_key(place) ==> {
            let made = after.files[place].metadata;
            reply is Completed && !made.is_symlink && made.is_dir && made.uid == uid
        },
        OutsideRequest::SetMode(place, mode) | OutsideRequest::SetOpenedMode(place, mode) =>
            before.files.contains_key(place) ==> reply is Completed && mode_was_set(
                before.files[place].metadata,
                mode,
                after.files[place].metadata,
            ),
        OutsideRequest::CreateNew(place, mode) => !before.files.contains_key(place) ==> {
            let made = after.files[place].metadata;
            reply is Completed && !made.is_symlink && made.is_file && made.uid == uid
        },
        OutsideRequest::WriteAndSync(place, bytes) => before.files.contains_key(place)
            && bytes.len() <= u64::MAX ==> reply is Completed && after.files[place].metadata == (
        FileMetadata { len: bytes.len() as u64, ..before.files[place].metadata }),
        OutsideRequest::RenameNoReplace(from, to) => before.files.contains_key(from)
            && !before.files.contains_key(to) ==> reply is Completed,
        OutsideRequest::Remove(place) => before.files.contains_key(place) ==> reply is Completed,
        OutsideRequest::SyncDirectory(place) => before.files.contains_key(place) ==> reply
            is Completed,
        OutsideRequest::OwnerEntropy => reply is Entropy,
        _ => true,
    }
}

pub open spec fn working_rules(uid: u32) -> HostRules {
    |before: Host, request: OutsideRequest<Seq<u8>>, reply: OutsideReply<Seq<u8>>, after: Host|
        working_answers(uid, before, request, reply, after)
}

/// Whether an operation on a working host can end with a result.
pub open spec fn ends_working<R>(
    uid: u32,
    plan: HostPlan<R>,
    host: Host,
    result: R,
    after: Host,
) -> bool {
    can_end(plan, working_rules(uid), host, result, after)
}

/// What holds of every host, and of every host that does not fail, holds of a working one.
pub proof fn lemma_working_host<R>(
    uid: u32,
    plan: HostPlan<R>,
    host: Host,
    result: R,
    after: Host,
)
    requires
        ends_working(uid, plan, host, result, after),
    ensures
        ends(plan, host, result, after),
        ends_reliably(plan, host, result, after),
{
    lemma_can_end_under(plan, working_rules(uid), reliable_rules(), host, result, after);
    lemma_can_end_under(plan, working_rules(uid), host_rules(), host, result, after);
}

pub broadcast proof fn lemma_finish_working<R>(uid: u32, value: R, host: Host, result: R, after: Host)
    requires
        #[trigger] ends_working(uid, Plan::Finish(value), host, result, after),
    ensures
        value == result,
        host == after,
{
}

pub broadcast proof fn lemma_bind_working<R, S>(
    uid: u32,
    plan: HostPlan<R>,
    next: spec_fn(R) -> HostPlan<S>,
    host: Host,
    result: S,
    after: Host,
)
    requires
        #[trigger] ends_working(uid, bind(plan, next), host, result, after),
    ensures
        exists|value: R, middle: Host| #[trigger]
            ends_working(uid, plan, host, value, middle) && ends_working(
                uid,
                next(value),
                middle,
                result,
                after,
            ),
{
    lemma_can_end_bind(plan, next, working_rules(uid), host, result, after);
    let (value, middle) = choose|value: R, middle: Host| #[trigger]
        can_end(plan, working_rules(uid), host, value, middle) && can_end(
            next(value),
            working_rules(uid),
            middle,
            result,
            after,
        );
    assert(ends_working(uid, plan, host, value, middle));
}

pub broadcast proof fn lemma_look_up_working(
    uid: u32,
    place: Place,
    host: Host,
    found: Lookup,
    after: Host,
)
    requires
        #[trigger] ends_working(uid, look_up(place), host, found, after),
    ensures
        after == host,
        found == (if host.files.contains_key(place) {
            Lookup::Found(host.files[place].metadata)
        } else {
            Lookup::Missing
        }),
{
    lemma_working_host(uid, look_up(place), host, found, after);
    lemma_look_up(place, host, found, after);
}

pub broadcast proof fn lemma_look_up_opened_working(
    uid: u32,
    place: Place,
    host: Host,
    found: Lookup,
    after: Host,
)
    requires
        #[trigger] ends_working(uid, look_up_opened(place), host, found, after),
    ensures
        after == host,
        found == (if host.files.contains_key(place) {
            Lookup::Found(host.files[place].metadata)
        } else {
            Lookup::Missing
        }),
{
    lemma_working_host(uid, look_up_opened(place), host, found, after);
    lemma_look_up_opened(place, host, found, after);
}

pub broadcast proof fn lemma_perform_working(
    uid: u32,
    request: OutsideRequest<Seq<u8>>,
    host: Host,
    done: bool,
    after: Host,
)
    requires
        #[trigger] ends_working(uid, perform(request), host, done, after),
    ensures
        exists|reply: OutsideReply<Seq<u8>>| #[trigger]
            working_answers(uid, host, request, reply, after) && done == (reply is Completed),
{
    reveal_with_fuel(can_end, 2);
    let rules = working_rules(uid);
    let (reply, next) = choose|reply: OutsideReply<Seq<u8>>, next: Host| #[trigger]
        rules(host, request, reply, next) && can_end(
            Plan::Finish(reply is Completed),
            rules,
            next,
            done,
            after,
        );
    assert(working_answers(uid, host, request, reply, after));
}

pub broadcast group group_working_steps {
    lemma_finish_working,
    lemma_bind_working,
    lemma_look_up_working,
    lemma_look_up_opened_working,
    lemma_perform_working,
}

pub broadcast proof fn lemma_state_root_working<E>(
    uid: u32,
    absolute: bool,
    invalid: E,
    insecure: E,
    host: Host,
    result: Result<(), E>,
    after: Host,
)
    requires
        #[trigger] ends_working(
            uid,
            state_root_plan(absolute, uid, invalid, insecure),
            host,
            result,
            after,
        ),
        absolute,
        host.has_user_directory(Place::StateRoot, uid),
    ensures
        after == host,
        result is Ok,
{
    let plan = state_root_plan(absolute, uid, invalid, insecure);
    lemma_working_host(uid, plan, host, result, after);
    lemma_state_root_is_accepted(absolute, uid, invalid, insecure, host, result, after);
}

/// A directory that is absent is created and is private.
pub broadcast proof fn lemma_create_directory_working(
    uid: u32,
    place: Place,
    host: Host,
    created: bool,
    after: Host,
)
    requires
        #[trigger] ends_working(uid, create_directory_plan(place), host, created, after),
        !host.files.contains_key(place),
    ensures
        created,
        changed_only(host, after, place),
        after.has_private_directory(place, uid),
{
    broadcast use group_working_steps;

    assert(0o700u32 & 0o777u32 == 0o700u32) by (bit_vector);
    lemma_working_host(uid, create_directory_plan(place), host, created, after);
    lemma_create_directory_ends(place, host, created, after);
}

/// A directory that is absent or private is there and private afterwards.
pub broadcast proof fn lemma_ensure_private_directory_working<E>(
    uid: u32,
    place: Place,
    creation_failed: E,
    insecure: E,
    host: Host,
    result: Result<(), E>,
    after: Host,
)
    requires
        #[trigger] ends_working(
            uid,
            ensure_private_directory_plan(place, uid, creation_failed, insecure),
            host,
            result,
            after,
        ),
        host.files.contains_key(place) ==> host.has_private_directory(place, uid),
    ensures
        result is Ok,
        changed_only(host, after, place),
        host.files.contains_key(place) ==> after == host,
        after.has_private_directory(place, uid),
{
    broadcast use {group_working_steps, lemma_create_directory_working};

}

/// A payload of a fitting size is written to a temporary file that was absent.
pub broadcast proof fn lemma_write_temporary_working<E>(
    uid: u32,
    temporary: Place,
    payload: Seq<u8>,
    kind: RecordKind,
    write_failed: E,
    host: Host,
    result: Result<FileMetadata, E>,
    after: Host,
)
    requires
        #[trigger] ends_working(
            uid,
            write_temporary_plan(temporary, payload, kind, uid, write_failed),
            host,
            result,
            after,
        ),
        !host.files.contains_key(temporary),
        payload.len() <= u64::MAX,
        kind.allows_size(payload.len() as int),
    ensures
        changed_only(host, after, temporary),
        after.has_record(temporary, kind, uid),
        result == Ok::<FileMetadata, E>(after.files[temporary].metadata),
{
    broadcast use group_working_steps;

    assert(0o600u32 & 0o777u32 == 0o600u32) by (bit_vector);
    let plan = write_temporary_plan(temporary, payload, kind, uid, write_failed);
    lemma_working_host(uid, plan, host, result, after);
    lemma_write_temporary_ends(temporary, payload, kind, uid, write_failed, host, result, after);
}

/// A trusted temporary file is settled in a place that was free.
pub broadcast proof fn lemma_settle_working<E>(
    uid: u32,
    from: Place,
    to: Place,
    directory: Place,
    written: FileMetadata,
    kind: RecordKind,
    commit_failed: E,
    sync_failed: E,
    host: Host,
    result: Result<(), E>,
    after: Host,
)
    requires
        #[trigger] ends_working(
            uid,
            settle_plan(from, to, directory, written, kind, uid, commit_failed, sync_failed),
            host,
            result,
            after,
        ),
        host.has_record(from, kind, uid),
        !host.files.contains_key(to),
        host.files.contains_key(directory),
        directory != from,
        written == host.files[from].metadata,
    ensures
        result is Ok,
{
    broadcast use group_working_steps;

}

/// A payload of a fitting size is published where nothing was.
pub broadcast proof fn lemma_publish_working<E>(
    uid: u32,
    temporary: Place,
    to: Place,
    directory: Place,
    payload: Seq<u8>,
    kind: RecordKind,
    write_failed: E,
    commit_failed: E,
    sync_failed: E,
    host: Host,
    result: Result<(), E>,
    after: Host,
)
    requires
        #[trigger] ends_working(
            uid,
            publish_plan(
                temporary,
                to,
                directory,
                payload,
                kind,
                uid,
                write_failed,
                commit_failed,
                sync_failed,
            ),
            host,
            result,
            after,
        ),
        temporary != to,
        directory != temporary,
        !host.files.contains_key(temporary),
        !host.files.contains_key(to),
        host.files.contains_key(directory),
        payload.len() <= u64::MAX,
        kind.allows_size(payload.len() as int),
    ensures
        result is Ok,
{
    broadcast use {
        group_working_steps,
        lemma_require_absent_working,
        lemma_write_temporary_working,
        lemma_settle_working,
        lemma_others_stay,
    };

}

broadcast proof fn lemma_require_absent_working<E>(
    uid: u32,
    place: Place,
    present: E,
    host: Host,
    result: Result<(), E>,
    after: Host,
)
    requires
        #[trigger] ends_working(uid, require_absent_plan(place, present), host, result, after),
        !host.files.contains_key(place),
    ensures
        after == host,
        result is Ok,
{
    broadcast use group_working_steps;

}

} // verus!
