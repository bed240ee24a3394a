//! A model of the host, to say what the custody operations do to it.
//!
//! The model is that of one process at work: between two requests nobody else changes the files
//! that the operations deal with, and a helper that delivers a plaintext delivers what was
//! encrypted. Replies may still fail at any step.
use vstd::prelude::*;

use crate::custody::{
    create_directory_plan, ensure_private_directory_plan, is_private_directory, is_user_directory, ensure_user_directory_plan,
    open_record_plan, prepare_private_directory_plan, private_directory_plan, publish_plan,
    read_record_plan, require_absent_plan, require_private_directory_plan, settle_plan,
    state_root_plan, user_directory_plan, withdraw_plan, write_temporary_plan, RecordKind,
};
use crate::outside::{
    bytes_of, look_up, look_up_opened, obtain, perform, FileMetadata, HostPlan, Lookup,
    OutsideReply, OutsideRequest, Place,
};
use crate::plan::{can_end, lemma_can_end_bind, Plan};
use crate::transport_identity_custody::{derived_identity, UbuntuTransportIdentityCustodyError};

verus! {

/// Something at a place.
pub struct HostFile {
    pub metadata: FileMetadata,
    pub content: Seq<u8>,
    /// What decrypting it gives, if it is an encrypted credential.
    pub sealed: Option<Seq<u8>>,
}

/// The host as far as the custody operations change it.
pub struct Host {
    pub files: Map<Place, HostFile>,
    /// The fresh key that is kept until it is encrypted.
    pub key: Option<Seq<u8>>,
    /// The keys that were made.
    pub keys_made: nat,
    /// For each encryption, whether the host key alone was used.
    pub encryptions: Seq<bool>,
}

impl Host {
    /// The bytes at a place, if something is there.
    pub open spec fn content(self, place: Place) -> Option<Seq<u8>> {
        if self.files.contains_key(place) {
            Some(self.files[place].content)
        } else {
            None
        }
    }

    /// What decrypting the file at a place gives, if an encrypted credential is there.
    pub open spec fn sealed(self, place: Place) -> Option<Seq<u8>> {
        if self.files.contains_key(place) {
            self.files[place].sealed
        } else {
            None
        }
    }

    /// A directory of the user that nobody else may write to is at the place.
    pub open spec fn has_user_directory(self, place: Place, uid: u32) -> bool {
        self.files.contains_key(place) && is_user_directory(self.files[place].metadata, uid)
    }

    /// A directory of the user that nobody else may use is at the place.
    pub open spec fn has_private_directory(self, place: Place, uid: u32) -> bool {
        self.files.contains_key(place) && is_private_directory(self.files[place].metadata, uid)
    }

    /// A trusted file whose size fits the kind is at the place.
    pub open spec fn has_record(self, place: Place, kind: RecordKind, uid: u32) -> bool {
        self.files.contains_key(place) && kind.accepts(self.files[place].metadata, uid)
    }
}

/// All places but one are as they were.
pub open spec fn files_kept(before: Host, after: Host, place: Place) -> bool {
    after.files.remove(place) == before.files.remove(place)
}

/// All places but one are as they were, and no key was made or used.
pub open spec fn changed_only(before: Host, after: Host, place: Place) -> bool {
    &&& files_kept(before, after, place)
    &&& after.key == before.key
    &&& after.keys_made == before.keys_made
    &&& after.encryptions == before.encryptions
}

/// All places outside a set are as they were, and no key was made or used.
pub open spec fn same_but(before: Host, after: Host, changed: Set<Place>) -> bool {
    &&& forall|place: Place|
        !changed.contains(place) ==> (#[trigger] after.files.contains_key(place)
            == before.files.contains_key(place) && (before.files.contains_key(place)
            ==> after.files[place] == before.files[place]))
    &&& after.key == before.key
    &&& after.keys_made == before.keys_made
    &&& after.encryptions == before.encryptions
}

/// What is trusted stays so where nothing changed.
pub broadcast proof fn lemma_user_directory_stays(
    before: Host,
    after: Host,
    changed: Set<Place>,
    place: Place,
    uid: u32,
)
    requires
        #[trigger] same_but(before, after, changed),
        !changed.contains(place),
        #[trigger] before.has_user_directory(place, uid),
    ensures
        after.has_user_directory(place, uid),
{
    assert(after.files.contains_key(place));
}

pub broadcast proof fn lemma_private_directory_stays(
    before: Host,
    after: Host,
    changed: Set<Place>,
    place: Place,
    uid: u32,
)
    requires
        #[trigger] same_but(before, after, changed),
        !changed.contains(place),
        #[trigger] before.has_private_directory(place, uid),
    ensures
        after.has_private_directory(place, uid),
{
    assert(after.files.contains_key(place));
}

pub broadcast proof fn lemma_others_stay(before: Host, after: Host, place: Place, other: Place)
    requires
        #[trigger] files_kept(before, after, place),
        other != place,
    ensures
        after.files.contains_key(other) == #[trigger] before.files.contains_key(other),
        before.files.contains_key(other) ==> after.files[other] == before.files[other],
{
    assert(after.files.remove(place).contains_key(other) == after.files.contains_key(other));
    assert(before.files.remove(place).contains_key(other) == before.files.contains_key(other));
    assert(after.files.remove(place)[other] == after.files[other]);
    assert(before.files.remove(place)[other] == before.files[other]);
}

/// What is at a place is the same object, with other permission bits at most.
pub open spec fn same_content(before: Host, after: Host, place: Place) -> bool {
    after.content(place) == before.content(place) && after.sealed(place) == before.sealed(place)
}

/// Which replies the host can give to a request, and how it changes.
pub open spec fn host_answers(
    before: Host,
    request: OutsideRequest<Seq<u8>>,
    reply: OutsideReply<Seq<u8>>,
    after: Host,
) -> bool {
    match request {
        OutsideRequest::Metadata(place) => after == before && describes(before, place, reply),
        OutsideRequest::OpenedMetadata(place) => after == before && describes(before, place, reply),
        OutsideRequest::Read(place, limit) => after == before && (reply matches OutsideReply::Bytes(
            bytes,
        ) ==> before.files.contains_key(place) && bytes == first_bytes(
            before.files[place].content,
            limit as int,
        )),
        OutsideRequest::CreateDirectory(place) => if reply is Completed {
            changed_only(before, after, place) && !before.files.contains_key(place)
                && after.files.contains_key(place)
        } else {
            after == before
        },
        OutsideRequest::SetMode(place, _) => changed_only(before, after, place) && same_content(
            before,
            after,
            place,
        ),
        OutsideRequest::SetOpenedMode(place, _) => changed_only(before, after, place)
            && same_content(before, after, place),
        OutsideRequest::CreateNew(place, _) => if reply is Completed {
            changed_only(before, after, place) && !before.files.contains_key(place)
                && after.files.contains_key(place)
        } else {
            after == before
        },
        OutsideRequest::WriteAndSync(place, bytes) => changed_only(before, after, place) && (
        reply is Completed ==> after.content(place) == Some(bytes)),
        OutsideRequest::RenameNoReplace(from, to) => if reply is Completed {
            &&& before.files.contains_key(from)
            &&& !before.files.contains_key(to)
            &&& after == (Host {
                files: before.files.remove(from).insert(to, before.files[from]),
                ..before
            })
        } else {
            after == before
        },
        OutsideRequest::Remove(place) => if reply is Completed {
            after == (Host { files: before.files.remove(place), ..before })
        } else {
            after == before
        },
        OutsideRequest::GenerateTransportKey => match reply {
            OutsideReply::Identity(identity) => {
                &&& after.key matches Some(key)
                &&& derived_identity(key) == Ok::<_, UbuntuTransportIdentityCustodyError>(identity@)
                &&& after == (Host {
                    key: after.key,
                    keys_made: before.keys_made + 1,
                    ..before
                })
            },
            _ => after == before,
        },
        OutsideRequest::EncryptTransportKey(place, host_key_only) => {
            &&& files_kept(before, after, place)
            &&& reply is Completed ==> after.sealed(place) == before.key
            &&& after.key is None
            &&& after.keys_made == before.keys_made
            &&& after.encryptions == before.encryptions.push(host_key_only)
        },
        OutsideRequest::StartDecryption(place, limit) => after == before && (
        reply matches OutsideReply::Bytes(bytes) ==> (before.sealed(place) matches Some(sealed)
            && bytes == first_bytes(sealed, limit as int))),
        _ => after == before,
    }
}

/// A report on a place says what is there.
pub open spec fn describes(host: Host, place: Place, reply: OutsideReply<Seq<u8>>) -> bool {
    match reply {
        OutsideReply::Metadata(metadata) => host.files.contains_key(place)
            && host.files[place].metadata == metadata,
        OutsideReply::NotFound => !host.files.contains_key(place),
        _ => true,
    }
}

/// The first bytes of a file, all of them if there are no more.
pub open spec fn first_bytes(content: Seq<u8>, limit: int) -> Seq<u8> {
    if content.len() <= limit {
        content
    } else {
        content.take(limit)
    }
}

pub type HostRules = spec_fn(
    Host,
    OutsideRequest<Seq<u8>>,
    OutsideReply<Seq<u8>>,
    Host,
) -> bool;

pub open spec fn host_rules() -> HostRules {
    |before: Host, request: OutsideRequest<Seq<u8>>, reply: OutsideReply<Seq<u8>>, after: Host|
        host_answers(before, request, reply, after)
}

/// Whether an operation on the host can end with a result and leave the host in a state.
pub open spec fn ends<R>(plan: HostPlan<R>, host: Host, result: R, after: Host) -> bool {
    can_end(plan, host_rules(), host, result, after)
}

pub broadcast proof fn lemma_finish_ends<R>(value: R, host: Host, result: R, after: Host)
    requires
        #[trigger] ends(Plan::Finish(value), host, result, after),
    ensures
        value == result,
        host == after,
{
}

pub broadcast proof fn lemma_bind_ends<R, S>(
    plan: HostPlan<R>,
    next: spec_fn(R) -> HostPlan<S>,
    host: Host,
    result: S,
    after: Host,
)
    requires
        #[trigger] ends(crate::plan::bind(plan, next), host, result, after),
    ensures
        exists|value: R, middle: Host| #[trigger]
            ends(plan, host, value, middle) && ends(next(value), middle, result, after),
{
    lemma_can_end_bind(plan, next, host_rules(), host, result, after);
    let (value, middle) = choose|value: R, middle: Host| #[trigger]
        can_end(plan, host_rules(), host, value, middle) && can_end(
            next(value),
            host_rules(),
            middle,
            result,
            after,
        );
    assert(ends(plan, host, value, middle));
}

pub broadcast proof fn lemma_look_up_ends(place: Place, host: Host, found: Lookup, after: Host)
    requires
        #[trigger] ends(look_up(place), host, found, after),
    ensures
        after == host,
        found matches Lookup::Found(metadata) ==> host.files.contains_key(place)
            && host.files[place].metadata == metadata,
        found is Missing ==> !host.files.contains_key(place),
{
    reveal_with_fuel(can_end, 2);
}

pub broadcast proof fn lemma_look_up_opened_ends(
    place: Place,
    host: Host,
    found: Lookup,
    after: Host,
)
    requires
        #[trigger] ends(look_up_opened(place), host, found, after),
    ensures
        after == host,
        found matches Lookup::Found(metadata) ==> host.files.contains_key(place)
            && host.files[place].metadata == metadata,
{
    reveal_with_fuel(can_end, 2);
}

pub broadcast proof fn lemma_perform_ends(
    request: OutsideRequest<Seq<u8>>,
    host: Host,
    done: bool,
    after: Host,
)
    requires
        #[trigger] ends(perform(request), host, done, after),
    ensures
        exists|reply: OutsideReply<Seq<u8>>| #[trigger]
            host_answers(host, request, reply, after) && done == (reply is Completed),
{
    reveal_with_fuel(can_end, 2);
    let rules = host_rules();
    let (reply, next) = choose|reply: OutsideReply<Seq<u8>>, next: Host| #[trigger]
        rules(host, request, reply, next) && can_end(
            Plan::Finish(reply is Completed),
            rules,
            next,
            done,
            after,
        );
    assert(host_answers(host, request, reply, after));
}

pub broadcast proof fn lemma_obtain_ends(
    request: OutsideRequest<Seq<u8>>,
    host: Host,
    bytes: Option<Seq<u8>>,
    after: Host,
)
    requires
        #[trigger] ends(obtain(request), host, bytes, after),
    ensures
        exists|reply: OutsideReply<Seq<u8>>| #[trigger]
            host_answers(host, request, reply, after) && bytes == bytes_of(reply),
{
    reveal_with_fuel(can_end, 2);
    let rules = host_rules();
    let (reply, next) = choose|reply: OutsideReply<Seq<u8>>, next: Host| #[trigger]
        rules(host, request, reply, next) && can_end(
            Plan::Finish(bytes_of(reply)),
            rules,
            next,
            bytes,
            after,
        );
    assert(host_answers(host, request, reply, after));
}

pub broadcast group group_host_steps {
    lemma_finish_ends,
    lemma_bind_ends,
    lemma_look_up_ends,
    lemma_look_up_opened_ends,
    lemma_perform_ends,
    lemma_obtain_ends,
}

pub broadcast proof fn lemma_private_directory_ends(
    place: Place,
    uid: u32,
    host: Host,
    secure: bool,
    after: Host,
)
    requires
        #[trigger] ends(private_directory_plan(place, uid), host, secure, after),
    ensures
        after == host,
        secure ==> host.has_private_directory(place, uid),
{
    broadcast use group_host_steps;

}

pub broadcast proof fn lemma_require_private_directory_ends<E>(
    place: Place,
    uid: u32,
    insecure: E,
    host: Host,
    result: Result<(), E>,
    after: Host,
)
    requires
        #[trigger] ends(require_private_directory_plan(place, uid, insecure), host, result, after),
    ensures
        after == host,
        result is Ok ==> host.has_private_directory(place, uid),
{
    broadcast use {group_host_steps, lemma_private_directory_ends};

}

pub broadcast proof fn lemma_user_directory_ends<E>(
    place: Place,
    uid: u32,
    insecure: E,
    host: Host,
    result: Result<(), E>,
    after: Host,
)
    requires
        #[trigger] ends(user_directory_plan(place, uid, insecure), host, result, after),
    ensures
        after == host,
        result is Ok ==> host.has_user_directory(place, uid),
{
    broadcast use group_host_steps;

}

pub broadcast proof fn lemma_state_root_ends<E>(
    absolute: bool,
    uid: u32,
    invalid: E,
    insecure: E,
    host: Host,
    result: Result<(), E>,
    after: Host,
)
    requires
        #[trigger] ends(state_root_plan(absolute, uid, invalid, insecure), host, result, after),
    ensures
        after == host,
        result is Ok ==> absolute && host.has_user_directory(Place::StateRoot, uid),
{
    broadcast use {group_host_steps, lemma_user_directory_ends};

}

pub broadcast proof fn lemma_require_absent_ends<E>(
    place: Place,
    present: E,
    host: Host,
    result: Result<(), E>,
    after: Host,
)
    requires
        #[trigger] ends(require_absent_plan(place, present), host, result, after),
    ensures
        after == host,
        result is Ok ==> !host.files.contains_key(place),
        result matches Err(error) ==> error == present,
{
    broadcast use group_host_steps;

}

pub broadcast proof fn lemma_create_directory_ends(
    place: Place,
    host: Host,
    created: bool,
    after: Host,
)
    requires
        #[trigger] ends(create_directory_plan(place), host, created, after),
    ensures
        changed_only(host, after, place),
        host.files.contains_key(place) ==> after == host,
{
    broadcast use group_host_steps;

}

pub broadcast proof fn lemma_ensure_private_directory_ends<E>(
    place: Place,
    uid: u32,
    creation_failed: E,
    insecure: E,
    host: Host,
    result: Result<(), E>,
    after: Host,
)
    requires
        #[trigger] ends(
            ensure_private_directory_plan(place, uid, creation_failed, insecure),
            host,
            result,
            after,
        ),
    ensures
        changed_only(host, after, place),
        host.files.contains_key(place) ==> after == host,
        result is Ok ==> after.has_private_directory(place, uid),
{
    broadcast use {
        group_host_steps,
        lemma_create_directory_ends,
        lemma_require_private_directory_ends,
    };

}

pub broadcast proof fn lemma_prepare_private_directory_ends<E>(
    place: Place,
    uid: u32,
    creation_failed: E,
    insecure: E,
    host: Host,
    result: Result<(), E>,
    after: Host,
)
    requires
        #[trigger] ends(
            prepare_private_directory_plan(place, uid, creation_failed, insecure),
            host,
            result,
            after,
        ),
    ensures
        changed_only(host, after, place),
        host.files.contains_key(place) ==> after == host,
        result is Ok ==> after.has_private_directory(place, uid),
{
    broadcast use {group_host_steps, lemma_create_directory_ends};

}

pub broadcast proof fn lemma_ensure_user_directory_ends<E>(
    place: Place,
    uid: u32,
    creation_failed: E,
    insecure: E,
    host: Host,
    result: Result<(), E>,
    after: Host,
)
    requires
        #[trigger] ends(
            ensure_user_directory_plan(place, uid, creation_failed, insecure),
            host,
            result,
            after,
        ),
    ensures
        changed_only(host, after, place),
        host.files.contains_key(place) ==> after == host,
{
    broadcast use {group_host_steps, lemma_create_directory_ends, lemma_user_directory_ends};

}

pub broadcast proof fn lemma_open_record_ends<E>(
    place: Place,
    kind: RecordKind,
    uid: u32,
    unavailable: E,
    insecure: E,
    host: Host,
    result: Result<(), E>,
    after: Host,
)
    requires
        #[trigger] ends(
            open_record_plan(place, kind, uid, unavailable, insecure),
            host,
            result,
            after,
        ),
    ensures
        after == host,
        result is Ok ==> host.has_record(place, kind, uid),
{
    broadcast use group_host_steps;

}

pub broadcast proof fn lemma_read_record_ends<E>(
    place: Place,
    kind: RecordKind,
    uid: u32,
    limit: u64,
    unavailable: E,
    insecure: E,
    read_failed: E,
    host: Host,
    result: Result<Seq<u8>, E>,
    after: Host,
)
    requires
        #[trigger] ends(
            read_record_plan(place, kind, uid, limit, unavailable, insecure, read_failed),
            host,
            result,
            after,
        ),
    ensures
        after == host,
        result matches Ok(bytes) ==> host.has_record(place, kind, uid) && bytes == first_bytes(
            host.files[place].content,
            limit as int,
        ),
{
    broadcast use {group_host_steps, lemma_open_record_ends};

}

pub broadcast proof fn lemma_write_temporary_ends<E>(
    temporary: Place,
    payload: Seq<u8>,
    kind: RecordKind,
    uid: u32,
    write_failed: E,
    host: Host,
    result: Result<FileMetadata, E>,
    after: Host,
)
    requires
        #[trigger] ends(
            write_temporary_plan(temporary, payload, kind, uid, write_failed),
            host,
            result,
            after,
        ),
    ensures
        changed_only(host, after, temporary),
        host.files.contains_key(temporary) ==> after == host,
        result is Ok ==> after.content(temporary) == Some(payload) && !host.files.contains_key(
            temporary,
        ),
{
    broadcast use group_host_steps;

}

pub broadcast proof fn lemma_withdraw_ends<R, E>(
    place: Place,
    directory: Place,
    error: E,
    host: Host,
    result: Result<R, E>,
    after: Host,
)
    requires
        #[trigger] ends(withdraw_plan::<R, E>(place, directory, error), host, result, after),
    ensures
        result == Err::<R, E>(error),
        after == host || after == (Host { files: host.files.remove(place), ..host }),
{
    broadcast use group_host_steps;

}

pub broadcast proof fn lemma_settle_ends<E>(
    from: Place,
    to: Place,
    directory: Place,
    written: FileMetadata,
    kind: RecordKind,
    uid: u32,
    commit_failed: E,
    sync_failed: E,
    host: Host,
    result: Result<(), E>,
    after: Host,
)
    requires
        #[trigger] ends(
            settle_plan(from, to, directory, written, kind, uid, commit_failed, sync_failed),
            host,
            result,
            after,
        ),
    ensures
        result is Ok ==> host.files.contains_key(from) && !host.files.contains_key(to) && after == (
        Host { files: host.files.remove(from).insert(to, host.files[from]), ..host })
            && after.has_record(to, kind, uid),
        result is Err ==> after == host || after == (Host { files: host.files.remove(from), ..host })
            || (host.files.contains_key(from) && !host.files.contains_key(to) && (after == (Host {
            files: host.files.remove(from).insert(to, host.files[from]),
            ..host
        }) || after == (Host { files: host.files.remove(from).remove(to), ..host }))),
{
    broadcast use {group_host_steps, lemma_withdraw_ends};

    assert(host.files.contains_key(from) && !host.files.contains_key(to) ==> host.files.remove(
        from,
    ).insert(to, host.files[from]).remove(to) =~= host.files.remove(from).remove(to));
}

/// Publishing never touches what is already in place, succeeds only with the payload in place, and
/// touches nothing but the record and the temporary file beside it.
pub broadcast proof fn lemma_publish_ends<E>(
    temporary: Place,
    to: Place,
    directory: Place,
    payload: Seq<u8>,
    kind: RecordKind,
    uid: u32,
    write_failed: E,
    commit_failed: E,
    sync_failed: E,
    host: Host,
    result: Result<(), E>,
    after: Host,
)
    requires
        #[trigger] ends(
            publish_plan(
                temporary,
                to,
                directory,
                payload,
                kind,
                uid,
                write_failed,
                commit_failed,
                sync_failed,
            ),
            host,
            result,
            after,
        ),
        temporary != to,
    ensures
        same_but(host, after, set![temporary, to]),
        host.files.contains_key(to) ==> result is Err && after.files.contains_key(to)
            && after.files[to] == host.files[to],
        host.files.contains_key(temporary) ==> result is Err && after == host,
        result is Ok ==> after.content(to) == Some(payload) && after.has_record(to, kind, uid)
            && !after.files.contains_key(temporary),
{
    broadcast use {
        group_host_steps,
        lemma_require_absent_ends,
        lemma_write_temporary_ends,
        lemma_settle_ends,
        lemma_others_stay,
    };

}

pub broadcast group group_custody_steps {
    lemma_private_directory_ends,
    lemma_require_private_directory_ends,
    lemma_user_directory_ends,
    lemma_state_root_ends,
    lemma_require_absent_ends,
    lemma_ensure_private_directory_ends,
    lemma_prepare_private_directory_ends,
    lemma_ensure_user_directory_ends,
    lemma_open_record_ends,
    lemma_read_record_ends,
    lemma_withdraw_ends,
    lemma_settle_ends,
    lemma_publish_ends,
}

} // verus!
