//! Rules and steps shared by every custody operation: which files and directories are trusted,
//! how a private directory is made, how a record is read, and how a record is published once.
//!
//! Each step is stated as a plan and implemented as a function that goes along it. Errors are
//! handed in by the operation that takes the step.
use vstd::prelude::*;

use crate::bytes::copy_bytes;
use crate::outside::{
    look_up, look_up_opened, obtain, perform, seen, went_along, FileMetadata, HostPlan, Lookup,
    OutsideRequest, Place, Replies,
};
use crate::plan::{bind, lemma_follow_bind, Plan};

verus! {

pub const PRIVATE_DIRECTORY_MODE: u32 = 0o700;

pub const PRIVATE_FILE_MODE: u32 = 0o600;

pub const PERMISSION_BITS: u32 = 0o777;

pub const GROUP_AND_WORLD_WRITE_BITS: u32 = 0o022;

pub const MAX_DROPIN_BYTES: u64 = 4_096;

pub const MAX_ENCRYPTED_CREDENTIAL_BYTES: u64 = 65_536;

/// A directory of this user that nobody else may write to.
pub open spec fn is_user_directory(metadata: FileMetadata, uid: u32) -> bool {
    &&& !metadata.is_symlink
    &&& metadata.is_dir
    &&& metadata.uid == uid
    &&& metadata.mode & GROUP_AND_WORLD_WRITE_BITS == 0
}

pub fn user_directory_is_secure(metadata: &FileMetadata, uid: u32) -> (secure: bool)
    ensures
        secure == is_user_directory(*metadata, uid),
{
    !metadata.is_symlink && metadata.is_dir && metadata.uid == uid && metadata.mode
        & GROUP_AND_WORLD_WRITE_BITS == 0
}

/// A directory of this user that nobody else may use at all.
pub open spec fn is_private_directory(metadata: FileMetadata, uid: u32) -> bool {
    &&& !metadata.is_symlink
    &&& metadata.is_dir
    &&& metadata.uid == uid
    &&& metadata.mode & PERMISSION_BITS == PRIVATE_DIRECTORY_MODE
}

pub fn private_directory_metadata_is_secure(metadata: &FileMetadata, uid: u32) -> (secure: bool)
    ensures
        secure == is_private_directory(*metadata, uid),
{
    !metadata.is_symlink && metadata.is_dir && metadata.uid == uid && metadata.mode
        & PERMISSION_BITS == PRIVATE_DIRECTORY_MODE
}

/// A regular file of this user that nobody else may use at all.
pub open spec fn is_private_file(metadata: FileMetadata, uid: u32) -> bool {
    &&& !metadata.is_symlink
    &&& metadata.is_file
    &&& metadata.uid == uid
    &&& metadata.mode & PERMISSION_BITS == PRIVATE_FILE_MODE
}

pub fn private_file_is_secure(metadata: &FileMetadata, uid: u32) -> (secure: bool)
    ensures
        secure == is_private_file(*metadata, uid),
{
    !metadata.is_symlink && metadata.is_file && metadata.uid == uid && metadata.mode
        & PERMISSION_BITS == PRIVATE_FILE_MODE
}

/// Both reports are of one and the same file.
pub open spec fn is_same_object(left: FileMetadata, right: FileMetadata) -> bool {
    left.device == right.device && left.inode == right.inode
}

pub fn same_object(left: &FileMetadata, right: &FileMetadata) -> (same: bool)
    ensures
        same == is_same_object(*left, *right),
{
    left.device == right.device && left.inode == right.inode
}

/// The kinds of record under custody. Each has its own size rule.
#[derive(Clone, Copy, PartialEq, Eq, Structural, Debug)]
pub enum RecordKind {
    /// One of the two setup-intent tokens.
    Intent,
    /// The owner's logical identity.
    Identity,
    /// The service binding of the transport credential.
    Dropin,
    /// The encrypted transport credential.
    Ciphertext,
}

pub const PREFERRED_INTENT_BYTES: u64 = 21;

pub const FALLBACK_INTENT_BYTES: u64 = 35;

pub const IDENTITY_RECORD_BYTES: u64 = 110;

impl RecordKind {
    /// The sizes that a record of this kind can have.
    pub open spec fn allows_size(self, len: int) -> bool {
        match self {
            RecordKind::Intent => len == PREFERRED_INTENT_BYTES || len == FALLBACK_INTENT_BYTES,
            RecordKind::Identity => len == IDENTITY_RECORD_BYTES,
            RecordKind::Dropin => 0 < len <= MAX_DROPIN_BYTES,
            RecordKind::Ciphertext => 0 < len <= MAX_ENCRYPTED_CREDENTIAL_BYTES,
        }
    }

    /// A private file of this user whose size fits the kind.
    pub open spec fn accepts(self, metadata: FileMetadata, uid: u32) -> bool {
        is_private_file(metadata, uid) && self.allows_size(metadata.len as int)
    }

    pub fn size_is_allowed(self, len: u64) -> (allowed: bool)
        ensures
            allowed == self.allows_size(len as int),
    {
        match self {
            RecordKind::Intent => len == PREFERRED_INTENT_BYTES || len == FALLBACK_INTENT_BYTES,
            RecordKind::Identity => len == IDENTITY_RECORD_BYTES,
            RecordKind::Dropin => 0 < len && len <= MAX_DROPIN_BYTES,
            RecordKind::Ciphertext => 0 < len && len <= MAX_ENCRYPTED_CREDENTIAL_BYTES,
        }
    }

    pub fn record_is_secure(self, metadata: &FileMetadata, uid: u32) -> (secure: bool)
        ensures
            secure == self.accepts(*metadata, uid),
    {
        private_file_is_secure(metadata, uid) && self.size_is_allowed(metadata.len)
    }
}

/// The directory at `place` exists, is not a link, belongs to `uid` and is closed to others.
pub open spec fn private_directory_plan(place: Place, uid: u32) -> HostPlan<bool> {
    bind(
        look_up(place),
        |found: Lookup|
            Plan::Finish(found matches Lookup::Found(metadata) && is_private_directory(metadata, uid)),
    )
}

pub fn private_directory_is_secure(replies: &mut Replies<'_>, place: Place, uid: u32) -> (secure:
    Result<bool, OutsideRequest<Vec<u8>>>)
    requires
        old(replies).wf(),
    ensures
        went_along(private_directory_plan(place, uid), *old(replies), seen(secure), *final(replies)),
{
    broadcast use lemma_follow_bind;

    match replies.look_up(place)? {
        Lookup::Found(metadata) => Ok(private_directory_metadata_is_secure(&metadata, uid)),
        _ => Ok(false),
    }
}

/// The root is absolute, and a directory of this user that nobody else may write to.
pub open spec fn state_root_plan<E>(absolute: bool, uid: u32, invalid: E, insecure: E) -> HostPlan<
    Result<(), E>,
> {
    if !absolute {
        Plan::Finish(Err(invalid))
    } else {
        user_directory_plan(Place::StateRoot, uid, insecure)
    }
}

pub fn validate_state_root<E>(
    replies: &mut Replies<'_>,
    absolute: bool,
    uid: u32,
    invalid: E,
    insecure: E,
) -> (checked: Result<Result<(), E>, OutsideRequest<Vec<u8>>>)
    requires
        old(replies).wf(),
    ensures
        went_along(
            state_root_plan(absolute, uid, invalid, insecure),
            *old(replies),
            seen(checked),
            *final(replies),
        ),
{
    if !absolute {
        return Ok(Err(invalid));
    }
    validate_user_directory(replies, Place::StateRoot, uid, insecure)
}

/// The place is a directory of this user that nobody else may write to.
pub open spec fn user_directory_plan<E>(place: Place, uid: u32, insecure: E) -> HostPlan<
    Result<(), E>,
> {
    bind(
        look_up(place),
        |found: Lookup|
            Plan::Finish(
                if found matches Lookup::Found(metadata) && is_user_directory(metadata, uid) {
                    Ok(())
                } else {
                    Err(insecure)
                },
            ),
    )
}

pub fn validate_user_directory<E>(
    replies: &mut Replies<'_>,
    place: Place,
    uid: u32,
    insecure: E,
) -> (checked: Result<Result<(), E>, OutsideRequest<Vec<u8>>>)
    requires
        old(replies).wf(),
    ensures
        went_along(
            user_directory_plan(place, uid, insecure),
            *old(replies),
            seen(checked),
            *final(replies),
        ),
{
    broadcast use lemma_follow_bind;

    match replies.look_up(place)? {
        Lookup::Found(metadata) => if user_directory_is_secure(&metadata, uid) {
            Ok(Ok(()))
        } else {
            Ok(Err(insecure))
        },
        _ => Ok(Err(insecure)),
    }
}

/// Make a directory and close it to others.
pub open spec fn create_directory_plan(place: Place) -> HostPlan<bool> {
    bind(
        perform(OutsideRequest::CreateDirectory(place)),
        |created: bool|
            if created {
                perform(OutsideRequest::SetMode(place, PRIVATE_DIRECTORY_MODE))
            } else {
                Plan::Finish(false)
            },
    )
}

pub fn create_directory(replies: &mut Replies<'_>, place: Place) -> (created: Result<
    bool,
    OutsideRequest<Vec<u8>>,
>)
    requires
        old(replies).wf(),
    ensures
        went_along(create_directory_plan(place), *old(replies), seen(created), *final(replies)),
{
    broadcast use lemma_follow_bind;

    if !replies.perform(OutsideRequest::CreateDirectory(place))? {
        return Ok(false);
    }
    replies.perform(OutsideRequest::SetMode(place, PRIVATE_DIRECTORY_MODE))
}

/// A private directory is at the place, made now if nothing was there. What is there is looked
/// up again before it is accepted.
pub open spec fn ensure_private_directory_plan<E>(
    place: Place,
    uid: u32,
    creation_failed: E,
    insecure: E,
) -> HostPlan<Result<(), E>> {
    bind(
        look_up(place),
        |found: Lookup|
            match found {
                Lookup::Missing => bind(
                    create_directory_plan(place),
                    |created: bool|
                        if created {
                            require_private_directory_plan(place, uid, insecure)
                        } else {
                            Plan::Finish(Err(creation_failed))
                        },
                ),
                Lookup::Found(_) => require_private_directory_plan(place, uid, insecure),
                Lookup::Unreadable => Plan::Finish(Err(insecure)),
            },
    )
}

/// The place is a private directory, or the operation fails.
pub open spec fn require_private_directory_plan<E>(place: Place, uid: u32, insecure: E) -> HostPlan<
    Result<(), E>,
> {
    bind(
        private_directory_plan(place, uid),
        |secure: bool|
            Plan::Finish(
                if secure {
                    Ok(())
                } else {
                    Err(insecure)
                },
            ),
    )
}

pub fn require_private_directory<E>(
    replies: &mut Replies<'_>,
    place: Place,
    uid: u32,
    insecure: E,
) -> (checked: Result<Result<(), E>, OutsideRequest<Vec<u8>>>)
    requires
        old(replies).wf(),
    ensures
        went_along(
            require_private_directory_plan(place, uid, insecure),
            *old(replies),
            seen(checked),
            *final(replies),
        ),
{
    broadcast use lemma_follow_bind;

    if private_directory_is_secure(replies, place, uid)? {
        Ok(Ok(()))
    } else {
        Ok(Err(insecure))
    }
}

pub fn ensure_private_directory<E>(
    replies: &mut Replies<'_>,
    place: Place,
    uid: u32,
    creation_failed: E,
    insecure: E,
) -> (ensured: Result<Result<(), E>, OutsideRequest<Vec<u8>>>)
    requires
        old(replies).wf(),
    ensures
        went_along(
            ensure_private_directory_plan(place, uid, creation_failed, insecure),
            *old(replies),
            seen(ensured),
            *final(replies),
        ),
{
    broadcast use lemma_follow_bind;

    match replies.look_up(place)? {
        Lookup::Missing => {
            if create_directory(replies, place)? {
                require_private_directory(replies, place, uid, insecure)
            } else {
                Ok(Err(creation_failed))
            }
        },
        Lookup::Found(_) => require_private_directory(replies, place, uid, insecure),
        Lookup::Unreadable => Ok(Err(insecure)),
    }
}

/// A private directory is at the place, made now if nothing was there. What was found first is
/// what counts; a directory just made that cannot be looked up counts as not made.
pub open spec fn prepare_private_directory_plan<E>(
    place: Place,
    uid: u32,
    creation_failed: E,
    insecure: E,
) -> HostPlan<Result<(), E>> {
    bind(
        look_up(place),
        |found: Lookup|
            match found {
                Lookup::Found(metadata) => Plan::Finish(
                    if is_private_directory(metadata, uid) {
                        Ok(())
                    } else {
                        Err(insecure)
                    },
                ),
                Lookup::Missing => bind(
                    create_directory_plan(place),
                    |created: bool|
                        if created {
                            bind(
                                look_up(place),
                                |made: Lookup|
                                    Plan::Finish(
                                        match made {
                                            Lookup::Found(metadata) => if is_private_directory(
                                                metadata,
                                                uid,
                                            ) {
                                                Ok(())
                                            } else {
                                                Err(insecure)
                                            },
                                            _ => Err(creation_failed),
                                        },
                                    ),
                            )
                        } else {
                            Plan::Finish(Err(creation_failed))
                        },
                ),
                Lookup::Unreadable => Plan::Finish(Err(insecure)),
            },
    )
}

pub fn prepare_private_directory<E>(
    replies: &mut Replies<'_>,
    place: Place,
    uid: u32,
    creation_failed: E,
    insecure: E,
) -> (prepared: Result<Result<(), E>, OutsideRequest<Vec<u8>>>)
    requires
        old(replies).wf(),
    ensures
        went_along(
            prepare_private_directory_plan(place, uid, creation_failed, insecure),
            *old(replies),
            seen(prepared),
            *final(replies),
        ),
{
    broadcast use lemma_follow_bind;

    match replies.look_up(place)? {
        Lookup::Found(metadata) => if private_directory_metadata_is_secure(&metadata, uid) {
            Ok(Ok(()))
        } else {
            Ok(Err(insecure))
        },
        Lookup::Missing => {
            if !create_directory(replies, place)? {
                return Ok(Err(creation_failed));
            }
            match replies.look_up(place)? {
                Lookup::Found(metadata) => if private_directory_metadata_is_secure(&metadata, uid) {
                    Ok(Ok(()))
                } else {
                    Ok(Err(insecure))
                },
                _ => Ok(Err(creation_failed)),
            }
        },
        Lookup::Unreadable => Ok(Err(insecure)),
    }
}

/// A directory of this user is at the place, made private now if nothing was there.
pub open spec fn ensure_user_directory_plan<E>(
    place: Place,
    uid: u32,
    creation_failed: E,
    insecure: E,
) -> HostPlan<Result<(), E>> {
    bind(
        look_up(place),
        |found: Lookup|
            match found {
                Lookup::Found(_) => user_directory_plan(place, uid, insecure),
                Lookup::Missing => bind(
                    create_directory_plan(place),
                    |created: bool|
                        if created {
                            user_directory_plan(place, uid, insecure)
                        } else {
                            Plan::Finish(Err(creation_failed))
                        },
                ),
                Lookup::Unreadable => Plan::Finish(Err(insecure)),
            },
    )
}

pub fn ensure_user_directory<E>(
    replies: &mut Replies<'_>,
    place: Place,
    uid: u32,
    creation_failed: E,
    insecure: E,
) -> (ensured: Result<Result<(), E>, OutsideRequest<Vec<u8>>>)
    requires
        old(replies).wf(),
    ensures
        went_along(
            ensure_user_directory_plan(place, uid, creation_failed, insecure),
            *old(replies),
            seen(ensured),
            *final(replies),
        ),
{
    broadcast use lemma_follow_bind;

    match replies.look_up(place)? {
        Lookup::Found(_) => validate_user_directory(replies, place, uid, insecure),
        Lookup::Missing => {
            if create_directory(replies, place)? {
                validate_user_directory(replies, place, uid, insecure)
            } else {
                Ok(Err(creation_failed))
            }
        },
        Lookup::Unreadable => Ok(Err(insecure)),
    }
}

/// Nothing is at the place, or the operation fails.
pub open spec fn require_absent_plan<E>(place: Place, present: E) -> HostPlan<Result<(), E>> {
    bind(
        look_up(place),
        |found: Lookup|
            Plan::Finish(
                if found is Missing {
                    Ok(())
                } else {
                    Err(present)
                },
            ),
    )
}

pub fn require_absent<E>(replies: &mut Replies<'_>, place: Place, present: E) -> (checked: Result<
    Result<(), E>,
    OutsideRequest<Vec<u8>>,
>)
    requires
        old(replies).wf(),
    ensures
        went_along(
            require_absent_plan(place, present),
            *old(replies),
            seen(checked),
            *final(replies),
        ),
{
    broadcast use lemma_follow_bind;

    match replies.look_up(place)? {
        Lookup::Missing => Ok(Ok(())),
        _ => Ok(Err(present)),
    }
}

/// Open a record that is trusted before and after opening, and is the same file both times.
pub open spec fn open_record_plan<E>(
    place: Place,
    kind: RecordKind,
    uid: u32,
    unavailable: E,
    insecure: E,
) -> HostPlan<Result<(), E>> {
    bind(
        look_up(place),
        |found: Lookup|
            match found {
                Lookup::Found(before) => if !kind.accepts(before, uid) {
                    Plan::Finish(Err(insecure))
                } else {
                    bind(
                        perform(OutsideRequest::Open(place)),
                        |opened: bool|
                            if !opened {
                                Plan::Finish(Err(unavailable))
                            } else {
                                bind(
                                    look_up_opened(place),
                                    |reopened: Lookup|
                                        Plan::Finish(
                                            match reopened {
                                                Lookup::Found(after) => if is_same_object(
                                                    before,
                                                    after,
                                                ) && kind.accepts(after, uid) {
                                                    Ok(())
                                                } else {
                                                    Err(insecure)
                                                },
                                                _ => Err(unavailable),
                                            },
                                        ),
                                )
                            },
                    )
                },
                _ => Plan::Finish(Err(unavailable)),
            },
    )
}

pub fn open_record<E>(
    replies: &mut Replies<'_>,
    place: Place,
    kind: RecordKind,
    uid: u32,
    unavailable: E,
    insecure: E,
) -> (opened: Result<Result<(), E>, OutsideRequest<Vec<u8>>>)
    requires
        old(replies).wf(),
    ensures
        went_along(
            open_record_plan(place, kind, uid, unavailable, insecure),
            *old(replies),
            seen(opened),
            *final(replies),
        ),
{
    broadcast use lemma_follow_bind;

    let before = match replies.look_up(place)? {
        Lookup::Found(before) => before,
        _ => {
            return Ok(Err(unavailable));
        },
    };
    if !kind.record_is_secure(&before, uid) {
        return Ok(Err(insecure));
    }
    if !replies.perform(OutsideRequest::Open(place))? {
        return Ok(Err(unavailable));
    }
    match replies.look_up_opened(place)? {
        Lookup::Found(after) => if same_object(&before, &after) && kind.record_is_secure(
            &after,
            uid,
        ) {
            Ok(Ok(()))
        } else {
            Ok(Err(insecure))
        },
        _ => Ok(Err(unavailable)),
    }
}

/// Open a trusted record and read at most `limit` bytes of it.
pub open spec fn read_record_plan<E>(
    place: Place,
    kind: RecordKind,
    uid: u32,
    limit: u64,
    unavailable: E,
    insecure: E,
    read_failed: E,
) -> HostPlan<Result<Seq<u8>, E>> {
    bind(
        open_record_plan(place, kind, uid, unavailable, insecure),
        |opened: Result<(), E>|
            match opened {
                Err(error) => Plan::Finish(Err(error)),
                Ok(_) => bind(
                    obtain(OutsideRequest::Read(place, limit)),
                    |read: Option<Seq<u8>>|
                        Plan::Finish(
                            match read {
                                Some(bytes) => Ok(bytes),
                                None => Err(read_failed),
                            },
                        ),
                ),
            },
    )
}

pub fn read_record<'a, E>(
    replies: &mut Replies<'a>,
    place: Place,
    kind: RecordKind,
    uid: u32,
    limit: u64,
    unavailable: E,
    insecure: E,
    read_failed: E,
) -> (read: Result<Result<&'a Vec<u8>, E>, OutsideRequest<Vec<u8>>>)
    requires
        old(replies).wf(),
    ensures
        went_along(
            read_record_plan(place, kind, uid, limit, unavailable, insecure, read_failed),
            *old(replies),
            match read {
                Ok(Ok(bytes)) => Ok(Ok(bytes@)),
                Ok(Err(error)) => Ok(Err(error)),
                Err(request) => Err(request@),
            },
            *final(replies),
        ),
{
    broadcast use lemma_follow_bind;

    match open_record(replies, place, kind, uid, unavailable, insecure)? {
        Err(error) => Ok(Err(error)),
        Ok(_) => match replies.obtain(OutsideRequest::Read(place, limit))? {
            Some(bytes) => Ok(Ok(bytes)),
            None => Ok(Err(read_failed)),
        },
    }
}

/// Write a record to a temporary file that did not exist, force it to disk and check it.
pub open spec fn write_temporary_plan<E>(
    temporary: Place,
    payload: Seq<u8>,
    kind: RecordKind,
    uid: u32,
    write_failed: E,
) -> HostPlan<Result<FileMetadata, E>> {
    bind(
        perform(OutsideRequest::CreateNew(temporary, PRIVATE_FILE_MODE)),
        |created: bool|
            if !created {
                Plan::Finish(Err(write_failed))
            } else {
                bind(
                    perform(OutsideRequest::SetOpenedMode(temporary, PRIVATE_FILE_MODE)),
                    |closed_off: bool|
                        if !closed_off {
                            Plan::Finish(Err(write_failed))
                        } else {
                            bind(
                                perform(OutsideRequest::WriteAndSync(temporary, payload)),
                                |written: bool|
                                    if !written {
                                        Plan::Finish(Err(write_failed))
                                    } else {
                                        bind(
                                            look_up_opened(temporary),
                                            |found: Lookup|
                                                Plan::Finish(
                                                    match found {
                                                        Lookup::Found(metadata) => if kind.accepts(
                                                            metadata,
                                                            uid,
                                                        ) {
                                                            Ok(metadata)
                                                        } else {
                                                            Err(write_failed)
                                                        },
                                                        _ => Err(write_failed),
                                                    },
                                                ),
                                        )
                                    },
                            )
                        },
                )
            },
    )
}

pub fn write_temporary<E>(
    replies: &mut Replies<'_>,
    temporary: Place,
    payload: &[u8],
    kind: RecordKind,
    uid: u32,
    write_failed: E,
) -> (written: Result<Result<FileMetadata, E>, OutsideRequest<Vec<u8>>>)
    requires
        old(replies).wf(),
    ensures
        went_along(
            write_temporary_plan(temporary, payload@, kind, uid, write_failed),
            *old(replies),
            seen(written),
            *final(replies),
        ),
{
    broadcast use lemma_follow_bind;

    if !replies.perform(OutsideRequest::CreateNew(temporary, PRIVATE_FILE_MODE))? {
        return Ok(Err(write_failed));
    }
    if !replies.perform(OutsideRequest::SetOpenedMode(temporary, PRIVATE_FILE_MODE))? {
        return Ok(Err(write_failed));
    }
    if !replies.perform(OutsideRequest::WriteAndSync(temporary, copy_bytes(payload)))? {
        return Ok(Err(write_failed));
    }
    match replies.look_up_opened(temporary)? {
        Lookup::Found(metadata) => if kind.record_is_secure(&metadata, uid) {
            Ok(Ok(metadata))
        } else {
            Ok(Err(write_failed))
        },
        _ => Ok(Err(write_failed)),
    }
}

/// Publish a record under a name that was free: write it beside its final place, then settle it.
/// The temporary file must not exist, and is removed when writing it fails.
pub open spec fn publish_plan<E>(
    temporary: Place,
    to: Place,
    directory: Place,
    payload: Seq<u8>,
    kind: RecordKind,
    uid: u32,
    write_failed: E,
    commit_failed: E,
    sync_failed: E,
) -> HostPlan<Result<(), E>> {
    bind(
        require_absent_plan(temporary, write_failed),
        |absent: Result<(), E>|
            match absent {
                Err(error) => Plan::Finish(Err(error)),
                Ok(_) => bind(
                    write_temporary_plan(temporary, payload, kind, uid, write_failed),
                    |written: Result<FileMetadata, E>|
                        match written {
                            Err(error) => bind(
                                perform(OutsideRequest::Remove(temporary)),
                                |_removed: bool| Plan::Finish(Err(error)),
                            ),
                            Ok(metadata) => settle_plan(
                                temporary,
                                to,
                                directory,
                                metadata,
                                kind,
                                uid,
                                commit_failed,
                                sync_failed,
                            ),
                        },
                ),
            },
    )
}

pub fn publish<E: Copy>(
    replies: &mut Replies<'_>,
    temporary: Place,
    to: Place,
    directory: Place,
    payload: &[u8],
    kind: RecordKind,
    uid: u32,
    write_failed: E,
    commit_failed: E,
    sync_failed: E,
) -> (published: Result<Result<(), E>, OutsideRequest<Vec<u8>>>)
    requires
        old(replies).wf(),
    ensures
        went_along(
            publish_plan(
                temporary,
                to,
                directory,
                payload@,
                kind,
                uid,
                write_failed,
                commit_failed,
                sync_failed,
            ),
            *old(replies),
            seen(published),
            *final(replies),
        ),
{
    broadcast use lemma_follow_bind;

    match require_absent(replies, temporary, write_failed)? {
        Err(error) => Ok(Err(error)),
        Ok(_) => match write_temporary(replies, temporary, payload, kind, uid, write_failed)? {
            Err(error) => {
                let _ = replies.perform(OutsideRequest::Remove(temporary))?;
                Ok(Err(error))
            },
            Ok(metadata) => settle(
                replies,
                temporary,
                to,
                directory,
                &metadata,
                kind,
                uid,
                commit_failed,
                sync_failed,
            ),
        },
    }
}

/// Rename a finished temporary record into place without replacing anything, check that the file
/// now in place is that very file, and make the directory durable. What this step put in place
/// it takes away again when a later check fails.
pub open spec fn settle_plan<E>(
    from: Place,
    to: Place,
    directory: Place,
    written: FileMetadata,
    kind: RecordKind,
    uid: u32,
    commit_failed: E,
    sync_failed: E,
) -> HostPlan<Result<(), E>> {
    bind(
        perform(OutsideRequest::RenameNoReplace(from, to)),
        |renamed: bool|
            if !renamed {
                bind(
                    perform(OutsideRequest::Remove(from)),
                    |_removed: bool| Plan::Finish(Err(commit_failed)),
                )
            } else {
                bind(
                    look_up(to),
                    |found: Lookup|
                        match found {
                            Lookup::Found(settled) => if kind.accepts(settled, uid)
                                && is_same_object(settled, written) {
                                bind(
                                    perform(OutsideRequest::SyncDirectory(directory)),
                                    |synced: bool|
                                        if synced {
                                            Plan::Finish(Ok(()))
                                        } else {
                                            withdraw_plan(to, directory, sync_failed)
                                        },
                                )
                            } else {
                                withdraw_plan(to, directory, commit_failed)
                            },
                            _ => bind(
                                perform(OutsideRequest::Remove(to)),
                                |_removed: bool| Plan::Finish(Err(commit_failed)),
                            ),
                        },
                )
            },
    )
}

/// Remove a record that this run put in place, make that durable as far as possible, and fail.
pub open spec fn withdraw_plan<R, E>(place: Place, directory: Place, error: E) -> HostPlan<
    Result<R, E>,
> {
    bind(
        perform(OutsideRequest::Remove(place)),
        |_removed: bool|
            bind(
                perform(OutsideRequest::SyncDirectory(directory)),
                |_synced: bool| Plan::Finish(Err(error)),
            ),
    )
}

pub fn withdraw<R, E>(
    replies: &mut Replies<'_>,
    place: Place,
    directory: Place,
    error: E,
) -> (withdrawn: Result<Result<R, E>, OutsideRequest<Vec<u8>>>)
    requires
        old(replies).wf(),
    ensures
        went_along(
            withdraw_plan::<R, E>(place, directory, error),
            *old(replies),
            seen(withdrawn),
            *final(replies),
        ),
{
    broadcast use lemma_follow_bind;

    let _ = replies.perform(OutsideRequest::Remove(place))?;
    let _ = replies.perform(OutsideRequest::SyncDirectory(directory))?;
    Ok(Err(error))
}

pub fn settle<E>(
    replies: &mut Replies<'_>,
    from: Place,
    to: Place,
    directory: Place,
    written: &FileMetadata,
    kind: RecordKind,
    uid: u32,
    commit_failed: E,
    sync_failed: E,
) -> (settled: Result<Result<(), E>, OutsideRequest<Vec<u8>>>)
    requires
        old(replies).wf(),
    ensures
        went_along(
            settle_plan(from, to, directory, *written, kind, uid, commit_failed, sync_failed),
            *old(replies),
            seen(settled),
            *final(replies),
        ),
{
    broadcast use lemma_follow_bind;

    if !replies.perform(OutsideRequest::RenameNoReplace(from, to))? {
        let _ = replies.perform(OutsideRequest::Remove(from))?;
        return Ok(Err(commit_failed));
    }
    let settled = match replies.look_up(to)? {
        Lookup::Found(settled) => settled,
        _ => {
            let _ = replies.perform(OutsideRequest::Remove(to))?;
            return Ok(Err(commit_failed));
        },
    };
    if !kind.record_is_secure(&settled, uid) || !same_object(&settled, written) {
        return withdraw(replies, to, directory, commit_failed);
    }
    if !replies.perform(OutsideRequest::SyncDirectory(directory))? {
        return withdraw(replies, to, directory, sync_failed);
    }
    Ok(Ok(()))
}

} // verus!
