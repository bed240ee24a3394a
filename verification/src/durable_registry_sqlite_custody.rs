//! Custody of the registry database: where it lies and which files and directories are trusted.
use vstd::prelude::*;
use vstd::string::*;
use vstd::utf8::*;

use crate::custody::{
    is_private_file, prepare_private_directory, prepare_private_directory_plan,
    private_file_is_secure, require_private_directory, require_private_directory_plan,
    state_root_plan, validate_state_root, PRIVATE_FILE_MODE,
};
use crate::durable_registry_sqlite_store::{
    open_existing_plan, open_existing_steps, open_plan, open_steps, registry_reply_views,
    DurableRegistrySqliteOpenError, RegistryReply,
};
use crate::environment::HostEnvironment;
use crate::outside::{
    look_up, perform, reply_views, seen, went_along, FileMetadata, HostPlan, Lookup, OutsideReply,
    OutsideRequest, Place, Replies,
};
use crate::paths::{
    is_absolute_path, join_path, joined, path_is_absolute, path_view, resolve_xdg_root,
    resolved_root, slice_view,
};
use crate::plan::{and_then, bind, follow, lemma_follow_bind, Plan, Progress};
use crate::startup_plan::{
    follow_startup, from_host, from_registry, group_follow_startup, on_host, on_registry,
    startup_progress, startup_went_along, StartupPlan, StartupReplies, StartupRequest,
};

verus! {

/// Stable relative path for the owner-PC embedded authority database.
pub const OWNER_PC_SQLITE_RELATIVE_PATH: &'static str =
    "private-remote-workspace/database/prw-authority-v1.sqlite3";

/// Bounded failure while resolving or preparing local owner-PC database custody.
#[derive(Clone, Copy, PartialEq, Eq, Structural, Debug)]
pub enum DurableRegistrySqliteCustodyError {
    InvalidStateRoot,
    InsecureStateRoot,
    InsecureApplicationDirectory,
    InsecureDatabaseDirectory,
    DirectoryCreationFailed,
    InsecureDatabaseFile,
    AuthorityOpenFailed,
}

impl DurableRegistrySqliteCustodyError {
    /// The text shown to people for this error.
    pub open spec fn text(self) -> Seq<char> {
        match self {
            DurableRegistrySqliteCustodyError::InvalidStateRoot => "invalid local authority state root"@,
            DurableRegistrySqliteCustodyError::InsecureStateRoot => "insecure local authority state root"@,
            DurableRegistrySqliteCustodyError::InsecureApplicationDirectory => "insecure local authority application directory"@,
            DurableRegistrySqliteCustodyError::InsecureDatabaseDirectory => "insecure local authority database directory"@,
            DurableRegistrySqliteCustodyError::DirectoryCreationFailed => "local authority directory creation failed"@,
            DurableRegistrySqliteCustodyError::InsecureDatabaseFile => "insecure local authority database file"@,
            DurableRegistrySqliteCustodyError::AuthorityOpenFailed => "local authority database open failed"@,
        }
    }

    pub fn message(&self) -> (text: &'static str)
        ensures
            text@ == self.text(),
    {
        match self {
            DurableRegistrySqliteCustodyError::InvalidStateRoot => "invalid local authority state root",
            DurableRegistrySqliteCustodyError::InsecureStateRoot => "insecure local authority state root",
            DurableRegistrySqliteCustodyError::InsecureApplicationDirectory => "insecure local authority application directory",
            DurableRegistrySqliteCustodyError::InsecureDatabaseDirectory => "insecure local authority database directory",
            DurableRegistrySqliteCustodyError::DirectoryCreationFailed => "local authority directory creation failed",
            DurableRegistrySqliteCustodyError::InsecureDatabaseFile => "insecure local authority database file",
            DurableRegistrySqliteCustodyError::AuthorityOpenFailed => "local authority database open failed",
        }
    }
}

/// Resolves the current user's XDG state root without creating or normalizing it.
///
/// `XDG_STATE_HOME` wins when present and must be a non-empty absolute path. Otherwise `HOME` must
/// be a non-empty absolute path and the default .local/state suffix is used.
pub fn resolve_owner_pc_state_root(xdg_state_home: Option<&[u8]>, home: Option<&[u8]>) -> (root: Option<
    Vec<u8>,
>)
    ensures
        path_view(root) == resolved_root(
            slice_view(xdg_state_home),
            slice_view(home),
            ".local/state"@,
        ),
{
    resolve_xdg_root(xdg_state_home, home, ".local/state")
}

/// The database file is a private regular file of this user.
pub open spec fn database_file_plan(uid: u32) -> HostPlan<
    Result<(), DurableRegistrySqliteCustodyError>,
> {
    bind(
        look_up(Place::Database),
        |found: Lookup|
            Plan::Finish(
                if found matches Lookup::Found(metadata) && is_private_file(metadata, uid) {
                    Ok(())
                } else {
                    Err(DurableRegistrySqliteCustodyError::InsecureDatabaseFile)
                },
            ),
    )
}

fn validate_database_file(replies: &mut Replies<'_>, uid: u32) -> (checked: Result<
    Result<(), DurableRegistrySqliteCustodyError>,
    OutsideRequest<Vec<u8>>,
>)
    requires
        old(replies).wf(),
    ensures
        went_along(database_file_plan(uid), *old(replies), seen(checked), *final(replies)),
{
    broadcast use lemma_follow_bind;

    match replies.look_up(Place::Database)? {
        Lookup::Found(metadata) => if private_file_is_secure(&metadata, uid) {
            Ok(Ok(()))
        } else {
            Ok(Err(DurableRegistrySqliteCustodyError::InsecureDatabaseFile))
        },
        _ => Ok(Err(DurableRegistrySqliteCustodyError::InsecureDatabaseFile)),
    }
}

/// The root of the custody is trusted.
pub open spec fn custody_root_plan(absolute: bool, uid: u32) -> HostPlan<
    Result<(), DurableRegistrySqliteCustodyError>,
> {
    state_root_plan(
        absolute,
        uid,
        DurableRegistrySqliteCustodyError::InvalidStateRoot,
        DurableRegistrySqliteCustodyError::InsecureStateRoot,
    )
}

fn validate_custody_root(replies: &mut Replies<'_>, absolute: bool, uid: u32) -> (checked: Result<
    Result<(), DurableRegistrySqliteCustodyError>,
    OutsideRequest<Vec<u8>>,
>)
    requires
        old(replies).wf(),
    ensures
        went_along(custody_root_plan(absolute, uid), *old(replies), seen(checked), *final(replies)),
{
    validate_state_root(
        replies,
        absolute,
        uid,
        DurableRegistrySqliteCustodyError::InvalidStateRoot,
        DurableRegistrySqliteCustodyError::InsecureStateRoot,
    )
}

/// The whole established custody is there and trusted; nothing is created or repaired.
pub open spec fn existing_path_plan(absolute: bool, uid: u32) -> HostPlan<
    Result<(), DurableRegistrySqliteCustodyError>,
> {
    and_then(
        custody_root_plan(absolute, uid),
        |_root: ()|
            and_then(
                require_private_directory_plan(
                    Place::ApplicationDirectory,
                    uid,
                    DurableRegistrySqliteCustodyError::InsecureApplicationDirectory,
                ),
                |_application: ()|
                    and_then(
                        require_private_directory_plan(
                            Place::DatabaseDirectory,
                            uid,
                            DurableRegistrySqliteCustodyError::InsecureDatabaseDirectory,
                        ),
                        |_database: ()| database_file_plan(uid),
                    ),
            ),
    )
}

fn existing_path_steps(replies: &mut Replies<'_>, absolute: bool, uid: u32) -> (checked: Result<
    Result<(), DurableRegistrySqliteCustodyError>,
    OutsideRequest<Vec<u8>>,
>)
    requires
        old(replies).wf(),
    ensures
        went_along(existing_path_plan(absolute, uid), *old(replies), seen(checked), *final(replies)),
{
    broadcast use lemma_follow_bind;

    if let Err(error) = validate_custody_root(replies, absolute, uid)? {
        return Ok(Err(error));
    }
    if let Err(error) = require_private_directory(
        replies,
        Place::ApplicationDirectory,
        uid,
        DurableRegistrySqliteCustodyError::InsecureApplicationDirectory,
    )? {
        return Ok(Err(error));
    }
    if let Err(error) = require_private_directory(
        replies,
        Place::DatabaseDirectory,
        uid,
        DurableRegistrySqliteCustodyError::InsecureDatabaseDirectory,
    )? {
        return Ok(Err(error));
    }
    validate_database_file(replies, uid)
}

/// The directories above the database exist and are private, made now where they were missing. A
/// database file that is already there has to be trusted; none is created.
pub open spec fn prepare_path_plan(absolute: bool, uid: u32) -> HostPlan<
    Result<(), DurableRegistrySqliteCustodyError>,
> {
    and_then(
        custody_root_plan(absolute, uid),
        |_root: ()|
            and_then(
                prepare_private_directory_plan(
                    Place::ApplicationDirectory,
                    uid,
                    DurableRegistrySqliteCustodyError::DirectoryCreationFailed,
                    DurableRegistrySqliteCustodyError::InsecureApplicationDirectory,
                ),
                |_application: ()|
                    and_then(
                        prepare_private_directory_plan(
                            Place::DatabaseDirectory,
                            uid,
                            DurableRegistrySqliteCustodyError::DirectoryCreationFailed,
                            DurableRegistrySqliteCustodyError::InsecureDatabaseDirectory,
                        ),
                        |_database: ()| optional_database_plan(uid),
                    ),
            ),
    )
}

pub open spec fn optional_database_plan(uid: u32) -> HostPlan<
    Result<(), DurableRegistrySqliteCustodyError>,
> {
    bind(
        look_up(Place::Database),
        |found: Lookup|
            match found {
                Lookup::Found(_) => database_file_plan(uid),
                Lookup::Missing => Plan::Finish(Ok(())),
                Lookup::Unreadable => Plan::Finish(
                    Err(DurableRegistrySqliteCustodyError::InsecureDatabaseFile),
                ),
            },
    )
}

fn prepare_path_steps(replies: &mut Replies<'_>, absolute: bool, uid: u32) -> (prepared: Result<
    Result<(), DurableRegistrySqliteCustodyError>,
    OutsideRequest<Vec<u8>>,
>)
    requires
        old(replies).wf(),
    ensures
        went_along(prepare_path_plan(absolute, uid), *old(replies), seen(prepared), *final(replies)),
{
    broadcast use lemma_follow_bind;

    if let Err(error) = validate_custody_root(replies, absolute, uid)? {
        return Ok(Err(error));
    }
    if let Err(error) = prepare_private_directory(
        replies,
        Place::ApplicationDirectory,
        uid,
        DurableRegistrySqliteCustodyError::DirectoryCreationFailed,
        DurableRegistrySqliteCustodyError::InsecureApplicationDirectory,
    )? {
        return Ok(Err(error));
    }
    if let Err(error) = prepare_private_directory(
        replies,
        Place::DatabaseDirectory,
        uid,
        DurableRegistrySqliteCustodyError::DirectoryCreationFailed,
        DurableRegistrySqliteCustodyError::InsecureDatabaseDirectory,
    )? {
        return Ok(Err(error));
    }
    match replies.look_up(Place::Database)? {
        Lookup::Found(_) => validate_database_file(replies, uid),
        Lookup::Missing => Ok(Ok(())),
        Lookup::Unreadable => Ok(Err(DurableRegistrySqliteCustodyError::InsecureDatabaseFile)),
    }
}

/// A regular file of this user, whatever its permissions.
pub open spec fn is_own_file(metadata: FileMetadata, uid: u32) -> bool {
    !metadata.is_symlink && metadata.is_file && metadata.uid == uid
}

/// Close the database file to others and check that it is closed.
pub open spec fn harden_database_plan(uid: u32) -> HostPlan<
    Result<(), DurableRegistrySqliteCustodyError>,
> {
    bind(
        look_up(Place::Database),
        |found: Lookup|
            if found matches Lookup::Found(metadata) && is_own_file(metadata, uid) {
                bind(
                    perform(OutsideRequest::SetMode(Place::Database, PRIVATE_FILE_MODE)),
                    |hardened: bool|
                        if hardened {
                            database_file_plan(uid)
                        } else {
                            Plan::Finish(
                                Err(DurableRegistrySqliteCustodyError::InsecureDatabaseFile),
                            )
                        },
                )
            } else {
                Plan::Finish(Err(DurableRegistrySqliteCustodyError::InsecureDatabaseFile))
            },
    )
}

fn harden_database_steps(replies: &mut Replies<'_>, uid: u32) -> (hardened: Result<
    Result<(), DurableRegistrySqliteCustodyError>,
    OutsideRequest<Vec<u8>>,
>)
    requires
        old(replies).wf(),
    ensures
        went_along(harden_database_plan(uid), *old(replies), seen(hardened), *final(replies)),
{
    broadcast use lemma_follow_bind;

    match replies.look_up(Place::Database)? {
        Lookup::Found(metadata) => {
            if metadata.is_symlink || !metadata.is_file || metadata.uid != uid {
                return Ok(Err(DurableRegistrySqliteCustodyError::InsecureDatabaseFile));
            }
        },
        _ => {
            return Ok(Err(DurableRegistrySqliteCustodyError::InsecureDatabaseFile));
        },
    }
    if !replies.perform(OutsideRequest::SetMode(Place::Database, PRIVATE_FILE_MODE))? {
        return Ok(Err(DurableRegistrySqliteCustodyError::InsecureDatabaseFile));
    }
    validate_database_file(replies, uid)
}

/// Where the database lies below a state root.
pub open spec fn database_path_below(state_root: Seq<u8>) -> Seq<u8> {
    joined(state_root, encode_utf8(OWNER_PC_SQLITE_RELATIVE_PATH@))
}

/// The progress towards a path, as the plans see it.
pub open spec fn path_progress(
    progress: Progress<
        OutsideRequest<Vec<u8>>,
        Result<Vec<u8>, DurableRegistrySqliteCustodyError>,
    >,
) -> Progress<OutsideRequest<Seq<u8>>, Result<Seq<u8>, DurableRegistrySqliteCustodyError>> {
    match progress {
        Progress::Done(Ok(path)) => Progress::Done(Ok(path@)),
        Progress::Done(Err(error)) => Progress::Done(Err(error)),
        Progress::Waiting(request) => Progress::Waiting(request@),
    }
}

/// The path of the database, once a plan over its custody succeeds.
pub open spec fn with_database_path(
    plan: HostPlan<Result<(), DurableRegistrySqliteCustodyError>>,
    state_root: Seq<u8>,
) -> HostPlan<Result<Seq<u8>, DurableRegistrySqliteCustodyError>> {
    and_then(plan, |_checked: ()| Plan::Finish(Ok(database_path_below(state_root))))
}

/// The path of an established database below a state root, as far as the replies go.
pub fn existing_owner_pc_sqlite_path(
    state_root: &[u8],
    uid: u32,
    replies: &Vec<OutsideReply<Vec<u8>>>,
) -> (progress: Progress<
    OutsideRequest<Vec<u8>>,
    Result<Vec<u8>, DurableRegistrySqliteCustodyError>,
>)
    ensures
        path_progress(progress) == follow(
            with_database_path(
                existing_path_plan(is_absolute_path(state_root@), uid),
                state_root@,
            ),
            reply_views(replies@),
        ).0,
{
    broadcast use lemma_follow_bind;

    let mut cursor = Replies::new(replies);
    match existing_path_steps(&mut cursor, path_is_absolute(state_root), uid) {
        Ok(Ok(_)) => Progress::Done(Ok(join_path(state_root, OWNER_PC_SQLITE_RELATIVE_PATH))),
        Ok(Err(error)) => Progress::Done(Err(error)),
        Err(request) => Progress::Waiting(request),
    }
}

/// Prepares the directories of the database below a state root, as far as the replies go.
pub fn prepare_owner_pc_sqlite_path(
    state_root: &[u8],
    uid: u32,
    replies: &Vec<OutsideReply<Vec<u8>>>,
) -> (progress: Progress<
    OutsideRequest<Vec<u8>>,
    Result<Vec<u8>, DurableRegistrySqliteCustodyError>,
>)
    ensures
        path_progress(progress) == follow(
            with_database_path(prepare_path_plan(is_absolute_path(state_root@), uid), state_root@),
            reply_views(replies@),
        ).0,
{
    broadcast use lemma_follow_bind;

    let mut cursor = Replies::new(replies);
    match prepare_path_steps(&mut cursor, path_is_absolute(state_root), uid) {
        Ok(Ok(_)) => Progress::Done(Ok(join_path(state_root, OWNER_PC_SQLITE_RELATIVE_PATH))),
        Ok(Err(error)) => Progress::Done(Err(error)),
        Err(request) => Progress::Waiting(request),
    }
}

/// Prepares the directories of the database below the state root of the environment, as far as
/// the replies go.
pub fn prepare_owner_pc_sqlite_path_from_env(
    environment: &HostEnvironment,
    replies: &Vec<OutsideReply<Vec<u8>>>,
) -> (progress: Progress<
    OutsideRequest<Vec<u8>>,
    Result<Vec<u8>, DurableRegistrySqliteCustodyError>,
>)
    ensures
        path_progress(progress) == follow(
            match environment.state_root_path() {
                None => Plan::Finish(Err(DurableRegistrySqliteCustodyError::InvalidStateRoot)),
                Some(state_root) => with_database_path(
                    prepare_path_plan(true, environment.uid),
                    state_root,
                ),
            },
            reply_views(replies@),
        ).0,
{
    match environment.state_root() {
        None => Progress::Done(Err(DurableRegistrySqliteCustodyError::InvalidStateRoot)),
        Some(state_root) => {
            proof {
                crate::environment::lemma_state_root_is_absolute(*environment);
            }
            prepare_owner_pc_sqlite_path(state_root.as_slice(), environment.uid, replies)
        },
    }
}

/// The path of the established database below the state root of the environment, as far as the
/// replies go.
pub fn existing_owner_pc_sqlite_path_from_env(
    environment: &HostEnvironment,
    replies: &Vec<OutsideReply<Vec<u8>>>,
) -> (progress: Progress<
    OutsideRequest<Vec<u8>>,
    Result<Vec<u8>, DurableRegistrySqliteCustodyError>,
>)
    ensures
        path_progress(progress) == follow(
            match environment.state_root_path() {
                None => Plan::Finish(Err(DurableRegistrySqliteCustodyError::InvalidStateRoot)),
                Some(state_root) => with_database_path(
                    existing_path_plan(true, environment.uid),
                    state_root,
                ),
            },
            reply_views(replies@),
        ).0,
{
    match environment.state_root() {
        None => Progress::Done(Err(DurableRegistrySqliteCustodyError::InvalidStateRoot)),
        Some(state_root) => {
            proof {
                crate::environment::lemma_state_root_is_absolute(*environment);
            }
            existing_owner_pc_sqlite_path(state_root.as_slice(), environment.uid, replies)
        },
    }
}

/// Closes the database file to others, as far as the replies go.
pub fn harden_database_file(uid: u32, replies: &Vec<OutsideReply<Vec<u8>>>) -> (progress: Progress<
    OutsideRequest<Vec<u8>>,
    Result<(), DurableRegistrySqliteCustodyError>,
>)
    ensures
        (match progress {
            Progress::Done(result) => Progress::Done(result),
            Progress::Waiting(request) => Progress::Waiting(request@),
        }) == follow(harden_database_plan(uid), reply_views(replies@)).0,
{
    let mut cursor = Replies::new(replies);
    match harden_database_steps(&mut cursor, uid) {
        Ok(result) => Progress::Done(result),
        Err(request) => Progress::Waiting(request),
    }
}

/// The state root has to be known before anything else.
pub open spec fn custody_from_environment<R>(
    environment: HostEnvironment,
    plan: StartupPlan<Result<R, DurableRegistrySqliteCustodyError>>,
) -> StartupPlan<Result<R, DurableRegistrySqliteCustodyError>> {
    match environment.state_root_path() {
        None => StartupPlan::Finish(Err(DurableRegistrySqliteCustodyError::InvalidStateRoot)),
        Some(_) => plan,
    }
}

/// Prepare the place of the database, open it, and only then close it to everybody else.
pub open spec fn open_authority_plan(environment: HostEnvironment) -> StartupPlan<
    Result<(), DurableRegistrySqliteCustodyError>,
> {
    custody_from_environment(
        environment,
        on_host(
            prepare_path_plan(true, environment.uid),
            |prepared: Result<(), DurableRegistrySqliteCustodyError>|
                match prepared {
                    Err(error) => StartupPlan::Finish(Err(error)),
                    Ok(_) => on_registry(
                        open_plan(),
                        |opened: Result<(), DurableRegistrySqliteOpenError>|
                            match opened {
                                Err(_) => StartupPlan::Finish(
                                    Err(DurableRegistrySqliteCustodyError::AuthorityOpenFailed),
                                ),
                                Ok(_) => on_host(
                                    harden_database_plan(environment.uid),
                                    |hardened: Result<(), DurableRegistrySqliteCustodyError>|
                                        StartupPlan::Finish(hardened),
                                ),
                            },
                    ),
                },
        ),
    )
}

/// Check the place of the database, and open what is there for reading.
pub open spec fn open_existing_authority_plan(environment: HostEnvironment) -> StartupPlan<
    Result<(), DurableRegistrySqliteCustodyError>,
> {
    custody_from_environment(
        environment,
        on_host(
            existing_path_plan(true, environment.uid),
            |checked: Result<(), DurableRegistrySqliteCustodyError>|
                match checked {
                    Err(error) => StartupPlan::Finish(Err(error)),
                    Ok(_) => on_registry(
                        open_existing_plan(),
                        |opened: Result<(), DurableRegistrySqliteOpenError>|
                            StartupPlan::Finish(
                                match opened {
                                    Ok(_) => Ok(()),
                                    Err(_) => Err(
                                        DurableRegistrySqliteCustodyError::AuthorityOpenFailed,
                                    ),
                                },
                            ),
                    ),
                },
        ),
    )
}

/// Opens the authority as part of a longer operation.
pub(crate) fn open_authority_in(environment: &HostEnvironment, replies: &mut StartupReplies<'_>) -> (outcome: Result<
    Result<(), DurableRegistrySqliteCustodyError>,
    StartupRequest<String, Vec<u8>>,
>)
    requires
        old(replies).wf(),
    ensures
        startup_went_along(
            open_authority_plan(*environment),
            *old(replies),
            outcome,
            *final(replies),
        ),
{
    broadcast use group_follow_startup;

    if environment.state_root().is_none() {
        return Ok(Err(DurableRegistrySqliteCustodyError::InvalidStateRoot));
    }
    if let Err(error) = from_host(prepare_path_steps(&mut replies.host, true, environment.uid))? {
        return Ok(Err(error));
    }
    if from_registry(open_steps(&mut replies.registry))?.is_err() {
        return Ok(Err(DurableRegistrySqliteCustodyError::AuthorityOpenFailed));
    }
    from_host(harden_database_steps(&mut replies.host, environment.uid))
}

/// Opens the existing authority as part of a longer operation.
pub(crate) fn open_existing_authority_in(
    environment: &HostEnvironment,
    replies: &mut StartupReplies<'_>,
) -> (outcome: Result<
    Result<(), DurableRegistrySqliteCustodyError>,
    StartupRequest<String, Vec<u8>>,
>)
    requires
        old(replies).wf(),
    ensures
        startup_went_along(
            open_existing_authority_plan(*environment),
            *old(replies),
            outcome,
            *final(replies),
        ),
{
    broadcast use group_follow_startup;

    if environment.state_root().is_none() {
        return Ok(Err(DurableRegistrySqliteCustodyError::InvalidStateRoot));
    }
    if let Err(error) = from_host(existing_path_steps(&mut replies.host, true, environment.uid))? {
        return Ok(Err(error));
    }
    match from_registry(open_existing_steps(&mut replies.registry))? {
        Ok(_) => Ok(Ok(())),
        Err(_) => Ok(Err(DurableRegistrySqliteCustodyError::AuthorityOpenFailed)),
    }
}

/// Opens the owner's database at its fixed place, as far as the replies go. The database is
/// created when it is missing, and afterwards its file is closed to everybody else.
pub fn open_owner_pc_sqlite_authority_from_env(
    environment: &HostEnvironment,
    host: &Vec<OutsideReply<Vec<u8>>>,
    registry: &Vec<RegistryReply<String, Vec<u8>>>,
) -> (progress: Progress<
    StartupRequest<String, Vec<u8>>,
    Result<(), DurableRegistrySqliteCustodyError>,
>)
    ensures
        startup_progress(progress) == follow_startup(
            open_authority_plan(*environment),
            reply_views(host@),
            registry_reply_views(registry@),
        ).progress,
{
    let mut replies = StartupReplies::new(host, registry);
    match open_authority_in(environment, &mut replies) {
        Ok(result) => Progress::Done(result),
        Err(request) => Progress::Waiting(request),
    }
}

/// Opens the owner's existing database for reading, as far as the replies go. Nothing is created,
/// repaired or migrated.
pub fn open_existing_owner_pc_sqlite_authority_from_env(
    environment: &HostEnvironment,
    host: &Vec<OutsideReply<Vec<u8>>>,
    registry: &Vec<RegistryReply<String, Vec<u8>>>,
) -> (progress: Progress<
    StartupRequest<String, Vec<u8>>,
    Result<(), DurableRegistrySqliteCustodyError>,
>)
    ensures
        startup_progress(progress) == follow_startup(
            open_existing_authority_plan(*environment),
            reply_views(host@),
            registry_reply_views(registry@),
        ).progress,
{
    let mut replies = StartupReplies::new(host, registry);
    match open_existing_authority_in(environment, &mut replies) {
        Ok(result) => Progress::Done(result),
        Err(request) => Progress::Waiting(request),
    }
}

} // verus!
