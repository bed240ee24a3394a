//! Reading back an established transport identity.
//!
//! Nothing here changes persistent state. The encrypted credential and the service binding must
//! be exactly what provisioning leaves behind; only then is the credential decrypted, and only
//! its identity is returned.
use vstd::prelude::*;
use vstd::string::*;

use crate::bytes::same_bytes;
use crate::custody::{
    open_record, open_record_plan, read_record, read_record_plan, require_private_directory,
    require_private_directory_plan, user_directory_plan, validate_user_directory, RecordKind,
    MAX_DROPIN_BYTES,
};
use crate::domain::TransportIdentity;
use crate::environment::HostEnvironment;
use crate::outside::{
    look_up, obtain, perform, reply_views, seen, went_along, HostPlan, Lookup, OutsideReply,
    OutsideRequest, Place, Replies,
};
use crate::paths::join_path;
use crate::plan::{and_then, bind, follow, lemma_follow_bind, Plan, Progress};
use crate::transport_identity_custody::{
    credential_size_allowed, derive_transport_identity_from_pkcs8_v1_der, derived_identity,
    identity_bytes, CREDENTIAL_READ_LIMIT, MAX_UBUNTU_TRANSPORT_IDENTITY_PKCS8_BYTES,
};
use crate::transport_identity_provisioning::{
    ciphertext_path_below, classify_transport_identity_persistent_state, established_policy,
    established_policy_from_dropin_payload, render_transport_identity_dropin, rendered_dropin, run,
    run_plan, secure_program_plan, validate_secure_system_program,
    EstablishedTransportIdentityRecovery, TransportIdentityPersistentState,
    TransportIdentityProvisioningPolicy, TransportIdentityRecoveryError,
    TRANSPORT_IDENTITY_CIPHERTEXT_RELATIVE_PATH,
};

verus! {

pub const DROPIN_READ_LIMIT: u64 = 4_097;

/// A directory that may be missing, but if it is there has to be a directory of this user, and a
/// private one where `private` is set. The result says whether it is there.
pub open spec fn optional_directory_plan(place: Place, private: bool, uid: u32) -> HostPlan<
    Result<bool, TransportIdentityRecoveryError>,
> {
    bind(
        look_up(place),
        |found: Lookup|
            match found {
                Lookup::Found(_) => and_then(
                    recovery_directory_plan(place, private, uid),
                    |_secure: ()| Plan::Finish(Ok(true)),
                ),
                Lookup::Missing => Plan::Finish(Ok(false)),
                Lookup::Unreadable => Plan::Finish(
                    Err(TransportIdentityRecoveryError::InsecureDirectory),
                ),
            },
    )
}

/// A directory of this user, and a private one where `private` is set.
pub open spec fn recovery_directory_plan(place: Place, private: bool, uid: u32) -> HostPlan<
    Result<(), TransportIdentityRecoveryError>,
> {
    if private {
        require_private_directory_plan(
            place,
            uid,
            TransportIdentityRecoveryError::InsecureDirectory,
        )
    } else {
        user_directory_plan(place, uid, TransportIdentityRecoveryError::InsecureDirectory)
    }
}

fn validate_recovery_directory(
    replies: &mut Replies<'_>,
    place: Place,
    private: bool,
    uid: u32,
) -> (checked: Result<Result<(), TransportIdentityRecoveryError>, OutsideRequest<Vec<u8>>>)
    requires
        old(replies).wf(),
    ensures
        went_along(
            recovery_directory_plan(place, private, uid),
            *old(replies),
            seen(checked),
            *final(replies),
        ),
{
    if private {
        require_private_directory(
            replies,
            place,
            uid,
            TransportIdentityRecoveryError::InsecureDirectory,
        )
    } else {
        validate_user_directory(
            replies,
            place,
            uid,
            TransportIdentityRecoveryError::InsecureDirectory,
        )
    }
}

fn validate_optional_directory(
    replies: &mut Replies<'_>,
    place: Place,
    private: bool,
    uid: u32,
) -> (present: Result<Result<bool, TransportIdentityRecoveryError>, OutsideRequest<Vec<u8>>>)
    requires
        old(replies).wf(),
    ensures
        went_along(
            optional_directory_plan(place, private, uid),
            *old(replies),
            seen(present),
            *final(replies),
        ),
{
    broadcast use lemma_follow_bind;

    match replies.look_up(place)? {
        Lookup::Found(_) => match validate_recovery_directory(replies, place, private, uid)? {
            Ok(_) => Ok(Ok(true)),
            Err(error) => Ok(Err(error)),
        },
        Lookup::Missing => Ok(Ok(false)),
        Lookup::Unreadable => Ok(Err(TransportIdentityRecoveryError::InsecureDirectory)),
    }
}

/// First one optional directory, and when it is there what comes below it.
pub open spec fn descend_plan(
    place: Place,
    private: bool,
    uid: u32,
    below: HostPlan<Result<bool, TransportIdentityRecoveryError>>,
) -> HostPlan<Result<bool, TransportIdentityRecoveryError>> {
    and_then(
        optional_directory_plan(place, private, uid),
        |present: bool|
            if present {
                below
            } else {
                Plan::Finish(Ok(false))
            },
    )
}

/// Whether the directories above the ciphertext are there; those that are have to be private.
pub open spec fn ciphertext_parents_plan(uid: u32) -> HostPlan<
    Result<bool, TransportIdentityRecoveryError>,
> {
    descend_plan(
        Place::ApplicationDirectory,
        true,
        uid,
        optional_directory_plan(Place::CredentialDirectory, true, uid),
    )
}

/// Whether the directories above the service binding are there; those that are have to belong to
/// this user.
pub open spec fn dropin_parents_plan(uid: u32) -> HostPlan<
    Result<bool, TransportIdentityRecoveryError>,
> {
    descend_plan(
        Place::ConfigRoot,
        false,
        uid,
        descend_plan(
            Place::SystemdDirectory,
            false,
            uid,
            descend_plan(
                Place::SystemdUserDirectory,
                false,
                uid,
                optional_directory_plan(Place::DropinDirectory, false, uid),
            ),
        ),
    )
}

fn validate_optional_transport_state_parent_chain(replies: &mut Replies<'_>, uid: u32) -> (present: Result<
    Result<bool, TransportIdentityRecoveryError>,
    OutsideRequest<Vec<u8>>,
>)
    requires
        old(replies).wf(),
    ensures
        went_along(ciphertext_parents_plan(uid), *old(replies), seen(present), *final(replies)),
{
    broadcast use lemma_follow_bind;

    match validate_optional_directory(replies, Place::ApplicationDirectory, true, uid)? {
        Err(error) => Ok(Err(error)),
        Ok(false) => Ok(Ok(false)),
        Ok(true) => validate_optional_directory(replies, Place::CredentialDirectory, true, uid),
    }
}

fn validate_optional_transport_dropin_parent_chain(replies: &mut Replies<'_>, uid: u32) -> (present: Result<
    Result<bool, TransportIdentityRecoveryError>,
    OutsideRequest<Vec<u8>>,
>)
    requires
        old(replies).wf(),
    ensures
        went_along(dropin_parents_plan(uid), *old(replies), seen(present), *final(replies)),
{
    broadcast use lemma_follow_bind;

    match validate_optional_directory(replies, Place::ConfigRoot, false, uid)? {
        Err(error) => {
            return Ok(Err(error));
        },
        Ok(false) => {
            return Ok(Ok(false));
        },
        Ok(true) => {},
    }
    match validate_optional_directory(replies, Place::SystemdDirectory, false, uid)? {
        Err(error) => {
            return Ok(Err(error));
        },
        Ok(false) => {
            return Ok(Ok(false));
        },
        Ok(true) => {},
    }
    match validate_optional_directory(replies, Place::SystemdUserDirectory, false, uid)? {
        Err(error) => Ok(Err(error)),
        Ok(false) => Ok(Ok(false)),
        Ok(true) => validate_optional_directory(replies, Place::DropinDirectory, false, uid),
    }
}

/// Whether an artifact is there, given whether its directory is.
pub open spec fn leaf_plan(
    place: Place,
    parent_exists: bool,
    unavailable: TransportIdentityRecoveryError,
) -> HostPlan<Result<bool, TransportIdentityRecoveryError>> {
    if !parent_exists {
        Plan::Finish(Ok(false))
    } else {
        bind(
            look_up(place),
            |found: Lookup|
                Plan::Finish(
                    match found {
                        Lookup::Found(_) => Ok(true),
                        Lookup::Missing => Ok(false),
                        Lookup::Unreadable => Err(unavailable),
                    },
                ),
        )
    }
}

fn recovery_leaf_exists(
    replies: &mut Replies<'_>,
    place: Place,
    parent_exists: bool,
    unavailable: TransportIdentityRecoveryError,
) -> (exists: Result<Result<bool, TransportIdentityRecoveryError>, OutsideRequest<Vec<u8>>>)
    requires
        old(replies).wf(),
    ensures
        went_along(
            leaf_plan(place, parent_exists, unavailable),
            *old(replies),
            seen(exists),
            *final(replies),
        ),
{
    broadcast use lemma_follow_bind;

    if !parent_exists {
        return Ok(Ok(false));
    }
    match replies.look_up(place)? {
        Lookup::Found(_) => Ok(Ok(true)),
        Lookup::Missing => Ok(Ok(false)),
        Lookup::Unreadable => Ok(Err(unavailable)),
    }
}

/// Open the encrypted credential if it is trusted.
pub open spec fn open_ciphertext_plan(uid: u32) -> HostPlan<
    Result<(), TransportIdentityRecoveryError>,
> {
    open_record_plan(
        Place::Ciphertext,
        RecordKind::Ciphertext,
        uid,
        TransportIdentityRecoveryError::CiphertextUnavailable,
        TransportIdentityRecoveryError::CiphertextInsecure,
    )
}

fn open_existing_transport_ciphertext_for_recovery(replies: &mut Replies<'_>, uid: u32) -> (opened: Result<
    Result<(), TransportIdentityRecoveryError>,
    OutsideRequest<Vec<u8>>,
>)
    requires
        old(replies).wf(),
    ensures
        went_along(open_ciphertext_plan(uid), *old(replies), seen(opened), *final(replies)),
{
    open_record(
        replies,
        Place::Ciphertext,
        RecordKind::Ciphertext,
        uid,
        TransportIdentityRecoveryError::CiphertextUnavailable,
        TransportIdentityRecoveryError::CiphertextInsecure,
    )
}

/// Read the service binding if it is trusted and not too long.
pub open spec fn read_dropin_plan(uid: u32) -> HostPlan<
    Result<Seq<u8>, TransportIdentityRecoveryError>,
> {
    and_then(
        read_record_plan(
            Place::Dropin,
            RecordKind::Dropin,
            uid,
            DROPIN_READ_LIMIT,
            TransportIdentityRecoveryError::DropinUnavailable,
            TransportIdentityRecoveryError::DropinInsecure,
            TransportIdentityRecoveryError::DropinInsecure,
        ),
        |payload: Seq<u8>|
            Plan::Finish(
                if payload.len() > MAX_DROPIN_BYTES {
                    Err(TransportIdentityRecoveryError::DropinInsecure)
                } else {
                    Ok(payload)
                },
            ),
    )
}

fn read_existing_transport_dropin_for_recovery<'a>(replies: &mut Replies<'a>, uid: u32) -> (read: Result<
    Result<&'a Vec<u8>, TransportIdentityRecoveryError>,
    OutsideRequest<Vec<u8>>,
>)
    requires
        old(replies).wf(),
    ensures
        went_along(
            read_dropin_plan(uid),
            *old(replies),
            match read {
                Ok(Ok(payload)) => Ok(Ok(payload@)),
                Ok(Err(error)) => Ok(Err(error)),
                Err(request) => Err(request@),
            },
            *final(replies),
        ),
{
    broadcast use lemma_follow_bind;

    match read_record(
        replies,
        Place::Dropin,
        RecordKind::Dropin,
        uid,
        DROPIN_READ_LIMIT,
        TransportIdentityRecoveryError::DropinUnavailable,
        TransportIdentityRecoveryError::DropinInsecure,
        TransportIdentityRecoveryError::DropinInsecure,
    )? {
        Err(error) => Ok(Err(error)),
        Ok(payload) => if payload.len() > 4_096 {
            Ok(Err(TransportIdentityRecoveryError::DropinInsecure))
        } else {
            Ok(Ok(payload))
        },
    }
}

/// The service binding is exactly the expected one.
pub open spec fn matching_dropin_plan(expected: Seq<u8>, uid: u32) -> HostPlan<
    Result<(), TransportIdentityRecoveryError>,
> {
    and_then(
        read_dropin_plan(uid),
        |payload: Seq<u8>|
            Plan::Finish(
                if payload == expected {
                    Ok(())
                } else {
                    Err(TransportIdentityRecoveryError::CustodyPolicyMismatch)
                },
            ),
    )
}

fn validate_existing_transport_dropin_for_recovery(
    replies: &mut Replies<'_>,
    expected: &[u8],
    uid: u32,
) -> (checked: Result<Result<(), TransportIdentityRecoveryError>, OutsideRequest<Vec<u8>>>)
    requires
        old(replies).wf(),
    ensures
        went_along(
            matching_dropin_plan(expected@, uid),
            *old(replies),
            seen(checked),
            *final(replies),
        ),
{
    broadcast use lemma_follow_bind;

    match read_existing_transport_dropin_for_recovery(replies, uid)? {
        Err(error) => Ok(Err(error)),
        Ok(payload) => if same_bytes(payload.as_slice(), expected) {
            Ok(Ok(()))
        } else {
            Ok(Err(TransportIdentityRecoveryError::CustodyPolicyMismatch))
        },
    }
}

/// Both artifacts are trusted and the binding is that of the policy.
pub open spec fn established_artifacts_plan(
    policy: TransportIdentityProvisioningPolicy,
    ciphertext_path: Seq<u8>,
    uid: u32,
) -> HostPlan<Result<(), TransportIdentityRecoveryError>> {
    match rendered_dropin(ciphertext_path, policy.tier()) {
        None => Plan::Finish(Err(TransportIdentityRecoveryError::CustodyPolicyMismatch)),
        Some(expected) => and_then(
            open_ciphertext_plan(uid),
            |_opened: ()| matching_dropin_plan(expected, uid),
        ),
    }
}

fn validate_established_artifacts(
    replies: &mut Replies<'_>,
    policy: TransportIdentityProvisioningPolicy,
    ciphertext_path: &[u8],
    uid: u32,
) -> (checked: Result<Result<(), TransportIdentityRecoveryError>, OutsideRequest<Vec<u8>>>)
    requires
        old(replies).wf(),
    ensures
        went_along(
            established_artifacts_plan(policy, ciphertext_path@, uid),
            *old(replies),
            seen(checked),
            *final(replies),
        ),
{
    broadcast use lemma_follow_bind;

    let expected = match render_transport_identity_dropin(ciphertext_path, policy.custody_tier()) {
        Ok(expected) => expected,
        Err(_) => {
            return Ok(Err(TransportIdentityRecoveryError::CustodyPolicyMismatch));
        },
    };
    if let Err(error) = open_existing_transport_ciphertext_for_recovery(replies, uid)? {
        return Ok(Err(error));
    }
    validate_existing_transport_dropin_for_recovery(replies, expected.as_slice(), uid)
}

/// Custody by which of the two artifacts exist.
pub open spec fn persistent_state(ciphertext_exists: bool, dropin_exists: bool) -> Result<
    TransportIdentityPersistentState,
    TransportIdentityRecoveryError,
> {
    if ciphertext_exists && dropin_exists {
        Ok(TransportIdentityPersistentState::Established)
    } else if !ciphertext_exists && !dropin_exists {
        Ok(TransportIdentityPersistentState::Absent)
    } else {
        Err(TransportIdentityRecoveryError::PartialState)
    }
}

/// Classify the persistent custody under a policy that was already selected.
pub open spec fn inspect_plan(
    policy: TransportIdentityProvisioningPolicy,
    ciphertext_path: Seq<u8>,
    uid: u32,
) -> HostPlan<Result<TransportIdentityPersistentState, TransportIdentityRecoveryError>> {
    and_then(
        user_directory_plan(
            Place::StateRoot,
            uid,
            TransportIdentityRecoveryError::InsecureDirectory,
        ),
        |_root: ()|
            and_then(
                ciphertext_parents_plan(uid),
                |ciphertext_parents: bool|
                    and_then(
                        dropin_parents_plan(uid),
                        |dropin_parents: bool|
                            inspect_leaves_plan(
                                policy,
                                ciphertext_path,
                                uid,
                                ciphertext_parents,
                                dropin_parents,
                            ),
                    ),
            ),
    )
}

pub open spec fn inspect_leaves_plan(
    policy: TransportIdentityProvisioningPolicy,
    ciphertext_path: Seq<u8>,
    uid: u32,
    ciphertext_parents: bool,
    dropin_parents: bool,
) -> HostPlan<Result<TransportIdentityPersistentState, TransportIdentityRecoveryError>> {
    and_then(
        leaf_plan(
            Place::Ciphertext,
            ciphertext_parents,
            TransportIdentityRecoveryError::CiphertextUnavailable,
        ),
        |ciphertext_exists: bool|
            and_then(
                leaf_plan(
                    Place::Dropin,
                    dropin_parents,
                    TransportIdentityRecoveryError::DropinUnavailable,
                ),
                |dropin_exists: bool|
                    match persistent_state(ciphertext_exists, dropin_exists) {
                        Err(error) => Plan::Finish(Err(error)),
                        Ok(TransportIdentityPersistentState::Absent) => Plan::Finish(
                            Ok(TransportIdentityPersistentState::Absent),
                        ),
                        Ok(TransportIdentityPersistentState::Established) => and_then(
                            established_artifacts_plan(policy, ciphertext_path, uid),
                            |_matching: ()|
                                Plan::Finish(Ok(TransportIdentityPersistentState::Established)),
                        ),
                    },
            ),
    )
}

fn inspect_leaves(
    replies: &mut Replies<'_>,
    policy: TransportIdentityProvisioningPolicy,
    ciphertext_path: &[u8],
    uid: u32,
    ciphertext_parents: bool,
    dropin_parents: bool,
) -> (state: Result<
    Result<TransportIdentityPersistentState, TransportIdentityRecoveryError>,
    OutsideRequest<Vec<u8>>,
>)
    requires
        old(replies).wf(),
    ensures
        went_along(
            inspect_leaves_plan(
                policy,
                ciphertext_path@,
                uid,
                ciphertext_parents,
                dropin_parents,
            ),
            *old(replies),
            seen(state),
            *final(replies),
        ),
{
    broadcast use lemma_follow_bind;

    let ciphertext_exists = match recovery_leaf_exists(
        replies,
        Place::Ciphertext,
        ciphertext_parents,
        TransportIdentityRecoveryError::CiphertextUnavailable,
    )? {
        Ok(exists) => exists,
        Err(error) => {
            return Ok(Err(error));
        },
    };
    let dropin_exists = match recovery_leaf_exists(
        replies,
        Place::Dropin,
        dropin_parents,
        TransportIdentityRecoveryError::DropinUnavailable,
    )? {
        Ok(exists) => exists,
        Err(error) => {
            return Ok(Err(error));
        },
    };
    match classify_transport_identity_persistent_state(ciphertext_exists, dropin_exists) {
        Err(error) => Ok(Err(error)),
        Ok(TransportIdentityPersistentState::Absent) => Ok(
            Ok(TransportIdentityPersistentState::Absent),
        ),
        Ok(TransportIdentityPersistentState::Established) => {
            match validate_established_artifacts(replies, policy, ciphertext_path, uid)? {
                Err(error) => Ok(Err(error)),
                Ok(_) => Ok(Ok(TransportIdentityPersistentState::Established)),
            }
        },
    }
}

fn inspect(
    replies: &mut Replies<'_>,
    policy: TransportIdentityProvisioningPolicy,
    ciphertext_path: &[u8],
    uid: u32,
) -> (state: Result<
    Result<TransportIdentityPersistentState, TransportIdentityRecoveryError>,
    OutsideRequest<Vec<u8>>,
>)
    requires
        old(replies).wf(),
    ensures
        went_along(
            inspect_plan(policy, ciphertext_path@, uid),
            *old(replies),
            seen(state),
            *final(replies),
        ),
{
    broadcast use lemma_follow_bind;

    if let Err(error) = validate_user_directory(
        replies,
        Place::StateRoot,
        uid,
        TransportIdentityRecoveryError::InsecureDirectory,
    )? {
        return Ok(Err(error));
    }
    let ciphertext_parents = match validate_optional_transport_state_parent_chain(replies, uid)? {
        Ok(present) => present,
        Err(error) => {
            return Ok(Err(error));
        },
    };
    let dropin_parents = match validate_optional_transport_dropin_parent_chain(replies, uid)? {
        Ok(present) => present,
        Err(error) => {
            return Ok(Err(error));
        },
    };
    inspect_leaves(replies, policy, ciphertext_path, uid, ciphertext_parents, dropin_parents)
}

/// Recovery operations start only when both roots resolve.
pub open spec fn with_roots<R>(
    environment: HostEnvironment,
    plan: spec_fn(Seq<u8>) -> HostPlan<Result<R, TransportIdentityRecoveryError>>,
) -> HostPlan<Result<R, TransportIdentityRecoveryError>> {
    match (environment.state_root_path(), environment.config_root_path()) {
        (None, _) => Plan::Finish(Err(TransportIdentityRecoveryError::InvalidStateRoot)),
        (_, None) => Plan::Finish(Err(TransportIdentityRecoveryError::InvalidConfigRoot)),
        (Some(state_root), Some(_)) => plan(ciphertext_path_below(state_root)),
    }
}

/// The path of the encrypted credential, when both roots resolve.
fn resolve_ciphertext_path(environment: &HostEnvironment) -> (path: Result<
    Vec<u8>,
    TransportIdentityRecoveryError,
>)
    ensures
        match path {
            Ok(ciphertext_path) => environment.state_root_path() is Some
                && environment.config_root_path() is Some && ciphertext_path@
                == ciphertext_path_below(environment.state_root_path()->0),
            Err(error) => if environment.state_root_path() is None {
                error == TransportIdentityRecoveryError::InvalidStateRoot
            } else {
                environment.config_root_path() is None && error
                    == TransportIdentityRecoveryError::InvalidConfigRoot
            },
        },
{
    let state_root = match environment.state_root() {
        Some(path) => path,
        None => {
            return Err(TransportIdentityRecoveryError::InvalidStateRoot);
        },
    };
    if environment.config_root().is_none() {
        return Err(TransportIdentityRecoveryError::InvalidConfigRoot);
    }
    Ok(join_path(state_root.as_slice(), TRANSPORT_IDENTITY_CIPHERTEXT_RELATIVE_PATH))
}

/// Inspects whether the transport custody is absent or established, as far as the replies go.
/// Read-only; nothing is decrypted.
pub fn inspect_ubuntu_transport_identity_persistent_state(
    policy: TransportIdentityProvisioningPolicy,
    environment: &HostEnvironment,
    replies: &Vec<OutsideReply<Vec<u8>>>,
) -> (progress: Progress<
    OutsideRequest<Vec<u8>>,
    Result<TransportIdentityPersistentState, TransportIdentityRecoveryError>,
>)
    ensures
        (match progress {
            Progress::Done(state) => Progress::Done(state),
            Progress::Waiting(request) => Progress::Waiting(request@),
        }) == follow(
            with_roots(
                *environment,
                |path: Seq<u8>| inspect_plan(policy, path, environment.uid),
            ),
            reply_views(replies@),
        ).0,
{
    let path = match resolve_ciphertext_path(environment) {
        Ok(path) => path,
        Err(error) => {
            return Progress::Done(Err(error));
        },
    };
    let mut cursor = Replies::new(replies);
    match inspect(&mut cursor, policy, path.as_slice(), environment.uid) {
        Ok(state) => Progress::Done(state),
        Err(request) => Progress::Waiting(request),
    }
}

/// Every directory above the two artifacts has to be there and be trusted.
pub open spec fn established_directories_plan(uid: u32) -> HostPlan<
    Result<(), TransportIdentityRecoveryError>,
> {
    and_then(
        recovery_directory_plan(Place::StateRoot, false, uid),
        |_state: ()|
            and_then(
                recovery_directory_plan(Place::ConfigRoot, false, uid),
                |_config: ()|
                    and_then(
                        recovery_directory_plan(Place::ApplicationDirectory, true, uid),
                        |_application: ()|
                            and_then(
                                recovery_directory_plan(Place::CredentialDirectory, true, uid),
                                |_credentials: ()| established_dropin_directories_plan(uid),
                            ),
                    ),
            ),
    )
}

pub open spec fn established_dropin_directories_plan(uid: u32) -> HostPlan<
    Result<(), TransportIdentityRecoveryError>,
> {
    and_then(
        recovery_directory_plan(Place::SystemdDirectory, false, uid),
        |_systemd: ()|
            and_then(
                recovery_directory_plan(Place::SystemdUserDirectory, false, uid),
                |_user: ()| recovery_directory_plan(Place::DropinDirectory, false, uid),
            ),
    )
}

fn validate_established_dropin_directories(replies: &mut Replies<'_>, uid: u32) -> (checked: Result<
    Result<(), TransportIdentityRecoveryError>,
    OutsideRequest<Vec<u8>>,
>)
    requires
        old(replies).wf(),
    ensures
        went_along(
            established_dropin_directories_plan(uid),
            *old(replies),
            seen(checked),
            *final(replies),
        ),
{
    broadcast use lemma_follow_bind;

    if let Err(error) = validate_recovery_directory(replies, Place::SystemdDirectory, false, uid)? {
        return Ok(Err(error));
    }
    if let Err(error) = validate_recovery_directory(
        replies,
        Place::SystemdUserDirectory,
        false,
        uid,
    )? {
        return Ok(Err(error));
    }
    validate_recovery_directory(replies, Place::DropinDirectory, false, uid)
}

fn validate_established_directories(replies: &mut Replies<'_>, uid: u32) -> (checked: Result<
    Result<(), TransportIdentityRecoveryError>,
    OutsideRequest<Vec<u8>>,
>)
    requires
        old(replies).wf(),
    ensures
        went_along(established_directories_plan(uid), *old(replies), seen(checked), *final(replies)),
{
    broadcast use lemma_follow_bind;

    if let Err(error) = validate_recovery_directory(replies, Place::StateRoot, false, uid)? {
        return Ok(Err(error));
    }
    if let Err(error) = validate_recovery_directory(replies, Place::ConfigRoot, false, uid)? {
        return Ok(Err(error));
    }
    if let Err(error) = validate_recovery_directory(
        replies,
        Place::ApplicationDirectory,
        true,
        uid,
    )? {
        return Ok(Err(error));
    }
    if let Err(error) = validate_recovery_directory(
        replies,
        Place::CredentialDirectory,
        true,
        uid,
    )? {
        return Ok(Err(error));
    }
    validate_established_dropin_directories(replies, uid)
}

/// Decrypt the opened credential once and derive its identity. A plaintext of the wrong size
/// stops the helper at once.
pub open spec fn decrypt_plan() -> HostPlan<Result<Seq<u8>, TransportIdentityRecoveryError>> {
    and_then(
        secure_program_plan(
            Place::SystemdCreds,
            TransportIdentityRecoveryError::SystemdCredsUnavailable,
        ),
        |_program: ()|
            bind(
                obtain(OutsideRequest::StartDecryption(Place::Ciphertext, CREDENTIAL_READ_LIMIT)),
                |plaintext: Option<Seq<u8>>|
                    match plaintext {
                        None => Plan::Finish(
                            Err(TransportIdentityRecoveryError::CredentialDecryptionFailed),
                        ),
                        Some(credential) => if !credential_size_allowed(credential.len() as int) {
                            bind(
                                perform(OutsideRequest::AbortDecryption),
                                |_aborted: bool|
                                    Plan::Finish(
                                        Err(
                                            TransportIdentityRecoveryError::DecryptedCredentialOutOfBounds,
                                        ),
                                    ),
                            )
                        } else {
                            bind(
                                run_plan(OutsideRequest::FinishDecryption),
                                |success: Option<bool>|
                                    Plan::Finish(decrypted_identity(credential, success)),
                            )
                        },
                    },
            ),
    )
}

/// The identity of a decrypted credential, given how the helper ended.
pub open spec fn decrypted_identity(credential: Seq<u8>, success: Option<bool>) -> Result<
    Seq<u8>,
    TransportIdentityRecoveryError,
> {
    if success != Some(true) {
        Err(TransportIdentityRecoveryError::CredentialDecryptionFailed)
    } else {
        match derived_identity(credential) {
            Ok(identity) => Ok(identity),
            Err(_) => Err(TransportIdentityRecoveryError::InvalidPrivateCredential),
        }
    }
}

fn conclude_decryption(credential: &[u8], success: Option<bool>) -> (identity: Result<
    TransportIdentity,
    TransportIdentityRecoveryError,
>)
    ensures
        identity_bytes(identity) == decrypted_identity(credential@, success),
{
    match success {
        Some(true) => match derive_transport_identity_from_pkcs8_v1_der(credential) {
            Ok(identity) => Ok(identity),
            Err(_) => Err(TransportIdentityRecoveryError::InvalidPrivateCredential),
        },
        _ => Err(TransportIdentityRecoveryError::CredentialDecryptionFailed),
    }
}

fn decrypt_existing_transport_identity(replies: &mut Replies<'_>) -> (recovered: Result<
    Result<TransportIdentity, TransportIdentityRecoveryError>,
    OutsideRequest<Vec<u8>>,
>)
    requires
        old(replies).wf(),
    ensures
        went_along(
            decrypt_plan(),
            *old(replies),
            match recovered {
                Ok(identity) => Ok(identity_bytes(identity)),
                Err(request) => Err(request@),
            },
            *final(replies),
        ),
{
    broadcast use lemma_follow_bind;

    if let Err(error) = validate_secure_system_program(
        replies,
        Place::SystemdCreds,
        TransportIdentityRecoveryError::SystemdCredsUnavailable,
    )? {
        return Ok(Err(error));
    }
    let credential = match replies.obtain(
        OutsideRequest::StartDecryption(Place::Ciphertext, CREDENTIAL_READ_LIMIT),
    )? {
        Some(credential) => credential,
        None => {
            return Ok(Err(TransportIdentityRecoveryError::CredentialDecryptionFailed));
        },
    };
    if credential.len() == 0 || credential.len() > MAX_UBUNTU_TRANSPORT_IDENTITY_PKCS8_BYTES {
        let _ = replies.perform(OutsideRequest::AbortDecryption)?;
        return Ok(Err(TransportIdentityRecoveryError::DecryptedCredentialOutOfBounds));
    }
    let success = run(replies, OutsideRequest::FinishDecryption)?;
    Ok(conclude_decryption(credential.as_slice(), success))
}

/// Recover the identity under a policy that was already selected.
pub open spec fn recover_plan(
    policy: TransportIdentityProvisioningPolicy,
    ciphertext_path: Seq<u8>,
    uid: u32,
) -> HostPlan<Result<Seq<u8>, TransportIdentityRecoveryError>> {
    and_then(
        established_directories_plan(uid),
        |_directories: ()|
            and_then(
                established_artifacts_plan(policy, ciphertext_path, uid),
                |_artifacts: ()| decrypt_plan(),
            ),
    )
}

fn recover(
    replies: &mut Replies<'_>,
    policy: TransportIdentityProvisioningPolicy,
    ciphertext_path: &[u8],
    uid: u32,
) -> (recovered: Result<
    Result<TransportIdentity, TransportIdentityRecoveryError>,
    OutsideRequest<Vec<u8>>,
>)
    requires
        old(replies).wf(),
    ensures
        went_along(
            recover_plan(policy, ciphertext_path@, uid),
            *old(replies),
            match recovered {
                Ok(identity) => Ok(identity_bytes(identity)),
                Err(request) => Err(request@),
            },
            *final(replies),
        ),
{
    broadcast use lemma_follow_bind;

    if let Err(error) = validate_established_directories(replies, uid)? {
        return Ok(Err(error));
    }
    if let Err(error) = validate_established_artifacts(replies, policy, ciphertext_path, uid)? {
        return Ok(Err(error));
    }
    decrypt_existing_transport_identity(replies)
}

/// Recovers the established identity for a retry, as far as the replies go. Never creates,
/// replaces or converts identity state.
pub fn recover_existing_ubuntu_transport_identity(
    policy: TransportIdentityProvisioningPolicy,
    environment: &HostEnvironment,
    replies: &Vec<OutsideReply<Vec<u8>>>,
) -> (progress: Progress<
    OutsideRequest<Vec<u8>>,
    Result<TransportIdentity, TransportIdentityRecoveryError>,
>)
    ensures
        (match progress {
            Progress::Done(identity) => Progress::Done(identity_bytes(identity)),
            Progress::Waiting(request) => Progress::Waiting(request@),
        }) == follow(
            with_roots(
                *environment,
                |path: Seq<u8>| recover_plan(policy, path, environment.uid),
            ),
            reply_views(replies@),
        ).0,
{
    let path = match resolve_ciphertext_path(environment) {
        Ok(path) => path,
        Err(error) => {
            return Progress::Done(Err(error));
        },
    };
    let mut cursor = Replies::new(replies);
    match recover(&mut cursor, policy, path.as_slice(), environment.uid) {
        Ok(identity) => Progress::Done(identity),
        Err(request) => Progress::Waiting(request),
    }
}

/// Recover the identity, reading the policy from the persisted service binding alone.
pub open spec fn recover_established_plan(ciphertext_path: Seq<u8>, uid: u32) -> HostPlan<
    Result<(TransportIdentityProvisioningPolicy, Seq<u8>), TransportIdentityRecoveryError>,
> {
    and_then(
        established_directories_plan(uid),
        |_directories: ()|
            and_then(
                open_ciphertext_plan(uid),
                |_opened: ()|
                    and_then(
                        read_dropin_plan(uid),
                        |payload: Seq<u8>|
                            match established_policy(payload, ciphertext_path) {
                                None => Plan::Finish(
                                    Err(TransportIdentityRecoveryError::CustodyPolicyMismatch),
                                ),
                                Some(policy) => and_then(
                                    decrypt_plan(),
                                    |identity: Seq<u8>| Plan::Finish(Ok((policy, identity))),
                                ),
                            },
                    ),
            ),
    )
}

/// What a recovery says.
pub open spec fn recovery_view(
    recovery: Result<EstablishedTransportIdentityRecovery, TransportIdentityRecoveryError>,
) -> Result<(TransportIdentityProvisioningPolicy, Seq<u8>), TransportIdentityRecoveryError> {
    match recovery {
        Ok(value) => Ok((value.spec_policy(), value.spec_identity()@)),
        Err(error) => Err(error),
    }
}

fn recover_established(replies: &mut Replies<'_>, ciphertext_path: &[u8], uid: u32) -> (recovered: Result<
    Result<EstablishedTransportIdentityRecovery, TransportIdentityRecoveryError>,
    OutsideRequest<Vec<u8>>,
>)
    requires
        old(replies).wf(),
    ensures
        went_along(
            recover_established_plan(ciphertext_path@, uid),
            *old(replies),
            match recovered {
                Ok(recovery) => Ok(recovery_view(recovery)),
                Err(request) => Err(request@),
            },
            *final(replies),
        ),
{
    broadcast use lemma_follow_bind;

    if let Err(error) = validate_established_directories(replies, uid)? {
        return Ok(Err(error));
    }
    if let Err(error) = open_existing_transport_ciphertext_for_recovery(replies, uid)? {
        return Ok(Err(error));
    }
    let payload = match read_existing_transport_dropin_for_recovery(replies, uid)? {
        Ok(payload) => payload,
        Err(error) => {
            return Ok(Err(error));
        },
    };
    let policy = match established_policy_from_dropin_payload(payload.as_slice(), ciphertext_path) {
        Ok(policy) => policy,
        Err(error) => {
            return Ok(Err(error));
        },
    };
    match decrypt_existing_transport_identity(replies)? {
        Err(error) => Ok(Err(error)),
        Ok(identity) => Ok(Ok(EstablishedTransportIdentityRecovery::new(policy, identity))),
    }
}

/// Recovers the established identity and its policy from what is persisted, as far as the
/// replies go. No policy is chosen, probed for or tried in turn.
pub fn recover_established_ubuntu_transport_identity_from_persisted_binding(
    environment: &HostEnvironment,
    replies: &Vec<OutsideReply<Vec<u8>>>,
) -> (progress: Progress<
    OutsideRequest<Vec<u8>>,
    Result<EstablishedTransportIdentityRecovery, TransportIdentityRecoveryError>,
>)
    ensures
        (match progress {
            Progress::Done(recovery) => Progress::Done(recovery_view(recovery)),
            Progress::Waiting(request) => Progress::Waiting(request@),
        }) == follow(
            with_roots(
                *environment,
                |path: Seq<u8>| recover_established_plan(path, environment.uid),
            ),
            reply_views(replies@),
        ).0,
{
    let path = match resolve_ciphertext_path(environment) {
        Ok(path) => path,
        Err(error) => {
            return Progress::Done(Err(error));
        },
    };
    let mut cursor = Replies::new(replies);
    match recover_established(&mut cursor, path.as_slice(), environment.uid) {
        Ok(recovery) => Progress::Done(recovery),
        Err(request) => Progress::Waiting(request),
    }
}

/// Classifies the persistent state as part of a longer operation.
pub(crate) fn inspect_in(
    policy: TransportIdentityProvisioningPolicy,
    environment: &HostEnvironment,
    replies: &mut Replies<'_>,
) -> (outcome: Result<
    Result<TransportIdentityPersistentState, TransportIdentityRecoveryError>,
    OutsideRequest<Vec<u8>>,
>)
    requires
        old(replies).wf(),
    ensures
        went_along(
            with_roots(*environment, |path: Seq<u8>| inspect_plan(policy, path, environment.uid)),
            *old(replies),
            seen(outcome),
            *final(replies),
        ),
{
    match resolve_ciphertext_path(environment) {
        Err(error) => Ok(Err(error)),
        Ok(path) => inspect(replies, policy, path.as_slice(), environment.uid),
    }
}

/// Recovers the identity under a policy as part of a longer operation.
pub(crate) fn recover_in(
    policy: TransportIdentityProvisioningPolicy,
    environment: &HostEnvironment,
    replies: &mut Replies<'_>,
) -> (outcome: Result<
    Result<TransportIdentity, TransportIdentityRecoveryError>,
    OutsideRequest<Vec<u8>>,
>)
    requires
        old(replies).wf(),
    ensures
        went_along(
            with_roots(*environment, |path: Seq<u8>| recover_plan(policy, path, environment.uid)),
            *old(replies),
            match outcome {
                Ok(result) => Ok(identity_bytes(result)),
                Err(request) => Err(request@),
            },
            *final(replies),
        ),
{
    match resolve_ciphertext_path(environment) {
        Err(error) => Ok(Err(error)),
        Ok(path) => recover(replies, policy, path.as_slice(), environment.uid),
    }
}

/// Recovers the identity under the policy found as part of a longer operation.
pub(crate) fn recover_established_in(
    environment: &HostEnvironment,
    replies: &mut Replies<'_>,
) -> (outcome: Result<
    Result<EstablishedTransportIdentityRecovery, TransportIdentityRecoveryError>,
    OutsideRequest<Vec<u8>>,
>)
    requires
        old(replies).wf(),
    ensures
        went_along(
            with_roots(*environment, |path: Seq<u8>| recover_established_plan(path, environment.uid)),
            *old(replies),
            match outcome {
                Ok(result) => Ok(recovery_view(result)),
                Err(request) => Err(request@),
            },
            *final(replies),
        ),
{
    match resolve_ciphertext_path(environment) {
        Err(error) => Ok(Err(error)),
        Ok(path) => recover_established(replies, path.as_slice(), environment.uid),
    }
}

} // verus!
