//! What provisioning comes to on a host that can do it.
//!
//! A capable host works, and its helpers do too: the capability check answers, keys can be made, and
//! an encryption of the kept key leaves a file that only the user can write.
use vstd::prelude::*;

use crate::custody::{
    ensure_user_directory_plan, is_user_directory, prepare_private_directory_plan, publish_plan,
    require_absent_plan, settle_plan, RecordKind, MAX_DROPIN_BYTES,
};
use crate::domain::TransportIdentity;
use crate::host::{
    changed_only, ends, first_bytes, lemma_ensure_user_directory_ends, lemma_others_stay,
    lemma_prepare_private_directory_ends, lemma_publish_ends, lemma_settle_ends, lemma_user_directory_stays, same_but, Host, HostRules,
};
use crate::outside::{
    look_up, look_up_opened, obtain, perform, FileMetadata, HostPlan, Lookup, OutsideReply, OutsideRequest,
    Place,
};
use crate::plan::{bind, can_end, lemma_can_end_bind, lemma_can_end_under, Plan};
use crate::reliable_host::{ends_reliably, group_reliable_steps, lemma_record_decides};
use crate::transport_custody_laws::{
    lemma_commit_dropin_ends, lemma_credential_directories_end, lemma_dropin_directories_end,
    lemma_store_ciphertext_ends, provisioning_happens_once, rendered_policy_is_read_back,
    sealed_identity,
};
use crate::transport_identity_provisioning::{
    capability_plan, commit_dropin_plan, credential_directories_plan, dropin_directories_plan,
    exists_plan, exit_success, generate_key_plan, harden_ciphertext_plan, host_secret_verdict,
    is_initial_ciphertext, is_secure_system_program, open_temporary_ciphertext_plan,
    preflight_plan, provision_checked_plan, provision_plan, provisioning_roots_plan,
    rendered_dropin, run_plan, store_artifacts_plan, store_ciphertext_plan,
    TransportIdentityPersistentState, TransportIdentityProvisioningError,
    TransportIdentityProvisioningPolicy, TransportIdentityRecoveryError,
    FORBIDDEN_INITIAL_CIPHERTEXT_MODE_BITS,
};
use crate::transport_identity_recovery::{
    ciphertext_parents_plan, decrypt_plan, dropin_parents_plan, established_artifacts_plan,
    established_directories_plan, inspect_plan, leaf_plan, open_ciphertext_plan,
    optional_directory_plan, read_dropin_plan, recover_established_plan, recover_plan,
};
use crate::working_host::{
    ends_working, lemma_create_directory_working, lemma_look_up_opened_working,
    lemma_look_up_working, lemma_publish_working, lemma_settle_working, lemma_working_host,
    working_answers, working_rules,
};

verus! {

pub broadcast proof fn lemma_exists_reliably(place: Place, host: Host, exists: bool, after: Host)
    requires
        #[trigger] ends_reliably(exists_plan(place), host, exists, after),
    ensures
        after == host,
        !host.files.contains_key(place) ==> !exists,
        host.files.contains_key(place) && !host.files[place].metadata.is_symlink ==> exists,
{
    reveal_with_fuel(can_end, 2);
}

/// The roots can be used: that of the state is trusted, and that of the configuration is trusted
/// or absent.
pub open spec fn roots_are_usable(host: Host, uid: u32) -> bool {
    &&& host.has_user_directory(Place::StateRoot, uid)
    &&& host.files.contains_key(Place::ConfigRoot) ==> host.has_user_directory(
        Place::ConfigRoot,
        uid,
    )
}

broadcast proof fn lemma_usable_roots_are_accepted(
    uid: u32,
    host: Host,
    result: Result<(), TransportIdentityProvisioningError>,
    after: Host,
)
    requires
        #[trigger] ends_reliably(provisioning_roots_plan(uid), host, result, after),
        roots_are_usable(host, uid),
    ensures
        after == host,
        result is Ok,
{
    broadcast use {group_reliable_steps, lemma_exists_reliably};

}

broadcast proof fn lemma_present_artifact_is_noticed(
    policy: TransportIdentityProvisioningPolicy,
    host: Host,
    result: Result<(), TransportIdentityProvisioningError>,
    after: Host,
)
    requires
        #[trigger] ends_reliably(preflight_plan(policy), host, result, after),
        host.files.contains_key(Place::Ciphertext) || host.files.contains_key(Place::Dropin),
    ensures
        after == host,
        result == Err::<(), _>(TransportIdentityProvisioningError::AlreadyProvisioned),
{
    broadcast use group_reliable_steps;

}

/// On a host that does not fail, with usable roots and a binding that can be rendered, an artifact
/// that is there is noticed: provisioning ends with `AlreadyProvisioned` and changes nothing.
pub proof fn present_artifact_is_already_provisioned(
    policy: TransportIdentityProvisioningPolicy,
    ciphertext_path: Seq<u8>,
    uid: u32,
    host: Host,
    result: Result<TransportIdentity, TransportIdentityProvisioningError>,
    after: Host,
)
    requires
        ends_reliably(provision_plan(policy, ciphertext_path, uid), host, result, after),
        roots_are_usable(host, uid),
        rendered_dropin(ciphertext_path, policy.tier()) is Some,
        host.files.contains_key(Place::Ciphertext) || host.files.contains_key(Place::Dropin),
    ensures
        result == Err::<TransportIdentity, _>(
            TransportIdentityProvisioningError::AlreadyProvisioned,
        ),
        after == host,
{
    broadcast use {
        group_reliable_steps,
        lemma_usable_roots_are_accepted,
        lemma_present_artifact_is_noticed,
    };

}

/// Every directory above an artifact is trusted or absent.
pub open spec fn custody_directories_are_usable(host: Host, uid: u32) -> bool {
    &&& host.has_user_directory(Place::StateRoot, uid)
    &&& binding_directories_are_usable(host, uid)
    &&& host.files.contains_key(Place::ApplicationDirectory) ==> host.has_private_directory(
        Place::ApplicationDirectory,
        uid,
    )
    &&& host.files.contains_key(Place::CredentialDirectory) ==> host.has_private_directory(
        Place::CredentialDirectory,
        uid,
    )
}

/// The ciphertext is in its place.
pub open spec fn ciphertext_is_there(host: Host) -> bool {
    &&& host.files.contains_key(Place::ApplicationDirectory)
    &&& host.files.contains_key(Place::CredentialDirectory)
    &&& host.files.contains_key(Place::Ciphertext)
}

/// The binding is in its place.
pub open spec fn binding_is_there(host: Host) -> bool {
    &&& host.files.contains_key(Place::ConfigRoot)
    &&& host.files.contains_key(Place::SystemdDirectory)
    &&& host.files.contains_key(Place::SystemdUserDirectory)
    &&& host.files.contains_key(Place::DropinDirectory)
    &&& host.files.contains_key(Place::Dropin)
}

/// What is wrong with the artifacts in place, if anything: both have to be trusted, and the binding
/// has to be exactly the one of the policy.
pub open spec fn artifacts_verdict(
    host: Host,
    policy: TransportIdentityProvisioningPolicy,
    ciphertext_path: Seq<u8>,
    uid: u32,
) -> Result<(), TransportIdentityRecoveryError> {
    if rendered_dropin(ciphertext_path, policy.tier()) is None {
        Err(TransportIdentityRecoveryError::CustodyPolicyMismatch)
    } else if !host.has_record(Place::Ciphertext, RecordKind::Ciphertext, uid) {
        Err(TransportIdentityRecoveryError::CiphertextInsecure)
    } else if !host.has_record(Place::Dropin, RecordKind::Dropin, uid)
        || host.files[Place::Dropin].content.len() > MAX_DROPIN_BYTES {
        Err(TransportIdentityRecoveryError::DropinInsecure)
    } else if host.content(Place::Dropin) != rendered_dropin(ciphertext_path, policy.tier()) {
        Err(TransportIdentityRecoveryError::CustodyPolicyMismatch)
    } else {
        Ok(())
    }
}

/// What inspecting the custody comes to: neither artifact is absent custody, one alone is partial,
/// and both are established custody where nothing is wrong with them.
pub open spec fn inspection_outcome(
    host: Host,
    policy: TransportIdentityProvisioningPolicy,
    ciphertext_path: Seq<u8>,
    uid: u32,
) -> Result<TransportIdentityPersistentState, TransportIdentityRecoveryError> {
    if !ciphertext_is_there(host) && !binding_is_there(host) {
        Ok(TransportIdentityPersistentState::Absent)
    } else if !(ciphertext_is_there(host) && binding_is_there(host)) {
        Err(TransportIdentityRecoveryError::PartialState)
    } else {
        match artifacts_verdict(host, policy, ciphertext_path, uid) {
            Ok(_) => Ok(TransportIdentityPersistentState::Established),
            Err(error) => Err(error),
        }
    }
}

broadcast proof fn lemma_optional_directory_is_decided(
    place: Place,
    private: bool,
    uid: u32,
    host: Host,
    result: Result<bool, TransportIdentityRecoveryError>,
    after: Host,
)
    requires
        #[trigger] ends_reliably(
            optional_directory_plan(place, private, uid),
            host,
            result,
            after,
        ),
        host.files.contains_key(place) ==> if private {
            host.has_private_directory(place, uid)
        } else {
            host.has_user_directory(place, uid)
        },
    ensures
        after == host,
        result == Ok::<_, TransportIdentityRecoveryError>(host.files.contains_key(place)),
{
    broadcast use group_reliable_steps;

}

broadcast proof fn lemma_parents_are_decided(
    uid: u32,
    host: Host,
    result: Result<bool, TransportIdentityRecoveryError>,
    after: Host,
)
    requires
        #[trigger] ends_reliably(ciphertext_parents_plan(uid), host, result, after),
        custody_directories_are_usable(host, uid),
    ensures
        after == host,
        result == Ok::<_, TransportIdentityRecoveryError>(
            host.files.contains_key(Place::ApplicationDirectory) && host.files.contains_key(
                Place::CredentialDirectory,
            ),
        ),
{
    broadcast use {group_reliable_steps, lemma_optional_directory_is_decided};

}

broadcast proof fn lemma_binding_parents_are_decided(
    uid: u32,
    host: Host,
    result: Result<bool, TransportIdentityRecoveryError>,
    after: Host,
)
    requires
        #[trigger] ends_reliably(dropin_parents_plan(uid), host, result, after),
        custody_directories_are_usable(host, uid),
    ensures
        after == host,
        result == Ok::<_, TransportIdentityRecoveryError>(
            host.files.contains_key(Place::ConfigRoot) && host.files.contains_key(
                Place::SystemdDirectory,
            ) && host.files.contains_key(Place::SystemdUserDirectory) && host.files.contains_key(
                Place::DropinDirectory,
            ),
        ),
{
    broadcast use {group_reliable_steps, lemma_optional_directory_is_decided};

}

broadcast proof fn lemma_leaf_is_decided(
    place: Place,
    parent_exists: bool,
    unavailable: TransportIdentityRecoveryError,
    host: Host,
    result: Result<bool, TransportIdentityRecoveryError>,
    after: Host,
)
    requires
        #[trigger] ends_reliably(leaf_plan(place, parent_exists, unavailable), host, result, after),
    ensures
        after == host,
        result == Ok::<_, TransportIdentityRecoveryError>(
            parent_exists && host.files.contains_key(place),
        ),
{
    broadcast use group_reliable_steps;

}

broadcast proof fn lemma_ciphertext_is_opened(
    uid: u32,
    host: Host,
    result: Result<(), TransportIdentityRecoveryError>,
    after: Host,
)
    requires
        #[trigger] ends_reliably(open_ciphertext_plan(uid), host, result, after),
        host.files.contains_key(Place::Ciphertext),
    ensures
        after == host,
        result == (if host.has_record(Place::Ciphertext, RecordKind::Ciphertext, uid) {
            Ok(())
        } else {
            Err(TransportIdentityRecoveryError::CiphertextInsecure)
        }),
{
    broadcast use group_reliable_steps;

}

broadcast proof fn lemma_binding_is_read(
    uid: u32,
    host: Host,
    result: Result<Seq<u8>, TransportIdentityRecoveryError>,
    after: Host,
)
    requires
        #[trigger] ends_reliably(read_dropin_plan(uid), host, result, after),
        host.files.contains_key(Place::Dropin),
    ensures
        after == host,
        result == (if !host.has_record(Place::Dropin, RecordKind::Dropin, uid)
            || host.files[Place::Dropin].content.len() > MAX_DROPIN_BYTES {
            Err(TransportIdentityRecoveryError::DropinInsecure)
        } else {
            Ok(host.files[Place::Dropin].content)
        }),
{
    broadcast use {group_reliable_steps, lemma_record_decides};

}

pub broadcast proof fn lemma_artifacts_are_judged(
    policy: TransportIdentityProvisioningPolicy,
    ciphertext_path: Seq<u8>,
    uid: u32,
    host: Host,
    result: Result<(), TransportIdentityRecoveryError>,
    after: Host,
)
    requires
        #[trigger] ends_reliably(
            established_artifacts_plan(policy, ciphertext_path, uid),
            host,
            result,
            after,
        ),
        host.files.contains_key(Place::Ciphertext),
        host.files.contains_key(Place::Dropin),
    ensures
        after == host,
        result == artifacts_verdict(host, policy, ciphertext_path, uid),
{
    broadcast use {group_reliable_steps, lemma_ciphertext_is_opened, lemma_binding_is_read};

}

/// On a host that does not fail, with directories that are trusted where they are there, inspection
/// comes to exactly what the artifacts decide, and changes nothing.
pub proof fn inspection_is_decided_by_the_artifacts(
    policy: TransportIdentityProvisioningPolicy,
    ciphertext_path: Seq<u8>,
    uid: u32,
    host: Host,
    result: Result<TransportIdentityPersistentState, TransportIdentityRecoveryError>,
    after: Host,
)
    requires
        ends_reliably(inspect_plan(policy, ciphertext_path, uid), host, result, after),
        custody_directories_are_usable(host, uid),
    ensures
        after == host,
        result == inspection_outcome(host, policy, ciphertext_path, uid),
{
    broadcast use {
        group_reliable_steps,
        lemma_parents_are_decided,
        lemma_binding_parents_are_decided,
        lemma_leaf_is_decided,
        lemma_artifacts_are_judged,
    };

}

/// The host of this user works and its helpers do, with a usable TPM2 or without one.
pub open spec fn capable_answers(
    uid: u32,
    tpm2: bool,
    before: Host,
    request: OutsideRequest<Seq<u8>>,
    reply: OutsideReply<Seq<u8>>,
    after: Host,
) -> bool {
    &&& working_answers(uid, before, request, reply, after)
    &&& match request {
        OutsideRequest::QueryTpm2 => exit_success(reply) == Some(tpm2),
        OutsideRequest::GenerateTransportKey => reply is Identity,
        OutsideRequest::EncryptTransportKey(place, _) => before.key is Some
            && !before.files.contains_key(place) ==> {
            let made = after.files[place].metadata;
            &&& reply is Completed
            &&& after.files.contains_key(place)
            &&& !made.is_symlink
            &&& made.is_file
            &&& made.uid == uid
            &&& made.mode & FORBIDDEN_INITIAL_CIPHERTEXT_MODE_BITS == 0
            &&& RecordKind::Ciphertext.allows_size(made.len as int)
        },
        OutsideRequest::SyncOpened(place) => before.files.contains_key(place) ==> reply
            is Completed,
        OutsideRequest::StartDecryption(place, _) => before.sealed(place) is Some ==> reply
            is Bytes,
        OutsideRequest::FinishDecryption => exit_success(reply) == Some(true),
        _ => true,
    }
}

pub open spec fn capable_rules(uid: u32, tpm2: bool) -> HostRules {
    |before: Host, request: OutsideRequest<Seq<u8>>, reply: OutsideReply<Seq<u8>>, after: Host|
        capable_answers(uid, tpm2, before, request, reply, after)
}

/// Whether an operation on a capable host can end with a result.
pub open spec fn ends_capably<R>(
    uid: u32,
    tpm2: bool,
    plan: HostPlan<R>,
    host: Host,
    result: R,
    after: Host,
) -> bool {
    can_end(plan, capable_rules(uid, tpm2), host, result, after)
}

/// What holds of every working host holds of a capable one.
pub proof fn lemma_capable_host<R>(
    uid: u32,
    tpm2: bool,
    plan: HostPlan<R>,
    host: Host,
    result: R,
    after: Host,
)
    requires
        ends_capably(uid, tpm2, plan, host, result, after),
    ensures
        ends_working(uid, plan, host, result, after),
        ends_reliably(plan, host, result, after),
        ends(plan, host, result, after),
{
    lemma_can_end_under(plan, capable_rules(uid, tpm2), working_rules(uid), host, result, after);
    lemma_working_host(uid, plan, host, result, after);
}

pub broadcast proof fn lemma_finish<R>(
    uid: u32,
    tpm2: bool,
    value: R,
    host: Host,
    result: R,
    after: Host,
)
    requires
        #[trigger] ends_capably(uid, tpm2, Plan::Finish(value), host, result, after),
    ensures
        value == result,
        host == after,
{
}

pub broadcast proof fn lemma_bind<R, S>(
    uid: u32,
    tpm2: bool,
    plan: HostPlan<R>,
    next: spec_fn(R) -> HostPlan<S>,
    host: Host,
    result: S,
    after: Host,
)
    requires
        #[trigger] ends_capably(uid, tpm2, bind(plan, next), host, result, after),
    ensures
        exists|value: R, middle: Host| #[trigger]
            ends_capably(uid, tpm2, plan, host, value, middle) && ends_capably(
                uid,
                tpm2,
                next(value),
                middle,
                result,
                after,
            ),
{
    lemma_can_end_bind(plan, next, capable_rules(uid, tpm2), host, result, after);
    let (value, middle) = choose|value: R, middle: Host| #[trigger]
        can_end(plan, capable_rules(uid, tpm2), host, value, middle) && can_end(
            next(value),
            capable_rules(uid, tpm2),
            middle,
            result,
            after,
        );
    assert(ends_capably(uid, tpm2, plan, host, value, middle));
}

pub broadcast proof fn lemma_look_up(
    uid: u32,
    tpm2: bool,
    place: Place,
    host: Host,
    found: Lookup,
    after: Host,
)
    requires
        #[trigger] ends_capably(uid, tpm2, look_up(place), host, found, after),
    ensures
        after == host,
        found == (if host.files.contains_key(place) {
            Lookup::Found(host.files[place].metadata)
        } else {
            Lookup::Missing
        }),
{
    lemma_capable_host(uid, tpm2, look_up(place), host, found, after);
    lemma_look_up_working(uid, place, host, found, after);
}

pub broadcast proof fn lemma_look_up_opened(
    uid: u32,
    tpm2: bool,
    place: Place,
    host: Host,
    found: Lookup,
    after: Host,
)
    requires
        #[trigger] ends_capably(uid, tpm2, look_up_opened(place), host, found, after),
    ensures
        after == host,
        found == (if host.files.contains_key(place) {
            Lookup::Found(host.files[place].metadata)
        } else {
            Lookup::Missing
        }),
{
    lemma_capable_host(uid, tpm2, look_up_opened(place), host, found, after);
    lemma_look_up_opened_working(uid, place, host, found, after);
}

pub broadcast proof fn lemma_perform(
    uid: u32,
    tpm2: bool,
    request: OutsideRequest<Seq<u8>>,
    host: Host,
    done: bool,
    after: Host,
)
    requires
        #[trigger] ends_capably(uid, tpm2, perform(request), host, done, after),
    ensures
        exists|reply: OutsideReply<Seq<u8>>| #[trigger]
            capable_answers(uid, tpm2, host, request, reply, after) && done == (reply is Completed),
{
    reveal_with_fuel(can_end, 2);
    let rules = capable_rules(uid, tpm2);
    let (reply, next) = choose|reply: OutsideReply<Seq<u8>>, next: Host| #[trigger]
        rules(host, request, reply, next) && can_end(
            Plan::Finish(reply is Completed),
            rules,
            next,
            done,
            after,
        );
    assert(capable_answers(uid, tpm2, host, request, reply, after));
}

pub broadcast proof fn lemma_tpm2_is_queried(
    uid: u32,
    tpm2: bool,
    host: Host,
    success: Option<bool>,
    after: Host,
)
    requires
        #[trigger] ends_capably(
            uid,
            tpm2,
            run_plan(OutsideRequest::QueryTpm2),
            host,
            success,
            after,
        ),
    ensures
        after == host,
        success == Some(tpm2),
{
    reveal_with_fuel(can_end, 2);
}

broadcast proof fn lemma_key_is_made(
    uid: u32,
    tpm2: bool,
    host: Host,
    result: Result<TransportIdentity, TransportIdentityProvisioningError>,
    after: Host,
)
    requires
        #[trigger] ends_capably(uid, tpm2, generate_key_plan(), host, result, after),
    ensures
        result is Ok,
        after.files == host.files,
        after.key is Some,
{
    reveal_with_fuel(can_end, 2);
}

pub broadcast group group_capable_steps {
    lemma_finish,
    lemma_bind,
    lemma_look_up,
    lemma_look_up_opened,
    lemma_perform,
}

/// The programs and the host secret that encryption needs are there and trusted.
pub open spec fn helpers_are_trusted(host: Host) -> bool {
    &&& host.files.contains_key(Place::SystemdCreds) && is_secure_system_program(
        host.files[Place::SystemdCreds].metadata,
    )
    &&& host.files.contains_key(Place::SystemdAnalyze) && is_secure_system_program(
        host.files[Place::SystemdAnalyze].metadata,
    )
    &&& host.files.contains_key(Place::HostSecret) && host_secret_verdict(
        Lookup::Found(host.files[Place::HostSecret].metadata),
    ) is Ok
}

broadcast proof fn lemma_capability_is_found(
    uid: u32,
    tpm2: bool,
    policy: TransportIdentityProvisioningPolicy,
    host: Host,
    result: Result<(), TransportIdentityProvisioningError>,
    after: Host,
)
    requires
        #[trigger] ends_capably(uid, tpm2, capability_plan(policy), host, result, after),
        helpers_are_trusted(host),
        tpm2 == (policy is Preferred),
    ensures
        after == host,
        result is Ok,
{
    broadcast use {group_capable_steps, lemma_tpm2_is_queried};

}

pub broadcast proof fn lemma_free_place_is_found<E>(
    uid: u32,
    tpm2: bool,
    place: Place,
    present: E,
    host: Host,
    result: Result<(), E>,
    after: Host,
)
    requires
        #[trigger] ends_capably(uid, tpm2, require_absent_plan(place, present), host, result, after),
        !host.files.contains_key(place),
    ensures
        after == host,
        result is Ok,
{
    broadcast use group_capable_steps;

}

/// A private directory is prepared where it was private or absent.
pub broadcast proof fn lemma_private_directory_is_prepared<E>(
    uid: u32,
    tpm2: bool,
    place: Place,
    creation_failed: E,
    insecure: E,
    host: Host,
    result: Result<(), E>,
    after: Host,
)
    requires
        #[trigger] ends_capably(
            uid,
            tpm2,
            prepare_private_directory_plan(place, uid, creation_failed, insecure),
            host,
            result,
            after,
        ),
        host.files.contains_key(place) ==> host.has_private_directory(place, uid),
    ensures
        result is Ok,
        changed_only(host, after, place),
        after.has_private_directory(place, uid),
{
    broadcast use {group_capable_steps, lemma_directory_is_created};

    let plan = prepare_private_directory_plan(place, uid, creation_failed, insecure);
    lemma_capable_host(uid, tpm2, plan, host, result, after);
    lemma_prepare_private_directory_ends(
        place,
        uid,
        creation_failed,
        insecure,
        host,
        result,
        after,
    );
}

broadcast proof fn lemma_directory_is_created(
    uid: u32,
    tpm2: bool,
    place: Place,
    host: Host,
    created: bool,
    after: Host,
)
    requires
        #[trigger] ends_capably(
            uid,
            tpm2,
            crate::custody::create_directory_plan(place),
            host,
            created,
            after,
        ),
        !host.files.contains_key(place),
    ensures
        created,
        changed_only(host, after, place),
        after.has_private_directory(place, uid),
{
    let plan = crate::custody::create_directory_plan(place);
    lemma_capable_host(uid, tpm2, plan, host, created, after);
    lemma_create_directory_working(uid, place, host, created, after);
}

/// A private directory is one that nobody else may write to.
proof fn lemma_private_is_closed(metadata: FileMetadata, uid: u32)
    requires
        crate::custody::is_private_directory(metadata, uid),
    ensures
        is_user_directory(metadata, uid),
{
    let mode = metadata.mode;
    assert(mode & 0o777u32 == 0o700u32 ==> mode & 0o022u32 == 0) by (bit_vector);
}

/// A directory of the user is there where it was trusted or absent.
broadcast proof fn lemma_user_directory_is_ensured<E>(
    uid: u32,
    tpm2: bool,
    place: Place,
    creation_failed: E,
    insecure: E,
    host: Host,
    result: Result<(), E>,
    after: Host,
)
    requires
        #[trigger] ends_capably(
            uid,
            tpm2,
            ensure_user_directory_plan(place, uid, creation_failed, insecure),
            host,
            result,
            after,
        ),
        host.files.contains_key(place) ==> host.has_user_directory(place, uid),
    ensures
        result is Ok,
        changed_only(host, after, place),
        after.has_user_directory(place, uid),
{
    broadcast use {group_capable_steps, lemma_directory_is_created};

    let plan = ensure_user_directory_plan(place, uid, creation_failed, insecure);
    lemma_capable_host(uid, tpm2, plan, host, result, after);
    lemma_ensure_user_directory_ends(place, uid, creation_failed, insecure, host, result, after);
    assert forall|metadata: FileMetadata| #[trigger]
        crate::custody::is_private_directory(metadata, uid) implies is_user_directory(
        metadata,
        uid,
    ) by {
        lemma_private_is_closed(metadata, uid);
    }
}

/// A fresh ciphertext is closed to others.
broadcast proof fn lemma_ciphertext_is_hardened(
    uid: u32,
    tpm2: bool,
    host: Host,
    result: Result<FileMetadata, TransportIdentityProvisioningError>,
    after: Host,
)
    requires
        #[trigger] ends_capably(uid, tpm2, harden_ciphertext_plan(uid), host, result, after),
        host.files.contains_key(Place::CiphertextTemporary),
        is_initial_ciphertext(host.files[Place::CiphertextTemporary].metadata, uid),
        RecordKind::Ciphertext.allows_size(
            host.files[Place::CiphertextTemporary].metadata.len as int,
        ),
    ensures
        changed_only(host, after, Place::CiphertextTemporary),
        after.has_record(Place::CiphertextTemporary, RecordKind::Ciphertext, uid),
        result == Ok::<FileMetadata, TransportIdentityProvisioningError>(
            after.files[Place::CiphertextTemporary].metadata,
        ),
{
    broadcast use {group_capable_steps, lemma_temporary_ciphertext_is_opened};

    assert(0o600u32 & 0o777u32 == 0o600u32) by (bit_vector);
}

broadcast proof fn lemma_temporary_ciphertext_is_opened(
    uid: u32,
    tpm2: bool,
    host: Host,
    result: Result<FileMetadata, TransportIdentityProvisioningError>,
    after: Host,
)
    requires
        #[trigger] ends_capably(uid, tpm2, open_temporary_ciphertext_plan(uid), host, result, after),
        host.files.contains_key(Place::CiphertextTemporary),
        is_initial_ciphertext(host.files[Place::CiphertextTemporary].metadata, uid),
        RecordKind::Ciphertext.allows_size(
            host.files[Place::CiphertextTemporary].metadata.len as int,
        ),
    ensures
        after == host,
        result == Ok::<FileMetadata, TransportIdentityProvisioningError>(
            host.files[Place::CiphertextTemporary].metadata,
        ),
{
    broadcast use group_capable_steps;

}

broadcast proof fn lemma_ciphertext_is_settled(
    uid: u32,
    tpm2: bool,
    from: Place,
    to: Place,
    directory: Place,
    written: FileMetadata,
    kind: RecordKind,
    commit_failed: TransportIdentityProvisioningError,
    sync_failed: TransportIdentityProvisioningError,
    host: Host,
    result: Result<(), TransportIdentityProvisioningError>,
    after: Host,
)
    requires
        #[trigger] ends_capably(
            uid,
            tpm2,
            settle_plan(from, to, directory, written, kind, uid, commit_failed, sync_failed),
            host,
            result,
            after,
        ),
        host.has_record(from, kind, uid),
        !host.files.contains_key(to),
        host.files.contains_key(directory),
        directory != from,
        written == host.files[from].metadata,
    ensures
        result is Ok,
        after.has_record(to, kind, uid),
{
    let plan = settle_plan(from, to, directory, written, kind, uid, commit_failed, sync_failed);
    lemma_capable_host(uid, tpm2, plan, host, result, after);
    lemma_settle_ends(
        from,
        to,
        directory,
        written,
        kind,
        uid,
        commit_failed,
        sync_failed,
        host,
        result,
        after,
    );
    lemma_settle_working(
        uid,
        from,
        to,
        directory,
        written,
        kind,
        commit_failed,
        sync_failed,
        host,
        result,
        after,
    );
}

/// What is at a place is as it was.
pub open spec fn is_kept(before: Host, after: Host, place: Place) -> bool {
    &&& after.files.contains_key(place) == before.files.contains_key(place)
    &&& before.files.contains_key(place) ==> after.files[place] == before.files[place]
}

/// The directories above the ciphertext and the helper that decrypts are as they were.
pub open spec fn ciphertext_parents_are_kept(before: Host, after: Host) -> bool {
    &&& is_kept(before, after, Place::StateRoot)
    &&& is_kept(before, after, Place::ApplicationDirectory)
    &&& is_kept(before, after, Place::CredentialDirectory)
    &&& is_kept(before, after, Place::SystemdCreds)
}

/// The directories above the binding, the binding and its temporary file are as they were.
pub open spec fn binding_places_are_kept(before: Host, after: Host) -> bool {
    &&& is_kept(before, after, Place::ConfigRoot)
    &&& is_kept(before, after, Place::SystemdDirectory)
    &&& is_kept(before, after, Place::SystemdUserDirectory)
    &&& is_kept(before, after, Place::DropinDirectory)
    &&& is_kept(before, after, Place::Dropin)
    &&& is_kept(before, after, Place::DropinTemporary)
}

broadcast proof fn lemma_ciphertext_is_stored(
    uid: u32,
    tpm2: bool,
    policy: TransportIdentityProvisioningPolicy,
    host: Host,
    result: Result<(), TransportIdentityProvisioningError>,
    after: Host,
)
    requires
        #[trigger] ends_capably(uid, tpm2, store_ciphertext_plan(policy, uid), host, result, after),
        host.key is Some,
        !host.files.contains_key(Place::Ciphertext),
        !host.files.contains_key(Place::CiphertextTemporary),
        host.files.contains_key(Place::CredentialDirectory),
    ensures
        result is Ok,
        after.has_record(Place::Ciphertext, RecordKind::Ciphertext, uid),
        ciphertext_parents_are_kept(host, after),
        binding_places_are_kept(host, after),
{
    broadcast use {
        group_capable_steps,
        lemma_free_place_is_found,
        lemma_ciphertext_is_hardened,
        lemma_ciphertext_is_settled,
        lemma_others_stay,
    };

    lemma_capable_host(uid, tpm2, store_ciphertext_plan(policy, uid), host, result, after);
    lemma_store_ciphertext_ends(policy, uid, host, result, after);
}

/// Every directory above the binding is trusted or absent.
pub open spec fn binding_directories_are_usable(host: Host, uid: u32) -> bool {
    &&& host.files.contains_key(Place::ConfigRoot) ==> host.has_user_directory(
        Place::ConfigRoot,
        uid,
    )
    &&& host.files.contains_key(Place::SystemdDirectory) ==> host.has_user_directory(
        Place::SystemdDirectory,
        uid,
    )
    &&& host.files.contains_key(Place::SystemdUserDirectory) ==> host.has_user_directory(
        Place::SystemdUserDirectory,
        uid,
    )
    &&& host.files.contains_key(Place::DropinDirectory) ==> host.has_user_directory(
        Place::DropinDirectory,
        uid,
    )
}

/// Every directory above the binding is there and trusted.
pub open spec fn binding_directories_are_trusted(host: Host, uid: u32) -> bool {
    &&& host.has_user_directory(Place::ConfigRoot, uid)
    &&& host.has_user_directory(Place::SystemdDirectory, uid)
    &&& host.has_user_directory(Place::SystemdUserDirectory, uid)
    &&& host.has_user_directory(Place::DropinDirectory, uid)
}

broadcast proof fn lemma_binding_directories_are_ensured(
    uid: u32,
    tpm2: bool,
    host: Host,
    result: Result<(), TransportIdentityProvisioningError>,
    after: Host,
)
    requires
        #[trigger] ends_capably(uid, tpm2, dropin_directories_plan(uid), host, result, after),
        binding_directories_are_usable(host, uid),
    ensures
        result is Ok,
        binding_directories_are_trusted(after, uid),
        same_but(
            host,
            after,
            set![
                Place::ConfigRoot,
                Place::SystemdDirectory,
                Place::SystemdUserDirectory,
                Place::DropinDirectory,
            ],
        ),
{
    broadcast use {group_capable_steps, lemma_user_directory_is_ensured, lemma_others_stay};

    lemma_capable_host(uid, tpm2, dropin_directories_plan(uid), host, result, after);
    lemma_dropin_directories_end(uid, host, result, after);
}

broadcast proof fn lemma_binding_is_published(
    uid: u32,
    tpm2: bool,
    payload: Seq<u8>,
    host: Host,
    result: Result<(), TransportIdentityProvisioningError>,
    after: Host,
)
    requires
        #[trigger] ends_capably(
            uid,
            tpm2,
            publish_plan(
                Place::DropinTemporary,
                Place::Dropin,
                Place::DropinDirectory,
                payload,
                RecordKind::Dropin,
                uid,
                TransportIdentityProvisioningError::DropinWriteFailed,
                TransportIdentityProvisioningError::DropinCommitFailed,
                TransportIdentityProvisioningError::DirectorySyncFailed,
            ),
            host,
            result,
            after,
        ),
        !host.files.contains_key(Place::DropinTemporary),
        !host.files.contains_key(Place::Dropin),
        host.files.contains_key(Place::DropinDirectory),
        RecordKind::Dropin.allows_size(payload.len() as int),
    ensures
        result is Ok,
        after.has_record(Place::Dropin, RecordKind::Dropin, uid),
        same_but(host, after, set![Place::DropinTemporary, Place::Dropin]),
{
    let plan = publish_plan(
        Place::DropinTemporary,
        Place::Dropin,
        Place::DropinDirectory,
        payload,
        RecordKind::Dropin,
        uid,
        TransportIdentityProvisioningError::DropinWriteFailed,
        TransportIdentityProvisioningError::DropinCommitFailed,
        TransportIdentityProvisioningError::DirectorySyncFailed,
    );
    lemma_capable_host(uid, tpm2, plan, host, result, after);
    lemma_publish_ends(
        Place::DropinTemporary,
        Place::Dropin,
        Place::DropinDirectory,
        payload,
        RecordKind::Dropin,
        uid,
        TransportIdentityProvisioningError::DropinWriteFailed,
        TransportIdentityProvisioningError::DropinCommitFailed,
        TransportIdentityProvisioningError::DirectorySyncFailed,
        host,
        result,
        after,
    );
    lemma_publish_working(
        uid,
        Place::DropinTemporary,
        Place::Dropin,
        Place::DropinDirectory,
        payload,
        RecordKind::Dropin,
        TransportIdentityProvisioningError::DropinWriteFailed,
        TransportIdentityProvisioningError::DropinCommitFailed,
        TransportIdentityProvisioningError::DirectorySyncFailed,
        host,
        result,
        after,
    );
}

broadcast proof fn lemma_binding_is_committed(
    uid: u32,
    tpm2: bool,
    payload: Seq<u8>,
    host: Host,
    result: Result<(), TransportIdentityProvisioningError>,
    after: Host,
)
    requires
        #[trigger] ends_capably(uid, tpm2, commit_dropin_plan(payload, uid), host, result, after),
        binding_directories_are_usable(host, uid),
        !host.files.contains_key(Place::DropinTemporary),
        !host.files.contains_key(Place::Dropin),
        RecordKind::Dropin.allows_size(payload.len() as int),
    ensures
        result is Ok,
        binding_directories_are_trusted(after, uid),
        after.has_record(Place::Dropin, RecordKind::Dropin, uid),
        ciphertext_parents_are_kept(host, after),
        is_kept(host, after, Place::Ciphertext),
{
    broadcast use {
        group_capable_steps,
        lemma_free_place_is_found,
        lemma_binding_directories_are_ensured,
        lemma_binding_is_published,
        lemma_user_directory_stays,
    };

    lemma_capable_host(uid, tpm2, commit_dropin_plan(payload, uid), host, result, after);
    lemma_commit_dropin_ends(payload, uid, host, result, after);
    let binding = set![
        Place::ConfigRoot,
        Place::SystemdDirectory,
        Place::SystemdUserDirectory,
        Place::DropinDirectory,
        Place::Dropin,
        Place::DropinTemporary,
    ];
    assert(!binding.contains(Place::StateRoot));
    assert(!binding.contains(Place::ApplicationDirectory));
    assert(!binding.contains(Place::CredentialDirectory));
    assert(!binding.contains(Place::SystemdCreds));
    assert(!binding.contains(Place::Ciphertext));

    let directories = set![
        Place::ConfigRoot,
        Place::SystemdDirectory,
        Place::SystemdUserDirectory,
        Place::DropinDirectory,
    ];
    assert(!directories.contains(Place::Dropin));
    assert(!directories.contains(Place::DropinTemporary));
}

broadcast proof fn lemma_artifacts_are_stored(
    uid: u32,
    tpm2: bool,
    policy: TransportIdentityProvisioningPolicy,
    payload: Seq<u8>,
    host: Host,
    result: Result<(), TransportIdentityProvisioningError>,
    after: Host,
)
    requires
        #[trigger] ends_capably(
            uid,
            tpm2,
            store_artifacts_plan(policy, payload, uid),
            host,
            result,
            after,
        ),
        host.key is Some,
        places_are_free(host),
        host.files.contains_key(Place::CredentialDirectory),
        binding_directories_are_usable(host, uid),
        RecordKind::Dropin.allows_size(payload.len() as int),
    ensures
        result is Ok,
        binding_directories_are_trusted(after, uid),
        after.has_record(Place::Ciphertext, RecordKind::Ciphertext, uid),
        after.has_record(Place::Dropin, RecordKind::Dropin, uid),
        ciphertext_parents_are_kept(host, after),
{
    broadcast use {
        group_capable_steps,
        lemma_ciphertext_is_stored,
        lemma_binding_is_committed,
    };

}

/// Neither artifact and no temporary file is there.
pub open spec fn places_are_free(host: Host) -> bool {
    &&& !host.files.contains_key(Place::Ciphertext)
    &&& !host.files.contains_key(Place::CiphertextTemporary)
    &&& !host.files.contains_key(Place::Dropin)
    &&& !host.files.contains_key(Place::DropinTemporary)
}

broadcast proof fn lemma_credential_directories_are_prepared(
    uid: u32,
    tpm2: bool,
    host: Host,
    result: Result<(), TransportIdentityProvisioningError>,
    after: Host,
)
    requires
        #[trigger] ends_capably(uid, tpm2, credential_directories_plan(uid), host, result, after),
        host.files.contains_key(Place::ApplicationDirectory) ==> host.has_private_directory(
            Place::ApplicationDirectory,
            uid,
        ),
        host.files.contains_key(Place::CredentialDirectory) ==> host.has_private_directory(
            Place::CredentialDirectory,
            uid,
        ),
        !host.files.contains_key(Place::Ciphertext),
    ensures
        result is Ok,
        after.has_private_directory(Place::ApplicationDirectory, uid),
        after.has_private_directory(Place::CredentialDirectory, uid),
        is_kept(host, after, Place::StateRoot),
        is_kept(host, after, Place::SystemdCreds),
        is_kept(host, after, Place::Ciphertext),
        is_kept(host, after, Place::CiphertextTemporary),
        binding_places_are_kept(host, after),
{
    broadcast use {
        group_capable_steps,
        lemma_private_directory_is_prepared,
        lemma_free_place_is_found,
        lemma_others_stay,
    };

    lemma_capable_host(uid, tpm2, credential_directories_plan(uid), host, result, after);
    lemma_credential_directories_end(uid, host, result, after);
}

/// Everything that provisioning needs is there: the roots and directories are trusted or absent
/// where they may be, the helpers are trusted, and the places of the artifacts are free.
pub open spec fn is_ready_for_provisioning(host: Host, uid: u32) -> bool {
    &&& custody_directories_are_usable(host, uid)
    &&& helpers_are_trusted(host)
    &&& places_are_free(host)
}

broadcast proof fn lemma_checked_provisioning_succeeds(
    uid: u32,
    tpm2: bool,
    policy: TransportIdentityProvisioningPolicy,
    payload: Seq<u8>,
    host: Host,
    result: Result<TransportIdentity, TransportIdentityProvisioningError>,
    after: Host,
)
    requires
        #[trigger] ends_capably(
            uid,
            tpm2,
            provision_checked_plan(policy, payload, uid),
            host,
            result,
            after,
        ),
        is_ready_for_provisioning(host, uid),
        RecordKind::Dropin.allows_size(payload.len() as int),
    ensures
        result is Ok,
        custody_is_trusted(after, uid),
{
    broadcast use {
        group_capable_steps,
        lemma_credential_directories_are_prepared,
        lemma_key_is_made,
        lemma_artifacts_are_stored,
    };

}

/// Both artifacts are in place, and they, every directory above them and the helper that decrypts
/// are trusted.
pub open spec fn custody_is_trusted(host: Host, uid: u32) -> bool {
    &&& host.has_user_directory(Place::StateRoot, uid)
    &&& host.has_private_directory(Place::ApplicationDirectory, uid)
    &&& host.has_private_directory(Place::CredentialDirectory, uid)
    &&& binding_directories_are_trusted(host, uid)
    &&& host.has_record(Place::Ciphertext, RecordKind::Ciphertext, uid)
    &&& host.has_record(Place::Dropin, RecordKind::Dropin, uid)
    &&& host.files.contains_key(Place::SystemdCreds) && is_secure_system_program(
        host.files[Place::SystemdCreds].metadata,
    )
}

broadcast proof fn lemma_preflight_succeeds(
    uid: u32,
    tpm2: bool,
    policy: TransportIdentityProvisioningPolicy,
    host: Host,
    result: Result<(), TransportIdentityProvisioningError>,
    after: Host,
)
    requires
        #[trigger] ends_capably(uid, tpm2, preflight_plan(policy), host, result, after),
        places_are_free(host),
        helpers_are_trusted(host),
        tpm2 == (policy is Preferred),
    ensures
        after == host,
        result is Ok,
{
    broadcast use {group_capable_steps, lemma_free_place_is_found, lemma_capability_is_found};

}

pub broadcast proof fn lemma_roots_are_accepted(
    uid: u32,
    tpm2: bool,
    host: Host,
    result: Result<(), TransportIdentityProvisioningError>,
    after: Host,
)
    requires
        #[trigger] ends_capably(uid, tpm2, provisioning_roots_plan(uid), host, result, after),
        roots_are_usable(host, uid),
    ensures
        after == host,
        result is Ok,
{
    lemma_capable_host(uid, tpm2, provisioning_roots_plan(uid), host, result, after);
    lemma_usable_roots_are_accepted(uid, host, result, after);
}

/// On a capable host that is ready for it, provisioning succeeds under the policy that the TPM2
/// calls for: the preferred one where it is usable, the fallback where it is not. The ciphertext in
/// place then seals the key of the reported identity, the binding in place is the one rendered for
/// the policy, and everything that recovery needs is trusted.
pub proof fn provisioning_succeeds_on_a_capable_host(
    policy: TransportIdentityProvisioningPolicy,
    ciphertext_path: Seq<u8>,
    uid: u32,
    host: Host,
    result: Result<TransportIdentity, TransportIdentityProvisioningError>,
    after: Host,
)
    requires
        ends_capably(
            uid,
            policy is Preferred,
            provision_plan(policy, ciphertext_path, uid),
            host,
            result,
            after,
        ),
        is_ready_for_provisioning(host, uid),
        rendered_dropin(ciphertext_path, policy.tier()) is Some,
    ensures
        result matches Ok(identity) && sealed_identity(after) == Some(identity@),
        after.content(Place::Dropin) == rendered_dropin(ciphertext_path, policy.tier()),
        custody_is_trusted(after, uid),
{
    broadcast use {
        group_capable_steps,
        lemma_roots_are_accepted,
        lemma_preflight_succeeds,
        lemma_checked_provisioning_succeeds,
    };

    let plan = provision_plan(policy, ciphertext_path, uid);
    lemma_capable_host(uid, policy is Preferred, plan, host, result, after);
    provisioning_happens_once(policy, ciphertext_path, uid, host, result, after);
}

/// On a capable host that is ready for it, provisioning under the other policy is refused by its
/// own error and changes nothing: the preferred one without a usable TPM2, the fallback with one.
pub proof fn other_policy_is_refused(
    policy: TransportIdentityProvisioningPolicy,
    ciphertext_path: Seq<u8>,
    uid: u32,
    host: Host,
    result: Result<TransportIdentity, TransportIdentityProvisioningError>,
    after: Host,
)
    requires
        ends_capably(
            uid,
            !(policy is Preferred),
            provision_plan(policy, ciphertext_path, uid),
            host,
            result,
            after,
        ),
        is_ready_for_provisioning(host, uid),
        rendered_dropin(ciphertext_path, policy.tier()) is Some,
    ensures
        result == Err::<TransportIdentity, _>(
            if policy is Preferred {
                TransportIdentityProvisioningError::Tpm2Unavailable
            } else {
                TransportIdentityProvisioningError::HostKeyOnlyFallbackForbidden
            },
        ),
        after == host,
{
    broadcast use {
        group_capable_steps,
        lemma_roots_are_accepted,
        lemma_free_place_is_found,
        lemma_tpm2_is_queried,
    };

}

broadcast proof fn lemma_directories_are_accepted(
    uid: u32,
    host: Host,
    result: Result<(), TransportIdentityRecoveryError>,
    after: Host,
)
    requires
        #[trigger] ends_reliably(established_directories_plan(uid), host, result, after),
        custody_is_trusted(host, uid),
    ensures
        after == host,
        result is Ok,
{
    broadcast use group_reliable_steps;

}

broadcast proof fn lemma_decryption_succeeds(
    uid: u32,
    tpm2: bool,
    host: Host,
    result: Result<Seq<u8>, TransportIdentityRecoveryError>,
    after: Host,
)
    requires
        #[trigger] ends_capably(uid, tpm2, decrypt_plan(), host, result, after),
        custody_is_trusted(host, uid),
        sealed_identity(host) is Some,
    ensures
        after == host,
        result == Ok::<Seq<u8>, TransportIdentityRecoveryError>(sealed_identity(host)->0),
{
    broadcast use {group_capable_steps, lemma_plaintext_is_delivered, lemma_decryption_finishes};

}

broadcast proof fn lemma_plaintext_is_delivered(
    uid: u32,
    tpm2: bool,
    place: Place,
    limit: u64,
    host: Host,
    bytes: Option<Seq<u8>>,
    after: Host,
)
    requires
        #[trigger] ends_capably(
            uid,
            tpm2,
            obtain(OutsideRequest::StartDecryption(place, limit)),
            host,
            bytes,
            after,
        ),
        host.sealed(place) is Some,
    ensures
        after == host,
        bytes == Some(first_bytes(host.sealed(place)->0, limit as int)),
{
    reveal_with_fuel(can_end, 2);
}

broadcast proof fn lemma_decryption_finishes(
    uid: u32,
    tpm2: bool,
    host: Host,
    success: Option<bool>,
    after: Host,
)
    requires
        #[trigger] ends_capably(
            uid,
            tpm2,
            run_plan(OutsideRequest::FinishDecryption),
            host,
            success,
            after,
        ),
    ensures
        after == host,
        success == Some(true),
{
    reveal_with_fuel(can_end, 2);
}

broadcast proof fn lemma_established_reads(
    uid: u32,
    tpm2: bool,
    host: Host,
    result: Result<(), TransportIdentityRecoveryError>,
    after: Host,
)
    requires
        #[trigger] ends_capably(uid, tpm2, established_directories_plan(uid), host, result, after),
        custody_is_trusted(host, uid),
    ensures
        after == host,
        result is Ok,
{
    lemma_capable_host(uid, tpm2, established_directories_plan(uid), host, result, after);
    lemma_directories_are_accepted(uid, host, result, after);
}

broadcast proof fn lemma_trusted_artifacts_match(
    uid: u32,
    tpm2: bool,
    policy: TransportIdentityProvisioningPolicy,
    ciphertext_path: Seq<u8>,
    host: Host,
    result: Result<(), TransportIdentityRecoveryError>,
    after: Host,
)
    requires
        #[trigger] ends_capably(
            uid,
            tpm2,
            established_artifacts_plan(policy, ciphertext_path, uid),
            host,
            result,
            after,
        ),
        custody_is_trusted(host, uid),
        host.content(Place::Dropin) == rendered_dropin(ciphertext_path, policy.tier()),
    ensures
        after == host,
        result is Ok,
{
    let plan = established_artifacts_plan(policy, ciphertext_path, uid);
    lemma_capable_host(uid, tpm2, plan, host, result, after);
    lemma_artifacts_are_judged(policy, ciphertext_path, uid, host, result, after);
}

broadcast proof fn lemma_trusted_ciphertext_opens(
    uid: u32,
    tpm2: bool,
    host: Host,
    result: Result<(), TransportIdentityRecoveryError>,
    after: Host,
)
    requires
        #[trigger] ends_capably(uid, tpm2, open_ciphertext_plan(uid), host, result, after),
        custody_is_trusted(host, uid),
    ensures
        after == host,
        result is Ok,
{
    lemma_capable_host(uid, tpm2, open_ciphertext_plan(uid), host, result, after);
    lemma_ciphertext_is_opened(uid, host, result, after);
}

broadcast proof fn lemma_trusted_binding_is_read(
    uid: u32,
    tpm2: bool,
    host: Host,
    result: Result<Seq<u8>, TransportIdentityRecoveryError>,
    after: Host,
)
    requires
        #[trigger] ends_capably(uid, tpm2, read_dropin_plan(uid), host, result, after),
        custody_is_trusted(host, uid),
        host.files[Place::Dropin].content.len() <= MAX_DROPIN_BYTES,
    ensures
        after == host,
        result == Ok::<Seq<u8>, TransportIdentityRecoveryError>(host.files[Place::Dropin].content),
{
    lemma_capable_host(uid, tpm2, read_dropin_plan(uid), host, result, after);
    lemma_binding_is_read(uid, host, result, after);
}

/// On a capable host, trusted custody of a policy is recovered under that policy: the identity is
/// that of the sealed key, and nothing changes.
pub proof fn trusted_custody_is_recovered(
    policy: TransportIdentityProvisioningPolicy,
    ciphertext_path: Seq<u8>,
    uid: u32,
    tpm2: bool,
    host: Host,
    result: Result<Seq<u8>, TransportIdentityRecoveryError>,
    after: Host,
)
    requires
        ends_capably(uid, tpm2, recover_plan(policy, ciphertext_path, uid), host, result, after),
        custody_is_trusted(host, uid),
        host.content(Place::Dropin) == rendered_dropin(ciphertext_path, policy.tier()),
        sealed_identity(host) is Some,
    ensures
        result == Ok::<Seq<u8>, TransportIdentityRecoveryError>(sealed_identity(host)->0),
        after == host,
{
    broadcast use {
        group_capable_steps,
        lemma_established_reads,
        lemma_trusted_artifacts_match,
        lemma_decryption_succeeds,
    };

}

/// On a capable host, trusted custody is recovered from its binding alone: the policy is the one
/// that the binding names, the identity that of the sealed key, and nothing changes. The path has
/// to fit a binding of the preferred policy, with which every binding is compared first.
pub proof fn trusted_custody_is_recovered_from_its_binding(
    policy: TransportIdentityProvisioningPolicy,
    ciphertext_path: Seq<u8>,
    uid: u32,
    tpm2: bool,
    host: Host,
    result: Result<
        (TransportIdentityProvisioningPolicy, Seq<u8>),
        TransportIdentityRecoveryError,
    >,
    after: Host,
)
    requires
        ends_capably(
            uid,
            tpm2,
            recover_established_plan(ciphertext_path, uid),
            host,
            result,
            after,
        ),
        custody_is_trusted(host, uid),
        host.content(Place::Dropin) == rendered_dropin(ciphertext_path, policy.tier()),
        rendered_dropin(
            ciphertext_path,
            TransportIdentityProvisioningPolicy::Preferred.tier(),
        ) is Some,
        sealed_identity(host) is Some,
    ensures
        result == Ok::<_, TransportIdentityRecoveryError>((policy, sealed_identity(host)->0)),
        after == host,
{
    broadcast use {
        group_capable_steps,
        lemma_established_reads,
        lemma_trusted_ciphertext_opens,
        lemma_trusted_binding_is_read,
        lemma_decryption_succeeds,
    };

    rendered_policy_is_read_back(policy, ciphertext_path);
}

} // verus!
