//! What provisioning and recovery of the transport identity do to the host.
use vstd::prelude::*;
use vstd::utf8::*;

use crate::domain::TransportIdentity;
use crate::host::{
    changed_only, ends, group_custody_steps, group_host_steps, host_answers, host_rules,
    lemma_others_stay, same_but, Host,
};
use crate::outside::{FileMetadata, OutsideReply, OutsideRequest, Place};
use crate::plan::can_end;
use crate::transport_identity_custody::{derived_identity, UbuntuTransportIdentityCustodyError};
use crate::transport_identity_provisioning::{
    binding_text, capability_plan, commit_dropin_plan, credential_directories_plan,
    dropin_directories_plan, established_policy, exists_plan, exit_success, generate_key_plan,
    harden_ciphertext_plan, open_temporary_ciphertext_plan, preflight_plan, provision_checked_plan,
    provision_plan, provisioning_roots_plan, rendered_dropin, run_plan, secure_program_plan,
    store_artifacts_plan, store_ciphertext_plan, TransportIdentityPersistentState,
    TransportIdentityProvisioningError, TransportIdentityProvisioningPolicy,
    TransportIdentityRecoveryError,
};
use crate::transport_identity_recovery::{
    ciphertext_parents_plan, decrypt_plan, dropin_parents_plan, established_artifacts_plan,
    established_directories_plan, inspect_plan, leaf_plan, optional_directory_plan,
    read_dropin_plan, recover_established_plan, recover_plan, recovery_directory_plan,
};
use crate::working_host::{
    ends_tidily, group_tidy_steps, lemma_publish_tidily, lemma_settle_tidily, lemma_tidy_host,
    lemma_withdraw_tidily,
};

verus! {

/// The binding of one policy is never the binding of the other.
pub proof fn bindings_tell_policies_apart(path: Seq<u8>)
    ensures
        binding_text(path, TransportIdentityProvisioningPolicy::Preferred.tier()) != binding_text(
            path,
            TransportIdentityProvisioningPolicy::HostKeyOnly.tier(),
        ),
{
    let preferred = TransportIdentityProvisioningPolicy::Preferred.tier();
    let fallback = TransportIdentityProvisioningPolicy::HostKeyOnly.tier();
    reveal_strlit("TPM2_PLUS_HOST_SECRET");
    reveal_strlit("HOST_KEY_ONLY");
    assert(preferred.len() == 21);
    assert(fallback.len() == 13);
    is_ascii_chars_encode_utf8(preferred);
    is_ascii_chars_encode_utf8(fallback);
    assert(binding_text(path, preferred).len() == binding_text(path, fallback).len() + 8);
}

/// A policy is read back from the binding that was rendered for it, wherever both bindings can be
/// rendered.
pub proof fn rendered_policy_is_read_back(
    policy: TransportIdentityProvisioningPolicy,
    path: Seq<u8>,
)
    requires
        rendered_dropin(path, TransportIdentityProvisioningPolicy::Preferred.tier()) is Some,
        rendered_dropin(path, policy.tier()) is Some,
    ensures
        established_policy(rendered_dropin(path, policy.tier())->0, path) == Some(policy),
{
    bindings_tell_policies_apart(path);
}

broadcast proof fn lemma_exists_ends(place: Place, host: Host, exists: bool, after: Host)
    requires
        #[trigger] ends(exists_plan(place), host, exists, after),
    ensures
        after == host,
{
    reveal_with_fuel(can_end, 2);
}

broadcast proof fn lemma_run_ends(
    request: OutsideRequest<Seq<u8>>,
    host: Host,
    success: Option<bool>,
    after: Host,
)
    requires
        #[trigger] ends(run_plan(request), host, success, after),
    ensures
        exists|reply: OutsideReply<Seq<u8>>| #[trigger]
            host_answers(host, request, reply, after) && success == exit_success(reply),
{
    reveal_with_fuel(can_end, 2);
    let rules = host_rules();
    let (reply, next) = choose|reply: OutsideReply<Seq<u8>>, next: Host| #[trigger]
        rules(host, request, reply, next) && can_end(
            crate::plan::Plan::Finish(exit_success(reply)),
            rules,
            next,
            success,
            after,
        );
    assert(host_answers(host, request, reply, after));
}

broadcast proof fn lemma_generate_key_ends(
    host: Host,
    result: Result<TransportIdentity, TransportIdentityProvisioningError>,
    after: Host,
)
    requires
        #[trigger] ends(generate_key_plan(), host, result, after),
    ensures
        after.files == host.files,
        after.encryptions == host.encryptions,
        match result {
            Ok(identity) => after.keys_made == host.keys_made + 1 && (after.key matches Some(key)
                && derived_identity(key) == Ok::<_, UbuntuTransportIdentityCustodyError>(
                identity@,
            )),
            Err(_) => after == host,
        },
{
    reveal_with_fuel(can_end, 2);
}

broadcast proof fn lemma_secure_program_ends<E>(
    place: Place,
    unavailable: E,
    host: Host,
    result: Result<(), E>,
    after: Host,
)
    requires
        #[trigger] ends(secure_program_plan(place, unavailable), host, result, after),
    ensures
        after == host,
{
    broadcast use group_host_steps;

}

broadcast proof fn lemma_capability_ends(
    policy: TransportIdentityProvisioningPolicy,
    host: Host,
    result: Result<(), TransportIdentityProvisioningError>,
    after: Host,
)
    requires
        #[trigger] ends(capability_plan(policy), host, result, after),
    ensures
        after == host,
{
    broadcast use {group_host_steps, lemma_secure_program_ends, lemma_run_ends};

}

broadcast proof fn lemma_roots_end(
    uid: u32,
    host: Host,
    result: Result<(), TransportIdentityProvisioningError>,
    after: Host,
)
    requires
        #[trigger] ends(provisioning_roots_plan(uid), host, result, after),
    ensures
        after == host,
{
    broadcast use {group_host_steps, group_custody_steps, lemma_exists_ends};

}

broadcast proof fn lemma_preflight_ends(
    policy: TransportIdentityProvisioningPolicy,
    host: Host,
    result: Result<(), TransportIdentityProvisioningError>,
    after: Host,
)
    requires
        #[trigger] ends(preflight_plan(policy), host, result, after),
    ensures
        after == host,
        result is Ok ==> !host.files.contains_key(Place::Ciphertext) && !host.files.contains_key(
            Place::Dropin,
        ),
{
    broadcast use {group_host_steps, group_custody_steps, lemma_capability_ends};

}

pub broadcast proof fn lemma_credential_directories_end(
    uid: u32,
    host: Host,
    result: Result<(), TransportIdentityProvisioningError>,
    after: Host,
)
    requires
        #[trigger] ends(credential_directories_plan(uid), host, result, after),
    ensures
        same_but(host, after, set![Place::ApplicationDirectory, Place::CredentialDirectory]),
{
    broadcast use {group_host_steps, group_custody_steps, lemma_others_stay};

}

broadcast proof fn lemma_open_temporary_ciphertext_ends(
    uid: u32,
    host: Host,
    result: Result<FileMetadata, TransportIdentityProvisioningError>,
    after: Host,
)
    requires
        #[trigger] ends(open_temporary_ciphertext_plan(uid), host, result, after),
    ensures
        after == host,
{
    broadcast use group_host_steps;

}

broadcast proof fn lemma_harden_ciphertext_ends(
    uid: u32,
    host: Host,
    result: Result<FileMetadata, TransportIdentityProvisioningError>,
    after: Host,
)
    requires
        #[trigger] ends(harden_ciphertext_plan(uid), host, result, after),
    ensures
        changed_only(host, after, Place::CiphertextTemporary),
        after.sealed(Place::CiphertextTemporary) == host.sealed(Place::CiphertextTemporary),
{
    broadcast use {group_host_steps, lemma_open_temporary_ciphertext_ends};

}

/// The identity of the key that the ciphertext seals, if it seals a valid one.
pub open spec fn sealed_identity(host: Host) -> Option<Seq<u8>> {
    match host.sealed(Place::Ciphertext) {
        Some(key) => match derived_identity(key) {
            Ok(identity) => Some(identity),
            Err(_) => None,
        },
        None => None,
    }
}

/// The places where provisioning may leave something.
pub open spec fn provisioned_places() -> Set<Place> {
    set![
        Place::ApplicationDirectory,
        Place::CredentialDirectory,
        Place::Ciphertext,
        Place::CiphertextTemporary,
        Place::ConfigRoot,
        Place::SystemdDirectory,
        Place::SystemdUserDirectory,
        Place::DropinDirectory,
        Place::Dropin,
        Place::DropinTemporary,
    ]
}

/// All files outside a set of places are as they were.
pub open spec fn same_files_but(before: Host, after: Host, changed: Set<Place>) -> bool {
    forall|place: Place|
        !changed.contains(place) ==> (#[trigger] after.files.contains_key(place)
            == before.files.contains_key(place) && (before.files.contains_key(place)
            ==> after.files[place] == before.files[place]))
}

pub broadcast proof fn lemma_store_ciphertext_ends(
    policy: TransportIdentityProvisioningPolicy,
    uid: u32,
    host: Host,
    result: Result<(), TransportIdentityProvisioningError>,
    after: Host,
)
    requires
        #[trigger] ends(store_ciphertext_plan(policy, uid), host, result, after),
    ensures
        same_files_but(host, after, set![Place::Ciphertext, Place::CiphertextTemporary]),
        after.keys_made == host.keys_made,
        after.encryptions == host.encryptions || after.encryptions == host.encryptions.push(
            policy is HostKeyOnly,
        ),
        result is Ok ==> after.files.contains_key(Place::Ciphertext) && after.sealed(
            Place::Ciphertext,
        ) == host.key && after.encryptions == host.encryptions.push(policy is HostKeyOnly),
{
    broadcast use {
        group_host_steps,
        group_custody_steps,
        lemma_harden_ciphertext_ends,
        lemma_others_stay,
    };

}

pub broadcast proof fn lemma_dropin_directories_end(
    uid: u32,
    host: Host,
    result: Result<(), TransportIdentityProvisioningError>,
    after: Host,
)
    requires
        #[trigger] ends(dropin_directories_plan(uid), host, result, after),
    ensures
        same_but(
            host,
            after,
            set![
                Place::ConfigRoot,
                Place::SystemdDirectory,
                Place::SystemdUserDirectory,
                Place::DropinDirectory,
            ],
        ),
{
    broadcast use {group_host_steps, group_custody_steps, lemma_others_stay};

}

pub broadcast proof fn lemma_commit_dropin_ends(
    payload: Seq<u8>,
    uid: u32,
    host: Host,
    result: Result<(), TransportIdentityProvisioningError>,
    after: Host,
)
    requires
        #[trigger] ends(commit_dropin_plan(payload, uid), host, result, after),
    ensures
        same_but(
            host,
            after,
            set![
                Place::ConfigRoot,
                Place::SystemdDirectory,
                Place::SystemdUserDirectory,
                Place::DropinDirectory,
                Place::Dropin,
                Place::DropinTemporary,
            ],
        ),
        result is Ok ==> after.content(Place::Dropin) == Some(payload),
{
    broadcast use {group_host_steps, group_custody_steps, lemma_dropin_directories_end};

    let directories = set![
        Place::ConfigRoot,
        Place::SystemdDirectory,
        Place::SystemdUserDirectory,
        Place::DropinDirectory,
    ];
    let files = set![Place::DropinTemporary, Place::Dropin];
    assert forall|place: Place|
        !directories.contains(place) && !files.contains(place) implies (
    #[trigger] after.files.contains_key(place) == host.files.contains_key(place) && (
    host.files.contains_key(place) ==> after.files[place] == host.files[place])) by {}
}

broadcast proof fn lemma_store_artifacts_ends(
    policy: TransportIdentityProvisioningPolicy,
    payload: Seq<u8>,
    uid: u32,
    host: Host,
    result: Result<(), TransportIdentityProvisioningError>,
    after: Host,
)
    requires
        #[trigger] ends(store_artifacts_plan(policy, payload, uid), host, result, after),
    ensures
        same_files_but(host, after, provisioned_places()),
        after.keys_made == host.keys_made,
        after.encryptions == host.encryptions || after.encryptions == host.encryptions.push(
            policy is HostKeyOnly,
        ),
        result is Ok ==> after.files.contains_key(Place::Ciphertext) && after.content(Place::Dropin)
            == Some(payload) && after.sealed(Place::Ciphertext) == host.key && after.encryptions
            == host.encryptions.push(policy is HostKeyOnly),
{
    broadcast use {
        group_host_steps,
        group_custody_steps,
        lemma_store_ciphertext_ends,
        lemma_commit_dropin_ends,
    };

    let ciphertexts = set![Place::Ciphertext, Place::CiphertextTemporary];
    let binding = set![
        Place::ConfigRoot,
        Place::SystemdDirectory,
        Place::SystemdUserDirectory,
        Place::DropinDirectory,
        Place::Dropin,
        Place::DropinTemporary,
    ];
    assert forall|place: Place|
        !ciphertexts.contains(place) && !binding.contains(place) implies (
    #[trigger] after.files.contains_key(place) == host.files.contains_key(place) && (
    host.files.contains_key(place) ==> after.files[place] == host.files[place])) by {}
    assert(!binding.contains(Place::Ciphertext));
}

broadcast proof fn lemma_provision_checked_ends(
    policy: TransportIdentityProvisioningPolicy,
    payload: Seq<u8>,
    uid: u32,
    host: Host,
    result: Result<TransportIdentity, TransportIdentityProvisioningError>,
    after: Host,
)
    requires
        #[trigger] ends(provision_checked_plan(policy, payload, uid), host, result, after),
    ensures
        same_files_but(host, after, provisioned_places()),
        host.keys_made <= after.keys_made <= host.keys_made + 1,
        after.encryptions == host.encryptions || after.encryptions == host.encryptions.push(
            policy is HostKeyOnly,
        ),
        result matches Ok(identity) ==> after.files.contains_key(Place::Ciphertext)
            && sealed_identity(after) == Some(identity@) && after.content(Place::Dropin) == Some(
            payload,
        ) && after.encryptions == host.encryptions.push(policy is HostKeyOnly) && after.keys_made
            == host.keys_made + 1,
{
    broadcast use {
        group_host_steps,
        lemma_credential_directories_end,
        lemma_generate_key_ends,
        lemma_store_artifacts_ends,
    };

    let directories = set![Place::ApplicationDirectory, Place::CredentialDirectory];
    assert forall|place: Place|
        !directories.contains(place) && !provisioned_places().contains(place) implies (
    #[trigger] after.files.contains_key(place) == host.files.contains_key(place) && (
    host.files.contains_key(place) ==> after.files[place] == host.files[place])) by {}
}

/// Provisioning happens once and for one policy. Where either artifact is there already it fails
/// and changes nothing: no key is made, nothing is encrypted. It makes one key at most, encrypts
/// at most once and only as the policy says, so the host key alone is used under the explicit
/// fallback and under no other policy. Success means that the ciphertext in place seals the key of
/// the reported identity and that the binding in place is the one rendered for the policy.
pub broadcast proof fn provisioning_happens_once(
    policy: TransportIdentityProvisioningPolicy,
    ciphertext_path: Seq<u8>,
    uid: u32,
    host: Host,
    result: Result<TransportIdentity, TransportIdentityProvisioningError>,
    after: Host,
)
    requires
        #[trigger] ends(provision_plan(policy, ciphertext_path, uid), host, result, after),
    ensures
        host.files.contains_key(Place::Ciphertext) || host.files.contains_key(Place::Dropin)
            ==> result is Err && after == host,
        host.keys_made <= after.keys_made <= host.keys_made + 1,
        after.encryptions == host.encryptions || after.encryptions == host.encryptions.push(
            policy is HostKeyOnly,
        ),
        result matches Ok(identity) ==> {
            &&& after.files.contains_key(Place::Ciphertext)
            &&& sealed_identity(after) == Some(identity@)
            &&& after.content(Place::Dropin) == rendered_dropin(ciphertext_path, policy.tier())
            &&& after.content(Place::Dropin) is Some
            &&& after.keys_made == host.keys_made + 1
            &&& after.encryptions == host.encryptions.push(policy is HostKeyOnly)
        },
        same_files_but(host, after, provisioned_places()),
{
    broadcast use {
        group_host_steps,
        lemma_roots_end,
        lemma_preflight_ends,
        lemma_provision_checked_ends,
    };

}

/// Neither artifact and no temporary file is there that was not there before.
pub open spec fn nothing_left(before: Host, after: Host) -> bool {
    &&& !before.files.contains_key(Place::Ciphertext) ==> !after.files.contains_key(
        Place::Ciphertext,
    )
    &&& !before.files.contains_key(Place::Dropin) ==> !after.files.contains_key(Place::Dropin)
    &&& !before.files.contains_key(Place::CiphertextTemporary) ==> !after.files.contains_key(
        Place::CiphertextTemporary,
    )
    &&& !before.files.contains_key(Place::DropinTemporary) ==> !after.files.contains_key(
        Place::DropinTemporary,
    )
}

broadcast proof fn lemma_harden_ciphertext_tidily(
    uid: u32,
    host: Host,
    result: Result<FileMetadata, TransportIdentityProvisioningError>,
    after: Host,
)
    requires
        #[trigger] ends_tidily(harden_ciphertext_plan(uid), host, result, after),
    ensures
        changed_only(host, after, Place::CiphertextTemporary),
{
    lemma_tidy_host(harden_ciphertext_plan(uid), host, result, after);
    lemma_harden_ciphertext_ends(uid, host, result, after);
}

broadcast proof fn lemma_store_ciphertext_tidily(
    policy: TransportIdentityProvisioningPolicy,
    uid: u32,
    host: Host,
    result: Result<(), TransportIdentityProvisioningError>,
    after: Host,
)
    requires
        #[trigger] ends_tidily(store_ciphertext_plan(policy, uid), host, result, after),
    ensures
        result is Err && !host.files.contains_key(Place::Ciphertext) ==> !after.files.contains_key(
            Place::Ciphertext,
        ),
        !host.files.contains_key(Place::CiphertextTemporary) ==> !after.files.contains_key(
            Place::CiphertextTemporary,
        ),
        same_files_but(host, after, set![Place::Ciphertext, Place::CiphertextTemporary]),
{
    broadcast use {
        group_tidy_steps,
        lemma_settle_tidily,
        lemma_harden_ciphertext_tidily,
        lemma_others_stay,
    };

    lemma_tidy_host(store_ciphertext_plan(policy, uid), host, result, after);
    lemma_store_ciphertext_ends(policy, uid, host, result, after);
}

broadcast proof fn lemma_dropin_directories_tidily(
    uid: u32,
    host: Host,
    result: Result<(), TransportIdentityProvisioningError>,
    after: Host,
)
    requires
        #[trigger] ends_tidily(dropin_directories_plan(uid), host, result, after),
    ensures
        nothing_left(host, after),
        nothing_left(after, host),
{
    lemma_tidy_host(dropin_directories_plan(uid), host, result, after);
    lemma_dropin_directories_end(uid, host, result, after);
    let directories = set![
        Place::ConfigRoot,
        Place::SystemdDirectory,
        Place::SystemdUserDirectory,
        Place::DropinDirectory,
    ];
    assert(!directories.contains(Place::Ciphertext));
    assert(!directories.contains(Place::CiphertextTemporary));
    assert(!directories.contains(Place::Dropin));
    assert(!directories.contains(Place::DropinTemporary));
}

broadcast proof fn lemma_commit_dropin_tidily(
    payload: Seq<u8>,
    uid: u32,
    host: Host,
    result: Result<(), TransportIdentityProvisioningError>,
    after: Host,
)
    requires
        #[trigger] ends_tidily(commit_dropin_plan(payload, uid), host, result, after),
    ensures
        result is Err && !host.files.contains_key(Place::Dropin) ==> !after.files.contains_key(
            Place::Dropin,
        ),
        !host.files.contains_key(Place::DropinTemporary) ==> !after.files.contains_key(
            Place::DropinTemporary,
        ),
        after.files.contains_key(Place::Ciphertext) == host.files.contains_key(Place::Ciphertext),
        after.files.contains_key(Place::CiphertextTemporary) == host.files.contains_key(
            Place::CiphertextTemporary,
        ),
{
    broadcast use {group_tidy_steps, lemma_publish_tidily, lemma_dropin_directories_tidily};

}

broadcast proof fn lemma_store_artifacts_tidily(
    policy: TransportIdentityProvisioningPolicy,
    payload: Seq<u8>,
    uid: u32,
    host: Host,
    result: Result<(), TransportIdentityProvisioningError>,
    after: Host,
)
    requires
        #[trigger] ends_tidily(store_artifacts_plan(policy, payload, uid), host, result, after),
    ensures
        result is Err ==> nothing_left(host, after),
{
    broadcast use {
        group_tidy_steps,
        lemma_withdraw_tidily,
        lemma_store_ciphertext_tidily,
        lemma_commit_dropin_tidily,
    };

}

broadcast proof fn lemma_roots_tidily(
    uid: u32,
    host: Host,
    result: Result<(), TransportIdentityProvisioningError>,
    after: Host,
)
    requires
        #[trigger] ends_tidily(provisioning_roots_plan(uid), host, result, after),
    ensures
        after == host,
{
    lemma_tidy_host(provisioning_roots_plan(uid), host, result, after);
    lemma_roots_end(uid, host, result, after);
}

broadcast proof fn lemma_preflight_tidily(
    policy: TransportIdentityProvisioningPolicy,
    host: Host,
    result: Result<(), TransportIdentityProvisioningError>,
    after: Host,
)
    requires
        #[trigger] ends_tidily(preflight_plan(policy), host, result, after),
    ensures
        after == host,
{
    lemma_tidy_host(preflight_plan(policy), host, result, after);
    lemma_preflight_ends(policy, host, result, after);
}

broadcast proof fn lemma_credential_directories_tidily(
    uid: u32,
    host: Host,
    result: Result<(), TransportIdentityProvisioningError>,
    after: Host,
)
    requires
        #[trigger] ends_tidily(credential_directories_plan(uid), host, result, after),
    ensures
        nothing_left(host, after),
{
    lemma_tidy_host(credential_directories_plan(uid), host, result, after);
    lemma_credential_directories_end(uid, host, result, after);
    let directories = set![Place::ApplicationDirectory, Place::CredentialDirectory];
    assert(!directories.contains(Place::Ciphertext));
    assert(!directories.contains(Place::CiphertextTemporary));
    assert(!directories.contains(Place::Dropin));
    assert(!directories.contains(Place::DropinTemporary));
}

broadcast proof fn lemma_generate_key_tidily(
    host: Host,
    result: Result<TransportIdentity, TransportIdentityProvisioningError>,
    after: Host,
)
    requires
        #[trigger] ends_tidily(generate_key_plan(), host, result, after),
    ensures
        after.files == host.files,
{
    lemma_tidy_host(generate_key_plan(), host, result, after);
    lemma_generate_key_ends(host, result, after);
}

/// Provisioning that fails leaves nothing behind, where removals work: an artifact that was not
/// there before is not there afterwards, and neither is a temporary file.
pub proof fn failed_provisioning_leaves_no_artifact(
    policy: TransportIdentityProvisioningPolicy,
    ciphertext_path: Seq<u8>,
    uid: u32,
    host: Host,
    error: TransportIdentityProvisioningError,
    after: Host,
)
    requires
        ends_tidily(provision_plan(policy, ciphertext_path, uid), host, Err(error), after),
    ensures
        nothing_left(host, after),
{
    broadcast use {
        group_tidy_steps,
        lemma_roots_tidily,
        lemma_preflight_tidily,
        lemma_credential_directories_tidily,
        lemma_generate_key_tidily,
        lemma_store_artifacts_tidily,
    };

}

broadcast proof fn lemma_recovery_directory_ends(
    place: Place,
    private: bool,
    uid: u32,
    host: Host,
    result: Result<(), TransportIdentityRecoveryError>,
    after: Host,
)
    requires
        #[trigger] ends(recovery_directory_plan(place, private, uid), host, result, after),
    ensures
        after == host,
{
    broadcast use group_custody_steps;

}

broadcast proof fn lemma_optional_directory_ends(
    place: Place,
    private: bool,
    uid: u32,
    host: Host,
    result: Result<bool, TransportIdentityRecoveryError>,
    after: Host,
)
    requires
        #[trigger] ends(optional_directory_plan(place, private, uid), host, result, after),
    ensures
        after == host,
{
    broadcast use {group_host_steps, lemma_recovery_directory_ends};

}

broadcast proof fn lemma_ciphertext_parents_end(
    uid: u32,
    host: Host,
    result: Result<bool, TransportIdentityRecoveryError>,
    after: Host,
)
    requires
        #[trigger] ends(ciphertext_parents_plan(uid), host, result, after),
    ensures
        after == host,
{
    broadcast use {group_host_steps, lemma_optional_directory_ends};

}

broadcast proof fn lemma_dropin_parents_end(
    uid: u32,
    host: Host,
    result: Result<bool, TransportIdentityRecoveryError>,
    after: Host,
)
    requires
        #[trigger] ends(dropin_parents_plan(uid), host, result, after),
    ensures
        after == host,
{
    broadcast use {group_host_steps, lemma_optional_directory_ends};

}

broadcast proof fn lemma_leaf_ends(
    place: Place,
    parent_exists: bool,
    unavailable: TransportIdentityRecoveryError,
    host: Host,
    result: Result<bool, TransportIdentityRecoveryError>,
    after: Host,
)
    requires
        #[trigger] ends(leaf_plan(place, parent_exists, unavailable), host, result, after),
    ensures
        after == host,
        result matches Ok(exists) ==> exists == (parent_exists && host.files.contains_key(place)),
{
    broadcast use group_host_steps;

}

broadcast proof fn lemma_read_dropin_ends(
    uid: u32,
    host: Host,
    result: Result<Seq<u8>, TransportIdentityRecoveryError>,
    after: Host,
)
    requires
        #[trigger] ends(read_dropin_plan(uid), host, result, after),
    ensures
        after == host,
        result matches Ok(payload) ==> host.content(Place::Dropin) == Some(payload),
{
    broadcast use {group_host_steps, group_custody_steps};

}

broadcast proof fn lemma_established_artifacts_end(
    policy: TransportIdentityProvisioningPolicy,
    ciphertext_path: Seq<u8>,
    uid: u32,
    host: Host,
    result: Result<(), TransportIdentityRecoveryError>,
    after: Host,
)
    requires
        #[trigger] ends(
            established_artifacts_plan(policy, ciphertext_path, uid),
            host,
            result,
            after,
        ),
    ensures
        after == host,
        result is Ok ==> host.files.contains_key(Place::Ciphertext) && host.content(Place::Dropin)
            is Some && host.content(Place::Dropin) == rendered_dropin(
            ciphertext_path,
            policy.tier(),
        ),
{
    broadcast use {group_host_steps, group_custody_steps, lemma_read_dropin_ends};

}

/// Inspection changes nothing on the host. Custody counts as established only with the ciphertext
/// in place and the binding of exactly that policy.
pub broadcast proof fn inspection_requires_the_complete_pair(
    policy: TransportIdentityProvisioningPolicy,
    ciphertext_path: Seq<u8>,
    uid: u32,
    host: Host,
    result: Result<TransportIdentityPersistentState, TransportIdentityRecoveryError>,
    after: Host,
)
    requires
        #[trigger] ends(inspect_plan(policy, ciphertext_path, uid), host, result, after),
    ensures
        after == host,
        result == Ok::<_, TransportIdentityRecoveryError>(
            TransportIdentityPersistentState::Established,
        ) ==> host.files.contains_key(Place::Ciphertext) && host.content(Place::Dropin) is Some
            && host.content(Place::Dropin) == rendered_dropin(ciphertext_path, policy.tier()),
{
    broadcast use {
        group_host_steps,
        group_custody_steps,
        lemma_ciphertext_parents_end,
        lemma_dropin_parents_end,
        lemma_leaf_ends,
        lemma_established_artifacts_end,
    };

}

broadcast proof fn lemma_established_directories_end(
    uid: u32,
    host: Host,
    result: Result<(), TransportIdentityRecoveryError>,
    after: Host,
)
    requires
        #[trigger] ends(established_directories_plan(uid), host, result, after),
    ensures
        after == host,
{
    broadcast use {group_host_steps, lemma_recovery_directory_ends};

}

broadcast proof fn lemma_decrypt_ends(
    host: Host,
    result: Result<Seq<u8>, TransportIdentityRecoveryError>,
    after: Host,
)
    requires
        #[trigger] ends(decrypt_plan(), host, result, after),
    ensures
        after == host,
        result matches Ok(identity) ==> sealed_identity(host) == Some(identity),
{
    broadcast use {group_host_steps, lemma_secure_program_ends, lemma_run_ends};

}

/// Recovery under a selected policy changes nothing on the host, makes no key, and succeeds only
/// where the binding in place is the one of that policy. It gives the identity of the key that the
/// ciphertext seals.
pub broadcast proof fn recovery_only_reads(
    policy: TransportIdentityProvisioningPolicy,
    ciphertext_path: Seq<u8>,
    uid: u32,
    host: Host,
    result: Result<Seq<u8>, TransportIdentityRecoveryError>,
    after: Host,
)
    requires
        #[trigger] ends(recover_plan(policy, ciphertext_path, uid), host, result, after),
    ensures
        after == host,
        result matches Ok(identity) ==> host.files.contains_key(Place::Ciphertext) && host.content(
            Place::Dropin,
        ) is Some && host.content(Place::Dropin) == rendered_dropin(ciphertext_path, policy.tier())
            && sealed_identity(host) == Some(identity),
{
    broadcast use {
        group_host_steps,
        lemma_established_directories_end,
        lemma_established_artifacts_end,
        lemma_decrypt_ends,
    };

}

/// Recovery from the persisted binding changes nothing on the host, and reports the policy of
/// exactly the binding in place and the identity of the key that the ciphertext seals.
pub broadcast proof fn established_recovery_reports_the_persisted_policy(
    ciphertext_path: Seq<u8>,
    uid: u32,
    host: Host,
    result: Result<
        (TransportIdentityProvisioningPolicy, Seq<u8>),
        TransportIdentityRecoveryError,
    >,
    after: Host,
)
    requires
        #[trigger] ends(recover_established_plan(ciphertext_path, uid), host, result, after),
    ensures
        after == host,
        result matches Ok(recovered) ==> host.files.contains_key(Place::Ciphertext) && host.content(
            Place::Dropin,
        ) is Some && established_policy(host.content(Place::Dropin)->0, ciphertext_path) == Some(
            recovered.0,
        ) && sealed_identity(host) == Some(recovered.1),
{
    broadcast use {
        group_host_steps,
        group_custody_steps,
        lemma_established_directories_end,
        lemma_read_dropin_ends,
        lemma_decrypt_ends,
    };

}

/// What was provisioned is recovered: the identity is the one that provisioning reported, and the
/// policy the one it was made under.
pub proof fn recovery_gives_back_what_was_provisioned(
    policy: TransportIdentityProvisioningPolicy,
    ciphertext_path: Seq<u8>,
    uid: u32,
    host: Host,
    identity: TransportIdentity,
    middle: Host,
    recovered: (TransportIdentityProvisioningPolicy, Seq<u8>),
    after: Host,
)
    requires
        ends(provision_plan(policy, ciphertext_path, uid), host, Ok(identity), middle),
        ends(recover_established_plan(ciphertext_path, uid), middle, Ok(recovered), after),
    ensures
        recovered == (policy, identity@),
{
    provisioning_happens_once(policy, ciphertext_path, uid, host, Ok(identity), middle);
    established_recovery_reports_the_persisted_policy(
        ciphertext_path,
        uid,
        middle,
        Ok(recovered),
        after,
    );
    bindings_tell_policies_apart(ciphertext_path);
}

/// After provisioning under a policy, inspection under the other policy never finds established
/// custody.
pub proof fn provisioned_custody_is_of_one_policy(
    policy: TransportIdentityProvisioningPolicy,
    other: TransportIdentityProvisioningPolicy,
    ciphertext_path: Seq<u8>,
    uid: u32,
    host: Host,
    identity: TransportIdentity,
    middle: Host,
    state: TransportIdentityPersistentState,
    after: Host,
)
    requires
        ends(provision_plan(policy, ciphertext_path, uid), host, Ok(identity), middle),
        ends(inspect_plan(other, ciphertext_path, uid), middle, Ok(state), after),
        state == TransportIdentityPersistentState::Established,
    ensures
        other == policy,
{
    provisioning_happens_once(policy, ciphertext_path, uid, host, Ok(identity), middle);
    inspection_requires_the_complete_pair(other, ciphertext_path, uid, middle, Ok(state), after);
    bindings_tell_policies_apart(ciphertext_path);
}

} // verus!
