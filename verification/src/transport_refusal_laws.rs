//! What the custody of the transport identity refuses.
use vstd::prelude::*;

use crate::capable_host::{
    custody_is_trusted, ends_capably, group_capable_steps, helpers_are_trusted,
    inspection_is_decided_by_the_artifacts,
    lemma_artifacts_are_judged, lemma_free_place_is_found, lemma_roots_are_accepted,
    lemma_tpm2_is_queried, places_are_free, roots_are_usable,
};
use crate::custody::RecordKind;
use crate::custody_laws::group_decided_places;
use crate::domain::TransportIdentity;
use crate::host::Host;
use crate::outside::{Lookup, Place};
use crate::reliable_host::{ends_reliably, group_reliable_steps};
use crate::transport_identity_provisioning::{
    host_secret_verdict, is_secure_system_program, provision_plan, rendered_dropin,
    TransportIdentityPersistentState, TransportIdentityProvisioningError,
    TransportIdentityProvisioningPolicy, TransportIdentityRecoveryError,
};
use crate::transport_identity_recovery::{
    ciphertext_parents_plan, decrypt_plan, dropin_parents_plan, established_artifacts_plan,
    established_directories_plan, inspect_plan, open_ciphertext_plan, optional_directory_plan,
    read_dropin_plan, recover_established_plan, recover_plan,
};

verus! {

/// Every directory above the two artifacts is there and trusted.
pub open spec fn directories_are_trusted(host: Host, uid: u32) -> bool {
    &&& host.has_user_directory(Place::StateRoot, uid)
    &&& host.has_user_directory(Place::ConfigRoot, uid)
    &&& host.has_private_directory(Place::ApplicationDirectory, uid)
    &&& host.has_private_directory(Place::CredentialDirectory, uid)
    &&& host.has_user_directory(Place::SystemdDirectory, uid)
    &&& host.has_user_directory(Place::SystemdUserDirectory, uid)
    &&& host.has_user_directory(Place::DropinDirectory, uid)
}

broadcast proof fn lemma_established_directories_are_decided(
    uid: u32,
    host: Host,
    result: Result<(), TransportIdentityRecoveryError>,
    after: Host,
)
    requires
        #[trigger] ends_reliably(established_directories_plan(uid), host, result, after),
    ensures
        after == host,
        result == (if directories_are_trusted(host, uid) {
            Ok(())
        } else {
            Err(TransportIdentityRecoveryError::InsecureDirectory)
        }),
{
    broadcast use {group_reliable_steps, group_decided_places};

}

broadcast proof fn lemma_ciphertext_is_needed(
    uid: u32,
    host: Host,
    result: Result<(), TransportIdentityRecoveryError>,
    after: Host,
)
    requires
        #[trigger] ends_reliably(open_ciphertext_plan(uid), host, result, after),
    ensures
        after == host,
        result == (if !host.files.contains_key(Place::Ciphertext) {
            Err(TransportIdentityRecoveryError::CiphertextUnavailable)
        } else if host.has_record(Place::Ciphertext, RecordKind::Ciphertext, uid) {
            Ok(())
        } else {
            Err(TransportIdentityRecoveryError::CiphertextInsecure)
        }),
{
    broadcast use group_reliable_steps;

}

broadcast proof fn lemma_binding_is_needed(
    uid: u32,
    host: Host,
    result: Result<Seq<u8>, TransportIdentityRecoveryError>,
    after: Host,
)
    requires
        #[trigger] ends_reliably(read_dropin_plan(uid), host, result, after),
    ensures
        after == host,
        result is Ok ==> host.has_record(Place::Dropin, RecordKind::Dropin, uid),
        !host.files.contains_key(Place::Dropin) ==> result == Err::<Seq<u8>, _>(
            TransportIdentityRecoveryError::DropinUnavailable,
        ),
{
    broadcast use {group_reliable_steps, crate::reliable_host::lemma_record_decides};

}

broadcast proof fn lemma_decryption_needs_its_helper(
    host: Host,
    result: Result<Seq<u8>, TransportIdentityRecoveryError>,
    after: Host,
)
    requires
        #[trigger] ends_reliably(decrypt_plan(), host, result, after),
    ensures
        !(host.files.contains_key(Place::SystemdCreds) && is_secure_system_program(
            host.files[Place::SystemdCreds].metadata,
        )) ==> after == host && result == Err::<Seq<u8>, _>(
            TransportIdentityRecoveryError::SystemdCredsUnavailable,
        ),
{
    broadcast use group_reliable_steps;

}

/// Recovery under a policy succeeds only from custody that is trusted throughout, and with exactly
/// the binding of that policy. A directory that is not trusted is refused before anything else, and
/// then the first artifact that is missing.
pub proof fn recovery_needs_trusted_custody(
    policy: TransportIdentityProvisioningPolicy,
    ciphertext_path: Seq<u8>,
    uid: u32,
    host: Host,
    result: Result<Seq<u8>, TransportIdentityRecoveryError>,
    after: Host,
)
    requires
        ends_reliably(recover_plan(policy, ciphertext_path, uid), host, result, after),
    ensures
        result is Ok ==> custody_is_trusted(host, uid) && host.content(Place::Dropin)
            == rendered_dropin(ciphertext_path, policy.tier()),
        !directories_are_trusted(host, uid) ==> result == Err::<Seq<u8>, _>(
            TransportIdentityRecoveryError::InsecureDirectory,
        ),
        directories_are_trusted(host, uid) && rendered_dropin(ciphertext_path, policy.tier())
            is None ==> result == Err::<Seq<u8>, _>(
            TransportIdentityRecoveryError::CustodyPolicyMismatch,
        ),
        directories_are_trusted(host, uid) && rendered_dropin(ciphertext_path, policy.tier())
            is Some && !host.files.contains_key(Place::Ciphertext) ==> result == Err::<Seq<u8>, _>(
            TransportIdentityRecoveryError::CiphertextUnavailable,
        ),
        directories_are_trusted(host, uid) && rendered_dropin(ciphertext_path, policy.tier())
            is Some && host.has_record(Place::Ciphertext, RecordKind::Ciphertext, uid)
            && !host.files.contains_key(Place::Dropin) ==> result == Err::<Seq<u8>, _>(
            TransportIdentityRecoveryError::DropinUnavailable,
        ),
        directories_are_trusted(host, uid) && rendered_dropin(ciphertext_path, policy.tier())
            is Some && host.files.contains_key(Place::Ciphertext) && !host.has_record(
            Place::Ciphertext,
            RecordKind::Ciphertext,
            uid,
        ) ==> result == Err::<Seq<u8>, _>(TransportIdentityRecoveryError::CiphertextInsecure),
{
    broadcast use {
        group_reliable_steps,
        lemma_established_directories_are_decided,
        lemma_ciphertext_is_needed,
        lemma_binding_is_needed,
        lemma_decryption_needs_its_helper,
    };

    if host.files.contains_key(Place::Ciphertext) && host.files.contains_key(Place::Dropin) {
        assert forall|checked: Result<(), TransportIdentityRecoveryError>, end: Host| #[trigger]
            ends_reliably(
                established_artifacts_plan(policy, ciphertext_path, uid),
                host,
                checked,
                end,
            ) && checked is Ok implies host.content(Place::Dropin) == rendered_dropin(
            ciphertext_path,
            policy.tier(),
        ) by {
            lemma_artifacts_are_judged(policy, ciphertext_path, uid, host, checked, end);
        }
    }
}

/// Recovery from the binding alone succeeds only from custody that is trusted throughout. A directory
/// that is not trusted is refused before anything else, and then the first artifact that is missing.
pub proof fn recovery_from_the_binding_needs_trusted_custody(
    ciphertext_path: Seq<u8>,
    uid: u32,
    host: Host,
    result: Result<
        (TransportIdentityProvisioningPolicy, Seq<u8>),
        TransportIdentityRecoveryError,
    >,
    after: Host,
)
    requires
        ends_reliably(recover_established_plan(ciphertext_path, uid), host, result, after),
    ensures
        result is Ok ==> custody_is_trusted(host, uid),
        !directories_are_trusted(host, uid) ==> result == Err::<
            (TransportIdentityProvisioningPolicy, Seq<u8>),
            _,
        >(TransportIdentityRecoveryError::InsecureDirectory),
        directories_are_trusted(host, uid) && !host.files.contains_key(Place::Ciphertext) ==> result
            == Err::<(TransportIdentityProvisioningPolicy, Seq<u8>), _>(
            TransportIdentityRecoveryError::CiphertextUnavailable,
        ),
        directories_are_trusted(host, uid) && host.has_record(
            Place::Ciphertext,
            RecordKind::Ciphertext,
            uid,
        ) && !host.files.contains_key(Place::Dropin) ==> result == Err::<
            (TransportIdentityProvisioningPolicy, Seq<u8>),
            _,
        >(TransportIdentityRecoveryError::DropinUnavailable),
{
    broadcast use {
        group_reliable_steps,
        lemma_established_directories_are_decided,
        lemma_ciphertext_is_needed,
        lemma_binding_is_needed,
        lemma_decryption_needs_its_helper,
    };

}

/// Whether a directory is there, and trusted if so.
pub open spec fn optional_directory_is_trusted(
    host: Host,
    place: Place,
    private: bool,
    uid: u32,
) -> bool {
    host.files.contains_key(place) ==> if private {
        host.has_private_directory(place, uid)
    } else {
        host.has_user_directory(place, uid)
    }
}

broadcast proof fn lemma_optional_directory_is_judged(
    place: Place,
    private: bool,
    uid: u32,
    host: Host,
    result: Result<bool, TransportIdentityRecoveryError>,
    after: Host,
)
    requires
        #[trigger] ends_reliably(
            optional_directory_plan(place, private, uid),
            host,
            result,
            after,
        ),
    ensures
        after == host,
        result == (if optional_directory_is_trusted(host, place, private, uid) {
            Ok(host.files.contains_key(place))
        } else {
            Err(TransportIdentityRecoveryError::InsecureDirectory)
        }),
{
    broadcast use {group_reliable_steps, group_decided_places};

}

broadcast proof fn lemma_ciphertext_parents_are_judged(
    uid: u32,
    host: Host,
    result: Result<bool, TransportIdentityRecoveryError>,
    after: Host,
)
    requires
        #[trigger] ends_reliably(ciphertext_parents_plan(uid), host, result, after),
    ensures
        after == host,
        result is Err <==> !optional_directory_is_trusted(
            host,
            Place::ApplicationDirectory,
            true,
            uid,
        ) || host.files.contains_key(Place::ApplicationDirectory) && !optional_directory_is_trusted(
            host,
            Place::CredentialDirectory,
            true,
            uid,
        ),
        result matches Err(error) ==> error == TransportIdentityRecoveryError::InsecureDirectory,
{
    broadcast use {group_reliable_steps, lemma_optional_directory_is_judged};

}

broadcast proof fn lemma_binding_parents_are_judged(
    uid: u32,
    host: Host,
    result: Result<bool, TransportIdentityRecoveryError>,
    after: Host,
)
    requires
        #[trigger] ends_reliably(dropin_parents_plan(uid), host, result, after),
    ensures
        after == host,
        result is Err <==> {
            ||| !optional_directory_is_trusted(host, Place::ConfigRoot, false, uid)
            ||| host.files.contains_key(Place::ConfigRoot) && !optional_directory_is_trusted(
                host,
                Place::SystemdDirectory,
                false,
                uid,
            )
            ||| host.files.contains_key(Place::ConfigRoot) && host.files.contains_key(
                Place::SystemdDirectory,
            ) && !optional_directory_is_trusted(host, Place::SystemdUserDirectory, false, uid)
            ||| host.files.contains_key(Place::ConfigRoot) && host.files.contains_key(
                Place::SystemdDirectory,
            ) && host.files.contains_key(Place::SystemdUserDirectory)
                && !optional_directory_is_trusted(host, Place::DropinDirectory, false, uid)
        },
        result matches Err(error) ==> error == TransportIdentityRecoveryError::InsecureDirectory,
{
    broadcast use {group_reliable_steps, lemma_optional_directory_is_judged};

}

/// Every directory on the way to an artifact is trusted where it is there, and the state root is
/// there. A directory below a missing one is not on the way.
pub open spec fn way_is_trusted(host: Host, uid: u32) -> bool {
    &&& host.has_user_directory(Place::StateRoot, uid)
    &&& optional_directory_is_trusted(host, Place::ApplicationDirectory, true, uid)
    &&& host.files.contains_key(Place::ApplicationDirectory) ==> optional_directory_is_trusted(
        host,
        Place::CredentialDirectory,
        true,
        uid,
    )
    &&& optional_directory_is_trusted(host, Place::ConfigRoot, false, uid)
    &&& host.files.contains_key(Place::ConfigRoot) ==> {
        &&& optional_directory_is_trusted(host, Place::SystemdDirectory, false, uid)
        &&& host.files.contains_key(Place::SystemdDirectory) ==> {
            &&& optional_directory_is_trusted(host, Place::SystemdUserDirectory, false, uid)
            &&& host.files.contains_key(Place::SystemdUserDirectory)
                ==> optional_directory_is_trusted(host, Place::DropinDirectory, false, uid)
        }
    }
}

/// Inspection refuses every directory on its way that is there and not trusted.
pub proof fn inspection_refuses_untrusted_directories(
    policy: TransportIdentityProvisioningPolicy,
    ciphertext_path: Seq<u8>,
    uid: u32,
    host: Host,
    result: Result<TransportIdentityPersistentState, TransportIdentityRecoveryError>,
    after: Host,
)
    requires
        ends_reliably(inspect_plan(policy, ciphertext_path, uid), host, result, after),
        !way_is_trusted(host, uid),
    ensures
        result == Err::<TransportIdentityPersistentState, _>(
            TransportIdentityRecoveryError::InsecureDirectory,
        ),
        after == host,
{
    broadcast use {
        group_reliable_steps,
        group_decided_places,
        lemma_ciphertext_parents_are_judged,
        lemma_binding_parents_are_judged,
    };

}

/// Provisioning does not begin where the host is not able: a helper, the TPM2 or the host secret that
/// does not do is refused by its own error, in this order, and nothing changes.
pub proof fn incapable_host_is_refused(
    policy: TransportIdentityProvisioningPolicy,
    ciphertext_path: Seq<u8>,
    uid: u32,
    tpm2: bool,
    host: Host,
    result: Result<TransportIdentity, TransportIdentityProvisioningError>,
    after: Host,
)
    requires
        ends_capably(
            uid,
            tpm2,
            provision_plan(policy, ciphertext_path, uid),
            host,
            result,
            after,
        ),
        roots_are_usable(host, uid),
        rendered_dropin(ciphertext_path, policy.tier()) is Some,
        places_are_free(host),
    ensures
        ({
            let creds = host.files.contains_key(Place::SystemdCreds) && is_secure_system_program(
                host.files[Place::SystemdCreds].metadata,
            );
            let analyze = host.files.contains_key(Place::SystemdAnalyze)
                && is_secure_system_program(host.files[Place::SystemdAnalyze].metadata);
            &&& !creds ==> result == Err::<TransportIdentity, _>(
                TransportIdentityProvisioningError::SystemdCredsUnavailable,
            )
            &&& creds && !analyze ==> result == Err::<TransportIdentity, _>(
                TransportIdentityProvisioningError::SystemdAnalyzeUnavailable,
            )
            &&& creds && analyze && tpm2 && policy is HostKeyOnly ==> result == Err::<
                TransportIdentity,
                _,
            >(TransportIdentityProvisioningError::HostKeyOnlyFallbackForbidden)
            &&& creds && analyze && !tpm2 && policy is Preferred ==> result == Err::<
                TransportIdentity,
                _,
            >(TransportIdentityProvisioningError::Tpm2Unavailable)
            &&& creds && analyze && tpm2 == (policy is Preferred) && !host.files.contains_key(
                Place::HostSecret,
            ) ==> result == Err::<TransportIdentity, _>(
                TransportIdentityProvisioningError::HostSecretUnavailable,
            )
            &&& creds && analyze && tpm2 == (policy is Preferred) && host.files.contains_key(
                Place::HostSecret,
            ) && host_secret_verdict(Lookup::Found(host.files[Place::HostSecret].metadata)) is Err
                ==> result == Err::<TransportIdentity, _>(
                TransportIdentityProvisioningError::HostSecretInsecure,
            )
            &&& !(helpers_are_trusted(host) && tpm2 == (policy is Preferred)) ==> result is Err
                && after == host
        }),
{
    broadcast use {
        group_capable_steps,
        lemma_roots_are_accepted,
        lemma_free_place_is_found,
        lemma_tpm2_is_queried,
    };

}

/// Provisioning does not begin where a root is not trusted or the binding cannot be rendered, and
/// nothing changes then.
pub proof fn unusable_roots_are_refused(
    policy: TransportIdentityProvisioningPolicy,
    ciphertext_path: Seq<u8>,
    uid: u32,
    host: Host,
    result: Result<TransportIdentity, TransportIdentityProvisioningError>,
    after: Host,
)
    requires
        ends_reliably(provision_plan(policy, ciphertext_path, uid), host, result, after),
    ensures
        !host.has_user_directory(Place::StateRoot, uid) ==> result == Err::<TransportIdentity, _>(
            TransportIdentityProvisioningError::InsecureDirectory,
        ) && after == host,
        host.has_user_directory(Place::StateRoot, uid) && host.files.contains_key(Place::ConfigRoot)
            && !host.files[Place::ConfigRoot].metadata.is_symlink && !host.has_user_directory(
            Place::ConfigRoot,
            uid,
        ) ==> result == Err::<TransportIdentity, _>(
            TransportIdentityProvisioningError::InsecureDirectory,
        ) && after == host,
        roots_are_usable(host, uid) && rendered_dropin(ciphertext_path, policy.tier()) is None
            ==> result == Err::<TransportIdentity, _>(
            TransportIdentityProvisioningError::InvalidCredentialBinding,
        ) && after == host,
{
    broadcast use {
        group_reliable_steps,
        group_decided_places,
        crate::capable_host::lemma_exists_reliably,
    };

}

/// On a host that does not fail, with directories that are all there and trusted, custody is absent
/// exactly when neither artifact is there and partial when one is. With both it is established
/// exactly when both are trusted and the binding is that of the policy; the binding of another policy
/// is a mismatch. Nothing changes.
pub proof fn custody_is_classified_by_its_artifacts(
    policy: TransportIdentityProvisioningPolicy,
    ciphertext_path: Seq<u8>,
    uid: u32,
    host: Host,
    result: Result<TransportIdentityPersistentState, TransportIdentityRecoveryError>,
    after: Host,
)
    requires
        ends_reliably(inspect_plan(policy, ciphertext_path, uid), host, result, after),
        directories_are_trusted(host, uid),
        rendered_dropin(ciphertext_path, policy.tier()) is Some,
    ensures
        after == host,
        ({
            let ciphertext = host.files.contains_key(Place::Ciphertext);
            let binding = host.files.contains_key(Place::Dropin);
            &&& !ciphertext && !binding <==> result == Ok::<_, TransportIdentityRecoveryError>(
                TransportIdentityPersistentState::Absent,
            )
            &&& ciphertext != binding <==> result == Err::<TransportIdentityPersistentState, _>(
                TransportIdentityRecoveryError::PartialState,
            )
            &&& ciphertext && binding && host.has_record(
                Place::Ciphertext,
                RecordKind::Ciphertext,
                uid,
            ) && host.has_record(Place::Dropin, RecordKind::Dropin, uid)
                && host.files[Place::Dropin].content.len() <= 4_096 ==> result == (if Some(
                host.files[Place::Dropin].content,
            ) == rendered_dropin(ciphertext_path, policy.tier()) {
                Ok(TransportIdentityPersistentState::Established)
            } else {
                Err(TransportIdentityRecoveryError::CustodyPolicyMismatch)
            })
            &&& ciphertext && binding && !host.has_record(
                Place::Ciphertext,
                RecordKind::Ciphertext,
                uid,
            ) ==> result == Err::<TransportIdentityPersistentState, _>(
                TransportIdentityRecoveryError::CiphertextInsecure,
            )
            &&& ciphertext && host.has_record(Place::Ciphertext, RecordKind::Ciphertext, uid)
                && binding && !host.has_record(Place::Dropin, RecordKind::Dropin, uid) ==> result
                == Err::<TransportIdentityPersistentState, _>(
                TransportIdentityRecoveryError::DropinInsecure,
            )
        }),
{
    inspection_is_decided_by_the_artifacts(policy, ciphertext_path, uid, host, result, after);
}

} // verus!
