//! What a restart and a retried first run come to when something is missing or belongs to another
//! owner.
use vstd::prelude::*;

use crate::capable_host::{
    ends_capably, group_capable_steps, trusted_custody_is_recovered_from_its_binding,
};
use crate::domain::{transport_identity_of, DeviceLifecycle, PublicIdentityView};
use crate::durable_registry_authority::DurableRegistryAuthorityError;
use crate::environment::HostEnvironment;
use crate::host::Host;
use crate::installation::Installation;
use crate::outside::Place;
use crate::owner_established_startup_authority::{
    verify_authority_plan, verify_established_plan, verify_records_plan,
    OwnerEstablishedStartupAuthorityError, OwnerEstablishedStartupAuthorityProof,
};
use crate::owner_first_setup_bootstrap_inputs::{InputsView, OwnerIdentityView};
use crate::owner_first_setup_retry_call_site_composition::{
    retry_inputs_plan, OwnerFirstSetupRetryCallSiteError,
};
use crate::owner_first_setup_transport_identity_recovery::{
    recover_setup_identity_plan, OwnerFirstSetupTransportIdentityRecoveryError,
};
use crate::owner_identity_laws::{identity_place_is_trusted, loaded_identity, stored_identity};
use crate::registry::{MembershipLifecycle, WorkspaceRole};
use crate::registry_laws::Tables;
use crate::transport_custody_laws::sealed_identity;
use crate::transport_identity_provisioning::{
    ciphertext_path_below, rendered_dropin, TransportIdentityProvisioningPolicy,
    TransportIdentityRecoveryError,
};
use crate::transport_identity_recovery::recover_established_plan;
use crate::working_installation::{
    ends_well, group_well_steps, is_empty, lemma_working_registry_part,
};
use crate::working_registry::{device_is_read, membership_is_read};
use crate::working_startup_laws::{
    database_is_trusted, lemma_existing_authority_is_opened, lemma_trusted_identity_is_loaded,
    restart_is_trusted,
};

verus! {

/// Why the stored records are not those of the owner, if they are not: the membership has to be that
/// of the active owner, and the device has to be enrolled under the owner's names and key with the
/// sealed transport identity.
pub open spec fn records_verdict(
    tables: Tables,
    owner: OwnerIdentityView,
    key: PublicIdentityView,
    fingerprint: Seq<u8>,
) -> Option<OwnerEstablishedStartupAuthorityError> {
    if tables.membership_record(owner.workspace, owner.user) is None {
        Some(OwnerEstablishedStartupAuthorityError::OwnerMembershipMissing)
    } else if tables.membership(owner.workspace, owner.user) is None {
        Some(
            OwnerEstablishedStartupAuthorityError::AuthorityRead(
                DurableRegistryAuthorityError::InvalidAuthority,
            ),
        )
    } else if tables.membership(owner.workspace, owner.user)->0.role != WorkspaceRole::Owner
        || tables.membership(owner.workspace, owner.user)->0.lifecycle
        != MembershipLifecycle::Active {
        Some(OwnerEstablishedStartupAuthorityError::OwnerMembershipNotCurrent)
    } else if tables.device_record(owner.device) is None {
        Some(OwnerEstablishedStartupAuthorityError::OwnerDeviceMissing)
    } else if tables.device(owner.device) is None {
        Some(
            OwnerEstablishedStartupAuthorityError::AuthorityRead(
                DurableRegistryAuthorityError::InvalidAuthority,
            ),
        )
    } else if tables.device(owner.device)->0.binding.lifecycle != DeviceLifecycle::Enrolled
        || tables.device(owner.device)->0.binding.workspace != owner.workspace || tables.device(
        owner.device,
    )->0.binding.user != owner.user || tables.device(owner.device)->0.binding.public_identity != key
        || tables.device(owner.device)->0.transport_identity != Some(
        transport_identity_of(fingerprint),
    ) {
        Some(OwnerEstablishedStartupAuthorityError::OwnerDeviceNotCurrent)
    } else {
        None
    }
}

broadcast proof fn lemma_records_are_judged(
    uid: u32,
    tpm2: bool,
    owner: OwnerIdentityView,
    key: PublicIdentityView,
    policy: TransportIdentityProvisioningPolicy,
    identity: crate::domain::TransportIdentity,
    before: Installation,
    result: Result<OwnerEstablishedStartupAuthorityProof, OwnerEstablishedStartupAuthorityError>,
    after: Installation,
)
    requires
        #[trigger] ends_well(
            uid,
            tpm2,
            verify_records_plan(owner, key, policy, identity),
            before,
            result,
            after,
        ),
        before.database.open is None,
    ensures
        match records_verdict(before.database.committed, owner, key, identity@) {
            Some(error) => result == Err::<OwnerEstablishedStartupAuthorityProof, _>(error),
            None => result matches Ok(proof) && proof.policy() == policy,
        },
{
    broadcast use {
        group_well_steps,
        lemma_working_registry_part,
        membership_is_read,
        device_is_read,
        crate::owner_established_startup_authority::lemma_proof_of,
        crate::domain::lemma_transport_identity_of,
    };

}

broadcast proof fn lemma_authority_is_judged(
    uid: u32,
    tpm2: bool,
    owner: OwnerIdentityView,
    key: PublicIdentityView,
    recovered: (TransportIdentityProvisioningPolicy, Seq<u8>),
    environment: HostEnvironment,
    before: Installation,
    result: Result<OwnerEstablishedStartupAuthorityProof, OwnerEstablishedStartupAuthorityError>,
    after: Installation,
)
    requires
        #[trigger] ends_well(
            uid,
            tpm2,
            verify_authority_plan(owner, key, recovered, environment),
            before,
            result,
            after,
        ),
        environment.uid == uid,
        environment.state_root_path() is Some,
        database_is_trusted(before.host, uid),
        !is_empty(before.database.committed),
        crate::startup_laws::is_fingerprint(recovered.1),
    ensures
        match records_verdict(before.database.committed, owner, key, recovered.1) {
            Some(error) => result == Err::<OwnerEstablishedStartupAuthorityProof, _>(error),
            None => result matches Ok(proof) && proof.policy() == recovered.0,
        },
{
    broadcast use {group_well_steps, lemma_existing_authority_is_opened, lemma_records_are_judged};

    let identity = choose|identity: crate::domain::TransportIdentity| #[trigger]
        identity@ == recovered.1;
    crate::domain::lemma_transport_identity_of(identity);
    assert(transport_identity_of(recovered.1)@ == recovered.1);
}

/// On a working installation whose custody, identity and database are trusted, a restart comes to
/// what the stored records decide: it is verified under the policy of the custody exactly when they
/// are the owner's, and otherwise the first thing that is wrong with them is reported.
pub proof fn restart_is_decided_by_the_records(
    tpm2: bool,
    public_device_identity: PublicIdentityView,
    policy: TransportIdentityProvisioningPolicy,
    environment: HostEnvironment,
    before: Installation,
    result: Result<OwnerEstablishedStartupAuthorityProof, OwnerEstablishedStartupAuthorityError>,
    after: Installation,
)
    requires
        ends_well(
            environment.uid,
            tpm2,
            verify_established_plan(public_device_identity, environment),
            before,
            result,
            after,
        ),
        restart_is_trusted(before.host, environment),
        sealed_identity(before.host) is Some,
        crate::startup_laws::is_fingerprint(sealed_identity(before.host)->0),
        before.host.content(Place::Dropin) == rendered_dropin(
            ciphertext_path_below(environment.state_root_path()->0),
            policy.tier(),
        ),
        !is_empty(before.database.committed),
    ensures
        match records_verdict(
            before.database.committed,
            stored_identity(before.host)->0,
            public_device_identity,
            sealed_identity(before.host)->0,
        ) {
            Some(error) => result == Err::<OwnerEstablishedStartupAuthorityProof, _>(error),
            None => result matches Ok(proof) && proof.policy() == policy,
        },
{
    broadcast use {group_well_steps, lemma_trusted_identity_is_loaded, lemma_authority_is_judged};

    let uid = environment.uid;
    let path = ciphertext_path_below(environment.state_root_path()->0);
    assert forall|
        recovered: Result<
            (TransportIdentityProvisioningPolicy, Seq<u8>),
            TransportIdentityRecoveryError,
        >,
        host: Host,
    | #[trigger]
        ends_capably(
            uid,
            tpm2,
            recover_established_plan(path, uid),
            before.host,
            recovered,
            host,
        ) implies recovered == Ok::<_, TransportIdentityRecoveryError>(
        (policy, sealed_identity(before.host)->0),
    ) && host == before.host by {
        trusted_custody_is_recovered_from_its_binding(
            policy,
            path,
            uid,
            tpm2,
            before.host,
            recovered,
            host,
        );
    }
}

/// A restart without an identity that can be loaded is refused by the reason for it, before anything
/// else is looked at.
pub proof fn restart_without_an_identity_is_refused(
    tpm2: bool,
    public_device_identity: PublicIdentityView,
    environment: HostEnvironment,
    before: Installation,
    result: Result<OwnerEstablishedStartupAuthorityProof, OwnerEstablishedStartupAuthorityError>,
    after: Installation,
)
    requires
        ends_well(
            environment.euid,
            tpm2,
            verify_established_plan(public_device_identity, environment),
            before,
            result,
            after,
        ),
        environment.state_root_path() is Some,
        identity_place_is_trusted(before.host, true, environment.euid),
        loaded_identity(before.host, environment.euid) is Err,
    ensures
        result == Err::<OwnerEstablishedStartupAuthorityProof, _>(
            OwnerEstablishedStartupAuthorityError::OwnerIdentity(
                loaded_identity(before.host, environment.euid)->Err_0,
            ),
        ),
        after == before,
{
    broadcast use {group_well_steps, lemma_trusted_identity_is_loaded};

}

/// A first run that is tried again for another owner than the stored one is refused before anything
/// is made or recovered, and nothing changes.
pub proof fn other_owner_is_refused(
    tpm2: bool,
    owner: OwnerIdentityView,
    policy: TransportIdentityProvisioningPolicy,
    public_device_identity: PublicIdentityView,
    environment: HostEnvironment,
    host: Host,
    composed: Result<InputsView, OwnerFirstSetupRetryCallSiteError>,
    after: Host,
    recovered: Result<Seq<u8>, OwnerFirstSetupTransportIdentityRecoveryError>,
    after_recovery: Host,
)
    requires
        ends_capably(
            environment.euid,
            tpm2,
            retry_inputs_plan(owner, policy, public_device_identity, environment),
            host,
            composed,
            after,
        ),
        ends_capably(
            environment.euid,
            tpm2,
            recover_setup_identity_plan(owner, policy, environment),
            host,
            recovered,
            after_recovery,
        ),
        environment.state_root_path() is Some,
        identity_place_is_trusted(host, true, environment.euid),
        loaded_identity(host, environment.euid) matches Ok(stored) && stored != owner,
    ensures
        composed == Err::<InputsView, _>(OwnerFirstSetupRetryCallSiteError::OwnerIdentityMismatch),
        after == host,
        recovered == Err::<Seq<u8>, _>(
            OwnerFirstSetupTransportIdentityRecoveryError::OwnerIdentityMismatch,
        ),
        after_recovery == host,
{
    broadcast use {group_capable_steps, lemma_trusted_identity_is_loaded};

}

} // verus!
