//! Without a root that the environment gives, nothing is asked and nothing is done.
use vstd::prelude::*;
use vstd::utf8::encode_utf8;

use crate::durable_registry_sqlite_custody::{
    open_authority_plan, open_existing_authority_plan, DurableRegistrySqliteCustodyError,
};
use crate::durable_registry_sqlite_store::RegistryReply;
use crate::environment::HostEnvironment;
use crate::host::{ends, lemma_bind_ends, lemma_finish_ends, Host};
use crate::outside::{HostPlan, OutsideReply, OutsideRequest};
use crate::owner_first_run_setup_intent::{
    intent_from_environment, OwnerFirstRunSetupIntentError,
};
use crate::owner_first_setup_bootstrap_inputs::{
    ensure_identity_from_environment, ensure_identity_plan, load_identity_from_environment,
    load_identity_plan, IdentityOutcomeView, OwnerFirstSetupBootstrapInputError, OwnerIdentityView,
};
use crate::paths::joined;
use crate::plan::{follow, Progress};
use crate::startup_plan::{follow_startup, StartupRequest};
use crate::transport_identity_provisioning::{
    provision_from_environment, provision_plan, ProvisionedView,
    TransportIdentityProvisioningError, TransportIdentityProvisioningPolicy,
    TransportIdentityRecoveryError,
};
use crate::transport_identity_recovery::with_roots;

verus! {

/// Without a state root, an intent and an identity are refused before anything is asked; with one,
/// they are sought below it, and for the effective user.
pub proof fn state_root_comes_before_everything<R>(
    environment: HostEnvironment,
    plan: HostPlan<Result<R, OwnerFirstRunSetupIntentError>>,
    replies: Seq<OutsideReply<Seq<u8>>>,
)
    ensures
        environment.state_root_path() is None ==> {
            &&& follow(intent_from_environment(environment, plan), replies).0 == Progress::<
                OutsideRequest<Seq<u8>>,
                Result<R, OwnerFirstRunSetupIntentError>,
            >::Done(Err(OwnerFirstRunSetupIntentError::InvalidStateRoot))
            &&& follow(load_identity_from_environment(environment), replies).0 == Progress::<
                OutsideRequest<Seq<u8>>,
                Result<OwnerIdentityView, OwnerFirstSetupBootstrapInputError>,
            >::Done(Err(OwnerFirstSetupBootstrapInputError::InvalidStateRoot))
            &&& follow(ensure_identity_from_environment(environment), replies).0 == Progress::<
                OutsideRequest<Seq<u8>>,
                Result<IdentityOutcomeView, OwnerFirstSetupBootstrapInputError>,
            >::Done(Err(OwnerFirstSetupBootstrapInputError::InvalidStateRoot))
        },
        environment.state_root_path() is Some ==> {
            &&& intent_from_environment(environment, plan) == plan
            &&& load_identity_from_environment(environment) == load_identity_plan(
                true,
                environment.euid,
            )
            &&& ensure_identity_from_environment(environment) == ensure_identity_plan(
                true,
                environment.euid,
            )
        },
{
}

/// Without a state root, and then without a configuration root, custody is neither recovered nor
/// provisioned, and nothing is asked.
pub proof fn both_roots_come_before_custody<R>(
    environment: HostEnvironment,
    plan: spec_fn(Seq<u8>) -> HostPlan<Result<R, TransportIdentityRecoveryError>>,
    policy: TransportIdentityProvisioningPolicy,
    replies: Seq<OutsideReply<Seq<u8>>>,
)
    ensures
        environment.state_root_path() is None ==> {
            &&& follow(with_roots(environment, plan), replies).0 == Progress::<
                OutsideRequest<Seq<u8>>,
                Result<R, TransportIdentityRecoveryError>,
            >::Done(Err(TransportIdentityRecoveryError::InvalidStateRoot))
            &&& follow(provision_from_environment(policy, environment), replies).0 == Progress::<
                OutsideRequest<Seq<u8>>,
                Result<ProvisionedView, TransportIdentityProvisioningError>,
            >::Done(Err(TransportIdentityProvisioningError::InvalidStateRoot))
        },
        environment.state_root_path() is Some && environment.config_root_path() is None ==> {
            &&& follow(with_roots(environment, plan), replies).0 == Progress::<
                OutsideRequest<Seq<u8>>,
                Result<R, TransportIdentityRecoveryError>,
            >::Done(Err(TransportIdentityRecoveryError::InvalidConfigRoot))
            &&& follow(provision_from_environment(policy, environment), replies).0 == Progress::<
                OutsideRequest<Seq<u8>>,
                Result<ProvisionedView, TransportIdentityProvisioningError>,
            >::Done(Err(TransportIdentityProvisioningError::InvalidConfigRoot))
        },
        environment.state_root_path() is Some && environment.config_root_path() is Some
            ==> with_roots(environment, plan) == plan(
            joined(
                environment.state_root_path()->0,
                encode_utf8(
                    "private-remote-workspace/credentials/transport-identity-private-key-v1.cred"@,
                ),
            ),
        ),
{
}

/// Without a state root the database is not opened, and nothing is asked.
pub proof fn state_root_comes_before_the_database(
    environment: HostEnvironment,
    host: Seq<OutsideReply<Seq<u8>>>,
    registry: Seq<RegistryReply<Seq<char>, Seq<u8>>>,
)
    requires
        environment.state_root_path() is None,
    ensures
        follow_startup(open_authority_plan(environment), host, registry).progress == Progress::<
            StartupRequest<Seq<char>, Seq<u8>>,
            Result<(), DurableRegistrySqliteCustodyError>,
        >::Done(Err(DurableRegistrySqliteCustodyError::InvalidStateRoot)),
        follow_startup(open_existing_authority_plan(environment), host, registry).progress
            == Progress::<
            StartupRequest<Seq<char>, Seq<u8>>,
            Result<(), DurableRegistrySqliteCustodyError>,
        >::Done(Err(DurableRegistrySqliteCustodyError::InvalidStateRoot)),
{
}

/// What was provisioned is reported with the identity of the key and with both places: that of the
/// ciphertext below the state root, and that of the binding below the configuration root.
pub proof fn provisioned_custody_is_reported_with_its_places(
    policy: TransportIdentityProvisioningPolicy,
    environment: HostEnvironment,
    host: Host,
    result: Result<ProvisionedView, TransportIdentityProvisioningError>,
    after: Host,
)
    requires
        ends(provision_from_environment(policy, environment), host, result, after),
        environment.state_root_path() is Some,
        environment.config_root_path() is Some,
    ensures
        ({
            let place = joined(
                environment.state_root_path()->0,
                encode_utf8(
                    "private-remote-workspace/credentials/transport-identity-private-key-v1.cred"@,
                ),
            );
            match result {
                Ok(provisioned) => {
                    &&& provisioned.encrypted_credential_path == place
                    &&& provisioned.service_dropin_path == joined(
                        environment.config_root_path()->0,
                        encode_utf8(
                            "systemd/user/prw-agent.service.d/30-transport-identity-credential.conf"@,
                        ),
                    )
                    &&& exists|identity: crate::domain::TransportIdentity| #[trigger]
                        identity@ == provisioned.transport_identity && ends(
                            provision_plan(policy, place, environment.uid),
                            host,
                            Ok::<_, TransportIdentityProvisioningError>(identity),
                            after,
                        )
                },
                Err(error) => ends(
                    provision_plan(policy, place, environment.uid),
                    host,
                    Err::<crate::domain::TransportIdentity, _>(error),
                    after,
                ),
            }
        }),
{
    let state_root = environment.state_root_path()->0;
    let config_root = environment.config_root_path()->0;
    lemma_provisioned_ends(policy, environment, state_root, config_root, host, result, after);
}

proof fn lemma_provisioned_ends(
    policy: TransportIdentityProvisioningPolicy,
    environment: HostEnvironment,
    state_root: Seq<u8>,
    config_root: Seq<u8>,
    host: Host,
    result: Result<ProvisionedView, TransportIdentityProvisioningError>,
    after: Host,
)
    requires
        ends(provision_from_environment(policy, environment), host, result, after),
        environment.state_root_path() == Some(state_root),
        environment.config_root_path() == Some(config_root),
    ensures
        exists|provisioned: Result<
            crate::domain::TransportIdentity,
            TransportIdentityProvisioningError,
        >|
            #[trigger] ends(
                provision_plan(
                    policy,
                    crate::transport_identity_provisioning::ciphertext_path_below(state_root),
                    environment.uid,
                ),
                host,
                provisioned,
                after,
            ) && (match provisioned {
                Ok(identity) => result == Ok::<_, TransportIdentityProvisioningError>(
                    ProvisionedView {
                        transport_identity: identity@,
                        encrypted_credential_path:
                            crate::transport_identity_provisioning::ciphertext_path_below(
                            state_root,
                        ),
                        service_dropin_path:
                            crate::transport_identity_provisioning::dropin_path_below(config_root),
                    },
                ),
                Err(error) => result == Err::<ProvisionedView, _>(error),
            }),
{
    broadcast use {lemma_finish_ends, lemma_bind_ends};

}

} // verus!
