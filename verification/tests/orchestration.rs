//! How the steps of the first run and of a restart are put together.
use std::cell::Cell;

use ownspace::domain::{
    DeviceIdentityAlgorithm, DeviceIdentityPublicKeyEncoding, PublicIdentityMaterial,
    TransportIdentity,
};
use ownspace::durable_registry_authority::DurableRegistryAuthorityError;
use ownspace::durable_registry_sqlite_custody::DurableRegistrySqliteCustodyError;
use ownspace::durable_registry_sqlite_store::OwnerPcLocalAuthorityBootstrapOutcome;
use ownspace::owner_first_run_orchestration::{
    execute_first_run_orchestration_and_retire_setup_intent_with,
    execute_first_run_orchestration_from_setup_intent_with, execute_first_run_orchestration_with,
    OwnerFirstRunOrchestrationAndRetirementOutcome, OwnerFirstRunOrchestrationError,
};
use ownspace::owner_first_run_setup_intent::{
    OwnerFirstRunSetupIntentError, OwnerFirstRunSetupIntentPresence,
    OwnerFirstRunSetupIntentRetirementOutcome, OwnerFirstRunSetupIntentWriteOutcome,
};
use ownspace::owner_first_setup_bootstrap_input_composition::compose_owner_first_setup_bootstrap_inputs_from_plan;
use ownspace::owner_first_setup_bootstrap_inputs::{
    generate_owner_logical_identity_record, OwnerFirstSetupBootstrapInputError,
    OwnerLogicalIdentityRecordOutcome,
};
use ownspace::owner_first_setup_custody_policy_orchestration::{
    compose_owner_first_setup_custody_policy_plan, OwnerFirstSetupTransportCustodySelection,
};
use ownspace::owner_first_setup_execution_composition::execute_and_compose_with_transport_identity;
use ownspace::owner_first_setup_local_authority_bootstrap_execution::{
    execute_local_authority_bootstrap_with, OwnerFirstSetupLocalAuthorityBootstrapError,
};
use ownspace::owner_first_setup_retry_call_site_composition::{
    execute_retry_branch_with,
    validate_plan_owner_identity as validate_retry_plan_owner_identity,
    OwnerFirstSetupRetryCallSiteError,
};
use ownspace::owner_first_setup_transport_identity_recovery::{
    validate_plan_owner_identity,
    OwnerFirstSetupTransportIdentityRecoveryError,
};
use ownspace::owner_startup_state_dispatch::{
    dispatch_startup_state_with, DispatchError, DispatchOutcome,
};
use ownspace::prw_first_run::{
    execute_with_writer, parse_transport_custody_selection, report, selection_token,
    PrwFirstRunCliError,
};
use ownspace::transport_identity_provisioning::{
    TransportIdentityPersistentState, TransportIdentityProvisioningError,
    TransportIdentityProvisioningPolicy, TRANSPORT_IDENTITY_HOST_KEY_ONLY_CUSTODY_TIER,
    TRANSPORT_IDENTITY_PREFERRED_CUSTODY_TIER,
};

fn public_identity() -> PublicIdentityMaterial {
    PublicIdentityMaterial::new(
        DeviceIdentityAlgorithm::EcdsaP256Sha256,
        DeviceIdentityPublicKeyEncoding::SubjectPublicKeyInfoDer,
        vec![1, 2, 3],
    )
    .expect("public identity")
}

fn args(values: &[&str]) -> Vec<Vec<u8>> {
    values.iter().map(|value| value.as_bytes().to_vec()).collect()
}

#[test]
fn composition_preserves_plan_identity_public_identity_and_transport_identity() {
    let record = generate_owner_logical_identity_record().expect("generate disposable record");
    let plan = compose_owner_first_setup_custody_policy_plan(
        &record,
        OwnerFirstSetupTransportCustodySelection::PreferredDefault,
    );
    let public_identity = PublicIdentityMaterial::new(
        DeviceIdentityAlgorithm::EcdsaP256Sha256,
        DeviceIdentityPublicKeyEncoding::SubjectPublicKeyInfoDer,
        vec![1, 2, 3],
    )
    .expect("public identity");
    let transport_identity = TransportIdentity::new([0x59; 32]).expect("transport identity");

    let inputs = compose_owner_first_setup_bootstrap_inputs_from_plan(
        &plan,
        &public_identity,
        transport_identity,
    );

    assert_eq!(&inputs.binding().workspace_id, plan.workspace_id());
    assert_eq!(&inputs.binding().user_id, plan.user_id());
    assert_eq!(&inputs.binding().device_id, plan.device_id());
    assert_eq!(&inputs.binding().public_identity, &public_identity);
    assert!(inputs.binding().lifecycle.can_participate());
    assert_eq!(inputs.transport_identity(), transport_identity);
}

#[test]
fn plan_preserves_exact_owner_identity_for_each_explicit_selection() {
    let record = generate_owner_logical_identity_record().expect("generate disposable record");

    for selection in [
        OwnerFirstSetupTransportCustodySelection::PreferredDefault,
        OwnerFirstSetupTransportCustodySelection::ExplicitHostKeyOnlyFallback,
    ] {
        let plan = compose_owner_first_setup_custody_policy_plan(&record, selection);
        assert_eq!(plan.workspace_id(), record.workspace_id());
        assert_eq!(plan.user_id(), record.user_id());
        assert_eq!(plan.device_id(), record.device_id());
        assert_eq!(plan.transport_selection(), selection);
    }
}

#[test]
fn setup_selection_maps_to_authoritative_provisioning_policy() {
    let preferred = OwnerFirstSetupTransportCustodySelection::PreferredDefault;
    assert_eq!(
        preferred.provisioning_policy(),
        TransportIdentityProvisioningPolicy::Preferred
    );
    assert_eq!(
        preferred.provisioning_policy().custody_tier(),
        TRANSPORT_IDENTITY_PREFERRED_CUSTODY_TIER
    );

    let fallback = OwnerFirstSetupTransportCustodySelection::ExplicitHostKeyOnlyFallback;
    assert_eq!(
        fallback.provisioning_policy(),
        TransportIdentityProvisioningPolicy::HostKeyOnly
    );
    assert_eq!(
        fallback.provisioning_policy().custody_tier(),
        TRANSPORT_IDENTITY_HOST_KEY_ONLY_CUSTODY_TIER
    );
}

#[test]
fn validation_composes_one_disposable_transport_result_without_production_provisioning() {
    let record = generate_owner_logical_identity_record().expect("generate disposable record");
    let plan = compose_owner_first_setup_custody_policy_plan(
        &record,
        OwnerFirstSetupTransportCustodySelection::PreferredDefault,
    );
    let public_identity = PublicIdentityMaterial::new(
        DeviceIdentityAlgorithm::EcdsaP256Sha256,
        DeviceIdentityPublicKeyEncoding::SubjectPublicKeyInfoDer,
        vec![1, 2, 3],
    )
    .expect("public identity");
    let disposable_transport =
        TransportIdentity::new([0x5a; 32]).expect("disposable transport identity");
    let calls = Cell::new(0_u8);

    let inputs =
        execute_and_compose_with_transport_identity(&plan, &public_identity, |selected_plan| {
            calls.set(calls.get() + 1);
            assert_eq!(
                selected_plan.transport_selection(),
                OwnerFirstSetupTransportCustodySelection::PreferredDefault
            );
            Ok(disposable_transport)
        })
        .expect("compose disposable validation input");

    assert_eq!(calls.get(), 1);
    assert_eq!(&inputs.binding().workspace_id, plan.workspace_id());
    assert_eq!(&inputs.binding().user_id, plan.user_id());
    assert_eq!(&inputs.binding().device_id, plan.device_id());
    assert_eq!(&inputs.binding().public_identity, &public_identity);
    assert_eq!(inputs.transport_identity(), disposable_transport);
}

#[test]
fn successful_inputs_open_authority_once_and_forward_exact_bootstrap_tuple() {
    let record = generate_owner_logical_identity_record().expect("owner record");
    let plan = compose_owner_first_setup_custody_policy_plan(
        &record,
        OwnerFirstSetupTransportCustodySelection::PreferredDefault,
    );
    let public_identity = public_identity();
    let transport = TransportIdentity::new([0x71; 32]).expect("transport");
    let open_calls = Cell::new(0_u8);
    let bootstrap_calls = Cell::new(0_u8);

    let outcome = execute_local_authority_bootstrap_with(
        &plan,
        &public_identity,
        |selected_plan, selected_public_identity| {
            Ok(compose_owner_first_setup_bootstrap_inputs_from_plan(
                selected_plan,
                selected_public_identity,
                transport,
            ))
        },
        || {
            open_calls.set(open_calls.get() + 1);
            Ok(())
        },
        |_authority, inputs| {
            bootstrap_calls.set(bootstrap_calls.get() + 1);
            let (binding, selected_transport) = inputs.into_parts();
            assert_eq!(&binding.workspace_id, plan.workspace_id());
            assert_eq!(&binding.user_id, plan.user_id());
            assert_eq!(&binding.device_id, plan.device_id());
            assert_eq!(&binding.public_identity, &public_identity);
            assert_eq!(selected_transport, transport);
            Ok(OwnerPcLocalAuthorityBootstrapOutcome::Initialized)
        },
    )
    .expect("bootstrap execution");

    assert_eq!(outcome, OwnerPcLocalAuthorityBootstrapOutcome::Initialized);
    assert_eq!(open_calls.get(), 1);
    assert_eq!(bootstrap_calls.get(), 1);
}

#[test]
fn input_failure_prevents_database_open_and_bootstrap() {
    let record = generate_owner_logical_identity_record().expect("owner record");
    let plan = compose_owner_first_setup_custody_policy_plan(
        &record,
        OwnerFirstSetupTransportCustodySelection::PreferredDefault,
    );
    let public_identity = public_identity();
    let open_calls = Cell::new(0_u8);
    let bootstrap_calls = Cell::new(0_u8);

    let result = execute_local_authority_bootstrap_with(
        &plan,
        &public_identity,
        |_selected_plan, _selected_public_identity| {
            Err(OwnerFirstSetupRetryCallSiteError::OwnerIdentityMismatch)
        },
        || {
            open_calls.set(open_calls.get() + 1);
            Ok(())
        },
        |_authority, _inputs| {
            bootstrap_calls.set(bootstrap_calls.get() + 1);
            Err(DurableRegistryAuthorityError::InvalidAuthority)
        },
    );

    assert!(result.is_err());
    assert_eq!(open_calls.get(), 0);
    assert_eq!(bootstrap_calls.get(), 0);
}

#[test]
fn authority_failure_is_returned_without_retry_or_alternate_provider() {
    let record = generate_owner_logical_identity_record().expect("owner record");
    let plan = compose_owner_first_setup_custody_policy_plan(
        &record,
        OwnerFirstSetupTransportCustodySelection::PreferredDefault,
    );
    let public_identity = public_identity();
    let transport = TransportIdentity::new([0x72; 32]).expect("transport");
    let bootstrap_calls = Cell::new(0_u8);

    let result = execute_local_authority_bootstrap_with(
        &plan,
        &public_identity,
        |selected_plan, selected_public_identity| {
            Ok(compose_owner_first_setup_bootstrap_inputs_from_plan(
                selected_plan,
                selected_public_identity,
                transport,
            ))
        },
        || Ok::<(), DurableRegistrySqliteCustodyError>(()),
        |_authority, _inputs| {
            bootstrap_calls.set(bootstrap_calls.get() + 1);
            Err(DurableRegistryAuthorityError::CurrentnessConflict)
        },
    );

    assert!(result.is_err());
    assert_eq!(bootstrap_calls.get(), 1);
}

#[test]
fn retry_dispatches_absent_state_only_to_creation() {
    let record = generate_owner_logical_identity_record().expect("owner record");
    let plan = compose_owner_first_setup_custody_policy_plan(
        &record,
        OwnerFirstSetupTransportCustodySelection::PreferredDefault,
    );
    let public_identity = public_identity();
    let transport = TransportIdentity::new([0x61; 32]).expect("transport identity");
    let creation_calls = Cell::new(0_u8);
    let recovery_calls = Cell::new(0_u8);

    let inputs = execute_retry_branch_with(
        TransportIdentityPersistentState::Absent,
        &plan,
        &public_identity,
        |selected_plan, selected_public_identity| {
            creation_calls.set(creation_calls.get() + 1);
            Ok(compose_owner_first_setup_bootstrap_inputs_from_plan(
                selected_plan,
                selected_public_identity,
                transport,
            ))
        },
        |_selected_plan| {
            recovery_calls.set(recovery_calls.get() + 1);
            Err(OwnerFirstSetupTransportIdentityRecoveryError::OwnerIdentityMismatch)
        },
    )
    .expect("absent state uses creation branch");

    assert_eq!(creation_calls.get(), 1);
    assert_eq!(recovery_calls.get(), 0);
    assert_eq!(inputs.transport_identity(), transport);
}

#[test]
fn retry_dispatches_established_state_only_to_recovery() {
    let record = generate_owner_logical_identity_record().expect("owner record");
    let plan = compose_owner_first_setup_custody_policy_plan(
        &record,
        OwnerFirstSetupTransportCustodySelection::PreferredDefault,
    );
    let public_identity = public_identity();
    let transport = TransportIdentity::new([0x62; 32]).expect("transport identity");
    let creation_calls = Cell::new(0_u8);
    let recovery_calls = Cell::new(0_u8);

    let inputs = execute_retry_branch_with(
        TransportIdentityPersistentState::Established,
        &plan,
        &public_identity,
        |_selected_plan, _selected_public_identity| {
            creation_calls.set(creation_calls.get() + 1);
            Err(TransportIdentityProvisioningError::AlreadyProvisioned)
        },
        |_selected_plan| {
            recovery_calls.set(recovery_calls.get() + 1);
            Ok(transport)
        },
    )
    .expect("established state uses recovery branch");

    assert_eq!(creation_calls.get(), 0);
    assert_eq!(recovery_calls.get(), 1);
    assert_eq!(inputs.transport_identity(), transport);
}

#[test]
fn retry_plan_must_match_persisted_owner_identity() {
    let first = generate_owner_logical_identity_record().expect("first owner record");
    let second = generate_owner_logical_identity_record().expect("second owner record");
    let plan = compose_owner_first_setup_custody_policy_plan(
        &first,
        OwnerFirstSetupTransportCustodySelection::PreferredDefault,
    );

    assert!(validate_retry_plan_owner_identity(&plan, &first).is_ok());
    assert!(validate_retry_plan_owner_identity(&plan, &second).is_err());
}

#[test]
fn exact_owner_record_matches_each_explicit_custody_plan() {
    let record = generate_owner_logical_identity_record().expect("generate disposable record");

    for selection in [
        OwnerFirstSetupTransportCustodySelection::PreferredDefault,
        OwnerFirstSetupTransportCustodySelection::ExplicitHostKeyOnlyFallback,
    ] {
        let plan = compose_owner_first_setup_custody_policy_plan(&record, selection);
        validate_plan_owner_identity(&plan, &record).expect("exact owner identity must match");
    }
}

#[test]
fn different_owner_record_is_rejected() {
    let first = generate_owner_logical_identity_record().expect("generate first record");
    let second = generate_owner_logical_identity_record().expect("generate second record");
    let plan = compose_owner_first_setup_custody_policy_plan(
        &first,
        OwnerFirstSetupTransportCustodySelection::PreferredDefault,
    );

    assert!(validate_plan_owner_identity(&plan, &second).is_err());
}

#[test]
fn present_routes_only_to_first_run() {
    let identity = public_identity();
    let first_run_calls = Cell::new(0_u8);
    let established_calls = Cell::new(0_u8);

    let result = dispatch_startup_state_with(
        &identity,
        || Ok::<_, &'static str>(OwnerFirstRunSetupIntentPresence::Present),
        |selected_identity| {
            first_run_calls.set(first_run_calls.get() + 1);
            assert_eq!(selected_identity, &identity);
            Ok::<_, &'static str>(11_u8)
        },
        |_selected_identity| {
            established_calls.set(established_calls.get() + 1);
            Ok::<_, &'static str>(22_u8)
        },
    );

    assert_eq!(result, Ok(DispatchOutcome::FirstRun(11)));
    assert_eq!(first_run_calls.get(), 1);
    assert_eq!(established_calls.get(), 0);
}

#[test]
fn exact_absence_routes_only_to_established_restart() {
    let identity = public_identity();
    let first_run_calls = Cell::new(0_u8);
    let established_calls = Cell::new(0_u8);

    let result = dispatch_startup_state_with(
        &identity,
        || Ok::<_, &'static str>(OwnerFirstRunSetupIntentPresence::Absent),
        |_selected_identity| {
            first_run_calls.set(first_run_calls.get() + 1);
            Ok::<_, &'static str>(11_u8)
        },
        |selected_identity| {
            established_calls.set(established_calls.get() + 1);
            assert_eq!(selected_identity, &identity);
            Ok::<_, &'static str>(22_u8)
        },
    );

    assert_eq!(result, Ok(DispatchOutcome::EstablishedRestart(22)));
    assert_eq!(first_run_calls.get(), 0);
    assert_eq!(established_calls.get(), 1);
}

#[test]
fn classification_failure_invokes_neither_authority_path() {
    let identity = public_identity();
    let first_run_calls = Cell::new(0_u8);
    let established_calls = Cell::new(0_u8);

    let result = dispatch_startup_state_with(
        &identity,
        || Err::<OwnerFirstRunSetupIntentPresence, _>("invalid-intent"),
        |_selected_identity| {
            first_run_calls.set(first_run_calls.get() + 1);
            Ok::<_, &'static str>(11_u8)
        },
        |_selected_identity| {
            established_calls.set(established_calls.get() + 1);
            Ok::<_, &'static str>(22_u8)
        },
    );

    assert_eq!(result, Err(DispatchError::Inspect("invalid-intent")));
    assert_eq!(first_run_calls.get(), 0);
    assert_eq!(established_calls.get(), 0);
}

#[test]
fn first_run_failure_never_falls_back_to_established_restart() {
    let identity = public_identity();
    let established_calls = Cell::new(0_u8);

    let result = dispatch_startup_state_with(
        &identity,
        || Ok::<_, &'static str>(OwnerFirstRunSetupIntentPresence::Present),
        |_selected_identity| Err::<u8, _>("first-run-failed"),
        |_selected_identity| {
            established_calls.set(established_calls.get() + 1);
            Ok::<_, &'static str>(22_u8)
        },
    );

    assert_eq!(result, Err(DispatchError::FirstRun("first-run-failed")));
    assert_eq!(established_calls.get(), 0);
}

#[test]
fn established_restart_failure_never_retries_first_run() {
    let identity = public_identity();
    let first_run_calls = Cell::new(0_u8);

    let result = dispatch_startup_state_with(
        &identity,
        || Ok::<_, &'static str>(OwnerFirstRunSetupIntentPresence::Absent),
        |_selected_identity| {
            first_run_calls.set(first_run_calls.get() + 1);
            Ok::<_, &'static str>(11_u8)
        },
        |_selected_identity| Err::<u8, _>("established-failed"),
    );

    assert_eq!(
        result,
        Err(DispatchError::EstablishedRestart("established-failed"))
    );
    assert_eq!(first_run_calls.get(), 0);
}

#[test]
fn exact_grammar_maps_to_existing_typed_selections() {
    for (token, expected) in [
        (
            "preferred-default",
            OwnerFirstSetupTransportCustodySelection::PreferredDefault,
        ),
        (
            "explicit-host-key-only-fallback",
            OwnerFirstSetupTransportCustodySelection::ExplicitHostKeyOnlyFallback,
        ),
    ] {
        assert_eq!(
            parse_transport_custody_selection(&args(&["transport-custody", token])),
            Ok(expected)
        );
        assert_eq!(selection_token(expected), token);
    }
}

#[test]
fn invalid_or_ambiguous_grammar_fails_before_writer_dispatch() {
    for invalid in [
        args(&[]),
        args(&["transport-custody"]),
        args(&["preferred-default"]),
        args(&["transport-custody", "host-key-only"]),
        args(&["transport-custody", "HOST-KEY-ONLY"]),
        args(&["transport-custody", "preferred-default", "extra"]),
    ] {
        let result = execute_with_writer(&invalid, |_| {
            panic!("writer must not run for invalid grammar")
        });
        assert_eq!(result, Err(PrwFirstRunCliError::InvalidArguments));
    }
}

#[test]
fn exact_explicit_fallback_reaches_writer_without_policy_reinterpretation() {
    let expected = OwnerFirstSetupTransportCustodySelection::ExplicitHostKeyOnlyFallback;
    let mut observed = None;

    let outcome = execute_with_writer(
        &args(&["transport-custody", "explicit-host-key-only-fallback"]),
        |selection| {
            observed = Some(selection);
            Ok(OwnerFirstRunSetupIntentWriteOutcome::Existing(selection))
        },
    )
    .expect("exact grammar dispatches");

    assert_eq!(observed, Some(expected));
    assert_eq!(
        outcome,
        OwnerFirstRunSetupIntentWriteOutcome::Existing(expected)
    );
}

#[test]
fn post_success_retirement_receives_exact_selection_and_exact_zc_outcome() {
    for selection in [
        OwnerFirstSetupTransportCustodySelection::PreferredDefault,
        OwnerFirstSetupTransportCustodySelection::ExplicitHostKeyOnlyFallback,
    ] {
        for local_authority_outcome in [
            OwnerPcLocalAuthorityBootstrapOutcome::Initialized,
            OwnerPcLocalAuthorityBootstrapOutcome::AlreadyCurrent,
        ] {
            let public_identity = public_identity();
            let read_calls = Cell::new(0_u8);
            let orchestration_calls = Cell::new(0_u8);
            let retirement_calls = Cell::new(0_u8);

            let outcome = execute_first_run_orchestration_and_retire_setup_intent_with(
                &public_identity,
                || {
                    read_calls.set(read_calls.get() + 1);
                    Ok(selection)
                },
                |selected, selected_public_identity| {
                    orchestration_calls.set(orchestration_calls.get() + 1);
                    assert_eq!(selected, selection);
                    assert_eq!(selected_public_identity, &public_identity);
                    Ok(local_authority_outcome)
                },
                |selected, completed_outcome| {
                    retirement_calls.set(retirement_calls.get() + 1);
                    assert_eq!(selected, selection);
                    assert_eq!(completed_outcome, local_authority_outcome);
                    Ok(OwnerFirstRunSetupIntentRetirementOutcome::Retired(selected))
                },
            )
            .expect("post-success retirement composition");

            assert_eq!(
                outcome,
                OwnerFirstRunOrchestrationAndRetirementOutcome {
                    local_authority_outcome,
                    setup_intent_retirement_outcome:
                        OwnerFirstRunSetupIntentRetirementOutcome::Retired(selection),
                }
            );
            assert_eq!(read_calls.get(), 1);
            assert_eq!(orchestration_calls.get(), 1);
            assert_eq!(retirement_calls.get(), 1);
        }
    }
}

#[test]
fn reader_failure_prevents_zc_and_retirement() {
    let public_identity = public_identity();
    let orchestration_calls = Cell::new(0_u8);
    let retirement_calls = Cell::new(0_u8);

    let result = execute_first_run_orchestration_and_retire_setup_intent_with(
        &public_identity,
        || Err(OwnerFirstRunSetupIntentError::MalformedIntentRecord),
        |_selection, _public_identity| {
            orchestration_calls.set(orchestration_calls.get() + 1);
            Ok(OwnerPcLocalAuthorityBootstrapOutcome::Initialized)
        },
        |_selection, _outcome| {
            retirement_calls.set(retirement_calls.get() + 1);
            Ok(OwnerFirstRunSetupIntentRetirementOutcome::AlreadyRetired)
        },
    );

    assert!(matches!(
        result,
        Err(OwnerFirstRunOrchestrationError::SetupIntent(
            OwnerFirstRunSetupIntentError::MalformedIntentRecord
        ))
    ));
    assert_eq!(orchestration_calls.get(), 0);
    assert_eq!(retirement_calls.get(), 0);
}

#[test]
fn zc_failure_prevents_retirement() {
    let public_identity = public_identity();
    let retirement_calls = Cell::new(0_u8);

    let result = execute_first_run_orchestration_and_retire_setup_intent_with(
        &public_identity,
        || Ok(OwnerFirstSetupTransportCustodySelection::PreferredDefault),
        |_selection, _public_identity| {
            Err(OwnerFirstRunOrchestrationError::OwnerIdentity(
                OwnerFirstSetupBootstrapInputError::InsecureStateRoot,
            ))
        },
        |_selection, _outcome| {
            retirement_calls.set(retirement_calls.get() + 1);
            Ok(OwnerFirstRunSetupIntentRetirementOutcome::AlreadyRetired)
        },
    );

    assert!(matches!(
        result,
        Err(OwnerFirstRunOrchestrationError::OwnerIdentity(
            OwnerFirstSetupBootstrapInputError::InsecureStateRoot
        ))
    ));
    assert_eq!(retirement_calls.get(), 0);
}

#[test]
fn retirement_failure_is_distinct_and_occurs_only_after_zc_success() {
    let public_identity = public_identity();
    let selection = OwnerFirstSetupTransportCustodySelection::ExplicitHostKeyOnlyFallback;
    let local_authority_outcome = OwnerPcLocalAuthorityBootstrapOutcome::AlreadyCurrent;
    let retirement_calls = Cell::new(0_u8);

    let result = execute_first_run_orchestration_and_retire_setup_intent_with(
        &public_identity,
        || Ok(selection),
        |selected, _public_identity| {
            assert_eq!(selected, selection);
            Ok(local_authority_outcome)
        },
        |selected, completed_outcome| {
            retirement_calls.set(retirement_calls.get() + 1);
            assert_eq!(selected, selection);
            assert_eq!(completed_outcome, local_authority_outcome);
            Err(OwnerFirstRunSetupIntentError::DirectorySyncFailed)
        },
    );

    assert!(matches!(
        result,
        Err(OwnerFirstRunOrchestrationError::SetupIntentRetirement(
            OwnerFirstRunSetupIntentError::DirectorySyncFailed
        ))
    ));
    assert_eq!(retirement_calls.get(), 1);
}

#[test]
fn already_retired_is_preserved_after_successful_zc() {
    let public_identity = public_identity();

    let outcome = execute_first_run_orchestration_and_retire_setup_intent_with(
        &public_identity,
        || Ok(OwnerFirstSetupTransportCustodySelection::PreferredDefault),
        |_selection, _public_identity| Ok(OwnerPcLocalAuthorityBootstrapOutcome::Initialized),
        |_selection, _outcome| Ok(OwnerFirstRunSetupIntentRetirementOutcome::AlreadyRetired),
    )
    .expect("already-retired completion");

    assert_eq!(
        outcome.setup_intent_retirement_outcome(),
        OwnerFirstRunSetupIntentRetirementOutcome::AlreadyRetired
    );
    assert_eq!(
        outcome.local_authority_outcome(),
        OwnerPcLocalAuthorityBootstrapOutcome::Initialized
    );
}

#[test]
fn setup_intent_reader_forwards_exact_typed_selection_once() {
    for selection in [
        OwnerFirstSetupTransportCustodySelection::PreferredDefault,
        OwnerFirstSetupTransportCustodySelection::ExplicitHostKeyOnlyFallback,
    ] {
        let public_identity = public_identity();
        let read_calls = Cell::new(0_u8);
        let orchestration_calls = Cell::new(0_u8);

        let outcome = execute_first_run_orchestration_from_setup_intent_with(
            &public_identity,
            || {
                read_calls.set(read_calls.get() + 1);
                Ok(selection)
            },
            |selected, selected_public_identity| {
                orchestration_calls.set(orchestration_calls.get() + 1);
                assert_eq!(selected, selection);
                assert_eq!(selected_public_identity, &public_identity);
                Ok(OwnerPcLocalAuthorityBootstrapOutcome::AlreadyCurrent)
            },
        )
        .expect("reader composition");

        assert_eq!(
            outcome,
            OwnerPcLocalAuthorityBootstrapOutcome::AlreadyCurrent
        );
        assert_eq!(read_calls.get(), 1);
        assert_eq!(orchestration_calls.get(), 1);
    }
}

#[test]
fn setup_intent_reader_failure_prevents_zc_invocation() {
    let public_identity = public_identity();
    let orchestration_calls = Cell::new(0_u8);

    let result = execute_first_run_orchestration_from_setup_intent_with(
        &public_identity,
        || Err(OwnerFirstRunSetupIntentError::MalformedIntentRecord),
        |_selection, _public_identity| {
            orchestration_calls.set(orchestration_calls.get() + 1);
            Ok(OwnerPcLocalAuthorityBootstrapOutcome::Initialized)
        },
    );

    assert!(matches!(
        result,
        Err(OwnerFirstRunOrchestrationError::SetupIntent(
            OwnerFirstRunSetupIntentError::MalformedIntentRecord
        ))
    ));
    assert_eq!(orchestration_calls.get(), 0);
}

#[test]
fn zc_error_is_returned_after_successful_setup_intent_read() {
    let public_identity = public_identity();
    let orchestration_calls = Cell::new(0_u8);

    let result = execute_first_run_orchestration_from_setup_intent_with(
        &public_identity,
        || Ok(OwnerFirstSetupTransportCustodySelection::PreferredDefault),
        |_selection, _public_identity| {
            orchestration_calls.set(orchestration_calls.get() + 1);
            Err(OwnerFirstRunOrchestrationError::OwnerIdentity(
                OwnerFirstSetupBootstrapInputError::InsecureStateRoot,
            ))
        },
    );

    assert!(matches!(
        result,
        Err(OwnerFirstRunOrchestrationError::OwnerIdentity(
            OwnerFirstSetupBootstrapInputError::InsecureStateRoot
        ))
    ));
    assert_eq!(orchestration_calls.get(), 1);
}

#[test]
fn exact_owner_record_and_explicit_selection_are_forwarded_once() {
    for selection in [
        OwnerFirstSetupTransportCustodySelection::PreferredDefault,
        OwnerFirstSetupTransportCustodySelection::ExplicitHostKeyOnlyFallback,
    ] {
        let record = generate_owner_logical_identity_record().expect("owner record");
        let expected_workspace = record.workspace_id().clone();
        let expected_user = record.user_id().clone();
        let expected_device = record.device_id().clone();
        let public_identity = public_identity();
        let ensure_calls = Cell::new(0_u8);
        let authority_calls = Cell::new(0_u8);

        let outcome = execute_first_run_orchestration_with(
            selection,
            &public_identity,
            || {
                ensure_calls.set(ensure_calls.get() + 1);
                Ok(OwnerLogicalIdentityRecordOutcome::Existing(record))
            },
            |plan, selected_public_identity| {
                authority_calls.set(authority_calls.get() + 1);
                assert_eq!(plan.workspace_id(), &expected_workspace);
                assert_eq!(plan.user_id(), &expected_user);
                assert_eq!(plan.device_id(), &expected_device);
                assert_eq!(plan.transport_selection(), selection);
                assert_eq!(selected_public_identity, &public_identity);
                Ok(OwnerPcLocalAuthorityBootstrapOutcome::AlreadyCurrent)
            },
        )
        .expect("first-run orchestration");

        assert_eq!(
            outcome,
            OwnerPcLocalAuthorityBootstrapOutcome::AlreadyCurrent
        );
        assert_eq!(ensure_calls.get(), 1);
        assert_eq!(authority_calls.get(), 1);
    }
}

#[test]
fn owner_identity_failure_prevents_za_invocation() {
    let public_identity = public_identity();
    let authority_calls = Cell::new(0_u8);

    let result = execute_first_run_orchestration_with(
        OwnerFirstSetupTransportCustodySelection::PreferredDefault,
        &public_identity,
        || Err(OwnerFirstSetupBootstrapInputError::InsecureStateRoot),
        |_plan, _selected_public_identity| {
            authority_calls.set(authority_calls.get() + 1);
            Ok(OwnerPcLocalAuthorityBootstrapOutcome::Initialized)
        },
    );

    assert!(result.is_err());
    assert_eq!(authority_calls.get(), 0);
}

#[test]
fn za_failure_is_returned_without_retry_or_selection_change() {
    let record = generate_owner_logical_identity_record().expect("owner record");
    let public_identity = public_identity();
    let authority_calls = Cell::new(0_u8);
    let selection = OwnerFirstSetupTransportCustodySelection::ExplicitHostKeyOnlyFallback;

    let result = execute_first_run_orchestration_with(
        selection,
        &public_identity,
        || Ok(OwnerLogicalIdentityRecordOutcome::Created(record)),
        |plan, _selected_public_identity| {
            authority_calls.set(authority_calls.get() + 1);
            assert_eq!(plan.transport_selection(), selection);
            Err(
                OwnerFirstSetupLocalAuthorityBootstrapError::AuthorityBootstrap(
                    DurableRegistryAuthorityError::CurrentnessConflict,
                ),
            )
        },
    );

    assert!(result.is_err());
    assert_eq!(authority_calls.get(), 1);
}

#[test]
fn command_reports_are_exact() {
    let created = report(Ok(OwnerFirstRunSetupIntentWriteOutcome::Created(
        OwnerFirstSetupTransportCustodySelection::PreferredDefault,
    )));
    assert!(created.succeeded);
    assert_eq!(
        created.lines,
        vec!["prw-first-run command=transport-custody intent=preferred-default result=created"]
    );
    let existing = report(Ok(OwnerFirstRunSetupIntentWriteOutcome::Existing(
        OwnerFirstSetupTransportCustodySelection::ExplicitHostKeyOnlyFallback,
    )));
    assert!(existing.succeeded);
    assert_eq!(
        existing.lines,
        vec![
            "prw-first-run command=transport-custody intent=explicit-host-key-only-fallback result=existing"
        ]
    );
    let usage = report(Err(PrwFirstRunCliError::InvalidArguments));
    assert!(!usage.succeeded);
    assert_eq!(
        usage.lines,
        vec![
            "prw-first-run result=failure error=invalid_arguments",
            "usage: prw-first-run transport-custody <preferred-default|explicit-host-key-only-fallback>"
        ]
    );
    let failed = report(Err(PrwFirstRunCliError::Writer(
        OwnerFirstRunSetupIntentError::ConflictingIntentRecord,
    )));
    assert!(!failed.succeeded);
    assert_eq!(
        failed.lines,
        vec![
            "prw-first-run result=failure error=owner first-run setup-intent record conflicts with requested selection"
        ]
    );
}
