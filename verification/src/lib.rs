//! Verified core of Ownspace.
pub mod bytes;
pub mod capable_host;
pub mod connectivity;
pub mod custody;
pub mod custody_laws;
pub mod custody_step_laws;
pub mod desktop;
pub mod domain;
pub mod durable_registry_authority;
pub mod durable_registry_codec;
pub mod durable_registry_mutation_semantics;
pub mod durable_registry_semantics;
pub mod durable_registry_sqlite_custody;
pub mod durable_registry_sqlite_store;
pub mod environment;
pub mod environment_laws;
pub mod helper_arguments;
pub mod host;
pub mod installation;
pub mod local_commands;
pub mod message_laws;
pub mod native_traversal;
pub mod outside;
pub mod owner_established_startup_authority;
pub mod owner_first_run_orchestration;
pub mod owner_first_run_setup_intent;
pub mod owner_first_setup_bootstrap_input_composition;
pub mod owner_first_setup_bootstrap_inputs;
pub mod owner_first_setup_custody_policy_orchestration;
pub mod owner_first_setup_execution_composition;
pub mod owner_first_setup_local_authority_bootstrap_execution;
pub mod owner_first_setup_retry_call_site_composition;
pub mod owner_first_setup_transport_identity_recovery;
pub mod owner_first_setup_transport_provisioning_execution;
pub mod owner_startup_state_dispatch;
pub mod owner_identity_laws;
pub mod owner_setup_laws;
pub mod paths;
pub mod place_laws;
pub mod plan;
pub mod prw_first_run;
pub mod record_laws;
pub mod registry;
pub mod registry_failure_laws;
pub mod registry_laws;
pub mod registry_opening_laws;
pub mod registry_operation_laws;
pub mod reliable_host;
pub mod restart_laws;
pub mod setup_intent_laws;
pub mod stage_laws;
pub mod startup_laws;
pub mod startup_plan;
pub mod transport_custody_laws;
pub mod transport_identity_custody;
pub mod transport_identity_provisioning;
pub mod transport_identity_recovery;
pub mod transport_refusal_laws;
pub mod trust_laws;
pub mod working_first_run_laws;
pub mod working_host;
pub mod working_installation;
pub mod working_registry;
pub mod working_startup_laws;
