//! The choice at startup between a pending first run and an established restart.
use vstd::prelude::*;
use vstd::string::*;

use crate::domain::{PublicIdentityMaterial, PublicIdentityView};
use crate::durable_registry_sqlite_store::{registry_reply_views, RegistryReply};
use crate::environment::HostEnvironment;
use crate::outside::{reply_views, OutsideReply};
use crate::owner_established_startup_authority::{
    verify_established_in, verify_established_plan,
    OwnerEstablishedStartupAuthorityError, OwnerEstablishedStartupAuthorityProof,
};
use crate::owner_first_run_orchestration::{
    orchestration_and_retirement_in, orchestration_and_retirement_plan,
    OwnerFirstRunOrchestrationAndRetirementOutcome, OwnerFirstRunOrchestrationError,
};
use crate::owner_first_run_setup_intent::{
    inspect_intent_in, inspect_intent_plan, intent_from_environment,
    OwnerFirstRunSetupIntentError, OwnerFirstRunSetupIntentPresence,
};
use crate::plan::Progress;
use crate::startup_plan::{
    follow_startup, from_host, group_follow_startup, on_host,
    startup_bind, startup_progress, startup_went_along, StartupPlan, StartupReplies,
    StartupRequest,
};

verus! {

/// Exact authority path selected by the startup-state dispatcher.
#[derive(Clone, Copy, PartialEq, Eq, Structural, Debug)]
pub enum OwnerStartupStateDispatchOutcome {
    /// A valid pending first-run transaction completed.
    FirstRunCompleted(OwnerFirstRunOrchestrationAndRetirementOutcome),
    /// Exact setup-intent absence was followed by successful established-state proof.
    EstablishedRestartVerified(OwnerEstablishedStartupAuthorityProof),
}

/// Fail-closed error stage for startup-state dispatch.
#[derive(Clone, Copy, PartialEq, Eq, Structural, Debug)]
pub enum OwnerStartupStateDispatchError {
    /// Setup-intent presence could not be classified safely.
    SetupIntentClassification(OwnerFirstRunSetupIntentError),
    /// A valid pending first-run transaction failed.
    FirstRun(OwnerFirstRunOrchestrationError),
    /// Exact setup-intent absence was observed, but established restart proof failed.
    EstablishedRestart(OwnerEstablishedStartupAuthorityError),
}

impl OwnerStartupStateDispatchError {
    /// The text shown to people for this error.
    pub open spec fn text(self) -> Seq<char> {
        match self {
            OwnerStartupStateDispatchError::SetupIntentClassification(error) => "startup setup-intent classification failed: "@ + error.text(),
            OwnerStartupStateDispatchError::FirstRun(error) => "startup first-run completion failed: "@ + error.text(),
            OwnerStartupStateDispatchError::EstablishedRestart(error) => "startup established-restart proof failed: "@ + error.text(),
        }
    }

    pub fn message(&self) -> (text: String)
        ensures
            text@ == self.text(),
    {
        match self {
            OwnerStartupStateDispatchError::SetupIntentClassification(error) => "startup setup-intent classification failed: ".to_owned().concat(error.message()),
            OwnerStartupStateDispatchError::FirstRun(error) => "startup first-run completion failed: ".to_owned().concat(error.message().as_str()),
            OwnerStartupStateDispatchError::EstablishedRestart(error) => "startup established-restart proof failed: ".to_owned().concat(error.message().as_str()),
        }
    }
}

/// Which path was taken, with what it came to.
#[derive(PartialEq, Eq, Debug)]
pub enum DispatchOutcome<F, E> {
    FirstRun(F),
    EstablishedRestart(E),
}

/// Which step failed.
#[derive(PartialEq, Eq, Debug)]
pub enum DispatchError<I, F, E> {
    Inspect(I),
    FirstRun(F),
    EstablishedRestart(E),
}

/// Classifies once and takes exactly one path: a present intent is run, an absent one verified.
/// No failure of one path leads to the other: each path may be called only after the intent was
/// classified for it.
pub fn dispatch_startup_state_with<I, F, E, FOut, EOut, IErr, FErr, EErr>(
    public_device_identity: &PublicIdentityMaterial,
    inspect_setup_intent: I,
    execute_first_run: F,
    verify_established_restart: E,
) -> (dispatched: Result<DispatchOutcome<FOut, EOut>, DispatchError<IErr, FErr, EErr>>) where
    I: FnOnce() -> Result<OwnerFirstRunSetupIntentPresence, IErr>,
    F: FnOnce(&PublicIdentityMaterial) -> Result<FOut, FErr>,
    E: FnOnce(&PublicIdentityMaterial) -> Result<EOut, EErr>,

    requires
        call_requires(inspect_setup_intent, ()),
        call_ensures(
            inspect_setup_intent,
            (),
            Ok::<OwnerFirstRunSetupIntentPresence, IErr>(OwnerFirstRunSetupIntentPresence::Present),
        ) ==> call_requires(execute_first_run, (public_device_identity,)),
        call_ensures(
            inspect_setup_intent,
            (),
            Ok::<OwnerFirstRunSetupIntentPresence, IErr>(OwnerFirstRunSetupIntentPresence::Absent),
        ) ==> call_requires(verify_established_restart, (public_device_identity,)),
    ensures
        match dispatched {
            Ok(DispatchOutcome::FirstRun(outcome)) => call_ensures(
                inspect_setup_intent,
                (),
                Ok(OwnerFirstRunSetupIntentPresence::Present),
            ) && call_ensures(execute_first_run, (public_device_identity,), Ok(outcome)),
            Ok(DispatchOutcome::EstablishedRestart(proof)) => call_ensures(
                inspect_setup_intent,
                (),
                Ok(OwnerFirstRunSetupIntentPresence::Absent),
            ) && call_ensures(verify_established_restart, (public_device_identity,), Ok(proof)),
            Err(DispatchError::Inspect(error)) => call_ensures(inspect_setup_intent, (), Err(error)),
            Err(DispatchError::FirstRun(error)) => call_ensures(
                inspect_setup_intent,
                (),
                Ok(OwnerFirstRunSetupIntentPresence::Present),
            ) && call_ensures(execute_first_run, (public_device_identity,), Err(error)),
            Err(DispatchError::EstablishedRestart(error)) => call_ensures(
                inspect_setup_intent,
                (),
                Ok(OwnerFirstRunSetupIntentPresence::Absent),
            ) && call_ensures(verify_established_restart, (public_device_identity,), Err(error)),
        },
{
    match inspect_setup_intent() {
        Err(error) => Err(DispatchError::Inspect(error)),
        Ok(OwnerFirstRunSetupIntentPresence::Present) => match execute_first_run(
            public_device_identity,
        ) {
            Ok(outcome) => Ok(DispatchOutcome::FirstRun(outcome)),
            Err(error) => Err(DispatchError::FirstRun(error)),
        },
        Ok(OwnerFirstRunSetupIntentPresence::Absent) => match verify_established_restart(
            public_device_identity,
        ) {
            Ok(proof) => Ok(DispatchOutcome::EstablishedRestart(proof)),
            Err(error) => Err(DispatchError::EstablishedRestart(error)),
        },
    }
}

/// Run the pending first run.
pub open spec fn first_run_plan(
    public_device_identity: PublicIdentityView,
    environment: HostEnvironment,
) -> StartupPlan<Result<OwnerStartupStateDispatchOutcome, OwnerStartupStateDispatchError>> {
    startup_bind(
        orchestration_and_retirement_plan(public_device_identity, environment),
        |executed: Result<
            OwnerFirstRunOrchestrationAndRetirementOutcome,
            OwnerFirstRunOrchestrationError,
        >|
            StartupPlan::Finish(
                match executed {
                    Ok(outcome) => Ok(OwnerStartupStateDispatchOutcome::FirstRunCompleted(outcome)),
                    Err(error) => Err(OwnerStartupStateDispatchError::FirstRun(error)),
                },
            ),
    )
}

/// Verify the established restart.
pub open spec fn restart_plan(
    public_device_identity: PublicIdentityView,
    environment: HostEnvironment,
) -> StartupPlan<Result<OwnerStartupStateDispatchOutcome, OwnerStartupStateDispatchError>> {
    startup_bind(
        verify_established_plan(public_device_identity, environment),
        |verified: Result<
            OwnerEstablishedStartupAuthorityProof,
            OwnerEstablishedStartupAuthorityError,
        >|
            StartupPlan::Finish(
                match verified {
                    Ok(proof) => Ok(
                        OwnerStartupStateDispatchOutcome::EstablishedRestartVerified(proof),
                    ),
                    Err(error) => Err(OwnerStartupStateDispatchError::EstablishedRestart(error)),
                },
            ),
    )
}

/// Classify the intent once, and take exactly the path that it names.
pub open spec fn dispatch_plan(
    public_device_identity: PublicIdentityView,
    environment: HostEnvironment,
) -> StartupPlan<Result<OwnerStartupStateDispatchOutcome, OwnerStartupStateDispatchError>> {
    on_host(
        intent_from_environment(environment, inspect_intent_plan(true, environment.euid)),
        |inspected: Result<OwnerFirstRunSetupIntentPresence, OwnerFirstRunSetupIntentError>|
            match inspected {
                Err(error) => StartupPlan::Finish(
                    Err(OwnerStartupStateDispatchError::SetupIntentClassification(error)),
                ),
                Ok(OwnerFirstRunSetupIntentPresence::Present) => first_run_plan(
                    public_device_identity,
                    environment,
                ),
                Ok(OwnerFirstRunSetupIntentPresence::Absent) => restart_plan(
                    public_device_identity,
                    environment,
                ),
            },
    )
}

fn dispatch_in(
    public_device_identity: &PublicIdentityMaterial,
    environment: &HostEnvironment,
    replies: &mut StartupReplies<'_>,
) -> (outcome: Result<
    Result<OwnerStartupStateDispatchOutcome, OwnerStartupStateDispatchError>,
    StartupRequest<String, Vec<u8>>,
>)
    requires
        old(replies).wf(),
    ensures
        startup_went_along(
            dispatch_plan(public_device_identity@, *environment),
            *old(replies),
            outcome,
            *final(replies),
        ),
{
    broadcast use group_follow_startup;

    match from_host(inspect_intent_in(environment, &mut replies.host))? {
        Err(error) => Ok(Err(OwnerStartupStateDispatchError::SetupIntentClassification(error))),
        Ok(OwnerFirstRunSetupIntentPresence::Present) => match orchestration_and_retirement_in(
            public_device_identity,
            environment,
            replies,
        )? {
            Ok(outcome) => Ok(Ok(OwnerStartupStateDispatchOutcome::FirstRunCompleted(outcome))),
            Err(error) => Ok(Err(OwnerStartupStateDispatchError::FirstRun(error))),
        },
        Ok(OwnerFirstRunSetupIntentPresence::Absent) => match verify_established_in(
            public_device_identity,
            environment,
            replies,
        )? {
            Ok(proof) => Ok(Ok(OwnerStartupStateDispatchOutcome::EstablishedRestartVerified(proof))),
            Err(error) => Ok(Err(OwnerStartupStateDispatchError::EstablishedRestart(error))),
        },
    }
}

/// Classifies the startup state and takes exactly one path, as far as the replies go: a present
/// intent is run as the first run, an absent one is followed by the proof of the established
/// authority. No failure of one path leads to the other.
pub fn dispatch_owner_startup_authority(
    public_device_identity: &PublicIdentityMaterial,
    environment: &HostEnvironment,
    host: &Vec<OutsideReply<Vec<u8>>>,
    registry: &Vec<RegistryReply<String, Vec<u8>>>,
) -> (progress: Progress<
    StartupRequest<String, Vec<u8>>,
    Result<OwnerStartupStateDispatchOutcome, OwnerStartupStateDispatchError>,
>)
    ensures
        startup_progress(progress) == follow_startup(
            dispatch_plan(public_device_identity@, *environment),
            reply_views(host@),
            registry_reply_views(registry@),
        ).progress,
{
    let mut replies = StartupReplies::new(host, registry);
    match dispatch_in(public_device_identity, environment, &mut replies) {
        Ok(result) => Progress::Done(result),
        Err(request) => Progress::Waiting(request),
    }
}

} // verus!
