//! The owner's first run: from the setup intent to a bootstrapped authority, and the retirement of
//! the intent after that.
use vstd::prelude::*;
use vstd::string::*;

use crate::domain::{PublicIdentityMaterial, PublicIdentityView};
use crate::durable_registry_sqlite_store::{
    registry_reply_views, OwnerPcLocalAuthorityBootstrapOutcome, RegistryReply,
};
use crate::environment::HostEnvironment;
use crate::outside::{reply_views, OutsideReply};
use crate::owner_first_run_setup_intent::{
    intent_from_environment, load_intent_in, load_intent_plan, retire_intent_in,
    retire_intent_plan, OwnerFirstRunSetupIntentError, OwnerFirstRunSetupIntentRetirementOutcome,
};
use crate::owner_first_setup_bootstrap_inputs::{
    ensure_identity_from_environment, ensure_identity_in, IdentityOutcomeView,
    OwnerFirstSetupBootstrapInputError,
    OwnerLogicalIdentityRecordOutcome,
};
use crate::owner_first_setup_custody_policy_orchestration::{
    compose_owner_first_setup_custody_policy_plan, OwnerFirstSetupCustodyPolicyPlan,
    OwnerFirstSetupTransportCustodySelection,
};
use crate::owner_first_setup_local_authority_bootstrap_execution::{
    local_authority_in, local_authority_plan, OwnerFirstSetupLocalAuthorityBootstrapError,
};
use crate::plan::Progress;
use crate::startup_plan::{
    follow_startup, from_host, group_follow_startup, on_host,
    startup_bind, startup_progress, startup_went_along, StartupPlan, StartupReplies,
    StartupRequest,
};

verus! {

/// Fail-closed error for the first run.
#[derive(Clone, Copy, PartialEq, Eq, Structural, Debug)]
pub enum OwnerFirstRunOrchestrationError {
    /// The fixed first-run setup-intent record could not be loaded fail-closed.
    SetupIntent(OwnerFirstRunSetupIntentError),
    /// The post-success fixed setup-intent retirement transaction failed.
    SetupIntentRetirement(OwnerFirstRunSetupIntentError),
    /// The authoritative owner logical-identity record could not be ensured or replayed.
    OwnerIdentity(OwnerFirstSetupBootstrapInputError),
    /// The local-authority bootstrap failed.
    LocalAuthority(OwnerFirstSetupLocalAuthorityBootstrapError),
}

impl OwnerFirstRunOrchestrationError {
    /// The text shown to people for this error.
    pub open spec fn text(self) -> Seq<char> {
        match self {
            OwnerFirstRunOrchestrationError::SetupIntent(error) => "owner first-run setup-intent load failed: "@ + error.text(),
            OwnerFirstRunOrchestrationError::SetupIntentRetirement(error) => "owner first-run setup-intent retirement failed: "@ + error.text(),
            OwnerFirstRunOrchestrationError::OwnerIdentity(error) => "owner logical identity orchestration failed: "@ + error.text(),
            OwnerFirstRunOrchestrationError::LocalAuthority(error) => "owner local authority orchestration failed: "@ + error.text(),
        }
    }

    pub fn message(&self) -> (text: String)
        ensures
            text@ == self.text(),
    {
        match self {
            OwnerFirstRunOrchestrationError::SetupIntent(error) => "owner first-run setup-intent load failed: ".to_owned().concat(error.message()),
            OwnerFirstRunOrchestrationError::SetupIntentRetirement(error) => "owner first-run setup-intent retirement failed: ".to_owned().concat(error.message()),
            OwnerFirstRunOrchestrationError::OwnerIdentity(error) => "owner logical identity orchestration failed: ".to_owned().concat(error.message().as_str()),
            OwnerFirstRunOrchestrationError::LocalAuthority(error) => "owner local authority orchestration failed: ".to_owned().concat(error.message().as_str()),
        }
    }
}

/// Result of first-run authority success followed by the retirement of the setup intent.
#[derive(Clone, Copy, PartialEq, Eq, Structural, Debug)]
pub struct OwnerFirstRunOrchestrationAndRetirementOutcome {
    pub local_authority_outcome: OwnerPcLocalAuthorityBootstrapOutcome,
    pub setup_intent_retirement_outcome: OwnerFirstRunSetupIntentRetirementOutcome,
}

impl OwnerFirstRunOrchestrationAndRetirementOutcome {
    /// Returns the exact successful local-authority bootstrap outcome.
    pub fn local_authority_outcome(self) -> (outcome: OwnerPcLocalAuthorityBootstrapOutcome)
        ensures
            outcome == self.local_authority_outcome,
    {
        self.local_authority_outcome
    }

    /// Returns the exact post-success setup-intent retirement outcome.
    pub fn setup_intent_retirement_outcome(self) -> (outcome:
        OwnerFirstRunSetupIntentRetirementOutcome)
        ensures
            outcome == self.setup_intent_retirement_outcome,
    {
        self.setup_intent_retirement_outcome
    }
}

/// Reads the intent once, runs the first run with exactly that selection, and retires the intent
/// with that selection and that outcome. Retirement happens after success only, and its failure
/// is told apart from every other.
pub fn execute_first_run_orchestration_and_retire_setup_intent_with<R, O, T>(
    public_device_identity: &PublicIdentityMaterial,
    read_setup_intent: R,
    execute_orchestration: O,
    retire_setup_intent: T,
) -> (executed: Result<
    OwnerFirstRunOrchestrationAndRetirementOutcome,
    OwnerFirstRunOrchestrationError,
>) where
    R: FnOnce() -> Result<OwnerFirstSetupTransportCustodySelection, OwnerFirstRunSetupIntentError>,
    O: FnOnce(OwnerFirstSetupTransportCustodySelection, &PublicIdentityMaterial) -> Result<
        OwnerPcLocalAuthorityBootstrapOutcome,
        OwnerFirstRunOrchestrationError,
    >,
    T: FnOnce(
        OwnerFirstSetupTransportCustodySelection,
        OwnerPcLocalAuthorityBootstrapOutcome,
    ) -> Result<OwnerFirstRunSetupIntentRetirementOutcome, OwnerFirstRunSetupIntentError>,

    requires
        call_requires(read_setup_intent, ()),
        forall|selection: OwnerFirstSetupTransportCustodySelection|
            call_ensures(
                read_setup_intent,
                (),
                Ok::<OwnerFirstSetupTransportCustodySelection, OwnerFirstRunSetupIntentError>(
                    selection,
                ),
            ) ==> #[trigger] call_requires(
                execute_orchestration,
                (selection, public_device_identity),
            ),
        forall|
            selection: OwnerFirstSetupTransportCustodySelection,
            outcome: OwnerPcLocalAuthorityBootstrapOutcome,
        |
            call_ensures(
                read_setup_intent,
                (),
                Ok::<OwnerFirstSetupTransportCustodySelection, OwnerFirstRunSetupIntentError>(
                    selection,
                ),
            ) && call_ensures(
                execute_orchestration,
                (selection, public_device_identity),
                Ok::<OwnerPcLocalAuthorityBootstrapOutcome, OwnerFirstRunOrchestrationError>(
                    outcome,
                ),
            ) ==> #[trigger] call_requires(retire_setup_intent, (selection, outcome)),
    ensures
        exists|
            read: Result<OwnerFirstSetupTransportCustodySelection, OwnerFirstRunSetupIntentError>,
        |
            {
                &&& #[trigger] call_ensures(read_setup_intent, (), read)
                &&& match read {
                    Err(error) => executed matches Err(stage) && stage
                        == OwnerFirstRunOrchestrationError::SetupIntent(error),
                    Ok(selection) => exists|
                        ran: Result<
                            OwnerPcLocalAuthorityBootstrapOutcome,
                            OwnerFirstRunOrchestrationError,
                        >,
                    |
                        {
                            &&& #[trigger] call_ensures(
                                execute_orchestration,
                                (selection, public_device_identity),
                                ran,
                            )
                            &&& match ran {
                                Err(error) => executed matches Err(stage) && stage == error,
                                Ok(local) => match executed {
                                    Ok(outcome) => outcome.local_authority_outcome == local
                                        && call_ensures(
                                        retire_setup_intent,
                                        (selection, local),
                                        Ok(outcome.setup_intent_retirement_outcome),
                                    ),
                                    Err(stage) => stage matches
                                        OwnerFirstRunOrchestrationError::SetupIntentRetirement(
                                        cause,
                                    ) && call_ensures(
                                        retire_setup_intent,
                                        (selection, local),
                                        Err(cause),
                                    ),
                                },
                            }
                        },
                }
            },
{
    let selection = match read_setup_intent() {
        Ok(selection) => selection,
        Err(error) => {
            assert(call_ensures(read_setup_intent, (), Err(error)));
            return Err(OwnerFirstRunOrchestrationError::SetupIntent(error));
        },
    };
    assert(call_ensures(read_setup_intent, (), Ok(selection)));
    let local_authority_outcome = match execute_orchestration(selection, public_device_identity) {
        Ok(outcome) => outcome,
        Err(error) => {
            assert(call_ensures(
                execute_orchestration,
                (selection, public_device_identity),
                Err(error),
            ));
            return Err(error);
        },
    };
    assert(call_ensures(
        execute_orchestration,
        (selection, public_device_identity),
        Ok(local_authority_outcome),
    ));
    match retire_setup_intent(selection, local_authority_outcome) {
        Ok(setup_intent_retirement_outcome) => Ok(
            OwnerFirstRunOrchestrationAndRetirementOutcome {
                local_authority_outcome,
                setup_intent_retirement_outcome,
            },
        ),
        Err(cause) => Err(OwnerFirstRunOrchestrationError::SetupIntentRetirement(cause)),
    }
}

/// Reads the intent once and runs the first run with exactly that selection.
pub fn execute_first_run_orchestration_from_setup_intent_with<R, O>(
    public_device_identity: &PublicIdentityMaterial,
    read_setup_intent: R,
    execute_orchestration: O,
) -> (executed: Result<OwnerPcLocalAuthorityBootstrapOutcome, OwnerFirstRunOrchestrationError>) where
    R: FnOnce() -> Result<OwnerFirstSetupTransportCustodySelection, OwnerFirstRunSetupIntentError>,
    O: FnOnce(OwnerFirstSetupTransportCustodySelection, &PublicIdentityMaterial) -> Result<
        OwnerPcLocalAuthorityBootstrapOutcome,
        OwnerFirstRunOrchestrationError,
    >,

    requires
        call_requires(read_setup_intent, ()),
        forall|selection: OwnerFirstSetupTransportCustodySelection|
            call_ensures(
                read_setup_intent,
                (),
                Ok::<OwnerFirstSetupTransportCustodySelection, OwnerFirstRunSetupIntentError>(
                    selection,
                ),
            ) ==> #[trigger] call_requires(
                execute_orchestration,
                (selection, public_device_identity),
            ),
    ensures
        exists|
            read: Result<OwnerFirstSetupTransportCustodySelection, OwnerFirstRunSetupIntentError>,
        |
            {
                &&& #[trigger] call_ensures(read_setup_intent, (), read)
                &&& match read {
                    Err(error) => executed matches Err(stage) && stage
                        == OwnerFirstRunOrchestrationError::SetupIntent(error),
                    Ok(selection) => call_ensures(
                        execute_orchestration,
                        (selection, public_device_identity),
                        executed,
                    ),
                }
            },
{
    match read_setup_intent() {
        Ok(selection) => {
            assert(call_ensures(read_setup_intent, (), Ok(selection)));
            execute_orchestration(selection, public_device_identity)
        },
        Err(error) => {
            assert(call_ensures(read_setup_intent, (), Err(error)));
            Err(OwnerFirstRunOrchestrationError::SetupIntent(error))
        },
    }
}

/// Ensures the owner's identity, makes the plan for exactly that owner and exactly the given
/// selection, and executes the local authority with it. Nothing is inferred, retried or
/// converted.
pub fn execute_first_run_orchestration_with<E, A>(
    transport_selection: OwnerFirstSetupTransportCustodySelection,
    public_device_identity: &PublicIdentityMaterial,
    ensure_owner_identity: E,
    execute_local_authority: A,
) -> (executed: Result<OwnerPcLocalAuthorityBootstrapOutcome, OwnerFirstRunOrchestrationError>) where
    E: FnOnce() -> Result<OwnerLogicalIdentityRecordOutcome, OwnerFirstSetupBootstrapInputError>,
    A: FnOnce(&OwnerFirstSetupCustodyPolicyPlan, &PublicIdentityMaterial) -> Result<
        OwnerPcLocalAuthorityBootstrapOutcome,
        OwnerFirstSetupLocalAuthorityBootstrapError,
    >,

    requires
        call_requires(ensure_owner_identity, ()),
        forall|ensured: OwnerLogicalIdentityRecordOutcome, plan: &OwnerFirstSetupCustodyPolicyPlan|
            #[trigger] call_ensures(
                ensure_owner_identity,
                (),
                Ok::<OwnerLogicalIdentityRecordOutcome, OwnerFirstSetupBootstrapInputError>(ensured),
            ) && plan.owner() == ensured@.identity() && plan.selection() == transport_selection
                ==> #[trigger] call_requires(
                execute_local_authority,
                (plan, public_device_identity),
            ),
    ensures
        exists|
            ensured: Result<OwnerLogicalIdentityRecordOutcome, OwnerFirstSetupBootstrapInputError>,
        |
            {
                &&& #[trigger] call_ensures(ensure_owner_identity, (), ensured)
                &&& match ensured {
                    Err(error) => executed matches Err(stage) && stage
                        == OwnerFirstRunOrchestrationError::OwnerIdentity(error),
                    Ok(outcome) => exists|
                        plan: OwnerFirstSetupCustodyPolicyPlan,
                        ran: Result<
                            OwnerPcLocalAuthorityBootstrapOutcome,
                            OwnerFirstSetupLocalAuthorityBootstrapError,
                        >,
                    |
                        {
                            &&& plan.owner() == outcome@.identity()
                            &&& plan.selection() == transport_selection
                            &&& #[trigger] call_ensures(
                                execute_local_authority,
                                (&plan, public_device_identity),
                                ran,
                            )
                            &&& match ran {
                                Ok(local) => executed matches Ok(done) && done == local,
                                Err(error) => executed matches Err(stage) && stage
                                    == OwnerFirstRunOrchestrationError::LocalAuthority(error),
                            }
                        },
                }
            },
{
    let owner_identity = match ensure_owner_identity() {
        Ok(outcome) => outcome,
        Err(error) => {
            assert(call_ensures(ensure_owner_identity, (), Err(error)));
            return Err(OwnerFirstRunOrchestrationError::OwnerIdentity(error));
        },
    };
    assert(call_ensures(ensure_owner_identity, (), Ok(owner_identity)));
    let plan = compose_owner_first_setup_custody_policy_plan(
        owner_identity.record(),
        transport_selection,
    );
    match execute_local_authority(&plan, public_device_identity) {
        Ok(local) => {
            assert(call_ensures(
                execute_local_authority,
                (&plan, public_device_identity),
                Ok(local),
            ));
            Ok(local)
        },
        Err(error) => {
            assert(call_ensures(
                execute_local_authority,
                (&plan, public_device_identity),
                Err(error),
            ));
            Err(OwnerFirstRunOrchestrationError::LocalAuthority(error))
        },
    }
}

/// Bootstrap the authority of an owner under the selection, given what ensuring its identity came
/// to.
pub open spec fn orchestration_for_plan(
    ensured: Result<IdentityOutcomeView, OwnerFirstSetupBootstrapInputError>,
    selection: OwnerFirstSetupTransportCustodySelection,
    public_device_identity: PublicIdentityView,
    environment: HostEnvironment,
) -> StartupPlan<Result<OwnerPcLocalAuthorityBootstrapOutcome, OwnerFirstRunOrchestrationError>> {
    match ensured {
        Err(error) => StartupPlan::Finish(
            Err(OwnerFirstRunOrchestrationError::OwnerIdentity(error)),
        ),
        Ok(outcome) => startup_bind(
            local_authority_plan(
                outcome.identity(),
                selection.policy(),
                public_device_identity,
                environment,
            ),
            |bootstrapped: Result<
                OwnerPcLocalAuthorityBootstrapOutcome,
                OwnerFirstSetupLocalAuthorityBootstrapError,
            >|
                StartupPlan::Finish(
                    match bootstrapped {
                        Ok(authority) => Ok(authority),
                        Err(error) => Err(OwnerFirstRunOrchestrationError::LocalAuthority(error)),
                    },
                ),
        ),
    }
}

/// Ensure the owner's identity, and bootstrap its authority under the selection.
pub open spec fn orchestration_plan(
    selection: OwnerFirstSetupTransportCustodySelection,
    public_device_identity: PublicIdentityView,
    environment: HostEnvironment,
) -> StartupPlan<Result<OwnerPcLocalAuthorityBootstrapOutcome, OwnerFirstRunOrchestrationError>> {
    on_host(
        ensure_identity_from_environment(environment),
        |ensured: Result<IdentityOutcomeView, OwnerFirstSetupBootstrapInputError>|
            orchestration_for_plan(ensured, selection, public_device_identity, environment),
    )
}

/// Read the intent once, and run the first run with exactly that selection.
pub open spec fn orchestration_from_intent_plan(
    public_device_identity: PublicIdentityView,
    environment: HostEnvironment,
) -> StartupPlan<Result<OwnerPcLocalAuthorityBootstrapOutcome, OwnerFirstRunOrchestrationError>> {
    on_host(
        intent_from_environment(environment, load_intent_plan(true, environment.euid)),
        |loaded: Result<OwnerFirstSetupTransportCustodySelection, OwnerFirstRunSetupIntentError>|
            match loaded {
                Err(error) => StartupPlan::Finish(
                    Err(OwnerFirstRunOrchestrationError::SetupIntent(error)),
                ),
                Ok(selection) => orchestration_plan(selection, public_device_identity, environment),
            },
    )
}

/// Retire the intent, given what the first run came to.
pub open spec fn retirement_plan(
    selection: OwnerFirstSetupTransportCustodySelection,
    executed: Result<OwnerPcLocalAuthorityBootstrapOutcome, OwnerFirstRunOrchestrationError>,
    environment: HostEnvironment,
) -> StartupPlan<
    Result<OwnerFirstRunOrchestrationAndRetirementOutcome, OwnerFirstRunOrchestrationError>,
> {
    match executed {
        Err(error) => StartupPlan::Finish(Err(error)),
        Ok(local_authority_outcome) => on_host(
            intent_from_environment(
                environment,
                retire_intent_plan(true, environment.euid, selection),
            ),
            |retired: Result<
                OwnerFirstRunSetupIntentRetirementOutcome,
                OwnerFirstRunSetupIntentError,
            >|
                StartupPlan::Finish(
                    match retired {
                        Ok(setup_intent_retirement_outcome) => Ok(
                            OwnerFirstRunOrchestrationAndRetirementOutcome {
                                local_authority_outcome,
                                setup_intent_retirement_outcome,
                            },
                        ),
                        Err(error) => Err(
                            OwnerFirstRunOrchestrationError::SetupIntentRetirement(error),
                        ),
                    },
                ),
        ),
    }
}

/// Run the first run with a selection, and retire the intent with it after success.
pub open spec fn selected_first_run_plan(
    selection: OwnerFirstSetupTransportCustodySelection,
    public_device_identity: PublicIdentityView,
    environment: HostEnvironment,
) -> StartupPlan<
    Result<OwnerFirstRunOrchestrationAndRetirementOutcome, OwnerFirstRunOrchestrationError>,
> {
    startup_bind(
        orchestration_plan(selection, public_device_identity, environment),
        |executed: Result<OwnerPcLocalAuthorityBootstrapOutcome, OwnerFirstRunOrchestrationError>|
            retirement_plan(selection, executed, environment),
    )
}

/// Read the intent once, run the first run with exactly that selection, and retire the intent
/// after success.
pub open spec fn orchestration_and_retirement_plan(
    public_device_identity: PublicIdentityView,
    environment: HostEnvironment,
) -> StartupPlan<
    Result<OwnerFirstRunOrchestrationAndRetirementOutcome, OwnerFirstRunOrchestrationError>,
> {
    on_host(
        intent_from_environment(environment, load_intent_plan(true, environment.euid)),
        |loaded: Result<OwnerFirstSetupTransportCustodySelection, OwnerFirstRunSetupIntentError>|
            match loaded {
                Err(error) => StartupPlan::Finish(
                    Err(OwnerFirstRunOrchestrationError::SetupIntent(error)),
                ),
                Ok(selection) => selected_first_run_plan(
                    selection,
                    public_device_identity,
                    environment,
                ),
            },
    )
}

/// Runs the first run as part of a longer operation.
pub(crate) fn orchestration_in(
    transport_selection: OwnerFirstSetupTransportCustodySelection,
    public_device_identity: &PublicIdentityMaterial,
    environment: &HostEnvironment,
    replies: &mut StartupReplies<'_>,
) -> (outcome: Result<
    Result<OwnerPcLocalAuthorityBootstrapOutcome, OwnerFirstRunOrchestrationError>,
    StartupRequest<String, Vec<u8>>,
>)
    requires
        old(replies).wf(),
    ensures
        startup_went_along(
            orchestration_plan(transport_selection, public_device_identity@, *environment),
            *old(replies),
            outcome,
            *final(replies),
        ),
{
    broadcast use group_follow_startup;

    let owner_identity = match from_host(ensure_identity_in(environment, &mut replies.host))? {
        Ok(outcome) => outcome,
        Err(error) => {
            return Ok(Err(OwnerFirstRunOrchestrationError::OwnerIdentity(error)));
        },
    };
    let plan = compose_owner_first_setup_custody_policy_plan(
        owner_identity.record(),
        transport_selection,
    );
    match local_authority_in(&plan, public_device_identity, environment, replies)? {
        Ok(outcome) => Ok(Ok(outcome)),
        Err(error) => Ok(Err(OwnerFirstRunOrchestrationError::LocalAuthority(error))),
    }
}

/// Reads the intent and runs the first run as part of a longer operation.
fn orchestration_from_intent_in(
    public_device_identity: &PublicIdentityMaterial,
    environment: &HostEnvironment,
    replies: &mut StartupReplies<'_>,
) -> (outcome: Result<
    Result<OwnerPcLocalAuthorityBootstrapOutcome, OwnerFirstRunOrchestrationError>,
    StartupRequest<String, Vec<u8>>,
>)
    requires
        old(replies).wf(),
    ensures
        startup_went_along(
            orchestration_from_intent_plan(public_device_identity@, *environment),
            *old(replies),
            outcome,
            *final(replies),
        ),
{
    broadcast use group_follow_startup;

    match from_host(load_intent_in(environment, &mut replies.host))? {
        Err(error) => Ok(Err(OwnerFirstRunOrchestrationError::SetupIntent(error))),
        Ok(selection) => orchestration_in(selection, public_device_identity, environment, replies),
    }
}

/// Runs the pending first run and retires its intent as part of a longer operation.
pub(crate) fn orchestration_and_retirement_in(
    public_device_identity: &PublicIdentityMaterial,
    environment: &HostEnvironment,
    replies: &mut StartupReplies<'_>,
) -> (outcome: Result<
    Result<OwnerFirstRunOrchestrationAndRetirementOutcome, OwnerFirstRunOrchestrationError>,
    StartupRequest<String, Vec<u8>>,
>)
    requires
        old(replies).wf(),
    ensures
        startup_went_along(
            orchestration_and_retirement_plan(public_device_identity@, *environment),
            *old(replies),
            outcome,
            *final(replies),
        ),
{
    broadcast use group_follow_startup;

    let selection = match from_host(load_intent_in(environment, &mut replies.host))? {
        Ok(selection) => selection,
        Err(error) => {
            return Ok(Err(OwnerFirstRunOrchestrationError::SetupIntent(error)));
        },
    };
    let local_authority_outcome = match orchestration_in(
        selection,
        public_device_identity,
        environment,
        replies,
    )? {
        Ok(outcome) => outcome,
        Err(error) => {
            return Ok(Err(error));
        },
    };
    match from_host(retire_intent_in(environment, selection, &mut replies.host))? {
        Ok(setup_intent_retirement_outcome) => Ok(
            Ok(
                OwnerFirstRunOrchestrationAndRetirementOutcome {
                    local_authority_outcome,
                    setup_intent_retirement_outcome,
                },
            ),
        ),
        Err(error) => Ok(Err(OwnerFirstRunOrchestrationError::SetupIntentRetirement(error))),
    }
}

/// Ensures the owner's identity, provisions or recovers its transport identity under exactly the
/// selection, and bootstraps the local authority, as far as the replies go.
pub fn execute_dormant_owner_first_run_orchestration(
    transport_selection: OwnerFirstSetupTransportCustodySelection,
    public_device_identity: &PublicIdentityMaterial,
    environment: &HostEnvironment,
    host: &Vec<OutsideReply<Vec<u8>>>,
    registry: &Vec<RegistryReply<String, Vec<u8>>>,
) -> (progress: Progress<
    StartupRequest<String, Vec<u8>>,
    Result<OwnerPcLocalAuthorityBootstrapOutcome, OwnerFirstRunOrchestrationError>,
>)
    ensures
        startup_progress(progress) == follow_startup(
            orchestration_plan(transport_selection, public_device_identity@, *environment),
            reply_views(host@),
            registry_reply_views(registry@),
        ).progress,
{
    let mut replies = StartupReplies::new(host, registry);
    match orchestration_in(transport_selection, public_device_identity, environment, &mut replies) {
        Ok(result) => Progress::Done(result),
        Err(request) => Progress::Waiting(request),
    }
}

/// Reads the intent and runs the first run with it, as far as the replies go. The intent is left
/// where it is.
pub fn execute_dormant_owner_first_run_orchestration_from_setup_intent(
    public_device_identity: &PublicIdentityMaterial,
    environment: &HostEnvironment,
    host: &Vec<OutsideReply<Vec<u8>>>,
    registry: &Vec<RegistryReply<String, Vec<u8>>>,
) -> (progress: Progress<
    StartupRequest<String, Vec<u8>>,
    Result<OwnerPcLocalAuthorityBootstrapOutcome, OwnerFirstRunOrchestrationError>,
>)
    ensures
        startup_progress(progress) == follow_startup(
            orchestration_from_intent_plan(public_device_identity@, *environment),
            reply_views(host@),
            registry_reply_views(registry@),
        ).progress,
{
    let mut replies = StartupReplies::new(host, registry);
    match orchestration_from_intent_in(public_device_identity, environment, &mut replies) {
        Ok(result) => Progress::Done(result),
        Err(request) => Progress::Waiting(request),
    }
}

/// Reads the intent, runs the first run with it, and retires it only after success, as far as the
/// replies go.
pub fn execute_dormant_owner_first_run_orchestration_and_retire_setup_intent_after_success(
    public_device_identity: &PublicIdentityMaterial,
    environment: &HostEnvironment,
    host: &Vec<OutsideReply<Vec<u8>>>,
    registry: &Vec<RegistryReply<String, Vec<u8>>>,
) -> (progress: Progress<
    StartupRequest<String, Vec<u8>>,
    Result<OwnerFirstRunOrchestrationAndRetirementOutcome, OwnerFirstRunOrchestrationError>,
>)
    ensures
        startup_progress(progress) == follow_startup(
            orchestration_and_retirement_plan(public_device_identity@, *environment),
            reply_views(host@),
            registry_reply_views(registry@),
        ).progress,
{
    let mut replies = StartupReplies::new(host, registry);
    match orchestration_and_retirement_in(public_device_identity, environment, &mut replies) {
        Ok(result) => Progress::Done(result),
        Err(request) => Progress::Waiting(request),
    }
}

} // verus!
