//! The grammar and the reports of the `prw-first-run` command.
use vstd::prelude::*;
use vstd::string::*;
use vstd::utf8::*;

use crate::bytes::same_bytes;
use crate::environment::HostEnvironment;
use crate::outside::{reply_views, HostPlan, OutsideReply, OutsideRequest};
use crate::owner_first_run_setup_intent::{
    ensure_intent_plan, ensure_owner_first_run_transport_custody_intent_from_env,
    intent_from_environment, OwnerFirstRunSetupIntentError, OwnerFirstRunSetupIntentWriteOutcome,
};
use crate::owner_first_setup_custody_policy_orchestration::OwnerFirstSetupTransportCustodySelection;
use crate::plan::{bind, follow, lemma_follow_bind, Plan, Progress};

verus! {

pub const TRANSPORT_CUSTODY_COMMAND: &'static str = "transport-custody";

pub const PREFERRED_DEFAULT_TOKEN: &'static str = "preferred-default";

pub const EXPLICIT_HOST_KEY_ONLY_FALLBACK_TOKEN: &'static str = "explicit-host-key-only-fallback";

pub const USAGE: &'static str =
    "usage: prw-first-run transport-custody <preferred-default|explicit-host-key-only-fallback>";

/// Why the command failed.
#[derive(Clone, Copy, PartialEq, Eq, Structural, Debug)]
pub enum PrwFirstRunCliError {
    InvalidArguments,
    Writer(OwnerFirstRunSetupIntentError),
}

/// The word for a selection on the command line.
pub open spec fn token_text(selection: OwnerFirstSetupTransportCustodySelection) -> Seq<char> {
    match selection {
        OwnerFirstSetupTransportCustodySelection::PreferredDefault => PREFERRED_DEFAULT_TOKEN@,
        OwnerFirstSetupTransportCustodySelection::ExplicitHostKeyOnlyFallback =>
            EXPLICIT_HOST_KEY_ONLY_FALLBACK_TOKEN@,
    }
}

pub fn selection_token(selection: OwnerFirstSetupTransportCustodySelection) -> (token: &'static str)
    ensures
        token@ == token_text(selection),
{
    match selection {
        OwnerFirstSetupTransportCustodySelection::PreferredDefault => PREFERRED_DEFAULT_TOKEN,
        OwnerFirstSetupTransportCustodySelection::ExplicitHostKeyOnlyFallback =>
            EXPLICIT_HOST_KEY_ONLY_FALLBACK_TOKEN,
    }
}

/// The arguments are exactly the command and the word for a selection.
pub open spec fn is_command_line(
    args: Seq<Vec<u8>>,
    selection: OwnerFirstSetupTransportCustodySelection,
) -> bool {
    &&& args.len() == 2
    &&& args[0]@ == encode_utf8(TRANSPORT_CUSTODY_COMMAND@)
    &&& args[1]@ == encode_utf8(token_text(selection))
}

/// No arguments name two selections.
pub proof fn lemma_command_line_names_one_selection(
    args: Seq<Vec<u8>>,
    left: OwnerFirstSetupTransportCustodySelection,
    right: OwnerFirstSetupTransportCustodySelection,
)
    requires
        is_command_line(args, left),
        is_command_line(args, right),
    ensures
        left == right,
{
    reveal_strlit("preferred-default");
    reveal_strlit("explicit-host-key-only-fallback");
    crate::bytes::lemma_encoding_is_injective(token_text(left), token_text(right));
    assert(PREFERRED_DEFAULT_TOKEN@.len() != EXPLICIT_HOST_KEY_ONLY_FALLBACK_TOKEN@.len());
}

/// Parses the arguments after the program's name, given as raw bytes.
pub fn parse_transport_custody_selection(args: &Vec<Vec<u8>>) -> (selection: Result<
    OwnerFirstSetupTransportCustodySelection,
    PrwFirstRunCliError,
>)
    ensures
        match selection {
            Ok(parsed) => is_command_line(args@, parsed),
            Err(error) => error == PrwFirstRunCliError::InvalidArguments && forall|
                other: OwnerFirstSetupTransportCustodySelection,
            |
                !(#[trigger] is_command_line(args@, other)),
        },
{
    if args.len() != 2 || !same_bytes(args[0].as_slice(), TRANSPORT_CUSTODY_COMMAND.as_bytes()) {
        return Err(PrwFirstRunCliError::InvalidArguments);
    }
    if same_bytes(args[1].as_slice(), PREFERRED_DEFAULT_TOKEN.as_bytes()) {
        return Ok(OwnerFirstSetupTransportCustodySelection::PreferredDefault);
    }
    if same_bytes(args[1].as_slice(), EXPLICIT_HOST_KEY_ONLY_FALLBACK_TOKEN.as_bytes()) {
        return Ok(OwnerFirstSetupTransportCustodySelection::ExplicitHostKeyOnlyFallback);
    }
    Err(PrwFirstRunCliError::InvalidArguments)
}

/// Parses the arguments and hands the selection to the writer. The writer does not run on
/// arguments that name no selection.
pub fn execute_with_writer<F>(args: &Vec<Vec<u8>>, writer: F) -> (executed: Result<
    OwnerFirstRunSetupIntentWriteOutcome,
    PrwFirstRunCliError,
>) where
    F: FnOnce(OwnerFirstSetupTransportCustodySelection) -> Result<
        OwnerFirstRunSetupIntentWriteOutcome,
        OwnerFirstRunSetupIntentError,
    >,

    requires
        forall|selection: OwnerFirstSetupTransportCustodySelection|
            is_command_line(args@, selection) ==> #[trigger] call_requires(writer, (selection,)),
    ensures
        match executed {
            Ok(outcome) => exists|selection: OwnerFirstSetupTransportCustodySelection|
                is_command_line(args@, selection) && #[trigger] call_ensures(
                    writer,
                    (selection,),
                    Ok(outcome),
                ),
            Err(PrwFirstRunCliError::InvalidArguments) => forall|
                selection: OwnerFirstSetupTransportCustodySelection,
            |
                !(#[trigger] is_command_line(args@, selection)),
            Err(PrwFirstRunCliError::Writer(error)) => exists|
                selection: OwnerFirstSetupTransportCustodySelection,
            |
                is_command_line(args@, selection) && #[trigger] call_ensures(
                    writer,
                    (selection,),
                    Err(error),
                ),
        },
{
    let selection = match parse_transport_custody_selection(args) {
        Ok(selection) => selection,
        Err(error) => {
            return Err(error);
        },
    };
    match writer(selection) {
        Ok(outcome) => {
            assert(call_ensures(writer, (selection,), Ok(outcome)));
            Ok(outcome)
        },
        Err(error) => {
            assert(call_ensures(writer, (selection,), Err(error)));
            Err(PrwFirstRunCliError::Writer(error))
        },
    }
}

/// What the command reports, line by line.
pub struct CommandReport {
    pub succeeded: bool,
    pub lines: Vec<String>,
}

/// The lines of the report.
pub open spec fn report_texts(
    executed: Result<OwnerFirstRunSetupIntentWriteOutcome, PrwFirstRunCliError>,
) -> Seq<Seq<char>> {
    match executed {
        Ok(OwnerFirstRunSetupIntentWriteOutcome::Created(selection)) => seq![
            "prw-first-run command=transport-custody intent="@ + token_text(selection)
                + " result=created"@,
        ],
        Ok(OwnerFirstRunSetupIntentWriteOutcome::Existing(selection)) => seq![
            "prw-first-run command=transport-custody intent="@ + token_text(selection)
                + " result=existing"@,
        ],
        Err(PrwFirstRunCliError::InvalidArguments) => seq![
            "prw-first-run result=failure error=invalid_arguments"@,
            USAGE@,
        ],
        Err(PrwFirstRunCliError::Writer(error)) => seq![
            "prw-first-run result=failure error="@ + error.text(),
        ],
    }
}

/// The report of what the command came to. It is a success exactly when the intent was created or
/// was already there.
pub fn report(executed: Result<OwnerFirstRunSetupIntentWriteOutcome, PrwFirstRunCliError>) -> (report:
    CommandReport)
    ensures
        report.succeeded == (executed is Ok),
        report.lines@.map_values(|line: String| line@) == report_texts(executed),
{
    let mut lines: Vec<String> = Vec::new();
    match executed {
        Ok(outcome) => {
            let mut line = "prw-first-run command=transport-custody intent=".to_owned();
            line.append(selection_token(outcome.selection()));
            line.append(
                if outcome.was_created() {
                    " result=created"
                } else {
                    " result=existing"
                },
            );
            lines.push(line);
            assert(lines@.map_values(|line: String| line@) =~= report_texts(executed));
            CommandReport { succeeded: true, lines }
        },
        Err(PrwFirstRunCliError::InvalidArguments) => {
            lines.push("prw-first-run result=failure error=invalid_arguments".to_owned());
            lines.push(USAGE.to_owned());
            assert(lines@.map_values(|line: String| line@) =~= report_texts(executed));
            CommandReport { succeeded: false, lines }
        },
        Err(PrwFirstRunCliError::Writer(error)) => {
            lines.push("prw-first-run result=failure error=".to_owned().concat(error.message()));
            assert(lines@.map_values(|line: String| line@) =~= report_texts(executed));
            CommandReport { succeeded: false, lines }
        },
    }
}

/// Write the intent that the arguments name, or refuse them before anything is asked.
pub open spec fn command_plan(args: Seq<Vec<u8>>, environment: HostEnvironment) -> HostPlan<
    Result<OwnerFirstRunSetupIntentWriteOutcome, PrwFirstRunCliError>,
> {
    if exists|selection: OwnerFirstSetupTransportCustodySelection| is_command_line(args, selection) {
        let selection = choose|selection: OwnerFirstSetupTransportCustodySelection|
            is_command_line(args, selection);
        bind(
            intent_from_environment(
                environment,
                ensure_intent_plan(true, environment.euid, selection),
            ),
            |written: Result<OwnerFirstRunSetupIntentWriteOutcome, OwnerFirstRunSetupIntentError>|
                Plan::Finish(
                    match written {
                        Ok(outcome) => Ok(outcome),
                        Err(error) => Err(PrwFirstRunCliError::Writer(error)),
                    },
                ),
        )
    } else {
        Plan::Finish(Err(PrwFirstRunCliError::InvalidArguments))
    }
}

/// Runs the command on its arguments, without the program's name, as far as the replies go.
pub fn run_from_env_args(
    args: &Vec<Vec<u8>>,
    environment: &HostEnvironment,
    replies: &Vec<OutsideReply<Vec<u8>>>,
) -> (progress: Progress<OutsideRequest<Vec<u8>>, CommandReport>)
    ensures
        match follow(command_plan(args@, *environment), reply_views(replies@)).0 {
            Progress::Waiting(request) => progress matches Progress::Waiting(asked) && asked@
                == request,
            Progress::Done(executed) => progress matches Progress::Done(report) && report.succeeded
                == (executed is Ok) && report.lines@.map_values(|line: String| line@)
                == report_texts(executed),
        },
{
    broadcast use lemma_follow_bind;

    let selection = match parse_transport_custody_selection(args) {
        Ok(selection) => selection,
        Err(error) => {
            return Progress::Done(report(Err(error)));
        },
    };
    proof {
        let chosen = choose|other: OwnerFirstSetupTransportCustodySelection|
            is_command_line(args@, other);
        lemma_command_line_names_one_selection(args@, selection, chosen);
    }
    match ensure_owner_first_run_transport_custody_intent_from_env(environment, selection, replies) {
        Progress::Waiting(request) => Progress::Waiting(request),
        Progress::Done(Ok(outcome)) => Progress::Done(report(Ok(outcome))),
        Progress::Done(Err(error)) => Progress::Done(report(Err(PrwFirstRunCliError::Writer(error)))),
    }
}

} // verus!
