//! What the owner's setup writes and reads, and what the command accepts: stated on bytes and words.
use vstd::prelude::*;
use vstd::utf8::{encode_utf8, valid_utf8};

use crate::domain::{DeviceLifecycle, PublicIdentityView, TransportIdentity};
use crate::durable_registry_authority::DurableRegistryAuthorityError;
use crate::environment::HostEnvironment;
use crate::host::Host;
use crate::outside::Place;
use crate::owner_established_startup_authority::{
    device_verdict, membership_verdict, OwnerEstablishedStartupAuthorityError,
};
use crate::owner_first_run_setup_intent::{
    ensure_intent_plan, OwnerFirstRunSetupIntentError, OwnerFirstRunSetupIntentWriteOutcome,
};
use crate::owner_first_setup_bootstrap_input_composition::inputs_for;
use crate::owner_first_setup_bootstrap_inputs::{
    decoded_identity, hex_char, hex_text, identity_from_entropy, is_hex_byte,
    is_prefixed_identifier, is_record_bytes, lemma_decoded_identity,
    lemma_encoding_is_a_record, lemma_identifier_bytes, lemma_record_has_an_identity,
    OwnerFirstSetupBootstrapInputError, OwnerIdentityView,
};
use crate::owner_first_setup_custody_policy_orchestration::OwnerFirstSetupTransportCustodySelection;
use crate::prw_first_run::{
    command_plan, is_command_line, lemma_command_line_names_one_selection, report_texts,
    PrwFirstRunCliError,
};
use crate::registry::{DeviceView, MembershipLifecycle, MembershipView, WorkspaceRole};
use crate::setup_intent_laws::{
    existing_intent_decides_the_write, has_sound_intent, intent_place_is_usable,
    lemma_absent_intent_is_created, written_over,
};
use crate::transport_identity_provisioning::{
    binding_text, established_policy, is_binding_path, is_binding_path_byte, rendered_dropin,
    TransportIdentityProvisioningPolicy,
};
use crate::working_host::{ends_working, group_working_steps};

verus! {

/// The digit of a value below sixteen: the decimal ones, and then the letters from `a` to `f`.
pub proof fn hexadecimal_digit_has_its_value(value: int)
    requires
        0 <= value < 16,
    ensures
        value < 10 ==> hex_char(value) as int == '0' as int + value,
        value >= 10 ==> hex_char(value) as int == 'a' as int + value - 10,
{
}

/// Every byte is written as two digits, the high one first, and no two byte strings of one length
/// are written the same.
pub proof fn digits_determine_the_bytes(left: Seq<u8>, right: Seq<u8>)
    requires
        left.len() == right.len(),
    ensures
        hex_text(left).len() == 2 * left.len(),
        forall|i: int|
            0 <= i < left.len() ==> {
                &&& #[trigger] hex_text(left)[2 * i] == hex_char(left[i] as int / 16)
                &&& hex_text(left)[2 * i + 1] == hex_char(left[i] as int % 16)
            },
        hex_text(left) == hex_text(right) ==> left == right,
{
    if hex_text(left) == hex_text(right) {
        assert forall|i: int| 0 <= i < left.len() implies left[i] == right[i] by {
            assert(hex_text(left)[2 * i] == hex_text(right)[2 * i]);
            assert(hex_text(left)[2 * i + 1] == hex_text(right)[2 * i + 1]);
            assert(hex_text(left)[2 * i] == hex_char(left[i] as int / 16));
            assert(hex_text(right)[2 * i] == hex_char(right[i] as int / 16));
            assert(hex_text(left)[2 * i + 1] == hex_char(left[i] as int % 16));
            assert(hex_text(right)[2 * i + 1] == hex_char(right[i] as int % 16));
            lemma_digits_differ(left[i] as int / 16, right[i] as int / 16);
            lemma_digits_differ(left[i] as int % 16, right[i] as int % 16);
        }
        assert(left =~= right);
    }
}

proof fn lemma_digits_differ(left: int, right: int)
    requires
        0 <= left < 16,
        0 <= right < 16,
        hex_char(left) == hex_char(right),
    ensures
        left == right,
{
    hexadecimal_digit_has_its_value(left);
    hexadecimal_digit_has_its_value(right);
}

/// The workspace, the user and the device are named by a letter of their own and the digits of the
/// value drawn for each of them.
pub proof fn identity_names_its_three_values(workspace: Seq<u8>, user: Seq<u8>, device: Seq<u8>)
    requires
        workspace.len() == 16,
        user.len() == 16,
        device.len() == 16,
    ensures
        ({
            let identity = identity_from_entropy(workspace, user, device);
            &&& identity.workspace.len() == 34 && identity.workspace[0] == 'w'
                && identity.workspace[1] == '-' && identity.workspace.skip(2) == hex_text(workspace)
            &&& identity.user.len() == 34 && identity.user[0] == 'u' && identity.user[1] == '-'
                && identity.user.skip(2) == hex_text(user)
            &&& identity.device.len() == 34 && identity.device[0] == 'd' && identity.device[1]
                == '-' && identity.device.skip(2) == hex_text(device)
        }),
{
    reveal_strlit("w-");
    reveal_strlit("u-");
    reveal_strlit("d-");
    let identity = identity_from_entropy(workspace, user, device);
    assert(identity.workspace.skip(2) =~= hex_text(workspace));
    assert(identity.user.skip(2) =~= hex_text(user));
    assert(identity.device.skip(2) =~= hex_text(device));
}

/// Different values name different owners.
pub proof fn different_values_name_different_owners(
    workspace: Seq<u8>,
    user: Seq<u8>,
    device: Seq<u8>,
    other_workspace: Seq<u8>,
    other_user: Seq<u8>,
    other_device: Seq<u8>,
)
    requires
        workspace.len() == 16,
        user.len() == 16,
        device.len() == 16,
        other_workspace.len() == 16,
        other_user.len() == 16,
        other_device.len() == 16,
        identity_from_entropy(workspace, user, device) == identity_from_entropy(
            other_workspace,
            other_user,
            other_device,
        ),
    ensures
        workspace == other_workspace,
        user == other_user,
        device == other_device,
{
    identity_names_its_three_values(workspace, user, device);
    identity_names_its_three_values(other_workspace, other_user, other_device);
    digits_determine_the_bytes(workspace, other_workspace);
    digits_determine_the_bytes(user, other_user);
    digits_determine_the_bytes(device, other_device);
}

/// The record of an identity has 110 bytes: eight that start every record, and then the names of the
/// workspace, the user and the device.
pub proof fn record_has_its_parts_in_place(identity: OwnerIdentityView)
    requires
        identity.is_canonical(),
    ensures
        ({
            let bytes = identity.encoded();
            &&& bytes.len() == 110
            &&& bytes[0] == 80 && bytes[1] == 82 && bytes[2] == 87 && bytes[3] == 79
            &&& bytes[4] == 66 && bytes[5] == 73 && bytes[6] == 49 && bytes[7] == 0
            &&& bytes.subrange(8, 42) == encode_utf8(identity.workspace)
            &&& bytes.subrange(42, 76) == encode_utf8(identity.user)
            &&& bytes.subrange(76, 110) == encode_utf8(identity.device)
        }),
{
    lemma_encoding_is_a_record(identity);
    lemma_identifier_bytes(identity.workspace, 119);
    lemma_identifier_bytes(identity.user, 117);
    lemma_identifier_bytes(identity.device, 100);
    let bytes = identity.encoded();
    assert(bytes.subrange(8, 42) =~= encode_utf8(identity.workspace));
    assert(bytes.subrange(42, 76) =~= encode_utf8(identity.user));
    assert(bytes.subrange(76, 110) =~= encode_utf8(identity.device));
}

/// An identity is canonical exactly when each name is its letter, a hyphen and 32 digits.
pub proof fn canonical_name_is_a_letter_and_digits(identity: OwnerIdentityView)
    ensures
        identity.is_canonical() <==> {
            &&& is_letter_and_digits(identity.workspace, 'w')
            &&& is_letter_and_digits(identity.user, 'u')
            &&& is_letter_and_digits(identity.device, 'd')
        },
{
}

/// A letter, a hyphen and 32 lower-case hexadecimal digits.
pub open spec fn is_letter_and_digits(text: Seq<char>, letter: char) -> bool {
    &&& text.len() == 34
    &&& text[0] == letter
    &&& text[1] == '-'
    &&& forall|i: int|
        2 <= i < 34 ==> '0' <= #[trigger] text[i] <= '9' || 'a' <= text[i] <= 'f'
}

/// Bytes are an identifier with a prefix exactly when they are 34 bytes of text that begin with the
/// prefix and go on with lower-case hexadecimal digits.
pub proof fn identifier_is_a_prefix_and_digits(bytes: Seq<u8>, prefix: Seq<u8>)
    ensures
        is_prefixed_identifier(bytes, prefix) <==> {
            &&& valid_utf8(bytes)
            &&& bytes.len() == 34
            &&& prefix.len() <= 34 && bytes.take(prefix.len() as int) == prefix
            &&& forall|i: int|
                prefix.len() <= i < 34 ==> 48 <= #[trigger] bytes[i] <= 57 || 97 <= bytes[i] <= 102
        },
{
    if prefix.len() <= bytes.len() {
        assert(bytes.take(prefix.len() as int) =~= bytes.subrange(0, prefix.len() as int));
    }
    if is_prefixed_identifier(bytes, prefix) {
        assert forall|i: int| prefix.len() <= i < 34 implies 48 <= #[trigger] bytes[i] <= 57 || 97
            <= bytes[i] <= 102 by {
            assert(is_hex_byte(bytes[i]));
        }
    }
}

/// Bytes are read as exactly the canonical identity whose record they are, and everything else is
/// malformed.
pub proof fn record_is_read_as_its_identity(bytes: Seq<u8>, identity: OwnerIdentityView)
    ensures
        identity.is_canonical() && bytes == identity.encoded() <==> decoded_identity(bytes) == Ok::<
            _,
            OwnerFirstSetupBootstrapInputError,
        >(identity),
        decoded_identity(bytes) is Err ==> decoded_identity(bytes) == Err::<OwnerIdentityView, _>(
            OwnerFirstSetupBootstrapInputError::MalformedLogicalIdentityRecord,
        ),
{
    if identity.is_canonical() && bytes == identity.encoded() {
        lemma_decoded_identity(identity);
    }
    if is_record_bytes(bytes) {
        lemma_record_has_an_identity(bytes);
    }
}

/// The inputs name the owner, enrolled under the device key, and the transport identity.
pub proof fn inputs_are_those_of_the_owner(
    owner: OwnerIdentityView,
    public_device_identity: PublicIdentityView,
    transport_identity: Seq<u8>,
)
    ensures
        ({
            let inputs = inputs_for(owner, public_device_identity, transport_identity);
            &&& inputs.binding.workspace == owner.workspace
            &&& inputs.binding.user == owner.user
            &&& inputs.binding.device == owner.device
            &&& inputs.binding.public_identity == public_device_identity
            &&& inputs.binding.lifecycle == DeviceLifecycle::Enrolled
            &&& inputs.transport_identity == transport_identity
        }),
{
}

/// The preferred selection stands for the preferred policy and the fallback for the fallback, and
/// each policy has its own mark.
pub proof fn selection_stands_for_its_policy(selection: OwnerFirstSetupTransportCustodySelection)
    ensures
        selection.policy() is Preferred <==> selection
            == OwnerFirstSetupTransportCustodySelection::PreferredDefault,
        selection.policy() is HostKeyOnly <==> selection
            == OwnerFirstSetupTransportCustodySelection::ExplicitHostKeyOnlyFallback,
        TransportIdentityProvisioningPolicy::Preferred.tier() == "TPM2_PLUS_HOST_SECRET"@,
        TransportIdentityProvisioningPolicy::HostKeyOnly.tier() == "HOST_KEY_ONLY"@,
{
}

/// A binding names its policy and the place of its ciphertext, line by line.
pub proof fn binding_names_policy_and_place(path: Seq<u8>, tier: Seq<char>)
    ensures
        binding_text(path, tier) == encode_utf8("# PRW_TRANSPORT_CUSTODY_TIER="@) + encode_utf8(tier)
            + encode_utf8("\n[Service]\nLoadCredentialEncrypted="@) + encode_utf8(
            "prw.transport-identity.private-key.v1"@,
        ) + encode_utf8(":"@) + path + encode_utf8("\n"@),
        rendered_dropin(path, tier) matches Some(payload) ==> payload == binding_text(path, tier),
        rendered_dropin(path, tier) is Some <==> is_binding_path(path) && (tier
            == "TPM2_PLUS_HOST_SECRET"@ || tier == "HOST_KEY_ONLY"@) && binding_text(
            path,
            tier,
        ).len() <= 4_096,
{
}

/// A path can be bound exactly when it is absolute, is text, and has no control character, no space,
/// no quote, no backslash and no percent sign.
pub proof fn bindable_path_has_no_special_character(path: Seq<u8>)
    ensures
        is_binding_path(path) <==> {
            &&& path.len() > 0 && path[0] == 47
            &&& valid_utf8(path)
            &&& forall|i: int|
                0 <= i < path.len() ==> (#[trigger] path[i]) > 32 && path[i] != 127 && path[i] != 92
                    && path[i] != 39 && path[i] != 34 && path[i] != 37
        },
{
    if is_binding_path(path) {
        assert forall|i: int| 0 <= i < path.len() implies (#[trigger] path[i]) > 32 && path[i] != 127
            && path[i] != 92 && path[i] != 39 && path[i] != 34 && path[i] != 37 by {
            assert(is_binding_path_byte(path[i]));
        }
    }
}

/// A binding stands for a policy only when it is the one rendered for that policy.
pub proof fn binding_stands_for_what_was_rendered(
    payload: Seq<u8>,
    path: Seq<u8>,
    policy: TransportIdentityProvisioningPolicy,
)
    ensures
        established_policy(payload, path) == Some(policy) ==> rendered_dropin(path, policy.tier())
            == Some(payload),
{
}

/// The owner's membership is current exactly when it is that of an active owner under the owner's own
/// names, and the owner's device when it is enrolled under the owner's names and key, with the
/// recovered transport identity.
pub proof fn current_records_are_the_owners_own(
    owner: OwnerIdentityView,
    key: PublicIdentityView,
    identity: TransportIdentity,
    membership: MembershipView,
    device: DeviceView,
)
    ensures
        membership_verdict(owner, Ok(Some(membership))) == (if membership.workspace
            == owner.workspace && membership.user == owner.user && membership.role
            == WorkspaceRole::Owner && membership.lifecycle == MembershipLifecycle::Active {
            Ok(())
        } else {
            Err(OwnerEstablishedStartupAuthorityError::OwnerMembershipNotCurrent)
        }),
        device_verdict(owner, key, identity, Ok(Some(device))) == (if device.binding.workspace
            == owner.workspace && device.binding.user == owner.user && device.binding.device
            == owner.device && device.binding.public_identity == key && device.binding.lifecycle
            == DeviceLifecycle::Enrolled && device.transport_identity == Some(identity) {
            Ok(())
        } else {
            Err(OwnerEstablishedStartupAuthorityError::OwnerDeviceNotCurrent)
        }),
{
}

/// A record that is missing, and one that cannot be read, is each reported as such.
pub proof fn missing_records_are_told_from_unreadable_ones(
    owner: OwnerIdentityView,
    key: PublicIdentityView,
    identity: TransportIdentity,
    error: DurableRegistryAuthorityError,
)
    ensures
        membership_verdict(owner, Ok(None)) == Err::<(), _>(
            OwnerEstablishedStartupAuthorityError::OwnerMembershipMissing,
        ),
        membership_verdict(owner, Err(error)) == Err::<(), _>(
            OwnerEstablishedStartupAuthorityError::AuthorityRead(error),
        ),
        device_verdict(owner, key, identity, Ok(None)) == Err::<(), _>(
            OwnerEstablishedStartupAuthorityError::OwnerDeviceMissing,
        ),
        device_verdict(owner, key, identity, Err(error)) == Err::<(), _>(
            OwnerEstablishedStartupAuthorityError::AuthorityRead(error),
        ),
{
}

/// The command has two words: `transport-custody`, and the word for a selection.
pub proof fn command_line_has_two_words(
    args: Seq<Vec<u8>>,
    selection: OwnerFirstSetupTransportCustodySelection,
)
    ensures
        is_command_line(args, selection) <==> args.len() == 2 && args[0]@ == encode_utf8(
            "transport-custody"@,
        ) && args[1]@ == encode_utf8(
            match selection {
                OwnerFirstSetupTransportCustodySelection::PreferredDefault => "preferred-default"@,
                OwnerFirstSetupTransportCustodySelection::ExplicitHostKeyOnlyFallback =>
                    "explicit-host-key-only-fallback"@,
            },
        ),
{
}

/// The report says what was written, that it was there, or why it failed.
pub proof fn report_says_what_happened(error: OwnerFirstRunSetupIntentError)
    ensures
        report_texts(
            Ok(
                OwnerFirstRunSetupIntentWriteOutcome::Created(
                    OwnerFirstSetupTransportCustodySelection::PreferredDefault,
                ),
            ),
        ) == seq![
            "prw-first-run command=transport-custody intent="@ + "preferred-default"@
                + " result=created"@,
        ],
        report_texts(
            Ok(
                OwnerFirstRunSetupIntentWriteOutcome::Created(
                    OwnerFirstSetupTransportCustodySelection::ExplicitHostKeyOnlyFallback,
                ),
            ),
        ) == seq![
            "prw-first-run command=transport-custody intent="@ + "explicit-host-key-only-fallback"@
                + " result=created"@,
        ],
        report_texts(
            Ok(
                OwnerFirstRunSetupIntentWriteOutcome::Existing(
                    OwnerFirstSetupTransportCustodySelection::PreferredDefault,
                ),
            ),
        ) == seq![
            "prw-first-run command=transport-custody intent="@ + "preferred-default"@
                + " result=existing"@,
        ],
        report_texts(
            Ok(
                OwnerFirstRunSetupIntentWriteOutcome::Existing(
                    OwnerFirstSetupTransportCustodySelection::ExplicitHostKeyOnlyFallback,
                ),
            ),
        ) == seq![
            "prw-first-run command=transport-custody intent="@ + "explicit-host-key-only-fallback"@
                + " result=existing"@,
        ],
        report_texts(Err(PrwFirstRunCliError::InvalidArguments)).len() == 2,
        report_texts(Err(PrwFirstRunCliError::InvalidArguments))[0]
            == "prw-first-run result=failure error=invalid_arguments"@,
        report_texts(Err(PrwFirstRunCliError::Writer(error))) == seq![
            "prw-first-run result=failure error="@ + error.text(),
        ],
{
}

/// Arguments that name no selection are refused before anything is asked, and change nothing.
pub proof fn wrong_arguments_are_refused_at_once(
    args: Seq<Vec<u8>>,
    environment: HostEnvironment,
    uid: u32,
    host: Host,
    result: Result<OwnerFirstRunSetupIntentWriteOutcome, PrwFirstRunCliError>,
    after: Host,
)
    requires
        forall|selection: OwnerFirstSetupTransportCustodySelection|
            !(#[trigger] is_command_line(args, selection)),
        ends_working(uid, command_plan(args, environment), host, result, after),
    ensures
        result == Err::<OwnerFirstRunSetupIntentWriteOutcome, _>(
            PrwFirstRunCliError::InvalidArguments,
        ),
        after == host,
{
    broadcast use group_working_steps;

}

/// On a host that works, the command writes exactly the selection that its arguments name: it is
/// created where there is no intent, and judged against the one that is there otherwise.
pub proof fn command_writes_the_named_selection(
    args: Seq<Vec<u8>>,
    environment: HostEnvironment,
    selection: OwnerFirstSetupTransportCustodySelection,
    host: Host,
    result: Result<OwnerFirstRunSetupIntentWriteOutcome, PrwFirstRunCliError>,
    after: Host,
)
    requires
        is_command_line(args, selection),
        environment.state_root_path() is Some,
        intent_place_is_usable(host, true, environment.euid),
        ends_working(
            environment.euid,
            command_plan(args, environment),
            host,
            result,
            after,
        ),
        !host.files.contains_key(Place::IntentTemporary),
    ensures
        if host.files.contains_key(Place::IntentRecord) {
            result == (match written_over(host, environment.euid, selection) {
                Ok(outcome) => Ok(outcome),
                Err(error) => Err(PrwFirstRunCliError::Writer(error)),
            })
        } else {
            &&& result == Ok::<_, PrwFirstRunCliError>(
                OwnerFirstRunSetupIntentWriteOutcome::Created(selection),
            )
            &&& has_sound_intent(
                after,
                true,
                environment.euid,
                selection,
            )
        },
{
    broadcast use group_working_steps;

    let uid = environment.euid;
    let chosen = choose|other: OwnerFirstSetupTransportCustodySelection|
        is_command_line(args, other);
    lemma_command_line_names_one_selection(args, selection, chosen);
    let plan = ensure_intent_plan(true, uid, selection);
    assert forall|
        written: Result<OwnerFirstRunSetupIntentWriteOutcome, OwnerFirstRunSetupIntentError>,
        end: Host,
    | #[trigger] ends_working(uid, plan, host, written, end) implies (
    if host.files.contains_key(Place::IntentRecord) {
        written == written_over(host, uid, selection)
    } else {
        &&& written == Ok::<_, OwnerFirstRunSetupIntentError>(
            OwnerFirstRunSetupIntentWriteOutcome::Created(selection),
        )
        &&& has_sound_intent(end, true, uid, selection)
    }) by {
        if host.files.contains_key(Place::IntentRecord) {
            existing_intent_decides_the_write(
                true,
                uid,
                selection,
                host,
                written,
                end,
            );
        } else {
            lemma_absent_intent_is_created(
                true,
                uid,
                selection,
                host,
                written,
                end,
            );
        }
    }
}

} // verus!
