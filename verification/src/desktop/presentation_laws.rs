//! What the desktop says, and which lists it accepts: stated word by word and byte by byte.
use vstd::prelude::*;
use vstd::utf8::{encode_utf8, valid_utf8};

use crate::bytes::decimal;
use crate::desktop::local_management_ipc::{
    entry_bytes, first_entry, is_entry, list_bytes, listed, EntryView, LocalFileListDecodeError,
    LocalFileListEntryKind,
};
use crate::desktop::startup_probe::{description, failure_view};
use crate::desktop::state::{
    AgentAvailability, AgentRuntimePresentation, NavigationDestination, PresentationView,
};
use crate::local_commands::snapshots::LocalAgentRuntimeState;

verus! {

/// Each reported state is shown under its own name, and one that is not recognized as unknown.
pub proof fn reported_state_is_shown_by_name(state: LocalAgentRuntimeState)
    ensures
        AgentRuntimePresentation::shown(state).spec_label() == (match state {
            LocalAgentRuntimeState::Starting => "Starting"@,
            LocalAgentRuntimeState::Ready => "Ready"@,
            LocalAgentRuntimeState::Degraded => "Degraded"@,
            LocalAgentRuntimeState::Stopping => "Stopping"@,
            LocalAgentRuntimeState::Unrecognized => "Unknown"@,
        }),
        AgentRuntimePresentation::shown(state) is Ready <==> state is Ready,
        AgentRuntimePresentation::shown(state) is Starting <==> state is Starting,
        AgentRuntimePresentation::shown(state) is Degraded <==> state is Degraded,
        AgentRuntimePresentation::shown(state) is Stopping <==> state is Stopping,
        AgentRuntimePresentation::shown(state) is Unknown <==> state is Unrecognized,
{
}

/// The status text names the availability and the runtime, and says when none was reported.
pub proof fn status_text_names_what_is_known(view: PresentationView)
    ensures
        ({
            let availability = match view.availability {
                AgentAvailability::Unknown => "Unknown"@,
                AgentAvailability::Offline => "Offline"@,
                AgentAvailability::Connecting => "Connecting"@,
                AgentAvailability::Online => "Online"@,
                AgentAvailability::Error => "Error"@,
            };
            let runtime = match view.runtime {
                Some(AgentRuntimePresentation::Starting) => "Starting"@,
                Some(AgentRuntimePresentation::Ready) => "Ready"@,
                Some(AgentRuntimePresentation::Degraded) => "Degraded"@,
                Some(AgentRuntimePresentation::Stopping) => "Stopping"@,
                Some(AgentRuntimePresentation::Unknown) => "Unknown"@,
                None => "Not reported"@,
            };
            view.agent_status() == "Agent status\nAvailability: "@ + availability + "\nRuntime: "@
                + runtime
        }),
{
}

/// The text on the private name service gives its switches and its counts, in this order.
pub proof fn private_dns_text_gives_the_snapshot(view: PresentationView)
    ensures
        view.private_dns is None ==> view.private_dns_status()
            == "Private DNS\nNo validated snapshot available"@,
        view.private_dns matches Some(dns) ==> view.private_dns_status()
            == "Private DNS\nEnabled: "@ + (if dns.enabled {
            "Yes"@
        } else {
            "No"@
        }) + "\nDevice naming: "@ + (if dns.device_naming {
            "Yes"@
        } else {
            "No"@
        }) + "\nResolvers: "@ + decimal(dns.resolver_count as nat) + "\nSplit domains: "@ + decimal(
            dns.split_domain_count as nat,
        ),
{
}

/// A failure is shown as an error with its text and nothing else, and at first nothing is known.
pub proof fn failure_shows_its_text_alone(detail: Seq<char>)
    ensures
        failure_view(detail).availability == AgentAvailability::Error,
        failure_view(detail).detail == detail,
        failure_view(detail).runtime is None,
        failure_view(detail).private_dns is None,
        failure_view(detail).selected == NavigationDestination::Overview,
        PresentationView::initial().availability == AgentAvailability::Unknown,
        PresentationView::initial().runtime is None,
        PresentationView::initial().private_dns is None,
        PresentationView::initial().selected == NavigationDestination::Overview,
        PresentationView::initial().detail.len() == 0,
{
}

/// Each page has its own title and its own name.
pub proof fn page_has_its_title_and_name(destination: NavigationDestination)
    ensures
        (destination.spec_title(), destination.spec_stack_name()) == (match destination {
            NavigationDestination::Overview => ("Overview"@, "overview"@),
            NavigationDestination::Machines => ("Machines"@, "machines"@),
            NavigationDestination::Sessions => ("Sessions"@, "sessions"@),
            NavigationDestination::Files => ("Files"@, "files"@),
            NavigationDestination::Transfers => ("Transfers"@, "transfers"@),
            NavigationDestination::Activity => ("Activity"@, "activity"@),
            NavigationDestination::Settings => ("Settings"@, "settings"@),
        }),
{
}

/// What each page without content says about itself.
pub proof fn page_says_what_it_is_reserved_for(destination: NavigationDestination)
    ensures
        description(destination) == (match destination {
            NavigationDestination::Overview =>
                "Overview is implemented as a read-only local status surface."@,
            NavigationDestination::Machines =>
                "Reserved for enrolled-device and reachability presentation. Endpoint data is not identity or authorization."@,
            NavigationDestination::Sessions =>
                "Reserved for authorized terminal, Remote Desktop, and forwarding session presentation when runtime state is available."@,
            NavigationDestination::Files =>
                "Reserved for remote browsing and file operations through the existing authenticated file authority."@,
            NavigationDestination::Transfers =>
                "Reserved for verified upload/download progress and completion state."@,
            NavigationDestination::Activity =>
                "Reserved for locally available Ownspace activity and diagnostics. No external telemetry is implied."@,
            NavigationDestination::Settings =>
                "Reserved for explicit owner-controlled local settings and diagnostics; no cloud account dependency is implied."@,
        }),
{
}

/// An entry is shown by its name, with a mark that tells what it is unless it is a regular file.
pub proof fn entry_is_shown_with_its_mark(entry: EntryView)
    ensures
        entry.shown() == entry.name + (match entry.kind {
            LocalFileListEntryKind::RegularFile => Seq::<char>::empty(),
            LocalFileListEntryKind::Directory => "/"@,
            LocalFileListEntryKind::SymbolicLink => " [symlink]"@,
            LocalFileListEntryKind::Other => " [other]"@,
        }),
{
    assert(entry.name + Seq::<char>::empty() =~= entry.name);
}

/// An entry is written as one byte for what it is, two for the length of its name, and the name.
pub proof fn entry_is_written_in_order(entry: EntryView)
    requires
        is_entry(entry),
    ensures
        ({
            let bytes = entry_bytes(entry);
            let name = encode_utf8(entry.name);
            &&& bytes.len() == 3 + name.len()
            &&& bytes[0] == 1 <==> entry.kind == LocalFileListEntryKind::RegularFile
            &&& bytes[0] == 2 <==> entry.kind == LocalFileListEntryKind::Directory
            &&& bytes[0] == 3 <==> entry.kind == LocalFileListEntryKind::SymbolicLink
            &&& bytes[0] == 4 <==> entry.kind == LocalFileListEntryKind::Other
            &&& bytes[1] as int * 256 + bytes[2] as int == name.len()
            &&& bytes.skip(3) == name
        }),
{
    let bytes = entry_bytes(entry);
    assert(bytes.skip(3) =~= encode_utf8(entry.name));
}

/// A list is written as the byte two, two bytes for the number of entries, and the entries.
pub proof fn list_is_written_in_order(entries: Seq<EntryView>)
    requires
        entries.len() <= 0xffff,
    ensures
        ({
            let bytes = list_bytes(entries);
            &&& bytes[0] == 2
            &&& bytes[1] as int * 256 + bytes[2] as int == entries.len()
        }),
{
}

/// What is refused before any entry is read: a body without its two bytes of status, a body that is
/// no list, and a list with more entries than allowed.
pub proof fn list_is_refused_before_its_entries(payload: Seq<u8>, limit: nat)
    ensures
        payload.len() < 2 <==> listed(payload, limit) == Err::<Seq<EntryView>, _>(
            LocalFileListDecodeError::MissingResult,
        ),
        payload.len() == 2 || payload.len() > 2 && payload[2] != 2 <==> listed(payload, limit)
            == Err::<Seq<EntryView>, _>(LocalFileListDecodeError::UnexpectedResult),
        payload.len() > 2 && payload[2] == 2 && (payload.len() < 5 || payload[3] as int * 256
            + payload[4] as int > limit) ==> listed(payload, limit) == Err::<Seq<EntryView>, _>(
            LocalFileListDecodeError::EntryCount,
        ),
{
    crate::desktop::local_management_ipc::lemma_entry_errors(payload, limit);
}

/// What is refused of an entry, in this order: a kind that is none of the four, a length that is not
/// all there, a name that is no text, and a name that is empty.
pub proof fn entry_is_refused_in_order(bytes: Seq<u8>)
    ensures
        ({
            let kind = bytes.len() > 0 && (bytes[0] == 1 || bytes[0] == 2 || bytes[0] == 3
                || bytes[0] == 4);
            let length = bytes[1] as int * 256 + bytes[2] as int;
            let whole = bytes.len() >= 3 && bytes.len() >= 3 + length;
            let name = bytes.subrange(3, 3 + length);
            &&& !kind <==> first_entry(bytes) == Err::<EntryView, _>(
                LocalFileListDecodeError::EntryType,
            )
            &&& kind && whole && !valid_utf8(name) <==> first_entry(bytes) == Err::<EntryView, _>(
                LocalFileListDecodeError::EntryUtf8,
            )
            &&& kind && (!whole || whole && length == 0 && valid_utf8(name)) <==> first_entry(bytes)
                == Err::<EntryView, _>(LocalFileListDecodeError::EntryLength)
            &&& kind && whole && valid_utf8(name) && length > 0 <==> first_entry(bytes) is Ok
        }),
{
}

} // verus!
