//! What the desktop shows about the local Agent. Nothing here grants anything.
use vstd::prelude::*;
use vstd::string::*;

use crate::bytes::{decimal, decimal_text};
use crate::local_commands::snapshots::{
    LocalAgentRuntimeState, LocalAgentStatusSnapshot, LocalPrivateDnsSnapshot,
};

verus! {

/// The pages of the desktop.
#[derive(Clone, Copy, PartialEq, Eq, Structural, Debug)]
pub enum NavigationDestination {
    Overview,
    Machines,
    Sessions,
    Files,
    Transfers,
    Activity,
    Settings,
}

impl Default for NavigationDestination {
    fn default() -> (destination: NavigationDestination)
        ensures
            destination == NavigationDestination::Overview,
    {
        NavigationDestination::Overview
    }
}

impl NavigationDestination {
    /// All pages, in the order in which they are listed.
    pub const ALL: [NavigationDestination; 7] = [
        NavigationDestination::Overview,
        NavigationDestination::Machines,
        NavigationDestination::Sessions,
        NavigationDestination::Files,
        NavigationDestination::Transfers,
        NavigationDestination::Activity,
        NavigationDestination::Settings,
    ];

    pub open spec fn spec_title(self) -> Seq<char> {
        match self {
            NavigationDestination::Overview => "Overview"@,
            NavigationDestination::Machines => "Machines"@,
            NavigationDestination::Sessions => "Sessions"@,
            NavigationDestination::Files => "Files"@,
            NavigationDestination::Transfers => "Transfers"@,
            NavigationDestination::Activity => "Activity"@,
            NavigationDestination::Settings => "Settings"@,
        }
    }

    pub fn title(self) -> (title: &'static str)
        ensures
            title@ == self.spec_title(),
    {
        match self {
            NavigationDestination::Overview => "Overview",
            NavigationDestination::Machines => "Machines",
            NavigationDestination::Sessions => "Sessions",
            NavigationDestination::Files => "Files",
            NavigationDestination::Transfers => "Transfers",
            NavigationDestination::Activity => "Activity",
            NavigationDestination::Settings => "Settings",
        }
    }

    pub open spec fn spec_stack_name(self) -> Seq<char> {
        match self {
            NavigationDestination::Overview => "overview"@,
            NavigationDestination::Machines => "machines"@,
            NavigationDestination::Sessions => "sessions"@,
            NavigationDestination::Files => "files"@,
            NavigationDestination::Transfers => "transfers"@,
            NavigationDestination::Activity => "activity"@,
            NavigationDestination::Settings => "settings"@,
        }
    }

    pub fn stack_name(self) -> (name: &'static str)
        ensures
            name@ == self.spec_stack_name(),
    {
        match self {
            NavigationDestination::Overview => "overview",
            NavigationDestination::Machines => "machines",
            NavigationDestination::Sessions => "sessions",
            NavigationDestination::Files => "files",
            NavigationDestination::Transfers => "transfers",
            NavigationDestination::Activity => "activity",
            NavigationDestination::Settings => "settings",
        }
    }
}

/// Every page is listed, and none twice.
pub proof fn navigation_lists_every_page_once(destination: NavigationDestination)
    ensures
        NavigationDestination::ALL@.contains(destination),
        forall|i: int, j: int|
            0 <= i < j < NavigationDestination::ALL@.len() ==> NavigationDestination::ALL@[i]
                != NavigationDestination::ALL@[j],
{
    let all = NavigationDestination::ALL@;
    assert(all[0] == NavigationDestination::Overview);
    assert(all[1] == NavigationDestination::Machines);
    assert(all[2] == NavigationDestination::Sessions);
    assert(all[3] == NavigationDestination::Files);
    assert(all[4] == NavigationDestination::Transfers);
    assert(all[5] == NavigationDestination::Activity);
    assert(all[6] == NavigationDestination::Settings);
}

/// Whether the Agent can be reached.
#[derive(Clone, Copy, PartialEq, Eq, Structural, Debug)]
pub enum AgentAvailability {
    Unknown,
    Offline,
    Connecting,
    Online,
    Error,
}

impl Default for AgentAvailability {
    fn default() -> (availability: AgentAvailability)
        ensures
            availability == AgentAvailability::Unknown,
    {
        AgentAvailability::Unknown
    }
}

impl AgentAvailability {
    pub open spec fn spec_label(self) -> Seq<char> {
        match self {
            AgentAvailability::Unknown => "Unknown"@,
            AgentAvailability::Offline => "Offline"@,
            AgentAvailability::Connecting => "Connecting"@,
            AgentAvailability::Online => "Online"@,
            AgentAvailability::Error => "Error"@,
        }
    }

    pub fn label(self) -> (label: &'static str)
        ensures
            label@ == self.spec_label(),
    {
        match self {
            AgentAvailability::Unknown => "Unknown",
            AgentAvailability::Offline => "Offline",
            AgentAvailability::Connecting => "Connecting",
            AgentAvailability::Online => "Online",
            AgentAvailability::Error => "Error",
        }
    }
}

/// The runtime's state as shown.
#[derive(Clone, Copy, PartialEq, Eq, Structural, Debug)]
pub enum AgentRuntimePresentation {
    Starting,
    Ready,
    Degraded,
    Stopping,
    Unknown,
}

impl AgentRuntimePresentation {
    pub open spec fn spec_label(self) -> Seq<char> {
        match self {
            AgentRuntimePresentation::Starting => "Starting"@,
            AgentRuntimePresentation::Ready => "Ready"@,
            AgentRuntimePresentation::Degraded => "Degraded"@,
            AgentRuntimePresentation::Stopping => "Stopping"@,
            AgentRuntimePresentation::Unknown => "Unknown"@,
        }
    }

    pub fn label(self) -> (label: &'static str)
        ensures
            label@ == self.spec_label(),
    {
        match self {
            AgentRuntimePresentation::Starting => "Starting",
            AgentRuntimePresentation::Ready => "Ready",
            AgentRuntimePresentation::Degraded => "Degraded",
            AgentRuntimePresentation::Stopping => "Stopping",
            AgentRuntimePresentation::Unknown => "Unknown",
        }
    }

    /// How a reported state is shown; one that is not recognized is unknown.
    pub open spec fn shown(state: LocalAgentRuntimeState) -> AgentRuntimePresentation {
        match state {
            LocalAgentRuntimeState::Starting => AgentRuntimePresentation::Starting,
            LocalAgentRuntimeState::Ready => AgentRuntimePresentation::Ready,
            LocalAgentRuntimeState::Degraded => AgentRuntimePresentation::Degraded,
            LocalAgentRuntimeState::Stopping => AgentRuntimePresentation::Stopping,
            LocalAgentRuntimeState::Unrecognized => AgentRuntimePresentation::Unknown,
        }
    }
}

impl From<LocalAgentRuntimeState> for AgentRuntimePresentation {
    fn from(state: LocalAgentRuntimeState) -> (shown: AgentRuntimePresentation) {
        match state {
            LocalAgentRuntimeState::Starting => AgentRuntimePresentation::Starting,
            LocalAgentRuntimeState::Ready => AgentRuntimePresentation::Ready,
            LocalAgentRuntimeState::Degraded => AgentRuntimePresentation::Degraded,
            LocalAgentRuntimeState::Stopping => AgentRuntimePresentation::Stopping,
            LocalAgentRuntimeState::Unrecognized => AgentRuntimePresentation::Unknown,
        }
    }
}

impl vstd::std_specs::convert::FromSpecImpl<LocalAgentRuntimeState> for AgentRuntimePresentation {
    open spec fn obeys_from_spec() -> bool {
        true
    }

    open spec fn from_spec(state: LocalAgentRuntimeState) -> AgentRuntimePresentation {
        AgentRuntimePresentation::shown(state)
    }
}

/// The private name service as shown.
#[derive(Clone, Copy, PartialEq, Eq, Structural, Debug)]
pub struct PrivateDnsPresentation {
    pub enabled: bool,
    pub device_naming: bool,
    pub resolver_count: usize,
    pub split_domain_count: usize,
}

impl PrivateDnsPresentation {
    pub fn of(snapshot: &LocalPrivateDnsSnapshot) -> (shown: PrivateDnsPresentation)
        ensures
            shown.enabled == snapshot.enabled,
            shown.device_naming == snapshot.device_naming,
            shown.resolver_count == snapshot.resolvers@.len(),
            shown.split_domain_count == snapshot.split_domains@.len(),
    {
        PrivateDnsPresentation {
            enabled: snapshot.enabled,
            device_naming: snapshot.device_naming,
            resolver_count: snapshot.resolvers.len(),
            split_domain_count: snapshot.split_domains.len(),
        }
    }
}

/// All that the desktop shows.
#[derive(PartialEq, Eq, Debug)]
pub struct DesktopPresentationState {
    pub availability: AgentAvailability,
    pub runtime: Option<AgentRuntimePresentation>,
    pub private_dns: Option<PrivateDnsPresentation>,
    pub selected: NavigationDestination,
    pub detail: String,
}

/// What a [`DesktopPresentationState`] shows.
pub struct PresentationView {
    pub availability: AgentAvailability,
    pub runtime: Option<AgentRuntimePresentation>,
    pub private_dns: Option<PrivateDnsPresentation>,
    pub selected: NavigationDestination,
    pub detail: Seq<char>,
}

impl View for DesktopPresentationState {
    type V = PresentationView;

    open spec fn view(&self) -> PresentationView {
        PresentationView {
            availability: self.availability,
            runtime: self.runtime,
            private_dns: self.private_dns,
            selected: self.selected,
            detail: self.detail@,
        }
    }
}

impl PresentationView {
    /// Nothing known, on the first page.
    pub open spec fn initial() -> PresentationView {
        PresentationView {
            availability: AgentAvailability::Unknown,
            runtime: None,
            private_dns: None,
            selected: NavigationDestination::Overview,
            detail: Seq::empty(),
        }
    }

    pub open spec fn agent_status(self) -> Seq<char> {
        "Agent status\nAvailability: "@ + self.availability.spec_label() + "\nRuntime: "@ + (
        match self.runtime {
            Some(runtime) => runtime.spec_label(),
            None => "Not reported"@,
        })
    }

    pub open spec fn private_dns_status(self) -> Seq<char> {
        match self.private_dns {
            None => "Private DNS\nNo validated snapshot available"@,
            Some(dns) => "Private DNS\nEnabled: "@ + yes_or_no(dns.enabled) + "\nDevice naming: "@
                + yes_or_no(dns.device_naming) + "\nResolvers: "@ + decimal(
                dns.resolver_count as nat,
            ) + "\nSplit domains: "@ + decimal(dns.split_domain_count as nat),
        }
    }
}

impl Default for DesktopPresentationState {
    fn default() -> (state: DesktopPresentationState)
        ensures
            state@ == PresentationView::initial(),
    {
        DesktopPresentationState {
            availability: AgentAvailability::Unknown,
            runtime: None,
            private_dns: None,
            selected: NavigationDestination::Overview,
            detail: String::new(),
        }
    }
}

impl DesktopPresentationState {
    pub fn connecting() -> (state: DesktopPresentationState)
        ensures
            state@ == (PresentationView {
                availability: AgentAvailability::Connecting,
                detail: "Reading local Agent state…"@,
                ..PresentationView::initial()
            }),
    {
        DesktopPresentationState {
            availability: AgentAvailability::Connecting,
            runtime: None,
            private_dns: None,
            selected: NavigationDestination::Overview,
            detail: "Reading local Agent state…".to_owned(),
        }
    }

    pub fn with_status(self, snapshot: LocalAgentStatusSnapshot) -> (state: DesktopPresentationState)
        ensures
            state@ == (PresentationView {
                availability: AgentAvailability::Online,
                runtime: Some(AgentRuntimePresentation::shown(snapshot.runtime_state)),
                detail: "Local IPC protocol "@ + decimal(snapshot.protocol_version.major as nat)
                    + "."@ + decimal(snapshot.protocol_version.minor as nat),
                ..self@
            }),
    {
        let mut detail = "Local IPC protocol ".to_owned();
        detail.append(decimal_text(snapshot.protocol_version.major as u64).as_str());
        detail.append(".");
        detail.append(decimal_text(snapshot.protocol_version.minor as u64).as_str());
        DesktopPresentationState {
            availability: AgentAvailability::Online,
            runtime: Some(AgentRuntimePresentation::from(snapshot.runtime_state)),
            private_dns: self.private_dns,
            selected: self.selected,
            detail,
        }
    }

    pub fn with_private_dns(self, snapshot: &LocalPrivateDnsSnapshot) -> (state:
        DesktopPresentationState)
        ensures
            state@.private_dns matches Some(shown) && state@ == (PresentationView {
                private_dns: Some(shown),
                ..self@
            }) && shown.enabled == snapshot.enabled && shown.device_naming == snapshot.device_naming
                && shown.resolver_count == snapshot.resolvers@.len() && shown.split_domain_count
                == snapshot.split_domains@.len(),
    {
        DesktopPresentationState {
            availability: self.availability,
            runtime: self.runtime,
            private_dns: Some(PrivateDnsPresentation::of(snapshot)),
            selected: self.selected,
            detail: self.detail,
        }
    }

    pub fn with_error(self, availability: AgentAvailability, detail: String) -> (state:
        DesktopPresentationState)
        ensures
            state@ == (PresentationView { availability, detail: detail@, ..self@ }),
    {
        DesktopPresentationState {
            availability,
            runtime: self.runtime,
            private_dns: self.private_dns,
            selected: self.selected,
            detail,
        }
    }

    pub fn agent_status_text(&self) -> (text: String)
        ensures
            text@ == self@.agent_status(),
    {
        let mut text = "Agent status\nAvailability: ".to_owned();
        text.append(self.availability.label());
        text.append("\nRuntime: ");
        match self.runtime {
            Some(runtime) => text.append(runtime.label()),
            None => text.append("Not reported"),
        }
        text
    }

    pub fn private_dns_status_text(&self) -> (text: String)
        ensures
            text@ == self@.private_dns_status(),
    {
        match self.private_dns {
            None => "Private DNS\nNo validated snapshot available".to_owned(),
            Some(dns) => {
                let mut text = "Private DNS\nEnabled: ".to_owned();
                text.append(yes_no(dns.enabled));
                text.append("\nDevice naming: ");
                text.append(yes_no(dns.device_naming));
                text.append("\nResolvers: ");
                text.append(decimal_text(dns.resolver_count as u64).as_str());
                text.append("\nSplit domains: ");
                text.append(decimal_text(dns.split_domain_count as u64).as_str());
                text
            },
        }
    }
}

pub open spec fn yes_or_no(value: bool) -> Seq<char> {
    if value {
        "Yes"@
    } else {
        "No"@
    }
}

fn yes_no(value: bool) -> (text: &'static str)
    ensures
        text@ == yes_or_no(value),
{
    if value {
        "Yes"
    } else {
        "No"
    }
}

} // verus!
