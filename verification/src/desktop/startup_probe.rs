//! The steps of the probe that reads the Agent's state when the desktop opens or is refreshed.
//!
//! One worker reads; the desktop looks for its result from time to time and ends the wait on the
//! first result, or when the worker is gone.
use vstd::prelude::*;
use vstd::string::*;

use crate::desktop::state::{
    AgentAvailability, DesktopPresentationState, NavigationDestination, PresentationView,
};

verus! {

pub const REFRESH_BUTTON_IDLE_LABEL: &'static str = "Refresh status";

pub const REFRESH_BUTTON_BUSY_LABEL: &'static str = "Refreshing…";

/// Time between two looks for a result.
pub const PROBE_POLL_MILLIS: u64 = 75;

/// What a look for the worker's result found.
#[derive(PartialEq, Eq, Debug)]
pub enum ProbeEvent {
    /// The worker could not be started.
    WorkerRefused,
    /// The worker's result.
    Finished(DesktopPresentationState),
    /// Nothing yet.
    Pending,
    /// The worker ended without a result.
    Disconnected,
}

/// What to do next.
#[derive(PartialEq, Eq, Debug)]
pub enum ProbeStep {
    /// Look again later, with the button still disabled.
    KeepWaiting,
    /// Show this, enable the button and stop looking.
    Show(DesktopPresentationState),
}

/// A state that shows nothing but an error.
pub open spec fn failure_view(detail: Seq<char>) -> PresentationView {
    PresentationView {
        availability: AgentAvailability::Error,
        detail,
        ..PresentationView::initial()
    }
}

/// What follows an event: only a pending result keeps the wait going.
pub fn startup_probe_step(event: ProbeEvent) -> (step: ProbeStep)
    ensures
        match event {
            ProbeEvent::Pending => step == ProbeStep::KeepWaiting,
            ProbeEvent::Finished(state) => step == ProbeStep::Show(state),
            ProbeEvent::WorkerRefused => step matches ProbeStep::Show(state) && state@
                == failure_view("Unable to start the bounded local Agent probe worker"@),
            ProbeEvent::Disconnected => step matches ProbeStep::Show(state) && state@
                == failure_view("Local Agent probe worker ended without a result"@),
        },
{
    match event {
        ProbeEvent::Pending => ProbeStep::KeepWaiting,
        ProbeEvent::Finished(state) => ProbeStep::Show(state),
        ProbeEvent::WorkerRefused => ProbeStep::Show(
            DesktopPresentationState::default().with_error(
                AgentAvailability::Error,
                "Unable to start the bounded local Agent probe worker".to_owned(),
            ),
        ),
        ProbeEvent::Disconnected => ProbeStep::Show(
            DesktopPresentationState::default().with_error(
                AgentAvailability::Error,
                "Local Agent probe worker ended without a result".to_owned(),
            ),
        ),
    }
}

/// The refresh button, whether it can be pressed and what it says: disabled and busy while a probe
/// is under way, enabled and idle otherwise.
pub fn refresh_button(waiting: bool) -> (shown: (bool, &'static str))
    ensures
        shown.0 == !waiting,
        shown.1@ == (if waiting {
            REFRESH_BUTTON_BUSY_LABEL@
        } else {
            REFRESH_BUTTON_IDLE_LABEL@
        }),
{
    if waiting {
        (false, REFRESH_BUTTON_BUSY_LABEL)
    } else {
        (true, REFRESH_BUTTON_IDLE_LABEL)
    }
}

/// A probe that was started, by what was last seen of its worker: what to do, and the refresh
/// button. The button is busy until an end of the worker is seen, and idle after every end.
pub fn start_startup_probe(seen: ProbeEvent) -> (shown: (ProbeStep, (bool, &'static str)))
    ensures
        match seen {
            ProbeEvent::Pending => shown.0 == ProbeStep::KeepWaiting && !shown.1.0 && shown.1.1@
                == REFRESH_BUTTON_BUSY_LABEL@,
            ProbeEvent::Finished(state) => shown.0 == ProbeStep::Show(state) && shown.1.0
                && shown.1.1@ == REFRESH_BUTTON_IDLE_LABEL@,
            ProbeEvent::WorkerRefused => (shown.0 matches ProbeStep::Show(state) && state@
                == failure_view("Unable to start the bounded local Agent probe worker"@))
                && shown.1.0 && shown.1.1@ == REFRESH_BUTTON_IDLE_LABEL@,
            ProbeEvent::Disconnected => (shown.0 matches ProbeStep::Show(state) && state@
                == failure_view("Local Agent probe worker ended without a result"@)) && shown.1.0
                && shown.1.1@ == REFRESH_BUTTON_IDLE_LABEL@,
        },
{
    let waiting = matches!(seen, ProbeEvent::Pending);
    (startup_probe_step(seen), refresh_button(waiting))
}

pub open spec fn description(destination: NavigationDestination) -> Seq<char> {
    match destination {
        NavigationDestination::Overview =>
            "Overview is implemented as a read-only local status surface."@,
        NavigationDestination::Machines =>
            "Reserved for enrolled-device and reachability presentation. Endpoint data is not identity or authorization."@,
        NavigationDestination::Sessions =>
            "Reserved for authorized terminal, Remote Desktop, and forwarding session presentation when runtime state is available."@,
        NavigationDestination::Files =>
            "Reserved for remote browsing and file operations through the existing authenticated file authority."@,
        NavigationDestination::Transfers =>
            "Reserved for verified upload/download progress and completion state."@,
        NavigationDestination::Activity =>
            "Reserved for locally available Ownspace activity and diagnostics. No external telemetry is implied."@,
        NavigationDestination::Settings =>
            "Reserved for explicit owner-controlled local settings and diagnostics; no cloud account dependency is implied."@,
    }
}

/// What a page without content says about itself.
pub fn placeholder_description(destination: NavigationDestination) -> (text: &'static str)
    ensures
        text@ == description(destination),
{
    match destination {
        NavigationDestination::Overview =>
            "Overview is implemented as a read-only local status surface.",
        NavigationDestination::Machines =>
            "Reserved for enrolled-device and reachability presentation. Endpoint data is not identity or authorization.",
        NavigationDestination::Sessions =>
            "Reserved for authorized terminal, Remote Desktop, and forwarding session presentation when runtime state is available.",
        NavigationDestination::Files =>
            "Reserved for remote browsing and file operations through the existing authenticated file authority.",
        NavigationDestination::Transfers =>
            "Reserved for verified upload/download progress and completion state.",
        NavigationDestination::Activity =>
            "Reserved for locally available Ownspace activity and diagnostics. No external telemetry is implied.",
        NavigationDestination::Settings =>
            "Reserved for explicit owner-controlled local settings and diagnostics; no cloud account dependency is implied.",
    }
}

} // verus!
