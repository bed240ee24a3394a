//! What the desktop shows and what it says to the local Agent.
pub mod local_management_ipc;
pub mod presentation_laws;
pub mod startup_probe;
pub mod state;
