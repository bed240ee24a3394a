//! What the Agent says about itself.
use vstd::prelude::*;

verus! {

/// The state of the Agent's runtime. More may be reported than is known here.
#[derive(Clone, Copy, PartialEq, Eq, Structural, Debug)]
pub enum LocalAgentRuntimeState {
    Starting,
    Ready,
    Degraded,
    Stopping,
    Unrecognized,
}

/// The version of the local protocol.
#[derive(Clone, Copy, PartialEq, Eq, Structural, Debug)]
pub struct LocalProtocolVersion {
    pub major: u16,
    pub minor: u16,
}

/// One report of the Agent's state.
#[derive(Clone, Copy, PartialEq, Eq, Structural, Debug)]
pub struct LocalAgentStatusSnapshot {
    pub runtime_state: LocalAgentRuntimeState,
    pub protocol_version: LocalProtocolVersion,
}

/// One report of the private name service.
#[derive(PartialEq, Eq, Debug)]
pub struct LocalPrivateDnsSnapshot {
    pub enabled: bool,
    pub device_naming: bool,
    pub resolvers: Vec<String>,
    pub split_domains: Vec<String>,
}

} // verus!
