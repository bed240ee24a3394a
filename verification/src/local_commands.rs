//! The commands that the Agent answers on its local socket.
//!
//! The names of the commands and of the errors are this library's own choice, and so is their number:
//! the two commands that read are known here, and no others.
use vstd::prelude::*;

pub mod command_laws;
pub mod management_agent_status_runtime;
pub mod management_request;
pub mod snapshots;

verus! {

/// The commands of the two-byte namespace.
#[derive(Clone, Copy, PartialEq, Eq, Structural, Debug)]
pub enum LocalAgentCommand {
    GetAgentStatus,
    GetPrivateDnsConfig,
}

/// Why two command bytes were refused.
#[derive(Clone, Copy, PartialEq, Eq, Structural, Debug)]
pub enum LocalAgentRequestDecodeError {
    InvalidLength,
    UnknownCommand,
}

/// The bytes of a command: its code, most significant byte first.
pub open spec fn command_bytes(command: LocalAgentCommand) -> Seq<u8> {
    match command {
        LocalAgentCommand::GetAgentStatus => seq![0u8, 1u8],
        LocalAgentCommand::GetPrivateDnsConfig => seq![0u8, 2u8],
    }
}

/// Decodes a request of the two-byte namespace. Every other code is unknown here, that of the
/// management envelope too.
pub fn decode_request_command(payload: &[u8]) -> (command: Result<
    LocalAgentCommand,
    LocalAgentRequestDecodeError,
>)
    ensures
        match command {
            Ok(command) => payload@ == command_bytes(command),
            Err(LocalAgentRequestDecodeError::InvalidLength) => payload@.len() != 2,
            Err(LocalAgentRequestDecodeError::UnknownCommand) => payload@.len() == 2 && forall|
                command: LocalAgentCommand,
            |
                payload@ != #[trigger] command_bytes(command),
        },
{
    if payload.len() != 2 {
        return Err(LocalAgentRequestDecodeError::InvalidLength);
    }
    if payload[0] == 0 && payload[1] == 1 {
        assert(payload@ == command_bytes(LocalAgentCommand::GetAgentStatus));
        return Ok(LocalAgentCommand::GetAgentStatus);
    }
    if payload[0] == 0 && payload[1] == 2 {
        assert(payload@ == command_bytes(LocalAgentCommand::GetPrivateDnsConfig));
        return Ok(LocalAgentCommand::GetPrivateDnsConfig);
    }
    assert forall|command: LocalAgentCommand| payload@ != #[trigger] command_bytes(command) by {
        assert(command_bytes(command)[0] == 0);
        assert(command_bytes(command)[1] == 1 || command_bytes(command)[1] == 2);
    }
    Err(LocalAgentRequestDecodeError::UnknownCommand)
}

} // verus!
