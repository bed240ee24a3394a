//! What goes over the local socket, byte by byte, and what is allowed there.
use vstd::prelude::*;

use crate::local_commands::management_agent_status_runtime::{
    refusal_status, BoundedLocalManagementPolicy, Capability, Decision,
    LocalAgentResponseStatus, LocalManagementAdmissionError,
};
use crate::local_commands::management_request::envelope;
use crate::local_commands::{command_bytes, LocalAgentCommand};

verus! {

/// A command is two bytes: zero, and one for the status or two for the private name service.
pub proof fn command_is_two_bytes(command: LocalAgentCommand)
    ensures
        command_bytes(command).len() == 2,
        command_bytes(command)[0] == 0,
        command_bytes(command)[1] == 1 <==> command == LocalAgentCommand::GetAgentStatus,
        command_bytes(command)[1] == 2 <==> command == LocalAgentCommand::GetPrivateDnsConfig,
{
}

/// An envelope is the code three, the length of the body in four bytes with the most significant
/// first, and the body.
pub proof fn envelope_gives_the_length(body: Seq<u8>)
    requires
        body.len() <= u32::MAX,
    ensures
        ({
            let bytes = envelope(body);
            &&& bytes.len() == 6 + body.len()
            &&& bytes[0] == 0 && bytes[1] == 3
            &&& bytes[2] as int * 0x100_0000 + bytes[3] as int * 0x1_0000 + bytes[4] as int * 0x100
                + bytes[5] as int == body.len()
            &&& bytes.skip(6) == body
        }),
{
    assert(envelope(body).skip(6) =~= body);
    crate::local_commands::management_request::lemma_four_bytes_value(body.len());
    let bytes = envelope(body);
    let four = crate::local_commands::management_request::four_bytes(body.len());
    assert(bytes[2] == four[0] && bytes[3] == four[1] && bytes[4] == four[2] && bytes[5]
        == four[3]);
}

/// A policy decides what it has a decision for, and denies the deletion of files, the rendezvous and
/// the management of devices and policies whatever it says.
pub proof fn policy_denies_what_it_does_not_name(policy: BoundedLocalManagementPolicy)
    ensures
        policy.decides(Capability::AgentStatusRead) == policy.decisions.agent_status,
        policy.decides(Capability::PrivateDnsConfigRead) == policy.decisions.private_dns,
        policy.decides(Capability::TerminalOpen) == policy.decisions.terminal_open,
        policy.decides(Capability::TerminalExec) == policy.decisions.terminal_exec,
        policy.decides(Capability::FilesRead) == policy.decisions.files_read,
        policy.decides(Capability::FilesWrite) == policy.decisions.files_write,
        policy.decides(Capability::ForwardingCreate) == policy.decisions.forwarding_create,
        policy.decides(Capability::FilesDelete) == Decision::Deny,
        policy.decides(Capability::RequesterRendezvousStart) == Decision::Deny,
        policy.decides(Capability::DeviceManage) == Decision::Deny,
        policy.decides(Capability::PolicyManage) == Decision::Deny,
{
}

/// A request that the policy denies is answered as unauthorized, and one that is malformed as
/// invalid.
pub proof fn refusal_tells_denied_from_malformed(error: LocalManagementAdmissionError)
    ensures
        refusal_status(error) == LocalAgentResponseStatus::Unauthorized <==> error
            == LocalManagementAdmissionError::CapabilityDenied,
        refusal_status(error) == LocalAgentResponseStatus::InvalidRequest <==> error
            == LocalManagementAdmissionError::Framing || error
            == LocalManagementAdmissionError::CanonicalCommand,
{
}

} // verus!
