//! The management requests that the Agent answers: its status, and read-only directory lists.
//!
//! The policy is fixed here: callers supply none. Reading the status and reading files are
//! admitted, and of the file commands only the list is answered. Lists are anchored to the home
//! directory of the Agent's user, never to `/` or to a path out of a request.
use vstd::prelude::*;

use crate::bytes::copy_bytes;
use crate::local_commands::snapshots::LocalAgentStatusSnapshot;
use crate::paths::{is_absolute_path, path_is_absolute, slice_view};

verus! {

/// Whether something is allowed.
#[derive(Clone, Copy, PartialEq, Eq, Structural, Debug)]
pub enum Decision {
    Allow,
    Deny,
}

/// What a request may need. The list of capabilities is this library's own choice.
#[derive(Clone, Copy, PartialEq, Eq, Structural, Debug)]
pub enum Capability {
    AgentStatusRead,
    PrivateDnsConfigRead,
    TerminalOpen,
    TerminalExec,
    FilesRead,
    FilesWrite,
    FilesDelete,
    ForwardingCreate,
    RequesterRendezvousStart,
    DeviceManage,
    PolicyManage,
}

/// The decisions that a policy makes one by one.
#[derive(Clone, Copy, PartialEq, Eq, Structural, Debug)]
pub struct BoundedLocalManagementDecisions {
    pub agent_status: Decision,
    pub private_dns: Decision,
    pub terminal_open: Decision,
    pub terminal_exec: Decision,
    pub files_read: Decision,
    pub files_write: Decision,
    pub forwarding_create: Decision,
}

/// A policy that decides on a few capabilities and denies all others. Its form is this library's own
/// choice.
#[derive(Clone, Copy, PartialEq, Eq, Structural, Debug)]
pub struct BoundedLocalManagementPolicy {
    pub decisions: BoundedLocalManagementDecisions,
}

impl BoundedLocalManagementPolicy {
    pub open spec fn decides(self, capability: Capability) -> Decision {
        match capability {
            Capability::AgentStatusRead => self.decisions.agent_status,
            Capability::PrivateDnsConfigRead => self.decisions.private_dns,
            Capability::TerminalOpen => self.decisions.terminal_open,
            Capability::TerminalExec => self.decisions.terminal_exec,
            Capability::FilesRead => self.decisions.files_read,
            Capability::FilesWrite => self.decisions.files_write,
            Capability::ForwardingCreate => self.decisions.forwarding_create,
            _ => Decision::Deny,
        }
    }

    pub fn evaluate(&self, capability: Capability) -> (decision: Decision)
        ensures
            decision == self.decides(capability),
    {
        match capability {
            Capability::AgentStatusRead => self.decisions.agent_status,
            Capability::PrivateDnsConfigRead => self.decisions.private_dns,
            Capability::TerminalOpen => self.decisions.terminal_open,
            Capability::TerminalExec => self.decisions.terminal_exec,
            Capability::FilesRead => self.decisions.files_read,
            Capability::FilesWrite => self.decisions.files_write,
            Capability::ForwardingCreate => self.decisions.forwarding_create,
            _ => Decision::Deny,
        }
    }
}

/// The fixed policy allows reading the status and reading files, and nothing else.
pub fn agent_status_file_list_policy() -> (policy: BoundedLocalManagementPolicy)
    ensures
        forall|capability: Capability| #[trigger]
            policy.decides(capability) == (if capability == Capability::AgentStatusRead
                || capability == Capability::FilesRead {
                Decision::Allow
            } else {
                Decision::Deny
            }),
{
    BoundedLocalManagementPolicy {
        decisions: BoundedLocalManagementDecisions {
            agent_status: Decision::Allow,
            private_dns: Decision::Deny,
            terminal_open: Decision::Deny,
            terminal_exec: Decision::Deny,
            files_read: Decision::Allow,
            files_write: Decision::Deny,
            forwarding_create: Decision::Deny,
        },
    }
}

/// A management command, as far as this module tells them apart.
#[derive(PartialEq, Eq, Debug)]
pub enum ManagementCommand {
    AgentStatus,
    /// List a directory, by its path below the root.
    FileList(String),
    FileStat(String),
    DownloadChunk { path: String, offset: u64, requested_len: u32 },
    /// Any other command.
    Other,
}

/// Why a request was not admitted.
#[derive(Clone, Copy, PartialEq, Eq, Structural, Debug)]
pub enum LocalManagementAdmissionError {
    /// The envelope is malformed.
    Framing,
    /// The body is not a canonical command.
    CanonicalCommand,
    /// The policy denies what the command needs.
    CapabilityDenied,
}

/// The status of a response that carries nothing else.
#[derive(Clone, Copy, PartialEq, Eq, Structural, Debug)]
pub enum LocalAgentResponseStatus {
    InvalidRequest,
    Unauthorized,
    UnsupportedCommand,
    InternalError,
}

/// The status that answers a request which was not admitted.
pub open spec fn refusal_status(error: LocalManagementAdmissionError) -> LocalAgentResponseStatus {
    match error {
        LocalManagementAdmissionError::Framing => LocalAgentResponseStatus::InvalidRequest,
        LocalManagementAdmissionError::CanonicalCommand =>
            LocalAgentResponseStatus::InvalidRequest,
        LocalManagementAdmissionError::CapabilityDenied => LocalAgentResponseStatus::Unauthorized,
    }
}

pub fn admission_error_status(error: LocalManagementAdmissionError) -> (status:
    LocalAgentResponseStatus)
    ensures
        status == refusal_status(error),
{
    match error {
        LocalManagementAdmissionError::Framing => LocalAgentResponseStatus::InvalidRequest,
        LocalManagementAdmissionError::CanonicalCommand =>
            LocalAgentResponseStatus::InvalidRequest,
        LocalManagementAdmissionError::CapabilityDenied => LocalAgentResponseStatus::Unauthorized,
    }
}

/// What answers a request, before it is written out: a bare status, the Agent's own status, or
/// what the file service said.
#[derive(PartialEq, Eq, Debug)]
pub enum ManagementAnswer<L> {
    Status(LocalAgentResponseStatus),
    AgentStatus(LocalAgentStatusSnapshot),
    DirectoryEntries(L),
}

/// Answers one admitted or refused request. The filesystem is opened for a list and for nothing
/// else; when it cannot be opened the answer says no more than that.
pub fn process_agent_status_file_list_management_with_filesystem_factory<A, E, L, F, G>(
    admission: Result<ManagementCommand, LocalManagementAdmissionError>,
    agent_status: LocalAgentStatusSnapshot,
    open_filesystem: F,
    list_directory: G,
) -> (answer: ManagementAnswer<L>) where
    F: FnOnce() -> Result<A, E>,
    G: FnOnce(A, String) -> L,

    requires
        admission matches Ok(ManagementCommand::FileList(_)) ==> call_requires(
            open_filesystem,
            (),
        ),
        admission matches Ok(ManagementCommand::FileList(path)) ==> forall|filesystem: A|
            call_ensures(open_filesystem, (), Ok::<A, E>(filesystem)) ==> #[trigger] call_requires(
                list_directory,
                (filesystem, path),
            ),
    ensures
        match admission {
            Err(error) => answer == ManagementAnswer::<L>::Status(refusal_status(error)),
            Ok(ManagementCommand::AgentStatus) => answer == ManagementAnswer::<L>::AgentStatus(
                agent_status,
            ),
            Ok(ManagementCommand::FileList(_)) => !(answer is AgentStatus),
            Ok(_) => answer == ManagementAnswer::<L>::Status(
                LocalAgentResponseStatus::UnsupportedCommand,
            ),
        },
        admission matches Ok(ManagementCommand::FileList(_)) ==> (
        answer matches ManagementAnswer::Status(status) ==> status
            == LocalAgentResponseStatus::InternalError && exists|error: E| #[trigger]
            call_ensures(open_filesystem, (), Err::<A, E>(error))),
        admission matches Ok(ManagementCommand::FileList(path)) ==> (
        answer matches ManagementAnswer::DirectoryEntries(listed) ==> exists|filesystem: A|
            #[trigger] call_ensures(open_filesystem, (), Ok::<A, E>(filesystem)) && call_ensures(
                list_directory,
                (filesystem, path),
                listed,
            )),
{
    let command = match admission {
        Ok(command) => command,
        Err(error) => {
            return ManagementAnswer::Status(admission_error_status(error));
        },
    };
    match command {
        ManagementCommand::AgentStatus => ManagementAnswer::AgentStatus(agent_status),
        ManagementCommand::FileList(path) => match open_filesystem() {
            Ok(filesystem) => {
                assert(call_ensures(open_filesystem, (), Ok::<A, E>(filesystem)));
                let listed = list_directory(filesystem, path);
                assert(call_ensures(list_directory, (filesystem, path), listed));
                ManagementAnswer::DirectoryEntries(listed)
            },
            Err(error) => {
                assert(call_ensures(open_filesystem, (), Err::<A, E>(error)));
                ManagementAnswer::Status(LocalAgentResponseStatus::InternalError)
            },
        },
        _ => ManagementAnswer::Status(LocalAgentResponseStatus::UnsupportedCommand),
    }
}

/// The root for file lists was refused.
#[derive(Clone, Copy, PartialEq, Eq, Structural, Debug)]
pub enum FileServiceError {
    InvalidRoot,
}

/// The home directory, when it is set, not empty and absolute. It is still to be opened.
pub fn home_filesystem_root_from_raw(raw: Option<&[u8]>) -> (root: Result<Vec<u8>, FileServiceError>)
    ensures
        match root {
            Ok(path) => slice_view(raw) == Some(path@) && is_absolute_path(path@),
            Err(error) => error == FileServiceError::InvalidRoot && !(slice_view(raw) matches Some(
                path,
            ) && is_absolute_path(path)),
        },
{
    match raw {
        Some(path) => if path_is_absolute(path) {
            Ok(copy_bytes(path))
        } else {
            Err(FileServiceError::InvalidRoot)
        },
        None => Err(FileServiceError::InvalidRoot),
    }
}

} // verus!
