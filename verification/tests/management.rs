//! The management requests that the Agent answers.
use ownspace::local_commands::management_agent_status_runtime::{
    admission_error_status, agent_status_file_list_policy, home_filesystem_root_from_raw,
    process_agent_status_file_list_management_with_filesystem_factory, Capability, Decision,
    FileServiceError, LocalAgentResponseStatus, LocalManagementAdmissionError, ManagementAnswer,
    ManagementCommand,
};
use ownspace::local_commands::snapshots::{
    LocalAgentRuntimeState, LocalAgentStatusSnapshot, LocalProtocolVersion,
};

fn snapshot() -> LocalAgentStatusSnapshot {
    LocalAgentStatusSnapshot {
        runtime_state: LocalAgentRuntimeState::Ready,
        protocol_version: LocalProtocolVersion { major: 1, minor: 0 },
    }
}

#[test]
fn fixed_policy_allows_agent_status_and_files_read_only() {
    let policy = agent_status_file_list_policy();
    assert_eq!(
        policy.evaluate(Capability::AgentStatusRead),
        Decision::Allow
    );
    assert_eq!(policy.evaluate(Capability::FilesRead), Decision::Allow);
    for capability in [
        Capability::PrivateDnsConfigRead,
        Capability::TerminalOpen,
        Capability::TerminalExec,
        Capability::FilesWrite,
        Capability::ForwardingCreate,
        Capability::FilesDelete,
        Capability::RequesterRendezvousStart,
        Capability::DeviceManage,
        Capability::PolicyManage,
    ] {
        assert_eq!(policy.evaluate(capability), Decision::Deny);
    }
}

#[test]
fn file_list_home_root_requires_nonempty_absolute_path() {
    assert_eq!(
        home_filesystem_root_from_raw(None),
        Err(FileServiceError::InvalidRoot)
    );
    assert!(home_filesystem_root_from_raw(Some("".as_bytes())).is_err());
    assert!(home_filesystem_root_from_raw(Some("relative".as_bytes())).is_err());
    assert_eq!(
        home_filesystem_root_from_raw(Some("/home/owner".as_bytes())),
        Ok("/home/owner".as_bytes().to_vec())
    );
}

#[test]
fn file_list_request_uses_only_supplied_descriptor_root_and_returns_directory_entries() {
    let answer = process_agent_status_file_list_management_with_filesystem_factory(
        Ok(ManagementCommand::FileList("docs".to_owned())),
        snapshot(),
        || Ok::<&str, ()>("/root"),
        |root: &str, path: String| format!("{root}:{path}"),
    );
    assert_eq!(
        answer,
        ManagementAnswer::DirectoryEntries("/root:docs".to_owned())
    );
    let failed = process_agent_status_file_list_management_with_filesystem_factory(
        Ok(ManagementCommand::FileList("docs".to_owned())),
        snapshot(),
        || Err::<(), FileServiceError>(FileServiceError::InvalidRoot),
        |_root: (), path: String| path,
    );
    assert_eq!(
        failed,
        ManagementAnswer::Status(LocalAgentResponseStatus::InternalError)
    );
}

#[test]
fn other_files_read_commands_remain_unsupported_after_capability_admission() {
    for command in [
        ManagementCommand::FileStat("notes.txt".to_owned()),
        ManagementCommand::DownloadChunk {
            path: "notes.txt".to_owned(),
            offset: 0,
            requested_len: 1,
        },
        ManagementCommand::Other,
    ] {
        let answer: ManagementAnswer<()> =
            process_agent_status_file_list_management_with_filesystem_factory(
                Ok(command),
                snapshot(),
                || -> Result<(), ()> {
                    panic!("unsupported command must not acquire filesystem authority")
                },
                |_root: (), _path: String| (),
            );
        assert_eq!(
            answer,
            ManagementAnswer::Status(LocalAgentResponseStatus::UnsupportedCommand)
        );
    }
}

#[test]
fn agent_status_request_returns_correlated_management_success() {
    let answer: ManagementAnswer<()> =
        process_agent_status_file_list_management_with_filesystem_factory(
            Ok(ManagementCommand::AgentStatus),
            snapshot(),
            || -> Result<(), ()> { panic!("status needs no filesystem") },
            |_root: (), _path: String| (),
        );
    assert_eq!(answer, ManagementAnswer::AgentStatus(snapshot()));
}

#[test]
fn refused_requests_are_answered_by_their_reason() {
    for (error, status) in [
        (
            LocalManagementAdmissionError::Framing,
            LocalAgentResponseStatus::InvalidRequest,
        ),
        (
            LocalManagementAdmissionError::CanonicalCommand,
            LocalAgentResponseStatus::InvalidRequest,
        ),
        (
            LocalManagementAdmissionError::CapabilityDenied,
            LocalAgentResponseStatus::Unauthorized,
        ),
    ] {
        assert_eq!(admission_error_status(error), status);
        let answer: ManagementAnswer<()> =
            process_agent_status_file_list_management_with_filesystem_factory(
                Err(error),
                snapshot(),
                || -> Result<(), ()> { panic!("a refused request opens nothing") },
                |_root: (), _path: String| (),
            );
        assert_eq!(answer, ManagementAnswer::Status(status));
    }
}
