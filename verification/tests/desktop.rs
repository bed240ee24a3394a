//! What the desktop shows, asks and reads.
use ownspace::desktop::local_management_ipc::{
    build_bridge_management_request, build_file_list_management_request,
    decode_file_list_success_body, LocalFileListDecodeError, LocalManagementClientError,
};
use ownspace::desktop::startup_probe::{
    placeholder_description, refresh_button, start_startup_probe, startup_probe_step, ProbeEvent,
    ProbeStep, PROBE_POLL_MILLIS, REFRESH_BUTTON_BUSY_LABEL, REFRESH_BUTTON_IDLE_LABEL,
};
use ownspace::desktop::state::{
    AgentAvailability, AgentRuntimePresentation, DesktopPresentationState, NavigationDestination,
    PrivateDnsPresentation,
};
use ownspace::local_commands::management_request::{
    build_local_management_request_frame, decode_local_management_request_frame, LocalIpcFrame,
    LocalIpcRequestId, LocalManagementRequestDecodeError, LOCAL_MANAGEMENT_REQUEST_PREFIX_LENGTH,
};
use ownspace::local_commands::snapshots::{
    LocalAgentRuntimeState, LocalAgentStatusSnapshot, LocalPrivateDnsSnapshot,
    LocalProtocolVersion,
};
use ownspace::local_commands::{
    decode_request_command, LocalAgentCommand, LocalAgentRequestDecodeError,
};

fn snapshot(runtime_state: LocalAgentRuntimeState) -> LocalAgentStatusSnapshot {
    LocalAgentStatusSnapshot {
        runtime_state,
        protocol_version: LocalProtocolVersion { major: 1, minor: 12 },
    }
}

fn id(value: u64) -> LocalIpcRequestId {
    LocalIpcRequestId::new(value).expect("non-zero request id")
}

#[test]
fn overview_is_the_deterministic_default_destination() {
    let state = DesktopPresentationState::default();
    assert_eq!(state.selected, NavigationDestination::Overview);
    assert_eq!(NavigationDestination::ALL.len(), 7);
    assert_eq!(NavigationDestination::Overview.stack_name(), "overview");
}

#[test]
fn runtime_states_project_without_granting_capabilities() {
    for (runtime, expected) in [
        (
            LocalAgentRuntimeState::Starting,
            AgentRuntimePresentation::Starting,
        ),
        (
            LocalAgentRuntimeState::Ready,
            AgentRuntimePresentation::Ready,
        ),
        (
            LocalAgentRuntimeState::Degraded,
            AgentRuntimePresentation::Degraded,
        ),
        (
            LocalAgentRuntimeState::Stopping,
            AgentRuntimePresentation::Stopping,
        ),
    ] {
        let state = DesktopPresentationState::connecting().with_status(snapshot(runtime));
        assert_eq!(state.availability, AgentAvailability::Online);
        assert_eq!(state.runtime, Some(expected));
    }
}

#[test]
fn status_text_projection_is_deterministic_and_read_only() {
    let connecting = DesktopPresentationState::connecting();
    assert_eq!(
        connecting.agent_status_text(),
        "Agent status\nAvailability: Connecting\nRuntime: Not reported"
    );
    assert_eq!(
        connecting.private_dns_status_text(),
        "Private DNS\nNo validated snapshot available"
    );

    let mut online = DesktopPresentationState::connecting()
        .with_status(snapshot(LocalAgentRuntimeState::Ready));
    online.private_dns = Some(PrivateDnsPresentation {
        enabled: true,
        device_naming: false,
        resolver_count: 2,
        split_domain_count: 1,
    });

    assert_eq!(
        online.agent_status_text(),
        "Agent status\nAvailability: Online\nRuntime: Ready"
    );
    assert_eq!(
        online.private_dns_status_text(),
        "Private DNS\nEnabled: Yes\nDevice naming: No\nResolvers: 2\nSplit domains: 1"
    );
}

#[test]
fn status_keeps_what_it_does_not_report() {
    let dns = LocalPrivateDnsSnapshot {
        enabled: false,
        device_naming: true,
        resolvers: vec!["10.0.0.1".to_owned(); 10],
        split_domains: Vec::new(),
    };
    let state = DesktopPresentationState::connecting()
        .with_private_dns(&dns)
        .with_status(snapshot(LocalAgentRuntimeState::Unrecognized));
    assert_eq!(state.detail, "Local IPC protocol 1.12");
    assert_eq!(state.runtime, Some(AgentRuntimePresentation::Unknown));
    assert_eq!(
        state.private_dns_status_text(),
        "Private DNS\nEnabled: No\nDevice naming: Yes\nResolvers: 10\nSplit domains: 0"
    );
    let failed = state.with_error(AgentAvailability::Offline, "gone".to_owned());
    assert_eq!(failed.availability.label(), "Offline");
    assert_eq!(failed.detail, "gone");
    assert_eq!(failed.runtime, Some(AgentRuntimePresentation::Unknown));
}

#[test]
fn startup_probe_waits_only_while_pending() {
    assert_eq!(startup_probe_step(ProbeEvent::Pending), ProbeStep::KeepWaiting);
    let ProbeStep::Show(refused) = startup_probe_step(ProbeEvent::WorkerRefused) else {
        panic!("a refused worker ends the wait");
    };
    assert_eq!(refused.availability, AgentAvailability::Error);
    assert_eq!(
        refused.detail,
        "Unable to start the bounded local Agent probe worker"
    );
    let ProbeStep::Show(gone) = startup_probe_step(ProbeEvent::Disconnected) else {
        panic!("a lost worker ends the wait");
    };
    assert_eq!(gone.detail, "Local Agent probe worker ended without a result");
    let finished = startup_probe_step(ProbeEvent::Finished(DesktopPresentationState::connecting()));
    assert_eq!(
        finished,
        ProbeStep::Show(DesktopPresentationState::connecting())
    );
    assert_eq!(REFRESH_BUTTON_IDLE_LABEL, "Refresh status");
    assert_eq!(REFRESH_BUTTON_BUSY_LABEL, "Refreshing…");
    assert_eq!(PROBE_POLL_MILLIS, 75);
    assert_eq!(
        placeholder_description(NavigationDestination::Transfers),
        "Reserved for verified upload/download progress and completion state."
    );
}

#[test]
fn refresh_button_is_busy_until_the_worker_ends() {
    assert_eq!(refresh_button(true), (false, "Refreshing…"));
    assert_eq!(refresh_button(false), (true, "Refresh status"));
    assert_eq!(
        start_startup_probe(ProbeEvent::Pending),
        (ProbeStep::KeepWaiting, (false, "Refreshing…"))
    );
    assert_eq!(
        start_startup_probe(ProbeEvent::Finished(DesktopPresentationState::connecting())),
        (
            ProbeStep::Show(DesktopPresentationState::connecting()),
            (true, "Refresh status")
        )
    );
    for end in [ProbeEvent::WorkerRefused, ProbeEvent::Disconnected] {
        let (step, button) = start_startup_probe(end);
        let ProbeStep::Show(state) = step else {
            panic!("an end of the worker ends the wait");
        };
        assert_eq!(state.availability, AgentAvailability::Error);
        assert_eq!(state.runtime, None);
        assert_eq!(state.private_dns, None);
        assert_eq!(button, (true, "Refresh status"));
    }
}

#[test]
fn legacy_two_byte_namespace_remains_byte_compatible_and_rejects_code_three() {
    assert_eq!(
        decode_request_command(&[0, 1]).expect("legacy status command"),
        LocalAgentCommand::GetAgentStatus
    );
    assert_eq!(
        decode_request_command(&[0, 2]).expect("legacy private DNS command"),
        LocalAgentCommand::GetPrivateDnsConfig
    );
    assert_eq!(
        decode_request_command(&[0, 3]),
        Err(LocalAgentRequestDecodeError::UnknownCommand)
    );
    assert_eq!(
        decode_request_command(&[0]),
        Err(LocalAgentRequestDecodeError::InvalidLength)
    );
}

#[test]
fn typed_terminal_file_and_forwarding_intents_round_trip_through_local_command_three() {
    for (request_id, command) in [
        (152, "terminal-open 152 bash 120x40"),
        (153, "file-list docs"),
        (154, "forward-open 152 127.0.0.1:41152 127.0.0.1:22"),
    ] {
        let expected_bridge_payload = command.as_bytes().to_vec();
        let frame = build_bridge_management_request(id(request_id), &command, |command: &&str| {
            Ok::<Vec<u8>, ()>(command.as_bytes().to_vec())
        })
        .expect("typed local management request builds");

        assert_eq!(frame.request_id, id(request_id));
        assert_eq!(&frame.payload[..2], &[0, 3]);
        assert_eq!(
            &frame.payload[LOCAL_MANAGEMENT_REQUEST_PREFIX_LENGTH..],
            expected_bridge_payload.as_slice()
        );

        let decoded = decode_local_management_request_frame(&frame)
            .expect("Agent-owned management envelope decodes");
        assert_eq!(decoded, expected_bridge_payload);
    }
}

#[test]
fn local_schema_contains_only_command_length_and_canonical_bridge_bytes() {
    let bridge_payload: Vec<u8> = vec![7; 300];
    let frame = build_bridge_management_request(id(155), &bridge_payload, |body: &Vec<u8>| {
        Ok::<Vec<u8>, ()>(body.clone())
    })
    .expect("typed local management request builds");
    let local_payload = &frame.payload;

    assert_eq!(frame.request_id, id(155));
    assert_eq!(&local_payload[..2], &[0, 3]);
    let declared = u32::from_be_bytes([
        local_payload[2],
        local_payload[3],
        local_payload[4],
        local_payload[5],
    ]);
    assert_eq!(
        usize::try_from(declared).expect("declared local body length fits usize"),
        bridge_payload.len()
    );
    assert_eq!(
        &local_payload[LOCAL_MANAGEMENT_REQUEST_PREFIX_LENGTH..],
        bridge_payload.as_slice()
    );
    assert_eq!(
        local_payload.len(),
        LOCAL_MANAGEMENT_REQUEST_PREFIX_LENGTH + bridge_payload.len()
    );
    assert_eq!(
        decode_local_management_request_frame(&frame),
        Ok(bridge_payload)
    );
}

#[test]
fn live_file_list_builder_accepts_root_and_rejects_noncanonical_paths() {
    let parse = |path: &str| {
        if path.starts_with("..") {
            Err(())
        } else {
            Ok(path.to_owned())
        }
    };
    let encode = |path: &String| Ok::<Vec<u8>, ()>(path.as_bytes().to_vec());
    let root = build_file_list_management_request(id(156), "", parse, encode)
        .expect("root listing builds");
    assert_eq!(
        decode_local_management_request_frame(&root).expect("local envelope decodes"),
        Vec::<u8>::new()
    );
    assert!(matches!(
        build_file_list_management_request(id(157), "../escape", parse, encode),
        Err(LocalManagementClientError::InvalidFilePath)
    ));
    assert_eq!(
        build_file_list_management_request(id(158), "docs", parse, |_path: &String| Err::<
            Vec<u8>,
            u8,
        >(9)),
        Err(LocalManagementClientError::Bridge(9))
    );
}

#[test]
fn envelope_with_another_command_or_length_is_refused() {
    assert!(LocalIpcRequestId::new(0).is_none());
    assert_eq!(id(3).get(), 3);
    let mut frame = build_local_management_request_frame(id(1), &[1, 2, 3]).expect("frame");
    frame.payload.push(4);
    assert_eq!(
        decode_local_management_request_frame(&frame),
        Err(LocalManagementRequestDecodeError::LengthMismatch)
    );
    for payload in [vec![0, 1], vec![0], vec![1, 3, 0, 0, 0, 0]] {
        assert_eq!(
            decode_local_management_request_frame(&LocalIpcFrame { request_id: id(1), payload }),
            Err(LocalManagementRequestDecodeError::UnexpectedCommand)
        );
    }
    assert_eq!(
        decode_local_management_request_frame(&LocalIpcFrame {
            request_id: id(1),
            payload: vec![0, 3, 0]
        }),
        Err(LocalManagementRequestDecodeError::LengthMismatch)
    );
}

#[test]
fn directory_entry_success_body_decodes_types_and_rejects_trailing_bytes() {
    let payload = [
        0, 0, 2, 0, 2, 2, 0, 4, b'd', b'o', b'c', b's', 1, 0, 5, b'n', b'o', b't', b'e', b's',
    ];
    let entries = decode_file_list_success_body(&payload, 4096).expect("directory body decodes");
    assert_eq!(entries[0].display_text(), "docs/");
    assert_eq!(entries[1].display_text(), "notes");

    let mut trailing = payload.to_vec();
    trailing.push(9);
    assert!(decode_file_list_success_body(&trailing, 4096).is_err());
}

#[test]
fn directory_body_errors_are_told_apart() {
    let decode = |bytes: &[u8]| decode_file_list_success_body(bytes, 2).map(|list| list.len());
    assert_eq!(decode(&[0]), Err(LocalFileListDecodeError::MissingResult));
    assert_eq!(decode(&[0, 0]), Err(LocalFileListDecodeError::UnexpectedResult));
    assert_eq!(decode(&[0, 0, 1]), Err(LocalFileListDecodeError::UnexpectedResult));
    assert_eq!(decode(&[0, 0, 2, 0]), Err(LocalFileListDecodeError::EntryCount));
    assert_eq!(decode(&[0, 0, 2, 0, 3]), Err(LocalFileListDecodeError::EntryCount));
    assert_eq!(decode(&[0, 0, 2, 0, 0]), Ok(0));
    assert_eq!(decode(&[0, 0, 2, 0, 0, 1]), Err(LocalFileListDecodeError::TrailingBytes));
    assert_eq!(decode(&[0, 0, 2, 0, 1]), Err(LocalFileListDecodeError::EntryType));
    assert_eq!(decode(&[0, 0, 2, 0, 1, 9]), Err(LocalFileListDecodeError::EntryType));
    assert_eq!(decode(&[0, 0, 2, 0, 1, 1, 0]), Err(LocalFileListDecodeError::EntryLength));
    assert_eq!(
        decode(&[0, 0, 2, 0, 1, 1, 0, 2, 65]),
        Err(LocalFileListDecodeError::EntryLength)
    );
    assert_eq!(
        decode(&[0, 0, 2, 0, 1, 1, 0, 0]),
        Err(LocalFileListDecodeError::EntryLength)
    );
    assert_eq!(
        decode(&[0, 0, 2, 0, 1, 1, 0, 1, 0xff]),
        Err(LocalFileListDecodeError::EntryUtf8)
    );
    let list = decode_file_list_success_body(
        &[0, 0, 2, 0, 2, 3, 0, 1, b'a', 4, 0, 2, 0xc3, 0xa9],
        2,
    )
    .expect("two entries");
    assert_eq!(list[0].display_text(), "a [symlink]");
    assert_eq!(list[1].display_text(), "é [other]");
}
