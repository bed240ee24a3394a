//! The custody operations, run against a host that lives in memory.
use aws_lc_rs::encoding::AsDer;
use aws_lc_rs::signature::KeyPair;
use ownspace::domain::{
    DeviceIdentityAlgorithm, DeviceIdentityPublicKeyEncoding, PublicIdentityMaterial,
    TransportIdentity,
};
use ownspace::durable_registry_sqlite_custody::{
    existing_owner_pc_sqlite_path, harden_database_file,
    prepare_owner_pc_sqlite_path,
    prepare_owner_pc_sqlite_path_from_env, resolve_owner_pc_state_root,
    DurableRegistrySqliteCustodyError, OWNER_PC_SQLITE_RELATIVE_PATH,
};
use ownspace::durable_registry_sqlite_store::OwnerPcLocalAuthorityBootstrapOutcome;
use ownspace::environment::HostEnvironment;
use ownspace::helper_arguments::{
    decryption_arguments, encryption_arguments, tpm2_query_arguments,
};
use ownspace::outside::{FileMetadata, OutsideReply, OutsideRequest, Place};
use ownspace::owner_first_run_setup_intent::{
    canonical_owner_first_run_transport_custody_intent,
    decode_owner_first_run_transport_custody_intent,
    ensure_owner_first_run_transport_custody_intent_at_state_root,
    ensure_owner_first_run_transport_custody_intent_from_env,
    inspect_owner_first_run_setup_intent_presence_at_state_root,
    load_owner_first_run_transport_custody_selection_from_env,
    load_owner_first_run_transport_custody_selection_from_state_root,
    retire_owner_first_run_transport_custody_intent_after_local_authority_success_from_env,
    retire_owner_first_run_transport_custody_intent_at_state_root, OwnerFirstRunSetupIntentError,
    OwnerFirstRunSetupIntentPresence, OwnerFirstRunSetupIntentRetirementOutcome,
    OwnerFirstRunSetupIntentWriteOutcome, EXPLICIT_HOST_KEY_ONLY_FALLBACK_INTENT,
    PREFERRED_DEFAULT_INTENT,
};
use ownspace::owner_first_setup_bootstrap_inputs::{
    compose_owner_first_setup_bootstrap_inputs, decode_identifier,
    decode_owner_logical_identity_record, draw_owner_entropy, encode_identifier,
    ensure_owner_logical_identity_record_at_state_root,
    generate_owner_logical_identity_record, load_owner_first_setup_bootstrap_inputs_with,
    load_owner_logical_identity_record_from_state_root, record_from_entropy,
    OwnerFirstSetupBootstrapInputError, OwnerLogicalIdentityRecordOutcome,
    UbuntuDeviceIdentityCustodyError, OWNER_LOGICAL_IDENTITY_MAGIC,
};
use ownspace::owner_first_setup_custody_policy_orchestration::{
    compose_owner_first_setup_custody_policy_plan, OwnerFirstSetupTransportCustodySelection,
};
use ownspace::owner_first_setup_transport_provisioning_execution::execute_owner_first_setup_transport_identity_provisioning;
use ownspace::paths::HostRoots;
use ownspace::plan::Progress;
use ownspace::transport_identity_custody::{
    credentials_directory_from_value, derive_transport_identity_from_pkcs8_v1_der,
    judge_transport_credential, load_from_credentials_directory,
    load_ubuntu_transport_identity_from_systemd_credential,
    UbuntuTransportIdentityCustodyError, SYSTEMD_TRANSPORT_IDENTITY_CREDENTIAL_NAME,
};
use ownspace::transport_identity_provisioning::{
    accept_generated_key, classify_transport_identity_persistent_state,
    established_policy_from_dropin_payload, generate_transport_private_key,
    provision_first_ubuntu_transport_identity_host_key_only,
    provision_first_ubuntu_transport_identity_preferred, render_transport_identity_dropin,
    TransportIdentityPersistentState, TransportIdentityProvisioningError,
    TransportIdentityProvisioningPolicy, TransportIdentityRecoveryError,
    TRANSPORT_IDENTITY_HOST_KEY_ONLY_CUSTODY_TIER, TRANSPORT_IDENTITY_PREFERRED_CUSTODY_TIER,
};
use ownspace::transport_identity_recovery::{
    inspect_ubuntu_transport_identity_persistent_state, recover_existing_ubuntu_transport_identity,
    recover_established_ubuntu_transport_identity_from_persisted_binding,
};

const UID: u32 = 1000;

const STATE_ROOT: &str = "/home/owner/.local/state";

struct Node {
    link: bool,
    directory: bool,
    uid: u32,
    mode: u32,
    content: Vec<u8>,
    inode: u64,
}

/// A host whose files live in memory, one for each place.
struct Host {
    nodes: Vec<(Place, Node)>,
    next_inode: u64,
    tpm2: Option<i32>,
    key: Option<Vec<u8>>,
    fails: fn(&OutsideRequest<Vec<u8>>) -> bool,
    asked: Vec<String>,
}

fn never(_request: &OutsideRequest<Vec<u8>>) -> bool {
    false
}

impl Host {
    fn new() -> Host {
        Host {
            nodes: Vec::new(),
            next_inode: 1,
            tpm2: Some(0),
            key: None,
            fails: never,
            asked: Vec::new(),
        }
    }

    fn put(&mut self, place: Place, link: bool, directory: bool, uid: u32, mode: u32, content: &[u8]) {
        self.remove(place);
        let inode = self.next_inode;
        self.next_inode += 1;
        self.nodes.push((
            place,
            Node { link, directory, uid, mode, content: content.to_vec(), inode },
        ));
    }

    fn directory(&mut self, place: Place, mode: u32) {
        self.put(place, false, true, UID, mode, &[]);
    }

    fn file(&mut self, place: Place, mode: u32, content: &[u8]) {
        self.put(place, false, false, UID, mode, content);
    }

    fn link(&mut self, place: Place) {
        self.put(place, true, false, UID, 0o777, &[]);
    }

    fn remove(&mut self, place: Place) -> bool {
        let before = self.nodes.len();
        self.nodes.retain(|(other, _)| *other != place);
        self.nodes.len() != before
    }

    fn get(&self, place: Place) -> Option<&Node> {
        self.nodes.iter().find(|(other, _)| *other == place).map(|(_, node)| node)
    }

    fn get_mut(&mut self, place: Place) -> Option<&mut Node> {
        self.nodes.iter_mut().find(|(other, _)| *other == place).map(|(_, node)| node)
    }

    fn content(&self, place: Place) -> &[u8] {
        &self.get(place).expect("something is at the place").content
    }

    fn report(&self, place: Place) -> OutsideReply<Vec<u8>> {
        match self.get(place) {
            Some(node) => OutsideReply::Metadata(FileMetadata {
                is_symlink: node.link,
                is_dir: node.directory,
                is_file: !node.link && !node.directory,
                uid: node.uid,
                mode: node.mode,
                len: node.content.len() as u64,
                device: 1,
                inode: node.inode,
            }),
            None => OutsideReply::NotFound,
        }
    }

    fn done(done: bool) -> OutsideReply<Vec<u8>> {
        if done {
            OutsideReply::Completed
        } else {
            OutsideReply::Failed
        }
    }

    fn perform(&mut self, request: &OutsideRequest<Vec<u8>>) -> OutsideReply<Vec<u8>> {
        if (self.fails)(request) {
            return OutsideReply::Failed;
        }
        match request {
            OutsideRequest::Metadata(place) | OutsideRequest::OpenedMetadata(place) => {
                self.report(*place)
            }
            OutsideRequest::Exists(place) => OutsideReply::Flag(self.get(*place).is_some()),
            OutsideRequest::CreateDirectory(place) => {
                if self.get(*place).is_some() {
                    return OutsideReply::Failed;
                }
                self.directory(*place, 0o755);
                OutsideReply::Completed
            }
            OutsideRequest::SetMode(place, mode) | OutsideRequest::SetOpenedMode(place, mode) => {
                match self.get_mut(*place) {
                    Some(node) => {
                        node.mode = *mode;
                        OutsideReply::Completed
                    }
                    None => OutsideReply::Failed,
                }
            }
            OutsideRequest::Open(place) => {
                Host::done(self.get(*place).is_some_and(|node| !node.link))
            }
            OutsideRequest::CreateNew(place, mode) => {
                if self.get(*place).is_some() {
                    return OutsideReply::Failed;
                }
                self.file(*place, *mode, &[]);
                OutsideReply::Completed
            }
            OutsideRequest::WriteAndSync(place, bytes) => match self.get_mut(*place) {
                Some(node) => {
                    node.content = bytes.clone();
                    OutsideReply::Completed
                }
                None => OutsideReply::Failed,
            },
            OutsideRequest::SyncOpened(_) | OutsideRequest::SyncDirectory(_) => {
                OutsideReply::Completed
            }
            OutsideRequest::Read(place, limit) => match self.get(*place) {
                Some(node) => {
                    let wanted = node.content.len().min(*limit as usize);
                    OutsideReply::Bytes(node.content[..wanted].to_vec())
                }
                None => OutsideReply::Failed,
            },
            OutsideRequest::RenameNoReplace(from, to) => {
                if self.get(*to).is_some() || self.get(*from).is_none() {
                    return OutsideReply::Failed;
                }
                for (place, _) in self.nodes.iter_mut() {
                    if *place == *from {
                        *place = *to;
                    }
                }
                OutsideReply::Completed
            }
            OutsideRequest::Remove(place) => Host::done(self.remove(*place)),
            OutsideRequest::QueryTpm2 => OutsideReply::Exit(self.tpm2),
            OutsideRequest::GenerateTransportKey => match generate_transport_private_key() {
                Ok((key, identity)) => {
                    self.key = Some(key);
                    OutsideReply::Identity(identity)
                }
                Err(_) => OutsideReply::Failed,
            },
            OutsideRequest::EncryptTransportKey(place, host_key_only) => {
                let Some(mut key) = self.key.take() else {
                    return OutsideReply::Failed;
                };
                self.asked.push(format!("encrypt host_key_only={host_key_only}"));
                key.reverse();
                self.file(*place, 0o600, &key);
                OutsideReply::Completed
            }
            OutsideRequest::StartDecryption(place, limit) => match self.get(*place) {
                Some(node) => {
                    let mut key = node.content.clone();
                    key.reverse();
                    key.truncate(*limit as usize);
                    OutsideReply::Bytes(key)
                }
                None => OutsideReply::Failed,
            },
            OutsideRequest::AbortDecryption => {
                self.asked.push("abort".to_owned());
                OutsideReply::Completed
            }
            OutsideRequest::FinishDecryption => OutsideReply::Exit(Some(0)),
            OutsideRequest::OwnerEntropy => match draw_owner_entropy() {
                Ok((workspace, user, device)) => OutsideReply::Entropy(workspace, user, device),
                Err(_) => OutsideReply::Failed,
            },
        }
    }

    /// Runs an operation to its end, performing what it asks for.
    fn run<R>(
        &mut self,
        step: impl Fn(&Vec<OutsideReply<Vec<u8>>>) -> Progress<OutsideRequest<Vec<u8>>, R>,
    ) -> R {
        let mut replies = Vec::new();
        loop {
            match step(&replies) {
                Progress::Done(result) => return result,
                Progress::Waiting(request) => {
                    let reply = self.perform(&request);
                    replies.push(reply);
                    assert!(replies.len() < 200, "an operation ends");
                }
            }
        }
    }
}

fn root_only() -> Host {
    let mut host = Host::new();
    host.directory(Place::StateRoot, 0o700);
    host
}

fn setup_host() -> Host {
    let mut host = root_only();
    host.directory(Place::ApplicationDirectory, 0o700);
    host.directory(Place::SetupDirectory, 0o700);
    host
}

fn bootstrap_host() -> Host {
    let mut host = root_only();
    host.directory(Place::ApplicationDirectory, 0o700);
    host.directory(Place::BootstrapDirectory, 0o700);
    host
}

type Selection = OwnerFirstSetupTransportCustodySelection;

fn load_intent(host: &mut Host) -> Result<Selection, OwnerFirstRunSetupIntentError> {
    host.run(|replies| {
        load_owner_first_run_transport_custody_selection_from_state_root(
            STATE_ROOT.as_bytes(),
            UID,
            replies,
        )
    })
}

fn inspect_intent(
    host: &mut Host,
) -> Result<OwnerFirstRunSetupIntentPresence, OwnerFirstRunSetupIntentError> {
    host.run(|replies| {
        inspect_owner_first_run_setup_intent_presence_at_state_root(
            STATE_ROOT.as_bytes(),
            UID,
            replies,
        )
    })
}

fn ensure_intent(
    host: &mut Host,
    selection: Selection,
) -> Result<OwnerFirstRunSetupIntentWriteOutcome, OwnerFirstRunSetupIntentError> {
    host.run(|replies| {
        ensure_owner_first_run_transport_custody_intent_at_state_root(
            STATE_ROOT.as_bytes(),
            UID,
            selection,
            replies,
        )
    })
}

fn retire_intent(
    host: &mut Host,
    selection: Selection,
) -> Result<OwnerFirstRunSetupIntentRetirementOutcome, OwnerFirstRunSetupIntentError> {
    host.run(|replies| {
        retire_owner_first_run_transport_custody_intent_at_state_root(
            STATE_ROOT.as_bytes(),
            UID,
            selection,
            replies,
        )
    })
}

const PREFERRED: Selection = OwnerFirstSetupTransportCustodySelection::PreferredDefault;

const FALLBACK: Selection = OwnerFirstSetupTransportCustodySelection::ExplicitHostKeyOnlyFallback;

#[test]
fn canonical_tokens_map_to_exact_typed_selections() {
    assert_eq!(
        decode_owner_first_run_transport_custody_intent(PREFERRED_DEFAULT_INTENT.as_bytes()),
        Ok(OwnerFirstSetupTransportCustodySelection::PreferredDefault)
    );
    assert_eq!(
        decode_owner_first_run_transport_custody_intent(
            EXPLICIT_HOST_KEY_ONLY_FALLBACK_INTENT.as_bytes()
        ),
        Ok(OwnerFirstSetupTransportCustodySelection::ExplicitHostKeyOnlyFallback)
    );
    assert_eq!(
        canonical_owner_first_run_transport_custody_intent(FALLBACK),
        "explicit-host-key-only-fallback-v1\n".as_bytes()
    );
}

#[test]
fn secure_fixed_record_loads_both_owner_locked_selections() {
    for (text, expected) in [
        (PREFERRED_DEFAULT_INTENT, PREFERRED),
        (EXPLICIT_HOST_KEY_ONLY_FALLBACK_INTENT, FALLBACK),
    ] {
        let mut host = setup_host();
        host.file(Place::IntentRecord, 0o600, text.as_bytes());
        assert_eq!(load_intent(&mut host), Ok(expected));
    }
}

#[test]
fn startup_presence_classifies_only_valid_present_or_exact_absent_state() {
    for text in [
        PREFERRED_DEFAULT_INTENT,
        EXPLICIT_HOST_KEY_ONLY_FALLBACK_INTENT,
    ] {
        let mut host = setup_host();
        host.file(Place::IntentRecord, 0o600, text.as_bytes());
        assert_eq!(
            inspect_intent(&mut host),
            Ok(OwnerFirstRunSetupIntentPresence::Present)
        );
    }

    let mut absent = setup_host();
    assert_eq!(
        inspect_intent(&mut absent),
        Ok(OwnerFirstRunSetupIntentPresence::Absent)
    );
}

#[test]
fn startup_presence_never_maps_invalid_present_state_to_absent() {
    let mut malformed = setup_host();
    malformed.file(Place::IntentRecord, 0o600, "preferred-default-v2\n".as_bytes());
    assert_eq!(
        inspect_intent(&mut malformed),
        Err(OwnerFirstRunSetupIntentError::MalformedIntentRecord)
    );
    assert!(malformed.get(Place::IntentRecord).is_some());

    let mut insecure = setup_host();
    insecure.file(Place::IntentRecord, 0o644, PREFERRED_DEFAULT_INTENT.as_bytes());
    assert_eq!(
        inspect_intent(&mut insecure),
        Err(OwnerFirstRunSetupIntentError::IntentRecordInsecure)
    );
    assert!(insecure.get(Place::IntentRecord).is_some());

    let mut incomplete_custody = root_only();
    assert_eq!(
        inspect_intent(&mut incomplete_custody),
        Err(OwnerFirstRunSetupIntentError::InsecureApplicationDirectory)
    );
}

#[test]
fn writer_creates_private_custody_for_both_owner_locked_selections() {
    for selection in [PREFERRED, FALLBACK] {
        let mut host = root_only();
        assert_eq!(
            ensure_intent(&mut host, selection),
            Ok(OwnerFirstRunSetupIntentWriteOutcome::Created(selection))
        );
        assert_eq!(load_intent(&mut host), Ok(selection));
        for place in [Place::ApplicationDirectory, Place::SetupDirectory] {
            assert_eq!(host.get(place).expect("directory").mode & 0o777, 0o700);
        }
        assert_eq!(
            host.get(Place::IntentRecord).expect("record").mode & 0o777,
            0o600
        );
        assert!(host.get(Place::IntentTemporary).is_none());
    }
}

#[test]
fn writer_exact_replay_reuses_same_record_object() {
    let mut host = root_only();
    assert_eq!(
        ensure_intent(&mut host, PREFERRED),
        Ok(OwnerFirstRunSetupIntentWriteOutcome::Created(PREFERRED))
    );
    let before = host.get(Place::IntentRecord).expect("record").inode;
    assert_eq!(
        ensure_intent(&mut host, PREFERRED),
        Ok(OwnerFirstRunSetupIntentWriteOutcome::Existing(PREFERRED))
    );
    assert_eq!(host.get(Place::IntentRecord).expect("record").inode, before);
}

#[test]
fn writer_rejects_conflicting_valid_selection_without_replacement() {
    let mut host = root_only();
    assert_eq!(
        ensure_intent(&mut host, PREFERRED),
        Ok(OwnerFirstRunSetupIntentWriteOutcome::Created(PREFERRED))
    );
    let before = host.content(Place::IntentRecord).to_vec();
    assert_eq!(
        ensure_intent(&mut host, FALLBACK),
        Err(OwnerFirstRunSetupIntentError::ConflictingIntentRecord)
    );
    assert_eq!(host.content(Place::IntentRecord), before);
    assert_eq!(load_intent(&mut host), Ok(PREFERRED));
}

#[test]
fn writer_never_replaces_malformed_existing_state() {
    let mut host = setup_host();
    let malformed = "preferred-default-v2\n".as_bytes();
    host.file(Place::IntentRecord, 0o600, malformed);
    assert_eq!(
        ensure_intent(&mut host, PREFERRED),
        Err(OwnerFirstRunSetupIntentError::MalformedIntentRecord)
    );
    assert_eq!(host.content(Place::IntentRecord), malformed);
}

#[test]
fn retirement_removes_only_exact_matching_intent_and_is_idempotent() {
    for selection in [PREFERRED, FALLBACK] {
        let mut host = setup_host();
        host.file(
            Place::IntentRecord,
            0o600,
            canonical_owner_first_run_transport_custody_intent(selection),
        );
        host.file(Place::IdentityRecord, 0o600, "preserve\n".as_bytes());
        assert_eq!(
            retire_intent(&mut host, selection),
            Ok(OwnerFirstRunSetupIntentRetirementOutcome::Retired(selection))
        );
        assert!(host.get(Place::IntentRecord).is_none());
        assert_eq!(host.content(Place::IdentityRecord), "preserve\n".as_bytes());
        assert!(host.get(Place::SetupDirectory).is_some());
        assert!(host.get(Place::ApplicationDirectory).is_some());
        assert_eq!(
            retire_intent(&mut host, selection),
            Ok(OwnerFirstRunSetupIntentRetirementOutcome::AlreadyRetired)
        );
    }
}

#[test]
fn retirement_preserves_mismatched_valid_selection() {
    let mut host = setup_host();
    host.file(Place::IntentRecord, 0o600, PREFERRED_DEFAULT_INTENT.as_bytes());
    assert_eq!(
        retire_intent(&mut host, FALLBACK),
        Err(OwnerFirstRunSetupIntentError::ConflictingIntentRecord)
    );
    assert_eq!(
        host.content(Place::IntentRecord),
        PREFERRED_DEFAULT_INTENT.as_bytes()
    );
}

#[test]
fn retirement_preserves_malformed_and_insecure_present_state() {
    let mut malformed = setup_host();
    malformed.file(Place::IntentRecord, 0o600, "preferred-default-v2\n".as_bytes());
    assert_eq!(
        retire_intent(&mut malformed, PREFERRED),
        Err(OwnerFirstRunSetupIntentError::MalformedIntentRecord)
    );
    assert_eq!(
        malformed.content(Place::IntentRecord),
        "preferred-default-v2\n".as_bytes()
    );

    let mut insecure = setup_host();
    insecure.file(Place::IntentRecord, 0o644, PREFERRED_DEFAULT_INTENT.as_bytes());
    assert_eq!(
        retire_intent(&mut insecure, PREFERRED),
        Err(OwnerFirstRunSetupIntentError::IntentRecordInsecure)
    );
    assert!(insecure.get(Place::IntentRecord).is_some());
}

#[test]
fn malformed_same_size_token_fails_closed() {
    let mut host = setup_host();
    host.file(Place::IntentRecord, 0o600, "preferred-default-v2\n".as_bytes());
    assert_eq!(
        load_intent(&mut host),
        Err(OwnerFirstRunSetupIntentError::MalformedIntentRecord)
    );
}

#[test]
fn missing_record_is_not_treated_as_preferred_or_fallback() {
    let mut host = setup_host();
    assert_eq!(
        load_intent(&mut host),
        Err(OwnerFirstRunSetupIntentError::IntentRecordUnavailable)
    );
}

#[test]
fn insecure_mode_and_symlinked_record_fail_closed() {
    let mut host = setup_host();
    host.file(Place::IntentRecord, 0o644, PREFERRED_DEFAULT_INTENT.as_bytes());
    assert_eq!(
        load_intent(&mut host),
        Err(OwnerFirstRunSetupIntentError::IntentRecordInsecure)
    );
    host.link(Place::IntentRecord);
    assert_eq!(
        load_intent(&mut host),
        Err(OwnerFirstRunSetupIntentError::IntentRecordInsecure)
    );
}

#[test]
fn insecure_setup_directory_fails_before_record_read() {
    let mut host = setup_host();
    host.file(Place::IntentRecord, 0o600, PREFERRED_DEFAULT_INTENT.as_bytes());
    host.directory(Place::SetupDirectory, 0o755);
    assert_eq!(
        load_intent(&mut host),
        Err(OwnerFirstRunSetupIntentError::InsecureSetupDirectory)
    );
}

#[test]
fn each_failing_step_of_the_writer_has_its_error_and_leaves_no_record() {
    let cases: [(fn(&OutsideRequest<Vec<u8>>) -> bool, OwnerFirstRunSetupIntentError); 7] = [
        (
            |request| matches!(request, OutsideRequest::CreateDirectory(_)),
            OwnerFirstRunSetupIntentError::DirectoryCreationFailed,
        ),
        (
            |request| matches!(request, OutsideRequest::CreateNew(_, _)),
            OwnerFirstRunSetupIntentError::IntentRecordWriteFailed,
        ),
        (
            |request| matches!(request, OutsideRequest::SetOpenedMode(_, _)),
            OwnerFirstRunSetupIntentError::IntentRecordWriteFailed,
        ),
        (
            |request| matches!(request, OutsideRequest::WriteAndSync(_, _)),
            OwnerFirstRunSetupIntentError::IntentRecordWriteFailed,
        ),
        (
            |request| matches!(request, OutsideRequest::OpenedMetadata(_)),
            OwnerFirstRunSetupIntentError::IntentRecordWriteFailed,
        ),
        (
            |request| matches!(request, OutsideRequest::RenameNoReplace(_, _)),
            OwnerFirstRunSetupIntentError::IntentRecordCommitFailed,
        ),
        (
            |request| matches!(request, OutsideRequest::SyncDirectory(_)),
            OwnerFirstRunSetupIntentError::DirectorySyncFailed,
        ),
    ];
    for (fails, error) in cases {
        let mut host = root_only();
        host.fails = fails;
        assert_eq!(ensure_intent(&mut host, PREFERRED), Err(error));
        assert!(host.get(Place::IntentRecord).is_none());
        assert!(host.get(Place::IntentTemporary).is_none());
    }
}

#[test]
fn roots_and_records_that_cannot_be_trusted_are_told_apart() {
    let relative = root_only().run(|replies| {
        load_owner_first_run_transport_custody_selection_from_state_root(
            "state".as_bytes(),
            UID,
            replies,
        )
    });
    assert_eq!(relative, Err(OwnerFirstRunSetupIntentError::InvalidStateRoot));
    let mut shared = Host::new();
    shared.directory(Place::StateRoot, 0o777);
    assert_eq!(
        load_intent(&mut shared),
        Err(OwnerFirstRunSetupIntentError::InsecureStateRoot)
    );
    let mut unreadable = setup_host();
    unreadable.file(Place::IntentRecord, 0o600, PREFERRED_DEFAULT_INTENT.as_bytes());
    unreadable.fails = |request| matches!(request, OutsideRequest::Read(_, _));
    assert_eq!(
        load_intent(&mut unreadable),
        Err(OwnerFirstRunSetupIntentError::IntentRecordReadFailed)
    );
    let mut stuck = setup_host();
    stuck.file(Place::IntentRecord, 0o600, PREFERRED_DEFAULT_INTENT.as_bytes());
    stuck.fails = |request| matches!(request, OutsideRequest::Remove(_));
    assert_eq!(
        retire_intent(&mut stuck, PREFERRED),
        Err(OwnerFirstRunSetupIntentError::IntentRecordRetirementFailed)
    );
    assert_eq!(load_intent(&mut stuck), Ok(PREFERRED));
}

fn environment() -> HostEnvironment {
    HostEnvironment {
        xdg_state_home: None,
        xdg_config_home: Some("/home/owner/.config".as_bytes().to_vec()),
        home: Some("/home/owner".as_bytes().to_vec()),
        credentials_directory: Some("/run/credentials/prw".as_bytes().to_vec()),
        uid: UID,
        euid: UID,
        process_id: 4321,
    }
}

#[test]
fn environment_decides_the_state_root() {
    let environment = environment();
    let mut host = root_only();
    assert_eq!(
        host.run(|replies| ensure_owner_first_run_transport_custody_intent_from_env(
            &environment,
            FALLBACK,
            replies
        )),
        Ok(OwnerFirstRunSetupIntentWriteOutcome::Created(FALLBACK))
    );
    assert_eq!(
        host.run(|replies| load_owner_first_run_transport_custody_selection_from_env(
            &environment,
            replies
        )),
        Ok(FALLBACK)
    );
    assert_eq!(
        host.run(|replies| {
            retire_owner_first_run_transport_custody_intent_after_local_authority_success_from_env(
                &environment,
                FALLBACK,
                OwnerPcLocalAuthorityBootstrapOutcome::AlreadyCurrent,
                replies,
            )
        }),
        Ok(OwnerFirstRunSetupIntentRetirementOutcome::Retired(FALLBACK))
    );
    let nowhere = HostEnvironment {
        xdg_state_home: Some("relative".as_bytes().to_vec()),
        ..environment
    };
    assert_eq!(
        host.run(|replies| load_owner_first_run_transport_custody_selection_from_env(
            &nowhere, replies
        )),
        Err(OwnerFirstRunSetupIntentError::InvalidStateRoot)
    );
}

#[test]
fn places_lie_where_they_should() {
    let roots = environment().host_roots();
    let at = |place: Place| String::from_utf8(roots.place_path(place)).expect("text");
    assert_eq!(at(Place::StateRoot), "/home/owner/.local/state");
    assert_eq!(
        at(Place::IntentRecord),
        "/home/owner/.local/state/private-remote-workspace/setup/owner-first-run-transport-custody-intent-v1"
    );
    assert_eq!(
        at(Place::IntentTemporary),
        "/home/owner/.local/state/private-remote-workspace/setup/.owner-first-run-transport-custody-intent-v1.c03e-zg.4321.tmp"
    );
    assert_eq!(
        at(Place::Dropin),
        "/home/owner/.config/systemd/user/prw-agent.service.d/30-transport-identity-credential.conf"
    );
    assert_eq!(
        at(Place::RuntimeCredential),
        "/run/credentials/prw/prw.transport-identity.private-key.v1"
    );
    assert_eq!(at(Place::SystemdCreds), "/usr/bin/systemd-creds");
    let slashed = HostRoots {
        state_root: "/".as_bytes().to_vec(),
        config_root: Vec::new(),
        runtime_credentials: Vec::new(),
        process_id: 1,
    };
    assert_eq!(
        slashed.place_path(Place::ApplicationDirectory),
        "/private-remote-workspace".as_bytes()
    );
}

#[test]
fn generated_record_is_canonical_and_round_trips() {
    let record = generate_owner_logical_identity_record().expect("generate record");
    for (prefix, value) in [
        ("w-", record.workspace_id().as_str()),
        ("u-", record.user_id().as_str()),
        ("d-", record.device_id().as_str()),
    ] {
        assert!(value.starts_with(prefix));
        assert_eq!(value.len(), 34);
        assert!(value[2..]
            .bytes()
            .all(|byte| byte.is_ascii_digit() || (b'a'..=b'f').contains(&byte)));
    }

    let encoded = record.encode();
    assert_eq!(
        &encoded[..OWNER_LOGICAL_IDENTITY_MAGIC.len()],
        &OWNER_LOGICAL_IDENTITY_MAGIC
    );
    assert_eq!(
        decode_owner_logical_identity_record(&encoded).expect("decode record"),
        record
    );
    let second = generate_owner_logical_identity_record().expect("second record");
    assert_ne!(record.workspace_id(), second.workspace_id());
}

#[test]
fn deterministic_entropy_produces_exact_stable_ids() {
    let record = record_from_entropy([0x11; 16], [0x22; 16], [0x33; 16])
        .expect("construct deterministic record");
    assert_eq!(
        record.workspace_id().as_str(),
        "w-11111111111111111111111111111111"
    );
    assert_eq!(
        record.user_id().as_str(),
        "u-22222222222222222222222222222222"
    );
    assert_eq!(
        record.device_id().as_str(),
        "d-33333333333333333333333333333333"
    );
}

#[test]
fn malformed_or_extended_record_fails_closed() {
    let record = record_from_entropy([1; 16], [2; 16], [3; 16])
        .expect("construct record")
        .encode();
    let mut wrong_magic = record;
    wrong_magic[0] ^= 0xff;
    assert!(matches!(
        decode_owner_logical_identity_record(&wrong_magic),
        Err(OwnerFirstSetupBootstrapInputError::MalformedLogicalIdentityRecord)
    ));

    let mut extended = record.to_vec();
    extended.push(0);
    assert!(matches!(
        decode_owner_logical_identity_record(&extended),
        Err(OwnerFirstSetupBootstrapInputError::MalformedLogicalIdentityRecord)
    ));

    let mut upper = record;
    upper[10] = b'A';
    assert!(decode_owner_logical_identity_record(&upper).is_err());
}

fn load_identity(
    host: &mut Host,
) -> Result<
    ownspace::owner_first_setup_bootstrap_inputs::OwnerLogicalIdentityRecord,
    OwnerFirstSetupBootstrapInputError,
> {
    host.run(|replies| {
        load_owner_logical_identity_record_from_state_root(STATE_ROOT.as_bytes(), UID, replies)
    })
}

fn ensure_identity(
    host: &mut Host,
) -> Result<OwnerLogicalIdentityRecordOutcome, OwnerFirstSetupBootstrapInputError> {
    host.run(|replies| {
        ensure_owner_logical_identity_record_at_state_root(STATE_ROOT.as_bytes(), UID, replies)
    })
}

#[test]
fn secure_state_record_loads_and_symlink_is_rejected() {
    let mut host = bootstrap_host();
    let record = record_from_entropy([4; 16], [5; 16], [6; 16]).expect("construct record");
    host.file(Place::IdentityRecord, 0o600, &record.encode());
    assert_eq!(load_identity(&mut host).expect("load exact record"), record);

    host.link(Place::IdentityRecord);
    assert!(matches!(
        load_identity(&mut host),
        Err(OwnerFirstSetupBootstrapInputError::LogicalIdentityRecordInsecure)
    ));
}

#[test]
fn ensure_creates_once_and_replays_exact_existing_identity() {
    let mut host = root_only();
    let first = ensure_identity(&mut host).expect("create first owner identity record");
    assert!(first.was_created());
    let node = host.get(Place::IdentityRecord).expect("created record");
    assert!(!node.directory && !node.link);
    assert_eq!(node.mode & 0o777, 0o600);
    assert_eq!(node.content, first.record().encode());

    let second = ensure_identity(&mut host).expect("replay existing owner identity record");
    assert!(!second.was_created());
    assert_eq!(second.record(), first.record());
    assert!(matches!(
        second,
        OwnerLogicalIdentityRecordOutcome::Existing(_)
    ));
}

#[test]
fn ensure_rejects_malformed_existing_identity_without_replacement() {
    let mut host = bootstrap_host();
    let mut malformed = record_from_entropy([0x41; 16], [0x42; 16], [0x43; 16])
        .expect("construct record")
        .encode();
    malformed[0] ^= 0xff;
    host.file(Place::IdentityRecord, 0o600, &malformed);
    assert!(matches!(
        ensure_identity(&mut host),
        Err(OwnerFirstSetupBootstrapInputError::MalformedLogicalIdentityRecord)
    ));
    assert_eq!(host.content(Place::IdentityRecord), malformed);
}

#[test]
fn identity_is_not_created_without_entropy() {
    let mut host = root_only();
    host.fails = |request| matches!(request, OutsideRequest::OwnerEntropy);
    assert!(matches!(
        ensure_identity(&mut host),
        Err(OwnerFirstSetupBootstrapInputError::RandomUnavailable)
    ));
    assert!(host.get(Place::IdentityRecord).is_none());
}

fn public_identity() -> PublicIdentityMaterial {
    PublicIdentityMaterial::new(
        DeviceIdentityAlgorithm::EcdsaP256Sha256,
        DeviceIdentityPublicKeyEncoding::SubjectPublicKeyInfoDer,
        vec![1, 2, 3],
    )
    .expect("public identity")
}

#[test]
fn composition_preserves_three_identity_roles_without_capability_grant() {
    let record = record_from_entropy([7; 16], [8; 16], [9; 16]).expect("construct record");
    let public_identity = public_identity();
    let transport_identity = TransportIdentity::new([0x55; 32]).expect("transport identity");

    let inputs =
        compose_owner_first_setup_bootstrap_inputs(&record, &public_identity, transport_identity);
    assert_eq!(&inputs.binding().workspace_id, record.workspace_id());
    assert_eq!(&inputs.binding().user_id, record.user_id());
    assert_eq!(&inputs.binding().device_id, record.device_id());
    assert_eq!(&inputs.binding().public_identity, &public_identity);
    assert!(inputs.binding().lifecycle.can_participate());
    assert_eq!(inputs.transport_identity(), transport_identity);
}

#[test]
fn current_sources_are_loaded_in_order() {
    let record = record_from_entropy([7; 16], [8; 16], [9; 16]).expect("construct record");
    let transport_identity = TransportIdentity::new([0x56; 32]).expect("transport identity");
    let inputs = load_owner_first_setup_bootstrap_inputs_with(
        || Ok(record),
        || Ok(public_identity()),
        || Ok(transport_identity),
    )
    .expect("inputs");
    assert_eq!(inputs.transport_identity(), transport_identity);
    let failed = load_owner_first_setup_bootstrap_inputs_with(
        || record_from_entropy([7; 16], [8; 16], [9; 16]),
        || Err(UbuntuDeviceIdentityCustodyError::Unavailable),
        || panic!("the transport identity comes last"),
    );
    assert!(matches!(
        failed,
        Err(OwnerFirstSetupBootstrapInputError::DeviceIdentityCustody(
            UbuntuDeviceIdentityCustodyError::Unavailable
        ))
    ));
}

#[test]
fn xdg_state_root_selection_is_absolute_and_deterministic() {
    assert_eq!(
        resolve_owner_pc_state_root(
            Some("/srv/prw-state".as_bytes()),
            Some("/home/owner".as_bytes()),
        ),
        Some("/srv/prw-state".as_bytes().to_vec())
    );
    assert_eq!(
        resolve_owner_pc_state_root(None, Some("/home/owner".as_bytes())),
        Some("/home/owner/.local/state".as_bytes().to_vec())
    );
    assert_eq!(
        resolve_owner_pc_state_root(Some("relative".as_bytes()), None),
        None
    );
    assert_eq!(resolve_owner_pc_state_root(Some("".as_bytes()), None), None);
}

fn prepare_database(host: &mut Host) -> Result<Vec<u8>, DurableRegistrySqliteCustodyError> {
    host.run(|replies| prepare_owner_pc_sqlite_path(STATE_ROOT.as_bytes(), UID, replies))
}

fn existing_database(host: &mut Host) -> Result<Vec<u8>, DurableRegistrySqliteCustodyError> {
    host.run(|replies| existing_owner_pc_sqlite_path(STATE_ROOT.as_bytes(), UID, replies))
}

#[test]
fn existing_database_path_never_creates_missing_custody() {
    let mut host = root_only();
    assert!(matches!(
        existing_database(&mut host),
        Err(DurableRegistrySqliteCustodyError::InsecureApplicationDirectory)
    ));
    assert!(host.get(Place::ApplicationDirectory).is_none());
}

#[test]
fn private_database_path_is_created_under_existing_secure_state_root() {
    let mut host = root_only();
    let path = prepare_database(&mut host).expect("prepare local database path");
    assert_eq!(
        path,
        format!("{STATE_ROOT}/{OWNER_PC_SQLITE_RELATIVE_PATH}").into_bytes()
    );
    for place in [Place::ApplicationDirectory, Place::DatabaseDirectory] {
        assert_eq!(host.get(place).expect("directory").mode & 0o777, 0o700);
    }
    assert!(host.get(Place::Database).is_none());
}

#[test]
fn insecure_or_symlinked_custody_fails_closed() {
    let mut host = Host::new();
    host.directory(Place::StateRoot, 0o777);
    assert_eq!(
        prepare_database(&mut host),
        Err(DurableRegistrySqliteCustodyError::InsecureStateRoot)
    );
    host.directory(Place::StateRoot, 0o700);
    host.link(Place::ApplicationDirectory);
    assert_eq!(
        prepare_database(&mut host),
        Err(DurableRegistrySqliteCustodyError::InsecureApplicationDirectory)
    );
    host.remove(Place::ApplicationDirectory);
    prepare_database(&mut host).expect("prepare private database directory");
    host.link(Place::Database);
    assert_eq!(
        prepare_database(&mut host),
        Err(DurableRegistrySqliteCustodyError::InsecureDatabaseFile)
    );
}

#[test]
fn database_is_hardened_and_then_accepted() {
    let mut host = root_only();
    prepare_database(&mut host).expect("prepare");
    host.file(Place::Database, 0o644, &[1, 2, 3]);
    assert_eq!(
        existing_database(&mut host),
        Err(DurableRegistrySqliteCustodyError::InsecureDatabaseFile)
    );
    assert_eq!(host.run(|replies| harden_database_file(UID, replies)), Ok(()));
    assert_eq!(host.content(Place::Database), &[1, 2, 3]);
    assert!(existing_database(&mut host).is_ok());
    assert_eq!(
        host.run(|replies| harden_database_file(UID + 1, replies)),
        Err(DurableRegistrySqliteCustodyError::InsecureDatabaseFile)
    );
    let environment = environment();
    assert!(host
        .run(|replies| prepare_owner_pc_sqlite_path_from_env(&environment, replies))
        .is_ok());
}

const RUNTIME: &str = "/run/credentials/prw";

fn credential_host(mode: u32, content: &[u8]) -> Host {
    let mut host = Host::new();
    host.directory(Place::RuntimeCredentialDirectory, 0o700);
    host.file(Place::RuntimeCredential, mode, content);
    host
}

fn load_credential(
    host: &mut Host,
) -> Result<TransportIdentity, UbuntuTransportIdentityCustodyError> {
    host.run(|replies| load_from_credentials_directory(RUNTIME.as_bytes(), UID, replies))
}

fn generate_p256_pkcs8() -> Vec<u8> {
    generate_transport_private_key()
        .expect("generate disposable transport key")
        .0
}

#[test]
fn exact_secure_transport_credential_derives_stable_nonzero_identity() {
    let mut host = credential_host(0o400, &generate_p256_pkcs8());
    let first = load_credential(&mut host).expect("load transport identity");
    let second = load_credential(&mut host).expect("reload transport identity");
    assert_eq!(first, second);
    assert_ne!(first.as_bytes(), &[0_u8; 32]);
    let environment = environment();
    assert_eq!(
        host.run(|replies| {
            load_ubuntu_transport_identity_from_systemd_credential(&environment, replies)
        }),
        Ok(first)
    );
}

#[test]
fn wrong_name_and_symlink_do_not_fallback() {
    let mut wrong_name = Host::new();
    wrong_name.directory(Place::RuntimeCredentialDirectory, 0o700);
    assert_eq!(
        load_credential(&mut wrong_name).unwrap_err(),
        UbuntuTransportIdentityCustodyError::CredentialUnavailable
    );

    let mut linked = Host::new();
    linked.directory(Place::RuntimeCredentialDirectory, 0o700);
    linked.link(Place::RuntimeCredential);
    assert_eq!(
        load_credential(&mut linked).unwrap_err(),
        UbuntuTransportIdentityCustodyError::CredentialNotRegular
    );
}

#[test]
fn insecure_permissions_fail_closed() {
    let mut host = credential_host(0o620, &generate_p256_pkcs8());
    assert_eq!(
        load_credential(&mut host).unwrap_err(),
        UbuntuTransportIdentityCustodyError::CredentialPermissionsInsecure
    );
}

#[test]
fn malformed_key_material_is_rejected() {
    let mut host = credential_host(0o400, "not-a-p256-key".as_bytes());
    assert_eq!(
        load_credential(&mut host).unwrap_err(),
        UbuntuTransportIdentityCustodyError::InvalidPrivateCredential
    );
}

#[test]
fn credential_directory_and_size_errors_are_told_apart() {
    assert_eq!(
        credentials_directory_from_value(None),
        Err(UbuntuTransportIdentityCustodyError::CredentialsDirectoryMissing)
    );
    assert_eq!(
        credentials_directory_from_value(Some(Vec::new())),
        Err(UbuntuTransportIdentityCustodyError::CredentialsDirectoryMissing)
    );
    assert_eq!(
        credentials_directory_from_value(Some("run".as_bytes().to_vec())),
        Err(UbuntuTransportIdentityCustodyError::CredentialsDirectoryInvalid)
    );
    let mut missing = Host::new();
    assert_eq!(
        load_credential(&mut missing).unwrap_err(),
        UbuntuTransportIdentityCustodyError::CredentialsDirectoryMissing
    );
    let mut open = credential_host(0o400, &generate_p256_pkcs8());
    open.directory(Place::RuntimeCredentialDirectory, 0o722);
    assert_eq!(
        load_credential(&mut open).unwrap_err(),
        UbuntuTransportIdentityCustodyError::CredentialsDirectoryNotSecure
    );
    let mut foreign = credential_host(0o400, &generate_p256_pkcs8());
    foreign.put(Place::RuntimeCredential, false, false, UID + 1, 0o400, &[1]);
    assert_eq!(
        load_credential(&mut foreign).unwrap_err(),
        UbuntuTransportIdentityCustodyError::CredentialOwnershipMismatch
    );
    let mut large = credential_host(0o400, &vec![1; 100_000]);
    assert_eq!(
        load_credential(&mut large).unwrap_err(),
        UbuntuTransportIdentityCustodyError::CredentialSizeOutOfBounds
    );
    let mut empty = credential_host(0o400, &[]);
    assert_eq!(
        load_credential(&mut empty).unwrap_err(),
        UbuntuTransportIdentityCustodyError::CredentialSizeOutOfBounds
    );
}

#[test]
fn credential_is_judged_by_its_canonical_form_and_fingerprint() {
    let credential = [9_u8; 10];
    assert_eq!(
        judge_transport_credential(&credential, Some(credential.to_vec()), Some([3; 32]))
            .expect("identity")
            .as_bytes(),
        &[3; 32]
    );
    assert_eq!(
        judge_transport_credential(&credential, Some(vec![1]), Some([3; 32])),
        Err(UbuntuTransportIdentityCustodyError::InvalidPrivateCredential)
    );
    assert_eq!(
        judge_transport_credential(&credential, Some(credential.to_vec()), None),
        Err(UbuntuTransportIdentityCustodyError::PublicIdentityDerivationFailed)
    );
    assert_eq!(
        judge_transport_credential(&credential, Some(credential.to_vec()), Some([0; 32])),
        Err(UbuntuTransportIdentityCustodyError::InvalidTransportIdentity)
    );
}

#[test]
fn generated_p256_key_derives_nonzero_transport_identity() {
    let (key, identity) = generate_transport_private_key().expect("generate");
    assert_eq!(
        derive_transport_identity_from_pkcs8_v1_der(&key).expect("derive transport identity"),
        identity
    );
    assert_ne!(identity.as_bytes(), &[0_u8; 32]);
    let (other, other_identity) = generate_transport_private_key().expect("generate again");
    assert_ne!(key, other);
    assert_ne!(identity, other_identity);
    assert!(matches!(
        accept_generated_key(None),
        Err(TransportIdentityProvisioningError::KeyGenerationFailed)
    ));
    assert!(matches!(
        accept_generated_key(Some(vec![1, 2, 3])),
        Err(TransportIdentityProvisioningError::GeneratedIdentityInvalid)
    ));
}

#[test]
fn derived_identity_is_the_digest_of_the_public_key() {
    let key = generate_p256_pkcs8();
    let pair = aws_lc_rs::signature::EcdsaKeyPair::from_pkcs8(
        &aws_lc_rs::signature::ECDSA_P256_SHA256_ASN1_SIGNING,
        &key,
    )
    .expect("key pair");
    let der = pair.public_key().as_der().expect("public key");
    let digest = aws_lc_rs::digest::digest(&aws_lc_rs::digest::SHA256, der.as_ref());
    assert_eq!(
        derive_transport_identity_from_pkcs8_v1_der(&key)
            .expect("identity")
            .as_bytes(),
        digest.as_ref()
    );
}
#[test]
fn persistent_state_requires_a_complete_artifact_pair() {
    assert_eq!(
        classify_transport_identity_persistent_state(false, false),
        Ok(TransportIdentityPersistentState::Absent)
    );
    assert_eq!(
        classify_transport_identity_persistent_state(true, true),
        Ok(TransportIdentityPersistentState::Established)
    );
    assert_eq!(
        classify_transport_identity_persistent_state(true, false),
        Err(TransportIdentityRecoveryError::PartialState)
    );
    assert_eq!(
        classify_transport_identity_persistent_state(false, true),
        Err(TransportIdentityRecoveryError::PartialState)
    );
}

#[test]
fn established_binding_selects_only_exact_persisted_canonical_policy() {
    let encrypted_path = "/home/owner/.local/state/private-remote-workspace/credentials/transport-identity-private-key-v1.cred".as_bytes();

    for policy in [
        TransportIdentityProvisioningPolicy::Preferred,
        TransportIdentityProvisioningPolicy::HostKeyOnly,
    ] {
        let payload = render_transport_identity_dropin(encrypted_path, policy.custody_tier())
            .expect("canonical established binding");
        assert_eq!(
            established_policy_from_dropin_payload(&payload, encrypted_path),
            Ok(policy)
        );
    }

    let unknown = format!(
        "# PRW_TRANSPORT_CUSTODY_TIER=UNKNOWN\n[Service]\nLoadCredentialEncrypted={SYSTEMD_TRANSPORT_IDENTITY_CREDENTIAL_NAME}:{}\n",
        String::from_utf8_lossy(encrypted_path)
    );
    assert_eq!(
        established_policy_from_dropin_payload(unknown.as_bytes(), encrypted_path),
        Err(TransportIdentityRecoveryError::CustodyPolicyMismatch)
    );

    let preferred = render_transport_identity_dropin(
        "/different/transport.cred".as_bytes(),
        TRANSPORT_IDENTITY_PREFERRED_CUSTODY_TIER,
    )
    .expect("other canonical path");
    assert_eq!(
        established_policy_from_dropin_payload(&preferred, encrypted_path),
        Err(TransportIdentityRecoveryError::CustodyPolicyMismatch)
    );
}

#[test]
fn transport_dropin_binds_exact_credential_and_selected_custody_tier() {
    let encrypted_path = "/home/gersi365/.local/state/private-remote-workspace/credentials/transport-identity-private-key-v1.cred".as_bytes();

    for custody_tier in [
        TRANSPORT_IDENTITY_PREFERRED_CUSTODY_TIER,
        TRANSPORT_IDENTITY_HOST_KEY_ONLY_CUSTODY_TIER,
    ] {
        let rendered = render_transport_identity_dropin(encrypted_path, custody_tier)
            .expect("render fixed binding");
        let expected = format!(
            "# PRW_TRANSPORT_CUSTODY_TIER={custody_tier}\n[Service]\nLoadCredentialEncrypted={SYSTEMD_TRANSPORT_IDENTITY_CREDENTIAL_NAME}:{}\n",
            String::from_utf8_lossy(encrypted_path)
        );
        assert_eq!(rendered, expected.into_bytes());
    }
}

#[test]
fn custody_policy_controls_only_explicit_host_key_override() {
    assert!(!TransportIdentityProvisioningPolicy::Preferred.uses_host_key_only_override());
    assert!(TransportIdentityProvisioningPolicy::HostKeyOnly.uses_host_key_only_override());
}

#[test]
fn transport_dropin_rejects_relative_unsafe_or_unknown_policy() {
    assert_eq!(
        render_transport_identity_dropin(
            "relative/transport.cred".as_bytes(),
            TRANSPORT_IDENTITY_PREFERRED_CUSTODY_TIER,
        ),
        Err(TransportIdentityProvisioningError::InvalidCredentialBinding)
    );
    assert_eq!(
        render_transport_identity_dropin(
            "/tmp/unsafe path.cred".as_bytes(),
            TRANSPORT_IDENTITY_PREFERRED_CUSTODY_TIER,
        ),
        Err(TransportIdentityProvisioningError::InvalidCredentialBinding)
    );
    assert_eq!(
        render_transport_identity_dropin(
            "/tmp/unsafe%path.cred".as_bytes(),
            TRANSPORT_IDENTITY_PREFERRED_CUSTODY_TIER,
        ),
        Err(TransportIdentityProvisioningError::InvalidCredentialBinding)
    );
    assert_eq!(
        render_transport_identity_dropin("/tmp/safe.cred".as_bytes(), "UNKNOWN"),
        Err(TransportIdentityProvisioningError::InvalidCredentialBinding)
    );
}

fn provisioning_host() -> Host {
    let mut host = root_only();
    host.directory(Place::ConfigRoot, 0o700);
    host.put(Place::SystemdCreds, false, false, 0, 0o755, &[1]);
    host.put(Place::SystemdAnalyze, false, false, 0, 0o755, &[1]);
    host.put(Place::HostSecret, false, false, 0, 0o400, &[1]);
    host
}

fn ciphertext_path() -> Vec<u8> {
    environment().host_roots().place_path(Place::Ciphertext)
}

#[test]
fn provisioning_stores_both_artifacts_once_and_recovery_reads_them() {
    let environment = environment();
    let mut host = provisioning_host();
    let provisioned = host
        .run(|replies| provision_first_ubuntu_transport_identity_preferred(&environment, replies))
        .expect("provision");
    assert_eq!(host.asked, vec!["encrypt host_key_only=false"]);
    assert_eq!(provisioned.encrypted_credential_path(), ciphertext_path());
    assert_eq!(
        host.content(Place::Dropin),
        render_transport_identity_dropin(
            &ciphertext_path(),
            TRANSPORT_IDENTITY_PREFERRED_CUSTODY_TIER
        )
        .expect("render")
    );
    assert_eq!(host.get(Place::Ciphertext).expect("ciphertext").mode, 0o600);
    assert!(host.get(Place::CiphertextTemporary).is_none());
    assert!(host.get(Place::DropinTemporary).is_none());

    let preferred = TransportIdentityProvisioningPolicy::Preferred;
    let fallback = TransportIdentityProvisioningPolicy::HostKeyOnly;
    assert_eq!(
        host.run(|replies| inspect_ubuntu_transport_identity_persistent_state(
            preferred,
            &environment,
            replies
        )),
        Ok(TransportIdentityPersistentState::Established)
    );
    assert_eq!(
        host.run(|replies| inspect_ubuntu_transport_identity_persistent_state(
            fallback,
            &environment,
            replies
        )),
        Err(TransportIdentityRecoveryError::CustodyPolicyMismatch)
    );
    assert_eq!(
        &host
            .run(|replies| recover_existing_ubuntu_transport_identity(
                preferred,
                &environment,
                replies
            ))
            .expect("recover"),
        provisioned.transport_identity()
    );
    let recovered = host
        .run(|replies| {
            recover_established_ubuntu_transport_identity_from_persisted_binding(
                &environment,
                replies,
            )
        })
        .expect("recover established");
    assert_eq!(recovered.policy(), preferred);
    assert_eq!(&recovered.transport_identity(), provisioned.transport_identity());

    assert!(matches!(
        host.run(|replies| provision_first_ubuntu_transport_identity_preferred(
            &environment,
            replies
        )),
        Err(TransportIdentityProvisioningError::AlreadyProvisioned)
    ));
    assert_eq!(host.asked.len(), 1);
}

#[test]
fn fallback_is_provisioned_only_without_a_usable_tpm2() {
    let environment = environment();
    let mut host = provisioning_host();
    assert!(matches!(
        host.run(|replies| provision_first_ubuntu_transport_identity_host_key_only(
            &environment,
            replies
        )),
        Err(TransportIdentityProvisioningError::HostKeyOnlyFallbackForbidden)
    ));
    host.tpm2 = Some(1);
    assert!(matches!(
        host.run(|replies| provision_first_ubuntu_transport_identity_preferred(
            &environment,
            replies
        )),
        Err(TransportIdentityProvisioningError::Tpm2Unavailable)
    ));
    assert!(host.get(Place::Ciphertext).is_none());
    assert!(host.asked.is_empty());
    let record = record_from_entropy([1; 16], [2; 16], [3; 16]).expect("record");
    let plan = compose_owner_first_setup_custody_policy_plan(&record, FALLBACK);
    host.run(|replies| {
        execute_owner_first_setup_transport_identity_provisioning(&plan, &environment, replies)
    })
    .expect("provision the fallback");
    assert_eq!(host.asked, vec!["encrypt host_key_only=true"]);
    let recovered = host
        .run(|replies| {
            recover_established_ubuntu_transport_identity_from_persisted_binding(
                &environment,
                replies,
            )
        })
        .expect("recover established");
    assert_eq!(
        recovered.policy(),
        TransportIdentityProvisioningPolicy::HostKeyOnly
    );
}

#[test]
fn each_failing_step_of_provisioning_leaves_no_artifact() {
    let cases: [(
        fn(&OutsideRequest<Vec<u8>>) -> bool,
        TransportIdentityProvisioningError,
    ); 8] = [
        (
            |request| matches!(request, OutsideRequest::QueryTpm2),
            TransportIdentityProvisioningError::SystemdAnalyzeUnavailable,
        ),
        (
            |request| matches!(request, OutsideRequest::Metadata(Place::SystemdCreds)),
            TransportIdentityProvisioningError::SystemdCredsUnavailable,
        ),
        (
            |request| matches!(request, OutsideRequest::Metadata(Place::HostSecret)),
            TransportIdentityProvisioningError::HostSecretUnavailable,
        ),
        (
            |request| matches!(request, OutsideRequest::GenerateTransportKey),
            TransportIdentityProvisioningError::KeyGenerationFailed,
        ),
        (
            |request| matches!(request, OutsideRequest::EncryptTransportKey(_, _)),
            TransportIdentityProvisioningError::CredentialEncryptionFailed,
        ),
        (
            |request| matches!(request, OutsideRequest::SyncOpened(_)),
            TransportIdentityProvisioningError::CiphertextWriteFailed,
        ),
        (
            |request| {
                matches!(
                    request,
                    OutsideRequest::RenameNoReplace(_, Place::Ciphertext)
                )
            },
            TransportIdentityProvisioningError::CiphertextCommitFailed,
        ),
        (
            |request| matches!(request, OutsideRequest::RenameNoReplace(_, Place::Dropin)),
            TransportIdentityProvisioningError::DropinCommitFailed,
        ),
    ];
    let environment = environment();
    for (fails, error) in cases {
        let mut host = provisioning_host();
        host.fails = fails;
        let result = host
            .run(|replies| provision_first_ubuntu_transport_identity_preferred(&environment, replies));
        assert_eq!(result.err(), Some(error));
        for place in [
            Place::Ciphertext,
            Place::CiphertextTemporary,
            Place::Dropin,
            Place::DropinTemporary,
        ] {
            assert!(host.get(place).is_none());
        }
    }
}

#[test]
fn partial_or_foreign_custody_is_not_recovered() {
    let environment = environment();
    let mut host = provisioning_host();
    let preferred = TransportIdentityProvisioningPolicy::Preferred;
    let inspect = |host: &mut Host| {
        host.run(|replies| {
            inspect_ubuntu_transport_identity_persistent_state(preferred, &environment, replies)
        })
    };
    assert_eq!(
        inspect(&mut host),
        Ok(TransportIdentityPersistentState::Absent)
    );
    host.directory(Place::ApplicationDirectory, 0o700);
    host.directory(Place::CredentialDirectory, 0o700);
    host.file(Place::Ciphertext, 0o600, &[1]);
    assert_eq!(
        inspect(&mut host),
        Err(TransportIdentityRecoveryError::PartialState)
    );
    host.directory(Place::SystemdDirectory, 0o700);
    host.directory(Place::SystemdUserDirectory, 0o700);
    host.directory(Place::DropinDirectory, 0o700);
    host.file(Place::Dropin, 0o600, "something else".as_bytes());
    assert_eq!(
        inspect(&mut host),
        Err(TransportIdentityRecoveryError::CustodyPolicyMismatch)
    );
    let binding = render_transport_identity_dropin(
        &ciphertext_path(),
        TRANSPORT_IDENTITY_PREFERRED_CUSTODY_TIER,
    )
    .expect("render");
    host.file(Place::Dropin, 0o600, &binding);
    let recover = |host: &mut Host| {
        host.run(|replies| {
            recover_existing_ubuntu_transport_identity(preferred, &environment, replies)
        })
    };
    assert!(matches!(
        recover(&mut host),
        Err(TransportIdentityRecoveryError::InvalidPrivateCredential)
    ));
    host.file(Place::Ciphertext, 0o600, &vec![7; 60_000]);
    assert!(matches!(
        recover(&mut host),
        Err(TransportIdentityRecoveryError::DecryptedCredentialOutOfBounds)
    ));
    assert_eq!(host.asked, vec!["abort"]);
}

#[test]
fn helpers_are_called_with_exactly_their_arguments() {
    let text = |arguments: Vec<Vec<u8>>| -> Vec<String> {
        arguments
            .into_iter()
            .map(|argument| String::from_utf8(argument).expect("text"))
            .collect()
    };
    let name = format!("--name={SYSTEMD_TRANSPORT_IDENTITY_CREDENTIAL_NAME}");
    assert_eq!(
        text(encryption_arguments(false, b"/state/target")),
        ["--user", "encrypt", &name, "-", "/state/target"]
    );
    assert_eq!(
        text(encryption_arguments(true, b"/state/target")),
        ["--user", "-H", "encrypt", &name, "-", "/state/target"]
    );
    assert_eq!(
        text(decryption_arguments()),
        ["--user", &name, "decrypt", "-", "-"]
    );
    assert_eq!(text(tpm2_query_arguments()), ["has-tpm2"]);
}

#[test]
fn identifier_is_its_prefix_and_lower_case_digits() {
    let mut entropy = [0xab; 16];
    entropy[0] = 0x0f;
    let identifier = encode_identifier("w-", entropy);
    assert_eq!(identifier, "w-0fababababababababababababababab");
    assert_eq!(decode_identifier(identifier.as_bytes(), "w-"), Ok(identifier.clone()));
    for (text, prefix) in [
        (identifier.clone(), "u-"),
        (identifier.to_uppercase(), "W-"),
        (identifier.replace('f', "g"), "w-"),
        (format!("{identifier}0"), "w-"),
        (identifier[..33].to_owned(), "w-"),
        (String::new(), "w-"),
    ] {
        assert_eq!(
            decode_identifier(text.as_bytes(), prefix),
            Err(OwnerFirstSetupBootstrapInputError::MalformedLogicalIdentityRecord)
        );
    }
    let mut broken = identifier.into_bytes();
    broken[9] = 0xff;
    assert_eq!(
        decode_identifier(&broken, "w-"),
        Err(OwnerFirstSetupBootstrapInputError::MalformedLogicalIdentityRecord)
    );
}

#[test]
fn lone_artifact_refuses_provisioning_and_stays() {
    let environment = environment();
    for place in [Place::Ciphertext, Place::Dropin] {
        let mut host = provisioning_host();
        for directory in [
            Place::ApplicationDirectory,
            Place::CredentialDirectory,
            Place::SystemdDirectory,
            Place::SystemdUserDirectory,
            Place::DropinDirectory,
        ] {
            host.directory(directory, 0o700);
        }
        host.file(place, 0o600, b"kept");
        assert!(matches!(
            host.run(|replies| provision_first_ubuntu_transport_identity_preferred(
                &environment,
                replies
            )),
            Err(TransportIdentityProvisioningError::AlreadyProvisioned)
        ));
        assert_eq!(host.content(place), b"kept");
        assert_eq!(
            host.run(|replies| inspect_ubuntu_transport_identity_persistent_state(
                TransportIdentityProvisioningPolicy::Preferred,
                &environment,
                replies
            )),
            Err(TransportIdentityRecoveryError::PartialState)
        );
    }
}
