//! Starting up: the first run and the restarts after it, on a host and a database in memory.
use ownspace::domain::{
    DeviceIdentityAlgorithm, DeviceIdentityPublicKeyEncoding, PublicIdentityMaterial,
};
use ownspace::durable_registry_authority::DurableRegistryAuthorityError;
use ownspace::durable_registry_sqlite_custody::{
    existing_owner_pc_sqlite_path_from_env, open_existing_owner_pc_sqlite_authority_from_env,
    open_owner_pc_sqlite_authority_from_env,
    DurableRegistrySqliteCustodyError,
};
use ownspace::durable_registry_sqlite_store::{
    OwnerPcLocalAuthorityBootstrapOutcome, RegistryReply, RegistryRequest,
};
use ownspace::environment::HostEnvironment;
use ownspace::outside::{FileMetadata, OutsideReply, OutsideRequest, Place};
use ownspace::owner_established_startup_authority::{
    verify_established_owner_startup_authority, OwnerEstablishedStartupAuthorityError,
};
use ownspace::owner_first_run_orchestration::{
    execute_dormant_owner_first_run_orchestration,
    execute_dormant_owner_first_run_orchestration_and_retire_setup_intent_after_success,
    execute_dormant_owner_first_run_orchestration_from_setup_intent,
    OwnerFirstRunOrchestrationAndRetirementOutcome, OwnerFirstRunOrchestrationError,
};
use ownspace::owner_first_run_setup_intent::{
    inspect_owner_first_run_setup_intent_presence_from_env, OwnerFirstRunSetupIntentError,
    OwnerFirstRunSetupIntentPresence, OwnerFirstRunSetupIntentRetirementOutcome,
};
use ownspace::owner_first_setup_bootstrap_inputs::{
    draw_owner_entropy, ensure_owner_logical_identity_record_from_env,
    load_owner_logical_identity_record_from_env, record_from_entropy, OwnerFirstSetupBootstrapInputError,
};
use ownspace::owner_first_setup_custody_policy_orchestration::{
    compose_owner_first_setup_custody_policy_plan,
    OwnerFirstSetupTransportCustodySelection as Selection,
};
use ownspace::owner_first_setup_execution_composition::execute_owner_first_setup_transport_provisioning_and_compose_bootstrap_inputs;
use ownspace::owner_first_setup_local_authority_bootstrap_execution::{
    execute_owner_first_setup_retry_and_bootstrap_local_authority,
    OwnerFirstSetupLocalAuthorityBootstrapError,
};
use ownspace::owner_first_setup_retry_call_site_composition::{
    execute_owner_first_setup_retry_and_compose_bootstrap_inputs,
    OwnerFirstSetupRetryCallSiteError,
};
use ownspace::owner_first_setup_transport_identity_recovery::{
    recover_owner_first_setup_transport_identity, OwnerFirstSetupTransportIdentityRecoveryError,
};
use ownspace::owner_startup_state_dispatch::{
    dispatch_owner_startup_authority, OwnerStartupStateDispatchError,
    OwnerStartupStateDispatchOutcome,
};
use ownspace::plan::Progress;
use ownspace::prw_first_run::run_from_env_args;
use ownspace::startup_plan::StartupRequest;
use ownspace::transport_identity_provisioning::{
    generate_transport_private_key, TransportIdentityProvisioningError,
    TransportIdentityProvisioningPolicy, TransportIdentityRecoveryError,
};
use rusqlite::{Connection, OptionalExtension};

type Request = RegistryRequest<String, Vec<u8>>;

type Reply = RegistryReply<String, Vec<u8>>;

const UID: u32 = 1000;

const SCHEMA: &str = "
CREATE TABLE prw_registry_memberships (
    workspace_id TEXT NOT NULL,
    user_id TEXT NOT NULL,
    record BLOB NOT NULL,
    PRIMARY KEY (workspace_id, user_id)
);
CREATE TABLE prw_registry_devices (
    device_id TEXT PRIMARY KEY NOT NULL,
    record BLOB NOT NULL
);
PRAGMA user_version = 1;
";

struct Node {
    link: bool,
    directory: bool,
    uid: u32,
    mode: u32,
    content: Vec<u8>,
    inode: u64,
}

/// A host whose files live in memory, one for each place.
struct Host {
    nodes: Vec<(Place, Node)>,
    next_inode: u64,
    tpm2: Option<i32>,
    key: Option<Vec<u8>>,
    fails: fn(&OutsideRequest<Vec<u8>>) -> bool,
    asked: Vec<String>,
}

fn never(_request: &OutsideRequest<Vec<u8>>) -> bool {
    false
}

impl Host {
    fn new() -> Host {
        Host {
            nodes: Vec::new(),
            next_inode: 1,
            tpm2: Some(0),
            key: None,
            fails: never,
            asked: Vec::new(),
        }
    }

    fn put(&mut self, place: Place, link: bool, directory: bool, uid: u32, mode: u32, content: &[u8]) {
        self.remove(place);
        let inode = self.next_inode;
        self.next_inode += 1;
        self.nodes.push((
            place,
            Node { link, directory, uid, mode, content: content.to_vec(), inode },
        ));
    }

    fn directory(&mut self, place: Place, mode: u32) {
        self.put(place, false, true, UID, mode, &[]);
    }

    fn file(&mut self, place: Place, mode: u32, content: &[u8]) {
        self.put(place, false, false, UID, mode, content);
    }

    fn link(&mut self, place: Place) {
        self.put(place, true, false, UID, 0o777, &[]);
    }

    fn remove(&mut self, place: Place) -> bool {
        let before = self.nodes.len();
        self.nodes.retain(|(other, _)| *other != place);
        self.nodes.len() != before
    }

    fn get(&self, place: Place) -> Option<&Node> {
        self.nodes.iter().find(|(other, _)| *other == place).map(|(_, node)| node)
    }

    fn get_mut(&mut self, place: Place) -> Option<&mut Node> {
        self.nodes.iter_mut().find(|(other, _)| *other == place).map(|(_, node)| node)
    }

    fn content(&self, place: Place) -> &[u8] {
        &self.get(place).expect("something is at the place").content
    }

    fn report(&self, place: Place) -> OutsideReply<Vec<u8>> {
        match self.get(place) {
            Some(node) => OutsideReply::Metadata(FileMetadata {
                is_symlink: node.link,
                is_dir: node.directory,
                is_file: !node.link && !node.directory,
                uid: node.uid,
                mode: node.mode,
                len: node.content.len() as u64,
                device: 1,
                inode: node.inode,
            }),
            None => OutsideReply::NotFound,
        }
    }

    fn done(done: bool) -> OutsideReply<Vec<u8>> {
        if done {
            OutsideReply::Completed
        } else {
            OutsideReply::Failed
        }
    }

    fn perform(&mut self, request: &OutsideRequest<Vec<u8>>) -> OutsideReply<Vec<u8>> {
        if (self.fails)(request) {
            return OutsideReply::Failed;
        }
        match request {
            OutsideRequest::Metadata(place) | OutsideRequest::OpenedMetadata(place) => {
                self.report(*place)
            }
            OutsideRequest::Exists(place) => OutsideReply::Flag(self.get(*place).is_some()),
            OutsideRequest::CreateDirectory(place) => {
                if self.get(*place).is_some() {
                    return OutsideReply::Failed;
                }
                self.directory(*place, 0o755);
                OutsideReply::Completed
            }
            OutsideRequest::SetMode(place, mode) | OutsideRequest::SetOpenedMode(place, mode) => {
                match self.get_mut(*place) {
                    Some(node) => {
                        node.mode = *mode;
                        OutsideReply::Completed
                    }
                    None => OutsideReply::Failed,
                }
            }
            OutsideRequest::Open(place) => {
                Host::done(self.get(*place).is_some_and(|node| !node.link))
            }
            OutsideRequest::CreateNew(place, mode) => {
                if self.get(*place).is_some() {
                    return OutsideReply::Failed;
                }
                self.file(*place, *mode, &[]);
                OutsideReply::Completed
            }
            OutsideRequest::WriteAndSync(place, bytes) => match self.get_mut(*place) {
                Some(node) => {
                    node.content = bytes.clone();
                    OutsideReply::Completed
                }
                None => OutsideReply::Failed,
            },
            OutsideRequest::SyncOpened(_) | OutsideRequest::SyncDirectory(_) => {
                OutsideReply::Completed
            }
            OutsideRequest::Read(place, limit) => match self.get(*place) {
                Some(node) => {
                    let wanted = node.content.len().min(*limit as usize);
                    OutsideReply::Bytes(node.content[..wanted].to_vec())
                }
                None => OutsideReply::Failed,
            },
            OutsideRequest::RenameNoReplace(from, to) => {
                if self.get(*to).is_some() || self.get(*from).is_none() {
                    return OutsideReply::Failed;
                }
                for (place, _) in self.nodes.iter_mut() {
                    if *place == *from {
                        *place = *to;
                    }
                }
                OutsideReply::Completed
            }
            OutsideRequest::Remove(place) => Host::done(self.remove(*place)),
            OutsideRequest::QueryTpm2 => OutsideReply::Exit(self.tpm2),
            OutsideRequest::GenerateTransportKey => match generate_transport_private_key() {
                Ok((key, identity)) => {
                    self.key = Some(key);
                    OutsideReply::Identity(identity)
                }
                Err(_) => OutsideReply::Failed,
            },
            OutsideRequest::EncryptTransportKey(place, host_key_only) => {
                let Some(mut key) = self.key.take() else {
                    return OutsideReply::Failed;
                };
                self.asked.push(format!("encrypt host_key_only={host_key_only}"));
                key.reverse();
                self.file(*place, 0o600, &key);
                OutsideReply::Completed
            }
            OutsideRequest::StartDecryption(place, limit) => match self.get(*place) {
                Some(node) => {
                    let mut key = node.content.clone();
                    key.reverse();
                    key.truncate(*limit as usize);
                    OutsideReply::Bytes(key)
                }
                None => OutsideReply::Failed,
            },
            OutsideRequest::AbortDecryption => {
                self.asked.push("abort".to_owned());
                OutsideReply::Completed
            }
            OutsideRequest::FinishDecryption => OutsideReply::Exit(Some(0)),
            OutsideRequest::OwnerEntropy => match draw_owner_entropy() {
                Ok((workspace, user, device)) => OutsideReply::Entropy(workspace, user, device),
                Err(_) => OutsideReply::Failed,
            },
        }
    }
}

fn quiet(_request: &Request) -> bool {
    false
}

fn completed<T, E>(result: Result<T, E>) -> Reply {
    match result {
        Ok(_) => RegistryReply::Completed,
        Err(_) => RegistryReply::Failed,
    }
}

fn integer(result: Result<i64, rusqlite::Error>) -> Reply {
    match result {
        Ok(value) => RegistryReply::Integer(value),
        Err(_) => RegistryReply::Failed,
    }
}

fn row(result: Result<Option<Vec<u8>>, rusqlite::Error>) -> Reply {
    match result {
        Ok(found) => RegistryReply::Row(found),
        Err(_) => RegistryReply::Failed,
    }
}

fn changed(result: Result<usize, rusqlite::Error>) -> Reply {
    match result {
        Ok(rows) => RegistryReply::Changed(rows as u64),
        Err(_) => RegistryReply::Failed,
    }
}

/// A host and a database.
struct Installation {
    host: Host,
    connection: Connection,
    registry_fails: fn(&Request) -> bool,
}

impl Installation {
    fn new() -> Installation {
        let mut host = Host::new();
        host.directory(Place::StateRoot, 0o700);
        host.directory(Place::ConfigRoot, 0o700);
        host.put(Place::SystemdCreds, false, false, 0, 0o755, &[1]);
        host.put(Place::SystemdAnalyze, false, false, 0, 0o755, &[1]);
        host.put(Place::HostSecret, false, false, 0, 0o400, &[1]);
        Installation {
            host,
            connection: Connection::open_in_memory().expect("database in memory"),
            registry_fails: quiet,
        }
    }

    fn ask_registry(&mut self, request: &Request) -> Reply {
        if (self.registry_fails)(request) {
            return RegistryReply::Failed;
        }
        let connection = &self.connection;
        match request {
            RegistryRequest::OpenReadWrite => {
                if self.host.get(Place::Database).is_none() {
                    self.host.file(Place::Database, 0o644, &[]);
                }
                RegistryReply::Completed
            }
            RegistryRequest::OpenReadOnly => {
                if self.host.get(Place::Database).is_some() {
                    RegistryReply::Completed
                } else {
                    RegistryReply::Failed
                }
            }
            RegistryRequest::EnableForeignKeys => {
                completed(connection.execute_batch("PRAGMA foreign_keys = ON;"))
            }
            RegistryRequest::SetWriteAheadJournal | RegistryRequest::QueryJournalMode => {
                RegistryReply::Text("wal".to_owned())
            }
            RegistryRequest::QueryForeignKeys => {
                integer(connection.query_row("PRAGMA foreign_keys;", (), |row| row.get(0)))
            }
            RegistryRequest::QueryUserVersion => {
                integer(connection.query_row("PRAGMA user_version;", (), |row| row.get(0)))
            }
            RegistryRequest::CreateSchema => completed(connection.execute_batch(SCHEMA)),
            RegistryRequest::ProbeMemberships => completed(connection.prepare(
                "SELECT workspace_id, user_id, record FROM prw_registry_memberships LIMIT 0;",
            )),
            RegistryRequest::ProbeDevices => completed(
                connection.prepare("SELECT device_id, record FROM prw_registry_devices LIMIT 0;"),
            ),
            RegistryRequest::BeginImmediate => {
                completed(connection.execute_batch("BEGIN IMMEDIATE;"))
            }
            RegistryRequest::BeginDeferred => completed(connection.execute_batch("BEGIN DEFERRED;")),
            RegistryRequest::SelectMembership(workspace, user) => row(connection
                .query_row(
                    "SELECT record FROM prw_registry_memberships WHERE workspace_id = ?1 AND user_id = ?2;",
                    (workspace, user),
                    |row| row.get(0),
                )
                .optional()),
            RegistryRequest::SelectDevice(device) => row(connection
                .query_row(
                    "SELECT record FROM prw_registry_devices WHERE device_id = ?1;",
                    (device,),
                    |row| row.get(0),
                )
                .optional()),
            RegistryRequest::InsertMembership(workspace, user, record) => {
                changed(connection.execute(
                    "INSERT INTO prw_registry_memberships (workspace_id, user_id, record) VALUES (?1, ?2, ?3);",
                    (workspace, user, record),
                ))
            }
            RegistryRequest::InsertDevice(device, record) => changed(connection.execute(
                "INSERT INTO prw_registry_devices (device_id, record) VALUES (?1, ?2);",
                (device, record),
            )),
            RegistryRequest::UpdateMembership(workspace, user, record) => {
                changed(connection.execute(
                    "UPDATE prw_registry_memberships SET record = ?3 WHERE workspace_id = ?1 AND user_id = ?2;",
                    (workspace, user, record),
                ))
            }
            RegistryRequest::UpdateDevice(device, record) => changed(connection.execute(
                "UPDATE prw_registry_devices SET record = ?2 WHERE device_id = ?1;",
                (device, record),
            )),
            RegistryRequest::Commit => completed(connection.execute_batch("COMMIT;")),
        }
    }

    /// Runs an operation to its end; what it did not commit is rolled back.
    fn run<R>(
        &mut self,
        step: impl Fn(
            &Vec<OutsideReply<Vec<u8>>>,
            &Vec<Reply>,
        ) -> Progress<StartupRequest<String, Vec<u8>>, R>,
    ) -> R {
        let mut host = Vec::new();
        let mut registry = Vec::new();
        loop {
            match step(&host, &registry) {
                Progress::Done(result) => {
                    if !self.connection.is_autocommit() {
                        self.connection.execute_batch("ROLLBACK;").expect("roll back");
                    }
                    return result;
                }
                Progress::Waiting(StartupRequest::Host(request)) => {
                    let reply = self.host.perform(&request);
                    host.push(reply);
                }
                Progress::Waiting(StartupRequest::Registry(request)) => {
                    let reply = self.ask_registry(&request);
                    registry.push(reply);
                }
            }
            assert!(host.len() + registry.len() < 400, "an operation ends");
        }
    }

    /// Runs an operation that only asks the host.
    fn run_on_host<R>(
        &mut self,
        step: impl Fn(&Vec<OutsideReply<Vec<u8>>>) -> Progress<OutsideRequest<Vec<u8>>, R>,
    ) -> R {
        self.run(|host, _registry| match step(host) {
            Progress::Done(result) => Progress::Done(result),
            Progress::Waiting(request) => Progress::Waiting(StartupRequest::Host(request)),
        })
    }

    fn write_intent(&mut self, token: &str) {
        let args = vec![
            "transport-custody".as_bytes().to_vec(),
            token.as_bytes().to_vec(),
        ];
        let environment = environment();
        let report = self.run_on_host(|replies| run_from_env_args(&args, &environment, replies));
        assert!(report.succeeded, "{:?}", report.lines);
    }

    fn start(
        &mut self,
        identity: &PublicIdentityMaterial,
    ) -> Result<OwnerStartupStateDispatchOutcome, OwnerStartupStateDispatchError> {
        let environment = environment();
        self.run(|host, registry| {
            dispatch_owner_startup_authority(identity, &environment, host, registry)
        })
    }

    fn rows(&self, table: &str) -> i64 {
        self.connection
            .query_row(&format!("SELECT COUNT(*) FROM {table};"), (), |row| row.get(0))
            .expect("count")
    }
}

fn environment() -> HostEnvironment {
    HostEnvironment {
        xdg_state_home: None,
        xdg_config_home: Some("/home/owner/.config".as_bytes().to_vec()),
        home: Some("/home/owner".as_bytes().to_vec()),
        credentials_directory: Some("/run/credentials/prw".as_bytes().to_vec()),
        uid: UID,
        euid: UID,
        process_id: 4321,
    }
}

fn public_identity(byte: u8) -> PublicIdentityMaterial {
    PublicIdentityMaterial::new(
        DeviceIdentityAlgorithm::EcdsaP256Sha256,
        DeviceIdentityPublicKeyEncoding::SubjectPublicKeyInfoDer,
        vec![byte; 65],
    )
    .expect("public identity")
}

fn policy_of(
    outcome: Result<OwnerStartupStateDispatchOutcome, OwnerStartupStateDispatchError>,
) -> TransportIdentityProvisioningPolicy {
    match outcome {
        Ok(OwnerStartupStateDispatchOutcome::EstablishedRestartVerified(proof)) => {
            proof.transport_policy()
        }
        other => panic!("restart not verified: {other:?}"),
    }
}

#[test]
fn first_run_is_completed_once_and_recognised_afterwards() {
    for (token, selection, tpm2) in [
        ("preferred-default", Selection::PreferredDefault, Some(0)),
        (
            "explicit-host-key-only-fallback",
            Selection::ExplicitHostKeyOnlyFallback,
            Some(1),
        ),
    ] {
        let mut installation = Installation::new();
        installation.host.tpm2 = tpm2;
        installation.write_intent(token);
        let identity = public_identity(1);
        assert_eq!(
            installation.start(&identity),
            Ok(OwnerStartupStateDispatchOutcome::FirstRunCompleted(
                OwnerFirstRunOrchestrationAndRetirementOutcome {
                    local_authority_outcome: OwnerPcLocalAuthorityBootstrapOutcome::Initialized,
                    setup_intent_retirement_outcome:
                        OwnerFirstRunSetupIntentRetirementOutcome::Retired(selection),
                }
            ))
        );
        assert!(installation.host.get(Place::IntentRecord).is_none());
        assert_eq!(
            installation.host.get(Place::Database).expect("database").mode,
            0o600
        );
        assert_eq!(installation.rows("prw_registry_memberships"), 1);
        assert_eq!(installation.rows("prw_registry_devices"), 1);
        assert_eq!(
            policy_of(installation.start(&identity)),
            selection.provisioning_policy()
        );
        assert_eq!(
            policy_of(installation.start(&identity)),
            selection.provisioning_policy()
        );
        assert_eq!(installation.host.asked.len(), 1);
        assert_eq!(installation.rows("prw_registry_devices"), 1);
        assert_eq!(
            installation.start(&public_identity(2)),
            Err(OwnerStartupStateDispatchError::EstablishedRestart(
                OwnerEstablishedStartupAuthorityError::OwnerDeviceNotCurrent
            ))
        );
    }
}

#[test]
fn startup_without_an_intent_or_an_installation_is_refused() {
    let mut installation = Installation::new();
    assert_eq!(
        installation.start(&public_identity(1)),
        Err(OwnerStartupStateDispatchError::SetupIntentClassification(
            OwnerFirstRunSetupIntentError::InsecureApplicationDirectory
        ))
    );
    installation.write_intent("preferred-default");
    installation.host.remove(Place::IntentRecord);
    assert_eq!(
        installation.start(&public_identity(1)),
        Err(OwnerStartupStateDispatchError::EstablishedRestart(
            OwnerEstablishedStartupAuthorityError::OwnerIdentity(
                OwnerFirstSetupBootstrapInputError::InsecureBootstrapDirectory
            )
        ))
    );
}

#[test]
fn failed_first_run_keeps_the_intent_and_is_completed_later() {
    let cases: [(fn(&OutsideRequest<Vec<u8>>) -> bool, fn(&Request) -> bool); 6] = [
        (|request| matches!(request, OutsideRequest::OwnerEntropy), quiet),
        (
            |request| matches!(request, OutsideRequest::GenerateTransportKey),
            quiet,
        ),
        (
            |request| matches!(request, OutsideRequest::RenameNoReplace(_, Place::Dropin)),
            quiet,
        ),
        (never, |request| matches!(request, RegistryRequest::OpenReadWrite)),
        (never, |request| matches!(request, RegistryRequest::InsertDevice(_, _))),
        (
            |request| matches!(request, OutsideRequest::Remove(Place::IntentRecord)),
            quiet,
        ),
    ];
    for (host_fails, registry_fails) in cases {
        let mut installation = Installation::new();
        installation.write_intent("preferred-default");
        installation.host.fails = host_fails;
        installation.registry_fails = registry_fails;
        let identity = public_identity(1);
        assert!(matches!(
            installation.start(&identity),
            Err(OwnerStartupStateDispatchError::FirstRun(_))
        ));
        assert!(installation.host.get(Place::IntentRecord).is_some());
        installation.host.fails = never;
        installation.registry_fails = quiet;
        assert!(matches!(
            installation.start(&identity),
            Ok(OwnerStartupStateDispatchOutcome::FirstRunCompleted(_))
        ));
        assert_eq!(installation.rows("prw_registry_devices"), 1);
        assert_eq!(
            policy_of(installation.start(&identity)),
            TransportIdentityProvisioningPolicy::Preferred
        );
    }
}

#[test]
fn each_stage_of_the_first_run_has_its_error() {
    let environment = environment();
    let identity = public_identity(1);
    let mut installation = Installation::new();
    assert_eq!(
        installation.run(|host, registry| {
            execute_dormant_owner_first_run_orchestration_and_retire_setup_intent_after_success(
                &identity,
                &environment,
                host,
                registry,
            )
        }),
        Err(OwnerFirstRunOrchestrationError::SetupIntent(
            OwnerFirstRunSetupIntentError::InsecureApplicationDirectory
        ))
    );
    installation.host.fails = |request| matches!(request, OutsideRequest::OwnerEntropy);
    assert!(matches!(
        installation.run(|host, registry| {
            execute_dormant_owner_first_run_orchestration(
                Selection::PreferredDefault,
                &identity,
                &environment,
                host,
                registry,
            )
        }),
        Err(OwnerFirstRunOrchestrationError::OwnerIdentity(_))
    ));
    installation.host.fails = never;
    installation.host.tpm2 = Some(1);
    assert_eq!(
        installation.run(|host, registry| {
            execute_dormant_owner_first_run_orchestration(
                Selection::PreferredDefault,
                &identity,
                &environment,
                host,
                registry,
            )
        }),
        Err(OwnerFirstRunOrchestrationError::LocalAuthority(
            OwnerFirstSetupLocalAuthorityBootstrapError::BootstrapInputs(
                OwnerFirstSetupRetryCallSiteError::Provisioning(
                    TransportIdentityProvisioningError::Tpm2Unavailable
                )
            )
        ))
    );
    installation.host.tpm2 = Some(0);
    installation.registry_fails = |request| matches!(request, RegistryRequest::OpenReadWrite);
    installation.write_intent("preferred-default");
    assert_eq!(
        installation.run(|host, registry| {
            execute_dormant_owner_first_run_orchestration_from_setup_intent(
                &identity,
                &environment,
                host,
                registry,
            )
        }),
        Err(OwnerFirstRunOrchestrationError::LocalAuthority(
            OwnerFirstSetupLocalAuthorityBootstrapError::DatabaseCustody(
                DurableRegistrySqliteCustodyError::AuthorityOpenFailed
            )
        ))
    );
    installation.registry_fails = |request| matches!(request, RegistryRequest::Commit);
    installation
        .connection
        .execute_batch(SCHEMA)
        .expect("schema");
    assert_eq!(
        installation.run(|host, registry| {
            execute_dormant_owner_first_run_orchestration_from_setup_intent(
                &identity,
                &environment,
                host,
                registry,
            )
        }),
        Err(OwnerFirstRunOrchestrationError::LocalAuthority(
            OwnerFirstSetupLocalAuthorityBootstrapError::AuthorityBootstrap(
                DurableRegistryAuthorityError::MutationIndeterminate
            )
        ))
    );
    installation.registry_fails = quiet;
    assert_eq!(
        installation.run(|host, registry| {
            execute_dormant_owner_first_run_orchestration_from_setup_intent(
                &identity,
                &environment,
                host,
                registry,
            )
        }),
        Ok(OwnerPcLocalAuthorityBootstrapOutcome::Initialized)
    );
    assert!(installation.host.get(Place::IntentRecord).is_some());
}

#[test]
fn retry_branches_on_the_custody_of_exactly_the_owner() {
    let environment = environment();
    let identity = public_identity(1);
    let mut installation = Installation::new();
    let record = record_from_entropy([1; 16], [2; 16], [3; 16]).expect("record");
    let other = record_from_entropy([4; 16], [5; 16], [6; 16]).expect("record");
    installation.host.directory(Place::ApplicationDirectory, 0o700);
    installation.host.directory(Place::BootstrapDirectory, 0o700);
    installation.host.file(Place::IdentityRecord, 0o600, &record.encode());
    let plan = compose_owner_first_setup_custody_policy_plan(&record, Selection::PreferredDefault);
    let foreign = compose_owner_first_setup_custody_policy_plan(&other, Selection::PreferredDefault);
    let fallback = compose_owner_first_setup_custody_policy_plan(
        &record,
        Selection::ExplicitHostKeyOnlyFallback,
    );

    assert!(matches!(
        installation.run_on_host(|replies| recover_owner_first_setup_transport_identity(
            &plan,
            &environment,
            replies
        )),
        Err(OwnerFirstSetupTransportIdentityRecoveryError::TransportIdentity(_))
    ));
    let created = installation
        .run_on_host(|replies| {
            execute_owner_first_setup_retry_and_compose_bootstrap_inputs(
                &plan,
                &identity,
                &environment,
                replies,
            )
        })
        .expect("absent custody is created");
    assert_eq!(&created.binding().device_id, record.device_id());
    assert_eq!(&created.binding().public_identity, &identity);
    let recovered = installation
        .run_on_host(|replies| {
            execute_owner_first_setup_retry_and_compose_bootstrap_inputs(
                &plan,
                &identity,
                &environment,
                replies,
            )
        })
        .expect("established custody is recovered");
    assert_eq!(recovered.transport_identity(), created.transport_identity());
    assert_eq!(installation.host.asked.len(), 1);
    assert_eq!(
        installation.run_on_host(|replies| recover_owner_first_setup_transport_identity(
            &plan,
            &environment,
            replies
        )),
        Ok(created.transport_identity())
    );
    assert!(matches!(
        installation.run_on_host(|replies| {
            execute_owner_first_setup_transport_provisioning_and_compose_bootstrap_inputs(
                &plan,
                &identity,
                &environment,
                replies,
            )
        }),
        Err(TransportIdentityProvisioningError::AlreadyProvisioned)
    ));
    assert!(matches!(
        installation.run_on_host(|replies| {
            execute_owner_first_setup_retry_and_compose_bootstrap_inputs(
                &fallback,
                &identity,
                &environment,
                replies,
            )
        }),
        Err(OwnerFirstSetupRetryCallSiteError::StateInspection(
            TransportIdentityRecoveryError::CustodyPolicyMismatch
        ))
    ));
    assert!(matches!(
        installation.run_on_host(|replies| {
            execute_owner_first_setup_retry_and_compose_bootstrap_inputs(
                &foreign,
                &identity,
                &environment,
                replies,
            )
        }),
        Err(OwnerFirstSetupRetryCallSiteError::OwnerIdentityMismatch)
    ));
    assert_eq!(
        installation.run_on_host(|replies| recover_owner_first_setup_transport_identity(
            &foreign,
            &environment,
            replies
        )),
        Err(OwnerFirstSetupTransportIdentityRecoveryError::OwnerIdentityMismatch)
    );
    assert_eq!(
        installation.run(|host, registry| {
            execute_owner_first_setup_retry_and_bootstrap_local_authority(
                &plan,
                &identity,
                &environment,
                host,
                registry,
            )
        }),
        Ok(OwnerPcLocalAuthorityBootstrapOutcome::Initialized)
    );
    assert_eq!(
        installation.run(|host, registry| {
            execute_owner_first_setup_retry_and_bootstrap_local_authority(
                &plan,
                &identity,
                &environment,
                host,
                registry,
            )
        }),
        Ok(OwnerPcLocalAuthorityBootstrapOutcome::AlreadyCurrent)
    );
    assert_eq!(
        installation.run(|host, registry| {
            execute_owner_first_setup_retry_and_bootstrap_local_authority(
                &plan,
                &public_identity(2),
                &environment,
                host,
                registry,
            )
        }),
        Err(OwnerFirstSetupLocalAuthorityBootstrapError::AuthorityBootstrap(
            DurableRegistryAuthorityError::CurrentnessConflict
        ))
    );
}

#[test]
fn authority_is_opened_at_its_place_and_hardened() {
    let environment = environment();
    let mut installation = Installation::new();
    assert_eq!(
        installation.run(|host, registry| {
            open_existing_owner_pc_sqlite_authority_from_env(&environment, host, registry)
        }),
        Err(DurableRegistrySqliteCustodyError::InsecureApplicationDirectory)
    );
    assert_eq!(
        installation.run(|host, registry| {
            open_owner_pc_sqlite_authority_from_env(&environment, host, registry)
        }),
        Ok(())
    );
    assert_eq!(
        installation.host.get(Place::Database).expect("database").mode,
        0o600
    );
    assert_eq!(
        installation.run(|host, registry| {
            open_existing_owner_pc_sqlite_authority_from_env(&environment, host, registry)
        }),
        Ok(())
    );
    installation.registry_fails = |request| matches!(request, RegistryRequest::QueryUserVersion);
    assert_eq!(
        installation.run(|host, registry| {
            open_existing_owner_pc_sqlite_authority_from_env(&environment, host, registry)
        }),
        Err(DurableRegistrySqliteCustodyError::AuthorityOpenFailed)
    );
    installation.registry_fails = quiet;
    installation.host.fails =
        |request| matches!(request, OutsideRequest::SetMode(Place::Database, _));
    assert_eq!(
        installation.run(|host, registry| {
            open_owner_pc_sqlite_authority_from_env(&environment, host, registry)
        }),
        Err(DurableRegistrySqliteCustodyError::InsecureDatabaseFile)
    );
    let nowhere = HostEnvironment { xdg_state_home: None, home: None, ..environment };
    assert_eq!(
        installation.run(|host, registry| {
            open_owner_pc_sqlite_authority_from_env(&nowhere, host, registry)
        }),
        Err(DurableRegistrySqliteCustodyError::InvalidStateRoot)
    );
}

#[test]
fn single_steps_run_from_the_environment() {
    let environment = environment();
    let mut installation = Installation::new();
    installation.write_intent("preferred-default");
    assert_eq!(
        installation.run_on_host(|replies| {
            inspect_owner_first_run_setup_intent_presence_from_env(&environment, replies)
        }),
        Ok(OwnerFirstRunSetupIntentPresence::Present)
    );
    let created = installation
        .run_on_host(|replies| ensure_owner_logical_identity_record_from_env(&environment, replies))
        .expect("created");
    assert!(created.was_created());
    let loaded = installation
        .run_on_host(|replies| load_owner_logical_identity_record_from_env(&environment, replies))
        .expect("loaded");
    assert_eq!(&loaded, created.record());
    assert_eq!(
        installation
            .run_on_host(|replies| existing_owner_pc_sqlite_path_from_env(&environment, replies)),
        Err(DurableRegistrySqliteCustodyError::InsecureDatabaseDirectory)
    );
}

#[test]
fn restart_proof_stops_at_the_first_failure() {
    let environment = environment();
    let identity = public_identity(1);
    let mut installation = Installation::new();
    installation.write_intent("preferred-default");
    installation.start(&identity).expect("first run");
    let cases: [(
        fn(&OutsideRequest<Vec<u8>>) -> bool,
        fn(&Request) -> bool,
        fn(&OwnerEstablishedStartupAuthorityError) -> bool,
    ); 4] = [
        (
            |request| matches!(request, OutsideRequest::Read(Place::IdentityRecord, _)),
            quiet,
            |error| matches!(error, OwnerEstablishedStartupAuthorityError::OwnerIdentity(_)),
        ),
        (
            |request| matches!(request, OutsideRequest::StartDecryption(_, _)),
            quiet,
            |error| {
                matches!(
                    error,
                    OwnerEstablishedStartupAuthorityError::TransportIdentity(
                        TransportIdentityRecoveryError::CredentialDecryptionFailed
                    )
                )
            },
        ),
        (
            never,
            |request| matches!(request, RegistryRequest::OpenReadOnly),
            |error| matches!(error, OwnerEstablishedStartupAuthorityError::DatabaseCustody(_)),
        ),
        (
            never,
            |request| matches!(request, RegistryRequest::SelectDevice(_)),
            |error| matches!(error, OwnerEstablishedStartupAuthorityError::AuthorityRead(_)),
        ),
    ];
    for (host_fails, registry_fails, expected) in cases {
        installation.host.fails = host_fails;
        installation.registry_fails = registry_fails;
        let error = installation
            .run(|host, registry| {
                verify_established_owner_startup_authority(&identity, &environment, host, registry)
            })
            .expect_err("something cannot be read");
        assert!(expected(&error), "{}", error.message());
    }
}

#[test]
fn command_refuses_arguments_before_it_asks_for_anything() {
    let mut installation = Installation::new();
    installation.host.fails = |_request| panic!("nothing is asked for");
    let environment = environment();
    let args = vec!["transport-custody".as_bytes().to_vec()];
    let report =
        installation.run_on_host(|replies| run_from_env_args(&args, &environment, replies));
    assert!(!report.succeeded);
    assert_eq!(report.lines[0], "prw-first-run result=failure error=invalid_arguments");
    let args = vec![
        "transport-custody".as_bytes().to_vec(),
        "preferred-default".as_bytes().to_vec(),
    ];
    let nowhere = HostEnvironment { xdg_state_home: None, home: None, ..environment };
    let report = installation.run_on_host(|replies| run_from_env_args(&args, &nowhere, replies));
    assert_eq!(
        report.lines,
        vec![format!(
            "prw-first-run result=failure error={}",
            OwnerFirstRunSetupIntentError::InvalidStateRoot.message()
        )]
    );
}
