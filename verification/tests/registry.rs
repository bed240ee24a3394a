//! The registry operations, run against a SQLite database in memory.
use ownspace::domain::{
    DeviceId, DeviceIdentityAlgorithm, DeviceIdentityBinding, DeviceIdentityPublicKeyEncoding,
    DeviceLifecycle, PublicIdentityMaterial, TransportIdentity, UserId, WorkspaceId,
};
use ownspace::durable_registry_authority::DurableRegistryAuthorityError;
use ownspace::durable_registry_codec::{
    decode_bound_device_record, decode_bound_membership_record, encode_device_value,
    encode_membership_value,
};
use ownspace::durable_registry_mutation_semantics::{
    bind_transport_successor, remove_membership_successor, revoke_device_successor,
    rotate_transport_successor, same_device_immutable_tuple, suspend_membership_successor,
};
use ownspace::durable_registry_semantics::{
    current_transport_from_device, ensure_enrolled_device, validate_presented_transport_from_device,
    validate_session_records,
};
use ownspace::durable_registry_sqlite_store::{
    DurableRegistrySqliteOpenError, DurableRegistrySqliteStore,
    OwnerPcLocalAuthorityBootstrapOutcome, RegistryReply, RegistryRequest, SQLITE_SCHEMA_VERSION,
};
use ownspace::owner_established_startup_authority::{
    verify_established_owner_startup_authority_with_store, OwnerEstablishedStartupAuthorityError,
};
use ownspace::owner_first_setup_bootstrap_inputs::{
    generate_owner_logical_identity_record, OwnerLogicalIdentityRecord,
};
use ownspace::plan::Progress;
use ownspace::registry::{
    AuthenticatedDeviceSession, MembershipLifecycle, RegisteredDevice, RegistryError,
    RegistryValidatedPrincipal, WorkspaceMembership, WorkspaceRole,
};
use ownspace::transport_identity_provisioning::TransportIdentityProvisioningPolicy;
use rusqlite::{Connection, OptionalExtension};

type Request = RegistryRequest<String, Vec<u8>>;

type Reply = RegistryReply<String, Vec<u8>>;

const SCHEMA: &str = "
CREATE TABLE prw_registry_memberships (
    workspace_id TEXT NOT NULL,
    user_id TEXT NOT NULL,
    record BLOB NOT NULL,
    PRIMARY KEY (workspace_id, user_id)
);
CREATE TABLE prw_registry_devices (
    device_id TEXT PRIMARY KEY NOT NULL,
    record BLOB NOT NULL
);
PRAGMA user_version = 1;
";

/// A database in memory; it says that it keeps a write-ahead journal, which it cannot there.
struct Store {
    connection: Connection,
    exists: bool,
    journal: &'static str,
    fails: fn(&Request) -> bool,
}

fn never(_request: &Request) -> bool {
    false
}

fn completed<T, E>(result: Result<T, E>) -> Reply {
    match result {
        Ok(_) => RegistryReply::Completed,
        Err(_) => RegistryReply::Failed,
    }
}

fn integer(result: Result<i64, rusqlite::Error>) -> Reply {
    match result {
        Ok(value) => RegistryReply::Integer(value),
        Err(_) => RegistryReply::Failed,
    }
}

fn row(result: Result<Option<Vec<u8>>, rusqlite::Error>) -> Reply {
    match result {
        Ok(found) => RegistryReply::Row(found),
        Err(_) => RegistryReply::Failed,
    }
}

fn changed(result: Result<usize, rusqlite::Error>) -> Reply {
    match result {
        Ok(rows) => RegistryReply::Changed(rows as u64),
        Err(_) => RegistryReply::Failed,
    }
}

impl Store {
    fn empty() -> Store {
        Store {
            connection: Connection::open_in_memory().expect("database in memory"),
            exists: true,
            journal: "wal",
            fails: never,
        }
    }

    fn open() -> Store {
        let mut store = Store::empty();
        store
            .run(DurableRegistrySqliteStore::open)
            .expect("open local sqlite authority");
        store
    }

    fn perform(&mut self, request: &Request) -> Reply {
        if (self.fails)(request) {
            return RegistryReply::Failed;
        }
        let connection = &self.connection;
        match request {
            RegistryRequest::OpenReadWrite => RegistryReply::Completed,
            RegistryRequest::OpenReadOnly => {
                if self.exists {
                    RegistryReply::Completed
                } else {
                    RegistryReply::Failed
                }
            }
            RegistryRequest::EnableForeignKeys => {
                completed(connection.execute_batch("PRAGMA foreign_keys = ON;"))
            }
            RegistryRequest::SetWriteAheadJournal | RegistryRequest::QueryJournalMode => {
                RegistryReply::Text(self.journal.to_owned())
            }
            RegistryRequest::QueryForeignKeys => {
                integer(connection.query_row("PRAGMA foreign_keys;", (), |row| row.get(0)))
            }
            RegistryRequest::QueryUserVersion => {
                integer(connection.query_row("PRAGMA user_version;", (), |row| row.get(0)))
            }
            RegistryRequest::CreateSchema => completed(connection.execute_batch(SCHEMA)),
            RegistryRequest::ProbeMemberships => completed(connection.prepare(
                "SELECT workspace_id, user_id, record FROM prw_registry_memberships LIMIT 0;",
            )),
            RegistryRequest::ProbeDevices => completed(
                connection.prepare("SELECT device_id, record FROM prw_registry_devices LIMIT 0;"),
            ),
            RegistryRequest::BeginImmediate => {
                completed(connection.execute_batch("BEGIN IMMEDIATE;"))
            }
            RegistryRequest::BeginDeferred => completed(connection.execute_batch("BEGIN DEFERRED;")),
            RegistryRequest::SelectMembership(workspace, user) => row(connection
                .query_row(
                    "SELECT record FROM prw_registry_memberships WHERE workspace_id = ?1 AND user_id = ?2;",
                    (workspace, user),
                    |row| row.get(0),
                )
                .optional()),
            RegistryRequest::SelectDevice(device) => row(connection
                .query_row(
                    "SELECT record FROM prw_registry_devices WHERE device_id = ?1;",
                    (device,),
                    |row| row.get(0),
                )
                .optional()),
            RegistryRequest::InsertMembership(workspace, user, record) => {
                changed(connection.execute(
                    "INSERT INTO prw_registry_memberships (workspace_id, user_id, record) VALUES (?1, ?2, ?3);",
                    (workspace, user, record),
                ))
            }
            RegistryRequest::InsertDevice(device, record) => changed(connection.execute(
                "INSERT INTO prw_registry_devices (device_id, record) VALUES (?1, ?2);",
                (device, record),
            )),
            RegistryRequest::UpdateMembership(workspace, user, record) => {
                changed(connection.execute(
                    "UPDATE prw_registry_memberships SET record = ?3 WHERE workspace_id = ?1 AND user_id = ?2;",
                    (workspace, user, record),
                ))
            }
            RegistryRequest::UpdateDevice(device, record) => changed(connection.execute(
                "UPDATE prw_registry_devices SET record = ?2 WHERE device_id = ?1;",
                (device, record),
            )),
            RegistryRequest::Commit => completed(connection.execute_batch("COMMIT;")),
        }
    }

    /// Runs an operation to its end; what it did not commit is rolled back.
    fn run<R>(&mut self, step: impl Fn(&Vec<Reply>) -> Progress<Request, R>) -> R {
        let mut replies = Vec::new();
        loop {
            match step(&replies) {
                Progress::Done(result) => {
                    if !self.connection.is_autocommit() {
                        self.connection.execute_batch("ROLLBACK;").expect("roll back");
                    }
                    return result;
                }
                Progress::Waiting(request) => {
                    let reply = self.perform(&request);
                    replies.push(reply);
                    assert!(replies.len() < 100, "an operation ends");
                }
            }
        }
    }

    fn membership(
        &mut self,
        workspace: &WorkspaceId,
        user: &UserId,
    ) -> Result<Option<WorkspaceMembership>, DurableRegistryAuthorityError> {
        self.run(|replies| DurableRegistrySqliteStore::membership(workspace, user, replies))
    }

    fn device(
        &mut self,
        device: &DeviceId,
    ) -> Result<Option<RegisteredDevice>, DurableRegistryAuthorityError> {
        self.run(|replies| DurableRegistrySqliteStore::device(device, replies))
    }

    fn add_membership(
        &mut self,
        workspace: &WorkspaceId,
        user: &UserId,
    ) -> Result<WorkspaceMembership, DurableRegistryAuthorityError> {
        self.run(|replies| {
            DurableRegistrySqliteStore::add_membership(workspace, user, WorkspaceRole::Owner, replies)
        })
    }

    fn suspend_membership(
        &mut self,
        workspace: &WorkspaceId,
        user: &UserId,
    ) -> Result<(), DurableRegistryAuthorityError> {
        self.run(|replies| DurableRegistrySqliteStore::suspend_membership(workspace, user, replies))
    }

    fn remove_membership(
        &mut self,
        workspace: &WorkspaceId,
        user: &UserId,
    ) -> Result<(), DurableRegistryAuthorityError> {
        self.run(|replies| DurableRegistrySqliteStore::remove_membership(workspace, user, replies))
    }

    fn register_device(
        &mut self,
        binding: &DeviceIdentityBinding,
    ) -> Result<RegisteredDevice, DurableRegistryAuthorityError> {
        self.run(|replies| DurableRegistrySqliteStore::register_device(binding, replies))
    }

    fn bind(
        &mut self,
        device: &DeviceId,
        identity: TransportIdentity,
    ) -> Result<(), DurableRegistryAuthorityError> {
        self.run(|replies| {
            DurableRegistrySqliteStore::bind_transport_identity(device, identity, replies)
        })
    }

    fn rotate(
        &mut self,
        device: &DeviceId,
        expected: TransportIdentity,
        replacement: TransportIdentity,
    ) -> Result<(), DurableRegistryAuthorityError> {
        self.run(|replies| {
            DurableRegistrySqliteStore::rotate_transport_identity(
                device,
                expected,
                replacement,
                replies,
            )
        })
    }

    fn revoke(&mut self, device: &DeviceId) -> Result<(), DurableRegistryAuthorityError> {
        self.run(|replies| DurableRegistrySqliteStore::revoke_device(device, replies))
    }

    fn current_transport(
        &mut self,
        device: &DeviceId,
    ) -> Result<TransportIdentity, DurableRegistryAuthorityError> {
        self.run(|replies| DurableRegistrySqliteStore::current_transport_identity(device, replies))
    }

    fn validate(
        &mut self,
        session: &AuthenticatedDeviceSession,
        presented: TransportIdentity,
    ) -> Result<RegistryValidatedPrincipal, DurableRegistryAuthorityError> {
        self.run(|replies| {
            DurableRegistrySqliteStore::validate_authenticated_session_and_transport_identity(
                session, presented, replies,
            )
        })
    }

    fn bootstrap(
        &mut self,
        binding: &DeviceIdentityBinding,
        identity: TransportIdentity,
    ) -> Result<OwnerPcLocalAuthorityBootstrapOutcome, DurableRegistryAuthorityError> {
        self.run(|replies| {
            DurableRegistrySqliteStore::bootstrap_fresh_owner_authority(binding, identity, replies)
        })
    }
}

fn workspace(value: &str) -> WorkspaceId {
    WorkspaceId::new(value.to_owned()).expect("workspace")
}

fn user(value: &str) -> UserId {
    UserId::new(value.to_owned()).expect("user")
}

fn device_id(value: &str) -> DeviceId {
    DeviceId::new(value.to_owned()).expect("device")
}

fn transport(byte: u8) -> TransportIdentity {
    TransportIdentity::new([byte; 32]).expect("transport")
}

fn public_identity(byte: u8) -> PublicIdentityMaterial {
    PublicIdentityMaterial::new(
        DeviceIdentityAlgorithm::EcdsaP256Sha256,
        DeviceIdentityPublicKeyEncoding::SubjectPublicKeyInfoDer,
        vec![byte; 65],
    )
    .expect("public identity")
}

fn binding(workspace_name: &str, user_name: &str, device_name: &str) -> DeviceIdentityBinding {
    DeviceIdentityBinding {
        workspace_id: workspace(workspace_name),
        user_id: user(user_name),
        device_id: device_id(device_name),
        public_identity: public_identity(0x31),
        lifecycle: DeviceLifecycle::Enrolled,
    }
}

fn semantic<T>(error: RegistryError) -> Result<T, DurableRegistryAuthorityError> {
    Err(DurableRegistryAuthorityError::Semantic(error))
}

#[test]
fn open_initializes_explicit_v1_wal_schema() {
    let mut store = Store::open();
    let user_version: i64 = store
        .connection
        .query_row("PRAGMA user_version;", (), |row| row.get(0))
        .expect("user version");
    let foreign_keys: i64 = store
        .connection
        .query_row("PRAGMA foreign_keys;", (), |row| row.get(0))
        .expect("foreign keys");
    let RegistryReply::Text(journal_mode) = store.perform(&RegistryRequest::QueryJournalMode) else {
        panic!("journal mode");
    };
    assert_eq!(user_version, SQLITE_SCHEMA_VERSION);
    assert_eq!(journal_mode.to_ascii_lowercase(), "wal");
    assert_eq!(foreign_keys, 1);

    let mut again = store;
    assert_eq!(again.run(DurableRegistrySqliteStore::open), Ok(()));
    again.journal = "WAL";
    assert_eq!(again.run(DurableRegistrySqliteStore::open), Ok(()));
    again.journal = "memory";
    assert_eq!(
        again.run(DurableRegistrySqliteStore::open),
        Err(DurableRegistrySqliteOpenError::Configure)
    );
}

#[test]
fn open_rejects_symbolic_link_database_path() {
    let mut store = Store::empty();
    store.fails = |request| matches!(request, RegistryRequest::OpenReadWrite);
    assert_eq!(
        store.run(DurableRegistrySqliteStore::open),
        Err(DurableRegistrySqliteOpenError::Open)
    );
}

#[test]
fn read_only_open_requires_existing_current_schema() {
    let mut store = Store::open();
    assert_eq!(
        store.run(DurableRegistrySqliteStore::open_existing_read_only),
        Ok(())
    );

    let mut missing = Store::empty();
    missing.exists = false;
    assert!(matches!(
        missing.run(DurableRegistrySqliteStore::open_existing_read_only),
        Err(DurableRegistrySqliteOpenError::Open)
    ));

    let mut malformed = Store::empty();
    malformed
        .connection
        .execute_batch("PRAGMA user_version = 1;")
        .expect("mark malformed database as v1");
    assert!(matches!(
        malformed.run(DurableRegistrySqliteStore::open_existing_read_only),
        Err(DurableRegistrySqliteOpenError::Migration)
    ));
    assert_eq!(
        malformed.run(DurableRegistrySqliteStore::open),
        Err(DurableRegistrySqliteOpenError::Migration)
    );

    let mut future = Store::empty();
    future
        .connection
        .execute_batch("PRAGMA user_version = 2;")
        .expect("mark database as v2");
    assert_eq!(
        future.run(DurableRegistrySqliteStore::open),
        Err(DurableRegistrySqliteOpenError::UnsupportedSchemaVersion)
    );
    assert_eq!(
        future.run(DurableRegistrySqliteStore::open_existing_read_only),
        Err(DurableRegistrySqliteOpenError::UnsupportedSchemaVersion)
    );
}

fn insert_device(store: &Store, device: &RegisteredDevice) {
    let value = encode_device_value(device).expect("device encoding");
    store
        .connection
        .execute(
            "INSERT INTO prw_registry_devices (device_id, record) VALUES (?1, ?2);",
            (device.binding().device_id.as_str(), value),
        )
        .expect("insert device");
}

fn insert_membership(store: &Store, membership: &WorkspaceMembership) {
    let value = encode_membership_value(membership).expect("membership encoding");
    store
        .connection
        .execute(
            "INSERT INTO prw_registry_memberships (workspace_id, user_id, record) VALUES (?1, ?2, ?3);",
            (
                membership.workspace_id().as_str(),
                membership.user_id().as_str(),
                value,
            ),
        )
        .expect("insert membership");
}

fn membership(workspace_id: WorkspaceId, user_id: UserId) -> WorkspaceMembership {
    WorkspaceMembership {
        workspace_id,
        user_id,
        role: WorkspaceRole::Owner,
        lifecycle: MembershipLifecycle::Active,
    }
}

#[test]
fn reads_current_transport_through_neutral_semantics() {
    let mut store = Store::open();
    let device = RegisteredDevice {
        binding: binding("workspace-1", "owner", "device-1"),
        transport_identity: Some(transport(7)),
    };
    insert_device(&store, &device);
    assert_eq!(
        store
            .current_transport(&device.binding().device_id)
            .expect("current transport"),
        transport(7)
    );
    assert_eq!(
        store.current_transport(&device_id("device-2")),
        semantic(RegistryError::DeviceUnknown)
    );
}

#[test]
fn validates_session_and_transport_from_one_local_transaction() {
    let mut store = Store::open();
    let binding = binding("workspace-1", "owner", "device-1");
    insert_membership(&store, &membership(workspace("workspace-1"), user("owner")));
    let device = RegisteredDevice {
        binding: binding.clone(),
        transport_identity: Some(transport(9)),
    };
    insert_device(&store, &device);
    let session = AuthenticatedDeviceSession {
        workspace_id: binding.workspace_id.clone(),
        user_id: binding.user_id.clone(),
        device_id: binding.device_id.clone(),
        public_identity: binding.public_identity.clone(),
    };

    let principal = store
        .validate(&session, transport(9))
        .expect("validated principal");
    assert_eq!(&principal.workspace_id, &binding.workspace_id);
    assert_eq!(&principal.user_id, &binding.user_id);
    assert_eq!(&principal.device_id, &binding.device_id);
    assert_eq!(principal.role, WorkspaceRole::Owner);

    assert!(matches!(
        store.validate(&session, transport(10)),
        Err(DurableRegistryAuthorityError::Semantic(
            RegistryError::TransportIdentityMismatch
        ))
    ));
    store
        .suspend_membership(&binding.workspace_id, &binding.user_id)
        .expect("suspend");
    assert!(matches!(
        store.validate(&session, transport(9)),
        Err(DurableRegistryAuthorityError::Semantic(
            RegistryError::MembershipNotActive
        ))
    ));
}

#[test]
fn membership_mutations_preserve_terminal_lifecycle_semantics() {
    let mut store = Store::open();
    let workspace_id = workspace("workspace-m");
    let user_id = user("owner-m");

    let created = store
        .add_membership(&workspace_id, &user_id)
        .expect("create membership");
    assert_eq!(created.lifecycle(), MembershipLifecycle::Active);
    assert_eq!(
        store.add_membership(&workspace_id, &user_id),
        semantic(RegistryError::MembershipAlreadyExists)
    );

    store
        .suspend_membership(&workspace_id, &user_id)
        .expect("suspend active membership");
    assert_eq!(
        store
            .membership(&workspace_id, &user_id)
            .expect("read membership")
            .expect("membership present")
            .lifecycle(),
        MembershipLifecycle::Suspended
    );
    assert_eq!(
        store.suspend_membership(&workspace_id, &user_id),
        semantic(RegistryError::InvalidMembershipTransition)
    );

    store
        .remove_membership(&workspace_id, &user_id)
        .expect("remove suspended membership");
    assert_eq!(
        store
            .membership(&workspace_id, &user_id)
            .expect("read membership")
            .expect("membership present")
            .lifecycle(),
        MembershipLifecycle::Removed
    );
    assert_eq!(
        store.remove_membership(&workspace_id, &user_id),
        semantic(RegistryError::MembershipRemoved)
    );
    assert_eq!(
        store.suspend_membership(&workspace_id, &user("nobody")),
        semantic(RegistryError::MembershipUnknown)
    );
}

#[test]
fn device_mutations_are_atomic_and_preserve_identity_tuple() {
    let mut store = Store::open();
    let binding = binding("workspace-d", "owner-d", "device-d");
    store
        .add_membership(&binding.workspace_id, &binding.user_id)
        .expect("create active membership");

    let registered = store.register_device(&binding).expect("register device");
    assert_eq!(registered.binding(), &binding);
    assert_eq!(registered.transport_identity(), None);
    assert_eq!(
        store.register_device(&binding),
        semantic(RegistryError::DeviceAlreadyExists)
    );

    let first = transport(11);
    let second = transport(12);
    let stale = transport(13);

    store
        .bind(&binding.device_id, first)
        .expect("bind first transport");
    assert_eq!(
        store.bind(&binding.device_id, second),
        semantic(RegistryError::TransportIdentityAlreadyBound)
    );
    assert_eq!(
        store.rotate(&binding.device_id, stale, second),
        semantic(RegistryError::TransportIdentityMismatch)
    );
    assert_eq!(
        store.rotate(&binding.device_id, first, first),
        semantic(RegistryError::TransportIdentityUnchanged)
    );

    store
        .rotate(&binding.device_id, first, second)
        .expect("rotate transport");
    let rotated = store
        .device(&binding.device_id)
        .expect("read device")
        .expect("device present");
    assert_eq!(rotated.binding(), &binding);
    assert_eq!(rotated.transport_identity(), Some(second));

    store.revoke(&binding.device_id).expect("revoke device");
    let revoked = store
        .device(&binding.device_id)
        .expect("read revoked device")
        .expect("device present");
    assert_eq!(revoked.binding().lifecycle, DeviceLifecycle::Revoked);
    assert_eq!(revoked.transport_identity(), Some(second));
    assert_eq!(
        store.revoke(&binding.device_id),
        semantic(RegistryError::DeviceRevoked)
    );
}

#[test]
fn device_registration_requires_active_membership_and_enrolled_binding() {
    let mut store = Store::open();
    let mut binding = binding("workspace-p", "owner-p", "device-p");
    assert_eq!(
        store.register_device(&binding),
        semantic(RegistryError::MembershipUnknown)
    );

    store
        .add_membership(&binding.workspace_id, &binding.user_id)
        .expect("create membership");
    store
        .suspend_membership(&binding.workspace_id, &binding.user_id)
        .expect("suspend membership");
    assert_eq!(
        store.register_device(&binding),
        semantic(RegistryError::MembershipNotActive)
    );

    binding.lifecycle = DeviceLifecycle::PendingEnrollment;
    assert_eq!(
        store.register_device(&binding),
        semantic(RegistryError::DeviceNotEnrolled)
    );
}

#[test]
fn fresh_owner_bootstrap_is_atomic_and_exactly_idempotent() {
    let mut store = Store::open();
    let binding = binding("workspace-1", "owner", "device-1");
    assert_eq!(
        store
            .bootstrap(&binding, transport(21))
            .expect("initialize fresh owner authority"),
        OwnerPcLocalAuthorityBootstrapOutcome::Initialized
    );
    assert_eq!(
        store
            .bootstrap(&binding, transport(21))
            .expect("repeat exact owner bootstrap"),
        OwnerPcLocalAuthorityBootstrapOutcome::AlreadyCurrent
    );

    let membership = store
        .membership(&binding.workspace_id, &binding.user_id)
        .expect("membership read")
        .expect("owner membership");
    assert_eq!(membership.role(), WorkspaceRole::Owner);
    assert_eq!(membership.lifecycle(), MembershipLifecycle::Active);
    let device = store
        .device(&binding.device_id)
        .expect("device read")
        .expect("owner device");
    assert_eq!(device.binding(), &binding);
    assert_eq!(device.transport_identity(), Some(transport(21)));
}

#[test]
fn fresh_owner_bootstrap_rejects_partial_or_conflicting_existing_authority() {
    let mut store = Store::open();
    let binding = binding("workspace-1", "owner", "device-1");
    insert_membership(&store, &membership(workspace("workspace-1"), user("owner")));
    assert_eq!(
        store.bootstrap(&binding, transport(22)),
        Err(DurableRegistryAuthorityError::CurrentnessConflict)
    );
    assert!(store
        .device(&binding.device_id)
        .expect("device read after conflict")
        .is_none());
}

#[test]
fn fresh_owner_bootstrap_rejects_conflicting_exact_device_transport_without_mutation() {
    let mut store = Store::open();
    let binding = binding("workspace-1", "owner", "device-1");
    assert_eq!(
        store
            .bootstrap(&binding, transport(23))
            .expect("initialize fresh owner authority"),
        OwnerPcLocalAuthorityBootstrapOutcome::Initialized
    );
    assert_eq!(
        store.bootstrap(&binding, transport(24)),
        Err(DurableRegistryAuthorityError::CurrentnessConflict)
    );
    assert_eq!(
        store
            .current_transport(&binding.device_id)
            .expect("current transport after conflict"),
        transport(23)
    );
}

#[test]
fn failing_statements_leave_nothing_behind() {
    let cases: [fn(&Request) -> bool; 4] = [
        |request| matches!(request, RegistryRequest::BeginImmediate),
        |request| matches!(request, RegistryRequest::InsertMembership(_, _, _)),
        |request| matches!(request, RegistryRequest::InsertDevice(_, _)),
        |request| matches!(request, RegistryRequest::Commit),
    ];
    let binding = binding("workspace-1", "owner", "device-1");
    for fails in cases {
        let mut store = Store::open();
        store.fails = fails;
        assert_eq!(
            store.bootstrap(&binding, transport(25)),
            Err(DurableRegistryAuthorityError::MutationIndeterminate)
        );
        store.fails = never;
        assert_eq!(
            store.membership(&binding.workspace_id, &binding.user_id),
            Ok(None)
        );
        assert_eq!(store.device(&binding.device_id), Ok(None));
    }
}

#[test]
fn malformed_and_unreadable_records_are_refused() {
    let mut store = Store::open();
    store
        .connection
        .execute(
            "INSERT INTO prw_registry_devices (device_id, record) VALUES (?1, ?2);",
            ("device-1", vec![1_u8, 2, 3]),
        )
        .expect("insert malformed device");
    assert_eq!(
        store.device(&device_id("device-1")),
        Err(DurableRegistryAuthorityError::InvalidAuthority)
    );
    store.fails = |request| matches!(request, RegistryRequest::SelectDevice(_));
    assert_eq!(
        store.device(&device_id("device-1")),
        Err(DurableRegistryAuthorityError::ReadUnavailable)
    );
}

#[test]
fn records_round_trip_and_are_bound_to_their_keys() {
    let stored = membership(workspace("workspace-1"), user("owner"));
    let record = encode_membership_value(&stored).expect("membership encoding");
    assert_eq!(
        decode_bound_membership_record(&record, &workspace("workspace-1"), &user("owner"))
            .expect("decodes"),
        stored
    );
    let device = RegisteredDevice {
        binding: binding("workspace-1", "owner", "device-1"),
        transport_identity: None,
    };
    let record = encode_device_value(&device).expect("device encoding");
    assert_eq!(
        decode_bound_device_record(&record, &device_id("device-1")).expect("decodes"),
        device
    );
    assert!(decode_bound_device_record(&record, &device_id("device-2")).is_err());
    let mut longer = record;
    longer.push(0);
    assert!(decode_bound_device_record(&longer, &device_id("device-1")).is_err());
}

#[test]
fn successors_follow_the_lifecycle_rules() {
    let active = membership(workspace("workspace-1"), user("owner"));
    let suspended = suspend_membership_successor(&active).expect("suspended");
    assert_eq!(suspended.lifecycle(), MembershipLifecycle::Suspended);
    let removed = remove_membership_successor(&suspended).expect("removed");
    assert_eq!(
        suspend_membership_successor(&removed),
        semantic(RegistryError::MembershipRemoved)
    );
    let device = RegisteredDevice {
        binding: binding("workspace-1", "owner", "device-1"),
        transport_identity: None,
    };
    assert_eq!(ensure_enrolled_device(&device), Ok(()));
    assert_eq!(
        current_transport_from_device(&device),
        semantic(RegistryError::TransportIdentityMissing)
    );
    assert_eq!(
        rotate_transport_successor(&device, transport(1), transport(2)),
        semantic(RegistryError::TransportIdentityMissing)
    );
    let bound = bind_transport_successor(&device, transport(1)).expect("bound");
    assert_eq!(
        validate_presented_transport_from_device(&bound, transport(1)),
        Ok(())
    );
    assert!(same_device_immutable_tuple(&device, &bound));
    let revoked = revoke_device_successor(&bound).expect("revoked");
    assert_eq!(
        bind_transport_successor(&revoked, transport(2)),
        semantic(RegistryError::DeviceRevoked)
    );
    assert_eq!(
        DurableRegistryAuthorityError::Semantic(RegistryError::DeviceRevoked).message(),
        format!(
            "durable registry semantic failure: {}",
            RegistryError::DeviceRevoked.message()
        )
    );
}

#[test]
fn session_records_have_to_agree() {
    let binding = binding("workspace-1", "owner", "device-1");
    let stored = membership(workspace("workspace-1"), user("owner"));
    let device = RegisteredDevice { binding: binding.clone(), transport_identity: None };
    assert!(validate_session_records(
        &binding.workspace_id,
        &binding.user_id,
        &binding.device_id,
        &binding.public_identity,
        &stored,
        &device,
    )
    .is_ok());
    assert!(validate_session_records(
        &binding.workspace_id,
        &binding.user_id,
        &binding.device_id,
        &public_identity(0x32),
        &stored,
        &device,
    )
    .is_err());
}

fn owner_binding(owner: &OwnerLogicalIdentityRecord, key: u8) -> DeviceIdentityBinding {
    DeviceIdentityBinding {
        workspace_id: owner.workspace_id().clone(),
        user_id: owner.user_id().clone(),
        device_id: owner.device_id().clone(),
        public_identity: public_identity(key),
        lifecycle: DeviceLifecycle::Enrolled,
    }
}

fn verify(
    store: Store,
    owner: &OwnerLogicalIdentityRecord,
    identity: &PublicIdentityMaterial,
    policy: TransportIdentityProvisioningPolicy,
    transport_identity: TransportIdentity,
) -> Result<
    ownspace::owner_established_startup_authority::OwnerEstablishedStartupAuthorityProof,
    OwnerEstablishedStartupAuthorityError,
> {
    let cell = std::cell::RefCell::new(store);
    verify_established_owner_startup_authority_with_store(
        |workspace: &WorkspaceId, user: &UserId| cell.borrow_mut().membership(workspace, user),
        |device: &DeviceId| cell.borrow_mut().device(device),
        owner,
        identity,
        policy,
        transport_identity,
    )
}

#[test]
fn exact_owner_records_and_transport_produce_established_proof() {
    for policy in [
        TransportIdentityProvisioningPolicy::Preferred,
        TransportIdentityProvisioningPolicy::HostKeyOnly,
    ] {
        let mut store = Store::open();
        let owner = generate_owner_logical_identity_record().expect("owner identity");
        store
            .bootstrap(&owner_binding(&owner, 0x41), transport(0x51))
            .expect("bootstrap disposable authority");
        let proof = verify(store, &owner, &public_identity(0x41), policy, transport(0x51))
            .expect("exact established proof");
        assert_eq!(proof.transport_policy(), policy);
    }
}

#[test]
fn missing_owner_membership_fails_closed() {
    let owner = generate_owner_logical_identity_record().expect("owner identity");
    assert!(matches!(
        verify(
            Store::open(),
            &owner,
            &public_identity(0x42),
            TransportIdentityProvisioningPolicy::Preferred,
            transport(0x52),
        ),
        Err(OwnerEstablishedStartupAuthorityError::OwnerMembershipMissing)
    ));
}

#[test]
fn public_identity_or_transport_mismatch_fails_closed() {
    for (key, identity) in [(0x44, transport(0x53)), (0x43, transport(0x54))] {
        let mut store = Store::open();
        let owner = generate_owner_logical_identity_record().expect("owner identity");
        store
            .bootstrap(&owner_binding(&owner, 0x43), transport(0x53))
            .expect("bootstrap disposable authority");
        assert!(matches!(
            verify(
                store,
                &owner,
                &public_identity(key),
                TransportIdentityProvisioningPolicy::Preferred,
                identity,
            ),
            Err(OwnerEstablishedStartupAuthorityError::OwnerDeviceNotCurrent)
        ));
    }
}

#[test]
fn suspended_membership_or_revoked_device_fails_closed() {
    for case in ["suspended", "revoked"] {
        let mut store = Store::open();
        let owner = generate_owner_logical_identity_record().expect("owner identity");
        store
            .bootstrap(&owner_binding(&owner, 0x45), transport(0x55))
            .expect("bootstrap disposable authority");
        if case == "suspended" {
            store
                .suspend_membership(owner.workspace_id(), owner.user_id())
                .expect("suspend");
        } else {
            store.revoke(owner.device_id()).expect("revoke");
        }
        let result = verify(
            store,
            &owner,
            &public_identity(0x45),
            TransportIdentityProvisioningPolicy::Preferred,
            transport(0x55),
        );
        assert!(matches!(
            result,
            Err(OwnerEstablishedStartupAuthorityError::OwnerMembershipNotCurrent
                | OwnerEstablishedStartupAuthorityError::OwnerDeviceNotCurrent)
        ));
    }
}

