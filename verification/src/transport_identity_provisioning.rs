//! First provisioning of the transport key and recovery of an established one.
//!
//! Two explicit policies exist: the preferred one binds the encrypted credential to the TPM2 and
//! the host secret, the other to the host secret alone and never happens by itself. Either way
//! the host's capability is checked before a key is made, the plaintext goes only to
//! `systemd-creds`, only the encrypted credential is stored, and the service binding is written
//! last. Every function here decides; the host does the work.
use aws_lc_rs::rand::SystemRandom;
use aws_lc_rs::signature::{EcdsaKeyPair, ECDSA_P256_SHA256_ASN1_SIGNING};
use vstd::prelude::*;
use vstd::string::*;
use vstd::utf8::*;

use crate::bytes::{append_bytes, copy_bytes, same_bytes, same_text, text_from_utf8};
use crate::custody::{
    ensure_user_directory, ensure_user_directory_plan, is_private_file, is_same_object,
    prepare_private_directory, prepare_private_directory_plan, private_file_is_secure, publish,
    publish_plan, require_absent, require_absent_plan, same_object, settle, settle_plan,
    user_directory_plan, validate_user_directory, withdraw, withdraw_plan, RecordKind,
    GROUP_AND_WORLD_WRITE_BITS, MAX_DROPIN_BYTES, PRIVATE_FILE_MODE,
};
use crate::domain::TransportIdentity;
use crate::environment::HostEnvironment;
use crate::outside::{
    look_up, look_up_opened, perform, reply_views, seen, went_along, FileMetadata, HostPlan,
    Lookup, OutsideReply, OutsideRequest, Place, Replies,
};
use crate::paths::{is_absolute_path, join_path, joined, path_is_absolute};
use crate::plan::{and_then, bind, follow, lemma_follow_bind, Plan, Progress};
use crate::transport_identity_custody::{
    derive_transport_identity_from_pkcs8_v1_der, derived_identity, EXECUTE_BITS,
    SYSTEMD_TRANSPORT_IDENTITY_CREDENTIAL_NAME,
};

verus! {

/// Persistent encrypted transport-key credential location below the owner state root.
pub const TRANSPORT_IDENTITY_CIPHERTEXT_RELATIVE_PATH: &'static str =
    "private-remote-workspace/credentials/transport-identity-private-key-v1.cred";

/// Per-user systemd drop-in that binds the encrypted transport-key credential.
pub const TRANSPORT_IDENTITY_DROPIN_RELATIVE_PATH: &'static str =
    "systemd/user/prw-agent.service.d/30-transport-identity-credential.conf";

/// Stable non-secret preferred custody-tier marker persisted inside the service drop-in.
pub const TRANSPORT_IDENTITY_PREFERRED_CUSTODY_TIER: &'static str = "TPM2_PLUS_HOST_SECRET";

/// Stable non-secret explicit fallback custody-tier marker.
pub const TRANSPORT_IDENTITY_HOST_KEY_ONLY_CUSTODY_TIER: &'static str = "HOST_KEY_ONLY";

pub const FORBIDDEN_INITIAL_CIPHERTEXT_MODE_BITS: u32 = 0o133;

/// Explicit first-setup transport-identity provisioning policy. It carries intent only.
#[derive(Clone, Copy, PartialEq, Eq, Structural, Debug)]
pub enum TransportIdentityProvisioningPolicy {
    /// Preferred TPM2-plus-host-secret custody policy.
    Preferred,
    /// Explicit lower-tier host-key-only fallback policy.
    HostKeyOnly,
}

impl TransportIdentityProvisioningPolicy {
    pub open spec fn tier(self) -> Seq<char> {
        match self {
            TransportIdentityProvisioningPolicy::Preferred =>
                TRANSPORT_IDENTITY_PREFERRED_CUSTODY_TIER@,
            TransportIdentityProvisioningPolicy::HostKeyOnly =>
                TRANSPORT_IDENTITY_HOST_KEY_ONLY_CUSTODY_TIER@,
        }
    }

    /// Returns the stable non-secret custody-tier marker for this selected policy.
    pub fn custody_tier(self) -> (tier: &'static str)
        ensures
            tier@ == self.tier(),
    {
        match self {
            TransportIdentityProvisioningPolicy::Preferred =>
                TRANSPORT_IDENTITY_PREFERRED_CUSTODY_TIER,
            TransportIdentityProvisioningPolicy::HostKeyOnly =>
                TRANSPORT_IDENTITY_HOST_KEY_ONLY_CUSTODY_TIER,
        }
    }

    /// Only the explicit fallback asks for the host key alone.
    pub fn uses_host_key_only_override(self) -> (host_key_only: bool)
        ensures
            host_key_only == (self is HostKeyOnly),
    {
        match self {
            TransportIdentityProvisioningPolicy::Preferred => false,
            TransportIdentityProvisioningPolicy::HostKeyOnly => true,
        }
    }
}

/// Read-only classification of the fixed persistent transport-custody artifacts.
#[derive(Clone, Copy, PartialEq, Eq, Structural, Debug)]
pub enum TransportIdentityPersistentState {
    /// Neither the fixed encrypted credential nor the fixed service binding exists.
    Absent,
    /// Both fixed artifacts exist and match the already-selected custody policy.
    Established,
}

/// Read-only recovery result derived from canonical established transport custody.
#[derive(Clone, Copy, PartialEq, Eq, Debug)]
pub struct EstablishedTransportIdentityRecovery {
    policy: TransportIdentityProvisioningPolicy,
    transport_identity: TransportIdentity,
}

impl EstablishedTransportIdentityRecovery {
    pub closed spec fn spec_policy(self) -> TransportIdentityProvisioningPolicy {
        self.policy
    }

    pub closed spec fn spec_identity(self) -> TransportIdentity {
        self.transport_identity
    }

    pub fn new(policy: TransportIdentityProvisioningPolicy, transport_identity: TransportIdentity)
        -> (recovery: EstablishedTransportIdentityRecovery)
        ensures
            recovery.spec_policy() == policy,
            recovery.spec_identity() == transport_identity,
    {
        EstablishedTransportIdentityRecovery { policy, transport_identity }
    }

    /// Returns the custody policy encoded by the canonical persisted service binding.
    pub fn policy(self) -> (policy: TransportIdentityProvisioningPolicy)
        ensures
            policy == self.spec_policy(),
    {
        self.policy
    }

    /// Returns the transport identity recovered from the established encrypted credential.
    pub fn transport_identity(self) -> (identity: TransportIdentity)
        ensures
            identity == self.spec_identity(),
    {
        self.transport_identity
    }
}

/// Successful transport-identity provisioning result.
#[derive(Debug)]
pub struct ProvisionedTransportIdentity {
    transport_identity: TransportIdentity,
    encrypted_credential_path: Vec<u8>,
    service_dropin_path: Vec<u8>,
}

/// What a [`ProvisionedTransportIdentity`] says.
pub struct ProvisionedView {
    pub transport_identity: Seq<u8>,
    pub encrypted_credential_path: Seq<u8>,
    pub service_dropin_path: Seq<u8>,
}

impl View for ProvisionedTransportIdentity {
    type V = ProvisionedView;

    closed spec fn view(&self) -> ProvisionedView {
        ProvisionedView {
            transport_identity: self.transport_identity@,
            encrypted_credential_path: self.encrypted_credential_path@,
            service_dropin_path: self.service_dropin_path@,
        }
    }
}

impl ProvisionedTransportIdentity {
    /// Returns the provisioned opaque transport identity.
    pub fn transport_identity(&self) -> (identity: &TransportIdentity)
        ensures
            identity@ == self@.transport_identity,
    {
        &self.transport_identity
    }

    /// Returns the committed encrypted-credential path.
    pub fn encrypted_credential_path(&self) -> (path: &[u8])
        ensures
            path@ == self@.encrypted_credential_path,
    {
        self.encrypted_credential_path.as_slice()
    }

    /// Returns the committed per-user systemd service drop-in path.
    pub fn service_dropin_path(&self) -> (path: &[u8])
        ensures
            path@ == self@.service_dropin_path,
    {
        self.service_dropin_path.as_slice()
    }
}

/// Bounded non-secret failure classification for first transport-key provisioning.
#[derive(Clone, Copy, PartialEq, Eq, Structural, Debug)]
pub enum TransportIdentityProvisioningError {
    /// XDG state/HOME did not resolve to an absolute usable state root.
    InvalidStateRoot,
    /// XDG config/HOME did not resolve to an absolute usable config root.
    InvalidConfigRoot,
    /// A required existing directory failed ownership/type/mode validation.
    InsecureDirectory,
    /// The production transport ciphertext or transport service binding already exists.
    AlreadyProvisioned,
    /// A required private PRW directory could not be created safely.
    DirectoryCreationFailed,
    /// The fixed `systemd-creds` binary failed immutable-system-file validation.
    SystemdCredsUnavailable,
    /// The fixed `systemd-analyze` binary failed immutable-system-file validation.
    SystemdAnalyzeUnavailable,
    /// The supported systemd TPM2 capability check did not prove usable TPM2.
    Tpm2Unavailable,
    /// Explicit host-key-only fallback was requested while usable TPM2 is still available.
    HostKeyOnlyFallbackForbidden,
    /// The host credential secret required for the selected policy was absent.
    HostSecretUnavailable,
    /// The host credential secret failed type/ownership/write-permission validation.
    HostSecretInsecure,
    /// Local P-256 transport private-key generation failed.
    KeyGenerationFailed,
    /// The generated P-256 key failed canonical transport-identity derivation.
    GeneratedIdentityInvalid,
    /// The preferred systemd encrypted-credential operation failed.
    CredentialEncryptionFailed,
    /// The encrypted credential output was empty or exceeded its bound.
    EncryptedCredentialOutOfBounds,
    /// Temporary ciphertext persistence or validation failed.
    CiphertextWriteFailed,
    /// No-replace atomic ciphertext commit failed.
    CiphertextCommitFailed,
    /// The fixed transport credential binding could not be rendered safely.
    InvalidCredentialBinding,
    /// Temporary service drop-in persistence or validation failed.
    DropinWriteFailed,
    /// No-replace atomic service drop-in commit failed.
    DropinCommitFailed,
    /// Required parent-directory durability synchronization failed.
    DirectorySyncFailed,
}

impl TransportIdentityProvisioningError {
    /// The text shown to people for this error.
    pub open spec fn text(self) -> Seq<char> {
        match self {
            TransportIdentityProvisioningError::InvalidStateRoot => "invalid transport identity state root"@,
            TransportIdentityProvisioningError::InvalidConfigRoot => "invalid transport identity config root"@,
            TransportIdentityProvisioningError::InsecureDirectory => "insecure transport identity directory"@,
            TransportIdentityProvisioningError::AlreadyProvisioned => "transport identity is already provisioned"@,
            TransportIdentityProvisioningError::DirectoryCreationFailed => "transport identity directory creation failed"@,
            TransportIdentityProvisioningError::SystemdCredsUnavailable => "systemd-creds is unavailable or insecure"@,
            TransportIdentityProvisioningError::SystemdAnalyzeUnavailable => "systemd-analyze is unavailable or insecure"@,
            TransportIdentityProvisioningError::Tpm2Unavailable => "usable TPM2 was not proven before transport key generation"@,
            TransportIdentityProvisioningError::HostKeyOnlyFallbackForbidden => "host-key-only fallback is forbidden while usable TPM2 is available"@,
            TransportIdentityProvisioningError::HostSecretUnavailable => "systemd host credential secret is unavailable before transport key generation"@,
            TransportIdentityProvisioningError::HostSecretInsecure => "systemd host credential secret is insecure"@,
            TransportIdentityProvisioningError::KeyGenerationFailed => "transport identity key generation failed"@,
            TransportIdentityProvisioningError::GeneratedIdentityInvalid => "generated transport identity failed validation"@,
            TransportIdentityProvisioningError::CredentialEncryptionFailed => "transport identity credential encryption failed"@,
            TransportIdentityProvisioningError::EncryptedCredentialOutOfBounds => "encrypted transport identity credential out of bounds"@,
            TransportIdentityProvisioningError::CiphertextWriteFailed => "encrypted transport identity persistence failed"@,
            TransportIdentityProvisioningError::CiphertextCommitFailed => "encrypted transport identity commit failed"@,
            TransportIdentityProvisioningError::InvalidCredentialBinding => "invalid transport identity credential binding"@,
            TransportIdentityProvisioningError::DropinWriteFailed => "transport identity credential drop-in persistence failed"@,
            TransportIdentityProvisioningError::DropinCommitFailed => "transport identity credential drop-in commit failed"@,
            TransportIdentityProvisioningError::DirectorySyncFailed => "transport identity directory sync failed"@,
        }
    }

    pub fn message(&self) -> (text: &'static str)
        ensures
            text@ == self.text(),
    {
        match self {
            TransportIdentityProvisioningError::InvalidStateRoot => "invalid transport identity state root",
            TransportIdentityProvisioningError::InvalidConfigRoot => "invalid transport identity config root",
            TransportIdentityProvisioningError::InsecureDirectory => "insecure transport identity directory",
            TransportIdentityProvisioningError::AlreadyProvisioned => "transport identity is already provisioned",
            TransportIdentityProvisioningError::DirectoryCreationFailed => "transport identity directory creation failed",
            TransportIdentityProvisioningError::SystemdCredsUnavailable => "systemd-creds is unavailable or insecure",
            TransportIdentityProvisioningError::SystemdAnalyzeUnavailable => "systemd-analyze is unavailable or insecure",
            TransportIdentityProvisioningError::Tpm2Unavailable => "usable TPM2 was not proven before transport key generation",
            TransportIdentityProvisioningError::HostKeyOnlyFallbackForbidden => "host-key-only fallback is forbidden while usable TPM2 is available",
            TransportIdentityProvisioningError::HostSecretUnavailable => "systemd host credential secret is unavailable before transport key generation",
            TransportIdentityProvisioningError::HostSecretInsecure => "systemd host credential secret is insecure",
            TransportIdentityProvisioningError::KeyGenerationFailed => "transport identity key generation failed",
            TransportIdentityProvisioningError::GeneratedIdentityInvalid => "generated transport identity failed validation",
            TransportIdentityProvisioningError::CredentialEncryptionFailed => "transport identity credential encryption failed",
            TransportIdentityProvisioningError::EncryptedCredentialOutOfBounds => "encrypted transport identity credential out of bounds",
            TransportIdentityProvisioningError::CiphertextWriteFailed => "encrypted transport identity persistence failed",
            TransportIdentityProvisioningError::CiphertextCommitFailed => "encrypted transport identity commit failed",
            TransportIdentityProvisioningError::InvalidCredentialBinding => "invalid transport identity credential binding",
            TransportIdentityProvisioningError::DropinWriteFailed => "transport identity credential drop-in persistence failed",
            TransportIdentityProvisioningError::DropinCommitFailed => "transport identity credential drop-in commit failed",
            TransportIdentityProvisioningError::DirectorySyncFailed => "transport identity directory sync failed",
        }
    }
}

/// Bounded failure while recovering an already-established transport identity. Recovery never
/// changes persistent state.
#[derive(Clone, Copy, PartialEq, Eq, Structural, Debug)]
pub enum TransportIdentityRecoveryError {
    /// XDG state/HOME did not resolve to an absolute usable state root.
    InvalidStateRoot,
    /// XDG config/HOME did not resolve to an absolute usable config root.
    InvalidConfigRoot,
    /// A required existing state/config directory is missing or insecure.
    InsecureDirectory,
    /// Exactly one fixed transport-custody artifact exists; retry must fail closed.
    PartialState,
    /// The expected encrypted transport credential is absent or cannot be opened safely.
    CiphertextUnavailable,
    /// The encrypted transport credential violates the private file boundary.
    CiphertextInsecure,
    /// The expected fixed systemd service binding is absent or cannot be opened safely.
    DropinUnavailable,
    /// The fixed service binding violates the private file boundary.
    DropinInsecure,
    /// The established service binding does not match the explicitly selected custody policy.
    CustodyPolicyMismatch,
    /// The fixed `systemd-creds` binary is unavailable or insecure.
    SystemdCredsUnavailable,
    /// Name-bound authenticated decryption of the established credential failed.
    CredentialDecryptionFailed,
    /// The decrypted credential is empty or exceeds the plaintext bound.
    DecryptedCredentialOutOfBounds,
    /// The recovered plaintext is not the canonical dedicated P-256 transport credential.
    InvalidPrivateCredential,
}

impl TransportIdentityRecoveryError {
    /// The text shown to people for this error.
    pub open spec fn text(self) -> Seq<char> {
        match self {
            TransportIdentityRecoveryError::InvalidStateRoot => "invalid transport identity recovery state root"@,
            TransportIdentityRecoveryError::InvalidConfigRoot => "invalid transport identity recovery config root"@,
            TransportIdentityRecoveryError::InsecureDirectory => "insecure transport identity recovery directory"@,
            TransportIdentityRecoveryError::PartialState => "transport identity custody is only partially established"@,
            TransportIdentityRecoveryError::CiphertextUnavailable => "encrypted transport identity credential unavailable"@,
            TransportIdentityRecoveryError::CiphertextInsecure => "encrypted transport identity credential insecure"@,
            TransportIdentityRecoveryError::DropinUnavailable => "transport identity credential binding unavailable"@,
            TransportIdentityRecoveryError::DropinInsecure => "transport identity credential binding insecure"@,
            TransportIdentityRecoveryError::CustodyPolicyMismatch => "established transport identity custody policy does not match setup selection"@,
            TransportIdentityRecoveryError::SystemdCredsUnavailable => "systemd-creds is unavailable or insecure"@,
            TransportIdentityRecoveryError::CredentialDecryptionFailed => "established transport identity credential decryption failed"@,
            TransportIdentityRecoveryError::DecryptedCredentialOutOfBounds => "decrypted transport identity credential out of bounds"@,
            TransportIdentityRecoveryError::InvalidPrivateCredential => "recovered transport identity private credential is invalid"@,
        }
    }

    pub fn message(&self) -> (text: &'static str)
        ensures
            text@ == self.text(),
    {
        match self {
            TransportIdentityRecoveryError::InvalidStateRoot => "invalid transport identity recovery state root",
            TransportIdentityRecoveryError::InvalidConfigRoot => "invalid transport identity recovery config root",
            TransportIdentityRecoveryError::InsecureDirectory => "insecure transport identity recovery directory",
            TransportIdentityRecoveryError::PartialState => "transport identity custody is only partially established",
            TransportIdentityRecoveryError::CiphertextUnavailable => "encrypted transport identity credential unavailable",
            TransportIdentityRecoveryError::CiphertextInsecure => "encrypted transport identity credential insecure",
            TransportIdentityRecoveryError::DropinUnavailable => "transport identity credential binding unavailable",
            TransportIdentityRecoveryError::DropinInsecure => "transport identity credential binding insecure",
            TransportIdentityRecoveryError::CustodyPolicyMismatch => "established transport identity custody policy does not match setup selection",
            TransportIdentityRecoveryError::SystemdCredsUnavailable => "systemd-creds is unavailable or insecure",
            TransportIdentityRecoveryError::CredentialDecryptionFailed => "established transport identity credential decryption failed",
            TransportIdentityRecoveryError::DecryptedCredentialOutOfBounds => "decrypted transport identity credential out of bounds",
            TransportIdentityRecoveryError::InvalidPrivateCredential => "recovered transport identity private credential is invalid",
        }
    }
}

/// A byte that may stand in the credential path of a service binding: no control character, no
/// white space, and none of the characters that systemd gives a meaning.
pub open spec fn is_binding_path_byte(byte: u8) -> bool {
    32 < byte && byte != 127 && byte != 92 && byte != 39 && byte != 34 && byte != 37
}

fn binding_path_byte_allowed(byte: u8) -> (allowed: bool)
    ensures
        allowed == is_binding_path_byte(byte),
{
    32 < byte && byte != 127 && byte != 92 && byte != 39 && byte != 34 && byte != 37
}

/// A credential path that can be bound: absolute, UTF-8, and made of harmless bytes.
pub open spec fn is_binding_path(path: Seq<u8>) -> bool {
    &&& is_absolute_path(path)
    &&& valid_utf8(path)
    &&& forall|i: int| 0 <= i < path.len() ==> is_binding_path_byte(#[trigger] path[i])
}

/// The one service binding of a credential path under a custody tier.
pub open spec fn binding_text(path: Seq<u8>, custody_tier: Seq<char>) -> Seq<u8> {
    encode_utf8("# PRW_TRANSPORT_CUSTODY_TIER="@) + encode_utf8(custody_tier) + encode_utf8(
        "\n[Service]\nLoadCredentialEncrypted="@,
    ) + encode_utf8(SYSTEMD_TRANSPORT_IDENTITY_CREDENTIAL_NAME@) + encode_utf8(":"@) + path
        + encode_utf8("\n"@)
}

/// The service binding, when the path and the tier allow one and it is not too long.
pub open spec fn rendered_dropin(path: Seq<u8>, custody_tier: Seq<char>) -> Option<Seq<u8>> {
    if is_binding_path(path) && (custody_tier == TRANSPORT_IDENTITY_PREFERRED_CUSTODY_TIER@
        || custody_tier == TRANSPORT_IDENTITY_HOST_KEY_ONLY_CUSTODY_TIER@) && binding_text(
        path,
        custody_tier,
    ).len() <= MAX_DROPIN_BYTES {
        Some(binding_text(path, custody_tier))
    } else {
        None
    }
}

fn path_bytes_allowed(path: &[u8]) -> (allowed: bool)
    ensures
        allowed == (forall|i: int|
            0 <= i < path@.len() ==> is_binding_path_byte(#[trigger] path@[i])),
{
    let mut i: usize = 0;
    while i < path.len()
        invariant
            i <= path.len(),
            forall|j: int| 0 <= j < i ==> is_binding_path_byte(#[trigger] path@[j]),
        decreases path.len() - i,
    {
        if !binding_path_byte_allowed(path[i]) {
            assert(!is_binding_path_byte(path@[i as int]));
            return false;
        }
        i = i + 1;
    }
    true
}

/// Renders the service binding that makes systemd deliver the encrypted credential.
pub fn render_transport_identity_dropin(encrypted_credential_path: &[u8], custody_tier: &str) -> (payload:
    Result<Vec<u8>, TransportIdentityProvisioningError>)
    ensures
        match payload {
            Ok(bytes) => rendered_dropin(encrypted_credential_path@, custody_tier@) == Some(bytes@),
            Err(error) => rendered_dropin(encrypted_credential_path@, custody_tier@) is None
                && error == TransportIdentityProvisioningError::InvalidCredentialBinding,
        },
{
    if !path_is_absolute(encrypted_credential_path) {
        return Err(TransportIdentityProvisioningError::InvalidCredentialBinding);
    }
    if text_from_utf8(copy_bytes(encrypted_credential_path)).is_none() {
        return Err(TransportIdentityProvisioningError::InvalidCredentialBinding);
    }
    if !path_bytes_allowed(encrypted_credential_path) {
        return Err(TransportIdentityProvisioningError::InvalidCredentialBinding);
    }
    if !same_text(custody_tier, TRANSPORT_IDENTITY_PREFERRED_CUSTODY_TIER) && !same_text(
        custody_tier,
        TRANSPORT_IDENTITY_HOST_KEY_ONLY_CUSTODY_TIER,
    ) {
        return Err(TransportIdentityProvisioningError::InvalidCredentialBinding);
    }
    let mut payload: Vec<u8> = Vec::new();
    append_bytes(&mut payload, "# PRW_TRANSPORT_CUSTODY_TIER=".as_bytes());
    append_bytes(&mut payload, custody_tier.as_bytes());
    append_bytes(&mut payload, "\n[Service]\nLoadCredentialEncrypted=".as_bytes());
    append_bytes(&mut payload, SYSTEMD_TRANSPORT_IDENTITY_CREDENTIAL_NAME.as_bytes());
    append_bytes(&mut payload, ":".as_bytes());
    append_bytes(&mut payload, encrypted_credential_path);
    append_bytes(&mut payload, "\n".as_bytes());
    assert(payload@ =~= binding_text(encrypted_credential_path@, custody_tier@));
    if payload.len() > 4_096 {
        return Err(TransportIdentityProvisioningError::InvalidCredentialBinding);
    }
    Ok(payload)
}

/// The policy whose service binding for this path the payload is. Both bindings must exist.
pub open spec fn established_policy(payload: Seq<u8>, path: Seq<u8>) -> Option<
    TransportIdentityProvisioningPolicy,
> {
    match rendered_dropin(path, TransportIdentityProvisioningPolicy::Preferred.tier()) {
        None => None,
        Some(preferred) => if payload == preferred {
            Some(TransportIdentityProvisioningPolicy::Preferred)
        } else if rendered_dropin(path, TransportIdentityProvisioningPolicy::HostKeyOnly.tier())
            == Some(payload) {
            Some(TransportIdentityProvisioningPolicy::HostKeyOnly)
        } else {
            None
        },
    }
}

/// Reads the custody policy back from a persisted service binding.
pub fn established_policy_from_dropin_payload(payload: &[u8], encrypted_credential_path: &[u8]) -> (policy:
    Result<TransportIdentityProvisioningPolicy, TransportIdentityRecoveryError>)
    ensures
        policy == (match established_policy(payload@, encrypted_credential_path@) {
            Some(found) => Ok(found),
            None => Err(TransportIdentityRecoveryError::CustodyPolicyMismatch),
        }),
{
    let preferred = match render_transport_identity_dropin(
        encrypted_credential_path,
        TransportIdentityProvisioningPolicy::Preferred.custody_tier(),
    ) {
        Ok(expected) => expected,
        Err(_) => {
            return Err(TransportIdentityRecoveryError::CustodyPolicyMismatch);
        },
    };
    if same_bytes(payload, preferred.as_slice()) {
        return Ok(TransportIdentityProvisioningPolicy::Preferred);
    }
    match render_transport_identity_dropin(
        encrypted_credential_path,
        TransportIdentityProvisioningPolicy::HostKeyOnly.custody_tier(),
    ) {
        Ok(expected) => if same_bytes(payload, expected.as_slice()) {
            Ok(TransportIdentityProvisioningPolicy::HostKeyOnly)
        } else {
            Err(TransportIdentityRecoveryError::CustodyPolicyMismatch)
        },
        Err(_) => Err(TransportIdentityRecoveryError::CustodyPolicyMismatch),
    }
}

/// Custody is established when both artifacts exist, absent when neither does, and partial
/// otherwise.
pub fn classify_transport_identity_persistent_state(
    ciphertext_exists: bool,
    dropin_exists: bool,
) -> (state: Result<TransportIdentityPersistentState, TransportIdentityRecoveryError>)
    ensures
        state == (if ciphertext_exists && dropin_exists {
            Ok(TransportIdentityPersistentState::Established)
        } else if !ciphertext_exists && !dropin_exists {
            Ok(TransportIdentityPersistentState::Absent)
        } else {
            Err(TransportIdentityRecoveryError::PartialState)
        }),
{
    match (ciphertext_exists, dropin_exists) {
        (false, false) => Ok(TransportIdentityPersistentState::Absent),
        (true, true) => Ok(TransportIdentityPersistentState::Established),
        (true, false) => Err(TransportIdentityRecoveryError::PartialState),
        (false, true) => Err(TransportIdentityRecoveryError::PartialState),
    }
}

/// A program of the system: a regular executable of root that nobody else may write to.
pub open spec fn is_secure_system_program(metadata: FileMetadata) -> bool {
    &&& !metadata.is_symlink
    &&& metadata.is_file
    &&& metadata.uid == 0
    &&& metadata.mode & GROUP_AND_WORLD_WRITE_BITS == 0
    &&& metadata.mode & EXECUTE_BITS != 0
}

/// The program at the place can be trusted.
pub open spec fn secure_program_plan<E>(place: Place, unavailable: E) -> HostPlan<Result<(), E>> {
    bind(
        look_up(place),
        |found: Lookup|
            Plan::Finish(
                if found matches Lookup::Found(metadata) && is_secure_system_program(metadata) {
                    Ok(())
                } else {
                    Err(unavailable)
                },
            ),
    )
}

pub fn validate_secure_system_program<E>(replies: &mut Replies<'_>, place: Place, unavailable: E) -> (checked:
    Result<Result<(), E>, OutsideRequest<Vec<u8>>>)
    requires
        old(replies).wf(),
    ensures
        went_along(
            secure_program_plan(place, unavailable),
            *old(replies),
            seen(checked),
            *final(replies),
        ),
{
    broadcast use lemma_follow_bind;

    match replies.look_up(place)? {
        Lookup::Found(metadata) => if !metadata.is_symlink && metadata.is_file && metadata.uid == 0
            && metadata.mode & GROUP_AND_WORLD_WRITE_BITS == 0 && metadata.mode & EXECUTE_BITS != 0 {
            Ok(Ok(()))
        } else {
            Ok(Err(unavailable))
        },
        _ => Ok(Err(unavailable)),
    }
}

/// What is wrong with the host secret, if anything.
pub open spec fn host_secret_verdict(found: Lookup) -> Result<(), TransportIdentityProvisioningError> {
    match found {
        Lookup::Found(metadata) => if metadata.is_symlink || !metadata.is_file || metadata.uid != 0
            || metadata.mode & GROUP_AND_WORLD_WRITE_BITS != 0 || metadata.len == 0 {
            Err(TransportIdentityProvisioningError::HostSecretInsecure)
        } else {
            Ok(())
        },
        _ => Err(TransportIdentityProvisioningError::HostSecretUnavailable),
    }
}

pub fn validate_host_credential_secret(found: &Lookup) -> (verdict: Result<
    (),
    TransportIdentityProvisioningError,
>)
    ensures
        verdict == host_secret_verdict(*found),
{
    match found {
        Lookup::Found(metadata) => if metadata.is_symlink || !metadata.is_file || metadata.uid != 0
            || metadata.mode & GROUP_AND_WORLD_WRITE_BITS != 0 || metadata.len == 0 {
            Err(TransportIdentityProvisioningError::HostSecretInsecure)
        } else {
            Ok(())
        },
        _ => Err(TransportIdentityProvisioningError::HostSecretUnavailable),
    }
}

/// Whether the TPM2 may be used under the policy: the preferred one needs it, and the fallback
/// is refused while it is there. `None` says that the check gave no answer.
pub open spec fn tpm2_verdict(
    policy: TransportIdentityProvisioningPolicy,
    usable: Option<bool>,
) -> Result<(), TransportIdentityProvisioningError> {
    match usable {
        None => Err(TransportIdentityProvisioningError::SystemdAnalyzeUnavailable),
        Some(true) => if policy is HostKeyOnly {
            Err(TransportIdentityProvisioningError::HostKeyOnlyFallbackForbidden)
        } else {
            Ok(())
        },
        Some(false) => if policy is Preferred {
            Err(TransportIdentityProvisioningError::Tpm2Unavailable)
        } else {
            Ok(())
        },
    }
}

fn judge_tpm2(policy: TransportIdentityProvisioningPolicy, usable: Option<bool>) -> (verdict: Result<
    (),
    TransportIdentityProvisioningError,
>)
    ensures
        verdict == tpm2_verdict(policy, usable),
{
    match usable {
        None => Err(TransportIdentityProvisioningError::SystemdAnalyzeUnavailable),
        Some(usable) => match policy {
            TransportIdentityProvisioningPolicy::Preferred => if usable {
                Ok(())
            } else {
                Err(TransportIdentityProvisioningError::Tpm2Unavailable)
            },
            TransportIdentityProvisioningPolicy::HostKeyOnly => if usable {
                Err(TransportIdentityProvisioningError::HostKeyOnlyFallbackForbidden)
            } else {
                Ok(())
            },
        },
    }
}

/// Whether a process succeeded, when it ended by itself.
pub open spec fn exit_success(reply: OutsideReply<Seq<u8>>) -> Option<bool> {
    match reply {
        OutsideReply::Exit(Some(code)) => Some(code == 0),
        _ => None,
    }
}

/// Ask for something that ends in an exit code.
pub open spec fn run_plan(request: OutsideRequest<Seq<u8>>) -> HostPlan<Option<bool>> {
    Plan::Ask(request, |reply: OutsideReply<Seq<u8>>| Plan::Finish(exit_success(reply)))
}

pub fn run(replies: &mut Replies<'_>, request: OutsideRequest<Vec<u8>>) -> (success: Result<
    Option<bool>,
    OutsideRequest<Vec<u8>>,
>)
    requires
        old(replies).wf(),
    ensures
        went_along(run_plan(request@), *old(replies), seen(success), *final(replies)),
{
    proof {
        reveal_with_fuel(follow, 2);
    }
    match replies.take() {
        None => Err(request),
        Some(OutsideReply::Exit(Some(code))) => Ok(Some(*code == 0)),
        Some(_) => Ok(None),
    }
}

/// The host can keep a credential under the policy.
pub open spec fn capability_plan(policy: TransportIdentityProvisioningPolicy) -> HostPlan<
    Result<(), TransportIdentityProvisioningError>,
> {
    and_then(
        secure_program_plan(
            Place::SystemdCreds,
            TransportIdentityProvisioningError::SystemdCredsUnavailable,
        ),
        |_creds: ()|
            and_then(
                secure_program_plan(
                    Place::SystemdAnalyze,
                    TransportIdentityProvisioningError::SystemdAnalyzeUnavailable,
                ),
                |_analyze: ()|
                    bind(
                        run_plan(OutsideRequest::QueryTpm2),
                        |usable: Option<bool>|
                            match tpm2_verdict(policy, usable) {
                                Err(error) => Plan::Finish(Err(error)),
                                Ok(_) => bind(
                                    look_up(Place::HostSecret),
                                    |found: Lookup| Plan::Finish(host_secret_verdict(found)),
                                ),
                            },
                    ),
            ),
    )
}

/// Checks that the host can keep a credential under the policy, before any key exists.
pub fn validate_selected_custody_capability(
    replies: &mut Replies<'_>,
    policy: TransportIdentityProvisioningPolicy,
) -> (checked: Result<Result<(), TransportIdentityProvisioningError>, OutsideRequest<Vec<u8>>>)
    requires
        old(replies).wf(),
    ensures
        went_along(capability_plan(policy), *old(replies), seen(checked), *final(replies)),
{
    broadcast use lemma_follow_bind;

    if let Err(error) = validate_secure_system_program(
        replies,
        Place::SystemdCreds,
        TransportIdentityProvisioningError::SystemdCredsUnavailable,
    )? {
        return Ok(Err(error));
    }
    if let Err(error) = validate_secure_system_program(
        replies,
        Place::SystemdAnalyze,
        TransportIdentityProvisioningError::SystemdAnalyzeUnavailable,
    )? {
        return Ok(Err(error));
    }
    let usable = run(replies, OutsideRequest::QueryTpm2)?;
    if let Err(error) = judge_tpm2(policy, usable) {
        return Ok(Err(error));
    }
    let found = replies.look_up(Place::HostSecret)?;
    Ok(validate_host_credential_secret(&found))
}

/// Makes a P-256 key with `EcdsaKeyPair::generate_pkcs8`. The key is random: nothing is claimed
/// of its bytes, nor that one can be made.
#[verifier::external_body]
fn generate_p256_pkcs8() -> (key: Option<Vec<u8>>) {
    EcdsaKeyPair::generate_pkcs8(&ECDSA_P256_SHA256_ASN1_SIGNING, &SystemRandom::new()).ok().map(
        |document| document.as_ref().to_vec(),
    )
}

/// What becomes of a key that was made, or could not be made.
pub fn accept_generated_key(key: Option<Vec<u8>>) -> (accepted: Result<
    (Vec<u8>, TransportIdentity),
    TransportIdentityProvisioningError,
>)
    ensures
        match accepted {
            Ok((kept, identity)) => key is Some && kept@ == key->0@ && derived_identity(kept@) == Ok::<
                Seq<u8>,
                crate::transport_identity_custody::UbuntuTransportIdentityCustodyError,
            >(identity@),
            Err(TransportIdentityProvisioningError::KeyGenerationFailed) => key is None,
            Err(error) => key is Some && derived_identity(key->0@) is Err && error
                == TransportIdentityProvisioningError::GeneratedIdentityInvalid,
        },
{
    match key {
        None => Err(TransportIdentityProvisioningError::KeyGenerationFailed),
        Some(kept) => match derive_transport_identity_from_pkcs8_v1_der(kept.as_slice()) {
            Ok(identity) => Ok((kept, identity)),
            Err(_) => Err(TransportIdentityProvisioningError::GeneratedIdentityInvalid),
        },
    }
}

/// Makes one transport key and derives its identity. Which key comes is chance; that it has the
/// identity returned with it is not.
pub fn generate_transport_private_key() -> (generated: Result<
    (Vec<u8>, TransportIdentity),
    TransportIdentityProvisioningError,
>)
    ensures
        match generated {
            Ok((key, identity)) => derived_identity(key@) == Ok::<
                Seq<u8>,
                crate::transport_identity_custody::UbuntuTransportIdentityCustodyError,
            >(identity@),
            Err(error) => error == TransportIdentityProvisioningError::KeyGenerationFailed || error
                == TransportIdentityProvisioningError::GeneratedIdentityInvalid,
        },
{
    accept_generated_key(generate_p256_pkcs8())
}

/// Ask for a fresh key; what is told of it is its identity.
pub open spec fn generate_key_plan() -> HostPlan<
    Result<TransportIdentity, TransportIdentityProvisioningError>,
> {
    Plan::Ask(
        OutsideRequest::GenerateTransportKey,
        |reply: OutsideReply<Seq<u8>>|
            Plan::Finish(
                match reply {
                    OutsideReply::Identity(identity) => Ok(identity),
                    OutsideReply::Rejected => Err(
                        TransportIdentityProvisioningError::GeneratedIdentityInvalid,
                    ),
                    _ => Err(TransportIdentityProvisioningError::KeyGenerationFailed),
                },
            ),
    )
}

fn generate_key(replies: &mut Replies<'_>) -> (generated: Result<
    Result<TransportIdentity, TransportIdentityProvisioningError>,
    OutsideRequest<Vec<u8>>,
>)
    requires
        old(replies).wf(),
    ensures
        went_along(generate_key_plan(), *old(replies), seen(generated), *final(replies)),
{
    proof {
        reveal_with_fuel(follow, 2);
    }
    match replies.take() {
        None => Err(OutsideRequest::GenerateTransportKey),
        Some(OutsideReply::Identity(identity)) => Ok(Ok(*identity)),
        Some(OutsideReply::Rejected) => Ok(
            Err(TransportIdentityProvisioningError::GeneratedIdentityInvalid),
        ),
        Some(_) => Ok(Err(TransportIdentityProvisioningError::KeyGenerationFailed)),
    }
}

/// What is wrong with a fresh ciphertext whose permissions are checked by `private`.
pub open spec fn ciphertext_verdict(metadata: FileMetadata, private: bool) -> Result<
    (),
    TransportIdentityProvisioningError,
> {
    if !private {
        Err(TransportIdentityProvisioningError::CiphertextWriteFailed)
    } else if !RecordKind::Ciphertext.allows_size(metadata.len as int) {
        Err(TransportIdentityProvisioningError::EncryptedCredentialOutOfBounds)
    } else {
        Ok(())
    }
}

/// A ciphertext as the helper may leave it: a regular file of this user, not executable and not
/// writable by others.
pub open spec fn is_initial_ciphertext(metadata: FileMetadata, uid: u32) -> bool {
    &&& !metadata.is_symlink
    &&& metadata.is_file
    &&& metadata.uid == uid
    &&& metadata.mode & FORBIDDEN_INITIAL_CIPHERTEXT_MODE_BITS == 0
}

pub fn validate_initial_ciphertext_metadata(metadata: &FileMetadata, uid: u32) -> (verdict: Result<
    (),
    TransportIdentityProvisioningError,
>)
    ensures
        verdict == ciphertext_verdict(*metadata, is_initial_ciphertext(*metadata, uid)),
{
    if metadata.is_symlink || !metadata.is_file || metadata.uid != uid || metadata.mode
        & FORBIDDEN_INITIAL_CIPHERTEXT_MODE_BITS != 0 {
        return Err(TransportIdentityProvisioningError::CiphertextWriteFailed);
    }
    if !RecordKind::Ciphertext.size_is_allowed(metadata.len) {
        return Err(TransportIdentityProvisioningError::EncryptedCredentialOutOfBounds);
    }
    Ok(())
}

pub fn validate_ciphertext_metadata(metadata: &FileMetadata, uid: u32) -> (verdict: Result<
    (),
    TransportIdentityProvisioningError,
>)
    ensures
        verdict == ciphertext_verdict(*metadata, is_private_file(*metadata, uid)),
{
    if !private_file_is_secure(metadata, uid) {
        return Err(TransportIdentityProvisioningError::CiphertextWriteFailed);
    }
    if !RecordKind::Ciphertext.size_is_allowed(metadata.len) {
        return Err(TransportIdentityProvisioningError::EncryptedCredentialOutOfBounds);
    }
    Ok(())
}

/// Open the ciphertext that the helper wrote, making sure it is what was looked at.
pub open spec fn open_temporary_ciphertext_plan(uid: u32) -> HostPlan<
    Result<FileMetadata, TransportIdentityProvisioningError>,
> {
    bind(
        look_up(Place::CiphertextTemporary),
        |found: Lookup|
            match found {
                Lookup::Found(before) => match ciphertext_verdict(
                    before,
                    is_initial_ciphertext(before, uid),
                ) {
                    Err(error) => Plan::Finish(Err(error)),
                    Ok(_) => bind(
                        perform(OutsideRequest::Open(Place::CiphertextTemporary)),
                        |opened: bool|
                            if !opened {
                                Plan::Finish(
                                    Err(TransportIdentityProvisioningError::CiphertextWriteFailed),
                                )
                            } else {
                                bind(
                                    look_up_opened(Place::CiphertextTemporary),
                                    |reopened: Lookup|
                                        Plan::Finish(opened_ciphertext(before, reopened, uid)),
                                )
                            },
                    ),
                },
                _ => Plan::Finish(Err(TransportIdentityProvisioningError::CiphertextWriteFailed)),
            },
    )
}

/// The opened ciphertext, when it is the one looked at before and still acceptable.
pub open spec fn opened_ciphertext(before: FileMetadata, reopened: Lookup, uid: u32) -> Result<
    FileMetadata,
    TransportIdentityProvisioningError,
> {
    match reopened {
        Lookup::Found(after) => match ciphertext_verdict(after, is_initial_ciphertext(after, uid)) {
            Err(error) => Err(error),
            Ok(_) => if is_same_object(before, after) {
                Ok(after)
            } else {
                Err(TransportIdentityProvisioningError::CiphertextWriteFailed)
            },
        },
        _ => Err(TransportIdentityProvisioningError::CiphertextWriteFailed),
    }
}

fn open_temporary_ciphertext(replies: &mut Replies<'_>, uid: u32) -> (opened: Result<
    Result<FileMetadata, TransportIdentityProvisioningError>,
    OutsideRequest<Vec<u8>>,
>)
    requires
        old(replies).wf(),
    ensures
        went_along(open_temporary_ciphertext_plan(uid), *old(replies), seen(opened), *final(replies)),
{
    broadcast use lemma_follow_bind;

    let before = match replies.look_up(Place::CiphertextTemporary)? {
        Lookup::Found(before) => before,
        _ => {
            return Ok(Err(TransportIdentityProvisioningError::CiphertextWriteFailed));
        },
    };
    if let Err(error) = validate_initial_ciphertext_metadata(&before, uid) {
        return Ok(Err(error));
    }
    if !replies.perform(OutsideRequest::Open(Place::CiphertextTemporary))? {
        return Ok(Err(TransportIdentityProvisioningError::CiphertextWriteFailed));
    }
    match replies.look_up_opened(Place::CiphertextTemporary)? {
        Lookup::Found(after) => match validate_initial_ciphertext_metadata(&after, uid) {
            Err(error) => Ok(Err(error)),
            Ok(_) => if same_object(&before, &after) {
                Ok(Ok(after))
            } else {
                Ok(Err(TransportIdentityProvisioningError::CiphertextWriteFailed))
            },
        },
        _ => Ok(Err(TransportIdentityProvisioningError::CiphertextWriteFailed)),
    }
}

/// The ciphertext after its permissions were set, when it is the opened one and private.
pub open spec fn hardened_ciphertext(opened: FileMetadata, found: Lookup, uid: u32) -> Result<
    FileMetadata,
    TransportIdentityProvisioningError,
> {
    match found {
        Lookup::Found(hardened) => match ciphertext_verdict(hardened, is_private_file(hardened, uid)) {
            Err(error) => Err(error),
            Ok(_) => if is_same_object(hardened, opened) {
                Ok(hardened)
            } else {
                Err(TransportIdentityProvisioningError::CiphertextWriteFailed)
            },
        },
        _ => Err(TransportIdentityProvisioningError::CiphertextWriteFailed),
    }
}

/// Close the fresh ciphertext to others, check it again and force it to disk.
pub open spec fn harden_ciphertext_plan(uid: u32) -> HostPlan<
    Result<FileMetadata, TransportIdentityProvisioningError>,
> {
    and_then(
        open_temporary_ciphertext_plan(uid),
        |opened: FileMetadata|
            bind(
                perform(OutsideRequest::SetOpenedMode(Place::CiphertextTemporary, PRIVATE_FILE_MODE)),
                |closed_off: bool|
                    if !closed_off {
                        Plan::Finish(Err(TransportIdentityProvisioningError::CiphertextWriteFailed))
                    } else {
                        bind(
                            look_up_opened(Place::CiphertextTemporary),
                            |found: Lookup|
                                match hardened_ciphertext(opened, found, uid) {
                                    Err(error) => Plan::Finish(Err(error)),
                                    Ok(hardened) => bind(
                                        perform(
                                            OutsideRequest::SyncOpened(Place::CiphertextTemporary),
                                        ),
                                        |synced: bool|
                                            Plan::Finish(
                                                if synced {
                                                    Ok(hardened)
                                                } else {
                                                    Err(
                                                        TransportIdentityProvisioningError::CiphertextWriteFailed,
                                                    )
                                                },
                                            ),
                                    ),
                                },
                        )
                    },
            ),
    )
}

fn harden_validate_and_sync_ciphertext_temp(replies: &mut Replies<'_>, uid: u32) -> (hardened: Result<
    Result<FileMetadata, TransportIdentityProvisioningError>,
    OutsideRequest<Vec<u8>>,
>)
    requires
        old(replies).wf(),
    ensures
        went_along(harden_ciphertext_plan(uid), *old(replies), seen(hardened), *final(replies)),
{
    broadcast use lemma_follow_bind;

    let opened = match open_temporary_ciphertext(replies, uid)? {
        Ok(opened) => opened,
        Err(error) => {
            return Ok(Err(error));
        },
    };
    if !replies.perform(
        OutsideRequest::SetOpenedMode(Place::CiphertextTemporary, PRIVATE_FILE_MODE),
    )? {
        return Ok(Err(TransportIdentityProvisioningError::CiphertextWriteFailed));
    }
    let hardened = match replies.look_up_opened(Place::CiphertextTemporary)? {
        Lookup::Found(hardened) => hardened,
        _ => {
            return Ok(Err(TransportIdentityProvisioningError::CiphertextWriteFailed));
        },
    };
    if let Err(error) = validate_ciphertext_metadata(&hardened, uid) {
        return Ok(Err(error));
    }
    if !same_object(&hardened, &opened) {
        return Ok(Err(TransportIdentityProvisioningError::CiphertextWriteFailed));
    }
    if !replies.perform(OutsideRequest::SyncOpened(Place::CiphertextTemporary))? {
        return Ok(Err(TransportIdentityProvisioningError::CiphertextWriteFailed));
    }
    Ok(Ok(hardened))
}

/// Make the four directories above the service binding.
pub open spec fn dropin_directories_plan(uid: u32) -> HostPlan<
    Result<(), TransportIdentityProvisioningError>,
> {
    and_then(
        dropin_directory_plan(Place::ConfigRoot, uid),
        |_config: ()|
            and_then(
                dropin_directory_plan(Place::SystemdDirectory, uid),
                |_systemd: ()|
                    and_then(
                        dropin_directory_plan(Place::SystemdUserDirectory, uid),
                        |_user: ()| dropin_directory_plan(Place::DropinDirectory, uid),
                    ),
            ),
    )
}

pub open spec fn dropin_directory_plan(place: Place, uid: u32) -> HostPlan<
    Result<(), TransportIdentityProvisioningError>,
> {
    ensure_user_directory_plan(
        place,
        uid,
        TransportIdentityProvisioningError::DirectoryCreationFailed,
        TransportIdentityProvisioningError::InsecureDirectory,
    )
}

fn ensure_dropin_directory(replies: &mut Replies<'_>, place: Place, uid: u32) -> (ensured: Result<
    Result<(), TransportIdentityProvisioningError>,
    OutsideRequest<Vec<u8>>,
>)
    requires
        old(replies).wf(),
    ensures
        went_along(dropin_directory_plan(place, uid), *old(replies), seen(ensured), *final(replies)),
{
    ensure_user_directory(
        replies,
        place,
        uid,
        TransportIdentityProvisioningError::DirectoryCreationFailed,
        TransportIdentityProvisioningError::InsecureDirectory,
    )
}

fn ensure_dropin_directories(replies: &mut Replies<'_>, uid: u32) -> (ensured: Result<
    Result<(), TransportIdentityProvisioningError>,
    OutsideRequest<Vec<u8>>,
>)
    requires
        old(replies).wf(),
    ensures
        went_along(dropin_directories_plan(uid), *old(replies), seen(ensured), *final(replies)),
{
    broadcast use lemma_follow_bind;

    if let Err(error) = ensure_dropin_directory(replies, Place::ConfigRoot, uid)? {
        return Ok(Err(error));
    }
    if let Err(error) = ensure_dropin_directory(replies, Place::SystemdDirectory, uid)? {
        return Ok(Err(error));
    }
    if let Err(error) = ensure_dropin_directory(replies, Place::SystemdUserDirectory, uid)? {
        return Ok(Err(error));
    }
    ensure_dropin_directory(replies, Place::DropinDirectory, uid)
}

/// Publish the service binding once, making the directories above it.
pub open spec fn commit_dropin_plan(payload: Seq<u8>, uid: u32) -> HostPlan<
    Result<(), TransportIdentityProvisioningError>,
> {
    and_then(
        dropin_directories_plan(uid),
        |_directories: ()|
            and_then(
                require_absent_plan(
                    Place::Dropin,
                    TransportIdentityProvisioningError::AlreadyProvisioned,
                ),
                |_absent: ()|
                    if RecordKind::Dropin.allows_size(payload.len() as int) {
                        publish_plan(
                            Place::DropinTemporary,
                            Place::Dropin,
                            Place::DropinDirectory,
                            payload,
                            RecordKind::Dropin,
                            uid,
                            TransportIdentityProvisioningError::DropinWriteFailed,
                            TransportIdentityProvisioningError::DropinCommitFailed,
                            TransportIdentityProvisioningError::DirectorySyncFailed,
                        )
                    } else {
                        and_then(
                            require_absent_plan(
                                Place::DropinTemporary,
                                TransportIdentityProvisioningError::DropinWriteFailed,
                            ),
                            |_free: ()|
                                bind(
                                    perform(OutsideRequest::Remove(Place::DropinTemporary)),
                                    |_removed: bool|
                                        Plan::Finish(
                                            Err(
                                                TransportIdentityProvisioningError::DropinWriteFailed,
                                            ),
                                        ),
                                ),
                        )
                    },
            ),
    )
}

pub fn commit_transport_identity_dropin(replies: &mut Replies<'_>, payload: &[u8], uid: u32) -> (committed:
    Result<Result<(), TransportIdentityProvisioningError>, OutsideRequest<Vec<u8>>>)
    requires
        old(replies).wf(),
    ensures
        went_along(commit_dropin_plan(payload@, uid), *old(replies), seen(committed), *final(replies)),
{
    broadcast use lemma_follow_bind;

    if let Err(error) = ensure_dropin_directories(replies, uid)? {
        return Ok(Err(error));
    }
    if let Err(error) = require_absent(
        replies,
        Place::Dropin,
        TransportIdentityProvisioningError::AlreadyProvisioned,
    )? {
        return Ok(Err(error));
    }
    if payload.len() == 0 || payload.len() > 4_096 {
        if let Err(error) = require_absent(
            replies,
            Place::DropinTemporary,
            TransportIdentityProvisioningError::DropinWriteFailed,
        )? {
            return Ok(Err(error));
        }
        let _ = replies.perform(OutsideRequest::Remove(Place::DropinTemporary))?;
        return Ok(Err(TransportIdentityProvisioningError::DropinWriteFailed));
    }
    publish(
        replies,
        Place::DropinTemporary,
        Place::Dropin,
        Place::DropinDirectory,
        payload,
        RecordKind::Dropin,
        uid,
        TransportIdentityProvisioningError::DropinWriteFailed,
        TransportIdentityProvisioningError::DropinCommitFailed,
        TransportIdentityProvisioningError::DirectorySyncFailed,
    )
}

/// The roots are directories of this user; the config root only if it is there.
pub open spec fn provisioning_roots_plan(uid: u32) -> HostPlan<
    Result<(), TransportIdentityProvisioningError>,
> {
    and_then(
        user_directory_plan(
            Place::StateRoot,
            uid,
            TransportIdentityProvisioningError::InsecureDirectory,
        ),
        |_state: ()|
            bind(
                exists_plan(Place::ConfigRoot),
                |exists: bool|
                    if exists {
                        user_directory_plan(
                            Place::ConfigRoot,
                            uid,
                            TransportIdentityProvisioningError::InsecureDirectory,
                        )
                    } else {
                        Plan::Finish(Ok(()))
                    },
            ),
    )
}

/// Ask whether something is at the place once links are followed.
pub open spec fn exists_plan(place: Place) -> HostPlan<bool> {
    Plan::Ask(
        OutsideRequest::Exists(place),
        |reply: OutsideReply<Seq<u8>>| Plan::Finish(reply == OutsideReply::<Seq<u8>>::Flag(true)),
    )
}

fn exists_at(replies: &mut Replies<'_>, place: Place) -> (exists: Result<
    bool,
    OutsideRequest<Vec<u8>>,
>)
    requires
        old(replies).wf(),
    ensures
        went_along(exists_plan(place), *old(replies), seen(exists), *final(replies)),
{
    proof {
        reveal_with_fuel(follow, 2);
    }
    match replies.take() {
        None => Err(OutsideRequest::Exists(place)),
        Some(OutsideReply::Flag(flag)) => Ok(*flag),
        Some(_) => Ok(false),
    }
}

fn validate_provisioning_roots(replies: &mut Replies<'_>, uid: u32) -> (checked: Result<
    Result<(), TransportIdentityProvisioningError>,
    OutsideRequest<Vec<u8>>,
>)
    requires
        old(replies).wf(),
    ensures
        went_along(provisioning_roots_plan(uid), *old(replies), seen(checked), *final(replies)),
{
    broadcast use lemma_follow_bind;

    if let Err(error) = validate_user_directory(
        replies,
        Place::StateRoot,
        uid,
        TransportIdentityProvisioningError::InsecureDirectory,
    )? {
        return Ok(Err(error));
    }
    if exists_at(replies, Place::ConfigRoot)? {
        return validate_user_directory(
            replies,
            Place::ConfigRoot,
            uid,
            TransportIdentityProvisioningError::InsecureDirectory,
        );
    }
    Ok(Ok(()))
}

/// Nothing is provisioned yet, and the host can keep a credential under the policy.
pub open spec fn preflight_plan(policy: TransportIdentityProvisioningPolicy) -> HostPlan<
    Result<(), TransportIdentityProvisioningError>,
> {
    and_then(
        require_absent_plan(
            Place::Ciphertext,
            TransportIdentityProvisioningError::AlreadyProvisioned,
        ),
        |_ciphertext: ()|
            and_then(
                require_absent_plan(
                    Place::Dropin,
                    TransportIdentityProvisioningError::AlreadyProvisioned,
                ),
                |_dropin: ()| capability_plan(policy),
            ),
    )
}

fn preflight(replies: &mut Replies<'_>, policy: TransportIdentityProvisioningPolicy) -> (checked: Result<
    Result<(), TransportIdentityProvisioningError>,
    OutsideRequest<Vec<u8>>,
>)
    requires
        old(replies).wf(),
    ensures
        went_along(preflight_plan(policy), *old(replies), seen(checked), *final(replies)),
{
    broadcast use lemma_follow_bind;

    if let Err(error) = require_absent(
        replies,
        Place::Ciphertext,
        TransportIdentityProvisioningError::AlreadyProvisioned,
    )? {
        return Ok(Err(error));
    }
    if let Err(error) = require_absent(
        replies,
        Place::Dropin,
        TransportIdentityProvisioningError::AlreadyProvisioned,
    )? {
        return Ok(Err(error));
    }
    validate_selected_custody_capability(replies, policy)
}

/// Make the private directories above the ciphertext and see that it is still absent.
pub open spec fn credential_directories_plan(uid: u32) -> HostPlan<
    Result<(), TransportIdentityProvisioningError>,
> {
    and_then(
        prepare_private_directory_plan(
            Place::ApplicationDirectory,
            uid,
            TransportIdentityProvisioningError::DirectoryCreationFailed,
            TransportIdentityProvisioningError::InsecureDirectory,
        ),
        |_application: ()|
            and_then(
                prepare_private_directory_plan(
                    Place::CredentialDirectory,
                    uid,
                    TransportIdentityProvisioningError::DirectoryCreationFailed,
                    TransportIdentityProvisioningError::InsecureDirectory,
                ),
                |_credentials: ()|
                    require_absent_plan(
                        Place::Ciphertext,
                        TransportIdentityProvisioningError::AlreadyProvisioned,
                    ),
            ),
    )
}

fn prepare_credential_directories(replies: &mut Replies<'_>, uid: u32) -> (prepared: Result<
    Result<(), TransportIdentityProvisioningError>,
    OutsideRequest<Vec<u8>>,
>)
    requires
        old(replies).wf(),
    ensures
        went_along(credential_directories_plan(uid), *old(replies), seen(prepared), *final(replies)),
{
    broadcast use lemma_follow_bind;

    if let Err(error) = prepare_private_directory(
        replies,
        Place::ApplicationDirectory,
        uid,
        TransportIdentityProvisioningError::DirectoryCreationFailed,
        TransportIdentityProvisioningError::InsecureDirectory,
    )? {
        return Ok(Err(error));
    }
    if let Err(error) = prepare_private_directory(
        replies,
        Place::CredentialDirectory,
        uid,
        TransportIdentityProvisioningError::DirectoryCreationFailed,
        TransportIdentityProvisioningError::InsecureDirectory,
    )? {
        return Ok(Err(error));
    }
    require_absent(
        replies,
        Place::Ciphertext,
        TransportIdentityProvisioningError::AlreadyProvisioned,
    )
}

/// Encrypt the kept key beside its final place and settle the ciphertext there. The temporary
/// file is removed whenever the ciphertext does not come about.
pub open spec fn store_ciphertext_plan(policy: TransportIdentityProvisioningPolicy, uid: u32) -> HostPlan<
    Result<(), TransportIdentityProvisioningError>,
> {
    and_then(
        require_absent_plan(
            Place::CiphertextTemporary,
            TransportIdentityProvisioningError::CiphertextWriteFailed,
        ),
        |_free: ()|
            bind(
                perform(
                    OutsideRequest::EncryptTransportKey(
                        Place::CiphertextTemporary,
                        policy is HostKeyOnly,
                    ),
                ),
                |encrypted: bool|
                    if !encrypted {
                        bind(
                            perform(OutsideRequest::Remove(Place::CiphertextTemporary)),
                            |_removed: bool|
                                Plan::Finish(
                                    Err(
                                        TransportIdentityProvisioningError::CredentialEncryptionFailed,
                                    ),
                                ),
                        )
                    } else {
                        bind(
                            harden_ciphertext_plan(uid),
                            |hardened: Result<FileMetadata, TransportIdentityProvisioningError>|
                                match hardened {
                                    Err(error) => bind(
                                        perform(OutsideRequest::Remove(Place::CiphertextTemporary)),
                                        |_removed: bool| Plan::Finish(Err(error)),
                                    ),
                                    Ok(metadata) => settle_plan(
                                        Place::CiphertextTemporary,
                                        Place::Ciphertext,
                                        Place::CredentialDirectory,
                                        metadata,
                                        RecordKind::Ciphertext,
                                        uid,
                                        TransportIdentityProvisioningError::CiphertextCommitFailed,
                                        TransportIdentityProvisioningError::DirectorySyncFailed,
                                    ),
                                },
                        )
                    },
            ),
    )
}

fn store_ciphertext(
    replies: &mut Replies<'_>,
    policy: TransportIdentityProvisioningPolicy,
    uid: u32,
) -> (stored: Result<Result<(), TransportIdentityProvisioningError>, OutsideRequest<Vec<u8>>>)
    requires
        old(replies).wf(),
    ensures
        went_along(store_ciphertext_plan(policy, uid), *old(replies), seen(stored), *final(replies)),
{
    broadcast use lemma_follow_bind;

    if let Err(error) = require_absent(
        replies,
        Place::CiphertextTemporary,
        TransportIdentityProvisioningError::CiphertextWriteFailed,
    )? {
        return Ok(Err(error));
    }
    let host_key_only = policy.uses_host_key_only_override();
    if !replies.perform(
        OutsideRequest::EncryptTransportKey(Place::CiphertextTemporary, host_key_only),
    )? {
        let _ = replies.perform(OutsideRequest::Remove(Place::CiphertextTemporary))?;
        return Ok(Err(TransportIdentityProvisioningError::CredentialEncryptionFailed));
    }
    match harden_validate_and_sync_ciphertext_temp(replies, uid)? {
        Err(error) => {
            let _ = replies.perform(OutsideRequest::Remove(Place::CiphertextTemporary))?;
            Ok(Err(error))
        },
        Ok(metadata) => settle(
            replies,
            Place::CiphertextTemporary,
            Place::Ciphertext,
            Place::CredentialDirectory,
            &metadata,
            RecordKind::Ciphertext,
            uid,
            TransportIdentityProvisioningError::CiphertextCommitFailed,
            TransportIdentityProvisioningError::DirectorySyncFailed,
        ),
    }
}

/// Store the ciphertext and then the service binding. A ciphertext whose binding fails is taken
/// away again.
pub open spec fn store_artifacts_plan(
    policy: TransportIdentityProvisioningPolicy,
    payload: Seq<u8>,
    uid: u32,
) -> HostPlan<Result<(), TransportIdentityProvisioningError>> {
    and_then(
        store_ciphertext_plan(policy, uid),
        |_stored: ()|
            bind(
                commit_dropin_plan(payload, uid),
                |committed: Result<(), TransportIdentityProvisioningError>|
                    match committed {
                        Ok(_) => Plan::Finish(Ok(())),
                        Err(error) => withdraw_plan(
                            Place::Ciphertext,
                            Place::CredentialDirectory,
                            error,
                        ),
                    },
            ),
    )
}

fn store_artifacts(
    replies: &mut Replies<'_>,
    policy: TransportIdentityProvisioningPolicy,
    payload: &[u8],
    uid: u32,
) -> (stored: Result<Result<(), TransportIdentityProvisioningError>, OutsideRequest<Vec<u8>>>)
    requires
        old(replies).wf(),
    ensures
        went_along(
            store_artifacts_plan(policy, payload@, uid),
            *old(replies),
            seen(stored),
            *final(replies),
        ),
{
    broadcast use lemma_follow_bind;

    if let Err(error) = store_ciphertext(replies, policy, uid)? {
        return Ok(Err(error));
    }
    match commit_transport_identity_dropin(replies, payload, uid)? {
        Ok(_) => Ok(Ok(())),
        Err(error) => withdraw(replies, Place::Ciphertext, Place::CredentialDirectory, error),
    }
}

/// Provision the first transport identity under one policy: check the roots, render the binding,
/// check that nothing is there and that the host is able, make the directories, make the key,
/// store the ciphertext and then the binding. The result is the key's identity.
pub open spec fn provision_plan(
    policy: TransportIdentityProvisioningPolicy,
    ciphertext_path: Seq<u8>,
    uid: u32,
) -> HostPlan<Result<TransportIdentity, TransportIdentityProvisioningError>> {
    and_then(
        provisioning_roots_plan(uid),
        |_roots: ()|
            match rendered_dropin(ciphertext_path, policy.tier()) {
                None => Plan::Finish(
                    Err(TransportIdentityProvisioningError::InvalidCredentialBinding),
                ),
                Some(payload) => and_then(
                    preflight_plan(policy),
                    |_able: ()| provision_checked_plan(policy, payload, uid),
                ),
            },
    )
}

/// The part of provisioning that changes the host.
pub open spec fn provision_checked_plan(
    policy: TransportIdentityProvisioningPolicy,
    payload: Seq<u8>,
    uid: u32,
) -> HostPlan<Result<TransportIdentity, TransportIdentityProvisioningError>> {
    and_then(
        credential_directories_plan(uid),
        |_directories: ()|
            and_then(
                generate_key_plan(),
                |identity: TransportIdentity|
                    and_then(
                        store_artifacts_plan(policy, payload, uid),
                        |_stored: ()| Plan::Finish(Ok(identity)),
                    ),
            ),
    )
}

fn provision_checked(
    replies: &mut Replies<'_>,
    policy: TransportIdentityProvisioningPolicy,
    payload: &[u8],
    uid: u32,
) -> (provisioned: Result<
    Result<TransportIdentity, TransportIdentityProvisioningError>,
    OutsideRequest<Vec<u8>>,
>)
    requires
        old(replies).wf(),
    ensures
        went_along(
            provision_checked_plan(policy, payload@, uid),
            *old(replies),
            seen(provisioned),
            *final(replies),
        ),
{
    broadcast use lemma_follow_bind;

    if let Err(error) = prepare_credential_directories(replies, uid)? {
        return Ok(Err(error));
    }
    let identity = match generate_key(replies)? {
        Ok(identity) => identity,
        Err(error) => {
            return Ok(Err(error));
        },
    };
    if let Err(error) = store_artifacts(replies, policy, payload, uid)? {
        return Ok(Err(error));
    }
    Ok(Ok(identity))
}

fn provision(
    replies: &mut Replies<'_>,
    policy: TransportIdentityProvisioningPolicy,
    ciphertext_path: &[u8],
    uid: u32,
) -> (provisioned: Result<
    Result<TransportIdentity, TransportIdentityProvisioningError>,
    OutsideRequest<Vec<u8>>,
>)
    requires
        old(replies).wf(),
    ensures
        went_along(
            provision_plan(policy, ciphertext_path@, uid),
            *old(replies),
            seen(provisioned),
            *final(replies),
        ),
{
    broadcast use lemma_follow_bind;

    if let Err(error) = validate_provisioning_roots(replies, uid)? {
        return Ok(Err(error));
    }
    let payload = match render_transport_identity_dropin(ciphertext_path, policy.custody_tier()) {
        Ok(payload) => payload,
        Err(error) => {
            return Ok(Err(error));
        },
    };
    if let Err(error) = preflight(replies, policy)? {
        return Ok(Err(error));
    }
    provision_checked(replies, policy, payload.as_slice(), uid)
}

/// Where the encrypted credential lies below a state root.
pub open spec fn ciphertext_path_below(state_root: Seq<u8>) -> Seq<u8> {
    joined(state_root, encode_utf8(TRANSPORT_IDENTITY_CIPHERTEXT_RELATIVE_PATH@))
}

/// Where the service binding lies below a config root.
pub open spec fn dropin_path_below(config_root: Seq<u8>) -> Seq<u8> {
    joined(config_root, encode_utf8(TRANSPORT_IDENTITY_DROPIN_RELATIVE_PATH@))
}

/// Provisioning as the environment directs it.
pub open spec fn provision_from_environment(
    policy: TransportIdentityProvisioningPolicy,
    environment: HostEnvironment,
) -> HostPlan<Result<ProvisionedView, TransportIdentityProvisioningError>> {
    match (environment.state_root_path(), environment.config_root_path()) {
        (None, _) => Plan::Finish(Err(TransportIdentityProvisioningError::InvalidStateRoot)),
        (_, None) => Plan::Finish(Err(TransportIdentityProvisioningError::InvalidConfigRoot)),
        (Some(state_root), Some(config_root)) => and_then(
            provision_plan(policy, ciphertext_path_below(state_root), environment.uid),
            |identity: TransportIdentity|
                Plan::Finish(
                    Ok(
                        ProvisionedView {
                            transport_identity: identity@,
                            encrypted_credential_path: ciphertext_path_below(state_root),
                            service_dropin_path: dropin_path_below(config_root),
                        },
                    ),
                ),
        ),
    }
}

/// The progress as the plans see it.
pub open spec fn provisioning_progress(
    progress: Progress<
        OutsideRequest<Vec<u8>>,
        Result<ProvisionedTransportIdentity, TransportIdentityProvisioningError>,
    >,
) -> Progress<OutsideRequest<Seq<u8>>, Result<ProvisionedView, TransportIdentityProvisioningError>> {
    match progress {
        Progress::Done(Ok(provisioned)) => Progress::Done(Ok(provisioned@)),
        Progress::Done(Err(error)) => Progress::Done(Err(error)),
        Progress::Waiting(request) => Progress::Waiting(request@),
    }
}

/// What a provisioning came to, as the plans see it.
pub open spec fn provisioned_view(
    provisioned: Result<ProvisionedTransportIdentity, TransportIdentityProvisioningError>,
) -> Result<ProvisionedView, TransportIdentityProvisioningError> {
    match provisioned {
        Ok(value) => Ok(value@),
        Err(error) => Err(error),
    }
}

/// Provisions under one policy as part of a longer operation.
pub(crate) fn provision_in(
    policy: TransportIdentityProvisioningPolicy,
    environment: &HostEnvironment,
    replies: &mut Replies<'_>,
) -> (outcome: Result<
    Result<ProvisionedTransportIdentity, TransportIdentityProvisioningError>,
    OutsideRequest<Vec<u8>>,
>)
    requires
        old(replies).wf(),
    ensures
        went_along(
            provision_from_environment(policy, *environment),
            *old(replies),
            match outcome {
                Ok(result) => Ok(provisioned_view(result)),
                Err(request) => Err(request@),
            },
            *final(replies),
        ),
{
    broadcast use lemma_follow_bind;

    let state_root = match environment.state_root() {
        Some(path) => path,
        None => {
            return Ok(Err(TransportIdentityProvisioningError::InvalidStateRoot));
        },
    };
    let config_root = match environment.config_root() {
        Some(path) => path,
        None => {
            return Ok(Err(TransportIdentityProvisioningError::InvalidConfigRoot));
        },
    };
    let encrypted_credential_path = join_path(
        state_root.as_slice(),
        TRANSPORT_IDENTITY_CIPHERTEXT_RELATIVE_PATH,
    );
    let service_dropin_path = join_path(
        config_root.as_slice(),
        TRANSPORT_IDENTITY_DROPIN_RELATIVE_PATH,
    );
    match provision(replies, policy, encrypted_credential_path.as_slice(), environment.uid)? {
        Err(error) => Ok(Err(error)),
        Ok(transport_identity) => Ok(
            Ok(
                ProvisionedTransportIdentity {
                    transport_identity,
                    encrypted_credential_path,
                    service_dropin_path,
                },
            ),
        ),
    }
}

/// Provisions the first transport identity under one policy, as far as the replies go.
pub fn provision_first_ubuntu_transport_identity_for_policy(
    policy: TransportIdentityProvisioningPolicy,
    environment: &HostEnvironment,
    replies: &Vec<OutsideReply<Vec<u8>>>,
) -> (progress: Progress<
    OutsideRequest<Vec<u8>>,
    Result<ProvisionedTransportIdentity, TransportIdentityProvisioningError>,
>)
    ensures
        provisioning_progress(progress) == follow(
            provision_from_environment(policy, *environment),
            reply_views(replies@),
        ).0,
{
    let mut cursor = Replies::new(replies);
    match provision_in(policy, environment, &mut cursor) {
        Ok(result) => Progress::Done(result),
        Err(request) => Progress::Waiting(request),
    }
}

/// Provisions under the preferred policy, and never under the other.
pub fn provision_first_ubuntu_transport_identity_preferred(
    environment: &HostEnvironment,
    replies: &Vec<OutsideReply<Vec<u8>>>,
) -> (progress: Progress<
    OutsideRequest<Vec<u8>>,
    Result<ProvisionedTransportIdentity, TransportIdentityProvisioningError>,
>)
    ensures
        provisioning_progress(progress) == follow(
            provision_from_environment(
                TransportIdentityProvisioningPolicy::Preferred,
                *environment,
            ),
            reply_views(replies@),
        ).0,
{
    provision_first_ubuntu_transport_identity_for_policy(
        TransportIdentityProvisioningPolicy::Preferred,
        environment,
        replies,
    )
}

/// Provisions under the explicit host-key-only policy, and never under the other.
pub fn provision_first_ubuntu_transport_identity_host_key_only(
    environment: &HostEnvironment,
    replies: &Vec<OutsideReply<Vec<u8>>>,
) -> (progress: Progress<
    OutsideRequest<Vec<u8>>,
    Result<ProvisionedTransportIdentity, TransportIdentityProvisioningError>,
>)
    ensures
        provisioning_progress(progress) == follow(
            provision_from_environment(
                TransportIdentityProvisioningPolicy::HostKeyOnly,
                *environment,
            ),
            reply_views(replies@),
        ).0,
{
    provision_first_ubuntu_transport_identity_for_policy(
        TransportIdentityProvisioningPolicy::HostKeyOnly,
        environment,
        replies,
    )
}

} // verus!
