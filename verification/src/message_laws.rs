//! How errors are worded for people, and that an error which has a cause ends with it.
use vstd::prelude::*;

use crate::durable_registry_sqlite_custody::DurableRegistrySqliteCustodyError;
use crate::durable_registry_sqlite_store::DurableRegistrySqliteOpenError;
use crate::native_traversal::error::TraversalError;
use crate::owner_established_startup_authority::OwnerEstablishedStartupAuthorityError;
use crate::owner_first_run_orchestration::OwnerFirstRunOrchestrationError;
use crate::owner_first_run_setup_intent::OwnerFirstRunSetupIntentError;
use crate::owner_first_setup_bootstrap_inputs::OwnerFirstSetupBootstrapInputError;
use crate::owner_first_setup_local_authority_bootstrap_execution::OwnerFirstSetupLocalAuthorityBootstrapError;
use crate::owner_first_setup_retry_call_site_composition::OwnerFirstSetupRetryCallSiteError;
use crate::owner_first_setup_transport_identity_recovery::OwnerFirstSetupTransportIdentityRecoveryError;
use crate::owner_startup_state_dispatch::OwnerStartupStateDispatchError;
use crate::transport_identity_custody::UbuntuTransportIdentityCustodyError;
use crate::transport_identity_provisioning::{
    TransportIdentityProvisioningError, TransportIdentityRecoveryError,
};

verus! {

/// How `DurableRegistrySqliteCustodyError` is worded.
pub proof fn durable_registry_sqlite_custody_error_is_worded(error: DurableRegistrySqliteCustodyError)
    ensures
        error.text() == (match error {
            DurableRegistrySqliteCustodyError::InvalidStateRoot =>
                "invalid local authority state root"@,
            DurableRegistrySqliteCustodyError::InsecureStateRoot =>
                "insecure local authority state root"@,
            DurableRegistrySqliteCustodyError::InsecureApplicationDirectory =>
                "insecure local authority application directory"@,
            DurableRegistrySqliteCustodyError::InsecureDatabaseDirectory =>
                "insecure local authority database directory"@,
            DurableRegistrySqliteCustodyError::DirectoryCreationFailed =>
                "local authority directory creation failed"@,
            DurableRegistrySqliteCustodyError::InsecureDatabaseFile =>
                "insecure local authority database file"@,
            DurableRegistrySqliteCustodyError::AuthorityOpenFailed =>
                "local authority database open failed"@,
        }),
{
}

/// How `DurableRegistrySqliteOpenError` is worded.
pub proof fn durable_registry_sqlite_open_error_is_worded(error: DurableRegistrySqliteOpenError)
    ensures
        error.text() == (match error {
            DurableRegistrySqliteOpenError::Open => "local registry database open failed"@,
            DurableRegistrySqliteOpenError::Configure =>
                "local registry database configuration failed"@,
            DurableRegistrySqliteOpenError::Migration =>
                "local registry database migration failed"@,
            DurableRegistrySqliteOpenError::UnsupportedSchemaVersion =>
                "local registry database schema version unsupported"@,
        }),
{
}

/// How `TraversalError` is worded.
pub proof fn traversal_error_is_worded(error: TraversalError)
    ensures
        error.text() == (match error {
            TraversalError::InvalidPacketLength => "probe packet length is invalid"@,
            TraversalError::InvalidPacketMagic => "probe packet magic is invalid"@,
            TraversalError::UnsupportedProbeVersion => "probe packet version is unsupported"@,
            TraversalError::UnsupportedProbeType => "probe packet message type is unsupported"@,
            TraversalError::UnsupportedProbeFlags => "probe packet flags are unsupported"@,
            TraversalError::RoutingTagRotationInProgress =>
                "routing tag rotation is already in progress"@,
            TraversalError::RoutingTagRotationMissing =>
                "routing tag rotation has no pending replacement"@,
            TraversalError::RoutingTagRotationMismatch =>
                "routing tag acknowledgement does not match pending state"@,
            TraversalError::RoutingTagAlreadyKnown => "routing tag replacement is already known"@,
            TraversalError::RoutingTagRevoked => "routing tag state is revoked"@,
            TraversalError::DuplicateOutstandingNonce => "probe nonce is already outstanding"@,
            TraversalError::OutstandingProbeCapacity =>
                "outstanding probe nonce capacity exceeded"@,
            TraversalError::RelayCandidateUnsupported =>
                "native traversal does not support relay candidates"@,
            TraversalError::InvalidStateTransition =>
                "native traversal state transition is invalid"@,
            TraversalError::Connectivity(cause) => "connectivity update failed: "@ + cause.text(),
        }),
{
}

/// How `OwnerEstablishedStartupAuthorityError` is worded.
pub proof fn owner_established_startup_authority_error_is_worded(error: OwnerEstablishedStartupAuthorityError)
    ensures
        error.text() == (match error {
            OwnerEstablishedStartupAuthorityError::OwnerIdentity(cause) =>
                "established owner identity validation failed: "@ + cause.text(),
            OwnerEstablishedStartupAuthorityError::TransportIdentity(cause) =>
                "established transport custody validation failed: "@ + cause.text(),
            OwnerEstablishedStartupAuthorityError::DatabaseCustody(cause) =>
                "established SQLite custody validation failed: "@ + cause.text(),
            OwnerEstablishedStartupAuthorityError::AuthorityRead(cause) =>
                "established SQLite authority read failed: "@ + cause.text(),
            OwnerEstablishedStartupAuthorityError::OwnerMembershipMissing =>
                "established owner membership is missing"@,
            OwnerEstablishedStartupAuthorityError::OwnerMembershipNotCurrent =>
                "established owner membership is not current"@,
            OwnerEstablishedStartupAuthorityError::OwnerDeviceMissing =>
                "established owner device is missing"@,
            OwnerEstablishedStartupAuthorityError::OwnerDeviceNotCurrent =>
                "established owner device is not current"@,
        }),
{
}

/// How `OwnerFirstRunOrchestrationError` is worded.
pub proof fn owner_first_run_orchestration_error_is_worded(error: OwnerFirstRunOrchestrationError)
    ensures
        error.text() == (match error {
            OwnerFirstRunOrchestrationError::SetupIntent(cause) =>
                "owner first-run setup-intent load failed: "@ + cause.text(),
            OwnerFirstRunOrchestrationError::SetupIntentRetirement(cause) =>
                "owner first-run setup-intent retirement failed: "@ + cause.text(),
            OwnerFirstRunOrchestrationError::OwnerIdentity(cause) =>
                "owner logical identity orchestration failed: "@ + cause.text(),
            OwnerFirstRunOrchestrationError::LocalAuthority(cause) =>
                "owner local authority orchestration failed: "@ + cause.text(),
        }),
{
}

/// How `OwnerFirstRunSetupIntentError` is worded.
pub proof fn owner_first_run_setup_intent_error_is_worded(error: OwnerFirstRunSetupIntentError)
    ensures
        error.text() == (match error {
            OwnerFirstRunSetupIntentError::InvalidStateRoot =>
                "owner first-run setup-intent state root invalid"@,
            OwnerFirstRunSetupIntentError::InsecureStateRoot =>
                "owner first-run setup-intent state root insecure"@,
            OwnerFirstRunSetupIntentError::InsecureApplicationDirectory =>
                "owner first-run setup-intent application directory insecure"@,
            OwnerFirstRunSetupIntentError::InsecureSetupDirectory =>
                "owner first-run setup-intent directory insecure"@,
            OwnerFirstRunSetupIntentError::IntentRecordUnavailable =>
                "owner first-run setup-intent record unavailable"@,
            OwnerFirstRunSetupIntentError::IntentRecordInsecure =>
                "owner first-run setup-intent record insecure"@,
            OwnerFirstRunSetupIntentError::IntentRecordReadFailed =>
                "owner first-run setup-intent record read failed"@,
            OwnerFirstRunSetupIntentError::MalformedIntentRecord =>
                "owner first-run setup-intent record malformed"@,
            OwnerFirstRunSetupIntentError::DirectoryCreationFailed =>
                "owner first-run setup-intent directory creation failed"@,
            OwnerFirstRunSetupIntentError::IntentRecordWriteFailed =>
                "owner first-run setup-intent record write failed"@,
            OwnerFirstRunSetupIntentError::ConflictingIntentRecord =>
                "owner first-run setup-intent record conflicts with requested selection"@,
            OwnerFirstRunSetupIntentError::IntentRecordCommitFailed =>
                "owner first-run setup-intent record commit failed"@,
            OwnerFirstRunSetupIntentError::IntentRecordRetirementFailed =>
                "owner first-run setup-intent record retirement failed"@,
            OwnerFirstRunSetupIntentError::DirectorySyncFailed =>
                "owner first-run setup-intent directory sync failed"@,
        }),
{
}

/// How `OwnerFirstSetupBootstrapInputError` is worded.
pub proof fn owner_first_setup_bootstrap_input_error_is_worded(error: OwnerFirstSetupBootstrapInputError)
    ensures
        error.text() == (match error {
            OwnerFirstSetupBootstrapInputError::RandomUnavailable =>
                "owner identity randomness unavailable"@,
            OwnerFirstSetupBootstrapInputError::MalformedLogicalIdentityRecord =>
                "owner logical identity record malformed"@,
            OwnerFirstSetupBootstrapInputError::InvalidStateRoot =>
                "owner bootstrap state root invalid"@,
            OwnerFirstSetupBootstrapInputError::InsecureStateRoot =>
                "owner bootstrap state root insecure"@,
            OwnerFirstSetupBootstrapInputError::InsecureApplicationDirectory =>
                "owner bootstrap application directory insecure"@,
            OwnerFirstSetupBootstrapInputError::InsecureBootstrapDirectory =>
                "owner bootstrap directory insecure"@,
            OwnerFirstSetupBootstrapInputError::LogicalIdentityRecordUnavailable =>
                "owner logical identity record unavailable"@,
            OwnerFirstSetupBootstrapInputError::LogicalIdentityRecordInsecure =>
                "owner logical identity record insecure"@,
            OwnerFirstSetupBootstrapInputError::LogicalIdentityRecordReadFailed =>
                "owner logical identity record read failed"@,
            OwnerFirstSetupBootstrapInputError::DirectoryCreationFailed =>
                "owner logical identity directory creation failed"@,
            OwnerFirstSetupBootstrapInputError::LogicalIdentityRecordWriteFailed =>
                "owner logical identity record write failed"@,
            OwnerFirstSetupBootstrapInputError::LogicalIdentityRecordCommitFailed =>
                "owner logical identity record commit failed"@,
            OwnerFirstSetupBootstrapInputError::DirectorySyncFailed =>
                "owner logical identity directory sync failed"@,
            OwnerFirstSetupBootstrapInputError::DeviceIdentityCustody(cause) =>
                "device identity custody failed: "@ + cause.text(),
            OwnerFirstSetupBootstrapInputError::TransportIdentityCustody(cause) =>
                "transport identity custody failed: "@ + cause.text(),
        }),
{
}

/// How `OwnerFirstSetupLocalAuthorityBootstrapError` is worded.
pub proof fn owner_first_setup_local_authority_bootstrap_error_is_worded(error: OwnerFirstSetupLocalAuthorityBootstrapError)
    ensures
        error.text() == (match error {
            OwnerFirstSetupLocalAuthorityBootstrapError::BootstrapInputs(cause) =>
                "owner bootstrap input execution failed: "@ + cause.text(),
            OwnerFirstSetupLocalAuthorityBootstrapError::DatabaseCustody(cause) =>
                "owner SQLite authority custody failed: "@ + cause.text(),
            OwnerFirstSetupLocalAuthorityBootstrapError::AuthorityBootstrap(cause) =>
                "owner SQLite authority bootstrap failed: "@ + cause.text(),
        }),
{
}

/// How `OwnerFirstSetupRetryCallSiteError` is worded.
pub proof fn owner_first_setup_retry_call_site_error_is_worded(error: OwnerFirstSetupRetryCallSiteError)
    ensures
        error.text() == (match error {
            OwnerFirstSetupRetryCallSiteError::OwnerIdentity(cause) =>
                "owner logical identity retry validation failed: "@ + cause.text(),
            OwnerFirstSetupRetryCallSiteError::OwnerIdentityMismatch =>
                "first-time-setup retry plan does not match owner identity"@,
            OwnerFirstSetupRetryCallSiteError::StateInspection(cause) =>
                "transport custody retry-state inspection failed: "@ + cause.text(),
            OwnerFirstSetupRetryCallSiteError::Provisioning(cause) =>
                "first-time transport provisioning failed: "@ + cause.text(),
            OwnerFirstSetupRetryCallSiteError::Recovery(cause) =>
                "established transport recovery failed: "@ + cause.text(),
        }),
{
}

/// How `OwnerFirstSetupTransportIdentityRecoveryError` is worded.
pub proof fn owner_first_setup_transport_identity_recovery_error_is_worded(error: OwnerFirstSetupTransportIdentityRecoveryError)
    ensures
        error.text() == (match error {
            OwnerFirstSetupTransportIdentityRecoveryError::OwnerIdentity(cause) =>
                "owner logical identity recovery failed: "@ + cause.text(),
            OwnerFirstSetupTransportIdentityRecoveryError::OwnerIdentityMismatch =>
                "first-time-setup plan does not match owner logical identity"@,
            OwnerFirstSetupTransportIdentityRecoveryError::TransportIdentity(cause) =>
                "transport identity recovery failed: "@ + cause.text(),
        }),
{
}

/// How `OwnerStartupStateDispatchError` is worded.
pub proof fn owner_startup_state_dispatch_error_is_worded(error: OwnerStartupStateDispatchError)
    ensures
        error.text() == (match error {
            OwnerStartupStateDispatchError::SetupIntentClassification(cause) =>
                "startup setup-intent classification failed: "@ + cause.text(),
            OwnerStartupStateDispatchError::FirstRun(cause) =>
                "startup first-run completion failed: "@ + cause.text(),
            OwnerStartupStateDispatchError::EstablishedRestart(cause) =>
                "startup established-restart proof failed: "@ + cause.text(),
        }),
{
}

/// How `UbuntuTransportIdentityCustodyError` is worded.
pub proof fn ubuntu_transport_identity_custody_error_is_worded(error: UbuntuTransportIdentityCustodyError)
    ensures
        error.text() == (match error {
            UbuntuTransportIdentityCustodyError::UnsupportedPlatform =>
                "unsupported transport identity custody platform"@,
            UbuntuTransportIdentityCustodyError::CredentialsDirectoryMissing =>
                "systemd transport credential directory is unavailable"@,
            UbuntuTransportIdentityCustodyError::CredentialsDirectoryInvalid =>
                "systemd transport credential directory is invalid"@,
            UbuntuTransportIdentityCustodyError::CredentialsDirectoryNotSecure =>
                "systemd transport credential directory is not secure"@,
            UbuntuTransportIdentityCustodyError::CredentialUnavailable =>
                "transport identity credential is unavailable"@,
            UbuntuTransportIdentityCustodyError::CredentialNotRegular =>
                "transport identity credential is not a regular file"@,
            UbuntuTransportIdentityCustodyError::CredentialOwnershipMismatch =>
                "transport identity credential ownership mismatch"@,
            UbuntuTransportIdentityCustodyError::CredentialPermissionsInsecure =>
                "transport identity credential permissions are insecure"@,
            UbuntuTransportIdentityCustodyError::CredentialReadFailed =>
                "transport identity credential read failed"@,
            UbuntuTransportIdentityCustodyError::CredentialSizeOutOfBounds =>
                "transport identity credential out of bounds"@,
            UbuntuTransportIdentityCustodyError::InvalidPrivateCredential =>
                "invalid transport identity private credential"@,
            UbuntuTransportIdentityCustodyError::PublicIdentityDerivationFailed =>
                "transport public identity derivation failed"@,
            UbuntuTransportIdentityCustodyError::InvalidTransportIdentity =>
                "derived transport identity is invalid"@,
        }),
{
}

/// How `TransportIdentityProvisioningError` is worded.
pub proof fn transport_identity_provisioning_error_is_worded(error: TransportIdentityProvisioningError)
    ensures
        error.text() == (match error {
            TransportIdentityProvisioningError::InvalidStateRoot =>
                "invalid transport identity state root"@,
            TransportIdentityProvisioningError::InvalidConfigRoot =>
                "invalid transport identity config root"@,
            TransportIdentityProvisioningError::InsecureDirectory =>
                "insecure transport identity directory"@,
            TransportIdentityProvisioningError::AlreadyProvisioned =>
                "transport identity is already provisioned"@,
            TransportIdentityProvisioningError::DirectoryCreationFailed =>
                "transport identity directory creation failed"@,
            TransportIdentityProvisioningError::SystemdCredsUnavailable =>
                "systemd-creds is unavailable or insecure"@,
            TransportIdentityProvisioningError::SystemdAnalyzeUnavailable =>
                "systemd-analyze is unavailable or insecure"@,
            TransportIdentityProvisioningError::Tpm2Unavailable =>
                "usable TPM2 was not proven before transport key generation"@,
            TransportIdentityProvisioningError::HostKeyOnlyFallbackForbidden =>
                "host-key-only fallback is forbidden while usable TPM2 is available"@,
            TransportIdentityProvisioningError::HostSecretUnavailable =>
                "systemd host credential secret is unavailable before transport key generation"@,
            TransportIdentityProvisioningError::HostSecretInsecure =>
                "systemd host credential secret is insecure"@,
            TransportIdentityProvisioningError::KeyGenerationFailed =>
                "transport identity key generation failed"@,
            TransportIdentityProvisioningError::GeneratedIdentityInvalid =>
                "generated transport identity failed validation"@,
            TransportIdentityProvisioningError::CredentialEncryptionFailed =>
                "transport identity credential encryption failed"@,
            TransportIdentityProvisioningError::EncryptedCredentialOutOfBounds =>
                "encrypted transport identity credential out of bounds"@,
            TransportIdentityProvisioningError::CiphertextWriteFailed =>
                "encrypted transport identity persistence failed"@,
            TransportIdentityProvisioningError::CiphertextCommitFailed =>
                "encrypted transport identity commit failed"@,
            TransportIdentityProvisioningError::InvalidCredentialBinding =>
                "invalid transport identity credential binding"@,
            TransportIdentityProvisioningError::DropinWriteFailed =>
                "transport identity credential drop-in persistence failed"@,
            TransportIdentityProvisioningError::DropinCommitFailed =>
                "transport identity credential drop-in commit failed"@,
            TransportIdentityProvisioningError::DirectorySyncFailed =>
                "transport identity directory sync failed"@,
        }),
{
}

/// How `TransportIdentityRecoveryError` is worded.
pub proof fn transport_identity_recovery_error_is_worded(error: TransportIdentityRecoveryError)
    ensures
        error.text() == (match error {
            TransportIdentityRecoveryError::InvalidStateRoot =>
                "invalid transport identity recovery state root"@,
            TransportIdentityRecoveryError::InvalidConfigRoot =>
                "invalid transport identity recovery config root"@,
            TransportIdentityRecoveryError::InsecureDirectory =>
                "insecure transport identity recovery directory"@,
            TransportIdentityRecoveryError::PartialState =>
                "transport identity custody is only partially established"@,
            TransportIdentityRecoveryError::CiphertextUnavailable =>
                "encrypted transport identity credential unavailable"@,
            TransportIdentityRecoveryError::CiphertextInsecure =>
                "encrypted transport identity credential insecure"@,
            TransportIdentityRecoveryError::DropinUnavailable =>
                "transport identity credential binding unavailable"@,
            TransportIdentityRecoveryError::DropinInsecure =>
                "transport identity credential binding insecure"@,
            TransportIdentityRecoveryError::CustodyPolicyMismatch =>
                "established transport identity custody policy does not match setup selection"@,
            TransportIdentityRecoveryError::SystemdCredsUnavailable =>
                "systemd-creds is unavailable or insecure"@,
            TransportIdentityRecoveryError::CredentialDecryptionFailed =>
                "established transport identity credential decryption failed"@,
            TransportIdentityRecoveryError::DecryptedCredentialOutOfBounds =>
                "decrypted transport identity credential out of bounds"@,
            TransportIdentityRecoveryError::InvalidPrivateCredential =>
                "recovered transport identity private credential is invalid"@,
        }),
{
}

} // verus!
