//! Custody of the dedicated transport key on a running service.
//!
//! The key arrives as a systemd credential. It is accepted only as canonical P-256 PKCS#8 v1 DER,
//! and only its public fingerprint, the [`TransportIdentity`], leaves this module.
use aws_lc_rs::digest::{digest, SHA256};
use aws_lc_rs::encoding::AsDer;
use aws_lc_rs::signature::{EcdsaKeyPair, KeyPair, ECDSA_P256_SHA256_ASN1_SIGNING};
use vstd::prelude::*;

use crate::bytes::{copy_bytes, same_bytes};
use crate::custody::{is_same_object, same_object, GROUP_AND_WORLD_WRITE_BITS};
use crate::domain::{all_zero, TransportIdentity};
use crate::environment::HostEnvironment;
use crate::outside::{
    look_up, look_up_opened, obtain, perform, reply_views, went_along, FileMetadata, HostPlan,
    Lookup, OutsideReply, OutsideRequest, Place, Replies,
};
use crate::paths::{is_absolute_path, path_is_absolute, path_view};
use crate::plan::{bind, follow, lemma_follow_bind, Plan, Progress};

verus! {

/// Exact systemd service-visible transport private-key credential name.
pub const SYSTEMD_TRANSPORT_IDENTITY_CREDENTIAL_NAME: &'static str =
    "prw.transport-identity.private-key.v1";

/// Environment variable through which systemd exposes service credentials.
pub const SYSTEMD_CREDENTIALS_DIRECTORY_ENV: &'static str = "CREDENTIALS_DIRECTORY";

/// Maximum accepted plaintext transport-identity PKCS#8 credential size.
pub const MAX_UBUNTU_TRANSPORT_IDENTITY_PKCS8_BYTES: usize = 4096;

pub const EXECUTE_BITS: u32 = 0o111;

pub const OWNER_READ_BIT: u32 = 0o400;

pub const OWNER_DIRECTORY_ACCESS_BITS: u32 = 0o500;

/// Failure while loading or deriving the local Ubuntu transport identity.
#[derive(Clone, Copy, PartialEq, Eq, Structural, Debug)]
pub enum UbuntuTransportIdentityCustodyError {
    /// This adapter is available only on Linux hosts.
    UnsupportedPlatform,
    /// systemd did not provide a credential-directory environment value.
    CredentialsDirectoryMissing,
    /// The supplied credential-directory value was not an absolute valid directory.
    CredentialsDirectoryInvalid,
    /// The credential directory violated the owner and permission boundary.
    CredentialsDirectoryNotSecure,
    /// The exact credential was absent or could not be opened safely.
    CredentialUnavailable,
    /// The exact credential path was not one stable regular file.
    CredentialNotRegular,
    /// The credential was not owned by the effective service user.
    CredentialOwnershipMismatch,
    /// Credential permissions violated the runtime boundary.
    CredentialPermissionsInsecure,
    /// The bounded credential read failed.
    CredentialReadFailed,
    /// The credential was empty or exceeded the size bound.
    CredentialSizeOutOfBounds,
    /// The credential was not canonical P-256 PKCS#8 v1 DER.
    InvalidPrivateCredential,
    /// The provider could not derive canonical public SPKI.
    PublicIdentityDerivationFailed,
    /// The derived SPKI digest was no transport identity.
    InvalidTransportIdentity,
}

impl UbuntuTransportIdentityCustodyError {
    /// The text shown to people for this error.
    pub open spec fn text(self) -> Seq<char> {
        match self {
            UbuntuTransportIdentityCustodyError::UnsupportedPlatform => "unsupported transport identity custody platform"@,
            UbuntuTransportIdentityCustodyError::CredentialsDirectoryMissing => "systemd transport credential directory is unavailable"@,
            UbuntuTransportIdentityCustodyError::CredentialsDirectoryInvalid => "systemd transport credential directory is invalid"@,
            UbuntuTransportIdentityCustodyError::CredentialsDirectoryNotSecure => "systemd transport credential directory is not secure"@,
            UbuntuTransportIdentityCustodyError::CredentialUnavailable => "transport identity credential is unavailable"@,
            UbuntuTransportIdentityCustodyError::CredentialNotRegular => "transport identity credential is not a regular file"@,
            UbuntuTransportIdentityCustodyError::CredentialOwnershipMismatch => "transport identity credential ownership mismatch"@,
            UbuntuTransportIdentityCustodyError::CredentialPermissionsInsecure => "transport identity credential permissions are insecure"@,
            UbuntuTransportIdentityCustodyError::CredentialReadFailed => "transport identity credential read failed"@,
            UbuntuTransportIdentityCustodyError::CredentialSizeOutOfBounds => "transport identity credential out of bounds"@,
            UbuntuTransportIdentityCustodyError::InvalidPrivateCredential => "invalid transport identity private credential"@,
            UbuntuTransportIdentityCustodyError::PublicIdentityDerivationFailed => "transport public identity derivation failed"@,
            UbuntuTransportIdentityCustodyError::InvalidTransportIdentity => "derived transport identity is invalid"@,
        }
    }

    pub fn message(&self) -> (text: &'static str)
        ensures
            text@ == self.text(),
    {
        match self {
            UbuntuTransportIdentityCustodyError::UnsupportedPlatform => "unsupported transport identity custody platform",
            UbuntuTransportIdentityCustodyError::CredentialsDirectoryMissing => "systemd transport credential directory is unavailable",
            UbuntuTransportIdentityCustodyError::CredentialsDirectoryInvalid => "systemd transport credential directory is invalid",
            UbuntuTransportIdentityCustodyError::CredentialsDirectoryNotSecure => "systemd transport credential directory is not secure",
            UbuntuTransportIdentityCustodyError::CredentialUnavailable => "transport identity credential is unavailable",
            UbuntuTransportIdentityCustodyError::CredentialNotRegular => "transport identity credential is not a regular file",
            UbuntuTransportIdentityCustodyError::CredentialOwnershipMismatch => "transport identity credential ownership mismatch",
            UbuntuTransportIdentityCustodyError::CredentialPermissionsInsecure => "transport identity credential permissions are insecure",
            UbuntuTransportIdentityCustodyError::CredentialReadFailed => "transport identity credential read failed",
            UbuntuTransportIdentityCustodyError::CredentialSizeOutOfBounds => "transport identity credential out of bounds",
            UbuntuTransportIdentityCustodyError::InvalidPrivateCredential => "invalid transport identity private credential",
            UbuntuTransportIdentityCustodyError::PublicIdentityDerivationFailed => "transport public identity derivation failed",
            UbuntuTransportIdentityCustodyError::InvalidTransportIdentity => "derived transport identity is invalid",
        }
    }
}

/// The PKCS#8 v1 encoding of the P-256 key that the bytes encode, if they encode one.
pub uninterp spec fn p256_pkcs8_v1(credential: Seq<u8>) -> Option<Seq<u8>>;

/// The SubjectPublicKeyInfo encoding of the public half of the P-256 key that the bytes encode,
/// if they encode one.
pub uninterp spec fn p256_public_spki(credential: Seq<u8>) -> Option<Seq<u8>>;

/// The SHA-256 digest of the bytes.
pub uninterp spec fn sha256(data: Seq<u8>) -> Seq<u8>;

/// Parses the key with `EcdsaKeyPair::from_pkcs8` and encodes it again with
/// `EcdsaKeyPair::to_pkcs8v1`; `None` when either fails. Claimed: the answer depends on the
/// bytes alone.
#[verifier::external_body]
fn reencode_p256_pkcs8_v1(credential: &[u8]) -> (encoded: Option<Vec<u8>>)
    ensures
        path_view(encoded) == p256_pkcs8_v1(credential@),
{
    let key_pair = EcdsaKeyPair::from_pkcs8(&ECDSA_P256_SHA256_ASN1_SIGNING, credential).ok()?;
    key_pair.to_pkcs8v1().ok().map(|document| document.as_ref().to_vec())
}

/// Parses the key with `EcdsaKeyPair::from_pkcs8` and encodes its public half with
/// `PublicKey::as_der`; `None` when either fails. Claimed: the answer depends on the bytes
/// alone.
#[verifier::external_body]
fn encode_p256_public_spki(credential: &[u8]) -> (encoded: Option<Vec<u8>>)
    ensures
        path_view(encoded) == p256_public_spki(credential@),
{
    let key_pair = EcdsaKeyPair::from_pkcs8(&ECDSA_P256_SHA256_ASN1_SIGNING, credential).ok()?;
    key_pair.public_key().as_der().ok().map(|der| der.as_ref().to_vec())
}

/// Calls `aws_lc_rs::digest::digest` with SHA-256. Claimed: the 32 bytes depend on the data
/// alone.
#[verifier::external_body]
fn digest_sha256(data: &[u8]) -> (fingerprint: [u8; 32])
    ensures
        fingerprint@ == sha256(data@),
{
    let mut fingerprint = [0_u8; 32];
    fingerprint.copy_from_slice(digest(&SHA256, data).as_ref());
    fingerprint
}

/// The bytes of an identity, or the error.
pub open spec fn identity_bytes<E>(identity: Result<TransportIdentity, E>) -> Result<Seq<u8>, E> {
    match identity {
        Ok(value) => Ok(value@),
        Err(error) => Err(error),
    }
}

/// Whether a credential has an acceptable size.
pub open spec fn credential_size_allowed(len: int) -> bool {
    0 < len <= MAX_UBUNTU_TRANSPORT_IDENTITY_PKCS8_BYTES
}

/// The identity that a credential stands for: it has an allowed size, it is its own canonical
/// encoding, and its public fingerprint exists and is not zero.
pub open spec fn judged_identity(
    credential: Seq<u8>,
    canonical: Option<Seq<u8>>,
    fingerprint: Option<Seq<u8>>,
) -> Result<Seq<u8>, UbuntuTransportIdentityCustodyError> {
    if !credential_size_allowed(credential.len() as int) {
        Err(UbuntuTransportIdentityCustodyError::CredentialSizeOutOfBounds)
    } else if canonical != Some(credential) {
        Err(UbuntuTransportIdentityCustodyError::InvalidPrivateCredential)
    } else {
        match fingerprint {
            None => Err(UbuntuTransportIdentityCustodyError::PublicIdentityDerivationFailed),
            Some(value) => if all_zero(value) {
                Err(UbuntuTransportIdentityCustodyError::InvalidTransportIdentity)
            } else {
                Ok(value)
            },
        }
    }
}

/// Judges a credential by its canonical encoding and the fingerprint of its public key.
pub fn judge_transport_credential(
    credential: &[u8],
    canonical: Option<Vec<u8>>,
    fingerprint: Option<[u8; 32]>,
) -> (identity: Result<TransportIdentity, UbuntuTransportIdentityCustodyError>)
    ensures
        identity_bytes(identity) == judged_identity(
            credential@,
            path_view(canonical),
            match fingerprint {
                Some(value) => Some(value@),
                None => None,
            },
        ),
{
    if credential.len() == 0 || credential.len() > MAX_UBUNTU_TRANSPORT_IDENTITY_PKCS8_BYTES {
        return Err(UbuntuTransportIdentityCustodyError::CredentialSizeOutOfBounds);
    }
    match canonical {
        None => {
            return Err(UbuntuTransportIdentityCustodyError::InvalidPrivateCredential);
        },
        Some(encoded) => {
            if !same_bytes(encoded.as_slice(), credential) {
                return Err(UbuntuTransportIdentityCustodyError::InvalidPrivateCredential);
            }
        },
    }
    match fingerprint {
        None => Err(UbuntuTransportIdentityCustodyError::PublicIdentityDerivationFailed),
        Some(value) => match TransportIdentity::new(value) {
            Ok(identity) => Ok(identity),
            Err(_) => Err(UbuntuTransportIdentityCustodyError::InvalidTransportIdentity),
        },
    }
}

/// The identity of a canonical P-256 PKCS#8 v1 credential: the SHA-256 digest of its public key
/// as SubjectPublicKeyInfo.
pub open spec fn derived_identity(credential: Seq<u8>) -> Result<
    Seq<u8>,
    UbuntuTransportIdentityCustodyError,
> {
    judged_identity(
        credential,
        p256_pkcs8_v1(credential),
        match p256_public_spki(credential) {
            Some(spki) => Some(sha256(spki)),
            None => None,
        },
    )
}

/// Derives the [`TransportIdentity`] from one canonical P-256 PKCS#8 v1 DER credential. The
/// credential is only borrowed; nothing of the private key is kept or returned.
pub fn derive_transport_identity_from_pkcs8_v1_der(credential: &[u8]) -> (identity: Result<
    TransportIdentity,
    UbuntuTransportIdentityCustodyError,
>)
    ensures
        identity_bytes(identity) == derived_identity(credential@),
{
    if credential.len() == 0 || credential.len() > MAX_UBUNTU_TRANSPORT_IDENTITY_PKCS8_BYTES {
        return Err(UbuntuTransportIdentityCustodyError::CredentialSizeOutOfBounds);
    }
    let canonical = reencode_p256_pkcs8_v1(credential);
    let fingerprint = match encode_p256_public_spki(credential) {
        Some(spki) => Some(digest_sha256(spki.as_slice())),
        None => None,
    };
    judge_transport_credential(credential, canonical, fingerprint)
}

/// The credential directory that the environment names: present, not empty and absolute.
pub fn credentials_directory_from_value(value: Option<Vec<u8>>) -> (directory: Result<
    Vec<u8>,
    UbuntuTransportIdentityCustodyError,
>)
    ensures
        match directory {
            Ok(path) => value is Some && path@ == value->0@ && is_absolute_path(value->0@),
            Err(error) => if value is None || value->0@.len() == 0 {
                error == UbuntuTransportIdentityCustodyError::CredentialsDirectoryMissing
            } else {
                error == UbuntuTransportIdentityCustodyError::CredentialsDirectoryInvalid
                    && !is_absolute_path(value->0@)
            },
        },
{
    match value {
        None => Err(UbuntuTransportIdentityCustodyError::CredentialsDirectoryMissing),
        Some(path) => {
            if path.len() == 0 {
                return Err(UbuntuTransportIdentityCustodyError::CredentialsDirectoryMissing);
            }
            if !path_is_absolute(path.as_slice()) {
                return Err(UbuntuTransportIdentityCustodyError::CredentialsDirectoryInvalid);
            }
            Ok(path)
        },
    }
}

/// What is wrong with the credential directory, if anything.
pub open spec fn directory_verdict(found: Lookup, uid: u32) -> Result<
    (),
    UbuntuTransportIdentityCustodyError,
> {
    match found {
        Lookup::Missing => Err(UbuntuTransportIdentityCustodyError::CredentialsDirectoryMissing),
        Lookup::Unreadable => Err(UbuntuTransportIdentityCustodyError::CredentialsDirectoryInvalid),
        Lookup::Found(metadata) => if metadata.is_symlink || !metadata.is_dir {
            Err(UbuntuTransportIdentityCustodyError::CredentialsDirectoryInvalid)
        } else if metadata.uid != uid || metadata.mode & GROUP_AND_WORLD_WRITE_BITS != 0
            || metadata.mode & OWNER_DIRECTORY_ACCESS_BITS != OWNER_DIRECTORY_ACCESS_BITS {
            Err(UbuntuTransportIdentityCustodyError::CredentialsDirectoryNotSecure)
        } else {
            Ok(())
        },
    }
}

pub fn validate_credentials_directory(found: &Lookup, uid: u32) -> (verdict: Result<
    (),
    UbuntuTransportIdentityCustodyError,
>)
    ensures
        verdict == directory_verdict(*found, uid),
{
    match found {
        Lookup::Missing => Err(UbuntuTransportIdentityCustodyError::CredentialsDirectoryMissing),
        Lookup::Unreadable => Err(UbuntuTransportIdentityCustodyError::CredentialsDirectoryInvalid),
        Lookup::Found(metadata) => {
            if metadata.is_symlink || !metadata.is_dir {
                return Err(UbuntuTransportIdentityCustodyError::CredentialsDirectoryInvalid);
            }
            if metadata.uid != uid || metadata.mode & GROUP_AND_WORLD_WRITE_BITS != 0
                || metadata.mode & OWNER_DIRECTORY_ACCESS_BITS != OWNER_DIRECTORY_ACCESS_BITS {
                return Err(UbuntuTransportIdentityCustodyError::CredentialsDirectoryNotSecure);
            }
            Ok(())
        },
    }
}

/// What is wrong with the ownership or permissions of the credential, if anything.
pub open spec fn credential_verdict(metadata: FileMetadata, uid: u32) -> Result<
    (),
    UbuntuTransportIdentityCustodyError,
> {
    if metadata.uid != uid {
        Err(UbuntuTransportIdentityCustodyError::CredentialOwnershipMismatch)
    } else if metadata.mode & GROUP_AND_WORLD_WRITE_BITS != 0 || metadata.mode & EXECUTE_BITS != 0
        || metadata.mode & OWNER_READ_BIT == 0 {
        Err(UbuntuTransportIdentityCustodyError::CredentialPermissionsInsecure)
    } else {
        Ok(())
    }
}

pub fn validate_credential_metadata(metadata: &FileMetadata, uid: u32) -> (verdict: Result<
    (),
    UbuntuTransportIdentityCustodyError,
>)
    ensures
        verdict == credential_verdict(*metadata, uid),
{
    if metadata.uid != uid {
        return Err(UbuntuTransportIdentityCustodyError::CredentialOwnershipMismatch);
    }
    if metadata.mode & GROUP_AND_WORLD_WRITE_BITS != 0 || metadata.mode & EXECUTE_BITS != 0
        || metadata.mode & OWNER_READ_BIT == 0 {
        return Err(UbuntuTransportIdentityCustodyError::CredentialPermissionsInsecure);
    }
    Ok(())
}

/// What is wrong with the credential before it is opened, if anything.
pub open spec fn found_verdict(found: Lookup, uid: u32) -> Result<
    FileMetadata,
    UbuntuTransportIdentityCustodyError,
> {
    match found {
        Lookup::Found(before) => if before.is_symlink || !before.is_file {
            Err(UbuntuTransportIdentityCustodyError::CredentialNotRegular)
        } else {
            match credential_verdict(before, uid) {
                Err(error) => Err(error),
                Ok(_) => if before.len > MAX_UBUNTU_TRANSPORT_IDENTITY_PKCS8_BYTES {
                    Err(UbuntuTransportIdentityCustodyError::CredentialSizeOutOfBounds)
                } else {
                    Ok(before)
                },
            }
        },
        _ => Err(UbuntuTransportIdentityCustodyError::CredentialUnavailable),
    }
}

fn validate_found_credential(found: &Lookup, uid: u32) -> (verdict: Result<
    FileMetadata,
    UbuntuTransportIdentityCustodyError,
>)
    ensures
        verdict == found_verdict(*found, uid),
{
    match found {
        Lookup::Found(before) => {
            if before.is_symlink || !before.is_file {
                return Err(UbuntuTransportIdentityCustodyError::CredentialNotRegular);
            }
            match validate_credential_metadata(before, uid) {
                Err(error) => Err(error),
                Ok(_) => if before.len > MAX_UBUNTU_TRANSPORT_IDENTITY_PKCS8_BYTES as u64 {
                    Err(UbuntuTransportIdentityCustodyError::CredentialSizeOutOfBounds)
                } else {
                    Ok(*before)
                },
            }
        },
        _ => Err(UbuntuTransportIdentityCustodyError::CredentialUnavailable),
    }
}

/// What is wrong with the credential once it is open, if anything.
pub open spec fn opened_verdict(before: FileMetadata, reopened: Lookup, uid: u32) -> Result<
    (),
    UbuntuTransportIdentityCustodyError,
> {
    match reopened {
        Lookup::Found(after) => if !after.is_file || !is_same_object(before, after) {
            Err(UbuntuTransportIdentityCustodyError::CredentialNotRegular)
        } else {
            credential_verdict(after, uid)
        },
        _ => Err(UbuntuTransportIdentityCustodyError::CredentialUnavailable),
    }
}

fn validate_opened_credential(before: &FileMetadata, reopened: &Lookup, uid: u32) -> (verdict: Result<
    (),
    UbuntuTransportIdentityCustodyError,
>)
    ensures
        verdict == opened_verdict(*before, *reopened, uid),
{
    match reopened {
        Lookup::Found(after) => {
            if !after.is_file || !same_object(before, after) {
                return Err(UbuntuTransportIdentityCustodyError::CredentialNotRegular);
            }
            validate_credential_metadata(after, uid)
        },
        _ => Err(UbuntuTransportIdentityCustodyError::CredentialUnavailable),
    }
}

pub const CREDENTIAL_READ_LIMIT: u64 = 4097;

/// Load the transport identity from the credential below the directory that systemd provides.
pub open spec fn load_credential_plan(directory_absolute: bool, uid: u32) -> HostPlan<
    Result<Seq<u8>, UbuntuTransportIdentityCustodyError>,
> {
    if !directory_absolute {
        Plan::Finish(Err(UbuntuTransportIdentityCustodyError::CredentialsDirectoryInvalid))
    } else {
        bind(
            look_up(Place::RuntimeCredentialDirectory),
            |directory: Lookup|
                match directory_verdict(directory, uid) {
                    Err(error) => Plan::Finish(Err(error)),
                    Ok(_) => bind(
                        look_up(Place::RuntimeCredential),
                        |found: Lookup|
                            match found_verdict(found, uid) {
                                Err(error) => Plan::Finish(Err(error)),
                                Ok(before) => read_credential_plan(before, uid),
                            },
                    ),
                },
        )
    }
}

/// Open the credential that was found, make sure it is still the same, read it and derive.
pub open spec fn read_credential_plan(before: FileMetadata, uid: u32) -> HostPlan<
    Result<Seq<u8>, UbuntuTransportIdentityCustodyError>,
> {
    bind(
        perform(OutsideRequest::Open(Place::RuntimeCredential)),
        |opened: bool|
            if !opened {
                Plan::Finish(Err(UbuntuTransportIdentityCustodyError::CredentialUnavailable))
            } else {
                bind(
                    look_up_opened(Place::RuntimeCredential),
                    |reopened: Lookup|
                        match opened_verdict(before, reopened, uid) {
                            Err(error) => Plan::Finish(Err(error)),
                            Ok(_) => bind(
                                obtain(
                                    OutsideRequest::Read(
                                        Place::RuntimeCredential,
                                        CREDENTIAL_READ_LIMIT,
                                    ),
                                ),
                                |read: Option<Seq<u8>>|
                                    Plan::Finish(
                                        match read {
                                            None => Err(
                                                UbuntuTransportIdentityCustodyError::CredentialReadFailed,
                                            ),
                                            Some(credential) => derived_identity(credential),
                                        },
                                    ),
                            ),
                        },
                )
            },
    )
}

fn read_credential(replies: &mut Replies<'_>, before: &FileMetadata, uid: u32) -> (loaded: Result<
    Result<TransportIdentity, UbuntuTransportIdentityCustodyError>,
    OutsideRequest<Vec<u8>>,
>)
    requires
        old(replies).wf(),
    ensures
        went_along(
            read_credential_plan(*before, uid),
            *old(replies),
            match loaded {
                Ok(identity) => Ok(identity_bytes(identity)),
                Err(request) => Err(request@),
            },
            *final(replies),
        ),
{
    broadcast use lemma_follow_bind;

    if !replies.perform(OutsideRequest::Open(Place::RuntimeCredential))? {
        return Ok(Err(UbuntuTransportIdentityCustodyError::CredentialUnavailable));
    }
    let reopened = replies.look_up_opened(Place::RuntimeCredential)?;
    if let Err(error) = validate_opened_credential(before, &reopened, uid) {
        return Ok(Err(error));
    }
    match replies.obtain(OutsideRequest::Read(Place::RuntimeCredential, CREDENTIAL_READ_LIMIT))? {
        None => Ok(Err(UbuntuTransportIdentityCustodyError::CredentialReadFailed)),
        Some(credential) => Ok(derive_transport_identity_from_pkcs8_v1_der(credential.as_slice())),
    }
}

fn load_credential(replies: &mut Replies<'_>, directory_absolute: bool, uid: u32) -> (loaded: Result<
    Result<TransportIdentity, UbuntuTransportIdentityCustodyError>,
    OutsideRequest<Vec<u8>>,
>)
    requires
        old(replies).wf(),
    ensures
        went_along(
            load_credential_plan(directory_absolute, uid),
            *old(replies),
            match loaded {
                Ok(identity) => Ok(identity_bytes(identity)),
                Err(request) => Err(request@),
            },
            *final(replies),
        ),
{
    broadcast use lemma_follow_bind;

    if !directory_absolute {
        return Ok(Err(UbuntuTransportIdentityCustodyError::CredentialsDirectoryInvalid));
    }
    let directory = replies.look_up(Place::RuntimeCredentialDirectory)?;
    if let Err(error) = validate_credentials_directory(&directory, uid) {
        return Ok(Err(error));
    }
    let found = replies.look_up(Place::RuntimeCredential)?;
    match validate_found_credential(&found, uid) {
        Err(error) => Ok(Err(error)),
        Ok(before) => read_credential(replies, &before, uid),
    }
}

/// Loads the transport identity from a credential directory, as far as the replies go. `uid` is
/// the effective user.
pub fn load_from_credentials_directory(
    directory: &[u8],
    uid: u32,
    replies: &Vec<OutsideReply<Vec<u8>>>,
) -> (progress: Progress<
    OutsideRequest<Vec<u8>>,
    Result<TransportIdentity, UbuntuTransportIdentityCustodyError>,
>)
    ensures
        (match progress {
            Progress::Done(identity) => Progress::Done(identity_bytes(identity)),
            Progress::Waiting(request) => Progress::Waiting(request@),
        }) == follow(
            load_credential_plan(is_absolute_path(directory@), uid),
            reply_views(replies@),
        ).0,
{
    let mut cursor = Replies::new(replies);
    match load_credential(&mut cursor, path_is_absolute(directory), uid) {
        Ok(identity) => Progress::Done(identity),
        Err(request) => Progress::Waiting(request),
    }
}

/// Load the transport identity from the directory that the environment names. A directory that is
/// not named, or named by an empty value, is missing; one that is not absolute is invalid.
pub open spec fn environment_credential_plan(directory: Option<Seq<u8>>, uid: u32) -> HostPlan<
    Result<Seq<u8>, UbuntuTransportIdentityCustodyError>,
> {
    match directory {
        None => Plan::Finish(Err(UbuntuTransportIdentityCustodyError::CredentialsDirectoryMissing)),
        Some(path) => if path.len() == 0 {
            Plan::Finish(Err(UbuntuTransportIdentityCustodyError::CredentialsDirectoryMissing))
        } else {
            load_credential_plan(is_absolute_path(path), uid)
        },
    }
}

/// Loads the transport identity from the credential directory of the environment, as far as the
/// replies go.
pub fn load_ubuntu_transport_identity_from_systemd_credential(
    environment: &HostEnvironment,
    replies: &Vec<OutsideReply<Vec<u8>>>,
) -> (progress: Progress<
    OutsideRequest<Vec<u8>>,
    Result<TransportIdentity, UbuntuTransportIdentityCustodyError>,
>)
    ensures
        (match progress {
            Progress::Done(identity) => Progress::Done(identity_bytes(identity)),
            Progress::Waiting(request) => Progress::Waiting(request@),
        }) == follow(
            environment_credential_plan(
                path_view(environment.credentials_directory),
                environment.euid,
            ),
            reply_views(replies@),
        ).0,
{
    let value = match &environment.credentials_directory {
        Some(path) => Some(copy_bytes(path.as_slice())),
        None => None,
    };
    match credentials_directory_from_value(value) {
        Ok(directory) => load_from_credentials_directory(
            directory.as_slice(),
            environment.euid,
            replies,
        ),
        Err(error) => Progress::Done(Err(error)),
    }
}

} // verus!
