//! Host paths as raw bytes, and where each fixed place lies.
use vstd::prelude::*;
use vstd::string::*;
use vstd::utf8::*;

use crate::bytes::{append_bytes, copy_bytes, decimal, decimal_text};
use crate::durable_registry_sqlite_custody::OWNER_PC_SQLITE_RELATIVE_PATH;
use crate::owner_first_run_setup_intent::OWNER_FIRST_RUN_TRANSPORT_CUSTODY_INTENT_RELATIVE_PATH;
use crate::owner_first_setup_bootstrap_inputs::OWNER_LOGICAL_IDENTITY_RELATIVE_PATH;
use crate::transport_identity_custody::SYSTEMD_TRANSPORT_IDENTITY_CREDENTIAL_NAME;
use crate::transport_identity_provisioning::{
    TRANSPORT_IDENTITY_CIPHERTEXT_RELATIVE_PATH, TRANSPORT_IDENTITY_DROPIN_RELATIVE_PATH,
};
use crate::outside::Place;

verus! {

pub const SLASH: u8 = 47;

/// The path starts at the root.
pub open spec fn is_absolute_path(path: Seq<u8>) -> bool {
    path.len() > 0 && path[0] == SLASH
}

pub fn path_is_absolute(path: &[u8]) -> (absolute: bool)
    ensures
        absolute == is_absolute_path(path@),
{
    path.len() > 0 && path[0] == SLASH
}

/// The path of something below a directory.
pub open spec fn joined(directory: Seq<u8>, below: Seq<u8>) -> Seq<u8> {
    if directory.len() == 0 || directory.last() == SLASH {
        directory + below
    } else {
        directory.push(SLASH) + below
    }
}

pub fn join_path(directory: &[u8], below: &str) -> (path: Vec<u8>)
    ensures
        path@ == joined(directory@, encode_utf8(below@)),
{
    let mut path = copy_bytes(directory);
    if directory.len() > 0 && directory[directory.len() - 1] != SLASH {
        path.push(SLASH);
    }
    append_bytes(&mut path, below.as_bytes());
    path
}

/// A root directory from the environment: the variable's own value wins and must be absolute;
/// without it, the suffix below an absolute home directory is taken.
pub open spec fn resolved_root(
    own: Option<Seq<u8>>,
    home: Option<Seq<u8>>,
    home_suffix: Seq<char>,
) -> Option<Seq<u8>> {
    match own {
        Some(value) => if is_absolute_path(value) {
            Some(value)
        } else {
            None
        },
        None => match home {
            Some(value) => if is_absolute_path(value) {
                Some(joined(value, encode_utf8(home_suffix)))
            } else {
                None
            },
            None => None,
        },
    }
}

pub open spec fn path_view(path: Option<Vec<u8>>) -> Option<Seq<u8>> {
    match path {
        Some(value) => Some(value@),
        None => None,
    }
}

pub open spec fn slice_view(path: Option<&[u8]>) -> Option<Seq<u8>> {
    match path {
        Some(value) => Some(value@),
        None => None,
    }
}

pub fn resolve_xdg_root(own: Option<&[u8]>, home: Option<&[u8]>, home_suffix: &str) -> (root: Option<
    Vec<u8>,
>)
    ensures
        path_view(root) == resolved_root(slice_view(own), slice_view(home), home_suffix@),
{
    if let Some(value) = own {
        if !path_is_absolute(value) {
            return None;
        }
        return Some(copy_bytes(value));
    }
    match home {
        None => None,
        Some(value) => {
            if !path_is_absolute(value) {
                return None;
            }
            Some(join_path(value, home_suffix))
        },
    }
}

/// The directories below which all custody state lives, and the process that works on it.
pub struct HostRoots {
    pub state_root: Vec<u8>,
    pub config_root: Vec<u8>,
    pub runtime_credentials: Vec<u8>,
    pub process_id: u32,
}

/// What a place's path starts from.
#[derive(Clone, Copy, PartialEq, Eq, Structural, Debug)]
pub enum Base {
    State,
    Config,
    RuntimeCredentials,
    Filesystem,
}

pub open spec fn place_base(place: Place) -> Base {
    match place {
        Place::ConfigRoot | Place::SystemdDirectory | Place::SystemdUserDirectory
        | Place::DropinDirectory | Place::Dropin | Place::DropinTemporary => Base::Config,
        Place::RuntimeCredentialDirectory | Place::RuntimeCredential => Base::RuntimeCredentials,
        Place::SystemdCreds | Place::SystemdAnalyze | Place::HostSecret => Base::Filesystem,
        _ => Base::State,
    }
}

/// The rest of a place's path, empty for a root itself.
pub open spec fn place_suffix(place: Place, process_id: u32) -> Seq<char> {
    match place {
        Place::StateRoot | Place::ConfigRoot | Place::RuntimeCredentialDirectory => ""@,
        Place::ApplicationDirectory => "private-remote-workspace"@,
        Place::SetupDirectory => "private-remote-workspace/setup"@,
        Place::IntentRecord =>
            OWNER_FIRST_RUN_TRANSPORT_CUSTODY_INTENT_RELATIVE_PATH@,
        Place::IntentTemporary =>
            "private-remote-workspace/setup/.owner-first-run-transport-custody-intent-v1.c03e-zg."@
            + decimal(process_id as nat) + ".tmp"@,
        Place::BootstrapDirectory => "private-remote-workspace/bootstrap"@,
        Place::IdentityRecord => OWNER_LOGICAL_IDENTITY_RELATIVE_PATH@,
        Place::IdentityTemporary =>
            "private-remote-workspace/bootstrap/.owner-logical-identity-v1.bin.c03e-yq."@ + decimal(
            process_id as nat,
        ) + ".tmp"@,
        Place::DatabaseDirectory => "private-remote-workspace/database"@,
        Place::Database => OWNER_PC_SQLITE_RELATIVE_PATH@,
        Place::CredentialDirectory => "private-remote-workspace/credentials"@,
        Place::Ciphertext =>
            TRANSPORT_IDENTITY_CIPHERTEXT_RELATIVE_PATH@,
        Place::CiphertextTemporary =>
            "private-remote-workspace/credentials/.transport-identity-private-key-v1.cred.c03e-ys."@
            + decimal(process_id as nat) + ".tmp"@,
        Place::SystemdDirectory => "systemd"@,
        Place::SystemdUserDirectory => "systemd/user"@,
        Place::DropinDirectory => "systemd/user/prw-agent.service.d"@,
        Place::Dropin => TRANSPORT_IDENTITY_DROPIN_RELATIVE_PATH@,
        Place::DropinTemporary =>
            "systemd/user/prw-agent.service.d/.30-transport-identity-credential.conf."@ + decimal(
            process_id as nat,
        ) + ".tmp"@,
        Place::RuntimeCredential => SYSTEMD_TRANSPORT_IDENTITY_CREDENTIAL_NAME@,
        Place::SystemdCreds => "/usr/bin/systemd-creds"@,
        Place::SystemdAnalyze => "/usr/bin/systemd-analyze"@,
        Place::HostSecret => "/var/lib/systemd/credential.secret"@,
    }
}

/// The place is one of the three roots.
pub open spec fn is_root_place(place: Place) -> bool {
    place is StateRoot || place is ConfigRoot || place is RuntimeCredentialDirectory
}

impl HostRoots {
    pub open spec fn base_path(&self, base: Base) -> Seq<u8> {
        match base {
            Base::State => self.state_root@,
            Base::Config => self.config_root@,
            Base::RuntimeCredentials => self.runtime_credentials@,
            Base::Filesystem => Seq::empty(),
        }
    }

    /// The path of a place.
    pub open spec fn path_of(&self, place: Place) -> Seq<u8> {
        if is_root_place(place) {
            self.base_path(place_base(place))
        } else {
            joined(
                self.base_path(place_base(place)),
                encode_utf8(place_suffix(place, self.process_id)),
            )
        }
    }

    /// Where the place lies on this host.
    pub fn place_path(&self, place: Place) -> (path: Vec<u8>)
        ensures
            path@ == self.path_of(place),
    {
        match place {
            Place::StateRoot => copy_bytes(self.state_root.as_slice()),
            Place::ConfigRoot => copy_bytes(self.config_root.as_slice()),
            Place::RuntimeCredentialDirectory => copy_bytes(self.runtime_credentials.as_slice()),
            Place::ApplicationDirectory => join_path(
                self.state_root.as_slice(),
                "private-remote-workspace",
            ),
            Place::SetupDirectory => join_path(
                self.state_root.as_slice(),
                "private-remote-workspace/setup",
            ),
            Place::IntentRecord => join_path(
                self.state_root.as_slice(),
                OWNER_FIRST_RUN_TRANSPORT_CUSTODY_INTENT_RELATIVE_PATH,
            ),
            Place::IntentTemporary => join_path(
                self.state_root.as_slice(),
                self.temporary_suffix(
                    "private-remote-workspace/setup/.owner-first-run-transport-custody-intent-v1.c03e-zg.",
                ).as_str(),
            ),
            Place::BootstrapDirectory => join_path(
                self.state_root.as_slice(),
                "private-remote-workspace/bootstrap",
            ),
            Place::IdentityRecord => join_path(
                self.state_root.as_slice(),
                OWNER_LOGICAL_IDENTITY_RELATIVE_PATH,
            ),
            Place::IdentityTemporary => join_path(
                self.state_root.as_slice(),
                self.temporary_suffix(
                    "private-remote-workspace/bootstrap/.owner-logical-identity-v1.bin.c03e-yq.",
                ).as_str(),
            ),
            Place::DatabaseDirectory => join_path(
                self.state_root.as_slice(),
                "private-remote-workspace/database",
            ),
            Place::Database => join_path(
                self.state_root.as_slice(),
                OWNER_PC_SQLITE_RELATIVE_PATH,
            ),
            Place::CredentialDirectory => join_path(
                self.state_root.as_slice(),
                "private-remote-workspace/credentials",
            ),
            Place::Ciphertext => join_path(
                self.state_root.as_slice(),
                TRANSPORT_IDENTITY_CIPHERTEXT_RELATIVE_PATH,
            ),
            Place::CiphertextTemporary => join_path(
                self.state_root.as_slice(),
                self.temporary_suffix(
                    "private-remote-workspace/credentials/.transport-identity-private-key-v1.cred.c03e-ys.",
                ).as_str(),
            ),
            Place::SystemdDirectory => join_path(self.config_root.as_slice(), "systemd"),
            Place::SystemdUserDirectory => join_path(self.config_root.as_slice(), "systemd/user"),
            Place::DropinDirectory => join_path(
                self.config_root.as_slice(),
                "systemd/user/prw-agent.service.d",
            ),
            Place::Dropin => join_path(
                self.config_root.as_slice(),
                TRANSPORT_IDENTITY_DROPIN_RELATIVE_PATH,
            ),
            Place::DropinTemporary => join_path(
                self.config_root.as_slice(),
                self.temporary_suffix(
                    "systemd/user/prw-agent.service.d/.30-transport-identity-credential.conf.",
                ).as_str(),
            ),
            Place::RuntimeCredential => join_path(
                self.runtime_credentials.as_slice(),
                SYSTEMD_TRANSPORT_IDENTITY_CREDENTIAL_NAME,
            ),
            Place::SystemdCreds => join_path(&[], "/usr/bin/systemd-creds"),
            Place::SystemdAnalyze => join_path(&[], "/usr/bin/systemd-analyze"),
            Place::HostSecret => join_path(&[], "/var/lib/systemd/credential.secret"),
        }
    }

    fn temporary_suffix(&self, stem: &str) -> (suffix: String)
        ensures
            suffix@ == stem@ + decimal(self.process_id as nat) + ".tmp"@,
    {
        let mut suffix = stem.to_owned();
        suffix.append(decimal_text(self.process_id as u64).as_str());
        suffix.append(".tmp");
        suffix
    }
}

} // verus!
