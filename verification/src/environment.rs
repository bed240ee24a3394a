//! What the process is told about its host: environment values and process identifiers.
use vstd::prelude::*;
use vstd::string::*;

use crate::bytes::copy_bytes;
use crate::paths::{is_absolute_path, path_view, resolve_xdg_root, resolved_root, HostRoots};

verus! {

/// The environment values and identifiers that decide where custody state lies and whose it is.
pub struct HostEnvironment {
    pub xdg_state_home: Option<Vec<u8>>,
    pub xdg_config_home: Option<Vec<u8>>,
    pub home: Option<Vec<u8>>,
    pub credentials_directory: Option<Vec<u8>>,
    /// The real user.
    pub uid: u32,
    /// The effective user.
    pub euid: u32,
    pub process_id: u32,
}

fn as_bytes(value: &Option<Vec<u8>>) -> (bytes: Option<&[u8]>)
    ensures
        crate::paths::slice_view(bytes) == path_view(*value),
{
    match value {
        Some(held) => Some(held.as_slice()),
        None => None,
    }
}

/// A state root that resolves is absolute.
pub proof fn lemma_state_root_is_absolute(environment: HostEnvironment)
    ensures
        environment.state_root_path() matches Some(path) ==> is_absolute_path(path),
        environment.config_root_path() matches Some(path) ==> is_absolute_path(path),
{
}

impl HostEnvironment {
    /// `XDG_STATE_HOME`, or `.local/state` below `HOME`.
    pub open spec fn state_root_path(&self) -> Option<Seq<u8>> {
        resolved_root(path_view(self.xdg_state_home), path_view(self.home), ".local/state"@)
    }

    /// `XDG_CONFIG_HOME`, or `.config` below `HOME`.
    pub open spec fn config_root_path(&self) -> Option<Seq<u8>> {
        resolved_root(path_view(self.xdg_config_home), path_view(self.home), ".config"@)
    }

    pub fn state_root(&self) -> (root: Option<Vec<u8>>)
        ensures
            path_view(root) == self.state_root_path(),
    {
        resolve_xdg_root(as_bytes(&self.xdg_state_home), as_bytes(&self.home), ".local/state")
    }

    pub fn config_root(&self) -> (root: Option<Vec<u8>>)
        ensures
            path_view(root) == self.config_root_path(),
    {
        resolve_xdg_root(as_bytes(&self.xdg_config_home), as_bytes(&self.home), ".config")
    }

    /// The roots below which a requested place lies. A root that does not resolve is left empty:
    /// no operation asks for a place below it.
    pub fn host_roots(&self) -> (roots: HostRoots)
        ensures
            roots.state_root@ == (match self.state_root_path() {
                Some(path) => path,
                None => Seq::empty(),
            }),
            roots.config_root@ == (match self.config_root_path() {
                Some(path) => path,
                None => Seq::empty(),
            }),
            roots.runtime_credentials@ == (match path_view(self.credentials_directory) {
                Some(path) => path,
                None => Seq::empty(),
            }),
            roots.process_id == self.process_id,
    {
        let state_root = match self.state_root() {
            Some(path) => path,
            None => Vec::new(),
        };
        let config_root = match self.config_root() {
            Some(path) => path,
            None => Vec::new(),
        };
        let runtime_credentials = match &self.credentials_directory {
            Some(path) => copy_bytes(path.as_slice()),
            None => Vec::new(),
        };
        HostRoots { state_root, config_root, runtime_credentials, process_id: self.process_id }
    }
}

} // verus!
