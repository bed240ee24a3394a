//! How operations on the durable registry can fail.
use vstd::prelude::*;
use vstd::string::*;

use crate::registry::RegistryError;

verus! {

/// Failure of an authoritative durable-registry operation, whatever keeps the registry.
#[derive(Clone, Copy, PartialEq, Eq, Structural, Debug)]
pub enum DurableRegistryAuthorityError {
    /// Registry domain semantics rejected the requested observation or state.
    Semantic(RegistryError),
    /// An authoritative read could not be obtained.
    ReadUnavailable,
    /// A mutation returned no definitive commit outcome.
    MutationIndeterminate,
    /// Stored authority shape or canonical registry state is malformed or inconsistent.
    InvalidAuthority,
    /// Currentness moved without proving a registry-domain semantic error.
    CurrentnessConflict,
}

impl DurableRegistryAuthorityError {
    /// The text shown to people for this error.
    pub open spec fn text(self) -> Seq<char> {
        match self {
            DurableRegistryAuthorityError::Semantic(error) =>
                "durable registry semantic failure: "@ + error.text(),
            DurableRegistryAuthorityError::ReadUnavailable =>
                "durable registry authoritative read unavailable"@,
            DurableRegistryAuthorityError::MutationIndeterminate =>
                "durable registry mutation outcome is indeterminate"@,
            DurableRegistryAuthorityError::InvalidAuthority =>
                "durable registry authority is invalid"@,
            DurableRegistryAuthorityError::CurrentnessConflict =>
                "durable registry currentness conflict"@,
        }
    }

    pub fn message(&self) -> (text: String)
        ensures
            text@ == self.text(),
    {
        match self {
            DurableRegistryAuthorityError::Semantic(error) => {
                "durable registry semantic failure: ".to_owned().concat(error.message())
            },
            DurableRegistryAuthorityError::ReadUnavailable => {
                "durable registry authoritative read unavailable".to_owned()
            },
            DurableRegistryAuthorityError::MutationIndeterminate => {
                "durable registry mutation outcome is indeterminate".to_owned()
            },
            DurableRegistryAuthorityError::InvalidAuthority => {
                "durable registry authority is invalid".to_owned()
            },
            DurableRegistryAuthorityError::CurrentnessConflict => {
                "durable registry currentness conflict".to_owned()
            },
        }
    }
}

} // verus!
