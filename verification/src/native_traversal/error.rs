//! How traversal operations fail.
use vstd::prelude::*;
use vstd::string::*;

use crate::connectivity::ConnectivityError;

verus! {

/// Stable native traversal failure classification.
#[derive(Clone, Copy, PartialEq, Eq, Structural, Debug)]
pub enum TraversalError {
    /// Packet was not exactly 40 bytes.
    InvalidPacketLength,
    /// Packet magic was not PRWP.
    InvalidPacketMagic,
    /// Probe version was not v1.
    UnsupportedProbeVersion,
    /// Probe message type was not recognized.
    UnsupportedProbeType,
    /// v1 flags were non-zero.
    UnsupportedProbeFlags,
    /// A tag replacement is already pending.
    RoutingTagRotationInProgress,
    /// No pending tag exists to acknowledge.
    RoutingTagRotationMissing,
    /// Acknowledgement did not match the pending replacement.
    RoutingTagRotationMismatch,
    /// Proposed replacement duplicates a current/previous tag.
    RoutingTagAlreadyKnown,
    /// Receive-side tag state was revoked.
    RoutingTagRevoked,
    /// A live outstanding nonce was duplicated.
    DuplicateOutstandingNonce,
    /// Per-peer outstanding probe bound was reached.
    OutstandingProbeCapacity,
    /// Native traversal does not accept relay candidates.
    RelayCandidateUnsupported,
    /// State-machine operation was attempted from the wrong state.
    InvalidStateTransition,
    /// The connectivity plan rejected the update.
    Connectivity(ConnectivityError),
}

impl TraversalError {
    /// The text shown to people for this error.
    pub open spec fn text(self) -> Seq<char> {
        match self {
            TraversalError::InvalidPacketLength => "probe packet length is invalid"@,
            TraversalError::InvalidPacketMagic => "probe packet magic is invalid"@,
            TraversalError::UnsupportedProbeVersion => "probe packet version is unsupported"@,
            TraversalError::UnsupportedProbeType => "probe packet message type is unsupported"@,
            TraversalError::UnsupportedProbeFlags => "probe packet flags are unsupported"@,
            TraversalError::RoutingTagRotationInProgress => "routing tag rotation is already in progress"@,
            TraversalError::RoutingTagRotationMissing => "routing tag rotation has no pending replacement"@,
            TraversalError::RoutingTagRotationMismatch => "routing tag acknowledgement does not match pending state"@,
            TraversalError::RoutingTagAlreadyKnown => "routing tag replacement is already known"@,
            TraversalError::RoutingTagRevoked => "routing tag state is revoked"@,
            TraversalError::DuplicateOutstandingNonce => "probe nonce is already outstanding"@,
            TraversalError::OutstandingProbeCapacity => "outstanding probe nonce capacity exceeded"@,
            TraversalError::RelayCandidateUnsupported => "native traversal does not support relay candidates"@,
            TraversalError::InvalidStateTransition => "native traversal state transition is invalid"@,
            TraversalError::Connectivity(error) => "connectivity update failed: "@ + error.text(),
        }
    }

    pub fn message(&self) -> (text: String)
        ensures
            text@ == self.text(),
    {
        match self {
            TraversalError::InvalidPacketLength => "probe packet length is invalid".to_owned(),
            TraversalError::InvalidPacketMagic => "probe packet magic is invalid".to_owned(),
            TraversalError::UnsupportedProbeVersion => "probe packet version is unsupported".to_owned(),
            TraversalError::UnsupportedProbeType => "probe packet message type is unsupported".to_owned(),
            TraversalError::UnsupportedProbeFlags => "probe packet flags are unsupported".to_owned(),
            TraversalError::RoutingTagRotationInProgress => "routing tag rotation is already in progress".to_owned(),
            TraversalError::RoutingTagRotationMissing => "routing tag rotation has no pending replacement".to_owned(),
            TraversalError::RoutingTagRotationMismatch => "routing tag acknowledgement does not match pending state".to_owned(),
            TraversalError::RoutingTagAlreadyKnown => "routing tag replacement is already known".to_owned(),
            TraversalError::RoutingTagRevoked => "routing tag state is revoked".to_owned(),
            TraversalError::DuplicateOutstandingNonce => "probe nonce is already outstanding".to_owned(),
            TraversalError::OutstandingProbeCapacity => "outstanding probe nonce capacity exceeded".to_owned(),
            TraversalError::RelayCandidateUnsupported => "native traversal does not support relay candidates".to_owned(),
            TraversalError::InvalidStateTransition => "native traversal state transition is invalid".to_owned(),
            TraversalError::Connectivity(error) => "connectivity update failed: ".to_owned().concat(error.message()),
        }
    }
}

} // verus!
