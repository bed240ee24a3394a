//! Identities and lifecycles shared by every part of the workspace.
use vstd::prelude::*;

use crate::bytes::{copy_bytes, same_bytes, same_text};

verus! {

/// An identifier was empty.
#[derive(Clone, Copy, PartialEq, Eq, Structural, Debug)]
pub struct EmptyIdentifier;

/// A workspace. The identifier is opaque text and never empty.
#[derive(Eq, Debug)]
pub struct WorkspaceId {
    value: String,
}

impl View for WorkspaceId {
    type V = Seq<char>;

    closed spec fn view(&self) -> Seq<char> {
        self.value@
    }
}

impl WorkspaceId {
    #[verifier::type_invariant]
    spec fn holds_text(&self) -> bool {
        self.value@.len() > 0
    }

    /// Accepts any text but the empty one.
    pub fn new(value: String) -> (id: Result<WorkspaceId, EmptyIdentifier>)
        ensures
            id is Ok <==> value@.len() > 0,
            id matches Ok(accepted) ==> accepted@ == value@,
    {
        if value.as_str().is_empty() {
            Err(EmptyIdentifier)
        } else {
            Ok(WorkspaceId { value })
        }
    }

    pub fn as_str(&self) -> (text: &str)
        ensures
            text@ == self@,
            text@.len() > 0,
    {
        proof {
            use_type_invariant(self);
        }
        self.value.as_str()
    }
}

impl Clone for WorkspaceId {
    fn clone(&self) -> (copy: Self)
        ensures
            copy@ == self@,
    {
        proof {
            use_type_invariant(self);
        }
        WorkspaceId { value: self.value.clone() }
    }
}

impl PartialEq for WorkspaceId {
    fn eq(&self, other: &Self) -> (same: bool) {
        same_text(self.value.as_str(), other.value.as_str())
    }
}

impl vstd::std_specs::cmp::PartialEqSpecImpl for WorkspaceId {
    open spec fn obeys_eq_spec() -> bool {
        true
    }

    open spec fn eq_spec(&self, other: &Self) -> bool {
        self@ == other@
    }
}

/// A person who owns or joins a workspace. The identifier is opaque text and never empty.
#[derive(Eq, Debug)]
pub struct UserId {
    value: String,
}

impl View for UserId {
    type V = Seq<char>;

    closed spec fn view(&self) -> Seq<char> {
        self.value@
    }
}

impl UserId {
    #[verifier::type_invariant]
    spec fn holds_text(&self) -> bool {
        self.value@.len() > 0
    }

    /// Accepts any text but the empty one.
    pub fn new(value: String) -> (id: Result<UserId, EmptyIdentifier>)
        ensures
            id is Ok <==> value@.len() > 0,
            id matches Ok(accepted) ==> accepted@ == value@,
    {
        if value.as_str().is_empty() {
            Err(EmptyIdentifier)
        } else {
            Ok(UserId { value })
        }
    }

    pub fn as_str(&self) -> (text: &str)
        ensures
            text@ == self@,
            text@.len() > 0,
    {
        proof {
            use_type_invariant(self);
        }
        self.value.as_str()
    }
}

impl Clone for UserId {
    fn clone(&self) -> (copy: Self)
        ensures
            copy@ == self@,
    {
        proof {
            use_type_invariant(self);
        }
        UserId { value: self.value.clone() }
    }
}

impl PartialEq for UserId {
    fn eq(&self, other: &Self) -> (same: bool) {
        same_text(self.value.as_str(), other.value.as_str())
    }
}

impl vstd::std_specs::cmp::PartialEqSpecImpl for UserId {
    open spec fn obeys_eq_spec() -> bool {
        true
    }

    open spec fn eq_spec(&self, other: &Self) -> bool {
        self@ == other@
    }
}

/// One logical device of a person. The identifier is opaque text and never empty.
#[derive(Eq, Debug)]
pub struct DeviceId {
    value: String,
}

impl View for DeviceId {
    type V = Seq<char>;

    closed spec fn view(&self) -> Seq<char> {
        self.value@
    }
}

impl DeviceId {
    #[verifier::type_invariant]
    spec fn holds_text(&self) -> bool {
        self.value@.len() > 0
    }

    /// Accepts any text but the empty one.
    pub fn new(value: String) -> (id: Result<DeviceId, EmptyIdentifier>)
        ensures
            id is Ok <==> value@.len() > 0,
            id matches Ok(accepted) ==> accepted@ == value@,
    {
        if value.as_str().is_empty() {
            Err(EmptyIdentifier)
        } else {
            Ok(DeviceId { value })
        }
    }

    pub fn as_str(&self) -> (text: &str)
        ensures
            text@ == self@,
            text@.len() > 0,
    {
        proof {
            use_type_invariant(self);
        }
        self.value.as_str()
    }
}

impl Clone for DeviceId {
    fn clone(&self) -> (copy: Self)
        ensures
            copy@ == self@,
    {
        proof {
            use_type_invariant(self);
        }
        DeviceId { value: self.value.clone() }
    }
}

impl PartialEq for DeviceId {
    fn eq(&self, other: &Self) -> (same: bool) {
        same_text(self.value.as_str(), other.value.as_str())
    }
}

impl vstd::std_specs::cmp::PartialEqSpecImpl for DeviceId {
    open spec fn obeys_eq_spec() -> bool {
        true
    }

    open spec fn eq_spec(&self, other: &Self) -> bool {
        self@ == other@
    }
}

/// A transport identity was all zeroes.
#[derive(Clone, Copy, PartialEq, Eq, Structural, Debug)]
pub struct ZeroTransportIdentity;

/// Fingerprint of the public half of a device's transport key. Never all zeroes.
#[derive(Clone, Copy, Eq, Debug)]
pub struct TransportIdentity {
    fingerprint: [u8; 32],
}

impl View for TransportIdentity {
    type V = Seq<u8>;

    closed spec fn view(&self) -> Seq<u8> {
        self.fingerprint@
    }
}

/// Whether every byte is zero.
pub open spec fn all_zero(bytes: Seq<u8>) -> bool {
    forall|i: int| 0 <= i < bytes.len() ==> bytes[i] == 0
}

/// Transport identities with the same fingerprint are the same value.
pub broadcast proof fn lemma_transport_identity_is_its_fingerprint(
    left: TransportIdentity,
    right: TransportIdentity,
)
    ensures
        #![trigger left@, right@]
        left@ == right@ ==> left == right,
{
    if left@ == right@ {
        assert(left.fingerprint =~= right.fingerprint) by {
            assert forall|i: int| 0 <= i < 32 implies left.fingerprint[i] == right.fingerprint[i] by {
                assert(left.fingerprint@[i] == right.fingerprint@[i]);
            }
        }
    }
}

/// The transport identity with a fingerprint.
pub open spec fn transport_identity_of(fingerprint: Seq<u8>) -> TransportIdentity {
    choose|identity: TransportIdentity| #[trigger] identity@ == fingerprint
}

pub broadcast proof fn lemma_transport_identity_of(identity: TransportIdentity)
    ensures
        #[trigger] transport_identity_of(identity@) == identity,
{
    lemma_transport_identity_is_its_fingerprint(identity, transport_identity_of(identity@));
}

/// A fingerprint has 32 bytes.
pub proof fn lemma_transport_identity_length(identity: TransportIdentity)
    ensures
        identity@.len() == 32,
{
}

impl TransportIdentity {
    #[verifier::type_invariant]
    spec fn is_not_zero(&self) -> bool {
        !all_zero(self.fingerprint@)
    }

    /// Accepts every fingerprint but the all-zero one.
    pub fn new(fingerprint: [u8; 32]) -> (identity: Result<TransportIdentity, ZeroTransportIdentity>)
        ensures
            identity is Ok <==> !all_zero(fingerprint@),
            identity matches Ok(accepted) ==> accepted@ == fingerprint@,
    {
        let mut i: usize = 0;
        while i < 32
            invariant
                i <= 32,
                forall|j: int| 0 <= j < i ==> fingerprint@[j] == 0,
            decreases 32 - i,
        {
            if fingerprint[i] != 0 {
                assert(fingerprint@[i as int] != 0);
                return Ok(TransportIdentity { fingerprint });
            }
            i = i + 1;
        }
        Err(ZeroTransportIdentity)
    }

    pub fn as_bytes(&self) -> (bytes: &[u8; 32])
        ensures
            bytes@ == self@,
            !all_zero(bytes@),
    {
        proof {
            use_type_invariant(self);
        }
        &self.fingerprint
    }
}

impl PartialEq for TransportIdentity {
    fn eq(&self, other: &Self) -> (same: bool) {
        proof {
            lemma_transport_identity_is_its_fingerprint(*self, *other);
        }
        same_bytes(&self.fingerprint, &other.fingerprint)
    }
}

impl vstd::std_specs::cmp::PartialEqSpecImpl for TransportIdentity {
    open spec fn obeys_eq_spec() -> bool {
        true
    }

    open spec fn eq_spec(&self, other: &Self) -> bool {
        *self == *other
    }
}

/// Where a device stands in its life.
#[derive(Clone, Copy, PartialEq, Eq, Structural, Debug)]
pub enum DeviceLifecycle {
    PendingEnrollment,
    Enrolled,
    /// Terminal.
    Revoked,
}

impl DeviceLifecycle {
    /// Only an enrolled device takes part in the workspace.
    pub fn can_participate(self) -> (participates: bool)
        ensures
            participates == (self is Enrolled),
    {
        match self {
            DeviceLifecycle::Enrolled => true,
            _ => false,
        }
    }
}

#[derive(Clone, Copy, PartialEq, Eq, Structural, Debug)]
pub enum DeviceIdentityAlgorithm {
    EcdsaP256Sha256,
}

#[derive(Clone, Copy, PartialEq, Eq, Structural, Debug)]
pub enum DeviceIdentityPublicKeyEncoding {
    SubjectPublicKeyInfoDer,
}

/// Public identity material held no bytes.
#[derive(Clone, Copy, PartialEq, Eq, Structural, Debug)]
pub struct EmptyPublicIdentity;

/// The public key by which a device is recognised.
#[derive(Eq, Debug)]
pub struct PublicIdentityMaterial {
    algorithm: DeviceIdentityAlgorithm,
    encoding: DeviceIdentityPublicKeyEncoding,
    bytes: Vec<u8>,
}

/// What a [`PublicIdentityMaterial`] says.
pub struct PublicIdentityView {
    pub algorithm: DeviceIdentityAlgorithm,
    pub encoding: DeviceIdentityPublicKeyEncoding,
    pub bytes: Seq<u8>,
}

impl View for PublicIdentityMaterial {
    type V = PublicIdentityView;

    closed spec fn view(&self) -> PublicIdentityView {
        PublicIdentityView {
            algorithm: self.algorithm,
            encoding: self.encoding,
            bytes: self.bytes@,
        }
    }
}

impl PublicIdentityMaterial {
    #[verifier::type_invariant]
    spec fn holds_bytes(&self) -> bool {
        self.bytes@.len() > 0
    }

    /// Accepts any key bytes but none at all.
    pub fn new(
        algorithm: DeviceIdentityAlgorithm,
        encoding: DeviceIdentityPublicKeyEncoding,
        bytes: Vec<u8>,
    ) -> (material: Result<PublicIdentityMaterial, EmptyPublicIdentity>)
        ensures
            material is Ok <==> bytes@.len() > 0,
            material matches Ok(accepted) ==> accepted@ == (PublicIdentityView {
                algorithm,
                encoding,
                bytes: bytes@,
            }),
    {
        if bytes.len() == 0 {
            Err(EmptyPublicIdentity)
        } else {
            Ok(PublicIdentityMaterial { algorithm, encoding, bytes })
        }
    }

    pub fn algorithm(&self) -> (algorithm: DeviceIdentityAlgorithm)
        ensures
            algorithm == self@.algorithm,
    {
        self.algorithm
    }

    pub fn encoding(&self) -> (encoding: DeviceIdentityPublicKeyEncoding)
        ensures
            encoding == self@.encoding,
    {
        self.encoding
    }

    pub fn as_bytes(&self) -> (bytes: &[u8])
        ensures
            bytes@ == self@.bytes,
            bytes@.len() > 0,
    {
        proof {
            use_type_invariant(self);
        }
        self.bytes.as_slice()
    }
}

impl Clone for PublicIdentityMaterial {
    fn clone(&self) -> (copy: Self)
        ensures
            copy@ == self@,
    {
        proof {
            use_type_invariant(self);
        }
        PublicIdentityMaterial {
            algorithm: self.algorithm,
            encoding: self.encoding,
            bytes: copy_bytes(self.bytes.as_slice()),
        }
    }
}

impl PartialEq for PublicIdentityMaterial {
    fn eq(&self, other: &Self) -> (same: bool) {
        self.algorithm == other.algorithm && self.encoding == other.encoding && same_bytes(
            self.bytes.as_slice(),
            other.bytes.as_slice(),
        )
    }
}

impl vstd::std_specs::cmp::PartialEqSpecImpl for PublicIdentityMaterial {
    open spec fn obeys_eq_spec() -> bool {
        true
    }

    open spec fn eq_spec(&self, other: &Self) -> bool {
        self@ == other@
    }
}

/// One device of one person in one workspace, with the key that identifies it.
#[derive(Eq, Debug)]
pub struct DeviceIdentityBinding {
    pub workspace_id: WorkspaceId,
    pub user_id: UserId,
    pub device_id: DeviceId,
    pub public_identity: PublicIdentityMaterial,
    pub lifecycle: DeviceLifecycle,
}

/// What a [`DeviceIdentityBinding`] says.
pub struct BindingView {
    pub workspace: Seq<char>,
    pub user: Seq<char>,
    pub device: Seq<char>,
    pub public_identity: PublicIdentityView,
    pub lifecycle: DeviceLifecycle,
}

impl View for DeviceIdentityBinding {
    type V = BindingView;

    open spec fn view(&self) -> BindingView {
        BindingView {
            workspace: self.workspace_id@,
            user: self.user_id@,
            device: self.device_id@,
            public_identity: self.public_identity@,
            lifecycle: self.lifecycle,
        }
    }
}

impl Clone for DeviceIdentityBinding {
    fn clone(&self) -> (copy: Self)
        ensures
            copy@ == self@,
    {
        DeviceIdentityBinding {
            workspace_id: self.workspace_id.clone(),
            user_id: self.user_id.clone(),
            device_id: self.device_id.clone(),
            public_identity: self.public_identity.clone(),
            lifecycle: self.lifecycle,
        }
    }
}

impl PartialEq for DeviceIdentityBinding {
    fn eq(&self, other: &Self) -> (same: bool) {
        self.workspace_id == other.workspace_id && self.user_id == other.user_id && self.device_id
            == other.device_id && self.public_identity == other.public_identity && self.lifecycle
            == other.lifecycle
    }
}

impl vstd::std_specs::cmp::PartialEqSpecImpl for DeviceIdentityBinding {
    open spec fn obeys_eq_spec() -> bool {
        true
    }

    open spec fn eq_spec(&self, other: &Self) -> bool {
        self@ == other@
    }
}

} // verus!
