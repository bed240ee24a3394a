//! Inputs of the owner's first setup: who the owner is, and with which keys.
//!
//! The owner's workspace, user and device are named by random identifiers that are drawn once and
//! kept in a small private record. This module holds the record's format, its creation and
//! loading, and the composition with the device's public identity and the transport identity.
use aws_lc_rs::rand::{SecureRandom, SystemRandom};
use vstd::prelude::*;
use vstd::string::*;
use vstd::utf8::*;

use crate::bytes::{
    append_bytes, copy_bytes, lemma_encoding_of_concatenation, same_bytes, slice_bytes,
    text_from_utf8,
};
use crate::custody::{
    ensure_private_directory, ensure_private_directory_plan, publish, publish_plan, read_record,
    read_record_plan, require_private_directory, require_private_directory_plan, state_root_plan,
    validate_state_root, RecordKind,
};
use crate::domain::{
    BindingView, DeviceId, DeviceIdentityBinding, DeviceLifecycle, PublicIdentityMaterial,
    TransportIdentity, UserId, WorkspaceId,
};
use crate::environment::HostEnvironment;
use crate::outside::{
    look_up, reply_views, seen, went_along, HostPlan, Lookup, OutsideReply, OutsideRequest, Place,
    Replies,
};
use crate::paths::{is_absolute_path, path_is_absolute};
use crate::plan::{and_then, bind, follow, lemma_follow_bind, Plan, Progress};
use crate::transport_identity_custody::UbuntuTransportIdentityCustodyError;

verus! {

/// Fixed non-secret owner logical-identity record location below XDG state.
pub const OWNER_LOGICAL_IDENTITY_RELATIVE_PATH: &'static str =
    "private-remote-workspace/bootstrap/owner-logical-identity-v1.bin";

/// The eight bytes that start every record.
pub const OWNER_LOGICAL_IDENTITY_MAGIC: [u8; 8] = [80, 82, 87, 79, 66, 73, 49, 0];

pub const ENCODED_IDENTIFIER_BYTES: usize = 34;

pub const OWNER_LOGICAL_IDENTITY_RECORD_BYTES: usize = 110;

/// A device-identity key could not be had from its custody.
#[derive(Clone, Copy, PartialEq, Eq, Structural, Debug)]
pub enum UbuntuDeviceIdentityCustodyError {
    Unavailable,
}

impl UbuntuDeviceIdentityCustodyError {
    pub open spec fn text(self) -> Seq<char> {
        "device identity credential is unavailable"@
    }

    pub fn message(&self) -> (text: &'static str)
        ensures
            text@ == self.text(),
    {
        "device identity credential is unavailable"
    }
}

/// Fail-closed error for first-setup bootstrap input materialization.
#[derive(Clone, Copy, PartialEq, Eq, Structural, Debug)]
pub enum OwnerFirstSetupBootstrapInputError {
    /// OS cryptographic randomness was unavailable.
    RandomUnavailable,
    /// The versioned non-secret logical-identity record was malformed or non-canonical.
    MalformedLogicalIdentityRecord,
    /// XDG or HOME could not resolve to an absolute state root.
    InvalidStateRoot,
    /// State root was missing, symlinked, foreign-owned, or insecure.
    InsecureStateRoot,
    /// The application directory was absent or insecure.
    InsecureApplicationDirectory,
    /// Bootstrap directory was absent or insecure.
    InsecureBootstrapDirectory,
    /// The exact owner logical-identity record was absent or unsafe to open.
    LogicalIdentityRecordUnavailable,
    /// The record path was symlinked, non-regular, foreign-owned, or wrong-mode.
    LogicalIdentityRecordInsecure,
    /// The bounded record read failed.
    LogicalIdentityRecordReadFailed,
    /// A required private bootstrap directory could not be created safely.
    DirectoryCreationFailed,
    /// Temporary record creation, write, validation, or durability failed.
    LogicalIdentityRecordWriteFailed,
    /// Atomic no-replace commit or final record verification failed.
    LogicalIdentityRecordCommitFailed,
    /// Final parent-directory durability synchronization failed.
    DirectorySyncFailed,
    /// Existing device-identity custody could not supply the public device identity.
    DeviceIdentityCustody(UbuntuDeviceIdentityCustodyError),
    /// Dedicated transport-key custody could not supply the current transport identity.
    TransportIdentityCustody(UbuntuTransportIdentityCustodyError),
}

impl OwnerFirstSetupBootstrapInputError {
    /// The text shown to people for this error.
    pub open spec fn text(self) -> Seq<char> {
        match self {
            OwnerFirstSetupBootstrapInputError::RandomUnavailable => "owner identity randomness unavailable"@,
            OwnerFirstSetupBootstrapInputError::MalformedLogicalIdentityRecord => "owner logical identity record malformed"@,
            OwnerFirstSetupBootstrapInputError::InvalidStateRoot => "owner bootstrap state root invalid"@,
            OwnerFirstSetupBootstrapInputError::InsecureStateRoot => "owner bootstrap state root insecure"@,
            OwnerFirstSetupBootstrapInputError::InsecureApplicationDirectory => "owner bootstrap application directory insecure"@,
            OwnerFirstSetupBootstrapInputError::InsecureBootstrapDirectory => "owner bootstrap directory insecure"@,
            OwnerFirstSetupBootstrapInputError::LogicalIdentityRecordUnavailable => "owner logical identity record unavailable"@,
            OwnerFirstSetupBootstrapInputError::LogicalIdentityRecordInsecure => "owner logical identity record insecure"@,
            OwnerFirstSetupBootstrapInputError::LogicalIdentityRecordReadFailed => "owner logical identity record read failed"@,
            OwnerFirstSetupBootstrapInputError::DirectoryCreationFailed => "owner logical identity directory creation failed"@,
            OwnerFirstSetupBootstrapInputError::LogicalIdentityRecordWriteFailed => "owner logical identity record write failed"@,
            OwnerFirstSetupBootstrapInputError::LogicalIdentityRecordCommitFailed => "owner logical identity record commit failed"@,
            OwnerFirstSetupBootstrapInputError::DirectorySyncFailed => "owner logical identity directory sync failed"@,
            OwnerFirstSetupBootstrapInputError::DeviceIdentityCustody(error) =>
                "device identity custody failed: "@ + error.text(),
            OwnerFirstSetupBootstrapInputError::TransportIdentityCustody(error) =>
                "transport identity custody failed: "@ + error.text(),
        }
    }

    pub fn message(&self) -> (text: String)
        ensures
            text@ == self.text(),
    {
        match self {
            OwnerFirstSetupBootstrapInputError::RandomUnavailable => "owner identity randomness unavailable".to_owned(),
            OwnerFirstSetupBootstrapInputError::MalformedLogicalIdentityRecord => "owner logical identity record malformed".to_owned(),
            OwnerFirstSetupBootstrapInputError::InvalidStateRoot => "owner bootstrap state root invalid".to_owned(),
            OwnerFirstSetupBootstrapInputError::InsecureStateRoot => "owner bootstrap state root insecure".to_owned(),
            OwnerFirstSetupBootstrapInputError::InsecureApplicationDirectory => "owner bootstrap application directory insecure".to_owned(),
            OwnerFirstSetupBootstrapInputError::InsecureBootstrapDirectory => "owner bootstrap directory insecure".to_owned(),
            OwnerFirstSetupBootstrapInputError::LogicalIdentityRecordUnavailable => "owner logical identity record unavailable".to_owned(),
            OwnerFirstSetupBootstrapInputError::LogicalIdentityRecordInsecure => "owner logical identity record insecure".to_owned(),
            OwnerFirstSetupBootstrapInputError::LogicalIdentityRecordReadFailed => "owner logical identity record read failed".to_owned(),
            OwnerFirstSetupBootstrapInputError::DirectoryCreationFailed => "owner logical identity directory creation failed".to_owned(),
            OwnerFirstSetupBootstrapInputError::LogicalIdentityRecordWriteFailed => "owner logical identity record write failed".to_owned(),
            OwnerFirstSetupBootstrapInputError::LogicalIdentityRecordCommitFailed => "owner logical identity record commit failed".to_owned(),
            OwnerFirstSetupBootstrapInputError::DirectorySyncFailed => "owner logical identity directory sync failed".to_owned(),
            OwnerFirstSetupBootstrapInputError::DeviceIdentityCustody(error) => {
                "device identity custody failed: ".to_owned().concat(error.message())
            },
            OwnerFirstSetupBootstrapInputError::TransportIdentityCustody(error) => {
                "transport identity custody failed: ".to_owned().concat(error.message())
            },
        }
    }
}

/// A lowercase hexadecimal digit.
pub open spec fn is_hex_char(c: char) -> bool {
    ('0' <= c && c <= '9') || ('a' <= c && c <= 'f')
}

/// An identifier as the record keeps it: a letter, a hyphen and 32 lowercase hexadecimal digits.
pub open spec fn is_canonical_identifier(text: Seq<char>, letter: char) -> bool {
    &&& text.len() == ENCODED_IDENTIFIER_BYTES
    &&& text[0] == letter
    &&& text[1] == '-'
    &&& forall|i: int| 2 <= i < ENCODED_IDENTIFIER_BYTES ==> is_hex_char(#[trigger] text[i])
}

/// The same, of the identifier's bytes.
pub open spec fn is_identifier_bytes(bytes: Seq<u8>, letter: u8) -> bool {
    &&& bytes.len() == ENCODED_IDENTIFIER_BYTES
    &&& bytes[0] == letter
    &&& bytes[1] == 45
    &&& forall|i: int|
        2 <= i < ENCODED_IDENTIFIER_BYTES ==> is_hex_byte(#[trigger] bytes[i])
}

pub open spec fn is_hex_byte(byte: u8) -> bool {
    (48 <= byte <= 57) || (97 <= byte <= 102)
}

/// Identifier bytes are the encoding of a canonical identifier, and of nothing else.
pub proof fn lemma_identifier_bytes(text: Seq<char>, letter: u8)
    requires
        letter < 128,
    ensures
        is_identifier_bytes(encode_utf8(text), letter) <==> is_canonical_identifier(
            text,
            letter as char,
        ),
        is_canonical_identifier(text, letter as char) ==> encode_utf8(text).len()
            == ENCODED_IDENTIFIER_BYTES,
{
    if is_canonical_identifier(text, letter as char) {
        assert(is_ascii_chars(text));
        is_ascii_chars_encode_utf8(text);
    }
    if is_identifier_bytes(encode_utf8(text), letter) {
        let bytes = encode_utf8(text);
        lemma_identifier_bytes_are_text(bytes, letter);
        let plain = Seq::new(bytes.len(), |i: int| bytes[i] as char);
        encode_utf8_decode_utf8(text);
        encode_utf8_decode_utf8(plain);
        assert(text == plain);
    }
}

/// Identifier bytes encode the text that has the same characters.
pub proof fn lemma_identifier_bytes_are_text(bytes: Seq<u8>, letter: u8)
    requires
        letter < 128,
        is_identifier_bytes(bytes, letter),
    ensures
        valid_utf8(bytes),
        encode_utf8(Seq::new(bytes.len(), |i: int| bytes[i] as char)) == bytes,
{
    let plain = Seq::new(bytes.len(), |i: int| bytes[i] as char);
    assert forall|i: int| 0 <= i < plain.len() implies (plain[i] as u32) < 128 by {
        if i >= 2 {
            assert(is_hex_byte(bytes[i]));
        }
    }
    assert(is_ascii_chars(plain));
    is_ascii_chars_encode_utf8(plain);
    assert(encode_utf8(plain) =~= bytes);
    encode_utf8_valid_utf8(plain);
}

/// The owner's workspace, user and device, by name.
pub struct OwnerIdentityView {
    pub workspace: Seq<char>,
    pub user: Seq<char>,
    pub device: Seq<char>,
}

impl OwnerIdentityView {
    pub open spec fn is_canonical(self) -> bool {
        &&& is_canonical_identifier(self.workspace, 'w')
        &&& is_canonical_identifier(self.user, 'u')
        &&& is_canonical_identifier(self.device, 'd')
    }

    /// The record's bytes.
    pub open spec fn encoded(self) -> Seq<u8> {
        OWNER_LOGICAL_IDENTITY_MAGIC@ + encode_utf8(self.workspace) + encode_utf8(self.user)
            + encode_utf8(self.device)
    }
}

/// The bytes are a record.
pub open spec fn is_record_bytes(bytes: Seq<u8>) -> bool {
    &&& bytes.len() == OWNER_LOGICAL_IDENTITY_RECORD_BYTES
    &&& bytes.subrange(0, 8) == OWNER_LOGICAL_IDENTITY_MAGIC@
    &&& is_identifier_bytes(bytes.subrange(8, 42), 119)
    &&& is_identifier_bytes(bytes.subrange(42, 76), 117)
    &&& is_identifier_bytes(bytes.subrange(76, 110), 100)
}

/// The bytes of a canonical identity are a record of 110 bytes, each part at its place.
pub proof fn lemma_encoding_is_a_record(identity: OwnerIdentityView)
    requires
        identity.is_canonical(),
    ensures
        is_record_bytes(identity.encoded()),
        identity.encoded().subrange(8, 42) == encode_utf8(identity.workspace),
        identity.encoded().subrange(42, 76) == encode_utf8(identity.user),
        identity.encoded().subrange(76, 110) == encode_utf8(identity.device),
{
    lemma_identifier_bytes(identity.workspace, 119);
    lemma_identifier_bytes(identity.user, 117);
    lemma_identifier_bytes(identity.device, 100);
    let bytes = identity.encoded();
    assert(bytes.len() == 110);
    assert(bytes.subrange(0, 8) =~= OWNER_LOGICAL_IDENTITY_MAGIC@);
    assert(bytes.subrange(8, 42) =~= encode_utf8(identity.workspace));
    assert(bytes.subrange(42, 76) =~= encode_utf8(identity.user));
    assert(bytes.subrange(76, 110) =~= encode_utf8(identity.device));
}

/// Two identities with the same record are the same identity.
pub proof fn lemma_record_determines_identity(left: OwnerIdentityView, right: OwnerIdentityView)
    requires
        left.is_canonical(),
        right.is_canonical(),
        left.encoded() == right.encoded(),
    ensures
        left == right,
{
    lemma_encoding_is_a_record(left);
    lemma_encoding_is_a_record(right);
    crate::bytes::lemma_encoding_is_injective(left.workspace, right.workspace);
    crate::bytes::lemma_encoding_is_injective(left.user, right.user);
    crate::bytes::lemma_encoding_is_injective(left.device, right.device);
}

/// Every record is the encoding of a canonical identity.
pub proof fn lemma_record_has_an_identity(bytes: Seq<u8>)
    requires
        is_record_bytes(bytes),
    ensures
        exists|identity: OwnerIdentityView|
            identity.is_canonical() && #[trigger] identity.encoded() == bytes,
{
    let workspace = bytes.subrange(8, 42);
    let user = bytes.subrange(42, 76);
    let device = bytes.subrange(76, 110);
    lemma_identifier_bytes_are_text(workspace, 119);
    lemma_identifier_bytes_are_text(user, 117);
    lemma_identifier_bytes_are_text(device, 100);
    let identity = OwnerIdentityView {
        workspace: Seq::new(workspace.len(), |i: int| workspace[i] as char),
        user: Seq::new(user.len(), |i: int| user[i] as char),
        device: Seq::new(device.len(), |i: int| device[i] as char),
    };
    lemma_identifier_bytes(identity.workspace, 119);
    lemma_identifier_bytes(identity.user, 117);
    lemma_identifier_bytes(identity.device, 100);
    assert(identity.encoded() =~= bytes);
}

/// One versioned, non-secret logical identity tuple for the initial owner PC. Its identifiers are
/// always canonical.
#[derive(Eq, Debug)]
pub struct OwnerLogicalIdentityRecord {
    workspace: WorkspaceId,
    user: UserId,
    device: DeviceId,
}

impl View for OwnerLogicalIdentityRecord {
    type V = OwnerIdentityView;

    closed spec fn view(&self) -> OwnerIdentityView {
        OwnerIdentityView {
            workspace: self.workspace@,
            user: self.user@,
            device: self.device@,
        }
    }
}

impl OwnerLogicalIdentityRecord {
    #[verifier::type_invariant]
    spec fn has_canonical_identifiers(&self) -> bool {
        self@.is_canonical()
    }

    /// Returns the internal workspace identifier.
    pub fn workspace_id(&self) -> (id: &WorkspaceId)
        ensures
            id@ == self@.workspace,
    {
        &self.workspace
    }

    /// Returns the internal initial-owner principal identifier.
    pub fn user_id(&self) -> (id: &UserId)
        ensures
            id@ == self@.user,
    {
        &self.user
    }

    /// Returns the internal logical owner-PC device identifier.
    pub fn device_id(&self) -> (id: &DeviceId)
        ensures
            id@ == self@.device,
    {
        &self.device
    }

    /// Encodes the exact bounded v1 record.
    pub fn encode(&self) -> (record: [u8; 110])
        ensures
            record@ == self@.encoded(),
            self@.is_canonical(),
    {
        proof {
            use_type_invariant(self);
            lemma_identifier_bytes(self.workspace@, 119);
            lemma_identifier_bytes(self.user@, 117);
            lemma_identifier_bytes(self.device@, 100);
            lemma_encoding_is_a_record(self@);
        }
        let mut bytes: Vec<u8> = Vec::new();
        append_bytes(&mut bytes, &OWNER_LOGICAL_IDENTITY_MAGIC);
        append_bytes(&mut bytes, self.workspace.as_str().as_bytes());
        append_bytes(&mut bytes, self.user.as_str().as_bytes());
        append_bytes(&mut bytes, self.device.as_str().as_bytes());
        assert(bytes@ =~= self@.encoded());
        let mut record: [u8; 110] = [0; 110];
        let mut i: usize = 0;
        while i < 110
            invariant
                i <= 110,
                bytes@.len() == 110,
                forall|j: int| 0 <= j < i ==> record@[j] == bytes@[j],
            decreases 110 - i,
        {
            record[i] = bytes[i];
            i = i + 1;
        }
        assert(record@ =~= bytes@);
        record
    }
}

impl Clone for OwnerLogicalIdentityRecord {
    fn clone(&self) -> (copy: Self)
        ensures
            copy@ == self@,
    {
        proof {
            use_type_invariant(self);
        }
        OwnerLogicalIdentityRecord {
            workspace: self.workspace.clone(),
            user: self.user.clone(),
            device: self.device.clone(),
        }
    }
}

impl PartialEq for OwnerLogicalIdentityRecord {
    fn eq(&self, other: &Self) -> (same: bool) {
        self.workspace == other.workspace && self.user == other.user && self.device == other.device
    }
}

impl vstd::std_specs::cmp::PartialEqSpecImpl for OwnerLogicalIdentityRecord {
    open spec fn obeys_eq_spec() -> bool {
        true
    }

    open spec fn eq_spec(&self, other: &Self) -> bool {
        self@ == other@
    }
}

fn hex_digit(value: u8) -> (digit: &'static str)
    requires
        value < 16,
    ensures
        digit@ == seq![hex_char(value as int)],
{
    proof {
        reveal_strlit("0");
        reveal_strlit("1");
        reveal_strlit("2");
        reveal_strlit("3");
        reveal_strlit("4");
        reveal_strlit("5");
        reveal_strlit("6");
        reveal_strlit("7");
        reveal_strlit("8");
        reveal_strlit("9");
        reveal_strlit("a");
        reveal_strlit("b");
        reveal_strlit("c");
        reveal_strlit("d");
        reveal_strlit("e");
        reveal_strlit("f");
    }
    match value {
        0 => "0",
        1 => "1",
        2 => "2",
        3 => "3",
        4 => "4",
        5 => "5",
        6 => "6",
        7 => "7",
        8 => "8",
        9 => "9",
        10 => "a",
        11 => "b",
        12 => "c",
        13 => "d",
        14 => "e",
        _ => "f",
    }
}

/// The lowercase hexadecimal digit of a value below 16.
pub open spec fn hex_char(value: int) -> char {
    if value < 10 {
        ((48 + value) as u8) as char
    } else {
        ((87 + value) as u8) as char
    }
}

/// The digits of a byte string, two for each byte, the high one first.
pub open spec fn hex_text(entropy: Seq<u8>) -> Seq<char> {
    Seq::new(
        2 * entropy.len(),
        |i: int|
            if i % 2 == 0 {
                hex_char(entropy[i / 2] as int / 16)
            } else {
                hex_char(entropy[i / 2] as int % 16)
            },
    )
}

/// Names something by a prefix and the digits of 128 random bits.
pub fn encode_identifier(prefix: &str, entropy: [u8; 16]) -> (identifier: String)
    ensures
        identifier@ == prefix@ + hex_text(entropy@),
{
    let mut identifier = prefix.to_owned();
    let mut i: usize = 0;
    while i < 16
        invariant
            i <= 16,
            identifier@ == prefix@ + hex_text(entropy@).subrange(0, 2 * i),
        decreases 16 - i,
    {
        let byte: u8 = entropy[i];
        identifier.append(hex_digit(byte / 16));
        identifier.append(hex_digit(byte % 16));
        assert(hex_text(entropy@).subrange(0, 2 * (i + 1)) =~= hex_text(entropy@).subrange(
            0,
            2 * i,
        ) + seq![hex_char(byte as int / 16)] + seq![hex_char(byte as int % 16)]);
        i = i + 1;
    }
    assert(hex_text(entropy@).subrange(0, 32) =~= hex_text(entropy@));
    identifier
}

/// Hexadecimal digits are hexadecimal digits.
proof fn lemma_hex_text(entropy: Seq<u8>)
    requires
        entropy.len() == 16,
    ensures
        hex_text(entropy).len() == 32,
        forall|i: int| 0 <= i < 32 ==> is_hex_char(#[trigger] hex_text(entropy)[i]),
{
    assert forall|i: int| 0 <= i < 32 implies is_hex_char(#[trigger] hex_text(entropy)[i]) by {
        let byte = entropy[i / 2];
        assert(0 <= byte as int / 16 < 16);
        assert(0 <= byte as int % 16 < 16);
    }
}

/// The identity named by three random values.
pub open spec fn identity_from_entropy(
    workspace: Seq<u8>,
    user: Seq<u8>,
    device: Seq<u8>,
) -> OwnerIdentityView {
    OwnerIdentityView {
        workspace: "w-"@ + hex_text(workspace),
        user: "u-"@ + hex_text(user),
        device: "d-"@ + hex_text(device),
    }
}

/// Identities made from random values are canonical.
pub proof fn lemma_identity_from_entropy_is_canonical(
    workspace: Seq<u8>,
    user: Seq<u8>,
    device: Seq<u8>,
)
    requires
        workspace.len() == 16,
        user.len() == 16,
        device.len() == 16,
    ensures
        identity_from_entropy(workspace, user, device).is_canonical(),
{
    reveal_strlit("w-");
    reveal_strlit("u-");
    reveal_strlit("d-");
    lemma_hex_text(workspace);
    lemma_hex_text(user);
    lemma_hex_text(device);
}

/// Names the owner's workspace, user and device by three random values.
pub fn record_from_entropy(
    workspace: [u8; 16],
    user: [u8; 16],
    device: [u8; 16],
) -> (record: Result<OwnerLogicalIdentityRecord, OwnerFirstSetupBootstrapInputError>)
    ensures
        record is Ok,
        record->Ok_0@ == identity_from_entropy(workspace@, user@, device@),
{
    proof {
        lemma_identity_from_entropy_is_canonical(workspace@, user@, device@);
    }
    let workspace_id = WorkspaceId::new(encode_identifier("w-", workspace));
    let user_id = UserId::new(encode_identifier("u-", user));
    let device_id = DeviceId::new(encode_identifier("d-", device));
    match (workspace_id, user_id, device_id) {
        (Ok(workspace), Ok(user), Ok(device)) => Ok(
            OwnerLogicalIdentityRecord { workspace, user, device },
        ),
        _ => Err(OwnerFirstSetupBootstrapInputError::MalformedLogicalIdentityRecord),
    }
}

/// Draws 128 random bits with `SystemRandom::fill`. Nothing is claimed of their value, nor that
/// they can be had.
#[verifier::external_body]
fn draw_entropy() -> (entropy: Option<[u8; 16]>) {
    let mut entropy = [0_u8; 16];
    SystemRandom::new().fill(&mut entropy).ok().map(|()| entropy)
}

/// Draws three independent random values, or fails when one cannot be had.
pub fn draw_owner_entropy() -> (drawn: Result<
    ([u8; 16], [u8; 16], [u8; 16]),
    OwnerFirstSetupBootstrapInputError,
>)
    ensures
        drawn matches Err(error) ==> error == OwnerFirstSetupBootstrapInputError::RandomUnavailable,
{
    let workspace = draw_entropy();
    if workspace.is_none() {
        return Err(OwnerFirstSetupBootstrapInputError::RandomUnavailable);
    }
    let user = draw_entropy();
    if user.is_none() {
        return Err(OwnerFirstSetupBootstrapInputError::RandomUnavailable);
    }
    let device = draw_entropy();
    combine_owner_entropy(workspace, user, device)
}

/// The three values, when all of them could be had.
pub fn combine_owner_entropy(
    workspace: Option<[u8; 16]>,
    user: Option<[u8; 16]>,
    device: Option<[u8; 16]>,
) -> (combined: Result<([u8; 16], [u8; 16], [u8; 16]), OwnerFirstSetupBootstrapInputError>)
    ensures
        match combined {
            Ok((w, u, d)) => workspace == Some(w) && user == Some(u) && device == Some(d),
            Err(error) => error == OwnerFirstSetupBootstrapInputError::RandomUnavailable && (
            workspace is None || user is None || device is None),
        },
{
    match (workspace, user, device) {
        (Some(w), Some(u), Some(d)) => Ok((w, u, d)),
        _ => Err(OwnerFirstSetupBootstrapInputError::RandomUnavailable),
    }
}

/// Generates a fresh opaque logical identity tuple from independent 128-bit values, in memory
/// only.
pub fn generate_owner_logical_identity_record() -> (generated: Result<
    OwnerLogicalIdentityRecord,
    OwnerFirstSetupBootstrapInputError,
>)
    ensures
        match generated {
            Ok(record) => exists|w: [u8; 16], u: [u8; 16], d: [u8; 16]|
                record@ == #[trigger] identity_from_entropy(w@, u@, d@),
            Err(error) => error == OwnerFirstSetupBootstrapInputError::RandomUnavailable,
        },
{
    match draw_owner_entropy() {
        Ok((workspace, user, device)) => record_from_entropy(workspace, user, device),
        Err(error) => Err(error),
    }
}

/// The bytes are an identifier with a prefix: well-formed text of 34 bytes that starts with the
/// prefix and has only lowercase hexadecimal digits after it.
pub open spec fn is_prefixed_identifier(bytes: Seq<u8>, prefix: Seq<u8>) -> bool {
    &&& valid_utf8(bytes)
    &&& bytes.len() == ENCODED_IDENTIFIER_BYTES
    &&& prefix.is_prefix_of(bytes)
    &&& forall|i: int|
        prefix.len() <= i < ENCODED_IDENTIFIER_BYTES ==> is_hex_byte(#[trigger] bytes[i])
}

/// With a letter and a hyphen as the prefix, these are the identifiers of the record.
proof fn lemma_letter_prefix(bytes: Seq<u8>, prefix: Seq<char>, letter: u8)
    requires
        letter < 128,
        prefix == seq![letter as char, '-'],
    ensures
        is_prefixed_identifier(bytes, encode_utf8(prefix)) <==> is_identifier_bytes(bytes, letter),
{
    assert(is_ascii_chars(prefix));
    is_ascii_chars_encode_utf8(prefix);
    let encoded = encode_utf8(prefix);
    assert(encoded =~= seq![letter, 45u8]);
    if is_identifier_bytes(bytes, letter) {
        lemma_identifier_bytes_are_text(bytes, letter);
        assert(encoded =~= bytes.subrange(0, 2));
    }
    if is_prefixed_identifier(bytes, encoded) {
        assert(encoded == bytes.subrange(0, 2));
        assert(bytes.subrange(0, 2)[0] == bytes[0]);
        assert(bytes.subrange(0, 2)[1] == bytes[1]);
    }
}

/// Decodes one identifier with its prefix.
pub fn decode_identifier(bytes: &[u8], prefix: &str) -> (identifier: Result<
    String,
    OwnerFirstSetupBootstrapInputError,
>)
    ensures
        match identifier {
            Ok(text) => is_prefixed_identifier(bytes@, encode_utf8(prefix@)) && encode_utf8(text@)
                == bytes@,
            Err(error) => !is_prefixed_identifier(bytes@, encode_utf8(prefix@)) && error
                == OwnerFirstSetupBootstrapInputError::MalformedLogicalIdentityRecord,
        },
{
    let text = match text_from_utf8(copy_bytes(bytes)) {
        Some(text) => text,
        None => {
            return Err(OwnerFirstSetupBootstrapInputError::MalformedLogicalIdentityRecord);
        },
    };
    let start = prefix.as_bytes();
    let ghost encoded = encode_utf8(prefix@);
    if bytes.len() != ENCODED_IDENTIFIER_BYTES || start.len() > bytes.len() {
        return Err(OwnerFirstSetupBootstrapInputError::MalformedLogicalIdentityRecord);
    }
    if !same_bytes(slice_bytes(bytes, 0, start.len()).as_slice(), start) {
        return Err(OwnerFirstSetupBootstrapInputError::MalformedLogicalIdentityRecord);
    }
    let mut i: usize = start.len();
    while i < ENCODED_IDENTIFIER_BYTES
        invariant
            encoded.len() <= i <= ENCODED_IDENTIFIER_BYTES,
            bytes@.len() == ENCODED_IDENTIFIER_BYTES,
            encoded == encode_utf8(prefix@),
            forall|j: int| encoded.len() <= j < i ==> is_hex_byte(#[trigger] bytes@[j]),
        decreases ENCODED_IDENTIFIER_BYTES - i,
    {
        let byte: u8 = bytes[i];
        if !((48 <= byte && byte <= 57) || (97 <= byte && byte <= 102)) {
            assert(!is_hex_byte(bytes@[i as int]));
            return Err(OwnerFirstSetupBootstrapInputError::MalformedLogicalIdentityRecord);
        }
        i = i + 1;
    }
    Ok(text)
}

/// What [`encode_identifier`] makes with a prefix of two bytes is an identifier with that prefix,
/// so decoding gives it back. An identifier with an upper-case digit after its prefix is none.
pub proof fn encoded_identifier_is_decoded(prefix: Seq<char>, entropy: Seq<u8>, bytes: Seq<u8>)
    requires
        encode_utf8(prefix).len() == 2,
        entropy.len() == 16,
    ensures
        is_prefixed_identifier(encode_utf8(prefix + hex_text(entropy)), encode_utf8(prefix)),
        (exists|i: int| 2 <= i < bytes.len() && 65 <= #[trigger] bytes[i] <= 70)
            ==> !is_prefixed_identifier(bytes, encode_utf8(prefix)),
{
    let digits = hex_text(entropy);
    let encoded = encode_utf8(prefix + digits);
    lemma_hex_text(entropy);
    lemma_encoding_of_concatenation(prefix, digits);
    encode_utf8_valid_utf8(prefix + digits);
    assert forall|i: int| 0 <= i < digits.len() implies (digits[i] as u32) < 128 by {
        assert(is_hex_char(digits[i]));
    }
    assert(is_ascii_chars(digits));
    is_ascii_chars_encode_utf8(digits);
    assert(encode_utf8(prefix) =~= encoded.subrange(0, 2));
    assert forall|i: int| 2 <= i < ENCODED_IDENTIFIER_BYTES implies is_hex_byte(
        #[trigger] encoded[i],
    ) by {
        assert(encoded[i] == encode_utf8(digits)[i - 2]);
        assert(is_hex_char(digits[i - 2]));
    }
}

/// Decodes the exact canonical v1 non-secret owner logical-identity record. Whatever decodes is
/// the encoding of the identity that comes out.
pub fn decode_owner_logical_identity_record(input: &[u8]) -> (decoded: Result<
    OwnerLogicalIdentityRecord,
    OwnerFirstSetupBootstrapInputError,
>)
    ensures
        match decoded {
            Ok(record) => is_record_bytes(input@) && record@.is_canonical() && record@.encoded()
                == input@,
            Err(error) => !is_record_bytes(input@) && error
                == OwnerFirstSetupBootstrapInputError::MalformedLogicalIdentityRecord,
        },
{
    if input.len() != OWNER_LOGICAL_IDENTITY_RECORD_BYTES || !same_bytes(
        slice_bytes(input, 0, 8).as_slice(),
        &OWNER_LOGICAL_IDENTITY_MAGIC,
    ) {
        return Err(OwnerFirstSetupBootstrapInputError::MalformedLogicalIdentityRecord);
    }
    proof {
        reveal_strlit("w-");
        reveal_strlit("u-");
        reveal_strlit("d-");
        assert("w-"@ =~= seq!['w', '-']);
        assert("u-"@ =~= seq!['u', '-']);
        assert("d-"@ =~= seq!['d', '-']);
        lemma_letter_prefix(input@.subrange(8, 42), "w-"@, 119);
        lemma_letter_prefix(input@.subrange(42, 76), "u-"@, 117);
        lemma_letter_prefix(input@.subrange(76, 110), "d-"@, 100);
    }
    let workspace = decode_identifier(slice_bytes(input, 8, 42).as_slice(), "w-")?;
    let user = decode_identifier(slice_bytes(input, 42, 76).as_slice(), "u-")?;
    let device = decode_identifier(slice_bytes(input, 76, 110).as_slice(), "d-")?;
    proof {
        lemma_identifier_bytes(workspace@, 119);
        lemma_identifier_bytes(user@, 117);
        lemma_identifier_bytes(device@, 100);
        assert(input@ =~= OWNER_LOGICAL_IDENTITY_MAGIC@ + encode_utf8(workspace@) + encode_utf8(
            user@,
        ) + encode_utf8(device@));
    }
    let workspace_id = WorkspaceId::new(workspace);
    let user_id = UserId::new(user);
    let device_id = DeviceId::new(device);
    match (workspace_id, user_id, device_id) {
        (Ok(workspace), Ok(user), Ok(device)) => Ok(
            OwnerLogicalIdentityRecord { workspace, user, device },
        ),
        _ => Err(OwnerFirstSetupBootstrapInputError::MalformedLogicalIdentityRecord),
    }
}

/// Result of ensuring the first owner logical-identity record exists exactly once.
#[derive(PartialEq, Eq, Debug)]
pub enum OwnerLogicalIdentityRecordOutcome {
    /// This call atomically created the first persistent record.
    Created(OwnerLogicalIdentityRecord),
    /// A valid persistent record already existed and was reused exactly.
    Existing(OwnerLogicalIdentityRecord),
}

/// What an [`OwnerLogicalIdentityRecordOutcome`] says.
pub enum IdentityOutcomeView {
    Created(OwnerIdentityView),
    Existing(OwnerIdentityView),
}

impl IdentityOutcomeView {
    /// The identity that is there now.
    pub open spec fn identity(self) -> OwnerIdentityView {
        match self {
            IdentityOutcomeView::Created(identity) => identity,
            IdentityOutcomeView::Existing(identity) => identity,
        }
    }
}

impl View for OwnerLogicalIdentityRecordOutcome {
    type V = IdentityOutcomeView;

    open spec fn view(&self) -> IdentityOutcomeView {
        match *self {
            OwnerLogicalIdentityRecordOutcome::Created(record) => IdentityOutcomeView::Created(
                record@,
            ),
            OwnerLogicalIdentityRecordOutcome::Existing(record) => IdentityOutcomeView::Existing(
                record@,
            ),
        }
    }
}

impl OwnerLogicalIdentityRecordOutcome {
    /// Returns the authoritative logical identity tuple selected by this operation.
    pub fn record(&self) -> (record: &OwnerLogicalIdentityRecord)
        ensures
            record@ == self@.identity(),
    {
        match self {
            OwnerLogicalIdentityRecordOutcome::Created(record) => record,
            OwnerLogicalIdentityRecordOutcome::Existing(record) => record,
        }
    }

    /// Reports whether this call created persistent state.
    pub fn was_created(&self) -> (created: bool)
        ensures
            created == (self is Created),
    {
        match self {
            OwnerLogicalIdentityRecordOutcome::Created(_) => true,
            OwnerLogicalIdentityRecordOutcome::Existing(_) => false,
        }
    }
}

/// The identity that record bytes stand for.
pub open spec fn decoded_identity(bytes: Seq<u8>) -> Result<
    OwnerIdentityView,
    OwnerFirstSetupBootstrapInputError,
> {
    if is_record_bytes(bytes) {
        Ok(choose|identity: OwnerIdentityView|
            identity.is_canonical() && #[trigger] identity.encoded() == bytes)
    } else {
        Err(OwnerFirstSetupBootstrapInputError::MalformedLogicalIdentityRecord)
    }
}

/// A record decodes to the one identity that it encodes.
pub proof fn lemma_decoded_identity(identity: OwnerIdentityView)
    requires
        identity.is_canonical(),
    ensures
        decoded_identity(identity.encoded()) == Ok::<
            OwnerIdentityView,
            OwnerFirstSetupBootstrapInputError,
        >(identity),
{
    lemma_encoding_is_a_record(identity);
    let chosen = decoded_identity(identity.encoded())->Ok_0;
    lemma_record_determines_identity(chosen, identity);
}

/// The identity of a record, or the error.
pub open spec fn identity_view(
    record: Result<OwnerLogicalIdentityRecord, OwnerFirstSetupBootstrapInputError>,
) -> Result<OwnerIdentityView, OwnerFirstSetupBootstrapInputError> {
    match record {
        Ok(value) => Ok(value@),
        Err(error) => Err(error),
    }
}

pub const IDENTITY_READ_LIMIT: u64 = 111;

/// Load the owner's identity below a state root.
pub open spec fn load_identity_plan(absolute: bool, uid: u32) -> HostPlan<
    Result<OwnerIdentityView, OwnerFirstSetupBootstrapInputError>,
> {
    and_then(
        state_root_plan(
            absolute,
            uid,
            OwnerFirstSetupBootstrapInputError::InvalidStateRoot,
            OwnerFirstSetupBootstrapInputError::InsecureStateRoot,
        ),
        |_root: ()|
            and_then(
                require_private_directory_plan(
                    Place::ApplicationDirectory,
                    uid,
                    OwnerFirstSetupBootstrapInputError::InsecureApplicationDirectory,
                ),
                |_application: ()|
                    and_then(
                        require_private_directory_plan(
                            Place::BootstrapDirectory,
                            uid,
                            OwnerFirstSetupBootstrapInputError::InsecureBootstrapDirectory,
                        ),
                        |_bootstrap: ()| read_identity_plan(uid),
                    ),
            ),
    )
}

/// Read and decode the record, once the directories are trusted.
pub open spec fn read_identity_plan(uid: u32) -> HostPlan<
    Result<OwnerIdentityView, OwnerFirstSetupBootstrapInputError>,
> {
    and_then(
        read_record_plan(
            Place::IdentityRecord,
            RecordKind::Identity,
            uid,
            IDENTITY_READ_LIMIT,
            OwnerFirstSetupBootstrapInputError::LogicalIdentityRecordUnavailable,
            OwnerFirstSetupBootstrapInputError::LogicalIdentityRecordInsecure,
            OwnerFirstSetupBootstrapInputError::LogicalIdentityRecordReadFailed,
        ),
        |bytes: Seq<u8>| Plan::Finish(decoded_identity(bytes)),
    )
}

fn read_identity(replies: &mut Replies<'_>, uid: u32) -> (read: Result<
    Result<OwnerLogicalIdentityRecord, OwnerFirstSetupBootstrapInputError>,
    OutsideRequest<Vec<u8>>,
>)
    requires
        old(replies).wf(),
    ensures
        went_along(
            read_identity_plan(uid),
            *old(replies),
            match read {
                Ok(record) => Ok(identity_view(record)),
                Err(request) => Err(request@),
            },
            *final(replies),
        ),
{
    broadcast use lemma_follow_bind;

    match read_record(
        replies,
        Place::IdentityRecord,
        RecordKind::Identity,
        uid,
        IDENTITY_READ_LIMIT,
        OwnerFirstSetupBootstrapInputError::LogicalIdentityRecordUnavailable,
        OwnerFirstSetupBootstrapInputError::LogicalIdentityRecordInsecure,
        OwnerFirstSetupBootstrapInputError::LogicalIdentityRecordReadFailed,
    )? {
        Err(error) => Ok(Err(error)),
        Ok(bytes) => {
            let decoded = decode_owner_logical_identity_record(bytes.as_slice());
            proof {
                if decoded is Ok {
                    lemma_decoded_identity(decoded->Ok_0@);
                }
            }
            Ok(decoded)
        },
    }
}

fn load_identity(replies: &mut Replies<'_>, absolute: bool, uid: u32) -> (loaded: Result<
    Result<OwnerLogicalIdentityRecord, OwnerFirstSetupBootstrapInputError>,
    OutsideRequest<Vec<u8>>,
>)
    requires
        old(replies).wf(),
    ensures
        went_along(
            load_identity_plan(absolute, uid),
            *old(replies),
            match loaded {
                Ok(record) => Ok(identity_view(record)),
                Err(request) => Err(request@),
            },
            *final(replies),
        ),
{
    broadcast use lemma_follow_bind;

    if let Err(error) = validate_state_root(
        replies,
        absolute,
        uid,
        OwnerFirstSetupBootstrapInputError::InvalidStateRoot,
        OwnerFirstSetupBootstrapInputError::InsecureStateRoot,
    )? {
        return Ok(Err(error));
    }
    if let Err(error) = require_private_directory(
        replies,
        Place::ApplicationDirectory,
        uid,
        OwnerFirstSetupBootstrapInputError::InsecureApplicationDirectory,
    )? {
        return Ok(Err(error));
    }
    if let Err(error) = require_private_directory(
        replies,
        Place::BootstrapDirectory,
        uid,
        OwnerFirstSetupBootstrapInputError::InsecureBootstrapDirectory,
    )? {
        return Ok(Err(error));
    }
    read_identity(replies, uid)
}

/// Loads the owner's identity below a state root, as far as the replies go. Read-only.
pub fn load_owner_logical_identity_record_from_state_root(
    state_root: &[u8],
    uid: u32,
    replies: &Vec<OutsideReply<Vec<u8>>>,
) -> (progress: Progress<
    OutsideRequest<Vec<u8>>,
    Result<OwnerLogicalIdentityRecord, OwnerFirstSetupBootstrapInputError>,
>)
    ensures
        (match progress {
            Progress::Done(record) => Progress::Done(identity_view(record)),
            Progress::Waiting(request) => Progress::Waiting(request@),
        }) == follow(
            load_identity_plan(is_absolute_path(state_root@), uid),
            reply_views(replies@),
        ).0,
{
    let mut cursor = Replies::new(replies);
    match load_identity(&mut cursor, path_is_absolute(state_root), uid) {
        Ok(record) => Progress::Done(record),
        Err(request) => Progress::Waiting(request),
    }
}

/// Loads the owner's identity below the state root of the environment, as far as the replies go.
pub fn load_owner_logical_identity_record_from_env(
    environment: &HostEnvironment,
    replies: &Vec<OutsideReply<Vec<u8>>>,
) -> (progress: Progress<
    OutsideRequest<Vec<u8>>,
    Result<OwnerLogicalIdentityRecord, OwnerFirstSetupBootstrapInputError>,
>)
    ensures
        (match progress {
            Progress::Done(record) => Progress::Done(identity_view(record)),
            Progress::Waiting(request) => Progress::Waiting(request@),
        }) == follow(load_identity_from_environment(*environment), reply_views(replies@)).0,
{
    match environment.state_root() {
        None => Progress::Done(Err(OwnerFirstSetupBootstrapInputError::InvalidStateRoot)),
        Some(state_root) => {
            proof {
                crate::environment::lemma_state_root_is_absolute(*environment);
            }
            load_owner_logical_identity_record_from_state_root(
                state_root.as_slice(),
                environment.euid,
                replies,
            )
        },
    }
}

/// Ask for three random values.
pub open spec fn entropy_plan() -> HostPlan<Option<(Seq<u8>, Seq<u8>, Seq<u8>)>> {
    Plan::Ask(
        OutsideRequest::OwnerEntropy,
        |reply: OutsideReply<Seq<u8>>|
            Plan::Finish(
                match reply {
                    OutsideReply::Entropy(workspace, user, device) => Some(
                        (workspace@, user@, device@),
                    ),
                    _ => None,
                },
            ),
    )
}

fn entropy(replies: &mut Replies<'_>) -> (drawn: Result<
    Option<([u8; 16], [u8; 16], [u8; 16])>,
    OutsideRequest<Vec<u8>>,
>)
    requires
        old(replies).wf(),
    ensures
        went_along(
            entropy_plan(),
            *old(replies),
            match drawn {
                Ok(Some((workspace, user, device))) => Ok(Some((workspace@, user@, device@))),
                Ok(None) => Ok(None),
                Err(request) => Err(request@),
            },
            *final(replies),
        ),
{
    proof {
        reveal_with_fuel(follow, 2);
    }
    match replies.take() {
        None => Err(OutsideRequest::OwnerEntropy),
        Some(OutsideReply::Entropy(workspace, user, device)) => Ok(
            Some((*workspace, *user, *device)),
        ),
        Some(_) => Ok(None),
    }
}

/// The owner's identity exists below a state root: loaded if a record is there, otherwise drawn
/// and published once.
pub open spec fn ensure_identity_plan(absolute: bool, uid: u32) -> HostPlan<
    Result<IdentityOutcomeView, OwnerFirstSetupBootstrapInputError>,
> {
    and_then(
        ensure_bootstrap_directories_plan(absolute, uid),
        |_directories: ()| ensure_record_plan(absolute, uid),
    )
}

/// The same, once the directories are there.
pub open spec fn ensure_record_plan(absolute: bool, uid: u32) -> HostPlan<
    Result<IdentityOutcomeView, OwnerFirstSetupBootstrapInputError>,
> {
    bind(
        look_up(Place::IdentityRecord),
        |found: Lookup|
            match found {
                Lookup::Found(_) => replay_identity_plan(absolute, uid),
                Lookup::Missing => create_identity_plan(uid),
                Lookup::Unreadable => Plan::Finish(
                    Err(OwnerFirstSetupBootstrapInputError::LogicalIdentityRecordInsecure),
                ),
            },
    )
}

/// Accept the record that is there.
pub open spec fn replay_identity_plan(absolute: bool, uid: u32) -> HostPlan<
    Result<IdentityOutcomeView, OwnerFirstSetupBootstrapInputError>,
> {
    and_then(
        load_identity_plan(absolute, uid),
        |identity: OwnerIdentityView| Plan::Finish(Ok(IdentityOutcomeView::Existing(identity))),
    )
}

pub open spec fn ensure_bootstrap_directories_plan(absolute: bool, uid: u32) -> HostPlan<
    Result<(), OwnerFirstSetupBootstrapInputError>,
> {
    and_then(
        state_root_plan(
            absolute,
            uid,
            OwnerFirstSetupBootstrapInputError::InvalidStateRoot,
            OwnerFirstSetupBootstrapInputError::InsecureStateRoot,
        ),
        |_root: ()|
            and_then(
                ensure_private_directory_plan(
                    Place::ApplicationDirectory,
                    uid,
                    OwnerFirstSetupBootstrapInputError::DirectoryCreationFailed,
                    OwnerFirstSetupBootstrapInputError::InsecureApplicationDirectory,
                ),
                |_application: ()|
                    ensure_private_directory_plan(
                        Place::BootstrapDirectory,
                        uid,
                        OwnerFirstSetupBootstrapInputError::DirectoryCreationFailed,
                        OwnerFirstSetupBootstrapInputError::InsecureBootstrapDirectory,
                    ),
            ),
    )
}

/// Draw a new identity and publish its record.
pub open spec fn create_identity_plan(uid: u32) -> HostPlan<
    Result<IdentityOutcomeView, OwnerFirstSetupBootstrapInputError>,
> {
    bind(
        entropy_plan(),
        |drawn: Option<(Seq<u8>, Seq<u8>, Seq<u8>)>|
            match drawn {
                None => Plan::Finish(Err(OwnerFirstSetupBootstrapInputError::RandomUnavailable)),
                Some((workspace, user, device)) => publish_identity_plan(
                    identity_from_entropy(workspace, user, device),
                    uid,
                ),
            },
    )
}

pub open spec fn publish_identity_plan(identity: OwnerIdentityView, uid: u32) -> HostPlan<
    Result<IdentityOutcomeView, OwnerFirstSetupBootstrapInputError>,
> {
    and_then(
        publish_plan(
            Place::IdentityTemporary,
            Place::IdentityRecord,
            Place::BootstrapDirectory,
            identity.encoded(),
            RecordKind::Identity,
            uid,
            OwnerFirstSetupBootstrapInputError::LogicalIdentityRecordWriteFailed,
            OwnerFirstSetupBootstrapInputError::LogicalIdentityRecordCommitFailed,
            OwnerFirstSetupBootstrapInputError::DirectorySyncFailed,
        ),
        |_published: ()| Plan::Finish(Ok(IdentityOutcomeView::Created(identity))),
    )
}

/// The outcome as the plans see it.
pub open spec fn outcome_view(
    outcome: Result<OwnerLogicalIdentityRecordOutcome, OwnerFirstSetupBootstrapInputError>,
) -> Result<IdentityOutcomeView, OwnerFirstSetupBootstrapInputError> {
    match outcome {
        Ok(value) => Ok(value@),
        Err(error) => Err(error),
    }
}

fn ensure_bootstrap_directories(replies: &mut Replies<'_>, absolute: bool, uid: u32) -> (ensured: Result<
    Result<(), OwnerFirstSetupBootstrapInputError>,
    OutsideRequest<Vec<u8>>,
>)
    requires
        old(replies).wf(),
    ensures
        went_along(
            ensure_bootstrap_directories_plan(absolute, uid),
            *old(replies),
            seen(ensured),
            *final(replies),
        ),
{
    broadcast use lemma_follow_bind;

    if let Err(error) = validate_state_root(
        replies,
        absolute,
        uid,
        OwnerFirstSetupBootstrapInputError::InvalidStateRoot,
        OwnerFirstSetupBootstrapInputError::InsecureStateRoot,
    )? {
        return Ok(Err(error));
    }
    if let Err(error) = ensure_private_directory(
        replies,
        Place::ApplicationDirectory,
        uid,
        OwnerFirstSetupBootstrapInputError::DirectoryCreationFailed,
        OwnerFirstSetupBootstrapInputError::InsecureApplicationDirectory,
    )? {
        return Ok(Err(error));
    }
    ensure_private_directory(
        replies,
        Place::BootstrapDirectory,
        uid,
        OwnerFirstSetupBootstrapInputError::DirectoryCreationFailed,
        OwnerFirstSetupBootstrapInputError::InsecureBootstrapDirectory,
    )
}

fn create_identity(replies: &mut Replies<'_>, uid: u32) -> (created: Result<
    Result<OwnerLogicalIdentityRecordOutcome, OwnerFirstSetupBootstrapInputError>,
    OutsideRequest<Vec<u8>>,
>)
    requires
        old(replies).wf(),
    ensures
        went_along(
            create_identity_plan(uid),
            *old(replies),
            match created {
                Ok(outcome) => Ok(outcome_view(outcome)),
                Err(request) => Err(request@),
            },
            *final(replies),
        ),
{
    broadcast use lemma_follow_bind;

    let (workspace, user, device) = match entropy(replies)? {
        Some(values) => values,
        None => {
            return Ok(Err(OwnerFirstSetupBootstrapInputError::RandomUnavailable));
        },
    };
    let record = match record_from_entropy(workspace, user, device) {
        Ok(record) => record,
        Err(error) => {
            return Ok(Err(error));
        },
    };
    let encoded = record.encode();
    match publish(
        replies,
        Place::IdentityTemporary,
        Place::IdentityRecord,
        Place::BootstrapDirectory,
        &encoded,
        RecordKind::Identity,
        uid,
        OwnerFirstSetupBootstrapInputError::LogicalIdentityRecordWriteFailed,
        OwnerFirstSetupBootstrapInputError::LogicalIdentityRecordCommitFailed,
        OwnerFirstSetupBootstrapInputError::DirectorySyncFailed,
    )? {
        Err(error) => Ok(Err(error)),
        Ok(_) => Ok(Ok(OwnerLogicalIdentityRecordOutcome::Created(record))),
    }
}

fn ensure_identity(replies: &mut Replies<'_>, absolute: bool, uid: u32) -> (ensured: Result<
    Result<OwnerLogicalIdentityRecordOutcome, OwnerFirstSetupBootstrapInputError>,
    OutsideRequest<Vec<u8>>,
>)
    requires
        old(replies).wf(),
    ensures
        went_along(
            ensure_identity_plan(absolute, uid),
            *old(replies),
            match ensured {
                Ok(outcome) => Ok(outcome_view(outcome)),
                Err(request) => Err(request@),
            },
            *final(replies),
        ),
{
    broadcast use lemma_follow_bind;

    if let Err(error) = ensure_bootstrap_directories(replies, absolute, uid)? {
        return Ok(Err(error));
    }
    match replies.look_up(Place::IdentityRecord)? {
        Lookup::Found(_) => match load_identity(replies, absolute, uid)? {
            Ok(record) => Ok(Ok(OwnerLogicalIdentityRecordOutcome::Existing(record))),
            Err(error) => Ok(Err(error)),
        },
        Lookup::Missing => create_identity(replies, uid),
        Lookup::Unreadable => Ok(
            Err(OwnerFirstSetupBootstrapInputError::LogicalIdentityRecordInsecure),
        ),
    }
}

/// Ensures that the owner's identity exists exactly once below a state root, as far as the
/// replies go. A valid record is replayed, never replaced.
pub fn ensure_owner_logical_identity_record_at_state_root(
    state_root: &[u8],
    uid: u32,
    replies: &Vec<OutsideReply<Vec<u8>>>,
) -> (progress: Progress<
    OutsideRequest<Vec<u8>>,
    Result<OwnerLogicalIdentityRecordOutcome, OwnerFirstSetupBootstrapInputError>,
>)
    ensures
        (match progress {
            Progress::Done(outcome) => Progress::Done(outcome_view(outcome)),
            Progress::Waiting(request) => Progress::Waiting(request@),
        }) == follow(
            ensure_identity_plan(is_absolute_path(state_root@), uid),
            reply_views(replies@),
        ).0,
{
    let mut cursor = Replies::new(replies);
    match ensure_identity(&mut cursor, path_is_absolute(state_root), uid) {
        Ok(outcome) => Progress::Done(outcome),
        Err(request) => Progress::Waiting(request),
    }
}

/// Ensures that the owner's identity exists exactly once below the state root of the
/// environment, as far as the replies go.
pub fn ensure_owner_logical_identity_record_from_env(
    environment: &HostEnvironment,
    replies: &Vec<OutsideReply<Vec<u8>>>,
) -> (progress: Progress<
    OutsideRequest<Vec<u8>>,
    Result<OwnerLogicalIdentityRecordOutcome, OwnerFirstSetupBootstrapInputError>,
>)
    ensures
        (match progress {
            Progress::Done(outcome) => Progress::Done(outcome_view(outcome)),
            Progress::Waiting(request) => Progress::Waiting(request@),
        }) == follow(ensure_identity_from_environment(*environment), reply_views(replies@)).0,
{
    match environment.state_root() {
        None => Progress::Done(Err(OwnerFirstSetupBootstrapInputError::InvalidStateRoot)),
        Some(state_root) => {
            proof {
                crate::environment::lemma_state_root_is_absolute(*environment);
            }
            ensure_owner_logical_identity_record_at_state_root(
                state_root.as_slice(),
                environment.euid,
                replies,
            )
        },
    }
}

/// What [`OwnerFirstSetupBootstrapInputs`] say: the binding, and the transport fingerprint.
pub struct InputsView {
    pub binding: BindingView,
    pub transport_identity: Seq<u8>,
}

/// Fully composed input required by the fresh-owner transaction.
#[derive(PartialEq, Eq, Debug)]
pub struct OwnerFirstSetupBootstrapInputs {
    binding: DeviceIdentityBinding,
    transport_identity: TransportIdentity,
}

impl OwnerFirstSetupBootstrapInputs {
    pub closed spec fn spec_binding(&self) -> BindingView {
        self.binding@
    }

    pub closed spec fn spec_transport_identity(&self) -> TransportIdentity {
        self.transport_identity
    }

    pub open spec fn parts(&self) -> InputsView {
        InputsView {
            binding: self.spec_binding(),
            transport_identity: self.spec_transport_identity()@,
        }
    }

    /// Returns the enrolled initial owner-PC device binding.
    pub fn binding(&self) -> (binding: &DeviceIdentityBinding)
        ensures
            binding@ == self.spec_binding(),
    {
        &self.binding
    }

    /// Returns the current transport identity derived from the dedicated transport key.
    pub fn transport_identity(&self) -> (identity: TransportIdentity)
        ensures
            identity == self.spec_transport_identity(),
    {
        self.transport_identity
    }

    /// Consumes the carrier into the exact transaction arguments.
    pub fn into_parts(self) -> (parts: (DeviceIdentityBinding, TransportIdentity))
        ensures
            parts.0@ == self.spec_binding(),
            parts.1 == self.spec_transport_identity(),
    {
        (self.binding, self.transport_identity)
    }
}

/// Purely composes already-authoritative identity parts into the fresh-owner transaction input.
/// The device is enrolled; nothing else is granted.
pub fn compose_owner_first_setup_bootstrap_inputs_from_identity_parts(
    workspace_id: &WorkspaceId,
    user_id: &UserId,
    device_id: &DeviceId,
    public_device_identity: &PublicIdentityMaterial,
    transport_identity: TransportIdentity,
) -> (inputs: OwnerFirstSetupBootstrapInputs)
    ensures
        inputs.spec_binding() == (BindingView {
            workspace: workspace_id@,
            user: user_id@,
            device: device_id@,
            public_identity: public_device_identity@,
            lifecycle: DeviceLifecycle::Enrolled,
        }),
        inputs.spec_transport_identity() == transport_identity,
{
    OwnerFirstSetupBootstrapInputs {
        binding: DeviceIdentityBinding {
            workspace_id: workspace_id.clone(),
            user_id: user_id.clone(),
            device_id: device_id.clone(),
            public_identity: public_device_identity.clone(),
            lifecycle: DeviceLifecycle::Enrolled,
        },
        transport_identity,
    }
}

/// Purely composes an authoritative owner identity record into the fresh-owner input.
pub fn compose_owner_first_setup_bootstrap_inputs(
    record: &OwnerLogicalIdentityRecord,
    public_device_identity: &PublicIdentityMaterial,
    transport_identity: TransportIdentity,
) -> (inputs: OwnerFirstSetupBootstrapInputs)
    ensures
        inputs.spec_binding() == (BindingView {
            workspace: record@.workspace,
            user: record@.user,
            device: record@.device,
            public_identity: public_device_identity@,
            lifecycle: DeviceLifecycle::Enrolled,
        }),
        inputs.spec_transport_identity() == transport_identity,
{
    compose_owner_first_setup_bootstrap_inputs_from_identity_parts(
        record.workspace_id(),
        record.user_id(),
        record.device_id(),
        public_device_identity,
        transport_identity,
    )
}

/// Loads the three authoritative identities one after the other and composes them. The first that
/// cannot be had ends the attempt with its error; nothing is substituted.
pub fn load_owner_first_setup_bootstrap_inputs_with<L, D, T>(
    load_record: L,
    load_device_identity: D,
    load_transport_identity: T,
) -> (loaded: Result<OwnerFirstSetupBootstrapInputs, OwnerFirstSetupBootstrapInputError>) where
    L: FnOnce() -> Result<OwnerLogicalIdentityRecord, OwnerFirstSetupBootstrapInputError>,
    D: FnOnce() -> Result<PublicIdentityMaterial, UbuntuDeviceIdentityCustodyError>,
    T: FnOnce() -> Result<TransportIdentity, UbuntuTransportIdentityCustodyError>,

    requires
        call_requires(load_record, ()),
        forall|record: OwnerLogicalIdentityRecord| #[trigger]
            call_ensures(
                load_record,
                (),
                Ok::<OwnerLogicalIdentityRecord, OwnerFirstSetupBootstrapInputError>(record),
            ) ==> call_requires(load_device_identity, ()),
        forall|record: OwnerLogicalIdentityRecord, public_identity: PublicIdentityMaterial|
            #[trigger] call_ensures(
                load_record,
                (),
                Ok::<OwnerLogicalIdentityRecord, OwnerFirstSetupBootstrapInputError>(record),
            ) && #[trigger] call_ensures(
                load_device_identity,
                (),
                Ok::<PublicIdentityMaterial, UbuntuDeviceIdentityCustodyError>(public_identity),
            ) ==> call_requires(load_transport_identity, ()),
    ensures
        match loaded {
            Ok(inputs) => exists|
                record: OwnerLogicalIdentityRecord,
                public_identity: PublicIdentityMaterial,
            |
                {
                    &&& #[trigger] call_ensures(load_record, (), Ok(record))
                    &&& #[trigger] call_ensures(load_device_identity, (), Ok(public_identity))
                    &&& call_ensures(
                        load_transport_identity,
                        (),
                        Ok(inputs.spec_transport_identity()),
                    )
                    &&& inputs.spec_binding() == (BindingView {
                        workspace: record@.workspace,
                        user: record@.user,
                        device: record@.device,
                        public_identity: public_identity@,
                        lifecycle: DeviceLifecycle::Enrolled,
                    })
                },
            Err(error) => {
                ||| call_ensures(load_record, (), Err(error))
                ||| error matches OwnerFirstSetupBootstrapInputError::DeviceIdentityCustody(cause)
                    && (exists|record: OwnerLogicalIdentityRecord| #[trigger]
                    call_ensures(load_record, (), Ok(record))) && call_ensures(
                    load_device_identity,
                    (),
                    Err(cause),
                )
                ||| error matches OwnerFirstSetupBootstrapInputError::TransportIdentityCustody(
                    cause,
                ) && (exists|record: OwnerLogicalIdentityRecord| #[trigger]
                    call_ensures(load_record, (), Ok(record))) && (exists|
                    public_identity: PublicIdentityMaterial,
                | #[trigger]
                    call_ensures(load_device_identity, (), Ok(public_identity))) && call_ensures(
                    load_transport_identity,
                    (),
                    Err(cause),
                )
            },
        },
{
    let record = match load_record() {
        Ok(record) => record,
        Err(error) => {
            return Err(error);
        },
    };
    let public_identity = match load_device_identity() {
        Ok(public_identity) => public_identity,
        Err(cause) => {
            return Err(OwnerFirstSetupBootstrapInputError::DeviceIdentityCustody(cause));
        },
    };
    let transport_identity = match load_transport_identity() {
        Ok(transport_identity) => transport_identity,
        Err(cause) => {
            return Err(OwnerFirstSetupBootstrapInputError::TransportIdentityCustody(cause));
        },
    };
    Ok(compose_owner_first_setup_bootstrap_inputs(&record, &public_identity, transport_identity))
}

/// Load the identity below the state root that the environment gives.
pub open spec fn load_identity_from_environment(environment: HostEnvironment) -> HostPlan<
    Result<OwnerIdentityView, OwnerFirstSetupBootstrapInputError>,
> {
    match environment.state_root_path() {
        None => Plan::Finish(Err(OwnerFirstSetupBootstrapInputError::InvalidStateRoot)),
        Some(_) => load_identity_plan(true, environment.euid),
    }
}

/// Loads the identity as part of a longer operation.
pub(crate) fn load_identity_in(environment: &HostEnvironment, replies: &mut Replies<'_>) -> (outcome: Result<
    Result<OwnerLogicalIdentityRecord, OwnerFirstSetupBootstrapInputError>,
    OutsideRequest<Vec<u8>>,
>)
    requires
        old(replies).wf(),
    ensures
        went_along(
            load_identity_from_environment(*environment),
            *old(replies),
            match outcome {
                Ok(result) => Ok(identity_view(result)),
                Err(request) => Err(request@),
            },
            *final(replies),
        ),
{
    match environment.state_root() {
        None => Ok(Err(OwnerFirstSetupBootstrapInputError::InvalidStateRoot)),
        Some(_) => load_identity(replies, true, environment.euid),
    }
}

/// Load or create the identity below the state root that the environment gives.
pub open spec fn ensure_identity_from_environment(environment: HostEnvironment) -> HostPlan<
    Result<IdentityOutcomeView, OwnerFirstSetupBootstrapInputError>,
> {
    match environment.state_root_path() {
        None => Plan::Finish(Err(OwnerFirstSetupBootstrapInputError::InvalidStateRoot)),
        Some(_) => ensure_identity_plan(true, environment.euid),
    }
}

/// Ensures the identity as part of a longer operation.
pub(crate) fn ensure_identity_in(environment: &HostEnvironment, replies: &mut Replies<'_>) -> (outcome: Result<
    Result<OwnerLogicalIdentityRecordOutcome, OwnerFirstSetupBootstrapInputError>,
    OutsideRequest<Vec<u8>>,
>)
    requires
        old(replies).wf(),
    ensures
        went_along(
            ensure_identity_from_environment(*environment),
            *old(replies),
            match outcome {
                Ok(result) => Ok(outcome_view(result)),
                Err(request) => Err(request@),
            },
            *final(replies),
        ),
{
    match environment.state_root() {
        None => Ok(Err(OwnerFirstSetupBootstrapInputError::InvalidStateRoot)),
        Some(_) => ensure_identity(replies, true, environment.euid),
    }
}

} // verus!
