//! The bytes under which the registry keeps its records.
//!
//! A record is bound to the identifiers it is kept under: decoding is told those identifiers and
//! accepts nothing but the one encoding of a record that carries them.
//!
//! The format is this library's own choice: the leading bytes, the codes, the order of the fields
//! and the limit on a field's length. Databases written in another format are not read.
use vstd::prelude::*;
use vstd::string::*;
use vstd::utf8::*;

use crate::bytes::{append_bytes, same_bytes, slice_bytes, text_from_utf8};
use crate::domain::{
    DeviceId, DeviceIdentityAlgorithm, DeviceIdentityBinding, DeviceIdentityPublicKeyEncoding,
    DeviceLifecycle, PublicIdentityMaterial, PublicIdentityView, TransportIdentity, UserId,
    WorkspaceId,
};
use crate::registry::{
    DeviceView, MembershipLifecycle, MembershipView, RegisteredDevice, WorkspaceMembership,
    WorkspaceRole,
};

verus! {

/// A record that has no encoding, or bytes that are not the record looked for.
#[derive(Clone, Copy, PartialEq, Eq, Structural, Debug)]
pub struct MalformedRecord;

/// The first bytes of a membership, with the version of this library's format.
pub const MEMBERSHIP_MAGIC: [u8; 5] = [80, 82, 87, 77, 1];

/// The first bytes of a device, with the version of this library's format.
pub const DEVICE_MAGIC: [u8; 5] = [80, 82, 87, 68, 1];

/// The most bytes of one field, a limit of this library's format.
pub const MAX_FIELD_BYTES: usize = 65_535;

/// A length in two bytes, the high one first, and then the bytes.
pub open spec fn counted(bytes: Seq<u8>) -> Seq<u8> {
    seq![(bytes.len() / 256) as u8, (bytes.len() % 256) as u8] + bytes
}

pub open spec fn fits(bytes: Seq<u8>) -> bool {
    bytes.len() <= MAX_FIELD_BYTES
}

fn append_counted(target: &mut Vec<u8>, bytes: &[u8]) -> (fitted: bool)
    ensures
        fitted == fits(bytes@),
        fitted ==> final(target)@ == old(target)@ + counted(bytes@),
{
    if bytes.len() > MAX_FIELD_BYTES {
        return false;
    }
    target.push((bytes.len() / 256) as u8);
    target.push((bytes.len() % 256) as u8);
    append_bytes(target, bytes);
    assert(target@ =~= old(target)@ + counted(bytes@));
    true
}

pub open spec fn role_code(role: WorkspaceRole) -> u8 {
    match role {
        WorkspaceRole::Owner => 1,
        WorkspaceRole::Member => 2,
    }
}

pub open spec fn membership_lifecycle_code(lifecycle: MembershipLifecycle) -> u8 {
    match lifecycle {
        MembershipLifecycle::Active => 1,
        MembershipLifecycle::Suspended => 2,
        MembershipLifecycle::Removed => 3,
    }
}

pub open spec fn device_lifecycle_code(lifecycle: DeviceLifecycle) -> u8 {
    match lifecycle {
        DeviceLifecycle::PendingEnrollment => 1,
        DeviceLifecycle::Enrolled => 2,
        DeviceLifecycle::Revoked => 3,
    }
}

/// The bytes of a membership, when its identifiers are not too long.
pub open spec fn encoded_membership(membership: MembershipView) -> Option<Seq<u8>> {
    let workspace = encode_utf8(membership.workspace);
    let user = encode_utf8(membership.user);
    if fits(workspace) && fits(user) {
        Some(
            MEMBERSHIP_MAGIC@ + seq![
                role_code(membership.role),
                membership_lifecycle_code(membership.lifecycle),
            ] + counted(workspace) + counted(user),
        )
    } else {
        None
    }
}

/// The fixed part of a device's bytes.
pub open spec fn device_header(
    lifecycle: DeviceLifecycle,
    transport_identity: Option<TransportIdentity>,
) -> Seq<u8> {
    DEVICE_MAGIC@ + seq![device_lifecycle_code(lifecycle), 1u8, 1u8] + (match transport_identity {
        Some(identity) => seq![1u8] + identity@,
        None => seq![0u8] + Seq::new(32, |i: int| 0u8),
    })
}

/// The bytes of a device, when its identifiers and key are not too long.
pub open spec fn encoded_device(device: DeviceView) -> Option<Seq<u8>> {
    let workspace = encode_utf8(device.binding.workspace);
    let user = encode_utf8(device.binding.user);
    let name = encode_utf8(device.binding.device);
    let key = device.binding.public_identity.bytes;
    if fits(workspace) && fits(user) && fits(name) && fits(key) {
        Some(
            device_header(device.binding.lifecycle, device.transport_identity) + counted(workspace)
                + counted(user) + counted(name) + counted(key),
        )
    } else {
        None
    }
}

/// Two memberships of the same person in the same workspace with the same bytes are the same.
pub proof fn lemma_membership_encoding_is_injective(left: MembershipView, right: MembershipView)
    requires
        left.workspace == right.workspace,
        left.user == right.user,
        encoded_membership(left) is Some,
        encoded_membership(left) == encoded_membership(right),
    ensures
        left == right,
{
    let one = encoded_membership(left)->0;
    let two = encoded_membership(right)->0;
    assert(one[5] == role_code(left.role));
    assert(one[6] == membership_lifecycle_code(left.lifecycle));
    assert(two[5] == role_code(right.role));
    assert(two[6] == membership_lifecycle_code(right.lifecycle));
}

fn encode_role(role: WorkspaceRole) -> (code: u8)
    ensures
        code == role_code(role),
{
    match role {
        WorkspaceRole::Owner => 1,
        WorkspaceRole::Member => 2,
    }
}

fn encode_membership_lifecycle(lifecycle: MembershipLifecycle) -> (code: u8)
    ensures
        code == membership_lifecycle_code(lifecycle),
{
    match lifecycle {
        MembershipLifecycle::Active => 1,
        MembershipLifecycle::Suspended => 2,
        MembershipLifecycle::Removed => 3,
    }
}

fn encode_device_lifecycle(lifecycle: DeviceLifecycle) -> (code: u8)
    ensures
        code == device_lifecycle_code(lifecycle),
{
    match lifecycle {
        DeviceLifecycle::PendingEnrollment => 1,
        DeviceLifecycle::Enrolled => 2,
        DeviceLifecycle::Revoked => 3,
    }
}

/// The bytes, or nothing, as the rules see them.
pub open spec fn record_view(record: Result<Vec<u8>, MalformedRecord>) -> Option<Seq<u8>> {
    match record {
        Ok(bytes) => Some(bytes@),
        Err(_) => None,
    }
}

pub fn encode_membership_value(membership: &WorkspaceMembership) -> (record: Result<
    Vec<u8>,
    MalformedRecord,
>)
    ensures
        record_view(record) == encoded_membership(membership@),
{
    let mut record: Vec<u8> = Vec::new();
    append_bytes(&mut record, &MEMBERSHIP_MAGIC);
    record.push(encode_role(membership.role()));
    record.push(encode_membership_lifecycle(membership.lifecycle()));
    let ghost head = record@;
    if !append_counted(&mut record, membership.workspace_id().as_str().as_bytes()) {
        return Err(MalformedRecord);
    }
    if !append_counted(&mut record, membership.user_id().as_str().as_bytes()) {
        return Err(MalformedRecord);
    }
    assert(head =~= MEMBERSHIP_MAGIC@ + seq![
        role_code(membership@.role),
        membership_lifecycle_code(membership@.lifecycle),
    ]);
    Ok(record)
}

pub fn encode_device_value(device: &RegisteredDevice) -> (record: Result<Vec<u8>, MalformedRecord>)
    ensures
        record_view(record) == encoded_device(device@),
{
    let binding = device.binding();
    let mut record: Vec<u8> = Vec::new();
    append_bytes(&mut record, &DEVICE_MAGIC);
    record.push(encode_device_lifecycle(binding.lifecycle));
    record.push(1);
    record.push(1);
    match device.transport_identity() {
        Some(identity) => {
            record.push(1);
            append_bytes(&mut record, identity.as_bytes());
        },
        None => {
            record.push(0);
            append_bytes(&mut record, &[0; 32]);
        },
    }
    proof {
        let header = device_header(device@.binding.lifecycle, device@.transport_identity);
        assert(record@ =~= header);
    }
    if !append_counted(&mut record, binding.workspace_id.as_str().as_bytes()) {
        return Err(MalformedRecord);
    }
    if !append_counted(&mut record, binding.user_id.as_str().as_bytes()) {
        return Err(MalformedRecord);
    }
    if !append_counted(&mut record, binding.device_id.as_str().as_bytes()) {
        return Err(MalformedRecord);
    }
    if !append_counted(&mut record, binding.public_identity.as_bytes()) {
        return Err(MalformedRecord);
    }
    Ok(record)
}

/// Decodes the membership of one workspace and user. Succeeds on exactly the encodings of
/// memberships with these identifiers, and gives back the membership encoded.
pub fn decode_bound_membership_record(
    record: &[u8],
    workspace_id: &WorkspaceId,
    user_id: &UserId,
) -> (decoded: Result<WorkspaceMembership, MalformedRecord>)
    ensures
        match decoded {
            Ok(membership) => membership@.workspace == workspace_id@ && membership@.user == user_id@
                && encoded_membership(membership@) == Some(record@),
            Err(_) => forall|membership: MembershipView|
                membership.workspace == workspace_id@ && membership.user == user_id@
                    ==> #[trigger] encoded_membership(membership) != Some(record@),
        },
{
    if record.len() < 7 {
        assert forall|membership: MembershipView|
            membership.workspace == workspace_id@ && membership.user == user_id@ implies #[trigger] encoded_membership(
        membership) != Some(record@) by {
            if encoded_membership(membership) is Some {
                assert(encoded_membership(membership)->0.len() >= 7);
            }
        }
        return Err(MalformedRecord);
    }
    proof {
        assert forall|membership: MembershipView|
            membership.workspace == workspace_id@ && membership.user == user_id@
                && #[trigger] encoded_membership(membership) == Some(record@) implies record@[5]
            == role_code(membership.role) && record@[6] == membership_lifecycle_code(
            membership.lifecycle,
        ) by {
            let bytes = encoded_membership(membership)->0;
            assert(bytes[5] == role_code(membership.role));
            assert(bytes[6] == membership_lifecycle_code(membership.lifecycle));
        }
    }
    let role = match record[5] {
        1 => WorkspaceRole::Owner,
        2 => WorkspaceRole::Member,
        _ => {
            return Err(MalformedRecord);
        },
    };
    let lifecycle = match record[6] {
        1 => MembershipLifecycle::Active,
        2 => MembershipLifecycle::Suspended,
        3 => MembershipLifecycle::Removed,
        _ => {
            return Err(MalformedRecord);
        },
    };
    let membership = WorkspaceMembership {
        workspace_id: workspace_id.clone(),
        user_id: user_id.clone(),
        role,
        lifecycle,
    };
    proof {
        assert forall|other: MembershipView|
            other.workspace == workspace_id@ && other.user == user_id@
                && #[trigger] encoded_membership(other) == Some(record@) implies other
            == membership@ by {}
    }
    match encode_membership_value(&membership) {
        Ok(expected) => if same_bytes(expected.as_slice(), record) {
            Ok(membership)
        } else {
            Err(MalformedRecord)
        },
        Err(_) => Err(MalformedRecord),
    }
}

/// Reads a counted field at an offset: where it ends, if it ends within the record.
fn counted_end(record: &[u8], at: usize) -> (end: Option<usize>)
    requires
        at <= record@.len(),
    ensures
        match end {
            Some(to) => at + 2 <= to <= record@.len() && to - at - 2 == record@[at as int] * 256
                + record@[at + 1],
            None => at + 2 > record@.len() || at + 2 + record@[at as int] * 256 + record@[at + 1]
                > record@.len(),
        },
{
    if record.len() - at < 2 {
        return None;
    }
    let len: usize = (record[at] as usize) * 256 + record[at + 1] as usize;
    if record.len() - at - 2 < len {
        return None;
    }
    Some(at + 2 + len)
}

/// A counted field within a longer byte string tells its own end.
proof fn lemma_counted_within(before: Seq<u8>, field: Seq<u8>, after: Seq<u8>)
    requires
        fits(field),
    ensures
        ({
            let record = before + counted(field) + after;
            let at = before.len() as int;
            &&& record.len() == at + 2 + field.len() + after.len()
            &&& record[at] * 256 + record[at + 1] == field.len()
            &&& record.subrange(at + 2, at + 2 + field.len()) == field
        }),
{
    let record = before + counted(field) + after;
    let at = before.len() as int;
    assert(record[at] == (field.len() / 256) as u8);
    assert(record[at + 1] == (field.len() % 256) as u8);
    assert(record.subrange(at + 2, at + 2 + field.len()) =~= field);
}

/// Where the variable fields of an encoded device lie.
proof fn lemma_device_fields(device: DeviceView)
    requires
        encoded_device(device) is Some,
    ensures
        ({
            let record = encoded_device(device)->0;
            let w = encode_utf8(device.binding.workspace).len() as int;
            let u = encode_utf8(device.binding.user).len() as int;
            let d = encode_utf8(device.binding.device).len() as int;
            let k = device.binding.public_identity.bytes.len() as int;
            let a = 41int;
            let b = a + 2 + w;
            let c = b + 2 + u;
            let e = c + 2 + d;
            &&& device_header(device.binding.lifecycle, device.transport_identity).len() == 41
            &&& record.len() == e + 2 + k
            &&& record[a] * 256 + record[a + 1] == w
            &&& record[b] * 256 + record[b + 1] == u
            &&& record[c] * 256 + record[c + 1] == d
            &&& record[e] * 256 + record[e + 1] == k
            &&& record.subrange(a + 2, b) == encode_utf8(device.binding.workspace)
            &&& record.subrange(b + 2, c) == encode_utf8(device.binding.user)
            &&& record.subrange(c + 2, e) == encode_utf8(device.binding.device)
            &&& record.subrange(e + 2, e + 2 + k) == device.binding.public_identity.bytes
            &&& record[5] == device_lifecycle_code(device.binding.lifecycle)
            &&& record[8] == (if device.transport_identity is Some {
                1u8
            } else {
                0u8
            })
            &&& device.transport_identity matches Some(identity) ==> record.subrange(9, 41)
                == identity@
        }),
{
    let header = device_header(device.binding.lifecycle, device.transport_identity);
    let w = counted(encode_utf8(device.binding.workspace));
    let u = counted(encode_utf8(device.binding.user));
    let d = counted(encode_utf8(device.binding.device));
    let k = counted(device.binding.public_identity.bytes);
    let record = encoded_device(device)->0;
    if device.transport_identity is Some {
        crate::domain::lemma_transport_identity_length(device.transport_identity->0);
    }
    assert(header.len() == 41);
    assert(record =~= header + w + (u + d + k));
    lemma_counted_within(header, encode_utf8(device.binding.workspace), u + d + k);
    assert(record =~= (header + w) + u + (d + k));
    lemma_counted_within(header + w, encode_utf8(device.binding.user), d + k);
    assert(record =~= (header + w + u) + d + k);
    lemma_counted_within(header + w + u, encode_utf8(device.binding.device), k);
    assert(record =~= (header + w + u + d) + k + Seq::<u8>::empty());
    lemma_counted_within(
        header + w + u + d,
        device.binding.public_identity.bytes,
        Seq::<u8>::empty(),
    );
    assert(record[5] == header[5]);
    assert(record[8] == header[8]);
    if device.transport_identity is Some {
        assert(record.subrange(9, 41) =~= device.transport_identity->0@);
    }
}

/// Two devices with the same bytes are the same device.
pub proof fn lemma_device_encoding_is_injective(left: DeviceView, right: DeviceView)
    requires
        encoded_device(left) is Some,
        encoded_device(left) == encoded_device(right),
    ensures
        left == right,
{
    lemma_device_fields(left);
    lemma_device_fields(right);
    crate::bytes::lemma_encoding_is_injective(left.binding.workspace, right.binding.workspace);
    crate::bytes::lemma_encoding_is_injective(left.binding.user, right.binding.user);
    crate::bytes::lemma_encoding_is_injective(left.binding.device, right.binding.device);
    if left.transport_identity is Some {
        crate::domain::lemma_transport_identity_is_its_fingerprint(
            left.transport_identity->0,
            right.transport_identity->0,
        );
    }
}

/// Reads the transport identity out of a record's fixed part.
fn decode_transport_identity(record: &[u8]) -> (identity: Result<
    Option<TransportIdentity>,
    MalformedRecord,
>)
    requires
        record@.len() >= 41,
    ensures
        match identity {
            Ok(None) => record@[8] == 0,
            Ok(Some(value)) => record@[8] == 1 && value@ == record@.subrange(9, 41)
                && !crate::domain::all_zero(value@),
            Err(_) => record@[8] > 1 || (record@[8] == 1 && crate::domain::all_zero(
                record@.subrange(9, 41),
            )),
        },
{
    if record[8] == 0 {
        return Ok(None);
    }
    if record[8] != 1 {
        return Err(MalformedRecord);
    }
    let mut fingerprint: [u8; 32] = [0; 32];
    let mut i: usize = 0;
    while i < 32
        invariant
            i <= 32,
            record@.len() >= 41,
            forall|j: int| 0 <= j < i ==> fingerprint@[j] == record@[9 + j],
        decreases 32 - i,
    {
        fingerprint[i] = record[9 + i];
        i = i + 1;
    }
    assert(fingerprint@ =~= record@.subrange(9, 41));
    match TransportIdentity::new(fingerprint) {
        Ok(identity) => Ok(Some(identity)),
        Err(_) => Err(MalformedRecord),
    }
}

/// The device that a record's parts stand for, if they fit together.
fn assemble_device(
    record: &[u8],
    workspace: Vec<u8>,
    user: Vec<u8>,
    device_id: &DeviceId,
    key: Vec<u8>,
) -> (assembled: Option<RegisteredDevice>)
    requires
        record@.len() >= 41,
    ensures
        match assembled {
            Some(device) => {
                &&& encode_utf8(device@.binding.workspace) == workspace@
                &&& encode_utf8(device@.binding.user) == user@
                &&& device@.binding.device == device_id@
                &&& device@.binding.public_identity == (PublicIdentityView {
                    algorithm: DeviceIdentityAlgorithm::EcdsaP256Sha256,
                    encoding: DeviceIdentityPublicKeyEncoding::SubjectPublicKeyInfoDer,
                    bytes: key@,
                })
                &&& device_lifecycle_code(device@.binding.lifecycle) == record@[5]
                &&& match device@.transport_identity {
                    Some(identity) => record@[8] == 1 && identity@ == record@.subrange(9, 41),
                    None => record@[8] == 0,
                }
                &&& is_storable(device@)
            },
            None => {
                ||| !valid_utf8(workspace@) || workspace@.len() == 0
                ||| !valid_utf8(user@) || user@.len() == 0
                ||| key@.len() == 0
                ||| record@[5] == 0 || record@[5] > 3
                ||| record@[8] > 1
                ||| record@[8] == 1 && crate::domain::all_zero(record@.subrange(9, 41))
            },
        },
{
    let lifecycle = match record[5] {
        1 => DeviceLifecycle::PendingEnrollment,
        2 => DeviceLifecycle::Enrolled,
        3 => DeviceLifecycle::Revoked,
        _ => {
            return None;
        },
    };
    let transport_identity = match decode_transport_identity(record) {
        Ok(identity) => identity,
        Err(_) => {
            return None;
        },
    };
    let ghost workspace_bytes = workspace@;
    let workspace_text = match text_from_utf8(workspace) {
        Some(text) => text,
        None => {
            return None;
        },
    };
    let workspace_id = match WorkspaceId::new(workspace_text) {
        Ok(id) => id,
        Err(_) => {
            proof {
                lemma_empty_text(workspace_text@);
            }
            return None;
        },
    };
    let user_text = match text_from_utf8(user) {
        Some(text) => text,
        None => {
            return None;
        },
    };
    let user_id = match UserId::new(user_text) {
        Ok(id) => id,
        Err(_) => {
            proof {
                lemma_empty_text(user_text@);
            }
            return None;
        },
    };
    let public_identity = match PublicIdentityMaterial::new(
        DeviceIdentityAlgorithm::EcdsaP256Sha256,
        DeviceIdentityPublicKeyEncoding::SubjectPublicKeyInfoDer,
        key,
    ) {
        Ok(material) => material,
        Err(_) => {
            return None;
        },
    };
    Some(
        RegisteredDevice {
            binding: DeviceIdentityBinding {
                workspace_id,
                user_id,
                device_id: device_id.clone(),
                public_identity,
                lifecycle,
            },
            transport_identity,
        },
    )
}

proof fn lemma_empty_text(text: Seq<char>)
    ensures
        text.len() == 0 <==> encode_utf8(text).len() == 0,
{
    if text.len() == 0 {
        assert(encode_utf8(text).len() == 0);
    } else {
        encode_utf8_first_scalar(text);
        if encode_utf8(text).len() == 0 {
            crate::bytes::lemma_encoding_is_injective(text, Seq::empty());
            assert(encode_utf8(Seq::<char>::empty()).len() == 0);
            assert(encode_utf8(text) =~= encode_utf8(Seq::<char>::empty()));
        }
    }
}

/// A device as the registry can hold one: named identifiers, a key, and a transport identity that
/// is not zero.
pub open spec fn is_storable(device: DeviceView) -> bool {
    &&& device.binding.workspace.len() > 0
    &&& device.binding.user.len() > 0
    &&& device.binding.public_identity.bytes.len() > 0
    &&& device.transport_identity matches Some(identity) ==> !crate::domain::all_zero(identity@)
}

/// Decodes the record of one device. Succeeds on exactly the encodings of devices with this
/// identifier, and gives back the device encoded.
pub fn decode_bound_device_record(record: &[u8], device_id: &DeviceId) -> (decoded: Result<
    RegisteredDevice,
    MalformedRecord,
>)
    ensures
        match decoded {
            Ok(device) => device@.binding.device == device_id@ && is_storable(device@)
                && encoded_device(device@) == Some(record@),
            Err(_) => forall|device: DeviceView|
                device.binding.device == device_id@ && is_storable(device)
                    ==> #[trigger] encoded_device(device) != Some(record@),
        },
{
    proof {
        assert forall|device: DeviceView|
            #[trigger] encoded_device(device) == Some(record@) implies record@.len() >= 41 by {
            lemma_device_fields(device);
        }
    }
    if record.len() < 41 {
        return Err(MalformedRecord);
    }
    let after_workspace: usize = match counted_end(record, 41) {
        Some(end) => end,
        None => {
            proof {
                assert forall|device: DeviceView|
                    #[trigger] encoded_device(device) == Some(record@) implies false by {
                    lemma_device_fields(device);
                }
            }
            return Err(MalformedRecord);
        },
    };
    let after_user: usize = match counted_end(record, after_workspace) {
        Some(end) => end,
        None => {
            proof {
                assert forall|device: DeviceView|
                    #[trigger] encoded_device(device) == Some(record@) implies false by {
                    lemma_device_fields(device);
                }
            }
            return Err(MalformedRecord);
        },
    };
    let after_device: usize = match counted_end(record, after_user) {
        Some(end) => end,
        None => {
            proof {
                assert forall|device: DeviceView|
                    #[trigger] encoded_device(device) == Some(record@) implies false by {
                    lemma_device_fields(device);
                }
            }
            return Err(MalformedRecord);
        },
    };
    let after_key: usize = match counted_end(record, after_device) {
        Some(end) => end,
        None => {
            proof {
                assert forall|device: DeviceView|
                    #[trigger] encoded_device(device) == Some(record@) implies false by {
                    lemma_device_fields(device);
                }
            }
            return Err(MalformedRecord);
        },
    };
    let workspace = slice_bytes(record, 43, after_workspace);
    let user = slice_bytes(record, after_workspace + 2, after_user);
    let key = slice_bytes(record, after_device + 2, after_key);
    let ghost workspace_bytes = workspace@;
    let ghost user_bytes = user@;
    let ghost key_bytes = key@;
    proof {
        assert forall|device: DeviceView|
            #[trigger] encoded_device(device) == Some(record@) implies encode_utf8(
            device.binding.workspace,
        ) == workspace_bytes && encode_utf8(device.binding.user) == user_bytes
            && device.binding.public_identity.bytes == key_bytes by {
            lemma_device_fields(device);
        }
    }
    let device = match assemble_device(record, workspace, user, device_id, key) {
        Some(device) => device,
        None => {
            proof {
                assert forall|device: DeviceView|
                    device.binding.device == device_id@ && is_storable(device) implies #[trigger] encoded_device(
                device) != Some(record@) by {
                    if encoded_device(device) == Some(record@) {
                        lemma_device_fields(device);
                        lemma_empty_text(device.binding.workspace);
                        lemma_empty_text(device.binding.user);
                        encode_utf8_valid_utf8(device.binding.workspace);
                        encode_utf8_valid_utf8(device.binding.user);
                    }
                }
            }
            return Err(MalformedRecord);
        },
    };
    proof {
        assert forall|other: DeviceView|
            other.binding.device == device_id@ && #[trigger] encoded_device(other) == Some(
                record@,
            ) implies other == device@ by {
            lemma_device_fields(other);
            crate::bytes::lemma_encoding_is_injective(
                other.binding.workspace,
                device@.binding.workspace,
            );
            crate::bytes::lemma_encoding_is_injective(other.binding.user, device@.binding.user);
            if other.transport_identity is Some {
                crate::domain::lemma_transport_identity_is_its_fingerprint(
                    other.transport_identity->0,
                    device@.transport_identity->0,
                );
            }
        }
    }
    match encode_device_value(&device) {
        Ok(expected) => if same_bytes(expected.as_slice(), record) {
            Ok(device)
        } else {
            Err(MalformedRecord)
        },
        Err(_) => Err(MalformedRecord),
    }
}

} // verus!
