//! The envelope of a management request: the command's code, the length of the body, the body.
//!
//! The frame that carries an envelope is this library's own choice: it holds the request's number
//! and the payload, and no limit on the payload but that its length fits four bytes.
use vstd::arithmetic::div_mod::lemma_div_denominator;
use vstd::prelude::*;

use crate::bytes::{append_bytes, slice_bytes};

verus! {

/// Bytes before the body.
pub const LOCAL_MANAGEMENT_REQUEST_PREFIX_LENGTH: usize = 6;

/// Names one request. Never zero.
#[derive(Clone, Copy, PartialEq, Eq, Structural, Debug)]
pub struct LocalIpcRequestId {
    value: u64,
}

impl LocalIpcRequestId {
    #[verifier::type_invariant]
    spec fn is_not_zero(self) -> bool {
        self.value != 0
    }

    pub closed spec fn number(self) -> u64 {
        self.value
    }

    /// Accepts every number but zero.
    pub fn new(value: u64) -> (id: Option<LocalIpcRequestId>)
        ensures
            match id {
                Some(accepted) => value != 0 && accepted.number() == value,
                None => value == 0,
            },
    {
        if value == 0 {
            None
        } else {
            Some(LocalIpcRequestId { value })
        }
    }

    pub fn get(self) -> (value: u64)
        ensures
            value == self.number(),
            value != 0,
    {
        proof {
            use_type_invariant(&self);
        }
        self.value
    }
}

/// One message on the local socket.
#[derive(PartialEq, Eq, Debug)]
pub struct LocalIpcFrame {
    pub request_id: LocalIpcRequestId,
    pub payload: Vec<u8>,
}

/// The body's length does not fit the envelope.
#[derive(Clone, Copy, PartialEq, Eq, Structural, Debug)]
pub enum LocalManagementRequestBuildError {
    BodyTooLong,
}

/// Why an envelope was refused.
#[derive(Clone, Copy, PartialEq, Eq, Structural, Debug)]
pub enum LocalManagementRequestDecodeError {
    UnexpectedCommand,
    LengthMismatch,
}

/// A number in four bytes, most significant first.
pub open spec fn four_bytes(value: nat) -> Seq<u8> {
    seq![
        (value / 0x100_0000 % 0x100) as u8,
        (value / 0x1_0000 % 0x100) as u8,
        (value / 0x100 % 0x100) as u8,
        (value % 0x100) as u8,
    ]
}

/// The envelope around a body.
pub open spec fn envelope(body: Seq<u8>) -> Seq<u8> {
    seq![0u8, 3u8] + four_bytes(body.len()) + body
}

/// Wraps an encoded bridge command in the envelope.
pub fn build_local_management_request_frame(request_id: LocalIpcRequestId, body: &[u8]) -> (frame: Result<
    LocalIpcFrame,
    LocalManagementRequestBuildError,
>)
    ensures
        match frame {
            Ok(frame) => body@.len() <= u32::MAX && frame.request_id == request_id
                && frame.payload@ == envelope(body@),
            Err(error) => body@.len() > u32::MAX && error
                == LocalManagementRequestBuildError::BodyTooLong,
        },
{
    let length: usize = body.len();
    if length > u32::MAX as usize {
        return Err(LocalManagementRequestBuildError::BodyTooLong);
    }
    let mut payload: Vec<u8> = Vec::new();
    payload.push(0);
    payload.push(3);
    payload.push((length / 0x100_0000 % 0x100) as u8);
    payload.push((length / 0x1_0000 % 0x100) as u8);
    payload.push((length / 0x100 % 0x100) as u8);
    payload.push((length % 0x100) as u8);
    assert(payload@ == seq![0u8, 3u8] + four_bytes(body@.len()));
    append_bytes(&mut payload, body);
    Ok(LocalIpcFrame { request_id, payload })
}

/// The body of an envelope.
pub fn decode_local_management_request_frame(frame: &LocalIpcFrame) -> (body: Result<
    Vec<u8>,
    LocalManagementRequestDecodeError,
>)
    ensures
        match body {
            Ok(body) => body@.len() <= u32::MAX && frame.payload@ == envelope(body@),
            Err(LocalManagementRequestDecodeError::UnexpectedCommand) => !(frame.payload@.len() >= 2
                && frame.payload@[0] == 0 && frame.payload@[1] == 3),
            Err(LocalManagementRequestDecodeError::LengthMismatch) => frame.payload@.len() >= 2
                && frame.payload@[0] == 0 && frame.payload@[1] == 3 && forall|body: Seq<u8>|
                body.len() <= u32::MAX ==> frame.payload@ != #[trigger] envelope(body),
        },
{
    let payload = frame.payload.as_slice();
    if payload.len() < 2 || payload[0] != 0 || payload[1] != 3 {
        return Err(LocalManagementRequestDecodeError::UnexpectedCommand);
    }
    if payload.len() < LOCAL_MANAGEMENT_REQUEST_PREFIX_LENGTH {
        proof {
            assert forall|body: Seq<u8>| body.len() <= u32::MAX implies payload@
                != #[trigger] envelope(body) by {
                assert(envelope(body).len() == 6 + body.len());
            }
        }
        return Err(LocalManagementRequestDecodeError::LengthMismatch);
    }
    let length: usize = payload.len() - LOCAL_MANAGEMENT_REQUEST_PREFIX_LENGTH;
    let declared: u64 = (payload[2] as u64) * 0x100_0000 + (payload[3] as u64) * 0x1_0000 + (
    payload[4] as u64) * 0x100 + payload[5] as u64;
    if declared != length as u64 {
        proof {
            assert forall|body: Seq<u8>| body.len() <= u32::MAX implies payload@
                != #[trigger] envelope(body) by {
                if payload@ == envelope(body) {
                    assert(body.len() == length);
                    lemma_four_bytes_value(body.len());
                    assert(envelope(body)[2] == four_bytes(body.len())[0]);
                    assert(envelope(body)[3] == four_bytes(body.len())[1]);
                    assert(envelope(body)[4] == four_bytes(body.len())[2]);
                    assert(envelope(body)[5] == four_bytes(body.len())[3]);
                }
            }
        }
        return Err(LocalManagementRequestDecodeError::LengthMismatch);
    }
    let body = slice_bytes(payload, LOCAL_MANAGEMENT_REQUEST_PREFIX_LENGTH, payload.len());
    proof {
        lemma_four_bytes_of(payload@[2], payload@[3], payload@[4], payload@[5]);
        assert(payload@ == envelope(body@));
    }
    Ok(body)
}

pub proof fn lemma_four_bytes_value(value: nat)
    requires
        value <= u32::MAX,
    ensures
        ({
            let bytes = four_bytes(value);
            bytes[0] as int * 0x100_0000 + bytes[1] as int * 0x1_0000 + bytes[2] as int * 0x100
                + bytes[3] as int == value
        }),
{
}

proof fn lemma_four_bytes_of(a: u8, b: u8, c: u8, d: u8)
    ensures
        four_bytes((a as int * 0x100_0000 + b as int * 0x1_0000 + c as int * 0x100 + d as int) as nat)
            == seq![a, b, c, d],
{
    let high = a as int * 0x100 + b as int;
    let upper = high * 0x100 + c as int;
    let value = upper * 0x100 + d as int;
    lemma_last_byte(upper, d);
    lemma_last_byte(high, c);
    lemma_last_byte(a as int, b);
    lemma_last_byte(0, a);
    lemma_div_denominator(value, 0x100, 0x100);
    lemma_div_denominator(value, 0x1_0000, 0x100);
    assert(value == a as int * 0x100_0000 + b as int * 0x1_0000 + c as int * 0x100 + d as int);
    assert(value / 0x100 == upper);
    assert(value / 0x1_0000 == high);
    assert(value / 0x100_0000 == a);
    assert(four_bytes(value as nat) =~= seq![a, b, c, d]);
}

/// The last byte of a number, and what stands before it.
proof fn lemma_last_byte(rest: int, byte: u8)
    requires
        rest >= 0,
    ensures
        (rest * 0x100 + byte) / 0x100 == rest,
        (rest * 0x100 + byte) % 0x100 == byte,
{
}

/// An envelope holds one body only: two bodies with the same envelope are the same.
pub proof fn envelope_determines_body(left: Seq<u8>, right: Seq<u8>)
    requires
        envelope(left) == envelope(right),
    ensures
        left == right,
{
    assert(left == envelope(left).skip(6));
    assert(right == envelope(right).skip(6));
}

} // verus!
