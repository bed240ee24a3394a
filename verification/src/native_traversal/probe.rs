//! Probe packets: 40 bytes on the wire, one version, two kinds.
use vstd::prelude::*;

use crate::bytes::same_bytes;
use crate::native_traversal::error::TraversalError;

verus! {

/// Exact byte length of one `PRW_PROBE` v1 packet.
pub const PROBE_PACKET_LEN: usize = 40;

/// Routing-tag byte length.
pub const ROUTING_TAG_LEN: usize = 16;

/// Probe-nonce byte length.
pub const PROBE_NONCE_LEN: usize = 16;

/// The four bytes that start every packet: `PRWP`.
pub const PROBE_MAGIC: [u8; 4] = [80, 82, 87, 80];

pub const PROBE_VERSION: u8 = 1;

/// Opaque directional per-peer routing tag. Its randomness comes from the caller.
#[derive(Clone, Copy, Eq, Hash, Debug)]
pub struct RoutingTag {
    bytes: [u8; ROUTING_TAG_LEN],
}

impl RoutingTag {
    pub closed spec fn spec_bytes(self) -> Seq<u8> {
        self.bytes@
    }

    /// Wraps exactly 16 caller-provided bytes.
    pub fn from_bytes(bytes: [u8; ROUTING_TAG_LEN]) -> (tag: RoutingTag)
        ensures
            tag.spec_bytes() == bytes@,
    {
        RoutingTag { bytes }
    }

    /// Returns the exact routing-tag bytes.
    pub fn as_bytes(&self) -> (bytes: &[u8; ROUTING_TAG_LEN])
        ensures
            bytes@ == self.spec_bytes(),
    {
        &self.bytes
    }
}

/// A tag is its sixteen bytes.
pub broadcast proof fn lemma_tag_is_its_bytes(left: RoutingTag, right: RoutingTag)
    ensures
        #![trigger left.spec_bytes(), right.spec_bytes()]
        left.spec_bytes() == right.spec_bytes() ==> left == right,
{
    if left.spec_bytes() == right.spec_bytes() {
        assert forall|i: int| 0 <= i < 16 implies left.bytes[i] == right.bytes[i] by {
            assert(left.bytes@[i] == right.bytes@[i]);
        }
        assert(left.bytes =~= right.bytes);
    }
}

impl PartialEq for RoutingTag {
    fn eq(&self, other: &Self) -> (same: bool) {
        proof {
            lemma_tag_is_its_bytes(*self, *other);
        }
        same_bytes(&self.bytes, &other.bytes)
    }
}

impl vstd::std_specs::cmp::PartialEqSpecImpl for RoutingTag {
    open spec fn obeys_eq_spec() -> bool {
        true
    }

    open spec fn eq_spec(&self, other: &Self) -> bool {
        *self == *other
    }
}

/// Fresh per-probe nonce supplied by the caller's random source.
#[derive(Clone, Copy, Eq, Hash, Debug)]
pub struct ProbeNonce {
    bytes: [u8; PROBE_NONCE_LEN],
}

impl ProbeNonce {
    pub closed spec fn spec_bytes(self) -> Seq<u8> {
        self.bytes@
    }

    /// Wraps exactly 16 caller-provided bytes.
    pub fn from_bytes(bytes: [u8; PROBE_NONCE_LEN]) -> (nonce: ProbeNonce)
        ensures
            nonce.spec_bytes() == bytes@,
    {
        ProbeNonce { bytes }
    }

    /// Returns the exact nonce bytes.
    pub fn as_bytes(&self) -> (bytes: &[u8; PROBE_NONCE_LEN])
        ensures
            bytes@ == self.spec_bytes(),
    {
        &self.bytes
    }
}

/// A nonce is its sixteen bytes.
pub broadcast proof fn lemma_nonce_is_its_bytes(left: ProbeNonce, right: ProbeNonce)
    ensures
        #![trigger left.spec_bytes(), right.spec_bytes()]
        left.spec_bytes() == right.spec_bytes() ==> left == right,
{
    if left.spec_bytes() == right.spec_bytes() {
        assert forall|i: int| 0 <= i < 16 implies left.bytes[i] == right.bytes[i] by {
            assert(left.bytes@[i] == right.bytes@[i]);
        }
        assert(left.bytes =~= right.bytes);
    }
}

impl PartialEq for ProbeNonce {
    fn eq(&self, other: &Self) -> (same: bool) {
        proof {
            lemma_nonce_is_its_bytes(*self, *other);
        }
        same_bytes(&self.bytes, &other.bytes)
    }
}

impl vstd::std_specs::cmp::PartialEqSpecImpl for ProbeNonce {
    open spec fn obeys_eq_spec() -> bool {
        true
    }

    open spec fn eq_spec(&self, other: &Self) -> bool {
        *self == *other
    }
}

/// `PRW_PROBE` v1 message kind.
#[derive(Clone, Copy, PartialEq, Eq, Structural, Debug)]
pub enum ProbeMessageKind {
    /// Outbound NAT-punching probe.
    Probe,
    /// Equal-size acknowledgement echoing the probe nonce.
    Ack,
}

impl ProbeMessageKind {
    /// The kind's byte on the wire.
    pub open spec fn spec_code(self) -> u8 {
        match self {
            ProbeMessageKind::Probe => 1,
            ProbeMessageKind::Ack => 2,
        }
    }

    pub fn code(self) -> (code: u8)
        ensures
            code == self.spec_code(),
    {
        match self {
            ProbeMessageKind::Probe => 1,
            ProbeMessageKind::Ack => 2,
        }
    }

    /// The kind of a byte on the wire.
    pub fn try_from(value: u8) -> (kind: Result<ProbeMessageKind, TraversalError>)
        ensures
            match kind {
                Ok(found) => found.spec_code() == value,
                Err(error) => error == TraversalError::UnsupportedProbeType && value != 1 && value
                    != 2,
            },
    {
        match value {
            1 => Ok(ProbeMessageKind::Probe),
            2 => Ok(ProbeMessageKind::Ack),
            _ => Err(TraversalError::UnsupportedProbeType),
        }
    }
}

/// Parsed `PRW_PROBE` v1 packet.
#[derive(Clone, Copy, PartialEq, Eq, Debug)]
pub struct ProbePacket {
    kind: ProbeMessageKind,
    destination_tag: RoutingTag,
    nonce: ProbeNonce,
}

/// What a [`ProbePacket`] says.
pub struct PacketView {
    pub kind: ProbeMessageKind,
    pub destination_tag: RoutingTag,
    pub nonce: ProbeNonce,
}

impl View for ProbePacket {
    type V = PacketView;

    closed spec fn view(&self) -> PacketView {
        PacketView {
            kind: self.kind,
            destination_tag: self.destination_tag,
            nonce: self.nonce,
        }
    }
}

impl PacketView {
    /// The packet on the wire: magic, version, kind, two zero bytes, tag, nonce.
    pub open spec fn wire(self) -> Seq<u8> {
        PROBE_MAGIC@ + seq![PROBE_VERSION, self.kind.spec_code(), 0u8, 0u8]
            + self.destination_tag.spec_bytes() + self.nonce.spec_bytes()
    }
}

/// What is wrong with the first eight bytes of a packet, if anything. The length comes first,
/// then magic, version, kind and flags.
pub open spec fn header_error(input: Seq<u8>) -> Option<TraversalError> {
    if input.len() != PROBE_PACKET_LEN {
        Some(TraversalError::InvalidPacketLength)
    } else if input.subrange(0, 4) != PROBE_MAGIC@ {
        Some(TraversalError::InvalidPacketMagic)
    } else if input[4] != PROBE_VERSION {
        Some(TraversalError::UnsupportedProbeVersion)
    } else if input[5] != 1 && input[5] != 2 {
        Some(TraversalError::UnsupportedProbeType)
    } else if input[6] != 0 || input[7] != 0 {
        Some(TraversalError::UnsupportedProbeFlags)
    } else {
        None
    }
}

fn sixteen_bytes(input: &[u8], from: usize) -> (bytes: [u8; 16])
    requires
        from <= 24,
        from + 16 <= input@.len(),
    ensures
        bytes@ == input@.subrange(from as int, from + 16),
{
    let mut bytes: [u8; 16] = [0; 16];
    let mut i: usize = 0;
    while i < 16
        invariant
            i <= 16,
            from <= 24,
            from + 16 <= input@.len(),
            forall|j: int| 0 <= j < i ==> bytes@[j] == input@[from + j],
        decreases 16 - i,
    {
        bytes[i] = input[from + i];
        i = i + 1;
    }
    assert(bytes@ =~= input@.subrange(from as int, from + 16));
    bytes
}

impl ProbePacket {
    /// Creates a probe packet.
    pub fn probe(destination_tag: RoutingTag, nonce: ProbeNonce) -> (packet: ProbePacket)
        ensures
            packet@ == (PacketView { kind: ProbeMessageKind::Probe, destination_tag, nonce }),
    {
        ProbePacket { kind: ProbeMessageKind::Probe, destination_tag, nonce }
    }

    /// Creates an acknowledgement packet.
    pub fn ack(destination_tag: RoutingTag, nonce: ProbeNonce) -> (packet: ProbePacket)
        ensures
            packet@ == (PacketView { kind: ProbeMessageKind::Ack, destination_tag, nonce }),
    {
        ProbePacket { kind: ProbeMessageKind::Ack, destination_tag, nonce }
    }

    /// Returns the packet kind.
    pub fn kind(self) -> (kind: ProbeMessageKind)
        ensures
            kind == self@.kind,
    {
        self.kind
    }

    /// Returns the destination receive-side routing tag.
    pub fn destination_tag(self) -> (tag: RoutingTag)
        ensures
            tag == self@.destination_tag,
    {
        self.destination_tag
    }

    /// Returns the probe nonce.
    pub fn nonce(self) -> (nonce: ProbeNonce)
        ensures
            nonce == self@.nonce,
    {
        self.nonce
    }

    /// Encodes the exact fixed-size v1 wire packet.
    pub fn encode(self) -> (output: [u8; PROBE_PACKET_LEN])
        ensures
            output@ == self@.wire(),
    {
        let mut output: [u8; 40] = [0; 40];
        let tag = self.destination_tag.as_bytes();
        let nonce = self.nonce.as_bytes();
        let mut i: usize = 0;
        while i < 16
            invariant
                i <= 16,
                tag@ == self.destination_tag.spec_bytes(),
                nonce@ == self.nonce.spec_bytes(),
                output@[6] == 0,
                output@[7] == 0,
                forall|j: int| 0 <= j < i ==> output@[8 + j] == tag@[j],
                forall|j: int| 0 <= j < i ==> output@[24 + j] == nonce@[j],
            decreases 16 - i,
        {
            output[8 + i] = tag[i];
            output[24 + i] = nonce[i];
            i = i + 1;
        }
        output[0] = PROBE_MAGIC[0];
        output[1] = PROBE_MAGIC[1];
        output[2] = PROBE_MAGIC[2];
        output[3] = PROBE_MAGIC[3];
        output[4] = PROBE_VERSION;
        output[5] = self.kind.code();
        assert(output@ =~= self@.wire());
        output
    }

    /// Decodes and validates one exact v1 packet. Fails on a wrong size, magic, version, message
    /// type or non-zero flags, in this order.
    pub fn decode(input: &[u8]) -> (decoded: Result<ProbePacket, TraversalError>)
        ensures
            match decoded {
                Ok(packet) => header_error(input@) is None && packet@.wire() == input@,
                Err(error) => header_error(input@) == Some(error),
            },
    {
        if input.len() != PROBE_PACKET_LEN {
            return Err(TraversalError::InvalidPacketLength);
        }
        if input[0] != PROBE_MAGIC[0] || input[1] != PROBE_MAGIC[1] || input[2] != PROBE_MAGIC[2]
            || input[3] != PROBE_MAGIC[3] {
            proof {
                let head = input@.subrange(0, 4);
                assert(head[0] == input@[0] && head[1] == input@[1] && head[2] == input@[2]
                    && head[3] == input@[3]);
            }
            return Err(TraversalError::InvalidPacketMagic);
        }
        assert(input@.subrange(0, 4) =~= PROBE_MAGIC@);
        if input[4] != PROBE_VERSION {
            return Err(TraversalError::UnsupportedProbeVersion);
        }
        let kind = match ProbeMessageKind::try_from(input[5]) {
            Ok(kind) => kind,
            Err(error) => {
                return Err(error);
            },
        };
        if input[6] != 0 || input[7] != 0 {
            return Err(TraversalError::UnsupportedProbeFlags);
        }
        let packet = ProbePacket {
            kind,
            destination_tag: RoutingTag::from_bytes(sixteen_bytes(input, 8)),
            nonce: ProbeNonce::from_bytes(sixteen_bytes(input, 24)),
        };
        assert(packet@.wire() =~= input@);
        Ok(packet)
    }
}

/// Every packet has 40 bytes on the wire, and those bytes are well formed: what is encoded
/// decodes, and acknowledgements are as long as probes.
pub proof fn encoded_packet_is_well_formed(packet: PacketView)
    ensures
        packet.wire().len() == PROBE_PACKET_LEN,
        header_error(packet.wire()) is None,
{
    lemma_field_lengths(packet);
    let wire = packet.wire();
    assert(wire.subrange(0, 4) =~= PROBE_MAGIC@);
}

pub proof fn lemma_field_lengths(packet: PacketView)
    ensures
        packet.destination_tag.spec_bytes().len() == 16,
        packet.nonce.spec_bytes().len() == 16,
{
}

/// Two packets with the same bytes on the wire are the same packet: decoding an encoded packet
/// gives that packet back.
pub proof fn wire_determines_packet(left: PacketView, right: PacketView)
    requires
        left.wire() == right.wire(),
    ensures
        left == right,
{
    lemma_field_lengths(left);
    lemma_field_lengths(right);
    let wire = left.wire();
    assert(wire[5] == left.kind.spec_code());
    assert(wire[5] == right.kind.spec_code());
    assert(wire.subrange(8, 24) =~= left.destination_tag.spec_bytes());
    assert(wire.subrange(8, 24) =~= right.destination_tag.spec_bytes());
    assert(wire.subrange(24, 40) =~= left.nonce.spec_bytes());
    assert(wire.subrange(24, 40) =~= right.nonce.spec_bytes());
    lemma_tag_is_its_bytes(left.destination_tag, right.destination_tag);
    lemma_nonce_is_its_bytes(left.nonce, right.nonce);
}

} // verus!
