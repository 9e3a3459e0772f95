//! The ICMPv4 echo message ("Echo or Echo Reply Message" of RFC 792).
//!
//! On the wire the message is
//!
//! ```text
//! offset 0: type        8 for a request, 0 for a reply
//! offset 1: code        0
//! offset 2: checksum    two bytes
//! offset 4: identifier  two bytes, most significant first
//! offset 6: sequence    two bytes, most significant first
//! offset 8: payload     at most 568 bytes
//! ```

use crate::byte_order::{
    be16, lemma_u16_round_trip, native_order, u16_bytes, u16_from_bytes, u16_in, u16_to_bytes,
    ByteOrder,
};
use crate::checksum::{checksum_of, compute, lemma_checksum_detects_byte_change};
use crate::ping::icmp_packets::{PacketError, HEADER_SIZE, MAX_DATAGRAM, MAX_PAYLOAD};
use vstd::prelude::*;
use vstd::slice::slice_to_vec;

verus! {

/// An echo message as a mathematical value. `checksum` is the checksum field
/// read as the network reads it, most significant byte first.
pub struct EchoMessage {
    pub message_type: u8,
    pub code: u8,
    pub checksum: u16,
    pub identifier: u16,
    pub sequence: u16,
    pub payload: Seq<u8>,
}

impl EchoMessage {
    /// The bytes of the message on the wire: the header and then the payload.
    pub open spec fn wire(self) -> Seq<u8> {
        seq![self.message_type, self.code] + u16_bytes(ByteOrder::Big, self.checksum) + u16_bytes(
            ByteOrder::Big,
            self.identifier,
        ) + u16_bytes(ByteOrder::Big, self.sequence) + self.payload
    }

    /// The same message with another checksum field.
    pub open spec fn with_checksum(self, checksum: u16) -> EchoMessage {
        EchoMessage { checksum, ..self }
    }

    /// The checksum that the message ought to carry: the internet checksum of
    /// its bytes on the wire with the checksum field set to zero.
    pub open spec fn expected_checksum(self) -> u16 {
        checksum_of(self.with_checksum(0).wire())
    }

    /// Whether the message carries the checksum that it ought to carry.
    pub open spec fn checksum_is_valid(self) -> bool {
        self.checksum == self.expected_checksum()
    }

    /// The message that is made of the given fields and carries the checksum
    /// that belongs to them.
    pub open spec fn sealed(
        message_type: u8,
        code: u8,
        identifier: u16,
        sequence: u16,
        payload: Seq<u8>,
    ) -> EchoMessage {
        let blank = EchoMessage { message_type, code, checksum: 0, identifier, sequence, payload };
        blank.with_checksum(blank.expected_checksum())
    }
}

/// What a sequence of bytes is as an echo message: nothing if it is longer
/// than a datagram may be or shorter than the header, and else the fields at
/// their offsets with all that follows the header as the payload.
pub open spec fn parse_echo(bytes: Seq<u8>) -> Result<EchoMessage, PacketError> {
    if bytes.len() > MAX_DATAGRAM {
        Err(PacketError::DatagramTooLarge)
    } else if bytes.len() < HEADER_SIZE {
        Err(PacketError::HeaderTruncated)
    } else {
        Ok(
            EchoMessage {
                message_type: bytes[0],
                code: bytes[1],
                checksum: be16(bytes[2], bytes[3]),
                identifier: be16(bytes[4], bytes[5]),
                sequence: be16(bytes[6], bytes[7]),
                payload: bytes.skip(8),
            },
        )
    }
}

/// The byte `byte` with the bit of weight 2^`bit` inverted.
pub open spec fn flip_bit(byte: u8, bit: u8) -> u8 {
    byte ^ (1u8 << bit)
}

/// A message whose payload fits in a datagram is read back from its bytes on
/// the wire exactly as it was.
pub proof fn lemma_wire_round_trip(message: EchoMessage)
    requires
        message.payload.len() <= MAX_PAYLOAD,
    ensures
        message.wire().len() == HEADER_SIZE + message.payload.len(),
        parse_echo(message.wire()) == Ok::<EchoMessage, PacketError>(message),
{
    let wire = message.wire();
    lemma_u16_round_trip(ByteOrder::Big, message.checksum, seq![wire[2], wire[3]]);
    lemma_u16_round_trip(ByteOrder::Big, message.identifier, seq![wire[4], wire[5]]);
    lemma_u16_round_trip(ByteOrder::Big, message.sequence, seq![wire[6], wire[7]]);
    assert(wire.skip(8) =~= message.payload);
}

/// Round trip: the message made by `sealed` from any fields and a payload of
/// at most 568 bytes is read back from its bytes on the wire with the same
/// type, code, identifier, sequence number and payload, and its checksum is
/// valid.
pub proof fn lemma_sealed_round_trip(
    message_type: u8,
    code: u8,
    identifier: u16,
    sequence: u16,
    payload: Seq<u8>,
)
    requires
        payload.len() <= MAX_PAYLOAD,
    ensures
        ({
            let sent = EchoMessage::sealed(message_type, code, identifier, sequence, payload);
            &&& parse_echo(sent.wire()) is Ok
            &&& parse_echo(sent.wire())->Ok_0 == sent
            &&& sent.message_type == message_type
            &&& sent.code == code
            &&& sent.identifier == identifier
            &&& sent.sequence == sequence
            &&& sent.payload == payload
            &&& sent.checksum_is_valid()
        }),
{
    lemma_wire_round_trip(EchoMessage::sealed(message_type, code, identifier, sequence, payload));
}

/// Checksum sensitivity: if one byte of the wire image of a message with a
/// valid checksum is replaced by another value, in the header or in the
/// payload, what is read back no longer has a valid checksum.
pub proof fn lemma_changed_byte_breaks_checksum(message: EchoMessage, i: int, byte: u8)
    requires
        message.payload.len() <= MAX_PAYLOAD,
        message.checksum_is_valid(),
        0 <= i < message.wire().len(),
        byte != message.wire()[i],
    ensures
        parse_echo(message.wire().update(i, byte)) is Ok,
        !parse_echo(message.wire().update(i, byte))->Ok_0.checksum_is_valid(),
{
    lemma_wire_round_trip(message);
    let wire = message.wire();
    let changed = wire.update(i, byte);
    let read = parse_echo(changed)->Ok_0;
    assert(read.payload.len() == message.payload.len());
    lemma_wire_round_trip(read);
    lemma_wire_round_trip(read.with_checksum(0));
    lemma_wire_round_trip(message.with_checksum(0));
    let blank = message.with_checksum(0).wire();
    let read_blank = read.with_checksum(0).wire();
    if i == 2 || i == 3 {
        assert(read.with_checksum(0) == message.with_checksum(0)) by {
            assert(read.payload =~= message.payload);
        }
        lemma_u16_round_trip(ByteOrder::Big, 0, seq![changed[2], changed[3]]);
        lemma_u16_round_trip(ByteOrder::Big, 0, seq![wire[2], wire[3]]);
        assert(read.checksum != message.checksum) by {
            if read.checksum == message.checksum {
                assert(seq![changed[2], changed[3]] == seq![wire[2], wire[3]]);
                assert(seq![changed[2], changed[3]][i - 2] == seq![wire[2], wire[3]][i - 2]);
            }
        }
    } else {
        assert(read.checksum == message.checksum);
        assert(read.wire() == changed) by {
            lemma_parse_is_injective(read.wire(), changed);
        }
        assert(read_blank =~= blank.update(i, byte));
        assert(blank[i] == wire[i]);
        lemma_checksum_detects_byte_change(blank, i, byte);
    }
}

/// Two byte sequences that are read as the same message are the same.
proof fn lemma_parse_is_injective(a: Seq<u8>, b: Seq<u8>)
    requires
        parse_echo(a) is Ok,
        parse_echo(a) == parse_echo(b),
    ensures
        a == b,
{
    lemma_u16_round_trip(ByteOrder::Big, 0, seq![a[2], a[3]]);
    lemma_u16_round_trip(ByteOrder::Big, 0, seq![a[4], a[5]]);
    lemma_u16_round_trip(ByteOrder::Big, 0, seq![a[6], a[7]]);
    lemma_u16_round_trip(ByteOrder::Big, 0, seq![b[2], b[3]]);
    lemma_u16_round_trip(ByteOrder::Big, 0, seq![b[4], b[5]]);
    lemma_u16_round_trip(ByteOrder::Big, 0, seq![b[6], b[7]]);
    let ma = parse_echo(a)->Ok_0;
    let mb = parse_echo(b)->Ok_0;
    assert(a.len() == b.len()) by {
        assert(ma.payload.len() == mb.payload.len());
    }
    assert forall|k: int| 0 <= k < a.len() implies a[k] == b[k] by {
        if k >= 8 {
            assert(a[k] == ma.payload[k - 8]);
            assert(b[k] == mb.payload[k - 8]);
        } else if k == 2 || k == 3 {
            assert(seq![a[2], a[3]] == seq![b[2], b[3]]);
            assert(seq![a[2], a[3]][k - 2] == seq![b[2], b[3]][k - 2]);
        } else if k == 4 || k == 5 {
            assert(seq![a[4], a[5]] == seq![b[4], b[5]]);
            assert(seq![a[4], a[5]][k - 4] == seq![b[4], b[5]][k - 4]);
        } else if k == 6 || k == 7 {
            assert(seq![a[6], a[7]] == seq![b[6], b[7]]);
            assert(seq![a[6], a[7]][k - 6] == seq![b[6], b[7]][k - 6]);
        }
    }
    assert(a =~= b);
}

/// Inverting one bit of a byte gives another byte.
pub proof fn lemma_flip_bit_changes(byte: u8, bit: u8)
    requires
        bit < 8,
    ensures
        flip_bit(byte, bit) != byte,
{
    assert(bit < 8 ==> (byte ^ (1u8 << bit)) != byte) by (bit_vector);
}

/// Checksum sensitivity, bit by bit: if one bit of the wire image of a message
/// with a valid checksum is inverted, in the header or in the payload, what is
/// read back no longer has a valid checksum.
pub proof fn lemma_flipped_bit_breaks_checksum(message: EchoMessage, i: int, bit: u8)
    requires
        message.payload.len() <= MAX_PAYLOAD,
        message.checksum_is_valid(),
        0 <= i < message.wire().len(),
        bit < 8,
    ensures
        parse_echo(message.wire().update(i, flip_bit(message.wire()[i], bit))) is Ok,
        !parse_echo(
            message.wire().update(i, flip_bit(message.wire()[i], bit)),
        )->Ok_0.checksum_is_valid(),
{
    lemma_flip_bit_changes(message.wire()[i], bit);
    lemma_changed_byte_breaks_checksum(message, i, flip_bit(message.wire()[i], bit));
}

/// An ICMPv4 echo request or echo reply.
///
/// The checksum field is kept as an integer in the byte order of the machine,
/// as it is copied from and to the two bytes of the wire; the identifier and
/// the sequence number are kept as the numbers that they are. The view of a
/// packet, `packet@`, is the message without regard to the machine.
#[derive(Debug)]
pub struct ICMPv4EchoPacketStruct {
    /// Packet type: 8 for an echo request, 0 for an echo reply.
    p_type: u8,
    /// Code: 0 for both.
    code: u8,
    /// The checksum field, as the integer that its two bytes hold in `order`.
    checksum: u16,
    /// Identifier, to match replies with requests: by custom the id of the
    /// process that sent the request.
    id: u16,
    /// Sequence number, to tell the requests of one process apart.
    sequence: u16,
    /// What follows the header: at most `MAX_PAYLOAD` bytes.
    data: Vec<u8>,
    /// The byte order of the machine.
    order: ByteOrder,
}

impl View for ICMPv4EchoPacketStruct {
    type V = EchoMessage;

    closed spec fn view(&self) -> EchoMessage {
        EchoMessage {
            message_type: self.p_type,
            code: self.code,
            checksum: u16_in(ByteOrder::Big, u16_bytes(self.order, self.checksum)),
            identifier: self.id,
            sequence: self.sequence,
            payload: self.data@,
        }
    }
}

/// The bytes of a message on the wire, from its fields; the checksum is given
/// as its two bytes.
fn wire_bytes(
    p_type: u8,
    code: u8,
    checksum: [u8; 2],
    id: u16,
    sequence: u16,
    data: &Vec<u8>,
) -> (buffer: Vec<u8>)
    ensures
        buffer@ == seq![p_type, code] + checksum@ + u16_bytes(ByteOrder::Big, id) + u16_bytes(
            ByteOrder::Big,
            sequence,
        ) + data@,
{
    let id_bytes = u16_to_bytes(ByteOrder::Big, id);
    let sequence_bytes = u16_to_bytes(ByteOrder::Big, sequence);
    let mut buffer = Vec::new();
    buffer.push(p_type);
    buffer.push(code);
    buffer.push(checksum[0]);
    buffer.push(checksum[1]);
    buffer.push(id_bytes[0]);
    buffer.push(id_bytes[1]);
    buffer.push(sequence_bytes[0]);
    buffer.push(sequence_bytes[1]);
    buffer.extend_from_slice(data.as_slice());
    assert(buffer@ =~= seq![p_type, code] + checksum@ + u16_bytes(ByteOrder::Big, id) + u16_bytes(
        ByteOrder::Big,
        sequence,
    ) + data@);
    buffer
}

impl ICMPv4EchoPacketStruct {
    #[verifier::type_invariant]
    spec fn payload_fits(&self) -> bool {
        self.data@.len() <= MAX_PAYLOAD
    }

    /// The byte order in which the packet keeps its checksum field.
    pub closed spec fn byte_order(&self) -> ByteOrder {
        self.order
    }

    /// Makes an echo message of the given fields and gives it the checksum
    /// that belongs to them. A payload of more than 568 bytes is refused.
    pub fn new(p_type: u8, code: u8, id: u16, sequence: u16, data: &[u8]) -> (made: Result<
        Self,
        PacketError,
    >)
        ensures
            data@.len() > MAX_PAYLOAD ==> made == Err::<Self, PacketError>(
                PacketError::PayloadTooLarge,
            ),
            data@.len() <= MAX_PAYLOAD ==> made is Ok && made->Ok_0@ == EchoMessage::sealed(
                p_type,
                code,
                id,
                sequence,
                data@,
            ),
    {
        if data.len() > MAX_PAYLOAD {
            return Err(PacketError::PayloadTooLarge);
        }
        let mut packet = ICMPv4EchoPacketStruct {
            p_type,
            code,
            checksum: 0,
            id,
            sequence,
            data: slice_to_vec(data),
            order: native_order(),
        };
        proof {
            lemma_u16_round_trip(packet.order, 0, seq![0u8, 0u8]);
            assert(u16_bytes(packet.order, 0) =~= seq![0u8, 0u8]);
        }
        packet.fill_checksum();
        Ok(packet)
    }

    /// Makes an echo message of the given fields and the given checksum,
    /// which is the checksum field read most significant byte first; whether
    /// the checksum belongs to the fields is not asked. A payload of more than
    /// 568 bytes is refused.
    pub fn with_checksum(
        p_type: u8,
        code: u8,
        checksum: u16,
        id: u16,
        sequence: u16,
        data: &[u8],
    ) -> (made: Result<Self, PacketError>)
        ensures
            data@.len() > MAX_PAYLOAD ==> made == Err::<Self, PacketError>(
                PacketError::PayloadTooLarge,
            ),
            data@.len() <= MAX_PAYLOAD ==> made is Ok && made->Ok_0@ == (EchoMessage {
                message_type: p_type,
                code,
                checksum,
                identifier: id,
                sequence,
                payload: data@,
            }),
    {
        if data.len() > MAX_PAYLOAD {
            return Err(PacketError::PayloadTooLarge);
        }
        let order = native_order();
        let field = u16_to_bytes(ByteOrder::Big, checksum);
        proof {
            lemma_u16_round_trip(order, 0, field@);
            lemma_u16_round_trip(ByteOrder::Big, checksum, field@);
        }
        Ok(
            ICMPv4EchoPacketStruct {
                p_type,
                code,
                checksum: u16_from_bytes(order, field),
                id,
                sequence,
                data: slice_to_vec(data),
                order,
            },
        )
    }

    /// Gives the packet the checksum that belongs to its other fields.
    pub fn fill_checksum(&mut self)
        ensures
            final(self)@ == old(self)@.with_checksum(old(self)@.expected_checksum()),
            final(self).byte_order() == old(self).byte_order(),
    {
        let sum = self.checksum();
        proof {
            use_type_invariant(&*self);
            let field = u16_bytes(ByteOrder::Big, self@.expected_checksum());
            lemma_u16_round_trip(ByteOrder::Big, self@.expected_checksum(), field);
            lemma_u16_round_trip(self.order, 0, field);
        }
        self.checksum = sum;
    }

    /// Computes the checksum that belongs to the fields of the packet other
    /// than its checksum field, as the integer that the two bytes of the
    /// checksum hold in the byte order of the packet.
    pub fn checksum(&self) -> (sum: u16)
        ensures
            sum == u16_in(
                self.byte_order(),
                u16_bytes(ByteOrder::Big, self@.expected_checksum()),
            ),
    {
        proof {
            use_type_invariant(self);
        }
        let blank = wire_bytes(self.p_type, self.code, [0, 0], self.id, self.sequence, &self.data);
        assert(blank@ =~= self@.with_checksum(0).wire());
        let sum = compute(blank.as_slice());
        u16_from_bytes(self.order, u16_to_bytes(ByteOrder::Big, sum))
    }

    /// Whether the packet carries the checksum that belongs to its other
    /// fields.
    pub fn valid_checksum(&self) -> (valid: bool)
        ensures
            valid == self@.checksum_is_valid(),
    {
        let expected = self.checksum();
        proof {
            let mine = u16_bytes(self.order, self.checksum);
            let theirs = u16_bytes(ByteOrder::Big, self@.expected_checksum());
            lemma_u16_round_trip(self.order, self.checksum, theirs);
            lemma_u16_round_trip(ByteOrder::Big, self@.expected_checksum(), mine);
        }
        self.checksum == expected
    }

    /// The bytes of the packet on the wire.
    pub fn as_bytes(&self) -> (buffer: Vec<u8>)
        ensures
            buffer@ == self@.wire(),
            buffer@.len() == HEADER_SIZE + self@.payload.len(),
            buffer@.len() <= MAX_DATAGRAM,
    {
        proof {
            use_type_invariant(self);
            let field = u16_bytes(self.order, self.checksum);
            lemma_u16_round_trip(self.order, self.checksum, field);
            lemma_u16_round_trip(ByteOrder::Big, 0, field);
            lemma_wire_round_trip(self@);
        }
        wire_bytes(
            self.p_type,
            self.code,
            u16_to_bytes(self.order, self.checksum),
            self.id,
            self.sequence,
            &self.data,
        )
    }

    /// Reads a packet from its bytes on the wire. More than 576 bytes, or
    /// fewer than the 8 of the header, are refused.
    pub fn from_bytes(slice: &[u8]) -> (read: Result<Self, PacketError>)
        ensures
            match read {
                Ok(packet) => parse_echo(slice@) == Ok::<EchoMessage, PacketError>(packet@),
                Err(error) => parse_echo(slice@) == Err::<EchoMessage, PacketError>(error),
            },
    {
        if slice.len() > MAX_DATAGRAM {
            return Err(PacketError::DatagramTooLarge);
        }
        if slice.len() < HEADER_SIZE {
            return Err(PacketError::HeaderTruncated);
        }
        let order = native_order();
        let field = [slice[2], slice[3]];
        proof {
            lemma_u16_round_trip(order, 0, field@);
        }
        let packet = ICMPv4EchoPacketStruct {
            p_type: slice[0],
            code: slice[1],
            checksum: u16_from_bytes(order, field),
            id: u16_from_bytes(ByteOrder::Big, [slice[4], slice[5]]),
            sequence: u16_from_bytes(ByteOrder::Big, [slice[6], slice[7]]),
            data: slice_to_vec(&slice[8..slice.len()]),
            order,
        };
        assert(packet.data@ =~= slice@.skip(8));
        Ok(packet)
    }

    /// The type of the message: 8 for an echo request, 0 for an echo reply.
    pub fn p_type(&self) -> (p_type: u8)
        ensures
            p_type == self@.message_type,
    {
        self.p_type
    }

    /// The code of the message.
    pub fn code(&self) -> (code: u8)
        ensures
            code == self@.code,
    {
        self.code
    }

    /// The identifier of the message.
    pub fn id(&self) -> (id: u16)
        ensures
            id == self@.identifier,
    {
        self.id
    }

    /// The sequence number of the message.
    pub fn sequence(&self) -> (sequence: u16)
        ensures
            sequence == self@.sequence,
    {
        self.sequence
    }

    /// The payload of the message.
    pub fn data(&self) -> (data: &[u8])
        ensures
            data@ == self@.payload,
            data@.len() <= MAX_PAYLOAD,
    {
        proof {
            use_type_invariant(self);
        }
        self.data.as_slice()
    }
}

} // verus!
