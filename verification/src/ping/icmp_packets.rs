//! ICMPv4 messages as they lie on the wire: the common header, the echo
//! message, and the sorting of a received message into what it means for a
//! ping.

use crate::byte_order::{
    lemma_u16_round_trip, lemma_u32_round_trip, native_order, u16_bytes, u16_from_bytes, u16_in,
    u16_to_bytes, u32_bytes, u32_from_bytes, u32_in, u32_to_bytes, ByteOrder,
};
use vstd::prelude::*;
use vstd::slice::slice_to_vec;

pub mod echo_packet;
pub mod time_exceeded_packet;

pub use echo_packet::{EchoMessage, ICMPv4EchoPacketStruct};
use echo_packet::{lemma_changed_byte_breaks_checksum, lemma_wire_round_trip, parse_echo};
pub use time_exceeded_packet::ICMPv4TimeExceededPacketStruct;

verus! {

/// Why bytes are not taken for, or made into, an ICMPv4 message.
#[derive(Clone, Copy, Debug, PartialEq, Eq, Structural)]
pub enum PacketError {
    /// The payload is longer than `MAX_PAYLOAD` bytes.
    PayloadTooLarge,
    /// The datagram is longer than `MAX_DATAGRAM` bytes.
    DatagramTooLarge,
    /// The datagram is shorter than the `HEADER_SIZE` bytes of the header.
    HeaderTruncated,
}

/// The number of bytes of the ICMPv4 header.
pub const HEADER_SIZE: usize = 8;

/// The most bytes that an ICMPv4 datagram may have (RFC 1812, section 4.3).
pub const MAX_DATAGRAM: usize = 576;

/// The most bytes that follow the header in one datagram.
pub const MAX_PAYLOAD: usize = 568;

/// The type of an echo reply.
pub const TYPE_ECHO_REPLY: u8 = 0;

/// The type of an echo request.
pub const TYPE_ECHO_REQUEST: u8 = 8;

/// The type of a time exceeded message.
pub const TYPE_TIME_EXCEEDED: u8 = 11;

/// A message with the header that all ICMPv4 messages share, as a
/// mathematical value. `checksum` and `rest_of_header` are the two and the
/// four bytes of their fields read as the network reads them, most
/// significant byte first.
pub struct GenericMessage {
    pub message_type: u8,
    pub code: u8,
    pub checksum: u16,
    pub rest_of_header: u32,
    pub payload: Seq<u8>,
}

/// What a received message means for a ping, as a mathematical value.
pub enum Classified {
    /// An echo reply whose checksum is valid.
    EchoReply(EchoMessage),
    /// Time exceeded: the time to live ran out on the way.
    TtlExceeded,
    /// Time exceeded: the fragments were not put together in time.
    FragmentReassemblyTimeExceeded,
    /// It has the type and code of an echo reply, and its checksum is not
    /// valid.
    InvalidChecksum,
    /// Any other type and code.
    Unknown,
}

/// What a sequence of bytes is as an ICMPv4 message: nothing if it is longer
/// than a datagram may be or shorter than the header, and else the fields at
/// their offsets with all that follows the header as the payload.
pub open spec fn parse_generic(bytes: Seq<u8>) -> Result<GenericMessage, PacketError> {
    if bytes.len() > MAX_DATAGRAM {
        Err(PacketError::DatagramTooLarge)
    } else if bytes.len() < HEADER_SIZE {
        Err(PacketError::HeaderTruncated)
    } else {
        Ok(
            GenericMessage {
                message_type: bytes[0],
                code: bytes[1],
                checksum: u16_in(ByteOrder::Big, bytes.subrange(2, 4)),
                rest_of_header: u32_in(ByteOrder::Big, bytes.subrange(4, 8)),
                payload: bytes.skip(8),
            },
        )
    }
}

/// The echo message that a message with the common header is when it is read
/// as one: the first half of the rest of the header is the identifier, the
/// second half the sequence number.
pub open spec fn as_echo(message: GenericMessage) -> EchoMessage {
    EchoMessage {
        message_type: message.message_type,
        code: message.code,
        checksum: message.checksum,
        identifier: (message.rest_of_header / 0x1_0000) as u16,
        sequence: (message.rest_of_header % 0x1_0000) as u16,
        payload: message.payload,
    }
}

/// What a message means for a ping. Type 0 with code 0 is an echo reply, and
/// is taken for one if its checksum is valid; type 11 is time exceeded, with
/// code 0 for the time to live and code 1 for the reassembly of fragments;
/// every other type and code is unknown.
pub open spec fn classify(message: GenericMessage) -> Classified {
    if message.message_type == TYPE_ECHO_REPLY && message.code == 0 {
        if as_echo(message).checksum_is_valid() {
            Classified::EchoReply(as_echo(message))
        } else {
            Classified::InvalidChecksum
        }
    } else if message.message_type == TYPE_TIME_EXCEEDED && message.code == 0 {
        Classified::TtlExceeded
    } else if message.message_type == TYPE_TIME_EXCEEDED && message.code == 1 {
        Classified::FragmentReassemblyTimeExceeded
    } else {
        Classified::Unknown
    }
}

/// What a received message means for a ping.
#[derive(Debug)]
pub enum PossibleIcmpPackets {
    /// An echo reply whose checksum is valid.
    ICMPv4EchoPacket(ICMPv4EchoPacketStruct),
    /// Time exceeded: the time to live ran out on the way.
    ICMPv4TimeExceededPacketTtlExceeded,
    /// Time exceeded: the fragments were not put together in time.
    ICMPv4TimeExceededPacketFragmentReassemblyTimeExceeded,
    /// It has the type and code of an echo reply, and its checksum is not
    /// valid.
    InvalidPacket,
    /// Any other type and code.
    UnknownPacket,
}

impl View for PossibleIcmpPackets {
    type V = Classified;

    open spec fn view(&self) -> Classified {
        match self {
            PossibleIcmpPackets::ICMPv4EchoPacket(packet) => Classified::EchoReply(packet@),
            PossibleIcmpPackets::ICMPv4TimeExceededPacketTtlExceeded => Classified::TtlExceeded,
            PossibleIcmpPackets::ICMPv4TimeExceededPacketFragmentReassemblyTimeExceeded => {
                Classified::FragmentReassemblyTimeExceeded
            },
            PossibleIcmpPackets::InvalidPacket => Classified::InvalidChecksum,
            PossibleIcmpPackets::UnknownPacket => Classified::Unknown,
        }
    }
}

/// An ICMPv4 message of any type: the header that all types share, and what
/// follows it.
///
/// The checksum and the rest of the header are kept as integers in the byte
/// order of the machine, as they are copied from the bytes of the wire. The
/// view of a packet, `packet@`, is the message without regard to the machine.
#[derive(Debug)]
pub struct ICMPv4GenericPacket {
    /// Packet type: 8 for an echo request, 0 for an echo reply, 11 for time
    /// exceeded.
    p_type: u8,
    /// Code: 0 for echo request and reply, 0 or 1 for time exceeded.
    code: u8,
    /// The checksum field, as the integer that its two bytes hold in `order`.
    checksum: u16,
    /// The four bytes after the checksum, as the integer that they hold in
    /// `order`; what they mean depends on the type and the code.
    rest_of_header: u32,
    /// What follows the header: at most `MAX_PAYLOAD` bytes.
    data: Vec<u8>,
    /// The byte order of the machine.
    order: ByteOrder,
}

impl View for ICMPv4GenericPacket {
    type V = GenericMessage;

    closed spec fn view(&self) -> GenericMessage {
        GenericMessage {
            message_type: self.p_type,
            code: self.code,
            checksum: u16_in(ByteOrder::Big, u16_bytes(self.order, self.checksum)),
            rest_of_header: u32_in(ByteOrder::Big, u32_bytes(self.order, self.rest_of_header)),
            payload: self.data@,
        }
    }
}

impl ICMPv4GenericPacket {
    #[verifier::type_invariant]
    spec fn payload_fits(&self) -> bool {
        self.data@.len() <= MAX_PAYLOAD
    }

    /// Reads a message from its bytes on the wire. More than 576 bytes, or
    /// fewer than the 8 of the header, are refused.
    pub fn from_bytes(slice: &[u8]) -> (read: Result<Self, PacketError>)
        ensures
            match read {
                Ok(packet) => parse_generic(slice@) == Ok::<GenericMessage, PacketError>(packet@),
                Err(error) => parse_generic(slice@) == Err::<GenericMessage, PacketError>(error),
            },
    {
        if slice.len() > MAX_DATAGRAM {
            return Err(PacketError::DatagramTooLarge);
        }
        if slice.len() < HEADER_SIZE {
            return Err(PacketError::HeaderTruncated);
        }
        let order = native_order();
        let sum = [slice[2], slice[3]];
        let rest = [slice[4], slice[5], slice[6], slice[7]];
        proof {
            lemma_u16_round_trip(order, 0, sum@);
            lemma_u32_round_trip(order, 0, rest@);
            assert(sum@ =~= slice@.subrange(2, 4));
            assert(rest@ =~= slice@.subrange(4, 8));
        }
        let packet = ICMPv4GenericPacket {
            p_type: slice[0],
            code: slice[1],
            checksum: u16_from_bytes(order, sum),
            rest_of_header: u32_from_bytes(order, rest),
            data: slice_to_vec(&slice[8..slice.len()]),
            order,
        };
        assert(packet.data@ =~= slice@.skip(8));
        Ok(packet)
    }

    /// Says what the message means for a ping: see `classify`.
    pub fn specialize(&self) -> (outcome: PossibleIcmpPackets)
        ensures
            outcome@ == classify(self@),
    {
        proof {
            use_type_invariant(self);
        }
        if self.p_type == TYPE_ECHO_REPLY && self.code == 0 {
            let rest = u32_to_bytes(self.order, self.rest_of_header);
            let sum = u16_to_bytes(self.order, self.checksum);
            let id = u16_from_bytes(ByteOrder::Big, [rest[0], rest[1]]);
            let sequence = u16_from_bytes(ByteOrder::Big, [rest[2], rest[3]]);
            proof {
                lemma_rest_of_header_halves(rest@);
            }
            match ICMPv4EchoPacketStruct::with_checksum(
                self.p_type,
                self.code,
                u16_from_bytes(ByteOrder::Big, sum),
                id,
                sequence,
                self.data.as_slice(),
            ) {
                Ok(packet) => {
                    if packet.valid_checksum() {
                        PossibleIcmpPackets::ICMPv4EchoPacket(packet)
                    } else {
                        PossibleIcmpPackets::InvalidPacket
                    }
                },
                Err(_) => PossibleIcmpPackets::InvalidPacket,
            }
        } else if self.p_type == TYPE_TIME_EXCEEDED && self.code == 0 {
            PossibleIcmpPackets::ICMPv4TimeExceededPacketTtlExceeded
        } else if self.p_type == TYPE_TIME_EXCEEDED && self.code == 1 {
            PossibleIcmpPackets::ICMPv4TimeExceededPacketFragmentReassemblyTimeExceeded
        } else {
            PossibleIcmpPackets::UnknownPacket
        }
    }

    /// The type of the message.
    pub fn p_type(&self) -> (p_type: u8)
        ensures
            p_type == self@.message_type,
    {
        self.p_type
    }

    /// The code of the message.
    pub fn code(&self) -> (code: u8)
        ensures
            code == self@.code,
    {
        self.code
    }

    /// What follows the header.
    pub fn data(&self) -> (data: &[u8])
        ensures
            data@ == self@.payload,
            data@.len() <= MAX_PAYLOAD,
    {
        proof {
            use_type_invariant(self);
        }
        self.data.as_slice()
    }
}

/// The integer that four bytes hold most significant byte first has the
/// integer of the first two bytes as its upper half and that of the last two
/// as its lower half.
proof fn lemma_rest_of_header_halves(rest: Seq<u8>)
    requires
        rest.len() == 4,
    ensures
        u32_in(ByteOrder::Big, rest) / 0x1_0000 == u16_in(ByteOrder::Big, seq![rest[0], rest[1]]),
        u32_in(ByteOrder::Big, rest) % 0x1_0000 == u16_in(ByteOrder::Big, seq![rest[2], rest[3]]),
{
    let upper = rest[0] as int * 256 + rest[1] as int;
    let lower = rest[2] as int * 256 + rest[3] as int;
    assert(u32_in(ByteOrder::Big, rest) == upper * 0x1_0000 + lower);
}

/// Reading bytes as a message with the common header and then reading that
/// message as an echo message is reading the bytes as an echo message.
pub proof fn lemma_generic_as_echo(bytes: Seq<u8>)
    ensures
        match parse_generic(bytes) {
            Ok(message) => parse_echo(bytes) == Ok::<EchoMessage, PacketError>(as_echo(message)),
            Err(error) => parse_echo(bytes) == Err::<EchoMessage, PacketError>(error),
        },
{
    if parse_generic(bytes) is Ok {
        lemma_rest_of_header_halves(bytes.subrange(4, 8));
    }
}

/// The classifier is total, and the type and the code alone decide between
/// its outcomes but for the checksum of an echo reply: every message is
/// exactly one of the five outcomes; it is an echo reply or has an invalid
/// checksum exactly for type 0 with code 0, has an exceeded time to live
/// exactly for type 11 with code 0, an exceeded reassembly time exactly for
/// type 11 with code 1, and is unknown for every other type and code.
pub proof fn lemma_classify_by_type_and_code(message: GenericMessage)
    ensures
        (classify(message) is EchoReply || classify(message) is InvalidChecksum) <==> (
        message.message_type == 0 && message.code == 0),
        classify(message) is EchoReply ==> classify(message)->EchoReply_0 == as_echo(message)
            && as_echo(message).checksum_is_valid(),
        classify(message) is InvalidChecksum ==> !as_echo(message).checksum_is_valid(),
        classify(message) is TtlExceeded <==> (message.message_type == 11 && message.code == 0),
        classify(message) is FragmentReassemblyTimeExceeded <==> (message.message_type == 11
            && message.code == 1),
        classify(message) is Unknown <==> !(message.message_type == 0 && message.code == 0) && !(
        message.message_type == 11 && message.code <= 1),
{
}

/// Every sequence of at least 8 and at most 576 bytes is read as a message,
/// and so has an outcome.
pub proof fn lemma_datagram_is_classified(bytes: Seq<u8>)
    requires
        HEADER_SIZE <= bytes.len() <= MAX_DATAGRAM,
    ensures
        parse_generic(bytes) is Ok,
        parse_generic(bytes)->Ok_0.message_type == bytes[0],
        parse_generic(bytes)->Ok_0.code == bytes[1],
{
}

/// An echo reply that was made with the checksum that belongs to it is taken
/// for the echo reply that it is when it comes in from the wire.
pub proof fn lemma_sealed_reply_is_recognized(identifier: u16, sequence: u16, payload: Seq<u8>)
    requires
        payload.len() <= MAX_PAYLOAD,
    ensures
        ({
            let reply = EchoMessage::sealed(TYPE_ECHO_REPLY, 0, identifier, sequence, payload);
            &&& parse_generic(reply.wire()) is Ok
            &&& classify(parse_generic(reply.wire())->Ok_0) == Classified::EchoReply(reply)
        }),
{
    let reply = EchoMessage::sealed(TYPE_ECHO_REPLY, 0, identifier, sequence, payload);
    lemma_wire_round_trip(reply);
    lemma_generic_as_echo(reply.wire());
}

/// An echo reply with a valid checksum of which one byte behind the type and
/// the code was replaced by another value on the way has an invalid checksum
/// when it comes in.
pub proof fn lemma_corrupted_reply_is_invalid(reply: EchoMessage, i: int, byte: u8)
    requires
        reply.message_type == TYPE_ECHO_REPLY,
        reply.code == 0,
        reply.payload.len() <= MAX_PAYLOAD,
        reply.checksum_is_valid(),
        2 <= i < reply.wire().len(),
        byte != reply.wire()[i],
    ensures
        parse_generic(reply.wire().update(i, byte)) is Ok,
        classify(parse_generic(reply.wire().update(i, byte))->Ok_0) == Classified::InvalidChecksum,
{
    lemma_wire_round_trip(reply);
    lemma_changed_byte_breaks_checksum(reply, i, byte);
    lemma_generic_as_echo(reply.wire().update(i, byte));
}

} // verus!
