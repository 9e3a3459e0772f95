//! One round trip of a ping: the request that goes out and what is made of
//! the datagram that comes back.
//!
//! A raw ICMPv4 socket takes the ICMP message alone when it sends and hands
//! over the whole IP datagram when it receives. The socket itself lies
//! outside this library, which makes the bytes to send and reads the bytes
//! received; the IP header is read by the `etherparse` crate.

use crate::ping::icmp_packets::{
    classify, parse_generic, EchoMessage, ICMPv4EchoPacketStruct, ICMPv4GenericPacket,
    PacketError, PossibleIcmpPackets, TYPE_ECHO_REQUEST,
};
use vstd::prelude::*;

pub mod icmp_packets;

verus! {

/// The version of the Internet Protocol that a pinger speaks.
#[derive(Clone, Copy, Debug, PartialEq, Eq, Structural)]
pub enum IpVersion {
    V4,
    V6,
}

/// Why a pinger could not be set up. Both are final: nothing is tried again.
#[derive(Debug, Clone)]
pub enum PingSetupError {
    /// The time to live could not be set on the socket.
    TtlSetup(String),
    /// The socket could not be made.
    SocketCreation(String),
}

/// Why a round trip failed on the way, as opposed to a reply that came and
/// is not the echo reply hoped for.
#[derive(Debug, Clone)]
pub enum PingNetworkError {
    /// The request could not be sent.
    ErrorSendingPing(String),
    /// Nothing was received: the time ran out, or the socket failed.
    ErrorReceivingPing(String),
    /// What was received is not an IPv4 datagram with an ICMP message in it.
    InvalidIpPacket(String),
}

/// What one received datagram holds for a ping.
#[derive(Debug)]
pub struct PingResponseData {
    /// What the ICMP message means.
    pub packet: PossibleIcmpPackets,
    /// The time to live in the IP header.
    pub ttl: u8,
    /// The number of bytes received, IP header included.
    pub response_size_bytes: usize,
}

/// The number of bytes of the payload of an echo request.
pub const PING_PAYLOAD_SIZE: usize = 32;

/// The payload of every echo request: the letters `a` to `w` and then, to
/// fill 32 bytes, `a` to `i`.
pub open spec fn ping_payload_bytes() -> Seq<u8> {
    Seq::new(PING_PAYLOAD_SIZE as nat, |i: int| (97 + i % 23) as u8)
}

/// The identifier that the requests of a process carry: the lower 16 bits of
/// its process id.
pub open spec fn identifier_of(process_id: u32) -> u16 {
    (process_id % 0x1_0000) as u16
}

/// The echo request of the process with the given id and with the given
/// sequence number.
pub open spec fn echo_request_message(process_id: u32, sequence: u16) -> EchoMessage {
    EchoMessage::sealed(
        TYPE_ECHO_REQUEST,
        0,
        identifier_of(process_id),
        sequence,
        ping_payload_bytes(),
    )
}

/// Makes the payload of an echo request.
pub fn ping_payload() -> (payload: Vec<u8>)
    ensures
        payload@ == ping_payload_bytes(),
{
    let mut payload: Vec<u8> = Vec::new();
    let mut letter: u8 = 0;
    while payload.len() < PING_PAYLOAD_SIZE
        invariant
            payload@.len() <= PING_PAYLOAD_SIZE,
            letter == payload@.len() % 23,
            forall|i: int| 0 <= i < payload@.len() ==> payload@[i] == (97 + i % 23) as u8,
        decreases PING_PAYLOAD_SIZE - payload@.len(),
    {
        payload.push(97 + letter);
        letter = if letter == 22 {
            0
        } else {
            letter + 1
        };
    }
    assert(payload@ =~= ping_payload_bytes());
    payload
}

/// Makes the bytes of an echo request as they are handed to the socket: type
/// 8, code 0, the process id cut to 16 bits as the identifier, the given
/// sequence number, the payload of all requests, and the checksum that belongs
/// to these.
pub fn echo_request(process_id: u32, sequence: u16) -> (datagram: Vec<u8>)
    ensures
        datagram@ == echo_request_message(process_id, sequence).wire(),
        datagram@.len() == 40,
{
    let identifier: u16 = (process_id % 0x1_0000) as u16;
    let payload = ping_payload();
    let request = ICMPv4EchoPacketStruct::new(
        TYPE_ECHO_REQUEST,
        0,
        identifier,
        sequence,
        payload.as_slice(),
    );
    request.unwrap().as_bytes()
}

/// What the header of an IP datagram says, as far as a ping needs it.
#[derive(Clone, Copy, Debug, PartialEq, Eq, Structural)]
pub enum IpEnvelope {
    /// An IPv4 header with this time to live and this header length, counted
    /// in words of four bytes.
    V4 { ttl: u8, ihl: u8 },
    /// An IPv6 header.
    V6,
    /// No IP header was found.
    Absent,
}

#[verifier::external_type_specification]
#[verifier::external_body]
pub struct ExReadError(etherparse::ReadError);

/// What `etherparse` makes of the bytes of a datagram that should begin with
/// an IP header: the envelope, or nothing if it does not take the bytes.
pub uninterp spec fn sliced_ip(datagram: Seq<u8>) -> Option<IpEnvelope>;

/// Whether the bytes begin with an IPv4 header that is whole and consistent
/// in itself: at least 20 bytes, version 4, a header length of at least 5
/// words that the bytes hold in full, and a total length that is no less than
/// the length of the header.
pub open spec fn ipv4_header_is_sound(datagram: Seq<u8>) -> bool {
    &&& datagram.len() >= 20
    &&& datagram[0] / 16 == 4
    &&& datagram[0] % 16 >= 5
    &&& datagram.len() >= (datagram[0] % 16) * 4
    &&& datagram[2] * 256 + datagram[3] >= (datagram[0] % 16) * 4
}

/// The protocol numbers of TCP and UDP, whose headers `etherparse` goes on
/// to read behind the IP header.
pub open spec fn carries_tcp_or_udp(datagram: Seq<u8>) -> bool {
    datagram[9] == 6 || datagram[9] == 17
}

/// `etherparse::SlicedPacket::from_ip`, with the header that it found told
/// apart by `Ipv4HeaderSlice::ttl` and `Ipv4HeaderSlice::ihl`.
///
/// What comes back is a function of the bytes alone and is named
/// `sliced_ip`. Of that function the following is taken from the crate's
/// code. An IPv4 envelope is only found on a sound IPv4 header, and then the
/// time to live is the byte at offset 8 and the header length the lower half
/// of the first byte. An IPv6 envelope is only found where the upper half of
/// the first byte is 6. Where the call succeeds a header was found. A sound
/// IPv4 header that carries neither TCP nor UDP is always taken.
#[verifier::external_body]
fn slice_ip(datagram: &[u8]) -> (sliced: Result<IpEnvelope, etherparse::ReadError>)
    ensures
        sliced_ip(datagram@) == match sliced {
            Ok(envelope) => Some(envelope),
            Err(_) => None,
        },
        sliced matches Ok(IpEnvelope::V4 { ttl, ihl }) ==> ipv4_header_is_sound(datagram@) && ttl
            == datagram@[8] && ihl == datagram@[0] % 16,
        sliced matches Ok(IpEnvelope::V6) ==> datagram@.len() >= 40 && datagram@[0] / 16 == 6,
        sliced matches Ok(envelope) ==> envelope != IpEnvelope::Absent,
        ipv4_header_is_sound(datagram@) && !carries_tcp_or_udp(datagram@) ==> sliced is Ok,
{
    match etherparse::SlicedPacket::from_ip(datagram)?.ip {
        Some(etherparse::InternetSlice::Ipv4(header)) => Ok(
            IpEnvelope::V4 { ttl: header.ttl(), ihl: header.ihl() },
        ),
        Some(etherparse::InternetSlice::Ipv6(..)) => Ok(IpEnvelope::V6),
        None => Ok(IpEnvelope::Absent),
    }
}

/// `<etherparse::ReadError as ToString>::to_string`: the words in which the
/// crate says why it did not take the bytes. Nothing is stated of them.
#[verifier::external_body]
fn read_error_text(error: &etherparse::ReadError) -> (text: String) {
    error.to_string()
}

/// The number of bytes of an IPv4 header of `ihl` words.
fn header_bytes(ihl: u8) -> (bytes: usize)
    ensures
        bytes == ihl * 4,
{
    (ihl as usize) * 4
}

/// Why a datagram with the given envelope holds no ICMP message for a ping,
/// in the words that are reported; nothing if it holds one. It holds one if
/// the envelope is an IPv4 header that ends within the datagram and what
/// follows the header is at least 8 and at most 576 bytes long.
pub open spec fn envelope_fault(datagram: Seq<u8>, envelope: IpEnvelope) -> Option<Seq<char>> {
    match envelope {
        IpEnvelope::Absent => Some("Packet did not have the correct structure"@),
        IpEnvelope::V6 => Some("IPv6 packets are not supported"@),
        IpEnvelope::V4 { ttl, ihl } => if ihl * 4 > datagram.len() {
            Some("IP header is longer than the packet"@)
        } else {
            match parse_generic(datagram.skip(ihl * 4)) {
                Ok(_) => None,
                Err(PacketError::HeaderTruncated) => Some("ICMP message is shorter than 8 bytes"@),
                Err(_) => Some("ICMP message is longer than 576 bytes"@),
            }
        },
    }
}

/// Whether `response` is what a datagram with the given envelope comes to:
/// the fault of the envelope as an invalid IP packet if there is one, and
/// else the outcome of the ICMP message that follows the IP header, with the
/// time to live of the header and the length of the whole datagram.
pub open spec fn is_response_to(
    response: Result<PingResponseData, PingNetworkError>,
    datagram: Seq<u8>,
    envelope: IpEnvelope,
) -> bool {
    match response {
        Ok(data) => {
            &&& envelope_fault(datagram, envelope) is None
            &&& envelope matches IpEnvelope::V4 { ttl, ihl }
            &&& data.ttl == ttl
            &&& data.response_size_bytes == datagram.len()
            &&& data.packet@ == classify(parse_generic(datagram.skip(ihl * 4))->Ok_0)
        },
        Err(PingNetworkError::InvalidIpPacket(text)) => envelope_fault(datagram, envelope) == Some(
            text@,
        ),
        Err(_) => false,
    }
}

/// Says what a received datagram holds for a ping, given what its IP header
/// was found to say: see `is_response_to`.
pub fn response_from_envelope(datagram: &[u8], envelope: IpEnvelope) -> (response: Result<
    PingResponseData,
    PingNetworkError,
>)
    ensures
        is_response_to(response, datagram@, envelope),
{
    match envelope {
        IpEnvelope::Absent => Err(
            PingNetworkError::InvalidIpPacket(
                "Packet did not have the correct structure".to_owned(),
            ),
        ),
        IpEnvelope::V6 => Err(
            PingNetworkError::InvalidIpPacket("IPv6 packets are not supported".to_owned()),
        ),
        IpEnvelope::V4 { ttl, ihl } => {
            let header = header_bytes(ihl);
            if header > datagram.len() {
                return Err(
                    PingNetworkError::InvalidIpPacket(
                        "IP header is longer than the packet".to_owned(),
                    ),
                );
            }
            let message = &datagram[header..datagram.len()];
            assert(message@ =~= datagram@.skip(ihl * 4));
            match ICMPv4GenericPacket::from_bytes(message) {
                Ok(packet) => Ok(
                    PingResponseData {
                        packet: packet.specialize(),
                        ttl,
                        response_size_bytes: datagram.len(),
                    },
                ),
                Err(PacketError::HeaderTruncated) => Err(
                    PingNetworkError::InvalidIpPacket(
                        "ICMP message is shorter than 8 bytes".to_owned(),
                    ),
                ),
                Err(_) => Err(
                    PingNetworkError::InvalidIpPacket(
                        "ICMP message is longer than 576 bytes".to_owned(),
                    ),
                ),
            }
        },
    }
}

/// Says what a received datagram holds for a ping.
///
/// The IP header is read by `etherparse`. Where it does not take the bytes,
/// the datagram is an invalid IP packet, reported in the words of
/// `etherparse`. Where it does, the response is that of
/// `response_from_envelope` for the envelope found. A datagram with a sound
/// IPv4 header that carries neither TCP nor UDP is always taken, with the
/// time to live and the header length that stand in the header.
pub fn ping_response(datagram: &[u8]) -> (response: Result<PingResponseData, PingNetworkError>)
    ensures
        match sliced_ip(datagram@) {
            Some(envelope) => is_response_to(response, datagram@, envelope),
            None => response matches Err(PingNetworkError::InvalidIpPacket(_)),
        },
        ipv4_header_is_sound(datagram@) && !carries_tcp_or_udp(datagram@) ==> is_response_to(
            response,
            datagram@,
            IpEnvelope::V4 { ttl: datagram@[8], ihl: datagram@[0] % 16 },
        ),
        response matches Ok(data) ==> ipv4_header_is_sound(datagram@) && data.ttl == datagram@[8],
{
    match slice_ip(datagram) {
        Ok(envelope) => response_from_envelope(datagram, envelope),
        Err(error) => Err(PingNetworkError::InvalidIpPacket(read_error_text(&error))),
    }
}

} // verus!
