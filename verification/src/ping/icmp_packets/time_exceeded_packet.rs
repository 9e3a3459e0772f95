//! The ICMPv4 time exceeded message ("Time Exceeded Message" of RFC 792).

use vstd::prelude::*;

verus! {

/// An ICMPv4 time exceeded message: a router or a host gave up on a datagram.
#[derive(Debug)]
pub struct ICMPv4TimeExceededPacketStruct {
    /// Packet type: 11.
    pub p_type: u8,
    /// Code: 0 if the time to live ran out on the way, 1 if the fragments
    /// were not put together in time.
    pub code: u8,
    /// The checksum field.
    pub checksum: u16,
    /// Four bytes that carry nothing.
    pub unused: u32,
    /// The beginning of the datagram that was given up: at most 568 bytes.
    pub data: Vec<u8>,
}

} // verus!
