//! Integers as bytes in memory, in either byte order.
//!
//! Network protocols fix the order of the bytes of an integer (most
//! significant first); a field that is copied to and from memory as it stands
//! follows the machine instead. Both cases are covered by giving the order as
//! a value.

use vstd::prelude::*;

verus! {

/// The order in which the bytes of an integer lie in memory.
#[derive(Clone, Copy, Debug, PartialEq, Eq, Structural)]
pub enum ByteOrder {
    /// Least significant byte first.
    Little,
    /// Most significant byte first: the order of the network.
    Big,
}

/// The 16-bit integer with the most significant byte `hi`.
pub open spec fn be16(hi: u8, lo: u8) -> u16 {
    (hi as int * 256 + lo as int) as u16
}

/// The 32-bit integer whose bytes are `b3`, `b2`, `b1`, `b0`, most significant
/// first.
pub open spec fn be32(b3: u8, b2: u8, b1: u8, b0: u8) -> u32 {
    (((b3 as int * 256 + b2 as int) * 256 + b1 as int) * 256 + b0 as int) as u32
}

/// The 16-bit integer that the bytes `bytes[0]`, `bytes[1]` hold in `order`.
pub open spec fn u16_in(order: ByteOrder, bytes: Seq<u8>) -> u16
    recommends
        bytes.len() == 2,
{
    match order {
        ByteOrder::Little => be16(bytes[1], bytes[0]),
        ByteOrder::Big => be16(bytes[0], bytes[1]),
    }
}

/// The two bytes that hold `x` in `order`, at rising addresses.
pub open spec fn u16_bytes(order: ByteOrder, x: u16) -> Seq<u8> {
    match order {
        ByteOrder::Little => seq![(x % 256) as u8, (x / 256) as u8],
        ByteOrder::Big => seq![(x / 256) as u8, (x % 256) as u8],
    }
}

/// The 32-bit integer that the four bytes of `bytes` hold in `order`.
pub open spec fn u32_in(order: ByteOrder, bytes: Seq<u8>) -> u32
    recommends
        bytes.len() == 4,
{
    match order {
        ByteOrder::Little => be32(bytes[3], bytes[2], bytes[1], bytes[0]),
        ByteOrder::Big => be32(bytes[0], bytes[1], bytes[2], bytes[3]),
    }
}

/// The four bytes that hold `x` in `order`, at rising addresses.
pub open spec fn u32_bytes(order: ByteOrder, x: u32) -> Seq<u8> {
    let b3 = (x / 256 / 256 / 256) as u8;
    let b2 = (x / 256 / 256 % 256) as u8;
    let b1 = (x / 256 % 256) as u8;
    let b0 = (x % 256) as u8;
    match order {
        ByteOrder::Little => seq![b0, b1, b2, b3],
        ByteOrder::Big => seq![b3, b2, b1, b0],
    }
}

/// Reading back the bytes of a 16-bit integer gives the integer, and writing
/// out the integer read from two bytes gives the two bytes, in either order.
pub proof fn lemma_u16_round_trip(order: ByteOrder, x: u16, bytes: Seq<u8>)
    requires
        bytes.len() == 2,
    ensures
        u16_bytes(order, x).len() == 2,
        u16_in(order, u16_bytes(order, x)) == x,
        u16_bytes(order, u16_in(order, bytes)) == bytes,
{
    assert(u16_bytes(order, u16_in(order, bytes)) =~= bytes);
}

/// Reading back the bytes of a 32-bit integer gives the integer, and writing
/// out the integer read from four bytes gives the four bytes, in either order.
pub proof fn lemma_u32_round_trip(order: ByteOrder, x: u32, bytes: Seq<u8>)
    requires
        bytes.len() == 4,
    ensures
        u32_bytes(order, x).len() == 4,
        u32_in(order, u32_bytes(order, x)) == x,
        u32_bytes(order, u32_in(order, bytes)) == bytes,
{
    lemma_be32_digits(x);
    match order {
        ByteOrder::Little => {
            lemma_digits_be32(bytes[3], bytes[2], bytes[1], bytes[0]);
        },
        ByteOrder::Big => {
            lemma_digits_be32(bytes[0], bytes[1], bytes[2], bytes[3]);
        },
    }
    assert(u32_bytes(order, u32_in(order, bytes)) =~= bytes);
}

/// A 32-bit integer is made of its four base-256 digits.
proof fn lemma_be32_digits(x: u32)
    ensures
        x / 256 / 256 / 256 < 256,
        be32(
            (x / 256 / 256 / 256) as u8,
            (x / 256 / 256 % 256) as u8,
            (x / 256 % 256) as u8,
            (x % 256) as u8,
        ) == x,
{
    let q1 = x as int / 256;
    let q2 = q1 / 256;
    let q3 = q2 / 256;
    assert(x == 256 * q1 + x as int % 256);
    assert(q1 == 256 * q2 + q1 % 256);
    assert(q2 == 256 * q3 + q2 % 256);
}

/// The base-256 digits of the integer made of four bytes are those bytes.
proof fn lemma_digits_be32(b3: u8, b2: u8, b1: u8, b0: u8)
    ensures
        be32(b3, b2, b1, b0) % 256 == b0,
        be32(b3, b2, b1, b0) / 256 % 256 == b1,
        be32(b3, b2, b1, b0) / 256 / 256 % 256 == b2,
        be32(b3, b2, b1, b0) / 256 / 256 / 256 == b3,
{
    let q2 = b3 as int * 256 + b2 as int;
    let q1 = q2 * 256 + b1 as int;
    let x = q1 * 256 + b0 as int;
    assert(x / 256 == q1 && x % 256 == b0 as int);
    assert(q1 / 256 == q2 && q1 % 256 == b1 as int);
    assert(q2 / 256 == b3 as int && q2 % 256 == b2 as int);
}

/// Reads a 16-bit integer from two bytes in the given order.
pub fn u16_from_bytes(order: ByteOrder, bytes: [u8; 2]) -> (x: u16)
    ensures
        x == u16_in(order, bytes@),
{
    match order {
        ByteOrder::Little => (bytes[1] as u16) * 256 + (bytes[0] as u16),
        ByteOrder::Big => (bytes[0] as u16) * 256 + (bytes[1] as u16),
    }
}

/// Writes a 16-bit integer as two bytes in the given order.
pub fn u16_to_bytes(order: ByteOrder, x: u16) -> (bytes: [u8; 2])
    ensures
        bytes@ == u16_bytes(order, x),
{
    let hi: u8 = (x / 256) as u8;
    let lo: u8 = (x % 256) as u8;
    let bytes: [u8; 2] = match order {
        ByteOrder::Little => [lo, hi],
        ByteOrder::Big => [hi, lo],
    };
    assert(bytes@ =~= u16_bytes(order, x));
    bytes
}

/// Reads a 32-bit integer from four bytes in the given order.
pub fn u32_from_bytes(order: ByteOrder, bytes: [u8; 4]) -> (x: u32)
    ensures
        x == u32_in(order, bytes@),
{
    match order {
        ByteOrder::Little => (((bytes[3] as u32) * 256 + (bytes[2] as u32)) * 256 + (
        bytes[1] as u32)) * 256 + (bytes[0] as u32),
        ByteOrder::Big => (((bytes[0] as u32) * 256 + (bytes[1] as u32)) * 256 + (
        bytes[2] as u32)) * 256 + (bytes[3] as u32),
    }
}

/// Writes a 32-bit integer as four bytes in the given order.
pub fn u32_to_bytes(order: ByteOrder, x: u32) -> (bytes: [u8; 4])
    ensures
        bytes@ == u32_bytes(order, x),
{
    let b3: u8 = (x / 256 / 256 / 256) as u8;
    let b2: u8 = (x / 256 / 256 % 256) as u8;
    let b1: u8 = (x / 256 % 256) as u8;
    let b0: u8 = (x % 256) as u8;
    let bytes: [u8; 4] = match order {
        ByteOrder::Little => [b0, b1, b2, b3],
        ByteOrder::Big => [b3, b2, b1, b0],
    };
    assert(bytes@ =~= u32_bytes(order, x));
    bytes
}

/// `u16::from_ne_bytes`: the integer that two bytes hold in the order of the
/// machine. Every machine stores an integer either least or most significant
/// byte first, so the result is one of the two readings of the bytes; which of
/// them is left open.
#[verifier::external_body]
fn u16_from_native_bytes(bytes: [u8; 2]) -> (x: u16)
    ensures
        x == u16_in(ByteOrder::Little, bytes@) || x == u16_in(ByteOrder::Big, bytes@),
{
    u16::from_ne_bytes(bytes)
}

/// The byte order of the machine that runs the program. It is found by
/// reading the bytes 1, 0 as an integer: that integer is 1 where the least
/// significant byte comes first, and 256 where it comes last. Nothing is
/// promised of the result, which differs from machine to machine.
pub fn native_order() -> ByteOrder {
    order_of_probe(u16_from_native_bytes([1, 0]))
}

/// The byte order in which the bytes 1, 0 hold the integer `probe`: least
/// significant byte first for 1, most significant byte first for anything
/// else.
pub open spec fn probed_order(probe: u16) -> ByteOrder {
    if probe == 1 {
        ByteOrder::Little
    } else {
        ByteOrder::Big
    }
}

/// Says which byte order a machine has that reads the bytes 1, 0 as the
/// integer `probe`. For the two integers that a machine can read there, 1
/// and 256, the bytes 1, 0 hold the integer in the order that is returned.
pub fn order_of_probe(probe: u16) -> (order: ByteOrder)
    ensures
        order == probed_order(probe),
        probe == 1 || probe == 256 ==> u16_in(order, seq![1u8, 0u8]) == probe,
{
    if probe == 1 {
        ByteOrder::Little
    } else {
        ByteOrder::Big
    }
}

} // verus!
