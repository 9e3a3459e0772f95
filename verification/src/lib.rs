//! ICMPv4 echo ("ping") messages: how they are built, laid out on the wire,
//! checksummed, parsed and classified, together with the decisions of one
//! round trip. Every function is verified against the contract it carries.

pub mod byte_order;
pub mod checksum;
pub mod ping;
pub mod attempt;
