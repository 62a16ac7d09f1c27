//! A first look at a received packet.
//!
//! MQTT control packets consist of three parts:
//!
//! | Part                                                 |
//! |------------------------------------------------------|
//! | Fixed header, present in all control packets         |
//! | Variable header, present in some control packets     |
//! | Payload, present in some control packets             |
//!
//! The first byte of the fixed header is laid out as follows:
//!
//! ```text
//! +---------+-----+-----+----+----+--------+--------+-------+-------+
//! | Bit     | 7   | 6   | 5  | 4  |    3   |   2    |   1   |   0   |
//! +---------+-----+-----+----+----+--------+--------+-------+-------+
//! | byte 1  | MQTT Control Packet | Flags specific to               |
//! |         |   type              |   each MQTT Control Packet type |
//! +---------+---------------------+---------------------------------+
//! | byte 2… | Remaining Length                                      |
//! +---------+-------------------------------------------------------+
//! ```
//!
//! This module splits that first byte and judges nothing: a server can use it
//! to see what it was sent before it decides whether to go on. The validated
//! header is [`crate::packet::FixedHeader`].
use crate::error::ParseError;
use vstd::prelude::*;
use vstd::slice::slice_subrange;

pub use crate::packet::fixed_header::Type;

verus! {

/// A received packet, as far as this module has looked at it.
#[derive(Debug, PartialEq, Eq)]
pub struct Packet {
    pub fixed_hdr: FixedHeader,
}

/// The two nibbles of the first byte of a packet, as they were sent.
#[derive(Debug, Clone, Copy, PartialEq, Eq, Structural)]
pub struct FixedHeader {
    pub packet_type: Type,
    pub flags: u8,
}

impl FixedHeader {
    /// The type and flags that the byte holds: the type in the high nibble,
    /// the flags in the low nibble.
    pub open spec fn of_byte(byte: u8) -> FixedHeader {
        FixedHeader { packet_type: Type::of_code((byte / 16) as nat), flags: (byte % 16) as u8 }
    }
}

/// Splits the first byte of `header` into packet type and flags, and hands
/// back the bytes after it. Only an empty input is refused.
pub fn nom_fixed_header(header: &[u8]) -> (r: Result<(&[u8], FixedHeader), ParseError>)
    ensures
        header@.len() == 0 ==> r is Err && r->Err_0 == ParseError::TruncatedInput,
        header@.len() >= 1 ==> r is Ok && r->Ok_0.0@ == header@.skip(1) && r->Ok_0.1
            == FixedHeader::of_byte(header@[0]),
{
    if header.len() < 1 {
        return Err(ParseError::TruncatedInput);
    }
    let byte: u8 = header[0];
    assert(byte & 0x0F == byte % 16) by (bit_vector);
    let packet_type: Type = crate::packet::FixedHeader::parse_type(byte);
    let rest = slice_subrange(header, 1, header.len());
    Ok((rest, FixedHeader { packet_type, flags: byte & 0x0F }))
}

} // verus!
