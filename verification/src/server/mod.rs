//! The entry point for a server that receives control packets.
use crate::error::ParseError;
use crate::packet::ControlPacket;
use vstd::prelude::*;

pub mod packet;

verus! {

/// Parses a whole control packet. The variable header and the payload are
/// outside what this crate decodes, so every buffer is refused with
/// `Unknown`; the fixed header at its start is decoded by
/// [`crate::packet::FixedHeader::parse`].
pub fn parse_packet(_buf: &[u8]) -> (r: Result<ControlPacket, ParseError>)
    ensures
        r matches Err(e) && e == ParseError::Unknown,
{
    Err(ParseError::Unknown)
}

} // verus!
