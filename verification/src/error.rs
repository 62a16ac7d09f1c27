//! The ways in which a fixed header can be refused.
use vstd::prelude::*;

verus! {

/// Why a byte buffer is not a valid fixed header, or why a value cannot be
/// encoded.
#[derive(Debug, Clone, Copy, PartialEq, Eq, Structural)]
pub enum ParseError {
    /// The buffer ends before the field is complete.
    TruncatedInput,
    /// The packet type nibble is zero, which the protocol reserves.
    ReservedTypeUsed,
    /// The flag nibble of a packet other than PUBLISH differs from the pattern
    /// that the protocol mandates for its type.
    InvalidFlags { expected: u8, found: u8 },
    /// The QoS bits of a PUBLISH packet hold the pattern `11`.
    InvalidQos(u8),
    /// The fourth byte of the remaining length still has its continuation bit set.
    MalformedRemainingLength,
    /// The remaining length uses more bytes than its value needs.
    NonMinimalEncoding,
    /// The value does not fit the four bytes of a remaining length.
    ValueTooLarge,
    /// The packet could not be interpreted.
    Unknown,
}

} // verus!
