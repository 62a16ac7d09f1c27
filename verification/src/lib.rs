//! Decoder for the fixed header of MQTT control packets.
//!
//! Every MQTT control packet starts with a fixed header: one byte that holds
//! the packet type and four flag bits, followed by the remaining length as a
//! variable-byte integer of one to four bytes. This crate turns those bytes
//! into a validated [`packet::FixedHeader`] or a [`ParseError`], and encodes
//! remaining lengths back into their wire form.
use vstd::prelude::*;

pub mod error;
pub mod packet;
pub mod server;

pub use error::ParseError;

verus! {

/// The result of a decoding step.
pub type Result<T> = std::result::Result<T, error::ParseError>;

} // verus!
