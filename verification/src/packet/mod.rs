//! The parts of an MQTT control packet.
//!
//! ```text
//! +----------------------------------------+
//! | Fixed header,                          |
//! |   present in all control packets       |
//! +----------------------------------------+
//! | Variable header,                       |
//! |   present in some control packets      |
//! +----------------------------------------+
//! | Payload,                               |
//! |   present in some control packets      |
//! +----------------------------------------+
//! ```
//!
//! Of the three parts this crate decodes the first. The other two have a type
//! each, so that a caller can hold a packet together.
use vstd::prelude::*;

pub mod fixed_header;
pub mod variable_header;

pub use fixed_header::FixedHeader;
pub use variable_header::VariableHeader;

verus! {

/// A control packet: the fixed header and what follows it.
#[derive(Debug)]
pub struct ControlPacket {
    pub fixed_header: FixedHeader,
    pub variable_header: VariableHeader,
    pub payload: Payload,
}

impl ControlPacket {
    /// Puts a packet together from its three parts.
    pub fn new(
        fixed_header: FixedHeader,
        variable_header: VariableHeader,
        payload: Payload,
    ) -> (packet: ControlPacket)
        ensures
            packet.fixed_header == fixed_header,
            packet.variable_header == variable_header,
            packet.payload == payload,
    {
        ControlPacket { fixed_header, variable_header, payload }
    }
}

/// The payload of a control packet. This crate decodes nothing of it: the
/// type marks its place in a packet.
#[derive(Debug)]
pub struct Payload {}

} // verus!
