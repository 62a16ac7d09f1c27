//! The variable header, which some packet types place between the fixed
//! header and the payload.
use vstd::prelude::*;

verus! {

/// The variable header of a control packet. This crate decodes nothing of
/// it: the type marks its place in a packet.
#[derive(Debug)]
pub struct VariableHeader {}

} // verus!
