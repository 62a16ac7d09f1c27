//! Flag nibbles: the fixed patterns that the protocol mandates for every
//! packet type but PUBLISH, and the fields that a PUBLISH packet packs into
//! its nibble.
use vstd::prelude::*;
use vstd::std_specs::convert::FromSpecImpl;

verus! {

/// The flag nibble mandated for CONNECT packets.
pub const CONNECT: u8 = 0b0000;

/// The flag nibble mandated for CONNACK packets.
pub const CONNACK: u8 = 0b0000;

/// The flag nibble mandated for PUBACK packets.
pub const PUBACK: u8 = 0b0000;

/// The flag nibble mandated for PUBREC packets.
pub const PUBREC: u8 = 0b0000;

/// The flag nibble mandated for PUBREL packets.
pub const PUBREL: u8 = 0b0010;

/// The flag nibble mandated for PUBCOMP packets.
pub const PUBCOMP: u8 = 0b0000;

/// The flag nibble mandated for SUBSCRIBE packets.
pub const SUBSCRIBE: u8 = 0b0010;

/// The flag nibble mandated for SUBACK packets.
pub const SUBACK: u8 = 0b0000;

/// The flag nibble mandated for UNSUBSCRIBE packets.
pub const UNSUBSCRIBE: u8 = 0b0010;

/// The flag nibble mandated for UNSUBACK packets.
pub const UNSUBACK: u8 = 0b0000;

/// The flag nibble mandated for PINGREQ packets.
pub const PINGREQ: u8 = 0b0000;

/// The flag nibble mandated for PINGRESP packets.
pub const PINGRESP: u8 = 0b0000;

/// The flag nibble mandated for DISCONNECT packets.
pub const DISCONNECT: u8 = 0b0000;

/// The flag nibble mandated for AUTH packets.
pub const AUTH: u8 = 0b0000;

/// The bit masks of the fields in the flag nibble of a PUBLISH packet.
#[allow(non_camel_case_types)]
pub struct PUBLISH;

impl PUBLISH {
    /// Bit 3: the packet is a redelivery.
    pub const DUP: u8 = 0b1000;

    /// Bits 2 and 1: the quality of service, a two-bit field.
    pub const QOS: u8 = 0b0110;

    /// Bit 0: the server is to retain the message.
    pub const RETAIN: u8 = 0b0001;

    /// Accepts `bits` if no bit outside the three masks is set, that is, if
    /// `bits` is a nibble.
    pub fn from_bits(bits: u8) -> (r: Option<u8>)
        ensures
            bits < 16 ==> r == Some(bits),
            bits >= 16 ==> r is None,
    {
        assert((bits & !(0b1000u8 | 0b0110u8 | 0b0001u8) == 0) == (bits < 16)) by (bit_vector);
        if bits & !(PUBLISH::DUP | PUBLISH::QOS | PUBLISH::RETAIN) == 0 {
            Some(bits)
        } else {
            None
        }
    }
}

/// The quality of service that a PUBLISH packet asks for. The bit pattern
/// `11` is no level of the protocol; it decodes to `Invalid`, so that
/// decoding never fails and the caller decides what to do with it.
#[derive(Debug, Clone, Copy, PartialEq, Eq, Structural)]
pub enum QosLevel {
    Zero,
    One,
    Two,
    Invalid,
}

impl QosLevel {
    /// The level that the number `v` stands for: 0, 1 and 2 are levels, every
    /// other number is `Invalid`.
    pub open spec fn of_bits(v: u8) -> QosLevel {
        if v == 0 {
            QosLevel::Zero
        } else if v == 1 {
            QosLevel::One
        } else if v == 2 {
            QosLevel::Two
        } else {
            QosLevel::Invalid
        }
    }
}

impl From<u8> for QosLevel {
    /// Decodes the two QoS bits, given as a number.
    fn from(v: u8) -> (level: QosLevel)
        ensures
            level == QosLevel::of_bits(v),
    {
        match v {
            0 => QosLevel::Zero,
            1 => QosLevel::One,
            2 => QosLevel::Two,
            _ => QosLevel::Invalid,
        }
    }
}

impl FromSpecImpl<u8> for QosLevel {
    open spec fn obeys_from_spec() -> bool {
        true
    }

    open spec fn from_spec(v: u8) -> QosLevel {
        QosLevel::of_bits(v)
    }
}

/// The three fields of the flag nibble of a PUBLISH packet.
#[derive(Debug, Clone, Copy, PartialEq, Eq, Structural)]
pub struct PublishFlags {
    pub dup: bool,
    pub qos: QosLevel,
    pub retain: bool,
}

impl PublishFlags {
    /// The two QoS bits of a flag nibble, as a number from 0 to 3.
    pub open spec fn qos_bits(nibble: u8) -> u8 {
        ((nibble / 2) % 4) as u8
    }

    /// The fields that a flag nibble holds: bit 3 is DUP, bits 2 and 1 are the
    /// QoS, bit 0 is RETAIN. Bits above the nibble are ignored.
    pub open spec fn of_nibble(nibble: u8) -> PublishFlags {
        PublishFlags {
            dup: (nibble / 8) % 2 == 1,
            qos: QosLevel::of_bits(Self::qos_bits(nibble)),
            retain: nibble % 2 == 1,
        }
    }
}

impl From<u8> for PublishFlags {
    /// Takes the flag nibble of a PUBLISH packet apart. Every nibble
    /// decodes; whether its QoS is a level of the protocol is for the caller
    /// to check.
    fn from(v: u8) -> (flags: PublishFlags)
        ensures
            flags == PublishFlags::of_nibble(v),
    {
        assert(((v & 0b1000) != 0) == ((v / 8) % 2 == 1)) by (bit_vector);
        assert((v & 0b0110) >> 1 == (v / 2) % 4) by (bit_vector);
        assert(((v & 0b0001) != 0) == (v % 2 == 1)) by (bit_vector);
        PublishFlags {
            dup: (v & PUBLISH::DUP) != 0,
            qos: QosLevel::from((v & PUBLISH::QOS) >> 1),
            retain: (v & PUBLISH::RETAIN) != 0,
        }
    }
}

impl FromSpecImpl<u8> for PublishFlags {
    open spec fn obeys_from_spec() -> bool {
        true
    }

    open spec fn from_spec(v: u8) -> PublishFlags {
        PublishFlags::of_nibble(v)
    }
}

} // verus!
