//! The fixed header: packet type, flags and remaining length.
//!
//! ```text
//! byte 0:      bits 7-4 = packet type, bits 3-0 = flags
//! bytes 1..N:  remaining length, one to four bytes
//! ```
use crate::error::ParseError;
use vstd::pervasive::unreached;
use vstd::prelude::*;
use vstd::slice::slice_subrange;

pub mod flags;
pub mod remaining_length;

pub use flags::{PublishFlags, QosLevel};
pub use remaining_length::{RemainingLength, RemainingLengthView};

verus! {

/// The sixteen control packet types, in the order of their codes 0 to 15.
/// Code 0 is reserved: it has a variant, but no packet may carry it.
#[derive(Debug, Clone, Copy, PartialEq, Eq, Structural)]
pub enum Type {
    Reserved,
    Connect,
    ConnAck,
    Publish,
    PubAck,
    PubRec,
    PubRel,
    PubComp,
    Subscribe,
    SubAck,
    Unsubscribe,
    UnsubAck,
    PingReq,
    PingResp,
    Disconnect,
    Auth,
}

impl Type {
    /// The four-bit code of the type.
    pub open spec fn code(self) -> nat {
        match self {
            Type::Reserved => 0,
            Type::Connect => 1,
            Type::ConnAck => 2,
            Type::Publish => 3,
            Type::PubAck => 4,
            Type::PubRec => 5,
            Type::PubRel => 6,
            Type::PubComp => 7,
            Type::Subscribe => 8,
            Type::SubAck => 9,
            Type::Unsubscribe => 10,
            Type::UnsubAck => 11,
            Type::PingReq => 12,
            Type::PingResp => 13,
            Type::Disconnect => 14,
            Type::Auth => 15,
        }
    }

    /// The type with the given code. Codes are below 16.
    pub open spec fn of_code(code: nat) -> Type
        recommends
            code < 16,
    {
        if code == 0 {
            Type::Reserved
        } else if code == 1 {
            Type::Connect
        } else if code == 2 {
            Type::ConnAck
        } else if code == 3 {
            Type::Publish
        } else if code == 4 {
            Type::PubAck
        } else if code == 5 {
            Type::PubRec
        } else if code == 6 {
            Type::PubRel
        } else if code == 7 {
            Type::PubComp
        } else if code == 8 {
            Type::Subscribe
        } else if code == 9 {
            Type::SubAck
        } else if code == 10 {
            Type::Unsubscribe
        } else if code == 11 {
            Type::UnsubAck
        } else if code == 12 {
            Type::PingReq
        } else if code == 13 {
            Type::PingResp
        } else if code == 14 {
            Type::Disconnect
        } else {
            Type::Auth
        }
    }

    /// The flag nibble that the protocol mandates for the type. PUBLISH has
    /// none, because its flags carry information, and neither has the
    /// reserved type.
    pub open spec fn reserved_flags(self) -> Option<u8> {
        match self {
            Type::Reserved => None,
            Type::Connect => Some(flags::CONNECT),
            Type::ConnAck => Some(flags::CONNACK),
            Type::Publish => None,
            Type::PubAck => Some(flags::PUBACK),
            Type::PubRec => Some(flags::PUBREC),
            Type::PubRel => Some(flags::PUBREL),
            Type::PubComp => Some(flags::PUBCOMP),
            Type::Subscribe => Some(flags::SUBSCRIBE),
            Type::SubAck => Some(flags::SUBACK),
            Type::Unsubscribe => Some(flags::UNSUBSCRIBE),
            Type::UnsubAck => Some(flags::UNSUBACK),
            Type::PingReq => Some(flags::PINGREQ),
            Type::PingResp => Some(flags::PINGRESP),
            Type::Disconnect => Some(flags::DISCONNECT),
            Type::Auth => Some(flags::AUTH),
        }
    }

    /// The flag nibble that the protocol mandates for the type. Not to be
    /// called for PUBLISH or the reserved type, which have none.
    #[inline(always)]
    pub fn map_to_reserved_flags(&self) -> (mandated: u8)
        requires
            self.reserved_flags() is Some,
        ensures
            self.reserved_flags() == Some(mandated),
    {
        match *self {
            Type::Connect => flags::CONNECT,
            Type::ConnAck => flags::CONNACK,
            Type::PubAck => flags::PUBACK,
            Type::PubRec => flags::PUBREC,
            Type::PubRel => flags::PUBREL,
            Type::PubComp => flags::PUBCOMP,
            Type::Subscribe => flags::SUBSCRIBE,
            Type::SubAck => flags::SUBACK,
            Type::Unsubscribe => flags::UNSUBSCRIBE,
            Type::UnsubAck => flags::UNSUBACK,
            Type::PingReq => flags::PINGREQ,
            Type::PingResp => flags::PINGRESP,
            Type::Disconnect => flags::DISCONNECT,
            Type::Auth => flags::AUTH,
            Type::Reserved | Type::Publish => unreached(),
        }
    }

    /// Whether the low nibble of `val` is the flag nibble that the protocol
    /// mandates for the type. The high nibble of `val` is ignored, so the
    /// first byte of a header can be passed as it is.
    pub fn check_reserved_flags(&self, val: u8) -> (matches: bool)
        requires
            self.reserved_flags() is Some,
        ensures
            matches == (self.reserved_flags() == Some((val % 16) as u8)),
    {
        let reserved_bits: u8 = self.map_to_reserved_flags();
        assert(val & 0b0000_1111 == val % 16) by (bit_vector);
        (val & 0b0000_1111) == reserved_bits
    }
}

/// A decoded fixed header.
#[derive(Debug)]
pub struct FixedHeader {
    packet_type: Type,
    flags: u8,
    publish_flags: Option<PublishFlags>,
    remaining_length: RemainingLength,
}

/// What a fixed header holds: the packet type, the flag nibble as it stood on
/// the wire, the fields of that nibble if the packet is a PUBLISH, and the
/// remaining length.
pub struct FixedHeaderView {
    pub packet_type: Type,
    pub flags: u8,
    pub publish_flags: Option<PublishFlags>,
    pub remaining_length: RemainingLengthView,
}

impl FixedHeaderView {
    /// Whether the parts agree with each other as they do in every header
    /// that was parsed from bytes: the type is not the reserved one, the flags
    /// are a nibble, the PUBLISH fields are there exactly for a PUBLISH
    /// packet and are those of the flag nibble with a QoS of the protocol,
    /// any other packet has the flags mandated for its type, and the
    /// remaining length fits four bytes.
    pub open spec fn is_valid(self) -> bool {
        &&& self.packet_type != Type::Reserved
        &&& self.flags < 16
        &&& self.publish_flags is Some <==> self.packet_type == Type::Publish
        &&& self.packet_type == Type::Publish ==> {
            &&& self.publish_flags == Some(PublishFlags::of_nibble(self.flags))
            &&& PublishFlags::of_nibble(self.flags).qos != QosLevel::Invalid
        }
        &&& self.packet_type != Type::Publish ==> self.packet_type.reserved_flags() == Some(
            self.flags,
        )
        &&& self.remaining_length.value <= remaining_length::MAX_REMAINING_LENGTH
        &&& self.remaining_length == RemainingLengthView::of_value(self.remaining_length.value)
    }
}

impl View for FixedHeader {
    type V = FixedHeaderView;

    closed spec fn view(&self) -> FixedHeaderView {
        FixedHeaderView {
            packet_type: self.packet_type,
            flags: self.flags,
            publish_flags: self.publish_flags,
            remaining_length: self.remaining_length@,
        }
    }
}

impl FixedHeader {
    /// What validating the flag nibble of `byte` for a packet of the given
    /// type gives. The reserved type is refused whatever the flags are. The
    /// flags of a PUBLISH packet are accepted as they are. The flags of any
    /// other packet must be those that the protocol mandates for its type.
    pub open spec fn validated_flags(byte: u8, packet_type: Type) -> Result<u8, ParseError> {
        let nibble = (byte % 16) as u8;
        match packet_type.reserved_flags() {
            Some(expected) => if nibble == expected {
                Ok(nibble)
            } else {
                Err(ParseError::InvalidFlags { expected, found: nibble })
            },
            None => if packet_type == Type::Publish {
                Ok(nibble)
            } else {
                Err(ParseError::ReservedTypeUsed)
            },
        }
    }

    /// What parsing `buf` as a fixed header gives. The checks are made in
    /// this order, and the first that fails decides the error: there is a
    /// first byte; its type is not the reserved one; its flags are valid for
    /// the type; if it is a PUBLISH, its QoS is not the pattern `11`; the
    /// bytes after the first start with a valid remaining length.
    pub open spec fn parsed(buf: Seq<u8>) -> Result<FixedHeaderView, ParseError> {
        if buf.len() < 1 {
            Err(ParseError::TruncatedInput)
        } else {
            let packet_type = Type::of_code((buf[0] / 16) as nat);
            match Self::validated_flags(buf[0], packet_type) {
                Err(e) => Err(e),
                Ok(flags) => {
                    let publish_flags = if packet_type == Type::Publish {
                        Some(PublishFlags::of_nibble(flags))
                    } else {
                        None
                    };
                    if packet_type == Type::Publish && PublishFlags::of_nibble(flags).qos
                        == QosLevel::Invalid {
                        Err(ParseError::InvalidQos(PublishFlags::qos_bits(flags)))
                    } else {
                        match remaining_length::decoded(buf.skip(1)) {
                            Err(e) => Err(e),
                            Ok(length) => Ok(
                                FixedHeaderView {
                                    packet_type,
                                    flags,
                                    publish_flags,
                                    remaining_length: length,
                                },
                            ),
                        }
                    }
                },
            }
        }
    }

    /// Puts a header together from its parts, without checking that they
    /// agree with each other.
    pub fn new(
        packet_type: Type,
        flags: u8,
        remaining_length: RemainingLength,
        publish_flags: Option<PublishFlags>,
    ) -> (header: FixedHeader)
        ensures
            header@.packet_type == packet_type,
            header@.flags == flags,
            header@.publish_flags == publish_flags,
            header@.remaining_length == remaining_length@,
    {
        FixedHeader { packet_type, flags, remaining_length, publish_flags }
    }

    /// Attempts to construct a `FixedHeader` from a byte buffer. Bytes after
    /// the remaining length are not looked at.
    pub fn parse_from_vec(buf: Vec<u8>) -> (r: Result<FixedHeader, ParseError>)
        ensures
            r is Ok ==> Self::parsed(buf@) == Ok::<FixedHeaderView, ParseError>(r->Ok_0@),
            r is Err ==> Self::parsed(buf@) == Err::<FixedHeaderView, ParseError>(r->Err_0),
    {
        Self::parse(buf.as_slice())
    }

    /// Parses the fixed header at the start of `buf`. Bytes after the
    /// remaining length are not looked at.
    pub fn parse(buf: &[u8]) -> (r: Result<FixedHeader, ParseError>)
        ensures
            r is Ok ==> Self::parsed(buf@) == Ok::<FixedHeaderView, ParseError>(r->Ok_0@),
            r is Err ==> Self::parsed(buf@) == Err::<FixedHeaderView, ParseError>(r->Err_0),
    {
        if buf.len() < 1 {
            return Err(ParseError::TruncatedInput);
        }
        let packet_type: Type = Self::parse_type(buf[0]);
        if packet_type == Type::Reserved {
            return Err(ParseError::ReservedTypeUsed);
        }
        let flags: u8 = match Self::parse_flags(buf[0], packet_type) {
            Ok(flags) => flags,
            Err(e) => {
                return Err(e);
            },
        };
        let publish_flags = match packet_type {
            Type::Publish => Some(PublishFlags::from(flags)),
            _ => None,
        };
        if let Some(fields) = publish_flags {
            if fields.qos == QosLevel::Invalid {
                assert((flags & 0b0110) >> 1 == (flags / 2) % 4) by (bit_vector);
                return Err(ParseError::InvalidQos((flags & flags::PUBLISH::QOS) >> 1));
            }
        }
        let rest = slice_subrange(buf, 1, buf.len());
        let remaining_length = match Self::parse_remaining_length(rest) {
            Ok(length) => length,
            Err(e) => {
                return Err(e);
            },
        };
        Ok(Self::new(packet_type, flags, remaining_length, publish_flags))
    }

    /// The packet type that the high nibble of the first byte stands for.
    /// Every byte has one.
    pub fn parse_type(byte: u8) -> (packet_type: Type)
        ensures
            packet_type == Type::of_code((byte / 16) as nat),
    {
        assert(byte >> 4 == byte / 16) by (bit_vector);
        match byte >> 4 {
            0 => Type::Reserved,
            1 => Type::Connect,
            2 => Type::ConnAck,
            3 => Type::Publish,
            4 => Type::PubAck,
            5 => Type::PubRec,
            6 => Type::PubRel,
            7 => Type::PubComp,
            8 => Type::Subscribe,
            9 => Type::SubAck,
            10 => Type::Unsubscribe,
            11 => Type::UnsubAck,
            12 => Type::PingReq,
            13 => Type::PingResp,
            14 => Type::Disconnect,
            _ => Type::Auth,
        }
    }

    /// Validates the flag nibble of the first byte for a packet of the given
    /// type, and returns the nibble.
    pub fn parse_flags(byte: u8, packet_type: Type) -> (r: Result<u8, ParseError>)
        ensures
            r == Self::validated_flags(byte, packet_type),
    {
        assert(byte & 0x0F == byte % 16) by (bit_vector);
        let nibble: u8 = byte & 0x0F;
        match packet_type {
            Type::Reserved => Err(ParseError::ReservedTypeUsed),
            Type::Publish => Ok(nibble),
            _ => if packet_type.check_reserved_flags(nibble) {
                Ok(nibble)
            } else {
                Err(
                    ParseError::InvalidFlags {
                        expected: packet_type.map_to_reserved_flags(),
                        found: nibble,
                    },
                )
            },
        }
    }

    /// Decodes the remaining length at the start of `bytes`, which are the
    /// bytes after the first byte of the header.
    pub fn parse_remaining_length(bytes: &[u8]) -> (r: Result<RemainingLength, ParseError>)
        ensures
            r is Ok ==> remaining_length::decoded(bytes@) == Ok::<RemainingLengthView, ParseError>(
                r->Ok_0@,
            ),
            r is Err ==> remaining_length::decoded(bytes@) == Err::<RemainingLengthView, ParseError>(
                r->Err_0,
            ),
    {
        RemainingLength::decode(bytes)
    }

    /// The packet type.
    pub fn packet_type(&self) -> (packet_type: Type)
        ensures
            packet_type == self@.packet_type,
    {
        self.packet_type
    }

    /// The flag nibble as it stood on the wire.
    pub fn flags(&self) -> (flags: u8)
        ensures
            flags == self@.flags,
    {
        self.flags
    }

    /// The fields of the flag nibble, if the header has them.
    pub fn publish_flags(&self) -> (publish_flags: Option<PublishFlags>)
        ensures
            publish_flags == self@.publish_flags,
    {
        self.publish_flags
    }

    /// The remaining length: the number of bytes that follow the header.
    pub fn remaining_length(&self) -> (remaining_length: &RemainingLength)
        ensures
            remaining_length@ == self@.remaining_length,
    {
        &self.remaining_length
    }
}

/// Every code below 16 is the code of its type.
pub proof fn lemma_code_of_type_of_code(code: nat)
    requires
        code < 16,
    ensures
        Type::of_code(code).code() == code,
{
}

/// Every type is the type of its code, and its code is below 16.
pub proof fn lemma_type_of_code_of_type(packet_type: Type)
    ensures
        packet_type.code() < 16,
        Type::of_code(packet_type.code()) == packet_type,
{
}

/// Different codes have different types.
pub proof fn lemma_distinct_codes_have_distinct_types(a: nat, b: nat)
    requires
        a < 16,
        b < 16,
        a != b,
    ensures
        Type::of_code(a) != Type::of_code(b),
{
}

/// For a type with mandated flags, validation succeeds exactly on the
/// mandated nibble, and otherwise reports the mandated nibble and the one that
/// it found.
pub proof fn lemma_flags_are_valid_iff_mandated(nibble: u8, packet_type: Type)
    requires
        nibble < 16,
        packet_type.reserved_flags() is Some,
    ensures
        FixedHeader::validated_flags(nibble, packet_type) is Ok <==> Some(nibble)
            == packet_type.reserved_flags(),
        Some(nibble) == packet_type.reserved_flags() ==> FixedHeader::validated_flags(
            nibble,
            packet_type,
        ) == Ok::<u8, ParseError>(nibble),
        Some(nibble) != packet_type.reserved_flags() ==> FixedHeader::validated_flags(
            nibble,
            packet_type,
        ) == Err::<u8, ParseError>(
            (ParseError::InvalidFlags {
                expected: packet_type.reserved_flags()->Some_0,
                found: nibble,
            }),
        ),
{
}

/// Every header that parsing accepts is valid: among other things, it has
/// the PUBLISH fields exactly if it is a PUBLISH packet.
pub proof fn lemma_parsed_is_valid(buf: Seq<u8>)
    requires
        FixedHeader::parsed(buf) is Ok,
    ensures
        FixedHeader::parsed(buf)->Ok_0.is_valid(),
{
    remaining_length::lemma_decoded_is_encoding(buf.skip(1));
}

/// Parsing looks at no more than the first five bytes.
pub proof fn lemma_parsed_reads_five_bytes(buf: Seq<u8>)
    requires
        buf.len() >= 5,
    ensures
        FixedHeader::parsed(buf) == FixedHeader::parsed(buf.take(5)),
{
    let head = buf.take(5);
    assert(head.skip(1) =~= buf.skip(1).take(4));
    remaining_length::lemma_decoded_reads_four_bytes(buf.skip(1));
}

} // verus!
