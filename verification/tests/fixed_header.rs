use mqtt_header::packet::fixed_header::flags;
use mqtt_header::packet::fixed_header::{
    FixedHeader, PublishFlags, QosLevel, RemainingLength, Type,
};
use mqtt_header::ParseError;

fn all_types() -> Vec<Type> {
    vec![
        Type::Reserved,
        Type::Connect,
        Type::ConnAck,
        Type::Publish,
        Type::PubAck,
        Type::PubRec,
        Type::PubRel,
        Type::PubComp,
        Type::Subscribe,
        Type::SubAck,
        Type::Unsubscribe,
        Type::UnsubAck,
        Type::PingReq,
        Type::PingResp,
        Type::Disconnect,
        Type::Auth,
    ]
}

fn mandated(packet_type: Type) -> u8 {
    match packet_type {
        Type::PubRel | Type::Subscribe | Type::Unsubscribe => 0b0010,
        _ => 0b0000,
    }
}

#[test]
fn publish_with_empty_flags_and_length_two() {
    let header = FixedHeader::parse_from_vec(vec![0x30, 0x02]).unwrap();
    assert_eq!(header.packet_type(), Type::Publish);
    assert_eq!(header.remaining_length().value(), 2);
    assert_eq!(
        header.publish_flags(),
        Some(PublishFlags { dup: false, qos: QosLevel::Zero, retain: false })
    );
    assert_eq!(header.flags(), 0);
}

#[test]
fn connack_with_length_two() {
    let header = FixedHeader::parse_from_vec(vec![0x20, 0x02]).unwrap();
    assert_eq!(header.packet_type(), Type::ConnAck);
    assert_eq!(header.flags(), 0b0000);
    assert_eq!(header.flags(), flags::CONNACK);
    assert!(header.publish_flags().is_none());
    assert_eq!(header.remaining_length().value(), 2);
}

#[test]
fn subscribe_with_two_length_bytes() {
    let header = FixedHeader::parse_from_vec(vec![0x82, 0xFF, 0x7F]).unwrap();
    assert_eq!(header.packet_type(), Type::Subscribe);
    assert_eq!(header.flags(), 0b0010);
    assert!(header.publish_flags().is_none());
    assert_eq!(header.remaining_length().value(), 16_383);
    assert_eq!(header.remaining_length().encoded_byte_count(), 2);
    assert_eq!(header.remaining_length().raw_bytes(), &[0xFF, 0x7F]);
}

#[test]
fn connect_without_length_bytes_is_truncated() {
    let r = FixedHeader::parse_from_vec(vec![0x10]);
    assert_eq!(r.err(), Some(ParseError::TruncatedInput));
}

#[test]
fn reserved_type_is_refused() {
    let r = FixedHeader::parse_from_vec(vec![0x00, 0x00]);
    assert_eq!(r.err(), Some(ParseError::ReservedTypeUsed));
}

#[test]
fn continuation_through_the_fourth_byte_is_malformed() {
    let r = FixedHeader::parse_from_vec(vec![0x33, 0xFF, 0xFF, 0xFF, 0xFF]);
    assert_eq!(r.err(), Some(ParseError::MalformedRemainingLength));
}

#[test]
fn empty_buffer_is_truncated() {
    let r = FixedHeader::parse_from_vec(vec![]);
    assert_eq!(r.err(), Some(ParseError::TruncatedInput));
}

#[test]
fn reserved_type_is_refused_whatever_the_flags() {
    for nibble in 0..16u8 {
        let r = FixedHeader::parse_from_vec(vec![nibble, 0x00]);
        assert_eq!(r.err(), Some(ParseError::ReservedTypeUsed));
    }
    let r = FixedHeader::parse_from_vec(vec![0x05]);
    assert_eq!(r.err(), Some(ParseError::ReservedTypeUsed));
}

#[test]
fn wrong_flags_are_reported_with_both_nibbles() {
    let r = FixedHeader::parse_from_vec(vec![0x21, 0x02]);
    assert_eq!(r.err(), Some(ParseError::InvalidFlags { expected: 0b0000, found: 0b0001 }));
    let r = FixedHeader::parse_from_vec(vec![0x80, 0x02]);
    assert_eq!(r.err(), Some(ParseError::InvalidFlags { expected: 0b0010, found: 0b0000 }));
    let r = FixedHeader::parse_from_vec(vec![0x6F, 0x02]);
    assert_eq!(r.err(), Some(ParseError::InvalidFlags { expected: 0b0010, found: 0b1111 }));
}

#[test]
fn publish_with_both_qos_bits_is_refused() {
    let r = FixedHeader::parse_from_vec(vec![0x36, 0x02]);
    assert_eq!(r.err(), Some(ParseError::InvalidQos(3)));
    let r = FixedHeader::parse_from_vec(vec![0x3F, 0x02]);
    assert_eq!(r.err(), Some(ParseError::InvalidQos(0b11)));
    let r = FixedHeader::parse_from_vec(vec![0x37, 0x02]);
    assert_eq!(r.err(), Some(ParseError::InvalidQos(3)));
}

#[test]
fn padded_length_is_refused() {
    let r = FixedHeader::parse_from_vec(vec![0x10, 0x80, 0x00]);
    assert_eq!(r.err(), Some(ParseError::NonMinimalEncoding));
}

#[test]
fn unfinished_length_is_truncated() {
    let r = FixedHeader::parse_from_vec(vec![0x10, 0x80]);
    assert_eq!(r.err(), Some(ParseError::TruncatedInput));
    let r = FixedHeader::parse_from_vec(vec![0x10, 0xFF, 0xFF, 0xFF]);
    assert_eq!(r.err(), Some(ParseError::TruncatedInput));
}

#[test]
fn earlier_checks_win_over_later_ones() {
    // Flags are checked before the length.
    let r = FixedHeader::parse_from_vec(vec![0x11]);
    assert_eq!(r.err(), Some(ParseError::InvalidFlags { expected: 0, found: 1 }));
    let r = FixedHeader::parse_from_vec(vec![0x11, 0xFF, 0xFF, 0xFF, 0xFF]);
    assert_eq!(r.err(), Some(ParseError::InvalidFlags { expected: 0, found: 1 }));
    // The QoS is checked before the length.
    let r = FixedHeader::parse_from_vec(vec![0x36]);
    assert_eq!(r.err(), Some(ParseError::InvalidQos(3)));
    let r = FixedHeader::parse_from_vec(vec![0x36, 0x80, 0x00]);
    assert_eq!(r.err(), Some(ParseError::InvalidQos(3)));
    // The type is checked before the flags.
    let r = FixedHeader::parse_from_vec(vec![0x0F, 0xFF, 0xFF, 0xFF, 0xFF]);
    assert_eq!(r.err(), Some(ParseError::ReservedTypeUsed));
}

#[test]
fn zero_length_is_legal() {
    let header = FixedHeader::parse_from_vec(vec![0xC0, 0x00]).unwrap();
    assert_eq!(header.packet_type(), Type::PingReq);
    assert_eq!(header.remaining_length().value(), 0);
    let header = FixedHeader::parse_from_vec(vec![0xD0, 0x00]).unwrap();
    assert_eq!(header.packet_type(), Type::PingResp);
    assert_eq!(header.remaining_length().value(), 0);
    let header = FixedHeader::parse_from_vec(vec![0xE0, 0x00]).unwrap();
    assert_eq!(header.packet_type(), Type::Disconnect);
    assert_eq!(header.remaining_length().value(), 0);
    let header = FixedHeader::parse_from_vec(vec![0x30, 0x00]).unwrap();
    assert_eq!(header.packet_type(), Type::Publish);
    assert_eq!(header.remaining_length().value(), 0);
}

#[test]
fn bytes_after_the_header_are_not_looked_at() {
    let mut buf = vec![0x30, 0x16, 0x00, 0x0f, 0x4c, 0x75, 0x61, 0x20, 0x53, 0x65, 0x6e, 0x64];
    buf.extend_from_slice(&[0x65, 0x72, 0x20, 0x54, 0x65, 0x73, 0x74, 0x48, 0x65, 0x6c, 0x6c, 0x6f]);
    let header = FixedHeader::parse_from_vec(buf).unwrap();
    assert_eq!(header.packet_type(), Type::Publish);
    assert_eq!(header.flags(), 0);
    assert_eq!(header.remaining_length().value(), 0x16);
    assert_eq!(header.remaining_length().encoded_byte_count(), 1);
}

#[test]
fn publish_header_with_all_fields_and_the_largest_length() {
    let header = FixedHeader::parse_from_vec(vec![0x3D, 0xFF, 0xFF, 0xFF, 0x7F]).unwrap();
    assert_eq!(header.packet_type(), Type::Publish);
    assert_eq!(header.flags(), 0b1101);
    assert_eq!(
        header.publish_flags(),
        Some(PublishFlags { dup: true, qos: QosLevel::Two, retain: true })
    );
    assert_eq!(header.remaining_length().value(), 268_435_455);
    assert_eq!(header.remaining_length().encoded_byte_count(), 4);
}

#[test]
fn publish_flags_are_present_exactly_for_publish() {
    for (code, packet_type) in all_types().into_iter().enumerate() {
        if packet_type == Type::Reserved {
            continue;
        }
        let nibble = if packet_type == Type::Publish { 0b0011 } else { mandated(packet_type) };
        let first = ((code as u8) << 4) | nibble;
        let header = FixedHeader::parse_from_vec(vec![first, 0x01]).unwrap();
        assert_eq!(header.packet_type(), packet_type);
        assert_eq!(header.flags(), nibble);
        assert_eq!(header.publish_flags().is_some(), packet_type == Type::Publish);
        if packet_type == Type::Publish {
            assert_eq!(header.publish_flags(), Some(PublishFlags::from(nibble)));
        }
    }
}

#[test]
fn every_first_byte_is_judged_by_type_and_flags() {
    for first in 0..=255u8 {
        let packet_type = FixedHeader::parse_type(first);
        let nibble = first & 0x0F;
        let r = FixedHeader::parse_from_vec(vec![first, 0x7F]);
        if packet_type == Type::Reserved {
            assert_eq!(r.err(), Some(ParseError::ReservedTypeUsed));
        } else if packet_type == Type::Publish {
            if (nibble >> 1) & 0b11 == 0b11 {
                assert_eq!(r.err(), Some(ParseError::InvalidQos(3)));
            } else {
                let header = r.unwrap();
                assert_eq!(header.packet_type(), Type::Publish);
                assert_eq!(header.flags(), nibble);
                assert_eq!(header.remaining_length().value(), 127);
            }
        } else if nibble == mandated(packet_type) {
            let header = r.unwrap();
            assert_eq!(header.packet_type(), packet_type);
            assert_eq!(header.flags(), nibble);
            assert!(header.publish_flags().is_none());
        } else {
            assert_eq!(
                r.err(),
                Some(ParseError::InvalidFlags { expected: mandated(packet_type), found: nibble })
            );
        }
    }
}

#[test]
fn parse_type_maps_each_code_to_its_type() {
    let types = all_types();
    for code in 0..16u8 {
        assert_eq!(FixedHeader::parse_type(code << 4), types[code as usize]);
    }
    assert_eq!(FixedHeader::parse_type(0x00), Type::Reserved);
    assert_eq!(FixedHeader::parse_type(0x10), Type::Connect);
    assert_eq!(FixedHeader::parse_type(0x20), Type::ConnAck);
    assert_eq!(FixedHeader::parse_type(0x30), Type::Publish);
    assert_eq!(FixedHeader::parse_type(0x40), Type::PubAck);
    assert_eq!(FixedHeader::parse_type(0x50), Type::PubRec);
    assert_eq!(FixedHeader::parse_type(0x60), Type::PubRel);
    assert_eq!(FixedHeader::parse_type(0x70), Type::PubComp);
    assert_eq!(FixedHeader::parse_type(0x80), Type::Subscribe);
    assert_eq!(FixedHeader::parse_type(0x90), Type::SubAck);
    assert_eq!(FixedHeader::parse_type(0xA0), Type::Unsubscribe);
    assert_eq!(FixedHeader::parse_type(0xB0), Type::UnsubAck);
    assert_eq!(FixedHeader::parse_type(0xC0), Type::PingReq);
    assert_eq!(FixedHeader::parse_type(0xD0), Type::PingResp);
    assert_eq!(FixedHeader::parse_type(0xE0), Type::Disconnect);
    assert_eq!(FixedHeader::parse_type(0xF0), Type::Auth);
}

#[test]
fn parse_type_gives_distinct_types_for_distinct_codes() {
    for a in 0..16u8 {
        for b in 0..16u8 {
            let same = FixedHeader::parse_type(a << 4) == FixedHeader::parse_type(b << 4);
            assert_eq!(same, a == b);
        }
    }
}

#[test]
fn parse_type_ignores_the_low_nibble() {
    for byte in 0..=255u8 {
        assert_eq!(FixedHeader::parse_type(byte), FixedHeader::parse_type(byte & 0xF0));
    }
}

#[test]
fn reserved_flags_table() {
    assert_eq!(Type::Connect.map_to_reserved_flags(), 0b0000);
    assert_eq!(Type::ConnAck.map_to_reserved_flags(), 0b0000);
    assert_eq!(Type::PubAck.map_to_reserved_flags(), 0b0000);
    assert_eq!(Type::PubRec.map_to_reserved_flags(), 0b0000);
    assert_eq!(Type::PubRel.map_to_reserved_flags(), 0b0010);
    assert_eq!(Type::PubComp.map_to_reserved_flags(), 0b0000);
    assert_eq!(Type::Subscribe.map_to_reserved_flags(), 0b0010);
    assert_eq!(Type::SubAck.map_to_reserved_flags(), 0b0000);
    assert_eq!(Type::Unsubscribe.map_to_reserved_flags(), 0b0010);
    assert_eq!(Type::UnsubAck.map_to_reserved_flags(), 0b0000);
    assert_eq!(Type::PingReq.map_to_reserved_flags(), 0b0000);
    assert_eq!(Type::PingResp.map_to_reserved_flags(), 0b0000);
    assert_eq!(Type::Disconnect.map_to_reserved_flags(), 0b0000);
    assert_eq!(Type::Auth.map_to_reserved_flags(), 0b0000);
}

#[test]
fn reserved_flags_table_agrees_with_the_constants() {
    assert_eq!(Type::Connect.map_to_reserved_flags(), flags::CONNECT);
    assert_eq!(Type::ConnAck.map_to_reserved_flags(), flags::CONNACK);
    assert_eq!(Type::PubAck.map_to_reserved_flags(), flags::PUBACK);
    assert_eq!(Type::PubRec.map_to_reserved_flags(), flags::PUBREC);
    assert_eq!(Type::PubRel.map_to_reserved_flags(), flags::PUBREL);
    assert_eq!(Type::PubComp.map_to_reserved_flags(), flags::PUBCOMP);
    assert_eq!(Type::Subscribe.map_to_reserved_flags(), flags::SUBSCRIBE);
    assert_eq!(Type::SubAck.map_to_reserved_flags(), flags::SUBACK);
    assert_eq!(Type::Unsubscribe.map_to_reserved_flags(), flags::UNSUBSCRIBE);
    assert_eq!(Type::UnsubAck.map_to_reserved_flags(), flags::UNSUBACK);
    assert_eq!(Type::PingReq.map_to_reserved_flags(), flags::PINGREQ);
    assert_eq!(Type::PingResp.map_to_reserved_flags(), flags::PINGRESP);
    assert_eq!(Type::Disconnect.map_to_reserved_flags(), flags::DISCONNECT);
    assert_eq!(Type::Auth.map_to_reserved_flags(), flags::AUTH);
}

#[test]
fn check_reserved_flags_accepts_only_the_mandated_nibble() {
    for packet_type in all_types() {
        if packet_type == Type::Publish || packet_type == Type::Reserved {
            continue;
        }
        for nibble in 0..16u8 {
            assert_eq!(packet_type.check_reserved_flags(nibble), nibble == mandated(packet_type));
        }
    }
}

#[test]
fn check_reserved_flags_ignores_the_high_nibble() {
    assert!(Type::Subscribe.check_reserved_flags(0x82));
    assert!(!Type::Subscribe.check_reserved_flags(0x80));
    assert!(Type::ConnAck.check_reserved_flags(0x20));
    assert!(!Type::ConnAck.check_reserved_flags(0x21));
    assert!(Type::Connect.check_reserved_flags(0xF0));
}

#[test]
fn parse_flags_succeeds_exactly_on_the_mandated_nibble() {
    for packet_type in all_types() {
        if packet_type == Type::Publish || packet_type == Type::Reserved {
            continue;
        }
        for nibble in 0..16u8 {
            let r = FixedHeader::parse_flags(nibble, packet_type);
            if nibble == mandated(packet_type) {
                assert_eq!(r, Ok(nibble));
            } else {
                assert_eq!(
                    r,
                    Err(ParseError::InvalidFlags { expected: mandated(packet_type), found: nibble })
                );
            }
        }
    }
}

#[test]
fn parse_flags_accepts_every_nibble_for_publish() {
    for nibble in 0..16u8 {
        assert_eq!(FixedHeader::parse_flags(nibble, Type::Publish), Ok(nibble));
    }
}

#[test]
fn parse_flags_refuses_the_reserved_type() {
    for nibble in 0..16u8 {
        assert_eq!(
            FixedHeader::parse_flags(nibble, Type::Reserved),
            Err(ParseError::ReservedTypeUsed)
        );
    }
}

#[test]
fn parse_flags_strips_the_type_bits() {
    assert_eq!(FixedHeader::parse_flags(0x82, Type::Subscribe), Ok(0x02));
    assert_eq!(FixedHeader::parse_flags(0x3B, Type::Publish), Ok(0x0B));
    assert_eq!(
        FixedHeader::parse_flags(0x21, Type::ConnAck),
        Err(ParseError::InvalidFlags { expected: 0, found: 1 })
    );
}

#[test]
fn new_keeps_the_parts() {
    let length = RemainingLength::encode(321).unwrap();
    let fields = PublishFlags { dup: true, qos: QosLevel::One, retain: false };
    let header = FixedHeader::new(Type::Publish, 0b1010, length, Some(fields));
    assert_eq!(header.packet_type(), Type::Publish);
    assert_eq!(header.flags(), 0b1010);
    assert_eq!(header.publish_flags(), Some(fields));
    assert_eq!(header.remaining_length().value(), 321);
    assert_eq!(header.remaining_length().raw_bytes(), &[0xC1, 0x02]);
}

#[test]
fn new_does_not_check_the_parts() {
    let length = RemainingLength::encode(0).unwrap();
    let header = FixedHeader::new(Type::ConnAck, 0xFF, length, None);
    assert_eq!(header.packet_type(), Type::ConnAck);
    assert_eq!(header.flags(), 0xFF);
    assert!(header.publish_flags().is_none());
    assert_eq!(header.remaining_length().value(), 0);
}

#[test]
fn parsed_header_equals_the_header_built_from_its_parts() {
    let parsed = FixedHeader::parse_from_vec(vec![0x3B, 0xC1, 0x02, 0x00]).unwrap();
    let built = FixedHeader::new(
        Type::Publish,
        0x0B,
        RemainingLength::encode(321).unwrap(),
        Some(PublishFlags { dup: true, qos: QosLevel::One, retain: true }),
    );
    assert_eq!(parsed.packet_type(), built.packet_type());
    assert_eq!(parsed.flags(), built.flags());
    assert_eq!(parsed.publish_flags(), built.publish_flags());
    assert_eq!(parsed.remaining_length(), built.remaining_length());
}

#[test]
fn parse_of_a_slice_agrees_with_parse_from_vec() {
    let inputs: Vec<Vec<u8>> = vec![
        vec![],
        vec![0x00, 0x00],
        vec![0x10],
        vec![0x20, 0x02],
        vec![0x21, 0x02],
        vec![0x30, 0x02],
        vec![0x36, 0x02],
        vec![0x3B, 0xC1, 0x02, 0x00],
        vec![0x82, 0xFF, 0x7F],
        vec![0x82, 0x80, 0x00],
        vec![0x33, 0xFF, 0xFF, 0xFF, 0xFF],
        vec![0xF0, 0xFF, 0xFF, 0xFF, 0x7F, 0x01],
    ];
    for input in inputs {
        let from_slice = FixedHeader::parse(&input);
        let from_vec = FixedHeader::parse_from_vec(input);
        match (from_slice, from_vec) {
            (Ok(a), Ok(b)) => {
                assert_eq!(a.packet_type(), b.packet_type());
                assert_eq!(a.flags(), b.flags());
                assert_eq!(a.publish_flags(), b.publish_flags());
                assert_eq!(a.remaining_length(), b.remaining_length());
            }
            (Err(a), Err(b)) => assert_eq!(a, b),
            _ => panic!("one call succeeded and the other failed"),
        }
    }
}

#[test]
fn parse_looks_at_no_more_than_five_bytes() {
    let short = FixedHeader::parse(&[0xF0, 0xFF, 0xFF, 0xFF, 0x7F]).unwrap();
    let long = FixedHeader::parse(&[0xF0, 0xFF, 0xFF, 0xFF, 0x7F, 0x80, 0x80, 0x00]).unwrap();
    assert_eq!(short.packet_type(), Type::Auth);
    assert_eq!(long.packet_type(), Type::Auth);
    assert_eq!(short.remaining_length(), long.remaining_length());
    assert_eq!(short.remaining_length().value(), 268_435_455);
}
