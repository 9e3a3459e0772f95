use simple_ping::ping::icmp_packets::{
    ICMPv4EchoPacketStruct, ICMPv4GenericPacket, PacketError, PossibleIcmpPackets,
};

fn classify(bytes: &[u8]) -> PossibleIcmpPackets {
    ICMPv4GenericPacket::from_bytes(bytes).unwrap().specialize()
}

#[test]
fn echo_reply_is_recognized_with_its_sequence() {
    let reply = ICMPv4EchoPacketStruct::new(0, 0, 1234, 1, b"abc").unwrap();
    match classify(&reply.as_bytes()) {
        PossibleIcmpPackets::ICMPv4EchoPacket(packet) => {
            assert_eq!(packet.sequence(), 1);
            assert_eq!(packet.id(), 1234);
            assert_eq!(packet.p_type(), 0);
            assert_eq!(packet.code(), 0);
            assert_eq!(packet.data(), b"abc");
            assert!(packet.valid_checksum());
        }
        other => panic!("not an echo reply: {:?}", other),
    }
}

#[test]
fn echo_request_is_no_reply() {
    let request = ICMPv4EchoPacketStruct::new(8, 0, 1234, 1, b"abc").unwrap();
    assert!(matches!(classify(&request.as_bytes()), PossibleIcmpPackets::UnknownPacket));
}

#[test]
fn type_11_code_0_is_ttl_exceeded() {
    assert!(matches!(
        classify(&[11, 0, 0, 0, 0, 0, 0, 0]),
        PossibleIcmpPackets::ICMPv4TimeExceededPacketTtlExceeded
    ));
}

#[test]
fn type_11_code_1_is_fragment_reassembly_time_exceeded() {
    assert!(matches!(
        classify(&[11, 1, 0, 0, 0, 0, 0, 0]),
        PossibleIcmpPackets::ICMPv4TimeExceededPacketFragmentReassemblyTimeExceeded
    ));
}

#[test]
fn type_11_with_another_code_is_unknown() {
    assert!(matches!(classify(&[11, 2, 0, 0, 0, 0, 0, 0]), PossibleIcmpPackets::UnknownPacket));
    assert!(matches!(classify(&[11, 255, 0, 0, 0, 0, 0, 0]), PossibleIcmpPackets::UnknownPacket));
}

#[test]
fn destination_unreachable_is_unknown() {
    assert!(matches!(classify(&[3, 1, 0, 0, 0, 0, 0, 0]), PossibleIcmpPackets::UnknownPacket));
}

#[test]
fn corrupted_payload_byte_is_an_invalid_checksum() {
    let reply = ICMPv4EchoPacketStruct::new(0, 0, 1234, 1, b"abcdef").unwrap();
    let mut bytes = reply.as_bytes();
    bytes[10] = bytes[10].wrapping_add(1);
    assert!(matches!(classify(&bytes), PossibleIcmpPackets::InvalidPacket));
}

#[test]
fn any_corrupted_byte_behind_the_code_is_an_invalid_checksum() {
    let reply = ICMPv4EchoPacketStruct::new(0, 0, 1234, 1, b"abcdef").unwrap();
    let bytes = reply.as_bytes();
    for i in 2..bytes.len() {
        for value in [0u8, 1, 0x55, 0xFF] {
            if value != bytes[i] {
                let mut changed = bytes.clone();
                changed[i] = value;
                assert!(
                    matches!(classify(&changed), PossibleIcmpPackets::InvalidPacket),
                    "byte {} set to {}",
                    i,
                    value
                );
            }
        }
    }
}

#[test]
fn echo_reply_with_zero_checksum_is_invalid() {
    assert!(matches!(classify(&[0, 0, 0, 0, 0, 0, 0, 0]), PossibleIcmpPackets::InvalidPacket));
    // The checksum of eight zero bytes is 0xFFFF.
    assert!(matches!(
        classify(&[0, 0, 0xFF, 0xFF, 0, 0, 0, 0]),
        PossibleIcmpPackets::ICMPv4EchoPacket(_)
    ));
}

#[test]
fn every_type_and_code_has_its_outcome() {
    for p_type in 0..=255u8 {
        for code in 0..=255u8 {
            let outcome = classify(&[p_type, code, 0, 0, 0, 0, 0, 0]);
            match (p_type, code) {
                (0, 0) => assert!(matches!(outcome, PossibleIcmpPackets::InvalidPacket)),
                (11, 0) => assert!(matches!(
                    outcome,
                    PossibleIcmpPackets::ICMPv4TimeExceededPacketTtlExceeded
                )),
                (11, 1) => assert!(matches!(
                    outcome,
                    PossibleIcmpPackets::ICMPv4TimeExceededPacketFragmentReassemblyTimeExceeded
                )),
                _ => assert!(matches!(outcome, PossibleIcmpPackets::UnknownPacket)),
            }
        }
    }
}

#[test]
fn generic_packet_reads_type_code_and_payload() {
    let packet = ICMPv4GenericPacket::from_bytes(&[11, 1, 9, 9, 1, 2, 3, 4, 5, 6, 7]).unwrap();
    assert_eq!(packet.p_type(), 11);
    assert_eq!(packet.code(), 1);
    assert_eq!(packet.data(), &[5, 6, 7]);
}

#[test]
fn buffer_of_610_bytes_is_not_parsed() {
    let read = ICMPv4GenericPacket::from_bytes(&vec![0u8; 610]);
    assert_eq!(read.err(), Some(PacketError::DatagramTooLarge));
    let read = ICMPv4GenericPacket::from_bytes(&vec![0u8; 577]);
    assert_eq!(read.err(), Some(PacketError::DatagramTooLarge));
    assert!(ICMPv4GenericPacket::from_bytes(&vec![0u8; 576]).is_ok());
}

#[test]
fn buffer_shorter_than_the_header_is_not_parsed() {
    for len in 0..8usize {
        let read = ICMPv4GenericPacket::from_bytes(&vec![0u8; len]);
        assert_eq!(read.err(), Some(PacketError::HeaderTruncated));
    }
}

#[test]
fn largest_echo_reply_is_recognized() {
    let payload: Vec<u8> = (0..568).map(|i| (i % 251) as u8).collect();
    let reply = ICMPv4EchoPacketStruct::new(0, 0, 9, 0xFFFF, &payload).unwrap();
    match classify(&reply.as_bytes()) {
        PossibleIcmpPackets::ICMPv4EchoPacket(packet) => {
            assert_eq!(packet.sequence(), 0xFFFF);
            assert_eq!(packet.data(), &payload[..]);
        }
        other => panic!("not an echo reply: {:?}", other),
    }
}
