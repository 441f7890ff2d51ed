use rugby_scoreboard::{EthernetPacket, ScoreboardError};

#[test]
fn test_packet_encode_decode() {
    let command_data = vec![0x47, 0x01, 0x01];
    let packet = EthernetPacket::new(0x01, command_data.clone());

    let encoded = packet.encode();
    let decoded = EthernetPacket::decode(&encoded).unwrap();

    assert_eq!(decoded.card_id, 0x01);
    assert_eq!(decoded.command_data, command_data);
    assert_eq!(decoded.packet_type, 0x68);
    assert_eq!(decoded.card_type, 0x32);
}

#[test]
fn encode_writes_exact_header_and_payload() {
    let packet = EthernetPacket::new(0x01, vec![0x47, 0x01, 0x01]);
    assert_eq!(packet.network_data_length, 7);
    let encoded = packet.encode();
    assert_eq!(
        encoded.to_vec(),
        vec![0xff, 0xff, 0xff, 0xff, 0x07, 0x00, 0x00, 0x00, 0x68, 0x32, 0x01, 0x47, 0x01, 0x01]
    );
}

#[test]
fn round_trip_recovers_card_id_and_payload_for_many_lengths() {
    for len in 0..300usize {
        let payload: Vec<u8> = (0..len).map(|i| (i * 7 + 3) as u8).collect();
        let card_id = (len % 256) as u8;
        let encoded = EthernetPacket::new(card_id, payload.clone()).encode();
        assert_eq!(encoded.len(), 11 + len);
        let decoded = EthernetPacket::decode(&encoded).unwrap();
        assert_eq!(decoded.card_id, card_id);
        assert_eq!(decoded.command_data, payload);
        assert_eq!(decoded.network_data_length, 4 + len as u32);
        assert_eq!(decoded.reserved, 0);
    }
}

#[test]
fn round_trip_of_empty_payload() {
    let encoded = EthernetPacket::new(0xfe, Vec::new()).encode();
    assert_eq!(encoded.len(), 11);
    let decoded = EthernetPacket::decode(&encoded).unwrap();
    assert_eq!(decoded.card_id, 0xfe);
    assert!(decoded.command_data.is_empty());
    assert_eq!(decoded.network_data_length, 4);
}

#[test]
fn decode_rejects_every_short_buffer() {
    for len in 0..11usize {
        let data = vec![0xffu8; len];
        assert_eq!(EthernetPacket::decode(&data).unwrap_err(), ScoreboardError::Format);
    }
}

#[test]
fn decode_reads_little_endian_fields() {
    let data = [0xff, 0xff, 0xff, 0xff, 0x34, 0x12, 0x02, 0x01, 0xe8, 0x32, 0x09, 0xaa];
    let p = EthernetPacket::decode(&data).unwrap();
    assert_eq!(p.network_data_length, 0x1234);
    assert_eq!(p.reserved, 0x0102);
    assert_eq!(p.packet_type, 0xe8);
    assert_eq!(p.card_id, 9);
    assert_eq!(p.command_data, vec![0xaa]);
    assert!(p.is_response());
}

#[test]
fn outbound_packet_is_not_a_response() {
    let p = EthernetPacket::new(1, vec![1, 2]);
    assert!(!p.is_response());
}
