use bedrockrs::error::{CodecError, UnionKind};
use bedrockrs::gamepacket::GamePacket;
use bedrockrs::packets::disconnect::DisconnectPacket;
use bedrockrs::packets::login::LoginPacket;
use bedrockrs::packets::network_settings::NetworkSettingsPacket;
use bedrockrs::packets::text_message::{TextMessagePacket, TextMessageType};
use bedrockrs::reader::ByteReader;
use bedrockrs::types::Float32;

fn decode(bytes: &[u8]) -> (Result<(GamePacket, u8, u8), CodecError>, usize) {
    let mut reader = ByteReader::new(bytes);
    let res = GamePacket::pk_deserialize(&mut reader);
    (res, reader.position())
}

fn encode(packet: &GamePacket, sender: u8, target: u8) -> Vec<u8> {
    let mut out: Vec<u8> = Vec::new();
    packet.pk_serialize_routed(sender, target, &mut out).unwrap();
    out
}

fn network_settings() -> GamePacket {
    GamePacket::NetworkSettings(NetworkSettingsPacket {
        compression_threshold: 512,
        compression_algorithm: 0,
        client_throttle_enabled: false,
        client_throttle_threshold: 0,
        client_throttle_scalar: Float32 { bits: 0.0f32.to_bits() },
    })
}

fn raw_text(message: &str) -> GamePacket {
    GamePacket::TextMessage(TextMessagePacket {
        message_type: TextMessageType::Raw,
        needs_translation: false,
        source_name: None,
        message: message.to_string(),
    })
}

#[test]
fn network_settings_frame_bytes() {
    let packet = network_settings();
    let mut out: Vec<u8> = Vec::new();
    assert_eq!(packet.pk_serialize(&mut out), Ok(()));
    assert_eq!(
        out,
        vec![0x0B, 0x8F, 0x01, 0x00, 0x02, 0x00, 0x00, 0x00, 0x00, 0x00, 0x00, 0x00]
    );
    let (res, consumed) = decode(&out);
    assert_eq!(res, Ok((packet, 0, 0)));
    assert_eq!(consumed, 12);
}

#[test]
fn disconnect_hidden_screen_frame_bytes() {
    let packet = GamePacket::Disconnect(DisconnectPacket { message: None });
    let out = encode(&packet, 0, 0);
    assert_eq!(out, vec![0x02, 0x05, 0x01]);
    let (res, consumed) = decode(&out);
    match res {
        Ok((GamePacket::Disconnect(pk), 0, 0)) => {
            assert!(pk.hide_screen());
            assert_eq!(pk.message, None);
        }
        other => panic!("unexpected result {:?}", other),
    }
    assert_eq!(consumed, 3);
}

#[test]
fn disconnect_any_non_zero_flag_hides_screen() {
    let (res, _) = decode(&[0x02, 0x05, 0x7F]);
    assert_eq!(
        res,
        Ok((GamePacket::Disconnect(DisconnectPacket { message: None }), 0, 0))
    );
}

#[test]
fn disconnect_with_message_round_trips() {
    let packet = GamePacket::Disconnect(DisconnectPacket { message: Some("bye".to_string()) });
    let out = encode(&packet, 0, 0);
    assert_eq!(out, vec![0x06, 0x05, 0x00, 0x03, b'b', b'y', b'e']);
    assert_eq!(decode(&out).0, Ok((packet, 0, 0)));
}

#[test]
fn raw_text_message_frame_bytes() {
    let packet = raw_text("hi");
    let out = encode(&packet, 0, 0);
    assert_eq!(out, vec![0x06, 0x09, 0x00, 0x00, 0x02, 0x68, 0x69]);
    assert_eq!(decode(&out), (Ok((packet, 0, 0)), 7));
}

#[test]
fn chat_text_message_carries_source_name() {
    let packet = GamePacket::TextMessage(TextMessagePacket {
        message_type: TextMessageType::Chat,
        needs_translation: true,
        source_name: Some("Al".to_string()),
        message: "yo".to_string(),
    });
    let out = encode(&packet, 0, 0);
    assert_eq!(out, vec![0x09, 0x09, 0x01, 0x01, 0x02, b'A', b'l', 0x02, b'y', b'o']);
    assert_eq!(decode(&out).0, Ok((packet, 0, 0)));
}

#[test]
fn text_message_with_misplaced_source_is_refused() {
    let packet = GamePacket::TextMessage(TextMessagePacket {
        message_type: TextMessageType::Raw,
        needs_translation: false,
        source_name: Some("Al".to_string()),
        message: "yo".to_string(),
    });
    let mut out: Vec<u8> = vec![0xAA];
    assert_eq!(packet.pk_serialize(&mut out), Err(CodecError::OutOfRange));
    assert_eq!(out, vec![0xAA]);
}

#[test]
fn text_message_unknown_type_names_union_and_tag() {
    let (res, consumed) = decode(&[0x06, 0x09, 0x03, 0x00, 0x02, 0x68, 0x69]);
    assert_eq!(
        res,
        Err(CodecError::UnknownVariant { union: UnionKind::TextMessageType, tag: 3 })
    );
    assert_eq!(consumed, 7);
}

#[test]
fn unknown_identifier_999_consumes_whole_frame() {
    let bytes: Vec<u8> = vec![0x05, 0xE7, 0x07, 0x00, 0x00, 0x00];
    let (res, consumed) = decode(&bytes);
    assert_eq!(res, Err(CodecError::UnknownPacketId(999)));
    assert_eq!(consumed, 6);
}

#[test]
fn identifier_1023_is_unknown_not_malformed() {
    let bytes: Vec<u8> = vec![0x02, 0xFF, 0x07];
    let (res, consumed) = decode(&bytes);
    assert_eq!(res, Err(CodecError::UnknownPacketId(1023)));
    assert_eq!(consumed, 3);
}

#[test]
fn identifier_37_is_not_assigned() {
    assert_eq!(decode(&[0x01, 37]).0, Err(CodecError::UnknownPacketId(37)));
}

#[test]
fn truncated_frame_is_reported_and_nothing_is_consumed() {
    let bytes: Vec<u8> = vec![0x0B, 0x8F, 0x01, 0x00, 0x02, 0x00];
    let (res, consumed) = decode(&bytes);
    assert_eq!(res, Err(CodecError::Truncated));
    assert_eq!(consumed, 0);
}

#[test]
fn every_cut_of_a_frame_is_truncated() {
    let out = encode(&raw_text("hello"), 3, 2);
    for k in 0..out.len() {
        assert_eq!(decode(&out[..k]).0, Err(CodecError::Truncated), "cut at {}", k);
    }
}

#[test]
fn sub_client_routing_header_bytes() {
    let packet = GamePacket::Login(LoginPacket {
        client_network_version: 0,
        connection_request: Vec::new(),
    });
    let out = encode(&packet, 1, 2);
    // Header 0x2401 is the two bytes 81 48; the body is the version and an empty blob.
    assert_eq!(out, vec![0x07, 0x81, 0x48, 0x00, 0x00, 0x00, 0x00, 0x00]);
    assert_eq!(decode(&out).0, Ok((packet, 1, 2)));
}

#[test]
fn sub_client_fields_of_three_round_trip() {
    let packet = network_settings();
    let out = encode(&packet, 3, 3);
    assert_eq!(&out[..4], &[0x0B, 0x8F, 0x79, 0x00]);
    assert_eq!(decode(&out).0, Ok((packet, 3, 3)));
}

#[test]
fn sub_client_field_above_three_is_out_of_range() {
    let mut out: Vec<u8> = Vec::new();
    assert_eq!(network_settings().pk_serialize_routed(4, 0, &mut out), Err(CodecError::OutOfRange));
    assert_eq!(network_settings().pk_serialize_routed(0, 4, &mut out), Err(CodecError::OutOfRange));
    assert!(out.is_empty());
}

#[test]
fn header_above_fourteen_bits_is_out_of_range() {
    // Header 0x4005: identifier 5 with a fifteenth bit.
    let (res, consumed) = decode(&[0x04, 0x85, 0x80, 0x01, 0x01]);
    assert_eq!(res, Err(CodecError::OutOfRange));
    assert_eq!(consumed, 5);
}

#[test]
fn packet_without_shape_is_unimplemented_both_ways() {
    let mut out: Vec<u8> = Vec::new();
    assert_eq!(GamePacket::StartGame().pk_serialize(&mut out), Err(CodecError::UnimplementedPacket(11)));
    assert!(out.is_empty());
    let (res, consumed) = decode(&[0x03, 0x0B, 0x01, 0x02, 0xFF]);
    assert_eq!(res, Err(CodecError::UnimplementedPacket(11)));
    assert_eq!(consumed, 4);
}

#[test]
fn bytes_after_the_shape_are_trailing() {
    let (res, consumed) = decode(&[0x03, 0x05, 0x01, 0x00, 0x99]);
    assert_eq!(res, Err(CodecError::TrailingBytes));
    assert_eq!(consumed, 4);
}

#[test]
fn shape_cannot_read_past_its_frame() {
    // The string claims four bytes, the frame holds two of them; more follow the frame.
    let (res, consumed) = decode(&[0x05, 0x05, 0x00, 0x04, b'a', b'b', b'c', b'd']);
    assert_eq!(res, Err(CodecError::Truncated));
    assert_eq!(consumed, 6);
}

#[test]
fn invalid_utf8_is_reported() {
    let (res, _) = decode(&[0x05, 0x05, 0x00, 0x02, 0xC3, 0x28]);
    assert_eq!(res, Err(CodecError::InvalidUtf8));
}

#[test]
fn empty_string_is_one_zero_byte() {
    let packet = raw_text("");
    let out = encode(&packet, 0, 0);
    assert_eq!(out, vec![0x04, 0x09, 0x00, 0x00, 0x00]);
    assert_eq!(decode(&out).0, Ok((packet, 0, 0)));
}

#[test]
fn non_minimal_length_prefix_is_accepted() {
    let (res, consumed) = decode(&[0x83, 0x00, 0x05, 0x01, 0x00]);
    assert_eq!(res, Err(CodecError::TrailingBytes));
    assert_eq!(consumed, 5);
    let (res, _) = decode(&[0x82, 0x00, 0x05, 0x01]);
    assert_eq!(
        res,
        Ok((GamePacket::Disconnect(DisconnectPacket { message: None }), 0, 0))
    );
}

#[test]
fn two_frames_are_read_one_after_the_other() {
    let mut bytes = encode(&raw_text("a"), 0, 0);
    bytes.extend(encode(&network_settings(), 1, 0));
    let mut reader = ByteReader::new(&bytes);
    assert_eq!(GamePacket::pk_deserialize(&mut reader), Ok((raw_text("a"), 0, 0)));
    assert_eq!(GamePacket::pk_deserialize(&mut reader), Ok((network_settings(), 1, 0)));
    assert_eq!(reader.remaining_len(), 0);
    assert_eq!(GamePacket::pk_deserialize(&mut reader), Err(CodecError::Truncated));
}

#[test]
fn flipping_an_identifier_bit_of_a_disconnect_frame() {
    // Identifier 5 with each of its ten bits flipped in turn; the body stays `01`.
    for bit in 0..10u16 {
        let other: u16 = 5 ^ (1 << bit);
        let mut header: Vec<u8> = Vec::new();
        bedrockrs::varint::write_uvar(&mut header, other as u64);
        let mut frame: Vec<u8> = vec![(header.len() + 1) as u8];
        frame.extend(&header);
        frame.push(0x01);
        match decode(&frame).0 {
            Ok((packet, 0, 0)) => assert_eq!(packet.packet_id(), other),
            Err(CodecError::UnknownPacketId(id)) => assert_eq!(id, other),
            Err(CodecError::UnimplementedPacket(id)) => assert_eq!(id, other),
            other_result => {
                // Identifier 1 has a shape that one byte cannot fill.
                assert_eq!(other, 1, "unexpected {:?}", other_result);
                assert_eq!(other_result, Err(CodecError::Truncated));
            }
        }
    }
}

#[test]
fn encoding_what_was_decoded_gives_the_bytes_back() {
    let frames: Vec<Vec<u8>> = vec![
        vec![0x0B, 0x8F, 0x01, 0x00, 0x02, 0x00, 0x00, 0x00, 0x00, 0x00, 0x00, 0x00],
        vec![0x02, 0x05, 0x01],
        vec![0x06, 0x09, 0x00, 0x00, 0x02, 0x68, 0x69],
        vec![0x07, 0x81, 0x48, 0x00, 0x00, 0x00, 0x00, 0x00],
    ];
    for bytes in frames {
        let (res, consumed) = decode(&bytes);
        let (packet, sender, target) = res.unwrap();
        assert_eq!(consumed, bytes.len());
        assert_eq!(encode(&packet, sender, target), bytes);
    }
}

#[test]
fn padded_forms_are_read_but_never_written() {
    // A padded length, a padded header and a boolean byte of two.
    let padded: Vec<u8> = vec![0x83, 0x00, 0x85, 0x00, 0x02];
    let (res, consumed) = decode(&padded);
    let (packet, sender, target) = res.unwrap();
    assert_eq!(consumed, 5);
    assert_eq!(packet, GamePacket::Disconnect(DisconnectPacket { message: None }));
    assert_eq!(encode(&packet, sender, target), vec![0x02, 0x05, 0x01]);
}
