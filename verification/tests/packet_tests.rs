use bedrockrs::error::CodecError;
use bedrockrs::gamepacket::{known_id, GamePacket};
use bedrockrs::header::{pack_header, unpack_header};
use bedrockrs::packets::add_painting_packet::AddPaintingPacket;
use bedrockrs::packets::camera_packet::CameraPacket;
use bedrockrs::packets::chunk_radius_updated::ChunkRadiusUpdatedPacket;
use bedrockrs::packets::client_cache_status::ClientCacheStatusPacket;
use bedrockrs::packets::container_open_packet::ContainerOpenPacket;
use bedrockrs::packets::login::LoginPacket;
use bedrockrs::packets::modal_form_request::ModalFormRequestPacket;
use bedrockrs::packets::network_settings::NetworkSettingsPacket;
use bedrockrs::packets::network_settings_request::NetworkSettingsRequestPacket;
use bedrockrs::packets::play_status::{PlayStatusPacket, PlayStatusType};
use bedrockrs::packets::remove_actor_packet::RemoveEntityPacket;
use bedrockrs::packets::server_settings_request::ServerSettingsRequestPacket;
use bedrockrs::packets::server_settings_response::ServerSettingsResponsePacket;
use bedrockrs::packets::set_local_player_as_initialized::SetLocalPlayerAsInitializedPacket;
use bedrockrs::packets::set_time_packet::SetTimePacket;
use bedrockrs::packets::text_message::TextMessageType;
use bedrockrs::packets::toast_request_packet::ToastRequestPacket;
use bedrockrs::reader::ByteReader;
use bedrockrs::types::{
    ActorRuntimeID, ActorUniqueID, ContainerID, ContainerType, Float32, NetworkBlockPos, Vec3,
};

fn frame(packet: &GamePacket) -> Vec<u8> {
    let mut out: Vec<u8> = Vec::new();
    assert_eq!(packet.pk_serialize(&mut out), Ok(()));
    out
}

fn check_round_trip(packet: GamePacket, id: u16, body: &[u8]) {
    assert_eq!(packet.packet_id(), id);
    let bytes = frame(&packet);
    let mut header: Vec<u8> = Vec::new();
    bedrockrs::varint::write_uvar(&mut header, id as u64);
    let mut expected: Vec<u8> = Vec::new();
    bedrockrs::varint::write_uvar(&mut expected, (header.len() + body.len()) as u64);
    expected.extend(&header);
    expected.extend(body);
    assert_eq!(bytes, expected);
    let mut reader = ByteReader::new(&bytes);
    assert_eq!(GamePacket::pk_deserialize(&mut reader), Ok((packet, 0, 0)));
    assert_eq!(reader.remaining_len(), 0);
}

#[test]
fn login_round_trip() {
    let packet = GamePacket::Login(LoginPacket {
        client_network_version: 0x0000_02AE,
        connection_request: vec![0xDE, 0xAD],
    });
    check_round_trip(packet, 1, &[0x00, 0x00, 0x02, 0xAE, 0x02, 0xDE, 0xAD]);
}

#[test]
fn play_status_round_trip() {
    let packet = GamePacket::PlayStatus(PlayStatusPacket { status: PlayStatusType::PlayerSpawn });
    check_round_trip(packet, 2, &[0x00, 0x00, 0x00, 0x03]);
}

#[test]
fn play_status_codes() {
    let all = [
        PlayStatusType::LoginSuccess,
        PlayStatusType::FailedClientOld,
        PlayStatusType::FailedServerOld,
        PlayStatusType::PlayerSpawn,
        PlayStatusType::FailedInvalidTenant,
        PlayStatusType::FailedEditionMismatchEduToVanilla,
        PlayStatusType::FailedEditionMismatchVanillaToEdu,
        PlayStatusType::FailedServerFullSubClient,
        PlayStatusType::FailedEditorMismatchEditorToVanilla,
        PlayStatusType::FailedEditorMismatchVanillaToEditor,
    ];
    for (i, status) in all.iter().enumerate() {
        assert_eq!(status.to_code(), i as i32);
        assert_eq!(PlayStatusType::from_code(i as i32), Some(*status));
    }
    assert_eq!(PlayStatusType::from_code(10), None);
    assert_eq!(PlayStatusType::from_code(-1), None);
}

#[test]
fn play_status_out_of_range() {
    let mut reader = ByteReader::new(&[0x05, 0x02, 0x00, 0x00, 0x00, 0x0A]);
    assert_eq!(GamePacket::pk_deserialize(&mut reader), Err(CodecError::OutOfRange));
    assert_eq!(reader.position(), 6);
    let mut reader = ByteReader::new(&[0x05, 0x02, 0xFF, 0xFF, 0xFF, 0xFF]);
    assert_eq!(GamePacket::pk_deserialize(&mut reader), Err(CodecError::OutOfRange));
}

#[test]
fn set_time_round_trip() {
    check_round_trip(GamePacket::SetTime(SetTimePacket { time: -3 }), 10, &[0x05]);
    check_round_trip(GamePacket::SetTime(SetTimePacket { time: 6000 }), 10, &[0xE0, 0x5D]);
}

#[test]
fn remove_entity_round_trip() {
    let packet = GamePacket::RemoveEntity(RemoveEntityPacket { actor_unique_id: ActorUniqueID(-2) });
    check_round_trip(packet, 14, &[0x03]);
}

#[test]
fn add_painting_round_trip() {
    let packet = GamePacket::AddPainting(AddPaintingPacket {
        target_actor_id: ActorUniqueID(-1),
        target_runtime_id: ActorRuntimeID(300),
        position: Vec3 {
            x: Float32 { bits: 1.0f32.to_bits() },
            y: Float32 { bits: (-2.5f32).to_bits() },
            z: Float32 { bits: 0.0f32.to_bits() },
        },
        direction: 2,
        motif: "Kebab".to_string(),
    });
    check_round_trip(
        packet,
        22,
        &[
            0x01, 0xAC, 0x02, 0x00, 0x00, 0x80, 0x3F, 0x00, 0x00, 0x20, 0xC0, 0x00, 0x00, 0x00,
            0x00, 0x04, 0x05, b'K', b'e', b'b', b'a', b'b',
        ],
    );
}

#[test]
fn container_open_round_trip() {
    let packet = GamePacket::ContainerOpen(ContainerOpenPacket {
        container_id: ContainerID(-1),
        container_type: ContainerType(2),
        position: NetworkBlockPos { x: -1, y: 64, z: 1 },
        target_actor_id: ActorUniqueID(1),
    });
    check_round_trip(packet, 46, &[0xFF, 0x02, 0x01, 0x40, 0x02, 0x02]);
}

#[test]
fn chunk_radius_updated_round_trip() {
    let packet = GamePacket::ChunkRadiusUpdate(ChunkRadiusUpdatedPacket { chunk_radius: 8 });
    check_round_trip(packet, 70, &[0x10]);
}

#[test]
fn camera_round_trip() {
    let packet = GamePacket::Camera(CameraPacket {
        camera_id: ActorUniqueID(5),
        target_player_id: ActorUniqueID(-5),
    });
    check_round_trip(packet, 73, &[0x0A, 0x09]);
}

#[test]
fn modal_form_request_round_trip() {
    let packet = GamePacket::ModalFormRequest(ModalFormRequestPacket {
        form_id: 200,
        form_json: "{}".to_string(),
    });
    check_round_trip(packet, 100, &[0xC8, 0x01, 0x02, b'{', b'}']);
}

#[test]
fn server_settings_round_trip() {
    check_round_trip(
        GamePacket::ServerSettingsRequest(ServerSettingsRequestPacket {}),
        102,
        &[],
    );
    let packet = GamePacket::ServerSettingsResponse(ServerSettingsResponsePacket {
        form_id: 1,
        form_json: "[]".to_string(),
    });
    check_round_trip(packet, 103, &[0x01, 0x02, b'[', b']']);
}

#[test]
fn set_local_player_as_initialized_round_trip() {
    let packet = GamePacket::SetLocalPlayerAsInitialized(SetLocalPlayerAsInitializedPacket {
        target_actor_id: ActorRuntimeID(u64::MAX),
    });
    check_round_trip(
        packet,
        113,
        &[0xFF, 0xFF, 0xFF, 0xFF, 0xFF, 0xFF, 0xFF, 0xFF, 0xFF, 0x01],
    );
}

#[test]
fn client_cache_status_round_trip() {
    let packet = GamePacket::ClientCacheStatus(ClientCacheStatusPacket { cache_supported: true });
    check_round_trip(packet, 129, &[0x01]);
}

#[test]
fn network_settings_round_trip_with_values() {
    let packet = GamePacket::NetworkSettings(NetworkSettingsPacket {
        compression_threshold: 0x0102,
        compression_algorithm: 1,
        client_throttle_enabled: true,
        client_throttle_threshold: 7,
        client_throttle_scalar: Float32 { bits: 0.5f32.to_bits() },
    });
    check_round_trip(packet, 143, &[0x02, 0x01, 0x01, 0x01, 0x07, 0x00, 0x00, 0x00, 0x3F]);
}

#[test]
fn toast_request_round_trip() {
    let packet = GamePacket::ToastRequestPacket(ToastRequestPacket {
        title: "T".to_string(),
        content: "".to_string(),
    });
    check_round_trip(packet, 186, &[0x01, b'T', 0x00]);
}

#[test]
fn request_network_settings_round_trip() {
    let packet = GamePacket::RequestNetworkSettings(NetworkSettingsRequestPacket {
        client_network_version: -2,
    });
    check_round_trip(packet, 193, &[0xFF, 0xFF, 0xFF, 0xFE]);
}

#[test]
fn record_codecs_work_without_a_frame() {
    let packet = ToastRequestPacket { title: "a".to_string(), content: "b".to_string() };
    assert!(packet.fits_wire());
    let mut out: Vec<u8> = vec![0x55];
    assert_eq!(packet.proto_serialize(&mut out), Ok(()));
    assert_eq!(out, vec![0x55, 0x01, b'a', 0x01, b'b']);
    let mut reader = ByteReader::new(&out[1..]);
    assert_eq!(ToastRequestPacket::proto_deserialize(&mut reader), Ok(packet));
    let pos = NetworkBlockPos { x: i32::MIN, y: u32::MAX, z: i32::MAX };
    let mut out: Vec<u8> = Vec::new();
    pos.proto_serialize(&mut out);
    assert_eq!(
        out,
        vec![
            0xFF, 0xFF, 0xFF, 0xFF, 0x0F, 0xFF, 0xFF, 0xFF, 0xFF, 0x0F, 0xFE, 0xFF, 0xFF, 0xFF,
            0x0F
        ]
    );
    let mut reader = ByteReader::new(&out);
    assert_eq!(NetworkBlockPos::proto_deserialize(&mut reader), Ok(pos));
}

#[test]
fn text_message_tags() {
    let all = [
        (TextMessageType::Raw, 0u8, false),
        (TextMessageType::Chat, 1, true),
        (TextMessageType::Tip, 5, false),
        (TextMessageType::SystemMessage, 6, false),
        (TextMessageType::Whisper, 7, true),
        (TextMessageType::Announcement, 8, true),
    ];
    for (kind, tag, named) in all {
        assert_eq!(kind.to_tag(), tag);
        assert_eq!(TextMessageType::from_tag(tag), Some(kind));
        assert_eq!(kind.names_source(), named);
    }
    for tag in [2u8, 3, 4, 9, 255] {
        assert_eq!(TextMessageType::from_tag(tag), None);
    }
}

#[test]
fn identifier_table() {
    assert_eq!(GamePacket::Login(LoginPacket { client_network_version: 0, connection_request: vec![] }).packet_id(), 1);
    assert_eq!(GamePacket::PlayerAction().packet_id(), 36);
    assert_eq!(GamePacket::HurtArmor().packet_id(), 38);
    assert_eq!(GamePacket::NetworkStackLatency().packet_id(), 115);
    assert_eq!(GamePacket::ScriptCustomEvent().packet_id(), 117);
    assert_eq!(GamePacket::VideoStreamConnect().packet_id(), 126);
    assert_eq!(GamePacket::ClientCacheMissResponse().packet_id(), 136);
    assert_eq!(GamePacket::PlayerAuthInput().packet_id(), 144);
    assert_eq!(GamePacket::ItemStackResponse().packet_id(), 148);
    assert_eq!(GamePacket::EmoteList().packet_id(), 152);
    assert_eq!(GamePacket::PacketViolationWarning().packet_id(), 156);
    assert_eq!(GamePacket::FilterTextPacket().packet_id(), 163);
    assert_eq!(GamePacket::UpdateSubChunkBlocksPacket().packet_id(), 172);
    assert_eq!(GamePacket::SubChunkRequestPacket().packet_id(), 175);
    assert_eq!(GamePacket::DimensionData().packet_id(), 180);
    assert_eq!(GamePacket::AlexEntityAnimation().packet_id(), 224);
    let known: Vec<u16> = (0..1024u16).filter(|id| known_id(*id)).collect();
    assert_eq!(known.len(), 152);
    assert_eq!(GamePacket::GameRulesChanged(bedrockrs::packets::game_rules_changed::GameRulesChangedPacket { rules: Vec::new() }).packet_id(), 72);
    for id in [0u16, 37, 116, 127, 128, 137, 142, 149, 150, 153, 154, 157, 160, 164, 171, 173, 176, 179, 181, 185, 187, 192, 194, 223, 225, 999, 1023] {
        assert!(!known_id(id), "{}", id);
    }
}

#[test]
fn header_packing() {
    assert_eq!(pack_header(1, 1, 2), Some(0x2401));
    assert_eq!(pack_header(1023, 3, 3), Some(0x3FFF));
    assert_eq!(pack_header(0, 0, 0), Some(0));
    assert_eq!(pack_header(1024, 0, 0), None);
    assert_eq!(pack_header(1, 4, 0), None);
    assert_eq!(pack_header(1, 0, 4), None);
    assert_eq!(unpack_header(0x2401), Some((1, 1, 2)));
    assert_eq!(unpack_header(0x3FFF), Some((1023, 3, 3)));
    assert_eq!(unpack_header(0x0C00), Some((0, 3, 0)));
    assert_eq!(unpack_header(0x3000), Some((0, 0, 3)));
    assert_eq!(unpack_header(0x4000), None);
    for h in 0..0x4000u32 {
        let (id, sender, target) = unpack_header(h).unwrap();
        assert_eq!(pack_header(id, sender, target), Some(h));
        assert_eq!(h, ((target as u32) << 12) | ((sender as u32) << 10) | id as u32);
    }
}
