use bedrockrs::error::{CodecError, UnionKind};
use bedrockrs::gamepacket::GamePacket;
use bedrockrs::packets::game_rules_changed::GameRulesChangedPacket;
use bedrockrs::packets::modal_form_response::{ModalFormCancelReason, ModalFormResponsePacket};
use bedrockrs::reader::ByteReader;
use bedrockrs::types::gamerule::{
    read_rules, rules_fit_wire, write_rules, GameRule, GameRuleValue,
};
use bedrockrs::types::pack_info_resource::ResourcePackInfo;
use bedrockrs::types::resource_packs_stack_pack::ResourcePacksStackPack;
use bedrockrs::types::{ActorRuntimeID, ActorUniqueID, ContainerID, Float32, Vec3};

fn rule(name: &str, editable: bool, value: GameRuleValue) -> GameRule {
    GameRule { name: name.to_string(), editable, value }
}

fn sample_rules() -> Vec<GameRule> {
    vec![
        rule("pvp", true, GameRuleValue::Bool(true)),
        rule("n", false, GameRuleValue::Int(-3)),
        rule("f", true, GameRuleValue::Float(Float32 { bits: 1.5f32.to_bits() })),
    ]
}

fn sample_bytes() -> Vec<u8> {
    vec![
        0x03, // three rules
        0x03, b'p', b'v', b'p', 0x01, 0x01, 0x01, // "pvp", editable, boolean true
        0x01, b'n', 0x00, 0x02, 0x05, // "n", fixed, integer -3
        0x01, b'f', 0x01, 0x03, 0x00, 0x00, 0xC0, 0x3F, // "f", editable, number 1.5
    ]
}

#[test]
fn game_rules_exact_bytes() {
    let rules = sample_rules();
    assert!(rules_fit_wire(&rules));
    let mut out: Vec<u8> = Vec::new();
    assert_eq!(write_rules(&mut out, &rules), Ok(()));
    assert_eq!(out, sample_bytes());
    let mut reader = ByteReader::new(&out);
    assert_eq!(read_rules(&mut reader), Ok(rules));
    assert_eq!(reader.remaining_len(), 0);
}

#[test]
fn empty_game_rules_are_one_zero_byte() {
    let mut out: Vec<u8> = Vec::new();
    assert_eq!(write_rules(&mut out, &Vec::new()), Ok(()));
    assert_eq!(out, vec![0x00]);
    let mut reader = ByteReader::new(&[0x00, 0x55]);
    assert_eq!(read_rules(&mut reader), Ok(Vec::new()));
    assert_eq!(reader.remaining_len(), 1);
}

#[test]
fn game_rule_value_unknown_tag() {
    let mut reader = ByteReader::new(&[0x01, 0x01, b'x', 0x00, 0x04, 0x00]);
    assert_eq!(
        read_rules(&mut reader),
        Err(CodecError::UnknownVariant { union: UnionKind::GameRuleValue, tag: 4 })
    );
    let mut reader = ByteReader::new(&[0x00]);
    assert_eq!(
        GameRuleValue::proto_deserialize(&mut reader),
        Err(CodecError::UnknownVariant { union: UnionKind::GameRuleValue, tag: 0 })
    );
}

#[test]
fn game_rules_count_without_rules_is_truncated() {
    let mut reader = ByteReader::new(&[0xFF, 0xFF, 0xFF, 0xFF, 0x0F]);
    assert_eq!(read_rules(&mut reader), Err(CodecError::Truncated));
    let bytes = sample_bytes();
    for k in 0..bytes.len() {
        let mut reader = ByteReader::new(&bytes[..k]);
        assert_eq!(read_rules(&mut reader), Err(CodecError::Truncated), "cut at {}", k);
    }
}

#[test]
fn game_rule_values_alone() {
    for (value, bytes) in [
        (GameRuleValue::Bool(false), vec![0x01u8, 0x00]),
        (GameRuleValue::Int(i32::MIN), vec![0x02, 0xFF, 0xFF, 0xFF, 0xFF, 0x0F]),
        (GameRuleValue::Float(Float32 { bits: 0x8000_0000 }), vec![0x03, 0x00, 0x00, 0x00, 0x80]),
    ] {
        let mut out: Vec<u8> = Vec::new();
        value.proto_serialize(&mut out);
        assert_eq!(out, bytes);
        let mut reader = ByteReader::new(&out);
        assert_eq!(GameRuleValue::proto_deserialize(&mut reader), Ok(value));
    }
}

#[test]
fn game_rules_changed_frame() {
    let packet = GamePacket::GameRulesChanged(GameRulesChangedPacket { rules: sample_rules() });
    assert_eq!(packet.packet_id(), 72);
    let mut out: Vec<u8> = Vec::new();
    assert_eq!(packet.pk_serialize(&mut out), Ok(()));
    let mut expected: Vec<u8> = vec![0x16, 0x48];
    expected.extend(sample_bytes());
    assert_eq!(out, expected);
    let mut reader = ByteReader::new(&out);
    assert_eq!(GamePacket::pk_deserialize(&mut reader), Ok((packet, 0, 0)));
}

fn stack_pack() -> ResourcePacksStackPack {
    ResourcePacksStackPack {
        id: "ab".to_string(),
        version: "1.0".to_string(),
        size: 0x0102,
        content_key: String::new(),
        sub_pack_name: "s".to_string(),
        content_identity: String::new(),
        has_scripts: true,
    }
}

fn stack_pack_bytes() -> Vec<u8> {
    vec![
        0x02, b'a', b'b', 0x03, b'1', b'.', b'0', 0x02, 0x01, 0, 0, 0, 0, 0, 0, 0x00, 0x01, b's',
        0x00, 0x01,
    ]
}

#[test]
fn resource_pack_descriptions_exact_bytes() {
    let pack = stack_pack();
    let mut out: Vec<u8> = Vec::new();
    assert_eq!(pack.proto_serialize(&mut out), Ok(()));
    assert_eq!(out, stack_pack_bytes());
    let mut reader = ByteReader::new(&out);
    assert_eq!(ResourcePacksStackPack::proto_deserialize(&mut reader), Ok(pack));

    let info = ResourcePackInfo {
        id: "ab".to_string(),
        version: "1.0".to_string(),
        size: 0x0102,
        content_key: String::new(),
        sub_pack_name: "s".to_string(),
        content_identity: String::new(),
        has_scripts: true,
        raytracing_capable: false,
    };
    let mut out: Vec<u8> = Vec::new();
    assert_eq!(info.proto_serialize(&mut out), Ok(()));
    let mut expected = stack_pack_bytes();
    expected.push(0x00);
    assert_eq!(out, expected);
    let mut reader = ByteReader::new(&out);
    assert_eq!(ResourcePackInfo::proto_deserialize(&mut reader), Ok(info));
}

#[test]
fn resource_pack_description_errors() {
    let bytes = stack_pack_bytes();
    for k in 0..bytes.len() {
        let mut reader = ByteReader::new(&bytes[..k]);
        assert_eq!(
            ResourcePacksStackPack::proto_deserialize(&mut reader),
            Err(CodecError::Truncated)
        );
    }
    let mut bad = stack_pack_bytes();
    bad[1] = 0xFF;
    let mut reader = ByteReader::new(&bad);
    assert_eq!(
        ResourcePacksStackPack::proto_deserialize(&mut reader),
        Err(CodecError::InvalidUtf8)
    );
}

#[test]
fn shared_value_types_exact_bytes() {
    let mut out: Vec<u8> = Vec::new();
    ActorUniqueID(-1).proto_serialize(&mut out);
    ActorRuntimeID(128).proto_serialize(&mut out);
    ContainerID(-128).proto_serialize(&mut out);
    Vec3 {
        x: Float32 { bits: 1 },
        y: Float32 { bits: 0x0100 },
        z: Float32 { bits: 0xFF00_0000 },
    }
    .proto_serialize(&mut out);
    assert_eq!(
        out,
        vec![0x01, 0x80, 0x01, 0x80, 1, 0, 0, 0, 0, 1, 0, 0, 0, 0, 0, 0xFF]
    );
    let mut reader = ByteReader::new(&out);
    assert_eq!(ActorUniqueID::proto_deserialize(&mut reader), Ok(ActorUniqueID(-1)));
    assert_eq!(ActorRuntimeID::proto_deserialize(&mut reader), Ok(ActorRuntimeID(128)));
    assert_eq!(ContainerID::proto_deserialize(&mut reader), Ok(ContainerID(-128)));
    assert_eq!(
        Vec3::proto_deserialize(&mut reader).map(|v| (v.x.bits, v.y.bits, v.z.bits)),
        Ok((1, 0x0100, 0xFF00_0000))
    );
}

#[test]
fn modal_form_response_optional_fields() {
    let answered = ModalFormResponsePacket {
        form_id: 7,
        form_response: Some("1".to_string()),
        cancel_reason: None,
    };
    let mut out: Vec<u8> = Vec::new();
    assert_eq!(answered.proto_serialize(&mut out), Ok(()));
    assert_eq!(out, vec![0x07, 0x01, 0x01, b'1', 0x00]);
    let mut reader = ByteReader::new(&out);
    assert_eq!(ModalFormResponsePacket::proto_deserialize(&mut reader), Ok(answered));

    let cancelled = GamePacket::ModalFormResponse(ModalFormResponsePacket {
        form_id: 300,
        form_response: None,
        cancel_reason: Some(ModalFormCancelReason::UserBusy),
    });
    let mut out: Vec<u8> = Vec::new();
    assert_eq!(cancelled.pk_serialize(&mut out), Ok(()));
    assert_eq!(out, vec![0x06, 0x65, 0xAC, 0x02, 0x00, 0x01, 0x01]);
    let mut reader = ByteReader::new(&out);
    assert_eq!(GamePacket::pk_deserialize(&mut reader), Ok((cancelled, 0, 0)));

    let mut reader = ByteReader::new(&[0x05, 0x65, 0x01, 0x00, 0x01, 0x02]);
    assert_eq!(GamePacket::pk_deserialize(&mut reader), Err(CodecError::OutOfRange));
    assert_eq!(ModalFormCancelReason::from_code(0), Some(ModalFormCancelReason::UserClosed));
    assert_eq!(ModalFormCancelReason::UserClosed.to_code(), 0);
    assert_eq!(ModalFormCancelReason::from_code(2), None);
}
