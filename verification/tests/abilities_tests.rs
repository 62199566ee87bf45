use bedrockrs::level_dat::error::{FormatFault, WorldError};
use bedrockrs::level_dat::abilities::{AbilityKey, LevelDatAbilities, PermissionLevel};
use bedrockrs::nbt::{find, Float64, NbtValue, TagKind};
use bedrockrs::types::Float32;

fn entry(name: &str, value: NbtValue) -> (String, NbtValue) {
    (name.to_string(), value)
}

fn full_entries() -> Vec<(String, NbtValue)> {
    vec![
        entry("attackmobs", NbtValue::Byte(1)),
        entry("attackplayers", NbtValue::Byte(0)),
        entry("doorsandswitches", NbtValue::Byte(1)),
        entry("build", NbtValue::Byte(1)),
        entry("mine", NbtValue::Byte(-1)),
        entry("instabuild", NbtValue::Byte(0)),
        entry("flying", NbtValue::Byte(0)),
        entry("flySpeed", NbtValue::Float(Float32 { bits: 0.05f32.to_bits() })),
        entry("walkSpeed", NbtValue::Float(Float32 { bits: 0.1f32.to_bits() })),
        entry("invulnerable", NbtValue::Byte(0)),
        entry("lightning", NbtValue::Byte(0)),
        entry("mayfly", NbtValue::Byte(1)),
        entry("mute", NbtValue::Byte(0)),
        entry("noclip", NbtValue::Byte(1)),
        entry("opencontainers", NbtValue::Byte(1)),
        entry("worldbuilder", NbtValue::Byte(0)),
        entry("teleport", NbtValue::Byte(0)),
        entry("op", NbtValue::Byte(1)),
        entry("playerPermissionsLevel", NbtValue::Int(2)),
        entry("permissionsLevel", NbtValue::Int(0)),
    ]
}

fn without(name: &str) -> Vec<(String, NbtValue)> {
    full_entries().into_iter().filter(|(k, _)| k != name).collect()
}

fn with(name: &str, value: NbtValue) -> Vec<(String, NbtValue)> {
    let mut entries = without(name);
    entries.insert(0, entry(name, value));
    entries
}

fn fault(entries: Vec<(String, NbtValue)>) -> FormatFault {
    match LevelDatAbilities::parse(NbtValue::Compound(entries)) {
        Err(WorldError::FormatError(f)) => f,
        Ok(v) => panic!("unexpected success {:?}", v),
    }
}

#[test]
fn full_compound_is_read() {
    let abilities = LevelDatAbilities::parse(NbtValue::Compound(full_entries())).unwrap();
    assert_eq!(
        abilities,
        LevelDatAbilities {
            attack_mobs: true,
            attack_players: false,
            redstone_interact: true,
            build: true,
            mine: true,
            mine_instantly: false,
            flying: false,
            fly_speed: Float32 { bits: 0.05f32.to_bits() },
            walk_speed: Float32 { bits: 0.1f32.to_bits() },
            invulnerable: false,
            lightning: false,
            mayfly: true,
            mute: Some(false),
            no_clip: Some(true),
            open_containers: true,
            world_builder: Some(false),
            teleport: false,
            op: true,
            permissions_level: Some(PermissionLevel::Admin),
            permissions_level_default: Some(PermissionLevel::Default),
        }
    );
    assert_eq!(f32::from_bits(abilities.fly_speed.bits), 0.05);
}

#[test]
fn optional_entries_may_be_missing() {
    let mut entries = full_entries();
    entries.retain(|(k, _)| {
        !["mute", "noclip", "worldbuilder", "playerPermissionsLevel", "permissionsLevel"]
            .contains(&k.as_str())
    });
    let abilities = LevelDatAbilities::parse(NbtValue::Compound(entries)).unwrap();
    assert_eq!(abilities.mute, None);
    assert_eq!(abilities.no_clip, None);
    assert_eq!(abilities.world_builder, None);
    assert_eq!(abilities.permissions_level, None);
    assert_eq!(abilities.permissions_level_default, None);
}

#[test]
fn other_entries_are_passed_over() {
    let mut entries = full_entries();
    entries.insert(3, entry("somethingElse", NbtValue::List(vec![NbtValue::Long(1)])));
    assert!(LevelDatAbilities::parse(NbtValue::Compound(entries)).is_ok());
}

#[test]
fn permission_levels_by_number() {
    let levels = [
        PermissionLevel::Default,
        PermissionLevel::Operator,
        PermissionLevel::Admin,
        PermissionLevel::Host,
        PermissionLevel::Owner,
    ];
    for (i, level) in levels.iter().enumerate() {
        assert_eq!(PermissionLevel::from_level(i as i32), Some(*level));
        let entries = with("permissionsLevel", NbtValue::Int(i as i32));
        let abilities = LevelDatAbilities::parse(NbtValue::Compound(entries)).unwrap();
        assert_eq!(abilities.permissions_level_default, Some(*level));
        assert_eq!(abilities.permissions_level, Some(PermissionLevel::Admin));
    }
    assert_eq!(PermissionLevel::from_level(5), None);
    assert_eq!(PermissionLevel::from_level(-1), None);
}

#[test]
fn permission_level_out_of_bounds() {
    assert_eq!(
        fault(with("playerPermissionsLevel", NbtValue::Int(5))),
        FormatFault::PermissionOutOfBounds { key: AbilityKey::PlayerPermissionsLevel, value: 5 }
    );
    assert_eq!(
        fault(with("permissionsLevel", NbtValue::Int(-1))),
        FormatFault::PermissionOutOfBounds { key: AbilityKey::PermissionsLevel, value: -1 }
    );
}

#[test]
fn missing_mandatory_entry() {
    assert_eq!(fault(without("op")), FormatFault::MissingField { key: AbilityKey::Op });
    assert_eq!(
        fault(without("flySpeed")),
        FormatFault::MissingField { key: AbilityKey::FlySpeed }
    );
    assert_eq!(
        fault(Vec::new()),
        FormatFault::MissingField { key: AbilityKey::AttackMobs }
    );
}

#[test]
fn entry_of_another_kind() {
    assert_eq!(
        fault(with("build", NbtValue::Int(1))),
        FormatFault::WrongType {
            key: AbilityKey::Build,
            expected: TagKind::Byte,
            found: TagKind::Int
        }
    );
    assert_eq!(
        fault(with("walkSpeed", NbtValue::Double(Float64 { bits: 0 }))),
        FormatFault::WrongType {
            key: AbilityKey::WalkSpeed,
            expected: TagKind::Float,
            found: TagKind::Double
        }
    );
    assert_eq!(
        fault(with("mute", NbtValue::String("yes".to_string()))),
        FormatFault::WrongType {
            key: AbilityKey::Mute,
            expected: TagKind::Byte,
            found: TagKind::String
        }
    );
    assert_eq!(
        fault(with("permissionsLevel", NbtValue::Byte(1))),
        FormatFault::WrongType {
            key: AbilityKey::PermissionsLevel,
            expected: TagKind::Int,
            found: TagKind::Byte
        }
    );
}

#[test]
fn first_fault_in_reading_order_is_reported() {
    let mut entries = without("op");
    entries.retain(|(k, _)| k != "mine");
    entries.push(entry("flying", NbtValue::Short(1)));
    // `mine` is read before `flying` and `op`.
    assert_eq!(fault(entries), FormatFault::MissingField { key: AbilityKey::Mine });
    let mut entries = without("op");
    entries.push(entry("flying", NbtValue::Short(1)));
    // The first entry named `flying` is the byte, so `op` is the next fault.
    assert_eq!(fault(entries), FormatFault::MissingField { key: AbilityKey::Op });
}

#[test]
fn root_of_another_kind() {
    assert_eq!(
        LevelDatAbilities::parse(NbtValue::Int(3)),
        Err(WorldError::FormatError(FormatFault::RootNotCompound { found: TagKind::Int }))
    );
    assert_eq!(
        LevelDatAbilities::parse(NbtValue::List(Vec::new())),
        Err(WorldError::FormatError(FormatFault::RootNotCompound { found: TagKind::List }))
    );
}

#[test]
fn first_entry_of_a_name_counts() {
    let entries = vec![
        entry("a", NbtValue::Byte(1)),
        entry("b", NbtValue::Byte(2)),
        entry("a", NbtValue::Byte(3)),
    ];
    assert_eq!(find(&entries, "a"), Some(&NbtValue::Byte(1)));
    assert_eq!(find(&entries, "b"), Some(&NbtValue::Byte(2)));
    assert_eq!(find(&entries, "c"), None);
    assert_eq!(find(&entries, "A"), None);
}

#[test]
fn tag_kinds() {
    assert_eq!(NbtValue::Byte(0).tag_kind(), TagKind::Byte);
    assert_eq!(NbtValue::Short(0).tag_kind(), TagKind::Short);
    assert_eq!(NbtValue::Long(0).tag_kind(), TagKind::Long);
    assert_eq!(NbtValue::ByteArray(vec![]).tag_kind(), TagKind::ByteArray);
    assert_eq!(NbtValue::Compound(vec![]).tag_kind(), TagKind::Compound);
    assert_eq!(NbtValue::IntArray(vec![]).tag_kind(), TagKind::IntArray);
    assert_eq!(NbtValue::LongArray(vec![]).tag_kind(), TagKind::LongArray);
}

#[test]
fn ability_key_names() {
    assert_eq!(AbilityKey::DoorsAndSwitches.as_str(), "doorsandswitches");
    assert_eq!(AbilityKey::InstaBuild.as_str(), "instabuild");
    assert_eq!(AbilityKey::PlayerPermissionsLevel.as_str(), "playerPermissionsLevel");
    assert_eq!(AbilityKey::PermissionsLevel.as_str(), "permissionsLevel");
}
