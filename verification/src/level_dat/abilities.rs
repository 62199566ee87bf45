//! The `abilities` compound of the level data: what players are allowed to
//! do in the world unless something grants or denies it to them.

use vstd::prelude::*;
use crate::level_dat::error::{FormatFault, WorldError};
use crate::nbt::{find, lookup, NbtValue, TagKind};
use crate::types::Float32;

verus! {

/// What a player is trusted with.
#[derive(Debug, Clone, Copy, PartialEq, Eq)]
pub enum PermissionLevel {
    Default,
    Operator,
    Admin,
    Host,
    Owner,
}

impl PermissionLevel {
    /// The permission level that the number `level` stands for, if any: the
    /// levels are numbered from zero in the order of their declaration.
    pub open spec fn of_level(level: int) -> Option<PermissionLevel> {
        if level == 0 {
            Some(PermissionLevel::Default)
        } else if level == 1 {
            Some(PermissionLevel::Operator)
        } else if level == 2 {
            Some(PermissionLevel::Admin)
        } else if level == 3 {
            Some(PermissionLevel::Host)
        } else if level == 4 {
            Some(PermissionLevel::Owner)
        } else {
            None
        }
    }

    /// The permission level that the number `level` stands for, if any.
    pub fn from_level(level: i32) -> (res: Option<PermissionLevel>)
        ensures
            res == PermissionLevel::of_level(level as int),
    {
        match level {
            0 => Some(PermissionLevel::Default),
            1 => Some(PermissionLevel::Operator),
            2 => Some(PermissionLevel::Admin),
            3 => Some(PermissionLevel::Host),
            4 => Some(PermissionLevel::Owner),
            _ => None,
        }
    }
}

/// The entries of the abilities compound, in the order they are read.
#[derive(Debug, Clone, Copy, PartialEq, Eq)]
pub enum AbilityKey {
    AttackMobs,
    AttackPlayers,
    DoorsAndSwitches,
    Build,
    Mine,
    InstaBuild,
    Flying,
    FlySpeed,
    WalkSpeed,
    Invulnerable,
    Lightning,
    MayFly,
    Mute,
    NoClip,
    OpenContainers,
    WorldBuilder,
    Teleport,
    Op,
    PlayerPermissionsLevel,
    PermissionsLevel,
}

/// What an entry of the abilities compound has to be.
#[derive(Debug, Clone, Copy, PartialEq, Eq)]
pub enum AbilityShape {
    /// A byte that must be there: zero for no, anything else for yes.
    Flag,
    /// A byte that may be missing.
    OptionalFlag,
    /// A single-precision number that must be there.
    Number,
    /// An integer that may be missing and that stands for a permission
    /// level where it is there.
    OptionalPermission,
}

impl AbilityKey {
    /// The name of the entry in the compound.
    pub open spec fn name(self) -> Seq<char> {
        match self {
            AbilityKey::AttackMobs => "attackmobs"@,
            AbilityKey::AttackPlayers => "attackplayers"@,
            AbilityKey::DoorsAndSwitches => "doorsandswitches"@,
            AbilityKey::Build => "build"@,
            AbilityKey::Mine => "mine"@,
            AbilityKey::InstaBuild => "instabuild"@,
            AbilityKey::Flying => "flying"@,
            AbilityKey::FlySpeed => "flySpeed"@,
            AbilityKey::WalkSpeed => "walkSpeed"@,
            AbilityKey::Invulnerable => "invulnerable"@,
            AbilityKey::Lightning => "lightning"@,
            AbilityKey::MayFly => "mayfly"@,
            AbilityKey::Mute => "mute"@,
            AbilityKey::NoClip => "noclip"@,
            AbilityKey::OpenContainers => "opencontainers"@,
            AbilityKey::WorldBuilder => "worldbuilder"@,
            AbilityKey::Teleport => "teleport"@,
            AbilityKey::Op => "op"@,
            AbilityKey::PlayerPermissionsLevel => "playerPermissionsLevel"@,
            AbilityKey::PermissionsLevel => "permissionsLevel"@,
        }
    }

    /// What the entry has to be.
    pub open spec fn shape(self) -> AbilityShape {
        match self {
            AbilityKey::FlySpeed | AbilityKey::WalkSpeed => AbilityShape::Number,
            AbilityKey::Mute | AbilityKey::NoClip | AbilityKey::WorldBuilder => {
                AbilityShape::OptionalFlag
            },
            AbilityKey::PlayerPermissionsLevel | AbilityKey::PermissionsLevel => {
                AbilityShape::OptionalPermission
            },
            _ => AbilityShape::Flag,
        }
    }

    /// The name of the entry in the compound.
    pub fn as_str(self) -> (name: &'static str)
        ensures
            name@ == self.name(),
    {
        match self {
            AbilityKey::AttackMobs => "attackmobs",
            AbilityKey::AttackPlayers => "attackplayers",
            AbilityKey::DoorsAndSwitches => "doorsandswitches",
            AbilityKey::Build => "build",
            AbilityKey::Mine => "mine",
            AbilityKey::InstaBuild => "instabuild",
            AbilityKey::Flying => "flying",
            AbilityKey::FlySpeed => "flySpeed",
            AbilityKey::WalkSpeed => "walkSpeed",
            AbilityKey::Invulnerable => "invulnerable",
            AbilityKey::Lightning => "lightning",
            AbilityKey::MayFly => "mayfly",
            AbilityKey::Mute => "mute",
            AbilityKey::NoClip => "noclip",
            AbilityKey::OpenContainers => "opencontainers",
            AbilityKey::WorldBuilder => "worldbuilder",
            AbilityKey::Teleport => "teleport",
            AbilityKey::Op => "op",
            AbilityKey::PlayerPermissionsLevel => "playerPermissionsLevel",
            AbilityKey::PermissionsLevel => "permissionsLevel",
        }
    }
}

/// The order in which the entries are read. Where several entries are at
/// fault, the first of them in this order is reported.
pub open spec fn reading_order() -> Seq<AbilityKey> {
    seq![
        AbilityKey::AttackMobs,
        AbilityKey::AttackPlayers,
        AbilityKey::DoorsAndSwitches,
        AbilityKey::Build,
        AbilityKey::Mine,
        AbilityKey::InstaBuild,
        AbilityKey::Flying,
        AbilityKey::FlySpeed,
        AbilityKey::WalkSpeed,
        AbilityKey::Invulnerable,
        AbilityKey::Lightning,
        AbilityKey::MayFly,
        AbilityKey::Mute,
        AbilityKey::NoClip,
        AbilityKey::OpenContainers,
        AbilityKey::WorldBuilder,
        AbilityKey::Teleport,
        AbilityKey::Op,
        AbilityKey::PlayerPermissionsLevel,
        AbilityKey::PermissionsLevel,
    ]
}

/// What is wrong with the entry `key` of a compound, if anything: a
/// mandatory entry is missing, an entry is of another kind than its shape
/// asks for, or an integer stands for no permission level.
pub open spec fn fault(entries: Seq<(String, NbtValue)>, key: AbilityKey) -> Option<FormatFault> {
    match lookup(entries, key.name()) {
        None => match key.shape() {
            AbilityShape::Flag | AbilityShape::Number => Some(FormatFault::MissingField { key }),
            AbilityShape::OptionalFlag | AbilityShape::OptionalPermission => None,
        },
        Some(value) => match key.shape() {
            AbilityShape::Flag | AbilityShape::OptionalFlag => if value is Byte {
                None
            } else {
                Some(FormatFault::WrongType { key, expected: TagKind::Byte, found: value.kind() })
            },
            AbilityShape::Number => if value is Float {
                None
            } else {
                Some(FormatFault::WrongType { key, expected: TagKind::Float, found: value.kind() })
            },
            AbilityShape::OptionalPermission => match value {
                NbtValue::Int(level) => if PermissionLevel::of_level(level as int) is Some {
                    None
                } else {
                    Some(FormatFault::PermissionOutOfBounds { key, value: level })
                },
                _ => Some(
                    FormatFault::WrongType { key, expected: TagKind::Int, found: value.kind() },
                ),
            },
        },
    }
}

/// The fault of the first key of `keys` whose entry has one.
pub open spec fn first_fault(entries: Seq<(String, NbtValue)>, keys: Seq<AbilityKey>) -> Option<
    FormatFault,
>
    decreases keys.len(),
{
    if keys.len() == 0 {
        None
    } else if fault(entries, keys[0]) is Some {
        fault(entries, keys[0])
    } else {
        first_fault(entries, keys.skip(1))
    }
}

/// Whether the entry `key` is there and says yes: a byte other than zero.
pub open spec fn flag(entries: Seq<(String, NbtValue)>, key: AbilityKey) -> bool {
    lookup(entries, key.name()) matches Some(NbtValue::Byte(v)) && v != 0
}

/// What the entry `key` says, if it is there and a byte.
pub open spec fn optional_flag(entries: Seq<(String, NbtValue)>, key: AbilityKey) -> Option<bool> {
    match lookup(entries, key.name()) {
        Some(NbtValue::Byte(v)) => Some(v != 0),
        _ => None,
    }
}

/// The number in the entry `key`; zero where there is no such number.
pub open spec fn number(entries: Seq<(String, NbtValue)>, key: AbilityKey) -> Float32 {
    match lookup(entries, key.name()) {
        Some(NbtValue::Float(v)) => v,
        _ => Float32 { bits: 0 },
    }
}

/// The permission level in the entry `key`, if it is there and stands for
/// one.
pub open spec fn optional_permission(
    entries: Seq<(String, NbtValue)>,
    key: AbilityKey,
) -> Option<PermissionLevel> {
    match lookup(entries, key.name()) {
        Some(NbtValue::Int(level)) => PermissionLevel::of_level(level as int),
        _ => None,
    }
}

/// The default abilities of the players of a world.
#[derive(Debug, Clone, Copy, PartialEq, Eq)]
pub struct LevelDatAbilities {
    /// If the player can attack mobs. (Entry `attackmobs`)
    pub attack_mobs: bool,
    /// If the player can attack other players. (Entry `attackplayers`)
    pub attack_players: bool,
    /// If the player is able to interact with redstone components. (Entry
    /// `doorsandswitches`)
    pub redstone_interact: bool,
    /// If the player can place blocks. (Entry `build`)
    pub build: bool,
    /// If the player can destroy blocks. (Entry `mine`)
    pub mine: bool,
    /// If the player can instantly destroy blocks. (Entry `instabuild`)
    pub mine_instantly: bool,
    /// If the player is currently flying. (Entry `flying`)
    pub flying: bool,
    /// The flying speed. (Entry `flySpeed`)
    pub fly_speed: Float32,
    /// The walking speed. (Entry `walkSpeed`)
    pub walk_speed: Float32,
    /// If the player is immune to all damage and harmful effects. (Entry
    /// `invulnerable`)
    pub invulnerable: bool,
    /// If lightning struck the player. (Entry `lightning`)
    pub lightning: bool,
    /// If the player can fly. (Entry `mayfly`)
    pub mayfly: bool,
    /// If the player messages cannot be seen by other players. (Entry
    /// `mute`)
    pub mute: Option<bool>,
    /// If the player can phase through blocks. (Entry `noclip`)
    pub no_clip: Option<bool>,
    /// If the player is able to open containers. (Entry `opencontainers`)
    pub open_containers: bool,
    /// If the player is a world builder. (Entry `worldbuilder`)
    pub world_builder: Option<bool>,
    /// If the player is allowed to teleport. (Entry `teleport`)
    pub teleport: bool,
    /// If the player has operator commands. (Entry `op`)
    pub op: bool,
    /// The permission level of the player. (Entry `playerPermissionsLevel`)
    pub permissions_level: Option<PermissionLevel>,
    /// The permission level a player starts with. (Entry
    /// `permissionsLevel`)
    pub permissions_level_default: Option<PermissionLevel>,
}

/// The abilities that the entries of a compound spell out, where none of
/// them is at fault.
pub open spec fn abilities_of(entries: Seq<(String, NbtValue)>) -> LevelDatAbilities {
    LevelDatAbilities {
        attack_mobs: flag(entries, AbilityKey::AttackMobs),
        attack_players: flag(entries, AbilityKey::AttackPlayers),
        redstone_interact: flag(entries, AbilityKey::DoorsAndSwitches),
        build: flag(entries, AbilityKey::Build),
        mine: flag(entries, AbilityKey::Mine),
        mine_instantly: flag(entries, AbilityKey::InstaBuild),
        flying: flag(entries, AbilityKey::Flying),
        fly_speed: number(entries, AbilityKey::FlySpeed),
        walk_speed: number(entries, AbilityKey::WalkSpeed),
        invulnerable: flag(entries, AbilityKey::Invulnerable),
        lightning: flag(entries, AbilityKey::Lightning),
        mayfly: flag(entries, AbilityKey::MayFly),
        mute: optional_flag(entries, AbilityKey::Mute),
        no_clip: optional_flag(entries, AbilityKey::NoClip),
        open_containers: flag(entries, AbilityKey::OpenContainers),
        world_builder: optional_flag(entries, AbilityKey::WorldBuilder),
        teleport: flag(entries, AbilityKey::Teleport),
        op: flag(entries, AbilityKey::Op),
        permissions_level: optional_permission(entries, AbilityKey::PlayerPermissionsLevel),
        permissions_level_default: optional_permission(entries, AbilityKey::PermissionsLevel),
    }
}

/// What reading the abilities from `tag` gives: the abilities that its
/// entries spell out, or the first fault. A tag that is no compound is a
/// fault of its own.
pub open spec fn parse_result(tag: NbtValue) -> Result<LevelDatAbilities, WorldError> {
    match tag {
        NbtValue::Compound(entries) => match first_fault(entries@, reading_order()) {
            Some(f) => Err(WorldError::FormatError(f)),
            None => Ok(abilities_of(entries@)),
        },
        other => Err(WorldError::FormatError(FormatFault::RootNotCompound { found: other.kind() })),
    }
}

/// Reads the flag `key`, which must be there.
fn get_byte_as_bool(entries: &Vec<(String, NbtValue)>, key: AbilityKey) -> (res: Result<
    bool,
    WorldError,
>)
    requires
        key.shape() == AbilityShape::Flag,
    ensures
        match fault(entries@, key) {
            Some(f) => res == Err::<bool, WorldError>(WorldError::FormatError(f)),
            None => res == Ok::<bool, WorldError>(flag(entries@, key)),
        },
{
    match find(entries, key.as_str()) {
        Some(NbtValue::Byte(v)) => Ok(*v != 0),
        Some(other) => Err(
            WorldError::FormatError(
                FormatFault::WrongType { key, expected: TagKind::Byte, found: other.tag_kind() },
            ),
        ),
        None => Err(WorldError::FormatError(FormatFault::MissingField { key })),
    }
}

/// Reads the flag `key`, which may be missing.
fn get_byte_as_bool_option(entries: &Vec<(String, NbtValue)>, key: AbilityKey) -> (res: Result<
    Option<bool>,
    WorldError,
>)
    requires
        key.shape() == AbilityShape::OptionalFlag,
    ensures
        match fault(entries@, key) {
            Some(f) => res == Err::<Option<bool>, WorldError>(WorldError::FormatError(f)),
            None => res == Ok::<Option<bool>, WorldError>(optional_flag(entries@, key)),
        },
{
    match find(entries, key.as_str()) {
        Some(NbtValue::Byte(v)) => Ok(Some(*v != 0)),
        Some(other) => Err(
            WorldError::FormatError(
                FormatFault::WrongType { key, expected: TagKind::Byte, found: other.tag_kind() },
            ),
        ),
        None => Ok(None),
    }
}

/// Reads the number `key`, which must be there.
fn get_float(entries: &Vec<(String, NbtValue)>, key: AbilityKey) -> (res: Result<
    Float32,
    WorldError,
>)
    requires
        key.shape() == AbilityShape::Number,
    ensures
        match fault(entries@, key) {
            Some(f) => res == Err::<Float32, WorldError>(WorldError::FormatError(f)),
            None => res == Ok::<Float32, WorldError>(number(entries@, key)),
        },
{
    match find(entries, key.as_str()) {
        Some(NbtValue::Float(v)) => Ok(*v),
        Some(other) => Err(
            WorldError::FormatError(
                FormatFault::WrongType { key, expected: TagKind::Float, found: other.tag_kind() },
            ),
        ),
        None => Err(WorldError::FormatError(FormatFault::MissingField { key })),
    }
}

/// Reads the permission level `key`, which may be missing.
fn get_permission_option(entries: &Vec<(String, NbtValue)>, key: AbilityKey) -> (res: Result<
    Option<PermissionLevel>,
    WorldError,
>)
    requires
        key.shape() == AbilityShape::OptionalPermission,
    ensures
        match fault(entries@, key) {
            Some(f) => res == Err::<Option<PermissionLevel>, WorldError>(
                WorldError::FormatError(f),
            ),
            None => res == Ok::<Option<PermissionLevel>, WorldError>(
                optional_permission(entries@, key),
            ),
        },
{
    match find(entries, key.as_str()) {
        Some(NbtValue::Int(level)) => match PermissionLevel::from_level(*level) {
            Some(permission) => Ok(Some(permission)),
            None => Err(
                WorldError::FormatError(FormatFault::PermissionOutOfBounds { key, value: *level }),
            ),
        },
        Some(other) => Err(
            WorldError::FormatError(
                FormatFault::WrongType { key, expected: TagKind::Int, found: other.tag_kind() },
            ),
        ),
        None => Ok(None),
    }
}

impl LevelDatAbilities {
    /// Reads the abilities from the `abilities` compound of the level data.
    ///
    /// The entries are read in a fixed order, and the first one at fault is
    /// reported. Entries that the abilities do not name are passed over.
    pub fn parse(tag: NbtValue) -> (res: Result<LevelDatAbilities, WorldError>)
        ensures
            res == parse_result(tag),
    {
        match tag {
            NbtValue::Compound(entries) => {
                proof {
                    reveal_with_fuel(first_fault, 21);
                }
                let map = &entries;
                Ok(
                    LevelDatAbilities {
                        attack_mobs: get_byte_as_bool(map, AbilityKey::AttackMobs)?,
                        attack_players: get_byte_as_bool(map, AbilityKey::AttackPlayers)?,
                        redstone_interact: get_byte_as_bool(map, AbilityKey::DoorsAndSwitches)?,
                        build: get_byte_as_bool(map, AbilityKey::Build)?,
                        mine: get_byte_as_bool(map, AbilityKey::Mine)?,
                        mine_instantly: get_byte_as_bool(map, AbilityKey::InstaBuild)?,
                        flying: get_byte_as_bool(map, AbilityKey::Flying)?,
                        fly_speed: get_float(map, AbilityKey::FlySpeed)?,
                        walk_speed: get_float(map, AbilityKey::WalkSpeed)?,
                        invulnerable: get_byte_as_bool(map, AbilityKey::Invulnerable)?,
                        lightning: get_byte_as_bool(map, AbilityKey::Lightning)?,
                        mayfly: get_byte_as_bool(map, AbilityKey::MayFly)?,
                        mute: get_byte_as_bool_option(map, AbilityKey::Mute)?,
                        no_clip: get_byte_as_bool_option(map, AbilityKey::NoClip)?,
                        open_containers: get_byte_as_bool(map, AbilityKey::OpenContainers)?,
                        world_builder: get_byte_as_bool_option(map, AbilityKey::WorldBuilder)?,
                        teleport: get_byte_as_bool(map, AbilityKey::Teleport)?,
                        op: get_byte_as_bool(map, AbilityKey::Op)?,
                        permissions_level: get_permission_option(
                            map,
                            AbilityKey::PlayerPermissionsLevel,
                        )?,
                        permissions_level_default: get_permission_option(
                            map,
                            AbilityKey::PermissionsLevel,
                        )?,
                    },
                )
            },
            other => Err(
                WorldError::FormatError(FormatFault::RootNotCompound { found: other.tag_kind() }),
            ),
        }
    }
}

} // verus!
