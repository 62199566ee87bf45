//! The game packet: a tagged union over the packet identifiers, with the
//! table that ties each identifier to its shape, and the two operations that
//! write a packet as a frame and read a frame back.
//!
//! An identifier is *known* when the table assigns it to a packet. A known
//! identifier *has a shape* when the layout of its body is defined here; a
//! packet without a shape has no payload and can be neither written nor
//! read.

use vstd::prelude::*;
use crate::error::CodecError;
use crate::frame::{encode_result, frame_content, frame_of, frame_rest};
use crate::frame::{parse_content, parse_frame};
use crate::header::{pack_header, unpack_header};
use crate::packets::add_painting_packet::{AddPaintingPacket, AddPaintingPacketView};
use crate::packets::camera_packet::CameraPacket;
use crate::packets::chunk_radius_updated::ChunkRadiusUpdatedPacket;
use crate::packets::client_cache_status::ClientCacheStatusPacket;
use crate::packets::container_open_packet::ContainerOpenPacket;
use crate::packets::disconnect::{DisconnectPacket, DisconnectPacketView};
use crate::packets::game_rules_changed::{GameRulesChangedPacket, GameRulesChangedPacketView};
use crate::packets::login::{LoginPacket, LoginPacketView};
use crate::packets::modal_form_request::{ModalFormRequestPacket, ModalFormRequestPacketView};
use crate::packets::modal_form_response::{ModalFormResponsePacket, ModalFormResponsePacketView};
use crate::packets::network_settings::NetworkSettingsPacket;
use crate::packets::network_settings_request::NetworkSettingsRequestPacket;
use crate::packets::play_status::PlayStatusPacket;
use crate::packets::remove_actor_packet::RemoveEntityPacket;
use crate::packets::server_settings_request::ServerSettingsRequestPacket;
use crate::packets::server_settings_response::{
    ServerSettingsResponsePacket, ServerSettingsResponsePacketView,
};
use crate::packets::set_local_player_as_initialized::SetLocalPlayerAsInitializedPacket;
use crate::packets::set_time_packet::SetTimePacket;
use crate::packets::text_message::{TextMessagePacket, TextMessagePacketView};
use crate::packets::toast_request_packet::{ToastRequestPacket, ToastRequestPacketView};
use crate::reader::ByteReader;
use crate::varint::{read_uvar, write_uvar, Parsed, Width};
use crate::wire::write_bytes;

verus! {

/// A packet of the game protocol. Each variant stands for one packet
/// identifier; a variant carries a record where the shape of its packet is
/// defined, and nothing where it is not.
#[derive(Debug, Clone, PartialEq, Eq)]
pub enum GamePacket {
    Login(LoginPacket),
    PlayStatus(PlayStatusPacket),
    ServerToClientHandshake(),
    ClientToServerHandshake(),
    Disconnect(DisconnectPacket),
    ResourcePacksInfo(),
    ResourcePackStack(),
    ResourcePackClientResponse(),
    TextMessage(TextMessagePacket),
    SetTime(SetTimePacket),
    StartGame(),
    AddPlayer(),
    AddEntity(),
    RemoveEntity(RemoveEntityPacket),
    AddItemEntity(),
    ServerPlayerPostMovePositionPacket(),
    TakeItemEntity(),
    MoveEntity(),
    MovePlayer(),
    RiderJump(),
    UpdateBlock(),
    AddPainting(AddPaintingPacket),
    TickSync(),
    LevelSoundEventOld(),
    LevelEvent(),
    BlockEvent(),
    EntityEvent(),
    MobEffect(),
    UpdateAttributes(),
    InventoryTransaction(),
    MobEquipment(),
    MobArmorEquipment(),
    Interact(),
    BlockPickRequest(),
    EntityPickRequest(),
    PlayerAction(),
    HurtArmor(),
    SetEntityData(),
    SetEntityMotion(),
    SetEntityLink(),
    SetHealth(),
    SetSpawnPosition(),
    Animate(),
    Respawn(),
    ContainerOpen(ContainerOpenPacket),
    ContainerClose(),
    PlayerHotbar(),
    InventoryContent(),
    InventorySlot(),
    ContainerSetData(),
    CraftingData(),
    CraftingEvent(),
    GuiDataPickItem(),
    AdventureSettings(),
    BlockEntityData(),
    PlayerInput(),
    LevelChunk(),
    SetCommandsEnabled(),
    SetDifficulty(),
    ChangeDimension(),
    SetPlayerGameType(),
    PlayerList(),
    SimpleEvent(),
    TelemetryEvent(),
    SpawnExperienceOrb(),
    ClientboundMapItemData(),
    MapInfoRequest(),
    RequestChunkRadius(),
    ChunkRadiusUpdate(ChunkRadiusUpdatedPacket),
    ItemFrameDropItem(),
    GameRulesChanged(GameRulesChangedPacket),
    Camera(CameraPacket),
    BossEvent(),
    ShowCredits(),
    AvailableCommands(),
    CommandRequest(),
    CommandBlockUpdate(),
    CommandOutput(),
    UpdateTrade(),
    UpdateEquipment(),
    ResourcePackDataInfo(),
    ResourcePackChunkData(),
    ResourcePackChunkRequest(),
    Transfer(),
    PlaySound(),
    StopSound(),
    SetTitle(),
    AddBehaviorTree(),
    StructureBlockUpdate(),
    ShowStoreOffer(),
    PurchaseReceipt(),
    PlayerSkin(),
    SubClientLogin(),
    InitiateWebSocketConnection(),
    SetLastHurtBy(),
    BookEdit(),
    NpcRequest(),
    PhotoTransfer(),
    ModalFormRequest(ModalFormRequestPacket),
    ModalFormResponse(ModalFormResponsePacket),
    ServerSettingsRequest(ServerSettingsRequestPacket),
    ServerSettingsResponse(ServerSettingsResponsePacket),
    ShowProfile(),
    SetDefaultGameType(),
    RemoveObjective(),
    SetDisplayObjective(),
    SetScore(),
    LabTable(),
    UpdateBlockSynced(),
    MoveEntityDelta(),
    SetScoreboardIdentity(),
    SetLocalPlayerAsInitialized(SetLocalPlayerAsInitializedPacket),
    UpdateSoftEnum(),
    NetworkStackLatency(),
    ScriptCustomEvent(),
    SpawnParticleEffect(),
    AvailableEntityIdentifiers(),
    LevelSoundEventV2(),
    NetworkChunkPublisherUpdate(),
    BiomeDefinitionList(),
    LevelSoundEvent(),
    LevelEventGeneric(),
    LecternUpdate(),
    VideoStreamConnect(),
    ClientCacheStatus(ClientCacheStatusPacket),
    OnScreenTextureAnimation(),
    MapCreateLockedCopy(),
    StructureTemplateDataExportRequest(),
    StructureTemplateDataExportResponse(),
    UpdateBlockProperties(),
    ClientCacheBlobStatus(),
    ClientCacheMissResponse(),
    NetworkSettings(NetworkSettingsPacket),
    PlayerAuthInput(),
    CreativeContent(),
    PlayerEnchantOptions(),
    ItemStackRequest(),
    ItemStackResponse(),
    UpdatePlayerGameType(),
    EmoteList(),
    DebugInfoPacket(),
    PacketViolationWarning(),
    CorrectPlayerMovePredictionPacket(),
    ItemComponent(),
    FilterTextPacket(),
    UpdateSubChunkBlocksPacket(),
    SubChunkPacket(),
    SubChunkRequestPacket(),
    DimensionData(),
    ToastRequestPacket(ToastRequestPacket),
    RequestNetworkSettings(NetworkSettingsRequestPacket),
    AlexEntityAnimation(),
}

/// The body of a packet, as mathematical values: the content of its record,
/// or nothing for a packet without a shape.
pub enum BodyView {
    /// The packet has no shape, and so no body.
    Undefined,
    Login(LoginPacketView),
    PlayStatus(PlayStatusPacket),
    Disconnect(DisconnectPacketView),
    TextMessage(TextMessagePacketView),
    SetTime(SetTimePacket),
    RemoveEntity(RemoveEntityPacket),
    AddPainting(AddPaintingPacketView),
    ContainerOpen(ContainerOpenPacket),
    ChunkRadiusUpdate(ChunkRadiusUpdatedPacket),
    GameRulesChanged(GameRulesChangedPacketView),
    Camera(CameraPacket),
    ModalFormRequest(ModalFormRequestPacketView),
    ModalFormResponse(ModalFormResponsePacketView),
    ServerSettingsRequest(ServerSettingsRequestPacket),
    ServerSettingsResponse(ServerSettingsResponsePacketView),
    SetLocalPlayerAsInitialized(SetLocalPlayerAsInitializedPacket),
    ClientCacheStatus(ClientCacheStatusPacket),
    NetworkSettings(NetworkSettingsPacket),
    ToastRequestPacket(ToastRequestPacketView),
    RequestNetworkSettings(NetworkSettingsRequestPacket),
}

/// A packet as mathematical values: its identifier and its body.
pub struct PacketView {
    pub id: u16,
    pub body: BodyView,
}

impl View for GamePacket {
    type V = PacketView;

    open spec fn view(&self) -> PacketView {
        PacketView { id: self.id(), body: self.body() }
    }
}

/// Whether the table assigns `id` to a packet.
pub open spec fn is_known_id(id: u16) -> bool {
    1 <= id <= 36
            || 38 <= id <= 115
            || 117 <= id <= 126
            || 129 <= id <= 136
            || 143 <= id <= 148
            || 151 <= id <= 152
            || 155 <= id <= 156
            || 161 <= id <= 163
            || id == 172
            || 174 <= id <= 175
            || id == 180
            || id == 186
            || id == 193
            || id == 224
}

/// Whether `id` is known and the layout of its body is defined.
pub open spec fn has_shape(id: u16) -> bool {
    id == 1
            || id == 2
            || id == 5
            || id == 9
            || id == 10
            || id == 14
            || id == 22
            || id == 46
            || id == 70
            || id == 72
            || id == 73
            || id == 100
            || id == 101
            || id == 102
            || id == 103
            || id == 113
            || id == 129
            || id == 143
            || id == 186
            || id == 193
}

/// The bytes of a packet body: those of its record, or none where there is
/// no record.
pub open spec fn body_bytes(body: BodyView) -> Seq<u8> {
    match body {
        BodyView::Undefined => Seq::empty(),
            BodyView::Login(pk) => pk.wire_bytes(),
            BodyView::PlayStatus(pk) => pk.wire_bytes(),
            BodyView::Disconnect(pk) => pk.wire_bytes(),
            BodyView::TextMessage(pk) => pk.wire_bytes(),
            BodyView::SetTime(pk) => pk.wire_bytes(),
            BodyView::RemoveEntity(pk) => pk.wire_bytes(),
            BodyView::AddPainting(pk) => pk.wire_bytes(),
            BodyView::ContainerOpen(pk) => pk.wire_bytes(),
            BodyView::ChunkRadiusUpdate(pk) => pk.wire_bytes(),
            BodyView::GameRulesChanged(pk) => pk.wire_bytes(),
            BodyView::Camera(pk) => pk.wire_bytes(),
            BodyView::ModalFormRequest(pk) => pk.wire_bytes(),
            BodyView::ModalFormResponse(pk) => pk.wire_bytes(),
            BodyView::ServerSettingsRequest(pk) => pk.wire_bytes(),
            BodyView::ServerSettingsResponse(pk) => pk.wire_bytes(),
            BodyView::SetLocalPlayerAsInitialized(pk) => pk.wire_bytes(),
            BodyView::ClientCacheStatus(pk) => pk.wire_bytes(),
            BodyView::NetworkSettings(pk) => pk.wire_bytes(),
            BodyView::ToastRequestPacket(pk) => pk.wire_bytes(),
            BodyView::RequestNetworkSettings(pk) => pk.wire_bytes(),
    }
}

/// Whether every length in a packet body fits its length prefix, so that the
/// body can be written.
pub open spec fn body_fits(body: BodyView) -> bool {
    match body {
        BodyView::Undefined => true,
            BodyView::Login(pk) => pk.fits(),
            BodyView::PlayStatus(pk) => true,
            BodyView::Disconnect(pk) => pk.fits(),
            BodyView::TextMessage(pk) => pk.fits(),
            BodyView::SetTime(pk) => true,
            BodyView::RemoveEntity(pk) => true,
            BodyView::AddPainting(pk) => pk.fits(),
            BodyView::ContainerOpen(pk) => true,
            BodyView::ChunkRadiusUpdate(pk) => true,
            BodyView::GameRulesChanged(pk) => pk.fits(),
            BodyView::Camera(pk) => true,
            BodyView::ModalFormRequest(pk) => pk.fits(),
            BodyView::ModalFormResponse(pk) => pk.fits(),
            BodyView::ServerSettingsRequest(pk) => true,
            BodyView::ServerSettingsResponse(pk) => pk.fits(),
            BodyView::SetLocalPlayerAsInitialized(pk) => true,
            BodyView::ClientCacheStatus(pk) => true,
            BodyView::NetworkSettings(pk) => true,
            BodyView::ToastRequestPacket(pk) => pk.fits(),
            BodyView::RequestNetworkSettings(pk) => true,
    }
}

/// Whether `body` is a body of the packet `id`: the record of its shape, or
/// nothing where `id` has no shape.
pub open spec fn body_matches(id: u16, body: BodyView) -> bool {
    match body {
        BodyView::Undefined => !has_shape(id),
        BodyView::Login(pk) => id == 1,
        BodyView::PlayStatus(pk) => id == 2,
        BodyView::Disconnect(pk) => id == 5,
        BodyView::TextMessage(pk) => id == 9,
        BodyView::SetTime(pk) => id == 10,
        BodyView::RemoveEntity(pk) => id == 14,
        BodyView::AddPainting(pk) => id == 22,
        BodyView::ContainerOpen(pk) => id == 46,
        BodyView::ChunkRadiusUpdate(pk) => id == 70,
        BodyView::GameRulesChanged(pk) => id == 72,
        BodyView::Camera(pk) => id == 73,
        BodyView::ModalFormRequest(pk) => id == 100,
        BodyView::ModalFormResponse(pk) => id == 101,
        BodyView::ServerSettingsRequest(pk) => id == 102,
        BodyView::ServerSettingsResponse(pk) => id == 103,
        BodyView::SetLocalPlayerAsInitialized(pk) => id == 113,
        BodyView::ClientCacheStatus(pk) => id == 129,
        BodyView::NetworkSettings(pk) => id == 143,
        BodyView::ToastRequestPacket(pk) => id == 186,
        BodyView::RequestNetworkSettings(pk) => id == 193,
    }
}

/// Reads the body of the packet `id` off the front of `b`. An identifier the
/// table does not assign is an unknown packet; one without a shape is an
/// unimplemented packet; otherwise the shape of `id` reads the body.
#[verifier::opaque]
pub open spec fn parse_body(id: u16, b: Seq<u8>, strict: bool) -> Parsed<BodyView> {
    if !is_known_id(id) {
        Err(CodecError::UnknownPacketId(id))
        } else if id == 1 {
            match LoginPacketView::parse(b, strict) {
                Err(e) => Err(e),
                Ok((pk, rest)) => Ok((BodyView::Login(pk), rest)),
            }
        } else if id == 2 {
            match PlayStatusPacket::parse(b, strict) {
                Err(e) => Err(e),
                Ok((pk, rest)) => Ok((BodyView::PlayStatus(pk), rest)),
            }
        } else if id == 5 {
            match DisconnectPacketView::parse(b, strict) {
                Err(e) => Err(e),
                Ok((pk, rest)) => Ok((BodyView::Disconnect(pk), rest)),
            }
        } else if id == 9 {
            match TextMessagePacketView::parse(b, strict) {
                Err(e) => Err(e),
                Ok((pk, rest)) => Ok((BodyView::TextMessage(pk), rest)),
            }
        } else if id == 10 {
            match SetTimePacket::parse(b, strict) {
                Err(e) => Err(e),
                Ok((pk, rest)) => Ok((BodyView::SetTime(pk), rest)),
            }
        } else if id == 14 {
            match RemoveEntityPacket::parse(b, strict) {
                Err(e) => Err(e),
                Ok((pk, rest)) => Ok((BodyView::RemoveEntity(pk), rest)),
            }
        } else if id == 22 {
            match AddPaintingPacketView::parse(b, strict) {
                Err(e) => Err(e),
                Ok((pk, rest)) => Ok((BodyView::AddPainting(pk), rest)),
            }
        } else if id == 46 {
            match ContainerOpenPacket::parse(b, strict) {
                Err(e) => Err(e),
                Ok((pk, rest)) => Ok((BodyView::ContainerOpen(pk), rest)),
            }
        } else if id == 70 {
            match ChunkRadiusUpdatedPacket::parse(b, strict) {
                Err(e) => Err(e),
                Ok((pk, rest)) => Ok((BodyView::ChunkRadiusUpdate(pk), rest)),
            }
        } else if id == 72 {
            match GameRulesChangedPacketView::parse(b, strict) {
                Err(e) => Err(e),
                Ok((pk, rest)) => Ok((BodyView::GameRulesChanged(pk), rest)),
            }
        } else if id == 73 {
            match CameraPacket::parse(b, strict) {
                Err(e) => Err(e),
                Ok((pk, rest)) => Ok((BodyView::Camera(pk), rest)),
            }
        } else if id == 100 {
            match ModalFormRequestPacketView::parse(b, strict) {
                Err(e) => Err(e),
                Ok((pk, rest)) => Ok((BodyView::ModalFormRequest(pk), rest)),
            }
        } else if id == 101 {
            match ModalFormResponsePacketView::parse(b, strict) {
                Err(e) => Err(e),
                Ok((pk, rest)) => Ok((BodyView::ModalFormResponse(pk), rest)),
            }
        } else if id == 102 {
            match ServerSettingsRequestPacket::parse(b, strict) {
                Err(e) => Err(e),
                Ok((pk, rest)) => Ok((BodyView::ServerSettingsRequest(pk), rest)),
            }
        } else if id == 103 {
            match ServerSettingsResponsePacketView::parse(b, strict) {
                Err(e) => Err(e),
                Ok((pk, rest)) => Ok((BodyView::ServerSettingsResponse(pk), rest)),
            }
        } else if id == 113 {
            match SetLocalPlayerAsInitializedPacket::parse(b, strict) {
                Err(e) => Err(e),
                Ok((pk, rest)) => Ok((BodyView::SetLocalPlayerAsInitialized(pk), rest)),
            }
        } else if id == 129 {
            match ClientCacheStatusPacket::parse(b, strict) {
                Err(e) => Err(e),
                Ok((pk, rest)) => Ok((BodyView::ClientCacheStatus(pk), rest)),
            }
        } else if id == 143 {
            match NetworkSettingsPacket::parse(b, strict) {
                Err(e) => Err(e),
                Ok((pk, rest)) => Ok((BodyView::NetworkSettings(pk), rest)),
            }
        } else if id == 186 {
            match ToastRequestPacketView::parse(b, strict) {
                Err(e) => Err(e),
                Ok((pk, rest)) => Ok((BodyView::ToastRequestPacket(pk), rest)),
            }
        } else if id == 193 {
            match NetworkSettingsRequestPacket::parse(b, strict) {
                Err(e) => Err(e),
                Ok((pk, rest)) => Ok((BodyView::RequestNetworkSettings(pk), rest)),
            }
    } else {
        Err(CodecError::UnimplementedPacket(id))
    }
}

impl GamePacket {
    /// The identifier of the packet: the table of the protocol.
    pub open spec fn id(self) -> u16 {
        match self {
            GamePacket::Login(..) => 1,
            GamePacket::PlayStatus(..) => 2,
            GamePacket::ServerToClientHandshake() => 3,
            GamePacket::ClientToServerHandshake() => 4,
            GamePacket::Disconnect(..) => 5,
            GamePacket::ResourcePacksInfo() => 6,
            GamePacket::ResourcePackStack() => 7,
            GamePacket::ResourcePackClientResponse() => 8,
            GamePacket::TextMessage(..) => 9,
            GamePacket::SetTime(..) => 10,
            GamePacket::StartGame() => 11,
            GamePacket::AddPlayer() => 12,
            GamePacket::AddEntity() => 13,
            GamePacket::RemoveEntity(..) => 14,
            GamePacket::AddItemEntity() => 15,
            GamePacket::ServerPlayerPostMovePositionPacket() => 16,
            GamePacket::TakeItemEntity() => 17,
            GamePacket::MoveEntity() => 18,
            GamePacket::MovePlayer() => 19,
            GamePacket::RiderJump() => 20,
            GamePacket::UpdateBlock() => 21,
            GamePacket::AddPainting(..) => 22,
            GamePacket::TickSync() => 23,
            GamePacket::LevelSoundEventOld() => 24,
            GamePacket::LevelEvent() => 25,
            GamePacket::BlockEvent() => 26,
            GamePacket::EntityEvent() => 27,
            GamePacket::MobEffect() => 28,
            GamePacket::UpdateAttributes() => 29,
            GamePacket::InventoryTransaction() => 30,
            GamePacket::MobEquipment() => 31,
            GamePacket::MobArmorEquipment() => 32,
            GamePacket::Interact() => 33,
            GamePacket::BlockPickRequest() => 34,
            GamePacket::EntityPickRequest() => 35,
            GamePacket::PlayerAction() => 36,
            GamePacket::HurtArmor() => 38,
            GamePacket::SetEntityData() => 39,
            GamePacket::SetEntityMotion() => 40,
            GamePacket::SetEntityLink() => 41,
            GamePacket::SetHealth() => 42,
            GamePacket::SetSpawnPosition() => 43,
            GamePacket::Animate() => 44,
            GamePacket::Respawn() => 45,
            GamePacket::ContainerOpen(..) => 46,
            GamePacket::ContainerClose() => 47,
            GamePacket::PlayerHotbar() => 48,
            GamePacket::InventoryContent() => 49,
            GamePacket::InventorySlot() => 50,
            GamePacket::ContainerSetData() => 51,
            GamePacket::CraftingData() => 52,
            GamePacket::CraftingEvent() => 53,
            GamePacket::GuiDataPickItem() => 54,
            GamePacket::AdventureSettings() => 55,
            GamePacket::BlockEntityData() => 56,
            GamePacket::PlayerInput() => 57,
            GamePacket::LevelChunk() => 58,
            GamePacket::SetCommandsEnabled() => 59,
            GamePacket::SetDifficulty() => 60,
            GamePacket::ChangeDimension() => 61,
            GamePacket::SetPlayerGameType() => 62,
            GamePacket::PlayerList() => 63,
            GamePacket::SimpleEvent() => 64,
            GamePacket::TelemetryEvent() => 65,
            GamePacket::SpawnExperienceOrb() => 66,
            GamePacket::ClientboundMapItemData() => 67,
            GamePacket::MapInfoRequest() => 68,
            GamePacket::RequestChunkRadius() => 69,
            GamePacket::ChunkRadiusUpdate(..) => 70,
            GamePacket::ItemFrameDropItem() => 71,
            GamePacket::GameRulesChanged(..) => 72,
            GamePacket::Camera(..) => 73,
            GamePacket::BossEvent() => 74,
            GamePacket::ShowCredits() => 75,
            GamePacket::AvailableCommands() => 76,
            GamePacket::CommandRequest() => 77,
            GamePacket::CommandBlockUpdate() => 78,
            GamePacket::CommandOutput() => 79,
            GamePacket::UpdateTrade() => 80,
            GamePacket::UpdateEquipment() => 81,
            GamePacket::ResourcePackDataInfo() => 82,
            GamePacket::ResourcePackChunkData() => 83,
            GamePacket::ResourcePackChunkRequest() => 84,
            GamePacket::Transfer() => 85,
            GamePacket::PlaySound() => 86,
            GamePacket::StopSound() => 87,
            GamePacket::SetTitle() => 88,
            GamePacket::AddBehaviorTree() => 89,
            GamePacket::StructureBlockUpdate() => 90,
            GamePacket::ShowStoreOffer() => 91,
            GamePacket::PurchaseReceipt() => 92,
            GamePacket::PlayerSkin() => 93,
            GamePacket::SubClientLogin() => 94,
            GamePacket::InitiateWebSocketConnection() => 95,
            GamePacket::SetLastHurtBy() => 96,
            GamePacket::BookEdit() => 97,
            GamePacket::NpcRequest() => 98,
            GamePacket::PhotoTransfer() => 99,
            GamePacket::ModalFormRequest(..) => 100,
            GamePacket::ModalFormResponse(..) => 101,
            GamePacket::ServerSettingsRequest(..) => 102,
            GamePacket::ServerSettingsResponse(..) => 103,
            GamePacket::ShowProfile() => 104,
            GamePacket::SetDefaultGameType() => 105,
            GamePacket::RemoveObjective() => 106,
            GamePacket::SetDisplayObjective() => 107,
            GamePacket::SetScore() => 108,
            GamePacket::LabTable() => 109,
            GamePacket::UpdateBlockSynced() => 110,
            GamePacket::MoveEntityDelta() => 111,
            GamePacket::SetScoreboardIdentity() => 112,
            GamePacket::SetLocalPlayerAsInitialized(..) => 113,
            GamePacket::UpdateSoftEnum() => 114,
            GamePacket::NetworkStackLatency() => 115,
            GamePacket::ScriptCustomEvent() => 117,
            GamePacket::SpawnParticleEffect() => 118,
            GamePacket::AvailableEntityIdentifiers() => 119,
            GamePacket::LevelSoundEventV2() => 120,
            GamePacket::NetworkChunkPublisherUpdate() => 121,
            GamePacket::BiomeDefinitionList() => 122,
            GamePacket::LevelSoundEvent() => 123,
            GamePacket::LevelEventGeneric() => 124,
            GamePacket::LecternUpdate() => 125,
            GamePacket::VideoStreamConnect() => 126,
            GamePacket::ClientCacheStatus(..) => 129,
            GamePacket::OnScreenTextureAnimation() => 130,
            GamePacket::MapCreateLockedCopy() => 131,
            GamePacket::StructureTemplateDataExportRequest() => 132,
            GamePacket::StructureTemplateDataExportResponse() => 133,
            GamePacket::UpdateBlockProperties() => 134,
            GamePacket::ClientCacheBlobStatus() => 135,
            GamePacket::ClientCacheMissResponse() => 136,
            GamePacket::NetworkSettings(..) => 143,
            GamePacket::PlayerAuthInput() => 144,
            GamePacket::CreativeContent() => 145,
            GamePacket::PlayerEnchantOptions() => 146,
            GamePacket::ItemStackRequest() => 147,
            GamePacket::ItemStackResponse() => 148,
            GamePacket::UpdatePlayerGameType() => 151,
            GamePacket::EmoteList() => 152,
            GamePacket::DebugInfoPacket() => 155,
            GamePacket::PacketViolationWarning() => 156,
            GamePacket::CorrectPlayerMovePredictionPacket() => 161,
            GamePacket::ItemComponent() => 162,
            GamePacket::FilterTextPacket() => 163,
            GamePacket::UpdateSubChunkBlocksPacket() => 172,
            GamePacket::SubChunkPacket() => 174,
            GamePacket::SubChunkRequestPacket() => 175,
            GamePacket::DimensionData() => 180,
            GamePacket::ToastRequestPacket(..) => 186,
            GamePacket::RequestNetworkSettings(..) => 193,
            GamePacket::AlexEntityAnimation() => 224,
        }
    }

    /// The body of the packet.
    pub open spec fn body(self) -> BodyView {
        match self {
            GamePacket::Login(pk) => BodyView::Login(pk@),
            GamePacket::PlayStatus(pk) => BodyView::PlayStatus(pk),
            GamePacket::Disconnect(pk) => BodyView::Disconnect(pk@),
            GamePacket::TextMessage(pk) => BodyView::TextMessage(pk@),
            GamePacket::SetTime(pk) => BodyView::SetTime(pk),
            GamePacket::RemoveEntity(pk) => BodyView::RemoveEntity(pk),
            GamePacket::AddPainting(pk) => BodyView::AddPainting(pk@),
            GamePacket::ContainerOpen(pk) => BodyView::ContainerOpen(pk),
            GamePacket::ChunkRadiusUpdate(pk) => BodyView::ChunkRadiusUpdate(pk),
            GamePacket::GameRulesChanged(pk) => BodyView::GameRulesChanged(pk@),
            GamePacket::Camera(pk) => BodyView::Camera(pk),
            GamePacket::ModalFormRequest(pk) => BodyView::ModalFormRequest(pk@),
            GamePacket::ModalFormResponse(pk) => BodyView::ModalFormResponse(pk@),
            GamePacket::ServerSettingsRequest(pk) => BodyView::ServerSettingsRequest(pk),
            GamePacket::ServerSettingsResponse(pk) => BodyView::ServerSettingsResponse(pk@),
            GamePacket::SetLocalPlayerAsInitialized(pk) => BodyView::SetLocalPlayerAsInitialized(
                pk,
            ),
            GamePacket::ClientCacheStatus(pk) => BodyView::ClientCacheStatus(pk),
            GamePacket::NetworkSettings(pk) => BodyView::NetworkSettings(pk),
            GamePacket::ToastRequestPacket(pk) => BodyView::ToastRequestPacket(pk@),
            GamePacket::RequestNetworkSettings(pk) => BodyView::RequestNetworkSettings(pk),
            _ => BodyView::Undefined,
        }
    }

    /// Every packet has a known identifier of at most ten bits, and carries
    /// a record exactly when its identifier has a shape: the record of that
    /// shape.
    pub proof fn lemma_id(self)
        ensures
            self.id() < 1024,
            is_known_id(self.id()),
            has_shape(self.id()) <==> self.body() != BodyView::Undefined,
            body_matches(self.id(), self.body()),
    {
    }

    /// The identifier of the packet.
    pub fn packet_id(&self) -> (id: u16)
        ensures
            id == self.id(),
    {
        match self {
            GamePacket::Login(..) => 1,
            GamePacket::PlayStatus(..) => 2,
            GamePacket::ServerToClientHandshake() => 3,
            GamePacket::ClientToServerHandshake() => 4,
            GamePacket::Disconnect(..) => 5,
            GamePacket::ResourcePacksInfo() => 6,
            GamePacket::ResourcePackStack() => 7,
            GamePacket::ResourcePackClientResponse() => 8,
            GamePacket::TextMessage(..) => 9,
            GamePacket::SetTime(..) => 10,
            GamePacket::StartGame() => 11,
            GamePacket::AddPlayer() => 12,
            GamePacket::AddEntity() => 13,
            GamePacket::RemoveEntity(..) => 14,
            GamePacket::AddItemEntity() => 15,
            GamePacket::ServerPlayerPostMovePositionPacket() => 16,
            GamePacket::TakeItemEntity() => 17,
            GamePacket::MoveEntity() => 18,
            GamePacket::MovePlayer() => 19,
            GamePacket::RiderJump() => 20,
            GamePacket::UpdateBlock() => 21,
            GamePacket::AddPainting(..) => 22,
            GamePacket::TickSync() => 23,
            GamePacket::LevelSoundEventOld() => 24,
            GamePacket::LevelEvent() => 25,
            GamePacket::BlockEvent() => 26,
            GamePacket::EntityEvent() => 27,
            GamePacket::MobEffect() => 28,
            GamePacket::UpdateAttributes() => 29,
            GamePacket::InventoryTransaction() => 30,
            GamePacket::MobEquipment() => 31,
            GamePacket::MobArmorEquipment() => 32,
            GamePacket::Interact() => 33,
            GamePacket::BlockPickRequest() => 34,
            GamePacket::EntityPickRequest() => 35,
            GamePacket::PlayerAction() => 36,
            GamePacket::HurtArmor() => 38,
            GamePacket::SetEntityData() => 39,
            GamePacket::SetEntityMotion() => 40,
            GamePacket::SetEntityLink() => 41,
            GamePacket::SetHealth() => 42,
            GamePacket::SetSpawnPosition() => 43,
            GamePacket::Animate() => 44,
            GamePacket::Respawn() => 45,
            GamePacket::ContainerOpen(..) => 46,
            GamePacket::ContainerClose() => 47,
            GamePacket::PlayerHotbar() => 48,
            GamePacket::InventoryContent() => 49,
            GamePacket::InventorySlot() => 50,
            GamePacket::ContainerSetData() => 51,
            GamePacket::CraftingData() => 52,
            GamePacket::CraftingEvent() => 53,
            GamePacket::GuiDataPickItem() => 54,
            GamePacket::AdventureSettings() => 55,
            GamePacket::BlockEntityData() => 56,
            GamePacket::PlayerInput() => 57,
            GamePacket::LevelChunk() => 58,
            GamePacket::SetCommandsEnabled() => 59,
            GamePacket::SetDifficulty() => 60,
            GamePacket::ChangeDimension() => 61,
            GamePacket::SetPlayerGameType() => 62,
            GamePacket::PlayerList() => 63,
            GamePacket::SimpleEvent() => 64,
            GamePacket::TelemetryEvent() => 65,
            GamePacket::SpawnExperienceOrb() => 66,
            GamePacket::ClientboundMapItemData() => 67,
            GamePacket::MapInfoRequest() => 68,
            GamePacket::RequestChunkRadius() => 69,
            GamePacket::ChunkRadiusUpdate(..) => 70,
            GamePacket::ItemFrameDropItem() => 71,
            GamePacket::GameRulesChanged(..) => 72,
            GamePacket::Camera(..) => 73,
            GamePacket::BossEvent() => 74,
            GamePacket::ShowCredits() => 75,
            GamePacket::AvailableCommands() => 76,
            GamePacket::CommandRequest() => 77,
            GamePacket::CommandBlockUpdate() => 78,
            GamePacket::CommandOutput() => 79,
            GamePacket::UpdateTrade() => 80,
            GamePacket::UpdateEquipment() => 81,
            GamePacket::ResourcePackDataInfo() => 82,
            GamePacket::ResourcePackChunkData() => 83,
            GamePacket::ResourcePackChunkRequest() => 84,
            GamePacket::Transfer() => 85,
            GamePacket::PlaySound() => 86,
            GamePacket::StopSound() => 87,
            GamePacket::SetTitle() => 88,
            GamePacket::AddBehaviorTree() => 89,
            GamePacket::StructureBlockUpdate() => 90,
            GamePacket::ShowStoreOffer() => 91,
            GamePacket::PurchaseReceipt() => 92,
            GamePacket::PlayerSkin() => 93,
            GamePacket::SubClientLogin() => 94,
            GamePacket::InitiateWebSocketConnection() => 95,
            GamePacket::SetLastHurtBy() => 96,
            GamePacket::BookEdit() => 97,
            GamePacket::NpcRequest() => 98,
            GamePacket::PhotoTransfer() => 99,
            GamePacket::ModalFormRequest(..) => 100,
            GamePacket::ModalFormResponse(..) => 101,
            GamePacket::ServerSettingsRequest(..) => 102,
            GamePacket::ServerSettingsResponse(..) => 103,
            GamePacket::ShowProfile() => 104,
            GamePacket::SetDefaultGameType() => 105,
            GamePacket::RemoveObjective() => 106,
            GamePacket::SetDisplayObjective() => 107,
            GamePacket::SetScore() => 108,
            GamePacket::LabTable() => 109,
            GamePacket::UpdateBlockSynced() => 110,
            GamePacket::MoveEntityDelta() => 111,
            GamePacket::SetScoreboardIdentity() => 112,
            GamePacket::SetLocalPlayerAsInitialized(..) => 113,
            GamePacket::UpdateSoftEnum() => 114,
            GamePacket::NetworkStackLatency() => 115,
            GamePacket::ScriptCustomEvent() => 117,
            GamePacket::SpawnParticleEffect() => 118,
            GamePacket::AvailableEntityIdentifiers() => 119,
            GamePacket::LevelSoundEventV2() => 120,
            GamePacket::NetworkChunkPublisherUpdate() => 121,
            GamePacket::BiomeDefinitionList() => 122,
            GamePacket::LevelSoundEvent() => 123,
            GamePacket::LevelEventGeneric() => 124,
            GamePacket::LecternUpdate() => 125,
            GamePacket::VideoStreamConnect() => 126,
            GamePacket::ClientCacheStatus(..) => 129,
            GamePacket::OnScreenTextureAnimation() => 130,
            GamePacket::MapCreateLockedCopy() => 131,
            GamePacket::StructureTemplateDataExportRequest() => 132,
            GamePacket::StructureTemplateDataExportResponse() => 133,
            GamePacket::UpdateBlockProperties() => 134,
            GamePacket::ClientCacheBlobStatus() => 135,
            GamePacket::ClientCacheMissResponse() => 136,
            GamePacket::NetworkSettings(..) => 143,
            GamePacket::PlayerAuthInput() => 144,
            GamePacket::CreativeContent() => 145,
            GamePacket::PlayerEnchantOptions() => 146,
            GamePacket::ItemStackRequest() => 147,
            GamePacket::ItemStackResponse() => 148,
            GamePacket::UpdatePlayerGameType() => 151,
            GamePacket::EmoteList() => 152,
            GamePacket::DebugInfoPacket() => 155,
            GamePacket::PacketViolationWarning() => 156,
            GamePacket::CorrectPlayerMovePredictionPacket() => 161,
            GamePacket::ItemComponent() => 162,
            GamePacket::FilterTextPacket() => 163,
            GamePacket::UpdateSubChunkBlocksPacket() => 172,
            GamePacket::SubChunkPacket() => 174,
            GamePacket::SubChunkRequestPacket() => 175,
            GamePacket::DimensionData() => 180,
            GamePacket::ToastRequestPacket(..) => 186,
            GamePacket::RequestNetworkSettings(..) => 193,
            GamePacket::AlexEntityAnimation() => 224,
        }
    }

    /// Appends the body of the packet to `stream`. A packet without a shape
    /// is refused as unimplemented, a body that does not fit its length
    /// prefixes as out of range; either way nothing is appended.
    fn serialize_body(&self, stream: &mut Vec<u8>) -> (res: Result<(), CodecError>)
        ensures
            match body_result(self@) {
                Ok(bytes) => res is Ok && final(stream)@ == old(stream)@ + bytes,
                Err(e) => res == Err::<(), CodecError>(e) && final(stream)@ == old(stream)@,
            },
    {
        match self {
            GamePacket::Login(pk) => pk.proto_serialize(stream),
            GamePacket::PlayStatus(pk) => {
                pk.proto_serialize(stream);
                Ok(())
            },
            GamePacket::Disconnect(pk) => pk.proto_serialize(stream),
            GamePacket::TextMessage(pk) => pk.proto_serialize(stream),
            GamePacket::SetTime(pk) => {
                pk.proto_serialize(stream);
                Ok(())
            },
            GamePacket::RemoveEntity(pk) => {
                pk.proto_serialize(stream);
                Ok(())
            },
            GamePacket::AddPainting(pk) => pk.proto_serialize(stream),
            GamePacket::ContainerOpen(pk) => {
                pk.proto_serialize(stream);
                Ok(())
            },
            GamePacket::ChunkRadiusUpdate(pk) => {
                pk.proto_serialize(stream);
                Ok(())
            },
            GamePacket::GameRulesChanged(pk) => pk.proto_serialize(stream),
            GamePacket::Camera(pk) => {
                pk.proto_serialize(stream);
                Ok(())
            },
            GamePacket::ModalFormRequest(pk) => pk.proto_serialize(stream),
            GamePacket::ModalFormResponse(pk) => pk.proto_serialize(stream),
            GamePacket::ServerSettingsRequest(pk) => {
                pk.proto_serialize(stream);
                Ok(())
            },
            GamePacket::ServerSettingsResponse(pk) => pk.proto_serialize(stream),
            GamePacket::SetLocalPlayerAsInitialized(pk) => {
                pk.proto_serialize(stream);
                Ok(())
            },
            GamePacket::ClientCacheStatus(pk) => {
                pk.proto_serialize(stream);
                Ok(())
            },
            GamePacket::NetworkSettings(pk) => {
                pk.proto_serialize(stream);
                Ok(())
            },
            GamePacket::ToastRequestPacket(pk) => pk.proto_serialize(stream),
            GamePacket::RequestNetworkSettings(pk) => {
                pk.proto_serialize(stream);
                Ok(())
            },
            _ => Err(CodecError::UnimplementedPacket(self.packet_id())),
        }
    }

    /// Reads the body of the packet `id` from `stream`.
    fn deserialize_body(id: u16, stream: &mut ByteReader) -> (res: Result<GamePacket, CodecError>)
        ensures
            match parse_body(id, old(stream).remaining(), false) {
                Ok((body, rest)) => res is Ok && res.unwrap()@ == (PacketView { id, body })
                    && final(stream).remaining() == rest,
                Err(e) => res == Err::<GamePacket, CodecError>(e),
            },
    {
        proof {
            reveal(parse_body);
        }
        match id {
            1 => Ok(GamePacket::Login(LoginPacket::proto_deserialize(stream)?)),
            2 => Ok(GamePacket::PlayStatus(PlayStatusPacket::proto_deserialize(stream)?)),
            5 => Ok(GamePacket::Disconnect(DisconnectPacket::proto_deserialize(stream)?)),
            9 => Ok(GamePacket::TextMessage(TextMessagePacket::proto_deserialize(stream)?)),
            10 => Ok(GamePacket::SetTime(SetTimePacket::proto_deserialize(stream)?)),
            14 => Ok(GamePacket::RemoveEntity(RemoveEntityPacket::proto_deserialize(stream)?)),
            22 => Ok(GamePacket::AddPainting(AddPaintingPacket::proto_deserialize(stream)?)),
            46 => Ok(GamePacket::ContainerOpen(ContainerOpenPacket::proto_deserialize(stream)?)),
            70 => Ok(
                GamePacket::ChunkRadiusUpdate(ChunkRadiusUpdatedPacket::proto_deserialize(stream)?),
            ),
            72 => Ok(
                GamePacket::GameRulesChanged(GameRulesChangedPacket::proto_deserialize(stream)?),
            ),
            73 => Ok(GamePacket::Camera(CameraPacket::proto_deserialize(stream)?)),
            100 => Ok(
                GamePacket::ModalFormRequest(ModalFormRequestPacket::proto_deserialize(stream)?),
            ),
            101 => Ok(
                GamePacket::ModalFormResponse(ModalFormResponsePacket::proto_deserialize(stream)?),
            ),
            102 => Ok(
                GamePacket::ServerSettingsRequest(
                    ServerSettingsRequestPacket::proto_deserialize(stream)?,
                ),
            ),
            103 => Ok(
                GamePacket::ServerSettingsResponse(
                    ServerSettingsResponsePacket::proto_deserialize(stream)?,
                ),
            ),
            113 => Ok(
                GamePacket::SetLocalPlayerAsInitialized(
                    SetLocalPlayerAsInitializedPacket::proto_deserialize(stream)?,
                ),
            ),
            129 => Ok(
                GamePacket::ClientCacheStatus(ClientCacheStatusPacket::proto_deserialize(stream)?),
            ),
            143 => Ok(
                GamePacket::NetworkSettings(NetworkSettingsPacket::proto_deserialize(stream)?),
            ),
            186 => Ok(
                GamePacket::ToastRequestPacket(ToastRequestPacket::proto_deserialize(stream)?),
            ),
            193 => Ok(
                GamePacket::RequestNetworkSettings(
                    NetworkSettingsRequestPacket::proto_deserialize(stream)?,
                ),
            ),
            _ => if known_id(id) {
                Err(CodecError::UnimplementedPacket(id))
            } else {
                Err(CodecError::UnknownPacketId(id))
            },
        }
    }

    /// Reads what a frame holds after its length: the header, then the body
    /// of the packet the header names, which must use up the frame.
    fn deserialize_content(content: &[u8]) -> (res: Result<(GamePacket, u8, u8), CodecError>)
        ensures
            match parse_content(content@, false) {
                Ok((v, sender, target)) => res is Ok && res.unwrap().0@ == v && res.unwrap().1
                    == sender && res.unwrap().2 == target,
                Err(e) => res == Err::<(GamePacket, u8, u8), CodecError>(e),
            },
    {
        let mut inner: ByteReader = ByteReader::new(content);
        let header: u64 = read_uvar(&mut inner, Width::W32)?;
        let (id, sender, target) = match unpack_header(header as u32) {
            Some(fields) => fields,
            None => {
                return Err(CodecError::OutOfRange);
            },
        };
        let packet: GamePacket = GamePacket::deserialize_body(id, &mut inner)?;
        if inner.remaining_len() != 0 {
            return Err(CodecError::TrailingBytes);
        }
        Ok((packet, sender, target))
    }

    /// Appends the packet to `stream` as one frame, with both sub-client
    /// fields zero.
    ///
    /// The frame is the length of header and body as an unsigned varint, the
    /// header as an unsigned varint, and the body. Header and body are
    /// staged first, so that the length is known before anything is
    /// written; on failure `stream` is left as it was.
    pub fn pk_serialize(&self, stream: &mut Vec<u8>) -> (res: Result<(), CodecError>)
        ensures
            match encode_result(self@, 0, 0) {
                Ok(frame) => res is Ok && final(stream)@ == old(stream)@ + frame,
                Err(e) => res == Err::<(), CodecError>(e) && final(stream)@ == old(stream)@,
            },
    {
        self.pk_serialize_routed(0, 0, stream)
    }

    /// Appends the packet to `stream` as one frame that carries the given
    /// sub-client sender and target.
    ///
    /// A sender or target above three is refused as out of range, a packet
    /// without a shape as unimplemented, and a body or frame too long for
    /// its length prefix as out of range. On failure `stream` is left as it
    /// was.
    pub fn pk_serialize_routed(&self, sender: u8, target: u8, stream: &mut Vec<u8>) -> (res:
        Result<(), CodecError>)
        ensures
            match encode_result(self@, sender, target) {
                Ok(frame) => res is Ok && final(stream)@ == old(stream)@ + frame,
                Err(e) => res == Err::<(), CodecError>(e) && final(stream)@ == old(stream)@,
            },
    {
        let header: u32 = match pack_header(self.packet_id(), sender, target) {
            Some(header) => header,
            None => {
                return Err(CodecError::OutOfRange);
            },
        };
        let mut pk_stream: Vec<u8> = Vec::new();
        write_uvar(&mut pk_stream, header as u64);
        self.serialize_body(&mut pk_stream)?;
        assert(pk_stream@ =~= frame_content(self@, sender, target));
        if pk_stream.len() > 0xffff_ffff {
            return Err(CodecError::OutOfRange);
        }
        write_uvar(stream, pk_stream.len() as u64);
        write_bytes(stream, pk_stream.as_slice());
        assert(stream@ =~= old(stream)@ + frame_of(
            self.id(),
            sender,
            target,
            body_result(self@).unwrap(),
        ));
        Ok(())
    }

    /// Reads one frame from `stream` and gives the packet it holds with the
    /// sub-client sender and target of its header.
    ///
    /// Where the input holds a whole frame, that is a length and as many
    /// bytes after it as the length says, `stream` moves past the frame,
    /// whether or not what the frame holds could be read. Where it does
    /// not, `stream` stays where it was.
    pub fn pk_deserialize(stream: &mut ByteReader) -> (res: Result<
        (GamePacket, u8, u8),
        CodecError,
    >)
        ensures
            match parse_frame(old(stream).remaining(), false) {
                Ok((v, sender, target)) => res is Ok && res.unwrap().0@ == v && res.unwrap().1
                    == sender && res.unwrap().2 == target,
                Err(e) => res == Err::<(GamePacket, u8, u8), CodecError>(e),
            },
            final(stream).remaining() == frame_rest(old(stream).remaining()),
            final(stream).consumed() + final(stream).remaining().len() == old(stream).consumed()
                + old(stream).remaining().len(),
    {
        let mut ahead: ByteReader = stream.fork();
        let len: u64 = read_uvar(&mut ahead, Width::W32)?;
        if len > ahead.remaining_len() as u64 {
            return Err(CodecError::Truncated);
        }
        let content: &[u8] = ahead.take(len as usize)?;
        let res = GamePacket::deserialize_content(content);
        *stream = ahead;
        res
    }
}

/// What writing the body of a packet gives: its bytes, or why it cannot be
/// written.
pub open spec fn body_result(v: PacketView) -> Result<Seq<u8>, CodecError> {
    if !has_shape(v.id) {
        Err(CodecError::UnimplementedPacket(v.id))
    } else if !body_fits(v.body) {
        Err(CodecError::OutOfRange)
    } else {
        Ok(body_bytes(v.body))
    }
}

/// Reading the body of a packet that can be written gives the body back and
/// leaves what followed, in strict mode too.
pub proof fn lemma_body_round_trip(id: u16, body: BodyView, rest: Seq<u8>, strict: bool)
    requires
        has_shape(id),
        body_matches(id, body),
        body_fits(body),
    ensures
        parse_body(id, body_bytes(body) + rest, strict) == Ok::<(BodyView, Seq<u8>), CodecError>(
            (body, rest),
        ),
{
    reveal(parse_body);
    match body {
        BodyView::Undefined => {},
        BodyView::Login(pk) => {
            pk.lemma_round_trip(rest, strict);
        },
        BodyView::PlayStatus(pk) => {
            pk.lemma_round_trip(rest, strict);
        },
        BodyView::Disconnect(pk) => {
            pk.lemma_round_trip(rest, strict);
        },
        BodyView::TextMessage(pk) => {
            pk.lemma_round_trip(rest, strict);
        },
        BodyView::SetTime(pk) => {
            pk.lemma_round_trip(rest, strict);
        },
        BodyView::RemoveEntity(pk) => {
            pk.lemma_round_trip(rest, strict);
        },
        BodyView::AddPainting(pk) => {
            pk.lemma_round_trip(rest, strict);
        },
        BodyView::ContainerOpen(pk) => {
            pk.lemma_round_trip(rest, strict);
        },
        BodyView::ChunkRadiusUpdate(pk) => {
            pk.lemma_round_trip(rest, strict);
        },
        BodyView::GameRulesChanged(pk) => {
            pk.lemma_round_trip(rest, strict);
        },
        BodyView::Camera(pk) => {
            pk.lemma_round_trip(rest, strict);
        },
        BodyView::ModalFormRequest(pk) => {
            pk.lemma_round_trip(rest, strict);
        },
        BodyView::ModalFormResponse(pk) => {
            pk.lemma_round_trip(rest, strict);
        },
        BodyView::ServerSettingsRequest(pk) => {
            pk.lemma_round_trip(rest, strict);
        },
        BodyView::ServerSettingsResponse(pk) => {
            pk.lemma_round_trip(rest, strict);
        },
        BodyView::SetLocalPlayerAsInitialized(pk) => {
            pk.lemma_round_trip(rest, strict);
        },
        BodyView::ClientCacheStatus(pk) => {
            pk.lemma_round_trip(rest, strict);
        },
        BodyView::NetworkSettings(pk) => {
            pk.lemma_round_trip(rest, strict);
        },
        BodyView::ToastRequestPacket(pk) => {
            pk.lemma_round_trip(rest, strict);
        },
        BodyView::RequestNetworkSettings(pk) => {
            pk.lemma_round_trip(rest, strict);
        },
    }
}

/// A packet with the identifier `id`, where the table assigns `id` to one.
/// Where the packet carries a record, the record is left open.
pub open spec fn packet_of_id(id: u16) -> GamePacket {
    if id == 1 {
        GamePacket::Login(arbitrary())
    } else if id == 2 {
        GamePacket::PlayStatus(arbitrary())
    } else if id == 3 {
        GamePacket::ServerToClientHandshake()
    } else if id == 4 {
        GamePacket::ClientToServerHandshake()
    } else if id == 5 {
        GamePacket::Disconnect(arbitrary())
    } else if id == 6 {
        GamePacket::ResourcePacksInfo()
    } else if id == 7 {
        GamePacket::ResourcePackStack()
    } else if id == 8 {
        GamePacket::ResourcePackClientResponse()
    } else if id == 9 {
        GamePacket::TextMessage(arbitrary())
    } else if id == 10 {
        GamePacket::SetTime(arbitrary())
    } else if id == 11 {
        GamePacket::StartGame()
    } else if id == 12 {
        GamePacket::AddPlayer()
    } else if id == 13 {
        GamePacket::AddEntity()
    } else if id == 14 {
        GamePacket::RemoveEntity(arbitrary())
    } else if id == 15 {
        GamePacket::AddItemEntity()
    } else if id == 16 {
        GamePacket::ServerPlayerPostMovePositionPacket()
    } else if id == 17 {
        GamePacket::TakeItemEntity()
    } else if id == 18 {
        GamePacket::MoveEntity()
    } else if id == 19 {
        GamePacket::MovePlayer()
    } else if id == 20 {
        GamePacket::RiderJump()
    } else if id == 21 {
        GamePacket::UpdateBlock()
    } else if id == 22 {
        GamePacket::AddPainting(arbitrary())
    } else if id == 23 {
        GamePacket::TickSync()
    } else if id == 24 {
        GamePacket::LevelSoundEventOld()
    } else if id == 25 {
        GamePacket::LevelEvent()
    } else if id == 26 {
        GamePacket::BlockEvent()
    } else if id == 27 {
        GamePacket::EntityEvent()
    } else if id == 28 {
        GamePacket::MobEffect()
    } else if id == 29 {
        GamePacket::UpdateAttributes()
    } else if id == 30 {
        GamePacket::InventoryTransaction()
    } else if id == 31 {
        GamePacket::MobEquipment()
    } else if id == 32 {
        GamePacket::MobArmorEquipment()
    } else if id == 33 {
        GamePacket::Interact()
    } else if id == 34 {
        GamePacket::BlockPickRequest()
    } else if id == 35 {
        GamePacket::EntityPickRequest()
    } else if id == 36 {
        GamePacket::PlayerAction()
    } else if id == 38 {
        GamePacket::HurtArmor()
    } else if id == 39 {
        GamePacket::SetEntityData()
    } else if id == 40 {
        GamePacket::SetEntityMotion()
    } else if id == 41 {
        GamePacket::SetEntityLink()
    } else if id == 42 {
        GamePacket::SetHealth()
    } else if id == 43 {
        GamePacket::SetSpawnPosition()
    } else if id == 44 {
        GamePacket::Animate()
    } else if id == 45 {
        GamePacket::Respawn()
    } else if id == 46 {
        GamePacket::ContainerOpen(arbitrary())
    } else if id == 47 {
        GamePacket::ContainerClose()
    } else if id == 48 {
        GamePacket::PlayerHotbar()
    } else if id == 49 {
        GamePacket::InventoryContent()
    } else if id == 50 {
        GamePacket::InventorySlot()
    } else if id == 51 {
        GamePacket::ContainerSetData()
    } else if id == 52 {
        GamePacket::CraftingData()
    } else if id == 53 {
        GamePacket::CraftingEvent()
    } else if id == 54 {
        GamePacket::GuiDataPickItem()
    } else if id == 55 {
        GamePacket::AdventureSettings()
    } else if id == 56 {
        GamePacket::BlockEntityData()
    } else if id == 57 {
        GamePacket::PlayerInput()
    } else if id == 58 {
        GamePacket::LevelChunk()
    } else if id == 59 {
        GamePacket::SetCommandsEnabled()
    } else if id == 60 {
        GamePacket::SetDifficulty()
    } else if id == 61 {
        GamePacket::ChangeDimension()
    } else if id == 62 {
        GamePacket::SetPlayerGameType()
    } else if id == 63 {
        GamePacket::PlayerList()
    } else if id == 64 {
        GamePacket::SimpleEvent()
    } else if id == 65 {
        GamePacket::TelemetryEvent()
    } else if id == 66 {
        GamePacket::SpawnExperienceOrb()
    } else if id == 67 {
        GamePacket::ClientboundMapItemData()
    } else if id == 68 {
        GamePacket::MapInfoRequest()
    } else if id == 69 {
        GamePacket::RequestChunkRadius()
    } else if id == 70 {
        GamePacket::ChunkRadiusUpdate(arbitrary())
    } else if id == 71 {
        GamePacket::ItemFrameDropItem()
    } else if id == 72 {
        GamePacket::GameRulesChanged(arbitrary())
    } else if id == 73 {
        GamePacket::Camera(arbitrary())
    } else if id == 74 {
        GamePacket::BossEvent()
    } else if id == 75 {
        GamePacket::ShowCredits()
    } else if id == 76 {
        GamePacket::AvailableCommands()
    } else if id == 77 {
        GamePacket::CommandRequest()
    } else if id == 78 {
        GamePacket::CommandBlockUpdate()
    } else if id == 79 {
        GamePacket::CommandOutput()
    } else if id == 80 {
        GamePacket::UpdateTrade()
    } else if id == 81 {
        GamePacket::UpdateEquipment()
    } else if id == 82 {
        GamePacket::ResourcePackDataInfo()
    } else if id == 83 {
        GamePacket::ResourcePackChunkData()
    } else if id == 84 {
        GamePacket::ResourcePackChunkRequest()
    } else if id == 85 {
        GamePacket::Transfer()
    } else if id == 86 {
        GamePacket::PlaySound()
    } else if id == 87 {
        GamePacket::StopSound()
    } else if id == 88 {
        GamePacket::SetTitle()
    } else if id == 89 {
        GamePacket::AddBehaviorTree()
    } else if id == 90 {
        GamePacket::StructureBlockUpdate()
    } else if id == 91 {
        GamePacket::ShowStoreOffer()
    } else if id == 92 {
        GamePacket::PurchaseReceipt()
    } else if id == 93 {
        GamePacket::PlayerSkin()
    } else if id == 94 {
        GamePacket::SubClientLogin()
    } else if id == 95 {
        GamePacket::InitiateWebSocketConnection()
    } else if id == 96 {
        GamePacket::SetLastHurtBy()
    } else if id == 97 {
        GamePacket::BookEdit()
    } else if id == 98 {
        GamePacket::NpcRequest()
    } else if id == 99 {
        GamePacket::PhotoTransfer()
    } else if id == 100 {
        GamePacket::ModalFormRequest(arbitrary())
    } else if id == 101 {
        GamePacket::ModalFormResponse(arbitrary())
    } else if id == 102 {
        GamePacket::ServerSettingsRequest(arbitrary())
    } else if id == 103 {
        GamePacket::ServerSettingsResponse(arbitrary())
    } else if id == 104 {
        GamePacket::ShowProfile()
    } else if id == 105 {
        GamePacket::SetDefaultGameType()
    } else if id == 106 {
        GamePacket::RemoveObjective()
    } else if id == 107 {
        GamePacket::SetDisplayObjective()
    } else if id == 108 {
        GamePacket::SetScore()
    } else if id == 109 {
        GamePacket::LabTable()
    } else if id == 110 {
        GamePacket::UpdateBlockSynced()
    } else if id == 111 {
        GamePacket::MoveEntityDelta()
    } else if id == 112 {
        GamePacket::SetScoreboardIdentity()
    } else if id == 113 {
        GamePacket::SetLocalPlayerAsInitialized(arbitrary())
    } else if id == 114 {
        GamePacket::UpdateSoftEnum()
    } else if id == 115 {
        GamePacket::NetworkStackLatency()
    } else if id == 117 {
        GamePacket::ScriptCustomEvent()
    } else if id == 118 {
        GamePacket::SpawnParticleEffect()
    } else if id == 119 {
        GamePacket::AvailableEntityIdentifiers()
    } else if id == 120 {
        GamePacket::LevelSoundEventV2()
    } else if id == 121 {
        GamePacket::NetworkChunkPublisherUpdate()
    } else if id == 122 {
        GamePacket::BiomeDefinitionList()
    } else if id == 123 {
        GamePacket::LevelSoundEvent()
    } else if id == 124 {
        GamePacket::LevelEventGeneric()
    } else if id == 125 {
        GamePacket::LecternUpdate()
    } else if id == 126 {
        GamePacket::VideoStreamConnect()
    } else if id == 129 {
        GamePacket::ClientCacheStatus(arbitrary())
    } else if id == 130 {
        GamePacket::OnScreenTextureAnimation()
    } else if id == 131 {
        GamePacket::MapCreateLockedCopy()
    } else if id == 132 {
        GamePacket::StructureTemplateDataExportRequest()
    } else if id == 133 {
        GamePacket::StructureTemplateDataExportResponse()
    } else if id == 134 {
        GamePacket::UpdateBlockProperties()
    } else if id == 135 {
        GamePacket::ClientCacheBlobStatus()
    } else if id == 136 {
        GamePacket::ClientCacheMissResponse()
    } else if id == 143 {
        GamePacket::NetworkSettings(arbitrary())
    } else if id == 144 {
        GamePacket::PlayerAuthInput()
    } else if id == 145 {
        GamePacket::CreativeContent()
    } else if id == 146 {
        GamePacket::PlayerEnchantOptions()
    } else if id == 147 {
        GamePacket::ItemStackRequest()
    } else if id == 148 {
        GamePacket::ItemStackResponse()
    } else if id == 151 {
        GamePacket::UpdatePlayerGameType()
    } else if id == 152 {
        GamePacket::EmoteList()
    } else if id == 155 {
        GamePacket::DebugInfoPacket()
    } else if id == 156 {
        GamePacket::PacketViolationWarning()
    } else if id == 161 {
        GamePacket::CorrectPlayerMovePredictionPacket()
    } else if id == 162 {
        GamePacket::ItemComponent()
    } else if id == 163 {
        GamePacket::FilterTextPacket()
    } else if id == 172 {
        GamePacket::UpdateSubChunkBlocksPacket()
    } else if id == 174 {
        GamePacket::SubChunkPacket()
    } else if id == 175 {
        GamePacket::SubChunkRequestPacket()
    } else if id == 180 {
        GamePacket::DimensionData()
    } else if id == 186 {
        GamePacket::ToastRequestPacket(arbitrary())
    } else if id == 193 {
        GamePacket::RequestNetworkSettings(arbitrary())
    } else {
        GamePacket::AlexEntityAnimation()
    }
}

/// The known identifiers are those of the packets, and no others.
pub proof fn lemma_known_ids_are_the_table(id: u16)
    ensures
        is_known_id(id) <==> exists|p: GamePacket| p.id() == id,
{
    if is_known_id(id) {
        assert(packet_of_id(id).id() == id);
    }
    if exists|p: GamePacket| p.id() == id {
        let p = choose|p: GamePacket| p.id() == id;
        p.lemma_id();
    }
}

/// An identifier without a shape has no body to read: it is an unknown
/// packet where the table does not assign it, and an unimplemented one where
/// it does, whatever the input.
pub proof fn lemma_body_without_shape(id: u16, b: Seq<u8>, strict: bool)
    requires
        !has_shape(id),
    ensures
        parse_body(id, b, strict) == Err::<(BodyView, Seq<u8>), CodecError>(
            if is_known_id(id) {
                CodecError::UnimplementedPacket(id)
            } else {
                CodecError::UnknownPacketId(id)
            },
        ),
{
    reveal(parse_body);
}

/// Whether the table assigns `id` to a packet.
pub fn known_id(id: u16) -> (known: bool)
    ensures
        known == is_known_id(id),
{
    (1 <= id && id <= 36)
            || (38 <= id && id <= 115)
            || (117 <= id && id <= 126)
            || (129 <= id && id <= 136)
            || (143 <= id && id <= 148)
            || (151 <= id && id <= 152)
            || (155 <= id && id <= 156)
            || (161 <= id && id <= 163)
            || id == 172
            || (174 <= id && id <= 175)
            || id == 180
            || id == 186
            || id == 193
            || id == 224
}

/// Whatever reads as the body of packet `id` in strict mode is the bytes of
/// that body, followed by the bytes left over; the body can be written, `id`
/// has a shape, and the lenient reader agrees.
pub proof fn lemma_body_strict(id: u16, b: Seq<u8>)
    requires
        parse_body(id, b, true) is Ok,
    ensures
        parse_body(id, b, false) == parse_body(id, b, true),
        has_shape(id),
        body_fits(parse_body(id, b, true).unwrap().0),
        b == body_bytes(parse_body(id, b, true).unwrap().0) + parse_body(id, b, true).unwrap().1,
{
    reveal(parse_body);
        if id == 1 {
            LoginPacketView::lemma_strict(b);
        } else if id == 2 {
            PlayStatusPacket::lemma_strict(b);
        } else if id == 5 {
            DisconnectPacketView::lemma_strict(b);
        } else if id == 9 {
            TextMessagePacketView::lemma_strict(b);
        } else if id == 10 {
            SetTimePacket::lemma_strict(b);
        } else if id == 14 {
            RemoveEntityPacket::lemma_strict(b);
        } else if id == 22 {
            AddPaintingPacketView::lemma_strict(b);
        } else if id == 46 {
            ContainerOpenPacket::lemma_strict(b);
        } else if id == 70 {
            ChunkRadiusUpdatedPacket::lemma_strict(b);
        } else if id == 72 {
            GameRulesChangedPacketView::lemma_strict(b);
        } else if id == 73 {
            CameraPacket::lemma_strict(b);
        } else if id == 100 {
            ModalFormRequestPacketView::lemma_strict(b);
        } else if id == 101 {
            ModalFormResponsePacketView::lemma_strict(b);
        } else if id == 102 {
            ServerSettingsRequestPacket::lemma_strict(b);
        } else if id == 103 {
            ServerSettingsResponsePacketView::lemma_strict(b);
        } else if id == 113 {
            SetLocalPlayerAsInitializedPacket::lemma_strict(b);
        } else if id == 129 {
            ClientCacheStatusPacket::lemma_strict(b);
        } else if id == 143 {
            NetworkSettingsPacket::lemma_strict(b);
        } else if id == 186 {
            ToastRequestPacketView::lemma_strict(b);
        } else if id == 193 {
            NetworkSettingsRequestPacket::lemma_strict(b);
        }
}

} // verus!
