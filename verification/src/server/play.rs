pub mod crafting;
pub mod entity;
pub mod metadata;
pub mod nbt;
pub mod player;
pub mod population;
pub mod world;

use vstd::prelude::*;

#[allow(unused_imports)]
use crate::containers::{Json, TOption};
#[allow(unused_imports)]
use crate::data::{
    MooshroomBitFlag, MooshroomCollection, MooshroomCollectionWrite, MooshroomIdentifiable,
    MooshroomUpdatable, MooshroomValue,
};
#[allow(unused_imports)]
use crate::error::MooshroomError;
#[allow(unused_imports)]
use crate::io::{
    MooshroomCommand, MooshroomPacket, MooshroomReadable, MooshroomRoundTrip, MooshroomWritable,
};
#[allow(unused_imports)]
use crate::primitives::{
    be_dec, be_enc, lemma_be_dec_bound, lemma_be_enc_len, lemma_be_round_trip,
    lemma_pow256_values, sig_to_un,
    str_eq, un_to_sig, F32Bits, F64Bits, Identifier, Position, Uuid, Vec3,
};
#[allow(unused_imports)]
use crate::reader::Reader;
#[allow(unused_imports)]
use crate::varint::{
    lemma_varint_round_trip, read_varint, varint_dec, varint_enc, write_varint, VarInt, VarLong,
};
#[allow(unused_imports)]
use vstd::string::StringExecFns;
#[allow(unused_imports)]
use self::crafting::{CloseContainer, OpenHorseScreen, SetContainerContent,
    SetContainerContentView, SetContainerSlot, SetContainerSlotView};
#[allow(unused_imports)]
use self::entity::SpawnExperienceOrb;
#[allow(unused_imports)]
use self::metadata::{Commands, CommandsView, KeepAlive, PluginMessage, PluginMessageView,
    ServerData, ServerDataView, SetEntityMetadata, UpdateRecipeBook, UpdateRecipies,
    UpdateRecipiesView, UpdateTags, UpdateTagsView};
#[allow(unused_imports)]
use self::player::{CombatDeath, CombatDeathView, Disconnect, DisconnectView, EndCombat,
    EnterCombat, PlayerAbilities, Respawn, RespawnView, SetDefaultSpawnPosition, SetHeldItem,
    SetExperience, SetHealth, SynchronizePlayerPosition};
#[allow(unused_imports)]
use self::population::{EntityAnimation, EntityEffect, EntityEffectView, EntityEvent,
    LinkEntities, PickUpItem, PlayerInfo, PlayerInfoView, RemoveEntities, RemoveEntitiesView,
    SetEntityVelocity, SetEquipment, SetEquipmentView, SetHeadRotation, SetPassengers,
    SetPassengersView, SpawnEntity, SpawnPlayer, TeleportEntity, UpdateAttributes,
    UpdateAttributesView, UpdateEntityPosition, UpdateEntityPositionAndRotation,
    UpdateEntityRotation};
#[allow(unused_imports)]
use self::world::{BlockUpdate, ChangeDifficulty, ChunkData, ChunkDataView, FeatureFlags,
    FeatureFlagsView, InitializeWorldBorder, LoginPlay, LoginPlayView, Particle,
    PlayerChatMessage, PlayerChatMessageView, SetCenterChunk, SetRenderDistance,
    SetSimulationDistance, SoundEffect, SystemChatMessage, SystemChatMessageView, UnloadChunk,
    UpdateLight, UpdateSectionBlocks, UpdateSectionBlocksView, UpdateTime, WorldEvent};

verus! {

/// Every inbound play-stage packet this client understands, keyed by
/// the frame's packet identifier.
#[derive(Debug, PartialEq)]
pub enum PlayStage {
    SpawnEntity(SpawnEntity),
    SpawnExperienceOrb(SpawnExperienceOrb),
    SpawnPlayer(SpawnPlayer),
    EntityAnimation(EntityAnimation),
    BlockUpdate(BlockUpdate),
    ChangeDifficulty(ChangeDifficulty),
    Commands(Commands),
    CloseContainer(CloseContainer),
    SetContainerContent(SetContainerContent),
    SetContainerSlot(SetContainerSlot),
    PluginMessage(PluginMessage),
    Disconnect(Disconnect),
    EntityEvent(EntityEvent),
    UnloadChunk(UnloadChunk),
    OpenHorseScreen(OpenHorseScreen),
    InitializeWorldBorder(InitializeWorldBorder),
    KeepAlive(KeepAlive),
    ChunkData(ChunkData),
    WorldEvent(WorldEvent),
    Particle(Particle),
    UpdateLight(UpdateLight),
    Login(LoginPlay),
    UpdateEntityPosition(UpdateEntityPosition),
    UpdateEntityPositionAndRotation(UpdateEntityPositionAndRotation),
    UpdateEntityRotation(UpdateEntityRotation),
    PlayerAbilities(PlayerAbilities),
    PlayerChatMessage(PlayerChatMessage),
    EndCombat(EndCombat),
    EnterCombat(EnterCombat),
    CombatDeath(CombatDeath),
    PlayerInfo(PlayerInfo),
    SynchronizePlayerPosition(SynchronizePlayerPosition),
    UpdateRecipeBook(UpdateRecipeBook),
    RemoveEntities(RemoveEntities),
    Respawn(Respawn),
    SetHeadRotation(SetHeadRotation),
    UpdateSectionBlocks(UpdateSectionBlocks),
    ServerData(ServerData),
    SetHeldItem(SetHeldItem),
    SetCenterChunk(SetCenterChunk),
    SetRenderDistance(SetRenderDistance),
    SetDefaultSpawnPosition(SetDefaultSpawnPosition),
    SetEntityMetadata(SetEntityMetadata),
    LinkEntities(LinkEntities),
    SetEntityVelocity(SetEntityVelocity),
    SetEquipment(SetEquipment),
    SetExperience(SetExperience),
    SetHealth(SetHealth),
    SetPassengers(SetPassengers),
    SetSimulationDistance(SetSimulationDistance),
    UpdateTime(UpdateTime),
    SoundEffect(SoundEffect),
    SystemChatMessage(SystemChatMessage),
    PickUpItem(PickUpItem),
    TeleportEntity(TeleportEntity),
    FeatureFlags(FeatureFlags),
    UpdateAttributes(UpdateAttributes),
    EntityEffect(EntityEffect),
    UpdateRecipies(UpdateRecipies),
    UpdateTags(UpdateTags),
}

/// The mathematical value of a `PlayStage`, for contracts.
pub enum PlayStageView {
    SpawnEntity(SpawnEntity),
    SpawnExperienceOrb(SpawnExperienceOrb),
    SpawnPlayer(SpawnPlayer),
    EntityAnimation(EntityAnimation),
    BlockUpdate(BlockUpdate),
    ChangeDifficulty(ChangeDifficulty),
    Commands(CommandsView),
    CloseContainer(CloseContainer),
    SetContainerContent(SetContainerContentView),
    SetContainerSlot(SetContainerSlotView),
    PluginMessage(PluginMessageView),
    Disconnect(DisconnectView),
    EntityEvent(EntityEvent),
    UnloadChunk(UnloadChunk),
    OpenHorseScreen(OpenHorseScreen),
    InitializeWorldBorder(InitializeWorldBorder),
    KeepAlive(KeepAlive),
    ChunkData(ChunkDataView),
    WorldEvent(WorldEvent),
    Particle(Particle),
    UpdateLight(UpdateLight),
    Login(LoginPlayView),
    UpdateEntityPosition(UpdateEntityPosition),
    UpdateEntityPositionAndRotation(UpdateEntityPositionAndRotation),
    UpdateEntityRotation(UpdateEntityRotation),
    PlayerAbilities(PlayerAbilities),
    PlayerChatMessage(PlayerChatMessageView),
    EndCombat(EndCombat),
    EnterCombat(EnterCombat),
    CombatDeath(CombatDeathView),
    PlayerInfo(PlayerInfoView),
    SynchronizePlayerPosition(SynchronizePlayerPosition),
    UpdateRecipeBook(UpdateRecipeBook),
    RemoveEntities(RemoveEntitiesView),
    Respawn(RespawnView),
    SetHeadRotation(SetHeadRotation),
    UpdateSectionBlocks(UpdateSectionBlocksView),
    ServerData(ServerDataView),
    SetHeldItem(SetHeldItem),
    SetCenterChunk(SetCenterChunk),
    SetRenderDistance(SetRenderDistance),
    SetDefaultSpawnPosition(SetDefaultSpawnPosition),
    SetEntityMetadata(SetEntityMetadata),
    LinkEntities(LinkEntities),
    SetEntityVelocity(SetEntityVelocity),
    SetEquipment(SetEquipmentView),
    SetExperience(SetExperience),
    SetHealth(SetHealth),
    SetPassengers(SetPassengersView),
    SetSimulationDistance(SetSimulationDistance),
    UpdateTime(UpdateTime),
    SoundEffect(SoundEffect),
    SystemChatMessage(SystemChatMessageView),
    PickUpItem(PickUpItem),
    TeleportEntity(TeleportEntity),
    FeatureFlags(FeatureFlagsView),
    UpdateAttributes(UpdateAttributesView),
    EntityEffect(EntityEffectView),
    UpdateRecipies(UpdateRecipiesView),
    UpdateTags(UpdateTagsView),
}

impl DeepView for PlayStage {
    type V = PlayStageView;

    open spec fn deep_view(&self) -> PlayStageView {
        match self {
            PlayStage::SpawnEntity(v) => PlayStageView::SpawnEntity(v.deep_view()),
            PlayStage::SpawnExperienceOrb(v) => PlayStageView::SpawnExperienceOrb(v.deep_view()),
            PlayStage::SpawnPlayer(v) => PlayStageView::SpawnPlayer(v.deep_view()),
            PlayStage::EntityAnimation(v) => PlayStageView::EntityAnimation(v.deep_view()),
            PlayStage::BlockUpdate(v) => PlayStageView::BlockUpdate(v.deep_view()),
            PlayStage::ChangeDifficulty(v) => PlayStageView::ChangeDifficulty(v.deep_view()),
            PlayStage::Commands(v) => PlayStageView::Commands(v.deep_view()),
            PlayStage::CloseContainer(v) => PlayStageView::CloseContainer(v.deep_view()),
            PlayStage::SetContainerContent(v) => PlayStageView::SetContainerContent(v.deep_view()),
            PlayStage::SetContainerSlot(v) => PlayStageView::SetContainerSlot(v.deep_view()),
            PlayStage::PluginMessage(v) => PlayStageView::PluginMessage(v.deep_view()),
            PlayStage::Disconnect(v) => PlayStageView::Disconnect(v.deep_view()),
            PlayStage::EntityEvent(v) => PlayStageView::EntityEvent(v.deep_view()),
            PlayStage::UnloadChunk(v) => PlayStageView::UnloadChunk(v.deep_view()),
            PlayStage::OpenHorseScreen(v) => PlayStageView::OpenHorseScreen(v.deep_view()),
            PlayStage::InitializeWorldBorder(v) => PlayStageView::InitializeWorldBorder(v.deep_view()),
            PlayStage::KeepAlive(v) => PlayStageView::KeepAlive(v.deep_view()),
            PlayStage::ChunkData(v) => PlayStageView::ChunkData(v.deep_view()),
            PlayStage::WorldEvent(v) => PlayStageView::WorldEvent(v.deep_view()),
            PlayStage::Particle(v) => PlayStageView::Particle(v.deep_view()),
            PlayStage::UpdateLight(v) => PlayStageView::UpdateLight(v.deep_view()),
            PlayStage::Login(v) => PlayStageView::Login(v.deep_view()),
            PlayStage::UpdateEntityPosition(v) => PlayStageView::UpdateEntityPosition(v.deep_view()),
            PlayStage::UpdateEntityPositionAndRotation(v) => PlayStageView::UpdateEntityPositionAndRotation(v.deep_view()),
            PlayStage::UpdateEntityRotation(v) => PlayStageView::UpdateEntityRotation(v.deep_view()),
            PlayStage::PlayerAbilities(v) => PlayStageView::PlayerAbilities(v.deep_view()),
            PlayStage::PlayerChatMessage(v) => PlayStageView::PlayerChatMessage(v.deep_view()),
            PlayStage::EndCombat(v) => PlayStageView::EndCombat(v.deep_view()),
            PlayStage::EnterCombat(v) => PlayStageView::EnterCombat(v.deep_view()),
            PlayStage::CombatDeath(v) => PlayStageView::CombatDeath(v.deep_view()),
            PlayStage::PlayerInfo(v) => PlayStageView::PlayerInfo(v.deep_view()),
            PlayStage::SynchronizePlayerPosition(v) => PlayStageView::SynchronizePlayerPosition(v.deep_view()),
            PlayStage::UpdateRecipeBook(v) => PlayStageView::UpdateRecipeBook(v.deep_view()),
            PlayStage::RemoveEntities(v) => PlayStageView::RemoveEntities(v.deep_view()),
            PlayStage::Respawn(v) => PlayStageView::Respawn(v.deep_view()),
            PlayStage::SetHeadRotation(v) => PlayStageView::SetHeadRotation(v.deep_view()),
            PlayStage::UpdateSectionBlocks(v) => PlayStageView::UpdateSectionBlocks(v.deep_view()),
            PlayStage::ServerData(v) => PlayStageView::ServerData(v.deep_view()),
            PlayStage::SetHeldItem(v) => PlayStageView::SetHeldItem(v.deep_view()),
            PlayStage::SetCenterChunk(v) => PlayStageView::SetCenterChunk(v.deep_view()),
            PlayStage::SetRenderDistance(v) => PlayStageView::SetRenderDistance(v.deep_view()),
            PlayStage::SetDefaultSpawnPosition(v) => PlayStageView::SetDefaultSpawnPosition(v.deep_view()),
            PlayStage::SetEntityMetadata(v) => PlayStageView::SetEntityMetadata(v.deep_view()),
            PlayStage::LinkEntities(v) => PlayStageView::LinkEntities(v.deep_view()),
            PlayStage::SetEntityVelocity(v) => PlayStageView::SetEntityVelocity(v.deep_view()),
            PlayStage::SetEquipment(v) => PlayStageView::SetEquipment(v.deep_view()),
            PlayStage::SetExperience(v) => PlayStageView::SetExperience(v.deep_view()),
            PlayStage::SetHealth(v) => PlayStageView::SetHealth(v.deep_view()),
            PlayStage::SetPassengers(v) => PlayStageView::SetPassengers(v.deep_view()),
            PlayStage::SetSimulationDistance(v) => PlayStageView::SetSimulationDistance(v.deep_view()),
            PlayStage::UpdateTime(v) => PlayStageView::UpdateTime(v.deep_view()),
            PlayStage::SoundEffect(v) => PlayStageView::SoundEffect(v.deep_view()),
            PlayStage::SystemChatMessage(v) => PlayStageView::SystemChatMessage(v.deep_view()),
            PlayStage::PickUpItem(v) => PlayStageView::PickUpItem(v.deep_view()),
            PlayStage::TeleportEntity(v) => PlayStageView::TeleportEntity(v.deep_view()),
            PlayStage::FeatureFlags(v) => PlayStageView::FeatureFlags(v.deep_view()),
            PlayStage::UpdateAttributes(v) => PlayStageView::UpdateAttributes(v.deep_view()),
            PlayStage::EntityEffect(v) => PlayStageView::EntityEffect(v.deep_view()),
            PlayStage::UpdateRecipies(v) => PlayStageView::UpdateRecipies(v.deep_view()),
            PlayStage::UpdateTags(v) => PlayStageView::UpdateTags(v.deep_view()),
        }
    }
}

impl MooshroomCollection for PlayStage {
    open spec fn spec_in_collection(id: i32) -> bool {
        id == 0 || id == 1 || id == 2 || id == 3 || id == 9 || id == 11 || id == 15 || id == 16 || id == 17 || id == 19 || id == 22 || id == 25 || id == 26 || id == 27 || id == 29 || id == 31 || id == 32 || id == 33 || id == 34 || id == 35 || id == 36 || id == 37 || id == 40 || id == 41 || id == 42 || id == 49 || id == 51 || id == 52 || id == 53 || id == 54 || id == 55 || id == 57 || id == 58 || id == 59 || id == 62 || id == 63 || id == 64 || id == 66 || id == 74 || id == 75 || id == 76 || id == 77 || id == 80 || id == 81 || id == 82 || id == 83 || id == 84 || id == 85 || id == 87 || id == 90 || id == 92 || id == 96 || id == 98 || id == 101 || id == 102 || id == 103 || id == 104 || id == 105 || id == 106 || id == 107
    }

    open spec fn dec_one_of(id: i32, s: Seq<u8>) -> Option<(PlayStageView, int)> {
        if id == 0 {
            match <SpawnEntity as MooshroomReadable>::dec(s) {
                Some((v, n)) => Some((PlayStageView::SpawnEntity(v), n)),
                None => None,
            }
        } else if id == 1 {
            match <SpawnExperienceOrb as MooshroomReadable>::dec(s) {
                Some((v, n)) => Some((PlayStageView::SpawnExperienceOrb(v), n)),
                None => None,
            }
        } else if id == 2 {
            match <SpawnPlayer as MooshroomReadable>::dec(s) {
                Some((v, n)) => Some((PlayStageView::SpawnPlayer(v), n)),
                None => None,
            }
        } else if id == 3 {
            match <EntityAnimation as MooshroomReadable>::dec(s) {
                Some((v, n)) => Some((PlayStageView::EntityAnimation(v), n)),
                None => None,
            }
        } else if id == 9 {
            match <BlockUpdate as MooshroomReadable>::dec(s) {
                Some((v, n)) => Some((PlayStageView::BlockUpdate(v), n)),
                None => None,
            }
        } else if id == 11 {
            match <ChangeDifficulty as MooshroomReadable>::dec(s) {
                Some((v, n)) => Some((PlayStageView::ChangeDifficulty(v), n)),
                None => None,
            }
        } else if id == 15 {
            match <Commands as MooshroomReadable>::dec(s) {
                Some((v, n)) => Some((PlayStageView::Commands(v), n)),
                None => None,
            }
        } else if id == 16 {
            match <CloseContainer as MooshroomReadable>::dec(s) {
                Some((v, n)) => Some((PlayStageView::CloseContainer(v), n)),
                None => None,
            }
        } else if id == 17 {
            match <SetContainerContent as MooshroomReadable>::dec(s) {
                Some((v, n)) => Some((PlayStageView::SetContainerContent(v), n)),
                None => None,
            }
        } else if id == 19 {
            match <SetContainerSlot as MooshroomReadable>::dec(s) {
                Some((v, n)) => Some((PlayStageView::SetContainerSlot(v), n)),
                None => None,
            }
        } else if id == 22 {
            match <PluginMessage as MooshroomReadable>::dec(s) {
                Some((v, n)) => Some((PlayStageView::PluginMessage(v), n)),
                None => None,
            }
        } else if id == 25 {
            match <Disconnect as MooshroomReadable>::dec(s) {
                Some((v, n)) => Some((PlayStageView::Disconnect(v), n)),
                None => None,
            }
        } else if id == 26 {
            match <EntityEvent as MooshroomReadable>::dec(s) {
                Some((v, n)) => Some((PlayStageView::EntityEvent(v), n)),
                None => None,
            }
        } else if id == 27 {
            match <UnloadChunk as MooshroomReadable>::dec(s) {
                Some((v, n)) => Some((PlayStageView::UnloadChunk(v), n)),
                None => None,
            }
        } else if id == 29 {
            match <OpenHorseScreen as MooshroomReadable>::dec(s) {
                Some((v, n)) => Some((PlayStageView::OpenHorseScreen(v), n)),
                None => None,
            }
        } else if id == 31 {
            match <InitializeWorldBorder as MooshroomReadable>::dec(s) {
                Some((v, n)) => Some((PlayStageView::InitializeWorldBorder(v), n)),
                None => None,
            }
        } else if id == 32 {
            match <KeepAlive as MooshroomReadable>::dec(s) {
                Some((v, n)) => Some((PlayStageView::KeepAlive(v), n)),
                None => None,
            }
        } else if id == 33 {
            match <ChunkData as MooshroomReadable>::dec(s) {
                Some((v, n)) => Some((PlayStageView::ChunkData(v), n)),
                None => None,
            }
        } else if id == 34 {
            match <WorldEvent as MooshroomReadable>::dec(s) {
                Some((v, n)) => Some((PlayStageView::WorldEvent(v), n)),
                None => None,
            }
        } else if id == 35 {
            match <Particle as MooshroomReadable>::dec(s) {
                Some((v, n)) => Some((PlayStageView::Particle(v), n)),
                None => None,
            }
        } else if id == 36 {
            match <UpdateLight as MooshroomReadable>::dec(s) {
                Some((v, n)) => Some((PlayStageView::UpdateLight(v), n)),
                None => None,
            }
        } else if id == 37 {
            match <LoginPlay as MooshroomReadable>::dec(s) {
                Some((v, n)) => Some((PlayStageView::Login(v), n)),
                None => None,
            }
        } else if id == 40 {
            match <UpdateEntityPosition as MooshroomReadable>::dec(s) {
                Some((v, n)) => Some((PlayStageView::UpdateEntityPosition(v), n)),
                None => None,
            }
        } else if id == 41 {
            match <UpdateEntityPositionAndRotation as MooshroomReadable>::dec(s) {
                Some((v, n)) => Some((PlayStageView::UpdateEntityPositionAndRotation(v), n)),
                None => None,
            }
        } else if id == 42 {
            match <UpdateEntityRotation as MooshroomReadable>::dec(s) {
                Some((v, n)) => Some((PlayStageView::UpdateEntityRotation(v), n)),
                None => None,
            }
        } else if id == 49 {
            match <PlayerAbilities as MooshroomReadable>::dec(s) {
                Some((v, n)) => Some((PlayStageView::PlayerAbilities(v), n)),
                None => None,
            }
        } else if id == 51 {
            match <PlayerChatMessage as MooshroomReadable>::dec(s) {
                Some((v, n)) => Some((PlayStageView::PlayerChatMessage(v), n)),
                None => None,
            }
        } else if id == 52 {
            match <EndCombat as MooshroomReadable>::dec(s) {
                Some((v, n)) => Some((PlayStageView::EndCombat(v), n)),
                None => None,
            }
        } else if id == 53 {
            match <EnterCombat as MooshroomReadable>::dec(s) {
                Some((v, n)) => Some((PlayStageView::EnterCombat(v), n)),
                None => None,
            }
        } else if id == 54 {
            match <CombatDeath as MooshroomReadable>::dec(s) {
                Some((v, n)) => Some((PlayStageView::CombatDeath(v), n)),
                None => None,
            }
        } else if id == 55 {
            match <PlayerInfo as MooshroomReadable>::dec(s) {
                Some((v, n)) => Some((PlayStageView::PlayerInfo(v), n)),
                None => None,
            }
        } else if id == 57 {
            match <SynchronizePlayerPosition as MooshroomReadable>::dec(s) {
                Some((v, n)) => Some((PlayStageView::SynchronizePlayerPosition(v), n)),
                None => None,
            }
        } else if id == 58 {
            match <UpdateRecipeBook as MooshroomReadable>::dec(s) {
                Some((v, n)) => Some((PlayStageView::UpdateRecipeBook(v), n)),
                None => None,
            }
        } else if id == 59 {
            match <RemoveEntities as MooshroomReadable>::dec(s) {
                Some((v, n)) => Some((PlayStageView::RemoveEntities(v), n)),
                None => None,
            }
        } else if id == 62 {
            match <Respawn as MooshroomReadable>::dec(s) {
                Some((v, n)) => Some((PlayStageView::Respawn(v), n)),
                None => None,
            }
        } else if id == 63 {
            match <SetHeadRotation as MooshroomReadable>::dec(s) {
                Some((v, n)) => Some((PlayStageView::SetHeadRotation(v), n)),
                None => None,
            }
        } else if id == 64 {
            match <UpdateSectionBlocks as MooshroomReadable>::dec(s) {
                Some((v, n)) => Some((PlayStageView::UpdateSectionBlocks(v), n)),
                None => None,
            }
        } else if id == 66 {
            match <ServerData as MooshroomReadable>::dec(s) {
                Some((v, n)) => Some((PlayStageView::ServerData(v), n)),
                None => None,
            }
        } else if id == 74 {
            match <SetHeldItem as MooshroomReadable>::dec(s) {
                Some((v, n)) => Some((PlayStageView::SetHeldItem(v), n)),
                None => None,
            }
        } else if id == 75 {
            match <SetCenterChunk as MooshroomReadable>::dec(s) {
                Some((v, n)) => Some((PlayStageView::SetCenterChunk(v), n)),
                None => None,
            }
        } else if id == 76 {
            match <SetRenderDistance as MooshroomReadable>::dec(s) {
                Some((v, n)) => Some((PlayStageView::SetRenderDistance(v), n)),
                None => None,
            }
        } else if id == 77 {
            match <SetDefaultSpawnPosition as MooshroomReadable>::dec(s) {
                Some((v, n)) => Some((PlayStageView::SetDefaultSpawnPosition(v), n)),
                None => None,
            }
        } else if id == 80 {
            match <SetEntityMetadata as MooshroomReadable>::dec(s) {
                Some((v, n)) => Some((PlayStageView::SetEntityMetadata(v), n)),
                None => None,
            }
        } else if id == 81 {
            match <LinkEntities as MooshroomReadable>::dec(s) {
                Some((v, n)) => Some((PlayStageView::LinkEntities(v), n)),
                None => None,
            }
        } else if id == 82 {
            match <SetEntityVelocity as MooshroomReadable>::dec(s) {
                Some((v, n)) => Some((PlayStageView::SetEntityVelocity(v), n)),
                None => None,
            }
        } else if id == 83 {
            match <SetEquipment as MooshroomReadable>::dec(s) {
                Some((v, n)) => Some((PlayStageView::SetEquipment(v), n)),
                None => None,
            }
        } else if id == 84 {
            match <SetExperience as MooshroomReadable>::dec(s) {
                Some((v, n)) => Some((PlayStageView::SetExperience(v), n)),
                None => None,
            }
        } else if id == 85 {
            match <SetHealth as MooshroomReadable>::dec(s) {
                Some((v, n)) => Some((PlayStageView::SetHealth(v), n)),
                None => None,
            }
        } else if id == 87 {
            match <SetPassengers as MooshroomReadable>::dec(s) {
                Some((v, n)) => Some((PlayStageView::SetPassengers(v), n)),
                None => None,
            }
        } else if id == 90 {
            match <SetSimulationDistance as MooshroomReadable>::dec(s) {
                Some((v, n)) => Some((PlayStageView::SetSimulationDistance(v), n)),
                None => None,
            }
        } else if id == 92 {
            match <UpdateTime as MooshroomReadable>::dec(s) {
                Some((v, n)) => Some((PlayStageView::UpdateTime(v), n)),
                None => None,
            }
        } else if id == 96 {
            match <SoundEffect as MooshroomReadable>::dec(s) {
                Some((v, n)) => Some((PlayStageView::SoundEffect(v), n)),
                None => None,
            }
        } else if id == 98 {
            match <SystemChatMessage as MooshroomReadable>::dec(s) {
                Some((v, n)) => Some((PlayStageView::SystemChatMessage(v), n)),
                None => None,
            }
        } else if id == 101 {
            match <PickUpItem as MooshroomReadable>::dec(s) {
                Some((v, n)) => Some((PlayStageView::PickUpItem(v), n)),
                None => None,
            }
        } else if id == 102 {
            match <TeleportEntity as MooshroomReadable>::dec(s) {
                Some((v, n)) => Some((PlayStageView::TeleportEntity(v), n)),
                None => None,
            }
        } else if id == 103 {
            match <FeatureFlags as MooshroomReadable>::dec(s) {
                Some((v, n)) => Some((PlayStageView::FeatureFlags(v), n)),
                None => None,
            }
        } else if id == 104 {
            match <UpdateAttributes as MooshroomReadable>::dec(s) {
                Some((v, n)) => Some((PlayStageView::UpdateAttributes(v), n)),
                None => None,
            }
        } else if id == 105 {
            match <EntityEffect as MooshroomReadable>::dec(s) {
                Some((v, n)) => Some((PlayStageView::EntityEffect(v), n)),
                None => None,
            }
        } else if id == 106 {
            match <UpdateRecipies as MooshroomReadable>::dec(s) {
                Some((v, n)) => Some((PlayStageView::UpdateRecipies(v), n)),
                None => None,
            }
        } else if id == 107 {
            match <UpdateTags as MooshroomReadable>::dec(s) {
                Some((v, n)) => Some((PlayStageView::UpdateTags(v), n)),
                None => None,
            }
        } else {
            None
        }
    }

    fn read_one_of(id: i32, r: &mut Reader) -> (res: Result<Self, MooshroomError>) {
        if id <= 25 {
            PlayStage::read_dispatch_0(id, r)
        } else if id <= 41 {
            PlayStage::read_dispatch_1(id, r)
        } else if id <= 63 {
            PlayStage::read_dispatch_2(id, r)
        } else if id <= 85 {
            PlayStage::read_dispatch_3(id, r)
        } else if id <= 107 {
            PlayStage::read_dispatch_4(id, r)
        } else {
            Err(MooshroomError::NotInCollection(id))
        }
    }
}

impl PlayStage {
    #[verifier::rlimit(100)]
    fn read_dispatch_0(id: i32, r: &mut Reader) -> (res: Result<Self, MooshroomError>)
        requires
            old(r).wf(),
            id <= 25,
        ensures
            final(r).wf(),
            final(r).data() == old(r).data(),
            final(r).pos() >= old(r).pos(),
            match res {
                Ok(v) => Self::spec_in_collection(id) && Self::dec_one_of(
                    id,
                    old(r).remaining(),
                ) == Some((v.deep_view(), final(r).pos() - old(r).pos())),
                Err(e) => {
                    &&& Self::spec_in_collection(id) ==> Self::dec_one_of(
                        id,
                        old(r).remaining(),
                    ) is None
                    &&& !Self::spec_in_collection(id) ==> (
                    e matches MooshroomError::NotInCollection(i) && i == id)
                },
            },
    {
        if id == 0 {
            match <SpawnEntity as MooshroomReadable>::read(r) {
                Ok(v) => Ok(PlayStage::SpawnEntity(v)),
                Err(e) => Err(e),
            }
        } else if id == 1 {
            match <SpawnExperienceOrb as MooshroomReadable>::read(r) {
                Ok(v) => Ok(PlayStage::SpawnExperienceOrb(v)),
                Err(e) => Err(e),
            }
        } else if id == 2 {
            match <SpawnPlayer as MooshroomReadable>::read(r) {
                Ok(v) => Ok(PlayStage::SpawnPlayer(v)),
                Err(e) => Err(e),
            }
        } else if id == 3 {
            match <EntityAnimation as MooshroomReadable>::read(r) {
                Ok(v) => Ok(PlayStage::EntityAnimation(v)),
                Err(e) => Err(e),
            }
        } else if id == 9 {
            match <BlockUpdate as MooshroomReadable>::read(r) {
                Ok(v) => Ok(PlayStage::BlockUpdate(v)),
                Err(e) => Err(e),
            }
        } else if id == 11 {
            match <ChangeDifficulty as MooshroomReadable>::read(r) {
                Ok(v) => Ok(PlayStage::ChangeDifficulty(v)),
                Err(e) => Err(e),
            }
        } else if id == 15 {
            match <Commands as MooshroomReadable>::read(r) {
                Ok(v) => Ok(PlayStage::Commands(v)),
                Err(e) => Err(e),
            }
        } else if id == 16 {
            match <CloseContainer as MooshroomReadable>::read(r) {
                Ok(v) => Ok(PlayStage::CloseContainer(v)),
                Err(e) => Err(e),
            }
        } else if id == 17 {
            match <SetContainerContent as MooshroomReadable>::read(r) {
                Ok(v) => Ok(PlayStage::SetContainerContent(v)),
                Err(e) => Err(e),
            }
        } else if id == 19 {
            match <SetContainerSlot as MooshroomReadable>::read(r) {
                Ok(v) => Ok(PlayStage::SetContainerSlot(v)),
                Err(e) => Err(e),
            }
        } else if id == 22 {
            match <PluginMessage as MooshroomReadable>::read(r) {
                Ok(v) => Ok(PlayStage::PluginMessage(v)),
                Err(e) => Err(e),
            }
        } else if id == 25 {
            match <Disconnect as MooshroomReadable>::read(r) {
                Ok(v) => Ok(PlayStage::Disconnect(v)),
                Err(e) => Err(e),
            }
        } else {
            Err(MooshroomError::NotInCollection(id))
        }
    }

    #[verifier::rlimit(100)]
    fn read_dispatch_1(id: i32, r: &mut Reader) -> (res: Result<Self, MooshroomError>)
        requires
            old(r).wf(),
            25 < id,
            id <= 41,
        ensures
            final(r).wf(),
            final(r).data() == old(r).data(),
            final(r).pos() >= old(r).pos(),
            match res {
                Ok(v) => Self::spec_in_collection(id) && Self::dec_one_of(
                    id,
                    old(r).remaining(),
                ) == Some((v.deep_view(), final(r).pos() - old(r).pos())),
                Err(e) => {
                    &&& Self::spec_in_collection(id) ==> Self::dec_one_of(
                        id,
                        old(r).remaining(),
                    ) is None
                    &&& !Self::spec_in_collection(id) ==> (
                    e matches MooshroomError::NotInCollection(i) && i == id)
                },
            },
    {
        if id == 26 {
            match <EntityEvent as MooshroomReadable>::read(r) {
                Ok(v) => Ok(PlayStage::EntityEvent(v)),
                Err(e) => Err(e),
            }
        } else if id == 27 {
            match <UnloadChunk as MooshroomReadable>::read(r) {
                Ok(v) => Ok(PlayStage::UnloadChunk(v)),
                Err(e) => Err(e),
            }
        } else if id == 29 {
            match <OpenHorseScreen as MooshroomReadable>::read(r) {
                Ok(v) => Ok(PlayStage::OpenHorseScreen(v)),
                Err(e) => Err(e),
            }
        } else if id == 31 {
            match <InitializeWorldBorder as MooshroomReadable>::read(r) {
                Ok(v) => Ok(PlayStage::InitializeWorldBorder(v)),
                Err(e) => Err(e),
            }
        } else if id == 32 {
            match <KeepAlive as MooshroomReadable>::read(r) {
                Ok(v) => Ok(PlayStage::KeepAlive(v)),
                Err(e) => Err(e),
            }
        } else if id == 33 {
            match <ChunkData as MooshroomReadable>::read(r) {
                Ok(v) => Ok(PlayStage::ChunkData(v)),
                Err(e) => Err(e),
            }
        } else if id == 34 {
            match <WorldEvent as MooshroomReadable>::read(r) {
                Ok(v) => Ok(PlayStage::WorldEvent(v)),
                Err(e) => Err(e),
            }
        } else if id == 35 {
            match <Particle as MooshroomReadable>::read(r) {
                Ok(v) => Ok(PlayStage::Particle(v)),
                Err(e) => Err(e),
            }
        } else if id == 36 {
            match <UpdateLight as MooshroomReadable>::read(r) {
                Ok(v) => Ok(PlayStage::UpdateLight(v)),
                Err(e) => Err(e),
            }
        } else if id == 37 {
            match <LoginPlay as MooshroomReadable>::read(r) {
                Ok(v) => Ok(PlayStage::Login(v)),
                Err(e) => Err(e),
            }
        } else if id == 40 {
            match <UpdateEntityPosition as MooshroomReadable>::read(r) {
                Ok(v) => Ok(PlayStage::UpdateEntityPosition(v)),
                Err(e) => Err(e),
            }
        } else if id == 41 {
            match <UpdateEntityPositionAndRotation as MooshroomReadable>::read(r) {
                Ok(v) => Ok(PlayStage::UpdateEntityPositionAndRotation(v)),
                Err(e) => Err(e),
            }
        } else {
            Err(MooshroomError::NotInCollection(id))
        }
    }

    #[verifier::rlimit(100)]
    fn read_dispatch_2(id: i32, r: &mut Reader) -> (res: Result<Self, MooshroomError>)
        requires
            old(r).wf(),
            41 < id,
            id <= 63,
        ensures
            final(r).wf(),
            final(r).data() == old(r).data(),
            final(r).pos() >= old(r).pos(),
            match res {
                Ok(v) => Self::spec_in_collection(id) && Self::dec_one_of(
                    id,
                    old(r).remaining(),
                ) == Some((v.deep_view(), final(r).pos() - old(r).pos())),
                Err(e) => {
                    &&& Self::spec_in_collection(id) ==> Self::dec_one_of(
                        id,
                        old(r).remaining(),
                    ) is None
                    &&& !Self::spec_in_collection(id) ==> (
                    e matches MooshroomError::NotInCollection(i) && i == id)
                },
            },
    {
        if id == 42 {
            match <UpdateEntityRotation as MooshroomReadable>::read(r) {
                Ok(v) => Ok(PlayStage::UpdateEntityRotation(v)),
                Err(e) => Err(e),
            }
        } else if id == 49 {
            match <PlayerAbilities as MooshroomReadable>::read(r) {
                Ok(v) => Ok(PlayStage::PlayerAbilities(v)),
                Err(e) => Err(e),
            }
        } else if id == 51 {
            match <PlayerChatMessage as MooshroomReadable>::read(r) {
                Ok(v) => Ok(PlayStage::PlayerChatMessage(v)),
                Err(e) => Err(e),
            }
        } else if id == 52 {
            match <EndCombat as MooshroomReadable>::read(r) {
                Ok(v) => Ok(PlayStage::EndCombat(v)),
                Err(e) => Err(e),
            }
        } else if id == 53 {
            match <EnterCombat as MooshroomReadable>::read(r) {
                Ok(v) => Ok(PlayStage::EnterCombat(v)),
                Err(e) => Err(e),
            }
        } else if id == 54 {
            match <CombatDeath as MooshroomReadable>::read(r) {
                Ok(v) => Ok(PlayStage::CombatDeath(v)),
                Err(e) => Err(e),
            }
        } else if id == 55 {
            match <PlayerInfo as MooshroomReadable>::read(r) {
                Ok(v) => Ok(PlayStage::PlayerInfo(v)),
                Err(e) => Err(e),
            }
        } else if id == 57 {
            match <SynchronizePlayerPosition as MooshroomReadable>::read(r) {
                Ok(v) => Ok(PlayStage::SynchronizePlayerPosition(v)),
                Err(e) => Err(e),
            }
        } else if id == 58 {
            match <UpdateRecipeBook as MooshroomReadable>::read(r) {
                Ok(v) => Ok(PlayStage::UpdateRecipeBook(v)),
                Err(e) => Err(e),
            }
        } else if id == 59 {
            match <RemoveEntities as MooshroomReadable>::read(r) {
                Ok(v) => Ok(PlayStage::RemoveEntities(v)),
                Err(e) => Err(e),
            }
        } else if id == 62 {
            match <Respawn as MooshroomReadable>::read(r) {
                Ok(v) => Ok(PlayStage::Respawn(v)),
                Err(e) => Err(e),
            }
        } else if id == 63 {
            match <SetHeadRotation as MooshroomReadable>::read(r) {
                Ok(v) => Ok(PlayStage::SetHeadRotation(v)),
                Err(e) => Err(e),
            }
        } else {
            Err(MooshroomError::NotInCollection(id))
        }
    }

    #[verifier::rlimit(100)]
    fn read_dispatch_3(id: i32, r: &mut Reader) -> (res: Result<Self, MooshroomError>)
        requires
            old(r).wf(),
            63 < id,
            id <= 85,
        ensures
            final(r).wf(),
            final(r).data() == old(r).data(),
            final(r).pos() >= old(r).pos(),
            match res {
                Ok(v) => Self::spec_in_collection(id) && Self::dec_one_of(
                    id,
                    old(r).remaining(),
                ) == Some((v.deep_view(), final(r).pos() - old(r).pos())),
                Err(e) => {
                    &&& Self::spec_in_collection(id) ==> Self::dec_one_of(
                        id,
                        old(r).remaining(),
                    ) is None
                    &&& !Self::spec_in_collection(id) ==> (
                    e matches MooshroomError::NotInCollection(i) && i == id)
                },
            },
    {
        if id == 64 {
            match <UpdateSectionBlocks as MooshroomReadable>::read(r) {
                Ok(v) => Ok(PlayStage::UpdateSectionBlocks(v)),
                Err(e) => Err(e),
            }
        } else if id == 66 {
            match <ServerData as MooshroomReadable>::read(r) {
                Ok(v) => Ok(PlayStage::ServerData(v)),
                Err(e) => Err(e),
            }
        } else if id == 74 {
            match <SetHeldItem as MooshroomReadable>::read(r) {
                Ok(v) => Ok(PlayStage::SetHeldItem(v)),
                Err(e) => Err(e),
            }
        } else if id == 75 {
            match <SetCenterChunk as MooshroomReadable>::read(r) {
                Ok(v) => Ok(PlayStage::SetCenterChunk(v)),
                Err(e) => Err(e),
            }
        } else if id == 76 {
            match <SetRenderDistance as MooshroomReadable>::read(r) {
                Ok(v) => Ok(PlayStage::SetRenderDistance(v)),
                Err(e) => Err(e),
            }
        } else if id == 77 {
            match <SetDefaultSpawnPosition as MooshroomReadable>::read(r) {
                Ok(v) => Ok(PlayStage::SetDefaultSpawnPosition(v)),
                Err(e) => Err(e),
            }
        } else if id == 80 {
            match <SetEntityMetadata as MooshroomReadable>::read(r) {
                Ok(v) => Ok(PlayStage::SetEntityMetadata(v)),
                Err(e) => Err(e),
            }
        } else if id == 81 {
            match <LinkEntities as MooshroomReadable>::read(r) {
                Ok(v) => Ok(PlayStage::LinkEntities(v)),
                Err(e) => Err(e),
            }
        } else if id == 82 {
            match <SetEntityVelocity as MooshroomReadable>::read(r) {
                Ok(v) => Ok(PlayStage::SetEntityVelocity(v)),
                Err(e) => Err(e),
            }
        } else if id == 83 {
            match <SetEquipment as MooshroomReadable>::read(r) {
                Ok(v) => Ok(PlayStage::SetEquipment(v)),
                Err(e) => Err(e),
            }
        } else if id == 84 {
            match <SetExperience as MooshroomReadable>::read(r) {
                Ok(v) => Ok(PlayStage::SetExperience(v)),
                Err(e) => Err(e),
            }
        } else if id == 85 {
            match <SetHealth as MooshroomReadable>::read(r) {
                Ok(v) => Ok(PlayStage::SetHealth(v)),
                Err(e) => Err(e),
            }
        } else {
            Err(MooshroomError::NotInCollection(id))
        }
    }

    #[verifier::rlimit(100)]
    fn read_dispatch_4(id: i32, r: &mut Reader) -> (res: Result<Self, MooshroomError>)
        requires
            old(r).wf(),
            85 < id,
            id <= 107,
        ensures
            final(r).wf(),
            final(r).data() == old(r).data(),
            final(r).pos() >= old(r).pos(),
            match res {
                Ok(v) => Self::spec_in_collection(id) && Self::dec_one_of(
                    id,
                    old(r).remaining(),
                ) == Some((v.deep_view(), final(r).pos() - old(r).pos())),
                Err(e) => {
                    &&& Self::spec_in_collection(id) ==> Self::dec_one_of(
                        id,
                        old(r).remaining(),
                    ) is None
                    &&& !Self::spec_in_collection(id) ==> (
                    e matches MooshroomError::NotInCollection(i) && i == id)
                },
            },
    {
        if id == 87 {
            match <SetPassengers as MooshroomReadable>::read(r) {
                Ok(v) => Ok(PlayStage::SetPassengers(v)),
                Err(e) => Err(e),
            }
        } else if id == 90 {
            match <SetSimulationDistance as MooshroomReadable>::read(r) {
                Ok(v) => Ok(PlayStage::SetSimulationDistance(v)),
                Err(e) => Err(e),
            }
        } else if id == 92 {
            match <UpdateTime as MooshroomReadable>::read(r) {
                Ok(v) => Ok(PlayStage::UpdateTime(v)),
                Err(e) => Err(e),
            }
        } else if id == 96 {
            match <SoundEffect as MooshroomReadable>::read(r) {
                Ok(v) => Ok(PlayStage::SoundEffect(v)),
                Err(e) => Err(e),
            }
        } else if id == 98 {
            match <SystemChatMessage as MooshroomReadable>::read(r) {
                Ok(v) => Ok(PlayStage::SystemChatMessage(v)),
                Err(e) => Err(e),
            }
        } else if id == 101 {
            match <PickUpItem as MooshroomReadable>::read(r) {
                Ok(v) => Ok(PlayStage::PickUpItem(v)),
                Err(e) => Err(e),
            }
        } else if id == 102 {
            match <TeleportEntity as MooshroomReadable>::read(r) {
                Ok(v) => Ok(PlayStage::TeleportEntity(v)),
                Err(e) => Err(e),
            }
        } else if id == 103 {
            match <FeatureFlags as MooshroomReadable>::read(r) {
                Ok(v) => Ok(PlayStage::FeatureFlags(v)),
                Err(e) => Err(e),
            }
        } else if id == 104 {
            match <UpdateAttributes as MooshroomReadable>::read(r) {
                Ok(v) => Ok(PlayStage::UpdateAttributes(v)),
                Err(e) => Err(e),
            }
        } else if id == 105 {
            match <EntityEffect as MooshroomReadable>::read(r) {
                Ok(v) => Ok(PlayStage::EntityEffect(v)),
                Err(e) => Err(e),
            }
        } else if id == 106 {
            match <UpdateRecipies as MooshroomReadable>::read(r) {
                Ok(v) => Ok(PlayStage::UpdateRecipies(v)),
                Err(e) => Err(e),
            }
        } else if id == 107 {
            match <UpdateTags as MooshroomReadable>::read(r) {
                Ok(v) => Ok(PlayStage::UpdateTags(v)),
                Err(e) => Err(e),
            }
        } else {
            Err(MooshroomError::NotInCollection(id))
        }
    }

}

} // verus!
