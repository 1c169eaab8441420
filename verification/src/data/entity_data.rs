use vstd::prelude::*;

#[allow(unused_imports)]
use crate::containers::{Json, TOption};
#[allow(unused_imports)]
use crate::data::{
    MooshroomBitFlag, MooshroomCollection, MooshroomCollectionWrite, MooshroomIdentifiable,
    MooshroomUpdatable, MooshroomValue,
};
#[allow(unused_imports)]
use crate::error::MooshroomError;
#[allow(unused_imports)]
use crate::io::{
    MooshroomCommand, MooshroomPacket, MooshroomReadable, MooshroomRoundTrip, MooshroomWritable,
};
#[allow(unused_imports)]
use crate::primitives::{
    be_dec, be_enc, lemma_be_dec_bound, lemma_be_enc_len, lemma_be_round_trip,
    lemma_pow256_values, sig_to_un,
    str_eq, un_to_sig, F32Bits, F64Bits, Identifier, Position, Uuid, Vec3,
};
#[allow(unused_imports)]
use crate::reader::Reader;
#[allow(unused_imports)]
use crate::varint::{
    lemma_varint_round_trip, read_varint, varint_dec, varint_enc, write_varint, VarInt, VarLong,
};
#[allow(unused_imports)]
use vstd::string::StringExecFns;
#[allow(unused_imports)]
use crate::types::Chat;
#[allow(unused_imports)]
use crate::server::play::crafting::{Slot, SlotData, SlotDataView};

verus! {

/// Every entity kind of the protocol, with its numeric identifier and
/// its namespaced name.
#[derive(Copy, Clone, Debug, Default, PartialEq, Eq)]
pub enum EntityType {
    #[default]
    Allay,
    AreaEffectCloud,
    ArmorStand,
    Arrow,
    Axolotl,
    Bat,
    Bee,
    Blaze,
    Boat,
    ChestBoat,
    Cat,
    CaveSpider,
    Chicken,
    Cod,
    Cow,
    Creeper,
    Dolphin,
    Donkey,
    DragonFireball,
    Drowned,
    ElderGuardian,
    EndCrystal,
    EnderDragon,
    Enderman,
    Endermite,
    Evoker,
    EvokerFangs,
    ExperienceOrb,
    EyeofEnder,
    FallingBlock,
    FireworkRocketEntity,
    Fox,
    Frog,
    Ghast,
    Giant,
    GlowItemFrame,
    GlowSquid,
    Goat,
    Guardian,
    Hoglin,
    Horse,
    Husk,
    Illusioner,
    IronGolem,
    Item,
    ItemFrame,
    Fireball,
    LeashKnot,
    LightningBolt,
    Llama,
    LlamaSpit,
    MagmaCube,
    Marker,
    Minecart,
    MinecartChest,
    MinecartCommandBlock,
    MinecartFurnace,
    MinecartHopper,
    MinecartSpawner,
    MinecartTNT,
    Mule,
    Mooshroom,
    Ocelot,
    Painting,
    Panda,
    Parrot,
    Phantom,
    Pig,
    Piglin,
    PiglinBrute,
    Pillager,
    PolarBear,
    PrimedTNT,
    Pufferfish,
    Rabbit,
    Ravager,
    Salmon,
    Sheep,
    Shulker,
    ShulkerBullet,
    Silverfish,
    Skeleton,
    SkeletonHorse,
    Slime,
    SmallFireball,
    SnowGolem,
    Snowball,
    SpectralArrow,
    Spider,
    Squid,
    Stray,
    Strider,
    Tadpole,
    ThrownEgg,
    ThrownEnderPearl,
    ThrownExperienceBottle,
    ThrownPotion,
    ThrownTrident,
    TraderLlama,
    TropicalFish,
    Turtle,
    Vex,
    Villager,
    Vindicator,
    WanderingTrader,
    Warden,
    Witch,
    Wither,
    WitherSkeleton,
    WitherSkull,
    Wolf,
    Zoglin,
    Zombie,
    ZombieHorse,
    ZombieVillager,
    ZombifiedPiglin,
    Player,
    FishingHook,
}

impl DeepView for EntityType {
    type V = EntityType;

    open spec fn deep_view(&self) -> EntityType {
        *self
    }
}

impl MooshroomValue for EntityType {
    open spec fn spec_value(&self) -> int {
        match self {
            EntityType::Allay => 0,
            EntityType::AreaEffectCloud => 1,
            EntityType::ArmorStand => 2,
            EntityType::Arrow => 3,
            EntityType::Axolotl => 4,
            EntityType::Bat => 5,
            EntityType::Bee => 6,
            EntityType::Blaze => 7,
            EntityType::Boat => 8,
            EntityType::ChestBoat => 9,
            EntityType::Cat => 10,
            EntityType::CaveSpider => 11,
            EntityType::Chicken => 12,
            EntityType::Cod => 13,
            EntityType::Cow => 14,
            EntityType::Creeper => 15,
            EntityType::Dolphin => 16,
            EntityType::Donkey => 17,
            EntityType::DragonFireball => 18,
            EntityType::Drowned => 19,
            EntityType::ElderGuardian => 20,
            EntityType::EndCrystal => 21,
            EntityType::EnderDragon => 22,
            EntityType::Enderman => 23,
            EntityType::Endermite => 24,
            EntityType::Evoker => 25,
            EntityType::EvokerFangs => 26,
            EntityType::ExperienceOrb => 27,
            EntityType::EyeofEnder => 28,
            EntityType::FallingBlock => 29,
            EntityType::FireworkRocketEntity => 30,
            EntityType::Fox => 31,
            EntityType::Frog => 32,
            EntityType::Ghast => 33,
            EntityType::Giant => 34,
            EntityType::GlowItemFrame => 35,
            EntityType::GlowSquid => 36,
            EntityType::Goat => 37,
            EntityType::Guardian => 38,
            EntityType::Hoglin => 39,
            EntityType::Horse => 40,
            EntityType::Husk => 41,
            EntityType::Illusioner => 42,
            EntityType::IronGolem => 43,
            EntityType::Item => 44,
            EntityType::ItemFrame => 45,
            EntityType::Fireball => 46,
            EntityType::LeashKnot => 47,
            EntityType::LightningBolt => 48,
            EntityType::Llama => 49,
            EntityType::LlamaSpit => 50,
            EntityType::MagmaCube => 51,
            EntityType::Marker => 52,
            EntityType::Minecart => 53,
            EntityType::MinecartChest => 54,
            EntityType::MinecartCommandBlock => 55,
            EntityType::MinecartFurnace => 56,
            EntityType::MinecartHopper => 57,
            EntityType::MinecartSpawner => 58,
            EntityType::MinecartTNT => 59,
            EntityType::Mule => 60,
            EntityType::Mooshroom => 61,
            EntityType::Ocelot => 62,
            EntityType::Painting => 63,
            EntityType::Panda => 64,
            EntityType::Parrot => 65,
            EntityType::Phantom => 66,
            EntityType::Pig => 67,
            EntityType::Piglin => 68,
            EntityType::PiglinBrute => 69,
            EntityType::Pillager => 70,
            EntityType::PolarBear => 71,
            EntityType::PrimedTNT => 72,
            EntityType::Pufferfish => 73,
            EntityType::Rabbit => 74,
            EntityType::Ravager => 75,
            EntityType::Salmon => 76,
            EntityType::Sheep => 77,
            EntityType::Shulker => 78,
            EntityType::ShulkerBullet => 79,
            EntityType::Silverfish => 80,
            EntityType::Skeleton => 81,
            EntityType::SkeletonHorse => 82,
            EntityType::Slime => 83,
            EntityType::SmallFireball => 84,
            EntityType::SnowGolem => 85,
            EntityType::Snowball => 86,
            EntityType::SpectralArrow => 87,
            EntityType::Spider => 88,
            EntityType::Squid => 89,
            EntityType::Stray => 90,
            EntityType::Strider => 91,
            EntityType::Tadpole => 92,
            EntityType::ThrownEgg => 93,
            EntityType::ThrownEnderPearl => 94,
            EntityType::ThrownExperienceBottle => 95,
            EntityType::ThrownPotion => 96,
            EntityType::ThrownTrident => 97,
            EntityType::TraderLlama => 98,
            EntityType::TropicalFish => 99,
            EntityType::Turtle => 100,
            EntityType::Vex => 101,
            EntityType::Villager => 102,
            EntityType::Vindicator => 103,
            EntityType::WanderingTrader => 104,
            EntityType::Warden => 105,
            EntityType::Witch => 106,
            EntityType::Wither => 107,
            EntityType::WitherSkeleton => 108,
            EntityType::WitherSkull => 109,
            EntityType::Wolf => 110,
            EntityType::Zoglin => 111,
            EntityType::Zombie => 112,
            EntityType::ZombieHorse => 113,
            EntityType::ZombieVillager => 114,
            EntityType::ZombifiedPiglin => 115,
            EntityType::Player => 116,
            EntityType::FishingHook => 117,
        }
    }

    open spec fn spec_from_value(v: int) -> Option<EntityType> {
        if v == 0 {
            Some(EntityType::Allay)
        } else if v == 1 {
            Some(EntityType::AreaEffectCloud)
        } else if v == 2 {
            Some(EntityType::ArmorStand)
        } else if v == 3 {
            Some(EntityType::Arrow)
        } else if v == 4 {
            Some(EntityType::Axolotl)
        } else if v == 5 {
            Some(EntityType::Bat)
        } else if v == 6 {
            Some(EntityType::Bee)
        } else if v == 7 {
            Some(EntityType::Blaze)
        } else if v == 8 {
            Some(EntityType::Boat)
        } else if v == 9 {
            Some(EntityType::ChestBoat)
        } else if v == 10 {
            Some(EntityType::Cat)
        } else if v == 11 {
            Some(EntityType::CaveSpider)
        } else if v == 12 {
            Some(EntityType::Chicken)
        } else if v == 13 {
            Some(EntityType::Cod)
        } else if v == 14 {
            Some(EntityType::Cow)
        } else if v == 15 {
            Some(EntityType::Creeper)
        } else if v == 16 {
            Some(EntityType::Dolphin)
        } else if v == 17 {
            Some(EntityType::Donkey)
        } else if v == 18 {
            Some(EntityType::DragonFireball)
        } else if v == 19 {
            Some(EntityType::Drowned)
        } else if v == 20 {
            Some(EntityType::ElderGuardian)
        } else if v == 21 {
            Some(EntityType::EndCrystal)
        } else if v == 22 {
            Some(EntityType::EnderDragon)
        } else if v == 23 {
            Some(EntityType::Enderman)
        } else if v == 24 {
            Some(EntityType::Endermite)
        } else if v == 25 {
            Some(EntityType::Evoker)
        } else if v == 26 {
            Some(EntityType::EvokerFangs)
        } else if v == 27 {
            Some(EntityType::ExperienceOrb)
        } else if v == 28 {
            Some(EntityType::EyeofEnder)
        } else if v == 29 {
            Some(EntityType::FallingBlock)
        } else if v == 30 {
            Some(EntityType::FireworkRocketEntity)
        } else if v == 31 {
            Some(EntityType::Fox)
        } else if v == 32 {
            Some(EntityType::Frog)
        } else if v == 33 {
            Some(EntityType::Ghast)
        } else if v == 34 {
            Some(EntityType::Giant)
        } else if v == 35 {
            Some(EntityType::GlowItemFrame)
        } else if v == 36 {
            Some(EntityType::GlowSquid)
        } else if v == 37 {
            Some(EntityType::Goat)
        } else if v == 38 {
            Some(EntityType::Guardian)
        } else if v == 39 {
            Some(EntityType::Hoglin)
        } else if v == 40 {
            Some(EntityType::Horse)
        } else if v == 41 {
            Some(EntityType::Husk)
        } else if v == 42 {
            Some(EntityType::Illusioner)
        } else if v == 43 {
            Some(EntityType::IronGolem)
        } else if v == 44 {
            Some(EntityType::Item)
        } else if v == 45 {
            Some(EntityType::ItemFrame)
        } else if v == 46 {
            Some(EntityType::Fireball)
        } else if v == 47 {
            Some(EntityType::LeashKnot)
        } else if v == 48 {
            Some(EntityType::LightningBolt)
        } else if v == 49 {
            Some(EntityType::Llama)
        } else if v == 50 {
            Some(EntityType::LlamaSpit)
        } else if v == 51 {
            Some(EntityType::MagmaCube)
        } else if v == 52 {
            Some(EntityType::Marker)
        } else if v == 53 {
            Some(EntityType::Minecart)
        } else if v == 54 {
            Some(EntityType::MinecartChest)
        } else if v == 55 {
            Some(EntityType::MinecartCommandBlock)
        } else if v == 56 {
            Some(EntityType::MinecartFurnace)
        } else if v == 57 {
            Some(EntityType::MinecartHopper)
        } else if v == 58 {
            Some(EntityType::MinecartSpawner)
        } else if v == 59 {
            Some(EntityType::MinecartTNT)
        } else if v == 60 {
            Some(EntityType::Mule)
        } else if v == 61 {
            Some(EntityType::Mooshroom)
        } else if v == 62 {
            Some(EntityType::Ocelot)
        } else if v == 63 {
            Some(EntityType::Painting)
        } else if v == 64 {
            Some(EntityType::Panda)
        } else if v == 65 {
            Some(EntityType::Parrot)
        } else if v == 66 {
            Some(EntityType::Phantom)
        } else if v == 67 {
            Some(EntityType::Pig)
        } else if v == 68 {
            Some(EntityType::Piglin)
        } else if v == 69 {
            Some(EntityType::PiglinBrute)
        } else if v == 70 {
            Some(EntityType::Pillager)
        } else if v == 71 {
            Some(EntityType::PolarBear)
        } else if v == 72 {
            Some(EntityType::PrimedTNT)
        } else if v == 73 {
            Some(EntityType::Pufferfish)
        } else if v == 74 {
            Some(EntityType::Rabbit)
        } else if v == 75 {
            Some(EntityType::Ravager)
        } else if v == 76 {
            Some(EntityType::Salmon)
        } else if v == 77 {
            Some(EntityType::Sheep)
        } else if v == 78 {
            Some(EntityType::Shulker)
        } else if v == 79 {
            Some(EntityType::ShulkerBullet)
        } else if v == 80 {
            Some(EntityType::Silverfish)
        } else if v == 81 {
            Some(EntityType::Skeleton)
        } else if v == 82 {
            Some(EntityType::SkeletonHorse)
        } else if v == 83 {
            Some(EntityType::Slime)
        } else if v == 84 {
            Some(EntityType::SmallFireball)
        } else if v == 85 {
            Some(EntityType::SnowGolem)
        } else if v == 86 {
            Some(EntityType::Snowball)
        } else if v == 87 {
            Some(EntityType::SpectralArrow)
        } else if v == 88 {
            Some(EntityType::Spider)
        } else if v == 89 {
            Some(EntityType::Squid)
        } else if v == 90 {
            Some(EntityType::Stray)
        } else if v == 91 {
            Some(EntityType::Strider)
        } else if v == 92 {
            Some(EntityType::Tadpole)
        } else if v == 93 {
            Some(EntityType::ThrownEgg)
        } else if v == 94 {
            Some(EntityType::ThrownEnderPearl)
        } else if v == 95 {
            Some(EntityType::ThrownExperienceBottle)
        } else if v == 96 {
            Some(EntityType::ThrownPotion)
        } else if v == 97 {
            Some(EntityType::ThrownTrident)
        } else if v == 98 {
            Some(EntityType::TraderLlama)
        } else if v == 99 {
            Some(EntityType::TropicalFish)
        } else if v == 100 {
            Some(EntityType::Turtle)
        } else if v == 101 {
            Some(EntityType::Vex)
        } else if v == 102 {
            Some(EntityType::Villager)
        } else if v == 103 {
            Some(EntityType::Vindicator)
        } else if v == 104 {
            Some(EntityType::WanderingTrader)
        } else if v == 105 {
            Some(EntityType::Warden)
        } else if v == 106 {
            Some(EntityType::Witch)
        } else if v == 107 {
            Some(EntityType::Wither)
        } else if v == 108 {
            Some(EntityType::WitherSkeleton)
        } else if v == 109 {
            Some(EntityType::WitherSkull)
        } else if v == 110 {
            Some(EntityType::Wolf)
        } else if v == 111 {
            Some(EntityType::Zoglin)
        } else if v == 112 {
            Some(EntityType::Zombie)
        } else if v == 113 {
            Some(EntityType::ZombieHorse)
        } else if v == 114 {
            Some(EntityType::ZombieVillager)
        } else if v == 115 {
            Some(EntityType::ZombifiedPiglin)
        } else if v == 116 {
            Some(EntityType::Player)
        } else if v == 117 {
            Some(EntityType::FishingHook)
        } else {
            None
        }
    }

    fn from_value(v: i32) -> (res: Result<Self, MooshroomError>) {
        if v == 0 {
            Ok(EntityType::Allay)
        } else if v == 1 {
            Ok(EntityType::AreaEffectCloud)
        } else if v == 2 {
            Ok(EntityType::ArmorStand)
        } else if v == 3 {
            Ok(EntityType::Arrow)
        } else if v == 4 {
            Ok(EntityType::Axolotl)
        } else if v == 5 {
            Ok(EntityType::Bat)
        } else if v == 6 {
            Ok(EntityType::Bee)
        } else if v == 7 {
            Ok(EntityType::Blaze)
        } else if v == 8 {
            Ok(EntityType::Boat)
        } else if v == 9 {
            Ok(EntityType::ChestBoat)
        } else if v == 10 {
            Ok(EntityType::Cat)
        } else if v == 11 {
            Ok(EntityType::CaveSpider)
        } else if v == 12 {
            Ok(EntityType::Chicken)
        } else if v == 13 {
            Ok(EntityType::Cod)
        } else if v == 14 {
            Ok(EntityType::Cow)
        } else if v == 15 {
            Ok(EntityType::Creeper)
        } else if v == 16 {
            Ok(EntityType::Dolphin)
        } else if v == 17 {
            Ok(EntityType::Donkey)
        } else if v == 18 {
            Ok(EntityType::DragonFireball)
        } else if v == 19 {
            Ok(EntityType::Drowned)
        } else if v == 20 {
            Ok(EntityType::ElderGuardian)
        } else if v == 21 {
            Ok(EntityType::EndCrystal)
        } else if v == 22 {
            Ok(EntityType::EnderDragon)
        } else if v == 23 {
            Ok(EntityType::Enderman)
        } else if v == 24 {
            Ok(EntityType::Endermite)
        } else if v == 25 {
            Ok(EntityType::Evoker)
        } else if v == 26 {
            Ok(EntityType::EvokerFangs)
        } else if v == 27 {
            Ok(EntityType::ExperienceOrb)
        } else if v == 28 {
            Ok(EntityType::EyeofEnder)
        } else if v == 29 {
            Ok(EntityType::FallingBlock)
        } else if v == 30 {
            Ok(EntityType::FireworkRocketEntity)
        } else if v == 31 {
            Ok(EntityType::Fox)
        } else if v == 32 {
            Ok(EntityType::Frog)
        } else if v == 33 {
            Ok(EntityType::Ghast)
        } else if v == 34 {
            Ok(EntityType::Giant)
        } else if v == 35 {
            Ok(EntityType::GlowItemFrame)
        } else if v == 36 {
            Ok(EntityType::GlowSquid)
        } else if v == 37 {
            Ok(EntityType::Goat)
        } else if v == 38 {
            Ok(EntityType::Guardian)
        } else if v == 39 {
            Ok(EntityType::Hoglin)
        } else if v == 40 {
            Ok(EntityType::Horse)
        } else if v == 41 {
            Ok(EntityType::Husk)
        } else if v == 42 {
            Ok(EntityType::Illusioner)
        } else if v == 43 {
            Ok(EntityType::IronGolem)
        } else if v == 44 {
            Ok(EntityType::Item)
        } else if v == 45 {
            Ok(EntityType::ItemFrame)
        } else if v == 46 {
            Ok(EntityType::Fireball)
        } else if v == 47 {
            Ok(EntityType::LeashKnot)
        } else if v == 48 {
            Ok(EntityType::LightningBolt)
        } else if v == 49 {
            Ok(EntityType::Llama)
        } else if v == 50 {
            Ok(EntityType::LlamaSpit)
        } else if v == 51 {
            Ok(EntityType::MagmaCube)
        } else if v == 52 {
            Ok(EntityType::Marker)
        } else if v == 53 {
            Ok(EntityType::Minecart)
        } else if v == 54 {
            Ok(EntityType::MinecartChest)
        } else if v == 55 {
            Ok(EntityType::MinecartCommandBlock)
        } else if v == 56 {
            Ok(EntityType::MinecartFurnace)
        } else if v == 57 {
            Ok(EntityType::MinecartHopper)
        } else if v == 58 {
            Ok(EntityType::MinecartSpawner)
        } else if v == 59 {
            Ok(EntityType::MinecartTNT)
        } else if v == 60 {
            Ok(EntityType::Mule)
        } else if v == 61 {
            Ok(EntityType::Mooshroom)
        } else if v == 62 {
            Ok(EntityType::Ocelot)
        } else if v == 63 {
            Ok(EntityType::Painting)
        } else if v == 64 {
            Ok(EntityType::Panda)
        } else if v == 65 {
            Ok(EntityType::Parrot)
        } else if v == 66 {
            Ok(EntityType::Phantom)
        } else if v == 67 {
            Ok(EntityType::Pig)
        } else if v == 68 {
            Ok(EntityType::Piglin)
        } else if v == 69 {
            Ok(EntityType::PiglinBrute)
        } else if v == 70 {
            Ok(EntityType::Pillager)
        } else if v == 71 {
            Ok(EntityType::PolarBear)
        } else if v == 72 {
            Ok(EntityType::PrimedTNT)
        } else if v == 73 {
            Ok(EntityType::Pufferfish)
        } else if v == 74 {
            Ok(EntityType::Rabbit)
        } else if v == 75 {
            Ok(EntityType::Ravager)
        } else if v == 76 {
            Ok(EntityType::Salmon)
        } else if v == 77 {
            Ok(EntityType::Sheep)
        } else if v == 78 {
            Ok(EntityType::Shulker)
        } else if v == 79 {
            Ok(EntityType::ShulkerBullet)
        } else if v == 80 {
            Ok(EntityType::Silverfish)
        } else if v == 81 {
            Ok(EntityType::Skeleton)
        } else if v == 82 {
            Ok(EntityType::SkeletonHorse)
        } else if v == 83 {
            Ok(EntityType::Slime)
        } else if v == 84 {
            Ok(EntityType::SmallFireball)
        } else if v == 85 {
            Ok(EntityType::SnowGolem)
        } else if v == 86 {
            Ok(EntityType::Snowball)
        } else if v == 87 {
            Ok(EntityType::SpectralArrow)
        } else if v == 88 {
            Ok(EntityType::Spider)
        } else if v == 89 {
            Ok(EntityType::Squid)
        } else if v == 90 {
            Ok(EntityType::Stray)
        } else if v == 91 {
            Ok(EntityType::Strider)
        } else if v == 92 {
            Ok(EntityType::Tadpole)
        } else if v == 93 {
            Ok(EntityType::ThrownEgg)
        } else if v == 94 {
            Ok(EntityType::ThrownEnderPearl)
        } else if v == 95 {
            Ok(EntityType::ThrownExperienceBottle)
        } else if v == 96 {
            Ok(EntityType::ThrownPotion)
        } else if v == 97 {
            Ok(EntityType::ThrownTrident)
        } else if v == 98 {
            Ok(EntityType::TraderLlama)
        } else if v == 99 {
            Ok(EntityType::TropicalFish)
        } else if v == 100 {
            Ok(EntityType::Turtle)
        } else if v == 101 {
            Ok(EntityType::Vex)
        } else if v == 102 {
            Ok(EntityType::Villager)
        } else if v == 103 {
            Ok(EntityType::Vindicator)
        } else if v == 104 {
            Ok(EntityType::WanderingTrader)
        } else if v == 105 {
            Ok(EntityType::Warden)
        } else if v == 106 {
            Ok(EntityType::Witch)
        } else if v == 107 {
            Ok(EntityType::Wither)
        } else if v == 108 {
            Ok(EntityType::WitherSkeleton)
        } else if v == 109 {
            Ok(EntityType::WitherSkull)
        } else if v == 110 {
            Ok(EntityType::Wolf)
        } else if v == 111 {
            Ok(EntityType::Zoglin)
        } else if v == 112 {
            Ok(EntityType::Zombie)
        } else if v == 113 {
            Ok(EntityType::ZombieHorse)
        } else if v == 114 {
            Ok(EntityType::ZombieVillager)
        } else if v == 115 {
            Ok(EntityType::ZombifiedPiglin)
        } else if v == 116 {
            Ok(EntityType::Player)
        } else if v == 117 {
            Ok(EntityType::FishingHook)
        } else {
            Err(MooshroomError::InvalidEnumVariant(v))
        }
    }

    fn to_value(&self) -> (res: Result<i32, MooshroomError>) {
        match self {
            EntityType::Allay => Ok(0),
            EntityType::AreaEffectCloud => Ok(1),
            EntityType::ArmorStand => Ok(2),
            EntityType::Arrow => Ok(3),
            EntityType::Axolotl => Ok(4),
            EntityType::Bat => Ok(5),
            EntityType::Bee => Ok(6),
            EntityType::Blaze => Ok(7),
            EntityType::Boat => Ok(8),
            EntityType::ChestBoat => Ok(9),
            EntityType::Cat => Ok(10),
            EntityType::CaveSpider => Ok(11),
            EntityType::Chicken => Ok(12),
            EntityType::Cod => Ok(13),
            EntityType::Cow => Ok(14),
            EntityType::Creeper => Ok(15),
            EntityType::Dolphin => Ok(16),
            EntityType::Donkey => Ok(17),
            EntityType::DragonFireball => Ok(18),
            EntityType::Drowned => Ok(19),
            EntityType::ElderGuardian => Ok(20),
            EntityType::EndCrystal => Ok(21),
            EntityType::EnderDragon => Ok(22),
            EntityType::Enderman => Ok(23),
            EntityType::Endermite => Ok(24),
            EntityType::Evoker => Ok(25),
            EntityType::EvokerFangs => Ok(26),
            EntityType::ExperienceOrb => Ok(27),
            EntityType::EyeofEnder => Ok(28),
            EntityType::FallingBlock => Ok(29),
            EntityType::FireworkRocketEntity => Ok(30),
            EntityType::Fox => Ok(31),
            EntityType::Frog => Ok(32),
            EntityType::Ghast => Ok(33),
            EntityType::Giant => Ok(34),
            EntityType::GlowItemFrame => Ok(35),
            EntityType::GlowSquid => Ok(36),
            EntityType::Goat => Ok(37),
            EntityType::Guardian => Ok(38),
            EntityType::Hoglin => Ok(39),
            EntityType::Horse => Ok(40),
            EntityType::Husk => Ok(41),
            EntityType::Illusioner => Ok(42),
            EntityType::IronGolem => Ok(43),
            EntityType::Item => Ok(44),
            EntityType::ItemFrame => Ok(45),
            EntityType::Fireball => Ok(46),
            EntityType::LeashKnot => Ok(47),
            EntityType::LightningBolt => Ok(48),
            EntityType::Llama => Ok(49),
            EntityType::LlamaSpit => Ok(50),
            EntityType::MagmaCube => Ok(51),
            EntityType::Marker => Ok(52),
            EntityType::Minecart => Ok(53),
            EntityType::MinecartChest => Ok(54),
            EntityType::MinecartCommandBlock => Ok(55),
            EntityType::MinecartFurnace => Ok(56),
            EntityType::MinecartHopper => Ok(57),
            EntityType::MinecartSpawner => Ok(58),
            EntityType::MinecartTNT => Ok(59),
            EntityType::Mule => Ok(60),
            EntityType::Mooshroom => Ok(61),
            EntityType::Ocelot => Ok(62),
            EntityType::Painting => Ok(63),
            EntityType::Panda => Ok(64),
            EntityType::Parrot => Ok(65),
            EntityType::Phantom => Ok(66),
            EntityType::Pig => Ok(67),
            EntityType::Piglin => Ok(68),
            EntityType::PiglinBrute => Ok(69),
            EntityType::Pillager => Ok(70),
            EntityType::PolarBear => Ok(71),
            EntityType::PrimedTNT => Ok(72),
            EntityType::Pufferfish => Ok(73),
            EntityType::Rabbit => Ok(74),
            EntityType::Ravager => Ok(75),
            EntityType::Salmon => Ok(76),
            EntityType::Sheep => Ok(77),
            EntityType::Shulker => Ok(78),
            EntityType::ShulkerBullet => Ok(79),
            EntityType::Silverfish => Ok(80),
            EntityType::Skeleton => Ok(81),
            EntityType::SkeletonHorse => Ok(82),
            EntityType::Slime => Ok(83),
            EntityType::SmallFireball => Ok(84),
            EntityType::SnowGolem => Ok(85),
            EntityType::Snowball => Ok(86),
            EntityType::SpectralArrow => Ok(87),
            EntityType::Spider => Ok(88),
            EntityType::Squid => Ok(89),
            EntityType::Stray => Ok(90),
            EntityType::Strider => Ok(91),
            EntityType::Tadpole => Ok(92),
            EntityType::ThrownEgg => Ok(93),
            EntityType::ThrownEnderPearl => Ok(94),
            EntityType::ThrownExperienceBottle => Ok(95),
            EntityType::ThrownPotion => Ok(96),
            EntityType::ThrownTrident => Ok(97),
            EntityType::TraderLlama => Ok(98),
            EntityType::TropicalFish => Ok(99),
            EntityType::Turtle => Ok(100),
            EntityType::Vex => Ok(101),
            EntityType::Villager => Ok(102),
            EntityType::Vindicator => Ok(103),
            EntityType::WanderingTrader => Ok(104),
            EntityType::Warden => Ok(105),
            EntityType::Witch => Ok(106),
            EntityType::Wither => Ok(107),
            EntityType::WitherSkeleton => Ok(108),
            EntityType::WitherSkull => Ok(109),
            EntityType::Wolf => Ok(110),
            EntityType::Zoglin => Ok(111),
            EntityType::Zombie => Ok(112),
            EntityType::ZombieHorse => Ok(113),
            EntityType::ZombieVillager => Ok(114),
            EntityType::ZombifiedPiglin => Ok(115),
            EntityType::Player => Ok(116),
            EntityType::FishingHook => Ok(117),
        }
    }
}

impl MooshroomWritable for EntityType {
    open spec fn enc(&self) -> Seq<u8> {
        varint_enc(self.spec_value())
    }

    fn write(&self, w: &mut Vec<u8>) {
        let v: i32 = match self {
            EntityType::Allay => 0,
            EntityType::AreaEffectCloud => 1,
            EntityType::ArmorStand => 2,
            EntityType::Arrow => 3,
            EntityType::Axolotl => 4,
            EntityType::Bat => 5,
            EntityType::Bee => 6,
            EntityType::Blaze => 7,
            EntityType::Boat => 8,
            EntityType::ChestBoat => 9,
            EntityType::Cat => 10,
            EntityType::CaveSpider => 11,
            EntityType::Chicken => 12,
            EntityType::Cod => 13,
            EntityType::Cow => 14,
            EntityType::Creeper => 15,
            EntityType::Dolphin => 16,
            EntityType::Donkey => 17,
            EntityType::DragonFireball => 18,
            EntityType::Drowned => 19,
            EntityType::ElderGuardian => 20,
            EntityType::EndCrystal => 21,
            EntityType::EnderDragon => 22,
            EntityType::Enderman => 23,
            EntityType::Endermite => 24,
            EntityType::Evoker => 25,
            EntityType::EvokerFangs => 26,
            EntityType::ExperienceOrb => 27,
            EntityType::EyeofEnder => 28,
            EntityType::FallingBlock => 29,
            EntityType::FireworkRocketEntity => 30,
            EntityType::Fox => 31,
            EntityType::Frog => 32,
            EntityType::Ghast => 33,
            EntityType::Giant => 34,
            EntityType::GlowItemFrame => 35,
            EntityType::GlowSquid => 36,
            EntityType::Goat => 37,
            EntityType::Guardian => 38,
            EntityType::Hoglin => 39,
            EntityType::Horse => 40,
            EntityType::Husk => 41,
            EntityType::Illusioner => 42,
            EntityType::IronGolem => 43,
            EntityType::Item => 44,
            EntityType::ItemFrame => 45,
            EntityType::Fireball => 46,
            EntityType::LeashKnot => 47,
            EntityType::LightningBolt => 48,
            EntityType::Llama => 49,
            EntityType::LlamaSpit => 50,
            EntityType::MagmaCube => 51,
            EntityType::Marker => 52,
            EntityType::Minecart => 53,
            EntityType::MinecartChest => 54,
            EntityType::MinecartCommandBlock => 55,
            EntityType::MinecartFurnace => 56,
            EntityType::MinecartHopper => 57,
            EntityType::MinecartSpawner => 58,
            EntityType::MinecartTNT => 59,
            EntityType::Mule => 60,
            EntityType::Mooshroom => 61,
            EntityType::Ocelot => 62,
            EntityType::Painting => 63,
            EntityType::Panda => 64,
            EntityType::Parrot => 65,
            EntityType::Phantom => 66,
            EntityType::Pig => 67,
            EntityType::Piglin => 68,
            EntityType::PiglinBrute => 69,
            EntityType::Pillager => 70,
            EntityType::PolarBear => 71,
            EntityType::PrimedTNT => 72,
            EntityType::Pufferfish => 73,
            EntityType::Rabbit => 74,
            EntityType::Ravager => 75,
            EntityType::Salmon => 76,
            EntityType::Sheep => 77,
            EntityType::Shulker => 78,
            EntityType::ShulkerBullet => 79,
            EntityType::Silverfish => 80,
            EntityType::Skeleton => 81,
            EntityType::SkeletonHorse => 82,
            EntityType::Slime => 83,
            EntityType::SmallFireball => 84,
            EntityType::SnowGolem => 85,
            EntityType::Snowball => 86,
            EntityType::SpectralArrow => 87,
            EntityType::Spider => 88,
            EntityType::Squid => 89,
            EntityType::Stray => 90,
            EntityType::Strider => 91,
            EntityType::Tadpole => 92,
            EntityType::ThrownEgg => 93,
            EntityType::ThrownEnderPearl => 94,
            EntityType::ThrownExperienceBottle => 95,
            EntityType::ThrownPotion => 96,
            EntityType::ThrownTrident => 97,
            EntityType::TraderLlama => 98,
            EntityType::TropicalFish => 99,
            EntityType::Turtle => 100,
            EntityType::Vex => 101,
            EntityType::Villager => 102,
            EntityType::Vindicator => 103,
            EntityType::WanderingTrader => 104,
            EntityType::Warden => 105,
            EntityType::Witch => 106,
            EntityType::Wither => 107,
            EntityType::WitherSkeleton => 108,
            EntityType::WitherSkull => 109,
            EntityType::Wolf => 110,
            EntityType::Zoglin => 111,
            EntityType::Zombie => 112,
            EntityType::ZombieHorse => 113,
            EntityType::ZombieVillager => 114,
            EntityType::ZombifiedPiglin => 115,
            EntityType::Player => 116,
            EntityType::FishingHook => 117,
        };
        write_varint(VarInt(v), w);
    }
}

impl MooshroomReadable for EntityType {
    open spec fn dec(s: Seq<u8>) -> Option<(EntityType, int)> {
        match varint_dec(s) {
            Some((v, n)) => match EntityType::spec_from_value(v as int) {
                Some(e) => Some((e, n)),
                None => None,
            },
            None => None,
        }
    }

    #[verifier::rlimit(80)]
    fn read(r: &mut Reader) -> (res: Result<Self, MooshroomError>) {
        match read_varint(r) {
            Ok(v) => match EntityType::from_value(v.0) {
                Ok(e) => Ok(e),
                Err(e) => Err(e),
            },
            Err(e) => Err(e),
        }
    }
}

impl MooshroomRoundTrip for EntityType {
    open spec fn wire_bounded(&self) -> bool {
        true
    }

    proof fn lemma_round_trip(&self, rest: Seq<u8>) {
        lemma_varint_round_trip(self.spec_value() as i32, rest);
        assert(EntityType::spec_from_value(self.spec_value()) == Some(*self));
    }
}

impl MooshroomIdentifiable for EntityType {
    open spec fn spec_to_id(&self) -> Option<Seq<char>> {
        match self {
            EntityType::Allay => Some("minecraft:allay"@),
            EntityType::AreaEffectCloud => Some("minecraft:area_effect_cloud"@),
            EntityType::ArmorStand => Some("minecraft:armor_stand"@),
            EntityType::Arrow => Some("minecraft:arrow"@),
            EntityType::Axolotl => Some("minecraft:axolotl"@),
            EntityType::Bat => Some("minecraft:bat"@),
            EntityType::Bee => Some("minecraft:bee"@),
            EntityType::Blaze => Some("minecraft:blaze"@),
            EntityType::Boat => Some("minecraft:boat"@),
            EntityType::ChestBoat => Some("minecraft:chest_boat"@),
            EntityType::Cat => Some("minecraft:cat"@),
            EntityType::CaveSpider => Some("minecraft:cave_spider"@),
            EntityType::Chicken => Some("minecraft:chicken"@),
            EntityType::Cod => Some("minecraft:cod"@),
            EntityType::Cow => Some("minecraft:cow"@),
            EntityType::Creeper => Some("minecraft:creeper"@),
            EntityType::Dolphin => Some("minecraft:dolphin"@),
            EntityType::Donkey => Some("minecraft:donkey"@),
            EntityType::DragonFireball => Some("minecraft:dragon_fireball"@),
            EntityType::Drowned => Some("minecraft:drowned"@),
            EntityType::ElderGuardian => Some("minecraft:elder_guardian"@),
            EntityType::EndCrystal => Some("minecraft:end_crystal"@),
            EntityType::EnderDragon => Some("minecraft:ender_dragon"@),
            EntityType::Enderman => Some("minecraft:enderman"@),
            EntityType::Endermite => Some("minecraft:endermite"@),
            EntityType::Evoker => Some("minecraft:evoker"@),
            EntityType::EvokerFangs => Some("minecraft:evoker_fangs"@),
            EntityType::ExperienceOrb => Some("minecraft:experience_orb"@),
            EntityType::EyeofEnder => Some("minecraft:eye_of_ender"@),
            EntityType::FallingBlock => Some("minecraft:falling_block"@),
            EntityType::FireworkRocketEntity => Some("minecraft:firework_rocket"@),
            EntityType::Fox => Some("minecraft:fox"@),
            EntityType::Frog => Some("minecraft:frog"@),
            EntityType::Ghast => Some("minecraft:ghast"@),
            EntityType::Giant => Some("minecraft:giant"@),
            EntityType::GlowItemFrame => Some("minecraft:glow_item_frame"@),
            EntityType::GlowSquid => Some("minecraft:glow_squid"@),
            EntityType::Goat => Some("minecraft:goat"@),
            EntityType::Guardian => Some("minecraft:guardian"@),
            EntityType::Hoglin => Some("minecraft:hoglin"@),
            EntityType::Horse => Some("minecraft:horse"@),
            EntityType::Husk => Some("minecraft:husk"@),
            EntityType::Illusioner => Some("minecraft:illusioner"@),
            EntityType::IronGolem => Some("minecraft:iron_golem"@),
            EntityType::Item => Some("minecraft:item"@),
            EntityType::ItemFrame => Some("minecraft:item_frame"@),
            EntityType::Fireball => Some("minecraft:fireball"@),
            EntityType::LeashKnot => Some("minecraft:leash_knot"@),
            EntityType::LightningBolt => Some("minecraft:lightning_bolt"@),
            EntityType::Llama => Some("minecraft:llama"@),
            EntityType::LlamaSpit => Some("minecraft:llama_spit"@),
            EntityType::MagmaCube => Some("minecraft:magma_cube"@),
            EntityType::Marker => Some("minecraft:marker"@),
            EntityType::Minecart => Some("minecraft:minecart"@),
            EntityType::MinecartChest => Some("minecraft:chest_minecart"@),
            EntityType::MinecartCommandBlock => Some("minecraft:commandblock_minecart"@),
            EntityType::MinecartFurnace => Some("minecraft:furnace_minecart"@),
            EntityType::MinecartHopper => Some("minecraft:hopper_minecart"@),
            EntityType::MinecartSpawner => Some("minecraft:spawner_minecart"@),
            EntityType::MinecartTNT => Some("minecraft:tnt_minecart"@),
            EntityType::Mule => Some("minecraft:mule"@),
            EntityType::Mooshroom => Some("minecraft:mooshroom"@),
            EntityType::Ocelot => Some("minecraft:ocelot"@),
            EntityType::Painting => Some("minecraft:painting"@),
            EntityType::Panda => Some("minecraft:panda"@),
            EntityType::Parrot => Some("minecraft:parrot"@),
            EntityType::Phantom => Some("minecraft:phantom"@),
            EntityType::Pig => Some("minecraft:pig"@),
            EntityType::Piglin => Some("minecraft:piglin"@),
            EntityType::PiglinBrute => Some("minecraft:piglin_brute"@),
            EntityType::Pillager => Some("minecraft:pillager"@),
            EntityType::PolarBear => Some("minecraft:polar_bear"@),
            EntityType::PrimedTNT => Some("minecraft:tnt"@),
            EntityType::Pufferfish => Some("minecraft:pufferfish"@),
            EntityType::Rabbit => Some("minecraft:rabbit"@),
            EntityType::Ravager => Some("minecraft:ravager"@),
            EntityType::Salmon => Some("minecraft:salmon"@),
            EntityType::Sheep => Some("minecraft:sheep"@),
            EntityType::Shulker => Some("minecraft:shulker"@),
            EntityType::ShulkerBullet => Some("minecraft:shulker_bullet"@),
            EntityType::Silverfish => Some("minecraft:silverfish"@),
            EntityType::Skeleton => Some("minecraft:skeleton"@),
            EntityType::SkeletonHorse => Some("minecraft:skeleton_horse"@),
            EntityType::Slime => Some("minecraft:slime"@),
            EntityType::SmallFireball => Some("minecraft:small_fireball"@),
            EntityType::SnowGolem => Some("minecraft:snow_golem"@),
            EntityType::Snowball => Some("minecraft:snowball"@),
            EntityType::SpectralArrow => Some("minecraft:spectral_arrow"@),
            EntityType::Spider => Some("minecraft:spider"@),
            EntityType::Squid => Some("minecraft:squid"@),
            EntityType::Stray => Some("minecraft:stray"@),
            EntityType::Strider => Some("minecraft:strider"@),
            EntityType::Tadpole => Some("minecraft:tadpole"@),
            EntityType::ThrownEgg => Some("minecraft:egg"@),
            EntityType::ThrownEnderPearl => Some("minecraft:ender_pearl"@),
            EntityType::ThrownExperienceBottle => Some("minecraft:experience_bottle"@),
            EntityType::ThrownPotion => Some("minecraft:potion"@),
            EntityType::ThrownTrident => Some("minecraft:trident"@),
            EntityType::TraderLlama => Some("minecraft:trader_llama"@),
            EntityType::TropicalFish => Some("minecraft:tropical_fish"@),
            EntityType::Turtle => Some("minecraft:turtle"@),
            EntityType::Vex => Some("minecraft:vex"@),
            EntityType::Villager => Some("minecraft:villager"@),
            EntityType::Vindicator => Some("minecraft:vindicator"@),
            EntityType::WanderingTrader => Some("minecraft:wandering_trader"@),
            EntityType::Warden => Some("minecraft:warden"@),
            EntityType::Witch => Some("minecraft:witch"@),
            EntityType::Wither => Some("minecraft:wither"@),
            EntityType::WitherSkeleton => Some("minecraft:wither_skeleton"@),
            EntityType::WitherSkull => Some("minecraft:wither_skull"@),
            EntityType::Wolf => Some("minecraft:wolf"@),
            EntityType::Zoglin => Some("minecraft:zoglin"@),
            EntityType::Zombie => Some("minecraft:zombie"@),
            EntityType::ZombieHorse => Some("minecraft:zombie_horse"@),
            EntityType::ZombieVillager => Some("minecraft:zombie_villager"@),
            EntityType::ZombifiedPiglin => Some("minecraft:zombified_piglin"@),
            EntityType::Player => Some("minecraft:player"@),
            EntityType::FishingHook => Some("minecraft:fishing_bobber"@),
        }
    }

    open spec fn spec_from_id(s: Seq<char>) -> Option<EntityType> {
        if s == "minecraft:allay"@ {
            Some(EntityType::Allay)
        } else if s == "minecraft:area_effect_cloud"@ {
            Some(EntityType::AreaEffectCloud)
        } else if s == "minecraft:armor_stand"@ {
            Some(EntityType::ArmorStand)
        } else if s == "minecraft:arrow"@ {
            Some(EntityType::Arrow)
        } else if s == "minecraft:axolotl"@ {
            Some(EntityType::Axolotl)
        } else if s == "minecraft:bat"@ {
            Some(EntityType::Bat)
        } else if s == "minecraft:bee"@ {
            Some(EntityType::Bee)
        } else if s == "minecraft:blaze"@ {
            Some(EntityType::Blaze)
        } else if s == "minecraft:boat"@ {
            Some(EntityType::Boat)
        } else if s == "minecraft:chest_boat"@ {
            Some(EntityType::ChestBoat)
        } else if s == "minecraft:cat"@ {
            Some(EntityType::Cat)
        } else if s == "minecraft:cave_spider"@ {
            Some(EntityType::CaveSpider)
        } else if s == "minecraft:chicken"@ {
            Some(EntityType::Chicken)
        } else if s == "minecraft:cod"@ {
            Some(EntityType::Cod)
        } else if s == "minecraft:cow"@ {
            Some(EntityType::Cow)
        } else if s == "minecraft:creeper"@ {
            Some(EntityType::Creeper)
        } else if s == "minecraft:dolphin"@ {
            Some(EntityType::Dolphin)
        } else if s == "minecraft:donkey"@ {
            Some(EntityType::Donkey)
        } else if s == "minecraft:dragon_fireball"@ {
            Some(EntityType::DragonFireball)
        } else if s == "minecraft:drowned"@ {
            Some(EntityType::Drowned)
        } else if s == "minecraft:elder_guardian"@ {
            Some(EntityType::ElderGuardian)
        } else if s == "minecraft:end_crystal"@ {
            Some(EntityType::EndCrystal)
        } else if s == "minecraft:ender_dragon"@ {
            Some(EntityType::EnderDragon)
        } else if s == "minecraft:enderman"@ {
            Some(EntityType::Enderman)
        } else if s == "minecraft:endermite"@ {
            Some(EntityType::Endermite)
        } else if s == "minecraft:evoker"@ {
            Some(EntityType::Evoker)
        } else if s == "minecraft:evoker_fangs"@ {
            Some(EntityType::EvokerFangs)
        } else if s == "minecraft:experience_orb"@ {
            Some(EntityType::ExperienceOrb)
        } else if s == "minecraft:eye_of_ender"@ {
            Some(EntityType::EyeofEnder)
        } else if s == "minecraft:falling_block"@ {
            Some(EntityType::FallingBlock)
        } else if s == "minecraft:firework_rocket"@ {
            Some(EntityType::FireworkRocketEntity)
        } else if s == "minecraft:fox"@ {
            Some(EntityType::Fox)
        } else if s == "minecraft:frog"@ {
            Some(EntityType::Frog)
        } else if s == "minecraft:ghast"@ {
            Some(EntityType::Ghast)
        } else if s == "minecraft:giant"@ {
            Some(EntityType::Giant)
        } else if s == "minecraft:glow_item_frame"@ {
            Some(EntityType::GlowItemFrame)
        } else if s == "minecraft:glow_squid"@ {
            Some(EntityType::GlowSquid)
        } else if s == "minecraft:goat"@ {
            Some(EntityType::Goat)
        } else if s == "minecraft:guardian"@ {
            Some(EntityType::Guardian)
        } else if s == "minecraft:hoglin"@ {
            Some(EntityType::Hoglin)
        } else if s == "minecraft:horse"@ {
            Some(EntityType::Horse)
        } else if s == "minecraft:husk"@ {
            Some(EntityType::Husk)
        } else if s == "minecraft:illusioner"@ {
            Some(EntityType::Illusioner)
        } else if s == "minecraft:iron_golem"@ {
            Some(EntityType::IronGolem)
        } else if s == "minecraft:item"@ {
            Some(EntityType::Item)
        } else if s == "minecraft:item_frame"@ {
            Some(EntityType::ItemFrame)
        } else if s == "minecraft:fireball"@ {
            Some(EntityType::Fireball)
        } else if s == "minecraft:leash_knot"@ {
            Some(EntityType::LeashKnot)
        } else if s == "minecraft:lightning_bolt"@ {
            Some(EntityType::LightningBolt)
        } else if s == "minecraft:llama"@ {
            Some(EntityType::Llama)
        } else if s == "minecraft:llama_spit"@ {
            Some(EntityType::LlamaSpit)
        } else if s == "minecraft:magma_cube"@ {
            Some(EntityType::MagmaCube)
        } else if s == "minecraft:marker"@ {
            Some(EntityType::Marker)
        } else if s == "minecraft:minecart"@ {
            Some(EntityType::Minecart)
        } else if s == "minecraft:chest_minecart"@ {
            Some(EntityType::MinecartChest)
        } else if s == "minecraft:commandblock_minecart"@ {
            Some(EntityType::MinecartCommandBlock)
        } else if s == "minecraft:furnace_minecart"@ {
            Some(EntityType::MinecartFurnace)
        } else if s == "minecraft:hopper_minecart"@ {
            Some(EntityType::MinecartHopper)
        } else if s == "minecraft:spawner_minecart"@ {
            Some(EntityType::MinecartSpawner)
        } else if s == "minecraft:tnt_minecart"@ {
            Some(EntityType::MinecartTNT)
        } else if s == "minecraft:mule"@ {
            Some(EntityType::Mule)
        } else if s == "minecraft:mooshroom"@ {
            Some(EntityType::Mooshroom)
        } else if s == "minecraft:ocelot"@ {
            Some(EntityType::Ocelot)
        } else if s == "minecraft:painting"@ {
            Some(EntityType::Painting)
        } else if s == "minecraft:panda"@ {
            Some(EntityType::Panda)
        } else if s == "minecraft:parrot"@ {
            Some(EntityType::Parrot)
        } else if s == "minecraft:phantom"@ {
            Some(EntityType::Phantom)
        } else if s == "minecraft:pig"@ {
            Some(EntityType::Pig)
        } else if s == "minecraft:piglin"@ {
            Some(EntityType::Piglin)
        } else if s == "minecraft:piglin_brute"@ {
            Some(EntityType::PiglinBrute)
        } else if s == "minecraft:pillager"@ {
            Some(EntityType::Pillager)
        } else if s == "minecraft:polar_bear"@ {
            Some(EntityType::PolarBear)
        } else if s == "minecraft:tnt"@ {
            Some(EntityType::PrimedTNT)
        } else if s == "minecraft:pufferfish"@ {
            Some(EntityType::Pufferfish)
        } else if s == "minecraft:rabbit"@ {
            Some(EntityType::Rabbit)
        } else if s == "minecraft:ravager"@ {
            Some(EntityType::Ravager)
        } else if s == "minecraft:salmon"@ {
            Some(EntityType::Salmon)
        } else if s == "minecraft:sheep"@ {
            Some(EntityType::Sheep)
        } else if s == "minecraft:shulker"@ {
            Some(EntityType::Shulker)
        } else if s == "minecraft:shulker_bullet"@ {
            Some(EntityType::ShulkerBullet)
        } else if s == "minecraft:silverfish"@ {
            Some(EntityType::Silverfish)
        } else if s == "minecraft:skeleton"@ {
            Some(EntityType::Skeleton)
        } else if s == "minecraft:skeleton_horse"@ {
            Some(EntityType::SkeletonHorse)
        } else if s == "minecraft:slime"@ {
            Some(EntityType::Slime)
        } else if s == "minecraft:small_fireball"@ {
            Some(EntityType::SmallFireball)
        } else if s == "minecraft:snow_golem"@ {
            Some(EntityType::SnowGolem)
        } else if s == "minecraft:snowball"@ {
            Some(EntityType::Snowball)
        } else if s == "minecraft:spectral_arrow"@ {
            Some(EntityType::SpectralArrow)
        } else if s == "minecraft:spider"@ {
            Some(EntityType::Spider)
        } else if s == "minecraft:squid"@ {
            Some(EntityType::Squid)
        } else if s == "minecraft:stray"@ {
            Some(EntityType::Stray)
        } else if s == "minecraft:strider"@ {
            Some(EntityType::Strider)
        } else if s == "minecraft:tadpole"@ {
            Some(EntityType::Tadpole)
        } else if s == "minecraft:egg"@ {
            Some(EntityType::ThrownEgg)
        } else if s == "minecraft:ender_pearl"@ {
            Some(EntityType::ThrownEnderPearl)
        } else if s == "minecraft:experience_bottle"@ {
            Some(EntityType::ThrownExperienceBottle)
        } else if s == "minecraft:potion"@ {
            Some(EntityType::ThrownPotion)
        } else if s == "minecraft:trident"@ {
            Some(EntityType::ThrownTrident)
        } else if s == "minecraft:trader_llama"@ {
            Some(EntityType::TraderLlama)
        } else if s == "minecraft:tropical_fish"@ {
            Some(EntityType::TropicalFish)
        } else if s == "minecraft:turtle"@ {
            Some(EntityType::Turtle)
        } else if s == "minecraft:vex"@ {
            Some(EntityType::Vex)
        } else if s == "minecraft:villager"@ {
            Some(EntityType::Villager)
        } else if s == "minecraft:vindicator"@ {
            Some(EntityType::Vindicator)
        } else if s == "minecraft:wandering_trader"@ {
            Some(EntityType::WanderingTrader)
        } else if s == "minecraft:warden"@ {
            Some(EntityType::Warden)
        } else if s == "minecraft:witch"@ {
            Some(EntityType::Witch)
        } else if s == "minecraft:wither"@ {
            Some(EntityType::Wither)
        } else if s == "minecraft:wither_skeleton"@ {
            Some(EntityType::WitherSkeleton)
        } else if s == "minecraft:wither_skull"@ {
            Some(EntityType::WitherSkull)
        } else if s == "minecraft:wolf"@ {
            Some(EntityType::Wolf)
        } else if s == "minecraft:zoglin"@ {
            Some(EntityType::Zoglin)
        } else if s == "minecraft:zombie"@ {
            Some(EntityType::Zombie)
        } else if s == "minecraft:zombie_horse"@ {
            Some(EntityType::ZombieHorse)
        } else if s == "minecraft:zombie_villager"@ {
            Some(EntityType::ZombieVillager)
        } else if s == "minecraft:zombified_piglin"@ {
            Some(EntityType::ZombifiedPiglin)
        } else if s == "minecraft:player"@ {
            Some(EntityType::Player)
        } else if s == "minecraft:fishing_bobber"@ {
            Some(EntityType::FishingHook)
        } else {
            None
        }
    }

    fn to_id(&self) -> (res: Result<&'static str, MooshroomError>) {
        match self {
            EntityType::Allay => Ok("minecraft:allay"),
            EntityType::AreaEffectCloud => Ok("minecraft:area_effect_cloud"),
            EntityType::ArmorStand => Ok("minecraft:armor_stand"),
            EntityType::Arrow => Ok("minecraft:arrow"),
            EntityType::Axolotl => Ok("minecraft:axolotl"),
            EntityType::Bat => Ok("minecraft:bat"),
            EntityType::Bee => Ok("minecraft:bee"),
            EntityType::Blaze => Ok("minecraft:blaze"),
            EntityType::Boat => Ok("minecraft:boat"),
            EntityType::ChestBoat => Ok("minecraft:chest_boat"),
            EntityType::Cat => Ok("minecraft:cat"),
            EntityType::CaveSpider => Ok("minecraft:cave_spider"),
            EntityType::Chicken => Ok("minecraft:chicken"),
            EntityType::Cod => Ok("minecraft:cod"),
            EntityType::Cow => Ok("minecraft:cow"),
            EntityType::Creeper => Ok("minecraft:creeper"),
            EntityType::Dolphin => Ok("minecraft:dolphin"),
            EntityType::Donkey => Ok("minecraft:donkey"),
            EntityType::DragonFireball => Ok("minecraft:dragon_fireball"),
            EntityType::Drowned => Ok("minecraft:drowned"),
            EntityType::ElderGuardian => Ok("minecraft:elder_guardian"),
            EntityType::EndCrystal => Ok("minecraft:end_crystal"),
            EntityType::EnderDragon => Ok("minecraft:ender_dragon"),
            EntityType::Enderman => Ok("minecraft:enderman"),
            EntityType::Endermite => Ok("minecraft:endermite"),
            EntityType::Evoker => Ok("minecraft:evoker"),
            EntityType::EvokerFangs => Ok("minecraft:evoker_fangs"),
            EntityType::ExperienceOrb => Ok("minecraft:experience_orb"),
            EntityType::EyeofEnder => Ok("minecraft:eye_of_ender"),
            EntityType::FallingBlock => Ok("minecraft:falling_block"),
            EntityType::FireworkRocketEntity => Ok("minecraft:firework_rocket"),
            EntityType::Fox => Ok("minecraft:fox"),
            EntityType::Frog => Ok("minecraft:frog"),
            EntityType::Ghast => Ok("minecraft:ghast"),
            EntityType::Giant => Ok("minecraft:giant"),
            EntityType::GlowItemFrame => Ok("minecraft:glow_item_frame"),
            EntityType::GlowSquid => Ok("minecraft:glow_squid"),
            EntityType::Goat => Ok("minecraft:goat"),
            EntityType::Guardian => Ok("minecraft:guardian"),
            EntityType::Hoglin => Ok("minecraft:hoglin"),
            EntityType::Horse => Ok("minecraft:horse"),
            EntityType::Husk => Ok("minecraft:husk"),
            EntityType::Illusioner => Ok("minecraft:illusioner"),
            EntityType::IronGolem => Ok("minecraft:iron_golem"),
            EntityType::Item => Ok("minecraft:item"),
            EntityType::ItemFrame => Ok("minecraft:item_frame"),
            EntityType::Fireball => Ok("minecraft:fireball"),
            EntityType::LeashKnot => Ok("minecraft:leash_knot"),
            EntityType::LightningBolt => Ok("minecraft:lightning_bolt"),
            EntityType::Llama => Ok("minecraft:llama"),
            EntityType::LlamaSpit => Ok("minecraft:llama_spit"),
            EntityType::MagmaCube => Ok("minecraft:magma_cube"),
            EntityType::Marker => Ok("minecraft:marker"),
            EntityType::Minecart => Ok("minecraft:minecart"),
            EntityType::MinecartChest => Ok("minecraft:chest_minecart"),
            EntityType::MinecartCommandBlock => Ok("minecraft:commandblock_minecart"),
            EntityType::MinecartFurnace => Ok("minecraft:furnace_minecart"),
            EntityType::MinecartHopper => Ok("minecraft:hopper_minecart"),
            EntityType::MinecartSpawner => Ok("minecraft:spawner_minecart"),
            EntityType::MinecartTNT => Ok("minecraft:tnt_minecart"),
            EntityType::Mule => Ok("minecraft:mule"),
            EntityType::Mooshroom => Ok("minecraft:mooshroom"),
            EntityType::Ocelot => Ok("minecraft:ocelot"),
            EntityType::Painting => Ok("minecraft:painting"),
            EntityType::Panda => Ok("minecraft:panda"),
            EntityType::Parrot => Ok("minecraft:parrot"),
            EntityType::Phantom => Ok("minecraft:phantom"),
            EntityType::Pig => Ok("minecraft:pig"),
            EntityType::Piglin => Ok("minecraft:piglin"),
            EntityType::PiglinBrute => Ok("minecraft:piglin_brute"),
            EntityType::Pillager => Ok("minecraft:pillager"),
            EntityType::PolarBear => Ok("minecraft:polar_bear"),
            EntityType::PrimedTNT => Ok("minecraft:tnt"),
            EntityType::Pufferfish => Ok("minecraft:pufferfish"),
            EntityType::Rabbit => Ok("minecraft:rabbit"),
            EntityType::Ravager => Ok("minecraft:ravager"),
            EntityType::Salmon => Ok("minecraft:salmon"),
            EntityType::Sheep => Ok("minecraft:sheep"),
            EntityType::Shulker => Ok("minecraft:shulker"),
            EntityType::ShulkerBullet => Ok("minecraft:shulker_bullet"),
            EntityType::Silverfish => Ok("minecraft:silverfish"),
            EntityType::Skeleton => Ok("minecraft:skeleton"),
            EntityType::SkeletonHorse => Ok("minecraft:skeleton_horse"),
            EntityType::Slime => Ok("minecraft:slime"),
            EntityType::SmallFireball => Ok("minecraft:small_fireball"),
            EntityType::SnowGolem => Ok("minecraft:snow_golem"),
            EntityType::Snowball => Ok("minecraft:snowball"),
            EntityType::SpectralArrow => Ok("minecraft:spectral_arrow"),
            EntityType::Spider => Ok("minecraft:spider"),
            EntityType::Squid => Ok("minecraft:squid"),
            EntityType::Stray => Ok("minecraft:stray"),
            EntityType::Strider => Ok("minecraft:strider"),
            EntityType::Tadpole => Ok("minecraft:tadpole"),
            EntityType::ThrownEgg => Ok("minecraft:egg"),
            EntityType::ThrownEnderPearl => Ok("minecraft:ender_pearl"),
            EntityType::ThrownExperienceBottle => Ok("minecraft:experience_bottle"),
            EntityType::ThrownPotion => Ok("minecraft:potion"),
            EntityType::ThrownTrident => Ok("minecraft:trident"),
            EntityType::TraderLlama => Ok("minecraft:trader_llama"),
            EntityType::TropicalFish => Ok("minecraft:tropical_fish"),
            EntityType::Turtle => Ok("minecraft:turtle"),
            EntityType::Vex => Ok("minecraft:vex"),
            EntityType::Villager => Ok("minecraft:villager"),
            EntityType::Vindicator => Ok("minecraft:vindicator"),
            EntityType::WanderingTrader => Ok("minecraft:wandering_trader"),
            EntityType::Warden => Ok("minecraft:warden"),
            EntityType::Witch => Ok("minecraft:witch"),
            EntityType::Wither => Ok("minecraft:wither"),
            EntityType::WitherSkeleton => Ok("minecraft:wither_skeleton"),
            EntityType::WitherSkull => Ok("minecraft:wither_skull"),
            EntityType::Wolf => Ok("minecraft:wolf"),
            EntityType::Zoglin => Ok("minecraft:zoglin"),
            EntityType::Zombie => Ok("minecraft:zombie"),
            EntityType::ZombieHorse => Ok("minecraft:zombie_horse"),
            EntityType::ZombieVillager => Ok("minecraft:zombie_villager"),
            EntityType::ZombifiedPiglin => Ok("minecraft:zombified_piglin"),
            EntityType::Player => Ok("minecraft:player"),
            EntityType::FishingHook => Ok("minecraft:fishing_bobber"),
        }
    }

    fn from_id(id: &str) -> (res: Result<Self, MooshroomError>) {
        if str_eq(id, "minecraft:allay") {
            Ok(EntityType::Allay)
        } else if str_eq(id, "minecraft:area_effect_cloud") {
            Ok(EntityType::AreaEffectCloud)
        } else if str_eq(id, "minecraft:armor_stand") {
            Ok(EntityType::ArmorStand)
        } else if str_eq(id, "minecraft:arrow") {
            Ok(EntityType::Arrow)
        } else if str_eq(id, "minecraft:axolotl") {
            Ok(EntityType::Axolotl)
        } else if str_eq(id, "minecraft:bat") {
            Ok(EntityType::Bat)
        } else if str_eq(id, "minecraft:bee") {
            Ok(EntityType::Bee)
        } else if str_eq(id, "minecraft:blaze") {
            Ok(EntityType::Blaze)
        } else if str_eq(id, "minecraft:boat") {
            Ok(EntityType::Boat)
        } else if str_eq(id, "minecraft:chest_boat") {
            Ok(EntityType::ChestBoat)
        } else if str_eq(id, "minecraft:cat") {
            Ok(EntityType::Cat)
        } else if str_eq(id, "minecraft:cave_spider") {
            Ok(EntityType::CaveSpider)
        } else if str_eq(id, "minecraft:chicken") {
            Ok(EntityType::Chicken)
        } else if str_eq(id, "minecraft:cod") {
            Ok(EntityType::Cod)
        } else if str_eq(id, "minecraft:cow") {
            Ok(EntityType::Cow)
        } else if str_eq(id, "minecraft:creeper") {
            Ok(EntityType::Creeper)
        } else if str_eq(id, "minecraft:dolphin") {
            Ok(EntityType::Dolphin)
        } else if str_eq(id, "minecraft:donkey") {
            Ok(EntityType::Donkey)
        } else if str_eq(id, "minecraft:dragon_fireball") {
            Ok(EntityType::DragonFireball)
        } else if str_eq(id, "minecraft:drowned") {
            Ok(EntityType::Drowned)
        } else if str_eq(id, "minecraft:elder_guardian") {
            Ok(EntityType::ElderGuardian)
        } else if str_eq(id, "minecraft:end_crystal") {
            Ok(EntityType::EndCrystal)
        } else if str_eq(id, "minecraft:ender_dragon") {
            Ok(EntityType::EnderDragon)
        } else if str_eq(id, "minecraft:enderman") {
            Ok(EntityType::Enderman)
        } else if str_eq(id, "minecraft:endermite") {
            Ok(EntityType::Endermite)
        } else if str_eq(id, "minecraft:evoker") {
            Ok(EntityType::Evoker)
        } else if str_eq(id, "minecraft:evoker_fangs") {
            Ok(EntityType::EvokerFangs)
        } else if str_eq(id, "minecraft:experience_orb") {
            Ok(EntityType::ExperienceOrb)
        } else if str_eq(id, "minecraft:eye_of_ender") {
            Ok(EntityType::EyeofEnder)
        } else if str_eq(id, "minecraft:falling_block") {
            Ok(EntityType::FallingBlock)
        } else if str_eq(id, "minecraft:firework_rocket") {
            Ok(EntityType::FireworkRocketEntity)
        } else if str_eq(id, "minecraft:fox") {
            Ok(EntityType::Fox)
        } else if str_eq(id, "minecraft:frog") {
            Ok(EntityType::Frog)
        } else if str_eq(id, "minecraft:ghast") {
            Ok(EntityType::Ghast)
        } else if str_eq(id, "minecraft:giant") {
            Ok(EntityType::Giant)
        } else if str_eq(id, "minecraft:glow_item_frame") {
            Ok(EntityType::GlowItemFrame)
        } else if str_eq(id, "minecraft:glow_squid") {
            Ok(EntityType::GlowSquid)
        } else if str_eq(id, "minecraft:goat") {
            Ok(EntityType::Goat)
        } else if str_eq(id, "minecraft:guardian") {
            Ok(EntityType::Guardian)
        } else if str_eq(id, "minecraft:hoglin") {
            Ok(EntityType::Hoglin)
        } else if str_eq(id, "minecraft:horse") {
            Ok(EntityType::Horse)
        } else if str_eq(id, "minecraft:husk") {
            Ok(EntityType::Husk)
        } else if str_eq(id, "minecraft:illusioner") {
            Ok(EntityType::Illusioner)
        } else if str_eq(id, "minecraft:iron_golem") {
            Ok(EntityType::IronGolem)
        } else if str_eq(id, "minecraft:item") {
            Ok(EntityType::Item)
        } else if str_eq(id, "minecraft:item_frame") {
            Ok(EntityType::ItemFrame)
        } else if str_eq(id, "minecraft:fireball") {
            Ok(EntityType::Fireball)
        } else if str_eq(id, "minecraft:leash_knot") {
            Ok(EntityType::LeashKnot)
        } else if str_eq(id, "minecraft:lightning_bolt") {
            Ok(EntityType::LightningBolt)
        } else if str_eq(id, "minecraft:llama") {
            Ok(EntityType::Llama)
        } else if str_eq(id, "minecraft:llama_spit") {
            Ok(EntityType::LlamaSpit)
        } else if str_eq(id, "minecraft:magma_cube") {
            Ok(EntityType::MagmaCube)
        } else if str_eq(id, "minecraft:marker") {
            Ok(EntityType::Marker)
        } else if str_eq(id, "minecraft:minecart") {
            Ok(EntityType::Minecart)
        } else if str_eq(id, "minecraft:chest_minecart") {
            Ok(EntityType::MinecartChest)
        } else if str_eq(id, "minecraft:commandblock_minecart") {
            Ok(EntityType::MinecartCommandBlock)
        } else if str_eq(id, "minecraft:furnace_minecart") {
            Ok(EntityType::MinecartFurnace)
        } else if str_eq(id, "minecraft:hopper_minecart") {
            Ok(EntityType::MinecartHopper)
        } else if str_eq(id, "minecraft:spawner_minecart") {
            Ok(EntityType::MinecartSpawner)
        } else if str_eq(id, "minecraft:tnt_minecart") {
            Ok(EntityType::MinecartTNT)
        } else if str_eq(id, "minecraft:mule") {
            Ok(EntityType::Mule)
        } else if str_eq(id, "minecraft:mooshroom") {
            Ok(EntityType::Mooshroom)
        } else if str_eq(id, "minecraft:ocelot") {
            Ok(EntityType::Ocelot)
        } else if str_eq(id, "minecraft:painting") {
            Ok(EntityType::Painting)
        } else if str_eq(id, "minecraft:panda") {
            Ok(EntityType::Panda)
        } else if str_eq(id, "minecraft:parrot") {
            Ok(EntityType::Parrot)
        } else if str_eq(id, "minecraft:phantom") {
            Ok(EntityType::Phantom)
        } else if str_eq(id, "minecraft:pig") {
            Ok(EntityType::Pig)
        } else if str_eq(id, "minecraft:piglin") {
            Ok(EntityType::Piglin)
        } else if str_eq(id, "minecraft:piglin_brute") {
            Ok(EntityType::PiglinBrute)
        } else if str_eq(id, "minecraft:pillager") {
            Ok(EntityType::Pillager)
        } else if str_eq(id, "minecraft:polar_bear") {
            Ok(EntityType::PolarBear)
        } else if str_eq(id, "minecraft:tnt") {
            Ok(EntityType::PrimedTNT)
        } else if str_eq(id, "minecraft:pufferfish") {
            Ok(EntityType::Pufferfish)
        } else if str_eq(id, "minecraft:rabbit") {
            Ok(EntityType::Rabbit)
        } else if str_eq(id, "minecraft:ravager") {
            Ok(EntityType::Ravager)
        } else if str_eq(id, "minecraft:salmon") {
            Ok(EntityType::Salmon)
        } else if str_eq(id, "minecraft:sheep") {
            Ok(EntityType::Sheep)
        } else if str_eq(id, "minecraft:shulker") {
            Ok(EntityType::Shulker)
        } else if str_eq(id, "minecraft:shulker_bullet") {
            Ok(EntityType::ShulkerBullet)
        } else if str_eq(id, "minecraft:silverfish") {
            Ok(EntityType::Silverfish)
        } else if str_eq(id, "minecraft:skeleton") {
            Ok(EntityType::Skeleton)
        } else if str_eq(id, "minecraft:skeleton_horse") {
            Ok(EntityType::SkeletonHorse)
        } else if str_eq(id, "minecraft:slime") {
            Ok(EntityType::Slime)
        } else if str_eq(id, "minecraft:small_fireball") {
            Ok(EntityType::SmallFireball)
        } else if str_eq(id, "minecraft:snow_golem") {
            Ok(EntityType::SnowGolem)
        } else if str_eq(id, "minecraft:snowball") {
            Ok(EntityType::Snowball)
        } else if str_eq(id, "minecraft:spectral_arrow") {
            Ok(EntityType::SpectralArrow)
        } else if str_eq(id, "minecraft:spider") {
            Ok(EntityType::Spider)
        } else if str_eq(id, "minecraft:squid") {
            Ok(EntityType::Squid)
        } else if str_eq(id, "minecraft:stray") {
            Ok(EntityType::Stray)
        } else if str_eq(id, "minecraft:strider") {
            Ok(EntityType::Strider)
        } else if str_eq(id, "minecraft:tadpole") {
            Ok(EntityType::Tadpole)
        } else if str_eq(id, "minecraft:egg") {
            Ok(EntityType::ThrownEgg)
        } else if str_eq(id, "minecraft:ender_pearl") {
            Ok(EntityType::ThrownEnderPearl)
        } else if str_eq(id, "minecraft:experience_bottle") {
            Ok(EntityType::ThrownExperienceBottle)
        } else if str_eq(id, "minecraft:potion") {
            Ok(EntityType::ThrownPotion)
        } else if str_eq(id, "minecraft:trident") {
            Ok(EntityType::ThrownTrident)
        } else if str_eq(id, "minecraft:trader_llama") {
            Ok(EntityType::TraderLlama)
        } else if str_eq(id, "minecraft:tropical_fish") {
            Ok(EntityType::TropicalFish)
        } else if str_eq(id, "minecraft:turtle") {
            Ok(EntityType::Turtle)
        } else if str_eq(id, "minecraft:vex") {
            Ok(EntityType::Vex)
        } else if str_eq(id, "minecraft:villager") {
            Ok(EntityType::Villager)
        } else if str_eq(id, "minecraft:vindicator") {
            Ok(EntityType::Vindicator)
        } else if str_eq(id, "minecraft:wandering_trader") {
            Ok(EntityType::WanderingTrader)
        } else if str_eq(id, "minecraft:warden") {
            Ok(EntityType::Warden)
        } else if str_eq(id, "minecraft:witch") {
            Ok(EntityType::Witch)
        } else if str_eq(id, "minecraft:wither") {
            Ok(EntityType::Wither)
        } else if str_eq(id, "minecraft:wither_skeleton") {
            Ok(EntityType::WitherSkeleton)
        } else if str_eq(id, "minecraft:wither_skull") {
            Ok(EntityType::WitherSkull)
        } else if str_eq(id, "minecraft:wolf") {
            Ok(EntityType::Wolf)
        } else if str_eq(id, "minecraft:zoglin") {
            Ok(EntityType::Zoglin)
        } else if str_eq(id, "minecraft:zombie") {
            Ok(EntityType::Zombie)
        } else if str_eq(id, "minecraft:zombie_horse") {
            Ok(EntityType::ZombieHorse)
        } else if str_eq(id, "minecraft:zombie_villager") {
            Ok(EntityType::ZombieVillager)
        } else if str_eq(id, "minecraft:zombified_piglin") {
            Ok(EntityType::ZombifiedPiglin)
        } else if str_eq(id, "minecraft:player") {
            Ok(EntityType::Player)
        } else if str_eq(id, "minecraft:fishing_bobber") {
            Ok(EntityType::FishingHook)
        } else {
            Err(MooshroomError::InvalidId(String::from_str(id)))
        }
    }
}

#[derive(Copy, Clone, Debug, Default, PartialEq, Eq)]
pub enum EntityPose {
    #[default]
    Standing,
    FallFlying,
    Sleeping,
    Swimming,
    SpinAttack,
    Sneaking,
    LongJumping,
    Sying,
    Croaking,
    UsingToung,
    Roaring,
    Sniffing,
    Wmerging,
    Digging,
}

impl DeepView for EntityPose {
    type V = EntityPose;

    open spec fn deep_view(&self) -> EntityPose {
        *self
    }
}

impl MooshroomValue for EntityPose {
    open spec fn spec_value(&self) -> int {
        match self {
            EntityPose::Standing => 0,
            EntityPose::FallFlying => 1,
            EntityPose::Sleeping => 2,
            EntityPose::Swimming => 3,
            EntityPose::SpinAttack => 4,
            EntityPose::Sneaking => 5,
            EntityPose::LongJumping => 6,
            EntityPose::Sying => 7,
            EntityPose::Croaking => 8,
            EntityPose::UsingToung => 9,
            EntityPose::Roaring => 10,
            EntityPose::Sniffing => 11,
            EntityPose::Wmerging => 12,
            EntityPose::Digging => 13,
        }
    }

    open spec fn spec_from_value(v: int) -> Option<EntityPose> {
        if v == 0 {
            Some(EntityPose::Standing)
        } else if v == 1 {
            Some(EntityPose::FallFlying)
        } else if v == 2 {
            Some(EntityPose::Sleeping)
        } else if v == 3 {
            Some(EntityPose::Swimming)
        } else if v == 4 {
            Some(EntityPose::SpinAttack)
        } else if v == 5 {
            Some(EntityPose::Sneaking)
        } else if v == 6 {
            Some(EntityPose::LongJumping)
        } else if v == 7 {
            Some(EntityPose::Sying)
        } else if v == 8 {
            Some(EntityPose::Croaking)
        } else if v == 9 {
            Some(EntityPose::UsingToung)
        } else if v == 10 {
            Some(EntityPose::Roaring)
        } else if v == 11 {
            Some(EntityPose::Sniffing)
        } else if v == 12 {
            Some(EntityPose::Wmerging)
        } else if v == 13 {
            Some(EntityPose::Digging)
        } else {
            None
        }
    }

    fn from_value(v: i32) -> (res: Result<Self, MooshroomError>) {
        if v == 0 {
            Ok(EntityPose::Standing)
        } else if v == 1 {
            Ok(EntityPose::FallFlying)
        } else if v == 2 {
            Ok(EntityPose::Sleeping)
        } else if v == 3 {
            Ok(EntityPose::Swimming)
        } else if v == 4 {
            Ok(EntityPose::SpinAttack)
        } else if v == 5 {
            Ok(EntityPose::Sneaking)
        } else if v == 6 {
            Ok(EntityPose::LongJumping)
        } else if v == 7 {
            Ok(EntityPose::Sying)
        } else if v == 8 {
            Ok(EntityPose::Croaking)
        } else if v == 9 {
            Ok(EntityPose::UsingToung)
        } else if v == 10 {
            Ok(EntityPose::Roaring)
        } else if v == 11 {
            Ok(EntityPose::Sniffing)
        } else if v == 12 {
            Ok(EntityPose::Wmerging)
        } else if v == 13 {
            Ok(EntityPose::Digging)
        } else {
            Err(MooshroomError::InvalidEnumVariant(v))
        }
    }

    fn to_value(&self) -> (res: Result<i32, MooshroomError>) {
        match self {
            EntityPose::Standing => Ok(0),
            EntityPose::FallFlying => Ok(1),
            EntityPose::Sleeping => Ok(2),
            EntityPose::Swimming => Ok(3),
            EntityPose::SpinAttack => Ok(4),
            EntityPose::Sneaking => Ok(5),
            EntityPose::LongJumping => Ok(6),
            EntityPose::Sying => Ok(7),
            EntityPose::Croaking => Ok(8),
            EntityPose::UsingToung => Ok(9),
            EntityPose::Roaring => Ok(10),
            EntityPose::Sniffing => Ok(11),
            EntityPose::Wmerging => Ok(12),
            EntityPose::Digging => Ok(13),
        }
    }
}

impl MooshroomWritable for EntityPose {
    open spec fn enc(&self) -> Seq<u8> {
        varint_enc(self.spec_value())
    }

    fn write(&self, w: &mut Vec<u8>) {
        let v: i32 = match self {
            EntityPose::Standing => 0,
            EntityPose::FallFlying => 1,
            EntityPose::Sleeping => 2,
            EntityPose::Swimming => 3,
            EntityPose::SpinAttack => 4,
            EntityPose::Sneaking => 5,
            EntityPose::LongJumping => 6,
            EntityPose::Sying => 7,
            EntityPose::Croaking => 8,
            EntityPose::UsingToung => 9,
            EntityPose::Roaring => 10,
            EntityPose::Sniffing => 11,
            EntityPose::Wmerging => 12,
            EntityPose::Digging => 13,
        };
        write_varint(VarInt(v), w);
    }
}

impl MooshroomReadable for EntityPose {
    open spec fn dec(s: Seq<u8>) -> Option<(EntityPose, int)> {
        match varint_dec(s) {
            Some((v, n)) => match EntityPose::spec_from_value(v as int) {
                Some(e) => Some((e, n)),
                None => None,
            },
            None => None,
        }
    }

    fn read(r: &mut Reader) -> (res: Result<Self, MooshroomError>) {
        match read_varint(r) {
            Ok(v) => match EntityPose::from_value(v.0) {
                Ok(e) => Ok(e),
                Err(e) => Err(e),
            },
            Err(e) => Err(e),
        }
    }
}

impl MooshroomRoundTrip for EntityPose {
    open spec fn wire_bounded(&self) -> bool {
        true
    }

    proof fn lemma_round_trip(&self, rest: Seq<u8>) {
        lemma_varint_round_trip(self.spec_value() as i32, rest);
        assert(EntityPose::spec_from_value(self.spec_value()) == Some(*self));
    }
}

/// The shared entity state bits; the glowing and elytra flags sit on
/// distinct bits so that both can round-trip.
#[derive(Copy, Clone, Debug, Default, PartialEq, Eq)]
pub struct EntityFlags {
    pub is_on_fire: bool,
    pub is_crouching: bool,
    pub unused: bool,
    pub is_sprinting: bool,
    pub is_swimming: bool,
    pub is_invisible: bool,
    pub has_glowing_effect: bool,
    pub is_flying_with_elytra: bool,
}

impl DeepView for EntityFlags {
    type V = EntityFlags;

    open spec fn deep_view(&self) -> EntityFlags {
        *self
    }
}

impl MooshroomBitFlag for EntityFlags {
    open spec fn spec_value(&self) -> u8 {
        ((if self.is_on_fire { 1int } else { 0int }) + (if self.is_crouching { 2int } else { 0int }) + (if self.unused { 4int } else { 0int }) + (if self.is_sprinting { 8int } else { 0int }) + (if self.is_swimming { 16int } else { 0int }) + (if self.is_invisible { 32int } else { 0int }) + (if self.has_glowing_effect { 64int } else { 0int }) + (if self.is_flying_with_elytra { 128int } else { 0int })) as u8
    }

    open spec fn spec_from_value(v: u8) -> EntityFlags {
        EntityFlags {
            is_on_fire: (v as int / 1) % 2 == 1,
            is_crouching: (v as int / 2) % 2 == 1,
            unused: (v as int / 4) % 2 == 1,
            is_sprinting: (v as int / 8) % 2 == 1,
            is_swimming: (v as int / 16) % 2 == 1,
            is_invisible: (v as int / 32) % 2 == 1,
            has_glowing_effect: (v as int / 64) % 2 == 1,
            is_flying_with_elytra: (v as int / 128) % 2 == 1,
        }
    }

    #[verifier::rlimit(50)]
    fn from_value(v: u8) -> (r: Self) {
        EntityFlags {
            is_on_fire: (v / 1) % 2 == 1,
            is_crouching: (v / 2) % 2 == 1,
            unused: (v / 4) % 2 == 1,
            is_sprinting: (v / 8) % 2 == 1,
            is_swimming: (v / 16) % 2 == 1,
            is_invisible: (v / 32) % 2 == 1,
            has_glowing_effect: (v / 64) % 2 == 1,
            is_flying_with_elytra: (v / 128) % 2 == 1,
        }
    }

    #[verifier::rlimit(50)]
    fn to_value(&self) -> (r: u8) {
        let v: u32 = (if self.is_on_fire { 1u32 } else { 0u32 }) + (if self.is_crouching { 2u32 } else { 0u32 }) + (if self.unused { 4u32 } else { 0u32 }) + (if self.is_sprinting { 8u32 } else { 0u32 }) + (if self.is_swimming { 16u32 } else { 0u32 }) + (if self.is_invisible { 32u32 } else { 0u32 }) + (if self.has_glowing_effect { 64u32 } else { 0u32 }) + (if self.is_flying_with_elytra { 128u32 } else { 0u32 });
        v as u8
    }
}

impl MooshroomWritable for EntityFlags {
    open spec fn enc(&self) -> Seq<u8> {
        be_enc(self.spec_value() as nat, 1)
    }

    fn write(&self, w: &mut Vec<u8>) {
        let v = self.to_value();
        <u8 as MooshroomWritable>::write(&v, w);
    }
}

impl MooshroomReadable for EntityFlags {
    open spec fn dec(s: Seq<u8>) -> Option<(EntityFlags, int)> {
        if s.len() >= 1 {
            Some((EntityFlags::spec_from_value(s[0]), 1))
        } else {
            None
        }
    }

    fn read(r: &mut Reader) -> (res: Result<Self, MooshroomError>) {
        match r.read_u8() {
            Ok(b) => Ok(EntityFlags::from_value(b)),
            Err(e) => Err(e),
        }
    }
}

impl MooshroomRoundTrip for EntityFlags {
    open spec fn wire_bounded(&self) -> bool {
        true
    }

    proof fn lemma_round_trip(&self, rest: Seq<u8>) {
        let u = self.spec_value() as nat;
        lemma_be_enc_len(u, 1);
        lemma_be_round_trip(u, 1, rest);
        lemma_pow256_values();
        assert((self.enc() + rest)[0] == self.enc()[0]);
        assert(EntityFlags::spec_from_value(self.spec_value()) == *self);
    }
}

/// One keyed field of the shared entity metadata record.
#[derive(Clone, Debug, PartialEq)]
pub enum EntityMetatataValue {
    Flags(EntityFlags),
    AirTicks(VarInt),
    CustomName(Option<Chat>),
    IsCustomNameVisible(bool),
    IsSilent(bool),
    HasNoGravity(bool),
    Pose(EntityPose),
    TicksFrozenInPowderedSnow(VarInt),
}

/// The mathematical value of a `EntityMetatataValue`, for contracts.
pub enum EntityMetatataValueView {
    Flags(EntityFlags),
    AirTicks(VarInt),
    CustomName(Option<Seq<char>>),
    IsCustomNameVisible(bool),
    IsSilent(bool),
    HasNoGravity(bool),
    Pose(EntityPose),
    TicksFrozenInPowderedSnow(VarInt),
}

impl DeepView for EntityMetatataValue {
    type V = EntityMetatataValueView;

    open spec fn deep_view(&self) -> EntityMetatataValueView {
        match self {
            EntityMetatataValue::Flags(v) => EntityMetatataValueView::Flags(v.deep_view()),
            EntityMetatataValue::AirTicks(v) => EntityMetatataValueView::AirTicks(v.deep_view()),
            EntityMetatataValue::CustomName(v) => EntityMetatataValueView::CustomName(v.deep_view()),
            EntityMetatataValue::IsCustomNameVisible(v) => EntityMetatataValueView::IsCustomNameVisible(v.deep_view()),
            EntityMetatataValue::IsSilent(v) => EntityMetatataValueView::IsSilent(v.deep_view()),
            EntityMetatataValue::HasNoGravity(v) => EntityMetatataValueView::HasNoGravity(v.deep_view()),
            EntityMetatataValue::Pose(v) => EntityMetatataValueView::Pose(v.deep_view()),
            EntityMetatataValue::TicksFrozenInPowderedSnow(v) => EntityMetatataValueView::TicksFrozenInPowderedSnow(v.deep_view()),
        }
    }
}

impl MooshroomCollection for EntityMetatataValue {
    open spec fn spec_in_collection(id: i32) -> bool {
        id == 0 || id == 1 || id == 2 || id == 3 || id == 4 || id == 5 || id == 6 || id == 7
    }

    open spec fn dec_one_of(id: i32, s: Seq<u8>) -> Option<(EntityMetatataValueView, int)> {
        if id == 0 {
            match <EntityFlags as MooshroomReadable>::dec(s) {
                Some((v, n)) => Some((EntityMetatataValueView::Flags(v), n)),
                None => None,
            }
        } else if id == 1 {
            match <VarInt as MooshroomReadable>::dec(s) {
                Some((v, n)) => Some((EntityMetatataValueView::AirTicks(v), n)),
                None => None,
            }
        } else if id == 2 {
            match <Option<Chat> as MooshroomReadable>::dec(s) {
                Some((v, n)) => Some((EntityMetatataValueView::CustomName(v), n)),
                None => None,
            }
        } else if id == 3 {
            match <bool as MooshroomReadable>::dec(s) {
                Some((v, n)) => Some((EntityMetatataValueView::IsCustomNameVisible(v), n)),
                None => None,
            }
        } else if id == 4 {
            match <bool as MooshroomReadable>::dec(s) {
                Some((v, n)) => Some((EntityMetatataValueView::IsSilent(v), n)),
                None => None,
            }
        } else if id == 5 {
            match <bool as MooshroomReadable>::dec(s) {
                Some((v, n)) => Some((EntityMetatataValueView::HasNoGravity(v), n)),
                None => None,
            }
        } else if id == 6 {
            match <EntityPose as MooshroomReadable>::dec(s) {
                Some((v, n)) => Some((EntityMetatataValueView::Pose(v), n)),
                None => None,
            }
        } else if id == 7 {
            match <VarInt as MooshroomReadable>::dec(s) {
                Some((v, n)) => Some((EntityMetatataValueView::TicksFrozenInPowderedSnow(v), n)),
                None => None,
            }
        } else {
            None
        }
    }

    fn read_one_of(id: i32, r: &mut Reader) -> (res: Result<Self, MooshroomError>) {
        if id == 0 {
            match <EntityFlags as MooshroomReadable>::read(r) {
                Ok(v) => Ok(EntityMetatataValue::Flags(v)),
                Err(e) => Err(e),
            }
        } else if id == 1 {
            match <VarInt as MooshroomReadable>::read(r) {
                Ok(v) => Ok(EntityMetatataValue::AirTicks(v)),
                Err(e) => Err(e),
            }
        } else if id == 2 {
            match <Option<Chat> as MooshroomReadable>::read(r) {
                Ok(v) => Ok(EntityMetatataValue::CustomName(v)),
                Err(e) => Err(e),
            }
        } else if id == 3 {
            match <bool as MooshroomReadable>::read(r) {
                Ok(v) => Ok(EntityMetatataValue::IsCustomNameVisible(v)),
                Err(e) => Err(e),
            }
        } else if id == 4 {
            match <bool as MooshroomReadable>::read(r) {
                Ok(v) => Ok(EntityMetatataValue::IsSilent(v)),
                Err(e) => Err(e),
            }
        } else if id == 5 {
            match <bool as MooshroomReadable>::read(r) {
                Ok(v) => Ok(EntityMetatataValue::HasNoGravity(v)),
                Err(e) => Err(e),
            }
        } else if id == 6 {
            match <EntityPose as MooshroomReadable>::read(r) {
                Ok(v) => Ok(EntityMetatataValue::Pose(v)),
                Err(e) => Err(e),
            }
        } else if id == 7 {
            match <VarInt as MooshroomReadable>::read(r) {
                Ok(v) => Ok(EntityMetatataValue::TicksFrozenInPowderedSnow(v)),
                Err(e) => Err(e),
            }
        } else {
            Err(MooshroomError::NotInCollection(id))
        }
    }
}

impl MooshroomCollectionWrite for EntityMetatataValue {
    open spec fn spec_variant_id(&self) -> i32 {
        match self {
            EntityMetatataValue::Flags(_) => 0,
            EntityMetatataValue::AirTicks(_) => 1,
            EntityMetatataValue::CustomName(_) => 2,
            EntityMetatataValue::IsCustomNameVisible(_) => 3,
            EntityMetatataValue::IsSilent(_) => 4,
            EntityMetatataValue::HasNoGravity(_) => 5,
            EntityMetatataValue::Pose(_) => 6,
            EntityMetatataValue::TicksFrozenInPowderedSnow(_) => 7,
        }
    }

    open spec fn enc_body(&self) -> Seq<u8> {
        match self {
            EntityMetatataValue::Flags(v) => v.enc(),
            EntityMetatataValue::AirTicks(v) => v.enc(),
            EntityMetatataValue::CustomName(v) => v.enc(),
            EntityMetatataValue::IsCustomNameVisible(v) => v.enc(),
            EntityMetatataValue::IsSilent(v) => v.enc(),
            EntityMetatataValue::HasNoGravity(v) => v.enc(),
            EntityMetatataValue::Pose(v) => v.enc(),
            EntityMetatataValue::TicksFrozenInPowderedSnow(v) => v.enc(),
        }
    }

    fn variant_id(&self) -> (id: i32) {
        match self {
            EntityMetatataValue::Flags(_) => 0,
            EntityMetatataValue::AirTicks(_) => 1,
            EntityMetatataValue::CustomName(_) => 2,
            EntityMetatataValue::IsCustomNameVisible(_) => 3,
            EntityMetatataValue::IsSilent(_) => 4,
            EntityMetatataValue::HasNoGravity(_) => 5,
            EntityMetatataValue::Pose(_) => 6,
            EntityMetatataValue::TicksFrozenInPowderedSnow(_) => 7,
        }
    }

    fn write_one_of(&self, w: &mut Vec<u8>) {
        match self {
            EntityMetatataValue::Flags(v) => v.write(w),
            EntityMetatataValue::AirTicks(v) => v.write(w),
            EntityMetatataValue::CustomName(v) => v.write(w),
            EntityMetatataValue::IsCustomNameVisible(v) => v.write(w),
            EntityMetatataValue::IsSilent(v) => v.write(w),
            EntityMetatataValue::HasNoGravity(v) => v.write(w),
            EntityMetatataValue::Pose(v) => v.write(w),
            EntityMetatataValue::TicksFrozenInPowderedSnow(v) => v.write(w),
        }
    }
}

/// The dense record that keyed metadata updates fill in one field at a
/// time.
#[derive(Debug, Default, PartialEq)]
pub struct EntityMetadata {
    pub flags: EntityFlags,
    pub air_ticks: VarInt,
    pub custom_name: Option<Chat>,
    pub is_custom_name_visible: bool,
    pub is_silent: bool,
    pub has_no_gravity: bool,
    pub pose: EntityPose,
    pub ticks_frozen_in_powdered_snow: VarInt,
}

/// The mathematical value of a `EntityMetadata`, for contracts.
pub struct EntityMetadataView {
    pub flags: EntityFlags,
    pub air_ticks: VarInt,
    pub custom_name: Option<Seq<char>>,
    pub is_custom_name_visible: bool,
    pub is_silent: bool,
    pub has_no_gravity: bool,
    pub pose: EntityPose,
    pub ticks_frozen_in_powdered_snow: VarInt,
}

impl DeepView for EntityMetadata {
    type V = EntityMetadataView;

    open spec fn deep_view(&self) -> EntityMetadataView {
        EntityMetadataView {
            flags: self.flags.deep_view(),
            air_ticks: self.air_ticks.deep_view(),
            custom_name: self.custom_name.deep_view(),
            is_custom_name_visible: self.is_custom_name_visible.deep_view(),
            is_silent: self.is_silent.deep_view(),
            has_no_gravity: self.has_no_gravity.deep_view(),
            pose: self.pose.deep_view(),
            ticks_frozen_in_powdered_snow: self.ticks_frozen_in_powdered_snow.deep_view(),
        }
    }
}

impl MooshroomReadable for EntityMetadata {
    open spec fn dec(s: Seq<u8>) -> Option<(EntityMetadataView, int)> {
        match <EntityFlags as MooshroomReadable>::dec(s) {
            Some((v0, n0)) => match <VarInt as MooshroomReadable>::dec(s.skip(n0)) {
                Some((v1, n1)) => match <Option<Chat> as MooshroomReadable>::dec(s.skip(n0 + n1)) {
                    Some((v2, n2)) => match <bool as MooshroomReadable>::dec(s.skip(n0 + n1 + n2)) {
                        Some((v3, n3)) => match <bool as MooshroomReadable>::dec(s.skip(n0 + n1 + n2 + n3)) {
                            Some((v4, n4)) => match <bool as MooshroomReadable>::dec(s.skip(n0 + n1 + n2 + n3 + n4)) {
                                Some((v5, n5)) => match <EntityPose as MooshroomReadable>::dec(s.skip(n0 + n1 + n2 + n3 + n4 + n5)) {
                                    Some((v6, n6)) => match <VarInt as MooshroomReadable>::dec(s.skip(n0 + n1 + n2 + n3 + n4 + n5 + n6)) {
                                        Some((v7, n7)) => Some((EntityMetadataView { flags: v0, air_ticks: v1, custom_name: v2, is_custom_name_visible: v3, is_silent: v4, has_no_gravity: v5, pose: v6, ticks_frozen_in_powdered_snow: v7 }, n0 + n1 + n2 + n3 + n4 + n5 + n6 + n7)),
                                        None => None,
                                    },
                                    None => None,
                                },
                                None => None,
                            },
                            None => None,
                        },
                        None => None,
                    },
                    None => None,
                },
                None => None,
            },
            None => None,
        }
    }

    #[verifier::rlimit(100)]
    fn read(r: &mut Reader) -> (res: Result<Self, MooshroomError>) {
        let ghost s0 = old(r).remaining();
        let ghost p0 = old(r).pos();
        let flags = match <EntityFlags as MooshroomReadable>::read(r) {
            Ok(v) => v,
            Err(e) => {
                return Err(e);
            },
        };
        proof {
            assert(r.remaining() =~= s0.skip(r.pos() - p0));
        }
        let air_ticks = match <VarInt as MooshroomReadable>::read(r) {
            Ok(v) => v,
            Err(e) => {
                return Err(e);
            },
        };
        proof {
            assert(r.remaining() =~= s0.skip(r.pos() - p0));
        }
        let custom_name = match <Option<Chat> as MooshroomReadable>::read(r) {
            Ok(v) => v,
            Err(e) => {
                return Err(e);
            },
        };
        proof {
            assert(r.remaining() =~= s0.skip(r.pos() - p0));
        }
        let is_custom_name_visible = match <bool as MooshroomReadable>::read(r) {
            Ok(v) => v,
            Err(e) => {
                return Err(e);
            },
        };
        proof {
            assert(r.remaining() =~= s0.skip(r.pos() - p0));
        }
        let is_silent = match <bool as MooshroomReadable>::read(r) {
            Ok(v) => v,
            Err(e) => {
                return Err(e);
            },
        };
        proof {
            assert(r.remaining() =~= s0.skip(r.pos() - p0));
        }
        let has_no_gravity = match <bool as MooshroomReadable>::read(r) {
            Ok(v) => v,
            Err(e) => {
                return Err(e);
            },
        };
        proof {
            assert(r.remaining() =~= s0.skip(r.pos() - p0));
        }
        let pose = match <EntityPose as MooshroomReadable>::read(r) {
            Ok(v) => v,
            Err(e) => {
                return Err(e);
            },
        };
        proof {
            assert(r.remaining() =~= s0.skip(r.pos() - p0));
        }
        let ticks_frozen_in_powdered_snow = match <VarInt as MooshroomReadable>::read(r) {
            Ok(v) => v,
            Err(e) => {
                return Err(e);
            },
        };
        Ok(EntityMetadata { flags, air_ticks, custom_name, is_custom_name_visible, is_silent, has_no_gravity, pose, ticks_frozen_in_powdered_snow })
    }
}

impl MooshroomUpdatable for EntityMetadata {
    type Type = EntityMetatataValue;

    open spec fn spec_update(self, value: EntityMetatataValue) -> EntityMetadata {
        match value {
            EntityMetatataValue::Flags(v) => EntityMetadata { flags: v, ..self },
            EntityMetatataValue::AirTicks(v) => EntityMetadata { air_ticks: v, ..self },
            EntityMetatataValue::CustomName(v) => EntityMetadata { custom_name: v, ..self },
            EntityMetatataValue::IsCustomNameVisible(v) => EntityMetadata { is_custom_name_visible: v, ..self },
            EntityMetatataValue::IsSilent(v) => EntityMetadata { is_silent: v, ..self },
            EntityMetatataValue::HasNoGravity(v) => EntityMetadata { has_no_gravity: v, ..self },
            EntityMetatataValue::Pose(v) => EntityMetadata { pose: v, ..self },
            EntityMetatataValue::TicksFrozenInPowderedSnow(v) => EntityMetadata { ticks_frozen_in_powdered_snow: v, ..self },
        }
    }

    fn update(&mut self, value: EntityMetatataValue) {
        match value {
            EntityMetatataValue::Flags(v) => {
                self.flags = v;
            },
            EntityMetatataValue::AirTicks(v) => {
                self.air_ticks = v;
            },
            EntityMetatataValue::CustomName(v) => {
                self.custom_name = v;
            },
            EntityMetatataValue::IsCustomNameVisible(v) => {
                self.is_custom_name_visible = v;
            },
            EntityMetatataValue::IsSilent(v) => {
                self.is_silent = v;
            },
            EntityMetatataValue::HasNoGravity(v) => {
                self.has_no_gravity = v;
            },
            EntityMetatataValue::Pose(v) => {
                self.pose = v;
            },
            EntityMetatataValue::TicksFrozenInPowderedSnow(v) => {
                self.ticks_frozen_in_powdered_snow = v;
            },
        }
    }
}

#[derive(Debug, PartialEq)]
pub enum ThrownItemMetadataValue {
    EntityValue(EntityMetatataValue),
    Item(Slot),
}

/// The mathematical value of a `ThrownItemMetadataValue`, for contracts.
pub enum ThrownItemMetadataValueView {
    EntityValue(EntityMetatataValueView),
    Item(Option<SlotDataView>),
}

impl DeepView for ThrownItemMetadataValue {
    type V = ThrownItemMetadataValueView;

    open spec fn deep_view(&self) -> ThrownItemMetadataValueView {
        match self {
            ThrownItemMetadataValue::EntityValue(v) => ThrownItemMetadataValueView::EntityValue(v.deep_view()),
            ThrownItemMetadataValue::Item(v) => ThrownItemMetadataValueView::Item(v.deep_view()),
        }
    }
}

impl MooshroomCollection for ThrownItemMetadataValue {
    open spec fn spec_in_collection(id: i32) -> bool {
        (0 <= id && id <= 7) || id == 8
    }

    open spec fn dec_one_of(id: i32, s: Seq<u8>) -> Option<(ThrownItemMetadataValueView, int)> {
        if 0 <= id && id <= 7 {
            match EntityMetatataValue::dec_one_of(id, s) {
                Some((v, n)) => Some((ThrownItemMetadataValueView::EntityValue(v), n)),
                None => None,
            }
        } else if id == 8 {
            match <Option<SlotData> as MooshroomReadable>::dec(s) {
                Some((v, n)) => Some((ThrownItemMetadataValueView::Item(v), n)),
                None => None,
            }
        } else {
            None
        }
    }

    fn read_one_of(id: i32, r: &mut Reader) -> (res: Result<Self, MooshroomError>) {
        if 0 <= id && id <= 7 {
            proof {
                assert(EntityMetatataValue::spec_in_collection(id));
            }
            match EntityMetatataValue::read_one_of(id, r) {
                Ok(v) => Ok(ThrownItemMetadataValue::EntityValue(v)),
                Err(e) => Err(e),
            }
        } else if id == 8 {
            match <Option<SlotData> as MooshroomReadable>::read(r) {
                Ok(v) => Ok(ThrownItemMetadataValue::Item(v)),
                Err(e) => Err(e),
            }
        } else {
            Err(MooshroomError::NotInCollection(id))
        }
    }
}

#[derive(Debug, Default, PartialEq)]
pub struct ThrowItemMedata {
    pub entity_range: EntityMetadata,
    pub item: Slot,
}

/// The mathematical value of a `ThrowItemMedata`, for contracts.
pub struct ThrowItemMedataView {
    pub entity_range: EntityMetadataView,
    pub item: Option<SlotDataView>,
}

impl DeepView for ThrowItemMedata {
    type V = ThrowItemMedataView;

    open spec fn deep_view(&self) -> ThrowItemMedataView {
        ThrowItemMedataView {
            entity_range: self.entity_range.deep_view(),
            item: self.item.deep_view(),
        }
    }
}

impl MooshroomReadable for ThrowItemMedata {
    open spec fn dec(s: Seq<u8>) -> Option<(ThrowItemMedataView, int)> {
        match <EntityMetadata as MooshroomReadable>::dec(s) {
            Some((v0, n0)) => match <Option<SlotData> as MooshroomReadable>::dec(s.skip(n0)) {
                Some((v1, n1)) => Some((ThrowItemMedataView { entity_range: v0, item: v1 }, n0 + n1)),
                None => None,
            },
            None => None,
        }
    }

    fn read(r: &mut Reader) -> (res: Result<Self, MooshroomError>) {
        let ghost s0 = old(r).remaining();
        let ghost p0 = old(r).pos();
        let entity_range = match <EntityMetadata as MooshroomReadable>::read(r) {
            Ok(v) => v,
            Err(e) => {
                return Err(e);
            },
        };
        proof {
            assert(r.remaining() =~= s0.skip(r.pos() - p0));
        }
        let item = match <Option<SlotData> as MooshroomReadable>::read(r) {
            Ok(v) => v,
            Err(e) => {
                return Err(e);
            },
        };
        Ok(ThrowItemMedata { entity_range, item })
    }
}

impl MooshroomUpdatable for ThrowItemMedata {
    type Type = ThrownItemMetadataValue;

    open spec fn spec_update(self, value: ThrownItemMetadataValue) -> ThrowItemMedata {
        match value {
            ThrownItemMetadataValue::EntityValue(v) => ThrowItemMedata { entity_range: self.entity_range.spec_update(v), ..self },
            ThrownItemMetadataValue::Item(v) => ThrowItemMedata { item: v, ..self },
        }
    }

    fn update(&mut self, value: ThrownItemMetadataValue) {
        match value {
            ThrownItemMetadataValue::EntityValue(v) => {
                self.entity_range.update(v);
            },
            ThrownItemMetadataValue::Item(v) => {
                self.item = v;
            },
        }
    }
}

#[derive(Clone, Debug, PartialEq)]
pub enum FallingBlockMetadataValue {
    EntityValue(EntityMetatataValue),
    BlockPos(Position),
}

/// The mathematical value of a `FallingBlockMetadataValue`, for contracts.
pub enum FallingBlockMetadataValueView {
    EntityValue(EntityMetatataValueView),
    BlockPos(Position),
}

impl DeepView for FallingBlockMetadataValue {
    type V = FallingBlockMetadataValueView;

    open spec fn deep_view(&self) -> FallingBlockMetadataValueView {
        match self {
            FallingBlockMetadataValue::EntityValue(v) => FallingBlockMetadataValueView::EntityValue(v.deep_view()),
            FallingBlockMetadataValue::BlockPos(v) => FallingBlockMetadataValueView::BlockPos(v.deep_view()),
        }
    }
}

impl MooshroomCollection for FallingBlockMetadataValue {
    open spec fn spec_in_collection(id: i32) -> bool {
        (0 <= id && id <= 7) || id == 8
    }

    open spec fn dec_one_of(id: i32, s: Seq<u8>) -> Option<(FallingBlockMetadataValueView, int)> {
        if 0 <= id && id <= 7 {
            match EntityMetatataValue::dec_one_of(id, s) {
                Some((v, n)) => Some((FallingBlockMetadataValueView::EntityValue(v), n)),
                None => None,
            }
        } else if id == 8 {
            match <Position as MooshroomReadable>::dec(s) {
                Some((v, n)) => Some((FallingBlockMetadataValueView::BlockPos(v), n)),
                None => None,
            }
        } else {
            None
        }
    }

    fn read_one_of(id: i32, r: &mut Reader) -> (res: Result<Self, MooshroomError>) {
        if 0 <= id && id <= 7 {
            proof {
                assert(EntityMetatataValue::spec_in_collection(id));
            }
            match EntityMetatataValue::read_one_of(id, r) {
                Ok(v) => Ok(FallingBlockMetadataValue::EntityValue(v)),
                Err(e) => Err(e),
            }
        } else if id == 8 {
            match <Position as MooshroomReadable>::read(r) {
                Ok(v) => Ok(FallingBlockMetadataValue::BlockPos(v)),
                Err(e) => Err(e),
            }
        } else {
            Err(MooshroomError::NotInCollection(id))
        }
    }
}

impl MooshroomCollectionWrite for FallingBlockMetadataValue {
    open spec fn spec_variant_id(&self) -> i32 {
        match self {
            FallingBlockMetadataValue::EntityValue(v) => v.spec_variant_id(),
            FallingBlockMetadataValue::BlockPos(_) => 8,
        }
    }

    open spec fn enc_body(&self) -> Seq<u8> {
        match self {
            FallingBlockMetadataValue::EntityValue(v) => v.enc_body(),
            FallingBlockMetadataValue::BlockPos(v) => v.enc(),
        }
    }

    fn variant_id(&self) -> (id: i32) {
        match self {
            FallingBlockMetadataValue::EntityValue(v) => v.variant_id(),
            FallingBlockMetadataValue::BlockPos(_) => 8,
        }
    }

    fn write_one_of(&self, w: &mut Vec<u8>) {
        match self {
            FallingBlockMetadataValue::EntityValue(v) => v.write_one_of(w),
            FallingBlockMetadataValue::BlockPos(v) => v.write(w),
        }
    }
}

#[derive(Debug, Default, PartialEq)]
pub struct FallingBlockMetadata {
    pub entity_range: EntityMetadata,
    pub block_position: Position,
}

/// The mathematical value of a `FallingBlockMetadata`, for contracts.
pub struct FallingBlockMetadataView {
    pub entity_range: EntityMetadataView,
    pub block_position: Position,
}

impl DeepView for FallingBlockMetadata {
    type V = FallingBlockMetadataView;

    open spec fn deep_view(&self) -> FallingBlockMetadataView {
        FallingBlockMetadataView {
            entity_range: self.entity_range.deep_view(),
            block_position: self.block_position.deep_view(),
        }
    }
}

impl MooshroomReadable for FallingBlockMetadata {
    open spec fn dec(s: Seq<u8>) -> Option<(FallingBlockMetadataView, int)> {
        match <EntityMetadata as MooshroomReadable>::dec(s) {
            Some((v0, n0)) => match <Position as MooshroomReadable>::dec(s.skip(n0)) {
                Some((v1, n1)) => Some((FallingBlockMetadataView { entity_range: v0, block_position: v1 }, n0 + n1)),
                None => None,
            },
            None => None,
        }
    }

    fn read(r: &mut Reader) -> (res: Result<Self, MooshroomError>) {
        let ghost s0 = old(r).remaining();
        let ghost p0 = old(r).pos();
        let entity_range = match <EntityMetadata as MooshroomReadable>::read(r) {
            Ok(v) => v,
            Err(e) => {
                return Err(e);
            },
        };
        proof {
            assert(r.remaining() =~= s0.skip(r.pos() - p0));
        }
        let block_position = match <Position as MooshroomReadable>::read(r) {
            Ok(v) => v,
            Err(e) => {
                return Err(e);
            },
        };
        Ok(FallingBlockMetadata { entity_range, block_position })
    }
}

impl MooshroomUpdatable for FallingBlockMetadata {
    type Type = FallingBlockMetadataValue;

    open spec fn spec_update(self, value: FallingBlockMetadataValue) -> FallingBlockMetadata {
        match value {
            FallingBlockMetadataValue::EntityValue(v) => FallingBlockMetadata { entity_range: self.entity_range.spec_update(v), ..self },
            FallingBlockMetadataValue::BlockPos(v) => FallingBlockMetadata { block_position: v, ..self },
        }
    }

    fn update(&mut self, value: FallingBlockMetadataValue) {
        match value {
            FallingBlockMetadataValue::EntityValue(v) => {
                self.entity_range.update(v);
            },
            FallingBlockMetadataValue::BlockPos(v) => {
                self.block_position = v;
            },
        }
    }
}

#[derive(Clone, Debug, PartialEq)]
pub enum AreaEffectCloudMetadataValue {
    EntityValue(EntityMetatataValue),
    Radius(F32Bits),
    Color(VarInt),
    ShowEffectAsSinglePoint(bool),
    Particle(Particle),
}

/// The mathematical value of a `AreaEffectCloudMetadataValue`, for contracts.
pub enum AreaEffectCloudMetadataValueView {
    EntityValue(EntityMetatataValueView),
    Radius(F32Bits),
    Color(VarInt),
    ShowEffectAsSinglePoint(bool),
    Particle(VarInt),
}

impl DeepView for AreaEffectCloudMetadataValue {
    type V = AreaEffectCloudMetadataValueView;

    open spec fn deep_view(&self) -> AreaEffectCloudMetadataValueView {
        match self {
            AreaEffectCloudMetadataValue::EntityValue(v) => AreaEffectCloudMetadataValueView::EntityValue(v.deep_view()),
            AreaEffectCloudMetadataValue::Radius(v) => AreaEffectCloudMetadataValueView::Radius(v.deep_view()),
            AreaEffectCloudMetadataValue::Color(v) => AreaEffectCloudMetadataValueView::Color(v.deep_view()),
            AreaEffectCloudMetadataValue::ShowEffectAsSinglePoint(v) => AreaEffectCloudMetadataValueView::ShowEffectAsSinglePoint(v.deep_view()),
            AreaEffectCloudMetadataValue::Particle(v) => AreaEffectCloudMetadataValueView::Particle(v.deep_view()),
        }
    }
}

impl MooshroomCollection for AreaEffectCloudMetadataValue {
    open spec fn spec_in_collection(id: i32) -> bool {
        (0 <= id && id <= 7) || id == 8 || id == 9 || id == 10 || id == 11
    }

    open spec fn dec_one_of(id: i32, s: Seq<u8>) -> Option<(AreaEffectCloudMetadataValueView, int)> {
        if 0 <= id && id <= 7 {
            match EntityMetatataValue::dec_one_of(id, s) {
                Some((v, n)) => Some((AreaEffectCloudMetadataValueView::EntityValue(v), n)),
                None => None,
            }
        } else if id == 8 {
            match <F32Bits as MooshroomReadable>::dec(s) {
                Some((v, n)) => Some((AreaEffectCloudMetadataValueView::Radius(v), n)),
                None => None,
            }
        } else if id == 9 {
            match <VarInt as MooshroomReadable>::dec(s) {
                Some((v, n)) => Some((AreaEffectCloudMetadataValueView::Color(v), n)),
                None => None,
            }
        } else if id == 10 {
            match <bool as MooshroomReadable>::dec(s) {
                Some((v, n)) => Some((AreaEffectCloudMetadataValueView::ShowEffectAsSinglePoint(v), n)),
                None => None,
            }
        } else if id == 11 {
            match <VarInt as MooshroomReadable>::dec(s) {
                Some((v, n)) => Some((AreaEffectCloudMetadataValueView::Particle(v), n)),
                None => None,
            }
        } else {
            None
        }
    }

    fn read_one_of(id: i32, r: &mut Reader) -> (res: Result<Self, MooshroomError>) {
        if 0 <= id && id <= 7 {
            proof {
                assert(EntityMetatataValue::spec_in_collection(id));
            }
            match EntityMetatataValue::read_one_of(id, r) {
                Ok(v) => Ok(AreaEffectCloudMetadataValue::EntityValue(v)),
                Err(e) => Err(e),
            }
        } else if id == 8 {
            match <F32Bits as MooshroomReadable>::read(r) {
                Ok(v) => Ok(AreaEffectCloudMetadataValue::Radius(v)),
                Err(e) => Err(e),
            }
        } else if id == 9 {
            match <VarInt as MooshroomReadable>::read(r) {
                Ok(v) => Ok(AreaEffectCloudMetadataValue::Color(v)),
                Err(e) => Err(e),
            }
        } else if id == 10 {
            match <bool as MooshroomReadable>::read(r) {
                Ok(v) => Ok(AreaEffectCloudMetadataValue::ShowEffectAsSinglePoint(v)),
                Err(e) => Err(e),
            }
        } else if id == 11 {
            match <VarInt as MooshroomReadable>::read(r) {
                Ok(v) => Ok(AreaEffectCloudMetadataValue::Particle(v)),
                Err(e) => Err(e),
            }
        } else {
            Err(MooshroomError::NotInCollection(id))
        }
    }
}

impl MooshroomCollectionWrite for AreaEffectCloudMetadataValue {
    open spec fn spec_variant_id(&self) -> i32 {
        match self {
            AreaEffectCloudMetadataValue::EntityValue(v) => v.spec_variant_id(),
            AreaEffectCloudMetadataValue::Radius(_) => 8,
            AreaEffectCloudMetadataValue::Color(_) => 9,
            AreaEffectCloudMetadataValue::ShowEffectAsSinglePoint(_) => 10,
            AreaEffectCloudMetadataValue::Particle(_) => 11,
        }
    }

    open spec fn enc_body(&self) -> Seq<u8> {
        match self {
            AreaEffectCloudMetadataValue::EntityValue(v) => v.enc_body(),
            AreaEffectCloudMetadataValue::Radius(v) => v.enc(),
            AreaEffectCloudMetadataValue::Color(v) => v.enc(),
            AreaEffectCloudMetadataValue::ShowEffectAsSinglePoint(v) => v.enc(),
            AreaEffectCloudMetadataValue::Particle(v) => v.enc(),
        }
    }

    fn variant_id(&self) -> (id: i32) {
        match self {
            AreaEffectCloudMetadataValue::EntityValue(v) => v.variant_id(),
            AreaEffectCloudMetadataValue::Radius(_) => 8,
            AreaEffectCloudMetadataValue::Color(_) => 9,
            AreaEffectCloudMetadataValue::ShowEffectAsSinglePoint(_) => 10,
            AreaEffectCloudMetadataValue::Particle(_) => 11,
        }
    }

    fn write_one_of(&self, w: &mut Vec<u8>) {
        match self {
            AreaEffectCloudMetadataValue::EntityValue(v) => v.write_one_of(w),
            AreaEffectCloudMetadataValue::Radius(v) => v.write(w),
            AreaEffectCloudMetadataValue::Color(v) => v.write(w),
            AreaEffectCloudMetadataValue::ShowEffectAsSinglePoint(v) => v.write(w),
            AreaEffectCloudMetadataValue::Particle(v) => v.write(w),
        }
    }
}

#[derive(Debug, Default, PartialEq)]
pub struct AreaEffectCloudMetadata {
    pub entity_range: EntityMetadata,
    pub block_position: F32Bits,
    pub color: VarInt,
    pub show_effect_as_single_point: bool,
    pub particle: Particle,
}

/// The mathematical value of a `AreaEffectCloudMetadata`, for contracts.
pub struct AreaEffectCloudMetadataView {
    pub entity_range: EntityMetadataView,
    pub block_position: F32Bits,
    pub color: VarInt,
    pub show_effect_as_single_point: bool,
    pub particle: VarInt,
}

impl DeepView for AreaEffectCloudMetadata {
    type V = AreaEffectCloudMetadataView;

    open spec fn deep_view(&self) -> AreaEffectCloudMetadataView {
        AreaEffectCloudMetadataView {
            entity_range: self.entity_range.deep_view(),
            block_position: self.block_position.deep_view(),
            color: self.color.deep_view(),
            show_effect_as_single_point: self.show_effect_as_single_point.deep_view(),
            particle: self.particle.deep_view(),
        }
    }
}

impl MooshroomReadable for AreaEffectCloudMetadata {
    open spec fn dec(s: Seq<u8>) -> Option<(AreaEffectCloudMetadataView, int)> {
        match <EntityMetadata as MooshroomReadable>::dec(s) {
            Some((v0, n0)) => match <F32Bits as MooshroomReadable>::dec(s.skip(n0)) {
                Some((v1, n1)) => match <VarInt as MooshroomReadable>::dec(s.skip(n0 + n1)) {
                    Some((v2, n2)) => match <bool as MooshroomReadable>::dec(s.skip(n0 + n1 + n2)) {
                        Some((v3, n3)) => match <VarInt as MooshroomReadable>::dec(s.skip(n0 + n1 + n2 + n3)) {
                            Some((v4, n4)) => Some((AreaEffectCloudMetadataView { entity_range: v0, block_position: v1, color: v2, show_effect_as_single_point: v3, particle: v4 }, n0 + n1 + n2 + n3 + n4)),
                            None => None,
                        },
                        None => None,
                    },
                    None => None,
                },
                None => None,
            },
            None => None,
        }
    }

    fn read(r: &mut Reader) -> (res: Result<Self, MooshroomError>) {
        let ghost s0 = old(r).remaining();
        let ghost p0 = old(r).pos();
        let entity_range = match <EntityMetadata as MooshroomReadable>::read(r) {
            Ok(v) => v,
            Err(e) => {
                return Err(e);
            },
        };
        proof {
            assert(r.remaining() =~= s0.skip(r.pos() - p0));
        }
        let block_position = match <F32Bits as MooshroomReadable>::read(r) {
            Ok(v) => v,
            Err(e) => {
                return Err(e);
            },
        };
        proof {
            assert(r.remaining() =~= s0.skip(r.pos() - p0));
        }
        let color = match <VarInt as MooshroomReadable>::read(r) {
            Ok(v) => v,
            Err(e) => {
                return Err(e);
            },
        };
        proof {
            assert(r.remaining() =~= s0.skip(r.pos() - p0));
        }
        let show_effect_as_single_point = match <bool as MooshroomReadable>::read(r) {
            Ok(v) => v,
            Err(e) => {
                return Err(e);
            },
        };
        proof {
            assert(r.remaining() =~= s0.skip(r.pos() - p0));
        }
        let particle = match <VarInt as MooshroomReadable>::read(r) {
            Ok(v) => v,
            Err(e) => {
                return Err(e);
            },
        };
        Ok(AreaEffectCloudMetadata { entity_range, block_position, color, show_effect_as_single_point, particle })
    }
}

impl MooshroomUpdatable for AreaEffectCloudMetadata {
    type Type = AreaEffectCloudMetadataValue;

    open spec fn spec_update(self, value: AreaEffectCloudMetadataValue) -> AreaEffectCloudMetadata {
        match value {
            AreaEffectCloudMetadataValue::EntityValue(v) => AreaEffectCloudMetadata { entity_range: self.entity_range.spec_update(v), ..self },
            AreaEffectCloudMetadataValue::Radius(v) => AreaEffectCloudMetadata { block_position: v, ..self },
            AreaEffectCloudMetadataValue::Color(v) => AreaEffectCloudMetadata { color: v, ..self },
            AreaEffectCloudMetadataValue::ShowEffectAsSinglePoint(v) => AreaEffectCloudMetadata { show_effect_as_single_point: v, ..self },
            AreaEffectCloudMetadataValue::Particle(v) => AreaEffectCloudMetadata { particle: v, ..self },
        }
    }

    fn update(&mut self, value: AreaEffectCloudMetadataValue) {
        match value {
            AreaEffectCloudMetadataValue::EntityValue(v) => {
                self.entity_range.update(v);
            },
            AreaEffectCloudMetadataValue::Radius(v) => {
                self.block_position = v;
            },
            AreaEffectCloudMetadataValue::Color(v) => {
                self.color = v;
            },
            AreaEffectCloudMetadataValue::ShowEffectAsSinglePoint(v) => {
                self.show_effect_as_single_point = v;
            },
            AreaEffectCloudMetadataValue::Particle(v) => {
                self.particle = v;
            },
        }
    }
}

#[derive(Clone, Debug, PartialEq)]
pub enum FishingHookMetadataValue {
    EntityValue(EntityMetatataValue),
    HookedEntityIdPlus1(VarInt),
    IsCachable(bool),
}

/// The mathematical value of a `FishingHookMetadataValue`, for contracts.
pub enum FishingHookMetadataValueView {
    EntityValue(EntityMetatataValueView),
    HookedEntityIdPlus1(VarInt),
    IsCachable(bool),
}

impl DeepView for FishingHookMetadataValue {
    type V = FishingHookMetadataValueView;

    open spec fn deep_view(&self) -> FishingHookMetadataValueView {
        match self {
            FishingHookMetadataValue::EntityValue(v) => FishingHookMetadataValueView::EntityValue(v.deep_view()),
            FishingHookMetadataValue::HookedEntityIdPlus1(v) => FishingHookMetadataValueView::HookedEntityIdPlus1(v.deep_view()),
            FishingHookMetadataValue::IsCachable(v) => FishingHookMetadataValueView::IsCachable(v.deep_view()),
        }
    }
}

impl MooshroomCollection for FishingHookMetadataValue {
    open spec fn spec_in_collection(id: i32) -> bool {
        (0 <= id && id <= 7) || id == 8 || id == 9
    }

    open spec fn dec_one_of(id: i32, s: Seq<u8>) -> Option<(FishingHookMetadataValueView, int)> {
        if 0 <= id && id <= 7 {
            match EntityMetatataValue::dec_one_of(id, s) {
                Some((v, n)) => Some((FishingHookMetadataValueView::EntityValue(v), n)),
                None => None,
            }
        } else if id == 8 {
            match <VarInt as MooshroomReadable>::dec(s) {
                Some((v, n)) => Some((FishingHookMetadataValueView::HookedEntityIdPlus1(v), n)),
                None => None,
            }
        } else if id == 9 {
            match <bool as MooshroomReadable>::dec(s) {
                Some((v, n)) => Some((FishingHookMetadataValueView::IsCachable(v), n)),
                None => None,
            }
        } else {
            None
        }
    }

    fn read_one_of(id: i32, r: &mut Reader) -> (res: Result<Self, MooshroomError>) {
        if 0 <= id && id <= 7 {
            proof {
                assert(EntityMetatataValue::spec_in_collection(id));
            }
            match EntityMetatataValue::read_one_of(id, r) {
                Ok(v) => Ok(FishingHookMetadataValue::EntityValue(v)),
                Err(e) => Err(e),
            }
        } else if id == 8 {
            match <VarInt as MooshroomReadable>::read(r) {
                Ok(v) => Ok(FishingHookMetadataValue::HookedEntityIdPlus1(v)),
                Err(e) => Err(e),
            }
        } else if id == 9 {
            match <bool as MooshroomReadable>::read(r) {
                Ok(v) => Ok(FishingHookMetadataValue::IsCachable(v)),
                Err(e) => Err(e),
            }
        } else {
            Err(MooshroomError::NotInCollection(id))
        }
    }
}

impl MooshroomCollectionWrite for FishingHookMetadataValue {
    open spec fn spec_variant_id(&self) -> i32 {
        match self {
            FishingHookMetadataValue::EntityValue(v) => v.spec_variant_id(),
            FishingHookMetadataValue::HookedEntityIdPlus1(_) => 8,
            FishingHookMetadataValue::IsCachable(_) => 9,
        }
    }

    open spec fn enc_body(&self) -> Seq<u8> {
        match self {
            FishingHookMetadataValue::EntityValue(v) => v.enc_body(),
            FishingHookMetadataValue::HookedEntityIdPlus1(v) => v.enc(),
            FishingHookMetadataValue::IsCachable(v) => v.enc(),
        }
    }

    fn variant_id(&self) -> (id: i32) {
        match self {
            FishingHookMetadataValue::EntityValue(v) => v.variant_id(),
            FishingHookMetadataValue::HookedEntityIdPlus1(_) => 8,
            FishingHookMetadataValue::IsCachable(_) => 9,
        }
    }

    fn write_one_of(&self, w: &mut Vec<u8>) {
        match self {
            FishingHookMetadataValue::EntityValue(v) => v.write_one_of(w),
            FishingHookMetadataValue::HookedEntityIdPlus1(v) => v.write(w),
            FishingHookMetadataValue::IsCachable(v) => v.write(w),
        }
    }
}

#[derive(Debug, Default, PartialEq)]
pub struct FishingHookMetadata {
    pub entity_range: EntityMetadata,
    pub hooked_entity_id_plus_1: VarInt,
    pub is_cachable: bool,
}

/// The mathematical value of a `FishingHookMetadata`, for contracts.
pub struct FishingHookMetadataView {
    pub entity_range: EntityMetadataView,
    pub hooked_entity_id_plus_1: VarInt,
    pub is_cachable: bool,
}

impl DeepView for FishingHookMetadata {
    type V = FishingHookMetadataView;

    open spec fn deep_view(&self) -> FishingHookMetadataView {
        FishingHookMetadataView {
            entity_range: self.entity_range.deep_view(),
            hooked_entity_id_plus_1: self.hooked_entity_id_plus_1.deep_view(),
            is_cachable: self.is_cachable.deep_view(),
        }
    }
}

impl MooshroomReadable for FishingHookMetadata {
    open spec fn dec(s: Seq<u8>) -> Option<(FishingHookMetadataView, int)> {
        match <EntityMetadata as MooshroomReadable>::dec(s) {
            Some((v0, n0)) => match <VarInt as MooshroomReadable>::dec(s.skip(n0)) {
                Some((v1, n1)) => match <bool as MooshroomReadable>::dec(s.skip(n0 + n1)) {
                    Some((v2, n2)) => Some((FishingHookMetadataView { entity_range: v0, hooked_entity_id_plus_1: v1, is_cachable: v2 }, n0 + n1 + n2)),
                    None => None,
                },
                None => None,
            },
            None => None,
        }
    }

    fn read(r: &mut Reader) -> (res: Result<Self, MooshroomError>) {
        let ghost s0 = old(r).remaining();
        let ghost p0 = old(r).pos();
        let entity_range = match <EntityMetadata as MooshroomReadable>::read(r) {
            Ok(v) => v,
            Err(e) => {
                return Err(e);
            },
        };
        proof {
            assert(r.remaining() =~= s0.skip(r.pos() - p0));
        }
        let hooked_entity_id_plus_1 = match <VarInt as MooshroomReadable>::read(r) {
            Ok(v) => v,
            Err(e) => {
                return Err(e);
            },
        };
        proof {
            assert(r.remaining() =~= s0.skip(r.pos() - p0));
        }
        let is_cachable = match <bool as MooshroomReadable>::read(r) {
            Ok(v) => v,
            Err(e) => {
                return Err(e);
            },
        };
        Ok(FishingHookMetadata { entity_range, hooked_entity_id_plus_1, is_cachable })
    }
}

impl MooshroomUpdatable for FishingHookMetadata {
    type Type = FishingHookMetadataValue;

    open spec fn spec_update(self, value: FishingHookMetadataValue) -> FishingHookMetadata {
        match value {
            FishingHookMetadataValue::EntityValue(v) => FishingHookMetadata { entity_range: self.entity_range.spec_update(v), ..self },
            FishingHookMetadataValue::HookedEntityIdPlus1(v) => FishingHookMetadata { hooked_entity_id_plus_1: v, ..self },
            FishingHookMetadataValue::IsCachable(v) => FishingHookMetadata { is_cachable: v, ..self },
        }
    }

    fn update(&mut self, value: FishingHookMetadataValue) {
        match value {
            FishingHookMetadataValue::EntityValue(v) => {
                self.entity_range.update(v);
            },
            FishingHookMetadataValue::HookedEntityIdPlus1(v) => {
                self.hooked_entity_id_plus_1 = v;
            },
            FishingHookMetadataValue::IsCachable(v) => {
                self.is_cachable = v;
            },
        }
    }
}

#[derive(Copy, Clone, Debug, Default, PartialEq, Eq)]
pub struct ArrowFlags {
    pub is_critical: bool,
    pub is_noclip: bool,
}

impl DeepView for ArrowFlags {
    type V = ArrowFlags;

    open spec fn deep_view(&self) -> ArrowFlags {
        *self
    }
}

impl MooshroomBitFlag for ArrowFlags {
    open spec fn spec_value(&self) -> u8 {
        ((if self.is_critical { 1int } else { 0int }) + (if self.is_noclip { 2int } else { 0int })) as u8
    }

    open spec fn spec_from_value(v: u8) -> ArrowFlags {
        ArrowFlags {
            is_critical: (v as int / 1) % 2 == 1,
            is_noclip: (v as int / 2) % 2 == 1,
        }
    }

    #[verifier::rlimit(50)]
    fn from_value(v: u8) -> (r: Self) {
        ArrowFlags {
            is_critical: (v / 1) % 2 == 1,
            is_noclip: (v / 2) % 2 == 1,
        }
    }

    #[verifier::rlimit(50)]
    fn to_value(&self) -> (r: u8) {
        let v: u32 = (if self.is_critical { 1u32 } else { 0u32 }) + (if self.is_noclip { 2u32 } else { 0u32 });
        v as u8
    }
}

impl MooshroomWritable for ArrowFlags {
    open spec fn enc(&self) -> Seq<u8> {
        be_enc(self.spec_value() as nat, 1)
    }

    fn write(&self, w: &mut Vec<u8>) {
        let v = self.to_value();
        <u8 as MooshroomWritable>::write(&v, w);
    }
}

impl MooshroomReadable for ArrowFlags {
    open spec fn dec(s: Seq<u8>) -> Option<(ArrowFlags, int)> {
        if s.len() >= 1 {
            Some((ArrowFlags::spec_from_value(s[0]), 1))
        } else {
            None
        }
    }

    fn read(r: &mut Reader) -> (res: Result<Self, MooshroomError>) {
        match r.read_u8() {
            Ok(b) => Ok(ArrowFlags::from_value(b)),
            Err(e) => Err(e),
        }
    }
}

impl MooshroomRoundTrip for ArrowFlags {
    open spec fn wire_bounded(&self) -> bool {
        true
    }

    proof fn lemma_round_trip(&self, rest: Seq<u8>) {
        let u = self.spec_value() as nat;
        lemma_be_enc_len(u, 1);
        lemma_be_round_trip(u, 1, rest);
        lemma_pow256_values();
        assert((self.enc() + rest)[0] == self.enc()[0]);
        assert(ArrowFlags::spec_from_value(self.spec_value()) == *self);
    }
}

#[derive(Clone, Debug, PartialEq)]
pub enum AbstractArrowMetadataValue {
    EntityValue(EntityMetatataValue),
    Bitflags(ArrowFlags),
    PiercingLevel(u8),
}

/// The mathematical value of a `AbstractArrowMetadataValue`, for contracts.
pub enum AbstractArrowMetadataValueView {
    EntityValue(EntityMetatataValueView),
    Bitflags(ArrowFlags),
    PiercingLevel(u8),
}

impl DeepView for AbstractArrowMetadataValue {
    type V = AbstractArrowMetadataValueView;

    open spec fn deep_view(&self) -> AbstractArrowMetadataValueView {
        match self {
            AbstractArrowMetadataValue::EntityValue(v) => AbstractArrowMetadataValueView::EntityValue(v.deep_view()),
            AbstractArrowMetadataValue::Bitflags(v) => AbstractArrowMetadataValueView::Bitflags(v.deep_view()),
            AbstractArrowMetadataValue::PiercingLevel(v) => AbstractArrowMetadataValueView::PiercingLevel(v.deep_view()),
        }
    }
}

impl MooshroomCollection for AbstractArrowMetadataValue {
    open spec fn spec_in_collection(id: i32) -> bool {
        (0 <= id && id <= 7) || id == 8 || id == 9
    }

    open spec fn dec_one_of(id: i32, s: Seq<u8>) -> Option<(AbstractArrowMetadataValueView, int)> {
        if 0 <= id && id <= 7 {
            match EntityMetatataValue::dec_one_of(id, s) {
                Some((v, n)) => Some((AbstractArrowMetadataValueView::EntityValue(v), n)),
                None => None,
            }
        } else if id == 8 {
            match <ArrowFlags as MooshroomReadable>::dec(s) {
                Some((v, n)) => Some((AbstractArrowMetadataValueView::Bitflags(v), n)),
                None => None,
            }
        } else if id == 9 {
            match <u8 as MooshroomReadable>::dec(s) {
                Some((v, n)) => Some((AbstractArrowMetadataValueView::PiercingLevel(v), n)),
                None => None,
            }
        } else {
            None
        }
    }

    fn read_one_of(id: i32, r: &mut Reader) -> (res: Result<Self, MooshroomError>) {
        if 0 <= id && id <= 7 {
            proof {
                assert(EntityMetatataValue::spec_in_collection(id));
            }
            match EntityMetatataValue::read_one_of(id, r) {
                Ok(v) => Ok(AbstractArrowMetadataValue::EntityValue(v)),
                Err(e) => Err(e),
            }
        } else if id == 8 {
            match <ArrowFlags as MooshroomReadable>::read(r) {
                Ok(v) => Ok(AbstractArrowMetadataValue::Bitflags(v)),
                Err(e) => Err(e),
            }
        } else if id == 9 {
            match <u8 as MooshroomReadable>::read(r) {
                Ok(v) => Ok(AbstractArrowMetadataValue::PiercingLevel(v)),
                Err(e) => Err(e),
            }
        } else {
            Err(MooshroomError::NotInCollection(id))
        }
    }
}

impl MooshroomCollectionWrite for AbstractArrowMetadataValue {
    open spec fn spec_variant_id(&self) -> i32 {
        match self {
            AbstractArrowMetadataValue::EntityValue(v) => v.spec_variant_id(),
            AbstractArrowMetadataValue::Bitflags(_) => 8,
            AbstractArrowMetadataValue::PiercingLevel(_) => 9,
        }
    }

    open spec fn enc_body(&self) -> Seq<u8> {
        match self {
            AbstractArrowMetadataValue::EntityValue(v) => v.enc_body(),
            AbstractArrowMetadataValue::Bitflags(v) => v.enc(),
            AbstractArrowMetadataValue::PiercingLevel(v) => v.enc(),
        }
    }

    fn variant_id(&self) -> (id: i32) {
        match self {
            AbstractArrowMetadataValue::EntityValue(v) => v.variant_id(),
            AbstractArrowMetadataValue::Bitflags(_) => 8,
            AbstractArrowMetadataValue::PiercingLevel(_) => 9,
        }
    }

    fn write_one_of(&self, w: &mut Vec<u8>) {
        match self {
            AbstractArrowMetadataValue::EntityValue(v) => v.write_one_of(w),
            AbstractArrowMetadataValue::Bitflags(v) => v.write(w),
            AbstractArrowMetadataValue::PiercingLevel(v) => v.write(w),
        }
    }
}

#[derive(Debug, Default, PartialEq)]
pub struct AbstractArrowMetadata {
    pub entity_range: EntityMetadata,
    pub flags: ArrowFlags,
    pub piercing_level: u8,
}

/// The mathematical value of a `AbstractArrowMetadata`, for contracts.
pub struct AbstractArrowMetadataView {
    pub entity_range: EntityMetadataView,
    pub flags: ArrowFlags,
    pub piercing_level: u8,
}

impl DeepView for AbstractArrowMetadata {
    type V = AbstractArrowMetadataView;

    open spec fn deep_view(&self) -> AbstractArrowMetadataView {
        AbstractArrowMetadataView {
            entity_range: self.entity_range.deep_view(),
            flags: self.flags.deep_view(),
            piercing_level: self.piercing_level.deep_view(),
        }
    }
}

impl MooshroomReadable for AbstractArrowMetadata {
    open spec fn dec(s: Seq<u8>) -> Option<(AbstractArrowMetadataView, int)> {
        match <EntityMetadata as MooshroomReadable>::dec(s) {
            Some((v0, n0)) => match <ArrowFlags as MooshroomReadable>::dec(s.skip(n0)) {
                Some((v1, n1)) => match <u8 as MooshroomReadable>::dec(s.skip(n0 + n1)) {
                    Some((v2, n2)) => Some((AbstractArrowMetadataView { entity_range: v0, flags: v1, piercing_level: v2 }, n0 + n1 + n2)),
                    None => None,
                },
                None => None,
            },
            None => None,
        }
    }

    fn read(r: &mut Reader) -> (res: Result<Self, MooshroomError>) {
        let ghost s0 = old(r).remaining();
        let ghost p0 = old(r).pos();
        let entity_range = match <EntityMetadata as MooshroomReadable>::read(r) {
            Ok(v) => v,
            Err(e) => {
                return Err(e);
            },
        };
        proof {
            assert(r.remaining() =~= s0.skip(r.pos() - p0));
        }
        let flags = match <ArrowFlags as MooshroomReadable>::read(r) {
            Ok(v) => v,
            Err(e) => {
                return Err(e);
            },
        };
        proof {
            assert(r.remaining() =~= s0.skip(r.pos() - p0));
        }
        let piercing_level = match <u8 as MooshroomReadable>::read(r) {
            Ok(v) => v,
            Err(e) => {
                return Err(e);
            },
        };
        Ok(AbstractArrowMetadata { entity_range, flags, piercing_level })
    }
}

impl MooshroomUpdatable for AbstractArrowMetadata {
    type Type = AbstractArrowMetadataValue;

    open spec fn spec_update(self, value: AbstractArrowMetadataValue) -> AbstractArrowMetadata {
        match value {
            AbstractArrowMetadataValue::EntityValue(v) => AbstractArrowMetadata { entity_range: self.entity_range.spec_update(v), ..self },
            AbstractArrowMetadataValue::Bitflags(v) => AbstractArrowMetadata { flags: v, ..self },
            AbstractArrowMetadataValue::PiercingLevel(v) => AbstractArrowMetadata { piercing_level: v, ..self },
        }
    }

    fn update(&mut self, value: AbstractArrowMetadataValue) {
        match value {
            AbstractArrowMetadataValue::EntityValue(v) => {
                self.entity_range.update(v);
            },
            AbstractArrowMetadataValue::Bitflags(v) => {
                self.flags = v;
            },
            AbstractArrowMetadataValue::PiercingLevel(v) => {
                self.piercing_level = v;
            },
        }
    }
}

#[derive(Clone, Debug, PartialEq)]
pub enum ArrowMetadataValue {
    ArrowMetadata(AbstractArrowMetadataValue),
    Color(VarInt),
}

/// The mathematical value of a `ArrowMetadataValue`, for contracts.
pub enum ArrowMetadataValueView {
    ArrowMetadata(AbstractArrowMetadataValueView),
    Color(VarInt),
}

impl DeepView for ArrowMetadataValue {
    type V = ArrowMetadataValueView;

    open spec fn deep_view(&self) -> ArrowMetadataValueView {
        match self {
            ArrowMetadataValue::ArrowMetadata(v) => ArrowMetadataValueView::ArrowMetadata(v.deep_view()),
            ArrowMetadataValue::Color(v) => ArrowMetadataValueView::Color(v.deep_view()),
        }
    }
}

impl MooshroomCollection for ArrowMetadataValue {
    open spec fn spec_in_collection(id: i32) -> bool {
        (0 <= id && id <= 9) || id == 10
    }

    open spec fn dec_one_of(id: i32, s: Seq<u8>) -> Option<(ArrowMetadataValueView, int)> {
        if 0 <= id && id <= 9 {
            match AbstractArrowMetadataValue::dec_one_of(id, s) {
                Some((v, n)) => Some((ArrowMetadataValueView::ArrowMetadata(v), n)),
                None => None,
            }
        } else if id == 10 {
            match <VarInt as MooshroomReadable>::dec(s) {
                Some((v, n)) => Some((ArrowMetadataValueView::Color(v), n)),
                None => None,
            }
        } else {
            None
        }
    }

    fn read_one_of(id: i32, r: &mut Reader) -> (res: Result<Self, MooshroomError>) {
        if 0 <= id && id <= 9 {
            proof {
                assert(AbstractArrowMetadataValue::spec_in_collection(id));
            }
            match AbstractArrowMetadataValue::read_one_of(id, r) {
                Ok(v) => Ok(ArrowMetadataValue::ArrowMetadata(v)),
                Err(e) => Err(e),
            }
        } else if id == 10 {
            match <VarInt as MooshroomReadable>::read(r) {
                Ok(v) => Ok(ArrowMetadataValue::Color(v)),
                Err(e) => Err(e),
            }
        } else {
            Err(MooshroomError::NotInCollection(id))
        }
    }
}

impl MooshroomCollectionWrite for ArrowMetadataValue {
    open spec fn spec_variant_id(&self) -> i32 {
        match self {
            ArrowMetadataValue::ArrowMetadata(v) => v.spec_variant_id(),
            ArrowMetadataValue::Color(_) => 10,
        }
    }

    open spec fn enc_body(&self) -> Seq<u8> {
        match self {
            ArrowMetadataValue::ArrowMetadata(v) => v.enc_body(),
            ArrowMetadataValue::Color(v) => v.enc(),
        }
    }

    fn variant_id(&self) -> (id: i32) {
        match self {
            ArrowMetadataValue::ArrowMetadata(v) => v.variant_id(),
            ArrowMetadataValue::Color(_) => 10,
        }
    }

    fn write_one_of(&self, w: &mut Vec<u8>) {
        match self {
            ArrowMetadataValue::ArrowMetadata(v) => v.write_one_of(w),
            ArrowMetadataValue::Color(v) => v.write(w),
        }
    }
}

#[derive(Debug, Default, PartialEq)]
pub struct ArrowMetadata {
    pub arrow_metadata: AbstractArrowMetadata,
    pub color: VarInt,
}

/// The mathematical value of a `ArrowMetadata`, for contracts.
pub struct ArrowMetadataView {
    pub arrow_metadata: AbstractArrowMetadataView,
    pub color: VarInt,
}

impl DeepView for ArrowMetadata {
    type V = ArrowMetadataView;

    open spec fn deep_view(&self) -> ArrowMetadataView {
        ArrowMetadataView {
            arrow_metadata: self.arrow_metadata.deep_view(),
            color: self.color.deep_view(),
        }
    }
}

impl MooshroomReadable for ArrowMetadata {
    open spec fn dec(s: Seq<u8>) -> Option<(ArrowMetadataView, int)> {
        match <AbstractArrowMetadata as MooshroomReadable>::dec(s) {
            Some((v0, n0)) => match <VarInt as MooshroomReadable>::dec(s.skip(n0)) {
                Some((v1, n1)) => Some((ArrowMetadataView { arrow_metadata: v0, color: v1 }, n0 + n1)),
                None => None,
            },
            None => None,
        }
    }

    fn read(r: &mut Reader) -> (res: Result<Self, MooshroomError>) {
        let ghost s0 = old(r).remaining();
        let ghost p0 = old(r).pos();
        let arrow_metadata = match <AbstractArrowMetadata as MooshroomReadable>::read(r) {
            Ok(v) => v,
            Err(e) => {
                return Err(e);
            },
        };
        proof {
            assert(r.remaining() =~= s0.skip(r.pos() - p0));
        }
        let color = match <VarInt as MooshroomReadable>::read(r) {
            Ok(v) => v,
            Err(e) => {
                return Err(e);
            },
        };
        Ok(ArrowMetadata { arrow_metadata, color })
    }
}

impl MooshroomUpdatable for ArrowMetadata {
    type Type = ArrowMetadataValue;

    open spec fn spec_update(self, value: ArrowMetadataValue) -> ArrowMetadata {
        match value {
            ArrowMetadataValue::ArrowMetadata(v) => ArrowMetadata { arrow_metadata: self.arrow_metadata.spec_update(v), ..self },
            ArrowMetadataValue::Color(v) => ArrowMetadata { color: v, ..self },
        }
    }

    fn update(&mut self, value: ArrowMetadataValue) {
        match value {
            ArrowMetadataValue::ArrowMetadata(v) => {
                self.arrow_metadata.update(v);
            },
            ArrowMetadataValue::Color(v) => {
                self.color = v;
            },
        }
    }
}

#[derive(Clone, Debug, PartialEq)]
pub enum SpectralArrowMetadataValue {
    ArrowMetadata(AbstractArrowMetadataValue),
}

/// The mathematical value of a `SpectralArrowMetadataValue`, for contracts.
pub enum SpectralArrowMetadataValueView {
    ArrowMetadata(AbstractArrowMetadataValueView),
}

impl DeepView for SpectralArrowMetadataValue {
    type V = SpectralArrowMetadataValueView;

    open spec fn deep_view(&self) -> SpectralArrowMetadataValueView {
        match self {
            SpectralArrowMetadataValue::ArrowMetadata(v) => SpectralArrowMetadataValueView::ArrowMetadata(v.deep_view()),
        }
    }
}

impl MooshroomCollection for SpectralArrowMetadataValue {
    open spec fn spec_in_collection(id: i32) -> bool {
        (0 <= id && id <= 9)
    }

    open spec fn dec_one_of(id: i32, s: Seq<u8>) -> Option<(SpectralArrowMetadataValueView, int)> {
        if 0 <= id && id <= 9 {
            match AbstractArrowMetadataValue::dec_one_of(id, s) {
                Some((v, n)) => Some((SpectralArrowMetadataValueView::ArrowMetadata(v), n)),
                None => None,
            }
        } else {
            None
        }
    }

    fn read_one_of(id: i32, r: &mut Reader) -> (res: Result<Self, MooshroomError>) {
        if 0 <= id && id <= 9 {
            proof {
                assert(AbstractArrowMetadataValue::spec_in_collection(id));
            }
            match AbstractArrowMetadataValue::read_one_of(id, r) {
                Ok(v) => Ok(SpectralArrowMetadataValue::ArrowMetadata(v)),
                Err(e) => Err(e),
            }
        } else {
            Err(MooshroomError::NotInCollection(id))
        }
    }
}

impl MooshroomCollectionWrite for SpectralArrowMetadataValue {
    open spec fn spec_variant_id(&self) -> i32 {
        match self {
            SpectralArrowMetadataValue::ArrowMetadata(v) => v.spec_variant_id(),
        }
    }

    open spec fn enc_body(&self) -> Seq<u8> {
        match self {
            SpectralArrowMetadataValue::ArrowMetadata(v) => v.enc_body(),
        }
    }

    fn variant_id(&self) -> (id: i32) {
        match self {
            SpectralArrowMetadataValue::ArrowMetadata(v) => v.variant_id(),
        }
    }

    fn write_one_of(&self, w: &mut Vec<u8>) {
        match self {
            SpectralArrowMetadataValue::ArrowMetadata(v) => v.write_one_of(w),
        }
    }
}

#[derive(Debug, Default, PartialEq)]
pub struct SpectralArrowMetadata {
    pub arrow_metadata: AbstractArrowMetadata,
}

/// The mathematical value of a `SpectralArrowMetadata`, for contracts.
pub struct SpectralArrowMetadataView {
    pub arrow_metadata: AbstractArrowMetadataView,
}

impl DeepView for SpectralArrowMetadata {
    type V = SpectralArrowMetadataView;

    open spec fn deep_view(&self) -> SpectralArrowMetadataView {
        SpectralArrowMetadataView {
            arrow_metadata: self.arrow_metadata.deep_view(),
        }
    }
}

impl MooshroomReadable for SpectralArrowMetadata {
    open spec fn dec(s: Seq<u8>) -> Option<(SpectralArrowMetadataView, int)> {
        match <AbstractArrowMetadata as MooshroomReadable>::dec(s) {
            Some((v0, n0)) => Some((SpectralArrowMetadataView { arrow_metadata: v0 }, n0)),
            None => None,
        }
    }

    fn read(r: &mut Reader) -> (res: Result<Self, MooshroomError>) {
        let ghost s0 = old(r).remaining();
        let ghost p0 = old(r).pos();
        let arrow_metadata = match <AbstractArrowMetadata as MooshroomReadable>::read(r) {
            Ok(v) => v,
            Err(e) => {
                return Err(e);
            },
        };
        Ok(SpectralArrowMetadata { arrow_metadata })
    }
}

impl MooshroomUpdatable for SpectralArrowMetadata {
    type Type = SpectralArrowMetadataValue;

    open spec fn spec_update(self, value: SpectralArrowMetadataValue) -> SpectralArrowMetadata {
        match value {
            SpectralArrowMetadataValue::ArrowMetadata(v) => SpectralArrowMetadata { arrow_metadata: self.arrow_metadata.spec_update(v), ..self },
        }
    }

    fn update(&mut self, value: SpectralArrowMetadataValue) {
        match value {
            SpectralArrowMetadataValue::ArrowMetadata(v) => {
                self.arrow_metadata.update(v);
            },
        }
    }
}

#[derive(Clone, Debug, PartialEq)]
pub enum ThrowTridentMetadataValue {
    ArrowMetadata(AbstractArrowMetadataValue),
    LoyaltyLevel(VarInt),
    HasEnchantmentGlint(bool),
}

/// The mathematical value of a `ThrowTridentMetadataValue`, for contracts.
pub enum ThrowTridentMetadataValueView {
    ArrowMetadata(AbstractArrowMetadataValueView),
    LoyaltyLevel(VarInt),
    HasEnchantmentGlint(bool),
}

impl DeepView for ThrowTridentMetadataValue {
    type V = ThrowTridentMetadataValueView;

    open spec fn deep_view(&self) -> ThrowTridentMetadataValueView {
        match self {
            ThrowTridentMetadataValue::ArrowMetadata(v) => ThrowTridentMetadataValueView::ArrowMetadata(v.deep_view()),
            ThrowTridentMetadataValue::LoyaltyLevel(v) => ThrowTridentMetadataValueView::LoyaltyLevel(v.deep_view()),
            ThrowTridentMetadataValue::HasEnchantmentGlint(v) => ThrowTridentMetadataValueView::HasEnchantmentGlint(v.deep_view()),
        }
    }
}

impl MooshroomCollection for ThrowTridentMetadataValue {
    open spec fn spec_in_collection(id: i32) -> bool {
        (0 <= id && id <= 9) || id == 10 || id == 11
    }

    open spec fn dec_one_of(id: i32, s: Seq<u8>) -> Option<(ThrowTridentMetadataValueView, int)> {
        if 0 <= id && id <= 9 {
            match AbstractArrowMetadataValue::dec_one_of(id, s) {
                Some((v, n)) => Some((ThrowTridentMetadataValueView::ArrowMetadata(v), n)),
                None => None,
            }
        } else if id == 10 {
            match <VarInt as MooshroomReadable>::dec(s) {
                Some((v, n)) => Some((ThrowTridentMetadataValueView::LoyaltyLevel(v), n)),
                None => None,
            }
        } else if id == 11 {
            match <bool as MooshroomReadable>::dec(s) {
                Some((v, n)) => Some((ThrowTridentMetadataValueView::HasEnchantmentGlint(v), n)),
                None => None,
            }
        } else {
            None
        }
    }

    fn read_one_of(id: i32, r: &mut Reader) -> (res: Result<Self, MooshroomError>) {
        if 0 <= id && id <= 9 {
            proof {
                assert(AbstractArrowMetadataValue::spec_in_collection(id));
            }
            match AbstractArrowMetadataValue::read_one_of(id, r) {
                Ok(v) => Ok(ThrowTridentMetadataValue::ArrowMetadata(v)),
                Err(e) => Err(e),
            }
        } else if id == 10 {
            match <VarInt as MooshroomReadable>::read(r) {
                Ok(v) => Ok(ThrowTridentMetadataValue::LoyaltyLevel(v)),
                Err(e) => Err(e),
            }
        } else if id == 11 {
            match <bool as MooshroomReadable>::read(r) {
                Ok(v) => Ok(ThrowTridentMetadataValue::HasEnchantmentGlint(v)),
                Err(e) => Err(e),
            }
        } else {
            Err(MooshroomError::NotInCollection(id))
        }
    }
}

impl MooshroomCollectionWrite for ThrowTridentMetadataValue {
    open spec fn spec_variant_id(&self) -> i32 {
        match self {
            ThrowTridentMetadataValue::ArrowMetadata(v) => v.spec_variant_id(),
            ThrowTridentMetadataValue::LoyaltyLevel(_) => 10,
            ThrowTridentMetadataValue::HasEnchantmentGlint(_) => 11,
        }
    }

    open spec fn enc_body(&self) -> Seq<u8> {
        match self {
            ThrowTridentMetadataValue::ArrowMetadata(v) => v.enc_body(),
            ThrowTridentMetadataValue::LoyaltyLevel(v) => v.enc(),
            ThrowTridentMetadataValue::HasEnchantmentGlint(v) => v.enc(),
        }
    }

    fn variant_id(&self) -> (id: i32) {
        match self {
            ThrowTridentMetadataValue::ArrowMetadata(v) => v.variant_id(),
            ThrowTridentMetadataValue::LoyaltyLevel(_) => 10,
            ThrowTridentMetadataValue::HasEnchantmentGlint(_) => 11,
        }
    }

    fn write_one_of(&self, w: &mut Vec<u8>) {
        match self {
            ThrowTridentMetadataValue::ArrowMetadata(v) => v.write_one_of(w),
            ThrowTridentMetadataValue::LoyaltyLevel(v) => v.write(w),
            ThrowTridentMetadataValue::HasEnchantmentGlint(v) => v.write(w),
        }
    }
}

#[derive(Debug, Default, PartialEq)]
pub struct ThrowTridentMetadata {
    pub arrow_metadata: AbstractArrowMetadata,
    pub loyalty_level: VarInt,
    pub has_enchantment_glint: bool,
}

/// The mathematical value of a `ThrowTridentMetadata`, for contracts.
pub struct ThrowTridentMetadataView {
    pub arrow_metadata: AbstractArrowMetadataView,
    pub loyalty_level: VarInt,
    pub has_enchantment_glint: bool,
}

impl DeepView for ThrowTridentMetadata {
    type V = ThrowTridentMetadataView;

    open spec fn deep_view(&self) -> ThrowTridentMetadataView {
        ThrowTridentMetadataView {
            arrow_metadata: self.arrow_metadata.deep_view(),
            loyalty_level: self.loyalty_level.deep_view(),
            has_enchantment_glint: self.has_enchantment_glint.deep_view(),
        }
    }
}

impl MooshroomReadable for ThrowTridentMetadata {
    open spec fn dec(s: Seq<u8>) -> Option<(ThrowTridentMetadataView, int)> {
        match <AbstractArrowMetadata as MooshroomReadable>::dec(s) {
            Some((v0, n0)) => match <VarInt as MooshroomReadable>::dec(s.skip(n0)) {
                Some((v1, n1)) => match <bool as MooshroomReadable>::dec(s.skip(n0 + n1)) {
                    Some((v2, n2)) => Some((ThrowTridentMetadataView { arrow_metadata: v0, loyalty_level: v1, has_enchantment_glint: v2 }, n0 + n1 + n2)),
                    None => None,
                },
                None => None,
            },
            None => None,
        }
    }

    fn read(r: &mut Reader) -> (res: Result<Self, MooshroomError>) {
        let ghost s0 = old(r).remaining();
        let ghost p0 = old(r).pos();
        let arrow_metadata = match <AbstractArrowMetadata as MooshroomReadable>::read(r) {
            Ok(v) => v,
            Err(e) => {
                return Err(e);
            },
        };
        proof {
            assert(r.remaining() =~= s0.skip(r.pos() - p0));
        }
        let loyalty_level = match <VarInt as MooshroomReadable>::read(r) {
            Ok(v) => v,
            Err(e) => {
                return Err(e);
            },
        };
        proof {
            assert(r.remaining() =~= s0.skip(r.pos() - p0));
        }
        let has_enchantment_glint = match <bool as MooshroomReadable>::read(r) {
            Ok(v) => v,
            Err(e) => {
                return Err(e);
            },
        };
        Ok(ThrowTridentMetadata { arrow_metadata, loyalty_level, has_enchantment_glint })
    }
}

impl MooshroomUpdatable for ThrowTridentMetadata {
    type Type = ThrowTridentMetadataValue;

    open spec fn spec_update(self, value: ThrowTridentMetadataValue) -> ThrowTridentMetadata {
        match value {
            ThrowTridentMetadataValue::ArrowMetadata(v) => ThrowTridentMetadata { arrow_metadata: self.arrow_metadata.spec_update(v), ..self },
            ThrowTridentMetadataValue::LoyaltyLevel(v) => ThrowTridentMetadata { loyalty_level: v, ..self },
            ThrowTridentMetadataValue::HasEnchantmentGlint(v) => ThrowTridentMetadata { has_enchantment_glint: v, ..self },
        }
    }

    fn update(&mut self, value: ThrowTridentMetadataValue) {
        match value {
            ThrowTridentMetadataValue::ArrowMetadata(v) => {
                self.arrow_metadata.update(v);
            },
            ThrowTridentMetadataValue::LoyaltyLevel(v) => {
                self.loyalty_level = v;
            },
            ThrowTridentMetadataValue::HasEnchantmentGlint(v) => {
                self.has_enchantment_glint = v;
            },
        }
    }
}

#[derive(Copy, Clone, Debug, Default, PartialEq, Eq)]
pub enum BoatType {
    #[default]
    Oak,
    Spruce,
    Birch,
    Jungle,
    Aracina,
    DarkOak,
}

impl DeepView for BoatType {
    type V = BoatType;

    open spec fn deep_view(&self) -> BoatType {
        *self
    }
}

impl MooshroomValue for BoatType {
    open spec fn spec_value(&self) -> int {
        match self {
            BoatType::Oak => 0,
            BoatType::Spruce => 1,
            BoatType::Birch => 2,
            BoatType::Jungle => 3,
            BoatType::Aracina => 4,
            BoatType::DarkOak => 5,
        }
    }

    open spec fn spec_from_value(v: int) -> Option<BoatType> {
        if v == 0 {
            Some(BoatType::Oak)
        } else if v == 1 {
            Some(BoatType::Spruce)
        } else if v == 2 {
            Some(BoatType::Birch)
        } else if v == 3 {
            Some(BoatType::Jungle)
        } else if v == 4 {
            Some(BoatType::Aracina)
        } else if v == 5 {
            Some(BoatType::DarkOak)
        } else {
            None
        }
    }

    fn from_value(v: i32) -> (res: Result<Self, MooshroomError>) {
        if v == 0 {
            Ok(BoatType::Oak)
        } else if v == 1 {
            Ok(BoatType::Spruce)
        } else if v == 2 {
            Ok(BoatType::Birch)
        } else if v == 3 {
            Ok(BoatType::Jungle)
        } else if v == 4 {
            Ok(BoatType::Aracina)
        } else if v == 5 {
            Ok(BoatType::DarkOak)
        } else {
            Err(MooshroomError::InvalidEnumVariant(v))
        }
    }

    fn to_value(&self) -> (res: Result<i32, MooshroomError>) {
        match self {
            BoatType::Oak => Ok(0),
            BoatType::Spruce => Ok(1),
            BoatType::Birch => Ok(2),
            BoatType::Jungle => Ok(3),
            BoatType::Aracina => Ok(4),
            BoatType::DarkOak => Ok(5),
        }
    }
}

impl MooshroomWritable for BoatType {
    open spec fn enc(&self) -> Seq<u8> {
        varint_enc(self.spec_value())
    }

    fn write(&self, w: &mut Vec<u8>) {
        let v: i32 = match self {
            BoatType::Oak => 0,
            BoatType::Spruce => 1,
            BoatType::Birch => 2,
            BoatType::Jungle => 3,
            BoatType::Aracina => 4,
            BoatType::DarkOak => 5,
        };
        write_varint(VarInt(v), w);
    }
}

impl MooshroomReadable for BoatType {
    open spec fn dec(s: Seq<u8>) -> Option<(BoatType, int)> {
        match varint_dec(s) {
            Some((v, n)) => match BoatType::spec_from_value(v as int) {
                Some(e) => Some((e, n)),
                None => None,
            },
            None => None,
        }
    }

    fn read(r: &mut Reader) -> (res: Result<Self, MooshroomError>) {
        match read_varint(r) {
            Ok(v) => match BoatType::from_value(v.0) {
                Ok(e) => Ok(e),
                Err(e) => Err(e),
            },
            Err(e) => Err(e),
        }
    }
}

impl MooshroomRoundTrip for BoatType {
    open spec fn wire_bounded(&self) -> bool {
        true
    }

    proof fn lemma_round_trip(&self, rest: Seq<u8>) {
        lemma_varint_round_trip(self.spec_value() as i32, rest);
        assert(BoatType::spec_from_value(self.spec_value()) == Some(*self));
    }
}


/// A particle payload, carried as its bare numeric identifier.
pub type Particle = VarInt;

} // verus!
