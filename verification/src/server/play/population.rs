use vstd::prelude::*;

#[allow(unused_imports)]
use crate::containers::{Json, TOption};
#[allow(unused_imports)]
use crate::data::{
    MooshroomBitFlag, MooshroomCollection, MooshroomCollectionWrite, MooshroomIdentifiable,
    MooshroomUpdatable, MooshroomValue,
};
#[allow(unused_imports)]
use crate::error::MooshroomError;
#[allow(unused_imports)]
use crate::io::{
    MooshroomCommand, MooshroomPacket, MooshroomReadable, MooshroomRoundTrip, MooshroomWritable,
};
#[allow(unused_imports)]
use crate::primitives::{
    be_dec, be_enc, lemma_be_dec_bound, lemma_be_enc_len, lemma_be_round_trip,
    lemma_pow256_values, sig_to_un,
    str_eq, un_to_sig, F32Bits, F64Bits, Identifier, Position, Uuid, Vec3,
};
#[allow(unused_imports)]
use crate::reader::Reader;
#[allow(unused_imports)]
use crate::varint::{
    lemma_varint_round_trip, read_varint, varint_dec, varint_enc, write_varint, VarInt, VarLong,
};
#[allow(unused_imports)]
use vstd::string::StringExecFns;
#[allow(unused_imports)]
use super::crafting::{Slot, SlotData, SlotDataView};
#[allow(unused_imports)]
use super::nbt::NptCompound;
#[allow(unused_imports)]
use super::world::{Angle, GameMode, WorldPosition};
#[allow(unused_imports)]
use crate::data::entity_data::EntityType;
#[allow(unused_imports)]
use crate::shared::{SignatureData, SignatureDataView};

verus! {

/// A new entity entering view: identifier, kind, pose and velocity.
#[derive(Copy, Clone, Debug, Default, PartialEq, Eq)]
pub struct SpawnEntity {
    pub entity_id: VarInt,
    pub entity_uuid: Uuid,
    pub entity_type: EntityType,
    pub position: WorldPosition,
    pub pitch: Angle,
    pub yaw: Angle,
    pub head_yaw: Angle,
    pub data: VarInt,
    pub velocity: Vec3<i16>,
}

impl DeepView for SpawnEntity {
    type V = SpawnEntity;

    open spec fn deep_view(&self) -> SpawnEntity {
        *self
    }
}

impl MooshroomWritable for SpawnEntity {
    open spec fn enc(&self) -> Seq<u8> {
        self.entity_id.enc() + self.entity_uuid.enc() + self.entity_type.enc() + self.position.enc() + self.pitch.enc() + self.yaw.enc() + self.head_yaw.enc() + self.data.enc() + self.velocity.enc()
    }

    fn write(&self, w: &mut Vec<u8>) {
        self.entity_id.write(w);
        self.entity_uuid.write(w);
        self.entity_type.write(w);
        self.position.write(w);
        self.pitch.write(w);
        self.yaw.write(w);
        self.head_yaw.write(w);
        self.data.write(w);
        self.velocity.write(w);
        proof {
            assert(w@ =~= old(w)@ + self.enc());
        }
    }
}

impl MooshroomReadable for SpawnEntity {
    open spec fn dec(s: Seq<u8>) -> Option<(SpawnEntity, int)> {
        match <VarInt as MooshroomReadable>::dec(s) {
            Some((v0, n0)) => match <Uuid as MooshroomReadable>::dec(s.skip(n0)) {
                Some((v1, n1)) => match <EntityType as MooshroomReadable>::dec(s.skip(n0 + n1)) {
                    Some((v2, n2)) => match <Vec3<F64Bits> as MooshroomReadable>::dec(s.skip(n0 + n1 + n2)) {
                        Some((v3, n3)) => match <Angle as MooshroomReadable>::dec(s.skip(n0 + n1 + n2 + n3)) {
                            Some((v4, n4)) => match <Angle as MooshroomReadable>::dec(s.skip(n0 + n1 + n2 + n3 + n4)) {
                                Some((v5, n5)) => match <Angle as MooshroomReadable>::dec(s.skip(n0 + n1 + n2 + n3 + n4 + n5)) {
                                    Some((v6, n6)) => match <VarInt as MooshroomReadable>::dec(s.skip(n0 + n1 + n2 + n3 + n4 + n5 + n6)) {
                                        Some((v7, n7)) => match <Vec3<i16> as MooshroomReadable>::dec(s.skip(n0 + n1 + n2 + n3 + n4 + n5 + n6 + n7)) {
                                            Some((v8, n8)) => Some((SpawnEntity { entity_id: v0, entity_uuid: v1, entity_type: v2, position: v3, pitch: v4, yaw: v5, head_yaw: v6, data: v7, velocity: v8 }, n0 + n1 + n2 + n3 + n4 + n5 + n6 + n7 + n8)),
                                            None => None,
                                        },
                                        None => None,
                                    },
                                    None => None,
                                },
                                None => None,
                            },
                            None => None,
                        },
                        None => None,
                    },
                    None => None,
                },
                None => None,
            },
            None => None,
        }
    }

    #[verifier::rlimit(100)]
    fn read(r: &mut Reader) -> (res: Result<Self, MooshroomError>) {
        let ghost s0 = old(r).remaining();
        let ghost p0 = old(r).pos();
        let entity_id = match <VarInt as MooshroomReadable>::read(r) {
            Ok(v) => v,
            Err(e) => {
                return Err(e);
            },
        };
        proof {
            assert(r.remaining() =~= s0.skip(r.pos() - p0));
        }
        let entity_uuid = match <Uuid as MooshroomReadable>::read(r) {
            Ok(v) => v,
            Err(e) => {
                return Err(e);
            },
        };
        proof {
            assert(r.remaining() =~= s0.skip(r.pos() - p0));
        }
        let entity_type = match <EntityType as MooshroomReadable>::read(r) {
            Ok(v) => v,
            Err(e) => {
                return Err(e);
            },
        };
        proof {
            assert(r.remaining() =~= s0.skip(r.pos() - p0));
        }
        let position = match <Vec3<F64Bits> as MooshroomReadable>::read(r) {
            Ok(v) => v,
            Err(e) => {
                return Err(e);
            },
        };
        proof {
            assert(r.remaining() =~= s0.skip(r.pos() - p0));
        }
        let pitch = match <Angle as MooshroomReadable>::read(r) {
            Ok(v) => v,
            Err(e) => {
                return Err(e);
            },
        };
        proof {
            assert(r.remaining() =~= s0.skip(r.pos() - p0));
        }
        let yaw = match <Angle as MooshroomReadable>::read(r) {
            Ok(v) => v,
            Err(e) => {
                return Err(e);
            },
        };
        proof {
            assert(r.remaining() =~= s0.skip(r.pos() - p0));
        }
        let head_yaw = match <Angle as MooshroomReadable>::read(r) {
            Ok(v) => v,
            Err(e) => {
                return Err(e);
            },
        };
        proof {
            assert(r.remaining() =~= s0.skip(r.pos() - p0));
        }
        let data = match <VarInt as MooshroomReadable>::read(r) {
            Ok(v) => v,
            Err(e) => {
                return Err(e);
            },
        };
        proof {
            assert(r.remaining() =~= s0.skip(r.pos() - p0));
        }
        let velocity = match <Vec3<i16> as MooshroomReadable>::read(r) {
            Ok(v) => v,
            Err(e) => {
                return Err(e);
            },
        };
        Ok(SpawnEntity { entity_id, entity_uuid, entity_type, position, pitch, yaw, head_yaw, data, velocity })
    }
}

impl MooshroomRoundTrip for SpawnEntity {
    open spec fn wire_bounded(&self) -> bool {
        self.entity_id.wire_bounded() && self.entity_uuid.wire_bounded() && self.entity_type.wire_bounded() && self.position.wire_bounded() && self.pitch.wire_bounded() && self.yaw.wire_bounded() && self.head_yaw.wire_bounded() && self.data.wire_bounded() && self.velocity.wire_bounded()
    }

    #[verifier::rlimit(100)]
    proof fn lemma_round_trip(&self, rest: Seq<u8>)
    {
        let t9 = rest;
        let t8 = self.velocity.enc() + t9;
        let t7 = self.data.enc() + t8;
        let t6 = self.head_yaw.enc() + t7;
        let t5 = self.yaw.enc() + t6;
        let t4 = self.pitch.enc() + t5;
        let t3 = self.position.enc() + t4;
        let t2 = self.entity_type.enc() + t3;
        let t1 = self.entity_uuid.enc() + t2;
        let t0 = self.entity_id.enc() + t1;
        let s = self.enc() + rest;
        crate::io::lemma_concat_assoc(self.entity_id.enc() + self.entity_uuid.enc() + self.entity_type.enc() + self.position.enc() + self.pitch.enc() + self.yaw.enc() + self.head_yaw.enc() + self.data.enc(), self.velocity.enc(), t9);
        crate::io::lemma_concat_assoc(self.entity_id.enc() + self.entity_uuid.enc() + self.entity_type.enc() + self.position.enc() + self.pitch.enc() + self.yaw.enc() + self.head_yaw.enc(), self.data.enc(), t8);
        crate::io::lemma_concat_assoc(self.entity_id.enc() + self.entity_uuid.enc() + self.entity_type.enc() + self.position.enc() + self.pitch.enc() + self.yaw.enc(), self.head_yaw.enc(), t7);
        crate::io::lemma_concat_assoc(self.entity_id.enc() + self.entity_uuid.enc() + self.entity_type.enc() + self.position.enc() + self.pitch.enc(), self.yaw.enc(), t6);
        crate::io::lemma_concat_assoc(self.entity_id.enc() + self.entity_uuid.enc() + self.entity_type.enc() + self.position.enc(), self.pitch.enc(), t5);
        crate::io::lemma_concat_assoc(self.entity_id.enc() + self.entity_uuid.enc() + self.entity_type.enc(), self.position.enc(), t4);
        crate::io::lemma_concat_assoc(self.entity_id.enc() + self.entity_uuid.enc(), self.entity_type.enc(), t3);
        crate::io::lemma_concat_assoc(self.entity_id.enc(), self.entity_uuid.enc(), t2);
        assert(s == t0);
        self.entity_id.lemma_round_trip(t1);
        crate::io::lemma_concat_skip_prefix(self.entity_id.enc(), t1);
        self.entity_uuid.lemma_round_trip(t2);
        crate::io::lemma_concat_skip_prefix(self.entity_uuid.enc(), t2);
        crate::io::lemma_skip_of_skip(s, (self.entity_id.enc().len()) as int, self.entity_uuid.enc().len() as int);
        self.entity_type.lemma_round_trip(t3);
        crate::io::lemma_concat_skip_prefix(self.entity_type.enc(), t3);
        crate::io::lemma_skip_of_skip(s, (self.entity_id.enc().len() + self.entity_uuid.enc().len()) as int, self.entity_type.enc().len() as int);
        self.position.lemma_round_trip(t4);
        crate::io::lemma_concat_skip_prefix(self.position.enc(), t4);
        crate::io::lemma_skip_of_skip(s, (self.entity_id.enc().len() + self.entity_uuid.enc().len() + self.entity_type.enc().len()) as int, self.position.enc().len() as int);
        self.pitch.lemma_round_trip(t5);
        crate::io::lemma_concat_skip_prefix(self.pitch.enc(), t5);
        crate::io::lemma_skip_of_skip(s, (self.entity_id.enc().len() + self.entity_uuid.enc().len() + self.entity_type.enc().len() + self.position.enc().len()) as int, self.pitch.enc().len() as int);
        self.yaw.lemma_round_trip(t6);
        crate::io::lemma_concat_skip_prefix(self.yaw.enc(), t6);
        crate::io::lemma_skip_of_skip(s, (self.entity_id.enc().len() + self.entity_uuid.enc().len() + self.entity_type.enc().len() + self.position.enc().len() + self.pitch.enc().len()) as int, self.yaw.enc().len() as int);
        self.head_yaw.lemma_round_trip(t7);
        crate::io::lemma_concat_skip_prefix(self.head_yaw.enc(), t7);
        crate::io::lemma_skip_of_skip(s, (self.entity_id.enc().len() + self.entity_uuid.enc().len() + self.entity_type.enc().len() + self.position.enc().len() + self.pitch.enc().len() + self.yaw.enc().len()) as int, self.head_yaw.enc().len() as int);
        self.data.lemma_round_trip(t8);
        crate::io::lemma_concat_skip_prefix(self.data.enc(), t8);
        crate::io::lemma_skip_of_skip(s, (self.entity_id.enc().len() + self.entity_uuid.enc().len() + self.entity_type.enc().len() + self.position.enc().len() + self.pitch.enc().len() + self.yaw.enc().len() + self.head_yaw.enc().len()) as int, self.data.enc().len() as int);
        self.velocity.lemma_round_trip(t9);
        crate::io::lemma_concat_skip_prefix(self.velocity.enc(), t9);
        crate::io::lemma_skip_of_skip(s, (self.entity_id.enc().len() + self.entity_uuid.enc().len() + self.entity_type.enc().len() + self.position.enc().len() + self.pitch.enc().len() + self.yaw.enc().len() + self.head_yaw.enc().len() + self.data.enc().len()) as int, self.velocity.enc().len() as int);
    }
}

impl MooshroomPacket for SpawnEntity {
    open spec fn spec_packet_id() -> i32 {
        0
    }

    fn packet_id() -> (id: i32) {
        0
    }
}

#[derive(Copy, Clone, Debug, Default, PartialEq, Eq)]
pub struct SpawnPlayer {
    pub entity_id: VarInt,
    pub player_uuid: Uuid,
    pub position: WorldPosition,
    pub yaw: Angle,
    pub pitch: Angle,
}

impl DeepView for SpawnPlayer {
    type V = SpawnPlayer;

    open spec fn deep_view(&self) -> SpawnPlayer {
        *self
    }
}

impl MooshroomWritable for SpawnPlayer {
    open spec fn enc(&self) -> Seq<u8> {
        self.entity_id.enc() + self.player_uuid.enc() + self.position.enc() + self.yaw.enc() + self.pitch.enc()
    }

    fn write(&self, w: &mut Vec<u8>) {
        self.entity_id.write(w);
        self.player_uuid.write(w);
        self.position.write(w);
        self.yaw.write(w);
        self.pitch.write(w);
        proof {
            assert(w@ =~= old(w)@ + self.enc());
        }
    }
}

impl MooshroomReadable for SpawnPlayer {
    open spec fn dec(s: Seq<u8>) -> Option<(SpawnPlayer, int)> {
        match <VarInt as MooshroomReadable>::dec(s) {
            Some((v0, n0)) => match <Uuid as MooshroomReadable>::dec(s.skip(n0)) {
                Some((v1, n1)) => match <Vec3<F64Bits> as MooshroomReadable>::dec(s.skip(n0 + n1)) {
                    Some((v2, n2)) => match <Angle as MooshroomReadable>::dec(s.skip(n0 + n1 + n2)) {
                        Some((v3, n3)) => match <Angle as MooshroomReadable>::dec(s.skip(n0 + n1 + n2 + n3)) {
                            Some((v4, n4)) => Some((SpawnPlayer { entity_id: v0, player_uuid: v1, position: v2, yaw: v3, pitch: v4 }, n0 + n1 + n2 + n3 + n4)),
                            None => None,
                        },
                        None => None,
                    },
                    None => None,
                },
                None => None,
            },
            None => None,
        }
    }

    fn read(r: &mut Reader) -> (res: Result<Self, MooshroomError>) {
        let ghost s0 = old(r).remaining();
        let ghost p0 = old(r).pos();
        let entity_id = match <VarInt as MooshroomReadable>::read(r) {
            Ok(v) => v,
            Err(e) => {
                return Err(e);
            },
        };
        proof {
            assert(r.remaining() =~= s0.skip(r.pos() - p0));
        }
        let player_uuid = match <Uuid as MooshroomReadable>::read(r) {
            Ok(v) => v,
            Err(e) => {
                return Err(e);
            },
        };
        proof {
            assert(r.remaining() =~= s0.skip(r.pos() - p0));
        }
        let position = match <Vec3<F64Bits> as MooshroomReadable>::read(r) {
            Ok(v) => v,
            Err(e) => {
                return Err(e);
            },
        };
        proof {
            assert(r.remaining() =~= s0.skip(r.pos() - p0));
        }
        let yaw = match <Angle as MooshroomReadable>::read(r) {
            Ok(v) => v,
            Err(e) => {
                return Err(e);
            },
        };
        proof {
            assert(r.remaining() =~= s0.skip(r.pos() - p0));
        }
        let pitch = match <Angle as MooshroomReadable>::read(r) {
            Ok(v) => v,
            Err(e) => {
                return Err(e);
            },
        };
        Ok(SpawnPlayer { entity_id, player_uuid, position, yaw, pitch })
    }
}

impl MooshroomRoundTrip for SpawnPlayer {
    open spec fn wire_bounded(&self) -> bool {
        self.entity_id.wire_bounded() && self.player_uuid.wire_bounded() && self.position.wire_bounded() && self.yaw.wire_bounded() && self.pitch.wire_bounded()
    }

    #[verifier::rlimit(100)]
    proof fn lemma_round_trip(&self, rest: Seq<u8>)
    {
        let t5 = rest;
        let t4 = self.pitch.enc() + t5;
        let t3 = self.yaw.enc() + t4;
        let t2 = self.position.enc() + t3;
        let t1 = self.player_uuid.enc() + t2;
        let t0 = self.entity_id.enc() + t1;
        let s = self.enc() + rest;
        crate::io::lemma_concat_assoc(self.entity_id.enc() + self.player_uuid.enc() + self.position.enc() + self.yaw.enc(), self.pitch.enc(), t5);
        crate::io::lemma_concat_assoc(self.entity_id.enc() + self.player_uuid.enc() + self.position.enc(), self.yaw.enc(), t4);
        crate::io::lemma_concat_assoc(self.entity_id.enc() + self.player_uuid.enc(), self.position.enc(), t3);
        crate::io::lemma_concat_assoc(self.entity_id.enc(), self.player_uuid.enc(), t2);
        assert(s == t0);
        self.entity_id.lemma_round_trip(t1);
        crate::io::lemma_concat_skip_prefix(self.entity_id.enc(), t1);
        self.player_uuid.lemma_round_trip(t2);
        crate::io::lemma_concat_skip_prefix(self.player_uuid.enc(), t2);
        crate::io::lemma_skip_of_skip(s, (self.entity_id.enc().len()) as int, self.player_uuid.enc().len() as int);
        self.position.lemma_round_trip(t3);
        crate::io::lemma_concat_skip_prefix(self.position.enc(), t3);
        crate::io::lemma_skip_of_skip(s, (self.entity_id.enc().len() + self.player_uuid.enc().len()) as int, self.position.enc().len() as int);
        self.yaw.lemma_round_trip(t4);
        crate::io::lemma_concat_skip_prefix(self.yaw.enc(), t4);
        crate::io::lemma_skip_of_skip(s, (self.entity_id.enc().len() + self.player_uuid.enc().len() + self.position.enc().len()) as int, self.yaw.enc().len() as int);
        self.pitch.lemma_round_trip(t5);
        crate::io::lemma_concat_skip_prefix(self.pitch.enc(), t5);
        crate::io::lemma_skip_of_skip(s, (self.entity_id.enc().len() + self.player_uuid.enc().len() + self.position.enc().len() + self.yaw.enc().len()) as int, self.pitch.enc().len() as int);
    }
}

impl MooshroomPacket for SpawnPlayer {
    open spec fn spec_packet_id() -> i32 {
        2
    }

    fn packet_id() -> (id: i32) {
        2
    }
}

#[derive(Copy, Clone, Debug, Default, PartialEq, Eq)]
pub enum Animation {
    #[default]
    SwingMainArm,
    TakeDamage,
    LeaveBed,
    SwingOffhand,
    CriticalEffect,
    MagicCriticalEfect,
}

impl DeepView for Animation {
    type V = Animation;

    open spec fn deep_view(&self) -> Animation {
        *self
    }
}

impl MooshroomValue for Animation {
    open spec fn spec_value(&self) -> int {
        match self {
            Animation::SwingMainArm => 0,
            Animation::TakeDamage => 1,
            Animation::LeaveBed => 2,
            Animation::SwingOffhand => 3,
            Animation::CriticalEffect => 4,
            Animation::MagicCriticalEfect => 5,
        }
    }

    open spec fn spec_from_value(v: int) -> Option<Animation> {
        if v == 0 {
            Some(Animation::SwingMainArm)
        } else if v == 1 {
            Some(Animation::TakeDamage)
        } else if v == 2 {
            Some(Animation::LeaveBed)
        } else if v == 3 {
            Some(Animation::SwingOffhand)
        } else if v == 4 {
            Some(Animation::CriticalEffect)
        } else if v == 5 {
            Some(Animation::MagicCriticalEfect)
        } else {
            None
        }
    }

    fn from_value(v: i32) -> (res: Result<Self, MooshroomError>) {
        if v == 0 {
            Ok(Animation::SwingMainArm)
        } else if v == 1 {
            Ok(Animation::TakeDamage)
        } else if v == 2 {
            Ok(Animation::LeaveBed)
        } else if v == 3 {
            Ok(Animation::SwingOffhand)
        } else if v == 4 {
            Ok(Animation::CriticalEffect)
        } else if v == 5 {
            Ok(Animation::MagicCriticalEfect)
        } else {
            Err(MooshroomError::InvalidEnumVariant(v))
        }
    }

    fn to_value(&self) -> (res: Result<i32, MooshroomError>) {
        match self {
            Animation::SwingMainArm => Ok(0),
            Animation::TakeDamage => Ok(1),
            Animation::LeaveBed => Ok(2),
            Animation::SwingOffhand => Ok(3),
            Animation::CriticalEffect => Ok(4),
            Animation::MagicCriticalEfect => Ok(5),
        }
    }
}

impl MooshroomWritable for Animation {
    open spec fn enc(&self) -> Seq<u8> {
        be_enc(self.spec_value() as nat, 1)
    }

    fn write(&self, w: &mut Vec<u8>) {
        let v: u8 = match self {
            Animation::SwingMainArm => 0,
            Animation::TakeDamage => 1,
            Animation::LeaveBed => 2,
            Animation::SwingOffhand => 3,
            Animation::CriticalEffect => 4,
            Animation::MagicCriticalEfect => 5,
        };
        <u8 as MooshroomWritable>::write(&v, w);
        proof {
            assert(v as nat == self.spec_value() as nat);
        }
    }
}

impl MooshroomReadable for Animation {
    open spec fn dec(s: Seq<u8>) -> Option<(Animation, int)> {
        if s.len() >= 1 {
            match Animation::spec_from_value(s[0] as int) {
                Some(e) => Some((e, 1)),
                None => None,
            }
        } else {
            None
        }
    }

    fn read(r: &mut Reader) -> (res: Result<Self, MooshroomError>) {
        match <u8 as MooshroomReadable>::read(r) {
            Ok(v) => {
                proof {
                    lemma_be_dec_bound(old(r).remaining(), 1);
                    lemma_pow256_values();
                    assert(be_dec(old(r).remaining(), 1)
                        == old(r).remaining()[0] as nat);
                    assert(v as int == old(r).remaining()[0] as int);
                }
                match Animation::from_value(v as i32) {
                    Ok(e) => Ok(e),
                    Err(e) => Err(e),
                }
            },
            Err(e) => Err(e),
        }
    }
}

impl MooshroomRoundTrip for Animation {
    open spec fn wire_bounded(&self) -> bool {
        true
    }

    proof fn lemma_round_trip(&self, rest: Seq<u8>) {
        let u = self.spec_value() as nat;
        lemma_be_enc_len(u, 1);
        lemma_be_round_trip(u, 1, rest);
        lemma_pow256_values();
        assert((self.enc() + rest)[0] == self.enc()[0]);
        assert(Animation::spec_from_value(self.spec_value()) == Some(*self));
    }
}

#[derive(Copy, Clone, Debug, Default, PartialEq, Eq)]
pub struct EntityAnimation {
    pub entity_id: VarInt,
    pub animation: Animation,
}

impl DeepView for EntityAnimation {
    type V = EntityAnimation;

    open spec fn deep_view(&self) -> EntityAnimation {
        *self
    }
}

impl MooshroomWritable for EntityAnimation {
    open spec fn enc(&self) -> Seq<u8> {
        self.entity_id.enc() + self.animation.enc()
    }

    fn write(&self, w: &mut Vec<u8>) {
        self.entity_id.write(w);
        self.animation.write(w);
        proof {
            assert(w@ =~= old(w)@ + self.enc());
        }
    }
}

impl MooshroomReadable for EntityAnimation {
    open spec fn dec(s: Seq<u8>) -> Option<(EntityAnimation, int)> {
        match <VarInt as MooshroomReadable>::dec(s) {
            Some((v0, n0)) => match <Animation as MooshroomReadable>::dec(s.skip(n0)) {
                Some((v1, n1)) => Some((EntityAnimation { entity_id: v0, animation: v1 }, n0 + n1)),
                None => None,
            },
            None => None,
        }
    }

    fn read(r: &mut Reader) -> (res: Result<Self, MooshroomError>) {
        let ghost s0 = old(r).remaining();
        let ghost p0 = old(r).pos();
        let entity_id = match <VarInt as MooshroomReadable>::read(r) {
            Ok(v) => v,
            Err(e) => {
                return Err(e);
            },
        };
        proof {
            assert(r.remaining() =~= s0.skip(r.pos() - p0));
        }
        let animation = match <Animation as MooshroomReadable>::read(r) {
            Ok(v) => v,
            Err(e) => {
                return Err(e);
            },
        };
        Ok(EntityAnimation { entity_id, animation })
    }
}

impl MooshroomRoundTrip for EntityAnimation {
    open spec fn wire_bounded(&self) -> bool {
        self.entity_id.wire_bounded() && self.animation.wire_bounded()
    }

    proof fn lemma_round_trip(&self, rest: Seq<u8>)
    {
        let t2 = rest;
        let t1 = self.animation.enc() + t2;
        let t0 = self.entity_id.enc() + t1;
        let s = self.enc() + rest;
        crate::io::lemma_concat_assoc(self.entity_id.enc(), self.animation.enc(), t2);
        assert(s == t0);
        self.entity_id.lemma_round_trip(t1);
        crate::io::lemma_concat_skip_prefix(self.entity_id.enc(), t1);
        self.animation.lemma_round_trip(t2);
        crate::io::lemma_concat_skip_prefix(self.animation.enc(), t2);
        crate::io::lemma_skip_of_skip(s, (self.entity_id.enc().len()) as int, self.animation.enc().len() as int);
    }
}

impl MooshroomPacket for EntityAnimation {
    open spec fn spec_packet_id() -> i32 {
        3
    }

    fn packet_id() -> (id: i32) {
        3
    }
}

#[derive(Copy, Clone, Debug, Default, PartialEq, Eq)]
pub struct EntityEvent {
    pub entity_id: i32,
    pub status: u8,
}

impl DeepView for EntityEvent {
    type V = EntityEvent;

    open spec fn deep_view(&self) -> EntityEvent {
        *self
    }
}

impl MooshroomWritable for EntityEvent {
    open spec fn enc(&self) -> Seq<u8> {
        self.entity_id.enc() + self.status.enc()
    }

    fn write(&self, w: &mut Vec<u8>) {
        self.entity_id.write(w);
        self.status.write(w);
        proof {
            assert(w@ =~= old(w)@ + self.enc());
        }
    }
}

impl MooshroomReadable for EntityEvent {
    open spec fn dec(s: Seq<u8>) -> Option<(EntityEvent, int)> {
        match <i32 as MooshroomReadable>::dec(s) {
            Some((v0, n0)) => match <u8 as MooshroomReadable>::dec(s.skip(n0)) {
                Some((v1, n1)) => Some((EntityEvent { entity_id: v0, status: v1 }, n0 + n1)),
                None => None,
            },
            None => None,
        }
    }

    fn read(r: &mut Reader) -> (res: Result<Self, MooshroomError>) {
        let ghost s0 = old(r).remaining();
        let ghost p0 = old(r).pos();
        let entity_id = match <i32 as MooshroomReadable>::read(r) {
            Ok(v) => v,
            Err(e) => {
                return Err(e);
            },
        };
        proof {
            assert(r.remaining() =~= s0.skip(r.pos() - p0));
        }
        let status = match <u8 as MooshroomReadable>::read(r) {
            Ok(v) => v,
            Err(e) => {
                return Err(e);
            },
        };
        Ok(EntityEvent { entity_id, status })
    }
}

impl MooshroomRoundTrip for EntityEvent {
    open spec fn wire_bounded(&self) -> bool {
        self.entity_id.wire_bounded() && self.status.wire_bounded()
    }

    proof fn lemma_round_trip(&self, rest: Seq<u8>)
    {
        let t2 = rest;
        let t1 = self.status.enc() + t2;
        let t0 = self.entity_id.enc() + t1;
        let s = self.enc() + rest;
        crate::io::lemma_concat_assoc(self.entity_id.enc(), self.status.enc(), t2);
        assert(s == t0);
        self.entity_id.lemma_round_trip(t1);
        crate::io::lemma_concat_skip_prefix(self.entity_id.enc(), t1);
        self.status.lemma_round_trip(t2);
        crate::io::lemma_concat_skip_prefix(self.status.enc(), t2);
        crate::io::lemma_skip_of_skip(s, (self.entity_id.enc().len()) as int, self.status.enc().len() as int);
    }
}

impl MooshroomPacket for EntityEvent {
    open spec fn spec_packet_id() -> i32 {
        26
    }

    fn packet_id() -> (id: i32) {
        26
    }
}

#[derive(Copy, Clone, Debug, Default, PartialEq, Eq)]
pub struct UpdateEntityPosition {
    pub entity_id: VarInt,
    pub delta: Vec3<i16>,
    pub on_ground: bool,
}

impl DeepView for UpdateEntityPosition {
    type V = UpdateEntityPosition;

    open spec fn deep_view(&self) -> UpdateEntityPosition {
        *self
    }
}

impl MooshroomWritable for UpdateEntityPosition {
    open spec fn enc(&self) -> Seq<u8> {
        self.entity_id.enc() + self.delta.enc() + self.on_ground.enc()
    }

    fn write(&self, w: &mut Vec<u8>) {
        self.entity_id.write(w);
        self.delta.write(w);
        self.on_ground.write(w);
        proof {
            assert(w@ =~= old(w)@ + self.enc());
        }
    }
}

impl MooshroomReadable for UpdateEntityPosition {
    open spec fn dec(s: Seq<u8>) -> Option<(UpdateEntityPosition, int)> {
        match <VarInt as MooshroomReadable>::dec(s) {
            Some((v0, n0)) => match <Vec3<i16> as MooshroomReadable>::dec(s.skip(n0)) {
                Some((v1, n1)) => match <bool as MooshroomReadable>::dec(s.skip(n0 + n1)) {
                    Some((v2, n2)) => Some((UpdateEntityPosition { entity_id: v0, delta: v1, on_ground: v2 }, n0 + n1 + n2)),
                    None => None,
                },
                None => None,
            },
            None => None,
        }
    }

    fn read(r: &mut Reader) -> (res: Result<Self, MooshroomError>) {
        let ghost s0 = old(r).remaining();
        let ghost p0 = old(r).pos();
        let entity_id = match <VarInt as MooshroomReadable>::read(r) {
            Ok(v) => v,
            Err(e) => {
                return Err(e);
            },
        };
        proof {
            assert(r.remaining() =~= s0.skip(r.pos() - p0));
        }
        let delta = match <Vec3<i16> as MooshroomReadable>::read(r) {
            Ok(v) => v,
            Err(e) => {
                return Err(e);
            },
        };
        proof {
            assert(r.remaining() =~= s0.skip(r.pos() - p0));
        }
        let on_ground = match <bool as MooshroomReadable>::read(r) {
            Ok(v) => v,
            Err(e) => {
                return Err(e);
            },
        };
        Ok(UpdateEntityPosition { entity_id, delta, on_ground })
    }
}

impl MooshroomRoundTrip for UpdateEntityPosition {
    open spec fn wire_bounded(&self) -> bool {
        self.entity_id.wire_bounded() && self.delta.wire_bounded() && self.on_ground.wire_bounded()
    }

    proof fn lemma_round_trip(&self, rest: Seq<u8>)
    {
        let t3 = rest;
        let t2 = self.on_ground.enc() + t3;
        let t1 = self.delta.enc() + t2;
        let t0 = self.entity_id.enc() + t1;
        let s = self.enc() + rest;
        crate::io::lemma_concat_assoc(self.entity_id.enc() + self.delta.enc(), self.on_ground.enc(), t3);
        crate::io::lemma_concat_assoc(self.entity_id.enc(), self.delta.enc(), t2);
        assert(s == t0);
        self.entity_id.lemma_round_trip(t1);
        crate::io::lemma_concat_skip_prefix(self.entity_id.enc(), t1);
        self.delta.lemma_round_trip(t2);
        crate::io::lemma_concat_skip_prefix(self.delta.enc(), t2);
        crate::io::lemma_skip_of_skip(s, (self.entity_id.enc().len()) as int, self.delta.enc().len() as int);
        self.on_ground.lemma_round_trip(t3);
        crate::io::lemma_concat_skip_prefix(self.on_ground.enc(), t3);
        crate::io::lemma_skip_of_skip(s, (self.entity_id.enc().len() + self.delta.enc().len()) as int, self.on_ground.enc().len() as int);
    }
}

impl MooshroomPacket for UpdateEntityPosition {
    open spec fn spec_packet_id() -> i32 {
        40
    }

    fn packet_id() -> (id: i32) {
        40
    }
}

#[derive(Copy, Clone, Debug, Default, PartialEq, Eq)]
pub struct UpdateEntityPositionAndRotation {
    pub entity_id: VarInt,
    pub delta: Vec3<i16>,
    pub yaw: Angle,
    pub pitch: Angle,
    pub on_ground: bool,
}

impl DeepView for UpdateEntityPositionAndRotation {
    type V = UpdateEntityPositionAndRotation;

    open spec fn deep_view(&self) -> UpdateEntityPositionAndRotation {
        *self
    }
}

impl MooshroomWritable for UpdateEntityPositionAndRotation {
    open spec fn enc(&self) -> Seq<u8> {
        self.entity_id.enc() + self.delta.enc() + self.yaw.enc() + self.pitch.enc() + self.on_ground.enc()
    }

    fn write(&self, w: &mut Vec<u8>) {
        self.entity_id.write(w);
        self.delta.write(w);
        self.yaw.write(w);
        self.pitch.write(w);
        self.on_ground.write(w);
        proof {
            assert(w@ =~= old(w)@ + self.enc());
        }
    }
}

impl MooshroomReadable for UpdateEntityPositionAndRotation {
    open spec fn dec(s: Seq<u8>) -> Option<(UpdateEntityPositionAndRotation, int)> {
        match <VarInt as MooshroomReadable>::dec(s) {
            Some((v0, n0)) => match <Vec3<i16> as MooshroomReadable>::dec(s.skip(n0)) {
                Some((v1, n1)) => match <Angle as MooshroomReadable>::dec(s.skip(n0 + n1)) {
                    Some((v2, n2)) => match <Angle as MooshroomReadable>::dec(s.skip(n0 + n1 + n2)) {
                        Some((v3, n3)) => match <bool as MooshroomReadable>::dec(s.skip(n0 + n1 + n2 + n3)) {
                            Some((v4, n4)) => Some((UpdateEntityPositionAndRotation { entity_id: v0, delta: v1, yaw: v2, pitch: v3, on_ground: v4 }, n0 + n1 + n2 + n3 + n4)),
                            None => None,
                        },
                        None => None,
                    },
                    None => None,
                },
                None => None,
            },
            None => None,
        }
    }

    fn read(r: &mut Reader) -> (res: Result<Self, MooshroomError>) {
        let ghost s0 = old(r).remaining();
        let ghost p0 = old(r).pos();
        let entity_id = match <VarInt as MooshroomReadable>::read(r) {
            Ok(v) => v,
            Err(e) => {
                return Err(e);
            },
        };
        proof {
            assert(r.remaining() =~= s0.skip(r.pos() - p0));
        }
        let delta = match <Vec3<i16> as MooshroomReadable>::read(r) {
            Ok(v) => v,
            Err(e) => {
                return Err(e);
            },
        };
        proof {
            assert(r.remaining() =~= s0.skip(r.pos() - p0));
        }
        let yaw = match <Angle as MooshroomReadable>::read(r) {
            Ok(v) => v,
            Err(e) => {
                return Err(e);
            },
        };
        proof {
            assert(r.remaining() =~= s0.skip(r.pos() - p0));
        }
        let pitch = match <Angle as MooshroomReadable>::read(r) {
            Ok(v) => v,
            Err(e) => {
                return Err(e);
            },
        };
        proof {
            assert(r.remaining() =~= s0.skip(r.pos() - p0));
        }
        let on_ground = match <bool as MooshroomReadable>::read(r) {
            Ok(v) => v,
            Err(e) => {
                return Err(e);
            },
        };
        Ok(UpdateEntityPositionAndRotation { entity_id, delta, yaw, pitch, on_ground })
    }
}

impl MooshroomRoundTrip for UpdateEntityPositionAndRotation {
    open spec fn wire_bounded(&self) -> bool {
        self.entity_id.wire_bounded() && self.delta.wire_bounded() && self.yaw.wire_bounded() && self.pitch.wire_bounded() && self.on_ground.wire_bounded()
    }

    #[verifier::rlimit(100)]
    proof fn lemma_round_trip(&self, rest: Seq<u8>)
    {
        let t5 = rest;
        let t4 = self.on_ground.enc() + t5;
        let t3 = self.pitch.enc() + t4;
        let t2 = self.yaw.enc() + t3;
        let t1 = self.delta.enc() + t2;
        let t0 = self.entity_id.enc() + t1;
        let s = self.enc() + rest;
        crate::io::lemma_concat_assoc(self.entity_id.enc() + self.delta.enc() + self.yaw.enc() + self.pitch.enc(), self.on_ground.enc(), t5);
        crate::io::lemma_concat_assoc(self.entity_id.enc() + self.delta.enc() + self.yaw.enc(), self.pitch.enc(), t4);
        crate::io::lemma_concat_assoc(self.entity_id.enc() + self.delta.enc(), self.yaw.enc(), t3);
        crate::io::lemma_concat_assoc(self.entity_id.enc(), self.delta.enc(), t2);
        assert(s == t0);
        self.entity_id.lemma_round_trip(t1);
        crate::io::lemma_concat_skip_prefix(self.entity_id.enc(), t1);
        self.delta.lemma_round_trip(t2);
        crate::io::lemma_concat_skip_prefix(self.delta.enc(), t2);
        crate::io::lemma_skip_of_skip(s, (self.entity_id.enc().len()) as int, self.delta.enc().len() as int);
        self.yaw.lemma_round_trip(t3);
        crate::io::lemma_concat_skip_prefix(self.yaw.enc(), t3);
        crate::io::lemma_skip_of_skip(s, (self.entity_id.enc().len() + self.delta.enc().len()) as int, self.yaw.enc().len() as int);
        self.pitch.lemma_round_trip(t4);
        crate::io::lemma_concat_skip_prefix(self.pitch.enc(), t4);
        crate::io::lemma_skip_of_skip(s, (self.entity_id.enc().len() + self.delta.enc().len() + self.yaw.enc().len()) as int, self.pitch.enc().len() as int);
        self.on_ground.lemma_round_trip(t5);
        crate::io::lemma_concat_skip_prefix(self.on_ground.enc(), t5);
        crate::io::lemma_skip_of_skip(s, (self.entity_id.enc().len() + self.delta.enc().len() + self.yaw.enc().len() + self.pitch.enc().len()) as int, self.on_ground.enc().len() as int);
    }
}

impl MooshroomPacket for UpdateEntityPositionAndRotation {
    open spec fn spec_packet_id() -> i32 {
        41
    }

    fn packet_id() -> (id: i32) {
        41
    }
}

#[derive(Copy, Clone, Debug, Default, PartialEq, Eq)]
pub struct UpdateEntityRotation {
    pub entity_id: VarInt,
    pub yaw: Angle,
    pub pitch: Angle,
    pub is_overlay: bool,
}

impl DeepView for UpdateEntityRotation {
    type V = UpdateEntityRotation;

    open spec fn deep_view(&self) -> UpdateEntityRotation {
        *self
    }
}

impl MooshroomWritable for UpdateEntityRotation {
    open spec fn enc(&self) -> Seq<u8> {
        self.entity_id.enc() + self.yaw.enc() + self.pitch.enc() + self.is_overlay.enc()
    }

    fn write(&self, w: &mut Vec<u8>) {
        self.entity_id.write(w);
        self.yaw.write(w);
        self.pitch.write(w);
        self.is_overlay.write(w);
        proof {
            assert(w@ =~= old(w)@ + self.enc());
        }
    }
}

impl MooshroomReadable for UpdateEntityRotation {
    open spec fn dec(s: Seq<u8>) -> Option<(UpdateEntityRotation, int)> {
        match <VarInt as MooshroomReadable>::dec(s) {
            Some((v0, n0)) => match <Angle as MooshroomReadable>::dec(s.skip(n0)) {
                Some((v1, n1)) => match <Angle as MooshroomReadable>::dec(s.skip(n0 + n1)) {
                    Some((v2, n2)) => match <bool as MooshroomReadable>::dec(s.skip(n0 + n1 + n2)) {
                        Some((v3, n3)) => Some((UpdateEntityRotation { entity_id: v0, yaw: v1, pitch: v2, is_overlay: v3 }, n0 + n1 + n2 + n3)),
                        None => None,
                    },
                    None => None,
                },
                None => None,
            },
            None => None,
        }
    }

    fn read(r: &mut Reader) -> (res: Result<Self, MooshroomError>) {
        let ghost s0 = old(r).remaining();
        let ghost p0 = old(r).pos();
        let entity_id = match <VarInt as MooshroomReadable>::read(r) {
            Ok(v) => v,
            Err(e) => {
                return Err(e);
            },
        };
        proof {
            assert(r.remaining() =~= s0.skip(r.pos() - p0));
        }
        let yaw = match <Angle as MooshroomReadable>::read(r) {
            Ok(v) => v,
            Err(e) => {
                return Err(e);
            },
        };
        proof {
            assert(r.remaining() =~= s0.skip(r.pos() - p0));
        }
        let pitch = match <Angle as MooshroomReadable>::read(r) {
            Ok(v) => v,
            Err(e) => {
                return Err(e);
            },
        };
        proof {
            assert(r.remaining() =~= s0.skip(r.pos() - p0));
        }
        let is_overlay = match <bool as MooshroomReadable>::read(r) {
            Ok(v) => v,
            Err(e) => {
                return Err(e);
            },
        };
        Ok(UpdateEntityRotation { entity_id, yaw, pitch, is_overlay })
    }
}

impl MooshroomRoundTrip for UpdateEntityRotation {
    open spec fn wire_bounded(&self) -> bool {
        self.entity_id.wire_bounded() && self.yaw.wire_bounded() && self.pitch.wire_bounded() && self.is_overlay.wire_bounded()
    }

    #[verifier::rlimit(100)]
    proof fn lemma_round_trip(&self, rest: Seq<u8>)
    {
        let t4 = rest;
        let t3 = self.is_overlay.enc() + t4;
        let t2 = self.pitch.enc() + t3;
        let t1 = self.yaw.enc() + t2;
        let t0 = self.entity_id.enc() + t1;
        let s = self.enc() + rest;
        crate::io::lemma_concat_assoc(self.entity_id.enc() + self.yaw.enc() + self.pitch.enc(), self.is_overlay.enc(), t4);
        crate::io::lemma_concat_assoc(self.entity_id.enc() + self.yaw.enc(), self.pitch.enc(), t3);
        crate::io::lemma_concat_assoc(self.entity_id.enc(), self.yaw.enc(), t2);
        assert(s == t0);
        self.entity_id.lemma_round_trip(t1);
        crate::io::lemma_concat_skip_prefix(self.entity_id.enc(), t1);
        self.yaw.lemma_round_trip(t2);
        crate::io::lemma_concat_skip_prefix(self.yaw.enc(), t2);
        crate::io::lemma_skip_of_skip(s, (self.entity_id.enc().len()) as int, self.yaw.enc().len() as int);
        self.pitch.lemma_round_trip(t3);
        crate::io::lemma_concat_skip_prefix(self.pitch.enc(), t3);
        crate::io::lemma_skip_of_skip(s, (self.entity_id.enc().len() + self.yaw.enc().len()) as int, self.pitch.enc().len() as int);
        self.is_overlay.lemma_round_trip(t4);
        crate::io::lemma_concat_skip_prefix(self.is_overlay.enc(), t4);
        crate::io::lemma_skip_of_skip(s, (self.entity_id.enc().len() + self.yaw.enc().len() + self.pitch.enc().len()) as int, self.is_overlay.enc().len() as int);
    }
}

impl MooshroomPacket for UpdateEntityRotation {
    open spec fn spec_packet_id() -> i32 {
        42
    }

    fn packet_id() -> (id: i32) {
        42
    }
}

#[derive(Clone, Debug, Default, PartialEq)]
pub struct RemoveEntities {
    pub entities: Vec<VarInt>,
}

/// The mathematical value of a `RemoveEntities`, for contracts.
pub struct RemoveEntitiesView {
    pub entities: Seq<VarInt>,
}

impl DeepView for RemoveEntities {
    type V = RemoveEntitiesView;

    open spec fn deep_view(&self) -> RemoveEntitiesView {
        RemoveEntitiesView {
            entities: self.entities.deep_view(),
        }
    }
}

impl MooshroomWritable for RemoveEntities {
    open spec fn enc(&self) -> Seq<u8> {
        self.entities.enc()
    }

    fn write(&self, w: &mut Vec<u8>) {
        self.entities.write(w);
        proof {
            assert(w@ =~= old(w)@ + self.enc());
        }
    }
}

impl MooshroomReadable for RemoveEntities {
    open spec fn dec(s: Seq<u8>) -> Option<(RemoveEntitiesView, int)> {
        match <Vec<VarInt> as MooshroomReadable>::dec(s) {
            Some((v0, n0)) => Some((RemoveEntitiesView { entities: v0 }, n0)),
            None => None,
        }
    }

    fn read(r: &mut Reader) -> (res: Result<Self, MooshroomError>) {
        let ghost s0 = old(r).remaining();
        let ghost p0 = old(r).pos();
        let entities = match <Vec<VarInt> as MooshroomReadable>::read(r) {
            Ok(v) => v,
            Err(e) => {
                return Err(e);
            },
        };
        Ok(RemoveEntities { entities })
    }
}

impl MooshroomRoundTrip for RemoveEntities {
    open spec fn wire_bounded(&self) -> bool {
        self.entities.wire_bounded()
    }

    proof fn lemma_round_trip(&self, rest: Seq<u8>)
    {
        let t1 = rest;
        let t0 = self.entities.enc() + t1;
        let s = self.enc() + rest;
        assert(s == t0);
        self.entities.lemma_round_trip(t1);
        crate::io::lemma_concat_skip_prefix(self.entities.enc(), t1);
    }
}

impl MooshroomPacket for RemoveEntities {
    open spec fn spec_packet_id() -> i32 {
        59
    }

    fn packet_id() -> (id: i32) {
        59
    }
}

#[derive(Clone, Debug, Default, PartialEq)]
pub struct PlayerProperty {
    pub name: String,
    pub value: String,
    pub signature: Option<String>,
}

/// The mathematical value of a `PlayerProperty`, for contracts.
pub struct PlayerPropertyView {
    pub name: Seq<char>,
    pub value: Seq<char>,
    pub signature: Option<Seq<char>>,
}

impl DeepView for PlayerProperty {
    type V = PlayerPropertyView;

    open spec fn deep_view(&self) -> PlayerPropertyView {
        PlayerPropertyView {
            name: self.name.deep_view(),
            value: self.value.deep_view(),
            signature: self.signature.deep_view(),
        }
    }
}

impl MooshroomWritable for PlayerProperty {
    open spec fn enc(&self) -> Seq<u8> {
        self.name.enc() + self.value.enc() + self.signature.enc()
    }

    fn write(&self, w: &mut Vec<u8>) {
        self.name.write(w);
        self.value.write(w);
        self.signature.write(w);
        proof {
            assert(w@ =~= old(w)@ + self.enc());
        }
    }
}

impl MooshroomReadable for PlayerProperty {
    open spec fn dec(s: Seq<u8>) -> Option<(PlayerPropertyView, int)> {
        match <String as MooshroomReadable>::dec(s) {
            Some((v0, n0)) => match <String as MooshroomReadable>::dec(s.skip(n0)) {
                Some((v1, n1)) => match <Option<String> as MooshroomReadable>::dec(s.skip(n0 + n1)) {
                    Some((v2, n2)) => Some((PlayerPropertyView { name: v0, value: v1, signature: v2 }, n0 + n1 + n2)),
                    None => None,
                },
                None => None,
            },
            None => None,
        }
    }

    fn read(r: &mut Reader) -> (res: Result<Self, MooshroomError>) {
        let ghost s0 = old(r).remaining();
        let ghost p0 = old(r).pos();
        let name = match <String as MooshroomReadable>::read(r) {
            Ok(v) => v,
            Err(e) => {
                return Err(e);
            },
        };
        proof {
            assert(r.remaining() =~= s0.skip(r.pos() - p0));
        }
        let value = match <String as MooshroomReadable>::read(r) {
            Ok(v) => v,
            Err(e) => {
                return Err(e);
            },
        };
        proof {
            assert(r.remaining() =~= s0.skip(r.pos() - p0));
        }
        let signature = match <Option<String> as MooshroomReadable>::read(r) {
            Ok(v) => v,
            Err(e) => {
                return Err(e);
            },
        };
        Ok(PlayerProperty { name, value, signature })
    }
}

impl MooshroomRoundTrip for PlayerProperty {
    open spec fn wire_bounded(&self) -> bool {
        self.name.wire_bounded() && self.value.wire_bounded() && self.signature.wire_bounded()
    }

    proof fn lemma_round_trip(&self, rest: Seq<u8>)
    {
        let t3 = rest;
        let t2 = self.signature.enc() + t3;
        let t1 = self.value.enc() + t2;
        let t0 = self.name.enc() + t1;
        let s = self.enc() + rest;
        crate::io::lemma_concat_assoc(self.name.enc() + self.value.enc(), self.signature.enc(), t3);
        crate::io::lemma_concat_assoc(self.name.enc(), self.value.enc(), t2);
        assert(s == t0);
        self.name.lemma_round_trip(t1);
        crate::io::lemma_concat_skip_prefix(self.name.enc(), t1);
        self.value.lemma_round_trip(t2);
        crate::io::lemma_concat_skip_prefix(self.value.enc(), t2);
        crate::io::lemma_skip_of_skip(s, (self.name.enc().len()) as int, self.value.enc().len() as int);
        self.signature.lemma_round_trip(t3);
        crate::io::lemma_concat_skip_prefix(self.signature.enc(), t3);
        crate::io::lemma_skip_of_skip(s, (self.name.enc().len() + self.value.enc().len()) as int, self.signature.enc().len() as int);
    }
}

#[derive(Clone, Debug, Default, PartialEq)]
pub struct AddPlayer {
    pub name: String,
    pub properties: Vec<PlayerProperty>,
    pub gamemode: GameMode,
    pub ping: VarInt,
    pub display_name: Option<String>,
    pub signature_data: Option<SignatureData>,
}

/// The mathematical value of a `AddPlayer`, for contracts.
pub struct AddPlayerView {
    pub name: Seq<char>,
    pub properties: Seq<PlayerPropertyView>,
    pub gamemode: GameMode,
    pub ping: VarInt,
    pub display_name: Option<Seq<char>>,
    pub signature_data: Option<SignatureDataView>,
}

impl DeepView for AddPlayer {
    type V = AddPlayerView;

    open spec fn deep_view(&self) -> AddPlayerView {
        AddPlayerView {
            name: self.name.deep_view(),
            properties: self.properties.deep_view(),
            gamemode: self.gamemode.deep_view(),
            ping: self.ping.deep_view(),
            display_name: self.display_name.deep_view(),
            signature_data: self.signature_data.deep_view(),
        }
    }
}

impl MooshroomWritable for AddPlayer {
    open spec fn enc(&self) -> Seq<u8> {
        self.name.enc() + self.properties.enc() + self.gamemode.enc() + self.ping.enc() + self.display_name.enc() + self.signature_data.enc()
    }

    fn write(&self, w: &mut Vec<u8>) {
        self.name.write(w);
        self.properties.write(w);
        self.gamemode.write(w);
        self.ping.write(w);
        self.display_name.write(w);
        self.signature_data.write(w);
        proof {
            assert(w@ =~= old(w)@ + self.enc());
        }
    }
}

impl MooshroomReadable for AddPlayer {
    open spec fn dec(s: Seq<u8>) -> Option<(AddPlayerView, int)> {
        match <String as MooshroomReadable>::dec(s) {
            Some((v0, n0)) => match <Vec<PlayerProperty> as MooshroomReadable>::dec(s.skip(n0)) {
                Some((v1, n1)) => match <GameMode as MooshroomReadable>::dec(s.skip(n0 + n1)) {
                    Some((v2, n2)) => match <VarInt as MooshroomReadable>::dec(s.skip(n0 + n1 + n2)) {
                        Some((v3, n3)) => match <Option<String> as MooshroomReadable>::dec(s.skip(n0 + n1 + n2 + n3)) {
                            Some((v4, n4)) => match <Option<SignatureData> as MooshroomReadable>::dec(s.skip(n0 + n1 + n2 + n3 + n4)) {
                                Some((v5, n5)) => Some((AddPlayerView { name: v0, properties: v1, gamemode: v2, ping: v3, display_name: v4, signature_data: v5 }, n0 + n1 + n2 + n3 + n4 + n5)),
                                None => None,
                            },
                            None => None,
                        },
                        None => None,
                    },
                    None => None,
                },
                None => None,
            },
            None => None,
        }
    }

    #[verifier::rlimit(100)]
    fn read(r: &mut Reader) -> (res: Result<Self, MooshroomError>) {
        let ghost s0 = old(r).remaining();
        let ghost p0 = old(r).pos();
        let name = match <String as MooshroomReadable>::read(r) {
            Ok(v) => v,
            Err(e) => {
                return Err(e);
            },
        };
        proof {
            assert(r.remaining() =~= s0.skip(r.pos() - p0));
        }
        let properties = match <Vec<PlayerProperty> as MooshroomReadable>::read(r) {
            Ok(v) => v,
            Err(e) => {
                return Err(e);
            },
        };
        proof {
            assert(r.remaining() =~= s0.skip(r.pos() - p0));
        }
        let gamemode = match <GameMode as MooshroomReadable>::read(r) {
            Ok(v) => v,
            Err(e) => {
                return Err(e);
            },
        };
        proof {
            assert(r.remaining() =~= s0.skip(r.pos() - p0));
        }
        let ping = match <VarInt as MooshroomReadable>::read(r) {
            Ok(v) => v,
            Err(e) => {
                return Err(e);
            },
        };
        proof {
            assert(r.remaining() =~= s0.skip(r.pos() - p0));
        }
        let display_name = match <Option<String> as MooshroomReadable>::read(r) {
            Ok(v) => v,
            Err(e) => {
                return Err(e);
            },
        };
        proof {
            assert(r.remaining() =~= s0.skip(r.pos() - p0));
        }
        let signature_data = match <Option<SignatureData> as MooshroomReadable>::read(r) {
            Ok(v) => v,
            Err(e) => {
                return Err(e);
            },
        };
        Ok(AddPlayer { name, properties, gamemode, ping, display_name, signature_data })
    }
}

impl MooshroomRoundTrip for AddPlayer {
    open spec fn wire_bounded(&self) -> bool {
        self.name.wire_bounded() && self.properties.wire_bounded() && self.gamemode.wire_bounded() && self.ping.wire_bounded() && self.display_name.wire_bounded() && self.signature_data.wire_bounded()
    }

    #[verifier::rlimit(100)]
    proof fn lemma_round_trip(&self, rest: Seq<u8>)
    {
        let t6 = rest;
        let t5 = self.signature_data.enc() + t6;
        let t4 = self.display_name.enc() + t5;
        let t3 = self.ping.enc() + t4;
        let t2 = self.gamemode.enc() + t3;
        let t1 = self.properties.enc() + t2;
        let t0 = self.name.enc() + t1;
        let s = self.enc() + rest;
        crate::io::lemma_concat_assoc(self.name.enc() + self.properties.enc() + self.gamemode.enc() + self.ping.enc() + self.display_name.enc(), self.signature_data.enc(), t6);
        crate::io::lemma_concat_assoc(self.name.enc() + self.properties.enc() + self.gamemode.enc() + self.ping.enc(), self.display_name.enc(), t5);
        crate::io::lemma_concat_assoc(self.name.enc() + self.properties.enc() + self.gamemode.enc(), self.ping.enc(), t4);
        crate::io::lemma_concat_assoc(self.name.enc() + self.properties.enc(), self.gamemode.enc(), t3);
        crate::io::lemma_concat_assoc(self.name.enc(), self.properties.enc(), t2);
        assert(s == t0);
        self.name.lemma_round_trip(t1);
        crate::io::lemma_concat_skip_prefix(self.name.enc(), t1);
        self.properties.lemma_round_trip(t2);
        crate::io::lemma_concat_skip_prefix(self.properties.enc(), t2);
        crate::io::lemma_skip_of_skip(s, (self.name.enc().len()) as int, self.properties.enc().len() as int);
        self.gamemode.lemma_round_trip(t3);
        crate::io::lemma_concat_skip_prefix(self.gamemode.enc(), t3);
        crate::io::lemma_skip_of_skip(s, (self.name.enc().len() + self.properties.enc().len()) as int, self.gamemode.enc().len() as int);
        self.ping.lemma_round_trip(t4);
        crate::io::lemma_concat_skip_prefix(self.ping.enc(), t4);
        crate::io::lemma_skip_of_skip(s, (self.name.enc().len() + self.properties.enc().len() + self.gamemode.enc().len()) as int, self.ping.enc().len() as int);
        self.display_name.lemma_round_trip(t5);
        crate::io::lemma_concat_skip_prefix(self.display_name.enc(), t5);
        crate::io::lemma_skip_of_skip(s, (self.name.enc().len() + self.properties.enc().len() + self.gamemode.enc().len() + self.ping.enc().len()) as int, self.display_name.enc().len() as int);
        self.signature_data.lemma_round_trip(t6);
        crate::io::lemma_concat_skip_prefix(self.signature_data.enc(), t6);
        crate::io::lemma_skip_of_skip(s, (self.name.enc().len() + self.properties.enc().len() + self.gamemode.enc().len() + self.ping.enc().len() + self.display_name.enc().len()) as int, self.signature_data.enc().len() as int);
    }
}

/// The empty per-player body of a remove-player entry.
#[derive(Copy, Clone, Debug, Default, PartialEq, Eq)]
pub struct NoAction;

impl DeepView for NoAction {
    type V = NoAction;

    open spec fn deep_view(&self) -> NoAction {
        *self
    }
}

impl MooshroomWritable for NoAction {
    open spec fn enc(&self) -> Seq<u8> {
        Seq::empty()
    }

    fn write(&self, w: &mut Vec<u8>) {
        proof {
            assert(w@ =~= old(w)@ + self.enc());
        }
    }
}

impl MooshroomReadable for NoAction {
    open spec fn dec(s: Seq<u8>) -> Option<(NoAction, int)> {
        Some((NoAction, 0))
    }

    fn read(r: &mut Reader) -> (res: Result<Self, MooshroomError>) {
        Ok(NoAction)
    }
}

impl MooshroomRoundTrip for NoAction {
    open spec fn wire_bounded(&self) -> bool {
        true
    }

    proof fn lemma_round_trip(&self, rest: Seq<u8>)
    {
        assert(self.enc() + rest =~= rest);
    }
}

#[derive(Copy, Clone, Debug, Default, PartialEq, Eq)]
pub struct SetHeadRotation {
    pub entity_id: VarInt,
    pub head_yaw: Angle,
}

impl DeepView for SetHeadRotation {
    type V = SetHeadRotation;

    open spec fn deep_view(&self) -> SetHeadRotation {
        *self
    }
}

impl MooshroomWritable for SetHeadRotation {
    open spec fn enc(&self) -> Seq<u8> {
        self.entity_id.enc() + self.head_yaw.enc()
    }

    fn write(&self, w: &mut Vec<u8>) {
        self.entity_id.write(w);
        self.head_yaw.write(w);
        proof {
            assert(w@ =~= old(w)@ + self.enc());
        }
    }
}

impl MooshroomReadable for SetHeadRotation {
    open spec fn dec(s: Seq<u8>) -> Option<(SetHeadRotation, int)> {
        match <VarInt as MooshroomReadable>::dec(s) {
            Some((v0, n0)) => match <Angle as MooshroomReadable>::dec(s.skip(n0)) {
                Some((v1, n1)) => Some((SetHeadRotation { entity_id: v0, head_yaw: v1 }, n0 + n1)),
                None => None,
            },
            None => None,
        }
    }

    fn read(r: &mut Reader) -> (res: Result<Self, MooshroomError>) {
        let ghost s0 = old(r).remaining();
        let ghost p0 = old(r).pos();
        let entity_id = match <VarInt as MooshroomReadable>::read(r) {
            Ok(v) => v,
            Err(e) => {
                return Err(e);
            },
        };
        proof {
            assert(r.remaining() =~= s0.skip(r.pos() - p0));
        }
        let head_yaw = match <Angle as MooshroomReadable>::read(r) {
            Ok(v) => v,
            Err(e) => {
                return Err(e);
            },
        };
        Ok(SetHeadRotation { entity_id, head_yaw })
    }
}

impl MooshroomRoundTrip for SetHeadRotation {
    open spec fn wire_bounded(&self) -> bool {
        self.entity_id.wire_bounded() && self.head_yaw.wire_bounded()
    }

    proof fn lemma_round_trip(&self, rest: Seq<u8>)
    {
        let t2 = rest;
        let t1 = self.head_yaw.enc() + t2;
        let t0 = self.entity_id.enc() + t1;
        let s = self.enc() + rest;
        crate::io::lemma_concat_assoc(self.entity_id.enc(), self.head_yaw.enc(), t2);
        assert(s == t0);
        self.entity_id.lemma_round_trip(t1);
        crate::io::lemma_concat_skip_prefix(self.entity_id.enc(), t1);
        self.head_yaw.lemma_round_trip(t2);
        crate::io::lemma_concat_skip_prefix(self.head_yaw.enc(), t2);
        crate::io::lemma_skip_of_skip(s, (self.entity_id.enc().len()) as int, self.head_yaw.enc().len() as int);
    }
}

impl MooshroomPacket for SetHeadRotation {
    open spec fn spec_packet_id() -> i32 {
        63
    }

    fn packet_id() -> (id: i32) {
        63
    }
}

#[derive(Copy, Clone, Debug, Default, PartialEq, Eq)]
pub struct SetEntityVelocity {
    pub entity_id: VarInt,
    pub velocity: Vec3<i16>,
}

impl DeepView for SetEntityVelocity {
    type V = SetEntityVelocity;

    open spec fn deep_view(&self) -> SetEntityVelocity {
        *self
    }
}

impl MooshroomWritable for SetEntityVelocity {
    open spec fn enc(&self) -> Seq<u8> {
        self.entity_id.enc() + self.velocity.enc()
    }

    fn write(&self, w: &mut Vec<u8>) {
        self.entity_id.write(w);
        self.velocity.write(w);
        proof {
            assert(w@ =~= old(w)@ + self.enc());
        }
    }
}

impl MooshroomReadable for SetEntityVelocity {
    open spec fn dec(s: Seq<u8>) -> Option<(SetEntityVelocity, int)> {
        match <VarInt as MooshroomReadable>::dec(s) {
            Some((v0, n0)) => match <Vec3<i16> as MooshroomReadable>::dec(s.skip(n0)) {
                Some((v1, n1)) => Some((SetEntityVelocity { entity_id: v0, velocity: v1 }, n0 + n1)),
                None => None,
            },
            None => None,
        }
    }

    fn read(r: &mut Reader) -> (res: Result<Self, MooshroomError>) {
        let ghost s0 = old(r).remaining();
        let ghost p0 = old(r).pos();
        let entity_id = match <VarInt as MooshroomReadable>::read(r) {
            Ok(v) => v,
            Err(e) => {
                return Err(e);
            },
        };
        proof {
            assert(r.remaining() =~= s0.skip(r.pos() - p0));
        }
        let velocity = match <Vec3<i16> as MooshroomReadable>::read(r) {
            Ok(v) => v,
            Err(e) => {
                return Err(e);
            },
        };
        Ok(SetEntityVelocity { entity_id, velocity })
    }
}

impl MooshroomRoundTrip for SetEntityVelocity {
    open spec fn wire_bounded(&self) -> bool {
        self.entity_id.wire_bounded() && self.velocity.wire_bounded()
    }

    proof fn lemma_round_trip(&self, rest: Seq<u8>)
    {
        let t2 = rest;
        let t1 = self.velocity.enc() + t2;
        let t0 = self.entity_id.enc() + t1;
        let s = self.enc() + rest;
        crate::io::lemma_concat_assoc(self.entity_id.enc(), self.velocity.enc(), t2);
        assert(s == t0);
        self.entity_id.lemma_round_trip(t1);
        crate::io::lemma_concat_skip_prefix(self.entity_id.enc(), t1);
        self.velocity.lemma_round_trip(t2);
        crate::io::lemma_concat_skip_prefix(self.velocity.enc(), t2);
        crate::io::lemma_skip_of_skip(s, (self.entity_id.enc().len()) as int, self.velocity.enc().len() as int);
    }
}

impl MooshroomPacket for SetEntityVelocity {
    open spec fn spec_packet_id() -> i32 {
        82
    }

    fn packet_id() -> (id: i32) {
        82
    }
}

#[derive(Debug, Default, PartialEq)]
pub struct Equipment {
    pub slot: u8,
    pub item: Slot,
}

/// The mathematical value of a `Equipment`, for contracts.
pub struct EquipmentView {
    pub slot: u8,
    pub item: Option<SlotDataView>,
}

impl DeepView for Equipment {
    type V = EquipmentView;

    open spec fn deep_view(&self) -> EquipmentView {
        EquipmentView {
            slot: self.slot.deep_view(),
            item: self.item.deep_view(),
        }
    }
}

impl MooshroomReadable for Equipment {
    open spec fn dec(s: Seq<u8>) -> Option<(EquipmentView, int)> {
        match <u8 as MooshroomReadable>::dec(s) {
            Some((v0, n0)) => match <Option<SlotData> as MooshroomReadable>::dec(s.skip(n0)) {
                Some((v1, n1)) => Some((EquipmentView { slot: v0, item: v1 }, n0 + n1)),
                None => None,
            },
            None => None,
        }
    }

    fn read(r: &mut Reader) -> (res: Result<Self, MooshroomError>) {
        let ghost s0 = old(r).remaining();
        let ghost p0 = old(r).pos();
        let slot = match <u8 as MooshroomReadable>::read(r) {
            Ok(v) => v,
            Err(e) => {
                return Err(e);
            },
        };
        proof {
            assert(r.remaining() =~= s0.skip(r.pos() - p0));
        }
        let item = match <Option<SlotData> as MooshroomReadable>::read(r) {
            Ok(v) => v,
            Err(e) => {
                return Err(e);
            },
        };
        Ok(Equipment { slot, item })
    }
}

#[derive(Copy, Clone, Debug, Default, PartialEq, Eq)]
pub struct LinkEntities {
    pub attached_entity: i32,
    pub holding_entity_id: i32,
}

impl DeepView for LinkEntities {
    type V = LinkEntities;

    open spec fn deep_view(&self) -> LinkEntities {
        *self
    }
}

impl MooshroomWritable for LinkEntities {
    open spec fn enc(&self) -> Seq<u8> {
        self.attached_entity.enc() + self.holding_entity_id.enc()
    }

    fn write(&self, w: &mut Vec<u8>) {
        self.attached_entity.write(w);
        self.holding_entity_id.write(w);
        proof {
            assert(w@ =~= old(w)@ + self.enc());
        }
    }
}

impl MooshroomReadable for LinkEntities {
    open spec fn dec(s: Seq<u8>) -> Option<(LinkEntities, int)> {
        match <i32 as MooshroomReadable>::dec(s) {
            Some((v0, n0)) => match <i32 as MooshroomReadable>::dec(s.skip(n0)) {
                Some((v1, n1)) => Some((LinkEntities { attached_entity: v0, holding_entity_id: v1 }, n0 + n1)),
                None => None,
            },
            None => None,
        }
    }

    fn read(r: &mut Reader) -> (res: Result<Self, MooshroomError>) {
        let ghost s0 = old(r).remaining();
        let ghost p0 = old(r).pos();
        let attached_entity = match <i32 as MooshroomReadable>::read(r) {
            Ok(v) => v,
            Err(e) => {
                return Err(e);
            },
        };
        proof {
            assert(r.remaining() =~= s0.skip(r.pos() - p0));
        }
        let holding_entity_id = match <i32 as MooshroomReadable>::read(r) {
            Ok(v) => v,
            Err(e) => {
                return Err(e);
            },
        };
        Ok(LinkEntities { attached_entity, holding_entity_id })
    }
}

impl MooshroomRoundTrip for LinkEntities {
    open spec fn wire_bounded(&self) -> bool {
        self.attached_entity.wire_bounded() && self.holding_entity_id.wire_bounded()
    }

    proof fn lemma_round_trip(&self, rest: Seq<u8>)
    {
        let t2 = rest;
        let t1 = self.holding_entity_id.enc() + t2;
        let t0 = self.attached_entity.enc() + t1;
        let s = self.enc() + rest;
        crate::io::lemma_concat_assoc(self.attached_entity.enc(), self.holding_entity_id.enc(), t2);
        assert(s == t0);
        self.attached_entity.lemma_round_trip(t1);
        crate::io::lemma_concat_skip_prefix(self.attached_entity.enc(), t1);
        self.holding_entity_id.lemma_round_trip(t2);
        crate::io::lemma_concat_skip_prefix(self.holding_entity_id.enc(), t2);
        crate::io::lemma_skip_of_skip(s, (self.attached_entity.enc().len()) as int, self.holding_entity_id.enc().len() as int);
    }
}

impl MooshroomPacket for LinkEntities {
    open spec fn spec_packet_id() -> i32 {
        81
    }

    fn packet_id() -> (id: i32) {
        81
    }
}

#[derive(Debug, Default, PartialEq)]
pub struct SetEquipment {
    pub entity_id: VarInt,
    pub equipment: Equipment,
}

/// The mathematical value of a `SetEquipment`, for contracts.
pub struct SetEquipmentView {
    pub entity_id: VarInt,
    pub equipment: EquipmentView,
}

impl DeepView for SetEquipment {
    type V = SetEquipmentView;

    open spec fn deep_view(&self) -> SetEquipmentView {
        SetEquipmentView {
            entity_id: self.entity_id.deep_view(),
            equipment: self.equipment.deep_view(),
        }
    }
}

impl MooshroomReadable for SetEquipment {
    open spec fn dec(s: Seq<u8>) -> Option<(SetEquipmentView, int)> {
        match <VarInt as MooshroomReadable>::dec(s) {
            Some((v0, n0)) => match <Equipment as MooshroomReadable>::dec(s.skip(n0)) {
                Some((v1, n1)) => Some((SetEquipmentView { entity_id: v0, equipment: v1 }, n0 + n1)),
                None => None,
            },
            None => None,
        }
    }

    fn read(r: &mut Reader) -> (res: Result<Self, MooshroomError>) {
        let ghost s0 = old(r).remaining();
        let ghost p0 = old(r).pos();
        let entity_id = match <VarInt as MooshroomReadable>::read(r) {
            Ok(v) => v,
            Err(e) => {
                return Err(e);
            },
        };
        proof {
            assert(r.remaining() =~= s0.skip(r.pos() - p0));
        }
        let equipment = match <Equipment as MooshroomReadable>::read(r) {
            Ok(v) => v,
            Err(e) => {
                return Err(e);
            },
        };
        Ok(SetEquipment { entity_id, equipment })
    }
}

impl MooshroomPacket for SetEquipment {
    open spec fn spec_packet_id() -> i32 {
        83
    }

    fn packet_id() -> (id: i32) {
        83
    }
}

#[derive(Clone, Debug, Default, PartialEq)]
pub struct SetPassengers {
    pub entity_id: VarInt,
    pub passengers: Vec<VarInt>,
}

/// The mathematical value of a `SetPassengers`, for contracts.
pub struct SetPassengersView {
    pub entity_id: VarInt,
    pub passengers: Seq<VarInt>,
}

impl DeepView for SetPassengers {
    type V = SetPassengersView;

    open spec fn deep_view(&self) -> SetPassengersView {
        SetPassengersView {
            entity_id: self.entity_id.deep_view(),
            passengers: self.passengers.deep_view(),
        }
    }
}

impl MooshroomWritable for SetPassengers {
    open spec fn enc(&self) -> Seq<u8> {
        self.entity_id.enc() + self.passengers.enc()
    }

    fn write(&self, w: &mut Vec<u8>) {
        self.entity_id.write(w);
        self.passengers.write(w);
        proof {
            assert(w@ =~= old(w)@ + self.enc());
        }
    }
}

impl MooshroomReadable for SetPassengers {
    open spec fn dec(s: Seq<u8>) -> Option<(SetPassengersView, int)> {
        match <VarInt as MooshroomReadable>::dec(s) {
            Some((v0, n0)) => match <Vec<VarInt> as MooshroomReadable>::dec(s.skip(n0)) {
                Some((v1, n1)) => Some((SetPassengersView { entity_id: v0, passengers: v1 }, n0 + n1)),
                None => None,
            },
            None => None,
        }
    }

    fn read(r: &mut Reader) -> (res: Result<Self, MooshroomError>) {
        let ghost s0 = old(r).remaining();
        let ghost p0 = old(r).pos();
        let entity_id = match <VarInt as MooshroomReadable>::read(r) {
            Ok(v) => v,
            Err(e) => {
                return Err(e);
            },
        };
        proof {
            assert(r.remaining() =~= s0.skip(r.pos() - p0));
        }
        let passengers = match <Vec<VarInt> as MooshroomReadable>::read(r) {
            Ok(v) => v,
            Err(e) => {
                return Err(e);
            },
        };
        Ok(SetPassengers { entity_id, passengers })
    }
}

impl MooshroomRoundTrip for SetPassengers {
    open spec fn wire_bounded(&self) -> bool {
        self.entity_id.wire_bounded() && self.passengers.wire_bounded()
    }

    proof fn lemma_round_trip(&self, rest: Seq<u8>)
    {
        let t2 = rest;
        let t1 = self.passengers.enc() + t2;
        let t0 = self.entity_id.enc() + t1;
        let s = self.enc() + rest;
        crate::io::lemma_concat_assoc(self.entity_id.enc(), self.passengers.enc(), t2);
        assert(s == t0);
        self.entity_id.lemma_round_trip(t1);
        crate::io::lemma_concat_skip_prefix(self.entity_id.enc(), t1);
        self.passengers.lemma_round_trip(t2);
        crate::io::lemma_concat_skip_prefix(self.passengers.enc(), t2);
        crate::io::lemma_skip_of_skip(s, (self.entity_id.enc().len()) as int, self.passengers.enc().len() as int);
    }
}

impl MooshroomPacket for SetPassengers {
    open spec fn spec_packet_id() -> i32 {
        87
    }

    fn packet_id() -> (id: i32) {
        87
    }
}

#[derive(Copy, Clone, Debug, Default, PartialEq, Eq)]
pub struct PickUpItem {
    pub collected_entity_id: VarInt,
    pub collector_entity_id: VarInt,
    pub pickup_item_count: VarInt,
}

impl DeepView for PickUpItem {
    type V = PickUpItem;

    open spec fn deep_view(&self) -> PickUpItem {
        *self
    }
}

impl MooshroomWritable for PickUpItem {
    open spec fn enc(&self) -> Seq<u8> {
        self.collected_entity_id.enc() + self.collector_entity_id.enc() + self.pickup_item_count.enc()
    }

    fn write(&self, w: &mut Vec<u8>) {
        self.collected_entity_id.write(w);
        self.collector_entity_id.write(w);
        self.pickup_item_count.write(w);
        proof {
            assert(w@ =~= old(w)@ + self.enc());
        }
    }
}

impl MooshroomReadable for PickUpItem {
    open spec fn dec(s: Seq<u8>) -> Option<(PickUpItem, int)> {
        match <VarInt as MooshroomReadable>::dec(s) {
            Some((v0, n0)) => match <VarInt as MooshroomReadable>::dec(s.skip(n0)) {
                Some((v1, n1)) => match <VarInt as MooshroomReadable>::dec(s.skip(n0 + n1)) {
                    Some((v2, n2)) => Some((PickUpItem { collected_entity_id: v0, collector_entity_id: v1, pickup_item_count: v2 }, n0 + n1 + n2)),
                    None => None,
                },
                None => None,
            },
            None => None,
        }
    }

    fn read(r: &mut Reader) -> (res: Result<Self, MooshroomError>) {
        let ghost s0 = old(r).remaining();
        let ghost p0 = old(r).pos();
        let collected_entity_id = match <VarInt as MooshroomReadable>::read(r) {
            Ok(v) => v,
            Err(e) => {
                return Err(e);
            },
        };
        proof {
            assert(r.remaining() =~= s0.skip(r.pos() - p0));
        }
        let collector_entity_id = match <VarInt as MooshroomReadable>::read(r) {
            Ok(v) => v,
            Err(e) => {
                return Err(e);
            },
        };
        proof {
            assert(r.remaining() =~= s0.skip(r.pos() - p0));
        }
        let pickup_item_count = match <VarInt as MooshroomReadable>::read(r) {
            Ok(v) => v,
            Err(e) => {
                return Err(e);
            },
        };
        Ok(PickUpItem { collected_entity_id, collector_entity_id, pickup_item_count })
    }
}

impl MooshroomRoundTrip for PickUpItem {
    open spec fn wire_bounded(&self) -> bool {
        self.collected_entity_id.wire_bounded() && self.collector_entity_id.wire_bounded() && self.pickup_item_count.wire_bounded()
    }

    proof fn lemma_round_trip(&self, rest: Seq<u8>)
    {
        let t3 = rest;
        let t2 = self.pickup_item_count.enc() + t3;
        let t1 = self.collector_entity_id.enc() + t2;
        let t0 = self.collected_entity_id.enc() + t1;
        let s = self.enc() + rest;
        crate::io::lemma_concat_assoc(self.collected_entity_id.enc() + self.collector_entity_id.enc(), self.pickup_item_count.enc(), t3);
        crate::io::lemma_concat_assoc(self.collected_entity_id.enc(), self.collector_entity_id.enc(), t2);
        assert(s == t0);
        self.collected_entity_id.lemma_round_trip(t1);
        crate::io::lemma_concat_skip_prefix(self.collected_entity_id.enc(), t1);
        self.collector_entity_id.lemma_round_trip(t2);
        crate::io::lemma_concat_skip_prefix(self.collector_entity_id.enc(), t2);
        crate::io::lemma_skip_of_skip(s, (self.collected_entity_id.enc().len()) as int, self.collector_entity_id.enc().len() as int);
        self.pickup_item_count.lemma_round_trip(t3);
        crate::io::lemma_concat_skip_prefix(self.pickup_item_count.enc(), t3);
        crate::io::lemma_skip_of_skip(s, (self.collected_entity_id.enc().len() + self.collector_entity_id.enc().len()) as int, self.pickup_item_count.enc().len() as int);
    }
}

impl MooshroomPacket for PickUpItem {
    open spec fn spec_packet_id() -> i32 {
        101
    }

    fn packet_id() -> (id: i32) {
        101
    }
}

#[derive(Copy, Clone, Debug, Default, PartialEq, Eq)]
pub struct TeleportEntity {
    pub entity_id: VarInt,
    pub location: WorldPosition,
    pub yaw: Angle,
    pub pitch: Angle,
    pub on_ground: bool,
}

impl DeepView for TeleportEntity {
    type V = TeleportEntity;

    open spec fn deep_view(&self) -> TeleportEntity {
        *self
    }
}

impl MooshroomWritable for TeleportEntity {
    open spec fn enc(&self) -> Seq<u8> {
        self.entity_id.enc() + self.location.enc() + self.yaw.enc() + self.pitch.enc() + self.on_ground.enc()
    }

    fn write(&self, w: &mut Vec<u8>) {
        self.entity_id.write(w);
        self.location.write(w);
        self.yaw.write(w);
        self.pitch.write(w);
        self.on_ground.write(w);
        proof {
            assert(w@ =~= old(w)@ + self.enc());
        }
    }
}

impl MooshroomReadable for TeleportEntity {
    open spec fn dec(s: Seq<u8>) -> Option<(TeleportEntity, int)> {
        match <VarInt as MooshroomReadable>::dec(s) {
            Some((v0, n0)) => match <Vec3<F64Bits> as MooshroomReadable>::dec(s.skip(n0)) {
                Some((v1, n1)) => match <Angle as MooshroomReadable>::dec(s.skip(n0 + n1)) {
                    Some((v2, n2)) => match <Angle as MooshroomReadable>::dec(s.skip(n0 + n1 + n2)) {
                        Some((v3, n3)) => match <bool as MooshroomReadable>::dec(s.skip(n0 + n1 + n2 + n3)) {
                            Some((v4, n4)) => Some((TeleportEntity { entity_id: v0, location: v1, yaw: v2, pitch: v3, on_ground: v4 }, n0 + n1 + n2 + n3 + n4)),
                            None => None,
                        },
                        None => None,
                    },
                    None => None,
                },
                None => None,
            },
            None => None,
        }
    }

    fn read(r: &mut Reader) -> (res: Result<Self, MooshroomError>) {
        let ghost s0 = old(r).remaining();
        let ghost p0 = old(r).pos();
        let entity_id = match <VarInt as MooshroomReadable>::read(r) {
            Ok(v) => v,
            Err(e) => {
                return Err(e);
            },
        };
        proof {
            assert(r.remaining() =~= s0.skip(r.pos() - p0));
        }
        let location = match <Vec3<F64Bits> as MooshroomReadable>::read(r) {
            Ok(v) => v,
            Err(e) => {
                return Err(e);
            },
        };
        proof {
            assert(r.remaining() =~= s0.skip(r.pos() - p0));
        }
        let yaw = match <Angle as MooshroomReadable>::read(r) {
            Ok(v) => v,
            Err(e) => {
                return Err(e);
            },
        };
        proof {
            assert(r.remaining() =~= s0.skip(r.pos() - p0));
        }
        let pitch = match <Angle as MooshroomReadable>::read(r) {
            Ok(v) => v,
            Err(e) => {
                return Err(e);
            },
        };
        proof {
            assert(r.remaining() =~= s0.skip(r.pos() - p0));
        }
        let on_ground = match <bool as MooshroomReadable>::read(r) {
            Ok(v) => v,
            Err(e) => {
                return Err(e);
            },
        };
        Ok(TeleportEntity { entity_id, location, yaw, pitch, on_ground })
    }
}

impl MooshroomRoundTrip for TeleportEntity {
    open spec fn wire_bounded(&self) -> bool {
        self.entity_id.wire_bounded() && self.location.wire_bounded() && self.yaw.wire_bounded() && self.pitch.wire_bounded() && self.on_ground.wire_bounded()
    }

    #[verifier::rlimit(100)]
    proof fn lemma_round_trip(&self, rest: Seq<u8>)
    {
        let t5 = rest;
        let t4 = self.on_ground.enc() + t5;
        let t3 = self.pitch.enc() + t4;
        let t2 = self.yaw.enc() + t3;
        let t1 = self.location.enc() + t2;
        let t0 = self.entity_id.enc() + t1;
        let s = self.enc() + rest;
        crate::io::lemma_concat_assoc(self.entity_id.enc() + self.location.enc() + self.yaw.enc() + self.pitch.enc(), self.on_ground.enc(), t5);
        crate::io::lemma_concat_assoc(self.entity_id.enc() + self.location.enc() + self.yaw.enc(), self.pitch.enc(), t4);
        crate::io::lemma_concat_assoc(self.entity_id.enc() + self.location.enc(), self.yaw.enc(), t3);
        crate::io::lemma_concat_assoc(self.entity_id.enc(), self.location.enc(), t2);
        assert(s == t0);
        self.entity_id.lemma_round_trip(t1);
        crate::io::lemma_concat_skip_prefix(self.entity_id.enc(), t1);
        self.location.lemma_round_trip(t2);
        crate::io::lemma_concat_skip_prefix(self.location.enc(), t2);
        crate::io::lemma_skip_of_skip(s, (self.entity_id.enc().len()) as int, self.location.enc().len() as int);
        self.yaw.lemma_round_trip(t3);
        crate::io::lemma_concat_skip_prefix(self.yaw.enc(), t3);
        crate::io::lemma_skip_of_skip(s, (self.entity_id.enc().len() + self.location.enc().len()) as int, self.yaw.enc().len() as int);
        self.pitch.lemma_round_trip(t4);
        crate::io::lemma_concat_skip_prefix(self.pitch.enc(), t4);
        crate::io::lemma_skip_of_skip(s, (self.entity_id.enc().len() + self.location.enc().len() + self.yaw.enc().len()) as int, self.pitch.enc().len() as int);
        self.on_ground.lemma_round_trip(t5);
        crate::io::lemma_concat_skip_prefix(self.on_ground.enc(), t5);
        crate::io::lemma_skip_of_skip(s, (self.entity_id.enc().len() + self.location.enc().len() + self.yaw.enc().len() + self.pitch.enc().len()) as int, self.on_ground.enc().len() as int);
    }
}

impl MooshroomPacket for TeleportEntity {
    open spec fn spec_packet_id() -> i32 {
        102
    }

    fn packet_id() -> (id: i32) {
        102
    }
}

#[derive(Copy, Clone, Debug, Default, PartialEq, Eq)]
pub enum ModifierOperation {
    #[default]
    AddOrSubtract,
    AddOrSubtractPercent,
    Multiply,
}

impl DeepView for ModifierOperation {
    type V = ModifierOperation;

    open spec fn deep_view(&self) -> ModifierOperation {
        *self
    }
}

impl MooshroomValue for ModifierOperation {
    open spec fn spec_value(&self) -> int {
        match self {
            ModifierOperation::AddOrSubtract => 0,
            ModifierOperation::AddOrSubtractPercent => 1,
            ModifierOperation::Multiply => 2,
        }
    }

    open spec fn spec_from_value(v: int) -> Option<ModifierOperation> {
        if v == 0 {
            Some(ModifierOperation::AddOrSubtract)
        } else if v == 1 {
            Some(ModifierOperation::AddOrSubtractPercent)
        } else if v == 2 {
            Some(ModifierOperation::Multiply)
        } else {
            None
        }
    }

    fn from_value(v: i32) -> (res: Result<Self, MooshroomError>) {
        if v == 0 {
            Ok(ModifierOperation::AddOrSubtract)
        } else if v == 1 {
            Ok(ModifierOperation::AddOrSubtractPercent)
        } else if v == 2 {
            Ok(ModifierOperation::Multiply)
        } else {
            Err(MooshroomError::InvalidEnumVariant(v))
        }
    }

    fn to_value(&self) -> (res: Result<i32, MooshroomError>) {
        match self {
            ModifierOperation::AddOrSubtract => Ok(0),
            ModifierOperation::AddOrSubtractPercent => Ok(1),
            ModifierOperation::Multiply => Ok(2),
        }
    }
}

impl MooshroomWritable for ModifierOperation {
    open spec fn enc(&self) -> Seq<u8> {
        be_enc(self.spec_value() as nat, 1)
    }

    fn write(&self, w: &mut Vec<u8>) {
        let v: u8 = match self {
            ModifierOperation::AddOrSubtract => 0,
            ModifierOperation::AddOrSubtractPercent => 1,
            ModifierOperation::Multiply => 2,
        };
        <u8 as MooshroomWritable>::write(&v, w);
        proof {
            assert(v as nat == self.spec_value() as nat);
        }
    }
}

impl MooshroomReadable for ModifierOperation {
    open spec fn dec(s: Seq<u8>) -> Option<(ModifierOperation, int)> {
        if s.len() >= 1 {
            match ModifierOperation::spec_from_value(s[0] as int) {
                Some(e) => Some((e, 1)),
                None => None,
            }
        } else {
            None
        }
    }

    fn read(r: &mut Reader) -> (res: Result<Self, MooshroomError>) {
        match <u8 as MooshroomReadable>::read(r) {
            Ok(v) => {
                proof {
                    lemma_be_dec_bound(old(r).remaining(), 1);
                    lemma_pow256_values();
                    assert(be_dec(old(r).remaining(), 1)
                        == old(r).remaining()[0] as nat);
                    assert(v as int == old(r).remaining()[0] as int);
                }
                match ModifierOperation::from_value(v as i32) {
                    Ok(e) => Ok(e),
                    Err(e) => Err(e),
                }
            },
            Err(e) => Err(e),
        }
    }
}

impl MooshroomRoundTrip for ModifierOperation {
    open spec fn wire_bounded(&self) -> bool {
        true
    }

    proof fn lemma_round_trip(&self, rest: Seq<u8>) {
        let u = self.spec_value() as nat;
        lemma_be_enc_len(u, 1);
        lemma_be_round_trip(u, 1, rest);
        lemma_pow256_values();
        assert((self.enc() + rest)[0] == self.enc()[0]);
        assert(ModifierOperation::spec_from_value(self.spec_value()) == Some(*self));
    }
}

#[derive(Copy, Clone, Debug, Default, PartialEq, Eq)]
pub struct Modifier {
    pub uuid: Uuid,
    pub amount: F64Bits,
    pub operaion: ModifierOperation,
}

impl DeepView for Modifier {
    type V = Modifier;

    open spec fn deep_view(&self) -> Modifier {
        *self
    }
}

impl MooshroomWritable for Modifier {
    open spec fn enc(&self) -> Seq<u8> {
        self.uuid.enc() + self.amount.enc() + self.operaion.enc()
    }

    fn write(&self, w: &mut Vec<u8>) {
        self.uuid.write(w);
        self.amount.write(w);
        self.operaion.write(w);
        proof {
            assert(w@ =~= old(w)@ + self.enc());
        }
    }
}

impl MooshroomReadable for Modifier {
    open spec fn dec(s: Seq<u8>) -> Option<(Modifier, int)> {
        match <Uuid as MooshroomReadable>::dec(s) {
            Some((v0, n0)) => match <F64Bits as MooshroomReadable>::dec(s.skip(n0)) {
                Some((v1, n1)) => match <ModifierOperation as MooshroomReadable>::dec(s.skip(n0 + n1)) {
                    Some((v2, n2)) => Some((Modifier { uuid: v0, amount: v1, operaion: v2 }, n0 + n1 + n2)),
                    None => None,
                },
                None => None,
            },
            None => None,
        }
    }

    fn read(r: &mut Reader) -> (res: Result<Self, MooshroomError>) {
        let ghost s0 = old(r).remaining();
        let ghost p0 = old(r).pos();
        let uuid = match <Uuid as MooshroomReadable>::read(r) {
            Ok(v) => v,
            Err(e) => {
                return Err(e);
            },
        };
        proof {
            assert(r.remaining() =~= s0.skip(r.pos() - p0));
        }
        let amount = match <F64Bits as MooshroomReadable>::read(r) {
            Ok(v) => v,
            Err(e) => {
                return Err(e);
            },
        };
        proof {
            assert(r.remaining() =~= s0.skip(r.pos() - p0));
        }
        let operaion = match <ModifierOperation as MooshroomReadable>::read(r) {
            Ok(v) => v,
            Err(e) => {
                return Err(e);
            },
        };
        Ok(Modifier { uuid, amount, operaion })
    }
}

impl MooshroomRoundTrip for Modifier {
    open spec fn wire_bounded(&self) -> bool {
        self.uuid.wire_bounded() && self.amount.wire_bounded() && self.operaion.wire_bounded()
    }

    proof fn lemma_round_trip(&self, rest: Seq<u8>)
    {
        let t3 = rest;
        let t2 = self.operaion.enc() + t3;
        let t1 = self.amount.enc() + t2;
        let t0 = self.uuid.enc() + t1;
        let s = self.enc() + rest;
        crate::io::lemma_concat_assoc(self.uuid.enc() + self.amount.enc(), self.operaion.enc(), t3);
        crate::io::lemma_concat_assoc(self.uuid.enc(), self.amount.enc(), t2);
        assert(s == t0);
        self.uuid.lemma_round_trip(t1);
        crate::io::lemma_concat_skip_prefix(self.uuid.enc(), t1);
        self.amount.lemma_round_trip(t2);
        crate::io::lemma_concat_skip_prefix(self.amount.enc(), t2);
        crate::io::lemma_skip_of_skip(s, (self.uuid.enc().len()) as int, self.amount.enc().len() as int);
        self.operaion.lemma_round_trip(t3);
        crate::io::lemma_concat_skip_prefix(self.operaion.enc(), t3);
        crate::io::lemma_skip_of_skip(s, (self.uuid.enc().len() + self.amount.enc().len()) as int, self.operaion.enc().len() as int);
    }
}

/// The attribute kinds a server may update, each with its namespaced
/// identifier.
#[derive(Copy, Clone, Debug, Default, PartialEq, Eq)]
pub enum AttributePropertyKey {
    #[default]
    MaxHealth,
    FollowRange,
    KnockbackResistance,
    MovementSpeed,
    FlyingSpeed,
    AttackDamage,
    AttackKnockback,
    AttackSpeed,
    Armor,
    ArmorToughness,
    Luck,
    ZombieSpawnReinforcements,
    HorseJumpStrength,
    ForgeReachDistance,
    ForgeSwimSpeed,
}

impl DeepView for AttributePropertyKey {
    type V = AttributePropertyKey;

    open spec fn deep_view(&self) -> AttributePropertyKey {
        *self
    }
}

impl MooshroomValue for AttributePropertyKey {
    open spec fn spec_value(&self) -> int {
        match self {
            AttributePropertyKey::MaxHealth => 0,
            AttributePropertyKey::FollowRange => 1,
            AttributePropertyKey::KnockbackResistance => 2,
            AttributePropertyKey::MovementSpeed => 3,
            AttributePropertyKey::FlyingSpeed => 4,
            AttributePropertyKey::AttackDamage => 5,
            AttributePropertyKey::AttackKnockback => 6,
            AttributePropertyKey::AttackSpeed => 7,
            AttributePropertyKey::Armor => 8,
            AttributePropertyKey::ArmorToughness => 9,
            AttributePropertyKey::Luck => 10,
            AttributePropertyKey::ZombieSpawnReinforcements => 11,
            AttributePropertyKey::HorseJumpStrength => 12,
            AttributePropertyKey::ForgeReachDistance => 13,
            AttributePropertyKey::ForgeSwimSpeed => 14,
        }
    }

    open spec fn spec_from_value(v: int) -> Option<AttributePropertyKey> {
        if v == 0 {
            Some(AttributePropertyKey::MaxHealth)
        } else if v == 1 {
            Some(AttributePropertyKey::FollowRange)
        } else if v == 2 {
            Some(AttributePropertyKey::KnockbackResistance)
        } else if v == 3 {
            Some(AttributePropertyKey::MovementSpeed)
        } else if v == 4 {
            Some(AttributePropertyKey::FlyingSpeed)
        } else if v == 5 {
            Some(AttributePropertyKey::AttackDamage)
        } else if v == 6 {
            Some(AttributePropertyKey::AttackKnockback)
        } else if v == 7 {
            Some(AttributePropertyKey::AttackSpeed)
        } else if v == 8 {
            Some(AttributePropertyKey::Armor)
        } else if v == 9 {
            Some(AttributePropertyKey::ArmorToughness)
        } else if v == 10 {
            Some(AttributePropertyKey::Luck)
        } else if v == 11 {
            Some(AttributePropertyKey::ZombieSpawnReinforcements)
        } else if v == 12 {
            Some(AttributePropertyKey::HorseJumpStrength)
        } else if v == 13 {
            Some(AttributePropertyKey::ForgeReachDistance)
        } else if v == 14 {
            Some(AttributePropertyKey::ForgeSwimSpeed)
        } else {
            None
        }
    }

    fn from_value(v: i32) -> (res: Result<Self, MooshroomError>) {
        if v == 0 {
            Ok(AttributePropertyKey::MaxHealth)
        } else if v == 1 {
            Ok(AttributePropertyKey::FollowRange)
        } else if v == 2 {
            Ok(AttributePropertyKey::KnockbackResistance)
        } else if v == 3 {
            Ok(AttributePropertyKey::MovementSpeed)
        } else if v == 4 {
            Ok(AttributePropertyKey::FlyingSpeed)
        } else if v == 5 {
            Ok(AttributePropertyKey::AttackDamage)
        } else if v == 6 {
            Ok(AttributePropertyKey::AttackKnockback)
        } else if v == 7 {
            Ok(AttributePropertyKey::AttackSpeed)
        } else if v == 8 {
            Ok(AttributePropertyKey::Armor)
        } else if v == 9 {
            Ok(AttributePropertyKey::ArmorToughness)
        } else if v == 10 {
            Ok(AttributePropertyKey::Luck)
        } else if v == 11 {
            Ok(AttributePropertyKey::ZombieSpawnReinforcements)
        } else if v == 12 {
            Ok(AttributePropertyKey::HorseJumpStrength)
        } else if v == 13 {
            Ok(AttributePropertyKey::ForgeReachDistance)
        } else if v == 14 {
            Ok(AttributePropertyKey::ForgeSwimSpeed)
        } else {
            Err(MooshroomError::InvalidEnumVariant(v))
        }
    }

    fn to_value(&self) -> (res: Result<i32, MooshroomError>) {
        match self {
            AttributePropertyKey::MaxHealth => Ok(0),
            AttributePropertyKey::FollowRange => Ok(1),
            AttributePropertyKey::KnockbackResistance => Ok(2),
            AttributePropertyKey::MovementSpeed => Ok(3),
            AttributePropertyKey::FlyingSpeed => Ok(4),
            AttributePropertyKey::AttackDamage => Ok(5),
            AttributePropertyKey::AttackKnockback => Ok(6),
            AttributePropertyKey::AttackSpeed => Ok(7),
            AttributePropertyKey::Armor => Ok(8),
            AttributePropertyKey::ArmorToughness => Ok(9),
            AttributePropertyKey::Luck => Ok(10),
            AttributePropertyKey::ZombieSpawnReinforcements => Ok(11),
            AttributePropertyKey::HorseJumpStrength => Ok(12),
            AttributePropertyKey::ForgeReachDistance => Ok(13),
            AttributePropertyKey::ForgeSwimSpeed => Ok(14),
        }
    }
}

impl MooshroomWritable for AttributePropertyKey {
    open spec fn enc(&self) -> Seq<u8> {
        varint_enc(self.spec_value())
    }

    fn write(&self, w: &mut Vec<u8>) {
        let v: i32 = match self {
            AttributePropertyKey::MaxHealth => 0,
            AttributePropertyKey::FollowRange => 1,
            AttributePropertyKey::KnockbackResistance => 2,
            AttributePropertyKey::MovementSpeed => 3,
            AttributePropertyKey::FlyingSpeed => 4,
            AttributePropertyKey::AttackDamage => 5,
            AttributePropertyKey::AttackKnockback => 6,
            AttributePropertyKey::AttackSpeed => 7,
            AttributePropertyKey::Armor => 8,
            AttributePropertyKey::ArmorToughness => 9,
            AttributePropertyKey::Luck => 10,
            AttributePropertyKey::ZombieSpawnReinforcements => 11,
            AttributePropertyKey::HorseJumpStrength => 12,
            AttributePropertyKey::ForgeReachDistance => 13,
            AttributePropertyKey::ForgeSwimSpeed => 14,
        };
        write_varint(VarInt(v), w);
    }
}

impl MooshroomReadable for AttributePropertyKey {
    open spec fn dec(s: Seq<u8>) -> Option<(AttributePropertyKey, int)> {
        match varint_dec(s) {
            Some((v, n)) => match AttributePropertyKey::spec_from_value(v as int) {
                Some(e) => Some((e, n)),
                None => None,
            },
            None => None,
        }
    }

    fn read(r: &mut Reader) -> (res: Result<Self, MooshroomError>) {
        match read_varint(r) {
            Ok(v) => match AttributePropertyKey::from_value(v.0) {
                Ok(e) => Ok(e),
                Err(e) => Err(e),
            },
            Err(e) => Err(e),
        }
    }
}

impl MooshroomRoundTrip for AttributePropertyKey {
    open spec fn wire_bounded(&self) -> bool {
        true
    }

    proof fn lemma_round_trip(&self, rest: Seq<u8>) {
        lemma_varint_round_trip(self.spec_value() as i32, rest);
        assert(AttributePropertyKey::spec_from_value(self.spec_value()) == Some(*self));
    }
}

impl MooshroomIdentifiable for AttributePropertyKey {
    open spec fn spec_to_id(&self) -> Option<Seq<char>> {
        match self {
            AttributePropertyKey::MaxHealth => Some("minecraft:generic.max_health"@),
            AttributePropertyKey::FollowRange => Some("minecraft:generic.follow_range"@),
            AttributePropertyKey::KnockbackResistance => Some("minecraft:generic.knockback_resistance"@),
            AttributePropertyKey::MovementSpeed => Some("minecraft:generic.movement_speed"@),
            AttributePropertyKey::FlyingSpeed => Some("minecraft:generic.flying_speed"@),
            AttributePropertyKey::AttackDamage => Some("minecraft:generic.attack_damage"@),
            AttributePropertyKey::AttackKnockback => Some("minecraft:generic.attack_knockback"@),
            AttributePropertyKey::AttackSpeed => Some("minecraft:generic.attack_speed"@),
            AttributePropertyKey::Armor => Some("minecraft:generic.armor"@),
            AttributePropertyKey::ArmorToughness => Some("minecraft:generic.armor_toughness"@),
            AttributePropertyKey::Luck => Some("minecraft:generic.luck"@),
            AttributePropertyKey::ZombieSpawnReinforcements => Some("minecraft:zombie.spawn_reinforcements"@),
            AttributePropertyKey::HorseJumpStrength => Some("minecraft:horse.jump_strength"@),
            AttributePropertyKey::ForgeReachDistance => Some("minecraft:generic.reachDistance"@),
            AttributePropertyKey::ForgeSwimSpeed => Some("minecraft:forge.swimSpeed"@),
        }
    }

    open spec fn spec_from_id(s: Seq<char>) -> Option<AttributePropertyKey> {
        if s == "minecraft:generic.max_health"@ {
            Some(AttributePropertyKey::MaxHealth)
        } else if s == "minecraft:generic.follow_range"@ {
            Some(AttributePropertyKey::FollowRange)
        } else if s == "minecraft:generic.knockback_resistance"@ {
            Some(AttributePropertyKey::KnockbackResistance)
        } else if s == "minecraft:generic.movement_speed"@ {
            Some(AttributePropertyKey::MovementSpeed)
        } else if s == "minecraft:generic.flying_speed"@ {
            Some(AttributePropertyKey::FlyingSpeed)
        } else if s == "minecraft:generic.attack_damage"@ {
            Some(AttributePropertyKey::AttackDamage)
        } else if s == "minecraft:generic.attack_knockback"@ {
            Some(AttributePropertyKey::AttackKnockback)
        } else if s == "minecraft:generic.attack_speed"@ {
            Some(AttributePropertyKey::AttackSpeed)
        } else if s == "minecraft:generic.armor"@ {
            Some(AttributePropertyKey::Armor)
        } else if s == "minecraft:generic.armor_toughness"@ {
            Some(AttributePropertyKey::ArmorToughness)
        } else if s == "minecraft:generic.luck"@ {
            Some(AttributePropertyKey::Luck)
        } else if s == "minecraft:zombie.spawn_reinforcements"@ {
            Some(AttributePropertyKey::ZombieSpawnReinforcements)
        } else if s == "minecraft:horse.jump_strength"@ {
            Some(AttributePropertyKey::HorseJumpStrength)
        } else if s == "minecraft:generic.reachDistance"@ {
            Some(AttributePropertyKey::ForgeReachDistance)
        } else if s == "minecraft:forge.swimSpeed"@ {
            Some(AttributePropertyKey::ForgeSwimSpeed)
        } else {
            None
        }
    }

    fn to_id(&self) -> (res: Result<&'static str, MooshroomError>) {
        match self {
            AttributePropertyKey::MaxHealth => Ok("minecraft:generic.max_health"),
            AttributePropertyKey::FollowRange => Ok("minecraft:generic.follow_range"),
            AttributePropertyKey::KnockbackResistance => Ok("minecraft:generic.knockback_resistance"),
            AttributePropertyKey::MovementSpeed => Ok("minecraft:generic.movement_speed"),
            AttributePropertyKey::FlyingSpeed => Ok("minecraft:generic.flying_speed"),
            AttributePropertyKey::AttackDamage => Ok("minecraft:generic.attack_damage"),
            AttributePropertyKey::AttackKnockback => Ok("minecraft:generic.attack_knockback"),
            AttributePropertyKey::AttackSpeed => Ok("minecraft:generic.attack_speed"),
            AttributePropertyKey::Armor => Ok("minecraft:generic.armor"),
            AttributePropertyKey::ArmorToughness => Ok("minecraft:generic.armor_toughness"),
            AttributePropertyKey::Luck => Ok("minecraft:generic.luck"),
            AttributePropertyKey::ZombieSpawnReinforcements => Ok("minecraft:zombie.spawn_reinforcements"),
            AttributePropertyKey::HorseJumpStrength => Ok("minecraft:horse.jump_strength"),
            AttributePropertyKey::ForgeReachDistance => Ok("minecraft:generic.reachDistance"),
            AttributePropertyKey::ForgeSwimSpeed => Ok("minecraft:forge.swimSpeed"),
        }
    }

    fn from_id(id: &str) -> (res: Result<Self, MooshroomError>) {
        if str_eq(id, "minecraft:generic.max_health") {
            Ok(AttributePropertyKey::MaxHealth)
        } else if str_eq(id, "minecraft:generic.follow_range") {
            Ok(AttributePropertyKey::FollowRange)
        } else if str_eq(id, "minecraft:generic.knockback_resistance") {
            Ok(AttributePropertyKey::KnockbackResistance)
        } else if str_eq(id, "minecraft:generic.movement_speed") {
            Ok(AttributePropertyKey::MovementSpeed)
        } else if str_eq(id, "minecraft:generic.flying_speed") {
            Ok(AttributePropertyKey::FlyingSpeed)
        } else if str_eq(id, "minecraft:generic.attack_damage") {
            Ok(AttributePropertyKey::AttackDamage)
        } else if str_eq(id, "minecraft:generic.attack_knockback") {
            Ok(AttributePropertyKey::AttackKnockback)
        } else if str_eq(id, "minecraft:generic.attack_speed") {
            Ok(AttributePropertyKey::AttackSpeed)
        } else if str_eq(id, "minecraft:generic.armor") {
            Ok(AttributePropertyKey::Armor)
        } else if str_eq(id, "minecraft:generic.armor_toughness") {
            Ok(AttributePropertyKey::ArmorToughness)
        } else if str_eq(id, "minecraft:generic.luck") {
            Ok(AttributePropertyKey::Luck)
        } else if str_eq(id, "minecraft:zombie.spawn_reinforcements") {
            Ok(AttributePropertyKey::ZombieSpawnReinforcements)
        } else if str_eq(id, "minecraft:horse.jump_strength") {
            Ok(AttributePropertyKey::HorseJumpStrength)
        } else if str_eq(id, "minecraft:generic.reachDistance") {
            Ok(AttributePropertyKey::ForgeReachDistance)
        } else if str_eq(id, "minecraft:forge.swimSpeed") {
            Ok(AttributePropertyKey::ForgeSwimSpeed)
        } else {
            Err(MooshroomError::InvalidId(String::from_str(id)))
        }
    }
}

#[derive(Clone, Debug, Default, PartialEq)]
pub struct AttributeProperty {
    pub key: Identifier,
    pub value: F64Bits,
    pub modifiers: Vec<Modifier>,
}

/// The mathematical value of a `AttributeProperty`, for contracts.
pub struct AttributePropertyView {
    pub key: Seq<char>,
    pub value: F64Bits,
    pub modifiers: Seq<Modifier>,
}

impl DeepView for AttributeProperty {
    type V = AttributePropertyView;

    open spec fn deep_view(&self) -> AttributePropertyView {
        AttributePropertyView {
            key: self.key.deep_view(),
            value: self.value.deep_view(),
            modifiers: self.modifiers.deep_view(),
        }
    }
}

impl MooshroomWritable for AttributeProperty {
    open spec fn enc(&self) -> Seq<u8> {
        self.key.enc() + self.value.enc() + self.modifiers.enc()
    }

    fn write(&self, w: &mut Vec<u8>) {
        self.key.write(w);
        self.value.write(w);
        self.modifiers.write(w);
        proof {
            assert(w@ =~= old(w)@ + self.enc());
        }
    }
}

impl MooshroomReadable for AttributeProperty {
    open spec fn dec(s: Seq<u8>) -> Option<(AttributePropertyView, int)> {
        match <String as MooshroomReadable>::dec(s) {
            Some((v0, n0)) => match <F64Bits as MooshroomReadable>::dec(s.skip(n0)) {
                Some((v1, n1)) => match <Vec<Modifier> as MooshroomReadable>::dec(s.skip(n0 + n1)) {
                    Some((v2, n2)) => Some((AttributePropertyView { key: v0, value: v1, modifiers: v2 }, n0 + n1 + n2)),
                    None => None,
                },
                None => None,
            },
            None => None,
        }
    }

    fn read(r: &mut Reader) -> (res: Result<Self, MooshroomError>) {
        let ghost s0 = old(r).remaining();
        let ghost p0 = old(r).pos();
        let key = match <String as MooshroomReadable>::read(r) {
            Ok(v) => v,
            Err(e) => {
                return Err(e);
            },
        };
        proof {
            assert(r.remaining() =~= s0.skip(r.pos() - p0));
        }
        let value = match <F64Bits as MooshroomReadable>::read(r) {
            Ok(v) => v,
            Err(e) => {
                return Err(e);
            },
        };
        proof {
            assert(r.remaining() =~= s0.skip(r.pos() - p0));
        }
        let modifiers = match <Vec<Modifier> as MooshroomReadable>::read(r) {
            Ok(v) => v,
            Err(e) => {
                return Err(e);
            },
        };
        Ok(AttributeProperty { key, value, modifiers })
    }
}

impl MooshroomRoundTrip for AttributeProperty {
    open spec fn wire_bounded(&self) -> bool {
        self.key.wire_bounded() && self.value.wire_bounded() && self.modifiers.wire_bounded()
    }

    proof fn lemma_round_trip(&self, rest: Seq<u8>)
    {
        let t3 = rest;
        let t2 = self.modifiers.enc() + t3;
        let t1 = self.value.enc() + t2;
        let t0 = self.key.enc() + t1;
        let s = self.enc() + rest;
        crate::io::lemma_concat_assoc(self.key.enc() + self.value.enc(), self.modifiers.enc(), t3);
        crate::io::lemma_concat_assoc(self.key.enc(), self.value.enc(), t2);
        assert(s == t0);
        self.key.lemma_round_trip(t1);
        crate::io::lemma_concat_skip_prefix(self.key.enc(), t1);
        self.value.lemma_round_trip(t2);
        crate::io::lemma_concat_skip_prefix(self.value.enc(), t2);
        crate::io::lemma_skip_of_skip(s, (self.key.enc().len()) as int, self.value.enc().len() as int);
        self.modifiers.lemma_round_trip(t3);
        crate::io::lemma_concat_skip_prefix(self.modifiers.enc(), t3);
        crate::io::lemma_skip_of_skip(s, (self.key.enc().len() + self.value.enc().len()) as int, self.modifiers.enc().len() as int);
    }
}

#[derive(Clone, Debug, Default, PartialEq)]
pub struct UpdateAttributes {
    pub entity_id: VarInt,
    pub properties: Vec<AttributeProperty>,
}

/// The mathematical value of a `UpdateAttributes`, for contracts.
pub struct UpdateAttributesView {
    pub entity_id: VarInt,
    pub properties: Seq<AttributePropertyView>,
}

impl DeepView for UpdateAttributes {
    type V = UpdateAttributesView;

    open spec fn deep_view(&self) -> UpdateAttributesView {
        UpdateAttributesView {
            entity_id: self.entity_id.deep_view(),
            properties: self.properties.deep_view(),
        }
    }
}

impl MooshroomWritable for UpdateAttributes {
    open spec fn enc(&self) -> Seq<u8> {
        self.entity_id.enc() + self.properties.enc()
    }

    fn write(&self, w: &mut Vec<u8>) {
        self.entity_id.write(w);
        self.properties.write(w);
        proof {
            assert(w@ =~= old(w)@ + self.enc());
        }
    }
}

impl MooshroomReadable for UpdateAttributes {
    open spec fn dec(s: Seq<u8>) -> Option<(UpdateAttributesView, int)> {
        match <VarInt as MooshroomReadable>::dec(s) {
            Some((v0, n0)) => match <Vec<AttributeProperty> as MooshroomReadable>::dec(s.skip(n0)) {
                Some((v1, n1)) => Some((UpdateAttributesView { entity_id: v0, properties: v1 }, n0 + n1)),
                None => None,
            },
            None => None,
        }
    }

    fn read(r: &mut Reader) -> (res: Result<Self, MooshroomError>) {
        let ghost s0 = old(r).remaining();
        let ghost p0 = old(r).pos();
        let entity_id = match <VarInt as MooshroomReadable>::read(r) {
            Ok(v) => v,
            Err(e) => {
                return Err(e);
            },
        };
        proof {
            assert(r.remaining() =~= s0.skip(r.pos() - p0));
        }
        let properties = match <Vec<AttributeProperty> as MooshroomReadable>::read(r) {
            Ok(v) => v,
            Err(e) => {
                return Err(e);
            },
        };
        Ok(UpdateAttributes { entity_id, properties })
    }
}

impl MooshroomRoundTrip for UpdateAttributes {
    open spec fn wire_bounded(&self) -> bool {
        self.entity_id.wire_bounded() && self.properties.wire_bounded()
    }

    proof fn lemma_round_trip(&self, rest: Seq<u8>)
    {
        let t2 = rest;
        let t1 = self.properties.enc() + t2;
        let t0 = self.entity_id.enc() + t1;
        let s = self.enc() + rest;
        crate::io::lemma_concat_assoc(self.entity_id.enc(), self.properties.enc(), t2);
        assert(s == t0);
        self.entity_id.lemma_round_trip(t1);
        crate::io::lemma_concat_skip_prefix(self.entity_id.enc(), t1);
        self.properties.lemma_round_trip(t2);
        crate::io::lemma_concat_skip_prefix(self.properties.enc(), t2);
        crate::io::lemma_skip_of_skip(s, (self.entity_id.enc().len()) as int, self.properties.enc().len() as int);
    }
}

impl MooshroomPacket for UpdateAttributes {
    open spec fn spec_packet_id() -> i32 {
        104
    }

    fn packet_id() -> (id: i32) {
        104
    }
}

#[derive(Copy, Clone, Debug, Default, PartialEq, Eq)]
pub struct EntityEffectFlags {
    pub is_ambient: bool,
    pub show_particles: bool,
    pub show_icon: bool,
}

impl DeepView for EntityEffectFlags {
    type V = EntityEffectFlags;

    open spec fn deep_view(&self) -> EntityEffectFlags {
        *self
    }
}

impl MooshroomBitFlag for EntityEffectFlags {
    open spec fn spec_value(&self) -> u8 {
        ((if self.is_ambient { 1int } else { 0int }) + (if self.show_particles { 2int } else { 0int }) + (if self.show_icon { 4int } else { 0int })) as u8
    }

    open spec fn spec_from_value(v: u8) -> EntityEffectFlags {
        EntityEffectFlags {
            is_ambient: (v as int / 1) % 2 == 1,
            show_particles: (v as int / 2) % 2 == 1,
            show_icon: (v as int / 4) % 2 == 1,
        }
    }

    #[verifier::rlimit(50)]
    fn from_value(v: u8) -> (r: Self) {
        EntityEffectFlags {
            is_ambient: (v / 1) % 2 == 1,
            show_particles: (v / 2) % 2 == 1,
            show_icon: (v / 4) % 2 == 1,
        }
    }

    #[verifier::rlimit(50)]
    fn to_value(&self) -> (r: u8) {
        let v: u32 = (if self.is_ambient { 1u32 } else { 0u32 }) + (if self.show_particles { 2u32 } else { 0u32 }) + (if self.show_icon { 4u32 } else { 0u32 });
        v as u8
    }
}

impl MooshroomWritable for EntityEffectFlags {
    open spec fn enc(&self) -> Seq<u8> {
        be_enc(self.spec_value() as nat, 1)
    }

    fn write(&self, w: &mut Vec<u8>) {
        let v = self.to_value();
        <u8 as MooshroomWritable>::write(&v, w);
    }
}

impl MooshroomReadable for EntityEffectFlags {
    open spec fn dec(s: Seq<u8>) -> Option<(EntityEffectFlags, int)> {
        if s.len() >= 1 {
            Some((EntityEffectFlags::spec_from_value(s[0]), 1))
        } else {
            None
        }
    }

    fn read(r: &mut Reader) -> (res: Result<Self, MooshroomError>) {
        match r.read_u8() {
            Ok(b) => Ok(EntityEffectFlags::from_value(b)),
            Err(e) => Err(e),
        }
    }
}

impl MooshroomRoundTrip for EntityEffectFlags {
    open spec fn wire_bounded(&self) -> bool {
        true
    }

    proof fn lemma_round_trip(&self, rest: Seq<u8>) {
        let u = self.spec_value() as nat;
        lemma_be_enc_len(u, 1);
        lemma_be_round_trip(u, 1, rest);
        lemma_pow256_values();
        assert((self.enc() + rest)[0] == self.enc()[0]);
        assert(EntityEffectFlags::spec_from_value(self.spec_value()) == *self);
    }
}

#[derive(Debug, Default, PartialEq)]
pub struct EntityEffect {
    pub entity_id: VarInt,
    pub effect_id: VarInt,
    pub aplifier: i8,
    pub duration: VarInt,
    pub flags: EntityEffectFlags,
    pub factor_codec: Option<NptCompound>,
}

/// The mathematical value of a `EntityEffect`, for contracts.
pub struct EntityEffectView {
    pub entity_id: VarInt,
    pub effect_id: VarInt,
    pub aplifier: i8,
    pub duration: VarInt,
    pub flags: EntityEffectFlags,
    pub factor_codec: Option<Seq<u8>>,
}

impl DeepView for EntityEffect {
    type V = EntityEffectView;

    open spec fn deep_view(&self) -> EntityEffectView {
        EntityEffectView {
            entity_id: self.entity_id.deep_view(),
            effect_id: self.effect_id.deep_view(),
            aplifier: self.aplifier.deep_view(),
            duration: self.duration.deep_view(),
            flags: self.flags.deep_view(),
            factor_codec: self.factor_codec.deep_view(),
        }
    }
}

impl MooshroomReadable for EntityEffect {
    open spec fn dec(s: Seq<u8>) -> Option<(EntityEffectView, int)> {
        match <VarInt as MooshroomReadable>::dec(s) {
            Some((v0, n0)) => match <VarInt as MooshroomReadable>::dec(s.skip(n0)) {
                Some((v1, n1)) => match <i8 as MooshroomReadable>::dec(s.skip(n0 + n1)) {
                    Some((v2, n2)) => match <VarInt as MooshroomReadable>::dec(s.skip(n0 + n1 + n2)) {
                        Some((v3, n3)) => match <EntityEffectFlags as MooshroomReadable>::dec(s.skip(n0 + n1 + n2 + n3)) {
                            Some((v4, n4)) => match <Option<NptCompound> as MooshroomReadable>::dec(s.skip(n0 + n1 + n2 + n3 + n4)) {
                                Some((v5, n5)) => Some((EntityEffectView { entity_id: v0, effect_id: v1, aplifier: v2, duration: v3, flags: v4, factor_codec: v5 }, n0 + n1 + n2 + n3 + n4 + n5)),
                                None => None,
                            },
                            None => None,
                        },
                        None => None,
                    },
                    None => None,
                },
                None => None,
            },
            None => None,
        }
    }

    #[verifier::rlimit(100)]
    fn read(r: &mut Reader) -> (res: Result<Self, MooshroomError>) {
        let ghost s0 = old(r).remaining();
        let ghost p0 = old(r).pos();
        let entity_id = match <VarInt as MooshroomReadable>::read(r) {
            Ok(v) => v,
            Err(e) => {
                return Err(e);
            },
        };
        proof {
            assert(r.remaining() =~= s0.skip(r.pos() - p0));
        }
        let effect_id = match <VarInt as MooshroomReadable>::read(r) {
            Ok(v) => v,
            Err(e) => {
                return Err(e);
            },
        };
        proof {
            assert(r.remaining() =~= s0.skip(r.pos() - p0));
        }
        let aplifier = match <i8 as MooshroomReadable>::read(r) {
            Ok(v) => v,
            Err(e) => {
                return Err(e);
            },
        };
        proof {
            assert(r.remaining() =~= s0.skip(r.pos() - p0));
        }
        let duration = match <VarInt as MooshroomReadable>::read(r) {
            Ok(v) => v,
            Err(e) => {
                return Err(e);
            },
        };
        proof {
            assert(r.remaining() =~= s0.skip(r.pos() - p0));
        }
        let flags = match <EntityEffectFlags as MooshroomReadable>::read(r) {
            Ok(v) => v,
            Err(e) => {
                return Err(e);
            },
        };
        proof {
            assert(r.remaining() =~= s0.skip(r.pos() - p0));
        }
        let factor_codec = match <Option<NptCompound> as MooshroomReadable>::read(r) {
            Ok(v) => v,
            Err(e) => {
                return Err(e);
            },
        };
        Ok(EntityEffect { entity_id, effect_id, aplifier, duration, flags, factor_codec })
    }
}

impl MooshroomPacket for EntityEffect {
    open spec fn spec_packet_id() -> i32 {
        105
    }

    fn packet_id() -> (id: i32) {
        105
    }
}

/// The per-action payloads of a player-info packet, keyed by the
/// action number that precedes them.
#[derive(Clone, Debug, PartialEq)]
pub enum PlayerAction {
    AddPlayer(Vec<ActionFor<AddPlayer>>),
    UpdateGamemode(Vec<ActionFor<VarInt>>),
    UpdateLatency(Vec<ActionFor<VarInt>>),
    UpdateDisplayName(Vec<ActionFor<Option<String>>>),
    RemovePlayer(Vec<ActionFor<NoAction>>),
}

/// The mathematical value of a `PlayerAction`, for contracts.
pub enum PlayerActionView {
    AddPlayer(Seq<ActionFor<AddPlayerView>>),
    UpdateGamemode(Seq<ActionFor<VarInt>>),
    UpdateLatency(Seq<ActionFor<VarInt>>),
    UpdateDisplayName(Seq<ActionFor<Option<Seq<char>>>>),
    RemovePlayer(Seq<ActionFor<NoAction>>),
}

impl DeepView for PlayerAction {
    type V = PlayerActionView;

    open spec fn deep_view(&self) -> PlayerActionView {
        match self {
            PlayerAction::AddPlayer(v) => PlayerActionView::AddPlayer(v.deep_view()),
            PlayerAction::UpdateGamemode(v) => PlayerActionView::UpdateGamemode(v.deep_view()),
            PlayerAction::UpdateLatency(v) => PlayerActionView::UpdateLatency(v.deep_view()),
            PlayerAction::UpdateDisplayName(v) => PlayerActionView::UpdateDisplayName(v.deep_view()),
            PlayerAction::RemovePlayer(v) => PlayerActionView::RemovePlayer(v.deep_view()),
        }
    }
}

impl MooshroomCollection for PlayerAction {
    open spec fn spec_in_collection(id: i32) -> bool {
        id == 0 || id == 1 || id == 2 || id == 3 || id == 4
    }

    open spec fn dec_one_of(id: i32, s: Seq<u8>) -> Option<(PlayerActionView, int)> {
        if id == 0 {
            match <Vec<ActionFor<AddPlayer>> as MooshroomReadable>::dec(s) {
                Some((v, n)) => Some((PlayerActionView::AddPlayer(v), n)),
                None => None,
            }
        } else if id == 1 {
            match <Vec<ActionFor<VarInt>> as MooshroomReadable>::dec(s) {
                Some((v, n)) => Some((PlayerActionView::UpdateGamemode(v), n)),
                None => None,
            }
        } else if id == 2 {
            match <Vec<ActionFor<VarInt>> as MooshroomReadable>::dec(s) {
                Some((v, n)) => Some((PlayerActionView::UpdateLatency(v), n)),
                None => None,
            }
        } else if id == 3 {
            match <Vec<ActionFor<Option<String>>> as MooshroomReadable>::dec(s) {
                Some((v, n)) => Some((PlayerActionView::UpdateDisplayName(v), n)),
                None => None,
            }
        } else if id == 4 {
            match <Vec<ActionFor<NoAction>> as MooshroomReadable>::dec(s) {
                Some((v, n)) => Some((PlayerActionView::RemovePlayer(v), n)),
                None => None,
            }
        } else {
            None
        }
    }

    fn read_one_of(id: i32, r: &mut Reader) -> (res: Result<Self, MooshroomError>) {
        if id == 0 {
            match <Vec<ActionFor<AddPlayer>> as MooshroomReadable>::read(r) {
                Ok(v) => Ok(PlayerAction::AddPlayer(v)),
                Err(e) => Err(e),
            }
        } else if id == 1 {
            match <Vec<ActionFor<VarInt>> as MooshroomReadable>::read(r) {
                Ok(v) => Ok(PlayerAction::UpdateGamemode(v)),
                Err(e) => Err(e),
            }
        } else if id == 2 {
            match <Vec<ActionFor<VarInt>> as MooshroomReadable>::read(r) {
                Ok(v) => Ok(PlayerAction::UpdateLatency(v)),
                Err(e) => Err(e),
            }
        } else if id == 3 {
            match <Vec<ActionFor<Option<String>>> as MooshroomReadable>::read(r) {
                Ok(v) => Ok(PlayerAction::UpdateDisplayName(v)),
                Err(e) => Err(e),
            }
        } else if id == 4 {
            match <Vec<ActionFor<NoAction>> as MooshroomReadable>::read(r) {
                Ok(v) => Ok(PlayerAction::RemovePlayer(v)),
                Err(e) => Err(e),
            }
        } else {
            Err(MooshroomError::NotInCollection(id))
        }
    }
}

impl MooshroomCollectionWrite for PlayerAction {
    open spec fn spec_variant_id(&self) -> i32 {
        match self {
            PlayerAction::AddPlayer(_) => 0,
            PlayerAction::UpdateGamemode(_) => 1,
            PlayerAction::UpdateLatency(_) => 2,
            PlayerAction::UpdateDisplayName(_) => 3,
            PlayerAction::RemovePlayer(_) => 4,
        }
    }

    open spec fn enc_body(&self) -> Seq<u8> {
        match self {
            PlayerAction::AddPlayer(v) => v.enc(),
            PlayerAction::UpdateGamemode(v) => v.enc(),
            PlayerAction::UpdateLatency(v) => v.enc(),
            PlayerAction::UpdateDisplayName(v) => v.enc(),
            PlayerAction::RemovePlayer(v) => v.enc(),
        }
    }

    fn variant_id(&self) -> (id: i32) {
        match self {
            PlayerAction::AddPlayer(_) => 0,
            PlayerAction::UpdateGamemode(_) => 1,
            PlayerAction::UpdateLatency(_) => 2,
            PlayerAction::UpdateDisplayName(_) => 3,
            PlayerAction::RemovePlayer(_) => 4,
        }
    }

    fn write_one_of(&self, w: &mut Vec<u8>) {
        match self {
            PlayerAction::AddPlayer(v) => v.write(w),
            PlayerAction::UpdateGamemode(v) => v.write(w),
            PlayerAction::UpdateLatency(v) => v.write(w),
            PlayerAction::UpdateDisplayName(v) => v.write(w),
            PlayerAction::RemovePlayer(v) => v.write(w),
        }
    }
}


/// One per-player entry of a player-info packet: the player's identifier
/// and the action payload.
#[derive(Clone, Debug, Default, PartialEq)]
pub struct ActionFor<T> {
    pub uuid: Uuid,
    pub action: T,
}

impl<T: DeepView> DeepView for ActionFor<T> {
    type V = ActionFor<T::V>;

    open spec fn deep_view(&self) -> ActionFor<T::V> {
        ActionFor { uuid: self.uuid, action: self.action.deep_view() }
    }
}

impl<T: MooshroomWritable> MooshroomWritable for ActionFor<T> {
    open spec fn enc(&self) -> Seq<u8> {
        self.uuid.enc() + self.action.enc()
    }

    fn write(&self, w: &mut Vec<u8>) {
        self.uuid.write(w);
        self.action.write(w);
        proof {
            assert(w@ =~= old(w)@ + self.enc());
        }
    }
}

impl<T: MooshroomReadable> MooshroomReadable for ActionFor<T> {
    open spec fn dec(s: Seq<u8>) -> Option<(ActionFor<T::V>, int)> {
        match <Uuid as MooshroomReadable>::dec(s) {
            Some((u, n0)) => match T::dec(s.skip(n0)) {
                Some((a, n1)) => Some((ActionFor { uuid: u, action: a }, n0 + n1)),
                None => None,
            },
            None => None,
        }
    }

    fn read(r: &mut Reader) -> (res: Result<Self, MooshroomError>) {
        let ghost s0 = old(r).remaining();
        let ghost p0 = old(r).pos();
        let uuid = match <Uuid as MooshroomReadable>::read(r) {
            Ok(v) => v,
            Err(e) => {
                return Err(e);
            },
        };
        proof {
            assert(r.remaining() =~= s0.skip(r.pos() - p0));
        }
        let action = match T::read(r) {
            Ok(v) => v,
            Err(e) => {
                return Err(e);
            },
        };
        Ok(ActionFor { uuid, action })
    }
}

impl<T: MooshroomRoundTrip> MooshroomRoundTrip for ActionFor<T> {
    open spec fn wire_bounded(&self) -> bool {
        self.action.wire_bounded()
    }

    proof fn lemma_round_trip(&self, rest: Seq<u8>) {
        let t1 = self.action.enc() + rest;
        let s = self.enc() + rest;
        assert(s =~= self.uuid.enc() + t1);
        self.uuid.lemma_round_trip(t1);
        assert(s.skip(self.uuid.enc().len() as int) =~= t1);
        self.action.lemma_round_trip(rest);
    }
}

/// A player-list update: the action number, then that action's entries.
#[derive(Clone, Debug, PartialEq)]
pub struct PlayerInfo(pub PlayerAction);

/// The mathematical value of a `PlayerInfo`, for contracts.
pub struct PlayerInfoView(pub PlayerActionView);

impl DeepView for PlayerInfo {
    type V = PlayerInfoView;

    open spec fn deep_view(&self) -> PlayerInfoView {
        PlayerInfoView(self.0.deep_view())
    }
}

impl MooshroomWritable for PlayerInfo {
    open spec fn enc(&self) -> Seq<u8> {
        varint_enc(self.0.spec_variant_id() as int) + self.0.enc_body()
    }

    fn write(&self, w: &mut Vec<u8>) {
        let id = self.0.variant_id();
        write_varint(VarInt(id), w);
        self.0.write_one_of(w);
        proof {
            assert(w@ =~= old(w)@ + self.enc());
        }
    }
}

impl MooshroomReadable for PlayerInfo {
    open spec fn dec(s: Seq<u8>) -> Option<(PlayerInfoView, int)> {
        match varint_dec(s) {
            Some((a, k)) => match PlayerAction::dec_one_of(a, s.skip(k)) {
                Some((v, n)) => Some((PlayerInfoView(v), k + n)),
                None => None,
            },
            None => None,
        }
    }

    fn read(r: &mut Reader) -> (res: Result<Self, MooshroomError>) {
        let ghost s0 = old(r).remaining();
        let ghost p0 = old(r).pos();
        let a = match read_varint(r) {
            Ok(v) => v,
            Err(e) => {
                return Err(e);
            },
        };
        proof {
            assert(r.remaining() =~= s0.skip(r.pos() - p0));
        }
        match PlayerAction::read_one_of(a.0, r) {
            Ok(v) => Ok(PlayerInfo(v)),
            Err(e) => Err(e),
        }
    }
}

impl MooshroomPacket for PlayerInfo {
    open spec fn spec_packet_id() -> i32 {
        0x37
    }

    fn packet_id() -> (id: i32) {
        0x37
    }
}



} // verus!
