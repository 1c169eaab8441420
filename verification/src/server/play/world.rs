use vstd::prelude::*;

#[allow(unused_imports)]
use crate::containers::{Json, TOption};
#[allow(unused_imports)]
use crate::data::{
    MooshroomBitFlag, MooshroomCollection, MooshroomCollectionWrite, MooshroomIdentifiable,
    MooshroomUpdatable, MooshroomValue,
};
#[allow(unused_imports)]
use crate::error::MooshroomError;
#[allow(unused_imports)]
use crate::io::{
    MooshroomCommand, MooshroomPacket, MooshroomReadable, MooshroomRoundTrip, MooshroomWritable,
};
#[allow(unused_imports)]
use crate::primitives::{
    be_dec, be_enc, lemma_be_dec_bound, lemma_be_enc_len, lemma_be_round_trip,
    lemma_pow256_values, sig_to_un,
    str_eq, un_to_sig, F32Bits, F64Bits, Identifier, Position, Uuid, Vec3,
};
#[allow(unused_imports)]
use crate::reader::Reader;
#[allow(unused_imports)]
use crate::varint::{
    lemma_varint_round_trip, read_varint, varint_dec, varint_enc, write_varint, VarInt, VarLong,
};
#[allow(unused_imports)]
use vstd::string::StringExecFns;
#[allow(unused_imports)]
use crate::types::Chat;
#[allow(unused_imports)]
use super::nbt::NptCompound;

verus! {

/// The world difficulty values named by `ChangeDifficulty`.
#[derive(Copy, Clone, Debug, Default, PartialEq, Eq)]
pub enum Difficulty {
    #[default]
    Peaceful,
    Easy,
    Normal,
    Hard,
}

impl DeepView for Difficulty {
    type V = Difficulty;

    open spec fn deep_view(&self) -> Difficulty {
        *self
    }
}

impl MooshroomValue for Difficulty {
    open spec fn spec_value(&self) -> int {
        match self {
            Difficulty::Peaceful => 0,
            Difficulty::Easy => 1,
            Difficulty::Normal => 2,
            Difficulty::Hard => 3,
        }
    }

    open spec fn spec_from_value(v: int) -> Option<Difficulty> {
        if v == 0 {
            Some(Difficulty::Peaceful)
        } else if v == 1 {
            Some(Difficulty::Easy)
        } else if v == 2 {
            Some(Difficulty::Normal)
        } else if v == 3 {
            Some(Difficulty::Hard)
        } else {
            None
        }
    }

    fn from_value(v: i32) -> (res: Result<Self, MooshroomError>) {
        if v == 0 {
            Ok(Difficulty::Peaceful)
        } else if v == 1 {
            Ok(Difficulty::Easy)
        } else if v == 2 {
            Ok(Difficulty::Normal)
        } else if v == 3 {
            Ok(Difficulty::Hard)
        } else {
            Err(MooshroomError::InvalidEnumVariant(v))
        }
    }

    fn to_value(&self) -> (res: Result<i32, MooshroomError>) {
        match self {
            Difficulty::Peaceful => Ok(0),
            Difficulty::Easy => Ok(1),
            Difficulty::Normal => Ok(2),
            Difficulty::Hard => Ok(3),
        }
    }
}

/// A rotation in 256ths of a full turn.
#[derive(Copy, Clone, Debug, Default, PartialEq, Eq)]
pub struct Angle(pub u8);

impl DeepView for Angle {
    type V = Angle;

    open spec fn deep_view(&self) -> Angle {
        *self
    }
}

impl MooshroomWritable for Angle {
    open spec fn enc(&self) -> Seq<u8> {
        self.0.enc()
    }

    fn write(&self, w: &mut Vec<u8>) {
        self.0.write(w);
        proof {
            assert(w@ =~= old(w)@ + self.enc());
        }
    }
}

impl MooshroomReadable for Angle {
    open spec fn dec(s: Seq<u8>) -> Option<(Angle, int)> {
        match <u8 as MooshroomReadable>::dec(s) {
            Some((v0, n0)) => Some((Angle(v0), n0)),
            None => None,
        }
    }

    fn read(r: &mut Reader) -> (res: Result<Self, MooshroomError>) {
        let ghost s0 = old(r).remaining();
        let ghost p0 = old(r).pos();
        let f0 = match <u8 as MooshroomReadable>::read(r) {
            Ok(v) => v,
            Err(e) => {
                return Err(e);
            },
        };
        Ok(Angle(f0))
    }
}

impl MooshroomRoundTrip for Angle {
    open spec fn wire_bounded(&self) -> bool {
        self.0.wire_bounded()
    }

    proof fn lemma_round_trip(&self, rest: Seq<u8>)
    {
        let t1 = rest;
        let t0 = self.0.enc() + t1;
        let s = self.enc() + rest;
        assert(s == t0);
        self.0.lemma_round_trip(t1);
        crate::io::lemma_concat_skip_prefix(self.0.enc(), t1);
    }
}

#[derive(Copy, Clone, Debug, Default, PartialEq, Eq)]
pub struct ChangeDifficulty {
    pub difficulty: u8,
    pub difficulty_locked: bool,
}

impl DeepView for ChangeDifficulty {
    type V = ChangeDifficulty;

    open spec fn deep_view(&self) -> ChangeDifficulty {
        *self
    }
}

impl MooshroomWritable for ChangeDifficulty {
    open spec fn enc(&self) -> Seq<u8> {
        self.difficulty.enc() + self.difficulty_locked.enc()
    }

    fn write(&self, w: &mut Vec<u8>) {
        self.difficulty.write(w);
        self.difficulty_locked.write(w);
        proof {
            assert(w@ =~= old(w)@ + self.enc());
        }
    }
}

impl MooshroomReadable for ChangeDifficulty {
    open spec fn dec(s: Seq<u8>) -> Option<(ChangeDifficulty, int)> {
        match <u8 as MooshroomReadable>::dec(s) {
            Some((v0, n0)) => match <bool as MooshroomReadable>::dec(s.skip(n0)) {
                Some((v1, n1)) => Some((ChangeDifficulty { difficulty: v0, difficulty_locked: v1 }, n0 + n1)),
                None => None,
            },
            None => None,
        }
    }

    fn read(r: &mut Reader) -> (res: Result<Self, MooshroomError>) {
        let ghost s0 = old(r).remaining();
        let ghost p0 = old(r).pos();
        let difficulty = match <u8 as MooshroomReadable>::read(r) {
            Ok(v) => v,
            Err(e) => {
                return Err(e);
            },
        };
        proof {
            assert(r.remaining() =~= s0.skip(r.pos() - p0));
        }
        let difficulty_locked = match <bool as MooshroomReadable>::read(r) {
            Ok(v) => v,
            Err(e) => {
                return Err(e);
            },
        };
        Ok(ChangeDifficulty { difficulty, difficulty_locked })
    }
}

impl MooshroomRoundTrip for ChangeDifficulty {
    open spec fn wire_bounded(&self) -> bool {
        self.difficulty.wire_bounded() && self.difficulty_locked.wire_bounded()
    }

    proof fn lemma_round_trip(&self, rest: Seq<u8>)
    {
        let t2 = rest;
        let t1 = self.difficulty_locked.enc() + t2;
        let t0 = self.difficulty.enc() + t1;
        let s = self.enc() + rest;
        crate::io::lemma_concat_assoc(self.difficulty.enc(), self.difficulty_locked.enc(), t2);
        assert(s == t0);
        self.difficulty.lemma_round_trip(t1);
        crate::io::lemma_concat_skip_prefix(self.difficulty.enc(), t1);
        self.difficulty_locked.lemma_round_trip(t2);
        crate::io::lemma_concat_skip_prefix(self.difficulty_locked.enc(), t2);
        crate::io::lemma_skip_of_skip(s, (self.difficulty.enc().len()) as int, self.difficulty_locked.enc().len() as int);
    }
}

impl MooshroomPacket for ChangeDifficulty {
    open spec fn spec_packet_id() -> i32 {
        11
    }

    fn packet_id() -> (id: i32) {
        11
    }
}

#[derive(Copy, Clone, Debug, Default, PartialEq, Eq)]
pub struct BlockUpdate {
    pub location: Position,
    pub block_id: VarInt,
}

impl DeepView for BlockUpdate {
    type V = BlockUpdate;

    open spec fn deep_view(&self) -> BlockUpdate {
        *self
    }
}

impl MooshroomWritable for BlockUpdate {
    open spec fn enc(&self) -> Seq<u8> {
        self.location.enc() + self.block_id.enc()
    }

    fn write(&self, w: &mut Vec<u8>) {
        self.location.write(w);
        self.block_id.write(w);
        proof {
            assert(w@ =~= old(w)@ + self.enc());
        }
    }
}

impl MooshroomReadable for BlockUpdate {
    open spec fn dec(s: Seq<u8>) -> Option<(BlockUpdate, int)> {
        match <Position as MooshroomReadable>::dec(s) {
            Some((v0, n0)) => match <VarInt as MooshroomReadable>::dec(s.skip(n0)) {
                Some((v1, n1)) => Some((BlockUpdate { location: v0, block_id: v1 }, n0 + n1)),
                None => None,
            },
            None => None,
        }
    }

    fn read(r: &mut Reader) -> (res: Result<Self, MooshroomError>) {
        let ghost s0 = old(r).remaining();
        let ghost p0 = old(r).pos();
        let location = match <Position as MooshroomReadable>::read(r) {
            Ok(v) => v,
            Err(e) => {
                return Err(e);
            },
        };
        proof {
            assert(r.remaining() =~= s0.skip(r.pos() - p0));
        }
        let block_id = match <VarInt as MooshroomReadable>::read(r) {
            Ok(v) => v,
            Err(e) => {
                return Err(e);
            },
        };
        Ok(BlockUpdate { location, block_id })
    }
}

impl MooshroomRoundTrip for BlockUpdate {
    open spec fn wire_bounded(&self) -> bool {
        self.location.wire_bounded() && self.block_id.wire_bounded()
    }

    proof fn lemma_round_trip(&self, rest: Seq<u8>)
    {
        let t2 = rest;
        let t1 = self.block_id.enc() + t2;
        let t0 = self.location.enc() + t1;
        let s = self.enc() + rest;
        crate::io::lemma_concat_assoc(self.location.enc(), self.block_id.enc(), t2);
        assert(s == t0);
        self.location.lemma_round_trip(t1);
        crate::io::lemma_concat_skip_prefix(self.location.enc(), t1);
        self.block_id.lemma_round_trip(t2);
        crate::io::lemma_concat_skip_prefix(self.block_id.enc(), t2);
        crate::io::lemma_skip_of_skip(s, (self.location.enc().len()) as int, self.block_id.enc().len() as int);
    }
}

impl MooshroomPacket for BlockUpdate {
    open spec fn spec_packet_id() -> i32 {
        9
    }

    fn packet_id() -> (id: i32) {
        9
    }
}

#[derive(Copy, Clone, Debug, Default, PartialEq, Eq)]
pub struct EntityEvent {
    pub entity_id: i32,
    pub status: u8,
}

impl DeepView for EntityEvent {
    type V = EntityEvent;

    open spec fn deep_view(&self) -> EntityEvent {
        *self
    }
}

impl MooshroomWritable for EntityEvent {
    open spec fn enc(&self) -> Seq<u8> {
        self.entity_id.enc() + self.status.enc()
    }

    fn write(&self, w: &mut Vec<u8>) {
        self.entity_id.write(w);
        self.status.write(w);
        proof {
            assert(w@ =~= old(w)@ + self.enc());
        }
    }
}

impl MooshroomReadable for EntityEvent {
    open spec fn dec(s: Seq<u8>) -> Option<(EntityEvent, int)> {
        match <i32 as MooshroomReadable>::dec(s) {
            Some((v0, n0)) => match <u8 as MooshroomReadable>::dec(s.skip(n0)) {
                Some((v1, n1)) => Some((EntityEvent { entity_id: v0, status: v1 }, n0 + n1)),
                None => None,
            },
            None => None,
        }
    }

    fn read(r: &mut Reader) -> (res: Result<Self, MooshroomError>) {
        let ghost s0 = old(r).remaining();
        let ghost p0 = old(r).pos();
        let entity_id = match <i32 as MooshroomReadable>::read(r) {
            Ok(v) => v,
            Err(e) => {
                return Err(e);
            },
        };
        proof {
            assert(r.remaining() =~= s0.skip(r.pos() - p0));
        }
        let status = match <u8 as MooshroomReadable>::read(r) {
            Ok(v) => v,
            Err(e) => {
                return Err(e);
            },
        };
        Ok(EntityEvent { entity_id, status })
    }
}

impl MooshroomRoundTrip for EntityEvent {
    open spec fn wire_bounded(&self) -> bool {
        self.entity_id.wire_bounded() && self.status.wire_bounded()
    }

    proof fn lemma_round_trip(&self, rest: Seq<u8>)
    {
        let t2 = rest;
        let t1 = self.status.enc() + t2;
        let t0 = self.entity_id.enc() + t1;
        let s = self.enc() + rest;
        crate::io::lemma_concat_assoc(self.entity_id.enc(), self.status.enc(), t2);
        assert(s == t0);
        self.entity_id.lemma_round_trip(t1);
        crate::io::lemma_concat_skip_prefix(self.entity_id.enc(), t1);
        self.status.lemma_round_trip(t2);
        crate::io::lemma_concat_skip_prefix(self.status.enc(), t2);
        crate::io::lemma_skip_of_skip(s, (self.entity_id.enc().len()) as int, self.status.enc().len() as int);
    }
}

impl MooshroomPacket for EntityEvent {
    open spec fn spec_packet_id() -> i32 {
        26
    }

    fn packet_id() -> (id: i32) {
        26
    }
}

#[derive(Copy, Clone, Debug, Default, PartialEq, Eq)]
pub struct GameEvent {
    pub event_id: u8,
    pub value: F32Bits,
}

impl DeepView for GameEvent {
    type V = GameEvent;

    open spec fn deep_view(&self) -> GameEvent {
        *self
    }
}

impl MooshroomWritable for GameEvent {
    open spec fn enc(&self) -> Seq<u8> {
        self.event_id.enc() + self.value.enc()
    }

    fn write(&self, w: &mut Vec<u8>) {
        self.event_id.write(w);
        self.value.write(w);
        proof {
            assert(w@ =~= old(w)@ + self.enc());
        }
    }
}

impl MooshroomReadable for GameEvent {
    open spec fn dec(s: Seq<u8>) -> Option<(GameEvent, int)> {
        match <u8 as MooshroomReadable>::dec(s) {
            Some((v0, n0)) => match <F32Bits as MooshroomReadable>::dec(s.skip(n0)) {
                Some((v1, n1)) => Some((GameEvent { event_id: v0, value: v1 }, n0 + n1)),
                None => None,
            },
            None => None,
        }
    }

    fn read(r: &mut Reader) -> (res: Result<Self, MooshroomError>) {
        let ghost s0 = old(r).remaining();
        let ghost p0 = old(r).pos();
        let event_id = match <u8 as MooshroomReadable>::read(r) {
            Ok(v) => v,
            Err(e) => {
                return Err(e);
            },
        };
        proof {
            assert(r.remaining() =~= s0.skip(r.pos() - p0));
        }
        let value = match <F32Bits as MooshroomReadable>::read(r) {
            Ok(v) => v,
            Err(e) => {
                return Err(e);
            },
        };
        Ok(GameEvent { event_id, value })
    }
}

impl MooshroomRoundTrip for GameEvent {
    open spec fn wire_bounded(&self) -> bool {
        self.event_id.wire_bounded() && self.value.wire_bounded()
    }

    proof fn lemma_round_trip(&self, rest: Seq<u8>)
    {
        let t2 = rest;
        let t1 = self.value.enc() + t2;
        let t0 = self.event_id.enc() + t1;
        let s = self.enc() + rest;
        crate::io::lemma_concat_assoc(self.event_id.enc(), self.value.enc(), t2);
        assert(s == t0);
        self.event_id.lemma_round_trip(t1);
        crate::io::lemma_concat_skip_prefix(self.event_id.enc(), t1);
        self.value.lemma_round_trip(t2);
        crate::io::lemma_concat_skip_prefix(self.value.enc(), t2);
        crate::io::lemma_skip_of_skip(s, (self.event_id.enc().len()) as int, self.value.enc().len() as int);
    }
}

impl MooshroomPacket for GameEvent {
    open spec fn spec_packet_id() -> i32 {
        29
    }

    fn packet_id() -> (id: i32) {
        29
    }
}

#[derive(Copy, Clone, Debug, Default, PartialEq, Eq)]
pub struct InitializeWorldBorder {
    pub x: F64Bits,
    pub z: F64Bits,
    pub old_diamiter: F64Bits,
    pub new_diamiter: F64Bits,
    pub speed: VarLong,
    pub portal_teleport_boundry: VarInt,
    pub warning_blocks: VarInt,
    pub warning_timer: VarInt,
}

impl DeepView for InitializeWorldBorder {
    type V = InitializeWorldBorder;

    open spec fn deep_view(&self) -> InitializeWorldBorder {
        *self
    }
}

impl MooshroomWritable for InitializeWorldBorder {
    open spec fn enc(&self) -> Seq<u8> {
        self.x.enc() + self.z.enc() + self.old_diamiter.enc() + self.new_diamiter.enc() + self.speed.enc() + self.portal_teleport_boundry.enc() + self.warning_blocks.enc() + self.warning_timer.enc()
    }

    fn write(&self, w: &mut Vec<u8>) {
        self.x.write(w);
        self.z.write(w);
        self.old_diamiter.write(w);
        self.new_diamiter.write(w);
        self.speed.write(w);
        self.portal_teleport_boundry.write(w);
        self.warning_blocks.write(w);
        self.warning_timer.write(w);
        proof {
            assert(w@ =~= old(w)@ + self.enc());
        }
    }
}

impl MooshroomReadable for InitializeWorldBorder {
    open spec fn dec(s: Seq<u8>) -> Option<(InitializeWorldBorder, int)> {
        match <F64Bits as MooshroomReadable>::dec(s) {
            Some((v0, n0)) => match <F64Bits as MooshroomReadable>::dec(s.skip(n0)) {
                Some((v1, n1)) => match <F64Bits as MooshroomReadable>::dec(s.skip(n0 + n1)) {
                    Some((v2, n2)) => match <F64Bits as MooshroomReadable>::dec(s.skip(n0 + n1 + n2)) {
                        Some((v3, n3)) => match <VarLong as MooshroomReadable>::dec(s.skip(n0 + n1 + n2 + n3)) {
                            Some((v4, n4)) => match <VarInt as MooshroomReadable>::dec(s.skip(n0 + n1 + n2 + n3 + n4)) {
                                Some((v5, n5)) => match <VarInt as MooshroomReadable>::dec(s.skip(n0 + n1 + n2 + n3 + n4 + n5)) {
                                    Some((v6, n6)) => match <VarInt as MooshroomReadable>::dec(s.skip(n0 + n1 + n2 + n3 + n4 + n5 + n6)) {
                                        Some((v7, n7)) => Some((InitializeWorldBorder { x: v0, z: v1, old_diamiter: v2, new_diamiter: v3, speed: v4, portal_teleport_boundry: v5, warning_blocks: v6, warning_timer: v7 }, n0 + n1 + n2 + n3 + n4 + n5 + n6 + n7)),
                                        None => None,
                                    },
                                    None => None,
                                },
                                None => None,
                            },
                            None => None,
                        },
                        None => None,
                    },
                    None => None,
                },
                None => None,
            },
            None => None,
        }
    }

    #[verifier::rlimit(100)]
    fn read(r: &mut Reader) -> (res: Result<Self, MooshroomError>) {
        let ghost s0 = old(r).remaining();
        let ghost p0 = old(r).pos();
        let x = match <F64Bits as MooshroomReadable>::read(r) {
            Ok(v) => v,
            Err(e) => {
                return Err(e);
            },
        };
        proof {
            assert(r.remaining() =~= s0.skip(r.pos() - p0));
        }
        let z = match <F64Bits as MooshroomReadable>::read(r) {
            Ok(v) => v,
            Err(e) => {
                return Err(e);
            },
        };
        proof {
            assert(r.remaining() =~= s0.skip(r.pos() - p0));
        }
        let old_diamiter = match <F64Bits as MooshroomReadable>::read(r) {
            Ok(v) => v,
            Err(e) => {
                return Err(e);
            },
        };
        proof {
            assert(r.remaining() =~= s0.skip(r.pos() - p0));
        }
        let new_diamiter = match <F64Bits as MooshroomReadable>::read(r) {
            Ok(v) => v,
            Err(e) => {
                return Err(e);
            },
        };
        proof {
            assert(r.remaining() =~= s0.skip(r.pos() - p0));
        }
        let speed = match <VarLong as MooshroomReadable>::read(r) {
            Ok(v) => v,
            Err(e) => {
                return Err(e);
            },
        };
        proof {
            assert(r.remaining() =~= s0.skip(r.pos() - p0));
        }
        let portal_teleport_boundry = match <VarInt as MooshroomReadable>::read(r) {
            Ok(v) => v,
            Err(e) => {
                return Err(e);
            },
        };
        proof {
            assert(r.remaining() =~= s0.skip(r.pos() - p0));
        }
        let warning_blocks = match <VarInt as MooshroomReadable>::read(r) {
            Ok(v) => v,
            Err(e) => {
                return Err(e);
            },
        };
        proof {
            assert(r.remaining() =~= s0.skip(r.pos() - p0));
        }
        let warning_timer = match <VarInt as MooshroomReadable>::read(r) {
            Ok(v) => v,
            Err(e) => {
                return Err(e);
            },
        };
        Ok(InitializeWorldBorder { x, z, old_diamiter, new_diamiter, speed, portal_teleport_boundry, warning_blocks, warning_timer })
    }
}

impl MooshroomRoundTrip for InitializeWorldBorder {
    open spec fn wire_bounded(&self) -> bool {
        self.x.wire_bounded() && self.z.wire_bounded() && self.old_diamiter.wire_bounded() && self.new_diamiter.wire_bounded() && self.speed.wire_bounded() && self.portal_teleport_boundry.wire_bounded() && self.warning_blocks.wire_bounded() && self.warning_timer.wire_bounded()
    }

    #[verifier::rlimit(100)]
    proof fn lemma_round_trip(&self, rest: Seq<u8>)
    {
        let t8 = rest;
        let t7 = self.warning_timer.enc() + t8;
        let t6 = self.warning_blocks.enc() + t7;
        let t5 = self.portal_teleport_boundry.enc() + t6;
        let t4 = self.speed.enc() + t5;
        let t3 = self.new_diamiter.enc() + t4;
        let t2 = self.old_diamiter.enc() + t3;
        let t1 = self.z.enc() + t2;
        let t0 = self.x.enc() + t1;
        let s = self.enc() + rest;
        crate::io::lemma_concat_assoc(self.x.enc() + self.z.enc() + self.old_diamiter.enc() + self.new_diamiter.enc() + self.speed.enc() + self.portal_teleport_boundry.enc() + self.warning_blocks.enc(), self.warning_timer.enc(), t8);
        crate::io::lemma_concat_assoc(self.x.enc() + self.z.enc() + self.old_diamiter.enc() + self.new_diamiter.enc() + self.speed.enc() + self.portal_teleport_boundry.enc(), self.warning_blocks.enc(), t7);
        crate::io::lemma_concat_assoc(self.x.enc() + self.z.enc() + self.old_diamiter.enc() + self.new_diamiter.enc() + self.speed.enc(), self.portal_teleport_boundry.enc(), t6);
        crate::io::lemma_concat_assoc(self.x.enc() + self.z.enc() + self.old_diamiter.enc() + self.new_diamiter.enc(), self.speed.enc(), t5);
        crate::io::lemma_concat_assoc(self.x.enc() + self.z.enc() + self.old_diamiter.enc(), self.new_diamiter.enc(), t4);
        crate::io::lemma_concat_assoc(self.x.enc() + self.z.enc(), self.old_diamiter.enc(), t3);
        crate::io::lemma_concat_assoc(self.x.enc(), self.z.enc(), t2);
        assert(s == t0);
        self.x.lemma_round_trip(t1);
        crate::io::lemma_concat_skip_prefix(self.x.enc(), t1);
        self.z.lemma_round_trip(t2);
        crate::io::lemma_concat_skip_prefix(self.z.enc(), t2);
        crate::io::lemma_skip_of_skip(s, (self.x.enc().len()) as int, self.z.enc().len() as int);
        self.old_diamiter.lemma_round_trip(t3);
        crate::io::lemma_concat_skip_prefix(self.old_diamiter.enc(), t3);
        crate::io::lemma_skip_of_skip(s, (self.x.enc().len() + self.z.enc().len()) as int, self.old_diamiter.enc().len() as int);
        self.new_diamiter.lemma_round_trip(t4);
        crate::io::lemma_concat_skip_prefix(self.new_diamiter.enc(), t4);
        crate::io::lemma_skip_of_skip(s, (self.x.enc().len() + self.z.enc().len() + self.old_diamiter.enc().len()) as int, self.new_diamiter.enc().len() as int);
        self.speed.lemma_round_trip(t5);
        crate::io::lemma_concat_skip_prefix(self.speed.enc(), t5);
        crate::io::lemma_skip_of_skip(s, (self.x.enc().len() + self.z.enc().len() + self.old_diamiter.enc().len() + self.new_diamiter.enc().len()) as int, self.speed.enc().len() as int);
        self.portal_teleport_boundry.lemma_round_trip(t6);
        crate::io::lemma_concat_skip_prefix(self.portal_teleport_boundry.enc(), t6);
        crate::io::lemma_skip_of_skip(s, (self.x.enc().len() + self.z.enc().len() + self.old_diamiter.enc().len() + self.new_diamiter.enc().len() + self.speed.enc().len()) as int, self.portal_teleport_boundry.enc().len() as int);
        self.warning_blocks.lemma_round_trip(t7);
        crate::io::lemma_concat_skip_prefix(self.warning_blocks.enc(), t7);
        crate::io::lemma_skip_of_skip(s, (self.x.enc().len() + self.z.enc().len() + self.old_diamiter.enc().len() + self.new_diamiter.enc().len() + self.speed.enc().len() + self.portal_teleport_boundry.enc().len()) as int, self.warning_blocks.enc().len() as int);
        self.warning_timer.lemma_round_trip(t8);
        crate::io::lemma_concat_skip_prefix(self.warning_timer.enc(), t8);
        crate::io::lemma_skip_of_skip(s, (self.x.enc().len() + self.z.enc().len() + self.old_diamiter.enc().len() + self.new_diamiter.enc().len() + self.speed.enc().len() + self.portal_teleport_boundry.enc().len() + self.warning_blocks.enc().len()) as int, self.warning_timer.enc().len() as int);
    }
}

impl MooshroomPacket for InitializeWorldBorder {
    open spec fn spec_packet_id() -> i32 {
        31
    }

    fn packet_id() -> (id: i32) {
        31
    }
}

#[derive(Clone, Debug, Default, PartialEq)]
pub struct DeathLocation {
    pub dimention_name: Identifier,
    pub location: Position,
}

/// The mathematical value of a `DeathLocation`, for contracts.
pub struct DeathLocationView {
    pub dimention_name: Seq<char>,
    pub location: Position,
}

impl DeepView for DeathLocation {
    type V = DeathLocationView;

    open spec fn deep_view(&self) -> DeathLocationView {
        DeathLocationView {
            dimention_name: self.dimention_name.deep_view(),
            location: self.location.deep_view(),
        }
    }
}

impl MooshroomWritable for DeathLocation {
    open spec fn enc(&self) -> Seq<u8> {
        self.dimention_name.enc() + self.location.enc()
    }

    fn write(&self, w: &mut Vec<u8>) {
        self.dimention_name.write(w);
        self.location.write(w);
        proof {
            assert(w@ =~= old(w)@ + self.enc());
        }
    }
}

impl MooshroomReadable for DeathLocation {
    open spec fn dec(s: Seq<u8>) -> Option<(DeathLocationView, int)> {
        match <String as MooshroomReadable>::dec(s) {
            Some((v0, n0)) => match <Position as MooshroomReadable>::dec(s.skip(n0)) {
                Some((v1, n1)) => Some((DeathLocationView { dimention_name: v0, location: v1 }, n0 + n1)),
                None => None,
            },
            None => None,
        }
    }

    fn read(r: &mut Reader) -> (res: Result<Self, MooshroomError>) {
        let ghost s0 = old(r).remaining();
        let ghost p0 = old(r).pos();
        let dimention_name = match <String as MooshroomReadable>::read(r) {
            Ok(v) => v,
            Err(e) => {
                return Err(e);
            },
        };
        proof {
            assert(r.remaining() =~= s0.skip(r.pos() - p0));
        }
        let location = match <Position as MooshroomReadable>::read(r) {
            Ok(v) => v,
            Err(e) => {
                return Err(e);
            },
        };
        Ok(DeathLocation { dimention_name, location })
    }
}

impl MooshroomRoundTrip for DeathLocation {
    open spec fn wire_bounded(&self) -> bool {
        self.dimention_name.wire_bounded() && self.location.wire_bounded()
    }

    proof fn lemma_round_trip(&self, rest: Seq<u8>)
    {
        let t2 = rest;
        let t1 = self.location.enc() + t2;
        let t0 = self.dimention_name.enc() + t1;
        let s = self.enc() + rest;
        crate::io::lemma_concat_assoc(self.dimention_name.enc(), self.location.enc(), t2);
        assert(s == t0);
        self.dimention_name.lemma_round_trip(t1);
        crate::io::lemma_concat_skip_prefix(self.dimention_name.enc(), t1);
        self.location.lemma_round_trip(t2);
        crate::io::lemma_concat_skip_prefix(self.location.enc(), t2);
        crate::io::lemma_skip_of_skip(s, (self.dimention_name.enc().len()) as int, self.location.enc().len() as int);
    }
}

#[derive(Debug, Default, PartialEq)]
pub struct BlockEntity {
    pub xz: PackedXZ,
    pub y: u16,
    pub block_type: VarInt,
    pub data: NptCompound,
}

/// The mathematical value of a `BlockEntity`, for contracts.
pub struct BlockEntityView {
    pub xz: PackedXZ,
    pub y: u16,
    pub block_type: VarInt,
    pub data: Seq<u8>,
}

impl DeepView for BlockEntity {
    type V = BlockEntityView;

    open spec fn deep_view(&self) -> BlockEntityView {
        BlockEntityView {
            xz: self.xz.deep_view(),
            y: self.y.deep_view(),
            block_type: self.block_type.deep_view(),
            data: self.data.deep_view(),
        }
    }
}

impl MooshroomReadable for BlockEntity {
    open spec fn dec(s: Seq<u8>) -> Option<(BlockEntityView, int)> {
        match <PackedXZ as MooshroomReadable>::dec(s) {
            Some((v0, n0)) => match <u16 as MooshroomReadable>::dec(s.skip(n0)) {
                Some((v1, n1)) => match <VarInt as MooshroomReadable>::dec(s.skip(n0 + n1)) {
                    Some((v2, n2)) => match <NptCompound as MooshroomReadable>::dec(s.skip(n0 + n1 + n2)) {
                        Some((v3, n3)) => Some((BlockEntityView { xz: v0, y: v1, block_type: v2, data: v3 }, n0 + n1 + n2 + n3)),
                        None => None,
                    },
                    None => None,
                },
                None => None,
            },
            None => None,
        }
    }

    fn read(r: &mut Reader) -> (res: Result<Self, MooshroomError>) {
        let ghost s0 = old(r).remaining();
        let ghost p0 = old(r).pos();
        let xz = match <PackedXZ as MooshroomReadable>::read(r) {
            Ok(v) => v,
            Err(e) => {
                return Err(e);
            },
        };
        proof {
            assert(r.remaining() =~= s0.skip(r.pos() - p0));
        }
        let y = match <u16 as MooshroomReadable>::read(r) {
            Ok(v) => v,
            Err(e) => {
                return Err(e);
            },
        };
        proof {
            assert(r.remaining() =~= s0.skip(r.pos() - p0));
        }
        let block_type = match <VarInt as MooshroomReadable>::read(r) {
            Ok(v) => v,
            Err(e) => {
                return Err(e);
            },
        };
        proof {
            assert(r.remaining() =~= s0.skip(r.pos() - p0));
        }
        let data = match <NptCompound as MooshroomReadable>::read(r) {
            Ok(v) => v,
            Err(e) => {
                return Err(e);
            },
        };
        Ok(BlockEntity { xz, y, block_type, data })
    }
}

#[derive(Copy, Clone, Debug, Default, PartialEq, Eq)]
pub struct LightingData {
    pub trust_edges: bool,
}

impl DeepView for LightingData {
    type V = LightingData;

    open spec fn deep_view(&self) -> LightingData {
        *self
    }
}

impl MooshroomWritable for LightingData {
    open spec fn enc(&self) -> Seq<u8> {
        self.trust_edges.enc()
    }

    fn write(&self, w: &mut Vec<u8>) {
        self.trust_edges.write(w);
        proof {
            assert(w@ =~= old(w)@ + self.enc());
        }
    }
}

impl MooshroomReadable for LightingData {
    open spec fn dec(s: Seq<u8>) -> Option<(LightingData, int)> {
        match <bool as MooshroomReadable>::dec(s) {
            Some((v0, n0)) => Some((LightingData { trust_edges: v0 }, n0)),
            None => None,
        }
    }

    fn read(r: &mut Reader) -> (res: Result<Self, MooshroomError>) {
        let ghost s0 = old(r).remaining();
        let ghost p0 = old(r).pos();
        let trust_edges = match <bool as MooshroomReadable>::read(r) {
            Ok(v) => v,
            Err(e) => {
                return Err(e);
            },
        };
        Ok(LightingData { trust_edges })
    }
}

impl MooshroomRoundTrip for LightingData {
    open spec fn wire_bounded(&self) -> bool {
        self.trust_edges.wire_bounded()
    }

    proof fn lemma_round_trip(&self, rest: Seq<u8>)
    {
        let t1 = rest;
        let t0 = self.trust_edges.enc() + t1;
        let s = self.enc() + rest;
        assert(s == t0);
        self.trust_edges.lemma_round_trip(t1);
        crate::io::lemma_concat_skip_prefix(self.trust_edges.enc(), t1);
    }
}

/// A full chunk column: its height maps arrive as an NBT tree, the
/// block data as an opaque byte run.
#[derive(Debug, Default, PartialEq)]
pub struct ChunkData {
    pub chunk_x: i32,
    pub chunk_z: i32,
    pub heightmaps: NptCompound,
    pub data: Vec<u8>,
    pub entity_blocks: Vec<BlockEntity>,
    pub lighting: LightingData,
}

/// The mathematical value of a `ChunkData`, for contracts.
pub struct ChunkDataView {
    pub chunk_x: i32,
    pub chunk_z: i32,
    pub heightmaps: Seq<u8>,
    pub data: Seq<u8>,
    pub entity_blocks: Seq<BlockEntityView>,
    pub lighting: LightingData,
}

impl DeepView for ChunkData {
    type V = ChunkDataView;

    open spec fn deep_view(&self) -> ChunkDataView {
        ChunkDataView {
            chunk_x: self.chunk_x.deep_view(),
            chunk_z: self.chunk_z.deep_view(),
            heightmaps: self.heightmaps.deep_view(),
            data: self.data.deep_view(),
            entity_blocks: self.entity_blocks.deep_view(),
            lighting: self.lighting.deep_view(),
        }
    }
}

impl MooshroomReadable for ChunkData {
    open spec fn dec(s: Seq<u8>) -> Option<(ChunkDataView, int)> {
        match <i32 as MooshroomReadable>::dec(s) {
            Some((v0, n0)) => match <i32 as MooshroomReadable>::dec(s.skip(n0)) {
                Some((v1, n1)) => match <NptCompound as MooshroomReadable>::dec(s.skip(n0 + n1)) {
                    Some((v2, n2)) => match <Vec<u8> as MooshroomReadable>::dec(s.skip(n0 + n1 + n2)) {
                        Some((v3, n3)) => match <Vec<BlockEntity> as MooshroomReadable>::dec(s.skip(n0 + n1 + n2 + n3)) {
                            Some((v4, n4)) => match <LightingData as MooshroomReadable>::dec(s.skip(n0 + n1 + n2 + n3 + n4)) {
                                Some((v5, n5)) => Some((ChunkDataView { chunk_x: v0, chunk_z: v1, heightmaps: v2, data: v3, entity_blocks: v4, lighting: v5 }, n0 + n1 + n2 + n3 + n4 + n5)),
                                None => None,
                            },
                            None => None,
                        },
                        None => None,
                    },
                    None => None,
                },
                None => None,
            },
            None => None,
        }
    }

    #[verifier::rlimit(100)]
    fn read(r: &mut Reader) -> (res: Result<Self, MooshroomError>) {
        let ghost s0 = old(r).remaining();
        let ghost p0 = old(r).pos();
        let chunk_x = match <i32 as MooshroomReadable>::read(r) {
            Ok(v) => v,
            Err(e) => {
                return Err(e);
            },
        };
        proof {
            assert(r.remaining() =~= s0.skip(r.pos() - p0));
        }
        let chunk_z = match <i32 as MooshroomReadable>::read(r) {
            Ok(v) => v,
            Err(e) => {
                return Err(e);
            },
        };
        proof {
            assert(r.remaining() =~= s0.skip(r.pos() - p0));
        }
        let heightmaps = match <NptCompound as MooshroomReadable>::read(r) {
            Ok(v) => v,
            Err(e) => {
                return Err(e);
            },
        };
        proof {
            assert(r.remaining() =~= s0.skip(r.pos() - p0));
        }
        let data = match <Vec<u8> as MooshroomReadable>::read(r) {
            Ok(v) => v,
            Err(e) => {
                return Err(e);
            },
        };
        proof {
            assert(r.remaining() =~= s0.skip(r.pos() - p0));
        }
        let entity_blocks = match <Vec<BlockEntity> as MooshroomReadable>::read(r) {
            Ok(v) => v,
            Err(e) => {
                return Err(e);
            },
        };
        proof {
            assert(r.remaining() =~= s0.skip(r.pos() - p0));
        }
        let lighting = match <LightingData as MooshroomReadable>::read(r) {
            Ok(v) => v,
            Err(e) => {
                return Err(e);
            },
        };
        Ok(ChunkData { chunk_x, chunk_z, heightmaps, data, entity_blocks, lighting })
    }
}

impl MooshroomPacket for ChunkData {
    open spec fn spec_packet_id() -> i32 {
        33
    }

    fn packet_id() -> (id: i32) {
        33
    }
}

#[derive(Copy, Clone, Debug, Default, PartialEq, Eq)]
pub struct UnloadChunk {
    pub chunk_x: i32,
    pub chunk_z: i32,
}

impl DeepView for UnloadChunk {
    type V = UnloadChunk;

    open spec fn deep_view(&self) -> UnloadChunk {
        *self
    }
}

impl MooshroomWritable for UnloadChunk {
    open spec fn enc(&self) -> Seq<u8> {
        self.chunk_x.enc() + self.chunk_z.enc()
    }

    fn write(&self, w: &mut Vec<u8>) {
        self.chunk_x.write(w);
        self.chunk_z.write(w);
        proof {
            assert(w@ =~= old(w)@ + self.enc());
        }
    }
}

impl MooshroomReadable for UnloadChunk {
    open spec fn dec(s: Seq<u8>) -> Option<(UnloadChunk, int)> {
        match <i32 as MooshroomReadable>::dec(s) {
            Some((v0, n0)) => match <i32 as MooshroomReadable>::dec(s.skip(n0)) {
                Some((v1, n1)) => Some((UnloadChunk { chunk_x: v0, chunk_z: v1 }, n0 + n1)),
                None => None,
            },
            None => None,
        }
    }

    fn read(r: &mut Reader) -> (res: Result<Self, MooshroomError>) {
        let ghost s0 = old(r).remaining();
        let ghost p0 = old(r).pos();
        let chunk_x = match <i32 as MooshroomReadable>::read(r) {
            Ok(v) => v,
            Err(e) => {
                return Err(e);
            },
        };
        proof {
            assert(r.remaining() =~= s0.skip(r.pos() - p0));
        }
        let chunk_z = match <i32 as MooshroomReadable>::read(r) {
            Ok(v) => v,
            Err(e) => {
                return Err(e);
            },
        };
        Ok(UnloadChunk { chunk_x, chunk_z })
    }
}

impl MooshroomRoundTrip for UnloadChunk {
    open spec fn wire_bounded(&self) -> bool {
        self.chunk_x.wire_bounded() && self.chunk_z.wire_bounded()
    }

    proof fn lemma_round_trip(&self, rest: Seq<u8>)
    {
        let t2 = rest;
        let t1 = self.chunk_z.enc() + t2;
        let t0 = self.chunk_x.enc() + t1;
        let s = self.enc() + rest;
        crate::io::lemma_concat_assoc(self.chunk_x.enc(), self.chunk_z.enc(), t2);
        assert(s == t0);
        self.chunk_x.lemma_round_trip(t1);
        crate::io::lemma_concat_skip_prefix(self.chunk_x.enc(), t1);
        self.chunk_z.lemma_round_trip(t2);
        crate::io::lemma_concat_skip_prefix(self.chunk_z.enc(), t2);
        crate::io::lemma_skip_of_skip(s, (self.chunk_x.enc().len()) as int, self.chunk_z.enc().len() as int);
    }
}

impl MooshroomPacket for UnloadChunk {
    open spec fn spec_packet_id() -> i32 {
        27
    }

    fn packet_id() -> (id: i32) {
        27
    }
}

#[derive(Copy, Clone, Debug, Default, PartialEq, Eq)]
pub struct WorldEvent {
    pub event_id: i32,
    pub location: Position,
    pub disable_relitive_volume: bool,
}

impl DeepView for WorldEvent {
    type V = WorldEvent;

    open spec fn deep_view(&self) -> WorldEvent {
        *self
    }
}

impl MooshroomWritable for WorldEvent {
    open spec fn enc(&self) -> Seq<u8> {
        self.event_id.enc() + self.location.enc() + self.disable_relitive_volume.enc()
    }

    fn write(&self, w: &mut Vec<u8>) {
        self.event_id.write(w);
        self.location.write(w);
        self.disable_relitive_volume.write(w);
        proof {
            assert(w@ =~= old(w)@ + self.enc());
        }
    }
}

impl MooshroomReadable for WorldEvent {
    open spec fn dec(s: Seq<u8>) -> Option<(WorldEvent, int)> {
        match <i32 as MooshroomReadable>::dec(s) {
            Some((v0, n0)) => match <Position as MooshroomReadable>::dec(s.skip(n0)) {
                Some((v1, n1)) => match <bool as MooshroomReadable>::dec(s.skip(n0 + n1)) {
                    Some((v2, n2)) => Some((WorldEvent { event_id: v0, location: v1, disable_relitive_volume: v2 }, n0 + n1 + n2)),
                    None => None,
                },
                None => None,
            },
            None => None,
        }
    }

    fn read(r: &mut Reader) -> (res: Result<Self, MooshroomError>) {
        let ghost s0 = old(r).remaining();
        let ghost p0 = old(r).pos();
        let event_id = match <i32 as MooshroomReadable>::read(r) {
            Ok(v) => v,
            Err(e) => {
                return Err(e);
            },
        };
        proof {
            assert(r.remaining() =~= s0.skip(r.pos() - p0));
        }
        let location = match <Position as MooshroomReadable>::read(r) {
            Ok(v) => v,
            Err(e) => {
                return Err(e);
            },
        };
        proof {
            assert(r.remaining() =~= s0.skip(r.pos() - p0));
        }
        let disable_relitive_volume = match <bool as MooshroomReadable>::read(r) {
            Ok(v) => v,
            Err(e) => {
                return Err(e);
            },
        };
        Ok(WorldEvent { event_id, location, disable_relitive_volume })
    }
}

impl MooshroomRoundTrip for WorldEvent {
    open spec fn wire_bounded(&self) -> bool {
        self.event_id.wire_bounded() && self.location.wire_bounded() && self.disable_relitive_volume.wire_bounded()
    }

    proof fn lemma_round_trip(&self, rest: Seq<u8>)
    {
        let t3 = rest;
        let t2 = self.disable_relitive_volume.enc() + t3;
        let t1 = self.location.enc() + t2;
        let t0 = self.event_id.enc() + t1;
        let s = self.enc() + rest;
        crate::io::lemma_concat_assoc(self.event_id.enc() + self.location.enc(), self.disable_relitive_volume.enc(), t3);
        crate::io::lemma_concat_assoc(self.event_id.enc(), self.location.enc(), t2);
        assert(s == t0);
        self.event_id.lemma_round_trip(t1);
        crate::io::lemma_concat_skip_prefix(self.event_id.enc(), t1);
        self.location.lemma_round_trip(t2);
        crate::io::lemma_concat_skip_prefix(self.location.enc(), t2);
        crate::io::lemma_skip_of_skip(s, (self.event_id.enc().len()) as int, self.location.enc().len() as int);
        self.disable_relitive_volume.lemma_round_trip(t3);
        crate::io::lemma_concat_skip_prefix(self.disable_relitive_volume.enc(), t3);
        crate::io::lemma_skip_of_skip(s, (self.event_id.enc().len() + self.location.enc().len()) as int, self.disable_relitive_volume.enc().len() as int);
    }
}

impl MooshroomPacket for WorldEvent {
    open spec fn spec_packet_id() -> i32 {
        34
    }

    fn packet_id() -> (id: i32) {
        34
    }
}

#[derive(Copy, Clone, Debug, Default, PartialEq, Eq)]
pub struct Particle {
    pub particle_id: VarInt,
    pub long_distance: bool,
    pub location: WorldPosition,
    pub offset: Vec3<F32Bits>,
    pub max_speed: F32Bits,
    pub particle_count: i32,
}

impl DeepView for Particle {
    type V = Particle;

    open spec fn deep_view(&self) -> Particle {
        *self
    }
}

impl MooshroomWritable for Particle {
    open spec fn enc(&self) -> Seq<u8> {
        self.particle_id.enc() + self.long_distance.enc() + self.location.enc() + self.offset.enc() + self.max_speed.enc() + self.particle_count.enc()
    }

    fn write(&self, w: &mut Vec<u8>) {
        self.particle_id.write(w);
        self.long_distance.write(w);
        self.location.write(w);
        self.offset.write(w);
        self.max_speed.write(w);
        self.particle_count.write(w);
        proof {
            assert(w@ =~= old(w)@ + self.enc());
        }
    }
}

impl MooshroomReadable for Particle {
    open spec fn dec(s: Seq<u8>) -> Option<(Particle, int)> {
        match <VarInt as MooshroomReadable>::dec(s) {
            Some((v0, n0)) => match <bool as MooshroomReadable>::dec(s.skip(n0)) {
                Some((v1, n1)) => match <Vec3<F64Bits> as MooshroomReadable>::dec(s.skip(n0 + n1)) {
                    Some((v2, n2)) => match <Vec3<F32Bits> as MooshroomReadable>::dec(s.skip(n0 + n1 + n2)) {
                        Some((v3, n3)) => match <F32Bits as MooshroomReadable>::dec(s.skip(n0 + n1 + n2 + n3)) {
                            Some((v4, n4)) => match <i32 as MooshroomReadable>::dec(s.skip(n0 + n1 + n2 + n3 + n4)) {
                                Some((v5, n5)) => Some((Particle { particle_id: v0, long_distance: v1, location: v2, offset: v3, max_speed: v4, particle_count: v5 }, n0 + n1 + n2 + n3 + n4 + n5)),
                                None => None,
                            },
                            None => None,
                        },
                        None => None,
                    },
                    None => None,
                },
                None => None,
            },
            None => None,
        }
    }

    #[verifier::rlimit(100)]
    fn read(r: &mut Reader) -> (res: Result<Self, MooshroomError>) {
        let ghost s0 = old(r).remaining();
        let ghost p0 = old(r).pos();
        let particle_id = match <VarInt as MooshroomReadable>::read(r) {
            Ok(v) => v,
            Err(e) => {
                return Err(e);
            },
        };
        proof {
            assert(r.remaining() =~= s0.skip(r.pos() - p0));
        }
        let long_distance = match <bool as MooshroomReadable>::read(r) {
            Ok(v) => v,
            Err(e) => {
                return Err(e);
            },
        };
        proof {
            assert(r.remaining() =~= s0.skip(r.pos() - p0));
        }
        let location = match <Vec3<F64Bits> as MooshroomReadable>::read(r) {
            Ok(v) => v,
            Err(e) => {
                return Err(e);
            },
        };
        proof {
            assert(r.remaining() =~= s0.skip(r.pos() - p0));
        }
        let offset = match <Vec3<F32Bits> as MooshroomReadable>::read(r) {
            Ok(v) => v,
            Err(e) => {
                return Err(e);
            },
        };
        proof {
            assert(r.remaining() =~= s0.skip(r.pos() - p0));
        }
        let max_speed = match <F32Bits as MooshroomReadable>::read(r) {
            Ok(v) => v,
            Err(e) => {
                return Err(e);
            },
        };
        proof {
            assert(r.remaining() =~= s0.skip(r.pos() - p0));
        }
        let particle_count = match <i32 as MooshroomReadable>::read(r) {
            Ok(v) => v,
            Err(e) => {
                return Err(e);
            },
        };
        Ok(Particle { particle_id, long_distance, location, offset, max_speed, particle_count })
    }
}

impl MooshroomRoundTrip for Particle {
    open spec fn wire_bounded(&self) -> bool {
        self.particle_id.wire_bounded() && self.long_distance.wire_bounded() && self.location.wire_bounded() && self.offset.wire_bounded() && self.max_speed.wire_bounded() && self.particle_count.wire_bounded()
    }

    #[verifier::rlimit(100)]
    proof fn lemma_round_trip(&self, rest: Seq<u8>)
    {
        let t6 = rest;
        let t5 = self.particle_count.enc() + t6;
        let t4 = self.max_speed.enc() + t5;
        let t3 = self.offset.enc() + t4;
        let t2 = self.location.enc() + t3;
        let t1 = self.long_distance.enc() + t2;
        let t0 = self.particle_id.enc() + t1;
        let s = self.enc() + rest;
        crate::io::lemma_concat_assoc(self.particle_id.enc() + self.long_distance.enc() + self.location.enc() + self.offset.enc() + self.max_speed.enc(), self.particle_count.enc(), t6);
        crate::io::lemma_concat_assoc(self.particle_id.enc() + self.long_distance.enc() + self.location.enc() + self.offset.enc(), self.max_speed.enc(), t5);
        crate::io::lemma_concat_assoc(self.particle_id.enc() + self.long_distance.enc() + self.location.enc(), self.offset.enc(), t4);
        crate::io::lemma_concat_assoc(self.particle_id.enc() + self.long_distance.enc(), self.location.enc(), t3);
        crate::io::lemma_concat_assoc(self.particle_id.enc(), self.long_distance.enc(), t2);
        assert(s == t0);
        self.particle_id.lemma_round_trip(t1);
        crate::io::lemma_concat_skip_prefix(self.particle_id.enc(), t1);
        self.long_distance.lemma_round_trip(t2);
        crate::io::lemma_concat_skip_prefix(self.long_distance.enc(), t2);
        crate::io::lemma_skip_of_skip(s, (self.particle_id.enc().len()) as int, self.long_distance.enc().len() as int);
        self.location.lemma_round_trip(t3);
        crate::io::lemma_concat_skip_prefix(self.location.enc(), t3);
        crate::io::lemma_skip_of_skip(s, (self.particle_id.enc().len() + self.long_distance.enc().len()) as int, self.location.enc().len() as int);
        self.offset.lemma_round_trip(t4);
        crate::io::lemma_concat_skip_prefix(self.offset.enc(), t4);
        crate::io::lemma_skip_of_skip(s, (self.particle_id.enc().len() + self.long_distance.enc().len() + self.location.enc().len()) as int, self.offset.enc().len() as int);
        self.max_speed.lemma_round_trip(t5);
        crate::io::lemma_concat_skip_prefix(self.max_speed.enc(), t5);
        crate::io::lemma_skip_of_skip(s, (self.particle_id.enc().len() + self.long_distance.enc().len() + self.location.enc().len() + self.offset.enc().len()) as int, self.max_speed.enc().len() as int);
        self.particle_count.lemma_round_trip(t6);
        crate::io::lemma_concat_skip_prefix(self.particle_count.enc(), t6);
        crate::io::lemma_skip_of_skip(s, (self.particle_id.enc().len() + self.long_distance.enc().len() + self.location.enc().len() + self.offset.enc().len() + self.max_speed.enc().len()) as int, self.particle_count.enc().len() as int);
    }
}

impl MooshroomPacket for Particle {
    open spec fn spec_packet_id() -> i32 {
        35
    }

    fn packet_id() -> (id: i32) {
        35
    }
}

#[derive(Copy, Clone, Debug, Default, PartialEq, Eq)]
pub struct UpdateLight {
    pub chunk_x: i32,
    pub chunk_z: i32,
    pub lighting: LightingData,
}

impl DeepView for UpdateLight {
    type V = UpdateLight;

    open spec fn deep_view(&self) -> UpdateLight {
        *self
    }
}

impl MooshroomWritable for UpdateLight {
    open spec fn enc(&self) -> Seq<u8> {
        self.chunk_x.enc() + self.chunk_z.enc() + self.lighting.enc()
    }

    fn write(&self, w: &mut Vec<u8>) {
        self.chunk_x.write(w);
        self.chunk_z.write(w);
        self.lighting.write(w);
        proof {
            assert(w@ =~= old(w)@ + self.enc());
        }
    }
}

impl MooshroomReadable for UpdateLight {
    open spec fn dec(s: Seq<u8>) -> Option<(UpdateLight, int)> {
        match <i32 as MooshroomReadable>::dec(s) {
            Some((v0, n0)) => match <i32 as MooshroomReadable>::dec(s.skip(n0)) {
                Some((v1, n1)) => match <LightingData as MooshroomReadable>::dec(s.skip(n0 + n1)) {
                    Some((v2, n2)) => Some((UpdateLight { chunk_x: v0, chunk_z: v1, lighting: v2 }, n0 + n1 + n2)),
                    None => None,
                },
                None => None,
            },
            None => None,
        }
    }

    fn read(r: &mut Reader) -> (res: Result<Self, MooshroomError>) {
        let ghost s0 = old(r).remaining();
        let ghost p0 = old(r).pos();
        let chunk_x = match <i32 as MooshroomReadable>::read(r) {
            Ok(v) => v,
            Err(e) => {
                return Err(e);
            },
        };
        proof {
            assert(r.remaining() =~= s0.skip(r.pos() - p0));
        }
        let chunk_z = match <i32 as MooshroomReadable>::read(r) {
            Ok(v) => v,
            Err(e) => {
                return Err(e);
            },
        };
        proof {
            assert(r.remaining() =~= s0.skip(r.pos() - p0));
        }
        let lighting = match <LightingData as MooshroomReadable>::read(r) {
            Ok(v) => v,
            Err(e) => {
                return Err(e);
            },
        };
        Ok(UpdateLight { chunk_x, chunk_z, lighting })
    }
}

impl MooshroomRoundTrip for UpdateLight {
    open spec fn wire_bounded(&self) -> bool {
        self.chunk_x.wire_bounded() && self.chunk_z.wire_bounded() && self.lighting.wire_bounded()
    }

    proof fn lemma_round_trip(&self, rest: Seq<u8>)
    {
        let t3 = rest;
        let t2 = self.lighting.enc() + t3;
        let t1 = self.chunk_z.enc() + t2;
        let t0 = self.chunk_x.enc() + t1;
        let s = self.enc() + rest;
        crate::io::lemma_concat_assoc(self.chunk_x.enc() + self.chunk_z.enc(), self.lighting.enc(), t3);
        crate::io::lemma_concat_assoc(self.chunk_x.enc(), self.chunk_z.enc(), t2);
        assert(s == t0);
        self.chunk_x.lemma_round_trip(t1);
        crate::io::lemma_concat_skip_prefix(self.chunk_x.enc(), t1);
        self.chunk_z.lemma_round_trip(t2);
        crate::io::lemma_concat_skip_prefix(self.chunk_z.enc(), t2);
        crate::io::lemma_skip_of_skip(s, (self.chunk_x.enc().len()) as int, self.chunk_z.enc().len() as int);
        self.lighting.lemma_round_trip(t3);
        crate::io::lemma_concat_skip_prefix(self.lighting.enc(), t3);
        crate::io::lemma_skip_of_skip(s, (self.chunk_x.enc().len() + self.chunk_z.enc().len()) as int, self.lighting.enc().len() as int);
    }
}

impl MooshroomPacket for UpdateLight {
    open spec fn spec_packet_id() -> i32 {
        36
    }

    fn packet_id() -> (id: i32) {
        36
    }
}

/// The play mode of a player; the unset value stands for no previous
/// mode.
#[derive(Copy, Clone, Debug, Default, PartialEq, Eq)]
pub enum GameMode {
    #[default]
    Unset,
    Survival,
    Creative,
    Adventure,
    Spectator,
}

impl DeepView for GameMode {
    type V = GameMode;

    open spec fn deep_view(&self) -> GameMode {
        *self
    }
}

impl MooshroomValue for GameMode {
    open spec fn spec_value(&self) -> int {
        match self {
            GameMode::Unset => -1,
            GameMode::Survival => 0,
            GameMode::Creative => 1,
            GameMode::Adventure => 2,
            GameMode::Spectator => 3,
        }
    }

    open spec fn spec_from_value(v: int) -> Option<GameMode> {
        if v == -1 {
            Some(GameMode::Unset)
        } else if v == 0 {
            Some(GameMode::Survival)
        } else if v == 1 {
            Some(GameMode::Creative)
        } else if v == 2 {
            Some(GameMode::Adventure)
        } else if v == 3 {
            Some(GameMode::Spectator)
        } else {
            None
        }
    }

    fn from_value(v: i32) -> (res: Result<Self, MooshroomError>) {
        if v == -1 {
            Ok(GameMode::Unset)
        } else if v == 0 {
            Ok(GameMode::Survival)
        } else if v == 1 {
            Ok(GameMode::Creative)
        } else if v == 2 {
            Ok(GameMode::Adventure)
        } else if v == 3 {
            Ok(GameMode::Spectator)
        } else {
            Err(MooshroomError::InvalidEnumVariant(v))
        }
    }

    fn to_value(&self) -> (res: Result<i32, MooshroomError>) {
        match self {
            GameMode::Unset => Ok(-1),
            GameMode::Survival => Ok(0),
            GameMode::Creative => Ok(1),
            GameMode::Adventure => Ok(2),
            GameMode::Spectator => Ok(3),
        }
    }
}

impl MooshroomWritable for GameMode {
    open spec fn enc(&self) -> Seq<u8> {
        be_enc(sig_to_un(self.spec_value(), 0x100), 1)
    }

    fn write(&self, w: &mut Vec<u8>) {
        let v: i8 = match self {
            GameMode::Unset => -1,
            GameMode::Survival => 0,
            GameMode::Creative => 1,
            GameMode::Adventure => 2,
            GameMode::Spectator => 3,
        };
        <i8 as MooshroomWritable>::write(&v, w);
    }
}

impl MooshroomReadable for GameMode {
    open spec fn dec(s: Seq<u8>) -> Option<(GameMode, int)> {
        if s.len() >= 1 {
            match GameMode::spec_from_value(un_to_sig(s[0] as nat, 0x80, 0x100)) {
                Some(e) => Some((e, 1)),
                None => None,
            }
        } else {
            None
        }
    }

    fn read(r: &mut Reader) -> (res: Result<Self, MooshroomError>) {
        match <i8 as MooshroomReadable>::read(r) {
            Ok(v) => {
                proof {
                    lemma_be_dec_bound(old(r).remaining(), 1);
                    lemma_pow256_values();
                    assert(be_dec(old(r).remaining(), 1)
                        == old(r).remaining()[0] as nat);
                    assert(v as int == un_to_sig(
                        old(r).remaining()[0] as nat, 0x80, 0x100));
                }
                match GameMode::from_value(v as i32) {
                    Ok(e) => Ok(e),
                    Err(e) => Err(e),
                }
            },
            Err(e) => Err(e),
        }
    }
}

impl MooshroomRoundTrip for GameMode {
    open spec fn wire_bounded(&self) -> bool {
        true
    }

    proof fn lemma_round_trip(&self, rest: Seq<u8>) {
        let u = sig_to_un(self.spec_value(), 0x100);
        lemma_be_enc_len(u, 1);
        lemma_be_round_trip(u, 1, rest);
        lemma_pow256_values();
        assert((self.enc() + rest)[0] == self.enc()[0]);
        assert(GameMode::spec_from_value(self.spec_value()) == Some(*self));
    }
}

/// The packet that opens the play stage, carrying the world registry
/// as an NBT tree.
#[derive(Debug, Default, PartialEq)]
pub struct LoginPlay {
    pub entity_id: i32,
    pub is_hardcore: bool,
    pub gamemode: GameMode,
    pub previous_gamemode: GameMode,
    pub dimention_names: Vec<String>,
    pub npt: NptCompound,
    pub dimention_type: Identifier,
    pub dimention_name: Identifier,
    pub hashed_seed: u64,
    pub max_players: VarInt,
    pub view_distance: VarInt,
    pub simulation_distance: VarInt,
    pub reduced_debug_infomation: bool,
    pub enable_respawn_screen: bool,
    pub is_debug: bool,
    pub is_flat: bool,
    pub death_location: Option<DeathLocation>,
}

/// The mathematical value of a `LoginPlay`, for contracts.
pub struct LoginPlayView {
    pub entity_id: i32,
    pub is_hardcore: bool,
    pub gamemode: GameMode,
    pub previous_gamemode: GameMode,
    pub dimention_names: Seq<Seq<char>>,
    pub npt: Seq<u8>,
    pub dimention_type: Seq<char>,
    pub dimention_name: Seq<char>,
    pub hashed_seed: u64,
    pub max_players: VarInt,
    pub view_distance: VarInt,
    pub simulation_distance: VarInt,
    pub reduced_debug_infomation: bool,
    pub enable_respawn_screen: bool,
    pub is_debug: bool,
    pub is_flat: bool,
    pub death_location: Option<DeathLocationView>,
}

impl DeepView for LoginPlay {
    type V = LoginPlayView;

    open spec fn deep_view(&self) -> LoginPlayView {
        LoginPlayView {
            entity_id: self.entity_id.deep_view(),
            is_hardcore: self.is_hardcore.deep_view(),
            gamemode: self.gamemode.deep_view(),
            previous_gamemode: self.previous_gamemode.deep_view(),
            dimention_names: self.dimention_names.deep_view(),
            npt: self.npt.deep_view(),
            dimention_type: self.dimention_type.deep_view(),
            dimention_name: self.dimention_name.deep_view(),
            hashed_seed: self.hashed_seed.deep_view(),
            max_players: self.max_players.deep_view(),
            view_distance: self.view_distance.deep_view(),
            simulation_distance: self.simulation_distance.deep_view(),
            reduced_debug_infomation: self.reduced_debug_infomation.deep_view(),
            enable_respawn_screen: self.enable_respawn_screen.deep_view(),
            is_debug: self.is_debug.deep_view(),
            is_flat: self.is_flat.deep_view(),
            death_location: self.death_location.deep_view(),
        }
    }
}

/// The world block of a play login: identity, mode, dimensions and the
/// registry tree.
pub open spec fn dec_loginplay_part0(s: Seq<u8>) -> Option<((i32, bool, GameMode, GameMode, Seq<Seq<char>>, Seq<u8>), int)> {
    match <i32 as MooshroomReadable>::dec(s) {
        Some((v0, n0)) => match <bool as MooshroomReadable>::dec(s.skip(n0)) {
        Some((v1, n1)) => match <GameMode as MooshroomReadable>::dec(s.skip(n0 + n1)) {
        Some((v2, n2)) => match <GameMode as MooshroomReadable>::dec(s.skip(n0 + n1 + n2)) {
        Some((v3, n3)) => match <Vec<String> as MooshroomReadable>::dec(s.skip(n0 + n1 + n2 + n3)) {
        Some((v4, n4)) => match <NptCompound as MooshroomReadable>::dec(s.skip(n0 + n1 + n2 + n3 + n4)) {
        Some((v5, n5)) => Some(((v0, v1, v2, v3, v4, v5), n0 + n1 + n2 + n3 + n4 + n5)),
        None => None,
    },
        None => None,
    },
        None => None,
    },
        None => None,
    },
        None => None,
    },
        None => None,
    }
}

fn read_loginplay_part0(r: &mut Reader) -> (res: Result<(i32, bool, GameMode, GameMode, Vec<String>, NptCompound), MooshroomError>)
    requires
        old(r).wf(),
    ensures
        final(r).wf(),
        final(r).data() == old(r).data(),
        final(r).pos() >= old(r).pos(),
        match res {
            Ok(v) => dec_loginplay_part0(old(r).remaining()) == Some(
                (v.deep_view(), final(r).pos() - old(r).pos()),
            ),
            Err(_) => dec_loginplay_part0(old(r).remaining()) is None,
        },
{
    let ghost s0 = old(r).remaining();
    let ghost p0 = old(r).pos();
    let v0 = match <i32 as MooshroomReadable>::read(r) {
        Ok(v) => v,
        Err(e) => {
            return Err(e);
        },
    };
    proof {
        assert(r.remaining() =~= s0.skip(r.pos() - p0));
    }
    let v1 = match <bool as MooshroomReadable>::read(r) {
        Ok(v) => v,
        Err(e) => {
            return Err(e);
        },
    };
    proof {
        assert(r.remaining() =~= s0.skip(r.pos() - p0));
    }
    let v2 = match <GameMode as MooshroomReadable>::read(r) {
        Ok(v) => v,
        Err(e) => {
            return Err(e);
        },
    };
    proof {
        assert(r.remaining() =~= s0.skip(r.pos() - p0));
    }
    let v3 = match <GameMode as MooshroomReadable>::read(r) {
        Ok(v) => v,
        Err(e) => {
            return Err(e);
        },
    };
    proof {
        assert(r.remaining() =~= s0.skip(r.pos() - p0));
    }
    let v4 = match <Vec<String> as MooshroomReadable>::read(r) {
        Ok(v) => v,
        Err(e) => {
            return Err(e);
        },
    };
    proof {
        assert(r.remaining() =~= s0.skip(r.pos() - p0));
    }
    let v5 = match <NptCompound as MooshroomReadable>::read(r) {
        Ok(v) => v,
        Err(e) => {
            return Err(e);
        },
    };
    Ok((v0, v1, v2, v3, v4, v5))
}

/// The location block: dimension names and the world seed and limits.
pub open spec fn dec_loginplay_part1(s: Seq<u8>) -> Option<((Seq<char>, Seq<char>, u64, VarInt, VarInt, VarInt), int)> {
    match <String as MooshroomReadable>::dec(s) {
        Some((v0, n0)) => match <String as MooshroomReadable>::dec(s.skip(n0)) {
        Some((v1, n1)) => match <u64 as MooshroomReadable>::dec(s.skip(n0 + n1)) {
        Some((v2, n2)) => match <VarInt as MooshroomReadable>::dec(s.skip(n0 + n1 + n2)) {
        Some((v3, n3)) => match <VarInt as MooshroomReadable>::dec(s.skip(n0 + n1 + n2 + n3)) {
        Some((v4, n4)) => match <VarInt as MooshroomReadable>::dec(s.skip(n0 + n1 + n2 + n3 + n4)) {
        Some((v5, n5)) => Some(((v0, v1, v2, v3, v4, v5), n0 + n1 + n2 + n3 + n4 + n5)),
        None => None,
    },
        None => None,
    },
        None => None,
    },
        None => None,
    },
        None => None,
    },
        None => None,
    }
}

fn read_loginplay_part1(r: &mut Reader) -> (res: Result<(String, String, u64, VarInt, VarInt, VarInt), MooshroomError>)
    requires
        old(r).wf(),
    ensures
        final(r).wf(),
        final(r).data() == old(r).data(),
        final(r).pos() >= old(r).pos(),
        match res {
            Ok(v) => dec_loginplay_part1(old(r).remaining()) == Some(
                (v.deep_view(), final(r).pos() - old(r).pos()),
            ),
            Err(_) => dec_loginplay_part1(old(r).remaining()) is None,
        },
{
    let ghost s0 = old(r).remaining();
    let ghost p0 = old(r).pos();
    let v0 = match <String as MooshroomReadable>::read(r) {
        Ok(v) => v,
        Err(e) => {
            return Err(e);
        },
    };
    proof {
        assert(r.remaining() =~= s0.skip(r.pos() - p0));
    }
    let v1 = match <String as MooshroomReadable>::read(r) {
        Ok(v) => v,
        Err(e) => {
            return Err(e);
        },
    };
    proof {
        assert(r.remaining() =~= s0.skip(r.pos() - p0));
    }
    let v2 = match <u64 as MooshroomReadable>::read(r) {
        Ok(v) => v,
        Err(e) => {
            return Err(e);
        },
    };
    proof {
        assert(r.remaining() =~= s0.skip(r.pos() - p0));
    }
    let v3 = match <VarInt as MooshroomReadable>::read(r) {
        Ok(v) => v,
        Err(e) => {
            return Err(e);
        },
    };
    proof {
        assert(r.remaining() =~= s0.skip(r.pos() - p0));
    }
    let v4 = match <VarInt as MooshroomReadable>::read(r) {
        Ok(v) => v,
        Err(e) => {
            return Err(e);
        },
    };
    proof {
        assert(r.remaining() =~= s0.skip(r.pos() - p0));
    }
    let v5 = match <VarInt as MooshroomReadable>::read(r) {
        Ok(v) => v,
        Err(e) => {
            return Err(e);
        },
    };
    Ok((v0, v1, v2, v3, v4, v5))
}

/// The flags block: debug state and the optional death location.
pub open spec fn dec_loginplay_part2(s: Seq<u8>) -> Option<((bool, bool, bool, bool, Option<DeathLocationView>), int)> {
    match <bool as MooshroomReadable>::dec(s) {
        Some((v0, n0)) => match <bool as MooshroomReadable>::dec(s.skip(n0)) {
        Some((v1, n1)) => match <bool as MooshroomReadable>::dec(s.skip(n0 + n1)) {
        Some((v2, n2)) => match <bool as MooshroomReadable>::dec(s.skip(n0 + n1 + n2)) {
        Some((v3, n3)) => match <Option<DeathLocation> as MooshroomReadable>::dec(s.skip(n0 + n1 + n2 + n3)) {
        Some((v4, n4)) => Some(((v0, v1, v2, v3, v4), n0 + n1 + n2 + n3 + n4)),
        None => None,
    },
        None => None,
    },
        None => None,
    },
        None => None,
    },
        None => None,
    }
}

fn read_loginplay_part2(r: &mut Reader) -> (res: Result<(bool, bool, bool, bool, Option<DeathLocation>), MooshroomError>)
    requires
        old(r).wf(),
    ensures
        final(r).wf(),
        final(r).data() == old(r).data(),
        final(r).pos() >= old(r).pos(),
        match res {
            Ok(v) => dec_loginplay_part2(old(r).remaining()) == Some(
                (v.deep_view(), final(r).pos() - old(r).pos()),
            ),
            Err(_) => dec_loginplay_part2(old(r).remaining()) is None,
        },
{
    let ghost s0 = old(r).remaining();
    let ghost p0 = old(r).pos();
    let v0 = match <bool as MooshroomReadable>::read(r) {
        Ok(v) => v,
        Err(e) => {
            return Err(e);
        },
    };
    proof {
        assert(r.remaining() =~= s0.skip(r.pos() - p0));
    }
    let v1 = match <bool as MooshroomReadable>::read(r) {
        Ok(v) => v,
        Err(e) => {
            return Err(e);
        },
    };
    proof {
        assert(r.remaining() =~= s0.skip(r.pos() - p0));
    }
    let v2 = match <bool as MooshroomReadable>::read(r) {
        Ok(v) => v,
        Err(e) => {
            return Err(e);
        },
    };
    proof {
        assert(r.remaining() =~= s0.skip(r.pos() - p0));
    }
    let v3 = match <bool as MooshroomReadable>::read(r) {
        Ok(v) => v,
        Err(e) => {
            return Err(e);
        },
    };
    proof {
        assert(r.remaining() =~= s0.skip(r.pos() - p0));
    }
    let v4 = match <Option<DeathLocation> as MooshroomReadable>::read(r) {
        Ok(v) => v,
        Err(e) => {
            return Err(e);
        },
    };
    Ok((v0, v1, v2, v3, v4))
}

impl MooshroomReadable for LoginPlay {
    open spec fn dec(s: Seq<u8>) -> Option<(LoginPlayView, int)> {
        match dec_loginplay_part0(s) {
            Some((h0, m0)) => match dec_loginplay_part1(s.skip(m0)) {
            Some((h1, m1)) => match dec_loginplay_part2(s.skip(m0 + m1)) {
            Some((h2, m2)) => Some((LoginPlayView { entity_id: h0.0, is_hardcore: h0.1, gamemode: h0.2, previous_gamemode: h0.3, dimention_names: h0.4, npt: h0.5, dimention_type: h1.0, dimention_name: h1.1, hashed_seed: h1.2, max_players: h1.3, view_distance: h1.4, simulation_distance: h1.5, reduced_debug_infomation: h2.0, enable_respawn_screen: h2.1, is_debug: h2.2, is_flat: h2.3, death_location: h2.4 }, m0 + m1 + m2)),
            None => None,
        },
            None => None,
        },
            None => None,
        }
    }

    fn read(r: &mut Reader) -> (res: Result<Self, MooshroomError>) {
        let ghost s0 = old(r).remaining();
        let ghost p0 = old(r).pos();
        let h0 = match read_loginplay_part0(r) {
            Ok(v) => v,
            Err(e) => {
                return Err(e);
            },
        };
        proof {
            assert(r.remaining() =~= s0.skip(r.pos() - p0));
        }
        let h1 = match read_loginplay_part1(r) {
            Ok(v) => v,
            Err(e) => {
                return Err(e);
            },
        };
        proof {
            assert(r.remaining() =~= s0.skip(r.pos() - p0));
        }
        let h2 = match read_loginplay_part2(r) {
            Ok(v) => v,
            Err(e) => {
                return Err(e);
            },
        };
        Ok(LoginPlay { entity_id: h0.0, is_hardcore: h0.1, gamemode: h0.2, previous_gamemode: h0.3, dimention_names: h0.4, npt: h0.5, dimention_type: h1.0, dimention_name: h1.1, hashed_seed: h1.2, max_players: h1.3, view_distance: h1.4, simulation_distance: h1.5, reduced_debug_infomation: h2.0, enable_respawn_screen: h2.1, is_debug: h2.2, is_flat: h2.3, death_location: h2.4 })
    }
}

impl MooshroomPacket for LoginPlay {
    open spec fn spec_packet_id() -> i32 {
        37
    }

    fn packet_id() -> (id: i32) {
        37
    }
}

#[derive(Clone, Debug, Default, PartialEq)]
pub struct PreviousMessage {
    pub sender: Uuid,
    pub signature: Vec<u8>,
}

/// The mathematical value of a `PreviousMessage`, for contracts.
pub struct PreviousMessageView {
    pub sender: Uuid,
    pub signature: Seq<u8>,
}

impl DeepView for PreviousMessage {
    type V = PreviousMessageView;

    open spec fn deep_view(&self) -> PreviousMessageView {
        PreviousMessageView {
            sender: self.sender.deep_view(),
            signature: self.signature.deep_view(),
        }
    }
}

impl MooshroomWritable for PreviousMessage {
    open spec fn enc(&self) -> Seq<u8> {
        self.sender.enc() + self.signature.enc()
    }

    fn write(&self, w: &mut Vec<u8>) {
        self.sender.write(w);
        self.signature.write(w);
        proof {
            assert(w@ =~= old(w)@ + self.enc());
        }
    }
}

impl MooshroomReadable for PreviousMessage {
    open spec fn dec(s: Seq<u8>) -> Option<(PreviousMessageView, int)> {
        match <Uuid as MooshroomReadable>::dec(s) {
            Some((v0, n0)) => match <Vec<u8> as MooshroomReadable>::dec(s.skip(n0)) {
                Some((v1, n1)) => Some((PreviousMessageView { sender: v0, signature: v1 }, n0 + n1)),
                None => None,
            },
            None => None,
        }
    }

    fn read(r: &mut Reader) -> (res: Result<Self, MooshroomError>) {
        let ghost s0 = old(r).remaining();
        let ghost p0 = old(r).pos();
        let sender = match <Uuid as MooshroomReadable>::read(r) {
            Ok(v) => v,
            Err(e) => {
                return Err(e);
            },
        };
        proof {
            assert(r.remaining() =~= s0.skip(r.pos() - p0));
        }
        let signature = match <Vec<u8> as MooshroomReadable>::read(r) {
            Ok(v) => v,
            Err(e) => {
                return Err(e);
            },
        };
        Ok(PreviousMessage { sender, signature })
    }
}

impl MooshroomRoundTrip for PreviousMessage {
    open spec fn wire_bounded(&self) -> bool {
        self.sender.wire_bounded() && self.signature.wire_bounded()
    }

    proof fn lemma_round_trip(&self, rest: Seq<u8>)
    {
        let t2 = rest;
        let t1 = self.signature.enc() + t2;
        let t0 = self.sender.enc() + t1;
        let s = self.enc() + rest;
        crate::io::lemma_concat_assoc(self.sender.enc(), self.signature.enc(), t2);
        assert(s == t0);
        self.sender.lemma_round_trip(t1);
        crate::io::lemma_concat_skip_prefix(self.sender.enc(), t1);
        self.signature.lemma_round_trip(t2);
        crate::io::lemma_concat_skip_prefix(self.signature.enc(), t2);
        crate::io::lemma_skip_of_skip(s, (self.sender.enc().len()) as int, self.signature.enc().len() as int);
    }
}

#[derive(Copy, Clone, Debug, Default, PartialEq, Eq)]
pub enum FilterType {
    #[default]
    PassThrough,
    FullyFiltered,
    PartiallyFiltered,
}

impl DeepView for FilterType {
    type V = FilterType;

    open spec fn deep_view(&self) -> FilterType {
        *self
    }
}

impl MooshroomValue for FilterType {
    open spec fn spec_value(&self) -> int {
        match self {
            FilterType::PassThrough => 0,
            FilterType::FullyFiltered => 1,
            FilterType::PartiallyFiltered => 2,
        }
    }

    open spec fn spec_from_value(v: int) -> Option<FilterType> {
        if v == 0 {
            Some(FilterType::PassThrough)
        } else if v == 1 {
            Some(FilterType::FullyFiltered)
        } else if v == 2 {
            Some(FilterType::PartiallyFiltered)
        } else {
            None
        }
    }

    fn from_value(v: i32) -> (res: Result<Self, MooshroomError>) {
        if v == 0 {
            Ok(FilterType::PassThrough)
        } else if v == 1 {
            Ok(FilterType::FullyFiltered)
        } else if v == 2 {
            Ok(FilterType::PartiallyFiltered)
        } else {
            Err(MooshroomError::InvalidEnumVariant(v))
        }
    }

    fn to_value(&self) -> (res: Result<i32, MooshroomError>) {
        match self {
            FilterType::PassThrough => Ok(0),
            FilterType::FullyFiltered => Ok(1),
            FilterType::PartiallyFiltered => Ok(2),
        }
    }
}

impl MooshroomWritable for FilterType {
    open spec fn enc(&self) -> Seq<u8> {
        varint_enc(self.spec_value())
    }

    fn write(&self, w: &mut Vec<u8>) {
        let v: i32 = match self {
            FilterType::PassThrough => 0,
            FilterType::FullyFiltered => 1,
            FilterType::PartiallyFiltered => 2,
        };
        write_varint(VarInt(v), w);
    }
}

impl MooshroomReadable for FilterType {
    open spec fn dec(s: Seq<u8>) -> Option<(FilterType, int)> {
        match varint_dec(s) {
            Some((v, n)) => match FilterType::spec_from_value(v as int) {
                Some(e) => Some((e, n)),
                None => None,
            },
            None => None,
        }
    }

    fn read(r: &mut Reader) -> (res: Result<Self, MooshroomError>) {
        match read_varint(r) {
            Ok(v) => match FilterType::from_value(v.0) {
                Ok(e) => Ok(e),
                Err(e) => Err(e),
            },
            Err(e) => Err(e),
        }
    }
}

impl MooshroomRoundTrip for FilterType {
    open spec fn wire_bounded(&self) -> bool {
        true
    }

    proof fn lemma_round_trip(&self, rest: Seq<u8>) {
        lemma_varint_round_trip(self.spec_value() as i32, rest);
        assert(FilterType::spec_from_value(self.spec_value()) == Some(*self));
    }
}

#[derive(Clone, Debug, Default, PartialEq)]
pub struct PlayerChatMessage {
    pub message_signature: Option<Vec<u8>>,
    pub sender: Uuid,
    pub header_signature: Option<Vec<u8>>,
    pub plain_message: String,
    pub formatted_message: Option<Chat>,
    pub timestamp: i64,
    pub salt: i64,
    pub previous_messages: Vec<PreviousMessage>,
    pub unsigned_content: Option<Chat>,
    pub filter_type: FilterType,
    pub filter_mask: Option<BitSet>,
    pub chat_type: VarInt,
    pub network_name: Chat,
    pub target_network_name: Option<Chat>,
}

/// The mathematical value of a `PlayerChatMessage`, for contracts.
pub struct PlayerChatMessageView {
    pub message_signature: Option<Seq<u8>>,
    pub sender: Uuid,
    pub header_signature: Option<Seq<u8>>,
    pub plain_message: Seq<char>,
    pub formatted_message: Option<Seq<char>>,
    pub timestamp: i64,
    pub salt: i64,
    pub previous_messages: Seq<PreviousMessageView>,
    pub unsigned_content: Option<Seq<char>>,
    pub filter_type: FilterType,
    pub filter_mask: Option<Seq<u64>>,
    pub chat_type: VarInt,
    pub network_name: Seq<char>,
    pub target_network_name: Option<Seq<char>>,
}

impl DeepView for PlayerChatMessage {
    type V = PlayerChatMessageView;

    open spec fn deep_view(&self) -> PlayerChatMessageView {
        PlayerChatMessageView {
            message_signature: self.message_signature.deep_view(),
            sender: self.sender.deep_view(),
            header_signature: self.header_signature.deep_view(),
            plain_message: self.plain_message.deep_view(),
            formatted_message: self.formatted_message.deep_view(),
            timestamp: self.timestamp.deep_view(),
            salt: self.salt.deep_view(),
            previous_messages: self.previous_messages.deep_view(),
            unsigned_content: self.unsigned_content.deep_view(),
            filter_type: self.filter_type.deep_view(),
            filter_mask: self.filter_mask.deep_view(),
            chat_type: self.chat_type.deep_view(),
            network_name: self.network_name.deep_view(),
            target_network_name: self.target_network_name.deep_view(),
        }
    }
}

impl MooshroomWritable for PlayerChatMessage {
    open spec fn enc(&self) -> Seq<u8> {
        self.message_signature.enc() + self.sender.enc() + self.header_signature.enc() + self.plain_message.enc() + self.formatted_message.enc() + self.timestamp.enc() + self.salt.enc() + self.previous_messages.enc() + self.unsigned_content.enc() + self.filter_type.enc() + self.filter_mask.enc() + self.chat_type.enc() + self.network_name.enc() + self.target_network_name.enc()
    }

    #[verifier::rlimit(100)]
    fn write(&self, w: &mut Vec<u8>) {
        self.message_signature.write(w);
        self.sender.write(w);
        self.header_signature.write(w);
        self.plain_message.write(w);
        self.formatted_message.write(w);
        self.timestamp.write(w);
        self.salt.write(w);
        self.previous_messages.write(w);
        self.unsigned_content.write(w);
        self.filter_type.write(w);
        self.filter_mask.write(w);
        self.chat_type.write(w);
        self.network_name.write(w);
        self.target_network_name.write(w);
        proof {
            assert(w@ =~= old(w)@ + self.enc());
        }
    }
}


impl MooshroomPacket for PlayerChatMessage {
    open spec fn spec_packet_id() -> i32 {
        51
    }

    fn packet_id() -> (id: i32) {
        51
    }
}

#[derive(Clone, Debug, Default, PartialEq)]
pub struct UpdateSectionBlocks {
    pub chunk_section_position: i64,
    pub suppress_light_updates: bool,
    pub blocks: Vec<VarLong>,
}

/// The mathematical value of a `UpdateSectionBlocks`, for contracts.
pub struct UpdateSectionBlocksView {
    pub chunk_section_position: i64,
    pub suppress_light_updates: bool,
    pub blocks: Seq<VarLong>,
}

impl DeepView for UpdateSectionBlocks {
    type V = UpdateSectionBlocksView;

    open spec fn deep_view(&self) -> UpdateSectionBlocksView {
        UpdateSectionBlocksView {
            chunk_section_position: self.chunk_section_position.deep_view(),
            suppress_light_updates: self.suppress_light_updates.deep_view(),
            blocks: self.blocks.deep_view(),
        }
    }
}

impl MooshroomWritable for UpdateSectionBlocks {
    open spec fn enc(&self) -> Seq<u8> {
        self.chunk_section_position.enc() + self.suppress_light_updates.enc() + self.blocks.enc()
    }

    fn write(&self, w: &mut Vec<u8>) {
        self.chunk_section_position.write(w);
        self.suppress_light_updates.write(w);
        self.blocks.write(w);
        proof {
            assert(w@ =~= old(w)@ + self.enc());
        }
    }
}

impl MooshroomReadable for UpdateSectionBlocks {
    open spec fn dec(s: Seq<u8>) -> Option<(UpdateSectionBlocksView, int)> {
        match <i64 as MooshroomReadable>::dec(s) {
            Some((v0, n0)) => match <bool as MooshroomReadable>::dec(s.skip(n0)) {
                Some((v1, n1)) => match <Vec<VarLong> as MooshroomReadable>::dec(s.skip(n0 + n1)) {
                    Some((v2, n2)) => Some((UpdateSectionBlocksView { chunk_section_position: v0, suppress_light_updates: v1, blocks: v2 }, n0 + n1 + n2)),
                    None => None,
                },
                None => None,
            },
            None => None,
        }
    }

    fn read(r: &mut Reader) -> (res: Result<Self, MooshroomError>) {
        let ghost s0 = old(r).remaining();
        let ghost p0 = old(r).pos();
        let chunk_section_position = match <i64 as MooshroomReadable>::read(r) {
            Ok(v) => v,
            Err(e) => {
                return Err(e);
            },
        };
        proof {
            assert(r.remaining() =~= s0.skip(r.pos() - p0));
        }
        let suppress_light_updates = match <bool as MooshroomReadable>::read(r) {
            Ok(v) => v,
            Err(e) => {
                return Err(e);
            },
        };
        proof {
            assert(r.remaining() =~= s0.skip(r.pos() - p0));
        }
        let blocks = match <Vec<VarLong> as MooshroomReadable>::read(r) {
            Ok(v) => v,
            Err(e) => {
                return Err(e);
            },
        };
        Ok(UpdateSectionBlocks { chunk_section_position, suppress_light_updates, blocks })
    }
}

impl MooshroomRoundTrip for UpdateSectionBlocks {
    open spec fn wire_bounded(&self) -> bool {
        self.chunk_section_position.wire_bounded() && self.suppress_light_updates.wire_bounded() && self.blocks.wire_bounded()
    }

    proof fn lemma_round_trip(&self, rest: Seq<u8>)
    {
        let t3 = rest;
        let t2 = self.blocks.enc() + t3;
        let t1 = self.suppress_light_updates.enc() + t2;
        let t0 = self.chunk_section_position.enc() + t1;
        let s = self.enc() + rest;
        crate::io::lemma_concat_assoc(self.chunk_section_position.enc() + self.suppress_light_updates.enc(), self.blocks.enc(), t3);
        crate::io::lemma_concat_assoc(self.chunk_section_position.enc(), self.suppress_light_updates.enc(), t2);
        assert(s == t0);
        self.chunk_section_position.lemma_round_trip(t1);
        crate::io::lemma_concat_skip_prefix(self.chunk_section_position.enc(), t1);
        self.suppress_light_updates.lemma_round_trip(t2);
        crate::io::lemma_concat_skip_prefix(self.suppress_light_updates.enc(), t2);
        crate::io::lemma_skip_of_skip(s, (self.chunk_section_position.enc().len()) as int, self.suppress_light_updates.enc().len() as int);
        self.blocks.lemma_round_trip(t3);
        crate::io::lemma_concat_skip_prefix(self.blocks.enc(), t3);
        crate::io::lemma_skip_of_skip(s, (self.chunk_section_position.enc().len() + self.suppress_light_updates.enc().len()) as int, self.blocks.enc().len() as int);
    }
}

impl MooshroomPacket for UpdateSectionBlocks {
    open spec fn spec_packet_id() -> i32 {
        64
    }

    fn packet_id() -> (id: i32) {
        64
    }
}

#[derive(Copy, Clone, Debug, Default, PartialEq, Eq)]
pub struct SetCenterChunk {
    pub x: VarInt,
    pub y: VarInt,
}

impl DeepView for SetCenterChunk {
    type V = SetCenterChunk;

    open spec fn deep_view(&self) -> SetCenterChunk {
        *self
    }
}

impl MooshroomWritable for SetCenterChunk {
    open spec fn enc(&self) -> Seq<u8> {
        self.x.enc() + self.y.enc()
    }

    fn write(&self, w: &mut Vec<u8>) {
        self.x.write(w);
        self.y.write(w);
        proof {
            assert(w@ =~= old(w)@ + self.enc());
        }
    }
}

impl MooshroomReadable for SetCenterChunk {
    open spec fn dec(s: Seq<u8>) -> Option<(SetCenterChunk, int)> {
        match <VarInt as MooshroomReadable>::dec(s) {
            Some((v0, n0)) => match <VarInt as MooshroomReadable>::dec(s.skip(n0)) {
                Some((v1, n1)) => Some((SetCenterChunk { x: v0, y: v1 }, n0 + n1)),
                None => None,
            },
            None => None,
        }
    }

    fn read(r: &mut Reader) -> (res: Result<Self, MooshroomError>) {
        let ghost s0 = old(r).remaining();
        let ghost p0 = old(r).pos();
        let x = match <VarInt as MooshroomReadable>::read(r) {
            Ok(v) => v,
            Err(e) => {
                return Err(e);
            },
        };
        proof {
            assert(r.remaining() =~= s0.skip(r.pos() - p0));
        }
        let y = match <VarInt as MooshroomReadable>::read(r) {
            Ok(v) => v,
            Err(e) => {
                return Err(e);
            },
        };
        Ok(SetCenterChunk { x, y })
    }
}

impl MooshroomRoundTrip for SetCenterChunk {
    open spec fn wire_bounded(&self) -> bool {
        self.x.wire_bounded() && self.y.wire_bounded()
    }

    proof fn lemma_round_trip(&self, rest: Seq<u8>)
    {
        let t2 = rest;
        let t1 = self.y.enc() + t2;
        let t0 = self.x.enc() + t1;
        let s = self.enc() + rest;
        crate::io::lemma_concat_assoc(self.x.enc(), self.y.enc(), t2);
        assert(s == t0);
        self.x.lemma_round_trip(t1);
        crate::io::lemma_concat_skip_prefix(self.x.enc(), t1);
        self.y.lemma_round_trip(t2);
        crate::io::lemma_concat_skip_prefix(self.y.enc(), t2);
        crate::io::lemma_skip_of_skip(s, (self.x.enc().len()) as int, self.y.enc().len() as int);
    }
}

impl MooshroomPacket for SetCenterChunk {
    open spec fn spec_packet_id() -> i32 {
        75
    }

    fn packet_id() -> (id: i32) {
        75
    }
}

#[derive(Copy, Clone, Debug, Default, PartialEq, Eq)]
pub struct SetRenderDistance(pub VarInt);

impl DeepView for SetRenderDistance {
    type V = SetRenderDistance;

    open spec fn deep_view(&self) -> SetRenderDistance {
        *self
    }
}

impl MooshroomWritable for SetRenderDistance {
    open spec fn enc(&self) -> Seq<u8> {
        self.0.enc()
    }

    fn write(&self, w: &mut Vec<u8>) {
        self.0.write(w);
        proof {
            assert(w@ =~= old(w)@ + self.enc());
        }
    }
}

impl MooshroomReadable for SetRenderDistance {
    open spec fn dec(s: Seq<u8>) -> Option<(SetRenderDistance, int)> {
        match <VarInt as MooshroomReadable>::dec(s) {
            Some((v0, n0)) => Some((SetRenderDistance(v0), n0)),
            None => None,
        }
    }

    fn read(r: &mut Reader) -> (res: Result<Self, MooshroomError>) {
        let ghost s0 = old(r).remaining();
        let ghost p0 = old(r).pos();
        let f0 = match <VarInt as MooshroomReadable>::read(r) {
            Ok(v) => v,
            Err(e) => {
                return Err(e);
            },
        };
        Ok(SetRenderDistance(f0))
    }
}

impl MooshroomRoundTrip for SetRenderDistance {
    open spec fn wire_bounded(&self) -> bool {
        self.0.wire_bounded()
    }

    proof fn lemma_round_trip(&self, rest: Seq<u8>)
    {
        let t1 = rest;
        let t0 = self.0.enc() + t1;
        let s = self.enc() + rest;
        assert(s == t0);
        self.0.lemma_round_trip(t1);
        crate::io::lemma_concat_skip_prefix(self.0.enc(), t1);
    }
}

impl MooshroomPacket for SetRenderDistance {
    open spec fn spec_packet_id() -> i32 {
        76
    }

    fn packet_id() -> (id: i32) {
        76
    }
}

#[derive(Copy, Clone, Debug, Default, PartialEq, Eq)]
pub struct SetSimulationDistance(pub VarInt);

impl DeepView for SetSimulationDistance {
    type V = SetSimulationDistance;

    open spec fn deep_view(&self) -> SetSimulationDistance {
        *self
    }
}

impl MooshroomWritable for SetSimulationDistance {
    open spec fn enc(&self) -> Seq<u8> {
        self.0.enc()
    }

    fn write(&self, w: &mut Vec<u8>) {
        self.0.write(w);
        proof {
            assert(w@ =~= old(w)@ + self.enc());
        }
    }
}

impl MooshroomReadable for SetSimulationDistance {
    open spec fn dec(s: Seq<u8>) -> Option<(SetSimulationDistance, int)> {
        match <VarInt as MooshroomReadable>::dec(s) {
            Some((v0, n0)) => Some((SetSimulationDistance(v0), n0)),
            None => None,
        }
    }

    fn read(r: &mut Reader) -> (res: Result<Self, MooshroomError>) {
        let ghost s0 = old(r).remaining();
        let ghost p0 = old(r).pos();
        let f0 = match <VarInt as MooshroomReadable>::read(r) {
            Ok(v) => v,
            Err(e) => {
                return Err(e);
            },
        };
        Ok(SetSimulationDistance(f0))
    }
}

impl MooshroomRoundTrip for SetSimulationDistance {
    open spec fn wire_bounded(&self) -> bool {
        self.0.wire_bounded()
    }

    proof fn lemma_round_trip(&self, rest: Seq<u8>)
    {
        let t1 = rest;
        let t0 = self.0.enc() + t1;
        let s = self.enc() + rest;
        assert(s == t0);
        self.0.lemma_round_trip(t1);
        crate::io::lemma_concat_skip_prefix(self.0.enc(), t1);
    }
}

impl MooshroomPacket for SetSimulationDistance {
    open spec fn spec_packet_id() -> i32 {
        90
    }

    fn packet_id() -> (id: i32) {
        90
    }
}

#[derive(Copy, Clone, Debug, Default, PartialEq, Eq)]
pub struct UpdateTime {
    pub world_age: u64,
    pub time_of_day: u64,
}

impl DeepView for UpdateTime {
    type V = UpdateTime;

    open spec fn deep_view(&self) -> UpdateTime {
        *self
    }
}

impl MooshroomWritable for UpdateTime {
    open spec fn enc(&self) -> Seq<u8> {
        self.world_age.enc() + self.time_of_day.enc()
    }

    fn write(&self, w: &mut Vec<u8>) {
        self.world_age.write(w);
        self.time_of_day.write(w);
        proof {
            assert(w@ =~= old(w)@ + self.enc());
        }
    }
}

impl MooshroomReadable for UpdateTime {
    open spec fn dec(s: Seq<u8>) -> Option<(UpdateTime, int)> {
        match <u64 as MooshroomReadable>::dec(s) {
            Some((v0, n0)) => match <u64 as MooshroomReadable>::dec(s.skip(n0)) {
                Some((v1, n1)) => Some((UpdateTime { world_age: v0, time_of_day: v1 }, n0 + n1)),
                None => None,
            },
            None => None,
        }
    }

    fn read(r: &mut Reader) -> (res: Result<Self, MooshroomError>) {
        let ghost s0 = old(r).remaining();
        let ghost p0 = old(r).pos();
        let world_age = match <u64 as MooshroomReadable>::read(r) {
            Ok(v) => v,
            Err(e) => {
                return Err(e);
            },
        };
        proof {
            assert(r.remaining() =~= s0.skip(r.pos() - p0));
        }
        let time_of_day = match <u64 as MooshroomReadable>::read(r) {
            Ok(v) => v,
            Err(e) => {
                return Err(e);
            },
        };
        Ok(UpdateTime { world_age, time_of_day })
    }
}

impl MooshroomRoundTrip for UpdateTime {
    open spec fn wire_bounded(&self) -> bool {
        self.world_age.wire_bounded() && self.time_of_day.wire_bounded()
    }

    proof fn lemma_round_trip(&self, rest: Seq<u8>)
    {
        let t2 = rest;
        let t1 = self.time_of_day.enc() + t2;
        let t0 = self.world_age.enc() + t1;
        let s = self.enc() + rest;
        crate::io::lemma_concat_assoc(self.world_age.enc(), self.time_of_day.enc(), t2);
        assert(s == t0);
        self.world_age.lemma_round_trip(t1);
        crate::io::lemma_concat_skip_prefix(self.world_age.enc(), t1);
        self.time_of_day.lemma_round_trip(t2);
        crate::io::lemma_concat_skip_prefix(self.time_of_day.enc(), t2);
        crate::io::lemma_skip_of_skip(s, (self.world_age.enc().len()) as int, self.time_of_day.enc().len() as int);
    }
}

impl MooshroomPacket for UpdateTime {
    open spec fn spec_packet_id() -> i32 {
        92
    }

    fn packet_id() -> (id: i32) {
        92
    }
}

#[derive(Copy, Clone, Debug, Default, PartialEq, Eq)]
pub struct SoundEffect {
    pub sound_id: VarInt,
    pub sound_category: VarInt,
    pub position: Vec3<i32>,
    pub volume: F32Bits,
    pub pitch: F32Bits,
    pub speed: i64,
}

impl DeepView for SoundEffect {
    type V = SoundEffect;

    open spec fn deep_view(&self) -> SoundEffect {
        *self
    }
}

impl MooshroomWritable for SoundEffect {
    open spec fn enc(&self) -> Seq<u8> {
        self.sound_id.enc() + self.sound_category.enc() + self.position.enc() + self.volume.enc() + self.pitch.enc() + self.speed.enc()
    }

    fn write(&self, w: &mut Vec<u8>) {
        self.sound_id.write(w);
        self.sound_category.write(w);
        self.position.write(w);
        self.volume.write(w);
        self.pitch.write(w);
        self.speed.write(w);
        proof {
            assert(w@ =~= old(w)@ + self.enc());
        }
    }
}

impl MooshroomReadable for SoundEffect {
    open spec fn dec(s: Seq<u8>) -> Option<(SoundEffect, int)> {
        match <VarInt as MooshroomReadable>::dec(s) {
            Some((v0, n0)) => match <VarInt as MooshroomReadable>::dec(s.skip(n0)) {
                Some((v1, n1)) => match <Vec3<i32> as MooshroomReadable>::dec(s.skip(n0 + n1)) {
                    Some((v2, n2)) => match <F32Bits as MooshroomReadable>::dec(s.skip(n0 + n1 + n2)) {
                        Some((v3, n3)) => match <F32Bits as MooshroomReadable>::dec(s.skip(n0 + n1 + n2 + n3)) {
                            Some((v4, n4)) => match <i64 as MooshroomReadable>::dec(s.skip(n0 + n1 + n2 + n3 + n4)) {
                                Some((v5, n5)) => Some((SoundEffect { sound_id: v0, sound_category: v1, position: v2, volume: v3, pitch: v4, speed: v5 }, n0 + n1 + n2 + n3 + n4 + n5)),
                                None => None,
                            },
                            None => None,
                        },
                        None => None,
                    },
                    None => None,
                },
                None => None,
            },
            None => None,
        }
    }

    #[verifier::rlimit(100)]
    fn read(r: &mut Reader) -> (res: Result<Self, MooshroomError>) {
        let ghost s0 = old(r).remaining();
        let ghost p0 = old(r).pos();
        let sound_id = match <VarInt as MooshroomReadable>::read(r) {
            Ok(v) => v,
            Err(e) => {
                return Err(e);
            },
        };
        proof {
            assert(r.remaining() =~= s0.skip(r.pos() - p0));
        }
        let sound_category = match <VarInt as MooshroomReadable>::read(r) {
            Ok(v) => v,
            Err(e) => {
                return Err(e);
            },
        };
        proof {
            assert(r.remaining() =~= s0.skip(r.pos() - p0));
        }
        let position = match <Vec3<i32> as MooshroomReadable>::read(r) {
            Ok(v) => v,
            Err(e) => {
                return Err(e);
            },
        };
        proof {
            assert(r.remaining() =~= s0.skip(r.pos() - p0));
        }
        let volume = match <F32Bits as MooshroomReadable>::read(r) {
            Ok(v) => v,
            Err(e) => {
                return Err(e);
            },
        };
        proof {
            assert(r.remaining() =~= s0.skip(r.pos() - p0));
        }
        let pitch = match <F32Bits as MooshroomReadable>::read(r) {
            Ok(v) => v,
            Err(e) => {
                return Err(e);
            },
        };
        proof {
            assert(r.remaining() =~= s0.skip(r.pos() - p0));
        }
        let speed = match <i64 as MooshroomReadable>::read(r) {
            Ok(v) => v,
            Err(e) => {
                return Err(e);
            },
        };
        Ok(SoundEffect { sound_id, sound_category, position, volume, pitch, speed })
    }
}

impl MooshroomRoundTrip for SoundEffect {
    open spec fn wire_bounded(&self) -> bool {
        self.sound_id.wire_bounded() && self.sound_category.wire_bounded() && self.position.wire_bounded() && self.volume.wire_bounded() && self.pitch.wire_bounded() && self.speed.wire_bounded()
    }

    #[verifier::rlimit(100)]
    proof fn lemma_round_trip(&self, rest: Seq<u8>)
    {
        let t6 = rest;
        let t5 = self.speed.enc() + t6;
        let t4 = self.pitch.enc() + t5;
        let t3 = self.volume.enc() + t4;
        let t2 = self.position.enc() + t3;
        let t1 = self.sound_category.enc() + t2;
        let t0 = self.sound_id.enc() + t1;
        let s = self.enc() + rest;
        crate::io::lemma_concat_assoc(self.sound_id.enc() + self.sound_category.enc() + self.position.enc() + self.volume.enc() + self.pitch.enc(), self.speed.enc(), t6);
        crate::io::lemma_concat_assoc(self.sound_id.enc() + self.sound_category.enc() + self.position.enc() + self.volume.enc(), self.pitch.enc(), t5);
        crate::io::lemma_concat_assoc(self.sound_id.enc() + self.sound_category.enc() + self.position.enc(), self.volume.enc(), t4);
        crate::io::lemma_concat_assoc(self.sound_id.enc() + self.sound_category.enc(), self.position.enc(), t3);
        crate::io::lemma_concat_assoc(self.sound_id.enc(), self.sound_category.enc(), t2);
        assert(s == t0);
        self.sound_id.lemma_round_trip(t1);
        crate::io::lemma_concat_skip_prefix(self.sound_id.enc(), t1);
        self.sound_category.lemma_round_trip(t2);
        crate::io::lemma_concat_skip_prefix(self.sound_category.enc(), t2);
        crate::io::lemma_skip_of_skip(s, (self.sound_id.enc().len()) as int, self.sound_category.enc().len() as int);
        self.position.lemma_round_trip(t3);
        crate::io::lemma_concat_skip_prefix(self.position.enc(), t3);
        crate::io::lemma_skip_of_skip(s, (self.sound_id.enc().len() + self.sound_category.enc().len()) as int, self.position.enc().len() as int);
        self.volume.lemma_round_trip(t4);
        crate::io::lemma_concat_skip_prefix(self.volume.enc(), t4);
        crate::io::lemma_skip_of_skip(s, (self.sound_id.enc().len() + self.sound_category.enc().len() + self.position.enc().len()) as int, self.volume.enc().len() as int);
        self.pitch.lemma_round_trip(t5);
        crate::io::lemma_concat_skip_prefix(self.pitch.enc(), t5);
        crate::io::lemma_skip_of_skip(s, (self.sound_id.enc().len() + self.sound_category.enc().len() + self.position.enc().len() + self.volume.enc().len()) as int, self.pitch.enc().len() as int);
        self.speed.lemma_round_trip(t6);
        crate::io::lemma_concat_skip_prefix(self.speed.enc(), t6);
        crate::io::lemma_skip_of_skip(s, (self.sound_id.enc().len() + self.sound_category.enc().len() + self.position.enc().len() + self.volume.enc().len() + self.pitch.enc().len()) as int, self.speed.enc().len() as int);
    }
}

impl MooshroomPacket for SoundEffect {
    open spec fn spec_packet_id() -> i32 {
        96
    }

    fn packet_id() -> (id: i32) {
        96
    }
}

#[derive(Clone, Debug, Default, PartialEq)]
pub struct SystemChatMessage {
    pub content: Chat,
    pub overlay: bool,
}

/// The mathematical value of a `SystemChatMessage`, for contracts.
pub struct SystemChatMessageView {
    pub content: Seq<char>,
    pub overlay: bool,
}

impl DeepView for SystemChatMessage {
    type V = SystemChatMessageView;

    open spec fn deep_view(&self) -> SystemChatMessageView {
        SystemChatMessageView {
            content: self.content.deep_view(),
            overlay: self.overlay.deep_view(),
        }
    }
}

impl MooshroomWritable for SystemChatMessage {
    open spec fn enc(&self) -> Seq<u8> {
        self.content.enc() + self.overlay.enc()
    }

    fn write(&self, w: &mut Vec<u8>) {
        self.content.write(w);
        self.overlay.write(w);
        proof {
            assert(w@ =~= old(w)@ + self.enc());
        }
    }
}

impl MooshroomReadable for SystemChatMessage {
    open spec fn dec(s: Seq<u8>) -> Option<(SystemChatMessageView, int)> {
        match <String as MooshroomReadable>::dec(s) {
            Some((v0, n0)) => match <bool as MooshroomReadable>::dec(s.skip(n0)) {
                Some((v1, n1)) => Some((SystemChatMessageView { content: v0, overlay: v1 }, n0 + n1)),
                None => None,
            },
            None => None,
        }
    }

    fn read(r: &mut Reader) -> (res: Result<Self, MooshroomError>) {
        let ghost s0 = old(r).remaining();
        let ghost p0 = old(r).pos();
        let content = match <String as MooshroomReadable>::read(r) {
            Ok(v) => v,
            Err(e) => {
                return Err(e);
            },
        };
        proof {
            assert(r.remaining() =~= s0.skip(r.pos() - p0));
        }
        let overlay = match <bool as MooshroomReadable>::read(r) {
            Ok(v) => v,
            Err(e) => {
                return Err(e);
            },
        };
        Ok(SystemChatMessage { content, overlay })
    }
}

impl MooshroomRoundTrip for SystemChatMessage {
    open spec fn wire_bounded(&self) -> bool {
        self.content.wire_bounded() && self.overlay.wire_bounded()
    }

    proof fn lemma_round_trip(&self, rest: Seq<u8>)
    {
        let t2 = rest;
        let t1 = self.overlay.enc() + t2;
        let t0 = self.content.enc() + t1;
        let s = self.enc() + rest;
        crate::io::lemma_concat_assoc(self.content.enc(), self.overlay.enc(), t2);
        assert(s == t0);
        self.content.lemma_round_trip(t1);
        crate::io::lemma_concat_skip_prefix(self.content.enc(), t1);
        self.overlay.lemma_round_trip(t2);
        crate::io::lemma_concat_skip_prefix(self.overlay.enc(), t2);
        crate::io::lemma_skip_of_skip(s, (self.content.enc().len()) as int, self.overlay.enc().len() as int);
    }
}

impl MooshroomPacket for SystemChatMessage {
    open spec fn spec_packet_id() -> i32 {
        98
    }

    fn packet_id() -> (id: i32) {
        98
    }
}

#[derive(Clone, Debug, Default, PartialEq)]
pub struct FeatureFlags {
    pub features: Vec<Identifier>,
}

/// The mathematical value of a `FeatureFlags`, for contracts.
pub struct FeatureFlagsView {
    pub features: Seq<Seq<char>>,
}

impl DeepView for FeatureFlags {
    type V = FeatureFlagsView;

    open spec fn deep_view(&self) -> FeatureFlagsView {
        FeatureFlagsView {
            features: self.features.deep_view(),
        }
    }
}

impl MooshroomWritable for FeatureFlags {
    open spec fn enc(&self) -> Seq<u8> {
        self.features.enc()
    }

    fn write(&self, w: &mut Vec<u8>) {
        self.features.write(w);
        proof {
            assert(w@ =~= old(w)@ + self.enc());
        }
    }
}

impl MooshroomReadable for FeatureFlags {
    open spec fn dec(s: Seq<u8>) -> Option<(FeatureFlagsView, int)> {
        match <Vec<Identifier> as MooshroomReadable>::dec(s) {
            Some((v0, n0)) => Some((FeatureFlagsView { features: v0 }, n0)),
            None => None,
        }
    }

    fn read(r: &mut Reader) -> (res: Result<Self, MooshroomError>) {
        let ghost s0 = old(r).remaining();
        let ghost p0 = old(r).pos();
        let features = match <Vec<Identifier> as MooshroomReadable>::read(r) {
            Ok(v) => v,
            Err(e) => {
                return Err(e);
            },
        };
        Ok(FeatureFlags { features })
    }
}

impl MooshroomRoundTrip for FeatureFlags {
    open spec fn wire_bounded(&self) -> bool {
        self.features.wire_bounded()
    }

    proof fn lemma_round_trip(&self, rest: Seq<u8>)
    {
        let t1 = rest;
        let t0 = self.features.enc() + t1;
        let s = self.enc() + rest;
        assert(s == t0);
        self.features.lemma_round_trip(t1);
        crate::io::lemma_concat_skip_prefix(self.features.enc(), t1);
    }
}

impl MooshroomPacket for FeatureFlags {
    open spec fn spec_packet_id() -> i32 {
        103
    }

    fn packet_id() -> (id: i32) {
        103
    }
}


/// A sparse bit set, one `u64` word per 64 bits.
pub type BitSet = Vec<u64>;

/// An absolute world position as three raw 64-bit float fields.
pub type WorldPosition = Vec3<F64Bits>;

/// A packed in-chunk offset: the X nibble in the high four bits, the Z
/// nibble in the low four.
#[derive(Copy, Clone, Debug, Default, PartialEq, Eq, Structural)]
pub struct PackedXZ(pub i8);

impl PackedXZ {
    /// The two nibbles read back as signed four-bit coordinates.
    pub open spec fn spec_unpack(&self) -> (int, int) {
        let v = sig_to_un(self.0 as int, 0x100);
        (un_to_sig(v / 16, 8, 16), un_to_sig(v % 16, 8, 16))
    }

    /// Split the packed byte into its signed four-bit X and Z offsets.
    pub fn unpack(&self) -> (res: (i8, i8))
        ensures
            res.0 as int == self.spec_unpack().0,
            res.1 as int == self.spec_unpack().1,
    {
        let v: u8 = if self.0 >= 0 {
            self.0 as u8
        } else {
            ((self.0 as i16) + 0x100) as u8
        };
        let hx = v / 16;
        let hz = v % 16;
        let x: i8 = if hx >= 8 {
            ((hx as i16) - 16) as i8
        } else {
            hx as i8
        };
        let z: i8 = if hz >= 8 {
            ((hz as i16) - 16) as i8
        } else {
            hz as i8
        };
        (x, z)
    }
}

impl DeepView for PackedXZ {
    type V = PackedXZ;

    open spec fn deep_view(&self) -> PackedXZ {
        *self
    }
}

impl MooshroomWritable for PackedXZ {
    open spec fn enc(&self) -> Seq<u8> {
        self.0.enc()
    }

    fn write(&self, w: &mut Vec<u8>) {
        self.0.write(w);
    }
}

impl MooshroomReadable for PackedXZ {
    open spec fn dec(s: Seq<u8>) -> Option<(PackedXZ, int)> {
        match <i8 as MooshroomReadable>::dec(s) {
            Some((v, n)) => Some((PackedXZ(v), n)),
            None => None,
        }
    }

    fn read(r: &mut Reader) -> (res: Result<Self, MooshroomError>) {
        match <i8 as MooshroomReadable>::read(r) {
            Ok(v) => Ok(PackedXZ(v)),
            Err(e) => Err(e),
        }
    }
}

impl MooshroomRoundTrip for PackedXZ {
    open spec fn wire_bounded(&self) -> bool {
        true
    }

    proof fn lemma_round_trip(&self, rest: Seq<u8>) {
        self.0.lemma_round_trip(rest);
    }
}

/// The filter mask follows exactly when the filter type says the message
/// was fully filtered.
pub open spec fn dec_filter_mask(ft: FilterType, s: Seq<u8>) -> Option<(Option<Seq<u64>>, int)> {
    if ft is FullyFiltered {
        match <BitSet as MooshroomReadable>::dec(s) {
            Some((v, n)) => Some((Some(v), n)),
            None => None,
        }
    } else {
        Some((None, 0))
    }
}

/// Read the conditional filter mask, gated by the already-read filter type.
pub fn read_filter_mask(r: &mut Reader, filter_type: &FilterType) -> (res: Result<
    Option<BitSet>,
    MooshroomError,
>)
    requires
        old(r).wf(),
    ensures
        final(r).wf(),
        final(r).data() == old(r).data(),
        final(r).pos() >= old(r).pos(),
        match res {
            Ok(v) => dec_filter_mask(*filter_type, old(r).remaining()) == Some(
                (v.deep_view(), final(r).pos() - old(r).pos()),
            ),
            Err(_) => dec_filter_mask(*filter_type, old(r).remaining()) is None,
        },
{
    match filter_type {
        FilterType::FullyFiltered => match <BitSet as MooshroomReadable>::read(r) {
            Ok(v) => Ok(Some(v)),
            Err(e) => Err(e),
        },
        _ => Ok(None),
    }
}

/// The identity and text of a chat message: signature, sender, header
/// signature, plain text, decorated text.
pub open spec fn dec_chat_head(s: Seq<u8>) -> Option<
    ((Option<Seq<u8>>, Uuid, Option<Seq<u8>>, Seq<char>, Option<Seq<char>>), int),
> {
    match <Option<Vec<u8>> as MooshroomReadable>::dec(s) {
        Some((v0, n0)) => match <Uuid as MooshroomReadable>::dec(s.skip(n0)) {
            Some((v1, n1)) => match <Option<Vec<u8>> as MooshroomReadable>::dec(s.skip(n0 + n1)) {
                Some((v2, n2)) => match <String as MooshroomReadable>::dec(s.skip(n0 + n1 + n2)) {
                    Some((v3, n3)) => match <Option<Chat> as MooshroomReadable>::dec(
                        s.skip(n0 + n1 + n2 + n3),
                    ) {
                        Some((v4, n4)) => Some(((v0, v1, v2, v3, v4), n0 + n1 + n2 + n3 + n4)),
                        None => None,
                    },
                    None => None,
                },
                None => None,
            },
            None => None,
        },
        None => None,
    }
}

#[verifier::rlimit(100)]
fn read_chat_head(r: &mut Reader) -> (res: Result<
    (Option<Vec<u8>>, Uuid, Option<Vec<u8>>, String, Option<Chat>),
    MooshroomError,
>)
    requires
        old(r).wf(),
    ensures
        final(r).wf(),
        final(r).data() == old(r).data(),
        final(r).pos() >= old(r).pos(),
        match res {
            Ok(v) => dec_chat_head(old(r).remaining()) == Some(
                (v.deep_view(), final(r).pos() - old(r).pos()),
            ),
            Err(_) => dec_chat_head(old(r).remaining()) is None,
        },
{
    let ghost s0 = old(r).remaining();
    let ghost p0 = old(r).pos();
    let v0 = match <Option<Vec<u8>> as MooshroomReadable>::read(r) {
        Ok(v) => v,
        Err(e) => {
            return Err(e);
        },
    };
    proof {
        assert(r.remaining() =~= s0.skip(r.pos() - p0));
    }
    let v1 = match <Uuid as MooshroomReadable>::read(r) {
        Ok(v) => v,
        Err(e) => {
            return Err(e);
        },
    };
    proof {
        assert(r.remaining() =~= s0.skip(r.pos() - p0));
    }
    let v2 = match <Option<Vec<u8>> as MooshroomReadable>::read(r) {
        Ok(v) => v,
        Err(e) => {
            return Err(e);
        },
    };
    proof {
        assert(r.remaining() =~= s0.skip(r.pos() - p0));
    }
    let v3 = match <String as MooshroomReadable>::read(r) {
        Ok(v) => v,
        Err(e) => {
            return Err(e);
        },
    };
    proof {
        assert(r.remaining() =~= s0.skip(r.pos() - p0));
    }
    let v4 = match <Option<Chat> as MooshroomReadable>::read(r) {
        Ok(v) => v,
        Err(e) => {
            return Err(e);
        },
    };
    Ok((v0, v1, v2, v3, v4))
}

/// The provenance block of a chat message: timestamp, salt, the previous
/// message chain, unsigned content, and the filter with its mask.
pub open spec fn dec_chat_mid(s: Seq<u8>) -> Option<
    ((i64, i64, Seq<PreviousMessageView>, Option<Seq<char>>, FilterType, Option<Seq<u64>>), int),
> {
    match <i64 as MooshroomReadable>::dec(s) {
        Some((v0, n0)) => match <i64 as MooshroomReadable>::dec(s.skip(n0)) {
            Some((v1, n1)) => match <Vec<PreviousMessage> as MooshroomReadable>::dec(
                s.skip(n0 + n1),
            ) {
                Some((v2, n2)) => match <Option<Chat> as MooshroomReadable>::dec(
                    s.skip(n0 + n1 + n2),
                ) {
                    Some((v3, n3)) => match <FilterType as MooshroomReadable>::dec(
                        s.skip(n0 + n1 + n2 + n3),
                    ) {
                        Some((v4, n4)) => match dec_filter_mask(
                            v4,
                            s.skip(n0 + n1 + n2 + n3 + n4),
                        ) {
                            Some((v5, n5)) => Some(
                                ((v0, v1, v2, v3, v4, v5), n0 + n1 + n2 + n3 + n4 + n5),
                            ),
                            None => None,
                        },
                        None => None,
                    },
                    None => None,
                },
                None => None,
            },
            None => None,
        },
        None => None,
    }
}

fn read_chat_mid(r: &mut Reader) -> (res: Result<
    (i64, i64, Vec<PreviousMessage>, Option<Chat>, FilterType, Option<BitSet>),
    MooshroomError,
>)
    requires
        old(r).wf(),
    ensures
        final(r).wf(),
        final(r).data() == old(r).data(),
        final(r).pos() >= old(r).pos(),
        match res {
            Ok(v) => dec_chat_mid(old(r).remaining()) == Some(
                (v.deep_view(), final(r).pos() - old(r).pos()),
            ),
            Err(_) => dec_chat_mid(old(r).remaining()) is None,
        },
{
    let ghost s0 = old(r).remaining();
    let ghost p0 = old(r).pos();
    let v0 = match <i64 as MooshroomReadable>::read(r) {
        Ok(v) => v,
        Err(e) => {
            return Err(e);
        },
    };
    proof {
        assert(r.remaining() =~= s0.skip(r.pos() - p0));
    }
    let v1 = match <i64 as MooshroomReadable>::read(r) {
        Ok(v) => v,
        Err(e) => {
            return Err(e);
        },
    };
    proof {
        assert(r.remaining() =~= s0.skip(r.pos() - p0));
    }
    let v2 = match <Vec<PreviousMessage> as MooshroomReadable>::read(r) {
        Ok(v) => v,
        Err(e) => {
            return Err(e);
        },
    };
    proof {
        assert(r.remaining() =~= s0.skip(r.pos() - p0));
    }
    let v3 = match <Option<Chat> as MooshroomReadable>::read(r) {
        Ok(v) => v,
        Err(e) => {
            return Err(e);
        },
    };
    proof {
        assert(r.remaining() =~= s0.skip(r.pos() - p0));
    }
    let v4 = match <FilterType as MooshroomReadable>::read(r) {
        Ok(v) => v,
        Err(e) => {
            return Err(e);
        },
    };
    proof {
        assert(r.remaining() =~= s0.skip(r.pos() - p0));
    }
    let v5 = match read_filter_mask(r, &v4) {
        Ok(v) => v,
        Err(e) => {
            return Err(e);
        },
    };
    Ok((v0, v1, v2, v3, v4, v5))
}

/// The routing block of a chat message: chat type and display names.
pub open spec fn dec_chat_tail(s: Seq<u8>) -> Option<
    ((VarInt, Seq<char>, Option<Seq<char>>), int),
> {
    match <VarInt as MooshroomReadable>::dec(s) {
        Some((v0, n0)) => match <Chat as MooshroomReadable>::dec(s.skip(n0)) {
            Some((v1, n1)) => match <Option<Chat> as MooshroomReadable>::dec(s.skip(n0 + n1)) {
                Some((v2, n2)) => Some(((v0, v1, v2), n0 + n1 + n2)),
                None => None,
            },
            None => None,
        },
        None => None,
    }
}

fn read_chat_tail(r: &mut Reader) -> (res: Result<
    (VarInt, Chat, Option<Chat>),
    MooshroomError,
>)
    requires
        old(r).wf(),
    ensures
        final(r).wf(),
        final(r).data() == old(r).data(),
        final(r).pos() >= old(r).pos(),
        match res {
            Ok(v) => dec_chat_tail(old(r).remaining()) == Some(
                (v.deep_view(), final(r).pos() - old(r).pos()),
            ),
            Err(_) => dec_chat_tail(old(r).remaining()) is None,
        },
{
    let ghost s0 = old(r).remaining();
    let ghost p0 = old(r).pos();
    let v0 = match <VarInt as MooshroomReadable>::read(r) {
        Ok(v) => v,
        Err(e) => {
            return Err(e);
        },
    };
    proof {
        assert(r.remaining() =~= s0.skip(r.pos() - p0));
    }
    let v1 = match <Chat as MooshroomReadable>::read(r) {
        Ok(v) => v,
        Err(e) => {
            return Err(e);
        },
    };
    proof {
        assert(r.remaining() =~= s0.skip(r.pos() - p0));
    }
    let v2 = match <Option<Chat> as MooshroomReadable>::read(r) {
        Ok(v) => v,
        Err(e) => {
            return Err(e);
        },
    };
    Ok((v0, v1, v2))
}

impl MooshroomReadable for PlayerChatMessage {
    open spec fn dec(s: Seq<u8>) -> Option<(PlayerChatMessageView, int)> {
        match dec_chat_head(s) {
            Some((h, n0)) => match dec_chat_mid(s.skip(n0)) {
                Some((m, n1)) => match dec_chat_tail(s.skip(n0 + n1)) {
                    Some((t, n2)) => Some(
                        (
                            PlayerChatMessageView {
                                message_signature: h.0,
                                sender: h.1,
                                header_signature: h.2,
                                plain_message: h.3,
                                formatted_message: h.4,
                                timestamp: m.0,
                                salt: m.1,
                                previous_messages: m.2,
                                unsigned_content: m.3,
                                filter_type: m.4,
                                filter_mask: m.5,
                                chat_type: t.0,
                                network_name: t.1,
                                target_network_name: t.2,
                            },
                            n0 + n1 + n2,
                        ),
                    ),
                    None => None,
                },
                None => None,
            },
            None => None,
        }
    }

    fn read(r: &mut Reader) -> (res: Result<Self, MooshroomError>) {
        let ghost s0 = old(r).remaining();
        let ghost p0 = old(r).pos();
        let h = match read_chat_head(r) {
            Ok(v) => v,
            Err(e) => {
                return Err(e);
            },
        };
        proof {
            assert(r.remaining() =~= s0.skip(r.pos() - p0));
        }
        let m = match read_chat_mid(r) {
            Ok(v) => v,
            Err(e) => {
                return Err(e);
            },
        };
        proof {
            assert(r.remaining() =~= s0.skip(r.pos() - p0));
        }
        let t = match read_chat_tail(r) {
            Ok(v) => v,
            Err(e) => {
                return Err(e);
            },
        };
        Ok(
            PlayerChatMessage {
                message_signature: h.0,
                sender: h.1,
                header_signature: h.2,
                plain_message: h.3,
                formatted_message: h.4,
                timestamp: m.0,
                salt: m.1,
                previous_messages: m.2,
                unsigned_content: m.3,
                filter_type: m.4,
                filter_mask: m.5,
                chat_type: t.0,
                network_name: t.1,
                target_network_name: t.2,
            },
        )
    }
}

} // verus!
