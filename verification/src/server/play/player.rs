use vstd::prelude::*;

#[allow(unused_imports)]
use crate::containers::{Json, TOption};
#[allow(unused_imports)]
use crate::data::{
    MooshroomBitFlag, MooshroomCollection, MooshroomCollectionWrite, MooshroomIdentifiable,
    MooshroomUpdatable, MooshroomValue,
};
#[allow(unused_imports)]
use crate::error::MooshroomError;
#[allow(unused_imports)]
use crate::io::{
    MooshroomCommand, MooshroomPacket, MooshroomReadable, MooshroomRoundTrip, MooshroomWritable,
};
#[allow(unused_imports)]
use crate::primitives::{
    be_dec, be_enc, lemma_be_dec_bound, lemma_be_enc_len, lemma_be_round_trip,
    lemma_pow256_values, sig_to_un,
    str_eq, un_to_sig, F32Bits, F64Bits, Identifier, Position, Uuid, Vec3,
};
#[allow(unused_imports)]
use crate::reader::Reader;
#[allow(unused_imports)]
use crate::varint::{
    lemma_varint_round_trip, read_varint, varint_dec, varint_enc, write_varint, VarInt, VarLong,
};
#[allow(unused_imports)]
use vstd::string::StringExecFns;
#[allow(unused_imports)]
use crate::types::Chat;
#[allow(unused_imports)]
use super::crafting::{Slot, SlotData, SlotDataView};
#[allow(unused_imports)]
use super::world::{Angle, GameMode};

verus! {

#[derive(Copy, Clone, Debug, Default, PartialEq, Eq)]
pub struct SetPlayerRotation {
    pub yaw: F32Bits,
    pub pitch: F32Bits,
    pub on_ground: bool,
}

impl DeepView for SetPlayerRotation {
    type V = SetPlayerRotation;

    open spec fn deep_view(&self) -> SetPlayerRotation {
        *self
    }
}

impl MooshroomWritable for SetPlayerRotation {
    open spec fn enc(&self) -> Seq<u8> {
        self.yaw.enc() + self.pitch.enc() + self.on_ground.enc()
    }

    fn write(&self, w: &mut Vec<u8>) {
        self.yaw.write(w);
        self.pitch.write(w);
        self.on_ground.write(w);
        proof {
            assert(w@ =~= old(w)@ + self.enc());
        }
    }
}

impl MooshroomReadable for SetPlayerRotation {
    open spec fn dec(s: Seq<u8>) -> Option<(SetPlayerRotation, int)> {
        match <F32Bits as MooshroomReadable>::dec(s) {
            Some((v0, n0)) => match <F32Bits as MooshroomReadable>::dec(s.skip(n0)) {
                Some((v1, n1)) => match <bool as MooshroomReadable>::dec(s.skip(n0 + n1)) {
                    Some((v2, n2)) => Some((SetPlayerRotation { yaw: v0, pitch: v1, on_ground: v2 }, n0 + n1 + n2)),
                    None => None,
                },
                None => None,
            },
            None => None,
        }
    }

    fn read(r: &mut Reader) -> (res: Result<Self, MooshroomError>) {
        let ghost s0 = old(r).remaining();
        let ghost p0 = old(r).pos();
        let yaw = match <F32Bits as MooshroomReadable>::read(r) {
            Ok(v) => v,
            Err(e) => {
                return Err(e);
            },
        };
        proof {
            assert(r.remaining() =~= s0.skip(r.pos() - p0));
        }
        let pitch = match <F32Bits as MooshroomReadable>::read(r) {
            Ok(v) => v,
            Err(e) => {
                return Err(e);
            },
        };
        proof {
            assert(r.remaining() =~= s0.skip(r.pos() - p0));
        }
        let on_ground = match <bool as MooshroomReadable>::read(r) {
            Ok(v) => v,
            Err(e) => {
                return Err(e);
            },
        };
        Ok(SetPlayerRotation { yaw, pitch, on_ground })
    }
}

impl MooshroomRoundTrip for SetPlayerRotation {
    open spec fn wire_bounded(&self) -> bool {
        self.yaw.wire_bounded() && self.pitch.wire_bounded() && self.on_ground.wire_bounded()
    }

    proof fn lemma_round_trip(&self, rest: Seq<u8>)
    {
        let t3 = rest;
        let t2 = self.on_ground.enc() + t3;
        let t1 = self.pitch.enc() + t2;
        let t0 = self.yaw.enc() + t1;
        let s = self.enc() + rest;
        crate::io::lemma_concat_assoc(self.yaw.enc() + self.pitch.enc(), self.on_ground.enc(), t3);
        crate::io::lemma_concat_assoc(self.yaw.enc(), self.pitch.enc(), t2);
        assert(s == t0);
        self.yaw.lemma_round_trip(t1);
        crate::io::lemma_concat_skip_prefix(self.yaw.enc(), t1);
        self.pitch.lemma_round_trip(t2);
        crate::io::lemma_concat_skip_prefix(self.pitch.enc(), t2);
        crate::io::lemma_skip_of_skip(s, (self.yaw.enc().len()) as int, self.pitch.enc().len() as int);
        self.on_ground.lemma_round_trip(t3);
        crate::io::lemma_concat_skip_prefix(self.on_ground.enc(), t3);
        crate::io::lemma_skip_of_skip(s, (self.yaw.enc().len() + self.pitch.enc().len()) as int, self.on_ground.enc().len() as int);
    }
}

impl MooshroomPacket for SetPlayerRotation {
    open spec fn spec_packet_id() -> i32 {
        22
    }

    fn packet_id() -> (id: i32) {
        22
    }
}

/// A play-stage disconnect carrying a chat payload.
#[derive(Clone, Debug, Default, PartialEq)]
pub struct Disconnect(pub Chat);

/// The mathematical value of a `Disconnect`, for contracts.
pub struct DisconnectView(pub Seq<char>);

impl DeepView for Disconnect {
    type V = DisconnectView;

    open spec fn deep_view(&self) -> DisconnectView {
        DisconnectView(self.0.deep_view())
    }
}

impl MooshroomWritable for Disconnect {
    open spec fn enc(&self) -> Seq<u8> {
        self.0.enc()
    }

    fn write(&self, w: &mut Vec<u8>) {
        self.0.write(w);
        proof {
            assert(w@ =~= old(w)@ + self.enc());
        }
    }
}

impl MooshroomReadable for Disconnect {
    open spec fn dec(s: Seq<u8>) -> Option<(DisconnectView, int)> {
        match <String as MooshroomReadable>::dec(s) {
            Some((v0, n0)) => Some((DisconnectView(v0), n0)),
            None => None,
        }
    }

    fn read(r: &mut Reader) -> (res: Result<Self, MooshroomError>) {
        let ghost s0 = old(r).remaining();
        let ghost p0 = old(r).pos();
        let f0 = match <String as MooshroomReadable>::read(r) {
            Ok(v) => v,
            Err(e) => {
                return Err(e);
            },
        };
        Ok(Disconnect(f0))
    }
}

impl MooshroomRoundTrip for Disconnect {
    open spec fn wire_bounded(&self) -> bool {
        self.0.wire_bounded()
    }

    proof fn lemma_round_trip(&self, rest: Seq<u8>)
    {
        let t1 = rest;
        let t0 = self.0.enc() + t1;
        let s = self.enc() + rest;
        assert(s == t0);
        self.0.lemma_round_trip(t1);
        crate::io::lemma_concat_skip_prefix(self.0.enc(), t1);
    }
}

impl MooshroomPacket for Disconnect {
    open spec fn spec_packet_id() -> i32 {
        25
    }

    fn packet_id() -> (id: i32) {
        25
    }
}

#[derive(Copy, Clone, Debug, Default, PartialEq, Eq)]
pub enum PlayerAction {
    #[default]
    StartSneeking,
    StopSneeking,
    LeaveBed,
    StartSprinting,
    StopSprinting,
    StartJumpWithHorse,
    StopJumpWithHorse,
    OpenHorseInventory,
    StartFLyingWithElytra,
}

impl DeepView for PlayerAction {
    type V = PlayerAction;

    open spec fn deep_view(&self) -> PlayerAction {
        *self
    }
}

impl MooshroomValue for PlayerAction {
    open spec fn spec_value(&self) -> int {
        match self {
            PlayerAction::StartSneeking => 0,
            PlayerAction::StopSneeking => 1,
            PlayerAction::LeaveBed => 2,
            PlayerAction::StartSprinting => 3,
            PlayerAction::StopSprinting => 4,
            PlayerAction::StartJumpWithHorse => 5,
            PlayerAction::StopJumpWithHorse => 6,
            PlayerAction::OpenHorseInventory => 7,
            PlayerAction::StartFLyingWithElytra => 8,
        }
    }

    open spec fn spec_from_value(v: int) -> Option<PlayerAction> {
        if v == 0 {
            Some(PlayerAction::StartSneeking)
        } else if v == 1 {
            Some(PlayerAction::StopSneeking)
        } else if v == 2 {
            Some(PlayerAction::LeaveBed)
        } else if v == 3 {
            Some(PlayerAction::StartSprinting)
        } else if v == 4 {
            Some(PlayerAction::StopSprinting)
        } else if v == 5 {
            Some(PlayerAction::StartJumpWithHorse)
        } else if v == 6 {
            Some(PlayerAction::StopJumpWithHorse)
        } else if v == 7 {
            Some(PlayerAction::OpenHorseInventory)
        } else if v == 8 {
            Some(PlayerAction::StartFLyingWithElytra)
        } else {
            None
        }
    }

    fn from_value(v: i32) -> (res: Result<Self, MooshroomError>) {
        if v == 0 {
            Ok(PlayerAction::StartSneeking)
        } else if v == 1 {
            Ok(PlayerAction::StopSneeking)
        } else if v == 2 {
            Ok(PlayerAction::LeaveBed)
        } else if v == 3 {
            Ok(PlayerAction::StartSprinting)
        } else if v == 4 {
            Ok(PlayerAction::StopSprinting)
        } else if v == 5 {
            Ok(PlayerAction::StartJumpWithHorse)
        } else if v == 6 {
            Ok(PlayerAction::StopJumpWithHorse)
        } else if v == 7 {
            Ok(PlayerAction::OpenHorseInventory)
        } else if v == 8 {
            Ok(PlayerAction::StartFLyingWithElytra)
        } else {
            Err(MooshroomError::InvalidEnumVariant(v))
        }
    }

    fn to_value(&self) -> (res: Result<i32, MooshroomError>) {
        match self {
            PlayerAction::StartSneeking => Ok(0),
            PlayerAction::StopSneeking => Ok(1),
            PlayerAction::LeaveBed => Ok(2),
            PlayerAction::StartSprinting => Ok(3),
            PlayerAction::StopSprinting => Ok(4),
            PlayerAction::StartJumpWithHorse => Ok(5),
            PlayerAction::StopJumpWithHorse => Ok(6),
            PlayerAction::OpenHorseInventory => Ok(7),
            PlayerAction::StartFLyingWithElytra => Ok(8),
        }
    }
}

impl MooshroomWritable for PlayerAction {
    open spec fn enc(&self) -> Seq<u8> {
        varint_enc(self.spec_value())
    }

    fn write(&self, w: &mut Vec<u8>) {
        let v: i32 = match self {
            PlayerAction::StartSneeking => 0,
            PlayerAction::StopSneeking => 1,
            PlayerAction::LeaveBed => 2,
            PlayerAction::StartSprinting => 3,
            PlayerAction::StopSprinting => 4,
            PlayerAction::StartJumpWithHorse => 5,
            PlayerAction::StopJumpWithHorse => 6,
            PlayerAction::OpenHorseInventory => 7,
            PlayerAction::StartFLyingWithElytra => 8,
        };
        write_varint(VarInt(v), w);
    }
}

impl MooshroomReadable for PlayerAction {
    open spec fn dec(s: Seq<u8>) -> Option<(PlayerAction, int)> {
        match varint_dec(s) {
            Some((v, n)) => match PlayerAction::spec_from_value(v as int) {
                Some(e) => Some((e, n)),
                None => None,
            },
            None => None,
        }
    }

    fn read(r: &mut Reader) -> (res: Result<Self, MooshroomError>) {
        match read_varint(r) {
            Ok(v) => match PlayerAction::from_value(v.0) {
                Ok(e) => Ok(e),
                Err(e) => Err(e),
            },
            Err(e) => Err(e),
        }
    }
}

impl MooshroomRoundTrip for PlayerAction {
    open spec fn wire_bounded(&self) -> bool {
        true
    }

    proof fn lemma_round_trip(&self, rest: Seq<u8>) {
        lemma_varint_round_trip(self.spec_value() as i32, rest);
        assert(PlayerAction::spec_from_value(self.spec_value()) == Some(*self));
    }
}

#[derive(Copy, Clone, Debug, Default, PartialEq, Eq)]
pub struct PlayerAbilityFlags {
    pub invunerable: bool,
    pub flying: bool,
    pub allow_flying: bool,
    pub creative_mode: bool,
}

impl DeepView for PlayerAbilityFlags {
    type V = PlayerAbilityFlags;

    open spec fn deep_view(&self) -> PlayerAbilityFlags {
        *self
    }
}

impl MooshroomBitFlag for PlayerAbilityFlags {
    open spec fn spec_value(&self) -> u8 {
        ((if self.invunerable { 1int } else { 0int }) + (if self.flying { 2int } else { 0int }) + (if self.allow_flying { 4int } else { 0int }) + (if self.creative_mode { 8int } else { 0int })) as u8
    }

    open spec fn spec_from_value(v: u8) -> PlayerAbilityFlags {
        PlayerAbilityFlags {
            invunerable: (v as int / 1) % 2 == 1,
            flying: (v as int / 2) % 2 == 1,
            allow_flying: (v as int / 4) % 2 == 1,
            creative_mode: (v as int / 8) % 2 == 1,
        }
    }

    #[verifier::rlimit(50)]
    fn from_value(v: u8) -> (r: Self) {
        PlayerAbilityFlags {
            invunerable: (v / 1) % 2 == 1,
            flying: (v / 2) % 2 == 1,
            allow_flying: (v / 4) % 2 == 1,
            creative_mode: (v / 8) % 2 == 1,
        }
    }

    #[verifier::rlimit(50)]
    fn to_value(&self) -> (r: u8) {
        let v: u32 = (if self.invunerable { 1u32 } else { 0u32 }) + (if self.flying { 2u32 } else { 0u32 }) + (if self.allow_flying { 4u32 } else { 0u32 }) + (if self.creative_mode { 8u32 } else { 0u32 });
        v as u8
    }
}

impl MooshroomWritable for PlayerAbilityFlags {
    open spec fn enc(&self) -> Seq<u8> {
        be_enc(self.spec_value() as nat, 1)
    }

    fn write(&self, w: &mut Vec<u8>) {
        let v = self.to_value();
        <u8 as MooshroomWritable>::write(&v, w);
    }
}

impl MooshroomReadable for PlayerAbilityFlags {
    open spec fn dec(s: Seq<u8>) -> Option<(PlayerAbilityFlags, int)> {
        if s.len() >= 1 {
            Some((PlayerAbilityFlags::spec_from_value(s[0]), 1))
        } else {
            None
        }
    }

    fn read(r: &mut Reader) -> (res: Result<Self, MooshroomError>) {
        match r.read_u8() {
            Ok(b) => Ok(PlayerAbilityFlags::from_value(b)),
            Err(e) => Err(e),
        }
    }
}

impl MooshroomRoundTrip for PlayerAbilityFlags {
    open spec fn wire_bounded(&self) -> bool {
        true
    }

    proof fn lemma_round_trip(&self, rest: Seq<u8>) {
        let u = self.spec_value() as nat;
        lemma_be_enc_len(u, 1);
        lemma_be_round_trip(u, 1, rest);
        lemma_pow256_values();
        assert((self.enc() + rest)[0] == self.enc()[0]);
        assert(PlayerAbilityFlags::spec_from_value(self.spec_value()) == *self);
    }
}

#[derive(Copy, Clone, Debug, Default, PartialEq, Eq)]
pub struct PlayerAbilities {
    pub flags: PlayerAbilityFlags,
    pub flying_speed: F32Bits,
    pub fov_modifier: F32Bits,
}

impl DeepView for PlayerAbilities {
    type V = PlayerAbilities;

    open spec fn deep_view(&self) -> PlayerAbilities {
        *self
    }
}

impl MooshroomWritable for PlayerAbilities {
    open spec fn enc(&self) -> Seq<u8> {
        self.flags.enc() + self.flying_speed.enc() + self.fov_modifier.enc()
    }

    fn write(&self, w: &mut Vec<u8>) {
        self.flags.write(w);
        self.flying_speed.write(w);
        self.fov_modifier.write(w);
        proof {
            assert(w@ =~= old(w)@ + self.enc());
        }
    }
}

impl MooshroomReadable for PlayerAbilities {
    open spec fn dec(s: Seq<u8>) -> Option<(PlayerAbilities, int)> {
        match <PlayerAbilityFlags as MooshroomReadable>::dec(s) {
            Some((v0, n0)) => match <F32Bits as MooshroomReadable>::dec(s.skip(n0)) {
                Some((v1, n1)) => match <F32Bits as MooshroomReadable>::dec(s.skip(n0 + n1)) {
                    Some((v2, n2)) => Some((PlayerAbilities { flags: v0, flying_speed: v1, fov_modifier: v2 }, n0 + n1 + n2)),
                    None => None,
                },
                None => None,
            },
            None => None,
        }
    }

    fn read(r: &mut Reader) -> (res: Result<Self, MooshroomError>) {
        let ghost s0 = old(r).remaining();
        let ghost p0 = old(r).pos();
        let flags = match <PlayerAbilityFlags as MooshroomReadable>::read(r) {
            Ok(v) => v,
            Err(e) => {
                return Err(e);
            },
        };
        proof {
            assert(r.remaining() =~= s0.skip(r.pos() - p0));
        }
        let flying_speed = match <F32Bits as MooshroomReadable>::read(r) {
            Ok(v) => v,
            Err(e) => {
                return Err(e);
            },
        };
        proof {
            assert(r.remaining() =~= s0.skip(r.pos() - p0));
        }
        let fov_modifier = match <F32Bits as MooshroomReadable>::read(r) {
            Ok(v) => v,
            Err(e) => {
                return Err(e);
            },
        };
        Ok(PlayerAbilities { flags, flying_speed, fov_modifier })
    }
}

impl MooshroomRoundTrip for PlayerAbilities {
    open spec fn wire_bounded(&self) -> bool {
        self.flags.wire_bounded() && self.flying_speed.wire_bounded() && self.fov_modifier.wire_bounded()
    }

    proof fn lemma_round_trip(&self, rest: Seq<u8>)
    {
        let t3 = rest;
        let t2 = self.fov_modifier.enc() + t3;
        let t1 = self.flying_speed.enc() + t2;
        let t0 = self.flags.enc() + t1;
        let s = self.enc() + rest;
        crate::io::lemma_concat_assoc(self.flags.enc() + self.flying_speed.enc(), self.fov_modifier.enc(), t3);
        crate::io::lemma_concat_assoc(self.flags.enc(), self.flying_speed.enc(), t2);
        assert(s == t0);
        self.flags.lemma_round_trip(t1);
        crate::io::lemma_concat_skip_prefix(self.flags.enc(), t1);
        self.flying_speed.lemma_round_trip(t2);
        crate::io::lemma_concat_skip_prefix(self.flying_speed.enc(), t2);
        crate::io::lemma_skip_of_skip(s, (self.flags.enc().len()) as int, self.flying_speed.enc().len() as int);
        self.fov_modifier.lemma_round_trip(t3);
        crate::io::lemma_concat_skip_prefix(self.fov_modifier.enc(), t3);
        crate::io::lemma_skip_of_skip(s, (self.flags.enc().len() + self.flying_speed.enc().len()) as int, self.fov_modifier.enc().len() as int);
    }
}

impl MooshroomPacket for PlayerAbilities {
    open spec fn spec_packet_id() -> i32 {
        49
    }

    fn packet_id() -> (id: i32) {
        49
    }
}

#[derive(Copy, Clone, Debug, Default, PartialEq, Eq)]
pub struct EndCombat {
    pub duration: VarInt,
    pub entity_id: i32,
}

impl DeepView for EndCombat {
    type V = EndCombat;

    open spec fn deep_view(&self) -> EndCombat {
        *self
    }
}

impl MooshroomWritable for EndCombat {
    open spec fn enc(&self) -> Seq<u8> {
        self.duration.enc() + self.entity_id.enc()
    }

    fn write(&self, w: &mut Vec<u8>) {
        self.duration.write(w);
        self.entity_id.write(w);
        proof {
            assert(w@ =~= old(w)@ + self.enc());
        }
    }
}

impl MooshroomReadable for EndCombat {
    open spec fn dec(s: Seq<u8>) -> Option<(EndCombat, int)> {
        match <VarInt as MooshroomReadable>::dec(s) {
            Some((v0, n0)) => match <i32 as MooshroomReadable>::dec(s.skip(n0)) {
                Some((v1, n1)) => Some((EndCombat { duration: v0, entity_id: v1 }, n0 + n1)),
                None => None,
            },
            None => None,
        }
    }

    fn read(r: &mut Reader) -> (res: Result<Self, MooshroomError>) {
        let ghost s0 = old(r).remaining();
        let ghost p0 = old(r).pos();
        let duration = match <VarInt as MooshroomReadable>::read(r) {
            Ok(v) => v,
            Err(e) => {
                return Err(e);
            },
        };
        proof {
            assert(r.remaining() =~= s0.skip(r.pos() - p0));
        }
        let entity_id = match <i32 as MooshroomReadable>::read(r) {
            Ok(v) => v,
            Err(e) => {
                return Err(e);
            },
        };
        Ok(EndCombat { duration, entity_id })
    }
}

impl MooshroomRoundTrip for EndCombat {
    open spec fn wire_bounded(&self) -> bool {
        self.duration.wire_bounded() && self.entity_id.wire_bounded()
    }

    proof fn lemma_round_trip(&self, rest: Seq<u8>)
    {
        let t2 = rest;
        let t1 = self.entity_id.enc() + t2;
        let t0 = self.duration.enc() + t1;
        let s = self.enc() + rest;
        crate::io::lemma_concat_assoc(self.duration.enc(), self.entity_id.enc(), t2);
        assert(s == t0);
        self.duration.lemma_round_trip(t1);
        crate::io::lemma_concat_skip_prefix(self.duration.enc(), t1);
        self.entity_id.lemma_round_trip(t2);
        crate::io::lemma_concat_skip_prefix(self.entity_id.enc(), t2);
        crate::io::lemma_skip_of_skip(s, (self.duration.enc().len()) as int, self.entity_id.enc().len() as int);
    }
}

impl MooshroomPacket for EndCombat {
    open spec fn spec_packet_id() -> i32 {
        52
    }

    fn packet_id() -> (id: i32) {
        52
    }
}

#[derive(Copy, Clone, Debug, Default, PartialEq, Eq)]
pub struct EnterCombat;

impl DeepView for EnterCombat {
    type V = EnterCombat;

    open spec fn deep_view(&self) -> EnterCombat {
        *self
    }
}

impl MooshroomWritable for EnterCombat {
    open spec fn enc(&self) -> Seq<u8> {
        Seq::empty()
    }

    fn write(&self, w: &mut Vec<u8>) {
        proof {
            assert(w@ =~= old(w)@ + self.enc());
        }
    }
}

impl MooshroomReadable for EnterCombat {
    open spec fn dec(s: Seq<u8>) -> Option<(EnterCombat, int)> {
        Some((EnterCombat, 0))
    }

    fn read(r: &mut Reader) -> (res: Result<Self, MooshroomError>) {
        Ok(EnterCombat)
    }
}

impl MooshroomRoundTrip for EnterCombat {
    open spec fn wire_bounded(&self) -> bool {
        true
    }

    proof fn lemma_round_trip(&self, rest: Seq<u8>)
    {
        assert(self.enc() + rest =~= rest);
    }
}

impl MooshroomPacket for EnterCombat {
    open spec fn spec_packet_id() -> i32 {
        53
    }

    fn packet_id() -> (id: i32) {
        53
    }
}

#[derive(Clone, Debug, Default, PartialEq)]
pub struct CombatDeath {
    pub player_id: VarInt,
    pub entity_id: VarInt,
    pub message: Chat,
}

/// The mathematical value of a `CombatDeath`, for contracts.
pub struct CombatDeathView {
    pub player_id: VarInt,
    pub entity_id: VarInt,
    pub message: Seq<char>,
}

impl DeepView for CombatDeath {
    type V = CombatDeathView;

    open spec fn deep_view(&self) -> CombatDeathView {
        CombatDeathView {
            player_id: self.player_id.deep_view(),
            entity_id: self.entity_id.deep_view(),
            message: self.message.deep_view(),
        }
    }
}

impl MooshroomWritable for CombatDeath {
    open spec fn enc(&self) -> Seq<u8> {
        self.player_id.enc() + self.entity_id.enc() + self.message.enc()
    }

    fn write(&self, w: &mut Vec<u8>) {
        self.player_id.write(w);
        self.entity_id.write(w);
        self.message.write(w);
        proof {
            assert(w@ =~= old(w)@ + self.enc());
        }
    }
}

impl MooshroomReadable for CombatDeath {
    open spec fn dec(s: Seq<u8>) -> Option<(CombatDeathView, int)> {
        match <VarInt as MooshroomReadable>::dec(s) {
            Some((v0, n0)) => match <VarInt as MooshroomReadable>::dec(s.skip(n0)) {
                Some((v1, n1)) => match <String as MooshroomReadable>::dec(s.skip(n0 + n1)) {
                    Some((v2, n2)) => Some((CombatDeathView { player_id: v0, entity_id: v1, message: v2 }, n0 + n1 + n2)),
                    None => None,
                },
                None => None,
            },
            None => None,
        }
    }

    fn read(r: &mut Reader) -> (res: Result<Self, MooshroomError>) {
        let ghost s0 = old(r).remaining();
        let ghost p0 = old(r).pos();
        let player_id = match <VarInt as MooshroomReadable>::read(r) {
            Ok(v) => v,
            Err(e) => {
                return Err(e);
            },
        };
        proof {
            assert(r.remaining() =~= s0.skip(r.pos() - p0));
        }
        let entity_id = match <VarInt as MooshroomReadable>::read(r) {
            Ok(v) => v,
            Err(e) => {
                return Err(e);
            },
        };
        proof {
            assert(r.remaining() =~= s0.skip(r.pos() - p0));
        }
        let message = match <String as MooshroomReadable>::read(r) {
            Ok(v) => v,
            Err(e) => {
                return Err(e);
            },
        };
        Ok(CombatDeath { player_id, entity_id, message })
    }
}

impl MooshroomRoundTrip for CombatDeath {
    open spec fn wire_bounded(&self) -> bool {
        self.player_id.wire_bounded() && self.entity_id.wire_bounded() && self.message.wire_bounded()
    }

    proof fn lemma_round_trip(&self, rest: Seq<u8>)
    {
        let t3 = rest;
        let t2 = self.message.enc() + t3;
        let t1 = self.entity_id.enc() + t2;
        let t0 = self.player_id.enc() + t1;
        let s = self.enc() + rest;
        crate::io::lemma_concat_assoc(self.player_id.enc() + self.entity_id.enc(), self.message.enc(), t3);
        crate::io::lemma_concat_assoc(self.player_id.enc(), self.entity_id.enc(), t2);
        assert(s == t0);
        self.player_id.lemma_round_trip(t1);
        crate::io::lemma_concat_skip_prefix(self.player_id.enc(), t1);
        self.entity_id.lemma_round_trip(t2);
        crate::io::lemma_concat_skip_prefix(self.entity_id.enc(), t2);
        crate::io::lemma_skip_of_skip(s, (self.player_id.enc().len()) as int, self.entity_id.enc().len() as int);
        self.message.lemma_round_trip(t3);
        crate::io::lemma_concat_skip_prefix(self.message.enc(), t3);
        crate::io::lemma_skip_of_skip(s, (self.player_id.enc().len() + self.entity_id.enc().len()) as int, self.message.enc().len() as int);
    }
}

impl MooshroomPacket for CombatDeath {
    open spec fn spec_packet_id() -> i32 {
        54
    }

    fn packet_id() -> (id: i32) {
        54
    }
}

#[derive(Copy, Clone, Debug, Default, PartialEq, Eq)]
pub struct RotationBitFlags {
    pub x_is_relitive: bool,
    pub y_is_relitive: bool,
    pub z_is_relitive: bool,
    pub y_rot_is_relitive: bool,
    pub x_rot_is_relitive: bool,
}

impl DeepView for RotationBitFlags {
    type V = RotationBitFlags;

    open spec fn deep_view(&self) -> RotationBitFlags {
        *self
    }
}

impl MooshroomBitFlag for RotationBitFlags {
    open spec fn spec_value(&self) -> u8 {
        ((if self.x_is_relitive { 1int } else { 0int }) + (if self.y_is_relitive { 2int } else { 0int }) + (if self.z_is_relitive { 4int } else { 0int }) + (if self.y_rot_is_relitive { 8int } else { 0int }) + (if self.x_rot_is_relitive { 16int } else { 0int })) as u8
    }

    open spec fn spec_from_value(v: u8) -> RotationBitFlags {
        RotationBitFlags {
            x_is_relitive: (v as int / 1) % 2 == 1,
            y_is_relitive: (v as int / 2) % 2 == 1,
            z_is_relitive: (v as int / 4) % 2 == 1,
            y_rot_is_relitive: (v as int / 8) % 2 == 1,
            x_rot_is_relitive: (v as int / 16) % 2 == 1,
        }
    }

    #[verifier::rlimit(50)]
    fn from_value(v: u8) -> (r: Self) {
        RotationBitFlags {
            x_is_relitive: (v / 1) % 2 == 1,
            y_is_relitive: (v / 2) % 2 == 1,
            z_is_relitive: (v / 4) % 2 == 1,
            y_rot_is_relitive: (v / 8) % 2 == 1,
            x_rot_is_relitive: (v / 16) % 2 == 1,
        }
    }

    #[verifier::rlimit(50)]
    fn to_value(&self) -> (r: u8) {
        let v: u32 = (if self.x_is_relitive { 1u32 } else { 0u32 }) + (if self.y_is_relitive { 2u32 } else { 0u32 }) + (if self.z_is_relitive { 4u32 } else { 0u32 }) + (if self.y_rot_is_relitive { 8u32 } else { 0u32 }) + (if self.x_rot_is_relitive { 16u32 } else { 0u32 });
        v as u8
    }
}

impl MooshroomWritable for RotationBitFlags {
    open spec fn enc(&self) -> Seq<u8> {
        be_enc(self.spec_value() as nat, 1)
    }

    fn write(&self, w: &mut Vec<u8>) {
        let v = self.to_value();
        <u8 as MooshroomWritable>::write(&v, w);
    }
}

impl MooshroomReadable for RotationBitFlags {
    open spec fn dec(s: Seq<u8>) -> Option<(RotationBitFlags, int)> {
        if s.len() >= 1 {
            Some((RotationBitFlags::spec_from_value(s[0]), 1))
        } else {
            None
        }
    }

    fn read(r: &mut Reader) -> (res: Result<Self, MooshroomError>) {
        match r.read_u8() {
            Ok(b) => Ok(RotationBitFlags::from_value(b)),
            Err(e) => Err(e),
        }
    }
}

impl MooshroomRoundTrip for RotationBitFlags {
    open spec fn wire_bounded(&self) -> bool {
        true
    }

    proof fn lemma_round_trip(&self, rest: Seq<u8>) {
        let u = self.spec_value() as nat;
        lemma_be_enc_len(u, 1);
        lemma_be_round_trip(u, 1, rest);
        lemma_pow256_values();
        assert((self.enc() + rest)[0] == self.enc()[0]);
        assert(RotationBitFlags::spec_from_value(self.spec_value()) == *self);
    }
}

#[derive(Copy, Clone, Debug, Default, PartialEq, Eq)]
pub struct SynchronizePlayerPosition {
    pub x: F64Bits,
    pub y: F64Bits,
    pub z: F64Bits,
    pub yaw: F32Bits,
    pub pitch: F32Bits,
    pub flags: RotationBitFlags,
    pub teleport_id: VarInt,
    pub dismount_vehicle: bool,
}

impl DeepView for SynchronizePlayerPosition {
    type V = SynchronizePlayerPosition;

    open spec fn deep_view(&self) -> SynchronizePlayerPosition {
        *self
    }
}

impl MooshroomWritable for SynchronizePlayerPosition {
    open spec fn enc(&self) -> Seq<u8> {
        self.x.enc() + self.y.enc() + self.z.enc() + self.yaw.enc() + self.pitch.enc() + self.flags.enc() + self.teleport_id.enc() + self.dismount_vehicle.enc()
    }

    fn write(&self, w: &mut Vec<u8>) {
        self.x.write(w);
        self.y.write(w);
        self.z.write(w);
        self.yaw.write(w);
        self.pitch.write(w);
        self.flags.write(w);
        self.teleport_id.write(w);
        self.dismount_vehicle.write(w);
        proof {
            assert(w@ =~= old(w)@ + self.enc());
        }
    }
}

impl MooshroomReadable for SynchronizePlayerPosition {
    open spec fn dec(s: Seq<u8>) -> Option<(SynchronizePlayerPosition, int)> {
        match <F64Bits as MooshroomReadable>::dec(s) {
            Some((v0, n0)) => match <F64Bits as MooshroomReadable>::dec(s.skip(n0)) {
                Some((v1, n1)) => match <F64Bits as MooshroomReadable>::dec(s.skip(n0 + n1)) {
                    Some((v2, n2)) => match <F32Bits as MooshroomReadable>::dec(s.skip(n0 + n1 + n2)) {
                        Some((v3, n3)) => match <F32Bits as MooshroomReadable>::dec(s.skip(n0 + n1 + n2 + n3)) {
                            Some((v4, n4)) => match <RotationBitFlags as MooshroomReadable>::dec(s.skip(n0 + n1 + n2 + n3 + n4)) {
                                Some((v5, n5)) => match <VarInt as MooshroomReadable>::dec(s.skip(n0 + n1 + n2 + n3 + n4 + n5)) {
                                    Some((v6, n6)) => match <bool as MooshroomReadable>::dec(s.skip(n0 + n1 + n2 + n3 + n4 + n5 + n6)) {
                                        Some((v7, n7)) => Some((SynchronizePlayerPosition { x: v0, y: v1, z: v2, yaw: v3, pitch: v4, flags: v5, teleport_id: v6, dismount_vehicle: v7 }, n0 + n1 + n2 + n3 + n4 + n5 + n6 + n7)),
                                        None => None,
                                    },
                                    None => None,
                                },
                                None => None,
                            },
                            None => None,
                        },
                        None => None,
                    },
                    None => None,
                },
                None => None,
            },
            None => None,
        }
    }

    #[verifier::rlimit(100)]
    fn read(r: &mut Reader) -> (res: Result<Self, MooshroomError>) {
        let ghost s0 = old(r).remaining();
        let ghost p0 = old(r).pos();
        let x = match <F64Bits as MooshroomReadable>::read(r) {
            Ok(v) => v,
            Err(e) => {
                return Err(e);
            },
        };
        proof {
            assert(r.remaining() =~= s0.skip(r.pos() - p0));
        }
        let y = match <F64Bits as MooshroomReadable>::read(r) {
            Ok(v) => v,
            Err(e) => {
                return Err(e);
            },
        };
        proof {
            assert(r.remaining() =~= s0.skip(r.pos() - p0));
        }
        let z = match <F64Bits as MooshroomReadable>::read(r) {
            Ok(v) => v,
            Err(e) => {
                return Err(e);
            },
        };
        proof {
            assert(r.remaining() =~= s0.skip(r.pos() - p0));
        }
        let yaw = match <F32Bits as MooshroomReadable>::read(r) {
            Ok(v) => v,
            Err(e) => {
                return Err(e);
            },
        };
        proof {
            assert(r.remaining() =~= s0.skip(r.pos() - p0));
        }
        let pitch = match <F32Bits as MooshroomReadable>::read(r) {
            Ok(v) => v,
            Err(e) => {
                return Err(e);
            },
        };
        proof {
            assert(r.remaining() =~= s0.skip(r.pos() - p0));
        }
        let flags = match <RotationBitFlags as MooshroomReadable>::read(r) {
            Ok(v) => v,
            Err(e) => {
                return Err(e);
            },
        };
        proof {
            assert(r.remaining() =~= s0.skip(r.pos() - p0));
        }
        let teleport_id = match <VarInt as MooshroomReadable>::read(r) {
            Ok(v) => v,
            Err(e) => {
                return Err(e);
            },
        };
        proof {
            assert(r.remaining() =~= s0.skip(r.pos() - p0));
        }
        let dismount_vehicle = match <bool as MooshroomReadable>::read(r) {
            Ok(v) => v,
            Err(e) => {
                return Err(e);
            },
        };
        Ok(SynchronizePlayerPosition { x, y, z, yaw, pitch, flags, teleport_id, dismount_vehicle })
    }
}

impl MooshroomRoundTrip for SynchronizePlayerPosition {
    open spec fn wire_bounded(&self) -> bool {
        self.x.wire_bounded() && self.y.wire_bounded() && self.z.wire_bounded() && self.yaw.wire_bounded() && self.pitch.wire_bounded() && self.flags.wire_bounded() && self.teleport_id.wire_bounded() && self.dismount_vehicle.wire_bounded()
    }

    #[verifier::rlimit(100)]
    proof fn lemma_round_trip(&self, rest: Seq<u8>)
    {
        let t8 = rest;
        let t7 = self.dismount_vehicle.enc() + t8;
        let t6 = self.teleport_id.enc() + t7;
        let t5 = self.flags.enc() + t6;
        let t4 = self.pitch.enc() + t5;
        let t3 = self.yaw.enc() + t4;
        let t2 = self.z.enc() + t3;
        let t1 = self.y.enc() + t2;
        let t0 = self.x.enc() + t1;
        let s = self.enc() + rest;
        crate::io::lemma_concat_assoc(self.x.enc() + self.y.enc() + self.z.enc() + self.yaw.enc() + self.pitch.enc() + self.flags.enc() + self.teleport_id.enc(), self.dismount_vehicle.enc(), t8);
        crate::io::lemma_concat_assoc(self.x.enc() + self.y.enc() + self.z.enc() + self.yaw.enc() + self.pitch.enc() + self.flags.enc(), self.teleport_id.enc(), t7);
        crate::io::lemma_concat_assoc(self.x.enc() + self.y.enc() + self.z.enc() + self.yaw.enc() + self.pitch.enc(), self.flags.enc(), t6);
        crate::io::lemma_concat_assoc(self.x.enc() + self.y.enc() + self.z.enc() + self.yaw.enc(), self.pitch.enc(), t5);
        crate::io::lemma_concat_assoc(self.x.enc() + self.y.enc() + self.z.enc(), self.yaw.enc(), t4);
        crate::io::lemma_concat_assoc(self.x.enc() + self.y.enc(), self.z.enc(), t3);
        crate::io::lemma_concat_assoc(self.x.enc(), self.y.enc(), t2);
        assert(s == t0);
        self.x.lemma_round_trip(t1);
        crate::io::lemma_concat_skip_prefix(self.x.enc(), t1);
        self.y.lemma_round_trip(t2);
        crate::io::lemma_concat_skip_prefix(self.y.enc(), t2);
        crate::io::lemma_skip_of_skip(s, (self.x.enc().len()) as int, self.y.enc().len() as int);
        self.z.lemma_round_trip(t3);
        crate::io::lemma_concat_skip_prefix(self.z.enc(), t3);
        crate::io::lemma_skip_of_skip(s, (self.x.enc().len() + self.y.enc().len()) as int, self.z.enc().len() as int);
        self.yaw.lemma_round_trip(t4);
        crate::io::lemma_concat_skip_prefix(self.yaw.enc(), t4);
        crate::io::lemma_skip_of_skip(s, (self.x.enc().len() + self.y.enc().len() + self.z.enc().len()) as int, self.yaw.enc().len() as int);
        self.pitch.lemma_round_trip(t5);
        crate::io::lemma_concat_skip_prefix(self.pitch.enc(), t5);
        crate::io::lemma_skip_of_skip(s, (self.x.enc().len() + self.y.enc().len() + self.z.enc().len() + self.yaw.enc().len()) as int, self.pitch.enc().len() as int);
        self.flags.lemma_round_trip(t6);
        crate::io::lemma_concat_skip_prefix(self.flags.enc(), t6);
        crate::io::lemma_skip_of_skip(s, (self.x.enc().len() + self.y.enc().len() + self.z.enc().len() + self.yaw.enc().len() + self.pitch.enc().len()) as int, self.flags.enc().len() as int);
        self.teleport_id.lemma_round_trip(t7);
        crate::io::lemma_concat_skip_prefix(self.teleport_id.enc(), t7);
        crate::io::lemma_skip_of_skip(s, (self.x.enc().len() + self.y.enc().len() + self.z.enc().len() + self.yaw.enc().len() + self.pitch.enc().len() + self.flags.enc().len()) as int, self.teleport_id.enc().len() as int);
        self.dismount_vehicle.lemma_round_trip(t8);
        crate::io::lemma_concat_skip_prefix(self.dismount_vehicle.enc(), t8);
        crate::io::lemma_skip_of_skip(s, (self.x.enc().len() + self.y.enc().len() + self.z.enc().len() + self.yaw.enc().len() + self.pitch.enc().len() + self.flags.enc().len() + self.teleport_id.enc().len()) as int, self.dismount_vehicle.enc().len() as int);
    }
}

impl MooshroomPacket for SynchronizePlayerPosition {
    open spec fn spec_packet_id() -> i32 {
        57
    }

    fn packet_id() -> (id: i32) {
        57
    }
}

#[derive(Clone, Debug, Default, PartialEq)]
pub struct DeathLocation {
    pub dimention: Identifier,
    pub location: Position,
}

/// The mathematical value of a `DeathLocation`, for contracts.
pub struct DeathLocationView {
    pub dimention: Seq<char>,
    pub location: Position,
}

impl DeepView for DeathLocation {
    type V = DeathLocationView;

    open spec fn deep_view(&self) -> DeathLocationView {
        DeathLocationView {
            dimention: self.dimention.deep_view(),
            location: self.location.deep_view(),
        }
    }
}

impl MooshroomWritable for DeathLocation {
    open spec fn enc(&self) -> Seq<u8> {
        self.dimention.enc() + self.location.enc()
    }

    fn write(&self, w: &mut Vec<u8>) {
        self.dimention.write(w);
        self.location.write(w);
        proof {
            assert(w@ =~= old(w)@ + self.enc());
        }
    }
}

impl MooshroomReadable for DeathLocation {
    open spec fn dec(s: Seq<u8>) -> Option<(DeathLocationView, int)> {
        match <String as MooshroomReadable>::dec(s) {
            Some((v0, n0)) => match <Position as MooshroomReadable>::dec(s.skip(n0)) {
                Some((v1, n1)) => Some((DeathLocationView { dimention: v0, location: v1 }, n0 + n1)),
                None => None,
            },
            None => None,
        }
    }

    fn read(r: &mut Reader) -> (res: Result<Self, MooshroomError>) {
        let ghost s0 = old(r).remaining();
        let ghost p0 = old(r).pos();
        let dimention = match <String as MooshroomReadable>::read(r) {
            Ok(v) => v,
            Err(e) => {
                return Err(e);
            },
        };
        proof {
            assert(r.remaining() =~= s0.skip(r.pos() - p0));
        }
        let location = match <Position as MooshroomReadable>::read(r) {
            Ok(v) => v,
            Err(e) => {
                return Err(e);
            },
        };
        Ok(DeathLocation { dimention, location })
    }
}

impl MooshroomRoundTrip for DeathLocation {
    open spec fn wire_bounded(&self) -> bool {
        self.dimention.wire_bounded() && self.location.wire_bounded()
    }

    proof fn lemma_round_trip(&self, rest: Seq<u8>)
    {
        let t2 = rest;
        let t1 = self.location.enc() + t2;
        let t0 = self.dimention.enc() + t1;
        let s = self.enc() + rest;
        crate::io::lemma_concat_assoc(self.dimention.enc(), self.location.enc(), t2);
        assert(s == t0);
        self.dimention.lemma_round_trip(t1);
        crate::io::lemma_concat_skip_prefix(self.dimention.enc(), t1);
        self.location.lemma_round_trip(t2);
        crate::io::lemma_concat_skip_prefix(self.location.enc(), t2);
        crate::io::lemma_skip_of_skip(s, (self.dimention.enc().len()) as int, self.location.enc().len() as int);
    }
}

#[derive(Clone, Debug, Default, PartialEq)]
pub struct Respawn {
    pub dimention: Identifier,
    pub dimention_name: Identifier,
    pub hash_seed: i64,
    pub gamemode: GameMode,
    pub previous_gamemode: GameMode,
    pub is_debug: bool,
    pub is_flat: bool,
    pub copy_metadata: bool,
    pub death_location: Option<DeathLocation>,
}

/// The mathematical value of a `Respawn`, for contracts.
pub struct RespawnView {
    pub dimention: Seq<char>,
    pub dimention_name: Seq<char>,
    pub hash_seed: i64,
    pub gamemode: GameMode,
    pub previous_gamemode: GameMode,
    pub is_debug: bool,
    pub is_flat: bool,
    pub copy_metadata: bool,
    pub death_location: Option<DeathLocationView>,
}

impl DeepView for Respawn {
    type V = RespawnView;

    open spec fn deep_view(&self) -> RespawnView {
        RespawnView {
            dimention: self.dimention.deep_view(),
            dimention_name: self.dimention_name.deep_view(),
            hash_seed: self.hash_seed.deep_view(),
            gamemode: self.gamemode.deep_view(),
            previous_gamemode: self.previous_gamemode.deep_view(),
            is_debug: self.is_debug.deep_view(),
            is_flat: self.is_flat.deep_view(),
            copy_metadata: self.copy_metadata.deep_view(),
            death_location: self.death_location.deep_view(),
        }
    }
}

impl MooshroomWritable for Respawn {
    open spec fn enc(&self) -> Seq<u8> {
        self.dimention.enc() + self.dimention_name.enc() + self.hash_seed.enc() + self.gamemode.enc() + self.previous_gamemode.enc() + self.is_debug.enc() + self.is_flat.enc() + self.copy_metadata.enc() + self.death_location.enc()
    }

    fn write(&self, w: &mut Vec<u8>) {
        self.dimention.write(w);
        self.dimention_name.write(w);
        self.hash_seed.write(w);
        self.gamemode.write(w);
        self.previous_gamemode.write(w);
        self.is_debug.write(w);
        self.is_flat.write(w);
        self.copy_metadata.write(w);
        self.death_location.write(w);
        proof {
            assert(w@ =~= old(w)@ + self.enc());
        }
    }
}

impl MooshroomReadable for Respawn {
    open spec fn dec(s: Seq<u8>) -> Option<(RespawnView, int)> {
        match <String as MooshroomReadable>::dec(s) {
            Some((v0, n0)) => match <String as MooshroomReadable>::dec(s.skip(n0)) {
                Some((v1, n1)) => match <i64 as MooshroomReadable>::dec(s.skip(n0 + n1)) {
                    Some((v2, n2)) => match <GameMode as MooshroomReadable>::dec(s.skip(n0 + n1 + n2)) {
                        Some((v3, n3)) => match <GameMode as MooshroomReadable>::dec(s.skip(n0 + n1 + n2 + n3)) {
                            Some((v4, n4)) => match <bool as MooshroomReadable>::dec(s.skip(n0 + n1 + n2 + n3 + n4)) {
                                Some((v5, n5)) => match <bool as MooshroomReadable>::dec(s.skip(n0 + n1 + n2 + n3 + n4 + n5)) {
                                    Some((v6, n6)) => match <bool as MooshroomReadable>::dec(s.skip(n0 + n1 + n2 + n3 + n4 + n5 + n6)) {
                                        Some((v7, n7)) => match <Option<DeathLocation> as MooshroomReadable>::dec(s.skip(n0 + n1 + n2 + n3 + n4 + n5 + n6 + n7)) {
                                            Some((v8, n8)) => Some((RespawnView { dimention: v0, dimention_name: v1, hash_seed: v2, gamemode: v3, previous_gamemode: v4, is_debug: v5, is_flat: v6, copy_metadata: v7, death_location: v8 }, n0 + n1 + n2 + n3 + n4 + n5 + n6 + n7 + n8)),
                                            None => None,
                                        },
                                        None => None,
                                    },
                                    None => None,
                                },
                                None => None,
                            },
                            None => None,
                        },
                        None => None,
                    },
                    None => None,
                },
                None => None,
            },
            None => None,
        }
    }

    #[verifier::rlimit(100)]
    fn read(r: &mut Reader) -> (res: Result<Self, MooshroomError>) {
        let ghost s0 = old(r).remaining();
        let ghost p0 = old(r).pos();
        let dimention = match <String as MooshroomReadable>::read(r) {
            Ok(v) => v,
            Err(e) => {
                return Err(e);
            },
        };
        proof {
            assert(r.remaining() =~= s0.skip(r.pos() - p0));
        }
        let dimention_name = match <String as MooshroomReadable>::read(r) {
            Ok(v) => v,
            Err(e) => {
                return Err(e);
            },
        };
        proof {
            assert(r.remaining() =~= s0.skip(r.pos() - p0));
        }
        let hash_seed = match <i64 as MooshroomReadable>::read(r) {
            Ok(v) => v,
            Err(e) => {
                return Err(e);
            },
        };
        proof {
            assert(r.remaining() =~= s0.skip(r.pos() - p0));
        }
        let gamemode = match <GameMode as MooshroomReadable>::read(r) {
            Ok(v) => v,
            Err(e) => {
                return Err(e);
            },
        };
        proof {
            assert(r.remaining() =~= s0.skip(r.pos() - p0));
        }
        let previous_gamemode = match <GameMode as MooshroomReadable>::read(r) {
            Ok(v) => v,
            Err(e) => {
                return Err(e);
            },
        };
        proof {
            assert(r.remaining() =~= s0.skip(r.pos() - p0));
        }
        let is_debug = match <bool as MooshroomReadable>::read(r) {
            Ok(v) => v,
            Err(e) => {
                return Err(e);
            },
        };
        proof {
            assert(r.remaining() =~= s0.skip(r.pos() - p0));
        }
        let is_flat = match <bool as MooshroomReadable>::read(r) {
            Ok(v) => v,
            Err(e) => {
                return Err(e);
            },
        };
        proof {
            assert(r.remaining() =~= s0.skip(r.pos() - p0));
        }
        let copy_metadata = match <bool as MooshroomReadable>::read(r) {
            Ok(v) => v,
            Err(e) => {
                return Err(e);
            },
        };
        proof {
            assert(r.remaining() =~= s0.skip(r.pos() - p0));
        }
        let death_location = match <Option<DeathLocation> as MooshroomReadable>::read(r) {
            Ok(v) => v,
            Err(e) => {
                return Err(e);
            },
        };
        Ok(Respawn { dimention, dimention_name, hash_seed, gamemode, previous_gamemode, is_debug, is_flat, copy_metadata, death_location })
    }
}

impl MooshroomRoundTrip for Respawn {
    open spec fn wire_bounded(&self) -> bool {
        self.dimention.wire_bounded() && self.dimention_name.wire_bounded() && self.hash_seed.wire_bounded() && self.gamemode.wire_bounded() && self.previous_gamemode.wire_bounded() && self.is_debug.wire_bounded() && self.is_flat.wire_bounded() && self.copy_metadata.wire_bounded() && self.death_location.wire_bounded()
    }

    #[verifier::rlimit(100)]
    proof fn lemma_round_trip(&self, rest: Seq<u8>)
    {
        let t9 = rest;
        let t8 = self.death_location.enc() + t9;
        let t7 = self.copy_metadata.enc() + t8;
        let t6 = self.is_flat.enc() + t7;
        let t5 = self.is_debug.enc() + t6;
        let t4 = self.previous_gamemode.enc() + t5;
        let t3 = self.gamemode.enc() + t4;
        let t2 = self.hash_seed.enc() + t3;
        let t1 = self.dimention_name.enc() + t2;
        let t0 = self.dimention.enc() + t1;
        let s = self.enc() + rest;
        crate::io::lemma_concat_assoc(self.dimention.enc() + self.dimention_name.enc() + self.hash_seed.enc() + self.gamemode.enc() + self.previous_gamemode.enc() + self.is_debug.enc() + self.is_flat.enc() + self.copy_metadata.enc(), self.death_location.enc(), t9);
        crate::io::lemma_concat_assoc(self.dimention.enc() + self.dimention_name.enc() + self.hash_seed.enc() + self.gamemode.enc() + self.previous_gamemode.enc() + self.is_debug.enc() + self.is_flat.enc(), self.copy_metadata.enc(), t8);
        crate::io::lemma_concat_assoc(self.dimention.enc() + self.dimention_name.enc() + self.hash_seed.enc() + self.gamemode.enc() + self.previous_gamemode.enc() + self.is_debug.enc(), self.is_flat.enc(), t7);
        crate::io::lemma_concat_assoc(self.dimention.enc() + self.dimention_name.enc() + self.hash_seed.enc() + self.gamemode.enc() + self.previous_gamemode.enc(), self.is_debug.enc(), t6);
        crate::io::lemma_concat_assoc(self.dimention.enc() + self.dimention_name.enc() + self.hash_seed.enc() + self.gamemode.enc(), self.previous_gamemode.enc(), t5);
        crate::io::lemma_concat_assoc(self.dimention.enc() + self.dimention_name.enc() + self.hash_seed.enc(), self.gamemode.enc(), t4);
        crate::io::lemma_concat_assoc(self.dimention.enc() + self.dimention_name.enc(), self.hash_seed.enc(), t3);
        crate::io::lemma_concat_assoc(self.dimention.enc(), self.dimention_name.enc(), t2);
        assert(s == t0);
        self.dimention.lemma_round_trip(t1);
        crate::io::lemma_concat_skip_prefix(self.dimention.enc(), t1);
        self.dimention_name.lemma_round_trip(t2);
        crate::io::lemma_concat_skip_prefix(self.dimention_name.enc(), t2);
        crate::io::lemma_skip_of_skip(s, (self.dimention.enc().len()) as int, self.dimention_name.enc().len() as int);
        self.hash_seed.lemma_round_trip(t3);
        crate::io::lemma_concat_skip_prefix(self.hash_seed.enc(), t3);
        crate::io::lemma_skip_of_skip(s, (self.dimention.enc().len() + self.dimention_name.enc().len()) as int, self.hash_seed.enc().len() as int);
        self.gamemode.lemma_round_trip(t4);
        crate::io::lemma_concat_skip_prefix(self.gamemode.enc(), t4);
        crate::io::lemma_skip_of_skip(s, (self.dimention.enc().len() + self.dimention_name.enc().len() + self.hash_seed.enc().len()) as int, self.gamemode.enc().len() as int);
        self.previous_gamemode.lemma_round_trip(t5);
        crate::io::lemma_concat_skip_prefix(self.previous_gamemode.enc(), t5);
        crate::io::lemma_skip_of_skip(s, (self.dimention.enc().len() + self.dimention_name.enc().len() + self.hash_seed.enc().len() + self.gamemode.enc().len()) as int, self.previous_gamemode.enc().len() as int);
        self.is_debug.lemma_round_trip(t6);
        crate::io::lemma_concat_skip_prefix(self.is_debug.enc(), t6);
        crate::io::lemma_skip_of_skip(s, (self.dimention.enc().len() + self.dimention_name.enc().len() + self.hash_seed.enc().len() + self.gamemode.enc().len() + self.previous_gamemode.enc().len()) as int, self.is_debug.enc().len() as int);
        self.is_flat.lemma_round_trip(t7);
        crate::io::lemma_concat_skip_prefix(self.is_flat.enc(), t7);
        crate::io::lemma_skip_of_skip(s, (self.dimention.enc().len() + self.dimention_name.enc().len() + self.hash_seed.enc().len() + self.gamemode.enc().len() + self.previous_gamemode.enc().len() + self.is_debug.enc().len()) as int, self.is_flat.enc().len() as int);
        self.copy_metadata.lemma_round_trip(t8);
        crate::io::lemma_concat_skip_prefix(self.copy_metadata.enc(), t8);
        crate::io::lemma_skip_of_skip(s, (self.dimention.enc().len() + self.dimention_name.enc().len() + self.hash_seed.enc().len() + self.gamemode.enc().len() + self.previous_gamemode.enc().len() + self.is_debug.enc().len() + self.is_flat.enc().len()) as int, self.copy_metadata.enc().len() as int);
        self.death_location.lemma_round_trip(t9);
        crate::io::lemma_concat_skip_prefix(self.death_location.enc(), t9);
        crate::io::lemma_skip_of_skip(s, (self.dimention.enc().len() + self.dimention_name.enc().len() + self.hash_seed.enc().len() + self.gamemode.enc().len() + self.previous_gamemode.enc().len() + self.is_debug.enc().len() + self.is_flat.enc().len() + self.copy_metadata.enc().len()) as int, self.death_location.enc().len() as int);
    }
}

impl MooshroomPacket for Respawn {
    open spec fn spec_packet_id() -> i32 {
        62
    }

    fn packet_id() -> (id: i32) {
        62
    }
}

#[derive(Copy, Clone, Debug, Default, PartialEq, Eq)]
pub struct SetHeldItem {
    pub slot: u8,
}

impl DeepView for SetHeldItem {
    type V = SetHeldItem;

    open spec fn deep_view(&self) -> SetHeldItem {
        *self
    }
}

impl MooshroomWritable for SetHeldItem {
    open spec fn enc(&self) -> Seq<u8> {
        self.slot.enc()
    }

    fn write(&self, w: &mut Vec<u8>) {
        self.slot.write(w);
        proof {
            assert(w@ =~= old(w)@ + self.enc());
        }
    }
}

impl MooshroomReadable for SetHeldItem {
    open spec fn dec(s: Seq<u8>) -> Option<(SetHeldItem, int)> {
        match <u8 as MooshroomReadable>::dec(s) {
            Some((v0, n0)) => Some((SetHeldItem { slot: v0 }, n0)),
            None => None,
        }
    }

    fn read(r: &mut Reader) -> (res: Result<Self, MooshroomError>) {
        let ghost s0 = old(r).remaining();
        let ghost p0 = old(r).pos();
        let slot = match <u8 as MooshroomReadable>::read(r) {
            Ok(v) => v,
            Err(e) => {
                return Err(e);
            },
        };
        Ok(SetHeldItem { slot })
    }
}

impl MooshroomRoundTrip for SetHeldItem {
    open spec fn wire_bounded(&self) -> bool {
        self.slot.wire_bounded()
    }

    proof fn lemma_round_trip(&self, rest: Seq<u8>)
    {
        let t1 = rest;
        let t0 = self.slot.enc() + t1;
        let s = self.enc() + rest;
        assert(s == t0);
        self.slot.lemma_round_trip(t1);
        crate::io::lemma_concat_skip_prefix(self.slot.enc(), t1);
    }
}

impl MooshroomPacket for SetHeldItem {
    open spec fn spec_packet_id() -> i32 {
        74
    }

    fn packet_id() -> (id: i32) {
        74
    }
}

#[derive(Copy, Clone, Debug, Default, PartialEq, Eq)]
pub struct SetDefaultSpawnPosition {
    pub location: Position,
    pub angle: Angle,
}

impl DeepView for SetDefaultSpawnPosition {
    type V = SetDefaultSpawnPosition;

    open spec fn deep_view(&self) -> SetDefaultSpawnPosition {
        *self
    }
}

impl MooshroomWritable for SetDefaultSpawnPosition {
    open spec fn enc(&self) -> Seq<u8> {
        self.location.enc() + self.angle.enc()
    }

    fn write(&self, w: &mut Vec<u8>) {
        self.location.write(w);
        self.angle.write(w);
        proof {
            assert(w@ =~= old(w)@ + self.enc());
        }
    }
}

impl MooshroomReadable for SetDefaultSpawnPosition {
    open spec fn dec(s: Seq<u8>) -> Option<(SetDefaultSpawnPosition, int)> {
        match <Position as MooshroomReadable>::dec(s) {
            Some((v0, n0)) => match <Angle as MooshroomReadable>::dec(s.skip(n0)) {
                Some((v1, n1)) => Some((SetDefaultSpawnPosition { location: v0, angle: v1 }, n0 + n1)),
                None => None,
            },
            None => None,
        }
    }

    fn read(r: &mut Reader) -> (res: Result<Self, MooshroomError>) {
        let ghost s0 = old(r).remaining();
        let ghost p0 = old(r).pos();
        let location = match <Position as MooshroomReadable>::read(r) {
            Ok(v) => v,
            Err(e) => {
                return Err(e);
            },
        };
        proof {
            assert(r.remaining() =~= s0.skip(r.pos() - p0));
        }
        let angle = match <Angle as MooshroomReadable>::read(r) {
            Ok(v) => v,
            Err(e) => {
                return Err(e);
            },
        };
        Ok(SetDefaultSpawnPosition { location, angle })
    }
}

impl MooshroomRoundTrip for SetDefaultSpawnPosition {
    open spec fn wire_bounded(&self) -> bool {
        self.location.wire_bounded() && self.angle.wire_bounded()
    }

    proof fn lemma_round_trip(&self, rest: Seq<u8>)
    {
        let t2 = rest;
        let t1 = self.angle.enc() + t2;
        let t0 = self.location.enc() + t1;
        let s = self.enc() + rest;
        crate::io::lemma_concat_assoc(self.location.enc(), self.angle.enc(), t2);
        assert(s == t0);
        self.location.lemma_round_trip(t1);
        crate::io::lemma_concat_skip_prefix(self.location.enc(), t1);
        self.angle.lemma_round_trip(t2);
        crate::io::lemma_concat_skip_prefix(self.angle.enc(), t2);
        crate::io::lemma_skip_of_skip(s, (self.location.enc().len()) as int, self.angle.enc().len() as int);
    }
}

impl MooshroomPacket for SetDefaultSpawnPosition {
    open spec fn spec_packet_id() -> i32 {
        77
    }

    fn packet_id() -> (id: i32) {
        77
    }
}

#[derive(Copy, Clone, Debug, Default, PartialEq, Eq)]
pub struct SetExperience {
    pub experience_bar: F32Bits,
    pub level: VarInt,
    pub total_experience: VarInt,
}

impl DeepView for SetExperience {
    type V = SetExperience;

    open spec fn deep_view(&self) -> SetExperience {
        *self
    }
}

impl MooshroomWritable for SetExperience {
    open spec fn enc(&self) -> Seq<u8> {
        self.experience_bar.enc() + self.level.enc() + self.total_experience.enc()
    }

    fn write(&self, w: &mut Vec<u8>) {
        self.experience_bar.write(w);
        self.level.write(w);
        self.total_experience.write(w);
        proof {
            assert(w@ =~= old(w)@ + self.enc());
        }
    }
}

impl MooshroomReadable for SetExperience {
    open spec fn dec(s: Seq<u8>) -> Option<(SetExperience, int)> {
        match <F32Bits as MooshroomReadable>::dec(s) {
            Some((v0, n0)) => match <VarInt as MooshroomReadable>::dec(s.skip(n0)) {
                Some((v1, n1)) => match <VarInt as MooshroomReadable>::dec(s.skip(n0 + n1)) {
                    Some((v2, n2)) => Some((SetExperience { experience_bar: v0, level: v1, total_experience: v2 }, n0 + n1 + n2)),
                    None => None,
                },
                None => None,
            },
            None => None,
        }
    }

    fn read(r: &mut Reader) -> (res: Result<Self, MooshroomError>) {
        let ghost s0 = old(r).remaining();
        let ghost p0 = old(r).pos();
        let experience_bar = match <F32Bits as MooshroomReadable>::read(r) {
            Ok(v) => v,
            Err(e) => {
                return Err(e);
            },
        };
        proof {
            assert(r.remaining() =~= s0.skip(r.pos() - p0));
        }
        let level = match <VarInt as MooshroomReadable>::read(r) {
            Ok(v) => v,
            Err(e) => {
                return Err(e);
            },
        };
        proof {
            assert(r.remaining() =~= s0.skip(r.pos() - p0));
        }
        let total_experience = match <VarInt as MooshroomReadable>::read(r) {
            Ok(v) => v,
            Err(e) => {
                return Err(e);
            },
        };
        Ok(SetExperience { experience_bar, level, total_experience })
    }
}

impl MooshroomRoundTrip for SetExperience {
    open spec fn wire_bounded(&self) -> bool {
        self.experience_bar.wire_bounded() && self.level.wire_bounded() && self.total_experience.wire_bounded()
    }

    proof fn lemma_round_trip(&self, rest: Seq<u8>)
    {
        let t3 = rest;
        let t2 = self.total_experience.enc() + t3;
        let t1 = self.level.enc() + t2;
        let t0 = self.experience_bar.enc() + t1;
        let s = self.enc() + rest;
        crate::io::lemma_concat_assoc(self.experience_bar.enc() + self.level.enc(), self.total_experience.enc(), t3);
        crate::io::lemma_concat_assoc(self.experience_bar.enc(), self.level.enc(), t2);
        assert(s == t0);
        self.experience_bar.lemma_round_trip(t1);
        crate::io::lemma_concat_skip_prefix(self.experience_bar.enc(), t1);
        self.level.lemma_round_trip(t2);
        crate::io::lemma_concat_skip_prefix(self.level.enc(), t2);
        crate::io::lemma_skip_of_skip(s, (self.experience_bar.enc().len()) as int, self.level.enc().len() as int);
        self.total_experience.lemma_round_trip(t3);
        crate::io::lemma_concat_skip_prefix(self.total_experience.enc(), t3);
        crate::io::lemma_skip_of_skip(s, (self.experience_bar.enc().len() + self.level.enc().len()) as int, self.total_experience.enc().len() as int);
    }
}

impl MooshroomPacket for SetExperience {
    open spec fn spec_packet_id() -> i32 {
        84
    }

    fn packet_id() -> (id: i32) {
        84
    }
}

/// The player's health as raw float bits, hunger, and saturation.
#[derive(Copy, Clone, Debug, Default, PartialEq, Eq)]
pub struct SetHealth {
    pub health: F32Bits,
    pub food: VarInt,
    pub food_saturation: F32Bits,
}

impl DeepView for SetHealth {
    type V = SetHealth;

    open spec fn deep_view(&self) -> SetHealth {
        *self
    }
}

impl MooshroomWritable for SetHealth {
    open spec fn enc(&self) -> Seq<u8> {
        self.health.enc() + self.food.enc() + self.food_saturation.enc()
    }

    fn write(&self, w: &mut Vec<u8>) {
        self.health.write(w);
        self.food.write(w);
        self.food_saturation.write(w);
        proof {
            assert(w@ =~= old(w)@ + self.enc());
        }
    }
}

impl MooshroomReadable for SetHealth {
    open spec fn dec(s: Seq<u8>) -> Option<(SetHealth, int)> {
        match <F32Bits as MooshroomReadable>::dec(s) {
            Some((v0, n0)) => match <VarInt as MooshroomReadable>::dec(s.skip(n0)) {
                Some((v1, n1)) => match <F32Bits as MooshroomReadable>::dec(s.skip(n0 + n1)) {
                    Some((v2, n2)) => Some((SetHealth { health: v0, food: v1, food_saturation: v2 }, n0 + n1 + n2)),
                    None => None,
                },
                None => None,
            },
            None => None,
        }
    }

    fn read(r: &mut Reader) -> (res: Result<Self, MooshroomError>) {
        let ghost s0 = old(r).remaining();
        let ghost p0 = old(r).pos();
        let health = match <F32Bits as MooshroomReadable>::read(r) {
            Ok(v) => v,
            Err(e) => {
                return Err(e);
            },
        };
        proof {
            assert(r.remaining() =~= s0.skip(r.pos() - p0));
        }
        let food = match <VarInt as MooshroomReadable>::read(r) {
            Ok(v) => v,
            Err(e) => {
                return Err(e);
            },
        };
        proof {
            assert(r.remaining() =~= s0.skip(r.pos() - p0));
        }
        let food_saturation = match <F32Bits as MooshroomReadable>::read(r) {
            Ok(v) => v,
            Err(e) => {
                return Err(e);
            },
        };
        Ok(SetHealth { health, food, food_saturation })
    }
}

impl MooshroomRoundTrip for SetHealth {
    open spec fn wire_bounded(&self) -> bool {
        self.health.wire_bounded() && self.food.wire_bounded() && self.food_saturation.wire_bounded()
    }

    proof fn lemma_round_trip(&self, rest: Seq<u8>)
    {
        let t3 = rest;
        let t2 = self.food_saturation.enc() + t3;
        let t1 = self.food.enc() + t2;
        let t0 = self.health.enc() + t1;
        let s = self.enc() + rest;
        crate::io::lemma_concat_assoc(self.health.enc() + self.food.enc(), self.food_saturation.enc(), t3);
        crate::io::lemma_concat_assoc(self.health.enc(), self.food.enc(), t2);
        assert(s == t0);
        self.health.lemma_round_trip(t1);
        crate::io::lemma_concat_skip_prefix(self.health.enc(), t1);
        self.food.lemma_round_trip(t2);
        crate::io::lemma_concat_skip_prefix(self.food.enc(), t2);
        crate::io::lemma_skip_of_skip(s, (self.health.enc().len()) as int, self.food.enc().len() as int);
        self.food_saturation.lemma_round_trip(t3);
        crate::io::lemma_concat_skip_prefix(self.food_saturation.enc(), t3);
        crate::io::lemma_skip_of_skip(s, (self.health.enc().len() + self.food.enc().len()) as int, self.food_saturation.enc().len() as int);
    }
}

impl MooshroomPacket for SetHealth {
    open spec fn spec_packet_id() -> i32 {
        85
    }

    fn packet_id() -> (id: i32) {
        85
    }
}

#[derive(Copy, Clone, Debug, Default, PartialEq, Eq)]
pub struct AdvancementDisplayFlags {
    pub has_background_texture: bool,
    pub show_toast: bool,
    pub hidden: bool,
}

impl DeepView for AdvancementDisplayFlags {
    type V = AdvancementDisplayFlags;

    open spec fn deep_view(&self) -> AdvancementDisplayFlags {
        *self
    }
}

impl MooshroomBitFlag for AdvancementDisplayFlags {
    open spec fn spec_value(&self) -> u8 {
        ((if self.has_background_texture { 1int } else { 0int }) + (if self.show_toast { 2int } else { 0int }) + (if self.hidden { 4int } else { 0int })) as u8
    }

    open spec fn spec_from_value(v: u8) -> AdvancementDisplayFlags {
        AdvancementDisplayFlags {
            has_background_texture: (v as int / 1) % 2 == 1,
            show_toast: (v as int / 2) % 2 == 1,
            hidden: (v as int / 4) % 2 == 1,
        }
    }

    #[verifier::rlimit(50)]
    fn from_value(v: u8) -> (r: Self) {
        AdvancementDisplayFlags {
            has_background_texture: (v / 1) % 2 == 1,
            show_toast: (v / 2) % 2 == 1,
            hidden: (v / 4) % 2 == 1,
        }
    }

    #[verifier::rlimit(50)]
    fn to_value(&self) -> (r: u8) {
        let v: u32 = (if self.has_background_texture { 1u32 } else { 0u32 }) + (if self.show_toast { 2u32 } else { 0u32 }) + (if self.hidden { 4u32 } else { 0u32 });
        v as u8
    }
}

impl MooshroomWritable for AdvancementDisplayFlags {
    open spec fn enc(&self) -> Seq<u8> {
        be_enc(self.spec_value() as nat, 1)
    }

    fn write(&self, w: &mut Vec<u8>) {
        let v = self.to_value();
        <u8 as MooshroomWritable>::write(&v, w);
    }
}

impl MooshroomReadable for AdvancementDisplayFlags {
    open spec fn dec(s: Seq<u8>) -> Option<(AdvancementDisplayFlags, int)> {
        if s.len() >= 1 {
            Some((AdvancementDisplayFlags::spec_from_value(s[0]), 1))
        } else {
            None
        }
    }

    fn read(r: &mut Reader) -> (res: Result<Self, MooshroomError>) {
        match r.read_u8() {
            Ok(b) => Ok(AdvancementDisplayFlags::from_value(b)),
            Err(e) => Err(e),
        }
    }
}

impl MooshroomRoundTrip for AdvancementDisplayFlags {
    open spec fn wire_bounded(&self) -> bool {
        true
    }

    proof fn lemma_round_trip(&self, rest: Seq<u8>) {
        let u = self.spec_value() as nat;
        lemma_be_enc_len(u, 1);
        lemma_be_round_trip(u, 1, rest);
        lemma_pow256_values();
        assert((self.enc() + rest)[0] == self.enc()[0]);
        assert(AdvancementDisplayFlags::spec_from_value(self.spec_value()) == *self);
    }
}

#[derive(Debug, Default, PartialEq)]
pub struct AdvancementDisplay {
    pub title: Chat,
    pub description: Chat,
    pub icon: Slot,
    pub frame_type: VarInt,
    pub flags: AdvancementDisplayFlags,
    pub backdround_texture: Option<Identifier>,
    pub x_coord: F32Bits,
    pub y_coord: F32Bits,
}

/// The mathematical value of a `AdvancementDisplay`, for contracts.
pub struct AdvancementDisplayView {
    pub title: Seq<char>,
    pub description: Seq<char>,
    pub icon: Option<SlotDataView>,
    pub frame_type: VarInt,
    pub flags: AdvancementDisplayFlags,
    pub backdround_texture: Option<Seq<char>>,
    pub x_coord: F32Bits,
    pub y_coord: F32Bits,
}

impl DeepView for AdvancementDisplay {
    type V = AdvancementDisplayView;

    open spec fn deep_view(&self) -> AdvancementDisplayView {
        AdvancementDisplayView {
            title: self.title.deep_view(),
            description: self.description.deep_view(),
            icon: self.icon.deep_view(),
            frame_type: self.frame_type.deep_view(),
            flags: self.flags.deep_view(),
            backdround_texture: self.backdround_texture.deep_view(),
            x_coord: self.x_coord.deep_view(),
            y_coord: self.y_coord.deep_view(),
        }
    }
}

impl MooshroomReadable for AdvancementDisplay {
    open spec fn dec(s: Seq<u8>) -> Option<(AdvancementDisplayView, int)> {
        match <String as MooshroomReadable>::dec(s) {
            Some((v0, n0)) => match <String as MooshroomReadable>::dec(s.skip(n0)) {
                Some((v1, n1)) => match <Option<SlotData> as MooshroomReadable>::dec(s.skip(n0 + n1)) {
                    Some((v2, n2)) => match <VarInt as MooshroomReadable>::dec(s.skip(n0 + n1 + n2)) {
                        Some((v3, n3)) => match <AdvancementDisplayFlags as MooshroomReadable>::dec(s.skip(n0 + n1 + n2 + n3)) {
                            Some((v4, n4)) => match dec_background_texture(v4, s.skip(n0 + n1 + n2 + n3 + n4)) {
                                Some((v5, n5)) => match <F32Bits as MooshroomReadable>::dec(s.skip(n0 + n1 + n2 + n3 + n4 + n5)) {
                                    Some((v6, n6)) => match <F32Bits as MooshroomReadable>::dec(s.skip(n0 + n1 + n2 + n3 + n4 + n5 + n6)) {
                                        Some((v7, n7)) => Some((AdvancementDisplayView { title: v0, description: v1, icon: v2, frame_type: v3, flags: v4, backdround_texture: v5, x_coord: v6, y_coord: v7 }, n0 + n1 + n2 + n3 + n4 + n5 + n6 + n7)),
                                        None => None,
                                    },
                                    None => None,
                                },
                                None => None,
                            },
                            None => None,
                        },
                        None => None,
                    },
                    None => None,
                },
                None => None,
            },
            None => None,
        }
    }

    #[verifier::rlimit(100)]
    fn read(r: &mut Reader) -> (res: Result<Self, MooshroomError>) {
        let ghost s0 = old(r).remaining();
        let ghost p0 = old(r).pos();
        let title = match <String as MooshroomReadable>::read(r) {
            Ok(v) => v,
            Err(e) => {
                return Err(e);
            },
        };
        proof {
            assert(r.remaining() =~= s0.skip(r.pos() - p0));
        }
        let description = match <String as MooshroomReadable>::read(r) {
            Ok(v) => v,
            Err(e) => {
                return Err(e);
            },
        };
        proof {
            assert(r.remaining() =~= s0.skip(r.pos() - p0));
        }
        let icon = match <Option<SlotData> as MooshroomReadable>::read(r) {
            Ok(v) => v,
            Err(e) => {
                return Err(e);
            },
        };
        proof {
            assert(r.remaining() =~= s0.skip(r.pos() - p0));
        }
        let frame_type = match <VarInt as MooshroomReadable>::read(r) {
            Ok(v) => v,
            Err(e) => {
                return Err(e);
            },
        };
        proof {
            assert(r.remaining() =~= s0.skip(r.pos() - p0));
        }
        let flags = match <AdvancementDisplayFlags as MooshroomReadable>::read(r) {
            Ok(v) => v,
            Err(e) => {
                return Err(e);
            },
        };
        proof {
            assert(r.remaining() =~= s0.skip(r.pos() - p0));
        }
        let backdround_texture = match read_background_texture(r, &flags) {
            Ok(v) => v,
            Err(e) => {
                return Err(e);
            },
        };
        proof {
            assert(r.remaining() =~= s0.skip(r.pos() - p0));
        }
        let x_coord = match <F32Bits as MooshroomReadable>::read(r) {
            Ok(v) => v,
            Err(e) => {
                return Err(e);
            },
        };
        proof {
            assert(r.remaining() =~= s0.skip(r.pos() - p0));
        }
        let y_coord = match <F32Bits as MooshroomReadable>::read(r) {
            Ok(v) => v,
            Err(e) => {
                return Err(e);
            },
        };
        Ok(AdvancementDisplay { title, description, icon, frame_type, flags, backdround_texture, x_coord, y_coord })
    }
}

#[derive(Copy, Clone, Debug, Default, PartialEq, Eq)]
pub struct AdvancementCriteria {
    pub achieved: bool,
    pub date_of_achieving: i64,
}

impl DeepView for AdvancementCriteria {
    type V = AdvancementCriteria;

    open spec fn deep_view(&self) -> AdvancementCriteria {
        *self
    }
}

impl MooshroomWritable for AdvancementCriteria {
    open spec fn enc(&self) -> Seq<u8> {
        self.achieved.enc() + self.date_of_achieving.enc()
    }

    fn write(&self, w: &mut Vec<u8>) {
        self.achieved.write(w);
        self.date_of_achieving.write(w);
        proof {
            assert(w@ =~= old(w)@ + self.enc());
        }
    }
}

impl MooshroomReadable for AdvancementCriteria {
    open spec fn dec(s: Seq<u8>) -> Option<(AdvancementCriteria, int)> {
        match <bool as MooshroomReadable>::dec(s) {
            Some((v0, n0)) => match <i64 as MooshroomReadable>::dec(s.skip(n0)) {
                Some((v1, n1)) => Some((AdvancementCriteria { achieved: v0, date_of_achieving: v1 }, n0 + n1)),
                None => None,
            },
            None => None,
        }
    }

    fn read(r: &mut Reader) -> (res: Result<Self, MooshroomError>) {
        let ghost s0 = old(r).remaining();
        let ghost p0 = old(r).pos();
        let achieved = match <bool as MooshroomReadable>::read(r) {
            Ok(v) => v,
            Err(e) => {
                return Err(e);
            },
        };
        proof {
            assert(r.remaining() =~= s0.skip(r.pos() - p0));
        }
        let date_of_achieving = match <i64 as MooshroomReadable>::read(r) {
            Ok(v) => v,
            Err(e) => {
                return Err(e);
            },
        };
        Ok(AdvancementCriteria { achieved, date_of_achieving })
    }
}

impl MooshroomRoundTrip for AdvancementCriteria {
    open spec fn wire_bounded(&self) -> bool {
        self.achieved.wire_bounded() && self.date_of_achieving.wire_bounded()
    }

    proof fn lemma_round_trip(&self, rest: Seq<u8>)
    {
        let t2 = rest;
        let t1 = self.date_of_achieving.enc() + t2;
        let t0 = self.achieved.enc() + t1;
        let s = self.enc() + rest;
        crate::io::lemma_concat_assoc(self.achieved.enc(), self.date_of_achieving.enc(), t2);
        assert(s == t0);
        self.achieved.lemma_round_trip(t1);
        crate::io::lemma_concat_skip_prefix(self.achieved.enc(), t1);
        self.date_of_achieving.lemma_round_trip(t2);
        crate::io::lemma_concat_skip_prefix(self.date_of_achieving.enc(), t2);
        crate::io::lemma_skip_of_skip(s, (self.achieved.enc().len()) as int, self.date_of_achieving.enc().len() as int);
    }
}

#[derive(Clone, Debug, Default, PartialEq)]
pub struct ProgressMapping {
    pub key: Identifier,
    pub value: AdvancementCriteria,
}

/// The mathematical value of a `ProgressMapping`, for contracts.
pub struct ProgressMappingView {
    pub key: Seq<char>,
    pub value: AdvancementCriteria,
}

impl DeepView for ProgressMapping {
    type V = ProgressMappingView;

    open spec fn deep_view(&self) -> ProgressMappingView {
        ProgressMappingView {
            key: self.key.deep_view(),
            value: self.value.deep_view(),
        }
    }
}

impl MooshroomWritable for ProgressMapping {
    open spec fn enc(&self) -> Seq<u8> {
        self.key.enc() + self.value.enc()
    }

    fn write(&self, w: &mut Vec<u8>) {
        self.key.write(w);
        self.value.write(w);
        proof {
            assert(w@ =~= old(w)@ + self.enc());
        }
    }
}

impl MooshroomReadable for ProgressMapping {
    open spec fn dec(s: Seq<u8>) -> Option<(ProgressMappingView, int)> {
        match <String as MooshroomReadable>::dec(s) {
            Some((v0, n0)) => match <AdvancementCriteria as MooshroomReadable>::dec(s.skip(n0)) {
                Some((v1, n1)) => Some((ProgressMappingView { key: v0, value: v1 }, n0 + n1)),
                None => None,
            },
            None => None,
        }
    }

    fn read(r: &mut Reader) -> (res: Result<Self, MooshroomError>) {
        let ghost s0 = old(r).remaining();
        let ghost p0 = old(r).pos();
        let key = match <String as MooshroomReadable>::read(r) {
            Ok(v) => v,
            Err(e) => {
                return Err(e);
            },
        };
        proof {
            assert(r.remaining() =~= s0.skip(r.pos() - p0));
        }
        let value = match <AdvancementCriteria as MooshroomReadable>::read(r) {
            Ok(v) => v,
            Err(e) => {
                return Err(e);
            },
        };
        Ok(ProgressMapping { key, value })
    }
}

impl MooshroomRoundTrip for ProgressMapping {
    open spec fn wire_bounded(&self) -> bool {
        self.key.wire_bounded() && self.value.wire_bounded()
    }

    proof fn lemma_round_trip(&self, rest: Seq<u8>)
    {
        let t2 = rest;
        let t1 = self.value.enc() + t2;
        let t0 = self.key.enc() + t1;
        let s = self.enc() + rest;
        crate::io::lemma_concat_assoc(self.key.enc(), self.value.enc(), t2);
        assert(s == t0);
        self.key.lemma_round_trip(t1);
        crate::io::lemma_concat_skip_prefix(self.key.enc(), t1);
        self.value.lemma_round_trip(t2);
        crate::io::lemma_concat_skip_prefix(self.value.enc(), t2);
        crate::io::lemma_skip_of_skip(s, (self.key.enc().len()) as int, self.value.enc().len() as int);
    }
}

#[derive(Debug, Default, PartialEq)]
pub struct Advancement {
    pub parent_id: Option<Identifier>,
    pub display_data: Option<AdvancementDisplay>,
    pub criteria: Vec<Identifier>,
    pub requirements: Vec<AdvancementRequirement>,
}

/// The mathematical value of a `Advancement`, for contracts.
pub struct AdvancementView {
    pub parent_id: Option<Seq<char>>,
    pub display_data: Option<AdvancementDisplayView>,
    pub criteria: Seq<Seq<char>>,
    pub requirements: Seq<Seq<Seq<char>>>,
}

impl DeepView for Advancement {
    type V = AdvancementView;

    open spec fn deep_view(&self) -> AdvancementView {
        AdvancementView {
            parent_id: self.parent_id.deep_view(),
            display_data: self.display_data.deep_view(),
            criteria: self.criteria.deep_view(),
            requirements: self.requirements.deep_view(),
        }
    }
}

impl MooshroomReadable for Advancement {
    open spec fn dec(s: Seq<u8>) -> Option<(AdvancementView, int)> {
        match <Option<Identifier> as MooshroomReadable>::dec(s) {
            Some((v0, n0)) => match <Option<AdvancementDisplay> as MooshroomReadable>::dec(s.skip(n0)) {
                Some((v1, n1)) => match <Vec<Identifier> as MooshroomReadable>::dec(s.skip(n0 + n1)) {
                    Some((v2, n2)) => match <Vec<AdvancementRequirement> as MooshroomReadable>::dec(s.skip(n0 + n1 + n2)) {
                        Some((v3, n3)) => Some((AdvancementView { parent_id: v0, display_data: v1, criteria: v2, requirements: v3 }, n0 + n1 + n2 + n3)),
                        None => None,
                    },
                    None => None,
                },
                None => None,
            },
            None => None,
        }
    }

    fn read(r: &mut Reader) -> (res: Result<Self, MooshroomError>) {
        let ghost s0 = old(r).remaining();
        let ghost p0 = old(r).pos();
        let parent_id = match <Option<Identifier> as MooshroomReadable>::read(r) {
            Ok(v) => v,
            Err(e) => {
                return Err(e);
            },
        };
        proof {
            assert(r.remaining() =~= s0.skip(r.pos() - p0));
        }
        let display_data = match <Option<AdvancementDisplay> as MooshroomReadable>::read(r) {
            Ok(v) => v,
            Err(e) => {
                return Err(e);
            },
        };
        proof {
            assert(r.remaining() =~= s0.skip(r.pos() - p0));
        }
        let criteria = match <Vec<Identifier> as MooshroomReadable>::read(r) {
            Ok(v) => v,
            Err(e) => {
                return Err(e);
            },
        };
        proof {
            assert(r.remaining() =~= s0.skip(r.pos() - p0));
        }
        let requirements = match <Vec<AdvancementRequirement> as MooshroomReadable>::read(r) {
            Ok(v) => v,
            Err(e) => {
                return Err(e);
            },
        };
        Ok(Advancement { parent_id, display_data, criteria, requirements })
    }
}

#[derive(Debug, Default, PartialEq)]
pub struct AdvancementMapping {
    pub key: Identifier,
    pub value: Advancement,
}

/// The mathematical value of a `AdvancementMapping`, for contracts.
pub struct AdvancementMappingView {
    pub key: Seq<char>,
    pub value: AdvancementView,
}

impl DeepView for AdvancementMapping {
    type V = AdvancementMappingView;

    open spec fn deep_view(&self) -> AdvancementMappingView {
        AdvancementMappingView {
            key: self.key.deep_view(),
            value: self.value.deep_view(),
        }
    }
}

impl MooshroomReadable for AdvancementMapping {
    open spec fn dec(s: Seq<u8>) -> Option<(AdvancementMappingView, int)> {
        match <String as MooshroomReadable>::dec(s) {
            Some((v0, n0)) => match <Advancement as MooshroomReadable>::dec(s.skip(n0)) {
                Some((v1, n1)) => Some((AdvancementMappingView { key: v0, value: v1 }, n0 + n1)),
                None => None,
            },
            None => None,
        }
    }

    fn read(r: &mut Reader) -> (res: Result<Self, MooshroomError>) {
        let ghost s0 = old(r).remaining();
        let ghost p0 = old(r).pos();
        let key = match <String as MooshroomReadable>::read(r) {
            Ok(v) => v,
            Err(e) => {
                return Err(e);
            },
        };
        proof {
            assert(r.remaining() =~= s0.skip(r.pos() - p0));
        }
        let value = match <Advancement as MooshroomReadable>::read(r) {
            Ok(v) => v,
            Err(e) => {
                return Err(e);
            },
        };
        Ok(AdvancementMapping { key, value })
    }
}

#[derive(Debug, Default, PartialEq)]
pub struct UpdateAdvancements {
    pub clear: bool,
    pub advancement_mapping: Vec<AdvancementMapping>,
    pub identifiers: Vec<Identifier>,
    pub progress_mapping: Vec<ProgressMapping>,
}

/// The mathematical value of a `UpdateAdvancements`, for contracts.
pub struct UpdateAdvancementsView {
    pub clear: bool,
    pub advancement_mapping: Seq<AdvancementMappingView>,
    pub identifiers: Seq<Seq<char>>,
    pub progress_mapping: Seq<ProgressMappingView>,
}

impl DeepView for UpdateAdvancements {
    type V = UpdateAdvancementsView;

    open spec fn deep_view(&self) -> UpdateAdvancementsView {
        UpdateAdvancementsView {
            clear: self.clear.deep_view(),
            advancement_mapping: self.advancement_mapping.deep_view(),
            identifiers: self.identifiers.deep_view(),
            progress_mapping: self.progress_mapping.deep_view(),
        }
    }
}

impl MooshroomReadable for UpdateAdvancements {
    open spec fn dec(s: Seq<u8>) -> Option<(UpdateAdvancementsView, int)> {
        match <bool as MooshroomReadable>::dec(s) {
            Some((v0, n0)) => match <Vec<AdvancementMapping> as MooshroomReadable>::dec(s.skip(n0)) {
                Some((v1, n1)) => match <Vec<Identifier> as MooshroomReadable>::dec(s.skip(n0 + n1)) {
                    Some((v2, n2)) => match <Vec<ProgressMapping> as MooshroomReadable>::dec(s.skip(n0 + n1 + n2)) {
                        Some((v3, n3)) => Some((UpdateAdvancementsView { clear: v0, advancement_mapping: v1, identifiers: v2, progress_mapping: v3 }, n0 + n1 + n2 + n3)),
                        None => None,
                    },
                    None => None,
                },
                None => None,
            },
            None => None,
        }
    }

    #[verifier::rlimit(100)]
    fn read(r: &mut Reader) -> (res: Result<Self, MooshroomError>) {
        let ghost s0 = old(r).remaining();
        let ghost p0 = old(r).pos();
        let clear = match <bool as MooshroomReadable>::read(r) {
            Ok(v) => v,
            Err(e) => {
                return Err(e);
            },
        };
        proof {
            assert(r.remaining() =~= s0.skip(r.pos() - p0));
        }
        let advancement_mapping = match <Vec<AdvancementMapping> as MooshroomReadable>::read(r) {
            Ok(v) => v,
            Err(e) => {
                return Err(e);
            },
        };
        proof {
            assert(r.remaining() =~= s0.skip(r.pos() - p0));
        }
        let identifiers = match <Vec<Identifier> as MooshroomReadable>::read(r) {
            Ok(v) => v,
            Err(e) => {
                return Err(e);
            },
        };
        proof {
            assert(r.remaining() =~= s0.skip(r.pos() - p0));
        }
        let progress_mapping = match <Vec<ProgressMapping> as MooshroomReadable>::read(r) {
            Ok(v) => v,
            Err(e) => {
                return Err(e);
            },
        };
        Ok(UpdateAdvancements { clear, advancement_mapping, identifiers, progress_mapping })
    }
}

impl MooshroomPacket for UpdateAdvancements {
    open spec fn spec_packet_id() -> i32 {
        103
    }

    fn packet_id() -> (id: i32) {
        103
    }
}


/// An advancement requirement group: any one entry fulfils the group.
pub type AdvancementRequirement = Vec<String>;

/// The background texture follows exactly when the display flags carry
/// `has_background_texture`.
pub open spec fn dec_background_texture(flags: AdvancementDisplayFlags, s: Seq<u8>) -> Option<
    (Option<Seq<char>>, int),
> {
    if flags.has_background_texture {
        match <Identifier as MooshroomReadable>::dec(s) {
            Some((v, n)) => Some((Some(v), n)),
            None => None,
        }
    } else {
        Some((None, 0))
    }
}

/// Read the conditional background texture, gated by the already-read
/// display flags.
pub fn read_background_texture(r: &mut Reader, flags: &AdvancementDisplayFlags) -> (res: Result<
    Option<Identifier>,
    MooshroomError,
>)
    requires
        old(r).wf(),
    ensures
        final(r).wf(),
        final(r).data() == old(r).data(),
        final(r).pos() >= old(r).pos(),
        match res {
            Ok(v) => dec_background_texture(*flags, old(r).remaining()) == Some(
                (v.deep_view(), final(r).pos() - old(r).pos()),
            ),
            Err(_) => dec_background_texture(*flags, old(r).remaining()) is None,
        },
{
    if flags.has_background_texture {
        match <Identifier as MooshroomReadable>::read(r) {
            Ok(v) => Ok(Some(v)),
            Err(e) => Err(e),
        }
    } else {
        Ok(None)
    }
}

} // verus!
