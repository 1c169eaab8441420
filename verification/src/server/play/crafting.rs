use vstd::prelude::*;

#[allow(unused_imports)]
use crate::containers::{Json, TOption};
#[allow(unused_imports)]
use crate::data::{
    MooshroomBitFlag, MooshroomCollection, MooshroomCollectionWrite, MooshroomIdentifiable,
    MooshroomUpdatable, MooshroomValue,
};
#[allow(unused_imports)]
use crate::error::MooshroomError;
#[allow(unused_imports)]
use crate::io::{
    MooshroomCommand, MooshroomPacket, MooshroomReadable, MooshroomRoundTrip, MooshroomWritable,
};
#[allow(unused_imports)]
use crate::primitives::{
    be_dec, be_enc, lemma_be_dec_bound, lemma_be_enc_len, lemma_be_round_trip,
    lemma_pow256_values, sig_to_un,
    str_eq, un_to_sig, F32Bits, F64Bits, Identifier, Position, Uuid, Vec3,
};
#[allow(unused_imports)]
use crate::reader::Reader;
#[allow(unused_imports)]
use crate::varint::{
    lemma_varint_round_trip, read_varint, varint_dec, varint_enc, write_varint, VarInt, VarLong,
};
#[allow(unused_imports)]
use vstd::string::StringExecFns;
#[allow(unused_imports)]
use super::nbt::NptCompound;

verus! {

#[derive(Copy, Clone, Debug, Default, PartialEq, Eq)]
pub struct CloseContainer(pub u8);

impl DeepView for CloseContainer {
    type V = CloseContainer;

    open spec fn deep_view(&self) -> CloseContainer {
        *self
    }
}

impl MooshroomWritable for CloseContainer {
    open spec fn enc(&self) -> Seq<u8> {
        self.0.enc()
    }

    fn write(&self, w: &mut Vec<u8>) {
        self.0.write(w);
        proof {
            assert(w@ =~= old(w)@ + self.enc());
        }
    }
}

impl MooshroomReadable for CloseContainer {
    open spec fn dec(s: Seq<u8>) -> Option<(CloseContainer, int)> {
        match <u8 as MooshroomReadable>::dec(s) {
            Some((v0, n0)) => Some((CloseContainer(v0), n0)),
            None => None,
        }
    }

    fn read(r: &mut Reader) -> (res: Result<Self, MooshroomError>) {
        let ghost s0 = old(r).remaining();
        let ghost p0 = old(r).pos();
        let f0 = match <u8 as MooshroomReadable>::read(r) {
            Ok(v) => v,
            Err(e) => {
                return Err(e);
            },
        };
        Ok(CloseContainer(f0))
    }
}

impl MooshroomRoundTrip for CloseContainer {
    open spec fn wire_bounded(&self) -> bool {
        self.0.wire_bounded()
    }

    proof fn lemma_round_trip(&self, rest: Seq<u8>)
    {
        let t1 = rest;
        let t0 = self.0.enc() + t1;
        let s = self.enc() + rest;
        assert(s == t0);
        self.0.lemma_round_trip(t1);
        crate::io::lemma_concat_skip_prefix(self.0.enc(), t1);
    }
}

impl MooshroomPacket for CloseContainer {
    open spec fn spec_packet_id() -> i32 {
        16
    }

    fn packet_id() -> (id: i32) {
        16
    }
}

/// One occupied inventory slot; its extra data is an NBT tree.
#[derive(Debug, Default, PartialEq)]
pub struct SlotData {
    pub item_id: VarInt,
    pub item_count: u8,
    pub nbt: NptCompound,
}

/// The mathematical value of a `SlotData`, for contracts.
pub struct SlotDataView {
    pub item_id: VarInt,
    pub item_count: u8,
    pub nbt: Seq<u8>,
}

impl DeepView for SlotData {
    type V = SlotDataView;

    open spec fn deep_view(&self) -> SlotDataView {
        SlotDataView {
            item_id: self.item_id.deep_view(),
            item_count: self.item_count.deep_view(),
            nbt: self.nbt.deep_view(),
        }
    }
}

impl MooshroomReadable for SlotData {
    open spec fn dec(s: Seq<u8>) -> Option<(SlotDataView, int)> {
        match <VarInt as MooshroomReadable>::dec(s) {
            Some((v0, n0)) => match <u8 as MooshroomReadable>::dec(s.skip(n0)) {
                Some((v1, n1)) => match <NptCompound as MooshroomReadable>::dec(s.skip(n0 + n1)) {
                    Some((v2, n2)) => Some((SlotDataView { item_id: v0, item_count: v1, nbt: v2 }, n0 + n1 + n2)),
                    None => None,
                },
                None => None,
            },
            None => None,
        }
    }

    fn read(r: &mut Reader) -> (res: Result<Self, MooshroomError>) {
        let ghost s0 = old(r).remaining();
        let ghost p0 = old(r).pos();
        let item_id = match <VarInt as MooshroomReadable>::read(r) {
            Ok(v) => v,
            Err(e) => {
                return Err(e);
            },
        };
        proof {
            assert(r.remaining() =~= s0.skip(r.pos() - p0));
        }
        let item_count = match <u8 as MooshroomReadable>::read(r) {
            Ok(v) => v,
            Err(e) => {
                return Err(e);
            },
        };
        proof {
            assert(r.remaining() =~= s0.skip(r.pos() - p0));
        }
        let nbt = match <NptCompound as MooshroomReadable>::read(r) {
            Ok(v) => v,
            Err(e) => {
                return Err(e);
            },
        };
        Ok(SlotData { item_id, item_count, nbt })
    }
}

#[derive(Debug, Default, PartialEq)]
pub struct SetContainerContent {
    pub window_id: u8,
    pub state_id: VarInt,
    pub slot_data: Vec<Slot>,
    pub carried_item: Slot,
}

/// The mathematical value of a `SetContainerContent`, for contracts.
pub struct SetContainerContentView {
    pub window_id: u8,
    pub state_id: VarInt,
    pub slot_data: Seq<Option<SlotDataView>>,
    pub carried_item: Option<SlotDataView>,
}

impl DeepView for SetContainerContent {
    type V = SetContainerContentView;

    open spec fn deep_view(&self) -> SetContainerContentView {
        SetContainerContentView {
            window_id: self.window_id.deep_view(),
            state_id: self.state_id.deep_view(),
            slot_data: self.slot_data.deep_view(),
            carried_item: self.carried_item.deep_view(),
        }
    }
}

impl MooshroomReadable for SetContainerContent {
    open spec fn dec(s: Seq<u8>) -> Option<(SetContainerContentView, int)> {
        match <u8 as MooshroomReadable>::dec(s) {
            Some((v0, n0)) => match <VarInt as MooshroomReadable>::dec(s.skip(n0)) {
                Some((v1, n1)) => match <Vec<Slot> as MooshroomReadable>::dec(s.skip(n0 + n1)) {
                    Some((v2, n2)) => match <Option<SlotData> as MooshroomReadable>::dec(s.skip(n0 + n1 + n2)) {
                        Some((v3, n3)) => Some((SetContainerContentView { window_id: v0, state_id: v1, slot_data: v2, carried_item: v3 }, n0 + n1 + n2 + n3)),
                        None => None,
                    },
                    None => None,
                },
                None => None,
            },
            None => None,
        }
    }

    fn read(r: &mut Reader) -> (res: Result<Self, MooshroomError>) {
        let ghost s0 = old(r).remaining();
        let ghost p0 = old(r).pos();
        let window_id = match <u8 as MooshroomReadable>::read(r) {
            Ok(v) => v,
            Err(e) => {
                return Err(e);
            },
        };
        proof {
            assert(r.remaining() =~= s0.skip(r.pos() - p0));
        }
        let state_id = match <VarInt as MooshroomReadable>::read(r) {
            Ok(v) => v,
            Err(e) => {
                return Err(e);
            },
        };
        proof {
            assert(r.remaining() =~= s0.skip(r.pos() - p0));
        }
        let slot_data = match <Vec<Slot> as MooshroomReadable>::read(r) {
            Ok(v) => v,
            Err(e) => {
                return Err(e);
            },
        };
        proof {
            assert(r.remaining() =~= s0.skip(r.pos() - p0));
        }
        let carried_item = match <Option<SlotData> as MooshroomReadable>::read(r) {
            Ok(v) => v,
            Err(e) => {
                return Err(e);
            },
        };
        Ok(SetContainerContent { window_id, state_id, slot_data, carried_item })
    }
}

impl MooshroomPacket for SetContainerContent {
    open spec fn spec_packet_id() -> i32 {
        17
    }

    fn packet_id() -> (id: i32) {
        17
    }
}

#[derive(Debug, Default, PartialEq)]
pub struct SetContainerSlot {
    pub window_id: u8,
    pub state_id: VarInt,
    pub slot: u16,
    pub carried_item: Slot,
}

/// The mathematical value of a `SetContainerSlot`, for contracts.
pub struct SetContainerSlotView {
    pub window_id: u8,
    pub state_id: VarInt,
    pub slot: u16,
    pub carried_item: Option<SlotDataView>,
}

impl DeepView for SetContainerSlot {
    type V = SetContainerSlotView;

    open spec fn deep_view(&self) -> SetContainerSlotView {
        SetContainerSlotView {
            window_id: self.window_id.deep_view(),
            state_id: self.state_id.deep_view(),
            slot: self.slot.deep_view(),
            carried_item: self.carried_item.deep_view(),
        }
    }
}

impl MooshroomReadable for SetContainerSlot {
    open spec fn dec(s: Seq<u8>) -> Option<(SetContainerSlotView, int)> {
        match <u8 as MooshroomReadable>::dec(s) {
            Some((v0, n0)) => match <VarInt as MooshroomReadable>::dec(s.skip(n0)) {
                Some((v1, n1)) => match <u16 as MooshroomReadable>::dec(s.skip(n0 + n1)) {
                    Some((v2, n2)) => match <Option<SlotData> as MooshroomReadable>::dec(s.skip(n0 + n1 + n2)) {
                        Some((v3, n3)) => Some((SetContainerSlotView { window_id: v0, state_id: v1, slot: v2, carried_item: v3 }, n0 + n1 + n2 + n3)),
                        None => None,
                    },
                    None => None,
                },
                None => None,
            },
            None => None,
        }
    }

    fn read(r: &mut Reader) -> (res: Result<Self, MooshroomError>) {
        let ghost s0 = old(r).remaining();
        let ghost p0 = old(r).pos();
        let window_id = match <u8 as MooshroomReadable>::read(r) {
            Ok(v) => v,
            Err(e) => {
                return Err(e);
            },
        };
        proof {
            assert(r.remaining() =~= s0.skip(r.pos() - p0));
        }
        let state_id = match <VarInt as MooshroomReadable>::read(r) {
            Ok(v) => v,
            Err(e) => {
                return Err(e);
            },
        };
        proof {
            assert(r.remaining() =~= s0.skip(r.pos() - p0));
        }
        let slot = match <u16 as MooshroomReadable>::read(r) {
            Ok(v) => v,
            Err(e) => {
                return Err(e);
            },
        };
        proof {
            assert(r.remaining() =~= s0.skip(r.pos() - p0));
        }
        let carried_item = match <Option<SlotData> as MooshroomReadable>::read(r) {
            Ok(v) => v,
            Err(e) => {
                return Err(e);
            },
        };
        Ok(SetContainerSlot { window_id, state_id, slot, carried_item })
    }
}

impl MooshroomPacket for SetContainerSlot {
    open spec fn spec_packet_id() -> i32 {
        19
    }

    fn packet_id() -> (id: i32) {
        19
    }
}

#[derive(Copy, Clone, Debug, Default, PartialEq, Eq)]
pub struct OpenHorseScreen;

impl DeepView for OpenHorseScreen {
    type V = OpenHorseScreen;

    open spec fn deep_view(&self) -> OpenHorseScreen {
        *self
    }
}

impl MooshroomWritable for OpenHorseScreen {
    open spec fn enc(&self) -> Seq<u8> {
        Seq::empty()
    }

    fn write(&self, w: &mut Vec<u8>) {
        proof {
            assert(w@ =~= old(w)@ + self.enc());
        }
    }
}

impl MooshroomReadable for OpenHorseScreen {
    open spec fn dec(s: Seq<u8>) -> Option<(OpenHorseScreen, int)> {
        Some((OpenHorseScreen, 0))
    }

    fn read(r: &mut Reader) -> (res: Result<Self, MooshroomError>) {
        Ok(OpenHorseScreen)
    }
}

impl MooshroomRoundTrip for OpenHorseScreen {
    open spec fn wire_bounded(&self) -> bool {
        true
    }

    proof fn lemma_round_trip(&self, rest: Seq<u8>)
    {
        assert(self.enc() + rest =~= rest);
    }
}

impl MooshroomPacket for OpenHorseScreen {
    open spec fn spec_packet_id() -> i32 {
        29
    }

    fn packet_id() -> (id: i32) {
        29
    }
}


/// A possibly empty inventory slot.
pub type Slot = Option<SlotData>;

} // verus!
