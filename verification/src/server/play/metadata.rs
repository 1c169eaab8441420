use vstd::prelude::*;

#[allow(unused_imports)]
use crate::containers::{Json, TOption};
#[allow(unused_imports)]
use crate::data::{
    MooshroomBitFlag, MooshroomCollection, MooshroomCollectionWrite, MooshroomIdentifiable,
    MooshroomUpdatable, MooshroomValue,
};
#[allow(unused_imports)]
use crate::error::MooshroomError;
#[allow(unused_imports)]
use crate::io::{
    MooshroomCommand, MooshroomPacket, MooshroomReadable, MooshroomRoundTrip, MooshroomWritable,
};
#[allow(unused_imports)]
use crate::primitives::{
    be_dec, be_enc, lemma_be_dec_bound, lemma_be_enc_len, lemma_be_round_trip,
    lemma_pow256_values, sig_to_un,
    str_eq, un_to_sig, F32Bits, F64Bits, Identifier, Position, Uuid, Vec3,
};
#[allow(unused_imports)]
use crate::reader::Reader;
#[allow(unused_imports)]
use crate::varint::{
    lemma_varint_round_trip, read_varint, varint_dec, varint_enc, write_varint, VarInt, VarLong,
};
#[allow(unused_imports)]
use vstd::string::StringExecFns;
#[allow(unused_imports)]
use super::crafting::{Slot, SlotData, SlotDataView};
#[allow(unused_imports)]
use crate::primitives::{dec_elems, read_elems};

verus! {

#[derive(Clone, Debug, Default, PartialEq)]
pub struct Node {
    pub flag: u8,
    pub children: Vec<VarInt>,
}

/// The mathematical value of a `Node`, for contracts.
pub struct NodeView {
    pub flag: u8,
    pub children: Seq<VarInt>,
}

impl DeepView for Node {
    type V = NodeView;

    open spec fn deep_view(&self) -> NodeView {
        NodeView {
            flag: self.flag.deep_view(),
            children: self.children.deep_view(),
        }
    }
}

impl MooshroomWritable for Node {
    open spec fn enc(&self) -> Seq<u8> {
        self.flag.enc() + self.children.enc()
    }

    fn write(&self, w: &mut Vec<u8>) {
        self.flag.write(w);
        self.children.write(w);
        proof {
            assert(w@ =~= old(w)@ + self.enc());
        }
    }
}

impl MooshroomReadable for Node {
    open spec fn dec(s: Seq<u8>) -> Option<(NodeView, int)> {
        match <u8 as MooshroomReadable>::dec(s) {
            Some((v0, n0)) => match <Vec<VarInt> as MooshroomReadable>::dec(s.skip(n0)) {
                Some((v1, n1)) => Some((NodeView { flag: v0, children: v1 }, n0 + n1)),
                None => None,
            },
            None => None,
        }
    }

    fn read(r: &mut Reader) -> (res: Result<Self, MooshroomError>) {
        let ghost s0 = old(r).remaining();
        let ghost p0 = old(r).pos();
        let flag = match <u8 as MooshroomReadable>::read(r) {
            Ok(v) => v,
            Err(e) => {
                return Err(e);
            },
        };
        proof {
            assert(r.remaining() =~= s0.skip(r.pos() - p0));
        }
        let children = match <Vec<VarInt> as MooshroomReadable>::read(r) {
            Ok(v) => v,
            Err(e) => {
                return Err(e);
            },
        };
        Ok(Node { flag, children })
    }
}

impl MooshroomRoundTrip for Node {
    open spec fn wire_bounded(&self) -> bool {
        self.flag.wire_bounded() && self.children.wire_bounded()
    }

    proof fn lemma_round_trip(&self, rest: Seq<u8>)
    {
        let t2 = rest;
        let t1 = self.children.enc() + t2;
        let t0 = self.flag.enc() + t1;
        let s = self.enc() + rest;
        crate::io::lemma_concat_assoc(self.flag.enc(), self.children.enc(), t2);
        assert(s == t0);
        self.flag.lemma_round_trip(t1);
        crate::io::lemma_concat_skip_prefix(self.flag.enc(), t1);
        self.children.lemma_round_trip(t2);
        crate::io::lemma_concat_skip_prefix(self.children.enc(), t2);
        crate::io::lemma_skip_of_skip(s, (self.flag.enc().len()) as int, self.children.enc().len() as int);
    }
}

#[derive(Clone, Debug, Default, PartialEq)]
pub struct Commands {
    pub motd: Option<String>,
    pub icon: Option<String>,
    pub previews_chat: bool,
    pub enforce_secure_chat: bool,
}

/// The mathematical value of a `Commands`, for contracts.
pub struct CommandsView {
    pub motd: Option<Seq<char>>,
    pub icon: Option<Seq<char>>,
    pub previews_chat: bool,
    pub enforce_secure_chat: bool,
}

impl DeepView for Commands {
    type V = CommandsView;

    open spec fn deep_view(&self) -> CommandsView {
        CommandsView {
            motd: self.motd.deep_view(),
            icon: self.icon.deep_view(),
            previews_chat: self.previews_chat.deep_view(),
            enforce_secure_chat: self.enforce_secure_chat.deep_view(),
        }
    }
}

impl MooshroomWritable for Commands {
    open spec fn enc(&self) -> Seq<u8> {
        self.motd.enc() + self.icon.enc() + self.previews_chat.enc() + self.enforce_secure_chat.enc()
    }

    fn write(&self, w: &mut Vec<u8>) {
        self.motd.write(w);
        self.icon.write(w);
        self.previews_chat.write(w);
        self.enforce_secure_chat.write(w);
        proof {
            assert(w@ =~= old(w)@ + self.enc());
        }
    }
}

impl MooshroomReadable for Commands {
    open spec fn dec(s: Seq<u8>) -> Option<(CommandsView, int)> {
        match <Option<String> as MooshroomReadable>::dec(s) {
            Some((v0, n0)) => match <Option<String> as MooshroomReadable>::dec(s.skip(n0)) {
                Some((v1, n1)) => match <bool as MooshroomReadable>::dec(s.skip(n0 + n1)) {
                    Some((v2, n2)) => match <bool as MooshroomReadable>::dec(s.skip(n0 + n1 + n2)) {
                        Some((v3, n3)) => Some((CommandsView { motd: v0, icon: v1, previews_chat: v2, enforce_secure_chat: v3 }, n0 + n1 + n2 + n3)),
                        None => None,
                    },
                    None => None,
                },
                None => None,
            },
            None => None,
        }
    }

    fn read(r: &mut Reader) -> (res: Result<Self, MooshroomError>) {
        let ghost s0 = old(r).remaining();
        let ghost p0 = old(r).pos();
        let motd = match <Option<String> as MooshroomReadable>::read(r) {
            Ok(v) => v,
            Err(e) => {
                return Err(e);
            },
        };
        proof {
            assert(r.remaining() =~= s0.skip(r.pos() - p0));
        }
        let icon = match <Option<String> as MooshroomReadable>::read(r) {
            Ok(v) => v,
            Err(e) => {
                return Err(e);
            },
        };
        proof {
            assert(r.remaining() =~= s0.skip(r.pos() - p0));
        }
        let previews_chat = match <bool as MooshroomReadable>::read(r) {
            Ok(v) => v,
            Err(e) => {
                return Err(e);
            },
        };
        proof {
            assert(r.remaining() =~= s0.skip(r.pos() - p0));
        }
        let enforce_secure_chat = match <bool as MooshroomReadable>::read(r) {
            Ok(v) => v,
            Err(e) => {
                return Err(e);
            },
        };
        Ok(Commands { motd, icon, previews_chat, enforce_secure_chat })
    }
}

impl MooshroomRoundTrip for Commands {
    open spec fn wire_bounded(&self) -> bool {
        self.motd.wire_bounded() && self.icon.wire_bounded() && self.previews_chat.wire_bounded() && self.enforce_secure_chat.wire_bounded()
    }

    #[verifier::rlimit(100)]
    proof fn lemma_round_trip(&self, rest: Seq<u8>)
    {
        let t4 = rest;
        let t3 = self.enforce_secure_chat.enc() + t4;
        let t2 = self.previews_chat.enc() + t3;
        let t1 = self.icon.enc() + t2;
        let t0 = self.motd.enc() + t1;
        let s = self.enc() + rest;
        crate::io::lemma_concat_assoc(self.motd.enc() + self.icon.enc() + self.previews_chat.enc(), self.enforce_secure_chat.enc(), t4);
        crate::io::lemma_concat_assoc(self.motd.enc() + self.icon.enc(), self.previews_chat.enc(), t3);
        crate::io::lemma_concat_assoc(self.motd.enc(), self.icon.enc(), t2);
        assert(s == t0);
        self.motd.lemma_round_trip(t1);
        crate::io::lemma_concat_skip_prefix(self.motd.enc(), t1);
        self.icon.lemma_round_trip(t2);
        crate::io::lemma_concat_skip_prefix(self.icon.enc(), t2);
        crate::io::lemma_skip_of_skip(s, (self.motd.enc().len()) as int, self.icon.enc().len() as int);
        self.previews_chat.lemma_round_trip(t3);
        crate::io::lemma_concat_skip_prefix(self.previews_chat.enc(), t3);
        crate::io::lemma_skip_of_skip(s, (self.motd.enc().len() + self.icon.enc().len()) as int, self.previews_chat.enc().len() as int);
        self.enforce_secure_chat.lemma_round_trip(t4);
        crate::io::lemma_concat_skip_prefix(self.enforce_secure_chat.enc(), t4);
        crate::io::lemma_skip_of_skip(s, (self.motd.enc().len() + self.icon.enc().len() + self.previews_chat.enc().len()) as int, self.enforce_secure_chat.enc().len() as int);
    }
}

impl MooshroomPacket for Commands {
    open spec fn spec_packet_id() -> i32 {
        15
    }

    fn packet_id() -> (id: i32) {
        15
    }
}

/// A liveness probe; the client must echo the token back.
#[derive(Copy, Clone, Debug, Default, PartialEq, Eq)]
pub struct KeepAlive(pub i64);

impl DeepView for KeepAlive {
    type V = KeepAlive;

    open spec fn deep_view(&self) -> KeepAlive {
        *self
    }
}

impl MooshroomWritable for KeepAlive {
    open spec fn enc(&self) -> Seq<u8> {
        self.0.enc()
    }

    fn write(&self, w: &mut Vec<u8>) {
        self.0.write(w);
        proof {
            assert(w@ =~= old(w)@ + self.enc());
        }
    }
}

impl MooshroomReadable for KeepAlive {
    open spec fn dec(s: Seq<u8>) -> Option<(KeepAlive, int)> {
        match <i64 as MooshroomReadable>::dec(s) {
            Some((v0, n0)) => Some((KeepAlive(v0), n0)),
            None => None,
        }
    }

    fn read(r: &mut Reader) -> (res: Result<Self, MooshroomError>) {
        let ghost s0 = old(r).remaining();
        let ghost p0 = old(r).pos();
        let f0 = match <i64 as MooshroomReadable>::read(r) {
            Ok(v) => v,
            Err(e) => {
                return Err(e);
            },
        };
        Ok(KeepAlive(f0))
    }
}

impl MooshroomRoundTrip for KeepAlive {
    open spec fn wire_bounded(&self) -> bool {
        self.0.wire_bounded()
    }

    proof fn lemma_round_trip(&self, rest: Seq<u8>)
    {
        let t1 = rest;
        let t0 = self.0.enc() + t1;
        let s = self.enc() + rest;
        assert(s == t0);
        self.0.lemma_round_trip(t1);
        crate::io::lemma_concat_skip_prefix(self.0.enc(), t1);
    }
}

impl MooshroomPacket for KeepAlive {
    open spec fn spec_packet_id() -> i32 {
        32
    }

    fn packet_id() -> (id: i32) {
        32
    }
}

#[derive(Clone, Debug, Default, PartialEq)]
pub struct ServerData {
    pub motd: Option<String>,
    pub icon: Option<String>,
    pub previews_chat: bool,
    pub enforce_secure_chat: bool,
}

/// The mathematical value of a `ServerData`, for contracts.
pub struct ServerDataView {
    pub motd: Option<Seq<char>>,
    pub icon: Option<Seq<char>>,
    pub previews_chat: bool,
    pub enforce_secure_chat: bool,
}

impl DeepView for ServerData {
    type V = ServerDataView;

    open spec fn deep_view(&self) -> ServerDataView {
        ServerDataView {
            motd: self.motd.deep_view(),
            icon: self.icon.deep_view(),
            previews_chat: self.previews_chat.deep_view(),
            enforce_secure_chat: self.enforce_secure_chat.deep_view(),
        }
    }
}

impl MooshroomWritable for ServerData {
    open spec fn enc(&self) -> Seq<u8> {
        self.motd.enc() + self.icon.enc() + self.previews_chat.enc() + self.enforce_secure_chat.enc()
    }

    fn write(&self, w: &mut Vec<u8>) {
        self.motd.write(w);
        self.icon.write(w);
        self.previews_chat.write(w);
        self.enforce_secure_chat.write(w);
        proof {
            assert(w@ =~= old(w)@ + self.enc());
        }
    }
}

impl MooshroomReadable for ServerData {
    open spec fn dec(s: Seq<u8>) -> Option<(ServerDataView, int)> {
        match <Option<String> as MooshroomReadable>::dec(s) {
            Some((v0, n0)) => match <Option<String> as MooshroomReadable>::dec(s.skip(n0)) {
                Some((v1, n1)) => match <bool as MooshroomReadable>::dec(s.skip(n0 + n1)) {
                    Some((v2, n2)) => match <bool as MooshroomReadable>::dec(s.skip(n0 + n1 + n2)) {
                        Some((v3, n3)) => Some((ServerDataView { motd: v0, icon: v1, previews_chat: v2, enforce_secure_chat: v3 }, n0 + n1 + n2 + n3)),
                        None => None,
                    },
                    None => None,
                },
                None => None,
            },
            None => None,
        }
    }

    fn read(r: &mut Reader) -> (res: Result<Self, MooshroomError>) {
        let ghost s0 = old(r).remaining();
        let ghost p0 = old(r).pos();
        let motd = match <Option<String> as MooshroomReadable>::read(r) {
            Ok(v) => v,
            Err(e) => {
                return Err(e);
            },
        };
        proof {
            assert(r.remaining() =~= s0.skip(r.pos() - p0));
        }
        let icon = match <Option<String> as MooshroomReadable>::read(r) {
            Ok(v) => v,
            Err(e) => {
                return Err(e);
            },
        };
        proof {
            assert(r.remaining() =~= s0.skip(r.pos() - p0));
        }
        let previews_chat = match <bool as MooshroomReadable>::read(r) {
            Ok(v) => v,
            Err(e) => {
                return Err(e);
            },
        };
        proof {
            assert(r.remaining() =~= s0.skip(r.pos() - p0));
        }
        let enforce_secure_chat = match <bool as MooshroomReadable>::read(r) {
            Ok(v) => v,
            Err(e) => {
                return Err(e);
            },
        };
        Ok(ServerData { motd, icon, previews_chat, enforce_secure_chat })
    }
}

impl MooshroomRoundTrip for ServerData {
    open spec fn wire_bounded(&self) -> bool {
        self.motd.wire_bounded() && self.icon.wire_bounded() && self.previews_chat.wire_bounded() && self.enforce_secure_chat.wire_bounded()
    }

    #[verifier::rlimit(100)]
    proof fn lemma_round_trip(&self, rest: Seq<u8>)
    {
        let t4 = rest;
        let t3 = self.enforce_secure_chat.enc() + t4;
        let t2 = self.previews_chat.enc() + t3;
        let t1 = self.icon.enc() + t2;
        let t0 = self.motd.enc() + t1;
        let s = self.enc() + rest;
        crate::io::lemma_concat_assoc(self.motd.enc() + self.icon.enc() + self.previews_chat.enc(), self.enforce_secure_chat.enc(), t4);
        crate::io::lemma_concat_assoc(self.motd.enc() + self.icon.enc(), self.previews_chat.enc(), t3);
        crate::io::lemma_concat_assoc(self.motd.enc(), self.icon.enc(), t2);
        assert(s == t0);
        self.motd.lemma_round_trip(t1);
        crate::io::lemma_concat_skip_prefix(self.motd.enc(), t1);
        self.icon.lemma_round_trip(t2);
        crate::io::lemma_concat_skip_prefix(self.icon.enc(), t2);
        crate::io::lemma_skip_of_skip(s, (self.motd.enc().len()) as int, self.icon.enc().len() as int);
        self.previews_chat.lemma_round_trip(t3);
        crate::io::lemma_concat_skip_prefix(self.previews_chat.enc(), t3);
        crate::io::lemma_skip_of_skip(s, (self.motd.enc().len() + self.icon.enc().len()) as int, self.previews_chat.enc().len() as int);
        self.enforce_secure_chat.lemma_round_trip(t4);
        crate::io::lemma_concat_skip_prefix(self.enforce_secure_chat.enc(), t4);
        crate::io::lemma_skip_of_skip(s, (self.motd.enc().len() + self.icon.enc().len() + self.previews_chat.enc().len()) as int, self.enforce_secure_chat.enc().len() as int);
    }
}

impl MooshroomPacket for ServerData {
    open spec fn spec_packet_id() -> i32 {
        66
    }

    fn packet_id() -> (id: i32) {
        66
    }
}

#[derive(Copy, Clone, Debug, Default, PartialEq, Eq)]
pub struct SetEntityMetadata {
    pub entity_id: VarInt,
}

impl DeepView for SetEntityMetadata {
    type V = SetEntityMetadata;

    open spec fn deep_view(&self) -> SetEntityMetadata {
        *self
    }
}

impl MooshroomWritable for SetEntityMetadata {
    open spec fn enc(&self) -> Seq<u8> {
        self.entity_id.enc()
    }

    fn write(&self, w: &mut Vec<u8>) {
        self.entity_id.write(w);
        proof {
            assert(w@ =~= old(w)@ + self.enc());
        }
    }
}

impl MooshroomReadable for SetEntityMetadata {
    open spec fn dec(s: Seq<u8>) -> Option<(SetEntityMetadata, int)> {
        match <VarInt as MooshroomReadable>::dec(s) {
            Some((v0, n0)) => Some((SetEntityMetadata { entity_id: v0 }, n0)),
            None => None,
        }
    }

    fn read(r: &mut Reader) -> (res: Result<Self, MooshroomError>) {
        let ghost s0 = old(r).remaining();
        let ghost p0 = old(r).pos();
        let entity_id = match <VarInt as MooshroomReadable>::read(r) {
            Ok(v) => v,
            Err(e) => {
                return Err(e);
            },
        };
        Ok(SetEntityMetadata { entity_id })
    }
}

impl MooshroomRoundTrip for SetEntityMetadata {
    open spec fn wire_bounded(&self) -> bool {
        self.entity_id.wire_bounded()
    }

    proof fn lemma_round_trip(&self, rest: Seq<u8>)
    {
        let t1 = rest;
        let t0 = self.entity_id.enc() + t1;
        let s = self.enc() + rest;
        assert(s == t0);
        self.entity_id.lemma_round_trip(t1);
        crate::io::lemma_concat_skip_prefix(self.entity_id.enc(), t1);
    }
}

impl MooshroomPacket for SetEntityMetadata {
    open spec fn spec_packet_id() -> i32 {
        80
    }

    fn packet_id() -> (id: i32) {
        80
    }
}

/// The shared body of the smelting-style recipe kinds.
#[derive(Debug, Default, PartialEq)]
pub struct RecipeWithExp {
    pub group: String,
    pub ingredient: Ingredient,
    pub result: Slot,
    pub experience: F32Bits,
    pub cooking_time: VarInt,
}

/// The mathematical value of a `RecipeWithExp`, for contracts.
pub struct RecipeWithExpView {
    pub group: Seq<char>,
    pub ingredient: Seq<Option<SlotDataView>>,
    pub result: Option<SlotDataView>,
    pub experience: F32Bits,
    pub cooking_time: VarInt,
}

impl DeepView for RecipeWithExp {
    type V = RecipeWithExpView;

    open spec fn deep_view(&self) -> RecipeWithExpView {
        RecipeWithExpView {
            group: self.group.deep_view(),
            ingredient: self.ingredient.deep_view(),
            result: self.result.deep_view(),
            experience: self.experience.deep_view(),
            cooking_time: self.cooking_time.deep_view(),
        }
    }
}

impl MooshroomReadable for RecipeWithExp {
    open spec fn dec(s: Seq<u8>) -> Option<(RecipeWithExpView, int)> {
        match <String as MooshroomReadable>::dec(s) {
            Some((v0, n0)) => match <Vec<Slot> as MooshroomReadable>::dec(s.skip(n0)) {
                Some((v1, n1)) => match <Option<SlotData> as MooshroomReadable>::dec(s.skip(n0 + n1)) {
                    Some((v2, n2)) => match <F32Bits as MooshroomReadable>::dec(s.skip(n0 + n1 + n2)) {
                        Some((v3, n3)) => match <VarInt as MooshroomReadable>::dec(s.skip(n0 + n1 + n2 + n3)) {
                            Some((v4, n4)) => Some((RecipeWithExpView { group: v0, ingredient: v1, result: v2, experience: v3, cooking_time: v4 }, n0 + n1 + n2 + n3 + n4)),
                            None => None,
                        },
                        None => None,
                    },
                    None => None,
                },
                None => None,
            },
            None => None,
        }
    }

    fn read(r: &mut Reader) -> (res: Result<Self, MooshroomError>) {
        let ghost s0 = old(r).remaining();
        let ghost p0 = old(r).pos();
        let group = match <String as MooshroomReadable>::read(r) {
            Ok(v) => v,
            Err(e) => {
                return Err(e);
            },
        };
        proof {
            assert(r.remaining() =~= s0.skip(r.pos() - p0));
        }
        let ingredient = match <Vec<Slot> as MooshroomReadable>::read(r) {
            Ok(v) => v,
            Err(e) => {
                return Err(e);
            },
        };
        proof {
            assert(r.remaining() =~= s0.skip(r.pos() - p0));
        }
        let result = match <Option<SlotData> as MooshroomReadable>::read(r) {
            Ok(v) => v,
            Err(e) => {
                return Err(e);
            },
        };
        proof {
            assert(r.remaining() =~= s0.skip(r.pos() - p0));
        }
        let experience = match <F32Bits as MooshroomReadable>::read(r) {
            Ok(v) => v,
            Err(e) => {
                return Err(e);
            },
        };
        proof {
            assert(r.remaining() =~= s0.skip(r.pos() - p0));
        }
        let cooking_time = match <VarInt as MooshroomReadable>::read(r) {
            Ok(v) => v,
            Err(e) => {
                return Err(e);
            },
        };
        Ok(RecipeWithExp { group, ingredient, result, experience, cooking_time })
    }
}

#[derive(Debug, Default, PartialEq)]
pub struct UpdateRecipies(pub Vec<Recipe>);

/// The mathematical value of a `UpdateRecipies`, for contracts.
pub struct UpdateRecipiesView(pub Seq<RecipeView>);

impl DeepView for UpdateRecipies {
    type V = UpdateRecipiesView;

    open spec fn deep_view(&self) -> UpdateRecipiesView {
        UpdateRecipiesView(self.0.deep_view())
    }
}

impl MooshroomReadable for UpdateRecipies {
    open spec fn dec(s: Seq<u8>) -> Option<(UpdateRecipiesView, int)> {
        match <Vec<Recipe> as MooshroomReadable>::dec(s) {
            Some((v0, n0)) => Some((UpdateRecipiesView(v0), n0)),
            None => None,
        }
    }

    fn read(r: &mut Reader) -> (res: Result<Self, MooshroomError>) {
        let ghost s0 = old(r).remaining();
        let ghost p0 = old(r).pos();
        let f0 = match <Vec<Recipe> as MooshroomReadable>::read(r) {
            Ok(v) => v,
            Err(e) => {
                return Err(e);
            },
        };
        Ok(UpdateRecipies(f0))
    }
}

impl MooshroomPacket for UpdateRecipies {
    open spec fn spec_packet_id() -> i32 {
        106
    }

    fn packet_id() -> (id: i32) {
        106
    }
}

#[derive(Clone, Debug, Default, PartialEq)]
pub struct Tag {
    pub name: Identifier,
    pub entries: Vec<VarInt>,
}

/// The mathematical value of a `Tag`, for contracts.
pub struct TagView {
    pub name: Seq<char>,
    pub entries: Seq<VarInt>,
}

impl DeepView for Tag {
    type V = TagView;

    open spec fn deep_view(&self) -> TagView {
        TagView {
            name: self.name.deep_view(),
            entries: self.entries.deep_view(),
        }
    }
}

impl MooshroomWritable for Tag {
    open spec fn enc(&self) -> Seq<u8> {
        self.name.enc() + self.entries.enc()
    }

    fn write(&self, w: &mut Vec<u8>) {
        self.name.write(w);
        self.entries.write(w);
        proof {
            assert(w@ =~= old(w)@ + self.enc());
        }
    }
}

impl MooshroomReadable for Tag {
    open spec fn dec(s: Seq<u8>) -> Option<(TagView, int)> {
        match <String as MooshroomReadable>::dec(s) {
            Some((v0, n0)) => match <Vec<VarInt> as MooshroomReadable>::dec(s.skip(n0)) {
                Some((v1, n1)) => Some((TagView { name: v0, entries: v1 }, n0 + n1)),
                None => None,
            },
            None => None,
        }
    }

    fn read(r: &mut Reader) -> (res: Result<Self, MooshroomError>) {
        let ghost s0 = old(r).remaining();
        let ghost p0 = old(r).pos();
        let name = match <String as MooshroomReadable>::read(r) {
            Ok(v) => v,
            Err(e) => {
                return Err(e);
            },
        };
        proof {
            assert(r.remaining() =~= s0.skip(r.pos() - p0));
        }
        let entries = match <Vec<VarInt> as MooshroomReadable>::read(r) {
            Ok(v) => v,
            Err(e) => {
                return Err(e);
            },
        };
        Ok(Tag { name, entries })
    }
}

impl MooshroomRoundTrip for Tag {
    open spec fn wire_bounded(&self) -> bool {
        self.name.wire_bounded() && self.entries.wire_bounded()
    }

    proof fn lemma_round_trip(&self, rest: Seq<u8>)
    {
        let t2 = rest;
        let t1 = self.entries.enc() + t2;
        let t0 = self.name.enc() + t1;
        let s = self.enc() + rest;
        crate::io::lemma_concat_assoc(self.name.enc(), self.entries.enc(), t2);
        assert(s == t0);
        self.name.lemma_round_trip(t1);
        crate::io::lemma_concat_skip_prefix(self.name.enc(), t1);
        self.entries.lemma_round_trip(t2);
        crate::io::lemma_concat_skip_prefix(self.entries.enc(), t2);
        crate::io::lemma_skip_of_skip(s, (self.name.enc().len()) as int, self.entries.enc().len() as int);
    }
}

#[derive(Clone, Debug, Default, PartialEq)]
pub struct GroupedTag {
    pub tag_type: Identifier,
    pub tags: Vec<Tag>,
}

/// The mathematical value of a `GroupedTag`, for contracts.
pub struct GroupedTagView {
    pub tag_type: Seq<char>,
    pub tags: Seq<TagView>,
}

impl DeepView for GroupedTag {
    type V = GroupedTagView;

    open spec fn deep_view(&self) -> GroupedTagView {
        GroupedTagView {
            tag_type: self.tag_type.deep_view(),
            tags: self.tags.deep_view(),
        }
    }
}

impl MooshroomWritable for GroupedTag {
    open spec fn enc(&self) -> Seq<u8> {
        self.tag_type.enc() + self.tags.enc()
    }

    fn write(&self, w: &mut Vec<u8>) {
        self.tag_type.write(w);
        self.tags.write(w);
        proof {
            assert(w@ =~= old(w)@ + self.enc());
        }
    }
}

impl MooshroomReadable for GroupedTag {
    open spec fn dec(s: Seq<u8>) -> Option<(GroupedTagView, int)> {
        match <String as MooshroomReadable>::dec(s) {
            Some((v0, n0)) => match <Vec<Tag> as MooshroomReadable>::dec(s.skip(n0)) {
                Some((v1, n1)) => Some((GroupedTagView { tag_type: v0, tags: v1 }, n0 + n1)),
                None => None,
            },
            None => None,
        }
    }

    fn read(r: &mut Reader) -> (res: Result<Self, MooshroomError>) {
        let ghost s0 = old(r).remaining();
        let ghost p0 = old(r).pos();
        let tag_type = match <String as MooshroomReadable>::read(r) {
            Ok(v) => v,
            Err(e) => {
                return Err(e);
            },
        };
        proof {
            assert(r.remaining() =~= s0.skip(r.pos() - p0));
        }
        let tags = match <Vec<Tag> as MooshroomReadable>::read(r) {
            Ok(v) => v,
            Err(e) => {
                return Err(e);
            },
        };
        Ok(GroupedTag { tag_type, tags })
    }
}

impl MooshroomRoundTrip for GroupedTag {
    open spec fn wire_bounded(&self) -> bool {
        self.tag_type.wire_bounded() && self.tags.wire_bounded()
    }

    proof fn lemma_round_trip(&self, rest: Seq<u8>)
    {
        let t2 = rest;
        let t1 = self.tags.enc() + t2;
        let t0 = self.tag_type.enc() + t1;
        let s = self.enc() + rest;
        crate::io::lemma_concat_assoc(self.tag_type.enc(), self.tags.enc(), t2);
        assert(s == t0);
        self.tag_type.lemma_round_trip(t1);
        crate::io::lemma_concat_skip_prefix(self.tag_type.enc(), t1);
        self.tags.lemma_round_trip(t2);
        crate::io::lemma_concat_skip_prefix(self.tags.enc(), t2);
        crate::io::lemma_skip_of_skip(s, (self.tag_type.enc().len()) as int, self.tags.enc().len() as int);
    }
}

#[derive(Clone, Debug, Default, PartialEq)]
pub struct UpdateTags(pub Vec<GroupedTag>);

/// The mathematical value of a `UpdateTags`, for contracts.
pub struct UpdateTagsView(pub Seq<GroupedTagView>);

impl DeepView for UpdateTags {
    type V = UpdateTagsView;

    open spec fn deep_view(&self) -> UpdateTagsView {
        UpdateTagsView(self.0.deep_view())
    }
}

impl MooshroomWritable for UpdateTags {
    open spec fn enc(&self) -> Seq<u8> {
        self.0.enc()
    }

    fn write(&self, w: &mut Vec<u8>) {
        self.0.write(w);
        proof {
            assert(w@ =~= old(w)@ + self.enc());
        }
    }
}

impl MooshroomReadable for UpdateTags {
    open spec fn dec(s: Seq<u8>) -> Option<(UpdateTagsView, int)> {
        match <Vec<GroupedTag> as MooshroomReadable>::dec(s) {
            Some((v0, n0)) => Some((UpdateTagsView(v0), n0)),
            None => None,
        }
    }

    fn read(r: &mut Reader) -> (res: Result<Self, MooshroomError>) {
        let ghost s0 = old(r).remaining();
        let ghost p0 = old(r).pos();
        let f0 = match <Vec<GroupedTag> as MooshroomReadable>::read(r) {
            Ok(v) => v,
            Err(e) => {
                return Err(e);
            },
        };
        Ok(UpdateTags(f0))
    }
}

impl MooshroomRoundTrip for UpdateTags {
    open spec fn wire_bounded(&self) -> bool {
        self.0.wire_bounded()
    }

    proof fn lemma_round_trip(&self, rest: Seq<u8>)
    {
        let t1 = rest;
        let t0 = self.0.enc() + t1;
        let s = self.enc() + rest;
        assert(s == t0);
        self.0.lemma_round_trip(t1);
        crate::io::lemma_concat_skip_prefix(self.0.enc(), t1);
    }
}

impl MooshroomPacket for UpdateTags {
    open spec fn spec_packet_id() -> i32 {
        107
    }

    fn packet_id() -> (id: i32) {
        107
    }
}

#[derive(Copy, Clone, Debug, Default, PartialEq, Eq)]
pub struct UpdateRecipeBook;

impl DeepView for UpdateRecipeBook {
    type V = UpdateRecipeBook;

    open spec fn deep_view(&self) -> UpdateRecipeBook {
        *self
    }
}

impl MooshroomWritable for UpdateRecipeBook {
    open spec fn enc(&self) -> Seq<u8> {
        Seq::empty()
    }

    fn write(&self, w: &mut Vec<u8>) {
        proof {
            assert(w@ =~= old(w)@ + self.enc());
        }
    }
}

impl MooshroomReadable for UpdateRecipeBook {
    open spec fn dec(s: Seq<u8>) -> Option<(UpdateRecipeBook, int)> {
        Some((UpdateRecipeBook, 0))
    }

    fn read(r: &mut Reader) -> (res: Result<Self, MooshroomError>) {
        Ok(UpdateRecipeBook)
    }
}

impl MooshroomRoundTrip for UpdateRecipeBook {
    open spec fn wire_bounded(&self) -> bool {
        true
    }

    proof fn lemma_round_trip(&self, rest: Seq<u8>)
    {
        assert(self.enc() + rest =~= rest);
    }
}

impl MooshroomPacket for UpdateRecipeBook {
    open spec fn spec_packet_id() -> i32 {
        58
    }

    fn packet_id() -> (id: i32) {
        58
    }
}


/// One ingredient choice: any of the listed slots satisfies it.
pub type Ingredient = Vec<Slot>;

/// The ingredient list of a shaped or shapeless recipe.
pub type Ingredients = Vec<Ingredient>;

/// The data part of a recipe, keyed by the recipe type identifier that
/// precedes it on the wire.
#[derive(Debug, Default, PartialEq)]
pub enum RecipeData {
    CraftingShapeless { group: String, ingredients: Ingredients, result: Slot },
    CraftingShaped {
        width: VarInt,
        height: VarInt,
        group: String,
        ingredients: Ingredients,
        result: Slot,
    },
    CraftingSpecialArmorDye,
    CraftingSpecialBookCloning,
    CraftingSpecialMapCloning,
    CraftingSpecialMapExtended,
    CraftingSpecialFireworkRocket,
    CraftingSpecialFireworkStar,
    CraftingSpecialFireworkStarFade,
    CraftingSpecialRepairItem,
    CraftingSpecialTippedArrow,
    CraftingSpecialBannerDuplicate,
    CraftingSpecialBannerAddPattern,
    CraftingSpecialShieldECoration,
    CraftingSpecialShulkerBoxColoring,
    CraftingSpecialSuspiciousStew,
    Smelting(RecipeWithExp),
    Blasting(RecipeWithExp),
    Smoking(RecipeWithExp),
    CampfireCooking(RecipeWithExp),
    StoneCutting { group: String, ingredients: Ingredient, result: Slot },
    Smithing { base: Ingredient, addition: Ingredient, result: Slot },
    #[default]
    Unknown,
}

/// The mathematical value of a `RecipeData`, for contracts.
pub enum RecipeDataView {
    CraftingShapeless {
        group: Seq<char>,
        ingredients: Seq<Seq<Option<SlotDataView>>>,
        result: Option<SlotDataView>,
    },
    CraftingShaped {
        width: VarInt,
        height: VarInt,
        group: Seq<char>,
        ingredients: Seq<Seq<Option<SlotDataView>>>,
        result: Option<SlotDataView>,
    },
    CraftingSpecialArmorDye,
    CraftingSpecialBookCloning,
    CraftingSpecialMapCloning,
    CraftingSpecialMapExtended,
    CraftingSpecialFireworkRocket,
    CraftingSpecialFireworkStar,
    CraftingSpecialFireworkStarFade,
    CraftingSpecialRepairItem,
    CraftingSpecialTippedArrow,
    CraftingSpecialBannerDuplicate,
    CraftingSpecialBannerAddPattern,
    CraftingSpecialShieldECoration,
    CraftingSpecialShulkerBoxColoring,
    CraftingSpecialSuspiciousStew,
    Smelting(RecipeWithExpView),
    Blasting(RecipeWithExpView),
    Smoking(RecipeWithExpView),
    CampfireCooking(RecipeWithExpView),
    StoneCutting {
        group: Seq<char>,
        ingredients: Seq<Option<SlotDataView>>,
        result: Option<SlotDataView>,
    },
    Smithing {
        base: Seq<Option<SlotDataView>>,
        addition: Seq<Option<SlotDataView>>,
        result: Option<SlotDataView>,
    },
    Unknown,
}

impl DeepView for RecipeData {
    type V = RecipeDataView;

    open spec fn deep_view(&self) -> RecipeDataView {
        match self {
            RecipeData::CraftingShapeless { group, ingredients, result } =>
                RecipeDataView::CraftingShapeless {
                    group: group.deep_view(),
                    ingredients: ingredients.deep_view(),
                    result: result.deep_view(),
                },
            RecipeData::CraftingShaped { width, height, group, ingredients, result } =>
                RecipeDataView::CraftingShaped {
                    width: *width,
                    height: *height,
                    group: group.deep_view(),
                    ingredients: ingredients.deep_view(),
                    result: result.deep_view(),
                },
            RecipeData::CraftingSpecialArmorDye => RecipeDataView::CraftingSpecialArmorDye,
            RecipeData::CraftingSpecialBookCloning => RecipeDataView::CraftingSpecialBookCloning,
            RecipeData::CraftingSpecialMapCloning => RecipeDataView::CraftingSpecialMapCloning,
            RecipeData::CraftingSpecialMapExtended => RecipeDataView::CraftingSpecialMapExtended,
            RecipeData::CraftingSpecialFireworkRocket =>
                RecipeDataView::CraftingSpecialFireworkRocket,
            RecipeData::CraftingSpecialFireworkStar =>
                RecipeDataView::CraftingSpecialFireworkStar,
            RecipeData::CraftingSpecialFireworkStarFade =>
                RecipeDataView::CraftingSpecialFireworkStarFade,
            RecipeData::CraftingSpecialRepairItem => RecipeDataView::CraftingSpecialRepairItem,
            RecipeData::CraftingSpecialTippedArrow => RecipeDataView::CraftingSpecialTippedArrow,
            RecipeData::CraftingSpecialBannerDuplicate =>
                RecipeDataView::CraftingSpecialBannerDuplicate,
            RecipeData::CraftingSpecialBannerAddPattern =>
                RecipeDataView::CraftingSpecialBannerAddPattern,
            RecipeData::CraftingSpecialShieldECoration =>
                RecipeDataView::CraftingSpecialShieldECoration,
            RecipeData::CraftingSpecialShulkerBoxColoring =>
                RecipeDataView::CraftingSpecialShulkerBoxColoring,
            RecipeData::CraftingSpecialSuspiciousStew =>
                RecipeDataView::CraftingSpecialSuspiciousStew,
            RecipeData::Smelting(d) => RecipeDataView::Smelting(d.deep_view()),
            RecipeData::Blasting(d) => RecipeDataView::Blasting(d.deep_view()),
            RecipeData::Smoking(d) => RecipeDataView::Smoking(d.deep_view()),
            RecipeData::CampfireCooking(d) => RecipeDataView::CampfireCooking(d.deep_view()),
            RecipeData::StoneCutting { group, ingredients, result } =>
                RecipeDataView::StoneCutting {
                    group: group.deep_view(),
                    ingredients: ingredients.deep_view(),
                    result: result.deep_view(),
                },
            RecipeData::Smithing { base, addition, result } => RecipeDataView::Smithing {
                base: base.deep_view(),
                addition: addition.deep_view(),
                result: result.deep_view(),
            },
            RecipeData::Unknown => RecipeDataView::Unknown,
        }
    }
}

/// A shapeless body: group, ingredient list, result.
pub open spec fn dec_crafting_shapeless(s: Seq<u8>) -> Option<(RecipeDataView, int)> {
    match <String as MooshroomReadable>::dec(s) {
        Some((group, n0)) => match <Ingredients as MooshroomReadable>::dec(s.skip(n0)) {
            Some((ingredients, n1)) => match <Slot as MooshroomReadable>::dec(
                s.skip(n0).skip(n1),
            ) {
                Some((result, n2)) => Some(
                    (
                        RecipeDataView::CraftingShapeless { group, ingredients, result },
                        n0 + n1 + n2,
                    ),
                ),
                None => None,
            },
            None => None,
        },
        None => None,
    }
}

/// A shaped body: width, height, group, then width times height ingredient
/// entries with no count prefix of their own, then the result.
pub open spec fn dec_crafting_shaped(s: Seq<u8>) -> Option<(RecipeDataView, int)> {
    match <VarInt as MooshroomReadable>::dec(s) {
        Some((width, n0)) => match <VarInt as MooshroomReadable>::dec(s.skip(n0)) {
            Some((height, n1)) => match <String as MooshroomReadable>::dec(s.skip(n0).skip(n1)) {
                Some((group, n2)) => match dec_elems::<Ingredient>(
                    s.skip(n0).skip(n1).skip(n2),
                    width.0 as int * height.0 as int,
                ) {
                    Some((ingredients, n3)) => match <Slot as MooshroomReadable>::dec(
                        s.skip(n0).skip(n1).skip(n2).skip(n3),
                    ) {
                        Some((result, n4)) => Some(
                            (
                                RecipeDataView::CraftingShaped {
                                    width,
                                    height,
                                    group,
                                    ingredients,
                                    result,
                                },
                                n0 + n1 + n2 + n3 + n4,
                            ),
                        ),
                        None => None,
                    },
                    None => None,
                },
                None => None,
            },
            None => None,
        },
        None => None,
    }
}

/// A stone-cutting body: group, one ingredient, result.
pub open spec fn dec_stone_cutting(s: Seq<u8>) -> Option<(RecipeDataView, int)> {
    match <String as MooshroomReadable>::dec(s) {
        Some((group, n0)) => match <Ingredient as MooshroomReadable>::dec(s.skip(n0)) {
            Some((ingredients, n1)) => match <Slot as MooshroomReadable>::dec(
                s.skip(n0).skip(n1),
            ) {
                Some((result, n2)) => Some(
                    (RecipeDataView::StoneCutting { group, ingredients, result }, n0 + n1 + n2),
                ),
                None => None,
            },
            None => None,
        },
        None => None,
    }
}

/// A smithing body: base, addition, result.
pub open spec fn dec_smithing(s: Seq<u8>) -> Option<(RecipeDataView, int)> {
    match <Ingredient as MooshroomReadable>::dec(s) {
        Some((base, n0)) => match <Ingredient as MooshroomReadable>::dec(s.skip(n0)) {
            Some((addition, n1)) => match <Slot as MooshroomReadable>::dec(s.skip(n0).skip(n1)) {
                Some((result, n2)) => Some(
                    (RecipeDataView::Smithing { base, addition, result }, n0 + n1 + n2),
                ),
                None => None,
            },
            None => None,
        },
        None => None,
    }
}

impl RecipeData {
    pub fn read_crafting_shapeless(r: &mut Reader) -> (res: Result<Self, MooshroomError>)
        requires
            old(r).wf(),
        ensures
            final(r).wf(),
            final(r).data() == old(r).data(),
            final(r).pos() >= old(r).pos(),
            match res {
                Ok(v) => dec_crafting_shapeless(old(r).remaining()) == Some(
                    (v.deep_view(), final(r).pos() - old(r).pos()),
                ),
                Err(_) => dec_crafting_shapeless(old(r).remaining()) is None,
            },
    {
        let ghost s0 = old(r).remaining();
        let ghost p0 = old(r).pos();
        let group = match <String as MooshroomReadable>::read(r) {
            Ok(v) => v,
            Err(e) => {
                return Err(e);
            },
        };
        proof {
            assert(r.remaining() =~= s0.skip(r.pos() - p0));
        }
        let ghost p1 = r.pos();
        let ingredients = match <Ingredients as MooshroomReadable>::read(r) {
            Ok(v) => v,
            Err(e) => {
                return Err(e);
            },
        };
        proof {
            assert(r.remaining() =~= s0.skip(p1 - p0).skip(r.pos() - p1));
        }
        let result = match <Slot as MooshroomReadable>::read(r) {
            Ok(v) => v,
            Err(e) => {
                return Err(e);
            },
        };
        Ok(RecipeData::CraftingShapeless { group, ingredients, result })
    }

    #[verifier::loop_isolation(false)]
    #[verifier::spinoff_prover]
    #[verifier::rlimit(100)]
    pub fn read_crafting_shaped(r: &mut Reader) -> (res: Result<Self, MooshroomError>)
        requires
            old(r).wf(),
        ensures
            final(r).wf(),
            final(r).data() == old(r).data(),
            final(r).pos() >= old(r).pos(),
            match res {
                Ok(v) => dec_crafting_shaped(old(r).remaining()) == Some(
                    (v.deep_view(), final(r).pos() - old(r).pos()),
                ),
                Err(_) => dec_crafting_shaped(old(r).remaining()) is None,
            },
    {
        let ghost s0 = old(r).remaining();
        let ghost p0 = old(r).pos();
        let width = match <VarInt as MooshroomReadable>::read(r) {
            Ok(v) => v,
            Err(e) => {
                return Err(e);
            },
        };
        proof {
            assert(r.remaining() =~= s0.skip(r.pos() - p0));
        }
        let ghost p1 = r.pos();
        let height = match <VarInt as MooshroomReadable>::read(r) {
            Ok(v) => v,
            Err(e) => {
                return Err(e);
            },
        };
        proof {
            assert(r.remaining() =~= s0.skip(p1 - p0).skip(r.pos() - p1));
        }
        let ghost p2 = r.pos();
        let group = match <String as MooshroomReadable>::read(r) {
            Ok(v) => v,
            Err(e) => {
                return Err(e);
            },
        };
        proof {
            assert(r.remaining() =~= s0.skip(p1 - p0).skip(p2 - p1).skip(r.pos() - p2));
        }
        let ghost p3 = r.pos();
        proof {
            assert(-0x4000_0000_0000_0000 <= (width.0 as int) * (height.0 as int)
                <= 0x4000_0000_0000_0000) by (nonlinear_arith)
                requires
                    -0x8000_0000 <= width.0 as int <= 0x7fff_ffff,
                    -0x8000_0000 <= height.0 as int <= 0x7fff_ffff,
            ;
        }
        let count64: i64 = (width.0 as i64) * (height.0 as i64);
        let count: u64 = if count64 <= 0 {
            0
        } else {
            count64 as u64
        };
        proof {
            if count64 <= 0 {
                assert(dec_elems::<Ingredient>(r.remaining(), width.0 as int * height.0 as int)
                    == dec_elems::<Ingredient>(r.remaining(), 0));
            }
        }
        let ingredients = match crate::primitives::read_elems::<Ingredient>(r, count) {
            Ok(v) => v,
            Err(e) => {
                return Err(e);
            },
        };
        proof {
            assert(r.remaining() =~= s0.skip(p1 - p0).skip(p2 - p1).skip(p3 - p2).skip(
                r.pos() - p3,
            ));
        }
        let result = match <Slot as MooshroomReadable>::read(r) {
            Ok(v) => v,
            Err(e) => {
                return Err(e);
            },
        };
        Ok(RecipeData::CraftingShaped { width, height, group, ingredients, result })
    }

    pub fn read_stone_cutting(r: &mut Reader) -> (res: Result<Self, MooshroomError>)
        requires
            old(r).wf(),
        ensures
            final(r).wf(),
            final(r).data() == old(r).data(),
            final(r).pos() >= old(r).pos(),
            match res {
                Ok(v) => dec_stone_cutting(old(r).remaining()) == Some(
                    (v.deep_view(), final(r).pos() - old(r).pos()),
                ),
                Err(_) => dec_stone_cutting(old(r).remaining()) is None,
            },
    {
        let ghost s0 = old(r).remaining();
        let ghost p0 = old(r).pos();
        let group = match <String as MooshroomReadable>::read(r) {
            Ok(v) => v,
            Err(e) => {
                return Err(e);
            },
        };
        proof {
            assert(r.remaining() =~= s0.skip(r.pos() - p0));
        }
        let ghost p1 = r.pos();
        let ingredients = match <Ingredient as MooshroomReadable>::read(r) {
            Ok(v) => v,
            Err(e) => {
                return Err(e);
            },
        };
        proof {
            assert(r.remaining() =~= s0.skip(p1 - p0).skip(r.pos() - p1));
        }
        let result = match <Slot as MooshroomReadable>::read(r) {
            Ok(v) => v,
            Err(e) => {
                return Err(e);
            },
        };
        Ok(RecipeData::StoneCutting { group, ingredients, result })
    }

    pub fn read_smithing(r: &mut Reader) -> (res: Result<Self, MooshroomError>)
        requires
            old(r).wf(),
        ensures
            final(r).wf(),
            final(r).data() == old(r).data(),
            final(r).pos() >= old(r).pos(),
            match res {
                Ok(v) => dec_smithing(old(r).remaining()) == Some(
                    (v.deep_view(), final(r).pos() - old(r).pos()),
                ),
                Err(_) => dec_smithing(old(r).remaining()) is None,
            },
    {
        let ghost s0 = old(r).remaining();
        let ghost p0 = old(r).pos();
        let base = match <Ingredient as MooshroomReadable>::read(r) {
            Ok(v) => v,
            Err(e) => {
                return Err(e);
            },
        };
        proof {
            assert(r.remaining() =~= s0.skip(r.pos() - p0));
        }
        let ghost p1 = r.pos();
        let addition = match <Ingredient as MooshroomReadable>::read(r) {
            Ok(v) => v,
            Err(e) => {
                return Err(e);
            },
        };
        proof {
            assert(r.remaining() =~= s0.skip(p1 - p0).skip(r.pos() - p1));
        }
        let result = match <Slot as MooshroomReadable>::read(r) {
            Ok(v) => v,
            Err(e) => {
                return Err(e);
            },
        };
        Ok(RecipeData::Smithing { base, addition, result })
    }
}

/// The recipe-type identifiers whose bodies carry a smelting-style payload.
pub open spec fn smelt_kind(ty: Seq<char>) -> bool {
    ||| ty == "minecraft:smelting"@
    ||| ty == "minecraft:blasting"@
    ||| ty == "minecraft:smoking"@
    ||| ty == "minecraft:campfire_cooking"@
}

/// The body of a recipe, keyed by its type identifier; unrecognised types
/// carry no body at all.
pub open spec fn dec_recipe_data(ty: Seq<char>, s: Seq<u8>) -> Option<(RecipeDataView, int)> {
    if ty == "minecraft:crafting_shapeless"@ {
        dec_crafting_shapeless(s)
    } else if ty == "minecraft:crafting_shaped"@ {
        dec_crafting_shaped(s)
    } else if ty == "minecraft:crafting_special_armordye"@ {
        Some((RecipeDataView::CraftingSpecialArmorDye, 0))
    } else if ty == "minecraft:crafting_special_bookcloning"@ {
        Some((RecipeDataView::CraftingSpecialBookCloning, 0))
    } else if ty == "minecraft:crafting_special_mapcloning"@ {
        Some((RecipeDataView::CraftingSpecialMapCloning, 0))
    } else if ty == "minecraft:crafting_special_mapextending"@ {
        Some((RecipeDataView::CraftingSpecialMapExtended, 0))
    } else if ty == "minecraft:crafting_special_firework_rocket"@ {
        Some((RecipeDataView::CraftingSpecialFireworkRocket, 0))
    } else if ty == "minecraft:crafting_special_firework_star"@ {
        Some((RecipeDataView::CraftingSpecialFireworkStar, 0))
    } else if ty == "minecraft:crafting_special_firework_star_fade"@ {
        Some((RecipeDataView::CraftingSpecialFireworkStarFade, 0))
    } else if ty == "minecraft:crafting_special_repairitem"@ {
        Some((RecipeDataView::CraftingSpecialRepairItem, 0))
    } else if ty == "minecraft:crafting_special_tippedarrow"@ {
        Some((RecipeDataView::CraftingSpecialTippedArrow, 0))
    } else if ty == "minecraft:crafting_special_bannerduplicate"@ {
        Some((RecipeDataView::CraftingSpecialBannerDuplicate, 0))
    } else if ty == "minecraft:crafting_special_banneraddpattern"@ {
        Some((RecipeDataView::CraftingSpecialBannerAddPattern, 0))
    } else if ty == "minecraft:crafting_special_shielddecoration"@ {
        Some((RecipeDataView::CraftingSpecialShieldECoration, 0))
    } else if ty == "minecraft:crafting_special_shulkerboxcoloring"@ {
        Some((RecipeDataView::CraftingSpecialShulkerBoxColoring, 0))
    } else if ty == "minecraft:crafting_special_suspiciousstew"@ {
        Some((RecipeDataView::CraftingSpecialSuspiciousStew, 0))
    } else if ty == "minecraft:smelting"@ {
        match <RecipeWithExp as MooshroomReadable>::dec(s) {
            Some((d, n)) => Some((RecipeDataView::Smelting(d), n)),
            None => None,
        }
    } else if ty == "minecraft:blasting"@ {
        match <RecipeWithExp as MooshroomReadable>::dec(s) {
            Some((d, n)) => Some((RecipeDataView::Blasting(d), n)),
            None => None,
        }
    } else if ty == "minecraft:smoking"@ {
        match <RecipeWithExp as MooshroomReadable>::dec(s) {
            Some((d, n)) => Some((RecipeDataView::Smoking(d), n)),
            None => None,
        }
    } else if ty == "minecraft:campfire_cooking"@ {
        match <RecipeWithExp as MooshroomReadable>::dec(s) {
            Some((d, n)) => Some((RecipeDataView::CampfireCooking(d), n)),
            None => None,
        }
    } else if ty == "minecraft:stonecutting"@ {
        dec_stone_cutting(s)
    } else if ty == "minecraft:smithing"@ {
        dec_smithing(s)
    } else {
        Some((RecipeDataView::Unknown, 0))
    }
}

/// Read the recipe body that the type identifier selects; an unknown type
/// consumes nothing.
fn read_recipe_data(ty: &Identifier, r: &mut Reader) -> (res: Result<RecipeData, MooshroomError>)
    requires
        old(r).wf(),
    ensures
        final(r).wf(),
        final(r).data() == old(r).data(),
        final(r).pos() >= old(r).pos(),
        match res {
            Ok(d) => dec_recipe_data(ty@, old(r).remaining()) == Some(
                (d.deep_view(), final(r).pos() - old(r).pos()),
            ),
            Err(_) => dec_recipe_data(ty@, old(r).remaining()) is None,
        },
{
        let data = if str_eq(ty.as_str(), "minecraft:crafting_shapeless") {
            match RecipeData::read_crafting_shapeless(r) {
                Ok(v) => v,
                Err(e) => {
                    return Err(e);
                },
            }
        } else if str_eq(ty.as_str(), "minecraft:crafting_shaped") {
            match RecipeData::read_crafting_shaped(r) {
                Ok(v) => v,
                Err(e) => {
                    return Err(e);
                },
            }
        } else if str_eq(ty.as_str(), "minecraft:crafting_special_armordye") {
            RecipeData::CraftingSpecialArmorDye
        } else if str_eq(ty.as_str(), "minecraft:crafting_special_bookcloning") {
            RecipeData::CraftingSpecialBookCloning
        } else if str_eq(ty.as_str(), "minecraft:crafting_special_mapcloning") {
            RecipeData::CraftingSpecialMapCloning
        } else if str_eq(ty.as_str(), "minecraft:crafting_special_mapextending") {
            RecipeData::CraftingSpecialMapExtended
        } else if str_eq(ty.as_str(), "minecraft:crafting_special_firework_rocket") {
            RecipeData::CraftingSpecialFireworkRocket
        } else if str_eq(ty.as_str(), "minecraft:crafting_special_firework_star") {
            RecipeData::CraftingSpecialFireworkStar
        } else if str_eq(ty.as_str(), "minecraft:crafting_special_firework_star_fade") {
            RecipeData::CraftingSpecialFireworkStarFade
        } else if str_eq(ty.as_str(), "minecraft:crafting_special_repairitem") {
            RecipeData::CraftingSpecialRepairItem
        } else if str_eq(ty.as_str(), "minecraft:crafting_special_tippedarrow") {
            RecipeData::CraftingSpecialTippedArrow
        } else if str_eq(ty.as_str(), "minecraft:crafting_special_bannerduplicate") {
            RecipeData::CraftingSpecialBannerDuplicate
        } else if str_eq(ty.as_str(), "minecraft:crafting_special_banneraddpattern") {
            RecipeData::CraftingSpecialBannerAddPattern
        } else if str_eq(ty.as_str(), "minecraft:crafting_special_shielddecoration") {
            RecipeData::CraftingSpecialShieldECoration
        } else if str_eq(ty.as_str(), "minecraft:crafting_special_shulkerboxcoloring") {
            RecipeData::CraftingSpecialShulkerBoxColoring
        } else if str_eq(ty.as_str(), "minecraft:crafting_special_suspiciousstew") {
            RecipeData::CraftingSpecialSuspiciousStew
        } else if str_eq(ty.as_str(), "minecraft:smelting") {
            match <RecipeWithExp as MooshroomReadable>::read(r) {
                Ok(v) => RecipeData::Smelting(v),
                Err(e) => {
                    return Err(e);
                },
            }
        } else if str_eq(ty.as_str(), "minecraft:blasting") {
            match <RecipeWithExp as MooshroomReadable>::read(r) {
                Ok(v) => RecipeData::Blasting(v),
                Err(e) => {
                    return Err(e);
                },
            }
        } else if str_eq(ty.as_str(), "minecraft:smoking") {
            match <RecipeWithExp as MooshroomReadable>::read(r) {
                Ok(v) => RecipeData::Smoking(v),
                Err(e) => {
                    return Err(e);
                },
            }
        } else if str_eq(ty.as_str(), "minecraft:campfire_cooking") {
            match <RecipeWithExp as MooshroomReadable>::read(r) {
                Ok(v) => RecipeData::CampfireCooking(v),
                Err(e) => {
                    return Err(e);
                },
            }
        } else if str_eq(ty.as_str(), "minecraft:stonecutting") {
            match RecipeData::read_stone_cutting(r) {
                Ok(v) => v,
                Err(e) => {
                    return Err(e);
                },
            }
        } else if str_eq(ty.as_str(), "minecraft:smithing") {
            match RecipeData::read_smithing(r) {
                Ok(v) => v,
                Err(e) => {
                    return Err(e);
                },
            }
        } else {
            RecipeData::Unknown
        };
    Ok(data)
}

/// A named recipe: type identifier, recipe identifier, then the body the
/// type selects.
#[derive(Debug, Default, PartialEq)]
pub struct Recipe {
    pub recipe_type: Identifier,
    pub recipe_id: Identifier,
    pub data: RecipeData,
}

/// The mathematical value of a `Recipe`, for contracts.
pub struct RecipeView {
    pub recipe_type: Seq<char>,
    pub recipe_id: Seq<char>,
    pub data: RecipeDataView,
}

impl DeepView for Recipe {
    type V = RecipeView;

    open spec fn deep_view(&self) -> RecipeView {
        RecipeView {
            recipe_type: self.recipe_type.deep_view(),
            recipe_id: self.recipe_id.deep_view(),
            data: self.data.deep_view(),
        }
    }
}

impl MooshroomReadable for Recipe {
    open spec fn dec(s: Seq<u8>) -> Option<(RecipeView, int)> {
        match <String as MooshroomReadable>::dec(s) {
            Some((ty, n0)) => match <String as MooshroomReadable>::dec(s.skip(n0)) {
                Some((id, n1)) => match dec_recipe_data(ty, s.skip(n0).skip(n1)) {
                    Some((d, n2)) => Some(
                        (RecipeView { recipe_type: ty, recipe_id: id, data: d }, n0 + n1 + n2),
                    ),
                    None => None,
                },
                None => None,
            },
            None => None,
        }
    }

    #[verifier::rlimit(100)]
    fn read(r: &mut Reader) -> (res: Result<Self, MooshroomError>) {
        let ghost s0 = old(r).remaining();
        let ghost p0 = old(r).pos();
        let recipe_type = match <String as MooshroomReadable>::read(r) {
            Ok(v) => v,
            Err(e) => {
                return Err(e);
            },
        };
        proof {
            assert(r.remaining() =~= s0.skip(r.pos() - p0));
        }
        let ghost p1 = r.pos();
        let recipe_id = match <String as MooshroomReadable>::read(r) {
            Ok(v) => v,
            Err(e) => {
                return Err(e);
            },
        };
        proof {
            assert(r.remaining() =~= s0.skip(p1 - p0).skip(r.pos() - p1));
        }
        let data = match read_recipe_data(&recipe_type, r) {
            Ok(v) => v,
            Err(e) => {
                return Err(e);
            },
        };
        Ok(Recipe { recipe_type, recipe_id, data })
    }
}

/// A plugin channel message: the channel name, then every remaining body
/// byte verbatim.
#[derive(Clone, Debug, Default, PartialEq)]
pub struct PluginMessage {
    pub channel: Identifier,
    pub data: Vec<u8>,
}

/// The mathematical value of a `PluginMessage`, for contracts.
pub struct PluginMessageView {
    pub channel: Seq<char>,
    pub data: Seq<u8>,
}

impl DeepView for PluginMessage {
    type V = PluginMessageView;

    open spec fn deep_view(&self) -> PluginMessageView {
        PluginMessageView { channel: self.channel.deep_view(), data: self.data.deep_view() }
    }
}

impl MooshroomReadable for PluginMessage {
    open spec fn dec(s: Seq<u8>) -> Option<(PluginMessageView, int)> {
        match <String as MooshroomReadable>::dec(s) {
            Some((c, k)) => Some(
                (PluginMessageView { channel: c, data: s.skip(k) }, s.len() as int),
            ),
            None => None,
        }
    }

    fn read(r: &mut Reader) -> (res: Result<Self, MooshroomError>) {
        let ghost s0 = old(r).remaining();
        let ghost p0 = old(r).pos();
        let channel = match <String as MooshroomReadable>::read(r) {
            Ok(v) => v,
            Err(e) => {
                return Err(e);
            },
        };
        let ghost k = r.pos() - p0;
        proof {
            assert(r.remaining() =~= s0.skip(k));
        }
        let n = r.remaining_len();
        let data = match r.read_exact(n) {
            Ok(v) => v,
            Err(e) => {
                return Err(e);
            },
        };
        proof {
            assert(data@ =~= s0.skip(k));
            assert(data.deep_view() =~= data@);
            assert(r.pos() - p0 == s0.len());
            assert(Self::dec(s0) == Some(
                (
                    PluginMessageView { channel: channel.deep_view(), data: s0.skip(k) },
                    s0.len() as int,
                ),
            ));
        }
        Ok(PluginMessage { channel, data })
    }
}

} // verus!
