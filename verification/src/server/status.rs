use vstd::prelude::*;

#[allow(unused_imports)]
use crate::containers::{Json, TOption};
#[allow(unused_imports)]
use crate::data::{
    MooshroomBitFlag, MooshroomCollection, MooshroomCollectionWrite, MooshroomIdentifiable,
    MooshroomUpdatable, MooshroomValue,
};
#[allow(unused_imports)]
use crate::error::MooshroomError;
#[allow(unused_imports)]
use crate::io::{
    MooshroomCommand, MooshroomPacket, MooshroomReadable, MooshroomRoundTrip, MooshroomWritable,
};
#[allow(unused_imports)]
use crate::primitives::{
    be_dec, be_enc, lemma_be_enc_len, lemma_be_round_trip, lemma_pow256_values, sig_to_un,
    str_eq, un_to_sig, F32Bits, F64Bits, Identifier, Position, Uuid, Vec3,
};
#[allow(unused_imports)]
use crate::reader::Reader;
#[allow(unused_imports)]
use crate::varint::{
    lemma_varint_round_trip, read_varint, varint_dec, varint_enc, write_varint, VarInt, VarLong,
};
#[allow(unused_imports)]
use vstd::string::StringExecFns;

verus! {

/// Version block of a status reply, as decoded from its JSON text.
#[derive(Clone, Debug, Default, PartialEq)]
pub struct ServerVersion {
    pub name: String,
    pub protocol: i32,
}

/// The mathematical value of a `ServerVersion`, for contracts.
pub struct ServerVersionView {
    pub name: Seq<char>,
    pub protocol: i32,
}

impl DeepView for ServerVersion {
    type V = ServerVersionView;

    open spec fn deep_view(&self) -> ServerVersionView {
        ServerVersionView {
            name: self.name.deep_view(),
            protocol: self.protocol.deep_view(),
        }
    }
}

impl MooshroomReadable for ServerVersion {
    open spec fn dec(s: Seq<u8>) -> Option<(ServerVersionView, int)> {
        match <String as MooshroomReadable>::dec(s) {
            Some((v0, n0)) => match <i32 as MooshroomReadable>::dec(s.skip(n0)) {
                Some((v1, n1)) => Some((ServerVersionView { name: v0, protocol: v1 }, n0 + n1)),
                None => None,
            },
            None => None,
        }
    }

    fn read(r: &mut Reader) -> (res: Result<Self, MooshroomError>) {
        let ghost s0 = old(r).remaining();
        let ghost p0 = old(r).pos();
        let name = match <String as MooshroomReadable>::read(r) {
            Ok(v) => v,
            Err(e) => {
                return Err(e);
            },
        };
        proof {
            assert(r.remaining() =~= s0.skip(r.pos() - p0));
        }
        let ghost p1 = r.pos();
        let protocol = match <i32 as MooshroomReadable>::read(r) {
            Ok(v) => v,
            Err(e) => {
                return Err(e);
            },
        };
        Ok(ServerVersion { name, protocol })
    }
}

#[derive(Clone, Debug, Default, PartialEq)]
pub struct ServerPlayer {
    pub name: String,
    pub id: Uuid,
}

/// The mathematical value of a `ServerPlayer`, for contracts.
pub struct ServerPlayerView {
    pub name: Seq<char>,
    pub id: Uuid,
}

impl DeepView for ServerPlayer {
    type V = ServerPlayerView;

    open spec fn deep_view(&self) -> ServerPlayerView {
        ServerPlayerView {
            name: self.name.deep_view(),
            id: self.id.deep_view(),
        }
    }
}

impl MooshroomReadable for ServerPlayer {
    open spec fn dec(s: Seq<u8>) -> Option<(ServerPlayerView, int)> {
        match <String as MooshroomReadable>::dec(s) {
            Some((v0, n0)) => match <Uuid as MooshroomReadable>::dec(s.skip(n0)) {
                Some((v1, n1)) => Some((ServerPlayerView { name: v0, id: v1 }, n0 + n1)),
                None => None,
            },
            None => None,
        }
    }

    fn read(r: &mut Reader) -> (res: Result<Self, MooshroomError>) {
        let ghost s0 = old(r).remaining();
        let ghost p0 = old(r).pos();
        let name = match <String as MooshroomReadable>::read(r) {
            Ok(v) => v,
            Err(e) => {
                return Err(e);
            },
        };
        proof {
            assert(r.remaining() =~= s0.skip(r.pos() - p0));
        }
        let ghost p1 = r.pos();
        let id = match <Uuid as MooshroomReadable>::read(r) {
            Ok(v) => v,
            Err(e) => {
                return Err(e);
            },
        };
        Ok(ServerPlayer { name, id })
    }
}

#[derive(Copy, Clone, Debug, Default, PartialEq, Eq, Structural)]
pub struct ServerPlayers {
    pub max: u32,
    pub online: u32,
}

impl DeepView for ServerPlayers {
    type V = ServerPlayers;

    open spec fn deep_view(&self) -> ServerPlayers {
        *self
    }
}

impl MooshroomReadable for ServerPlayers {
    open spec fn dec(s: Seq<u8>) -> Option<(ServerPlayers, int)> {
        match <u32 as MooshroomReadable>::dec(s) {
            Some((v0, n0)) => match <u32 as MooshroomReadable>::dec(s.skip(n0)) {
                Some((v1, n1)) => Some((ServerPlayers { max: v0, online: v1 }, n0 + n1)),
                None => None,
            },
            None => None,
        }
    }

    fn read(r: &mut Reader) -> (res: Result<Self, MooshroomError>) {
        let ghost s0 = old(r).remaining();
        let ghost p0 = old(r).pos();
        let max = match <u32 as MooshroomReadable>::read(r) {
            Ok(v) => v,
            Err(e) => {
                return Err(e);
            },
        };
        proof {
            assert(r.remaining() =~= s0.skip(r.pos() - p0));
        }
        let ghost p1 = r.pos();
        let online = match <u32 as MooshroomReadable>::read(r) {
            Ok(v) => v,
            Err(e) => {
                return Err(e);
            },
        };
        Ok(ServerPlayers { max, online })
    }
}

/// The fields of a server list entry; parsed out of the JSON text by
/// the embedding application.
#[derive(Clone, Debug, Default, PartialEq)]
pub struct StatusBody {
    pub version: ServerVersion,
    pub favicon: String,
    pub previews_chat: Option<bool>,
    pub enforces_secure_chat: Option<bool>,
}

/// The mathematical value of a `StatusBody`, for contracts.
pub struct StatusBodyView {
    pub version: ServerVersionView,
    pub favicon: Seq<char>,
    pub previews_chat: Option<bool>,
    pub enforces_secure_chat: Option<bool>,
}

impl DeepView for StatusBody {
    type V = StatusBodyView;

    open spec fn deep_view(&self) -> StatusBodyView {
        StatusBodyView {
            version: self.version.deep_view(),
            favicon: self.favicon.deep_view(),
            previews_chat: self.previews_chat.deep_view(),
            enforces_secure_chat: self.enforces_secure_chat.deep_view(),
        }
    }
}

impl MooshroomReadable for StatusBody {
    open spec fn dec(s: Seq<u8>) -> Option<(StatusBodyView, int)> {
        match <ServerVersion as MooshroomReadable>::dec(s) {
            Some((v0, n0)) => match <String as MooshroomReadable>::dec(s.skip(n0)) {
                Some((v1, n1)) => match <Option<bool> as MooshroomReadable>::dec(s.skip(n0).skip(n1)) {
                    Some((v2, n2)) => match <Option<bool> as MooshroomReadable>::dec(s.skip(n0).skip(n1).skip(n2)) {
                        Some((v3, n3)) => Some((StatusBodyView { version: v0, favicon: v1, previews_chat: v2, enforces_secure_chat: v3 }, n0 + n1 + n2 + n3)),
                        None => None,
                    },
                    None => None,
                },
                None => None,
            },
            None => None,
        }
    }

    fn read(r: &mut Reader) -> (res: Result<Self, MooshroomError>) {
        let ghost s0 = old(r).remaining();
        let ghost p0 = old(r).pos();
        let version = match <ServerVersion as MooshroomReadable>::read(r) {
            Ok(v) => v,
            Err(e) => {
                return Err(e);
            },
        };
        proof {
            assert(r.remaining() =~= s0.skip(r.pos() - p0));
        }
        let ghost p1 = r.pos();
        let favicon = match <String as MooshroomReadable>::read(r) {
            Ok(v) => v,
            Err(e) => {
                return Err(e);
            },
        };
        proof {
            assert(r.remaining() =~= s0.skip(p1 - p0).skip(r.pos() - p1));
        }
        let ghost p2 = r.pos();
        let previews_chat = match <Option<bool> as MooshroomReadable>::read(r) {
            Ok(v) => v,
            Err(e) => {
                return Err(e);
            },
        };
        proof {
            assert(r.remaining() =~= s0.skip(p1 - p0).skip(p2 - p1).skip(r.pos() - p2));
        }
        let ghost p3 = r.pos();
        let enforces_secure_chat = match <Option<bool> as MooshroomReadable>::read(r) {
            Ok(v) => v,
            Err(e) => {
                return Err(e);
            },
        };
        Ok(StatusBody { version, favicon, previews_chat, enforces_secure_chat })
    }
}

/// The server list entry, carried as raw JSON text.
#[derive(Clone, Debug, Default, PartialEq)]
pub struct StatusResponse {
    pub response: Json<String>,
}

/// The mathematical value of a `StatusResponse`, for contracts.
pub struct StatusResponseView {
    pub response: Seq<char>,
}

impl DeepView for StatusResponse {
    type V = StatusResponseView;

    open spec fn deep_view(&self) -> StatusResponseView {
        StatusResponseView {
            response: self.response.deep_view(),
        }
    }
}

impl MooshroomWritable for StatusResponse {
    open spec fn enc(&self) -> Seq<u8> {
        self.response.enc()
    }

    fn write(&self, w: &mut Vec<u8>) {
        self.response.write(w);
        proof {
            assert(w@ =~= old(w)@ + self.enc());
        }
    }
}

impl MooshroomReadable for StatusResponse {
    open spec fn dec(s: Seq<u8>) -> Option<(StatusResponseView, int)> {
        match <Json<String> as MooshroomReadable>::dec(s) {
            Some((v0, n0)) => Some((StatusResponseView { response: v0 }, n0)),
            None => None,
        }
    }

    fn read(r: &mut Reader) -> (res: Result<Self, MooshroomError>) {
        let ghost s0 = old(r).remaining();
        let ghost p0 = old(r).pos();
        let response = match <Json<String> as MooshroomReadable>::read(r) {
            Ok(v) => v,
            Err(e) => {
                return Err(e);
            },
        };
        Ok(StatusResponse { response })
    }
}

impl MooshroomRoundTrip for StatusResponse {
    open spec fn wire_bounded(&self) -> bool {
        self.response.wire_bounded()
    }

    proof fn lemma_round_trip(&self, rest: Seq<u8>) {
        let t1 = rest;
        let t0 = self.response.enc() + t1;
        let s = self.enc() + rest;
        assert(s =~= t0);
        self.response.lemma_round_trip(t1);
        assert(s.skip(self.response.enc().len() as int) =~= t1);
    }
}

impl MooshroomPacket for StatusResponse {
    open spec fn spec_packet_id() -> i32 {
        0
    }

    fn packet_id() -> (id: i32) {
        0
    }
}

/// The echo of a ping payload.
#[derive(Copy, Clone, Debug, Default, PartialEq, Eq, Structural)]
pub struct PingResponse(pub u64);

impl DeepView for PingResponse {
    type V = PingResponse;

    open spec fn deep_view(&self) -> PingResponse {
        *self
    }
}

impl MooshroomWritable for PingResponse {
    open spec fn enc(&self) -> Seq<u8> {
        self.0.enc()
    }

    fn write(&self, w: &mut Vec<u8>) {
        self.0.write(w);
        proof {
            assert(w@ =~= old(w)@ + self.enc());
        }
    }
}

impl MooshroomReadable for PingResponse {
    open spec fn dec(s: Seq<u8>) -> Option<(PingResponse, int)> {
        match <u64 as MooshroomReadable>::dec(s) {
            Some((v0, n0)) => Some((PingResponse(v0), n0)),
            None => None,
        }
    }

    fn read(r: &mut Reader) -> (res: Result<Self, MooshroomError>) {
        let ghost s0 = old(r).remaining();
        let ghost p0 = old(r).pos();
        let f0 = match <u64 as MooshroomReadable>::read(r) {
            Ok(v) => v,
            Err(e) => {
                return Err(e);
            },
        };
        Ok(PingResponse(f0))
    }
}

impl MooshroomRoundTrip for PingResponse {
    open spec fn wire_bounded(&self) -> bool {
        self.0.wire_bounded()
    }

    proof fn lemma_round_trip(&self, rest: Seq<u8>) {
        let t1 = rest;
        let t0 = self.0.enc() + t1;
        let s = self.enc() + rest;
        assert(s =~= t0);
        self.0.lemma_round_trip(t1);
        assert(s.skip(self.0.enc().len() as int) =~= t1);
    }
}

impl MooshroomPacket for PingResponse {
    open spec fn spec_packet_id() -> i32 {
        1
    }

    fn packet_id() -> (id: i32) {
        1
    }
}


} // verus!
