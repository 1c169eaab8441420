use vstd::prelude::*;

#[allow(unused_imports)]
use crate::containers::{Json, TOption};
#[allow(unused_imports)]
use crate::data::{
    MooshroomBitFlag, MooshroomCollection, MooshroomCollectionWrite, MooshroomIdentifiable,
    MooshroomUpdatable, MooshroomValue,
};
#[allow(unused_imports)]
use crate::error::MooshroomError;
#[allow(unused_imports)]
use crate::io::{
    MooshroomCommand, MooshroomPacket, MooshroomReadable, MooshroomRoundTrip, MooshroomWritable,
};
#[allow(unused_imports)]
use crate::primitives::{
    be_dec, be_enc, lemma_be_dec_bound, lemma_be_enc_len, lemma_be_round_trip,
    lemma_pow256_values, sig_to_un,
    str_eq, un_to_sig, F32Bits, F64Bits, Identifier, Position, Uuid, Vec3,
};
#[allow(unused_imports)]
use crate::reader::Reader;
#[allow(unused_imports)]
use crate::varint::{
    lemma_varint_round_trip, read_varint, varint_dec, varint_enc, write_varint, VarInt, VarLong,
};
#[allow(unused_imports)]
use vstd::string::StringExecFns;
#[allow(unused_imports)]
use crate::types::Chat;

verus! {

/// A login-stage rejection carrying a chat payload.
#[derive(Clone, Debug, Default, PartialEq)]
pub struct Disconnect(pub Chat);

/// The mathematical value of a `Disconnect`, for contracts.
pub struct DisconnectView(pub Seq<char>);

impl DeepView for Disconnect {
    type V = DisconnectView;

    open spec fn deep_view(&self) -> DisconnectView {
        DisconnectView(self.0.deep_view())
    }
}

impl MooshroomWritable for Disconnect {
    open spec fn enc(&self) -> Seq<u8> {
        self.0.enc()
    }

    fn write(&self, w: &mut Vec<u8>) {
        self.0.write(w);
        proof {
            assert(w@ =~= old(w)@ + self.enc());
        }
    }
}

impl MooshroomReadable for Disconnect {
    open spec fn dec(s: Seq<u8>) -> Option<(DisconnectView, int)> {
        match <String as MooshroomReadable>::dec(s) {
            Some((v0, n0)) => Some((DisconnectView(v0), n0)),
            None => None,
        }
    }

    fn read(r: &mut Reader) -> (res: Result<Self, MooshroomError>) {
        let ghost s0 = old(r).remaining();
        let ghost p0 = old(r).pos();
        let f0 = match <String as MooshroomReadable>::read(r) {
            Ok(v) => v,
            Err(e) => {
                return Err(e);
            },
        };
        Ok(Disconnect(f0))
    }
}

impl MooshroomRoundTrip for Disconnect {
    open spec fn wire_bounded(&self) -> bool {
        self.0.wire_bounded()
    }

    proof fn lemma_round_trip(&self, rest: Seq<u8>)
    {
        let t1 = rest;
        let t0 = self.0.enc() + t1;
        let s = self.enc() + rest;
        assert(s == t0);
        self.0.lemma_round_trip(t1);
        crate::io::lemma_concat_skip_prefix(self.0.enc(), t1);
    }
}

impl MooshroomPacket for Disconnect {
    open spec fn spec_packet_id() -> i32 {
        0
    }

    fn packet_id() -> (id: i32) {
        0
    }
}

/// The server's demand for online-mode encryption; fatal for an
/// offline client.
#[derive(Clone, Debug, Default, PartialEq)]
pub struct EncryptionRequest {
    pub server_id: String,
    pub public_key: Vec<u8>,
    pub verify_token: Vec<u8>,
}

/// The mathematical value of a `EncryptionRequest`, for contracts.
pub struct EncryptionRequestView {
    pub server_id: Seq<char>,
    pub public_key: Seq<u8>,
    pub verify_token: Seq<u8>,
}

impl DeepView for EncryptionRequest {
    type V = EncryptionRequestView;

    open spec fn deep_view(&self) -> EncryptionRequestView {
        EncryptionRequestView {
            server_id: self.server_id.deep_view(),
            public_key: self.public_key.deep_view(),
            verify_token: self.verify_token.deep_view(),
        }
    }
}

impl MooshroomWritable for EncryptionRequest {
    open spec fn enc(&self) -> Seq<u8> {
        self.server_id.enc() + self.public_key.enc() + self.verify_token.enc()
    }

    fn write(&self, w: &mut Vec<u8>) {
        self.server_id.write(w);
        self.public_key.write(w);
        self.verify_token.write(w);
        proof {
            assert(w@ =~= old(w)@ + self.enc());
        }
    }
}

impl MooshroomReadable for EncryptionRequest {
    open spec fn dec(s: Seq<u8>) -> Option<(EncryptionRequestView, int)> {
        match <String as MooshroomReadable>::dec(s) {
            Some((v0, n0)) => match <Vec<u8> as MooshroomReadable>::dec(s.skip(n0)) {
                Some((v1, n1)) => match <Vec<u8> as MooshroomReadable>::dec(s.skip(n0 + n1)) {
                    Some((v2, n2)) => Some((EncryptionRequestView { server_id: v0, public_key: v1, verify_token: v2 }, n0 + n1 + n2)),
                    None => None,
                },
                None => None,
            },
            None => None,
        }
    }

    fn read(r: &mut Reader) -> (res: Result<Self, MooshroomError>) {
        let ghost s0 = old(r).remaining();
        let ghost p0 = old(r).pos();
        let server_id = match <String as MooshroomReadable>::read(r) {
            Ok(v) => v,
            Err(e) => {
                return Err(e);
            },
        };
        proof {
            assert(r.remaining() =~= s0.skip(r.pos() - p0));
        }
        let public_key = match <Vec<u8> as MooshroomReadable>::read(r) {
            Ok(v) => v,
            Err(e) => {
                return Err(e);
            },
        };
        proof {
            assert(r.remaining() =~= s0.skip(r.pos() - p0));
        }
        let verify_token = match <Vec<u8> as MooshroomReadable>::read(r) {
            Ok(v) => v,
            Err(e) => {
                return Err(e);
            },
        };
        Ok(EncryptionRequest { server_id, public_key, verify_token })
    }
}

impl MooshroomRoundTrip for EncryptionRequest {
    open spec fn wire_bounded(&self) -> bool {
        self.server_id.wire_bounded() && self.public_key.wire_bounded() && self.verify_token.wire_bounded()
    }

    proof fn lemma_round_trip(&self, rest: Seq<u8>)
    {
        let t3 = rest;
        let t2 = self.verify_token.enc() + t3;
        let t1 = self.public_key.enc() + t2;
        let t0 = self.server_id.enc() + t1;
        let s = self.enc() + rest;
        crate::io::lemma_concat_assoc(self.server_id.enc() + self.public_key.enc(), self.verify_token.enc(), t3);
        crate::io::lemma_concat_assoc(self.server_id.enc(), self.public_key.enc(), t2);
        assert(s == t0);
        self.server_id.lemma_round_trip(t1);
        crate::io::lemma_concat_skip_prefix(self.server_id.enc(), t1);
        self.public_key.lemma_round_trip(t2);
        crate::io::lemma_concat_skip_prefix(self.public_key.enc(), t2);
        crate::io::lemma_skip_of_skip(s, (self.server_id.enc().len()) as int, self.public_key.enc().len() as int);
        self.verify_token.lemma_round_trip(t3);
        crate::io::lemma_concat_skip_prefix(self.verify_token.enc(), t3);
        crate::io::lemma_skip_of_skip(s, (self.server_id.enc().len() + self.public_key.enc().len()) as int, self.verify_token.enc().len() as int);
    }
}

impl MooshroomPacket for EncryptionRequest {
    open spec fn spec_packet_id() -> i32 {
        1
    }

    fn packet_id() -> (id: i32) {
        1
    }
}

#[derive(Clone, Debug, Default, PartialEq)]
pub struct Property {
    pub name: String,
    pub value: String,
    pub signature: Option<String>,
}

/// The mathematical value of a `Property`, for contracts.
pub struct PropertyView {
    pub name: Seq<char>,
    pub value: Seq<char>,
    pub signature: Option<Seq<char>>,
}

impl DeepView for Property {
    type V = PropertyView;

    open spec fn deep_view(&self) -> PropertyView {
        PropertyView {
            name: self.name.deep_view(),
            value: self.value.deep_view(),
            signature: self.signature.deep_view(),
        }
    }
}

impl MooshroomWritable for Property {
    open spec fn enc(&self) -> Seq<u8> {
        self.name.enc() + self.value.enc() + self.signature.enc()
    }

    fn write(&self, w: &mut Vec<u8>) {
        self.name.write(w);
        self.value.write(w);
        self.signature.write(w);
        proof {
            assert(w@ =~= old(w)@ + self.enc());
        }
    }
}

impl MooshroomReadable for Property {
    open spec fn dec(s: Seq<u8>) -> Option<(PropertyView, int)> {
        match <String as MooshroomReadable>::dec(s) {
            Some((v0, n0)) => match <String as MooshroomReadable>::dec(s.skip(n0)) {
                Some((v1, n1)) => match <Option<String> as MooshroomReadable>::dec(s.skip(n0 + n1)) {
                    Some((v2, n2)) => Some((PropertyView { name: v0, value: v1, signature: v2 }, n0 + n1 + n2)),
                    None => None,
                },
                None => None,
            },
            None => None,
        }
    }

    fn read(r: &mut Reader) -> (res: Result<Self, MooshroomError>) {
        let ghost s0 = old(r).remaining();
        let ghost p0 = old(r).pos();
        let name = match <String as MooshroomReadable>::read(r) {
            Ok(v) => v,
            Err(e) => {
                return Err(e);
            },
        };
        proof {
            assert(r.remaining() =~= s0.skip(r.pos() - p0));
        }
        let value = match <String as MooshroomReadable>::read(r) {
            Ok(v) => v,
            Err(e) => {
                return Err(e);
            },
        };
        proof {
            assert(r.remaining() =~= s0.skip(r.pos() - p0));
        }
        let signature = match <Option<String> as MooshroomReadable>::read(r) {
            Ok(v) => v,
            Err(e) => {
                return Err(e);
            },
        };
        Ok(Property { name, value, signature })
    }
}

impl MooshroomRoundTrip for Property {
    open spec fn wire_bounded(&self) -> bool {
        self.name.wire_bounded() && self.value.wire_bounded() && self.signature.wire_bounded()
    }

    proof fn lemma_round_trip(&self, rest: Seq<u8>)
    {
        let t3 = rest;
        let t2 = self.signature.enc() + t3;
        let t1 = self.value.enc() + t2;
        let t0 = self.name.enc() + t1;
        let s = self.enc() + rest;
        crate::io::lemma_concat_assoc(self.name.enc() + self.value.enc(), self.signature.enc(), t3);
        crate::io::lemma_concat_assoc(self.name.enc(), self.value.enc(), t2);
        assert(s == t0);
        self.name.lemma_round_trip(t1);
        crate::io::lemma_concat_skip_prefix(self.name.enc(), t1);
        self.value.lemma_round_trip(t2);
        crate::io::lemma_concat_skip_prefix(self.value.enc(), t2);
        crate::io::lemma_skip_of_skip(s, (self.name.enc().len()) as int, self.value.enc().len() as int);
        self.signature.lemma_round_trip(t3);
        crate::io::lemma_concat_skip_prefix(self.signature.enc(), t3);
        crate::io::lemma_skip_of_skip(s, (self.name.enc().len() + self.value.enc().len()) as int, self.signature.enc().len() as int);
    }
}

/// The packet that moves the connection into the play stage.
#[derive(Clone, Debug, Default, PartialEq)]
pub struct LoginSuccess {
    pub uuid: Uuid,
    pub username: String,
    pub properties: Vec<Property>,
}

/// The mathematical value of a `LoginSuccess`, for contracts.
pub struct LoginSuccessView {
    pub uuid: Uuid,
    pub username: Seq<char>,
    pub properties: Seq<PropertyView>,
}

impl DeepView for LoginSuccess {
    type V = LoginSuccessView;

    open spec fn deep_view(&self) -> LoginSuccessView {
        LoginSuccessView {
            uuid: self.uuid.deep_view(),
            username: self.username.deep_view(),
            properties: self.properties.deep_view(),
        }
    }
}

impl MooshroomWritable for LoginSuccess {
    open spec fn enc(&self) -> Seq<u8> {
        self.uuid.enc() + self.username.enc() + self.properties.enc()
    }

    fn write(&self, w: &mut Vec<u8>) {
        self.uuid.write(w);
        self.username.write(w);
        self.properties.write(w);
        proof {
            assert(w@ =~= old(w)@ + self.enc());
        }
    }
}

impl MooshroomReadable for LoginSuccess {
    open spec fn dec(s: Seq<u8>) -> Option<(LoginSuccessView, int)> {
        match <Uuid as MooshroomReadable>::dec(s) {
            Some((v0, n0)) => match <String as MooshroomReadable>::dec(s.skip(n0)) {
                Some((v1, n1)) => match <Vec<Property> as MooshroomReadable>::dec(s.skip(n0 + n1)) {
                    Some((v2, n2)) => Some((LoginSuccessView { uuid: v0, username: v1, properties: v2 }, n0 + n1 + n2)),
                    None => None,
                },
                None => None,
            },
            None => None,
        }
    }

    fn read(r: &mut Reader) -> (res: Result<Self, MooshroomError>) {
        let ghost s0 = old(r).remaining();
        let ghost p0 = old(r).pos();
        let uuid = match <Uuid as MooshroomReadable>::read(r) {
            Ok(v) => v,
            Err(e) => {
                return Err(e);
            },
        };
        proof {
            assert(r.remaining() =~= s0.skip(r.pos() - p0));
        }
        let username = match <String as MooshroomReadable>::read(r) {
            Ok(v) => v,
            Err(e) => {
                return Err(e);
            },
        };
        proof {
            assert(r.remaining() =~= s0.skip(r.pos() - p0));
        }
        let properties = match <Vec<Property> as MooshroomReadable>::read(r) {
            Ok(v) => v,
            Err(e) => {
                return Err(e);
            },
        };
        Ok(LoginSuccess { uuid, username, properties })
    }
}

impl MooshroomRoundTrip for LoginSuccess {
    open spec fn wire_bounded(&self) -> bool {
        self.uuid.wire_bounded() && self.username.wire_bounded() && self.properties.wire_bounded()
    }

    proof fn lemma_round_trip(&self, rest: Seq<u8>)
    {
        let t3 = rest;
        let t2 = self.properties.enc() + t3;
        let t1 = self.username.enc() + t2;
        let t0 = self.uuid.enc() + t1;
        let s = self.enc() + rest;
        crate::io::lemma_concat_assoc(self.uuid.enc() + self.username.enc(), self.properties.enc(), t3);
        crate::io::lemma_concat_assoc(self.uuid.enc(), self.username.enc(), t2);
        assert(s == t0);
        self.uuid.lemma_round_trip(t1);
        crate::io::lemma_concat_skip_prefix(self.uuid.enc(), t1);
        self.username.lemma_round_trip(t2);
        crate::io::lemma_concat_skip_prefix(self.username.enc(), t2);
        crate::io::lemma_skip_of_skip(s, (self.uuid.enc().len()) as int, self.username.enc().len() as int);
        self.properties.lemma_round_trip(t3);
        crate::io::lemma_concat_skip_prefix(self.properties.enc(), t3);
        crate::io::lemma_skip_of_skip(s, (self.uuid.enc().len() + self.username.enc().len()) as int, self.properties.enc().len() as int);
    }
}

impl MooshroomPacket for LoginSuccess {
    open spec fn spec_packet_id() -> i32 {
        2
    }

    fn packet_id() -> (id: i32) {
        2
    }
}

/// Negotiates the frame compression threshold; a negative value turns
/// compression off.
#[derive(Copy, Clone, Debug, Default, PartialEq, Eq)]
pub struct SetCompression {
    pub threshold: VarInt,
}

impl DeepView for SetCompression {
    type V = SetCompression;

    open spec fn deep_view(&self) -> SetCompression {
        *self
    }
}

impl MooshroomWritable for SetCompression {
    open spec fn enc(&self) -> Seq<u8> {
        self.threshold.enc()
    }

    fn write(&self, w: &mut Vec<u8>) {
        self.threshold.write(w);
        proof {
            assert(w@ =~= old(w)@ + self.enc());
        }
    }
}

impl MooshroomReadable for SetCompression {
    open spec fn dec(s: Seq<u8>) -> Option<(SetCompression, int)> {
        match <VarInt as MooshroomReadable>::dec(s) {
            Some((v0, n0)) => Some((SetCompression { threshold: v0 }, n0)),
            None => None,
        }
    }

    fn read(r: &mut Reader) -> (res: Result<Self, MooshroomError>) {
        let ghost s0 = old(r).remaining();
        let ghost p0 = old(r).pos();
        let threshold = match <VarInt as MooshroomReadable>::read(r) {
            Ok(v) => v,
            Err(e) => {
                return Err(e);
            },
        };
        Ok(SetCompression { threshold })
    }
}

impl MooshroomRoundTrip for SetCompression {
    open spec fn wire_bounded(&self) -> bool {
        self.threshold.wire_bounded()
    }

    proof fn lemma_round_trip(&self, rest: Seq<u8>)
    {
        let t1 = rest;
        let t0 = self.threshold.enc() + t1;
        let s = self.enc() + rest;
        assert(s == t0);
        self.threshold.lemma_round_trip(t1);
        crate::io::lemma_concat_skip_prefix(self.threshold.enc(), t1);
    }
}

impl MooshroomPacket for SetCompression {
    open spec fn spec_packet_id() -> i32 {
        3
    }

    fn packet_id() -> (id: i32) {
        3
    }
}

/// Everything the server may send while logging in, keyed by packet
/// identifier.
#[derive(Clone, Debug, PartialEq)]
pub enum LoginStage {
    Disconnect(Disconnect),
    SetCompression(SetCompression),
    Success(LoginSuccess),
}

/// The mathematical value of a `LoginStage`, for contracts.
pub enum LoginStageView {
    Disconnect(DisconnectView),
    SetCompression(SetCompression),
    Success(LoginSuccessView),
}

impl DeepView for LoginStage {
    type V = LoginStageView;

    open spec fn deep_view(&self) -> LoginStageView {
        match self {
            LoginStage::Disconnect(v) => LoginStageView::Disconnect(v.deep_view()),
            LoginStage::SetCompression(v) => LoginStageView::SetCompression(v.deep_view()),
            LoginStage::Success(v) => LoginStageView::Success(v.deep_view()),
        }
    }
}

impl MooshroomCollection for LoginStage {
    open spec fn spec_in_collection(id: i32) -> bool {
        id == 0 || id == 3 || id == 2
    }

    open spec fn dec_one_of(id: i32, s: Seq<u8>) -> Option<(LoginStageView, int)> {
        if id == 0 {
            match <Disconnect as MooshroomReadable>::dec(s) {
                Some((v, n)) => Some((LoginStageView::Disconnect(v), n)),
                None => None,
            }
        } else if id == 3 {
            match <SetCompression as MooshroomReadable>::dec(s) {
                Some((v, n)) => Some((LoginStageView::SetCompression(v), n)),
                None => None,
            }
        } else if id == 2 {
            match <LoginSuccess as MooshroomReadable>::dec(s) {
                Some((v, n)) => Some((LoginStageView::Success(v), n)),
                None => None,
            }
        } else {
            None
        }
    }

    fn read_one_of(id: i32, r: &mut Reader) -> (res: Result<Self, MooshroomError>) {
        if id == 0 {
            match <Disconnect as MooshroomReadable>::read(r) {
                Ok(v) => Ok(LoginStage::Disconnect(v)),
                Err(e) => Err(e),
            }
        } else if id == 3 {
            match <SetCompression as MooshroomReadable>::read(r) {
                Ok(v) => Ok(LoginStage::SetCompression(v)),
                Err(e) => Err(e),
            }
        } else if id == 2 {
            match <LoginSuccess as MooshroomReadable>::read(r) {
                Ok(v) => Ok(LoginStage::Success(v)),
                Err(e) => Err(e),
            }
        } else {
            Err(MooshroomError::NotInCollection(id))
        }
    }
}

impl MooshroomCollectionWrite for LoginStage {
    open spec fn spec_variant_id(&self) -> i32 {
        match self {
            LoginStage::Disconnect(_) => 0,
            LoginStage::SetCompression(_) => 3,
            LoginStage::Success(_) => 2,
        }
    }

    open spec fn enc_body(&self) -> Seq<u8> {
        match self {
            LoginStage::Disconnect(v) => v.enc(),
            LoginStage::SetCompression(v) => v.enc(),
            LoginStage::Success(v) => v.enc(),
        }
    }

    fn variant_id(&self) -> (id: i32) {
        match self {
            LoginStage::Disconnect(_) => 0,
            LoginStage::SetCompression(_) => 3,
            LoginStage::Success(_) => 2,
        }
    }

    fn write_one_of(&self, w: &mut Vec<u8>) {
        match self {
            LoginStage::Disconnect(v) => v.write(w),
            LoginStage::SetCompression(v) => v.write(w),
            LoginStage::Success(v) => v.write(w),
        }
    }
}


} // verus!
