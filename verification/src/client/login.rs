use vstd::prelude::*;

#[allow(unused_imports)]
use crate::containers::{Json, TOption};
#[allow(unused_imports)]
use crate::data::{
    MooshroomBitFlag, MooshroomCollection, MooshroomCollectionWrite, MooshroomIdentifiable,
    MooshroomUpdatable, MooshroomValue,
};
#[allow(unused_imports)]
use crate::error::MooshroomError;
#[allow(unused_imports)]
use crate::io::{
    MooshroomCommand, MooshroomPacket, MooshroomReadable, MooshroomRoundTrip, MooshroomWritable,
};
#[allow(unused_imports)]
use crate::primitives::{
    be_dec, be_enc, lemma_be_dec_bound, lemma_be_enc_len, lemma_be_round_trip,
    lemma_pow256_values, sig_to_un,
    str_eq, un_to_sig, F32Bits, F64Bits, Identifier, Position, Uuid, Vec3,
};
#[allow(unused_imports)]
use crate::reader::Reader;
#[allow(unused_imports)]
use crate::varint::{
    lemma_varint_round_trip, read_varint, varint_dec, varint_enc, write_varint, VarInt, VarLong,
};
#[allow(unused_imports)]
use vstd::string::StringExecFns;
#[allow(unused_imports)]
use crate::shared::{SignatureData, SignatureDataView};

verus! {

/// Offline-mode login announcement: a player name with no signature
/// material.
#[derive(Clone, Debug, Default, PartialEq)]
pub struct LoginStart {
    pub name: String,
    pub sig_data: Option<SignatureData>,
    pub player_uuid: Option<Uuid>,
}

/// The mathematical value of a `LoginStart`, for contracts.
pub struct LoginStartView {
    pub name: Seq<char>,
    pub sig_data: Option<SignatureDataView>,
    pub player_uuid: Option<Uuid>,
}

impl DeepView for LoginStart {
    type V = LoginStartView;

    open spec fn deep_view(&self) -> LoginStartView {
        LoginStartView {
            name: self.name.deep_view(),
            sig_data: self.sig_data.deep_view(),
            player_uuid: self.player_uuid.deep_view(),
        }
    }
}

impl MooshroomWritable for LoginStart {
    open spec fn enc(&self) -> Seq<u8> {
        self.name.enc() + self.sig_data.enc() + self.player_uuid.enc()
    }

    fn write(&self, w: &mut Vec<u8>) {
        self.name.write(w);
        self.sig_data.write(w);
        self.player_uuid.write(w);
        proof {
            assert(w@ =~= old(w)@ + self.enc());
        }
    }
}

impl MooshroomReadable for LoginStart {
    open spec fn dec(s: Seq<u8>) -> Option<(LoginStartView, int)> {
        match <String as MooshroomReadable>::dec(s) {
            Some((v0, n0)) => match <Option<SignatureData> as MooshroomReadable>::dec(s.skip(n0)) {
                Some((v1, n1)) => match <Option<Uuid> as MooshroomReadable>::dec(s.skip(n0 + n1)) {
                    Some((v2, n2)) => Some((LoginStartView { name: v0, sig_data: v1, player_uuid: v2 }, n0 + n1 + n2)),
                    None => None,
                },
                None => None,
            },
            None => None,
        }
    }

    fn read(r: &mut Reader) -> (res: Result<Self, MooshroomError>) {
        let ghost s0 = old(r).remaining();
        let ghost p0 = old(r).pos();
        let name = match <String as MooshroomReadable>::read(r) {
            Ok(v) => v,
            Err(e) => {
                return Err(e);
            },
        };
        proof {
            assert(r.remaining() =~= s0.skip(r.pos() - p0));
        }
        let sig_data = match <Option<SignatureData> as MooshroomReadable>::read(r) {
            Ok(v) => v,
            Err(e) => {
                return Err(e);
            },
        };
        proof {
            assert(r.remaining() =~= s0.skip(r.pos() - p0));
        }
        let player_uuid = match <Option<Uuid> as MooshroomReadable>::read(r) {
            Ok(v) => v,
            Err(e) => {
                return Err(e);
            },
        };
        Ok(LoginStart { name, sig_data, player_uuid })
    }
}

impl MooshroomRoundTrip for LoginStart {
    open spec fn wire_bounded(&self) -> bool {
        self.name.wire_bounded() && self.sig_data.wire_bounded() && self.player_uuid.wire_bounded()
    }

    proof fn lemma_round_trip(&self, rest: Seq<u8>)
    {
        let t3 = rest;
        let t2 = self.player_uuid.enc() + t3;
        let t1 = self.sig_data.enc() + t2;
        let t0 = self.name.enc() + t1;
        let s = self.enc() + rest;
        crate::io::lemma_concat_assoc(self.name.enc() + self.sig_data.enc(), self.player_uuid.enc(), t3);
        crate::io::lemma_concat_assoc(self.name.enc(), self.sig_data.enc(), t2);
        assert(s == t0);
        self.name.lemma_round_trip(t1);
        crate::io::lemma_concat_skip_prefix(self.name.enc(), t1);
        self.sig_data.lemma_round_trip(t2);
        crate::io::lemma_concat_skip_prefix(self.sig_data.enc(), t2);
        crate::io::lemma_skip_of_skip(s, (self.name.enc().len()) as int, self.sig_data.enc().len() as int);
        self.player_uuid.lemma_round_trip(t3);
        crate::io::lemma_concat_skip_prefix(self.player_uuid.enc(), t3);
        crate::io::lemma_skip_of_skip(s, (self.name.enc().len() + self.sig_data.enc().len()) as int, self.player_uuid.enc().len() as int);
    }
}

impl MooshroomPacket for LoginStart {
    open spec fn spec_packet_id() -> i32 {
        0
    }

    fn packet_id() -> (id: i32) {
        0
    }
}

#[derive(Clone, Debug, Default, PartialEq)]
pub struct SignatureInfo {
    pub salt: i64,
    pub signature: Vec<u8>,
}

/// The mathematical value of a `SignatureInfo`, for contracts.
pub struct SignatureInfoView {
    pub salt: i64,
    pub signature: Seq<u8>,
}

impl DeepView for SignatureInfo {
    type V = SignatureInfoView;

    open spec fn deep_view(&self) -> SignatureInfoView {
        SignatureInfoView {
            salt: self.salt.deep_view(),
            signature: self.signature.deep_view(),
        }
    }
}

impl MooshroomWritable for SignatureInfo {
    open spec fn enc(&self) -> Seq<u8> {
        self.salt.enc() + self.signature.enc()
    }

    fn write(&self, w: &mut Vec<u8>) {
        self.salt.write(w);
        self.signature.write(w);
        proof {
            assert(w@ =~= old(w)@ + self.enc());
        }
    }
}

impl MooshroomReadable for SignatureInfo {
    open spec fn dec(s: Seq<u8>) -> Option<(SignatureInfoView, int)> {
        match <i64 as MooshroomReadable>::dec(s) {
            Some((v0, n0)) => match <Vec<u8> as MooshroomReadable>::dec(s.skip(n0)) {
                Some((v1, n1)) => Some((SignatureInfoView { salt: v0, signature: v1 }, n0 + n1)),
                None => None,
            },
            None => None,
        }
    }

    fn read(r: &mut Reader) -> (res: Result<Self, MooshroomError>) {
        let ghost s0 = old(r).remaining();
        let ghost p0 = old(r).pos();
        let salt = match <i64 as MooshroomReadable>::read(r) {
            Ok(v) => v,
            Err(e) => {
                return Err(e);
            },
        };
        proof {
            assert(r.remaining() =~= s0.skip(r.pos() - p0));
        }
        let signature = match <Vec<u8> as MooshroomReadable>::read(r) {
            Ok(v) => v,
            Err(e) => {
                return Err(e);
            },
        };
        Ok(SignatureInfo { salt, signature })
    }
}

impl MooshroomRoundTrip for SignatureInfo {
    open spec fn wire_bounded(&self) -> bool {
        self.salt.wire_bounded() && self.signature.wire_bounded()
    }

    proof fn lemma_round_trip(&self, rest: Seq<u8>)
    {
        let t2 = rest;
        let t1 = self.signature.enc() + t2;
        let t0 = self.salt.enc() + t1;
        let s = self.enc() + rest;
        crate::io::lemma_concat_assoc(self.salt.enc(), self.signature.enc(), t2);
        assert(s == t0);
        self.salt.lemma_round_trip(t1);
        crate::io::lemma_concat_skip_prefix(self.salt.enc(), t1);
        self.signature.lemma_round_trip(t2);
        crate::io::lemma_concat_skip_prefix(self.signature.enc(), t2);
        crate::io::lemma_skip_of_skip(s, (self.salt.enc().len()) as int, self.signature.enc().len() as int);
    }
}

/// Online-mode encryption reply; the token and the signature are
/// mutually exclusive, chosen by `has_verify_token`.
#[derive(Clone, Debug, Default, PartialEq)]
pub struct EncryptionResponse {
    pub shared_secret: Vec<u8>,
    pub has_verify_token: bool,
    pub verify_token: Option<Vec<u8>>,
    pub signature: Option<SignatureInfo>,
}

/// The mathematical value of a `EncryptionResponse`, for contracts.
pub struct EncryptionResponseView {
    pub shared_secret: Seq<u8>,
    pub has_verify_token: bool,
    pub verify_token: Option<Seq<u8>>,
    pub signature: Option<SignatureInfoView>,
}

impl DeepView for EncryptionResponse {
    type V = EncryptionResponseView;

    open spec fn deep_view(&self) -> EncryptionResponseView {
        EncryptionResponseView {
            shared_secret: self.shared_secret.deep_view(),
            has_verify_token: self.has_verify_token.deep_view(),
            verify_token: self.verify_token.deep_view(),
            signature: self.signature.deep_view(),
        }
    }
}

impl MooshroomWritable for EncryptionResponse {
    open spec fn enc(&self) -> Seq<u8> {
        self.shared_secret.enc() + self.has_verify_token.enc() + self.verify_token.enc() + self.signature.enc()
    }

    fn write(&self, w: &mut Vec<u8>) {
        self.shared_secret.write(w);
        self.has_verify_token.write(w);
        self.verify_token.write(w);
        self.signature.write(w);
        proof {
            assert(w@ =~= old(w)@ + self.enc());
        }
    }
}

impl MooshroomReadable for EncryptionResponse {
    open spec fn dec(s: Seq<u8>) -> Option<(EncryptionResponseView, int)> {
        match <Vec<u8> as MooshroomReadable>::dec(s) {
            Some((v0, n0)) => match <bool as MooshroomReadable>::dec(s.skip(n0)) {
                Some((v1, n1)) => match dec_verify_token(v1, s.skip(n0 + n1)) {
                    Some((v2, n2)) => match dec_signature(v1, s.skip(n0 + n1 + n2)) {
                        Some((v3, n3)) => Some((EncryptionResponseView { shared_secret: v0, has_verify_token: v1, verify_token: v2, signature: v3 }, n0 + n1 + n2 + n3)),
                        None => None,
                    },
                    None => None,
                },
                None => None,
            },
            None => None,
        }
    }

    fn read(r: &mut Reader) -> (res: Result<Self, MooshroomError>) {
        let ghost s0 = old(r).remaining();
        let ghost p0 = old(r).pos();
        let shared_secret = match <Vec<u8> as MooshroomReadable>::read(r) {
            Ok(v) => v,
            Err(e) => {
                return Err(e);
            },
        };
        proof {
            assert(r.remaining() =~= s0.skip(r.pos() - p0));
        }
        let has_verify_token = match <bool as MooshroomReadable>::read(r) {
            Ok(v) => v,
            Err(e) => {
                return Err(e);
            },
        };
        proof {
            assert(r.remaining() =~= s0.skip(r.pos() - p0));
        }
        let verify_token = match read_verify_token(r, &has_verify_token) {
            Ok(v) => v,
            Err(e) => {
                return Err(e);
            },
        };
        proof {
            assert(r.remaining() =~= s0.skip(r.pos() - p0));
        }
        let signature = match read_signature(r, &has_verify_token) {
            Ok(v) => v,
            Err(e) => {
                return Err(e);
            },
        };
        Ok(EncryptionResponse { shared_secret, has_verify_token, verify_token, signature })
    }
}

impl MooshroomPacket for EncryptionResponse {
    open spec fn spec_packet_id() -> i32 {
        1
    }

    fn packet_id() -> (id: i32) {
        1
    }
}


/// The verify token follows exactly when `has` is set.
pub open spec fn dec_verify_token(has: bool, s: Seq<u8>) -> Option<(Option<Seq<u8>>, int)> {
    if has {
        match <Vec<u8> as MooshroomReadable>::dec(s) {
            Some((v, n)) => Some((Some(v), n)),
            None => None,
        }
    } else {
        Some((None, 0))
    }
}

/// Read the conditional verify token: present exactly when the already-read
/// `has_verify_token` field is true.
pub fn read_verify_token(r: &mut Reader, has_verify_token: &bool) -> (res: Result<
    Option<Vec<u8>>,
    MooshroomError,
>)
    requires
        old(r).wf(),
    ensures
        final(r).wf(),
        final(r).data() == old(r).data(),
        final(r).pos() >= old(r).pos(),
        match res {
            Ok(v) => dec_verify_token(*has_verify_token, old(r).remaining()) == Some(
                (v.deep_view(), final(r).pos() - old(r).pos()),
            ),
            Err(_) => dec_verify_token(*has_verify_token, old(r).remaining()) is None,
        },
{
    if *has_verify_token {
        match <Vec<u8> as MooshroomReadable>::read(r) {
            Ok(v) => Ok(Some(v)),
            Err(e) => Err(e),
        }
    } else {
        Ok(None)
    }
}

/// The salt-and-signature pair follows exactly when `has` is clear.
pub open spec fn dec_signature(has: bool, s: Seq<u8>) -> Option<(Option<SignatureInfoView>, int)> {
    if has {
        Some((None, 0))
    } else {
        match <SignatureInfo as MooshroomReadable>::dec(s) {
            Some((v, n)) => Some((Some(v), n)),
            None => None,
        }
    }
}

/// Read the conditional signature: present exactly when the already-read
/// `has_verify_token` field is false.
pub fn read_signature(r: &mut Reader, has_verify_token: &bool) -> (res: Result<
    Option<SignatureInfo>,
    MooshroomError,
>)
    requires
        old(r).wf(),
    ensures
        final(r).wf(),
        final(r).data() == old(r).data(),
        final(r).pos() >= old(r).pos(),
        match res {
            Ok(v) => dec_signature(*has_verify_token, old(r).remaining()) == Some(
                (v.deep_view(), final(r).pos() - old(r).pos()),
            ),
            Err(_) => dec_signature(*has_verify_token, old(r).remaining()) is None,
        },
{
    if *has_verify_token {
        Ok(None)
    } else {
        match <SignatureInfo as MooshroomReadable>::read(r) {
            Ok(v) => Ok(Some(v)),
            Err(e) => Err(e),
        }
    }
}

} // verus!
