use vstd::prelude::*;

#[allow(unused_imports)]
use crate::containers::{Json, TOption};
#[allow(unused_imports)]
use crate::data::{
    MooshroomBitFlag, MooshroomCollection, MooshroomCollectionWrite, MooshroomIdentifiable,
    MooshroomUpdatable, MooshroomValue,
};
#[allow(unused_imports)]
use crate::error::MooshroomError;
#[allow(unused_imports)]
use crate::io::{
    MooshroomCommand, MooshroomPacket, MooshroomReadable, MooshroomRoundTrip, MooshroomWritable,
};
#[allow(unused_imports)]
use crate::primitives::{
    be_dec, be_enc, lemma_be_dec_bound, lemma_be_enc_len, lemma_be_round_trip,
    lemma_pow256_values, sig_to_un,
    str_eq, un_to_sig, F32Bits, F64Bits, Identifier, Position, Uuid, Vec3,
};
#[allow(unused_imports)]
use crate::reader::Reader;
#[allow(unused_imports)]
use crate::varint::{
    lemma_varint_round_trip, read_varint, varint_dec, varint_enc, write_varint, VarInt, VarLong,
};
#[allow(unused_imports)]
use vstd::string::StringExecFns;

verus! {

/// Profile signature material announced at login.
#[derive(Clone, Debug, Default, PartialEq)]
pub struct SignatureData {
    pub timestamp: u64,
    pub public_key: Vec<u8>,
    pub signature: Vec<u8>,
}

/// The mathematical value of a `SignatureData`, for contracts.
pub struct SignatureDataView {
    pub timestamp: u64,
    pub public_key: Seq<u8>,
    pub signature: Seq<u8>,
}

impl DeepView for SignatureData {
    type V = SignatureDataView;

    open spec fn deep_view(&self) -> SignatureDataView {
        SignatureDataView {
            timestamp: self.timestamp.deep_view(),
            public_key: self.public_key.deep_view(),
            signature: self.signature.deep_view(),
        }
    }
}

impl MooshroomWritable for SignatureData {
    open spec fn enc(&self) -> Seq<u8> {
        self.timestamp.enc() + self.public_key.enc() + self.signature.enc()
    }

    fn write(&self, w: &mut Vec<u8>) {
        self.timestamp.write(w);
        self.public_key.write(w);
        self.signature.write(w);
        proof {
            assert(w@ =~= old(w)@ + self.enc());
        }
    }
}

impl MooshroomReadable for SignatureData {
    open spec fn dec(s: Seq<u8>) -> Option<(SignatureDataView, int)> {
        match <u64 as MooshroomReadable>::dec(s) {
            Some((v0, n0)) => match <Vec<u8> as MooshroomReadable>::dec(s.skip(n0)) {
                Some((v1, n1)) => match <Vec<u8> as MooshroomReadable>::dec(s.skip(n0 + n1)) {
                    Some((v2, n2)) => Some((SignatureDataView { timestamp: v0, public_key: v1, signature: v2 }, n0 + n1 + n2)),
                    None => None,
                },
                None => None,
            },
            None => None,
        }
    }

    fn read(r: &mut Reader) -> (res: Result<Self, MooshroomError>) {
        let ghost s0 = old(r).remaining();
        let ghost p0 = old(r).pos();
        let timestamp = match <u64 as MooshroomReadable>::read(r) {
            Ok(v) => v,
            Err(e) => {
                return Err(e);
            },
        };
        proof {
            assert(r.remaining() =~= s0.skip(r.pos() - p0));
        }
        let public_key = match <Vec<u8> as MooshroomReadable>::read(r) {
            Ok(v) => v,
            Err(e) => {
                return Err(e);
            },
        };
        proof {
            assert(r.remaining() =~= s0.skip(r.pos() - p0));
        }
        let signature = match <Vec<u8> as MooshroomReadable>::read(r) {
            Ok(v) => v,
            Err(e) => {
                return Err(e);
            },
        };
        Ok(SignatureData { timestamp, public_key, signature })
    }
}

impl MooshroomRoundTrip for SignatureData {
    open spec fn wire_bounded(&self) -> bool {
        self.timestamp.wire_bounded() && self.public_key.wire_bounded() && self.signature.wire_bounded()
    }

    proof fn lemma_round_trip(&self, rest: Seq<u8>)
    {
        let t3 = rest;
        let t2 = self.signature.enc() + t3;
        let t1 = self.public_key.enc() + t2;
        let t0 = self.timestamp.enc() + t1;
        let s = self.enc() + rest;
        crate::io::lemma_concat_assoc(self.timestamp.enc() + self.public_key.enc(), self.signature.enc(), t3);
        crate::io::lemma_concat_assoc(self.timestamp.enc(), self.public_key.enc(), t2);
        assert(s == t0);
        self.timestamp.lemma_round_trip(t1);
        crate::io::lemma_concat_skip_prefix(self.timestamp.enc(), t1);
        self.public_key.lemma_round_trip(t2);
        crate::io::lemma_concat_skip_prefix(self.public_key.enc(), t2);
        crate::io::lemma_skip_of_skip(s, (self.timestamp.enc().len()) as int, self.public_key.enc().len() as int);
        self.signature.lemma_round_trip(t3);
        crate::io::lemma_concat_skip_prefix(self.signature.enc(), t3);
        crate::io::lemma_skip_of_skip(s, (self.timestamp.enc().len() + self.public_key.enc().len()) as int, self.signature.enc().len() as int);
    }
}


} // verus!
