use vstd::prelude::*;

#[allow(unused_imports)]
use crate::containers::{Json, TOption};
#[allow(unused_imports)]
use crate::data::{
    MooshroomBitFlag, MooshroomCollection, MooshroomCollectionWrite, MooshroomIdentifiable,
    MooshroomUpdatable, MooshroomValue,
};
#[allow(unused_imports)]
use crate::error::MooshroomError;
#[allow(unused_imports)]
use crate::io::{
    MooshroomCommand, MooshroomPacket, MooshroomReadable, MooshroomRoundTrip, MooshroomWritable,
};
#[allow(unused_imports)]
use crate::primitives::{
    be_dec, be_enc, lemma_be_dec_bound, lemma_be_enc_len, lemma_be_round_trip,
    lemma_pow256_values, sig_to_un,
    str_eq, un_to_sig, F32Bits, F64Bits, Identifier, Position, Uuid, Vec3,
};
#[allow(unused_imports)]
use crate::reader::Reader;
#[allow(unused_imports)]
use crate::varint::{
    lemma_varint_round_trip, read_varint, varint_dec, varint_enc, write_varint, VarInt, VarLong,
};
#[allow(unused_imports)]
use vstd::string::StringExecFns;

verus! {

/// The reply to a keep-alive probe, echoing the server's token.
#[derive(Copy, Clone, Debug, Default, PartialEq, Eq)]
pub struct KeepAliveResponse(pub i64);

impl DeepView for KeepAliveResponse {
    type V = KeepAliveResponse;

    open spec fn deep_view(&self) -> KeepAliveResponse {
        *self
    }
}

impl MooshroomWritable for KeepAliveResponse {
    open spec fn enc(&self) -> Seq<u8> {
        self.0.enc()
    }

    fn write(&self, w: &mut Vec<u8>) {
        self.0.write(w);
        proof {
            assert(w@ =~= old(w)@ + self.enc());
        }
    }
}

impl MooshroomReadable for KeepAliveResponse {
    open spec fn dec(s: Seq<u8>) -> Option<(KeepAliveResponse, int)> {
        match <i64 as MooshroomReadable>::dec(s) {
            Some((v0, n0)) => Some((KeepAliveResponse(v0), n0)),
            None => None,
        }
    }

    fn read(r: &mut Reader) -> (res: Result<Self, MooshroomError>) {
        let ghost s0 = old(r).remaining();
        let ghost p0 = old(r).pos();
        let f0 = match <i64 as MooshroomReadable>::read(r) {
            Ok(v) => v,
            Err(e) => {
                return Err(e);
            },
        };
        Ok(KeepAliveResponse(f0))
    }
}

impl MooshroomRoundTrip for KeepAliveResponse {
    open spec fn wire_bounded(&self) -> bool {
        self.0.wire_bounded()
    }

    proof fn lemma_round_trip(&self, rest: Seq<u8>)
    {
        let t1 = rest;
        let t0 = self.0.enc() + t1;
        let s = self.enc() + rest;
        assert(s == t0);
        self.0.lemma_round_trip(t1);
        crate::io::lemma_concat_skip_prefix(self.0.enc(), t1);
    }
}

impl MooshroomPacket for KeepAliveResponse {
    open spec fn spec_packet_id() -> i32 {
        18
    }

    fn packet_id() -> (id: i32) {
        18
    }
}


} // verus!
