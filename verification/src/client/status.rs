use vstd::prelude::*;

#[allow(unused_imports)]
use crate::containers::{Json, TOption};
#[allow(unused_imports)]
use crate::data::{
    MooshroomBitFlag, MooshroomCollection, MooshroomCollectionWrite, MooshroomIdentifiable,
    MooshroomUpdatable, MooshroomValue,
};
#[allow(unused_imports)]
use crate::error::MooshroomError;
#[allow(unused_imports)]
use crate::io::{
    MooshroomCommand, MooshroomPacket, MooshroomReadable, MooshroomRoundTrip, MooshroomWritable,
};
#[allow(unused_imports)]
use crate::primitives::{
    be_dec, be_enc, lemma_be_dec_bound, lemma_be_enc_len, lemma_be_round_trip,
    lemma_pow256_values, sig_to_un,
    str_eq, un_to_sig, F32Bits, F64Bits, Identifier, Position, Uuid, Vec3,
};
#[allow(unused_imports)]
use crate::reader::Reader;
#[allow(unused_imports)]
use crate::varint::{
    lemma_varint_round_trip, read_varint, varint_dec, varint_enc, write_varint, VarInt, VarLong,
};
#[allow(unused_imports)]
use vstd::string::StringExecFns;
#[allow(unused_imports)]
use crate::server::status::{PingResponse, StatusResponse};

verus! {

/// An empty body asking for the server list entry.
#[derive(Copy, Clone, Debug, Default, PartialEq, Eq)]
pub struct StatusRequest;

impl DeepView for StatusRequest {
    type V = StatusRequest;

    open spec fn deep_view(&self) -> StatusRequest {
        *self
    }
}

impl MooshroomWritable for StatusRequest {
    open spec fn enc(&self) -> Seq<u8> {
        Seq::empty()
    }

    fn write(&self, w: &mut Vec<u8>) {
        proof {
            assert(w@ =~= old(w)@ + self.enc());
        }
    }
}

impl MooshroomReadable for StatusRequest {
    open spec fn dec(s: Seq<u8>) -> Option<(StatusRequest, int)> {
        Some((StatusRequest, 0))
    }

    fn read(r: &mut Reader) -> (res: Result<Self, MooshroomError>) {
        Ok(StatusRequest)
    }
}

impl MooshroomRoundTrip for StatusRequest {
    open spec fn wire_bounded(&self) -> bool {
        true
    }

    proof fn lemma_round_trip(&self, rest: Seq<u8>)
    {
        assert(self.enc() + rest =~= rest);
    }
}

impl MooshroomPacket for StatusRequest {
    open spec fn spec_packet_id() -> i32 {
        0
    }

    fn packet_id() -> (id: i32) {
        0
    }
}

impl MooshroomCommand for StatusRequest {
    type Response = StatusResponse;
}

/// An opaque payload the server echoes back.
#[derive(Copy, Clone, Debug, Default, PartialEq, Eq)]
pub struct PingRequest(pub u64);

impl DeepView for PingRequest {
    type V = PingRequest;

    open spec fn deep_view(&self) -> PingRequest {
        *self
    }
}

impl MooshroomWritable for PingRequest {
    open spec fn enc(&self) -> Seq<u8> {
        self.0.enc()
    }

    fn write(&self, w: &mut Vec<u8>) {
        self.0.write(w);
        proof {
            assert(w@ =~= old(w)@ + self.enc());
        }
    }
}

impl MooshroomReadable for PingRequest {
    open spec fn dec(s: Seq<u8>) -> Option<(PingRequest, int)> {
        match <u64 as MooshroomReadable>::dec(s) {
            Some((v0, n0)) => Some((PingRequest(v0), n0)),
            None => None,
        }
    }

    fn read(r: &mut Reader) -> (res: Result<Self, MooshroomError>) {
        let ghost s0 = old(r).remaining();
        let ghost p0 = old(r).pos();
        let f0 = match <u64 as MooshroomReadable>::read(r) {
            Ok(v) => v,
            Err(e) => {
                return Err(e);
            },
        };
        Ok(PingRequest(f0))
    }
}

impl MooshroomRoundTrip for PingRequest {
    open spec fn wire_bounded(&self) -> bool {
        self.0.wire_bounded()
    }

    proof fn lemma_round_trip(&self, rest: Seq<u8>)
    {
        let t1 = rest;
        let t0 = self.0.enc() + t1;
        let s = self.enc() + rest;
        assert(s == t0);
        self.0.lemma_round_trip(t1);
        crate::io::lemma_concat_skip_prefix(self.0.enc(), t1);
    }
}

impl MooshroomPacket for PingRequest {
    open spec fn spec_packet_id() -> i32 {
        1
    }

    fn packet_id() -> (id: i32) {
        1
    }
}

impl MooshroomCommand for PingRequest {
    type Response = PingResponse;
}


} // verus!
