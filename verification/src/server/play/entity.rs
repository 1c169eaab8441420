use vstd::prelude::*;

#[allow(unused_imports)]
use crate::containers::{Json, TOption};
#[allow(unused_imports)]
use crate::data::{
    MooshroomBitFlag, MooshroomCollection, MooshroomCollectionWrite, MooshroomIdentifiable,
    MooshroomUpdatable, MooshroomValue,
};
#[allow(unused_imports)]
use crate::error::MooshroomError;
#[allow(unused_imports)]
use crate::io::{
    MooshroomCommand, MooshroomPacket, MooshroomReadable, MooshroomRoundTrip, MooshroomWritable,
};
#[allow(unused_imports)]
use crate::primitives::{
    be_dec, be_enc, lemma_be_dec_bound, lemma_be_enc_len, lemma_be_round_trip,
    lemma_pow256_values, sig_to_un,
    str_eq, un_to_sig, F32Bits, F64Bits, Identifier, Position, Uuid, Vec3,
};
#[allow(unused_imports)]
use crate::reader::Reader;
#[allow(unused_imports)]
use crate::varint::{
    lemma_varint_round_trip, read_varint, varint_dec, varint_enc, write_varint, VarInt, VarLong,
};
#[allow(unused_imports)]
use vstd::string::StringExecFns;

verus! {

#[derive(Copy, Clone, Debug, Default, PartialEq, Eq)]
pub struct SpawnExperienceOrb {
    pub entity_id: VarInt,
    pub x: F64Bits,
    pub y: F64Bits,
    pub z: bool,
    pub count: u16,
}

impl DeepView for SpawnExperienceOrb {
    type V = SpawnExperienceOrb;

    open spec fn deep_view(&self) -> SpawnExperienceOrb {
        *self
    }
}

impl MooshroomWritable for SpawnExperienceOrb {
    open spec fn enc(&self) -> Seq<u8> {
        self.entity_id.enc() + self.x.enc() + self.y.enc() + self.z.enc() + self.count.enc()
    }

    fn write(&self, w: &mut Vec<u8>) {
        self.entity_id.write(w);
        self.x.write(w);
        self.y.write(w);
        self.z.write(w);
        self.count.write(w);
        proof {
            assert(w@ =~= old(w)@ + self.enc());
        }
    }
}

impl MooshroomReadable for SpawnExperienceOrb {
    open spec fn dec(s: Seq<u8>) -> Option<(SpawnExperienceOrb, int)> {
        match <VarInt as MooshroomReadable>::dec(s) {
            Some((v0, n0)) => match <F64Bits as MooshroomReadable>::dec(s.skip(n0)) {
                Some((v1, n1)) => match <F64Bits as MooshroomReadable>::dec(s.skip(n0 + n1)) {
                    Some((v2, n2)) => match <bool as MooshroomReadable>::dec(s.skip(n0 + n1 + n2)) {
                        Some((v3, n3)) => match <u16 as MooshroomReadable>::dec(s.skip(n0 + n1 + n2 + n3)) {
                            Some((v4, n4)) => Some((SpawnExperienceOrb { entity_id: v0, x: v1, y: v2, z: v3, count: v4 }, n0 + n1 + n2 + n3 + n4)),
                            None => None,
                        },
                        None => None,
                    },
                    None => None,
                },
                None => None,
            },
            None => None,
        }
    }

    fn read(r: &mut Reader) -> (res: Result<Self, MooshroomError>) {
        let ghost s0 = old(r).remaining();
        let ghost p0 = old(r).pos();
        let entity_id = match <VarInt as MooshroomReadable>::read(r) {
            Ok(v) => v,
            Err(e) => {
                return Err(e);
            },
        };
        proof {
            assert(r.remaining() =~= s0.skip(r.pos() - p0));
        }
        let x = match <F64Bits as MooshroomReadable>::read(r) {
            Ok(v) => v,
            Err(e) => {
                return Err(e);
            },
        };
        proof {
            assert(r.remaining() =~= s0.skip(r.pos() - p0));
        }
        let y = match <F64Bits as MooshroomReadable>::read(r) {
            Ok(v) => v,
            Err(e) => {
                return Err(e);
            },
        };
        proof {
            assert(r.remaining() =~= s0.skip(r.pos() - p0));
        }
        let z = match <bool as MooshroomReadable>::read(r) {
            Ok(v) => v,
            Err(e) => {
                return Err(e);
            },
        };
        proof {
            assert(r.remaining() =~= s0.skip(r.pos() - p0));
        }
        let count = match <u16 as MooshroomReadable>::read(r) {
            Ok(v) => v,
            Err(e) => {
                return Err(e);
            },
        };
        Ok(SpawnExperienceOrb { entity_id, x, y, z, count })
    }
}

impl MooshroomRoundTrip for SpawnExperienceOrb {
    open spec fn wire_bounded(&self) -> bool {
        self.entity_id.wire_bounded() && self.x.wire_bounded() && self.y.wire_bounded() && self.z.wire_bounded() && self.count.wire_bounded()
    }

    #[verifier::rlimit(100)]
    proof fn lemma_round_trip(&self, rest: Seq<u8>)
    {
        let t5 = rest;
        let t4 = self.count.enc() + t5;
        let t3 = self.z.enc() + t4;
        let t2 = self.y.enc() + t3;
        let t1 = self.x.enc() + t2;
        let t0 = self.entity_id.enc() + t1;
        let s = self.enc() + rest;
        crate::io::lemma_concat_assoc(self.entity_id.enc() + self.x.enc() + self.y.enc() + self.z.enc(), self.count.enc(), t5);
        crate::io::lemma_concat_assoc(self.entity_id.enc() + self.x.enc() + self.y.enc(), self.z.enc(), t4);
        crate::io::lemma_concat_assoc(self.entity_id.enc() + self.x.enc(), self.y.enc(), t3);
        crate::io::lemma_concat_assoc(self.entity_id.enc(), self.x.enc(), t2);
        assert(s == t0);
        self.entity_id.lemma_round_trip(t1);
        crate::io::lemma_concat_skip_prefix(self.entity_id.enc(), t1);
        self.x.lemma_round_trip(t2);
        crate::io::lemma_concat_skip_prefix(self.x.enc(), t2);
        crate::io::lemma_skip_of_skip(s, (self.entity_id.enc().len()) as int, self.x.enc().len() as int);
        self.y.lemma_round_trip(t3);
        crate::io::lemma_concat_skip_prefix(self.y.enc(), t3);
        crate::io::lemma_skip_of_skip(s, (self.entity_id.enc().len() + self.x.enc().len()) as int, self.y.enc().len() as int);
        self.z.lemma_round_trip(t4);
        crate::io::lemma_concat_skip_prefix(self.z.enc(), t4);
        crate::io::lemma_skip_of_skip(s, (self.entity_id.enc().len() + self.x.enc().len() + self.y.enc().len()) as int, self.z.enc().len() as int);
        self.count.lemma_round_trip(t5);
        crate::io::lemma_concat_skip_prefix(self.count.enc(), t5);
        crate::io::lemma_skip_of_skip(s, (self.entity_id.enc().len() + self.x.enc().len() + self.y.enc().len() + self.z.enc().len()) as int, self.count.enc().len() as int);
    }
}

impl MooshroomPacket for SpawnExperienceOrb {
    open spec fn spec_packet_id() -> i32 {
        2
    }

    fn packet_id() -> (id: i32) {
        2
    }
}


} // verus!
