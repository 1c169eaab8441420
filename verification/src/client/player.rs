use vstd::prelude::*;

#[allow(unused_imports)]
use crate::containers::{Json, TOption};
#[allow(unused_imports)]
use crate::data::{
    MooshroomBitFlag, MooshroomCollection, MooshroomCollectionWrite, MooshroomIdentifiable,
    MooshroomUpdatable, MooshroomValue,
};
#[allow(unused_imports)]
use crate::error::MooshroomError;
#[allow(unused_imports)]
use crate::io::{
    MooshroomCommand, MooshroomPacket, MooshroomReadable, MooshroomRoundTrip, MooshroomWritable,
};
#[allow(unused_imports)]
use crate::primitives::{
    be_dec, be_enc, lemma_be_dec_bound, lemma_be_enc_len, lemma_be_round_trip,
    lemma_pow256_values, sig_to_un,
    str_eq, un_to_sig, F32Bits, F64Bits, Identifier, Position, Uuid, Vec3,
};
#[allow(unused_imports)]
use crate::reader::Reader;
#[allow(unused_imports)]
use crate::varint::{
    lemma_varint_round_trip, read_varint, varint_dec, varint_enc, write_varint, VarInt, VarLong,
};
#[allow(unused_imports)]
use vstd::string::StringExecFns;

verus! {

/// A client command in the play stage; respawning sends the value
/// zero.
#[derive(Copy, Clone, Debug, Default, PartialEq, Eq)]
pub enum Action {
    #[default]
    Respawn,
    RequestStatus,
}

impl DeepView for Action {
    type V = Action;

    open spec fn deep_view(&self) -> Action {
        *self
    }
}

impl MooshroomValue for Action {
    open spec fn spec_value(&self) -> int {
        match self {
            Action::Respawn => 0,
            Action::RequestStatus => 1,
        }
    }

    open spec fn spec_from_value(v: int) -> Option<Action> {
        if v == 0 {
            Some(Action::Respawn)
        } else if v == 1 {
            Some(Action::RequestStatus)
        } else {
            None
        }
    }

    fn from_value(v: i32) -> (res: Result<Self, MooshroomError>) {
        if v == 0 {
            Ok(Action::Respawn)
        } else if v == 1 {
            Ok(Action::RequestStatus)
        } else {
            Err(MooshroomError::InvalidEnumVariant(v))
        }
    }

    fn to_value(&self) -> (res: Result<i32, MooshroomError>) {
        match self {
            Action::Respawn => Ok(0),
            Action::RequestStatus => Ok(1),
        }
    }
}

impl MooshroomWritable for Action {
    open spec fn enc(&self) -> Seq<u8> {
        varint_enc(self.spec_value())
    }

    fn write(&self, w: &mut Vec<u8>) {
        let v: i32 = match self {
            Action::Respawn => 0,
            Action::RequestStatus => 1,
        };
        write_varint(VarInt(v), w);
    }
}

impl MooshroomReadable for Action {
    open spec fn dec(s: Seq<u8>) -> Option<(Action, int)> {
        match varint_dec(s) {
            Some((v, n)) => match Action::spec_from_value(v as int) {
                Some(e) => Some((e, n)),
                None => None,
            },
            None => None,
        }
    }

    fn read(r: &mut Reader) -> (res: Result<Self, MooshroomError>)
        ensures
            res matches Err(e) ==> match varint_dec(old(r).remaining()) {
                Some((v, _)) => {
                    &&& Action::spec_from_value(v as int) is None
                    &&& e matches MooshroomError::InvalidEnumVariant(i) && i == v
                },
                None => {
                    &&& crate::varint::varint_incomplete(old(r).remaining(), 5) ==> e is IoError
                    &&& !crate::varint::varint_incomplete(old(r).remaining(), 5)
                        ==> e is VarIntTooLong
                },
            },
    {
        match read_varint(r) {
            Ok(v) => match Action::from_value(v.0) {
                Ok(e) => Ok(e),
                Err(e) => Err(e),
            },
            Err(e) => Err(e),
        }
    }
}

impl MooshroomRoundTrip for Action {
    open spec fn wire_bounded(&self) -> bool {
        true
    }

    proof fn lemma_round_trip(&self, rest: Seq<u8>) {
        lemma_varint_round_trip(self.spec_value() as i32, rest);
        assert(Action::spec_from_value(self.spec_value()) == Some(*self));
    }
}

impl MooshroomPacket for Action {
    open spec fn spec_packet_id() -> i32 {
        7
    }

    fn packet_id() -> (id: i32) {
        7
    }
}


} // verus!
