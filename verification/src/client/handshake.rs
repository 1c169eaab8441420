use vstd::prelude::*;

#[allow(unused_imports)]
use crate::containers::{Json, TOption};
#[allow(unused_imports)]
use crate::data::{
    MooshroomBitFlag, MooshroomCollection, MooshroomCollectionWrite, MooshroomIdentifiable,
    MooshroomUpdatable, MooshroomValue,
};
#[allow(unused_imports)]
use crate::error::MooshroomError;
#[allow(unused_imports)]
use crate::io::{
    MooshroomCommand, MooshroomPacket, MooshroomReadable, MooshroomRoundTrip, MooshroomWritable,
};
#[allow(unused_imports)]
use crate::primitives::{
    be_dec, be_enc, lemma_be_dec_bound, lemma_be_enc_len, lemma_be_round_trip,
    lemma_pow256_values, sig_to_un,
    str_eq, un_to_sig, F32Bits, F64Bits, Identifier, Position, Uuid, Vec3,
};
#[allow(unused_imports)]
use crate::reader::Reader;
#[allow(unused_imports)]
use crate::varint::{
    lemma_varint_round_trip, read_varint, varint_dec, varint_enc, write_varint, VarInt, VarLong,
};
#[allow(unused_imports)]
use vstd::string::StringExecFns;

verus! {

/// The state a handshake asks the server to move to next.
#[derive(Copy, Clone, Debug, Default, PartialEq, Eq)]
pub enum HandshakeState {
    #[default]
    Status,
    Login,
}

impl DeepView for HandshakeState {
    type V = HandshakeState;

    open spec fn deep_view(&self) -> HandshakeState {
        *self
    }
}

impl HandshakeState {
    pub open spec fn spec_value(&self) -> int {
        match self {
            HandshakeState::Status => 1,
            HandshakeState::Login => 2,
        }
    }

    pub open spec fn spec_from_value(v: int) -> Option<HandshakeState> {
        if v == 1 {
            Some(HandshakeState::Status)
        } else if v == 2 {
            Some(HandshakeState::Login)
        } else {
            None
        }
    }

    /// Map a wire discriminant to a state, rejecting anything but
    /// the declared values with `InvalidHandshakeState`.
    pub fn from_value(v: i32) -> (res: Result<Self, MooshroomError>)
        ensures
            match res {
                Ok(e) => Self::spec_from_value(v as int) == Some(e),
                Err(err) => {
                    &&& Self::spec_from_value(v as int) is None
                    &&& err matches MooshroomError::InvalidHandshakeState(i) && i == v
                },
            },
    {
        if v == 1 {
            Ok(HandshakeState::Status)
        } else if v == 2 {
            Ok(HandshakeState::Login)
        } else {
            Err(MooshroomError::InvalidHandshakeState(v))
        }
    }

    /// The wire discriminant of this state.
    pub fn to_value(&self) -> (res: Result<i32, MooshroomError>)
        ensures
            res matches Ok(i) && i as int == self.spec_value(),
    {
        match self {
            HandshakeState::Status => Ok(1),
            HandshakeState::Login => Ok(2),
        }
    }
}

impl MooshroomWritable for HandshakeState {
    open spec fn enc(&self) -> Seq<u8> {
        varint_enc(self.spec_value())
    }

    fn write(&self, w: &mut Vec<u8>) {
        let v: i32 = match self {
            HandshakeState::Status => 1,
            HandshakeState::Login => 2,
        };
        write_varint(VarInt(v), w);
    }
}

impl MooshroomReadable for HandshakeState {
    open spec fn dec(s: Seq<u8>) -> Option<(HandshakeState, int)> {
        match varint_dec(s) {
            Some((v, n)) => match HandshakeState::spec_from_value(v as int) {
                Some(e) => Some((e, n)),
                None => None,
            },
            None => None,
        }
    }

    fn read(r: &mut Reader) -> (res: Result<Self, MooshroomError>) {
        match read_varint(r) {
            Ok(v) => match HandshakeState::from_value(v.0) {
                Ok(e) => Ok(e),
                Err(e) => Err(e),
            },
            Err(e) => Err(e),
        }
    }
}

impl MooshroomRoundTrip for HandshakeState {
    open spec fn wire_bounded(&self) -> bool {
        true
    }

    proof fn lemma_round_trip(&self, rest: Seq<u8>) {
        lemma_varint_round_trip(self.spec_value() as i32, rest);
        assert(HandshakeState::spec_from_value(self.spec_value()) == Some(*self));
    }
}

/// The first packet of every connection, naming the protocol version,
/// the endpoint dialled, and the next stage.
#[derive(Clone, Debug, Default, PartialEq)]
pub struct Handshake {
    pub protocol_version: VarInt,
    pub server_address: String,
    pub server_port: u16,
    pub next_state: HandshakeState,
}

/// The mathematical value of a `Handshake`, for contracts.
pub struct HandshakeView {
    pub protocol_version: VarInt,
    pub server_address: Seq<char>,
    pub server_port: u16,
    pub next_state: HandshakeState,
}

impl DeepView for Handshake {
    type V = HandshakeView;

    open spec fn deep_view(&self) -> HandshakeView {
        HandshakeView {
            protocol_version: self.protocol_version.deep_view(),
            server_address: self.server_address.deep_view(),
            server_port: self.server_port.deep_view(),
            next_state: self.next_state.deep_view(),
        }
    }
}

impl MooshroomWritable for Handshake {
    open spec fn enc(&self) -> Seq<u8> {
        self.protocol_version.enc() + self.server_address.enc() + self.server_port.enc() + self.next_state.enc()
    }

    fn write(&self, w: &mut Vec<u8>) {
        self.protocol_version.write(w);
        self.server_address.write(w);
        self.server_port.write(w);
        self.next_state.write(w);
        proof {
            assert(w@ =~= old(w)@ + self.enc());
        }
    }
}

impl MooshroomReadable for Handshake {
    open spec fn dec(s: Seq<u8>) -> Option<(HandshakeView, int)> {
        match <VarInt as MooshroomReadable>::dec(s) {
            Some((v0, n0)) => match <String as MooshroomReadable>::dec(s.skip(n0)) {
                Some((v1, n1)) => match <u16 as MooshroomReadable>::dec(s.skip(n0 + n1)) {
                    Some((v2, n2)) => match <HandshakeState as MooshroomReadable>::dec(s.skip(n0 + n1 + n2)) {
                        Some((v3, n3)) => Some((HandshakeView { protocol_version: v0, server_address: v1, server_port: v2, next_state: v3 }, n0 + n1 + n2 + n3)),
                        None => None,
                    },
                    None => None,
                },
                None => None,
            },
            None => None,
        }
    }

    fn read(r: &mut Reader) -> (res: Result<Self, MooshroomError>) {
        let ghost s0 = old(r).remaining();
        let ghost p0 = old(r).pos();
        let protocol_version = match <VarInt as MooshroomReadable>::read(r) {
            Ok(v) => v,
            Err(e) => {
                return Err(e);
            },
        };
        proof {
            assert(r.remaining() =~= s0.skip(r.pos() - p0));
        }
        let server_address = match <String as MooshroomReadable>::read(r) {
            Ok(v) => v,
            Err(e) => {
                return Err(e);
            },
        };
        proof {
            assert(r.remaining() =~= s0.skip(r.pos() - p0));
        }
        let server_port = match <u16 as MooshroomReadable>::read(r) {
            Ok(v) => v,
            Err(e) => {
                return Err(e);
            },
        };
        proof {
            assert(r.remaining() =~= s0.skip(r.pos() - p0));
        }
        let next_state = match <HandshakeState as MooshroomReadable>::read(r) {
            Ok(v) => v,
            Err(e) => {
                return Err(e);
            },
        };
        Ok(Handshake { protocol_version, server_address, server_port, next_state })
    }
}

impl MooshroomRoundTrip for Handshake {
    open spec fn wire_bounded(&self) -> bool {
        self.protocol_version.wire_bounded() && self.server_address.wire_bounded() && self.server_port.wire_bounded() && self.next_state.wire_bounded()
    }

    #[verifier::rlimit(100)]
    proof fn lemma_round_trip(&self, rest: Seq<u8>)
    {
        let t4 = rest;
        let t3 = self.next_state.enc() + t4;
        let t2 = self.server_port.enc() + t3;
        let t1 = self.server_address.enc() + t2;
        let t0 = self.protocol_version.enc() + t1;
        let s = self.enc() + rest;
        crate::io::lemma_concat_assoc(self.protocol_version.enc() + self.server_address.enc() + self.server_port.enc(), self.next_state.enc(), t4);
        crate::io::lemma_concat_assoc(self.protocol_version.enc() + self.server_address.enc(), self.server_port.enc(), t3);
        crate::io::lemma_concat_assoc(self.protocol_version.enc(), self.server_address.enc(), t2);
        assert(s == t0);
        self.protocol_version.lemma_round_trip(t1);
        crate::io::lemma_concat_skip_prefix(self.protocol_version.enc(), t1);
        self.server_address.lemma_round_trip(t2);
        crate::io::lemma_concat_skip_prefix(self.server_address.enc(), t2);
        crate::io::lemma_skip_of_skip(s, (self.protocol_version.enc().len()) as int, self.server_address.enc().len() as int);
        self.server_port.lemma_round_trip(t3);
        crate::io::lemma_concat_skip_prefix(self.server_port.enc(), t3);
        crate::io::lemma_skip_of_skip(s, (self.protocol_version.enc().len() + self.server_address.enc().len()) as int, self.server_port.enc().len() as int);
        self.next_state.lemma_round_trip(t4);
        crate::io::lemma_concat_skip_prefix(self.next_state.enc(), t4);
        crate::io::lemma_skip_of_skip(s, (self.protocol_version.enc().len() + self.server_address.enc().len() + self.server_port.enc().len()) as int, self.next_state.enc().len() as int);
    }
}

impl MooshroomPacket for Handshake {
    open spec fn spec_packet_id() -> i32 {
        0
    }

    fn packet_id() -> (id: i32) {
        0
    }
}


} // verus!
