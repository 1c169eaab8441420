use vstd::prelude::*;

use crate::client::handshake::{Handshake, HandshakeState};
use crate::client::login::LoginStart;
use crate::client::metadata::KeepAliveResponse;
use crate::client::player::Action;
use crate::codec::{frame_dec, frame_overflows, frame_wire, FrameOutcome, MooshroomCodec};
use crate::data::MooshroomCollection;
use crate::error::MooshroomError;
#[allow(unused_imports)]
use crate::io::{MooshroomPacket, MooshroomWritable};
use crate::primitives::Uuid;
use crate::server::login::{LoginStage, LoginStageView};
use crate::server::play::PlayStage;
use crate::varint::{varint_enc, VarInt};
use vstd::string::StringExecFns;

verus! {

/// Where the connection stands: handshaking, logging in, or in play with
/// the profile the server confirmed.
#[derive(Copy, Clone, Debug, PartialEq, Eq)]
pub enum Stage {
    Handshake,
    Login,
    Play(Uuid),
}

/// One step of the login loop: feed more bytes, keep going, or done with
/// the confirmed profile.
#[derive(Copy, Clone, Debug, PartialEq, Eq)]
pub enum LoginProgress {
    NeedMore,
    Continue,
    Done(Uuid),
}

/// The connection state machine over the frame codec.
///
/// It owns no socket: the embedding application feeds received bytes in
/// with `add_bytes` and writes the byte runs these methods hand back.
pub struct MooshroomConnection {
    codec: MooshroomCodec,
    stage: Stage,
}

impl MooshroomConnection {
    pub closed spec fn spec_stage(&self) -> Stage {
        self.stage
    }

    pub closed spec fn rx(&self) -> Seq<u8> {
        self.codec.rx()
    }

    pub closed spec fn spec_compression(&self) -> Option<int> {
        self.codec.spec_compression()
    }

    pub fn new() -> (c: MooshroomConnection)
        ensures
            c.spec_stage() is Handshake,
            c.rx() == Seq::<u8>::empty(),
            c.spec_compression() is None,
    {
        MooshroomConnection { codec: MooshroomCodec::new(), stage: Stage::Handshake }
    }

    pub fn stage(&self) -> (s: &Stage)
        ensures
            *s == self.spec_stage(),
    {
        &self.stage
    }

    /// Feed bytes received from the server.
    pub fn add_bytes(&mut self, bytes: &[u8])
        ensures
            final(self).rx() == old(self).rx() + bytes@,
            final(self).spec_stage() == old(self).spec_stage(),
            final(self).spec_compression() == old(self).spec_compression(),
    {
        self.codec.add_bytes(bytes);
    }

    /// Open an offline-mode session: the bytes of a `Handshake` aiming at
    /// the login stage, followed by a `LoginStart` for `name` with no
    /// signature material.  Moves the connection to the login stage.
    pub fn start_handshake(&mut self, address: String, port: u16, name: String) -> (res: Result<
        Vec<u8>,
        MooshroomError,
    >)
        ensures
            final(self).rx() == old(self).rx(),
            final(self).spec_compression() == old(self).spec_compression(),
            res is Err <==> frame_overflows(
                varint_enc(0) + (Handshake {
                    protocol_version: VarInt(crate::DEFAULT_PROTOCAL_VERSION),
                    server_address: address,
                    server_port: port,
                    next_state: HandshakeState::Login,
                }).enc(),
                old(self).spec_compression(),
            ) || frame_overflows(
                varint_enc(0) + (LoginStart { name: name, sig_data: None, player_uuid: None }).enc(),
                old(self).spec_compression(),
            ),
            match res {
                Ok(out) => {
                    &&& out@ == frame_wire(
                        varint_enc(0) + (Handshake {
                            protocol_version: VarInt(crate::DEFAULT_PROTOCAL_VERSION),
                            server_address: address,
                            server_port: port,
                            next_state: HandshakeState::Login,
                        }).enc(),
                        old(self).spec_compression(),
                    ) + frame_wire(
                        varint_enc(0) + (LoginStart {
                            name: name,
                            sig_data: None,
                            player_uuid: None,
                        }).enc(),
                        old(self).spec_compression(),
                    )
                    &&& final(self).spec_stage() is Login
                },
                Err(_) => final(self).spec_stage() == old(self).spec_stage(),
            },
    {
        let hs = Handshake {
            protocol_version: VarInt(self.codec.protocal_version()),
            server_address: address,
            server_port: port,
            next_state: HandshakeState::Login,
        };
        let mut out = match self.codec.encode(&hs) {
            Ok(v) => v,
            Err(e) => {
                return Err(e);
            },
        };
        let ls = LoginStart { name, sig_data: None, player_uuid: None };
        let second = match self.codec.encode(&ls) {
            Ok(v) => v,
            Err(e) => {
                return Err(e);
            },
        };
        out.extend_from_slice(second.as_slice());
        self.stage = Stage::Login;
        Ok(out)
    }

    /// Process one login-stage frame, if a whole one is buffered.
    ///
    /// A compression announcement adopts the threshold and continues; a
    /// login success moves the connection to play and reports the profile;
    /// a disconnect is an error carrying the server's chat payload; an
    /// encryption demand or any malformed frame is an error.
    pub fn login_step(&mut self) -> (res: Result<LoginProgress, MooshroomError>)
        ensures
            match frame_dec(old(self).rx(), old(self).spec_compression() is Some) {
                FrameOutcome::Incomplete => {
                    &&& res matches Ok(p) && p is NeedMore
                    &&& final(self).rx() == old(self).rx()
                    &&& final(self).spec_stage() == old(self).spec_stage()
                    &&& final(self).spec_compression() == old(self).spec_compression()
                },
                FrameOutcome::Malformed => res is Err,
                FrameOutcome::Frame(id, body, n) => {
                    &&& final(self).rx() == old(self).rx().skip(n)
                    &&& if LoginStage::spec_in_collection(id) {
                        match LoginStage::dec_one_of(id, body) {
                            Some((v, _)) => match v {
                                LoginStageView::SetCompression(sc) => {
                                    &&& res matches Ok(p) && p is Continue
                                    &&& final(self).spec_compression() == (if sc.threshold.0 < 0 {
                                        Option::<int>::None
                                    } else {
                                        Some(sc.threshold.0 as int)
                                    })
                                    &&& final(self).spec_stage() == old(self).spec_stage()
                                },
                                LoginStageView::Success(ls) => {
                                    &&& res matches Ok(p) && (p matches LoginProgress::Done(u)
                                        && u == ls.uuid)
                                    &&& final(self).spec_stage() == Stage::Play(ls.uuid)
                                    &&& final(self).spec_compression() == old(
                                        self,
                                    ).spec_compression()
                                },
                                LoginStageView::Disconnect(dc) => res matches Err(e) && (
                                e matches MooshroomError::Other(m) && m@ == dc.0),
                            },
                            None => res is Err,
                        }
                    } else {
                        res matches Err(e) && (e matches MooshroomError::NotInCollection(i) && i
                            == id)
                    }
                },
            },
    {
        let step = match self.codec.read_one_of::<LoginStage>() {
            Ok(Some(p)) => p,
            Ok(None) => {
                return Ok(LoginProgress::NeedMore);
            },
            Err(e) => {
                return Err(e);
            },
        };
        match step {
            LoginStage::SetCompression(sc) => {
                self.codec.set_compression(sc.threshold.0);
                Ok(LoginProgress::Continue)
            },
            LoginStage::Success(ls) => {
                self.stage = Stage::Play(ls.uuid);
                Ok(LoginProgress::Done(ls.uuid))
            },
            LoginStage::Disconnect(d) => Err(MooshroomError::Other(d.0)),
        }
    }

    /// Decode the next play-stage packet, if a whole frame is buffered.
    /// An identifier outside the collection surfaces `NotInCollection`
    /// with the frame consumed, so the stream stays in sync.
    pub fn next_play_packet(&mut self) -> (res: Result<Option<PlayStage>, MooshroomError>)
        ensures
            final(self).spec_stage() == old(self).spec_stage(),
            final(self).spec_compression() == old(self).spec_compression(),
            match frame_dec(old(self).rx(), old(self).spec_compression() is Some) {
                FrameOutcome::Incomplete => res matches Ok(d) && d is None && final(self).rx()
                    == old(self).rx(),
                FrameOutcome::Malformed => res is Err,
                FrameOutcome::Frame(id, body, n) => {
                    &&& final(self).rx() == old(self).rx().skip(n)
                    &&& if PlayStage::spec_in_collection(id) {
                        match PlayStage::dec_one_of(id, body) {
                            Some((v, _)) => res matches Ok(d) && d matches Some(p)
                                && p.deep_view() == v,
                            None => res is Err,
                        }
                    } else {
                        res matches Err(e) && (e matches MooshroomError::NotInCollection(i) && i
                            == id)
                    }
                },
            },
    {
        self.codec.read_one_of::<PlayStage>()
    }

    /// The bytes answering a keep-alive probe: a `KeepAliveResponse`
    /// echoing `id`, framed for the wire.  Without compression the reply
    /// is always produced; under compression a failure means only that a
    /// deflated frame overflowed its length prefix.
    pub fn respond_to_keep_alive(&mut self, id: i64) -> (res: Result<Vec<u8>, MooshroomError>)
        ensures
            *final(self) == *old(self),
            res is Err <==> frame_overflows(
                varint_enc(0x12) + KeepAliveResponse(id).enc(),
                old(self).spec_compression(),
            ),
            old(self).spec_compression() is None ==> res is Ok,
            match res {
                Ok(out) => out@ == frame_wire(
                    varint_enc(0x12) + KeepAliveResponse(id).enc(),
                    old(self).spec_compression(),
                ),
                Err(_) => true,
            },
    {
        let res = self.codec.encode(&KeepAliveResponse(id));
        proof {
            crate::primitives::lemma_be_enc_len(
                crate::primitives::sig_to_un(id as int, 0x1_0000_0000_0000_0000),
                8,
            );
            assert(varint_enc(0x12).len() == 1);
            assert((varint_enc(0x12) + KeepAliveResponse(id).enc()).len() == 9);
        }
        res
    }

    /// The bytes of a respawn request: the client command packet carrying
    /// the respawn action.  Without compression the frame is always
    /// produced; under compression a failure means only that a deflated
    /// frame overflowed its length prefix.
    pub fn respawn(&mut self) -> (res: Result<Vec<u8>, MooshroomError>)
        ensures
            *final(self) == *old(self),
            res is Err <==> frame_overflows(
                varint_enc(0x07) + Action::Respawn.enc(),
                old(self).spec_compression(),
            ),
            old(self).spec_compression() is None ==> res is Ok,
            match res {
                Ok(out) => out@ == frame_wire(
                    varint_enc(0x07) + Action::Respawn.enc(),
                    old(self).spec_compression(),
                ),
                Err(_) => true,
            },
    {
        let res = self.codec.encode(&Action::Respawn);
        proof {
            assert(varint_enc(0x07).len() == 1);
            assert(Action::Respawn.enc() == varint_enc(0));
            assert(varint_enc(0).len() == 1);
            assert((varint_enc(0x07) + Action::Respawn.enc()).len() == 2);
        }
        res
    }
}

} // verus!
