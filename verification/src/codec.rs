use vstd::prelude::*;

#[allow(unused_imports)]
use crate::data::MooshroomCollection;
use crate::error::MooshroomError;
#[allow(unused_imports)]
use crate::io::{MooshroomPacket, MooshroomReadable, MooshroomWritable};
use crate::reader::Reader;
use crate::varint::{
    read_varint, u32_as_i32, varint_dec, varint_enc, varint_incomplete, write_varint, VarInt,
};
use vstd::string::StringExecFns;

verus! {

/// What `flate2`'s zlib encoder produces for a byte run at the default
/// compression level.
pub uninterp spec fn zlib_deflate(s: Seq<u8>) -> Seq<u8>;

/// What `flate2`'s zlib decoder recovers from a byte run; `None` on corrupt
/// input.
pub uninterp spec fn zlib_inflate(s: Seq<u8>) -> Option<Seq<u8>>;

/// Relies on `flate2::read::ZlibEncoder` at the default level: compressing
/// an in-memory buffer cannot fail, the output depends on the input alone,
/// and the matching decoder recovers the input from it.
#[verifier::external_body]
fn deflate(data: &Vec<u8>) -> (r: Vec<u8>)
    ensures
        r@ == zlib_deflate(data@),
        zlib_inflate(r@) == Some(data@),
{
    let mut enc = flate2::read::ZlibEncoder::new(data.as_slice(), flate2::Compression::default());
    let mut out = Vec::new();
    std::io::Read::read_to_end(&mut enc, &mut out).unwrap();
    out
}

/// Relies on `flate2::read::ZlibDecoder`: decompression fails exactly on
/// malformed zlib data, and its result depends on the input alone.
#[verifier::external_body]
fn inflate(data: &Vec<u8>) -> (r: Option<Vec<u8>>)
    ensures
        match r {
            Some(v) => zlib_inflate(data@) == Some(v@),
            None => zlib_inflate(data@) is None,
        },
{
    let mut dec = flate2::read::ZlibDecoder::new(data.as_slice());
    let mut out = Vec::new();
    match std::io::Read::read_to_end(&mut dec, &mut out) {
        Ok(_) => Some(out),
        Err(_) => None,
    }
}

/// Copy `v[a..b]`.
fn copy_range(v: &Vec<u8>, a: usize, b: usize) -> (r: Vec<u8>)
    requires
        a <= b <= v@.len(),
    ensures
        r@ == v@.subrange(a as int, b as int),
{
    let mut out: Vec<u8> = Vec::new();
    let mut i: usize = a;
    while i < b
        invariant
            a <= i <= b <= v@.len(),
            out@ == v@.subrange(a as int, i as int),
        decreases b - i,
    {
        proof {
            assert(v@.subrange(a as int, i + 1) =~= v@.subrange(a as int, i as int).push(
                v@[i as int],
            ));
        }
        out.push(v[i]);
        i = i + 1;
    }
    out
}

impl VarInt {
    /// Decode a `VarInt` from the front of a buffer, returning it with the
    /// number of bytes it occupied.
    pub fn read_with_size(buffer: &[u8]) -> (res: Result<(VarInt, usize), MooshroomError>)
        ensures
            match res {
                Ok((v, n)) => varint_dec(buffer@) == Some((v.0, n as int)) && n <= buffer@.len(),
                Err(e) => {
                    &&& varint_dec(buffer@) is None
                    &&& varint_incomplete(buffer@, 5) ==> e is IoError
                    &&& !varint_incomplete(buffer@, 5) ==> e is VarIntTooLong
                },
            },
    {
        let mut rd = Reader::new(vstd::slice::slice_to_vec(buffer));
        match read_varint(&mut rd) {
            Ok(v) => Ok((v, rd.mark())),
            Err(e) => Err(e),
        }
    }
}

/// A decoded frame: the packet identifier and the body bytes that follow
/// it, fully owned.
pub struct PacketData {
    pub packet_id: VarInt,
    pub body: Vec<u8>,
}

/// The wire form of an uncompressed frame around `body` (the packet id
/// plus payload): a length prefix, then the body verbatim.
pub open spec fn frame_uncompressed(body: Seq<u8>) -> Seq<u8> {
    varint_enc(u32_as_i32(body.len())) + body
}

/// The wire form of a compressed-mode frame around `body` at threshold
/// `t`: bodies at or over the threshold are deflated and announce their
/// inflated size; smaller bodies travel verbatim behind a zero marker.
pub open spec fn frame_compressed(body: Seq<u8>, t: int) -> Seq<u8> {
    if body.len() >= t {
        let inner = varint_enc(u32_as_i32(body.len())) + zlib_deflate(body);
        varint_enc(u32_as_i32(inner.len())) + inner
    } else {
        let inner = seq![0u8] + body;
        varint_enc(u32_as_i32(inner.len())) + inner
    }
}

/// The wire form of a frame under the given compression setting.
pub open spec fn frame_wire(body: Seq<u8>, compression: Option<int>) -> Seq<u8> {
    match compression {
        Some(t) => frame_compressed(body, t),
        None => frame_uncompressed(body),
    }
}

/// Whether framing `body` under the given compression setting overflows a
/// 31-bit length prefix.  This is exactly when `encode` fails.
pub open spec fn frame_overflows(body: Seq<u8>, compression: Option<int>) -> bool {
    match compression {
        None => body.len() > 0x7fff_ffff,
        Some(t) => {
            if body.len() >= t {
                body.len() > 0x7fff_ffff || (varint_enc(u32_as_i32(body.len())) + zlib_deflate(
                    body,
                )).len() > 0x7fff_ffff
            } else {
                1 + body.len() > 0x7fff_ffff
            }
        },
    }
}

/// At a nonnegative threshold, a body at or over it is sent deflated with
/// its true size announced, and a smaller one verbatim behind a zero
/// marker.
pub proof fn lemma_frame_threshold(body: Seq<u8>, t: int)
    requires
        t >= 0,
    ensures
        body.len() >= t ==> frame_compressed(body, t) == varint_enc(
            u32_as_i32((varint_enc(u32_as_i32(body.len())) + zlib_deflate(body)).len()),
        ) + (varint_enc(u32_as_i32(body.len())) + zlib_deflate(body)),
        body.len() < t ==> frame_compressed(body, t) == varint_enc(
            u32_as_i32((seq![0u8] + body).len()),
        ) + (seq![0u8] + body),
{
}

/// The result of looking for one frame at the front of the receive buffer.
pub enum FrameOutcome {
    Incomplete,
    Malformed,
    Frame(i32, Seq<u8>, int),
}

/// Split a packet id off the front of a frame's content.
pub open spec fn frame_body_dec(b: Seq<u8>, consumed: int) -> FrameOutcome {
    match varint_dec(b) {
        Some((pid, k)) => FrameOutcome::Frame(pid, b.skip(k), consumed),
        None => FrameOutcome::Malformed,
    }
}

/// Decode one frame from the front of `rx`.  A partial length prefix or a
/// short buffer is `Incomplete`; a complete frame that cannot be decoded is
/// `Malformed` and fatal.
pub open spec fn frame_dec(rx: Seq<u8>, compression: bool) -> FrameOutcome {
    match varint_dec(rx) {
        Some((len, k)) => {
            if len < 0 {
                FrameOutcome::Malformed
            } else if rx.len() < k + len {
                FrameOutcome::Incomplete
            } else {
                let raw = rx.subrange(k, k + len);
                if compression {
                    match varint_dec(raw) {
                        Some((ulen, k2)) => {
                            if ulen < 0 {
                                FrameOutcome::Malformed
                            } else if ulen > 0 {
                                match zlib_inflate(raw.skip(k2)) {
                                    Some(plain) => frame_body_dec(plain, k + len),
                                    None => FrameOutcome::Malformed,
                                }
                            } else {
                                frame_body_dec(raw.skip(k2), k + len)
                            }
                        },
                        None => FrameOutcome::Malformed,
                    }
                } else {
                    frame_body_dec(raw, k + len)
                }
            }
        },
        None => {
            if varint_incomplete(rx, 5) {
                FrameOutcome::Incomplete
            } else {
                FrameOutcome::Malformed
            }
        },
    }
}

/// The frame codec: accumulates received bytes, emits decoded frames, and
/// builds outgoing frames, under the negotiated compression setting.
pub struct MooshroomCodec {
    compression: Option<i32>,
    rx_buffer: Vec<u8>,
}

impl MooshroomCodec {
    /// The negotiated compression threshold, if any.
    pub closed spec fn spec_compression(&self) -> Option<int> {
        match self.compression {
            Some(t) => Some(t as int),
            None => None,
        }
    }

    /// The bytes received and not yet consumed by a frame.
    pub closed spec fn rx(&self) -> Seq<u8> {
        self.rx_buffer@
    }

    pub fn new() -> (c: MooshroomCodec)
        ensures
            c.spec_compression() is None,
            c.rx() == Seq::<u8>::empty(),
    {
        let c = MooshroomCodec { compression: None, rx_buffer: Vec::new() };
        proof {
            assert(c.rx() =~= Seq::<u8>::empty());
        }
        c
    }

    /// The protocol version this codec speaks.
    pub fn protocal_version(&self) -> (v: i32)
        ensures
            v == crate::DEFAULT_PROTOCAL_VERSION,
    {
        crate::DEFAULT_PROTOCAL_VERSION
    }

    /// Adopt a negotiated threshold; a negative value turns compression
    /// off.
    pub fn set_compression(&mut self, th: i32)
        ensures
            final(self).spec_compression() == if th < 0 {
                Option::<int>::None
            } else {
                Some(th as int)
            },
            final(self).rx() == old(self).rx(),
    {
        if th < 0 {
            self.compression = None;
        } else {
            self.compression = Some(th);
        }
    }

    /// Append received bytes to the buffer.
    pub fn add_bytes(&mut self, bytes: &[u8])
        ensures
            final(self).rx() == old(self).rx() + bytes@,
            final(self).spec_compression() == old(self).spec_compression(),
    {
        self.rx_buffer.extend_from_slice(bytes);
    }

    /// Frame one packet for the wire: its identifier and payload behind the
    /// length prefix, deflated when compression demands it.  Fails exactly
    /// when a length overflows the 31-bit prefix; a successfully deflated
    /// body is guaranteed to inflate back to itself.
    pub fn encode<P: MooshroomPacket + MooshroomWritable>(&mut self, packet: &P) -> (res: Result<
        Vec<u8>,
        MooshroomError,
    >)
        ensures
            *final(self) == *old(self),
            res is Err <==> frame_overflows(
                varint_enc(P::spec_packet_id() as int) + packet.enc(),
                old(self).spec_compression(),
            ),
            match res {
                Ok(out) => {
                    &&& out@ == frame_wire(
                        varint_enc(P::spec_packet_id() as int) + packet.enc(),
                        old(self).spec_compression(),
                    )
                    &&& (old(self).spec_compression() matches Some(t) && (varint_enc(
                        P::spec_packet_id() as int,
                    ) + packet.enc()).len() >= t) ==> zlib_inflate(
                        zlib_deflate(varint_enc(P::spec_packet_id() as int) + packet.enc()),
                    ) == Some(varint_enc(P::spec_packet_id() as int) + packet.enc())
                },
                Err(_) => true,
            },
    {
        let mut body: Vec<u8> = Vec::new();
        write_varint(VarInt(P::packet_id()), &mut body);
        packet.write(&mut body);
        let ghost bodyv = varint_enc(P::spec_packet_id() as int) + packet.enc();
        proof {
            assert(body@ == bodyv);
        }
        match self.compression {
            Some(t) => {
                let inner: Vec<u8> = if body.len() as i64 >= t as i64 {
                    if body.len() > 0x7fff_ffff {
                        return Err(MooshroomError::Other(String::from_str("frame too large")));
                    }
                    let mut inner: Vec<u8> = Vec::new();
                    write_varint(VarInt(body.len() as i32), &mut inner);
                    let compressed = deflate(&body);
                    inner.extend_from_slice(compressed.as_slice());
                    proof {
                        assert(u32_as_i32(bodyv.len()) == body.len() as i32);
                        assert(inner@ =~= varint_enc(u32_as_i32(bodyv.len())) + zlib_deflate(
                            bodyv,
                        ));
                    }
                    inner
                } else {
                    let mut inner: Vec<u8> = Vec::new();
                    inner.push(0u8);
                    inner.extend_from_slice(body.as_slice());
                    proof {
                        assert(inner@ =~= seq![0u8] + bodyv);
                    }
                    inner
                };
                if inner.len() > 0x7fff_ffff {
                    return Err(MooshroomError::Other(String::from_str("frame too large")));
                }
                let mut out: Vec<u8> = Vec::new();
                write_varint(VarInt(inner.len() as i32), &mut out);
                out.extend_from_slice(inner.as_slice());
                proof {
                    assert(u32_as_i32(inner@.len()) == inner.len() as i32);
                    assert(out@ =~= varint_enc(u32_as_i32(inner@.len())) + inner@);
                    assert(out@ == frame_compressed(bodyv, t as int));
                }
                Ok(out)
            },
            None => {
                if body.len() > 0x7fff_ffff {
                    return Err(MooshroomError::Other(String::from_str("frame too large")));
                }
                let mut out: Vec<u8> = Vec::new();
                write_varint(VarInt(body.len() as i32), &mut out);
                out.extend_from_slice(body.as_slice());
                proof {
                    assert(u32_as_i32(bodyv.len()) == body.len() as i32);
                    assert(out@ =~= varint_enc(u32_as_i32(bodyv.len())) + bodyv);
                }
                Ok(out)
            },
        }
    }

    /// Take one frame off the buffer, if a whole one has arrived, and hand
    /// back its packet identifier and body, inflated when compression is
    /// on.  `Ok(None)` asks for more bytes; errors are framing faults and
    /// fatal.
    pub fn read_packet_data(&mut self) -> (res: Result<Option<PacketData>, MooshroomError>)
        ensures
            final(self).spec_compression() == old(self).spec_compression(),
            match frame_dec(old(self).rx(), old(self).spec_compression() is Some) {
                FrameOutcome::Incomplete => res matches Ok(d) && d is None && final(self).rx()
                    == old(self).rx(),
                FrameOutcome::Malformed => res is Err,
                FrameOutcome::Frame(id, body, n) => {
                    &&& res matches Ok(d)
                    &&& d matches Some(pd)
                    &&& pd.packet_id.0 == id
                    &&& pd.body@ == body
                    &&& final(self).rx() == old(self).rx().skip(n)
                },
            },
    {
        let ghost rx0 = self.rx_buffer@;
        let (len, k) = match VarInt::read_with_size(self.rx_buffer.as_slice()) {
            Ok(p) => p,
            Err(e) => {
                match e {
                    MooshroomError::IoError => {
                        return Ok(None);
                    },
                    _ => {
                        return Err(e);
                    },
                }
            },
        };
        if len.0 < 0 {
            return Err(MooshroomError::Other(String::from_str("negative frame length")));
        }
        let total128 = (k as u128) + (len.0 as u128);
        if (self.rx_buffer.len() as u128) < total128 {
            return Ok(None);
        }
        let total = total128 as usize;
        let raw = copy_range(&self.rx_buffer, k, total);
        proof {
            assert(raw@ == rx0.subrange(k as int, k + len.0));
        }
        let tail = self.rx_buffer.split_off(total);
        self.rx_buffer = tail;
        proof {
            assert(self.rx_buffer@ =~= rx0.skip(k + len.0));
        }
        let content: Vec<u8> = match self.compression {
            Some(_) => {
                let mut rd = Reader::new(raw);
                let ulen = match read_varint(&mut rd) {
                    Ok(v) => v,
                    Err(e) => {
                        return Err(e);
                    },
                };
                if ulen.0 < 0 {
                    return Err(MooshroomError::Other(String::from_str("negative body length")));
                }
                let rest_len = rd.remaining_len();
                let rest = match rd.read_exact(rest_len) {
                    Ok(v) => v,
                    Err(e) => {
                        return Err(e);
                    },
                };
                proof {
                    assert(rest@ =~= raw@.skip(varint_dec(raw@).unwrap().1));
                }
                if ulen.0 > 0 {
                    match inflate(&rest) {
                        Some(plain) => plain,
                        None => {
                            return Err(MooshroomError::Other(String::from_str("corrupt frame")));
                        },
                    }
                } else {
                    rest
                }
            },
            None => raw,
        };
        let mut rd = Reader::new(content);
        let pid = match read_varint(&mut rd) {
            Ok(v) => v,
            Err(e) => {
                return Err(e);
            },
        };
        let body_len = rd.remaining_len();
        let body = match rd.read_exact(body_len) {
            Ok(v) => v,
            Err(e) => {
                return Err(e);
            },
        };
        proof {
            assert(body@ =~= rd.data().skip(varint_dec(rd.data()).unwrap().1));
        }
        Ok(Some(PacketData { packet_id: pid, body }))
    }

    /// Read one frame and decode it as the packet type `P`, surfacing
    /// `UnexpectedPacket` when the frame carries a different identifier.
    pub fn read_packet<P: MooshroomPacket>(&mut self) -> (res: Result<Option<P>, MooshroomError>)
        ensures
            final(self).spec_compression() == old(self).spec_compression(),
            match frame_dec(old(self).rx(), old(self).spec_compression() is Some) {
                FrameOutcome::Incomplete => res matches Ok(d) && d is None && final(self).rx()
                    == old(self).rx(),
                FrameOutcome::Malformed => res is Err,
                FrameOutcome::Frame(id, body, n) => {
                    &&& final(self).rx() == old(self).rx().skip(n)
                    &&& if id != P::spec_packet_id() {
                        res matches Err(e) && (e matches MooshroomError::UnexpectedPacket(
                            a,
                            b,
                        ) && a == P::spec_packet_id() && b == id)
                    } else {
                        match P::dec(body) {
                            Some((v, _)) => res matches Ok(d) && d matches Some(p)
                                && p.deep_view() == v,
                            None => res is Err,
                        }
                    }
                },
            },
    {
        let data = match self.read_packet_data() {
            Ok(Some(d)) => d,
            Ok(None) => {
                return Ok(None);
            },
            Err(e) => {
                return Err(e);
            },
        };
        if P::packet_id() != data.packet_id.as_i32() {
            return Err(
                MooshroomError::UnexpectedPacket(P::packet_id(), data.packet_id.as_i32()),
            );
        }
        let mut rd = Reader::new(data.body);
        match P::read(&mut rd) {
            Ok(p) => Ok(Some(p)),
            Err(e) => Err(e),
        }
    }

    /// Read one frame and decode it through the collection `P`, keyed by
    /// the frame's packet identifier.
    pub fn read_one_of<P: MooshroomCollection>(&mut self) -> (res: Result<
        Option<P>,
        MooshroomError,
    >)
        ensures
            final(self).spec_compression() == old(self).spec_compression(),
            match frame_dec(old(self).rx(), old(self).spec_compression() is Some) {
                FrameOutcome::Incomplete => res matches Ok(d) && d is None && final(self).rx()
                    == old(self).rx(),
                FrameOutcome::Malformed => res is Err,
                FrameOutcome::Frame(id, body, n) => {
                    &&& final(self).rx() == old(self).rx().skip(n)
                    &&& if P::spec_in_collection(id) {
                        match P::dec_one_of(id, body) {
                            Some((v, _)) => res matches Ok(d) && d matches Some(p)
                                && p.deep_view() == v,
                            None => res is Err,
                        }
                    } else {
                        res matches Err(e) && (e matches MooshroomError::NotInCollection(i) && i
                            == id)
                    }
                },
            },
    {
        let data = match self.read_packet_data() {
            Ok(Some(d)) => d,
            Ok(None) => {
                return Ok(None);
            },
            Err(e) => {
                return Err(e);
            },
        };
        let mut rd = Reader::new(data.body);
        match P::read_one_of(data.packet_id.as_i32(), &mut rd) {
            Ok(p) => Ok(Some(p)),
            Err(e) => Err(e),
        }
    }
}

/// Framing then unframing hands back the identifier and payload unchanged,
/// without compression.
pub proof fn lemma_frame_round_trip_uncompressed(id: i32, payload: Seq<u8>, rest: Seq<u8>)
    requires
        (varint_enc(id as int) + payload).len() <= 0x7fff_ffff,
    ensures
        frame_dec(frame_uncompressed(varint_enc(id as int) + payload) + rest, false)
            == FrameOutcome::Frame(
            id,
            payload,
            frame_uncompressed(varint_enc(id as int) + payload).len() as int,
        ),
{
    let body = varint_enc(id as int) + payload;
    let lenpre = varint_enc(u32_as_i32(body.len()));
    assert(u32_as_i32(body.len()) == body.len());
    crate::varint::lemma_varint_round_trip(body.len() as i32, body + rest);
    let s = frame_uncompressed(body) + rest;
    assert(s =~= lenpre + (body + rest));
    let k = lenpre.len() as int;
    assert(s.subrange(k, k + body.len()) =~= body);
    crate::varint::lemma_varint_round_trip(id, payload);
    assert(body.skip(varint_enc(id as int).len() as int) =~= payload);
}

/// Framing then unframing at any nonnegative threshold hands back the
/// identifier and payload unchanged.  The premises are exactly what
/// `encode` ensures on its compressed `Ok` path: the frame fits its length
/// prefix, and inflation inverts the deflation it performed.
#[verifier::rlimit(100)]
pub proof fn lemma_frame_round_trip_compressed(
    id: i32,
    payload: Seq<u8>,
    rest: Seq<u8>,
    t: int,
)
    requires
        t >= 0,
        (varint_enc(id as int) + payload).len() >= t ==> zlib_inflate(
            zlib_deflate(varint_enc(id as int) + payload),
        ) == Some(varint_enc(id as int) + payload),
        !frame_overflows(varint_enc(id as int) + payload, Some(t)),
    ensures
        frame_dec(frame_compressed(varint_enc(id as int) + payload, t) + rest, true)
            == FrameOutcome::Frame(
            id,
            payload,
            frame_compressed(varint_enc(id as int) + payload, t).len() as int,
        ),
{
    let body = varint_enc(id as int) + payload;
    crate::varint::lemma_varint_round_trip(id, payload);
    assert(body.skip(varint_enc(id as int).len() as int) =~= payload);
    if body.len() >= t {
        let inner = varint_enc(u32_as_i32(body.len())) + zlib_deflate(body);
        assert(u32_as_i32(inner.len()) == inner.len());
        let lenpre = varint_enc(u32_as_i32(inner.len()));
        crate::varint::lemma_varint_round_trip(inner.len() as i32, inner + rest);
        let s = frame_compressed(body, t) + rest;
        assert(s =~= lenpre + (inner + rest));
        let k = lenpre.len() as int;
        assert(s.subrange(k, k + inner.len()) =~= inner);
        assert(u32_as_i32(body.len()) == body.len());
        crate::varint::lemma_varint_round_trip(body.len() as i32, zlib_deflate(body));
        assert(inner.skip(varint_enc(body.len() as int).len() as int) =~= zlib_deflate(body));
        assert(body.len() > 0 ==> frame_dec(s, true) == frame_body_dec(
            body,
            (k + inner.len()) as int,
        ));
        if body.len() == 0 {
            assert(varint_enc(id as int).len() >= 1);
        }
    } else {
        let inner = seq![0u8] + body;
        assert(u32_as_i32(inner.len()) == inner.len());
        let lenpre = varint_enc(u32_as_i32(inner.len()));
        crate::varint::lemma_varint_round_trip(inner.len() as i32, inner + rest);
        let s = frame_compressed(body, t) + rest;
        assert(s =~= lenpre + (inner + rest));
        let k = lenpre.len() as int;
        assert(s.subrange(k, k + inner.len()) =~= inner);
        assert(inner[0] == 0);
        assert(varint_dec(inner) == Some((0i32, 1int)));
        assert(inner.skip(1) =~= body);
    }
}

} // verus!
