use vstd::prelude::*;

use crate::error::MooshroomError;
use crate::io::{MooshroomReadable, MooshroomRoundTrip, MooshroomWritable};
use crate::reader::Reader;

verus! {

/// A signed 32-bit integer carried as a variable-length 7-bit group encoding.
#[derive(Copy, Clone, Debug, Default, PartialEq, Eq, Structural)]
pub struct VarInt(pub i32);

/// A signed 64-bit integer carried as a variable-length 7-bit group encoding.
#[derive(Copy, Clone, Debug, Default, PartialEq, Eq, Structural)]
pub struct VarLong(pub i64);

/// The 7-bit group encoding of an unbounded natural number: each byte holds
/// seven low-order bits, least significant group first; the high bit of a
/// byte marks that more groups follow.
pub open spec fn varint_enc_nat(v: nat) -> Seq<u8>
    decreases v,
{
    if v < 128 {
        seq![v as u8]
    } else {
        seq![(v % 128 + 128) as u8] + varint_enc_nat(v / 128)
    }
}

/// Decode up to `max` 7-bit groups from the front of `s`, yielding the
/// unbounded value and the number of bytes consumed.  `None` means the
/// groups were unterminated: either the input ran out or the cap was hit.
pub open spec fn vardec_groups(s: Seq<u8>, max: int) -> Option<(nat, int)>
    decreases max,
{
    if max <= 0 || s.len() == 0 {
        None
    } else if s[0] < 128 {
        Some((s[0] as nat, 1))
    } else {
        match vardec_groups(s.skip(1), max - 1) {
            Some((v, n)) => Some(((s[0] - 128) as nat + 128 * v, n + 1)),
            None => None,
        }
    }
}

/// The first `k` bytes of `s` all carry the continuation bit.
pub open spec fn varint_unterminated(s: Seq<u8>, k: int) -> bool {
    forall|i: int| 0 <= i < k ==> s[i] >= 128
}

/// Decoding stopped because the input ran out before a terminating group.
pub open spec fn varint_incomplete(s: Seq<u8>, max: int) -> bool {
    s.len() < max && varint_unterminated(s, s.len() as int)
}

/// Decoding stopped because `max` groups passed without a terminating one.
pub open spec fn varint_toolong(s: Seq<u8>, max: int) -> bool {
    s.len() >= max && varint_unterminated(s, max)
}

/// A failed group decode is exactly one of: input exhausted, or cap overrun.
pub proof fn lemma_vardec_none(s: Seq<u8>, max: int)
    requires
        max >= 0,
    ensures
        vardec_groups(s, max) is None <==> (varint_incomplete(s, max) || varint_toolong(s, max)),
    decreases max,
{
    if max == 0 {
        assert(varint_toolong(s, 0));
    } else if s.len() == 0 {
        assert(varint_incomplete(s, max));
    } else if s[0] < 128 {
        assert(!varint_incomplete(s, max));
        assert(!varint_toolong(s, max));
    } else {
        let t = s.skip(1);
        lemma_vardec_none(t, max - 1);
        if vardec_groups(t, max - 1) is None {
            if varint_incomplete(t, max - 1) {
                assert forall|i: int| 0 <= i < s.len() implies s[i] >= 128 by {
                    if i > 0 {
                        assert(t[i - 1] == s[i]);
                    }
                }
                assert(varint_incomplete(s, max));
            } else {
                assert(varint_toolong(t, max - 1));
                assert forall|i: int| 0 <= i < max implies s[i] >= 128 by {
                    if i > 0 {
                        assert(t[i - 1] == s[i]);
                    }
                }
                assert(varint_toolong(s, max));
            }
        } else {
            if varint_incomplete(s, max) {
                assert forall|i: int| 0 <= i < t.len() implies t[i] >= 128 by {
                    assert(t[i] == s[i + 1]);
                }
                assert(varint_incomplete(t, max - 1));
            }
            if varint_toolong(s, max) {
                assert forall|i: int| 0 <= i < max - 1 implies t[i] >= 128 by {
                    assert(t[i] == s[i + 1]);
                }
                assert(varint_toolong(t, max - 1));
            }
        }
    }
}

/// Reading back an encoded value, with anything appended, yields the value
/// and consumes exactly the encoding, provided the cap admits its length.
pub proof fn lemma_vargroups_round_trip(v: nat, max: int, rest: Seq<u8>)
    requires
        varint_enc_nat(v).len() <= max,
    ensures
        vardec_groups(varint_enc_nat(v) + rest, max) == Some((v, varint_enc_nat(v).len() as int)),
    decreases v,
{
    let e = varint_enc_nat(v);
    let s = e + rest;
    if v < 128 {
        assert(s[0] == v as u8);
    } else {
        let b = (v % 128 + 128) as u8;
        assert(s[0] == b);
        let e2 = varint_enc_nat(v / 128);
        assert(s.skip(1) =~= e2 + rest);
        lemma_vargroups_round_trip(v / 128, max - 1, rest);
        assert((b - 128) as nat + 128 * (v / 128) == v);
    }
}

/// The encoding of a value below 2^32 takes between one and five bytes.
pub proof fn lemma_varenc_len_u32(v: nat)
    requires
        v < 0x1_0000_0000,
    ensures
        1 <= varint_enc_nat(v).len() <= 5,
{
    let v0 = v;
    if v0 < 128 {
        assert(varint_enc_nat(v0).len() == 1);
    } else {
        let v1 = v0 / 128;
        assert(varint_enc_nat(v0).len() == 1 + varint_enc_nat(v1).len());
        if v1 < 128 {
            assert(varint_enc_nat(v1).len() == 1);
        } else {
            let v2 = v1 / 128;
            assert(varint_enc_nat(v1).len() == 1 + varint_enc_nat(v2).len());
            if v2 < 128 {
                assert(varint_enc_nat(v2).len() == 1);
            } else {
                let v3 = v2 / 128;
                assert(varint_enc_nat(v2).len() == 1 + varint_enc_nat(v3).len());
                if v3 < 128 {
                    assert(varint_enc_nat(v3).len() == 1);
                } else {
                    let v4 = v3 / 128;
                    assert(varint_enc_nat(v3).len() == 1 + varint_enc_nat(v4).len());
                    assert(v4 < 128);
                    assert(varint_enc_nat(v4).len() == 1);
                }
            }
        }
    }
}

/// The encoding of a value below 2^64 takes between one and ten bytes.
pub proof fn lemma_varenc_len_u64(v: nat)
    requires
        v < 0x1_0000_0000_0000_0000,
    ensures
        1 <= varint_enc_nat(v).len() <= 10,
{
    let v0 = v;
    if v0 < 128 {
        assert(varint_enc_nat(v0).len() == 1);
    } else {
        let v1 = v0 / 128;
        assert(varint_enc_nat(v0).len() == 1 + varint_enc_nat(v1).len());
        if v1 < 128 {
            assert(varint_enc_nat(v1).len() == 1);
        } else {
            let v2 = v1 / 128;
            assert(varint_enc_nat(v1).len() == 1 + varint_enc_nat(v2).len());
            if v2 < 128 {
                assert(varint_enc_nat(v2).len() == 1);
            } else {
                let v3 = v2 / 128;
                assert(varint_enc_nat(v2).len() == 1 + varint_enc_nat(v3).len());
                if v3 < 128 {
                    assert(varint_enc_nat(v3).len() == 1);
                } else {
                    let v4 = v3 / 128;
                    assert(varint_enc_nat(v3).len() == 1 + varint_enc_nat(v4).len());
                    if v4 < 128 {
                        assert(varint_enc_nat(v4).len() == 1);
                    } else {
                        let v5 = v4 / 128;
                        assert(varint_enc_nat(v4).len() == 1 + varint_enc_nat(v5).len());
                        if v5 < 128 {
                            assert(varint_enc_nat(v5).len() == 1);
                        } else {
                            let v6 = v5 / 128;
                            assert(varint_enc_nat(v5).len() == 1 + varint_enc_nat(v6).len());
                            if v6 < 128 {
                                assert(varint_enc_nat(v6).len() == 1);
                            } else {
                                let v7 = v6 / 128;
                                assert(varint_enc_nat(v6).len() == 1 + varint_enc_nat(v7).len());
                                if v7 < 128 {
                                    assert(varint_enc_nat(v7).len() == 1);
                                } else {
                                    let v8 = v7 / 128;
                                    assert(varint_enc_nat(v7).len() == 1 + varint_enc_nat(v8).len());
                                    if v8 < 128 {
                                        assert(varint_enc_nat(v8).len() == 1);
                                    } else {
                                        let v9 = v8 / 128;
                                        assert(varint_enc_nat(v8).len() == 1 + varint_enc_nat(v9).len());
                                        assert(v9 < 128);
                                        assert(varint_enc_nat(v9).len() == 1);
                                    }
                                }
                            }
                        }
                    }
                }
            }
        }
    }
}

/// The unsigned 32-bit reading of a signed value (two's complement).
pub open spec fn i32_as_u32(x: int) -> nat {
    if x < 0 {
        (x + 0x1_0000_0000) as nat
    } else {
        x as nat
    }
}

/// The signed reading of an unbounded value taken modulo 2^32.
pub open spec fn u32_as_i32(v: nat) -> int {
    let m = v % 0x1_0000_0000;
    if m >= 0x8000_0000 {
        m - 0x1_0000_0000
    } else {
        m as int
    }
}

/// The unsigned 64-bit reading of a signed value (two's complement).
pub open spec fn i64_as_u64(x: int) -> nat {
    if x < 0 {
        (x + 0x1_0000_0000_0000_0000) as nat
    } else {
        x as nat
    }
}

/// The signed reading of an unbounded value taken modulo 2^64.
pub open spec fn u64_as_i64(v: nat) -> int {
    let m = v % 0x1_0000_0000_0000_0000;
    if m >= 0x8000_0000_0000_0000 {
        m - 0x1_0000_0000_0000_0000
    } else {
        m as int
    }
}

/// The wire bytes of a `VarInt` holding `x`.
pub open spec fn varint_enc(x: int) -> Seq<u8> {
    varint_enc_nat(i32_as_u32(x))
}

/// The wire bytes of a `VarLong` holding `x`.
pub open spec fn varlong_enc(x: int) -> Seq<u8> {
    varint_enc_nat(i64_as_u64(x))
}

/// Decode a `VarInt` from the front of `s`: at most five groups, the
/// accumulated value wrapped to 32 bits.
pub open spec fn varint_dec(s: Seq<u8>) -> Option<(i32, int)> {
    match vardec_groups(s, 5) {
        Some((v, n)) => Some((u32_as_i32(v) as i32, n)),
        None => None,
    }
}

/// Decode a `VarLong` from the front of `s`: at most ten groups, the
/// accumulated value wrapped to 64 bits.
pub open spec fn varlong_dec(s: Seq<u8>) -> Option<(i64, int)> {
    match vardec_groups(s, 10) {
        Some((v, n)) => Some((u64_as_i64(v) as i64, n)),
        None => None,
    }
}

/// Append the 7-bit group encoding of `v`.
fn write_groups(v: u64, w: &mut Vec<u8>)
    ensures
        final(w)@ == old(w)@ + varint_enc_nat(v as nat),
    decreases v,
{
    if v < 128 {
        w.push(v as u8);
        proof {
            assert(w@ =~= old(w)@ + varint_enc_nat(v as nat));
        }
    } else {
        w.push((v % 128 + 128) as u8);
        write_groups(v / 128, w);
        proof {
            assert(w@ =~= old(w)@ + varint_enc_nat(v as nat));
        }
    }
}

/// Read up to `max` 7-bit groups, accumulating modulo 2^64.
fn read_groups(r: &mut Reader, max: u8) -> (res: Result<u64, MooshroomError>)
    requires
        old(r).wf(),
    ensures
        final(r).wf(),
        final(r).data() == old(r).data(),
        final(r).pos() >= old(r).pos(),
        match res {
            Ok(w) => {
                &&& vardec_groups(old(r).remaining(), max as int) matches Some(p)
                    && w as nat == p.0 % 0x1_0000_0000_0000_0000
                    && final(r).pos() == old(r).pos() + p.1
            },
            Err(e) => {
                &&& vardec_groups(old(r).remaining(), max as int) is None
                &&& varint_incomplete(old(r).remaining(), max as int) ==> e is IoError
                &&& !varint_incomplete(old(r).remaining(), max as int) ==> e is VarIntTooLong
            },
        },
    decreases max,
{
    let ghost s = old(r).remaining();
    if max == 0 {
        proof {
            lemma_vardec_none(s, 0);
        }
        return Err(MooshroomError::VarIntTooLong);
    }
    let b = match r.read_u8() {
        Ok(b) => b,
        Err(_) => {
            return Err(MooshroomError::IoError);
        },
    };
    if b < 128 {
        Ok(b as u64)
    } else {
        proof {
            assert(r.remaining() =~= s.skip(1));
        }
        let ghost t = s.skip(1);
        match read_groups(r, max - 1) {
            Ok(w) => {
                let g = (b - 128) as u64;
                let out = g.wrapping_add(w.wrapping_mul(128));
                proof {
                    let p = vardec_groups(t, max - 1).unwrap();
                    let v = p.0;
                    let m = 0x1_0000_0000_0000_0000;
                    vstd::arithmetic::div_mod::lemma_mul_mod_noop_right(128, v as int, m as int);
                    vstd::arithmetic::div_mod::lemma_add_mod_noop_right(
                        g as int,
                        (128 * v) as int,
                        m as int,
                    );
                    assert((g as nat + 128 * (v % m)) % m == (g as nat + 128 * v) % m);
                }
                Ok(out)
            },
            Err(e) => {
                proof {
                    lemma_vardec_none(t, max as int - 1);
                    lemma_vardec_none(s, max as int);
                    assert(forall|i: int| 0 <= i < t.len() ==> t[i] == s[i + 1]);
                    if varint_incomplete(t, max as int - 1) {
                        assert(varint_unterminated(s, s.len() as int));
                        assert(varint_incomplete(s, max as int));
                    } else {
                        assert(varint_toolong(t, max as int - 1));
                        assert(varint_unterminated(s, max as int));
                        assert(!varint_incomplete(s, max as int));
                    }
                }
                Err(e)
            },
        }
    }
}

impl VarInt {
    pub fn new(i: i32) -> (r: Self)
        ensures
            r.0 == i,
    {
        VarInt(i)
    }

    pub fn as_i32(&self) -> (r: i32)
        ensures
            r == self.0,
    {
        self.0
    }
}

/// Read one `VarInt`, distinguishing an exhausted input from an overlong
/// encoding: five groups without a terminator fail with `VarIntTooLong`.
pub fn read_varint(r: &mut Reader) -> (res: Result<VarInt, MooshroomError>)
    requires
        old(r).wf(),
    ensures
        final(r).wf(),
        final(r).data() == old(r).data(),
        final(r).pos() >= old(r).pos(),
        match res {
            Ok(v) => varint_dec(old(r).remaining()) == Some((v.0, final(r).pos() - old(r).pos())),
            Err(e) => {
                &&& varint_dec(old(r).remaining()) is None
                &&& varint_incomplete(old(r).remaining(), 5) ==> e is IoError
                &&& !varint_incomplete(old(r).remaining(), 5) ==> e is VarIntTooLong
            },
        },
{
    match read_groups(r, 5) {
        Ok(w) => {
            let ghost p = vardec_groups(old(r).remaining(), 5).unwrap();
            proof {
                let m64: int = 0x1_0000_0000_0000_0000;
                let m32: int = 0x1_0000_0000;
                assert(m64 == m32 * m32);
                vstd::arithmetic::div_mod::lemma_mod_mod(p.0 as int, m32, m32);
            }
            let x = (w % 0x1_0000_0000) as u32;
            let y: i32 = if x >= 0x8000_0000 {
                ((x as i64) - 0x1_0000_0000) as i32
            } else {
                x as i32
            };
            proof {
                assert(y as int == u32_as_i32(p.0));
            }
            Ok(VarInt(y))
        },
        Err(e) => Err(e),
    }
}

/// Append the wire bytes of one `VarInt`.
pub fn write_varint(v: VarInt, w: &mut Vec<u8>)
    ensures
        final(w)@ == old(w)@ + varint_enc(v.0 as int),
{
    let x: u32 = if v.0 >= 0 {
        v.0 as u32
    } else {
        ((v.0 as i64) + 0x1_0000_0000) as u32
    };
    proof {
        assert(x as nat == i32_as_u32(v.0 as int));
    }
    write_groups(x as u64, w);
}

/// Read one `VarLong`; ten groups without a terminator fail with
/// `VarIntTooLong`.
pub fn read_varlong(r: &mut Reader) -> (res: Result<VarLong, MooshroomError>)
    requires
        old(r).wf(),
    ensures
        final(r).wf(),
        final(r).data() == old(r).data(),
        final(r).pos() >= old(r).pos(),
        match res {
            Ok(v) => varlong_dec(old(r).remaining()) == Some((v.0, final(r).pos() - old(r).pos())),
            Err(e) => {
                &&& varlong_dec(old(r).remaining()) is None
                &&& varint_incomplete(old(r).remaining(), 10) ==> e is IoError
                &&& !varint_incomplete(old(r).remaining(), 10) ==> e is VarIntTooLong
            },
        },
{
    match read_groups(r, 10) {
        Ok(w) => {
            let ghost p = vardec_groups(old(r).remaining(), 10).unwrap();
            let y: i64 = if w >= 0x8000_0000_0000_0000 {
                ((w as i128) - 0x1_0000_0000_0000_0000) as i64
            } else {
                w as i64
            };
            proof {
                assert(y as int == u64_as_i64(p.0));
            }
            Ok(VarLong(y))
        },
        Err(e) => Err(e),
    }
}

/// Append the wire bytes of one `VarLong`; the value zero still emits one
/// byte.
pub fn write_varlong(v: VarLong, w: &mut Vec<u8>)
    ensures
        final(w)@ == old(w)@ + varlong_enc(v.0 as int),
{
    let x: u64 = if v.0 >= 0 {
        v.0 as u64
    } else {
        ((v.0 as i128) + 0x1_0000_0000_0000_0000) as u64
    };
    proof {
        assert(x as nat == i64_as_u64(v.0 as int));
    }
    write_groups(x, w);
}

impl DeepView for VarInt {
    type V = VarInt;

    open spec fn deep_view(&self) -> VarInt {
        *self
    }
}

impl DeepView for VarLong {
    type V = VarLong;

    open spec fn deep_view(&self) -> VarLong {
        *self
    }
}

impl MooshroomWritable for VarInt {
    open spec fn enc(&self) -> Seq<u8> {
        varint_enc(self.0 as int)
    }

    fn write(&self, w: &mut Vec<u8>) {
        write_varint(*self, w);
    }
}

impl MooshroomReadable for VarInt {
    open spec fn dec(s: Seq<u8>) -> Option<(VarInt, int)> {
        match varint_dec(s) {
            Some((x, n)) => Some((VarInt(x), n)),
            None => None,
        }
    }

    fn read(r: &mut Reader) -> (res: Result<Self, MooshroomError>) {
        match read_varint(r) {
            Ok(v) => Ok(v),
            Err(e) => Err(e),
        }
    }
}

/// The value read back from a written `VarInt` is the value written, and its
/// encoding spans one to five bytes.
pub proof fn lemma_varint_round_trip(x: i32, rest: Seq<u8>)
    ensures
        varint_dec(varint_enc(x as int) + rest) == Some((x, varint_enc(x as int).len() as int)),
        1 <= varint_enc(x as int).len() <= 5,
{
    let v = i32_as_u32(x as int);
    lemma_varenc_len_u32(v);
    lemma_vargroups_round_trip(v, 5, rest);
    assert(u32_as_i32(v) == x as int);
}

/// The value read back from a written `VarLong` is the value written, and
/// its encoding spans one to ten bytes.
pub proof fn lemma_varlong_round_trip(x: i64, rest: Seq<u8>)
    ensures
        varlong_dec(varlong_enc(x as int) + rest) == Some((x, varlong_enc(x as int).len() as int)),
        1 <= varlong_enc(x as int).len() <= 10,
{
    let v = i64_as_u64(x as int);
    lemma_varenc_len_u64(v);
    lemma_vargroups_round_trip(v, 10, rest);
    assert(u64_as_i64(v) == x as int);
}

impl MooshroomRoundTrip for VarInt {
    open spec fn wire_bounded(&self) -> bool {
        true
    }

    proof fn lemma_round_trip(&self, rest: Seq<u8>) {
        lemma_varint_round_trip(self.0, rest);
    }
}

impl MooshroomWritable for VarLong {
    open spec fn enc(&self) -> Seq<u8> {
        varlong_enc(self.0 as int)
    }

    fn write(&self, w: &mut Vec<u8>) {
        write_varlong(*self, w);
    }
}

impl MooshroomReadable for VarLong {
    open spec fn dec(s: Seq<u8>) -> Option<(VarLong, int)> {
        match varlong_dec(s) {
            Some((x, n)) => Some((VarLong(x), n)),
            None => None,
        }
    }

    fn read(r: &mut Reader) -> (res: Result<Self, MooshroomError>) {
        match read_varlong(r) {
            Ok(v) => Ok(v),
            Err(e) => Err(e),
        }
    }
}

impl MooshroomRoundTrip for VarLong {
    open spec fn wire_bounded(&self) -> bool {
        true
    }

    proof fn lemma_round_trip(&self, rest: Seq<u8>) {
        lemma_varlong_round_trip(self.0, rest);
    }
}

} // verus!
