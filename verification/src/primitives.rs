use vstd::prelude::*;

use crate::error::MooshroomError;
use crate::io::{MooshroomReadable, MooshroomRoundTrip, MooshroomWritable};
use crate::reader::Reader;
use crate::varint::{
    read_varint, u32_as_i32, varint_dec, varint_enc, write_varint, lemma_varint_round_trip, VarInt,
};
use vstd::arithmetic::div_mod::{
    lemma_fundamental_div_mod_converse, lemma_mod_breakdown, lemma_mod_mod,
};
use vstd::utf8::{decode_utf8, encode_utf8, valid_utf8};

verus! {

broadcast use vstd::utf8::encode_utf8_valid_utf8, vstd::utf8::encode_utf8_decode_utf8;

/// A namespaced resource location such as `minecraft:cow`, carried as a
/// protocol string.
pub type Identifier = String;

/// 256 raised to `w`: the number of values a `w`-byte field can hold.
pub open spec fn pow256(w: nat) -> nat
    decreases w,
{
    if w == 0 {
        1
    } else {
        256 * pow256((w - 1) as nat)
    }
}

pub proof fn lemma_pow256_pos(w: nat)
    ensures
        pow256(w) >= 1,
    decreases w,
{
    if w > 0 {
        lemma_pow256_pos((w - 1) as nat);
    }
}

pub proof fn lemma_pow256_le(a: nat, b: nat)
    requires
        a <= b,
    ensures
        pow256(a) <= pow256(b),
    decreases b,
{
    if a < b && b > 0 {
        lemma_pow256_le(a, (b - 1) as nat);
        lemma_pow256_pos((b - 1) as nat);
    }
}

/// The widths this protocol uses, spelled out.
pub proof fn lemma_pow256_values()
    ensures
        pow256(1) == 0x100,
        pow256(2) == 0x1_0000,
        pow256(4) == 0x1_0000_0000,
        pow256(8) == 0x1_0000_0000_0000_0000,
        pow256(16) == 0x1_0000_0000_0000_0000_0000_0000_0000_0000int,
{
    assert(pow256(0) == 1);
    assert(pow256(1) == 0x100);
    assert(pow256(2) == 0x1_0000);
    assert(pow256(3) == 0x100_0000);
    assert(pow256(4) == 0x1_0000_0000);
    assert(pow256(5) == 0x100_0000_0000);
    assert(pow256(6) == 0x1_0000_0000_0000);
    assert(pow256(7) == 0x100_0000_0000_0000);
    assert(pow256(8) == 0x1_0000_0000_0000_0000);
    assert(pow256(9) == 0x100_0000_0000_0000_0000);
    assert(pow256(10) == 0x1_0000_0000_0000_0000_0000);
    assert(pow256(11) == 0x100_0000_0000_0000_0000_0000);
    assert(pow256(12) == 0x1_0000_0000_0000_0000_0000_0000);
    assert(pow256(13) == 0x100_0000_0000_0000_0000_0000_0000);
    assert(pow256(14) == 0x1_0000_0000_0000_0000_0000_0000_0000);
    assert(pow256(15) == 0x100_0000_0000_0000_0000_0000_0000_0000);
    assert(pow256(16) == 0x1_0000_0000_0000_0000_0000_0000_0000_0000int);
}

/// The `w`-byte big-endian encoding of `v` (modulo 256^w): most significant
/// byte first, so the least significant byte is appended last.
pub open spec fn be_enc(v: nat, w: nat) -> Seq<u8>
    decreases w,
{
    if w == 0 {
        Seq::empty()
    } else {
        be_enc(v / 256, (w - 1) as nat).push((v % 256) as u8)
    }
}

/// The value of the first `w` bytes of `s` read as a big-endian integer.
pub open spec fn be_dec(s: Seq<u8>, w: nat) -> nat
    decreases w,
{
    if w == 0 {
        0
    } else {
        (256 * be_dec(s, (w - 1) as nat) + s[w - 1]) as nat
    }
}

pub proof fn lemma_be_enc_len(v: nat, w: nat)
    ensures
        be_enc(v, w).len() == w,
    decreases w,
{
    if w > 0 {
        lemma_be_enc_len(v / 256, (w - 1) as nat);
    }
}

pub proof fn lemma_be_dec_bound(s: Seq<u8>, w: nat)
    requires
        forall|i: int| 0 <= i < w ==> 0 <= #[trigger] s[i] < 256,
    ensures
        be_dec(s, w) < pow256(w),
    decreases w,
{
    if w > 0 {
        lemma_be_dec_bound(s, (w - 1) as nat);
    }
}

/// Fixed-width fields round-trip: decoding the encoding of `v`, with
/// anything appended, recovers `v` modulo 256^w.
pub proof fn lemma_be_round_trip(v: nat, w: nat, rest: Seq<u8>)
    ensures
        be_dec(be_enc(v, w) + rest, w) == v % pow256(w),
    decreases w,
{
    let e = be_enc(v, w);
    let s = e + rest;
    if w == 0 {
        assert(v % 1 == 0);
    } else {
        let b = (v % 256) as u8;
        let e2 = be_enc(v / 256, (w - 1) as nat);
        lemma_be_enc_len(v / 256, (w - 1) as nat);
        assert(s =~= e2 + (seq![b] + rest));
        lemma_be_round_trip(v / 256, (w - 1) as nat, seq![b] + rest);
        assert(s[w - 1] == b);
        lemma_pow256_pos((w - 1) as nat);
        lemma_mod_breakdown(v as int, 256, pow256((w - 1) as nat) as int);
    }
}

/// Append the `width`-byte big-endian form of `v`.
pub fn write_be(v: u128, width: usize, w: &mut Vec<u8>)
    ensures
        final(w)@ == old(w)@ + be_enc(v as nat, width as nat),
    decreases width,
{
    if width == 0 {
        proof {
            assert(w@ =~= old(w)@ + be_enc(v as nat, 0));
        }
        return ;
    }
    write_be(v / 256, width - 1, w);
    w.push((v % 256) as u8);
    proof {
        assert(w@ =~= old(w)@ + be_enc(v as nat, width as nat));
    }
}

/// Read a `width`-byte big-endian integer.
pub fn read_be(r: &mut Reader, width: usize) -> (res: Result<u128, MooshroomError>)
    requires
        old(r).wf(),
        width <= 16,
    ensures
        final(r).wf(),
        final(r).data() == old(r).data(),
        final(r).pos() >= old(r).pos(),
        match res {
            Ok(v) => {
                &&& width <= old(r).remaining().len()
                &&& v as nat == be_dec(old(r).remaining(), width as nat)
                &&& final(r).pos() == old(r).pos() + width
            },
            Err(e) => {
                &&& old(r).remaining().len() < width
                &&& e is IoError
            },
        },
{
    let ghost s0 = old(r).remaining();
    let mut acc: u128 = 0;
    let mut i: usize = 0;
    proof {
        lemma_pow256_values();
    }
    while i < width
        invariant
            r.wf(),
            r.data() == old(r).data(),
            old(r).wf(),
            i <= width,
            width <= 16,
            r.pos() == old(r).pos() + i,
            i <= s0.len(),
            s0 == old(r).remaining(),
            acc as nat == be_dec(s0, i as nat),
            acc < pow256(i as nat),
            pow256(16) == 0x1_0000_0000_0000_0000_0000_0000_0000_0000int,
        decreases width - i,
    {
        let b = match r.read_u8() {
            Ok(b) => b,
            Err(_) => {
                return Err(MooshroomError::IoError);
            },
        };
        proof {
            assert(r.remaining() =~= s0.skip(i as int + 1));
            assert(b == s0[i as int]);
            lemma_pow256_le((i + 1) as nat, 16);
        }
        acc = acc * 256 + (b as u128);
        i = i + 1;
    }
    Ok(acc)
}

/// The unsigned reading of a signed value, two's complement in `full`
/// values.
pub open spec fn sig_to_un(x: int, full: int) -> nat {
    if x < 0 {
        (x + full) as nat
    } else {
        x as nat
    }
}

/// The signed reading of an unsigned value below `full`, negative from
/// `half` upward.
pub open spec fn un_to_sig(v: nat, half: nat, full: int) -> int {
    if v >= half {
        v - full
    } else {
        v as int
    }
}


impl MooshroomWritable for u8 {
    open spec fn enc(&self) -> Seq<u8> {
        be_enc(*self as nat, 1)
    }

    fn write(&self, w: &mut Vec<u8>) {
        write_be(*self as u128, 1, w);
    }
}

impl MooshroomReadable for u8 {
    open spec fn dec(s: Seq<u8>) -> Option<(u8, int)> {
        if s.len() >= 1 {
            Some((be_dec(s, 1) as u8, 1))
        } else {
            None
        }
    }

    fn read(r: &mut Reader) -> (res: Result<Self, MooshroomError>)
        ensures
            res matches Err(e) ==> e is IoError,
    {
        match read_be(r, 1) {
            Ok(v) => {
                proof {
                    lemma_be_dec_bound(old(r).remaining(), 1);
                    lemma_pow256_values();
                }
                Ok(v as u8)
            },
            Err(e) => Err(e),
        }
    }
}

impl MooshroomRoundTrip for u8 {
    open spec fn wire_bounded(&self) -> bool {
        true
    }

    proof fn lemma_round_trip(&self, rest: Seq<u8>) {
        lemma_be_enc_len(*self as nat, 1);
        lemma_be_round_trip(*self as nat, 1, rest);
        lemma_pow256_values();
    }
}


impl MooshroomWritable for u16 {
    open spec fn enc(&self) -> Seq<u8> {
        be_enc(*self as nat, 2)
    }

    fn write(&self, w: &mut Vec<u8>) {
        write_be(*self as u128, 2, w);
    }
}

impl MooshroomReadable for u16 {
    open spec fn dec(s: Seq<u8>) -> Option<(u16, int)> {
        if s.len() >= 2 {
            Some((be_dec(s, 2) as u16, 2))
        } else {
            None
        }
    }

    fn read(r: &mut Reader) -> (res: Result<Self, MooshroomError>)
        ensures
            res matches Err(e) ==> e is IoError,
    {
        match read_be(r, 2) {
            Ok(v) => {
                proof {
                    lemma_be_dec_bound(old(r).remaining(), 2);
                    lemma_pow256_values();
                }
                Ok(v as u16)
            },
            Err(e) => Err(e),
        }
    }
}

impl MooshroomRoundTrip for u16 {
    open spec fn wire_bounded(&self) -> bool {
        true
    }

    proof fn lemma_round_trip(&self, rest: Seq<u8>) {
        lemma_be_enc_len(*self as nat, 2);
        lemma_be_round_trip(*self as nat, 2, rest);
        lemma_pow256_values();
    }
}


impl MooshroomWritable for u32 {
    open spec fn enc(&self) -> Seq<u8> {
        be_enc(*self as nat, 4)
    }

    fn write(&self, w: &mut Vec<u8>) {
        write_be(*self as u128, 4, w);
    }
}

impl MooshroomReadable for u32 {
    open spec fn dec(s: Seq<u8>) -> Option<(u32, int)> {
        if s.len() >= 4 {
            Some((be_dec(s, 4) as u32, 4))
        } else {
            None
        }
    }

    fn read(r: &mut Reader) -> (res: Result<Self, MooshroomError>)
        ensures
            res matches Err(e) ==> e is IoError,
    {
        match read_be(r, 4) {
            Ok(v) => {
                proof {
                    lemma_be_dec_bound(old(r).remaining(), 4);
                    lemma_pow256_values();
                }
                Ok(v as u32)
            },
            Err(e) => Err(e),
        }
    }
}

impl MooshroomRoundTrip for u32 {
    open spec fn wire_bounded(&self) -> bool {
        true
    }

    proof fn lemma_round_trip(&self, rest: Seq<u8>) {
        lemma_be_enc_len(*self as nat, 4);
        lemma_be_round_trip(*self as nat, 4, rest);
        lemma_pow256_values();
    }
}


impl MooshroomWritable for u64 {
    open spec fn enc(&self) -> Seq<u8> {
        be_enc(*self as nat, 8)
    }

    fn write(&self, w: &mut Vec<u8>) {
        write_be(*self as u128, 8, w);
    }
}

impl MooshroomReadable for u64 {
    open spec fn dec(s: Seq<u8>) -> Option<(u64, int)> {
        if s.len() >= 8 {
            Some((be_dec(s, 8) as u64, 8))
        } else {
            None
        }
    }

    fn read(r: &mut Reader) -> (res: Result<Self, MooshroomError>)
        ensures
            res matches Err(e) ==> e is IoError,
    {
        match read_be(r, 8) {
            Ok(v) => {
                proof {
                    lemma_be_dec_bound(old(r).remaining(), 8);
                    lemma_pow256_values();
                }
                Ok(v as u64)
            },
            Err(e) => Err(e),
        }
    }
}

impl MooshroomRoundTrip for u64 {
    open spec fn wire_bounded(&self) -> bool {
        true
    }

    proof fn lemma_round_trip(&self, rest: Seq<u8>) {
        lemma_be_enc_len(*self as nat, 8);
        lemma_be_round_trip(*self as nat, 8, rest);
        lemma_pow256_values();
    }
}


impl MooshroomWritable for u128 {
    open spec fn enc(&self) -> Seq<u8> {
        be_enc(*self as nat, 16)
    }

    fn write(&self, w: &mut Vec<u8>) {
        write_be(*self as u128, 16, w);
    }
}

impl MooshroomReadable for u128 {
    open spec fn dec(s: Seq<u8>) -> Option<(u128, int)> {
        if s.len() >= 16 {
            Some((be_dec(s, 16) as u128, 16))
        } else {
            None
        }
    }

    fn read(r: &mut Reader) -> (res: Result<Self, MooshroomError>)
        ensures
            res matches Err(e) ==> e is IoError,
    {
        match read_be(r, 16) {
            Ok(v) => {
                proof {
                    lemma_be_dec_bound(old(r).remaining(), 16);
                    lemma_pow256_values();
                }
                Ok(v as u128)
            },
            Err(e) => Err(e),
        }
    }
}

impl MooshroomRoundTrip for u128 {
    open spec fn wire_bounded(&self) -> bool {
        true
    }

    proof fn lemma_round_trip(&self, rest: Seq<u8>) {
        lemma_be_enc_len(*self as nat, 16);
        lemma_be_round_trip(*self as nat, 16, rest);
        lemma_pow256_values();
    }
}


impl MooshroomWritable for i8 {
    open spec fn enc(&self) -> Seq<u8> {
        be_enc(sig_to_un(*self as int, 0x100), 1)
    }

    fn write(&self, w: &mut Vec<u8>) {
        let u: u8 = if *self >= 0 {
            *self as u8
        } else {
            ((*self as i16) + 0x100) as u8
        };
        proof {
            assert(u as nat == sig_to_un(*self as int, 0x100));
            assert(be_enc(u as u128 as nat, 1) == self.enc());
        }
        write_be(u as u128, 1, w);
    }
}

impl MooshroomReadable for i8 {
    open spec fn dec(s: Seq<u8>) -> Option<(i8, int)> {
        if s.len() >= 1 {
            Some((un_to_sig(be_dec(s, 1), 0x80, 0x100) as i8, 1))
        } else {
            None
        }
    }

    fn read(r: &mut Reader) -> (res: Result<Self, MooshroomError>)
        ensures
            res matches Err(e) ==> e is IoError,
    {
        match read_be(r, 1) {
            Ok(v) => {
                proof {
                    lemma_be_dec_bound(old(r).remaining(), 1);
                    lemma_pow256_values();
                }
                let u = v as u8;
                let y: i8 = if u >= 0x80 {
            ((u as i16) - 0x100) as i8
        } else {
            u as i8
        };
                proof {
                    assert(be_dec(old(r).remaining(), 1) < 0x100);
                    assert(y as int == un_to_sig(be_dec(old(r).remaining(), 1), 0x80, 0x100));
                    assert((un_to_sig(be_dec(old(r).remaining(), 1), 0x80, 0x100) as i8) == y);
                    assert(Self::dec(old(r).remaining()) == Some((y, 1int)));
                }
                Ok(y)
            },
            Err(e) => Err(e),
        }
    }
}

impl MooshroomRoundTrip for i8 {
    open spec fn wire_bounded(&self) -> bool {
        true
    }

    proof fn lemma_round_trip(&self, rest: Seq<u8>) {
        let u = sig_to_un(*self as int, 0x100);
        lemma_be_enc_len(u, 1);
        lemma_be_round_trip(u, 1, rest);
        lemma_pow256_values();
        assert(un_to_sig(u, 0x80, 0x100) == *self as int);
    }
}


impl MooshroomWritable for i16 {
    open spec fn enc(&self) -> Seq<u8> {
        be_enc(sig_to_un(*self as int, 0x1_0000), 2)
    }

    fn write(&self, w: &mut Vec<u8>) {
        let u: u16 = if *self >= 0 {
            *self as u16
        } else {
            ((*self as i32) + 0x1_0000) as u16
        };
        proof {
            assert(u as nat == sig_to_un(*self as int, 0x1_0000));
        }
        write_be(u as u128, 2, w);
    }
}

impl MooshroomReadable for i16 {
    open spec fn dec(s: Seq<u8>) -> Option<(i16, int)> {
        if s.len() >= 2 {
            Some((un_to_sig(be_dec(s, 2), 0x8000, 0x1_0000) as i16, 2))
        } else {
            None
        }
    }

    fn read(r: &mut Reader) -> (res: Result<Self, MooshroomError>)
        ensures
            res matches Err(e) ==> e is IoError,
    {
        match read_be(r, 2) {
            Ok(v) => {
                proof {
                    lemma_be_dec_bound(old(r).remaining(), 2);
                    lemma_pow256_values();
                }
                let u = v as u16;
                let y: i16 = if u >= 0x8000 {
            ((u as i32) - 0x1_0000) as i16
        } else {
            u as i16
        };
                proof {
                    assert(be_dec(old(r).remaining(), 2) < 0x1_0000);
                    assert(y as int == un_to_sig(be_dec(old(r).remaining(), 2), 0x8000, 0x1_0000));
                    assert((un_to_sig(be_dec(old(r).remaining(), 2), 0x8000, 0x1_0000) as i16) == y);
                    assert(Self::dec(old(r).remaining()) == Some((y, 2int)));
                }
                Ok(y)
            },
            Err(e) => Err(e),
        }
    }
}

impl MooshroomRoundTrip for i16 {
    open spec fn wire_bounded(&self) -> bool {
        true
    }

    proof fn lemma_round_trip(&self, rest: Seq<u8>) {
        let u = sig_to_un(*self as int, 0x1_0000);
        lemma_be_enc_len(u, 2);
        lemma_be_round_trip(u, 2, rest);
        lemma_pow256_values();
        assert(un_to_sig(u, 0x8000, 0x1_0000) == *self as int);
    }
}


impl MooshroomWritable for i32 {
    open spec fn enc(&self) -> Seq<u8> {
        be_enc(sig_to_un(*self as int, 0x1_0000_0000), 4)
    }

    fn write(&self, w: &mut Vec<u8>) {
        let u: u32 = if *self >= 0 {
            *self as u32
        } else {
            ((*self as i64) + 0x1_0000_0000) as u32
        };
        proof {
            assert(u as nat == sig_to_un(*self as int, 0x1_0000_0000));
        }
        write_be(u as u128, 4, w);
    }
}

impl MooshroomReadable for i32 {
    open spec fn dec(s: Seq<u8>) -> Option<(i32, int)> {
        if s.len() >= 4 {
            Some((un_to_sig(be_dec(s, 4), 0x8000_0000, 0x1_0000_0000) as i32, 4))
        } else {
            None
        }
    }

    fn read(r: &mut Reader) -> (res: Result<Self, MooshroomError>)
        ensures
            res matches Err(e) ==> e is IoError,
    {
        match read_be(r, 4) {
            Ok(v) => {
                proof {
                    lemma_be_dec_bound(old(r).remaining(), 4);
                    lemma_pow256_values();
                }
                let u = v as u32;
                let y: i32 = if u >= 0x8000_0000 {
            ((u as i64) - 0x1_0000_0000) as i32
        } else {
            u as i32
        };
                proof {
                    assert(be_dec(old(r).remaining(), 4) < 0x1_0000_0000);
                    assert(y as int == un_to_sig(be_dec(old(r).remaining(), 4), 0x8000_0000, 0x1_0000_0000));
                    assert((un_to_sig(be_dec(old(r).remaining(), 4), 0x8000_0000, 0x1_0000_0000) as i32) == y);
                    assert(Self::dec(old(r).remaining()) == Some((y, 4int)));
                }
                Ok(y)
            },
            Err(e) => Err(e),
        }
    }
}

impl MooshroomRoundTrip for i32 {
    open spec fn wire_bounded(&self) -> bool {
        true
    }

    proof fn lemma_round_trip(&self, rest: Seq<u8>) {
        let u = sig_to_un(*self as int, 0x1_0000_0000);
        lemma_be_enc_len(u, 4);
        lemma_be_round_trip(u, 4, rest);
        lemma_pow256_values();
        assert(un_to_sig(u, 0x8000_0000, 0x1_0000_0000) == *self as int);
    }
}


impl MooshroomWritable for i64 {
    open spec fn enc(&self) -> Seq<u8> {
        be_enc(sig_to_un(*self as int, 0x1_0000_0000_0000_0000), 8)
    }

    fn write(&self, w: &mut Vec<u8>) {
        let u: u64 = if *self >= 0 {
            *self as u64
        } else {
            ((*self as i128) + 0x1_0000_0000_0000_0000) as u64
        };
        proof {
            assert(u as nat == sig_to_un(*self as int, 0x1_0000_0000_0000_0000));
        }
        write_be(u as u128, 8, w);
    }
}

impl MooshroomReadable for i64 {
    open spec fn dec(s: Seq<u8>) -> Option<(i64, int)> {
        if s.len() >= 8 {
            Some((un_to_sig(be_dec(s, 8), 0x8000_0000_0000_0000, 0x1_0000_0000_0000_0000) as i64, 8))
        } else {
            None
        }
    }

    fn read(r: &mut Reader) -> (res: Result<Self, MooshroomError>)
        ensures
            res matches Err(e) ==> e is IoError,
    {
        match read_be(r, 8) {
            Ok(v) => {
                proof {
                    lemma_be_dec_bound(old(r).remaining(), 8);
                    lemma_pow256_values();
                }
                let u = v as u64;
                let y: i64 = if u >= 0x8000_0000_0000_0000 {
            ((u as i128) - 0x1_0000_0000_0000_0000) as i64
        } else {
            u as i64
        };
                proof {
                    assert(be_dec(old(r).remaining(), 8) < 0x1_0000_0000_0000_0000);
                    assert(y as int == un_to_sig(be_dec(old(r).remaining(), 8), 0x8000_0000_0000_0000, 0x1_0000_0000_0000_0000));
                    assert((un_to_sig(be_dec(old(r).remaining(), 8), 0x8000_0000_0000_0000, 0x1_0000_0000_0000_0000) as i64) == y);
                    assert(Self::dec(old(r).remaining()) == Some((y, 8int)));
                }
                Ok(y)
            },
            Err(e) => Err(e),
        }
    }
}

impl MooshroomRoundTrip for i64 {
    open spec fn wire_bounded(&self) -> bool {
        true
    }

    proof fn lemma_round_trip(&self, rest: Seq<u8>) {
        let u = sig_to_un(*self as int, 0x1_0000_0000_0000_0000);
        lemma_be_enc_len(u, 8);
        lemma_be_round_trip(u, 8, rest);
        lemma_pow256_values();
        assert(un_to_sig(u, 0x8000_0000_0000_0000, 0x1_0000_0000_0000_0000) == *self as int);
    }
}


impl MooshroomWritable for i128 {
    open spec fn enc(&self) -> Seq<u8> {
        be_enc(sig_to_un(*self as int, 0x1_0000_0000_0000_0000_0000_0000_0000_0000int), 16)
    }

    fn write(&self, w: &mut Vec<u8>) {
        let u: u128 = if *self >= 0 {
            *self as u128
        } else {
            ((*self - i128::MIN) as u128) + 0x8000_0000_0000_0000_0000_0000_0000_0000
        };
        proof {
            assert(u as nat == sig_to_un(*self as int, 0x1_0000_0000_0000_0000_0000_0000_0000_0000int));
        }
        write_be(u as u128, 16, w);
    }
}

impl MooshroomReadable for i128 {
    open spec fn dec(s: Seq<u8>) -> Option<(i128, int)> {
        if s.len() >= 16 {
            Some((un_to_sig(be_dec(s, 16), 0x8000_0000_0000_0000_0000_0000_0000_0000, 0x1_0000_0000_0000_0000_0000_0000_0000_0000int) as i128, 16))
        } else {
            None
        }
    }

    fn read(r: &mut Reader) -> (res: Result<Self, MooshroomError>)
        ensures
            res matches Err(e) ==> e is IoError,
    {
        match read_be(r, 16) {
            Ok(v) => {
                proof {
                    lemma_be_dec_bound(old(r).remaining(), 16);
                    lemma_pow256_values();
                }
                let u = v as u128;
                let y: i128 = if u >= 0x8000_0000_0000_0000_0000_0000_0000_0000 {
            ((u - 0x8000_0000_0000_0000_0000_0000_0000_0000) as i128) + i128::MIN
        } else {
            u as i128
        };
                proof {
                    assert(be_dec(old(r).remaining(), 16) < 0x1_0000_0000_0000_0000_0000_0000_0000_0000int);
                    assert(y as int == un_to_sig(be_dec(old(r).remaining(), 16), 0x8000_0000_0000_0000_0000_0000_0000_0000, 0x1_0000_0000_0000_0000_0000_0000_0000_0000int));
                    assert(Self::dec(old(r).remaining()) == Some((y, 16int)));
                }
                Ok(y)
            },
            Err(e) => Err(e),
        }
    }
}

impl MooshroomRoundTrip for i128 {
    open spec fn wire_bounded(&self) -> bool {
        true
    }

    proof fn lemma_round_trip(&self, rest: Seq<u8>) {
        let u = sig_to_un(*self as int, 0x1_0000_0000_0000_0000_0000_0000_0000_0000int);
        lemma_be_enc_len(u, 16);
        lemma_be_round_trip(u, 16, rest);
        lemma_pow256_values();
        assert(un_to_sig(u, 0x8000_0000_0000_0000_0000_0000_0000_0000, 0x1_0000_0000_0000_0000_0000_0000_0000_0000int) == *self as int);
    }
}


impl MooshroomWritable for bool {
    open spec fn enc(&self) -> Seq<u8> {
        if *self {
            seq![1u8]
        } else {
            seq![0u8]
        }
    }

    fn write(&self, w: &mut Vec<u8>) {
        if *self {
            w.push(1u8);
        } else {
            w.push(0u8);
        }
        proof {
            assert(w@ =~= old(w)@ + self.enc());
        }
    }
}

impl MooshroomReadable for bool {
    open spec fn dec(s: Seq<u8>) -> Option<(bool, int)> {
        if s.len() >= 1 {
            Some((s[0] != 0, 1))
        } else {
            None
        }
    }

    fn read(r: &mut Reader) -> (res: Result<Self, MooshroomError>) {
        match r.read_u8() {
            Ok(b) => Ok(b != 0),
            Err(e) => Err(e),
        }
    }
}

impl MooshroomRoundTrip for bool {
    open spec fn wire_bounded(&self) -> bool {
        true
    }

    proof fn lemma_round_trip(&self, rest: Seq<u8>) {
        assert((self.enc() + rest)[0] == self.enc()[0]);
    }
}

/// Relies on `String::from_utf8`: it succeeds exactly on valid UTF-8 input
/// and returns the string those bytes spell.
#[verifier::external_body]
fn string_from_utf8(b: Vec<u8>) -> (res: Option<String>)
    ensures
        match res {
            Some(st) => {
                &&& valid_utf8(b@)
                &&& st@ == decode_utf8(b@)
                &&& encode_utf8(st@) == b@
            },
            None => !valid_utf8(b@),
        },
{
    String::from_utf8(b).ok()
}

/// Reduce a byte count to the signed 32-bit value the length prefix holds.
pub fn length_as_i32(n: usize) -> (r: i32)
    ensures
        r as int == u32_as_i32(n as nat),
{
    let m = ((n as u128) % 0x1_0000_0000) as u32;
    if m >= 0x8000_0000 {
        ((m as i64) - 0x1_0000_0000) as i32
    } else {
        m as i32
    }
}

impl MooshroomWritable for String {
    /// A `VarInt` count of UTF-8 bytes, then those bytes.
    open spec fn enc(&self) -> Seq<u8> {
        varint_enc(u32_as_i32(encode_utf8(self@).len())) + encode_utf8(self@)
    }

    fn write(&self, w: &mut Vec<u8>) {
        let bytes: &[u8] = self.as_str().as_bytes();
        let n = length_as_i32(bytes.len());
        write_varint(VarInt(n), w);
        w.extend_from_slice(bytes);
        proof {
            assert(w@ =~= old(w)@ + self.enc());
        }
    }
}

impl MooshroomReadable for String {
    open spec fn dec(s: Seq<u8>) -> Option<(Seq<char>, int)> {
        match varint_dec(s) {
            Some((n, k)) => {
                if n < 0 {
                    None
                } else if k + n <= s.len() {
                    let b = s.subrange(k, k + n);
                    if valid_utf8(b) {
                        Some((decode_utf8(b), k + n))
                    } else {
                        None
                    }
                } else {
                    None
                }
            },
            None => None,
        }
    }

    fn read(r: &mut Reader) -> (res: Result<Self, MooshroomError>)
        ensures
            res matches Err(e) ==> match varint_dec(old(r).remaining()) {
                Some((n, k)) => {
                    if n < 0 {
                        e is IoError
                    } else if k + n > old(r).remaining().len() {
                        e is IoError
                    } else {
                        &&& !valid_utf8(old(r).remaining().subrange(k, k + n))
                        &&& e is InvalidString
                    }
                },
                None => {
                    &&& crate::varint::varint_incomplete(old(r).remaining(), 5) ==> e is IoError
                    &&& !crate::varint::varint_incomplete(old(r).remaining(), 5)
                        ==> e is VarIntTooLong
                },
            },
    {
        let ghost s0 = old(r).remaining();
        let n = match read_varint(r) {
            Ok(v) => v,
            Err(e) => {
                return Err(e);
            },
        };
        let ghost k = r.pos() - old(r).pos();
        if n.0 < 0 {
            return Err(MooshroomError::IoError);
        }
        proof {
            assert(r.remaining() =~= s0.skip(k));
        }
        let bytes = match r.read_exact(n.0 as usize) {
            Ok(b) => b,
            Err(e) => {
                return Err(e);
            },
        };
        proof {
            assert(bytes@ =~= s0.subrange(k, k + n.0));
        }
        match string_from_utf8(bytes) {
            Some(st) => Ok(st),
            None => Err(MooshroomError::InvalidString),
        }
    }
}

impl MooshroomRoundTrip for String {
    open spec fn wire_bounded(&self) -> bool {
        encode_utf8(self@).len() <= 0x7fff_ffff
    }

    proof fn lemma_round_trip(&self, rest: Seq<u8>) {
        let b = encode_utf8(self@);
        let n = b.len() as int;
        let venc = varint_enc(u32_as_i32(b.len()));
        assert(u32_as_i32(b.len()) == n);
        lemma_varint_round_trip(n as i32, b + rest);
        let s = self.enc() + rest;
        assert(s =~= venc + (b + rest));
        let k = venc.len() as int;
        assert(s.subrange(k, k + n) =~= b);
    }
}

/// The back-to-back encodings of a run of elements, in order.
pub open spec fn enc_elems<T: MooshroomWritable>(s: Seq<T>) -> Seq<u8>
    decreases s.len(),
{
    if s.len() == 0 {
        Seq::empty()
    } else {
        s[0].enc() + enc_elems(s.drop_first())
    }
}

/// Decode exactly `n` elements from the front of `s`.
pub open spec fn dec_elems<T: MooshroomReadable>(s: Seq<u8>, n: int) -> Option<(Seq<T::V>, int)>
    decreases n,
{
    if n <= 0 {
        Some((Seq::empty(), 0))
    } else {
        match T::dec(s) {
            Some((v, k)) => match dec_elems::<T>(s.skip(k), n - 1) {
                Some((vs, m)) => Some((seq![v] + vs, k + m)),
                None => None,
            },
            None => None,
        }
    }
}

proof fn lemma_enc_elems_take_succ<T: MooshroomWritable>(s: Seq<T>, i: int)
    requires
        0 <= i < s.len(),
    ensures
        enc_elems(s.take(i + 1)) == enc_elems(s.take(i)) + s[i].enc(),
    decreases i,
{
    if i == 0 {
        assert(s.take(1) =~= seq![s[0]]);
        assert(s.take(0) =~= Seq::<T>::empty());
        assert(seq![s[0]].drop_first() =~= Seq::<T>::empty());
        assert(s[0].enc() + enc_elems(Seq::<T>::empty()) =~= s[0].enc());
        assert(enc_elems(s.take(0)) + s[0].enc() =~= s[0].enc());
    } else {
        let t = s.drop_first();
        lemma_enc_elems_take_succ(t, i - 1);
        assert(s.take(i + 1).drop_first() =~= t.take(i));
        assert(s.take(i).drop_first() =~= t.take(i - 1));
        assert(s.take(i + 1)[0] == s[0]);
        assert(s.take(i)[0] == s[0]);
        assert(t[i - 1] == s[i]);
        assert(s[0].enc() + (enc_elems(t.take(i - 1)) + t[i - 1].enc()) =~= (s[0].enc()
            + enc_elems(t.take(i - 1))) + s[i].enc());
    }
}

impl<T: MooshroomWritable> MooshroomWritable for Vec<T> {
    /// A `VarInt` element count, then each element back to back.
    open spec fn enc(&self) -> Seq<u8> {
        varint_enc(u32_as_i32(self@.len())) + enc_elems(self@)
    }

    #[verifier::loop_isolation(false)]
    fn write(&self, w: &mut Vec<u8>) {
        let n = length_as_i32(self.len());
        write_varint(VarInt(n), w);
        let ghost base = w@;
        let mut i: usize = 0;
        while i < self.len()
            invariant
                i <= self@.len(),
                base == old(w)@ + varint_enc(u32_as_i32(self@.len())),
                w@ == base + enc_elems(self@.take(i as int)),
            decreases self@.len() - i,
        {
            proof {
                lemma_enc_elems_take_succ(self@, i as int);
            }
            let ghost before = w@;
            self[i].write(w);
            proof {
                assert(base + (enc_elems(self@.take(i as int)) + self@[i as int].enc()) =~= (base
                    + enc_elems(self@.take(i as int))) + self@[i as int].enc());
            }
            i = i + 1;
        }
        proof {
            assert(self@.take(self@.len() as int) =~= self@);
            assert(w@ =~= old(w)@ + self.enc());
        }
    }
}

impl<T: MooshroomReadable> MooshroomReadable for Vec<T> {
    open spec fn dec(s: Seq<u8>) -> Option<(Seq<T::V>, int)> {
        match varint_dec(s) {
            Some((n, k)) => {
                if n < 0 {
                    None
                } else {
                    match dec_elems::<T>(s.skip(k), n as int) {
                        Some((vs, m)) => Some((vs, k + m)),
                        None => None,
                    }
                }
            },
            None => None,
        }
    }

    fn read(r: &mut Reader) -> (res: Result<Self, MooshroomError>) {
        let ghost s0 = old(r).remaining();
        let nv = match read_varint(r) {
            Ok(v) => v,
            Err(e) => {
                return Err(e);
            },
        };
        if nv.0 < 0 {
            proof {
                assert(varint_dec(s0) matches Some(p) && p.0 < 0);
                assert(Self::dec(s0) is None);
            }
            return Err(MooshroomError::IoError);
        }
        proof {
            assert(r.remaining() =~= s0.skip(r.pos() - old(r).pos()));
        }
        match read_elems::<T>(r, nv.0 as u64) {
            Ok(out) => Ok(out),
            Err(e) => Err(e),
        }
    }
}

/// Read exactly `n` consecutive elements.
#[verifier::loop_isolation(false)]
pub fn read_elems<T: MooshroomReadable>(r: &mut Reader, n: u64) -> (res: Result<
    Vec<T>,
    MooshroomError,
>)
    requires
        old(r).wf(),
    ensures
        final(r).wf(),
        final(r).data() == old(r).data(),
        final(r).pos() >= old(r).pos(),
        match res {
            Ok(out) => dec_elems::<T>(old(r).remaining(), n as int) == Some(
                (out.deep_view(), final(r).pos() - old(r).pos()),
            ),
            Err(_) => dec_elems::<T>(old(r).remaining(), n as int) is None,
        },
{
    let ghost p1 = r.pos();
    let ghost s1 = r.remaining();
    let mut out: Vec<T> = Vec::new();
    proof {
        assert(out.deep_view() =~= Seq::<T::V>::empty());
        if let Some((vs, m)) = dec_elems::<T>(s1, n as int) {
            assert(out.deep_view() + vs =~= vs);
        }
    }
    let mut i: u64 = 0;
    while i < n
        invariant
            r.wf(),
            r.data() == old(r).data(),
            i <= n,
            old(r).pos() <= p1 <= r.pos() <= r.data().len(),
            s1 == r.data().skip(p1),
            match dec_elems::<T>(r.remaining(), n - i) {
                Some((vs, m)) => dec_elems::<T>(s1, n as int) == Some(
                    (out.deep_view() + vs, (r.pos() - p1) + m),
                ),
                None => dec_elems::<T>(s1, n as int) is None,
            },
        decreases n - i,
    {
        let ghost si = r.remaining();
        let v = match T::read(r) {
            Ok(v) => v,
            Err(e) => {
                proof {
                    assert(dec_elems::<T>(si, n - i) is None);
                    assert(dec_elems::<T>(s1, n as int) is None);
                }
                return Err(e);
            },
        };
        proof {
            let k2 = T::dec(si).unwrap().1;
            assert(r.remaining() =~= si.skip(k2));
            let vdv = v.deep_view();
            if let Some((vs2, m2)) = dec_elems::<T>(r.remaining(), n - i - 1) {
                assert(dec_elems::<T>(si, n - i) == Some((seq![vdv] + vs2, k2 + m2)));
            }
        }
        let ghost out_old = out.deep_view();
        out.push(v);
        proof {
            assert(out.deep_view() =~= out_old.push(v.deep_view()));
            if let Some((vs2, m2)) = dec_elems::<T>(r.remaining(), n - i - 1) {
                assert(out_old + (seq![v.deep_view()] + vs2) =~= out.deep_view() + vs2);
            }
        }
        i = i + 1;
    }
    proof {
        assert(dec_elems::<T>(r.remaining(), 0) == Some((Seq::<T::V>::empty(), 0int)));
        let (vs, m) = dec_elems::<T>(s1, n as int).unwrap();
        assert(out.deep_view() + Seq::<T::V>::empty() =~= out.deep_view());
    }
    Ok(out)
}

impl<T: MooshroomRoundTrip> MooshroomRoundTrip for Vec<T> {
    open spec fn wire_bounded(&self) -> bool {
        &&& self@.len() <= 0x7fff_ffff
        &&& forall|i: int| 0 <= i < self@.len() ==> #[trigger] self@[i].wire_bounded()
    }

    proof fn lemma_round_trip(&self, rest: Seq<u8>) {
        let n = self@.len() as int;
        let venc = varint_enc(u32_as_i32(self@.len()));
        assert(u32_as_i32(self@.len()) == n);
        lemma_varint_round_trip(n as i32, enc_elems(self@) + rest);
        let s = self.enc() + rest;
        assert(s =~= venc + (enc_elems(self@) + rest));
        let k = venc.len() as int;
        assert(s.skip(k) =~= enc_elems(self@) + rest);
        lemma_elems_round_trip(self@, rest);
        assert(Seq::new(self@.len(), |i: int| self@[i].deep_view()) =~= self.deep_view());
    }
}

proof fn lemma_elems_round_trip<T: MooshroomRoundTrip>(s: Seq<T>, rest: Seq<u8>)
    requires
        forall|i: int| 0 <= i < s.len() ==> #[trigger] s[i].wire_bounded(),
    ensures
        dec_elems::<T>(enc_elems(s) + rest, s.len() as int) == Some(
            (Seq::new(s.len(), |i: int| s[i].deep_view()), enc_elems(s).len() as int),
        ),
    decreases s.len(),
{
    if s.len() == 0 {
        assert(Seq::new(0, |i: int| s[i].deep_view()) =~= Seq::<T::V>::empty());
        assert(enc_elems(s) + rest =~= rest);
    } else {
        let t = s.drop_first();
        let e0 = s[0].enc();
        let et = enc_elems(t);
        let big = enc_elems(s) + rest;
        assert(big =~= e0 + (et + rest));
        s[0].lemma_round_trip(et + rest);
        assert(big.skip(e0.len() as int) =~= et + rest);
        assert(forall|i: int| 0 <= i < t.len() ==> #[trigger] t[i].wire_bounded() == s[i + 1].wire_bounded());
        lemma_elems_round_trip(t, rest);
        assert(seq![s[0].deep_view()] + Seq::new(t.len(), |i: int| t[i].deep_view()) =~= Seq::new(
            s.len(),
            |i: int| s[i].deep_view(),
        ));
    }
}

impl<T: MooshroomWritable> MooshroomWritable for Option<T> {
    /// One tag byte, then the value when the tag is 1.
    open spec fn enc(&self) -> Seq<u8> {
        match self {
            Some(t) => seq![1u8] + t.enc(),
            None => seq![0u8],
        }
    }

    fn write(&self, w: &mut Vec<u8>) {
        match self {
            Some(t) => {
                w.push(1u8);
                let ghost mid = w@;
                t.write(w);
                proof {
                    assert(w@ =~= old(w)@ + self.enc());
                }
            },
            None => {
                w.push(0u8);
                proof {
                    assert(w@ =~= old(w)@ + self.enc());
                }
            },
        }
    }
}

impl<T: MooshroomReadable> MooshroomReadable for Option<T> {
    open spec fn dec(s: Seq<u8>) -> Option<(Option<T::V>, int)> {
        if s.len() == 0 {
            None
        } else if s[0] == 0 {
            Some((None, 1))
        } else {
            match T::dec(s.skip(1)) {
                Some((v, k)) => Some((Some(v), k + 1)),
                None => None,
            }
        }
    }

    fn read(r: &mut Reader) -> (res: Result<Self, MooshroomError>) {
        let ghost s0 = old(r).remaining();
        let tag = match r.read_u8() {
            Ok(b) => b,
            Err(e) => {
                return Err(e);
            },
        };
        if tag == 0 {
            Ok(None)
        } else {
            proof {
                assert(r.remaining() =~= s0.skip(1));
            }
            match T::read(r) {
                Ok(v) => Ok(Some(v)),
                Err(e) => Err(e),
            }
        }
    }
}

impl<T: MooshroomRoundTrip> MooshroomRoundTrip for Option<T> {
    open spec fn wire_bounded(&self) -> bool {
        match self {
            Some(t) => t.wire_bounded(),
            None => true,
        }
    }

    proof fn lemma_round_trip(&self, rest: Seq<u8>) {
        match self {
            Some(t) => {
                let s = self.enc() + rest;
                assert(s =~= seq![1u8] + (t.enc() + rest));
                assert(s[0] == 1u8);
                assert(s.skip(1) =~= t.enc() + rest);
                t.lemma_round_trip(rest);
            },
            None => {
                assert((self.enc() + rest)[0] == 0u8);
            },
        }
    }
}

/// A triple of coordinates written in x, y, z order.
#[derive(Copy, Clone, Debug, Default, PartialEq, Eq)]
pub struct Vec3<T> {
    pub x: T,
    pub y: T,
    pub z: T,
}

impl<T: DeepView> DeepView for Vec3<T> {
    type V = Vec3<T::V>;

    open spec fn deep_view(&self) -> Vec3<T::V> {
        Vec3 { x: self.x.deep_view(), y: self.y.deep_view(), z: self.z.deep_view() }
    }
}

impl<T: MooshroomWritable> MooshroomWritable for Vec3<T> {
    open spec fn enc(&self) -> Seq<u8> {
        self.x.enc() + self.y.enc() + self.z.enc()
    }

    fn write(&self, w: &mut Vec<u8>) {
        self.x.write(w);
        self.y.write(w);
        self.z.write(w);
        proof {
            assert(w@ =~= old(w)@ + self.enc());
        }
    }
}

impl<T: MooshroomReadable> MooshroomReadable for Vec3<T> {
    open spec fn dec(s: Seq<u8>) -> Option<(Vec3<T::V>, int)> {
        match T::dec(s) {
            Some((x, n1)) => match T::dec(s.skip(n1)) {
                Some((y, n2)) => match T::dec(s.skip(n1).skip(n2)) {
                    Some((z, n3)) => Some((Vec3 { x, y, z }, n1 + n2 + n3)),
                    None => None,
                },
                None => None,
            },
            None => None,
        }
    }

    fn read(r: &mut Reader) -> (res: Result<Self, MooshroomError>) {
        let ghost s0 = old(r).remaining();
        let ghost p0 = old(r).pos();
        let x = match T::read(r) {
            Ok(v) => v,
            Err(e) => {
                return Err(e);
            },
        };
        proof {
            assert(r.remaining() =~= s0.skip(r.pos() - p0));
        }
        let ghost p1 = r.pos();
        let y = match T::read(r) {
            Ok(v) => v,
            Err(e) => {
                return Err(e);
            },
        };
        proof {
            assert(r.remaining() =~= s0.skip(p1 - p0).skip(r.pos() - p1));
        }
        let z = match T::read(r) {
            Ok(v) => v,
            Err(e) => {
                return Err(e);
            },
        };
        Ok(Vec3 { x, y, z })
    }
}

impl<T: MooshroomRoundTrip> MooshroomRoundTrip for Vec3<T> {
    open spec fn wire_bounded(&self) -> bool {
        self.x.wire_bounded() && self.y.wire_bounded() && self.z.wire_bounded()
    }

    proof fn lemma_round_trip(&self, rest: Seq<u8>) {
        let ex = self.x.enc();
        let ey = self.y.enc();
        let ez = self.z.enc();
        let t2 = ez + rest;
        let t1 = ey + t2;
        let s = self.enc() + rest;
        assert(s =~= ex + t1);
        self.x.lemma_round_trip(t1);
        assert(s.skip(ex.len() as int) =~= t1);
        self.y.lemma_round_trip(t2);
        assert(t1.skip(ey.len() as int) =~= t2);
        self.z.lemma_round_trip(rest);
        assert(t2.skip(ez.len() as int) =~= rest);
    }
}

/// A block position packed into one 64-bit field: X in bits 63..38, Z in
/// bits 37..12, Y in bits 11..0, each two's complement at its width.
#[derive(Copy, Clone, Debug, Default, PartialEq, Eq, Structural)]
pub struct Position {
    pub x: i32,
    pub z: i32,
    pub y: i16,
}

/// The packed 64-bit value carrying the three masked coordinates.
pub open spec fn pos_packed(x: int, z: int, y: int) -> nat {
    ((x % 0x400_0000) * 0x40_0000_0000 + (z % 0x400_0000) * 0x1000 + (y % 0x1000)) as nat
}

impl DeepView for Position {
    type V = Position;

    open spec fn deep_view(&self) -> Position {
        *self
    }
}

impl MooshroomWritable for Position {
    open spec fn enc(&self) -> Seq<u8> {
        be_enc(pos_packed(self.x as int, self.z as int, self.y as int), 8)
    }

    fn write(&self, w: &mut Vec<u8>) {
        let ux: u32 = if self.x >= 0 {
            self.x as u32
        } else {
            ((self.x as i64) + 0x1_0000_0000) as u32
        };
        let uz: u32 = if self.z >= 0 {
            self.z as u32
        } else {
            ((self.z as i64) + 0x1_0000_0000) as u32
        };
        let uy: u16 = if self.y >= 0 {
            self.y as u16
        } else {
            ((self.y as i32) + 0x1_0000) as u16
        };
        let mx = (ux % 0x400_0000) as u64;
        let mz = (uz % 0x400_0000) as u64;
        let my = (uy % 0x1000) as u64;
        proof {
            assert(0x1_0000_0000int == 0x400_0000int * 0x40);
            assert(0x1_0000int == 0x1000int * 0x10);
            lemma_mod_mod(self.x as int, 0x400_0000, 0x40);
            lemma_mod_mod(self.z as int, 0x400_0000, 0x40);
            lemma_mod_mod(self.y as int, 0x1000, 0x10);
            assert(ux as int == self.x as int % 0x1_0000_0000int);
            assert(uz as int == self.z as int % 0x1_0000_0000int);
            assert(uy as int == self.y as int % 0x1_0000int);
        }
        let packed: u64 = mx * 0x40_0000_0000 + mz * 0x1000 + my;
        proof {
            assert(packed as nat == pos_packed(self.x as int, self.z as int, self.y as int));
        }
        write_be(packed as u128, 8, w);
    }
}

impl MooshroomReadable for Position {
    open spec fn dec(s: Seq<u8>) -> Option<(Position, int)> {
        if s.len() >= 8 {
            let v = be_dec(s, 8);
            Some(
                (
                    Position {
                        x: un_to_sig((v / 0x40_0000_0000) % 0x400_0000, 0x200_0000, 0x400_0000)
                            as i32,
                        z: un_to_sig((v / 0x1000) % 0x400_0000, 0x200_0000, 0x400_0000) as i32,
                        y: un_to_sig(v % 0x1000, 0x800, 0x1000) as i16,
                    },
                    8,
                ),
            )
        } else {
            None
        }
    }

    fn read(r: &mut Reader) -> (res: Result<Self, MooshroomError>) {
        let v128 = match read_be(r, 8) {
            Ok(v) => v,
            Err(e) => {
                return Err(e);
            },
        };
        proof {
            lemma_be_dec_bound(old(r).remaining(), 8);
            lemma_pow256_values();
        }
        let v = v128 as u64;
        let hx = ((v / 0x40_0000_0000) % 0x400_0000) as u32;
        let hz = ((v / 0x1000) % 0x400_0000) as u32;
        let hy = (v % 0x1000) as u16;
        let x: i32 = if hx >= 0x200_0000 {
            ((hx as i64) - 0x400_0000) as i32
        } else {
            hx as i32
        };
        let z: i32 = if hz >= 0x200_0000 {
            ((hz as i64) - 0x400_0000) as i32
        } else {
            hz as i32
        };
        let y: i16 = if hy >= 0x800 {
            ((hy as i32) - 0x1000) as i16
        } else {
            hy as i16
        };
        Ok(Position { x, z, y })
    }
}

impl MooshroomRoundTrip for Position {
    /// Faithful only inside the packed field widths: 26 bits for X and Z,
    /// 12 bits for Y.
    open spec fn wire_bounded(&self) -> bool {
        &&& -0x200_0000 <= self.x < 0x200_0000
        &&& -0x200_0000 <= self.z < 0x200_0000
        &&& -0x800 <= self.y < 0x800
    }

    proof fn lemma_round_trip(&self, rest: Seq<u8>) {
        let x = self.x as int;
        let z = self.z as int;
        let y = self.y as int;
        let mx = x % 0x400_0000;
        let mz = z % 0x400_0000;
        let my = y % 0x1000;
        let px = pos_packed(x, z, y);
        lemma_be_enc_len(px, 8);
        lemma_be_round_trip(px, 8, rest);
        lemma_pow256_values();
        assert(be_dec(self.enc() + rest, 8) == px);
        vstd::arithmetic::div_mod::lemma_fundamental_div_mod_converse(
            px as int,
            0x40_0000_0000,
            mx,
            mz * 0x1000 + my,
        );
        vstd::arithmetic::div_mod::lemma_fundamental_div_mod_converse(
            px as int,
            0x1000,
            mx * 0x400_0000 + mz,
            my,
        );
        vstd::arithmetic::div_mod::lemma_mod_multiples_vanish(mx, mz, 0x400_0000);
        assert((px as int / 0x1000) % 0x400_0000 == mz);
        assert((px as int / 0x40_0000_0000) % 0x400_0000 == mx);
        assert(un_to_sig(mx as nat, 0x200_0000, 0x400_0000) == x);
        assert(un_to_sig(mz as nat, 0x200_0000, 0x400_0000) == z);
        assert(un_to_sig(my as nat, 0x800, 0x1000) == y);
    }
}

/// A 128-bit universally unique identifier, carried as sixteen big-endian
/// bytes.
#[derive(Copy, Clone, Debug, Default, PartialEq, Eq, Structural)]
pub struct Uuid(pub u128);

impl Uuid {
    pub fn new(v: u128) -> (r: Uuid)
        ensures
            r.0 == v,
    {
        Uuid(v)
    }

    pub fn as_u128(&self) -> (r: u128)
        ensures
            r == self.0,
    {
        self.0
    }
}

impl DeepView for Uuid {
    type V = Uuid;

    open spec fn deep_view(&self) -> Uuid {
        *self
    }
}

impl MooshroomWritable for Uuid {
    open spec fn enc(&self) -> Seq<u8> {
        be_enc(self.0 as nat, 16)
    }

    fn write(&self, w: &mut Vec<u8>) {
        write_be(self.0, 16, w);
    }
}

impl MooshroomReadable for Uuid {
    open spec fn dec(s: Seq<u8>) -> Option<(Uuid, int)> {
        if s.len() >= 16 {
            Some((Uuid(be_dec(s, 16) as u128), 16))
        } else {
            None
        }
    }

    fn read(r: &mut Reader) -> (res: Result<Self, MooshroomError>)
        ensures
            res matches Err(e) ==> e is IoError,
    {
        match read_be(r, 16) {
            Ok(v) => {
                proof {
                    lemma_be_dec_bound(old(r).remaining(), 16);
                    lemma_pow256_values();
                }
                Ok(Uuid(v))
            },
            Err(e) => Err(e),
        }
    }
}

impl MooshroomRoundTrip for Uuid {
    open spec fn wire_bounded(&self) -> bool {
        true
    }

    proof fn lemma_round_trip(&self, rest: Seq<u8>) {
        lemma_be_enc_len(self.0 as nat, 16);
        lemma_be_round_trip(self.0 as nat, 16, rest);
        lemma_pow256_values();
    }
}

/// The raw bits of a 32-bit floating-point field; the wire carries them as
/// four big-endian bytes, and consumers reinterpret them outside the codec.
#[derive(Copy, Clone, Debug, Default, PartialEq, Eq, Structural)]
pub struct F32Bits(pub u32);

/// The raw bits of a 64-bit floating-point field, eight big-endian bytes on
/// the wire.
#[derive(Copy, Clone, Debug, Default, PartialEq, Eq, Structural)]
pub struct F64Bits(pub u64);

impl DeepView for F32Bits {
    type V = F32Bits;

    open spec fn deep_view(&self) -> F32Bits {
        *self
    }
}

impl DeepView for F64Bits {
    type V = F64Bits;

    open spec fn deep_view(&self) -> F64Bits {
        *self
    }
}

impl MooshroomWritable for F32Bits {
    open spec fn enc(&self) -> Seq<u8> {
        be_enc(self.0 as nat, 4)
    }

    fn write(&self, w: &mut Vec<u8>) {
        write_be(self.0 as u128, 4, w);
    }
}

impl MooshroomReadable for F32Bits {
    open spec fn dec(s: Seq<u8>) -> Option<(F32Bits, int)> {
        if s.len() >= 4 {
            Some((F32Bits(be_dec(s, 4) as u32), 4))
        } else {
            None
        }
    }

    fn read(r: &mut Reader) -> (res: Result<Self, MooshroomError>)
        ensures
            res matches Err(e) ==> e is IoError,
    {
        match read_be(r, 4) {
            Ok(v) => {
                proof {
                    lemma_be_dec_bound(old(r).remaining(), 4);
                    lemma_pow256_values();
                    assert(be_dec(old(r).remaining(), 4) < 0x1_0000_0000);
                    assert(Self::dec(old(r).remaining()) == Some((F32Bits((v as u32)), 4int)));
                }
                Ok(F32Bits(v as u32))
            },
            Err(e) => Err(e),
        }
    }
}

impl MooshroomRoundTrip for F32Bits {
    open spec fn wire_bounded(&self) -> bool {
        true
    }

    proof fn lemma_round_trip(&self, rest: Seq<u8>) {
        lemma_be_enc_len(self.0 as nat, 4);
        lemma_be_round_trip(self.0 as nat, 4, rest);
        lemma_pow256_values();
    }
}

impl MooshroomWritable for F64Bits {
    open spec fn enc(&self) -> Seq<u8> {
        be_enc(self.0 as nat, 8)
    }

    fn write(&self, w: &mut Vec<u8>) {
        write_be(self.0 as u128, 8, w);
    }
}

impl MooshroomReadable for F64Bits {
    open spec fn dec(s: Seq<u8>) -> Option<(F64Bits, int)> {
        if s.len() >= 8 {
            Some((F64Bits(be_dec(s, 8) as u64), 8))
        } else {
            None
        }
    }

    fn read(r: &mut Reader) -> (res: Result<Self, MooshroomError>)
        ensures
            res matches Err(e) ==> e is IoError,
    {
        match read_be(r, 8) {
            Ok(v) => {
                proof {
                    lemma_be_dec_bound(old(r).remaining(), 8);
                    lemma_pow256_values();
                    assert(be_dec(old(r).remaining(), 8) < 0x1_0000_0000_0000_0000);
                    assert(Self::dec(old(r).remaining()) == Some((F64Bits((v as u64)), 8int)));
                }
                Ok(F64Bits(v as u64))
            },
            Err(e) => Err(e),
        }
    }
}

impl MooshroomRoundTrip for F64Bits {
    open spec fn wire_bounded(&self) -> bool {
        true
    }

    proof fn lemma_round_trip(&self, rest: Seq<u8>) {
        lemma_be_enc_len(self.0 as nat, 8);
        lemma_be_round_trip(self.0 as nat, 8, rest);
        lemma_pow256_values();
    }
}

/// Whether two strings spell the same character sequence, decided by
/// comparing their UTF-8 bytes.
pub fn str_eq(a: &str, b: &str) -> (r: bool)
    ensures
        r == (a@ == b@),
{
    let ab = a.as_bytes();
    let bb = b.as_bytes();
    if ab.len() != bb.len() {
        return false;
    }
    let mut i: usize = 0;
    while i < ab.len()
        invariant
            ab@ == encode_utf8(a@),
            bb@ == encode_utf8(b@),
            ab@.len() == bb@.len(),
            i <= ab@.len(),
            forall|j: int| 0 <= j < i ==> ab@[j] == bb@[j],
        decreases ab@.len() - i,
    {
        if ab[i] != bb[i] {
            return false;
        }
        i = i + 1;
    }
    proof {
        assert(ab@ =~= bb@);
        assert(decode_utf8(encode_utf8(a@)) == a@);
        assert(decode_utf8(encode_utf8(b@)) == b@);
    }
    true
}

} // verus!
