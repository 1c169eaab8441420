use vstd::prelude::*;

#[allow(unused_imports)]
use crate::error::MooshroomError;
#[allow(unused_imports)]
use crate::io::{MooshroomReadable, MooshroomWritable};
#[allow(unused_imports)]
use crate::primitives::{be_dec, be_enc, lemma_be_dec_bound, lemma_pow256_values, F32Bits, F64Bits};
#[allow(unused_imports)]
use crate::reader::Reader;

verus! {

/// A Named Binary Tag payload: the recursive tree format embedded in
/// packets.  Floating-point leaves carry their raw bits.
#[derive(Debug, Default, PartialEq)]
pub enum NptTagData {
    #[default]
    End,
    Byte(i8),
    Short(i16),
    Int(i32),
    Long(i64),
    Float(F32Bits),
    Double(F64Bits),
    ByteArray(Vec<u8>),
    Str(String),
    List(Vec<NptTagData>),
    Compount(Vec<NptNamedTag>),
    IntArray(Vec<i32>),
    LongArray(Vec<i64>),
}

/// A tag together with the name it carries inside a compound.
#[derive(Debug, Default, PartialEq)]
pub struct NptNamedTag(pub String, pub NptTagData);

/// A top-of-packet compound: one named tag, kept together with the exact
/// wire bytes it was decoded from.
///
/// The byte run is the compound's wire identity; the decoded tree is for
/// consumers and is not re-encoded, the writer being a documented gap.
#[derive(Debug, Default, PartialEq)]
pub struct NptCompound {
    pub tag: NptNamedTag,
    pub raw: Vec<u8>,
}

/// What `cesu8::from_cesu8` decodes a byte run to, when it is well-formed
/// CESU-8.
pub uninterp spec fn cesu8_decode(s: Seq<u8>) -> Option<Seq<char>>;

/// Relies on `cesu8::from_cesu8`: decodes CESU-8 bytes, failing exactly on
/// malformed input; the result depends on the bytes alone.
#[verifier::external_body]
fn cesu8_to_string(b: Vec<u8>) -> (res: Option<String>)
    ensures
        match res {
            Some(st) => cesu8_decode(b@) == Some(st@),
            None => cesu8_decode(b@) is None,
        },
{
    match cesu8::from_cesu8(&b) {
        Ok(c) => Some(c.into_owned()),
        Err(_) => None,
    }
}

/// The byte length of a name: a big-endian 16-bit count followed by that
/// many bytes of well-formed CESU-8; `None` if truncated or malformed.
pub open spec fn nbt_name_len(s: Seq<u8>) -> Option<int> {
    if s.len() >= 2 {
        let n = be_dec(s, 2) as int;
        if 2 + n <= s.len() && cesu8_decode(s.subrange(2, 2 + n)) is Some {
            Some(2 + n)
        } else {
            None
        }
    } else {
        None
    }
}

/// The byte length of the payload of a tag of type `ty` at the front of
/// `s`; `None` when the input is truncated, malformed, or the tag unknown.
pub open spec fn nbt_payload_len(ty: u8, s: Seq<u8>) -> Option<int>
    decreases s.len(), 1int, 0int,
{
    if ty == 0 {
        Some(0)
    } else if ty == 1 {
        if s.len() >= 1 {
            Some(1)
        } else {
            None
        }
    } else if ty == 2 {
        if s.len() >= 2 {
            Some(2)
        } else {
            None
        }
    } else if ty == 3 || ty == 5 {
        if s.len() >= 4 {
            Some(4)
        } else {
            None
        }
    } else if ty == 4 || ty == 6 {
        if s.len() >= 8 {
            Some(8)
        } else {
            None
        }
    } else if ty == 7 {
        if s.len() >= 4 {
            let n = crate::primitives::un_to_sig(be_dec(s, 4), 0x8000_0000, 0x1_0000_0000);
            if n >= 0 && 4 + n <= s.len() {
                Some(4 + n)
            } else {
                None
            }
        } else {
            None
        }
    } else if ty == 8 {
        match nbt_name_len(s) {
            Some(n) => Some(n),
            None => None,
        }
    } else if ty == 9 {
        if s.len() >= 5 {
            let et = s[0];
            let n = crate::primitives::un_to_sig(be_dec(s.skip(1), 4), 0x8000_0000, 0x1_0000_0000);
            if n >= 0 {
                match nbt_list_len(et, n, s.skip(5)) {
                    Some(m) => Some(5 + m),
                    None => None,
                }
            } else {
                None
            }
        } else {
            None
        }
    } else if ty == 10 {
        nbt_compound_len(s)
    } else if ty == 11 {
        if s.len() >= 4 {
            let n = crate::primitives::un_to_sig(be_dec(s, 4), 0x8000_0000, 0x1_0000_0000);
            if n >= 0 && 4 + 4 * n <= s.len() {
                Some(4 + 4 * n)
            } else {
                None
            }
        } else {
            None
        }
    } else if ty == 12 {
        if s.len() >= 4 {
            let n = crate::primitives::un_to_sig(be_dec(s, 4), 0x8000_0000, 0x1_0000_0000);
            if n >= 0 && 4 + 8 * n <= s.len() {
                Some(4 + 8 * n)
            } else {
                None
            }
        } else {
            None
        }
    } else {
        None
    }
}

/// The byte length of `n` consecutive payloads of type `ty`.
pub open spec fn nbt_list_len(ty: u8, n: int, s: Seq<u8>) -> Option<int>
    decreases s.len(), 2int, n,
{
    if n <= 0 {
        Some(0)
    } else {
        match nbt_payload_len(ty, s) {
            Some(k) => {
                if 0 <= k <= s.len() {
                    match nbt_list_len(ty, n - 1, s.skip(k)) {
                        Some(m) => Some(k + m),
                        None => None,
                    }
                } else {
                    None
                }
            },
            None => None,
        }
    }
}

/// The byte length of a compound body: named children up to and including
/// the terminating end tag.
pub open spec fn nbt_compound_len(s: Seq<u8>) -> Option<int>
    decreases s.len(), 0int, 0int,
{
    if s.len() == 0 {
        None
    } else if s[0] == 0 {
        Some(1)
    } else {
        match nbt_name_len(s.skip(1)) {
            Some(nl) => match nbt_payload_len(s[0], s.skip(1 + nl)) {
                Some(pl) => {
                    if 0 <= pl && 1 + nl + pl <= s.len() {
                        match nbt_compound_len(s.skip(1 + nl + pl)) {
                            Some(cl) => Some(1 + nl + pl + cl),
                            None => None,
                        }
                    } else {
                        None
                    }
                },
                None => None,
            },
            None => None,
        }
    }
}

/// The byte length of one named tag: the form a top-of-packet compound
/// takes.  A bare end tag stands for an empty, nameless compound.
pub open spec fn nbt_named_len(s: Seq<u8>) -> Option<int> {
    if s.len() == 0 {
        None
    } else if s[0] == 0 {
        Some(1)
    } else {
        match nbt_name_len(s.skip(1)) {
            Some(nl) => match nbt_payload_len(s[0], s.skip(1 + nl)) {
                Some(pl) => {
                    if 0 <= pl && 1 + nl + pl <= s.len() {
                        Some(1 + nl + pl)
                    } else {
                        None
                    }
                },
                None => None,
            },
            None => None,
        }
    }
}

/// The mathematical NBT tree a payload decodes to.  Floating-point leaves
/// carry their raw bits.
pub enum NbtValue {
    End,
    Byte(i8),
    Short(i16),
    Int(i32),
    Long(i64),
    Float(u32),
    Double(u64),
    ByteArray(Seq<u8>),
    Str(Seq<char>),
    List(Seq<NbtValue>),
    Compound(Seq<(Seq<char>, NbtValue)>),
    IntArray(Seq<i32>),
    LongArray(Seq<i64>),
}

/// The outcome of decoding an NBT construct: its value, or the class of
/// error the reader surfaces -- an exhausted or overrun input (`Io`), or an
/// invalid tag (`Bad(8)` also stands for malformed CESU-8).
pub enum NbtParsed<V> {
    Val(V),
    Io,
    Bad(u8),
}

/// The tree an executable tag stands for.
pub open spec fn view_tag(t: NptTagData) -> NbtValue
    decreases t,
{
    match t {
        NptTagData::End => NbtValue::End,
        NptTagData::Byte(v) => NbtValue::Byte(v),
        NptTagData::Short(v) => NbtValue::Short(v),
        NptTagData::Int(v) => NbtValue::Int(v),
        NptTagData::Long(v) => NbtValue::Long(v),
        NptTagData::Float(v) => NbtValue::Float(v.0),
        NptTagData::Double(v) => NbtValue::Double(v.0),
        NptTagData::ByteArray(v) => NbtValue::ByteArray(v@),
        NptTagData::Str(s) => NbtValue::Str(s@),
        NptTagData::List(items) => NbtValue::List(view_tags(items@)),
        NptTagData::Compount(items) => NbtValue::Compound(view_named_tags(items@)),
        NptTagData::IntArray(v) => NbtValue::IntArray(v@),
        NptTagData::LongArray(v) => NbtValue::LongArray(v@),
    }
}

/// The trees a run of executable tags stands for, in order.
pub open spec fn view_tags(s: Seq<NptTagData>) -> Seq<NbtValue>
    decreases s,
{
    if s.len() == 0 {
        Seq::empty()
    } else {
        seq![view_tag(s[0])] + view_tags(s.subrange(1, s.len() as int))
    }
}

/// The named trees a run of executable named tags stands for, in order.
pub open spec fn view_named_tags(s: Seq<NptNamedTag>) -> Seq<(Seq<char>, NbtValue)>
    decreases s,
{
    if s.len() == 0 {
        Seq::empty()
    } else {
        seq![(s[0].0@, view_tag(s[0].1))] + view_named_tags(s.subrange(1, s.len() as int))
    }
}

pub proof fn lemma_view_tags_push(s: Seq<NptTagData>, t: NptTagData)
    ensures
        view_tags(s.push(t)) == view_tags(s) + seq![view_tag(t)],
    decreases s.len(),
{
    let pt = s.push(t);
    if s.len() == 0 {
        assert(pt[0] == t);
        assert(pt.subrange(1, pt.len() as int) =~= Seq::<NptTagData>::empty());
        assert(view_tags(Seq::<NptTagData>::empty()) == Seq::<NbtValue>::empty());
        assert(view_tags(pt) =~= view_tags(s) + seq![view_tag(t)]);
    } else {
        assert(pt[0] == s[0]);
        assert(pt.subrange(1, pt.len() as int) =~= s.subrange(1, s.len() as int).push(t));
        lemma_view_tags_push(s.subrange(1, s.len() as int), t);
        assert(view_tags(pt) == seq![view_tag(s[0])] + (view_tags(s.subrange(1, s.len() as int))
            + seq![view_tag(t)]));
        assert(view_tags(pt) =~= view_tags(s) + seq![view_tag(t)]);
    }
}

pub proof fn lemma_view_named_tags_push(s: Seq<NptNamedTag>, t: NptNamedTag)
    ensures
        view_named_tags(s.push(t)) == view_named_tags(s) + seq![(t.0@, view_tag(t.1))],
    decreases s.len(),
{
    let pt = s.push(t);
    if s.len() == 0 {
        assert(pt[0] == t);
        assert(pt.subrange(1, pt.len() as int) =~= Seq::<NptNamedTag>::empty());
        assert(view_named_tags(Seq::<NptNamedTag>::empty()) == Seq::<(Seq<char>, NbtValue)>::empty());
        assert(view_named_tags(pt) =~= view_named_tags(s) + seq![(t.0@, view_tag(t.1))]);
    } else {
        assert(pt[0] == s[0]);
        assert(pt.subrange(1, pt.len() as int) =~= s.subrange(1, s.len() as int).push(t));
        lemma_view_named_tags_push(s.subrange(1, s.len() as int), t);
        assert(view_named_tags(pt) == seq![(s[0].0@, view_tag(s[0].1))] + (view_named_tags(
            s.subrange(1, s.len() as int),
        ) + seq![(t.0@, view_tag(t.1))]));
        assert(view_named_tags(pt) =~= view_named_tags(s) + seq![(t.0@, view_tag(t.1))]);
    }
}

/// Decode a name: a big-endian 16-bit count then that many bytes of
/// well-formed CESU-8.
pub open spec fn nbt_parse_name(s: Seq<u8>) -> NbtParsed<Seq<char>> {
    if s.len() >= 2 {
        let n = be_dec(s, 2) as int;
        if 2 + n <= s.len() {
            match cesu8_decode(s.subrange(2, 2 + n)) {
                Some(cs) => NbtParsed::Val(cs),
                None => NbtParsed::Bad(8),
            }
        } else {
            NbtParsed::Io
        }
    } else {
        NbtParsed::Io
    }
}

/// Decode the payload of a tag of type `ty` at the front of `s`.  This is
/// the value counterpart of `nbt_payload_len`: it is `Val` exactly where
/// that length is defined, and otherwise classifies the failure.
pub open spec fn nbt_parse_payload(ty: u8, s: Seq<u8>) -> NbtParsed<NbtValue>
    decreases s.len(), 1int, 0int,
{
    if ty == 0 {
        NbtParsed::Val(NbtValue::End)
    } else if ty == 1 {
        if s.len() >= 1 {
            NbtParsed::Val(NbtValue::Byte(crate::primitives::un_to_sig(be_dec(s, 1), 0x80, 0x100) as i8))
        } else {
            NbtParsed::Io
        }
    } else if ty == 2 {
        if s.len() >= 2 {
            NbtParsed::Val(
                NbtValue::Short(crate::primitives::un_to_sig(be_dec(s, 2), 0x8000, 0x1_0000) as i16),
            )
        } else {
            NbtParsed::Io
        }
    } else if ty == 3 {
        if s.len() >= 4 {
            NbtParsed::Val(
                NbtValue::Int(
                    crate::primitives::un_to_sig(be_dec(s, 4), 0x8000_0000, 0x1_0000_0000) as i32,
                ),
            )
        } else {
            NbtParsed::Io
        }
    } else if ty == 5 {
        if s.len() >= 4 {
            NbtParsed::Val(NbtValue::Float(be_dec(s, 4) as u32))
        } else {
            NbtParsed::Io
        }
    } else if ty == 4 {
        if s.len() >= 8 {
            NbtParsed::Val(
                NbtValue::Long(
                    crate::primitives::un_to_sig(
                        be_dec(s, 8),
                        0x8000_0000_0000_0000,
                        0x1_0000_0000_0000_0000,
                    ) as i64,
                ),
            )
        } else {
            NbtParsed::Io
        }
    } else if ty == 6 {
        if s.len() >= 8 {
            NbtParsed::Val(NbtValue::Double(be_dec(s, 8) as u64))
        } else {
            NbtParsed::Io
        }
    } else if ty == 7 {
        if s.len() >= 4 {
            let n = crate::primitives::un_to_sig(be_dec(s, 4), 0x8000_0000, 0x1_0000_0000);
            if n >= 0 && 4 + n <= s.len() {
                NbtParsed::Val(NbtValue::ByteArray(s.subrange(4, 4 + n)))
            } else {
                NbtParsed::Io
            }
        } else {
            NbtParsed::Io
        }
    } else if ty == 8 {
        match nbt_parse_name(s) {
            NbtParsed::Val(cs) => NbtParsed::Val(NbtValue::Str(cs)),
            NbtParsed::Io => NbtParsed::Io,
            NbtParsed::Bad(t) => NbtParsed::Bad(t),
        }
    } else if ty == 9 {
        if s.len() >= 5 {
            let et = s[0];
            let n = crate::primitives::un_to_sig(be_dec(s.skip(1), 4), 0x8000_0000, 0x1_0000_0000);
            if n >= 0 {
                match nbt_parse_list(et, n, s.skip(5)) {
                    NbtParsed::Val(items) => NbtParsed::Val(NbtValue::List(items)),
                    NbtParsed::Io => NbtParsed::Io,
                    NbtParsed::Bad(t) => NbtParsed::Bad(t),
                }
            } else {
                NbtParsed::Io
            }
        } else {
            NbtParsed::Io
        }
    } else if ty == 10 {
        match nbt_parse_compound(s) {
            NbtParsed::Val(ch) => NbtParsed::Val(NbtValue::Compound(ch)),
            NbtParsed::Io => NbtParsed::Io,
            NbtParsed::Bad(t) => NbtParsed::Bad(t),
        }
    } else if ty == 11 {
        if s.len() >= 4 {
            let n = crate::primitives::un_to_sig(be_dec(s, 4), 0x8000_0000, 0x1_0000_0000);
            if n >= 0 && 4 + 4 * n <= s.len() {
                NbtParsed::Val(
                    NbtValue::IntArray(
                        Seq::new(
                            n as nat,
                            |j: int|
                                crate::primitives::un_to_sig(
                                    be_dec(s.skip(4 + 4 * j), 4),
                                    0x8000_0000,
                                    0x1_0000_0000,
                                ) as i32,
                        ),
                    ),
                )
            } else {
                NbtParsed::Io
            }
        } else {
            NbtParsed::Io
        }
    } else if ty == 12 {
        if s.len() >= 4 {
            let n = crate::primitives::un_to_sig(be_dec(s, 4), 0x8000_0000, 0x1_0000_0000);
            if n >= 0 && 4 + 8 * n <= s.len() {
                NbtParsed::Val(
                    NbtValue::LongArray(
                        Seq::new(
                            n as nat,
                            |j: int|
                                crate::primitives::un_to_sig(
                                    be_dec(s.skip(4 + 8 * j), 8),
                                    0x8000_0000_0000_0000,
                                    0x1_0000_0000_0000_0000,
                                ) as i64,
                        ),
                    ),
                )
            } else {
                NbtParsed::Io
            }
        } else {
            NbtParsed::Io
        }
    } else {
        NbtParsed::Bad(ty)
    }
}

/// Decode `n` consecutive payloads of type `ty`.
pub open spec fn nbt_parse_list(ty: u8, n: int, s: Seq<u8>) -> NbtParsed<Seq<NbtValue>>
    decreases s.len(), 2int, n,
{
    if n <= 0 {
        NbtParsed::Val(Seq::empty())
    } else {
        match nbt_parse_payload(ty, s) {
            NbtParsed::Val(v) => {
                let k = nbt_payload_len(ty, s).unwrap();
                if 0 <= k <= s.len() {
                    match nbt_parse_list(ty, n - 1, s.skip(k)) {
                        NbtParsed::Val(rest) => NbtParsed::Val(seq![v] + rest),
                        NbtParsed::Io => NbtParsed::Io,
                        NbtParsed::Bad(t) => NbtParsed::Bad(t),
                    }
                } else {
                    NbtParsed::Io
                }
            },
            NbtParsed::Io => NbtParsed::Io,
            NbtParsed::Bad(t) => NbtParsed::Bad(t),
        }
    }
}

/// Decode a compound body: named children up to the terminating end tag,
/// in wire order, the end tag not included.
pub open spec fn nbt_parse_compound(s: Seq<u8>) -> NbtParsed<Seq<(Seq<char>, NbtValue)>>
    decreases s.len(), 0int, 0int,
{
    if s.len() == 0 {
        NbtParsed::Io
    } else if s[0] == 0 {
        NbtParsed::Val(Seq::empty())
    } else {
        match nbt_parse_name(s.skip(1)) {
            NbtParsed::Val(nm) => {
                let nl = 2 + be_dec(s.skip(1), 2) as int;
                match nbt_parse_payload(s[0], s.skip(1 + nl)) {
                    NbtParsed::Val(v) => {
                        let pl = nbt_payload_len(s[0], s.skip(1 + nl)).unwrap();
                        if 0 <= pl && 1 + nl + pl <= s.len() {
                            match nbt_parse_compound(s.skip(1 + nl + pl)) {
                                NbtParsed::Val(rest) => NbtParsed::Val(seq![(nm, v)] + rest),
                                NbtParsed::Io => NbtParsed::Io,
                                NbtParsed::Bad(t) => NbtParsed::Bad(t),
                            }
                        } else {
                            NbtParsed::Io
                        }
                    },
                    NbtParsed::Io => NbtParsed::Io,
                    NbtParsed::Bad(t) => NbtParsed::Bad(t),
                }
            },
            NbtParsed::Io => NbtParsed::Io,
            NbtParsed::Bad(t) => NbtParsed::Bad(t),
        }
    }
}

/// Decode one named tag, the form a top-of-packet compound takes: a bare
/// end tag stands for an empty-name `End`, anything else carries its name
/// and payload.
pub open spec fn nbt_parse_named(s: Seq<u8>) -> NbtParsed<(Seq<char>, NbtValue)> {
    if s.len() == 0 {
        NbtParsed::Io
    } else if s[0] == 0 {
        NbtParsed::Val((Seq::empty(), NbtValue::End))
    } else {
        match nbt_parse_name(s.skip(1)) {
            NbtParsed::Val(nm) => {
                let nl = 2 + be_dec(s.skip(1), 2) as int;
                match nbt_parse_payload(s[0], s.skip(1 + nl)) {
                    NbtParsed::Val(v) => {
                        let pl = nbt_payload_len(s[0], s.skip(1 + nl)).unwrap();
                        if 0 <= pl && 1 + nl + pl <= s.len() {
                            NbtParsed::Val((nm, v))
                        } else {
                            NbtParsed::Io
                        }
                    },
                    NbtParsed::Io => NbtParsed::Io,
                    NbtParsed::Bad(t) => NbtParsed::Bad(t),
                }
            },
            NbtParsed::Io => NbtParsed::Io,
            NbtParsed::Bad(t) => NbtParsed::Bad(t),
        }
    }
}

/// Every defined length is nonnegative.
pub proof fn lemma_nbt_lens_nonneg(ty: u8, n: int, s: Seq<u8>)
    ensures
        nbt_payload_len(ty, s) matches Some(k) ==> k >= 0,
        nbt_list_len(ty, n, s) matches Some(k) ==> k >= 0,
        nbt_compound_len(s) matches Some(k) ==> k >= 0,
    decreases s.len(), 3int, n,
{
    if n > 0 {
        if let Some(k) = nbt_payload_len(ty, s) {
            if 0 <= k <= s.len() {
                lemma_nbt_lens_nonneg(ty, n - 1, s.skip(k));
            }
        }
    }
    if ty == 9 && s.len() >= 5 {
        lemma_nbt_lens_nonneg(
            s[0],
            crate::primitives::un_to_sig(be_dec(s.skip(1), 4), 0x8000_0000, 0x1_0000_0000),
            s.skip(5),
        );
    }
    if s.len() > 0 && s[0] != 0 {
        if let Some(nl) = nbt_name_len(s.skip(1)) {
            if let Some(pl) = nbt_payload_len(s[0], s.skip(1 + nl)) {
                if 0 <= pl && 1 + nl + pl <= s.len() {
                    lemma_nbt_lens_nonneg(ty, 0, s.skip(1 + nl + pl));
                }
            }
            lemma_nbt_lens_nonneg(s[0], 0, s.skip(1 + nl));
        }
    }
}

/// Read a CESU-8 name: length prefix then bytes.
fn read_name(r: &mut Reader) -> (res: Result<String, MooshroomError>)
    requires
        old(r).wf(),
    ensures
        final(r).wf(),
        final(r).data() == old(r).data(),
        final(r).pos() >= old(r).pos(),
        match res {
            Ok(st) => {
                &&& nbt_name_len(old(r).remaining()) == Some(final(r).pos() - old(r).pos())
                &&& nbt_parse_name(old(r).remaining()) == NbtParsed::Val(st@)
            },
            Err(e) => {
                &&& nbt_name_len(old(r).remaining()) is None
                &&& match nbt_parse_name(old(r).remaining()) {
                    NbtParsed::Val(_) => false,
                    NbtParsed::Io => e is IoError,
                    NbtParsed::Bad(t) => e matches MooshroomError::InvalidNbtTag(b) && b == t,
                }
            },
        },
{
    let ghost s0 = old(r).remaining();
    let n128 = match crate::primitives::read_be(r, 2) {
        Ok(v) => v,
        Err(e) => {
            return Err(e);
        },
    };
    proof {
        lemma_be_dec_bound(s0, 2);
        lemma_pow256_values();
    }
    let n = n128 as u16;
    let bytes = match r.read_exact(n as usize) {
        Ok(v) => v,
        Err(e) => {
            return Err(e);
        },
    };
    proof {
        assert(bytes@ =~= s0.subrange(2, 2 + n as int));
    }
    match cesu8_to_string(bytes) {
        Some(st) => Ok(st),
        None => Err(MooshroomError::InvalidNbtTag(8)),
    }
}

impl NptTagData {
    /// Read the payload of a tag of type `ty`.  Unknown tag values surface
    /// `InvalidNbtTag`, truncated payloads `IoError`, and malformed CESU-8
    /// `InvalidNbtTag(8)`; the decoded tree is the one `nbt_parse_payload`
    /// gives the wire bytes.
    pub fn read_type(ty: u8, r: &mut Reader) -> (res: Result<NptTagData, MooshroomError>)
        requires
            old(r).wf(),
        ensures
            final(r).wf(),
            final(r).data() == old(r).data(),
            final(r).pos() >= old(r).pos(),
            match res {
                Ok(v) => {
                    &&& nbt_payload_len(ty, old(r).remaining()) == Some(
                        final(r).pos() - old(r).pos(),
                    )
                    &&& nbt_parse_payload(ty, old(r).remaining()) == NbtParsed::Val(view_tag(v))
                },
                Err(e) => {
                    &&& nbt_payload_len(ty, old(r).remaining()) is None
                    &&& match nbt_parse_payload(ty, old(r).remaining()) {
                        NbtParsed::Val(_) => false,
                        NbtParsed::Io => e is IoError,
                        NbtParsed::Bad(t) => e matches MooshroomError::InvalidNbtTag(b) && b == t,
                    }
                },
            },
            ty > 12 ==> (res matches Err(e) && e matches MooshroomError::InvalidNbtTag(t) && t
                == ty),
        decreases old(r).data().len() - old(r).pos(), 1int,
    {
        let ghost s0 = old(r).remaining();
        if ty == 0 {
            Ok(NptTagData::End)
        } else if ty == 1 {
            match <i8 as MooshroomReadable>::read(r) {
                Ok(v) => Ok(NptTagData::Byte(v)),
                Err(e) => Err(e),
            }
        } else if ty == 2 {
            match <i16 as MooshroomReadable>::read(r) {
                Ok(v) => Ok(NptTagData::Short(v)),
                Err(e) => Err(e),
            }
        } else if ty == 3 {
            match <i32 as MooshroomReadable>::read(r) {
                Ok(v) => Ok(NptTagData::Int(v)),
                Err(e) => Err(e),
            }
        } else if ty == 4 {
            match <i64 as MooshroomReadable>::read(r) {
                Ok(v) => Ok(NptTagData::Long(v)),
                Err(e) => Err(e),
            }
        } else if ty == 5 {
            match <F32Bits as MooshroomReadable>::read(r) {
                Ok(v) => Ok(NptTagData::Float(v)),
                Err(e) => Err(e),
            }
        } else if ty == 6 {
            match <F64Bits as MooshroomReadable>::read(r) {
                Ok(v) => Ok(NptTagData::Double(v)),
                Err(e) => Err(e),
            }
        } else if ty == 7 {
            Self::read_byte_array(r)
        } else if ty == 8 {
            match Self::read_string(r) {
                Ok(v) => Ok(NptTagData::Str(v)),
                Err(e) => Err(e),
            }
        } else if ty == 9 {
            Self::read_list(r)
        } else if ty == 10 {
            Self::read_compound(r)
        } else if ty == 11 {
            Self::read_int_array(r)
        } else if ty == 12 {
            Self::read_long_array(r)
        } else {
            Err(MooshroomError::InvalidNbtTag(ty))
        }
    }

    /// Read a byte array payload: a signed 32-bit count then raw bytes.
    pub fn read_byte_array(r: &mut Reader) -> (res: Result<NptTagData, MooshroomError>)
        requires
            old(r).wf(),
        ensures
            final(r).wf(),
            final(r).data() == old(r).data(),
            final(r).pos() >= old(r).pos(),
            match res {
                Ok(v) => {
                    &&& nbt_payload_len(7, old(r).remaining()) == Some(
                        final(r).pos() - old(r).pos(),
                    )
                    &&& nbt_parse_payload(7, old(r).remaining()) == NbtParsed::Val(view_tag(v))
                },
                Err(e) => {
                    &&& nbt_payload_len(7, old(r).remaining()) is None
                    &&& match nbt_parse_payload(7, old(r).remaining()) {
                        NbtParsed::Val(_) => false,
                        NbtParsed::Io => e is IoError,
                        NbtParsed::Bad(t) => e matches MooshroomError::InvalidNbtTag(b) && b == t,
                    }
                },
            },
    {
        let n = match <i32 as MooshroomReadable>::read(r) {
            Ok(v) => v,
            Err(e) => {
                return Err(e);
            },
        };
        proof {
            lemma_be_dec_bound(old(r).remaining(), 4);
            lemma_pow256_values();
            assert(crate::primitives::un_to_sig(be_dec(old(r).remaining(), 4), 0x8000_0000,
                0x1_0000_0000) == n as int);
            assert(r.remaining() =~= old(r).remaining().skip(4));
        }
        if n < 0 {
            return Err(MooshroomError::IoError);
        }
        match r.read_exact(n as usize) {
            Ok(v) => {
                proof {
                    assert(v@ =~= old(r).remaining().subrange(4, 4 + n as int));
                }
                Ok(NptTagData::ByteArray(v))
            },
            Err(e) => Err(e),
        }
    }

    /// Read a CESU-8 string payload.
    pub fn read_string(r: &mut Reader) -> (res: Result<String, MooshroomError>)
        requires
            old(r).wf(),
        ensures
            final(r).wf(),
            final(r).data() == old(r).data(),
            final(r).pos() >= old(r).pos(),
            match res {
                Ok(st) => {
                    &&& nbt_payload_len(8, old(r).remaining()) == Some(
                        final(r).pos() - old(r).pos(),
                    )
                    &&& nbt_parse_name(old(r).remaining()) == NbtParsed::Val(st@)
                },
                Err(e) => {
                    &&& nbt_payload_len(8, old(r).remaining()) is None
                    &&& match nbt_parse_name(old(r).remaining()) {
                        NbtParsed::Val(_) => false,
                        NbtParsed::Io => e is IoError,
                        NbtParsed::Bad(t) => e matches MooshroomError::InvalidNbtTag(b) && b == t,
                    }
                },
            },
    {
        read_name(r)
    }

    /// Read a homogeneous list payload: an element tag, a signed 32-bit
    /// count, then that many payloads of the element tag.  A negative
    /// count is rejected like an overrun input.
    #[verifier::loop_isolation(false)]
    #[verifier::rlimit(100)]
    pub fn read_list(r: &mut Reader) -> (res: Result<NptTagData, MooshroomError>)
        requires
            old(r).wf(),
        ensures
            final(r).wf(),
            final(r).data() == old(r).data(),
            final(r).pos() >= old(r).pos(),
            match res {
                Ok(v) => {
                    &&& nbt_payload_len(9, old(r).remaining()) == Some(
                        final(r).pos() - old(r).pos(),
                    )
                    &&& nbt_parse_payload(9, old(r).remaining()) == NbtParsed::Val(view_tag(v))
                },
                Err(e) => {
                    &&& nbt_payload_len(9, old(r).remaining()) is None
                    &&& match nbt_parse_payload(9, old(r).remaining()) {
                        NbtParsed::Val(_) => false,
                        NbtParsed::Io => e is IoError,
                        NbtParsed::Bad(t) => e matches MooshroomError::InvalidNbtTag(b) && b == t,
                    }
                },
            },
        decreases old(r).data().len() - old(r).pos(), 0int,
    {
        let ghost s0 = old(r).remaining();
        let et = match r.read_u8() {
            Ok(v) => v,
            Err(e) => {
                return Err(e);
            },
        };
        proof {
            assert(et == s0[0]);
            assert(r.remaining() =~= s0.skip(1));
        }
        let n = match <i32 as MooshroomReadable>::read(r) {
            Ok(v) => v,
            Err(e) => {
                proof {
                    assert(s0.skip(1).len() < 4);
                }
                return Err(e);
            },
        };
        proof {
            lemma_be_dec_bound(s0.skip(1), 4);
            lemma_pow256_values();
            assert(n as int == crate::primitives::un_to_sig(be_dec(s0.skip(1), 4), 0x8000_0000,
                0x1_0000_0000));
            assert(r.remaining() =~= s0.skip(5));
        }
        if n < 0 {
            return Err(MooshroomError::IoError);
        }
        let ghost p1 = r.pos();
        let ghost s1 = r.remaining();
        let mut items: Vec<NptTagData> = Vec::new();
        let mut i: u32 = 0;
        proof {
            assert(view_tags(items@) == Seq::<NbtValue>::empty());
            match nbt_parse_list(et, n as int, s1) {
                NbtParsed::Val(rest) => {
                    assert(Seq::<NbtValue>::empty() + rest =~= rest);
                },
                _ => {},
            }
        }
        while i < n as u32
            invariant
                r.wf(),
                r.data() == old(r).data(),
                i <= n as u32,
                0 <= p1 <= r.pos() <= r.data().len(),
                s1 == r.data().skip(p1),
                match nbt_list_len(et, n - i, r.remaining()) {
                    Some(m) => nbt_list_len(et, n as int, s1) == Some((r.pos() - p1) + m),
                    None => nbt_list_len(et, n as int, s1) is None,
                },
                match nbt_parse_list(et, n - i, r.remaining()) {
                    NbtParsed::Val(rest) => nbt_parse_list(et, n as int, s1) == NbtParsed::Val(
                        view_tags(items@) + rest,
                    ),
                    NbtParsed::Io => nbt_parse_list(et, n as int, s1) == NbtParsed::<Seq<NbtValue>>::Io,
                    NbtParsed::Bad(t) => nbt_parse_list(et, n as int, s1) == NbtParsed::<Seq<NbtValue>>::Bad(t),
                },
            decreases n as u32 - i,
        {
            let ghost si = r.remaining();
            let item = match Self::read_type(et, r) {
                Ok(v) => v,
                Err(e) => {
                    proof {
                        assert(nbt_list_len(et, n - i, si) is None);
                    }
                    return Err(e);
                },
            };
            proof {
                let k = nbt_payload_len(et, si).unwrap();
                assert(r.remaining() =~= si.skip(k));
                lemma_view_tags_push(items@, item);
                match nbt_parse_list(et, n - i - 1, r.remaining()) {
                    NbtParsed::Val(rest) => {
                        assert(view_tags(items@) + (seq![view_tag(item)] + rest) =~= view_tags(
                            items@.push(item),
                        ) + rest);
                    },
                    _ => {},
                }
            }
            items.push(item);
            i = i + 1;
        }
        proof {
            assert(nbt_list_len(et, 0, r.remaining()) == Some(0int));
            assert(nbt_parse_list(et, 0, r.remaining()) == NbtParsed::Val(Seq::<NbtValue>::empty()));
            assert(view_tags(items@) + Seq::<NbtValue>::empty() =~= view_tags(items@));
        }
        Ok(NptTagData::List(items))
    }

    /// Read an integer array payload.
    pub fn read_int_array(r: &mut Reader) -> (res: Result<NptTagData, MooshroomError>)
        requires
            old(r).wf(),
        ensures
            final(r).wf(),
            final(r).data() == old(r).data(),
            final(r).pos() >= old(r).pos(),
            match res {
                Ok(v) => {
                    &&& nbt_payload_len(11, old(r).remaining()) == Some(
                        final(r).pos() - old(r).pos(),
                    )
                    &&& nbt_parse_payload(11, old(r).remaining()) == NbtParsed::Val(view_tag(v))
                },
                Err(e) => {
                    &&& nbt_payload_len(11, old(r).remaining()) is None
                    &&& match nbt_parse_payload(11, old(r).remaining()) {
                        NbtParsed::Val(_) => false,
                        NbtParsed::Io => e is IoError,
                        NbtParsed::Bad(t) => e matches MooshroomError::InvalidNbtTag(b) && b == t,
                    }
                },
            },
    {
        let ghost s0 = old(r).remaining();
        let n = match <i32 as MooshroomReadable>::read(r) {
            Ok(v) => v,
            Err(e) => {
                return Err(e);
            },
        };
        proof {
            lemma_be_dec_bound(s0, 4);
            lemma_pow256_values();
            assert(crate::primitives::un_to_sig(be_dec(s0, 4), 0x8000_0000, 0x1_0000_0000)
                == n as int);
            assert(r.remaining() =~= s0.skip(4));
        }
        if n < 0 {
            return Err(MooshroomError::IoError);
        }
        let mut items: Vec<i32> = Vec::new();
        let mut i: u32 = 0;
        let ghost p1 = r.pos();
        let ghost elem = |j: int|
            crate::primitives::un_to_sig(
                be_dec(s0.skip(4 + 4 * j), 4),
                0x8000_0000,
                0x1_0000_0000,
            ) as i32;
        while i < n as u32
            invariant
                r.wf(),
                r.data() == old(r).data(),
                i <= n as u32,
                0 <= p1 <= r.pos() <= r.data().len(),
                r.pos() == p1 + 4 * i,
                p1 == old(r).pos() + 4,
                s0 == old(r).remaining(),
                s0.len() >= 4,
                s0.len() == r.data().len() - old(r).pos(),
                s0.skip(4) == r.data().skip(p1 as int),
                n >= 0,
                crate::primitives::un_to_sig(be_dec(s0, 4), 0x8000_0000, 0x1_0000_0000)
                    == n as int,
                elem == (|j: int|
                    crate::primitives::un_to_sig(
                        be_dec(s0.skip(4 + 4 * j), 4),
                        0x8000_0000,
                        0x1_0000_0000,
                    ) as i32),
                items@ == Seq::new(i as nat, elem),
            decreases n as u32 - i,
        {
            let ghost si = r.remaining();
            let v = match <i32 as MooshroomReadable>::read(r) {
                Ok(v) => v,
                Err(e) => {
                    proof {
                        assert(si.len() < 4);
                        assert(si.len() == s0.len() - 4 - 4 * (i as int));
                        assert(s0.len() < 4 + 4 * (n as int));
                    }
                    return Err(e);
                },
            };
            proof {
                assert(si == r.data().skip(p1 + 4 * (i as int)));
                assert(s0.skip(4).skip(4 * (i as int)) =~= s0.skip(4 + 4 * (i as int)));
                assert(r.data().skip(p1 as int).skip(4 * (i as int)) =~= r.data().skip(
                    p1 + 4 * (i as int),
                ));
                assert(si == s0.skip(4 + 4 * (i as int)));
                assert(v == elem(i as int));
                assert(Seq::new((i + 1) as nat, elem) =~= Seq::new(i as nat, elem).push(
                    elem(i as int),
                ));
            }
            items.push(v);
            i = i + 1;
        }
        proof {
            assert(r.remaining().len() == s0.len() - 4 - 4 * (n as int));
            assert(s0.len() >= 4 + 4 * (n as int));
            match nbt_parse_payload(11, s0) {
                NbtParsed::Val(w) => match w {
                    NbtValue::IntArray(q) => {
                        assert(items@ =~= q);
                    },
                    _ => {},
                },
                _ => {},
            }
        }
        Ok(NptTagData::IntArray(items))
    }

    /// Read a long array payload.
    pub fn read_long_array(r: &mut Reader) -> (res: Result<NptTagData, MooshroomError>)
        requires
            old(r).wf(),
        ensures
            final(r).wf(),
            final(r).data() == old(r).data(),
            final(r).pos() >= old(r).pos(),
            match res {
                Ok(v) => {
                    &&& nbt_payload_len(12, old(r).remaining()) == Some(
                        final(r).pos() - old(r).pos(),
                    )
                    &&& nbt_parse_payload(12, old(r).remaining()) == NbtParsed::Val(view_tag(v))
                },
                Err(e) => {
                    &&& nbt_payload_len(12, old(r).remaining()) is None
                    &&& match nbt_parse_payload(12, old(r).remaining()) {
                        NbtParsed::Val(_) => false,
                        NbtParsed::Io => e is IoError,
                        NbtParsed::Bad(t) => e matches MooshroomError::InvalidNbtTag(b) && b == t,
                    }
                },
            },
    {
        let ghost s0 = old(r).remaining();
        let n = match <i32 as MooshroomReadable>::read(r) {
            Ok(v) => v,
            Err(e) => {
                return Err(e);
            },
        };
        proof {
            lemma_be_dec_bound(s0, 4);
            lemma_pow256_values();
            assert(crate::primitives::un_to_sig(be_dec(s0, 4), 0x8000_0000, 0x1_0000_0000)
                == n as int);
            assert(r.remaining() =~= s0.skip(4));
        }
        if n < 0 {
            return Err(MooshroomError::IoError);
        }
        let mut items: Vec<i64> = Vec::new();
        let mut i: u32 = 0;
        let ghost p1 = r.pos();
        let ghost elem = |j: int|
            crate::primitives::un_to_sig(
                be_dec(s0.skip(4 + 8 * j), 8),
                0x8000_0000_0000_0000,
                0x1_0000_0000_0000_0000,
            ) as i64;
        while i < n as u32
            invariant
                r.wf(),
                r.data() == old(r).data(),
                i <= n as u32,
                0 <= p1 <= r.pos() <= r.data().len(),
                r.pos() == p1 + 8 * i,
                p1 == old(r).pos() + 4,
                s0 == old(r).remaining(),
                s0.len() >= 4,
                s0.len() == r.data().len() - old(r).pos(),
                s0.skip(4) == r.data().skip(p1 as int),
                n >= 0,
                crate::primitives::un_to_sig(be_dec(s0, 4), 0x8000_0000, 0x1_0000_0000)
                    == n as int,
                elem == (|j: int|
                    crate::primitives::un_to_sig(
                        be_dec(s0.skip(4 + 8 * j), 8),
                        0x8000_0000_0000_0000,
                        0x1_0000_0000_0000_0000,
                    ) as i64),
                items@ == Seq::new(i as nat, elem),
            decreases n as u32 - i,
        {
            let ghost si = r.remaining();
            let v = match <i64 as MooshroomReadable>::read(r) {
                Ok(v) => v,
                Err(e) => {
                    proof {
                        assert(si.len() < 8);
                        assert(si.len() == s0.len() - 4 - 8 * (i as int));
                        assert(s0.len() < 4 + 8 * (n as int));
                    }
                    return Err(e);
                },
            };
            proof {
                assert(si == r.data().skip(p1 + 8 * (i as int)));
                assert(s0.skip(4).skip(8 * (i as int)) =~= s0.skip(4 + 8 * (i as int)));
                assert(r.data().skip(p1 as int).skip(8 * (i as int)) =~= r.data().skip(
                    p1 + 8 * (i as int),
                ));
                assert(si == s0.skip(4 + 8 * (i as int)));
                assert(v == elem(i as int));
                assert(Seq::new((i + 1) as nat, elem) =~= Seq::new(i as nat, elem).push(
                    elem(i as int),
                ));
            }
            items.push(v);
            i = i + 1;
        }
        proof {
            assert(r.remaining().len() == s0.len() - 4 - 8 * (n as int));
            assert(s0.len() >= 4 + 8 * (n as int));
            match nbt_parse_payload(12, s0) {
                NbtParsed::Val(w) => match w {
                    NbtValue::LongArray(q) => {
                        assert(items@ =~= q);
                    },
                    _ => {},
                },
                _ => {},
            }
        }
        Ok(NptTagData::LongArray(items))
    }

    /// Read one named child: a tag byte, then name and payload unless the
    /// tag is the end marker.
    pub fn read_compound_body(r: &mut Reader) -> (res: Result<NptNamedTag, MooshroomError>)
        requires
            old(r).wf(),
        ensures
            final(r).wf(),
            final(r).data() == old(r).data(),
            final(r).pos() >= old(r).pos(),
            final(r).pos() > old(r).pos() || res is Err,
            match res {
                Ok(nt) => {
                    &&& nbt_named_len(old(r).remaining()) == Some(
                        final(r).pos() - old(r).pos(),
                    )
                    &&& nbt_parse_named(old(r).remaining()) == NbtParsed::Val(
                        (nt.0@, view_tag(nt.1)),
                    )
                },
                Err(e) => {
                    &&& nbt_named_len(old(r).remaining()) is None
                    &&& match nbt_parse_named(old(r).remaining()) {
                        NbtParsed::Val(_) => false,
                        NbtParsed::Io => e is IoError,
                        NbtParsed::Bad(t) => e matches MooshroomError::InvalidNbtTag(b) && b == t,
                    }
                },
            },
        decreases old(r).data().len() - old(r).pos(), 2int,
    {
        let ghost s0 = old(r).remaining();
        let ty = match r.read_u8() {
            Ok(v) => v,
            Err(e) => {
                return Err(e);
            },
        };
        if ty == 0 {
            return Ok(NptNamedTag(String::new(), NptTagData::End));
        }
        proof {
            assert(r.remaining() =~= s0.skip(1));
        }
        let ghost p1 = r.pos();
        let name = match read_name(r) {
            Ok(v) => v,
            Err(e) => {
                return Err(e);
            },
        };
        proof {
            assert(r.remaining() =~= s0.skip(1 + (r.pos() - p1)));
        }
        let tag = match Self::read_type(ty, r) {
            Ok(v) => v,
            Err(e) => {
                return Err(e);
            },
        };
        proof {
            lemma_nbt_lens_nonneg(ty, 0, s0.skip(1 + nbt_name_len(s0.skip(1)).unwrap()));
        }
        Ok(NptNamedTag(name, tag))
    }

    /// Read a compound payload: named children up to the end marker.
    #[verifier::loop_isolation(false)]
    #[verifier::rlimit(100)]
    pub fn read_compound(r: &mut Reader) -> (res: Result<NptTagData, MooshroomError>)
        requires
            old(r).wf(),
        ensures
            final(r).wf(),
            final(r).data() == old(r).data(),
            final(r).pos() >= old(r).pos(),
            match res {
                Ok(v) => {
                    &&& nbt_compound_len(old(r).remaining()) == Some(
                        final(r).pos() - old(r).pos(),
                    )
                    &&& nbt_parse_payload(10, old(r).remaining()) == NbtParsed::Val(view_tag(v))
                },
                Err(e) => {
                    &&& nbt_compound_len(old(r).remaining()) is None
                    &&& match nbt_parse_payload(10, old(r).remaining()) {
                        NbtParsed::Val(_) => false,
                        NbtParsed::Io => e is IoError,
                        NbtParsed::Bad(t) => e matches MooshroomError::InvalidNbtTag(b) && b == t,
                    }
                },
            },
        decreases old(r).data().len() - old(r).pos(), 0int,
    {
        let ghost s0 = old(r).remaining();
        let ghost p0 = old(r).pos();
        let mut items: Vec<NptNamedTag> = Vec::new();
        proof {
            assert(view_named_tags(items@) == Seq::<(Seq<char>, NbtValue)>::empty());
            match nbt_parse_compound(s0) {
                NbtParsed::Val(rest) => {
                    assert(Seq::<(Seq<char>, NbtValue)>::empty() + rest =~= rest);
                },
                _ => {},
            }
        }
        loop
            invariant
                r.wf(),
                r.data() == old(r).data(),
                p0 <= r.pos() <= r.data().len(),
                s0 == r.data().skip(p0),
                match nbt_compound_len(r.remaining()) {
                    Some(m) => nbt_compound_len(s0) == Some((r.pos() - p0) + m),
                    None => nbt_compound_len(s0) is None,
                },
                match nbt_parse_compound(r.remaining()) {
                    NbtParsed::Val(rest) => nbt_parse_compound(s0) == NbtParsed::Val(
                        view_named_tags(items@) + rest,
                    ),
                    NbtParsed::Io => nbt_parse_compound(s0) == NbtParsed::<Seq<(Seq<char>, NbtValue)>>::Io,
                    NbtParsed::Bad(t) => nbt_parse_compound(s0) == NbtParsed::<Seq<(Seq<char>, NbtValue)>>::Bad(t),
                },
            decreases r.data().len() - r.pos(),
        {
            let ghost si = r.remaining();
            let ty = match r.read_u8() {
                Ok(v) => v,
                Err(e) => {
                    return Err(e);
                },
            };
            if ty == 0 {
                proof {
                    assert(si[0] == 0);
                    assert(nbt_compound_len(si) == Some(1int));
                    assert(nbt_parse_compound(si) == NbtParsed::Val(
                        Seq::<(Seq<char>, NbtValue)>::empty(),
                    ));
                    assert(view_named_tags(items@) + Seq::<(Seq<char>, NbtValue)>::empty()
                        =~= view_named_tags(items@));
                }
                return Ok(NptTagData::Compount(items));
            }
            proof {
                assert(r.remaining() =~= si.skip(1));
            }
            let ghost p1 = r.pos();
            let name = match read_name(r) {
                Ok(v) => v,
                Err(e) => {
                    return Err(e);
                },
            };
            proof {
                assert(r.remaining() =~= si.skip(1).skip(r.pos() - p1));
                assert(si.skip(1).skip(r.pos() - p1) =~= si.skip(1 + (r.pos() - p1)));
            }
            let ghost p2 = r.pos();
            let ghost nl = p2 - p1;
            let payload = match NptTagData::read_type(ty, r) {
                Ok(v) => v,
                Err(e) => {
                    return Err(e);
                },
            };
            proof {
                let pl = r.pos() - p2;
                assert(r.remaining() =~= si.skip(1 + nl + pl));
                lemma_view_named_tags_push(items@, NptNamedTag(name, payload));
                match nbt_parse_compound(r.remaining()) {
                    NbtParsed::Val(rest) => {
                        assert(view_named_tags(items@) + (seq![(name@, view_tag(payload))] + rest)
                            =~= view_named_tags(items@.push(NptNamedTag(name, payload))) + rest);
                    },
                    _ => {},
                }
            }
            items.push(NptNamedTag(name, payload));
        }
    }
}

impl NptCompound {
    /// Read one named compound and keep its wire bytes.
    pub fn read_compound_bytes(r: &mut Reader) -> (res: Result<NptCompound, MooshroomError>)
        requires
            old(r).wf(),
        ensures
            final(r).wf(),
            final(r).data() == old(r).data(),
            final(r).pos() >= old(r).pos(),
            match res {
                Ok(v) => {
                    &&& nbt_named_len(old(r).remaining()) == Some(final(r).pos() - old(r).pos())
                    &&& v.raw@ == old(r).remaining().take(final(r).pos() - old(r).pos())
                    &&& nbt_parse_named(old(r).remaining()) == NbtParsed::Val(
                        (v.tag.0@, view_tag(v.tag.1)),
                    )
                },
                Err(e) => {
                    &&& nbt_named_len(old(r).remaining()) is None
                    &&& match nbt_parse_named(old(r).remaining()) {
                        NbtParsed::Val(_) => false,
                        NbtParsed::Io => e is IoError,
                        NbtParsed::Bad(t) => e matches MooshroomError::InvalidNbtTag(b) && b == t,
                    }
                },
            },
    {
        let ghost s0 = old(r).remaining();
        let start = r.mark();
        let tag = match NptTagData::read_compound_body(r) {
            Ok(v) => v,
            Err(e) => {
                return Err(e);
            },
        };
        let raw = r.copy_since(start);
        proof {
            assert(raw@ =~= s0.take(r.pos() - old(r).pos()));
        }
        Ok(NptCompound { tag, raw })
    }
}

/// The view of a compound is the byte run it occupies on the wire.
impl DeepView for NptCompound {
    type V = Seq<u8>;

    open spec fn deep_view(&self) -> Seq<u8> {
        self.raw@
    }
}

impl MooshroomReadable for NptCompound {
    open spec fn dec(s: Seq<u8>) -> Option<(Seq<u8>, int)> {
        match nbt_named_len(s) {
            Some(n) => Some((s.take(n), n)),
            None => None,
        }
    }

    fn read(r: &mut Reader) -> (res: Result<Self, MooshroomError>)
        ensures
            res matches Ok(v) ==> nbt_parse_named(old(r).remaining()) == NbtParsed::Val(
                (v.tag.0@, view_tag(v.tag.1)),
            ),
            res matches Err(e) ==> match nbt_parse_named(old(r).remaining()) {
                NbtParsed::Val(_) => false,
                NbtParsed::Io => e is IoError,
                NbtParsed::Bad(t) => e matches MooshroomError::InvalidNbtTag(b) && b == t,
            },
    {
        NptCompound::read_compound_bytes(r)
    }
}

} // verus!
