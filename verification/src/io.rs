use vstd::prelude::*;

use crate::error::MooshroomError;
use crate::reader::Reader;

verus! {

/// A value with a wire encoding.
///
/// `enc` is the exact byte sequence the value occupies on the wire; `write`
/// appends precisely those bytes.
pub trait MooshroomWritable: DeepView {
    spec fn enc(&self) -> Seq<u8>;

    fn write(&self, w: &mut Vec<u8>)
        ensures
            final(w)@ == old(w)@ + self.enc(),
    ;
}

/// A value that can be decoded from the front of a byte sequence.
///
/// `dec` is the mathematical decoder, stated over deep views so that it can
/// name heap-backed values: `Some((v, n))` means the first `n` bytes of `s`
/// decode to a value whose deep view is `v`; `None` means no prefix of `s`
/// decodes.  `read` agrees with `dec` on the reader's remaining bytes.
pub trait MooshroomReadable: DeepView + Sized {
    spec fn dec(s: Seq<u8>) -> Option<(Self::V, int)>;

    fn read(r: &mut Reader) -> (res: Result<Self, MooshroomError>)
        requires
            old(r).wf(),
        ensures
            final(r).wf(),
            final(r).data() == old(r).data(),
            final(r).pos() >= old(r).pos(),
            match res {
                Ok(v) => Self::dec(old(r).remaining()) == Some(
                    (v.deep_view(), final(r).pos() - old(r).pos()),
                ),
                Err(_) => Self::dec(old(r).remaining()) is None,
            },
    ;
}

/// Decoding inverts encoding: whatever bytes follow, reading back a written
/// value yields that value and consumes exactly its encoding.
///
/// `wire_bounded` carves out the values whose encoding is faithful; for most
/// types it is `true`.  Length-prefixed values whose byte count overflows the
/// 32-bit length prefix are the exception.
pub trait MooshroomRoundTrip: MooshroomReadable + MooshroomWritable {
    spec fn wire_bounded(&self) -> bool;

    proof fn lemma_round_trip(&self, rest: Seq<u8>)
        requires
            self.wire_bounded(),
        ensures
            Self::dec(self.enc() + rest) == Some((self.deep_view(), self.enc().len() as int)),
    ;
}

/// A packet body bound to a numeric packet identifier.
///
/// Bodies carry no length prefix or terminator of their own; framing is
/// external.  Inbound-only packets whose fields cannot be re-encoded (the
/// NBT-bearing ones) implement this without `MooshroomWritable`.
pub trait MooshroomPacket: MooshroomReadable {
    spec fn spec_packet_id() -> i32;

    fn packet_id() -> (id: i32)
        ensures
            id == Self::spec_packet_id(),
    ;
}

/// A request packet whose reply is a fixed packet type.
pub trait MooshroomCommand: MooshroomPacket {
    type Response: MooshroomPacket;
}

pub broadcast proof fn lemma_concat_assoc<A>(a: Seq<A>, b: Seq<A>, c: Seq<A>)
    ensures
        #![trigger (a + b) + c]
        (a + b) + c == a + (b + c),
{
    assert((a + b) + c =~= a + (b + c));
}

pub broadcast proof fn lemma_concat_skip_prefix<A>(a: Seq<A>, b: Seq<A>)
    ensures
        #![trigger (a + b).skip(a.len() as int)]
        (a + b).skip(a.len() as int) == b,
{
    assert((a + b).skip(a.len() as int) =~= b);
}

pub broadcast proof fn lemma_skip_of_skip<A>(s: Seq<A>, m: int, n: int)
    requires
        0 <= m,
        0 <= n,
        m + n <= s.len(),
    ensures
        #![trigger s.skip(m).skip(n)]
        s.skip(m).skip(n) == s.skip(m + n),
{
    assert(s.skip(m).skip(n) =~= s.skip(m + n));
}

} // verus!
