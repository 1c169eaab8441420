pub mod entity_data;

use vstd::prelude::*;

use crate::error::MooshroomError;
use crate::reader::Reader;

verus! {

/// An enum carried on the wire as an integer discriminant.
///
/// `spec_value` is the discriminant of a variant; `spec_from_value` maps a
/// discriminant back, `None` outside the declared range.
pub trait MooshroomValue: Sized {
    spec fn spec_value(&self) -> int;

    spec fn spec_from_value(v: int) -> Option<Self>;

    fn from_value(v: i32) -> (res: Result<Self, MooshroomError>)
        ensures
            match res {
                Ok(e) => Self::spec_from_value(v as int) == Some(e),
                Err(err) => {
                    &&& Self::spec_from_value(v as int) is None
                    &&& err matches MooshroomError::InvalidEnumVariant(i) && i == v
                },
            },
    ;

    fn to_value(&self) -> (res: Result<i32, MooshroomError>)
        ensures
            res matches Ok(i) && i as int == self.spec_value(),
    ;
}

/// An enum that also carries a namespaced string identity, such as
/// `minecraft:cow`.
pub trait MooshroomIdentifiable: Sized {
    spec fn spec_to_id(&self) -> Option<Seq<char>>;

    spec fn spec_from_id(s: Seq<char>) -> Option<Self>;

    fn to_id(&self) -> (res: Result<&'static str, MooshroomError>)
        ensures
            match res {
                Ok(s) => self.spec_to_id() == Some(s@),
                Err(_) => self.spec_to_id() is None,
            },
    ;

    fn from_id(id: &str) -> (res: Result<Self, MooshroomError>)
        ensures
            match res {
                Ok(e) => Self::spec_from_id(id@) == Some(e),
                Err(_) => Self::spec_from_id(id@) is None,
            },
    ;
}

/// A fixed-width integer read as a set of named single-bit flags.
pub trait MooshroomBitFlag: Sized {
    spec fn spec_value(&self) -> u8;

    spec fn spec_from_value(v: u8) -> Self;

    fn from_value(v: u8) -> (r: Self)
        ensures
            r == Self::spec_from_value(v),
    ;

    fn to_value(&self) -> (r: u8)
        ensures
            r == self.spec_value(),
    ;
}

/// A sum of packet bodies dispatched by the frame's packet identifier.
///
/// `dec_one_of(id, s)` decodes the body for variant `id` from the front of
/// `s`; an identifier no variant claims is outside the collection and
/// surfaces `NotInCollection`.
pub trait MooshroomCollection: DeepView + Sized {
    spec fn spec_in_collection(id: i32) -> bool;

    spec fn dec_one_of(id: i32, s: Seq<u8>) -> Option<(Self::V, int)>;

    fn read_one_of(id: i32, r: &mut Reader) -> (res: Result<Self, MooshroomError>)
        requires
            old(r).wf(),
        ensures
            final(r).wf(),
            final(r).data() == old(r).data(),
            final(r).pos() >= old(r).pos(),
            match res {
                Ok(v) => Self::spec_in_collection(id) && Self::dec_one_of(id, old(r).remaining())
                    == Some((v.deep_view(), final(r).pos() - old(r).pos())),
                Err(e) => {
                    &&& Self::spec_in_collection(id) ==> Self::dec_one_of(
                        id,
                        old(r).remaining(),
                    ) is None
                    &&& !Self::spec_in_collection(id) ==> (
                    e matches MooshroomError::NotInCollection(i) && i == id)
                },
            },
    ;
}

/// The write side of a collection: each variant knows its identifier and
/// emits its body.
pub trait MooshroomCollectionWrite: MooshroomCollection {
    spec fn spec_variant_id(&self) -> i32;

    spec fn enc_body(&self) -> Seq<u8>;

    fn variant_id(&self) -> (id: i32)
        ensures
            id == self.spec_variant_id(),
    ;

    fn write_one_of(&self, w: &mut Vec<u8>)
        ensures
            final(w)@ == old(w)@ + self.enc_body(),
    ;
}

/// A sparse record updated one keyed field at a time: `update` assigns the
/// field the value variant selects and leaves every other field unchanged,
/// which is exactly what `spec_update` says.
pub trait MooshroomUpdatable: Sized {
    type Type;

    spec fn spec_update(self, value: Self::Type) -> Self;

    fn update(&mut self, value: Self::Type)
        ensures
            *final(self) == old(self).spec_update(value),
    ;
}

} // verus!
