use vstd::prelude::*;

use crate::error::MooshroomError;
use crate::io::{MooshroomReadable, MooshroomRoundTrip, MooshroomWritable};
use crate::reader::Reader;

verus! {

/// A value carried on the wire as a protocol string holding its JSON text.
///
/// The codec transports the text; turning it into structured data is the
/// caller's business.
#[derive(Clone, Debug, Default, PartialEq)]
pub struct Json<T> {
    pub data: T,
}

impl<T> Json<T> {
    pub fn new(v: T) -> (r: Self)
        ensures
            r.data == v,
    {
        Json { data: v }
    }

    pub fn into_inner(self) -> (r: T)
        ensures
            r == self.data,
    {
        self.data
    }

    pub fn as_ref(&self) -> (r: &T)
        ensures
            r == &self.data,
    {
        &self.data
    }
}

impl<T: DeepView> DeepView for Json<T> {
    type V = T::V;

    open spec fn deep_view(&self) -> T::V {
        self.data.deep_view()
    }
}

impl MooshroomWritable for Json<String> {
    open spec fn enc(&self) -> Seq<u8> {
        self.data.enc()
    }

    fn write(&self, w: &mut Vec<u8>) {
        self.data.write(w);
    }
}

impl MooshroomReadable for Json<String> {
    open spec fn dec(s: Seq<u8>) -> Option<(Seq<char>, int)> {
        <String as MooshroomReadable>::dec(s)
    }

    fn read(r: &mut Reader) -> (res: Result<Self, MooshroomError>) {
        match <String as MooshroomReadable>::read(r) {
            Ok(s) => Ok(Json { data: s }),
            Err(e) => Err(e),
        }
    }
}

impl MooshroomRoundTrip for Json<String> {
    open spec fn wire_bounded(&self) -> bool {
        self.data.wire_bounded()
    }

    proof fn lemma_round_trip(&self, rest: Seq<u8>) {
        self.data.lemma_round_trip(rest);
    }
}

/// An optional value with an explicit presence byte, kept distinct from
/// `Option` where the original interface used a dedicated wrapper.
#[derive(Clone, Debug, Default, PartialEq)]
pub struct TOption<T>(pub Option<T>);

impl<T> TOption<T> {
    pub fn new(v: Option<T>) -> (r: Self)
        ensures
            r.0 == v,
    {
        TOption(v)
    }

    pub fn into_option(self) -> (r: Option<T>)
        ensures
            r == self.0,
    {
        self.0
    }
}

impl<T: DeepView> DeepView for TOption<T> {
    type V = Option<T::V>;

    open spec fn deep_view(&self) -> Option<T::V> {
        self.0.deep_view()
    }
}

impl<T: MooshroomWritable> MooshroomWritable for TOption<T> {
    open spec fn enc(&self) -> Seq<u8> {
        self.0.enc()
    }

    fn write(&self, w: &mut Vec<u8>) {
        self.0.write(w);
    }
}

impl<T: MooshroomReadable> MooshroomReadable for TOption<T> {
    open spec fn dec(s: Seq<u8>) -> Option<(Option<T::V>, int)> {
        <Option<T> as MooshroomReadable>::dec(s)
    }

    fn read(r: &mut Reader) -> (res: Result<Self, MooshroomError>) {
        match <Option<T> as MooshroomReadable>::read(r) {
            Ok(v) => Ok(TOption(v)),
            Err(e) => Err(e),
        }
    }
}

impl<T: MooshroomRoundTrip> MooshroomRoundTrip for TOption<T> {
    open spec fn wire_bounded(&self) -> bool {
        self.0.wire_bounded()
    }

    proof fn lemma_round_trip(&self, rest: Seq<u8>) {
        self.0.lemma_round_trip(rest);
    }
}

} // verus!
