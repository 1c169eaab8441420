use vstd::prelude::*;

verus! {

/// A chat component, carried on the wire as its JSON text.
pub type Chat = String;

} // verus!
