use vstd::prelude::*;

verus! {

/// Every failure the protocol layer can surface.
///
/// `IoError` stands for an exhausted input: the byte source ended in the
/// middle of a value.  All other variants are decode failures of a complete
/// frame and are fatal for that frame.
#[derive(Debug, Clone)]
pub enum MooshroomError {
    IoError,
    VarIntTooLong,
    WrongPacket(i32),
    InvalidHandshakeState(i32),
    InvalidString,
    InvalidJson(String),
    UnexpectedPacket(i32, i32),
    NotInCollection(i32),
    InvalidNbtTag(u8),
    InvalidEnumVariant(i32),
    InvalidId(String),
    NoId,
    Other(String),
}

} // verus!
