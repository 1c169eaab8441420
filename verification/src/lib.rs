use vstd::prelude::*;

pub mod client;
pub mod codec;
pub mod connection;
pub mod containers;
pub mod data;
pub mod error;
pub mod io;
pub mod primitives;
pub mod reader;
pub mod server;
pub mod shared;
pub mod types;
pub mod varint;

verus! {

/// Protocol version identifier for Minecraft Java Edition 1.19.2.
pub const DEFAULT_PROTOCAL_VERSION: i32 = 760;

} // verus!
