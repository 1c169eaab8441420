pub mod handshake;
pub mod login;
pub mod metadata;
pub mod player;
pub mod status;
