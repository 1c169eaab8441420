use mooshroom::client::handshake::{Handshake, HandshakeState};
use mooshroom::client::status::StatusRequest;
use mooshroom::data::{MooshroomBitFlag, MooshroomIdentifiable, MooshroomUpdatable, MooshroomValue};
use mooshroom::data::entity_data::{EntityFlags, EntityMetadata, EntityMetatataValue, EntityType};
use mooshroom::error::MooshroomError;
use mooshroom::io::{MooshroomPacket, MooshroomReadable, MooshroomWritable};
use mooshroom::primitives::{Position, Uuid};
use mooshroom::reader::Reader;
use mooshroom::server::play::world::{GameMode, PackedXZ};
use mooshroom::varint::VarInt;

fn check_packet_number<T: MooshroomPacket>(_: T, id: i32) {
    assert_eq!(T::packet_id(), id);
}

#[test]
fn test_derive_handshake() {
    check_packet_number(Handshake::default(), 0);
}

#[test]
fn test_derive_server_status() {
    check_packet_number(StatusRequest::default(), 0);
}

#[test]
fn test_server_status_no_body() {
    let mut b = Vec::new();
    StatusRequest::default().write(&mut b);
    assert!(b.is_empty())
}

#[test]
fn handshake_round_trip() {
    let p = Handshake {
        protocol_version: VarInt(760),
        server_address: "example.invalid".to_string(),
        server_port: 25565,
        next_state: HandshakeState::Status,
    };
    let mut b = Vec::new();
    p.write(&mut b);
    let mut r = Reader::new(b);
    let q = Handshake::read(&mut r).unwrap();
    assert_eq!(p, q);
}

#[test]
fn string_round_trip() {
    let s = "sphinx of black quartz, judge my vow \u{1F5FF}".to_string();
    let mut b = Vec::new();
    s.write(&mut b);
    let mut r = Reader::new(b);
    let t = String::read(&mut r).unwrap();
    assert_eq!(s, t);
}

#[test]
fn string_invalid_utf8_rejected() {
    let mut r = Reader::new(vec![2, 0xff, 0xfe]);
    let e = String::read(&mut r).unwrap_err();
    assert!(matches!(e, MooshroomError::InvalidString));
}

#[test]
fn vec_round_trip() {
    let v: Vec<u16> = vec![1, 2, 65535, 42];
    let mut b = Vec::new();
    v.write(&mut b);
    assert_eq!(b[0], 4);
    let mut r = Reader::new(b);
    let w = Vec::<u16>::read(&mut r).unwrap();
    assert_eq!(v, w);
}

#[test]
fn position_packs_big_endian() {
    let p = Position { x: -1, z: 100, y: 64 };
    let mut b = Vec::new();
    p.write(&mut b);
    assert_eq!(b.len(), 8);
    let mut r = Reader::new(b);
    let q = Position::read(&mut r).unwrap();
    assert_eq!(p, q);
}

#[test]
fn uuid_round_trip() {
    let u = Uuid::new(0x156062c2952f3cd3b877c03b38f69c30);
    let mut b = Vec::new();
    u.write(&mut b);
    assert_eq!(b.len(), 16);
    assert_eq!(b[0], 0x15);
    assert_eq!(b[15], 0x30);
    let mut r = Reader::new(b);
    assert_eq!(Uuid::read(&mut r).unwrap(), u);
}

#[test]
fn handshake_state_values() {
    assert_eq!(HandshakeState::from_value(1).unwrap(), HandshakeState::Status);
    assert_eq!(HandshakeState::from_value(2).unwrap(), HandshakeState::Login);
    let e = HandshakeState::from_value(3).unwrap_err();
    assert!(matches!(e, MooshroomError::InvalidHandshakeState(3)));
}

#[test]
fn game_mode_wire_values() {
    let mut b = Vec::new();
    GameMode::Unset.write(&mut b);
    assert_eq!(b, vec![0xff]);
    let mut r = Reader::new(vec![0x03]);
    assert_eq!(GameMode::read(&mut r).unwrap(), GameMode::Spectator);
    let mut r = Reader::new(vec![0x09]);
    let e = GameMode::read(&mut r).unwrap_err();
    assert!(matches!(e, MooshroomError::InvalidEnumVariant(9)));
}

#[test]
fn entity_type_identifiers() {
    assert_eq!(EntityType::Cow.to_id().unwrap(), "minecraft:cow");
    assert_eq!(
        EntityType::from_id("minecraft:mooshroom").unwrap(),
        EntityType::Mooshroom
    );
    let e = EntityType::from_id("minecraft:philosopher").unwrap_err();
    assert!(matches!(e, MooshroomError::InvalidId(_)));
    assert_eq!(EntityType::Mooshroom.to_value().unwrap(), 61);
    assert_eq!(EntityType::from_value(116).unwrap(), EntityType::Player);
}

#[test]
fn entity_flags_bits() {
    let f = EntityFlags::from_value(0x61);
    assert!(f.is_on_fire);
    assert!(f.is_invisible);
    assert!(f.has_glowing_effect);
    assert!(!f.is_flying_with_elytra);
    assert_eq!(f.to_value(), 0x61);
    let g = EntityFlags::from_value(0x80);
    assert!(g.is_flying_with_elytra);
    assert!(!g.has_glowing_effect);
}

#[test]
fn packed_xz_unpacks_signed_nibbles() {
    let p = PackedXZ(0x12);
    assert_eq!(p.unpack(), (1, 2));
    let n = PackedXZ(-1);
    assert_eq!(n.unpack(), (-1, -1));
}

#[test]
fn metadata_update_assigns_one_field() {
    let mut m = EntityMetadata::default();
    m.update(EntityMetatataValue::AirTicks(VarInt(77)));
    assert_eq!(m.air_ticks, VarInt(77));
    m.update(EntityMetatataValue::IsSilent(true));
    assert_eq!(m.air_ticks, VarInt(77));
    assert!(m.is_silent);
}
